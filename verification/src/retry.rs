//! The bounded retry policy a chapter fetch runs under.
//!
//! One fetch is tried up to `MAX_FETCH_ATTEMPTS` times, with no delay between
//! attempts; the first success stops the retries, and a fetch whose attempts
//! are all spent fails terminally for that chapter.

use vstd::prelude::*;

verus! {

/// The attempt ceiling: a failing fetch is tried at most this many times.
pub const MAX_FETCH_ATTEMPTS: u64 = 5;

/// The outcome of the `i`-th attempt (counted from 0) when the outcomes of
/// the attempts that would be made stand in `outcomes`; an attempt beyond the
/// given sequence counts as a failure.
pub open spec fn attempt_result(outcomes: Seq<bool>, i: int) -> bool {
    0 <= i < outcomes.len() && outcomes[i]
}

/// How many attempts the retry loop makes from attempt `i` on with `budget`
/// attempts left: always at least one, and one more after each failure while
/// budget remains.
pub open spec fn retry_attempts_from(outcomes: Seq<bool>, i: nat, budget: nat) -> nat
    decreases budget,
{
    if budget <= 1 {
        1
    } else if attempt_result(outcomes, i as int) {
        1
    } else {
        1 + retry_attempts_from(outcomes, i + 1, (budget - 1) as nat)
    }
}

/// How many attempts a whole retry run makes.
pub open spec fn retry_attempts(outcomes: Seq<bool>) -> nat {
    retry_attempts_from(outcomes, 0, MAX_FETCH_ATTEMPTS as nat)
}

/// Whether a retry run ends in success: some attempt within the ceiling
/// succeeds.
pub open spec fn retry_succeeds(outcomes: Seq<bool>) -> bool {
    exists|k: int| 0 <= k < MAX_FETCH_ATTEMPTS && #[trigger] attempt_result(outcomes, k)
}

/// The decision the fetch loop takes after an attempt: try again exactly when
/// the attempt failed and the ceiling is not yet reached.
pub fn should_retry(attempts_made: u64, last_succeeded: bool) -> (r: bool)
    requires
        attempts_made >= 1,
    ensures
        r <==> (!last_succeeded && attempts_made < MAX_FETCH_ATTEMPTS),
{
    !last_succeeded && attempts_made < MAX_FETCH_ATTEMPTS
}

/// Law: a fetch is attempted at least once and at most `MAX_FETCH_ATTEMPTS`
/// times before the policy gives up.
pub proof fn lemma_retry_bounded(outcomes: Seq<bool>)
    ensures
        1 <= retry_attempts(outcomes) <= MAX_FETCH_ATTEMPTS,
{
    lemma_retry_attempts_from_bounded(outcomes, 0, MAX_FETCH_ATTEMPTS as nat);
}

proof fn lemma_retry_attempts_from_bounded(outcomes: Seq<bool>, i: nat, budget: nat)
    requires
        budget >= 1,
    ensures
        1 <= retry_attempts_from(outcomes, i, budget) <= budget,
    decreases budget,
{
    if budget > 1 && !attempt_result(outcomes, i as int) {
        lemma_retry_attempts_from_bounded(outcomes, i + 1, (budget - 1) as nat);
    }
}

/// Law: a fetch that first succeeds on attempt `k` (counted from 0, within
/// the ceiling) is not retried further — the run makes exactly `k + 1`
/// attempts and succeeds.
pub proof fn lemma_retry_stops_at_success(outcomes: Seq<bool>, k: int)
    requires
        0 <= k < MAX_FETCH_ATTEMPTS,
        attempt_result(outcomes, k),
        forall|j: int| 0 <= j < k ==> !attempt_result(outcomes, j),
    ensures
        retry_attempts(outcomes) == k + 1,
        retry_succeeds(outcomes),
{
    lemma_retry_stops_at_success_from(outcomes, 0, MAX_FETCH_ATTEMPTS as nat, k);
}

proof fn lemma_retry_stops_at_success_from(outcomes: Seq<bool>, i: nat, budget: nat, k: int)
    requires
        i <= k < i + budget,
        attempt_result(outcomes, k),
        forall|j: int| i <= j < k ==> !attempt_result(outcomes, j),
    ensures
        retry_attempts_from(outcomes, i, budget) == k + 1 - i,
    decreases budget,
{
    if k > i {
        lemma_retry_stops_at_success_from(outcomes, i + 1, (budget - 1) as nat, k);
    }
}

/// Law: the run fails exactly when every attempt within the ceiling fails; it
/// then spends the whole budget.
pub proof fn lemma_retry_exhausts_on_failure(outcomes: Seq<bool>)
    requires
        !retry_succeeds(outcomes),
    ensures
        retry_attempts(outcomes) == MAX_FETCH_ATTEMPTS,
{
    lemma_retry_exhausts_on_failure_from(outcomes, 0, MAX_FETCH_ATTEMPTS as nat);
}

proof fn lemma_retry_exhausts_on_failure_from(outcomes: Seq<bool>, i: nat, budget: nat)
    requires
        budget >= 1,
        i + budget <= MAX_FETCH_ATTEMPTS,
        forall|j: int| 0 <= j < MAX_FETCH_ATTEMPTS ==> !attempt_result(outcomes, j),
    ensures
        retry_attempts_from(outcomes, i, budget) == budget,
    decreases budget,
{
    if budget > 1 {
        lemma_retry_exhausts_on_failure_from(outcomes, i + 1, (budget - 1) as nat);
    }
}

/// Runs the retry policy against a given sequence of attempt outcomes
/// (`true` is a success) and reports how many attempts it made and whether
/// it succeeded.
pub fn run_retry(outcomes: &Vec<bool>) -> (r: (u64, bool))
    ensures
        r.0 == retry_attempts(outcomes@),
        r.1 == retry_succeeds(outcomes@),
        1 <= r.0 <= MAX_FETCH_ATTEMPTS,
{
    let mut attempts: u64 = 0;
    loop
        invariant
            0 <= attempts < MAX_FETCH_ATTEMPTS,
            forall|j: int| 0 <= j < attempts ==> !attempt_result(outcomes@, j),
            retry_attempts(outcomes@) == attempts + retry_attempts_from(
                outcomes@,
                attempts as nat,
                (MAX_FETCH_ATTEMPTS - attempts) as nat,
            ),
        decreases MAX_FETCH_ATTEMPTS - attempts,
    {
        let ok = attempts < outcomes.len() as u64 && outcomes[attempts as usize];
        proof {
            assert(ok == attempt_result(outcomes@, attempts as int));
        }
        if ok {
            proof {
                assert(retry_attempts_from(
                    outcomes@,
                    attempts as nat,
                    (MAX_FETCH_ATTEMPTS - attempts) as nat,
                ) == 1);
                assert(retry_succeeds(outcomes@)) by {
                    assert(attempt_result(outcomes@, attempts as int));
                }
            }
            return (attempts + 1, true);
        }
        attempts = attempts + 1;
        if attempts == MAX_FETCH_ATTEMPTS {
            proof {
                assert(!retry_succeeds(outcomes@));
                lemma_retry_exhausts_on_failure(outcomes@);
            }
            return (attempts, false);
        }
    }
}

} // verus!
