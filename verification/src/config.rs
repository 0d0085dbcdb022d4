//! Parsing of the numeric configuration arguments: the server port and the
//! resource-pool capacity.

use crate::Error;
use vstd::prelude::*;
use vstd::string::StrSliceExecFns;

verus! {

/// Whether `c` is a decimal digit.
pub open spec fn is_digit(c: char) -> bool {
    48 <= c as u32 <= 57
}

/// The numeric value of a digit.
pub open spec fn digit_value(c: char) -> int {
    c as u32 - 48
}

/// Whether every character of `s` is a decimal digit.
pub open spec fn all_digits(s: Seq<char>) -> bool {
    forall|i: int| 0 <= i < s.len() ==> is_digit(#[trigger] s[i])
}

/// The number a digit string denotes, most significant digit first.
pub open spec fn decimal_value(s: Seq<char>) -> int
    decreases s.len(),
{
    if s.len() == 0 {
        0
    } else {
        decimal_value(s.drop_last()) * 10 + digit_value(s.last())
    }
}

proof fn lemma_decimal_value_nonneg(s: Seq<char>)
    requires
        all_digits(s),
    ensures
        decimal_value(s) >= 0,
    decreases s.len(),
{
    if s.len() > 0 {
        assert(all_digits(s.drop_last()));
        lemma_decimal_value_nonneg(s.drop_last());
    }
}

/// A digit string's value only grows as digits are appended.
proof fn lemma_decimal_prefix_le(s: Seq<char>, j: int)
    requires
        all_digits(s),
        0 <= j <= s.len(),
    ensures
        decimal_value(s.take(j)) <= decimal_value(s),
    decreases s.len() - j,
{
    if j == s.len() {
        assert(s.take(j) =~= s);
    } else {
        assert(s.take(j + 1).drop_last() =~= s.take(j));
        assert(all_digits(s.take(j)));
        lemma_decimal_value_nonneg(s.take(j));
        assert(decimal_value(s.take(j + 1)) == decimal_value(s.take(j)) * 10 + digit_value(
            s.take(j + 1).last(),
        ));
        lemma_decimal_prefix_le(s, j + 1);
    }
}

/// Parses a decimal configuration argument into a `u16`, as used for the
/// server port and the pool capacity. Succeeds exactly on non-empty strings
/// of digits whose value fits; the value returned is the number the string
/// denotes.
pub fn parse_u16(s: &str) -> (r: Result<u16, Error>)
    ensures
        match r {
            Ok(v) => s@.len() > 0 && all_digits(s@) && v as int == decimal_value(s@),
            Err(e) => e == Error::BadArgument && (s@.len() == 0 || !all_digits(s@)
                || decimal_value(s@) > u16::MAX),
        },
{
    let n = s.unicode_len();
    if n == 0 {
        return Err(Error::BadArgument);
    }
    let mut acc: u32 = 0;
    let mut i: usize = 0;
    while i < n
        invariant
            0 < n == s@.len(),
            i <= n,
            forall|j: int| 0 <= j < i ==> is_digit(#[trigger] s@[j]),
            acc as int == decimal_value(s@.take(i as int)),
            acc <= 65535,
        decreases n - i,
    {
        let c = s.get_char(i);
        let v = c as u32;
        if v < 48 || v > 57 {
            proof {
                assert(!is_digit(s@[i as int]));
            }
            return Err(Error::BadArgument);
        }
        proof {
            assert(s@.take(i + 1).drop_last() =~= s@.take(i as int));
            assert(s@.take(i + 1).last() == s@[i as int]);
        }
        let next = acc * 10 + (v - 48);
        if next > 65535 {
            proof {
                if all_digits(s@) {
                    lemma_decimal_prefix_le(s@, i + 1);
                }
            }
            return Err(Error::BadArgument);
        }
        acc = next;
        i += 1;
    }
    proof {
        assert(s@.take(n as int) =~= s@);
    }
    Ok(acc as u16)
}

} // verus!
