//! The per-job execution state machine.
//!
//! One executor owns one job from admission to completion. It walks the
//! states `Discovering -> Fetching -> Aggregating -> Delivering -> Done`;
//! the caller performs the outside work of each state (the chapter-source
//! calls, the callback POST) and reports each outcome back, and the executor
//! decides what follows. Aggregation can only be reached once every
//! discovered chapter has a recorded result, so it never runs on a partial
//! store; a discovery failure or an exhausted chapter ends the whole job.

use crate::aggregate::{aggregate_pre, aggregate_spec, lemma_aggregate_total, publish_manga, PublishedManga};
use crate::chapter::{discover_order, discover_spec, ChapterId, ChapterRef, ChapterRefModel};
use crate::results::{store_complete, ResultStore};
use crate::Error;
use vstd::prelude::*;

verus! {

/// One scrape-and-deliver request: the publication's slug and the endpoint
/// the finished document goes to.
#[derive(Clone, Debug)]
pub struct Job {
    pub slug: String,
    pub callback_url: String,
}

/// Where a job stands.
#[derive(Clone, Copy, Debug, PartialEq, Eq, Structural)]
pub enum JobState {
    /// Obtaining the ordered chapter list.
    Discovering,
    /// Chapter fetch tasks are running; results are being recorded.
    Fetching,
    /// Every result is in; the document is being assembled.
    Aggregating,
    /// The document is on its way to the callback.
    Delivering,
    /// Terminal, whatever the outcome.
    Done,
}

/// Every chapter carries its own position as `order_index`.
pub open spec fn chapters_indexed(chapters: Seq<ChapterRefModel>) -> bool {
    forall|i: int| 0 <= i < chapters.len() ==> #[trigger] chapters[i].order_index == i
}

/// Runs one job through its states.
pub struct JobExecutor {
    job: Job,
    state: JobState,
    chapters: Vec<ChapterRef>,
    results: ResultStore,
}

impl JobExecutor {
    /// The job's slug.
    pub closed spec fn spec_slug(&self) -> Seq<char> {
        self.job.slug@
    }

    /// The job's callback endpoint.
    pub closed spec fn spec_callback_url(&self) -> Seq<char> {
        self.job.callback_url@
    }

    /// The state the job is in.
    pub closed spec fn spec_state(&self) -> JobState {
        self.state
    }

    /// The canonical chapter list fixed at discovery.
    pub closed spec fn spec_chapters(&self) -> Seq<ChapterRefModel> {
        self.chapters.deep_view()
    }

    /// The per-chapter results recorded so far.
    pub closed spec fn spec_results(&self) -> Seq<Option<Seq<Seq<char>>>> {
        self.results@
    }

    /// The executor's invariant: before discovery nothing is known; from
    /// `Fetching` on, the chapter list is indexed by position and the store
    /// has exactly one slot per chapter; from `Aggregating` on, the store is
    /// complete — aggregation never sees a partial store.
    pub open spec fn wf(&self) -> bool {
        match self.spec_state() {
            JobState::Discovering => self.spec_chapters().len() == 0 && self.spec_results().len()
                == 0,
            JobState::Fetching => self.fetch_wf(),
            JobState::Aggregating => self.fetch_wf() && store_complete(self.spec_results()),
            JobState::Delivering => self.fetch_wf() && store_complete(self.spec_results()),
            JobState::Done => true,
        }
    }

    /// What holds of the chapter list and store in every state past
    /// discovery.
    pub open spec fn fetch_wf(&self) -> bool {
        &&& chapters_indexed(self.spec_chapters())
        &&& self.spec_results().len() == self.spec_chapters().len()
    }

    /// A fresh executor for an admitted job, about to discover its chapters.
    pub fn new(job: Job) -> (e: JobExecutor)
        ensures
            e.wf(),
            e.spec_state() == JobState::Discovering,
            e.spec_slug() == job.slug@,
            e.spec_callback_url() == job.callback_url@,
    {
        let e = JobExecutor {
            job,
            state: JobState::Discovering,
            chapters: Vec::new(),
            results: ResultStore::new(0),
        };
        proof {
            assert(e.spec_chapters() =~= Seq::<ChapterRefModel>::empty());
        }
        e
    }

    /// Where the job stands.
    pub fn state(&self) -> (s: JobState)
        ensures
            s == self.spec_state(),
    {
        self.state
    }

    /// The slug the caller must discover and fetch under.
    pub fn slug(&self) -> (s: &String)
        ensures
            s@ == self.spec_slug(),
    {
        &self.job.slug
    }

    /// Where the finished document must be delivered.
    pub fn callback_url(&self) -> (s: &String)
        ensures
            s@ == self.spec_callback_url(),
    {
        &self.job.callback_url
    }

    /// The canonical chapter list, available from `Fetching` on.
    pub fn chapters(&self) -> (c: &Vec<ChapterRef>)
        ensures
            c.deep_view() == self.spec_chapters(),
    {
        &self.chapters
    }

    /// How many chapters were discovered.
    pub fn chapter_count(&self) -> (n: usize)
        ensures
            n == self.spec_chapters().len(),
    {
        self.chapters.len()
    }

    /// Whether the chapter at `index` has a recorded result yet.
    pub fn has_result(&self, index: usize) -> (b: bool)
        requires
            index < self.spec_results().len(),
        ensures
            b == (self.spec_results()[index as int] is Some),
    {
        self.results.has_result(index)
    }

    /// Takes the discovered raw chapter list: fixes the canonical order,
    /// sets up one empty result slot per chapter, and moves to `Fetching`.
    pub fn on_discovered(&mut self, raw: &Vec<ChapterId>)
        requires
            old(self).wf(),
            old(self).spec_state() == JobState::Discovering,
        ensures
            final(self).wf(),
            final(self).spec_state() == JobState::Fetching,
            final(self).spec_chapters() == discover_spec(raw.deep_view()),
            final(self).spec_results().len() == raw.deep_view().len(),
            forall|i: int|
                0 <= i < raw.deep_view().len() ==> final(self).spec_results()[i] is None,
            final(self).spec_slug() == old(self).spec_slug(),
            final(self).spec_callback_url() == old(self).spec_callback_url(),
    {
        let chapters = discover_order(raw);
        let n = chapters.len();
        self.results = ResultStore::new(n);
        self.chapters = chapters;
        self.state = JobState::Fetching;
        proof {
            assert forall|i: int| 0 <= i < self.spec_chapters().len() implies #[trigger] self
                .spec_chapters()[i].order_index == i by {
                assert(self.spec_chapters()[i] == discover_spec(raw.deep_view())[i]);
            }
        }
    }

    /// Discovery failed: the job has no chapters to fetch and ends here.
    pub fn on_discovery_failed(&mut self) -> (e: Error)
        requires
            old(self).wf(),
            old(self).spec_state() == JobState::Discovering,
        ensures
            final(self).wf(),
            final(self).spec_state() == JobState::Done,
            e == Error::DiscoveryFailed,
    {
        self.state = JobState::Done;
        Error::DiscoveryFailed
    }

    /// Records the image URLs a fetch task brought back for the chapter at
    /// `index`. Each chapter is recorded exactly once; completion order is
    /// free.
    pub fn record_chapter(&mut self, index: usize, image_urls: Vec<String>)
        requires
            old(self).wf(),
            old(self).spec_state() == JobState::Fetching,
            index < old(self).spec_results().len(),
            old(self).spec_results()[index as int] is None,
        ensures
            final(self).wf(),
            final(self).spec_state() == JobState::Fetching,
            final(self).spec_results() == old(self).spec_results().update(
                index as int,
                Some(image_urls.deep_view()),
            ),
            final(self).spec_chapters() == old(self).spec_chapters(),
            final(self).spec_slug() == old(self).spec_slug(),
            final(self).spec_callback_url() == old(self).spec_callback_url(),
    {
        self.results.record(index, image_urls);
    }

    /// A chapter's retries were exhausted: terminal for the whole job.
    pub fn on_chapter_exhausted(&mut self) -> (e: Error)
        requires
            old(self).wf(),
            old(self).spec_state() == JobState::Fetching,
        ensures
            final(self).wf(),
            final(self).spec_state() == JobState::Done,
            e == Error::ChapterFetchExhausted,
    {
        self.state = JobState::Done;
        Error::ChapterFetchExhausted
    }

    /// Leaves `Fetching` once every chapter task has reported: moves to
    /// `Aggregating` exactly when the store is complete, and otherwise stays
    /// put.
    pub fn finish_fetching(&mut self) -> (complete: bool)
        requires
            old(self).wf(),
            old(self).spec_state() == JobState::Fetching,
        ensures
            final(self).wf(),
            complete == store_complete(old(self).spec_results()),
            final(self).spec_state() == (if complete {
                JobState::Aggregating
            } else {
                JobState::Fetching
            }),
            final(self).spec_results() == old(self).spec_results(),
            final(self).spec_chapters() == old(self).spec_chapters(),
            final(self).spec_slug() == old(self).spec_slug(),
            final(self).spec_callback_url() == old(self).spec_callback_url(),
    {
        let complete = self.results.is_complete();
        if complete {
            self.state = JobState::Aggregating;
        }
        complete
    }

    /// Assembles the published document in canonical order from the complete
    /// store and moves on to delivery.
    pub fn aggregate(&mut self) -> (m: PublishedManga)
        requires
            old(self).wf(),
            old(self).spec_state() == JobState::Aggregating,
        ensures
            final(self).wf(),
            final(self).spec_state() == JobState::Delivering,
            m@ == aggregate_spec(
                old(self).spec_slug(),
                old(self).spec_chapters(),
                old(self).spec_results(),
            ),
            final(self).spec_results() == old(self).spec_results(),
            final(self).spec_chapters() == old(self).spec_chapters(),
            final(self).spec_slug() == old(self).spec_slug(),
            final(self).spec_callback_url() == old(self).spec_callback_url(),
    {
        proof {
            assert forall|i: int| 0 <= i < self.spec_chapters().len() implies {
                &&& 0 <= #[trigger] self.spec_chapters()[i].order_index < self.spec_results().len()
                &&& self.spec_results()[self.spec_chapters()[i].order_index] is Some
            } by {
                assert(self.spec_chapters()[i].order_index == i);
                assert(self.spec_results()[i] is Some);
            }
            assert(aggregate_pre(self.spec_chapters(), self.spec_results()));
        }
        let m = publish_manga(self.job.slug.as_str(), &self.chapters, &self.results);
        self.state = JobState::Delivering;
        m
    }

    /// Takes the delivery outcome. Either way the job is done: a failed
    /// callback POST is reported to the caller for logging, never retried.
    pub fn on_delivery(&mut self, delivered: bool) -> (r: Option<Error>)
        requires
            old(self).wf(),
            old(self).spec_state() == JobState::Delivering,
        ensures
            final(self).wf(),
            final(self).spec_state() == JobState::Done,
            r == (if delivered {
                Option::<Error>::None
            } else {
                Option::<Error>::Some(Error::DeliveryFailed)
            }),
    {
        self.state = JobState::Done;
        if delivered {
            None
        } else {
            Some(Error::DeliveryFailed)
        }
    }
}

/// Law: for any job whose fetches have all come in, the document it goes on
/// to deliver lists exactly the chapters discovered for it, in discovery
/// order — position `i` of the document carries discovered chapter `i`'s
/// volume and number and the images recorded for it, whatever order the
/// fetches completed in.
pub proof fn lemma_job_preserves_discovery_order(e: &JobExecutor)
    requires
        e.wf(),
        e.spec_state() == JobState::Aggregating,
    ensures
        aggregate_spec(e.spec_slug(), e.spec_chapters(), e.spec_results()).chapters.len()
            == e.spec_chapters().len(),
        forall|i: int|
            0 <= i < e.spec_chapters().len() ==> {
                &&& #[trigger] aggregate_spec(
                    e.spec_slug(),
                    e.spec_chapters(),
                    e.spec_results(),
                ).chapters[i].volume == e.spec_chapters()[i].volume
                &&& aggregate_spec(
                    e.spec_slug(),
                    e.spec_chapters(),
                    e.spec_results(),
                ).chapters[i].chapter == e.spec_chapters()[i].chapter_number
                &&& aggregate_spec(
                    e.spec_slug(),
                    e.spec_chapters(),
                    e.spec_results(),
                ).chapters[i].images_urls == e.spec_results()[i]->Some_0
            },
{
    assert forall|i: int| 0 <= i < e.spec_chapters().len() implies {
        &&& 0 <= #[trigger] e.spec_chapters()[i].order_index < e.spec_results().len()
        &&& e.spec_results()[e.spec_chapters()[i].order_index] is Some
    } by {
        assert(e.spec_chapters()[i].order_index == i);
        assert(e.spec_results()[i] is Some);
    }
    lemma_aggregate_total(e.spec_slug(), e.spec_chapters(), e.spec_results());
}

} // verus!
