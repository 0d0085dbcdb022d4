//! The job-scoped store of fetched chapter results.
//!
//! One slot per discovered chapter, addressed by the chapter's `order_index`.
//! Each slot is written exactly once, by the fetch task of that chapter, in
//! whatever order the fetches happen to complete; aggregation waits until
//! every slot is filled.

use vstd::prelude::*;

verus! {

/// A store is complete when every chapter's slot has been filled.
pub open spec fn store_complete(slots: Seq<Option<Seq<Seq<char>>>>) -> bool {
    forall|i: int| 0 <= i < slots.len() ==> slots[i] is Some
}

/// Per-chapter fetch results for one job, keyed by `order_index`.
pub struct ResultStore {
    slots: Vec<Option<Vec<String>>>,
}

impl View for ResultStore {
    type V = Seq<Option<Seq<Seq<char>>>>;

    closed spec fn view(&self) -> Seq<Option<Seq<Seq<char>>>> {
        self.slots.deep_view()
    }
}

impl ResultStore {
    /// An empty store with one slot per discovered chapter.
    pub fn new(chapter_count: usize) -> (s: ResultStore)
        ensures
            s@.len() == chapter_count,
            forall|i: int| 0 <= i < chapter_count ==> s@[i] is None,
    {
        let mut slots: Vec<Option<Vec<String>>> = Vec::new();
        let mut i: usize = 0;
        while i < chapter_count
            invariant
                i <= chapter_count,
                slots@.len() == i,
                forall|j: int| 0 <= j < i ==> #[trigger] slots@[j].deep_view() is None,
            decreases chapter_count - i,
        {
            slots.push(None);
            i += 1;
        }
        let s = ResultStore { slots };
        proof {
            assert forall|j: int| 0 <= j < chapter_count implies s@[j] is None by {
                assert(s@[j] == s.slots@[j].deep_view());
            }
        }
        s
    }

    /// How many chapters the store has slots for.
    pub fn len(&self) -> (n: usize)
        ensures
            n == self@.len(),
    {
        self.slots.len()
    }

    /// Records the image URLs fetched for the chapter at `index`. Each
    /// chapter's result is recorded exactly once: the slot must still be
    /// empty, and only that slot changes.
    pub fn record(&mut self, index: usize, image_urls: Vec<String>)
        requires
            index < old(self)@.len(),
            old(self)@[index as int] is None,
        ensures
            final(self)@ == old(self)@.update(index as int, Some(image_urls.deep_view())),
    {
        let ghost slots0 = self.slots@;
        let ghost urls_model = image_urls.deep_view();
        self.slots.set(index, Some(image_urls));
        proof {
            let target = old(self)@.update(index as int, Some(urls_model));
            assert forall|j: int| 0 <= j < self@.len() implies self@[j] == target[j] by {
                assert(self@[j] == self.slots@[j].deep_view());
                if j == index {
                    assert(self.slots@[j].deep_view() == Some(urls_model));
                } else {
                    assert(self.slots@[j] == slots0[j]);
                    assert(old(self)@[j] == slots0[j].deep_view());
                }
            }
            assert(self@ =~= target);
        }
    }

    /// Whether the chapter at `index` has a recorded result yet.
    pub fn has_result(&self, index: usize) -> (b: bool)
        requires
            index < self@.len(),
        ensures
            b == (self@[index as int] is Some),
    {
        self.slots[index].is_some()
    }

    /// The recorded image URLs of the chapter at `index`.
    pub fn get(&self, index: usize) -> (urls: &Vec<String>)
        requires
            index < self@.len(),
            self@[index as int] is Some,
        ensures
            urls.deep_view() == self@[index as int]->Some_0,
    {
        self.slots[index].as_ref().unwrap()
    }

    /// Whether every chapter's result has been recorded.
    pub fn is_complete(&self) -> (b: bool)
        ensures
            b == store_complete(self@),
    {
        let mut i: usize = 0;
        let n = self.slots.len();
        while i < n
            invariant
                i <= n,
                n == self@.len(),
                forall|j: int| 0 <= j < i ==> self@[j] is Some,
            decreases n - i,
        {
            if self.slots[i].is_none() {
                proof {
                    assert(self@[i as int] is None);
                }
                return false;
            }
            proof {
                assert(self@[i as int] is Some);
            }
            i += 1;
        }
        true
    }
}

} // verus!
