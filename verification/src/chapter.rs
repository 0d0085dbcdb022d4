//! Chapter identity and the ordering assigned at discovery.
//!
//! The chapter source hands back identifiers newest-first; discovery reverses
//! them so the earliest chapter comes first and assigns each its position as
//! `order_index`, the sole ordering key used downstream.

use vstd::prelude::*;

verus! {

/// A chapter identifier as the chapter source reports it.
#[derive(Clone, Debug)]
pub struct ChapterId {
    pub volume: String,
    pub chapter_number: String,
}

/// The mathematical value of a `ChapterId`.
pub ghost struct ChapterIdModel {
    pub volume: Seq<char>,
    pub chapter_number: Seq<char>,
}

impl View for ChapterId {
    type V = ChapterIdModel;

    open spec fn view(&self) -> ChapterIdModel {
        ChapterIdModel { volume: self.volume@, chapter_number: self.chapter_number@ }
    }
}

impl DeepView for ChapterId {
    type V = ChapterIdModel;

    open spec fn deep_view(&self) -> ChapterIdModel {
        self.view()
    }
}

/// One chapter of a job, with the position it was given at discovery.
#[derive(Clone, Debug)]
pub struct ChapterRef {
    pub volume: String,
    pub chapter_number: String,
    pub order_index: usize,
}

/// The mathematical value of a `ChapterRef`.
pub ghost struct ChapterRefModel {
    pub volume: Seq<char>,
    pub chapter_number: Seq<char>,
    pub order_index: int,
}

impl View for ChapterRef {
    type V = ChapterRefModel;

    open spec fn view(&self) -> ChapterRefModel {
        ChapterRefModel {
            volume: self.volume@,
            chapter_number: self.chapter_number@,
            order_index: self.order_index as int,
        }
    }
}

impl DeepView for ChapterRef {
    type V = ChapterRefModel;

    open spec fn deep_view(&self) -> ChapterRefModel {
        self.view()
    }
}

/// Two chapters are the same chapter iff volume and chapter number match;
/// `order_index` is bookkeeping, not identity.
pub open spec fn same_chapter(a: ChapterRefModel, b: ChapterRefModel) -> bool {
    a.volume == b.volume && a.chapter_number == b.chapter_number
}

impl ChapterRef {
    /// Whether `self` and `other` name the same chapter.
    pub fn same_identity(&self, other: &ChapterRef) -> (r: bool)
        ensures
            r == same_chapter(self@, other@),
    {
        self.volume == other.volume && self.chapter_number == other.chapter_number
    }
}

/// What discovery produces from the raw identifier list: the list reversed
/// (oldest chapter first) with `order_index` equal to the new position.
pub open spec fn discover_spec(raw: Seq<ChapterIdModel>) -> Seq<ChapterRefModel> {
    Seq::new(
        raw.len(),
        |i: int|
            ChapterRefModel {
                volume: raw[raw.len() - 1 - i].volume,
                chapter_number: raw[raw.len() - 1 - i].chapter_number,
                order_index: i,
            },
    )
}

/// Orders a freshly discovered chapter list: reverses it so the earliest
/// chapter is first and records each chapter's position as its `order_index`.
pub fn discover_order(raw: &Vec<ChapterId>) -> (out: Vec<ChapterRef>)
    ensures
        out.deep_view() == discover_spec(raw.deep_view()),
{
    let n = raw.len();
    let mut out: Vec<ChapterRef> = Vec::new();
    let mut i: usize = 0;
    while i < n
        invariant
            i <= n,
            n == raw@.len(),
            out@.len() == i,
            forall|j: int|
                0 <= j < i ==> #[trigger] out@[j].deep_view() == discover_spec(raw.deep_view())[j],
        decreases n - i,
    {
        let src = n - 1 - i;
        let ghost out0 = out@;
        let volume = raw[src].volume.clone();
        let chapter_number = raw[src].chapter_number.clone();
        out.push(ChapterRef { volume, chapter_number, order_index: i });
        proof {
            assert forall|j: int| 0 <= j <= i implies #[trigger] out@[j].deep_view()
                == discover_spec(raw.deep_view())[j] by {
                if j < i {
                    assert(out@[j] == out0[j]);
                    assert(out0[j].deep_view() == discover_spec(raw.deep_view())[j]);
                } else {
                    assert(raw.deep_view()[src as int] == raw@[src as int].deep_view());
                    assert(out@[j].deep_view() == discover_spec(raw.deep_view())[j]);
                }
            }
        }
        i += 1;
    }
    proof {
        assert forall|k: int| 0 <= k < out.deep_view().len() implies out.deep_view()[k]
            == discover_spec(raw.deep_view())[k] by {
            assert(out.deep_view()[k] == out@[k].deep_view());
        }
        assert(out.deep_view() =~= discover_spec(raw.deep_view()));
    }
    out
}

} // verus!
