//! Order-preserving aggregation of fetched chapter results.
//!
//! Fetches complete in arbitrary order; aggregation reads the completed
//! result store back out by `order_index` and rebuilds the document in the
//! canonical order fixed at discovery.

use crate::chapter::{ChapterRef, ChapterRefModel};
use crate::results::{store_complete, ResultStore};
use vstd::prelude::*;

verus! {

/// One chapter of the published document.
#[derive(Clone, Debug)]
pub struct PublishedMangaChapter {
    /// Reserved for an externally assigned permalink; always absent here.
    pub url: Option<String>,
    pub chapter: String,
    pub volume: String,
    pub images_urls: Vec<String>,
}

/// The mathematical value of a `PublishedMangaChapter`.
pub ghost struct PublishedChapterModel {
    pub url: Option<Seq<char>>,
    pub chapter: Seq<char>,
    pub volume: Seq<char>,
    pub images_urls: Seq<Seq<char>>,
}

impl View for PublishedMangaChapter {
    type V = PublishedChapterModel;

    open spec fn view(&self) -> PublishedChapterModel {
        PublishedChapterModel {
            url: self.url.deep_view(),
            chapter: self.chapter@,
            volume: self.volume@,
            images_urls: self.images_urls.deep_view(),
        }
    }
}

impl DeepView for PublishedMangaChapter {
    type V = PublishedChapterModel;

    open spec fn deep_view(&self) -> PublishedChapterModel {
        self.view()
    }
}

/// The document delivered to the callback: the job's slug and its chapters
/// in canonical order.
#[derive(Clone, Debug)]
pub struct PublishedManga {
    pub slug: String,
    pub chapters: Vec<PublishedMangaChapter>,
}

/// The mathematical value of a `PublishedManga`.
pub ghost struct PublishedMangaModel {
    pub slug: Seq<char>,
    pub chapters: Seq<PublishedChapterModel>,
}

impl View for PublishedManga {
    type V = PublishedMangaModel;

    open spec fn view(&self) -> PublishedMangaModel {
        PublishedMangaModel { slug: self.slug@, chapters: self.chapters.deep_view() }
    }
}

/// When aggregation may run: every chapter's `order_index` points at a slot
/// of the store, and every slot it points at is filled.
pub open spec fn aggregate_pre(
    chapters: Seq<ChapterRefModel>,
    results: Seq<Option<Seq<Seq<char>>>>,
) -> bool {
    forall|i: int|
        0 <= i < chapters.len() ==> {
            &&& 0 <= #[trigger] chapters[i].order_index < results.len()
            &&& results[chapters[i].order_index] is Some
        }
}

/// The chapter sequence aggregation produces: one published chapter per
/// discovered chapter, in discovery order, each carrying the images recorded
/// under its `order_index` and no permalink.
pub open spec fn aggregated_chapters(
    chapters: Seq<ChapterRefModel>,
    results: Seq<Option<Seq<Seq<char>>>>,
) -> Seq<PublishedChapterModel> {
    Seq::new(
        chapters.len(),
        |i: int|
            PublishedChapterModel {
                url: None,
                chapter: chapters[i].chapter_number,
                volume: chapters[i].volume,
                images_urls: results[chapters[i].order_index]->Some_0,
            },
    )
}

/// What aggregation produces: the job's slug over the chapters in canonical
/// order.
pub open spec fn aggregate_spec(
    slug: Seq<char>,
    chapters: Seq<ChapterRefModel>,
    results: Seq<Option<Seq<Seq<char>>>>,
) -> PublishedMangaModel {
    PublishedMangaModel { slug: slug, chapters: aggregated_chapters(chapters, results) }
}

/// Builds the published document from the canonical chapter list and the
/// completed result store. Aggregation is total on complete stores and never
/// drops or reorders a chapter.
pub fn publish_manga(slug: &str, chapters: &Vec<ChapterRef>, results: &ResultStore) -> (m:
    PublishedManga)
    requires
        aggregate_pre(chapters.deep_view(), results@),
    ensures
        m@ == aggregate_spec(slug@, chapters.deep_view(), results@),
{
    let mut published: Vec<PublishedMangaChapter> = Vec::new();
    let n = chapters.len();
    let mut i: usize = 0;
    while i < n
        invariant
            i <= n,
            n == chapters@.len(),
            published@.len() == i,
            aggregate_pre(chapters.deep_view(), results@),
            forall|j: int|
                0 <= j < i ==> #[trigger] published@[j].deep_view() == aggregated_chapters(
                    chapters.deep_view(),
                    results@,
                )[j],
        decreases n - i,
    {
        let chapter = &chapters[i];
        proof {
            assert(chapters.deep_view()[i as int] == chapters@[i as int].deep_view());
            assert(0 <= chapters.deep_view()[i as int].order_index < results@.len());
            assert(results@[chapters.deep_view()[i as int].order_index] is Some);
        }
        let urls = results.get(chapter.order_index);
        let ghost published0 = published@;
        published.push(
            PublishedMangaChapter {
                url: None,
                chapter: chapter.chapter_number.clone(),
                volume: chapter.volume.clone(),
                images_urls: urls.clone(),
            },
        );
        proof {
            assert forall|j: int| 0 <= j <= i implies #[trigger] published@[j].deep_view()
                == aggregated_chapters(chapters.deep_view(), results@)[j] by {
                if j < i {
                    assert(published@[j] == published0[j]);
                    assert(published0[j].deep_view() == aggregated_chapters(
                        chapters.deep_view(),
                        results@,
                    )[j]);
                }
            }
        }
        i += 1;
    }
    let m = PublishedManga { slug: String::from_str(slug), chapters: published };
    proof {
        assert forall|k: int| 0 <= k < m@.chapters.len() implies m@.chapters[k]
            == aggregated_chapters(chapters.deep_view(), results@)[k] by {
            assert(m@.chapters[k] == published@[k].deep_view());
        }
        assert(m@.chapters =~= aggregated_chapters(chapters.deep_view(), results@));
    }
    m
}

/// Law: aggregation is total on its stated inputs and never drops, reorders
/// or rewrites a chapter — the document lists exactly the discovered
/// chapters, each at its discovery position with its recorded images and no
/// permalink. Determinism is by construction: the document is a function of
/// the chapter list and the store alone.
pub proof fn lemma_aggregate_total(
    slug: Seq<char>,
    chapters: Seq<ChapterRefModel>,
    results: Seq<Option<Seq<Seq<char>>>>,
)
    requires
        aggregate_pre(chapters, results),
    ensures
        aggregate_spec(slug, chapters, results).slug == slug,
        aggregate_spec(slug, chapters, results).chapters.len() == chapters.len(),
        forall|i: int|
            0 <= i < chapters.len() ==> {
                &&& #[trigger] aggregate_spec(slug, chapters, results).chapters[i].volume
                    == chapters[i].volume
                &&& aggregate_spec(slug, chapters, results).chapters[i].chapter
                    == chapters[i].chapter_number
                &&& aggregate_spec(slug, chapters, results).chapters[i].images_urls == results[
                    chapters[i].order_index
                ]->Some_0
                &&& aggregate_spec(slug, chapters, results).chapters[i].url is None
            },
{
}

/// Law: recording two different chapters' results commutes — the store, and
/// with it the aggregated document, does not depend on the order in which
/// fetches complete.
pub proof fn lemma_record_order_irrelevant(
    store: Seq<Option<Seq<Seq<char>>>>,
    i: int,
    u: Seq<Seq<char>>,
    j: int,
    v: Seq<Seq<char>>,
)
    requires
        0 <= i < store.len(),
        0 <= j < store.len(),
        i != j,
    ensures
        store.update(i, Some(u)).update(j, Some(v)) == store.update(j, Some(v)).update(i, Some(u)),
{
    assert(store.update(i, Some(u)).update(j, Some(v)) =~= store.update(j, Some(v)).update(
        i,
        Some(u),
    ));
}

} // verus!
