use mangalib::chapter::{ChapterId, ChapterRef};
use mangalib::executor::{Job, JobExecutor};
use mangalib::pool::ResourcePool;
use mangalib::retry::{run_retry, should_retry, MAX_FETCH_ATTEMPTS};
use mangalib::Error;

fn chapter_id(volume: &str, number: &str) -> ChapterId {
    ChapterId { volume: volume.to_string(), chapter_number: number.to_string() }
}

#[test]
fn discovery_reverses_and_indexes() {
    let job = Job { slug: "abc".to_string(), callback_url: "http://cb".to_string() };
    let mut executor = JobExecutor::new(job);
    // The source reports newest first; discovery flips to oldest first.
    let raw = vec![chapter_id("1", "2"), chapter_id("1", "1")];
    executor.on_discovered(&raw);
    assert_eq!(executor.chapter_count(), 2);
    let chapters = executor.chapters();
    assert_eq!(chapters[0].volume, "1");
    assert_eq!(chapters[0].chapter_number, "1");
    assert_eq!(chapters[0].order_index, 0);
    assert_eq!(chapters[1].volume, "1");
    assert_eq!(chapters[1].chapter_number, "2");
    assert_eq!(chapters[1].order_index, 1);
}

#[test]
fn chapter_identity_ignores_order_index() {
    let a = ChapterRef { volume: "1".to_string(), chapter_number: "3".to_string(), order_index: 0 };
    let b = ChapterRef { volume: "1".to_string(), chapter_number: "3".to_string(), order_index: 7 };
    let c = ChapterRef { volume: "2".to_string(), chapter_number: "3".to_string(), order_index: 0 };
    assert!(a.same_identity(&b));
    assert!(!a.same_identity(&c));
}

// Scenario: slug "abc" discovers two chapters; both fetches succeed, the
// second completing first; the published document restores discovery order.
#[test]
fn two_chapter_job_publishes_in_discovery_order() {
    let job = Job { slug: "abc".to_string(), callback_url: "http://cb".to_string() };
    let mut executor = JobExecutor::new(job);
    let raw = vec![chapter_id("1", "2"), chapter_id("1", "1")];
    executor.on_discovered(&raw);

    // Fetches complete out of order: chapter 2 lands before chapter 1.
    executor.record_chapter(1, vec!["imgB".to_string(), "imgC".to_string()]);
    assert!(!executor.has_result(0));
    assert!(executor.has_result(1));
    executor.record_chapter(0, vec!["imgA".to_string()]);

    assert!(executor.finish_fetching());
    let manga = executor.aggregate();

    assert_eq!(manga.slug, "abc");
    assert_eq!(manga.chapters.len(), 2);
    assert_eq!(manga.chapters[0].url, None);
    assert_eq!(manga.chapters[0].volume, "1");
    assert_eq!(manga.chapters[0].chapter, "1");
    assert_eq!(manga.chapters[0].images_urls, vec!["imgA".to_string()]);
    assert_eq!(manga.chapters[1].url, None);
    assert_eq!(manga.chapters[1].volume, "1");
    assert_eq!(manga.chapters[1].chapter, "2");
    assert_eq!(manga.chapters[1].images_urls, vec!["imgB".to_string(), "imgC".to_string()]);

    assert_eq!(executor.on_delivery(true), None);
}

#[test]
fn aggregation_waits_for_every_chapter() {
    let job = Job { slug: "abc".to_string(), callback_url: "http://cb".to_string() };
    let mut executor = JobExecutor::new(job);
    let raw = vec![chapter_id("1", "2"), chapter_id("1", "1")];
    executor.on_discovered(&raw);
    executor.record_chapter(0, vec!["imgA".to_string()]);
    // One chapter still pending: the job may not leave Fetching.
    assert!(!executor.finish_fetching());
    executor.record_chapter(1, vec!["imgB".to_string()]);
    assert!(executor.finish_fetching());
}

#[test]
fn aggregation_is_deterministic() {
    let build = || {
        let job = Job { slug: "abc".to_string(), callback_url: "http://cb".to_string() };
        let mut executor = JobExecutor::new(job);
        let raw = vec![chapter_id("2", "5"), chapter_id("1", "9")];
        executor.on_discovered(&raw);
        executor.record_chapter(0, vec!["x".to_string()]);
        executor.record_chapter(1, vec!["y".to_string(), "z".to_string()]);
        assert!(executor.finish_fetching());
        executor.aggregate()
    };
    let first = build();
    let second = build();
    assert_eq!(first.slug, second.slug);
    assert_eq!(first.chapters.len(), second.chapters.len());
    for (a, b) in first.chapters.iter().zip(second.chapters.iter()) {
        assert_eq!(a.url, b.url);
        assert_eq!(a.volume, b.volume);
        assert_eq!(a.chapter, b.chapter);
        assert_eq!(a.images_urls, b.images_urls);
    }
}

#[test]
fn failed_discovery_ends_the_job() {
    let job = Job { slug: "gone".to_string(), callback_url: "http://cb".to_string() };
    let mut executor = JobExecutor::new(job);
    assert_eq!(executor.on_discovery_failed(), Error::DiscoveryFailed);
}

#[test]
fn exhausted_chapter_ends_the_job() {
    let job = Job { slug: "abc".to_string(), callback_url: "http://cb".to_string() };
    let mut executor = JobExecutor::new(job);
    let raw = vec![chapter_id("1", "1")];
    executor.on_discovered(&raw);
    assert_eq!(executor.on_chapter_exhausted(), Error::ChapterFetchExhausted);
}

#[test]
fn failed_delivery_is_reported_but_terminal() {
    let job = Job { slug: "abc".to_string(), callback_url: "http://cb".to_string() };
    let mut executor = JobExecutor::new(job);
    let raw = vec![chapter_id("1", "1")];
    executor.on_discovered(&raw);
    executor.record_chapter(0, vec!["img".to_string()]);
    assert!(executor.finish_fetching());
    let _manga = executor.aggregate();
    assert_eq!(executor.on_delivery(false), Some(Error::DeliveryFailed));
}

// Scenario: pool capacity 2, three fetch tasks ask at once; the third gets a
// permit only after one of the first two hands its back.
#[test]
fn pool_admits_at_most_capacity() {
    let mut pool = ResourcePool::new(2);
    assert_eq!(pool.available(), 2);
    assert!(pool.try_acquire());
    assert!(pool.try_acquire());
    assert_eq!(pool.held(), 2);
    // The third task must wait: the pool is at capacity.
    assert!(!pool.try_acquire());
    assert!(!pool.try_acquire());
    assert_eq!(pool.held(), 2);
    pool.release();
    assert_eq!(pool.held(), 1);
    assert!(pool.try_acquire());
    assert_eq!(pool.held(), 2);
    assert_eq!(pool.available(), 0);
}

#[test]
fn pool_of_zero_capacity_admits_nobody() {
    let mut pool = ResourcePool::new(0);
    assert!(!pool.try_acquire());
    assert_eq!(pool.available(), 0);
}

#[test]
fn retry_stops_at_first_success() {
    assert_eq!(run_retry(&vec![true]), (1, true));
    assert_eq!(run_retry(&vec![false, true]), (2, true));
    assert_eq!(run_retry(&vec![false, false, true]), (3, true));
    assert_eq!(run_retry(&vec![false, false, false, false, true]), (5, true));
}

#[test]
fn retry_gives_up_after_five_attempts() {
    assert_eq!(run_retry(&vec![]), (5, false));
    assert_eq!(run_retry(&vec![false, false, false, false, false]), (5, false));
    // A success that would only come on a sixth attempt is never reached.
    assert_eq!(run_retry(&vec![false, false, false, false, false, true]), (5, false));
}

#[test]
fn retry_decision_follows_the_ceiling() {
    assert_eq!(MAX_FETCH_ATTEMPTS, 5);
    assert!(should_retry(1, false));
    assert!(should_retry(4, false));
    assert!(!should_retry(5, false));
    assert!(!should_retry(1, true));
    assert!(!should_retry(4, true));
}
