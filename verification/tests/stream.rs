//! The page stream: ordered draining, the single outstanding fetch, the
//! atomic fetch-and-yield step, failure handling and idempotent termination.

use civitai_tui::api::paginated::Paginated;
use civitai_tui::api::stream::{PageStream, StreamStep};
use civitai_tui::api::types::{model, Model};
use civitai_tui::api::{FetchError, PaginationMeta};

fn meta(total: usize, next: Option<&str>) -> PaginationMeta {
    PaginationMeta {
        total_items: total,
        current_page: 1,
        page_size: 10,
        total_pages: 1,
        next_page: next.map(|s| s.to_string()),
        prev_page: None,
    }
}

/// Drives the stream until it ends or fails, counting fetches and feeding
/// `responses` in order; a `None` response makes the fetch fail.
fn drive(
    mut s: PageStream<u64>,
    mut responses: Vec<Option<Paginated<u64>>>,
    limit: usize,
) -> (Vec<u64>, usize, bool) {
    let mut yielded = Vec::new();
    let mut fetches = 0;
    let mut failed = false;
    for _ in 0..limit {
        match s.poll_step() {
            StreamStep::Item(x) => yielded.push(x),
            StreamStep::Fetch(_url) => {
                fetches += 1;
                match responses.remove(0) {
                    Some(page) => {
                        if let Some(first) = s.on_fetch_success(page) {
                            yielded.push(first);
                        }
                    }
                    None => {
                        s.on_fetch_failure(FetchError::Transport("connection reset".to_string()));
                        failed = true;
                    }
                }
            }
            StreamStep::Ended => break,
        }
    }
    (yielded, fetches, failed)
}

#[test]
fn single_page_yields_items_in_order_then_ends() {
    let page = Paginated::new(vec![10u64, 20, 30], meta(3, None));
    let mut s = page.into_stream();
    assert!(matches!(s.poll_step(), StreamStep::Item(10)));
    assert!(matches!(s.poll_step(), StreamStep::Item(20)));
    assert!(matches!(s.poll_step(), StreamStep::Item(30)));
    assert!(matches!(s.poll_step(), StreamStep::Ended));
    // Termination is idempotent and never turns into a fetch.
    assert!(matches!(s.poll_step(), StreamStep::Ended));
    assert!(matches!(s.poll_step(), StreamStep::Ended));
    // A stream that ended normally carries no failure.
    assert!(!s.failed());
    assert!(s.take_error().is_none());
}

#[test]
fn single_page_produces_no_network_call() {
    let page = Paginated::new(vec![1u64, 2], meta(2, None));
    let (yielded, fetches, failed) = drive(page.into_stream(), vec![], 10);
    assert_eq!(yielded, vec![1u64, 2]);
    assert_eq!(fetches, 0);
    assert!(!failed);
}

#[test]
fn two_pages_yield_three_items_with_one_fetch() {
    let url = "https://example.test/page/2";
    let page1 = Paginated::new(vec![1u64, 2], meta(3, Some(url)));
    let mut s = page1.into_stream();
    assert!(matches!(s.poll_step(), StreamStep::Item(1)));
    assert!(matches!(s.poll_step(), StreamStep::Item(2)));
    match s.poll_step() {
        StreamStep::Fetch(u) => assert_eq!(u, url),
        other => panic!("expected a fetch, got {other:?}"),
    }
    // The fetch resolves: the new page's first item is yielded by the same
    // logical step.
    let page2 = Paginated::new(vec![3u64], meta(3, None));
    assert_eq!(s.on_fetch_success(page2), Some(3));
    assert!(matches!(s.poll_step(), StreamStep::Ended));
}

#[test]
fn two_pages_through_the_driver() {
    let page1 = Paginated::new(vec![1u64, 2], meta(3, Some("u")));
    let page2 = Paginated::new(vec![3u64], meta(3, None));
    let (yielded, fetches, failed) = drive(page1.into_stream(), vec![Some(page2)], 10);
    assert_eq!(yielded, vec![1u64, 2, 3]);
    assert_eq!(fetches, 1);
    assert!(!failed);
}

#[test]
fn failed_fetch_yields_buffered_items_then_stops() {
    let page = Paginated::new(vec![1u64, 2], meta(9, Some("u")));
    let mut s = page.into_stream();
    assert!(matches!(s.poll_step(), StreamStep::Item(1)));
    assert!(matches!(s.poll_step(), StreamStep::Item(2)));
    assert!(matches!(s.poll_step(), StreamStep::Fetch(_)));
    assert!(!s.failed());
    s.on_fetch_failure(FetchError::Transport("timed out".to_string()));
    // The stream is terminal and never retries the failing link.
    assert!(s.failed());
    assert!(matches!(s.poll_step(), StreamStep::Ended));
    assert!(matches!(s.poll_step(), StreamStep::Ended));
    // The failure is handed out exactly once.
    let err = s.take_error().expect("the failure is recorded");
    assert!(err.is_transport());
    assert_eq!(err.message().as_str(), "timed out");
    assert!(s.take_error().is_none());
    assert!(s.failed());
}

#[test]
fn failed_fetch_through_the_driver_fails_exactly_once() {
    let page = Paginated::new(vec![1u64, 2], meta(9, Some("u")));
    let (yielded, fetches, failed) = drive(page.into_stream(), vec![None], 10);
    assert_eq!(yielded, vec![1u64, 2]);
    assert_eq!(fetches, 1);
    assert!(failed);
}

#[test]
fn empty_new_page_without_link_ends_the_stream() {
    let page1 = Paginated::new(vec![1u64], meta(1, Some("u")));
    let mut s = page1.into_stream();
    assert!(matches!(s.poll_step(), StreamStep::Item(1)));
    assert!(matches!(s.poll_step(), StreamStep::Fetch(_)));
    let empty = Paginated::new(Vec::<u64>::new(), meta(1, None));
    assert_eq!(s.on_fetch_success(empty), None);
    assert!(matches!(s.poll_step(), StreamStep::Ended));
}

#[test]
fn empty_new_page_with_link_walks_on() {
    let page1 = Paginated::new(vec![1u64], meta(2, Some("u1")));
    let mut s = page1.into_stream();
    assert!(matches!(s.poll_step(), StreamStep::Item(1)));
    assert!(matches!(s.poll_step(), StreamStep::Fetch(_)));
    let empty = Paginated::new(Vec::<u64>::new(), meta(2, Some("u2")));
    assert_eq!(s.on_fetch_success(empty), None);
    match s.poll_step() {
        StreamStep::Fetch(u) => assert_eq!(u, "u2"),
        other => panic!("expected a fetch of the second link, got {other:?}"),
    }
}

#[test]
fn size_hint_reports_last_seen_total() {
    let page1 = Paginated::new(vec![1u64], meta(40, Some("u")));
    let mut s = page1.into_stream();
    assert_eq!(s.size_hint(), (40, Some(40)));
    assert!(matches!(s.poll_step(), StreamStep::Item(1)));
    assert!(matches!(s.poll_step(), StreamStep::Fetch(_)));
    let page2 = Paginated::new(vec![2u64], meta(41, None));
    s.on_fetch_success(page2);
    assert_eq!(s.size_hint(), (41, Some(41)));
}

fn sample_model(id: usize, name: &str) -> Model {
    Model {
        id,
        name: name.to_string(),
        description: "d".to_string(),
        _type: model::Type::Checkpoint,
        tags: vec!["tag".to_string()],
        mode: None,
        creator: model::Creator { username: "u".to_string(), image: None },
        stats: model::Stats {
            download_count: 1,
            favorite_count: 2,
            comment_count: 3,
            rating_count: 4,
            rating: "4.5".to_string(),
        },
        versions: vec![],
    }
}

#[test]
fn models_stream_yields_two_models_then_ends() {
    let page = Paginated::new(
        vec![sample_model(1, "first"), sample_model(2, "second")],
        meta(2, None),
    );
    let mut s = page.into_stream();
    let mut names = Vec::new();
    loop {
        match s.poll_step() {
            StreamStep::Item(m) => names.push(m.name),
            StreamStep::Fetch(_) => panic!("a single page must not fetch"),
            StreamStep::Ended => break,
        }
    }
    assert_eq!(names, vec!["first".to_string(), "second".to_string()]);
    assert!(matches!(s.poll_step(), StreamStep::Ended));
}
