//! The paginated envelope and its metadata: wire defaulting, the borrowing
//! view, the consuming conversions, and the error vocabulary.

use civitai_tui::api::paginated::Paginated;
use civitai_tui::api::{FetchError, PaginationMeta};

fn meta_with(next: Option<&str>) -> PaginationMeta {
    PaginationMeta {
        total_items: 3,
        current_page: 1,
        page_size: 3,
        total_pages: 1,
        next_page: next.map(|s| s.to_string()),
        prev_page: None,
    }
}

#[test]
fn meta_round_trips_wire_integers() {
    let body = r#"{
        "items": [],
        "metadata": {
            "totalItems": 25,
            "currentPage": 2,
            "pageSize": 10,
            "totalPages": 3,
            "nextPage": "https://example.test/page/3",
            "prevPage": null
        }
    }"#;
    let v: serde_json::Value = serde_json::from_str(body).unwrap();
    let md = &v["metadata"];
    let m = PaginationMeta::from_wire(
        md["totalItems"].as_u64().map(|n| n as usize),
        md["currentPage"].as_u64().map(|n| n as usize),
        md["pageSize"].as_u64().map(|n| n as usize),
        md["totalPages"].as_u64().map(|n| n as usize),
        md["nextPage"].as_str().map(|s| s.to_string()),
        md["prevPage"].as_str().map(|s| s.to_string()),
    );
    assert_eq!(m.total_items as u64, md["totalItems"].as_u64().unwrap());
    assert_eq!(m.current_page as u64, md["currentPage"].as_u64().unwrap());
    assert_eq!(m.page_size as u64, md["pageSize"].as_u64().unwrap());
    assert_eq!(m.total_pages as u64, md["totalPages"].as_u64().unwrap());
    assert_eq!(m.next_page.as_deref(), Some("https://example.test/page/3"));
    assert_eq!(m.prev_page, None);
}

#[test]
fn meta_defaults_absent_counts_to_zero() {
    let body = r#"{ "items": [], "metadata": { "nextPage": null } }"#;
    let v: serde_json::Value = serde_json::from_str(body).unwrap();
    let md = &v["metadata"];
    let m = PaginationMeta::from_wire(
        md["totalItems"].as_u64().map(|n| n as usize),
        md["currentPage"].as_u64().map(|n| n as usize),
        md["pageSize"].as_u64().map(|n| n as usize),
        md["totalPages"].as_u64().map(|n| n as usize),
        md["nextPage"].as_str().map(|s| s.to_string()),
        md["prevPage"].as_str().map(|s| s.to_string()),
    );
    assert_eq!(m.total_items, 0);
    assert_eq!(m.current_page, 0);
    assert_eq!(m.page_size, 0);
    assert_eq!(m.total_pages, 0);
    assert_eq!(m.next_page, None);
    assert_eq!(m.prev_page, None);
}

#[test]
fn first_few_borrows_items_and_meta() {
    let page = Paginated::new(vec![1u64, 2, 3], meta_with(None));
    let (items, meta) = page.first_few();
    assert_eq!(items, &vec![1u64, 2, 3]);
    assert_eq!(meta.total_items, 3);
    // The envelope is untouched by inspection.
    let (items_again, _) = page.first_few();
    assert_eq!(items_again.len(), 3);
}

#[test]
fn into_parts_surrenders_the_page() {
    let page = Paginated::new(vec![9u64], meta_with(Some("u")));
    let (items, meta) = page.into_parts();
    assert_eq!(items, vec![9u64]);
    assert_eq!(meta.next_page.as_deref(), Some("u"));
}

#[test]
fn truncate_keeps_the_first_items() {
    let mut page = Paginated::new(vec![1u64, 2, 3, 4], meta_with(None));
    page.truncate_items(3);
    assert_eq!(page.first_few().0, &vec![1u64, 2, 3]);
    page.truncate_items(10);
    assert_eq!(page.first_few().0, &vec![1u64, 2, 3]);
}

#[test]
fn map_keeps_order_and_meta() {
    let page = Paginated::new(vec![1u64, 2, 3], meta_with(Some("next")));
    let doubled = page.map(|x| x * 2);
    let (items, meta) = doubled.into_parts();
    assert_eq!(items, vec![2u64, 4, 6]);
    assert_eq!(meta.next_page.as_deref(), Some("next"));
}

#[test]
fn fetch_error_kinds() {
    let t = FetchError::Transport("connection refused".to_string());
    assert!(t.is_transport());
    assert_eq!(t.message().as_str(), "connection refused");
    let d = FetchError::Decode("missing field".to_string());
    assert!(!d.is_transport());
    assert_eq!(d.message().as_str(), "missing field");
}
