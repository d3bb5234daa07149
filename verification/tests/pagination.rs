use orbidata::models::pagination::{PaginatedResponse, PaginationParams};

fn params(page: Option<u32>, per_page: Option<u32>) -> PaginationParams {
    PaginationParams { page, per_page }
}

#[test]
fn page_defaults_to_one() {
    assert_eq!(params(None, None).page(), 1);
}

#[test]
fn page_zero_becomes_one() {
    assert_eq!(params(Some(0), None).page(), 1);
}

#[test]
fn page_keeps_positive_value() {
    assert_eq!(params(Some(7), None).page(), 7);
}

#[test]
fn per_page_defaults_to_fifty() {
    assert_eq!(params(None, None).per_page(), 50);
}

#[test]
fn per_page_is_clamped() {
    assert_eq!(params(None, Some(0)).per_page(), 1);
    assert_eq!(params(None, Some(501)).per_page(), 500);
    assert_eq!(params(None, Some(500)).per_page(), 500);
    assert_eq!(params(None, Some(20)).per_page(), 20);
}

#[test]
fn params_normalized_twice_are_unchanged() {
    let p = params(Some(0), Some(9999));
    let again = params(Some(p.page()), Some(p.per_page()));
    assert_eq!(again.page(), p.page());
    assert_eq!(again.per_page(), p.per_page());
}

#[test]
fn middle_page_is_a_slice() {
    let items: Vec<u32> = (1..=5).collect();
    let r = PaginatedResponse::new(items, 2, 2);
    assert_eq!(r.data, vec![3, 4]);
    assert_eq!(r.meta.total, 5);
    assert_eq!(r.meta.page, 2);
    assert_eq!(r.meta.per_page, 2);
    assert_eq!(r.meta.total_pages, 3);
}

#[test]
fn last_page_is_partial() {
    let items: Vec<u32> = (1..=5).collect();
    let r = PaginatedResponse::new(items, 3, 2);
    assert_eq!(r.data, vec![5]);
}

#[test]
fn page_past_the_end_is_empty() {
    let items: Vec<u32> = (1..=5).collect();
    let r = PaginatedResponse::new(items, 4, 2);
    assert!(r.data.is_empty());
    assert_eq!(r.meta.total_pages, 3);
}

#[test]
fn empty_listing_has_one_page() {
    let r = PaginatedResponse::new(Vec::<u32>::new(), 1, 50);
    assert!(r.data.is_empty());
    assert_eq!(r.meta.total, 0);
    assert_eq!(r.meta.total_pages, 1);
}

#[test]
fn exact_multiple_has_no_extra_page() {
    let items: Vec<u32> = (0..100).collect();
    let r = PaginatedResponse::new(items, 1, 50);
    assert_eq!(r.meta.total_pages, 2);
    assert_eq!(r.data.len(), 50);
}

#[test]
fn zero_page_size_reports_saturated_page_count() {
    let items: Vec<u32> = (0..3).collect();
    let r = PaginatedResponse::new(items, 1, 0);
    assert!(r.data.is_empty());
    assert_eq!(r.meta.total_pages, u32::MAX);
    let r = PaginatedResponse::new(Vec::<u32>::new(), 1, 0);
    assert_eq!(r.meta.total_pages, 1);
}

#[test]
fn pages_joined_give_back_the_listing() {
    let items: Vec<u32> = (0..23).collect();
    let first = PaginatedResponse::new(items.clone(), 1, 5);
    let pages = first.meta.total_pages;
    assert_eq!(pages, 5);
    let mut joined = Vec::new();
    for page in 1..=pages {
        let r = PaginatedResponse::new(items.clone(), page, 5);
        assert!(!r.data.is_empty());
        assert!(r.data.len() <= 5);
        joined.extend(r.data);
    }
    assert_eq!(joined, items);
}

#[test]
fn huge_page_number_is_an_empty_page() {
    let items: Vec<u32> = (0..10).collect();
    let r = PaginatedResponse::new(items, 100_000_000, 50);
    assert!(r.data.is_empty());
    assert_eq!(r.meta.page, 100_000_000);
    assert_eq!(r.meta.per_page, 50);
    assert_eq!(r.meta.total_pages, 1);
    let r = PaginatedResponse::new(vec![1u8], u32::MAX, u32::MAX);
    assert!(r.data.is_empty());
}
