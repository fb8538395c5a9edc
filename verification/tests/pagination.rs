use hawkbit_fleet::pager::Pager;
use hawkbit_fleet::pager::PAGE_SIZE;
use hawkbit_fleet::types::PaginationResponse;

fn page(content: Vec<u32>, size: usize, total: usize) -> PaginationResponse<Vec<u32>> {
    PaginationResponse { content, size, total }
}

/// A server that lists the numbers below `total` faithfully.
fn faithful(total: usize, offset: usize) -> PaginationResponse<Vec<u32>> {
    let end = std::cmp::min(total, offset.saturating_add(PAGE_SIZE));
    let content: Vec<u32> = (offset.min(end)..end).map(|i| i as u32).collect();
    let size = content.len();
    page(content, size, total)
}

fn read_all(total: usize) -> (Vec<u32>, usize) {
    let mut pager: Pager<u32> = Pager::new();
    let mut requests = 0;
    while let Some(offset) = pager.next_offset() {
        let answer = faithful(total, offset);
        assert!(pager.fits(&answer));
        pager.accept(answer);
        requests += 1;
        assert!(requests <= total + 1);
    }
    assert!(pager.is_done());
    (pager.into_items(), requests)
}

#[test]
fn page_size_is_fifty() {
    assert_eq!(PAGE_SIZE, 50);
}

#[test]
fn a_new_pager_asks_for_the_first_page() {
    let pager: Pager<u32> = Pager::new();
    assert_eq!(pager.next_offset(), Some(0));
    assert!(!pager.is_done());
    assert_eq!(pager.collected(), 0);
}

#[test]
fn faithful_listing_is_read_completely() {
    for total in [1usize, 49, 50, 51, 100, 120, 237] {
        let (items, requests) = read_all(total);
        assert_eq!(items.len(), total);
        assert_eq!(items, (0..total as u32).collect::<Vec<u32>>());
        assert_eq!(requests, (total + PAGE_SIZE - 1) / PAGE_SIZE);
    }
}

#[test]
fn empty_listing_ends_with_the_first_page() {
    let (items, requests) = read_all(0);
    assert!(items.is_empty());
    assert_eq!(requests, 1);
}

#[test]
fn offsets_advance_by_the_reported_size() {
    let mut pager: Pager<u32> = Pager::new();
    pager.accept(page(vec![1, 2, 3], 3, 10));
    assert_eq!(pager.next_offset(), Some(3));
    pager.accept(page(vec![4, 5], 2, 10));
    assert_eq!(pager.next_offset(), Some(5));
    pager.accept(page(vec![6, 7, 8, 9, 10], 5, 10));
    assert_eq!(pager.next_offset(), None);
    assert_eq!(pager.collected(), 10);
    assert_eq!(pager.into_items(), vec![1, 2, 3, 4, 5, 6, 7, 8, 9, 10]);
}

#[test]
fn premature_empty_page_ends_the_listing_early() {
    let mut pager: Pager<u32> = Pager::new();
    pager.accept(page(vec![1, 2, 3], 3, 10));
    assert_eq!(pager.next_offset(), Some(3));
    pager.accept(page(Vec::new(), 0, 10));
    assert_eq!(pager.next_offset(), None);
    assert!(pager.is_done());
    let items = pager.into_items();
    assert_eq!(items, vec![1, 2, 3]);
    assert!(items.len() < 10);
}

#[test]
fn the_latest_total_counts() {
    let mut pager: Pager<u32> = Pager::new();
    pager.accept(page(vec![1, 2], 2, 100));
    assert_eq!(pager.next_offset(), Some(2));
    pager.accept(page(vec![3], 1, 3));
    assert_eq!(pager.next_offset(), None);
    assert_eq!(pager.into_items(), vec![1, 2, 3]);
}

#[test]
fn a_page_that_overflows_the_offset_does_not_fit() {
    let mut pager: Pager<u32> = Pager::new();
    pager.accept(page(vec![1], 1, usize::MAX));
    assert!(pager.fits(&page(Vec::new(), usize::MAX - 1, usize::MAX)));
    assert!(!pager.fits(&page(Vec::new(), usize::MAX, usize::MAX)));
}
