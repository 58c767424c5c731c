use i_uploader::pagination::{
    build_pagination, is_current, max_page, page_link, PaginationBar, PaginationNode,
};

use PaginationNode::{Current, Ellipsis, Page};

fn bar(total: usize, per_page: usize, current: usize) -> PaginationBar {
    build_pagination(total, per_page, current)
}

#[test]
fn first_of_seven_pages() {
    assert_eq!(max_page(100, 15), 7);
    let bar = bar(100, 15, 0);
    assert_eq!(bar.prev, None);
    // The bar counts from one: the next page is the second, which clients ask for as page 1.
    assert_eq!(bar.next, Some(2));
    assert_eq!(bar.next.and_then(page_link), Some(1));
    assert_eq!(bar.pages, vec![Current(1), Page(2), Page(3), Ellipsis, Page(7)]);
}

#[test]
fn single_page() {
    let bar = bar(1, 15, 0);
    assert_eq!(bar.prev, None);
    assert_eq!(bar.next, None);
    assert_eq!(bar.pages, vec![Current(1)]);
}

#[test]
fn no_entries_still_one_page() {
    assert_eq!(max_page(0, 15), 1);
    let bar = bar(0, 15, 0);
    assert_eq!(bar.prev, None);
    assert_eq!(bar.next, None);
    assert_eq!(bar.pages, vec![Current(1)]);
}

#[test]
fn page_count_rounds_up() {
    assert_eq!(max_page(15, 15), 1);
    assert_eq!(max_page(16, 15), 2);
    assert_eq!(max_page(30, 15), 2);
    assert_eq!(max_page(31, 15), 3);
    assert_eq!(max_page(7, 1), 7);
    assert_eq!(max_page(usize::MAX, 1), usize::MAX);
    assert_eq!(max_page(usize::MAX, usize::MAX), 1);
}

#[test]
fn cell_marks_the_current_page() {
    assert_eq!(is_current(3, 3), Current(3));
    assert_eq!(is_current(3, 4), Page(3));
}

#[test]
fn middle_page_has_both_ellipses() {
    // 20 pages, page 10 shown.
    let bar = bar(200, 10, 9);
    assert_eq!(bar.prev, Some(9));
    assert_eq!(bar.next, Some(11));
    assert_eq!(
        bar.pages,
        vec![Page(1), Ellipsis, Page(8), Page(9), Current(10), Page(11), Page(12), Ellipsis, Page(20)]
    );
}

#[test]
fn leading_ellipsis_starts_at_page_five() {
    let fourth = bar(200, 10, 3);
    assert_eq!(
        fourth.pages,
        vec![Page(1), Page(2), Page(3), Current(4), Page(5), Page(6), Ellipsis, Page(20)]
    );
    let fifth = bar(200, 10, 4);
    assert_eq!(
        fifth.pages,
        vec![Page(1), Ellipsis, Page(3), Page(4), Current(5), Page(6), Page(7), Ellipsis, Page(20)]
    );
}

#[test]
fn trailing_ellipsis_needs_a_gap() {
    // Window ends at 19: the last page follows without an ellipsis.
    let bar17 = bar(200, 10, 16);
    assert_eq!(
        bar17.pages,
        vec![Page(1), Ellipsis, Page(15), Page(16), Current(17), Page(18), Page(19), Page(20)]
    );
    // Window ends at 18: one page is hidden, so there is an ellipsis.
    let bar16 = bar(200, 10, 15);
    assert_eq!(
        bar16.pages,
        vec![Page(1), Ellipsis, Page(14), Page(15), Current(16), Page(17), Page(18), Ellipsis, Page(20)]
    );
}

#[test]
fn last_page_has_no_next() {
    let bar = bar(200, 10, 19);
    assert_eq!(bar.prev, Some(19));
    assert_eq!(bar.next, None);
    assert_eq!(bar.pages, vec![Page(1), Ellipsis, Page(18), Page(19), Current(20)]);
}

#[test]
fn two_pages() {
    let first = bar(20, 10, 0);
    assert_eq!(first.pages, vec![Current(1), Page(2)]);
    assert_eq!((first.prev, first.next), (None, Some(2)));
    let second = bar(20, 10, 1);
    assert_eq!(second.pages, vec![Page(1), Current(2)]);
    assert_eq!((second.prev, second.next), (Some(1), None));
}

#[test]
fn page_beyond_the_last() {
    // Page 10 of a listing that has 3 pages.
    let bar = bar(30, 10, 9);
    assert_eq!(bar.prev, Some(9));
    assert_eq!(bar.next, None);
    assert_eq!(bar.pages, vec![Page(1), Ellipsis]);
}

#[test]
fn largest_page_numbers_do_not_overflow() {
    let bar = bar(usize::MAX, 1, usize::MAX - 1);
    assert_eq!(bar.prev, Some(usize::MAX - 1));
    assert_eq!(bar.next, None);
    assert_eq!(
        bar.pages,
        vec![
            Page(1),
            Ellipsis,
            Page(usize::MAX - 2),
            Page(usize::MAX - 1),
            Current(usize::MAX),
        ]
    );
}

#[test]
fn cells_link_to_pages_counted_from_zero() {
    assert_eq!(page_link(1), Some(0));
    assert_eq!(page_link(7), Some(6));
    assert_eq!(page_link(0), None);
    assert_eq!(Current(3).link(), Some(2));
    assert_eq!(Page(1).link(), Some(0));
    assert_eq!(Ellipsis.link(), None);
    let bar = bar(100, 15, 2);
    assert_eq!(bar.prev.and_then(page_link), Some(1));
    assert_eq!(bar.next.and_then(page_link), Some(3));
}
