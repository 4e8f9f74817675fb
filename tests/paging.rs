use soundboard::paging::{page_window, PaginateInfo};

#[test]
fn first_page_of_three_rows() {
    let info = PaginateInfo::compute(3, 0, 2);
    assert_eq!(info.total_pages, 1);
    assert_eq!(info.cur_page, 1);
    assert_eq!(info.first_page_offset, None);
    assert_eq!(info.prev_page_offset, None);
    assert_eq!(info.next_page_offset, Some(2));
    assert_eq!(info.last_page_offset, None);
    assert_eq!(info.total_row_count, 3);
    assert_eq!(info.page_limit, 2);
}

#[test]
fn short_last_page_counts_floor() {
    let info = PaginateInfo::compute(5, 4, 2);
    assert_eq!(info.total_pages, 2);
    assert_eq!(info.cur_page, 3);
    assert_eq!(info.first_page_offset, Some(0));
    assert_eq!(info.prev_page_offset, Some(2));
    assert_eq!(info.next_page_offset, None);
    assert_eq!(info.last_page_offset, Some(2));
}

#[test]
fn empty_and_small_tables() {
    let empty = PaginateInfo::compute(0, 0, 20);
    assert_eq!(empty.cur_page, 0);
    assert_eq!(empty.total_pages, 0);
    assert_eq!(empty.first_page_offset, None);
    assert_eq!(empty.last_page_offset, None);
    assert_eq!(empty.next_page_offset, None);
    let small = PaginateInfo::compute(3, 0, 20);
    assert_eq!(small.total_pages, 0);
    assert_eq!(small.cur_page, 1);
    assert_eq!(small.last_page_offset, None);
    let huge = PaginateInfo::compute(1, u64::MAX, 1);
    assert_eq!(huge.cur_page, u64::MAX);
    assert_eq!(huge.next_page_offset, None);
}

#[test]
fn windows_respect_the_cap() {
    assert_eq!(page_window(0, 5, None), Some(5));
    assert_eq!(page_window(0, 5, Some(2)), Some(2));
    assert_eq!(page_window(1, 1, Some(2)), Some(1));
    assert_eq!(page_window(2, 1, Some(2)), None);
    assert_eq!(page_window(1, 5, Some(3)), Some(2));
}
