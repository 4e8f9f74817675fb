//! Page arithmetic: where a page starts, how long it is, and where the
//! navigation buttons lead.

use vstd::prelude::*;

verus! {

/// What the navigation controls of one page need.
///
/// `total_pages` is `row_count / page_limit`, rounded down: a short final page
/// is shown as page `total_pages + 1` but not counted in `total_pages`.
#[derive(Debug, Clone, Copy, PartialEq, Eq, Structural)]
pub struct PaginateInfo {
    pub first_page_offset: Option<u64>,
    pub prev_page_offset: Option<u64>,
    pub next_page_offset: Option<u64>,
    pub last_page_offset: Option<u64>,
    pub total_pages: u64,
    pub cur_page: u64,
    pub total_row_count: u64,
    pub page_limit: u64,
}

/// The page an offset falls on, counting from one; zero for an empty table.
pub open spec fn cur_page_spec(row_count: u64, offset: u64, page_limit: u64) -> int {
    if row_count > 0 {
        if offset / page_limit + 1 > u64::MAX {
            u64::MAX as int
        } else {
            offset / page_limit + 1
        }
    } else {
        0
    }
}

/// The navigation state of the page at `offset`.
pub open spec fn paginate_info_spec(row_count: u64, offset: u64, page_limit: u64) -> PaginateInfo {
    let total_pages = row_count / page_limit;
    let cur_page = cur_page_spec(row_count, offset, page_limit);
    PaginateInfo {
        first_page_offset: if cur_page == 1 || row_count == 0 {
            None
        } else {
            Some(0)
        },
        prev_page_offset: if offset < page_limit {
            None
        } else {
            Some((offset - page_limit) as u64)
        },
        next_page_offset: if offset + page_limit >= row_count {
            None
        } else {
            Some((offset + page_limit) as u64)
        },
        last_page_offset: if cur_page == total_pages || row_count == 0 || total_pages == 0 {
            None
        } else {
            Some(((total_pages - 1) * page_limit) as u64)
        },
        total_pages: total_pages as u64,
        cur_page: cur_page as u64,
        total_row_count: row_count,
        page_limit,
    }
}

impl PaginateInfo {
    /// The navigation state of the page at `offset` of a list of `row_count`
    /// rows shown `page_limit` at a time.
    ///
    /// Where there is no full page (`total_pages == 0`) no last-page offset is
    /// given. The page number stops at `u64::MAX`.
    pub fn compute(row_count: u64, offset: u64, page_limit: u64) -> (r: PaginateInfo)
        requires
            page_limit > 0,
        ensures
            r == paginate_info_spec(row_count, offset, page_limit),
    {
        let total_pages = row_count / page_limit;
        let q = offset / page_limit;
        let cur_page: u64 = if row_count > 0 {
            if q == u64::MAX {
                u64::MAX
            } else {
                q + 1
            }
        } else {
            0
        };
        let first_page_offset = if cur_page == 1 || row_count == 0 {
            None
        } else {
            Some(0)
        };
        let last_page_offset = if cur_page == total_pages || row_count == 0 || total_pages == 0 {
            None
        } else {
            assert((total_pages - 1) * page_limit <= row_count) by (nonlinear_arith)
                requires
                    total_pages == row_count / page_limit,
                    total_pages >= 1,
                    page_limit > 0,
            ;
            Some((total_pages - 1) * page_limit)
        };
        let prev_page_offset = if offset < page_limit {
            None
        } else {
            Some(offset - page_limit)
        };
        let next_page_offset = if offset >= row_count || row_count - offset <= page_limit {
            None
        } else {
            Some(offset + page_limit)
        };
        PaginateInfo {
            first_page_offset,
            prev_page_offset,
            next_page_offset,
            last_page_offset,
            total_pages,
            cur_page,
            total_row_count: row_count,
            page_limit,
        }
    }
}

/// How many rows the page at `offset` may hold: the page size, cut so that no
/// row past the first `limit` is shown. `None` where the page lies wholly past
/// `limit`, so that no query is needed.
pub open spec fn page_window_spec(offset: u64, page_limit: u64, limit: Option<u64>) -> Option<u64> {
    match limit {
        None => Some(page_limit),
        Some(l) => if offset >= l {
            None
        } else if page_limit > l - offset {
            Some((l - offset) as u64)
        } else {
            Some(page_limit)
        },
    }
}

pub fn page_window(offset: u64, page_limit: u64, limit: Option<u64>) -> (r: Option<u64>)
    ensures
        r == page_window_spec(offset, page_limit, limit),
{
    match limit {
        None => Some(page_limit),
        Some(l) => {
            let mut size = page_limit;
            if size > l {
                size = l;
            }
            if offset >= l {
                None
            } else if size > l - offset {
                Some(l - offset)
            } else {
                Some(size)
            }
        },
    }
}

/// The count of rows a list holds once cut to its first `limit` rows.
pub open spec fn capped_count(count: u64, limit: Option<u64>) -> u64 {
    match limit {
        Some(l) => if count > l {
            l
        } else {
            count
        },
        None => count,
    }
}

} // verus!
