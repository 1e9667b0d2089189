//! Pagination and sort-order parameters shared by the list queries.
use vstd::prelude::*;

verus! {

pub const DEFAULT_PAGE: u32 = 1;

pub const DEFAULT_PAGE_SIZE: u32 = 10;

pub const MAX_PAGE_SIZE: u32 = 100;

#[derive(Debug, Clone, Copy, PartialEq, Eq)]
pub enum SortOrder {
    Asc,
    Desc,
}

impl SortOrder {
    /// The wire word of the sort order.
    pub fn to_str(&self) -> (r: &str)
        ensures
            self is Asc ==> r@ == "asc"@,
            self is Desc ==> r@ == "desc"@,
    {
        match self {
            SortOrder::Asc => "asc",
            SortOrder::Desc => "desc",
        }
    }
}

/// Where a one-based page starts in the full result list.
pub open spec fn spec_page_offset(page: u32, page_size: u32) -> int {
    (page - 1) * page_size
}

/// The number of pages a result set spans: the ceiling of the count over
/// the page size, and one page where the count or the page size is zero.
pub open spec fn spec_total_pages(total_count: int, page_size: int) -> int {
    if total_count == 0 || page_size == 0 {
        1
    } else {
        total_count / page_size + if total_count % page_size != 0 {
            1int
        } else {
            0int
        }
    }
}

/// Where a one-based page starts in the full result list.
pub fn page_offset(page: u32, page_size: u32) -> (r: u32)
    requires
        page >= 1,
        spec_page_offset(page, page_size) <= u32::MAX,
    ensures
        r == spec_page_offset(page, page_size),
{
    (page - 1) * page_size
}

/// The number of pages a result set spans, saturating at the largest
/// representable count.
pub fn total_pages(total_count: usize, page_size: u32) -> (r: u32)
    ensures
        spec_total_pages(total_count as int, page_size as int) <= u32::MAX ==> r
            == spec_total_pages(total_count as int, page_size as int),
        spec_total_pages(total_count as int, page_size as int) > u32::MAX ==> r == u32::MAX,
{
    if total_count == 0 || page_size == 0 {
        return 1;
    }
    let size = page_size as usize;
    let q = total_count / size;
    let rem = total_count % size;
    let pages = if rem != 0 {
        proof {
            assert(q < usize::MAX) by (nonlinear_arith)
                requires
                    q == total_count as int / size as int,
                    rem == total_count as int % size as int,
                    rem != 0,
                    size >= 1,
                    total_count <= usize::MAX,
            ;
        }
        q + 1
    } else {
        q
    };
    if pages > u32::MAX as usize {
        u32::MAX
    } else {
        pages as u32
    }
}

} // verus!
