//! Pages of a listing.

use vstd::prelude::*;

verus! {

/// Where page `page` begins in a listing, pages being numbered from 1.
pub open spec fn page_start(page: u32, page_size: u32) -> int {
    (page - 1) * page_size
}

/// Where page `page` ends in a listing of `total` entries.
pub open spec fn page_end(total: usize, page: u32, page_size: u32) -> int {
    if page_start(page, page_size) + page_size <= total {
        page_start(page, page_size) + page_size
    } else {
        total as int
    }
}

/// Page `page` can be cut out of a listing of `total` entries: pages are
/// numbered from 1, and the page begins no later than the listing ends. (The
/// begin must also be a number that a `u32` holds, and the end one that a
/// `usize` holds.)
pub open spec fn page_exists(total: usize, page: u32, page_size: u32) -> bool {
    &&& page >= 1
    &&& page_start(page, page_size) <= u32::MAX
    &&& page_start(page, page_size) <= total
    &&& page_start(page, page_size) + page_size <= usize::MAX
}

/// The begin of a page is a number that 64 bits hold.
proof fn lemma_start_fits(page: u32, page_size: u32)
    requires
        page >= 1,
    ensures
        0 <= (page - 1) * page_size <= u64::MAX,
{
    assert(0 <= (page - 1) * page_size <= 0xFFFF_FFFF * 0xFFFF_FFFF) by (nonlinear_arith)
        requires
            0 <= page - 1 <= 0xFFFF_FFFF,
            0 <= page_size <= 0xFFFF_FFFF,
    ;
}

/// Whether page `page` can be cut out of a listing of `total` entries.
pub fn has_page(total: usize, page: u32, page_size: u32) -> (exists: bool)
    ensures
        exists == page_exists(total, page, page_size),
{
    if page < 1 {
        return false;
    }
    proof {
        lemma_start_fits(page, page_size);
    }
    let start: u64 = (page - 1) as u64 * page_size as u64;
    start <= u32::MAX as u64 && start <= total as u64 && start + page_size as u64
        <= usize::MAX as u64
}

/// The bounds of page `page` in a listing of `total` entries: the entries from
/// the first bound up to, not including, the second make the page.
pub fn page_bounds(total: usize, page: u32, page_size: u32) -> (bounds: (usize, usize))
    requires
        page_exists(total, page, page_size),
    ensures
        bounds.0 == page_start(page, page_size),
        bounds.1 == page_end(total, page, page_size),
        bounds.0 <= bounds.1 <= total,
{
    proof {
        lemma_start_fits(page, page_size);
    }
    let start: usize = ((page - 1) as u64 * page_size as u64) as usize;
    let end: usize = if start + page_size as usize <= total {
        start + page_size as usize
    } else {
        total
    };
    (start, end)
}

} // verus!
