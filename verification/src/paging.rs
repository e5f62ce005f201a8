//! Splitting long lists into pages.
use vstd::prelude::*;

verus! {

/// One page of a list: its number (from 1), its size, and how many items
/// come before it.
#[derive(Debug, Clone, Copy, PartialEq, Eq, Structural)]
pub struct Paging {
    pub page: i64,
    pub per_page: i64,
    pub offset: i64,
}

/// The page a request asks for: 1 when it names none, and never below 1.
pub open spec fn page_number(requested: Option<i64>) -> int {
    match requested {
        Some(p) => if p < 1 {
            1
        } else {
            p as int
        },
        None => 1,
    }
}

/// How many items come before page `page` of pages of `per_page` items.
pub open spec fn offset_of(page: int, per_page: int) -> int {
    (page - 1) * per_page
}

/// Whether the offset of page `page` fits in an `i64`.
pub open spec fn offset_fits(page: int, per_page: int) -> bool {
    i64::MIN <= offset_of(page, per_page) <= i64::MAX
}

/// The page asked for.
pub fn page_number_of(requested: Option<i64>) -> (r: i64)
    ensures
        r == page_number(requested),
        r >= 1,
{
    match requested {
        Some(p) => if p < 1 {
            1
        } else {
            p
        },
        None => 1,
    }
}

/// Page `page` of pages of `per_page` items, when its offset fits.
pub fn paging_checked(page: i64, per_page: i64) -> (r: Option<Paging>)
    requires
        page >= 1,
    ensures
        match r {
            Some(p) => offset_fits(page as int, per_page as int) && p.page == page && p.per_page
                == per_page && p.offset == offset_of(page as int, per_page as int),
            None => !offset_fits(page as int, per_page as int),
        },
{
    match (page - 1).checked_mul(per_page) {
        Some(offset) => Some(Paging { page, per_page, offset }),
        None => None,
    }
}

/// The page a request names is the one served when it is 1 or more; any
/// other request, or none, is served page 1.
pub proof fn requested_page_is_served(requested: Option<i64>)
    ensures
        requested matches Some(p) ==> (p >= 1 ==> page_number(requested) == p),
        requested matches Some(p) ==> (p < 1 ==> page_number(requested) == 1),
        requested is None ==> page_number(requested) == 1,
{
}

/// Pages follow one another without gap or overlap: each page starts
/// where the one before it ends.
pub proof fn pages_are_contiguous(page: int, per_page: int)
    requires
        page >= 1,
    ensures
        offset_of(page + 1, per_page) == offset_of(page, per_page) + per_page,
        offset_of(1, per_page) == 0,
{
    assert(page * per_page == (page - 1) * per_page + per_page) by (nonlinear_arith);
}

} // verus!
