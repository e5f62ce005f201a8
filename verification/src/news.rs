//! The news feed, twenty articles a page, optionally of one category.
use vstd::prelude::*;
use crate::paging::{offset_fits, offset_of, page_number, page_number_of, paging_checked, Paging};

verus! {

/// How many articles a news page holds.
pub const NEWS_PER_PAGE: i64 = 20;

/// A request for a page of news.
#[derive(Debug)]
pub struct NewsQuery {
    pub category: Option<String>,
    pub page: Option<i64>,
}

/// The page of news a request asks for, or none when its offset would
/// not fit in an `i64`.
pub fn news_paging(q: &NewsQuery) -> (r: Option<Paging>)
    ensures
        match r {
            Some(p) => p.page == page_number(q.page) && p.per_page == NEWS_PER_PAGE && p.offset
                == offset_of(page_number(q.page), NEWS_PER_PAGE as int),
            None => !offset_fits(page_number(q.page), NEWS_PER_PAGE as int),
        },
        r matches Some(p) ==> p.per_page == 20,
        r matches Some(p) ==> (q.page matches Some(n) ==> (n >= 1 ==> p.page == n)),
        r matches Some(p) ==> (!(q.page matches Some(n) && n >= 1) ==> p.page == 1),
        r matches Some(p) ==> p.offset == (p.page - 1) * 20,
        !(q.page matches Some(n) && n > 1) ==> r is Some,
{
    let page = page_number_of(q.page);
    proof {
        if page == 1 {
            assert(offset_of(1, NEWS_PER_PAGE as int) == 0);
        }
    }
    paging_checked(page, NEWS_PER_PAGE)
}

} // verus!
