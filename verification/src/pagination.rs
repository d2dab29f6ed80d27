//! Query parameters of the HTTP endpoints: paging and sort order.

use vstd::prelude::*;
use crate::text::str_equal;

verus! {

/// Page size when a request names none.
pub const DEFAULT_LIMIT: u64 = 25;

/// Page number when a request names none; pages are numbered from 1.
pub const DEFAULT_PAGE: u64 = 1;

/// Paging and ordering parameters of a search.
pub struct SearchParams {
    pub limit: Option<u64>,
    pub page: Option<u64>,
    pub order: Option<String>,
}

/// Search parameters narrowed to a category or a player.
pub struct FilterParams {
    pub limit: Option<u64>,
    pub page: Option<u64>,
    pub order: Option<String>,
    pub category: Option<String>,
    pub player_uuid: Option<String>,
}

/// Search parameters of the statistics endpoints.
pub struct StatsFilterParams {
    pub limit: Option<u64>,
    pub page: Option<u64>,
    pub order: Option<String>,
    pub item: Option<String>,
    pub category: Option<String>,
    pub player_uuid: Option<String>,
}

/// Direction in which statistic values are sorted.
#[derive(Clone, Copy, Debug, PartialEq, Eq, Structural)]
pub enum SortDirection {
    Ascending,
    Descending,
}

/// The page size a request asks for.
pub open spec fn spec_limit(limit: Option<u64>) -> u64 {
    match limit {
        Some(l) => l,
        None => DEFAULT_LIMIT,
    }
}

/// The page a request asks for; pages below the first count as the first.
pub open spec fn spec_page(page: Option<u64>) -> u64 {
    match page {
        Some(p) => if p > DEFAULT_PAGE { p } else { DEFAULT_PAGE },
        None => DEFAULT_PAGE,
    }
}

/// Number of rows skipped before the requested page.
pub open spec fn spec_offset(limit: Option<u64>, page: Option<u64>) -> int {
    (spec_page(page) - 1) * spec_limit(limit)
}

/// The offset of the requested page fits in a `u64`.
pub open spec fn offset_in_range(limit: Option<u64>, page: Option<u64>) -> bool {
    spec_offset(limit, page) <= u64::MAX
}

/// The order a request asks for, `"desc"` when it names none.
pub open spec fn spec_order(order: Option<String>) -> Seq<char> {
    match order {
        Some(o) => o@,
        None => "desc"@,
    }
}

/// Rows are sorted ascending exactly when the order reads `"asc"`.
pub open spec fn spec_sort_direction(order: Seq<char>) -> SortDirection {
    if order == "asc"@ {
        SortDirection::Ascending
    } else {
        SortDirection::Descending
    }
}

/// Pages follow each other without gap or overlap: each page starts
/// `limit` rows after the one before it, and the first page, like any page
/// number below it or none at all, starts at the first row.
pub proof fn lemma_pages_are_consecutive(limit: Option<u64>, page: u64)
    requires
        1 <= page < u64::MAX,
    ensures
        spec_offset(limit, Some((page + 1) as u64)) == spec_offset(limit, Some(page)) + spec_limit(limit),
        spec_offset(limit, Some(0)) == 0,
        spec_offset(limit, Some(1)) == 0,
        spec_offset(limit, None) == 0,
{
    let l = spec_limit(limit) as int;
    let p = page as int;
    assert(p * l == (p - 1) * l + l) by (nonlinear_arith);
    assert(0 * l == 0);
    assert(spec_page(Some(0u64)) == 1);
    assert(spec_page(Some(1u64)) == 1);
}

/// A search returns the page size it asks for, 25 when it names none; the
/// requested page `p` starts `(p - 1)` pages in, and page 0 or no page
/// starts at the first row.
pub proof fn lemma_page_window_follows_request(l: u64, p: u64)
    ensures
        spec_limit(Some(l)) == l,
        spec_limit(None) == 25,
        p >= 1 ==> spec_offset(Some(l), Some(p)) == (p - 1) * l,
        p >= 1 ==> spec_offset(None, Some(p)) == (p - 1) * 25,
        spec_offset(Some(l), Some(0)) == 0,
        spec_offset(Some(l), None) == 0,
{
    assert(0 * (l as int) == 0);
}

/// Page size and offset from the two optional parameters.
fn page_window(limit: Option<u64>, page: Option<u64>) -> (r: (u64, u64))
    requires
        offset_in_range(limit, page),
    ensures
        r.0 == spec_limit(limit),
        r.1 == spec_offset(limit, page),
{
    let limit = match limit {
        Some(l) => l,
        None => DEFAULT_LIMIT,
    };
    let page = match page {
        Some(p) => if p > DEFAULT_PAGE { p } else { DEFAULT_PAGE },
        None => DEFAULT_PAGE,
    };
    (limit, (page - 1) * limit)
}

/// Whether the offset of the requested page fits in a `u64`.
fn window_fits(limit: Option<u64>, page: Option<u64>) -> (r: bool)
    ensures
        r == offset_in_range(limit, page),
{
    let limit = match limit {
        Some(l) => l,
        None => DEFAULT_LIMIT,
    };
    let page = match page {
        Some(p) => if p > DEFAULT_PAGE { p } else { DEFAULT_PAGE },
        None => DEFAULT_PAGE,
    };
    (page - 1).checked_mul(limit).is_some()
}

/// Page size and offset of a search.
pub fn parse_pagination(params: &SearchParams) -> (r: (u64, u64))
    requires
        offset_in_range(params.limit, params.page),
    ensures
        r.0 == spec_limit(params.limit),
        r.1 == spec_offset(params.limit, params.page),
{
    page_window(params.limit, params.page)
}

/// Page size and offset of a statistics search.
pub fn parse_pagination_stats(params: &StatsFilterParams) -> (r: (u64, u64))
    requires
        offset_in_range(params.limit, params.page),
    ensures
        r.0 == spec_limit(params.limit),
        r.1 == spec_offset(params.limit, params.page),
{
    page_window(params.limit, params.page)
}

/// Whether `parse_pagination` accepts these parameters.
pub fn pagination_fits(params: &SearchParams) -> (r: bool)
    ensures
        r == offset_in_range(params.limit, params.page),
{
    window_fits(params.limit, params.page)
}

/// Whether `parse_pagination_stats` accepts these parameters.
pub fn pagination_stats_fits(params: &StatsFilterParams) -> (r: bool)
    ensures
        r == offset_in_range(params.limit, params.page),
{
    window_fits(params.limit, params.page)
}

/// The requested order, `"desc"` by default.
fn order_or_default(order: &Option<String>) -> (r: String)
    ensures
        r@ == spec_order(*order),
{
    match order {
        Some(o) => o.clone(),
        None => String::from_str("desc"),
    }
}

/// The sort order of a search.
pub fn parse_order(params: &SearchParams) -> (r: String)
    ensures
        r@ == spec_order(params.order),
{
    order_or_default(&params.order)
}

/// The sort order of a statistics search.
pub fn parse_order_stats(params: &StatsFilterParams) -> (r: String)
    ensures
        r@ == spec_order(params.order),
{
    order_or_default(&params.order)
}

/// The direction in which statistic values are sorted for an order string.
pub fn sort_direction(order: &str) -> (d: SortDirection)
    ensures
        d == spec_sort_direction(order@),
{
    if str_equal(order, "asc") {
        SortDirection::Ascending
    } else {
        SortDirection::Descending
    }
}

} // verus!
