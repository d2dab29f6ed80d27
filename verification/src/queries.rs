//! The statistics queries that the HTTP endpoints run: which rows they
//! select, how the rows are sorted, and which page is returned.

use vstd::prelude::*;
use crate::pagination::{
    SearchParams, SortDirection, StatsFilterParams, offset_in_range, sort_direction, spec_limit,
    spec_offset, spec_order, spec_sort_direction, parse_order, parse_order_stats, parse_pagination,
    parse_pagination_stats,
};
use crate::player_id::{hyphenated, uuid_text};
use crate::text::str_equal;
use crate::server::{spec_outcome, spec_read_outcome, spec_status_code};

verus! {

/// A query over the `player_stats` table: the filters that apply, the sort
/// direction of the values, and the page.
pub struct StatsQuery {
    /// Only rows of this player.
    pub player_uuid: Option<String>,
    /// Only rows of this statistic name.
    pub stat_name: Option<String>,
    /// Only rows of this category.
    pub category_id: Option<i32>,
    pub direction: SortDirection,
    pub limit: u64,
    pub offset: u64,
}

pub open spec fn opt_view(s: Option<String>) -> Option<Seq<char>> {
    match s {
        Some(v) => Some(v@),
        None => None,
    }
}

pub(crate) fn clone_opt(s: &Option<String>) -> (r: Option<String>)
    ensures
        opt_view(r) == opt_view(*s),
{
    match s {
        Some(v) => Some(v.clone()),
        None => None,
    }
}

/// The query selects exactly these rows, sorted and paged as given.
pub open spec fn query_is(
    q: StatsQuery,
    player_uuid: Option<Seq<char>>,
    stat_name: Option<Seq<char>>,
    category_id: Option<i32>,
    order: Seq<char>,
    limit: Option<u64>,
    page: Option<u64>,
) -> bool {
    &&& opt_view(q.player_uuid) == player_uuid
    &&& opt_view(q.stat_name) == stat_name
    &&& q.category_id == category_id
    &&& q.direction == spec_sort_direction(order)
    &&& q.limit == spec_limit(limit)
    &&& q.offset == spec_offset(limit, page)
}

/// The statistics of one category, found by name beforehand.
pub fn category_stats_query(category_id: i32, params: &SearchParams) -> (q: StatsQuery)
    requires
        offset_in_range(params.limit, params.page),
    ensures
        query_is(q, None, None, Some(category_id), spec_order(params.order), params.limit, params.page),
{
    let (limit, offset) = parse_pagination(params);
    let order = parse_order(params);
    StatsQuery {
        player_uuid: None,
        stat_name: None,
        category_id: Some(category_id),
        direction: sort_direction(order.as_str()),
        limit,
        offset,
    }
}

/// The status is one an endpoint documents: 200 or 500, and 404 when the
/// endpoint documents "not found".
pub open spec fn status_documented(status: u16, not_found_documented: bool) -> bool {
    status == 200 || status == 500 || (not_found_documented && status == 404)
}

/// The category filter of a statistics search: the category named by the
/// request, looked up beforehand (`category_id` holds the id found, if any).
/// `None` when the request names a category that does not exist.
pub open spec fn requested_category(params_category: Option<String>, category_id: Option<i32>) -> Option<Option<i32>> {
    match params_category {
        None => Some(None),
        Some(_) => match category_id {
            Some(id) => Some(Some(id)),
            None => None,
        },
    }
}

/// The statistics of one item (statistic name). A category that the
/// request names but that does not exist yields no query, which the
/// endpoint answers with "not found" (its documented answers are 200, 404
/// and 500).
pub fn item_stats_query(item: &str, params: &StatsFilterParams, category_id: Option<i32>) -> (r: Option<StatsQuery>)
    requires
        offset_in_range(params.limit, params.page),
    ensures
        status_documented(spec_status_code(spec_outcome(r is Some, true)), true),
        status_documented(spec_status_code(spec_outcome(r is Some, false)), true),
        match requested_category(params.category, category_id) {
            None => r is None,
            Some(cat) => r matches Some(q) && query_is(
                q,
                None,
                Some(item@),
                cat,
                spec_order(params.order),
                params.limit,
                params.page,
            ),
        },
{
    let category = match &params.category {
        None => None,
        Some(_) => match category_id {
            Some(id) => Some(id),
            None => return None,
        },
    };
    let (limit, offset) = parse_pagination_stats(params);
    let order = parse_order_stats(params);
    Some(
        StatsQuery {
            player_uuid: None,
            stat_name: Some(String::from_str(item)),
            category_id: category,
            direction: sort_direction(order.as_str()),
            limit,
            offset,
        },
    )
}

/// The statistics of one player. A category that the request names but
/// that does not exist selects no rows: no query is formed (`None`), and the
/// endpoint answers 200 with an empty list. The endpoint's documented
/// answers are 200 and 500, and it gives no other.
pub fn player_stats_query(player_uuid: u128, params: &StatsFilterParams, category_id: Option<i32>) -> (r: Option<StatsQuery>)
    requires
        offset_in_range(params.limit, params.page),
    ensures
        r is None ==> spec_status_code(spec_read_outcome(r is Some, true)) == 200
            && spec_status_code(spec_read_outcome(r is Some, false)) == 200,
        status_documented(spec_status_code(spec_read_outcome(r is Some, true)), false),
        status_documented(spec_status_code(spec_read_outcome(r is Some, false)), false),
        match requested_category(params.category, category_id) {
            None => r is None,
            Some(cat) => r matches Some(q) && query_is(
                q,
                Some(hyphenated(player_uuid)),
                None,
                cat,
                spec_order(params.order),
                params.limit,
                params.page,
            ),
        },
{
    let category = match &params.category {
        None => None,
        Some(_) => match category_id {
            Some(id) => Some(id),
            None => return None,
        },
    };
    let (limit, offset) = parse_pagination_stats(params);
    let order = parse_order_stats(params);
    Some(
        StatsQuery {
            player_uuid: Some(uuid_text(player_uuid)),
            stat_name: None,
            category_id: category,
            direction: sort_direction(order.as_str()),
            limit,
            offset,
        },
    )
}

/// The category filter of the statistics search: the id found for the
/// category the request names; none when it names none or the category does
/// not exist.
pub open spec fn stats_category_filter(params_category: Option<String>, category_id: Option<i32>) -> Option<i32> {
    if params_category is Some {
        category_id
    } else {
        None
    }
}

/// The statistics search ignores a category that does not exist: it runs
/// the same query as a search that names no category.
pub proof fn lemma_unknown_category_ignored(params_category: Option<String>, category_id: Option<i32>)
    ensures
        stats_category_filter(params_category, None) == stats_category_filter(None, category_id),
{
}

/// Paging and ordering read the same from the parameters of a statistics
/// search as from those of a plain search with the same page size, page
/// and order.
pub proof fn lemma_stats_paging_matches_search_paging(search: SearchParams, stats: StatsFilterParams)
    requires
        search.limit == stats.limit,
        search.page == stats.page,
        opt_view(search.order) == opt_view(stats.order),
    ensures
        spec_limit(search.limit) == spec_limit(stats.limit),
        spec_offset(search.limit, search.page) == spec_offset(stats.limit, stats.page),
        spec_order(search.order) == spec_order(stats.order),
{
}

/// A search over all statistics, narrowed by the item, category and player
/// the request names. Unlike the item and player searches, a category that
/// does not exist is not an error here: the search is then not narrowed by
/// category.
pub fn stats_query(params: &StatsFilterParams, category_id: Option<i32>) -> (q: StatsQuery)
    requires
        offset_in_range(params.limit, params.page),
    ensures
        query_is(
            q,
            opt_view(params.player_uuid),
            opt_view(params.item),
            stats_category_filter(params.category, category_id),
            spec_order(params.order),
            params.limit,
            params.page,
        ),
{
    let category = match &params.category {
        Some(_) => category_id,
        None => None,
    };
    let (limit, offset) = parse_pagination_stats(params);
    let order = parse_order_stats(params);
    StatsQuery {
        player_uuid: clone_opt(&params.player_uuid),
        stat_name: clone_opt(&params.item),
        category_id: category,
        direction: sort_direction(order.as_str()),
        limit,
        offset,
    }
}

/// Column by which a category's statistics are ordered.
#[derive(Clone, Copy, Debug, PartialEq, Eq, Structural)]
pub enum SortColumn {
    StatName,
    Value,
}

/// Search parameters with a signed page size and page number and a choice
/// of sort column.
pub struct SignedSearchParams {
    pub limit: Option<i64>,
    pub page: Option<i64>,
    pub sort_by: Option<String>,
    pub order: Option<String>,
}

pub open spec fn spec_signed_limit(limit: Option<i64>) -> i64 {
    match limit {
        Some(l) => l,
        None => 25,
    }
}

pub open spec fn spec_signed_page(page: Option<i64>) -> i64 {
    match page {
        Some(p) => if p > 1 { p } else { 1 },
        None => 1,
    }
}

pub open spec fn spec_signed_offset(limit: Option<i64>, page: Option<i64>) -> int {
    (spec_signed_page(page) - 1) * spec_signed_limit(limit)
}

/// The offset fits in an `i64`.
pub open spec fn signed_offset_in_range(limit: Option<i64>, page: Option<i64>) -> bool {
    i64::MIN <= spec_signed_offset(limit, page) <= i64::MAX
}

/// A signed search returns the page size it asks for, whatever its sign,
/// 25 when it names none; page `p` from 1 on starts `(p - 1)` pages in, and
/// pages up to 1 or no page start at the first row.
pub proof fn lemma_signed_window_follows_request(l: i64, p: i64)
    ensures
        spec_signed_limit(Some(l)) == l,
        spec_signed_limit(None) == 25,
        p >= 1 ==> spec_signed_offset(Some(l), Some(p)) == (p - 1) * l,
        p <= 1 ==> spec_signed_offset(Some(l), Some(p)) == 0,
        spec_signed_offset(Some(l), None) == 0,
{
    assert(0 * (l as int) == 0);
}

/// Page size and offset of a signed search.
pub fn signed_pagination(params: &SignedSearchParams) -> (r: (i64, i64))
    requires
        signed_offset_in_range(params.limit, params.page),
    ensures
        r.0 == spec_signed_limit(params.limit),
        r.1 == spec_signed_offset(params.limit, params.page),
{
    let limit: i64 = match params.limit {
        Some(l) => l,
        None => 25,
    };
    let page: i64 = match params.page {
        Some(p) => if p > 1 { p } else { 1 },
        None => 1,
    };
    (limit, (page - 1) * limit)
}

/// Whether `signed_pagination` accepts these parameters.
pub fn signed_pagination_fits(params: &SignedSearchParams) -> (r: bool)
    ensures
        r == signed_offset_in_range(params.limit, params.page),
{
    let limit: i64 = match params.limit {
        Some(l) => l,
        None => 25,
    };
    let page: i64 = match params.page {
        Some(p) => if p > 1 { p } else { 1 },
        None => 1,
    };
    match (page - 1).checked_mul(limit) {
        Some(_) => true,
        None => {
            false
        },
    }
}

/// The column and direction by which a category's statistics are ordered:
/// by statistic name when `sort_by` reads `stat_name`, else by value;
/// ascending when `order` reads `asc`, else descending.
pub fn column_sort(params: &SignedSearchParams) -> (r: (SortColumn, SortDirection))
    ensures
        r.0 == (if params.sort_by matches Some(s) && s@ == "stat_name"@ {
            SortColumn::StatName
        } else {
            SortColumn::Value
        }),
        r.1 == spec_sort_direction(spec_order(params.order)),
{
    let column = match &params.sort_by {
        Some(s) => if str_equal(s.as_str(), "stat_name") {
            SortColumn::StatName
        } else {
            SortColumn::Value
        },
        None => SortColumn::Value,
    };
    let direction = match &params.order {
        Some(o) => sort_direction(o.as_str()),
        None => sort_direction("desc"),
    };
    (column, direction)
}

} // verus!
