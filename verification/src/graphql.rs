//! The GraphQL API: its inputs, the queries its resolvers run, and the
//! objects it returns.

use vstd::prelude::*;
use crate::pagination::SortDirection;
use crate::models::{PlayerRecord, PlayerStatRecord, StatCategoryRecord};
use crate::text::str_equal;
use crate::queries::{clone_opt, opt_view};
use crate::text::{is_prefix_of, starts_with};

verus! {

/// Filter and paging of a player's or a category's statistics.
pub struct StatFilterInput {
    pub category: Option<String>,
    pub limit: Option<u64>,
    pub page: Option<u64>,
    pub order: Option<String>,
}

/// Filter and paging of a search over all statistics.
pub struct StatsFilterInput {
    pub item: Option<String>,
    pub category: Option<String>,
    pub player_uuid: Option<String>,
    pub limit: Option<u64>,
    pub page: Option<u64>,
    pub order: Option<String>,
}

/// A query of the GraphQL statistics resolvers: the filters that apply,
/// the sort direction of the values, and the page. Pages are numbered
/// from 0 here.
pub struct GraphStatsQuery {
    pub player_uuid: Option<String>,
    pub value_name: Option<String>,
    pub category: Option<String>,
    pub direction: SortDirection,
    pub limit: u64,
    pub offset: u64,
}

/// A player as the GraphQL API returns it.
pub struct Player(pub PlayerRecord);

/// A statistic row as the GraphQL API reads it.
pub struct StatModel {
    pub player_uuid: String,
    pub category: String,
    pub value_name: String,
    pub value: i64,
}

/// A statistic as the GraphQL API returns it.
pub struct Stat(pub StatModel);

/// The root of the GraphQL queries.
pub struct QueryRoot;

/// The root of the GraphQL mutations.
pub struct MutationRoot;

/// The lowercase form of a text, as `str::to_lowercase` gives it.
pub uninterp spec fn lowercase(s: Seq<char>) -> Seq<char>;

/// `str::to_lowercase`: the Unicode lowercase mapping of each character.
/// The contract names the result; it states nothing more of it.
#[verifier::external_body]
fn to_lowercase(s: &str) -> (r: String)
    ensures
        r@ == lowercase(s@),
{
    s.to_lowercase()
}

/// The direction for an order already in lowercase: ascending exactly when
/// it begins with `asc`.
pub fn direction_from_lowercase(lowered: &str) -> (d: SortDirection)
    ensures
        d == (if is_prefix_of("asc"@, lowered@) {
            SortDirection::Ascending
        } else {
            SortDirection::Descending
        }),
{
    if starts_with(lowered, "asc") {
        SortDirection::Ascending
    } else {
        SortDirection::Descending
    }
}

/// The direction the GraphQL resolvers sort by: ascending exactly when the
/// order, in lowercase, begins with `asc`.
pub open spec fn spec_graph_direction(order: Seq<char>) -> SortDirection {
    if is_prefix_of("asc"@, lowercase(order)) {
        SortDirection::Ascending
    } else {
        SortDirection::Descending
    }
}

/// The sort direction for an order given to a GraphQL resolver.
pub fn graph_sort_direction(order: &str) -> (d: SortDirection)
    ensures
        d == spec_graph_direction(order@),
{
    let lowered = to_lowercase(order);
    direction_from_lowercase(lowered.as_str())
}

/// The page size a resolver uses: 10 unless the filter names one.
pub open spec fn graph_limit(limit: Option<u64>) -> u64 {
    match limit {
        Some(l) => l,
        None => 10,
    }
}

/// The rows a resolver skips: the page number (0 unless named) times the page size.
pub open spec fn graph_offset(limit: Option<u64>, page: Option<u64>) -> int {
    match page {
        Some(p) => p * graph_limit(limit),
        None => 0,
    }
}

/// A resolver returns the page size its filter asks for, 10 when it names
/// none; pages count from 0, so page `p` starts `p` pages in, and no page
/// starts at the first row.
pub proof fn lemma_graph_window_follows_filter(l: u64, p: u64)
    ensures
        graph_limit(Some(l)) == l,
        graph_limit(None) == 10,
        graph_offset(Some(l), Some(p)) == p * l,
        graph_offset(None, Some(p)) == p * 10,
        graph_offset(Some(l), None) == 0,
        default_stat_filter(None).limit == Some(10u64) && default_stat_filter(None).page == Some(0u64),
        default_stats_filter(None).limit == Some(10u64) && default_stats_filter(None).page == Some(0u64),
{
}

pub open spec fn graph_offset_in_range(limit: Option<u64>, page: Option<u64>) -> bool {
    graph_offset(limit, page) <= u64::MAX
}

/// The filter a resolver uses when none is given.
pub open spec fn default_stat_filter(filter: Option<StatFilterInput>) -> StatFilterInput {
    match filter {
        Some(f) => f,
        None => StatFilterInput { category: None, limit: Some(10), page: Some(0), order: None },
    }
}

pub open spec fn default_stats_filter(filter: Option<StatsFilterInput>) -> StatsFilterInput {
    match filter {
        Some(f) => f,
        None => StatsFilterInput {
            item: None,
            category: None,
            player_uuid: None,
            limit: Some(10),
            page: Some(0),
            order: None,
        },
    }
}

/// The order a resolver uses: the filter's, else `default`.
pub open spec fn graph_order(order: Option<String>, default: Seq<char>) -> Seq<char> {
    match order {
        Some(o) => o@,
        None => default,
    }
}

/// The query selects exactly these rows, sorted and paged as given.
pub open spec fn graph_query_is(
    q: GraphStatsQuery,
    player_uuid: Option<Seq<char>>,
    value_name: Option<Seq<char>>,
    category: Option<Seq<char>>,
    order: Seq<char>,
    limit: Option<u64>,
    page: Option<u64>,
) -> bool {
    &&& opt_view(q.player_uuid) == player_uuid
    &&& opt_view(q.value_name) == value_name
    &&& opt_view(q.category) == category
    &&& q.direction == spec_graph_direction(order)
    &&& q.limit == graph_limit(limit)
    &&& q.offset == graph_offset(limit, page)
}

fn graph_window(limit: Option<u64>, page: Option<u64>) -> (r: (u64, u64))
    requires
        graph_offset_in_range(limit, page),
    ensures
        r.0 == graph_limit(limit),
        r.1 == graph_offset(limit, page),
{
    let limit = match limit {
        Some(l) => l,
        None => 10,
    };
    let offset = match page {
        Some(p) => p * limit,
        None => 0,
    };
    (limit, offset)
}

/// Whether the offset of a resolver's page fits in a `u64`.
pub fn graph_window_fits(limit: Option<u64>, page: Option<u64>) -> (r: bool)
    ensures
        r == graph_offset_in_range(limit, page),
{
    let limit = match limit {
        Some(l) => l,
        None => 10,
    };
    match page {
        Some(p) => p.checked_mul(limit).is_some(),
        None => true,
    }
}

fn order_direction(order: &Option<String>, default: &str) -> (d: SortDirection)
    ensures
        d == spec_graph_direction(graph_order(*order, default@)),
{
    match order {
        Some(o) => graph_sort_direction(o.as_str()),
        None => graph_sort_direction(default),
    }
}

/// The id of the first category with this name among `categories`, if one has it.
pub fn category_id_by_name(categories: &Vec<StatCategoryRecord>, name: &str) -> (r: Option<i32>)
    ensures
        match r {
            Some(id) => exists|i: int|
                0 <= i < categories.len() && categories@[i].name@ == name@ && categories@[i].id == id
                    && forall|j: int| 0 <= j < i ==> categories@[j].name@ != name@,
            None => forall|i: int| 0 <= i < categories.len() ==> categories@[i].name@ != name@,
        },
{
    let mut i: usize = 0;
    while i < categories.len()
        invariant
            i <= categories.len(),
            forall|j: int| 0 <= j < i ==> categories@[j].name@ != name@,
        decreases categories.len() - i,
    {
        if str_equal(categories[i].name.as_str(), name) {
            return Some(categories[i].id);
        }
        i = i + 1;
    }
    None
}

/// The name of the first category with this id among `categories`, or the
/// empty text when none has it.
pub fn category_name_by_id(categories: &Vec<StatCategoryRecord>, id: i32) -> (r: String)
    ensures
        (exists|i: int| 0 <= i < categories.len() && categories@[i].id == id) ==> exists|i: int|
            0 <= i < categories.len() && categories@[i].id == id && categories@[i].name@ == r@
                && forall|j: int| 0 <= j < i ==> categories@[j].id != id,
        (forall|i: int| 0 <= i < categories.len() ==> categories@[i].id != id) ==> r@ == Seq::<
            char,
        >::empty(),
{
    let mut i: usize = 0;
    while i < categories.len()
        invariant
            i <= categories.len(),
            forall|j: int| 0 <= j < i ==> categories@[j].id != id,
        decreases categories.len() - i,
    {
        if categories[i].id == id {
            return categories[i].name.clone();
        }
        i = i + 1;
    }
    String::new()
}

/// A statistic row as the GraphQL API reads it: the category is given by
/// name.
pub fn stat_model(row: PlayerStatRecord, category: String) -> (s: StatModel)
    ensures
        s.player_uuid == row.player_uuid,
        s.category == category,
        s.value_name == row.stat_name,
        s.value == row.value as i64,
{
    StatModel { player_uuid: row.player_uuid, category, value_name: row.stat_name, value: row.value as i64 }
}

impl QueryRoot {
    /// The query of the `player` resolver: the player's statistics,
    /// narrowed to the filter's category when it names one.
    pub fn player_query(&self, player_uuid: &str, filter: Option<StatFilterInput>) -> (q: GraphStatsQuery)
        requires
            graph_offset_in_range(default_stat_filter(filter).limit, default_stat_filter(filter).page),
        ensures
            ({
                let f = default_stat_filter(filter);
                graph_query_is(
                    q,
                    Some(player_uuid@),
                    None,
                    opt_view(f.category),
                    graph_order(f.order, "DESC"@),
                    f.limit,
                    f.page,
                )
            }),
    {
        let f = match filter {
            Some(f) => f,
            None => StatFilterInput { category: None, limit: Some(10), page: Some(0), order: None },
        };
        let (limit, offset) = graph_window(f.limit, f.page);
        GraphStatsQuery {
            player_uuid: Some(String::from_str(player_uuid)),
            value_name: None,
            category: clone_opt(&f.category),
            direction: order_direction(&f.order, "DESC"),
            limit,
            offset,
        }
    }

    /// The query of the `stats` resolver: all statistics, narrowed by the
    /// item, category and player the filter names.
    pub fn stats_query(&self, filter: Option<StatsFilterInput>) -> (q: GraphStatsQuery)
        requires
            graph_offset_in_range(default_stats_filter(filter).limit, default_stats_filter(filter).page),
        ensures
            ({
                let f = default_stats_filter(filter);
                graph_query_is(
                    q,
                    opt_view(f.player_uuid),
                    opt_view(f.item),
                    opt_view(f.category),
                    graph_order(f.order, "DESC"@),
                    f.limit,
                    f.page,
                )
            }),
    {
        let f = match filter {
            Some(f) => f,
            None => StatsFilterInput {
                item: None,
                category: None,
                player_uuid: None,
                limit: Some(10),
                page: Some(0),
                order: None,
            },
        };
        let (limit, offset) = graph_window(f.limit, f.page);
        GraphStatsQuery {
            player_uuid: clone_opt(&f.player_uuid),
            value_name: clone_opt(&f.item),
            category: clone_opt(&f.category),
            direction: order_direction(&f.order, "DESC"),
            limit,
            offset,
        }
    }

    /// The query of the `category` resolver: the statistics of the named
    /// category; the filter's own category is not used.
    pub fn category_query(&self, name: &str, filter: Option<StatFilterInput>) -> (q: GraphStatsQuery)
        requires
            graph_offset_in_range(default_stat_filter(filter).limit, default_stat_filter(filter).page),
        ensures
            ({
                let f = default_stat_filter(filter);
                graph_query_is(
                    q,
                    None,
                    None,
                    Some(name@),
                    graph_order(f.order, "dsc"@),
                    f.limit,
                    f.page,
                )
            }),
    {
        let f = match filter {
            Some(f) => f,
            None => StatFilterInput { category: None, limit: Some(10), page: Some(0), order: None },
        };
        let (limit, offset) = graph_window(f.limit, f.page);
        GraphStatsQuery {
            player_uuid: None,
            value_name: None,
            category: Some(String::from_str(name)),
            direction: order_direction(&f.order, "dsc"),
            limit,
            offset,
        }
    }
}

impl MutationRoot {
    /// The answer of the `_ping` mutation.
    pub fn ping(&self) -> (r: String)
        ensures
            r@ == "pong"@,
    {
        String::from_str("pong")
    }
}

impl Player {
    /// Wraps a player row.
    pub fn new(model: PlayerRecord) -> (p: Player)
        ensures
            p.0 == model,
    {
        Player(model)
    }

    pub fn player_uuid(&self) -> (r: &str)
        ensures
            r@ == self.0.player_uuid@,
    {
        self.0.player_uuid.as_str()
    }

    pub fn name(&self) -> (r: &str)
        ensures
            r@ == self.0.name@,
    {
        self.0.name.as_str()
    }
}

impl Stat {
    /// Wraps a statistic row.
    pub fn new(model: StatModel) -> (s: Stat)
        ensures
            s.0 == model,
    {
        Stat(model)
    }

    pub fn player_uuid(&self) -> (r: &str)
        ensures
            r@ == self.0.player_uuid@,
    {
        self.0.player_uuid.as_str()
    }

    pub fn category(&self) -> (r: &str)
        ensures
            r@ == self.0.category@,
    {
        self.0.category.as_str()
    }

    pub fn value_name(&self) -> (r: &str)
        ensures
            r@ == self.0.value_name@,
    {
        self.0.value_name.as_str()
    }

    pub fn value(&self) -> (r: i64)
        ensures
            r == self.0.value,
    {
        self.0.value
    }
}

} // verus!
