use minecraft_stats::graphql::{
    category_id_by_name, category_name_by_id, stat_model, direction_from_lowercase, graph_sort_direction, graph_window_fits, MutationRoot, Player, QueryRoot, Stat,
    StatFilterInput, StatModel, StatsFilterInput,
};
use minecraft_stats::models::{PlayerRecord, PlayerStatRecord, StatCategoryRecord};
use minecraft_stats::pagination::SortDirection;

#[test]
fn default_filter_is_first_ten_descending() {
    let q = QueryRoot.player_query("u1", None);
    assert_eq!(q.player_uuid.as_deref(), Some("u1"));
    assert_eq!(q.category, None);
    assert_eq!((q.limit, q.offset), (10, 0));
    assert_eq!(q.direction, SortDirection::Descending);
}

#[test]
fn pages_count_from_zero() {
    let f = StatFilterInput { category: Some("mined".to_string()), limit: Some(4), page: Some(3), order: Some("ASC".to_string()) };
    let q = QueryRoot.player_query("u1", Some(f));
    assert_eq!((q.limit, q.offset), (4, 12));
    assert_eq!(q.category.as_deref(), Some("mined"));
    assert_eq!(q.direction, SortDirection::Ascending);
    let f = StatFilterInput { category: None, limit: None, page: None, order: None };
    let q = QueryRoot.player_query("u1", Some(f));
    assert_eq!((q.limit, q.offset), (10, 0));
}

#[test]
fn ascending_is_any_case_prefix_asc() {
    assert_eq!(graph_sort_direction("ASC"), SortDirection::Ascending);
    assert_eq!(graph_sort_direction("Ascending"), SortDirection::Ascending);
    assert_eq!(graph_sort_direction("asc"), SortDirection::Ascending);
    assert_eq!(graph_sort_direction("DESC"), SortDirection::Descending);
    assert_eq!(graph_sort_direction("dsc"), SortDirection::Descending);
    assert_eq!(graph_sort_direction("as"), SortDirection::Descending);
    assert_eq!(direction_from_lowercase("ASC"), SortDirection::Descending);
    assert_eq!(direction_from_lowercase("ascending"), SortDirection::Ascending);
}

#[test]
fn stats_resolver_query() {
    let f = StatsFilterInput {
        item: Some("minecraft:stone".to_string()),
        category: Some("mined".to_string()),
        player_uuid: Some("u2".to_string()),
        limit: Some(3),
        page: Some(1),
        order: None,
    };
    let q = QueryRoot.stats_query(Some(f));
    assert_eq!(q.value_name.as_deref(), Some("minecraft:stone"));
    assert_eq!(q.category.as_deref(), Some("mined"));
    assert_eq!(q.player_uuid.as_deref(), Some("u2"));
    assert_eq!((q.limit, q.offset), (3, 3));
    assert_eq!(q.direction, SortDirection::Descending);
    let q = QueryRoot.stats_query(None);
    assert_eq!((q.value_name, q.category, q.player_uuid), (None, None, None));
}

#[test]
fn category_resolver_ignores_filter_category() {
    let f = StatFilterInput { category: Some("other".to_string()), limit: Some(2), page: Some(0), order: Some("asc".to_string()) };
    let q = QueryRoot.category_query("mined", Some(f));
    assert_eq!(q.category.as_deref(), Some("mined"));
    assert_eq!(q.player_uuid, None);
    assert_eq!(q.direction, SortDirection::Ascending);
    assert_eq!(QueryRoot.category_query("mined", None).direction, SortDirection::Descending);
}

#[test]
fn graph_offsets_that_overflow_are_detected() {
    assert!(graph_window_fits(Some(u64::MAX), Some(1)));
    assert!(!graph_window_fits(Some(u64::MAX), Some(2)));
    assert!(graph_window_fits(None, None));
}

#[test]
fn ping_answers_pong() {
    assert_eq!(MutationRoot.ping(), "pong");
}

#[test]
fn objects_expose_their_rows() {
    let p = Player::new(PlayerRecord { player_uuid: "u".to_string(), name: "Alex".to_string() });
    assert_eq!(p.player_uuid(), "u");
    assert_eq!(p.name(), "Alex");
    let s = Stat::new(StatModel {
        player_uuid: "u".to_string(),
        category: "mined".to_string(),
        value_name: "minecraft:stone".to_string(),
        value: 64,
    });
    assert_eq!(s.player_uuid(), "u");
    assert_eq!(s.category(), "mined");
    assert_eq!(s.value_name(), "minecraft:stone");
    assert_eq!(s.value(), 64);
}

#[test]
fn categories_are_found_by_name_and_id() {
    let cats = vec![
        StatCategoryRecord { id: 1, name: "minecraft:mined".to_string() },
        StatCategoryRecord { id: 4, name: "minecraft:used".to_string() },
    ];
    assert_eq!(category_id_by_name(&cats, "minecraft:used"), Some(4));
    assert_eq!(category_id_by_name(&cats, "minecraft:killed"), None);
    assert_eq!(category_name_by_id(&cats, 1), "minecraft:mined");
    assert_eq!(category_name_by_id(&cats, 9), "");
}

#[test]
fn stat_rows_become_graphql_stats() {
    let row = PlayerStatRecord {
        player_uuid: "u".to_string(),
        stat_categories_id: 1,
        stat_name: "minecraft:stone".to_string(),
        value: -5,
    };
    let m = stat_model(row, "minecraft:mined".to_string());
    assert_eq!(m.category, "minecraft:mined");
    assert_eq!(m.value_name, "minecraft:stone");
    assert_eq!(m.value, -5i64);
    assert_eq!(m.player_uuid, "u");
}
