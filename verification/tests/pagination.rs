use minecraft_stats::pagination::{
    parse_order, parse_order_stats, parse_pagination, parse_pagination_stats, pagination_fits,
    pagination_stats_fits, sort_direction, SearchParams, SortDirection, StatsFilterParams,
};

fn search(limit: Option<u64>, page: Option<u64>, order: Option<&str>) -> SearchParams {
    SearchParams { limit, page, order: order.map(|o| o.to_string()) }
}

fn stats(limit: Option<u64>, page: Option<u64>, order: Option<&str>) -> StatsFilterParams {
    StatsFilterParams {
        limit,
        page,
        order: order.map(|o| o.to_string()),
        item: None,
        category: None,
        player_uuid: None,
    }
}

#[test]
fn defaults_give_first_page_of_twenty_five() {
    assert_eq!(parse_pagination(&search(None, None, None)), (25, 0));
    assert_eq!(parse_pagination_stats(&stats(None, None, None)), (25, 0));
}

#[test]
fn page_three_of_ten_skips_twenty() {
    assert_eq!(parse_pagination(&search(Some(10), Some(3), None)), (10, 20));
    assert_eq!(parse_pagination_stats(&stats(Some(10), Some(3), None)), (10, 20));
}

#[test]
fn page_zero_counts_as_first_page() {
    assert_eq!(parse_pagination(&search(Some(7), Some(0), None)), (7, 0));
    assert_eq!(parse_pagination(&search(Some(7), Some(1), None)), (7, 0));
}

#[test]
fn consecutive_pages_are_adjacent() {
    for page in 1..20u64 {
        let (limit, offset) = parse_pagination(&search(Some(13), Some(page), None));
        let (_, next) = parse_pagination(&search(Some(13), Some(page + 1), None));
        assert_eq!(next, offset + limit);
    }
}

#[test]
fn zero_limit_gives_zero_offset() {
    assert_eq!(parse_pagination(&search(Some(0), Some(9), None)), (0, 0));
}

#[test]
fn overflowing_offset_is_detected() {
    assert!(pagination_fits(&search(Some(u64::MAX), Some(2), None)));
    assert!(!pagination_fits(&search(Some(u64::MAX), Some(3), None)));
    assert!(pagination_fits(&search(Some(u64::MAX), None, None)));
    assert!(!pagination_stats_fits(&stats(Some(2), Some(u64::MAX), None)));
    assert!(pagination_stats_fits(&stats(None, Some(100), None)));
}

#[test]
fn order_defaults_to_desc() {
    assert_eq!(parse_order(&search(None, None, None)), "desc");
    assert_eq!(parse_order(&search(None, None, Some("asc"))), "asc");
    assert_eq!(parse_order_stats(&stats(None, None, None)), "desc");
    assert_eq!(parse_order_stats(&stats(None, None, Some("whatever"))), "whatever");
}

#[test]
fn only_exact_asc_sorts_ascending() {
    assert_eq!(sort_direction("asc"), SortDirection::Ascending);
    assert_eq!(sort_direction("desc"), SortDirection::Descending);
    assert_eq!(sort_direction("ASC"), SortDirection::Descending);
    assert_eq!(sort_direction("ascending"), SortDirection::Descending);
    assert_eq!(sort_direction(""), SortDirection::Descending);
}
