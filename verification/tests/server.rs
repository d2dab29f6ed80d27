use minecraft_stats::server::{endpoint_outcome, events_to_sync, listing_outcome, read_outcome, should_sync, HandlerOutcome, WatchEvent};

#[test]
fn endpoint_statuses() {
    assert_eq!(endpoint_outcome(false, false), HandlerOutcome::NotFound);
    assert_eq!(endpoint_outcome(false, true), HandlerOutcome::NotFound);
    assert_eq!(endpoint_outcome(true, true), HandlerOutcome::Found);
    assert_eq!(endpoint_outcome(true, false), HandlerOutcome::Failed);
    assert_eq!(HandlerOutcome::Found.status_code(), 200);
    assert_eq!(HandlerOutcome::NotFound.status_code(), 404);
    assert_eq!(HandlerOutcome::Failed.status_code(), 500);
    assert_eq!(HandlerOutcome::Empty.status_code(), 200);
}

#[test]
fn endpoints_documented_with_200_and_500_never_answer_404() {
    assert_eq!(read_outcome(false, false), HandlerOutcome::Empty);
    assert_eq!(read_outcome(false, true), HandlerOutcome::Empty);
    assert_eq!(read_outcome(true, true), HandlerOutcome::Found);
    assert_eq!(read_outcome(true, false), HandlerOutcome::Failed);
    for formed in [false, true] {
        for read in [false, true] {
            let s = read_outcome(formed, read).status_code();
            assert!(s == 200 || s == 500);
        }
    }
}

#[test]
fn item_listing_always_answers_200() {
    assert_eq!(listing_outcome(true), HandlerOutcome::Found);
    assert_eq!(listing_outcome(false), HandlerOutcome::Empty);
    assert_eq!(listing_outcome(false).status_code(), 200);
}

fn event(settled: bool, name: Option<&str>) -> WatchEvent {
    WatchEvent { settled, file_name: name.map(|n| n.to_string()) }
}

#[test]
fn each_settled_json_change_is_synced_once_in_order() {
    let batch = vec![
        event(true, Some("a.json")),
        event(false, Some("b.json")),
        event(true, Some("c.txt")),
        event(true, None),
        event(true, Some("d.json")),
        event(true, Some("a.json")),
    ];
    assert_eq!(events_to_sync(&batch), vec![0, 4, 5]);
    assert!(events_to_sync(&Vec::new()).is_empty());
}

#[test]
fn watcher_syncs_settled_json_changes() {
    assert!(should_sync(true, Some("67e55044-10b1-426f-9247-bb680e5fe0c8.json")));
    assert!(!should_sync(false, Some("a.json")));
    assert!(!should_sync(true, Some("a.json.swp")));
    assert!(!should_sync(true, None));
}
