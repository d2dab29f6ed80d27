use minecraft_stats::db_ops::{
    first_category_action, insert_outcome, insert_player, is_unique_violation, next_category_action,
    player_record, update_player, CategoryAction, CategoryEvent, CategoryFailure, InsertOutcome, PlayerWrite,
};
use minecraft_stats::models::PlayerRecord;

#[test]
fn unique_violations_are_recognised() {
    assert!(is_unique_violation("UNIQUE constraint failed: stat_categories.name"));
    assert!(is_unique_violation("error returned from database: UNIQUE"));
    assert!(!is_unique_violation("unique constraint failed"));
    assert!(!is_unique_violation("database is locked"));
    assert!(!is_unique_violation(""));
}

#[test]
fn insert_outcomes() {
    assert_eq!(insert_outcome(None), InsertOutcome::Inserted);
    assert_eq!(insert_outcome(Some("UNIQUE constraint failed")), InsertOutcome::AlreadyPresent);
    assert_eq!(insert_outcome(Some("disk I/O error")), InsertOutcome::Failed);
}

#[test]
fn existing_category_is_returned_without_insert() {
    let a = first_category_action();
    assert_eq!(a, CategoryAction::LookUp);
    assert_eq!(next_category_action(a, CategoryEvent::Found(Some(7))), CategoryAction::Return(7));
}

#[test]
fn missing_category_is_inserted() {
    let a = next_category_action(CategoryAction::LookUp, CategoryEvent::Found(None));
    assert_eq!(a, CategoryAction::Insert);
    assert_eq!(next_category_action(a, CategoryEvent::Inserted(12)), CategoryAction::Return(12));
}

#[test]
fn conflicting_insert_is_followed_by_a_second_lookup() {
    let a = next_category_action(CategoryAction::Insert, CategoryEvent::InsertRejected { unique_violation: true });
    assert_eq!(a, CategoryAction::LookUpAgain);
    assert_eq!(next_category_action(a, CategoryEvent::Found(Some(3))), CategoryAction::Return(3));
    assert_eq!(
        next_category_action(a, CategoryEvent::Found(None)),
        CategoryAction::Fail(CategoryFailure::MissingAfterConflict)
    );
}

#[test]
fn failures_end_the_attempt() {
    assert_eq!(
        next_category_action(CategoryAction::Insert, CategoryEvent::InsertRejected { unique_violation: false }),
        CategoryAction::Fail(CategoryFailure::Database)
    );
    for a in [CategoryAction::LookUp, CategoryAction::Insert, CategoryAction::LookUpAgain] {
        assert_eq!(next_category_action(a, CategoryEvent::Failed), CategoryAction::Fail(CategoryFailure::Database));
    }
}

#[test]
fn category_resolution_takes_at_most_three_steps() {
    let mut a = first_category_action();
    let answers = [
        CategoryEvent::Found(None),
        CategoryEvent::InsertRejected { unique_violation: true },
        CategoryEvent::Found(Some(1)),
    ];
    let mut steps = 0;
    for e in answers {
        a = next_category_action(a, e);
        steps += 1;
        if matches!(a, CategoryAction::Return(_) | CategoryAction::Fail(_)) {
            break;
        }
    }
    assert_eq!(steps, 3);
    assert_eq!(a, CategoryAction::Return(1));
}

fn player(uuid: &str, name: &str) -> PlayerRecord {
    PlayerRecord { player_uuid: uuid.to_string(), name: name.to_string() }
}

#[test]
fn stored_player_gets_the_new_name() {
    let existing = player("u1", "Old");
    let new = player("u1", "New");
    match insert_player(Some(existing), &new) {
        PlayerWrite::Update(r) => {
            assert_eq!(r.player_uuid, "u1");
            assert_eq!(r.name, "New");
        }
        PlayerWrite::Create(_) => panic!("expected an update"),
    }
    let updated = update_player(player("u2", "A"), &player("other", "B"));
    assert_eq!(updated.player_uuid, "u2");
    assert_eq!(updated.name, "B");
}

#[test]
fn unknown_player_is_created() {
    match insert_player(None, &player("u9", "Steve")) {
        PlayerWrite::Create(r) => {
            assert_eq!(r.player_uuid, "u9");
            assert_eq!(r.name, "Steve");
        }
        PlayerWrite::Update(_) => panic!("expected a creation"),
    }
}

#[test]
fn player_rows_from_stats_files() {
    let r = player_record(0x67e5504410b1426f9247bb680e5fe0c8, Some("Alex".to_string()));
    assert_eq!(r.player_uuid, "67e55044-10b1-426f-9247-bb680e5fe0c8");
    assert_eq!(r.name, "Alex");
    let r = player_record(1, None);
    assert_eq!(r.player_uuid, "00000000-0000-0000-0000-000000000001");
    assert_eq!(r.name, "Unknown");
}
