//! The decisions taken around each database operation: which failures are
//! tolerated, how a category id is found or created, and how a player row
//! is written.

use vstd::prelude::*;
use crate::text::contains;
use crate::text::contains_seq;
use crate::models::PlayerRecord;
use crate::player_id::{hyphenated, uuid_text};

verus! {

/// A database error reports a violated uniqueness constraint when its
/// message mentions `UNIQUE`.
pub open spec fn spec_is_unique_violation(message: Seq<char>) -> bool {
    contains_seq(message, "UNIQUE"@)
}

/// Whether a database error message reports a violated uniqueness constraint.
pub fn is_unique_violation(message: &str) -> (r: bool)
    ensures
        r == spec_is_unique_violation(message@),
{
    contains(message, "UNIQUE")
}

/// How an insertion ended.
#[derive(Clone, Copy, Debug, PartialEq, Eq, Structural)]
pub enum InsertOutcome {
    /// The row was written.
    Inserted,
    /// An equal row was already stored; the insertion counts as done.
    AlreadyPresent,
    /// The insertion failed; the error is passed on.
    Failed,
}

pub open spec fn spec_insert_outcome(error: Option<Seq<char>>) -> InsertOutcome {
    match error {
        None => InsertOutcome::Inserted,
        Some(m) => if spec_is_unique_violation(m) {
            InsertOutcome::AlreadyPresent
        } else {
            InsertOutcome::Failed
        },
    }
}

/// Classifies an insertion by the message of its error (`None` when it succeeded).
pub fn insert_outcome(error: Option<&str>) -> (r: InsertOutcome)
    ensures
        r == spec_insert_outcome(
            match error {
                Some(m) => Some(m@),
                None => None,
            },
        ),
{
    match error {
        None => InsertOutcome::Inserted,
        Some(m) => if is_unique_violation(m) {
            InsertOutcome::AlreadyPresent
        } else {
            InsertOutcome::Failed
        },
    }
}

/// Why no category id could be obtained.
#[derive(Clone, Copy, Debug, PartialEq, Eq, Structural)]
pub enum CategoryFailure {
    /// A database operation failed; its error is passed on.
    Database,
    /// The insertion conflicted with an existing row, which the lookup that
    /// followed did not find.
    MissingAfterConflict,
}

/// The next step in obtaining the id of a category by name.
#[derive(Clone, Copy, Debug, PartialEq, Eq, Structural)]
pub enum CategoryAction {
    /// Look the category up by name.
    LookUp,
    /// Insert a category of that name.
    Insert,
    /// Look the category up again after a conflicting insertion.
    LookUpAgain,
    /// Finished with the category's id.
    Return(i32),
    /// Finished without an id.
    Fail(CategoryFailure),
}

/// What the database answered to the last step.
#[derive(Clone, Copy, Debug, PartialEq, Eq, Structural)]
pub enum CategoryEvent {
    /// A lookup finished; it found the category with this id, or none.
    Found(Option<i32>),
    /// The insertion stored the category under this id.
    Inserted(i32),
    /// The insertion was refused; `unique_violation` tells whether the
    /// database reported a uniqueness conflict.
    InsertRejected { unique_violation: bool },
    /// The operation failed.
    Failed,
}

/// Steps taken so far: each step moves strictly forward.
pub open spec fn category_rank(a: CategoryAction) -> int {
    match a {
        CategoryAction::LookUp => 0,
        CategoryAction::Insert => 1,
        CategoryAction::LookUpAgain => 2,
        CategoryAction::Return(_) => 3,
        CategoryAction::Fail(_) => 3,
    }
}

/// The event answers the step that was taken.
pub open spec fn category_event_fits(step: CategoryAction, event: CategoryEvent) -> bool {
    match step {
        CategoryAction::LookUp | CategoryAction::LookUpAgain => event is Found || event is Failed,
        CategoryAction::Insert => event is Inserted || event is InsertRejected || event is Failed,
        CategoryAction::Return(_) | CategoryAction::Fail(_) => false,
    }
}

/// The step that follows `step` when the database answered `event`.
pub open spec fn spec_next_category_action(step: CategoryAction, event: CategoryEvent) -> CategoryAction {
    match (step, event) {
        (_, CategoryEvent::Failed) => CategoryAction::Fail(CategoryFailure::Database),
        (CategoryAction::LookUp, CategoryEvent::Found(Some(id))) => CategoryAction::Return(id),
        (CategoryAction::LookUp, CategoryEvent::Found(None)) => CategoryAction::Insert,
        (CategoryAction::Insert, CategoryEvent::Inserted(id)) => CategoryAction::Return(id),
        (CategoryAction::Insert, CategoryEvent::InsertRejected { unique_violation }) =>
            if unique_violation {
                CategoryAction::LookUpAgain
            } else {
                CategoryAction::Fail(CategoryFailure::Database)
            },
        (CategoryAction::LookUpAgain, CategoryEvent::Found(Some(id))) => CategoryAction::Return(id),
        (CategoryAction::LookUpAgain, CategoryEvent::Found(None)) => CategoryAction::Fail(CategoryFailure::MissingAfterConflict),
        _ => CategoryAction::Fail(CategoryFailure::Database),
    }
}

/// Obtaining a category id takes at most three database operations: every
/// step has a rank from 0 to 3, each answer moves to a step of higher rank
/// (see `next_category_action`), and only the final steps have rank 3.
pub proof fn lemma_category_steps_bounded(a: CategoryAction)
    ensures
        0 <= category_rank(a) <= 3,
        category_rank(a) == 3 <==> (a is Return || a is Fail),
{
}

/// The first step in obtaining a category id: look it up by name.
pub fn first_category_action() -> (r: CategoryAction)
    ensures
        r == CategoryAction::LookUp,
{
    CategoryAction::LookUp
}

/// The step that follows `step` when the database answered `event`. An
/// existing category is returned without inserting; an insertion happens
/// only after a lookup found nothing; a conflicting insertion is followed
/// by one more lookup; any failed operation ends the attempt. Every step
/// moves forward, so at most three database operations are made, and an
/// id returned is one the database reported.
pub fn next_category_action(step: CategoryAction, event: CategoryEvent) -> (r: CategoryAction)
    requires
        category_event_fits(step, event),
    ensures
        r == spec_next_category_action(step, event),
        category_rank(r) > category_rank(step),
        r matches CategoryAction::Return(id) ==> event == CategoryEvent::Found(Some(id))
            || event == CategoryEvent::Inserted(id),
        r is Insert ==> step is LookUp && event == CategoryEvent::Found(None),
{
    match (step, event) {
        (_, CategoryEvent::Failed) => CategoryAction::Fail(CategoryFailure::Database),
        (CategoryAction::LookUp, CategoryEvent::Found(Some(id))) => CategoryAction::Return(id),
        (CategoryAction::LookUp, CategoryEvent::Found(None)) => CategoryAction::Insert,
        (CategoryAction::Insert, CategoryEvent::Inserted(id)) => CategoryAction::Return(id),
        (CategoryAction::Insert, CategoryEvent::InsertRejected { unique_violation }) => {
            if unique_violation {
                CategoryAction::LookUpAgain
            } else {
                CategoryAction::Fail(CategoryFailure::Database)
            }
        },
        (CategoryAction::LookUpAgain, CategoryEvent::Found(Some(id))) => CategoryAction::Return(id),
        (CategoryAction::LookUpAgain, CategoryEvent::Found(None)) => CategoryAction::Fail(CategoryFailure::MissingAfterConflict),
        _ => CategoryAction::Fail(CategoryFailure::Database),
    }
}

/// How a player's row is written.
#[derive(Debug)]
pub enum PlayerWrite {
    /// Replace the stored row with this one.
    Update(PlayerRecord),
    /// Insert this row.
    Create(PlayerRecord),
}

/// A stored player row with the name of `new`.
pub fn update_player(existing: PlayerRecord, new: &PlayerRecord) -> (r: PlayerRecord)
    ensures
        r.player_uuid == existing.player_uuid,
        r.name == new.name,
{
    PlayerRecord { player_uuid: existing.player_uuid, name: new.name.clone() }
}

pub open spec fn spec_insert_player(existing: Option<PlayerRecord>, player: PlayerRecord) -> PlayerWrite {
    match existing {
        Some(e) => PlayerWrite::Update(PlayerRecord { player_uuid: e.player_uuid, name: player.name }),
        None => PlayerWrite::Create(player),
    }
}

/// How to store `player`, given the row stored under its UUID, if any: an
/// existing row takes the new name, otherwise the player is inserted.
pub fn insert_player(existing: Option<PlayerRecord>, player: &PlayerRecord) -> (r: PlayerWrite)
    ensures
        r == spec_insert_player(existing, *player),
{
    match existing {
        Some(e) => PlayerWrite::Update(update_player(e, player)),
        None => PlayerWrite::Create(
            PlayerRecord { player_uuid: player.player_uuid.clone(), name: player.name.clone() },
        ),
    }
}

/// The row that a write stores.
pub open spec fn written_row(w: PlayerWrite) -> PlayerRecord {
    match w {
        PlayerWrite::Update(r) => r,
        PlayerWrite::Create(r) => r,
    }
}

/// Storing a player leaves exactly that player's UUID and name in its row,
/// whether a row was already stored under the UUID or not.
pub proof fn lemma_insert_player_stores_player(
    existing: Option<PlayerRecord>,
    player: PlayerRecord,
    w: PlayerWrite,
)
    requires
        existing matches Some(e) ==> e.player_uuid@ == player.player_uuid@,
        w == spec_insert_player(existing, player),
    ensures
        written_row(w).player_uuid@ == player.player_uuid@,
        written_row(w).name@ == player.name@,
{
}

/// The row of a player read from a stats file: its UUID as hyphenated text
/// and the name found for it, or `Unknown`.
pub fn player_record(uuid: u128, name: Option<String>) -> (r: PlayerRecord)
    ensures
        r.player_uuid@ == hyphenated(uuid),
        r.name@ == match name {
            Some(n) => n@,
            None => "Unknown"@,
        },
{
    let name = match name {
        Some(n) => n,
        None => String::from_str("Unknown"),
    };
    PlayerRecord { player_uuid: uuid_text(uuid), name }
}

} // verus!
