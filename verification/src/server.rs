//! Decisions of the HTTP endpoints and of the folder watcher.

use vstd::prelude::*;
use crate::paths::{is_stats_file, spec_is_stats_file};

verus! {

/// The OpenAPI description of the HTTP endpoints.
pub struct ApiDoc;

/// How an endpoint answers.
#[derive(Clone, Copy, Debug, PartialEq, Eq, Structural)]
pub enum HandlerOutcome {
    /// Status 200; the rows read are the body.
    Found,
    /// Status 200 with an empty list: the query selects no rows, or reading
    /// failed on an endpoint whose only documented answer is 200.
    Empty,
    /// Status 404 with an empty list: a category that the request names
    /// does not exist.
    NotFound,
    /// Status 500 with an empty list: reading the rows failed.
    Failed,
}

pub open spec fn spec_status_code(outcome: HandlerOutcome) -> u16 {
    match outcome {
        HandlerOutcome::Found => 200,
        HandlerOutcome::Empty => 200,
        HandlerOutcome::NotFound => 404,
        HandlerOutcome::Failed => 500,
    }
}

impl HandlerOutcome {
    /// The HTTP status of the answer.
    pub fn status_code(&self) -> (r: u16)
        ensures
            r == spec_status_code(*self),
    {
        match self {
            HandlerOutcome::Found => 200,
            HandlerOutcome::Empty => 200,
            HandlerOutcome::NotFound => 404,
            HandlerOutcome::Failed => 500,
        }
    }
}

/// How an endpoint documented with 200, 404 and 500 answers (the statistics
/// of a category or of an item), given whether the query could be formed
/// (a category the request names exists) and, if it ran, whether it
/// succeeded.
pub open spec fn spec_outcome(query_formed: bool, rows_read: bool) -> HandlerOutcome {
    if !query_formed {
        HandlerOutcome::NotFound
    } else if rows_read {
        HandlerOutcome::Found
    } else {
        HandlerOutcome::Failed
    }
}

/// How an endpoint documented with 200, 404 and 500 answers.
pub fn endpoint_outcome(query_formed: bool, rows_read: bool) -> (r: HandlerOutcome)
    ensures
        r == spec_outcome(query_formed, rows_read),
        spec_status_code(r) == 200 || spec_status_code(r) == 404 || spec_status_code(r) == 500,
{
    if !query_formed {
        HandlerOutcome::NotFound
    } else if rows_read {
        HandlerOutcome::Found
    } else {
        HandlerOutcome::Failed
    }
}

/// How an endpoint documented with 200 and 500 answers (the lists of
/// categories and players, a player's statistics, the statistics search):
/// a query that selects no rows gives an empty list, a failed read gives 500.
pub open spec fn spec_read_outcome(query_formed: bool, rows_read: bool) -> HandlerOutcome {
    if !query_formed {
        HandlerOutcome::Empty
    } else if rows_read {
        HandlerOutcome::Found
    } else {
        HandlerOutcome::Failed
    }
}

/// How an endpoint documented with 200 and 500 answers; it never answers 404.
pub fn read_outcome(query_formed: bool, rows_read: bool) -> (r: HandlerOutcome)
    ensures
        r == spec_read_outcome(query_formed, rows_read),
        spec_status_code(r) == 200 || spec_status_code(r) == 500,
{
    if !query_formed {
        HandlerOutcome::Empty
    } else if rows_read {
        HandlerOutcome::Found
    } else {
        HandlerOutcome::Failed
    }
}

/// How an endpoint documented with 200 only answers (the list of items):
/// the rows read, or an empty list when reading failed; always 200.
pub fn listing_outcome(rows_read: bool) -> (r: HandlerOutcome)
    ensures
        r == (if rows_read { HandlerOutcome::Found } else { HandlerOutcome::Empty }),
        spec_status_code(r) == 200,
{
    if rows_read {
        HandlerOutcome::Found
    } else {
        HandlerOutcome::Empty
    }
}

/// The watcher resynchronises a file when a settled change was reported
/// for it and the file is a statistics file.
pub open spec fn spec_should_sync(settled: bool, file_name: Option<Seq<char>>) -> bool {
    settled && match file_name {
        Some(n) => spec_is_stats_file(n),
        None => false,
    }
}

/// Whether a change reported by the folder watcher is resynchronised;
/// `settled` tells whether the debouncer reported the change as settled,
/// `file_name` is the changed path's file name, if it has one.
pub fn should_sync(settled: bool, file_name: Option<&str>) -> (r: bool)
    ensures
        r == spec_should_sync(
            settled,
            match file_name {
                Some(n) => Some(n@),
                None => None,
            },
        ),
{
    if !settled {
        return false;
    }
    match file_name {
        Some(n) => is_stats_file(n),
        None => false,
    }
}

/// A change the folder watcher reported.
pub struct WatchEvent {
    /// The debouncer reported the change as settled.
    pub settled: bool,
    /// The file name of the changed path, if it has one.
    pub file_name: Option<String>,
}

pub open spec fn event_syncs(e: WatchEvent) -> bool {
    spec_should_sync(
        e.settled,
        match e.file_name {
            Some(n) => Some(n@),
            None => None,
        },
    )
}

/// The positions, in order, of the first `n` events that are resynchronised.
pub open spec fn sync_positions(events: Seq<WatchEvent>, n: int) -> Seq<int>
    decreases n,
{
    if n <= 0 {
        Seq::empty()
    } else {
        let r = sync_positions(events, n - 1);
        if event_syncs(events[n - 1]) {
            r.push(n - 1)
        } else {
            r
        }
    }
}

/// Every reported change is resynchronised at most once, in the order
/// reported, and exactly when it is a settled change of a statistics file:
/// the positions are increasing, and a position is listed if and only if
/// its event is resynchronised.
pub proof fn lemma_sync_positions_once_in_order(events: Seq<WatchEvent>, n: int)
    requires
        0 <= n <= events.len(),
    ensures
        forall|a: int, b: int|
            0 <= a < b < sync_positions(events, n).len() ==> #[trigger] sync_positions(events, n)[a]
                < #[trigger] sync_positions(events, n)[b],
        forall|a: int|
            0 <= a < sync_positions(events, n).len() ==> 0 <= #[trigger] sync_positions(events, n)[a] < n,
        forall|i: int|
            0 <= i < n ==> (sync_positions(events, n).contains(i) <==> event_syncs(#[trigger] events[i])),
    decreases n,
{
    if n > 0 {
        lemma_sync_positions_once_in_order(events, n - 1);
        let r = sync_positions(events, n - 1);
        if event_syncs(events[n - 1]) {
            let s = r.push(n - 1);
            assert forall|i: int| 0 <= i < n implies (s.contains(i) <==> event_syncs(events[i])) by {
                if i < n - 1 {
                    if s.contains(i) {
                        let k = choose|k: int| 0 <= k < s.len() && s[k] == i;
                        assert(k < r.len());
                        assert(r[k] == i);
                    }
                    if r.contains(i) {
                        let k = choose|k: int| 0 <= k < r.len() && r[k] == i;
                        assert(s[k] == i);
                    }
                } else {
                    assert(s[r.len() as int] == n - 1);
                }
            }
        } else {
            assert forall|i: int| 0 <= i < n implies (r.contains(i) <==> event_syncs(events[i])) by {
                if i == n - 1 && r.contains(i) {
                    let k = choose|k: int| 0 <= k < r.len() && r[k] == i;
                }
            }
        }
    }
}

/// The positions, in the order reported, of the changes in a batch that
/// the watcher resynchronises.
pub fn events_to_sync(events: &Vec<WatchEvent>) -> (r: Vec<usize>)
    ensures
        r@.map_values(|i: usize| i as int) == sync_positions(events@, events@.len() as int),
{
    let mut r: Vec<usize> = Vec::new();
    let mut i: usize = 0;
    while i < events.len()
        invariant
            i <= events.len(),
            r@.map_values(|k: usize| k as int) == sync_positions(events@, i as int),
        decreases events.len() - i,
    {
        let e = &events[i];
        let sync = match &e.file_name {
            Some(n) => should_sync(e.settled, Some(n.as_str())),
            None => should_sync(e.settled, None),
        };
        let ghost before = r@.map_values(|k: usize| k as int);
        if sync {
            r.push(i);
            assert(r@.map_values(|k: usize| k as int) =~= before.push(i as int));
        }
        i = i + 1;
    }
    r
}

} // verus!
