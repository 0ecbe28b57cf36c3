//! Which sandboxes may be paused, evicted or cleaned up.
//!
//! Each function takes rows of sessions, their executions and events, and finds the
//! sessions that qualify.
use crate::error::{parse_persisted, SessionStoreError};
use crate::execution::{any_counts, finished, is_finished, latest_execution, latest_position};
use crate::json::{as_unsigned, get_member, json_member, json_unsigned};
use crate::listing::{first_of, gather, gathered, is_list};
use crate::model::{ThreadKey, Timestamp};
use crate::ordering::{in_order, is_ordered, law_order_is_by_time, order_by_time, present};
use crate::rows::{SessionExecutionRow, SessionRow};
use crate::text::{holds, opt_text_is, same_text};
use crate::time::{span, Nanoseconds, MILLISECOND};
use serde_json::Value;
use vstd::prelude::*;

verus! {

/// A session whose sandbox has been idle for its timeout.
#[derive(Clone, Debug, PartialEq, Eq)]
pub struct IdleSandboxCandidate {
    pub thread_key: ThreadKey,
    pub sandbox_id: String,
    pub resource_uid: Option<String>,
    pub assignment_epoch: Option<String>,
    pub execution_id: String,
    pub idle_timeout: Nanoseconds,
}

/// A session whose sandbox may give way to another.
#[derive(Clone, Debug, PartialEq, Eq)]
pub struct SandboxCapacityCandidate {
    pub thread_key: ThreadKey,
    pub sandbox_id: String,
    pub resource_uid: Option<String>,
    pub assignment_epoch: Option<String>,
    pub latest_execution_id: Option<String>,
    pub last_active_at: Timestamp,
}

/// A sandbox of a session that a workflow run owns.
#[derive(Clone, Debug, PartialEq, Eq)]
pub struct WorkflowOwnedSandbox {
    pub thread_key: ThreadKey,
    pub sandbox_id: String,
    pub resource_uid: Option<String>,
    pub assignment_epoch: Option<String>,
}

/// A session with a sandbox whose latest execution has ended.
#[derive(Debug)]
pub struct IdleSandboxCandidateRow {
    pub thread_key: Result<ThreadKey, String>,
    pub sandbox_id: String,
    pub resource_uid: Option<String>,
    pub assignment_epoch: Option<String>,
    pub execution_id: String,
    pub completed_at: Timestamp,
    pub metadata: Value,
}

/// A session with a sandbox that may give way, and when the sandbox was last active.
#[derive(Debug)]
pub struct SandboxCapacityCandidateRow {
    pub thread_key: Result<ThreadKey, String>,
    pub sandbox_id: String,
    pub resource_uid: Option<String>,
    pub assignment_epoch: Option<String>,
    pub latest_execution_id: Option<String>,
    pub last_active_at: Timestamp,
}

/// A session row, with what the parser said of its key.
#[derive(Debug)]
pub struct ObservedSession {
    pub row: SessionRow,
    pub thread_key: Result<ThreadKey, String>,
}

/// An event, with the sandbox that its payload names.
#[derive(Debug)]
pub struct SandboxEventRow {
    pub event_id: i64,
    pub thread_key: String,
    pub event_type: String,
    pub sandbox_id: Option<String>,
    pub created_at: Timestamp,
}

/// What is seen of a session and the workflow run named in its metadata.
#[derive(Debug)]
pub struct WorkflowObservation {
    pub thread_key: Result<ThreadKey, String>,
    pub sandbox_id: Option<String>,
    pub resource_uid: Option<String>,
    pub assignment_epoch: Option<String>,
    pub workflow_owned_thread: Option<String>,
    pub workflow_run_id: Option<String>,
}

// ---------------------------------------------------------------------------
// Idle sandboxes
// ---------------------------------------------------------------------------

/// The timeout that an execution's metadata asks for in milliseconds, if it is a
/// positive integer; else the backstop, but at least a millisecond.
pub open spec fn idle_timeout_of(metadata: Value, idle_backstop: Nanoseconds) -> Nanoseconds {
    match json_member(metadata, "idle_timeout_ms"@) {
        Some(value) if (json_unsigned(value) matches Some(n) && n > 0) => (json_unsigned(value)->0
            * MILLISECOND) as u128,
        _ => if idle_backstop >= MILLISECOND {
            idle_backstop
        } else {
            MILLISECOND
        },
    }
}

/// Computes the timeout of an execution.
pub fn effective_idle_timeout(metadata: &Value, idle_backstop: Nanoseconds) -> (timeout: Nanoseconds)
    ensures
        timeout == idle_timeout_of(*metadata, idle_backstop),
{
    if let Some(value) = get_member(metadata, "idle_timeout_ms") {
        if let Some(n) = as_unsigned(value) {
            if n > 0 {
                return (n as u128) * MILLISECOND;
            }
        }
    }
    if idle_backstop >= MILLISECOND {
        idle_backstop
    } else {
        MILLISECOND
    }
}

/// The timeout has run out since the execution ended; an end in the future has not
/// come yet.
pub open spec fn deadline_elapsed(
    completed_at: Timestamp,
    idle_timeout: Nanoseconds,
    now: Timestamp,
) -> bool {
    now >= completed_at && now - completed_at >= idle_timeout
}

/// Whether the timeout has run out since the execution ended.
pub fn idle_deadline_elapsed(
    completed_at: Timestamp,
    idle_timeout: Nanoseconds,
    now: Timestamp,
) -> (elapsed: bool)
    ensures
        elapsed == deadline_elapsed(completed_at, idle_timeout, now),
{
    now >= completed_at && span(completed_at, now) >= idle_timeout
}

/// What a row comes to: nothing before its timeout; after it the candidate, or the
/// refusal of its key.
pub open spec fn idle_candidate_read(
    row: IdleSandboxCandidateRow,
    idle_backstop: Nanoseconds,
    now: Timestamp,
) -> Result<Option<IdleSandboxCandidate>, SessionStoreError> {
    let idle_timeout = idle_timeout_of(row.metadata, idle_backstop);
    if !deadline_elapsed(row.completed_at, idle_timeout, now) {
        Ok(None)
    } else {
        match row.thread_key {
            Err(words) => Err(SessionStoreError::InvalidPersistedValue(words)),
            Ok(thread_key) => Ok(
                Some(
                    IdleSandboxCandidate {
                        thread_key,
                        sandbox_id: row.sandbox_id,
                        resource_uid: row.resource_uid,
                        assignment_epoch: row.assignment_epoch,
                        execution_id: row.execution_id,
                        idle_timeout,
                    },
                ),
            ),
        }
    }
}

/// Decides whether a row's sandbox has been idle for its timeout.
pub fn idle_candidate_from_row(
    row: IdleSandboxCandidateRow,
    idle_backstop: Nanoseconds,
    now: Timestamp,
) -> (candidate: Result<Option<IdleSandboxCandidate>, SessionStoreError>)
    ensures
        candidate == idle_candidate_read(row, idle_backstop, now),
{
    let idle_timeout = effective_idle_timeout(&row.metadata, idle_backstop);
    if !idle_deadline_elapsed(row.completed_at, idle_timeout, now) {
        return Ok(None);
    }
    match parse_persisted(row.thread_key) {
        Err(error) => Err(error),
        Ok(thread_key) => Ok(
            Some(
                IdleSandboxCandidate {
                    thread_key,
                    sandbox_id: row.sandbox_id,
                    resource_uid: row.resource_uid,
                    assignment_epoch: row.assignment_epoch,
                    execution_id: row.execution_id,
                    idle_timeout,
                },
            ),
        ),
    }
}

/// The row of a session that has a sandbox, whose latest execution has ended, and
/// which has no active one; with the time of that end.
pub open spec fn idle_row_of(
    seen: ObservedSession,
    executions: Seq<SessionExecutionRow>,
) -> Option<(Timestamp, IdleSandboxCandidateRow)> {
    let thread = seen.row.thread_key@;
    match (seen.row.sandbox.sandbox_id, latest_execution(executions, thread, false)) {
        (Some(sandbox_id), Some(latest)) => match latest.completed_at {
            Some(completed_at) if finished(latest.status@) && !any_counts(
                executions,
                thread,
                true,
            ) => Some(
                (
                    completed_at,
                    IdleSandboxCandidateRow {
                        thread_key: seen.thread_key,
                        sandbox_id,
                        resource_uid: seen.row.sandbox.resource_uid,
                        assignment_epoch: seen.row.sandbox.assignment_epoch,
                        execution_id: latest.execution_id,
                        completed_at,
                        metadata: latest.metadata,
                    },
                ),
            ),
            _ => None,
        },
        _ => None,
    }
}

/// The rows of the sessions that are idle, the longest idle first.
pub open spec fn idle_rows(
    seen: Seq<ObservedSession>,
    executions: Seq<SessionExecutionRow>,
) -> Seq<(Timestamp, IdleSandboxCandidateRow)> {
    in_order(present(seen.map_values(|s: ObservedSession| idle_row_of(s, executions))))
}

fn idle_row(seen: ObservedSession, executions: &Vec<SessionExecutionRow>) -> (row: Option<
    (Timestamp, IdleSandboxCandidateRow),
>)
    ensures
        row == idle_row_of(seen, executions@),
{
    let thread = seen.row.thread_key.as_str();
    let k: usize = match latest_position(executions, thread, false) {
        None => return None,
        Some(k) => k,
    };
    let latest = &executions[k];
    if !is_finished(latest.status.as_str()) || latest_position(executions, thread, true).is_some() {
        return None;
    }
    match (seen.row.sandbox.sandbox_id, latest.completed_at) {
        (Some(sandbox_id), Some(completed_at)) => Some(
            (
                completed_at,
                IdleSandboxCandidateRow {
                    thread_key: seen.thread_key,
                    sandbox_id,
                    resource_uid: seen.row.sandbox.resource_uid,
                    assignment_epoch: seen.row.sandbox.assignment_epoch,
                    execution_id: latest.execution_id.clone(),
                    completed_at,
                    metadata: latest.metadata.clone(),
                },
            ),
        ),
        _ => None,
    }
}

/// Finds the sessions whose sandbox has been idle for its timeout, the longest idle
/// first and those of one time in the order given; the first refused key among them
/// refuses the listing. `executions` are those of the sessions.
pub fn list_idle_sandbox_candidates(
    seen: Vec<ObservedSession>,
    executions: &Vec<SessionExecutionRow>,
    idle_backstop: Nanoseconds,
    now: Timestamp,
) -> (candidates: Result<Vec<IdleSandboxCandidate>, SessionStoreError>)
    ensures
        is_list(
            candidates,
            gathered(
                idle_rows(seen@, executions@).map_values(
                    |r: (Timestamp, IdleSandboxCandidateRow)|
                        idle_candidate_read(r.1, idle_backstop, now),
                ),
            ),
        ),
{
    let ghost find = |s: ObservedSession| idle_row_of(s, executions@);
    let ghost all = seen@;
    let mut rows: Vec<(Timestamp, IdleSandboxCandidateRow)> = Vec::new();
    for one in iter: seen
        invariant
            all == seen@,
            iter.seq() == all,
            find == (|s: ObservedSession| idle_row_of(s, executions@)),
            rows@ == present(all.take(iter.index()).map_values(find)),
    {
        proof {
            let n = iter.index();
            assert(one == all[n]);
            assert(all.take(n + 1).map_values(find).drop_last() =~= all.take(n).map_values(find));
            assert(all.take(n + 1).map_values(find).last() == find(one));
        }
        if let Some(row) = idle_row(one, executions) {
            rows.push(row);
        }
    }
    assert(all.take(all.len() as int) =~= all);
    let ordered = order_by_time(rows);
    let ghost read = |r: (Timestamp, IdleSandboxCandidateRow)|
        idle_candidate_read(r.1, idle_backstop, now);
    let ghost sorted = ordered@;
    let mut items: Vec<Result<Option<IdleSandboxCandidate>, SessionStoreError>> = Vec::new();
    for one in iter: ordered
        invariant
            sorted == ordered@,
            iter.seq() == sorted,
            read == (|r: (Timestamp, IdleSandboxCandidateRow)|
                idle_candidate_read(r.1, idle_backstop, now)),
            items@ == sorted.take(iter.index()).map_values(read),
    {
        proof {
            let n = iter.index();
            assert(one == sorted[n]);
            assert(sorted.take(n + 1) =~= sorted.take(n).push(one));
        }
        items.push(idle_candidate_from_row(one.1, idle_backstop, now));
    }
    assert(sorted.take(sorted.len() as int) =~= sorted);
    gather(items)
}

// ---------------------------------------------------------------------------
// Capacity
// ---------------------------------------------------------------------------

/// When the sandbox was last active, as far as it is known: by its own record, by
/// the end of the latest execution, or by the last change of the session.
pub open spec fn last_activity(
    row: SessionRow,
    latest: Option<SessionExecutionRow>,
) -> Timestamp {
    match (row.sandbox.last_active_at, latest) {
        (Some(at), _) => at,
        (None, Some(execution)) => match execution.completed_at {
            Some(at) => at,
            None => row.updated_at,
        },
        (None, None) => row.updated_at,
    }
}

/// An event tells whether the session's sandbox is paused.
pub open spec fn tells_pause(event: SandboxEventRow, thread: Seq<char>, sandbox: Seq<char>) -> bool {
    &&& event.thread_key@ == thread
    &&& holds(event.sandbox_id, sandbox)
    &&& event.event_type@ == "session.sandbox_paused"@ || event.event_type@
        == "session.sandbox_ready"@ || event.event_type@ == "session.sandbox_resumed"@
}

/// One event is not later than another, by its time, then by its id, then by its
/// place.
pub open spec fn not_later(events: Seq<SandboxEventRow>, i: int, k: int) -> bool {
    ||| events[i].created_at < events[k].created_at
    ||| events[i].created_at == events[k].created_at && events[i].event_id < events[k].event_id
    ||| events[i].created_at == events[k].created_at && events[i].event_id == events[k].event_id
        && i <= k
}

/// The latest of the events that tell whether the session's sandbox is paused.
pub open spec fn latest_event_at(
    events: Seq<SandboxEventRow>,
    thread: Seq<char>,
    sandbox: Seq<char>,
    k: int,
) -> bool {
    &&& 0 <= k < events.len()
    &&& tells_pause(events[k], thread, sandbox)
    &&& forall|i: int|
        0 <= i < events.len() && tells_pause(#[trigger] events[i], thread, sandbox) ==> not_later(
            events,
            i,
            k,
        )
}

/// The latest event that tells says that the session's sandbox is paused.
pub open spec fn paused(events: Seq<SandboxEventRow>, thread: Seq<char>, sandbox: Seq<char>) -> bool {
    exists|k: int| #[trigger]
        latest_event_at(events, thread, sandbox, k) && events[k].event_type@
            == "session.sandbox_paused"@
}

/// A session has a sandbox that may give way: it is not the excluded one, is not
/// paused already, was last active by the cutoff, and nothing is active.
pub open spec fn may_give_way(
    row: SessionRow,
    executions: Seq<SessionExecutionRow>,
    events: Seq<SandboxEventRow>,
    excluded: Option<&str>,
    cutoff: Timestamp,
) -> bool {
    &&& row.sandbox.sandbox_id matches Some(sandbox_id)
    &&& excluded matches Some(key) ==> row.thread_key@ != key@
    &&& !paused(events, row.thread_key@, sandbox_id@)
    &&& last_activity(row, latest_execution(executions, row.thread_key@, false)) <= cutoff
    &&& !any_counts(executions, row.thread_key@, true)
}

/// The row of a session whose sandbox may give way, with the time when the sandbox
/// was last active.
pub open spec fn capacity_row_of(
    seen: ObservedSession,
    executions: Seq<SessionExecutionRow>,
    events: Seq<SandboxEventRow>,
    excluded: Option<&str>,
    cutoff: Timestamp,
) -> Option<(Timestamp, SandboxCapacityCandidateRow)> {
    if may_give_way(seen.row, executions, events, excluded, cutoff) {
        let latest = latest_execution(executions, seen.row.thread_key@, false);
        let last_active_at = last_activity(seen.row, latest);
        Some(
            (
                last_active_at,
                SandboxCapacityCandidateRow {
                    thread_key: seen.thread_key,
                    sandbox_id: seen.row.sandbox.sandbox_id->0,
                    resource_uid: seen.row.sandbox.resource_uid,
                    assignment_epoch: seen.row.sandbox.assignment_epoch,
                    latest_execution_id: match latest {
                        Some(execution) => Some(execution.execution_id),
                        None => None,
                    },
                    last_active_at,
                },
            ),
        )
    } else {
        None
    }
}

/// The first rows of the sessions whose sandbox may give way, the longest idle
/// first, at most so many.
pub open spec fn capacity_rows(
    seen: Seq<ObservedSession>,
    executions: Seq<SessionExecutionRow>,
    events: Seq<SandboxEventRow>,
    excluded: Option<&str>,
    cutoff: Timestamp,
    limit: nat,
) -> Seq<(Timestamp, SandboxCapacityCandidateRow)> {
    first_of(
        in_order(
            present(
                seen.map_values(
                    |s: ObservedSession| capacity_row_of(s, executions, events, excluded, cutoff),
                ),
            ),
        ),
        limit,
    )
}

/// What the row of a session that may give way reads as.
pub open spec fn capacity_read(row: SandboxCapacityCandidateRow) -> Result<
    Option<SandboxCapacityCandidate>,
    SessionStoreError,
> {
    match row.thread_key {
        Err(words) => Err(SessionStoreError::InvalidPersistedValue(words)),
        Ok(thread_key) => Ok(
            Some(
                SandboxCapacityCandidate {
                    thread_key,
                    sandbox_id: row.sandbox_id,
                    resource_uid: row.resource_uid,
                    assignment_epoch: row.assignment_epoch,
                    latest_execution_id: row.latest_execution_id,
                    last_active_at: row.last_active_at,
                },
            ),
        ),
    }
}

fn is_telling(event: &SandboxEventRow, thread_key: &str, sandbox_id: &str) -> (is: bool)
    ensures
        is == tells_pause(*event, thread_key@, sandbox_id@),
{
    let kind = event.event_type.as_str();
    same_text(event.thread_key.as_str(), thread_key) && opt_text_is(&event.sandbox_id, sandbox_id)
        && (same_text(kind, "session.sandbox_paused") || same_text(kind, "session.sandbox_ready")
        || same_text(kind, "session.sandbox_resumed"))
}

/// Whether the session's sandbox is paused, by the latest event that tells.
pub fn is_paused(events: &Vec<SandboxEventRow>, thread_key: &str, sandbox_id: &str) -> (is: bool)
    ensures
        is == paused(events@, thread_key@, sandbox_id@),
{
    let mut latest: Option<usize> = None;
    let mut i: usize = 0;
    while i < events.len()
        invariant
            i <= events.len(),
            match latest {
                None => forall|j: int|
                    0 <= j < i ==> !tells_pause(#[trigger] events@[j], thread_key@, sandbox_id@),
                Some(k) => {
                    &&& k < i
                    &&& tells_pause(events@[k as int], thread_key@, sandbox_id@)
                    &&& forall|j: int|
                        0 <= j < i && tells_pause(#[trigger] events@[j], thread_key@, sandbox_id@)
                            ==> not_later(events@, j, k as int)
                },
            },
        decreases events.len() - i,
    {
        let later = match latest {
            None => true,
            Some(k) => events[i].created_at > events[k].created_at || (events[i].created_at
                == events[k].created_at && events[i].event_id >= events[k].event_id),
        };
        if later && is_telling(&events[i], thread_key, sandbox_id) {
            latest = Some(i);
        }
        i += 1;
    }
    match latest {
        None => {
            assert forall|k: int| !latest_event_at(events@, thread_key@, sandbox_id@, k) by {
                if latest_event_at(events@, thread_key@, sandbox_id@, k) {
                    assert(tells_pause(events@[k], thread_key@, sandbox_id@));
                }
            }
            false
        },
        Some(k) => {
            proof {
                assert(latest_event_at(events@, thread_key@, sandbox_id@, k as int));
                assert forall|j: int|
                    latest_event_at(events@, thread_key@, sandbox_id@, j) implies j == k by {
                    assert(tells_pause(events@[j], thread_key@, sandbox_id@));
                    assert(not_later(events@, k as int, j));
                    assert(not_later(events@, j, k as int));
                }
            }
            same_text(events[k].event_type.as_str(), "session.sandbox_paused")
        },
    }
}

fn capacity_row(
    seen: ObservedSession,
    executions: &Vec<SessionExecutionRow>,
    events: &Vec<SandboxEventRow>,
    excluded_thread_key: Option<&str>,
    cutoff: Timestamp,
) -> (row: Option<(Timestamp, SandboxCapacityCandidateRow)>)
    ensures
        row == capacity_row_of(seen, executions@, events@, excluded_thread_key, cutoff),
{
    let thread = seen.row.thread_key.as_str();
    let excluded = match excluded_thread_key {
        Some(key) => same_text(thread, key),
        None => false,
    };
    if excluded || latest_position(executions, thread, true).is_some() {
        return None;
    }
    let mut latest_execution_id: Option<String> = None;
    let mut last_active_at: Timestamp = seen.row.updated_at;
    if let Some(k) = latest_position(executions, thread, false) {
        latest_execution_id = Some(executions[k].execution_id.clone());
        if let Some(at) = executions[k].completed_at {
            last_active_at = at;
        }
    }
    if let Some(at) = seen.row.sandbox.last_active_at {
        last_active_at = at;
    }
    if last_active_at > cutoff {
        return None;
    }
    let unpaused = match &seen.row.sandbox.sandbox_id {
        None => false,
        Some(sandbox_id) => !is_paused(events, thread, sandbox_id.as_str()),
    };
    match seen.row.sandbox.sandbox_id {
        Some(sandbox_id) if unpaused => Some(
            (
                last_active_at,
                SandboxCapacityCandidateRow {
                    thread_key: seen.thread_key,
                    sandbox_id,
                    resource_uid: seen.row.sandbox.resource_uid,
                    assignment_epoch: seen.row.sandbox.assignment_epoch,
                    latest_execution_id,
                    last_active_at,
                },
            ),
        ),
        _ => None,
    }
}

fn capacity_candidate(row: SandboxCapacityCandidateRow) -> (candidate: Result<
    Option<SandboxCapacityCandidate>,
    SessionStoreError,
>)
    ensures
        candidate == capacity_read(row),
{
    match parse_persisted(row.thread_key) {
        Err(error) => Err(error),
        Ok(thread_key) => Ok(
            Some(
                SandboxCapacityCandidate {
                    thread_key,
                    sandbox_id: row.sandbox_id,
                    resource_uid: row.resource_uid,
                    assignment_epoch: row.assignment_epoch,
                    latest_execution_id: row.latest_execution_id,
                    last_active_at: row.last_active_at,
                },
            ),
        ),
    }
}

/// Finds the sessions whose sandbox may give way, the longest idle first and those of
/// one time in the order given, up to the limit. `executions` and `events` are those
/// of the sessions.
pub fn list_sandbox_capacity_candidates(
    seen: Vec<ObservedSession>,
    executions: &Vec<SessionExecutionRow>,
    events: &Vec<SandboxEventRow>,
    excluded_thread_key: Option<&str>,
    cutoff: Timestamp,
    limit: usize,
) -> (candidates: Result<Vec<SandboxCapacityCandidate>, SessionStoreError>)
    ensures
        is_list(
            candidates,
            gathered(
                capacity_rows(
                    seen@,
                    executions@,
                    events@,
                    excluded_thread_key,
                    cutoff,
                    limit as nat,
                ).map_values(|r: (Timestamp, SandboxCapacityCandidateRow)| capacity_read(r.1)),
            ),
        ),
{
    let ghost find = |s: ObservedSession|
        capacity_row_of(s, executions@, events@, excluded_thread_key, cutoff);
    let ghost all = seen@;
    let mut rows: Vec<(Timestamp, SandboxCapacityCandidateRow)> = Vec::new();
    for one in iter: seen
        invariant
            all == seen@,
            iter.seq() == all,
            find == (|s: ObservedSession|
                capacity_row_of(s, executions@, events@, excluded_thread_key, cutoff)),
            rows@ == present(all.take(iter.index()).map_values(find)),
    {
        proof {
            let n = iter.index();
            assert(one == all[n]);
            assert(all.take(n + 1).map_values(find).drop_last() =~= all.take(n).map_values(find));
            assert(all.take(n + 1).map_values(find).last() == find(one));
        }
        if let Some(row) = capacity_row(one, executions, events, excluded_thread_key, cutoff) {
            rows.push(row);
        }
    }
    assert(all.take(all.len() as int) =~= all);
    let mut ordered = order_by_time(rows);
    ordered.truncate(limit);
    let ghost read = |r: (Timestamp, SandboxCapacityCandidateRow)| capacity_read(r.1);
    let ghost sorted = ordered@;
    proof {
        assert(sorted =~= capacity_rows(
            all,
            executions@,
            events@,
            excluded_thread_key,
            cutoff,
            limit as nat,
        ));
    }
    let mut items: Vec<Result<Option<SandboxCapacityCandidate>, SessionStoreError>> = Vec::new();
    for one in iter: ordered
        invariant
            sorted == ordered@,
            iter.seq() == sorted,
            read == (|r: (Timestamp, SandboxCapacityCandidateRow)| capacity_read(r.1)),
            items@ == sorted.take(iter.index()).map_values(read),
    {
        proof {
            let n = iter.index();
            assert(one == sorted[n]);
            assert(sorted.take(n + 1) =~= sorted.take(n).push(one));
        }
        items.push(capacity_candidate(one.1));
    }
    assert(sorted.take(sorted.len() as int) =~= sorted);
    gather(items)
}

// ---------------------------------------------------------------------------
// Workflow-owned sandboxes
// ---------------------------------------------------------------------------

/// What an observed session comes to: the sandbox that the run owns, nothing, or
/// the refusal of the session's key.
pub open spec fn workflow_sandbox(seen: WorkflowObservation, run: Seq<char>) -> Result<
    Option<WorkflowOwnedSandbox>,
    SessionStoreError,
> {
    match seen.sandbox_id {
        Some(sandbox_id) if holds(seen.workflow_owned_thread, "true"@)
            && holds(seen.workflow_run_id, run) => match seen.thread_key {
            Err(words) => Err(SessionStoreError::InvalidPersistedValue(words)),
            Ok(thread_key) => Ok(
                Some(
                    WorkflowOwnedSandbox {
                        thread_key,
                        sandbox_id,
                        resource_uid: seen.resource_uid,
                        assignment_epoch: seen.assignment_epoch,
                    },
                ),
            ),
        },
        _ => Ok(None),
    }
}

/// Decides whether a session has a sandbox that the workflow run owns.
pub fn workflow_owned_sandbox(
    seen: WorkflowObservation,
    workflow_run_id: &str,
) -> (sandbox: Result<Option<WorkflowOwnedSandbox>, SessionStoreError>)
    ensures
        sandbox == workflow_sandbox(seen, workflow_run_id@),
{
    let owned = opt_text_is(&seen.workflow_owned_thread, "true") && opt_text_is(
        &seen.workflow_run_id,
        workflow_run_id,
    );
    match seen.sandbox_id {
        Some(sandbox_id) if owned => match parse_persisted(seen.thread_key) {
            Err(error) => Err(error),
            Ok(thread_key) => Ok(
                Some(
                    WorkflowOwnedSandbox {
                        thread_key,
                        sandbox_id,
                        resource_uid: seen.resource_uid,
                        assignment_epoch: seen.assignment_epoch,
                    },
                ),
            ),
        },
        _ => Ok(None),
    }
}

// ---------------------------------------------------------------------------
// Laws
// ---------------------------------------------------------------------------

/// A session is listed as idle only if it has a sandbox, its latest execution has
/// ended for at least its timeout, and none is active.
pub proof fn law_idle_candidate_is_idle(
    seen: ObservedSession,
    executions: Seq<SessionExecutionRow>,
    idle_backstop: Nanoseconds,
    now: Timestamp,
)
    ensures
        idle_row_of(seen, executions) matches Some(row) ==> idle_candidate_read(
            row.1,
            idle_backstop,
            now,
        ) matches Ok(Some(candidate)) ==> {
            &&& seen.row.sandbox.sandbox_id == Some(candidate.sandbox_id)
            &&& !any_counts(executions, seen.row.thread_key@, true)
            &&& latest_execution(executions, seen.row.thread_key@, false) matches Some(latest)
            &&& latest.execution_id == candidate.execution_id
            &&& finished(latest.status@)
            &&& latest.completed_at matches Some(at) && now - at >= candidate.idle_timeout
        },
{
}

/// A listing for capacity names at most as many sandboxes as were asked for, the
/// longest idle first.
pub proof fn law_longest_idle_gives_way_first(
    seen: Seq<ObservedSession>,
    executions: Seq<SessionExecutionRow>,
    events: Seq<SandboxEventRow>,
    excluded: Option<&str>,
    cutoff: Timestamp,
    limit: nat,
)
    ensures
        is_ordered(capacity_rows(seen, executions, events, excluded, cutoff, limit)),
        capacity_rows(seen, executions, events, excluded, cutoff, limit).len() <= limit,
{
    let rows = present(
        seen.map_values(
            |s: ObservedSession| capacity_row_of(s, executions, events, excluded, cutoff),
        ),
    );
    law_order_is_by_time(rows, cutoff);
    let listed = capacity_rows(seen, executions, events, excluded, cutoff, limit);
    assert forall|i: int, j: int| 0 <= i < j < listed.len() implies (#[trigger] listed[i]).0 <= (
    #[trigger] listed[j]).0 by {
        assert(in_order(rows)[i].0 <= in_order(rows)[j].0);
    }
}

/// A timeout is never zero, a positive persisted one always wins over the backstop,
/// and once it has run out it stays so.
pub proof fn law_idle_timeout(
    metadata: Value,
    backstop: Nanoseconds,
    other_backstop: Nanoseconds,
    completed_at: Timestamp,
    now: Timestamp,
    later: Timestamp,
)
    ensures
        idle_timeout_of(metadata, backstop) >= MILLISECOND,
        json_member(metadata, "idle_timeout_ms"@) matches Some(value) && json_unsigned(
            value,
        ) matches Some(n) && n > 0 ==> idle_timeout_of(metadata, backstop) == idle_timeout_of(
            metadata,
            other_backstop,
        ),
        now <= later && deadline_elapsed(completed_at, idle_timeout_of(metadata, backstop), now)
            ==> deadline_elapsed(completed_at, idle_timeout_of(metadata, backstop), later),
        now < completed_at ==> !deadline_elapsed(
            completed_at,
            idle_timeout_of(metadata, backstop),
            now,
        ),
{
}

} // verus!
