//! Executions, and who may write what one of them puts out.
//!
//! An active execution is queued or running. Its stdout owner holds a lease; an
//! owner whose lease has run out has lost it for good unless it is adopted again
//! as anyone else could adopt it.
use crate::delivery::{
    claimed_by, claimed_live_by, is_claimed_by, is_claimed_live_by, mark_released, released,
};
use crate::error::SessionStoreError;
use crate::json::{json_merged, merge_documents};
use crate::model::{Clock, ExecutionStatus, SessionExecution, SessionStatus, Timestamp};
use crate::rows::{
    execution_from_row, execution_read, NewSessionEvent, SessionExecutionRow,
    SessionExecutionRowParses, SessionInputDeliveryRow, SessionRow,
};
use crate::text::{copy_opt, holds, opt_text_is, same_text};
use serde_json::Value;
use vstd::prelude::*;

verus! {

/// An active execution together with its stdout-owner lease state. The lease
/// snapshot is advisory — only the conditional adoption decides ownership — but it
/// lets an adoption scan skip executions with a live owner without touching the
/// session row or the sandbox backend.
#[derive(Clone, Debug)]
pub struct ActiveExecutionOwnership {
    pub execution: SessionExecution,
    pub stdout_owner_id: Option<String>,
    /// True when a stdout-owner lease exists and has not expired yet.
    pub stdout_owner_lease_active: bool,
}

/// A status of an execution that may still do work.
pub open spec fn active(status: Seq<char>) -> bool {
    status == ExecutionStatus::Queued.name() || status == ExecutionStatus::Running.name()
}

/// A status of an execution that has ended.
pub open spec fn finished(status: Seq<char>) -> bool {
    ||| status == ExecutionStatus::Completed.name()
    ||| status == ExecutionStatus::Failed.name()
    ||| status == ExecutionStatus::Cancelled.name()
}

/// Whether a status is that of an execution that may still do work.
pub fn is_active(status: &str) -> (is: bool)
    ensures
        is == active(status@),
{
    same_text(status, ExecutionStatus::Queued.as_ref()) || same_text(
        status,
        ExecutionStatus::Running.as_ref(),
    )
}

/// Whether a status is that of an execution that has ended.
pub fn is_finished(status: &str) -> (is: bool)
    ensures
        is == finished(status@),
{
    same_text(status, ExecutionStatus::Completed.as_ref()) || same_text(
        status,
        ExecutionStatus::Failed.as_ref(),
    ) || same_text(status, ExecutionStatus::Cancelled.as_ref())
}

/// The execution is one of the thread, and an active one if only those count.
pub open spec fn counts_for(row: SessionExecutionRow, thread: Seq<char>, only_active: bool) -> bool {
    row.thread_key@ == thread && (only_active ==> active(row.status@))
}

/// The latest of the executions that count: none was created later, and of several
/// created at the same time it is the last in the list.
pub open spec fn latest_at(
    executions: Seq<SessionExecutionRow>,
    thread: Seq<char>,
    only_active: bool,
    k: int,
) -> bool {
    &&& 0 <= k < executions.len()
    &&& counts_for(executions[k], thread, only_active)
    &&& forall|i: int|
        0 <= i < executions.len() && counts_for(#[trigger] executions[i], thread, only_active)
            ==> executions[i].created_at < executions[k].created_at || (executions[i].created_at
            == executions[k].created_at && i <= k)
}

/// Some execution counts.
pub open spec fn any_counts(
    executions: Seq<SessionExecutionRow>,
    thread: Seq<char>,
    only_active: bool,
) -> bool {
    exists|i: int|
        0 <= i < executions.len() && counts_for(#[trigger] executions[i], thread, only_active)
}

/// The latest execution of a thread, or the latest active one, if there is any.
pub open spec fn latest_execution(
    executions: Seq<SessionExecutionRow>,
    thread: Seq<char>,
    only_active: bool,
) -> Option<SessionExecutionRow> {
    if any_counts(executions, thread, only_active) {
        Some(executions[choose|k: int| latest_at(executions, thread, only_active, k)])
    } else {
        None
    }
}

/// There is one latest among the executions that count, if any does.
pub proof fn law_one_execution_is_the_latest(
    executions: Seq<SessionExecutionRow>,
    thread: Seq<char>,
    only_active: bool,
)
    ensures
        any_counts(executions, thread, only_active) <==> exists|k: int|
            latest_at(executions, thread, only_active, k),
        forall|k: int|
            #[trigger] latest_at(executions, thread, only_active, k) ==> latest_execution(
                executions,
                thread,
                only_active,
            ) == Some(executions[k]),
    decreases executions.len(),
{
    assert forall|j: int, k: int| #[trigger]
        latest_at(executions, thread, only_active, j) && #[trigger] latest_at(
            executions,
            thread,
            only_active,
            k,
        ) implies j == k by {
        assert(counts_for(executions[j], thread, only_active));
        assert(counts_for(executions[k], thread, only_active));
    }
    assert forall|k: int| #[trigger] latest_at(executions, thread, only_active, k) implies any_counts(
        executions,
        thread,
        only_active,
    ) by {
        assert(counts_for(executions[k], thread, only_active));
    }
    if any_counts(executions, thread, only_active) {
        let front = executions.drop_last();
        let last = executions.len() - 1;
        law_one_execution_is_the_latest(front, thread, only_active);
        assert forall|i: int| 0 <= i < last implies #[trigger] executions[i] == front[i] by {}
        if any_counts(front, thread, only_active) {
            let k = choose|k: int| latest_at(front, thread, only_active, k);
            if counts_for(executions[last], thread, only_active) && executions[last].created_at
                >= executions[k].created_at {
                assert(latest_at(executions, thread, only_active, last));
            } else {
                assert(latest_at(executions, thread, only_active, k));
            }
        } else {
            let i = choose|i: int|
                0 <= i < executions.len() && counts_for(
                    #[trigger] executions[i],
                    thread,
                    only_active,
                );
            if i < last {
                assert(counts_for(front[i], thread, only_active));
            }
            assert forall|j: int|
                0 <= j < executions.len() && counts_for(
                    #[trigger] executions[j],
                    thread,
                    only_active,
                ) implies j == last by {
                if j < last {
                    assert(counts_for(front[j], thread, only_active));
                }
            }
            assert(latest_at(executions, thread, only_active, last));
        }
    }
}

/// Finds the latest execution of a thread, or the latest active one.
pub fn latest_position(
    executions: &Vec<SessionExecutionRow>,
    thread_key: &str,
    only_active: bool,
) -> (position: Option<usize>)
    ensures
        match position {
            None => !any_counts(executions@, thread_key@, only_active),
            Some(k) => latest_at(executions@, thread_key@, only_active, k as int)
                && latest_execution(executions@, thread_key@, only_active) == Some(
                executions@[k as int],
            ),
        },
{
    proof {
        law_one_execution_is_the_latest(executions@, thread_key@, only_active);
    }
    let mut latest: Option<usize> = None;
    let mut i: usize = 0;
    while i < executions.len()
        invariant
            i <= executions.len(),
            match latest {
                None => forall|j: int|
                    0 <= j < i ==> !counts_for(#[trigger] executions@[j], thread_key@, only_active),
                Some(k) => {
                    &&& k < i
                    &&& counts_for(executions@[k as int], thread_key@, only_active)
                    &&& forall|j: int|
                        0 <= j < i && counts_for(
                            #[trigger] executions@[j],
                            thread_key@,
                            only_active,
                        ) ==> executions@[j].created_at < executions@[k as int].created_at || (
                        executions@[j].created_at == executions@[k as int].created_at && j <= k)
                },
            },
        decreases executions.len() - i,
    {
        let counts = same_text(executions[i].thread_key.as_str(), thread_key) && (!only_active
            || is_active(executions[i].status.as_str()));
        let later = match latest {
            None => true,
            Some(k) => executions[i].created_at >= executions[k].created_at,
        };
        if counts && later {
            latest = Some(i);
        }
        i += 1;
    }
    latest
}

/// The execution with a document laid over its metadata, and nothing else changed.
pub open spec fn metadata_merged(
    before: SessionExecutionRow,
    after: SessionExecutionRow,
    metadata: Value,
    now: Timestamp,
) -> bool {
    &&& json_merged(before.metadata, metadata, after.metadata)
    &&& after == (SessionExecutionRow { metadata: after.metadata, updated_at: now, ..before })
}

impl SessionExecutionRow {
    /// The execution may still do work.
    pub open spec fn is_active(self) -> bool {
        active(self.status@)
    }

    /// The lease has time left.
    pub open spec fn lease_live(self, at: Timestamp) -> bool {
        self.stdout_owner_lease_expires_at matches Some(until) && until > at
    }

    /// The lease has run out, or there is none.
    pub open spec fn lease_lapsed(self, at: Timestamp) -> bool {
        !self.lease_live(at)
    }

    /// The given owner holds the execution, with time left.
    pub open spec fn held_by(self, owner: Seq<char>, at: Timestamp) -> bool {
        holds(self.stdout_owner_id, owner) && self.lease_live(at)
    }

    /// The owner may take the lease in the ordinary way: it is nobody's, or it is the
    /// owner's own and live.
    pub open spec fn claimable(self, owner: Seq<char>, at: Timestamp) -> bool {
        &&& self.is_active()
        &&& match self.stdout_owner_id {
            None => true,
            Some(current) => current@ == owner && self.lease_live(at),
        }
    }

    /// The lease may be adopted by anyone: it is nobody's, or has run out.
    pub open spec fn adoptable(self, at: Timestamp) -> bool {
        self.is_active() && (self.stdout_owner_id is None || self.lease_lapsed(at))
    }

    /// The owner may take the execution together with a delivery: it is nobody's,
    /// has run out, or is the owner's own.
    pub open spec fn open_to(self, owner: Seq<char>, at: Timestamp) -> bool {
        &&& self.is_active()
        &&& self.stdout_owner_id is None || self.lease_lapsed(at) || holds(
            self.stdout_owner_id,
            owner,
        )
    }

    /// The row with the lease in the owner's hands.
    pub open spec fn owned(self, owner: String, until: Timestamp, now: Timestamp) -> SessionExecutionRow {
        SessionExecutionRow {
            stdout_owner_id: Some(owner),
            stdout_owner_lease_expires_at: Some(until),
            updated_at: now,
            ..self
        }
    }

    /// The row with the lease extended.
    pub open spec fn renewed(self, until: Timestamp, now: Timestamp) -> SessionExecutionRow {
        SessionExecutionRow {
            stdout_owner_lease_expires_at: Some(until),
            updated_at: now,
            ..self
        }
    }

    /// The row with the lease given up.
    pub open spec fn unowned(self, now: Timestamp) -> SessionExecutionRow {
        SessionExecutionRow {
            stdout_owner_id: None,
            stdout_owner_lease_expires_at: None,
            updated_at: now,
            ..self
        }
    }

    fn is_lease_live(&self, at: Timestamp) -> (live: bool)
        ensures
            live == self.lease_live(at),
    {
        match self.stdout_owner_lease_expires_at {
            Some(until) => until > at,
            None => false,
        }
    }

    /// Whether the given owner holds the execution, with time left.
    pub fn is_held_by(&self, owner_id: &str, at: Timestamp) -> (held: bool)
        ensures
            held == self.held_by(owner_id@, at),
    {
        opt_text_is(&self.stdout_owner_id, owner_id) && self.is_lease_live(at)
    }

    /// Whether the owner may take the execution together with a delivery.
    pub fn is_open_to(&self, owner_id: &str, at: Timestamp) -> (open: bool)
        ensures
            open == self.open_to(owner_id@, at),
    {
        is_active(self.status.as_str()) && (self.stdout_owner_id.is_none() || !self.is_lease_live(
            at,
        ) || opt_text_is(&self.stdout_owner_id, owner_id))
    }

    /// Records the resolved trace boundary after consent lookup but before the
    /// sandbox receives input. What came in with the execution is preserved, while
    /// the control plane owns the reserved trace fields.
    pub fn merge_execution_metadata(&mut self, metadata: Value, now: Timestamp)
        ensures
            metadata_merged(*old(self), *final(self), metadata, now),
    {
        self.metadata = merge_documents(self.metadata.clone(), metadata);
        self.updated_at = now;
    }

    /// Claims an unowned lease or extends this owner's still-live lease. Ordinary
    /// claims never revive an expired owner lease.
    pub fn claim_stdout_owner(&mut self, owner_id: &String, lease_until: Timestamp, clock: Clock) -> (claimed:
        bool)
        ensures
            claimed == old(self).claimable(owner_id@, clock.wall),
            *final(self) == if claimed {
                old(self).owned(*owner_id, lease_until, clock.now)
            } else {
                *old(self)
            },
            claimed <==> (old(self).status@ == "queued"@ || old(self).status@ == "running"@)
                && (old(self).stdout_owner_id is None
                || (old(self).stdout_owner_id->0@ == owner_id@
                && old(self).stdout_owner_lease_expires_at is Some
                && old(self).stdout_owner_lease_expires_at->0
                > clock.wall)),
            claimed ==> final(self).stdout_owner_id == Some(*owner_id)
                && final(self).stdout_owner_lease_expires_at == Some(lease_until)
                && final(self).status == old(self).status,
    {
        if !is_active(self.status.as_str()) || (self.stdout_owner_id.is_some()
            && !self.is_held_by(owner_id.as_str(), clock.wall)) {
            return false;
        }
        self.stdout_owner_id = Some(owner_id.clone());
        self.stdout_owner_lease_expires_at = Some(lease_until);
        self.updated_at = clock.now;
        true
    }

    /// Claims an unowned or expired lease for recovery adoption. A runtime's local
    /// output gate makes reclaiming its own expired lease safe here; ordinary
    /// output writes must still prove a live lease independently.
    pub fn claim_expired_stdout_owner(
        &mut self,
        owner_id: &String,
        lease_until: Timestamp,
        clock: Clock,
    ) -> (claimed: bool)
        ensures
            claimed == old(self).adoptable(clock.wall),
            *final(self) == if claimed {
                old(self).owned(*owner_id, lease_until, clock.now)
            } else {
                *old(self)
            },
            claimed <==> (old(self).status@ == "queued"@ || old(self).status@ == "running"@)
                && (old(self).stdout_owner_id is None
                || old(self).stdout_owner_lease_expires_at is None
                || old(self).stdout_owner_lease_expires_at->0 <= clock.wall),
            claimed ==> final(self).stdout_owner_id == Some(*owner_id)
                && final(self).stdout_owner_lease_expires_at == Some(lease_until)
                && final(self).status == old(self).status,
    {
        if !is_active(self.status.as_str()) || (self.stdout_owner_id.is_some()
            && self.is_lease_live(clock.wall)) {
            return false;
        }
        self.stdout_owner_id = Some(owner_id.clone());
        self.stdout_owner_lease_expires_at = Some(lease_until);
        self.updated_at = clock.now;
        true
    }

    /// Gives an event of the execution, to be inserted, while its owner's lease has
    /// time left, and extends the lease: only for the active execution of that
    /// thread.
    pub fn append_event_if_stdout_owner(
        &mut self,
        thread_key: &str,
        owner_id: &str,
        lease_until: Timestamp,
        event_type: String,
        payload: Value,
        clock: Clock,
    ) -> (event: Option<NewSessionEvent>)
        ensures
            if old(self).is_active() && old(self).held_by(owner_id@, clock.wall)
                && old(self).thread_key@ == thread_key@ {
                &&& *final(self) == old(self).renewed(lease_until, clock.now)
                &&& event == Some(
                    NewSessionEvent {
                        thread_key: old(self).thread_key,
                        execution_id: Some(old(self).execution_id),
                        event_type,
                        payload,
                    },
                )
            } else {
                event is None && *final(self) == *old(self)
            },
            event is Some <==> (old(self).status@ == "queued"@ || old(self).status@ == "running"@)
                && old(self).stdout_owner_id is Some && old(self).stdout_owner_id->0@ == owner_id@
                && old(self).stdout_owner_lease_expires_at is Some
                    && old(self).stdout_owner_lease_expires_at->0 > clock.wall
                    && old(self).thread_key@ == thread_key@,
            event matches Some(made) ==> made.execution_id == Some(old(self).execution_id)
                && made.thread_key@ == thread_key@ && made.event_type == event_type && made.payload
                == payload && final(self).stdout_owner_lease_expires_at == Some(lease_until)
                && final(self).stdout_owner_id == old(self).stdout_owner_id,
    {
        if !is_active(self.status.as_str()) || !self.is_held_by(owner_id, clock.wall)
            || !same_text(self.thread_key.as_str(), thread_key) {
            return None;
        }
        self.stdout_owner_lease_expires_at = Some(lease_until);
        self.updated_at = clock.now;
        Some(
            NewSessionEvent {
                thread_key: self.thread_key.clone(),
                execution_id: Some(self.execution_id.clone()),
                event_type,
                payload,
            },
        )
    }

    /// Starts a queued execution, and its session executes. Says whether this call did it: another request
    /// may have claimed it before, or it may have ended.
    pub fn mark_execution_running(&mut self, session: &mut SessionRow, now: Timestamp) -> (claimed:
        bool)
        ensures
            claimed == (old(self).status@ == ExecutionStatus::Queued.name()),
            if claimed {
                &&& final(self).status@ == ExecutionStatus::Running.name()
                &&& *final(self) == (SessionExecutionRow {
                    status: final(self).status,
                    started_at: match old(self).started_at {
                        Some(at) => Some(at),
                        None => Some(now),
                    },
                    updated_at: now,
                    ..*old(self)
                })
                &&& status_given(
                    *old(session),
                    *final(session),
                    old(self).thread_key@,
                    SessionStatus::Executing,
                    now,
                )
            } else {
                *final(self) == *old(self) && *final(session) == *old(session)
            },
            claimed <==> old(self).status@ == "queued"@,
            claimed ==> final(self).status@ == "running"@ && final(self).started_at is Some
                && (old(self).started_at is Some
                ==> final(self).started_at == old(self).started_at),
            claimed && old(session).thread_key@ == old(self).thread_key@ ==> final(session).status@
                == "executing"@,
            old(session).thread_key@ != old(self).thread_key@ ==> *final(session) == *old(session),
            final(session).sandbox == old(session).sandbox,
    {
        if !same_text(self.status.as_str(), ExecutionStatus::Queued.as_ref()) {
            return false;
        }
        self.status = ExecutionStatus::Running.as_ref().to_owned();
        if self.started_at.is_none() {
            self.started_at = Some(now);
        }
        self.updated_at = now;
        set_session_status(session, self.thread_key.as_str(), SessionStatus::Executing, now);
        true
    }
}

/// What an execution row comes to in a scan of the active ones: nothing if it is
/// not active, else the execution and who owns it, or the refusal of its texts.
pub open spec fn ownership_read(
    row: SessionExecutionRow,
    parses: SessionExecutionRowParses,
    at: Timestamp,
) -> Result<Option<ActiveExecutionOwnership>, SessionStoreError> {
    if !row.is_active() {
        Ok(None)
    } else {
        match execution_read(row, parses) {
            Err(error) => Err(error),
            Ok(execution) => Ok(
                Some(
                    ActiveExecutionOwnership {
                        execution,
                        stdout_owner_id: row.stdout_owner_id,
                        stdout_owner_lease_active: row.lease_live(at),
                    },
                ),
            ),
        }
    }
}

/// Reads an execution row in a scan of the active ones.
pub fn active_execution_ownership(
    row: SessionExecutionRow,
    parses: SessionExecutionRowParses,
    at: Timestamp,
) -> (ownership: Result<Option<ActiveExecutionOwnership>, SessionStoreError>)
    ensures
        ownership == ownership_read(row, parses, at),
{
    if !is_active(row.status.as_str()) {
        return Ok(None);
    }
    let stdout_owner_lease_active = row.is_lease_live(at);
    let stdout_owner_id = copy_opt(&row.stdout_owner_id);
    match execution_from_row(row, parses) {
        Err(error) => Err(error),
        Ok(execution) => Ok(
            Some(
                ActiveExecutionOwnership { execution, stdout_owner_id, stdout_owner_lease_active },
            ),
        ),
    }
}

/// The session has the given status and is otherwise as before.
pub open spec fn with_status(
    before: SessionRow,
    after: SessionRow,
    status: SessionStatus,
    now: Timestamp,
) -> bool {
    &&& after.status@ == status.name()
    &&& after == (SessionRow { status: after.status, updated_at: now, ..before })
}

/// The session of the thread has the given status; that of another thread is left as
/// it is.
pub open spec fn status_given(
    before: SessionRow,
    after: SessionRow,
    thread: Seq<char>,
    status: SessionStatus,
    now: Timestamp,
) -> bool {
    if before.thread_key@ == thread {
        with_status(before, after, status, now)
    } else {
        after == before
    }
}

/// Gives the session of a thread a status.
pub fn set_session_status(
    session: &mut SessionRow,
    thread_key: &str,
    status: SessionStatus,
    now: Timestamp,
)
    ensures
        status_given(*old(session), *final(session), thread_key@, status, now),
{
    if !same_text(session.thread_key.as_str(), thread_key) {
        return;
    }
    session.status = status.as_ref().to_owned();
    session.updated_at = now;
}

/// The delivery once its owner's lease was extended.
pub open spec fn delivery_renewed(
    delivery: SessionInputDeliveryRow,
    execution_id: Seq<char>,
    owner: Seq<char>,
    until: Timestamp,
    clock: Clock,
) -> SessionInputDeliveryRow {
    if claimed_live_by(delivery, execution_id, owner, clock.wall) {
        SessionInputDeliveryRow {
            owner_lease_expires_at: Some(until),
            updated_at: clock.now,
            ..delivery
        }
    } else {
        delivery
    }
}

/// Extends the owner's live lease on an active execution, and with it the live
/// leases on the deliveries that the owner has claimed for it.
pub fn renew_stdout_owner(
    execution: &mut SessionExecutionRow,
    deliveries: &mut Vec<SessionInputDeliveryRow>,
    owner_id: &str,
    lease_until: Timestamp,
    clock: Clock,
) -> (renewed: bool)
    ensures
        renewed == (old(execution).is_active() && old(execution).held_by(owner_id@, clock.wall)),
        final(deliveries)@.len() == old(deliveries)@.len(),
        if renewed {
            &&& *final(execution) == old(execution).renewed(lease_until, clock.now)
            &&& forall|i: int|
                0 <= i < old(deliveries)@.len() ==> #[trigger] final(deliveries)@[i]
                    == delivery_renewed(
                    old(deliveries)@[i],
                    old(execution).execution_id@,
                    owner_id@,
                    lease_until,
                    clock,
                )
        } else {
            *final(execution) == *old(execution) && final(deliveries)@ == old(deliveries)@
        },
        renewed <==> (old(execution).status@ == "queued"@ || old(execution).status@ == "running"@)
            && old(execution).stdout_owner_id is Some
                && old(execution).stdout_owner_id->0@ == owner_id@
            && old(execution).stdout_owner_lease_expires_at is Some
                && old(execution).stdout_owner_lease_expires_at->0 > clock.wall,
        renewed ==> final(execution).stdout_owner_lease_expires_at == Some(lease_until)
            && final(execution).stdout_owner_id == old(execution).stdout_owner_id,
        forall|i: int|
            0 <= i < old(deliveries)@.len() ==> ({
                let before = old(deliveries)@[i];
                let after = #[trigger] final(deliveries)@[i];
                if renewed && before.execution_id@ == old(execution).execution_id@ && before.state@
                    == "claimed"@ && before.owner_id is Some && before.owner_id->0@ == owner_id@
                    && before.owner_lease_expires_at is Some && before.owner_lease_expires_at->0
                    > clock.wall {
                    after.owner_lease_expires_at == Some(lease_until) && after.state == before.state
                        && after.owner_generation == before.owner_generation && after.owner_id
                        == before.owner_id
                } else {
                    after == before
                }
            }),
{
    if !is_active(execution.status.as_str()) || !execution.is_held_by(owner_id, clock.wall) {
        return false;
    }
    execution.stdout_owner_lease_expires_at = Some(lease_until);
    execution.updated_at = clock.now;
    let ghost before = deliveries@;
    let mut i: usize = 0;
    while i < deliveries.len()
        invariant
            i <= deliveries.len(),
            deliveries@.len() == before.len(),
            forall|j: int|
                0 <= j < i ==> #[trigger] deliveries@[j] == delivery_renewed(
                    before[j],
                    execution.execution_id@,
                    owner_id@,
                    lease_until,
                    clock,
                ),
            forall|j: int| i <= j < before.len() ==> #[trigger] deliveries@[j] == before[j],
        decreases deliveries.len() - i,
    {
        if is_claimed_live_by(&deliveries[i], execution.execution_id.as_str(), owner_id, clock.wall) {
            let delivery = &mut deliveries[i];
            delivery.owner_lease_expires_at = Some(lease_until);
            delivery.updated_at = clock.now;
        }
        i += 1;
    }
    true
}

/// Gives up the owner's lease, live or not, and leaves the deliveries that it had
/// claimed for the execution ambiguous: nobody knows whether they were flushed.
pub fn release_stdout_owner(
    execution: &mut SessionExecutionRow,
    deliveries: &mut Vec<SessionInputDeliveryRow>,
    owner_id: &str,
    now: Timestamp,
) -> (given_up: bool)
    ensures
        given_up == holds(old(execution).stdout_owner_id, owner_id@),
        final(deliveries)@.len() == old(deliveries)@.len(),
        if given_up {
            &&& *final(execution) == old(execution).unowned(now)
            &&& forall|i: int|
                0 <= i < old(deliveries)@.len() ==> if claimed_by(
                    old(deliveries)@[i],
                    owner_id@,
                ) && old(deliveries)@[i].execution_id@ == old(execution).execution_id@ {
                    released(
                        old(deliveries)@[i],
                        #[trigger] final(deliveries)@[i],
                        "stdout owner released before input flush committed"@,
                        now,
                    )
                } else {
                    final(deliveries)@[i] == old(deliveries)@[i]
                }
        } else {
            *final(execution) == *old(execution) && final(deliveries)@ == old(deliveries)@
        },
        given_up <==> old(execution).stdout_owner_id is Some && old(execution).stdout_owner_id->0@
            == owner_id@,
        given_up ==> final(execution).stdout_owner_id is None
            && final(execution).stdout_owner_lease_expires_at is None
            && final(execution).status == old(execution).status,
        forall|i: int|
            0 <= i < old(deliveries)@.len() ==> ({
                let before = old(deliveries)@[i];
                let after = #[trigger] final(deliveries)@[i];
                if given_up && before.execution_id@ == old(execution).execution_id@ && before.state@
                    == "claimed"@ && before.owner_id is Some && before.owner_id->0@ == owner_id@ {
                    after.state@ == "ambiguous"@ && after.owner_id is None
                        && after.owner_lease_expires_at is None && after.last_error is Some
                        && after.last_error->0@
                            == "stdout owner released before input flush committed"@
                        && after.owner_generation == before.owner_generation && after.input_lines
                        == before.input_lines
                } else {
                    after == before
                }
            }),
{
    if !opt_text_is(&execution.stdout_owner_id, owner_id) {
        return false;
    }
    execution.stdout_owner_id = None;
    execution.stdout_owner_lease_expires_at = None;
    execution.updated_at = now;
    let ghost before = deliveries@;
    let mut i: usize = 0;
    while i < deliveries.len()
        invariant
            i <= deliveries.len(),
            deliveries@.len() == before.len(),
            forall|j: int|
                0 <= j < i ==> if claimed_by(before[j], owner_id@) && before[j].execution_id@
                    == execution.execution_id@ {
                    released(
                        before[j],
                        #[trigger] deliveries@[j],
                        "stdout owner released before input flush committed"@,
                        now,
                    )
                } else {
                    deliveries@[j] == before[j]
                },
            forall|j: int| i <= j < before.len() ==> #[trigger] deliveries@[j] == before[j],
        decreases deliveries.len() - i,
    {
        if is_claimed_by(&deliveries[i], owner_id) && same_text(
            deliveries[i].execution_id.as_str(),
            execution.execution_id.as_str(),
        ) {
            mark_released(
                &mut deliveries[i],
                "stdout owner released before input flush committed",
                now,
            );
        }
        i += 1;
    }
    true
}

} // verus!
