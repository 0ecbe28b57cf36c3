//! The retirement of one specific sandbox under its session's row lock.
//!
//! The lock remembers the assignment it was taken for. A replacement waits for
//! the lock's transaction, so it is either seen before the sandbox is stopped or
//! written after the old one was cleared; whatever the lock writes, it writes
//! only while the remembered assignment stands.
use crate::assignment::{no_sandbox, on_harness, switch_session_harness, with_sandbox};
use crate::execution::{
    any_counts, finished, is_finished, latest_execution, latest_position,
};
use crate::idle_columns::{is_busy, law_busy_threads};
use crate::model::{HarnessType, SessionStatus, Timestamp};
use crate::rows::{SandboxColumns, SessionExecutionRow, SessionRow};
use crate::text::{copy_opt, holds, opt_text_is, same_opt, same_opt_text, same_text};
use vstd::prelude::*;

verus! {

/// Holds what a reconciler saw of the assignment when it took the row lock.
#[derive(Debug)]
pub struct SandboxAssignmentReconciliationLock {
    thread_key: String,
    sandbox_id: String,
    sandbox_resource_uid: Option<String>,
    sandbox_assignment_epoch: Option<String>,
    sandbox_metadata_trace_assignment_epoch: Option<String>,
}

impl SandboxAssignmentReconciliationLock {
    /// The session that the lock is on.
    pub closed spec fn locked_thread(self) -> Seq<char> {
        self.thread_key@
    }

    /// The sandbox that the lock was taken for.
    pub closed spec fn locked_sandbox(self) -> Seq<char> {
        self.sandbox_id@
    }

    /// The resource behind the sandbox, as far as it is known.
    pub closed spec fn locked_resource(self) -> Option<String> {
        self.sandbox_resource_uid
    }

    /// The epoch of the assignment, as far as it is known.
    pub closed spec fn locked_epoch(self) -> Option<String> {
        self.sandbox_assignment_epoch
    }

    /// The epoch of the trace boundary, if there is one.
    pub closed spec fn locked_trace_epoch(self) -> Option<String> {
        self.sandbox_metadata_trace_assignment_epoch
    }

    /// The session still has exactly the assignment that the lock remembers.
    pub open spec fn is_for(self, row: SessionRow) -> bool {
        &&& row.thread_key@ == self.locked_thread()
        &&& holds(row.sandbox.sandbox_id, self.locked_sandbox())
        &&& same_opt(row.sandbox.resource_uid, self.locked_resource())
        &&& same_opt(row.sandbox.assignment_epoch, self.locked_epoch())
    }

    /// Takes the lock for the sandbox that a sweep observed, only while the locked
    /// session row still names it.
    pub fn lock_sandbox_assignment_for_reconciliation(
        row: &Option<SessionRow>,
        sandbox_id: &String,
    ) -> (lock: Option<SandboxAssignmentReconciliationLock>)
        ensures
            match row {
                Some(session) if holds(session.sandbox.sandbox_id, sandbox_id@) => {
                    &&& lock matches Some(taken)
                    &&& taken.is_for(*session)
                    &&& taken.locked_sandbox() == sandbox_id@
                    &&& taken.locked_resource() == session.sandbox.resource_uid
                    &&& taken.locked_epoch() == session.sandbox.assignment_epoch
                    &&& taken.locked_trace_epoch() == session.sandbox.trace.assignment_epoch
                },
                _ => lock is None,
            },
            lock is Some <==> row is Some && row->0.sandbox.sandbox_id is Some
                && row->0.sandbox.sandbox_id->0@ == sandbox_id@,
            lock matches Some(taken) ==> taken.locked_thread() == row->0.thread_key@,
    {
        match row {
            None => None,
            Some(session) => {
                if !opt_text_is(&session.sandbox.sandbox_id, sandbox_id.as_str()) {
                    return None;
                }
                Some(
                    SandboxAssignmentReconciliationLock {
                        thread_key: session.thread_key.clone(),
                        sandbox_id: sandbox_id.clone(),
                        sandbox_resource_uid: copy_opt(&session.sandbox.resource_uid),
                        sandbox_assignment_epoch: copy_opt(&session.sandbox.assignment_epoch),
                        sandbox_metadata_trace_assignment_epoch: copy_opt(
                            &session.sandbox.trace.assignment_epoch,
                        ),
                    },
                )
            },
        }
    }

    /// The resource behind the sandbox, as far as it is known.
    pub fn resource_uid(&self) -> (uid: Option<&str>)
        ensures
            match uid {
                Some(text) => holds(self.locked_resource(), text@),
                None => self.locked_resource() is None,
            },
    {
        match &self.sandbox_resource_uid {
            Some(uid) => Some(uid.as_str()),
            None => None,
        }
    }

    /// The epoch of the assignment, as far as it is known.
    pub fn assignment_epoch(&self) -> (epoch: Option<&str>)
        ensures
            match epoch {
                Some(text) => holds(self.locked_epoch(), text@),
                None => self.locked_epoch() is None,
            },
    {
        match &self.sandbox_assignment_epoch {
            Some(epoch) => Some(epoch.as_str()),
            None => None,
        }
    }

    /// The trace assignment epoch identifies the trace capability boundary; it is
    /// distinct from the general assignment epoch that the lock compares.
    pub fn metadata_trace_assignment_epoch(&self) -> (epoch: Option<&str>)
        ensures
            match epoch {
                Some(text) => holds(self.locked_trace_epoch(), text@),
                None => self.locked_trace_epoch() is None,
            },
    {
        match &self.sandbox_metadata_trace_assignment_epoch {
            Some(epoch) => Some(epoch.as_str()),
            None => None,
        }
    }

    /// Fences an assignment from before identities were kept. The observed
    /// resource becomes durable before cleanup, so that a replacement under the
    /// same name can be told apart on the next attempt. An assignment that has its
    /// whole identity is left alone.
    pub fn initialize_legacy_identity(
        &mut self,
        row: &mut SessionRow,
        resource_uid: &String,
        fresh_epoch: &String,
        now: Timestamp,
    ) -> (initialized: bool)
        ensures
            initialized == (!(old(self).locked_resource() is Some
                && old(self).locked_epoch() is Some)
                && old(row).thread_key@ == old(self).locked_thread()
                && holds(old(row).sandbox.sandbox_id, old(self).locked_sandbox())),
            if initialized {
                &&& *final(row) == with_sandbox(
                    *old(row),
                    SandboxColumns {
                        resource_uid: Some(*resource_uid),
                        assignment_epoch: Some(*fresh_epoch),
                        ..old(row).sandbox
                    },
                    now,
                )
                &&& final(self).is_for(*final(row))
                &&& final(self).locked_thread() == old(self).locked_thread()
                &&& final(self).locked_sandbox() == old(self).locked_sandbox()
                &&& final(self).locked_resource() == Some(*resource_uid)
                &&& final(self).locked_epoch() == Some(*fresh_epoch)
                &&& final(self).locked_trace_epoch() == old(self).locked_trace_epoch()
            } else {
                *final(row) == *old(row) && *final(self) == *old(self)
            },
            old(self).locked_resource() is Some && old(self).locked_epoch() is Some
                ==> !initialized,
            initialized ==> final(row).sandbox.resource_uid == Some(*resource_uid)
                && final(row).sandbox.assignment_epoch == Some(*fresh_epoch)
                && final(row).sandbox.sandbox_id == old(row).sandbox.sandbox_id
                && final(row).sandbox.trace == old(row).sandbox.trace,
            initialized <==> (old(self).locked_resource() is None
                || old(self).locked_epoch() is None)
                && old(row).thread_key@ == old(self).locked_thread()
                    && old(row).sandbox.sandbox_id is Some
                && old(row).sandbox.sandbox_id->0@ == old(self).locked_sandbox(),
    {
        if self.sandbox_resource_uid.is_some() && self.sandbox_assignment_epoch.is_some() {
            return false;
        }
        if !same_text(row.thread_key.as_str(), self.thread_key.as_str()) || !opt_text_is(
            &row.sandbox.sandbox_id,
            self.sandbox_id.as_str(),
        ) {
            return false;
        }
        row.sandbox.resource_uid = Some(resource_uid.clone());
        row.sandbox.assignment_epoch = Some(fresh_epoch.clone());
        row.updated_at = now;
        self.sandbox_resource_uid = Some(resource_uid.clone());
        self.sandbox_assignment_epoch = Some(fresh_epoch.clone());
        true
    }

    /// Whether the session still has exactly the remembered assignment.
    pub fn is_current(&self, row: &SessionRow) -> (is: bool)
        ensures
            is == self.is_for(*row),
    {
        same_text(row.thread_key.as_str(), self.thread_key.as_str()) && opt_text_is(
            &row.sandbox.sandbox_id,
            self.sandbox_id.as_str(),
        ) && same_opt_text(&row.sandbox.resource_uid, &self.sandbox_resource_uid) && same_opt_text(
            &row.sandbox.assignment_epoch,
            &self.sandbox_assignment_epoch,
        )
    }

    /// Clears the assignment while it is the remembered one.
    pub fn clear(&self, row: &mut SessionRow, now: Timestamp) -> (cleared: bool)
        ensures
            cleared == self.is_for(*old(row)),
            *final(row) == if cleared {
                with_sandbox(*old(row), no_sandbox(), now)
            } else {
                *old(row)
            },
            cleared ==> final(row).sandbox.sandbox_id is None
                && final(row).sandbox.resource_uid is None
                && final(row).sandbox.assignment_epoch is None
                    && final(row).sandbox.trace.enabled is None
                && final(row).status == old(row).status,
            cleared ==> old(row).thread_key@ == self.locked_thread()
                && old(row).sandbox.sandbox_id is Some
                && old(row).sandbox.sandbox_id->0@ == self.locked_sandbox(),
    {
        if !self.is_current(row) {
            return false;
        }
        crate::assignment::clear_sandbox_id_if_matches(row, self.sandbox_id.as_str(), now)
    }

    /// Retires the remembered assignment while changing harnesses, so that a
    /// replacement cannot be cleared by a harness restart that completes late.
    pub fn switch_harness(
        &self,
        row: &mut SessionRow,
        harness_type: &HarnessType,
        now: Timestamp,
    ) -> (switched: bool)
        ensures
            switched == self.is_for(*old(row)),
            if switched {
                &&& final(row).status@ == SessionStatus::Idle.name()
                &&& *final(row) == on_harness(*old(row), *harness_type, final(row).status, now)
            } else {
                *final(row) == *old(row)
            },
            switched ==> final(row).status@ == "idle"@
                && final(row).harness_type == harness_type.name
                && final(row).harness_thread_id is None && final(row).sandbox.sandbox_id is None,
    {
        if !self.is_current(row) {
            return false;
        }
        switch_session_harness(row, harness_type, now);
        true
    }

    /// Whether the execution that scheduled an idle pause is still the latest one
    /// of the session, has ended at or before the cutoff, and has no active
    /// successor.
    pub fn is_idle_after_execution(
        &self,
        executions: &Vec<SessionExecutionRow>,
        execution_id: &str,
        cutoff: Timestamp,
    ) -> (idle: bool)
        ensures
            idle == idle_after(executions@, self.locked_thread(), execution_id@, cutoff),
    {
        let k: usize = match latest_position(executions, self.thread_key.as_str(), false) {
            None => {
                return false;
            },
            Some(k) => k,
        };
        let latest = &executions[k];
        let ended = match latest.completed_at {
            Some(completed_at) => completed_at <= cutoff,
            None => false,
        };
        ended && same_text(latest.execution_id.as_str(), execution_id) && is_finished(
            latest.status.as_str(),
        ) && latest_position(executions, self.thread_key.as_str(), true).is_none()
    }

    /// Whether a candidate for capacity is still assigned, was last active at or
    /// before the cutoff, and has no active execution.
    pub fn is_idle_without_active_execution(
        &self,
        row: &SessionRow,
        executions: &Vec<SessionExecutionRow>,
        cutoff: Timestamp,
    ) -> (idle: bool)
        ensures
            idle == (row.thread_key@ == self.locked_thread() && holds(
                row.sandbox.sandbox_id,
                self.locked_sandbox(),
            ) && (row.sandbox.last_active_at matches Some(at) && at <= cutoff) && !any_counts(
                executions@,
                self.locked_thread(),
                true,
            )),
            idle ==> forall|i: int|
                0 <= i < executions@.len()
                    && (#[trigger] executions@[i]).thread_key@ == row.thread_key@
                    ==> executions@[i].status@ != "queued"@ && executions@[i].status@ != "running"@,
            idle ==> row.sandbox.last_active_at is Some && row.sandbox.last_active_at->0 <= cutoff,
            row.thread_key@ == self.locked_thread() && row.sandbox.sandbox_id is Some
                && row.sandbox.sandbox_id->0@ == self.locked_sandbox()
                    && row.sandbox.last_active_at is Some
                && row.sandbox.last_active_at->0 <= cutoff && !is_busy(executions@, row.thread_key@)
                ==> idle,
    {
        proof {
            law_busy_threads(executions@, row.thread_key@);
        }
        let quiet = match row.sandbox.last_active_at {
            Some(at) => at <= cutoff,
            None => false,
        };
        quiet && same_text(row.thread_key.as_str(), self.thread_key.as_str()) && opt_text_is(
            &row.sandbox.sandbox_id,
            self.sandbox_id.as_str(),
        ) && latest_position(executions, self.thread_key.as_str(), true).is_none()
    }
}

/// The given execution is the latest of the thread, has ended by the cutoff, and
/// nothing of the thread is active.
pub open spec fn idle_after(
    executions: Seq<SessionExecutionRow>,
    thread: Seq<char>,
    execution_id: Seq<char>,
    cutoff: Timestamp,
) -> bool {
    &&& latest_execution(executions, thread, false) matches Some(latest)
    &&& latest.execution_id@ == execution_id
    &&& finished(latest.status@)
    &&& latest.completed_at matches Some(at) && at <= cutoff
    &&& !any_counts(executions, thread, true)
}

} // verus!
