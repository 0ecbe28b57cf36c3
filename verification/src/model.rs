//! The values that sessions, executions, messages and events are made of, as
//! callers see them once a row has been read.
//!
//! Instants are nanoseconds from the Unix epoch. The texts inside [`ThreadKey`],
//! [`HarnessType`] and [`MessageRole`] are the persisted names; what names are
//! valid is decided where they are parsed.
use serde_json::Value;
use vstd::prelude::*;

verus! {

/// An instant, in nanoseconds from the Unix epoch.
pub type Timestamp = i128;

/// The two clocks that a transaction reads: `now` stands still from its start,
/// `wall` is the time at which the statement runs.
#[derive(Clone, Copy, Debug, PartialEq, Eq)]
pub struct Clock {
    pub now: Timestamp,
    pub wall: Timestamp,
}

/// The key of the conversation that a session belongs to.
#[derive(Clone, Debug, PartialEq, Eq)]
pub struct ThreadKey {
    pub value: String,
}

impl ThreadKey {
    /// The text of the key.
    pub fn as_str(&self) -> (text: &str)
        ensures
            text@ == self.value@,
    {
        self.value.as_str()
    }
}

/// The harness that drives a session, by its persisted name.
#[derive(Clone, Debug, PartialEq, Eq)]
pub struct HarnessType {
    pub name: String,
}

impl HarnessType {
    /// The persisted name.
    pub fn as_ref(&self) -> (text: &str)
        ensures
            text@ == self.name@,
    {
        self.name.as_str()
    }
}

/// The author of a message, by its persisted name.
#[derive(Clone, Debug, PartialEq, Eq)]
pub struct MessageRole {
    pub name: String,
}

impl MessageRole {
    /// The persisted name.
    pub fn as_ref(&self) -> (text: &str)
        ensures
            text@ == self.name@,
    {
        self.name.as_str()
    }
}

/// Where an execution stands.
#[derive(Clone, Copy, Debug, PartialEq, Eq, Structural)]
pub enum ExecutionStatus {
    Queued,
    Running,
    Completed,
    Failed,
    Cancelled,
}

impl ExecutionStatus {
    /// The persisted name of the status.
    pub open spec fn name(self) -> Seq<char> {
        match self {
            ExecutionStatus::Queued => "queued"@,
            ExecutionStatus::Running => "running"@,
            ExecutionStatus::Completed => "completed"@,
            ExecutionStatus::Failed => "failed"@,
            ExecutionStatus::Cancelled => "cancelled"@,
        }
    }

    /// The persisted name of the status.
    pub fn as_ref(&self) -> (text: &'static str)
        ensures
            text@ == self.name(),
    {
        match self {
            ExecutionStatus::Queued => "queued",
            ExecutionStatus::Running => "running",
            ExecutionStatus::Completed => "completed",
            ExecutionStatus::Failed => "failed",
            ExecutionStatus::Cancelled => "cancelled",
        }
    }
}

/// What a session is doing.
#[derive(Clone, Copy, Debug, PartialEq, Eq, Structural)]
pub enum SessionStatus {
    Idle,
    Executing,
    Failed,
}

impl SessionStatus {
    /// The persisted name of the status.
    pub open spec fn name(self) -> Seq<char> {
        match self {
            SessionStatus::Idle => "idle"@,
            SessionStatus::Executing => "executing"@,
            SessionStatus::Failed => "failed"@,
        }
    }

    /// The persisted name of the status.
    pub fn as_ref(&self) -> (text: &'static str)
        ensures
            text@ == self.name(),
    {
        match self {
            SessionStatus::Idle => "idle",
            SessionStatus::Executing => "executing",
            SessionStatus::Failed => "failed",
        }
    }
}

/// How much of the repository cache a sandbox may use: the persisted name of the
/// access, and whether that access enables the cache at all.
#[derive(Clone, Debug, PartialEq, Eq)]
pub struct SandboxRepoCacheAccess {
    pub name: String,
    pub enabled: bool,
}

/// What a sandbox was started with.
#[derive(Clone, Debug, PartialEq, Eq)]
pub struct SandboxCapabilities {
    pub repo_cache: SandboxRepoCacheAccess,
    pub observability_enabled: bool,
    pub api_server_enabled: bool,
    pub metadata_trace_enabled: bool,
    pub metadata_trace_expires_at: Option<Timestamp>,
    pub metadata_trace_subject_hash: Option<String>,
    pub metadata_trace_consent_revision: Option<i64>,
    pub metadata_trace_config_fingerprint: Option<String>,
    pub metadata_trace_config_generation: Option<i64>,
}

/// The labels under which a session's proxy traffic is accounted, key and value.
#[derive(Clone, Debug, PartialEq, Eq)]
pub struct ProxyLabels {
    pub entries: Vec<(String, String)>,
}

impl ProxyLabels {
    /// Copies the labels.
    pub fn copy(&self) -> (copy: ProxyLabels)
        ensures
            copy.entries@ == self.entries@,
    {
        let mut entries: Vec<(String, String)> = Vec::new();
        let mut i: usize = 0;
        while i < self.entries.len()
            invariant
                i <= self.entries.len(),
                entries@ == self.entries@.take(i as int),
            decreases self.entries.len() - i,
        {
            let entry = &self.entries[i];
            entries.push((entry.0.clone(), entry.1.clone()));
            i += 1;
            assert(self.entries@.take(i as int) =~= self.entries@.take(i - 1).push(
                self.entries@[i - 1],
            ));
        }
        assert(self.entries@.take(i as int) =~= self.entries@);
        ProxyLabels { entries }
    }

    /// Each key has one value.
    pub open spec fn well_formed(self) -> bool {
        forall|i: int, j: int|
            0 <= i < j < self.entries@.len() ==> (#[trigger] self.entries@[i]).0@ != (
            #[trigger] self.entries@[j]).0@
    }
}

/// A session.
#[derive(Clone, Debug, PartialEq, Eq)]
pub struct Session {
    pub thread_key: ThreadKey,
    pub title: Option<String>,
    pub sandbox_id: Option<String>,
    pub sandbox_capabilities: Option<SandboxCapabilities>,
    pub harness_type: HarnessType,
    pub harness_thread_id: Option<String>,
    pub persona_id: Option<String>,
    pub status: SessionStatus,
    pub iron_control_principal: Option<String>,
    pub proxy_labels: ProxyLabels,
    pub sandbox_last_active_at: Option<Timestamp>,
    pub created_at: Timestamp,
    pub updated_at: Timestamp,
}

/// An execution of a session.
#[derive(Clone, Debug, PartialEq, Eq)]
pub struct SessionExecution {
    pub execution_id: String,
    pub idempotency_key: Option<String>,
    pub thread_key: ThreadKey,
    pub status: ExecutionStatus,
    pub metadata: Value,
    pub error: Option<String>,
    pub created_at: Timestamp,
    pub updated_at: Timestamp,
    pub started_at: Option<Timestamp>,
    pub completed_at: Option<Timestamp>,
}

/// A message to be stored.
#[derive(Clone, Debug, PartialEq, Eq)]
pub struct SessionMessageInput {
    pub client_message_id: Option<String>,
    pub role: MessageRole,
    pub parts: Vec<Value>,
    pub metadata: Value,
}

/// A stored message.
#[derive(Clone, Debug, PartialEq, Eq)]
pub struct SessionMessage {
    pub message_id: String,
    pub client_message_id: Option<String>,
    pub thread_key: ThreadKey,
    pub role: MessageRole,
    pub parts: Vec<Value>,
    pub metadata: Value,
    pub created_at: Timestamp,
}

/// An event of a session.
#[derive(Clone, Debug, PartialEq, Eq)]
pub struct SessionEvent {
    pub event_id: i64,
    pub thread_key: ThreadKey,
    pub execution_id: Option<String>,
    pub event_type: String,
    pub payload: Value,
    pub created_at: Timestamp,
}

} // verus!
