//! The rows of the store's tables, column by column, and what each reads as.
//!
//! A row keeps the text of its enumerated columns, so that a rule can be asked of
//! any persisted text. Reading a row into the caller's terms parses those texts;
//! what the parsers said is handed in beside the row.
use crate::error::{parse_persisted, SessionStoreError};
use crate::json::{document_items, json_items};
use crate::model::{
    ExecutionStatus, HarnessType, MessageRole, ProxyLabels, SandboxCapabilities,
    SandboxRepoCacheAccess, Session, SessionEvent, SessionExecution, SessionMessage, SessionStatus,
    ThreadKey, Timestamp,
};
use serde_json::Value;
use vstd::prelude::*;

verus! {

/// The trace boundary of a sandbox assignment.
#[derive(Clone, Debug)]
pub struct TraceColumns {
    pub enabled: Option<bool>,
    pub expires_at: Option<Timestamp>,
    pub subject_hash: Option<String>,
    pub source: Option<String>,
    pub workspace_id: Option<String>,
    pub user_id: Option<String>,
    pub consent_revision: Option<i64>,
    pub config_fingerprint: Option<String>,
    pub config_generation: Option<i64>,
    pub resource_uid: Option<String>,
    pub assignment_epoch: Option<String>,
}

/// The sandbox assignment of a session.
#[derive(Clone, Debug)]
pub struct SandboxColumns {
    pub sandbox_id: Option<String>,
    pub resource_uid: Option<String>,
    pub assignment_epoch: Option<String>,
    pub repo_cache_enabled: Option<bool>,
    pub repo_cache_access: Option<String>,
    pub observability_enabled: Option<bool>,
    pub api_server_enabled: Option<bool>,
    pub trace: TraceColumns,
    pub last_active_at: Option<Timestamp>,
}

/// A row of `sessions`.
#[derive(Clone, Debug)]
pub struct SessionRow {
    pub thread_key: String,
    pub title: Option<String>,
    pub sandbox: SandboxColumns,
    pub harness_type: String,
    pub harness_thread_id: Option<String>,
    pub persona_id: Option<String>,
    pub status: String,
    pub iron_control_principal: Option<String>,
    pub proxy_labels: ProxyLabels,
    pub created_at: Timestamp,
    pub updated_at: Timestamp,
}

/// A row of `session_executions`.
#[derive(Clone, Debug)]
pub struct SessionExecutionRow {
    pub execution_id: String,
    pub idempotency_key: Option<String>,
    pub thread_key: String,
    pub status: String,
    pub metadata: Value,
    pub error: Option<String>,
    pub created_at: Timestamp,
    pub updated_at: Timestamp,
    pub started_at: Option<Timestamp>,
    pub completed_at: Option<Timestamp>,
    pub stdout_owner_id: Option<String>,
    pub stdout_owner_lease_expires_at: Option<Timestamp>,
}

/// A row of `session_input_deliveries`.
#[derive(Clone, Debug)]
pub struct SessionInputDeliveryRow {
    pub delivery_id: String,
    pub thread_key: String,
    pub execution_id: String,
    pub sequence: i64,
    pub idempotency_key: String,
    pub message_ids: Value,
    pub input_lines: Value,
    pub input_sha256: String,
    pub input_line_count: i32,
    pub boundary_fingerprint: String,
    pub state: String,
    pub owner_id: Option<String>,
    pub owner_generation: i64,
    pub owner_lease_expires_at: Option<Timestamp>,
    pub sandbox_id: Option<String>,
    pub sandbox_resource_uid: Option<String>,
    pub sandbox_assignment_epoch: Option<String>,
    pub attempts: i32,
    pub last_error: Option<String>,
    pub created_at: Timestamp,
    pub claimed_at: Option<Timestamp>,
    pub flushed_at: Option<Timestamp>,
    pub failed_at: Option<Timestamp>,
    pub updated_at: Timestamp,
}

/// A row of `session_messages`.
#[derive(Clone, Debug)]
pub struct SessionMessageRow {
    pub message_id: String,
    pub client_message_id: Option<String>,
    pub thread_key: String,
    pub role: String,
    pub parts: Value,
    pub metadata: Value,
    pub created_at: Timestamp,
}

/// A row of `session_events`.
#[derive(Clone, Debug)]
pub struct SessionEventRow {
    pub event_id: i64,
    pub thread_key: String,
    pub execution_id: Option<String>,
    pub event_type: String,
    pub payload: Value,
    pub created_at: Timestamp,
}

/// An event to be inserted.
#[derive(Clone, Debug)]
pub struct NewSessionEvent {
    pub thread_key: String,
    pub execution_id: Option<String>,
    pub event_type: String,
    pub payload: Value,
}

/// An execution to be inserted.
#[derive(Clone, Debug)]
pub struct NewSessionExecution {
    pub execution_id: String,
    pub thread_key: String,
    pub idempotency_key: Option<String>,
    pub status: String,
    pub metadata: Value,
}

/// What the parsers said of a session row: of its key, harness and status, of
/// the persisted repository-cache access (absent, or unknown, is `None`), and
/// the access that the older enabled flag stands for.
#[derive(Debug)]
pub struct SessionRowParses {
    pub thread_key: Result<ThreadKey, String>,
    pub harness_type: Result<HarnessType, String>,
    pub status: Result<SessionStatus, String>,
    pub repo_cache_access: Option<SandboxRepoCacheAccess>,
    pub legacy_repo_cache_access: SandboxRepoCacheAccess,
}

/// What the parsers said of an execution row.
#[derive(Debug)]
pub struct SessionExecutionRowParses {
    pub thread_key: Result<ThreadKey, String>,
    pub status: Result<ExecutionStatus, String>,
}

/// What the parsers said of a message row.
#[derive(Debug)]
pub struct SessionMessageRowParses {
    pub thread_key: Result<ThreadKey, String>,
    pub role: Result<MessageRole, String>,
}

/// The trace columns of an enabled boundary only; all absent otherwise.
pub open spec fn capabilities_read(
    sandbox: SandboxColumns,
    parses: SessionRowParses,
) -> Option<SandboxCapabilities> {
    match (sandbox.repo_cache_enabled, sandbox.observability_enabled, sandbox.api_server_enabled) {
        (Some(_), Some(observability_enabled), Some(api_server_enabled)) => {
            let trace = sandbox.trace.enabled == Some(true);
            Some(
                SandboxCapabilities {
                    repo_cache: match parses.repo_cache_access {
                        Some(access) => access,
                        None => parses.legacy_repo_cache_access,
                    },
                    observability_enabled,
                    api_server_enabled,
                    metadata_trace_enabled: trace,
                    metadata_trace_expires_at: if trace {
                        sandbox.trace.expires_at
                    } else {
                        None
                    },
                    metadata_trace_subject_hash: if trace {
                        sandbox.trace.subject_hash
                    } else {
                        None
                    },
                    metadata_trace_consent_revision: if trace {
                        sandbox.trace.consent_revision
                    } else {
                        None
                    },
                    metadata_trace_config_fingerprint: if trace {
                        sandbox.trace.config_fingerprint
                    } else {
                        None
                    },
                    metadata_trace_config_generation: if trace {
                        sandbox.trace.config_generation
                    } else {
                        None
                    },
                },
            )
        },
        _ => None,
    }
}

/// What a session row reads as: the first text that its parser refused, in the
/// order key, harness, status; or the session.
pub open spec fn session_read(
    row: SessionRow,
    parses: SessionRowParses,
) -> Result<Session, SessionStoreError> {
    match (parses.thread_key, parses.harness_type, parses.status) {
        (Err(words), _, _) => Err(SessionStoreError::InvalidPersistedValue(words)),
        (_, Err(words), _) => Err(SessionStoreError::InvalidPersistedValue(words)),
        (_, _, Err(words)) => Err(SessionStoreError::InvalidPersistedValue(words)),
        (Ok(thread_key), Ok(harness_type), Ok(status)) => Ok(
            Session {
                thread_key,
                title: row.title,
                sandbox_id: row.sandbox.sandbox_id,
                sandbox_capabilities: capabilities_read(row.sandbox, parses),
                harness_type,
                harness_thread_id: row.harness_thread_id,
                persona_id: row.persona_id,
                status,
                iron_control_principal: row.iron_control_principal,
                proxy_labels: row.proxy_labels,
                sandbox_last_active_at: row.sandbox.last_active_at,
                created_at: row.created_at,
                updated_at: row.updated_at,
            },
        ),
    }
}

/// Reads a session row.
pub fn session_from_row(row: SessionRow, parses: SessionRowParses) -> (session: Result<
    Session,
    SessionStoreError,
>)
    ensures
        session == session_read(row, parses),
{
    let thread_key = match parse_persisted(parses.thread_key) {
        Ok(thread_key) => thread_key,
        Err(error) => return Err(error),
    };
    let trace = row.sandbox.trace.enabled == Some(true);
    let sandbox_capabilities = match (
        row.sandbox.repo_cache_enabled,
        row.sandbox.observability_enabled,
        row.sandbox.api_server_enabled,
    ) {
        (Some(_), Some(observability_enabled), Some(api_server_enabled)) => Some(
            SandboxCapabilities {
                repo_cache: match parses.repo_cache_access {
                    Some(access) => access,
                    None => parses.legacy_repo_cache_access,
                },
                observability_enabled,
                api_server_enabled,
                metadata_trace_enabled: trace,
                metadata_trace_expires_at: if trace {
                    row.sandbox.trace.expires_at
                } else {
                    None
                },
                metadata_trace_subject_hash: if trace {
                    row.sandbox.trace.subject_hash
                } else {
                    None
                },
                metadata_trace_consent_revision: if trace {
                    row.sandbox.trace.consent_revision
                } else {
                    None
                },
                metadata_trace_config_fingerprint: if trace {
                    row.sandbox.trace.config_fingerprint
                } else {
                    None
                },
                metadata_trace_config_generation: if trace {
                    row.sandbox.trace.config_generation
                } else {
                    None
                },
            },
        ),
        _ => None,
    };
    let harness_type = match parse_persisted(parses.harness_type) {
        Ok(harness_type) => harness_type,
        Err(error) => return Err(error),
    };
    let status = match parse_persisted(parses.status) {
        Ok(status) => status,
        Err(error) => return Err(error),
    };
    Ok(
        Session {
            thread_key,
            title: row.title,
            sandbox_id: row.sandbox.sandbox_id,
            sandbox_capabilities,
            harness_type,
            harness_thread_id: row.harness_thread_id,
            persona_id: row.persona_id,
            status,
            iron_control_principal: row.iron_control_principal,
            proxy_labels: row.proxy_labels,
            sandbox_last_active_at: row.sandbox.last_active_at,
            created_at: row.created_at,
            updated_at: row.updated_at,
        },
    )
}

/// What an execution row reads as: the first refused text, in the order key,
/// status; or the execution.
pub open spec fn execution_read(
    row: SessionExecutionRow,
    parses: SessionExecutionRowParses,
) -> Result<SessionExecution, SessionStoreError> {
    match (parses.thread_key, parses.status) {
        (Err(words), _) => Err(SessionStoreError::InvalidPersistedValue(words)),
        (_, Err(words)) => Err(SessionStoreError::InvalidPersistedValue(words)),
        (Ok(thread_key), Ok(status)) => Ok(
            SessionExecution {
                execution_id: row.execution_id,
                idempotency_key: row.idempotency_key,
                thread_key,
                status,
                metadata: row.metadata,
                error: row.error,
                created_at: row.created_at,
                updated_at: row.updated_at,
                started_at: row.started_at,
                completed_at: row.completed_at,
            },
        ),
    }
}

/// Reads an execution row.
pub fn execution_from_row(
    row: SessionExecutionRow,
    parses: SessionExecutionRowParses,
) -> (execution: Result<SessionExecution, SessionStoreError>)
    ensures
        execution == execution_read(row, parses),
{
    let thread_key = match parse_persisted(parses.thread_key) {
        Ok(thread_key) => thread_key,
        Err(error) => return Err(error),
    };
    let status = match parse_persisted(parses.status) {
        Ok(status) => status,
        Err(error) => return Err(error),
    };
    Ok(
        SessionExecution {
            execution_id: row.execution_id,
            idempotency_key: row.idempotency_key,
            thread_key,
            status,
            metadata: row.metadata,
            error: row.error,
            created_at: row.created_at,
            updated_at: row.updated_at,
            started_at: row.started_at,
            completed_at: row.completed_at,
        },
    )
}

/// The parts of a message document: the items of an array, or the document as
/// its only part.
pub fn message_parts(parts: Value) -> (items: Vec<Value>)
    ensures
        items@ == json_items(parts),
{
    document_items(parts)
}

/// What a message row reads as: the first refused text, in the order key, role; or
/// the message, whose parts are the items of the persisted document.
pub open spec fn message_read(
    message: Result<SessionMessage, SessionStoreError>,
    row: SessionMessageRow,
    parses: SessionMessageRowParses,
) -> bool {
    match (parses.thread_key, parses.role) {
        (Err(words), _) => message == Err::<SessionMessage, SessionStoreError>(
            SessionStoreError::InvalidPersistedValue(words),
        ),
        (_, Err(words)) => message == Err::<SessionMessage, SessionStoreError>(
            SessionStoreError::InvalidPersistedValue(words),
        ),
        (Ok(thread_key), Ok(role)) => {
            &&& message matches Ok(read)
            &&& read.parts@ == json_items(row.parts)
            &&& read == (SessionMessage {
                message_id: row.message_id,
                client_message_id: row.client_message_id,
                thread_key,
                role,
                parts: read.parts,
                metadata: row.metadata,
                created_at: row.created_at,
            })
        },
    }
}

/// Reads a message row.
pub fn message_from_row(
    row: SessionMessageRow,
    parses: SessionMessageRowParses,
) -> (message: Result<SessionMessage, SessionStoreError>)
    ensures
        message_read(message, row, parses),
{
    let parts = message_parts(row.parts);
    let thread_key = match parse_persisted(parses.thread_key) {
        Ok(thread_key) => thread_key,
        Err(error) => return Err(error),
    };
    let role = match parse_persisted(parses.role) {
        Ok(role) => role,
        Err(error) => return Err(error),
    };
    Ok(
        SessionMessage {
            message_id: row.message_id,
            client_message_id: row.client_message_id,
            thread_key,
            role,
            parts,
            metadata: row.metadata,
            created_at: row.created_at,
        },
    )
}

/// What an event row reads as: the event, or the refusal of its key.
pub open spec fn event_read(
    row: SessionEventRow,
    thread_key: Result<ThreadKey, String>,
) -> Result<SessionEvent, SessionStoreError> {
    match thread_key {
        Err(words) => Err(SessionStoreError::InvalidPersistedValue(words)),
        Ok(key) => Ok(
            SessionEvent {
                event_id: row.event_id,
                thread_key: key,
                execution_id: row.execution_id,
                event_type: row.event_type,
                payload: row.payload,
                created_at: row.created_at,
            },
        ),
    }
}

/// Reads an event row, whose key the parser has seen.
pub fn event_from_row(row: SessionEventRow, thread_key: Result<ThreadKey, String>) -> (event: Result<
    SessionEvent,
    SessionStoreError,
>)
    ensures
        event == event_read(row, thread_key),
{
    match parse_persisted(thread_key) {
        Err(error) => Err(error),
        Ok(key) => Ok(
            SessionEvent {
                event_id: row.event_id,
                thread_key: key,
                execution_id: row.execution_id,
                event_type: row.event_type,
                payload: row.payload,
                created_at: row.created_at,
            },
        ),
    }
}

} // verus!
