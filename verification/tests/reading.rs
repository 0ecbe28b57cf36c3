use centaur_session_sqlx::delivery::{delivery_from_row, InputDeliveryState};
use centaur_session_sqlx::error::{parse_persisted, SessionStoreError};
use centaur_session_sqlx::json::default_metadata;
use centaur_session_sqlx::listing::{list_events_after, list_messages};
use centaur_session_sqlx::messages::{
    append_messages, new_session_message, persist_prepared_messages, title_generation_candidate,
    PersistedPreparedMessageRow, PreparedSessionMessage,
};
use centaur_session_sqlx::model::{
    ExecutionStatus, HarnessType, MessageRole, ProxyLabels, SandboxRepoCacheAccess,
    SessionMessageInput, SessionStatus, ThreadKey,
};
use centaur_session_sqlx::notification::{
    receive_notification, SessionEventNotification, SESSION_EVENTS_CHANNEL,
};
use centaur_session_sqlx::rows::{
    event_from_row, execution_from_row, message_from_row, session_from_row, SandboxColumns,
    SessionEventRow, SessionExecutionRow, SessionExecutionRowParses, SessionInputDeliveryRow,
    SessionMessageRow, SessionMessageRowParses, SessionRow, SessionRowParses, TraceColumns,
};
use serde_json::Value;

fn key(text: &str) -> ThreadKey {
    ThreadKey { value: text.to_owned() }
}

fn json(text: &str) -> Value {
    serde_json::from_str(text).unwrap()
}

fn access(name: &str, enabled: bool) -> SandboxRepoCacheAccess {
    SandboxRepoCacheAccess { name: name.to_owned(), enabled }
}

fn no_trace() -> TraceColumns {
    TraceColumns {
        enabled: None,
        expires_at: None,
        subject_hash: None,
        source: None,
        workspace_id: None,
        user_id: None,
        consent_revision: None,
        config_fingerprint: None,
        config_generation: None,
        resource_uid: None,
        assignment_epoch: None,
    }
}

fn legacy_session() -> SessionRow {
    SessionRow {
        thread_key: "test:legacy-trace-columns".to_owned(),
        title: None,
        sandbox: SandboxColumns {
            sandbox_id: Some("sbx-legacy".to_owned()),
            resource_uid: None,
            assignment_epoch: None,
            repo_cache_enabled: Some(true),
            repo_cache_access: Some("all".to_owned()),
            observability_enabled: Some(true),
            api_server_enabled: Some(true),
            trace: no_trace(),
            last_active_at: None,
        },
        harness_type: "codex".to_owned(),
        harness_thread_id: None,
        persona_id: None,
        status: "idle".to_owned(),
        iron_control_principal: None,
        proxy_labels: ProxyLabels { entries: vec![] },
        created_at: 1_000,
        updated_at: 1_000,
    }
}

fn legacy_parses() -> SessionRowParses {
    SessionRowParses {
        thread_key: Ok(key("test:legacy-trace-columns")),
        harness_type: Ok(HarnessType { name: "codex".to_owned() }),
        status: Ok(SessionStatus::Idle),
        repo_cache_access: Some(access("all", true)),
        legacy_repo_cache_access: access("legacy", true),
    }
}

#[test]
fn null_trace_columns_decode_as_pre_trace_capabilities_without_backfill() {
    let session = session_from_row(legacy_session(), legacy_parses()).expect("decode legacy row");
    assert!(!session.sandbox_capabilities.unwrap().metadata_trace_enabled);
}

#[test]
fn session_row_reads_column_by_column() {
    let mut row = legacy_session();
    row.title = Some("A title".to_owned());
    row.sandbox.trace.enabled = Some(true);
    row.sandbox.trace.expires_at = Some(77);
    row.sandbox.trace.consent_revision = Some(5);
    let session = session_from_row(row, legacy_parses()).unwrap();
    assert_eq!(session.title.as_deref(), Some("A title"));
    assert_eq!(session.sandbox_id.as_deref(), Some("sbx-legacy"));
    let capabilities = session.sandbox_capabilities.unwrap();
    assert_eq!(capabilities.repo_cache, access("all", true));
    assert!(capabilities.metadata_trace_enabled);
    assert_eq!(capabilities.metadata_trace_expires_at, Some(77));
    assert_eq!(capabilities.metadata_trace_consent_revision, Some(5));
}

#[test]
fn disabled_trace_hides_leftover_columns_and_unknown_access_falls_back() {
    let mut row = legacy_session();
    row.sandbox.trace.enabled = Some(false);
    row.sandbox.trace.expires_at = Some(77);
    let mut parses = legacy_parses();
    parses.repo_cache_access = None;
    let capabilities = session_from_row(row, parses).unwrap().sandbox_capabilities.unwrap();
    assert_eq!(capabilities.metadata_trace_expires_at, None);
    assert_eq!(capabilities.repo_cache, access("legacy", true));
}

#[test]
fn session_without_capability_columns_has_none() {
    let mut row = legacy_session();
    row.sandbox.observability_enabled = None;
    assert!(session_from_row(row, legacy_parses()).unwrap().sandbox_capabilities.is_none());
}

#[test]
fn first_refused_column_of_a_session_is_reported() {
    let mut parses = legacy_parses();
    parses.harness_type = Err("no such harness".to_owned());
    parses.status = Err("no such status".to_owned());
    assert!(matches!(
        session_from_row(legacy_session(), parses),
        Err(SessionStoreError::InvalidPersistedValue(words)) if words == "no such harness"
    ));
}

#[test]
fn parse_refusal_keeps_its_words() {
    assert_eq!(parse_persisted::<i64>(Ok(3)).unwrap(), 3);
    assert!(matches!(
        parse_persisted::<i64>(Err("words".to_owned())),
        Err(SessionStoreError::InvalidPersistedValue(words)) if words == "words"
    ));
}

fn execution_row() -> SessionExecutionRow {
    SessionExecutionRow {
        execution_id: "exe-1".to_owned(),
        idempotency_key: Some("key".to_owned()),
        thread_key: "test:thread".to_owned(),
        status: "running".to_owned(),
        metadata: json("{\"a\":1}"),
        error: None,
        created_at: 1,
        updated_at: 2,
        started_at: Some(3),
        completed_at: None,
        stdout_owner_id: None,
        stdout_owner_lease_expires_at: None,
    }
}

#[test]
fn execution_row_reads_and_refuses() {
    let execution = execution_from_row(
        execution_row(),
        SessionExecutionRowParses {
            thread_key: Ok(key("test:thread")),
            status: Ok(ExecutionStatus::Running),
        },
    )
    .unwrap();
    assert_eq!(execution.execution_id, "exe-1");
    assert_eq!(execution.status, ExecutionStatus::Running);
    assert_eq!(execution.metadata, json("{\"a\":1}"));
    assert_eq!(execution.started_at, Some(3));
    assert!(matches!(
        execution_from_row(
            execution_row(),
            SessionExecutionRowParses {
                thread_key: Ok(key("test:thread")),
                status: Err("odd".to_owned()),
            },
        ),
        Err(SessionStoreError::InvalidPersistedValue(words)) if words == "odd"
    ));
}

fn delivery_row(message_ids: &str, input_lines: &str, state: &str) -> SessionInputDeliveryRow {
    SessionInputDeliveryRow {
        delivery_id: "dly-1".to_owned(),
        thread_key: "test:thread".to_owned(),
        execution_id: "exe-1".to_owned(),
        sequence: 4,
        idempotency_key: "delivery-key".to_owned(),
        message_ids: json(message_ids),
        input_lines: json(input_lines),
        input_sha256: "digest".to_owned(),
        input_line_count: 2,
        boundary_fingerprint: "boundary".to_owned(),
        state: state.to_owned(),
        owner_id: None,
        owner_generation: 7,
        owner_lease_expires_at: None,
        sandbox_id: None,
        sandbox_resource_uid: None,
        sandbox_assignment_epoch: None,
        attempts: 1,
        last_error: None,
        created_at: 1,
        claimed_at: None,
        flushed_at: None,
        failed_at: None,
        updated_at: 2,
    }
}

#[test]
fn delivery_row_reads_its_lists_and_state() {
    let delivery = delivery_from_row(
        delivery_row("[\"m1\",\"m2\"]", "[\"one\"]", "ambiguous"),
        Ok(key("test:thread")),
    )
    .unwrap();
    assert_eq!(delivery.message_ids, vec!["m1".to_owned(), "m2".to_owned()]);
    assert_eq!(delivery.input_lines, vec!["one".to_owned()]);
    assert_eq!(delivery.state, InputDeliveryState::Ambiguous);
    assert_eq!(delivery.owner_generation, 7);
}

#[test]
fn delivery_row_refusals_come_in_order() {
    let refusal = |row, thread_key| match delivery_from_row(row, thread_key) {
        Err(SessionStoreError::InvalidPersistedValue(words)) => words,
        other => panic!("expected a refusal, got {other:?}"),
    };
    assert_eq!(
        refusal(delivery_row("1", "2", "odd"), Err("bad key".to_owned())),
        "bad key"
    );
    assert_eq!(
        refusal(delivery_row("1", "2", "odd"), Ok(key("t"))),
        "invalid type: integer `1`, expected a sequence"
    );
    assert_eq!(
        refusal(delivery_row("[]", "[3]", "odd"), Ok(key("t"))),
        "invalid type: integer `3`, expected a string"
    );
    assert_eq!(
        refusal(delivery_row("[]", "[]", "odd"), Ok(key("t"))),
        "invalid persisted value: odd"
    );
}

#[test]
fn delivery_state_names_round_trip() {
    for (state, name) in [
        (InputDeliveryState::Pending, "pending"),
        (InputDeliveryState::Claimed, "claimed"),
        (InputDeliveryState::Ambiguous, "ambiguous"),
        (InputDeliveryState::Flushed, "flushed"),
        (InputDeliveryState::Failed, "failed"),
    ] {
        assert_eq!(state.as_ref(), name);
        assert_eq!(InputDeliveryState::from_str(name).unwrap(), state);
    }
    assert!(matches!(
        InputDeliveryState::from_str("Pending"),
        Err(SessionStoreError::InvalidPersistedValue(text)) if text == "Pending"
    ));
}

fn message_row(parts: &str) -> SessionMessageRow {
    SessionMessageRow {
        message_id: "msg-1".to_owned(),
        client_message_id: None,
        thread_key: "test:thread".to_owned(),
        role: "user".to_owned(),
        parts: json(parts),
        metadata: json("{}"),
        created_at: 1,
    }
}

fn message_parses() -> SessionMessageRowParses {
    SessionMessageRowParses {
        thread_key: Ok(key("test:thread")),
        role: Ok(MessageRole { name: "user".to_owned() }),
    }
}

#[test]
fn message_parts_are_the_items_or_the_document() {
    let list = message_from_row(message_row("[1,\"two\"]"), message_parses()).unwrap();
    assert_eq!(list.parts, vec![json("1"), json("\"two\"")]);
    let single = message_from_row(message_row("{\"type\":\"text\"}"), message_parses()).unwrap();
    assert_eq!(single.parts, vec![json("{\"type\":\"text\"}")]);
}

#[test]
fn message_row_refusal_is_reported() {
    let mut parses = message_parses();
    parses.role = Err("no role".to_owned());
    assert!(matches!(
        message_from_row(message_row("[]"), parses),
        Err(SessionStoreError::InvalidPersistedValue(words)) if words == "no role"
    ));
}

#[test]
fn event_row_reads_and_refuses() {
    let row = || SessionEventRow {
        event_id: 9,
        thread_key: "test:thread".to_owned(),
        execution_id: Some("exe-1".to_owned()),
        event_type: "session.sandbox_ready".to_owned(),
        payload: json("{\"k\":true}"),
        created_at: 5,
    };
    let event = event_from_row(row(), Ok(key("test:thread"))).unwrap();
    assert_eq!(event.event_id, 9);
    assert_eq!(event.payload, json("{\"k\":true}"));
    assert!(matches!(
        event_from_row(row(), Err("bad".to_owned())),
        Err(SessionStoreError::InvalidPersistedValue(words)) if words == "bad"
    ));
}

#[test]
fn title_is_made_from_all_parts_in_order() {
    let message = |role: &str, parts: &str, created_at: i128| {
        let mut row = message_row(parts);
        row.role = role.to_owned();
        row.created_at = created_at;
        row
    };
    let mut untitled = legacy_session();
    untitled.thread_key = "test:thread".to_owned();
    untitled.title = None;
    let mut titled = untitled.clone();
    titled.title = Some("title".to_owned());
    let session = Some(untitled);
    assert!(title_generation_candidate(&session, vec![], "user").is_none());
    let messages = || {
        vec![
            message("user", "\"x\"", 2),
            message("assistant", "[9]", 2),
            message("user", "[1,2]", 1),
            message("user", "[]", 3),
            message("user", "[3]", 3),
        ]
    };
    assert_eq!(
        title_generation_candidate(&session, messages(), "user"),
        Some(vec![json("1"), json("2"), json("\"x\""), json("3")])
    );
    assert!(title_generation_candidate(&session, messages(), "system").is_none());
    let mut elsewhere = messages();
    for one in &mut elsewhere {
        one.thread_key = "test:other".to_owned();
    }
    assert!(title_generation_candidate(&session, elsewhere, "user").is_none());
    assert!(title_generation_candidate(&Some(titled), messages(), "user").is_none());
    assert!(title_generation_candidate(&None, messages(), "user").is_none());
}

fn prepared_message(id: &str, text: &str) -> PreparedSessionMessage {
    PreparedSessionMessage {
        message_id: id.to_owned(),
        input: SessionMessageInput {
            client_message_id: Some(format!("client-{id}")),
            role: MessageRole { name: "user".to_owned() },
            parts: vec![json(text)],
            metadata: json("{\"m\":1}"),
        },
    }
}

fn persisted(id: &str, role: &str, parts: &str, metadata: &str) -> PersistedPreparedMessageRow {
    PersistedPreparedMessageRow {
        message_id: id.to_owned(),
        role: role.to_owned(),
        parts: json(parts),
        metadata: json(metadata),
    }
}

#[test]
fn stored_messages_keep_the_ids_under_which_they_stand() {
    let messages = vec![prepared_message("msg-1", "\"a\""), prepared_message("msg-2", "\"b\"")];
    let ids = persist_prepared_messages(
        &messages,
        &vec![
            persisted("msg-earlier", "user", "[\"a\"]", "{\"m\":1}"),
            persisted("msg-2", "user", "[\"b\"]", "{\"m\":1}"),
        ],
    )
    .unwrap();
    assert_eq!(ids, vec!["msg-earlier".to_owned(), "msg-2".to_owned()]);
}

#[test]
fn client_id_of_another_message_is_a_conflict() {
    let messages = vec![prepared_message("msg-1", "\"a\"")];
    for row in [
        persisted("msg-1", "assistant", "[\"a\"]", "{\"m\":1}"),
        persisted("msg-1", "user", "\"a\"", "{\"m\":1}"),
        persisted("msg-1", "user", "[\"b\"]", "{\"m\":1}"),
        persisted("msg-1", "user", "[\"a\"]", "{\"m\":2}"),
    ] {
        assert!(matches!(
            persist_prepared_messages(&messages, &vec![row]),
            Err(SessionStoreError::InputDeliveryIdempotencyConflict)
        ));
    }
}

#[test]
fn message_row_holds_its_parts_as_one_array() {
    let message = prepared_message("msg-1", "{\"type\":\"text\"}");
    let row = new_session_message(&message.message_id, &"test:thread".to_owned(), &message.input);
    assert_eq!(row.parts, json("[{\"type\":\"text\"}]"));
    assert_eq!(row.metadata, json("{\"m\":1}"));
    assert_eq!(row.client_message_id.as_deref(), Some("client-msg-1"));
    assert_eq!(row.role, "user");
}

#[test]
fn absent_metadata_is_an_empty_object() {
    assert_eq!(default_metadata(None), json("{}"));
    assert_eq!(default_metadata(Some(json("[1]"))), json("[1]"));
}

#[test]
fn parses_session_event_notification_payload() {
    let payload = r#"{"thread_key":"cli:test","event_id":42}"#;
    let value: Value = serde_json::from_str(payload).unwrap();
    let parsed = SessionEventNotification {
        thread_key: value.get("thread_key").and_then(Value::as_str).unwrap().to_owned(),
        event_id: value.get("event_id").and_then(Value::as_i64).unwrap(),
    };
    let notification = receive_notification(SESSION_EVENTS_CHANNEL, payload, Ok(parsed))
        .unwrap()
        .unwrap();
    assert_eq!(
        notification,
        SessionEventNotification {
            thread_key: "cli:test".to_owned(),
            event_id: 42,
        }
    );
}

#[test]
fn other_channels_are_passed_over_and_bad_payloads_reported() {
    assert_eq!(SESSION_EVENTS_CHANNEL, "centaur_session_events");
    let refusal = || serde_json::from_str::<i64>("nonsense").unwrap_err();
    assert!(receive_notification("elsewhere", "nonsense", Err(refusal())).is_none());
    assert!(matches!(
        receive_notification("centaur_session_events", "nonsense", Err(refusal())),
        Some(Err(SessionStoreError::InvalidNotification { channel, payload, .. }))
            if channel == "centaur_session_events" && payload == "nonsense"
    ));
}

#[test]
fn statuses_have_their_persisted_names() {
    assert_eq!(ExecutionStatus::Queued.as_ref(), "queued");
    assert_eq!(ExecutionStatus::Running.as_ref(), "running");
    assert_eq!(ExecutionStatus::Completed.as_ref(), "completed");
    assert_eq!(ExecutionStatus::Failed.as_ref(), "failed");
    assert_eq!(ExecutionStatus::Cancelled.as_ref(), "cancelled");
    assert_eq!(SessionStatus::Idle.as_ref(), "idle");
    assert_eq!(SessionStatus::Executing.as_ref(), "executing");
    assert_eq!(SessionStatus::Failed.as_ref(), "failed");
}

#[test]
fn appended_messages_get_fresh_ids() {
    let one = prepared_message("msg-1", "\"a\"").input;
    let two = prepared_message("msg-2", "\"b\"").input;
    let rows = append_messages(&key("test:thread"), &vec![one, two]);
    assert_eq!(rows.len(), 2);
    assert!(rows.iter().all(|row| row.message_id.starts_with("msg_") && row.message_id.len() == 36));
    assert_ne!(rows[0].message_id, rows[1].message_id);
    assert!(rows.iter().all(|row| row.thread_key == "test:thread"));
    assert_eq!(rows[1].parts, json("[\"b\"]"));
    assert_eq!(rows[1].client_message_id.as_deref(), Some("client-msg-2"));
}

#[test]
fn messages_are_listed_or_refused() {
    let at = |parts: &str, created_at: i128, thread: &str| {
        let mut row = message_row(parts);
        row.created_at = created_at;
        row.thread_key = thread.to_owned();
        (row, message_parses())
    };
    let listed = list_messages(
        vec![
            at("2", 5, "test:thread"),
            at("9", 1, "test:other"),
            at("[1]", 3, "test:thread"),
        ],
        "test:thread",
    )
    .unwrap();
    let parts: Vec<Vec<Value>> = listed.into_iter().map(|one| one.parts).collect();
    assert_eq!(parts, vec![vec![json("1")], vec![json("2")]]);
    let mut parses = message_parses();
    parses.role = Err("no role".to_owned());
    assert!(matches!(
        list_messages(
            vec![(message_row("[1]"), message_parses()), (message_row("2"), parses)],
            "test:thread",
        ),
        Err(SessionStoreError::InvalidPersistedValue(words)) if words == "no role"
    ));
}

#[test]
fn events_are_listed_after_an_id_up_to_a_limit() {
    let event = |event_id: i64, thread: &str, execution: Option<&str>| {
        let row = SessionEventRow {
            event_id,
            thread_key: thread.to_owned(),
            execution_id: execution.map(str::to_owned),
            event_type: "session.sandbox_ready".to_owned(),
            payload: json("{}"),
            created_at: 5,
        };
        (row, Ok(key(thread)))
    };
    let rows = || {
        vec![
            event(4, "test:thread", None),
            event(1, "test:thread", Some("exe-1")),
            event(2, "test:thread", Some("exe-1")),
            event(3, "test:other", Some("exe-1")),
            event(5, "test:thread", Some("exe-1")),
        ]
    };
    let ids = |execution: Option<&str>, limit: usize| -> Vec<i64> {
        list_events_after(rows(), "test:thread", 1, execution, limit)
            .unwrap()
            .iter()
            .map(|one| one.event_id)
            .collect()
    };
    assert_eq!(ids(None, 10), vec![2, 4, 5]);
    assert_eq!(ids(Some("exe-1"), 10), vec![2, 5]);
    assert_eq!(ids(None, 2), vec![2, 4]);
    assert_eq!(ids(None, 0), Vec::<i64>::new());
    let with_bad = || {
        let mut list = rows();
        list[4].1 = Err("bad".to_owned());
        list
    };
    assert_eq!(list_events_after(with_bad(), "test:thread", 1, None, 2).unwrap().len(), 2);
    assert!(matches!(
        list_events_after(with_bad(), "test:thread", 1, None, 3),
        Err(SessionStoreError::InvalidPersistedValue(words)) if words == "bad"
    ));
}
