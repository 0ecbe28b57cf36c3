use centaur_session_sqlx::assignment::SandboxAssignmentIdentity;
use centaur_session_sqlx::claim::{
    claim_next_input_delivery, rebind_claimed_input_delivery_boundary, ClaimCandidate,
};
use centaur_session_sqlx::consent::MetadataTraceConsent;
use centaur_session_sqlx::creation::{
    append_messages_and_enqueue_input_delivery, append_prepared_messages_if_no_active_execution,
    begin_enqueue_input_delivery, begin_replace_active_execution, claimed_execution,
    create_execution, create_execution_with_initial_input_delivery, created_execution,
    next_sequence, replace_active_execution_with_initial_input_delivery, EnqueueStep,
    InitialDelivery, ReplaceStep,
};
use centaur_session_sqlx::delivery::{
    delivery_from_row, delivery_matches_prepared, mark_input_delivery_ambiguous,
    mark_input_delivery_failed, new_input_delivery, FoundDelivery, InputDeliveryState,
    NewInputDelivery, PreparedInputDelivery,
};
use centaur_session_sqlx::digest::input_lines_sha256;
use centaur_session_sqlx::error::SessionStoreError;
use centaur_session_sqlx::flush::{
    begin_input_delivery_flush, FlushRequest, FlushRows, TraceFence,
};
use centaur_session_sqlx::listing::{
    list_recoverable_input_deliveries, list_unresolved_input_deliveries,
};
use centaur_session_sqlx::messages::{
    new_session_message, persist_prepared_messages, AppendMessagesWithoutActiveExecution,
    PersistedPreparedMessageRow, PreparedSessionMessage,
};
use centaur_session_sqlx::model::{
    Clock, ExecutionStatus, MessageRole, ProxyLabels, SandboxCapabilities, SandboxRepoCacheAccess,
    SessionMessageInput, ThreadKey,
};
use centaur_session_sqlx::rows::{
    SandboxColumns, SessionExecutionRow, SessionExecutionRowParses, SessionInputDeliveryRow,
    SessionRow, TraceColumns,
};
use centaur_session_sqlx::terminal::{
    complete_execution_if_active, fail_execution_if_active,
    terminalize_execution_and_append_event_if_stdout_owner, OwnedTerminalEvent,
};
use centaur_session_sqlx::trace_config::MetadataTraceConfigStateRow;
use serde_json::Value;

const SECOND: i128 = 1_000_000_000;
const CLOCK: Clock = Clock { now: 10 * SECOND, wall: 11 * SECOND };

fn key() -> ThreadKey {
    ThreadKey { value: "test:thread".to_owned() }
}

fn json(text: &str) -> Value {
    serde_json::from_str(text).unwrap()
}

fn prepared_delivery(key: &str, message_id: &str) -> PreparedInputDelivery {
    PreparedInputDelivery {
        idempotency_key: key.to_owned(),
        message_ids: vec![message_id.to_owned()],
        input_lines: vec![format!("{{\"message_id\":\"{message_id}\"}}")],
        boundary_fingerprint: "boundary-test".to_owned(),
    }
}

fn text_array(list: &[String]) -> Value {
    Value::Array(list.iter().cloned().map(Value::String).collect())
}

fn stored(new: NewInputDelivery) -> SessionInputDeliveryRow {
    SessionInputDeliveryRow {
        delivery_id: new.delivery_id,
        thread_key: new.thread_key,
        execution_id: new.execution_id,
        sequence: new.sequence,
        idempotency_key: new.idempotency_key,
        message_ids: text_array(&new.message_ids),
        input_lines: text_array(&new.input_lines),
        input_sha256: new.input_sha256,
        input_line_count: new.input_line_count,
        boundary_fingerprint: new.boundary_fingerprint,
        state: "pending".to_owned(),
        owner_id: None,
        owner_generation: 0,
        owner_lease_expires_at: None,
        sandbox_id: None,
        sandbox_resource_uid: None,
        sandbox_assignment_epoch: None,
        attempts: 0,
        last_error: None,
        created_at: 1,
        claimed_at: None,
        flushed_at: None,
        failed_at: None,
        updated_at: 1,
    }
}

fn delivery(sequence: i64, prepared: &PreparedInputDelivery) -> SessionInputDeliveryRow {
    stored(new_input_delivery(
        format!("dly-{sequence}"),
        &"test:thread".to_owned(),
        &"exe-1".to_owned(),
        sequence,
        prepared,
    ))
}

fn found(row: SessionInputDeliveryRow) -> Option<FoundDelivery> {
    Some(FoundDelivery { row, thread_key: Ok(key()) })
}

fn execution(status: &str) -> SessionExecutionRow {
    SessionExecutionRow {
        execution_id: "exe-1".to_owned(),
        idempotency_key: Some("execution-key".to_owned()),
        thread_key: "test:thread".to_owned(),
        status: status.to_owned(),
        metadata: json("{}"),
        error: None,
        created_at: 1,
        updated_at: 1,
        started_at: None,
        completed_at: None,
        stdout_owner_id: None,
        stdout_owner_lease_expires_at: None,
    }
}

fn parses(status: ExecutionStatus) -> SessionExecutionRowParses {
    SessionExecutionRowParses { thread_key: Ok(key()), status: Ok(status) }
}

fn session(sandbox: &str, uid: &str, epoch: &str) -> SessionRow {
    SessionRow {
        thread_key: "test:thread".to_owned(),
        title: None,
        sandbox: SandboxColumns {
            sandbox_id: Some(sandbox.to_owned()),
            resource_uid: Some(uid.to_owned()),
            assignment_epoch: Some(epoch.to_owned()),
            repo_cache_enabled: Some(true),
            repo_cache_access: Some("all".to_owned()),
            observability_enabled: Some(true),
            api_server_enabled: Some(true),
            trace: TraceColumns {
                enabled: Some(false),
                expires_at: None,
                subject_hash: None,
                source: None,
                workspace_id: None,
                user_id: None,
                consent_revision: None,
                config_fingerprint: None,
                config_generation: None,
                resource_uid: None,
                assignment_epoch: None,
            },
            last_active_at: None,
        },
        harness_type: "codex".to_owned(),
        harness_thread_id: None,
        persona_id: None,
        status: "executing".to_owned(),
        iron_control_principal: None,
        proxy_labels: ProxyLabels { entries: vec![] },
        created_at: 1,
        updated_at: 1,
    }
}

fn capabilities() -> SandboxCapabilities {
    SandboxCapabilities {
        repo_cache: SandboxRepoCacheAccess { name: "all".to_owned(), enabled: true },
        observability_enabled: true,
        api_server_enabled: true,
        metadata_trace_enabled: false,
        metadata_trace_expires_at: None,
        metadata_trace_subject_hash: None,
        metadata_trace_consent_revision: None,
        metadata_trace_config_fingerprint: None,
        metadata_trace_config_generation: None,
    }
}

fn claim(
    row: SessionInputDeliveryRow,
    run: SessionExecutionRow,
    owner: &str,
    until: i128,
    clock: Clock,
) -> Option<ClaimCandidate> {
    let deliveries = vec![row.clone()];
    let mut candidates = vec![ClaimCandidate { delivery: row, execution: run }];
    claim_next_input_delivery(
        &mut candidates,
        &deliveries,
        &owner.to_owned(),
        until,
        Some("exe-1"),
        None,
        clock,
    )
    .unwrap()
    .map(|_| candidates.remove(0))
}

fn flush_request(owner: &str, generation: i64, uid: &str) -> FlushRequest {
    FlushRequest {
        delivery_id: "dly-0".to_owned(),
        owner_id: owner.to_owned(),
        owner_generation: generation,
        sandbox_id: "sbx".to_owned(),
        boundary_fingerprint: "boundary-test".to_owned(),
        assignment: SandboxAssignmentIdentity {
            assignment_epoch: "epoch".to_owned(),
            resource_uid: Some(uid.to_owned()),
        },
    }
}

fn flush_rows(candidate: &ClaimCandidate) -> FlushRows {
    FlushRows {
        trace: None,
        session: Some(session("sbx", "uid", "epoch")),
        execution: Some(candidate.execution.clone()),
        delivery: Some(candidate.delivery.clone()),
    }
}

#[test]
fn initial_input_delivery_idempotency_requires_exact_payload() {
    let prepared = prepared_delivery("delivery-key", "msg-original");
    let first = create_execution_with_initial_input_delivery(
        &"exe-1".to_owned(),
        true,
        None,
        &"test:thread".to_owned(),
        &prepared,
        "dly-0".to_owned(),
    )
    .unwrap();
    let row = match first {
        InitialDelivery::Insert(new) => stored(new),
        other => panic!("expected an insert, got {other:?}"),
    };
    assert_eq!(row.sequence, 0);
    let replay = create_execution_with_initial_input_delivery(
        &"exe-1".to_owned(),
        false,
        found(row.clone()),
        &"test:thread".to_owned(),
        &prepared,
        "dly-unused".to_owned(),
    )
    .unwrap();
    assert!(matches!(
        replay,
        InitialDelivery::Existing(delivery) if delivery.delivery_id == "dly-0"
    ));
    let conflict = create_execution_with_initial_input_delivery(
        &"exe-1".to_owned(),
        false,
        found(row.clone()),
        &"test:thread".to_owned(),
        &prepared_delivery("delivery-key", "msg-different"),
        "dly-unused".to_owned(),
    );
    assert!(matches!(
        conflict,
        Err(SessionStoreError::InputDeliveryIdempotencyConflict)
    ));
    let other_execution = create_execution_with_initial_input_delivery(
        &"exe-2".to_owned(),
        true,
        found(row.clone()),
        &"test:thread".to_owned(),
        &prepared,
        "dly-unused".to_owned(),
    );
    assert!(matches!(
        other_execution,
        Err(SessionStoreError::InputDeliveryIdempotencyConflict)
    ));
    let mut unreadable = row;
    unreadable.state = "odd".to_owned();
    assert!(matches!(
        create_execution_with_initial_input_delivery(
            &"exe-1".to_owned(),
            false,
            found(unreadable),
            &"test:thread".to_owned(),
            &prepared,
            "dly-unused".to_owned(),
        ),
        Err(SessionStoreError::InvalidPersistedValue(_))
    ));
}

#[test]
fn existing_execution_without_delivery_cannot_accept_a_new_retry_payload() {
    let result = create_execution_with_initial_input_delivery(
        &"exe-legacy".to_owned(),
        false,
        None,
        &"test:thread".to_owned(),
        &prepared_delivery("execute:legacy-execution-key", "msg-new"),
        "dly-unused".to_owned(),
    );
    assert!(matches!(
        result,
        Err(SessionStoreError::InputDeliveryMissingForExistingExecution { execution_id })
            if execution_id == "exe-legacy"
    ));
    let owed = list_unresolved_input_deliveries(vec![in_state(1, "pending", None)]).unwrap();
    assert_eq!(owed.len(), 1);
    assert!(
        owed.iter().all(|one| one.execution_id != "exe-legacy"),
        "the retry must not fabricate an input obligation for a legacy execution"
    );

    let mut legacy = execution("queued");
    legacy.execution_id = "exe-legacy".to_owned();
    let mut owner = session("sbx", "uid", "epoch");
    assert!(complete_execution_if_active(&mut legacy, &mut owner, &vec![], 5));
    assert_eq!(legacy.status, "completed");
    let again = created_execution(
        legacy,
        parses(ExecutionStatus::Completed),
        &"exe-unused".to_owned(),
    )
    .unwrap();
    assert!(!again.created);
    let terminal_replay = create_execution_with_initial_input_delivery(
        &again.execution.execution_id,
        again.created,
        None,
        &"test:thread".to_owned(),
        &prepared_delivery("execute:legacy-execution-key", "msg-terminal-retry"),
        "dly-unused".to_owned(),
    );
    assert!(matches!(
        terminal_replay,
        Err(SessionStoreError::InputDeliveryMissingForExistingExecution { execution_id })
            if execution_id == "exe-legacy"
    ));
}

#[test]
fn no_active_append_decision_is_serializable_with_execution_creation() {
    let messages = vec![PreparedSessionMessage {
        message_id: "msg-no-active".to_owned(),
        input: SessionMessageInput {
            client_message_id: Some("no-active".to_owned()),
            role: MessageRole { name: "user".to_owned() },
            parts: vec![json("{\"type\": \"text\", \"text\": \"first\"}")],
            metadata: json("{}"),
        },
    }];
    assert!(matches!(
        append_prepared_messages_if_no_active_execution(true, &key(), None),
        Ok(None)
    ));
    let persisted: Vec<PersistedPreparedMessageRow> = messages
        .iter()
        .map(|message| new_session_message(&message.message_id, &key().value, &message.input))
        .map(|new| PersistedPreparedMessageRow {
            message_id: new.message_id,
            role: new.role,
            parts: new.parts,
            metadata: new.metadata,
        })
        .collect();
    assert_eq!(
        persist_prepared_messages(&messages, &persisted).unwrap(),
        vec!["msg-no-active".to_owned()]
    );
    let outcome = append_prepared_messages_if_no_active_execution(
        true,
        &key(),
        Some((execution("queued"), parses(ExecutionStatus::Queued))),
    )
    .unwrap();
    assert!(matches!(
        outcome,
        Some(AppendMessagesWithoutActiveExecution::Active(run)) if run.execution_id == "exe-1"
    ));
    assert!(matches!(
        append_prepared_messages_if_no_active_execution(
            true,
            &key(),
            Some((execution("completed"), parses(ExecutionStatus::Completed))),
        ),
        Ok(None)
    ));
    let mut elsewhere = execution("running");
    elsewhere.thread_key = "test:other".to_owned();
    assert!(matches!(
        append_prepared_messages_if_no_active_execution(
            true,
            &key(),
            Some((elsewhere, parses(ExecutionStatus::Running))),
        ),
        Ok(None)
    ));
    assert!(matches!(
        append_prepared_messages_if_no_active_execution(false, &key(), None),
        Err(SessionStoreError::NotFound { thread_key }) if thread_key == "test:thread"
    ));
}

#[test]
fn unresolved_delivery_blocks_terminal_transition() {
    for state in ["pending", "claimed", "ambiguous"] {
        let mut row = delivery(0, &prepared_delivery("delivery-key", "msg-1"));
        row.state = state.to_owned();
        let mut run = execution("queued");
        let mut owner = session("sbx", "uid", "epoch");
        assert!(!complete_execution_if_active(&mut run, &mut owner, &vec![row.clone()], 5));
        assert!(!fail_execution_if_active(
            &mut run,
            &mut owner,
            &vec![row],
            &"must not bypass delivery".to_owned(),
            5,
        ));
        assert_eq!(run.status, "queued");
        assert_eq!(owner.status, "executing");
    }
}

#[test]
fn terminal_failed_delivery_scrubs_plaintext_and_retains_audit_digest() {
    let prepared = PreparedInputDelivery {
        idempotency_key: "delivery-failed-scrub".to_owned(),
        message_ids: vec!["msg-failed-scrub".to_owned()],
        input_lines: vec!["sensitive exact input".to_owned()],
        boundary_fingerprint: "boundary-test".to_owned(),
    };
    let row = delivery(0, &prepared);
    let mut held = claim(row, execution("queued"), "owner-failed-scrub", 60 * SECOND, CLOCK)
        .expect("claim");
    let generation = held.delivery.owner_generation;
    assert!(mark_input_delivery_failed(
        &mut held.delivery,
        "owner-failed-scrub",
        generation,
        "input rejected before sandbox write",
        CLOCK,
    ));
    assert_eq!(held.delivery.state, "failed");
    assert_eq!(held.delivery.input_lines, json("[]"));
    assert_eq!(held.delivery.input_sha256, input_lines_sha256(&prepared.input_lines));
    assert_eq!(
        held.delivery.input_sha256,
        "ad07fbf22fa947524ffded16e2192a74e997ce4375ee2b09c9948bb916983579"
    );
    assert_eq!(held.delivery.input_line_count, 1);
    assert_eq!(held.delivery.failed_at, Some(CLOCK.wall));
    let read = delivery_from_row(held.delivery.clone(), Ok(key())).unwrap();
    assert!(delivery_matches_prepared(&read, &prepared));
    let mut run = held.execution;
    let mut owner = session("sbx", "uid", "epoch");
    assert!(fail_execution_if_active(
        &mut run,
        &mut owner,
        &vec![held.delivery],
        &"input rejected".to_owned(),
        20 * SECOND,
    ));
    assert_eq!(run.status, "failed");
    assert_eq!(run.error.as_deref(), Some("input rejected"));
    assert_eq!(owner.status, "failed");
}

#[test]
fn stale_delivery_generation_cannot_begin_flush() {
    let row = delivery(0, &prepared_delivery("delivery-key", "msg-1"));
    let first = claim(row, execution("queued"), "owner-a", 60 * SECOND, CLOCK).unwrap();
    let late = Clock { now: 70 * SECOND, wall: 70 * SECOND };
    let mut stale = first.delivery.clone();
    assert!(!mark_input_delivery_failed(
        &mut stale,
        "owner-a",
        first.delivery.owner_generation,
        "expired owner must not resolve input",
        late,
    ));
    assert!(!mark_input_delivery_ambiguous(
        &mut stale,
        "owner-a",
        first.delivery.owner_generation,
        "expired owner must not rewrite input",
        late,
    ));
    let mut second = claim(
        first.delivery.clone(),
        first.execution.clone(),
        "owner-b",
        200 * SECOND,
        late,
    )
    .unwrap();
    assert!(second.delivery.owner_generation > first.delivery.owner_generation);
    let generation = second.delivery.owner_generation;
    assert!(rebind_claimed_input_delivery_boundary(
        &mut second.delivery,
        &mut second.execution,
        "owner-b",
        generation,
        &"boundary-current".to_owned(),
        json("{\"metadata_trace_enabled\": false}"),
        late,
    ));
    assert_eq!(second.delivery.boundary_fingerprint, "boundary-current");
    assert_eq!(second.delivery.input_lines, first.delivery.input_lines);
    assert_eq!(second.execution.metadata, json("{\"metadata_trace_enabled\": false}"));
    assert!(begin_input_delivery_flush(
        flush_rows(&second),
        flush_request("owner-a", first.delivery.owner_generation, "uid"),
        &capabilities(),
        71 * SECOND,
        71 * SECOND,
        71 * SECOND,
    )
    .unwrap()
    .is_none());
}

#[test]
fn terminal_race_never_persists_messages_without_a_delivery() {
    let prepared = PreparedInputDelivery {
        idempotency_key: "delivery-terminal-race".to_owned(),
        message_ids: vec!["msg-terminal-race".to_owned()],
        input_lines: vec!["must retry".to_owned()],
        boundary_fingerprint: "boundary-terminal-race".to_owned(),
    };
    for run in [Some(execution("failed")), Some(execution("completed")), None] {
        assert!(matches!(
            begin_enqueue_input_delivery(&run, "test:thread", "exe-1", None, &prepared),
            Ok(EnqueueStep::NotActive)
        ));
    }
    let active = Some(execution("running"));
    assert!(matches!(
        begin_enqueue_input_delivery(&active, "test:thread", "exe-1", None, &prepared),
        Ok(EnqueueStep::StoreMessages)
    ));
    assert!(matches!(
        begin_enqueue_input_delivery(&active, "test:other", "exe-1", None, &prepared),
        Ok(EnqueueStep::NotActive)
    ));
    assert!(matches!(
        begin_enqueue_input_delivery(
            &active,
            "test:thread",
            "exe-1",
            found(delivery(0, &prepared)),
            &prepared,
        ),
        Ok(EnqueueStep::Existing(_))
    ));
    assert!(matches!(
        begin_enqueue_input_delivery(
            &active,
            "test:thread",
            "exe-1",
            found(delivery(0, &prepared_delivery("delivery-terminal-race", "other"))),
            &prepared,
        ),
        Err(SessionStoreError::InputDeliveryIdempotencyConflict)
    ));
}

#[test]
fn enqueued_delivery_follows_the_last_one_and_needs_the_prepared_ids() {
    let prepared = prepared_delivery("delivery-key", "msg-1");
    let deliveries = vec![delivery(0, &prepared), delivery(4, &prepared)];
    let new = append_messages_and_enqueue_input_delivery(
        &vec!["msg-1".to_owned()],
        &deliveries,
        &"test:thread".to_owned(),
        &"exe-1".to_owned(),
        &prepared,
        "dly-new".to_owned(),
    )
    .unwrap();
    assert_eq!(new.sequence, 5);
    assert_eq!(new.input_lines, prepared.input_lines);
    assert_eq!(next_sequence(&deliveries, "exe-2").unwrap(), 0);
    assert!(matches!(
        append_messages_and_enqueue_input_delivery(
            &vec!["msg-stored-before".to_owned()],
            &deliveries,
            &"test:thread".to_owned(),
            &"exe-1".to_owned(),
            &prepared,
            "dly-new".to_owned(),
        ),
        Err(SessionStoreError::InputDeliveryIdempotencyConflict)
    ));
    assert!(matches!(
        next_sequence(&vec![delivery(i64::MAX, &prepared)], "exe-1"),
        Err(SessionStoreError::OutOfRange)
    ));
}

#[test]
fn input_flush_commit_serializes_before_terminal_output() {
    let prepared = prepared_delivery("delivery-key", "msg-1");
    let row = delivery(0, &prepared);
    let held = claim(row, execution("queued"), "owner-flush", 60 * SECOND, CLOCK).unwrap();
    let generation = held.delivery.owner_generation;
    assert!(
        begin_input_delivery_flush(
            flush_rows(&held),
            flush_request("owner-flush", generation, "different-uid"),
            &capabilities(),
            12 * SECOND,
            12 * SECOND,
            12 * SECOND,
        )
        .unwrap()
        .is_none(),
        "a reused sandbox name with a different backend UID must not receive input"
    );
    let start = begin_input_delivery_flush(
        flush_rows(&held),
        flush_request("owner-flush", generation, "uid"),
        &capabilities(),
        12 * SECOND,
        13 * SECOND,
        12 * SECOND,
    )
    .unwrap()
    .unwrap();
    assert_eq!(start.guard.deadline, 42 * SECOND);
    assert_eq!(start.guard.remaining(13 * SECOND), Some(29));
    assert_eq!(start.guard.remaining(42 * SECOND), None);
    assert_eq!(start.delivery.sandbox_id.as_deref(), Some("sbx"));
    assert_eq!(start.delivery.sandbox_resource_uid.as_deref(), Some("uid"));
    assert_eq!(start.delivery.sandbox_assignment_epoch.as_deref(), Some("epoch"));

    let mut run = held.execution.clone();
    let mut owner = session("sbx", "uid", "epoch");
    assert!(terminalize_execution_and_append_event_if_stdout_owner(
        &mut run,
        &mut owner,
        &vec![start.delivery.clone()],
        &vec![],
        "owner-flush",
        OwnedTerminalEvent::Completed { payload: json("{}") },
        Clock { now: 14 * SECOND, wall: 14 * SECOND },
    )
    .is_none());

    let mut row = start.delivery;
    let event = start
        .guard
        .commit(&mut row, Clock { now: 14 * SECOND, wall: 14 * SECOND })
        .unwrap();
    assert_eq!(event.event_type, "session.input_flushed");
    assert_eq!(event.thread_key, "test:thread");
    assert_eq!(event.execution_id.as_deref(), Some("exe-1"));
    let members = event.payload.as_object().unwrap();
    assert_eq!(members.len(), 3);
    assert_eq!(event.payload["delivery_id"], Value::from("dly-0"));
    assert_eq!(
        event.payload["input_sha256"],
        Value::from(input_lines_sha256(&prepared.input_lines))
    );
    assert_eq!(event.payload["input_line_count"], Value::from(1));
    assert_eq!(row.state, "flushed");
    assert_eq!(row.input_lines, json("[]"));
    assert_eq!(row.input_sha256, input_lines_sha256(&prepared.input_lines));
    assert_eq!(row.input_line_count, 1);
    assert_eq!(row.flushed_at, Some(14 * SECOND));
    assert!(start
        .guard
        .commit(&mut row, Clock { now: 15 * SECOND, wall: 15 * SECOND })
        .is_none());

    assert!(terminalize_execution_and_append_event_if_stdout_owner(
        &mut run,
        &mut owner,
        &vec![row.clone()],
        &vec![],
        "owner-flush",
        OwnedTerminalEvent::Completed { payload: json("{}") },
        Clock { now: 15 * SECOND, wall: 15 * SECOND },
    )
    .is_some());
    let replay = create_execution_with_initial_input_delivery(
        &"exe-1".to_owned(),
        false,
        found(row),
        &"test:thread".to_owned(),
        &prepared,
        "dly-unused".to_owned(),
    )
    .unwrap();
    assert!(matches!(
        replay,
        InitialDelivery::Existing(delivery)
            if delivery.delivery_id == "dly-0" && delivery.input_lines.is_empty()
    ));
}

#[test]
fn guard_of_an_expired_lease_commits_nothing() {
    let row = delivery(0, &prepared_delivery("delivery-key", "msg-1"));
    let held = claim(row, execution("queued"), "owner", 60 * SECOND, CLOCK).unwrap();
    let start = begin_input_delivery_flush(
        flush_rows(&held),
        flush_request("owner", held.delivery.owner_generation, "uid"),
        &capabilities(),
        12 * SECOND,
        12 * SECOND,
        12 * SECOND,
    )
    .unwrap()
    .unwrap();
    let mut row = start.delivery.clone();
    assert!(start
        .guard
        .commit(&mut row, Clock { now: 60 * SECOND, wall: 60 * SECOND })
        .is_none());
    assert_eq!(row.state, "claimed");
}

#[test]
fn ambiguous_flush_replays_the_exact_persisted_payload() {
    let row = delivery(0, &prepared_delivery("delivery-key", "msg-1"));
    let first = claim(row, execution("queued"), "owner-a", 60 * SECOND, CLOCK).unwrap();
    let mut released = first.clone();
    assert!(mark_input_delivery_ambiguous(
        &mut released.delivery,
        "owner-a",
        first.delivery.owner_generation,
        "pipe broke",
        CLOCK,
    ));
    assert_eq!(released.delivery.state, "ambiguous");
    assert_eq!(released.delivery.owner_id, None);
    assert_eq!(released.delivery.last_error.as_deref(), Some("pipe broke"));
    released.execution.stdout_owner_lease_expires_at = Some(12 * SECOND);
    let late = Clock { now: 13 * SECOND, wall: 13 * SECOND };
    let replay =
        claim(released.delivery, released.execution, "owner-b", 90 * SECOND, late).unwrap();
    assert_eq!(replay.delivery.delivery_id, first.delivery.delivery_id);
    assert_eq!(replay.delivery.input_lines, first.delivery.input_lines);
    assert_eq!(replay.delivery.message_ids, first.delivery.message_ids);
    assert!(replay.delivery.owner_generation > first.delivery.owner_generation);
    assert_eq!(replay.delivery.attempts, 2);
    assert_eq!(replay.execution.started_at, first.execution.started_at);
}

#[test]
fn deliveries_are_claimed_in_their_sequence_and_for_their_targets() {
    let prepared = prepared_delivery("delivery-key", "msg-1");
    let first = delivery(0, &prepared);
    let second = delivery(1, &prepared);
    let deliveries = vec![first.clone(), second.clone()];
    let candidate = |row: &SessionInputDeliveryRow| ClaimCandidate {
        delivery: row.clone(),
        execution: execution("queued"),
    };
    let owner = "owner".to_owned();
    let mut both = vec![candidate(&second), candidate(&first)];
    assert_eq!(
        claim_next_input_delivery(&mut both, &deliveries, &owner, 99, None, None, CLOCK).unwrap(),
        Some(1)
    );
    assert_eq!(both[1].delivery.state, "claimed");
    assert_eq!(both[1].execution.status, "running");
    assert_eq!(both[1].execution.started_at, Some(CLOCK.wall));
    assert_eq!(both[0].delivery.state, "pending");
    let mut only_second = vec![candidate(&second)];
    assert_eq!(
        claim_next_input_delivery(&mut only_second, &deliveries, &owner, 99, None, None, CLOCK)
            .unwrap(),
        None
    );
    let mut targeted = vec![candidate(&first)];
    assert_eq!(
        claim_next_input_delivery(
            &mut targeted,
            &deliveries,
            &owner,
            99,
            Some("exe-other"),
            None,
            CLOCK
        )
        .unwrap(),
        None
    );
    assert_eq!(
        claim_next_input_delivery(
            &mut targeted,
            &deliveries,
            &owner,
            99,
            None,
            Some("dly-other"),
            CLOCK
        )
        .unwrap(),
        None
    );
    assert_eq!(
        claim_next_input_delivery(
            &mut targeted,
            &deliveries,
            &owner,
            99,
            Some("exe-1"),
            Some("dly-0"),
            CLOCK
        )
        .unwrap(),
        Some(0)
    );
}

#[test]
fn live_owner_keeps_others_from_claiming_and_ended_executions_have_no_claims() {
    let row = delivery(0, &prepared_delivery("delivery-key", "msg-1"));
    let mut run = execution("running");
    run.stdout_owner_id = Some("owner-a".to_owned());
    run.stdout_owner_lease_expires_at = Some(60 * SECOND);
    assert!(claim(row.clone(), run.clone(), "owner-b", 70 * SECOND, CLOCK).is_none());
    assert!(claim(row.clone(), run, "owner-a", 70 * SECOND, CLOCK).is_some());
    assert!(claim(row, execution("completed"), "owner-a", 70 * SECOND, CLOCK).is_none());
}

#[test]
fn exhausted_generation_is_out_of_range() {
    let mut row = delivery(0, &prepared_delivery("delivery-key", "msg-1"));
    row.owner_generation = i64::MAX;
    let deliveries = vec![row.clone()];
    let mut candidates = vec![ClaimCandidate { delivery: row, execution: execution("queued") }];
    assert!(matches!(
        claim_next_input_delivery(
            &mut candidates,
            &deliveries,
            &"owner".to_owned(),
            99,
            None,
            None,
            CLOCK
        ),
        Err(SessionStoreError::OutOfRange)
    ));
    assert_eq!(candidates[0].delivery.state, "pending");
}

#[test]
fn rebind_needs_a_running_execution_of_the_delivery() {
    let row = delivery(0, &prepared_delivery("delivery-key", "msg-1"));
    let held = claim(row, execution("queued"), "owner", 60 * SECOND, CLOCK).unwrap();
    for (id, status) in [("exe-1", "completed"), ("exe-2", "running")] {
        let mut one = held.clone();
        one.execution.execution_id = id.to_owned();
        one.execution.status = status.to_owned();
        let generation = one.delivery.owner_generation;
        assert!(!rebind_claimed_input_delivery_boundary(
            &mut one.delivery,
            &mut one.execution,
            "owner",
            generation,
            &"other".to_owned(),
            json("{}"),
            CLOCK,
        ));
        assert_eq!(one.delivery.boundary_fingerprint, "boundary-test");
    }
}

fn traced_capabilities() -> SandboxCapabilities {
    let mut expected = capabilities();
    expected.metadata_trace_enabled = true;
    expected.metadata_trace_expires_at = Some(20 * SECOND);
    expected.metadata_trace_consent_revision = Some(3);
    expected.metadata_trace_config_fingerprint = Some("fp".to_owned());
    expected.metadata_trace_config_generation = Some(7);
    expected
}

fn traced_rows(candidate: &ClaimCandidate) -> FlushRows {
    let mut rows = flush_rows(candidate);
    if let Some(row) = &mut rows.session {
        row.sandbox.trace.enabled = Some(true);
        row.sandbox.trace.expires_at = Some(20 * SECOND);
        row.sandbox.trace.consent_revision = Some(3);
        row.sandbox.trace.config_fingerprint = Some("fp".to_owned());
        row.sandbox.trace.config_generation = Some(7);
        row.sandbox.trace.source = Some("slack".to_owned());
        row.sandbox.trace.workspace_id = Some("T1".to_owned());
        row.sandbox.trace.user_id = Some("U1".to_owned());
        row.sandbox.trace.assignment_epoch = Some("trace-epoch".to_owned());
        row.sandbox.trace.resource_uid = Some("uid".to_owned());
    }
    rows.trace = Some(TraceFence {
        consent: Some(MetadataTraceConsent {
            source: "slack".to_owned(),
            workspace_id: "T1".to_owned(),
            user_id: "U1".to_owned(),
            enabled: true,
            expires_at: Some(20 * SECOND),
            revision: 3,
            drain_pending: false,
        }),
        config: Some(MetadataTraceConfigStateRow {
            generation: 7,
            config_fingerprint: "fp".to_owned(),
            reconciler_owner_id: None,
            reconciler_fence: 0,
            reconciler_lease_expires_at: None,
            activated_at: 0,
            updated_at: 0,
        }),
    });
    rows
}

#[test]
fn traced_flush_needs_consent_and_configuration() {
    let row = delivery(0, &prepared_delivery("delivery-key", "msg-1"));
    let held = claim(row, execution("queued"), "owner", 60 * SECOND, CLOCK).unwrap();
    let begin = |rows: FlushRows, expected: &SandboxCapabilities| {
        begin_input_delivery_flush(
            rows,
            flush_request("owner", held.delivery.owner_generation, "uid"),
            expected,
            12 * SECOND,
            12 * SECOND,
            12 * SECOND,
        )
    };
    let start = begin(traced_rows(&held), &traced_capabilities()).unwrap().unwrap();
    assert_eq!(start.guard.deadline, 20 * SECOND);

    let mut drained = traced_rows(&held);
    if let Some(TraceFence { consent: Some(consent), .. }) = &mut drained.trace {
        consent.drain_pending = true;
    }
    assert!(begin(drained, &traced_capabilities()).unwrap().is_none());
    let mut revoked = traced_rows(&held);
    if let Some(fence) = &mut revoked.trace {
        fence.consent = None;
    }
    assert!(begin(revoked, &traced_capabilities()).unwrap().is_none());
    let mut rolled = traced_rows(&held);
    if let Some(TraceFence { config: Some(config), .. }) = &mut rolled.trace {
        config.generation = 8;
    }
    assert!(begin(rolled, &traced_capabilities()).unwrap().is_none());
    let mut without = traced_capabilities();
    without.metadata_trace_config_generation = None;
    assert!(matches!(
        begin(traced_rows(&held), &without),
        Err(SessionStoreError::UnexpectedNull)
    ));
    let mut untracked = traced_rows(&held);
    untracked.trace = None;
    assert!(begin(untracked, &traced_capabilities()).unwrap().is_none());
    let mut missing = traced_rows(&held);
    missing.execution = None;
    assert!(begin(missing, &traced_capabilities()).unwrap().is_none());

    let forget: [fn(&mut TraceColumns); 5] = [
        |trace| trace.source = None,
        |trace| trace.workspace_id = None,
        |trace| trace.user_id = None,
        |trace| trace.assignment_epoch = None,
        |trace| trace.resource_uid = None,
    ];
    for column in forget {
        let mut partial = traced_rows(&held);
        if let Some(session) = &mut partial.session {
            column(&mut session.sandbox.trace);
        }
        if let Some(TraceFence { config: Some(config), .. }) = &mut partial.trace {
            config.generation = 8;
        }
        assert!(matches!(
            begin(partial, &traced_capabilities()),
            Err(SessionStoreError::UnexpectedNull)
        ));
    }
    let mut of_another = traced_rows(&held);
    if let Some(TraceFence { consent: Some(consent), .. }) = &mut of_another.trace {
        consent.user_id = "U2".to_owned();
    }
    assert!(begin(of_another, &traced_capabilities()).unwrap().is_none());
}

#[test]
fn replacement_delivery_survives_driver_loss_and_blocks_a_third_actor() {
    let mut successor_input = prepared_delivery("replacement-u2", "unused-message");
    successor_input.message_ids.clear();
    successor_input.input_lines = vec!["exact-u2-input".to_owned()];
    let mut old = execution("running");
    let mut owner = session("sbx", "uid", "epoch");
    assert!(matches!(
        begin_replace_active_execution(&old, &vec![], None, &successor_input),
        Ok(ReplaceStep::StoreMessages)
    ));
    let replaced = replace_active_execution_with_initial_input_delivery(
        &mut old,
        &mut owner,
        &vec![],
        &vec![],
        &"exe-2".to_owned(),
        "dly-u2".to_owned(),
        json("{\"actor\": \"u2\"}"),
        OwnedTerminalEvent::Failed {
            error: "actor boundary changed".to_owned(),
            payload: json("{}"),
        },
        &successor_input,
        5,
    )
    .unwrap()
    .unwrap();
    assert_eq!(old.status, "failed");
    assert_eq!(old.error.as_deref(), Some("actor boundary changed"));
    assert_eq!(owner.status, "executing");
    assert_eq!(replaced.replacement.successor.execution_id, "exe-2");
    assert_eq!(replaced.replacement.successor.status, "queued");
    assert_eq!(
        replaced.replacement.successor.idempotency_key.as_deref(),
        Some("replacement-u2")
    );
    assert_eq!(replaced.replacement.event.event_type, "session.execution_failed");
    assert_eq!(replaced.replacement.event.execution_id.as_deref(), Some("exe-1"));
    assert_eq!(replaced.delivery.input_lines, vec!["exact-u2-input".to_owned()]);
    assert_eq!(replaced.delivery.execution_id, "exe-2");
    assert_eq!(replaced.delivery.sequence, 0);

    let mut successor = execution("queued");
    successor.execution_id = "exe-2".to_owned();
    let owed = stored(replaced.delivery);
    let mut third = prepared_delivery("replacement-u3", "unused-message");
    third.message_ids.clear();
    assert!(matches!(
        begin_replace_active_execution(&successor, &vec![owed.clone()], None, &third),
        Ok(ReplaceStep::NotAllowed)
    ));
    assert!(
        replace_active_execution_with_initial_input_delivery(
            &mut successor,
            &mut owner,
            &vec![owed.clone()],
            &vec![],
            &"exe-3".to_owned(),
            "dly-u3".to_owned(),
            json("{}"),
            OwnedTerminalEvent::Failed {
                error: "actor boundary changed again".to_owned(),
                payload: json("{}"),
            },
            &third,
            6,
        )
        .unwrap()
        .is_none(),
        "a third actor cannot preempt an unresolved successor delivery"
    );
    assert!(matches!(
        begin_replace_active_execution(&old, &vec![], found(owed.clone()), &successor_input),
        Ok(ReplaceStep::Existing(delivery)) if delivery.delivery_id == "dly-u2"
    ));
    assert!(matches!(
        begin_replace_active_execution(&old, &vec![], found(owed.clone()), &third),
        Err(SessionStoreError::InputDeliveryIdempotencyConflict)
    ));

    let mut candidates =
        vec![ClaimCandidate { delivery: owed.clone(), execution: successor }];
    assert_eq!(
        claim_next_input_delivery(
            &mut candidates,
            &vec![owed],
            &"owner-b".to_owned(),
            71 * SECOND,
            Some("exe-2"),
            Some("dly-u2"),
            CLOCK,
        )
        .unwrap(),
        Some(0)
    );
    let mut recovered = candidates.remove(0);
    assert_eq!(recovered.delivery.input_lines, json("[\"exact-u2-input\"]"));
    assert_eq!(recovered.delivery.owner_id.as_deref(), Some("owner-b"));
    let generation = recovered.delivery.owner_generation;
    assert!(mark_input_delivery_failed(
        &mut recovered.delivery,
        "owner-b",
        generation,
        "test cleanup",
        CLOCK,
    ));
    assert!(terminalize_execution_and_append_event_if_stdout_owner(
        &mut recovered.execution,
        &mut owner,
        &vec![recovered.delivery],
        &vec![],
        "owner-b",
        OwnedTerminalEvent::Failed {
            error: "test cleanup".to_owned(),
            payload: json("{}"),
        },
        CLOCK,
    )
    .is_some());
    assert_eq!(recovered.execution.status, "failed");
}

#[test]
fn replacement_needs_the_prepared_message_ids() {
    let prepared = prepared_delivery("replacement", "msg-1");
    let mut old = execution("running");
    let mut owner = session("sbx", "uid", "epoch");
    assert!(matches!(
        replace_active_execution_with_initial_input_delivery(
            &mut old,
            &mut owner,
            &vec![],
            &vec!["msg-other".to_owned()],
            &"exe-2".to_owned(),
            "dly".to_owned(),
            json("{}"),
            OwnedTerminalEvent::Completed { payload: json("{}") },
            &prepared,
            5,
        ),
        Err(SessionStoreError::InputDeliveryIdempotencyConflict)
    ));
    assert_eq!(old.status, "running");
}

#[test]
fn execution_rows_are_created_queued() {
    let new = create_execution(
        true,
        &key(),
        "exe-9".to_owned(),
        Some("key".to_owned()),
        json("{}"),
    )
    .unwrap();
    assert_eq!(new.status, "queued");
    assert_eq!(new.thread_key, "test:thread");
    assert!(matches!(
        create_execution(false, &key(), "exe-9".to_owned(), None, json("{}")),
        Err(SessionStoreError::NotFound { thread_key }) if thread_key == "test:thread"
    ));
    let created =
        created_execution(execution("queued"), parses(ExecutionStatus::Queued), "exe-1").unwrap();
    assert!(created.created);
    let existing =
        created_execution(execution("queued"), parses(ExecutionStatus::Queued), "exe-2").unwrap();
    assert!(!existing.created);
    let claimed =
        claimed_execution(execution("running"), parses(ExecutionStatus::Running), true).unwrap();
    assert!(claimed.claimed);
}

#[test]
fn payload_match_is_exact() {
    let prepared = prepared_delivery("delivery-key", "msg-1");
    let read = delivery_from_row(delivery(0, &prepared), Ok(key())).unwrap();
    assert_eq!(read.state, InputDeliveryState::Pending);
    assert!(delivery_matches_prepared(&read, &prepared));
    let mut boundary = prepared.clone();
    boundary.boundary_fingerprint = "other".to_owned();
    assert!(!delivery_matches_prepared(&read, &boundary));
    let mut lines = prepared.clone();
    lines.input_lines.push(String::new());
    assert!(!delivery_matches_prepared(&read, &lines));
    let mut scrubbed = read.clone();
    scrubbed.input_lines.clear();
    assert!(!delivery_matches_prepared(&scrubbed, &prepared));
    scrubbed.state = InputDeliveryState::Flushed;
    assert!(delivery_matches_prepared(&scrubbed, &prepared));
    let mut unscrubbed = read;
    unscrubbed.state = InputDeliveryState::Failed;
    assert!(!delivery_matches_prepared(&unscrubbed, &prepared));
}

fn in_state(sequence: i64, state: &str, lease: Option<i128>) -> FoundDelivery {
    let mut row = delivery(sequence, &prepared_delivery("key", "msg"));
    row.state = state.to_owned();
    row.owner_lease_expires_at = lease;
    FoundDelivery { row, thread_key: Ok(key()) }
}

#[test]
fn outstanding_deliveries_are_listed_in_order() {
    let rows = || {
        vec![
            in_state(1, "pending", None),
            in_state(2, "flushed", None),
            in_state(3, "claimed", Some(50)),
            in_state(4, "failed", None),
            in_state(5, "ambiguous", None),
            in_state(6, "claimed", Some(49)),
        ]
    };
    let owed: Vec<i64> = list_unresolved_input_deliveries(rows())
        .unwrap()
        .iter()
        .map(|one| one.sequence)
        .collect();
    assert_eq!(owed, vec![1, 3, 5, 6]);
    let mut unsorted = rows();
    unsorted[0].row.created_at = 9;
    let owed: Vec<i64> = list_unresolved_input_deliveries(unsorted)
        .unwrap()
        .iter()
        .map(|one| one.sequence)
        .collect();
    assert_eq!(owed, vec![3, 5, 6, 1]);
    let open: Vec<i64> = list_recoverable_input_deliveries(rows(), 49)
        .unwrap()
        .iter()
        .map(|one| one.sequence)
        .collect();
    assert_eq!(open, vec![1, 5, 6]);
}

#[test]
fn first_refused_delivery_refuses_the_listing() {
    let mut first = in_state(1, "flushed", None);
    first.thread_key = Err("passed over".to_owned());
    let mut second = in_state(2, "pending", None);
    second.thread_key = Err("second".to_owned());
    let mut third = in_state(3, "pending", None);
    third.thread_key = Err("third".to_owned());
    assert!(matches!(
        list_unresolved_input_deliveries(vec![first, second, third]),
        Err(SessionStoreError::InvalidPersistedValue(words)) if words == "second"
    ));
}

#[test]
fn rebound_delivery_keeps_the_metadata_that_came_in() {
    let row = delivery(0, &prepared_delivery("delivery-key", "msg-1"));
    let mut run = execution("queued");
    run.metadata = json("{\"actor\": \"u1\", \"metadata_trace_enabled\": true}");
    let mut held = claim(row, run, "owner", 60 * SECOND, CLOCK).unwrap();
    let generation = held.delivery.owner_generation;
    assert!(rebind_claimed_input_delivery_boundary(
        &mut held.delivery,
        &mut held.execution,
        "owner",
        generation,
        &"boundary-current".to_owned(),
        json("{\"metadata_trace_enabled\": false}"),
        CLOCK,
    ));
    assert_eq!(
        held.execution.metadata,
        json("{\"actor\": \"u1\", \"metadata_trace_enabled\": false}")
    );
}

#[test]
fn lapsed_flush_replays_the_exact_persisted_payload() {
    let row = delivery(0, &prepared_delivery("delivery-key", "msg-1"));
    let first = claim(row, execution("queued"), "owner-a", 60 * SECOND, CLOCK).unwrap();
    assert!(begin_input_delivery_flush(
        flush_rows(&first),
        flush_request("owner-a", first.delivery.owner_generation, "uid"),
        &capabilities(),
        12 * SECOND,
        12 * SECOND,
        12 * SECOND,
    )
    .unwrap()
    .is_some());
    let late = Clock { now: 61 * SECOND, wall: 61 * SECOND };
    let replay = claim(
        first.delivery.clone(),
        first.execution.clone(),
        "owner-b",
        121 * SECOND,
        late,
    )
    .unwrap();
    assert_eq!(replay.delivery.delivery_id, first.delivery.delivery_id);
    assert_eq!(replay.delivery.input_lines, first.delivery.input_lines);
    assert_eq!(replay.delivery.message_ids, first.delivery.message_ids);
    assert!(replay.delivery.owner_generation > first.delivery.owner_generation);
    assert_eq!(replay.delivery.attempts, 2);
}

#[test]
fn oldest_claimable_delivery_is_claimed_first() {
    let prepared = prepared_delivery("delivery-key", "msg-1");
    let candidate = |name: &str, created_at: i128, status: &str| {
        let mut row = delivery(0, &prepared);
        row.delivery_id = format!("dly-{name}");
        row.execution_id = format!("exe-{name}");
        row.created_at = created_at;
        let mut run = execution(status);
        run.execution_id = format!("exe-{name}");
        ClaimCandidate { delivery: row, execution: run }
    };
    let mut candidates = vec![
        candidate("new", 3, "queued"),
        candidate("old", 2, "queued"),
        candidate("ended", 1, "completed"),
    ];
    let deliveries = candidates.iter().map(|one| one.delivery.clone()).collect();
    let claimed = claim_next_input_delivery(
        &mut candidates,
        &deliveries,
        &"owner".to_owned(),
        99 * SECOND,
        None,
        None,
        CLOCK,
    )
    .unwrap();
    assert_eq!(claimed, Some(1));
    assert_eq!(candidates[1].delivery.state, "claimed");
    assert_eq!(candidates[0].delivery.state, "pending");
}

#[test]
fn flush_needs_rows_that_belong_together() {
    let row = delivery(0, &prepared_delivery("delivery-key", "msg-1"));
    let held = claim(row, execution("queued"), "owner", 60 * SECOND, CLOCK).unwrap();
    let begins = |rows: FlushRows| {
        begin_input_delivery_flush(
            rows,
            flush_request("owner", held.delivery.owner_generation, "uid"),
            &capabilities(),
            12 * SECOND,
            12 * SECOND,
            12 * SECOND,
        )
        .unwrap()
        .is_some()
    };
    assert!(begins(flush_rows(&held)));
    let mut other_delivery = flush_rows(&held);
    other_delivery.delivery.as_mut().unwrap().delivery_id = "dly-other".to_owned();
    assert!(!begins(other_delivery));
    let mut other_execution = flush_rows(&held);
    other_execution.execution.as_mut().unwrap().execution_id = "exe-other".to_owned();
    assert!(!begins(other_execution));
    let mut other_session = flush_rows(&held);
    other_session.session.as_mut().unwrap().thread_key = "test:other".to_owned();
    assert!(!begins(other_session));
}
