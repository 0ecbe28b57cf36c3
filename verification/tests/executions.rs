use centaur_session_sqlx::creation::active_execution_for_thread;
use centaur_session_sqlx::error::SessionStoreError;
use centaur_session_sqlx::execution::{
    active_execution_ownership, release_stdout_owner, renew_stdout_owner,
};
use centaur_session_sqlx::listing::{
    list_active_executions, list_active_executions_with_ownership,
};
use centaur_session_sqlx::model::{Clock, ExecutionStatus, ProxyLabels, SessionStatus, ThreadKey};
use centaur_session_sqlx::rows::{
    SandboxColumns, SessionExecutionRow, SessionExecutionRowParses, SessionInputDeliveryRow,
    SessionRow, TraceColumns,
};
use centaur_session_sqlx::terminal::{
    complete_execution, count_executions_with_stdout_owner, fail_execution,
    release_stdout_owned_executions, released_execution, replace_active_execution_with_queued,
    terminalize_execution_and_append_event_if_active,
    terminalize_execution_and_append_event_if_stdout_owner, OwnedTerminalEvent,
};
use serde_json::Value;

fn at(time: i128) -> Clock {
    Clock { now: time, wall: time }
}

fn json(text: &str) -> Value {
    serde_json::from_str(text).unwrap()
}

fn execution(id: &str, status: &str) -> SessionExecutionRow {
    SessionExecutionRow {
        execution_id: id.to_owned(),
        idempotency_key: None,
        thread_key: "test:thread".to_owned(),
        status: status.to_owned(),
        metadata: json("{}"),
        error: None,
        created_at: 1,
        updated_at: 1,
        started_at: None,
        completed_at: None,
        stdout_owner_id: None,
        stdout_owner_lease_expires_at: None,
    }
}

fn owned(id: &str, owner: &str, until: i128) -> SessionExecutionRow {
    let mut row = execution(id, "running");
    row.stdout_owner_id = Some(owner.to_owned());
    row.stdout_owner_lease_expires_at = Some(until);
    row
}

fn session(status: &str) -> SessionRow {
    SessionRow {
        thread_key: "test:thread".to_owned(),
        title: None,
        sandbox: SandboxColumns {
            sandbox_id: None,
            resource_uid: None,
            assignment_epoch: None,
            repo_cache_enabled: None,
            repo_cache_access: None,
            observability_enabled: None,
            api_server_enabled: None,
            trace: TraceColumns {
                enabled: None,
                expires_at: None,
                subject_hash: None,
                source: None,
                workspace_id: None,
                user_id: None,
                consent_revision: None,
                config_fingerprint: None,
                config_generation: None,
                resource_uid: None,
                assignment_epoch: None,
            },
            last_active_at: None,
        },
        harness_type: "codex".to_owned(),
        harness_thread_id: None,
        persona_id: None,
        status: status.to_owned(),
        iron_control_principal: None,
        proxy_labels: ProxyLabels { entries: vec![] },
        created_at: 1,
        updated_at: 1,
    }
}

fn claimed_delivery(execution_id: &str, owner: &str, until: i128) -> SessionInputDeliveryRow {
    SessionInputDeliveryRow {
        delivery_id: format!("dly-{execution_id}"),
        thread_key: "test:thread".to_owned(),
        execution_id: execution_id.to_owned(),
        sequence: 0,
        idempotency_key: "key".to_owned(),
        message_ids: json("[]"),
        input_lines: json("[\"line\"]"),
        input_sha256: "digest".to_owned(),
        input_line_count: 1,
        boundary_fingerprint: "boundary".to_owned(),
        state: "claimed".to_owned(),
        owner_id: Some(owner.to_owned()),
        owner_generation: 3,
        owner_lease_expires_at: Some(until),
        sandbox_id: None,
        sandbox_resource_uid: None,
        sandbox_assignment_epoch: None,
        attempts: 1,
        last_error: None,
        created_at: 1,
        claimed_at: Some(1),
        flushed_at: None,
        failed_at: None,
        updated_at: 1,
    }
}

fn completed() -> OwnedTerminalEvent {
    OwnedTerminalEvent::Completed { payload: json("{\"source\": \"test\"}") }
}

fn terminalize(
    row: &mut SessionExecutionRow,
    owner: &str,
    terminal: OwnedTerminalEvent,
    time: i128,
) -> bool {
    terminalize_execution_and_append_event_if_stdout_owner(
        row,
        &mut session("executing"),
        &vec![],
        &vec![],
        owner,
        terminal,
        at(time),
    )
    .is_some()
}

#[test]
fn stdout_owner_fences_output_and_terminal_updates() {
    let mut row = owned("exe", "owner-a", 60);
    assert!(!row.claim_stdout_owner(&"owner-b".to_owned(), 99, at(10)));
    assert!(row
        .append_event_if_stdout_owner(
            "test:thread",
            "owner-b",
            99,
            "session.output.line".to_owned(),
            json("\"stale\""),
            at(10),
        )
        .is_none());
    assert!(!terminalize(&mut row, "owner-b", completed(), 10));
    let event = row
        .append_event_if_stdout_owner(
            "test:thread",
            "owner-a",
            99,
            "session.output.line".to_owned(),
            json("\"live\""),
            at(10),
        )
        .unwrap();
    assert_eq!(event.event_type, "session.output.line");
    assert_eq!(event.payload, json("\"live\""));
    assert_eq!(event.execution_id.as_deref(), Some("exe"));
    assert_eq!(row.stdout_owner_lease_expires_at, Some(99));
    assert!(row
        .append_event_if_stdout_owner(
            "test:elsewhere",
            "owner-a",
            120,
            "session.output.line".to_owned(),
            json("null"),
            at(10),
        )
        .is_none());

    assert!(row.claim_expired_stdout_owner(&"owner-b".to_owned(), 200, at(99)));
    assert!(row
        .append_event_if_stdout_owner(
            "test:thread",
            "owner-a",
            220,
            "session.output.line".to_owned(),
            json("\"line-from-expired-owner-a\""),
            at(100),
        )
        .is_none());
    assert!(terminalize(&mut row, "owner-b", completed(), 101));
    assert_eq!(row.status, "completed");
}

#[test]
fn active_stdout_owner_can_renew_append_and_terminalize() {
    let mut row = owned("exe", "owner-a", 60);
    let mut deliveries = vec![
        claimed_delivery("exe", "owner-a", 60),
        claimed_delivery("exe", "owner-b", 60),
        claimed_delivery("exe", "owner-a", 5),
        claimed_delivery("other", "owner-a", 60),
    ];
    assert!(renew_stdout_owner(&mut row, &mut deliveries, "owner-a", 80, at(10)));
    assert_eq!(row.stdout_owner_lease_expires_at, Some(80));
    let leases: Vec<Option<i128>> =
        deliveries.iter().map(|one| one.owner_lease_expires_at).collect();
    assert_eq!(leases, vec![Some(80), Some(60), Some(5), Some(60)]);
    assert!(row.claim_stdout_owner(&"owner-a".to_owned(), 90, at(11)));
    assert!(terminalize(&mut row, "owner-a", completed(), 12));
    assert_eq!(row.status, "completed");
    assert_eq!(row.stdout_owner_id, None);
}

#[test]
fn terminalize_execution_and_event_commits_exact_terminal_lifecycle() {
    for (terminal, status, session_status, error, event_type, payload) in [
        (
            OwnedTerminalEvent::Completed { payload: json("{\"n\": 1}") },
            "completed",
            "idle",
            None,
            "session.execution_completed",
            json("{\"n\": 1}"),
        ),
        (
            OwnedTerminalEvent::Failed { error: "boom".to_owned(), payload: json("{\"n\": 2}") },
            "failed",
            "failed",
            Some("boom"),
            "session.execution_failed",
            json("{\"n\": 2}"),
        ),
        (
            OwnedTerminalEvent::Cancelled { reason: "stop".to_owned(), payload: json("{\"n\": 3}") },
            "cancelled",
            "idle",
            Some("stop"),
            "session.execution_cancelled",
            json("{\"n\": 3}"),
        ),
    ] {
        let mut row = owned("exe", "owner", 60);
        let mut owner = session("executing");
        let event = terminalize_execution_and_append_event_if_stdout_owner(
            &mut row,
            &mut owner,
            &vec![],
            &vec![execution("older", "completed")],
            "owner",
            terminal,
            at(10),
        )
        .unwrap();
        assert_eq!(row.status, status);
        assert_eq!(row.error.as_deref(), error);
        assert_eq!(row.completed_at, Some(10));
        assert_eq!(row.stdout_owner_lease_expires_at, None);
        assert_eq!(owner.status, session_status);
        assert_eq!(event.event_type, event_type);
        assert_eq!(event.payload, payload);
        assert_eq!(event.thread_key, "test:thread");
        assert_eq!(event.execution_id.as_deref(), Some("exe"));
    }
}

#[test]
fn terminal_parts_are_derived_from_the_variant() {
    let (status, session_status, error, event_type, payload) = OwnedTerminalEvent::Failed {
        error: "boom".to_owned(),
        payload: json("[]"),
    }
    .into_parts();
    assert_eq!(status, ExecutionStatus::Failed);
    assert_eq!(session_status, SessionStatus::Failed);
    assert_eq!(error.as_deref(), Some("boom"));
    assert_eq!(event_type, "session.execution_failed");
    assert_eq!(payload, json("[]"));
}

#[test]
fn terminalize_execution_and_event_owner_fence_is_a_noop() {
    let mut row = owned("exe", "owner-a", 60);
    let mut owner = session("executing");
    assert!(terminalize_execution_and_append_event_if_stdout_owner(
        &mut row,
        &mut owner,
        &vec![],
        &vec![],
        "owner-b",
        completed(),
        at(10),
    )
    .is_none());
    assert_eq!(row.status, "running");
    assert_eq!(row.stdout_owner_id.as_deref(), Some("owner-a"));
    assert_eq!(owner.status, "executing");
    assert_eq!(owner.updated_at, 1);
}

#[test]
fn terminal_transition_cannot_clobber_a_successor_session_status() {
    let mut row = owned("exe-old", "owner-a", 60);
    let mut owner = session("executing");
    assert!(terminalize_execution_and_append_event_if_active(
        &mut row,
        &mut owner,
        &vec![],
        &vec![execution("exe-new", "queued")],
        completed(),
        10,
    )
    .is_some());
    assert_eq!(row.status, "completed");
    assert_eq!(
        owner.status, "executing",
        "the old terminal transition must not overwrite the successor's executing session state"
    );
}

#[test]
fn expired_stdout_owner_cannot_mutate_before_adoption() {
    let owner = "owner-a".to_owned();
    let mut row = owned("exe", "owner-a", 60);
    assert!(!row.claim_stdout_owner(&owner, 200, at(61)));
    assert!(!renew_stdout_owner(&mut row, &mut vec![], "owner-a", 200, at(61)));
    assert!(row
        .append_event_if_stdout_owner(
            "test:thread",
            "owner-a",
            200,
            "session.output.line".to_owned(),
            json("\"line-from-expired-owner\""),
            at(61),
        )
        .is_none());
    for terminal in [
        completed(),
        OwnedTerminalEvent::Failed {
            error: "stale owner must not fail execution".to_owned(),
            payload: json("{}"),
        },
        OwnedTerminalEvent::Cancelled {
            reason: "stale owner must not cancel execution".to_owned(),
            payload: json("{}"),
        },
    ] {
        assert!(!terminalize(&mut row, "owner-a", terminal, 61));
    }
    assert_eq!(row.status, "running");
    assert!(row.claim_expired_stdout_owner(&owner, 200, at(61)));
    assert!(terminalize(&mut row, "owner-a", completed(), 62));
    assert_eq!(row.status, "completed");
}

#[test]
fn expired_owner_terminal_write_cannot_win_an_adoption_race() {
    let mut row = owned("exe", "owner-a", 60);
    assert!(row.claim_expired_stdout_owner(&"owner-b".to_owned(), 200, at(60)));
    assert!(!terminalize(&mut row, "owner-a", completed(), 60));
    assert!(terminalize(&mut row, "owner-b", completed(), 61));
}

#[test]
fn expired_lease_is_left_to_adoption() {
    let mut row = owned("exe", "owner-a", 60);
    assert!(!row.claim_expired_stdout_owner(&"owner-b".to_owned(), 90, at(59)));
    for owner in ["owner-a", "owner-b"] {
        assert!(!row.claim_stdout_owner(&owner.to_owned(), 90, at(60)));
        assert_eq!(row.stdout_owner_id.as_deref(), Some("owner-a"));
        assert_eq!(row.stdout_owner_lease_expires_at, Some(60));
        assert_eq!(row.updated_at, owned("exe", "owner-a", 60).updated_at);
    }
    assert!(row.claim_expired_stdout_owner(&"owner-b".to_owned(), 90, at(60)));
    assert_eq!(row.stdout_owner_id.as_deref(), Some("owner-b"));
    assert_eq!(row.stdout_owner_lease_expires_at, Some(90));
    let mut without_time = owned("exe", "owner-a", 60);
    without_time.stdout_owner_lease_expires_at = None;
    assert!(!without_time.claim_stdout_owner(&"owner-b".to_owned(), 90, at(1)));
    assert!(without_time.claim_expired_stdout_owner(&"owner-b".to_owned(), 90, at(1)));
}

#[test]
fn unowned_lease_of_an_active_execution_can_be_claimed() {
    let mut free = execution("exe", "queued");
    assert!(free.claim_stdout_owner(&"owner-c".to_owned(), 90, at(1)));
    let mut ended = execution("exe", "failed");
    assert!(!ended.claim_stdout_owner(&"owner-c".to_owned(), 90, at(1)));
    assert!(!ended.claim_expired_stdout_owner(&"owner-c".to_owned(), 90, at(1)));
}

#[test]
fn releases_all_stdout_leases_held_by_one_owner() {
    let mut executions = vec![
        owned("exe-a", "owner-a", 60),
        owned("exe-b", "owner-b", 60),
        owned("exe-c", "owner-a", 5),
        owned("exe-d", "owner-a", 60),
    ];
    executions[3].status = "completed".to_owned();
    let mut deliveries = vec![
        claimed_delivery("exe-a", "owner-a", 60),
        claimed_delivery("exe-b", "owner-b", 60),
    ];
    assert_eq!(count_executions_with_stdout_owner(&executions, "owner-a"), 2);
    let positions =
        release_stdout_owned_executions(&mut executions, &mut deliveries, "owner-a", 10);
    assert_eq!(positions, vec![0, 2]);
    assert_eq!(executions[0].stdout_owner_id, None);
    assert_eq!(executions[1].stdout_owner_id.as_deref(), Some("owner-b"));
    assert_eq!(executions[3].stdout_owner_id.as_deref(), Some("owner-a"));
    assert_eq!(deliveries[0].state, "ambiguous");
    assert_eq!(
        deliveries[0].last_error.as_deref(),
        Some("control plane shut down before input flush committed")
    );
    assert_eq!(deliveries[1].state, "claimed");
    assert_eq!(count_executions_with_stdout_owner(&executions, "owner-a"), 0);
    assert!(executions[0].claim_stdout_owner(&"owner-c".to_owned(), 90, at(10)));
    assert_eq!(executions[0].stdout_owner_id.as_deref(), Some("owner-c"));
    assert_eq!(count_executions_with_stdout_owner(&executions, "owner-b"), 1);
    let key = ThreadKey { value: "test:thread".to_owned() };
    assert_eq!(released_execution("exe-a".to_owned(), Ok(key)).unwrap().execution_id, "exe-a");
    assert!(matches!(
        released_execution("exe-a".to_owned(), Err("bad".to_owned())),
        Err(SessionStoreError::InvalidPersistedValue(words)) if words == "bad"
    ));
}

#[test]
fn released_owner_leaves_its_claimed_input_ambiguous() {
    let mut row = owned("exe", "owner-a", 5);
    let mut deliveries = vec![
        claimed_delivery("exe", "owner-a", 60),
        claimed_delivery("other", "owner-a", 60),
    ];
    assert!(!release_stdout_owner(&mut row, &mut deliveries, "owner-b", 10));
    assert!(release_stdout_owner(&mut row, &mut deliveries, "owner-a", 10));
    assert_eq!(row.stdout_owner_id, None);
    assert_eq!(deliveries[0].state, "ambiguous");
    assert_eq!(deliveries[0].owner_generation, 3);
    assert_eq!(deliveries[0].input_lines, json("[\"line\"]"));
    assert_eq!(
        deliveries[0].last_error.as_deref(),
        Some("stdout owner released before input flush committed")
    );
    assert_eq!(deliveries[1].state, "claimed");
}

#[test]
fn queued_execution_is_started_once() {
    let mut row = execution("exe", "queued");
    let mut owner = session("idle");
    assert!(row.mark_execution_running(&mut owner, 7));
    assert_eq!(row.status, "running");
    assert_eq!(row.started_at, Some(7));
    assert_eq!(owner.status, "executing");
    assert!(!row.mark_execution_running(&mut owner, 8));
    assert_eq!(row.started_at, Some(7));
}

#[test]
fn executions_are_concluded_without_an_event() {
    let mut row = owned("exe", "owner", 60);
    row.error = Some("earlier".to_owned());
    let mut owner = session("executing");
    assert!(complete_execution(&mut row, &mut owner, &vec![], 9));
    assert_eq!(row.status, "completed");
    assert_eq!(row.error.as_deref(), Some("earlier"));
    assert_eq!(row.stdout_owner_id.as_deref(), Some("owner"));
    assert_eq!(owner.status, "idle");
    assert!(fail_execution(&mut row, &mut owner, &vec![], &"late".to_owned(), 12));
    assert_eq!(row.status, "failed");
    assert_eq!(row.completed_at, Some(9));
    assert_eq!(owner.status, "failed");
    let owed = claimed_delivery("exe", "owner", 60);
    assert!(!complete_execution(&mut row, &mut owner, &vec![owed], 13));
}

#[test]
fn replacement_queues_a_successor_and_keeps_executing() {
    let mut row = owned("exe", "owner", 60);
    let mut owner = session("executing");
    let made = replace_active_execution_with_queued(
        &mut row,
        &mut owner,
        &vec![],
        "exe-next".to_owned(),
        &"key-next".to_owned(),
        json("{\"a\": 1}"),
        OwnedTerminalEvent::Cancelled { reason: "replaced".to_owned(), payload: json("{}") },
        9,
    )
    .unwrap();
    assert_eq!(row.status, "cancelled");
    assert_eq!(owner.status, "executing");
    assert_eq!(made.successor.execution_id, "exe-next");
    assert_eq!(made.successor.status, "queued");
    assert_eq!(made.successor.metadata, json("{\"a\": 1}"));
    assert_eq!(made.event.event_type, "session.execution_cancelled");
    assert!(replace_active_execution_with_queued(
        &mut row,
        &mut owner,
        &vec![],
        "exe-third".to_owned(),
        &"key-third".to_owned(),
        json("{}"),
        completed(),
        10,
    )
    .is_none());
}

#[test]
fn latest_active_execution_is_found() {
    let rows = vec![
        execution("a", "running"),
        execution("b", "queued"),
        execution("c", "completed"),
    ];
    assert_eq!(active_execution_for_thread(&rows, "test:thread"), Some(1));
    assert_eq!(active_execution_for_thread(&rows, "test:other"), None);
    let ended = vec![execution("c", "failed")];
    assert_eq!(active_execution_for_thread(&ended, "test:thread"), None);
    let mut unsorted = rows;
    unsorted[0].created_at = unsorted[1].created_at + 1;
    assert_eq!(active_execution_for_thread(&unsorted, "test:thread"), Some(0));
}

#[test]
fn ownership_snapshot_tells_live_leases() {
    let parses = || SessionExecutionRowParses {
        thread_key: Ok(ThreadKey { value: "test:thread".to_owned() }),
        status: Ok(ExecutionStatus::Running),
    };
    let live = active_execution_ownership(owned("exe", "owner", 60), parses(), 59)
        .unwrap()
        .unwrap();
    assert!(live.stdout_owner_lease_active);
    assert_eq!(live.stdout_owner_id.as_deref(), Some("owner"));
    let lapsed = active_execution_ownership(owned("exe", "owner", 60), parses(), 60)
        .unwrap()
        .unwrap();
    assert!(!lapsed.stdout_owner_lease_active);
    assert!(active_execution_ownership(execution("exe", "completed"), parses(), 1)
        .unwrap()
        .is_none());
}

#[test]
fn active_executions_are_listed_in_order() {
    let parses = || SessionExecutionRowParses {
        thread_key: Ok(ThreadKey { value: "test:thread".to_owned() }),
        status: Ok(ExecutionStatus::Running),
    };
    let rows = || {
        vec![
            (execution("b", "running"), parses()),
            (execution("c", "completed"), parses()),
            (owned("a", "owner", 60), parses()),
        ]
    };
    let active: Vec<String> = list_active_executions(rows())
        .unwrap()
        .into_iter()
        .map(|one| one.execution_id)
        .collect();
    assert_eq!(active, vec!["b", "a"]);
    let mut unsorted = rows();
    unsorted[0].0.created_at = 9;
    let active: Vec<String> = list_active_executions(unsorted)
        .unwrap()
        .into_iter()
        .map(|one| one.execution_id)
        .collect();
    assert_eq!(active, vec!["a", "b"]);
    let owners: Vec<(String, bool)> = list_active_executions_with_ownership(rows(), 59)
        .unwrap()
        .into_iter()
        .map(|one| (one.execution.execution_id, one.stdout_owner_lease_active))
        .collect();
    assert_eq!(owners, vec![("b".to_owned(), false), ("a".to_owned(), true)]);
    let refused = || {
        let mut list = rows();
        list[2].1.status = Err("bad status".to_owned());
        list
    };
    assert!(matches!(
        list_active_executions(refused()),
        Err(SessionStoreError::InvalidPersistedValue(words)) if words == "bad status"
    ));
    assert!(matches!(
        list_active_executions_with_ownership(refused(), 59),
        Err(SessionStoreError::InvalidPersistedValue(words)) if words == "bad status"
    ));
}

#[test]
fn recorded_boundary_keeps_the_metadata_that_came_in() {
    let mut row = execution("exe", "running");
    row.metadata = json("{\"actor\": \"u1\", \"metadata_trace_enabled\": true}");
    row.merge_execution_metadata(json("{\"metadata_trace_enabled\": false, \"extra\": [1]}"), 9);
    assert_eq!(
        row.metadata,
        json("{\"actor\": \"u1\", \"metadata_trace_enabled\": false, \"extra\": [1]}")
    );
    assert_eq!(row.updated_at, 9);
    row.merge_execution_metadata(json("{}"), 10);
    assert_eq!(row.metadata["actor"], json("\"u1\""));
    row.metadata = json("[1]");
    row.merge_execution_metadata(json("{\"a\": 2}"), 11);
    assert_eq!(row.metadata, json("[1, {\"a\": 2}]"));
}

#[test]
fn end_touches_only_the_session_of_its_thread() {
    let mut row = owned("exe", "owner", 60);
    let mut elsewhere = session("executing");
    elsewhere.thread_key = "test:other".to_owned();
    assert!(terminalize_execution_and_append_event_if_stdout_owner(
        &mut row,
        &mut elsewhere,
        &vec![],
        &vec![],
        "owner",
        completed(),
        at(10),
    )
    .is_some());
    assert_eq!(elsewhere.status, "executing");

    let mut other_thread = execution("other", "running");
    other_thread.thread_key = "test:other".to_owned();
    let mut row = owned("exe", "owner", 60);
    let mut own = session("executing");
    assert!(terminalize_execution_and_append_event_if_stdout_owner(
        &mut row,
        &mut own,
        &vec![],
        &vec![other_thread],
        "owner",
        completed(),
        at(10),
    )
    .is_some());
    assert_eq!(own.status, "idle");
}
