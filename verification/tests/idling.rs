use centaur_session_sqlx::error::SessionStoreError;
use centaur_session_sqlx::idle::{
    effective_idle_timeout, idle_candidate_from_row, idle_deadline_elapsed, is_paused,
    list_idle_sandbox_candidates, list_sandbox_capacity_candidates, workflow_owned_sandbox,
    IdleSandboxCandidateRow, ObservedSession, SandboxEventRow, WorkflowObservation,
};
use centaur_session_sqlx::listing::list_workflow_owned_sandboxes;
use centaur_session_sqlx::model::{ProxyLabels, ThreadKey};
use centaur_session_sqlx::ordering::order_by_time;
use centaur_session_sqlx::rows::{
    SandboxColumns, SessionExecutionRow, SessionRow, TraceColumns,
};
use centaur_session_sqlx::time::{remaining, span};
use serde_json::Value;
use time::OffsetDateTime;

const SECOND: i128 = 1_000_000_000;

fn key(text: &str) -> ThreadKey {
    ThreadKey { value: text.to_owned() }
}

fn json(text: &str) -> Value {
    serde_json::from_str(text).unwrap()
}

fn now() -> i128 {
    OffsetDateTime::now_utc().unix_timestamp_nanos()
}

fn idle_row(metadata: &str, completed_at: i128) -> IdleSandboxCandidateRow {
    IdleSandboxCandidateRow {
        thread_key: Ok(key("test:idle-row")),
        sandbox_id: "sbx-idle-row".to_owned(),
        resource_uid: Some("uid-idle-row".to_owned()),
        assignment_epoch: Some("epoch-idle-row".to_owned()),
        execution_id: "exe-idle-row".to_owned(),
        completed_at,
        metadata: json(metadata),
    }
}

#[test]
fn idle_candidate_uses_persisted_timeout_deadline() {
    let now = now();
    let candidate = idle_candidate_from_row(
        idle_row("{\"idle_timeout_ms\": 1000}", now - 2 * SECOND),
        3600 * SECOND as u128,
        now,
    )
    .unwrap()
    .expect("candidate should use persisted timeout");

    assert_eq!(candidate.idle_timeout, SECOND as u128);
}

#[test]
fn idle_candidate_waits_for_persisted_timeout_even_when_backstop_elapsed() {
    let now = now();
    let candidate = idle_candidate_from_row(
        idle_row("{\"idle_timeout_ms\": 10000}", now - 2 * SECOND),
        SECOND as u128,
        now,
    )
    .unwrap();

    assert!(candidate.is_none());
}

#[test]
fn idle_candidate_falls_back_to_backstop_for_missing_or_invalid_timeout() {
    let now = now();
    let candidate = idle_candidate_from_row(
        idle_row("{\"idle_timeout_ms\": \"not-a-number\"}", now - 2 * SECOND),
        SECOND as u128,
        now,
    )
    .unwrap()
    .expect("candidate should use backstop");

    assert_eq!(candidate.idle_timeout, SECOND as u128);
}

#[test]
fn idle_timeout_falls_back_for_every_unusable_value() {
    let backstop = 5 * SECOND as u128;
    for metadata in [
        "{}",
        "[]",
        "null",
        "{\"idle_timeout_ms\": 0}",
        "{\"idle_timeout_ms\": -5}",
        "{\"idle_timeout_ms\": 1.5}",
        "{\"idle_timeout_ms\": null}",
    ] {
        assert_eq!(effective_idle_timeout(&json(metadata), backstop), backstop);
    }
    assert_eq!(effective_idle_timeout(&json("{}"), 0), 1_000_000);
    assert_eq!(
        effective_idle_timeout(&json("{\"idle_timeout_ms\": 18446744073709551615}"), 0),
        18_446_744_073_709_551_615_000_000
    );
}

#[test]
fn idle_deadline_elapses_exactly_at_the_timeout() {
    assert!(!idle_deadline_elapsed(100, 50, 149));
    assert!(idle_deadline_elapsed(100, 50, 150));
    assert!(!idle_deadline_elapsed(100, 0, 99));
    assert!(idle_deadline_elapsed(i128::MIN, u128::MAX, i128::MAX));
}

#[test]
fn refused_key_matters_only_for_an_idle_sandbox() {
    let mut busy = idle_row("{}", 100);
    busy.thread_key = Err("bad key".to_owned());
    assert!(matches!(
        idle_candidate_from_row(busy, 10_000_000, 101),
        Ok(None)
    ));
    let mut idle = idle_row("{}", 0);
    idle.thread_key = Err("bad key".to_owned());
    assert!(matches!(
        idle_candidate_from_row(idle, 10_000_000, 10_000_000),
        Err(SessionStoreError::InvalidPersistedValue(words)) if words == "bad key"
    ));
}

fn observed(name: &str) -> ObservedSession {
    ObservedSession {
        thread_key: Ok(key(name)),
        row: SessionRow {
            thread_key: name.to_owned(),
            title: None,
            sandbox: SandboxColumns {
                sandbox_id: Some(format!("sbx-{name}")),
                resource_uid: None,
                assignment_epoch: None,
                repo_cache_enabled: None,
                repo_cache_access: None,
                observability_enabled: None,
                api_server_enabled: None,
                trace: TraceColumns {
                    enabled: None,
                    expires_at: None,
                    subject_hash: None,
                    source: None,
                    workspace_id: None,
                    user_id: None,
                    consent_revision: None,
                    config_fingerprint: None,
                    config_generation: None,
                    resource_uid: None,
                    assignment_epoch: None,
                },
                last_active_at: None,
            },
            harness_type: "codex".to_owned(),
            harness_thread_id: None,
            persona_id: None,
            status: "idle".to_owned(),
            iron_control_principal: None,
            proxy_labels: ProxyLabels { entries: vec![] },
            created_at: 1,
            updated_at: 950,
        },
    }
}

fn ran(thread: &str, created_at: i128, status: &str, completed_at: Option<i128>) -> SessionExecutionRow {
    SessionExecutionRow {
        execution_id: format!("exe-{thread}"),
        idempotency_key: None,
        thread_key: thread.to_owned(),
        status: status.to_owned(),
        metadata: json("{\"idle_timeout_ms\": 1}"),
        error: None,
        created_at,
        updated_at: 1,
        started_at: None,
        completed_at,
        stdout_owner_id: None,
        stdout_owner_lease_expires_at: None,
    }
}

#[test]
fn idle_candidates_use_persisted_execution_idle_timeout() {
    let mut unassigned = observed("unassigned");
    unassigned.row.sandbox.sandbox_id = None;
    let mut waiting = ran("waiting", 1, "completed", Some(0));
    waiting.metadata = json("{\"idle_timeout_ms\": 60000}");
    let mut replaced = ran("replaced", 1, "completed", Some(0));
    replaced.execution_id = "exe-earlier".to_owned();
    let executions = vec![
        ran("failed", 1, "failed", Some(7)),
        waiting,
        ran("running", 1, "running", None),
        ran("due", 1, "completed", Some(3)),
        ran("successor", 2, "completed", Some(0)),
        ran("successor", 1, "queued", None),
        ran("unassigned", 1, "completed", Some(0)),
        ran("without-end", 1, "completed", None),
        ran("cancelled", 1, "cancelled", Some(3)),
        ran("replaced", 2, "failed", Some(4)),
        replaced,
        ran("elsewhere", 9, "running", None),
    ];
    let list = list_idle_sandbox_candidates(
        vec![
            observed("failed"),
            observed("waiting"),
            observed("running"),
            observed("due"),
            observed("successor"),
            unassigned,
            observed("without-end"),
            observed("cancelled"),
            observed("replaced"),
            observed("never-ran"),
        ],
        &executions,
        3600 * SECOND as u128,
        SECOND,
    )
    .unwrap();
    let keys: Vec<&str> = list.iter().map(|one| one.thread_key.as_str()).collect();
    assert_eq!(keys, vec!["due", "cancelled", "replaced", "failed"]);
    assert_eq!(list[0].sandbox_id, "sbx-due");
    assert_eq!(list[0].execution_id, "exe-due");
    assert_eq!(list[2].execution_id, "exe-replaced");
}

#[test]
fn first_refused_key_of_an_idle_listing_is_reported() {
    let mut bad = observed("bad");
    bad.thread_key = Err("bad key".to_owned());
    let mut worse = observed("worse");
    worse.thread_key = Err("worse key".to_owned());
    let executions = vec![
        ran("good", 1, "completed", Some(1)),
        ran("bad", 1, "completed", Some(2)),
        ran("worse", 1, "completed", Some(3)),
    ];
    assert!(matches!(
        list_idle_sandbox_candidates(vec![worse, bad, observed("good")], &executions, 1, SECOND),
        Err(SessionStoreError::InvalidPersistedValue(words)) if words == "bad key"
    ));
}

fn capacity(name: &str, at: i128) -> ObservedSession {
    let mut seen = observed(name);
    seen.row.sandbox.last_active_at = Some(at);
    seen
}

fn told(event_id: i64, thread: &str, event_type: &str, created_at: i128) -> SandboxEventRow {
    SandboxEventRow {
        event_id,
        thread_key: thread.to_owned(),
        event_type: event_type.to_owned(),
        sandbox_id: Some(format!("sbx-{thread}")),
        created_at,
    }
}

#[test]
fn capacity_candidates_are_idle_and_not_paused() {
    let seen = || {
        let mut by_update = observed("by-update");
        by_update.row.updated_at = 50;
        vec![
            capacity("hot", 101),
            by_update,
            observed("by-execution"),
            capacity("first", 10),
            capacity("excluded", 3),
            capacity("active", 2),
            capacity("paused", 1),
        ]
    };
    let executions = vec![
        ran("active", 1, "running", None),
        ran("by-execution", 2, "completed", Some(40)),
        ran("by-execution", 1, "completed", Some(41)),
        ran("by-update", 1, "queued-once", None),
        ran("first", 1, "completed", Some(900)),
    ];
    let events = vec![
        told(4, "paused", "session.sandbox_paused", 9),
        told(3, "paused", "session.sandbox_resumed", 9),
        told(5, "paused", "session.output.line", 10),
        told(1, "first", "session.sandbox_paused", 1),
        told(2, "first", "session.sandbox_ready", 2),
    ];
    let list = list_sandbox_capacity_candidates(
        seen(),
        &executions,
        &events,
        Some("excluded"),
        100,
        10,
    )
    .unwrap();
    let found: Vec<(&str, i128)> = list
        .iter()
        .map(|one| (one.thread_key.as_str(), one.last_active_at))
        .collect();
    assert_eq!(found, vec![("first", 10), ("by-execution", 40), ("by-update", 50)]);
    assert_eq!(list[0].latest_execution_id.as_deref(), Some("exe-first"));
    let limited =
        list_sandbox_capacity_candidates(seen(), &executions, &events, None, 100, 2).unwrap();
    let found: Vec<&str> = limited.iter().map(|one| one.thread_key.as_str()).collect();
    assert_eq!(found, vec!["excluded", "first"]);
    assert!(list_sandbox_capacity_candidates(seen(), &executions, &events, None, 100, 0)
        .unwrap()
        .is_empty());
}

#[test]
fn pause_is_told_by_the_latest_event_of_the_sandbox() {
    let events = vec![
        told(2, "a", "session.sandbox_paused", 5),
        told(1, "a", "session.sandbox_ready", 6),
    ];
    assert!(!is_paused(&events, "a", "sbx-a"));
    assert!(is_paused(&vec![told(2, "a", "session.sandbox_paused", 5)], "a", "sbx-a"));
    assert!(!is_paused(&vec![told(2, "a", "session.sandbox_paused", 5)], "a", "sbx-new"));
    assert!(!is_paused(&vec![told(2, "a", "session.sandbox_paused", 5)], "b", "sbx-a"));
    assert!(!is_paused(&vec![], "a", "sbx-a"));
}

#[test]
fn values_are_put_in_the_order_of_their_time() {
    let ordered = order_by_time(vec![(3, "c"), (1, "a"), (3, "d"), (2, "b"), (1, "z")]);
    assert_eq!(ordered, vec![(1, "a"), (1, "z"), (2, "b"), (3, "c"), (3, "d")]);
}

#[test]
fn refused_key_of_a_capacity_candidate_is_reported() {
    let mut bad = capacity("bad", 1);
    bad.thread_key = Err("bad key".to_owned());
    assert!(matches!(
        list_sandbox_capacity_candidates(vec![bad], &vec![], &vec![], None, 100, 1),
        Err(SessionStoreError::InvalidPersistedValue(words)) if words == "bad key"
    ));
}

fn workflow(owned: Option<&str>, run: Option<&str>) -> WorkflowObservation {
    WorkflowObservation {
        thread_key: Ok(key("thread")),
        sandbox_id: Some("sbx".to_owned()),
        resource_uid: None,
        assignment_epoch: None,
        workflow_owned_thread: owned.map(str::to_owned),
        workflow_run_id: run.map(str::to_owned),
    }
}

#[test]
fn workflow_owns_only_the_sandboxes_of_its_run() {
    let found = workflow_owned_sandbox(workflow(Some("true"), Some("run-1")), "run-1").unwrap();
    assert_eq!(found.unwrap().sandbox_id, "sbx");
    for seen in [
        workflow(Some("false"), Some("run-1")),
        workflow(None, Some("run-1")),
        workflow(Some("true"), Some("run-2")),
        workflow(Some("true"), None),
    ] {
        assert!(workflow_owned_sandbox(seen, "run-1").unwrap().is_none());
    }
    let mut bad = workflow(Some("true"), Some("run-1"));
    bad.thread_key = Err("bad key".to_owned());
    assert!(matches!(
        workflow_owned_sandbox(bad, "run-1"),
        Err(SessionStoreError::InvalidPersistedValue(words)) if words == "bad key"
    ));
}

#[test]
fn remaining_time_is_in_whole_seconds() {
    assert_eq!(remaining(5 * SECOND, 5 * SECOND), None);
    assert_eq!(remaining(5 * SECOND, 6 * SECOND), None);
    assert_eq!(remaining(5 * SECOND, 5 * SECOND - 1), Some(0));
    assert_eq!(remaining(5 * SECOND, 2 * SECOND - 1), Some(3));
    assert_eq!(remaining(5 * SECOND, -2 * SECOND), Some(7));
    assert_eq!(remaining(i128::MAX, i128::MIN), Some(0));
    assert_eq!(span(i128::MIN, i128::MAX), u128::MAX);
}

#[test]
fn workflow_sandboxes_are_listed_or_refused() {
    let mut second = workflow(Some("true"), Some("run-1"));
    second.sandbox_id = Some("sbx-2".to_owned());
    let seen = vec![
        workflow(Some("true"), Some("run-1")),
        workflow(Some("true"), Some("run-2")),
        second,
    ];
    let listed = list_workflow_owned_sandboxes(seen, "run-1").unwrap();
    let ids: Vec<&str> = listed.iter().map(|one| one.sandbox_id.as_str()).collect();
    assert_eq!(ids, vec!["sbx", "sbx-2"]);
    let mut bad = workflow(Some("true"), Some("run-1"));
    bad.thread_key = Err("bad key".to_owned());
    assert!(matches!(
        list_workflow_owned_sandboxes(vec![workflow(None, None), bad], "run-1"),
        Err(SessionStoreError::InvalidPersistedValue(words)) if words == "bad key"
    ));
}
