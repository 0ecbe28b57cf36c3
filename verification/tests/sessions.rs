use centaur_session_sqlx::error::SessionStoreError;
use centaur_session_sqlx::listing::list_principal_sandbox_sessions;
use centaur_session_sqlx::model::{
    Clock, HarnessType, ProxyLabels, SandboxRepoCacheAccess, SessionStatus, ThreadKey,
};
use centaur_session_sqlx::rows::{
    SandboxColumns, SessionExecutionRow, SessionRow, SessionRowParses, TraceColumns,
};
use centaur_session_sqlx::session::{
    create_or_get_session_inner, get_session, has_principal_sandbox, new_session,
    set_iron_control_principal, set_session_title_if_empty, update_harness_thread_id,
    update_harness_thread_id_if_stdout_owner, SessionOutcome, SessionPrincipalBinding,
    SessionRequest,
};
use serde_json::Value;

fn key(text: &str) -> ThreadKey {
    ThreadKey { value: text.to_owned() }
}

fn labels(entries: &[(&str, &str)]) -> ProxyLabels {
    ProxyLabels {
        entries: entries
            .iter()
            .map(|(name, value)| (name.to_string(), value.to_string()))
            .collect(),
    }
}

fn row(principal: Option<&str>, proxy_labels: ProxyLabels) -> SessionRow {
    SessionRow {
        thread_key: "test:session".to_owned(),
        title: None,
        sandbox: SandboxColumns {
            sandbox_id: None,
            resource_uid: None,
            assignment_epoch: None,
            repo_cache_enabled: None,
            repo_cache_access: None,
            observability_enabled: None,
            api_server_enabled: None,
            trace: TraceColumns {
                enabled: None,
                expires_at: None,
                subject_hash: None,
                source: None,
                workspace_id: None,
                user_id: None,
                consent_revision: None,
                config_fingerprint: None,
                config_generation: None,
                resource_uid: None,
                assignment_epoch: None,
            },
            last_active_at: None,
        },
        harness_type: "codex".to_owned(),
        harness_thread_id: None,
        persona_id: None,
        status: "idle".to_owned(),
        iron_control_principal: principal.map(str::to_owned),
        proxy_labels,
        created_at: 1,
        updated_at: 1,
    }
}

fn parses() -> SessionRowParses {
    SessionRowParses {
        thread_key: Ok(key("test:session")),
        harness_type: Ok(HarnessType { name: "codex".to_owned() }),
        status: Ok(SessionStatus::Idle),
        repo_cache_access: None,
        legacy_repo_cache_access: SandboxRepoCacheAccess { name: "none".to_owned(), enabled: false },
    }
}

fn request(
    harness: &str,
    persona: Option<&str>,
    proxy_labels: ProxyLabels,
    binding: SessionPrincipalBinding,
) -> SessionRequest {
    SessionRequest {
        thread_key: key("test:session"),
        harness_type: HarnessType { name: harness.to_owned() },
        persona_id: persona.map(str::to_owned),
        proxy_labels,
        binding,
    }
}

fn exact(principal: &str) -> SessionPrincipalBinding {
    SessionPrincipalBinding::Exact(principal.to_owned())
}

fn claim(principal: &str) -> SessionPrincipalBinding {
    SessionPrincipalBinding::ClaimOrExact(principal.to_owned())
}

fn apply(row: SessionRow, request: SessionRequest) -> SessionOutcome {
    create_or_get_session_inner(row, parses(), request, 50)
}

#[test]
fn sessions_round_trip_proxy_labels() {
    let wanted = labels(&[
        ("centaur.slack_channel_id", "C123"),
        ("centaur.slack_team_id", "T123"),
        ("centaur.slack_user_id", "U123"),
    ]);
    let outcome = apply(
        row(None, wanted.clone()),
        request("codex", None, wanted.clone(), SessionPrincipalBinding::Unconstrained),
    );
    assert!(!outcome.labelled && !outcome.claimed_principal);
    assert_eq!(outcome.session.unwrap().proxy_labels, wanted);
    let kept = apply(
        row(None, wanted.clone()),
        request(
            "codex",
            None,
            labels(&[("other", "x")]),
            SessionPrincipalBinding::Unconstrained,
        ),
    );
    assert!(!kept.labelled);
    assert_eq!(kept.session.unwrap().proxy_labels, wanted);
}

#[test]
fn exact_principal_reuse_rejects_mismatches_without_mutating_proxy_labels() {
    let expected = "principal-expected";
    let created = new_session(
        &request("codex", None, labels(&[("k", "v")]), exact(expected)),
        Value::Null,
    );
    assert_eq!(created.proxy_labels, labels(&[("k", "v")]));
    assert_eq!(created.iron_control_principal.as_deref(), Some(expected));
    assert_eq!(created.status, "idle");
    assert_eq!(created.harness_type, "codex");

    let mismatch = apply(
        row(Some(expected), labels(&[])),
        request(
            "other-harness",
            None,
            labels(&[("centaur.slack_channel_id", "C-principal-mismatch")]),
            exact("principal-mismatch"),
        ),
    );
    assert!(!mismatch.labelled && !mismatch.claimed_principal);
    assert!(matches!(
        mismatch.session,
        Err(SessionStoreError::PrincipalConflict {
            existing: Some(existing),
            requested: Some(requested),
            ..
        }) if existing == expected && requested == "principal-mismatch"
    ));

    let matching = labels(&[("centaur.slack_channel_id", "C-principal-match")]);
    let matched = apply(
        row(Some(expected), labels(&[])),
        request("codex", None, matching.clone(), exact(expected)),
    );
    assert!(matched.labelled);
    assert_eq!(matched.session.unwrap().proxy_labels, matching);

    let unbound = labels(&[("centaur.slack_channel_id", "C-exact-unbound")]);
    let conflict = apply(
        row(None, labels(&[])),
        request("codex", None, unbound.clone(), exact("principal-on-unbound-session")),
    );
    assert!(!conflict.labelled);
    assert!(matches!(
        conflict.session,
        Err(SessionStoreError::PrincipalConflict {
            existing: None,
            requested: Some(requested),
            ..
        }) if requested == "principal-on-unbound-session"
    ));

    let claimed = apply(
        row(None, labels(&[])),
        request("codex", None, unbound.clone(), claim("principal-on-unbound-session")),
    );
    assert!(claimed.claimed_principal && claimed.labelled);
    let session = claimed.session.unwrap();
    assert_eq!(
        session.iron_control_principal.as_deref(),
        Some("principal-on-unbound-session")
    );
    assert_eq!(session.proxy_labels, unbound);

    let overwrite = apply(
        row(Some("principal-on-unbound-session"), unbound),
        request("codex", None, labels(&[]), claim("principal-after-claim")),
    );
    assert!(!overwrite.claimed_principal);
    assert!(matches!(
        overwrite.session,
        Err(SessionStoreError::PrincipalConflict { .. })
    ));
}

#[test]
fn harness_and_persona_must_agree() {
    let harness = apply(
        row(None, labels(&[])),
        request("other-harness", None, labels(&[]), SessionPrincipalBinding::Unconstrained),
    );
    assert!(matches!(
        harness.session,
        Err(SessionStoreError::HarnessConflict { thread_key, existing, requested })
            if thread_key == "test:session" && existing == "codex" && requested == "other-harness"
    ));
    let persona = apply(
        row(None, labels(&[])),
        request("codex", Some("p"), labels(&[]), SessionPrincipalBinding::Unconstrained),
    );
    assert!(matches!(
        persona.session,
        Err(SessionStoreError::PersonaConflict { existing: None, requested: Some(p), .. })
            if p == "p"
    ));
}

#[test]
fn changes_stand_even_where_the_session_is_refused() {
    let outcome = apply(
        row(None, labels(&[])),
        request("other-harness", None, labels(&[("a", "b")]), claim("principal")),
    );
    assert!(outcome.claimed_principal && outcome.labelled);
    assert!(matches!(
        outcome.session,
        Err(SessionStoreError::HarnessConflict { .. })
    ));
}

#[test]
fn unconstrained_request_ignores_the_principal() {
    let outcome = apply(
        row(Some("someone"), labels(&[])),
        request("codex", None, labels(&[("a", "b")]), SessionPrincipalBinding::Unconstrained),
    );
    assert!(outcome.labelled && !outcome.claimed_principal);
    assert_eq!(
        outcome.session.unwrap().iron_control_principal.as_deref(),
        Some("someone")
    );
}

#[test]
fn absent_session_is_not_found() {
    assert!(matches!(
        get_session(None, &key("test:absent")),
        Err(SessionStoreError::NotFound { thread_key }) if thread_key == "test:absent"
    ));
    let found = get_session(Some((row(None, labels(&[])), parses())), &key("test:session"));
    assert_eq!(found.unwrap().thread_key, key("test:session"));
}

#[test]
fn title_is_set_once() {
    let mut session = row(None, labels(&[]));
    assert!(set_session_title_if_empty(&mut session, "First".to_owned(), 5));
    assert!(!set_session_title_if_empty(&mut session, "Second".to_owned(), 6));
    assert_eq!(session.title.as_deref(), Some("First"));
    assert_eq!(session.updated_at, 5);
}

#[test]
fn principal_and_harness_thread_are_recorded() {
    let mut session = row(None, labels(&[]));
    set_iron_control_principal(&mut session, Some("p".to_owned()), 5);
    assert_eq!(session.iron_control_principal.as_deref(), Some("p"));
    set_iron_control_principal(&mut session, None, 6);
    assert_eq!(session.iron_control_principal, None);
    update_harness_thread_id(&mut session, Some("root".to_owned()), 7);
    assert_eq!(session.harness_thread_id.as_deref(), Some("root"));
    assert_eq!(session.updated_at, 7);
}

fn owned_execution(owner: &str, until: i128) -> SessionExecutionRow {
    SessionExecutionRow {
        execution_id: "exe-1".to_owned(),
        idempotency_key: None,
        thread_key: "test:session".to_owned(),
        status: "running".to_owned(),
        metadata: Value::Null,
        error: None,
        created_at: 1,
        updated_at: 1,
        started_at: Some(1),
        completed_at: None,
        stdout_owner_id: Some(owner.to_owned()),
        stdout_owner_lease_expires_at: Some(until),
    }
}

#[test]
fn stdout_owner_fences_harness_thread_id_updates() {
    let clock = Clock { now: 9, wall: 10 };
    let mut session = row(None, labels(&[]));
    let execution = owned_execution("owner-a", 20);
    assert!(!update_harness_thread_id_if_stdout_owner(
        &mut session,
        &execution,
        "owner-b",
        Some("intruder".to_owned()),
        clock,
    ));
    assert_eq!(session.harness_thread_id, None);
    assert!(update_harness_thread_id_if_stdout_owner(
        &mut session,
        &execution,
        "owner-a",
        Some("root-a".to_owned()),
        clock,
    ));
    assert_eq!(session.harness_thread_id.as_deref(), Some("root-a"));
    let mut other_thread = owned_execution("owner-a", 20);
    other_thread.thread_key = "test:elsewhere".to_owned();
    assert!(!update_harness_thread_id_if_stdout_owner(
        &mut session,
        &other_thread,
        "owner-a",
        None,
        clock,
    ));
    let mut ended = owned_execution("owner-a", 20);
    ended.status = "completed".to_owned();
    assert!(!update_harness_thread_id_if_stdout_owner(
        &mut session,
        &ended,
        "owner-a",
        None,
        clock,
    ));
}

#[test]
fn stdout_owner_root_write_rechecks_lease_after_waiting_on_execution_row() {
    let mut session = row(None, labels(&[]));
    let execution = owned_execution("owner-a", 20);
    assert!(!update_harness_thread_id_if_stdout_owner(
        &mut session,
        &execution,
        "owner-a",
        Some("late".to_owned()),
        Clock { now: 9, wall: 20 },
    ));
    assert_eq!(session.harness_thread_id, None);
}

#[test]
fn principal_sandboxes_are_bound_or_traced() {
    let mut session = row(None, labels(&[]));
    session.sandbox.sandbox_id = Some("sbx".to_owned());
    assert!(!has_principal_sandbox(&session));
    session.sandbox.trace.enabled = Some(true);
    assert!(has_principal_sandbox(&session));
    session.sandbox.trace.enabled = Some(false);
    session.iron_control_principal = Some("p".to_owned());
    assert!(has_principal_sandbox(&session));
    session.sandbox.sandbox_id = None;
    assert!(!has_principal_sandbox(&session));
}

#[test]
fn only_principal_sandboxes_are_listed() {
    let mut bound = row(Some("p"), labels(&[]));
    bound.sandbox.sandbox_id = Some("sbx-1".to_owned());
    let mut plain = row(None, labels(&[]));
    plain.sandbox.sandbox_id = Some("sbx-2".to_owned());
    let listed = list_principal_sandbox_sessions(vec![(bound, parses()), (plain, parses())]).unwrap();
    assert_eq!(listed.len(), 1);
    assert_eq!(listed[0].sandbox_id.as_deref(), Some("sbx-1"));
}
