use centaur_session_sqlx::assignment::{
    clear_metadata_trace_assignment_if_matches, clear_sandbox_id_if_matches,
    current_sandbox_assignment_identity, ensure_current_sandbox_assignment_identity,
    sandbox_assignment_snapshot, switch_session_harness, touch_sandbox_activity,
    touch_session_sandbox_activity, traced_assignment_is_allowed, update_sandbox_assignment,
    update_sandbox_assignment_if_matches,
    update_sandbox_assignment_if_metadata_trace_config_active, update_sandbox_id, FreshEpochs,
    SandboxAssignmentSnapshot,
};
use centaur_session_sqlx::consent::{
    metadata_trace_drain_targets, MetadataTraceActor, MetadataTraceConsent, TracedAssignmentRow,
};
use centaur_session_sqlx::consent_change::revoke_metadata_trace_consent;
use centaur_session_sqlx::error::SessionStoreError;
use centaur_session_sqlx::model::{
    Clock, HarnessType, ProxyLabels, SandboxCapabilities, SandboxRepoCacheAccess, SessionStatus,
    ThreadKey,
};
use centaur_session_sqlx::reconciliation::SandboxAssignmentReconciliationLock;
use centaur_session_sqlx::rows::{
    session_from_row, SandboxColumns, SessionExecutionRow, SessionRow, SessionRowParses,
    TraceColumns,
};
use centaur_session_sqlx::trace_config::{
    MetadataTraceConfigIdentity, MetadataTraceConfigStateRow,
};
use centaur_session_sqlx::trace_input::{
    claim_active_trace_input, lock_metadata_trace_input, ExecutionTraceBoundary, TraceInputRequest,
};
use serde_json::Value;

fn key() -> ThreadKey {
    ThreadKey { value: "test:thread".to_owned() }
}

fn empty_session() -> SessionRow {
    SessionRow {
        thread_key: "test:thread".to_owned(),
        title: None,
        sandbox: SandboxColumns {
            sandbox_id: None,
            resource_uid: None,
            assignment_epoch: None,
            repo_cache_enabled: None,
            repo_cache_access: None,
            observability_enabled: None,
            api_server_enabled: None,
            trace: TraceColumns {
                enabled: None,
                expires_at: None,
                subject_hash: None,
                source: None,
                workspace_id: None,
                user_id: None,
                consent_revision: None,
                config_fingerprint: None,
                config_generation: None,
                resource_uid: None,
                assignment_epoch: None,
            },
            last_active_at: None,
        },
        harness_type: "codex".to_owned(),
        harness_thread_id: Some("root".to_owned()),
        persona_id: None,
        status: "executing".to_owned(),
        iron_control_principal: None,
        proxy_labels: ProxyLabels { entries: vec![] },
        created_at: 1,
        updated_at: 1,
    }
}

fn parses() -> SessionRowParses {
    SessionRowParses {
        thread_key: Ok(key()),
        harness_type: Ok(HarnessType { name: "codex".to_owned() }),
        status: Ok(SessionStatus::Executing),
        repo_cache_access: Some(SandboxRepoCacheAccess { name: "all".to_owned(), enabled: true }),
        legacy_repo_cache_access: SandboxRepoCacheAccess { name: "x".to_owned(), enabled: true },
    }
}

fn capabilities(traced: bool) -> SandboxCapabilities {
    SandboxCapabilities {
        repo_cache: SandboxRepoCacheAccess { name: "all".to_owned(), enabled: true },
        observability_enabled: true,
        api_server_enabled: false,
        metadata_trace_enabled: traced,
        metadata_trace_expires_at: if traced { Some(1_000) } else { None },
        metadata_trace_subject_hash: if traced { Some("hash".to_owned()) } else { None },
        metadata_trace_consent_revision: if traced { Some(3) } else { None },
        metadata_trace_config_fingerprint: if traced { Some("fp".to_owned()) } else { None },
        metadata_trace_config_generation: if traced { Some(7) } else { None },
    }
}

fn fresh(name: &str) -> FreshEpochs {
    FreshEpochs { assignment: format!("epoch-{name}"), trace: format!("trace-{name}") }
}

fn assign(row: &mut SessionRow, sandbox: &str, uid: &str, epoch: &str) {
    update_sandbox_assignment(
        row,
        sandbox.to_owned(),
        Some(uid.to_owned()),
        &capabilities(false),
        fresh(epoch),
        5,
    );
}

fn consent() -> MetadataTraceConsent {
    MetadataTraceConsent {
        source: "slack".to_owned(),
        workspace_id: "T1".to_owned(),
        user_id: "U1".to_owned(),
        enabled: true,
        expires_at: Some(1_000),
        revision: 3,
        drain_pending: false,
    }
}

fn actor() -> MetadataTraceActor {
    MetadataTraceActor {
        source: "slack".to_owned(),
        workspace_id: "T1".to_owned(),
        user_id: "U1".to_owned(),
    }
}

fn config() -> MetadataTraceConfigStateRow {
    MetadataTraceConfigStateRow {
        generation: 7,
        config_fingerprint: "fp".to_owned(),
        reconciler_owner_id: None,
        reconciler_fence: 0,
        reconciler_lease_expires_at: None,
        activated_at: 0,
        updated_at: 0,
    }
}

fn identity() -> MetadataTraceConfigIdentity {
    MetadataTraceConfigIdentity { generation: 7, fingerprint: "fp".to_owned(), enabled: true }
}

fn assign_traced(
    row: &mut SessionRow,
    held: Option<MetadataTraceConsent>,
    state: Option<MetadataTraceConfigStateRow>,
    expected: &SandboxAssignmentSnapshot,
    wanted: &SandboxCapabilities,
) -> Result<bool, SessionStoreError> {
    update_sandbox_assignment_if_metadata_trace_config_active(
        row,
        &held,
        &state,
        "sbx-traced".to_owned(),
        wanted,
        &identity(),
        expected,
        "T1".to_owned(),
        "U1".to_owned(),
        &"uid-traced".to_owned(),
        fresh("traced"),
        Clock { now: 9, wall: 10 },
    )
}

fn traced_row(row: &SessionRow) -> TracedAssignmentRow {
    TracedAssignmentRow {
        thread_key: Ok(key()),
        sandbox_id: row.sandbox.sandbox_id.clone(),
        trace: row.sandbox.trace.clone(),
    }
}

#[test]
fn generic_sandbox_assignment_updates_are_cas_fenced() {
    let mut row = empty_session();
    assign(&mut row, "sbx-old", "uid-old", "1");
    let stale = sandbox_assignment_snapshot(&Some(row.clone()), &key()).unwrap();
    assign(&mut row, "sbx-old", "uid-replacement", "2");
    assert!(!update_sandbox_assignment_if_matches(
        &mut row,
        "sbx-stale".to_owned(),
        Some("uid-stale".to_owned()),
        &capabilities(false),
        &stale,
        fresh("3"),
        6,
    ));
    assert_eq!(row.sandbox.sandbox_id.as_deref(), Some("sbx-old"));
    let current = sandbox_assignment_snapshot(&Some(row.clone()), &key()).unwrap();
    assert!(update_sandbox_assignment_if_matches(
        &mut row,
        "sbx-new".to_owned(),
        Some("uid-new".to_owned()),
        &capabilities(false),
        &current,
        fresh("4"),
        7,
    ));
    let lock = SandboxAssignmentReconciliationLock::lock_sandbox_assignment_for_reconciliation(
        &Some(row.clone()),
        &"sbx-new".to_owned(),
    )
    .unwrap();
    assert_eq!(lock.resource_uid(), Some("uid-new"));
    assert_eq!(lock.assignment_epoch(), Some("epoch-4"));
    assert_eq!(lock.metadata_trace_assignment_epoch(), None);
    assert!(SandboxAssignmentReconciliationLock::lock_sandbox_assignment_for_reconciliation(
        &Some(row),
        &"sbx-old".to_owned(),
    )
    .is_none());
}

#[test]
fn same_name_reuse_is_told_apart_by_its_epoch() {
    let mut row = empty_session();
    assign(&mut row, "sbx", "uid", "1");
    let stale = sandbox_assignment_snapshot(&Some(row.clone()), &key()).unwrap();
    assign(&mut row, "sbx", "uid", "2");
    assert!(!stale.is_current(&row.sandbox));
}

#[test]
fn unassigned_snapshot_matches_a_session_without_sandbox() {
    let mut row = empty_session();
    let none = SandboxAssignmentSnapshot::unassigned();
    assert_eq!(none.sandbox_id, None);
    assert_eq!(none.resource_uid, None);
    assert_eq!(none.assignment_epoch, None);
    assert!(none.is_current(&row.sandbox));
    assign(&mut row, "sbx", "uid", "1");
    assert!(!none.is_current(&row.sandbox));
    assert!(matches!(
        sandbox_assignment_snapshot(&None, &key()),
        Err(SessionStoreError::NotFound { thread_key }) if thread_key == "test:thread"
    ));
}

#[test]
fn sandbox_assignment_round_trips_metadata_trace_expiry() {
    let mut row = empty_session();
    update_sandbox_assignment(
        &mut row,
        "sbx".to_owned(),
        None,
        &capabilities(true),
        fresh("1"),
        5,
    );
    assert_eq!(row.sandbox.trace.assignment_epoch.as_deref(), Some("trace-1"));
    assert_eq!(row.sandbox.last_active_at, Some(5));
    let session = session_from_row(row, parses()).unwrap();
    assert_eq!(session.sandbox_capabilities, Some(capabilities(true)));
}

#[test]
fn untraced_assignment_has_no_trace_epoch() {
    let mut row = empty_session();
    assign(&mut row, "sbx", "uid", "1");
    assert_eq!(row.sandbox.trace.enabled, Some(false));
    assert_eq!(row.sandbox.trace.assignment_epoch, None);
    let session = session_from_row(row, parses()).unwrap();
    assert_eq!(session.sandbox_capabilities, Some(capabilities(false)));
}

#[test]
fn naming_a_sandbox_forgets_the_assignment_before() {
    let mut row = empty_session();
    assign(&mut row, "sbx", "uid", "1");
    update_sandbox_id(&mut row, Some("sbx-2".to_owned()), 8);
    assert_eq!(row.sandbox.sandbox_id.as_deref(), Some("sbx-2"));
    assert_eq!(row.sandbox.resource_uid, None);
    assert_eq!(row.sandbox.repo_cache_enabled, None);
    assert_eq!(row.sandbox.last_active_at, Some(8));
    update_sandbox_id(&mut row, None, 9);
    assert_eq!(row.sandbox.sandbox_id, None);
    assert_eq!(row.sandbox.last_active_at, None);
}

#[test]
fn identity_is_initialized_for_the_observed_resource_only() {
    let mut row = empty_session();
    update_sandbox_id(&mut row, Some("sbx".to_owned()), 3);
    assert!(current_sandbox_assignment_identity(&row.sandbox, "sbx").is_none());
    let uid = Some("uid".to_owned());
    let made = ensure_current_sandbox_assignment_identity(
        &mut row,
        "sbx",
        &uid,
        &"epoch".to_owned(),
        4,
    )
    .unwrap();
    assert_eq!(made.assignment_epoch, "epoch");
    assert_eq!(made.resource_uid, uid);
    let again = ensure_current_sandbox_assignment_identity(
        &mut row,
        "sbx",
        &uid,
        &"epoch-unused".to_owned(),
        5,
    )
    .unwrap();
    assert_eq!(again, made);
    assert!(ensure_current_sandbox_assignment_identity(
        &mut row,
        "sbx",
        &Some("uid-other".to_owned()),
        &"epoch-unused".to_owned(),
        6,
    )
    .is_none());
    assert!(ensure_current_sandbox_assignment_identity(
        &mut row,
        "sbx-other",
        &uid,
        &"epoch-unused".to_owned(),
        6,
    )
    .is_none());
    assert_eq!(current_sandbox_assignment_identity(&row.sandbox, "sbx"), Some(made));
}

#[test]
fn traced_assignment_is_found_by_its_drain_and_cleared_once() {
    let mut row = empty_session();
    let none = SandboxAssignmentSnapshot::unassigned();
    let wanted = capabilities(true);
    assert!(
        assign_traced(&mut row, Some(consent()), Some(config()), &none, &wanted).unwrap()
    );
    assert_eq!(row.sandbox.trace.source.as_deref(), Some("slack"));
    assert_eq!(row.sandbox.trace.workspace_id.as_deref(), Some("T1"));
    assert_eq!(row.sandbox.trace.resource_uid.as_deref(), Some("uid-traced"));
    assert_eq!(row.sandbox.trace.assignment_epoch.as_deref(), Some("trace-traced"));
    assert_eq!(row.sandbox.assignment_epoch.as_deref(), Some("epoch-traced"));
    let targets = metadata_trace_drain_targets(&vec![traced_row(&row)], &actor(), 3).unwrap();
    assert_eq!(targets.len(), 1);
    let mut replacement = row.clone();
    replacement.sandbox.trace.assignment_epoch = Some("trace-later".to_owned());
    assert!(!clear_metadata_trace_assignment_if_matches(
        &mut replacement,
        &targets[0],
        &actor(),
        20,
    ));
    assert!(clear_metadata_trace_assignment_if_matches(&mut row, &targets[0], &actor(), 20));
    assert_eq!(row.sandbox.sandbox_id, None);
    assert_eq!(row.sandbox.trace.enabled, None);
    assert_eq!(row.sandbox.repo_cache_enabled, Some(true));
    assert!(!clear_metadata_trace_assignment_if_matches(&mut row, &targets[0], &actor(), 21));
}

#[test]
fn traced_assignment_is_refused_without_its_fences() {
    let none = SandboxAssignmentSnapshot::unassigned();
    let wanted = capabilities(true);
    let mut row = empty_session();
    let refused = |held, state| {
        let mut one = empty_session();
        assign_traced(&mut one, held, state, &none, &wanted)
    };
    assert!(!refused(None, Some(config())).unwrap());
    assert!(!refused(Some(consent()), None).unwrap());
    let mut disabled = consent();
    disabled.enabled = false;
    assert!(!refused(Some(disabled), Some(config())).unwrap());
    let mut draining = consent();
    draining.drain_pending = true;
    assert!(!refused(Some(draining), Some(config())).unwrap());
    let mut elapsed = consent();
    elapsed.expires_at = Some(10);
    assert!(!refused(Some(elapsed), Some(config())).unwrap());
    let mut moved = consent();
    moved.revision = 4;
    assert!(!refused(Some(moved), Some(config())).unwrap());
    let mut newer = config();
    newer.generation = 8;
    assert!(!refused(Some(consent()), Some(newer)).unwrap());
    let mut endless = consent();
    endless.expires_at = None;
    assert!(matches!(
        refused(Some(endless), Some(config())),
        Err(SessionStoreError::UnexpectedNull)
    ));
    assign(&mut row, "sbx", "uid", "1");
    assert!(!assign_traced(&mut row, Some(consent()), Some(config()), &none, &wanted).unwrap());
    assert_eq!(row.sandbox.sandbox_id.as_deref(), Some("sbx"));
}

#[test]
fn only_the_named_sandbox_is_cleared_or_touched() {
    let mut row = empty_session();
    assert!(!touch_session_sandbox_activity(&mut row, 6));
    assign(&mut row, "sbx", "uid", "1");
    assert!(!clear_sandbox_id_if_matches(&mut row, "sbx-other", 6));
    assert!(!touch_sandbox_activity(&mut row, "sbx-other", 6));
    assert!(touch_sandbox_activity(&mut row, "sbx", 7));
    assert_eq!(row.sandbox.last_active_at, Some(7));
    assert_eq!(row.updated_at, 5);
    assert!(touch_session_sandbox_activity(&mut row, 8));
    assert_eq!(row.sandbox.last_active_at, Some(8));
    assert!(clear_sandbox_id_if_matches(&mut row, "sbx", 9));
    assert_eq!(row.sandbox.sandbox_id, None);
    assert_eq!(row.sandbox.assignment_epoch, None);
    assert_eq!(row.updated_at, 9);
}

#[test]
fn switching_harness_leaves_an_idle_session_without_sandbox() {
    let mut row = empty_session();
    assign(&mut row, "sbx", "uid", "1");
    switch_session_harness(&mut row, &HarnessType { name: "other".to_owned() }, 9);
    assert_eq!(row.harness_type, "other");
    assert_eq!(row.harness_thread_id, None);
    assert_eq!(row.status, "idle");
    assert_eq!(row.sandbox.sandbox_id, None);
}

fn lock_on(row: &SessionRow) -> SandboxAssignmentReconciliationLock {
    SandboxAssignmentReconciliationLock::lock_sandbox_assignment_for_reconciliation(
        &Some(row.clone()),
        &"sbx".to_owned(),
    )
    .unwrap()
}

#[test]
fn reconciler_clears_only_the_assignment_it_locked() {
    let mut row = empty_session();
    assign(&mut row, "sbx", "uid", "1");
    let lock = lock_on(&row);
    let mut replaced = row.clone();
    assign(&mut replaced, "sbx", "uid", "2");
    assert!(!lock.is_current(&replaced));
    assert!(!lock.clear(&mut replaced, 9));
    assert!(!lock.switch_harness(&mut replaced, &HarnessType { name: "other".to_owned() }, 9));
    assert_eq!(replaced.harness_type, "codex");
    assert!(lock.is_current(&row));
    let mut switched = row.clone();
    assert!(lock.switch_harness(&mut switched, &HarnessType { name: "other".to_owned() }, 9));
    assert_eq!(switched.status, "idle");
    assert!(lock.clear(&mut row, 9));
    assert_eq!(row.sandbox.sandbox_id, None);
    assert!(!lock.clear(&mut row, 10));
}

#[test]
fn reconciler_initializes_an_identity_from_before_epochs() {
    let mut row = empty_session();
    update_sandbox_id(&mut row, Some("sbx".to_owned()), 3);
    let mut lock = lock_on(&row);
    assert!(lock.initialize_legacy_identity(
        &mut row,
        &"uid-seen".to_owned(),
        &"epoch-new".to_owned(),
        4,
    ));
    assert_eq!(lock.resource_uid(), Some("uid-seen"));
    assert_eq!(lock.assignment_epoch(), Some("epoch-new"));
    assert!(lock.is_current(&row));
    assert!(!lock.initialize_legacy_identity(
        &mut row,
        &"uid-other".to_owned(),
        &"epoch-other".to_owned(),
        5,
    ));
    assert!(lock.clear(&mut row, 6));
}

fn execution(id: &str, status: &str, completed_at: Option<i128>) -> SessionExecutionRow {
    SessionExecutionRow {
        execution_id: id.to_owned(),
        idempotency_key: None,
        thread_key: "test:thread".to_owned(),
        status: status.to_owned(),
        metadata: Value::Null,
        error: None,
        created_at: 1,
        updated_at: 1,
        started_at: None,
        completed_at,
        stdout_owner_id: None,
        stdout_owner_lease_expires_at: None,
    }
}

#[test]
fn pause_is_revalidated_against_the_latest_execution() {
    let mut row = empty_session();
    assign(&mut row, "sbx", "uid", "1");
    let lock = lock_on(&row);
    let done = vec![execution("a", "completed", Some(10)), execution("b", "failed", Some(50))];
    assert!(lock.is_idle_after_execution(&done, "b", 50));
    assert!(!lock.is_idle_after_execution(&done, "b", 49));
    assert!(!lock.is_idle_after_execution(&done, "a", 50));
    assert!(!lock.is_idle_after_execution(&vec![], "a", 50));
    let mut unsorted = vec![execution("b", "failed", Some(50)), execution("a", "completed", Some(10))];
    unsorted[0].created_at = unsorted[1].created_at + 1;
    assert!(lock.is_idle_after_execution(&unsorted, "b", 50));
    assert!(!lock.is_idle_after_execution(&unsorted, "a", 50));
    let mut elsewhere = execution("c", "running", None);
    elsewhere.thread_key = "test:elsewhere".to_owned();
    let mut with_other = done.clone();
    with_other.push(elsewhere);
    assert!(lock.is_idle_after_execution(&with_other, "b", 50));
    assert!(lock.is_idle_without_active_execution(&row, &with_other, 5));
    let busy = vec![execution("a", "running", None), execution("b", "failed", Some(50))];
    assert!(!lock.is_idle_after_execution(&busy, "b", 60));
    assert!(lock.is_idle_without_active_execution(&row, &done, 5));
    assert!(!lock.is_idle_without_active_execution(&row, &done, 4));
    assert!(!lock.is_idle_without_active_execution(&row, &busy, 5));
}

fn pipe() -> TraceInputRequest {
    TraceInputRequest {
        thread_key: key(),
        execution_id: "exe".to_owned(),
        sandbox_id: "sbx-traced".to_owned(),
        assignment_epoch: "trace-traced".to_owned(),
        resource_uid: "uid-traced".to_owned(),
    }
}

fn traced_session() -> SessionRow {
    let mut row = empty_session();
    assert!(assign_traced(
        &mut row,
        Some(consent()),
        Some(config()),
        &SandboxAssignmentSnapshot::unassigned(),
        &capabilities(true),
    )
    .unwrap());
    row
}

#[test]
fn metadata_trace_input_guard_blocks_revoke_and_config_rollover() {
    let lock = |session: Option<SessionRow>,
                run: Option<SessionExecutionRow>,
                held: Option<MetadataTraceConsent>,
                state: Option<MetadataTraceConfigStateRow>,
                request: TraceInputRequest,
                at: i128| {
        lock_metadata_trace_input(
            &session,
            &run,
            &held,
            &state,
            &request,
            &capabilities(true),
            at,
        )
        .unwrap()
    };
    let run = || Some(execution("exe", "running", None));
    let guard = lock(
        Some(traced_session()),
        run(),
        Some(consent()),
        Some(config()),
        pipe(),
        20,
    )
    .unwrap();
    assert_eq!(guard.deadline, 1_000);
    assert_eq!(guard.assignment_epoch, "trace-traced");
    assert_eq!(guard.resource_uid, "uid-traced");
    assert_eq!(guard.remaining(999), Some(0));
    assert_eq!(guard.remaining(1_000), None);

    let mut revoked = consent();
    revoked.enabled = false;
    let mut draining = consent();
    draining.drain_pending = true;
    let mut moved = consent();
    moved.revision = 5;
    let mut others = consent();
    others.user_id = "U2".to_owned();
    for held in [None, Some(revoked), Some(draining), Some(moved), Some(others)] {
        assert!(lock(Some(traced_session()), run(), held, Some(config()), pipe(), 20).is_none());
    }
    assert!(lock(
        Some(traced_session()),
        run(),
        Some(consent()),
        Some(config()),
        pipe(),
        1_000
    )
    .is_none());
    let mut rolled = config();
    rolled.config_fingerprint = "fp-next".to_owned();
    for state in [None, Some(rolled)] {
        assert!(lock(Some(traced_session()), run(), Some(consent()), state, pipe(), 20).is_none());
    }
    let mut other_epoch = pipe();
    other_epoch.assignment_epoch = "trace-other".to_owned();
    let mut other_execution = pipe();
    other_execution.execution_id = "exe-other".to_owned();
    for request in [other_epoch, other_execution] {
        assert!(lock(
            Some(traced_session()),
            run(),
            Some(consent()),
            Some(config()),
            request,
            20
        )
        .is_none());
    }
    assert!(lock(
        Some(traced_session()),
        Some(execution("exe", "completed", Some(5))),
        Some(consent()),
        Some(config()),
        pipe(),
        20
    )
    .is_none());
    assert!(lock(None, run(), Some(consent()), Some(config()), pipe(), 20).is_none());
}

#[test]
fn trace_boundary_without_a_generation_cannot_be_compared() {
    let mut wanted = capabilities(true);
    wanted.metadata_trace_config_generation = None;
    let mut row = traced_session();
    row.sandbox.trace.config_generation = None;
    assert!(matches!(
        lock_metadata_trace_input(
            &Some(row),
            &Some(execution("exe", "running", None)),
            &Some(consent()),
            &Some(config()),
            &pipe(),
            &wanted,
            20,
        ),
        Err(SessionStoreError::UnexpectedNull)
    ));
}

fn boundary() -> ExecutionTraceBoundary {
    ExecutionTraceBoundary {
        enabled: true,
        subject_hash: Some("hash".to_owned()),
        consent_revision: Some(3),
        expires_at: Some(1_000),
        config_fingerprint: Some("fp".to_owned()),
        config_generation: Some(7),
    }
}

#[test]
fn trace_input_claim_fences_actor_revoke_revision_and_expiry() {
    let claim = |recorded: ExecutionTraceBoundary,
                 wanted: SandboxCapabilities,
                 state: Option<MetadataTraceConfigStateRow>,
                 now: i128| {
        let mut row = execution("exe", "running", None);
        let claimed =
            claim_active_trace_input(&mut row, &vec![], &recorded, &wanted, &state, now);
        assert_eq!(row.updated_at, if claimed { now } else { 1 });
        claimed
    };
    assert!(claim(boundary(), capabilities(true), Some(config()), 20));
    assert!(!claim(boundary(), capabilities(true), Some(config()), 1_000));
    assert!(!claim(boundary(), capabilities(true), None, 20));
    let mut other_actor = boundary();
    other_actor.subject_hash = Some("hash-other".to_owned());
    assert!(!claim(other_actor, capabilities(true), Some(config()), 20));
    let mut other_revision = boundary();
    other_revision.consent_revision = Some(4);
    assert!(!claim(other_revision, capabilities(true), Some(config()), 20));
    let mut revoked = boundary();
    revoked.enabled = false;
    assert!(!claim(revoked, capabilities(true), Some(config()), 20));
    let mut other_subject = capabilities(true);
    other_subject.metadata_trace_subject_hash = Some("u2".to_owned());
    assert!(!claim(boundary(), other_subject, Some(config()), 20));
    let mut lapsed = boundary();
    lapsed.expires_at = Some(19);
    let mut wanted_lapsed = capabilities(true);
    wanted_lapsed.metadata_trace_expires_at = Some(19);
    assert!(!claim(lapsed, wanted_lapsed, Some(config()), 20));
    assert!(!claim(boundary(), capabilities(false), Some(config()), 20));
    let untraced = ExecutionTraceBoundary {
        enabled: false,
        subject_hash: None,
        consent_revision: None,
        expires_at: None,
        config_fingerprint: None,
        config_generation: None,
    };
    assert!(claim(untraced, capabilities(false), None, 20));
    let mut ended = execution("exe", "completed", Some(5));
    assert!(!claim_active_trace_input(
        &mut ended,
        &vec![],
        &boundary(),
        &capabilities(true),
        &Some(config()),
        20,
    ));
}

#[test]
fn stale_generation_neither_assigns_nor_clears() {
    let stale = MetadataTraceConfigIdentity {
        generation: 6,
        fingerprint: "fp-stale".to_owned(),
        enabled: true,
    };
    let none = SandboxAssignmentSnapshot::unassigned();
    let write = |row: &mut SessionRow, sandbox: &str, identity: &MetadataTraceConfigIdentity| {
        update_sandbox_assignment_if_metadata_trace_config_active(
            row,
            &Some(consent()),
            &Some(config()),
            format!("sbx-{sandbox}"),
            &capabilities(true),
            identity,
            &none,
            "T1".to_owned(),
            "U1".to_owned(),
            &format!("uid-{sandbox}"),
            fresh(sandbox),
            Clock { now: 9, wall: 10 },
        )
        .unwrap()
    };
    let mut row = empty_session();
    assert!(!write(&mut row, "stale-a", &stale));
    assert_eq!(row.sandbox.sandbox_id, None);
    assert!(write(&mut row, "active-b", &identity()));
    assert!(!clear_sandbox_id_if_matches(&mut row, "sbx-stale-a", 11));
    assert_eq!(row.sandbox.sandbox_id.as_deref(), Some("sbx-active-b"));

    let revoked =
        revoke_metadata_trace_consent(Some(consent()), &vec![traced_row(&row)], &actor()).unwrap();
    assert_eq!(revoked.targets.len(), 1);
    assert_eq!(revoked.targets[0].resource_uid, "uid-active-b");
    row.sandbox.trace.resource_uid = Some("uid-replacement".to_owned());
    assert!(!clear_metadata_trace_assignment_if_matches(
        &mut row,
        &revoked.targets[0],
        &actor(),
        12,
    ));
    assert!(!write(&mut row, "late-writer", &identity()));
    assert_eq!(row.sandbox.sandbox_id.as_deref(), Some("sbx-active-b"));
}

#[test]
fn traced_assignment_is_allowed_by_consent_then_configuration() {
    let allowed = |held: Option<MetadataTraceConsent>, state| {
        traced_assignment_is_allowed(
            &held,
            &state,
            &identity(),
            &capabilities(true),
            "T1",
            "U1",
            10,
        )
    };
    assert!(allowed(Some(consent()), Some(config())).unwrap());
    for (source, workspace, user) in
        [("discord", "T1", "U1"), ("slack", "T2", "U1"), ("slack", "T1", "U2")]
    {
        let mut other = consent();
        other.source = source.to_owned();
        other.workspace_id = workspace.to_owned();
        other.user_id = user.to_owned();
        assert!(!allowed(Some(other), Some(config())).unwrap());
    }
    assert!(!allowed(None, Some(config())).unwrap());
    assert!(!allowed(Some(consent()), None).unwrap());
    let mut endless = consent();
    endless.expires_at = None;
    assert!(matches!(allowed(Some(endless), None), Err(SessionStoreError::UnexpectedNull)));
}
