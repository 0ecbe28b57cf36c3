use centaur_session_sqlx::consent::{
    has_persisted_metadata_trace_state, metadata_trace_assignment_actor, metadata_trace_consent,
    pending_metadata_trace_drains, GrantReply, MetadataTraceActor, MetadataTraceConsent,
    MetadataTraceConsentRequestRow, RevokeReply, TracedAssignmentRow,
};
use centaur_session_sqlx::consent_change::{
    complete_metadata_trace_drain_if_current_and_empty, complete_metadata_trace_drain_if_empty,
    expire_elapsed_metadata_trace_consents, grant_metadata_trace_consent,
    grant_metadata_trace_consent_idempotent, metadata_trace_drain_targets_if_current,
    metadata_trace_request_result, revoke_metadata_trace_consent,
    revoke_metadata_trace_consent_idempotent,
};
use centaur_session_sqlx::error::SessionStoreError;
use centaur_session_sqlx::model::ThreadKey;
use centaur_session_sqlx::rows::TraceColumns;
use centaur_session_sqlx::trace_config::{
    MetadataTraceConfigIdentity, MetadataTraceConfigStateRow, MetadataTraceReconcilerLease,
};

const HOUR: i128 = 3_600_000_000_000;

fn actor() -> MetadataTraceActor {
    MetadataTraceActor {
        source: "slack".to_owned(),
        workspace_id: "T1".to_owned(),
        user_id: "U1".to_owned(),
    }
}

fn consent(
    enabled: bool,
    expires_at: Option<i128>,
    revision: i64,
    drain_pending: bool,
) -> MetadataTraceConsent {
    MetadataTraceConsent {
        source: "slack".to_owned(),
        workspace_id: "T1".to_owned(),
        user_id: "U1".to_owned(),
        enabled,
        expires_at,
        revision,
        drain_pending,
    }
}

fn reserved(hash: &str) -> MetadataTraceConsentRequestRow {
    MetadataTraceConsentRequestRow {
        request_hash: hash.to_owned(),
        result_enabled: None,
        result_expires_at: None,
        result_revision: None,
        result_drain_pending: None,
        drain_assignment_revision: None,
    }
}

fn traced(name: &str, revision: i64) -> TracedAssignmentRow {
    TracedAssignmentRow {
        thread_key: Ok(ThreadKey { value: format!("test:{name}") }),
        sandbox_id: Some(format!("sbx-{name}")),
        trace: TraceColumns {
            enabled: Some(true),
            expires_at: Some(HOUR),
            subject_hash: Some("hash".to_owned()),
            source: Some("slack".to_owned()),
            workspace_id: Some("T1".to_owned()),
            user_id: Some("U1".to_owned()),
            consent_revision: Some(revision),
            config_fingerprint: Some("fp".to_owned()),
            config_generation: Some(1),
            resource_uid: Some(format!("uid-{name}")),
            assignment_epoch: Some(format!("epoch-{name}")),
        },
    }
}

#[test]
fn idempotent_trace_grant_is_one_transaction_and_replays_exact_result() {
    let first = grant_metadata_trace_consent_idempotent(
        true,
        reserved("put:fixed-hash"),
        None,
        &actor(),
        HOUR,
        Some(0),
        "put:fixed-hash",
        0,
    )
    .unwrap();
    let (granted, recorded) = match first {
        GrantReply::Applied { consent, request } => (consent, request),
        other => panic!("expected an applied grant, got {other:?}"),
    };
    assert_eq!(granted, consent(true, Some(HOUR), 1, false));
    let second = grant_metadata_trace_consent_idempotent(
        false,
        recorded.clone(),
        Some(granted.clone()),
        &actor(),
        HOUR,
        Some(0),
        "put:fixed-hash",
        1,
    )
    .unwrap();
    assert!(matches!(second, GrantReply::Replayed(again) if again == granted));

    let conflict = grant_metadata_trace_consent_idempotent(
        false,
        recorded,
        Some(granted.clone()),
        &actor(),
        HOUR + 60,
        Some(0),
        "put:different-hash",
        1,
    );
    assert!(matches!(
        conflict,
        Err(SessionStoreError::MetadataTraceIdempotencyConflict)
    ));
    assert_eq!(metadata_trace_consent(Some(granted.clone()), &actor(), 1), granted);
}

#[test]
fn preview_revision_fences_a_delayed_trace_grant_after_revoke() {
    let preview_revision = metadata_trace_consent(None, &actor(), 0).revision;
    let revoked = revoke_metadata_trace_consent(None, &vec![], &actor()).unwrap().consent;
    assert_eq!(preview_revision, 0);
    assert!(!revoked.enabled);
    assert_eq!(revoked.revision, 1);
    assert!(matches!(
        grant_metadata_trace_consent_idempotent(
            true,
            reserved("put:delayed-confirmation"),
            Some(revoked.clone()),
            &actor(),
            HOUR,
            Some(preview_revision),
            "put:delayed-confirmation",
            0,
        ),
        Err(SessionStoreError::MetadataTraceConsentRevisionChanged)
    ));
    assert_eq!(metadata_trace_consent(Some(revoked.clone()), &actor(), 0), revoked);
}

#[test]
fn expired_consent_reports_off_and_can_be_renewed_from_its_revision() {
    let expired = grant_metadata_trace_consent(None, &actor(), HOUR - 1).unwrap();
    assert!(expired.enabled);
    let status = metadata_trace_consent(Some(expired.clone()), &actor(), HOUR);
    assert!(!status.enabled, "elapsed grants must report as off");
    assert_eq!(status.expires_at, None);
    assert_eq!(status.revision, expired.revision);

    let expired_rows =
        expire_elapsed_metadata_trace_consents(&vec![expired.clone()], &vec![], HOUR).unwrap();
    assert_eq!(expired_rows.len(), 1);
    assert!(!expired_rows[0].enabled);
    assert_eq!(expired_rows[0].revision, expired.revision + 1);
    let durable = metadata_trace_consent(Some(expired_rows[0].clone()), &actor(), HOUR);
    assert_eq!(durable.revision, expired.revision + 1);

    let renewed = grant_metadata_trace_consent_idempotent(
        true,
        reserved("put:renew-after-expiry"),
        Some(durable.clone()),
        &actor(),
        2 * HOUR,
        Some(durable.revision),
        "put:renew-after-expiry",
        HOUR,
    )
    .unwrap();
    assert!(matches!(
        renewed,
        GrantReply::Applied { consent, .. }
            if consent.enabled && consent.revision == durable.revision + 1 && !consent.drain_pending
    ));
}

#[test]
fn old_idempotent_revoke_replay_never_targets_a_regrant() {
    let grant = grant_metadata_trace_consent(None, &actor(), HOUR).unwrap();
    let first_rows = vec![traced("a", grant.revision)];
    let reply = revoke_metadata_trace_consent_idempotent(
        true,
        reserved("delete:fixed"),
        Some(grant),
        &first_rows,
        &actor(),
        "delete:fixed",
    )
    .unwrap();
    let (revoked, recorded) = match reply {
        RevokeReply::Applied { revoked, request } => (revoked, request),
        other => panic!("expected an applied revoke, got {other:?}"),
    };
    assert_eq!(revoked.targets.len(), 1);
    assert_eq!(revoked.targets[0].sandbox_id, "sbx-a");
    assert_eq!(revoked.drain_assignment_revision, Some(1));
    assert!(revoked.consent.drain_pending);

    let completed = complete_metadata_trace_drain_if_current_and_empty(
        Some(revoked.consent.clone()),
        &vec![],
        &actor(),
        revoked.consent.revision,
    )
    .unwrap();
    let regrant = grant_metadata_trace_consent(Some(completed), &actor(), 2 * HOUR).unwrap();
    assert_eq!(regrant.revision, 3);
    let replay = revoke_metadata_trace_consent_idempotent(
        false,
        recorded,
        Some(regrant.clone()),
        &vec![traced("b", regrant.revision)],
        &actor(),
        "delete:fixed",
    )
    .unwrap();
    assert!(matches!(
        replay,
        RevokeReply::Replayed { consent, targets }
            if consent == revoked.consent && targets.is_empty()
    ));
    assert!(matches!(
        metadata_trace_drain_targets_if_current(
            &Some(regrant.clone()),
            &vec![traced("b", regrant.revision)],
            &actor(),
            revoked.consent.revision,
        ),
        Ok(None)
    ));
    assert!(complete_metadata_trace_drain_if_current_and_empty(
        Some(regrant),
        &vec![],
        &actor(),
        revoked.consent.revision,
    )
    .is_none());
}

#[test]
fn metadata_trace_grant_rejects_pending_drain_and_duplicate_revoke_preserves_it() {
    let grant = grant_metadata_trace_consent(None, &actor(), HOUR).unwrap();
    let rows = vec![traced("a", grant.revision)];
    let revoked = revoke_metadata_trace_consent(Some(grant), &rows, &actor()).unwrap().consent;
    assert!(revoked.drain_pending);
    assert!(matches!(
        grant_metadata_trace_consent(Some(revoked.clone()), &actor(), HOUR),
        Err(SessionStoreError::MetadataTraceDrainPending)
    ));
    let again = revoke_metadata_trace_consent(Some(revoked.clone()), &vec![], &actor()).unwrap();
    assert_eq!(again.consent, revoked);
}

#[test]
fn repeated_grant_keeps_its_revision_and_another_expiry_moves_it() {
    let grant = grant_metadata_trace_consent(None, &actor(), HOUR).unwrap();
    let same = grant_metadata_trace_consent(Some(grant.clone()), &actor(), HOUR).unwrap();
    assert_eq!(same, grant);
    let moved = grant_metadata_trace_consent(Some(same), &actor(), HOUR + 1).unwrap();
    assert_eq!(moved.revision, 2);
    assert_eq!(moved.expires_at, Some(HOUR + 1));
}

#[test]
fn last_revision_cannot_move() {
    let last = consent(true, Some(HOUR), i64::MAX, false);
    assert!(matches!(
        grant_metadata_trace_consent(Some(last.clone()), &actor(), HOUR + 1),
        Err(SessionStoreError::OutOfRange)
    ));
    assert_eq!(grant_metadata_trace_consent(Some(last.clone()), &actor(), HOUR).unwrap(), last);
    assert!(matches!(
        revoke_metadata_trace_consent(Some(last.clone()), &vec![], &actor()),
        Err(SessionStoreError::OutOfRange)
    ));
    assert!(matches!(
        expire_elapsed_metadata_trace_consents(&vec![last.clone()], &vec![], HOUR),
        Err(SessionStoreError::OutOfRange)
    ));
    assert!(expire_elapsed_metadata_trace_consents(&vec![last], &vec![], 0)
        .unwrap()
        .is_empty());
}

#[test]
fn incomplete_and_fenced_requests_are_not_replayed() {
    let mut request = reserved("h");
    assert!(matches!(
        metadata_trace_request_result(&actor(), &request),
        Err(SessionStoreError::MetadataTraceIdempotencyIncomplete)
    ));
    request.result_enabled = Some(true);
    request.result_revision = Some(1);
    request.result_drain_pending = Some(false);
    assert!(matches!(
        metadata_trace_request_result(&actor(), &request),
        Err(SessionStoreError::MetadataTraceIdempotencyIncomplete)
    ));
    request.result_expires_at = Some(HOUR);
    assert_eq!(
        metadata_trace_request_result(&actor(), &request).unwrap(),
        consent(true, Some(HOUR), 1, false)
    );
    for (current, at) in [
        (None, 0),
        (Some(consent(true, Some(HOUR), 2, false)), 0),
        (Some(consent(true, Some(HOUR), 1, true)), 0),
        (Some(consent(false, None, 1, false)), 0),
        (Some(consent(true, Some(HOUR), 1, false)), HOUR),
    ] {
        assert!(matches!(
            grant_metadata_trace_consent_idempotent(
                false,
                request.clone(),
                current,
                &actor(),
                HOUR,
                None,
                "h",
                at,
            ),
            Err(SessionStoreError::MetadataTraceIdempotencyReplayFenced)
        ));
    }
}

#[test]
fn revoke_request_conflicts_with_another_hash() {
    assert!(matches!(
        revoke_metadata_trace_consent_idempotent(
            true,
            reserved("a"),
            None,
            &vec![],
            &actor(),
            "b",
        ),
        Err(SessionStoreError::MetadataTraceIdempotencyConflict)
    ));
}

#[test]
fn assignment_of_unknown_identity_keeps_the_drain_open() {
    let mut legacy = traced("legacy", 9);
    legacy.trace.user_id = None;
    let revoked = revoke_metadata_trace_consent(
        Some(consent(true, Some(HOUR), 1, false)),
        &vec![legacy],
        &actor(),
    )
    .unwrap();
    assert!(revoked.targets.is_empty());
    assert!(revoked.consent.drain_pending);
}

#[test]
fn refused_key_of_a_target_is_reported() {
    let mut bad = traced("bad", 1);
    bad.thread_key = Err("bad key".to_owned());
    assert!(matches!(
        revoke_metadata_trace_consent(
            Some(consent(true, Some(HOUR), 1, false)),
            &vec![bad],
            &actor(),
        ),
        Err(SessionStoreError::InvalidPersistedValue(words)) if words == "bad key"
    ));
}

#[test]
fn expiry_drains_what_was_traced_under_the_consent() {
    let elapsed = consent(true, Some(HOUR), 4, false);
    let rows = vec![traced("a", 4)];
    let expired =
        expire_elapsed_metadata_trace_consents(&vec![elapsed.clone()], &rows, HOUR).unwrap();
    assert_eq!(expired, vec![consent(false, None, 5, true)]);
    let other = vec![traced("a", 3)];
    let expired = expire_elapsed_metadata_trace_consents(&vec![elapsed], &other, HOUR).unwrap();
    assert_eq!(expired, vec![consent(false, None, 5, false)]);
    let live = consent(true, Some(HOUR + 1), 4, false);
    assert!(expire_elapsed_metadata_trace_consents(&vec![live], &rows, HOUR)
        .unwrap()
        .is_empty());
}

#[test]
fn drain_is_completed_only_when_nothing_is_left() {
    let waiting = consent(false, None, 2, true);
    let open = complete_metadata_trace_drain_if_empty(
        Some(waiting.clone()),
        &vec![traced("a", 1)],
        &actor(),
    );
    assert!(!open.cleared);
    assert_eq!(open.consent, consent(false, None, 0, true));
    let absent = complete_metadata_trace_drain_if_empty(None, &vec![], &actor());
    assert!(!absent.cleared && absent.consent.drain_pending);
    let done = complete_metadata_trace_drain_if_empty(Some(waiting.clone()), &vec![], &actor());
    assert!(done.cleared);
    assert_eq!(done.consent, consent(false, None, 2, false));
    let mut others = traced("b", 1);
    others.trace.user_id = Some("U2".to_owned());
    assert_eq!(
        complete_metadata_trace_drain_if_current_and_empty(
            Some(waiting.clone()),
            &vec![others],
            &actor(),
            2,
        ),
        Some(consent(false, None, 2, false))
    );
    assert!(complete_metadata_trace_drain_if_current_and_empty(
        Some(waiting.clone()),
        &vec![],
        &actor(),
        1
    )
    .is_none());
    assert!(complete_metadata_trace_drain_if_current_and_empty(
        Some(waiting),
        &vec![traced("a", 1)],
        &actor(),
        2,
    )
    .is_none());
}

#[test]
fn targets_of_a_current_drain_carry_the_revision_before() {
    let waiting = Some(consent(false, None, 2, true));
    let rows = vec![traced("a", 1), traced("b", 2), traced("c", 1)];
    let targets = metadata_trace_drain_targets_if_current(&waiting, &rows, &actor(), 2)
        .unwrap()
        .unwrap();
    let names: Vec<&str> = targets.iter().map(|t| t.sandbox_id.as_str()).collect();
    assert_eq!(names, vec!["sbx-a", "sbx-c"]);
    assert_eq!(targets[0].revision, 1);
    assert_eq!(targets[0].resource_uid, "uid-a");
    assert_eq!(targets[0].assignment_epoch, "epoch-a");
}

#[test]
fn pending_drains_are_listed_in_order() {
    let rows = vec![
        consent(false, None, 1, true),
        consent(true, Some(1), 2, false),
        consent(false, None, 3, true),
    ];
    let revisions: Vec<i64> = pending_metadata_trace_drains(&rows)
        .iter()
        .map(|row| row.revision)
        .collect();
    assert_eq!(revisions, vec![1, 3]);
}

#[test]
fn assignment_actor_is_read_only_when_whole() {
    let row = traced("a", 1);
    let found =
        metadata_trace_assignment_actor(&row.sandbox_id, &row.trace, "sbx-a").unwrap();
    assert_eq!(found.user_id, "U1");
    assert_eq!(found.assignment_epoch, "epoch-a");
    assert!(metadata_trace_assignment_actor(&row.sandbox_id, &row.trace, "sbx-b").is_none());
    let mut partial = traced("a", 1);
    partial.trace.source = None;
    assert!(metadata_trace_assignment_actor(&partial.sandbox_id, &partial.trace, "sbx-a").is_none());
}

#[test]
fn persisted_trace_state_detects_an_activated_generation() {
    assert!(has_persisted_metadata_trace_state(true, false, false, &vec![]));
    assert!(!has_persisted_metadata_trace_state(false, false, false, &vec![]));
    assert!(has_persisted_metadata_trace_state(false, true, false, &vec![]));
    assert!(has_persisted_metadata_trace_state(false, false, true, &vec![]));
    let mut quiet = traced("a", 1).trace;
    quiet.enabled = Some(false);
    quiet.config_generation = None;
    quiet.assignment_epoch = None;
    quiet.resource_uid = None;
    assert!(!has_persisted_metadata_trace_state(false, false, false, &vec![quiet.clone()]));
    quiet.resource_uid = Some("uid".to_owned());
    assert!(has_persisted_metadata_trace_state(false, false, false, &vec![quiet]));
}

fn identity(generation: i64, fingerprint: &str) -> MetadataTraceConfigIdentity {
    MetadataTraceConfigIdentity {
        generation,
        fingerprint: fingerprint.to_owned(),
        enabled: true,
    }
}

fn config(generation: i64, fingerprint: &str) -> MetadataTraceConfigStateRow {
    MetadataTraceConfigStateRow {
        generation,
        config_fingerprint: fingerprint.to_owned(),
        reconciler_owner_id: None,
        reconciler_fence: 0,
        reconciler_lease_expires_at: None,
        activated_at: 0,
        updated_at: 0,
    }
}

#[test]
fn metadata_trace_generation_fences_activation_leases_and_stale_assignment_clears() {
    let mut state = config(5, "fp-a");
    let a = identity(5, "fp-a");
    assert!(matches!(state.activate_metadata_trace_config(&a, 1), Ok(false)));
    assert!(state.metadata_trace_config_is_active(&a));
    assert!(matches!(
        state.activate_metadata_trace_config(&identity(4, "fp-old"), 1),
        Err(SessionStoreError::StaleMetadataTraceGeneration { active: 5, requested: 4 })
    ));
    assert!(matches!(
        state.activate_metadata_trace_config(&identity(5, "fp-other"), 1),
        Err(SessionStoreError::MetadataTraceConfigConflict {
            generation: 5,
            existing_fingerprint,
            requested_fingerprint,
        }) if existing_fingerprint == "fp-a" && requested_fingerprint == "fp-other"
    ));
    assert!(matches!(
        state.activate_metadata_trace_config(&identity(0, "fp"), 1),
        Err(SessionStoreError::InvalidMetadataTraceGeneration(0))
    ));
    let first = state
        .acquire_metadata_trace_reconciler_lease(&a, &"owner-a".to_owned(), 100, 10)
        .unwrap()
        .unwrap();
    assert!(state
        .acquire_metadata_trace_reconciler_lease(&a, &"owner-b".to_owned(), 100, 10)
        .unwrap()
        .is_none());
    assert!(state.metadata_trace_reconciler_lease_is_active(&a, &first, 99));
    assert!(!state.metadata_trace_reconciler_lease_is_active(&a, &first, 100));
    let second = state
        .acquire_metadata_trace_reconciler_lease(&a, &"owner-b".to_owned(), 300, 100)
        .unwrap()
        .unwrap();
    assert_eq!(
        second,
        MetadataTraceReconcilerLease { owner_id: "owner-b".to_owned(), fence: 2 }
    );
    assert!(second.fence > first.fence);
    assert!(!state.metadata_trace_reconciler_lease_is_active(&a, &first, 50));

    let b = identity(6, "fp-b");
    assert!(matches!(state.activate_metadata_trace_config(&b, 200), Ok(true)));
    assert!(!state.metadata_trace_config_is_active(&a));
    assert!(!state.metadata_trace_reconciler_lease_is_active(&a, &second, 200));
    assert!(!state.metadata_trace_reconciler_lease_is_active(&b, &second, 200));
    assert_eq!(state.reconciler_fence, 3);
    assert_eq!(state.activated_at, 200);
    assert!(state
        .acquire_metadata_trace_reconciler_lease(&a, &"owner-a".to_owned(), 500, 200)
        .unwrap()
        .is_none());
}

#[test]
fn exhausted_fence_is_out_of_range() {
    let mut state = config(5, "fp-a");
    state.reconciler_fence = i64::MAX;
    assert!(matches!(
        state.activate_metadata_trace_config(&identity(6, "fp-b"), 1),
        Err(SessionStoreError::OutOfRange)
    ));
    assert_eq!(state.generation, 5);
    assert!(matches!(
        state.acquire_metadata_trace_reconciler_lease(
            &identity(5, "fp-a"),
            &"owner".to_owned(),
            2,
            1
        ),
        Err(SessionStoreError::OutOfRange)
    ));
}

#[test]
fn lease_holder_renews_before_its_time_runs_out() {
    let mut state = config(5, "fp-a");
    let a = identity(5, "fp-a");
    let owner = "owner-a".to_owned();
    state.acquire_metadata_trace_reconciler_lease(&a, &owner, 100, 10).unwrap().unwrap();
    let renewed = state
        .acquire_metadata_trace_reconciler_lease(&a, &owner, 200, 20)
        .unwrap()
        .unwrap();
    assert_eq!(renewed.fence, 2);
    assert!(state.metadata_trace_reconciler_lease_is_active(&a, &renewed, 150));
}
