use centaur_session_sqlx::model::{ProxyLabels, ThreadKey};
use centaur_session_sqlx::rows::{SandboxColumns, SessionRow, TraceColumns};
use centaur_session_sqlx::warm::{
    claim_ready_warm_sandbox, count_ready_warm_sandboxes, insert_ready_warm_sandbox,
    list_ready_warm_sandboxes, list_referenced_sandbox_ids, list_stale_evicting_warm_sandbox_ids,
    mark_claimed_warm_sandbox_failed_for_assignment, mark_warm_sandbox_failed,
    mark_warm_sandbox_failed_if_matches, reserve_ready_warm_sandboxes_for_eviction,
    ReadyWarmSandbox, WarmSandboxRow,
};

fn warm(name: &str, workload: &str, status: &str) -> WarmSandboxRow {
    WarmSandboxRow {
        sandbox_id: name.to_owned(),
        resource_uid: Some(format!("uid-{name}")),
        assignment_epoch: Some(format!("epoch-{name}")),
        workload_key: workload.to_owned(),
        status: status.to_owned(),
        claimed_thread_key: None,
        claimed_at: None,
        last_error: None,
        created_at: 1,
        updated_at: 1,
    }
}

#[test]
fn warm_eviction_reservation_blocks_later_claims() {
    let mut rows = vec![warm("sbx-warm", "workload", "ready")];
    let reserved = reserve_ready_warm_sandboxes_for_eviction(&mut rows, 1, 5);
    assert_eq!(reserved.len(), 1);
    assert_eq!(reserved[0].sandbox_id, "sbx-warm");
    assert_eq!(reserved[0].resource_uid.as_deref(), Some("uid-sbx-warm"));
    assert!(reserved[0].assignment_epoch.is_some());
    assert!(
        claim_ready_warm_sandbox(&mut rows, "workload", &"test-thread".to_owned(), 6).is_none()
    );
    assert!(list_referenced_sandbox_ids(&vec![], &rows).contains(&"sbx-warm".to_owned()));
    mark_warm_sandbox_failed(&mut rows[0], "test cleanup".to_owned(), 7);
    assert_eq!(rows[0].status, "failed");
    assert_eq!(rows[0].last_error.as_deref(), Some("test cleanup"));
    assert!(!list_referenced_sandbox_ids(&vec![], &rows).contains(&"sbx-warm".to_owned()));
}

#[test]
fn warm_eviction_fence_preserves_a_same_name_replacement() {
    let reservation = ReadyWarmSandbox {
        sandbox_id: "sbx-aba".to_owned(),
        resource_uid: Some("uid-old".to_owned()),
        assignment_epoch: Some("epoch-old".to_owned()),
    };
    let mut rows = vec![warm("sbx-aba", "workload", "ready")];
    rows[0].resource_uid = Some("uid-new".to_owned());
    assert!(!mark_warm_sandbox_failed_if_matches(
        &mut rows[0],
        &reservation,
        "stale eviction".to_owned(),
        5,
    ));
    let (_, replacement) =
        claim_ready_warm_sandbox(&mut rows, "workload", &"test:warm-aba".to_owned(), 6)
            .expect("same-name replacement remains ready");
    assert_eq!(replacement.sandbox_id, "sbx-aba");
    assert_eq!(replacement.resource_uid.as_deref(), Some("uid-new"));
}

#[test]
fn exact_identity_is_retired() {
    let mut row = warm("sbx", "workload", "evicting");
    let identity = ReadyWarmSandbox {
        sandbox_id: "sbx".to_owned(),
        resource_uid: Some("uid-sbx".to_owned()),
        assignment_epoch: Some("epoch-sbx".to_owned()),
    };
    assert!(mark_warm_sandbox_failed_if_matches(&mut row, &identity, "gone".to_owned(), 5));
    assert_eq!(row.status, "failed");
    assert_eq!(row.updated_at, 5);
}

#[test]
fn claim_takes_the_oldest_ready_sandbox_of_the_workload() {
    let mut rows = vec![
        warm("a", "w", "claimed"),
        warm("b", "other", "ready"),
        warm("c", "w", "ready"),
        warm("d", "w", "ready"),
    ];
    assert_eq!(count_ready_warm_sandboxes(&rows, "w"), 2);
    let (position, taken) =
        claim_ready_warm_sandbox(&mut rows, "w", &"test:thread".to_owned(), 9).unwrap();
    assert_eq!(position, 2);
    assert_eq!(taken.sandbox_id, "c");
    assert_eq!(rows[2].status, "claimed");
    assert_eq!(rows[2].claimed_thread_key.as_deref(), Some("test:thread"));
    assert_eq!(rows[2].claimed_at, Some(9));
    assert_eq!(rows[3].status, "ready");
    assert_eq!(count_ready_warm_sandboxes(&rows, "w"), 1);
}

#[test]
fn reservation_stops_at_its_limit() {
    let mut rows = vec![
        warm("a", "w", "ready"),
        warm("b", "w", "failed"),
        warm("c", "w", "ready"),
        warm("d", "w", "ready"),
    ];
    let listed: Vec<String> = list_ready_warm_sandboxes(&rows)
        .into_iter()
        .map(|one| one.sandbox_id)
        .collect();
    assert_eq!(listed, vec!["a", "c", "d"]);
    let reserved: Vec<String> = reserve_ready_warm_sandboxes_for_eviction(&mut rows, 2, 9)
        .into_iter()
        .map(|one| one.sandbox_id)
        .collect();
    assert_eq!(reserved, vec!["a", "c"]);
    let statuses: Vec<&str> = rows.iter().map(|row| row.status.as_str()).collect();
    assert_eq!(statuses, vec!["evicting", "failed", "evicting", "ready"]);
}

#[test]
fn stale_reservations_are_listed_from_the_cutoff_on() {
    let mut rows = vec![
        warm("a", "w", "evicting"),
        warm("b", "w", "evicting"),
        warm("c", "w", "ready"),
    ];
    rows[0].updated_at = 10;
    rows[1].updated_at = 11;
    let stale = list_stale_evicting_warm_sandbox_ids(&rows, 10);
    assert_eq!(stale.len(), 1);
    assert_eq!(stale[0].sandbox_id, "a");
}

#[test]
fn new_warm_sandbox_is_ready() {
    let row = insert_ready_warm_sandbox(
        "sbx".to_owned(),
        None,
        "w".to_owned(),
        "epoch".to_owned(),
    );
    assert_eq!(row.status, "ready");
    assert_eq!(row.assignment_epoch, "epoch");
    assert_eq!(row.workload_key, "w");
}

#[test]
fn referenced_sandboxes_are_listed_once() {
    let sessions = vec![Some("a".to_owned()), None, Some("b".to_owned()), Some("a".to_owned())];
    let rows = vec![
        warm("b", "w", "claimed"),
        warm("c", "w", "evicting"),
        warm("d", "w", "failed"),
        warm("e", "w", "ready"),
    ];
    assert_eq!(
        list_referenced_sandbox_ids(&sessions, &rows),
        vec!["a".to_owned(), "b".to_owned(), "c".to_owned(), "e".to_owned()]
    );
}

fn claimant(epoch: &str) -> SessionRow {
    SessionRow {
        thread_key: "test:thread".to_owned(),
        title: None,
        sandbox: SandboxColumns {
            sandbox_id: Some("sbx".to_owned()),
            resource_uid: Some("uid-sbx".to_owned()),
            assignment_epoch: Some(epoch.to_owned()),
            repo_cache_enabled: None,
            repo_cache_access: None,
            observability_enabled: None,
            api_server_enabled: None,
            trace: TraceColumns {
                enabled: None,
                expires_at: None,
                subject_hash: None,
                source: None,
                workspace_id: None,
                user_id: None,
                consent_revision: None,
                config_fingerprint: None,
                config_generation: None,
                resource_uid: None,
                assignment_epoch: None,
            },
            last_active_at: None,
        },
        harness_type: "codex".to_owned(),
        harness_thread_id: None,
        persona_id: None,
        status: "idle".to_owned(),
        iron_control_principal: None,
        proxy_labels: ProxyLabels { entries: vec![] },
        created_at: 1,
        updated_at: 1,
    }
}

#[test]
fn claimed_sandbox_is_retired_only_for_its_claimants_assignment() {
    let thread_key = ThreadKey { value: "test:thread".to_owned() };
    let mut row = warm("sbx", "w", "claimed");
    row.claimed_thread_key = Some("test:thread".to_owned());
    assert!(!mark_claimed_warm_sandbox_failed_for_assignment(
        &mut row,
        &claimant("epoch-other"),
        &thread_key,
        "sbx",
        "uid-sbx",
        "epoch-session",
        "stale".to_owned(),
        5,
    ));
    assert_eq!(row.status, "claimed");
    assert!(mark_claimed_warm_sandbox_failed_for_assignment(
        &mut row,
        &claimant("epoch-session"),
        &thread_key,
        "sbx",
        "uid-sbx",
        "epoch-session",
        "gone".to_owned(),
        6,
    ));
    assert_eq!(row.status, "failed");
    assert!(!mark_claimed_warm_sandbox_failed_for_assignment(
        &mut row,
        &claimant("epoch-session"),
        &thread_key,
        "sbx",
        "uid-sbx",
        "epoch-session",
        "again".to_owned(),
        7,
    ));
}
