//! The pool of sandboxes that were started ahead of need.
//!
//! A warm sandbox is ready, claimed by a session, reserved for eviction, or
//! failed. A reserved one can no longer be claimed, and a row is retired only
//! while its backend identity is still the observed one.
use crate::model::{ThreadKey, Timestamp};
use crate::rows::SessionRow;
use crate::text::{copy_opt, holds, opt_text_is, same_opt, same_opt_text, same_text};
use vstd::prelude::*;

verus! {

/// A ready sandbox by its backend identity.
#[derive(Clone, Debug, PartialEq, Eq)]
pub struct ReadyWarmSandbox {
    pub sandbox_id: String,
    pub resource_uid: Option<String>,
    pub assignment_epoch: Option<String>,
}

/// A row of `session_warm_sandboxes`.
#[derive(Clone, Debug)]
pub struct WarmSandboxRow {
    pub sandbox_id: String,
    pub resource_uid: Option<String>,
    pub assignment_epoch: Option<String>,
    pub workload_key: String,
    pub status: String,
    pub claimed_thread_key: Option<String>,
    pub claimed_at: Option<Timestamp>,
    pub last_error: Option<String>,
    pub created_at: Timestamp,
    pub updated_at: Timestamp,
}

/// A warm sandbox to be inserted.
#[derive(Clone, Debug)]
pub struct NewWarmSandbox {
    pub sandbox_id: String,
    pub resource_uid: Option<String>,
    pub assignment_epoch: String,
    pub workload_key: String,
    pub status: String,
}

/// The status of a sandbox that can be claimed.
pub open spec fn ready(row: WarmSandboxRow) -> bool {
    row.status@ == "ready"@
}

/// The status of a sandbox that is to be evicted.
pub open spec fn evicting(row: WarmSandboxRow) -> bool {
    row.status@ == "evicting"@
}

/// The status of a sandbox that a session has.
pub open spec fn claimed(row: WarmSandboxRow) -> bool {
    row.status@ == "claimed"@
}

/// The backend identity of a row.
pub open spec fn identity(row: WarmSandboxRow) -> ReadyWarmSandbox {
    ReadyWarmSandbox {
        sandbox_id: row.sandbox_id,
        resource_uid: row.resource_uid,
        assignment_epoch: row.assignment_epoch,
    }
}

/// A ready sandbox for the workload.
pub open spec fn ready_for(row: WarmSandboxRow, workload_key: Seq<char>) -> bool {
    ready(row) && row.workload_key@ == workload_key
}

fn is_ready(row: &WarmSandboxRow) -> (is: bool)
    ensures
        is == ready(*row),
{
    same_text(row.status.as_str(), "ready")
}

fn is_ready_for(row: &WarmSandboxRow, workload_key: &str) -> (is: bool)
    ensures
        is == ready_for(*row, workload_key@),
{
    is_ready(row) && same_text(row.workload_key.as_str(), workload_key)
}

fn identity_of(row: &WarmSandboxRow) -> (sandbox: ReadyWarmSandbox)
    ensures
        sandbox == identity(*row),
{
    ReadyWarmSandbox {
        sandbox_id: row.sandbox_id.clone(),
        resource_uid: copy_opt(&row.resource_uid),
        assignment_epoch: copy_opt(&row.assignment_epoch),
    }
}

/// Makes the row of a ready sandbox.
pub fn insert_ready_warm_sandbox(
    sandbox_id: String,
    resource_uid: Option<String>,
    workload_key: String,
    fresh_epoch: String,
) -> (new: NewWarmSandbox)
    ensures
        new.status@ == "ready"@,
        new == (NewWarmSandbox {
            sandbox_id,
            resource_uid,
            assignment_epoch: fresh_epoch,
            workload_key,
            status: new.status,
        }),
        new.sandbox_id == sandbox_id && new.assignment_epoch == fresh_epoch && new.resource_uid
            == resource_uid && new.workload_key == workload_key,
{
    NewWarmSandbox {
        sandbox_id,
        resource_uid,
        assignment_epoch: fresh_epoch,
        workload_key,
        status: "ready".to_owned(),
    }
}

/// The rows that are ready for the workload.
pub open spec fn ready_count(rows: Seq<WarmSandboxRow>, workload_key: Seq<char>) -> nat
    decreases rows.len(),
{
    if rows.len() == 0 {
        0
    } else {
        ready_count(rows.drop_last(), workload_key) + if ready_for(rows.last(), workload_key) {
            1nat
        } else {
            0nat
        }
    }
}

/// Counts the rows that are ready for the workload.
pub fn count_ready_warm_sandboxes(rows: &Vec<WarmSandboxRow>, workload_key: &str) -> (count: i64)
    requires
        rows@.len() <= i64::MAX,
    ensures
        count == ready_count(rows@, workload_key@),
{
    let mut count: i64 = 0;
    let mut i: usize = 0;
    while i < rows.len()
        invariant
            i <= rows.len(),
            rows@.len() <= i64::MAX,
            0 <= count <= i,
            count == ready_count(rows@.take(i as int), workload_key@),
        decreases rows.len() - i,
    {
        proof {
            assert(rows@.take(i + 1).drop_last() =~= rows@.take(i as int));
        }
        if is_ready_for(&rows[i], workload_key) {
            count += 1;
        }
        i += 1;
    }
    assert(rows@.take(i as int) =~= rows@);
    count
}

/// The identities of the ready rows, in their order.
pub open spec fn ready_identities(rows: Seq<WarmSandboxRow>) -> Seq<ReadyWarmSandbox>
    decreases rows.len(),
{
    if rows.len() == 0 {
        Seq::empty()
    } else if ready(rows.last()) {
        ready_identities(rows.drop_last()).push(identity(rows.last()))
    } else {
        ready_identities(rows.drop_last())
    }
}

/// Lists the ready rows.
pub fn list_ready_warm_sandboxes(rows: &Vec<WarmSandboxRow>) -> (list: Vec<ReadyWarmSandbox>)
    ensures
        list@ == ready_identities(rows@),
{
    let mut list: Vec<ReadyWarmSandbox> = Vec::new();
    let mut i: usize = 0;
    while i < rows.len()
        invariant
            i <= rows.len(),
            list@ == ready_identities(rows@.take(i as int)),
        decreases rows.len() - i,
    {
        proof {
            assert(rows@.take(i + 1).drop_last() =~= rows@.take(i as int));
        }
        if is_ready(&rows[i]) {
            list.push(identity_of(&rows[i]));
        }
        i += 1;
    }
    assert(rows@.take(i as int) =~= rows@);
    list
}

/// The row once a session has claimed it.
pub open spec fn claimed_for(
    before: WarmSandboxRow,
    after: WarmSandboxRow,
    thread_key: String,
    now: Timestamp,
) -> bool {
    &&& claimed(after)
    &&& after == (WarmSandboxRow {
        status: after.status,
        claimed_thread_key: Some(thread_key),
        claimed_at: Some(now),
        updated_at: now,
        ..before
    })
}

/// Claims the first ready sandbox of the workload for a session. The rows come with
/// the oldest first; those that another claim has locked are not among them.
pub fn claim_ready_warm_sandbox(
    rows: &mut Vec<WarmSandboxRow>,
    workload_key: &str,
    thread_key: &String,
    now: Timestamp,
) -> (sandbox: Option<(usize, ReadyWarmSandbox)>)
    ensures
        final(rows)@.len() == old(rows)@.len(),
        match sandbox {
            None => {
                &&& final(rows)@ == old(rows)@
                &&& forall|i: int|
                    0 <= i < old(rows)@.len() ==> !ready_for(
                        #[trigger] old(rows)@[i],
                        workload_key@,
                    )
            },
            Some((k, taken)) => {
                &&& k < old(rows)@.len()
                &&& ready_for(old(rows)@[k as int], workload_key@)
                &&& forall|i: int|
                    0 <= i < k ==> !ready_for(#[trigger] old(rows)@[i], workload_key@)
                &&& taken == identity(old(rows)@[k as int])
                &&& claimed_for(old(rows)@[k as int], final(rows)@[k as int], *thread_key, now)
                &&& forall|i: int|
                    0 <= i < old(rows)@.len() && i != k
                        ==> #[trigger] final(rows)@[i] == old(rows)@[i]
            },
        },
        sandbox is None <==> forall|i: int|
            0 <= i < old(rows)@.len() ==> !((#[trigger] old(rows)@[i]).status@ == "ready"@
                && old(rows)@[i].workload_key@ == workload_key@),
        sandbox matches Some((k, taken)) ==> {
            let before = old(rows)@[k as int];
            let after = final(rows)@[k as int];
            &&& before.status@ == "ready"@
            &&& before.workload_key@ == workload_key@
            &&& after.status@ == "claimed"@
            &&& after.claimed_thread_key == Some(*thread_key)
            &&& taken.sandbox_id == before.sandbox_id
            &&& taken.resource_uid == before.resource_uid
            &&& taken.assignment_epoch == before.assignment_epoch
            &&& forall|i: int|
                0 <= i < k ==> (#[trigger] old(rows)@[i]).status@ != "ready"@
                    || old(rows)@[i].workload_key@ != workload_key@
        },
{
    let mut i: usize = 0;
    while i < rows.len()
        invariant
            i <= rows.len(),
            rows@ == old(rows)@,
            forall|j: int| 0 <= j < i ==> !ready_for(#[trigger] old(rows)@[j], workload_key@),
        decreases rows.len() - i,
    {
        if is_ready_for(&rows[i], workload_key) {
            let taken = identity_of(&rows[i]);
            let row = &mut rows[i];
            row.status = "claimed".to_owned();
            row.claimed_thread_key = Some(thread_key.clone());
            row.claimed_at = Some(now);
            row.updated_at = now;
            return Some((i, taken));
        }
        i += 1;
    }
    None
}

/// The row is reserved for eviction.
pub open spec fn reserved(before: WarmSandboxRow, after: WarmSandboxRow, now: Timestamp) -> bool {
    &&& evicting(after)
    &&& after == (WarmSandboxRow { status: after.status, updated_at: now, ..before })
}

/// The ready rows among the first rows.
pub open spec fn ready_before(rows: Seq<WarmSandboxRow>, i: int) -> nat {
    ready_identities(rows.take(i)).len()
}

/// Reserves the first ready sandboxes for eviction, up to the limit, and lists
/// them. The rows come with the oldest first; locked ones are not among them.
pub fn reserve_ready_warm_sandboxes_for_eviction(
    rows: &mut Vec<WarmSandboxRow>,
    limit: usize,
    now: Timestamp,
) -> (list: Vec<ReadyWarmSandbox>)
    ensures
        final(rows)@.len() == old(rows)@.len(),
        forall|i: int|
            0 <= i < old(rows)@.len() ==> if ready(old(rows)@[i]) && ready_before(
                old(rows)@,
                i,
            ) < limit {
                reserved(old(rows)@[i], #[trigger] final(rows)@[i], now)
            } else {
                final(rows)@[i] == old(rows)@[i]
            },
        list@ == if ready_identities(old(rows)@).len() <= limit {
            ready_identities(old(rows)@)
        } else {
            ready_identities(old(rows)@).take(limit as int)
        },
        list@.len() <= limit,
        forall|i: int|
            0 <= i < old(rows)@.len() ==> ({
                let before = old(rows)@[i];
                let after = #[trigger] final(rows)@[i];
                after == before || (before.status@ == "ready"@ && after.status@ == "evicting"@
                    && after.sandbox_id == before.sandbox_id && after.updated_at == now)
            }),
{
    let ghost before = rows@;
    let mut list: Vec<ReadyWarmSandbox> = Vec::new();
    let mut i: usize = 0;
    while i < rows.len()
        invariant
            i <= rows.len(),
            before == old(rows)@,
            rows@.len() == before.len(),
            list@ == if ready_before(before, i as int) <= limit {
                ready_identities(before.take(i as int))
            } else {
                ready_identities(before.take(i as int)).take(limit as int)
            },
            forall|j: int|
                0 <= j < i ==> if ready(before[j]) && ready_before(before, j) < limit {
                    reserved(before[j], #[trigger] rows@[j], now)
                } else {
                    rows@[j] == before[j]
                },
            forall|j: int| i <= j < before.len() ==> #[trigger] rows@[j] == before[j],
        decreases rows.len() - i,
    {
        proof {
            assert(before.take(i + 1).drop_last() =~= before.take(i as int));
            assert(before.take(i + 1).last() == before[i as int]);
            assert(rows@[i as int] == before[i as int]);
        }
        if list.len() < limit && is_ready(&rows[i]) {
            list.push(identity_of(&rows[i]));
            let row = &mut rows[i];
            row.status = "evicting".to_owned();
            row.updated_at = now;
        } else {
            proof {
                if ready(before[i as int]) {
                    assert(ready_identities(before.take(i + 1)).take(limit as int)
                        =~= ready_identities(before.take(i as int)).take(limit as int));
                    assert(ready_identities(before.take(i as int)).take(
                        ready_before(before, i as int) as int,
                    ) =~= ready_identities(before.take(i as int)));
                }
            }
        }
        i += 1;
    }
    assert(before.take(i as int) =~= before);
    list
}

/// A reservation was last touched at or before the cutoff.
pub open spec fn stale(row: WarmSandboxRow, cutoff: Timestamp) -> bool {
    evicting(row) && row.updated_at <= cutoff
}

/// The identities of the stale reservations, in their order.
pub open spec fn stale_identities(rows: Seq<WarmSandboxRow>, cutoff: Timestamp) -> Seq<
    ReadyWarmSandbox,
>
    decreases rows.len(),
{
    if rows.len() == 0 {
        Seq::empty()
    } else if stale(rows.last(), cutoff) {
        stale_identities(rows.drop_last(), cutoff).push(identity(rows.last()))
    } else {
        stale_identities(rows.drop_last(), cutoff)
    }
}

/// Lists the reservations that nobody has finished by the cutoff.
pub fn list_stale_evicting_warm_sandbox_ids(
    rows: &Vec<WarmSandboxRow>,
    cutoff: Timestamp,
) -> (list: Vec<ReadyWarmSandbox>)
    ensures
        list@ == stale_identities(rows@, cutoff),
{
    let mut list: Vec<ReadyWarmSandbox> = Vec::new();
    let mut i: usize = 0;
    while i < rows.len()
        invariant
            i <= rows.len(),
            list@ == stale_identities(rows@.take(i as int), cutoff),
        decreases rows.len() - i,
    {
        proof {
            assert(rows@.take(i + 1).drop_last() =~= rows@.take(i as int));
        }
        if same_text(rows[i].status.as_str(), "evicting") && rows[i].updated_at <= cutoff {
            list.push(identity_of(&rows[i]));
        }
        i += 1;
    }
    assert(rows@.take(i as int) =~= rows@);
    list
}

/// The row is retired with the given words.
pub open spec fn retired(
    before: WarmSandboxRow,
    after: WarmSandboxRow,
    error: String,
    now: Timestamp,
) -> bool {
    &&& after.status@ == "failed"@
    &&& after == (WarmSandboxRow {
        status: after.status,
        last_error: Some(error),
        updated_at: now,
        ..before
    })
}

/// Retires a row.
pub fn mark_warm_sandbox_failed(row: &mut WarmSandboxRow, error: String, now: Timestamp)
    ensures
        retired(*old(row), *final(row), error, now),
        final(row).status@ == "failed"@,
        final(row).last_error == Some(error),
        final(row).sandbox_id == old(row).sandbox_id,
{
    row.status = "failed".to_owned();
    row.last_error = Some(error);
    row.updated_at = now;
}

/// The row has the backend identity of the reservation.
pub open spec fn has_identity(row: WarmSandboxRow, sandbox: ReadyWarmSandbox) -> bool {
    &&& row.sandbox_id@ == sandbox.sandbox_id@
    &&& same_opt(row.resource_uid, sandbox.resource_uid)
    &&& same_opt(row.assignment_epoch, sandbox.assignment_epoch)
}

/// Retires a row only if its immutable backend identity still matches the
/// reservation that performed the cleanup.
pub fn mark_warm_sandbox_failed_if_matches(
    row: &mut WarmSandboxRow,
    sandbox: &ReadyWarmSandbox,
    error: String,
    now: Timestamp,
) -> (marked: bool)
    ensures
        marked == has_identity(*old(row), *sandbox),
        if marked {
            retired(*old(row), *final(row), error, now)
        } else {
            *final(row) == *old(row)
        },
        marked <==> {
            &&& old(row).sandbox_id@ == sandbox.sandbox_id@
            &&& old(row).resource_uid is Some <==> sandbox.resource_uid is Some
            &&& old(row).resource_uid is Some
                ==> old(row).resource_uid->0@ == sandbox.resource_uid->0@
            &&& old(row).assignment_epoch is Some <==> sandbox.assignment_epoch is Some
            &&& old(row).assignment_epoch is Some ==> old(row).assignment_epoch->0@
                == sandbox.assignment_epoch->0@
        },
        marked ==> final(row).status@ == "failed"@ && final(row).last_error == Some(error),
{
    if !same_text(row.sandbox_id.as_str(), sandbox.sandbox_id.as_str()) || !same_opt_text(
        &row.resource_uid,
        &sandbox.resource_uid,
    ) || !same_opt_text(&row.assignment_epoch, &sandbox.assignment_epoch) {
        return false;
    }
    mark_warm_sandbox_failed(row, error, now);
    true
}

/// The session that claimed the warm sandbox still has exactly that assignment.
pub open spec fn claimant_holds(
    row: WarmSandboxRow,
    session: SessionRow,
    thread_key: Seq<char>,
    sandbox_id: Seq<char>,
    resource_uid: Seq<char>,
    assignment_epoch: Seq<char>,
) -> bool {
    &&& row.sandbox_id@ == sandbox_id
    &&& claimed(row)
    &&& holds(row.claimed_thread_key, thread_key)
    &&& holds(row.resource_uid, resource_uid)
    &&& session.thread_key@ == thread_key
    &&& holds(session.sandbox.sandbox_id, sandbox_id)
    &&& holds(session.sandbox.resource_uid, resource_uid)
    &&& holds(session.sandbox.assignment_epoch, assignment_epoch)
}

/// Retires a claimed warm sandbox only while its claimant still owns the exact
/// durable session assignment. Warm-pool and session epochs are separate fences,
/// so the session's UID and epoch identify the claimant's assignment while the
/// warm row is fenced by its stable resource UID.
pub fn mark_claimed_warm_sandbox_failed_for_assignment(
    row: &mut WarmSandboxRow,
    session: &SessionRow,
    thread_key: &ThreadKey,
    sandbox_id: &str,
    resource_uid: &str,
    assignment_epoch: &str,
    error: String,
    now: Timestamp,
) -> (marked: bool)
    ensures
        marked == claimant_holds(
            *old(row),
            *session,
            thread_key.value@,
            sandbox_id@,
            resource_uid@,
            assignment_epoch@,
        ),
        if marked {
            retired(*old(row), *final(row), error, now)
        } else {
            *final(row) == *old(row)
        },
        marked ==> old(row).status@ == "claimed"@ && old(row).claimed_thread_key is Some
            && old(row).claimed_thread_key->0@ == thread_key.value@
                && session.sandbox.sandbox_id is Some
            && session.sandbox.sandbox_id->0@ == old(row).sandbox_id@
                && final(row).status@ == "failed"@
            && final(row).last_error == Some(error),
{
    if !(same_text(row.sandbox_id.as_str(), sandbox_id) && same_text(
        row.status.as_str(),
        "claimed",
    ) && opt_text_is(&row.claimed_thread_key, thread_key.as_str()) && opt_text_is(
        &row.resource_uid,
        resource_uid,
    ) && same_text(session.thread_key.as_str(), thread_key.as_str()) && opt_text_is(
        &session.sandbox.sandbox_id,
        sandbox_id,
    ) && opt_text_is(&session.sandbox.resource_uid, resource_uid) && opt_text_is(
        &session.sandbox.assignment_epoch,
        assignment_epoch,
    )) {
        return false;
    }
    mark_warm_sandbox_failed(row, error, now);
    true
}

// ---------------------------------------------------------------------------
// Sandboxes that must not be swept
// ---------------------------------------------------------------------------

/// A warm sandbox is in use: ready, claimed or being evicted.
pub open spec fn in_use(row: WarmSandboxRow) -> bool {
    ready(row) || claimed(row) || evicting(row)
}

/// A sandbox is referenced by a session or by the warm pool.
pub open spec fn referenced(
    id: Seq<char>,
    sessions: Seq<Option<String>>,
    warm: Seq<WarmSandboxRow>,
) -> bool {
    ||| exists|i: int| 0 <= i < sessions.len() && holds(#[trigger] sessions[i], id)
    ||| exists|i: int|
        0 <= i < warm.len() && in_use(#[trigger] warm[i]) && warm[i].sandbox_id@ == id
}

/// The list names the sandbox.
pub open spec fn listed(list: Seq<String>, id: Seq<char>) -> bool {
    exists|i: int| 0 <= i < list.len() && (#[trigger] list[i])@ == id
}

/// No two entries of the list are the same.
pub open spec fn all_different(list: Seq<String>) -> bool {
    forall|i: int, j: int| 0 <= i < j < list.len() ==> (#[trigger] list[i])@ != (#[trigger] list[j])@
}

fn add_once(list: &mut Vec<String>, id: &String)
    requires
        all_different(old(list)@),
    ensures
        all_different(final(list)@),
        forall|other: Seq<char>| #[trigger]
            listed(final(list)@, other) <==> listed(old(list)@, other) || other == id@,
{
    let mut i: usize = 0;
    while i < list.len()
        invariant
            i <= list.len(),
            list@ == old(list)@,
            all_different(list@),
            forall|j: int| 0 <= j < i ==> (#[trigger] list@[j])@ != id@,
        decreases list.len() - i,
    {
        if same_text(list[i].as_str(), id.as_str()) {
            assert(listed(list@, id@));
            return;
        }
        i += 1;
    }
    list.push(id.clone());
    proof {
        let before = old(list)@;
        assert forall|other: Seq<char>| #[trigger] listed(list@, other) <==> listed(before, other)
            || other == id@ by {
            if listed(before, other) {
                let k = choose|k: int| 0 <= k < before.len() && (#[trigger] before[k])@ == other;
                assert(list@[k]@ == other);
            }
            if other == id@ {
                assert(list@[before.len() as int]@ == other);
            }
            if listed(list@, other) {
                let k = choose|k: int| 0 <= k < list@.len() && (#[trigger] list@[k])@ == other;
                if k < before.len() {
                    assert(before[k]@ == other);
                }
            }
        }
    }
}

/// Lists each sandbox that a session or the warm pool refers to, once.
pub fn list_referenced_sandbox_ids(
    sessions: &Vec<Option<String>>,
    warm: &Vec<WarmSandboxRow>,
) -> (ids: Vec<String>)
    ensures
        all_different(ids@),
        forall|id: Seq<char>| #[trigger] listed(ids@, id) <==> referenced(id, sessions@, warm@),
{
    let mut ids: Vec<String> = Vec::new();
    let mut i: usize = 0;
    while i < sessions.len()
        invariant
            i <= sessions.len(),
            all_different(ids@),
            forall|id: Seq<char>| #[trigger]
                listed(ids@, id) <==> exists|j: int| 0 <= j < i && holds(#[trigger] sessions@[j], id),
        decreases sessions.len() - i,
    {
        let ghost before = ids@;
        if let Some(id) = &sessions[i] {
            add_once(&mut ids, id);
        }
        i += 1;
        proof {
            assert forall|id: Seq<char>| #[trigger] listed(ids@, id) <==> exists|j: int|
                0 <= j < i && holds(#[trigger] sessions@[j], id) by {
                if listed(before, id) {
                    let j = choose|j: int| 0 <= j < i - 1 && holds(#[trigger] sessions@[j], id);
                    assert(holds(sessions@[j], id));
                }
                if holds(sessions@[i - 1], id) {
                    assert(0 <= i - 1 < i);
                }
            }
        }
    }
    let mut k: usize = 0;
    assert(forall|id: Seq<char>| #[trigger]
        listed(ids@, id) <==> referenced(id, sessions@, warm@.take(0)));
    while k < warm.len()
        invariant
            k <= warm.len(),
            all_different(ids@),
            forall|id: Seq<char>| #[trigger]
                listed(ids@, id) <==> referenced(id, sessions@, warm@.take(k as int)),
        decreases warm.len() - k,
    {
        let ghost before = ids@;
        let row = &warm[k];
        if same_text(row.status.as_str(), "ready") || same_text(row.status.as_str(), "claimed")
            || same_text(row.status.as_str(), "evicting") {
            add_once(&mut ids, &row.sandbox_id);
        }
        k += 1;
        proof {
            let shorter = warm@.take(k - 1);
            let longer = warm@.take(k as int);
            assert forall|id: Seq<char>| #[trigger] listed(ids@, id) <==> referenced(
                id,
                sessions@,
                longer,
            ) by {
                assert(longer[k - 1] == *row);
                if listed(before, id) && !(exists|j: int|
                    0 <= j < sessions@.len() && holds(#[trigger] sessions@[j], id)) {
                    let j = choose|j: int|
                        0 <= j < shorter.len() && in_use(#[trigger] shorter[j])
                            && shorter[j].sandbox_id@ == id;
                    assert(longer[j] == shorter[j]);
                }
                if referenced(id, sessions@, longer) && !listed(before, id) {
                    let j = choose|j: int|
                        0 <= j < longer.len() && in_use(#[trigger] longer[j])
                            && longer[j].sandbox_id@ == id;
                    if j < k - 1 {
                        assert(shorter[j] == longer[j]);
                    }
                }
            }
        }
    }
    assert(warm@.take(k as int) =~= warm@);
    ids
}

// ---------------------------------------------------------------------------
// Laws
// ---------------------------------------------------------------------------

/// The four statuses of a warm sandbox exclude each other.
pub proof fn law_warm_statuses_exclude_each_other(row: WarmSandboxRow)
    ensures
        ready(row) ==> !claimed(row) && !evicting(row) && row.status@ != "failed"@,
        claimed(row) ==> !evicting(row) && row.status@ != "failed"@,
        evicting(row) ==> row.status@ != "failed"@,
{
    reveal_strlit("ready");
    reveal_strlit("claimed");
    reveal_strlit("evicting");
    reveal_strlit("failed");
    assert("ready"@.len() == 5 && "claimed"@.len() == 7 && "evicting"@.len() == 8
        && "failed"@.len() == 6);
}

/// A sandbox that was reserved for eviction, claimed or retired can be neither
/// claimed nor reserved again, whatever the workload.
pub proof fn law_taken_warm_sandbox_is_not_ready(
    before: WarmSandboxRow,
    after: WarmSandboxRow,
    thread_key: String,
    error: String,
    workload_key: Seq<char>,
    now: Timestamp,
)
    requires
        reserved(before, after, now) || claimed_for(before, after, thread_key, now) || retired(
            before,
            after,
            error,
            now,
        ),
    ensures
        !ready_for(after, workload_key),
        !ready(after),
        identity(after) == identity(before),
{
    law_warm_statuses_exclude_each_other(after);
}

/// A cleanup for an earlier sandbox never retires a replacement under the same
/// name: one that differs in resource or in epoch.
pub proof fn law_replacement_survives_cleanup(
    earlier: WarmSandboxRow,
    replacement: WarmSandboxRow,
)
    requires
        !same_opt(replacement.resource_uid, earlier.resource_uid) || !same_opt(
            replacement.assignment_epoch,
            earlier.assignment_epoch,
        ),
    ensures
        !has_identity(replacement, identity(earlier)),
        has_identity(earlier, identity(earlier)),
{
}

} // verus!
