//! Claiming a delivery together with its execution, and moving a claimed delivery
//! to another trace boundary.
use crate::delivery::{
    held, is_held, is_recoverable, is_unresolved, recoverable, unresolved, InputDeliveryState,
};
use crate::delivery_columns::law_claimed_delivery_is_in_its_turn;
use crate::error::SessionStoreError;
use crate::execution::metadata_merged;
use crate::model::{Clock, ExecutionStatus, Timestamp};
use crate::rows::{SessionExecutionRow, SessionInputDeliveryRow};
use crate::text::same_text;
use serde_json::Value;
use vstd::prelude::*;

verus! {

/// A delivery and the execution that it is for, both locked.
#[derive(Clone, Debug)]
pub struct ClaimCandidate {
    pub delivery: SessionInputDeliveryRow,
    pub execution: SessionExecutionRow,
}

/// A target that was named is this one; none named is any.
pub open spec fn targets(asked: Option<&str>, id: Seq<char>) -> bool {
    asked matches Some(text) ==> text@ == id
}

/// An earlier delivery of the same execution is still owed.
pub open spec fn comes_before(
    earlier: SessionInputDeliveryRow,
    delivery: SessionInputDeliveryRow,
) -> bool {
    &&& earlier.execution_id@ == delivery.execution_id@
    &&& earlier.sequence < delivery.sequence
    &&& unresolved(earlier.state@)
}

/// A delivery may be claimed: it is a target, its execution is active and open to
/// the owner, it can be recovered, and nothing before it is still owed.
pub open spec fn eligible(
    candidate: ClaimCandidate,
    deliveries: Seq<SessionInputDeliveryRow>,
    owner: Seq<char>,
    execution_id: Option<&str>,
    delivery_id: Option<&str>,
    at: Timestamp,
) -> bool {
    &&& targets(execution_id, candidate.delivery.execution_id@)
    &&& targets(delivery_id, candidate.delivery.delivery_id@)
    &&& candidate.execution.execution_id@ == candidate.delivery.execution_id@
    &&& candidate.execution.open_to(owner, at)
    &&& recoverable(candidate.delivery, at)
    &&& forall|i: int|
        0 <= i < deliveries.len() ==> !comes_before(#[trigger] deliveries[i], candidate.delivery)
}

/// The oldest of the candidates that may be claimed; of several that are as old, the
/// first.
pub open spec fn oldest_eligible(
    candidates: Seq<ClaimCandidate>,
    k: int,
    deliveries: Seq<SessionInputDeliveryRow>,
    owner: Seq<char>,
    execution_id: Option<&str>,
    delivery_id: Option<&str>,
    at: Timestamp,
) -> bool {
    &&& eligible(candidates[k], deliveries, owner, execution_id, delivery_id, at)
    &&& forall|i: int|
        0 <= i < candidates.len() && eligible(
            #[trigger] candidates[i],
            deliveries,
            owner,
            execution_id,
            delivery_id,
            at,
        ) ==> candidates[k].delivery.created_at < candidates[i].delivery.created_at || (
        candidates[k].delivery.created_at == candidates[i].delivery.created_at && k <= i)
}

/// The execution runs in the owner's hands.
pub open spec fn execution_taken(
    before: SessionExecutionRow,
    after: SessionExecutionRow,
    owner: String,
    until: Timestamp,
    clock: Clock,
) -> bool {
    &&& after.status@ == ExecutionStatus::Running.name()
    &&& after == (SessionExecutionRow {
        status: after.status,
        started_at: match before.started_at {
            Some(at) => Some(at),
            None => Some(clock.wall),
        },
        stdout_owner_id: Some(owner),
        stdout_owner_lease_expires_at: Some(until),
        updated_at: clock.now,
        ..before
    })
}

/// The delivery is claimed by the owner, at the next generation and attempt. What
/// is to be delivered does not change.
pub open spec fn delivery_taken(
    before: SessionInputDeliveryRow,
    after: SessionInputDeliveryRow,
    owner: String,
    until: Timestamp,
    clock: Clock,
) -> bool {
    &&& after.state@ == InputDeliveryState::Claimed.name()
    &&& after == (SessionInputDeliveryRow {
        state: after.state,
        owner_id: Some(owner),
        owner_generation: (before.owner_generation + 1) as i64,
        owner_lease_expires_at: Some(until),
        attempts: (before.attempts + 1) as i32,
        claimed_at: Some(clock.wall),
        updated_at: clock.now,
        ..before
    })
}

/// There is room for one more generation and one more attempt.
pub open spec fn can_be_counted(row: SessionInputDeliveryRow) -> bool {
    row.owner_generation < i64::MAX && row.attempts < i32::MAX
}

fn is_target(asked: Option<&str>, id: &str) -> (is: bool)
    ensures
        is == targets(asked, id@),
{
    match asked {
        Some(text) => same_text(text, id),
        None => true,
    }
}

fn is_eligible(
    candidate: &ClaimCandidate,
    deliveries: &Vec<SessionInputDeliveryRow>,
    owner_id: &str,
    execution_id: Option<&str>,
    delivery_id: Option<&str>,
    at: Timestamp,
) -> (is: bool)
    ensures
        is == eligible(*candidate, deliveries@, owner_id@, execution_id, delivery_id, at),
{
    if !is_target(execution_id, candidate.delivery.execution_id.as_str()) || !is_target(
        delivery_id,
        candidate.delivery.delivery_id.as_str(),
    ) || !same_text(
        candidate.execution.execution_id.as_str(),
        candidate.delivery.execution_id.as_str(),
    ) || !candidate.execution.is_open_to(owner_id, at) || !is_recoverable(&candidate.delivery, at) {
        return false;
    }
    let mut i: usize = 0;
    while i < deliveries.len()
        invariant
            i <= deliveries.len(),
            forall|j: int|
                0 <= j < i ==> !comes_before(#[trigger] deliveries@[j], candidate.delivery),
        decreases deliveries.len() - i,
    {
        if same_text(
            deliveries[i].execution_id.as_str(),
            candidate.delivery.execution_id.as_str(),
        ) && deliveries[i].sequence < candidate.delivery.sequence && is_unresolved(
            deliveries[i].state.as_str(),
        ) {
            assert(comes_before(deliveries@[i as int], candidate.delivery));
            return false;
        }
        i += 1;
    }
    true
}

fn take(candidate: &mut ClaimCandidate, owner_id: &String, lease_until: Timestamp, clock: Clock)
    requires
        can_be_counted(old(candidate).delivery),
    ensures
        execution_taken(
            old(candidate).execution,
            final(candidate).execution,
            *owner_id,
            lease_until,
            clock,
        ),
        delivery_taken(
            old(candidate).delivery,
            final(candidate).delivery,
            *owner_id,
            lease_until,
            clock,
        ),
{
    candidate.execution.status = ExecutionStatus::Running.as_ref().to_owned();
    if candidate.execution.started_at.is_none() {
        candidate.execution.started_at = Some(clock.wall);
    }
    candidate.execution.stdout_owner_id = Some(owner_id.clone());
    candidate.execution.stdout_owner_lease_expires_at = Some(lease_until);
    candidate.execution.updated_at = clock.now;
    candidate.delivery.state = InputDeliveryState::Claimed.as_ref().to_owned();
    candidate.delivery.owner_id = Some(owner_id.clone());
    candidate.delivery.owner_generation = candidate.delivery.owner_generation + 1;
    candidate.delivery.owner_lease_expires_at = Some(lease_until);
    candidate.delivery.attempts = candidate.delivery.attempts + 1;
    candidate.delivery.claimed_at = Some(clock.wall);
    candidate.delivery.updated_at = clock.now;
}

/// Claims the lowest recoverable input obligation: the oldest of the candidates that
/// may be claimed, and of several as old the first. Supplying an
/// execution or delivery target lets the foreground driver recover its own
/// request; recovery workers leave both `None` and receive the oldest one.
/// `deliveries` are all those of the candidates' executions. A delivery whose
/// generation or attempts cannot be counted further is out of range.
pub fn claim_next_input_delivery(
    candidates: &mut Vec<ClaimCandidate>,
    deliveries: &Vec<SessionInputDeliveryRow>,
    owner_id: &String,
    lease_until: Timestamp,
    execution_id: Option<&str>,
    delivery_id: Option<&str>,
    clock: Clock,
) -> (claimed: Result<Option<usize>, SessionStoreError>)
    ensures
        final(candidates)@.len() == old(candidates)@.len(),
        match claimed {
            Err(error) => {
                &&& error == SessionStoreError::OutOfRange
                &&& final(candidates)@ == old(candidates)@
                &&& exists|k: int|
                    {
                        &&& 0 <= k < old(candidates)@.len()
                        &&& #[trigger] oldest_eligible(
                            old(candidates)@,
                            k,
                            deliveries@,
                            owner_id@,
                            execution_id,
                            delivery_id,
                            clock.wall,
                        )
                        &&& !can_be_counted(old(candidates)@[k].delivery)
                    }
            },
            Ok(None) => {
                &&& final(candidates)@ == old(candidates)@
                &&& forall|i: int|
                    0 <= i < old(candidates)@.len() ==> !eligible(
                        #[trigger] old(candidates)@[i],
                        deliveries@,
                        owner_id@,
                        execution_id,
                        delivery_id,
                        clock.wall,
                    )
            },
            Ok(Some(k)) => {
                let before = old(candidates)@[k as int];
                let after = final(candidates)@[k as int];
                &&& k < old(candidates)@.len()
                &&& oldest_eligible(
                    old(candidates)@,
                    k as int,
                    deliveries@,
                    owner_id@,
                    execution_id,
                    delivery_id,
                    clock.wall,
                )
                &&& can_be_counted(before.delivery)
                &&& execution_taken(
                    before.execution,
                    after.execution,
                    *owner_id,
                    lease_until,
                    clock,
                )
                &&& delivery_taken(before.delivery, after.delivery, *owner_id, lease_until, clock)
                &&& forall|i: int|
                    0 <= i < old(candidates)@.len() && i != k ==> #[trigger] final(candidates)@[i]
                        == old(candidates)@[i]
            },
        },
        claimed matches Ok(Some(k)) ==> forall|i: int|
            0 <= i < deliveries@.len()
                && (#[trigger] deliveries@[i]).execution_id@
                == old(candidates)@[k as int].delivery.execution_id@
                && deliveries@[i].sequence < old(candidates)@[k as int].delivery.sequence
                ==> deliveries@[i].state@ != "pending"@
                && deliveries@[i].state@ != "claimed"@ && deliveries@[i].state@ != "ambiguous"@,
{
    let mut oldest: Option<usize> = None;
    let mut i: usize = 0;
    while i < candidates.len()
        invariant
            i <= candidates.len(),
            candidates@ == old(candidates)@,
            match oldest {
                None => forall|j: int|
                    0 <= j < i ==> !eligible(
                        #[trigger] candidates@[j],
                        deliveries@,
                        owner_id@,
                        execution_id,
                        delivery_id,
                        clock.wall,
                    ),
                Some(k) => {
                    &&& k < i
                    &&& oldest_eligible(
                        candidates@.take(i as int),
                        k as int,
                        deliveries@,
                        owner_id@,
                        execution_id,
                        delivery_id,
                        clock.wall,
                    )
                },
            },
        decreases candidates.len() - i,
    {
        let ghost seen = candidates@.take(i as int);
        let ghost more = candidates@.take(i + 1);
        proof {
            assert forall|j: int| 0 <= j < i implies #[trigger] more[j] == seen[j] by {}
            assert forall|j: int| 0 <= j < i implies #[trigger] more[j] == candidates@[j] by {}
            assert(more[i as int] == candidates@[i as int]);
        }
        let older = match oldest {
            None => true,
            Some(k) => candidates[i].delivery.created_at < candidates[k].delivery.created_at,
        };
        if older && is_eligible(
            &candidates[i],
            deliveries,
            owner_id.as_str(),
            execution_id,
            delivery_id,
            clock.wall,
        ) {
            oldest = Some(i);
        }
        i += 1;
    }
    assert(candidates@.take(i as int) =~= candidates@);
    let k: usize = match oldest {
        None => return Ok(None),
        Some(k) => k,
    };
    if candidates[k].delivery.owner_generation == i64::MAX || candidates[k].delivery.attempts
        == i32::MAX {
        return Err(SessionStoreError::OutOfRange);
    }
    proof {
        law_claimed_delivery_is_in_its_turn(
            candidates@,
            k as int,
            deliveries@,
            owner_id@,
            execution_id,
            delivery_id,
            clock.wall,
        );
    }
    take(&mut candidates[k], owner_id, lease_until, clock);
    Ok(Some(k))
}

/// Rebinds an unsent claimed delivery to the actor's current trace boundary, and
/// lays the boundary over the metadata of its running execution. The caller must
/// have retired the previous exact sandbox assignment before; payload and
/// ordering of the delivery do not change. Both rows change, or neither.
pub fn rebind_claimed_input_delivery_boundary(
    delivery: &mut SessionInputDeliveryRow,
    execution: &mut SessionExecutionRow,
    owner_id: &str,
    owner_generation: i64,
    boundary_fingerprint: &String,
    execution_boundary: Value,
    clock: Clock,
) -> (rebound: bool)
    ensures
        rebound == (held(*old(delivery), owner_id@, owner_generation, clock.wall)
            && old(execution).execution_id@ == old(delivery).execution_id@
            && old(execution).status@ == ExecutionStatus::Running.name()),
        if rebound {
            &&& *final(delivery) == (SessionInputDeliveryRow {
                boundary_fingerprint: *boundary_fingerprint,
                updated_at: clock.now,
                ..*old(delivery)
            })
            &&& metadata_merged(
                *old(execution),
                *final(execution),
                execution_boundary,
                clock.now,
            )
        } else {
            *final(delivery) == *old(delivery) && *final(execution) == *old(execution)
        },
        rebound <==> old(delivery).state@ == "claimed"@ && old(delivery).owner_id is Some
            && old(delivery).owner_id->0@ == owner_id@ && old(delivery).owner_generation
            == owner_generation && old(delivery).owner_lease_expires_at is Some
            && old(delivery).owner_lease_expires_at->0 > clock.wall && old(execution).execution_id@
            == old(delivery).execution_id@ && old(execution).status@ == "running"@,
        rebound ==> final(delivery).boundary_fingerprint == *boundary_fingerprint
            && final(delivery).input_lines == old(delivery).input_lines
                && final(delivery).message_ids
            == old(delivery).message_ids && final(delivery).sequence == old(delivery).sequence
            && final(delivery).owner_generation == old(delivery).owner_generation
            && final(delivery).state == old(delivery).state,
{
    if !is_held(delivery, owner_id, owner_generation, clock.wall) || !same_text(
        execution.execution_id.as_str(),
        delivery.execution_id.as_str(),
    ) || !same_text(execution.status.as_str(), ExecutionStatus::Running.as_ref()) {
        return false;
    }
    delivery.boundary_fingerprint = boundary_fingerprint.clone();
    delivery.updated_at = clock.now;
    execution.merge_execution_metadata(execution_boundary, clock.now);
    true
}

} // verus!
