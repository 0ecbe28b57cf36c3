//! The single active trace configuration and the lease of its reconciler.
//!
//! The generation of a configuration is a fence that only moves forward. The
//! reconciler's fence moves forward with each acquisition and each new
//! generation, so that a holder from before can tell that it no longer holds.
use crate::error::SessionStoreError;
use crate::model::Timestamp;
use crate::text::{holds, opt_text_is, same_text};
use crate::truth::{both, conjunction, integer_equals, integer_is, text_equals, text_is, Truth};
use vstd::prelude::*;

verus! {

/// The identity of a deployment's trace configuration.
#[derive(Clone, Debug, PartialEq, Eq)]
pub struct MetadataTraceConfigIdentity {
    pub generation: i64,
    pub fingerprint: String,
    /// A disabled deployment is still a durable generation. It fences and
    /// retires traced sandboxes instead of leaving the old sidecar active.
    pub enabled: bool,
}

/// A reconciler's hold on the configuration.
#[derive(Clone, Debug, PartialEq, Eq)]
pub struct MetadataTraceReconcilerLease {
    pub owner_id: String,
    pub fence: i64,
}

/// The row of `metadata_trace_config_state`.
#[derive(Clone, Debug)]
pub struct MetadataTraceConfigStateRow {
    pub generation: i64,
    pub config_fingerprint: String,
    pub reconciler_owner_id: Option<String>,
    pub reconciler_fence: i64,
    pub reconciler_lease_expires_at: Option<Timestamp>,
    pub activated_at: Timestamp,
    pub updated_at: Timestamp,
}

impl MetadataTraceConfigStateRow {
    /// This configuration is the active one.
    pub open spec fn is_active(self, identity: MetadataTraceConfigIdentity) -> bool {
        self.generation == identity.generation && self.config_fingerprint@
            == identity.fingerprint@
    }

    /// The row after a newer generation was activated over it: nobody holds the
    /// lease, and the fence has moved.
    pub open spec fn advanced(
        self,
        identity: MetadataTraceConfigIdentity,
        now: Timestamp,
    ) -> MetadataTraceConfigStateRow {
        MetadataTraceConfigStateRow {
            generation: identity.generation,
            config_fingerprint: identity.fingerprint,
            reconciler_owner_id: None,
            reconciler_fence: (self.reconciler_fence + 1) as i64,
            reconciler_lease_expires_at: None,
            activated_at: now,
            updated_at: now,
        }
    }

    /// The lease may be taken: it is free, it has run out, or the taker has it.
    pub open spec fn lease_available(self, owner: Seq<char>, now: Timestamp) -> bool {
        ||| self.reconciler_lease_expires_at is None
        ||| self.reconciler_lease_expires_at->0 <= now
        ||| holds(self.reconciler_owner_id, owner)
    }

    /// The row after the lease was taken.
    pub open spec fn leased(
        self,
        owner: String,
        until: Timestamp,
        now: Timestamp,
    ) -> MetadataTraceConfigStateRow {
        MetadataTraceConfigStateRow {
            reconciler_owner_id: Some(owner),
            reconciler_fence: (self.reconciler_fence + 1) as i64,
            reconciler_lease_expires_at: Some(until),
            updated_at: now,
            ..self
        }
    }

    /// A lease still holds: the configuration is active, owner and fence are the
    /// recorded ones, and the time has not run out.
    pub open spec fn lease_active(
        self,
        identity: MetadataTraceConfigIdentity,
        lease: MetadataTraceReconcilerLease,
        now: Timestamp,
    ) -> bool {
        &&& self.is_active(identity)
        &&& holds(self.reconciler_owner_id, lease.owner_id@)
        &&& self.reconciler_fence == lease.fence
        &&& self.reconciler_lease_expires_at matches Some(until) && until > now
    }

    /// Whether the given configuration is the active one.
    pub fn metadata_trace_config_is_active(&self, identity: &MetadataTraceConfigIdentity) -> (active:
        bool)
        ensures
            active == self.is_active(*identity),
    {
        self.generation == identity.generation && same_text(
            self.config_fingerprint.as_str(),
            identity.fingerprint.as_str(),
        )
    }

    /// Makes a configuration the active one. `self` is the row that exists once
    /// an absent one has been inserted for this very configuration. A newer
    /// generation replaces the row's; the active one is left alone; an older one,
    /// one that is not positive and another fingerprint under the active
    /// generation are refused. Says whether the row changed.
    pub fn activate_metadata_trace_config(
        &mut self,
        identity: &MetadataTraceConfigIdentity,
        now: Timestamp,
    ) -> (result: Result<bool, SessionStoreError>)
        ensures
            if identity.generation <= 0 {
                &&& result == Err::<bool, SessionStoreError>(
                    SessionStoreError::InvalidMetadataTraceGeneration(identity.generation),
                )
                &&& *final(self) == *old(self)
            } else if old(self).generation < identity.generation && old(self).reconciler_fence
                == i64::MAX {
                &&& result == Err::<bool, SessionStoreError>(SessionStoreError::OutOfRange)
                &&& *final(self) == *old(self)
            } else if old(self).generation < identity.generation {
                &&& result == Ok::<bool, SessionStoreError>(true)
                &&& *final(self) == old(self).advanced(*identity, now)
            } else if old(self).generation > identity.generation {
                &&& result == Err::<bool, SessionStoreError>(
                    SessionStoreError::StaleMetadataTraceGeneration {
                        active: old(self).generation,
                        requested: identity.generation,
                    },
                )
                &&& *final(self) == *old(self)
            } else if old(self).config_fingerprint@ == identity.fingerprint@ {
                &&& result == Ok::<bool, SessionStoreError>(false)
                &&& *final(self) == *old(self)
            } else {
                &&& result == Err::<bool, SessionStoreError>(
                    SessionStoreError::MetadataTraceConfigConflict {
                        generation: identity.generation,
                        existing_fingerprint: old(self).config_fingerprint,
                        requested_fingerprint: identity.fingerprint,
                    },
                )
                &&& *final(self) == *old(self)
            },
            result is Ok ==> final(self).generation == identity.generation
                && final(self).config_fingerprint@
                == identity.fingerprint@,
            result is Err ==> *final(self) == *old(self),
            final(self).generation >= old(self).generation,
            result == Ok::<bool, SessionStoreError>(true) <==> identity.generation > 0
                && identity.generation > old(self).generation
                    && old(self).reconciler_fence < i64::MAX,
            result == Ok::<bool, SessionStoreError>(true)
                ==> final(self).reconciler_owner_id is None
                && final(self).reconciler_lease_expires_at is None && final(self).reconciler_fence
                == old(self).reconciler_fence + 1,
            result == Ok::<bool, SessionStoreError>(false) ==> *final(self) == *old(self),
    {
        match check_metadata_trace_generation(identity) {
            Err(error) => return Err(error),
            Ok(()) => {},
        }
        if self.generation < identity.generation {
            if self.reconciler_fence == i64::MAX {
                return Err(SessionStoreError::OutOfRange);
            }
            self.generation = identity.generation;
            self.config_fingerprint = identity.fingerprint.clone();
            self.reconciler_owner_id = None;
            self.reconciler_fence = self.reconciler_fence + 1;
            self.reconciler_lease_expires_at = None;
            self.activated_at = now;
            self.updated_at = now;
            Ok(true)
        } else if self.generation > identity.generation {
            Err(
                SessionStoreError::StaleMetadataTraceGeneration {
                    active: self.generation,
                    requested: identity.generation,
                },
            )
        } else if same_text(self.config_fingerprint.as_str(), identity.fingerprint.as_str()) {
            Ok(false)
        } else {
            Err(
                SessionStoreError::MetadataTraceConfigConflict {
                    generation: identity.generation,
                    existing_fingerprint: self.config_fingerprint.clone(),
                    requested_fingerprint: identity.fingerprint.clone(),
                },
            )
        }
    }

    /// Takes or renews the reconciliation lease of the active configuration. Each
    /// acquisition moves the fence forward, so that an earlier holder can no
    /// longer act.
    pub fn acquire_metadata_trace_reconciler_lease(
        &mut self,
        identity: &MetadataTraceConfigIdentity,
        owner_id: &String,
        lease_until: Timestamp,
        now: Timestamp,
    ) -> (lease: Result<Option<MetadataTraceReconcilerLease>, SessionStoreError>)
        ensures
            if !old(self).is_active(*identity) || !old(self).lease_available(owner_id@, now) {
                &&& lease == Ok::<Option<MetadataTraceReconcilerLease>, SessionStoreError>(None)
                &&& *final(self) == *old(self)
            } else if old(self).reconciler_fence == i64::MAX {
                &&& lease == Err::<Option<MetadataTraceReconcilerLease>, SessionStoreError>(
                    SessionStoreError::OutOfRange,
                )
                &&& *final(self) == *old(self)
            } else {
                &&& *final(self) == old(self).leased(*owner_id, lease_until, now)
                &&& lease == Ok::<Option<MetadataTraceReconcilerLease>, SessionStoreError>(
                    Some(
                        MetadataTraceReconcilerLease {
                            owner_id: *owner_id,
                            fence: final(self).reconciler_fence,
                        },
                    ),
                )
            },
            lease matches Ok(Some(taken)) ==> {
                &&& taken.owner_id == *owner_id
                &&& taken.fence == old(self).reconciler_fence + 1
                &&& final(self).reconciler_owner_id == Some(*owner_id)
                &&& final(self).reconciler_fence == taken.fence
                &&& final(self).reconciler_lease_expires_at == Some(lease_until)
                &&& final(self).generation == old(self).generation
                &&& old(self).generation == identity.generation
                &&& old(self).config_fingerprint@ == identity.fingerprint@
                &&& old(self).reconciler_lease_expires_at is None
                    || old(self).reconciler_lease_expires_at->0
                    <= now || (old(self).reconciler_owner_id is Some
                        && old(self).reconciler_owner_id->0@
                    == owner_id@)
            },
            !(lease matches Ok(Some(_))) ==> *final(self) == *old(self),
            old(self).generation == identity.generation && old(self).config_fingerprint@
                == identity.fingerprint@ && (old(self).reconciler_lease_expires_at is None
                || old(self).reconciler_lease_expires_at->0 <= now)
                    && old(self).reconciler_fence < i64::MAX
                ==> lease matches Ok(Some(_)),
            old(self).generation == identity.generation && old(self).config_fingerprint@
                == identity.fingerprint@ && old(self).reconciler_owner_id is Some
                && old(self).reconciler_owner_id->0@ == owner_id@
                    && old(self).reconciler_fence < i64::MAX
                ==> lease matches Ok(Some(_)),
    {
        if !self.metadata_trace_config_is_active(identity) {
            return Ok(None);
        }
        let free = match self.reconciler_lease_expires_at {
            None => true,
            Some(until) => until <= now,
        };
        if !free && !opt_text_is(&self.reconciler_owner_id, owner_id.as_str()) {
            return Ok(None);
        }
        if self.reconciler_fence == i64::MAX {
            return Err(SessionStoreError::OutOfRange);
        }
        self.reconciler_owner_id = Some(owner_id.clone());
        self.reconciler_fence = self.reconciler_fence + 1;
        self.reconciler_lease_expires_at = Some(lease_until);
        self.updated_at = now;
        Ok(
            Some(
                MetadataTraceReconcilerLease {
                    owner_id: owner_id.clone(),
                    fence: self.reconciler_fence,
                },
            ),
        )
    }

    /// Whether a lease still holds.
    pub fn metadata_trace_reconciler_lease_is_active(
        &self,
        identity: &MetadataTraceConfigIdentity,
        lease: &MetadataTraceReconcilerLease,
        now: Timestamp,
    ) -> (active: bool)
        ensures
            active == self.lease_active(*identity, *lease, now),
    {
        let live = match self.reconciler_lease_expires_at {
            Some(until) => until > now,
            None => false,
        };
        live && self.metadata_trace_config_is_active(identity) && opt_text_is(
            &self.reconciler_owner_id,
            lease.owner_id.as_str(),
        ) && self.reconciler_fence == lease.fence
    }
}

/// A generation is positive. Asked before a row is written for it.
pub fn check_metadata_trace_generation(identity: &MetadataTraceConfigIdentity) -> (result: Result<
    (),
    SessionStoreError,
>)
    ensures
        result == if identity.generation <= 0 {
            Err::<(), SessionStoreError>(
                SessionStoreError::InvalidMetadataTraceGeneration(identity.generation),
            )
        } else {
            Ok::<(), SessionStoreError>(())
        },
        result is Ok <==> identity.generation >= 1,
{
    if identity.generation <= 0 {
        Err(SessionStoreError::InvalidMetadataTraceGeneration(identity.generation))
    } else {
        Ok(())
    }
}

/// The configuration row, if there is one, is that of a boundary whose generation
/// and fingerprint may be null.
pub open spec fn boundary_config(
    config: Option<MetadataTraceConfigStateRow>,
    generation: Option<i64>,
    fingerprint: Option<String>,
) -> Truth {
    match config {
        None => Truth::False,
        Some(row) => conjunction(
            integer_equals(row.generation, generation),
            text_equals(row.config_fingerprint@, fingerprint),
        ),
    }
}

/// Whether the configuration row, if there is one, is that of a boundary.
pub fn boundary_config_is_active(
    config: &Option<MetadataTraceConfigStateRow>,
    generation: Option<i64>,
    fingerprint: &Option<String>,
) -> (truth: Truth)
    ensures
        truth == boundary_config(*config, generation, *fingerprint),
{
    match config {
        None => Truth::False,
        Some(row) => both(
            integer_is(row.generation, generation),
            text_is(row.config_fingerprint.as_str(), fingerprint),
        ),
    }
}

/// Activating and leasing only ever move the generation and the fence forward,
/// and neither moves without the row being rewritten.
pub proof fn law_fences_never_move_back(
    row: MetadataTraceConfigStateRow,
    identity: MetadataTraceConfigIdentity,
    owner: String,
    until: Timestamp,
    now: Timestamp,
)
    requires
        row.reconciler_fence < i64::MAX,
    ensures
        row.generation < identity.generation ==> row.advanced(identity, now).generation
            > row.generation,
        row.advanced(identity, now).reconciler_fence > row.reconciler_fence,
        row.leased(owner, until, now).reconciler_fence > row.reconciler_fence,
        row.leased(owner, until, now).generation == row.generation,
        row.leased(owner, until, now).config_fingerprint == row.config_fingerprint,
{
}

/// Once another acquisition has succeeded, no lease handed out before it is
/// active, whoever held it and whatever the time.
pub proof fn law_earlier_lease_is_fenced(
    row: MetadataTraceConfigStateRow,
    earlier: MetadataTraceReconcilerLease,
    owner: String,
    until: Timestamp,
    acquired_at: Timestamp,
    identity: MetadataTraceConfigIdentity,
    at: Timestamp,
)
    requires
        row.reconciler_fence < i64::MAX,
        earlier.fence <= row.reconciler_fence,
    ensures
        !row.leased(owner, until, acquired_at).lease_active(identity, earlier, at),
{
}

/// A newer generation ends every lease of the configuration that it replaced.
pub proof fn law_new_generation_ends_leases(
    row: MetadataTraceConfigStateRow,
    newer: MetadataTraceConfigIdentity,
    activated_at: Timestamp,
    identity: MetadataTraceConfigIdentity,
    lease: MetadataTraceReconcilerLease,
    at: Timestamp,
)
    requires
        row.generation < newer.generation,
        row.is_active(identity),
    ensures
        !row.advanced(newer, activated_at).is_active(identity),
        !row.advanced(newer, activated_at).lease_active(identity, lease, at),
        !row.advanced(newer, activated_at).lease_active(newer, lease, at),
{
}

/// A lease that was just taken is active until its time runs out, and while it is
/// active nobody else can take one.
pub proof fn law_lease_excludes_others(
    row: MetadataTraceConfigStateRow,
    identity: MetadataTraceConfigIdentity,
    owner: String,
    until: Timestamp,
    acquired_at: Timestamp,
    other: Seq<char>,
    at: Timestamp,
)
    requires
        row.reconciler_fence < i64::MAX,
        row.is_active(identity),
        at < until,
        other != owner@,
    ensures
        ({
            let taken = row.leased(owner, until, acquired_at);
            let lease = MetadataTraceReconcilerLease {
                owner_id: owner,
                fence: taken.reconciler_fence,
            };
            taken.lease_active(identity, lease, at) && !taken.lease_available(other, at)
        }),
{
}

} // verus!
