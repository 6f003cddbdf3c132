//! Role capability summary truth, source snapshots, and guards.
use vstd::prelude::*;

use crate::actor::{ActorKind, ActorRef};
use crate::contracts::refs::{
    role_material_forbidden, same_role_capability_source_spec, CapabilityEvidenceRef,
    CapabilitySourceRef, GlobalMemberRef, IdentityOperationChannel, IdentitySourceRef,
    IdentityTimestamp, RoleCapabilityChangeMaterialKind, RoleCapabilityChangeMaterialMarker,
    RoleCapabilityChangeReasonKind, RoleCapabilityChangeReasonRef, RoleCapabilitySafeSummaryRef,
    RoleCapabilitySourceRef, RoleCapabilitySourceSnapshotRef, RoleCapabilitySourceVersionRef,
    RoleCapabilitySummaryRef, RoleSourceRef,
};
use crate::domain::errors::IdentityDomainError;

verus! {

/// Role capability source snapshot state owned by the domain layer.
#[derive(Clone, Copy, Debug, Eq, PartialEq, Structural)]
pub enum RoleCapabilitySourceStateKind {
    /// Source is resolved and usable for active summary writes.
    SourceResolved,
    /// Source version changed or snapshot is otherwise stale.
    SourceStale,
    /// Source is currently unavailable.
    SourceUnavailable,
    /// Source marker cannot map to a recognized source.
    SourceUnrecognized,
    /// Snapshot has been replaced by a newer version.
    SourceSuperseded,
}

/// Role capability summary state.
#[derive(Clone, Copy, Debug, Eq, PartialEq, Structural)]
pub enum RoleCapabilitySummaryStateKind {
    /// The summary is active and usable.
    Active,
    /// The summary is stale and requires refresh.
    Stale,
    /// The summary source is unavailable.
    Unavailable,
    /// The summary requires formal reconciliation.
    PendingReconciliation,
    /// The summary has been superseded.
    Superseded,
}

/// Whether a summary in this state needs reconciliation or refresh.
pub open spec fn summary_needs_reconciliation(kind: RoleCapabilitySummaryStateKind) -> bool {
    ||| kind == RoleCapabilitySummaryStateKind::Stale
    ||| kind == RoleCapabilitySummaryStateKind::Unavailable
    ||| kind == RoleCapabilitySummaryStateKind::PendingReconciliation
}

/// Identity-owned role capability summary.
#[derive(Debug, Eq, PartialEq)]
pub struct RoleCapabilitySummary {
    /// Stable summary ref.
    pub summary_ref: RoleCapabilitySummaryRef,
    /// Member that owns the summary.
    pub member_ref: GlobalMemberRef,
    /// Optional role source ref.
    pub role_source_ref: Option<RoleSourceRef>,
    /// Capability source refs.
    pub capability_source_refs: Vec<CapabilitySourceRef>,
    /// Evidence refs.
    pub evidence_refs: Vec<CapabilityEvidenceRef>,
    /// Safe summary marker.
    pub safe_summary_ref: RoleCapabilitySafeSummaryRef,
    /// Current source snapshot ref.
    pub source_snapshot_ref: RoleCapabilitySourceSnapshotRef,
    /// Summary state.
    pub summary_state: RoleCapabilitySummaryStateKind,
    /// Latest actor that changed the summary.
    pub changed_by_ref: ActorRef,
    /// Latest change time.
    pub changed_at: IdentityTimestamp,
}

/// Whether two summaries agree field by field, the lists by their contents.
pub open spec fn summary_same(a: RoleCapabilitySummary, b: RoleCapabilitySummary) -> bool {
    &&& a.summary_ref == b.summary_ref
    &&& a.member_ref == b.member_ref
    &&& a.role_source_ref == b.role_source_ref
    &&& a.capability_source_refs@ == b.capability_source_refs@
    &&& a.evidence_refs@ == b.evidence_refs@
    &&& a.safe_summary_ref == b.safe_summary_ref
    &&& a.source_snapshot_ref == b.source_snapshot_ref
    &&& a.summary_state == b.summary_state
    &&& a.changed_by_ref == b.changed_by_ref
    &&& a.changed_at == b.changed_at
}

impl Clone for RoleCapabilitySummary {
    fn clone(&self) -> (r: Self)
        ensures
            summary_same(r, *self),
    {
        let capability_source_refs = self.capability_source_refs.clone();
        proof {
            assert(capability_source_refs@ =~= self.capability_source_refs@);
        }
        let evidence_refs = self.evidence_refs.clone();
        proof {
            assert(evidence_refs@ =~= self.evidence_refs@);
        }
        RoleCapabilitySummary {
            summary_ref: self.summary_ref.clone(),
            member_ref: self.member_ref.clone(),
            role_source_ref: self.role_source_ref.clone(),
            capability_source_refs,
            evidence_refs,
            safe_summary_ref: self.safe_summary_ref.clone(),
            source_snapshot_ref: self.source_snapshot_ref.clone(),
            summary_state: self.summary_state,
            changed_by_ref: self.changed_by_ref.clone(),
            changed_at: self.changed_at,
        }
    }
}

/// Method-library source snapshot for role capability maintenance.
#[derive(Debug, Eq, PartialEq)]
pub struct RoleCapabilitySourceSnapshot {
    /// Stable snapshot ref.
    pub snapshot_ref: RoleCapabilitySourceSnapshotRef,
    /// Canonical source ref.
    pub source_ref: RoleCapabilitySourceRef,
    /// Formal source version.
    pub source_version_ref: RoleCapabilitySourceVersionRef,
    /// Current source state.
    pub source_state: RoleCapabilitySourceStateKind,
    /// Optional safe summary marker.
    pub safe_summary_ref: Option<RoleCapabilitySafeSummaryRef>,
    /// Evidence refs.
    pub evidence_refs: Vec<CapabilityEvidenceRef>,
    /// Resolution timestamp.
    pub resolved_at: IdentityTimestamp,
}

/// Whether two snapshots agree field by field, the evidence by its contents.
pub open spec fn snapshot_same(a: RoleCapabilitySourceSnapshot, b: RoleCapabilitySourceSnapshot) -> bool {
    &&& a.snapshot_ref == b.snapshot_ref
    &&& a.source_ref == b.source_ref
    &&& a.source_version_ref == b.source_version_ref
    &&& a.source_state == b.source_state
    &&& a.safe_summary_ref == b.safe_summary_ref
    &&& a.evidence_refs@ == b.evidence_refs@
    &&& a.resolved_at == b.resolved_at
}

impl Clone for RoleCapabilitySourceSnapshot {
    fn clone(&self) -> (r: Self)
        ensures
            snapshot_same(r, *self),
    {
        let evidence_refs = self.evidence_refs.clone();
        proof {
            assert(evidence_refs@ =~= self.evidence_refs@);
        }
        RoleCapabilitySourceSnapshot {
            snapshot_ref: self.snapshot_ref.clone(),
            source_ref: self.source_ref.clone(),
            source_version_ref: self.source_version_ref.clone(),
            source_state: self.source_state,
            safe_summary_ref: self.safe_summary_ref.clone(),
            evidence_refs,
            resolved_at: self.resolved_at,
        }
    }
}

/// Whether a snapshot may drive active summary writes: resolved, with a safe
/// summary and at least one evidence ref.
pub open spec fn snapshot_usable(s: RoleCapabilitySourceSnapshot) -> bool {
    s.source_state == RoleCapabilitySourceStateKind::SourceResolved && s.safe_summary_ref is Some && s.evidence_refs@.len() > 0
}

/// Whether the snapshot's version belongs to the snapshot's own source.
pub open spec fn snapshot_version_consistent(s: RoleCapabilitySourceSnapshot) -> bool {
    same_role_capability_source_spec(s.source_version_ref.source_ref, s.source_ref)
}

/// The first rule `create_for_member` finds broken, in order: unusable
/// snapshot, safe summary of another source, no evidence.
pub open spec fn summary_create_violation(
    snapshot: RoleCapabilitySourceSnapshot,
    safe_summary_ref: RoleCapabilitySafeSummaryRef,
    evidence_refs: Seq<CapabilityEvidenceRef>,
) -> Option<IdentityDomainError> {
    if !snapshot_usable(snapshot) {
        Some(IdentityDomainError::PolicyDenied { policy: "RoleCapabilitySummary", message: "source snapshot is not usable for an active summary" })
    } else if !same_role_capability_source_spec(safe_summary_ref.source_ref, snapshot.source_ref) {
        Some(IdentityDomainError::InvalidInput { field: "safe_summary_ref", message: "safe summary does not belong to the source snapshot" })
    } else if evidence_refs.len() == 0 {
        Some(IdentityDomainError::MissingRequiredField { field: "evidence_refs" })
    } else {
        None
    }
}

/// The rejection a move out of a superseded summary reports.
pub open spec fn superseded_summary_error() -> IdentityDomainError {
    IdentityDomainError::InvalidStateTransition { entity: "RoleCapabilitySummary", message: "superseded summary cannot be reopened" }
}

impl RoleCapabilitySummary {
    /// Creates an active role capability summary for a member from a usable
    /// snapshot, with no role or capability sources attached yet.
    pub fn create_for_member(
        summary_ref: RoleCapabilitySummaryRef,
        member_ref: GlobalMemberRef,
        source_snapshot: &RoleCapabilitySourceSnapshot,
        safe_summary_ref: RoleCapabilitySafeSummaryRef,
        evidence_refs: Vec<CapabilityEvidenceRef>,
        actor_ref: ActorRef,
        changed_at: IdentityTimestamp,
    ) -> (r: Result<Self, IdentityDomainError>)
        ensures
            r is Ok <==> summary_create_violation(*source_snapshot, safe_summary_ref, evidence_refs@) is None,
            r matches Err(e) ==> summary_create_violation(*source_snapshot, safe_summary_ref, evidence_refs@) == Some(e),
            r matches Ok(v) ==> {
                &&& v.summary_ref == summary_ref
                &&& v.member_ref == member_ref
                &&& v.role_source_ref is None
                &&& v.capability_source_refs@.len() == 0
                &&& v.evidence_refs@ == evidence_refs@
                &&& v.safe_summary_ref == safe_summary_ref
                &&& v.source_snapshot_ref == source_snapshot.snapshot_ref
                &&& v.summary_state == RoleCapabilitySummaryStateKind::Active
                &&& v.changed_by_ref == actor_ref
                &&& v.changed_at == changed_at
            },
    {
        if !source_snapshot.is_usable_for_summary() {
            return Err(IdentityDomainError::policy_denied("RoleCapabilitySummary", "source snapshot is not usable for an active summary"));
        }
        if !safe_summary_ref.belongs_to_source(&source_snapshot.source_ref) {
            return Err(IdentityDomainError::invalid_input("safe_summary_ref", "safe summary does not belong to the source snapshot"));
        }
        if evidence_refs.is_empty() {
            return Err(IdentityDomainError::missing_required_field("evidence_refs"));
        }
        Ok(RoleCapabilitySummary {
            summary_ref,
            member_ref,
            role_source_ref: None,
            capability_source_refs: Vec::new(),
            evidence_refs,
            safe_summary_ref,
            source_snapshot_ref: source_snapshot.snapshot_ref.clone(),
            summary_state: RoleCapabilitySummaryStateKind::Active,
            changed_by_ref: actor_ref,
            changed_at,
        })
    }

    /// Returns whether the summary belongs to the given member.
    pub fn belongs_to(&self, member_ref: GlobalMemberRef) -> (r: bool)
        ensures
            r == (self.member_ref.member_id@ == member_ref.member_id@),
    {
        self.member_ref.same_member(&member_ref)
    }

    /// Attaches a role source taken from a usable snapshot of that same source;
    /// the summary becomes active. A refused attach leaves the summary unchanged.
    pub fn attach_role_source(
        &mut self,
        role_source_ref: RoleSourceRef,
        source_snapshot: &RoleCapabilitySourceSnapshot,
        actor_ref: ActorRef,
        changed_at: IdentityTimestamp,
    ) -> (r: Result<(), IdentityDomainError>)
        ensures
            r is Ok <==> (same_role_capability_source_spec(source_snapshot.source_ref, role_source_ref.source_ref) && snapshot_usable(*source_snapshot)),
            r is Ok ==> *final(self) == (RoleCapabilitySummary {
                role_source_ref: Some(role_source_ref),
                source_snapshot_ref: source_snapshot.snapshot_ref,
                summary_state: RoleCapabilitySummaryStateKind::Active,
                changed_by_ref: actor_ref,
                changed_at,
                ..*old(self)
            }),
            r is Err ==> *final(self) == *old(self),
            r matches Err(e) ==> if !same_role_capability_source_spec(source_snapshot.source_ref, role_source_ref.source_ref) {
                e == (IdentityDomainError::InvalidInput { field: "role_source_ref", message: "role source does not match the source snapshot" })
            } else {
                e == (IdentityDomainError::PolicyDenied { policy: "RoleCapabilitySummary", message: "source snapshot is not usable for active summary update" })
            },
    {
        if !source_snapshot.matches_source(role_source_ref.canonical_source().clone()) {
            return Err(IdentityDomainError::invalid_input("role_source_ref", "role source does not match the source snapshot"));
        }
        if !source_snapshot.is_usable_for_summary() {
            return Err(IdentityDomainError::policy_denied("RoleCapabilitySummary", "source snapshot is not usable for active summary update"));
        }
        self.role_source_ref = Some(role_source_ref);
        self.source_snapshot_ref = source_snapshot.snapshot_ref.clone();
        self.summary_state = RoleCapabilitySummaryStateKind::Active;
        self.changed_by_ref = actor_ref;
        self.changed_at = changed_at;
        Ok(())
    }

    /// Replaces the capability sources, evidence, and safe summary; both lists
    /// must be non-empty and the summary becomes active. A refused update leaves
    /// the summary unchanged.
    pub fn update_capability_summary(
        &mut self,
        capability_source_refs: Vec<CapabilitySourceRef>,
        evidence_refs: Vec<CapabilityEvidenceRef>,
        safe_summary_ref: RoleCapabilitySafeSummaryRef,
        actor_ref: ActorRef,
        changed_at: IdentityTimestamp,
    ) -> (r: Result<(), IdentityDomainError>)
        ensures
            r is Ok <==> (capability_source_refs@.len() > 0 && evidence_refs@.len() > 0),
            r is Ok ==> *final(self) == (RoleCapabilitySummary {
                capability_source_refs,
                evidence_refs,
                safe_summary_ref,
                summary_state: RoleCapabilitySummaryStateKind::Active,
                changed_by_ref: actor_ref,
                changed_at,
                ..*old(self)
            }),
            r is Err ==> *final(self) == *old(self),
            r matches Err(e) ==> if capability_source_refs@.len() == 0 {
                e == (IdentityDomainError::MissingRequiredField { field: "capability_source_refs" })
            } else {
                e == (IdentityDomainError::MissingRequiredField { field: "evidence_refs" })
            },
    {
        if capability_source_refs.is_empty() {
            return Err(IdentityDomainError::missing_required_field("capability_source_refs"));
        }
        if evidence_refs.is_empty() {
            return Err(IdentityDomainError::missing_required_field("evidence_refs"));
        }
        self.capability_source_refs = capability_source_refs;
        self.evidence_refs = evidence_refs;
        self.safe_summary_ref = safe_summary_ref;
        self.summary_state = RoleCapabilitySummaryStateKind::Active;
        self.changed_by_ref = actor_ref;
        self.changed_at = changed_at;
        Ok(())
    }

    /// Marks a summary that has not been superseded stale after a source change,
    /// pointing it at the new snapshot. A refused move leaves it unchanged.
    pub fn mark_stale(&mut self, source_snapshot: &RoleCapabilitySourceSnapshot, changed_at: IdentityTimestamp) -> (r: Result<(), IdentityDomainError>)
        ensures
            r is Ok <==> old(self).summary_state != RoleCapabilitySummaryStateKind::Superseded,
            r is Ok ==> *final(self) == (RoleCapabilitySummary {
                source_snapshot_ref: source_snapshot.snapshot_ref,
                summary_state: RoleCapabilitySummaryStateKind::Stale,
                changed_at,
                ..*old(self)
            }),
            r is Err ==> *final(self) == *old(self),
            r matches Err(e) ==> e == superseded_summary_error(),
    {
        if self.summary_state == RoleCapabilitySummaryStateKind::Superseded {
            return Err(IdentityDomainError::invalid_state_transition("RoleCapabilitySummary", "superseded summary cannot be reopened"));
        }
        self.source_snapshot_ref = source_snapshot.snapshot_ref.clone();
        self.summary_state = RoleCapabilitySummaryStateKind::Stale;
        self.changed_at = changed_at;
        Ok(())
    }

    /// Marks a summary that has not been superseded unavailable for the given
    /// source, which must be the summary's role source when it has one. A
    /// refused move leaves it unchanged.
    pub fn mark_unavailable(&mut self, source_ref: RoleCapabilitySourceRef, changed_at: IdentityTimestamp) -> (r: Result<(), IdentityDomainError>)
        ensures
            r is Ok <==> (old(self).summary_state != RoleCapabilitySummaryStateKind::Superseded
                && (old(self).role_source_ref matches Some(rs) ==> same_role_capability_source_spec(rs.source_ref, source_ref))),
            r is Ok ==> *final(self) == (RoleCapabilitySummary {
                summary_state: RoleCapabilitySummaryStateKind::Unavailable,
                changed_at,
                ..*old(self)
            }),
            r is Err ==> *final(self) == *old(self),
            r matches Err(e) ==> if old(self).summary_state == RoleCapabilitySummaryStateKind::Superseded {
                e == superseded_summary_error()
            } else {
                e == (IdentityDomainError::InvalidInput { field: "source_ref", message: "source ref does not match the summary source" })
            },
    {
        if self.summary_state == RoleCapabilitySummaryStateKind::Superseded {
            return Err(IdentityDomainError::invalid_state_transition("RoleCapabilitySummary", "superseded summary cannot be reopened"));
        }
        match &self.role_source_ref {
            Some(role_source_ref) => {
                if !role_source_ref.canonical_source().same_source(&source_ref) {
                    return Err(IdentityDomainError::invalid_input("source_ref", "source ref does not match the summary source"));
                }
            },
            None => {},
        }
        self.summary_state = RoleCapabilitySummaryStateKind::Unavailable;
        self.changed_at = changed_at;
        Ok(())
    }

    /// Returns whether the summary needs reconciliation or refresh.
    pub fn requires_reconciliation(&self) -> (r: bool)
        ensures
            r == summary_needs_reconciliation(self.summary_state),
    {
        matches!(
            self.summary_state,
            RoleCapabilitySummaryStateKind::Stale
                | RoleCapabilitySummaryStateKind::Unavailable
                | RoleCapabilitySummaryStateKind::PendingReconciliation
        )
    }
}

/// The rejection a move out of a superseded snapshot reports.
pub open spec fn superseded_snapshot_error() -> IdentityDomainError {
    IdentityDomainError::InvalidStateTransition { entity: "RoleCapabilitySourceSnapshot", message: "superseded snapshot cannot transition" }
}

/// The rejection a version of another source reports.
pub open spec fn foreign_version_error() -> IdentityDomainError {
    IdentityDomainError::InvalidInput { field: "source_version_ref", message: "new version ref does not belong to source ref" }
}

impl RoleCapabilitySourceSnapshot {
    /// Creates a resolved source snapshot; the version and the safe summary must
    /// belong to the source.
    pub fn from_resolved_source(
        snapshot_ref: RoleCapabilitySourceSnapshotRef,
        source_ref: RoleCapabilitySourceRef,
        source_version_ref: RoleCapabilitySourceVersionRef,
        safe_summary_ref: RoleCapabilitySafeSummaryRef,
        evidence_refs: Vec<CapabilityEvidenceRef>,
        resolved_at: IdentityTimestamp,
    ) -> (r: Result<Self, IdentityDomainError>)
        ensures
            r is Ok <==> (same_role_capability_source_spec(source_version_ref.source_ref, source_ref)
                && same_role_capability_source_spec(safe_summary_ref.source_ref, source_ref)),
            r matches Err(e) ==> if !same_role_capability_source_spec(source_version_ref.source_ref, source_ref) {
                e == (IdentityDomainError::InvalidInput { field: "source_version_ref", message: "source version ref does not belong to source ref" })
            } else {
                e == (IdentityDomainError::InvalidInput { field: "safe_summary_ref", message: "safe summary does not belong to source ref" })
            },
            r matches Ok(v) ==> {
                &&& v.snapshot_ref == snapshot_ref
                &&& v.source_ref == source_ref
                &&& v.source_version_ref == source_version_ref
                &&& v.source_state == RoleCapabilitySourceStateKind::SourceResolved
                &&& v.safe_summary_ref == Some(safe_summary_ref)
                &&& v.evidence_refs@ == evidence_refs@
                &&& v.resolved_at == resolved_at
                &&& snapshot_version_consistent(v)
            },
    {
        if !source_version_ref.belongs_to(&source_ref) {
            return Err(IdentityDomainError::invalid_input("source_version_ref", "source version ref does not belong to source ref"));
        }
        if !safe_summary_ref.belongs_to_source(&source_ref) {
            return Err(IdentityDomainError::invalid_input("safe_summary_ref", "safe summary does not belong to source ref"));
        }
        Ok(RoleCapabilitySourceSnapshot {
            snapshot_ref,
            source_ref,
            source_version_ref,
            source_state: RoleCapabilitySourceStateKind::SourceResolved,
            safe_summary_ref: Some(safe_summary_ref),
            evidence_refs,
            resolved_at,
        })
    }

    /// Creates an unavailable source snapshot with a formal version marker and no
    /// summary or evidence.
    pub fn unavailable(
        snapshot_ref: RoleCapabilitySourceSnapshotRef,
        source_ref: RoleCapabilitySourceRef,
        source_version_ref: RoleCapabilitySourceVersionRef,
        checked_at: IdentityTimestamp,
    ) -> (r: Self)
        ensures
            r.snapshot_ref == snapshot_ref,
            r.source_ref == source_ref,
            r.source_version_ref == source_version_ref,
            r.source_state == RoleCapabilitySourceStateKind::SourceUnavailable,
            r.safe_summary_ref is None,
            r.evidence_refs@.len() == 0,
            r.resolved_at == checked_at,
    {
        RoleCapabilitySourceSnapshot {
            snapshot_ref,
            source_ref,
            source_version_ref,
            source_state: RoleCapabilitySourceStateKind::SourceUnavailable,
            safe_summary_ref: None,
            evidence_refs: Vec::new(),
            resolved_at: checked_at,
        }
    }

    /// Creates an unrecognized source snapshot with a formal version marker and
    /// no summary or evidence.
    pub fn unrecognized(
        snapshot_ref: RoleCapabilitySourceSnapshotRef,
        source_ref: RoleCapabilitySourceRef,
        source_version_ref: RoleCapabilitySourceVersionRef,
        checked_at: IdentityTimestamp,
    ) -> (r: Self)
        ensures
            r.snapshot_ref == snapshot_ref,
            r.source_ref == source_ref,
            r.source_version_ref == source_version_ref,
            r.source_state == RoleCapabilitySourceStateKind::SourceUnrecognized,
            r.safe_summary_ref is None,
            r.evidence_refs@.len() == 0,
            r.resolved_at == checked_at,
    {
        RoleCapabilitySourceSnapshot {
            snapshot_ref,
            source_ref,
            source_version_ref,
            source_state: RoleCapabilitySourceStateKind::SourceUnrecognized,
            safe_summary_ref: None,
            evidence_refs: Vec::new(),
            resolved_at: checked_at,
        }
    }

    /// Returns whether the snapshot matches the provided source.
    pub fn matches_source(&self, source_ref: RoleCapabilitySourceRef) -> (r: bool)
        ensures
            r == same_role_capability_source_spec(self.source_ref, source_ref),
    {
        self.source_ref.same_source(&source_ref)
    }

    /// Returns whether the snapshot has evidence refs.
    pub fn has_required_evidence(&self) -> (r: bool)
        ensures
            r == (self.evidence_refs@.len() > 0),
    {
        !self.evidence_refs.is_empty()
    }

    /// Returns whether the snapshot is usable for active summary writes.
    pub fn is_usable_for_summary(&self) -> (r: bool)
        ensures
            r == snapshot_usable(*self),
    {
        self.source_state == RoleCapabilitySourceStateKind::SourceResolved && self.safe_summary_ref.is_some() && self.has_required_evidence()
    }

    /// Marks a snapshot that has not been superseded stale with a new version of
    /// the same source. A refused move leaves the snapshot unchanged.
    pub fn mark_stale(&mut self, new_version_ref: RoleCapabilitySourceVersionRef, changed_at: IdentityTimestamp) -> (r: Result<(), IdentityDomainError>)
        ensures
            r is Ok <==> (old(self).source_state != RoleCapabilitySourceStateKind::SourceSuperseded
                && same_role_capability_source_spec(new_version_ref.source_ref, old(self).source_ref)),
            r is Ok ==> *final(self) == (RoleCapabilitySourceSnapshot {
                source_version_ref: new_version_ref,
                source_state: RoleCapabilitySourceStateKind::SourceStale,
                resolved_at: changed_at,
                ..*old(self)
            }),
            r is Err ==> *final(self) == *old(self),
            r matches Err(e) ==> if old(self).source_state == RoleCapabilitySourceStateKind::SourceSuperseded {
                e == superseded_snapshot_error()
            } else {
                e == foreign_version_error()
            },
            snapshot_version_consistent(*old(self)) ==> snapshot_version_consistent(*final(self)),
    {
        if self.source_state == RoleCapabilitySourceStateKind::SourceSuperseded {
            return Err(IdentityDomainError::invalid_state_transition("RoleCapabilitySourceSnapshot", "superseded snapshot cannot transition"));
        }
        if !new_version_ref.belongs_to(&self.source_ref) {
            return Err(IdentityDomainError::invalid_input("source_version_ref", "new version ref does not belong to source ref"));
        }
        self.source_version_ref = new_version_ref;
        self.source_state = RoleCapabilitySourceStateKind::SourceStale;
        self.resolved_at = changed_at;
        Ok(())
    }

    /// Marks a snapshot that has not been superseded unavailable, dropping its
    /// safe summary and keeping its formal version. A refused move leaves the
    /// snapshot unchanged.
    pub fn mark_unavailable(&mut self, checked_at: IdentityTimestamp) -> (r: Result<(), IdentityDomainError>)
        ensures
            r is Ok <==> old(self).source_state != RoleCapabilitySourceStateKind::SourceSuperseded,
            r is Ok ==> *final(self) == (RoleCapabilitySourceSnapshot {
                source_state: RoleCapabilitySourceStateKind::SourceUnavailable,
                safe_summary_ref: None,
                resolved_at: checked_at,
                ..*old(self)
            }),
            r is Err ==> *final(self) == *old(self),
            r matches Err(e) ==> e == superseded_snapshot_error(),
            snapshot_version_consistent(*old(self)) ==> snapshot_version_consistent(*final(self)),
    {
        if self.source_state == RoleCapabilitySourceStateKind::SourceSuperseded {
            return Err(IdentityDomainError::invalid_state_transition("RoleCapabilitySourceSnapshot", "superseded snapshot cannot transition"));
        }
        self.source_state = RoleCapabilitySourceStateKind::SourceUnavailable;
        self.safe_summary_ref = None;
        self.resolved_at = checked_at;
        Ok(())
    }

    /// Marks the snapshot superseded by a newer version of the same source. A
    /// refused move leaves the snapshot unchanged.
    pub fn mark_superseded(&mut self, new_version_ref: RoleCapabilitySourceVersionRef, changed_at: IdentityTimestamp) -> (r: Result<(), IdentityDomainError>)
        ensures
            r is Ok <==> same_role_capability_source_spec(new_version_ref.source_ref, old(self).source_ref),
            r is Ok ==> *final(self) == (RoleCapabilitySourceSnapshot {
                source_version_ref: new_version_ref,
                source_state: RoleCapabilitySourceStateKind::SourceSuperseded,
                resolved_at: changed_at,
                ..*old(self)
            }),
            r is Err ==> *final(self) == *old(self),
            r matches Err(e) ==> e == foreign_version_error(),
            snapshot_version_consistent(*old(self)) ==> snapshot_version_consistent(*final(self)),
    {
        if !new_version_ref.belongs_to(&self.source_ref) {
            return Err(IdentityDomainError::invalid_input("source_version_ref", "new version ref does not belong to source ref"));
        }
        self.source_version_ref = new_version_ref;
        self.source_state = RoleCapabilitySourceStateKind::SourceSuperseded;
        self.resolved_at = changed_at;
        Ok(())
    }

    /// Returns whether the snapshot is terminally superseded.
    pub fn is_superseded(&self) -> (r: bool)
        ensures
            r == (self.source_state == RoleCapabilitySourceStateKind::SourceSuperseded),
    {
        self.source_state == RoleCapabilitySourceStateKind::SourceSuperseded
    }
}

/// Guard for role capability summary writes.
#[derive(Debug, Eq, PartialEq)]
pub struct RoleCapabilitySourcePolicy {
    /// Member that owns the summary.
    pub member_ref: GlobalMemberRef,
    /// Source snapshot for this change.
    pub source_snapshot: RoleCapabilitySourceSnapshot,
    /// Evidence refs supplied with the change.
    pub evidence_refs: Vec<CapabilityEvidenceRef>,
    /// Change reason marker.
    pub change_reason_ref: RoleCapabilityChangeReasonRef,
    /// Change actor.
    pub actor_ref: ActorRef,
    /// Current operation channel.
    pub operation_channel: IdentityOperationChannel,
    /// Change material marker.
    pub change_material_marker: RoleCapabilityChangeMaterialMarker,
}

impl Clone for RoleCapabilitySourcePolicy {
    fn clone(&self) -> (r: Self)
        ensures
            r.member_ref == self.member_ref,
            snapshot_same(r.source_snapshot, self.source_snapshot),
            r.evidence_refs@ == self.evidence_refs@,
            r.change_reason_ref == self.change_reason_ref,
            r.actor_ref == self.actor_ref,
            r.operation_channel == self.operation_channel,
            r.change_material_marker == self.change_material_marker,
    {
        let evidence_refs = self.evidence_refs.clone();
        proof {
            assert(evidence_refs@ =~= self.evidence_refs@);
        }
        RoleCapabilitySourcePolicy {
            member_ref: self.member_ref.clone(),
            source_snapshot: self.source_snapshot.clone(),
            evidence_refs,
            change_reason_ref: self.change_reason_ref.clone(),
            actor_ref: self.actor_ref.clone(),
            operation_channel: self.operation_channel,
            change_material_marker: self.change_material_marker.clone(),
        }
    }
}

/// The body-free source a source-driven change is attributed to: the summary's
/// role source when it has one, else the source of its safe summary.
pub open spec fn source_change_reason_source(summary: RoleCapabilitySummary) -> IdentitySourceRef {
    match summary.role_source_ref {
        Some(rs) => rs.source_ref.source_ref,
        None => summary.safe_summary_ref.source_ref.source_ref,
    }
}

impl RoleCapabilitySourcePolicy {
    /// Creates a policy for direct summary maintenance.
    pub fn for_summary_update(
        member_ref: GlobalMemberRef,
        source_snapshot: RoleCapabilitySourceSnapshot,
        evidence_refs: Vec<CapabilityEvidenceRef>,
        change_reason_ref: RoleCapabilityChangeReasonRef,
        actor_ref: ActorRef,
        operation_channel: IdentityOperationChannel,
        change_material_marker: RoleCapabilityChangeMaterialMarker,
    ) -> (r: Self)
        ensures
            r == (RoleCapabilitySourcePolicy {
                member_ref,
                source_snapshot,
                evidence_refs,
                change_reason_ref,
                actor_ref,
                operation_channel,
                change_material_marker,
            }),
    {
        RoleCapabilitySourcePolicy {
            member_ref,
            source_snapshot,
            evidence_refs,
            change_reason_ref,
            actor_ref,
            operation_channel,
            change_material_marker,
        }
    }

    /// Creates a policy for source-driven summary change handling: the member
    /// and evidence come from the current summary, the reason is a source change
    /// attributed to the summary's source, and the actor is the system actor
    /// `role-capability-source-change`.
    pub fn for_source_change(
        current_summary: &RoleCapabilitySummary,
        source_snapshot: RoleCapabilitySourceSnapshot,
        operation_channel: IdentityOperationChannel,
        change_material_marker: RoleCapabilityChangeMaterialMarker,
    ) -> (r: Self)
        ensures
            r.member_ref == current_summary.member_ref,
            r.source_snapshot == source_snapshot,
            r.evidence_refs@ == current_summary.evidence_refs@,
            r.change_reason_ref == (RoleCapabilityChangeReasonRef {
                reason_kind: RoleCapabilityChangeReasonKind::SourceChanged,
                source_ref: source_change_reason_source(*current_summary),
            }),
            r.actor_ref.actor_id@ == "role-capability-source-change"@,
            r.actor_ref.actor_kind == ActorKind::System,
            r.operation_channel == operation_channel,
            r.change_material_marker == change_material_marker,
    {
        let reason_source = match &current_summary.role_source_ref {
            Some(role_source_ref) => role_source_ref.canonical_source().source_ref.clone(),
            None => current_summary.safe_summary_ref.source_ref.source_ref.clone(),
        };
        let evidence_refs = current_summary.evidence_refs.clone();
        proof {
            assert(evidence_refs@ =~= current_summary.evidence_refs@);
        }
        RoleCapabilitySourcePolicy {
            member_ref: current_summary.member_ref.clone(),
            source_snapshot,
            evidence_refs,
            change_reason_ref: RoleCapabilityChangeReasonRef {
                reason_kind: RoleCapabilityChangeReasonKind::SourceChanged,
                source_ref: reason_source,
            },
            actor_ref: ActorRef::system("role-capability-source-change"),
            operation_channel,
            change_material_marker,
        }
    }

    /// Asserts that the member dependency exists in the loaded application context.
    pub fn assert_member_exists(&self, member_exists: bool) -> (r: Result<(), IdentityDomainError>)
        ensures
            r is Ok <==> member_exists,
            r matches Err(e) ==> e == (IdentityDomainError::PolicyDenied {
                policy: "RoleCapabilitySourcePolicy",
                message: "role capability summary requires an established member",
            }),
    {
        if member_exists {
            return Ok(());
        }
        Err(IdentityDomainError::policy_denied("RoleCapabilitySourcePolicy", "role capability summary requires an established member"))
    }

    /// Asserts that the snapshot carries a safe summary or evidence was supplied.
    pub fn assert_source_or_evidence_present(&self) -> (r: Result<(), IdentityDomainError>)
        ensures
            r is Ok <==> (self.source_snapshot.safe_summary_ref is Some || self.evidence_refs@.len() > 0),
            r matches Err(e) ==> e == (IdentityDomainError::PolicyDenied {
                policy: "RoleCapabilitySourcePolicy",
                message: "role capability update requires source material or evidence",
            }),
    {
        if self.source_snapshot.safe_summary_ref.is_some() || !self.evidence_refs.is_empty() {
            return Ok(());
        }
        Err(IdentityDomainError::policy_denied("RoleCapabilitySourcePolicy", "role capability update requires source material or evidence"))
    }

    /// Asserts that the source snapshot is usable for active writes.
    pub fn assert_source_usable(&self) -> (r: Result<(), IdentityDomainError>)
        ensures
            r is Ok <==> snapshot_usable(self.source_snapshot),
            r matches Err(e) ==> e == (IdentityDomainError::PolicyDenied {
                policy: "RoleCapabilitySourcePolicy",
                message: "only resolved source snapshots may drive active summary writes",
            }),
    {
        if self.source_snapshot.is_usable_for_summary() {
            return Ok(());
        }
        Err(IdentityDomainError::policy_denied("RoleCapabilitySourcePolicy", "only resolved source snapshots may drive active summary writes"))
    }

    /// Rejects forbidden body material.
    pub fn assert_no_forbidden_body(&self) -> (r: Result<(), IdentityDomainError>)
        ensures
            r is Ok <==> !role_material_forbidden(self.change_material_marker.material_kind),
            r matches Err(e) ==> e == (IdentityDomainError::PolicyDenied {
                policy: "RoleCapabilitySourcePolicy",
                message: "forbidden source, method, or evidence body cannot enter identity truth",
            }),
    {
        if !self.change_material_marker.is_forbidden() {
            return Ok(());
        }
        Err(IdentityDomainError::policy_denied(
            "RoleCapabilitySourcePolicy",
            "forbidden source, method, or evidence body cannot enter identity truth",
        ))
    }

    /// Rejects automatic scoring or performance inference payloads.
    pub fn assert_not_automatic_scoring(&self) -> (r: Result<(), IdentityDomainError>)
        ensures
            r is Ok <==> self.change_material_marker.material_kind != RoleCapabilityChangeMaterialKind::ForbiddenAutomaticScoring,
            r matches Err(e) ==> e == (IdentityDomainError::PolicyDenied {
                policy: "RoleCapabilitySourcePolicy",
                message: "automatic scoring or performance inference cannot enter identity truth",
            }),
    {
        if self.change_material_marker.material_kind != RoleCapabilityChangeMaterialKind::ForbiddenAutomaticScoring {
            return Ok(());
        }
        Err(IdentityDomainError::policy_denied(
            "RoleCapabilitySourcePolicy",
            "automatic scoring or performance inference cannot enter identity truth",
        ))
    }
}

/// Law: only a resolved snapshot with a safe summary and evidence can create an
/// active summary; unavailable, unrecognized, stale, and superseded snapshots
/// never can.
pub proof fn lemma_only_resolved_snapshots_drive_summaries(
    snapshot: RoleCapabilitySourceSnapshot,
    safe_summary_ref: RoleCapabilitySafeSummaryRef,
    evidence_refs: Seq<CapabilityEvidenceRef>,
)
    ensures
        summary_create_violation(snapshot, safe_summary_ref, evidence_refs) is None
            ==> snapshot.source_state == RoleCapabilitySourceStateKind::SourceResolved && evidence_refs.len() > 0,
        snapshot.source_state != RoleCapabilitySourceStateKind::SourceResolved
            ==> summary_create_violation(snapshot, safe_summary_ref, evidence_refs) is Some,
{
}

/// Law: a superseded snapshot no longer drives active writes, and automatic
/// scoring material is always refused as a forbidden body.
pub proof fn lemma_superseded_and_scoring_refused(snapshot: RoleCapabilitySourceSnapshot, kind: RoleCapabilityChangeMaterialKind)
    ensures
        snapshot.source_state == RoleCapabilitySourceStateKind::SourceSuperseded ==> !snapshot_usable(snapshot),
        kind == RoleCapabilityChangeMaterialKind::ForbiddenAutomaticScoring ==> role_material_forbidden(kind),
{
}

} // verus!
