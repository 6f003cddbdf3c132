//! Accepted trace material helpers.
use vstd::prelude::*;

use crate::actor::ActorRef;
use crate::contracts::refs::{
    GlobalMemberRef, GovernanceBasisRef, IdentityAuditSubjectRef, IdentityChangeKindRef,
    IdentityChangeReasonRef, IdentitySourceRef, IdentityTimestamp, IdentityTraceRecordRef,
    IdentityTraceSubjectRef, IdentityTruthCursor, VisibilityResultRef,
};
use crate::contracts::views::{read_material_body_free, IdentityReadMaterialMarker};
use crate::domain::errors::IdentityDomainError;

verus! {

/// Persistent append-only trace material for an accepted identity change.
#[derive(Debug, Eq, PartialEq)]
pub struct IdentityTraceRecord {
    /// Stable trace record ref.
    pub trace_record_ref: IdentityTraceRecordRef,
    /// Member associated with the change.
    pub member_ref: GlobalMemberRef,
    /// Canonical trace subject.
    pub subject_ref: IdentityTraceSubjectRef,
    /// Canonical audit subject.
    pub audit_subject_ref: IdentityAuditSubjectRef,
    /// Change kind marker.
    pub change_kind_ref: IdentityChangeKindRef,
    /// Committed truth cursor for the accepted change.
    pub source_cursor_ref: IdentityTruthCursor,
    /// Optional body-free reason marker.
    pub reason_ref: Option<IdentityChangeReasonRef>,
    /// Optional body-free source marker.
    pub source_ref: Option<IdentitySourceRef>,
    /// Optional governance basis marker.
    pub basis_ref: Option<GovernanceBasisRef>,
    /// Optional actor or controlled source.
    pub actor_ref: Option<ActorRef>,
    /// Visibility result for a read surface.
    pub visibility_result_ref: Option<VisibilityResultRef>,
    /// Optional correction trace that supersedes this record in interpretation.
    pub superseded_by_trace_ref: Option<IdentityTraceRecordRef>,
    /// Material marker used to prevent forbidden bodies.
    pub read_material_marker: IdentityReadMaterialMarker,
    /// Time the accepted change was recorded.
    pub occurred_at: IdentityTimestamp,
}

impl Clone for IdentityTraceRecord {
    fn clone(&self) -> (r: Self)
        ensures
            r == *self,
    {
        IdentityTraceRecord {
            trace_record_ref: self.trace_record_ref.clone(),
            member_ref: self.member_ref.clone(),
            subject_ref: self.subject_ref.clone(),
            audit_subject_ref: self.audit_subject_ref.clone(),
            change_kind_ref: self.change_kind_ref.clone(),
            source_cursor_ref: self.source_cursor_ref.clone(),
            reason_ref: self.reason_ref.clone(),
            source_ref: self.source_ref.clone(),
            basis_ref: self.basis_ref.clone(),
            actor_ref: self.actor_ref.clone(),
            visibility_result_ref: self.visibility_result_ref.clone(),
            superseded_by_trace_ref: self.superseded_by_trace_ref.clone(),
            read_material_marker: self.read_material_marker.clone(),
            occurred_at: self.occurred_at,
        }
    }
}

/// The rejection a trace with body material reports.
pub open spec fn trace_body_error() -> IdentityDomainError {
    IdentityDomainError::InvalidInput { field: "read_material_marker", message: "trace material must remain body-free" }
}

impl IdentityTraceRecord {
    /// Creates a new accepted trace record from formal accepted change material;
    /// the material must be body-free. The record has no visibility result and
    /// is not superseded.
    pub fn from_accepted_change(
        trace_record_ref: IdentityTraceRecordRef,
        member_ref: GlobalMemberRef,
        subject_ref: IdentityTraceSubjectRef,
        audit_subject_ref: IdentityAuditSubjectRef,
        change_kind_ref: IdentityChangeKindRef,
        source_cursor_ref: IdentityTruthCursor,
        reason_ref: Option<IdentityChangeReasonRef>,
        source_ref: Option<IdentitySourceRef>,
        basis_ref: Option<GovernanceBasisRef>,
        actor_ref: Option<ActorRef>,
        read_material_marker: IdentityReadMaterialMarker,
        occurred_at: IdentityTimestamp,
    ) -> (r: Result<Self, IdentityDomainError>)
        ensures
            r is Ok <==> read_material_body_free(read_material_marker.material_kind),
            r matches Err(e) ==> e == trace_body_error(),
            r matches Ok(v) ==> v == (IdentityTraceRecord {
                trace_record_ref,
                member_ref,
                subject_ref,
                audit_subject_ref,
                change_kind_ref,
                source_cursor_ref,
                reason_ref,
                source_ref,
                basis_ref,
                actor_ref,
                visibility_result_ref: None,
                superseded_by_trace_ref: None,
                read_material_marker,
                occurred_at,
            }),
    {
        if !read_material_marker.is_body_free() {
            return Err(IdentityDomainError::invalid_input("read_material_marker", "trace material must remain body-free"));
        }
        Ok(IdentityTraceRecord {
            trace_record_ref,
            member_ref,
            subject_ref,
            audit_subject_ref,
            change_kind_ref,
            source_cursor_ref,
            reason_ref,
            source_ref,
            basis_ref,
            actor_ref,
            visibility_result_ref: None,
            superseded_by_trace_ref: None,
            read_material_marker,
            occurred_at,
        })
    }

    /// Returns a copy of the trace carrying the visibility result of a read.
    pub fn redacted_read_surface(&self, visibility_result_ref: VisibilityResultRef) -> (r: Self)
        ensures
            r == (IdentityTraceRecord { visibility_result_ref: Some(visibility_result_ref), ..*self }),
    {
        let mut cloned = self.clone();
        cloned.visibility_result_ref = Some(visibility_result_ref);
        cloned
    }

    /// Marks the trace as superseded by a different correction trace. A refused
    /// mark leaves the trace unchanged.
    pub fn mark_superseded_by_correction(&mut self, correction_trace_ref: IdentityTraceRecordRef) -> (r: Result<(), IdentityDomainError>)
        ensures
            r is Ok <==> old(self).trace_record_ref@ != correction_trace_ref@,
            r is Ok ==> *final(self) == (IdentityTraceRecord { superseded_by_trace_ref: Some(correction_trace_ref), ..*old(self) }),
            r is Err ==> *final(self) == *old(self),
            r matches Err(e) ==> e == (IdentityDomainError::InvalidInput {
                field: "correction_trace_ref",
                message: "correction trace must differ from the original trace",
            }),
    {
        if self.trace_record_ref == correction_trace_ref {
            return Err(IdentityDomainError::invalid_input("correction_trace_ref", "correction trace must differ from the original trace"));
        }
        self.superseded_by_trace_ref = Some(correction_trace_ref);
        Ok(())
    }

    /// Returns whether the trace belongs to the provided member.
    pub fn belongs_to(&self, member_ref: &GlobalMemberRef) -> (r: bool)
        ensures
            r == (self.member_ref.member_id@ == member_ref.member_id@),
    {
        self.member_ref.same_member(member_ref)
    }

    /// Returns whether the trace matches the provided trace subject.
    pub fn matches_subject(&self, subject_ref: &IdentityTraceSubjectRef) -> (r: bool)
        ensures
            r == (self.subject_ref@ == subject_ref@),
    {
        self.subject_ref == *subject_ref
    }

    /// Returns whether the trace matches the provided audit subject.
    pub fn matches_audit_subject(&self, audit_subject_ref: &IdentityAuditSubjectRef) -> (r: bool)
        ensures
            r == (self.audit_subject_ref@ == audit_subject_ref@),
    {
        self.audit_subject_ref == *audit_subject_ref
    }

    /// Returns whether the trace has been superseded by a correction trace.
    pub fn is_superseded(&self) -> (r: bool)
        ensures
            r == self.superseded_by_trace_ref is Some,
    {
        self.superseded_by_trace_ref.is_some()
    }

    /// Asserts that the trace remains body-free.
    pub fn assert_body_free(&self) -> (r: Result<(), IdentityDomainError>)
        ensures
            r is Ok <==> read_material_body_free(self.read_material_marker.material_kind),
            r matches Err(e) ==> e == trace_body_error(),
    {
        if self.read_material_marker.is_body_free() {
            return Ok(());
        }
        Err(IdentityDomainError::invalid_input("read_material_marker", "trace material must remain body-free"))
    }
}

/// Law: accepted trace material stays body-free: a read surface of a
/// body-free trace changes only its visibility result, so it is body-free too
/// and keeps the trace's identity and correction link.
pub proof fn lemma_trace_read_surface_stays_body_free(trace: IdentityTraceRecord, visibility_result_ref: VisibilityResultRef)
    requires
        read_material_body_free(trace.read_material_marker.material_kind),
    ensures
        ({
            let surface = IdentityTraceRecord { visibility_result_ref: Some(visibility_result_ref), ..trace };
            &&& read_material_body_free(surface.read_material_marker.material_kind)
            &&& surface.trace_record_ref == trace.trace_record_ref
            &&& surface.superseded_by_trace_ref == trace.superseded_by_trace_ref
        }),
{
}

} // verus!
