//! Public read-model and visibility support shells.
use vstd::prelude::*;

use crate::actor::ActorRef;
use crate::contracts::errors::ContractError;
use crate::contracts::metadata::IdentityDegradedKind;
use crate::contracts::refs::CareerRecordStateKind as PublicCareerRecordStateKind;
use crate::contracts::refs::MemoryReferenceStateKind as PublicMemoryReferenceStateKind;
use crate::contracts::refs::OutboxStateKind as PublicOutboxStateKind;
use crate::contracts::refs::ProjectionStateKind as PublicProjectionStateKind;
use crate::contracts::refs::ReconciliationReportStateKind as PublicReconciliationReportStateKind;
use crate::contracts::receipts::{MaintenanceIssueRef, TraceHandoffIntentRef};
use crate::contracts::refs::HandoffStateKind as PublicHandoffStateKind;
use crate::contracts::refs::ReferenceResolutionStateKind as PublicReferenceResolutionStateKind;
use crate::contracts::refs::{
    ExternalReferenceRef, ExternalReferenceSafeSummaryRef, ExternalSourceVersionRef, IdentityReferenceOwnerRef,
    ReferenceResolutionStateRef,
};
use crate::contracts::refs::{
    HandoffAttemptRef, HandoffIssueRef, HandoffReceiptRef, HandoffScopeRef, HandoffTargetRef, TraceHandoffSafeMaterialRef,
};
use crate::contracts::refs::GlobalLifecycleStateKind as PublicLifecycleStateKind;
use crate::contracts::refs::IdentityAnchorStateKind as PublicAnchorStateKind;
use crate::contracts::refs::RoleCapabilitySourceStateKind as PublicRoleCapabilitySourceStateKind;
use crate::contracts::refs::RoleCapabilitySummaryStateKind as PublicRoleCapabilitySummaryStateKind;
use crate::contracts::refs::{
    AuditScopeRef, AuditTrailRef, CapabilityEvidenceRef, CapabilitySourceRef, IdentityAnchorReasonRef,
    LifecycleReasonRef, RoleCapabilitySafeSummaryRef, RoleCapabilitySourceSnapshotRef, RoleCapabilitySummaryRef,
    RoleSourceRef,
};
use crate::contracts::refs::{
    IdentityMaintenanceTargetRef, IdentityProjectionCursorRef, IdentityProjectionRef, MaintenanceScopeRef,
    ProjectionStateRef, ReconciliationFindingRef, ReconciliationReportRef,
};
use crate::contracts::refs::{
    ArchiveHandoffRef, ArchiveRef, CareerAppendReasonRef, CareerRecordRef, CareerSafeSummaryRef,
    CareerSourceMarkerRef, GovernanceBasisRef, IdentityAuditSubjectRef, IdentityChangeKindRef,
    IdentityChangeReasonRef, IdentityOutboxPayloadMarkerRef, IdentityOutboxRecordRef,
    IdentityOutboxSubjectRef, IdentityTimestamp, IdentityTraceRecordRef, IdentityTraceSubjectRef,
    MemoryRef, MemoryReferenceReasonRef, MemoryReferenceRef, MemoryReferenceSourceRef,
    MemorySafeSummaryRef, OutboxDeliveryAttemptRef, OutboxDeliveryIssueRef, ProjectParticipationRef,
    TopicKeyRef, WorkSourceRef,
};
use crate::contracts::refs::{
    ConsumerRef, GlobalMemberRef, IdentityReadSubjectRef, IdentityReadSurfaceKind,
    IdentityDegradedMarkerRef, IdentityRedactionMarkerRef, IdentitySourceRef, IdentityTruthCursor,
    MemberSummaryViewRef, ProjectionFreshnessMarkerRef, RedactionProfileRef,
    VisibilityContextRef, VisibilityResultRef, VisibilityScopeRef,
};

verus! {

/// Body-free safe summary marker for a member anchor slice.
#[derive(Debug, Eq, Hash, PartialEq)]
pub struct MemberAnchorSafeSummaryRef {
    /// Opaque safe summary source marker.
    pub source_ref: IdentitySourceRef,
}

impl Clone for MemberAnchorSafeSummaryRef {
    fn clone(&self) -> (r: Self)
        ensures
            r == *self,
    {
        MemberAnchorSafeSummaryRef { source_ref: self.source_ref.clone() }
    }
}

impl MemberAnchorSafeSummaryRef {
    /// Creates a new anchor safe summary marker.
    pub fn new(source_ref: IdentitySourceRef) -> (r: Self)
        ensures
            r == (MemberAnchorSafeSummaryRef { source_ref }),
    {
        MemberAnchorSafeSummaryRef { source_ref }
    }
}

/// Body-free safe summary marker for a lifecycle slice.
#[derive(Debug, Eq, Hash, PartialEq)]
pub struct LifecycleSafeSummaryRef {
    /// Opaque safe summary source marker.
    pub source_ref: IdentitySourceRef,
}

impl Clone for LifecycleSafeSummaryRef {
    fn clone(&self) -> (r: Self)
        ensures
            r == *self,
    {
        LifecycleSafeSummaryRef { source_ref: self.source_ref.clone() }
    }
}

impl LifecycleSafeSummaryRef {
    /// Creates a new lifecycle safe summary marker.
    pub fn new(source_ref: IdentitySourceRef) -> (r: Self)
        ensures
            r == (LifecycleSafeSummaryRef { source_ref }),
    {
        LifecycleSafeSummaryRef { source_ref }
    }
}

/// Slice category inside a member summary view.
#[derive(Clone, Copy, Debug, Eq, Hash, PartialEq, Structural)]
pub enum MemberSummarySliceKind {
    /// Member anchor slice.
    Anchor,
    /// Lifecycle slice.
    Lifecycle,
    /// Role capability slice.
    RoleCapability,
    /// Career slice.
    Career,
    /// Memory reference slice.
    MemoryReference,
}

/// Body-free reference to one slice of a member summary view.
#[derive(Debug, Eq, Hash, PartialEq)]
pub struct MemberSummarySliceRef {
    /// Slice category.
    pub slice_kind: MemberSummarySliceKind,
    /// Member the slice belongs to.
    pub member_ref: GlobalMemberRef,
    /// Opaque safe summary source marker.
    pub safe_summary_source_ref: IdentitySourceRef,
}

impl Clone for MemberSummarySliceRef {
    fn clone(&self) -> (r: Self)
        ensures
            r == *self,
    {
        MemberSummarySliceRef { slice_kind: self.slice_kind.clone(), member_ref: self.member_ref.clone(), safe_summary_source_ref: self.safe_summary_source_ref.clone() }
    }
}

impl MemberSummarySliceRef {
    /// Creates a new member summary slice ref.
    pub fn new(slice_kind: MemberSummarySliceKind, member_ref: GlobalMemberRef, safe_summary_source_ref: IdentitySourceRef) -> (r: Self)
        ensures
            r == (MemberSummarySliceRef { slice_kind, member_ref, safe_summary_source_ref }),
    {
        MemberSummarySliceRef { slice_kind, member_ref, safe_summary_source_ref }
    }
}

/// Access state returned by the read visibility resolver.
#[derive(Clone, Copy, Debug, Eq, Hash, PartialEq, Structural)]
pub enum IdentityVisibilityAccessState {
    /// Material is visible.
    Visible,
    /// Material is visible with redaction.
    Redacted,
    /// Material is hidden.
    NotVisible,
    /// Visibility could only be resolved in degraded form.
    Degraded,
    /// Visibility dependency is unavailable.
    Unavailable,
}

/// Body-free read material category.
#[derive(Clone, Copy, Debug, Eq, Hash, PartialEq, Structural)]
pub enum IdentityReadMaterialKind {
    /// Safe summary refs only.
    SafeSummaryRefs,
    /// Trace refs only.
    TraceRefsOnly,
    /// Audit refs only.
    AuditRefsOnly,
    /// Redacted safe material.
    RedactedSafeMaterial,
    /// Forbidden external body.
    ForbiddenExternalBody,
    /// Forbidden raw diagnostic.
    ForbiddenRawDiagnostic,
    /// Forbidden secret.
    ForbiddenSecret,
}

/// Read material marker used to keep read surfaces body-free.
#[derive(Debug, Eq, Hash, PartialEq)]
pub struct IdentityReadMaterialMarker {
    /// Material category.
    pub material_kind: IdentityReadMaterialKind,
    /// Optional source marker.
    pub source_ref: Option<IdentitySourceRef>,
}

impl Clone for IdentityReadMaterialMarker {
    fn clone(&self) -> (r: Self)
        ensures
            r == *self,
    {
        IdentityReadMaterialMarker { material_kind: self.material_kind.clone(), source_ref: self.source_ref.clone() }
    }
}

/// Whether a read material category is body-free.
pub open spec fn read_material_body_free(kind: IdentityReadMaterialKind) -> bool {
    ||| kind == IdentityReadMaterialKind::SafeSummaryRefs
    ||| kind == IdentityReadMaterialKind::TraceRefsOnly
    ||| kind == IdentityReadMaterialKind::AuditRefsOnly
    ||| kind == IdentityReadMaterialKind::RedactedSafeMaterial
}

impl IdentityReadMaterialMarker {
    /// Creates a new read material marker.
    pub fn new(material_kind: IdentityReadMaterialKind, source_ref: Option<IdentitySourceRef>) -> (r: Self)
        ensures
            r == (IdentityReadMaterialMarker { material_kind, source_ref }),
    {
        IdentityReadMaterialMarker { material_kind, source_ref }
    }

    /// Returns whether the material is body-free.
    pub fn is_body_free(&self) -> (r: bool)
        ensures
            r == read_material_body_free(self.material_kind),
    {
        matches!(self.material_kind, IdentityReadMaterialKind::SafeSummaryRefs | IdentityReadMaterialKind::TraceRefsOnly | IdentityReadMaterialKind::AuditRefsOnly | IdentityReadMaterialKind::RedactedSafeMaterial)
    }
}

/// Visibility-first access summary produced for a read request.
#[derive(Debug, Eq, PartialEq)]
pub struct IdentityVisibilityAccessSummary {
    /// Canonical read subject.
    pub read_subject_ref: IdentityReadSubjectRef,
    /// Read consumer.
    pub consumer_ref: ConsumerRef,
    /// Optional read actor.
    pub actor_ref: Option<ActorRef>,
    /// Visibility context marker.
    pub visibility_context_ref: VisibilityContextRef,
    /// Resolved visibility scope.
    pub scope_ref: VisibilityScopeRef,
    /// Resolved access state.
    pub access_state: IdentityVisibilityAccessState,
    /// Optional redaction profile.
    pub redaction_profile_ref: Option<RedactionProfileRef>,
    /// Formal redaction marker carried by a redacted access.
    pub redaction_marker_ref: Option<IdentityRedactionMarkerRef>,
    /// Visibility result marker.
    pub visibility_result_ref: VisibilityResultRef,
    /// Formal degraded marker carried by a degraded access.
    pub degraded_marker_ref: Option<IdentityDegradedMarkerRef>,
    /// Formal degraded kind carried by a degraded access.
    pub degraded_kind: Option<IdentityDegradedKind>,
}

impl Clone for IdentityVisibilityAccessSummary {
    fn clone(&self) -> (r: Self)
        ensures
            r == *self,
    {
        IdentityVisibilityAccessSummary { read_subject_ref: self.read_subject_ref.clone(), consumer_ref: self.consumer_ref.clone(), actor_ref: self.actor_ref.clone(), visibility_context_ref: self.visibility_context_ref.clone(), scope_ref: self.scope_ref.clone(), access_state: self.access_state.clone(), redaction_profile_ref: self.redaction_profile_ref.clone(), redaction_marker_ref: self.redaction_marker_ref.clone(), visibility_result_ref: self.visibility_result_ref.clone(), degraded_marker_ref: self.degraded_marker_ref.clone(), degraded_kind: self.degraded_kind }
    }
}

/// Stable body-free member summary read model.
#[derive(Debug, Eq, PartialEq)]
pub struct MemberSummaryView {
    /// Stable view identity.
    pub view_ref: MemberSummaryViewRef,
    /// Member the view describes.
    pub member_ref: GlobalMemberRef,
    /// Visibility scope of the view.
    pub visibility_scope_ref: VisibilityScopeRef,
    /// Anchor slice.
    pub anchor_slice_ref: MemberSummarySliceRef,
    /// Lifecycle slice.
    pub lifecycle_slice_ref: MemberSummarySliceRef,
    /// Role capability slices.
    pub role_capability_slice_refs: Vec<MemberSummarySliceRef>,
    /// Career slices.
    pub career_slice_refs: Vec<MemberSummarySliceRef>,
    /// Memory reference slices.
    pub memory_slice_refs: Vec<MemberSummarySliceRef>,
    /// Visibility result marker.
    pub visibility_result_ref: VisibilityResultRef,
    /// Read surface kind of the view.
    pub read_surface_kind: IdentityReadSurfaceKind,
    /// Truth cursor the view was built from.
    pub source_cursor_ref: Option<IdentityTruthCursor>,
    /// Freshness marker of the projection the view was read from.
    pub projection_freshness_ref: Option<ProjectionFreshnessMarkerRef>,
    /// Read material marker.
    pub read_material_marker: IdentityReadMaterialMarker,
}

impl Clone for MemberSummaryView {
    fn clone(&self) -> (r: Self)
        ensures
            r.view_ref == self.view_ref,
            r.member_ref == self.member_ref,
            r.visibility_scope_ref == self.visibility_scope_ref,
            r.anchor_slice_ref == self.anchor_slice_ref,
            r.lifecycle_slice_ref == self.lifecycle_slice_ref,
            r.role_capability_slice_refs@ == self.role_capability_slice_refs@,
            r.career_slice_refs@ == self.career_slice_refs@,
            r.memory_slice_refs@ == self.memory_slice_refs@,
            r.visibility_result_ref == self.visibility_result_ref,
            r.read_surface_kind == self.read_surface_kind,
            r.source_cursor_ref == self.source_cursor_ref,
            r.projection_freshness_ref == self.projection_freshness_ref,
            r.read_material_marker == self.read_material_marker,
    {
        let role_capability_slice_refs = self.role_capability_slice_refs.clone();
        proof {
            assert(role_capability_slice_refs@ =~= self.role_capability_slice_refs@);
        }
        let career_slice_refs = self.career_slice_refs.clone();
        proof {
            assert(career_slice_refs@ =~= self.career_slice_refs@);
        }
        let memory_slice_refs = self.memory_slice_refs.clone();
        proof {
            assert(memory_slice_refs@ =~= self.memory_slice_refs@);
        }
        MemberSummaryView { view_ref: self.view_ref.clone(), member_ref: self.member_ref.clone(), visibility_scope_ref: self.visibility_scope_ref.clone(), anchor_slice_ref: self.anchor_slice_ref.clone(), lifecycle_slice_ref: self.lifecycle_slice_ref.clone(), role_capability_slice_refs, career_slice_refs, memory_slice_refs, visibility_result_ref: self.visibility_result_ref.clone(), read_surface_kind: self.read_surface_kind.clone(), source_cursor_ref: self.source_cursor_ref.clone(), projection_freshness_ref: self.projection_freshness_ref.clone(), read_material_marker: self.read_material_marker.clone() }
    }
}

impl MemberSummaryView {
    /// Builds a view from projection material; the anchor and lifecycle slices must
    /// belong to the viewed member. A built view reads as found.
    pub fn from_projection(
        view_ref: MemberSummaryViewRef,
        member_ref: GlobalMemberRef,
        visibility_scope_ref: VisibilityScopeRef,
        anchor_slice_ref: MemberSummarySliceRef,
        lifecycle_slice_ref: MemberSummarySliceRef,
        role_capability_slice_refs: Vec<MemberSummarySliceRef>,
        career_slice_refs: Vec<MemberSummarySliceRef>,
        memory_slice_refs: Vec<MemberSummarySliceRef>,
        visibility_result_ref: VisibilityResultRef,
        source_cursor_ref: Option<IdentityTruthCursor>,
        read_material_marker: IdentityReadMaterialMarker,
    ) -> (r: Result<Self, ContractError>)
        ensures
            r is Ok <==> (anchor_slice_ref.member_ref.member_id@ == member_ref.member_id@
                && lifecycle_slice_ref.member_ref.member_id@ == member_ref.member_id@),
            r matches Ok(v) ==> v == (MemberSummaryView {
                view_ref,
                member_ref,
                visibility_scope_ref,
                anchor_slice_ref,
                lifecycle_slice_ref,
                role_capability_slice_refs,
                career_slice_refs,
                memory_slice_refs,
                visibility_result_ref,
                read_surface_kind: IdentityReadSurfaceKind::Found,
                source_cursor_ref,
                projection_freshness_ref: None,
                read_material_marker,
            }),
            r matches Err(e) ==> e.field@ == "member_summary_view"@ && e.message@ == "anchor and lifecycle slices must belong to the same member"@,
    {
        if !anchor_slice_ref.member_ref.same_member(&member_ref) || !lifecycle_slice_ref.member_ref.same_member(&member_ref) {
            return Err(ContractError::invalid_value("member_summary_view", "anchor and lifecycle slices must belong to the same member"));
        }
        Ok(MemberSummaryView {
            view_ref,
            member_ref,
            visibility_scope_ref,
            anchor_slice_ref,
            lifecycle_slice_ref,
            role_capability_slice_refs,
            career_slice_refs,
            memory_slice_refs,
            visibility_result_ref,
            read_surface_kind: IdentityReadSurfaceKind::Found,
            source_cursor_ref,
            projection_freshness_ref: None,
            read_material_marker,
        })
    }

    /// Returns whether the view belongs to the member.
    pub fn belongs_to(&self, member_ref: &GlobalMemberRef) -> (r: bool)
        ensures
            r == (self.member_ref.member_id@ == member_ref.member_id@),
    {
        self.member_ref.same_member(member_ref)
    }

    /// Returns whether the view was built for the visibility scope.
    pub fn matches_visibility_scope(&self, visibility_scope_ref: &VisibilityScopeRef) -> (r: bool)
        ensures
            r == (self.visibility_scope_ref@ == visibility_scope_ref@),
    {
        self.visibility_scope_ref == *visibility_scope_ref
    }

    /// Returns whether the anchor and lifecycle slices belong to the viewed member.
    pub fn has_required_slices(&self) -> (r: bool)
        ensures
            r == (self.anchor_slice_ref.member_ref.member_id@ == self.member_ref.member_id@
                && self.lifecycle_slice_ref.member_ref.member_id@ == self.member_ref.member_id@),
    {
        self.anchor_slice_ref.member_ref.same_member(&self.member_ref) && self.lifecycle_slice_ref.member_ref.same_member(&self.member_ref)
    }

    /// Returns whether the view may be shown.
    pub fn is_visible(&self) -> (r: bool)
        ensures
            r == (self.read_surface_kind == IdentityReadSurfaceKind::Found || self.read_surface_kind == IdentityReadSurfaceKind::Redacted || self.read_surface_kind == IdentityReadSurfaceKind::Stale),
    {
        matches!(self.read_surface_kind, IdentityReadSurfaceKind::Found | IdentityReadSurfaceKind::Redacted | IdentityReadSurfaceKind::Stale)
    }

    /// Returns whether the view is stale or degraded.
    pub fn is_stale_or_degraded(&self) -> (r: bool)
        ensures
            r == (self.read_surface_kind == IdentityReadSurfaceKind::Stale || self.read_surface_kind == IdentityReadSurfaceKind::Degraded),
    {
        matches!(self.read_surface_kind, IdentityReadSurfaceKind::Stale | IdentityReadSurfaceKind::Degraded)
    }

    /// Asserts that the view carries only body-free material.
    pub fn assert_body_free(&self) -> (r: Result<(), ContractError>)
        ensures
            r is Ok <==> read_material_body_free(self.read_material_marker.material_kind),
            r matches Err(e) ==> e.field@ == "read_material_marker"@ && e.message@ == "member summary view must remain body-free"@,
    {
        if self.read_material_marker.is_body_free() {
            return Ok(());
        }
        Err(ContractError::invalid_value("read_material_marker", "member summary view must remain body-free"))
    }
}

/// Public career record read model; a redacted read hides its source and
/// append material.
#[derive(Debug, Eq, PartialEq)]
pub struct CareerRecordView {
    /// Career record identity.
    pub career_record_ref: CareerRecordRef,
    /// Member the record belongs to.
    pub member_ref: GlobalMemberRef,
    /// Public record state.
    pub record_state_kind: PublicCareerRecordStateKind,
    /// Project participation, hidden when redacted.
    pub project_participation_ref: Option<ProjectParticipationRef>,
    /// Work source, hidden when redacted.
    pub work_source_ref: Option<WorkSourceRef>,
    /// Career source marker, hidden when redacted.
    pub source_marker_ref: Option<CareerSourceMarkerRef>,
    /// Career safe summary, hidden when redacted.
    pub career_summary_ref: Option<CareerSafeSummaryRef>,
    /// Append reason, hidden when redacted.
    pub append_reason_ref: Option<CareerAppendReasonRef>,
    /// Append time, hidden when redacted.
    pub appended_at: Option<IdentityTimestamp>,
    /// Record this one corrects.
    pub correction_of_ref: Option<CareerRecordRef>,
    /// Record that supersedes this one.
    pub superseded_by_ref: Option<CareerRecordRef>,
}

/// Public memory reference read model; a redacted read hides its carriers,
/// source, summary, and change material.
#[derive(Debug, Eq, PartialEq)]
pub struct MemoryReferenceView {
    /// Memory reference identity.
    pub memory_reference_ref: MemoryReferenceRef,
    /// Member the reference belongs to.
    pub member_ref: GlobalMemberRef,
    /// Public reference state.
    pub reference_state_kind: PublicMemoryReferenceStateKind,
    /// Memory carrier, hidden when redacted.
    pub memory_ref: Option<MemoryRef>,
    /// Archive carrier, hidden when redacted.
    pub archive_ref: Option<ArchiveRef>,
    /// Archive handoff, hidden when redacted.
    pub archive_handoff_ref: Option<ArchiveHandoffRef>,
    /// Reference source, hidden when redacted.
    pub source_ref: Option<MemoryReferenceSourceRef>,
    /// Memory safe summary, hidden when redacted.
    pub safe_summary_ref: Option<MemorySafeSummaryRef>,
    /// Change reason, hidden when redacted.
    pub reason_ref: Option<MemoryReferenceReasonRef>,
    /// Change time, hidden when redacted.
    pub changed_at: Option<IdentityTimestamp>,
}

/// Public trace record read model; a redacted read hides its reason, source,
/// basis, and actor.
#[derive(Debug, Eq, PartialEq)]
pub struct IdentityTraceRecordView {
    /// Trace record identity.
    pub trace_record_ref: IdentityTraceRecordRef,
    /// Member the trace belongs to.
    pub member_ref: GlobalMemberRef,
    /// Trace subject.
    pub subject_ref: IdentityTraceSubjectRef,
    /// Audit subject.
    pub audit_subject_ref: IdentityAuditSubjectRef,
    /// Change kind.
    pub change_kind_ref: IdentityChangeKindRef,
    /// Truth cursor of the change.
    pub source_cursor_ref: IdentityTruthCursor,
    /// Change reason, hidden when redacted.
    pub reason_ref: Option<IdentityChangeReasonRef>,
    /// Change source, hidden when redacted.
    pub source_ref: Option<IdentitySourceRef>,
    /// Governance basis, hidden when redacted.
    pub basis_ref: Option<GovernanceBasisRef>,
    /// Acting actor, hidden when redacted.
    pub actor_ref: Option<ActorRef>,
    /// Visibility result of the read.
    pub visibility_result_ref: VisibilityResultRef,
    /// Trace that supersedes this one.
    pub superseded_by_trace_ref: Option<IdentityTraceRecordRef>,
    /// Read material marker.
    pub read_material_marker: IdentityReadMaterialMarker,
    /// Time of the change.
    pub occurred_at: IdentityTimestamp,
}

/// Public outbox record read model.
#[derive(Debug, Eq, PartialEq)]
pub struct IdentityOutboxRecordView {
    /// Outbox record identity.
    pub outbox_record_ref: IdentityOutboxRecordRef,
    /// Member the record belongs to.
    pub member_ref: GlobalMemberRef,
    /// Outbox subject.
    pub subject_ref: IdentityOutboxSubjectRef,
    /// Change kind.
    pub change_kind_ref: IdentityChangeKindRef,
    /// Payload marker.
    pub payload_marker_ref: IdentityOutboxPayloadMarkerRef,
    /// Topic key.
    pub topic_key_ref: TopicKeyRef,
    /// Trace record the change was traced by.
    pub trace_record_ref: IdentityTraceRecordRef,
    /// Public outbox state.
    pub outbox_state_kind: PublicOutboxStateKind,
    /// Delivery attempt.
    pub attempt_ref: Option<OutboxDeliveryAttemptRef>,
    /// Delivery issue.
    pub issue_ref: Option<OutboxDeliveryIssueRef>,
    /// Creation time.
    pub created_at: IdentityTimestamp,
    /// Last update time.
    pub updated_at: IdentityTimestamp,
    /// Visibility result of the read.
    pub visibility_result_ref: VisibilityResultRef,
}

/// Public projection state read model.
#[derive(Debug, Eq, PartialEq)]
pub struct ProjectionStateView {
    /// Projection state identity.
    pub projection_state_ref: Option<ProjectionStateRef>,
    /// Projection described.
    pub projection_ref: IdentityProjectionRef,
    /// Member the projection belongs to.
    pub member_ref: Option<GlobalMemberRef>,
    /// Public projection state.
    pub state_kind: Option<PublicProjectionStateKind>,
    /// Source cursor of the projection.
    pub source_cursor_ref: Option<IdentityProjectionCursorRef>,
    /// Maintenance scope.
    pub maintenance_scope_ref: Option<MaintenanceScopeRef>,
    /// Maintenance issue.
    pub issue_ref: Option<MaintenanceIssueRef>,
    /// Time the state was checked.
    pub checked_at: Option<IdentityTimestamp>,
    /// Visibility result of the read.
    pub visibility_result_ref: VisibilityResultRef,
}

/// Public reconciliation report read model.
#[derive(Debug, Eq, PartialEq)]
pub struct ReconciliationReportView {
    /// Report identity.
    pub report_ref: ReconciliationReportRef,
    /// Maintenance scope reported on.
    pub maintenance_scope_ref: MaintenanceScopeRef,
    /// Maintenance targets.
    pub target_refs: Vec<IdentityMaintenanceTargetRef>,
    /// Findings.
    pub finding_refs: Vec<ReconciliationFindingRef>,
    /// Maintenance issues.
    pub issue_refs: Vec<MaintenanceIssueRef>,
    /// Public report state.
    pub report_state: PublicReconciliationReportStateKind,
    /// Actor that generated the report.
    pub generated_by_ref: Option<ActorRef>,
    /// Generation time.
    pub generated_at: IdentityTimestamp,
    /// Visibility result of the read.
    pub visibility_result_ref: VisibilityResultRef,
}

/// Public member anchor read model.
#[derive(Debug, Eq, PartialEq)]
pub struct GlobalMemberAnchorView {
    /// Member.
    pub member_ref: GlobalMemberRef,
    /// Public anchor state.
    pub anchor_state_kind: PublicAnchorStateKind,
    /// Anchor reason.
    pub anchor_reason_ref: Option<IdentityAnchorReasonRef>,
    /// Time of the last anchor change.
    pub anchor_changed_at: IdentityTimestamp,
    /// Establishing source, hidden when redacted.
    pub source_ref: Option<IdentitySourceRef>,
    /// Member summary view the read was joined with.
    pub member_summary_view_ref: Option<MemberSummaryViewRef>,
    /// Anchor slice of that view.
    pub anchor_slice_ref: Option<MemberSummarySliceRef>,
}

/// Public member lifecycle read model.
#[derive(Debug, Eq, PartialEq)]
pub struct GlobalLifecycleSummaryView {
    /// Member.
    pub member_ref: GlobalMemberRef,
    /// Public lifecycle state.
    pub lifecycle_state_kind: PublicLifecycleStateKind,
    /// Lifecycle reason, hidden when redacted.
    pub reason_ref: Option<LifecycleReasonRef>,
    /// Governance basis, hidden when redacted.
    pub basis_ref: Option<GovernanceBasisRef>,
    /// Changing actor, hidden when redacted.
    pub changed_by_ref: Option<ActorRef>,
    /// Time of the last lifecycle change.
    pub changed_at: IdentityTimestamp,
    /// Member summary view the read was joined with.
    pub member_summary_view_ref: Option<MemberSummaryViewRef>,
    /// Lifecycle slice of that view.
    pub lifecycle_slice_ref: Option<MemberSummarySliceRef>,
}

/// Public role and capability summary read model.
#[derive(Debug, Eq, PartialEq)]
pub struct RoleCapabilitySummaryView {
    /// Member.
    pub member_ref: GlobalMemberRef,
    /// Summary identity.
    pub summary_ref: RoleCapabilitySummaryRef,
    /// Public summary state.
    pub summary_state_kind: PublicRoleCapabilitySummaryStateKind,
    /// Source snapshot the summary was built from.
    pub source_snapshot_ref: RoleCapabilitySourceSnapshotRef,
    /// Public state of that snapshot.
    pub source_state_kind: Option<PublicRoleCapabilitySourceStateKind>,
    /// Role source, hidden when redacted.
    pub role_source_ref: Option<RoleSourceRef>,
    /// Capability sources, empty when redacted.
    pub capability_source_refs: Vec<CapabilitySourceRef>,
    /// Capability evidence, empty when redacted.
    pub evidence_refs: Vec<CapabilityEvidenceRef>,
    /// Safe summary, hidden when redacted.
    pub safe_summary_ref: Option<RoleCapabilitySafeSummaryRef>,
    /// Member summary view the read was joined with.
    pub member_summary_view_ref: Option<MemberSummaryViewRef>,
    /// Role capability slices of that view.
    pub role_capability_slice_refs: Vec<MemberSummarySliceRef>,
}

/// Public audit trail entry read model.
#[derive(Debug, Eq, PartialEq)]
pub struct AuditTrailEntryView {
    /// Audit trail.
    pub audit_trail_ref: AuditTrailRef,
    /// Audit subject of the trail.
    pub audit_subject_ref: IdentityAuditSubjectRef,
    /// Audit scope read.
    pub audit_scope_ref: AuditScopeRef,
    /// Member read.
    pub member_ref: Option<GlobalMemberRef>,
    /// Trace record of the entry.
    pub trace_record_ref: IdentityTraceRecordRef,
    /// Change kind of the entry.
    pub change_kind_ref: IdentityChangeKindRef,
    /// Visibility result of the entry.
    pub visibility_result_ref: VisibilityResultRef,
    /// Time of the change.
    pub occurred_at: IdentityTimestamp,
}

/// Public outbox delivery state read model.
#[derive(Debug, Eq, PartialEq)]
pub struct IdentityOutboxStateView {
    /// Outbox record identity.
    pub outbox_record_ref: IdentityOutboxRecordRef,
    /// Outbox subject.
    pub subject_ref: IdentityOutboxSubjectRef,
    /// Topic key.
    pub topic_key_ref: TopicKeyRef,
    /// Trace record the change was traced by.
    pub trace_record_ref: IdentityTraceRecordRef,
    /// Public outbox state.
    pub outbox_state_kind: PublicOutboxStateKind,
    /// Delivery attempt.
    pub attempt_ref: Option<OutboxDeliveryAttemptRef>,
    /// Delivery issue.
    pub issue_ref: Option<OutboxDeliveryIssueRef>,
    /// Payload marker.
    pub payload_marker_ref: IdentityOutboxPayloadMarkerRef,
    /// Time of the last state change.
    pub changed_at: IdentityTimestamp,
    /// Visibility result of the read.
    pub visibility_result_ref: VisibilityResultRef,
}

/// Public trace handoff state read model.
#[derive(Debug, Eq, PartialEq)]
pub struct TraceHandoffStateView {
    /// Handoff intent identity.
    pub handoff_intent_ref: TraceHandoffIntentRef,
    /// Member handed off.
    pub member_ref: GlobalMemberRef,
    /// Trace records handed off.
    pub trace_record_refs: Vec<IdentityTraceRecordRef>,
    /// Audit trail handed off.
    pub audit_trail_ref: Option<AuditTrailRef>,
    /// Handoff target.
    pub handoff_target_ref: HandoffTargetRef,
    /// Handoff scope.
    pub handoff_scope_ref: HandoffScopeRef,
    /// Safe material handed off.
    pub safe_material_ref: TraceHandoffSafeMaterialRef,
    /// Public handoff state.
    pub handoff_state_kind: PublicHandoffStateKind,
    /// Delivery attempt.
    pub attempt_ref: Option<HandoffAttemptRef>,
    /// Delivery receipt.
    pub receipt_ref: Option<HandoffReceiptRef>,
    /// Delivery issue.
    pub issue_ref: Option<HandoffIssueRef>,
    /// Creation time.
    pub created_at: IdentityTimestamp,
    /// Last update time.
    pub updated_at: IdentityTimestamp,
    /// Time of the last state change.
    pub changed_at: IdentityTimestamp,
    /// Visibility result of the read.
    pub visibility_result_ref: VisibilityResultRef,
}

/// Public typed sidecar refs of a reference resolution state.
#[derive(Debug, Eq, PartialEq)]
pub struct ReferenceResolutionSidecarRefsView {
    /// Role capability safe summary.
    pub role_capability_safe_summary_ref: Option<ExternalReferenceSafeSummaryRef>,
    /// Career safe summary.
    pub career_safe_summary_ref: Option<ExternalReferenceSafeSummaryRef>,
    /// Memory safe summary.
    pub memory_safe_summary_ref: Option<ExternalReferenceSafeSummaryRef>,
    /// Governance basis summary.
    pub governance_basis_summary_ref: Option<ExternalReferenceSafeSummaryRef>,
    /// Evidence summary.
    pub evidence_summary_ref: Option<ExternalReferenceSafeSummaryRef>,
    /// Source version.
    pub source_version_ref: Option<ExternalSourceVersionRef>,
}

/// Public reference resolution state read model.
#[derive(Debug, Eq, PartialEq)]
pub struct ReferenceResolutionStateView {
    /// Resolution state identity.
    pub resolution_state_ref: Option<ReferenceResolutionStateRef>,
    /// External reference.
    pub external_reference_ref: ExternalReferenceRef,
    /// Local owner of the reference.
    pub owner_ref: Option<IdentityReferenceOwnerRef>,
    /// Public resolution state.
    pub state_kind: Option<PublicReferenceResolutionStateKind>,
    /// Source version.
    pub source_version_ref: Option<ExternalSourceVersionRef>,
    /// Safe summary.
    pub safe_summary_ref: Option<ExternalReferenceSafeSummaryRef>,
    /// Typed sidecar refs, absent when there are none.
    pub sidecar_refs: Option<ReferenceResolutionSidecarRefsView>,
    /// Maintenance issue.
    pub issue_ref: Option<MaintenanceIssueRef>,
    /// Time the state was checked.
    pub checked_at: Option<IdentityTimestamp>,
    /// Visibility result of the read.
    pub visibility_result_ref: VisibilityResultRef,
}


/// Read material may be served exactly when it carries no body: external
/// bodies, raw diagnostics, and secrets are never body-free, and every
/// refs-only or redacted safe material is.
pub proof fn lemma_read_material_refuses_only_bodies(kind: IdentityReadMaterialKind)
    ensures
        read_material_body_free(kind) <==> !(
            kind == IdentityReadMaterialKind::ForbiddenExternalBody
            || kind == IdentityReadMaterialKind::ForbiddenRawDiagnostic
            || kind == IdentityReadMaterialKind::ForbiddenSecret),
{
}

} // verus!
