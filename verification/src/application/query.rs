//! Read helpers shared by visibility-first query flows: disposition and
//! surface classification, public state kinds, paging shells, and redaction.
use vstd::prelude::*;

use crate::contracts::metadata::{IdentityDegradedKind, IdentityDegradedMarker, IdentityQueryDisposition, IdentityQuerySurface};
use crate::contracts::protocol::IdentityQueryName;
use crate::contracts::queries::{
    IdentityPageResponse, IdentityPublicPageCursor, IdentityPublicPageInfo, IdentityPublicPageRequest,
    IdentityQueryResponse,
};
use crate::contracts::refs::CareerRecordStateKind as PublicCareerRecordStateKind;
use crate::contracts::refs::GlobalLifecycleStateKind as PublicLifecycleStateKind;
use crate::contracts::refs::HandoffStateKind as PublicHandoffStateKind;
use crate::contracts::refs::IdentityAnchorStateKind as PublicAnchorStateKind;
use crate::contracts::refs::MemoryReferenceStateKind as PublicMemoryReferenceStateKind;
use crate::contracts::refs::OutboxStateKind as PublicOutboxStateKind;
use crate::contracts::refs::ProjectionStateKind as PublicProjectionStateKind;
use crate::contracts::refs::ReconciliationReportStateKind as PublicReconciliationReportStateKind;
use crate::contracts::refs::ReferenceResolutionStateKind as PublicReferenceResolutionStateKind;
use crate::contracts::refs::RoleCapabilitySourceStateKind as PublicRoleCapabilitySourceStateKind;
use crate::contracts::refs::RoleCapabilitySummaryStateKind as PublicRoleCapabilitySummaryStateKind;
use crate::contracts::refs::{IdentityReadSurfaceKind, ProjectionFreshnessMarkerRef};
use crate::contracts::views::{
    read_material_body_free, IdentityReadMaterialMarker, IdentityVisibilityAccessState, IdentityVisibilityAccessSummary,
    MemberSummaryView,
};
use crate::contracts::refs::{GlobalMemberRef, MemberSummaryViewRef};
use crate::contracts::views::{CareerRecordView, IdentityOutboxRecordView, IdentityTraceRecordView, MemoryReferenceView};
use crate::domain::career::CareerRecord;
use crate::domain::memory_reference::MemoryReference;
use crate::domain::outbox::IdentityOutboxRecord;
use crate::domain::trace::IdentityTraceRecord;
use crate::contracts::refs::{IdentityOutboxSubjectRef, IdentityTraceRecordRef, IdentityTraceSubjectRef, ProjectionStateRef, TopicKeyRef};
use crate::contracts::views::{ProjectionStateView, ReconciliationReportView};
use crate::domain::reconciliation::ReconciliationReport;
use crate::contracts::refs::{AuditScopeRef, IdentityAuditSubjectRef};
use crate::contracts::views::{AuditTrailEntryView, GlobalLifecycleSummaryView, GlobalMemberAnchorView, RoleCapabilitySummaryView};
use crate::domain::audit::{AuditTrail, AuditTrailEntry};
use crate::domain::lifecycle::GlobalLifecycleState;
use crate::domain::member_identity::GlobalMember;
use crate::domain::role_capability::{summary_needs_reconciliation, RoleCapabilitySummary};
use crate::contracts::views::{IdentityOutboxStateView, TraceHandoffStateView};
use crate::domain::handoff::TraceHandoffIntent;
use crate::contracts::refs::{
    same_source_spec, ExternalReferenceRef, ExternalReferenceSafeSummaryRef, ExternalSourceVersionRef, IdentityReferenceOwnerRef,
};
use crate::contracts::views::{ReferenceResolutionSidecarRefsView, ReferenceResolutionStateView};
use crate::domain::reference_state::ReferenceResolutionState;
use crate::contracts::refs::MaintenanceScopeRef;
use crate::contracts::queries::IdentityQueryRequest;
use crate::contracts::refs::IdentityOperationChannel;
use crate::application::support::IdentityOperationContext;
use vstd::string::StringExecFns;
use crate::contracts::metadata::IdentityVisibilityMarker;
use crate::contracts::refs::{
    IdentityDegradedMarkerRef, IdentityReadSubjectRef, IdentityTimestamp, IdentityVisibilityDecisionRef,
    VisibilityContextRef, VisibilityResultRef, VisibilityScopeRef,
};
use crate::application::errors::{ApplicationError, ApplicationErrorKind};
use crate::application::support::decision_of;
use crate::domain::career::CareerRecordStateKind;
use crate::domain::handoff::HandoffStateKind;
use crate::domain::lifecycle::GlobalLifecycleStateKind;
use crate::domain::member_identity::{IdentityAnchorState, IdentityAnchorStateKind};
use crate::domain::memory_reference::MemoryReferenceStateKind;
use crate::domain::outbox::OutboxStateKind;
use crate::domain::projection_state::{ProjectionState, ProjectionStateKind};
use crate::domain::reconciliation::ReconciliationReportStateKind;
use crate::domain::reference_state::ReferenceResolutionStateKind;
use crate::domain::role_capability::{RoleCapabilitySourceSnapshot, RoleCapabilitySourceStateKind, RoleCapabilitySummaryStateKind};
use crate::application::support::{
    IdentityReadDispositionKind, IdentityRepositoryCursor, IdentityRepositoryPage,
    IdentityVisibilityDecision, Page,
};

verus! {

/// The disposition of a member summary read: a visible access follows the
/// view's freshness (stale views read stale-visible, degraded views degrade),
/// a redacted access reads stale-visible on a stale or degraded view and
/// redacted otherwise, a hidden access is not visible, and a degraded or
/// unavailable access degrades.
pub open spec fn member_summary_disposition(access_state: IdentityVisibilityAccessState, view_kind: IdentityReadSurfaceKind) -> IdentityReadDispositionKind {
    match access_state {
        IdentityVisibilityAccessState::Visible => if view_kind == IdentityReadSurfaceKind::Stale {
            IdentityReadDispositionKind::StaleVisible
        } else if view_kind == IdentityReadSurfaceKind::Degraded {
            IdentityReadDispositionKind::Degraded
        } else {
            IdentityReadDispositionKind::Visible
        },
        IdentityVisibilityAccessState::Redacted => if view_kind == IdentityReadSurfaceKind::Stale || view_kind == IdentityReadSurfaceKind::Degraded {
            IdentityReadDispositionKind::StaleVisible
        } else {
            IdentityReadDispositionKind::Redacted
        },
        IdentityVisibilityAccessState::NotVisible => IdentityReadDispositionKind::NotVisible,
        IdentityVisibilityAccessState::Degraded => IdentityReadDispositionKind::Degraded,
        IdentityVisibilityAccessState::Unavailable => IdentityReadDispositionKind::Degraded,
    }
}

/// Classifies the stable disposition from the formal access summary and loaded view material.
pub fn classify_member_summary_disposition(access_summary: &IdentityVisibilityAccessSummary, view: &MemberSummaryView) -> (r: IdentityReadDispositionKind)
    ensures
        r == member_summary_disposition(access_summary.access_state, view.read_surface_kind),
{
    match access_summary.access_state {
        IdentityVisibilityAccessState::Visible => {
            if matches!(view.read_surface_kind, IdentityReadSurfaceKind::Stale) {
                IdentityReadDispositionKind::StaleVisible
            } else if matches!(view.read_surface_kind, IdentityReadSurfaceKind::Degraded) {
                IdentityReadDispositionKind::Degraded
            } else {
                IdentityReadDispositionKind::Visible
            }
        },
        IdentityVisibilityAccessState::Redacted => {
            if view.is_stale_or_degraded() {
                IdentityReadDispositionKind::StaleVisible
            } else {
                IdentityReadDispositionKind::Redacted
            }
        },
        IdentityVisibilityAccessState::NotVisible => IdentityReadDispositionKind::NotVisible,
        IdentityVisibilityAccessState::Degraded | IdentityVisibilityAccessState::Unavailable => IdentityReadDispositionKind::Degraded,
    }
}

/// Law: access decides first: a hidden access is never read as anything but
/// not visible, a degraded or unavailable access always degrades, and only a
/// visible access ever reads as fully visible.
pub proof fn lemma_member_summary_access_first(access_state: IdentityVisibilityAccessState, view_kind: IdentityReadSurfaceKind)
    ensures
        access_state == IdentityVisibilityAccessState::NotVisible
            ==> member_summary_disposition(access_state, view_kind) == IdentityReadDispositionKind::NotVisible,
        (access_state == IdentityVisibilityAccessState::Degraded || access_state == IdentityVisibilityAccessState::Unavailable)
            ==> member_summary_disposition(access_state, view_kind) == IdentityReadDispositionKind::Degraded,
        member_summary_disposition(access_state, view_kind) == IdentityReadDispositionKind::Visible
            ==> access_state == IdentityVisibilityAccessState::Visible,
        member_summary_disposition(access_state, view_kind) == IdentityReadDispositionKind::NotVisible
            ==> access_state == IdentityVisibilityAccessState::NotVisible,
{
}

/// The public read surface of a disposition: a visible read is found or
/// empty, every other disposition names itself.
pub open spec fn surface_kind_of(disposition: IdentityReadDispositionKind, found: bool) -> IdentityReadSurfaceKind {
    match disposition {
        IdentityReadDispositionKind::Visible => if found {
            IdentityReadSurfaceKind::Found
        } else {
            IdentityReadSurfaceKind::Empty
        },
        IdentityReadDispositionKind::Redacted => IdentityReadSurfaceKind::Redacted,
        IdentityReadDispositionKind::NotVisible => IdentityReadSurfaceKind::NotVisible,
        IdentityReadDispositionKind::Degraded => IdentityReadSurfaceKind::Degraded,
        IdentityReadDispositionKind::StaleVisible => IdentityReadSurfaceKind::Stale,
    }
}

/// Maps a read disposition and whether material was found to the public read surface.
pub fn map_surface_kind(disposition: IdentityReadDispositionKind, found: bool) -> (r: IdentityReadSurfaceKind)
    ensures
        r == surface_kind_of(disposition, found),
{
    match disposition {
        IdentityReadDispositionKind::Visible => {
            if found {
                IdentityReadSurfaceKind::Found
            } else {
                IdentityReadSurfaceKind::Empty
            }
        },
        IdentityReadDispositionKind::Redacted => IdentityReadSurfaceKind::Redacted,
        IdentityReadDispositionKind::NotVisible => IdentityReadSurfaceKind::NotVisible,
        IdentityReadDispositionKind::Degraded => IdentityReadSurfaceKind::Degraded,
        IdentityReadDispositionKind::StaleVisible => IdentityReadSurfaceKind::Stale,
    }
}

/// The public query disposition of a read disposition.
pub open spec fn query_disposition_of(disposition: IdentityReadDispositionKind) -> IdentityQueryDisposition {
    match disposition {
        IdentityReadDispositionKind::Visible => IdentityQueryDisposition::Visible,
        IdentityReadDispositionKind::Redacted => IdentityQueryDisposition::Redacted,
        IdentityReadDispositionKind::NotVisible => IdentityQueryDisposition::NotVisible,
        IdentityReadDispositionKind::Degraded => IdentityQueryDisposition::Degraded,
        IdentityReadDispositionKind::StaleVisible => IdentityQueryDisposition::StaleVisible,
    }
}

/// Maps a read disposition to the public query disposition.
pub fn map_query_disposition(disposition: IdentityReadDispositionKind) -> (r: IdentityQueryDisposition)
    ensures
        r == query_disposition_of(disposition),
{
    match disposition {
        IdentityReadDispositionKind::Visible => IdentityQueryDisposition::Visible,
        IdentityReadDispositionKind::Redacted => IdentityQueryDisposition::Redacted,
        IdentityReadDispositionKind::NotVisible => IdentityQueryDisposition::NotVisible,
        IdentityReadDispositionKind::Degraded => IdentityQueryDisposition::Degraded,
        IdentityReadDispositionKind::StaleVisible => IdentityQueryDisposition::StaleVisible,
    }
}

/// Law: the public surface never reports found or empty material for a read
/// that was not fully visible, and distinct dispositions stay distinct in the
/// public query disposition.
pub proof fn lemma_surface_reflects_disposition(a: IdentityReadDispositionKind, b: IdentityReadDispositionKind, found: bool)
    ensures
        (surface_kind_of(a, found) == IdentityReadSurfaceKind::Found || surface_kind_of(a, found) == IdentityReadSurfaceKind::Empty)
            <==> a == IdentityReadDispositionKind::Visible,
        query_disposition_of(a) == query_disposition_of(b) ==> a == b,
{
}

/// The public query surface a visibility decision produces.
pub open spec fn surface_of_decision(decision: IdentityVisibilityDecision, projection_freshness_ref: Option<ProjectionFreshnessMarkerRef>) -> IdentityQuerySurface {
    IdentityQuerySurface {
        disposition: query_disposition_of(decision.disposition),
        visibility: IdentityVisibilityMarker {
            visibility_result_ref: decision.visibility_result_ref,
            read_surface_kind: decision.surface_kind,
            redaction_marker_ref: decision.redaction_marker_ref,
        },
        degraded: match decision.degraded_marker_ref {
            Some(m) => Some(IdentityDegradedMarker { degraded_marker_ref: m, degraded_kind: IdentityDegradedKind::DependencyUnavailable }),
            None => None::<IdentityDegradedMarker>,
        },
        projection_freshness_ref,
        decision_ref: Some(decision.decision_ref),
    }
}

/// Builds the public query surface of a visibility decision.
pub fn surface_from_decision(decision: IdentityVisibilityDecision, projection_freshness_ref: Option<ProjectionFreshnessMarkerRef>) -> (r: IdentityQuerySurface)
    ensures
        r == surface_of_decision(decision, projection_freshness_ref),
{
    let disposition = map_query_disposition(decision.disposition);
    let visibility = decision.visibility_marker();
    let degraded = decision.degraded_marker();
    IdentityQuerySurface { disposition, visibility, degraded, projection_freshness_ref, decision_ref: Some(decision.decision_ref) }
}

/// Degraded read material reported by the degradation mapper for a read
/// subject: the subject's visibility markers and the degraded marker and kind.
#[derive(Debug, Eq, PartialEq)]
pub struct IdentityQueryMaterialDegradationSummary {
    /// Formal read subject marker.
    pub read_subject_ref: IdentityReadSubjectRef,
    /// Visibility context marker.
    pub visibility_context_ref: VisibilityContextRef,
    /// Visibility scope marker.
    pub visibility_scope_ref: VisibilityScopeRef,
    /// Visibility result marker.
    pub visibility_result_ref: VisibilityResultRef,
    /// Formal degraded marker.
    pub degraded_marker_ref: IdentityDegradedMarkerRef,
    /// Formal degraded kind.
    pub degraded_kind: IdentityDegradedKind,
}

/// Whether an access cannot back a decision of the disposition: a redacted
/// decision needs the access's redaction marker, a degraded one its degraded
/// marker and kind.
pub open spec fn access_decision_defect(access: IdentityVisibilityAccessSummary, disposition: IdentityReadDispositionKind) -> bool {
    ||| disposition == IdentityReadDispositionKind::Redacted && access.redaction_marker_ref is None
    ||| disposition == IdentityReadDispositionKind::Degraded && (access.degraded_marker_ref is None || access.degraded_kind is None)
}

/// The decision an access backs for a disposition: the access's subject,
/// context, scope, and result markers, the surface kind of the disposition, and
/// the markers the disposition carries (a redacted decision the redaction
/// marker, a not-visible one the optional redaction marker, a degraded or
/// stale-visible one the degraded marker).
pub open spec fn access_decision(
    access: IdentityVisibilityAccessSummary,
    disposition: IdentityReadDispositionKind,
    found: bool,
    decision_ref: IdentityVisibilityDecisionRef,
    decided_at: IdentityTimestamp,
) -> IdentityVisibilityDecision {
    decision_of(
        decision_ref,
        access.read_subject_ref,
        access.visibility_context_ref,
        access.scope_ref,
        access.visibility_result_ref,
        surface_kind_of(disposition, found),
        disposition,
        match disposition {
            IdentityReadDispositionKind::Redacted | IdentityReadDispositionKind::NotVisible => access.redaction_marker_ref,
            _ => None,
        },
        match disposition {
            IdentityReadDispositionKind::Degraded | IdentityReadDispositionKind::StaleVisible => access.degraded_marker_ref,
            _ => None,
        },
        decided_at,
    )
}

/// The error an access without the markers of a disposition gives: a missing
/// redaction marker, then a missing degraded marker, then a missing degraded
/// kind.
pub open spec fn access_decision_error_message(access: IdentityVisibilityAccessSummary, disposition: IdentityReadDispositionKind) -> Seq<char> {
    if disposition == IdentityReadDispositionKind::Redacted {
        "redacted query surface requires a formal redaction marker"@
    } else if access.degraded_marker_ref is None {
        "degraded query surface requires a formal degraded marker"@
    } else {
        "degraded query surface requires a formal degraded kind"@
    }
}

/// Builds the visibility decision an access backs for a disposition, with a
/// fresh decision ref and decision time. A redacted disposition without the
/// access's redaction marker, or a degraded one without its degraded marker
/// or kind, is a consistency defect.
pub fn decision_from_access(
    access: &IdentityVisibilityAccessSummary,
    disposition: IdentityReadDispositionKind,
    found: bool,
    decision_ref: IdentityVisibilityDecisionRef,
    decided_at: IdentityTimestamp,
) -> (r: Result<IdentityVisibilityDecision, ApplicationError>)
    ensures
        r is Err <==> access_decision_defect(*access, disposition),
        r matches Ok(d) ==> d == access_decision(*access, disposition, found, decision_ref, decided_at),
        r matches Err(e) ==> e.kind == ApplicationErrorKind::ConsistencyDefect
            && e.message@ == access_decision_error_message(*access, disposition),
{
    let surface_kind = map_surface_kind(disposition, found);
    match disposition {
        IdentityReadDispositionKind::Visible => Ok(IdentityVisibilityDecision::visible(
            decision_ref,
            access.read_subject_ref.clone(),
            access.visibility_context_ref.clone(),
            access.scope_ref.clone(),
            access.visibility_result_ref.clone(),
            surface_kind,
            decided_at,
        )),
        IdentityReadDispositionKind::Redacted => match &access.redaction_marker_ref {
            Some(marker) => Ok(IdentityVisibilityDecision::redacted(
                decision_ref,
                access.read_subject_ref.clone(),
                access.visibility_context_ref.clone(),
                access.scope_ref.clone(),
                access.visibility_result_ref.clone(),
                surface_kind,
                marker.clone(),
                decided_at,
            )),
            None => Err(ApplicationError::consistency_defect("redacted query surface requires a formal redaction marker")),
        },
        IdentityReadDispositionKind::NotVisible => Ok(IdentityVisibilityDecision::not_visible(
            decision_ref,
            access.read_subject_ref.clone(),
            access.visibility_context_ref.clone(),
            access.scope_ref.clone(),
            access.visibility_result_ref.clone(),
            surface_kind,
            access.redaction_marker_ref.clone(),
            decided_at,
        )),
        IdentityReadDispositionKind::Degraded => {
            let marker = match &access.degraded_marker_ref {
                Some(marker) => marker.clone(),
                None => {
                    return Err(ApplicationError::consistency_defect("degraded query surface requires a formal degraded marker"));
                },
            };
            if access.degraded_kind.is_none() {
                return Err(ApplicationError::consistency_defect("degraded query surface requires a formal degraded kind"));
            }
            Ok(IdentityVisibilityDecision::degraded(
                decision_ref,
                access.read_subject_ref.clone(),
                access.visibility_context_ref.clone(),
                access.scope_ref.clone(),
                access.visibility_result_ref.clone(),
                surface_kind,
                marker,
                decided_at,
            ))
        },
        IdentityReadDispositionKind::StaleVisible => Ok(IdentityVisibilityDecision {
            decision_ref,
            read_subject_ref: access.read_subject_ref.clone(),
            visibility_context_ref: access.visibility_context_ref.clone(),
            visibility_scope_ref: access.scope_ref.clone(),
            visibility_result_ref: access.visibility_result_ref.clone(),
            surface_kind,
            disposition: IdentityReadDispositionKind::StaleVisible,
            redaction_marker_ref: None,
            degraded_marker_ref: access.degraded_marker_ref.clone(),
            decided_at,
        }),
    }
}

/// The public surface an access gives for a disposition.
pub open spec fn access_surface(
    access: IdentityVisibilityAccessSummary,
    disposition: IdentityReadDispositionKind,
    projection_freshness_ref: Option<ProjectionFreshnessMarkerRef>,
    found: bool,
    decision_ref: IdentityVisibilityDecisionRef,
    decided_at: IdentityTimestamp,
) -> IdentityQuerySurface {
    surface_of_decision(access_decision(access, disposition, found, decision_ref, decided_at), projection_freshness_ref)
}

/// Builds the public surface an access gives for a disposition; fails as
/// `decision_from_access` does.
pub fn surface_from_access(
    access: &IdentityVisibilityAccessSummary,
    disposition: IdentityReadDispositionKind,
    projection_freshness_ref: Option<ProjectionFreshnessMarkerRef>,
    found: bool,
    decision_ref: IdentityVisibilityDecisionRef,
    decided_at: IdentityTimestamp,
) -> (r: Result<IdentityQuerySurface, ApplicationError>)
    ensures
        r is Err <==> access_decision_defect(*access, disposition),
        r matches Ok(s) ==> s == access_surface(*access, disposition, projection_freshness_ref, found, decision_ref, decided_at),
        r matches Err(e) ==> e.kind == ApplicationErrorKind::ConsistencyDefect
            && e.message@ == access_decision_error_message(*access, disposition),
{
    let decision = decision_from_access(access, disposition, found, decision_ref, decided_at)?;
    Ok(surface_from_decision(decision, projection_freshness_ref))
}

/// The disposition an admitted access reads with when nothing else decides:
/// redacted for a redacted access, visible otherwise.
pub open spec fn admitted_disposition(access: IdentityVisibilityAccessSummary) -> IdentityReadDispositionKind {
    if access.access_state == IdentityVisibilityAccessState::Redacted {
        IdentityReadDispositionKind::Redacted
    } else {
        IdentityReadDispositionKind::Visible
    }
}

/// Returns the disposition an admitted access reads with.
pub fn admitted_read_disposition(access: &IdentityVisibilityAccessSummary) -> (r: IdentityReadDispositionKind)
    ensures
        r == admitted_disposition(*access),
{
    if matches!(access.access_state, IdentityVisibilityAccessState::Redacted) {
        IdentityReadDispositionKind::Redacted
    } else {
        IdentityReadDispositionKind::Visible
    }
}

/// The surface of a read whose material is absent: the admitted surface of
/// the access, reported as missing (not found, no freshness, not degraded)
/// or, for an empty list, as empty.
pub open spec fn absent_surface(
    access: IdentityVisibilityAccessSummary,
    missing: bool,
    decision_ref: IdentityVisibilityDecisionRef,
    decided_at: IdentityTimestamp,
) -> IdentityQuerySurface {
    let s = access_surface(access, admitted_disposition(access), None, false, decision_ref, decided_at);
    IdentityQuerySurface {
        disposition: if missing { IdentityQueryDisposition::Missing } else { IdentityQueryDisposition::Empty },
        visibility: IdentityVisibilityMarker {
            read_surface_kind: if missing { IdentityReadSurfaceKind::NotFound } else { IdentityReadSurfaceKind::Empty },
            ..s.visibility
        },
        degraded: None,
        projection_freshness_ref: None,
        ..s
    }
}

/// Builds the surface of a missing read (`missing`) or of an empty list.
pub fn absent_surface_from_access(
    access: &IdentityVisibilityAccessSummary,
    missing: bool,
    decision_ref: IdentityVisibilityDecisionRef,
    decided_at: IdentityTimestamp,
) -> (r: Result<IdentityQuerySurface, ApplicationError>)
    ensures
        r is Err <==> access_decision_defect(*access, admitted_disposition(*access)),
        r matches Ok(s) ==> s == absent_surface(*access, missing, decision_ref, decided_at),
        r matches Err(e) ==> e.kind == ApplicationErrorKind::ConsistencyDefect
            && e.message@ == access_decision_error_message(*access, admitted_disposition(*access)),
{
    let disposition = admitted_read_disposition(access);
    let mut surface = surface_from_access(access, disposition, None, false, decision_ref, decided_at)?;
    if missing {
        surface.disposition = IdentityQueryDisposition::Missing;
        surface.visibility.read_surface_kind = IdentityReadSurfaceKind::NotFound;
    } else {
        surface.disposition = IdentityQueryDisposition::Empty;
        surface.visibility.read_surface_kind = IdentityReadSurfaceKind::Empty;
    }
    surface.projection_freshness_ref = None;
    surface.degraded = None;
    Ok(surface)
}

/// The degraded surface of degraded read material: a degraded decision over
/// the material's markers, reading degraded, with no freshness marker.
pub open spec fn material_degraded_surface(
    degradation: IdentityQueryMaterialDegradationSummary,
    decision_ref: IdentityVisibilityDecisionRef,
    decided_at: IdentityTimestamp,
) -> IdentityQuerySurface {
    surface_of_decision(
        decision_of(
            decision_ref,
            degradation.read_subject_ref,
            degradation.visibility_context_ref,
            degradation.visibility_scope_ref,
            degradation.visibility_result_ref,
            IdentityReadSurfaceKind::Degraded,
            IdentityReadDispositionKind::Degraded,
            None,
            Some(degradation.degraded_marker_ref),
            decided_at,
        ),
        None,
    )
}

/// Builds the degraded surface of degraded read material.
pub fn degraded_surface_from_material(
    degradation: IdentityQueryMaterialDegradationSummary,
    decision_ref: IdentityVisibilityDecisionRef,
    decided_at: IdentityTimestamp,
) -> (r: IdentityQuerySurface)
    ensures
        r == material_degraded_surface(degradation, decision_ref, decided_at),
{
    let decision = IdentityVisibilityDecision::degraded(
        decision_ref,
        degradation.read_subject_ref,
        degradation.visibility_context_ref,
        degradation.visibility_scope_ref,
        degradation.visibility_result_ref,
        IdentityReadSurfaceKind::Degraded,
        degradation.degraded_marker_ref,
        decided_at,
    );
    surface_from_decision(decision, None)
}

/// Whether an access admits a read past the visibility gate: a visible or
/// redacted access does; a hidden, degraded, or unavailable one answers at
/// once.
pub open spec fn access_admitted(access: IdentityVisibilityAccessSummary) -> bool {
    access.access_state == IdentityVisibilityAccessState::Visible || access.access_state == IdentityVisibilityAccessState::Redacted
}

/// The disposition a gated access answers with: not visible for a hidden
/// access, degraded for a degraded or unavailable one.
pub open spec fn gate_disposition(access: IdentityVisibilityAccessSummary) -> IdentityReadDispositionKind {
    if access.access_state == IdentityVisibilityAccessState::NotVisible {
        IdentityReadDispositionKind::NotVisible
    } else {
        IdentityReadDispositionKind::Degraded
    }
}

/// Returns whether an access admits a read past the visibility gate.
pub fn admits_read(access: &IdentityVisibilityAccessSummary) -> (r: bool)
    ensures
        r == access_admitted(*access),
{
    matches!(access.access_state, IdentityVisibilityAccessState::Visible | IdentityVisibilityAccessState::Redacted)
}

/// Passes a read through the visibility gate: an admitting access gives
/// `None` and the read goes on; a hidden access gives its not-visible surface
/// and a degraded or unavailable one its degraded surface, with nothing found.
pub fn gate_read_surface(
    access: &IdentityVisibilityAccessSummary,
    decision_ref: IdentityVisibilityDecisionRef,
    decided_at: IdentityTimestamp,
) -> (r: Result<Option<IdentityQuerySurface>, ApplicationError>)
    ensures
        access_admitted(*access) ==> r == Ok::<Option<IdentityQuerySurface>, ApplicationError>(None),
        !access_admitted(*access) ==> {
            &&& (r is Err <==> access_decision_defect(*access, gate_disposition(*access)))
            &&& (r is Ok ==> r.unwrap() == Some(access_surface(*access, gate_disposition(*access), None, false, decision_ref, decided_at)))
            &&& (r is Err ==> r->Err_0.kind == ApplicationErrorKind::ConsistencyDefect
                && r->Err_0.message@ == access_decision_error_message(*access, gate_disposition(*access)))
        },
{
    match access.access_state {
        IdentityVisibilityAccessState::Visible | IdentityVisibilityAccessState::Redacted => Ok(None),
        IdentityVisibilityAccessState::NotVisible => {
            let surface = surface_from_access(access, IdentityReadDispositionKind::NotVisible, None, false, decision_ref, decided_at)?;
            Ok(Some(surface))
        },
        IdentityVisibilityAccessState::Degraded | IdentityVisibilityAccessState::Unavailable => {
            let surface = surface_from_access(access, IdentityReadDispositionKind::Degraded, None, false, decision_ref, decided_at)?;
            Ok(Some(surface))
        },
    }
}

/// A response that carries a surface and no body.
pub open spec fn bodiless_response<T>(query_name: IdentityQueryName, surface: IdentityQuerySurface) -> IdentityQueryResponse<T> {
    IdentityQueryResponse { query_name, surface, body: None }
}

/// Next step of a member summary read once the visibility and projection
/// reads are in: the response, or the defect of the loaded view that the
/// degradation mapper turns into degraded material.
#[derive(Debug, Eq, PartialEq)]
pub enum MemberSummaryReadStep {
    /// The read is answered with this response.
    Respond(IdentityQueryResponse<MemberSummaryView>),
    /// The stable lookup named a view whose material is gone.
    ViewMissing,
    /// The view belongs to another member.
    ViewInvalidOwner,
    /// The view was built for another visibility scope.
    ViewScopeMismatch,
    /// The view carries material that is not body-free; the marker is the view's.
    ForbiddenMaterial(IdentityReadMaterialMarker),
    /// The view reads stale but carries no freshness marker.
    MissingFreshness,
}

/// Whether a loaded view may be served for the member under the stable
/// lookup scope: it belongs to the member, matches the scope, is body-free,
/// and a stale reading of it carries a freshness marker.
pub open spec fn member_summary_view_servable(
    member_ref: GlobalMemberRef,
    access: IdentityVisibilityAccessSummary,
    view_access: IdentityVisibilityAccessSummary,
    view: MemberSummaryView,
) -> bool {
    &&& view.member_ref.member_id@ == member_ref.member_id@
    &&& view.visibility_scope_ref@ == access.scope_ref@
    &&& read_material_body_free(view.read_material_marker.material_kind)
    &&& !(member_summary_disposition(view_access.access_state, view.read_surface_kind) == IdentityReadDispositionKind::StaleVisible
        && view.projection_freshness_ref is None)
}

/// What a member summary read comes to once both accesses admit it: a
/// missing view, a view of another member, a view of another scope, a view
/// with body material, or a stale view without freshness marker each name
/// their defect, in that order; a servable view is answered with its body and
/// the surface of its disposition; `None` when the view access lacks the
/// markers of that disposition, which is an error.
pub open spec fn member_summary_view_step(
    query_name: IdentityQueryName,
    member_ref: GlobalMemberRef,
    access: IdentityVisibilityAccessSummary,
    view_access: IdentityVisibilityAccessSummary,
    view: Option<MemberSummaryView>,
    decision_ref: IdentityVisibilityDecisionRef,
    decided_at: IdentityTimestamp,
) -> Option<MemberSummaryReadStep> {
    match view {
        None => Some(MemberSummaryReadStep::ViewMissing),
        Some(v) => if v.member_ref.member_id@ != member_ref.member_id@ {
            Some(MemberSummaryReadStep::ViewInvalidOwner)
        } else if v.visibility_scope_ref@ != access.scope_ref@ {
            Some(MemberSummaryReadStep::ViewScopeMismatch)
        } else if !read_material_body_free(v.read_material_marker.material_kind) {
            Some(MemberSummaryReadStep::ForbiddenMaterial(v.read_material_marker))
        } else {
            let disposition = member_summary_disposition(view_access.access_state, v.read_surface_kind);
            if disposition == IdentityReadDispositionKind::StaleVisible && v.projection_freshness_ref is None {
                Some(MemberSummaryReadStep::MissingFreshness)
            } else if access_decision_defect(view_access, disposition) {
                None
            } else {
                Some(MemberSummaryReadStep::Respond(IdentityQueryResponse {
                    query_name,
                    surface: access_surface(view_access, disposition, v.projection_freshness_ref, true, decision_ref, decided_at),
                    body: Some(v),
                }))
            }
        },
    }
}

/// What a member summary read has in hand once its preflight passes: the
/// member access, the view's own access, the view's stable ref, and the view.
#[derive(Debug, Eq, PartialEq)]
pub struct IdentityMemberSummaryPreflight {
    /// Access of the member read.
    pub access_summary: IdentityVisibilityAccessSummary,
    /// Access of the view read.
    pub view_access_summary: IdentityVisibilityAccessSummary,
    /// Stable ref of the view.
    pub view_ref: MemberSummaryViewRef,
    /// The loaded, body-free view.
    pub view: MemberSummaryView,
}

/// The error of a member summary preflight, in the order its checks run,
/// or none when it passes: the member access must be resolved, the stable
/// lookup must name a view, the view access must be resolved, the view must
/// be there, belong to the member, match the lookup scope, and be body-free.
pub open spec fn member_summary_preflight_error(
    member_ref: GlobalMemberRef,
    access: Option<IdentityVisibilityAccessSummary>,
    view_ref: Option<MemberSummaryViewRef>,
    view_access: Option<IdentityVisibilityAccessSummary>,
    view: Option<MemberSummaryView>,
) -> Option<(ApplicationErrorKind, Seq<char>)> {
    if access is None {
        Some((ApplicationErrorKind::InvalidRequest, "member summary read visibility could not form a canonical subject"@))
    } else if view_ref is None {
        Some((ApplicationErrorKind::NotFound, "member summary view not found"@))
    } else if view_access is None {
        Some((ApplicationErrorKind::InvalidRequest, "member summary view read visibility could not form a canonical subject"@))
    } else if view is None {
        Some((ApplicationErrorKind::NotFound, "member summary view material not found"@))
    } else if view.unwrap().member_ref.member_id@ != member_ref.member_id@ {
        Some((ApplicationErrorKind::ConsistencyDefect, "member summary view does not belong to the requested member"@))
    } else if view.unwrap().visibility_scope_ref@ != access.unwrap().scope_ref@ {
        Some((ApplicationErrorKind::ConsistencyDefect, "member summary view visibility scope does not match the stable lookup scope"@))
    } else if !read_material_body_free(view.unwrap().read_material_marker.material_kind) {
        Some((ApplicationErrorKind::ConsistencyDefect, "member summary view must remain body-free"@))
    } else {
        None
    }
}

/// Checks what the reads of a member summary preflight returned: the member
/// access, the view ref of the stable lookup under that access's scope, the
/// view access, and the view. Each read is only made when the one before it
/// returned something; the first absence or defect is the error.
pub fn member_summary_preflight(
    member_ref: &GlobalMemberRef,
    access: Option<IdentityVisibilityAccessSummary>,
    view_ref: Option<MemberSummaryViewRef>,
    view_access: Option<IdentityVisibilityAccessSummary>,
    view: Option<MemberSummaryView>,
) -> (r: Result<IdentityMemberSummaryPreflight, ApplicationError>)
    ensures
        r is Ok <==> member_summary_preflight_error(*member_ref, access, view_ref, view_access, view) is None,
        r matches Err(e) ==> (e.kind, e.message@) == member_summary_preflight_error(*member_ref, access, view_ref, view_access, view).unwrap(),
        r matches Ok(p) ==> p == (IdentityMemberSummaryPreflight {
            access_summary: access.unwrap(),
            view_access_summary: view_access.unwrap(),
            view_ref: view_ref.unwrap(),
            view: view.unwrap(),
        }),
{
    let access_summary = match access {
        Some(a) => a,
        None => {
            return Err(ApplicationError::invalid_request("member summary read visibility could not form a canonical subject"));
        },
    };
    let view_ref = match view_ref {
        Some(v) => v,
        None => {
            return Err(ApplicationError::not_found("member summary view not found"));
        },
    };
    let view_access_summary = match view_access {
        Some(a) => a,
        None => {
            return Err(ApplicationError::invalid_request("member summary view read visibility could not form a canonical subject"));
        },
    };
    let view = match view {
        Some(v) => v,
        None => {
            return Err(ApplicationError::not_found("member summary view material not found"));
        },
    };
    if !view.belongs_to(member_ref) {
        return Err(ApplicationError::consistency_defect("member summary view does not belong to the requested member"));
    }
    if !view.matches_visibility_scope(&access_summary.scope_ref) {
        return Err(ApplicationError::consistency_defect("member summary view visibility scope does not match the stable lookup scope"));
    }
    if view.assert_body_free().is_err() {
        return Err(ApplicationError::consistency_defect("member summary view must remain body-free"));
    }
    Ok(IdentityMemberSummaryPreflight { access_summary, view_access_summary, view_ref, view })
}

/// Decides a member summary read from what the visibility and projection
/// reads returned: the member-level access, the view-level access (absent
/// when the stable lookup found no view), and the loaded view (absent when
/// its material is gone). The access gates first, then the view access; a
/// gated read answers with no body. A served view is answered with its body
/// and the surface of its disposition.
pub fn decide_member_summary_read(
    query_name: IdentityQueryName,
    member_ref: &GlobalMemberRef,
    access: &IdentityVisibilityAccessSummary,
    view_access: Option<IdentityVisibilityAccessSummary>,
    view: Option<MemberSummaryView>,
    decision_ref: IdentityVisibilityDecisionRef,
    decided_at: IdentityTimestamp,
) -> (r: Result<MemberSummaryReadStep, ApplicationError>)
    ensures
        // A hidden, degraded, or unavailable access answers with no body.
        !access_admitted(*access) ==> {
            &&& (r is Err <==> access_decision_defect(*access, gate_disposition(*access)))
            &&& (r is Err ==> r->Err_0.message@ == access_decision_error_message(*access, gate_disposition(*access)))
            &&& (r is Ok ==> r.unwrap() == MemberSummaryReadStep::Respond(bodiless_response(
                query_name, access_surface(*access, gate_disposition(*access), None, false, decision_ref, decided_at))))
        },
        // No view under the stable lookup: the read is missing.
        access_admitted(*access) && view_access is None ==> {
            &&& (r is Err <==> access_decision_defect(*access, admitted_disposition(*access)))
            &&& (r is Err ==> r->Err_0.message@ == access_decision_error_message(*access, admitted_disposition(*access)))
            &&& (r is Ok ==> r.unwrap() == MemberSummaryReadStep::Respond(bodiless_response(
                query_name, absent_surface(*access, true, decision_ref, decided_at))))
        },
        // The view access gates next, with no body.
        access_admitted(*access) && view_access is Some && !access_admitted(view_access.unwrap()) ==> {
            &&& (r is Err <==> access_decision_defect(view_access.unwrap(), gate_disposition(view_access.unwrap())))
            &&& (r is Err ==> r->Err_0.message@ == access_decision_error_message(view_access.unwrap(), gate_disposition(view_access.unwrap())))
            &&& (r is Ok ==> r.unwrap() == MemberSummaryReadStep::Respond(bodiless_response(
                query_name, access_surface(view_access.unwrap(), gate_disposition(view_access.unwrap()), None, false, decision_ref, decided_at))))
        },
        // Defects of the loaded view, in the order they are checked.
        access_admitted(*access) && view_access is Some && access_admitted(view_access.unwrap()) ==> {
            let step = member_summary_view_step(query_name, *member_ref, *access, view_access.unwrap(), view, decision_ref, decided_at);
            &&& (r is Err <==> step is None)
            &&& (r is Ok ==> r.unwrap() == step.unwrap())
            &&& (r is Err ==> r->Err_0.message@ == access_decision_error_message(view_access.unwrap(),
                member_summary_disposition(view_access.unwrap().access_state, view.unwrap().read_surface_kind)))
        },
        // A body is served exactly for a servable view behind two admitting accesses.
        (r is Ok && r.unwrap() is Respond && r.unwrap()->Respond_0.body is Some) <==> {
            &&& r is Ok
            &&& access_admitted(*access)
            &&& view_access is Some && access_admitted(view_access.unwrap())
            &&& view is Some && member_summary_view_servable(*member_ref, *access, view_access.unwrap(), view.unwrap())
        },
        (r is Ok && r.unwrap() is Respond && r.unwrap()->Respond_0.body is Some) ==>
            r.unwrap()->Respond_0.surface.disposition == query_disposition_of(
                member_summary_disposition(view_access.unwrap().access_state, view.unwrap().read_surface_kind)),
        r is Err ==> r->Err_0.kind == ApplicationErrorKind::ConsistencyDefect,
{
    if !matches!(access.access_state, IdentityVisibilityAccessState::Visible | IdentityVisibilityAccessState::Redacted) {
        let disposition = if matches!(access.access_state, IdentityVisibilityAccessState::NotVisible) {
            IdentityReadDispositionKind::NotVisible
        } else {
            IdentityReadDispositionKind::Degraded
        };
        let surface = surface_from_access(access, disposition, None, false, decision_ref, decided_at)?;
        return Ok(MemberSummaryReadStep::Respond(IdentityQueryResponse { query_name, surface, body: None }));
    }
    let view_access = match view_access {
        Some(view_access) => view_access,
        None => {
            let surface = absent_surface_from_access(access, true, decision_ref, decided_at)?;
            return Ok(MemberSummaryReadStep::Respond(IdentityQueryResponse { query_name, surface, body: None }));
        },
    };
    if !matches!(view_access.access_state, IdentityVisibilityAccessState::Visible | IdentityVisibilityAccessState::Redacted) {
        let disposition = if matches!(view_access.access_state, IdentityVisibilityAccessState::NotVisible) {
            IdentityReadDispositionKind::NotVisible
        } else {
            IdentityReadDispositionKind::Degraded
        };
        let surface = surface_from_access(&view_access, disposition, None, false, decision_ref, decided_at)?;
        return Ok(MemberSummaryReadStep::Respond(IdentityQueryResponse { query_name, surface, body: None }));
    }
    let view = match view {
        Some(view) => view,
        None => {
            return Ok(MemberSummaryReadStep::ViewMissing);
        },
    };
    if !view.belongs_to(member_ref) {
        return Ok(MemberSummaryReadStep::ViewInvalidOwner);
    }
    if !view.matches_visibility_scope(&access.scope_ref) {
        return Ok(MemberSummaryReadStep::ViewScopeMismatch);
    }
    if view.assert_body_free().is_err() {
        return Ok(MemberSummaryReadStep::ForbiddenMaterial(view.read_material_marker.clone()));
    }
    let disposition = classify_member_summary_disposition(&view_access, &view);
    if matches!(disposition, IdentityReadDispositionKind::StaleVisible) && view.projection_freshness_ref.is_none() {
        return Ok(MemberSummaryReadStep::MissingFreshness);
    }
    let surface = surface_from_access(&view_access, disposition, view.projection_freshness_ref.clone(), true, decision_ref, decided_at)?;
    Ok(MemberSummaryReadStep::Respond(IdentityQueryResponse { query_name, surface, body: Some(view) }))
}

/// Answers a read with degraded read material and no body.
pub fn material_degraded_response<T>(
    query_name: IdentityQueryName,
    degradation: IdentityQueryMaterialDegradationSummary,
    decision_ref: IdentityVisibilityDecisionRef,
    decided_at: IdentityTimestamp,
) -> (r: IdentityQueryResponse<T>)
    ensures
        r == bodiless_response::<T>(query_name, material_degraded_surface(degradation, decision_ref, decided_at)),
{
    let surface = degraded_surface_from_material(degradation, decision_ref, decided_at);
    IdentityQueryResponse { query_name, surface, body: None }
}

/// Whether an access redacts the fields it reads.
pub open spec fn access_redacts(access: IdentityVisibilityAccessSummary) -> bool {
    access.access_state == IdentityVisibilityAccessState::Redacted
}

/// A field as a redacting access reads it: hidden when the access redacts.
pub open spec fn shown<T>(access: IdentityVisibilityAccessSummary, value: Option<T>) -> Option<T> {
    if access_redacts(access) { None } else { value }
}

/// The public view of a career record read under an access: identity, member,
/// state, and correction links always; participation, source, summary, append
/// reason, and append time only when the access does not redact.
pub open spec fn career_view_of(access: IdentityVisibilityAccessSummary, record: CareerRecord) -> CareerRecordView {
    CareerRecordView {
        career_record_ref: record.career_record_ref,
        member_ref: record.member_ref,
        record_state_kind: public_career_kind(record.record_state),
        project_participation_ref: shown(access, Some(record.project_participation_ref)),
        work_source_ref: shown(access, Some(record.work_source_ref)),
        source_marker_ref: shown(access, Some(record.source_marker_ref)),
        career_summary_ref: shown(access, record.career_summary_ref),
        append_reason_ref: shown(access, Some(record.append_reason_ref)),
        appended_at: shown(access, Some(record.appended_at)),
        correction_of_ref: record.correction_of_ref,
        superseded_by_ref: record.superseded_by_ref,
    }
}

/// Builds the public view of a career record read under an access.
pub fn career_record_view(access: &IdentityVisibilityAccessSummary, record: CareerRecord) -> (r: CareerRecordView)
    ensures
        r == career_view_of(*access, record),
{
    let redacted = matches!(access.access_state, IdentityVisibilityAccessState::Redacted);
    CareerRecordView {
        career_record_ref: record.career_record_ref,
        member_ref: record.member_ref,
        record_state_kind: map_career_state_kind(record.record_state),
        project_participation_ref: hide_on_redaction(redacted, Some(record.project_participation_ref)),
        work_source_ref: hide_on_redaction(redacted, Some(record.work_source_ref)),
        source_marker_ref: hide_on_redaction(redacted, Some(record.source_marker_ref)),
        career_summary_ref: hide_on_redaction(redacted, record.career_summary_ref),
        append_reason_ref: hide_on_redaction(redacted, Some(record.append_reason_ref)),
        appended_at: hide_on_redaction(redacted, Some(record.appended_at)),
        correction_of_ref: record.correction_of_ref,
        superseded_by_ref: record.superseded_by_ref,
    }
}

/// The public view of a memory reference read under an access: identity,
/// member, and state always; carriers, source, summary, change reason, and
/// change time only when the access does not redact.
pub open spec fn memory_view_of(access: IdentityVisibilityAccessSummary, reference: MemoryReference) -> MemoryReferenceView {
    MemoryReferenceView {
        memory_reference_ref: reference.memory_reference_ref,
        member_ref: reference.member_ref,
        reference_state_kind: public_memory_kind(reference.reference_state.state_kind),
        memory_ref: shown(access, reference.memory_ref),
        archive_ref: shown(access, reference.archive_ref),
        archive_handoff_ref: shown(access, reference.archive_handoff_ref),
        source_ref: shown(access, Some(reference.source_ref)),
        safe_summary_ref: shown(access, reference.safe_summary_ref),
        reason_ref: shown(access, Some(reference.change_reason_ref)),
        changed_at: shown(access, Some(reference.changed_at)),
    }
}

/// Builds the public view of a memory reference read under an access.
pub fn memory_reference_view(access: &IdentityVisibilityAccessSummary, reference: MemoryReference) -> (r: MemoryReferenceView)
    ensures
        r == memory_view_of(*access, reference),
{
    let redacted = matches!(access.access_state, IdentityVisibilityAccessState::Redacted);
    MemoryReferenceView {
        memory_reference_ref: reference.memory_reference_ref,
        member_ref: reference.member_ref,
        reference_state_kind: map_memory_state_kind(reference.reference_state.state_kind),
        memory_ref: hide_on_redaction(redacted, reference.memory_ref),
        archive_ref: hide_on_redaction(redacted, reference.archive_ref),
        archive_handoff_ref: hide_on_redaction(redacted, reference.archive_handoff_ref),
        source_ref: hide_on_redaction(redacted, Some(reference.source_ref)),
        safe_summary_ref: hide_on_redaction(redacted, reference.safe_summary_ref),
        reason_ref: hide_on_redaction(redacted, Some(reference.change_reason_ref)),
        changed_at: hide_on_redaction(redacted, Some(reference.changed_at)),
    }
}

/// The public view of a trace record read under an access: the trace's
/// identity, subjects, change, cursor, succession, material marker, and time
/// always, the access's visibility result, and reason, source, basis, and
/// actor only when the access does not redact.
pub open spec fn trace_view_of(access: IdentityVisibilityAccessSummary, record: IdentityTraceRecord) -> IdentityTraceRecordView {
    IdentityTraceRecordView {
        trace_record_ref: record.trace_record_ref,
        member_ref: record.member_ref,
        subject_ref: record.subject_ref,
        audit_subject_ref: record.audit_subject_ref,
        change_kind_ref: record.change_kind_ref,
        source_cursor_ref: record.source_cursor_ref,
        reason_ref: shown(access, record.reason_ref),
        source_ref: shown(access, record.source_ref),
        basis_ref: shown(access, record.basis_ref),
        actor_ref: shown(access, record.actor_ref),
        visibility_result_ref: access.visibility_result_ref,
        superseded_by_trace_ref: record.superseded_by_trace_ref,
        read_material_marker: record.read_material_marker,
        occurred_at: record.occurred_at,
    }
}

/// Builds the public view of a trace record read under an access.
pub fn trace_record_view(access: &IdentityVisibilityAccessSummary, record: IdentityTraceRecord) -> (r: IdentityTraceRecordView)
    ensures
        r == trace_view_of(*access, record),
{
    let redacted = matches!(access.access_state, IdentityVisibilityAccessState::Redacted);
    IdentityTraceRecordView {
        trace_record_ref: record.trace_record_ref,
        member_ref: record.member_ref,
        subject_ref: record.subject_ref,
        audit_subject_ref: record.audit_subject_ref,
        change_kind_ref: record.change_kind_ref,
        source_cursor_ref: record.source_cursor_ref,
        reason_ref: hide_on_redaction(redacted, record.reason_ref),
        source_ref: hide_on_redaction(redacted, record.source_ref),
        basis_ref: hide_on_redaction(redacted, record.basis_ref),
        actor_ref: hide_on_redaction(redacted, record.actor_ref),
        visibility_result_ref: access.visibility_result_ref.clone(),
        superseded_by_trace_ref: record.superseded_by_trace_ref,
        read_material_marker: record.read_material_marker,
        occurred_at: record.occurred_at,
    }
}

/// The public view of an outbox record read under an access: the record's
/// identity, member, subject, change, payload marker, topic, trace, delivery
/// state and times, and the access's visibility result.
pub open spec fn outbox_view_of(access: IdentityVisibilityAccessSummary, record: IdentityOutboxRecord) -> IdentityOutboxRecordView {
    IdentityOutboxRecordView {
        outbox_record_ref: record.outbox_record_ref,
        member_ref: record.member_ref,
        subject_ref: record.subject_ref,
        change_kind_ref: record.change_kind_ref,
        payload_marker_ref: record.payload_marker_ref,
        topic_key_ref: record.topic_key_ref,
        trace_record_ref: record.trace_record_ref,
        outbox_state_kind: public_outbox_kind(record.outbox_state.state_kind),
        attempt_ref: record.outbox_state.attempt_ref,
        issue_ref: record.outbox_state.issue_ref,
        created_at: record.created_at,
        updated_at: record.updated_at,
        visibility_result_ref: access.visibility_result_ref,
    }
}

/// Builds the public view of an outbox record read under an access.
pub fn identity_outbox_record_view(access: &IdentityVisibilityAccessSummary, record: &IdentityOutboxRecord) -> (r: IdentityOutboxRecordView)
    ensures
        r == outbox_view_of(*access, *record),
{
    IdentityOutboxRecordView {
        outbox_record_ref: record.outbox_record_ref.clone(),
        member_ref: record.member_ref.clone(),
        subject_ref: record.subject_ref.clone(),
        change_kind_ref: record.change_kind_ref.clone(),
        payload_marker_ref: record.payload_marker_ref.clone(),
        topic_key_ref: record.topic_key_ref.clone(),
        trace_record_ref: record.trace_record_ref.clone(),
        outbox_state_kind: map_outbox_state_kind(record.outbox_state.state_kind),
        attempt_ref: record.outbox_state.attempt_ref.clone(),
        issue_ref: record.outbox_state.issue_ref.clone(),
        created_at: record.created_at,
        updated_at: record.updated_at,
        visibility_result_ref: access.visibility_result_ref.clone(),
    }
}

/// Next step of a career record page for one listed item once it is loaded:
/// push its view, or stop on an item whose material is gone or belongs to
/// another member.
#[derive(Debug, Eq, PartialEq)]
pub enum CareerRecordItemStep {
    /// The item's view joins the page.
    Push(CareerRecordView),
    /// The listed item could not be loaded.
    Missing,
    /// The loaded record belongs to another member.
    InvalidMember,
}

/// Decides one listed career record of a member's page under an access.
pub fn career_record_item_step(
    access: &IdentityVisibilityAccessSummary,
    member_ref: &GlobalMemberRef,
    loaded: Option<CareerRecord>,
) -> (r: CareerRecordItemStep)
    ensures
        r == (match loaded {
            None => CareerRecordItemStep::Missing,
            Some(record) => if record.member_ref.member_id@ != member_ref.member_id@ {
                CareerRecordItemStep::InvalidMember
            } else {
                CareerRecordItemStep::Push(career_view_of(*access, record))
            },
        }),
{
    match loaded {
        None => CareerRecordItemStep::Missing,
        Some(record) => {
            if !record.member_ref.same_member(member_ref) {
                CareerRecordItemStep::InvalidMember
            } else {
                CareerRecordItemStep::Push(career_record_view(access, record))
            }
        },
    }
}

/// Next step of a memory reference page for one listed item once it is
/// loaded: push its view, or stop on an item whose material is gone, belongs
/// to another member, or carries an external body.
#[derive(Debug, Eq, PartialEq)]
pub enum MemoryReferenceItemStep {
    /// The item's view joins the page.
    Push(MemoryReferenceView),
    /// The listed item could not be loaded.
    Missing,
    /// The loaded reference belongs to another member.
    InvalidMember,
    /// The loaded reference carries an external body.
    ForbiddenExternalBody,
}

/// Decides one listed memory reference of a member's page under an access.
/// A reference relation never carries an external body, so a loaded
/// reference of the member always joins the page.
pub fn memory_reference_item_step(
    access: &IdentityVisibilityAccessSummary,
    member_ref: &GlobalMemberRef,
    loaded: Option<MemoryReference>,
) -> (r: MemoryReferenceItemStep)
    ensures
        r == (match loaded {
            None => MemoryReferenceItemStep::Missing,
            Some(reference) => if reference.member_ref.member_id@ != member_ref.member_id@ {
                MemoryReferenceItemStep::InvalidMember
            } else {
                MemoryReferenceItemStep::Push(memory_view_of(*access, reference))
            },
        }),
{
    match loaded {
        None => MemoryReferenceItemStep::Missing,
        Some(reference) => {
            if !reference.belongs_to(member_ref) {
                MemoryReferenceItemStep::InvalidMember
            } else if reference.has_external_body() {
                MemoryReferenceItemStep::ForbiddenExternalBody
            } else {
                MemoryReferenceItemStep::Push(memory_reference_view(access, reference))
            }
        },
    }
}

/// The surface of a member-scoped list whose items all joined: empty for an
/// empty list, else the admitted surface of the access with material found.
pub open spec fn list_success_surface(
    access: IdentityVisibilityAccessSummary,
    empty: bool,
    decision_ref: IdentityVisibilityDecisionRef,
    decided_at: IdentityTimestamp,
) -> IdentityQuerySurface {
    if empty {
        absent_surface(access, false, decision_ref, decided_at)
    } else {
        access_surface(access, admitted_disposition(access), None, true, decision_ref, decided_at)
    }
}

/// Builds the surface of a member-scoped list whose items all joined.
pub fn surface_for_list_success(
    access: &IdentityVisibilityAccessSummary,
    empty: bool,
    decision_ref: IdentityVisibilityDecisionRef,
    decided_at: IdentityTimestamp,
) -> (r: Result<IdentityQuerySurface, ApplicationError>)
    ensures
        r is Err <==> access_decision_defect(*access, admitted_disposition(*access)),
        r matches Ok(s) ==> s == list_success_surface(*access, empty, decision_ref, decided_at),
        r matches Err(e) ==> e.kind == ApplicationErrorKind::ConsistencyDefect
            && e.message@ == access_decision_error_message(*access, admitted_disposition(*access)),
{
    if empty {
        return absent_surface_from_access(access, false, decision_ref, decided_at);
    }
    let disposition = admitted_read_disposition(access);
    surface_from_access(access, disposition, None, true, decision_ref, decided_at)
}

/// Assembles a list page: the surface, the cursor information of the listed
/// repository page, and the items that joined; the page counts the items it
/// returns.
pub fn list_page_response<T, V>(
    query_name: IdentityQueryName,
    surface: IdentityQuerySurface,
    listed: &Page<T>,
    items: Vec<V>,
) -> (r: IdentityPageResponse<V>)
    ensures
        r.query_name == query_name,
        r.surface == surface,
        r.items@ == items@,
        r.page_info.has_more == listed.next_cursor is Some,
        r.page_info.next_cursor is Some <==> listed.next_cursor is Some,
        r.page_info.next_cursor matches Some(c) ==> c@ == listed.next_cursor.unwrap()@,
        r.page_info.item_count == items@.len() as u32,
        items@.len() <= u32::MAX ==> r.page_info.item_count == r.items@.len(),
{
    let returned = items.len();
    IdentityPageResponse { query_name, surface, page_info: page_info(listed, returned), items }
}

/// Running state of a trace page as its listed items are read: the views
/// that joined, how many items the consumer may not see, the first hidden
/// item's access, the first access that redacts, and the last item access
/// resolved.
pub struct TracePageState {
    /// Views that joined the page, in listed order.
    pub items: Vec<IdentityTraceRecordView>,
    /// Number of listed items hidden from the consumer.
    pub denied_count: usize,
    /// Access of the first hidden item.
    pub denied_access: Option<IdentityVisibilityAccessSummary>,
    /// First access that redacts fields.
    pub partial_redaction_access: Option<IdentityVisibilityAccessSummary>,
    /// Access of the last item whose visibility was resolved.
    pub last_resolved_item_access: Option<IdentityVisibilityAccessSummary>,
}

/// Starts an empty trace page.
pub fn trace_page_start() -> (r: TracePageState)
    ensures
        r.items@.len() == 0,
        r.denied_count == 0,
        r.denied_access is None,
        r.partial_redaction_access is None,
        r.last_resolved_item_access is None,
{
    TracePageState {
        items: Vec::new(),
        denied_count: 0,
        denied_access: None,
        partial_redaction_access: None,
        last_resolved_item_access: None,
    }
}

/// Check of a loaded trace item before its own visibility is resolved.
#[derive(Clone, Copy, Debug, Eq, PartialEq, Structural)]
pub enum TraceItemCheck {
    /// The item may go on to its visibility.
    Resolve,
    /// The listed item could not be loaded.
    Missing,
    /// The loaded trace belongs to another member.
    InvalidMember,
    /// The loaded trace answers another subject than the one read.
    SubjectMismatch,
}

/// Checks a loaded trace item of a member's page: it must exist, belong to
/// the member, and, when the page reads one subject, answer that subject.
pub fn trace_item_check(
    member_ref: &GlobalMemberRef,
    subject_ref: Option<&IdentityTraceSubjectRef>,
    loaded: &Option<IdentityTraceRecord>,
) -> (r: TraceItemCheck)
    ensures
        r == (match *loaded {
            None => TraceItemCheck::Missing,
            Some(record) => if record.member_ref.member_id@ != member_ref.member_id@ {
                TraceItemCheck::InvalidMember
            } else if subject_ref is Some && record.subject_ref@ != subject_ref.unwrap()@ {
                TraceItemCheck::SubjectMismatch
            } else {
                TraceItemCheck::Resolve
            },
        }),
{
    match loaded {
        None => TraceItemCheck::Missing,
        Some(record) => {
            if !record.belongs_to(member_ref) {
                return TraceItemCheck::InvalidMember;
            }
            match subject_ref {
                Some(subject_ref) => {
                    if !record.matches_subject(subject_ref) {
                        return TraceItemCheck::SubjectMismatch;
                    }
                },
                None => {},
            }
            TraceItemCheck::Resolve
        },
    }
}

/// Outcome of one resolved trace item for the page.
#[derive(Debug, Eq, PartialEq)]
pub enum TraceItemOutcome {
    /// The item joined the page, or was skipped as hidden; reading goes on.
    Continue,
    /// The item's access degrades the page; the page stops with this surface.
    Stop(IdentityQuerySurface),
    /// The item carries material that is not body-free; the page stops.
    ForbiddenMaterial(IdentityReadMaterialMarker),
}

/// Takes one trace item, whose own access is resolved, into the page. A
/// hidden item is skipped and counted; a degraded or unavailable access stops
/// the page with its degraded surface; an item that is not body-free stops
/// the page; any other item joins the page under its access, and an access
/// that redacts is remembered first come.
pub fn trace_item_step(
    state: &mut TracePageState,
    item_access: IdentityVisibilityAccessSummary,
    record: IdentityTraceRecord,
    decision_ref: IdentityVisibilityDecisionRef,
    decided_at: IdentityTimestamp,
) -> (r: Result<TraceItemOutcome, ApplicationError>)
    requires
        old(state).denied_count < usize::MAX,
    ensures
        final(state).last_resolved_item_access == Some(item_access),
        // A hidden item is skipped and counted.
        item_access.access_state == IdentityVisibilityAccessState::NotVisible ==> {
            &&& r == Ok::<TraceItemOutcome, ApplicationError>(TraceItemOutcome::Continue)
            &&& final(state).items@ == old(state).items@
            &&& final(state).denied_count == old(state).denied_count + 1
            &&& final(state).denied_access == (if old(state).denied_access is Some { old(state).denied_access } else { Some(item_access) })
            &&& final(state).partial_redaction_access == (if old(state).partial_redaction_access is None && item_access.redaction_marker_ref is Some {
                Some(item_access) } else { old(state).partial_redaction_access })
        },
        // A degraded or unavailable item access stops the page.
        (item_access.access_state == IdentityVisibilityAccessState::Degraded || item_access.access_state == IdentityVisibilityAccessState::Unavailable) ==> {
            &&& (r is Err <==> access_decision_defect(item_access, IdentityReadDispositionKind::Degraded))
            &&& (r is Ok ==> r.unwrap() == TraceItemOutcome::Stop(access_surface(item_access, IdentityReadDispositionKind::Degraded, None, true, decision_ref, decided_at)))
            &&& final(state).items@ == old(state).items@
            &&& final(state).denied_count == old(state).denied_count
            &&& final(state).denied_access == old(state).denied_access
            &&& final(state).partial_redaction_access == old(state).partial_redaction_access
        },
        // An admitted item joins the page when body-free, else stops it.
        access_admitted(item_access) ==> {
            &&& final(state).denied_count == old(state).denied_count
            &&& final(state).denied_access == old(state).denied_access
            &&& final(state).partial_redaction_access == (if old(state).partial_redaction_access is None && access_redacts(item_access) {
                Some(item_access) } else { old(state).partial_redaction_access })
            &&& read_material_body_free(record.read_material_marker.material_kind) ==> {
                &&& r == Ok::<TraceItemOutcome, ApplicationError>(TraceItemOutcome::Continue)
                &&& final(state).items@ == old(state).items@.push(trace_view_of(item_access, record))
            }
            &&& !read_material_body_free(record.read_material_marker.material_kind) ==> {
                &&& r == Ok::<TraceItemOutcome, ApplicationError>(TraceItemOutcome::ForbiddenMaterial(record.read_material_marker))
                &&& final(state).items@ == old(state).items@
            }
        },
{
    state.last_resolved_item_access = Some(item_access.clone());
    match item_access.access_state {
        IdentityVisibilityAccessState::NotVisible => {
            state.denied_count = state.denied_count + 1;
            if state.denied_access.is_none() {
                state.denied_access = Some(item_access.clone());
            }
            if state.partial_redaction_access.is_none() && item_access.redaction_marker_ref.is_some() {
                state.partial_redaction_access = Some(item_access);
            }
            Ok(TraceItemOutcome::Continue)
        },
        IdentityVisibilityAccessState::Degraded | IdentityVisibilityAccessState::Unavailable => {
            let surface = surface_from_access(&item_access, IdentityReadDispositionKind::Degraded, None, true, decision_ref, decided_at)?;
            Ok(TraceItemOutcome::Stop(surface))
        },
        IdentityVisibilityAccessState::Visible | IdentityVisibilityAccessState::Redacted => {
            if matches!(item_access.access_state, IdentityVisibilityAccessState::Redacted) && state.partial_redaction_access.is_none() {
                state.partial_redaction_access = Some(item_access.clone());
            }
            if record.assert_body_free().is_err() {
                return Ok(TraceItemOutcome::ForbiddenMaterial(record.read_material_marker));
            }
            let view = trace_record_view(&item_access, record);
            state.items.push(view);
            Ok(TraceItemOutcome::Continue)
        },
    }
}

/// The surface of a trace page whose listed items were all taken: not visible
/// when every item was hidden (under the first hidden item's access), redacted
/// with material found when some item was hidden or some access redacts
/// (under the first redacting access, else the selector's), else the list
/// success surface of the selector access.
pub open spec fn trace_page_surface_access(state_denied: usize, items_empty: bool, denied_access: Option<IdentityVisibilityAccessSummary>,
    partial_redaction_access: Option<IdentityVisibilityAccessSummary>, selector_access: IdentityVisibilityAccessSummary,
) -> (IdentityVisibilityAccessSummary, IdentityReadDispositionKind, bool) {
    if items_empty && state_denied > 0 {
        (if denied_access is Some { denied_access.unwrap() } else { selector_access }, IdentityReadDispositionKind::NotVisible, false)
    } else if state_denied > 0 || partial_redaction_access is Some {
        (if partial_redaction_access is Some { partial_redaction_access.unwrap() } else { selector_access }, IdentityReadDispositionKind::Redacted, true)
    } else {
        (selector_access, admitted_disposition(selector_access), true)
    }
}

/// Builds the surface of a trace page whose listed items were all taken.
pub fn trace_page_surface(
    state: &TracePageState,
    selector_access: &IdentityVisibilityAccessSummary,
    decision_ref: IdentityVisibilityDecisionRef,
    decided_at: IdentityTimestamp,
) -> (r: Result<IdentityQuerySurface, ApplicationError>)
    ensures
        ({
            let (a, d, found) = trace_page_surface_access(state.denied_count, state.items@.len() == 0,
                state.denied_access, state.partial_redaction_access, *selector_access);
            &&& (r is Err <==> access_decision_defect(a, d))
            &&& (r is Ok ==> r.unwrap() == access_surface(a, d, None, found, decision_ref, decided_at))
        }),
{
    if state.items.len() == 0 && state.denied_count > 0 {
        let access = match &state.denied_access {
            Some(access) => access,
            None => selector_access,
        };
        surface_from_access(access, IdentityReadDispositionKind::NotVisible, None, false, decision_ref, decided_at)
    } else if state.denied_count > 0 || state.partial_redaction_access.is_some() {
        let access = match &state.partial_redaction_access {
            Some(access) => access,
            None => selector_access,
        };
        surface_from_access(access, IdentityReadDispositionKind::Redacted, None, true, decision_ref, decided_at)
    } else {
        let disposition = admitted_read_disposition(selector_access);
        surface_from_access(selector_access, disposition, None, true, decision_ref, decided_at)
    }
}

/// The surface of an operations read that found what it read (or not): the
/// admitted surface of the access.
pub open spec fn operations_surface(
    access: IdentityVisibilityAccessSummary,
    found: bool,
    decision_ref: IdentityVisibilityDecisionRef,
    decided_at: IdentityTimestamp,
) -> IdentityQuerySurface {
    access_surface(access, admitted_disposition(access), None, found, decision_ref, decided_at)
}

/// Builds the surface of an operations read.
pub fn visible_surface_for_operations(
    access: &IdentityVisibilityAccessSummary,
    found: bool,
    decision_ref: IdentityVisibilityDecisionRef,
    decided_at: IdentityTimestamp,
) -> (r: Result<IdentityQuerySurface, ApplicationError>)
    ensures
        r is Err <==> access_decision_defect(*access, admitted_disposition(*access)),
        r matches Ok(s) ==> s == operations_surface(*access, found, decision_ref, decided_at),
        r matches Err(e) ==> e.kind == ApplicationErrorKind::ConsistencyDefect
            && e.message@ == access_decision_error_message(*access, admitted_disposition(*access)),
{
    let disposition = admitted_read_disposition(access);
    surface_from_access(access, disposition, None, found, decision_ref, decided_at)
}

/// The surface of an operations read whose material is degraded: the
/// operations surface, reported degraded, with no freshness marker.
pub open spec fn operations_degraded_surface(
    access: IdentityVisibilityAccessSummary,
    found: bool,
    decision_ref: IdentityVisibilityDecisionRef,
    decided_at: IdentityTimestamp,
) -> IdentityQuerySurface {
    let s = operations_surface(access, found, decision_ref, decided_at);
    IdentityQuerySurface {
        disposition: IdentityQueryDisposition::Degraded,
        visibility: IdentityVisibilityMarker { read_surface_kind: IdentityReadSurfaceKind::Degraded, ..s.visibility },
        projection_freshness_ref: None,
        ..s
    }
}

/// Builds the surface of an operations read whose material is degraded.
pub fn degraded_operations_surface(
    access: &IdentityVisibilityAccessSummary,
    found: bool,
    decision_ref: IdentityVisibilityDecisionRef,
    decided_at: IdentityTimestamp,
) -> (r: Result<IdentityQuerySurface, ApplicationError>)
    ensures
        r is Err <==> access_decision_defect(*access, admitted_disposition(*access)),
        r matches Ok(s) ==> s == operations_degraded_surface(*access, found, decision_ref, decided_at),
        r matches Err(e) ==> e.kind == ApplicationErrorKind::ConsistencyDefect
            && e.message@ == access_decision_error_message(*access, admitted_disposition(*access)),
{
    let mut surface = visible_surface_for_operations(access, found, decision_ref, decided_at)?;
    surface.disposition = IdentityQueryDisposition::Degraded;
    surface.visibility.read_surface_kind = IdentityReadSurfaceKind::Degraded;
    surface.projection_freshness_ref = None;
    Ok(surface)
}

/// The surface of a projection that is being rebuilt: the operations surface
/// with nothing found, reported rebuilding and read degraded, with neither
/// freshness nor degraded marker.
pub open spec fn operations_rebuilding_surface(
    access: IdentityVisibilityAccessSummary,
    decision_ref: IdentityVisibilityDecisionRef,
    decided_at: IdentityTimestamp,
) -> IdentityQuerySurface {
    let s = operations_surface(access, false, decision_ref, decided_at);
    IdentityQuerySurface {
        disposition: IdentityQueryDisposition::Rebuilding,
        visibility: IdentityVisibilityMarker { read_surface_kind: IdentityReadSurfaceKind::Degraded, ..s.visibility },
        projection_freshness_ref: None,
        degraded: None,
        ..s
    }
}

/// Builds the surface of a projection that is being rebuilt.
pub fn rebuilding_surface(
    access: &IdentityVisibilityAccessSummary,
    decision_ref: IdentityVisibilityDecisionRef,
    decided_at: IdentityTimestamp,
) -> (r: Result<IdentityQuerySurface, ApplicationError>)
    ensures
        r is Err <==> access_decision_defect(*access, admitted_disposition(*access)),
        r matches Ok(s) ==> s == operations_rebuilding_surface(*access, decision_ref, decided_at),
        r matches Err(e) ==> e.kind == ApplicationErrorKind::ConsistencyDefect
            && e.message@ == access_decision_error_message(*access, admitted_disposition(*access)),
{
    let mut surface = visible_surface_for_operations(access, false, decision_ref, decided_at)?;
    surface.disposition = IdentityQueryDisposition::Rebuilding;
    surface.visibility.read_surface_kind = IdentityReadSurfaceKind::Degraded;
    surface.projection_freshness_ref = None;
    surface.degraded = None;
    Ok(surface)
}

/// The public view of a projection state read under an access.
pub open spec fn projection_view_of(access: IdentityVisibilityAccessSummary, state: ProjectionState) -> ProjectionStateView {
    ProjectionStateView {
        projection_state_ref: Some(state.projection_state_ref),
        projection_ref: state.projection_ref,
        member_ref: state.member_ref,
        state_kind: Some(public_projection_kind(state.state_kind)),
        source_cursor_ref: state.source_cursor_ref,
        maintenance_scope_ref: state.maintenance_scope_ref,
        issue_ref: state.issue_ref,
        checked_at: Some(state.checked_at),
        visibility_result_ref: access.visibility_result_ref,
    }
}

/// Builds the public view of a projection state read under an access.
pub fn projection_state_view(access: &IdentityVisibilityAccessSummary, state: &ProjectionState) -> (r: ProjectionStateView)
    ensures
        r == projection_view_of(*access, *state),
{
    ProjectionStateView {
        projection_state_ref: Some(state.projection_state_ref.clone()),
        projection_ref: state.projection_ref.clone(),
        member_ref: state.member_ref.clone(),
        state_kind: Some(map_projection_state_kind(state.state_kind)),
        source_cursor_ref: state.source_cursor_ref.clone(),
        maintenance_scope_ref: state.maintenance_scope_ref.clone(),
        issue_ref: state.issue_ref.clone(),
        checked_at: Some(state.checked_at),
        visibility_result_ref: access.visibility_result_ref.clone(),
    }
}

/// Whether a requested projection state ref names the loaded state (no
/// request names any).
pub open spec fn projection_state_ref_named(requested: Option<ProjectionStateRef>, state: ProjectionState) -> bool {
    requested is None || requested.unwrap().projection_state_id@ == state.projection_state_ref.projection_state_id@
}

/// Returns whether a requested projection state ref names the loaded state.
pub fn projection_state_ref_matches(requested: &Option<ProjectionStateRef>, state: &ProjectionState) -> (r: bool)
    ensures
        r == projection_state_ref_named(*requested, *state),
{
    match requested {
        None => true,
        Some(requested) => requested.projection_state_id == state.projection_state_ref.projection_state_id,
    }
}

/// Next step of a projection state read.
#[derive(Debug, Eq, PartialEq)]
pub enum ProjectionStateReadStep {
    /// The read is answered with this response.
    Respond(IdentityQueryResponse<ProjectionStateView>),
    /// The requested state ref does not name the loaded state.
    StateRefMismatch,
}

/// Decides a projection state read from what the visibility and projection
/// reads returned: the access to the requested projection, the loaded state
/// (absent when none is stored), the requested state ref, and the access to
/// the loaded state (absent when it could not be resolved). The access gates
/// first; a missing state reads missing; a state that the request does not
/// name is a mismatch; the loaded state's access gates next; then a fresh or
/// rebuilt state reads visible, a stale one stale-visible with its freshness
/// marker, one pending rebuild reads rebuilding without body, and a degraded
/// or failed one degraded.
pub fn decide_projection_state_read(
    query_name: IdentityQueryName,
    access: &IdentityVisibilityAccessSummary,
    loaded: Option<ProjectionState>,
    requested_state_ref: &Option<ProjectionStateRef>,
    final_access: Option<IdentityVisibilityAccessSummary>,
    decision_ref: IdentityVisibilityDecisionRef,
    decided_at: IdentityTimestamp,
) -> (r: Result<ProjectionStateReadStep, ApplicationError>)
    ensures
        !access_admitted(*access) ==> {
            &&& (r is Err <==> access_decision_defect(*access, gate_disposition(*access)))
            &&& (r is Ok ==> r.unwrap() == ProjectionStateReadStep::Respond(bodiless_response(
                query_name, access_surface(*access, gate_disposition(*access), None, false, decision_ref, decided_at))))
        },
        access_admitted(*access) && loaded is None ==> {
            &&& (r is Err <==> access_decision_defect(*access, admitted_disposition(*access)))
            &&& (r is Ok ==> r.unwrap() == ProjectionStateReadStep::Respond(bodiless_response(
                query_name, absent_surface(*access, true, decision_ref, decided_at))))
        },
        access_admitted(*access) && loaded is Some && !projection_state_ref_named(*requested_state_ref, loaded.unwrap())
            ==> r == Ok::<ProjectionStateReadStep, ApplicationError>(ProjectionStateReadStep::StateRefMismatch),
        access_admitted(*access) && loaded is Some && projection_state_ref_named(*requested_state_ref, loaded.unwrap()) ==> {
            &&& final_access is None ==> r is Err && r->Err_0.kind == ApplicationErrorKind::InvalidRequest
            &&& final_access is Some && !access_admitted(final_access.unwrap()) ==> {
                &&& (r is Err <==> access_decision_defect(final_access.unwrap(), gate_disposition(final_access.unwrap())))
                &&& (r is Ok ==> r.unwrap() == ProjectionStateReadStep::Respond(bodiless_response(
                    query_name, access_surface(final_access.unwrap(), gate_disposition(final_access.unwrap()), None, false, decision_ref, decided_at))))
            }
            &&& final_access is Some && access_admitted(final_access.unwrap()) ==> {
                let fa = final_access.unwrap();
                let state = loaded.unwrap();
                &&& (state.state_kind == ProjectionStateKind::Fresh || state.state_kind == ProjectionStateKind::Rebuilt) ==> {
                    &&& (r is Err <==> access_decision_defect(fa, admitted_disposition(fa)))
                    &&& (r is Ok ==> r.unwrap() == ProjectionStateReadStep::Respond(IdentityQueryResponse {
                        query_name, surface: operations_surface(fa, true, decision_ref, decided_at), body: Some(projection_view_of(fa, state)) }))
                }
                &&& state.state_kind == ProjectionStateKind::Stale ==> {
                    &&& r is Ok && r.unwrap() is Respond
                    &&& r.unwrap()->Respond_0.body == Some(projection_view_of(fa, state))
                    &&& r.unwrap()->Respond_0.query_name == query_name
                    &&& r.unwrap()->Respond_0.surface.projection_freshness_ref is Some
                    &&& r.unwrap()->Respond_0.surface.projection_freshness_ref.unwrap().projection_ref == state.projection_ref
                    &&& r.unwrap()->Respond_0.surface.projection_freshness_ref.unwrap().state_kind@ == projection_state_token(state.state_kind)
                    &&& r.unwrap()->Respond_0.surface == access_surface(fa, IdentityReadDispositionKind::StaleVisible,
                        r.unwrap()->Respond_0.surface.projection_freshness_ref, true, decision_ref, decided_at)
                }
                &&& state.state_kind == ProjectionStateKind::RebuildPending ==> {
                    &&& (r is Err <==> access_decision_defect(fa, admitted_disposition(fa)))
                    &&& (r is Ok ==> r.unwrap() == ProjectionStateReadStep::Respond(bodiless_response(
                        query_name, operations_rebuilding_surface(fa, decision_ref, decided_at))))
                }
                &&& (state.state_kind == ProjectionStateKind::Degraded || state.state_kind == ProjectionStateKind::RebuildFailed) ==> {
                    &&& (r is Err <==> access_decision_defect(fa, admitted_disposition(fa)))
                    &&& (r is Ok ==> r.unwrap() == ProjectionStateReadStep::Respond(IdentityQueryResponse {
                        query_name, surface: operations_degraded_surface(fa, true, decision_ref, decided_at), body: Some(projection_view_of(fa, state)) }))
                }
            }
        },
{
    if !admits_read(access) {
        let disposition = if matches!(access.access_state, IdentityVisibilityAccessState::NotVisible) {
            IdentityReadDispositionKind::NotVisible
        } else {
            IdentityReadDispositionKind::Degraded
        };
        let surface = surface_from_access(access, disposition, None, false, decision_ref, decided_at)?;
        return Ok(ProjectionStateReadStep::Respond(IdentityQueryResponse { query_name, surface, body: None }));
    }
    let state = match loaded {
        Some(state) => state,
        None => {
            let surface = absent_surface_from_access(access, true, decision_ref, decided_at)?;
            return Ok(ProjectionStateReadStep::Respond(IdentityQueryResponse { query_name, surface, body: None }));
        },
    };
    if !projection_state_ref_matches(requested_state_ref, &state) {
        return Ok(ProjectionStateReadStep::StateRefMismatch);
    }
    let final_access = match final_access {
        Some(final_access) => final_access,
        None => {
            return Err(ApplicationError::invalid_request("projection state read visibility could not form a canonical loaded subject"));
        },
    };
    if !admits_read(&final_access) {
        let disposition = if matches!(final_access.access_state, IdentityVisibilityAccessState::NotVisible) {
            IdentityReadDispositionKind::NotVisible
        } else {
            IdentityReadDispositionKind::Degraded
        };
        let surface = surface_from_access(&final_access, disposition, None, false, decision_ref, decided_at)?;
        return Ok(ProjectionStateReadStep::Respond(IdentityQueryResponse { query_name, surface, body: None }));
    }
    let body = projection_state_view(&final_access, &state);
    let (surface, body) = match state.state_kind {
        ProjectionStateKind::Fresh | ProjectionStateKind::Rebuilt => {
            (visible_surface_for_operations(&final_access, true, decision_ref, decided_at)?, Some(body))
        },
        ProjectionStateKind::Stale => {
            let marker = projection_freshness_marker(&state);
            (surface_from_access(&final_access, IdentityReadDispositionKind::StaleVisible, Some(marker), true, decision_ref, decided_at)?, Some(body))
        },
        ProjectionStateKind::RebuildPending => (rebuilding_surface(&final_access, decision_ref, decided_at)?, None),
        ProjectionStateKind::Degraded | ProjectionStateKind::RebuildFailed => {
            (degraded_operations_surface(&final_access, true, decision_ref, decided_at)?, Some(body))
        },
    };
    Ok(ProjectionStateReadStep::Respond(IdentityQueryResponse { query_name, surface, body }))
}

/// The public view of a reconciliation report read under an access.
pub open spec fn report_view_of(access: IdentityVisibilityAccessSummary, report: ReconciliationReport) -> ReconciliationReportView {
    ReconciliationReportView {
        report_ref: report.report_ref,
        maintenance_scope_ref: report.maintenance_scope_ref,
        target_refs: report.target_refs,
        finding_refs: report.finding_refs,
        issue_refs: report.issue_refs,
        report_state: public_report_kind(report.report_state),
        generated_by_ref: report.generated_by_ref,
        generated_at: report.generated_at,
        visibility_result_ref: access.visibility_result_ref,
    }
}

/// Builds the public view of a reconciliation report read under an access.
pub fn reconciliation_report_view(access: &IdentityVisibilityAccessSummary, report: ReconciliationReport) -> (r: ReconciliationReportView)
    ensures
        r == report_view_of(*access, report),
{
    ReconciliationReportView {
        report_ref: report.report_ref,
        maintenance_scope_ref: report.maintenance_scope_ref,
        target_refs: report.target_refs,
        finding_refs: report.finding_refs,
        issue_refs: report.issue_refs,
        report_state: map_reconciliation_report_state_kind(report.report_state),
        generated_by_ref: report.generated_by_ref,
        generated_at: report.generated_at,
        visibility_result_ref: access.visibility_result_ref.clone(),
    }
}

/// Running visibility state of an operations page (reconciliation reports,
/// outbox records): how many items the consumer may not see, the first
/// hidden item's access, and the first redacting access.
pub struct OperationsPageState {
    /// Number of listed items hidden from the consumer.
    pub denied_count: usize,
    /// Access of the first hidden item.
    pub denied_access: Option<IdentityVisibilityAccessSummary>,
    /// First redacting item access.
    pub partial_redaction_access: Option<IdentityVisibilityAccessSummary>,
}

/// Starts an operations page with nothing hidden or redacted.
pub fn operations_page_start() -> (r: OperationsPageState)
    ensures
        r.denied_count == 0,
        r.denied_access is None,
        r.partial_redaction_access is None,
{
    OperationsPageState { denied_count: 0, denied_access: None, partial_redaction_access: None }
}

/// What an item access lets an operations page do with the item.
#[derive(Debug, Eq, PartialEq)]
pub enum OperationsItemGate {
    /// The item may be read.
    Admit,
    /// The item is hidden and skipped.
    Skip,
    /// The item's access degrades the page, which stops with this surface.
    Stop(IdentityQuerySurface),
}

/// Gates one item of an operations page by its access: a hidden item is
/// skipped and counted, its access kept if first; a degraded or unavailable
/// access stops the page with a degraded operations surface of nothing found;
/// a redacting access is kept if first and admits the item, as a visible one
/// does.
pub fn operations_item_gate(
    state: &mut OperationsPageState,
    item_access: &IdentityVisibilityAccessSummary,
    decision_ref: IdentityVisibilityDecisionRef,
    decided_at: IdentityTimestamp,
) -> (r: Result<OperationsItemGate, ApplicationError>)
    requires
        old(state).denied_count < usize::MAX,
    ensures
        item_access.access_state == IdentityVisibilityAccessState::NotVisible ==> {
            &&& r == Ok::<OperationsItemGate, ApplicationError>(OperationsItemGate::Skip)
            &&& final(state).denied_count == old(state).denied_count + 1
            &&& final(state).denied_access == (if old(state).denied_access is Some { old(state).denied_access } else { Some(*item_access) })
            &&& final(state).partial_redaction_access == old(state).partial_redaction_access
        },
        (item_access.access_state == IdentityVisibilityAccessState::Degraded || item_access.access_state == IdentityVisibilityAccessState::Unavailable) ==> {
            &&& (r is Err <==> access_decision_defect(*item_access, admitted_disposition(*item_access)))
            &&& (r is Ok ==> r.unwrap() == OperationsItemGate::Stop(operations_degraded_surface(*item_access, false, decision_ref, decided_at)))
            &&& *final(state) == *old(state)
        },
        access_admitted(*item_access) ==> {
            &&& r == Ok::<OperationsItemGate, ApplicationError>(OperationsItemGate::Admit)
            &&& final(state).denied_count == old(state).denied_count
            &&& final(state).denied_access == old(state).denied_access
            &&& final(state).partial_redaction_access == (if old(state).partial_redaction_access is None && access_redacts(*item_access) {
                Some(*item_access) } else { old(state).partial_redaction_access })
        },
{
    match item_access.access_state {
        IdentityVisibilityAccessState::NotVisible => {
            state.denied_count = state.denied_count + 1;
            if state.denied_access.is_none() {
                state.denied_access = Some(item_access.clone());
            }
            Ok(OperationsItemGate::Skip)
        },
        IdentityVisibilityAccessState::Degraded | IdentityVisibilityAccessState::Unavailable => {
            let surface = degraded_operations_surface(item_access, false, decision_ref, decided_at)?;
            Ok(OperationsItemGate::Stop(surface))
        },
        IdentityVisibilityAccessState::Redacted => {
            if state.partial_redaction_access.is_none() {
                state.partial_redaction_access = Some(item_access.clone());
            }
            Ok(OperationsItemGate::Admit)
        },
        IdentityVisibilityAccessState::Visible => Ok(OperationsItemGate::Admit),
    }
}

/// The access, disposition, and found flag of an operations page whose listed
/// items were all taken: not visible when every item was hidden (under the
/// first hidden access, else the selector's); redacted with material found
/// when some item was hidden or some access redacts (under the first
/// redacting access, else the first hidden one, else the selector's); else
/// the admitted disposition of the selector with material found.
pub open spec fn operations_page_surface_access(state: OperationsPageState, items_empty: bool, selector_access: IdentityVisibilityAccessSummary)
    -> (IdentityVisibilityAccessSummary, IdentityReadDispositionKind, bool) {
    if items_empty && state.denied_count > 0 {
        (if state.denied_access is Some { state.denied_access.unwrap() } else { selector_access }, IdentityReadDispositionKind::NotVisible, false)
    } else if state.denied_count > 0 || state.partial_redaction_access is Some {
        (if state.partial_redaction_access is Some { state.partial_redaction_access.unwrap() }
            else if state.denied_access is Some { state.denied_access.unwrap() } else { selector_access },
            IdentityReadDispositionKind::Redacted, true)
    } else {
        (selector_access, admitted_disposition(selector_access), true)
    }
}

/// Builds the surface of an operations page whose listed items were all taken.
pub fn operations_page_surface(
    state: &OperationsPageState,
    items_empty: bool,
    selector_access: &IdentityVisibilityAccessSummary,
    decision_ref: IdentityVisibilityDecisionRef,
    decided_at: IdentityTimestamp,
) -> (r: Result<IdentityQuerySurface, ApplicationError>)
    ensures
        ({
            let (a, d, found) = operations_page_surface_access(*state, items_empty, *selector_access);
            &&& (r is Err <==> access_decision_defect(a, d))
            &&& (r is Err ==> r->Err_0.kind == ApplicationErrorKind::ConsistencyDefect)
            &&& (r is Ok ==> r.unwrap() == access_surface(a, d, None, found, decision_ref, decided_at))
        }),
{
    if items_empty && state.denied_count > 0 {
        let access = match &state.denied_access {
            Some(access) => access,
            None => selector_access,
        };
        surface_from_access(access, IdentityReadDispositionKind::NotVisible, None, false, decision_ref, decided_at)
    } else if state.denied_count > 0 || state.partial_redaction_access.is_some() {
        let access = match &state.partial_redaction_access {
            Some(access) => access,
            None => match &state.denied_access {
                Some(access) => access,
                None => selector_access,
            },
        };
        surface_from_access(access, IdentityReadDispositionKind::Redacted, None, true, decision_ref, decided_at)
    } else {
        let disposition = admitted_read_disposition(selector_access);
        surface_from_access(selector_access, disposition, None, true, decision_ref, decided_at)
    }
}

/// Selector of an outbox listing, with the filter a loaded record must meet.
#[derive(Debug, Eq, PartialEq)]
pub enum OutboxListFilter {
    /// Records pending publication, optionally on one topic.
    Pending(Option<TopicKeyRef>),
    /// Records that may be retried, optionally on one topic.
    Retryable(Option<TopicKeyRef>),
    /// Records of one outbox subject (a subject or a member's subject).
    Subject(IdentityOutboxSubjectRef),
    /// Records of one trace.
    Trace(IdentityTraceRecordRef),
}

/// Whether a loaded outbox record meets the filter of its listing.
pub open spec fn outbox_filter_met(filter: OutboxListFilter, record: IdentityOutboxRecord) -> bool {
    match filter {
        OutboxListFilter::Pending(topic) => record.outbox_state.state_kind == OutboxStateKind::PendingPublish
            && (topic is None || record.topic_key_ref@ == topic.unwrap()@),
        OutboxListFilter::Retryable(topic) => record.outbox_state.state_kind == OutboxStateKind::RetryableFailed
            && (topic is None || record.topic_key_ref@ == topic.unwrap()@),
        OutboxListFilter::Subject(subject) => record.subject_ref@ == subject@,
        OutboxListFilter::Trace(trace) => record.trace_record_ref@ == trace@,
    }
}

/// Returns whether a loaded outbox record meets the filter of its listing.
pub fn outbox_selector_matches(filter: &OutboxListFilter, record: &IdentityOutboxRecord) -> (r: bool)
    ensures
        r == outbox_filter_met(*filter, *record),
{
    match filter {
        OutboxListFilter::Pending(topic) => {
            record.outbox_state.state_kind == OutboxStateKind::PendingPublish && match topic {
                Some(topic) => record.topic_key_ref == *topic,
                None => true,
            }
        },
        OutboxListFilter::Retryable(topic) => {
            record.is_retryable() && match topic {
                Some(topic) => record.topic_key_ref == *topic,
                None => true,
            }
        },
        OutboxListFilter::Subject(subject) => record.subject_ref == *subject,
        OutboxListFilter::Trace(trace) => record.trace_record_ref == *trace,
    }
}

/// Check of the member summary view joined with a truth read, once the
/// stable lookup named one.
#[derive(Debug, Eq, PartialEq)]
pub enum MemberSummarySliceStep {
    /// The view may be joined.
    Slice(MemberSummaryView),
    /// The named view's material is gone.
    ViewMissing,
    /// The view belongs to another member.
    ViewInvalidOwner,
    /// The view was built for another scope.
    ViewScopeMismatch,
    /// The view carries material that is not body-free.
    ForbiddenMaterial(IdentityReadMaterialMarker),
}

/// The check of the member summary view a truth read joins: missing, of
/// another member, of another scope, not body-free, or joinable.
pub open spec fn member_summary_slice_step_of(
    access: IdentityVisibilityAccessSummary,
    member_ref: GlobalMemberRef,
    view: Option<MemberSummaryView>,
) -> MemberSummarySliceStep {
    match view {
        None => MemberSummarySliceStep::ViewMissing,
        Some(v) => if v.member_ref.member_id@ != member_ref.member_id@ {
            MemberSummarySliceStep::ViewInvalidOwner
        } else if v.visibility_scope_ref@ != access.scope_ref@ {
            MemberSummarySliceStep::ViewScopeMismatch
        } else if !read_material_body_free(v.read_material_marker.material_kind) {
            MemberSummarySliceStep::ForbiddenMaterial(v.read_material_marker)
        } else {
            MemberSummarySliceStep::Slice(v)
        },
    }
}

/// Checks the member summary view a truth read joins: it must exist, belong
/// to the member, match the access's scope, and be body-free, checked in
/// that order.
pub fn member_summary_slice_step(
    access: &IdentityVisibilityAccessSummary,
    member_ref: &GlobalMemberRef,
    view: Option<MemberSummaryView>,
) -> (r: MemberSummarySliceStep)
    ensures
        r == member_summary_slice_step_of(*access, *member_ref, view),
{
    let view = match view {
        Some(view) => view,
        None => {
            return MemberSummarySliceStep::ViewMissing;
        },
    };
    if !view.belongs_to(member_ref) {
        return MemberSummarySliceStep::ViewInvalidOwner;
    }
    if !view.matches_visibility_scope(&access.scope_ref) {
        return MemberSummarySliceStep::ViewScopeMismatch;
    }
    if view.assert_body_free().is_err() {
        return MemberSummarySliceStep::ForbiddenMaterial(view.read_material_marker.clone());
    }
    MemberSummarySliceStep::Slice(view)
}

/// Surface of a truth read, or the defect that a stale joined view carries no
/// freshness marker.
#[derive(Debug, Eq, PartialEq)]
pub enum TruthSurfaceStep {
    /// The read's surface.
    Surface(IdentityQuerySurface),
    /// The joined view reads stale or degraded but carries no freshness marker.
    MissingFreshness,
}

/// Whether a member summary view reads stale or degraded.
pub open spec fn view_stale_or_degraded(view: MemberSummaryView) -> bool {
    view.read_surface_kind == IdentityReadSurfaceKind::Stale || view.read_surface_kind == IdentityReadSurfaceKind::Degraded
}

/// Builds the surface of a truth read joined with an optional member summary
/// view: a stale or degraded view makes the read stale-visible with the
/// view's freshness marker, or is a defect without one; otherwise the read
/// takes the admitted surface of the access.
pub fn surface_for_truth_query(
    access: &IdentityVisibilityAccessSummary,
    view: &Option<MemberSummaryView>,
    found: bool,
    decision_ref: IdentityVisibilityDecisionRef,
    decided_at: IdentityTimestamp,
) -> (r: Result<TruthSurfaceStep, ApplicationError>)
    ensures
        view is Some && view_stale_or_degraded(view.unwrap()) ==> {
            &&& view.unwrap().projection_freshness_ref is None
                ==> r == Ok::<TruthSurfaceStep, ApplicationError>(TruthSurfaceStep::MissingFreshness)
            &&& view.unwrap().projection_freshness_ref is Some
                ==> r == Ok::<TruthSurfaceStep, ApplicationError>(TruthSurfaceStep::Surface(access_surface(
                    *access, IdentityReadDispositionKind::StaleVisible, view.unwrap().projection_freshness_ref, found, decision_ref, decided_at)))
        },
        !(view is Some && view_stale_or_degraded(view.unwrap())) ==> {
            &&& (r is Err <==> access_decision_defect(*access, admitted_disposition(*access)))
            &&& (r is Ok ==> r.unwrap() == TruthSurfaceStep::Surface(access_surface(
                *access, admitted_disposition(*access), None, found, decision_ref, decided_at)))
            &&& (r is Err ==> r->Err_0.kind == ApplicationErrorKind::ConsistencyDefect
                && r->Err_0.message@ == access_decision_error_message(*access, admitted_disposition(*access)))
        },
{
    match view {
        Some(view) => {
            if view.is_stale_or_degraded() {
                match &view.projection_freshness_ref {
                    Some(marker) => {
                        let surface = surface_from_access(access, IdentityReadDispositionKind::StaleVisible, Some(marker.clone()), found, decision_ref, decided_at)?;
                        return Ok(TruthSurfaceStep::Surface(surface));
                    },
                    None => {
                        return Ok(TruthSurfaceStep::MissingFreshness);
                    },
                }
            }
        },
        None => {},
    }
    let disposition = admitted_read_disposition(access);
    let surface = surface_from_access(access, disposition, None, found, decision_ref, decided_at)?;
    Ok(TruthSurfaceStep::Surface(surface))
}

/// The degraded surface an access gives with a chosen read surface kind and
/// degraded kind: the access's degraded surface (material found when the
/// chosen kind reads found), reading as chosen, its degraded shell carrying
/// the chosen degraded kind.
pub open spec fn access_degraded_surface(
    access: IdentityVisibilityAccessSummary,
    read_surface_kind: IdentityReadSurfaceKind,
    degraded_kind: IdentityDegradedKind,
    decision_ref: IdentityVisibilityDecisionRef,
    decided_at: IdentityTimestamp,
) -> IdentityQuerySurface {
    let s = access_surface(access, IdentityReadDispositionKind::Degraded, None,
        read_surface_kind == IdentityReadSurfaceKind::Found, decision_ref, decided_at);
    IdentityQuerySurface {
        visibility: IdentityVisibilityMarker { read_surface_kind, ..s.visibility },
        degraded: match s.degraded {
            Some(d) => Some(IdentityDegradedMarker { degraded_kind, ..d }),
            None => None,
        },
        ..s
    }
}

/// Builds the degraded surface an access gives with a chosen read surface
/// kind and degraded kind.
pub fn degraded_surface_from_access(
    access: &IdentityVisibilityAccessSummary,
    read_surface_kind: IdentityReadSurfaceKind,
    degraded_kind: IdentityDegradedKind,
    decision_ref: IdentityVisibilityDecisionRef,
    decided_at: IdentityTimestamp,
) -> (r: Result<IdentityQuerySurface, ApplicationError>)
    ensures
        r is Err <==> access_decision_defect(*access, IdentityReadDispositionKind::Degraded),
        r matches Ok(s) ==> s == access_degraded_surface(*access, read_surface_kind, degraded_kind, decision_ref, decided_at),
        r matches Err(e) ==> e.kind == ApplicationErrorKind::ConsistencyDefect
            && e.message@ == access_decision_error_message(*access, IdentityReadDispositionKind::Degraded),
{
    let found = matches!(read_surface_kind, IdentityReadSurfaceKind::Found);
    let mut surface = surface_from_access(access, IdentityReadDispositionKind::Degraded, None, found, decision_ref, decided_at)?;
    surface.visibility.read_surface_kind = read_surface_kind;
    surface.degraded = match surface.degraded {
        Some(d) => Some(IdentityDegradedMarker { degraded_marker_ref: d.degraded_marker_ref, degraded_kind }),
        None => None,
    };
    Ok(surface)
}

/// Whether a role capability summary or its snapshot makes the read stale:
/// a stale, unavailable, or unrecognized snapshot, or a stale, unavailable,
/// or reconciliation-pending summary.
pub open spec fn role_read_stale(summary_state: RoleCapabilitySummaryStateKind, source_state: RoleCapabilitySourceStateKind) -> bool {
    ||| source_state == RoleCapabilitySourceStateKind::SourceStale
    ||| source_state == RoleCapabilitySourceStateKind::SourceUnavailable
    ||| source_state == RoleCapabilitySourceStateKind::SourceUnrecognized
    ||| summary_state == RoleCapabilitySummaryStateKind::Stale
    ||| summary_state == RoleCapabilitySummaryStateKind::Unavailable
    ||| summary_state == RoleCapabilitySummaryStateKind::PendingReconciliation
}

/// The degraded kind of a stale role read: an unavailable source when the
/// snapshot or the summary is unavailable, a stale projection otherwise.
pub open spec fn role_read_degraded_kind(summary_state: RoleCapabilitySummaryStateKind, source_state: RoleCapabilitySourceStateKind) -> IdentityDegradedKind {
    if source_state == RoleCapabilitySourceStateKind::SourceUnavailable || summary_state == RoleCapabilitySummaryStateKind::Unavailable {
        IdentityDegradedKind::SourceUnavailable
    } else {
        IdentityDegradedKind::ProjectionStale
    }
}

/// Builds the surface of a role capability summary read: a stale read
/// degrades, reading stale with its degraded kind; any other read takes the
/// truth-read surface of the joined view.
pub fn role_capability_surface(
    access: &IdentityVisibilityAccessSummary,
    summary: &RoleCapabilitySummary,
    snapshot: &RoleCapabilitySourceSnapshot,
    view: &Option<MemberSummaryView>,
    decision_ref: IdentityVisibilityDecisionRef,
    decided_at: IdentityTimestamp,
) -> (r: Result<TruthSurfaceStep, ApplicationError>)
    ensures
        role_read_stale(summary.summary_state, snapshot.source_state) ==> {
            &&& (r is Err <==> access_decision_defect(*access, IdentityReadDispositionKind::Degraded))
            &&& (r is Ok ==> r.unwrap() == TruthSurfaceStep::Surface(access_degraded_surface(*access, IdentityReadSurfaceKind::Stale,
                role_read_degraded_kind(summary.summary_state, snapshot.source_state), decision_ref, decided_at)))
        },
        !role_read_stale(summary.summary_state, snapshot.source_state) && view is Some && view_stale_or_degraded(view.unwrap()) ==> {
            &&& view.unwrap().projection_freshness_ref is None
                ==> r == Ok::<TruthSurfaceStep, ApplicationError>(TruthSurfaceStep::MissingFreshness)
            &&& view.unwrap().projection_freshness_ref is Some
                ==> r == Ok::<TruthSurfaceStep, ApplicationError>(TruthSurfaceStep::Surface(access_surface(
                    *access, IdentityReadDispositionKind::StaleVisible, view.unwrap().projection_freshness_ref, true, decision_ref, decided_at)))
        },
        !role_read_stale(summary.summary_state, snapshot.source_state) && !(view is Some && view_stale_or_degraded(view.unwrap())) ==> {
            &&& (r is Err <==> access_decision_defect(*access, admitted_disposition(*access)))
            &&& (r is Ok ==> r.unwrap() == TruthSurfaceStep::Surface(access_surface(
                *access, admitted_disposition(*access), None, view is Some, decision_ref, decided_at)))
        },
{
    let stale = role_snapshot_is_stale_or_unavailable(snapshot) || matches!(
        summary.summary_state,
        RoleCapabilitySummaryStateKind::Stale | RoleCapabilitySummaryStateKind::Unavailable | RoleCapabilitySummaryStateKind::PendingReconciliation
    );
    if stale {
        let degraded_kind = if matches!(snapshot.source_state, RoleCapabilitySourceStateKind::SourceUnavailable)
            || matches!(summary.summary_state, RoleCapabilitySummaryStateKind::Unavailable) {
            IdentityDegradedKind::SourceUnavailable
        } else {
            IdentityDegradedKind::ProjectionStale
        };
        let surface = degraded_surface_from_access(access, IdentityReadSurfaceKind::Stale, degraded_kind, decision_ref, decided_at)?;
        return Ok(TruthSurfaceStep::Surface(surface));
    }
    surface_for_truth_query(access, view, view.is_some(), decision_ref, decided_at)
}

/// The public role capability summary view of a read under an access,
/// joined with an optional member summary view: the summary's identity,
/// member, state, and snapshot with the snapshot's state always; the role
/// source, capability sources, evidence, and safe summary only when the
/// access does not redact; the joined view's ref and role capability slices.
pub open spec fn role_view_fields_of(
    access: IdentityVisibilityAccessSummary,
    summary: RoleCapabilitySummary,
    snapshot: RoleCapabilitySourceSnapshot,
    view: Option<MemberSummaryView>,
    r: RoleCapabilitySummaryView,
) -> bool {
    &&& r.member_ref == summary.member_ref
    &&& r.summary_ref == summary.summary_ref
    &&& r.summary_state_kind == public_role_summary_kind(summary.summary_state)
    &&& r.source_snapshot_ref == summary.source_snapshot_ref
    &&& r.source_state_kind == Some(public_role_source_kind(snapshot.source_state))
    &&& r.role_source_ref == shown(access, summary.role_source_ref)
    &&& r.capability_source_refs@ =~= (if access_redacts(access) { Seq::empty() } else { summary.capability_source_refs@ })
    &&& r.evidence_refs@ =~= (if access_redacts(access) { Seq::empty() } else { summary.evidence_refs@ })
    &&& r.safe_summary_ref == shown(access, Some(summary.safe_summary_ref))
    &&& r.member_summary_view_ref == (match view { Some(v) => Some(v.view_ref), None => None })
    &&& r.role_capability_slice_refs@ =~= (match view { Some(v) => v.role_capability_slice_refs@, None => Seq::empty() })
}

/// Builds the public role capability summary view of a read under an access,
/// joined with an optional member summary view: the summary's identity,
/// member, state, and snapshot with the snapshot's state always; the role
/// source, capability sources, evidence, and safe summary only when the
/// access does not redact; the joined view's ref and role capability slices.
pub fn role_capability_summary_view(
    access: &IdentityVisibilityAccessSummary,
    summary: &RoleCapabilitySummary,
    snapshot: &RoleCapabilitySourceSnapshot,
    view: &Option<MemberSummaryView>,
) -> (r: RoleCapabilitySummaryView)
    ensures
        role_view_fields_of(*access, *summary, *snapshot, *view, r),
{
    let capability_source_refs = summary.capability_source_refs.clone();
    proof {
        assert(capability_source_refs@ =~= summary.capability_source_refs@);
    }
    let evidence_refs = summary.evidence_refs.clone();
    proof {
        assert(evidence_refs@ =~= summary.evidence_refs@);
    }
    let (member_summary_view_ref, role_capability_slice_refs) = match view {
        Some(v) => {
            let slices = v.role_capability_slice_refs.clone();
            proof {
                assert(slices@ =~= v.role_capability_slice_refs@);
            }
            (Some(v.view_ref.clone()), slices)
        },
        None => (None, Vec::new()),
    };
    RoleCapabilitySummaryView {
        member_ref: summary.member_ref.clone(),
        summary_ref: summary.summary_ref.clone(),
        summary_state_kind: map_role_summary_state_kind(summary.summary_state),
        source_snapshot_ref: summary.source_snapshot_ref.clone(),
        source_state_kind: Some(map_role_source_state_kind(snapshot.source_state)),
        role_source_ref: maybe_hide_on_redaction(access, summary.role_source_ref.clone()),
        capability_source_refs: maybe_hide_vec_on_redaction(access, capability_source_refs),
        evidence_refs: maybe_hide_vec_on_redaction(access, evidence_refs),
        safe_summary_ref: maybe_hide_on_redaction(access, Some(summary.safe_summary_ref.clone())),
        member_summary_view_ref,
        role_capability_slice_refs,
    }
}

/// The public anchor view of a member read under an access, joined with an
/// optional member summary view: the anchor always, the establishing source
/// only when the access does not redact, the joined view's ref and anchor
/// slice.
pub open spec fn anchor_view_of(access: IdentityVisibilityAccessSummary, member: GlobalMember, view: Option<MemberSummaryView>) -> GlobalMemberAnchorView {
    GlobalMemberAnchorView {
        member_ref: member.member_ref,
        anchor_state_kind: match member.anchor_state.state_kind {
            IdentityAnchorStateKind::Established => PublicAnchorStateKind::Established,
            IdentityAnchorStateKind::RetiredHeld => PublicAnchorStateKind::RetiredHeld,
            IdentityAnchorStateKind::TombstoneHeld => PublicAnchorStateKind::TombstoneHeld,
        },
        anchor_reason_ref: member.anchor_state.reason_ref,
        anchor_changed_at: member.anchor_state.changed_at,
        source_ref: shown(access, Some(member.source_ref)),
        member_summary_view_ref: match view { Some(v) => Some(v.view_ref), None => None },
        anchor_slice_ref: match view { Some(v) => Some(v.anchor_slice_ref), None => None },
    }
}

/// Builds the public anchor view of a member read under an access.
pub fn member_anchor_view(access: &IdentityVisibilityAccessSummary, member: &GlobalMember, view: &Option<MemberSummaryView>) -> (r: GlobalMemberAnchorView)
    ensures
        r == anchor_view_of(*access, *member, *view),
{
    let (member_summary_view_ref, anchor_slice_ref) = match view {
        Some(v) => (Some(v.view_ref.clone()), Some(v.anchor_slice_ref.clone())),
        None => (None, None),
    };
    GlobalMemberAnchorView {
        member_ref: member.member_ref.clone(),
        anchor_state_kind: map_anchor_state_kind(&member.anchor_state),
        anchor_reason_ref: member.anchor_state.reason_ref.clone(),
        anchor_changed_at: member.anchor_state.changed_at,
        source_ref: maybe_hide_on_redaction(access, Some(member.source_ref.clone())),
        member_summary_view_ref,
        anchor_slice_ref,
    }
}

/// The public lifecycle view of a member read under an access, joined with an
/// optional member summary view: the state and change time always; reason,
/// basis, and changing actor only when the access does not redact; the
/// joined view's ref and lifecycle slice.
pub open spec fn lifecycle_view_of(
    access: IdentityVisibilityAccessSummary,
    member_ref: GlobalMemberRef,
    lifecycle: GlobalLifecycleState,
    view: Option<MemberSummaryView>,
) -> GlobalLifecycleSummaryView {
    GlobalLifecycleSummaryView {
        member_ref,
        lifecycle_state_kind: public_lifecycle_kind(lifecycle.state_kind),
        reason_ref: shown(access, Some(lifecycle.reason_ref)),
        basis_ref: shown(access, lifecycle.basis_ref),
        changed_by_ref: shown(access, Some(lifecycle.changed_by_ref)),
        changed_at: lifecycle.changed_at,
        member_summary_view_ref: match view { Some(v) => Some(v.view_ref), None => None },
        lifecycle_slice_ref: match view { Some(v) => Some(v.lifecycle_slice_ref), None => None },
    }
}

/// Builds the public lifecycle view of a member read under an access.
pub fn lifecycle_summary_view(
    access: &IdentityVisibilityAccessSummary,
    member_ref: &GlobalMemberRef,
    lifecycle: &GlobalLifecycleState,
    view: &Option<MemberSummaryView>,
) -> (r: GlobalLifecycleSummaryView)
    ensures
        r == lifecycle_view_of(*access, *member_ref, *lifecycle, *view),
{
    let (member_summary_view_ref, lifecycle_slice_ref) = match view {
        Some(v) => (Some(v.view_ref.clone()), Some(v.lifecycle_slice_ref.clone())),
        None => (None, None),
    };
    GlobalLifecycleSummaryView {
        member_ref: member_ref.clone(),
        lifecycle_state_kind: map_lifecycle_state_kind(lifecycle.state_kind),
        reason_ref: maybe_hide_on_redaction(access, Some(lifecycle.reason_ref.clone())),
        basis_ref: maybe_hide_on_redaction(access, lifecycle.basis_ref.clone()),
        changed_by_ref: maybe_hide_on_redaction(access, Some(lifecycle.changed_by_ref.clone())),
        changed_at: lifecycle.changed_at,
        member_summary_view_ref,
        lifecycle_slice_ref,
    }
}

/// Whether a loaded audit trail answers the member's audit subject: same
/// subject, and no other member than the one read.
pub open spec fn audit_trail_answers(trail: AuditTrail, audit_subject_ref: IdentityAuditSubjectRef, member_ref: GlobalMemberRef) -> bool {
    trail.audit_subject_ref@ == audit_subject_ref@
        && (trail.member_ref is None || trail.member_ref.unwrap().member_id@ == member_ref.member_id@)
}

/// Returns whether a loaded audit trail answers the member's audit subject.
pub fn audit_trail_matches(trail: &AuditTrail, audit_subject_ref: &IdentityAuditSubjectRef, member_ref: &GlobalMemberRef) -> (r: bool)
    ensures
        r == audit_trail_answers(*trail, *audit_subject_ref, *member_ref),
{
    if trail.audit_subject_ref != *audit_subject_ref {
        return false;
    }
    match &trail.member_ref {
        Some(member) => member.same_member(member_ref),
        None => true,
    }
}

/// The public view of one audit entry of a trail read for a member and scope.
pub open spec fn audit_entry_view_of(
    trail: AuditTrail,
    audit_scope_ref: AuditScopeRef,
    member_ref: GlobalMemberRef,
    entry: AuditTrailEntry,
) -> AuditTrailEntryView {
    AuditTrailEntryView {
        audit_trail_ref: trail.audit_trail_ref,
        audit_subject_ref: trail.audit_subject_ref,
        audit_scope_ref,
        member_ref: Some(member_ref),
        trace_record_ref: entry.trace_record_ref,
        change_kind_ref: entry.change_kind_ref,
        visibility_result_ref: entry.visibility_result_ref,
        occurred_at: entry.occurred_at,
    }
}

/// Builds the public views of a page of audit entries, one per entry in order.
pub fn audit_entry_views(
    trail: &AuditTrail,
    audit_scope_ref: &AuditScopeRef,
    member_ref: &GlobalMemberRef,
    entries: &Vec<AuditTrailEntry>,
) -> (r: Vec<AuditTrailEntryView>)
    ensures
        r@.len() == entries@.len(),
        forall|i: int| 0 <= i < entries@.len() ==> #[trigger] r@[i] == audit_entry_view_of(*trail, *audit_scope_ref, *member_ref, entries@[i]),
{
    let mut views: Vec<AuditTrailEntryView> = Vec::new();
    let mut i: usize = 0;
    while i < entries.len()
        invariant
            i <= entries@.len(),
            views@.len() == i,
            forall|j: int| 0 <= j < i ==> #[trigger] views@[j] == audit_entry_view_of(*trail, *audit_scope_ref, *member_ref, entries@[j]),
        decreases entries@.len() - i,
    {
        let entry = &entries[i];
        views.push(AuditTrailEntryView {
            audit_trail_ref: trail.audit_trail_ref.clone(),
            audit_subject_ref: trail.audit_subject_ref.clone(),
            audit_scope_ref: audit_scope_ref.clone(),
            member_ref: Some(member_ref.clone()),
            trace_record_ref: entry.trace_record_ref.clone(),
            change_kind_ref: entry.change_kind_ref.clone(),
            visibility_result_ref: entry.visibility_result_ref.clone(),
            occurred_at: entry.occurred_at,
        });
        i = i + 1;
    }
    views
}

/// The public delivery state view of an outbox record read under an access.
pub open spec fn outbox_state_view_of(access: IdentityVisibilityAccessSummary, record: IdentityOutboxRecord) -> IdentityOutboxStateView {
    IdentityOutboxStateView {
        outbox_record_ref: record.outbox_record_ref,
        subject_ref: record.subject_ref,
        topic_key_ref: record.topic_key_ref,
        trace_record_ref: record.trace_record_ref,
        outbox_state_kind: public_outbox_kind(record.outbox_state.state_kind),
        attempt_ref: record.outbox_state.attempt_ref,
        issue_ref: record.outbox_state.issue_ref,
        payload_marker_ref: record.payload_marker_ref,
        changed_at: record.outbox_state.changed_at,
        visibility_result_ref: access.visibility_result_ref,
    }
}

/// Builds the public delivery state view of an outbox record read under an access.
pub fn identity_outbox_state_view(access: &IdentityVisibilityAccessSummary, record: &IdentityOutboxRecord) -> (r: IdentityOutboxStateView)
    ensures
        r == outbox_state_view_of(*access, *record),
{
    IdentityOutboxStateView {
        outbox_record_ref: record.outbox_record_ref.clone(),
        subject_ref: record.subject_ref.clone(),
        topic_key_ref: record.topic_key_ref.clone(),
        trace_record_ref: record.trace_record_ref.clone(),
        outbox_state_kind: map_outbox_state_kind(record.outbox_state.state_kind),
        attempt_ref: record.outbox_state.attempt_ref.clone(),
        issue_ref: record.outbox_state.issue_ref.clone(),
        payload_marker_ref: record.payload_marker_ref.clone(),
        changed_at: record.outbox_state.changed_at,
        visibility_result_ref: access.visibility_result_ref.clone(),
    }
}

/// Decides an outbox state read from the access to the requested record, the
/// loaded record (absent when none is stored), and the access to the loaded
/// record (absent when it could not be resolved): the first access gates, a
/// missing record reads missing, the loaded record's access gates next, and
/// an admitted record is answered with its state under the operations
/// surface of that access.
pub fn decide_outbox_state_read(
    query_name: IdentityQueryName,
    access: &IdentityVisibilityAccessSummary,
    loaded: Option<IdentityOutboxRecord>,
    final_access: Option<IdentityVisibilityAccessSummary>,
    decision_ref: IdentityVisibilityDecisionRef,
    decided_at: IdentityTimestamp,
) -> (r: Result<IdentityQueryResponse<IdentityOutboxStateView>, ApplicationError>)
    ensures
        !access_admitted(*access) ==> {
            &&& (r is Err <==> access_decision_defect(*access, gate_disposition(*access)))
            &&& (r is Ok ==> r.unwrap() == bodiless_response::<IdentityOutboxStateView>(
                query_name, access_surface(*access, gate_disposition(*access), None, false, decision_ref, decided_at)))
        },
        access_admitted(*access) && loaded is None ==> {
            &&& (r is Err <==> access_decision_defect(*access, admitted_disposition(*access)))
            &&& (r is Ok ==> r.unwrap() == bodiless_response::<IdentityOutboxStateView>(
                query_name, absent_surface(*access, true, decision_ref, decided_at)))
        },
        access_admitted(*access) && loaded is Some && final_access is None ==>
            r is Err && r->Err_0.kind == ApplicationErrorKind::InvalidRequest,
        access_admitted(*access) && loaded is Some && final_access is Some && !access_admitted(final_access.unwrap()) ==> {
            &&& (r is Err <==> access_decision_defect(final_access.unwrap(), gate_disposition(final_access.unwrap())))
            &&& (r is Ok ==> r.unwrap() == bodiless_response::<IdentityOutboxStateView>(
                query_name, access_surface(final_access.unwrap(), gate_disposition(final_access.unwrap()), None, false, decision_ref, decided_at)))
        },
        access_admitted(*access) && loaded is Some && final_access is Some && access_admitted(final_access.unwrap()) ==> {
            &&& (r is Err <==> access_decision_defect(final_access.unwrap(), admitted_disposition(final_access.unwrap())))
            &&& (r is Ok ==> r.unwrap() == IdentityQueryResponse {
                query_name,
                surface: operations_surface(final_access.unwrap(), true, decision_ref, decided_at),
                body: Some(outbox_state_view_of(final_access.unwrap(), loaded.unwrap())),
            })
        },
{
    if let Some(surface) = gate_read_surface(access, decision_ref.clone(), decided_at)? {
        return Ok(IdentityQueryResponse { query_name, surface, body: None });
    }
    let record = match loaded {
        Some(record) => record,
        None => {
            let surface = absent_surface_from_access(access, true, decision_ref, decided_at)?;
            return Ok(IdentityQueryResponse { query_name, surface, body: None });
        },
    };
    let final_access = match final_access {
        Some(final_access) => final_access,
        None => {
            return Err(ApplicationError::invalid_request("loaded outbox state visibility could not form a canonical subject"));
        },
    };
    if let Some(surface) = gate_read_surface(&final_access, decision_ref.clone(), decided_at)? {
        return Ok(IdentityQueryResponse { query_name, surface, body: None });
    }
    let surface = visible_surface_for_operations(&final_access, true, decision_ref, decided_at)?;
    Ok(IdentityQueryResponse { query_name, surface, body: Some(identity_outbox_state_view(&final_access, &record)) })
}

/// The public view of a trace handoff intent read under an access.
pub open spec fn handoff_view_fields_of(access: IdentityVisibilityAccessSummary, intent: TraceHandoffIntent, r: TraceHandoffStateView) -> bool {
    &&& r.handoff_intent_ref == intent.handoff_intent_ref
    &&& r.member_ref == intent.member_ref
    &&& r.trace_record_refs@ == intent.trace_record_refs@
    &&& r.audit_trail_ref == intent.audit_trail_ref
    &&& r.handoff_target_ref == intent.handoff_target_ref
    &&& r.handoff_scope_ref == intent.handoff_scope_ref
    &&& r.safe_material_ref == intent.safe_material_ref
    &&& r.handoff_state_kind == public_handoff_kind(intent.handoff_state.state_kind)
    &&& r.attempt_ref == intent.handoff_state.attempt_ref
    &&& r.receipt_ref == intent.handoff_state.receipt_ref
    &&& r.issue_ref == intent.handoff_state.issue_ref
    &&& r.created_at == intent.created_at
    &&& r.updated_at == intent.updated_at
    &&& r.changed_at == intent.handoff_state.changed_at
    &&& r.visibility_result_ref == access.visibility_result_ref
}

/// Builds the public view of a trace handoff intent read under an access.
pub fn trace_handoff_state_view(access: &IdentityVisibilityAccessSummary, intent: &TraceHandoffIntent) -> (r: TraceHandoffStateView)
    ensures
        handoff_view_fields_of(*access, *intent, r),
{
    let trace_record_refs = intent.trace_record_refs.clone();
    proof {
        assert(trace_record_refs@ =~= intent.trace_record_refs@);
    }
    TraceHandoffStateView {
        handoff_intent_ref: intent.handoff_intent_ref.clone(),
        member_ref: intent.member_ref.clone(),
        trace_record_refs,
        audit_trail_ref: intent.audit_trail_ref.clone(),
        handoff_target_ref: intent.handoff_target_ref.clone(),
        handoff_scope_ref: intent.handoff_scope_ref.clone(),
        safe_material_ref: intent.safe_material_ref.clone(),
        handoff_state_kind: map_handoff_state_kind(intent.handoff_state.state_kind),
        attempt_ref: intent.handoff_state.attempt_ref.clone(),
        receipt_ref: intent.handoff_state.receipt_ref.clone(),
        issue_ref: intent.handoff_state.issue_ref.clone(),
        created_at: intent.created_at,
        updated_at: intent.updated_at,
        changed_at: intent.handoff_state.changed_at,
        visibility_result_ref: access.visibility_result_ref.clone(),
    }
}

/// Next step of a trace handoff state read.
#[derive(Debug, Eq, PartialEq)]
pub enum HandoffStateReadStep {
    /// The read is answered with this response.
    Respond(IdentityQueryResponse<TraceHandoffStateView>),
    /// The stored intent hands off no trace record.
    EmptyTraceRefs,
    /// The stored intent reads delivered without a receipt.
    DeliveredWithoutReceipt,
}

/// Decides a trace handoff state read from the access to the intent and the
/// loaded intent (absent when none is stored): the access gates, a missing
/// intent reads missing, an intent without trace records or delivered without
/// receipt names its defect, and any other intent is answered with its view
/// under the operations surface of the access.
pub fn decide_trace_handoff_read(
    query_name: IdentityQueryName,
    access: &IdentityVisibilityAccessSummary,
    loaded: Option<TraceHandoffIntent>,
    decision_ref: IdentityVisibilityDecisionRef,
    decided_at: IdentityTimestamp,
) -> (r: Result<HandoffStateReadStep, ApplicationError>)
    ensures
        !access_admitted(*access) ==> {
            &&& (r is Err <==> access_decision_defect(*access, gate_disposition(*access)))
            &&& (r is Ok ==> r.unwrap() == HandoffStateReadStep::Respond(bodiless_response(
                query_name, access_surface(*access, gate_disposition(*access), None, false, decision_ref, decided_at))))
        },
        access_admitted(*access) && loaded is None ==> {
            &&& (r is Err <==> access_decision_defect(*access, admitted_disposition(*access)))
            &&& (r is Ok ==> r.unwrap() == HandoffStateReadStep::Respond(bodiless_response(
                query_name, absent_surface(*access, true, decision_ref, decided_at))))
        },
        access_admitted(*access) && loaded is Some && loaded.unwrap().trace_record_refs@.len() == 0
            ==> r == Ok::<HandoffStateReadStep, ApplicationError>(HandoffStateReadStep::EmptyTraceRefs),
        access_admitted(*access) && loaded is Some && loaded.unwrap().trace_record_refs@.len() > 0
            && loaded.unwrap().handoff_state.state_kind == HandoffStateKind::Delivered
            && loaded.unwrap().handoff_state.receipt_ref is None
            ==> r == Ok::<HandoffStateReadStep, ApplicationError>(HandoffStateReadStep::DeliveredWithoutReceipt),
        access_admitted(*access) && loaded is Some && loaded.unwrap().trace_record_refs@.len() > 0
            && !(loaded.unwrap().handoff_state.state_kind == HandoffStateKind::Delivered && loaded.unwrap().handoff_state.receipt_ref is None) ==> {
            &&& (r is Err <==> access_decision_defect(*access, admitted_disposition(*access)))
            &&& (r is Ok ==> r.unwrap() is Respond
                && r.unwrap()->Respond_0.query_name == query_name
                && r.unwrap()->Respond_0.surface == operations_surface(*access, true, decision_ref, decided_at)
                && r.unwrap()->Respond_0.body is Some
                && handoff_view_fields_of(*access, loaded.unwrap(), r.unwrap()->Respond_0.body.unwrap()))
        },
{
    if let Some(surface) = gate_read_surface(access, decision_ref.clone(), decided_at)? {
        return Ok(HandoffStateReadStep::Respond(IdentityQueryResponse { query_name, surface, body: None }));
    }
    let intent = match loaded {
        Some(intent) => intent,
        None => {
            let surface = absent_surface_from_access(access, true, decision_ref, decided_at)?;
            return Ok(HandoffStateReadStep::Respond(IdentityQueryResponse { query_name, surface, body: None }));
        },
    };
    if intent.trace_record_refs.len() == 0 {
        return Ok(HandoffStateReadStep::EmptyTraceRefs);
    }
    if matches!(intent.handoff_state.state_kind, HandoffStateKind::Delivered) && intent.handoff_state.receipt_ref.is_none() {
        return Ok(HandoffStateReadStep::DeliveredWithoutReceipt);
    }
    let surface = visible_surface_for_operations(access, true, decision_ref, decided_at)?;
    Ok(HandoffStateReadStep::Respond(IdentityQueryResponse { query_name, surface, body: Some(trace_handoff_state_view(access, &intent)) }))
}

/// Typed sidecar refs the reference state store keeps beside a resolution
/// state.
#[derive(Debug, Eq, PartialEq)]
pub struct ExternalReferenceTypedSidecarRefs {
    /// Role capability safe summary.
    pub role_capability_safe_summary_ref: Option<ExternalReferenceSafeSummaryRef>,
    /// Career safe summary.
    pub career_safe_summary_ref: Option<ExternalReferenceSafeSummaryRef>,
    /// Memory safe summary.
    pub memory_safe_summary_ref: Option<ExternalReferenceSafeSummaryRef>,
    /// Governance basis summary.
    pub governance_basis_summary_ref: Option<ExternalReferenceSafeSummaryRef>,
    /// Evidence summary.
    pub evidence_summary_ref: Option<ExternalReferenceSafeSummaryRef>,
    /// Source version.
    pub source_version_ref: Option<ExternalSourceVersionRef>,
}

/// Whether no sidecar ref is kept.
pub open spec fn sidecars_empty(sidecars: ExternalReferenceTypedSidecarRefs) -> bool {
    &&& sidecars.role_capability_safe_summary_ref is None
    &&& sidecars.career_safe_summary_ref is None
    &&& sidecars.memory_safe_summary_ref is None
    &&& sidecars.governance_basis_summary_ref is None
    &&& sidecars.evidence_summary_ref is None
    &&& sidecars.source_version_ref is None
}

/// The public sidecar view of kept sidecar refs: none when no ref is kept,
/// else every ref as kept.
pub open spec fn sidecar_view_of(sidecars: ExternalReferenceTypedSidecarRefs) -> Option<ReferenceResolutionSidecarRefsView> {
    if sidecars_empty(sidecars) {
        None
    } else {
        Some(ReferenceResolutionSidecarRefsView {
            role_capability_safe_summary_ref: sidecars.role_capability_safe_summary_ref,
            career_safe_summary_ref: sidecars.career_safe_summary_ref,
            memory_safe_summary_ref: sidecars.memory_safe_summary_ref,
            governance_basis_summary_ref: sidecars.governance_basis_summary_ref,
            evidence_summary_ref: sidecars.evidence_summary_ref,
            source_version_ref: sidecars.source_version_ref,
        })
    }
}

/// Builds the public sidecar view of kept sidecar refs.
pub fn reference_sidecar_refs_view(sidecars: ExternalReferenceTypedSidecarRefs) -> (r: Option<ReferenceResolutionSidecarRefsView>)
    ensures
        r == sidecar_view_of(sidecars),
{
    let view = ReferenceResolutionSidecarRefsView {
        role_capability_safe_summary_ref: sidecars.role_capability_safe_summary_ref,
        career_safe_summary_ref: sidecars.career_safe_summary_ref,
        memory_safe_summary_ref: sidecars.memory_safe_summary_ref,
        governance_basis_summary_ref: sidecars.governance_basis_summary_ref,
        evidence_summary_ref: sidecars.evidence_summary_ref,
        source_version_ref: sidecars.source_version_ref,
    };
    if view.role_capability_safe_summary_ref.is_none() && view.career_safe_summary_ref.is_none()
        && view.memory_safe_summary_ref.is_none() && view.governance_basis_summary_ref.is_none()
        && view.evidence_summary_ref.is_none() && view.source_version_ref.is_none() {
        None
    } else {
        Some(view)
    }
}

/// The public view of a reference resolution state read under an access.
pub open spec fn reference_view_of(
    access: IdentityVisibilityAccessSummary,
    state: ReferenceResolutionState,
    sidecars: ExternalReferenceTypedSidecarRefs,
) -> ReferenceResolutionStateView {
    ReferenceResolutionStateView {
        resolution_state_ref: Some(state.resolution_state_ref),
        external_reference_ref: state.external_reference_ref,
        owner_ref: Some(state.reference_owner_ref),
        state_kind: Some(public_reference_kind(state.state_kind)),
        source_version_ref: state.source_version_ref,
        safe_summary_ref: state.safe_summary_ref,
        sidecar_refs: sidecar_view_of(sidecars),
        issue_ref: state.issue_ref,
        checked_at: Some(state.checked_at),
        visibility_result_ref: access.visibility_result_ref,
    }
}

/// Builds the public view of a reference resolution state read under an access.
pub fn reference_resolution_state_view(
    access: &IdentityVisibilityAccessSummary,
    state: &ReferenceResolutionState,
    sidecars: ExternalReferenceTypedSidecarRefs,
) -> (r: ReferenceResolutionStateView)
    ensures
        r == reference_view_of(*access, *state, sidecars),
{
    ReferenceResolutionStateView {
        resolution_state_ref: Some(state.resolution_state_ref.clone()),
        external_reference_ref: state.external_reference_ref.clone(),
        owner_ref: Some(state.reference_owner_ref.clone()),
        state_kind: Some(map_reference_state_kind(state.state_kind)),
        source_version_ref: state.source_version_ref.clone(),
        safe_summary_ref: state.safe_summary_ref.clone(),
        sidecar_refs: reference_sidecar_refs_view(sidecars),
        issue_ref: state.issue_ref.clone(),
        checked_at: Some(state.checked_at),
        visibility_result_ref: access.visibility_result_ref.clone(),
    }
}

/// Whether two external references name the same reference.
pub open spec fn same_external_reference(a: ExternalReferenceRef, b: ExternalReferenceRef) -> bool {
    a.reference_kind == b.reference_kind && same_source_spec(a.source_ref, b.source_ref)
}

/// Whether two reference owners name the same owner.
pub open spec fn same_reference_owner(a: IdentityReferenceOwnerRef, b: IdentityReferenceOwnerRef) -> bool {
    a.owner_kind == b.owner_kind && same_source_spec(a.owner_ref, b.owner_ref)
}

/// Check of a loaded reference resolution state against its request.
#[derive(Clone, Copy, Debug, Eq, PartialEq, Structural)]
pub enum ReferenceStatePrecheck {
    /// The state answers the request.
    Proceed,
    /// The state's owner is not the expected one.
    OwnerMismatch,
}

/// Checks a loaded reference resolution state against the requested external
/// reference and expected owner: a state of another reference is a
/// consistency defect; a state of another owner than the expected one is a
/// mismatch.
pub fn reference_state_precheck(
    requested_ref: &ExternalReferenceRef,
    expected_owner: &Option<IdentityReferenceOwnerRef>,
    state: &ReferenceResolutionState,
) -> (r: Result<ReferenceStatePrecheck, ApplicationError>)
    ensures
        r is Err <==> !same_external_reference(state.external_reference_ref, *requested_ref),
        r matches Err(e) ==> e.kind == ApplicationErrorKind::ConsistencyDefect
            && e.message@ == "loaded reference state does not match the requested external reference"@,
        r matches Ok(c) ==> (c == ReferenceStatePrecheck::OwnerMismatch
            <==> (expected_owner is Some && !same_reference_owner(expected_owner.unwrap(), state.reference_owner_ref))),
{
    if !(state.external_reference_ref.reference_kind == requested_ref.reference_kind
        && state.external_reference_ref.source_ref.same_source(&requested_ref.source_ref)) {
        return Err(ApplicationError::consistency_defect("loaded reference state does not match the requested external reference"));
    }
    match expected_owner {
        Some(owner) => {
            if owner.owner_kind == state.reference_owner_ref.owner_kind && owner.owner_ref.same_source(&state.reference_owner_ref.owner_ref) {
                Ok(ReferenceStatePrecheck::Proceed)
            } else {
                Ok(ReferenceStatePrecheck::OwnerMismatch)
            }
        },
        None => Ok(ReferenceStatePrecheck::Proceed),
    }
}

/// The surface of a reference resolution state read under an admitted
/// access: a resolved state reads as the operations surface, a stale one
/// stale-visible, any other degraded; material is found in every case.
pub open spec fn reference_state_surface_of(
    access: IdentityVisibilityAccessSummary,
    state_kind: ReferenceResolutionStateKind,
    decision_ref: IdentityVisibilityDecisionRef,
    decided_at: IdentityTimestamp,
) -> IdentityQuerySurface {
    match state_kind {
        ReferenceResolutionStateKind::Resolved => operations_surface(access, true, decision_ref, decided_at),
        ReferenceResolutionStateKind::Stale => access_surface(access, IdentityReadDispositionKind::StaleVisible, None, true, decision_ref, decided_at),
        _ => operations_degraded_surface(access, true, decision_ref, decided_at),
    }
}

/// Builds the surface of a reference resolution state read.
pub fn reference_state_surface(
    access: &IdentityVisibilityAccessSummary,
    state_kind: ReferenceResolutionStateKind,
    decision_ref: IdentityVisibilityDecisionRef,
    decided_at: IdentityTimestamp,
) -> (r: Result<IdentityQuerySurface, ApplicationError>)
    ensures
        state_kind == ReferenceResolutionStateKind::Stale ==> r is Ok,
        state_kind != ReferenceResolutionStateKind::Stale ==> (r is Err <==> access_decision_defect(*access, admitted_disposition(*access))),
        r matches Ok(s) ==> s == reference_state_surface_of(*access, state_kind, decision_ref, decided_at),
{
    match state_kind {
        ReferenceResolutionStateKind::Resolved => visible_surface_for_operations(access, true, decision_ref, decided_at),
        ReferenceResolutionStateKind::Stale => surface_from_access(access, IdentityReadDispositionKind::StaleVisible, None, true, decision_ref, decided_at),
        ReferenceResolutionStateKind::Unavailable | ReferenceResolutionStateKind::Unrecognized
        | ReferenceResolutionStateKind::PendingReconciliation | ReferenceResolutionStateKind::RefreshFailed => {
            degraded_operations_surface(access, true, decision_ref, decided_at)
        },
    }
}

/// Whether a reconciliation report belongs to a maintenance scope.
pub open spec fn report_in_scope(report: ReconciliationReport, scope: MaintenanceScopeRef) -> bool {
    same_source_spec(report.maintenance_scope_ref.scope_ref, scope.scope_ref)
}

/// Returns whether a reconciliation report belongs to a maintenance scope.
pub fn reconciliation_report_in_scope(report: &ReconciliationReport, scope: &MaintenanceScopeRef) -> (r: bool)
    ensures
        r == report_in_scope(*report, *scope),
{
    report.maintenance_scope_ref.scope_ref.same_source(&scope.scope_ref)
}

/// Answers a page with exactly one item: no next cursor, nothing more, one
/// item counted.
pub fn single_item_page_response<V>(query_name: IdentityQueryName, surface: IdentityQuerySurface, item: V) -> (r: IdentityPageResponse<V>)
    ensures
        r.query_name == query_name,
        r.surface == surface,
        r.page_info == (IdentityPublicPageInfo { next_cursor: None, has_more: false, item_count: 1 }),
        r.items@ == seq![item],
{
    let mut items = Vec::new();
    items.push(item);
    IdentityPageResponse { query_name, surface, page_info: IdentityPublicPageInfo { next_cursor: None, has_more: false, item_count: 1 }, items }
}

/// Law: a redacting access hides every source field of the career, memory,
/// and trace views it reads, and a non-redacting access shows them as stored.
pub proof fn lemma_redaction_hides_view_fields(
    access: IdentityVisibilityAccessSummary,
    career: CareerRecord,
    memory: MemoryReference,
    trace: IdentityTraceRecord,
)
    ensures
        access_redacts(access) ==> {
            let c = career_view_of(access, career);
            let m = memory_view_of(access, memory);
            let t = trace_view_of(access, trace);
            &&& c.project_participation_ref is None && c.work_source_ref is None && c.source_marker_ref is None
            &&& c.career_summary_ref is None && c.append_reason_ref is None && c.appended_at is None
            &&& m.memory_ref is None && m.archive_ref is None && m.archive_handoff_ref is None && m.source_ref is None
            &&& m.safe_summary_ref is None && m.reason_ref is None && m.changed_at is None
            &&& t.reason_ref is None && t.source_ref is None && t.basis_ref is None && t.actor_ref is None
        },
        !access_redacts(access) ==> {
            let c = career_view_of(access, career);
            let m = memory_view_of(access, memory);
            let t = trace_view_of(access, trace);
            &&& c.work_source_ref == Some(career.work_source_ref) && c.career_summary_ref == career.career_summary_ref
            &&& m.source_ref == Some(memory.source_ref) && m.memory_ref == memory.memory_ref
            &&& t.source_ref == trace.source_ref && t.actor_ref == trace.actor_ref
        },
        career_view_of(access, career).career_record_ref == career.career_record_ref,
        memory_view_of(access, memory).memory_reference_ref == memory.memory_reference_ref,
        trace_view_of(access, trace).trace_record_ref == trace.trace_record_ref,
{
}

/// Law: visibility decides first: a hidden, degraded, or unavailable access
/// answers with a surface that is not visible, redacted, or stale, and that
/// reports nothing found.
pub proof fn lemma_gate_surface_reports_no_material(
    access: IdentityVisibilityAccessSummary,
    decision_ref: IdentityVisibilityDecisionRef,
    decided_at: IdentityTimestamp,
)
    requires
        !access_admitted(access),
    ensures
        ({
            let s = access_surface(access, gate_disposition(access), None, false, decision_ref, decided_at);
            &&& s.disposition == IdentityQueryDisposition::NotVisible || s.disposition == IdentityQueryDisposition::Degraded
            &&& s.visibility.read_surface_kind != IdentityReadSurfaceKind::Found
            &&& s.visibility.read_surface_kind != IdentityReadSurfaceKind::Redacted
            &&& s.visibility.read_surface_kind != IdentityReadSurfaceKind::Stale
            &&& s.projection_freshness_ref is None
            &&& s.decision_ref == Some(decision_ref)
        }),
{
}

/// Whether an operation context may serve a query request: it comes in on
/// the query channel, names the query's operation, and carries no
/// idempotency key.
pub open spec fn query_context_admits<T>(request: IdentityQueryRequest<T>, context: IdentityOperationContext) -> bool {
    &&& context.channel == IdentityOperationChannel::Query
    &&& context.operation_name@ == request.query_name@
    &&& context.idempotency_key is None
}

/// The message of a query context that names another operation.
pub open spec fn operation_mismatch_message(operation: Seq<char>, query: Seq<char>) -> Seq<char> {
    "operation name "@ + operation + " does not match query "@ + query
}

/// Checks that the operation context of a query request keeps the request
/// envelope: the query channel first, then the operation name, then the
/// absence of an idempotency key; each failure is an invalid request.
pub fn assert_query_context<T>(request: &IdentityQueryRequest<T>, context: &IdentityOperationContext) -> (r: Result<(), ApplicationError>)
    ensures
        r is Ok <==> query_context_admits(*request, *context),
        r matches Err(e) ==> e.kind == ApplicationErrorKind::InvalidRequest,
        r matches Err(e) ==> e.message@ == (if context.channel != IdentityOperationChannel::Query {
            "query context must use the query channel"@
        } else if context.operation_name@ != request.query_name@ {
            operation_mismatch_message(context.operation_name@, request.query_name@)
        } else {
            "query context must not carry an idempotency key"@
        }),
{
    if context.channel != IdentityOperationChannel::Query {
        return Err(ApplicationError::invalid_request("query context must use the query channel"));
    }
    let operation = context.operation_name.as_str().to_owned();
    let query = request.query_name.as_str().to_owned();
    if operation != query {
        let message = String::from_str("operation name ").concat(operation.as_str()).concat(" does not match query ").concat(query.as_str());
        return Err(ApplicationError { kind: ApplicationErrorKind::InvalidRequest, message });
    }
    if context.idempotency_key.is_some() {
        return Err(ApplicationError::invalid_request("query context must not carry an idempotency key"));
    }
    Ok(())
}

/// The public token of a projection state.
pub open spec fn projection_state_token(state: ProjectionStateKind) -> Seq<char> {
    match state {
        ProjectionStateKind::Fresh => "fresh"@,
        ProjectionStateKind::Stale => "stale"@,
        ProjectionStateKind::RebuildPending => "rebuild_pending"@,
        ProjectionStateKind::Rebuilt => "rebuilt"@,
        ProjectionStateKind::Degraded => "degraded"@,
        ProjectionStateKind::RebuildFailed => "rebuild_failed"@,
    }
}

/// Returns the public token of a projection state.
pub fn public_projection_state_token(state: ProjectionStateKind) -> (r: &'static str)
    ensures
        r@ == projection_state_token(state),
{
    match state {
        ProjectionStateKind::Fresh => "fresh",
        ProjectionStateKind::Stale => "stale",
        ProjectionStateKind::RebuildPending => "rebuild_pending",
        ProjectionStateKind::Rebuilt => "rebuilt",
        ProjectionStateKind::Degraded => "degraded",
        ProjectionStateKind::RebuildFailed => "rebuild_failed",
    }
}

/// Builds the public freshness marker of a projection state: its projection
/// and the public token of its state.
pub fn projection_freshness_marker(state: &ProjectionState) -> (r: ProjectionFreshnessMarkerRef)
    ensures
        r.projection_ref == state.projection_ref,
        r.state_kind@ == projection_state_token(state.state_kind),
{
    ProjectionFreshnessMarkerRef {
        projection_ref: state.projection_ref.clone(),
        state_kind: public_projection_state_token(state.state_kind).to_owned(),
    }
}

/// Turns a public page request into a repository page, carrying its cursor
/// over; a request without paging information is invalid.
pub fn require_page(page: &Option<IdentityPublicPageRequest>) -> (r: Result<IdentityRepositoryPage, ApplicationError>)
    ensures
        r is Ok <==> page is Some,
        r matches Ok(p) ==> {
            &&& p.limit == page.unwrap().limit
            &&& (p.cursor is Some <==> page.unwrap().cursor is Some)
            &&& (p.cursor matches Some(c) ==> c@ == page.unwrap().cursor.unwrap()@)
        },
        r matches Err(e) ==> e.kind == ApplicationErrorKind::InvalidRequest
            && e.message@ == "paged query request must include page information"@,
{
    match page {
        None => Err(ApplicationError::invalid_request("paged query request must include page information")),
        Some(page) => {
            let cursor = match &page.cursor {
                Some(cursor) => Some(IdentityRepositoryCursor::new(cursor.as_str().to_owned())),
                None => None,
            };
            Ok(IdentityRepositoryPage::new(cursor, page.limit))
        },
    }
}

/// Builds the public page information of a listed repository page that
/// returns `returned` items: the next cursor carried over, whether more items
/// remain, and the number of items returned in the page (taken as a `u32`,
/// exact whenever it fits).
pub fn page_info<T>(page: &Page<T>, returned: usize) -> (r: IdentityPublicPageInfo)
    ensures
        r.next_cursor is Some <==> page.next_cursor is Some,
        r.next_cursor matches Some(c) ==> c@ == page.next_cursor.unwrap()@,
        r.has_more == page.next_cursor is Some,
        r.item_count == returned as u32,
        returned <= u32::MAX ==> r.item_count == returned,
{
    let next_cursor = match &page.next_cursor {
        Some(cursor) => Some(IdentityPublicPageCursor::new(cursor.as_str().to_owned())),
        None => None,
    };
    IdentityPublicPageInfo { next_cursor, has_more: page.next_cursor.is_some(), item_count: returned as u32 }
}

/// Builds an empty page response: no items, no next cursor, nothing more.
pub fn empty_page_response<T>(query_name: IdentityQueryName, surface: IdentityQuerySurface) -> (r: IdentityPageResponse<T>)
    ensures
        r.query_name == query_name,
        r.surface == surface,
        r.page_info == (IdentityPublicPageInfo { next_cursor: None, has_more: false, item_count: 0 }),
        r.items@.len() == 0,
{
    IdentityPageResponse {
        query_name,
        surface,
        page_info: IdentityPublicPageInfo { next_cursor: None, has_more: false, item_count: 0 },
        items: Vec::new(),
    }
}

/// Maps a domain anchor state to its public kind.
pub fn map_anchor_state_kind(state: &IdentityAnchorState) -> (r: PublicAnchorStateKind)
    ensures
        r == (match state.state_kind {
            IdentityAnchorStateKind::Established => PublicAnchorStateKind::Established,
            IdentityAnchorStateKind::RetiredHeld => PublicAnchorStateKind::RetiredHeld,
            IdentityAnchorStateKind::TombstoneHeld => PublicAnchorStateKind::TombstoneHeld,
        }),
{
    match state.state_kind {
        IdentityAnchorStateKind::Established => PublicAnchorStateKind::Established,
        IdentityAnchorStateKind::RetiredHeld => PublicAnchorStateKind::RetiredHeld,
        IdentityAnchorStateKind::TombstoneHeld => PublicAnchorStateKind::TombstoneHeld,
    }
}

/// Returns whether a role capability snapshot is stale, unavailable, or
/// unrecognized.
pub fn role_snapshot_is_stale_or_unavailable(snapshot: &RoleCapabilitySourceSnapshot) -> (r: bool)
    ensures
        r == (snapshot.source_state == RoleCapabilitySourceStateKind::SourceStale
            || snapshot.source_state == RoleCapabilitySourceStateKind::SourceUnavailable
            || snapshot.source_state == RoleCapabilitySourceStateKind::SourceUnrecognized),
{
    matches!(
        snapshot.source_state,
        RoleCapabilitySourceStateKind::SourceStale | RoleCapabilitySourceStateKind::SourceUnavailable | RoleCapabilitySourceStateKind::SourceUnrecognized
    )
}

/// Hides an optional field when the read is redacted.
pub fn hide_on_redaction<T>(redacted: bool, value: Option<T>) -> (r: Option<T>)
    ensures
        r == (if redacted { None } else { value }),
{
    if redacted {
        None
    } else {
        value
    }
}

/// Hides an optional field when the access is redacted.
pub fn maybe_hide_on_redaction<T: Clone>(access: &IdentityVisibilityAccessSummary, value: Option<T>) -> (r: Option<T>)
    ensures
        r == (if access.access_state == IdentityVisibilityAccessState::Redacted { None } else { value }),
{
    hide_on_redaction(matches!(access.access_state, IdentityVisibilityAccessState::Redacted), value)
}

/// Empties a list field when the access is redacted.
pub fn maybe_hide_vec_on_redaction<T: Clone>(access: &IdentityVisibilityAccessSummary, value: Vec<T>) -> (r: Vec<T>)
    ensures
        access.access_state == IdentityVisibilityAccessState::Redacted ==> r@.len() == 0,
        access.access_state != IdentityVisibilityAccessState::Redacted ==> r == value,
{
    if matches!(access.access_state, IdentityVisibilityAccessState::Redacted) {
        Vec::new()
    } else {
        value
    }
}

/// The public lifecycle state kind that mirrors a domain lifecycle state.
pub open spec fn public_lifecycle_kind(state: GlobalLifecycleStateKind) -> PublicLifecycleStateKind {
    match state {
        GlobalLifecycleStateKind::Available => PublicLifecycleStateKind::Available,
        GlobalLifecycleStateKind::Paused => PublicLifecycleStateKind::Paused,
        GlobalLifecycleStateKind::Retired => PublicLifecycleStateKind::Retired,
        GlobalLifecycleStateKind::Tombstoned => PublicLifecycleStateKind::Tombstoned,
    }
}

/// Maps a domain lifecycle state to its public kind.
pub fn map_lifecycle_state_kind(state: GlobalLifecycleStateKind) -> (r: PublicLifecycleStateKind)
    ensures
        r == public_lifecycle_kind(state),
{
    match state {
        GlobalLifecycleStateKind::Available => PublicLifecycleStateKind::Available,
        GlobalLifecycleStateKind::Paused => PublicLifecycleStateKind::Paused,
        GlobalLifecycleStateKind::Retired => PublicLifecycleStateKind::Retired,
        GlobalLifecycleStateKind::Tombstoned => PublicLifecycleStateKind::Tombstoned,
    }
}

/// The public role capability summary state kind that mirrors a domain role capability summary state.
pub open spec fn public_role_summary_kind(state: RoleCapabilitySummaryStateKind) -> PublicRoleCapabilitySummaryStateKind {
    match state {
        RoleCapabilitySummaryStateKind::Active => PublicRoleCapabilitySummaryStateKind::Active,
        RoleCapabilitySummaryStateKind::Stale => PublicRoleCapabilitySummaryStateKind::Stale,
        RoleCapabilitySummaryStateKind::Unavailable => PublicRoleCapabilitySummaryStateKind::Unavailable,
        RoleCapabilitySummaryStateKind::PendingReconciliation => PublicRoleCapabilitySummaryStateKind::PendingReconciliation,
        RoleCapabilitySummaryStateKind::Superseded => PublicRoleCapabilitySummaryStateKind::Superseded,
    }
}

/// Maps a domain role capability summary state to its public kind.
pub fn map_role_summary_state_kind(state: RoleCapabilitySummaryStateKind) -> (r: PublicRoleCapabilitySummaryStateKind)
    ensures
        r == public_role_summary_kind(state),
{
    match state {
        RoleCapabilitySummaryStateKind::Active => PublicRoleCapabilitySummaryStateKind::Active,
        RoleCapabilitySummaryStateKind::Stale => PublicRoleCapabilitySummaryStateKind::Stale,
        RoleCapabilitySummaryStateKind::Unavailable => PublicRoleCapabilitySummaryStateKind::Unavailable,
        RoleCapabilitySummaryStateKind::PendingReconciliation => PublicRoleCapabilitySummaryStateKind::PendingReconciliation,
        RoleCapabilitySummaryStateKind::Superseded => PublicRoleCapabilitySummaryStateKind::Superseded,
    }
}

/// The public role capability source snapshot state kind that mirrors a domain role capability source snapshot state.
pub open spec fn public_role_source_kind(state: RoleCapabilitySourceStateKind) -> PublicRoleCapabilitySourceStateKind {
    match state {
        RoleCapabilitySourceStateKind::SourceResolved => PublicRoleCapabilitySourceStateKind::SourceResolved,
        RoleCapabilitySourceStateKind::SourceStale => PublicRoleCapabilitySourceStateKind::SourceStale,
        RoleCapabilitySourceStateKind::SourceUnavailable => PublicRoleCapabilitySourceStateKind::SourceUnavailable,
        RoleCapabilitySourceStateKind::SourceUnrecognized => PublicRoleCapabilitySourceStateKind::SourceUnrecognized,
        RoleCapabilitySourceStateKind::SourceSuperseded => PublicRoleCapabilitySourceStateKind::SourceSuperseded,
    }
}

/// Maps a domain role capability source snapshot state to its public kind.
pub fn map_role_source_state_kind(state: RoleCapabilitySourceStateKind) -> (r: PublicRoleCapabilitySourceStateKind)
    ensures
        r == public_role_source_kind(state),
{
    match state {
        RoleCapabilitySourceStateKind::SourceResolved => PublicRoleCapabilitySourceStateKind::SourceResolved,
        RoleCapabilitySourceStateKind::SourceStale => PublicRoleCapabilitySourceStateKind::SourceStale,
        RoleCapabilitySourceStateKind::SourceUnavailable => PublicRoleCapabilitySourceStateKind::SourceUnavailable,
        RoleCapabilitySourceStateKind::SourceUnrecognized => PublicRoleCapabilitySourceStateKind::SourceUnrecognized,
        RoleCapabilitySourceStateKind::SourceSuperseded => PublicRoleCapabilitySourceStateKind::SourceSuperseded,
    }
}

/// The public career record state kind that mirrors a domain career record state.
pub open spec fn public_career_kind(state: CareerRecordStateKind) -> PublicCareerRecordStateKind {
    match state {
        CareerRecordStateKind::Appended => PublicCareerRecordStateKind::Appended,
        CareerRecordStateKind::CorrectionAppended => PublicCareerRecordStateKind::CorrectionAppended,
        CareerRecordStateKind::SupersededByCorrection => PublicCareerRecordStateKind::SupersededByCorrection,
        CareerRecordStateKind::SourcePendingReview => PublicCareerRecordStateKind::SourcePendingReview,
    }
}

/// Maps a domain career record state to its public kind.
pub fn map_career_state_kind(state: CareerRecordStateKind) -> (r: PublicCareerRecordStateKind)
    ensures
        r == public_career_kind(state),
{
    match state {
        CareerRecordStateKind::Appended => PublicCareerRecordStateKind::Appended,
        CareerRecordStateKind::CorrectionAppended => PublicCareerRecordStateKind::CorrectionAppended,
        CareerRecordStateKind::SupersededByCorrection => PublicCareerRecordStateKind::SupersededByCorrection,
        CareerRecordStateKind::SourcePendingReview => PublicCareerRecordStateKind::SourcePendingReview,
    }
}

/// The public memory reference state kind that mirrors a domain memory reference state.
pub open spec fn public_memory_kind(state: MemoryReferenceStateKind) -> PublicMemoryReferenceStateKind {
    match state {
        MemoryReferenceStateKind::Linked => PublicMemoryReferenceStateKind::Linked,
        MemoryReferenceStateKind::PendingVerification => PublicMemoryReferenceStateKind::PendingVerification,
        MemoryReferenceStateKind::Stale => PublicMemoryReferenceStateKind::Stale,
        MemoryReferenceStateKind::Unavailable => PublicMemoryReferenceStateKind::Unavailable,
        MemoryReferenceStateKind::Migrated => PublicMemoryReferenceStateKind::Migrated,
        MemoryReferenceStateKind::Archived => PublicMemoryReferenceStateKind::Archived,
        MemoryReferenceStateKind::HandoffPending => PublicMemoryReferenceStateKind::HandoffPending,
        MemoryReferenceStateKind::HandoffFailed => PublicMemoryReferenceStateKind::HandoffFailed,
    }
}

/// Maps a domain memory reference state to its public kind.
pub fn map_memory_state_kind(state: MemoryReferenceStateKind) -> (r: PublicMemoryReferenceStateKind)
    ensures
        r == public_memory_kind(state),
{
    match state {
        MemoryReferenceStateKind::Linked => PublicMemoryReferenceStateKind::Linked,
        MemoryReferenceStateKind::PendingVerification => PublicMemoryReferenceStateKind::PendingVerification,
        MemoryReferenceStateKind::Stale => PublicMemoryReferenceStateKind::Stale,
        MemoryReferenceStateKind::Unavailable => PublicMemoryReferenceStateKind::Unavailable,
        MemoryReferenceStateKind::Migrated => PublicMemoryReferenceStateKind::Migrated,
        MemoryReferenceStateKind::Archived => PublicMemoryReferenceStateKind::Archived,
        MemoryReferenceStateKind::HandoffPending => PublicMemoryReferenceStateKind::HandoffPending,
        MemoryReferenceStateKind::HandoffFailed => PublicMemoryReferenceStateKind::HandoffFailed,
    }
}

/// The public projection state kind that mirrors a domain projection state.
pub open spec fn public_projection_kind(state: ProjectionStateKind) -> PublicProjectionStateKind {
    match state {
        ProjectionStateKind::Fresh => PublicProjectionStateKind::Fresh,
        ProjectionStateKind::Stale => PublicProjectionStateKind::Stale,
        ProjectionStateKind::RebuildPending => PublicProjectionStateKind::RebuildPending,
        ProjectionStateKind::Rebuilt => PublicProjectionStateKind::Rebuilt,
        ProjectionStateKind::Degraded => PublicProjectionStateKind::Degraded,
        ProjectionStateKind::RebuildFailed => PublicProjectionStateKind::RebuildFailed,
    }
}

/// Maps a domain projection state to its public kind.
pub fn map_projection_state_kind(state: ProjectionStateKind) -> (r: PublicProjectionStateKind)
    ensures
        r == public_projection_kind(state),
{
    match state {
        ProjectionStateKind::Fresh => PublicProjectionStateKind::Fresh,
        ProjectionStateKind::Stale => PublicProjectionStateKind::Stale,
        ProjectionStateKind::RebuildPending => PublicProjectionStateKind::RebuildPending,
        ProjectionStateKind::Rebuilt => PublicProjectionStateKind::Rebuilt,
        ProjectionStateKind::Degraded => PublicProjectionStateKind::Degraded,
        ProjectionStateKind::RebuildFailed => PublicProjectionStateKind::RebuildFailed,
    }
}

/// The public reference resolution state kind that mirrors a domain reference resolution state.
pub open spec fn public_reference_kind(state: ReferenceResolutionStateKind) -> PublicReferenceResolutionStateKind {
    match state {
        ReferenceResolutionStateKind::Resolved => PublicReferenceResolutionStateKind::Resolved,
        ReferenceResolutionStateKind::Stale => PublicReferenceResolutionStateKind::Stale,
        ReferenceResolutionStateKind::Unavailable => PublicReferenceResolutionStateKind::Unavailable,
        ReferenceResolutionStateKind::Unrecognized => PublicReferenceResolutionStateKind::Unrecognized,
        ReferenceResolutionStateKind::PendingReconciliation => PublicReferenceResolutionStateKind::PendingReconciliation,
        ReferenceResolutionStateKind::RefreshFailed => PublicReferenceResolutionStateKind::RefreshFailed,
    }
}

/// Maps a domain reference resolution state to its public kind.
pub fn map_reference_state_kind(state: ReferenceResolutionStateKind) -> (r: PublicReferenceResolutionStateKind)
    ensures
        r == public_reference_kind(state),
{
    match state {
        ReferenceResolutionStateKind::Resolved => PublicReferenceResolutionStateKind::Resolved,
        ReferenceResolutionStateKind::Stale => PublicReferenceResolutionStateKind::Stale,
        ReferenceResolutionStateKind::Unavailable => PublicReferenceResolutionStateKind::Unavailable,
        ReferenceResolutionStateKind::Unrecognized => PublicReferenceResolutionStateKind::Unrecognized,
        ReferenceResolutionStateKind::PendingReconciliation => PublicReferenceResolutionStateKind::PendingReconciliation,
        ReferenceResolutionStateKind::RefreshFailed => PublicReferenceResolutionStateKind::RefreshFailed,
    }
}

/// The public reconciliation report state kind that mirrors a domain reconciliation report state.
pub open spec fn public_report_kind(state: ReconciliationReportStateKind) -> PublicReconciliationReportStateKind {
    match state {
        ReconciliationReportStateKind::Generated => PublicReconciliationReportStateKind::Generated,
        ReconciliationReportStateKind::NoFinding => PublicReconciliationReportStateKind::NoFinding,
        ReconciliationReportStateKind::FindingDetected => PublicReconciliationReportStateKind::FindingDetected,
        ReconciliationReportStateKind::Partial => PublicReconciliationReportStateKind::Partial,
        ReconciliationReportStateKind::Failed => PublicReconciliationReportStateKind::Failed,
    }
}

/// Maps a domain reconciliation report state to its public kind.
pub fn map_reconciliation_report_state_kind(state: ReconciliationReportStateKind) -> (r: PublicReconciliationReportStateKind)
    ensures
        r == public_report_kind(state),
{
    match state {
        ReconciliationReportStateKind::Generated => PublicReconciliationReportStateKind::Generated,
        ReconciliationReportStateKind::NoFinding => PublicReconciliationReportStateKind::NoFinding,
        ReconciliationReportStateKind::FindingDetected => PublicReconciliationReportStateKind::FindingDetected,
        ReconciliationReportStateKind::Partial => PublicReconciliationReportStateKind::Partial,
        ReconciliationReportStateKind::Failed => PublicReconciliationReportStateKind::Failed,
    }
}

/// The public outbox state kind that mirrors a domain outbox state.
pub open spec fn public_outbox_kind(state: OutboxStateKind) -> PublicOutboxStateKind {
    match state {
        OutboxStateKind::PendingPublish => PublicOutboxStateKind::PendingPublish,
        OutboxStateKind::Published => PublicOutboxStateKind::Published,
        OutboxStateKind::RetryableFailed => PublicOutboxStateKind::RetryableFailed,
        OutboxStateKind::Failed => PublicOutboxStateKind::Failed,
        OutboxStateKind::SkippedByPolicy => PublicOutboxStateKind::SkippedByPolicy,
    }
}

/// Maps a domain outbox state to its public kind.
pub fn map_outbox_state_kind(state: OutboxStateKind) -> (r: PublicOutboxStateKind)
    ensures
        r == public_outbox_kind(state),
{
    match state {
        OutboxStateKind::PendingPublish => PublicOutboxStateKind::PendingPublish,
        OutboxStateKind::Published => PublicOutboxStateKind::Published,
        OutboxStateKind::RetryableFailed => PublicOutboxStateKind::RetryableFailed,
        OutboxStateKind::Failed => PublicOutboxStateKind::Failed,
        OutboxStateKind::SkippedByPolicy => PublicOutboxStateKind::SkippedByPolicy,
    }
}

/// The public handoff state kind that mirrors a domain handoff state.
pub open spec fn public_handoff_kind(state: HandoffStateKind) -> PublicHandoffStateKind {
    match state {
        HandoffStateKind::PendingHandoff => PublicHandoffStateKind::PendingHandoff,
        HandoffStateKind::Delivered => PublicHandoffStateKind::Delivered,
        HandoffStateKind::RetryableFailed => PublicHandoffStateKind::RetryableFailed,
        HandoffStateKind::Failed => PublicHandoffStateKind::Failed,
        HandoffStateKind::Cancelled => PublicHandoffStateKind::Cancelled,
    }
}

/// Maps a domain handoff state to its public kind.
pub fn map_handoff_state_kind(state: HandoffStateKind) -> (r: PublicHandoffStateKind)
    ensures
        r == public_handoff_kind(state),
{
    match state {
        HandoffStateKind::PendingHandoff => PublicHandoffStateKind::PendingHandoff,
        HandoffStateKind::Delivered => PublicHandoffStateKind::Delivered,
        HandoffStateKind::RetryableFailed => PublicHandoffStateKind::RetryableFailed,
        HandoffStateKind::Failed => PublicHandoffStateKind::Failed,
        HandoffStateKind::Cancelled => PublicHandoffStateKind::Cancelled,
    }
}

/// Law: every public state kind mirrors its domain state exactly: two domain
/// states that map to the same public kind are the same state.
pub proof fn lemma_public_state_kinds_mirror_domain(
    lifecycle_kind_a: GlobalLifecycleStateKind, lifecycle_kind_b: GlobalLifecycleStateKind, role_summary_kind_a: RoleCapabilitySummaryStateKind, role_summary_kind_b: RoleCapabilitySummaryStateKind, role_source_kind_a: RoleCapabilitySourceStateKind, role_source_kind_b: RoleCapabilitySourceStateKind, career_kind_a: CareerRecordStateKind, career_kind_b: CareerRecordStateKind, memory_kind_a: MemoryReferenceStateKind, memory_kind_b: MemoryReferenceStateKind, projection_kind_a: ProjectionStateKind, projection_kind_b: ProjectionStateKind, reference_kind_a: ReferenceResolutionStateKind, reference_kind_b: ReferenceResolutionStateKind, report_kind_a: ReconciliationReportStateKind, report_kind_b: ReconciliationReportStateKind, outbox_kind_a: OutboxStateKind, outbox_kind_b: OutboxStateKind, handoff_kind_a: HandoffStateKind, handoff_kind_b: HandoffStateKind,
)
    ensures
        public_lifecycle_kind(lifecycle_kind_a) == public_lifecycle_kind(lifecycle_kind_b) ==> lifecycle_kind_a == lifecycle_kind_b,
        public_role_summary_kind(role_summary_kind_a) == public_role_summary_kind(role_summary_kind_b) ==> role_summary_kind_a == role_summary_kind_b,
        public_role_source_kind(role_source_kind_a) == public_role_source_kind(role_source_kind_b) ==> role_source_kind_a == role_source_kind_b,
        public_career_kind(career_kind_a) == public_career_kind(career_kind_b) ==> career_kind_a == career_kind_b,
        public_memory_kind(memory_kind_a) == public_memory_kind(memory_kind_b) ==> memory_kind_a == memory_kind_b,
        public_projection_kind(projection_kind_a) == public_projection_kind(projection_kind_b) ==> projection_kind_a == projection_kind_b,
        public_reference_kind(reference_kind_a) == public_reference_kind(reference_kind_b) ==> reference_kind_a == reference_kind_b,
        public_report_kind(report_kind_a) == public_report_kind(report_kind_b) ==> report_kind_a == report_kind_b,
        public_outbox_kind(outbox_kind_a) == public_outbox_kind(outbox_kind_b) ==> outbox_kind_a == outbox_kind_b,
        public_handoff_kind(handoff_kind_a) == public_handoff_kind(handoff_kind_b) ==> handoff_kind_a == handoff_kind_b,
{
}


/// A role capability read counts as current exactly when both its summary
/// and its snapshot are current: the summary active or superseded, the
/// snapshot resolved or superseded. Any other state makes the read stale,
/// and a stale read is never served as visible or found.
pub proof fn lemma_role_read_current_only_with_current_material(
    summary_state: RoleCapabilitySummaryStateKind,
    source_state: RoleCapabilitySourceStateKind,
)
    ensures
        !role_read_stale(summary_state, source_state) <==> (
            (summary_state == RoleCapabilitySummaryStateKind::Active || summary_state == RoleCapabilitySummaryStateKind::Superseded)
            && (source_state == RoleCapabilitySourceStateKind::SourceResolved
                || source_state == RoleCapabilitySourceStateKind::SourceSuperseded)
        ),
{
}

/// A summary that needs reconciliation or refresh always makes its read
/// stale, whatever its snapshot says.
pub proof fn lemma_role_summary_needing_reconciliation_reads_stale(
    summary_state: RoleCapabilitySummaryStateKind,
    source_state: RoleCapabilitySourceStateKind,
)
    requires
        summary_needs_reconciliation(summary_state),
    ensures
        role_read_stale(summary_state, source_state),
{
}


/// Every access is decided one way: a visible or redacted access is
/// admitted and reads visible or redacted as it says; a hidden access reads
/// not visible; a degraded or unavailable access reads degraded.
pub proof fn lemma_access_decides_one_disposition(access: IdentityVisibilityAccessSummary)
    ensures
        access_admitted(access) <==> !(
            access.access_state == IdentityVisibilityAccessState::NotVisible
            || access.access_state == IdentityVisibilityAccessState::Degraded
            || access.access_state == IdentityVisibilityAccessState::Unavailable),
        access_admitted(access) ==> ((admitted_disposition(access) == IdentityReadDispositionKind::Redacted)
            <==> access.access_state == IdentityVisibilityAccessState::Redacted),
        access_admitted(access) ==> admitted_disposition(access) != IdentityReadDispositionKind::NotVisible
            && admitted_disposition(access) != IdentityReadDispositionKind::Degraded,
        !access_admitted(access) ==> ((gate_disposition(access) == IdentityReadDispositionKind::NotVisible)
            <==> access.access_state == IdentityVisibilityAccessState::NotVisible),
        !access_admitted(access) ==> (gate_disposition(access) == IdentityReadDispositionKind::NotVisible
            || gate_disposition(access) == IdentityReadDispositionKind::Degraded),
{
}

/// A stale role read names an unavailable source exactly when the snapshot
/// or the summary is unavailable; otherwise it names a stale projection.
pub proof fn lemma_role_read_degraded_kind(
    summary_state: RoleCapabilitySummaryStateKind,
    source_state: RoleCapabilitySourceStateKind,
)
    ensures
        role_read_degraded_kind(summary_state, source_state) == IdentityDegradedKind::SourceUnavailable
            || role_read_degraded_kind(summary_state, source_state) == IdentityDegradedKind::ProjectionStale,
        (role_read_degraded_kind(summary_state, source_state) == IdentityDegradedKind::SourceUnavailable) <==> (
            source_state == RoleCapabilitySourceStateKind::SourceUnavailable
            || summary_state == RoleCapabilitySummaryStateKind::Unavailable),
        role_read_degraded_kind(summary_state, source_state) == IdentityDegradedKind::SourceUnavailable
            ==> role_read_stale(summary_state, source_state),
{
}

/// Pending and retryable listings never share a record; a topic only narrows
/// a listing; and an unfiltered listing takes every record in its state.
pub proof fn lemma_outbox_filters(record: IdentityOutboxRecord, t1: Option<TopicKeyRef>, t2: Option<TopicKeyRef>)
    ensures
        !(outbox_filter_met(OutboxListFilter::Pending(t1), record) && outbox_filter_met(OutboxListFilter::Retryable(t2), record)),
        outbox_filter_met(OutboxListFilter::Pending(t1), record) ==> outbox_filter_met(OutboxListFilter::Pending(None), record),
        outbox_filter_met(OutboxListFilter::Retryable(t1), record) ==> outbox_filter_met(OutboxListFilter::Retryable(None), record),
        outbox_filter_met(OutboxListFilter::Pending(None), record) <==> record.outbox_state.state_kind == OutboxStateKind::PendingPublish,
        outbox_filter_met(OutboxListFilter::Retryable(None), record) <==> record.outbox_state.state_kind == OutboxStateKind::RetryableFailed,
{
}


/// Over a usable snapshot, a role read is stale exactly when its summary
/// needs reconciliation or refresh.
pub proof fn lemma_role_read_over_usable_snapshot(
    summary_state: RoleCapabilitySummaryStateKind,
    snapshot: RoleCapabilitySourceSnapshot,
)
    requires
        crate::domain::role_capability::snapshot_usable(snapshot),
    ensures
        role_read_stale(summary_state, snapshot.source_state) <==> summary_needs_reconciliation(summary_state),
{
}

} // verus!
