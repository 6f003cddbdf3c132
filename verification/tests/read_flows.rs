use quantalithos_identity::actor::{ActorKind, ActorRef};
use quantalithos_identity::application::errors::ApplicationErrorKind;
use quantalithos_identity::application::query::{
    audit_entry_views, audit_trail_matches, gate_read_surface, decide_projection_state_read, degraded_operations_surface,
    degraded_surface_from_access, lifecycle_summary_view, member_anchor_view, member_summary_slice_step,
    operations_item_gate, operations_page_start, operations_page_surface, outbox_selector_matches,
    projection_state_ref_matches, rebuilding_surface, reconciliation_report_view, role_capability_summary_view,
    role_capability_surface, surface_for_truth_query, MemberSummarySliceStep, OperationsItemGate, OutboxListFilter,
    ProjectionStateReadStep, TruthSurfaceStep,
};
use quantalithos_identity::contracts::metadata::{IdentityDegradedKind, IdentityQueryDisposition};
use quantalithos_identity::contracts::protocol::IdentityQueryName;
use quantalithos_identity::contracts::refs::{
    AuditScopeRef, AuditTrailRef, CapabilityEvidenceKind, CapabilityEvidenceRef, ConsumerRef, ExternalSourceRef,
    GlobalMemberId, GlobalMemberRef, IdentityAuditSubjectRef, IdentityChangeKind, IdentityChangeKindRef,
    IdentityDegradedMarkerRef, IdentityMaintenanceTargetRef, IdentityOutboxPayloadMarkerRef, IdentityOutboxRecordRef,
    IdentityOutboxSubjectRef, IdentityProjectionCursorRef, IdentityProjectionRef, IdentityReadSubjectRef,
    IdentityReadSurfaceKind, IdentityRedactionMarkerRef, IdentitySourceOwner, IdentitySourceRef, IdentityTimestamp,
    IdentityTraceRecordRef, IdentityVisibilityDecisionRef, MaintenanceScopeRef, MemberSummaryViewRef,
    ProjectionFreshnessMarkerRef, ProjectionStateId, ProjectionStateRef, ReconciliationFindingRef, ReconciliationReportRef,
    ReconciliationReportStateKind as PublicReportStateKind, RoleCapabilitySafeSummaryRef, RoleCapabilitySourceKind,
    RoleCapabilitySourceRef, RoleCapabilitySourceSnapshotId, RoleCapabilitySourceSnapshotRef,
    RoleCapabilitySourceVersionRef, RoleCapabilitySummaryId, RoleCapabilitySummaryRef, TopicKeyRef,
    VisibilityContextRef, VisibilityResultRef, VisibilityScopeRef,
};
use quantalithos_identity::contracts::views::{
    IdentityReadMaterialKind, IdentityReadMaterialMarker, IdentityVisibilityAccessState, IdentityVisibilityAccessSummary,
    MemberSummarySliceKind, MemberSummarySliceRef, MemberSummaryView,
};
use quantalithos_identity::domain::audit::{AuditTrail, AuditTrailEntry};
use quantalithos_identity::contracts::refs::IdentityAnchorStateKind as PublicAnchorStateKind;
use quantalithos_identity::domain::lifecycle::{GlobalLifecycleState, GlobalLifecycleStateKind};
use quantalithos_identity::domain::member_identity::GlobalMember;
use quantalithos_identity::domain::outbox::{IdentityOutboxRecord, IdentityOutboxRecordCreateArgs};
use quantalithos_identity::domain::projection_state::ProjectionState;
use quantalithos_identity::domain::reconciliation::ReconciliationReport;
use quantalithos_identity::domain::role_capability::{
    RoleCapabilitySourceSnapshot, RoleCapabilitySourceStateKind, RoleCapabilitySummary, RoleCapabilitySummaryStateKind,
};

fn timestamp(value: i64) -> IdentityTimestamp {
    IdentityTimestamp::from_clock(value).expect("valid timestamp")
}

fn source(owner: IdentitySourceOwner, token: &str) -> IdentitySourceRef {
    IdentitySourceRef::new(owner, ExternalSourceRef::new(token.to_owned()).expect("valid external source ref"))
        .expect("valid source ref")
}

fn member(id: &str) -> GlobalMemberRef {
    GlobalMemberRef::from_id(GlobalMemberId::new(id.to_owned()).expect("valid member id"))
}

fn decision_ref() -> IdentityVisibilityDecisionRef {
    IdentityVisibilityDecisionRef::new("decision-1".to_owned())
}

fn access(state: IdentityVisibilityAccessState, result: &str) -> IdentityVisibilityAccessSummary {
    IdentityVisibilityAccessSummary {
        read_subject_ref: IdentityReadSubjectRef::new("subject-1".to_owned()),
        consumer_ref: ConsumerRef::new("consumer-1".to_owned()),
        actor_ref: None,
        visibility_context_ref: VisibilityContextRef::new("context-1".to_owned()),
        scope_ref: VisibilityScopeRef::new("scope-1".to_owned()),
        access_state: state,
        redaction_profile_ref: None,
        redaction_marker_ref: None,
        visibility_result_ref: VisibilityResultRef::new(result.to_owned()),
        degraded_marker_ref: None,
        degraded_kind: None,
    }
}

fn visible(result: &str) -> IdentityVisibilityAccessSummary {
    access(IdentityVisibilityAccessState::Visible, result)
}

fn redacted(result: &str) -> IdentityVisibilityAccessSummary {
    let mut a = access(IdentityVisibilityAccessState::Redacted, result);
    a.redaction_marker_ref = Some(IdentityRedactionMarkerRef::new("redaction-1".to_owned()));
    a
}

fn degraded(result: &str) -> IdentityVisibilityAccessSummary {
    let mut a = access(IdentityVisibilityAccessState::Degraded, result);
    a.degraded_marker_ref = Some(IdentityDegradedMarkerRef::new("degraded-1".to_owned()));
    a.degraded_kind = Some(IdentityDegradedKind::DependencyUnavailable);
    a
}

fn view(kind: IdentityReadSurfaceKind) -> MemberSummaryView {
    let owner = member("member-1");
    let mut view = MemberSummaryView::from_projection(
        MemberSummaryViewRef::new("view-1".to_owned()),
        owner.clone(),
        VisibilityScopeRef::new("scope-1".to_owned()),
        MemberSummarySliceRef::new(MemberSummarySliceKind::Anchor, owner.clone(), source(IdentitySourceOwner::Identity, "anchor-1")),
        MemberSummarySliceRef::new(MemberSummarySliceKind::Lifecycle, owner.clone(), source(IdentitySourceOwner::Identity, "lifecycle-1")),
        vec![MemberSummarySliceRef::new(MemberSummarySliceKind::RoleCapability, owner, source(IdentitySourceOwner::Identity, "role-1"))],
        Vec::new(),
        Vec::new(),
        VisibilityResultRef::new("view-result-1".to_owned()),
        None,
        IdentityReadMaterialMarker::new(IdentityReadMaterialKind::SafeSummaryRefs, None),
    )
    .expect("valid view");
    view.read_surface_kind = kind;
    view
}

fn projection_state() -> ProjectionState {
    ProjectionState::fresh(
        ProjectionStateRef::from_id(ProjectionStateId::new("projection-state-1".to_owned()).expect("valid id")),
        IdentityProjectionRef::new("projection-1".to_owned()),
        None,
        IdentityProjectionCursorRef::new(source(IdentitySourceOwner::Identity, "cursor-1")),
        timestamp(1),
    )
}

fn read_projection(
    first: IdentityVisibilityAccessSummary,
    loaded: Option<ProjectionState>,
    requested: Option<ProjectionStateRef>,
    final_access: Option<IdentityVisibilityAccessSummary>,
) -> ProjectionStateReadStep {
    decide_projection_state_read(
        IdentityQueryName::new("GetProjectionState".to_owned()),
        &first,
        loaded,
        &requested,
        final_access,
        decision_ref(),
        timestamp(3),
    )
    .expect("decided")
}

#[test]
fn projection_state_read_follows_the_stored_state() {
    match read_projection(visible("r-1"), Some(projection_state()), None, Some(visible("r-2"))) {
        ProjectionStateReadStep::Respond(response) => {
            assert_eq!(response.surface.disposition, IdentityQueryDisposition::Visible);
            let body = response.body.expect("fresh state body");
            assert_eq!(body.visibility_result_ref, VisibilityResultRef::new("r-2".to_owned()));
            assert_eq!(body.checked_at, Some(timestamp(1)));
        },
        other => panic!("unexpected {:?}", other),
    }

    let mut stale = projection_state();
    stale.state_kind = quantalithos_identity::domain::projection_state::ProjectionStateKind::Stale;
    match read_projection(visible("r-1"), Some(stale), None, Some(visible("r-2"))) {
        ProjectionStateReadStep::Respond(response) => {
            assert_eq!(response.surface.disposition, IdentityQueryDisposition::StaleVisible);
            assert_eq!(
                response.surface.projection_freshness_ref,
                Some(ProjectionFreshnessMarkerRef {
                    projection_ref: IdentityProjectionRef::new("projection-1".to_owned()),
                    state_kind: "stale".to_owned(),
                })
            );
            assert!(response.body.is_some());
        },
        other => panic!("unexpected {:?}", other),
    }

    let mut pending = projection_state();
    pending.state_kind = quantalithos_identity::domain::projection_state::ProjectionStateKind::RebuildPending;
    match read_projection(visible("r-1"), Some(pending), None, Some(visible("r-2"))) {
        ProjectionStateReadStep::Respond(response) => {
            assert_eq!(response.surface.disposition, IdentityQueryDisposition::Rebuilding);
            assert!(response.surface.degraded.is_none());
            assert!(response.body.is_none());
        },
        other => panic!("unexpected {:?}", other),
    }
}

#[test]
fn projection_state_read_gates_and_checks_the_requested_ref() {
    match read_projection(access(IdentityVisibilityAccessState::NotVisible, "r-1"), Some(projection_state()), None, None) {
        ProjectionStateReadStep::Respond(response) => {
            assert_eq!(response.surface.disposition, IdentityQueryDisposition::NotVisible);
            assert!(response.body.is_none());
        },
        other => panic!("unexpected {:?}", other),
    }
    match read_projection(visible("r-1"), None, None, None) {
        ProjectionStateReadStep::Respond(response) => assert_eq!(response.surface.disposition, IdentityQueryDisposition::Missing),
        other => panic!("unexpected {:?}", other),
    }
    let other_ref = ProjectionStateRef::from_id(ProjectionStateId::new("projection-state-9".to_owned()).expect("valid id"));
    assert!(!projection_state_ref_matches(&Some(other_ref.clone()), &projection_state()));
    assert_eq!(read_projection(visible("r-1"), Some(projection_state()), Some(other_ref), None), ProjectionStateReadStep::StateRefMismatch);
    let err = decide_projection_state_read(
        IdentityQueryName::new("GetProjectionState".to_owned()),
        &visible("r-1"),
        Some(projection_state()),
        &None,
        None,
        decision_ref(),
        timestamp(3),
    )
    .expect_err("no loaded access");
    assert_eq!(err.kind, ApplicationErrorKind::InvalidRequest);
}

#[test]
fn operations_surfaces_degrade_and_rebuild() {
    let degraded_surface = degraded_operations_surface(&redacted("r-1"), true, decision_ref(), timestamp(1)).expect("surface");
    assert_eq!(degraded_surface.disposition, IdentityQueryDisposition::Degraded);
    assert_eq!(degraded_surface.visibility.read_surface_kind, IdentityReadSurfaceKind::Degraded);
    assert_eq!(degraded_surface.visibility.redaction_marker_ref, Some(IdentityRedactionMarkerRef::new("redaction-1".to_owned())));
    let rebuilding = rebuilding_surface(&visible("r-1"), decision_ref(), timestamp(1)).expect("surface");
    assert_eq!(rebuilding.disposition, IdentityQueryDisposition::Rebuilding);
    assert_eq!(rebuilding.visibility.read_surface_kind, IdentityReadSurfaceKind::Degraded);
    let stale = degraded_surface_from_access(&degraded("r-1"), IdentityReadSurfaceKind::Stale, IdentityDegradedKind::ProjectionStale, decision_ref(), timestamp(1))
        .expect("surface");
    assert_eq!(stale.disposition, IdentityQueryDisposition::Degraded);
    assert_eq!(stale.visibility.read_surface_kind, IdentityReadSurfaceKind::Stale);
    assert_eq!(stale.degraded.expect("degraded shell").degraded_kind, IdentityDegradedKind::ProjectionStale);
}

#[test]
fn operations_page_gates_items_and_picks_its_surface() {
    let selector = visible("r-0");
    let mut state = operations_page_start();
    assert_eq!(
        operations_item_gate(&mut state, &access(IdentityVisibilityAccessState::NotVisible, "r-1"), decision_ref(), timestamp(1)).expect("gate"),
        OperationsItemGate::Skip
    );
    assert_eq!(state.denied_count, 1);
    let hidden = operations_page_surface(&state, true, &selector, decision_ref(), timestamp(1)).expect("surface");
    assert_eq!(hidden.disposition, IdentityQueryDisposition::NotVisible);
    assert_eq!(hidden.visibility.visibility_result_ref, VisibilityResultRef::new("r-1".to_owned()));

    assert_eq!(operations_item_gate(&mut state, &redacted("r-2"), decision_ref(), timestamp(1)).expect("gate"), OperationsItemGate::Admit);
    let partial = operations_page_surface(&state, false, &selector, decision_ref(), timestamp(1)).expect("surface");
    assert_eq!(partial.disposition, IdentityQueryDisposition::Redacted);
    assert_eq!(partial.visibility.visibility_result_ref, VisibilityResultRef::new("r-2".to_owned()));

    match operations_item_gate(&mut state, &degraded("r-3"), decision_ref(), timestamp(1)).expect("gate") {
        OperationsItemGate::Stop(surface) => assert_eq!(surface.disposition, IdentityQueryDisposition::Degraded),
        other => panic!("unexpected {:?}", other),
    }

    let clean = operations_page_start();
    let listed = operations_page_surface(&clean, false, &selector, decision_ref(), timestamp(1)).expect("surface");
    assert_eq!(listed.disposition, IdentityQueryDisposition::Visible);
    assert_eq!(listed.visibility.read_surface_kind, IdentityReadSurfaceKind::Found);
}

#[test]
fn outbox_filters_match_the_listing() {
    let record = IdentityOutboxRecord::from_accepted_change(IdentityOutboxRecordCreateArgs {
        outbox_record_ref: IdentityOutboxRecordRef::new("outbox-1".to_owned()),
        member_ref: member("member-1"),
        subject_ref: IdentityOutboxSubjectRef::new("subject-1".to_owned()),
        change_kind_ref: IdentityChangeKindRef::new(IdentityChangeKind::DerivedMarkerChanged, None),
        payload_marker_ref: IdentityOutboxPayloadMarkerRef::new("payload-1".to_owned()),
        topic_key_ref: TopicKeyRef::new("topic-1".to_owned()),
        trace_record_ref: IdentityTraceRecordRef::new("trace-1".to_owned()),
        created_at: timestamp(1),
    })
    .expect("accepted outbox");
    assert!(outbox_selector_matches(&OutboxListFilter::Pending(None), &record));
    assert!(outbox_selector_matches(&OutboxListFilter::Pending(Some(TopicKeyRef::new("topic-1".to_owned()))), &record));
    assert!(!outbox_selector_matches(&OutboxListFilter::Pending(Some(TopicKeyRef::new("topic-2".to_owned()))), &record));
    assert!(!outbox_selector_matches(&OutboxListFilter::Retryable(None), &record));
    assert!(outbox_selector_matches(&OutboxListFilter::Subject(IdentityOutboxSubjectRef::new("subject-1".to_owned())), &record));
    assert!(!outbox_selector_matches(&OutboxListFilter::Trace(IdentityTraceRecordRef::new("trace-2".to_owned())), &record));
}

#[test]
fn reconciliation_view_carries_the_report() {
    let report = ReconciliationReport::generated(
        ReconciliationReportRef::new("report-1".to_owned()),
        MaintenanceScopeRef::new(source(IdentitySourceOwner::Identity, "scope-1")),
        vec![IdentityMaintenanceTargetRef::new("target-1".to_owned())],
        vec![ReconciliationFindingRef::new("finding-1".to_owned())],
        vec![],
        Some(ActorRef::new("actor-1", ActorKind::Human)),
        timestamp(1),
    )
    .expect("report");
    let view = reconciliation_report_view(&visible("r-4"), report);
    assert_eq!(view.report_state, PublicReportStateKind::FindingDetected);
    assert_eq!(view.finding_refs.len(), 1);
    assert_eq!(view.visibility_result_ref, VisibilityResultRef::new("r-4".to_owned()));
}

#[test]
fn truth_reads_join_the_member_summary_view() {
    let mut foreign = view(IdentityReadSurfaceKind::Found);
    foreign.member_ref = member("member-2");
    assert_eq!(member_summary_slice_step(&visible("r-1"), &member("member-1"), None), MemberSummarySliceStep::ViewMissing);
    assert_eq!(member_summary_slice_step(&visible("r-1"), &member("member-1"), Some(foreign)), MemberSummarySliceStep::ViewInvalidOwner);
    assert_eq!(
        member_summary_slice_step(&visible("r-1"), &member("member-1"), Some(view(IdentityReadSurfaceKind::Found))),
        MemberSummarySliceStep::Slice(view(IdentityReadSurfaceKind::Found))
    );

    assert_eq!(
        surface_for_truth_query(&visible("r-1"), &Some(view(IdentityReadSurfaceKind::Stale)), true, decision_ref(), timestamp(1)).expect("step"),
        TruthSurfaceStep::MissingFreshness
    );
    match surface_for_truth_query(&redacted("r-1"), &None, false, decision_ref(), timestamp(1)).expect("step") {
        TruthSurfaceStep::Surface(surface) => {
            assert_eq!(surface.disposition, IdentityQueryDisposition::Redacted);
            assert_eq!(surface.visibility.read_surface_kind, IdentityReadSurfaceKind::Redacted);
        },
        other => panic!("unexpected {:?}", other),
    }
}

fn role_source() -> RoleCapabilitySourceRef {
    RoleCapabilitySourceRef::new(RoleCapabilitySourceKind::RoleCapabilityBundle, source(IdentitySourceOwner::MethodLibrary, "method-source-1"))
        .expect("valid canonical source ref")
}

fn snapshot() -> RoleCapabilitySourceSnapshot {
    let source_ref = role_source();
    RoleCapabilitySourceSnapshot::from_resolved_source(
        RoleCapabilitySourceSnapshotRef::from_id(RoleCapabilitySourceSnapshotId::new("snapshot-1".to_owned()).expect("valid snapshot id")),
        source_ref.clone(),
        RoleCapabilitySourceVersionRef::new(source_ref.clone(), "v1".to_owned()).expect("valid version"),
        RoleCapabilitySafeSummaryRef::new(source_ref, "summary-1".to_owned()).expect("valid safe summary"),
        vec![CapabilityEvidenceRef::new(CapabilityEvidenceKind::MethodArtifact, source(IdentitySourceOwner::MethodLibrary, "evidence-1"))
            .expect("valid evidence")],
        timestamp(1),
    )
    .expect("resolved snapshot")
}

fn role_summary(snapshot: &RoleCapabilitySourceSnapshot) -> RoleCapabilitySummary {
    RoleCapabilitySummary::create_for_member(
        RoleCapabilitySummaryRef::from_id(RoleCapabilitySummaryId::new("summary-1".to_owned()).expect("valid summary id")),
        member("member-1"),
        snapshot,
        snapshot.safe_summary_ref.clone().expect("safe summary"),
        snapshot.evidence_refs.clone(),
        ActorRef::new("actor-1", ActorKind::Human),
        timestamp(2),
    )
    .expect("active summary")
}

#[test]
fn role_capability_read_degrades_when_stale_and_redacts_fields() {
    let snapshot = snapshot();
    let mut summary = role_summary(&snapshot);
    match role_capability_surface(&visible("r-1"), &summary, &snapshot, &None, decision_ref(), timestamp(1)).expect("surface") {
        TruthSurfaceStep::Surface(surface) => assert_eq!(surface.disposition, IdentityQueryDisposition::Visible),
        other => panic!("unexpected {:?}", other),
    }
    summary.summary_state = RoleCapabilitySummaryStateKind::Unavailable;
    match role_capability_surface(&degraded("r-1"), &summary, &snapshot, &None, decision_ref(), timestamp(1)).expect("surface") {
        TruthSurfaceStep::Surface(surface) => {
            assert_eq!(surface.disposition, IdentityQueryDisposition::Degraded);
            assert_eq!(surface.visibility.read_surface_kind, IdentityReadSurfaceKind::Stale);
            assert_eq!(surface.degraded.expect("shell").degraded_kind, IdentityDegradedKind::SourceUnavailable);
        },
        other => panic!("unexpected {:?}", other),
    }
    let mut stale_snapshot = snapshot.clone();
    stale_snapshot.source_state = RoleCapabilitySourceStateKind::SourceStale;
    summary.summary_state = RoleCapabilitySummaryStateKind::Active;
    let err = role_capability_surface(&visible("r-1"), &summary, &stale_snapshot, &None, decision_ref(), timestamp(1))
        .expect_err("a visible access has no degraded marker");
    assert_eq!(err.message, "degraded query surface requires a formal degraded marker");

    let shown = role_capability_summary_view(&visible("r-1"), &summary, &snapshot, &Some(view(IdentityReadSurfaceKind::Found)));
    assert_eq!(shown.evidence_refs.len(), 1);
    assert!(shown.safe_summary_ref.is_some());
    assert_eq!(shown.member_summary_view_ref, Some(MemberSummaryViewRef::new("view-1".to_owned())));
    assert_eq!(shown.role_capability_slice_refs.len(), 1);
    let hidden = role_capability_summary_view(&redacted("r-1"), &summary, &snapshot, &None);
    assert!(hidden.evidence_refs.is_empty());
    assert!(hidden.safe_summary_ref.is_none());
    assert!(hidden.role_capability_slice_refs.is_empty());
}

#[test]
fn lifecycle_and_anchor_views_redact_their_sources() {
    let lifecycle = GlobalLifecycleState {
        state_kind: GlobalLifecycleStateKind::Paused,
        reason_ref: quantalithos_identity::contracts::refs::LifecycleReasonRef::new(
            quantalithos_identity::contracts::refs::LifecycleReasonKind::ManualPause,
            source(IdentitySourceOwner::Identity, "reason-1"),
        )
        .expect("reason"),
        changed_by_ref: ActorRef::new("actor-1", ActorKind::Human),
        changed_at: timestamp(4),
        basis_ref: None,
    };
    let shown = lifecycle_summary_view(&visible("r-1"), &member("member-1"), &lifecycle, &Some(view(IdentityReadSurfaceKind::Found)));
    assert!(shown.reason_ref.is_some());
    assert!(shown.lifecycle_slice_ref.is_some());
    let hidden = lifecycle_summary_view(&redacted("r-1"), &member("member-1"), &lifecycle, &None);
    assert!(hidden.reason_ref.is_none());
    assert!(hidden.changed_by_ref.is_none());
    assert_eq!(hidden.changed_at, timestamp(4));

    let established = GlobalMember::establish(
        member("member-1"),
        source(IdentitySourceOwner::Account, "account-1"),
        ActorRef::new("actor-1", ActorKind::Human),
        timestamp(1),
    )
    .expect("member established");
    let anchor = member_anchor_view(&visible("r-1"), &established, &Some(view(IdentityReadSurfaceKind::Found)));
    assert_eq!(anchor.anchor_state_kind, PublicAnchorStateKind::Established);
    assert_eq!(anchor.source_ref, Some(source(IdentitySourceOwner::Account, "account-1")));
    assert_eq!(anchor.member_summary_view_ref, Some(MemberSummaryViewRef::new("view-1".to_owned())));
    let hidden_anchor = member_anchor_view(&redacted("r-1"), &established, &None);
    assert!(hidden_anchor.source_ref.is_none());
    assert!(hidden_anchor.anchor_slice_ref.is_none());
}

#[test]
fn audit_entries_are_viewed_in_order() {
    let entry = |trace: &str| AuditTrailEntry {
        trace_record_ref: IdentityTraceRecordRef::new(trace.to_owned()),
        change_kind_ref: IdentityChangeKindRef::new(IdentityChangeKind::LifecycleChanged, None),
        visibility_result_ref: VisibilityResultRef::new("entry-result-1".to_owned()),
        occurred_at: timestamp(1),
    };
    let trail = AuditTrail::from_accepted_write(
        AuditTrailRef::new("trail-1".to_owned()),
        IdentityAuditSubjectRef::new("audit-subject-1".to_owned()),
        Some(member("member-1")),
        AuditScopeRef::new("scope-1".to_owned()),
        entry("trace-1"),
        VisibilityResultRef::new("result-1".to_owned()),
        timestamp(2),
    )
    .expect("trail");
    assert!(audit_trail_matches(&trail, &IdentityAuditSubjectRef::new("audit-subject-1".to_owned()), &member("member-1")));
    assert!(!audit_trail_matches(&trail, &IdentityAuditSubjectRef::new("audit-subject-1".to_owned()), &member("member-2")));
    assert!(!audit_trail_matches(&trail, &IdentityAuditSubjectRef::new("audit-subject-2".to_owned()), &member("member-1")));
    let views = audit_entry_views(&trail, &AuditScopeRef::new("scope-1".to_owned()), &member("member-1"), &vec![entry("trace-1"), entry("trace-2")]);
    assert_eq!(views.len(), 2);
    assert_eq!(views[1].trace_record_ref, IdentityTraceRecordRef::new("trace-2".to_owned()));
    assert_eq!(views[0].audit_trail_ref, AuditTrailRef::new("trail-1".to_owned()));
    assert_eq!(views[0].member_ref, Some(member("member-1")));
}

#[test]
fn the_visibility_gate_admits_or_answers() {
    assert_eq!(gate_read_surface(&visible("r-1"), decision_ref(), timestamp(1)).expect("gate"), None);
    assert_eq!(gate_read_surface(&redacted("r-1"), decision_ref(), timestamp(1)).expect("gate"), None);
    let hidden = gate_read_surface(&access(IdentityVisibilityAccessState::NotVisible, "r-1"), decision_ref(), timestamp(1))
        .expect("gate")
        .expect("answered");
    assert_eq!(hidden.disposition, IdentityQueryDisposition::NotVisible);
    let unavailable = gate_read_surface(&degraded("r-1"), decision_ref(), timestamp(1)).expect("gate").expect("answered");
    assert_eq!(unavailable.disposition, IdentityQueryDisposition::Degraded);
    assert!(gate_read_surface(&access(IdentityVisibilityAccessState::Unavailable, "r-1"), decision_ref(), timestamp(1)).is_err());
}
