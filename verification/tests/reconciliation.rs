use quantalithos_identity::actor::{ActorKind, ActorRef};
use quantalithos_identity::contracts::receipts::{MaintenanceIssueKind, MaintenanceIssueRef};
use quantalithos_identity::contracts::refs::{
    ExternalReferenceKind, ExternalReferenceRef, ExternalReferenceSafeSummaryRef, ExternalSourceRef,
    ExternalSourceVersionRef, GlobalMemberId, GlobalMemberRef, IdentityMaintenanceTargetRef, IdentityOperationChannel,
    IdentityProjectionCursorRef, IdentityProjectionRef, IdentityReferenceOwnerKind, IdentityReferenceOwnerRef,
    IdentitySourceOwner, IdentitySourceRef, IdentityTimestamp, MaintenanceScopeRef, ProjectionStateId,
    ProjectionStateRef, ReconciliationFindingMaterial, ReconciliationFindingMaterialKind, ReconciliationFindingRef,
    ReconciliationReportRef, ReferenceResolutionStateId, ReferenceResolutionStateRef,
};
use quantalithos_identity::domain::errors::IdentityDomainError;
use quantalithos_identity::domain::projection_state::{ProjectionState, ProjectionStateKind};
use quantalithos_identity::domain::reconciliation::{
    IdentityMaintenanceIntent, ReconciliationPolicy, ReconciliationReport, ReconciliationReportStateKind,
};
use quantalithos_identity::domain::reference_state::{ReferenceResolutionState, ReferenceResolutionStateKind};

fn timestamp(value: i64) -> IdentityTimestamp {
    IdentityTimestamp::from_clock(value).expect("valid timestamp")
}

fn source(owner: IdentitySourceOwner, token: &str) -> IdentitySourceRef {
    IdentitySourceRef::new(owner, ExternalSourceRef::new(token.to_owned()).expect("valid external source ref"))
        .expect("valid source ref")
}

fn member_ref() -> GlobalMemberRef {
    GlobalMemberRef::from_id(GlobalMemberId::new("member-1".to_owned()).expect("valid member id"))
}

fn projection_ref() -> IdentityProjectionRef {
    IdentityProjectionRef::new("projection-1".to_owned())
}

fn projection_state_ref() -> ProjectionStateRef {
    ProjectionStateRef::from_id(ProjectionStateId::new("projection-state-1".to_owned()).expect("valid projection state id"))
}

fn projection_cursor_ref() -> IdentityProjectionCursorRef {
    IdentityProjectionCursorRef::new(source(IdentitySourceOwner::Identity, "cursor-1"))
}

fn maintenance_scope_ref() -> MaintenanceScopeRef {
    MaintenanceScopeRef::new(source(IdentitySourceOwner::Identity, "scope-1"))
}

fn maintenance_issue_ref() -> MaintenanceIssueRef {
    MaintenanceIssueRef::new(MaintenanceIssueKind::Unavailable, source(IdentitySourceOwner::Identity, "maintenance-issue-1"))
}

fn reference_owner_ref() -> IdentityReferenceOwnerRef {
    IdentityReferenceOwnerRef::new(IdentityReferenceOwnerKind::Maintenance, source(IdentitySourceOwner::Identity, "owner-1"))
}

fn external_reference_ref() -> ExternalReferenceRef {
    ExternalReferenceRef::new(ExternalReferenceKind::MethodSource, source(IdentitySourceOwner::MethodLibrary, "method-source-1"))
}

fn external_source_version_ref() -> ExternalSourceVersionRef {
    ExternalSourceVersionRef::new(source(IdentitySourceOwner::MethodLibrary, "method-version-1"))
}

fn external_safe_summary_ref() -> ExternalReferenceSafeSummaryRef {
    ExternalReferenceSafeSummaryRef::new(external_reference_ref(), source(IdentitySourceOwner::MethodLibrary, "safe-summary-1"))
}

fn reference_state_ref() -> ReferenceResolutionStateRef {
    ReferenceResolutionStateRef::from_id(
        ReferenceResolutionStateId::new("reference-state-1".to_owned()).expect("valid reference state id"),
    )
}

fn report_ref() -> ReconciliationReportRef {
    ReconciliationReportRef::new("report-1".to_owned())
}

fn actor() -> ActorRef {
    ActorRef::new("actor-1", ActorKind::Human)
}

#[test]
fn query_path_cannot_request_projection_rebuild() {
    let mut state = ProjectionState::stale(
        projection_state_ref(),
        projection_ref(),
        Some(member_ref()),
        projection_cursor_ref(),
        maintenance_scope_ref(),
        timestamp(1),
    );

    let error = state
        .mark_rebuild_pending(maintenance_scope_ref(), timestamp(2), IdentityOperationChannel::Query)
        .expect_err("query channel must not request rebuild");

    assert_eq!(
        error,
        IdentityDomainError::PolicyDenied { policy: "ProjectionState", message: "query channel cannot mutate identity truth" }
    );
    assert_eq!(state.state_kind, ProjectionStateKind::Stale);
}

#[test]
fn projection_rebuild_flow_stays_in_support_state_family() {
    let mut state =
        ProjectionState::fresh(projection_state_ref(), projection_ref(), Some(member_ref()), projection_cursor_ref(), timestamp(1));

    state.mark_stale(projection_cursor_ref(), maintenance_scope_ref(), timestamp(2)).expect("fresh projection can become stale");
    state
        .mark_rebuild_pending(maintenance_scope_ref(), timestamp(3), IdentityOperationChannel::Job)
        .expect("job channel can request rebuild");
    state.mark_rebuilt(projection_cursor_ref(), timestamp(4)).expect("pending rebuild can complete");

    assert_eq!(state.state_kind, ProjectionStateKind::Rebuilt);
    assert!(state.can_serve_read());
    assert!(!state.requires_rebuild());
}

#[test]
fn reference_unavailable_does_not_stay_usable() {
    let mut state = ReferenceResolutionState::resolved(
        reference_state_ref(),
        external_reference_ref(),
        reference_owner_ref(),
        external_source_version_ref(),
        external_safe_summary_ref(),
        timestamp(1),
    );

    assert!(state.is_usable_for_truth_update());

    state.mark_unavailable(maintenance_issue_ref(), timestamp(2)).expect("resolved reference can become unavailable");

    assert_eq!(state.state_kind, ReferenceResolutionStateKind::Unavailable);
    assert!(!state.is_usable_for_truth_update());
    assert!(state.is_report_only());
}

#[test]
fn reconciliation_policy_rejects_truth_repair_and_forbidden_material() {
    let policy = ReconciliationPolicy {
        maintenance_scope_ref: maintenance_scope_ref(),
        operation_channel: IdentityOperationChannel::Job,
        actor_ref: Some(actor()),
        target_ref: IdentityMaintenanceTargetRef::new("target-1".to_owned()),
        maintenance_intent: IdentityMaintenanceIntent::RepairIdentityTruth,
        finding_intent_ref: None,
        finding_material: Some(ReconciliationFindingMaterial {
            material_kind: ReconciliationFindingMaterialKind::ForbiddenExternalBody,
        }),
    };

    let error = policy.assert_report_only().expect_err("repair intent and forbidden material must be rejected");

    assert_eq!(
        error,
        IdentityDomainError::PolicyDenied { policy: "ReconciliationPolicy", message: "maintenance cannot repair identity truth" }
    );
}

#[test]
fn reconciliation_report_stays_report_only() {
    let mut report = ReconciliationReport::generated(
        report_ref(),
        maintenance_scope_ref(),
        vec![IdentityMaintenanceTargetRef::new("target-1".to_owned())],
        vec![ReconciliationFindingRef::new("finding-1".to_owned())],
        vec![],
        Some(actor()),
        timestamp(1),
    )
    .expect("generated report should be valid");

    assert_eq!(report.report_state, ReconciliationReportStateKind::FindingDetected);
    assert!(report.has_findings());

    report.mark_partial(maintenance_issue_ref(), timestamp(2)).expect("finding report may become partial");
    assert_eq!(report.report_state, ReconciliationReportStateKind::Partial);

    report.mark_failed(maintenance_issue_ref(), timestamp(3)).expect("partial report may become failed");
    assert!(report.is_failed());
    report.assert_report_only().expect("report remains report-only material");
}

#[test]
fn generated_report_requires_a_target() {
    let error = ReconciliationReport::generated(report_ref(), maintenance_scope_ref(), vec![], vec![], vec![], None, timestamp(1))
        .expect_err("report without targets must be rejected");
    assert_eq!(error, IdentityDomainError::MissingRequiredField { field: "target_refs" });
}

#[test]
fn generated_report_state_follows_findings_and_issues() {
    let clean = ReconciliationReport::generated(
        report_ref(),
        maintenance_scope_ref(),
        vec![IdentityMaintenanceTargetRef::new("target-1".to_owned())],
        vec![],
        vec![],
        None,
        timestamp(1),
    )
    .expect("clean report");
    assert_eq!(clean.report_state, ReconciliationReportStateKind::Generated);

    let issues_only = ReconciliationReport::generated(
        report_ref(),
        maintenance_scope_ref(),
        vec![IdentityMaintenanceTargetRef::new("target-1".to_owned())],
        vec![],
        vec![maintenance_issue_ref()],
        None,
        timestamp(1),
    )
    .expect("issue-only report");
    assert_eq!(issues_only.report_state, ReconciliationReportStateKind::Partial);
}

#[test]
fn failed_report_rejects_findings_and_second_failure() {
    let mut report =
        ReconciliationReport::failed(report_ref(), maintenance_scope_ref(), maintenance_issue_ref(), None, timestamp(1))
            .expect("failed report");
    assert_eq!(
        report.append_finding(ReconciliationFindingRef::new("finding-2".to_owned()), None),
        Err(IdentityDomainError::InvalidStateTransition {
            entity: "ReconciliationReport",
            message: "finding may be appended only to generated, no-finding, or finding-detected report",
        })
    );
    assert_eq!(
        report.mark_failed(maintenance_issue_ref(), timestamp(2)),
        Err(IdentityDomainError::InvalidStateTransition { entity: "ReconciliationReport", message: "failed report cannot fail again" })
    );
    assert_eq!(report.issue_refs.len(), 1);
    assert_eq!(report.finding_count(), 0);
}

#[test]
fn appending_a_finding_to_a_no_finding_report_detects_it() {
    let mut report = ReconciliationReport::no_finding(
        report_ref(),
        maintenance_scope_ref(),
        vec![IdentityMaintenanceTargetRef::new("target-1".to_owned())],
        None,
        timestamp(1),
    )
    .expect("no-finding report");
    assert_eq!(report.report_state, ReconciliationReportStateKind::NoFinding);
    report
        .append_finding(ReconciliationFindingRef::new("finding-1".to_owned()), Some(maintenance_issue_ref()))
        .expect("finding may be appended");
    assert_eq!(report.report_state, ReconciliationReportStateKind::FindingDetected);
    assert_eq!(report.finding_count(), 1);
    assert_eq!(report.issue_refs.len(), 1);
}

#[test]
fn report_only_policy_checks_run_in_order() {
    let mut policy = ReconciliationPolicy::for_projection_rebuild(
        maintenance_scope_ref(),
        projection_ref(),
        Some(actor()),
        IdentityOperationChannel::Query,
    );
    assert_eq!(policy.target_ref.as_str(), "projection-1");
    assert_eq!(
        policy.assert_report_only(),
        Err(IdentityDomainError::PolicyDenied { policy: "ReconciliationPolicy", message: "query channel cannot mutate identity truth" })
    );
    policy.operation_channel = IdentityOperationChannel::Job;
    assert_eq!(policy.assert_report_only(), Ok(()));
    policy.maintenance_intent = IdentityMaintenanceIntent::RepairExternalTruth;
    assert_eq!(
        policy.assert_report_only(),
        Err(IdentityDomainError::PolicyDenied { policy: "ReconciliationPolicy", message: "maintenance cannot repair external truth" })
    );
}

#[test]
fn reference_refresh_guard_targets_external_source() {
    let policy = ReconciliationPolicy::for_reference_refresh(
        maintenance_scope_ref(),
        external_reference_ref(),
        None,
        IdentityOperationChannel::Job,
    );
    assert_eq!(policy.target_ref.as_str(), "method-source-1");
    assert_eq!(policy.maintenance_intent, IdentityMaintenanceIntent::RefreshReference);
    assert_eq!(policy.assert_body_free(), Ok(()));
}

#[test]
fn forbidden_finding_material_is_rejected_on_a_job_channel() {
    let policy = ReconciliationPolicy::for_reconciliation(
        maintenance_scope_ref(),
        IdentityMaintenanceTargetRef::new("target-1".to_owned()),
        quantalithos_identity::contracts::refs::ReconciliationFindingIntentRef::new("intent-1".to_owned()),
        ReconciliationFindingMaterial { material_kind: ReconciliationFindingMaterialKind::ForbiddenSecret },
        None,
        IdentityOperationChannel::Job,
    );
    assert_eq!(
        policy.assert_report_only(),
        Err(IdentityDomainError::PolicyDenied {
            policy: "ReconciliationPolicy",
            message: "reconciliation finding material must remain body-free",
        })
    );
}

#[test]
fn pending_rebuild_cannot_be_served_and_only_resolves_from_pending() {
    let mut state =
        ProjectionState::fresh(projection_state_ref(), projection_ref(), None, projection_cursor_ref(), timestamp(1));
    assert_eq!(
        state.mark_rebuilt(projection_cursor_ref(), timestamp(2)),
        Err(IdentityDomainError::InvalidStateTransition {
            entity: "ProjectionState",
            message: "projection can be marked rebuilt only from rebuild pending state",
        })
    );
    state.mark_rebuild_pending(maintenance_scope_ref(), timestamp(2), IdentityOperationChannel::Job).expect("pending");
    assert!(!state.can_serve_read());
    state.mark_rebuild_failed(maintenance_issue_ref(), timestamp(3)).expect("failed");
    assert!(state.requires_rebuild());
    assert!(state.can_serve_read());
    assert_eq!(state.checked_at, timestamp(3));
}

#[test]
fn refresh_failed_reference_needs_reconciliation_and_can_go_stale() {
    let mut state = ReferenceResolutionState::unavailable(
        reference_state_ref(),
        external_reference_ref(),
        reference_owner_ref(),
        maintenance_issue_ref(),
        timestamp(1),
    );
    assert_eq!(
        state.mark_stale(external_source_version_ref(), timestamp(2)),
        Err(IdentityDomainError::InvalidStateTransition {
            entity: "ReferenceResolutionState",
            message: "reference state can become stale only from resolved or refresh failed state",
        })
    );
    state.mark_refresh_failed(maintenance_issue_ref(), timestamp(2)).expect("unavailable refresh can fail");
    assert!(state.requires_reconciliation());
    state.mark_stale(external_source_version_ref(), timestamp(3)).expect("failed refresh can go stale");
    assert_eq!(state.state_kind, ReferenceResolutionStateKind::Stale);
    assert!(!state.is_usable_for_truth_update());
}
