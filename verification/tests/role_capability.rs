use quantalithos_identity::actor::{ActorKind, ActorRef};
use quantalithos_identity::contracts::refs::{
    CapabilityEvidenceKind, CapabilityEvidenceRef, ExternalSourceRef, GlobalMemberId, GlobalMemberRef,
    IdentityOperationChannel, IdentitySourceOwner, IdentitySourceRef, IdentityTimestamp, RoleCapabilityChangeMaterialKind,
    RoleCapabilityChangeMaterialMarker, RoleCapabilityChangeReasonKind, RoleCapabilityChangeReasonRef,
    RoleCapabilitySafeSummaryRef, RoleCapabilitySourceKind, RoleCapabilitySourceRef, RoleCapabilitySourceSnapshotId,
    RoleCapabilitySourceSnapshotRef, RoleCapabilitySourceVersionRef, RoleCapabilitySummaryId, RoleCapabilitySummaryRef,
    RoleSourceRef,
};
use quantalithos_identity::domain::errors::IdentityDomainError;
use quantalithos_identity::domain::role_capability::{
    RoleCapabilitySourcePolicy, RoleCapabilitySourceSnapshot, RoleCapabilitySourceStateKind, RoleCapabilitySummary,
    RoleCapabilitySummaryStateKind,
};

fn actor() -> ActorRef {
    ActorRef::new("actor-1", ActorKind::Human)
}

fn timestamp(value: i64) -> IdentityTimestamp {
    IdentityTimestamp::from_clock(value).expect("valid timestamp")
}

fn member_ref(id: &str) -> GlobalMemberRef {
    GlobalMemberRef::from_id(GlobalMemberId::new(id.to_owned()).expect("valid member id"))
}

fn source_ref(token: &str) -> RoleCapabilitySourceRef {
    RoleCapabilitySourceRef::new(
        RoleCapabilitySourceKind::RoleCapabilityBundle,
        IdentitySourceRef::new(IdentitySourceOwner::MethodLibrary, ExternalSourceRef::new(token.to_owned()).expect("valid external source ref"))
            .expect("valid source ref"),
    )
    .expect("valid canonical source ref")
}

fn source_version(source_ref: &RoleCapabilitySourceRef, token: &str) -> RoleCapabilitySourceVersionRef {
    RoleCapabilitySourceVersionRef::new(source_ref.clone(), token.to_owned()).expect("valid source version ref")
}

fn safe_summary(source_ref: &RoleCapabilitySourceRef, token: &str) -> RoleCapabilitySafeSummaryRef {
    RoleCapabilitySafeSummaryRef::new(source_ref.clone(), token.to_owned()).expect("valid safe summary ref")
}

fn evidence(source_owner: IdentitySourceOwner, token: &str) -> CapabilityEvidenceRef {
    let source_ref = IdentitySourceRef::new(source_owner, ExternalSourceRef::new(token.to_owned()).expect("valid external source ref"))
        .expect("valid evidence source");

    let kind = match source_owner {
        IdentitySourceOwner::MethodLibrary => CapabilityEvidenceKind::MethodArtifact,
        IdentitySourceOwner::Governance => CapabilityEvidenceKind::GovernanceBasis,
        IdentitySourceOwner::Work => CapabilityEvidenceKind::WorkParticipationSummary,
        IdentitySourceOwner::Identity => CapabilityEvidenceKind::IdentitySafeMarker,
        _ => CapabilityEvidenceKind::IdentitySafeMarker,
    };

    CapabilityEvidenceRef::new(kind, source_ref).expect("valid capability evidence ref")
}

fn resolved_snapshot() -> RoleCapabilitySourceSnapshot {
    let source_ref = source_ref("method-source-1");
    RoleCapabilitySourceSnapshot::from_resolved_source(
        RoleCapabilitySourceSnapshotRef::from_id(RoleCapabilitySourceSnapshotId::new("snapshot-1".to_owned()).expect("valid snapshot id")),
        source_ref.clone(),
        source_version(&source_ref, "v1"),
        safe_summary(&source_ref, "summary-1"),
        vec![evidence(IdentitySourceOwner::MethodLibrary, "method-evidence-1")],
        timestamp(1),
    )
    .expect("resolved snapshot")
}

#[test]
fn active_summary_requires_resolved_usable_snapshot() {
    let snapshot = resolved_snapshot();
    let summary = RoleCapabilitySummary::create_for_member(
        RoleCapabilitySummaryRef::from_id(RoleCapabilitySummaryId::new("summary-1".to_owned()).expect("valid summary id")),
        member_ref("member-1"),
        &snapshot,
        snapshot.safe_summary_ref.clone().expect("resolved snapshot has safe summary"),
        snapshot.evidence_refs.clone(),
        actor(),
        timestamp(2),
    )
    .expect("active summary should be created");

    assert_eq!(summary.summary_state, RoleCapabilitySummaryStateKind::Active);
}

#[test]
fn non_resolved_snapshot_cannot_create_active_summary() {
    let source_ref = source_ref("method-source-1");
    let snapshot = RoleCapabilitySourceSnapshot::unavailable(
        RoleCapabilitySourceSnapshotRef::from_id(RoleCapabilitySourceSnapshotId::new("snapshot-2".to_owned()).expect("valid snapshot id")),
        source_ref.clone(),
        source_version(&source_ref, "v2"),
        timestamp(2),
    );

    let result = RoleCapabilitySummary::create_for_member(
        RoleCapabilitySummaryRef::from_id(RoleCapabilitySummaryId::new("summary-2".to_owned()).expect("valid summary id")),
        member_ref("member-1"),
        &snapshot,
        safe_summary(&source_ref, "summary-2"),
        vec![evidence(IdentitySourceOwner::MethodLibrary, "method-evidence-2")],
        actor(),
        timestamp(3),
    );

    assert!(matches!(result, Err(IdentityDomainError::PolicyDenied { .. })));
}

#[test]
fn forbidden_material_is_rejected() {
    let snapshot = resolved_snapshot();
    let policy = RoleCapabilitySourcePolicy::for_summary_update(
        member_ref("member-1"),
        snapshot,
        vec![evidence(IdentitySourceOwner::MethodLibrary, "method-evidence-1")],
        RoleCapabilityChangeReasonRef::new(
            RoleCapabilityChangeReasonKind::ManualSummaryMaintenance,
            IdentitySourceRef::new(
                IdentitySourceOwner::Identity,
                ExternalSourceRef::new("identity-source-1".to_owned()).expect("valid external source ref"),
            )
            .expect("valid source ref"),
        )
        .expect("valid change reason"),
        actor(),
        IdentityOperationChannel::Command,
        RoleCapabilityChangeMaterialMarker::new(RoleCapabilityChangeMaterialKind::ForbiddenDefinitionBody, None),
    );

    assert!(matches!(policy.assert_no_forbidden_body(), Err(IdentityDomainError::PolicyDenied { .. })));
}

#[test]
fn unavailable_and_unrecognized_snapshots_keep_formal_version() {
    let source_ref = source_ref("method-source-1");
    let version_ref = source_version(&source_ref, "v3");
    let unavailable = RoleCapabilitySourceSnapshot::unavailable(
        RoleCapabilitySourceSnapshotRef::from_id(RoleCapabilitySourceSnapshotId::new("snapshot-3".to_owned()).expect("valid snapshot id")),
        source_ref.clone(),
        version_ref.clone(),
        timestamp(4),
    );
    assert_eq!(unavailable.source_version_ref, version_ref);

    let unrecognized = RoleCapabilitySourceSnapshot::unrecognized(
        RoleCapabilitySourceSnapshotRef::from_id(RoleCapabilitySourceSnapshotId::new("snapshot-4".to_owned()).expect("valid snapshot id")),
        source_ref.clone(),
        source_version(&source_ref, "v4"),
        timestamp(5),
    );
    assert_eq!(unrecognized.source_state, RoleCapabilitySourceStateKind::SourceUnrecognized);
}

#[test]
fn superseded_snapshot_refuses_further_moves() {
    let mut snapshot = resolved_snapshot();
    let canonical = source_ref("method-source-1");
    snapshot.mark_superseded(source_version(&canonical, "v9"), timestamp(6)).expect("supersede");
    assert!(snapshot.is_superseded());
    assert!(!snapshot.is_usable_for_summary());
    assert_eq!(
        snapshot.mark_unavailable(timestamp(7)),
        Err(IdentityDomainError::InvalidStateTransition {
            entity: "RoleCapabilitySourceSnapshot",
            message: "superseded snapshot cannot transition",
        })
    );
    let other = source_ref("method-source-2");
    let mut fresh = resolved_snapshot();
    assert_eq!(
        fresh.mark_stale(source_version(&other, "v2"), timestamp(8)),
        Err(IdentityDomainError::InvalidInput { field: "source_version_ref", message: "new version ref does not belong to source ref" })
    );
}

#[test]
fn source_change_policy_is_attributed_to_the_system_actor() {
    let snapshot = resolved_snapshot();
    let mut summary = RoleCapabilitySummary::create_for_member(
        RoleCapabilitySummaryRef::from_id(RoleCapabilitySummaryId::new("summary-1".to_owned()).expect("valid summary id")),
        member_ref("member-1"),
        &snapshot,
        snapshot.safe_summary_ref.clone().expect("safe summary"),
        snapshot.evidence_refs.clone(),
        actor(),
        timestamp(2),
    )
    .expect("summary");
    let role_source = RoleSourceRef::from_source(source_ref("method-source-1")).expect("role source");
    summary.attach_role_source(role_source, &snapshot, actor(), timestamp(3)).expect("attach role source");

    let policy = RoleCapabilitySourcePolicy::for_source_change(
        &summary,
        resolved_snapshot(),
        IdentityOperationChannel::Consumer,
        RoleCapabilityChangeMaterialMarker::new(RoleCapabilityChangeMaterialKind::SourceVersionMarker, None),
    );
    assert_eq!(policy.actor_ref, ActorRef::system("role-capability-source-change"));
    assert_eq!(policy.change_reason_ref.reason_kind, RoleCapabilityChangeReasonKind::SourceChanged);
    assert_eq!(policy.change_reason_ref.source_ref, source_ref("method-source-1").source_ref);
    assert_eq!(policy.evidence_refs.len(), 1);
    assert_eq!(policy.assert_source_usable(), Ok(()));
    assert_eq!(policy.assert_not_automatic_scoring(), Ok(()));
}

#[test]
fn summary_updates_require_sources_and_evidence() {
    let snapshot = resolved_snapshot();
    let mut summary = RoleCapabilitySummary::create_for_member(
        RoleCapabilitySummaryRef::from_id(RoleCapabilitySummaryId::new("summary-1".to_owned()).expect("valid summary id")),
        member_ref("member-1"),
        &snapshot,
        snapshot.safe_summary_ref.clone().expect("safe summary"),
        snapshot.evidence_refs.clone(),
        actor(),
        timestamp(2),
    )
    .expect("summary");
    assert_eq!(
        summary.update_capability_summary(Vec::new(), snapshot.evidence_refs.clone(), snapshot.safe_summary_ref.clone().unwrap(), actor(), timestamp(3)),
        Err(IdentityDomainError::MissingRequiredField { field: "capability_source_refs" })
    );
    summary.mark_stale(&snapshot, timestamp(4)).expect("stale");
    assert!(summary.requires_reconciliation());
    assert_eq!(summary.summary_state, RoleCapabilitySummaryStateKind::Stale);
}
