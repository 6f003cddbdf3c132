use quantalithos_identity::actor::{ActorKind, ActorRef};
use quantalithos_identity::contracts::refs::{
    ArchiveHandoffRef, ArchiveRef, ExternalSourceRef, GlobalMemberId, GlobalMemberRef, IdentityOperationChannel,
    IdentitySourceOwner, IdentitySourceRef, IdentityTimestamp, MemoryRef, MemoryReferenceChangeIntent,
    MemoryReferenceChangeMaterialKind, MemoryReferenceChangeMaterialMarker, MemoryReferenceId, MemoryReferenceReasonKind,
    MemoryReferenceReasonRef, MemoryReferenceRef, MemoryReferenceSourceKind, MemoryReferenceSourceRef,
    MemoryReferenceSourceState, MemoryReferenceSourceSummary, MemorySafeSummaryRef,
};
use quantalithos_identity::domain::errors::IdentityDomainError;
use quantalithos_identity::domain::memory_reference::{MemoryReference, MemoryReferencePolicy, MemoryReferenceStateKind};

fn actor() -> ActorRef {
    ActorRef::new("actor-1", ActorKind::Human)
}

fn timestamp(value: i64) -> IdentityTimestamp {
    IdentityTimestamp::from_clock(value).expect("valid timestamp")
}

fn member_ref(id: &str) -> GlobalMemberRef {
    GlobalMemberRef::from_id(GlobalMemberId::new(id.to_owned()).expect("valid member id"))
}

fn memory_source(token: &str) -> IdentitySourceRef {
    IdentitySourceRef::new(IdentitySourceOwner::MemoryArchive, ExternalSourceRef::new(token.to_owned()).expect("valid external source ref"))
        .expect("valid source ref")
}

fn relation_ref(id: &str) -> MemoryReferenceRef {
    MemoryReferenceRef::from_id(MemoryReferenceId::new(id.to_owned()).expect("valid memory reference id"))
}

fn reason(kind: MemoryReferenceReasonKind) -> MemoryReferenceReasonRef {
    MemoryReferenceReasonRef::new(kind, memory_source("reason-source-1")).expect("valid memory reference reason")
}

fn trusted_summary() -> MemoryReferenceSourceSummary {
    let source_ref = MemoryReferenceSourceRef::new(MemoryReferenceSourceKind::MemorySourceEvent, memory_source("memory-source-1"))
        .expect("valid source ref");
    let memory_ref = MemoryRef::from_source(memory_source("memory-carrier-1")).expect("valid memory ref");

    MemoryReferenceSourceSummary::from_resolver(
        source_ref.clone(),
        Some(memory_ref),
        None,
        None,
        Some(MemorySafeSummaryRef::new(source_ref, "memory-summary-1".to_owned()).expect("valid safe summary")),
        MemoryReferenceSourceState::Trusted,
    )
}

fn handoff_summary(state: MemoryReferenceSourceState) -> MemoryReferenceSourceSummary {
    let source_ref = MemoryReferenceSourceRef::new(MemoryReferenceSourceKind::ArchiveHandoffResult, memory_source("handoff-source-1"))
        .expect("valid handoff source ref");
    let archive_ref = ArchiveRef::from_source(memory_source("archive-carrier-1")).expect("valid archive ref");
    let handoff_ref = ArchiveHandoffRef::new(memory_source("handoff-marker-1"), "handoff-1".to_owned()).expect("valid handoff ref");

    MemoryReferenceSourceSummary::from_resolver(source_ref, None, Some(archive_ref), Some(handoff_ref), None, state)
}

#[test]
fn forbidden_body_is_rejected() {
    let policy = MemoryReferencePolicy::for_link(
        member_ref("member-1"),
        true,
        trusted_summary(),
        reason(MemoryReferenceReasonKind::ManualMaintain),
        actor(),
        IdentityOperationChannel::Command,
        MemoryReferenceChangeMaterialMarker { material_kind: MemoryReferenceChangeMaterialKind::ForbiddenMemoryBody, source_ref: None },
    );

    assert!(matches!(policy.assert_body_free(), Err(IdentityDomainError::PolicyDenied { .. })));
}

#[test]
fn missing_refs_are_rejected() {
    let empty_source_ref = MemoryReferenceSourceRef::new(
        MemoryReferenceSourceKind::ReferenceRefreshMarker,
        IdentitySourceRef::new(
            IdentitySourceOwner::Identity,
            ExternalSourceRef::new("identity-source-1".to_owned()).expect("valid external source ref"),
        )
        .expect("valid source ref"),
    )
    .expect("valid source ref");
    let summary = MemoryReferenceSourceSummary::from_resolver(
        empty_source_ref,
        None,
        None,
        None,
        None,
        MemoryReferenceSourceState::PendingVerification,
    );
    let policy = MemoryReferencePolicy::for_refresh(
        member_ref("member-1"),
        true,
        summary,
        reason(MemoryReferenceReasonKind::SourcePendingVerification),
        actor(),
        IdentityOperationChannel::Command,
        MemoryReferenceChangeMaterialMarker { material_kind: MemoryReferenceChangeMaterialKind::SafeSummaryMarker, source_ref: None },
    );

    assert!(matches!(policy.assert_reference_present(), Err(IdentityDomainError::PolicyDenied { .. })));
}

#[test]
fn pending_verification_and_handoff_rules_are_preserved() {
    let trusted_relation = MemoryReference::link_for_member(
        relation_ref("relation-1"),
        member_ref("member-1"),
        trusted_summary(),
        reason(MemoryReferenceReasonKind::ManualMaintain),
        actor(),
        timestamp(1),
    )
    .expect("trusted link should create relation");
    assert_eq!(trusted_relation.reference_state.state_kind, MemoryReferenceStateKind::Linked);

    let handoff_relation = MemoryReference::from_archive_handoff(
        relation_ref("relation-2"),
        member_ref("member-1"),
        handoff_summary(MemoryReferenceSourceState::HandoffResultAccepted),
        reason(MemoryReferenceReasonKind::ArchiveHandoffResult),
        actor(),
        timestamp(2),
    )
    .expect("accepted handoff should create relation");
    assert!(matches!(
        handoff_relation.reference_state.state_kind,
        MemoryReferenceStateKind::Archived | MemoryReferenceStateKind::HandoffPending
    ));

    let failed_handoff_relation = MemoryReference::from_archive_handoff(
        relation_ref("relation-3"),
        member_ref("member-1"),
        handoff_summary(MemoryReferenceSourceState::HandoffResultFailed),
        reason(MemoryReferenceReasonKind::ArchiveHandoffResult),
        actor(),
        timestamp(3),
    )
    .expect("failed handoff should create relation");
    assert_eq!(failed_handoff_relation.reference_state.state_kind, MemoryReferenceStateKind::HandoffFailed);
}

#[test]
fn accepted_handoff_with_archive_is_archived_and_usable() {
    let relation = MemoryReference::from_archive_handoff(
        relation_ref("relation-2"),
        member_ref("member-1"),
        handoff_summary(MemoryReferenceSourceState::HandoffResultAccepted),
        reason(MemoryReferenceReasonKind::ArchiveHandoffResult),
        actor(),
        timestamp(2),
    )
    .expect("accepted handoff should create relation");
    assert_eq!(relation.reference_state.state_kind, MemoryReferenceStateKind::Archived);
    assert!(relation.reference_state.is_usable_for_summary());
    assert!(relation.reference_state.is_handoff_terminal());
    assert!(!relation.requires_verification());
    assert!(!relation.has_external_body());
}

#[test]
fn link_refuses_stale_source_and_trusted_source_without_memory() {
    let mut stale = trusted_summary();
    stale.source_state = MemoryReferenceSourceState::Stale;
    assert_eq!(
        MemoryReference::link_for_member(
            relation_ref("relation-4"),
            member_ref("member-1"),
            stale,
            reason(MemoryReferenceReasonKind::ManualMaintain),
            actor(),
            timestamp(1),
        )
        .err(),
        Some(IdentityDomainError::PolicyDenied {
            policy: "MemoryReference",
            message: "source summary cannot create linked relation in the current branch",
        })
    );

    let mut no_memory = trusted_summary();
    no_memory.memory_ref = None;
    assert_eq!(
        MemoryReference::link_for_member(
            relation_ref("relation-5"),
            member_ref("member-1"),
            no_memory,
            reason(MemoryReferenceReasonKind::ManualMaintain),
            actor(),
            timestamp(1),
        )
        .err(),
        Some(IdentityDomainError::MissingRequiredField { field: "memory_ref" })
    );
}

#[test]
fn untrusted_link_waits_for_verification_and_policy_channels() {
    let mut untrusted = trusted_summary();
    untrusted.source_state = MemoryReferenceSourceState::Untrusted;
    let relation = MemoryReference::link_for_member(
        relation_ref("relation-6"),
        member_ref("member-1"),
        untrusted.clone(),
        reason(MemoryReferenceReasonKind::SourcePendingVerification),
        actor(),
        timestamp(1),
    )
    .expect("untrusted source creates a pending relation");
    assert_eq!(relation.reference_state.state_kind, MemoryReferenceStateKind::PendingVerification);
    assert!(relation.requires_verification());

    let policy = MemoryReferencePolicy::for_archive_handoff(
        member_ref("member-1"),
        true,
        untrusted,
        reason(MemoryReferenceReasonKind::ManualMaintain),
        actor(),
        IdentityOperationChannel::Job,
        MemoryReferenceChangeMaterialMarker { material_kind: MemoryReferenceChangeMaterialKind::HandoffMarkerOnly, source_ref: None },
    );
    assert_eq!(policy.change_intent, MemoryReferenceChangeIntent::RecordArchiveHandoffResult);
    assert_eq!(
        policy.assert_source_trusted(),
        Err(IdentityDomainError::PolicyDenied {
            policy: "MemoryReferencePolicy",
            message: "source state is not allowed for the requested relation change",
        })
    );
    assert_eq!(
        policy.assert_allowed_write_channel(),
        Err(IdentityDomainError::PolicyDenied { policy: "MemoryReferencePolicy", message: "job channel cannot mutate core identity truth" })
    );
    assert_eq!(
        policy.assert_handoff_marker_body_free(),
        Err(IdentityDomainError::PolicyDenied { policy: "MemoryReferencePolicy", message: "handoff marker must remain body-free" })
    );
}
