use quantalithos_identity::application::errors::ApplicationErrorKind;
use quantalithos_identity::application::query::{
    decide_outbox_state_read, decide_trace_handoff_read, reference_resolution_state_view, reference_sidecar_refs_view,
    reference_state_precheck, reference_state_surface, ExternalReferenceTypedSidecarRefs, HandoffStateReadStep,
    ReferenceStatePrecheck,
};
use quantalithos_identity::contracts::metadata::IdentityQueryDisposition;
use quantalithos_identity::contracts::protocol::IdentityQueryName;
use quantalithos_identity::contracts::receipts::TraceHandoffIntentRef;
use quantalithos_identity::contracts::refs::{
    AuditTrailRef, ConsumerRef, ExternalReferenceKind, ExternalReferenceRef, ExternalReferenceSafeSummaryRef,
    ExternalSourceRef, ExternalSourceVersionRef, GlobalMemberId, GlobalMemberRef, HandoffScopeRef, HandoffTargetRef,
    IdentityChangeKind, IdentityChangeKindRef, IdentityOutboxPayloadMarkerRef,
    IdentityOutboxRecordRef, IdentityOutboxSubjectRef, IdentityReadSubjectRef, IdentityReadSurfaceKind,
    IdentityReferenceOwnerKind, IdentityReferenceOwnerRef, IdentitySourceOwner, IdentitySourceRef, IdentityTimestamp,
    IdentityTraceRecordRef, IdentityVisibilityDecisionRef, OutboxStateKind as PublicOutboxStateKind,
    ReferenceResolutionStateId, ReferenceResolutionStateKind as PublicReferenceStateKind, ReferenceResolutionStateRef,
    TopicKeyRef, TraceHandoffSafeMaterialRef, VisibilityContextRef, VisibilityResultRef, VisibilityScopeRef,
};
use quantalithos_identity::contracts::views::{IdentityVisibilityAccessState, IdentityVisibilityAccessSummary};
use quantalithos_identity::domain::handoff::{HandoffState, HandoffStateKind, TraceHandoffIntent};
use quantalithos_identity::domain::outbox::{IdentityOutboxRecord, IdentityOutboxRecordCreateArgs};
use quantalithos_identity::domain::reference_state::{ReferenceResolutionState, ReferenceResolutionStateKind};

fn timestamp(value: i64) -> IdentityTimestamp {
    IdentityTimestamp::from_clock(value).expect("valid timestamp")
}

fn source(owner: IdentitySourceOwner, token: &str) -> IdentitySourceRef {
    IdentitySourceRef::new(owner, ExternalSourceRef::new(token.to_owned()).expect("valid external source ref"))
        .expect("valid source ref")
}

fn decision_ref() -> IdentityVisibilityDecisionRef {
    IdentityVisibilityDecisionRef::new("decision-1".to_owned())
}

fn access(state: IdentityVisibilityAccessState, result: &str) -> IdentityVisibilityAccessSummary {
    IdentityVisibilityAccessSummary {
        read_subject_ref: IdentityReadSubjectRef::new("subject-1".to_owned()),
        consumer_ref: ConsumerRef::new("consumer-1".to_owned()),
        actor_ref: None,
        visibility_context_ref: VisibilityContextRef::new("context-1".to_owned()),
        scope_ref: VisibilityScopeRef::new("scope-1".to_owned()),
        access_state: state,
        redaction_profile_ref: None,
        redaction_marker_ref: None,
        visibility_result_ref: VisibilityResultRef::new(result.to_owned()),
        degraded_marker_ref: None,
        degraded_kind: None,
    }
}

fn visible(result: &str) -> IdentityVisibilityAccessSummary {
    access(IdentityVisibilityAccessState::Visible, result)
}

fn outbox_record() -> IdentityOutboxRecord {
    IdentityOutboxRecord::from_accepted_change(IdentityOutboxRecordCreateArgs {
        outbox_record_ref: IdentityOutboxRecordRef::new("outbox-1".to_owned()),
        member_ref: GlobalMemberRef::from_id(GlobalMemberId::new("member-1".to_owned()).expect("valid member id")),
        subject_ref: IdentityOutboxSubjectRef::new("subject-1".to_owned()),
        change_kind_ref: IdentityChangeKindRef::new(IdentityChangeKind::DerivedMarkerChanged, None),
        payload_marker_ref: IdentityOutboxPayloadMarkerRef::new("payload-1".to_owned()),
        topic_key_ref: TopicKeyRef::new("topic-1".to_owned()),
        trace_record_ref: IdentityTraceRecordRef::new("trace-1".to_owned()),
        created_at: timestamp(1),
    })
    .expect("accepted outbox")
}

fn outbox_name() -> IdentityQueryName {
    IdentityQueryName::new("GetIdentityOutboxState".to_owned())
}

#[test]
fn outbox_state_read_gates_twice_then_answers() {
    let response = decide_outbox_state_read(outbox_name(), &visible("r-1"), Some(outbox_record()), Some(visible("r-2")), decision_ref(), timestamp(2))
        .expect("decided");
    let body = response.body.expect("state body");
    assert_eq!(body.outbox_state_kind, PublicOutboxStateKind::PendingPublish);
    assert_eq!(body.visibility_result_ref, VisibilityResultRef::new("r-2".to_owned()));
    assert_eq!(response.surface.disposition, IdentityQueryDisposition::Visible);

    let missing = decide_outbox_state_read(outbox_name(), &visible("r-1"), None, None, decision_ref(), timestamp(2)).expect("decided");
    assert_eq!(missing.surface.disposition, IdentityQueryDisposition::Missing);
    assert!(missing.body.is_none());

    let hidden = decide_outbox_state_read(
        outbox_name(),
        &visible("r-1"),
        Some(outbox_record()),
        Some(access(IdentityVisibilityAccessState::NotVisible, "r-2")),
        decision_ref(),
        timestamp(2),
    )
    .expect("decided");
    assert_eq!(hidden.surface.disposition, IdentityQueryDisposition::NotVisible);
    assert!(hidden.body.is_none());

    let err = decide_outbox_state_read(outbox_name(), &visible("r-1"), Some(outbox_record()), None, decision_ref(), timestamp(2))
        .expect_err("loaded access unresolved");
    assert_eq!(err.kind, ApplicationErrorKind::InvalidRequest);
    assert_eq!(err.message, "loaded outbox state visibility could not form a canonical subject");
}

fn handoff_intent() -> TraceHandoffIntent {
    TraceHandoffIntent {
        handoff_intent_ref: TraceHandoffIntentRef::new("handoff-1".to_owned()),
        member_ref: GlobalMemberRef::from_id(GlobalMemberId::new("member-1".to_owned()).expect("valid member id")),
        trace_record_refs: vec![IdentityTraceRecordRef::new("trace-1".to_owned())],
        audit_trail_ref: Some(AuditTrailRef::new("audit-1".to_owned())),
        handoff_target_ref: HandoffTargetRef::new("target-1".to_owned()),
        handoff_scope_ref: HandoffScopeRef::new("scope-1".to_owned()),
        safe_material_ref: TraceHandoffSafeMaterialRef::new("material-1".to_owned()),
        handoff_state: HandoffState::pending(timestamp(1)),
        created_at: timestamp(1),
        updated_at: timestamp(1),
    }
}

#[test]
fn handoff_state_read_names_its_defects() {
    let name = || IdentityQueryName::new("GetTraceHandoffState".to_owned());
    match decide_trace_handoff_read(name(), &visible("r-1"), Some(handoff_intent()), decision_ref(), timestamp(2)).expect("decided") {
        HandoffStateReadStep::Respond(response) => {
            let body = response.body.expect("handoff body");
            assert_eq!(body.trace_record_refs.len(), 1);
            assert_eq!(body.visibility_result_ref, VisibilityResultRef::new("r-1".to_owned()));
        },
        other => panic!("unexpected {:?}", other),
    }
    let mut empty = handoff_intent();
    empty.trace_record_refs = Vec::new();
    assert_eq!(
        decide_trace_handoff_read(name(), &visible("r-1"), Some(empty), decision_ref(), timestamp(2)).expect("decided"),
        HandoffStateReadStep::EmptyTraceRefs
    );
    let mut delivered = handoff_intent();
    delivered.handoff_state.state_kind = HandoffStateKind::Delivered;
    delivered.handoff_state.receipt_ref = None;
    assert_eq!(
        decide_trace_handoff_read(name(), &visible("r-1"), Some(delivered), decision_ref(), timestamp(2)).expect("decided"),
        HandoffStateReadStep::DeliveredWithoutReceipt
    );
}

fn external_reference_ref(token: &str) -> ExternalReferenceRef {
    ExternalReferenceRef::new(ExternalReferenceKind::MethodSource, source(IdentitySourceOwner::MethodLibrary, token))
}

fn owner(token: &str) -> IdentityReferenceOwnerRef {
    IdentityReferenceOwnerRef::new(IdentityReferenceOwnerKind::Maintenance, source(IdentitySourceOwner::Identity, token))
}

fn reference_state() -> ReferenceResolutionState {
    ReferenceResolutionState::resolved(
        ReferenceResolutionStateRef::from_id(ReferenceResolutionStateId::new("reference-state-1".to_owned()).expect("valid id")),
        external_reference_ref("method-source-1"),
        owner("owner-1"),
        ExternalSourceVersionRef::new(source(IdentitySourceOwner::MethodLibrary, "method-version-1")),
        ExternalReferenceSafeSummaryRef::new(external_reference_ref("method-source-1"), source(IdentitySourceOwner::MethodLibrary, "summary-1")),
        timestamp(1),
    )
}

fn no_sidecars() -> ExternalReferenceTypedSidecarRefs {
    ExternalReferenceTypedSidecarRefs {
        role_capability_safe_summary_ref: None,
        career_safe_summary_ref: None,
        memory_safe_summary_ref: None,
        governance_basis_summary_ref: None,
        evidence_summary_ref: None,
        source_version_ref: None,
    }
}

#[test]
fn reference_state_is_checked_viewed_and_surfaced() {
    let state = reference_state();
    assert_eq!(reference_state_precheck(&external_reference_ref("method-source-1"), &None, &state).expect("checked"), ReferenceStatePrecheck::Proceed);
    assert_eq!(
        reference_state_precheck(&external_reference_ref("method-source-1"), &Some(owner("owner-2")), &state).expect("checked"),
        ReferenceStatePrecheck::OwnerMismatch
    );
    let err = reference_state_precheck(&external_reference_ref("method-source-2"), &None, &state).expect_err("other reference");
    assert_eq!(err.kind, ApplicationErrorKind::ConsistencyDefect);

    assert!(reference_sidecar_refs_view(no_sidecars()).is_none());
    let mut versioned = no_sidecars();
    versioned.source_version_ref = Some(ExternalSourceVersionRef::new(source(IdentitySourceOwner::MethodLibrary, "method-version-1")));
    let sidecars = reference_sidecar_refs_view(versioned).expect("a sidecar is kept");
    assert!(sidecars.source_version_ref.is_some());

    let view = reference_resolution_state_view(&visible("r-3"), &state, no_sidecars());
    assert_eq!(view.state_kind, Some(PublicReferenceStateKind::Resolved));
    assert!(view.sidecar_refs.is_none());
    assert_eq!(view.visibility_result_ref, VisibilityResultRef::new("r-3".to_owned()));

    let resolved = reference_state_surface(&visible("r-3"), ReferenceResolutionStateKind::Resolved, decision_ref(), timestamp(2)).expect("surface");
    assert_eq!(resolved.disposition, IdentityQueryDisposition::Visible);
    let stale = reference_state_surface(&visible("r-3"), ReferenceResolutionStateKind::Stale, decision_ref(), timestamp(2)).expect("surface");
    assert_eq!(stale.disposition, IdentityQueryDisposition::StaleVisible);
    let failed = reference_state_surface(&visible("r-3"), ReferenceResolutionStateKind::RefreshFailed, decision_ref(), timestamp(2)).expect("surface");
    assert_eq!(failed.disposition, IdentityQueryDisposition::Degraded);
    assert_eq!(failed.visibility.read_surface_kind, IdentityReadSurfaceKind::Degraded);
}
