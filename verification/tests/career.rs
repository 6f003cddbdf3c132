use quantalithos_identity::actor::{ActorKind, ActorRef};
use quantalithos_identity::contracts::refs::{
    CareerAppendMaterialKind, CareerAppendMaterialMarker, CareerAppendReasonKind, CareerAppendReasonRef,
    CareerRecordChangeIntent, CareerRecordId, CareerRecordRef, CareerSafeSummaryRef, CareerSourceMarkerRef,
    ExternalSourceRef, GlobalMemberId, GlobalMemberRef, IdentityOperationChannel, IdentitySourceOwner, IdentitySourceRef,
    IdentityTimestamp, ProjectParticipationRef, WorkParticipationSourceState, WorkParticipationSourceSummary,
    WorkSourceKind, WorkSourceRef,
};
use quantalithos_identity::domain::career::{CareerAppendPolicy, CareerRecord, CareerRecordStateKind};
use quantalithos_identity::domain::errors::IdentityDomainError;

fn actor() -> ActorRef {
    ActorRef::new("actor-1", ActorKind::Human)
}

fn timestamp(value: i64) -> IdentityTimestamp {
    IdentityTimestamp::from_clock(value).expect("valid timestamp")
}

fn member_ref(id: &str) -> GlobalMemberRef {
    GlobalMemberRef::from_id(GlobalMemberId::new(id.to_owned()).expect("valid member id"))
}

fn source(owner: IdentitySourceOwner, token: &str) -> IdentitySourceRef {
    IdentitySourceRef::new(owner, ExternalSourceRef::new(token.to_owned()).expect("valid external source ref"))
        .expect("valid source ref")
}

fn work_source(token: &str, kind: WorkSourceKind) -> WorkSourceRef {
    WorkSourceRef::new(kind, source(IdentitySourceOwner::Work, token)).expect("valid work source")
}

fn source_summary(state: WorkParticipationSourceState) -> WorkParticipationSourceSummary {
    let member_ref = member_ref("member-1");
    let work_source_ref = work_source("work-source-1", WorkSourceKind::ProjectParticipationAccepted);
    WorkParticipationSourceSummary::from_resolver(
        ProjectParticipationRef::from_work_source(source(IdentitySourceOwner::Work, "project-participation-1"))
            .expect("valid project participation ref"),
        work_source_ref.clone(),
        CareerSourceMarkerRef::new(member_ref.clone(), work_source_ref.clone(), "marker-1".to_owned()).expect("valid source marker"),
        if state == WorkParticipationSourceState::Trusted {
            Some(CareerSafeSummaryRef::new(work_source_ref, "safe-summary-1".to_owned()).expect("valid safe summary"))
        } else {
            None
        },
        state,
    )
}

fn append_reason(kind: CareerAppendReasonKind) -> CareerAppendReasonRef {
    CareerAppendReasonRef::new(kind, source(IdentitySourceOwner::Identity, "identity-source-1")).expect("valid append reason")
}

fn record_ref(id: &str) -> CareerRecordRef {
    CareerRecordRef::from_id(CareerRecordId::new(id.to_owned()).expect("valid record id"))
}

#[test]
fn duplicate_source_is_rejected() {
    let policy = CareerAppendPolicy::for_append(
        member_ref("member-1"),
        true,
        source_summary(WorkParticipationSourceState::Trusted),
        vec![record_ref("record-1")],
        append_reason(CareerAppendReasonKind::ManualAppend),
        actor(),
        IdentityOperationChannel::Command,
        CareerRecordChangeIntent::AppendNew,
        CareerAppendMaterialMarker { material_kind: CareerAppendMaterialKind::SafeSummaryMarker, source_ref: None },
    );

    assert!(matches!(policy.assert_not_duplicate(), Err(IdentityDomainError::PolicyDenied { .. })));
}

#[test]
fn correction_supersedes_original_record() {
    let trusted_summary = source_summary(WorkParticipationSourceState::Trusted);
    let correction = CareerRecord::correction_for_record(
        record_ref("record-2"),
        record_ref("record-1"),
        member_ref("member-1"),
        trusted_summary.clone(),
        append_reason(CareerAppendReasonKind::CorrectionAppend),
        actor(),
        timestamp(2),
    )
    .expect("correction record created");

    let mut original = CareerRecord::append_from_work_source(
        record_ref("record-1"),
        member_ref("member-1"),
        trusted_summary,
        append_reason(CareerAppendReasonKind::ManualAppend),
        actor(),
        timestamp(1),
    )
    .expect("original append created");

    original
        .mark_superseded_by_correction(correction.career_record_ref.clone(), actor(), timestamp(3))
        .expect("original should be superseded by correction");

    assert_eq!(original.record_state, CareerRecordStateKind::SupersededByCorrection);
}

#[test]
fn pending_review_requires_explicit_review_path() {
    let pending_summary = source_summary(WorkParticipationSourceState::PendingReview);
    let record = CareerRecord::pending_review(
        record_ref("record-3"),
        member_ref("member-1"),
        pending_summary,
        append_reason(CareerAppendReasonKind::SourcePendingReview),
        actor(),
        timestamp(4),
    )
    .expect("pending review record created");
    assert_eq!(record.record_state, CareerRecordStateKind::SourcePendingReview);

    let pending_append_policy = CareerAppendPolicy::for_append(
        member_ref("member-1"),
        true,
        source_summary(WorkParticipationSourceState::PendingReview),
        Vec::new(),
        append_reason(CareerAppendReasonKind::ManualAppend),
        actor(),
        IdentityOperationChannel::Command,
        CareerRecordChangeIntent::AppendNew,
        CareerAppendMaterialMarker { material_kind: CareerAppendMaterialKind::SourceMarkerOnly, source_ref: None },
    );
    assert!(matches!(pending_append_policy.assert_source_trusted(), Err(IdentityDomainError::PolicyDenied { .. })));
}

#[test]
fn superseded_record_cannot_be_superseded_again() {
    let mut original = CareerRecord::append_from_work_source(
        record_ref("record-1"),
        member_ref("member-1"),
        source_summary(WorkParticipationSourceState::Trusted),
        append_reason(CareerAppendReasonKind::ManualAppend),
        actor(),
        timestamp(1),
    )
    .expect("original append created");
    original.mark_superseded_by_correction(record_ref("record-2"), actor(), timestamp(2)).expect("first supersession");
    assert_eq!(
        original.mark_superseded_by_correction(record_ref("record-3"), actor(), timestamp(3)),
        Err(IdentityDomainError::InvalidStateTransition {
            entity: "CareerRecord",
            message: "only appended records may be superseded by correction",
        })
    );
    assert_eq!(original.superseded_by_ref, Some(record_ref("record-2")));
    assert!(original.is_append_only());
}

#[test]
fn untrusted_source_cannot_append_mainline_record() {
    let result = CareerRecord::append_from_work_source(
        record_ref("record-1"),
        member_ref("member-1"),
        source_summary(WorkParticipationSourceState::Untrusted),
        append_reason(CareerAppendReasonKind::ManualAppend),
        actor(),
        timestamp(1),
    );
    assert_eq!(
        result.err(),
        Some(IdentityDomainError::PolicyDenied { policy: "CareerRecord", message: "trusted work source is required for mainline append" })
    );
}

#[test]
fn career_policy_guards_intent_material_and_channel() {
    let policy = CareerAppendPolicy::for_correction(
        member_ref("member-1"),
        false,
        source_summary(WorkParticipationSourceState::Trusted),
        Vec::new(),
        append_reason(CareerAppendReasonKind::CorrectionAppend),
        actor(),
        IdentityOperationChannel::Query,
        CareerAppendMaterialMarker { material_kind: CareerAppendMaterialKind::ForbiddenWorkItemBody, source_ref: None },
    );
    assert_eq!(policy.change_intent, CareerRecordChangeIntent::AppendCorrection);
    assert_eq!(policy.assert_append_only(), Ok(()));
    assert_eq!(
        policy.assert_member_exists(),
        Err(IdentityDomainError::PolicyDenied { policy: "CareerAppendPolicy", message: "career append requires an established member" })
    );
    assert_eq!(
        policy.assert_not_work_truth_write(),
        Err(IdentityDomainError::PolicyDenied { policy: "CareerAppendPolicy", message: "work truth body cannot enter identity career truth" })
    );
    assert_eq!(
        policy.assert_allowed_write_channel(),
        Err(IdentityDomainError::PolicyDenied { policy: "CareerAppendPolicy", message: "query channel cannot mutate identity truth" })
    );
}
