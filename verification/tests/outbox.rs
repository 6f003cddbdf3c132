use quantalithos_identity::contracts::refs::{
    ExternalSourceRef, GlobalMemberId, GlobalMemberRef, IdentityChangeKind, IdentityChangeKindRef,
    IdentityOutboxPayloadMarkerRef, IdentityOutboxRecordRef, IdentityOutboxSubjectRef, IdentitySourceOwner,
    IdentitySourceRef, IdentityTimestamp, IdentityTraceRecordRef, OutboxDeliveryAttemptRef, OutboxDeliveryIssueRef,
    TopicKeyRef, VisibilityContextRef,
};
use quantalithos_identity::domain::errors::IdentityDomainError;
use quantalithos_identity::domain::outbox::{
    IdentityOutboxRecord, IdentityOutboxRecordCreateArgs, OutboundEventPolicy, OutboundEventPolicyArgs, OutboxState,
    OutboxStateKind,
};

fn timestamp(value: i64) -> IdentityTimestamp {
    IdentityTimestamp::from_clock(value).expect("valid timestamp")
}

fn source(token: &str) -> IdentitySourceRef {
    IdentitySourceRef::new(IdentitySourceOwner::Identity, ExternalSourceRef::new(token.to_owned()).expect("valid external source ref"))
        .expect("valid source ref")
}

fn member_ref() -> GlobalMemberRef {
    GlobalMemberRef::from_id(GlobalMemberId::new("member-1".to_owned()).expect("valid member id"))
}

fn outbox_record() -> IdentityOutboxRecord {
    IdentityOutboxRecord::from_accepted_change(IdentityOutboxRecordCreateArgs {
        outbox_record_ref: IdentityOutboxRecordRef::new("outbox-1".to_owned()),
        member_ref: member_ref(),
        subject_ref: IdentityOutboxSubjectRef::new("subject-1".to_owned()),
        change_kind_ref: IdentityChangeKindRef::new(IdentityChangeKind::DerivedMarkerChanged, None),
        payload_marker_ref: IdentityOutboxPayloadMarkerRef::new("payload-1".to_owned()),
        topic_key_ref: TopicKeyRef::new("identity.lifecycle.changed.v1".to_owned()),
        trace_record_ref: IdentityTraceRecordRef::new("trace-1".to_owned()),
        created_at: timestamp(1),
    })
    .expect("accepted outbox")
}

fn attempt_ref() -> OutboxDeliveryAttemptRef {
    OutboxDeliveryAttemptRef::new(source("attempt-1"))
}

fn issue_ref() -> OutboxDeliveryIssueRef {
    OutboxDeliveryIssueRef::new(source("issue-1"))
}

#[test]
fn accepted_outbox_factory_creates_pending_state() {
    let record = outbox_record();

    assert_eq!(record.outbox_state.state_kind, OutboxStateKind::PendingPublish);
    assert_eq!(record.created_at, timestamp(1));
    assert_eq!(record.updated_at, timestamp(1));
}

#[test]
fn accepted_outbox_factory_requires_trace_record() {
    let error = IdentityOutboxRecord::from_accepted_change(IdentityOutboxRecordCreateArgs {
        outbox_record_ref: IdentityOutboxRecordRef::new("outbox-trace-missing".to_owned()),
        member_ref: member_ref(),
        subject_ref: IdentityOutboxSubjectRef::new("subject-1".to_owned()),
        change_kind_ref: IdentityChangeKindRef::new(IdentityChangeKind::DerivedMarkerChanged, None),
        payload_marker_ref: IdentityOutboxPayloadMarkerRef::new("payload-1".to_owned()),
        topic_key_ref: TopicKeyRef::new("identity.lifecycle.changed.v1".to_owned()),
        trace_record_ref: IdentityTraceRecordRef::new("".to_owned()),
        created_at: timestamp(1),
    })
    .expect_err("missing trace should be rejected");

    assert_eq!(error, IdentityDomainError::invalid_input("trace_record_ref", "accepted outbox requires a formal trace record"));
}

#[test]
fn outbound_policy_requires_visibility_context() {
    let error = OutboundEventPolicy::for_outbox(OutboundEventPolicyArgs {
        subject_ref: IdentityOutboxSubjectRef::new("subject-1".to_owned()),
        change_kind_ref: IdentityChangeKindRef::new(IdentityChangeKind::DerivedMarkerChanged, None),
        payload_marker_ref: IdentityOutboxPayloadMarkerRef::new("payload-1".to_owned()),
        topic_key_ref: TopicKeyRef::new("identity.lifecycle.changed.v1".to_owned()),
        visibility_context_ref: VisibilityContextRef::new("".to_owned()),
    })
    .expect_err("missing visibility context should fail");

    assert_eq!(error, IdentityDomainError::invalid_input("visibility_context_ref", "outbound policy requires a visibility context marker"));
}

#[test]
fn retry_selector_only_picks_retryable_outbox() {
    let pending = OutboxState::pending(timestamp(1));
    let retryable = OutboxState::retryable_failed(issue_ref(), timestamp(2));
    let published = OutboxState::published(attempt_ref(), timestamp(3));
    let failed = OutboxState::failed(issue_ref(), timestamp(4));

    assert!(!pending.is_retryable());
    assert!(retryable.is_retryable());
    assert!(!published.is_retryable());
    assert!(!failed.is_retryable());
}

#[test]
fn published_outbox_is_terminal_for_retry() {
    let mut record = outbox_record();
    record.mark_published(OutboxState::published(attempt_ref(), timestamp(2))).expect("pending outbox can be published");

    assert!(record.outbox_state.is_terminal());
    assert!(!record.is_retryable());

    let error = record
        .mark_retryable_failed(OutboxState::retryable_failed(issue_ref(), timestamp(3)))
        .expect_err("published outbox must remain terminal");

    assert_eq!(
        error,
        IdentityDomainError::InvalidStateTransition {
            entity: "IdentityOutboxRecord",
            message: "terminal outbox state cannot become retryable failed",
        }
    );
}

#[test]
fn failed_outbox_remains_terminal() {
    let mut record = outbox_record();
    record.mark_failed(OutboxState::failed(issue_ref(), timestamp(2))).expect("pending outbox can fail");

    assert!(record.outbox_state.is_terminal());
    assert!(!record.is_retryable());

    let error = record
        .mark_published(OutboxState::published(attempt_ref(), timestamp(3)))
        .expect_err("failed outbox must not publish later");

    assert_eq!(
        error,
        IdentityDomainError::InvalidStateTransition {
            entity: "IdentityOutboxRecord",
            message: "terminal outbox state cannot be published again",
        }
    );
}

#[test]
fn published_state_without_attempt_is_rejected_as_input() {
    let mut record = outbox_record();
    let mut state = OutboxState::published(attempt_ref(), timestamp(2));
    state.attempt_ref = None;
    assert_eq!(
        record.mark_published(state),
        Err(IdentityDomainError::invalid_input("outbox_state", "published outbox state requires an attempt marker"))
    );
    assert_eq!(record.outbox_state.state_kind, OutboxStateKind::PendingPublish);
}

#[test]
fn outbox_factory_reports_first_missing_marker() {
    let error = IdentityOutboxRecord::from_accepted_change(IdentityOutboxRecordCreateArgs {
        outbox_record_ref: IdentityOutboxRecordRef::new("outbox-2".to_owned()),
        member_ref: member_ref(),
        subject_ref: IdentityOutboxSubjectRef::new("subject-1".to_owned()),
        change_kind_ref: IdentityChangeKindRef::new(IdentityChangeKind::DerivedMarkerChanged, None),
        payload_marker_ref: IdentityOutboxPayloadMarkerRef::new("".to_owned()),
        topic_key_ref: TopicKeyRef::new("".to_owned()),
        trace_record_ref: IdentityTraceRecordRef::new("trace-1".to_owned()),
        created_at: timestamp(1),
    })
    .expect_err("missing payload should be rejected");
    assert_eq!(error, IdentityDomainError::invalid_input("payload_marker_ref", "accepted outbox requires a body-free payload marker"));
}
