use quantalithos_identity::contracts::receipts::TraceHandoffIntentRef;
use quantalithos_identity::contracts::refs::{
    AuditTrailRef, ExternalSourceRef, GlobalMemberId, GlobalMemberRef, HandoffAttemptRef, HandoffIssueRef,
    HandoffReceiptRef, HandoffScopeRef, HandoffTargetRef, IdentitySourceOwner, IdentitySourceRef, IdentityTimestamp,
    IdentityTraceRecordRef, TraceHandoffSafeMaterialRef,
};
use quantalithos_identity::domain::errors::IdentityDomainError;
use quantalithos_identity::domain::handoff::{HandoffState, TraceHandoffIntent};

fn timestamp(value: i64) -> IdentityTimestamp {
    IdentityTimestamp::from_clock(value).expect("valid timestamp")
}

fn source(token: &str) -> IdentitySourceRef {
    IdentitySourceRef::new(IdentitySourceOwner::Identity, ExternalSourceRef::new(token.to_owned()).expect("valid external source ref"))
        .expect("valid source ref")
}

fn member_ref() -> GlobalMemberRef {
    GlobalMemberRef::from_id(GlobalMemberId::new("member-1".to_owned()).expect("valid member id"))
}

fn handoff_intent() -> TraceHandoffIntent {
    TraceHandoffIntent {
        handoff_intent_ref: TraceHandoffIntentRef::new("handoff-1".to_owned()),
        member_ref: member_ref(),
        trace_record_refs: vec![IdentityTraceRecordRef::new("trace-1".to_owned())],
        audit_trail_ref: Some(AuditTrailRef::new("audit-1".to_owned())),
        handoff_target_ref: HandoffTargetRef::new("target-1".to_owned()),
        handoff_scope_ref: HandoffScopeRef::new("scope-1".to_owned()),
        safe_material_ref: TraceHandoffSafeMaterialRef::new("material-1".to_owned()),
        handoff_state: HandoffState::pending(timestamp(1)),
        created_at: timestamp(1),
        updated_at: timestamp(1),
    }
}

fn attempt_ref() -> HandoffAttemptRef {
    HandoffAttemptRef::new(source("attempt-1"))
}

fn receipt_ref() -> HandoffReceiptRef {
    HandoffReceiptRef::new("receipt-1".to_owned())
}

fn issue_ref() -> HandoffIssueRef {
    HandoffIssueRef::new(source("issue-1"))
}

#[test]
fn retry_selector_only_picks_retryable_handoff() {
    let pending = HandoffState::pending(timestamp(1));
    let retryable = HandoffState::retryable_failed(attempt_ref(), issue_ref(), timestamp(2));
    let delivered = HandoffState::delivered(attempt_ref(), receipt_ref(), timestamp(3));
    let cancelled = HandoffState::cancelled(issue_ref(), timestamp(4));

    assert!(!pending.is_retryable());
    assert!(retryable.is_retryable());
    assert!(!delivered.is_retryable());
    assert!(!cancelled.is_retryable());
}

#[test]
fn delivered_handoff_is_terminal_for_retry() {
    let mut intent = handoff_intent();
    intent
        .mark_delivered(HandoffState::delivered(attempt_ref(), receipt_ref(), timestamp(2)))
        .expect("pending handoff can be delivered");

    assert!(intent.handoff_state.is_terminal());
    assert!(!intent.is_retryable());

    let error = intent
        .mark_retryable_failed(HandoffState::retryable_failed(attempt_ref(), issue_ref(), timestamp(3)))
        .expect_err("delivered handoff must remain terminal");

    assert_eq!(
        error,
        IdentityDomainError::InvalidStateTransition {
            entity: "TraceHandoffIntent",
            message: "terminal handoff state cannot become retryable failed",
        }
    );
}

#[test]
fn cancelled_handoff_remains_terminal() {
    let mut intent = handoff_intent();
    intent.mark_cancelled(HandoffState::cancelled(issue_ref(), timestamp(2))).expect("pending handoff can be cancelled");

    assert!(intent.handoff_state.is_terminal());
    assert!(!intent.is_retryable());

    let error = intent
        .mark_delivered(HandoffState::delivered(attempt_ref(), receipt_ref(), timestamp(3)))
        .expect_err("cancelled handoff must not deliver later");

    assert_eq!(
        error,
        IdentityDomainError::InvalidStateTransition {
            entity: "TraceHandoffIntent",
            message: "terminal handoff state cannot be delivered again",
        }
    );
}

#[test]
fn delivered_move_updates_change_time_and_keeps_traces() {
    let mut intent = handoff_intent();
    intent
        .mark_delivered(HandoffState::delivered(attempt_ref(), receipt_ref(), timestamp(7)))
        .expect("pending handoff can be delivered");
    assert_eq!(intent.updated_at, timestamp(7));
    assert_eq!(intent.created_at, timestamp(1));
    assert!(intent.contains_trace(&IdentityTraceRecordRef::new("trace-1".to_owned())));
    assert!(!intent.contains_trace(&IdentityTraceRecordRef::new("trace-2".to_owned())));
}
