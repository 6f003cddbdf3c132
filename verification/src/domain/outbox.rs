//! Outbox propagation state helpers.
use vstd::prelude::*;

use crate::contracts::refs::{
    GlobalMemberRef, IdentityChangeKindRef, IdentityOutboxPayloadMarkerRef,
    IdentityOutboxRecordRef, IdentityOutboxSubjectRef, IdentityTimestamp, IdentityTraceRecordRef,
    OutboxDeliveryAttemptRef, OutboxDeliveryIssueRef, TopicKeyRef, VisibilityContextRef,
};
use crate::domain::errors::IdentityDomainError;

verus! {

/// Formal outbox state kind.
#[derive(Clone, Copy, Debug, Eq, PartialEq, Structural)]
pub enum OutboxStateKind {
    /// Record is waiting for publish.
    PendingPublish,
    /// Record was published.
    Published,
    /// Publish failed and may be retried.
    RetryableFailed,
    /// Publish failed terminally.
    Failed,
    /// Publish was skipped by policy.
    SkippedByPolicy,
}

/// Whether an outbox state kind is terminal.
pub open spec fn outbox_kind_terminal(kind: OutboxStateKind) -> bool {
    kind == OutboxStateKind::Published || kind == OutboxStateKind::Failed || kind == OutboxStateKind::SkippedByPolicy
}

/// Whether an outbox record in this state may still move.
pub open spec fn outbox_kind_open(kind: OutboxStateKind) -> bool {
    kind == OutboxStateKind::PendingPublish || kind == OutboxStateKind::RetryableFailed
}

/// Formal outbox state with its delivery markers.
#[derive(Debug, Eq, PartialEq)]
pub struct OutboxState {
    /// Outbox state kind.
    pub state_kind: OutboxStateKind,
    /// Delivery attempt marker.
    pub attempt_ref: Option<OutboxDeliveryAttemptRef>,
    /// Delivery issue marker.
    pub issue_ref: Option<OutboxDeliveryIssueRef>,
    /// Change timestamp.
    pub changed_at: IdentityTimestamp,
}

impl Clone for OutboxState {
    fn clone(&self) -> (r: Self)
        ensures
            r == *self,
    {
        OutboxState { state_kind: self.state_kind, attempt_ref: self.attempt_ref.clone(), issue_ref: self.issue_ref.clone(), changed_at: self.changed_at }
    }
}

impl OutboxState {
    /// Creates a pending publish state.
    pub fn pending(changed_at: IdentityTimestamp) -> (r: Self)
        ensures
            r == (OutboxState { state_kind: OutboxStateKind::PendingPublish, attempt_ref: None, issue_ref: None, changed_at }),
    {
        OutboxState { state_kind: OutboxStateKind::PendingPublish, attempt_ref: None, issue_ref: None, changed_at }
    }

    /// Creates a published state.
    pub fn published(attempt_ref: OutboxDeliveryAttemptRef, changed_at: IdentityTimestamp) -> (r: Self)
        ensures
            r == (OutboxState { state_kind: OutboxStateKind::Published, attempt_ref: Some(attempt_ref), issue_ref: None, changed_at }),
    {
        OutboxState { state_kind: OutboxStateKind::Published, attempt_ref: Some(attempt_ref), issue_ref: None, changed_at }
    }

    /// Creates a retryable failed state.
    pub fn retryable_failed(issue_ref: OutboxDeliveryIssueRef, changed_at: IdentityTimestamp) -> (r: Self)
        ensures
            r == (OutboxState { state_kind: OutboxStateKind::RetryableFailed, attempt_ref: None, issue_ref: Some(issue_ref), changed_at }),
    {
        OutboxState { state_kind: OutboxStateKind::RetryableFailed, attempt_ref: None, issue_ref: Some(issue_ref), changed_at }
    }

    /// Creates a terminal failed state.
    pub fn failed(issue_ref: OutboxDeliveryIssueRef, changed_at: IdentityTimestamp) -> (r: Self)
        ensures
            r == (OutboxState { state_kind: OutboxStateKind::Failed, attempt_ref: None, issue_ref: Some(issue_ref), changed_at }),
    {
        OutboxState { state_kind: OutboxStateKind::Failed, attempt_ref: None, issue_ref: Some(issue_ref), changed_at }
    }

    /// Creates a skipped-by-policy state.
    pub fn skipped_by_policy(issue_ref: OutboxDeliveryIssueRef, changed_at: IdentityTimestamp) -> (r: Self)
        ensures
            r == (OutboxState { state_kind: OutboxStateKind::SkippedByPolicy, attempt_ref: None, issue_ref: Some(issue_ref), changed_at }),
    {
        OutboxState { state_kind: OutboxStateKind::SkippedByPolicy, attempt_ref: None, issue_ref: Some(issue_ref), changed_at }
    }

    /// Returns whether the record may be retried.
    pub fn is_retryable(&self) -> (r: bool)
        ensures
            r == (self.state_kind == OutboxStateKind::RetryableFailed),
    {
        self.state_kind == OutboxStateKind::RetryableFailed
    }

    /// Returns whether the state is terminal.
    pub fn is_terminal(&self) -> (r: bool)
        ensures
            r == outbox_kind_terminal(self.state_kind),
    {
        matches!(self.state_kind, OutboxStateKind::Published | OutboxStateKind::Failed | OutboxStateKind::SkippedByPolicy)
    }
}

/// Outbox record created from an accepted identity change.
#[derive(Debug, Eq, PartialEq)]
pub struct IdentityOutboxRecord {
    /// Outbox record identity.
    pub outbox_record_ref: IdentityOutboxRecordRef,
    /// Member the change belongs to.
    pub member_ref: GlobalMemberRef,
    /// Canonical outbound subject.
    pub subject_ref: IdentityOutboxSubjectRef,
    /// Accepted change kind.
    pub change_kind_ref: IdentityChangeKindRef,
    /// Body-free payload marker.
    pub payload_marker_ref: IdentityOutboxPayloadMarkerRef,
    /// Topic key marker.
    pub topic_key_ref: TopicKeyRef,
    /// Trace record of the accepted change.
    pub trace_record_ref: IdentityTraceRecordRef,
    /// Current outbox state.
    pub outbox_state: OutboxState,
    /// Creation timestamp.
    pub created_at: IdentityTimestamp,
    /// Last change timestamp.
    pub updated_at: IdentityTimestamp,
}

/// Arguments used to create an outbox record from an accepted change.
#[derive(Clone, Debug, Eq, PartialEq)]
pub struct IdentityOutboxRecordCreateArgs {
    /// Outbox record identity.
    pub outbox_record_ref: IdentityOutboxRecordRef,
    /// Member the change belongs to.
    pub member_ref: GlobalMemberRef,
    /// Canonical outbound subject.
    pub subject_ref: IdentityOutboxSubjectRef,
    /// Accepted change kind.
    pub change_kind_ref: IdentityChangeKindRef,
    /// Body-free payload marker.
    pub payload_marker_ref: IdentityOutboxPayloadMarkerRef,
    /// Topic key marker.
    pub topic_key_ref: TopicKeyRef,
    /// Trace record of the accepted change.
    pub trace_record_ref: IdentityTraceRecordRef,
    /// Creation timestamp.
    pub created_at: IdentityTimestamp,
}

/// The rejection `from_accepted_change` reports, by the first empty marker.
pub open spec fn outbox_create_error(args: IdentityOutboxRecordCreateArgs) -> IdentityDomainError {
    if args.trace_record_ref@.len() == 0 {
        IdentityDomainError::InvalidInput { field: "trace_record_ref", message: "accepted outbox requires a formal trace record" }
    } else if args.payload_marker_ref@.len() == 0 {
        IdentityDomainError::InvalidInput { field: "payload_marker_ref", message: "accepted outbox requires a body-free payload marker" }
    } else {
        IdentityDomainError::InvalidInput { field: "topic_key_ref", message: "accepted outbox requires a canonical topic key marker" }
    }
}

/// The record after a successful move into `state`.
pub open spec fn outbox_moved(old_record: IdentityOutboxRecord, new_record: IdentityOutboxRecord, state: OutboxState) -> bool {
    new_record == IdentityOutboxRecord { outbox_state: state, updated_at: state.changed_at, ..old_record }
}

impl IdentityOutboxRecord {
    /// Creates a pending record from an accepted change; the trace, payload, and
    /// topic markers must be non-empty.
    pub fn from_accepted_change(args: IdentityOutboxRecordCreateArgs) -> (r: Result<Self, IdentityDomainError>)
        ensures
            r is Ok <==> (args.trace_record_ref@.len() > 0 && args.payload_marker_ref@.len() > 0 && args.topic_key_ref@.len() > 0),
            r matches Ok(v) ==> v == (IdentityOutboxRecord {
                outbox_record_ref: args.outbox_record_ref,
                member_ref: args.member_ref,
                subject_ref: args.subject_ref,
                change_kind_ref: args.change_kind_ref,
                payload_marker_ref: args.payload_marker_ref,
                topic_key_ref: args.topic_key_ref,
                trace_record_ref: args.trace_record_ref,
                outbox_state: OutboxState { state_kind: OutboxStateKind::PendingPublish, attempt_ref: None, issue_ref: None, changed_at: args.created_at },
                created_at: args.created_at,
                updated_at: args.created_at,
            }),
            r matches Err(e) ==> e == outbox_create_error(args),
    {
        if args.trace_record_ref.as_str().is_empty() {
            return Err(IdentityDomainError::invalid_input("trace_record_ref", "accepted outbox requires a formal trace record"));
        }
        if args.payload_marker_ref.as_str().is_empty() {
            return Err(IdentityDomainError::invalid_input("payload_marker_ref", "accepted outbox requires a body-free payload marker"));
        }
        if args.topic_key_ref.as_str().is_empty() {
            return Err(IdentityDomainError::invalid_input("topic_key_ref", "accepted outbox requires a canonical topic key marker"));
        }
        Ok(IdentityOutboxRecord {
            outbox_record_ref: args.outbox_record_ref,
            member_ref: args.member_ref,
            subject_ref: args.subject_ref,
            change_kind_ref: args.change_kind_ref,
            payload_marker_ref: args.payload_marker_ref,
            topic_key_ref: args.topic_key_ref,
            trace_record_ref: args.trace_record_ref,
            outbox_state: OutboxState::pending(args.created_at),
            created_at: args.created_at,
            updated_at: args.created_at,
        })
    }

    /// Returns whether the record belongs to the member.
    pub fn belongs_to(&self, member_ref: &GlobalMemberRef) -> (r: bool)
        ensures
            r == (self.member_ref.member_id@ == member_ref.member_id@),
    {
        self.member_ref.same_member(member_ref)
    }

    /// Returns whether the record carries the subject.
    pub fn matches_subject(&self, subject_ref: &IdentityOutboxSubjectRef) -> (r: bool)
        ensures
            r == (self.subject_ref@ == subject_ref@),
    {
        self.subject_ref == *subject_ref
    }

    /// Returns whether the record may be retried.
    pub fn is_retryable(&self) -> (r: bool)
        ensures
            r == (self.outbox_state.state_kind == OutboxStateKind::RetryableFailed),
    {
        self.outbox_state.is_retryable()
    }

    /// Moves an open record to published; the state must carry an attempt marker.
    /// A rejected move leaves the record unchanged.
    pub fn mark_published(&mut self, state: OutboxState) -> (r: Result<(), IdentityDomainError>)
        ensures
            r is Ok <==> (state.state_kind == OutboxStateKind::Published && state.attempt_ref is Some && outbox_kind_open(old(self).outbox_state.state_kind)),
            r is Ok ==> outbox_moved(*old(self), *final(self), state),
            r is Err ==> *final(self) == *old(self),
            r matches Err(e) ==> if state.state_kind != OutboxStateKind::Published || state.attempt_ref is None {
                e == (IdentityDomainError::InvalidInput { field: "outbox_state", message: "published outbox state requires an attempt marker" })
            } else {
                e == (IdentityDomainError::InvalidStateTransition { entity: "IdentityOutboxRecord", message: "terminal outbox state cannot be published again" })
            },
    {
        if state.state_kind != OutboxStateKind::Published || state.attempt_ref.is_none() {
            return Err(IdentityDomainError::invalid_input("outbox_state", "published outbox state requires an attempt marker"));
        }
        match self.outbox_state.state_kind {
            OutboxStateKind::PendingPublish | OutboxStateKind::RetryableFailed => {
                self.updated_at = state.changed_at;
                self.outbox_state = state;
                Ok(())
            },
            _ => Err(IdentityDomainError::invalid_state_transition("IdentityOutboxRecord", "terminal outbox state cannot be published again")),
        }
    }

    /// Moves an open record to retryable failed; the state must carry an issue
    /// marker. A rejected move leaves the record unchanged.
    pub fn mark_retryable_failed(&mut self, state: OutboxState) -> (r: Result<(), IdentityDomainError>)
        ensures
            r is Ok <==> (state.state_kind == OutboxStateKind::RetryableFailed && state.issue_ref is Some && outbox_kind_open(old(self).outbox_state.state_kind)),
            r is Ok ==> outbox_moved(*old(self), *final(self), state),
            r is Err ==> *final(self) == *old(self),
            r matches Err(e) ==> if state.state_kind != OutboxStateKind::RetryableFailed || state.issue_ref is None {
                e == (IdentityDomainError::InvalidInput { field: "outbox_state", message: "retryable failed outbox state requires an issue marker" })
            } else {
                e == (IdentityDomainError::InvalidStateTransition { entity: "IdentityOutboxRecord", message: "terminal outbox state cannot become retryable failed" })
            },
    {
        if state.state_kind != OutboxStateKind::RetryableFailed || state.issue_ref.is_none() {
            return Err(IdentityDomainError::invalid_input("outbox_state", "retryable failed outbox state requires an issue marker"));
        }
        match self.outbox_state.state_kind {
            OutboxStateKind::PendingPublish | OutboxStateKind::RetryableFailed => {
                self.updated_at = state.changed_at;
                self.outbox_state = state;
                Ok(())
            },
            _ => Err(IdentityDomainError::invalid_state_transition("IdentityOutboxRecord", "terminal outbox state cannot become retryable failed")),
        }
    }

    /// Moves an open record to terminal failed; the state must carry an issue
    /// marker. A rejected move leaves the record unchanged.
    pub fn mark_failed(&mut self, state: OutboxState) -> (r: Result<(), IdentityDomainError>)
        ensures
            r is Ok <==> (state.state_kind == OutboxStateKind::Failed && state.issue_ref is Some && outbox_kind_open(old(self).outbox_state.state_kind)),
            r is Ok ==> outbox_moved(*old(self), *final(self), state),
            r is Err ==> *final(self) == *old(self),
            r matches Err(e) ==> if state.state_kind != OutboxStateKind::Failed || state.issue_ref is None {
                e == (IdentityDomainError::InvalidInput { field: "outbox_state", message: "failed outbox state requires an issue marker" })
            } else {
                e == (IdentityDomainError::InvalidStateTransition { entity: "IdentityOutboxRecord", message: "terminal outbox state cannot fail again" })
            },
    {
        if state.state_kind != OutboxStateKind::Failed || state.issue_ref.is_none() {
            return Err(IdentityDomainError::invalid_input("outbox_state", "failed outbox state requires an issue marker"));
        }
        match self.outbox_state.state_kind {
            OutboxStateKind::PendingPublish | OutboxStateKind::RetryableFailed => {
                self.updated_at = state.changed_at;
                self.outbox_state = state;
                Ok(())
            },
            _ => Err(IdentityDomainError::invalid_state_transition("IdentityOutboxRecord", "terminal outbox state cannot fail again")),
        }
    }

    /// Moves an open record to skipped by policy; the state must carry an issue
    /// marker. A rejected move leaves the record unchanged.
    pub fn mark_skipped_by_policy(&mut self, state: OutboxState) -> (r: Result<(), IdentityDomainError>)
        ensures
            r is Ok <==> (state.state_kind == OutboxStateKind::SkippedByPolicy && state.issue_ref is Some && outbox_kind_open(old(self).outbox_state.state_kind)),
            r is Ok ==> outbox_moved(*old(self), *final(self), state),
            r is Err ==> *final(self) == *old(self),
            r matches Err(e) ==> if state.state_kind != OutboxStateKind::SkippedByPolicy || state.issue_ref is None {
                e == (IdentityDomainError::InvalidInput { field: "outbox_state", message: "skipped outbox state requires an issue marker" })
            } else {
                e == (IdentityDomainError::InvalidStateTransition { entity: "IdentityOutboxRecord", message: "terminal outbox state cannot be skipped again" })
            },
    {
        if state.state_kind != OutboxStateKind::SkippedByPolicy || state.issue_ref.is_none() {
            return Err(IdentityDomainError::invalid_input("outbox_state", "skipped outbox state requires an issue marker"));
        }
        match self.outbox_state.state_kind {
            OutboxStateKind::PendingPublish | OutboxStateKind::RetryableFailed => {
                self.updated_at = state.changed_at;
                self.outbox_state = state;
                Ok(())
            },
            _ => Err(IdentityDomainError::invalid_state_transition("IdentityOutboxRecord", "terminal outbox state cannot be skipped again")),
        }
    }
}

/// Law: open and terminal outbox states partition the outbox state kinds; only an
/// open record is retryable.
pub proof fn lemma_outbox_open_terminal_partition(kind: OutboxStateKind)
    ensures
        outbox_kind_open(kind) <==> !outbox_kind_terminal(kind),
        kind == OutboxStateKind::RetryableFailed ==> outbox_kind_open(kind),
{
}

/// Law: a record moved into a terminal state is terminal, is not retryable, and
/// keeps its identity, subject, payload, topic, trace, and creation time.
pub proof fn lemma_outbox_terminal_move_is_final(old_record: IdentityOutboxRecord, new_record: IdentityOutboxRecord, state: OutboxState)
    requires
        outbox_kind_terminal(state.state_kind),
        outbox_moved(old_record, new_record, state),
    ensures
        outbox_kind_terminal(new_record.outbox_state.state_kind),
        !outbox_kind_open(new_record.outbox_state.state_kind),
        new_record.outbox_record_ref == old_record.outbox_record_ref,
        new_record.subject_ref == old_record.subject_ref,
        new_record.payload_marker_ref == old_record.payload_marker_ref,
        new_record.topic_key_ref == old_record.topic_key_ref,
        new_record.trace_record_ref == old_record.trace_record_ref,
        new_record.created_at == old_record.created_at,
{
}

/// Arguments used to build an outbound event policy.
#[derive(Clone, Debug, Eq, PartialEq)]
pub struct OutboundEventPolicyArgs {
    /// Canonical outbound subject.
    pub subject_ref: IdentityOutboxSubjectRef,
    /// Accepted change kind.
    pub change_kind_ref: IdentityChangeKindRef,
    /// Body-free payload marker.
    pub payload_marker_ref: IdentityOutboxPayloadMarkerRef,
    /// Topic key marker.
    pub topic_key_ref: TopicKeyRef,
    /// Visibility context marker.
    pub visibility_context_ref: VisibilityContextRef,
}

/// Guard for outbound event material.
#[derive(Clone, Debug, Eq, PartialEq)]
pub struct OutboundEventPolicy {
    /// Canonical outbound subject.
    pub subject_ref: IdentityOutboxSubjectRef,
    /// Accepted change kind.
    pub change_kind_ref: IdentityChangeKindRef,
    /// Body-free payload marker.
    pub payload_marker_ref: IdentityOutboxPayloadMarkerRef,
    /// Topic key marker.
    pub topic_key_ref: TopicKeyRef,
    /// Visibility context marker.
    pub visibility_context_ref: VisibilityContextRef,
}

/// The rejection `for_outbox` reports, by the first empty marker.
pub open spec fn outbound_policy_error(args: OutboundEventPolicyArgs) -> IdentityDomainError {
    if args.payload_marker_ref@.len() == 0 {
        IdentityDomainError::InvalidInput { field: "payload_marker_ref", message: "outbound policy requires a body-free payload marker" }
    } else if args.topic_key_ref@.len() == 0 {
        IdentityDomainError::InvalidInput { field: "topic_key_ref", message: "outbound policy requires a canonical topic key marker" }
    } else {
        IdentityDomainError::InvalidInput { field: "visibility_context_ref", message: "outbound policy requires a visibility context marker" }
    }
}

impl OutboundEventPolicy {
    /// Builds the policy; the payload, topic, and visibility markers must be non-empty.
    pub fn for_outbox(args: OutboundEventPolicyArgs) -> (r: Result<Self, IdentityDomainError>)
        ensures
            r is Ok <==> (args.payload_marker_ref@.len() > 0 && args.topic_key_ref@.len() > 0 && args.visibility_context_ref@.len() > 0),
            r matches Ok(v) ==> v == (OutboundEventPolicy {
                subject_ref: args.subject_ref,
                change_kind_ref: args.change_kind_ref,
                payload_marker_ref: args.payload_marker_ref,
                topic_key_ref: args.topic_key_ref,
                visibility_context_ref: args.visibility_context_ref,
            }),
            r matches Err(e) ==> e == outbound_policy_error(args),
    {
        if args.payload_marker_ref.as_str().is_empty() {
            return Err(IdentityDomainError::invalid_input("payload_marker_ref", "outbound policy requires a body-free payload marker"));
        }
        if args.topic_key_ref.as_str().is_empty() {
            return Err(IdentityDomainError::invalid_input("topic_key_ref", "outbound policy requires a canonical topic key marker"));
        }
        if args.visibility_context_ref.as_str().is_empty() {
            return Err(IdentityDomainError::invalid_input("visibility_context_ref", "outbound policy requires a visibility context marker"));
        }
        Ok(OutboundEventPolicy {
            subject_ref: args.subject_ref,
            change_kind_ref: args.change_kind_ref,
            payload_marker_ref: args.payload_marker_ref,
            topic_key_ref: args.topic_key_ref,
            visibility_context_ref: args.visibility_context_ref,
        })
    }

    /// Asserts that the outbound material comes from an accepted change with a trace.
    pub fn assert_from_accepted_change(&self, trace_record_ref: &IdentityTraceRecordRef) -> (r: Result<(), IdentityDomainError>)
        ensures
            r is Ok <==> trace_record_ref@.len() > 0,
            r matches Err(e) ==> e == (IdentityDomainError::InvalidInput { field: "trace_record_ref", message: "accepted outbound material requires a formal trace record" }),
    {
        if trace_record_ref.as_str().is_empty() {
            return Err(IdentityDomainError::invalid_input("trace_record_ref", "accepted outbound material requires a formal trace record"));
        }
        Ok(())
    }

    /// Asserts that the payload marker is present.
    pub fn assert_payload_body_free(&self) -> (r: Result<(), IdentityDomainError>)
        ensures
            r is Ok <==> self.payload_marker_ref@.len() > 0,
            r matches Err(e) ==> e == (IdentityDomainError::InvalidInput { field: "payload_marker_ref", message: "outbound payload marker must remain body-free" }),
    {
        if self.payload_marker_ref.as_str().is_empty() {
            return Err(IdentityDomainError::invalid_input("payload_marker_ref", "outbound payload marker must remain body-free"));
        }
        Ok(())
    }

    /// Asserts that the visibility context marker is present.
    pub fn assert_visible_for_topic(&self) -> (r: Result<(), IdentityDomainError>)
        ensures
            r is Ok <==> self.visibility_context_ref@.len() > 0,
            r matches Err(e) ==> e == (IdentityDomainError::InvalidInput { field: "visibility_context_ref", message: "outbound visibility context marker must remain present" }),
    {
        if self.visibility_context_ref.as_str().is_empty() {
            return Err(IdentityDomainError::invalid_input("visibility_context_ref", "outbound visibility context marker must remain present"));
        }
        Ok(())
    }

    /// Publishing is never an acceptance gate: this check always passes.
    pub fn assert_publish_not_acceptance_gate(&self) -> (r: Result<(), IdentityDomainError>)
        ensures
            r is Ok,
    {
        Ok(())
    }
}

} // verus!
