//! Handoff propagation state helpers.
use vstd::prelude::*;

use crate::contracts::receipts::TraceHandoffIntentRef;
use crate::contracts::refs::{
    AuditTrailRef, GlobalMemberRef, HandoffAttemptRef, HandoffIssueRef, HandoffReceiptRef,
    HandoffScopeRef, HandoffTargetRef, IdentityTimestamp, IdentityTraceRecordRef,
    TraceHandoffSafeMaterialRef, VisibilityContextRef,
};
use crate::domain::errors::IdentityDomainError;
use crate::text::{ascii_lower_chars, ascii_lower_text, chars_contain, is_blank, is_blank_text, text_chars, text_contains};

verus! {

/// Formal handoff state kind.
#[derive(Clone, Copy, Debug, Eq, PartialEq, Structural)]
pub enum HandoffStateKind {
    /// Handoff is prepared and waiting for delivery.
    PendingHandoff,
    /// Handoff was delivered with a formal receipt.
    Delivered,
    /// Handoff failed and may be retried.
    RetryableFailed,
    /// Handoff failed terminally.
    Failed,
    /// Handoff was cancelled.
    Cancelled,
}

/// Whether a handoff state kind is terminal.
pub open spec fn handoff_kind_terminal(kind: HandoffStateKind) -> bool {
    kind == HandoffStateKind::Delivered || kind == HandoffStateKind::Failed || kind == HandoffStateKind::Cancelled
}

/// Whether a handoff in this state may still move to another state.
pub open spec fn handoff_kind_open(kind: HandoffStateKind) -> bool {
    kind == HandoffStateKind::PendingHandoff || kind == HandoffStateKind::RetryableFailed
}

/// Arguments used to prepare a trace handoff intent.
#[derive(Debug, Eq, PartialEq)]
pub struct TraceHandoffIntentPrepareArgs {
    /// Handoff intent identity.
    pub handoff_intent_ref: TraceHandoffIntentRef,
    /// Member the handoff belongs to.
    pub member_ref: GlobalMemberRef,
    /// Trace records carried by the handoff.
    pub trace_record_refs: Vec<IdentityTraceRecordRef>,
    /// Optional audit trail carried by the handoff.
    pub audit_trail_ref: Option<AuditTrailRef>,
    /// Handoff target marker.
    pub handoff_target_ref: HandoffTargetRef,
    /// Handoff scope marker.
    pub handoff_scope_ref: HandoffScopeRef,
    /// Safe material marker.
    pub safe_material_ref: TraceHandoffSafeMaterialRef,
    /// Initial handoff state.
    pub handoff_state: HandoffState,
    /// Preparation timestamp.
    pub created_at: IdentityTimestamp,
}

/// Arguments used to build a handoff policy.
#[derive(Debug, Eq, PartialEq)]
pub struct HandoffPolicyArgs {
    /// Handoff target marker.
    pub handoff_target_ref: HandoffTargetRef,
    /// Handoff scope marker.
    pub handoff_scope_ref: HandoffScopeRef,
    /// Safe material marker.
    pub safe_material_ref: TraceHandoffSafeMaterialRef,
    /// Trace records carried by the handoff.
    pub trace_record_refs: Vec<IdentityTraceRecordRef>,
    /// Visibility context marker.
    pub visibility_context_ref: VisibilityContextRef,
}

/// Formal handoff state with its delivery markers.
#[derive(Debug, Eq, PartialEq)]
pub struct HandoffState {
    /// Handoff state kind.
    pub state_kind: HandoffStateKind,
    /// Delivery attempt marker.
    pub attempt_ref: Option<HandoffAttemptRef>,
    /// Formal receipt marker.
    pub receipt_ref: Option<HandoffReceiptRef>,
    /// Safe issue marker.
    pub issue_ref: Option<HandoffIssueRef>,
    /// Change timestamp.
    pub changed_at: IdentityTimestamp,
}

impl Clone for HandoffState {
    fn clone(&self) -> (r: Self)
        ensures
            r == *self,
    {
        HandoffState {
            state_kind: self.state_kind,
            attempt_ref: self.attempt_ref.clone(),
            receipt_ref: self.receipt_ref.clone(),
            issue_ref: self.issue_ref.clone(),
            changed_at: self.changed_at,
        }
    }
}

impl HandoffState {
    /// Creates a pending handoff state.
    pub fn pending(changed_at: IdentityTimestamp) -> (r: Self)
        ensures
            r == (HandoffState { state_kind: HandoffStateKind::PendingHandoff, attempt_ref: None, receipt_ref: None, issue_ref: None, changed_at }),
    {
        HandoffState { state_kind: HandoffStateKind::PendingHandoff, attempt_ref: None, receipt_ref: None, issue_ref: None, changed_at }
    }

    /// Creates a delivered handoff state.
    pub fn delivered(attempt_ref: HandoffAttemptRef, receipt_ref: HandoffReceiptRef, changed_at: IdentityTimestamp) -> (r: Self)
        ensures
            r == (HandoffState { state_kind: HandoffStateKind::Delivered, attempt_ref: Some(attempt_ref), receipt_ref: Some(receipt_ref), issue_ref: None, changed_at }),
    {
        HandoffState { state_kind: HandoffStateKind::Delivered, attempt_ref: Some(attempt_ref), receipt_ref: Some(receipt_ref), issue_ref: None, changed_at }
    }

    /// Creates a retryable failed handoff state.
    pub fn retryable_failed(attempt_ref: HandoffAttemptRef, issue_ref: HandoffIssueRef, changed_at: IdentityTimestamp) -> (r: Self)
        ensures
            r == (HandoffState { state_kind: HandoffStateKind::RetryableFailed, attempt_ref: Some(attempt_ref), receipt_ref: None, issue_ref: Some(issue_ref), changed_at }),
    {
        HandoffState { state_kind: HandoffStateKind::RetryableFailed, attempt_ref: Some(attempt_ref), receipt_ref: None, issue_ref: Some(issue_ref), changed_at }
    }

    /// Creates a terminal failed handoff state.
    pub fn failed(attempt_ref: HandoffAttemptRef, issue_ref: HandoffIssueRef, changed_at: IdentityTimestamp) -> (r: Self)
        ensures
            r == (HandoffState { state_kind: HandoffStateKind::Failed, attempt_ref: Some(attempt_ref), receipt_ref: None, issue_ref: Some(issue_ref), changed_at }),
    {
        HandoffState { state_kind: HandoffStateKind::Failed, attempt_ref: Some(attempt_ref), receipt_ref: None, issue_ref: Some(issue_ref), changed_at }
    }

    /// Creates a cancelled handoff state.
    pub fn cancelled(issue_ref: HandoffIssueRef, changed_at: IdentityTimestamp) -> (r: Self)
        ensures
            r == (HandoffState { state_kind: HandoffStateKind::Cancelled, attempt_ref: None, receipt_ref: None, issue_ref: Some(issue_ref), changed_at }),
    {
        HandoffState { state_kind: HandoffStateKind::Cancelled, attempt_ref: None, receipt_ref: None, issue_ref: Some(issue_ref), changed_at }
    }

    /// Returns whether the handoff may be retried.
    pub fn is_retryable(&self) -> (r: bool)
        ensures
            r == (self.state_kind == HandoffStateKind::RetryableFailed),
    {
        self.state_kind == HandoffStateKind::RetryableFailed
    }

    /// Returns whether the handoff state is terminal.
    pub fn is_terminal(&self) -> (r: bool)
        ensures
            r == handoff_kind_terminal(self.state_kind),
    {
        matches!(self.state_kind, HandoffStateKind::Delivered | HandoffStateKind::Failed | HandoffStateKind::Cancelled)
    }
}

/// Prepared trace handoff intent with its formal delivery state.
#[derive(Debug, Eq, PartialEq)]
pub struct TraceHandoffIntent {
    /// Handoff intent identity.
    pub handoff_intent_ref: TraceHandoffIntentRef,
    /// Member the handoff belongs to.
    pub member_ref: GlobalMemberRef,
    /// Trace records carried by the handoff.
    pub trace_record_refs: Vec<IdentityTraceRecordRef>,
    /// Optional audit trail carried by the handoff.
    pub audit_trail_ref: Option<AuditTrailRef>,
    /// Handoff target marker.
    pub handoff_target_ref: HandoffTargetRef,
    /// Handoff scope marker.
    pub handoff_scope_ref: HandoffScopeRef,
    /// Safe material marker.
    pub safe_material_ref: TraceHandoffSafeMaterialRef,
    /// Current handoff state.
    pub handoff_state: HandoffState,
    /// Preparation timestamp.
    pub created_at: IdentityTimestamp,
    /// Last change timestamp.
    pub updated_at: IdentityTimestamp,
}

/// Whether the arguments prepare a valid pending handoff intent.
pub open spec fn prepare_args_valid(args: TraceHandoffIntentPrepareArgs) -> bool {
    &&& args.trace_record_refs@.len() > 0
    &&& args.handoff_state.state_kind == HandoffStateKind::PendingHandoff
    &&& args.handoff_state.attempt_ref is None
    &&& args.handoff_state.receipt_ref is None
    &&& args.handoff_state.issue_ref is None
    &&& !is_blank_text(args.safe_material_ref@)
    &&& !is_blank_text(args.handoff_target_ref@)
    &&& !is_blank_text(args.handoff_scope_ref@)
}

/// The rejection `prepare` reports for invalid arguments, by the first failing check.
pub open spec fn prepare_error(args: TraceHandoffIntentPrepareArgs) -> IdentityDomainError {
    if args.trace_record_refs@.len() == 0 {
        IdentityDomainError::MissingRequiredField { field: "trace_record_refs" }
    } else if args.handoff_state.state_kind != HandoffStateKind::PendingHandoff {
        IdentityDomainError::InvalidInput { field: "handoff_state", message: "prepare requires a pending handoff state" }
    } else if args.handoff_state.attempt_ref is Some || args.handoff_state.receipt_ref is Some || args.handoff_state.issue_ref is Some {
        IdentityDomainError::InvalidInput { field: "handoff_state", message: "pending handoff state must not carry attempt, receipt, or issue markers" }
    } else if is_blank_text(args.safe_material_ref@) {
        IdentityDomainError::MissingRequiredField { field: "safe_material_ref" }
    } else if is_blank_text(args.handoff_target_ref@) {
        IdentityDomainError::MissingRequiredField { field: "handoff_target_ref" }
    } else {
        IdentityDomainError::MissingRequiredField { field: "handoff_scope_ref" }
    }
}

/// The intent after a successful move into `state`: only the state and the update
/// time change.
pub open spec fn intent_moved(old_intent: TraceHandoffIntent, new_intent: TraceHandoffIntent, state: HandoffState) -> bool {
    new_intent == TraceHandoffIntent { handoff_state: state, updated_at: state.changed_at, ..old_intent }
}

/// The rejection a terminal handoff yields for a requested move.
pub open spec fn terminal_handoff_error(message: &'static str) -> IdentityDomainError {
    IdentityDomainError::InvalidStateTransition { entity: "TraceHandoffIntent", message }
}

impl TraceHandoffIntent {
    /// Prepares a pending handoff intent; trace refs, a clean pending state, and the
    /// material, target, and scope markers are all required.
    pub fn prepare(args: TraceHandoffIntentPrepareArgs) -> (r: Result<Self, IdentityDomainError>)
        ensures
            r is Ok <==> prepare_args_valid(args),
            r matches Ok(v) ==> v == (TraceHandoffIntent {
                handoff_intent_ref: args.handoff_intent_ref,
                member_ref: args.member_ref,
                trace_record_refs: args.trace_record_refs,
                audit_trail_ref: args.audit_trail_ref,
                handoff_target_ref: args.handoff_target_ref,
                handoff_scope_ref: args.handoff_scope_ref,
                safe_material_ref: args.safe_material_ref,
                handoff_state: args.handoff_state,
                created_at: args.created_at,
                updated_at: args.created_at,
            }),
            r matches Err(e) ==> e == prepare_error(args),
    {
        if args.trace_record_refs.len() == 0 {
            return Err(IdentityDomainError::missing_required_field("trace_record_refs"));
        }
        if args.handoff_state.state_kind != HandoffStateKind::PendingHandoff {
            return Err(IdentityDomainError::invalid_input("handoff_state", "prepare requires a pending handoff state"));
        }
        if args.handoff_state.attempt_ref.is_some() || args.handoff_state.receipt_ref.is_some() || args.handoff_state.issue_ref.is_some() {
            return Err(IdentityDomainError::invalid_input("handoff_state", "pending handoff state must not carry attempt, receipt, or issue markers"));
        }
        if is_blank(args.safe_material_ref.as_str()) {
            return Err(IdentityDomainError::missing_required_field("safe_material_ref"));
        }
        if is_blank(args.handoff_target_ref.as_str()) {
            return Err(IdentityDomainError::missing_required_field("handoff_target_ref"));
        }
        if is_blank(args.handoff_scope_ref.as_str()) {
            return Err(IdentityDomainError::missing_required_field("handoff_scope_ref"));
        }
        Ok(TraceHandoffIntent {
            handoff_intent_ref: args.handoff_intent_ref,
            member_ref: args.member_ref,
            trace_record_refs: args.trace_record_refs,
            audit_trail_ref: args.audit_trail_ref,
            handoff_target_ref: args.handoff_target_ref,
            handoff_scope_ref: args.handoff_scope_ref,
            safe_material_ref: args.safe_material_ref,
            handoff_state: args.handoff_state,
            created_at: args.created_at,
            updated_at: args.created_at,
        })
    }

    /// Returns whether the handoff targets the marker.
    pub fn targets(&self, target_ref: &HandoffTargetRef) -> (r: bool)
        ensures
            r == (self.handoff_target_ref@ == target_ref@),
    {
        self.handoff_target_ref == *target_ref
    }

    /// Returns whether the handoff carries the trace record.
    pub fn contains_trace(&self, trace_record_ref: &IdentityTraceRecordRef) -> (r: bool)
        ensures
            r == exists|i: int| 0 <= i < self.trace_record_refs@.len() && #[trigger] self.trace_record_refs@[i]@ == trace_record_ref@,
    {
        let mut i: usize = 0;
        while i < self.trace_record_refs.len()
            invariant
                i <= self.trace_record_refs@.len(),
                forall|j: int| 0 <= j < i ==> #[trigger] self.trace_record_refs@[j]@ != trace_record_ref@,
            decreases self.trace_record_refs@.len() - i,
        {
            if self.trace_record_refs[i] == *trace_record_ref {
                return true;
            }
            i = i + 1;
        }
        false
    }

    /// Returns whether the handoff may be retried.
    pub fn is_retryable(&self) -> (r: bool)
        ensures
            r == (self.handoff_state.state_kind == HandoffStateKind::RetryableFailed),
    {
        self.handoff_state.is_retryable()
    }

    /// Moves an open handoff to delivered; the state must carry attempt and receipt
    /// markers. A rejected move leaves the intent unchanged.
    pub fn mark_delivered(&mut self, state: HandoffState) -> (r: Result<(), IdentityDomainError>)
        ensures
            r is Ok <==> (state.state_kind == HandoffStateKind::Delivered && state.attempt_ref is Some
                && state.receipt_ref is Some && handoff_kind_open(old(self).handoff_state.state_kind)),
            r is Ok ==> intent_moved(*old(self), *final(self), state),
            r is Err ==> *final(self) == *old(self),
            r matches Err(e) ==> if state.state_kind != HandoffStateKind::Delivered || state.attempt_ref is None || state.receipt_ref is None {
                e == (IdentityDomainError::InvalidInput { field: "handoff_state", message: "delivered handoff state requires attempt and receipt markers" })
            } else {
                e == terminal_handoff_error("terminal handoff state cannot be delivered again")
            },
    {
        if state.state_kind != HandoffStateKind::Delivered || state.attempt_ref.is_none() || state.receipt_ref.is_none() {
            return Err(IdentityDomainError::invalid_input("handoff_state", "delivered handoff state requires attempt and receipt markers"));
        }
        match self.handoff_state.state_kind {
            HandoffStateKind::PendingHandoff | HandoffStateKind::RetryableFailed => {
                self.updated_at = state.changed_at;
                self.handoff_state = state;
                Ok(())
            },
            _ => Err(IdentityDomainError::invalid_state_transition("TraceHandoffIntent", "terminal handoff state cannot be delivered again")),
        }
    }

    /// Moves an open handoff to retryable failed; the state must carry attempt and
    /// issue markers. A rejected move leaves the intent unchanged.
    pub fn mark_retryable_failed(&mut self, state: HandoffState) -> (r: Result<(), IdentityDomainError>)
        ensures
            r is Ok <==> (state.state_kind == HandoffStateKind::RetryableFailed && state.attempt_ref is Some
                && state.issue_ref is Some && handoff_kind_open(old(self).handoff_state.state_kind)),
            r is Ok ==> intent_moved(*old(self), *final(self), state),
            r is Err ==> *final(self) == *old(self),
            r matches Err(e) ==> if state.state_kind != HandoffStateKind::RetryableFailed || state.attempt_ref is None || state.issue_ref is None {
                e == (IdentityDomainError::InvalidInput { field: "handoff_state", message: "retryable failed handoff state requires attempt and issue markers" })
            } else {
                e == terminal_handoff_error("terminal handoff state cannot become retryable failed")
            },
    {
        if state.state_kind != HandoffStateKind::RetryableFailed || state.attempt_ref.is_none() || state.issue_ref.is_none() {
            return Err(IdentityDomainError::invalid_input("handoff_state", "retryable failed handoff state requires attempt and issue markers"));
        }
        match self.handoff_state.state_kind {
            HandoffStateKind::PendingHandoff | HandoffStateKind::RetryableFailed => {
                self.updated_at = state.changed_at;
                self.handoff_state = state;
                Ok(())
            },
            _ => Err(IdentityDomainError::invalid_state_transition("TraceHandoffIntent", "terminal handoff state cannot become retryable failed")),
        }
    }

    /// Moves an open handoff to terminal failed; the state must carry attempt and
    /// issue markers. A rejected move leaves the intent unchanged.
    pub fn mark_failed(&mut self, state: HandoffState) -> (r: Result<(), IdentityDomainError>)
        ensures
            r is Ok <==> (state.state_kind == HandoffStateKind::Failed && state.attempt_ref is Some
                && state.issue_ref is Some && handoff_kind_open(old(self).handoff_state.state_kind)),
            r is Ok ==> intent_moved(*old(self), *final(self), state),
            r is Err ==> *final(self) == *old(self),
            r matches Err(e) ==> if state.state_kind != HandoffStateKind::Failed || state.attempt_ref is None || state.issue_ref is None {
                e == (IdentityDomainError::InvalidInput { field: "handoff_state", message: "failed handoff state requires attempt and issue markers" })
            } else {
                e == terminal_handoff_error("terminal handoff state cannot fail again")
            },
    {
        if state.state_kind != HandoffStateKind::Failed || state.attempt_ref.is_none() || state.issue_ref.is_none() {
            return Err(IdentityDomainError::invalid_input("handoff_state", "failed handoff state requires attempt and issue markers"));
        }
        match self.handoff_state.state_kind {
            HandoffStateKind::PendingHandoff | HandoffStateKind::RetryableFailed => {
                self.updated_at = state.changed_at;
                self.handoff_state = state;
                Ok(())
            },
            _ => Err(IdentityDomainError::invalid_state_transition("TraceHandoffIntent", "terminal handoff state cannot fail again")),
        }
    }

    /// Moves an open handoff to cancelled; the state must carry an issue marker. A
    /// rejected move leaves the intent unchanged.
    pub fn mark_cancelled(&mut self, state: HandoffState) -> (r: Result<(), IdentityDomainError>)
        ensures
            r is Ok <==> (state.state_kind == HandoffStateKind::Cancelled && state.issue_ref is Some
                && handoff_kind_open(old(self).handoff_state.state_kind)),
            r is Ok ==> intent_moved(*old(self), *final(self), state),
            r is Err ==> *final(self) == *old(self),
            r matches Err(e) ==> if state.state_kind != HandoffStateKind::Cancelled || state.issue_ref is None {
                e == (IdentityDomainError::InvalidInput { field: "handoff_state", message: "cancelled handoff state requires an issue marker" })
            } else {
                e == terminal_handoff_error("terminal handoff state cannot be cancelled again")
            },
    {
        if state.state_kind != HandoffStateKind::Cancelled || state.issue_ref.is_none() {
            return Err(IdentityDomainError::invalid_input("handoff_state", "cancelled handoff state requires an issue marker"));
        }
        match self.handoff_state.state_kind {
            HandoffStateKind::PendingHandoff | HandoffStateKind::RetryableFailed => {
                self.updated_at = state.changed_at;
                self.handoff_state = state;
                Ok(())
            },
            _ => Err(IdentityDomainError::invalid_state_transition("TraceHandoffIntent", "terminal handoff state cannot be cancelled again")),
        }
    }
}

/// Law: open and terminal handoff states partition the handoff state kinds; a
/// handoff is retryable only while it is open.
pub proof fn lemma_handoff_open_terminal_partition(kind: HandoffStateKind)
    ensures
        handoff_kind_open(kind) <==> !handoff_kind_terminal(kind),
        kind == HandoffStateKind::RetryableFailed ==> handoff_kind_open(kind),
{
}

/// Law: a terminal handoff stays put: whatever state is requested, every mark
/// operation is rejected on it, so the delivered, failed, and cancelled states are
/// final.
pub proof fn lemma_terminal_handoff_rejects_every_move(intent: TraceHandoffIntent)
    requires
        handoff_kind_terminal(intent.handoff_state.state_kind),
    ensures
        !handoff_kind_open(intent.handoff_state.state_kind),
{
}

/// Law: a successful delivery, terminal failure, or cancellation leaves the intent
/// terminal and no longer retryable, and keeps every field but the state and the
/// update time.
pub proof fn lemma_terminal_move_is_final(old_intent: TraceHandoffIntent, new_intent: TraceHandoffIntent, state: HandoffState)
    requires
        handoff_kind_terminal(state.state_kind),
        intent_moved(old_intent, new_intent, state),
    ensures
        handoff_kind_terminal(new_intent.handoff_state.state_kind),
        !handoff_kind_open(new_intent.handoff_state.state_kind),
        new_intent.handoff_state.state_kind != HandoffStateKind::RetryableFailed,
        new_intent.handoff_intent_ref == old_intent.handoff_intent_ref,
        new_intent.member_ref == old_intent.member_ref,
        new_intent.trace_record_refs == old_intent.trace_record_refs,
        new_intent.created_at == old_intent.created_at,
        new_intent.updated_at == state.changed_at,
{
}

/// Guard that keeps trace handoff material formal and body-free.
#[derive(Debug, Eq, PartialEq)]
pub struct HandoffPolicy {
    /// Handoff target marker.
    pub handoff_target_ref: HandoffTargetRef,
    /// Handoff scope marker.
    pub handoff_scope_ref: HandoffScopeRef,
    /// Safe material marker.
    pub safe_material_ref: TraceHandoffSafeMaterialRef,
    /// Trace records carried by the handoff.
    pub trace_record_refs: Vec<IdentityTraceRecordRef>,
    /// Visibility context marker.
    pub visibility_context_ref: VisibilityContextRef,
}

/// Whether a safe material marker names body, package, raw, or receipt material,
/// compared case-insensitively over ASCII letters.
pub open spec fn material_names_body(marker: Seq<char>) -> bool {
    let m = ascii_lower_text(marker);
    ||| text_contains(m, "body"@)
    ||| text_contains(m, "package"@)
    ||| text_contains(m, "raw"@)
    ||| text_contains(m, "receipt"@)
}

impl HandoffPolicy {
    /// Builds a handoff policy from its arguments.
    pub fn for_handoff(args: HandoffPolicyArgs) -> (r: Result<Self, IdentityDomainError>)
        ensures
            r == Ok::<HandoffPolicy, IdentityDomainError>(HandoffPolicy {
                handoff_target_ref: args.handoff_target_ref,
                handoff_scope_ref: args.handoff_scope_ref,
                safe_material_ref: args.safe_material_ref,
                trace_record_refs: args.trace_record_refs,
                visibility_context_ref: args.visibility_context_ref,
            }),
    {
        Ok(HandoffPolicy {
            handoff_target_ref: args.handoff_target_ref,
            handoff_scope_ref: args.handoff_scope_ref,
            safe_material_ref: args.safe_material_ref,
            trace_record_refs: args.trace_record_refs,
            visibility_context_ref: args.visibility_context_ref,
        })
    }

    /// Asserts that the target and scope markers are present.
    pub fn assert_target_allowed(&self) -> (r: Result<(), IdentityDomainError>)
        ensures
            r is Ok <==> (!is_blank_text(self.handoff_target_ref@) && !is_blank_text(self.handoff_scope_ref@)),
            r matches Err(e) ==> e == (IdentityDomainError::MissingRequiredField {
                field: if is_blank_text(self.handoff_target_ref@) { "handoff_target_ref" } else { "handoff_scope_ref" },
            }),
    {
        if is_blank(self.handoff_target_ref.as_str()) {
            return Err(IdentityDomainError::missing_required_field("handoff_target_ref"));
        }
        if is_blank(self.handoff_scope_ref.as_str()) {
            return Err(IdentityDomainError::missing_required_field("handoff_scope_ref"));
        }
        Ok(())
    }

    /// Asserts that the handoff carries at least one trace ref.
    pub fn assert_trace_refs_present(&self) -> (r: Result<(), IdentityDomainError>)
        ensures
            r is Ok <==> self.trace_record_refs@.len() > 0,
            r matches Err(e) ==> e == (IdentityDomainError::PolicyDenied { policy: "HandoffPolicy", message: "handoff requires at least one trace ref" }),
    {
        if self.trace_record_refs.len() == 0 {
            return Err(IdentityDomainError::policy_denied("HandoffPolicy", "handoff requires at least one trace ref"));
        }
        Ok(())
    }

    /// Asserts that the safe material marker is present and does not name body,
    /// package, raw, or receipt material.
    pub fn assert_safe_material_body_free(&self) -> (r: Result<(), IdentityDomainError>)
        ensures
            r is Ok <==> (!is_blank_text(ascii_lower_text(self.safe_material_ref@)) && !material_names_body(self.safe_material_ref@)),
            r matches Err(e) ==> if is_blank_text(ascii_lower_text(self.safe_material_ref@)) {
                e == (IdentityDomainError::MissingRequiredField { field: "safe_material_ref" })
            } else {
                e == (IdentityDomainError::PolicyDenied { policy: "HandoffPolicy", message: "handoff material marker must remain body-free" })
            },
    {
        let marker = ascii_lower_chars(self.safe_material_ref.as_str());
        let mut blank = true;
        let mut i: usize = 0;
        while i < marker.len()
            invariant
                i <= marker@.len(),
                blank == (forall|j: int| 0 <= j < i ==> crate::text::is_white_space_char(#[trigger] marker@[j])),
            decreases marker@.len() - i,
        {
            if !crate::text::is_white_space(marker[i]) {
                blank = false;
            }
            i = i + 1;
        }
        if blank {
            return Err(IdentityDomainError::missing_required_field("safe_material_ref"));
        }
        let body = text_chars("body");
        let package = text_chars("package");
        let raw = text_chars("raw");
        let receipt = text_chars("receipt");
        if chars_contain(&marker, &body) || chars_contain(&marker, &package) || chars_contain(&marker, &raw) || chars_contain(&marker, &receipt) {
            return Err(IdentityDomainError::policy_denied("HandoffPolicy", "handoff material marker must remain body-free"));
        }
        Ok(())
    }

    /// Asserts that the handoff keeps a formal visibility context marker.
    pub fn assert_visible_for_handoff(&self) -> (r: Result<(), IdentityDomainError>)
        ensures
            r is Ok <==> !is_blank_text(self.visibility_context_ref@),
            r matches Err(e) ==> e == (IdentityDomainError::MissingRequiredField { field: "visibility_context_ref" }),
    {
        if is_blank(self.visibility_context_ref.as_str()) {
            return Err(IdentityDomainError::missing_required_field("visibility_context_ref"));
        }
        Ok(())
    }

    /// Asserts that a delivered state carries only a formal receipt marker.
    pub fn assert_receipt_is_marker(receipt_ref: &HandoffReceiptRef) -> (r: Result<(), IdentityDomainError>)
        ensures
            r is Ok <==> !is_blank_text(receipt_ref@),
            r matches Err(e) ==> e == (IdentityDomainError::MissingRequiredField { field: "receipt_ref" }),
    {
        if is_blank(receipt_ref.as_str()) {
            return Err(IdentityDomainError::missing_required_field("receipt_ref"));
        }
        Ok(())
    }

    /// Asserts that delivered state always carries a formal receipt marker.
    pub fn assert_delivered_requires_receipt(state: &HandoffState) -> (r: Result<(), IdentityDomainError>)
        ensures
            r is Ok <==> !(state.state_kind == HandoffStateKind::Delivered && state.receipt_ref is None),
            r matches Err(e) ==> e == (IdentityDomainError::PolicyDenied { policy: "HandoffPolicy", message: "delivered handoff requires a formal receipt marker" }),
    {
        if state.state_kind == HandoffStateKind::Delivered && state.receipt_ref.is_none() {
            return Err(IdentityDomainError::policy_denied("HandoffPolicy", "delivered handoff requires a formal receipt marker"));
        }
        Ok(())
    }
}

} // verus!
