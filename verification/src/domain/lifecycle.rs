//! Core lifecycle truth and high-risk guards.
use vstd::prelude::*;

use crate::actor::ActorRef;
use crate::contracts::refs::{
    GovernanceBasisRef, GovernanceBasisSummary, IdentityOperationChannel, IdentityTimestamp,
    LifecycleReasonRef, LifecycleRiskRef, basis_valid_for_spec,
};
use crate::domain::errors::{IdentityDomainError, write_channel_denial};

verus! {

/// Global lifecycle truth state kind owned by the domain layer.
#[derive(Clone, Copy, Debug, Eq, PartialEq, Structural)]
pub enum GlobalLifecycleStateKind {
    /// Member is available platform-wide.
    Available,
    /// Member is explicitly paused.
    Paused,
    /// Member is retired and may only tombstone next.
    Retired,
    /// Member is tombstoned and terminal.
    Tombstoned,
}

/// The formal lifecycle transition matrix.
pub open spec fn lifecycle_transition_allowed(from: GlobalLifecycleStateKind, to: GlobalLifecycleStateKind) -> bool {
    match (from, to) {
        (GlobalLifecycleStateKind::Available, GlobalLifecycleStateKind::Paused) => true,
        (GlobalLifecycleStateKind::Available, GlobalLifecycleStateKind::Retired) => true,
        (GlobalLifecycleStateKind::Available, GlobalLifecycleStateKind::Tombstoned) => true,
        (GlobalLifecycleStateKind::Paused, GlobalLifecycleStateKind::Available) => true,
        (GlobalLifecycleStateKind::Paused, GlobalLifecycleStateKind::Retired) => true,
        (GlobalLifecycleStateKind::Paused, GlobalLifecycleStateKind::Tombstoned) => true,
        (GlobalLifecycleStateKind::Retired, GlobalLifecycleStateKind::Tombstoned) => true,
        _ => false,
    }
}

/// Whether a lifecycle state kind is terminal or a terminal candidate.
pub open spec fn lifecycle_kind_terminal(kind: GlobalLifecycleStateKind) -> bool {
    kind == GlobalLifecycleStateKind::Retired || kind == GlobalLifecycleStateKind::Tombstoned
}

/// The rejection every disallowed lifecycle transition yields.
pub open spec fn lifecycle_transition_error() -> IdentityDomainError {
    IdentityDomainError::InvalidStateTransition {
        entity: "GlobalLifecycleState",
        message: "lifecycle transition is not allowed",
    }
}

/// Global lifecycle truth state.
#[derive(Debug, Eq, PartialEq)]
pub struct GlobalLifecycleState {
    /// Lifecycle state kind.
    pub state_kind: GlobalLifecycleStateKind,
    /// Latest lifecycle reason.
    pub reason_ref: LifecycleReasonRef,
    /// Latest actor.
    pub changed_by_ref: ActorRef,
    /// Latest change timestamp.
    pub changed_at: IdentityTimestamp,
    /// Optional governance basis for high-risk actions.
    pub basis_ref: Option<GovernanceBasisRef>,
}

impl Clone for GlobalLifecycleState {
    fn clone(&self) -> (r: Self)
        ensures
            r == *self,
    {
        GlobalLifecycleState {
            state_kind: self.state_kind,
            reason_ref: self.reason_ref.clone(),
            changed_by_ref: self.changed_by_ref.clone(),
            changed_at: self.changed_at,
            basis_ref: self.basis_ref.clone(),
        }
    }
}

impl GlobalLifecycleState {
    /// Creates the initial available lifecycle state.
    pub fn initial_available(actor_ref: ActorRef, reason_ref: LifecycleReasonRef, changed_at: IdentityTimestamp) -> (r: Self)
        ensures
            r == (GlobalLifecycleState {
                state_kind: GlobalLifecycleStateKind::Available,
                reason_ref,
                changed_by_ref: actor_ref,
                changed_at,
                basis_ref: None,
            }),
    {
        GlobalLifecycleState {
            state_kind: GlobalLifecycleStateKind::Available,
            reason_ref,
            changed_by_ref: actor_ref,
            changed_at,
            basis_ref: None,
        }
    }

    /// Creates a new lifecycle state from a formal transition; a transition outside
    /// the matrix is rejected.
    pub fn from_transition(
        current_state: &GlobalLifecycleState,
        target_state: GlobalLifecycleStateKind,
        reason_ref: LifecycleReasonRef,
        actor_ref: ActorRef,
        changed_at: IdentityTimestamp,
        basis_ref: Option<GovernanceBasisRef>,
    ) -> (r: Result<Self, IdentityDomainError>)
        ensures
            r is Ok <==> lifecycle_transition_allowed(current_state.state_kind, target_state),
            r matches Ok(s) ==> s == (GlobalLifecycleState {
                state_kind: target_state,
                reason_ref,
                changed_by_ref: actor_ref,
                changed_at,
                basis_ref,
            }),
            r matches Err(e) ==> e == lifecycle_transition_error(),
    {
        if !current_state.can_transition_to(target_state) {
            return Err(IdentityDomainError::invalid_state_transition("GlobalLifecycleState", "lifecycle transition is not allowed"));
        }
        Ok(GlobalLifecycleState { state_kind: target_state, reason_ref, changed_by_ref: actor_ref, changed_at, basis_ref })
    }

    /// Returns whether the target state is a formal transition candidate.
    pub fn can_transition_to(&self, target_state: GlobalLifecycleStateKind) -> (r: bool)
        ensures
            r == lifecycle_transition_allowed(self.state_kind, target_state),
    {
        matches!(
            (self.state_kind, target_state),
            (GlobalLifecycleStateKind::Available, GlobalLifecycleStateKind::Paused)
                | (GlobalLifecycleStateKind::Available, GlobalLifecycleStateKind::Retired)
                | (GlobalLifecycleStateKind::Available, GlobalLifecycleStateKind::Tombstoned)
                | (GlobalLifecycleStateKind::Paused, GlobalLifecycleStateKind::Available)
                | (GlobalLifecycleStateKind::Paused, GlobalLifecycleStateKind::Retired)
                | (GlobalLifecycleStateKind::Paused, GlobalLifecycleStateKind::Tombstoned)
                | (GlobalLifecycleStateKind::Retired, GlobalLifecycleStateKind::Tombstoned)
        )
    }

    /// Builds a new lifecycle state from the current state.
    pub fn transition_to(
        &self,
        target_state: GlobalLifecycleStateKind,
        reason_ref: LifecycleReasonRef,
        actor_ref: ActorRef,
        changed_at: IdentityTimestamp,
        basis_ref: Option<GovernanceBasisRef>,
    ) -> (r: Result<Self, IdentityDomainError>)
        ensures
            r is Ok <==> lifecycle_transition_allowed(self.state_kind, target_state),
            r matches Ok(s) ==> s == (GlobalLifecycleState {
                state_kind: target_state,
                reason_ref,
                changed_by_ref: actor_ref,
                changed_at,
                basis_ref,
            }),
            r matches Err(e) ==> e == lifecycle_transition_error(),
    {
        Self::from_transition(self, target_state, reason_ref, actor_ref, changed_at, basis_ref)
    }

    /// Returns whether the member is platform-available.
    pub fn is_available(&self) -> (r: bool)
        ensures
            r == (self.state_kind == GlobalLifecycleStateKind::Available),
    {
        self.state_kind == GlobalLifecycleStateKind::Available
    }

    /// Returns whether the state is terminal or terminal-candidate.
    pub fn is_terminal(&self) -> (r: bool)
        ensures
            r == lifecycle_kind_terminal(self.state_kind),
    {
        matches!(self.state_kind, GlobalLifecycleStateKind::Retired | GlobalLifecycleStateKind::Tombstoned)
    }

    /// Returns the stored governance basis ref.
    pub fn basis_ref(&self) -> (r: Option<GovernanceBasisRef>)
        ensures
            r == self.basis_ref,
    {
        self.basis_ref.clone()
    }
}

/// Law: a tombstoned member has no outgoing lifecycle transition.
pub proof fn lemma_tombstoned_has_no_transition(target: GlobalLifecycleStateKind)
    ensures
        !lifecycle_transition_allowed(GlobalLifecycleStateKind::Tombstoned, target),
{
}

/// Law: a retired member may only become tombstoned.
pub proof fn lemma_retired_only_tombstones(target: GlobalLifecycleStateKind)
    ensures
        lifecycle_transition_allowed(GlobalLifecycleStateKind::Retired, target)
            <==> target == GlobalLifecycleStateKind::Tombstoned,
{
}

/// Law: no lifecycle state transitions to itself.
pub proof fn lemma_no_self_transition(kind: GlobalLifecycleStateKind)
    ensures
        !lifecycle_transition_allowed(kind, kind),
{
}

/// Law: terminal lifecycle states stay terminal; a formal transition never leaves
/// the retired or tombstoned family, so a retired or tombstoned member never
/// becomes available or paused again.
pub proof fn lemma_terminal_is_closed(from: GlobalLifecycleStateKind, to: GlobalLifecycleStateKind)
    requires
        lifecycle_kind_terminal(from),
        lifecycle_transition_allowed(from, to),
    ensures
        lifecycle_kind_terminal(to),
        to == GlobalLifecycleStateKind::Tombstoned,
{
}

/// Whether `path` is a chain of formal lifecycle transitions.
pub open spec fn lifecycle_path_valid(path: Seq<GlobalLifecycleStateKind>) -> bool {
    forall|i: int| 0 <= i < path.len() - 1 ==> lifecycle_transition_allowed(#[trigger] path[i], path[i + 1])
}

/// Law: along any chain of formal transitions that starts in a terminal state,
/// every later state is terminal.
pub proof fn lemma_terminal_path_stays_terminal(path: Seq<GlobalLifecycleStateKind>, j: int)
    requires
        lifecycle_path_valid(path),
        path.len() > 0,
        lifecycle_kind_terminal(path[0]),
        0 <= j < path.len(),
    ensures
        lifecycle_kind_terminal(path[j]),
    decreases j,
{
    if j > 0 {
        lemma_terminal_path_stays_terminal(path, j - 1);
        assert(lifecycle_transition_allowed(path[j - 1], path[j]));
    }
}

/// Guard for explicit lifecycle transitions.
#[derive(Debug, Eq, PartialEq)]
pub struct LifecycleTransitionPolicy {
    /// Loaded current lifecycle state.
    pub current_state: GlobalLifecycleState,
    /// Requested target state.
    pub target_state: GlobalLifecycleStateKind,
    /// Transition reason.
    pub reason_ref: LifecycleReasonRef,
    /// Request actor.
    pub actor_ref: ActorRef,
    /// Current operation channel.
    pub operation_channel: IdentityOperationChannel,
}

impl Clone for LifecycleTransitionPolicy {
    fn clone(&self) -> (r: Self)
        ensures
            r == *self,
    {
        LifecycleTransitionPolicy {
            current_state: self.current_state.clone(),
            target_state: self.target_state,
            reason_ref: self.reason_ref.clone(),
            actor_ref: self.actor_ref.clone(),
            operation_channel: self.operation_channel,
        }
    }
}

impl LifecycleTransitionPolicy {
    /// Creates a lifecycle transition policy.
    pub fn for_transition(
        current_state: GlobalLifecycleState,
        target_state: GlobalLifecycleStateKind,
        reason_ref: LifecycleReasonRef,
        actor_ref: ActorRef,
        operation_channel: IdentityOperationChannel,
    ) -> (r: Self)
        ensures
            r == (LifecycleTransitionPolicy { current_state, target_state, reason_ref, actor_ref, operation_channel }),
    {
        LifecycleTransitionPolicy { current_state, target_state, reason_ref, actor_ref, operation_channel }
    }

    /// Asserts that the lifecycle change comes from the explicit command path.
    pub fn assert_explicit_command(&self) -> (r: Result<(), IdentityDomainError>)
        ensures
            r is Ok <==> self.operation_channel == IdentityOperationChannel::Command,
            r matches Err(e) ==> e == write_channel_denial(
                "LifecycleTransitionPolicy",
                self.operation_channel,
                "only command channel may mutate lifecycle truth",
            ),
    {
        match self.operation_channel {
            IdentityOperationChannel::Command => Ok(()),
            _ => Err(IdentityDomainError::write_channel_denied(
                "LifecycleTransitionPolicy",
                self.operation_channel,
                "only command channel may mutate lifecycle truth",
            )),
        }
    }

    /// Asserts that the target lifecycle transition is allowed.
    pub fn assert_allowed_transition(&self) -> (r: Result<(), IdentityDomainError>)
        ensures
            r is Ok <==> lifecycle_transition_allowed(self.current_state.state_kind, self.target_state),
            r matches Err(e) ==> e == lifecycle_transition_error(),
    {
        if self.current_state.can_transition_to(self.target_state) {
            return Ok(());
        }
        Err(IdentityDomainError::invalid_state_transition("GlobalLifecycleState", "lifecycle transition is not allowed"))
    }

    /// Rejects mixed external state families; every lifecycle kind belongs to the
    /// identity lifecycle family.
    pub fn assert_not_project_or_runtime_state(&self) -> (r: Result<(), IdentityDomainError>)
        ensures
            r is Ok,
    {
        match self.target_state {
            GlobalLifecycleStateKind::Available
            | GlobalLifecycleStateKind::Paused
            | GlobalLifecycleStateKind::Retired
            | GlobalLifecycleStateKind::Tombstoned => Ok(()),
        }
    }
}

/// Guard for high-risk lifecycle actions that require governance basis validation.
#[derive(Debug, Eq, PartialEq)]
pub struct HighRiskLifecycleGuard {
    /// Requested target state.
    pub target_state: GlobalLifecycleStateKind,
    /// Formal lifecycle risk marker.
    pub action_risk_ref: LifecycleRiskRef,
    /// Optional governance basis ref supplied with the action.
    pub basis_ref: Option<GovernanceBasisRef>,
    /// Request actor.
    pub actor_ref: ActorRef,
}

impl Clone for HighRiskLifecycleGuard {
    fn clone(&self) -> (r: Self)
        ensures
            r == *self,
    {
        HighRiskLifecycleGuard {
            target_state: self.target_state,
            action_risk_ref: self.action_risk_ref.clone(),
            basis_ref: self.basis_ref.clone(),
            actor_ref: self.actor_ref.clone(),
        }
    }
}

/// Whether a lifecycle risk class requires a governance basis.
pub open spec fn risk_requires_basis(risk: LifecycleRiskRef) -> bool {
    risk.risk_kind == crate::contracts::refs::LifecycleRiskKind::High
        || risk.risk_kind == crate::contracts::refs::LifecycleRiskKind::Critical
}

/// The denial a high-risk action without a basis yields.
pub open spec fn missing_basis_error() -> IdentityDomainError {
    IdentityDomainError::PolicyDenied {
        policy: "HighRiskLifecycleGuard",
        message: "high-risk lifecycle action requires a governance basis",
    }
}

/// The denial a basis that does not authorize the action yields.
pub open spec fn basis_mismatch_error() -> IdentityDomainError {
    IdentityDomainError::PolicyDenied {
        policy: "HighRiskLifecycleGuard",
        message: "governance basis is not valid for the lifecycle action",
    }
}

impl HighRiskLifecycleGuard {
    /// Creates a high-risk lifecycle guard.
    pub fn for_action(
        target_state: GlobalLifecycleStateKind,
        action_risk_ref: LifecycleRiskRef,
        basis_ref: Option<GovernanceBasisRef>,
        actor_ref: ActorRef,
    ) -> (r: Self)
        ensures
            r == (HighRiskLifecycleGuard { target_state, action_risk_ref, basis_ref, actor_ref }),
    {
        HighRiskLifecycleGuard { target_state, action_risk_ref, basis_ref, actor_ref }
    }

    /// Returns whether the action requires a governance basis.
    pub fn requires_basis(&self) -> (r: bool)
        ensures
            r == risk_requires_basis(self.action_risk_ref),
    {
        self.action_risk_ref.requires_governance_basis()
    }

    /// Asserts that a required basis is present.
    pub fn assert_basis_present(&self) -> (r: Result<(), IdentityDomainError>)
        ensures
            r is Ok <==> (!risk_requires_basis(self.action_risk_ref) || self.basis_ref is Some),
            r matches Err(e) ==> e == missing_basis_error(),
    {
        if !self.requires_basis() || self.basis_ref.is_some() {
            return Ok(());
        }
        Err(IdentityDomainError::policy_denied("HighRiskLifecycleGuard", "high-risk lifecycle action requires a governance basis"))
    }

    /// Asserts that the resolved basis summary authorizes the requested action: a
    /// required basis must be present, and the summary must be valid for the risk.
    pub fn assert_basis_matches_action(&self, basis_summary: &GovernanceBasisSummary) -> (r: Result<(), IdentityDomainError>)
        ensures
            r is Ok <==> ((!risk_requires_basis(self.action_risk_ref) || self.basis_ref is Some)
                && basis_valid_for_spec(*basis_summary, self.action_risk_ref)),
            r matches Err(e) ==> if !risk_requires_basis(self.action_risk_ref) || self.basis_ref is Some {
                e == basis_mismatch_error()
            } else {
                e == missing_basis_error()
            },
    {
        match self.assert_basis_present() {
            Ok(()) => {},
            Err(e) => {
                return Err(e);
            },
        }
        if !basis_summary.is_valid_for(&self.action_risk_ref) {
            return Err(IdentityDomainError::policy_denied("HighRiskLifecycleGuard", "governance basis is not valid for the lifecycle action"));
        }
        Ok(())
    }
}


/// A live member, available or paused, may move to any other lifecycle
/// state: an available member may be paused, a paused one resumed, and
/// either retired or tombstoned.
pub proof fn lemma_live_member_reaches_every_other_state(from: GlobalLifecycleStateKind, to: GlobalLifecycleStateKind)
    requires
        !lifecycle_kind_terminal(from),
        from != to,
    ensures
        lifecycle_transition_allowed(from, to),
{
}

/// Pause and resume undo each other, and they are the only moves that can
/// be undone: two distinct states allow the move in both directions exactly
/// when neither is terminal.
pub proof fn lemma_only_pause_and_resume_are_reversible(a: GlobalLifecycleStateKind, b: GlobalLifecycleStateKind)
    requires
        a != b,
    ensures
        (lifecycle_transition_allowed(a, b) && lifecycle_transition_allowed(b, a))
            <==> (!lifecycle_kind_terminal(a) && !lifecycle_kind_terminal(b)),
{
}


/// A lifecycle risk needs a recorded basis exactly when it is high or
/// critical; low and medium risks never do.
pub proof fn lemma_basis_needed_for_serious_risk(risk: LifecycleRiskRef)
    ensures
        risk_requires_basis(risk) <==> !(
            risk.risk_kind == crate::contracts::refs::LifecycleRiskKind::Low || risk.risk_kind == crate::contracts::refs::LifecycleRiskKind::Medium),
{
}

} // verus!
