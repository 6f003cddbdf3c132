use quantalithos_identity::actor::{ActorKind, ActorRef};
use quantalithos_identity::contracts::refs::{
    ExternalSourceRef, GovernanceBasisKind, GovernanceBasisRef, GovernanceBasisState,
    GovernanceBasisSummary, IdentityOperationChannel, IdentitySourceOwner, IdentitySourceRef,
    IdentityTimestamp, LifecycleReasonKind, LifecycleReasonRef, LifecycleRiskKind, LifecycleRiskRef,
};
use quantalithos_identity::domain::errors::IdentityDomainError;
use quantalithos_identity::domain::lifecycle::{
    GlobalLifecycleState, GlobalLifecycleStateKind, HighRiskLifecycleGuard, LifecycleTransitionPolicy,
};

fn actor() -> ActorRef {
    ActorRef::new("actor-1", ActorKind::Human)
}

fn timestamp(value: i64) -> IdentityTimestamp {
    IdentityTimestamp::from_clock(value).expect("valid timestamp")
}

fn source(owner: IdentitySourceOwner, token: &str) -> IdentitySourceRef {
    IdentitySourceRef::new(owner, ExternalSourceRef::new(token.to_owned()).expect("valid external source ref"))
        .expect("valid source ref")
}

fn lifecycle_reason(kind: LifecycleReasonKind) -> LifecycleReasonRef {
    LifecycleReasonRef::new(kind, source(IdentitySourceOwner::Identity, "identity-source-1")).expect("valid lifecycle reason")
}

fn lifecycle_state(kind: GlobalLifecycleStateKind, reason_kind: LifecycleReasonKind) -> GlobalLifecycleState {
    GlobalLifecycleState {
        state_kind: kind,
        reason_ref: lifecycle_reason(reason_kind),
        changed_by_ref: actor(),
        changed_at: timestamp(1),
        basis_ref: None,
    }
}

fn risk(kind: LifecycleRiskKind) -> LifecycleRiskRef {
    LifecycleRiskRef::new(kind, source(IdentitySourceOwner::Governance, "governance-source-1")).expect("valid lifecycle risk")
}

#[test]
fn lifecycle_allows_only_formal_transitions() {
    let available = lifecycle_state(GlobalLifecycleStateKind::Available, LifecycleReasonKind::InitialProvisioned);
    assert!(available.can_transition_to(GlobalLifecycleStateKind::Paused));
    assert!(available.can_transition_to(GlobalLifecycleStateKind::Retired));
    assert!(!available.can_transition_to(GlobalLifecycleStateKind::Available));

    let retired = lifecycle_state(GlobalLifecycleStateKind::Retired, LifecycleReasonKind::Retirement);
    assert!(retired.can_transition_to(GlobalLifecycleStateKind::Tombstoned));
    assert!(!retired.can_transition_to(GlobalLifecycleStateKind::Available));
}

#[test]
fn tombstoned_is_terminal() {
    let tombstoned = lifecycle_state(GlobalLifecycleStateKind::Tombstoned, LifecycleReasonKind::Tombstone);
    assert!(tombstoned.is_terminal());
    assert!(!tombstoned.can_transition_to(GlobalLifecycleStateKind::Paused));
}

#[test]
fn high_risk_guard_requires_and_validates_basis_summary() {
    let basis_ref = GovernanceBasisRef::new(
        GovernanceBasisKind::Approval,
        ExternalSourceRef::new("basis-1".to_owned()).expect("valid basis ref"),
    )
    .expect("valid governance basis ref");
    let risk_ref = risk(LifecycleRiskKind::Critical);
    let guard = HighRiskLifecycleGuard::for_action(GlobalLifecycleStateKind::Tombstoned, risk_ref.clone(), Some(basis_ref.clone()), actor());

    let missing_basis_guard = HighRiskLifecycleGuard::for_action(GlobalLifecycleStateKind::Tombstoned, risk_ref.clone(), None, actor());
    assert!(matches!(missing_basis_guard.assert_basis_present(), Err(IdentityDomainError::PolicyDenied { .. })));

    let invalid_summary =
        GovernanceBasisSummary::from_resolver(basis_ref.clone(), GovernanceBasisState::InvalidForAction, Some(risk_ref.clone()));
    assert!(matches!(guard.assert_basis_matches_action(&invalid_summary), Err(IdentityDomainError::PolicyDenied { .. })));

    let valid_summary = GovernanceBasisSummary::from_resolver(basis_ref, GovernanceBasisState::Valid, Some(risk_ref));
    guard.assert_basis_matches_action(&valid_summary).expect("valid basis summary should pass");
}

#[test]
fn lifecycle_transition_policy_rejects_non_command_channels() {
    let policy = LifecycleTransitionPolicy::for_transition(
        lifecycle_state(GlobalLifecycleStateKind::Available, LifecycleReasonKind::InitialProvisioned),
        GlobalLifecycleStateKind::Paused,
        lifecycle_reason(LifecycleReasonKind::ManualPause),
        actor(),
        IdentityOperationChannel::Job,
    );

    assert!(matches!(policy.assert_explicit_command(), Err(IdentityDomainError::PolicyDenied { .. })));
}

#[test]
fn tombstoned_state_has_no_outgoing_transition() {
    let tombstoned = lifecycle_state(GlobalLifecycleStateKind::Tombstoned, LifecycleReasonKind::Tombstone);
    for target in [
        GlobalLifecycleStateKind::Available,
        GlobalLifecycleStateKind::Paused,
        GlobalLifecycleStateKind::Retired,
        GlobalLifecycleStateKind::Tombstoned,
    ] {
        assert!(!tombstoned.can_transition_to(target));
    }
}

#[test]
fn job_channel_denial_carries_fixed_explanation() {
    let policy = LifecycleTransitionPolicy::for_transition(
        lifecycle_state(GlobalLifecycleStateKind::Available, LifecycleReasonKind::InitialProvisioned),
        GlobalLifecycleStateKind::Paused,
        lifecycle_reason(LifecycleReasonKind::ManualPause),
        actor(),
        IdentityOperationChannel::Job,
    );
    assert_eq!(
        policy.assert_explicit_command(),
        Err(IdentityDomainError::PolicyDenied { policy: "LifecycleTransitionPolicy", message: "job channel cannot mutate core identity truth" })
    );
}
