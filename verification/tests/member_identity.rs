use quantalithos_identity::actor::{ActorKind, ActorRef};
use quantalithos_identity::contracts::refs::{
    ExternalSourceRef, GlobalMemberId, GlobalMemberRef, IdentityAnchorReasonKind, IdentityAnchorReasonRef,
    IdentityOperationChannel, IdentitySourceOwner, IdentitySourceRef, IdentityTimestamp,
};
use quantalithos_identity::domain::errors::IdentityDomainError;
use quantalithos_identity::domain::member_identity::{
    GlobalMember, IdentityAnchorPolicy, IdentityAnchorState, IdentityAnchorStateKind,
};

fn actor() -> ActorRef {
    ActorRef::new("actor-1", ActorKind::Human)
}

fn member_ref(id: &str) -> GlobalMemberRef {
    GlobalMemberRef::from_id(GlobalMemberId::new(id.to_owned()).expect("valid member id"))
}

fn timestamp(value: i64) -> IdentityTimestamp {
    IdentityTimestamp::from_clock(value).expect("valid timestamp")
}

fn source(owner: IdentitySourceOwner, token: &str) -> IdentitySourceRef {
    IdentitySourceRef::new(owner, ExternalSourceRef::new(token.to_owned()).expect("valid external source ref"))
        .expect("valid source ref")
}

fn retired_reason() -> IdentityAnchorReasonRef {
    IdentityAnchorReasonRef::new(IdentityAnchorReasonKind::Retired, source(IdentitySourceOwner::Identity, "identity-source-1"))
        .expect("valid retired reason")
}

#[test]
fn ref_reuse_is_rejected() {
    let policy = IdentityAnchorPolicy::for_create(
        member_ref("member-1"),
        source(IdentitySourceOwner::Account, "account-1"),
        actor(),
        Some(IdentityAnchorState::established(timestamp(1))),
        IdentityOperationChannel::Command,
    );

    assert_eq!(
        policy.assert_ref_not_reused(),
        Err(IdentityDomainError::policy_denied("IdentityAnchorPolicy", "member ref is already occupied and cannot be reused"))
    );
}

#[test]
fn query_channel_cannot_create_member_truth() {
    let policy = IdentityAnchorPolicy::for_create(
        member_ref("member-1"),
        source(IdentitySourceOwner::Account, "account-1"),
        actor(),
        None,
        IdentityOperationChannel::Query,
    );

    assert!(matches!(policy.assert_query_does_not_create(), Err(IdentityDomainError::PolicyDenied { .. })));
}

#[test]
fn hold_anchor_only_allows_formal_hold_transitions() {
    let mut member = GlobalMember::establish(
        member_ref("member-1"),
        source(IdentitySourceOwner::Account, "account-1"),
        actor(),
        timestamp(1),
    )
    .expect("member established");

    member
        .hold_anchor(IdentityAnchorState::retired_held(retired_reason(), timestamp(2)), actor())
        .expect("retired hold allowed");
    assert_eq!(member.anchor_state.state_kind, IdentityAnchorStateKind::RetiredHeld);

    member
        .hold_anchor(
            IdentityAnchorState::tombstone_held(
                IdentityAnchorReasonRef::new(
                    IdentityAnchorReasonKind::Tombstoned,
                    source(IdentitySourceOwner::Identity, "identity-source-2"),
                )
                .expect("valid tombstone reason"),
                timestamp(3),
            ),
            actor(),
        )
        .expect("retired to tombstone hold allowed");
    assert_eq!(member.anchor_state.state_kind, IdentityAnchorStateKind::TombstoneHeld);

    let result = member.hold_anchor(IdentityAnchorState::established(timestamp(4)), actor());
    assert!(matches!(result, Err(IdentityDomainError::InvalidStateTransition { .. })));
}

#[test]
fn hold_without_reason_is_refused_and_keeps_anchor() {
    let mut member =
        GlobalMember::establish(member_ref("member-1"), source(IdentitySourceOwner::Account, "account-1"), actor(), timestamp(1))
            .expect("member established");
    let mut hold = IdentityAnchorState::retired_held(retired_reason(), timestamp(2));
    hold.reason_ref = None;
    assert_eq!(member.hold_anchor(hold, actor()), Err(IdentityDomainError::MissingRequiredField { field: "reason_ref" }));
    assert_eq!(member.anchor_state.state_kind, IdentityAnchorStateKind::Established);
    assert!(!member.anchor_state.is_reusable());
}

#[test]
fn establish_guards_report_the_first_failure() {
    let read_policy = IdentityAnchorPolicy::for_read(member_ref("member-1"), IdentityOperationChannel::Command);
    assert_eq!(read_policy.assert_can_establish(), Err(IdentityDomainError::MissingRequiredField { field: "source_ref" }));

    let work_policy = IdentityAnchorPolicy::for_create(
        member_ref("member-2"),
        source(IdentitySourceOwner::Work, "work-1"),
        actor(),
        None,
        IdentityOperationChannel::Consumer,
    );
    assert_eq!(
        work_policy.assert_can_establish(),
        Err(IdentityDomainError::PolicyDenied {
            policy: "IdentityAnchorPolicy",
            message: "runtime or work truth cannot establish member identity truth",
        })
    );

    let good_policy = IdentityAnchorPolicy::for_create(
        member_ref("member-3"),
        source(IdentitySourceOwner::Account, "account-3"),
        actor(),
        None,
        IdentityOperationChannel::Command,
    );
    assert_eq!(good_policy.assert_can_establish(), Ok(()));
}

#[test]
fn member_ref_mismatch_is_invalid_input() {
    let member =
        GlobalMember::establish(member_ref("member-1"), source(IdentitySourceOwner::Account, "account-1"), actor(), timestamp(1))
            .expect("member established");
    assert_eq!(member.assert_same_ref(member_ref("member-1")), Ok(()));
    assert_eq!(
        member.assert_same_ref(member_ref("member-9")),
        Err(IdentityDomainError::InvalidInput { field: "member_ref", message: "member ref does not match loaded member truth" })
    );
}
