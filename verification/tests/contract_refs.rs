use quantalithos_identity::contracts::errors::ContractError;
use quantalithos_identity::contracts::refs::{
    ExternalSourceRef, GlobalMemberId, GlobalMemberRef, IdentitySourceOwner, IdentitySourceRef, IdentityTimestamp,
    WorkSourceKind, WorkSourceRef,
};
use quantalithos_identity::contracts::views::{
    IdentityReadMaterialKind, IdentityReadMaterialMarker, MemberSummarySliceKind, MemberSummarySliceRef, MemberSummaryView,
};
use quantalithos_identity::contracts::refs::{MemberSummaryViewRef, VisibilityResultRef, VisibilityScopeRef};

fn source(owner: IdentitySourceOwner, token: &str) -> IdentitySourceRef {
    IdentitySourceRef::new(owner, ExternalSourceRef::new(token.to_owned()).expect("valid external source ref"))
        .expect("valid source ref")
}

fn member(id: &str) -> GlobalMemberRef {
    GlobalMemberRef::from_id(GlobalMemberId::new(id.to_owned()).expect("valid member id"))
}

#[test]
fn blank_member_id_is_rejected() {
    let error = GlobalMemberId::new("   ".to_owned()).expect_err("blank id must be rejected");
    assert_eq!(error, ContractError { field: "global_member_id".to_owned(), message: "value must be non-empty".to_owned() });
    assert!(GlobalMemberId::new(" member-1 ".to_owned()).is_ok());
}

#[test]
fn negative_clock_value_is_rejected() {
    let error = IdentityTimestamp::from_clock(-1).expect_err("negative clock must be rejected");
    assert_eq!(error, ContractError::invalid_value("identity_timestamp", "epoch_millis must be non-negative"));
    assert_eq!(IdentityTimestamp::from_clock(0).expect("zero is valid").epoch_millis, 0);
    assert!(IdentityTimestamp::from_clock(5).expect("valid").is_after(&IdentityTimestamp::from_clock(4).expect("valid")));
}

#[test]
fn work_source_must_be_work_owned() {
    let error = WorkSourceRef::new(WorkSourceKind::ProjectParticipationAccepted, source(IdentitySourceOwner::Identity, "identity-1"))
        .expect_err("identity-owned source is not a work source");
    assert_eq!(error.field, "work_source_ref");
    assert_eq!(error.message, "source owner Identity is not allowed for this typed ref");
    assert!(WorkSourceRef::new(WorkSourceKind::ProjectParticipationAccepted, source(IdentitySourceOwner::Work, "work-1")).is_ok());
}

#[test]
fn member_summary_view_slices_must_belong_to_the_member() {
    let result = MemberSummaryView::from_projection(
        MemberSummaryViewRef::new("view-1".to_owned()),
        member("member-1"),
        VisibilityScopeRef::new("scope-1".to_owned()),
        MemberSummarySliceRef::new(MemberSummarySliceKind::Anchor, member("member-2"), source(IdentitySourceOwner::Identity, "anchor-1")),
        MemberSummarySliceRef::new(MemberSummarySliceKind::Lifecycle, member("member-1"), source(IdentitySourceOwner::Identity, "lifecycle-1")),
        Vec::new(),
        Vec::new(),
        Vec::new(),
        VisibilityResultRef::new("result-1".to_owned()),
        None,
        IdentityReadMaterialMarker::new(IdentityReadMaterialKind::SafeSummaryRefs, None),
    );
    assert_eq!(
        result.err(),
        Some(ContractError::invalid_value("member_summary_view", "anchor and lifecycle slices must belong to the same member"))
    );
}

#[test]
fn same_member_compares_identifiers() {
    assert!(member("member-1").same_member(&member("member-1")));
    assert!(!member("member-1").same_member(&member("member-2")));
}
