use quantalithos_identity::application::query::{
    classify_member_summary_disposition, empty_page_response, hide_on_redaction, map_projection_state_kind,
    map_query_disposition, map_surface_kind, maybe_hide_on_redaction, maybe_hide_vec_on_redaction, page_info,
    projection_freshness_marker, public_projection_state_token, require_page, surface_from_decision,
};
use quantalithos_identity::application::support::{IdentityReadDispositionKind, IdentityRepositoryCursor, IdentityVisibilityDecision, Page};
use quantalithos_identity::contracts::metadata::{IdentityQueryDisposition, IdentityQuerySurface, IdentityVisibilityMarker};
use quantalithos_identity::contracts::protocol::IdentityQueryName;
use quantalithos_identity::contracts::queries::{IdentityPageResponse, IdentityPublicPageCursor, IdentityPublicPageRequest};
use quantalithos_identity::contracts::refs::{
    ConsumerRef, ExternalSourceRef, GlobalMemberId, GlobalMemberRef, IdentityDegradedMarkerRef, IdentityProjectionCursorRef,
    IdentityProjectionRef, IdentityReadSubjectRef, IdentityReadSurfaceKind, IdentitySourceOwner, IdentitySourceRef,
    IdentityTimestamp, IdentityVisibilityDecisionRef, MemberSummaryViewRef, ProjectionStateId, ProjectionStateKind as PublicProjectionStateKind,
    ProjectionStateRef, VisibilityContextRef, VisibilityResultRef, VisibilityScopeRef,
};
use quantalithos_identity::contracts::views::{
    IdentityReadMaterialKind, IdentityReadMaterialMarker, IdentityVisibilityAccessState, IdentityVisibilityAccessSummary,
    MemberSummarySliceKind, MemberSummarySliceRef, MemberSummaryView,
};
use quantalithos_identity::domain::projection_state::{ProjectionState, ProjectionStateKind};

fn timestamp(value: i64) -> IdentityTimestamp {
    IdentityTimestamp::from_clock(value).expect("valid timestamp")
}

fn source(token: &str) -> IdentitySourceRef {
    IdentitySourceRef::new(IdentitySourceOwner::Identity, ExternalSourceRef::new(token.to_owned()).expect("valid external source ref"))
        .expect("valid source ref")
}

fn member_ref() -> GlobalMemberRef {
    GlobalMemberRef::from_id(GlobalMemberId::new("member-1".to_owned()).expect("valid member id"))
}

fn access(state: IdentityVisibilityAccessState) -> IdentityVisibilityAccessSummary {
    IdentityVisibilityAccessSummary {
        read_subject_ref: IdentityReadSubjectRef::new("subject-1".to_owned()),
        consumer_ref: ConsumerRef::new("consumer-1".to_owned()),
        actor_ref: None,
        visibility_context_ref: VisibilityContextRef::new("context-1".to_owned()),
        scope_ref: VisibilityScopeRef::new("scope-1".to_owned()),
        access_state: state,
        redaction_profile_ref: None,
        redaction_marker_ref: None,
        visibility_result_ref: VisibilityResultRef::new("result-1".to_owned()),
        degraded_marker_ref: None,
        degraded_kind: None,
    }
}

fn view(kind: IdentityReadSurfaceKind) -> MemberSummaryView {
    let mut view = MemberSummaryView::from_projection(
        MemberSummaryViewRef::new("view-1".to_owned()),
        member_ref(),
        VisibilityScopeRef::new("scope-1".to_owned()),
        MemberSummarySliceRef::new(MemberSummarySliceKind::Anchor, member_ref(), source("anchor-1")),
        MemberSummarySliceRef::new(MemberSummarySliceKind::Lifecycle, member_ref(), source("lifecycle-1")),
        Vec::new(),
        Vec::new(),
        Vec::new(),
        VisibilityResultRef::new("result-1".to_owned()),
        None,
        IdentityReadMaterialMarker::new(IdentityReadMaterialKind::SafeSummaryRefs, None),
    )
    .expect("valid view");
    view.read_surface_kind = kind;
    view
}

#[test]
fn member_summary_disposition_follows_access_then_freshness() {
    let found = view(IdentityReadSurfaceKind::Found);
    let stale = view(IdentityReadSurfaceKind::Stale);
    let degraded = view(IdentityReadSurfaceKind::Degraded);
    assert_eq!(classify_member_summary_disposition(&access(IdentityVisibilityAccessState::Visible), &found), IdentityReadDispositionKind::Visible);
    assert_eq!(classify_member_summary_disposition(&access(IdentityVisibilityAccessState::Visible), &stale), IdentityReadDispositionKind::StaleVisible);
    assert_eq!(classify_member_summary_disposition(&access(IdentityVisibilityAccessState::Visible), &degraded), IdentityReadDispositionKind::Degraded);
    assert_eq!(classify_member_summary_disposition(&access(IdentityVisibilityAccessState::Redacted), &found), IdentityReadDispositionKind::Redacted);
    assert_eq!(classify_member_summary_disposition(&access(IdentityVisibilityAccessState::Redacted), &degraded), IdentityReadDispositionKind::StaleVisible);
    assert_eq!(classify_member_summary_disposition(&access(IdentityVisibilityAccessState::NotVisible), &found), IdentityReadDispositionKind::NotVisible);
    assert_eq!(classify_member_summary_disposition(&access(IdentityVisibilityAccessState::Unavailable), &found), IdentityReadDispositionKind::Degraded);
}

#[test]
fn surface_kind_and_query_disposition_mapping() {
    assert_eq!(map_surface_kind(IdentityReadDispositionKind::Visible, true), IdentityReadSurfaceKind::Found);
    assert_eq!(map_surface_kind(IdentityReadDispositionKind::Visible, false), IdentityReadSurfaceKind::Empty);
    assert_eq!(map_surface_kind(IdentityReadDispositionKind::StaleVisible, true), IdentityReadSurfaceKind::Stale);
    assert_eq!(map_surface_kind(IdentityReadDispositionKind::NotVisible, true), IdentityReadSurfaceKind::NotVisible);
    assert_eq!(map_query_disposition(IdentityReadDispositionKind::Degraded), IdentityQueryDisposition::Degraded);
    assert_eq!(map_query_disposition(IdentityReadDispositionKind::StaleVisible), IdentityQueryDisposition::StaleVisible);
}

#[test]
fn surface_from_a_degraded_decision_carries_markers() {
    let decision = IdentityVisibilityDecision::degraded(
        IdentityVisibilityDecisionRef::new("decision-1".to_owned()),
        IdentityReadSubjectRef::new("subject-1".to_owned()),
        VisibilityContextRef::new("context-1".to_owned()),
        VisibilityScopeRef::new("scope-1".to_owned()),
        VisibilityResultRef::new("result-1".to_owned()),
        IdentityReadSurfaceKind::Degraded,
        IdentityDegradedMarkerRef::new("degraded-1".to_owned()),
        timestamp(1),
    );
    let surface = surface_from_decision(decision, None);
    assert_eq!(surface.disposition, IdentityQueryDisposition::Degraded);
    assert_eq!(
        surface.visibility,
        IdentityVisibilityMarker {
            visibility_result_ref: VisibilityResultRef::new("result-1".to_owned()),
            read_surface_kind: IdentityReadSurfaceKind::Degraded,
            redaction_marker_ref: None,
        }
    );
    assert!(surface.degraded.is_some());
    assert_eq!(surface.decision_ref, Some(IdentityVisibilityDecisionRef::new("decision-1".to_owned())));
}

#[test]
fn projection_freshness_marker_uses_public_tokens() {
    let state = ProjectionState::fresh(
        ProjectionStateRef::from_id(ProjectionStateId::new("projection-state-1".to_owned()).expect("valid id")),
        IdentityProjectionRef::new("projection-1".to_owned()),
        None,
        IdentityProjectionCursorRef::new(source("cursor-1")),
        timestamp(1),
    );
    let marker = projection_freshness_marker(&state);
    assert_eq!(marker.state_kind, "fresh");
    assert_eq!(marker.projection_ref, IdentityProjectionRef::new("projection-1".to_owned()));
    assert_eq!(public_projection_state_token(ProjectionStateKind::RebuildPending), "rebuild_pending");
    assert_eq!(public_projection_state_token(ProjectionStateKind::RebuildFailed), "rebuild_failed");
    assert_eq!(map_projection_state_kind(ProjectionStateKind::Rebuilt), PublicProjectionStateKind::Rebuilt);
}

#[test]
fn paging_helpers_carry_cursor_and_count() {
    let missing = require_page(&None).expect_err("no page information");
    assert_eq!(missing.message, "paged query request must include page information");
    let page = require_page(&Some(IdentityPublicPageRequest {
        cursor: Some(IdentityPublicPageCursor::new("cursor-1".to_owned())),
        limit: 25,
    }))
    .expect("page present");
    assert_eq!(page.limit, 25);
    assert_eq!(page.cursor, Some(IdentityRepositoryCursor::new("cursor-1".to_owned())));

    let repository_page = Page { items: vec![1, 2, 3], next_cursor: Some(IdentityRepositoryCursor::new("next-1".to_owned())) };
    let info = page_info(&repository_page, 2);
    assert_eq!(info.item_count, 2);
    assert!(info.has_more);
    assert_eq!(info.next_cursor, Some(IdentityPublicPageCursor::new("next-1".to_owned())));

    let last_page: Page<u8> = Page { items: Vec::new(), next_cursor: None };
    let info = page_info(&last_page, 0);
    assert_eq!(info.item_count, 0);
    assert!(!info.has_more);
}

#[test]
fn empty_page_response_has_no_items() {
    let surface = surface_from_decision(
        IdentityVisibilityDecision::visible(
            IdentityVisibilityDecisionRef::new("decision-1".to_owned()),
            IdentityReadSubjectRef::new("subject-1".to_owned()),
            VisibilityContextRef::new("context-1".to_owned()),
            VisibilityScopeRef::new("scope-1".to_owned()),
            VisibilityResultRef::new("result-1".to_owned()),
            IdentityReadSurfaceKind::Empty,
            timestamp(1),
        ),
        None,
    );
    let response: IdentityPageResponse<u8> =
        empty_page_response(IdentityQueryName::new("ListCareerRecords".to_owned()), surface.clone());
    assert!(response.items.is_empty());
    assert!(!response.page_info.has_more);
    assert_eq!(response.page_info.item_count, 0);
    let same: IdentityQuerySurface = response.surface;
    assert_eq!(same, surface);
}

#[test]
fn redaction_hides_fields_and_lists() {
    assert_eq!(hide_on_redaction(true, Some(5)), None);
    assert_eq!(hide_on_redaction(false, Some(5)), Some(5));
    let redacted = access(IdentityVisibilityAccessState::Redacted);
    let visible = access(IdentityVisibilityAccessState::Visible);
    assert_eq!(maybe_hide_on_redaction(&redacted, Some("x")), None);
    assert_eq!(maybe_hide_on_redaction(&visible, Some("x")), Some("x"));
    assert!(maybe_hide_vec_on_redaction(&redacted, vec![1, 2]).is_empty());
    assert_eq!(maybe_hide_vec_on_redaction(&visible, vec![1, 2]), vec![1, 2]);
}
