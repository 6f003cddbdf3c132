use quantalithos_identity::actor::{ActorKind, ActorRef};
use quantalithos_identity::application::errors::{ApplicationError, ApplicationErrorKind};
use quantalithos_identity::application::query::{
    absent_surface_from_access, decide_member_summary_read, member_summary_preflight, decision_from_access, degraded_surface_from_material,
    identity_outbox_record_view, list_page_response, material_degraded_response, surface_for_list_success,
    trace_item_check, trace_item_step, trace_page_start, trace_page_surface, trace_record_view,
    IdentityQueryMaterialDegradationSummary, MemberSummaryReadStep, TraceItemCheck, TraceItemOutcome,
};
use quantalithos_identity::application::support::{IdentityReadDispositionKind, IdentityRepositoryCursor, Page};
use quantalithos_identity::contracts::metadata::{IdentityDegradedKind, IdentityQueryDisposition};
use quantalithos_identity::contracts::protocol::IdentityQueryName;
use quantalithos_identity::contracts::queries::IdentityQueryResponse;
use quantalithos_identity::contracts::refs::{
    ConsumerRef, ExternalSourceRef, GlobalMemberId, GlobalMemberRef, IdentityAuditSubjectRef, IdentityChangeKind,
    IdentityChangeKindRef, IdentityDegradedMarkerRef, IdentityProjectionRef, IdentityReadSubjectRef,
    IdentityReadSurfaceKind, IdentityRedactionMarkerRef, IdentitySourceOwner, IdentitySourceRef, IdentityTimestamp,
    IdentityTraceRecordRef, IdentityTraceSubjectRef, IdentityTruthCursor, IdentityVisibilityDecisionRef,
    MemberSummaryViewRef, ProjectionFreshnessMarkerRef, VisibilityContextRef, VisibilityResultRef, VisibilityScopeRef,
};
use quantalithos_identity::contracts::views::{
    IdentityReadMaterialKind, IdentityReadMaterialMarker, IdentityVisibilityAccessState, IdentityVisibilityAccessSummary,
    MemberSummarySliceKind, MemberSummarySliceRef, MemberSummaryView,
};
use quantalithos_identity::contracts::refs::{
    IdentityOutboxPayloadMarkerRef, IdentityOutboxRecordRef, IdentityOutboxSubjectRef, OutboxStateKind as PublicOutboxStateKind,
    TopicKeyRef,
};
use quantalithos_identity::domain::outbox::{IdentityOutboxRecord, IdentityOutboxRecordCreateArgs};
use quantalithos_identity::domain::trace::IdentityTraceRecord;

fn timestamp(value: i64) -> IdentityTimestamp {
    IdentityTimestamp::from_clock(value).expect("valid timestamp")
}

fn source(token: &str) -> IdentitySourceRef {
    IdentitySourceRef::new(IdentitySourceOwner::Identity, ExternalSourceRef::new(token.to_owned()).expect("valid external source ref"))
        .expect("valid source ref")
}

fn member(id: &str) -> GlobalMemberRef {
    GlobalMemberRef::from_id(GlobalMemberId::new(id.to_owned()).expect("valid member id"))
}

fn decision_ref() -> IdentityVisibilityDecisionRef {
    IdentityVisibilityDecisionRef::new("decision-1".to_owned())
}

fn query_name() -> IdentityQueryName {
    IdentityQueryName::new("ReadMemberSummary".to_owned())
}

fn access(state: IdentityVisibilityAccessState, result: &str) -> IdentityVisibilityAccessSummary {
    IdentityVisibilityAccessSummary {
        read_subject_ref: IdentityReadSubjectRef::new("subject-1".to_owned()),
        consumer_ref: ConsumerRef::new("consumer-1".to_owned()),
        actor_ref: None,
        visibility_context_ref: VisibilityContextRef::new("context-1".to_owned()),
        scope_ref: VisibilityScopeRef::new("scope-1".to_owned()),
        access_state: state,
        redaction_profile_ref: None,
        redaction_marker_ref: None,
        visibility_result_ref: VisibilityResultRef::new(result.to_owned()),
        degraded_marker_ref: None,
        degraded_kind: None,
    }
}

fn redacted_access(result: &str) -> IdentityVisibilityAccessSummary {
    let mut a = access(IdentityVisibilityAccessState::Redacted, result);
    a.redaction_marker_ref = Some(IdentityRedactionMarkerRef::new("redaction-1".to_owned()));
    a
}

fn degraded_access(result: &str) -> IdentityVisibilityAccessSummary {
    let mut a = access(IdentityVisibilityAccessState::Degraded, result);
    a.degraded_marker_ref = Some(IdentityDegradedMarkerRef::new("degraded-1".to_owned()));
    a.degraded_kind = Some(IdentityDegradedKind::SourceUnavailable);
    a
}

fn view(owner: &str, scope: &str, kind: IdentityReadSurfaceKind) -> MemberSummaryView {
    let mut view = MemberSummaryView::from_projection(
        MemberSummaryViewRef::new("view-1".to_owned()),
        member(owner),
        VisibilityScopeRef::new(scope.to_owned()),
        MemberSummarySliceRef::new(MemberSummarySliceKind::Anchor, member(owner), source("anchor-1")),
        MemberSummarySliceRef::new(MemberSummarySliceKind::Lifecycle, member(owner), source("lifecycle-1")),
        Vec::new(),
        Vec::new(),
        Vec::new(),
        VisibilityResultRef::new("view-result-1".to_owned()),
        None,
        IdentityReadMaterialMarker::new(IdentityReadMaterialKind::SafeSummaryRefs, None),
    )
    .expect("valid view");
    view.read_surface_kind = kind;
    view
}

fn respond(step: MemberSummaryReadStep) -> IdentityQueryResponse<MemberSummaryView> {
    match step {
        MemberSummaryReadStep::Respond(response) => response,
        other => panic!("expected a response, got {:?}", other),
    }
}

fn decide(
    first: IdentityVisibilityAccessSummary,
    view_access: Option<IdentityVisibilityAccessSummary>,
    loaded: Option<MemberSummaryView>,
) -> Result<MemberSummaryReadStep, ApplicationError> {
    decide_member_summary_read(query_name(), &member("member-1"), &first, view_access, loaded, decision_ref(), timestamp(5))
}

#[test]
fn hidden_member_access_answers_not_visible_without_body() {
    let response = respond(
        decide(access(IdentityVisibilityAccessState::NotVisible, "r-1"), None, Some(view("member-1", "scope-1", IdentityReadSurfaceKind::Found)))
            .expect("decided"),
    );
    assert!(response.body.is_none());
    assert_eq!(response.surface.disposition, IdentityQueryDisposition::NotVisible);
    assert_eq!(response.surface.visibility.read_surface_kind, IdentityReadSurfaceKind::NotVisible);
    assert_eq!(response.surface.decision_ref, Some(decision_ref()));
}

#[test]
fn degraded_member_access_answers_degraded_or_fails_without_markers() {
    let response = respond(decide(degraded_access("r-1"), None, None).expect("decided"));
    assert!(response.body.is_none());
    assert_eq!(response.surface.disposition, IdentityQueryDisposition::Degraded);
    assert_eq!(
        response.surface.degraded.expect("degraded shell").degraded_marker_ref,
        IdentityDegradedMarkerRef::new("degraded-1".to_owned())
    );

    let mut no_kind = degraded_access("r-1");
    no_kind.degraded_kind = None;
    let err = decide(no_kind, None, None).expect_err("missing degraded kind");
    assert_eq!(err.kind, ApplicationErrorKind::ConsistencyDefect);
    assert_eq!(err.message, "degraded query surface requires a formal degraded kind");

    let err = decide(access(IdentityVisibilityAccessState::Unavailable, "r-1"), None, None).expect_err("missing marker");
    assert_eq!(err.message, "degraded query surface requires a formal degraded marker");
}

#[test]
fn missing_view_lookup_answers_missing() {
    let response = respond(decide(access(IdentityVisibilityAccessState::Visible, "r-1"), None, None).expect("decided"));
    assert!(response.body.is_none());
    assert_eq!(response.surface.disposition, IdentityQueryDisposition::Missing);
    assert_eq!(response.surface.visibility.read_surface_kind, IdentityReadSurfaceKind::NotFound);
    assert!(response.surface.degraded.is_none());
}

#[test]
fn hidden_view_access_answers_without_body() {
    let response = respond(
        decide(
            access(IdentityVisibilityAccessState::Visible, "r-1"),
            Some(access(IdentityVisibilityAccessState::NotVisible, "r-2")),
            Some(view("member-1", "scope-1", IdentityReadSurfaceKind::Found)),
        )
        .expect("decided"),
    );
    assert!(response.body.is_none());
    assert_eq!(response.surface.disposition, IdentityQueryDisposition::NotVisible);
    assert_eq!(response.surface.visibility.visibility_result_ref, VisibilityResultRef::new("r-2".to_owned()));
}

#[test]
fn visible_view_is_served_with_its_body() {
    let response = respond(
        decide(
            access(IdentityVisibilityAccessState::Visible, "r-1"),
            Some(access(IdentityVisibilityAccessState::Visible, "r-2")),
            Some(view("member-1", "scope-1", IdentityReadSurfaceKind::Found)),
        )
        .expect("decided"),
    );
    assert_eq!(response.body, Some(view("member-1", "scope-1", IdentityReadSurfaceKind::Found)));
    assert_eq!(response.surface.disposition, IdentityQueryDisposition::Visible);
    assert_eq!(response.surface.visibility.read_surface_kind, IdentityReadSurfaceKind::Found);
    assert_eq!(response.surface.visibility.visibility_result_ref, VisibilityResultRef::new("r-2".to_owned()));
}

#[test]
fn view_defects_are_named_in_order() {
    let visible = || access(IdentityVisibilityAccessState::Visible, "r-1");
    assert_eq!(decide(visible(), Some(visible()), None).expect("decided"), MemberSummaryReadStep::ViewMissing);
    assert_eq!(
        decide(visible(), Some(visible()), Some(view("member-2", "scope-1", IdentityReadSurfaceKind::Found))).expect("decided"),
        MemberSummaryReadStep::ViewInvalidOwner
    );
    assert_eq!(
        decide(visible(), Some(visible()), Some(view("member-1", "scope-2", IdentityReadSurfaceKind::Found))).expect("decided"),
        MemberSummaryReadStep::ViewScopeMismatch
    );
    let mut forbidden = view("member-1", "scope-1", IdentityReadSurfaceKind::Found);
    forbidden.read_material_marker = IdentityReadMaterialMarker::new(IdentityReadMaterialKind::ForbiddenSecret, None);
    assert_eq!(
        decide(visible(), Some(visible()), Some(forbidden)).expect("decided"),
        MemberSummaryReadStep::ForbiddenMaterial(IdentityReadMaterialMarker::new(IdentityReadMaterialKind::ForbiddenSecret, None))
    );
}

#[test]
fn stale_view_needs_a_freshness_marker() {
    let visible = || access(IdentityVisibilityAccessState::Visible, "r-1");
    assert_eq!(
        decide(visible(), Some(visible()), Some(view("member-1", "scope-1", IdentityReadSurfaceKind::Stale))).expect("decided"),
        MemberSummaryReadStep::MissingFreshness
    );
    let marker = ProjectionFreshnessMarkerRef {
        projection_ref: IdentityProjectionRef::new("projection-1".to_owned()),
        state_kind: "stale".to_owned(),
    };
    let mut stale = view("member-1", "scope-1", IdentityReadSurfaceKind::Stale);
    stale.projection_freshness_ref = Some(marker.clone());
    let response = respond(decide(visible(), Some(visible()), Some(stale)).expect("decided"));
    assert!(response.body.is_some());
    assert_eq!(response.surface.disposition, IdentityQueryDisposition::StaleVisible);
    assert_eq!(response.surface.projection_freshness_ref, Some(marker));
}

#[test]
fn redacted_view_access_needs_its_redaction_marker() {
    let err = decide(
        access(IdentityVisibilityAccessState::Visible, "r-1"),
        Some(access(IdentityVisibilityAccessState::Redacted, "r-2")),
        Some(view("member-1", "scope-1", IdentityReadSurfaceKind::Found)),
    )
    .expect_err("no redaction marker");
    assert_eq!(err.kind, ApplicationErrorKind::ConsistencyDefect);
    assert_eq!(err.message, "redacted query surface requires a formal redaction marker");

    let response = respond(
        decide(
            access(IdentityVisibilityAccessState::Visible, "r-1"),
            Some(redacted_access("r-2")),
            Some(view("member-1", "scope-1", IdentityReadSurfaceKind::Found)),
        )
        .expect("decided"),
    );
    assert!(response.body.is_some());
    assert_eq!(response.surface.disposition, IdentityQueryDisposition::Redacted);
    assert_eq!(response.surface.visibility.redaction_marker_ref, Some(IdentityRedactionMarkerRef::new("redaction-1".to_owned())));
}

#[test]
fn decision_from_access_follows_the_disposition() {
    let stale = decision_from_access(&degraded_access("r-1"), IdentityReadDispositionKind::StaleVisible, true, decision_ref(), timestamp(2))
        .expect("stale decision");
    assert_eq!(stale.surface_kind, IdentityReadSurfaceKind::Stale);
    assert_eq!(stale.degraded_marker_ref, Some(IdentityDegradedMarkerRef::new("degraded-1".to_owned())));
    assert!(stale.redaction_marker_ref.is_none());

    let hidden = decision_from_access(&redacted_access("r-1"), IdentityReadDispositionKind::NotVisible, false, decision_ref(), timestamp(2))
        .expect("hidden decision");
    assert_eq!(hidden.redaction_marker_ref, Some(IdentityRedactionMarkerRef::new("redaction-1".to_owned())));
    assert_eq!(hidden.surface_kind, IdentityReadSurfaceKind::NotVisible);
    assert_eq!(hidden.decided_at, timestamp(2));
}

#[test]
fn absent_and_list_surfaces() {
    let visible = access(IdentityVisibilityAccessState::Visible, "r-1");
    let empty = absent_surface_from_access(&visible, false, decision_ref(), timestamp(3)).expect("empty");
    assert_eq!(empty.disposition, IdentityQueryDisposition::Empty);
    assert_eq!(empty.visibility.read_surface_kind, IdentityReadSurfaceKind::Empty);
    let listed = surface_for_list_success(&redacted_access("r-1"), false, decision_ref(), timestamp(3)).expect("listed");
    assert_eq!(listed.disposition, IdentityQueryDisposition::Redacted);
    assert_eq!(listed.visibility.read_surface_kind, IdentityReadSurfaceKind::Redacted);
}

#[test]
fn material_degradation_degrades_the_surface() {
    let degradation = IdentityQueryMaterialDegradationSummary {
        read_subject_ref: IdentityReadSubjectRef::new("subject-9".to_owned()),
        visibility_context_ref: VisibilityContextRef::new("context-9".to_owned()),
        visibility_scope_ref: VisibilityScopeRef::new("scope-9".to_owned()),
        visibility_result_ref: VisibilityResultRef::new("result-9".to_owned()),
        degraded_marker_ref: IdentityDegradedMarkerRef::new("degraded-9".to_owned()),
        degraded_kind: IdentityDegradedKind::MaterialUnsafe,
    };
    let surface = degraded_surface_from_material(degradation, decision_ref(), timestamp(4));
    assert_eq!(surface.disposition, IdentityQueryDisposition::Degraded);
    assert_eq!(surface.visibility.read_surface_kind, IdentityReadSurfaceKind::Degraded);
    assert_eq!(surface.visibility.visibility_result_ref, VisibilityResultRef::new("result-9".to_owned()));
    assert!(surface.projection_freshness_ref.is_none());
    let response: IdentityQueryResponse<MemberSummaryView> = material_degraded_response(
        query_name(),
        IdentityQueryMaterialDegradationSummary {
            read_subject_ref: IdentityReadSubjectRef::new("subject-9".to_owned()),
            visibility_context_ref: VisibilityContextRef::new("context-9".to_owned()),
            visibility_scope_ref: VisibilityScopeRef::new("scope-9".to_owned()),
            visibility_result_ref: VisibilityResultRef::new("result-9".to_owned()),
            degraded_marker_ref: IdentityDegradedMarkerRef::new("degraded-9".to_owned()),
            degraded_kind: IdentityDegradedKind::MaterialUnsafe,
        },
        decision_ref(),
        timestamp(4),
    );
    assert!(response.body.is_none());
    assert_eq!(response.surface, surface);
}

fn trace(subject: &str) -> IdentityTraceRecord {
    IdentityTraceRecord::from_accepted_change(
        IdentityTraceRecordRef::new("trace-1".to_owned()),
        member("member-1"),
        IdentityTraceSubjectRef::new(subject.to_owned()),
        IdentityAuditSubjectRef::new("audit-subject-1".to_owned()),
        IdentityChangeKindRef::new(IdentityChangeKind::LifecycleChanged, None),
        IdentityTruthCursor::new("cursor-1".to_owned()),
        None,
        Some(source("source-1")),
        None,
        Some(ActorRef::new("actor-1", ActorKind::Human)),
        IdentityReadMaterialMarker::new(IdentityReadMaterialKind::TraceRefsOnly, None),
        timestamp(1),
    )
    .expect("body-free trace")
}

#[test]
fn trace_view_hides_fields_when_redacted() {
    let shown = trace_record_view(&access(IdentityVisibilityAccessState::Visible, "r-1"), trace("s-1"));
    assert_eq!(shown.source_ref, Some(source("source-1")));
    assert!(shown.actor_ref.is_some());
    let hidden = trace_record_view(&redacted_access("r-7"), trace("s-1"));
    assert!(hidden.source_ref.is_none());
    assert!(hidden.actor_ref.is_none());
    assert_eq!(hidden.visibility_result_ref, VisibilityResultRef::new("r-7".to_owned()));
    assert_eq!(hidden.trace_record_ref, IdentityTraceRecordRef::new("trace-1".to_owned()));
}

#[test]
fn trace_items_are_checked_before_their_visibility() {
    let subject = IdentityTraceSubjectRef::new("s-1".to_owned());
    assert_eq!(trace_item_check(&member("member-1"), None, &None), TraceItemCheck::Missing);
    assert_eq!(trace_item_check(&member("member-2"), None, &Some(trace("s-1"))), TraceItemCheck::InvalidMember);
    assert_eq!(trace_item_check(&member("member-1"), Some(&subject), &Some(trace("s-2"))), TraceItemCheck::SubjectMismatch);
    assert_eq!(trace_item_check(&member("member-1"), Some(&subject), &Some(trace("s-1"))), TraceItemCheck::Resolve);
}

#[test]
fn trace_page_skips_hidden_items_and_stops_at_degraded_ones() {
    let selector = access(IdentityVisibilityAccessState::Visible, "r-0");
    let mut state = trace_page_start();
    let outcome = trace_item_step(&mut state, access(IdentityVisibilityAccessState::NotVisible, "r-1"), trace("s-1"), decision_ref(), timestamp(1))
        .expect("hidden item");
    assert_eq!(outcome, TraceItemOutcome::Continue);
    assert_eq!(state.denied_count, 1);
    assert!(state.items.is_empty());
    let only_hidden = trace_page_surface(&state, &selector, decision_ref(), timestamp(1)).expect("surface");
    assert_eq!(only_hidden.disposition, IdentityQueryDisposition::NotVisible);
    assert_eq!(only_hidden.visibility.visibility_result_ref, VisibilityResultRef::new("r-1".to_owned()));

    let outcome = trace_item_step(&mut state, access(IdentityVisibilityAccessState::Visible, "r-2"), trace("s-2"), decision_ref(), timestamp(1))
        .expect("visible item");
    assert_eq!(outcome, TraceItemOutcome::Continue);
    assert_eq!(state.items.len(), 1);
    let partial = trace_page_surface(&state, &selector, decision_ref(), timestamp(1));
    assert_eq!(partial.expect_err("selector has no redaction marker").message, "redacted query surface requires a formal redaction marker");

    let outcome = trace_item_step(&mut state, degraded_access("r-3"), trace("s-3"), decision_ref(), timestamp(1)).expect("degraded item");
    match outcome {
        TraceItemOutcome::Stop(surface) => assert_eq!(surface.disposition, IdentityQueryDisposition::Degraded),
        other => panic!("expected a stop, got {:?}", other),
    }
    assert_eq!(state.items.len(), 1);
    assert_eq!(state.last_resolved_item_access, Some(degraded_access("r-3")));

    let mut forbidden = trace("s-4");
    forbidden.read_material_marker = IdentityReadMaterialMarker::new(IdentityReadMaterialKind::ForbiddenRawDiagnostic, None);
    let outcome = trace_item_step(&mut state, access(IdentityVisibilityAccessState::Visible, "r-4"), forbidden, decision_ref(), timestamp(1))
        .expect("forbidden item");
    assert_eq!(
        outcome,
        TraceItemOutcome::ForbiddenMaterial(IdentityReadMaterialMarker::new(IdentityReadMaterialKind::ForbiddenRawDiagnostic, None))
    );
    assert_eq!(state.items.len(), 1);
}

#[test]
fn page_counts_the_items_it_returns() {
    let listed: Page<u32> = Page { items: vec![1, 2, 3], next_cursor: Some(IdentityRepositoryCursor::new("next".to_owned())) };
    let surface = surface_for_list_success(&access(IdentityVisibilityAccessState::Visible, "r-1"), false, decision_ref(), timestamp(1))
        .expect("surface");
    let page = list_page_response(query_name(), surface.clone(), &listed, vec!["a", "b", "c"]);
    assert_eq!(page.page_info.item_count, 3);
    assert_eq!(page.items.len(), 3);
    assert!(page.page_info.has_more);
    let partial = list_page_response(query_name(), surface, &listed, vec!["a"]);
    assert_eq!(partial.page_info.item_count, 1);
    assert!(partial.page_info.has_more);
}

#[test]
fn outbox_view_carries_the_record_and_the_access_result() {
    let record = IdentityOutboxRecord::from_accepted_change(IdentityOutboxRecordCreateArgs {
        outbox_record_ref: IdentityOutboxRecordRef::new("outbox-1".to_owned()),
        member_ref: member("member-1"),
        subject_ref: IdentityOutboxSubjectRef::new("subject-1".to_owned()),
        change_kind_ref: IdentityChangeKindRef::new(IdentityChangeKind::DerivedMarkerChanged, None),
        payload_marker_ref: IdentityOutboxPayloadMarkerRef::new("payload-1".to_owned()),
        topic_key_ref: TopicKeyRef::new("identity.lifecycle.changed.v1".to_owned()),
        trace_record_ref: IdentityTraceRecordRef::new("trace-1".to_owned()),
        created_at: timestamp(1),
    })
    .expect("accepted outbox");
    let view = identity_outbox_record_view(&access(IdentityVisibilityAccessState::Visible, "r-5"), &record);
    assert_eq!(view.outbox_record_ref, IdentityOutboxRecordRef::new("outbox-1".to_owned()));
    assert_eq!(view.outbox_state_kind, PublicOutboxStateKind::PendingPublish);
    assert_eq!(view.topic_key_ref, TopicKeyRef::new("identity.lifecycle.changed.v1".to_owned()));
    assert_eq!(view.visibility_result_ref, VisibilityResultRef::new("r-5".to_owned()));
    assert_eq!(view.created_at, timestamp(1));
}

#[test]
fn member_summary_preflight_checks_each_read_in_order() {
    let visible = || access(IdentityVisibilityAccessState::Visible, "r-1");
    let view_ref = || Some(MemberSummaryViewRef::new("view-1".to_owned()));
    let fresh = || Some(view("member-1", "scope-1", IdentityReadSurfaceKind::Found));
    let preflight = member_summary_preflight(&member("member-1"), Some(visible()), view_ref(), Some(visible()), fresh())
        .expect("preflight passes");
    assert_eq!(preflight.view_ref, MemberSummaryViewRef::new("view-1".to_owned()));
    assert_eq!(preflight.view.member_ref, member("member-1"));
    assert_eq!(preflight.access_summary, visible());

    let error = |result: Result<_, ApplicationError>| match result {
        Ok(_) => panic!("expected an error"),
        Err(e) => e,
    };
    let unresolved = error(member_summary_preflight(&member("member-1"), None, None, None, None));
    assert_eq!(unresolved.kind, ApplicationErrorKind::InvalidRequest);
    assert_eq!(unresolved.message, "member summary read visibility could not form a canonical subject");
    let no_view = error(member_summary_preflight(&member("member-1"), Some(visible()), None, None, None));
    assert_eq!(no_view.kind, ApplicationErrorKind::NotFound);
    assert_eq!(no_view.message, "member summary view not found");
    let no_view_access = error(member_summary_preflight(&member("member-1"), Some(visible()), view_ref(), None, None));
    assert_eq!(no_view_access.message, "member summary view read visibility could not form a canonical subject");
    let gone = error(member_summary_preflight(&member("member-1"), Some(visible()), view_ref(), Some(visible()), None));
    assert_eq!(gone.kind, ApplicationErrorKind::NotFound);
    assert_eq!(gone.message, "member summary view material not found");
    let other_owner = error(member_summary_preflight(
        &member("member-1"),
        Some(visible()),
        view_ref(),
        Some(visible()),
        Some(view("member-2", "scope-1", IdentityReadSurfaceKind::Found)),
    ));
    assert_eq!(other_owner.kind, ApplicationErrorKind::ConsistencyDefect);
    assert_eq!(other_owner.message, "member summary view does not belong to the requested member");
    let other_scope = error(member_summary_preflight(
        &member("member-1"),
        Some(visible()),
        view_ref(),
        Some(visible()),
        Some(view("member-1", "scope-2", IdentityReadSurfaceKind::Found)),
    ));
    assert_eq!(other_scope.message, "member summary view visibility scope does not match the stable lookup scope");
}
