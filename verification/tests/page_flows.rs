use quantalithos_identity::actor::{ActorKind, ActorRef, IdempotencyKey};
use quantalithos_identity::application::errors::{ApplicationError, ApplicationErrorKind};
use quantalithos_identity::application::pages::{
    anchor_read_start, anchor_read_step, lifecycle_read_start, lifecycle_read_step, AnchorReadAction, AnchorReadEvent,
    LifecycleReadAction, LifecycleReadEvent, audit_read_start, audit_read_step, career_page_start, career_page_step, outbox_page_start, outbox_page_step,
    reference_read_start, reference_read_step, report_page_start, report_page_step, role_read_start, role_read_step,
    trace_page_flow_start, trace_page_step, AuditReadAction, AuditReadEvent, CareerPageAction, CareerPageEvent,
    OutboxPageAction, OutboxPageEvent, ReferenceReadAction, ReferenceReadEvent, ReportPageAction, ReportPageEvent,
    RoleReadAction, RoleReadEvent, TracePageAction, TracePageEvent,
};
use quantalithos_identity::application::query::{assert_query_context, IdentityQueryMaterialDegradationSummary, OutboxListFilter};
use quantalithos_identity::application::support::{
    IdentityIdempotencyKey, IdentityOperationContext, IdentityOperationContextRef, IdentityOperationName,
    IdentityRequestDigest, IdentityRequestMetadataRef, IdentityVersion, IdentityVersionedRef, Page,
};
use quantalithos_identity::contracts::metadata::{IdentityDegradedKind, IdentityQueryDisposition, IdentityQueryMetadata};
use quantalithos_identity::contracts::protocol::{IdentityDigestAlgorithmMarkerRef, IdentityProtocolSchemaVersionRef, IdentityQueryName};
use quantalithos_identity::contracts::queries::{IdentityPublicPageRequest, IdentityQueryRequest};
use quantalithos_identity::contracts::refs::{
    AuditScopeRef, ConsumerRef, ExternalReferenceKind, ExternalReferenceRef, ExternalReferenceSafeSummaryRef,
    ExternalSourceRef, ExternalSourceVersionRef, GlobalMemberId, GlobalMemberRef, IdentityApiRequestMarkerRef,
    IdentityAuditSubjectRef, IdentityCanonicalRequestMarkerRef, IdentityChangeKind, IdentityChangeKindRef,
    IdentityDegradedMarkerRef, IdentityMaintenanceTargetRef, IdentityOutboxPayloadMarkerRef, IdentityOutboxRecordRef,
    IdentityOutboxSubjectRef, IdentityReadSubjectRef, IdentityRedactionMarkerRef, IdentityReferenceOwnerKind, IdentityReferenceOwnerRef,
    IdentityRequestDigestValue, IdentitySourceOwner, IdentitySourceRef, IdentityTimestamp, IdentityTraceRecordRef,
    IdentityTraceSubjectRef, IdentityTruthCursor, IdentityVisibilityDecisionRef, MaintenanceScopeRef,
    ReconciliationFindingRef, ReconciliationReportRef, ReferenceResolutionStateId, ReferenceResolutionStateRef,
    TopicKeyRef, VisibilityContextRef, VisibilityResultRef, VisibilityScopeRef,
};
use quantalithos_identity::contracts::views::{
    IdentityReadMaterialKind, IdentityReadMaterialMarker, IdentityVisibilityAccessState, IdentityVisibilityAccessSummary,
};
use quantalithos_identity::domain::member_identity::GlobalMember;
use quantalithos_identity::domain::outbox::{IdentityOutboxRecord, IdentityOutboxRecordCreateArgs};
use quantalithos_identity::domain::reconciliation::ReconciliationReport;
use quantalithos_identity::domain::reference_state::ReferenceResolutionState;
use quantalithos_identity::domain::trace::IdentityTraceRecord;

fn timestamp(value: i64) -> IdentityTimestamp {
    IdentityTimestamp::from_clock(value).expect("valid timestamp")
}

fn source(owner: IdentitySourceOwner, token: &str) -> IdentitySourceRef {
    IdentitySourceRef::new(owner, ExternalSourceRef::new(token.to_owned()).expect("valid external source ref"))
        .expect("valid source ref")
}

fn member(id: &str) -> GlobalMemberRef {
    GlobalMemberRef::from_id(GlobalMemberId::new(id.to_owned()).expect("valid member id"))
}

fn decision_ref() -> IdentityVisibilityDecisionRef {
    IdentityVisibilityDecisionRef::new("decision-1".to_owned())
}

fn name(value: &str) -> IdentityQueryName {
    IdentityQueryName::new(value.to_owned())
}

fn access(state: IdentityVisibilityAccessState, result: &str) -> IdentityVisibilityAccessSummary {
    IdentityVisibilityAccessSummary {
        read_subject_ref: IdentityReadSubjectRef::new("subject-1".to_owned()),
        consumer_ref: ConsumerRef::new("consumer-1".to_owned()),
        actor_ref: None,
        visibility_context_ref: VisibilityContextRef::new("context-1".to_owned()),
        scope_ref: VisibilityScopeRef::new("scope-1".to_owned()),
        access_state: state,
        redaction_profile_ref: None,
        redaction_marker_ref: None,
        visibility_result_ref: VisibilityResultRef::new(result.to_owned()),
        degraded_marker_ref: None,
        degraded_kind: None,
    }
}

fn visible(result: &str) -> IdentityVisibilityAccessSummary {
    access(IdentityVisibilityAccessState::Visible, result)
}

fn hidden(result: &str) -> IdentityVisibilityAccessSummary {
    access(IdentityVisibilityAccessState::NotVisible, result)
}

fn hidden_marked(result: &str) -> IdentityVisibilityAccessSummary {
    let mut a = hidden(result);
    a.redaction_marker_ref = Some(IdentityRedactionMarkerRef::new("redaction-1".to_owned()));
    a
}

fn degradation() -> IdentityQueryMaterialDegradationSummary {
    IdentityQueryMaterialDegradationSummary {
        read_subject_ref: IdentityReadSubjectRef::new("subject-9".to_owned()),
        visibility_context_ref: VisibilityContextRef::new("context-9".to_owned()),
        visibility_scope_ref: VisibilityScopeRef::new("scope-9".to_owned()),
        visibility_result_ref: VisibilityResultRef::new("result-9".to_owned()),
        degraded_marker_ref: IdentityDegradedMarkerRef::new("degraded-9".to_owned()),
        degraded_kind: IdentityDegradedKind::MaterialUnsafe,
    }
}

fn listed<T>(refs: Vec<T>) -> Page<IdentityVersionedRef<T>> {
    Page {
        items: refs.into_iter().map(|value_ref| IdentityVersionedRef { value_ref, version: IdentityVersion::new(1) }).collect(),
        next_cursor: None,
    }
}

fn page_request() -> Option<IdentityPublicPageRequest> {
    Some(IdentityPublicPageRequest { cursor: None, limit: 10 })
}

fn error_of<T>(result: Result<T, ApplicationError>) -> ApplicationError {
    match result {
        Ok(_) => panic!("expected an error"),
        Err(error) => error,
    }
}

fn outbox_record(record: &str) -> IdentityOutboxRecord {
    IdentityOutboxRecord::from_accepted_change(IdentityOutboxRecordCreateArgs {
        outbox_record_ref: IdentityOutboxRecordRef::new(record.to_owned()),
        member_ref: member("member-1"),
        subject_ref: IdentityOutboxSubjectRef::new("subject-1".to_owned()),
        change_kind_ref: IdentityChangeKindRef::new(IdentityChangeKind::DerivedMarkerChanged, None),
        payload_marker_ref: IdentityOutboxPayloadMarkerRef::new("payload-1".to_owned()),
        topic_key_ref: TopicKeyRef::new("topic-1".to_owned()),
        trace_record_ref: IdentityTraceRecordRef::new("trace-1".to_owned()),
        created_at: timestamp(1),
    })
    .expect("accepted outbox")
}

fn trace(record: &str, subject: &str) -> IdentityTraceRecord {
    IdentityTraceRecord::from_accepted_change(
        IdentityTraceRecordRef::new(record.to_owned()),
        member("member-1"),
        IdentityTraceSubjectRef::new(subject.to_owned()),
        IdentityAuditSubjectRef::new("audit-subject-1".to_owned()),
        IdentityChangeKindRef::new(IdentityChangeKind::LifecycleChanged, None),
        IdentityTruthCursor::new("cursor-1".to_owned()),
        None,
        Some(source(IdentitySourceOwner::Identity, "source-1")),
        None,
        Some(ActorRef::new("actor-1", ActorKind::Human)),
        IdentityReadMaterialMarker::new(IdentityReadMaterialKind::TraceRefsOnly, None),
        timestamp(1),
    )
    .expect("body-free trace")
}

fn query_request(query: &str) -> IdentityQueryRequest<()> {
    IdentityQueryRequest {
        actor_ref: ActorRef::new("actor-1", ActorKind::Human),
        query_name: name(query),
        metadata: IdentityQueryMetadata {
            request_marker_ref: IdentityApiRequestMarkerRef::new("request-1".to_owned()),
            schema_version_ref: IdentityProtocolSchemaVersionRef::new("identity.query.v1".to_owned()),
            visibility_context_ref: VisibilityContextRef::new("context-1".to_owned()),
            trace_context_ref: None,
        },
        page: None,
        body: (),
    }
}

fn digest() -> IdentityRequestDigest {
    IdentityRequestDigest::from_canonical_marker(
        IdentityCanonicalRequestMarkerRef::new("canonical-1".to_owned()),
        IdentityRequestDigestValue::new("digest-1".to_owned()),
        IdentityProtocolSchemaVersionRef::new("identity.query.v1".to_owned()),
        IdentityDigestAlgorithmMarkerRef::new("sha256-v1".to_owned()),
    )
}

fn query_context(operation: &str) -> IdentityOperationContext {
    IdentityOperationContext::from_query(
        IdentityOperationContextRef::new("context-1".to_owned()),
        IdentityOperationName::new(operation.to_owned()),
        ActorRef::new("actor-1", ActorKind::Human),
        IdentityRequestMetadataRef::new("metadata-1".to_owned()),
        digest(),
        None,
        timestamp(1),
    )
}

#[test]
fn query_context_must_match_the_request() {
    let request = query_request("ReadMemberSummary");
    assert!(assert_query_context(&request, &query_context("ReadMemberSummary")).is_ok());

    let mismatch = error_of(assert_query_context(&request, &query_context("ListCareerRecords")));
    assert_eq!(mismatch.kind, ApplicationErrorKind::InvalidRequest);
    assert_eq!(mismatch.message, "operation name ListCareerRecords does not match query ReadMemberSummary");

    let command = IdentityOperationContext::from_command(
        IdentityOperationContextRef::new("context-2".to_owned()),
        IdentityOperationName::new("ReadMemberSummary".to_owned()),
        ActorRef::new("actor-1", ActorKind::Human),
        IdentityRequestMetadataRef::new("metadata-2".to_owned()),
        None,
        digest(),
        None,
        timestamp(1),
    );
    let channel = error_of(assert_query_context(&request, &command));
    assert_eq!(channel.message, "query context must use the query channel");

    let mut keyed = query_context("ReadMemberSummary");
    keyed.idempotency_key = Some(IdentityIdempotencyKey::new(IdempotencyKey::new("key-1".to_owned())));
    let key = error_of(assert_query_context(&request, &keyed));
    assert_eq!(key.message, "query context must not carry an idempotency key");
}

#[test]
fn outbox_page_skips_hidden_items_and_counts_what_it_returns() {
    let first = IdentityOutboxRecordRef::new("outbox-1".to_owned());
    let second = IdentityOutboxRecordRef::new("outbox-2".to_owned());
    let mut state = outbox_page_start(name("ListPendingIdentityOutbox"), OutboxListFilter::Pending(None));
    let step = |state: &mut _, event| outbox_page_step(state, event, decision_ref(), timestamp(2)).expect("step");

    match step(&mut state, OutboxPageEvent::Selector(Some(visible("r-0")), listed(vec![first.clone(), second.clone()]))) {
        OutboxPageAction::ResolveRefAccess(record) => assert_eq!(record, first),
        _ => panic!("expected the first ref's access"),
    }
    match step(&mut state, OutboxPageEvent::RefAccess(Some(hidden_marked("r-1")))) {
        OutboxPageAction::ResolveRefAccess(record) => assert_eq!(record, second),
        _ => panic!("a hidden ref is skipped"),
    }
    match step(&mut state, OutboxPageEvent::RefAccess(Some(visible("r-2")))) {
        OutboxPageAction::LoadRecord(record) => assert_eq!(record, second),
        _ => panic!("an admitted ref is loaded"),
    }
    match step(&mut state, OutboxPageEvent::Record(Some(outbox_record("outbox-2")))) {
        OutboxPageAction::ResolveItemAccess(record, subject, topic) => {
            assert_eq!(record, second);
            assert_eq!(subject, IdentityOutboxSubjectRef::new("subject-1".to_owned()));
            assert_eq!(topic, TopicKeyRef::new("topic-1".to_owned()));
        }
        _ => panic!("a loaded record is gated again"),
    }
    match step(&mut state, OutboxPageEvent::ItemAccess(Some(visible("r-3")))) {
        OutboxPageAction::Respond(response) => {
            assert_eq!(response.items.len(), 1);
            assert_eq!(response.page_info.item_count, 1);
            assert!(!response.page_info.has_more);
            assert_eq!(response.items[0].outbox_record_ref, second);
            assert_eq!(response.surface.disposition, IdentityQueryDisposition::Redacted);
        }
        _ => panic!("the page is answered after the last ref"),
    }
    let late = error_of(outbox_page_step(&mut state, OutboxPageEvent::RefAccess(None), decision_ref(), timestamp(2)));
    assert_eq!(late.kind, ApplicationErrorKind::ConsistencyDefect);
    assert_eq!(late.message, "page event does not answer the pending read");
}

#[test]
fn outbox_page_maps_a_record_that_is_gone() {
    let first = IdentityOutboxRecordRef::new("outbox-1".to_owned());
    let mut state = outbox_page_start(name("ListPendingIdentityOutbox"), OutboxListFilter::Pending(None));
    let step = |state: &mut _, event| outbox_page_step(state, event, decision_ref(), timestamp(2)).expect("step");
    step(&mut state, OutboxPageEvent::Selector(Some(visible("r-0")), listed(vec![first.clone()])));
    step(&mut state, OutboxPageEvent::RefAccess(Some(visible("r-1"))));
    match step(&mut state, OutboxPageEvent::Record(None)) {
        OutboxPageAction::MapMissing(access, record) => {
            assert_eq!(access.visibility_result_ref, VisibilityResultRef::new("r-1".to_owned()));
            assert_eq!(record, first);
        }
        _ => panic!("a missing record is mapped"),
    }
    match step(&mut state, OutboxPageEvent::Degraded(degradation())) {
        OutboxPageAction::Respond(response) => {
            assert!(response.items.is_empty());
            assert_eq!(response.page_info.item_count, 0);
            assert_eq!(response.surface.disposition, IdentityQueryDisposition::Degraded);
        }
        _ => panic!("the degraded page is answered"),
    }
}

#[test]
fn outbox_page_answers_a_hidden_selector_without_items() {
    let mut state = outbox_page_start(name("ListPendingIdentityOutbox"), OutboxListFilter::Pending(None));
    let listed_refs = listed(vec![IdentityOutboxRecordRef::new("outbox-1".to_owned())]);
    match outbox_page_step(&mut state, OutboxPageEvent::Selector(Some(hidden("r-0")), listed_refs), decision_ref(), timestamp(2)) {
        Ok(OutboxPageAction::Respond(response)) => {
            assert!(response.items.is_empty());
            assert_eq!(response.surface.disposition, IdentityQueryDisposition::NotVisible);
        }
        _ => panic!("a hidden selector answers at once"),
    }
    let mut unresolved = outbox_page_start(name("ListPendingIdentityOutbox"), OutboxListFilter::Pending(None));
    let error = error_of(outbox_page_step(&mut unresolved, OutboxPageEvent::Selector(None, listed(Vec::new())), decision_ref(), timestamp(2)));
    assert_eq!(error.message, "pending outbox visibility could not form a canonical subject");
}

#[test]
fn trace_page_gates_its_selector_before_listing() {
    let mut hidden_flow = trace_page_flow_start(name("ReadIdentityTrace"), member("member-1"), None);
    match trace_page_step(&mut hidden_flow, TracePageEvent::Selector(Some(hidden("r-0"))), decision_ref(), timestamp(2)) {
        Ok(TracePageAction::Respond(response)) => {
            assert!(response.items.is_empty());
            assert_eq!(response.surface.disposition, IdentityQueryDisposition::NotVisible);
        }
        _ => panic!("a hidden selector answers before any listing"),
    }

    let record = IdentityTraceRecordRef::new("trace-1".to_owned());
    let mut flow = trace_page_flow_start(name("ReadIdentityTrace"), member("member-1"), None);
    let step = |flow: &mut _, event| trace_page_step(flow, event, decision_ref(), timestamp(2)).expect("step");
    assert!(matches!(step(&mut flow, TracePageEvent::Selector(Some(visible("r-0")))), TracePageAction::ListRecords));
    match step(&mut flow, TracePageEvent::Listed(listed(vec![record.clone()]))) {
        TracePageAction::LoadRecord(loaded) => assert_eq!(loaded, record),
        _ => panic!("the listed record is loaded"),
    }
    match step(&mut flow, TracePageEvent::Record(Some(trace("trace-1", "s-1")))) {
        TracePageAction::ResolveItemAccess(subject) => assert_eq!(subject, IdentityTraceSubjectRef::new("s-1".to_owned())),
        _ => panic!("the record's subject is gated"),
    }
    match step(&mut flow, TracePageEvent::ItemAccess(Some(visible("r-1")))) {
        TracePageAction::Respond(response) => {
            assert_eq!(response.items.len(), 1);
            assert_eq!(response.page_info.item_count, 1);
        }
        _ => panic!("the page is answered"),
    }
}

#[test]
fn trace_page_maps_a_record_of_another_subject() {
    let record = IdentityTraceRecordRef::new("trace-1".to_owned());
    let subject = IdentityTraceSubjectRef::new("s-1".to_owned());
    let mut flow = trace_page_flow_start(name("ReadIdentityTrace"), member("member-1"), Some(subject.clone()));
    let step = |flow: &mut _, event| trace_page_step(flow, event, decision_ref(), timestamp(2)).expect("step");
    step(&mut flow, TracePageEvent::Selector(Some(visible("r-0"))));
    step(&mut flow, TracePageEvent::Listed(listed(vec![record.clone()])));
    match step(&mut flow, TracePageEvent::Record(Some(trace("trace-1", "s-2")))) {
        TracePageAction::MapSubjectMismatch(access, mapped, read) => {
            assert_eq!(access.visibility_result_ref, VisibilityResultRef::new("r-0".to_owned()));
            assert_eq!(mapped, record);
            assert_eq!(read, subject);
        }
        _ => panic!("a record of another subject is mapped"),
    }
}

#[test]
fn career_page_checks_the_member_before_listing() {
    let mut flow = career_page_start(name("ListCareerRecords"), member("member-1"), &page_request()).expect("paged");
    let step = |flow: &mut _, event| career_page_step(flow, event, decision_ref(), timestamp(2)).expect("step");
    match step(&mut flow, CareerPageEvent::Access(Some(visible("r-0")))) {
        CareerPageAction::CheckMember(checked) => assert_eq!(checked, member("member-1")),
        _ => panic!("the member is checked"),
    }
    match step(&mut flow, CareerPageEvent::Member(false)) {
        CareerPageAction::Respond(response) => {
            assert!(response.items.is_empty());
            assert_eq!(response.surface.disposition, IdentityQueryDisposition::Missing);
        }
        _ => panic!("a missing member reads missing"),
    }
    let unpaged = error_of(career_page_start(name("ListCareerRecords"), member("member-1"), &None));
    assert_eq!(unpaged.kind, ApplicationErrorKind::InvalidRequest);
}

fn report(scope: &str) -> ReconciliationReport {
    ReconciliationReport::generated(
        ReconciliationReportRef::new("report-1".to_owned()),
        MaintenanceScopeRef::new(source(IdentitySourceOwner::Identity, scope)),
        vec![IdentityMaintenanceTargetRef::new("target-1".to_owned())],
        vec![ReconciliationFindingRef::new("finding-1".to_owned())],
        vec![],
        Some(ActorRef::new("actor-1", ActorKind::Human)),
        timestamp(1),
    )
    .expect("report")
}

#[test]
fn report_read_serves_one_report_of_its_scope() {
    let report_ref = ReconciliationReportRef::new("report-1".to_owned());
    let scope = MaintenanceScopeRef::new(source(IdentitySourceOwner::Identity, "scope-1"));
    let mut flow = report_page_start(name("ReadReconciliationReport"), scope.clone(), Some(report_ref.clone()), None);
    let step = |flow: &mut _, event| report_page_step(flow, event, decision_ref(), timestamp(2)).expect("step");
    match step(&mut flow, ReportPageEvent::Scope(Some(visible("r-0")))) {
        ReportPageAction::LoadReport(loaded) => assert_eq!(loaded, report_ref),
        _ => panic!("the named report is loaded"),
    }
    match step(&mut flow, ReportPageEvent::Report(Some(report("scope-1")))) {
        ReportPageAction::ResolveReportAccess(gated) => assert_eq!(gated, report_ref),
        _ => panic!("the report is gated"),
    }
    match step(&mut flow, ReportPageEvent::ReportAccess(Some(visible("r-1")))) {
        ReportPageAction::Respond(response) => {
            assert_eq!(response.items.len(), 1);
            assert_eq!(response.page_info.item_count, 1);
            assert_eq!(response.surface.disposition, IdentityQueryDisposition::Visible);
        }
        _ => panic!("the report is served"),
    }

    let mut other = report_page_start(name("ReadReconciliationReport"), scope.clone(), Some(report_ref.clone()), None);
    step(&mut other, ReportPageEvent::Scope(Some(visible("r-0"))));
    match step(&mut other, ReportPageEvent::Report(Some(report("scope-2")))) {
        ReportPageAction::MapScopeMismatch(_, mapped, requested, _) => {
            assert_eq!(mapped, report_ref);
            assert_eq!(requested, scope);
        }
        _ => panic!("a report of another scope is mapped"),
    }
}

fn reference_ref() -> ExternalReferenceRef {
    ExternalReferenceRef::new(ExternalReferenceKind::MethodSource, source(IdentitySourceOwner::MethodLibrary, "method-source-1"))
}

fn reference_state() -> ReferenceResolutionState {
    ReferenceResolutionState::resolved(
        ReferenceResolutionStateRef::from_id(ReferenceResolutionStateId::new("reference-state-1".to_owned()).expect("valid id")),
        reference_ref(),
        IdentityReferenceOwnerRef::new(IdentityReferenceOwnerKind::Maintenance, source(IdentitySourceOwner::Identity, "owner-1")),
        ExternalSourceVersionRef::new(source(IdentitySourceOwner::MethodLibrary, "method-version-1")),
        ExternalReferenceSafeSummaryRef::new(reference_ref(), source(IdentitySourceOwner::MethodLibrary, "summary-1")),
        timestamp(1),
    )
}

#[test]
fn reference_read_maps_unavailable_sidecars_and_fails_on_other_errors() {
    let mut flow = reference_read_start(name("GetReferenceResolutionState"), reference_ref(), None);
    let step = |flow: &mut _, event| reference_read_step(flow, event, decision_ref(), timestamp(2)).expect("step");
    assert!(matches!(step(&mut flow, ReferenceReadEvent::Access(Some(visible("r-0")))), ReferenceReadAction::LoadState(_)));
    assert!(matches!(step(&mut flow, ReferenceReadEvent::State(Some(reference_state()))), ReferenceReadAction::LoadSidecars(_)));
    match step(&mut flow, ReferenceReadEvent::Sidecars(Err(ApplicationError::dependency_unavailable("sidecars offline")))) {
        ReferenceReadAction::MapSidecarDegraded(_, reference, state) => {
            assert_eq!(reference, reference_ref());
            assert!(state.is_some());
        }
        _ => panic!("unavailable sidecars are mapped"),
    }
    match step(&mut flow, ReferenceReadEvent::Degraded(degradation())) {
        ReferenceReadAction::Respond(response) => {
            assert!(response.body.is_none());
            assert_eq!(response.surface.disposition, IdentityQueryDisposition::Degraded);
        }
        _ => panic!("the degraded read is answered"),
    }

    let mut failing = reference_read_start(name("GetReferenceResolutionState"), reference_ref(), None);
    step(&mut failing, ReferenceReadEvent::Access(Some(visible("r-0"))));
    step(&mut failing, ReferenceReadEvent::State(Some(reference_state())));
    let error = error_of(reference_read_step(
        &mut failing,
        ReferenceReadEvent::Sidecars(Err(ApplicationError::not_found("sidecars gone"))),
        decision_ref(),
        timestamp(2),
    ));
    assert_eq!(error.kind, ApplicationErrorKind::NotFound);
}

#[test]
fn audit_read_needs_a_resolved_access() {
    let scope = AuditScopeRef::new("audit-scope-1".to_owned());
    let subject = IdentityAuditSubjectRef::new("audit-subject-1".to_owned());
    let mut flow = audit_read_start(name("ReadAuditTrail"), member("member-1"), scope.clone(), None, &page_request()).expect("paged");
    match audit_read_step(&mut flow, AuditReadEvent::Subject(subject.clone()), decision_ref(), timestamp(2)) {
        Ok(AuditReadAction::ResolveAccess(resolved, read_scope)) => {
            assert_eq!(resolved, subject);
            assert_eq!(read_scope, scope);
        }
        _ => panic!("the subject's access is resolved"),
    }
    let error = error_of(audit_read_step(&mut flow, AuditReadEvent::Access(None), decision_ref(), timestamp(2)));
    assert_eq!(error.message, "audit read visibility could not form a canonical subject");
}

#[test]
fn role_read_answers_a_hidden_member_without_body() {
    let mut flow = role_read_start(name("GetRoleCapabilitySummary"), member("member-1"), None);
    match role_read_step(&mut flow, RoleReadEvent::Access(Some(hidden("r-0"))), decision_ref(), timestamp(2)) {
        Ok(RoleReadAction::Respond(response)) => {
            assert!(response.body.is_none());
            assert_eq!(response.surface.disposition, IdentityQueryDisposition::NotVisible);
        }
        _ => panic!("a hidden member answers at once"),
    }
    let mut shown = role_read_start(name("GetRoleCapabilitySummary"), member("member-1"), None);
    match role_read_step(&mut shown, RoleReadEvent::Access(Some(visible("r-0"))), decision_ref(), timestamp(2)) {
        Ok(RoleReadAction::CheckMember(checked)) => assert_eq!(checked, member("member-1")),
        _ => panic!("the member is checked"),
    }
    match role_read_step(&mut shown, RoleReadEvent::Member(true), decision_ref(), timestamp(2)) {
        Ok(RoleReadAction::FindCurrentSummary(owner)) => assert_eq!(owner, member("member-1")),
        _ => panic!("the current summary is found"),
    }
}

#[test]
fn anchor_read_serves_the_member_without_a_view() {
    let mut flow = anchor_read_start(name("GetGlobalMemberAnchor"), member("member-1"));
    let step = |flow: &mut _, event| anchor_read_step(flow, event, decision_ref(), timestamp(2)).expect("step");
    match step(&mut flow, AnchorReadEvent::Access(Some(visible("r-0")))) {
        AnchorReadAction::LoadMember(loaded) => assert_eq!(loaded, member("member-1")),
        _ => panic!("the member is loaded"),
    }
    let established = GlobalMember::establish(
        member("member-1"),
        source(IdentitySourceOwner::Account, "account-1"),
        ActorRef::new("actor-1", ActorKind::Human),
        timestamp(1),
    )
    .expect("member established");
    match step(&mut flow, AnchorReadEvent::Member(Some(established))) {
        AnchorReadAction::FindViewRef(owner, scope) => {
            assert_eq!(owner, member("member-1"));
            assert_eq!(scope, VisibilityScopeRef::new("scope-1".to_owned()));
        }
        _ => panic!("the summary view is looked up"),
    }
    match step(&mut flow, AnchorReadEvent::ViewRef(None)) {
        AnchorReadAction::Respond(response) => {
            let body = response.body.expect("anchor body");
            assert_eq!(body.member_ref, member("member-1"));
            assert!(body.member_summary_view_ref.is_none());
            assert_eq!(response.surface.disposition, IdentityQueryDisposition::Visible);
        }
        _ => panic!("the anchor is served"),
    }

    let mut gone = anchor_read_start(name("GetGlobalMemberAnchor"), member("member-1"));
    step(&mut gone, AnchorReadEvent::Access(Some(visible("r-0"))));
    match step(&mut gone, AnchorReadEvent::Member(None)) {
        AnchorReadAction::Respond(response) => {
            assert!(response.body.is_none());
            assert_eq!(response.surface.disposition, IdentityQueryDisposition::Missing);
        }
        _ => panic!("a missing member reads missing"),
    }
}

#[test]
fn lifecycle_read_needs_the_member_and_its_lifecycle() {
    let mut flow = lifecycle_read_start(name("GetGlobalLifecycleSummary"), member("member-1"));
    let step = |flow: &mut _, event| lifecycle_read_step(flow, event, decision_ref(), timestamp(2)).expect("step");
    assert!(matches!(step(&mut flow, LifecycleReadEvent::Access(Some(visible("r-0")))), LifecycleReadAction::CheckMember(_)));
    match step(&mut flow, LifecycleReadEvent::Member(true)) {
        LifecycleReadAction::LoadLifecycle(owner) => assert_eq!(owner, member("member-1")),
        _ => panic!("the lifecycle is loaded"),
    }
    match step(&mut flow, LifecycleReadEvent::Lifecycle(None)) {
        LifecycleReadAction::Respond(response) => {
            assert!(response.body.is_none());
            assert_eq!(response.surface.disposition, IdentityQueryDisposition::Missing);
        }
        _ => panic!("a member without lifecycle reads missing"),
    }
    let mut hidden_flow = lifecycle_read_start(name("GetGlobalLifecycleSummary"), member("member-1"));
    match lifecycle_read_step(&mut hidden_flow, LifecycleReadEvent::Access(None), decision_ref(), timestamp(2)) {
        Err(error) => assert_eq!(error.message, "member-scoped query visibility could not form a canonical subject"),
        Ok(_) => panic!("an unresolved access fails"),
    }
}
