//! Verified read flows of the queries that need several port reads: each
//! flow is a state machine that takes what a port returned as an event and
//! answers with the next read to make, a degradation to map, or the response.
//! The service runs the reads; every decision between them is made here.
use vstd::prelude::*;

use crate::application::errors::{ApplicationError, ApplicationErrorKind};
use crate::application::query::{
    absent_surface, absent_surface_from_access, access_admitted, access_decision_defect, access_surface,
    admitted_disposition, anchor_view_of, audit_entry_view_of, audit_entry_views, audit_trail_answers,
    audit_trail_matches, bodiless_response, career_record_item_step, career_view_of, degraded_surface_from_material,
    empty_page_response, gate_disposition, gate_read_surface, identity_outbox_record_view, lifecycle_summary_view,
    lifecycle_view_of, list_page_response, list_success_surface, material_degraded_response, material_degraded_surface,
    member_anchor_view, member_summary_slice_step, member_summary_slice_step_of, memory_reference_item_step,
    memory_view_of, operations_item_gate, operations_page_start, operations_page_surface, operations_surface,
    outbox_filter_met, outbox_selector_matches, outbox_view_of, reconciliation_report_in_scope,
    reconciliation_report_view, reference_resolution_state_view, reference_state_precheck, reference_state_surface,
    reference_state_surface_of, reference_view_of, report_in_scope, report_view_of, require_page,
    role_capability_summary_view, role_capability_surface, role_view_fields_of, same_external_reference,
    same_reference_owner, single_item_page_response, surface_for_list_success, surface_for_truth_query,
    trace_item_check, trace_item_step, trace_page_start, trace_page_surface, trace_view_of,
    visible_surface_for_operations, CareerRecordItemStep, ExternalReferenceTypedSidecarRefs,
    IdentityQueryMaterialDegradationSummary, MemberSummarySliceStep, MemoryReferenceItemStep, OperationsItemGate,
    OperationsPageState, OutboxListFilter, ReferenceStatePrecheck, TraceItemCheck, TraceItemOutcome, TracePageState,
    TruthSurfaceStep,
};
use crate::application::support::{IdentityRepositoryPage, IdentityVersionedRef, Page};
use crate::contracts::metadata::IdentityQuerySurface;
use crate::contracts::protocol::IdentityQueryName;
use crate::contracts::queries::{IdentityPageResponse, IdentityPublicPageRequest, IdentityQueryResponse};
use crate::contracts::refs::{
    AuditCursorRef, AuditScopeRef, AuditTrailRef, CareerRecordRef, ExternalReferenceRef, GlobalMemberRef,
    IdentityAuditSubjectRef, IdentityOutboxRecordRef, IdentityOutboxSubjectRef, IdentityReferenceOwnerRef,
    IdentityTimestamp, IdentityTraceRecordRef, IdentityTraceSubjectRef, IdentityVisibilityDecisionRef,
    MaintenanceScopeRef, MemberSummaryViewRef, MemoryReferenceRef, ReconciliationReportRef,
    ReferenceResolutionStateRef, RoleCapabilitySourceSnapshotRef, RoleCapabilitySummaryRef, TopicKeyRef,
    VisibilityScopeRef,
};
use crate::contracts::views::{
    read_material_body_free, AuditTrailEntryView, CareerRecordView, GlobalLifecycleSummaryView, GlobalMemberAnchorView,
    IdentityOutboxRecordView, IdentityReadMaterialKind, IdentityReadMaterialMarker, IdentityTraceRecordView,
    IdentityVisibilityAccessSummary, MemberSummaryView, MemoryReferenceView, ReconciliationReportView,
    ReferenceResolutionStateView, RoleCapabilitySummaryView,
};
use crate::domain::audit::{AuditTrail, AuditTrailEntry};
use crate::domain::career::CareerRecord;
use crate::domain::lifecycle::GlobalLifecycleState;
use crate::domain::member_identity::GlobalMember;
use crate::domain::memory_reference::MemoryReference;
use crate::domain::outbox::IdentityOutboxRecord;
use crate::domain::reconciliation::ReconciliationReport;
use crate::domain::reference_state::{ReferenceResolutionState, ReferenceResolutionStateKind};
use crate::domain::role_capability::{RoleCapabilitySourceSnapshot, RoleCapabilitySummary};
use crate::domain::trace::IdentityTraceRecord;

verus! {

/// The error of an event that does not answer the read the flow asked for.
pub open spec fn out_of_order(e: ApplicationError) -> bool {
    e.kind == ApplicationErrorKind::ConsistencyDefect && e.message@ == "page event does not answer the pending read"@
}

/// Where an outbox page stands: which port result it waits for.
#[derive(Clone, Copy, Debug, Eq, PartialEq, Structural)]
pub enum OutboxPagePhase {
    /// Waits for the selector's access and the listed page.
    AwaitSelector,
    /// Waits for the access of the current listed ref.
    AwaitRefAccess,
    /// Waits for the current listed record.
    AwaitRecord,
    /// Waits for the access of the loaded record.
    AwaitItemAccess,
    /// Waits for the degraded material of a defective item.
    AwaitDegradation,
    /// Answered.
    Done,
}

/// Running state of an outbox listing.
pub struct OutboxPageState {
    /// Filter of the listing.
    pub filter: OutboxListFilter,
    /// Query answered.
    pub query_name: IdentityQueryName,
    /// Current phase.
    pub phase: OutboxPagePhase,
    /// Listed page of record refs.
    pub listed: Page<IdentityVersionedRef<IdentityOutboxRecordRef>>,
    /// Access of the selector.
    pub selector_access: Option<IdentityVisibilityAccessSummary>,
    /// Index of the current listed ref.
    pub index: usize,
    /// Access of the current listed ref.
    pub ref_access: Option<IdentityVisibilityAccessSummary>,
    /// Current loaded record.
    pub loaded: Option<IdentityOutboxRecord>,
    /// Hidden and redacting item accesses seen so far.
    pub gate: OperationsPageState,
    /// Views that joined the page.
    pub items: Vec<IdentityOutboxRecordView>,
    /// The access and record behind each joined view.
    pub admitted: Ghost<Seq<(IdentityVisibilityAccessSummary, IdentityOutboxRecord)>>,
}

/// Port result an outbox page waits for.
pub enum OutboxPageEvent {
    /// The selector's access (absent when it could not be resolved) and the listed page.
    Selector(Option<IdentityVisibilityAccessSummary>, Page<IdentityVersionedRef<IdentityOutboxRecordRef>>),
    /// The access of the current listed ref.
    RefAccess(Option<IdentityVisibilityAccessSummary>),
    /// The current listed record, absent when it is gone.
    Record(Option<IdentityOutboxRecord>),
    /// The access of the loaded record.
    ItemAccess(Option<IdentityVisibilityAccessSummary>),
    /// Degraded material the mapper gave for the defect named.
    Degraded(IdentityQueryMaterialDegradationSummary),
}

/// Next thing an outbox page asks of the service.
pub enum OutboxPageAction {
    /// Resolve the access of this listed ref.
    ResolveRefAccess(IdentityOutboxRecordRef),
    /// Load this listed record.
    LoadRecord(IdentityOutboxRecordRef),
    /// Resolve the access of the loaded record by its ref, subject, and topic.
    ResolveItemAccess(IdentityOutboxRecordRef, IdentityOutboxSubjectRef, TopicKeyRef),
    /// Map a listed record that is gone, under this access.
    MapMissing(IdentityVisibilityAccessSummary, IdentityOutboxRecordRef),
    /// Map a listed record that fails the listing's filter, under this access.
    MapSelectorMismatch(IdentityVisibilityAccessSummary, IdentityOutboxRecordRef),
    /// Answer with this page.
    Respond(IdentityPageResponse<IdentityOutboxRecordView>),
}

/// The page law of an outbox listing: every joined view is the view of a
/// record that meets the listing's filter, read under an admitting access.
pub open spec fn outbox_items_lawful(
    filter: OutboxListFilter,
    items: Seq<IdentityOutboxRecordView>,
    admitted: Seq<(IdentityVisibilityAccessSummary, IdentityOutboxRecord)>,
) -> bool {
    &&& items.len() == admitted.len()
    &&& forall|i: int| 0 <= i < items.len() ==> {
        &&& #[trigger] items[i] == outbox_view_of(admitted[i].0, admitted[i].1)
        &&& outbox_filter_met(filter, admitted[i].1)
        &&& access_admitted(admitted[i].0)
    }
}

/// Well-formedness of an outbox page between steps.
pub open spec fn outbox_page_wf(s: OutboxPageState) -> bool {
    &&& s.phase != OutboxPagePhase::Done ==> outbox_items_lawful(s.filter, s.items@, s.admitted@)
    &&& s.phase == OutboxPagePhase::AwaitSelector ==> s.items@.len() == 0 && s.admitted@.len() == 0 && s.gate.denied_count == 0
    &&& s.gate.denied_count <= s.index
    &&& (s.phase != OutboxPagePhase::AwaitSelector && s.phase != OutboxPagePhase::Done) ==> {
        &&& s.index < s.listed.items@.len()
        &&& s.selector_access is Some
    }
    &&& (s.phase == OutboxPagePhase::AwaitRecord || s.phase == OutboxPagePhase::AwaitItemAccess
        || s.phase == OutboxPagePhase::AwaitDegradation) ==> s.ref_access is Some
    &&& s.phase == OutboxPagePhase::AwaitItemAccess ==> s.loaded is Some && outbox_filter_met(s.filter, s.loaded.unwrap())
}

/// Starts an outbox listing under a filter: nothing listed, nothing joined,
/// waiting for the selector.
pub fn outbox_page_start(query_name: IdentityQueryName, filter: OutboxListFilter) -> (r: OutboxPageState)
    ensures
        outbox_page_wf(r),
        r.phase == OutboxPagePhase::AwaitSelector,
        r.filter == filter,
        r.query_name == query_name,
        r.items@.len() == 0,
{
    OutboxPageState {
        filter,
        query_name,
        phase: OutboxPagePhase::AwaitSelector,
        listed: Page { items: Vec::new(), next_cursor: None },
        selector_access: None,
        index: 0,
        ref_access: None,
        loaded: None,
        gate: operations_page_start(),
        items: Vec::new(),
        admitted: Ghost(Seq::empty()),
    }
}

/// The message of a selector access that could not be resolved.
pub open spec fn outbox_selector_unresolved(filter: OutboxListFilter) -> Seq<char> {
    match filter {
        OutboxListFilter::Pending(_) => "pending outbox visibility could not form a canonical subject"@,
        OutboxListFilter::Retryable(_) => "retryable outbox visibility could not form a canonical subject"@,
        OutboxListFilter::Subject(_) => "outbox subject visibility could not form a canonical subject"@,
        OutboxListFilter::Trace(_) => "outbox trace page visibility could not form a canonical subject"@,
    }
}

fn outbox_selector_error(filter: &OutboxListFilter) -> (r: ApplicationError)
    ensures
        r.kind == ApplicationErrorKind::InvalidRequest,
        r.message@ == outbox_selector_unresolved(*filter),
{
    match filter {
        OutboxListFilter::Pending(_) => ApplicationError::invalid_request("pending outbox visibility could not form a canonical subject"),
        OutboxListFilter::Retryable(_) => ApplicationError::invalid_request("retryable outbox visibility could not form a canonical subject"),
        OutboxListFilter::Subject(_) => ApplicationError::invalid_request("outbox subject visibility could not form a canonical subject"),
        OutboxListFilter::Trace(_) => ApplicationError::invalid_request("outbox trace page visibility could not form a canonical subject"),
    }
}

/// Answers an outbox page with the views joined so far, under a surface.
fn outbox_respond(state: &mut OutboxPageState, surface: IdentityQuerySurface) -> (r: OutboxPageAction)
    requires
        outbox_items_lawful(old(state).filter, old(state).items@, old(state).admitted@),
    ensures
        final(state).phase == OutboxPagePhase::Done,
        final(state).admitted == old(state).admitted,
        final(state).filter == old(state).filter,
        final(state).gate == old(state).gate,
        final(state).index == old(state).index,
        final(state).listed == old(state).listed,
        final(state).selector_access == old(state).selector_access,
        final(state).query_name == old(state).query_name,
        r matches OutboxPageAction::Respond(resp) && {
            &&& resp.query_name == old(state).query_name
            &&& resp.surface == surface
            &&& resp.items@ == old(state).items@
            &&& resp.page_info.item_count == resp.items@.len() as u32
            &&& resp.page_info.has_more == old(state).listed.next_cursor is Some
        },
{
    let mut items: Vec<IdentityOutboxRecordView> = Vec::new();
    std::mem::swap(&mut items, &mut state.items);
    state.phase = OutboxPagePhase::Done;
    OutboxPageAction::Respond(list_page_response(state.query_name.clone(), surface, &state.listed, items))
}

/// Moves an outbox page past its current item: to the next listed ref, or,
/// after the last one, to the page's answer.
fn outbox_advance(
    state: &mut OutboxPageState,
    decision_ref: IdentityVisibilityDecisionRef,
    decided_at: IdentityTimestamp,
) -> (r: Result<OutboxPageAction, ApplicationError>)
    requires
        outbox_items_lawful(old(state).filter, old(state).items@, old(state).admitted@),
        old(state).index < old(state).listed.items@.len(),
        old(state).selector_access is Some,
        old(state).gate.denied_count <= old(state).index + 1,
    ensures
        outbox_page_wf(*final(state)),
        final(state).admitted == old(state).admitted,
        final(state).filter == old(state).filter,
        r matches Ok(OutboxPageAction::Respond(resp)) ==> resp.items@ == old(state).items@
            && resp.page_info.item_count == resp.items@.len() as u32
            && final(state).phase == OutboxPagePhase::Done,
        r is Ok && !(r.unwrap() is Respond) ==> {
            &&& final(state).phase == OutboxPagePhase::AwaitRefAccess
            &&& final(state).index == old(state).index + 1
            &&& r.unwrap() == OutboxPageAction::ResolveRefAccess(old(state).listed.items@[old(state).index + 1].value_ref)
        },
        r is Err ==> r->Err_0.kind == ApplicationErrorKind::ConsistencyDefect,
{
    let len = state.listed.items.len();
    let next = state.index + 1;
    if next < len {
        state.index = next;
        state.phase = OutboxPagePhase::AwaitRefAccess;
        state.ref_access = None;
        state.loaded = None;
        return Ok(OutboxPageAction::ResolveRefAccess(state.listed.items[next].value_ref.clone()));
    }
    let selector_access = match &state.selector_access {
        Some(a) => a.clone(),
        None => {
            return Err(ApplicationError::consistency_defect("page event does not answer the pending read"));
        },
    };
    state.index = next;
    state.phase = OutboxPagePhase::Done;
    let surface = operations_page_surface(&state.gate, state.items.len() == 0, &selector_access, decision_ref, decided_at)?;
    Ok(outbox_respond(state, surface))
}

/// Takes one port result into an outbox listing and answers with the next
/// read, a degradation to map, or the page. A hidden selector, a degraded or
/// unavailable one answers with its gate surface; an empty listing answers
/// empty; each listed ref is gated by its own access (hidden: skipped and
/// counted; degraded: the page stops), then loaded (gone: mapped), then
/// held to the filter (failed: mapped), then gated again by the loaded
/// record's access before its view joins. Every answered page counts the
/// views it returns, and each is the view of a record that meets the filter,
/// read under an admitting access.
pub fn outbox_page_step(
    state: &mut OutboxPageState,
    event: OutboxPageEvent,
    decision_ref: IdentityVisibilityDecisionRef,
    decided_at: IdentityTimestamp,
) -> (r: Result<OutboxPageAction, ApplicationError>)
    requires
        outbox_page_wf(*old(state)),
    ensures
        outbox_page_wf(*final(state)),
        final(state).filter == old(state).filter,
        // Every answered page follows the page law and counts what it returns.
        r matches Ok(OutboxPageAction::Respond(resp)) ==> {
            &&& final(state).phase == OutboxPagePhase::Done
            &&& outbox_items_lawful(final(state).filter, resp.items@, final(state).admitted@)
            &&& resp.page_info.item_count == resp.items@.len() as u32
        },
        // The selector gates first; a hidden, degraded, or unavailable selector answers empty.
        old(state).phase == OutboxPagePhase::AwaitSelector && event is Selector ==> {
            let a = event->Selector_0;
            let listed = event->Selector_1;
            &&& a is None ==> r is Err && r->Err_0.kind == ApplicationErrorKind::InvalidRequest
                && r->Err_0.message@ == outbox_selector_unresolved(old(state).filter)
            &&& a is Some && !access_admitted(a.unwrap()) ==> {
                &&& (r is Err <==> access_decision_defect(a.unwrap(), gate_disposition(a.unwrap())))
                &&& r is Ok ==> r.unwrap() is Respond && r.unwrap()->Respond_0.items@.len() == 0
                    && r.unwrap()->Respond_0.surface == access_surface(a.unwrap(), gate_disposition(a.unwrap()), None, false, decision_ref, decided_at)
            }
            &&& a is Some && access_admitted(a.unwrap()) && listed.items@.len() == 0 ==> {
                &&& (r is Err <==> access_decision_defect(a.unwrap(), admitted_disposition(a.unwrap())))
                &&& r is Ok ==> r.unwrap() is Respond && r.unwrap()->Respond_0.items@.len() == 0
                    && r.unwrap()->Respond_0.surface == absent_surface(a.unwrap(), false, decision_ref, decided_at)
            }
            &&& a is Some && access_admitted(a.unwrap()) && listed.items@.len() > 0 ==>
                r == Ok::<OutboxPageAction, ApplicationError>(OutboxPageAction::ResolveRefAccess(listed.items@[0].value_ref))
        },
        // A listed record that is gone, or fails the filter, is mapped under the ref's access.
        old(state).phase == OutboxPagePhase::AwaitRecord && event is Record ==> {
            let loaded = event->Record_0;
            &&& loaded is None ==> r == Ok::<OutboxPageAction, ApplicationError>(OutboxPageAction::MapMissing(
                old(state).ref_access.unwrap(), old(state).listed.items@[old(state).index as int].value_ref))
            &&& loaded is Some && !outbox_filter_met(old(state).filter, loaded.unwrap()) ==>
                r == Ok::<OutboxPageAction, ApplicationError>(OutboxPageAction::MapSelectorMismatch(
                old(state).ref_access.unwrap(), old(state).listed.items@[old(state).index as int].value_ref))
            &&& loaded is Some && outbox_filter_met(old(state).filter, loaded.unwrap()) ==>
                r == Ok::<OutboxPageAction, ApplicationError>(OutboxPageAction::ResolveItemAccess(
                loaded.unwrap().outbox_record_ref, loaded.unwrap().subject_ref, loaded.unwrap().topic_key_ref))
        },
        // Degraded material answers the page with the views joined so far.
        old(state).phase == OutboxPagePhase::AwaitDegradation && event is Degraded ==> {
            &&& r is Ok && r.unwrap() is Respond
            &&& r.unwrap()->Respond_0.items@ == old(state).items@
            &&& r.unwrap()->Respond_0.surface == material_degraded_surface(event->Degraded_0, decision_ref, decided_at)
        },
        old(state).phase == OutboxPagePhase::Done ==> r is Err && out_of_order(r->Err_0),
{
    match (state.phase, event) {
        (OutboxPagePhase::AwaitSelector, OutboxPageEvent::Selector(access, listed)) => {
            let access = match access {
                Some(access) => access,
                None => {
                    return Err(outbox_selector_error(&state.filter));
                },
            };
            if let Some(surface) = gate_read_surface(&access, decision_ref.clone(), decided_at)? {
                state.phase = OutboxPagePhase::Done;
                return Ok(OutboxPageAction::Respond(empty_page_response(state.query_name.clone(), surface)));
            }
            if listed.items.len() == 0 {
                let surface = absent_surface_from_access(&access, false, decision_ref, decided_at)?;
                state.phase = OutboxPagePhase::Done;
                return Ok(OutboxPageAction::Respond(empty_page_response(state.query_name.clone(), surface)));
            }
            let first = listed.items[0].value_ref.clone();
            state.listed = listed;
            state.selector_access = Some(access);
            state.index = 0;
            state.phase = OutboxPagePhase::AwaitRefAccess;
            Ok(OutboxPageAction::ResolveRefAccess(first))
        },
        (OutboxPagePhase::AwaitRefAccess, OutboxPageEvent::RefAccess(access)) => {
            let access = match access {
                Some(access) => access,
                None => {
                    return Err(ApplicationError::invalid_request("outbox item visibility could not form a canonical subject"));
                },
            };
            // The listed page fits a usize, which bounds the hidden count below it.
            let _listed_len = state.listed.items.len();
            match operations_item_gate(&mut state.gate, &access, decision_ref.clone(), decided_at)? {
                OperationsItemGate::Skip => outbox_advance(state, decision_ref, decided_at),
                OperationsItemGate::Stop(surface) => Ok(outbox_respond(state, surface)),
                OperationsItemGate::Admit => {
                    let record_ref = state.listed.items[state.index].value_ref.clone();
                    state.ref_access = Some(access);
                    state.phase = OutboxPagePhase::AwaitRecord;
                    Ok(OutboxPageAction::LoadRecord(record_ref))
                },
            }
        },
        (OutboxPagePhase::AwaitRecord, OutboxPageEvent::Record(loaded)) => {
            let record_ref = state.listed.items[state.index].value_ref.clone();
            let ref_access = match &state.ref_access {
                Some(a) => a.clone(),
                None => {
                    return Err(ApplicationError::consistency_defect("page event does not answer the pending read"));
                },
            };
            match loaded {
                None => {
                    state.phase = OutboxPagePhase::AwaitDegradation;
                    Ok(OutboxPageAction::MapMissing(ref_access, record_ref))
                },
                Some(record) => {
                    if !outbox_selector_matches(&state.filter, &record) {
                        state.phase = OutboxPagePhase::AwaitDegradation;
                        return Ok(OutboxPageAction::MapSelectorMismatch(ref_access, record_ref));
                    }
                    let action = OutboxPageAction::ResolveItemAccess(
                        record.outbox_record_ref.clone(),
                        record.subject_ref.clone(),
                        record.topic_key_ref.clone(),
                    );
                    state.loaded = Some(record);
                    state.phase = OutboxPagePhase::AwaitItemAccess;
                    Ok(action)
                },
            }
        },
        (OutboxPagePhase::AwaitItemAccess, OutboxPageEvent::ItemAccess(access)) => {
            let access = match access {
                Some(access) => access,
                None => {
                    return Err(ApplicationError::invalid_request("loaded outbox visibility could not form a canonical subject"));
                },
            };
            // The listed page fits a usize, which bounds the hidden count below it.
            let _listed_len = state.listed.items.len();
            match operations_item_gate(&mut state.gate, &access, decision_ref.clone(), decided_at)? {
                OperationsItemGate::Skip => outbox_advance(state, decision_ref, decided_at),
                OperationsItemGate::Stop(surface) => Ok(outbox_respond(state, surface)),
                OperationsItemGate::Admit => {
                    let record = match &state.loaded {
                        Some(record) => record,
                        None => {
                            return Err(ApplicationError::consistency_defect("page event does not answer the pending read"));
                        },
                    };
                    let view = identity_outbox_record_view(&access, record);
                    proof {
                        state.admitted@ = state.admitted@.push((access, *record));
                    }
                    state.items.push(view);
                    outbox_advance(state, decision_ref, decided_at)
                },
            }
        },
        (OutboxPagePhase::AwaitDegradation, OutboxPageEvent::Degraded(degradation)) => {
            let surface = degraded_surface_from_material(degradation, decision_ref, decided_at);
            Ok(outbox_respond(state, surface))
        },
        _ => Err(ApplicationError::consistency_defect("page event does not answer the pending read")),
    }
}

/// Where a trace page stands.
#[derive(Clone, Copy, Debug, Eq, PartialEq, Structural)]
pub enum TracePagePhase {
    /// Waits for the selector's access.
    AwaitSelector,
    /// Waits for the listed page of an admitted selector.
    AwaitListed,
    /// Waits for the current listed trace record.
    AwaitRecord,
    /// Waits for the access of the loaded record's subject.
    AwaitItemAccess,
    /// Waits for the degraded material of a defective item.
    AwaitDegradation,
    /// Answered.
    Done,
}

/// Running state of a trace page read.
pub struct TracePageFlow {
    /// Query answered.
    pub query_name: IdentityQueryName,
    /// Member whose trace is read.
    pub member_ref: GlobalMemberRef,
    /// Subject the page reads, when it reads one.
    pub subject_ref: Option<IdentityTraceSubjectRef>,
    /// Current phase.
    pub phase: TracePagePhase,
    /// Listed page of trace refs.
    pub listed: Page<IdentityVersionedRef<IdentityTraceRecordRef>>,
    /// Access of the selector.
    pub selector_access: Option<IdentityVisibilityAccessSummary>,
    /// Index of the current listed ref.
    pub index: usize,
    /// Current loaded record.
    pub loaded: Option<IdentityTraceRecord>,
    /// Joined views and visibility seen so far.
    pub page: TracePageState,
    /// The access and record behind each joined view.
    pub admitted: Ghost<Seq<(IdentityVisibilityAccessSummary, IdentityTraceRecord)>>,
}

/// Port result a trace page waits for.
pub enum TracePageEvent {
    /// The selector's access, absent when it could not be resolved.
    Selector(Option<IdentityVisibilityAccessSummary>),
    /// The page the selector lists.
    Listed(Page<IdentityVersionedRef<IdentityTraceRecordRef>>),
    /// The current listed record, absent when it is gone.
    Record(Option<IdentityTraceRecord>),
    /// The access of the loaded record's subject.
    ItemAccess(Option<IdentityVisibilityAccessSummary>),
    /// Degraded material the mapper gave for the defect named.
    Degraded(IdentityQueryMaterialDegradationSummary),
}

/// Next thing a trace page asks of the service.
pub enum TracePageAction {
    /// List the selector's page.
    ListRecords,
    /// Load this listed trace record.
    LoadRecord(IdentityTraceRecordRef),
    /// Resolve the access of this trace subject.
    ResolveItemAccess(IdentityTraceSubjectRef),
    /// Map a listed record that is gone, under this access.
    MapMissing(IdentityVisibilityAccessSummary, IdentityTraceRecordRef),
    /// Map a listed record of another member, under this access.
    MapInvalidMember(IdentityVisibilityAccessSummary, IdentityTraceRecordRef, GlobalMemberRef),
    /// Map a listed record of another subject, under this access.
    MapSubjectMismatch(IdentityVisibilityAccessSummary, IdentityTraceRecordRef, IdentityTraceSubjectRef),
    /// Map material that is not body-free, under this access.
    MapForbidden(IdentityVisibilityAccessSummary, IdentityReadMaterialMarker),
    /// Answer with this page.
    Respond(IdentityPageResponse<IdentityTraceRecordView>),
}

/// Whether a trace record may join a page of a member, optionally for one subject.
pub open spec fn trace_record_fits(member_ref: GlobalMemberRef, subject_ref: Option<IdentityTraceSubjectRef>, record: IdentityTraceRecord) -> bool {
    &&& record.member_ref.member_id@ == member_ref.member_id@
    &&& subject_ref is Some ==> record.subject_ref@ == subject_ref.unwrap()@
    &&& read_material_body_free(record.read_material_marker.material_kind)
}

/// The page law of a trace page: every joined view is the view of a
/// body-free record of the member (and subject), read under its own
/// admitting access.
pub open spec fn trace_items_lawful(
    member_ref: GlobalMemberRef,
    subject_ref: Option<IdentityTraceSubjectRef>,
    items: Seq<IdentityTraceRecordView>,
    admitted: Seq<(IdentityVisibilityAccessSummary, IdentityTraceRecord)>,
) -> bool {
    &&& items.len() == admitted.len()
    &&& forall|i: int| 0 <= i < items.len() ==> {
        &&& #[trigger] items[i] == trace_view_of(admitted[i].0, admitted[i].1)
        &&& trace_record_fits(member_ref, subject_ref, admitted[i].1)
        &&& access_admitted(admitted[i].0)
    }
}

/// Well-formedness of a trace page between steps.
pub open spec fn trace_page_wf(s: TracePageFlow) -> bool {
    &&& s.phase != TracePagePhase::Done ==> trace_items_lawful(s.member_ref, s.subject_ref, s.page.items@, s.admitted@)
    &&& (s.phase == TracePagePhase::AwaitSelector || s.phase == TracePagePhase::AwaitListed) ==> s.page.items@.len() == 0
        && s.admitted@.len() == 0 && s.page.denied_count == 0
    &&& s.phase == TracePagePhase::AwaitListed ==> s.selector_access is Some && access_admitted(s.selector_access.unwrap())
    &&& s.page.denied_count <= s.index
    &&& (s.phase != TracePagePhase::AwaitSelector && s.phase != TracePagePhase::AwaitListed && s.phase != TracePagePhase::Done) ==> {
        &&& s.index < s.listed.items@.len()
        &&& s.selector_access is Some
    }
    &&& s.phase == TracePagePhase::AwaitItemAccess ==> s.loaded is Some
        && s.loaded.unwrap().member_ref.member_id@ == s.member_ref.member_id@
        && (s.subject_ref is Some ==> s.loaded.unwrap().subject_ref@ == s.subject_ref.unwrap()@)
}

/// Starts a trace page of a member, optionally for one subject.
pub fn trace_page_flow_start(
    query_name: IdentityQueryName,
    member_ref: GlobalMemberRef,
    subject_ref: Option<IdentityTraceSubjectRef>,
) -> (r: TracePageFlow)
    ensures
        trace_page_wf(r),
        r.phase == TracePagePhase::AwaitSelector,
        r.member_ref == member_ref,
        r.subject_ref == subject_ref,
        r.query_name == query_name,
{
    TracePageFlow {
        query_name,
        member_ref,
        subject_ref,
        phase: TracePagePhase::AwaitSelector,
        listed: Page { items: Vec::new(), next_cursor: None },
        selector_access: None,
        index: 0,
        loaded: None,
        page: trace_page_start(),
        admitted: Ghost(Seq::empty()),
    }
}

fn trace_respond(state: &mut TracePageFlow, surface: IdentityQuerySurface) -> (r: TracePageAction)
    ensures
        final(state).phase == TracePagePhase::Done,
        final(state).admitted == old(state).admitted,
        final(state).member_ref == old(state).member_ref,
        final(state).subject_ref == old(state).subject_ref,
        final(state).page.denied_count == old(state).page.denied_count,
        final(state).index == old(state).index,
        r matches TracePageAction::Respond(resp) && {
            &&& resp.surface == surface
            &&& resp.items@ == old(state).page.items@
            &&& resp.page_info.item_count == resp.items@.len() as u32
            &&& resp.page_info.has_more == old(state).listed.next_cursor is Some
        },
{
    let mut items: Vec<IdentityTraceRecordView> = Vec::new();
    std::mem::swap(&mut items, &mut state.page.items);
    state.phase = TracePagePhase::Done;
    TracePageAction::Respond(list_page_response(state.query_name.clone(), surface, &state.listed, items))
}

fn trace_advance(
    state: &mut TracePageFlow,
    decision_ref: IdentityVisibilityDecisionRef,
    decided_at: IdentityTimestamp,
) -> (r: Result<TracePageAction, ApplicationError>)
    requires
        trace_items_lawful(old(state).member_ref, old(state).subject_ref, old(state).page.items@, old(state).admitted@),
        old(state).index < old(state).listed.items@.len(),
        old(state).selector_access is Some,
        old(state).page.denied_count <= old(state).index + 1,
    ensures
        trace_page_wf(*final(state)),
        final(state).admitted == old(state).admitted,
        final(state).member_ref == old(state).member_ref,
        final(state).subject_ref == old(state).subject_ref,
        r matches Ok(TracePageAction::Respond(resp)) ==> resp.items@ == old(state).page.items@
            && resp.page_info.item_count == resp.items@.len() as u32
            && final(state).phase == TracePagePhase::Done,
        r is Ok && !(r.unwrap() is Respond) ==> {
            &&& final(state).phase == TracePagePhase::AwaitRecord
            &&& final(state).index == old(state).index + 1
            &&& r.unwrap() == TracePageAction::LoadRecord(old(state).listed.items@[old(state).index + 1].value_ref)
        },
{
    let len = state.listed.items.len();
    let next = state.index + 1;
    if next < len {
        state.index = next;
        state.phase = TracePagePhase::AwaitRecord;
        state.loaded = None;
        return Ok(TracePageAction::LoadRecord(state.listed.items[next].value_ref.clone()));
    }
    let selector_access = match &state.selector_access {
        Some(a) => a.clone(),
        None => {
            return Err(ApplicationError::consistency_defect("page event does not answer the pending read"));
        },
    };
    state.index = next;
    state.phase = TracePagePhase::Done;
    let surface = trace_page_surface(&state.page, &selector_access, decision_ref, decided_at)?;
    Ok(trace_respond(state, surface))
}

/// Takes one port result into a trace page and answers with the next read,
/// a degradation to map, or the page. The selector gates first, before its
/// page is listed; an empty listing answers empty; each listed record must exist, belong to the
/// member, and answer the subject read (else its defect is mapped); its own
/// access then decides: a hidden item is skipped and counted, a degraded or
/// unavailable one stops the page, material that is not body-free is mapped,
/// and any other item joins under its access. Every answered page counts the
/// views it returns, each the view of a body-free record of the member (and
/// subject) read under its own admitting access.
pub fn trace_page_step(
    state: &mut TracePageFlow,
    event: TracePageEvent,
    decision_ref: IdentityVisibilityDecisionRef,
    decided_at: IdentityTimestamp,
) -> (r: Result<TracePageAction, ApplicationError>)
    requires
        trace_page_wf(*old(state)),
    ensures
        trace_page_wf(*final(state)),
        final(state).member_ref == old(state).member_ref,
        final(state).subject_ref == old(state).subject_ref,
        r matches Ok(TracePageAction::Respond(resp)) ==> {
            &&& final(state).phase == TracePagePhase::Done
            &&& trace_items_lawful(final(state).member_ref, final(state).subject_ref, resp.items@, final(state).admitted@)
            &&& resp.page_info.item_count == resp.items@.len() as u32
        },
        // The selector gates before anything is listed.
        old(state).phase == TracePagePhase::AwaitSelector && event is Selector ==> {
            let a = event->Selector_0;
            &&& a is None ==> r is Err && r->Err_0.kind == ApplicationErrorKind::InvalidRequest
            &&& a is Some && !access_admitted(a.unwrap()) ==> {
                &&& (r is Err <==> access_decision_defect(a.unwrap(), gate_disposition(a.unwrap())))
                &&& r is Ok ==> r.unwrap() is Respond && r.unwrap()->Respond_0.items@.len() == 0
                    && r.unwrap()->Respond_0.surface == access_surface(a.unwrap(), gate_disposition(a.unwrap()), None, false, decision_ref, decided_at)
            }
            &&& a is Some && access_admitted(a.unwrap()) ==>
                r == Ok::<TracePageAction, ApplicationError>(TracePageAction::ListRecords)
        },
        old(state).phase == TracePagePhase::AwaitListed && event is Listed ==> {
            let a = old(state).selector_access.unwrap();
            let listed = event->Listed_0;
            &&& listed.items@.len() == 0 ==> {
                &&& (r is Err <==> access_decision_defect(a, admitted_disposition(a)))
                &&& r is Ok ==> r.unwrap() is Respond && r.unwrap()->Respond_0.items@.len() == 0
                    && r.unwrap()->Respond_0.surface == absent_surface(a, false, decision_ref, decided_at)
            }
            &&& listed.items@.len() > 0 ==>
                r == Ok::<TracePageAction, ApplicationError>(TracePageAction::LoadRecord(listed.items@[0].value_ref))
        },
        old(state).phase == TracePagePhase::AwaitRecord && event is Record ==> {
            let loaded = event->Record_0;
            let item_ref = old(state).listed.items@[old(state).index as int].value_ref;
            let selector = old(state).selector_access.unwrap();
            &&& loaded is None ==> r == Ok::<TracePageAction, ApplicationError>(TracePageAction::MapMissing(
                if old(state).page.last_resolved_item_access is Some { old(state).page.last_resolved_item_access.unwrap() } else { selector },
                item_ref))
            &&& loaded is Some && loaded.unwrap().member_ref.member_id@ != old(state).member_ref.member_id@ ==>
                r == Ok::<TracePageAction, ApplicationError>(TracePageAction::MapInvalidMember(selector, item_ref, old(state).member_ref))
            &&& loaded is Some && loaded.unwrap().member_ref.member_id@ == old(state).member_ref.member_id@
                && old(state).subject_ref is Some && loaded.unwrap().subject_ref@ != old(state).subject_ref.unwrap()@ ==>
                r == Ok::<TracePageAction, ApplicationError>(TracePageAction::MapSubjectMismatch(selector, item_ref, old(state).subject_ref.unwrap()))
        },
        old(state).phase == TracePagePhase::AwaitDegradation && event is Degraded ==> {
            &&& r is Ok && r.unwrap() is Respond
            &&& r.unwrap()->Respond_0.items@ == old(state).page.items@
            &&& r.unwrap()->Respond_0.surface == material_degraded_surface(event->Degraded_0, decision_ref, decided_at)
        },
        old(state).phase == TracePagePhase::Done ==> r is Err && out_of_order(r->Err_0),
{
    match (state.phase, event) {
        (TracePagePhase::AwaitSelector, TracePageEvent::Selector(access)) => {
            let access = match access {
                Some(access) => access,
                None => {
                    return Err(if state.subject_ref.is_some() {
                        ApplicationError::invalid_request("trace read visibility could not form a canonical subject")
                    } else {
                        ApplicationError::invalid_request("trace page visibility could not form a canonical member page subject")
                    });
                },
            };
            if let Some(surface) = gate_read_surface(&access, decision_ref.clone(), decided_at)? {
                state.phase = TracePagePhase::Done;
                return Ok(TracePageAction::Respond(empty_page_response(state.query_name.clone(), surface)));
            }
            state.selector_access = Some(access);
            state.phase = TracePagePhase::AwaitListed;
            Ok(TracePageAction::ListRecords)
        },
        (TracePagePhase::AwaitListed, TracePageEvent::Listed(listed)) => {
            let access = match &state.selector_access {
                Some(a) => a.clone(),
                None => {
                    return Err(ApplicationError::consistency_defect("page event does not answer the pending read"));
                },
            };
            if listed.items.len() == 0 {
                let surface = absent_surface_from_access(&access, false, decision_ref, decided_at)?;
                state.phase = TracePagePhase::Done;
                return Ok(TracePageAction::Respond(empty_page_response(state.query_name.clone(), surface)));
            }
            let first = listed.items[0].value_ref.clone();
            state.listed = listed;
            state.index = 0;
            state.phase = TracePagePhase::AwaitRecord;
            Ok(TracePageAction::LoadRecord(first))
        },
        (TracePagePhase::AwaitRecord, TracePageEvent::Record(loaded)) => {
            let item_ref = state.listed.items[state.index].value_ref.clone();
            let selector = match &state.selector_access {
                Some(a) => a.clone(),
                None => {
                    return Err(ApplicationError::consistency_defect("page event does not answer the pending read"));
                },
            };
            match trace_item_check(&state.member_ref, state.subject_ref.as_ref(), &loaded) {
                TraceItemCheck::Missing => {
                    let access = match &state.page.last_resolved_item_access {
                        Some(a) => a.clone(),
                        None => selector,
                    };
                    state.phase = TracePagePhase::AwaitDegradation;
                    Ok(TracePageAction::MapMissing(access, item_ref))
                },
                TraceItemCheck::InvalidMember => {
                    state.phase = TracePagePhase::AwaitDegradation;
                    Ok(TracePageAction::MapInvalidMember(selector, item_ref, state.member_ref.clone()))
                },
                TraceItemCheck::SubjectMismatch => {
                    let subject = match &state.subject_ref {
                        Some(s) => s.clone(),
                        None => {
                            return Err(ApplicationError::consistency_defect("page event does not answer the pending read"));
                        },
                    };
                    state.phase = TracePagePhase::AwaitDegradation;
                    Ok(TracePageAction::MapSubjectMismatch(selector, item_ref, subject))
                },
                TraceItemCheck::Resolve => {
                    let record = match loaded {
                        Some(record) => record,
                        None => {
                            return Err(ApplicationError::consistency_defect("page event does not answer the pending read"));
                        },
                    };
                    let subject = record.subject_ref.clone();
                    state.loaded = Some(record);
                    state.phase = TracePagePhase::AwaitItemAccess;
                    Ok(TracePageAction::ResolveItemAccess(subject))
                },
            }
        },
        (TracePagePhase::AwaitItemAccess, TracePageEvent::ItemAccess(access)) => {
            let access = match access {
                Some(access) => access,
                None => {
                    return Err(ApplicationError::invalid_request("trace item visibility could not form a canonical subject"));
                },
            };
            let mut held: Option<IdentityTraceRecord> = None;
            std::mem::swap(&mut held, &mut state.loaded);
            state.phase = TracePagePhase::Done;
            let record = match held {
                Some(record) => record,
                None => {
                    return Err(ApplicationError::consistency_defect("page event does not answer the pending read"));
                },
            };
            // The listed page fits a usize, which bounds the hidden count below it.
            let _listed_len = state.listed.items.len();
            let ghost old_items = state.page.items@;
            let ghost record_spec = record;
            let marker = record.read_material_marker.clone();
            match trace_item_step(&mut state.page, access.clone(), record, decision_ref.clone(), decided_at)? {
                TraceItemOutcome::Continue => {
                    proof {
                        if state.page.items@.len() > old_items.len() {
                            state.admitted@ = state.admitted@.push((access, record_spec));
                        }
                    }
                    trace_advance(state, decision_ref, decided_at)
                },
                TraceItemOutcome::Stop(surface) => Ok(trace_respond(state, surface)),
                TraceItemOutcome::ForbiddenMaterial(_) => {
                    state.phase = TracePagePhase::AwaitDegradation;
                    Ok(TracePageAction::MapForbidden(access, marker))
                },
            }
        },
        (TracePagePhase::AwaitDegradation, TracePageEvent::Degraded(degradation)) => {
            let surface = degraded_surface_from_material(degradation, decision_ref, decided_at);
            Ok(trace_respond(state, surface))
        },
        _ => Err(ApplicationError::consistency_defect("page event does not answer the pending read")),
    }
}

/// Where a member list page (career records, memory references) stands.
#[derive(Clone, Copy, Debug, Eq, PartialEq, Structural)]
pub enum MemberListPhase {
    /// Waits for the member-level access.
    AwaitAccess,
    /// Waits to learn whether the member exists.
    AwaitMember,
    /// Waits for the listed page.
    AwaitListed,
    /// Waits for the current listed item.
    AwaitItem,
    /// Waits for the degraded material of a defective item.
    AwaitDegradation,
    /// Answered.
    Done,
}

/// The error of a member-scoped read whose access could not be resolved.
pub open spec fn member_access_unresolved(e: ApplicationError) -> bool {
    e.kind == ApplicationErrorKind::InvalidRequest && e.message@ == "member-scoped query visibility could not form a canonical subject"@
}

/// Running state of a career record page.
pub struct CareerPageFlow {
    /// Query answered.
    pub query_name: IdentityQueryName,
    /// Member whose records are listed.
    pub member_ref: GlobalMemberRef,
    /// Repository page to list, until it is listed.
    pub page: Option<IdentityRepositoryPage>,
    /// Current phase.
    pub phase: MemberListPhase,
    /// Member-level access.
    pub access: Option<IdentityVisibilityAccessSummary>,
    /// Listed page of record refs.
    pub listed: Page<IdentityVersionedRef<CareerRecordRef>>,
    /// Index of the current listed ref.
    pub index: usize,
    /// Views that joined the page.
    pub items: Vec<CareerRecordView>,
    /// The record behind each joined view.
    pub admitted: Ghost<Seq<CareerRecord>>,
}

/// Port result a career record page waits for.
pub enum CareerPageEvent {
    /// The member-level access, absent when it could not be resolved.
    Access(Option<IdentityVisibilityAccessSummary>),
    /// Whether the member exists.
    Member(bool),
    /// The listed page of record refs.
    Listed(Page<IdentityVersionedRef<CareerRecordRef>>),
    /// The current listed record, absent when it is gone.
    Record(Option<CareerRecord>),
    /// Degraded material the mapper gave for the defect named.
    Degraded(IdentityQueryMaterialDegradationSummary),
}

/// Next thing a career record page asks of the service.
pub enum CareerPageAction {
    /// Learn whether this member exists.
    CheckMember(GlobalMemberRef),
    /// List this member's record refs on this repository page.
    ListRecords(GlobalMemberRef, IdentityRepositoryPage),
    /// Load this listed record.
    LoadRecord(CareerRecordRef),
    /// Map a listed record that is gone.
    MapMissing(IdentityVisibilityAccessSummary, CareerRecordRef, GlobalMemberRef),
    /// Map a listed record of another member.
    MapInvalidMember(IdentityVisibilityAccessSummary, CareerRecordRef, GlobalMemberRef),
    /// Answer with this page.
    Respond(IdentityPageResponse<CareerRecordView>),
}

/// The page law of a career record page: every joined view is the view,
/// under the member's admitting access, of a record of the member.
pub open spec fn career_items_lawful(
    member_ref: GlobalMemberRef,
    access: Option<IdentityVisibilityAccessSummary>,
    items: Seq<CareerRecordView>,
    admitted: Seq<CareerRecord>,
) -> bool {
    &&& items.len() == admitted.len()
    &&& items.len() > 0 ==> access is Some && access_admitted(access.unwrap())
    &&& forall|i: int| 0 <= i < items.len() ==> {
        &&& #[trigger] items[i] == career_view_of(access.unwrap(), admitted[i])
        &&& admitted[i].member_ref.member_id@ == member_ref.member_id@
    }
}

/// Well-formedness of a career record page between steps.
pub open spec fn career_page_wf(s: CareerPageFlow) -> bool {
    &&& s.phase != MemberListPhase::Done ==> career_items_lawful(s.member_ref, s.access, s.items@, s.admitted@)
    &&& (s.phase == MemberListPhase::AwaitAccess || s.phase == MemberListPhase::AwaitMember
        || s.phase == MemberListPhase::AwaitListed) ==> s.items@.len() == 0 && s.admitted@.len() == 0
    &&& (s.phase == MemberListPhase::AwaitMember || s.phase == MemberListPhase::AwaitListed || s.phase == MemberListPhase::AwaitItem
        || s.phase == MemberListPhase::AwaitDegradation) ==> s.access is Some && access_admitted(s.access.unwrap())
    &&& (s.phase == MemberListPhase::AwaitAccess || s.phase == MemberListPhase::AwaitMember) ==> s.page is Some
    &&& (s.phase == MemberListPhase::AwaitItem || s.phase == MemberListPhase::AwaitDegradation) ==> s.index < s.listed.items@.len()
}

/// Starts a career record page of a member; a request without paging
/// information is invalid.
pub fn career_page_start(
    query_name: IdentityQueryName,
    member_ref: GlobalMemberRef,
    page: &Option<IdentityPublicPageRequest>,
) -> (r: Result<CareerPageFlow, ApplicationError>)
    ensures
        r is Ok <==> page is Some,
        r matches Ok(s) ==> career_page_wf(s) && s.phase == MemberListPhase::AwaitAccess && s.member_ref == member_ref
            && s.query_name == query_name,
        r matches Err(e) ==> e.kind == ApplicationErrorKind::InvalidRequest,
{
    let page = require_page(page)?;
    Ok(CareerPageFlow {
        query_name,
        member_ref,
        page: Some(page),
        phase: MemberListPhase::AwaitAccess,
        access: None,
        listed: Page { items: Vec::new(), next_cursor: None },
        index: 0,
        items: Vec::new(),
        admitted: Ghost(Seq::empty()),
    })
}

fn career_respond(state: &mut CareerPageFlow, surface: IdentityQuerySurface) -> (r: CareerPageAction)
    ensures
        final(state).phase == MemberListPhase::Done,
        final(state).admitted == old(state).admitted,
        final(state).access == old(state).access,
        final(state).member_ref == old(state).member_ref,
        r matches CareerPageAction::Respond(resp) && {
            &&& resp.surface == surface
            &&& resp.items@ == old(state).items@
            &&& resp.page_info.item_count == resp.items@.len() as u32
        },
{
    let mut items: Vec<CareerRecordView> = Vec::new();
    std::mem::swap(&mut items, &mut state.items);
    state.phase = MemberListPhase::Done;
    CareerPageAction::Respond(list_page_response(state.query_name.clone(), surface, &state.listed, items))
}

/// Takes one port result into a career record page and answers with the next
/// read, a degradation to map, or the page. The member access gates first; a
/// missing member reads missing; an empty listing reads empty; each listed
/// record must exist and belong to the member (else its defect is mapped)
/// and joins under the member access; after the last, the page takes the
/// list success surface. Every answered page counts the views it returns,
/// each the view of a record of the member under the admitting access.
pub fn career_page_step(
    state: &mut CareerPageFlow,
    event: CareerPageEvent,
    decision_ref: IdentityVisibilityDecisionRef,
    decided_at: IdentityTimestamp,
) -> (r: Result<CareerPageAction, ApplicationError>)
    requires
        career_page_wf(*old(state)),
    ensures
        career_page_wf(*final(state)),
        final(state).member_ref == old(state).member_ref,
        r matches Ok(CareerPageAction::Respond(resp)) ==> {
            &&& final(state).phase == MemberListPhase::Done
            &&& career_items_lawful(final(state).member_ref, final(state).access, resp.items@, final(state).admitted@)
            &&& resp.page_info.item_count == resp.items@.len() as u32
        },
        old(state).phase == MemberListPhase::AwaitAccess && event is Access ==> {
            let a = event->Access_0;
            &&& a is None ==> r is Err && member_access_unresolved(r->Err_0)
            &&& a is Some && !access_admitted(a.unwrap()) ==> {
                &&& (r is Err <==> access_decision_defect(a.unwrap(), gate_disposition(a.unwrap())))
                &&& r is Ok ==> r.unwrap() is Respond && r.unwrap()->Respond_0.items@.len() == 0
                    && r.unwrap()->Respond_0.surface == access_surface(a.unwrap(), gate_disposition(a.unwrap()), None, false, decision_ref, decided_at)
            }
            &&& a is Some && access_admitted(a.unwrap()) ==>
                r == Ok::<CareerPageAction, ApplicationError>(CareerPageAction::CheckMember(old(state).member_ref))
        },
        old(state).phase == MemberListPhase::AwaitMember && event is Member && !event->Member_0 ==> {
            &&& (r is Err <==> access_decision_defect(old(state).access.unwrap(), admitted_disposition(old(state).access.unwrap())))
            &&& r is Ok ==> r.unwrap() is Respond && r.unwrap()->Respond_0.items@.len() == 0
                && r.unwrap()->Respond_0.surface == absent_surface(old(state).access.unwrap(), true, decision_ref, decided_at)
        },
        old(state).phase == MemberListPhase::AwaitMember && event is Member && event->Member_0 ==>
            r == Ok::<CareerPageAction, ApplicationError>(CareerPageAction::ListRecords(old(state).member_ref, old(state).page.unwrap())),
        old(state).phase == MemberListPhase::AwaitListed && event is Listed && event->Listed_0.items@.len() == 0 ==> {
            &&& (r is Err <==> access_decision_defect(old(state).access.unwrap(), admitted_disposition(old(state).access.unwrap())))
            &&& r is Ok ==> r.unwrap() is Respond && r.unwrap()->Respond_0.items@.len() == 0
                && r.unwrap()->Respond_0.surface == absent_surface(old(state).access.unwrap(), false, decision_ref, decided_at)
        },
        old(state).phase == MemberListPhase::AwaitItem && event is Record ==> {
            let loaded = event->Record_0;
            let item_ref = old(state).listed.items@[old(state).index as int].value_ref;
            &&& loaded is None ==> r == Ok::<CareerPageAction, ApplicationError>(
                CareerPageAction::MapMissing(old(state).access.unwrap(), item_ref, old(state).member_ref))
            &&& loaded is Some && loaded.unwrap().member_ref.member_id@ != old(state).member_ref.member_id@ ==>
                r == Ok::<CareerPageAction, ApplicationError>(CareerPageAction::MapInvalidMember(old(state).access.unwrap(), item_ref, old(state).member_ref))
        },
        old(state).phase == MemberListPhase::AwaitDegradation && event is Degraded ==> {
            &&& r is Ok && r.unwrap() is Respond
            &&& r.unwrap()->Respond_0.items@ == old(state).items@
            &&& r.unwrap()->Respond_0.surface == material_degraded_surface(event->Degraded_0, decision_ref, decided_at)
        },
        old(state).phase == MemberListPhase::Done ==> r is Err && out_of_order(r->Err_0),
{
    match (state.phase, event) {
        (MemberListPhase::AwaitAccess, CareerPageEvent::Access(access)) => {
            let access = match access {
                Some(access) => access,
                None => {
                    return Err(ApplicationError::invalid_request("member-scoped query visibility could not form a canonical subject"));
                },
            };
            if let Some(surface) = gate_read_surface(&access, decision_ref.clone(), decided_at)? {
                state.phase = MemberListPhase::Done;
                return Ok(CareerPageAction::Respond(empty_page_response(state.query_name.clone(), surface)));
            }
            state.access = Some(access);
            state.phase = MemberListPhase::AwaitMember;
            Ok(CareerPageAction::CheckMember(state.member_ref.clone()))
        },
        (MemberListPhase::AwaitMember, CareerPageEvent::Member(found)) => {
            let access = match &state.access {
                Some(a) => a.clone(),
                None => {
                    return Err(ApplicationError::consistency_defect("page event does not answer the pending read"));
                },
            };
            if !found {
                let surface = absent_surface_from_access(&access, true, decision_ref, decided_at)?;
                state.phase = MemberListPhase::Done;
                return Ok(CareerPageAction::Respond(empty_page_response(state.query_name.clone(), surface)));
            }
            let mut page: Option<IdentityRepositoryPage> = None;
            std::mem::swap(&mut page, &mut state.page);
            match page {
                Some(page) => {
                    state.phase = MemberListPhase::AwaitListed;
                    Ok(CareerPageAction::ListRecords(state.member_ref.clone(), page))
                },
                None => {
                    state.phase = MemberListPhase::Done;
                    Err(ApplicationError::consistency_defect("page event does not answer the pending read"))
                },
            }
        },
        (MemberListPhase::AwaitListed, CareerPageEvent::Listed(listed)) => {
            let access = match &state.access {
                Some(a) => a.clone(),
                None => {
                    return Err(ApplicationError::consistency_defect("page event does not answer the pending read"));
                },
            };
            if listed.items.len() == 0 {
                let surface = absent_surface_from_access(&access, false, decision_ref, decided_at)?;
                state.phase = MemberListPhase::Done;
                return Ok(CareerPageAction::Respond(empty_page_response(state.query_name.clone(), surface)));
            }
            let first = listed.items[0].value_ref.clone();
            state.listed = listed;
            state.index = 0;
            state.phase = MemberListPhase::AwaitItem;
            Ok(CareerPageAction::LoadRecord(first))
        },
        (MemberListPhase::AwaitItem, CareerPageEvent::Record(loaded)) => {
            let access = match &state.access {
                Some(a) => a.clone(),
                None => {
                    return Err(ApplicationError::consistency_defect("page event does not answer the pending read"));
                },
            };
            let item_ref = state.listed.items[state.index].value_ref.clone();
            let ghost loaded_spec = loaded;
            match career_record_item_step(&access, &state.member_ref, loaded) {
                CareerRecordItemStep::Missing => {
                    state.phase = MemberListPhase::AwaitDegradation;
                    Ok(CareerPageAction::MapMissing(access, item_ref, state.member_ref.clone()))
                },
                CareerRecordItemStep::InvalidMember => {
                    state.phase = MemberListPhase::AwaitDegradation;
                    Ok(CareerPageAction::MapInvalidMember(access, item_ref, state.member_ref.clone()))
                },
                CareerRecordItemStep::Push(view) => {
                    proof {
                        state.admitted@ = state.admitted@.push(loaded_spec.unwrap());
                    }
                    state.items.push(view);
                    let len = state.listed.items.len();
                    let next = state.index + 1;
                    if next < len {
                        state.index = next;
                        return Ok(CareerPageAction::LoadRecord(state.listed.items[next].value_ref.clone()));
                    }
                    state.phase = MemberListPhase::Done;
                    let surface = surface_for_list_success(&access, false, decision_ref, decided_at)?;
                    Ok(career_respond(state, surface))
                },
            }
        },
        (MemberListPhase::AwaitDegradation, CareerPageEvent::Degraded(degradation)) => {
            let surface = degraded_surface_from_material(degradation, decision_ref, decided_at);
            Ok(career_respond(state, surface))
        },
        _ => Err(ApplicationError::consistency_defect("page event does not answer the pending read")),
    }
}


/// Running state of a memory reference page.
pub struct MemoryPageFlow {
    /// Query answered.
    pub query_name: IdentityQueryName,
    /// Member whose records are listed.
    pub member_ref: GlobalMemberRef,
    /// Repository page to list, until it is listed.
    pub page: Option<IdentityRepositoryPage>,
    /// Current phase.
    pub phase: MemberListPhase,
    /// Member-level access.
    pub access: Option<IdentityVisibilityAccessSummary>,
    /// Listed page of reference refs.
    pub listed: Page<IdentityVersionedRef<MemoryReferenceRef>>,
    /// Index of the current listed ref.
    pub index: usize,
    /// Views that joined the page.
    pub items: Vec<MemoryReferenceView>,
    /// The record behind each joined view.
    pub admitted: Ghost<Seq<MemoryReference>>,
}

/// Port result a memory reference page waits for.
pub enum MemoryPageEvent {
    /// The member-level access, absent when it could not be resolved.
    Access(Option<IdentityVisibilityAccessSummary>),
    /// Whether the member exists.
    Member(bool),
    /// The listed page of reference refs.
    Listed(Page<IdentityVersionedRef<MemoryReferenceRef>>),
    /// The current listed reference, absent when it is gone.
    Reference(Option<MemoryReference>),
    /// Degraded material the mapper gave for the defect named.
    Degraded(IdentityQueryMaterialDegradationSummary),
}

/// Next thing a memory reference page asks of the service.
pub enum MemoryPageAction {
    /// Learn whether this member exists.
    CheckMember(GlobalMemberRef),
    /// List this member's reference refs on this repository page.
    ListReferences(GlobalMemberRef, IdentityRepositoryPage),
    /// Load this listed reference.
    LoadReference(MemoryReferenceRef),
    /// Map a listed reference that is gone.
    MapMissing(IdentityVisibilityAccessSummary, MemoryReferenceRef, GlobalMemberRef),
    /// Map a listed reference of another member.
    MapInvalidMember(IdentityVisibilityAccessSummary, MemoryReferenceRef, GlobalMemberRef),
    /// Map a listed reference that carries an external body.
    MapForbiddenExternalBody(IdentityVisibilityAccessSummary),
    /// Answer with this page.
    Respond(IdentityPageResponse<MemoryReferenceView>),
}

/// The page law of a memory reference page: every joined view is the view,
/// under the member's admitting access, of a reference of the member.
pub open spec fn memory_items_lawful(
    member_ref: GlobalMemberRef,
    access: Option<IdentityVisibilityAccessSummary>,
    items: Seq<MemoryReferenceView>,
    admitted: Seq<MemoryReference>,
) -> bool {
    &&& items.len() == admitted.len()
    &&& items.len() > 0 ==> access is Some && access_admitted(access.unwrap())
    &&& forall|i: int| 0 <= i < items.len() ==> {
        &&& #[trigger] items[i] == memory_view_of(access.unwrap(), admitted[i])
        &&& admitted[i].member_ref.member_id@ == member_ref.member_id@
    }
}

/// Well-formedness of a memory reference page between steps.
pub open spec fn memory_page_wf(s: MemoryPageFlow) -> bool {
    &&& s.phase != MemberListPhase::Done ==> memory_items_lawful(s.member_ref, s.access, s.items@, s.admitted@)
    &&& (s.phase == MemberListPhase::AwaitAccess || s.phase == MemberListPhase::AwaitMember
        || s.phase == MemberListPhase::AwaitListed) ==> s.items@.len() == 0 && s.admitted@.len() == 0
    &&& (s.phase == MemberListPhase::AwaitMember || s.phase == MemberListPhase::AwaitListed || s.phase == MemberListPhase::AwaitItem
        || s.phase == MemberListPhase::AwaitDegradation) ==> s.access is Some && access_admitted(s.access.unwrap())
    &&& (s.phase == MemberListPhase::AwaitAccess || s.phase == MemberListPhase::AwaitMember) ==> s.page is Some
    &&& (s.phase == MemberListPhase::AwaitItem || s.phase == MemberListPhase::AwaitDegradation) ==> s.index < s.listed.items@.len()
}

/// Starts a memory reference page of a member; a request without paging
/// information is invalid.
pub fn memory_page_start(
    query_name: IdentityQueryName,
    member_ref: GlobalMemberRef,
    page: &Option<IdentityPublicPageRequest>,
) -> (r: Result<MemoryPageFlow, ApplicationError>)
    ensures
        r is Ok <==> page is Some,
        r matches Ok(s) ==> memory_page_wf(s) && s.phase == MemberListPhase::AwaitAccess && s.member_ref == member_ref
            && s.query_name == query_name,
        r matches Err(e) ==> e.kind == ApplicationErrorKind::InvalidRequest,
{
    let page = require_page(page)?;
    Ok(MemoryPageFlow {
        query_name,
        member_ref,
        page: Some(page),
        phase: MemberListPhase::AwaitAccess,
        access: None,
        listed: Page { items: Vec::new(), next_cursor: None },
        index: 0,
        items: Vec::new(),
        admitted: Ghost(Seq::empty()),
    })
}

fn memory_respond(state: &mut MemoryPageFlow, surface: IdentityQuerySurface) -> (r: MemoryPageAction)
    ensures
        final(state).phase == MemberListPhase::Done,
        final(state).admitted == old(state).admitted,
        final(state).access == old(state).access,
        final(state).member_ref == old(state).member_ref,
        r matches MemoryPageAction::Respond(resp) && {
            &&& resp.surface == surface
            &&& resp.items@ == old(state).items@
            &&& resp.page_info.item_count == resp.items@.len() as u32
        },
{
    let mut items: Vec<MemoryReferenceView> = Vec::new();
    std::mem::swap(&mut items, &mut state.items);
    state.phase = MemberListPhase::Done;
    MemoryPageAction::Respond(list_page_response(state.query_name.clone(), surface, &state.listed, items))
}

/// Takes one port result into a memory reference page and answers with the next
/// read, a degradation to map, or the page. The member access gates first; a
/// missing member reads missing; an empty listing reads empty; each listed
/// record must exist and belong to the member (else its defect is mapped)
/// and joins under the member access; after the last, the page takes the
/// list success surface. Every answered page counts the views it returns,
/// each the view of a reference of the member under the admitting access.
pub fn memory_page_step(
    state: &mut MemoryPageFlow,
    event: MemoryPageEvent,
    decision_ref: IdentityVisibilityDecisionRef,
    decided_at: IdentityTimestamp,
) -> (r: Result<MemoryPageAction, ApplicationError>)
    requires
        memory_page_wf(*old(state)),
    ensures
        memory_page_wf(*final(state)),
        final(state).member_ref == old(state).member_ref,
        r matches Ok(MemoryPageAction::Respond(resp)) ==> {
            &&& final(state).phase == MemberListPhase::Done
            &&& memory_items_lawful(final(state).member_ref, final(state).access, resp.items@, final(state).admitted@)
            &&& resp.page_info.item_count == resp.items@.len() as u32
        },
        old(state).phase == MemberListPhase::AwaitAccess && event is Access ==> {
            let a = event->Access_0;
            &&& a is None ==> r is Err && member_access_unresolved(r->Err_0)
            &&& a is Some && !access_admitted(a.unwrap()) ==> {
                &&& (r is Err <==> access_decision_defect(a.unwrap(), gate_disposition(a.unwrap())))
                &&& r is Ok ==> r.unwrap() is Respond && r.unwrap()->Respond_0.items@.len() == 0
                    && r.unwrap()->Respond_0.surface == access_surface(a.unwrap(), gate_disposition(a.unwrap()), None, false, decision_ref, decided_at)
            }
            &&& a is Some && access_admitted(a.unwrap()) ==>
                r == Ok::<MemoryPageAction, ApplicationError>(MemoryPageAction::CheckMember(old(state).member_ref))
        },
        old(state).phase == MemberListPhase::AwaitMember && event is Member && !event->Member_0 ==> {
            &&& (r is Err <==> access_decision_defect(old(state).access.unwrap(), admitted_disposition(old(state).access.unwrap())))
            &&& r is Ok ==> r.unwrap() is Respond && r.unwrap()->Respond_0.items@.len() == 0
                && r.unwrap()->Respond_0.surface == absent_surface(old(state).access.unwrap(), true, decision_ref, decided_at)
        },
        old(state).phase == MemberListPhase::AwaitMember && event is Member && event->Member_0 ==>
            r == Ok::<MemoryPageAction, ApplicationError>(MemoryPageAction::ListReferences(old(state).member_ref, old(state).page.unwrap())),
        old(state).phase == MemberListPhase::AwaitListed && event is Listed && event->Listed_0.items@.len() == 0 ==> {
            &&& (r is Err <==> access_decision_defect(old(state).access.unwrap(), admitted_disposition(old(state).access.unwrap())))
            &&& r is Ok ==> r.unwrap() is Respond && r.unwrap()->Respond_0.items@.len() == 0
                && r.unwrap()->Respond_0.surface == absent_surface(old(state).access.unwrap(), false, decision_ref, decided_at)
        },
        old(state).phase == MemberListPhase::AwaitItem && event is Reference ==> {
            let loaded = event->Reference_0;
            let item_ref = old(state).listed.items@[old(state).index as int].value_ref;
            &&& loaded is None ==> r == Ok::<MemoryPageAction, ApplicationError>(
                MemoryPageAction::MapMissing(old(state).access.unwrap(), item_ref, old(state).member_ref))
            &&& loaded is Some && loaded.unwrap().member_ref.member_id@ != old(state).member_ref.member_id@ ==>
                r == Ok::<MemoryPageAction, ApplicationError>(MemoryPageAction::MapInvalidMember(old(state).access.unwrap(), item_ref, old(state).member_ref))
        },
        old(state).phase == MemberListPhase::AwaitDegradation && event is Degraded ==> {
            &&& r is Ok && r.unwrap() is Respond
            &&& r.unwrap()->Respond_0.items@ == old(state).items@
            &&& r.unwrap()->Respond_0.surface == material_degraded_surface(event->Degraded_0, decision_ref, decided_at)
        },
        old(state).phase == MemberListPhase::Done ==> r is Err && out_of_order(r->Err_0),
{
    match (state.phase, event) {
        (MemberListPhase::AwaitAccess, MemoryPageEvent::Access(access)) => {
            let access = match access {
                Some(access) => access,
                None => {
                    return Err(ApplicationError::invalid_request("member-scoped query visibility could not form a canonical subject"));
                },
            };
            if let Some(surface) = gate_read_surface(&access, decision_ref.clone(), decided_at)? {
                state.phase = MemberListPhase::Done;
                return Ok(MemoryPageAction::Respond(empty_page_response(state.query_name.clone(), surface)));
            }
            state.access = Some(access);
            state.phase = MemberListPhase::AwaitMember;
            Ok(MemoryPageAction::CheckMember(state.member_ref.clone()))
        },
        (MemberListPhase::AwaitMember, MemoryPageEvent::Member(found)) => {
            let access = match &state.access {
                Some(a) => a.clone(),
                None => {
                    return Err(ApplicationError::consistency_defect("page event does not answer the pending read"));
                },
            };
            if !found {
                let surface = absent_surface_from_access(&access, true, decision_ref, decided_at)?;
                state.phase = MemberListPhase::Done;
                return Ok(MemoryPageAction::Respond(empty_page_response(state.query_name.clone(), surface)));
            }
            let mut page: Option<IdentityRepositoryPage> = None;
            std::mem::swap(&mut page, &mut state.page);
            match page {
                Some(page) => {
                    state.phase = MemberListPhase::AwaitListed;
                    Ok(MemoryPageAction::ListReferences(state.member_ref.clone(), page))
                },
                None => {
                    state.phase = MemberListPhase::Done;
                    Err(ApplicationError::consistency_defect("page event does not answer the pending read"))
                },
            }
        },
        (MemberListPhase::AwaitListed, MemoryPageEvent::Listed(listed)) => {
            let access = match &state.access {
                Some(a) => a.clone(),
                None => {
                    return Err(ApplicationError::consistency_defect("page event does not answer the pending read"));
                },
            };
            if listed.items.len() == 0 {
                let surface = absent_surface_from_access(&access, false, decision_ref, decided_at)?;
                state.phase = MemberListPhase::Done;
                return Ok(MemoryPageAction::Respond(empty_page_response(state.query_name.clone(), surface)));
            }
            let first = listed.items[0].value_ref.clone();
            state.listed = listed;
            state.index = 0;
            state.phase = MemberListPhase::AwaitItem;
            Ok(MemoryPageAction::LoadReference(first))
        },
        (MemberListPhase::AwaitItem, MemoryPageEvent::Reference(loaded)) => {
            let access = match &state.access {
                Some(a) => a.clone(),
                None => {
                    return Err(ApplicationError::consistency_defect("page event does not answer the pending read"));
                },
            };
            let item_ref = state.listed.items[state.index].value_ref.clone();
            let ghost loaded_spec = loaded;
            match memory_reference_item_step(&access, &state.member_ref, loaded) {
                MemoryReferenceItemStep::Missing => {
                    state.phase = MemberListPhase::AwaitDegradation;
                    Ok(MemoryPageAction::MapMissing(access, item_ref, state.member_ref.clone()))
                },
                MemoryReferenceItemStep::InvalidMember => {
                    state.phase = MemberListPhase::AwaitDegradation;
                    Ok(MemoryPageAction::MapInvalidMember(access, item_ref, state.member_ref.clone()))
                },
                MemoryReferenceItemStep::ForbiddenExternalBody => {
                    state.phase = MemberListPhase::AwaitDegradation;
                    Ok(MemoryPageAction::MapForbiddenExternalBody(access))
                },
                MemoryReferenceItemStep::Push(view) => {
                    proof {
                        state.admitted@ = state.admitted@.push(loaded_spec.unwrap());
                    }
                    state.items.push(view);
                    let len = state.listed.items.len();
                    let next = state.index + 1;
                    if next < len {
                        state.index = next;
                        return Ok(MemoryPageAction::LoadReference(state.listed.items[next].value_ref.clone()));
                    }
                    state.phase = MemberListPhase::Done;
                    let surface = surface_for_list_success(&access, false, decision_ref, decided_at)?;
                    Ok(memory_respond(state, surface))
                },
            }
        },
        (MemberListPhase::AwaitDegradation, MemoryPageEvent::Degraded(degradation)) => {
            let surface = degraded_surface_from_material(degradation, decision_ref, decided_at);
            Ok(memory_respond(state, surface))
        },
        _ => Err(ApplicationError::consistency_defect("page event does not answer the pending read")),
    }
}

/// Where a reconciliation report read stands.
#[derive(Clone, Copy, Debug, Eq, PartialEq, Structural)]
pub enum ReportPagePhase {
    /// Waits for the maintenance scope's access.
    AwaitScope,
    /// Waits for the one requested report.
    AwaitSingleReport,
    /// Waits for the access of the one requested report.
    AwaitSingleAccess,
    /// Waits for the listed page of report refs.
    AwaitListed,
    /// Waits for the access of the current listed report.
    AwaitItemAccess,
    /// Waits for the current listed report.
    AwaitReport,
    /// Waits for the degraded material of a defective report.
    AwaitDegradation,
    /// Answered.
    Done,
}

/// Running state of a reconciliation report read: one requested report, or a
/// page of the scope's reports.
pub struct ReportPageFlow {
    /// Query answered.
    pub query_name: IdentityQueryName,
    /// Maintenance scope read.
    pub scope: MaintenanceScopeRef,
    /// The one report requested, if any.
    pub report_ref: Option<ReconciliationReportRef>,
    /// Paging request of a page read.
    pub page: Option<IdentityPublicPageRequest>,
    /// Current phase.
    pub phase: ReportPagePhase,
    /// Access of the scope.
    pub scope_access: Option<IdentityVisibilityAccessSummary>,
    /// Access of the current report.
    pub item_access: Option<IdentityVisibilityAccessSummary>,
    /// The one requested report, once loaded.
    pub loaded: Option<ReconciliationReport>,
    /// Listed page of report refs.
    pub listed: Page<IdentityVersionedRef<ReconciliationReportRef>>,
    /// Index of the current listed ref.
    pub index: usize,
    /// Hidden and redacting report accesses seen so far.
    pub gate: OperationsPageState,
    /// Views that joined the page.
    pub items: Vec<ReconciliationReportView>,
    /// The access and report behind each joined view.
    pub admitted: Ghost<Seq<(IdentityVisibilityAccessSummary, ReconciliationReport)>>,
}

/// Port result a reconciliation report read waits for.
pub enum ReportPageEvent {
    /// The scope's access, absent when it could not be resolved.
    Scope(Option<IdentityVisibilityAccessSummary>),
    /// A report, absent when it is gone.
    Report(Option<ReconciliationReport>),
    /// A report's access, absent when it could not be resolved.
    ReportAccess(Option<IdentityVisibilityAccessSummary>),
    /// The listed page of report refs.
    Listed(Page<IdentityVersionedRef<ReconciliationReportRef>>),
    /// Degraded material the mapper gave for the defect named.
    Degraded(IdentityQueryMaterialDegradationSummary),
}

/// Next thing a reconciliation report read asks of the service.
pub enum ReportPageAction {
    /// Load this report.
    LoadReport(ReconciliationReportRef),
    /// Resolve the access of this report.
    ResolveReportAccess(ReconciliationReportRef),
    /// List the scope's report refs on this repository page.
    ListReports(MaintenanceScopeRef, IdentityRepositoryPage),
    /// Map a report of another scope: the access, the report, the scope read, the report's scope.
    MapScopeMismatch(IdentityVisibilityAccessSummary, ReconciliationReportRef, MaintenanceScopeRef, MaintenanceScopeRef),
    /// Map a listed report that is gone.
    MapMissing(IdentityVisibilityAccessSummary, ReconciliationReportRef, MaintenanceScopeRef),
    /// Answer with this page.
    Respond(IdentityPageResponse<ReconciliationReportView>),
}

/// The page law of a report read: every joined view is the view of a report
/// of the scope read, under that report's own admitting access.
pub open spec fn report_items_lawful(
    scope: MaintenanceScopeRef,
    items: Seq<ReconciliationReportView>,
    admitted: Seq<(IdentityVisibilityAccessSummary, ReconciliationReport)>,
) -> bool {
    &&& items.len() == admitted.len()
    &&& forall|i: int| 0 <= i < items.len() ==> {
        &&& #[trigger] items[i] == report_view_of(admitted[i].0, admitted[i].1)
        &&& report_in_scope(admitted[i].1, scope)
        &&& access_admitted(admitted[i].0)
    }
}

/// Well-formedness of a report read between steps.
pub open spec fn report_page_wf(s: ReportPageFlow) -> bool {
    &&& s.phase != ReportPagePhase::Done ==> report_items_lawful(s.scope, s.items@, s.admitted@)
    &&& (s.phase == ReportPagePhase::AwaitScope || s.phase == ReportPagePhase::AwaitSingleReport
        || s.phase == ReportPagePhase::AwaitSingleAccess || s.phase == ReportPagePhase::AwaitListed)
        ==> s.items@.len() == 0 && s.admitted@.len() == 0 && s.gate.denied_count == 0
    &&& s.phase != ReportPagePhase::AwaitScope && s.phase != ReportPagePhase::Done ==> s.scope_access is Some
    &&& s.phase == ReportPagePhase::AwaitSingleReport ==> s.report_ref is Some
    &&& s.phase == ReportPagePhase::AwaitSingleAccess ==> s.loaded is Some && report_in_scope(s.loaded.unwrap(), s.scope)
    &&& s.gate.denied_count <= s.index
    &&& (s.phase == ReportPagePhase::AwaitItemAccess || s.phase == ReportPagePhase::AwaitReport)
        ==> s.index < s.listed.items@.len()
    &&& s.phase == ReportPagePhase::AwaitReport ==> s.item_access is Some && access_admitted(s.item_access.unwrap())
    &&& s.phase == ReportPagePhase::AwaitDegradation && s.report_ref is None ==> s.index < s.listed.items@.len()
    &&& s.phase == ReportPagePhase::AwaitDegradation && s.report_ref is Some ==> s.items@.len() == 0 && s.admitted@.len() == 0
}

/// Starts a reconciliation report read of a scope: one requested report, or
/// a page of the scope's reports.
pub fn report_page_start(
    query_name: IdentityQueryName,
    scope: MaintenanceScopeRef,
    report_ref: Option<ReconciliationReportRef>,
    page: Option<IdentityPublicPageRequest>,
) -> (r: ReportPageFlow)
    ensures
        report_page_wf(r),
        r.phase == ReportPagePhase::AwaitScope,
        r.scope == scope,
        r.report_ref == report_ref,
        r.query_name == query_name,
{
    ReportPageFlow {
        query_name,
        scope,
        report_ref,
        page,
        phase: ReportPagePhase::AwaitScope,
        scope_access: None,
        item_access: None,
        loaded: None,
        listed: Page { items: Vec::new(), next_cursor: None },
        index: 0,
        gate: operations_page_start(),
        items: Vec::new(),
        admitted: Ghost(Seq::empty()),
    }
}

fn report_respond(state: &mut ReportPageFlow, surface: IdentityQuerySurface) -> (r: ReportPageAction)
    ensures
        final(state).phase == ReportPagePhase::Done,
        final(state).admitted == old(state).admitted,
        final(state).scope == old(state).scope,
        final(state).gate == old(state).gate,
        final(state).index == old(state).index,
        r matches ReportPageAction::Respond(resp) && {
            &&& resp.surface == surface
            &&& resp.items@ == old(state).items@
            &&& resp.page_info.item_count == resp.items@.len() as u32
        },
{
    let mut items: Vec<ReconciliationReportView> = Vec::new();
    std::mem::swap(&mut items, &mut state.items);
    state.phase = ReportPagePhase::Done;
    ReportPageAction::Respond(list_page_response(state.query_name.clone(), surface, &state.listed, items))
}

fn report_empty(state: &mut ReportPageFlow, surface: IdentityQuerySurface) -> (r: ReportPageAction)
    ensures
        final(state).phase == ReportPagePhase::Done,
        final(state).admitted == old(state).admitted,
        final(state).scope == old(state).scope,
        final(state).gate == old(state).gate,
        final(state).index == old(state).index,
        r matches ReportPageAction::Respond(resp) && resp.surface == surface && resp.items@.len() == 0
            && resp.page_info.item_count == 0,
{
    state.phase = ReportPagePhase::Done;
    ReportPageAction::Respond(empty_page_response(state.query_name.clone(), surface))
}

fn report_advance(
    state: &mut ReportPageFlow,
    decision_ref: IdentityVisibilityDecisionRef,
    decided_at: IdentityTimestamp,
) -> (r: Result<ReportPageAction, ApplicationError>)
    requires
        report_items_lawful(old(state).scope, old(state).items@, old(state).admitted@),
        old(state).index < old(state).listed.items@.len(),
        old(state).scope_access is Some,
        old(state).gate.denied_count <= old(state).index + 1,
        old(state).report_ref is None,
    ensures
        report_page_wf(*final(state)),
        final(state).admitted == old(state).admitted,
        final(state).scope == old(state).scope,
        r matches Ok(ReportPageAction::Respond(resp)) ==> resp.items@ == old(state).items@
            && resp.page_info.item_count == resp.items@.len() as u32
            && final(state).phase == ReportPagePhase::Done,
        r is Ok && !(r.unwrap() is Respond) ==> {
            &&& final(state).phase == ReportPagePhase::AwaitItemAccess
            &&& r.unwrap() == ReportPageAction::ResolveReportAccess(old(state).listed.items@[old(state).index + 1].value_ref)
        },
{
    let len = state.listed.items.len();
    let next = state.index + 1;
    if next < len {
        state.index = next;
        state.phase = ReportPagePhase::AwaitItemAccess;
        state.item_access = None;
        return Ok(ReportPageAction::ResolveReportAccess(state.listed.items[next].value_ref.clone()));
    }
    let scope_access = match &state.scope_access {
        Some(a) => a.clone(),
        None => {
            return Err(ApplicationError::consistency_defect("page event does not answer the pending read"));
        },
    };
    state.index = next;
    state.phase = ReportPagePhase::Done;
    let surface = operations_page_surface(&state.gate, state.items.len() == 0, &scope_access, decision_ref, decided_at)?;
    Ok(report_respond(state, surface))
}

/// Takes one port result into a reconciliation report read and answers with
/// the next read, a degradation to map, or the page. The scope gates first.
/// One requested report must exist (else the read is missing) and belong to
/// the scope (else the mismatch is mapped); its own access then gates, and
/// an admitted report answers as a page of that one view. A page read lists
/// the scope's reports (empty: the read is empty); each is gated by its own
/// access (hidden: skipped and counted; degraded: the page stops), loaded
/// (gone: mapped), held to the scope (else mapped), and joins. Every answered
/// page counts the views it returns, each the view of a report of the scope
/// under its own admitting access.
pub fn report_page_step(
    state: &mut ReportPageFlow,
    event: ReportPageEvent,
    decision_ref: IdentityVisibilityDecisionRef,
    decided_at: IdentityTimestamp,
) -> (r: Result<ReportPageAction, ApplicationError>)
    requires
        report_page_wf(*old(state)),
    ensures
        report_page_wf(*final(state)),
        final(state).scope == old(state).scope,
        r matches Ok(ReportPageAction::Respond(resp)) ==> {
            &&& final(state).phase == ReportPagePhase::Done
            &&& report_items_lawful(final(state).scope, resp.items@, final(state).admitted@)
            &&& resp.page_info.item_count == resp.items@.len() as u32
        },
        old(state).phase == ReportPagePhase::AwaitScope && event is Scope ==> {
            let a = event->Scope_0;
            &&& a is None ==> r is Err && r->Err_0.kind == ApplicationErrorKind::InvalidRequest
            &&& a is Some && !access_admitted(a.unwrap()) ==> {
                &&& (r is Err <==> access_decision_defect(a.unwrap(), gate_disposition(a.unwrap())))
                &&& r is Ok ==> r.unwrap() is Respond && r.unwrap()->Respond_0.items@.len() == 0
                    && r.unwrap()->Respond_0.surface == access_surface(a.unwrap(), gate_disposition(a.unwrap()), None, false, decision_ref, decided_at)
            }
            &&& a is Some && access_admitted(a.unwrap()) && old(state).report_ref is Some ==>
                r == Ok::<ReportPageAction, ApplicationError>(ReportPageAction::LoadReport(old(state).report_ref.unwrap()))
            &&& a is Some && access_admitted(a.unwrap()) && old(state).report_ref is None ==>
                (r is Ok <==> old(state).page is Some)
        },
        old(state).phase == ReportPagePhase::AwaitSingleReport && event is Report ==> {
            let loaded = event->Report_0;
            &&& loaded is None ==> {
                &&& (r is Err <==> access_decision_defect(old(state).scope_access.unwrap(), admitted_disposition(old(state).scope_access.unwrap())))
                &&& r is Ok ==> r.unwrap() is Respond && r.unwrap()->Respond_0.items@.len() == 0
                    && r.unwrap()->Respond_0.surface == absent_surface(old(state).scope_access.unwrap(), true, decision_ref, decided_at)
            }
            &&& loaded is Some && !report_in_scope(loaded.unwrap(), old(state).scope) ==>
                r == Ok::<ReportPageAction, ApplicationError>(ReportPageAction::MapScopeMismatch(
                    old(state).scope_access.unwrap(), old(state).report_ref.unwrap(), old(state).scope, loaded.unwrap().maintenance_scope_ref))
            &&& loaded is Some && report_in_scope(loaded.unwrap(), old(state).scope) ==>
                r == Ok::<ReportPageAction, ApplicationError>(ReportPageAction::ResolveReportAccess(loaded.unwrap().report_ref))
        },
        old(state).phase == ReportPagePhase::AwaitSingleAccess && event is ReportAccess && event->ReportAccess_0 is Some
            && access_admitted(event->ReportAccess_0.unwrap()) ==> {
            let a = event->ReportAccess_0.unwrap();
            &&& (r is Err <==> access_decision_defect(a, admitted_disposition(a)))
            &&& r is Ok ==> r.unwrap() is Respond
                && r.unwrap()->Respond_0.items@ == seq![report_view_of(a, old(state).loaded.unwrap())]
                && r.unwrap()->Respond_0.surface == operations_surface(a, true, decision_ref, decided_at)
        },
        old(state).phase == ReportPagePhase::Done ==> r is Err && out_of_order(r->Err_0),
{
    match (state.phase, event) {
        (ReportPagePhase::AwaitScope, ReportPageEvent::Scope(access)) => {
            let access = match access {
                Some(access) => access,
                None => {
                    return Err(ApplicationError::invalid_request("reconciliation report scope visibility could not form a canonical subject"));
                },
            };
            if let Some(surface) = gate_read_surface(&access, decision_ref.clone(), decided_at)? {
                return Ok(report_empty(state, surface));
            }
            state.scope_access = Some(access);
            match &state.report_ref {
                Some(report_ref) => {
                    let report_ref = report_ref.clone();
                    state.phase = ReportPagePhase::AwaitSingleReport;
                    Ok(ReportPageAction::LoadReport(report_ref))
                },
                None => {
                    let page = match require_page(&state.page) {
                        Ok(page) => page,
                        Err(e) => {
                            state.phase = ReportPagePhase::Done;
                            return Err(e);
                        },
                    };
                    state.phase = ReportPagePhase::AwaitListed;
                    Ok(ReportPageAction::ListReports(state.scope.clone(), page))
                },
            }
        },
        (ReportPagePhase::AwaitSingleReport, ReportPageEvent::Report(loaded)) => {
            let scope_access = match &state.scope_access {
                Some(a) => a.clone(),
                None => {
                    return Err(ApplicationError::consistency_defect("page event does not answer the pending read"));
                },
            };
            let requested = match &state.report_ref {
                Some(r) => r.clone(),
                None => {
                    return Err(ApplicationError::consistency_defect("page event does not answer the pending read"));
                },
            };
            match loaded {
                None => {
                    let surface = absent_surface_from_access(&scope_access, true, decision_ref, decided_at)?;
                    Ok(report_empty(state, surface))
                },
                Some(report) => {
                    if !reconciliation_report_in_scope(&report, &state.scope) {
                        state.phase = ReportPagePhase::AwaitDegradation;
                        return Ok(ReportPageAction::MapScopeMismatch(scope_access, requested, state.scope.clone(), report.maintenance_scope_ref.clone()));
                    }
                    let report_ref = report.report_ref.clone();
                    state.loaded = Some(report);
                    state.phase = ReportPagePhase::AwaitSingleAccess;
                    Ok(ReportPageAction::ResolveReportAccess(report_ref))
                },
            }
        },
        (ReportPagePhase::AwaitSingleAccess, ReportPageEvent::ReportAccess(access)) => {
            state.phase = ReportPagePhase::Done;
            let access = match access {
                Some(access) => access,
                None => {
                    return Err(ApplicationError::invalid_request("reconciliation report item visibility could not form a canonical subject"));
                },
            };
            if let Some(surface) = gate_read_surface(&access, decision_ref.clone(), decided_at)? {
                return Ok(report_empty(state, surface));
            }
            let mut held: Option<ReconciliationReport> = None;
            std::mem::swap(&mut held, &mut state.loaded);
            let report = match held {
                Some(report) => report,
                None => {
                    return Err(ApplicationError::consistency_defect("page event does not answer the pending read"));
                },
            };
            let surface = visible_surface_for_operations(&access, true, decision_ref, decided_at)?;
            proof {
                state.admitted@ = seq![(access, report)];
            }
            let view = reconciliation_report_view(&access, report);
            Ok(ReportPageAction::Respond(single_item_page_response(state.query_name.clone(), surface, view)))
        },
        (ReportPagePhase::AwaitListed, ReportPageEvent::Listed(listed)) => {
            let scope_access = match &state.scope_access {
                Some(a) => a.clone(),
                None => {
                    return Err(ApplicationError::consistency_defect("page event does not answer the pending read"));
                },
            };
            if listed.items.len() == 0 {
                let surface = absent_surface_from_access(&scope_access, false, decision_ref, decided_at)?;
                return Ok(report_empty(state, surface));
            }
            let first = listed.items[0].value_ref.clone();
            state.listed = listed;
            state.index = 0;
            state.phase = ReportPagePhase::AwaitItemAccess;
            Ok(ReportPageAction::ResolveReportAccess(first))
        },
        (ReportPagePhase::AwaitItemAccess, ReportPageEvent::ReportAccess(access)) => {
            let access = match access {
                Some(access) => access,
                None => {
                    return Err(ApplicationError::invalid_request("reconciliation report item visibility could not form a canonical subject"));
                },
            };
            // The listed page fits a usize, which bounds the hidden count below it.
            let _listed_len = state.listed.items.len();
            if state.report_ref.is_some() {
                return Err(ApplicationError::consistency_defect("page event does not answer the pending read"));
            }
            match operations_item_gate(&mut state.gate, &access, decision_ref.clone(), decided_at)? {
                OperationsItemGate::Skip => report_advance(state, decision_ref, decided_at),
                OperationsItemGate::Stop(surface) => Ok(report_respond(state, surface)),
                OperationsItemGate::Admit => {
                    let report_ref = state.listed.items[state.index].value_ref.clone();
                    state.item_access = Some(access);
                    state.phase = ReportPagePhase::AwaitReport;
                    Ok(ReportPageAction::LoadReport(report_ref))
                },
            }
        },
        (ReportPagePhase::AwaitReport, ReportPageEvent::Report(loaded)) => {
            let access = match &state.item_access {
                Some(a) => a.clone(),
                None => {
                    return Err(ApplicationError::consistency_defect("page event does not answer the pending read"));
                },
            };
            if state.report_ref.is_some() {
                return Err(ApplicationError::consistency_defect("page event does not answer the pending read"));
            }
            let report_ref = state.listed.items[state.index].value_ref.clone();
            match loaded {
                None => {
                    state.phase = ReportPagePhase::AwaitDegradation;
                    Ok(ReportPageAction::MapMissing(access, report_ref, state.scope.clone()))
                },
                Some(report) => {
                    if !reconciliation_report_in_scope(&report, &state.scope) {
                        state.phase = ReportPagePhase::AwaitDegradation;
                        return Ok(ReportPageAction::MapScopeMismatch(access, report_ref, state.scope.clone(), report.maintenance_scope_ref.clone()));
                    }
                    proof {
                        state.admitted@ = state.admitted@.push((access, report));
                    }
                    let view = reconciliation_report_view(&access, report);
                    state.items.push(view);
                    report_advance(state, decision_ref, decided_at)
                },
            }
        },
        (ReportPagePhase::AwaitDegradation, ReportPageEvent::Degraded(degradation)) => {
            let surface = degraded_surface_from_material(degradation, decision_ref, decided_at);
            if state.report_ref.is_some() {
                Ok(report_empty(state, surface))
            } else {
                Ok(report_respond(state, surface))
            }
        },
        _ => Err(ApplicationError::consistency_defect("page event does not answer the pending read")),
    }
}

/// Where an audit trail read stands.
#[derive(Clone, Copy, Debug, Eq, PartialEq, Structural)]
pub enum AuditReadPhase {
    /// Waits for the member's audit subject.
    AwaitSubject,
    /// Waits for the audit read's access.
    AwaitAccess,
    /// Waits for the trail of the subject.
    AwaitTrail,
    /// Waits for the trail's entries.
    AwaitEntries,
    /// Waits for the degraded material of a defective trail.
    AwaitDegradation,
    /// Answered.
    Done,
}

/// Running state of an audit trail read.
pub struct AuditReadFlow {
    /// Query answered.
    pub query_name: IdentityQueryName,
    /// Member whose trail is read.
    pub member_ref: GlobalMemberRef,
    /// Audit scope read.
    pub scope: AuditScopeRef,
    /// Audit cursor to read after.
    pub cursor: Option<AuditCursorRef>,
    /// Repository page to list, until it is listed.
    pub page: Option<IdentityRepositoryPage>,
    /// Current phase.
    pub phase: AuditReadPhase,
    /// The member's audit subject.
    pub subject: Option<IdentityAuditSubjectRef>,
    /// The audit read's access.
    pub access: Option<IdentityVisibilityAccessSummary>,
    /// The trail read.
    pub trail: Option<AuditTrail>,
}

/// Port result an audit trail read waits for.
pub enum AuditReadEvent {
    /// The member's audit subject.
    Subject(IdentityAuditSubjectRef),
    /// The audit read's access, absent when it could not be resolved.
    Access(Option<IdentityVisibilityAccessSummary>),
    /// The subject's trail, absent when there is none.
    Trail(Option<AuditTrail>),
    /// The trail's entries in the scope.
    Entries(Page<AuditTrailEntry>),
    /// Degraded material the mapper gave for the defect named.
    Degraded(IdentityQueryMaterialDegradationSummary),
}

/// Next thing an audit trail read asks of the service.
pub enum AuditReadAction {
    /// Resolve the access of reading this subject in this scope.
    ResolveAccess(IdentityAuditSubjectRef, AuditScopeRef),
    /// Find the trail of this subject.
    FindTrail(IdentityAuditSubjectRef),
    /// List this trail's entries in this scope, after this cursor, on this page.
    ListEntries(AuditTrailRef, AuditScopeRef, Option<AuditCursorRef>, IdentityRepositoryPage),
    /// Map a trail of another subject or member.
    MapInvalidTrail(IdentityVisibilityAccessSummary, AuditTrailRef, AuditScopeRef),
    /// Answer with this page.
    Respond(IdentityPageResponse<AuditTrailEntryView>),
}

/// Well-formedness of an audit trail read between steps.
pub open spec fn audit_read_wf(s: AuditReadFlow) -> bool {
    &&& (s.phase == AuditReadPhase::AwaitSubject || s.phase == AuditReadPhase::AwaitAccess
        || s.phase == AuditReadPhase::AwaitTrail) ==> s.page is Some
    &&& (s.phase == AuditReadPhase::AwaitAccess || s.phase == AuditReadPhase::AwaitTrail || s.phase == AuditReadPhase::AwaitEntries)
        ==> s.subject is Some
    &&& (s.phase == AuditReadPhase::AwaitTrail || s.phase == AuditReadPhase::AwaitEntries)
        ==> s.access is Some && access_admitted(s.access.unwrap())
    &&& s.phase == AuditReadPhase::AwaitEntries ==> s.trail is Some
        && audit_trail_answers(s.trail.unwrap(), s.subject.unwrap(), s.member_ref)
}

/// Starts an audit trail read of a member in a scope; a request without
/// paging information is invalid.
pub fn audit_read_start(
    query_name: IdentityQueryName,
    member_ref: GlobalMemberRef,
    scope: AuditScopeRef,
    cursor: Option<AuditCursorRef>,
    page: &Option<IdentityPublicPageRequest>,
) -> (r: Result<AuditReadFlow, ApplicationError>)
    ensures
        r is Ok <==> page is Some,
        r matches Ok(s) ==> audit_read_wf(s) && s.phase == AuditReadPhase::AwaitSubject && s.member_ref == member_ref && s.scope == scope,
        r matches Err(e) ==> e.kind == ApplicationErrorKind::InvalidRequest,
{
    let page = require_page(page)?;
    Ok(AuditReadFlow {
        query_name,
        member_ref,
        scope,
        cursor,
        page: Some(page),
        phase: AuditReadPhase::AwaitSubject,
        subject: None,
        access: None,
        trail: None,
    })
}

/// Takes one port result into an audit trail read and answers with the next
/// read, a degradation to map, or the page. The audit access gates first; a
/// missing trail reads empty; a trail of another subject or member is mapped;
/// a trail without entries in the scope reads empty; otherwise every entry is
/// answered, in order, as its view under the trail, scope, and member, with
/// the list success surface, and the page counts them.
pub fn audit_read_step(
    state: &mut AuditReadFlow,
    event: AuditReadEvent,
    decision_ref: IdentityVisibilityDecisionRef,
    decided_at: IdentityTimestamp,
) -> (r: Result<AuditReadAction, ApplicationError>)
    requires
        audit_read_wf(*old(state)),
    ensures
        audit_read_wf(*final(state)),
        old(state).phase == AuditReadPhase::AwaitSubject && event is Subject ==>
            r == Ok::<AuditReadAction, ApplicationError>(AuditReadAction::ResolveAccess(event->Subject_0, old(state).scope)),
        old(state).phase == AuditReadPhase::AwaitAccess && event is Access ==> {
            let a = event->Access_0;
            &&& a is None ==> r is Err && r->Err_0.kind == ApplicationErrorKind::InvalidRequest
                && r->Err_0.message@ == "audit read visibility could not form a canonical subject"@
            &&& a is Some && !access_admitted(a.unwrap()) ==> {
                &&& (r is Err <==> access_decision_defect(a.unwrap(), gate_disposition(a.unwrap())))
                &&& r is Ok ==> r.unwrap() is Respond && r.unwrap()->Respond_0.items@.len() == 0
                    && r.unwrap()->Respond_0.surface == access_surface(a.unwrap(), gate_disposition(a.unwrap()), None, false, decision_ref, decided_at)
            }
            &&& a is Some && access_admitted(a.unwrap()) ==>
                r == Ok::<AuditReadAction, ApplicationError>(AuditReadAction::FindTrail(old(state).subject.unwrap()))
        },
        old(state).phase == AuditReadPhase::AwaitTrail && event is Trail ==> {
            let t = event->Trail_0;
            let a = old(state).access.unwrap();
            &&& t is None ==> {
                &&& (r is Err <==> access_decision_defect(a, admitted_disposition(a)))
                &&& r is Ok ==> r.unwrap() is Respond && r.unwrap()->Respond_0.items@.len() == 0
                    && r.unwrap()->Respond_0.surface == absent_surface(a, false, decision_ref, decided_at)
            }
            &&& t is Some && !audit_trail_answers(t.unwrap(), old(state).subject.unwrap(), old(state).member_ref) ==>
                r == Ok::<AuditReadAction, ApplicationError>(AuditReadAction::MapInvalidTrail(a, t.unwrap().audit_trail_ref, old(state).scope))
            &&& t is Some && audit_trail_answers(t.unwrap(), old(state).subject.unwrap(), old(state).member_ref) ==>
                r == Ok::<AuditReadAction, ApplicationError>(AuditReadAction::ListEntries(
                    t.unwrap().audit_trail_ref, old(state).scope, old(state).cursor, old(state).page.unwrap()))
        },
        old(state).phase == AuditReadPhase::AwaitEntries && event is Entries ==> {
            let entries = event->Entries_0;
            let a = old(state).access.unwrap();
            &&& entries.items@.len() == 0 ==> {
                &&& (r is Err <==> access_decision_defect(a, admitted_disposition(a)))
                &&& r is Ok ==> r.unwrap() is Respond && r.unwrap()->Respond_0.items@.len() == 0
                    && r.unwrap()->Respond_0.surface == absent_surface(a, false, decision_ref, decided_at)
            }
            &&& entries.items@.len() > 0 ==> {
                &&& (r is Err <==> access_decision_defect(a, admitted_disposition(a)))
                &&& r is Ok ==> {
                    let resp = r.unwrap()->Respond_0;
                    &&& r.unwrap() is Respond
                    &&& resp.surface == list_success_surface(a, false, decision_ref, decided_at)
                    &&& resp.items@.len() == entries.items@.len()
                    &&& forall|i: int| 0 <= i < entries.items@.len() ==> #[trigger] resp.items@[i]
                        == audit_entry_view_of(old(state).trail.unwrap(), old(state).scope, old(state).member_ref, entries.items@[i])
                    &&& resp.page_info.item_count == resp.items@.len() as u32
                }
            }
        },
        old(state).phase == AuditReadPhase::AwaitDegradation && event is Degraded ==> {
            &&& r is Ok && r.unwrap() is Respond
            &&& r.unwrap()->Respond_0.items@.len() == 0
            &&& r.unwrap()->Respond_0.surface == material_degraded_surface(event->Degraded_0, decision_ref, decided_at)
        },
        old(state).phase == AuditReadPhase::Done ==> r is Err && out_of_order(r->Err_0),
{
    match (state.phase, event) {
        (AuditReadPhase::AwaitSubject, AuditReadEvent::Subject(subject)) => {
            state.subject = Some(subject.clone());
            state.phase = AuditReadPhase::AwaitAccess;
            Ok(AuditReadAction::ResolveAccess(subject, state.scope.clone()))
        },
        (AuditReadPhase::AwaitAccess, AuditReadEvent::Access(access)) => {
            let access = match access {
                Some(access) => access,
                None => {
                    return Err(ApplicationError::invalid_request("audit read visibility could not form a canonical subject"));
                },
            };
            if let Some(surface) = gate_read_surface(&access, decision_ref.clone(), decided_at)? {
                state.phase = AuditReadPhase::Done;
                return Ok(AuditReadAction::Respond(empty_page_response(state.query_name.clone(), surface)));
            }
            let subject = match &state.subject {
                Some(s) => s.clone(),
                None => {
                    return Err(ApplicationError::consistency_defect("page event does not answer the pending read"));
                },
            };
            state.access = Some(access);
            state.phase = AuditReadPhase::AwaitTrail;
            Ok(AuditReadAction::FindTrail(subject))
        },
        (AuditReadPhase::AwaitTrail, AuditReadEvent::Trail(trail)) => {
            let access = match &state.access {
                Some(a) => a.clone(),
                None => {
                    return Err(ApplicationError::consistency_defect("page event does not answer the pending read"));
                },
            };
            let subject = match &state.subject {
                Some(s) => s.clone(),
                None => {
                    return Err(ApplicationError::consistency_defect("page event does not answer the pending read"));
                },
            };
            let trail = match trail {
                Some(trail) => trail,
                None => {
                    let surface = absent_surface_from_access(&access, false, decision_ref, decided_at)?;
                    state.phase = AuditReadPhase::Done;
                    return Ok(AuditReadAction::Respond(empty_page_response(state.query_name.clone(), surface)));
                },
            };
            if !audit_trail_matches(&trail, &subject, &state.member_ref) {
                state.phase = AuditReadPhase::AwaitDegradation;
                return Ok(AuditReadAction::MapInvalidTrail(access, trail.audit_trail_ref.clone(), state.scope.clone()));
            }
            let mut page: Option<IdentityRepositoryPage> = None;
            std::mem::swap(&mut page, &mut state.page);
            let page = match page {
                Some(page) => page,
                None => {
                    state.phase = AuditReadPhase::Done;
                    return Err(ApplicationError::consistency_defect("page event does not answer the pending read"));
                },
            };
            let trail_ref = trail.audit_trail_ref.clone();
            state.trail = Some(trail);
            state.phase = AuditReadPhase::AwaitEntries;
            Ok(AuditReadAction::ListEntries(trail_ref, state.scope.clone(), state.cursor.clone(), page))
        },
        (AuditReadPhase::AwaitEntries, AuditReadEvent::Entries(entries)) => {
            state.phase = AuditReadPhase::Done;
            let access = match &state.access {
                Some(a) => a.clone(),
                None => {
                    return Err(ApplicationError::consistency_defect("page event does not answer the pending read"));
                },
            };
            if entries.items.len() == 0 {
                let surface = absent_surface_from_access(&access, false, decision_ref, decided_at)?;
                return Ok(AuditReadAction::Respond(empty_page_response(state.query_name.clone(), surface)));
            }
            let trail = match &state.trail {
                Some(t) => t,
                None => {
                    return Err(ApplicationError::consistency_defect("page event does not answer the pending read"));
                },
            };
            let items = audit_entry_views(trail, &state.scope, &state.member_ref, &entries.items);
            let surface = surface_for_list_success(&access, false, decision_ref, decided_at)?;
            Ok(AuditReadAction::Respond(list_page_response(state.query_name.clone(), surface, &entries, items)))
        },
        (AuditReadPhase::AwaitDegradation, AuditReadEvent::Degraded(degradation)) => {
            state.phase = AuditReadPhase::Done;
            let surface = degraded_surface_from_material(degradation, decision_ref, decided_at);
            Ok(AuditReadAction::Respond(empty_page_response(state.query_name.clone(), surface)))
        },
        _ => Err(ApplicationError::consistency_defect("page event does not answer the pending read")),
    }
}

/// Where a reference resolution state read stands.
#[derive(Clone, Copy, Debug, Eq, PartialEq, Structural)]
pub enum ReferenceReadPhase {
    /// Waits for the read's access.
    AwaitAccess,
    /// Waits for the stored state.
    AwaitState,
    /// Waits for the state's typed sidecar refs.
    AwaitSidecars,
    /// Waits for degraded material.
    AwaitDegradation,
    /// Answered.
    Done,
}

/// Running state of a reference resolution state read.
pub struct ReferenceReadFlow {
    /// Query answered.
    pub query_name: IdentityQueryName,
    /// External reference read.
    pub reference: ExternalReferenceRef,
    /// Owner the reader expects, if any.
    pub expected_owner: Option<IdentityReferenceOwnerRef>,
    /// Current phase.
    pub phase: ReferenceReadPhase,
    /// The read's access.
    pub access: Option<IdentityVisibilityAccessSummary>,
    /// The stored state, once loaded.
    pub state: Option<ReferenceResolutionState>,
}

/// Port result a reference resolution state read waits for.
pub enum ReferenceReadEvent {
    /// The read's access, absent when it could not be resolved.
    Access(Option<IdentityVisibilityAccessSummary>),
    /// The stored state, absent when none is stored.
    State(Option<ReferenceResolutionState>),
    /// The state's typed sidecar refs, or the error reading them gave.
    Sidecars(Result<ExternalReferenceTypedSidecarRefs, ApplicationError>),
    /// Degraded material the mapper gave for the defect named.
    Degraded(IdentityQueryMaterialDegradationSummary),
}

/// Next thing a reference resolution state read asks of the service.
pub enum ReferenceReadAction {
    /// Load the stored state of this reference.
    LoadState(ExternalReferenceRef),
    /// Load the typed sidecar refs of this reference.
    LoadSidecars(ExternalReferenceRef),
    /// Map a state of another owner: the access, the reference, the expected owner, the stored owner.
    MapOwnerMismatch(IdentityVisibilityAccessSummary, ExternalReferenceRef, IdentityReferenceOwnerRef, IdentityReferenceOwnerRef),
    /// Map unavailable sidecar refs of this reference and state.
    MapSidecarDegraded(IdentityVisibilityAccessSummary, ExternalReferenceRef, Option<ReferenceResolutionStateRef>),
    /// Answer with this response.
    Respond(IdentityQueryResponse<ReferenceResolutionStateView>),
}

/// Well-formedness of a reference resolution state read between steps.
pub open spec fn reference_read_wf(s: ReferenceReadFlow) -> bool {
    &&& (s.phase == ReferenceReadPhase::AwaitState || s.phase == ReferenceReadPhase::AwaitSidecars
        || s.phase == ReferenceReadPhase::AwaitDegradation) ==> s.access is Some && access_admitted(s.access.unwrap())
    &&& s.phase == ReferenceReadPhase::AwaitSidecars ==> s.state is Some
}

/// Starts a reference resolution state read.
pub fn reference_read_start(
    query_name: IdentityQueryName,
    reference: ExternalReferenceRef,
    expected_owner: Option<IdentityReferenceOwnerRef>,
) -> (r: ReferenceReadFlow)
    ensures
        reference_read_wf(r),
        r.phase == ReferenceReadPhase::AwaitAccess,
        r.reference == reference,
        r.expected_owner == expected_owner,
{
    ReferenceReadFlow { query_name, reference, expected_owner, phase: ReferenceReadPhase::AwaitAccess, access: None, state: None }
}

/// Takes one port result into a reference resolution state read and answers
/// with the next read, a degradation to map, or the response. The access
/// gates first; a missing state reads missing; a state of another reference
/// is a consistency defect; a state of another owner than the expected one is
/// mapped; sidecar refs that are unavailable are mapped, any other error of
/// reading them is returned; otherwise the state is answered with its view
/// and the surface of its resolution state.
pub fn reference_read_step(
    state: &mut ReferenceReadFlow,
    event: ReferenceReadEvent,
    decision_ref: IdentityVisibilityDecisionRef,
    decided_at: IdentityTimestamp,
) -> (r: Result<ReferenceReadAction, ApplicationError>)
    requires
        reference_read_wf(*old(state)),
    ensures
        reference_read_wf(*final(state)),
        old(state).phase == ReferenceReadPhase::AwaitAccess && event is Access ==> {
            let a = event->Access_0;
            &&& a is None ==> r is Err && r->Err_0.kind == ApplicationErrorKind::InvalidRequest
            &&& a is Some && !access_admitted(a.unwrap()) ==> {
                &&& (r is Err <==> access_decision_defect(a.unwrap(), gate_disposition(a.unwrap())))
                &&& r is Ok ==> r.unwrap() == ReferenceReadAction::Respond(bodiless_response(old(state).query_name,
                    access_surface(a.unwrap(), gate_disposition(a.unwrap()), None, false, decision_ref, decided_at)))
            }
            &&& a is Some && access_admitted(a.unwrap()) ==>
                r == Ok::<ReferenceReadAction, ApplicationError>(ReferenceReadAction::LoadState(old(state).reference))
        },
        old(state).phase == ReferenceReadPhase::AwaitState && event is State ==> {
            let st = event->State_0;
            let a = old(state).access.unwrap();
            &&& st is None ==> {
                &&& (r is Err <==> access_decision_defect(a, admitted_disposition(a)))
                &&& r is Ok ==> r.unwrap() == ReferenceReadAction::Respond(bodiless_response(old(state).query_name,
                    absent_surface(a, true, decision_ref, decided_at)))
            }
            &&& st is Some && !same_external_reference(st.unwrap().external_reference_ref, old(state).reference) ==>
                r is Err && r->Err_0.kind == ApplicationErrorKind::ConsistencyDefect
            &&& st is Some && same_external_reference(st.unwrap().external_reference_ref, old(state).reference)
                && old(state).expected_owner is Some && !same_reference_owner(old(state).expected_owner.unwrap(), st.unwrap().reference_owner_ref)
                ==> r == Ok::<ReferenceReadAction, ApplicationError>(ReferenceReadAction::MapOwnerMismatch(
                    a, st.unwrap().external_reference_ref, old(state).expected_owner.unwrap(), st.unwrap().reference_owner_ref))
            &&& st is Some && same_external_reference(st.unwrap().external_reference_ref, old(state).reference)
                && !(old(state).expected_owner is Some && !same_reference_owner(old(state).expected_owner.unwrap(), st.unwrap().reference_owner_ref))
                ==> r == Ok::<ReferenceReadAction, ApplicationError>(ReferenceReadAction::LoadSidecars(st.unwrap().external_reference_ref))
        },
        old(state).phase == ReferenceReadPhase::AwaitSidecars && event is Sidecars ==> {
            let sc = event->Sidecars_0;
            let a = old(state).access.unwrap();
            let st = old(state).state.unwrap();
            &&& sc is Err && sc->Err_0.kind == ApplicationErrorKind::DependencyUnavailable ==>
                r == Ok::<ReferenceReadAction, ApplicationError>(ReferenceReadAction::MapSidecarDegraded(
                    a, st.external_reference_ref, Some(st.resolution_state_ref)))
            &&& sc is Err && sc->Err_0.kind != ApplicationErrorKind::DependencyUnavailable ==> r == Err::<ReferenceReadAction, ApplicationError>(sc->Err_0)
            &&& sc is Ok ==> {
                &&& (st.state_kind != ReferenceResolutionStateKind::Stale ==> (r is Err <==> access_decision_defect(a, admitted_disposition(a))))
                &&& r is Ok ==> r.unwrap() == ReferenceReadAction::Respond(IdentityQueryResponse {
                    query_name: old(state).query_name,
                    surface: reference_state_surface_of(a, st.state_kind, decision_ref, decided_at),
                    body: Some(reference_view_of(a, st, sc->Ok_0)),
                })
            }
        },
        old(state).phase == ReferenceReadPhase::AwaitDegradation && event is Degraded ==>
            r == Ok::<ReferenceReadAction, ApplicationError>(ReferenceReadAction::Respond(bodiless_response(old(state).query_name,
                material_degraded_surface(event->Degraded_0, decision_ref, decided_at)))),
        old(state).phase == ReferenceReadPhase::Done ==> r is Err && out_of_order(r->Err_0),
{
    match (state.phase, event) {
        (ReferenceReadPhase::AwaitAccess, ReferenceReadEvent::Access(access)) => {
            let access = match access {
                Some(access) => access,
                None => {
                    return Err(ApplicationError::invalid_request("reference state read visibility could not form a canonical subject"));
                },
            };
            if let Some(surface) = gate_read_surface(&access, decision_ref.clone(), decided_at)? {
                state.phase = ReferenceReadPhase::Done;
                return Ok(ReferenceReadAction::Respond(IdentityQueryResponse { query_name: state.query_name.clone(), surface, body: None }));
            }
            state.access = Some(access);
            state.phase = ReferenceReadPhase::AwaitState;
            Ok(ReferenceReadAction::LoadState(state.reference.clone()))
        },
        (ReferenceReadPhase::AwaitState, ReferenceReadEvent::State(loaded)) => {
            let access = match &state.access {
                Some(a) => a.clone(),
                None => {
                    return Err(ApplicationError::consistency_defect("page event does not answer the pending read"));
                },
            };
            let loaded = match loaded {
                Some(loaded) => loaded,
                None => {
                    let surface = absent_surface_from_access(&access, true, decision_ref, decided_at)?;
                    state.phase = ReferenceReadPhase::Done;
                    return Ok(ReferenceReadAction::Respond(IdentityQueryResponse { query_name: state.query_name.clone(), surface, body: None }));
                },
            };
            match reference_state_precheck(&state.reference, &state.expected_owner, &loaded)? {
                ReferenceStatePrecheck::OwnerMismatch => {
                    let expected = match &state.expected_owner {
                        Some(o) => o.clone(),
                        None => {
                            return Err(ApplicationError::consistency_defect("page event does not answer the pending read"));
                        },
                    };
                    state.phase = ReferenceReadPhase::AwaitDegradation;
                    Ok(ReferenceReadAction::MapOwnerMismatch(access, loaded.external_reference_ref.clone(), expected, loaded.reference_owner_ref.clone()))
                },
                ReferenceStatePrecheck::Proceed => {
                    let reference = loaded.external_reference_ref.clone();
                    state.state = Some(loaded);
                    state.phase = ReferenceReadPhase::AwaitSidecars;
                    Ok(ReferenceReadAction::LoadSidecars(reference))
                },
            }
        },
        (ReferenceReadPhase::AwaitSidecars, ReferenceReadEvent::Sidecars(sidecars)) => {
            let access = match &state.access {
                Some(a) => a.clone(),
                None => {
                    return Err(ApplicationError::consistency_defect("page event does not answer the pending read"));
                },
            };
            let loaded = match &state.state {
                Some(st) => st,
                None => {
                    return Err(ApplicationError::consistency_defect("page event does not answer the pending read"));
                },
            };
            match sidecars {
                Err(error) => {
                    if error.is_dependency_unavailable() {
                        let action = ReferenceReadAction::MapSidecarDegraded(
                            access,
                            loaded.external_reference_ref.clone(),
                            Some(loaded.resolution_state_ref.clone()),
                        );
                        state.phase = ReferenceReadPhase::AwaitDegradation;
                        Ok(action)
                    } else {
                        state.phase = ReferenceReadPhase::Done;
                        Err(error)
                    }
                },
                Ok(sidecars) => {
                    let body = reference_resolution_state_view(&access, loaded, sidecars);
                    let surface = reference_state_surface(&access, loaded.state_kind, decision_ref, decided_at)?;
                    state.phase = ReferenceReadPhase::Done;
                    Ok(ReferenceReadAction::Respond(IdentityQueryResponse { query_name: state.query_name.clone(), surface, body: Some(body) }))
                },
            }
        },
        (ReferenceReadPhase::AwaitDegradation, ReferenceReadEvent::Degraded(degradation)) => {
            state.phase = ReferenceReadPhase::Done;
            Ok(ReferenceReadAction::Respond(material_degraded_response(state.query_name.clone(), degradation, decision_ref, decided_at)))
        },
        _ => Err(ApplicationError::consistency_defect("page event does not answer the pending read")),
    }
}

/// Where a role capability summary read stands.
#[derive(Clone, Copy, Debug, Eq, PartialEq, Structural)]
pub enum RoleReadPhase {
    /// Waits for the member-level access.
    AwaitAccess,
    /// Waits to learn whether the member exists.
    AwaitMember,
    /// Waits for the summary.
    AwaitSummary,
    /// Waits for the summary's source snapshot.
    AwaitSnapshot,
    /// Waits for the stable lookup of the member summary view.
    AwaitViewRef,
    /// Waits for the member summary view.
    AwaitView,
    /// Waits for degraded material.
    AwaitDegradation,
    /// Answered.
    Done,
}

/// Running state of a role capability summary read.
pub struct RoleReadFlow {
    /// Query answered.
    pub query_name: IdentityQueryName,
    /// Member read.
    pub member_ref: GlobalMemberRef,
    /// Summary requested, when one is named; else the member's current one.
    pub summary_ref: Option<RoleCapabilitySummaryRef>,
    /// Current phase.
    pub phase: RoleReadPhase,
    /// Member-level access.
    pub access: Option<IdentityVisibilityAccessSummary>,
    /// Loaded summary.
    pub summary: Option<RoleCapabilitySummary>,
    /// Loaded snapshot.
    pub snapshot: Option<RoleCapabilitySourceSnapshot>,
    /// Member summary view ref the stable lookup named.
    pub view_ref: Option<MemberSummaryViewRef>,
    /// Joined member summary view.
    pub view: Option<MemberSummaryView>,
    /// Body kept for a read whose surface is degraded material.
    pub pending_body: Option<RoleCapabilitySummaryView>,
}

/// Port result a role capability summary read waits for.
pub enum RoleReadEvent {
    /// The member-level access, absent when it could not be resolved.
    Access(Option<IdentityVisibilityAccessSummary>),
    /// Whether the member exists.
    Member(bool),
    /// The summary, absent when none is stored.
    Summary(Option<RoleCapabilitySummary>),
    /// The summary's source snapshot, absent when none is stored.
    Snapshot(Option<RoleCapabilitySourceSnapshot>),
    /// The member summary view ref of the stable lookup, absent when there is none.
    ViewRef(Option<MemberSummaryViewRef>),
    /// The member summary view, absent when its material is gone.
    View(Option<MemberSummaryView>),
    /// Degraded material the mapper gave for the defect named.
    Degraded(IdentityQueryMaterialDegradationSummary),
}

/// Next thing a role capability summary read asks of the service.
pub enum RoleReadAction {
    /// Learn whether this member exists.
    CheckMember(GlobalMemberRef),
    /// Load this summary.
    LoadSummary(RoleCapabilitySummaryRef),
    /// Find this member's current summary.
    FindCurrentSummary(GlobalMemberRef),
    /// Load this source snapshot.
    LoadSnapshot(RoleCapabilitySourceSnapshotRef),
    /// Find the member summary view of this member in this scope.
    FindViewRef(GlobalMemberRef, VisibilityScopeRef),
    /// Load this member summary view.
    LoadView(MemberSummaryViewRef),
    /// Map material that may not be read, under this access.
    MapForbidden(IdentityVisibilityAccessSummary, IdentityReadMaterialMarker),
    /// Map a named view whose material is gone: access, member, scope.
    MapViewMissing(IdentityVisibilityAccessSummary, GlobalMemberRef, VisibilityScopeRef),
    /// Map a view of another member: access, view, member.
    MapViewInvalidOwner(IdentityVisibilityAccessSummary, MemberSummaryViewRef, GlobalMemberRef),
    /// Map a view of another scope: access, view, scope.
    MapViewScopeMismatch(IdentityVisibilityAccessSummary, MemberSummaryViewRef, VisibilityScopeRef),
    /// Map a stale view without freshness marker: access, view, member, scope.
    MapMissingFreshness(IdentityVisibilityAccessSummary, MemberSummaryViewRef, GlobalMemberRef, VisibilityScopeRef),
    /// Answer with this response.
    Respond(IdentityQueryResponse<RoleCapabilitySummaryView>),
}

/// Whether the summary read may be answered with a body: an admitting
/// access, a summary of the member, and its snapshot.
pub open spec fn role_read_ready(s: RoleReadFlow) -> bool {
    &&& s.access is Some && access_admitted(s.access.unwrap())
    &&& s.summary is Some && s.summary.unwrap().member_ref.member_id@ == s.member_ref.member_id@
    &&& s.snapshot is Some
}

/// Well-formedness of a role capability summary read between steps.
pub open spec fn role_read_wf(s: RoleReadFlow) -> bool {
    &&& (s.phase != RoleReadPhase::AwaitAccess && s.phase != RoleReadPhase::Done) ==> s.access is Some && access_admitted(s.access.unwrap())
    &&& s.phase == RoleReadPhase::AwaitSnapshot ==> s.summary is Some && s.summary.unwrap().member_ref.member_id@ == s.member_ref.member_id@
    &&& (s.phase == RoleReadPhase::AwaitViewRef || s.phase == RoleReadPhase::AwaitView) ==> role_read_ready(s)
    &&& s.phase == RoleReadPhase::AwaitView ==> s.view_ref is Some
    &&& s.pending_body is Some ==> s.phase == RoleReadPhase::AwaitDegradation
    &&& s.pending_body is Some ==> role_read_ready(s)
        && role_view_fields_of(s.access.unwrap(), s.summary.unwrap(), s.snapshot.unwrap(), s.view, s.pending_body.unwrap())
}

/// Starts a role capability summary read of a member, for a named summary or
/// the member's current one.
pub fn role_read_start(query_name: IdentityQueryName, member_ref: GlobalMemberRef, summary_ref: Option<RoleCapabilitySummaryRef>) -> (r: RoleReadFlow)
    ensures
        role_read_wf(r),
        r.phase == RoleReadPhase::AwaitAccess,
        r.member_ref == member_ref,
        r.summary_ref == summary_ref,
{
    RoleReadFlow {
        query_name,
        member_ref,
        summary_ref,
        phase: RoleReadPhase::AwaitAccess,
        access: None,
        summary: None,
        snapshot: None,
        view_ref: None,
        view: None,
        pending_body: None,
    }
}

fn role_finish(
    state: &mut RoleReadFlow,
    view: Option<MemberSummaryView>,
    decision_ref: IdentityVisibilityDecisionRef,
    decided_at: IdentityTimestamp,
) -> (r: Result<RoleReadAction, ApplicationError>)
    requires
        role_read_ready(*old(state)),
        old(state).pending_body is None,
    ensures
        role_read_wf(*final(state)),
        final(state).member_ref == old(state).member_ref,
        final(state).access == old(state).access,
        final(state).summary == old(state).summary,
        final(state).snapshot == old(state).snapshot,
        r matches Ok(RoleReadAction::Respond(resp)) ==> (final(state).phase == RoleReadPhase::Done && resp.body is Some
            && role_view_fields_of(final(state).access.unwrap(), final(state).summary.unwrap(), final(state).snapshot.unwrap(),
                final(state).view, resp.body.unwrap())),
{
    state.view = view;
    state.phase = RoleReadPhase::Done;
    let access = match &state.access {
        Some(a) => a.clone(),
        None => {
            return Err(ApplicationError::consistency_defect("page event does not answer the pending read"));
        },
    };
    let (body, step) = match (&state.summary, &state.snapshot) {
        (Some(summary), Some(snapshot)) => {
            let body = role_capability_summary_view(&access, summary, snapshot, &state.view);
            let step = role_capability_surface(&access, summary, snapshot, &state.view, decision_ref, decided_at)?;
            (body, step)
        },
        _ => {
            return Err(ApplicationError::consistency_defect("page event does not answer the pending read"));
        },
    };
    match step {
        TruthSurfaceStep::Surface(surface) => {
            Ok(RoleReadAction::Respond(IdentityQueryResponse { query_name: state.query_name.clone(), surface, body: Some(body) }))
        },
        TruthSurfaceStep::MissingFreshness => {
            let (view_ref, member_ref) = match &state.view {
                Some(v) => (v.view_ref.clone(), v.member_ref.clone()),
                None => {
                    return Err(ApplicationError::consistency_defect("page event does not answer the pending read"));
                },
            };
            state.pending_body = Some(body);
            state.phase = RoleReadPhase::AwaitDegradation;
            Ok(RoleReadAction::MapMissingFreshness(access.clone(), view_ref, member_ref, access.scope_ref.clone()))
        },
    }
}

/// Takes one port result into a role capability summary read and answers
/// with the next read, a degradation to map, or the response. The member
/// access gates first; a missing member or summary reads missing; a summary
/// of another member, or one without its snapshot, is mapped as material
/// that may not be read; the member summary view is then joined when the
/// stable lookup names one (a defective view is mapped); the read answers
/// with the summary's view and the role capability surface, or, when the
/// joined view is stale without freshness marker, with that view and the
/// surface of the degraded material. Every body answered is the view of a
/// summary of the member under an admitting access.
pub fn role_read_step(
    state: &mut RoleReadFlow,
    event: RoleReadEvent,
    decision_ref: IdentityVisibilityDecisionRef,
    decided_at: IdentityTimestamp,
) -> (r: Result<RoleReadAction, ApplicationError>)
    requires
        role_read_wf(*old(state)),
    ensures
        role_read_wf(*final(state)),
        final(state).member_ref == old(state).member_ref,
        r matches Ok(RoleReadAction::Respond(resp)) ==> (resp.body is Some ==> (final(state).phase == RoleReadPhase::Done
            && role_read_ready(*final(state))
            && role_view_fields_of(final(state).access.unwrap(), final(state).summary.unwrap(), final(state).snapshot.unwrap(),
                final(state).view, resp.body.unwrap()))),
        old(state).phase == RoleReadPhase::AwaitAccess && event is Access ==> {
            let a = event->Access_0;
            &&& a is None ==> r is Err && member_access_unresolved(r->Err_0)
            &&& a is Some && !access_admitted(a.unwrap()) ==> {
                &&& (r is Err <==> access_decision_defect(a.unwrap(), gate_disposition(a.unwrap())))
                &&& r is Ok ==> r.unwrap() == RoleReadAction::Respond(bodiless_response(old(state).query_name,
                    access_surface(a.unwrap(), gate_disposition(a.unwrap()), None, false, decision_ref, decided_at)))
            }
            &&& a is Some && access_admitted(a.unwrap()) ==>
                r == Ok::<RoleReadAction, ApplicationError>(RoleReadAction::CheckMember(old(state).member_ref))
        },
        old(state).phase == RoleReadPhase::AwaitMember && event is Member ==> {
            let a = old(state).access.unwrap();
            &&& !event->Member_0 ==> {
                &&& (r is Err <==> access_decision_defect(a, admitted_disposition(a)))
                &&& r is Ok ==> r.unwrap() == RoleReadAction::Respond(bodiless_response(old(state).query_name,
                    absent_surface(a, true, decision_ref, decided_at)))
            }
            &&& event->Member_0 && old(state).summary_ref is Some ==>
                r == Ok::<RoleReadAction, ApplicationError>(RoleReadAction::LoadSummary(old(state).summary_ref.unwrap()))
            &&& event->Member_0 && old(state).summary_ref is None ==>
                r == Ok::<RoleReadAction, ApplicationError>(RoleReadAction::FindCurrentSummary(old(state).member_ref))
        },
        old(state).phase == RoleReadPhase::AwaitSummary && event is Summary ==> {
            let loaded = event->Summary_0;
            let a = old(state).access.unwrap();
            &&& loaded is None ==> {
                &&& (r is Err <==> access_decision_defect(a, admitted_disposition(a)))
                &&& r is Ok ==> r.unwrap() == RoleReadAction::Respond(bodiless_response(old(state).query_name,
                    absent_surface(a, true, decision_ref, decided_at)))
            }
            &&& loaded is Some && loaded.unwrap().member_ref.member_id@ != old(state).member_ref.member_id@ ==>
                r == Ok::<RoleReadAction, ApplicationError>(RoleReadAction::MapForbidden(a,
                    IdentityReadMaterialMarker { material_kind: IdentityReadMaterialKind::SafeSummaryRefs, source_ref: None }))
            &&& loaded is Some && loaded.unwrap().member_ref.member_id@ == old(state).member_ref.member_id@ ==>
                r == Ok::<RoleReadAction, ApplicationError>(RoleReadAction::LoadSnapshot(loaded.unwrap().source_snapshot_ref))
        },
        old(state).phase == RoleReadPhase::AwaitSnapshot && event is Snapshot ==> {
            let a = old(state).access.unwrap();
            &&& event->Snapshot_0 is None ==> r == Ok::<RoleReadAction, ApplicationError>(RoleReadAction::MapForbidden(a,
                IdentityReadMaterialMarker { material_kind: IdentityReadMaterialKind::SafeSummaryRefs, source_ref: None }))
            &&& event->Snapshot_0 is Some ==>
                r == Ok::<RoleReadAction, ApplicationError>(RoleReadAction::FindViewRef(old(state).member_ref, a.scope_ref))
        },
        old(state).phase == RoleReadPhase::AwaitViewRef && event is ViewRef && event->ViewRef_0 is Some ==>
            r == Ok::<RoleReadAction, ApplicationError>(RoleReadAction::LoadView(event->ViewRef_0.unwrap())),
        old(state).phase == RoleReadPhase::AwaitView && event is View ==> {
            let a = old(state).access.unwrap();
            let vr = old(state).view_ref.unwrap();
            &&& member_summary_slice_step_of(a, old(state).member_ref, event->View_0) == MemberSummarySliceStep::ViewMissing ==>
                r == Ok::<RoleReadAction, ApplicationError>(RoleReadAction::MapViewMissing(a, old(state).member_ref, a.scope_ref))
            &&& member_summary_slice_step_of(a, old(state).member_ref, event->View_0) == MemberSummarySliceStep::ViewInvalidOwner ==>
                r == Ok::<RoleReadAction, ApplicationError>(RoleReadAction::MapViewInvalidOwner(a, vr, old(state).member_ref))
            &&& member_summary_slice_step_of(a, old(state).member_ref, event->View_0) == MemberSummarySliceStep::ViewScopeMismatch ==>
                r == Ok::<RoleReadAction, ApplicationError>(RoleReadAction::MapViewScopeMismatch(a, vr, a.scope_ref))
        },
        old(state).phase == RoleReadPhase::AwaitDegradation && event is Degraded ==> {
            &&& r is Ok && r.unwrap() is Respond
            &&& r.unwrap()->Respond_0.surface == material_degraded_surface(event->Degraded_0, decision_ref, decided_at)
            &&& r.unwrap()->Respond_0.body == old(state).pending_body
        },
        old(state).phase == RoleReadPhase::Done ==> r is Err && out_of_order(r->Err_0),
{
    match (state.phase, event) {
        (RoleReadPhase::AwaitAccess, RoleReadEvent::Access(access)) => {
            let access = match access {
                Some(access) => access,
                None => {
                    return Err(ApplicationError::invalid_request("member-scoped query visibility could not form a canonical subject"));
                },
            };
            if let Some(surface) = gate_read_surface(&access, decision_ref.clone(), decided_at)? {
                state.phase = RoleReadPhase::Done;
                return Ok(RoleReadAction::Respond(IdentityQueryResponse { query_name: state.query_name.clone(), surface, body: None }));
            }
            state.access = Some(access);
            state.phase = RoleReadPhase::AwaitMember;
            Ok(RoleReadAction::CheckMember(state.member_ref.clone()))
        },
        (RoleReadPhase::AwaitMember, RoleReadEvent::Member(found)) => {
            let access = match &state.access {
                Some(a) => a.clone(),
                None => {
                    return Err(ApplicationError::consistency_defect("page event does not answer the pending read"));
                },
            };
            if !found {
                let surface = absent_surface_from_access(&access, true, decision_ref, decided_at)?;
                state.phase = RoleReadPhase::Done;
                return Ok(RoleReadAction::Respond(IdentityQueryResponse { query_name: state.query_name.clone(), surface, body: None }));
            }
            state.phase = RoleReadPhase::AwaitSummary;
            match &state.summary_ref {
                Some(summary_ref) => Ok(RoleReadAction::LoadSummary(summary_ref.clone())),
                None => Ok(RoleReadAction::FindCurrentSummary(state.member_ref.clone())),
            }
        },
        (RoleReadPhase::AwaitSummary, RoleReadEvent::Summary(loaded)) => {
            let access = match &state.access {
                Some(a) => a.clone(),
                None => {
                    return Err(ApplicationError::consistency_defect("page event does not answer the pending read"));
                },
            };
            let summary = match loaded {
                Some(summary) => summary,
                None => {
                    let surface = absent_surface_from_access(&access, true, decision_ref, decided_at)?;
                    state.phase = RoleReadPhase::Done;
                    return Ok(RoleReadAction::Respond(IdentityQueryResponse { query_name: state.query_name.clone(), surface, body: None }));
                },
            };
            if !summary.belongs_to(state.member_ref.clone()) {
                state.phase = RoleReadPhase::AwaitDegradation;
                return Ok(RoleReadAction::MapForbidden(access, IdentityReadMaterialMarker::new(IdentityReadMaterialKind::SafeSummaryRefs, None)));
            }
            let snapshot_ref = summary.source_snapshot_ref.clone();
            state.summary = Some(summary);
            state.phase = RoleReadPhase::AwaitSnapshot;
            Ok(RoleReadAction::LoadSnapshot(snapshot_ref))
        },
        (RoleReadPhase::AwaitSnapshot, RoleReadEvent::Snapshot(loaded)) => {
            let access = match &state.access {
                Some(a) => a.clone(),
                None => {
                    return Err(ApplicationError::consistency_defect("page event does not answer the pending read"));
                },
            };
            match loaded {
                None => {
                    state.phase = RoleReadPhase::AwaitDegradation;
                    Ok(RoleReadAction::MapForbidden(access, IdentityReadMaterialMarker::new(IdentityReadMaterialKind::SafeSummaryRefs, None)))
                },
                Some(snapshot) => {
                    state.snapshot = Some(snapshot);
                    state.phase = RoleReadPhase::AwaitViewRef;
                    Ok(RoleReadAction::FindViewRef(state.member_ref.clone(), access.scope_ref.clone()))
                },
            }
        },
        (RoleReadPhase::AwaitViewRef, RoleReadEvent::ViewRef(view_ref)) => {
            match view_ref {
                None => role_finish(state, None, decision_ref, decided_at),
                Some(view_ref) => {
                    state.view_ref = Some(view_ref.clone());
                    state.phase = RoleReadPhase::AwaitView;
                    Ok(RoleReadAction::LoadView(view_ref))
                },
            }
        },
        (RoleReadPhase::AwaitView, RoleReadEvent::View(loaded)) => {
            let access = match &state.access {
                Some(a) => a.clone(),
                None => {
                    return Err(ApplicationError::consistency_defect("page event does not answer the pending read"));
                },
            };
            let view_ref = match &state.view_ref {
                Some(v) => v.clone(),
                None => {
                    return Err(ApplicationError::consistency_defect("page event does not answer the pending read"));
                },
            };
            match member_summary_slice_step(&access, &state.member_ref, loaded) {
                MemberSummarySliceStep::Slice(view) => role_finish(state, Some(view), decision_ref, decided_at),
                MemberSummarySliceStep::ViewMissing => {
                    state.phase = RoleReadPhase::AwaitDegradation;
                    Ok(RoleReadAction::MapViewMissing(access.clone(), state.member_ref.clone(), access.scope_ref.clone()))
                },
                MemberSummarySliceStep::ViewInvalidOwner => {
                    state.phase = RoleReadPhase::AwaitDegradation;
                    Ok(RoleReadAction::MapViewInvalidOwner(access, view_ref, state.member_ref.clone()))
                },
                MemberSummarySliceStep::ViewScopeMismatch => {
                    state.phase = RoleReadPhase::AwaitDegradation;
                    Ok(RoleReadAction::MapViewScopeMismatch(access.clone(), view_ref, access.scope_ref.clone()))
                },
                MemberSummarySliceStep::ForbiddenMaterial(marker) => {
                    state.phase = RoleReadPhase::AwaitDegradation;
                    Ok(RoleReadAction::MapForbidden(access, marker))
                },
            }
        },
        (RoleReadPhase::AwaitDegradation, RoleReadEvent::Degraded(degradation)) => {
            let surface = degraded_surface_from_material(degradation, decision_ref, decided_at);
            let mut body: Option<RoleCapabilitySummaryView> = None;
            std::mem::swap(&mut body, &mut state.pending_body);
            state.phase = RoleReadPhase::Done;
            proof {
                if body is Some {
                    assert(role_read_ready(*old(state)));
                }
            }
            Ok(RoleReadAction::Respond(IdentityQueryResponse { query_name: state.query_name.clone(), surface, body }))
        },
        _ => Err(ApplicationError::consistency_defect("page event does not answer the pending read")),
    }
}


/// Where a member anchor read stands.
#[derive(Clone, Copy, Debug, Eq, PartialEq, Structural)]
pub enum AnchorReadPhase {
    /// Waits for the member access.
    AwaitAccess,
    /// Waits for the member truth.
    AwaitMember,
    /// Waits for the stable lookup of the member summary view.
    AwaitViewRef,
    /// Waits for the member summary view.
    AwaitView,
    /// Waits for the degraded material of a defect.
    AwaitDegradation,
    /// Answered.
    Done,
}

/// Running state of a member anchor read.
pub struct AnchorReadFlow {
    /// Query answered.
    pub query_name: IdentityQueryName,
    /// Member read.
    pub member_ref: GlobalMemberRef,
    /// Current phase.
    pub phase: AnchorReadPhase,
    /// Admitting member access, once resolved.
    pub access: Option<IdentityVisibilityAccessSummary>,
    /// Member truth, once loaded.
    pub member: Option<GlobalMember>,
    /// Stable ref of the joined view, once looked up.
    pub view_ref: Option<MemberSummaryViewRef>,
    /// Joined view, once loaded and checked.
    pub view: Option<MemberSummaryView>,
    /// Body kept while a stale view's missing freshness is mapped.
    pub pending_body: Option<GlobalMemberAnchorView>,
}

/// Port result a member anchor read waits for.
pub enum AnchorReadEvent {
    /// The member access, absent when it could not be resolved.
    Access(Option<IdentityVisibilityAccessSummary>),
    /// The member truth, absent when there is none.
    Member(Option<GlobalMember>),
    /// The view ref the stable lookup names, if any.
    ViewRef(Option<MemberSummaryViewRef>),
    /// The view, absent when its material is gone.
    View(Option<MemberSummaryView>),
    /// Degraded material the mapper gave for the defect named.
    Degraded(IdentityQueryMaterialDegradationSummary),
}

/// Next thing a member anchor read asks of the service.
pub enum AnchorReadAction {
    /// Load the truth of this member.
    LoadMember(GlobalMemberRef),
    /// Look up the member summary view of the member under this scope.
    FindViewRef(GlobalMemberRef, VisibilityScopeRef),
    /// Load this view.
    LoadView(MemberSummaryViewRef),
    /// Map view material that may not be read.
    MapForbidden(IdentityVisibilityAccessSummary, IdentityReadMaterialMarker),
    /// Map a looked-up view whose material is gone.
    MapViewMissing(IdentityVisibilityAccessSummary, GlobalMemberRef, VisibilityScopeRef),
    /// Map a view of another member.
    MapViewInvalidOwner(IdentityVisibilityAccessSummary, MemberSummaryViewRef, GlobalMemberRef),
    /// Map a view of another scope.
    MapViewScopeMismatch(IdentityVisibilityAccessSummary, MemberSummaryViewRef, VisibilityScopeRef),
    /// Map a stale view without freshness marker.
    MapMissingFreshness(IdentityVisibilityAccessSummary, MemberSummaryViewRef, GlobalMemberRef, VisibilityScopeRef),
    /// Answer with this response.
    Respond(IdentityQueryResponse<GlobalMemberAnchorView>),
}

/// Whether a member anchor read has what its body is built from.
pub open spec fn anchor_read_ready(s: AnchorReadFlow) -> bool {
    &&& s.access is Some && access_admitted(s.access.unwrap())
    &&& s.member is Some
}

/// Well-formedness of a member anchor read between steps.
pub open spec fn anchor_read_wf(s: AnchorReadFlow) -> bool {
    &&& (s.phase != AnchorReadPhase::AwaitAccess && s.phase != AnchorReadPhase::Done) ==> s.access is Some && access_admitted(s.access.unwrap())
    &&& (s.phase == AnchorReadPhase::AwaitViewRef || s.phase == AnchorReadPhase::AwaitView) ==> anchor_read_ready(s)
    &&& s.phase == AnchorReadPhase::AwaitView ==> s.view_ref is Some
    &&& s.pending_body is Some ==> s.phase == AnchorReadPhase::AwaitDegradation
    &&& s.pending_body is Some ==> anchor_read_ready(s) && s.pending_body.unwrap() == anchor_view_of(s.access.unwrap(), s.member.unwrap(), s.view)
}

/// Starts a member anchor read.
pub fn anchor_read_start(query_name: IdentityQueryName, member_ref: GlobalMemberRef) -> (r: AnchorReadFlow)
    ensures
        anchor_read_wf(r),
        r.phase == AnchorReadPhase::AwaitAccess,
        r.member_ref == member_ref,
        r.query_name == query_name,
{
    AnchorReadFlow {
        query_name,
        member_ref,
        phase: AnchorReadPhase::AwaitAccess,
        access: None,
        member: None,
        view_ref: None,
        view: None,
        pending_body: None,
    }
}

fn anchor_finish(
    state: &mut AnchorReadFlow,
    view: Option<MemberSummaryView>,
    decision_ref: IdentityVisibilityDecisionRef,
    decided_at: IdentityTimestamp,
) -> (r: Result<AnchorReadAction, ApplicationError>)
    requires
        anchor_read_ready(*old(state)),
        old(state).pending_body is None,
    ensures
        anchor_read_wf(*final(state)),
        final(state).member_ref == old(state).member_ref,
        final(state).access == old(state).access,
        final(state).member == old(state).member,
        final(state).view == view,
        r matches Ok(AnchorReadAction::Respond(resp)) ==> final(state).phase == AnchorReadPhase::Done
            && resp.body == Some(anchor_view_of(final(state).access.unwrap(), final(state).member.unwrap(), final(state).view)),
{
    state.view = view;
    state.phase = AnchorReadPhase::Done;
    let access = match &state.access {
        Some(a) => a.clone(),
        None => {
            return Err(ApplicationError::consistency_defect("page event does not answer the pending read"));
        },
    };
    let body = match &state.member {
        Some(truth) => member_anchor_view(&access, truth, &state.view),
        None => {
            return Err(ApplicationError::consistency_defect("page event does not answer the pending read"));
        },
    };
    let found = state.view.is_some();
    match surface_for_truth_query(&access, &state.view, found, decision_ref, decided_at)? {
        TruthSurfaceStep::Surface(surface) => {
            Ok(AnchorReadAction::Respond(IdentityQueryResponse { query_name: state.query_name.clone(), surface, body: Some(body) }))
        },
        TruthSurfaceStep::MissingFreshness => {
            let (view_ref, member_ref) = match &state.view {
                Some(v) => (v.view_ref.clone(), v.member_ref.clone()),
                None => {
                    return Err(ApplicationError::consistency_defect("page event does not answer the pending read"));
                },
            };
            state.pending_body = Some(body);
            state.phase = AnchorReadPhase::AwaitDegradation;
            Ok(AnchorReadAction::MapMissingFreshness(access.clone(), view_ref, member_ref, access.scope_ref.clone()))
        },
    }
}

/// Takes one port result into a member anchor read and answers with the
/// next read, a degradation to map, or the response. The member access
/// gates first; a missing member reads missing; the member summary view is then joined when
/// the stable lookup names one (a defective view is mapped and answered
/// without body); the read answers with the body and the truth-read surface,
/// or, when the joined view is stale without freshness marker, with the body
/// and the surface of the degraded material. Every body answered is built
/// from the member's truth under an admitting access and the joined view.
pub fn anchor_read_step(
    state: &mut AnchorReadFlow,
    event: AnchorReadEvent,
    decision_ref: IdentityVisibilityDecisionRef,
    decided_at: IdentityTimestamp,
) -> (r: Result<AnchorReadAction, ApplicationError>)
    requires
        anchor_read_wf(*old(state)),
    ensures
        anchor_read_wf(*final(state)),
        final(state).member_ref == old(state).member_ref,
        // Every body answered is built from the truth under an admitting access.
        r matches Ok(AnchorReadAction::Respond(resp)) ==> (resp.body is Some ==> anchor_read_ready(*final(state))
            && resp.body.unwrap() == anchor_view_of(final(state).access.unwrap(), final(state).member.unwrap(), final(state).view)),
        // The member access gates first.
        old(state).phase == AnchorReadPhase::AwaitAccess && event is Access ==> {
            let a = event->Access_0;
            &&& a is None ==> r is Err && member_access_unresolved(r->Err_0)
            &&& a is Some && !access_admitted(a.unwrap()) ==> {
                &&& (r is Err <==> access_decision_defect(a.unwrap(), gate_disposition(a.unwrap())))
                &&& r is Ok ==> r.unwrap() == AnchorReadAction::Respond(bodiless_response(old(state).query_name,
                    access_surface(a.unwrap(), gate_disposition(a.unwrap()), None, false, decision_ref, decided_at)))
            }
            &&& a is Some && access_admitted(a.unwrap()) ==>
                r == Ok::<AnchorReadAction, ApplicationError>(AnchorReadAction::LoadMember(old(state).member_ref))
        },
        old(state).phase == AnchorReadPhase::AwaitMember && event is Member ==> {
            let a = old(state).access.unwrap();
            &&& event->Member_0 is None ==> {
                &&& (r is Err <==> access_decision_defect(a, admitted_disposition(a)))
                &&& r is Ok ==> r.unwrap() == AnchorReadAction::Respond(bodiless_response(old(state).query_name,
                    absent_surface(a, true, decision_ref, decided_at)))
            }
            &&& event->Member_0 is Some ==>
                r == Ok::<AnchorReadAction, ApplicationError>(AnchorReadAction::FindViewRef(old(state).member_ref, a.scope_ref))
        },
        old(state).phase == AnchorReadPhase::AwaitViewRef && event is ViewRef && event->ViewRef_0 is Some ==>
            r == Ok::<AnchorReadAction, ApplicationError>(AnchorReadAction::LoadView(event->ViewRef_0.unwrap())),
        old(state).phase == AnchorReadPhase::AwaitView && event is View ==> {
            let a = old(state).access.unwrap();
            let vr = old(state).view_ref.unwrap();
            &&& member_summary_slice_step_of(a, old(state).member_ref, event->View_0) == MemberSummarySliceStep::ViewMissing ==>
                r == Ok::<AnchorReadAction, ApplicationError>(AnchorReadAction::MapViewMissing(a, old(state).member_ref, a.scope_ref))
            &&& member_summary_slice_step_of(a, old(state).member_ref, event->View_0) == MemberSummarySliceStep::ViewInvalidOwner ==>
                r == Ok::<AnchorReadAction, ApplicationError>(AnchorReadAction::MapViewInvalidOwner(a, vr, old(state).member_ref))
            &&& member_summary_slice_step_of(a, old(state).member_ref, event->View_0) == MemberSummarySliceStep::ViewScopeMismatch ==>
                r == Ok::<AnchorReadAction, ApplicationError>(AnchorReadAction::MapViewScopeMismatch(a, vr, a.scope_ref))
        },
        old(state).phase == AnchorReadPhase::AwaitDegradation && event is Degraded ==> {
            &&& r is Ok && r.unwrap() is Respond
            &&& r.unwrap()->Respond_0.surface == material_degraded_surface(event->Degraded_0, decision_ref, decided_at)
            &&& r.unwrap()->Respond_0.body == old(state).pending_body
        },
        old(state).phase == AnchorReadPhase::Done ==> r is Err && out_of_order(r->Err_0),
{
    match (state.phase, event) {
        (AnchorReadPhase::AwaitAccess, AnchorReadEvent::Access(access)) => {
            let access = match access {
                Some(access) => access,
                None => {
                    return Err(ApplicationError::invalid_request("member-scoped query visibility could not form a canonical subject"));
                },
            };
            if let Some(surface) = gate_read_surface(&access, decision_ref.clone(), decided_at)? {
                state.phase = AnchorReadPhase::Done;
                return Ok(AnchorReadAction::Respond(IdentityQueryResponse { query_name: state.query_name.clone(), surface, body: None }));
            }
            state.access = Some(access);
            state.phase = AnchorReadPhase::AwaitMember;
            Ok(AnchorReadAction::LoadMember(state.member_ref.clone()))
        },
        (AnchorReadPhase::AwaitMember, AnchorReadEvent::Member(loaded)) => {
            let access = match &state.access {
                Some(a) => a.clone(),
                None => {
                    return Err(ApplicationError::consistency_defect("page event does not answer the pending read"));
                },
            };
            match loaded {
                None => {
                    let surface = absent_surface_from_access(&access, true, decision_ref, decided_at)?;
                    state.phase = AnchorReadPhase::Done;
                    Ok(AnchorReadAction::Respond(IdentityQueryResponse { query_name: state.query_name.clone(), surface, body: None }))
                },
                Some(member) => {
                    state.member = Some(member);
                    state.phase = AnchorReadPhase::AwaitViewRef;
                    Ok(AnchorReadAction::FindViewRef(state.member_ref.clone(), access.scope_ref.clone()))
                },
            }
        },
        (AnchorReadPhase::AwaitViewRef, AnchorReadEvent::ViewRef(view_ref)) => {
            match view_ref {
                None => anchor_finish(state, None, decision_ref, decided_at),
                Some(view_ref) => {
                    state.view_ref = Some(view_ref.clone());
                    state.phase = AnchorReadPhase::AwaitView;
                    Ok(AnchorReadAction::LoadView(view_ref))
                },
            }
        },
        (AnchorReadPhase::AwaitView, AnchorReadEvent::View(loaded)) => {
            let access = match &state.access {
                Some(a) => a.clone(),
                None => {
                    return Err(ApplicationError::consistency_defect("page event does not answer the pending read"));
                },
            };
            let view_ref = match &state.view_ref {
                Some(v) => v.clone(),
                None => {
                    return Err(ApplicationError::consistency_defect("page event does not answer the pending read"));
                },
            };
            match member_summary_slice_step(&access, &state.member_ref, loaded) {
                MemberSummarySliceStep::Slice(view) => anchor_finish(state, Some(view), decision_ref, decided_at),
                MemberSummarySliceStep::ViewMissing => {
                    state.phase = AnchorReadPhase::AwaitDegradation;
                    Ok(AnchorReadAction::MapViewMissing(access.clone(), state.member_ref.clone(), access.scope_ref.clone()))
                },
                MemberSummarySliceStep::ViewInvalidOwner => {
                    state.phase = AnchorReadPhase::AwaitDegradation;
                    Ok(AnchorReadAction::MapViewInvalidOwner(access, view_ref, state.member_ref.clone()))
                },
                MemberSummarySliceStep::ViewScopeMismatch => {
                    state.phase = AnchorReadPhase::AwaitDegradation;
                    Ok(AnchorReadAction::MapViewScopeMismatch(access.clone(), view_ref, access.scope_ref.clone()))
                },
                MemberSummarySliceStep::ForbiddenMaterial(marker) => {
                    state.phase = AnchorReadPhase::AwaitDegradation;
                    Ok(AnchorReadAction::MapForbidden(access, marker))
                },
            }
        },
        (AnchorReadPhase::AwaitDegradation, AnchorReadEvent::Degraded(degradation)) => {
            let surface = degraded_surface_from_material(degradation, decision_ref, decided_at);
            let mut body: Option<GlobalMemberAnchorView> = None;
            std::mem::swap(&mut body, &mut state.pending_body);
            state.phase = AnchorReadPhase::Done;
            proof {
                if body is Some {
                    assert(anchor_read_ready(*old(state)));
                }
            }
            Ok(AnchorReadAction::Respond(IdentityQueryResponse { query_name: state.query_name.clone(), surface, body }))
        },
        _ => Err(ApplicationError::consistency_defect("page event does not answer the pending read")),
    }
}

/// Where a member lifecycle read stands.
#[derive(Clone, Copy, Debug, Eq, PartialEq, Structural)]
pub enum LifecycleReadPhase {
    /// Waits for the member access.
    AwaitAccess,
    /// Waits for the member truth.
    AwaitMember,
    /// Waits for the member's lifecycle truth.
    AwaitLifecycle,
    /// Waits for the stable lookup of the member summary view.
    AwaitViewRef,
    /// Waits for the member summary view.
    AwaitView,
    /// Waits for the degraded material of a defect.
    AwaitDegradation,
    /// Answered.
    Done,
}

/// Running state of a member lifecycle read.
pub struct LifecycleReadFlow {
    /// Query answered.
    pub query_name: IdentityQueryName,
    /// Member read.
    pub member_ref: GlobalMemberRef,
    /// Current phase.
    pub phase: LifecycleReadPhase,
    /// Admitting member access, once resolved.
    pub access: Option<IdentityVisibilityAccessSummary>,
    /// Lifecycle truth, once loaded.
    pub lifecycle: Option<GlobalLifecycleState>,
    /// Stable ref of the joined view, once looked up.
    pub view_ref: Option<MemberSummaryViewRef>,
    /// Joined view, once loaded and checked.
    pub view: Option<MemberSummaryView>,
    /// Body kept while a stale view's missing freshness is mapped.
    pub pending_body: Option<GlobalLifecycleSummaryView>,
}

/// Port result a member lifecycle read waits for.
pub enum LifecycleReadEvent {
    /// The member access, absent when it could not be resolved.
    Access(Option<IdentityVisibilityAccessSummary>),
    /// Whether the member exists.
    Member(bool),
    /// The member's lifecycle truth, absent when there is none.
    Lifecycle(Option<GlobalLifecycleState>),
    /// The view ref the stable lookup names, if any.
    ViewRef(Option<MemberSummaryViewRef>),
    /// The view, absent when its material is gone.
    View(Option<MemberSummaryView>),
    /// Degraded material the mapper gave for the defect named.
    Degraded(IdentityQueryMaterialDegradationSummary),
}

/// Next thing a member lifecycle read asks of the service.
pub enum LifecycleReadAction {
    /// Check that this member exists.
    CheckMember(GlobalMemberRef),
    /// Load the lifecycle truth of this member.
    LoadLifecycle(GlobalMemberRef),
    /// Look up the member summary view of the member under this scope.
    FindViewRef(GlobalMemberRef, VisibilityScopeRef),
    /// Load this view.
    LoadView(MemberSummaryViewRef),
    /// Map view material that may not be read.
    MapForbidden(IdentityVisibilityAccessSummary, IdentityReadMaterialMarker),
    /// Map a looked-up view whose material is gone.
    MapViewMissing(IdentityVisibilityAccessSummary, GlobalMemberRef, VisibilityScopeRef),
    /// Map a view of another member.
    MapViewInvalidOwner(IdentityVisibilityAccessSummary, MemberSummaryViewRef, GlobalMemberRef),
    /// Map a view of another scope.
    MapViewScopeMismatch(IdentityVisibilityAccessSummary, MemberSummaryViewRef, VisibilityScopeRef),
    /// Map a stale view without freshness marker.
    MapMissingFreshness(IdentityVisibilityAccessSummary, MemberSummaryViewRef, GlobalMemberRef, VisibilityScopeRef),
    /// Answer with this response.
    Respond(IdentityQueryResponse<GlobalLifecycleSummaryView>),
}

/// Whether a member lifecycle read has what its body is built from.
pub open spec fn lifecycle_read_ready(s: LifecycleReadFlow) -> bool {
    &&& s.access is Some && access_admitted(s.access.unwrap())
    &&& s.lifecycle is Some
}

/// Well-formedness of a member lifecycle read between steps.
pub open spec fn lifecycle_read_wf(s: LifecycleReadFlow) -> bool {
    &&& (s.phase != LifecycleReadPhase::AwaitAccess && s.phase != LifecycleReadPhase::Done) ==> s.access is Some && access_admitted(s.access.unwrap())
    &&& (s.phase == LifecycleReadPhase::AwaitViewRef || s.phase == LifecycleReadPhase::AwaitView) ==> lifecycle_read_ready(s)
    &&& s.phase == LifecycleReadPhase::AwaitView ==> s.view_ref is Some
    &&& s.pending_body is Some ==> s.phase == LifecycleReadPhase::AwaitDegradation
    &&& s.pending_body is Some ==> lifecycle_read_ready(s) && s.pending_body.unwrap() == lifecycle_view_of(s.access.unwrap(), s.member_ref, s.lifecycle.unwrap(), s.view)
}

/// Starts a member lifecycle read.
pub fn lifecycle_read_start(query_name: IdentityQueryName, member_ref: GlobalMemberRef) -> (r: LifecycleReadFlow)
    ensures
        lifecycle_read_wf(r),
        r.phase == LifecycleReadPhase::AwaitAccess,
        r.member_ref == member_ref,
        r.query_name == query_name,
{
    LifecycleReadFlow {
        query_name,
        member_ref,
        phase: LifecycleReadPhase::AwaitAccess,
        access: None,
        lifecycle: None,
        view_ref: None,
        view: None,
        pending_body: None,
    }
}

fn lifecycle_finish(
    state: &mut LifecycleReadFlow,
    view: Option<MemberSummaryView>,
    decision_ref: IdentityVisibilityDecisionRef,
    decided_at: IdentityTimestamp,
) -> (r: Result<LifecycleReadAction, ApplicationError>)
    requires
        lifecycle_read_ready(*old(state)),
        old(state).pending_body is None,
    ensures
        lifecycle_read_wf(*final(state)),
        final(state).member_ref == old(state).member_ref,
        final(state).access == old(state).access,
        final(state).lifecycle == old(state).lifecycle,
        final(state).view == view,
        r matches Ok(LifecycleReadAction::Respond(resp)) ==> final(state).phase == LifecycleReadPhase::Done
            && resp.body == Some(lifecycle_view_of(final(state).access.unwrap(), final(state).member_ref, final(state).lifecycle.unwrap(), final(state).view)),
{
    state.view = view;
    state.phase = LifecycleReadPhase::Done;
    let access = match &state.access {
        Some(a) => a.clone(),
        None => {
            return Err(ApplicationError::consistency_defect("page event does not answer the pending read"));
        },
    };
    let body = match &state.lifecycle {
        Some(truth) => lifecycle_summary_view(&access, &state.member_ref, truth, &state.view),
        None => {
            return Err(ApplicationError::consistency_defect("page event does not answer the pending read"));
        },
    };
    let found = state.view.is_some();
    match surface_for_truth_query(&access, &state.view, found, decision_ref, decided_at)? {
        TruthSurfaceStep::Surface(surface) => {
            Ok(LifecycleReadAction::Respond(IdentityQueryResponse { query_name: state.query_name.clone(), surface, body: Some(body) }))
        },
        TruthSurfaceStep::MissingFreshness => {
            let (view_ref, member_ref) = match &state.view {
                Some(v) => (v.view_ref.clone(), v.member_ref.clone()),
                None => {
                    return Err(ApplicationError::consistency_defect("page event does not answer the pending read"));
                },
            };
            state.pending_body = Some(body);
            state.phase = LifecycleReadPhase::AwaitDegradation;
            Ok(LifecycleReadAction::MapMissingFreshness(access.clone(), view_ref, member_ref, access.scope_ref.clone()))
        },
    }
}

/// Takes one port result into a member lifecycle read and answers with the
/// next read, a degradation to map, or the response. The member access
/// gates first; a missing member, or one without lifecycle truth, reads missing; the member summary view is then joined when
/// the stable lookup names one (a defective view is mapped and answered
/// without body); the read answers with the body and the truth-read surface,
/// or, when the joined view is stale without freshness marker, with the body
/// and the surface of the degraded material. Every body answered is built
/// from the member's truth under an admitting access and the joined view.
pub fn lifecycle_read_step(
    state: &mut LifecycleReadFlow,
    event: LifecycleReadEvent,
    decision_ref: IdentityVisibilityDecisionRef,
    decided_at: IdentityTimestamp,
) -> (r: Result<LifecycleReadAction, ApplicationError>)
    requires
        lifecycle_read_wf(*old(state)),
    ensures
        lifecycle_read_wf(*final(state)),
        final(state).member_ref == old(state).member_ref,
        // Every body answered is built from the truth under an admitting access.
        r matches Ok(LifecycleReadAction::Respond(resp)) ==> (resp.body is Some ==> lifecycle_read_ready(*final(state))
            && resp.body.unwrap() == lifecycle_view_of(final(state).access.unwrap(), final(state).member_ref, final(state).lifecycle.unwrap(), final(state).view)),
        // The member access gates first.
        old(state).phase == LifecycleReadPhase::AwaitAccess && event is Access ==> {
            let a = event->Access_0;
            &&& a is None ==> r is Err && member_access_unresolved(r->Err_0)
            &&& a is Some && !access_admitted(a.unwrap()) ==> {
                &&& (r is Err <==> access_decision_defect(a.unwrap(), gate_disposition(a.unwrap())))
                &&& r is Ok ==> r.unwrap() == LifecycleReadAction::Respond(bodiless_response(old(state).query_name,
                    access_surface(a.unwrap(), gate_disposition(a.unwrap()), None, false, decision_ref, decided_at)))
            }
            &&& a is Some && access_admitted(a.unwrap()) ==>
                r == Ok::<LifecycleReadAction, ApplicationError>(LifecycleReadAction::CheckMember(old(state).member_ref))
        },
        old(state).phase == LifecycleReadPhase::AwaitMember && event is Member ==> {
            let a = old(state).access.unwrap();
            &&& !event->Member_0 ==> {
                &&& (r is Err <==> access_decision_defect(a, admitted_disposition(a)))
                &&& r is Ok ==> r.unwrap() == LifecycleReadAction::Respond(bodiless_response(old(state).query_name,
                    absent_surface(a, true, decision_ref, decided_at)))
            }
            &&& event->Member_0 ==>
                r == Ok::<LifecycleReadAction, ApplicationError>(LifecycleReadAction::LoadLifecycle(old(state).member_ref))
        },
        old(state).phase == LifecycleReadPhase::AwaitLifecycle && event is Lifecycle ==> {
            let a = old(state).access.unwrap();
            &&& event->Lifecycle_0 is None ==> {
                &&& (r is Err <==> access_decision_defect(a, admitted_disposition(a)))
                &&& r is Ok ==> r.unwrap() == LifecycleReadAction::Respond(bodiless_response(old(state).query_name,
                    absent_surface(a, true, decision_ref, decided_at)))
            }
            &&& event->Lifecycle_0 is Some ==>
                r == Ok::<LifecycleReadAction, ApplicationError>(LifecycleReadAction::FindViewRef(old(state).member_ref, a.scope_ref))
        },
        old(state).phase == LifecycleReadPhase::AwaitViewRef && event is ViewRef && event->ViewRef_0 is Some ==>
            r == Ok::<LifecycleReadAction, ApplicationError>(LifecycleReadAction::LoadView(event->ViewRef_0.unwrap())),
        old(state).phase == LifecycleReadPhase::AwaitView && event is View ==> {
            let a = old(state).access.unwrap();
            let vr = old(state).view_ref.unwrap();
            &&& member_summary_slice_step_of(a, old(state).member_ref, event->View_0) == MemberSummarySliceStep::ViewMissing ==>
                r == Ok::<LifecycleReadAction, ApplicationError>(LifecycleReadAction::MapViewMissing(a, old(state).member_ref, a.scope_ref))
            &&& member_summary_slice_step_of(a, old(state).member_ref, event->View_0) == MemberSummarySliceStep::ViewInvalidOwner ==>
                r == Ok::<LifecycleReadAction, ApplicationError>(LifecycleReadAction::MapViewInvalidOwner(a, vr, old(state).member_ref))
            &&& member_summary_slice_step_of(a, old(state).member_ref, event->View_0) == MemberSummarySliceStep::ViewScopeMismatch ==>
                r == Ok::<LifecycleReadAction, ApplicationError>(LifecycleReadAction::MapViewScopeMismatch(a, vr, a.scope_ref))
        },
        old(state).phase == LifecycleReadPhase::AwaitDegradation && event is Degraded ==> {
            &&& r is Ok && r.unwrap() is Respond
            &&& r.unwrap()->Respond_0.surface == material_degraded_surface(event->Degraded_0, decision_ref, decided_at)
            &&& r.unwrap()->Respond_0.body == old(state).pending_body
        },
        old(state).phase == LifecycleReadPhase::Done ==> r is Err && out_of_order(r->Err_0),
{
    match (state.phase, event) {
        (LifecycleReadPhase::AwaitAccess, LifecycleReadEvent::Access(access)) => {
            let access = match access {
                Some(access) => access,
                None => {
                    return Err(ApplicationError::invalid_request("member-scoped query visibility could not form a canonical subject"));
                },
            };
            if let Some(surface) = gate_read_surface(&access, decision_ref.clone(), decided_at)? {
                state.phase = LifecycleReadPhase::Done;
                return Ok(LifecycleReadAction::Respond(IdentityQueryResponse { query_name: state.query_name.clone(), surface, body: None }));
            }
            state.access = Some(access);
            state.phase = LifecycleReadPhase::AwaitMember;
            Ok(LifecycleReadAction::CheckMember(state.member_ref.clone()))
        },
        (LifecycleReadPhase::AwaitMember, LifecycleReadEvent::Member(found)) => {
            let access = match &state.access {
                Some(a) => a.clone(),
                None => {
                    return Err(ApplicationError::consistency_defect("page event does not answer the pending read"));
                },
            };
            if !found {
                let surface = absent_surface_from_access(&access, true, decision_ref, decided_at)?;
                state.phase = LifecycleReadPhase::Done;
                return Ok(LifecycleReadAction::Respond(IdentityQueryResponse { query_name: state.query_name.clone(), surface, body: None }));
            }
            state.phase = LifecycleReadPhase::AwaitLifecycle;
            Ok(LifecycleReadAction::LoadLifecycle(state.member_ref.clone()))
        },
        (LifecycleReadPhase::AwaitLifecycle, LifecycleReadEvent::Lifecycle(loaded)) => {
            let access = match &state.access {
                Some(a) => a.clone(),
                None => {
                    return Err(ApplicationError::consistency_defect("page event does not answer the pending read"));
                },
            };
            match loaded {
                None => {
                    let surface = absent_surface_from_access(&access, true, decision_ref, decided_at)?;
                    state.phase = LifecycleReadPhase::Done;
                    Ok(LifecycleReadAction::Respond(IdentityQueryResponse { query_name: state.query_name.clone(), surface, body: None }))
                },
                Some(lifecycle) => {
                    state.lifecycle = Some(lifecycle);
                    state.phase = LifecycleReadPhase::AwaitViewRef;
                    Ok(LifecycleReadAction::FindViewRef(state.member_ref.clone(), access.scope_ref.clone()))
                },
            }
        },
        (LifecycleReadPhase::AwaitViewRef, LifecycleReadEvent::ViewRef(view_ref)) => {
            match view_ref {
                None => lifecycle_finish(state, None, decision_ref, decided_at),
                Some(view_ref) => {
                    state.view_ref = Some(view_ref.clone());
                    state.phase = LifecycleReadPhase::AwaitView;
                    Ok(LifecycleReadAction::LoadView(view_ref))
                },
            }
        },
        (LifecycleReadPhase::AwaitView, LifecycleReadEvent::View(loaded)) => {
            let access = match &state.access {
                Some(a) => a.clone(),
                None => {
                    return Err(ApplicationError::consistency_defect("page event does not answer the pending read"));
                },
            };
            let view_ref = match &state.view_ref {
                Some(v) => v.clone(),
                None => {
                    return Err(ApplicationError::consistency_defect("page event does not answer the pending read"));
                },
            };
            match member_summary_slice_step(&access, &state.member_ref, loaded) {
                MemberSummarySliceStep::Slice(view) => lifecycle_finish(state, Some(view), decision_ref, decided_at),
                MemberSummarySliceStep::ViewMissing => {
                    state.phase = LifecycleReadPhase::AwaitDegradation;
                    Ok(LifecycleReadAction::MapViewMissing(access.clone(), state.member_ref.clone(), access.scope_ref.clone()))
                },
                MemberSummarySliceStep::ViewInvalidOwner => {
                    state.phase = LifecycleReadPhase::AwaitDegradation;
                    Ok(LifecycleReadAction::MapViewInvalidOwner(access, view_ref, state.member_ref.clone()))
                },
                MemberSummarySliceStep::ViewScopeMismatch => {
                    state.phase = LifecycleReadPhase::AwaitDegradation;
                    Ok(LifecycleReadAction::MapViewScopeMismatch(access.clone(), view_ref, access.scope_ref.clone()))
                },
                MemberSummarySliceStep::ForbiddenMaterial(marker) => {
                    state.phase = LifecycleReadPhase::AwaitDegradation;
                    Ok(LifecycleReadAction::MapForbidden(access, marker))
                },
            }
        },
        (LifecycleReadPhase::AwaitDegradation, LifecycleReadEvent::Degraded(degradation)) => {
            let surface = degraded_surface_from_material(degradation, decision_ref, decided_at);
            let mut body: Option<GlobalLifecycleSummaryView> = None;
            std::mem::swap(&mut body, &mut state.pending_body);
            state.phase = LifecycleReadPhase::Done;
            proof {
                if body is Some {
                    assert(lifecycle_read_ready(*old(state)));
                }
            }
            Ok(LifecycleReadAction::Respond(IdentityQueryResponse { query_name: state.query_name.clone(), surface, body }))
        },
        _ => Err(ApplicationError::consistency_defect("page event does not answer the pending read")),
    }
}

} // verus!
