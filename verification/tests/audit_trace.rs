use quantalithos_identity::actor::{ActorKind, ActorRef};
use quantalithos_identity::contracts::refs::{
    AuditScopeRef, AuditTrailRef, ExternalSourceRef, GlobalMemberId, GlobalMemberRef, IdentityAuditSubjectRef,
    IdentityChangeKind, IdentityChangeKindRef, IdentityReadSurfaceKind, IdentitySourceOwner, IdentitySourceRef,
    IdentityTimestamp, IdentityTraceRecordRef, IdentityTraceSubjectRef, IdentityTruthCursor, VisibilityResultRef,
    AuditCursorRef,
};
use quantalithos_identity::contracts::views::{IdentityReadMaterialKind, IdentityReadMaterialMarker};
use quantalithos_identity::domain::audit::{AuditTrail, AuditTrailEntry};
use quantalithos_identity::domain::errors::IdentityDomainError;
use quantalithos_identity::domain::trace::IdentityTraceRecord;

fn timestamp(value: i64) -> IdentityTimestamp {
    IdentityTimestamp::from_clock(value).expect("valid timestamp")
}

fn member_ref() -> GlobalMemberRef {
    GlobalMemberRef::from_id(GlobalMemberId::new("member-1".to_owned()).expect("valid member id"))
}

fn source(token: &str) -> IdentitySourceRef {
    IdentitySourceRef::new(IdentitySourceOwner::Identity, ExternalSourceRef::new(token.to_owned()).expect("valid external source ref"))
        .expect("valid source ref")
}

fn entry(trace: &str) -> AuditTrailEntry {
    AuditTrailEntry {
        trace_record_ref: IdentityTraceRecordRef::new(trace.to_owned()),
        change_kind_ref: IdentityChangeKindRef::new(IdentityChangeKind::LifecycleChanged, None),
        visibility_result_ref: VisibilityResultRef::new("entry-result-1".to_owned()),
        occurred_at: timestamp(1),
    }
}

fn trace(material: IdentityReadMaterialKind) -> Result<IdentityTraceRecord, IdentityDomainError> {
    IdentityTraceRecord::from_accepted_change(
        IdentityTraceRecordRef::new("trace-1".to_owned()),
        member_ref(),
        IdentityTraceSubjectRef::new("trace-subject-1".to_owned()),
        IdentityAuditSubjectRef::new("audit-subject-1".to_owned()),
        IdentityChangeKindRef::new(IdentityChangeKind::LifecycleChanged, None),
        IdentityTruthCursor::new("cursor-1".to_owned()),
        None,
        Some(source("source-1")),
        None,
        Some(ActorRef::new("actor-1", ActorKind::Human)),
        IdentityReadMaterialMarker::new(material, None),
        timestamp(1),
    )
}

#[test]
fn accepted_write_trail_is_found_and_contains_its_entry() {
    let trail = AuditTrail::from_accepted_write(
        AuditTrailRef::new("trail-1".to_owned()),
        IdentityAuditSubjectRef::new("audit-subject-1".to_owned()),
        Some(member_ref()),
        AuditScopeRef::new("scope-1".to_owned()),
        entry("trace-1"),
        VisibilityResultRef::new("result-1".to_owned()),
        timestamp(2),
    )
    .expect("trail");
    assert_eq!(trail.read_surface_kind, IdentityReadSurfaceKind::Found);
    assert!(trail.contains_trace(&IdentityTraceRecordRef::new("trace-1".to_owned())));
    assert!(!trail.contains_trace(&IdentityTraceRecordRef::new("trace-2".to_owned())));
}

#[test]
fn assembled_trail_is_empty_without_entries_or_cursor() {
    let empty = AuditTrail::assemble(
        AuditTrailRef::new("trail-1".to_owned()),
        IdentityAuditSubjectRef::new("audit-subject-1".to_owned()),
        None,
        AuditScopeRef::new("scope-1".to_owned()),
        Vec::new(),
        VisibilityResultRef::new("result-1".to_owned()),
        None,
        timestamp(2),
    )
    .expect("trail");
    assert_eq!(empty.read_surface_kind, IdentityReadSurfaceKind::Empty);

    let paged = AuditTrail::assemble(
        AuditTrailRef::new("trail-1".to_owned()),
        IdentityAuditSubjectRef::new("audit-subject-1".to_owned()),
        None,
        AuditScopeRef::new("scope-1".to_owned()),
        Vec::new(),
        VisibilityResultRef::new("result-1".to_owned()),
        Some(AuditCursorRef::new("cursor-1".to_owned())),
        timestamp(2),
    )
    .expect("trail");
    assert_eq!(paged.read_surface_kind, IdentityReadSurfaceKind::Found);
}

#[test]
fn filtering_by_a_foreign_scope_hides_entries() {
    let trail = AuditTrail::from_accepted_write(
        AuditTrailRef::new("trail-1".to_owned()),
        IdentityAuditSubjectRef::new("audit-subject-1".to_owned()),
        Some(member_ref()),
        AuditScopeRef::new("scope-1".to_owned()),
        entry("trace-1"),
        VisibilityResultRef::new("result-1".to_owned()),
        timestamp(2),
    )
    .expect("trail");
    let same = trail.filter_by_scope(&AuditScopeRef::new("scope-1".to_owned()));
    assert_eq!(same, trail);
    let foreign = trail.filter_by_scope(&AuditScopeRef::new("scope-2".to_owned()));
    assert!(foreign.entries.is_empty());
    assert_eq!(foreign.read_surface_kind, IdentityReadSurfaceKind::Empty);
    assert_eq!(foreign.audit_scope_ref, AuditScopeRef::new("scope-2".to_owned()));
    assert!(!foreign.contains_trace(&IdentityTraceRecordRef::new("trace-1".to_owned())));

    let not_visible = AuditTrail::not_visible(
        AuditTrailRef::new("trail-2".to_owned()),
        IdentityAuditSubjectRef::new("audit-subject-1".to_owned()),
        AuditScopeRef::new("scope-1".to_owned()),
        VisibilityResultRef::new("result-2".to_owned()),
        timestamp(3),
    );
    assert_eq!(not_visible.read_surface_kind, IdentityReadSurfaceKind::NotVisible);
}

#[test]
fn trace_material_must_be_body_free() {
    assert_eq!(
        trace(IdentityReadMaterialKind::ForbiddenSecret).err(),
        Some(IdentityDomainError::InvalidInput { field: "read_material_marker", message: "trace material must remain body-free" })
    );
    let record = trace(IdentityReadMaterialKind::TraceRefsOnly).expect("body-free trace");
    assert_eq!(record.assert_body_free(), Ok(()));
    assert!(record.visibility_result_ref.is_none());
    assert!(!record.is_superseded());
    assert!(record.belongs_to(&member_ref()));
    assert!(record.matches_subject(&IdentityTraceSubjectRef::new("trace-subject-1".to_owned())));
    assert!(record.matches_audit_subject(&IdentityAuditSubjectRef::new("audit-subject-1".to_owned())));
}

#[test]
fn trace_correction_must_differ_and_read_surface_keeps_record() {
    let mut record = trace(IdentityReadMaterialKind::TraceRefsOnly).expect("body-free trace");
    assert_eq!(
        record.mark_superseded_by_correction(IdentityTraceRecordRef::new("trace-1".to_owned())),
        Err(IdentityDomainError::InvalidInput {
            field: "correction_trace_ref",
            message: "correction trace must differ from the original trace",
        })
    );
    record.mark_superseded_by_correction(IdentityTraceRecordRef::new("trace-2".to_owned())).expect("correction");
    assert!(record.is_superseded());
    let surface = record.redacted_read_surface(VisibilityResultRef::new("result-9".to_owned()));
    assert_eq!(surface.visibility_result_ref, Some(VisibilityResultRef::new("result-9".to_owned())));
    assert_eq!(surface.trace_record_ref, record.trace_record_ref);
    assert_eq!(surface.superseded_by_trace_ref, record.superseded_by_trace_ref);
}
