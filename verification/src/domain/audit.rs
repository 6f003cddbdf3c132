//! Audit trail assembly helpers.
use vstd::prelude::*;

use crate::contracts::refs::{
    AuditCursorRef, AuditScopeRef, AuditTrailRef, GlobalMemberRef, IdentityAuditSubjectRef,
    IdentityChangeKindRef, IdentityReadSurfaceKind, IdentityTimestamp, IdentityTraceRecordRef,
    VisibilityResultRef,
};
use crate::domain::errors::IdentityDomainError;

verus! {

/// Audit entry value embedded in an audit trail.
#[derive(Debug, Eq, PartialEq)]
pub struct AuditTrailEntry {
    /// Trace record included by this entry.
    pub trace_record_ref: IdentityTraceRecordRef,
    /// Change kind marker.
    pub change_kind_ref: IdentityChangeKindRef,
    /// Redaction or visibility result for this entry.
    pub visibility_result_ref: VisibilityResultRef,
    /// Time associated with the trace.
    pub occurred_at: IdentityTimestamp,
}

impl Clone for AuditTrailEntry {
    fn clone(&self) -> (r: Self)
        ensures
            r == *self,
    {
        AuditTrailEntry {
            trace_record_ref: self.trace_record_ref.clone(),
            change_kind_ref: self.change_kind_ref.clone(),
            visibility_result_ref: self.visibility_result_ref.clone(),
            occurred_at: self.occurred_at,
        }
    }
}

/// Audit trail assembled from identity trace records.
#[derive(Debug, Eq, PartialEq)]
pub struct AuditTrail {
    /// Stable audit trail ref.
    pub audit_trail_ref: AuditTrailRef,
    /// Canonical audit subject.
    pub audit_subject_ref: IdentityAuditSubjectRef,
    /// Optional member scope.
    pub member_ref: Option<GlobalMemberRef>,
    /// Audit scope marker.
    pub audit_scope_ref: AuditScopeRef,
    /// Audit entries.
    pub entries: Vec<AuditTrailEntry>,
    /// Visibility result for the trail.
    pub visibility_result_ref: VisibilityResultRef,
    /// Public read surface category.
    pub read_surface_kind: IdentityReadSurfaceKind,
    /// Read pagination cursor.
    pub cursor_ref: Option<AuditCursorRef>,
    /// Time the trail was assembled or materialized.
    pub assembled_at: IdentityTimestamp,
}

/// Whether two trails agree field by field, the entries by their contents.
pub open spec fn trail_same(a: AuditTrail, b: AuditTrail) -> bool {
    &&& a.audit_trail_ref == b.audit_trail_ref
    &&& a.audit_subject_ref == b.audit_subject_ref
    &&& a.member_ref == b.member_ref
    &&& a.audit_scope_ref == b.audit_scope_ref
    &&& a.entries@ == b.entries@
    &&& a.visibility_result_ref == b.visibility_result_ref
    &&& a.read_surface_kind == b.read_surface_kind
    &&& a.cursor_ref == b.cursor_ref
    &&& a.assembled_at == b.assembled_at
}

impl Clone for AuditTrail {
    fn clone(&self) -> (r: Self)
        ensures
            trail_same(r, *self),
    {
        let entries = self.entries.clone();
        proof {
            assert(entries@ =~= self.entries@);
        }
        AuditTrail {
            audit_trail_ref: self.audit_trail_ref.clone(),
            audit_subject_ref: self.audit_subject_ref.clone(),
            member_ref: self.member_ref.clone(),
            audit_scope_ref: self.audit_scope_ref.clone(),
            entries,
            visibility_result_ref: self.visibility_result_ref.clone(),
            read_surface_kind: self.read_surface_kind,
            cursor_ref: self.cursor_ref.clone(),
            assembled_at: self.assembled_at,
        }
    }
}

/// The read surface an assembled trail takes: found when it has entries or a
/// cursor to more, empty otherwise.
pub open spec fn assembled_surface_kind(entry_count: nat, has_cursor: bool) -> IdentityReadSurfaceKind {
    if has_cursor || entry_count > 0 {
        IdentityReadSurfaceKind::Found
    } else {
        IdentityReadSurfaceKind::Empty
    }
}

/// Whether a trail has exactly the given assembled content.
pub open spec fn trail_holds(
    t: AuditTrail,
    audit_trail_ref: AuditTrailRef,
    audit_subject_ref: IdentityAuditSubjectRef,
    member_ref: Option<GlobalMemberRef>,
    audit_scope_ref: AuditScopeRef,
    entries: Seq<AuditTrailEntry>,
    visibility_result_ref: VisibilityResultRef,
    read_surface_kind: IdentityReadSurfaceKind,
    cursor_ref: Option<AuditCursorRef>,
    assembled_at: IdentityTimestamp,
) -> bool {
    &&& t.audit_trail_ref == audit_trail_ref
    &&& t.audit_subject_ref == audit_subject_ref
    &&& t.member_ref == member_ref
    &&& t.audit_scope_ref == audit_scope_ref
    &&& t.entries@ == entries
    &&& t.visibility_result_ref == visibility_result_ref
    &&& t.read_surface_kind == read_surface_kind
    &&& t.cursor_ref == cursor_ref
    &&& t.assembled_at == assembled_at
}

/// Whether an entry list holds an entry for the trace record.
pub open spec fn entries_contain_trace(entries: Seq<AuditTrailEntry>, trace_record_ref: IdentityTraceRecordRef) -> bool {
    exists|i: int| 0 <= i < entries.len() && #[trigger] entries[i].trace_record_ref@ == trace_record_ref@
}

impl AuditTrail {
    /// Creates a trail for accepted write materialization with one initial
    /// body-free entry; it always succeeds and the trail is found.
    pub fn from_accepted_write(
        audit_trail_ref: AuditTrailRef,
        audit_subject_ref: IdentityAuditSubjectRef,
        member_ref: Option<GlobalMemberRef>,
        audit_scope_ref: AuditScopeRef,
        initial_entry: AuditTrailEntry,
        visibility_result_ref: VisibilityResultRef,
        assembled_at: IdentityTimestamp,
    ) -> (r: Result<Self, IdentityDomainError>)
        ensures
            r matches Ok(t) && trail_holds(
                t, audit_trail_ref, audit_subject_ref, member_ref, audit_scope_ref, seq![initial_entry],
                visibility_result_ref, IdentityReadSurfaceKind::Found, None, assembled_at,
            ),
    {
        let mut entries: Vec<AuditTrailEntry> = Vec::new();
        entries.push(initial_entry);
        Self::assemble(audit_trail_ref, audit_subject_ref, member_ref, audit_scope_ref, entries, visibility_result_ref, None, assembled_at)
    }

    /// Assembles an audit trail from body-free entries; it always succeeds.
    pub fn assemble(
        audit_trail_ref: AuditTrailRef,
        audit_subject_ref: IdentityAuditSubjectRef,
        member_ref: Option<GlobalMemberRef>,
        audit_scope_ref: AuditScopeRef,
        entries: Vec<AuditTrailEntry>,
        visibility_result_ref: VisibilityResultRef,
        cursor_ref: Option<AuditCursorRef>,
        assembled_at: IdentityTimestamp,
    ) -> (r: Result<Self, IdentityDomainError>)
        ensures
            r matches Ok(t) && trail_holds(
                t, audit_trail_ref, audit_subject_ref, member_ref, audit_scope_ref, entries@,
                visibility_result_ref, assembled_surface_kind(entries@.len(), cursor_ref is Some), cursor_ref, assembled_at,
            ),
    {
        let has_entries = !entries.is_empty();
        let read_surface_kind = if cursor_ref.is_some() || has_entries {
            IdentityReadSurfaceKind::Found
        } else {
            IdentityReadSurfaceKind::Empty
        };
        Ok(AuditTrail {
            audit_trail_ref,
            audit_subject_ref,
            member_ref,
            audit_scope_ref,
            entries,
            visibility_result_ref,
            read_surface_kind,
            cursor_ref,
            assembled_at,
        })
    }

    /// Creates an empty audit trail surface with no member, entries, or cursor.
    pub fn empty(
        audit_trail_ref: AuditTrailRef,
        audit_subject_ref: IdentityAuditSubjectRef,
        audit_scope_ref: AuditScopeRef,
        visibility_result_ref: VisibilityResultRef,
        assembled_at: IdentityTimestamp,
    ) -> (r: Self)
        ensures
            trail_holds(
                r, audit_trail_ref, audit_subject_ref, None, audit_scope_ref, Seq::empty(),
                visibility_result_ref, IdentityReadSurfaceKind::Empty, None, assembled_at,
            ),
    {
        AuditTrail {
            audit_trail_ref,
            audit_subject_ref,
            member_ref: None,
            audit_scope_ref,
            entries: Vec::new(),
            visibility_result_ref,
            read_surface_kind: IdentityReadSurfaceKind::Empty,
            cursor_ref: None,
            assembled_at,
        }
    }

    /// Creates a not-visible audit trail surface with no member, entries, or
    /// cursor.
    pub fn not_visible(
        audit_trail_ref: AuditTrailRef,
        audit_subject_ref: IdentityAuditSubjectRef,
        audit_scope_ref: AuditScopeRef,
        visibility_result_ref: VisibilityResultRef,
        assembled_at: IdentityTimestamp,
    ) -> (r: Self)
        ensures
            trail_holds(
                r, audit_trail_ref, audit_subject_ref, None, audit_scope_ref, Seq::empty(),
                visibility_result_ref, IdentityReadSurfaceKind::NotVisible, None, assembled_at,
            ),
    {
        AuditTrail {
            audit_trail_ref,
            audit_subject_ref,
            member_ref: None,
            audit_scope_ref,
            entries: Vec::new(),
            visibility_result_ref,
            read_surface_kind: IdentityReadSurfaceKind::NotVisible,
            cursor_ref: None,
            assembled_at,
        }
    }

    /// Returns whether the trail contains an entry for the trace record.
    pub fn contains_trace(&self, trace_record_ref: &IdentityTraceRecordRef) -> (r: bool)
        ensures
            r == entries_contain_trace(self.entries@, *trace_record_ref),
    {
        let mut i: usize = 0;
        while i < self.entries.len()
            invariant
                i <= self.entries@.len(),
                forall|j: int| 0 <= j < i ==> #[trigger] self.entries@[j].trace_record_ref@ != trace_record_ref@,
            decreases self.entries@.len() - i,
        {
            if self.entries[i].trace_record_ref == *trace_record_ref {
                return true;
            }
            i = i + 1;
        }
        false
    }

    /// Returns the trail seen through a scope: the trail itself when the scope
    /// is its own, otherwise the same trail in the requested scope with no
    /// entries and an empty surface.
    pub fn filter_by_scope(&self, audit_scope_ref: &AuditScopeRef) -> (r: Self)
        ensures
            self.audit_scope_ref@ == audit_scope_ref@ ==> trail_same(r, *self),
            self.audit_scope_ref@ != audit_scope_ref@ ==> trail_holds(
                r, self.audit_trail_ref, self.audit_subject_ref, self.member_ref, *audit_scope_ref, Seq::empty(),
                self.visibility_result_ref, IdentityReadSurfaceKind::Empty, self.cursor_ref, self.assembled_at,
            ),
    {
        if self.audit_scope_ref == *audit_scope_ref {
            return self.clone();
        }
        AuditTrail {
            audit_trail_ref: self.audit_trail_ref.clone(),
            audit_subject_ref: self.audit_subject_ref.clone(),
            member_ref: self.member_ref.clone(),
            audit_scope_ref: audit_scope_ref.clone(),
            entries: Vec::new(),
            visibility_result_ref: self.visibility_result_ref.clone(),
            read_surface_kind: IdentityReadSurfaceKind::Empty,
            cursor_ref: self.cursor_ref.clone(),
            assembled_at: self.assembled_at,
        }
    }
}

/// Law: an assembled trail is empty exactly when it has neither entries nor a
/// cursor, and a trail from an accepted write always contains its initial
/// entry's trace.
pub proof fn lemma_assembled_trail_surface(entry_count: nat, has_cursor: bool, initial_entry: AuditTrailEntry)
    ensures
        (assembled_surface_kind(entry_count, has_cursor) == IdentityReadSurfaceKind::Empty) <==> (entry_count == 0 && !has_cursor),
        entries_contain_trace(seq![initial_entry], initial_entry.trace_record_ref),
{
    assert(seq![initial_entry][0].trace_record_ref@ == initial_entry.trace_record_ref@);
}

/// Law: filtering a trail by a foreign scope never reveals an entry.
pub proof fn lemma_foreign_scope_reveals_nothing(t: AuditTrail, trace_record_ref: IdentityTraceRecordRef)
    requires
        t.entries@.len() == 0,
    ensures
        !entries_contain_trace(t.entries@, trace_record_ref),
{
}

} // verus!
