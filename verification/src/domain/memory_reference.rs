//! Memory reference relation truth and guards.
use vstd::prelude::*;

use crate::actor::ActorRef;
use crate::contracts::refs::{
    memory_summary_has_reference, memory_summary_requires_verification, ArchiveHandoffRef,
    ArchiveRef, GlobalMemberRef, IdentityOperationChannel, IdentityTimestamp, MemoryRef,
    MemoryReferenceChangeIntent, MemoryReferenceChangeMaterialKind,
    MemoryReferenceChangeMaterialMarker, MemoryReferenceReasonRef, MemoryReferenceRef,
    MemoryReferenceSourceRef, MemoryReferenceSourceState, MemoryReferenceSourceSummary,
    MemorySafeSummaryRef,
};
use crate::domain::errors::{write_channel_denial, IdentityDomainError};

verus! {

/// Memory reference relation state kind.
#[derive(Clone, Copy, Debug, Eq, PartialEq, Structural)]
pub enum MemoryReferenceStateKind {
    /// Linked to a trusted memory ref.
    Linked,
    /// Requires formal verification before trusted mainline use.
    PendingVerification,
    /// External reference may be stale.
    Stale,
    /// External carrier is unavailable.
    Unavailable,
    /// Relation migrated to new marker(s).
    Migrated,
    /// Relation points to archive/cold-storage marker(s).
    Archived,
    /// Archive or migration handoff is pending.
    HandoffPending,
    /// Archive or migration handoff failed.
    HandoffFailed,
}

/// Whether a relation in this state may back a safe summary.
pub open spec fn memory_state_usable(kind: MemoryReferenceStateKind) -> bool {
    ||| kind == MemoryReferenceStateKind::Linked
    ||| kind == MemoryReferenceStateKind::Archived
    ||| kind == MemoryReferenceStateKind::Migrated
}

/// Whether a relation in this state needs refresh or verification.
pub open spec fn memory_state_needs_refresh(kind: MemoryReferenceStateKind) -> bool {
    ||| kind == MemoryReferenceStateKind::PendingVerification
    ||| kind == MemoryReferenceStateKind::Stale
    ||| kind == MemoryReferenceStateKind::Unavailable
    ||| kind == MemoryReferenceStateKind::HandoffFailed
}

/// Memory reference relation state.
#[derive(Debug, Eq, PartialEq)]
pub struct MemoryReferenceState {
    /// State category.
    pub state_kind: MemoryReferenceStateKind,
    /// Optional memory ref.
    pub memory_ref: Option<MemoryRef>,
    /// Optional archive ref.
    pub archive_ref: Option<ArchiveRef>,
    /// Optional handoff marker.
    pub handoff_ref: Option<ArchiveHandoffRef>,
    /// Optional state reason.
    pub reason_ref: Option<MemoryReferenceReasonRef>,
    /// State timestamp.
    pub checked_at: IdentityTimestamp,
}

impl Clone for MemoryReferenceState {
    fn clone(&self) -> (r: Self)
        ensures
            r == *self,
    {
        MemoryReferenceState {
            state_kind: self.state_kind,
            memory_ref: self.memory_ref.clone(),
            archive_ref: self.archive_ref.clone(),
            handoff_ref: self.handoff_ref.clone(),
            reason_ref: self.reason_ref.clone(),
            checked_at: self.checked_at,
        }
    }
}

impl MemoryReferenceState {
    /// Creates a linked state.
    pub fn linked(memory_ref: MemoryRef, reason_ref: MemoryReferenceReasonRef, checked_at: IdentityTimestamp) -> (r: Self)
        ensures
            r == (MemoryReferenceState {
                state_kind: MemoryReferenceStateKind::Linked,
                memory_ref: Some(memory_ref),
                archive_ref: None,
                handoff_ref: None,
                reason_ref: Some(reason_ref),
                checked_at,
            }),
    {
        MemoryReferenceState {
            state_kind: MemoryReferenceStateKind::Linked,
            memory_ref: Some(memory_ref),
            archive_ref: None,
            handoff_ref: None,
            reason_ref: Some(reason_ref),
            checked_at,
        }
    }

    /// Creates a pending-verification state.
    pub fn pending_verification(
        memory_ref: Option<MemoryRef>,
        archive_ref: Option<ArchiveRef>,
        handoff_ref: Option<ArchiveHandoffRef>,
        reason_ref: MemoryReferenceReasonRef,
        checked_at: IdentityTimestamp,
    ) -> (r: Self)
        ensures
            r == (MemoryReferenceState {
                state_kind: MemoryReferenceStateKind::PendingVerification,
                memory_ref,
                archive_ref,
                handoff_ref,
                reason_ref: Some(reason_ref),
                checked_at,
            }),
    {
        MemoryReferenceState {
            state_kind: MemoryReferenceStateKind::PendingVerification,
            memory_ref,
            archive_ref,
            handoff_ref,
            reason_ref: Some(reason_ref),
            checked_at,
        }
    }

    /// Creates an archived state.
    pub fn archived(
        archive_ref: ArchiveRef,
        handoff_ref: ArchiveHandoffRef,
        reason_ref: MemoryReferenceReasonRef,
        checked_at: IdentityTimestamp,
    ) -> (r: Self)
        ensures
            r == (MemoryReferenceState {
                state_kind: MemoryReferenceStateKind::Archived,
                memory_ref: None,
                archive_ref: Some(archive_ref),
                handoff_ref: Some(handoff_ref),
                reason_ref: Some(reason_ref),
                checked_at,
            }),
    {
        MemoryReferenceState {
            state_kind: MemoryReferenceStateKind::Archived,
            memory_ref: None,
            archive_ref: Some(archive_ref),
            handoff_ref: Some(handoff_ref),
            reason_ref: Some(reason_ref),
            checked_at,
        }
    }

    /// Creates a handoff-failed state.
    pub fn handoff_failed(handoff_ref: ArchiveHandoffRef, reason_ref: MemoryReferenceReasonRef, checked_at: IdentityTimestamp) -> (r: Self)
        ensures
            r == (MemoryReferenceState {
                state_kind: MemoryReferenceStateKind::HandoffFailed,
                memory_ref: None,
                archive_ref: None,
                handoff_ref: Some(handoff_ref),
                reason_ref: Some(reason_ref),
                checked_at,
            }),
    {
        MemoryReferenceState {
            state_kind: MemoryReferenceStateKind::HandoffFailed,
            memory_ref: None,
            archive_ref: None,
            handoff_ref: Some(handoff_ref),
            reason_ref: Some(reason_ref),
            checked_at,
        }
    }

    /// Returns whether the state may be used for a safe summary.
    pub fn is_usable_for_summary(&self) -> (r: bool)
        ensures
            r == memory_state_usable(self.state_kind),
    {
        matches!(self.state_kind, MemoryReferenceStateKind::Linked | MemoryReferenceStateKind::Archived | MemoryReferenceStateKind::Migrated)
    }

    /// Returns whether the relation requires refresh or verification.
    pub fn requires_refresh(&self) -> (r: bool)
        ensures
            r == memory_state_needs_refresh(self.state_kind),
    {
        matches!(
            self.state_kind,
            MemoryReferenceStateKind::PendingVerification
                | MemoryReferenceStateKind::Stale
                | MemoryReferenceStateKind::Unavailable
                | MemoryReferenceStateKind::HandoffFailed
        )
    }

    /// Returns whether the handoff relation state is terminal for this batch.
    pub fn is_handoff_terminal(&self) -> (r: bool)
        ensures
            r == (self.state_kind == MemoryReferenceStateKind::Archived || self.state_kind == MemoryReferenceStateKind::HandoffFailed),
    {
        matches!(self.state_kind, MemoryReferenceStateKind::Archived | MemoryReferenceStateKind::HandoffFailed)
    }

    /// Marks the state stale while preserving formal refs; it always succeeds.
    pub fn mark_stale(&mut self, reason_ref: MemoryReferenceReasonRef, checked_at: IdentityTimestamp) -> (r: Result<(), IdentityDomainError>)
        ensures
            r is Ok,
            *final(self) == (MemoryReferenceState {
                state_kind: MemoryReferenceStateKind::Stale,
                reason_ref: Some(reason_ref),
                checked_at,
                ..*old(self)
            }),
    {
        self.state_kind = MemoryReferenceStateKind::Stale;
        self.reason_ref = Some(reason_ref);
        self.checked_at = checked_at;
        Ok(())
    }

    /// Marks the state unavailable while preserving formal refs; it always succeeds.
    pub fn mark_unavailable(&mut self, reason_ref: MemoryReferenceReasonRef, checked_at: IdentityTimestamp) -> (r: Result<(), IdentityDomainError>)
        ensures
            r is Ok,
            *final(self) == (MemoryReferenceState {
                state_kind: MemoryReferenceStateKind::Unavailable,
                reason_ref: Some(reason_ref),
                checked_at,
                ..*old(self)
            }),
    {
        self.state_kind = MemoryReferenceStateKind::Unavailable;
        self.reason_ref = Some(reason_ref);
        self.checked_at = checked_at;
        Ok(())
    }

    /// Marks the relation migrated with new formal markers; it always succeeds.
    pub fn mark_migrated(
        &mut self,
        memory_ref: Option<MemoryRef>,
        archive_ref: Option<ArchiveRef>,
        handoff_ref: ArchiveHandoffRef,
        reason_ref: MemoryReferenceReasonRef,
        checked_at: IdentityTimestamp,
    ) -> (r: Result<(), IdentityDomainError>)
        ensures
            r is Ok,
            *final(self) == (MemoryReferenceState {
                state_kind: MemoryReferenceStateKind::Migrated,
                memory_ref,
                archive_ref,
                handoff_ref: Some(handoff_ref),
                reason_ref: Some(reason_ref),
                checked_at,
            }),
    {
        self.state_kind = MemoryReferenceStateKind::Migrated;
        self.memory_ref = memory_ref;
        self.archive_ref = archive_ref;
        self.handoff_ref = Some(handoff_ref);
        self.reason_ref = Some(reason_ref);
        self.checked_at = checked_at;
        Ok(())
    }
}

/// Identity-owned memory reference relation.
#[derive(Debug, Eq, PartialEq)]
pub struct MemoryReference {
    /// Stable relation ref.
    pub memory_reference_ref: MemoryReferenceRef,
    /// Member that owns the relation.
    pub member_ref: GlobalMemberRef,
    /// Optional memory ref.
    pub memory_ref: Option<MemoryRef>,
    /// Optional archive ref.
    pub archive_ref: Option<ArchiveRef>,
    /// Optional handoff marker.
    pub archive_handoff_ref: Option<ArchiveHandoffRef>,
    /// Source ref that drove the current relation state.
    pub source_ref: MemoryReferenceSourceRef,
    /// Optional safe summary ref.
    pub safe_summary_ref: Option<MemorySafeSummaryRef>,
    /// Current relation state.
    pub reference_state: MemoryReferenceState,
    /// Latest change reason.
    pub change_reason_ref: MemoryReferenceReasonRef,
    /// Latest actor.
    pub changed_by_ref: ActorRef,
    /// Latest change time.
    pub changed_at: IdentityTimestamp,
}

impl Clone for MemoryReference {
    fn clone(&self) -> (r: Self)
        ensures
            r == *self,
    {
        MemoryReference {
            memory_reference_ref: self.memory_reference_ref.clone(),
            member_ref: self.member_ref.clone(),
            memory_ref: self.memory_ref.clone(),
            archive_ref: self.archive_ref.clone(),
            archive_handoff_ref: self.archive_handoff_ref.clone(),
            source_ref: self.source_ref.clone(),
            safe_summary_ref: self.safe_summary_ref.clone(),
            reference_state: self.reference_state.clone(),
            change_reason_ref: self.change_reason_ref.clone(),
            changed_by_ref: self.changed_by_ref.clone(),
            changed_at: self.changed_at,
        }
    }
}

/// The rejection `link_for_member` reports, if any: a trusted source needs a
/// memory ref, a pending or untrusted source is always accepted, and every
/// other source state is refused.
pub open spec fn link_error(s: MemoryReferenceSourceSummary) -> Option<IdentityDomainError> {
    match s.source_state {
        MemoryReferenceSourceState::Trusted => if s.memory_ref is None {
            Some(IdentityDomainError::MissingRequiredField { field: "memory_ref" })
        } else {
            None
        },
        MemoryReferenceSourceState::PendingVerification => None,
        MemoryReferenceSourceState::Untrusted => None,
        _ => Some(IdentityDomainError::PolicyDenied {
            policy: "MemoryReference",
            message: "source summary cannot create linked relation in the current branch",
        }),
    }
}

/// The relation state `link_for_member` builds: linked for a trusted source,
/// pending verification with the summary's markers otherwise.
pub open spec fn link_state(s: MemoryReferenceSourceSummary, reason_ref: MemoryReferenceReasonRef, at: IdentityTimestamp) -> MemoryReferenceState {
    if s.source_state == MemoryReferenceSourceState::Trusted {
        MemoryReferenceState {
            state_kind: MemoryReferenceStateKind::Linked,
            memory_ref: s.memory_ref,
            archive_ref: None,
            handoff_ref: None,
            reason_ref: Some(reason_ref),
            checked_at: at,
        }
    } else {
        MemoryReferenceState {
            state_kind: MemoryReferenceStateKind::PendingVerification,
            memory_ref: s.memory_ref,
            archive_ref: s.archive_ref,
            handoff_ref: s.archive_handoff_ref,
            reason_ref: Some(reason_ref),
            checked_at: at,
        }
    }
}

/// The rejection `from_archive_handoff` reports, if any: an accepted result
/// needs a handoff marker, a failed result needs one too, and every other
/// source state is refused.
pub open spec fn archive_error(s: MemoryReferenceSourceSummary) -> Option<IdentityDomainError> {
    match s.source_state {
        MemoryReferenceSourceState::HandoffResultAccepted => if s.archive_handoff_ref is None {
            Some(IdentityDomainError::MissingRequiredField { field: "archive_handoff_ref" })
        } else {
            None
        },
        MemoryReferenceSourceState::HandoffResultFailed => if s.archive_handoff_ref is None {
            Some(IdentityDomainError::MissingRequiredField { field: "archive_handoff_ref" })
        } else {
            None
        },
        _ => Some(IdentityDomainError::PolicyDenied {
            policy: "MemoryReference",
            message: "archive handoff relation requires a formal handoff result source state",
        }),
    }
}

/// The relation state `from_archive_handoff` builds: archived when an accepted
/// result carries both an archive and a handoff marker, handoff pending when it
/// carries only the handoff marker, handoff failed for a failed result.
pub open spec fn archive_state(s: MemoryReferenceSourceSummary, reason_ref: MemoryReferenceReasonRef, at: IdentityTimestamp) -> MemoryReferenceState {
    if s.source_state == MemoryReferenceSourceState::HandoffResultAccepted {
        if s.archive_ref is Some {
            MemoryReferenceState {
                state_kind: MemoryReferenceStateKind::Archived,
                memory_ref: None,
                archive_ref: s.archive_ref,
                handoff_ref: s.archive_handoff_ref,
                reason_ref: Some(reason_ref),
                checked_at: at,
            }
        } else {
            MemoryReferenceState {
                state_kind: MemoryReferenceStateKind::HandoffPending,
                memory_ref: s.memory_ref,
                archive_ref: s.archive_ref,
                handoff_ref: s.archive_handoff_ref,
                reason_ref: Some(reason_ref),
                checked_at: at,
            }
        }
    } else {
        MemoryReferenceState {
            state_kind: MemoryReferenceStateKind::HandoffFailed,
            memory_ref: None,
            archive_ref: None,
            handoff_ref: s.archive_handoff_ref,
            reason_ref: Some(reason_ref),
            checked_at: at,
        }
    }
}

/// The relation built from a source summary and a state: the carrier markers,
/// source, and safe summary come from the summary.
pub open spec fn relation_from(
    memory_reference_ref: MemoryReferenceRef,
    member_ref: GlobalMemberRef,
    s: MemoryReferenceSourceSummary,
    reference_state: MemoryReferenceState,
    reason_ref: MemoryReferenceReasonRef,
    actor_ref: ActorRef,
    changed_at: IdentityTimestamp,
) -> MemoryReference {
    MemoryReference {
        memory_reference_ref,
        member_ref,
        memory_ref: s.memory_ref,
        archive_ref: s.archive_ref,
        archive_handoff_ref: s.archive_handoff_ref,
        source_ref: s.source_ref,
        safe_summary_ref: s.safe_summary_ref,
        reference_state,
        change_reason_ref: reason_ref,
        changed_by_ref: actor_ref,
        changed_at,
    }
}

impl MemoryReference {
    /// Creates a linked or pending relation for a member.
    pub fn link_for_member(
        memory_reference_ref: MemoryReferenceRef,
        member_ref: GlobalMemberRef,
        source_summary: MemoryReferenceSourceSummary,
        reason_ref: MemoryReferenceReasonRef,
        actor_ref: ActorRef,
        changed_at: IdentityTimestamp,
    ) -> (r: Result<Self, IdentityDomainError>)
        ensures
            r is Ok <==> link_error(source_summary) is None,
            r matches Err(e) ==> link_error(source_summary) == Some(e),
            r matches Ok(v) ==> v == relation_from(
                memory_reference_ref, member_ref, source_summary,
                link_state(source_summary, reason_ref, changed_at), reason_ref, actor_ref, changed_at,
            ),
    {
        let reference_state = match source_summary.source_state {
            MemoryReferenceSourceState::Trusted => match &source_summary.memory_ref {
                Some(memory_ref) => MemoryReferenceState::linked(memory_ref.clone(), reason_ref.clone(), changed_at),
                None => return Err(IdentityDomainError::missing_required_field("memory_ref")),
            },
            MemoryReferenceSourceState::PendingVerification | MemoryReferenceSourceState::Untrusted => {
                MemoryReferenceState::pending_verification(
                    source_summary.memory_ref.clone(),
                    source_summary.archive_ref.clone(),
                    source_summary.archive_handoff_ref.clone(),
                    reason_ref.clone(),
                    changed_at,
                )
            },
            _ => {
                return Err(IdentityDomainError::policy_denied(
                    "MemoryReference",
                    "source summary cannot create linked relation in the current branch",
                ));
            },
        };
        Ok(MemoryReference {
            memory_reference_ref,
            member_ref,
            memory_ref: source_summary.memory_ref,
            archive_ref: source_summary.archive_ref,
            archive_handoff_ref: source_summary.archive_handoff_ref,
            source_ref: source_summary.source_ref,
            safe_summary_ref: source_summary.safe_summary_ref,
            reference_state,
            change_reason_ref: reason_ref,
            changed_by_ref: actor_ref,
            changed_at,
        })
    }

    /// Creates an archive or handoff-driven relation.
    pub fn from_archive_handoff(
        memory_reference_ref: MemoryReferenceRef,
        member_ref: GlobalMemberRef,
        source_summary: MemoryReferenceSourceSummary,
        reason_ref: MemoryReferenceReasonRef,
        actor_ref: ActorRef,
        changed_at: IdentityTimestamp,
    ) -> (r: Result<Self, IdentityDomainError>)
        ensures
            r is Ok <==> archive_error(source_summary) is None,
            r matches Err(e) ==> archive_error(source_summary) == Some(e),
            r matches Ok(v) ==> v == relation_from(
                memory_reference_ref, member_ref, source_summary,
                archive_state(source_summary, reason_ref, changed_at), reason_ref, actor_ref, changed_at,
            ),
    {
        let reference_state = match source_summary.source_state {
            MemoryReferenceSourceState::HandoffResultAccepted => match (&source_summary.archive_ref, &source_summary.archive_handoff_ref) {
                (Some(archive_ref), Some(handoff_ref)) => MemoryReferenceState::archived(
                    archive_ref.clone(),
                    handoff_ref.clone(),
                    reason_ref.clone(),
                    changed_at,
                ),
                (_, Some(_)) => MemoryReferenceState {
                    state_kind: MemoryReferenceStateKind::HandoffPending,
                    memory_ref: source_summary.memory_ref.clone(),
                    archive_ref: source_summary.archive_ref.clone(),
                    handoff_ref: source_summary.archive_handoff_ref.clone(),
                    reason_ref: Some(reason_ref.clone()),
                    checked_at: changed_at,
                },
                (_, None) => return Err(IdentityDomainError::missing_required_field("archive_handoff_ref")),
            },
            MemoryReferenceSourceState::HandoffResultFailed => match &source_summary.archive_handoff_ref {
                Some(handoff_ref) => MemoryReferenceState::handoff_failed(handoff_ref.clone(), reason_ref.clone(), changed_at),
                None => return Err(IdentityDomainError::missing_required_field("archive_handoff_ref")),
            },
            _ => {
                return Err(IdentityDomainError::policy_denied(
                    "MemoryReference",
                    "archive handoff relation requires a formal handoff result source state",
                ));
            },
        };
        Ok(MemoryReference {
            memory_reference_ref,
            member_ref,
            memory_ref: source_summary.memory_ref,
            archive_ref: source_summary.archive_ref,
            archive_handoff_ref: source_summary.archive_handoff_ref,
            source_ref: source_summary.source_ref,
            safe_summary_ref: source_summary.safe_summary_ref,
            reference_state,
            change_reason_ref: reason_ref,
            changed_by_ref: actor_ref,
            changed_at,
        })
    }

    /// Returns whether the relation belongs to the given member.
    pub fn belongs_to(&self, member_ref: &GlobalMemberRef) -> (r: bool)
        ensures
            r == (self.member_ref.member_id@ == member_ref.member_id@),
    {
        self.member_ref.same_member(member_ref)
    }

    /// Attaches archive and handoff refs to an existing relation, which becomes
    /// archived; it always succeeds.
    pub fn attach_archive_ref(
        &mut self,
        archive_ref: ArchiveRef,
        archive_handoff_ref: ArchiveHandoffRef,
        reason_ref: MemoryReferenceReasonRef,
        actor_ref: ActorRef,
        changed_at: IdentityTimestamp,
    ) -> (r: Result<(), IdentityDomainError>)
        ensures
            r is Ok,
            *final(self) == (MemoryReference {
                archive_ref: Some(archive_ref),
                archive_handoff_ref: Some(archive_handoff_ref),
                reference_state: MemoryReferenceState {
                    state_kind: MemoryReferenceStateKind::Archived,
                    memory_ref: None,
                    archive_ref: Some(archive_ref),
                    handoff_ref: Some(archive_handoff_ref),
                    reason_ref: Some(reason_ref),
                    checked_at: changed_at,
                },
                change_reason_ref: reason_ref,
                changed_by_ref: actor_ref,
                changed_at,
                ..*old(self)
            }),
    {
        self.archive_ref = Some(archive_ref.clone());
        self.archive_handoff_ref = Some(archive_handoff_ref.clone());
        self.reference_state = MemoryReferenceState::archived(archive_ref, archive_handoff_ref, reason_ref.clone(), changed_at);
        self.change_reason_ref = reason_ref;
        self.changed_by_ref = actor_ref;
        self.changed_at = changed_at;
        Ok(())
    }

    /// Replaces the relation state after policy validation, copying its carrier
    /// markers onto the relation; it always succeeds.
    pub fn update_reference_state(
        &mut self,
        reference_state: MemoryReferenceState,
        reason_ref: MemoryReferenceReasonRef,
        actor_ref: ActorRef,
        changed_at: IdentityTimestamp,
    ) -> (r: Result<(), IdentityDomainError>)
        ensures
            r is Ok,
            *final(self) == (MemoryReference {
                memory_ref: reference_state.memory_ref,
                archive_ref: reference_state.archive_ref,
                archive_handoff_ref: reference_state.handoff_ref,
                reference_state,
                change_reason_ref: reason_ref,
                changed_by_ref: actor_ref,
                changed_at,
                ..*old(self)
            }),
    {
        self.memory_ref = reference_state.memory_ref.clone();
        self.archive_ref = reference_state.archive_ref.clone();
        self.archive_handoff_ref = reference_state.handoff_ref.clone();
        self.reference_state = reference_state;
        self.change_reason_ref = reason_ref;
        self.changed_by_ref = actor_ref;
        self.changed_at = changed_at;
        Ok(())
    }

    /// Returns whether the relation requires verification.
    pub fn requires_verification(&self) -> (r: bool)
        ensures
            r == memory_state_needs_refresh(self.reference_state.state_kind),
    {
        self.reference_state.requires_refresh()
    }

    /// A relation never carries an external body.
    pub fn has_external_body(&self) -> (r: bool)
        ensures
            !r,
    {
        false
    }
}

/// Guard for memory reference relation changes.
#[derive(Debug, Eq, PartialEq)]
pub struct MemoryReferencePolicy {
    /// Member that owns the relation.
    pub member_ref: GlobalMemberRef,
    /// Whether the member exists in loaded truth.
    pub member_exists: bool,
    /// Body-free source summary.
    pub source_summary: MemoryReferenceSourceSummary,
    /// Change reason.
    pub reason_ref: MemoryReferenceReasonRef,
    /// Change actor.
    pub actor_ref: ActorRef,
    /// Operation channel.
    pub operation_channel: IdentityOperationChannel,
    /// Requested change intent.
    pub change_intent: MemoryReferenceChangeIntent,
    /// Body-free material marker.
    pub change_material_marker: MemoryReferenceChangeMaterialMarker,
}

impl Clone for MemoryReferencePolicy {
    fn clone(&self) -> (r: Self)
        ensures
            r == *self,
    {
        MemoryReferencePolicy {
            member_ref: self.member_ref.clone(),
            member_exists: self.member_exists,
            source_summary: self.source_summary.clone(),
            reason_ref: self.reason_ref.clone(),
            actor_ref: self.actor_ref.clone(),
            operation_channel: self.operation_channel,
            change_intent: self.change_intent,
            change_material_marker: self.change_material_marker.clone(),
        }
    }
}

/// Whether the summary's source state allows the requested relation change.
pub open spec fn memory_source_allows(intent: MemoryReferenceChangeIntent, s: MemoryReferenceSourceSummary) -> bool {
    match intent {
        MemoryReferenceChangeIntent::LinkMemory => s.source_state == MemoryReferenceSourceState::Trusted,
        MemoryReferenceChangeIntent::RefreshState => {
            ||| s.source_state == MemoryReferenceSourceState::Stale
            ||| s.source_state == MemoryReferenceSourceState::Unavailable
            ||| s.source_state == MemoryReferenceSourceState::PendingVerification
            ||| s.source_state == MemoryReferenceSourceState::Untrusted
        },
        MemoryReferenceChangeIntent::AttachArchive => {
            s.source_state == MemoryReferenceSourceState::HandoffResultAccepted || s.source_state == MemoryReferenceSourceState::HandoffResultFailed
        },
        MemoryReferenceChangeIntent::RecordArchiveHandoffResult => {
            s.source_state == MemoryReferenceSourceState::HandoffResultAccepted || s.source_state == MemoryReferenceSourceState::HandoffResultFailed
        },
        MemoryReferenceChangeIntent::MarkPendingVerification => memory_summary_requires_verification(s),
        _ => false,
    }
}

/// Whether a memory change material category is body-free.
pub open spec fn memory_material_body_free(kind: MemoryReferenceChangeMaterialKind) -> bool {
    ||| kind == MemoryReferenceChangeMaterialKind::SafeSummaryMarker
    ||| kind == MemoryReferenceChangeMaterialKind::ReferenceMarkersOnly
    ||| kind == MemoryReferenceChangeMaterialKind::HandoffMarkerOnly
}

/// The policy a constructor builds for the given intent.
pub open spec fn memory_policy_of(
    member_ref: GlobalMemberRef,
    member_exists: bool,
    source_summary: MemoryReferenceSourceSummary,
    reason_ref: MemoryReferenceReasonRef,
    actor_ref: ActorRef,
    operation_channel: IdentityOperationChannel,
    change_intent: MemoryReferenceChangeIntent,
    change_material_marker: MemoryReferenceChangeMaterialMarker,
) -> MemoryReferencePolicy {
    MemoryReferencePolicy {
        member_ref,
        member_exists,
        source_summary,
        reason_ref,
        actor_ref,
        operation_channel,
        change_intent,
        change_material_marker,
    }
}

impl MemoryReferencePolicy {
    /// Creates a policy for trusted linking.
    pub fn for_link(
        member_ref: GlobalMemberRef,
        member_exists: bool,
        source_summary: MemoryReferenceSourceSummary,
        reason_ref: MemoryReferenceReasonRef,
        actor_ref: ActorRef,
        operation_channel: IdentityOperationChannel,
        change_material_marker: MemoryReferenceChangeMaterialMarker,
    ) -> (r: Self)
        ensures
            r == memory_policy_of(
                member_ref, member_exists, source_summary, reason_ref, actor_ref, operation_channel,
                MemoryReferenceChangeIntent::LinkMemory, change_material_marker,
            ),
    {
        MemoryReferencePolicy {
            member_ref,
            member_exists,
            source_summary,
            reason_ref,
            actor_ref,
            operation_channel,
            change_intent: MemoryReferenceChangeIntent::LinkMemory,
            change_material_marker,
        }
    }

    /// Creates a policy for state refresh.
    pub fn for_refresh(
        member_ref: GlobalMemberRef,
        member_exists: bool,
        source_summary: MemoryReferenceSourceSummary,
        reason_ref: MemoryReferenceReasonRef,
        actor_ref: ActorRef,
        operation_channel: IdentityOperationChannel,
        change_material_marker: MemoryReferenceChangeMaterialMarker,
    ) -> (r: Self)
        ensures
            r == memory_policy_of(
                member_ref, member_exists, source_summary, reason_ref, actor_ref, operation_channel,
                MemoryReferenceChangeIntent::RefreshState, change_material_marker,
            ),
    {
        MemoryReferencePolicy {
            member_ref,
            member_exists,
            source_summary,
            reason_ref,
            actor_ref,
            operation_channel,
            change_intent: MemoryReferenceChangeIntent::RefreshState,
            change_material_marker,
        }
    }

    /// Creates a policy for archive or handoff result handling.
    pub fn for_archive_handoff(
        member_ref: GlobalMemberRef,
        member_exists: bool,
        source_summary: MemoryReferenceSourceSummary,
        reason_ref: MemoryReferenceReasonRef,
        actor_ref: ActorRef,
        operation_channel: IdentityOperationChannel,
        change_material_marker: MemoryReferenceChangeMaterialMarker,
    ) -> (r: Self)
        ensures
            r == memory_policy_of(
                member_ref, member_exists, source_summary, reason_ref, actor_ref, operation_channel,
                MemoryReferenceChangeIntent::RecordArchiveHandoffResult, change_material_marker,
            ),
    {
        MemoryReferencePolicy {
            member_ref,
            member_exists,
            source_summary,
            reason_ref,
            actor_ref,
            operation_channel,
            change_intent: MemoryReferenceChangeIntent::RecordArchiveHandoffResult,
            change_material_marker,
        }
    }

    /// Asserts that the member exists.
    pub fn assert_member_exists(&self) -> (r: Result<(), IdentityDomainError>)
        ensures
            r is Ok <==> self.member_exists,
            r matches Err(e) ==> e == (IdentityDomainError::PolicyDenied { policy: "MemoryReferencePolicy", message: "memory reference change requires an established member" }),
    {
        if self.member_exists {
            return Ok(());
        }
        Err(IdentityDomainError::policy_denied("MemoryReferencePolicy", "memory reference change requires an established member"))
    }

    /// Asserts that at least one formal ref or marker is present.
    pub fn assert_reference_present(&self) -> (r: Result<(), IdentityDomainError>)
        ensures
            r is Ok <==> memory_summary_has_reference(self.source_summary),
            r matches Err(e) ==> e == (IdentityDomainError::PolicyDenied {
                policy: "MemoryReferencePolicy",
                message: "memory reference change requires at least one formal ref or handoff marker",
            }),
    {
        if self.source_summary.has_reference() {
            return Ok(());
        }
        Err(IdentityDomainError::policy_denied(
            "MemoryReferencePolicy",
            "memory reference change requires at least one formal ref or handoff marker",
        ))
    }

    /// Asserts that the source state is allowed for the requested intent.
    pub fn assert_source_trusted(&self) -> (r: Result<(), IdentityDomainError>)
        ensures
            r is Ok <==> memory_source_allows(self.change_intent, self.source_summary),
            r matches Err(e) ==> e == (IdentityDomainError::PolicyDenied {
                policy: "MemoryReferencePolicy",
                message: "source state is not allowed for the requested relation change",
            }),
    {
        let allowed = match self.change_intent {
            MemoryReferenceChangeIntent::LinkMemory => self.source_summary.source_state == MemoryReferenceSourceState::Trusted,
            MemoryReferenceChangeIntent::RefreshState => matches!(
                self.source_summary.source_state,
                MemoryReferenceSourceState::Stale
                    | MemoryReferenceSourceState::Unavailable
                    | MemoryReferenceSourceState::PendingVerification
                    | MemoryReferenceSourceState::Untrusted
            ),
            MemoryReferenceChangeIntent::AttachArchive | MemoryReferenceChangeIntent::RecordArchiveHandoffResult => matches!(
                self.source_summary.source_state,
                MemoryReferenceSourceState::HandoffResultAccepted | MemoryReferenceSourceState::HandoffResultFailed
            ),
            MemoryReferenceChangeIntent::MarkPendingVerification => self.source_summary.requires_verification(),
            _ => false,
        };
        if allowed {
            return Ok(());
        }
        Err(IdentityDomainError::policy_denied("MemoryReferencePolicy", "source state is not allowed for the requested relation change"))
    }

    /// Rejects forbidden body material.
    pub fn assert_body_free(&self) -> (r: Result<(), IdentityDomainError>)
        ensures
            r is Ok <==> memory_material_body_free(self.change_material_marker.material_kind),
            r matches Err(e) ==> e == (IdentityDomainError::PolicyDenied {
                policy: "MemoryReferencePolicy",
                message: "memory, embedding, archive, or receipt body cannot enter identity truth",
            }),
    {
        match self.change_material_marker.material_kind {
            MemoryReferenceChangeMaterialKind::SafeSummaryMarker
            | MemoryReferenceChangeMaterialKind::ReferenceMarkersOnly
            | MemoryReferenceChangeMaterialKind::HandoffMarkerOnly => Ok(()),
            _ => Err(IdentityDomainError::policy_denied(
                "MemoryReferencePolicy",
                "memory, embedding, archive, or receipt body cannot enter identity truth",
            )),
        }
    }

    /// Requires a handoff marker whose material is not a forbidden external body.
    pub fn assert_handoff_marker_body_free(&self) -> (r: Result<(), IdentityDomainError>)
        ensures
            r is Ok <==> (self.source_summary.archive_handoff_ref is Some
                && self.change_material_marker.material_kind != MemoryReferenceChangeMaterialKind::ForbiddenExternalBody),
            r matches Err(e) ==> e == (IdentityDomainError::PolicyDenied { policy: "MemoryReferencePolicy", message: "handoff marker must remain body-free" }),
    {
        if self.source_summary.archive_handoff_ref.is_some()
            && self.change_material_marker.material_kind != MemoryReferenceChangeMaterialKind::ForbiddenExternalBody
        {
            return Ok(());
        }
        Err(IdentityDomainError::policy_denied("MemoryReferencePolicy", "handoff marker must remain body-free"))
    }

    /// Rejects attempts to write or delete external owner truth.
    pub fn assert_not_external_owner_write(&self) -> (r: Result<(), IdentityDomainError>)
        ensures
            r is Ok <==> (self.change_intent != MemoryReferenceChangeIntent::ForbiddenExternalOwnerWrite
                && self.change_intent != MemoryReferenceChangeIntent::ForbiddenExternalBodyDelete),
            r matches Err(e) ==> e == (IdentityDomainError::PolicyDenied {
                policy: "MemoryReferencePolicy",
                message: "identity relation must not write or delete external carrier truth",
            }),
    {
        match self.change_intent {
            MemoryReferenceChangeIntent::ForbiddenExternalOwnerWrite | MemoryReferenceChangeIntent::ForbiddenExternalBodyDelete => {
                Err(IdentityDomainError::policy_denied(
                    "MemoryReferencePolicy",
                    "identity relation must not write or delete external carrier truth",
                ))
            },
            _ => Ok(()),
        }
    }

    /// Restricts writes to command, consumer, or handoff callback channels.
    pub fn assert_allowed_write_channel(&self) -> (r: Result<(), IdentityDomainError>)
        ensures
            r is Ok <==> (self.operation_channel == IdentityOperationChannel::Command
                || self.operation_channel == IdentityOperationChannel::Consumer
                || self.operation_channel == IdentityOperationChannel::HandoffCallback),
            r matches Err(e) ==> e == write_channel_denial(
                "MemoryReferencePolicy",
                self.operation_channel,
                "only command, consumer, or handoff callback channels may write memory relations",
            ),
    {
        match self.operation_channel {
            IdentityOperationChannel::Command | IdentityOperationChannel::Consumer | IdentityOperationChannel::HandoffCallback => Ok(()),
            _ => Err(IdentityDomainError::write_channel_denied(
                "MemoryReferencePolicy",
                self.operation_channel,
                "only command, consumer, or handoff callback channels may write memory relations",
            )),
        }
    }
}

/// Law: no relation state is both usable for a summary and in need of refresh.
pub proof fn lemma_memory_usable_and_refresh_disjoint(kind: MemoryReferenceStateKind)
    ensures
        !(memory_state_usable(kind) && memory_state_needs_refresh(kind)),
{
}

/// Law: a link from a trusted source is usable for a summary, while a link from
/// a pending or untrusted source needs verification; an accepted handoff result
/// never needs refresh, a failed one always does.
pub proof fn lemma_memory_creation_states(s: MemoryReferenceSourceSummary, reason_ref: MemoryReferenceReasonRef, at: IdentityTimestamp)
    ensures
        link_error(s) is None && s.source_state == MemoryReferenceSourceState::Trusted
            ==> memory_state_usable(link_state(s, reason_ref, at).state_kind) && link_state(s, reason_ref, at).memory_ref is Some,
        link_error(s) is None && s.source_state != MemoryReferenceSourceState::Trusted
            ==> memory_state_needs_refresh(link_state(s, reason_ref, at).state_kind),
        archive_error(s) is None && s.source_state == MemoryReferenceSourceState::HandoffResultAccepted
            ==> !memory_state_needs_refresh(archive_state(s, reason_ref, at).state_kind),
        archive_error(s) is None && s.source_state == MemoryReferenceSourceState::HandoffResultFailed
            ==> memory_state_needs_refresh(archive_state(s, reason_ref, at).state_kind),
{
}


/// A memory source may be refreshed exactly when it is not trusted and
/// carries no archive handoff result: a stale, unavailable, pending
/// verification, or untrusted source.
pub proof fn lemma_memory_refresh_takes_untrusted_sources(s: MemoryReferenceSourceSummary)
    ensures
        memory_source_allows(MemoryReferenceChangeIntent::RefreshState, s) <==> !(
            s.source_state == MemoryReferenceSourceState::Trusted
            || s.source_state == MemoryReferenceSourceState::HandoffResultAccepted
            || s.source_state == MemoryReferenceSourceState::HandoffResultFailed
        ),
{
}

/// Outside archive handoff results, linking and refreshing split the
/// sources between them: a source that may be linked may not be refreshed,
/// and a source that may not be linked may be refreshed.
pub proof fn lemma_memory_link_and_refresh_split_sources(s: MemoryReferenceSourceSummary)
    requires
        s.source_state != MemoryReferenceSourceState::HandoffResultAccepted,
        s.source_state != MemoryReferenceSourceState::HandoffResultFailed,
    ensures
        memory_source_allows(MemoryReferenceChangeIntent::LinkMemory, s)
            != memory_source_allows(MemoryReferenceChangeIntent::RefreshState, s),
{
}


/// Every source is taken by exactly one of linking, refreshing, and
/// attaching an archive: a trusted source is linked, an archive handoff
/// result is attached, and any other source is refreshed.
pub proof fn lemma_memory_sources_split_among_link_refresh_archive(s: MemoryReferenceSourceSummary)
    ensures
        ({
            let link = memory_source_allows(MemoryReferenceChangeIntent::LinkMemory, s);
            let refresh = memory_source_allows(MemoryReferenceChangeIntent::RefreshState, s);
            let archive = memory_source_allows(MemoryReferenceChangeIntent::AttachArchive, s);
            ||| link && !refresh && !archive
            ||| !link && refresh && !archive
            ||| !link && !refresh && archive
        }),
        memory_source_allows(MemoryReferenceChangeIntent::AttachArchive, s)
            == memory_source_allows(MemoryReferenceChangeIntent::RecordArchiveHandoffResult, s),
        !memory_source_allows(MemoryReferenceChangeIntent::ForbiddenExternalOwnerWrite, s),
        !memory_source_allows(MemoryReferenceChangeIntent::ForbiddenExternalBodyDelete, s),
{
}

/// The memory material guard turns away exactly the materials that carry a
/// body: memory bodies, embeddings or indexes, archive packages, and
/// external bodies; every marker-only material passes.
pub proof fn lemma_memory_guard_refuses_only_bodies(kind: crate::contracts::refs::MemoryReferenceChangeMaterialKind)
    ensures
        memory_material_body_free(kind) <==> !(
            kind == crate::contracts::refs::MemoryReferenceChangeMaterialKind::ForbiddenMemoryBody
            || kind == crate::contracts::refs::MemoryReferenceChangeMaterialKind::ForbiddenEmbeddingOrIndex
            || kind == crate::contracts::refs::MemoryReferenceChangeMaterialKind::ForbiddenArchivePackage
            || kind == crate::contracts::refs::MemoryReferenceChangeMaterialKind::ForbiddenExternalBody
        ),
{
}

/// Every memory reference state is exactly one of: usable, in need of a
/// refresh, or waiting on an archive handoff.
pub proof fn lemma_memory_states_partition(kind: MemoryReferenceStateKind)
    ensures
        memory_state_usable(kind) || memory_state_needs_refresh(kind) || kind == MemoryReferenceStateKind::HandoffPending,
        !(memory_state_usable(kind) && memory_state_needs_refresh(kind)),
        kind == MemoryReferenceStateKind::HandoffPending ==> !memory_state_usable(kind) && !memory_state_needs_refresh(kind),
{
}


/// A memory source needs verification exactly when it is neither trusted
/// nor an accepted archive handoff result, and every source that may be
/// refreshed needs verification.
pub proof fn lemma_memory_verification_sources(s: MemoryReferenceSourceSummary)
    ensures
        crate::contracts::refs::memory_summary_requires_verification(s) <==> !(
            s.source_state == MemoryReferenceSourceState::Trusted
            || s.source_state == MemoryReferenceSourceState::HandoffResultAccepted),
        memory_source_allows(MemoryReferenceChangeIntent::RefreshState, s) ==> crate::contracts::refs::memory_summary_requires_verification(s),
{
}

/// A relation is linked exactly from a trusted source that names its memory,
/// or from a source still pending verification or untrusted; it is attached
/// to an archive exactly from a handoff result that names its handoff; and
/// no source does both.
pub proof fn lemma_memory_link_and_archive_sources(s: MemoryReferenceSourceSummary)
    ensures
        link_error(s) is None <==> (
            (s.source_state == MemoryReferenceSourceState::Trusted && s.memory_ref is Some)
            || s.source_state == MemoryReferenceSourceState::PendingVerification
            || s.source_state == MemoryReferenceSourceState::Untrusted),
        archive_error(s) is None <==> (
            (s.source_state == MemoryReferenceSourceState::HandoffResultAccepted
                || s.source_state == MemoryReferenceSourceState::HandoffResultFailed)
            && s.archive_handoff_ref is Some),
        !(link_error(s) is None && archive_error(s) is None),
{
}

} // verus!
