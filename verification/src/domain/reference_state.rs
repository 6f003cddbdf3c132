//! External reference resolution state helpers.
use vstd::prelude::*;

use crate::contracts::receipts::MaintenanceIssueRef;
use crate::contracts::refs::{
    ExternalReferenceRef, ExternalReferenceSafeSummaryRef, ExternalSourceVersionRef,
    IdentityReferenceOwnerRef, IdentityTimestamp, ReferenceResolutionStateRef,
};
use crate::domain::errors::IdentityDomainError;

verus! {

/// External reference resolution state kind.
#[derive(Clone, Copy, Debug, Eq, PartialEq, Structural)]
pub enum ReferenceResolutionStateKind {
    /// External reference was resolved with safe summary material.
    Resolved,
    /// External source version changed or resolution is stale.
    Stale,
    /// External dependency is unavailable.
    Unavailable,
    /// External reference is not recognized by the formal resolver boundary.
    Unrecognized,
    /// Reference state requires report-only reconciliation.
    PendingReconciliation,
    /// Refresh attempt failed.
    RefreshFailed,
}

/// The resolution transition matrix: whether a reference in state `from` may
/// move to state `to`.
pub open spec fn reference_transition_allowed(from: ReferenceResolutionStateKind, to: ReferenceResolutionStateKind) -> bool {
    match to {
        ReferenceResolutionStateKind::Stale => from == ReferenceResolutionStateKind::Resolved || from == ReferenceResolutionStateKind::RefreshFailed,
        ReferenceResolutionStateKind::Unavailable => {
            ||| from == ReferenceResolutionStateKind::Resolved
            ||| from == ReferenceResolutionStateKind::Stale
            ||| from == ReferenceResolutionStateKind::PendingReconciliation
        },
        ReferenceResolutionStateKind::PendingReconciliation => from != ReferenceResolutionStateKind::PendingReconciliation,
        ReferenceResolutionStateKind::RefreshFailed => {
            ||| from == ReferenceResolutionStateKind::Stale
            ||| from == ReferenceResolutionStateKind::Unavailable
            ||| from == ReferenceResolutionStateKind::PendingReconciliation
        },
        ReferenceResolutionStateKind::Resolved => false,
        ReferenceResolutionStateKind::Unrecognized => false,
    }
}

/// Whether a reference in this state only feeds reports.
pub open spec fn reference_report_only(kind: ReferenceResolutionStateKind) -> bool {
    ||| kind == ReferenceResolutionStateKind::Unavailable
    ||| kind == ReferenceResolutionStateKind::Unrecognized
    ||| kind == ReferenceResolutionStateKind::PendingReconciliation
    ||| kind == ReferenceResolutionStateKind::RefreshFailed
}

/// Whether a reference in this state needs reconciliation.
pub open spec fn reference_needs_reconciliation(kind: ReferenceResolutionStateKind) -> bool {
    kind == ReferenceResolutionStateKind::PendingReconciliation || kind == ReferenceResolutionStateKind::RefreshFailed
}

/// Resolution state for an external reference used by identity.
#[derive(Debug, Eq, PartialEq)]
pub struct ReferenceResolutionState {
    /// Resolution state identity.
    pub resolution_state_ref: ReferenceResolutionStateRef,
    /// External reference being resolved.
    pub external_reference_ref: ExternalReferenceRef,
    /// Local identity owner that uses the external reference.
    pub reference_owner_ref: IdentityReferenceOwnerRef,
    /// Current resolution state.
    pub state_kind: ReferenceResolutionStateKind,
    /// External source version observed by resolver or event mapper.
    pub source_version_ref: Option<ExternalSourceVersionRef>,
    /// Body-free safe summary marker for the resolved external reference.
    pub safe_summary_ref: Option<ExternalReferenceSafeSummaryRef>,
    /// Safe issue marker for unavailable, unrecognized, pending, or failed states.
    pub issue_ref: Option<MaintenanceIssueRef>,
    /// Latest resolution or refresh timestamp.
    pub checked_at: IdentityTimestamp,
}

impl Clone for ReferenceResolutionState {
    fn clone(&self) -> (r: Self)
        ensures
            r == *self,
    {
        ReferenceResolutionState {
            resolution_state_ref: self.resolution_state_ref.clone(),
            external_reference_ref: self.external_reference_ref.clone(),
            reference_owner_ref: self.reference_owner_ref.clone(),
            state_kind: self.state_kind,
            source_version_ref: self.source_version_ref.clone(),
            safe_summary_ref: self.safe_summary_ref.clone(),
            issue_ref: self.issue_ref.clone(),
            checked_at: self.checked_at,
        }
    }
}

/// Whether a resolution state may back an accepted truth update.
pub open spec fn reference_usable(state: ReferenceResolutionState) -> bool {
    state.state_kind == ReferenceResolutionStateKind::Resolved && state.source_version_ref is Some && state.safe_summary_ref is Some
}

/// The rejection every refused resolution move reports.
pub open spec fn reference_transition_error(message: &'static str) -> IdentityDomainError {
    IdentityDomainError::InvalidStateTransition { entity: "ReferenceResolutionState", message }
}

impl ReferenceResolutionState {
    /// Creates a resolved reference state.
    pub fn resolved(
        resolution_state_ref: ReferenceResolutionStateRef,
        external_reference_ref: ExternalReferenceRef,
        reference_owner_ref: IdentityReferenceOwnerRef,
        source_version_ref: ExternalSourceVersionRef,
        safe_summary_ref: ExternalReferenceSafeSummaryRef,
        checked_at: IdentityTimestamp,
    ) -> (r: Self)
        ensures
            r == (ReferenceResolutionState {
                resolution_state_ref,
                external_reference_ref,
                reference_owner_ref,
                state_kind: ReferenceResolutionStateKind::Resolved,
                source_version_ref: Some(source_version_ref),
                safe_summary_ref: Some(safe_summary_ref),
                issue_ref: None,
                checked_at,
            }),
    {
        ReferenceResolutionState {
            resolution_state_ref,
            external_reference_ref,
            reference_owner_ref,
            state_kind: ReferenceResolutionStateKind::Resolved,
            source_version_ref: Some(source_version_ref),
            safe_summary_ref: Some(safe_summary_ref),
            issue_ref: None,
            checked_at,
        }
    }

    /// Creates an unavailable reference state.
    pub fn unavailable(
        resolution_state_ref: ReferenceResolutionStateRef,
        external_reference_ref: ExternalReferenceRef,
        reference_owner_ref: IdentityReferenceOwnerRef,
        issue_ref: MaintenanceIssueRef,
        checked_at: IdentityTimestamp,
    ) -> (r: Self)
        ensures
            r == (ReferenceResolutionState {
                resolution_state_ref,
                external_reference_ref,
                reference_owner_ref,
                state_kind: ReferenceResolutionStateKind::Unavailable,
                source_version_ref: None,
                safe_summary_ref: None,
                issue_ref: Some(issue_ref),
                checked_at,
            }),
    {
        ReferenceResolutionState {
            resolution_state_ref,
            external_reference_ref,
            reference_owner_ref,
            state_kind: ReferenceResolutionStateKind::Unavailable,
            source_version_ref: None,
            safe_summary_ref: None,
            issue_ref: Some(issue_ref),
            checked_at,
        }
    }

    /// Creates an unrecognized reference state.
    pub fn unrecognized(
        resolution_state_ref: ReferenceResolutionStateRef,
        external_reference_ref: ExternalReferenceRef,
        reference_owner_ref: IdentityReferenceOwnerRef,
        issue_ref: MaintenanceIssueRef,
        checked_at: IdentityTimestamp,
    ) -> (r: Self)
        ensures
            r == (ReferenceResolutionState {
                resolution_state_ref,
                external_reference_ref,
                reference_owner_ref,
                state_kind: ReferenceResolutionStateKind::Unrecognized,
                source_version_ref: None,
                safe_summary_ref: None,
                issue_ref: Some(issue_ref),
                checked_at,
            }),
    {
        ReferenceResolutionState {
            resolution_state_ref,
            external_reference_ref,
            reference_owner_ref,
            state_kind: ReferenceResolutionStateKind::Unrecognized,
            source_version_ref: None,
            safe_summary_ref: None,
            issue_ref: Some(issue_ref),
            checked_at,
        }
    }

    /// Returns whether the state is usable for accepted truth updates.
    pub fn is_usable_for_truth_update(&self) -> (r: bool)
        ensures
            r == reference_usable(*self),
    {
        self.state_kind == ReferenceResolutionStateKind::Resolved && self.source_version_ref.is_some() && self.safe_summary_ref.is_some()
    }

    /// Returns whether the state is report-only.
    pub fn is_report_only(&self) -> (r: bool)
        ensures
            r == reference_report_only(self.state_kind),
    {
        matches!(
            self.state_kind,
            ReferenceResolutionStateKind::Unavailable
                | ReferenceResolutionStateKind::Unrecognized
                | ReferenceResolutionStateKind::PendingReconciliation
                | ReferenceResolutionStateKind::RefreshFailed
        )
    }

    /// Returns whether reconciliation is required.
    pub fn requires_reconciliation(&self) -> (r: bool)
        ensures
            r == reference_needs_reconciliation(self.state_kind),
    {
        matches!(self.state_kind, ReferenceResolutionStateKind::PendingReconciliation | ReferenceResolutionStateKind::RefreshFailed)
    }

    /// Marks a resolved or failed reference stale with the new source version.
    /// A refused move leaves the state unchanged.
    pub fn mark_stale(&mut self, source_version_ref: ExternalSourceVersionRef, checked_at: IdentityTimestamp) -> (r: Result<(), IdentityDomainError>)
        ensures
            r is Ok <==> reference_transition_allowed(old(self).state_kind, ReferenceResolutionStateKind::Stale),
            r is Ok ==> *final(self) == (ReferenceResolutionState {
                state_kind: ReferenceResolutionStateKind::Stale,
                source_version_ref: Some(source_version_ref),
                checked_at,
                ..*old(self)
            }),
            r is Err ==> *final(self) == *old(self),
            r matches Err(e) ==> e == reference_transition_error("reference state can become stale only from resolved or refresh failed state"),
    {
        match self.state_kind {
            ReferenceResolutionStateKind::Resolved | ReferenceResolutionStateKind::RefreshFailed => {
                self.state_kind = ReferenceResolutionStateKind::Stale;
                self.source_version_ref = Some(source_version_ref);
                self.checked_at = checked_at;
                Ok(())
            },
            _ => Err(IdentityDomainError::invalid_state_transition(
                "ReferenceResolutionState",
                "reference state can become stale only from resolved or refresh failed state",
            )),
        }
    }

    /// Marks the reference unavailable, recording the issue and dropping the safe
    /// summary. A refused move leaves the state unchanged.
    pub fn mark_unavailable(&mut self, issue_ref: MaintenanceIssueRef, checked_at: IdentityTimestamp) -> (r: Result<(), IdentityDomainError>)
        ensures
            r is Ok <==> reference_transition_allowed(old(self).state_kind, ReferenceResolutionStateKind::Unavailable),
            r is Ok ==> *final(self) == (ReferenceResolutionState {
                state_kind: ReferenceResolutionStateKind::Unavailable,
                issue_ref: Some(issue_ref),
                safe_summary_ref: None,
                checked_at,
                ..*old(self)
            }),
            r is Err ==> *final(self) == *old(self),
            r matches Err(e) ==> e == reference_transition_error("reference state cannot become unavailable from the current state"),
    {
        match self.state_kind {
            ReferenceResolutionStateKind::Resolved
            | ReferenceResolutionStateKind::Stale
            | ReferenceResolutionStateKind::PendingReconciliation => {
                self.state_kind = ReferenceResolutionStateKind::Unavailable;
                self.issue_ref = Some(issue_ref);
                self.safe_summary_ref = None;
                self.checked_at = checked_at;
                Ok(())
            },
            _ => Err(IdentityDomainError::invalid_state_transition(
                "ReferenceResolutionState",
                "reference state cannot become unavailable from the current state",
            )),
        }
    }

    /// Marks the reference pending reconciliation with an issue marker. A refused
    /// move leaves the state unchanged.
    pub fn mark_pending_reconciliation(&mut self, issue_ref: MaintenanceIssueRef, checked_at: IdentityTimestamp) -> (r: Result<(), IdentityDomainError>)
        ensures
            r is Ok <==> reference_transition_allowed(old(self).state_kind, ReferenceResolutionStateKind::PendingReconciliation),
            r is Ok ==> *final(self) == (ReferenceResolutionState {
                state_kind: ReferenceResolutionStateKind::PendingReconciliation,
                issue_ref: Some(issue_ref),
                checked_at,
                ..*old(self)
            }),
            r is Err ==> *final(self) == *old(self),
            r matches Err(e) ==> e == reference_transition_error("reference state cannot enter pending reconciliation from the current state"),
    {
        match self.state_kind {
            ReferenceResolutionStateKind::Resolved
            | ReferenceResolutionStateKind::Stale
            | ReferenceResolutionStateKind::Unavailable
            | ReferenceResolutionStateKind::Unrecognized
            | ReferenceResolutionStateKind::RefreshFailed => {
                self.state_kind = ReferenceResolutionStateKind::PendingReconciliation;
                self.issue_ref = Some(issue_ref);
                self.checked_at = checked_at;
                Ok(())
            },
            _ => Err(IdentityDomainError::invalid_state_transition(
                "ReferenceResolutionState",
                "reference state cannot enter pending reconciliation from the current state",
            )),
        }
    }

    /// Marks the refresh failed with an issue marker. A refused move leaves the
    /// state unchanged.
    pub fn mark_refresh_failed(&mut self, issue_ref: MaintenanceIssueRef, checked_at: IdentityTimestamp) -> (r: Result<(), IdentityDomainError>)
        ensures
            r is Ok <==> reference_transition_allowed(old(self).state_kind, ReferenceResolutionStateKind::RefreshFailed),
            r is Ok ==> *final(self) == (ReferenceResolutionState {
                state_kind: ReferenceResolutionStateKind::RefreshFailed,
                issue_ref: Some(issue_ref),
                checked_at,
                ..*old(self)
            }),
            r is Err ==> *final(self) == *old(self),
            r matches Err(e) ==> e == reference_transition_error("reference refresh can fail only from stale, unavailable, or pending reconciliation"),
    {
        match self.state_kind {
            ReferenceResolutionStateKind::Stale
            | ReferenceResolutionStateKind::Unavailable
            | ReferenceResolutionStateKind::PendingReconciliation => {
                self.state_kind = ReferenceResolutionStateKind::RefreshFailed;
                self.issue_ref = Some(issue_ref);
                self.checked_at = checked_at;
                Ok(())
            },
            _ => Err(IdentityDomainError::invalid_state_transition(
                "ReferenceResolutionState",
                "reference refresh can fail only from stale, unavailable, or pending reconciliation",
            )),
        }
    }
}

/// Law: a report-only reference is never usable for a truth update, and no
/// resolution move ever leads back to `Resolved`: once a reference has left the
/// resolved state, no move makes it usable again.
pub proof fn lemma_reference_report_only_never_usable(state: ReferenceResolutionState, from: ReferenceResolutionStateKind)
    ensures
        reference_report_only(state.state_kind) ==> !reference_usable(state),
        reference_transition_allowed(from, state.state_kind) ==> !reference_usable(state),
        reference_needs_reconciliation(state.state_kind) ==> reference_report_only(state.state_kind),
        !reference_transition_allowed(from, ReferenceResolutionStateKind::Resolved),
{
}


/// No reference resolution state moves to itself, and no move ever makes a
/// reference resolved or unrecognized: those only come from resolution.
pub proof fn lemma_reference_moves_never_resolve(from: ReferenceResolutionStateKind, kind: ReferenceResolutionStateKind)
    ensures
        !reference_transition_allowed(kind, kind),
        !reference_transition_allowed(from, ReferenceResolutionStateKind::Unrecognized),
{
}

/// Reconciliation may be requested from every other state.
pub proof fn lemma_reference_reconciliation_from_anywhere(from: ReferenceResolutionStateKind)
    requires
        from != ReferenceResolutionStateKind::PendingReconciliation,
    ensures
        reference_transition_allowed(from, ReferenceResolutionStateKind::PendingReconciliation),
{
}

/// The reference moves other than reconciliation: a reference falls stale
/// only from resolved or refresh-failed; it becomes unavailable only from
/// resolved, stale, or pending reconciliation; and a refresh fails only
/// from stale, unavailable, or pending reconciliation.
pub proof fn lemma_reference_degrading_moves(from: ReferenceResolutionStateKind)
    ensures
        reference_transition_allowed(from, ReferenceResolutionStateKind::Stale) <==> (
            from == ReferenceResolutionStateKind::Resolved || from == ReferenceResolutionStateKind::RefreshFailed),
        reference_transition_allowed(from, ReferenceResolutionStateKind::Unavailable) <==> (
            from == ReferenceResolutionStateKind::Resolved || from == ReferenceResolutionStateKind::Stale
            || from == ReferenceResolutionStateKind::PendingReconciliation),
        reference_transition_allowed(from, ReferenceResolutionStateKind::RefreshFailed) <==> (
            from == ReferenceResolutionStateKind::Stale || from == ReferenceResolutionStateKind::Unavailable
            || from == ReferenceResolutionStateKind::PendingReconciliation),
{
}

} // verus!
