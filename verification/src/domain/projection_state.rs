//! Projection freshness and rebuild state helpers.
use vstd::prelude::*;

use crate::contracts::receipts::MaintenanceIssueRef;
use crate::contracts::refs::{
    GlobalMemberRef, IdentityOperationChannel, IdentityProjectionCursorRef, IdentityProjectionRef,
    IdentityTimestamp, MaintenanceScopeRef, ProjectionStateRef,
};
use crate::domain::errors::{write_channel_denial, IdentityDomainError};

verus! {

/// Projection freshness and rebuild state kind.
#[derive(Clone, Copy, Debug, Eq, PartialEq, Structural)]
pub enum ProjectionStateKind {
    /// Projection is aligned with a known source cursor.
    Fresh,
    /// Projection is behind or known to be stale.
    Stale,
    /// Projection rebuild has been formally requested.
    RebuildPending,
    /// Projection was rebuilt successfully.
    Rebuilt,
    /// Projection may be served only in degraded form.
    Degraded,
    /// Projection rebuild failed.
    RebuildFailed,
}

/// The projection transition matrix: whether a projection in state `from` may
/// move to state `to`.
pub open spec fn projection_transition_allowed(from: ProjectionStateKind, to: ProjectionStateKind) -> bool {
    match to {
        ProjectionStateKind::Stale => from == ProjectionStateKind::Fresh || from == ProjectionStateKind::Rebuilt,
        ProjectionStateKind::RebuildPending => {
            ||| from == ProjectionStateKind::Fresh
            ||| from == ProjectionStateKind::Stale
            ||| from == ProjectionStateKind::Degraded
            ||| from == ProjectionStateKind::RebuildFailed
        },
        ProjectionStateKind::Rebuilt => from == ProjectionStateKind::RebuildPending,
        ProjectionStateKind::Degraded => {
            ||| from == ProjectionStateKind::Fresh
            ||| from == ProjectionStateKind::Stale
            ||| from == ProjectionStateKind::Rebuilt
            ||| from == ProjectionStateKind::RebuildPending
        },
        ProjectionStateKind::RebuildFailed => from == ProjectionStateKind::RebuildPending,
        ProjectionStateKind::Fresh => false,
    }
}

/// Whether a projection in this state may be served on read surfaces.
pub open spec fn projection_servable(kind: ProjectionStateKind) -> bool {
    kind != ProjectionStateKind::RebuildPending
}

/// Whether a projection in this state needs an explicit rebuild path.
pub open spec fn projection_needs_rebuild(kind: ProjectionStateKind) -> bool {
    kind == ProjectionStateKind::Stale || kind == ProjectionStateKind::Degraded || kind == ProjectionStateKind::RebuildFailed
}

/// Projection freshness and rebuild marker for identity-owned derived views.
#[derive(Debug, Eq, PartialEq)]
pub struct ProjectionState {
    /// Projection state identity.
    pub projection_state_ref: ProjectionStateRef,
    /// Projection or derived view being tracked.
    pub projection_ref: IdentityProjectionRef,
    /// Member related to this projection when the projection is member-scoped.
    pub member_ref: Option<GlobalMemberRef>,
    /// Current projection state.
    pub state_kind: ProjectionStateKind,
    /// Accepted fact or committed scan cursor that this projection reflects.
    pub source_cursor_ref: Option<IdentityProjectionCursorRef>,
    /// Scope used by the latest maintenance action.
    pub maintenance_scope_ref: Option<MaintenanceScopeRef>,
    /// Safe issue marker when projection is degraded or failed.
    pub issue_ref: Option<MaintenanceIssueRef>,
    /// Latest check or rebuild timestamp.
    pub checked_at: IdentityTimestamp,
}

impl Clone for ProjectionState {
    fn clone(&self) -> (r: Self)
        ensures
            r == *self,
    {
        ProjectionState {
            projection_state_ref: self.projection_state_ref.clone(),
            projection_ref: self.projection_ref.clone(),
            member_ref: self.member_ref.clone(),
            state_kind: self.state_kind,
            source_cursor_ref: self.source_cursor_ref.clone(),
            maintenance_scope_ref: self.maintenance_scope_ref.clone(),
            issue_ref: self.issue_ref.clone(),
            checked_at: self.checked_at,
        }
    }
}

/// The rejection every refused projection move reports.
pub open spec fn projection_transition_error(message: &'static str) -> IdentityDomainError {
    IdentityDomainError::InvalidStateTransition { entity: "ProjectionState", message }
}

impl ProjectionState {
    /// Creates a fresh projection state.
    pub fn fresh(
        projection_state_ref: ProjectionStateRef,
        projection_ref: IdentityProjectionRef,
        member_ref: Option<GlobalMemberRef>,
        source_cursor_ref: IdentityProjectionCursorRef,
        checked_at: IdentityTimestamp,
    ) -> (r: Self)
        ensures
            r == (ProjectionState {
                projection_state_ref,
                projection_ref,
                member_ref,
                state_kind: ProjectionStateKind::Fresh,
                source_cursor_ref: Some(source_cursor_ref),
                maintenance_scope_ref: None,
                issue_ref: None,
                checked_at,
            }),
    {
        ProjectionState {
            projection_state_ref,
            projection_ref,
            member_ref,
            state_kind: ProjectionStateKind::Fresh,
            source_cursor_ref: Some(source_cursor_ref),
            maintenance_scope_ref: None,
            issue_ref: None,
            checked_at,
        }
    }

    /// Creates a stale projection state.
    pub fn stale(
        projection_state_ref: ProjectionStateRef,
        projection_ref: IdentityProjectionRef,
        member_ref: Option<GlobalMemberRef>,
        source_cursor_ref: IdentityProjectionCursorRef,
        maintenance_scope_ref: MaintenanceScopeRef,
        checked_at: IdentityTimestamp,
    ) -> (r: Self)
        ensures
            r == (ProjectionState {
                projection_state_ref,
                projection_ref,
                member_ref,
                state_kind: ProjectionStateKind::Stale,
                source_cursor_ref: Some(source_cursor_ref),
                maintenance_scope_ref: Some(maintenance_scope_ref),
                issue_ref: None,
                checked_at,
            }),
    {
        ProjectionState {
            projection_state_ref,
            projection_ref,
            member_ref,
            state_kind: ProjectionStateKind::Stale,
            source_cursor_ref: Some(source_cursor_ref),
            maintenance_scope_ref: Some(maintenance_scope_ref),
            issue_ref: None,
            checked_at,
        }
    }

    /// Creates a failed projection state; it carries no member and no cursor.
    pub fn failed(
        projection_state_ref: ProjectionStateRef,
        projection_ref: IdentityProjectionRef,
        issue_ref: MaintenanceIssueRef,
        maintenance_scope_ref: MaintenanceScopeRef,
        checked_at: IdentityTimestamp,
    ) -> (r: Self)
        ensures
            r == (ProjectionState {
                projection_state_ref,
                projection_ref,
                member_ref: None,
                state_kind: ProjectionStateKind::RebuildFailed,
                source_cursor_ref: None,
                maintenance_scope_ref: Some(maintenance_scope_ref),
                issue_ref: Some(issue_ref),
                checked_at,
            }),
    {
        ProjectionState {
            projection_state_ref,
            projection_ref,
            member_ref: None,
            state_kind: ProjectionStateKind::RebuildFailed,
            source_cursor_ref: None,
            maintenance_scope_ref: Some(maintenance_scope_ref),
            issue_ref: Some(issue_ref),
            checked_at,
        }
    }

    /// Returns whether the projection is fresh.
    pub fn is_fresh(&self) -> (r: bool)
        ensures
            r == (self.state_kind == ProjectionStateKind::Fresh),
    {
        self.state_kind == ProjectionStateKind::Fresh
    }

    /// Returns whether the projection may be served for read surfaces.
    pub fn can_serve_read(&self) -> (r: bool)
        ensures
            r == projection_servable(self.state_kind),
    {
        !matches!(self.state_kind, ProjectionStateKind::RebuildPending)
    }

    /// Returns whether the projection requires an explicit rebuild path.
    pub fn requires_rebuild(&self) -> (r: bool)
        ensures
            r == projection_needs_rebuild(self.state_kind),
    {
        matches!(self.state_kind, ProjectionStateKind::Stale | ProjectionStateKind::Degraded | ProjectionStateKind::RebuildFailed)
    }

    /// Marks a fresh or rebuilt projection stale, recording the cursor and scope
    /// and clearing the issue. A refused move leaves the state unchanged.
    pub fn mark_stale(
        &mut self,
        source_cursor_ref: IdentityProjectionCursorRef,
        maintenance_scope_ref: MaintenanceScopeRef,
        checked_at: IdentityTimestamp,
    ) -> (r: Result<(), IdentityDomainError>)
        ensures
            r is Ok <==> projection_transition_allowed(old(self).state_kind, ProjectionStateKind::Stale),
            r is Ok ==> *final(self) == (ProjectionState {
                state_kind: ProjectionStateKind::Stale,
                source_cursor_ref: Some(source_cursor_ref),
                maintenance_scope_ref: Some(maintenance_scope_ref),
                issue_ref: None,
                checked_at,
                ..*old(self)
            }),
            r is Err ==> *final(self) == *old(self),
            r matches Err(e) ==> e == projection_transition_error("projection can become stale only from fresh or rebuilt state"),
    {
        match self.state_kind {
            ProjectionStateKind::Fresh | ProjectionStateKind::Rebuilt => {
                self.state_kind = ProjectionStateKind::Stale;
                self.source_cursor_ref = Some(source_cursor_ref);
                self.maintenance_scope_ref = Some(maintenance_scope_ref);
                self.issue_ref = None;
                self.checked_at = checked_at;
                Ok(())
            },
            _ => Err(IdentityDomainError::invalid_state_transition(
                "ProjectionState",
                "projection can become stale only from fresh or rebuilt state",
            )),
        }
    }

    /// Marks the projection rebuild pending. Only the maintenance job channel may
    /// request a rebuild; the channel is checked before the state. A refused
    /// move leaves the state unchanged.
    pub fn mark_rebuild_pending(
        &mut self,
        maintenance_scope_ref: MaintenanceScopeRef,
        checked_at: IdentityTimestamp,
        operation_channel: IdentityOperationChannel,
    ) -> (r: Result<(), IdentityDomainError>)
        ensures
            r is Ok <==> (operation_channel == IdentityOperationChannel::Job
                && projection_transition_allowed(old(self).state_kind, ProjectionStateKind::RebuildPending)),
            r is Ok ==> *final(self) == (ProjectionState {
                state_kind: ProjectionStateKind::RebuildPending,
                maintenance_scope_ref: Some(maintenance_scope_ref),
                checked_at,
                ..*old(self)
            }),
            r is Err ==> *final(self) == *old(self),
            r matches Err(e) ==> if operation_channel != IdentityOperationChannel::Job {
                e == write_channel_denial("ProjectionState", operation_channel, "only maintenance job channel may request projection rebuild")
            } else {
                e == projection_transition_error("projection cannot enter rebuild pending from the current state")
            },
    {
        if operation_channel != IdentityOperationChannel::Job {
            return Err(IdentityDomainError::write_channel_denied(
                "ProjectionState",
                operation_channel,
                "only maintenance job channel may request projection rebuild",
            ));
        }
        match self.state_kind {
            ProjectionStateKind::Fresh
            | ProjectionStateKind::Stale
            | ProjectionStateKind::Degraded
            | ProjectionStateKind::RebuildFailed => {
                self.state_kind = ProjectionStateKind::RebuildPending;
                self.maintenance_scope_ref = Some(maintenance_scope_ref);
                self.checked_at = checked_at;
                Ok(())
            },
            _ => Err(IdentityDomainError::invalid_state_transition(
                "ProjectionState",
                "projection cannot enter rebuild pending from the current state",
            )),
        }
    }

    /// Marks a pending projection rebuilt, recording the cursor and clearing the
    /// issue. A refused move leaves the state unchanged.
    pub fn mark_rebuilt(
        &mut self,
        source_cursor_ref: IdentityProjectionCursorRef,
        checked_at: IdentityTimestamp,
    ) -> (r: Result<(), IdentityDomainError>)
        ensures
            r is Ok <==> projection_transition_allowed(old(self).state_kind, ProjectionStateKind::Rebuilt),
            r is Ok ==> *final(self) == (ProjectionState {
                state_kind: ProjectionStateKind::Rebuilt,
                source_cursor_ref: Some(source_cursor_ref),
                issue_ref: None,
                checked_at,
                ..*old(self)
            }),
            r is Err ==> *final(self) == *old(self),
            r matches Err(e) ==> e == projection_transition_error("projection can be marked rebuilt only from rebuild pending state"),
    {
        match self.state_kind {
            ProjectionStateKind::RebuildPending => {
                self.state_kind = ProjectionStateKind::Rebuilt;
                self.source_cursor_ref = Some(source_cursor_ref);
                self.issue_ref = None;
                self.checked_at = checked_at;
                Ok(())
            },
            _ => Err(IdentityDomainError::invalid_state_transition(
                "ProjectionState",
                "projection can be marked rebuilt only from rebuild pending state",
            )),
        }
    }

    /// Marks the projection degraded with an issue marker. A refused move leaves
    /// the state unchanged.
    pub fn mark_degraded(&mut self, issue_ref: MaintenanceIssueRef, checked_at: IdentityTimestamp) -> (r: Result<(), IdentityDomainError>)
        ensures
            r is Ok <==> projection_transition_allowed(old(self).state_kind, ProjectionStateKind::Degraded),
            r is Ok ==> *final(self) == (ProjectionState {
                state_kind: ProjectionStateKind::Degraded,
                issue_ref: Some(issue_ref),
                checked_at,
                ..*old(self)
            }),
            r is Err ==> *final(self) == *old(self),
            r matches Err(e) ==> e == projection_transition_error("projection cannot become degraded from the current state"),
    {
        match self.state_kind {
            ProjectionStateKind::Fresh
            | ProjectionStateKind::Stale
            | ProjectionStateKind::Rebuilt
            | ProjectionStateKind::RebuildPending => {
                self.state_kind = ProjectionStateKind::Degraded;
                self.issue_ref = Some(issue_ref);
                self.checked_at = checked_at;
                Ok(())
            },
            _ => Err(IdentityDomainError::invalid_state_transition(
                "ProjectionState",
                "projection cannot become degraded from the current state",
            )),
        }
    }

    /// Marks a pending rebuild failed with an issue marker. A refused move leaves
    /// the state unchanged.
    pub fn mark_rebuild_failed(&mut self, issue_ref: MaintenanceIssueRef, checked_at: IdentityTimestamp) -> (r: Result<(), IdentityDomainError>)
        ensures
            r is Ok <==> projection_transition_allowed(old(self).state_kind, ProjectionStateKind::RebuildFailed),
            r is Ok ==> *final(self) == (ProjectionState {
                state_kind: ProjectionStateKind::RebuildFailed,
                issue_ref: Some(issue_ref),
                checked_at,
                ..*old(self)
            }),
            r is Err ==> *final(self) == *old(self),
            r matches Err(e) ==> e == projection_transition_error("projection rebuild can fail only from rebuild pending state"),
    {
        match self.state_kind {
            ProjectionStateKind::RebuildPending => {
                self.state_kind = ProjectionStateKind::RebuildFailed;
                self.issue_ref = Some(issue_ref);
                self.checked_at = checked_at;
                Ok(())
            },
            _ => Err(IdentityDomainError::invalid_state_transition(
                "ProjectionState",
                "projection rebuild can fail only from rebuild pending state",
            )),
        }
    }
}

/// Law: no projection move ever returns to `Fresh`, a rebuild outcome (rebuilt
/// or failed) is reachable only from a pending rebuild, and a pending rebuild
/// is the one state that cannot be served.
pub proof fn lemma_projection_rebuild_outcomes_need_pending(from: ProjectionStateKind, to: ProjectionStateKind)
    ensures
        !projection_transition_allowed(from, ProjectionStateKind::Fresh),
        (to == ProjectionStateKind::Rebuilt || to == ProjectionStateKind::RebuildFailed) && projection_transition_allowed(from, to)
            ==> from == ProjectionStateKind::RebuildPending,
        !projection_servable(to) <==> to == ProjectionStateKind::RebuildPending,
{
}

/// Law: every projection that needs a rebuild may enter a pending rebuild, is
/// still servable meanwhile, and a rebuilt projection no longer needs one.
pub proof fn lemma_projection_needs_rebuild_is_rebuildable(kind: ProjectionStateKind)
    ensures
        projection_needs_rebuild(kind) ==> projection_transition_allowed(kind, ProjectionStateKind::RebuildPending),
        projection_needs_rebuild(kind) ==> projection_servable(kind),
        !projection_needs_rebuild(ProjectionStateKind::Rebuilt),
        !projection_needs_rebuild(ProjectionStateKind::Fresh),
{
}


/// A projection can fall behind exactly when its material is current: from
/// a fresh projection or from a completed rebuild, and from no other state.
pub proof fn lemma_projection_falls_stale_only_when_current(from: ProjectionStateKind)
    ensures
        projection_transition_allowed(from, ProjectionStateKind::Stale)
            <==> (from == ProjectionStateKind::Fresh || from == ProjectionStateKind::Rebuilt),
{
}

/// The freshness cycle stays open: whatever a rebuild completes can fall
/// behind again, and a stale projection can be sent back to rebuild.
pub proof fn lemma_projection_rebuild_cycle_is_open(from: ProjectionStateKind)
    requires
        projection_transition_allowed(from, ProjectionStateKind::Rebuilt),
    ensures
        projection_transition_allowed(ProjectionStateKind::Rebuilt, ProjectionStateKind::Stale),
        projection_transition_allowed(ProjectionStateKind::Stale, ProjectionStateKind::RebuildPending),
        projection_transition_allowed(ProjectionStateKind::RebuildPending, ProjectionStateKind::Rebuilt),
{
}


/// A rebuild may be requested exactly for a projection that needs one or is
/// still fresh: never while one is pending, and never right after one
/// completed.
pub proof fn lemma_projection_rebuild_requests(from: ProjectionStateKind)
    ensures
        projection_transition_allowed(from, ProjectionStateKind::RebuildPending)
            <==> (projection_needs_rebuild(from) || from == ProjectionStateKind::Fresh),
{
}

/// Any projection that is not already failing may degrade: degrading is
/// refused only from the degraded and rebuild-failed states.
pub proof fn lemma_projection_degrades_unless_failing(from: ProjectionStateKind)
    ensures
        projection_transition_allowed(from, ProjectionStateKind::Degraded)
            <==> !(from == ProjectionStateKind::Degraded || from == ProjectionStateKind::RebuildFailed),
{
}

/// No projection state moves to itself.
pub proof fn lemma_projection_no_self_transition(kind: ProjectionStateKind)
    ensures
        !projection_transition_allowed(kind, kind),
{
}

} // verus!
