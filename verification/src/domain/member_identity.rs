//! Core member identity truth and anchor guards.
use vstd::prelude::*;

use crate::actor::ActorRef;
use crate::contracts::refs::{
    GlobalMemberRef, IdentityAnchorReasonRef, IdentityOperationChannel, IdentitySourceOwner,
    IdentitySourceRef, IdentityTimestamp,
};
use crate::domain::errors::{write_channel_denial, IdentityDomainError};

verus! {

/// Anchor state kind for a global member ref.
#[derive(Clone, Copy, Debug, Eq, PartialEq, Structural)]
pub enum IdentityAnchorStateKind {
    /// The member ref has been established and is occupied.
    Established,
    /// The member ref is permanently held after retirement.
    RetiredHeld,
    /// The member ref is permanently held after tombstoning.
    TombstoneHeld,
}

/// The anchor hold matrix: an established anchor may be held after retirement
/// or tombstoning, and a retired hold may become a tombstone hold.
pub open spec fn anchor_hold_allowed(from: IdentityAnchorStateKind, to: IdentityAnchorStateKind) -> bool {
    ||| from == IdentityAnchorStateKind::Established && to == IdentityAnchorStateKind::RetiredHeld
    ||| from == IdentityAnchorStateKind::Established && to == IdentityAnchorStateKind::TombstoneHeld
    ||| from == IdentityAnchorStateKind::RetiredHeld && to == IdentityAnchorStateKind::TombstoneHeld
}

/// Anchor state for a global member ref.
#[derive(Debug, Eq, PartialEq)]
pub struct IdentityAnchorState {
    /// Current anchor state kind.
    pub state_kind: IdentityAnchorStateKind,
    /// Hold reason for non-initial states.
    pub reason_ref: Option<IdentityAnchorReasonRef>,
    /// Last change timestamp.
    pub changed_at: IdentityTimestamp,
}

impl Clone for IdentityAnchorState {
    fn clone(&self) -> (r: Self)
        ensures
            r == *self,
    {
        IdentityAnchorState { state_kind: self.state_kind, reason_ref: self.reason_ref.clone(), changed_at: self.changed_at }
    }
}

impl IdentityAnchorState {
    /// Creates the initial established anchor state.
    pub fn established(changed_at: IdentityTimestamp) -> (r: Self)
        ensures
            r == (IdentityAnchorState { state_kind: IdentityAnchorStateKind::Established, reason_ref: None, changed_at }),
    {
        IdentityAnchorState { state_kind: IdentityAnchorStateKind::Established, reason_ref: None, changed_at }
    }

    /// Creates a retired-hold anchor state.
    pub fn retired_held(reason_ref: IdentityAnchorReasonRef, changed_at: IdentityTimestamp) -> (r: Self)
        ensures
            r == (IdentityAnchorState { state_kind: IdentityAnchorStateKind::RetiredHeld, reason_ref: Some(reason_ref), changed_at }),
    {
        IdentityAnchorState { state_kind: IdentityAnchorStateKind::RetiredHeld, reason_ref: Some(reason_ref), changed_at }
    }

    /// Creates a tombstone-hold anchor state.
    pub fn tombstone_held(reason_ref: IdentityAnchorReasonRef, changed_at: IdentityTimestamp) -> (r: Self)
        ensures
            r == (IdentityAnchorState { state_kind: IdentityAnchorStateKind::TombstoneHeld, reason_ref: Some(reason_ref), changed_at }),
    {
        IdentityAnchorState { state_kind: IdentityAnchorStateKind::TombstoneHeld, reason_ref: Some(reason_ref), changed_at }
    }

    /// A member ref is never reusable, whatever its anchor state.
    pub fn is_reusable(&self) -> (r: bool)
        ensures
            !r,
    {
        false
    }

    /// Returns whether the anchor is tombstone-held.
    pub fn is_tombstone_held(&self) -> (r: bool)
        ensures
            r == (self.state_kind == IdentityAnchorStateKind::TombstoneHeld),
    {
        self.state_kind == IdentityAnchorStateKind::TombstoneHeld
    }
}

/// Global member truth aggregate.
#[derive(Debug, Eq, PartialEq)]
pub struct GlobalMember {
    /// Stable member ref.
    pub member_ref: GlobalMemberRef,
    /// Current anchor state.
    pub anchor_state: IdentityAnchorState,
    /// Body-free creation source.
    pub source_ref: IdentitySourceRef,
    /// Actor that established the member truth.
    pub created_by_ref: ActorRef,
    /// Creation timestamp.
    pub created_at: IdentityTimestamp,
}

impl Clone for GlobalMember {
    fn clone(&self) -> (r: Self)
        ensures
            r == *self,
    {
        GlobalMember {
            member_ref: self.member_ref.clone(),
            anchor_state: self.anchor_state.clone(),
            source_ref: self.source_ref.clone(),
            created_by_ref: self.created_by_ref.clone(),
            created_at: self.created_at,
        }
    }
}

/// The rejection `hold_anchor` reports for a move outside the hold matrix.
pub open spec fn anchor_transition_error() -> IdentityDomainError {
    IdentityDomainError::InvalidStateTransition { entity: "IdentityAnchorState", message: "anchor hold transition is not allowed" }
}

impl GlobalMember {
    /// Establishes a new global member truth with an established anchor; it
    /// always succeeds.
    pub fn establish(
        member_ref: GlobalMemberRef,
        source_ref: IdentitySourceRef,
        actor_ref: ActorRef,
        created_at: IdentityTimestamp,
    ) -> (r: Result<Self, IdentityDomainError>)
        ensures
            r == Ok::<GlobalMember, IdentityDomainError>(GlobalMember {
                member_ref,
                anchor_state: IdentityAnchorState { state_kind: IdentityAnchorStateKind::Established, reason_ref: None, changed_at: created_at },
                source_ref,
                created_by_ref: actor_ref,
                created_at,
            }),
    {
        Ok(GlobalMember {
            member_ref,
            anchor_state: IdentityAnchorState::established(created_at),
            source_ref,
            created_by_ref: actor_ref,
            created_at,
        })
    }

    /// Returns the stable member ref.
    pub fn to_ref(&self) -> (r: GlobalMemberRef)
        ensures
            r == self.member_ref,
    {
        self.member_ref.clone()
    }

    /// Asserts that the provided ref names the same member as this truth subject.
    pub fn assert_same_ref(&self, member_ref: GlobalMemberRef) -> (r: Result<(), IdentityDomainError>)
        ensures
            r is Ok <==> self.member_ref.member_id@ == member_ref.member_id@,
            r matches Err(e) ==> e == (IdentityDomainError::InvalidInput { field: "member_ref", message: "member ref does not match loaded member truth" }),
    {
        if self.member_ref.same_member(&member_ref) {
            return Ok(());
        }
        Err(IdentityDomainError::invalid_input("member_ref", "member ref does not match loaded member truth"))
    }

    /// Moves the anchor into a hold state after lifecycle terminal handling. The
    /// move must follow the hold matrix and carry a reason; a refused move
    /// leaves the member unchanged.
    pub fn hold_anchor(&mut self, anchor_state: IdentityAnchorState, _actor_ref: ActorRef) -> (r: Result<(), IdentityDomainError>)
        ensures
            r is Ok <==> (anchor_hold_allowed(old(self).anchor_state.state_kind, anchor_state.state_kind) && anchor_state.reason_ref is Some),
            r is Ok ==> *final(self) == (GlobalMember { anchor_state, ..*old(self) }),
            r is Err ==> *final(self) == *old(self),
            r matches Err(e) ==> if !anchor_hold_allowed(old(self).anchor_state.state_kind, anchor_state.state_kind) {
                e == anchor_transition_error()
            } else {
                e == (IdentityDomainError::MissingRequiredField { field: "reason_ref" })
            },
    {
        let allowed = match (self.anchor_state.state_kind, anchor_state.state_kind) {
            (IdentityAnchorStateKind::Established, IdentityAnchorStateKind::RetiredHeld)
            | (IdentityAnchorStateKind::Established, IdentityAnchorStateKind::TombstoneHeld)
            | (IdentityAnchorStateKind::RetiredHeld, IdentityAnchorStateKind::TombstoneHeld) => true,
            _ => false,
        };
        if !allowed {
            return Err(IdentityDomainError::invalid_state_transition("IdentityAnchorState", "anchor hold transition is not allowed"));
        }
        if anchor_state.reason_ref.is_none() {
            return Err(IdentityDomainError::missing_required_field("reason_ref"));
        }
        self.anchor_state = anchor_state;
        Ok(())
    }
}

/// Guard for member establishment and read-only no-create boundaries.
#[derive(Debug, Eq, PartialEq)]
pub struct IdentityAnchorPolicy {
    /// Candidate member ref.
    pub candidate_member_ref: GlobalMemberRef,
    /// Optional creation source.
    pub source_ref: Option<IdentitySourceRef>,
    /// Optional actor.
    pub actor_ref: Option<ActorRef>,
    /// Existing anchor state if the ref is already occupied.
    pub existing_anchor_state: Option<IdentityAnchorState>,
    /// Current operation channel.
    pub operation_channel: IdentityOperationChannel,
}

impl Clone for IdentityAnchorPolicy {
    fn clone(&self) -> (r: Self)
        ensures
            r == *self,
    {
        IdentityAnchorPolicy {
            candidate_member_ref: self.candidate_member_ref.clone(),
            source_ref: self.source_ref.clone(),
            actor_ref: self.actor_ref.clone(),
            existing_anchor_state: self.existing_anchor_state.clone(),
            operation_channel: self.operation_channel,
        }
    }
}

/// Whether a channel may establish member truth.
pub open spec fn channel_may_establish(channel: IdentityOperationChannel) -> bool {
    channel == IdentityOperationChannel::Command || channel == IdentityOperationChannel::Consumer
}

/// Whether a source owner is barred from establishing member truth.
pub open spec fn owner_barred_from_establish(owner: IdentitySourceOwner) -> bool {
    owner == IdentitySourceOwner::Runtime || owner == IdentitySourceOwner::Work
}

/// The first establishment rule a policy breaks, checked in order: occupied
/// ref, channel, source owner, missing source, missing actor. `None` when the
/// member may be established.
pub open spec fn establish_violation(policy: IdentityAnchorPolicy) -> Option<IdentityDomainError> {
    if policy.existing_anchor_state is Some {
        Some(IdentityDomainError::PolicyDenied { policy: "IdentityAnchorPolicy", message: "member ref is already occupied and cannot be reused" })
    } else if !channel_may_establish(policy.operation_channel) {
        Some(write_channel_denial("IdentityAnchorPolicy", policy.operation_channel, "only command or consumer channels may establish a member truth"))
    } else if policy.source_ref matches Some(s) && owner_barred_from_establish(s.source_owner) {
        Some(IdentityDomainError::PolicyDenied { policy: "IdentityAnchorPolicy", message: "runtime or work truth cannot establish member identity truth" })
    } else if policy.source_ref is None {
        Some(IdentityDomainError::MissingRequiredField { field: "source_ref" })
    } else if policy.actor_ref is None {
        Some(IdentityDomainError::MissingRequiredField { field: "actor_ref" })
    } else {
        None
    }
}

impl IdentityAnchorPolicy {
    /// Creates a policy for explicit member establishment.
    pub fn for_create(
        member_ref: GlobalMemberRef,
        source_ref: IdentitySourceRef,
        actor_ref: ActorRef,
        existing_anchor_state: Option<IdentityAnchorState>,
        operation_channel: IdentityOperationChannel,
    ) -> (r: Self)
        ensures
            r == (IdentityAnchorPolicy {
                candidate_member_ref: member_ref,
                source_ref: Some(source_ref),
                actor_ref: Some(actor_ref),
                existing_anchor_state,
                operation_channel,
            }),
    {
        IdentityAnchorPolicy {
            candidate_member_ref: member_ref,
            source_ref: Some(source_ref),
            actor_ref: Some(actor_ref),
            existing_anchor_state,
            operation_channel,
        }
    }

    /// Creates a policy for read-only anchor access: no source, actor, or
    /// existing anchor.
    pub fn for_read(member_ref: GlobalMemberRef, operation_channel: IdentityOperationChannel) -> (r: Self)
        ensures
            r == (IdentityAnchorPolicy {
                candidate_member_ref: member_ref,
                source_ref: None,
                actor_ref: None,
                existing_anchor_state: None,
                operation_channel,
            }),
    {
        IdentityAnchorPolicy { candidate_member_ref: member_ref, source_ref: None, actor_ref: None, existing_anchor_state: None, operation_channel }
    }

    /// Runs all establishment guards, reporting the first that fails.
    pub fn assert_can_establish(&self) -> (r: Result<(), IdentityDomainError>)
        ensures
            r is Ok <==> establish_violation(*self) is None,
            r matches Err(e) ==> establish_violation(*self) == Some(e),
    {
        match self.assert_ref_not_reused() {
            Err(e) => return Err(e),
            Ok(()) => {},
        }
        match self.assert_query_does_not_create() {
            Err(e) => return Err(e),
            Ok(()) => {},
        }
        match self.assert_not_external_account_truth() {
            Err(e) => return Err(e),
            Ok(()) => {},
        }
        if self.source_ref.is_none() {
            return Err(IdentityDomainError::missing_required_field("source_ref"));
        }
        if self.actor_ref.is_none() {
            return Err(IdentityDomainError::missing_required_field("actor_ref"));
        }
        Ok(())
    }

    /// Rejects any attempt to reuse an occupied member ref.
    pub fn assert_ref_not_reused(&self) -> (r: Result<(), IdentityDomainError>)
        ensures
            r is Ok <==> self.existing_anchor_state is None,
            r matches Err(e) ==> e == (IdentityDomainError::PolicyDenied { policy: "IdentityAnchorPolicy", message: "member ref is already occupied and cannot be reused" }),
    {
        if self.existing_anchor_state.is_some() {
            return Err(IdentityDomainError::policy_denied("IdentityAnchorPolicy", "member ref is already occupied and cannot be reused"));
        }
        Ok(())
    }

    /// Rejects create-like behavior on channels other than command and consumer.
    pub fn assert_query_does_not_create(&self) -> (r: Result<(), IdentityDomainError>)
        ensures
            r is Ok <==> channel_may_establish(self.operation_channel),
            r matches Err(e) ==> e == write_channel_denial(
                "IdentityAnchorPolicy",
                self.operation_channel,
                "only command or consumer channels may establish a member truth",
            ),
    {
        match self.operation_channel {
            IdentityOperationChannel::Command | IdentityOperationChannel::Consumer => Ok(()),
            _ => Err(IdentityDomainError::write_channel_denied(
                "IdentityAnchorPolicy",
                self.operation_channel,
                "only command or consumer channels may establish a member truth",
            )),
        }
    }

    /// Rejects runtime and work sources, which may not create member truth; a
    /// policy without a source passes.
    pub fn assert_not_external_account_truth(&self) -> (r: Result<(), IdentityDomainError>)
        ensures
            r is Ok <==> !(self.source_ref matches Some(s) && owner_barred_from_establish(s.source_owner)),
            r matches Err(e) ==> e == (IdentityDomainError::PolicyDenied { policy: "IdentityAnchorPolicy", message: "runtime or work truth cannot establish member identity truth" }),
    {
        match &self.source_ref {
            None => Ok(()),
            Some(source_ref) => match source_ref.owner() {
                IdentitySourceOwner::Runtime | IdentitySourceOwner::Work => Err(IdentityDomainError::invalid_source_owner(
                    "IdentityAnchorPolicy",
                    source_ref.owner(),
                    "runtime or work truth cannot establish member identity truth",
                )),
                _ => Ok(()),
            },
        }
    }
}

/// Law: an anchor hold never returns to `Established`, a tombstone hold is
/// final, and every allowed hold ends in a held state.
pub proof fn lemma_anchor_hold_is_one_way(from: IdentityAnchorStateKind, to: IdentityAnchorStateKind)
    ensures
        !anchor_hold_allowed(from, IdentityAnchorStateKind::Established),
        !anchor_hold_allowed(IdentityAnchorStateKind::TombstoneHeld, to),
        anchor_hold_allowed(from, to) ==> to != from,
{
}

/// Law: an occupied member ref is always refused, and a read-only policy can
/// never establish a member, whatever its channel.
pub proof fn lemma_establish_refusals(policy: IdentityAnchorPolicy, read_policy: IdentityAnchorPolicy)
    requires
        read_policy.source_ref is None,
    ensures
        policy.existing_anchor_state is Some ==> establish_violation(policy) is Some,
        establish_violation(read_policy) is Some,
        establish_violation(policy) is None ==> channel_may_establish(policy.operation_channel),
{
}


/// The rank of an anchor state along the one-way hold order: established,
/// then retired held, then tombstone held.
pub open spec fn anchor_hold_rank(kind: IdentityAnchorStateKind) -> int {
    match kind {
        IdentityAnchorStateKind::Established => 0,
        IdentityAnchorStateKind::RetiredHeld => 1,
        IdentityAnchorStateKind::TombstoneHeld => 2,
    }
}

/// An anchor may be held exactly forward along the hold order: every move
/// to a later state is allowed, and no move to the same or an earlier one.
pub proof fn lemma_anchor_hold_moves_forward(from: IdentityAnchorStateKind, to: IdentityAnchorStateKind)
    ensures
        anchor_hold_allowed(from, to) <==> anchor_hold_rank(from) < anchor_hold_rank(to),
{
}

/// Only the command and consumer channels may establish a member: queries,
/// jobs, handoff callbacks, and projection maintenance never may.
pub proof fn lemma_establish_channels(channel: crate::contracts::refs::IdentityOperationChannel)
    ensures
        channel_may_establish(channel) <==> !(
            channel == crate::contracts::refs::IdentityOperationChannel::Query
            || channel == crate::contracts::refs::IdentityOperationChannel::Job
            || channel == crate::contracts::refs::IdentityOperationChannel::HandoffCallback
            || channel == crate::contracts::refs::IdentityOperationChannel::ProjectionMaintenance
        ),
{
}

} // verus!
