//! Shared domain errors for core identity truth and guard logic.
use vstd::prelude::*;

use crate::contracts::refs::{IdentityOperationChannel, IdentitySourceOwner};

verus! {

/// Domain error used by identity core truth and guard operations.
#[derive(Clone, Debug, Eq, PartialEq)]
pub enum IdentityDomainError {
    /// A required input or marker is missing.
    MissingRequiredField {
        /// Stable field or input name.
        field: &'static str,
    },
    /// An input value or typed combination is invalid.
    InvalidInput {
        /// Stable field or input name.
        field: &'static str,
        /// Caller-safe explanation.
        message: &'static str,
    },
    /// A state transition is not allowed by the formal matrix.
    InvalidStateTransition {
        /// State family that rejected the transition.
        entity: &'static str,
        /// Caller-safe explanation.
        message: &'static str,
    },
    /// A policy or guard rejected the requested operation.
    PolicyDenied {
        /// Stable policy name.
        policy: &'static str,
        /// Caller-safe explanation.
        message: &'static str,
    },
}

/// The explanation a write-channel denial carries: channels that can never write
/// the truth family get a fixed explanation, the others the caller's message.
pub open spec fn write_channel_detail(channel: IdentityOperationChannel, message: &'static str) -> &'static str {
    match channel {
        IdentityOperationChannel::Command => message,
        IdentityOperationChannel::Query => "query channel cannot mutate identity truth",
        IdentityOperationChannel::Consumer => message,
        IdentityOperationChannel::Job => "job channel cannot mutate core identity truth",
        IdentityOperationChannel::HandoffCallback => "handoff callback cannot mutate this truth family",
        IdentityOperationChannel::ProjectionMaintenance => "projection maintenance cannot mutate identity truth",
    }
}

/// The write-channel denial that `policy` reports for `channel`.
pub open spec fn write_channel_denial(policy: &'static str, channel: IdentityOperationChannel, message: &'static str) -> IdentityDomainError {
    IdentityDomainError::PolicyDenied { policy, message: write_channel_detail(channel, message) }
}

impl IdentityDomainError {
    /// Creates a missing-field error.
    pub fn missing_required_field(field: &'static str) -> (r: Self)
        ensures
            r == (IdentityDomainError::MissingRequiredField { field }),
    {
        IdentityDomainError::MissingRequiredField { field }
    }

    /// Creates an invalid-input error.
    pub fn invalid_input(field: &'static str, message: &'static str) -> (r: Self)
        ensures
            r == (IdentityDomainError::InvalidInput { field, message }),
    {
        IdentityDomainError::InvalidInput { field, message }
    }

    /// Creates an invalid-state-transition error.
    pub fn invalid_state_transition(entity: &'static str, message: &'static str) -> (r: Self)
        ensures
            r == (IdentityDomainError::InvalidStateTransition { entity, message }),
    {
        IdentityDomainError::InvalidStateTransition { entity, message }
    }

    /// Creates a policy-denied error.
    pub fn policy_denied(policy: &'static str, message: &'static str) -> (r: Self)
        ensures
            r == (IdentityDomainError::PolicyDenied { policy, message }),
    {
        IdentityDomainError::PolicyDenied { policy, message }
    }

    /// Creates a write-channel denial error.
    pub fn write_channel_denied(policy: &'static str, channel: IdentityOperationChannel, message: &'static str) -> (r: Self)
        ensures
            r == write_channel_denial(policy, channel, message),
    {
        let detail = match channel {
            IdentityOperationChannel::Command => message,
            IdentityOperationChannel::Query => "query channel cannot mutate identity truth",
            IdentityOperationChannel::Consumer => message,
            IdentityOperationChannel::Job => "job channel cannot mutate core identity truth",
            IdentityOperationChannel::HandoffCallback => "handoff callback cannot mutate this truth family",
            IdentityOperationChannel::ProjectionMaintenance => "projection maintenance cannot mutate identity truth",
        };
        Self::policy_denied(policy, detail)
    }

    /// Creates an invalid-source-owner error; the caller's explanation is kept
    /// whatever the owner.
    pub fn invalid_source_owner(policy: &'static str, owner: IdentitySourceOwner, message: &'static str) -> (r: Self)
        ensures
            r == (IdentityDomainError::PolicyDenied { policy, message }),
    {
        let detail = match owner {
            IdentitySourceOwner::Identity => message,
            _ => message,
        };
        Self::policy_denied(policy, detail)
    }
}

} // verus!
