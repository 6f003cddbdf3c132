//! Domain model: core identity truth, state machines, policies, and guards.
pub mod errors;
pub mod lifecycle;
pub mod handoff;
pub mod outbox;
pub mod projection_state;
pub mod reference_state;
pub mod reconciliation;
pub mod member_identity;
pub mod career;
pub mod memory_reference;
pub mod role_capability;
pub mod trace;
pub mod audit;
