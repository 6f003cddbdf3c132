//! Public contracts: typed refs, protocol names, envelopes, and read views.
pub mod commands;
pub mod errors;
pub mod events;
pub mod jobs;
pub mod metadata;
pub mod protocol;
pub mod queries;
pub mod receipts;
pub mod refs;
pub mod views;
