//! Identity domain library: typed refs and public contracts, the core identity
//! truth state machines and their guards, and the application read helpers.
pub mod actor;
pub mod contracts;
pub mod text;
pub mod domain;
pub mod application;
