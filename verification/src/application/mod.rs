//! Application services support: operation contexts, idempotency, visibility
//! decisions, job reports, runtime shells, application errors, and the read
//! decisions of query flows.
pub mod errors;
pub mod support;
pub mod query;
pub mod pages;
