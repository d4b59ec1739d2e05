//! Academic-credential registry and verification gateway.
//!
//! The crate has two independent halves. The registry keeps one certificate
//! per subject under the write control of a single owner. The gateway takes a
//! verification request through a chain lookup and a hash validation, in that
//! order, and appends a record to the ledger when both pass.

pub mod account;
pub mod certificate;
pub mod checks;
pub mod gateway;
pub mod ledger;
pub mod record;
pub mod registry;
pub mod response;
pub mod stamp;
