//! Bridge between a host ledger and an external custody protocol.
//!
//! Every public operation plans exactly one outbound call together with the
//! one continuation that reconciles its settled result. Principals are known
//! to the custody protocol only by a pseudonymous address derived from their
//! account identifier.

pub mod address;
pub mod amount;
pub mod dispatch;
pub mod contract;
pub mod orchestrator;
pub mod reconciler;
