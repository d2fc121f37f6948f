//! Verified core of a dynamic-DNS reconciler.
//!
//! The library keeps a DNS "A" record pointed at the caller's current public
//! IP address.  Each reconciliation cycle resolves the public IP through an
//! ordered fallback chain of plain-text endpoints, reads the provider's
//! current record, compares the two, and updates the record only when they
//! differ.  The cycle is modelled as a state machine whose transition
//! function is verified; all network traffic is performed by the embedding
//! program, which feeds the observed responses back in as events.

pub mod config;
pub mod errors;
mod json;
pub mod provider;
pub mod reconciler;
pub mod record;
pub mod scheduler;
pub mod textutil;
