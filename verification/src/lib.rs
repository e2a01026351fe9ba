//! Typed client core for a DNS provider's form-encoded RPC-over-HTTP
//! protocol: request-body encoding, the status envelope's success and
//! error signaling, and decoding of the loosely-typed response fields.

pub mod client;
pub mod error;
pub mod form;
pub mod schema;
pub mod text;

use vstd::prelude::*;

verus! {

/// Default time-to-live, in seconds, applied when a domain carries no
/// usable TTL field.
pub const DEFAULT_DOMAIN_TTL: u64 = 600;

} // verus!
