//! Core of a newsletter subscription service: input validation, confirmation
//! token generation, an in-memory subscription store with its consistency
//! invariants, and the subscribe/confirm workflow over it.
//!
//! The HTTP server, the outbound email client and process startup live in the
//! surrounding application; this crate holds the logic they call into.
use vstd::prelude::*;

pub mod domain;
pub mod laws;
pub mod store;
pub mod token;
pub mod workflow;

verus! {

/// Liveness probe: the service always reports healthy with an empty body.
pub fn health_check() -> (status: u16)
    ensures
        status == 200,
{
    200
}

} // verus!
