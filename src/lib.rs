//! The probe session of an ICMP echo client: request/reply correlation,
//! the wait loop's decisions and the cleanup owed on every exit path.
use vstd::prelude::*;

pub mod cache;
pub mod error;
pub mod laws;
pub mod ping;

verus! {

} // verus!
