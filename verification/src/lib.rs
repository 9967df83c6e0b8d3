//! Core of a command-line client for a music-marketplace account: a verified
//! engine that drains a server-paginated, continuation-token API into a
//! single ordered in-memory collection.
use vstd::prelude::*;

pub mod client;
pub mod config;
pub mod digits;
pub mod format;
pub mod item;
pub mod request;

verus! {

/// The fixed number of items asked for per page. The remote service is known
/// to misbehave on larger page sizes, so it is a protocol constant, never a
/// caller choice.
pub const DEFAULT_COUNT: u32 = 20;

} // verus!
