//! Streaming bridge for a workflow engine: translates engine events into
//! wire events, serializes them into a bounded outbound queue that closes
//! exactly once on a terminal event, and coordinates race-free shutdown.

pub mod bridge;
pub mod config;
pub mod events;
pub mod facade;
pub mod shutdown;
pub mod translate;
pub mod version;

use vstd::prelude::*;

verus! {

/// Capacity of the outbound event queue between the engine callbacks and
/// the streaming response consumer.
pub const QUEUE_CAPACITY: usize = 100;

} // verus!
