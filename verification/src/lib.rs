//! Ingress dispatch layer for a beacon node: classifies network-originating
//! work, packages it into typed envelopes, and hands it to the beacon
//! processor's bounded queue with non-blocking back-pressure. Companion
//! structures: a duplicate-suppression cache for gossip blocks and a
//! delayed-lookup registry drained once per slot.

use vstd::prelude::*;

pub mod channel;
pub mod duplicate_cache;
pub mod headers;
pub mod ids;
pub mod lru_store;
pub mod payloads;
pub mod processor;
pub mod registry;
pub mod scheduler;
pub mod ssz;
pub mod witness;
pub mod work;

verus! {

/// Maximum number of block roots held by the delayed-lookup registry.
pub const DELAYED_PEER_CACHE_SIZE: usize = 16;

/// Number of slots of clock skew tolerated when judging message freshness.
pub const FUTURE_SLOT_TOLERANCE: u64 = 1;

/// Capacity of the beacon-processor channel.
pub const MAX_WORK_EVENT_QUEUE_LEN: usize = 16384;

/// Capacity of the reprocess channel.
pub const MAX_SCHEDULED_WORK_QUEUE_LEN: usize = 49152;

/// Capacity the stub constructor gives the duplicate-suppression cache; the
/// exact bound is configuration, the eviction contract is not.
pub const DEFAULT_DUPLICATE_CACHE_SIZE: usize = 64;

} // verus!
