//! The duplicate-suppression cache, the delayed-lookup registry's bounded
//! recency behaviour, and the scheduler's drain and first-wake timing.

use network_dispatch::duplicate_cache::DuplicateCache;
use network_dispatch::ids::{Hash256, PeerId, Slot};
use network_dispatch::payloads::{SyncMessage, SyncState};
use network_dispatch::processor::NetworkBeaconProcessor;
use network_dispatch::registry::DelayedLookupRegistry;
use network_dispatch::scheduler::delayed_lookup_first_wake;

fn root(n: u64) -> Hash256 {
    Hash256(n, 0, 0, 0)
}

#[test]
fn duplicate_tokens_are_exclusive_per_root() {
    let mut cache = DuplicateCache::new(4);
    let token = cache.try_insert(root(1)).unwrap();
    assert_eq!(token.root, root(1));
    assert!(cache.try_insert(root(1)).is_none());
    assert!(cache.try_insert(root(2)).is_some());
    cache.release(token);
    assert!(cache.try_insert(root(1)).is_some());
}

#[test]
fn duplicate_cache_evicts_oldest_when_full() {
    let mut cache = DuplicateCache::new(2);
    let token1 = cache.try_insert(root(1)).unwrap();
    cache.try_insert(root(2)).unwrap();
    // The third root evicts root 1 even though its token is outstanding.
    cache.try_insert(root(3)).unwrap();
    assert_eq!(cache.len(), 2);
    assert!(!cache.contains(root(1)));
    // Releasing the stale token is a no-op.
    cache.release(token1);
    assert_eq!(cache.len(), 2);
    assert!(cache.contains(root(2)));
    assert!(cache.contains(root(3)));
}

#[test]
fn registry_evicts_least_recently_updated_beyond_sixteen() {
    let mut reg = DelayedLookupRegistry::new();
    for n in 1..=17u64 {
        reg.register(root(n), PeerId(100));
    }
    assert_eq!(reg.len(), 16);
    assert!(!reg.contains_root(root(1)));
    for n in 2..=17u64 {
        assert!(reg.contains_root(root(n)), "root {} should remain", n);
    }
    // Touching root 2 promotes it, so the next eviction takes root 3.
    reg.register(root(2), PeerId(100));
    reg.register(root(18), PeerId(100));
    assert_eq!(reg.len(), 16);
    assert!(reg.contains_root(root(2)));
    assert!(!reg.contains_root(root(3)));
}

#[test]
fn registry_deduplicates_peers() {
    let mut reg = DelayedLookupRegistry::new();
    reg.register(root(1), PeerId(7));
    reg.register(root(1), PeerId(7));
    reg.register(root(1), PeerId(8));
    let drained = reg.drain();
    assert_eq!(reg.len(), 0);
    assert_eq!(drained.len(), 1);
    assert_eq!(drained[0].0, root(1));
    assert_eq!(drained[0].1, vec![PeerId(7), PeerId(8)]);
}

#[test]
fn scheduler_tick_drains_registry_into_sync_channel() {
    let mut p = NetworkBeaconProcessor::null_for_testing(SyncState::Synced);
    p.delayed_lookup_peers.register(root(10), PeerId(1));
    p.delayed_lookup_peers.register(root(10), PeerId(2));
    p.delayed_lookup_peers.register(root(11), PeerId(3));
    p.on_scheduler_tick(Some(Slot(42)));
    assert_eq!(p.delayed_lookup_peers.len(), 0);
    assert_eq!(p.sync_tx.len(), 2);
    // Entries leave least recently updated first.
    let first = p.sync_tx.try_recv().unwrap();
    let second = p.sync_tx.try_recv().unwrap();
    assert_eq!(
        first,
        SyncMessage::DelayedLookup { block_root: root(10), peers: vec![PeerId(1), PeerId(2)] }
    );
    assert_eq!(
        second,
        SyncMessage::DelayedLookup { block_root: root(11), peers: vec![PeerId(3)] }
    );
}

#[test]
fn scheduler_tick_without_slot_skips() {
    let mut p = NetworkBeaconProcessor::null_for_testing(SyncState::Synced);
    p.delayed_lookup_peers.register(root(10), PeerId(1));
    p.on_scheduler_tick(None);
    assert_eq!(p.delayed_lookup_peers.len(), 1);
    assert_eq!(p.sync_tx.len(), 0);
}

#[test]
fn drained_registry_stays_usable() {
    let mut p = NetworkBeaconProcessor::null_for_testing(SyncState::Synced);
    p.delayed_lookup_peers.register(root(1), PeerId(1));
    p.on_scheduler_tick(Some(Slot(1)));
    p.delayed_lookup_peers.register(root(2), PeerId(2));
    p.on_scheduler_tick(Some(Slot(2)));
    assert_eq!(p.sync_tx.len(), 2);
}

#[test]
fn first_wake_before_delay_waits_the_remainder() {
    // Slot started 3 s ago, delay 4 s into the slot: wake in 1 s.
    assert_eq!(delayed_lookup_first_wake(Some(9000), Some(3000), 4000), Some(1000));
}

#[test]
fn first_wake_after_delay_targets_next_slot() {
    // Slot started 5 s ago, delay 4 s: wake 4 s into the next slot.
    assert_eq!(delayed_lookup_first_wake(Some(7000), Some(5000), 4000), Some(11000));
}

#[test]
fn first_wake_exactly_at_delay_wakes_now() {
    assert_eq!(delayed_lookup_first_wake(Some(8000), Some(4000), 4000), Some(0));
}

#[test]
fn first_wake_without_clock_degrades() {
    assert_eq!(delayed_lookup_first_wake(None, Some(3000), 4000), None);
    assert_eq!(delayed_lookup_first_wake(Some(9000), None, 4000), None);
    assert_eq!(delayed_lookup_first_wake(None, None, 4000), None);
}
