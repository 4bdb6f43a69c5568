//! Plain identity values used across the dispatch layer.
//!
//! Consensus payloads are opaque to this layer; the only attributes it reads
//! are identities: block roots, peer identities, gossip message identities,
//! subnet numbers and slots. Each is modelled as a small struct of integers.

use vstd::prelude::*;

verus! {

/// A 256-bit block root, held as four 64-bit limbs.
#[derive(Clone, Copy, Debug, PartialEq, Eq, Structural, Hash)]
pub struct Hash256(pub u64, pub u64, pub u64, pub u64);

impl Hash256 {
    /// The all-zero root.
    pub fn zero() -> (r: Self)
        ensures
            r == Hash256(0u64, 0u64, 0u64, 0u64),
    {
        Hash256(0, 0, 0, 0)
    }
}

/// The identity of a remote peer.
#[derive(Clone, Copy, Debug, PartialEq, Eq, Structural, Hash)]
pub struct PeerId(pub u64);

/// The gossip-mesh identity of a received message, used for mesh accounting.
#[derive(Clone, Copy, Debug, PartialEq, Eq, Structural, Hash)]
pub struct MessageId(pub u64);

/// The kind of client software a peer reports.
#[derive(Clone, Copy, Debug, PartialEq, Eq, Structural, Hash)]
pub struct Client(pub u64);

/// An attestation subnet number.
#[derive(Clone, Copy, Debug, PartialEq, Eq, Structural, Hash)]
pub struct SubnetId(pub u64);

/// A sync-committee subnet number.
#[derive(Clone, Copy, Debug, PartialEq, Eq, Structural, Hash)]
pub struct SyncSubnetId(pub u64);

/// A slot number of the consensus clock.
#[derive(Clone, Copy, Debug, PartialEq, Eq, Structural, Hash)]
pub struct Slot(pub u64);

/// An epoch number of the consensus clock.
#[derive(Clone, Copy, Debug, PartialEq, Eq, Structural, Hash)]
pub struct Epoch(pub u64);

/// The identity of an inbound RPC request: connection and substream.
#[derive(Clone, Copy, Debug, PartialEq, Eq, Structural, Hash)]
pub struct PeerRequestId(pub u64, pub u64);

} // verus!
