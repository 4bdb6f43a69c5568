//! Models of the consensus payloads the dispatch layer packages.
//!
//! The layer never inspects a payload beyond an identity attribute (a block
//! root) or emptiness (blob sidecar slots), so each payload is a struct of an
//! opaque value plus the attributes the layer reads.

use vstd::prelude::*;

use crate::ids::{Epoch, Hash256, PeerId};

verus! {

/// Number of blob-sidecar slots a block commits to.
pub const MAX_BLOBS_PER_BLOCK: usize = 6;

/// An unaggregated attestation received on gossip.
#[derive(Clone, Copy, Debug, PartialEq, Eq, Structural)]
pub struct Attestation(pub u64);

/// An aggregated attestation with its selection proof. The dispatch layer
/// reads only the root of the block it attests to.
#[derive(Clone, Copy, Debug, PartialEq, Eq, Structural)]
pub struct SignedAggregateAndProof {
    /// Root of the beacon block this aggregate attests to.
    pub beacon_block_root: Hash256,
    /// The rest of the aggregate, opaque to this layer.
    pub body: u64,
}

/// A signed beacon block received on gossip.
#[derive(Clone, Copy, Debug, PartialEq, Eq, Structural)]
pub struct SignedBeaconBlock {
    /// The root identifying the block.
    pub block_root: Hash256,
    /// The rest of the block, opaque to this layer.
    pub body: u64,
}

/// A signed blob sidecar received on gossip.
#[derive(Clone, Copy, Debug, PartialEq, Eq, Structural)]
pub struct SignedBlobSidecar(pub u64);

/// One blob sidecar received over RPC.
#[derive(Clone, Copy, Debug, PartialEq, Eq, Structural)]
pub struct BlobSidecar(pub u64);

/// A fixed-width list of optional blob sidecars, one slot per commitment.
#[derive(Clone, Debug, PartialEq, Eq)]
pub struct FixedBlobSidecarList {
    /// The sidecar slots; an empty slot holds `None`.
    pub sidecars: Vec<Option<BlobSidecar>>,
}

/// How many sidecar slots are non-empty.
pub open spec fn non_empty_count(s: Seq<Option<BlobSidecar>>) -> nat
    decreases s.len(),
{
    if s.len() == 0 {
        0
    } else {
        non_empty_count(s.drop_last()) + if s.last() is Some {
            1nat
        } else {
            0nat
        }
    }
}

/// A sync-committee signature received on gossip.
#[derive(Clone, Copy, Debug, PartialEq, Eq, Structural)]
pub struct SyncCommitteeMessage(pub u64);

/// A signed sync-committee contribution received on gossip.
#[derive(Clone, Copy, Debug, PartialEq, Eq, Structural)]
pub struct SignedContributionAndProof(pub u64);

/// A signed voluntary exit received on gossip.
#[derive(Clone, Copy, Debug, PartialEq, Eq, Structural)]
pub struct SignedVoluntaryExit(pub u64);

/// A proposer slashing received on gossip.
#[derive(Clone, Copy, Debug, PartialEq, Eq, Structural)]
pub struct ProposerSlashing(pub u64);

/// An attester slashing received on gossip.
#[derive(Clone, Copy, Debug, PartialEq, Eq, Structural)]
pub struct AttesterSlashing(pub u64);

/// A signed BLS-to-execution-address change received on gossip.
#[derive(Clone, Copy, Debug, PartialEq, Eq, Structural)]
pub struct SignedBlsToExecutionChange(pub u64);

/// A light-client finality update received on gossip.
#[derive(Clone, Copy, Debug, PartialEq, Eq, Structural)]
pub struct LightClientFinalityUpdate(pub u64);

/// A light-client optimistic update received on gossip.
#[derive(Clone, Copy, Debug, PartialEq, Eq, Structural)]
pub struct LightClientOptimisticUpdate(pub u64);

/// A block fetched over RPC, together with any blobs fetched with it.
#[derive(Clone, Copy, Debug, PartialEq, Eq, Structural)]
pub struct RpcBlock {
    /// The root identifying the block.
    pub block_root: Hash256,
    /// The rest, opaque to this layer.
    pub body: u64,
}

/// A status handshake message from the RPC network.
#[derive(Clone, Copy, Debug, PartialEq, Eq, Structural)]
pub struct StatusMessage(pub u64);

/// An RPC request for a range of blocks.
#[derive(Clone, Copy, Debug, PartialEq, Eq, Structural)]
pub struct BlocksByRangeRequest {
    pub start_slot: u64,
    pub count: u64,
}

/// An RPC request for blocks by root.
#[derive(Clone, Debug, PartialEq, Eq)]
pub struct BlocksByRootRequest {
    pub block_roots: Vec<Hash256>,
}

/// An RPC request for a range of blob sidecars.
#[derive(Clone, Copy, Debug, PartialEq, Eq, Structural)]
pub struct BlobsByRangeRequest {
    pub start_slot: u64,
    pub count: u64,
}

/// The identity of one requested blob: its block root and its index.
#[derive(Clone, Copy, Debug, PartialEq, Eq, Structural)]
pub struct BlobIdentifier {
    pub block_root: Hash256,
    pub index: u64,
}

/// An RPC request for blob sidecars by identity.
#[derive(Clone, Debug, PartialEq, Eq)]
pub struct BlobsByRootRequest {
    pub blob_ids: Vec<BlobIdentifier>,
}

/// An RPC request for a light-client bootstrap at a given root.
#[derive(Clone, Copy, Debug, PartialEq, Eq, Structural)]
pub struct LightClientBootstrapRequest {
    pub root: Hash256,
}

/// The sync process a chain segment belongs to. A back-sync batch names
/// historical import behind the current head.
#[derive(Clone, Copy, Debug, PartialEq, Eq, Structural)]
pub enum ChainSegmentProcessId {
    /// A forward-sync batch: chain identity and epoch.
    RangeBatchId(u64, Epoch),
    /// A back-sync (backfill) batch at the given epoch.
    BackSyncBatchId(Epoch),
    /// A segment assembled while resolving an unknown parent.
    ParentLookup(Hash256),
}

/// How a single RPC-fetched block entered processing.
#[derive(Clone, Copy, Debug, PartialEq, Eq, Structural)]
pub enum BlockProcessType {
    SingleBlock { id: u64 },
    SingleBlob { id: u64 },
    ParentLookup { chain_hash: Hash256 },
}

/// Whether the execution layer is notified of imported payloads.
#[derive(Clone, Copy, Debug, PartialEq, Eq, Structural)]
pub enum NotifyExecutionLayer {
    Yes,
    No,
}

/// The node's sync state, as read by the chain-segment processing body.
#[derive(Clone, Copy, Debug, PartialEq, Eq, Structural)]
pub enum SyncState {
    /// Importing finalized history between a finalized checkpoint and head.
    SyncingFinalized,
    /// Importing blocks near the head.
    SyncingHead,
    /// Importing historical blocks behind the current head.
    BackFillSyncing,
    /// Fully synced.
    Synced,
    /// No suitable peers to sync from.
    Stalled,
}

impl SyncState {
    /// Whether the node is currently syncing finalized history.
    pub open spec fn spec_is_syncing_finalized(&self) -> bool {
        *self is SyncingFinalized
    }

    pub fn is_syncing_finalized(&self) -> (r: bool)
        ensures
            r == self.spec_is_syncing_finalized(),
    {
        match self {
            SyncState::SyncingFinalized => true,
            _ => false,
        }
    }
}

/// A message to the outbound network service; opaque to this layer.
#[derive(Clone, Copy, Debug, PartialEq, Eq, Structural)]
pub struct NetworkMessage(pub u64);

/// A message to the sync service. The scheduler produces the delayed-lookup
/// variant; anything else passes through opaquely.
#[derive(Clone, Debug, PartialEq, Eq)]
pub enum SyncMessage {
    /// Request the missing components of `block_root` from `peers`, who
    /// advertised the root on gossip.
    DelayedLookup { block_root: Hash256, peers: Vec<PeerId> },
    /// Any other sync-service message, opaque to this layer.
    Other(u64),
}

/// A message re-queued by a processing body whose precondition is not yet met.
#[derive(Clone, Copy, Debug, PartialEq, Eq, Structural)]
pub struct ReprocessQueueMessage(pub u64);

} // verus!
