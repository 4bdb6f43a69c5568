//! The work taxonomy: every kind of task the beacon processor accepts, the
//! envelope it travels in, and the fixed drop-during-sync classification.

use vstd::prelude::*;

use crate::ids::{Client, Hash256, MessageId, PeerId, PeerRequestId, SubnetId, SyncSubnetId};
use crate::payloads::{
    Attestation, AttesterSlashing, BlobsByRangeRequest, BlobsByRootRequest, BlockProcessType,
    BlocksByRangeRequest, BlocksByRootRequest, ChainSegmentProcessId, FixedBlobSidecarList,
    LightClientBootstrapRequest, LightClientFinalityUpdate, LightClientOptimisticUpdate,
    ProposerSlashing, RpcBlock, SignedAggregateAndProof, SignedBeaconBlock, SignedBlobSidecar,
    SignedBlsToExecutionChange, SignedContributionAndProof, SignedVoluntaryExit, StatusMessage,
    SyncCommitteeMessage,
};

verus! {

/// The assembled inputs of one unaggregated-attestation task. The worker pool
/// may coalesce many such packages into one batch verification.
#[derive(Clone, Copy, Debug, PartialEq, Eq, Structural)]
pub struct GossipAttestationPackage {
    pub message_id: MessageId,
    pub peer_id: PeerId,
    pub attestation: Attestation,
    pub subnet_id: SubnetId,
    /// Whether the attestation should be imported into the pool once valid.
    pub should_import: bool,
    /// Monotonic receipt time in microseconds, for latency accounting.
    pub seen_timestamp: u64,
}

/// The assembled inputs of one aggregated-attestation task.
#[derive(Clone, Copy, Debug, PartialEq, Eq, Structural)]
pub struct GossipAggregatePackage {
    pub message_id: MessageId,
    pub peer_id: PeerId,
    pub aggregate: SignedAggregateAndProof,
    /// Root of the block the aggregate attests to.
    pub beacon_block_root: Hash256,
    pub seen_timestamp: u64,
}

/// One kind of deferred work, with everything its processing body needs.
#[derive(Clone, Debug, PartialEq, Eq)]
pub enum Work {
    GossipAttestation { attestation: GossipAttestationPackage },
    GossipAggregate { aggregate: GossipAggregatePackage },
    GossipBlock {
        message_id: MessageId,
        peer_id: PeerId,
        peer_client: Client,
        block: SignedBeaconBlock,
        seen_timestamp: u64,
    },
    GossipSignedBlobSidecar {
        message_id: MessageId,
        peer_id: PeerId,
        peer_client: Client,
        blob_index: u64,
        blob: SignedBlobSidecar,
        seen_timestamp: u64,
    },
    GossipSyncSignature {
        message_id: MessageId,
        peer_id: PeerId,
        sync_signature: SyncCommitteeMessage,
        subnet_id: SyncSubnetId,
        seen_timestamp: u64,
    },
    GossipSyncContribution {
        message_id: MessageId,
        peer_id: PeerId,
        sync_contribution: SignedContributionAndProof,
        seen_timestamp: u64,
    },
    GossipVoluntaryExit {
        message_id: MessageId,
        peer_id: PeerId,
        voluntary_exit: SignedVoluntaryExit,
    },
    GossipProposerSlashing {
        message_id: MessageId,
        peer_id: PeerId,
        proposer_slashing: ProposerSlashing,
    },
    GossipAttesterSlashing {
        message_id: MessageId,
        peer_id: PeerId,
        attester_slashing: AttesterSlashing,
    },
    GossipBlsToExecutionChange {
        message_id: MessageId,
        peer_id: PeerId,
        bls_to_execution_change: SignedBlsToExecutionChange,
    },
    GossipLightClientFinalityUpdate {
        message_id: MessageId,
        peer_id: PeerId,
        light_client_finality_update: LightClientFinalityUpdate,
        seen_timestamp: u64,
    },
    GossipLightClientOptimisticUpdate {
        message_id: MessageId,
        peer_id: PeerId,
        light_client_optimistic_update: LightClientOptimisticUpdate,
        seen_timestamp: u64,
    },
    RpcBlock {
        block_root: Hash256,
        block: RpcBlock,
        seen_timestamp: u64,
        process_type: BlockProcessType,
    },
    RpcBlobs {
        block_root: Hash256,
        blobs: FixedBlobSidecarList,
        seen_timestamp: u64,
        process_type: BlockProcessType,
    },
    ChainSegment {
        process_id: ChainSegmentProcessId,
        blocks: Vec<RpcBlock>,
    },
    ChainSegmentBackfill {
        process_id: ChainSegmentProcessId,
        blocks: Vec<RpcBlock>,
    },
    Status {
        peer_id: PeerId,
        message: StatusMessage,
    },
    BlocksByRangeRequest {
        peer_id: PeerId,
        request_id: PeerRequestId,
        request: BlocksByRangeRequest,
    },
    BlocksByRootsRequest {
        peer_id: PeerId,
        request_id: PeerRequestId,
        request: BlocksByRootRequest,
    },
    BlobsByRangeRequest {
        peer_id: PeerId,
        request_id: PeerRequestId,
        request: BlobsByRangeRequest,
    },
    BlobsByRootsRequest {
        peer_id: PeerId,
        request_id: PeerRequestId,
        request: BlobsByRootRequest,
    },
    LightClientBootstrapRequest {
        peer_id: PeerId,
        request_id: PeerRequestId,
        request: LightClientBootstrapRequest,
    },
}

/// The kind of a work item, without its payload.
#[derive(Clone, Copy, Debug, PartialEq, Eq, Structural)]
pub enum WorkType {
    GossipAttestation,
    GossipAggregate,
    GossipBlock,
    GossipSignedBlobSidecar,
    GossipSyncSignature,
    GossipSyncContribution,
    GossipVoluntaryExit,
    GossipProposerSlashing,
    GossipAttesterSlashing,
    GossipBlsToExecutionChange,
    GossipLightClientFinalityUpdate,
    GossipLightClientOptimisticUpdate,
    RpcBlock,
    RpcBlobs,
    ChainSegment,
    ChainSegmentBackfill,
    Status,
    BlocksByRangeRequest,
    BlocksByRootsRequest,
    BlobsByRangeRequest,
    BlobsByRootsRequest,
    LightClientBootstrapRequest,
}

impl Work {
    /// The kind of this work item.
    pub open spec fn spec_work_type(&self) -> WorkType {
        match self {
            Work::GossipAttestation { .. } => WorkType::GossipAttestation,
            Work::GossipAggregate { .. } => WorkType::GossipAggregate,
            Work::GossipBlock { .. } => WorkType::GossipBlock,
            Work::GossipSignedBlobSidecar { .. } => WorkType::GossipSignedBlobSidecar,
            Work::GossipSyncSignature { .. } => WorkType::GossipSyncSignature,
            Work::GossipSyncContribution { .. } => WorkType::GossipSyncContribution,
            Work::GossipVoluntaryExit { .. } => WorkType::GossipVoluntaryExit,
            Work::GossipProposerSlashing { .. } => WorkType::GossipProposerSlashing,
            Work::GossipAttesterSlashing { .. } => WorkType::GossipAttesterSlashing,
            Work::GossipBlsToExecutionChange { .. } => WorkType::GossipBlsToExecutionChange,
            Work::GossipLightClientFinalityUpdate { .. } => {
                WorkType::GossipLightClientFinalityUpdate
            },
            Work::GossipLightClientOptimisticUpdate { .. } => {
                WorkType::GossipLightClientOptimisticUpdate
            },
            Work::RpcBlock { .. } => WorkType::RpcBlock,
            Work::RpcBlobs { .. } => WorkType::RpcBlobs,
            Work::ChainSegment { .. } => WorkType::ChainSegment,
            Work::ChainSegmentBackfill { .. } => WorkType::ChainSegmentBackfill,
            Work::Status { .. } => WorkType::Status,
            Work::BlocksByRangeRequest { .. } => WorkType::BlocksByRangeRequest,
            Work::BlocksByRootsRequest { .. } => WorkType::BlocksByRootsRequest,
            Work::BlobsByRangeRequest { .. } => WorkType::BlobsByRangeRequest,
            Work::BlobsByRootsRequest { .. } => WorkType::BlobsByRootsRequest,
            Work::LightClientBootstrapRequest { .. } => WorkType::LightClientBootstrapRequest,
        }
    }

    pub fn work_type(&self) -> (t: WorkType)
        ensures
            t == self.spec_work_type(),
    {
        match self {
            Work::GossipAttestation { .. } => WorkType::GossipAttestation,
            Work::GossipAggregate { .. } => WorkType::GossipAggregate,
            Work::GossipBlock { .. } => WorkType::GossipBlock,
            Work::GossipSignedBlobSidecar { .. } => WorkType::GossipSignedBlobSidecar,
            Work::GossipSyncSignature { .. } => WorkType::GossipSyncSignature,
            Work::GossipSyncContribution { .. } => WorkType::GossipSyncContribution,
            Work::GossipVoluntaryExit { .. } => WorkType::GossipVoluntaryExit,
            Work::GossipProposerSlashing { .. } => WorkType::GossipProposerSlashing,
            Work::GossipAttesterSlashing { .. } => WorkType::GossipAttesterSlashing,
            Work::GossipBlsToExecutionChange { .. } => WorkType::GossipBlsToExecutionChange,
            Work::GossipLightClientFinalityUpdate { .. } => {
                WorkType::GossipLightClientFinalityUpdate
            },
            Work::GossipLightClientOptimisticUpdate { .. } => {
                WorkType::GossipLightClientOptimisticUpdate
            },
            Work::RpcBlock { .. } => WorkType::RpcBlock,
            Work::RpcBlobs { .. } => WorkType::RpcBlobs,
            Work::ChainSegment { .. } => WorkType::ChainSegment,
            Work::ChainSegmentBackfill { .. } => WorkType::ChainSegmentBackfill,
            Work::Status { .. } => WorkType::Status,
            Work::BlocksByRangeRequest { .. } => WorkType::BlocksByRangeRequest,
            Work::BlocksByRootsRequest { .. } => WorkType::BlocksByRootsRequest,
            Work::BlobsByRangeRequest { .. } => WorkType::BlobsByRangeRequest,
            Work::BlobsByRootsRequest { .. } => WorkType::BlobsByRootsRequest,
            Work::LightClientBootstrapRequest { .. } => WorkType::LightClientBootstrapRequest,
        }
    }
}

/// The fixed drop-during-sync classification: whether the worker pool may
/// discard work of this kind while initial sync is in progress. The flag is a
/// hard attribute of the kind, never of the payload.
pub open spec fn drop_during_sync_for(t: WorkType) -> bool {
    match t {
        WorkType::GossipAttestation => true,
        WorkType::GossipAggregate => true,
        WorkType::GossipSyncSignature => true,
        WorkType::GossipSyncContribution => true,
        WorkType::GossipLightClientFinalityUpdate => true,
        WorkType::GossipLightClientOptimisticUpdate => true,
        WorkType::LightClientBootstrapRequest => true,
        WorkType::GossipBlock => false,
        WorkType::GossipSignedBlobSidecar => false,
        WorkType::GossipVoluntaryExit => false,
        WorkType::GossipProposerSlashing => false,
        WorkType::GossipAttesterSlashing => false,
        WorkType::GossipBlsToExecutionChange => false,
        WorkType::RpcBlock => false,
        WorkType::RpcBlobs => false,
        WorkType::ChainSegment => false,
        WorkType::ChainSegmentBackfill => false,
        WorkType::Status => false,
        WorkType::BlocksByRangeRequest => false,
        WorkType::BlocksByRootsRequest => false,
        WorkType::BlobsByRangeRequest => false,
        WorkType::BlobsByRootsRequest => false,
    }
}

/// A work item and its admission flag: what one submission places on the
/// beacon-processor channel.
#[derive(Clone, Debug, PartialEq, Eq)]
pub struct WorkEvent {
    /// Whether the worker pool may discard this item during initial sync.
    pub drop_during_sync: bool,
    /// The work itself.
    pub work: Work,
}

/// Drop-during-sync fidelity: only the attestation-, sync-committee- and
/// light-client-flavoured kinds may be discarded during initial sync; every
/// other kind is kept. The classification depends on the kind alone.
pub proof fn lemma_drop_during_sync_table()
    ensures
        drop_during_sync_for(WorkType::GossipAttestation),
        drop_during_sync_for(WorkType::GossipAggregate),
        drop_during_sync_for(WorkType::GossipSyncSignature),
        drop_during_sync_for(WorkType::GossipSyncContribution),
        drop_during_sync_for(WorkType::GossipLightClientFinalityUpdate),
        drop_during_sync_for(WorkType::GossipLightClientOptimisticUpdate),
        drop_during_sync_for(WorkType::LightClientBootstrapRequest),
        !drop_during_sync_for(WorkType::GossipBlock),
        !drop_during_sync_for(WorkType::GossipSignedBlobSidecar),
        !drop_during_sync_for(WorkType::GossipVoluntaryExit),
        !drop_during_sync_for(WorkType::GossipProposerSlashing),
        !drop_during_sync_for(WorkType::GossipAttesterSlashing),
        !drop_during_sync_for(WorkType::GossipBlsToExecutionChange),
        !drop_during_sync_for(WorkType::RpcBlock),
        !drop_during_sync_for(WorkType::RpcBlobs),
        !drop_during_sync_for(WorkType::ChainSegment),
        !drop_during_sync_for(WorkType::ChainSegmentBackfill),
        !drop_during_sync_for(WorkType::Status),
        !drop_during_sync_for(WorkType::BlocksByRangeRequest),
        !drop_during_sync_for(WorkType::BlocksByRootsRequest),
        !drop_during_sync_for(WorkType::BlobsByRangeRequest),
        !drop_during_sync_for(WorkType::BlobsByRootsRequest),
{
}

} // verus!
