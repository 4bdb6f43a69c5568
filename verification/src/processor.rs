//! The dispatch facade: one submission operation per work kind.
//!
//! Each operation packages the raw fields from the network layer into a work
//! envelope carrying the kind's fixed drop-during-sync flag and performs one
//! non-blocking send into the beacon-processor channel. Success places
//! exactly one envelope; rejection hands the envelope back as `Full` or
//! `Closed` and leaves every channel untouched. The only content-level
//! decisions at submission time are the zero-blob short-circuit and the
//! backfill-variant selection for chain segments.

use vstd::prelude::*;

use crate::channel::{BoundedChannel, TrySendError, UnboundedChannel};
use crate::duplicate_cache::DuplicateCache;
use crate::ids::{Client, Hash256, MessageId, PeerId, PeerRequestId, Slot, SubnetId, SyncSubnetId};
use crate::payloads::{
    non_empty_count, Attestation, AttesterSlashing, BlobsByRangeRequest, BlobsByRootRequest,
    BlockProcessType, BlocksByRangeRequest, BlocksByRootRequest, ChainSegmentProcessId,
    FixedBlobSidecarList, LightClientBootstrapRequest, LightClientFinalityUpdate,
    LightClientOptimisticUpdate, NetworkMessage, NotifyExecutionLayer, ProposerSlashing, RpcBlock,
    ReprocessQueueMessage, SignedAggregateAndProof, SignedBeaconBlock, SignedBlobSidecar,
    SignedBlsToExecutionChange, SignedContributionAndProof, SignedVoluntaryExit, StatusMessage,
    SyncCommitteeMessage, SyncMessage, SyncState,
};
use crate::registry::{drained_pair, DelayedLookupRegistry};
use crate::work::{
    drop_during_sync_for, GossipAggregatePackage, GossipAttestationPackage, Work, WorkEvent,
    WorkType,
};
use crate::{DEFAULT_DUPLICATE_CACHE_SIZE, MAX_SCHEDULED_WORK_QUEUE_LEN, MAX_WORK_EVENT_QUEUE_LEN};

verus! {

/// The one failure a submission can report: the envelope comes back with the
/// reason the channel rejected it.
pub type Error = TrySendError<WorkEvent>;

/// If and where the node stores the serialized form of invalid blocks.
#[derive(Clone, Debug, PartialEq, Eq)]
pub enum InvalidBlockStorage {
    Enabled(String),
    Disabled,
}

/// The dispatch facade between the network layer and the beacon processor's
/// worker pool.
pub struct NetworkBeaconProcessor {
    /// The bounded channel into the worker pool.
    pub beacon_processor_send: BoundedChannel<WorkEvent>,
    /// Admits one concurrent processing attempt per gossip-block root.
    pub duplicate_cache: DuplicateCache,
    /// Outbound channel to the network service.
    pub network_tx: UnboundedChannel<NetworkMessage>,
    /// Outbound channel to the sync service.
    pub sync_tx: UnboundedChannel<SyncMessage>,
    /// Bounded channel for messages whose preconditions are not yet met.
    pub reprocess_tx: BoundedChannel<ReprocessQueueMessage>,
    /// Snapshot of the node's sync state, read by chain-segment processing.
    pub sync_state: SyncState,
    /// Where invalid blocks are stored, passed through to block processing.
    pub invalid_block_storage: InvalidBlockStorage,
    /// Roots advertised on gossip, awaiting a delayed lookup.
    pub delayed_lookup_peers: DelayedLookupRegistry,
}

impl NetworkBeaconProcessor {
    /// Everything but the beacon-processor channel is untouched.
    pub open spec fn same_but_queue(pre: Self, post: Self) -> bool {
        &&& post.duplicate_cache == pre.duplicate_cache
        &&& post.network_tx == pre.network_tx
        &&& post.sync_tx == pre.sync_tx
        &&& post.reprocess_tx == pre.reprocess_tx
        &&& post.sync_state == pre.sync_state
        &&& post.invalid_block_storage == pre.invalid_block_storage
        &&& post.delayed_lookup_peers == pre.delayed_lookup_peers
    }

    /// The uniform effect of one submission of envelope `ev`: on success
    /// exactly that envelope is appended to the beacon-processor channel and
    /// nothing else changes; on rejection the envelope comes back as `Full`
    /// or `Closed` and nothing at all changes.
    pub open spec fn submit_effect(
        pre: Self,
        post: Self,
        r: Result<(), Error>,
        ev: WorkEvent,
    ) -> bool {
        &&& Self::same_but_queue(pre, post)
        &&& post.beacon_processor_send.cap == pre.beacon_processor_send.cap
        &&& post.beacon_processor_send.closed == pre.beacon_processor_send.closed
        &&& if pre.beacon_processor_send.closed {
            &&& r == Err::<(), Error>(TrySendError::Closed(ev))
            &&& post.beacon_processor_send.items@ == pre.beacon_processor_send.items@
        } else if pre.beacon_processor_send.items@.len() >= pre.beacon_processor_send.cap {
            &&& r == Err::<(), Error>(TrySendError::Full(ev))
            &&& post.beacon_processor_send.items@ == pre.beacon_processor_send.items@
        } else {
            &&& r == Ok::<(), Error>(())
            &&& post.beacon_processor_send.items@ == pre.beacon_processor_send.items@.push(ev)
        }
    }

    fn try_send(&mut self, event: WorkEvent) -> (r: Result<(), Error>)
        ensures
            Self::submit_effect(*old(self), *final(self), r, event),
    {
        self.beacon_processor_send.try_send(event)
    }

    /// Submits one unaggregated attestation for gossip verification.
    pub fn send_unaggregated_attestation(
        &mut self,
        message_id: MessageId,
        peer_id: PeerId,
        attestation: Attestation,
        subnet_id: SubnetId,
        should_import: bool,
        seen_timestamp: u64,
    ) -> (r: Result<(), Error>)
        ensures
            Self::submit_effect(
                *old(self),
                *final(self),
                r,
                (WorkEvent {
                    drop_during_sync: drop_during_sync_for(WorkType::GossipAttestation),
                    work: Work::GossipAttestation {
                        attestation: GossipAttestationPackage {
                            message_id,
                            peer_id,
                            attestation,
                            subnet_id,
                            should_import,
                            seen_timestamp,
                        },
                    },
                }),
            ),
    {
        self.try_send(WorkEvent {
            drop_during_sync: true,
            work: Work::GossipAttestation {
                attestation: GossipAttestationPackage {
                    message_id,
                    peer_id,
                    attestation,
                    subnet_id,
                    should_import,
                    seen_timestamp,
                },
            },
        })
    }

    /// Submits one aggregated attestation for gossip verification; the
    /// package records the root of the block the aggregate attests to.
    pub fn send_aggregated_attestation(
        &mut self,
        message_id: MessageId,
        peer_id: PeerId,
        aggregate: SignedAggregateAndProof,
        seen_timestamp: u64,
    ) -> (r: Result<(), Error>)
        ensures
            Self::submit_effect(
                *old(self),
                *final(self),
                r,
                (WorkEvent {
                    drop_during_sync: drop_during_sync_for(WorkType::GossipAggregate),
                    work: Work::GossipAggregate {
                        aggregate: GossipAggregatePackage {
                            message_id,
                            peer_id,
                            aggregate,
                            beacon_block_root: aggregate.beacon_block_root,
                            seen_timestamp,
                        },
                    },
                }),
            ),
    {
        let beacon_block_root = aggregate.beacon_block_root;
        self.try_send(WorkEvent {
            drop_during_sync: true,
            work: Work::GossipAggregate {
                aggregate: GossipAggregatePackage {
                    message_id,
                    peer_id,
                    aggregate,
                    beacon_block_root,
                    seen_timestamp,
                },
            },
        })
    }

    /// Submits one gossip block; its processing consults the duplicate cache
    /// and the invalid-block storage policy when it later runs.
    pub fn send_gossip_beacon_block(
        &mut self,
        message_id: MessageId,
        peer_id: PeerId,
        peer_client: Client,
        block: SignedBeaconBlock,
        seen_timestamp: u64,
    ) -> (r: Result<(), Error>)
        ensures
            Self::submit_effect(
                *old(self),
                *final(self),
                r,
                (WorkEvent {
                    drop_during_sync: drop_during_sync_for(WorkType::GossipBlock),
                    work: Work::GossipBlock { message_id, peer_id, peer_client, block, seen_timestamp },
                }),
            ),
    {
        self.try_send(WorkEvent {
            drop_during_sync: false,
            work: Work::GossipBlock { message_id, peer_id, peer_client, block, seen_timestamp },
        })
    }

    /// Submits one gossip blob sidecar.
    pub fn send_gossip_blob_sidecar(
        &mut self,
        message_id: MessageId,
        peer_id: PeerId,
        peer_client: Client,
        blob_index: u64,
        blob: SignedBlobSidecar,
        seen_timestamp: u64,
    ) -> (r: Result<(), Error>)
        ensures
            Self::submit_effect(
                *old(self),
                *final(self),
                r,
                (WorkEvent {
                    drop_during_sync: drop_during_sync_for(WorkType::GossipSignedBlobSidecar),
                    work: Work::GossipSignedBlobSidecar {
                        message_id,
                        peer_id,
                        peer_client,
                        blob_index,
                        blob,
                        seen_timestamp,
                    },
                }),
            ),
    {
        self.try_send(WorkEvent {
            drop_during_sync: false,
            work: Work::GossipSignedBlobSidecar {
                message_id,
                peer_id,
                peer_client,
                blob_index,
                blob,
                seen_timestamp,
            },
        })
    }

    /// Submits one sync-committee signature.
    pub fn send_gossip_sync_signature(
        &mut self,
        message_id: MessageId,
        peer_id: PeerId,
        sync_signature: SyncCommitteeMessage,
        subnet_id: SyncSubnetId,
        seen_timestamp: u64,
    ) -> (r: Result<(), Error>)
        ensures
            Self::submit_effect(
                *old(self),
                *final(self),
                r,
                (WorkEvent {
                    drop_during_sync: drop_during_sync_for(WorkType::GossipSyncSignature),
                    work: Work::GossipSyncSignature {
                        message_id,
                        peer_id,
                        sync_signature,
                        subnet_id,
                        seen_timestamp,
                    },
                }),
            ),
    {
        self.try_send(WorkEvent {
            drop_during_sync: true,
            work: Work::GossipSyncSignature {
                message_id,
                peer_id,
                sync_signature,
                subnet_id,
                seen_timestamp,
            },
        })
    }

    /// Submits one sync-committee contribution.
    pub fn send_gossip_sync_contribution(
        &mut self,
        message_id: MessageId,
        peer_id: PeerId,
        sync_contribution: SignedContributionAndProof,
        seen_timestamp: u64,
    ) -> (r: Result<(), Error>)
        ensures
            Self::submit_effect(
                *old(self),
                *final(self),
                r,
                (WorkEvent {
                    drop_during_sync: drop_during_sync_for(WorkType::GossipSyncContribution),
                    work: Work::GossipSyncContribution {
                        message_id,
                        peer_id,
                        sync_contribution,
                        seen_timestamp,
                    },
                }),
            ),
    {
        self.try_send(WorkEvent {
            drop_during_sync: true,
            work: Work::GossipSyncContribution {
                message_id,
                peer_id,
                sync_contribution,
                seen_timestamp,
            },
        })
    }

    /// Submits one voluntary exit.
    pub fn send_gossip_voluntary_exit(
        &mut self,
        message_id: MessageId,
        peer_id: PeerId,
        voluntary_exit: SignedVoluntaryExit,
    ) -> (r: Result<(), Error>)
        ensures
            Self::submit_effect(
                *old(self),
                *final(self),
                r,
                (WorkEvent {
                    drop_during_sync: drop_during_sync_for(WorkType::GossipVoluntaryExit),
                    work: Work::GossipVoluntaryExit { message_id, peer_id, voluntary_exit },
                }),
            ),
    {
        self.try_send(WorkEvent {
            drop_during_sync: false,
            work: Work::GossipVoluntaryExit { message_id, peer_id, voluntary_exit },
        })
    }

    /// Submits one proposer slashing.
    pub fn send_gossip_proposer_slashing(
        &mut self,
        message_id: MessageId,
        peer_id: PeerId,
        proposer_slashing: ProposerSlashing,
    ) -> (r: Result<(), Error>)
        ensures
            Self::submit_effect(
                *old(self),
                *final(self),
                r,
                (WorkEvent {
                    drop_during_sync: drop_during_sync_for(WorkType::GossipProposerSlashing),
                    work: Work::GossipProposerSlashing { message_id, peer_id, proposer_slashing },
                }),
            ),
    {
        self.try_send(WorkEvent {
            drop_during_sync: false,
            work: Work::GossipProposerSlashing { message_id, peer_id, proposer_slashing },
        })
    }

    /// Submits one attester slashing.
    pub fn send_gossip_attester_slashing(
        &mut self,
        message_id: MessageId,
        peer_id: PeerId,
        attester_slashing: AttesterSlashing,
    ) -> (r: Result<(), Error>)
        ensures
            Self::submit_effect(
                *old(self),
                *final(self),
                r,
                (WorkEvent {
                    drop_during_sync: drop_during_sync_for(WorkType::GossipAttesterSlashing),
                    work: Work::GossipAttesterSlashing { message_id, peer_id, attester_slashing },
                }),
            ),
    {
        self.try_send(WorkEvent {
            drop_during_sync: false,
            work: Work::GossipAttesterSlashing { message_id, peer_id, attester_slashing },
        })
    }

    /// Submits one BLS-to-execution-address change.
    pub fn send_gossip_bls_to_execution_change(
        &mut self,
        message_id: MessageId,
        peer_id: PeerId,
        bls_to_execution_change: SignedBlsToExecutionChange,
    ) -> (r: Result<(), Error>)
        ensures
            Self::submit_effect(
                *old(self),
                *final(self),
                r,
                (WorkEvent {
                    drop_during_sync: drop_during_sync_for(WorkType::GossipBlsToExecutionChange),
                    work: Work::GossipBlsToExecutionChange {
                        message_id,
                        peer_id,
                        bls_to_execution_change,
                    },
                }),
            ),
    {
        self.try_send(WorkEvent {
            drop_during_sync: false,
            work: Work::GossipBlsToExecutionChange { message_id, peer_id, bls_to_execution_change },
        })
    }

    /// Submits one light-client finality update.
    pub fn send_gossip_light_client_finality_update(
        &mut self,
        message_id: MessageId,
        peer_id: PeerId,
        light_client_finality_update: LightClientFinalityUpdate,
        seen_timestamp: u64,
    ) -> (r: Result<(), Error>)
        ensures
            Self::submit_effect(
                *old(self),
                *final(self),
                r,
                (WorkEvent {
                    drop_during_sync: drop_during_sync_for(
                        WorkType::GossipLightClientFinalityUpdate,
                    ),
                    work: Work::GossipLightClientFinalityUpdate {
                        message_id,
                        peer_id,
                        light_client_finality_update,
                        seen_timestamp,
                    },
                }),
            ),
    {
        self.try_send(WorkEvent {
            drop_during_sync: true,
            work: Work::GossipLightClientFinalityUpdate {
                message_id,
                peer_id,
                light_client_finality_update,
                seen_timestamp,
            },
        })
    }

    /// Submits one light-client optimistic update.
    pub fn send_gossip_light_client_optimistic_update(
        &mut self,
        message_id: MessageId,
        peer_id: PeerId,
        light_client_optimistic_update: LightClientOptimisticUpdate,
        seen_timestamp: u64,
    ) -> (r: Result<(), Error>)
        ensures
            Self::submit_effect(
                *old(self),
                *final(self),
                r,
                (WorkEvent {
                    drop_during_sync: drop_during_sync_for(
                        WorkType::GossipLightClientOptimisticUpdate,
                    ),
                    work: Work::GossipLightClientOptimisticUpdate {
                        message_id,
                        peer_id,
                        light_client_optimistic_update,
                        seen_timestamp,
                    },
                }),
            ),
    {
        self.try_send(WorkEvent {
            drop_during_sync: true,
            work: Work::GossipLightClientOptimisticUpdate {
                message_id,
                peer_id,
                light_client_optimistic_update,
                seen_timestamp,
            },
        })
    }

    /// Submits one block fetched over RPC.
    pub fn send_rpc_beacon_block(
        &mut self,
        block_root: Hash256,
        block: RpcBlock,
        seen_timestamp: u64,
        process_type: BlockProcessType,
    ) -> (r: Result<(), Error>)
        ensures
            Self::submit_effect(
                *old(self),
                *final(self),
                r,
                (WorkEvent {
                    drop_during_sync: drop_during_sync_for(WorkType::RpcBlock),
                    work: Work::RpcBlock { block_root, block, seen_timestamp, process_type },
                }),
            ),
    {
        self.try_send(WorkEvent {
            drop_during_sync: false,
            work: Work::RpcBlock { block_root, block, seen_timestamp, process_type },
        })
    }

    /// Submits blobs fetched over RPC. A sidecar list with no non-empty slot
    /// is accepted without sending anything — the single content-level
    /// short-circuit of the facade.
    pub fn send_rpc_blobs(
        &mut self,
        block_root: Hash256,
        blobs: FixedBlobSidecarList,
        seen_timestamp: u64,
        process_type: BlockProcessType,
    ) -> (r: Result<(), Error>)
        ensures
            non_empty_count(blobs.sidecars@) == 0 ==> r == Ok::<(), Error>(()) && *final(self)
                == *old(self),
            non_empty_count(blobs.sidecars@) > 0 ==> Self::submit_effect(
                *old(self),
                *final(self),
                r,
                (WorkEvent {
                    drop_during_sync: drop_during_sync_for(WorkType::RpcBlobs),
                    work: Work::RpcBlobs { block_root, blobs, seen_timestamp, process_type },
                }),
            ),
    {
        let blob_count = count_non_empty(&blobs);
        if blob_count == 0 {
            return Ok(());
        }
        self.try_send(WorkEvent {
            drop_during_sync: false,
            work: Work::RpcBlobs { block_root, blobs, seen_timestamp, process_type },
        })
    }

    /// Submits a chain segment for import. A back-sync process identity
    /// selects the backfill variant so the worker pool can rate-limit
    /// backfill independently; every other identity selects the forward
    /// variant.
    pub fn send_chain_segment(
        &mut self,
        process_id: ChainSegmentProcessId,
        blocks: Vec<RpcBlock>,
    ) -> (r: Result<(), Error>)
        ensures
            Self::submit_effect(
                *old(self),
                *final(self),
                r,
                (if process_id is BackSyncBatchId {
                    WorkEvent {
                        drop_during_sync: drop_during_sync_for(WorkType::ChainSegmentBackfill),
                        work: Work::ChainSegmentBackfill { process_id, blocks },
                    }
                } else {
                    WorkEvent {
                        drop_during_sync: drop_during_sync_for(WorkType::ChainSegment),
                        work: Work::ChainSegment { process_id, blocks },
                    }
                }),
            ),
    {
        let is_backfill = matches!(&process_id, ChainSegmentProcessId::BackSyncBatchId(..));
        let work = if is_backfill {
            Work::ChainSegmentBackfill { process_id, blocks }
        } else {
            Work::ChainSegment { process_id, blocks }
        };
        self.try_send(WorkEvent { drop_during_sync: false, work })
    }

    /// Submits one status handshake message from the RPC network.
    pub fn send_status_message(
        &mut self,
        peer_id: PeerId,
        message: StatusMessage,
    ) -> (r: Result<(), Error>)
        ensures
            Self::submit_effect(
                *old(self),
                *final(self),
                r,
                (WorkEvent {
                    drop_during_sync: drop_during_sync_for(WorkType::Status),
                    work: Work::Status { peer_id, message },
                }),
            ),
    {
        self.try_send(WorkEvent {
            drop_during_sync: false,
            work: Work::Status { peer_id, message },
        })
    }

    /// Submits one blocks-by-range serving request; its processing receives
    /// the worker pool's idle-signal handle when it later runs.
    pub fn send_blocks_by_range_request(
        &mut self,
        peer_id: PeerId,
        request_id: PeerRequestId,
        request: BlocksByRangeRequest,
    ) -> (r: Result<(), Error>)
        ensures
            Self::submit_effect(
                *old(self),
                *final(self),
                r,
                (WorkEvent {
                    drop_during_sync: drop_during_sync_for(WorkType::BlocksByRangeRequest),
                    work: Work::BlocksByRangeRequest { peer_id, request_id, request },
                }),
            ),
    {
        self.try_send(WorkEvent {
            drop_during_sync: false,
            work: Work::BlocksByRangeRequest { peer_id, request_id, request },
        })
    }

    /// Submits one blocks-by-roots serving request; its processing receives
    /// the worker pool's idle-signal handle when it later runs.
    pub fn send_blocks_by_roots_request(
        &mut self,
        peer_id: PeerId,
        request_id: PeerRequestId,
        request: BlocksByRootRequest,
    ) -> (r: Result<(), Error>)
        ensures
            Self::submit_effect(
                *old(self),
                *final(self),
                r,
                (WorkEvent {
                    drop_during_sync: drop_during_sync_for(WorkType::BlocksByRootsRequest),
                    work: Work::BlocksByRootsRequest { peer_id, request_id, request },
                }),
            ),
    {
        self.try_send(WorkEvent {
            drop_during_sync: false,
            work: Work::BlocksByRootsRequest { peer_id, request_id, request },
        })
    }

    /// Submits one blobs-by-range serving request.
    pub fn send_blobs_by_range_request(
        &mut self,
        peer_id: PeerId,
        request_id: PeerRequestId,
        request: BlobsByRangeRequest,
    ) -> (r: Result<(), Error>)
        ensures
            Self::submit_effect(
                *old(self),
                *final(self),
                r,
                (WorkEvent {
                    drop_during_sync: drop_during_sync_for(WorkType::BlobsByRangeRequest),
                    work: Work::BlobsByRangeRequest { peer_id, request_id, request },
                }),
            ),
    {
        self.try_send(WorkEvent {
            drop_during_sync: false,
            work: Work::BlobsByRangeRequest { peer_id, request_id, request },
        })
    }

    /// Submits one blobs-by-roots serving request.
    pub fn send_blobs_by_roots_request(
        &mut self,
        peer_id: PeerId,
        request_id: PeerRequestId,
        request: BlobsByRootRequest,
    ) -> (r: Result<(), Error>)
        ensures
            Self::submit_effect(
                *old(self),
                *final(self),
                r,
                (WorkEvent {
                    drop_during_sync: drop_during_sync_for(WorkType::BlobsByRootsRequest),
                    work: Work::BlobsByRootsRequest { peer_id, request_id, request },
                }),
            ),
    {
        self.try_send(WorkEvent {
            drop_during_sync: false,
            work: Work::BlobsByRootsRequest { peer_id, request_id, request },
        })
    }

    /// Submits one light-client bootstrap serving request.
    pub fn send_lightclient_bootstrap_request(
        &mut self,
        peer_id: PeerId,
        request_id: PeerRequestId,
        request: LightClientBootstrapRequest,
    ) -> (r: Result<(), Error>)
        ensures
            Self::submit_effect(
                *old(self),
                *final(self),
                r,
                (WorkEvent {
                    drop_during_sync: drop_during_sync_for(WorkType::LightClientBootstrapRequest),
                    work: Work::LightClientBootstrapRequest { peer_id, request_id, request },
                }),
            ),
    {
        self.try_send(WorkEvent {
            drop_during_sync: true,
            work: Work::LightClientBootstrapRequest { peer_id, request_id, request },
        })
    }

    /// Hands a message to the sync service; a send after the service has
    /// shut down is dropped silently.
    fn send_sync_message(&mut self, message: SyncMessage)
        ensures
            final(self).beacon_processor_send == old(self).beacon_processor_send,
            final(self).duplicate_cache == old(self).duplicate_cache,
            final(self).network_tx == old(self).network_tx,
            final(self).reprocess_tx == old(self).reprocess_tx,
            final(self).sync_state == old(self).sync_state,
            final(self).invalid_block_storage == old(self).invalid_block_storage,
            final(self).delayed_lookup_peers == old(self).delayed_lookup_peers,
            final(self).sync_tx.closed == old(self).sync_tx.closed,
            old(self).sync_tx.closed ==> final(self).sync_tx.items@ == old(self).sync_tx.items@,
            !old(self).sync_tx.closed ==> final(self).sync_tx.items@ == old(
                self,
            ).sync_tx.items@.push(message),
    {
        let sent = self.sync_tx.send(message);
        match sent {
            Ok(()) => (),
            Err(_dropped) => (),
        }
    }

    /// Hands a message to the network service; a send after the service has
    /// shut down is dropped silently.
    fn send_network_message(&mut self, message: NetworkMessage)
        ensures
            final(self).beacon_processor_send == old(self).beacon_processor_send,
            final(self).duplicate_cache == old(self).duplicate_cache,
            final(self).sync_tx == old(self).sync_tx,
            final(self).reprocess_tx == old(self).reprocess_tx,
            final(self).sync_state == old(self).sync_state,
            final(self).invalid_block_storage == old(self).invalid_block_storage,
            final(self).delayed_lookup_peers == old(self).delayed_lookup_peers,
            final(self).network_tx.closed == old(self).network_tx.closed,
            old(self).network_tx.closed ==> final(self).network_tx.items@ == old(
                self,
            ).network_tx.items@,
            !old(self).network_tx.closed ==> final(self).network_tx.items@ == old(
                self,
            ).network_tx.items@.push(message),
    {
        let sent = self.network_tx.send(message);
        match sent {
            Ok(()) => (),
            Err(_dropped) => (),
        }
    }

    /// The effect of one observed scheduler tick: the registry is drained and
    /// each drained entry, least recently updated first, goes to the sync
    /// service as one delayed-lookup message with its peer set intact.
    pub open spec fn drained_effect(pre: Self, post: Self) -> bool {
        &&& post.beacon_processor_send == pre.beacon_processor_send
        &&& post.duplicate_cache == pre.duplicate_cache
        &&& post.network_tx == pre.network_tx
        &&& post.reprocess_tx == pre.reprocess_tx
        &&& post.sync_state == pre.sync_state
        &&& post.invalid_block_storage == pre.invalid_block_storage
        &&& post.delayed_lookup_peers.wf()
        &&& post.delayed_lookup_peers@.len() == 0
        &&& post.sync_tx.closed == pre.sync_tx.closed
        &&& if pre.sync_tx.closed {
            post.sync_tx.items@ == pre.sync_tx.items@
        } else {
            let s = pre.delayed_lookup_peers@;
            let pre_items = pre.sync_tx.items@;
            let items = post.sync_tx.items@;
            &&& items.len() == pre_items.len() + s.len()
            &&& forall|i: int| 0 <= i < pre_items.len() ==> items[i] == pre_items[i]
            &&& forall|i: int|
                0 <= i < s.len() ==> delayed_lookup_message_matches(
                    s[s.len() - 1 - i],
                    #[trigger] items[pre_items.len() + i],
                )
        }
    }

    /// Drains the delayed-lookup registry and forwards one delayed-lookup
    /// message per entry to the sync service.
    pub fn poll_delayed_lookups(&mut self, _slot: Slot)
        requires
            old(self).delayed_lookup_peers.wf(),
        ensures
            Self::drained_effect(*old(self), *final(self)),
    {
        let ghost s = self.delayed_lookup_peers@;
        let mut drained = self.delayed_lookup_peers.drain();
        let ghost d0 = drained@;
        let ghost pre_items = self.sync_tx.items@;
        let ghost mid = *self;
        let mut sent: usize = 0;
        proof {
            assert(d0.len() <= usize::MAX) by {
                assert(drained@.len() <= usize::MAX);
            }
        }
        while drained.len() > 0
            invariant
                d0.len() <= usize::MAX,
                mid.delayed_lookup_peers.wf(),
                mid.delayed_lookup_peers@.len() == 0,
                sent + drained@.len() == d0.len(),
                drained@ =~= d0.subrange(sent as int, d0.len() as int),
                d0.len() == s.len(),
                forall|i: int| 0 <= i < d0.len() ==> drained_pair(s[s.len() - 1 - i], #[trigger] d0[i]),
                self.beacon_processor_send == mid.beacon_processor_send,
                self.duplicate_cache == mid.duplicate_cache,
                self.network_tx == mid.network_tx,
                self.reprocess_tx == mid.reprocess_tx,
                self.sync_state == mid.sync_state,
                self.invalid_block_storage == mid.invalid_block_storage,
                self.delayed_lookup_peers == mid.delayed_lookup_peers,
                self.sync_tx.closed == mid.sync_tx.closed,
                mid.sync_tx.items@ == pre_items,
                mid.sync_tx.closed ==> self.sync_tx.items@ == pre_items,
                !mid.sync_tx.closed ==> {
                    &&& self.sync_tx.items@.len() == pre_items.len() + sent
                    &&& forall|i: int|
                        0 <= i < pre_items.len() ==> self.sync_tx.items@[i] == pre_items[i]
                    &&& forall|i: int|
                        0 <= i < sent ==> delayed_lookup_message_matches(
                            s[s.len() - 1 - i],
                            #[trigger] self.sync_tx.items@[pre_items.len() + i],
                        )
                },
            decreases drained@.len(),
        {
            let entry = drained.remove(0);
            let (block_root, peers) = entry;
            self.send_sync_message(SyncMessage::DelayedLookup { block_root, peers });
            sent = sent + 1;
        }
    }

    /// One scheduler tick: when the slot clock yields a slot the registry is
    /// drained into the sync service; when it yields nothing the tick is
    /// skipped and nothing changes, observably degraded to the caller's log.
    pub fn on_scheduler_tick(&mut self, slot: Option<Slot>)
        requires
            old(self).delayed_lookup_peers.wf(),
        ensures
            slot is None ==> *final(self) == *old(self),
            slot matches Some(_) ==> Self::drained_effect(*old(self), *final(self)),
    {
        match slot {
            None => (),
            Some(current) => {
                self.poll_delayed_lookups(current);
            },
        }
    }

    /// A dispatcher wired to fresh in-memory channels, so a caller can assert
    /// exactly what each submission emits. The sync-state snapshot stands for
    /// the upstream shared value a live node would read.
    pub fn null_for_testing(sync_state: SyncState) -> (r: Self)
        ensures
            r.beacon_processor_send.items@ =~= Seq::<WorkEvent>::empty(),
            r.beacon_processor_send.cap == MAX_WORK_EVENT_QUEUE_LEN,
            !r.beacon_processor_send.closed,
            r.duplicate_cache.wf(),
            r.duplicate_cache@ =~= Seq::<Hash256>::empty(),
            r.duplicate_cache.spec_cap() == DEFAULT_DUPLICATE_CACHE_SIZE,
            r.network_tx.items@ =~= Seq::<NetworkMessage>::empty(),
            !r.network_tx.closed,
            r.sync_tx.items@ =~= Seq::<SyncMessage>::empty(),
            !r.sync_tx.closed,
            r.reprocess_tx.items@ =~= Seq::<ReprocessQueueMessage>::empty(),
            r.reprocess_tx.cap == MAX_SCHEDULED_WORK_QUEUE_LEN,
            !r.reprocess_tx.closed,
            r.sync_state == sync_state,
            r.invalid_block_storage == InvalidBlockStorage::Disabled,
            r.delayed_lookup_peers.wf(),
            r.delayed_lookup_peers@.len() == 0,
    {
        NetworkBeaconProcessor {
            beacon_processor_send: BoundedChannel::new(MAX_WORK_EVENT_QUEUE_LEN),
            duplicate_cache: DuplicateCache::new(DEFAULT_DUPLICATE_CACHE_SIZE),
            network_tx: UnboundedChannel::new(),
            sync_tx: UnboundedChannel::new(),
            reprocess_tx: BoundedChannel::new(MAX_SCHEDULED_WORK_QUEUE_LEN),
            sync_state,
            invalid_block_storage: InvalidBlockStorage::Disabled,
            delayed_lookup_peers: DelayedLookupRegistry::new(),
        }
    }
}

/// A registry entry drained as one delayed-lookup sync message: the same root
/// and the same peers in the same order.
pub open spec fn delayed_lookup_message_matches(
    e: ((u64, u64, u64, u64), Seq<u64>),
    m: SyncMessage,
) -> bool {
    match m {
        SyncMessage::DelayedLookup { block_root, peers } => drained_pair(e, (block_root, peers)),
        _ => false,
    }
}

/// Counts the non-empty sidecar slots.
fn count_non_empty(blobs: &FixedBlobSidecarList) -> (n: usize)
    ensures
        n == non_empty_count(blobs.sidecars@),
{
    let mut n: usize = 0;
    let mut i: usize = 0;
    while i < blobs.sidecars.len()
        invariant
            0 <= i <= blobs.sidecars@.len(),
            n <= i,
            n == non_empty_count(blobs.sidecars@.take(i as int)),
        decreases blobs.sidecars@.len() - i,
    {
        assert(blobs.sidecars@.take(i as int + 1).drop_last() =~= blobs.sidecars@.take(i as int));
        assert(blobs.sidecars@.take(i as int + 1).last() == blobs.sidecars@[i as int]);
        if blobs.sidecars[i].is_some() {
            n += 1;
        }
        i += 1;
    }
    assert(blobs.sidecars@.take(blobs.sidecars@.len() as int) =~= blobs.sidecars@);
    n
}

/// The decision the chain-segment processing body takes when it later runs:
/// while the node is syncing finalized history, the execution layer is not
/// notified of the imported historical payloads.
pub fn notify_execution_layer_decision(sync_state: &SyncState) -> (r: NotifyExecutionLayer)
    ensures
        r == (if sync_state.spec_is_syncing_finalized() {
            NotifyExecutionLayer::No
        } else {
            NotifyExecutionLayer::Yes
        }),
{
    if sync_state.is_syncing_finalized() {
        NotifyExecutionLayer::No
    } else {
        NotifyExecutionLayer::Yes
    }
}

} // verus!
