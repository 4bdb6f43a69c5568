//! Submission behaviour of the dispatch facade: one envelope per success,
//! the fixed drop-during-sync table, the zero-blob short-circuit, the
//! backfill-variant selection, and typed back-pressure errors.

use network_dispatch::channel::{BoundedChannel, TrySendError};
use network_dispatch::ids::{
    Client, Epoch, Hash256, MessageId, PeerId, PeerRequestId, SubnetId, SyncSubnetId,
};
use network_dispatch::payloads::{
    Attestation, AttesterSlashing, BlobSidecar, BlobsByRangeRequest, BlockProcessType,
    BlocksByRangeRequest, ChainSegmentProcessId, FixedBlobSidecarList, MAX_BLOBS_PER_BLOCK,
    LightClientBootstrapRequest, LightClientFinalityUpdate, LightClientOptimisticUpdate,
    NotifyExecutionLayer, ProposerSlashing, RpcBlock, SignedAggregateAndProof, SignedBeaconBlock,
    SignedBlobSidecar, SignedBlsToExecutionChange, SignedContributionAndProof,
    SignedVoluntaryExit, StatusMessage, SyncCommitteeMessage, SyncState,
};
use network_dispatch::processor::{notify_execution_layer_decision, NetworkBeaconProcessor};
use network_dispatch::work::{GossipAttestationPackage, Work, WorkEvent, WorkType};

fn fresh() -> NetworkBeaconProcessor {
    NetworkBeaconProcessor::null_for_testing(SyncState::Synced)
}

#[test]
fn gossip_attestation_happy_path() {
    let mut p = fresh();
    let r = p.send_unaggregated_attestation(
        MessageId(1),
        PeerId(2),
        Attestation(99),
        SubnetId(3),
        true,
        12345,
    );
    assert!(r.is_ok());
    assert_eq!(p.beacon_processor_send.len(), 1);
    let ev = p.beacon_processor_send.try_recv().unwrap();
    assert!(ev.drop_during_sync);
    assert_eq!(
        ev.work,
        Work::GossipAttestation {
            attestation: GossipAttestationPackage {
                message_id: MessageId(1),
                peer_id: PeerId(2),
                attestation: Attestation(99),
                subnet_id: SubnetId(3),
                should_import: true,
                seen_timestamp: 12345,
            },
        }
    );
    assert_eq!(p.beacon_processor_send.len(), 0);
}

#[test]
fn aggregate_records_beacon_block_root() {
    let mut p = fresh();
    let aggregate = SignedAggregateAndProof {
        beacon_block_root: Hash256(9, 8, 7, 6),
        body: 1,
    };
    p.send_aggregated_attestation(MessageId(4), PeerId(5), aggregate, 777)
        .unwrap();
    let ev = p.beacon_processor_send.try_recv().unwrap();
    assert!(ev.drop_during_sync);
    match ev.work {
        Work::GossipAggregate { aggregate: pkg } => {
            assert_eq!(pkg.beacon_block_root, Hash256(9, 8, 7, 6));
            assert_eq!(pkg.aggregate, aggregate);
            assert_eq!(pkg.seen_timestamp, 777);
        }
        other => panic!("wrong kind: {:?}", other.work_type()),
    }
}

#[test]
fn empty_blob_rpc_short_circuits() {
    let mut p = fresh();
    let blobs = FixedBlobSidecarList {
        sidecars: vec![None; MAX_BLOBS_PER_BLOCK],
    };
    let r = p.send_rpc_blobs(
        Hash256(1, 1, 1, 1),
        blobs,
        5,
        BlockProcessType::SingleBlob { id: 1 },
    );
    assert!(r.is_ok());
    assert_eq!(p.beacon_processor_send.len(), 0);
}

#[test]
fn non_empty_blob_rpc_sends_one_envelope() {
    let mut p = fresh();
    let blobs = FixedBlobSidecarList {
        sidecars: vec![None, Some(BlobSidecar(3)), None, None, Some(BlobSidecar(4)), None],
    };
    let r = p.send_rpc_blobs(
        Hash256(1, 2, 3, 4),
        blobs.clone(),
        5,
        BlockProcessType::SingleBlob { id: 1 },
    );
    assert!(r.is_ok());
    assert_eq!(p.beacon_processor_send.len(), 1);
    let ev = p.beacon_processor_send.try_recv().unwrap();
    assert_eq!(ev.work.work_type(), WorkType::RpcBlobs);
    assert!(!ev.drop_during_sync);
    match ev.work {
        Work::RpcBlobs {
            block_root,
            blobs: sent,
            seen_timestamp,
            process_type,
        } => {
            assert_eq!(block_root, Hash256(1, 2, 3, 4));
            assert_eq!(sent, blobs);
            assert_eq!(seen_timestamp, 5);
            assert_eq!(process_type, BlockProcessType::SingleBlob { id: 1 });
        }
        _ => panic!("wrong kind"),
    }
}

#[test]
fn backfill_versus_forward_segments() {
    let mut p = fresh();
    p.send_chain_segment(
        ChainSegmentProcessId::BackSyncBatchId(Epoch(7)),
        vec![RpcBlock { block_root: Hash256(1, 0, 0, 0), body: 0 }],
    )
    .unwrap();
    p.send_chain_segment(
        ChainSegmentProcessId::RangeBatchId(7, Epoch(7)),
        vec![RpcBlock { block_root: Hash256(2, 0, 0, 0), body: 0 }],
    )
    .unwrap();
    let first = p.beacon_processor_send.try_recv().unwrap();
    let second = p.beacon_processor_send.try_recv().unwrap();
    assert_eq!(first.work.work_type(), WorkType::ChainSegmentBackfill);
    assert_eq!(second.work.work_type(), WorkType::ChainSegment);
    assert!(!first.drop_during_sync);
    assert!(!second.drop_during_sync);
}

#[test]
fn parent_lookup_segment_is_forward() {
    let mut p = fresh();
    p.send_chain_segment(ChainSegmentProcessId::ParentLookup(Hash256(5, 5, 5, 5)), vec![])
        .unwrap();
    let ev = p.beacon_processor_send.try_recv().unwrap();
    assert_eq!(ev.work.work_type(), WorkType::ChainSegment);
}

#[test]
fn overflow_returns_full_and_keeps_channel() {
    let mut p = fresh();
    p.beacon_processor_send = BoundedChannel {
        items: Vec::new(),
        cap: 1,
        closed: false,
    };
    p.send_status_message(PeerId(1), StatusMessage(0)).unwrap();
    assert_eq!(p.beacon_processor_send.len(), 1);
    let r = p.send_gossip_voluntary_exit(MessageId(1), PeerId(2), SignedVoluntaryExit(3));
    match r {
        Err(TrySendError::Full(ev)) => {
            assert_eq!(ev.work.work_type(), WorkType::GossipVoluntaryExit);
            assert!(!ev.drop_during_sync);
            match ev.work {
                Work::GossipVoluntaryExit {
                    message_id,
                    peer_id,
                    voluntary_exit,
                } => {
                    assert_eq!(message_id, MessageId(1));
                    assert_eq!(peer_id, PeerId(2));
                    assert_eq!(voluntary_exit, SignedVoluntaryExit(3));
                }
                _ => panic!("wrong kind"),
            }
        }
        other => panic!("expected a full-channel rejection, got {:?}", other),
    }
    assert_eq!(p.beacon_processor_send.len(), 1);
}

#[test]
fn closed_channel_returns_closed() {
    let mut p = fresh();
    p.beacon_processor_send.close();
    let r = p.send_status_message(PeerId(1), StatusMessage(0));
    match r {
        Err(TrySendError::Closed(ev)) => {
            assert_eq!(ev.work.work_type(), WorkType::Status);
        }
        other => panic!("expected a closed-channel rejection, got {:?}", other),
    }
    assert_eq!(p.beacon_processor_send.len(), 0);
}

#[test]
fn drop_during_sync_table_holds_for_every_kind() {
    let mut p = fresh();
    p.send_unaggregated_attestation(MessageId(0), PeerId(0), Attestation(0), SubnetId(0), false, 0)
        .unwrap();
    p.send_aggregated_attestation(
        MessageId(0),
        PeerId(0),
        SignedAggregateAndProof { beacon_block_root: Hash256(0, 0, 0, 0), body: 0 },
        0,
    )
    .unwrap();
    p.send_gossip_beacon_block(
        MessageId(0),
        PeerId(0),
        Client(0),
        SignedBeaconBlock { block_root: Hash256(0, 0, 0, 0), body: 0 },
        0,
    )
    .unwrap();
    p.send_gossip_blob_sidecar(MessageId(0), PeerId(0), Client(0), 0, SignedBlobSidecar(0), 0)
        .unwrap();
    p.send_gossip_sync_signature(MessageId(0), PeerId(0), SyncCommitteeMessage(0), SyncSubnetId(0), 0)
        .unwrap();
    p.send_gossip_sync_contribution(MessageId(0), PeerId(0), SignedContributionAndProof(0), 0)
        .unwrap();
    p.send_gossip_voluntary_exit(MessageId(0), PeerId(0), SignedVoluntaryExit(0))
        .unwrap();
    p.send_gossip_proposer_slashing(MessageId(0), PeerId(0), ProposerSlashing(0))
        .unwrap();
    p.send_gossip_attester_slashing(MessageId(0), PeerId(0), AttesterSlashing(0))
        .unwrap();
    p.send_gossip_bls_to_execution_change(MessageId(0), PeerId(0), SignedBlsToExecutionChange(0))
        .unwrap();
    p.send_gossip_light_client_finality_update(MessageId(0), PeerId(0), LightClientFinalityUpdate(0), 0)
        .unwrap();
    p.send_gossip_light_client_optimistic_update(
        MessageId(0),
        PeerId(0),
        LightClientOptimisticUpdate(0),
        0,
    )
    .unwrap();
    p.send_rpc_beacon_block(
        Hash256(0, 0, 0, 0),
        RpcBlock { block_root: Hash256(0, 0, 0, 0), body: 0 },
        0,
        BlockProcessType::SingleBlock { id: 0 },
    )
    .unwrap();
    p.send_rpc_blobs(
        Hash256(0, 0, 0, 0),
        FixedBlobSidecarList { sidecars: vec![Some(BlobSidecar(0))] },
        0,
        BlockProcessType::SingleBlob { id: 0 },
    )
    .unwrap();
    p.send_chain_segment(ChainSegmentProcessId::RangeBatchId(0, Epoch(0)), vec![])
        .unwrap();
    p.send_chain_segment(ChainSegmentProcessId::BackSyncBatchId(Epoch(0)), vec![])
        .unwrap();
    p.send_status_message(PeerId(0), StatusMessage(0)).unwrap();
    p.send_blocks_by_range_request(
        PeerId(0),
        PeerRequestId(0, 0),
        BlocksByRangeRequest { start_slot: 0, count: 0 },
    )
    .unwrap();
    p.send_blocks_by_roots_request(
        PeerId(0),
        PeerRequestId(0, 0),
        network_dispatch::payloads::BlocksByRootRequest { block_roots: vec![] },
    )
    .unwrap();
    p.send_blobs_by_range_request(
        PeerId(0),
        PeerRequestId(0, 0),
        BlobsByRangeRequest { start_slot: 0, count: 0 },
    )
    .unwrap();
    p.send_blobs_by_roots_request(
        PeerId(0),
        PeerRequestId(0, 0),
        network_dispatch::payloads::BlobsByRootRequest { blob_ids: vec![] },
    )
    .unwrap();
    p.send_lightclient_bootstrap_request(
        PeerId(0),
        PeerRequestId(0, 0),
        LightClientBootstrapRequest { root: Hash256(0, 0, 0, 0) },
    )
    .unwrap();

    let expected = [
        (WorkType::GossipAttestation, true),
        (WorkType::GossipAggregate, true),
        (WorkType::GossipBlock, false),
        (WorkType::GossipSignedBlobSidecar, false),
        (WorkType::GossipSyncSignature, true),
        (WorkType::GossipSyncContribution, true),
        (WorkType::GossipVoluntaryExit, false),
        (WorkType::GossipProposerSlashing, false),
        (WorkType::GossipAttesterSlashing, false),
        (WorkType::GossipBlsToExecutionChange, false),
        (WorkType::GossipLightClientFinalityUpdate, true),
        (WorkType::GossipLightClientOptimisticUpdate, true),
        (WorkType::RpcBlock, false),
        (WorkType::RpcBlobs, false),
        (WorkType::ChainSegment, false),
        (WorkType::ChainSegmentBackfill, false),
        (WorkType::Status, false),
        (WorkType::BlocksByRangeRequest, false),
        (WorkType::BlocksByRootsRequest, false),
        (WorkType::BlobsByRangeRequest, false),
        (WorkType::BlobsByRootsRequest, false),
        (WorkType::LightClientBootstrapRequest, true),
    ];
    for (kind, flag) in expected {
        let ev: WorkEvent = p.beacon_processor_send.try_recv().unwrap();
        assert_eq!(ev.work.work_type(), kind);
        assert_eq!(ev.drop_during_sync, flag, "flag of {:?}", kind);
    }
    assert_eq!(p.beacon_processor_send.len(), 0);
}

#[test]
fn submissions_leave_other_channels_alone() {
    let mut p = fresh();
    p.send_status_message(PeerId(1), StatusMessage(2)).unwrap();
    assert_eq!(p.sync_tx.len(), 0);
    assert_eq!(p.network_tx.len(), 0);
    assert_eq!(p.reprocess_tx.len(), 0);
    assert_eq!(p.delayed_lookup_peers.len(), 0);
}

#[test]
fn execution_layer_notification_follows_sync_state() {
    assert_eq!(
        notify_execution_layer_decision(&SyncState::SyncingFinalized),
        NotifyExecutionLayer::No
    );
    assert_eq!(
        notify_execution_layer_decision(&SyncState::Synced),
        NotifyExecutionLayer::Yes
    );
    assert_eq!(
        notify_execution_layer_decision(&SyncState::SyncingHead),
        NotifyExecutionLayer::Yes
    );
    assert_eq!(
        notify_execution_layer_decision(&SyncState::BackFillSyncing),
        NotifyExecutionLayer::Yes
    );
    assert_eq!(
        notify_execution_layer_decision(&SyncState::Stalled),
        NotifyExecutionLayer::Yes
    );
}
