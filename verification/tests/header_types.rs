//! Execution-payload header upgrades and defaults, and the execution-witness
//! type shapes.

use network_dispatch::headers::{
    Address, BeaconStateError, ExecutionBlockHash, ExecutionPayloadHeader,
    ExecutionPayloadHeaderCapella, ExecutionPayloadHeaderDeneb, ExecutionPayloadHeaderMerge,
    Uint256, BYTES_PER_LOGS_BLOOM,
};
use network_dispatch::ids::Hash256;
use network_dispatch::ssz::{DecodeError, ForkName};
use network_dispatch::witness::{
    BanderwagonFieldElement, BanderwagonGroupElement, ExecutionWitness, IpaProof, StateDiff,
    StateDiffValue, Stem, StemStateDiff, SuffixStateDiff, VerkleProof,
};

fn sample_merge() -> ExecutionPayloadHeaderMerge {
    ExecutionPayloadHeaderMerge {
        parent_hash: ExecutionBlockHash(Hash256(1, 2, 3, 4)),
        fee_recipient: Address(5, 6, 7),
        state_root: Hash256(8, 9, 10, 11),
        receipts_root: Hash256(12, 13, 14, 15),
        logs_bloom: vec![0xab; BYTES_PER_LOGS_BLOOM],
        prev_randao: Hash256(16, 17, 18, 19),
        block_number: 20,
        gas_limit: 21,
        gas_used: 22,
        timestamp: 23,
        extra_data: vec![1, 2, 3],
        base_fee_per_gas: Uint256(24, 25, 26, 27),
        block_hash: ExecutionBlockHash(Hash256(28, 29, 30, 31)),
        transactions_root: Hash256(32, 33, 34, 35),
    }
}

#[test]
fn upgrade_to_capella_keeps_fields_and_zeroes_withdrawals_root() {
    let merge = sample_merge();
    let capella = merge.upgrade_to_capella();
    assert_eq!(capella.parent_hash, merge.parent_hash);
    assert_eq!(capella.fee_recipient, merge.fee_recipient);
    assert_eq!(capella.state_root, merge.state_root);
    assert_eq!(capella.receipts_root, merge.receipts_root);
    assert_eq!(capella.logs_bloom, merge.logs_bloom);
    assert_eq!(capella.prev_randao, merge.prev_randao);
    assert_eq!(capella.block_number, merge.block_number);
    assert_eq!(capella.gas_limit, merge.gas_limit);
    assert_eq!(capella.gas_used, merge.gas_used);
    assert_eq!(capella.timestamp, merge.timestamp);
    assert_eq!(capella.extra_data, merge.extra_data);
    assert_eq!(capella.base_fee_per_gas, merge.base_fee_per_gas);
    assert_eq!(capella.block_hash, merge.block_hash);
    assert_eq!(capella.transactions_root, merge.transactions_root);
    assert_eq!(capella.withdrawals_root, Hash256(0, 0, 0, 0));
}

#[test]
fn upgrade_to_deneb_keeps_fields_and_zeroes_blob_gas() {
    let capella = sample_merge().upgrade_to_capella();
    let deneb = capella.upgrade_to_deneb();
    assert_eq!(deneb.parent_hash, capella.parent_hash);
    assert_eq!(deneb.logs_bloom, capella.logs_bloom);
    assert_eq!(deneb.extra_data, capella.extra_data);
    assert_eq!(deneb.withdrawals_root, capella.withdrawals_root);
    assert_eq!(deneb.base_fee_per_gas, capella.base_fee_per_gas);
    assert_eq!(deneb.blob_gas_used, 0);
    assert_eq!(deneb.excess_blob_gas, 0);
}

#[test]
fn default_headers_have_zero_roots() {
    let merge = ExecutionPayloadHeaderMerge::default();
    assert!(ExecutionPayloadHeader::Merge(merge.clone())
        .to_ref()
        .is_default_with_zero_roots());
    let capella = ExecutionPayloadHeaderCapella::default();
    assert!(ExecutionPayloadHeader::Capella(capella)
        .to_ref()
        .is_default_with_zero_roots());
    let nonzero = sample_merge();
    assert!(!ExecutionPayloadHeader::Merge(nonzero)
        .to_ref()
        .is_default_with_zero_roots());
    let mut almost = merge;
    almost.block_number = 1;
    assert!(!ExecutionPayloadHeader::Merge(almost)
        .to_ref()
        .is_default_with_zero_roots());
}

#[test]
fn try_from_demands_the_right_fork() {
    let merge = sample_merge();
    let header = ExecutionPayloadHeader::Merge(merge.clone());
    assert_eq!(ExecutionPayloadHeaderMerge::try_from(header.clone()), Ok(merge));
    assert_eq!(
        ExecutionPayloadHeaderCapella::try_from(header.clone()),
        Err(BeaconStateError::IncorrectStateVariant)
    );
    assert_eq!(
        ExecutionPayloadHeaderDeneb::try_from(header),
        Err(BeaconStateError::IncorrectStateVariant)
    );
    let deneb = ExecutionPayloadHeaderDeneb::default();
    assert_eq!(
        ExecutionPayloadHeaderDeneb::try_from(ExecutionPayloadHeader::Deneb(deneb.clone())),
        Ok(deneb)
    );
}

#[test]
fn header_never_hands_out_transactions() {
    let header = ExecutionPayloadHeader::Merge(sample_merge());
    assert!(header.transactions().is_none());
}

fn put_u64(v: &mut Vec<u8>, x: u64) {
    for k in 0..8 {
        v.push((x >> (8 * k)) as u8);
    }
}

fn put_u32(v: &mut Vec<u8>, x: u32) {
    for k in 0..4 {
        v.push((x >> (8 * k)) as u8);
    }
}

fn put_hash(v: &mut Vec<u8>, h: Hash256) {
    put_u64(v, h.0);
    put_u64(v, h.1);
    put_u64(v, h.2);
    put_u64(v, h.3);
}

/// The fixed part of a merge-fork header whose fields count up, without the
/// extra-data tail; the offset points at byte 536.
fn merge_wire_fixed() -> Vec<u8> {
    let mut b = Vec::new();
    put_hash(&mut b, Hash256(1, 2, 3, 4)); // parent_hash
    put_u64(&mut b, 5); // fee_recipient
    put_u64(&mut b, 6);
    put_u32(&mut b, 7);
    put_hash(&mut b, Hash256(8, 9, 10, 11)); // state_root
    put_hash(&mut b, Hash256(12, 13, 14, 15)); // receipts_root
    b.extend(std::iter::repeat(0xaa).take(256)); // logs_bloom
    put_hash(&mut b, Hash256(16, 17, 18, 19)); // prev_randao
    put_u64(&mut b, 20); // block_number
    put_u64(&mut b, 21); // gas_limit
    put_u64(&mut b, 22); // gas_used
    put_u64(&mut b, 23); // timestamp
    put_u32(&mut b, 536); // extra_data offset
    put_hash(&mut b, Hash256(24, 25, 26, 27)); // base_fee_per_gas
    put_hash(&mut b, Hash256(28, 29, 30, 31)); // block_hash
    put_hash(&mut b, Hash256(32, 33, 34, 35)); // transactions_root
    assert_eq!(b.len(), 536);
    b
}

#[test]
fn decodes_merge_header_exactly() {
    let mut b = merge_wire_fixed();
    b.extend([0xde, 0xad, 0xbe]);
    let decoded = ExecutionPayloadHeader::from_ssz_bytes(&b, ForkName::Merge).unwrap();
    match decoded {
        ExecutionPayloadHeader::Merge(m) => {
            assert_eq!(m.parent_hash, ExecutionBlockHash(Hash256(1, 2, 3, 4)));
            assert_eq!(m.fee_recipient, Address(5, 6, 7));
            assert_eq!(m.state_root, Hash256(8, 9, 10, 11));
            assert_eq!(m.receipts_root, Hash256(12, 13, 14, 15));
            assert_eq!(m.logs_bloom, vec![0xaa; 256]);
            assert_eq!(m.prev_randao, Hash256(16, 17, 18, 19));
            assert_eq!(m.block_number, 20);
            assert_eq!(m.gas_limit, 21);
            assert_eq!(m.gas_used, 22);
            assert_eq!(m.timestamp, 23);
            assert_eq!(m.extra_data, vec![0xde, 0xad, 0xbe]);
            assert_eq!(m.base_fee_per_gas, Uint256(24, 25, 26, 27));
            assert_eq!(m.block_hash, ExecutionBlockHash(Hash256(28, 29, 30, 31)));
            assert_eq!(m.transactions_root, Hash256(32, 33, 34, 35));
        }
        _ => panic!("wrong fork decoded"),
    }
}

#[test]
fn decodes_capella_header_with_withdrawals_root() {
    let mut b = merge_wire_fixed();
    // Patch the offset to the capella fixed length and append the new field.
    b[436..440].copy_from_slice(&568u32.to_le_bytes());
    put_hash(&mut b, Hash256(40, 41, 42, 43));
    let decoded = ExecutionPayloadHeader::from_ssz_bytes(&b, ForkName::Capella).unwrap();
    match decoded {
        ExecutionPayloadHeader::Capella(h) => {
            assert_eq!(h.parent_hash, ExecutionBlockHash(Hash256(1, 2, 3, 4)));
            assert_eq!(h.withdrawals_root, Hash256(40, 41, 42, 43));
            assert_eq!(h.extra_data, Vec::<u8>::new());
        }
        _ => panic!("wrong fork decoded"),
    }
}

#[test]
fn decodes_deneb_header_with_blob_gas() {
    let mut b = merge_wire_fixed();
    b[436..440].copy_from_slice(&584u32.to_le_bytes());
    put_hash(&mut b, Hash256(40, 41, 42, 43));
    put_u64(&mut b, 50);
    put_u64(&mut b, 51);
    b.push(0x99);
    let decoded = ExecutionPayloadHeader::from_ssz_bytes(&b, ForkName::Deneb).unwrap();
    match decoded {
        ExecutionPayloadHeader::Deneb(h) => {
            assert_eq!(h.withdrawals_root, Hash256(40, 41, 42, 43));
            assert_eq!(h.blob_gas_used, 50);
            assert_eq!(h.excess_blob_gas, 51);
            assert_eq!(h.extra_data, vec![0x99]);
        }
        _ => panic!("wrong fork decoded"),
    }
}

#[test]
fn decode_rejects_pre_payload_forks() {
    let b = merge_wire_fixed();
    assert_eq!(
        ExecutionPayloadHeader::from_ssz_bytes(&b, ForkName::Base),
        Err(DecodeError::UnsupportedFork)
    );
    assert_eq!(
        ExecutionPayloadHeader::from_ssz_bytes(&b, ForkName::Altair),
        Err(DecodeError::UnsupportedFork)
    );
}

#[test]
fn decode_rejects_short_input() {
    let b = vec![0u8; 10];
    assert_eq!(
        ExecutionPayloadHeader::from_ssz_bytes(&b, ForkName::Merge),
        Err(DecodeError::InvalidByteLength { len: 10, expected: 536 })
    );
}

#[test]
fn decode_rejects_misplaced_offset() {
    let mut b = merge_wire_fixed();
    b[436..440].copy_from_slice(&535u32.to_le_bytes());
    assert_eq!(
        ExecutionPayloadHeader::from_ssz_bytes(&b, ForkName::Merge),
        Err(DecodeError::OffsetIntoFixedPortion(535))
    );
    b[436..440].copy_from_slice(&537u32.to_le_bytes());
    assert_eq!(
        ExecutionPayloadHeader::from_ssz_bytes(&b, ForkName::Merge),
        Err(DecodeError::OffsetSkipsVariableBytes(537))
    );
}

#[test]
fn decode_rejects_oversized_extra_data() {
    let mut b = merge_wire_fixed();
    b.extend([7u8; 33]);
    assert_eq!(
        ExecutionPayloadHeader::from_ssz_bytes(&b, ForkName::Merge),
        Err(DecodeError::ExtraDataTooLong { len: 33, max: 32 })
    );
}

#[test]
fn witness_types_assemble() {
    let element = BanderwagonGroupElement { inner: vec![0; 32] };
    let field = BanderwagonFieldElement { inner: vec![0; 32] };
    let diff = StateDiff {
        inner: vec![StemStateDiff {
            stem: Stem { inner: vec![1; 31] },
            suffix_diffs: vec![SuffixStateDiff {
                suffix: 3,
                current_value: None,
                new_value: Some(StateDiffValue { inner: vec![9; 32] }),
            }],
        }],
    };
    let proof = VerkleProof {
        other_stems: vec![],
        depth_extension_present: vec![1, 0, 1],
        commitments_by_path: vec![element.clone()],
        d: element,
        ipa_proof: IpaProof {
            cl: vec![BanderwagonGroupElement { inner: vec![0; 32] }; 8],
            cr: vec![BanderwagonGroupElement { inner: vec![0; 32] }; 8],
            final_evaluation: field,
        },
    };
    let witness = ExecutionWitness { state_diff: diff.clone(), verkle_proof: proof };
    assert_eq!(witness.state_diff, diff);
    assert_eq!(witness.state_diff.inner[0].suffix_diffs[0].suffix, 3);
}
