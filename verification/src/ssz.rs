//! Decoding execution-payload headers from their wire form.
//!
//! A header is serialized as its fixed-size fields in order, with the one
//! variable-length field — the extra data — replaced by a four-byte offset
//! into the tail. Decoding checks the length, checks that the offset points
//! exactly at the end of the fixed part, bounds the tail, and reads every
//! field little-endian.

use vstd::prelude::*;

use crate::headers::{
    Address, ExecutionBlockHash, ExecutionPayloadHeader, ExecutionPayloadHeaderCapella,
    ExecutionPayloadHeaderDeneb, ExecutionPayloadHeaderMerge, Uint256, MAX_EXTRA_DATA_BYTES,
};
use crate::ids::Hash256;

verus! {

/// The fork a serialized object belongs to.
#[derive(Clone, Copy, Debug, PartialEq, Eq, Structural)]
pub enum ForkName {
    Base,
    Altair,
    Merge,
    Capella,
    Deneb,
}

/// Why a byte string is not a valid header of the requested fork.
#[derive(Clone, Copy, Debug, PartialEq, Eq, Structural)]
pub enum DecodeError {
    /// The fork carries no execution-payload header.
    UnsupportedFork,
    /// Fewer bytes than the fork's fixed part.
    InvalidByteLength { len: usize, expected: usize },
    /// The extra-data offset points into the fixed part.
    OffsetIntoFixedPortion(usize),
    /// The extra-data offset skips bytes after the fixed part.
    OffsetSkipsVariableBytes(usize),
    /// The tail is longer than the extra data may be.
    ExtraDataTooLong { len: usize, max: usize },
}

/// Bytes of the fixed part of a header at the first fork with one.
pub const MERGE_FIXED_LEN: usize = 536;

/// Bytes of the fixed part once the withdrawals root is appended.
pub const CAPELLA_FIXED_LEN: usize = 568;

/// Bytes of the fixed part once the blob-gas fields are appended.
pub const DENEB_FIXED_LEN: usize = 584;

/// Position of the four-byte extra-data offset, identical at every fork
/// because the fields before it are.
pub const EXTRA_DATA_OFFSET_POS: usize = 436;

/// The value of a little-endian byte string.
pub open spec fn le_val(s: Seq<u8>) -> nat
    decreases s.len(),
{
    if s.len() == 0 {
        0
    } else {
        (s[0] as nat) + 256 * le_val(s.skip(1))
    }
}

/// 256 to the power `n`.
pub open spec fn pow256(n: nat) -> nat
    decreases n,
{
    if n == 0 {
        1
    } else {
        256 * pow256((n - 1) as nat)
    }
}

/// The powers of 256 the byte readers bound their values by.
proof fn lemma_pow256_values()
    ensures
        pow256(4) == 0x100000000,
        pow256(7) == 0x100000000000000,
        pow256(8) == 0x10000000000000000,
{
    assert(pow256(0) == 1);
    assert(pow256(1) == 256);
    assert(pow256(2) == 0x10000);
    assert(pow256(3) == 0x1000000);
    assert(pow256(4) == 0x100000000);
    assert(pow256(5) == 0x10000000000);
    assert(pow256(6) == 0x1000000000000);
    assert(pow256(7) == 0x100000000000000);
    assert(pow256(8) == 0x10000000000000000);
}

/// A little-endian byte string's value is below 256 to its length.
pub proof fn lemma_le_val_bound(s: Seq<u8>)
    ensures
        le_val(s) < pow256(s.len()),
    decreases s.len(),
{
    if s.len() == 0 {
    } else {
        lemma_le_val_bound(s.skip(1));
        assert(s[0] < 256);
        assert(le_val(s.skip(1)) + 1 <= pow256((s.len() - 1) as nat));
        assert(256 * (le_val(s.skip(1)) + 1) <= 256 * pow256((s.len() - 1) as nat))
            by (nonlinear_arith)
            requires
                le_val(s.skip(1)) + 1 <= pow256((s.len() - 1) as nat),
        ;
    }
}

/// The 256-bit root starting at `off`, as four little-endian limbs.
pub open spec fn spec_hash256_at(b: Seq<u8>, off: int) -> Hash256 {
    Hash256(
        le_val(b.subrange(off, off + 8)) as u64,
        le_val(b.subrange(off + 8, off + 16)) as u64,
        le_val(b.subrange(off + 16, off + 24)) as u64,
        le_val(b.subrange(off + 24, off + 32)) as u64,
    )
}

/// The 160-bit address starting at `off`.
pub open spec fn spec_address_at(b: Seq<u8>, off: int) -> Address {
    Address(
        le_val(b.subrange(off, off + 8)) as u64,
        le_val(b.subrange(off + 8, off + 16)) as u64,
        le_val(b.subrange(off + 16, off + 20)) as u32,
    )
}

/// The 256-bit quantity starting at `off`, least significant limb first.
pub open spec fn spec_uint256_at(b: Seq<u8>, off: int) -> Uint256 {
    Uint256(
        le_val(b.subrange(off, off + 8)) as u64,
        le_val(b.subrange(off + 8, off + 16)) as u64,
        le_val(b.subrange(off + 16, off + 24)) as u64,
        le_val(b.subrange(off + 24, off + 32)) as u64,
    )
}

/// A well-formed serialization for a fork whose fixed part has `fixed`
/// bytes: long enough, the offset lands exactly at the end of the fixed
/// part, and the tail fits the extra-data bound.
pub open spec fn header_bytes_ok(b: Seq<u8>, fixed: int) -> bool {
    &&& b.len() >= fixed
    &&& le_val(b.subrange(EXTRA_DATA_OFFSET_POS as int, EXTRA_DATA_OFFSET_POS as int + 4))
        == fixed
    &&& b.len() - fixed <= MAX_EXTRA_DATA_BYTES
}

/// The error an ill-formed serialization decodes to, checks in order.
pub open spec fn header_bytes_err(b: Seq<u8>, fixed: int) -> DecodeError {
    let offset = le_val(
        b.subrange(EXTRA_DATA_OFFSET_POS as int, EXTRA_DATA_OFFSET_POS as int + 4),
    );
    if b.len() < fixed {
        DecodeError::InvalidByteLength { len: b.len() as usize, expected: fixed as usize }
    } else if offset < fixed {
        DecodeError::OffsetIntoFixedPortion(offset as usize)
    } else if offset > fixed {
        DecodeError::OffsetSkipsVariableBytes(offset as usize)
    } else {
        DecodeError::ExtraDataTooLong {
            len: (b.len() - fixed) as usize,
            max: MAX_EXTRA_DATA_BYTES,
        }
    }
}

/// The fields every fork's header shares, read from their fixed positions.
pub open spec fn common_fields_decoded(
    b: Seq<u8>,
    parent_hash: ExecutionBlockHash,
    fee_recipient: Address,
    state_root: Hash256,
    receipts_root: Hash256,
    logs_bloom: Seq<u8>,
    prev_randao: Hash256,
    block_number: u64,
    gas_limit: u64,
    gas_used: u64,
    timestamp: u64,
    base_fee_per_gas: Uint256,
    block_hash: ExecutionBlockHash,
    transactions_root: Hash256,
) -> bool {
    &&& parent_hash == ExecutionBlockHash(spec_hash256_at(b, 0))
    &&& fee_recipient == spec_address_at(b, 32)
    &&& state_root == spec_hash256_at(b, 52)
    &&& receipts_root == spec_hash256_at(b, 84)
    &&& logs_bloom == b.subrange(116, 372)
    &&& prev_randao == spec_hash256_at(b, 372)
    &&& block_number == le_val(b.subrange(404, 412))
    &&& gas_limit == le_val(b.subrange(412, 420))
    &&& gas_used == le_val(b.subrange(420, 428))
    &&& timestamp == le_val(b.subrange(428, 436))
    &&& base_fee_per_gas == spec_uint256_at(b, 440)
    &&& block_hash == ExecutionBlockHash(spec_hash256_at(b, 472))
    &&& transactions_root == spec_hash256_at(b, 504)
}

/// `m` is the header the bytes serialize at the first payload fork.
pub open spec fn merge_fields_decoded(b: Seq<u8>, m: ExecutionPayloadHeaderMerge) -> bool {
    &&& common_fields_decoded(
        b,
        m.parent_hash,
        m.fee_recipient,
        m.state_root,
        m.receipts_root,
        m.logs_bloom@,
        m.prev_randao,
        m.block_number,
        m.gas_limit,
        m.gas_used,
        m.timestamp,
        m.base_fee_per_gas,
        m.block_hash,
        m.transactions_root,
    )
    &&& m.extra_data@ == b.subrange(MERGE_FIXED_LEN as int, b.len() as int)
}

/// `h` is the header the bytes serialize at the withdrawals fork.
pub open spec fn capella_fields_decoded(b: Seq<u8>, h: ExecutionPayloadHeaderCapella) -> bool {
    &&& common_fields_decoded(
        b,
        h.parent_hash,
        h.fee_recipient,
        h.state_root,
        h.receipts_root,
        h.logs_bloom@,
        h.prev_randao,
        h.block_number,
        h.gas_limit,
        h.gas_used,
        h.timestamp,
        h.base_fee_per_gas,
        h.block_hash,
        h.transactions_root,
    )
    &&& h.withdrawals_root == spec_hash256_at(b, 536)
    &&& h.extra_data@ == b.subrange(CAPELLA_FIXED_LEN as int, b.len() as int)
}

/// `h` is the header the bytes serialize at the blob fork.
pub open spec fn deneb_fields_decoded(b: Seq<u8>, h: ExecutionPayloadHeaderDeneb) -> bool {
    &&& common_fields_decoded(
        b,
        h.parent_hash,
        h.fee_recipient,
        h.state_root,
        h.receipts_root,
        h.logs_bloom@,
        h.prev_randao,
        h.block_number,
        h.gas_limit,
        h.gas_used,
        h.timestamp,
        h.base_fee_per_gas,
        h.block_hash,
        h.transactions_root,
    )
    &&& h.withdrawals_root == spec_hash256_at(b, 536)
    &&& h.blob_gas_used == le_val(b.subrange(568, 576))
    &&& h.excess_blob_gas == le_val(b.subrange(576, 584))
    &&& h.extra_data@ == b.subrange(DENEB_FIXED_LEN as int, b.len() as int)
}

/// Reads the `n`-byte little-endian value at `off`; `n` at most eight.
fn read_le(b: &Vec<u8>, off: usize, n: usize) -> (r: u64)
    requires
        off + n <= b@.len(),
        n <= 8,
    ensures
        r == le_val(b@.subrange(off as int, off as int + n)),
{
    let total = b.len();
    let mut acc: u64 = 0;
    let mut i: usize = n;
    while i > 0
        invariant
            off + n <= b@.len(),
            b@.len() == total,
            n <= 8,
            0 <= i <= n,
            acc == le_val(b@.subrange(off + i, off as int + n)),
        decreases i,
    {
        i = i - 1;
        let ghost tail = b@.subrange(off + i + 1, off as int + n);
        proof {
            lemma_le_val_bound(tail);
            lemma_pow256_le(tail.len(), 7);
            lemma_pow256_values();
        }
        acc = acc * 256 + (b[off + i] as u64);
        proof {
            let cur = b@.subrange(off + i, off as int + n);
            assert(cur.skip(1) =~= tail);
            assert(cur[0] == b@[off + i]);
        }
    }
    assert(b@.subrange(off as int, off as int + n) == b@.subrange(off + 0, off as int + n));
    acc
}

/// 256 to the power of a smaller exponent is no larger.
proof fn lemma_pow256_le(a: nat, b: nat)
    requires
        a <= b,
    ensures
        pow256(a) <= pow256(b),
    decreases b,
{
    if a < b {
        lemma_pow256_le(a, (b - 1) as nat);
        assert(pow256(b) == 256 * pow256((b - 1) as nat));
        assert(pow256((b - 1) as nat) <= 256 * pow256((b - 1) as nat)) by (nonlinear_arith)
            requires
                pow256((b - 1) as nat) >= 0,
        ;
    }
}

/// A value below 2^64 survives the cast to a 64-bit limb.
proof fn lemma_le_val_fits_u64(s: Seq<u8>)
    requires
        s.len() <= 8,
    ensures
        le_val(s) < 0x10000000000000000,
{
    lemma_le_val_bound(s);
    lemma_pow256_le(s.len(), 8);
    lemma_pow256_values();
}

/// Reads the 256-bit root at `off`.
fn read_hash256(b: &Vec<u8>, off: usize) -> (r: Hash256)
    requires
        off + 32 <= b@.len(),
    ensures
        r == spec_hash256_at(b@, off as int),
{
    let total = b.len();
    proof {
        lemma_le_val_fits_u64(b@.subrange(off as int, off as int + 8));
        lemma_le_val_fits_u64(b@.subrange(off as int + 8, off as int + 16));
        lemma_le_val_fits_u64(b@.subrange(off as int + 16, off as int + 24));
        lemma_le_val_fits_u64(b@.subrange(off as int + 24, off as int + 32));
        assert(off + 32 <= total);
    }
    Hash256(
        read_le(b, off, 8),
        read_le(b, off + 8, 8),
        read_le(b, off + 16, 8),
        read_le(b, off + 24, 8),
    )
}

/// Reads the 160-bit address at `off`.
fn read_address(b: &Vec<u8>, off: usize) -> (r: Address)
    requires
        off + 20 <= b@.len(),
    ensures
        r == spec_address_at(b@, off as int),
{
    let total = b.len();
    proof {
        lemma_le_val_fits_u64(b@.subrange(off as int, off as int + 8));
        lemma_le_val_fits_u64(b@.subrange(off as int + 8, off as int + 16));
        lemma_le_val_bound(b@.subrange(off as int + 16, off as int + 20));
        lemma_pow256_values();
        assert(off + 20 <= total);
    }
    Address(read_le(b, off, 8), read_le(b, off + 8, 8), read_le(b, off + 16, 4) as u32)
}

/// Reads the 256-bit quantity at `off`.
fn read_uint256(b: &Vec<u8>, off: usize) -> (r: Uint256)
    requires
        off + 32 <= b@.len(),
    ensures
        r == spec_uint256_at(b@, off as int),
{
    let total = b.len();
    proof {
        lemma_le_val_fits_u64(b@.subrange(off as int, off as int + 8));
        lemma_le_val_fits_u64(b@.subrange(off as int + 8, off as int + 16));
        lemma_le_val_fits_u64(b@.subrange(off as int + 16, off as int + 24));
        lemma_le_val_fits_u64(b@.subrange(off as int + 24, off as int + 32));
        assert(off + 32 <= total);
    }
    Uint256(
        read_le(b, off, 8),
        read_le(b, off + 8, 8),
        read_le(b, off + 16, 8),
        read_le(b, off + 24, 8),
    )
}

/// Copies the bytes of `[off, off + n)` out.
fn read_bytes(b: &Vec<u8>, off: usize, n: usize) -> (r: Vec<u8>)
    requires
        off + n <= b@.len(),
    ensures
        r@ == b@.subrange(off as int, off as int + n),
{
    let total = b.len();
    let mut r: Vec<u8> = Vec::new();
    let mut i: usize = 0;
    while i < n
        invariant
            off + n <= b@.len(),
            b@.len() == total,
            0 <= i <= n,
            r@ =~= b@.subrange(off as int, off + i),
        decreases n - i,
    {
        r.push(b[off + i]);
        assert(r@ =~= b@.subrange(off as int, off + i + 1));
        i += 1;
    }
    assert(r@ =~= b@.subrange(off as int, off as int + n));
    r
}

/// Checks length, offset and tail for a fork whose fixed part has `fixed`
/// bytes, and hands back the extra data on success.
fn check_and_read_extra_data(b: &Vec<u8>, fixed: usize) -> (r: Result<Vec<u8>, DecodeError>)
    requires
        EXTRA_DATA_OFFSET_POS + 4 <= fixed,
    ensures
        header_bytes_ok(b@, fixed as int) ==> (r matches Ok(extra) && extra@ == b@.subrange(
            fixed as int,
            b@.len() as int,
        )),
        !header_bytes_ok(b@, fixed as int) ==> r == Err::<Vec<u8>, DecodeError>(
            header_bytes_err(b@, fixed as int),
        ),
{
    let len = b.len();
    if len < fixed {
        return Err(DecodeError::InvalidByteLength { len, expected: fixed });
    }
    proof {
        lemma_le_val_bound(
            b@.subrange(EXTRA_DATA_OFFSET_POS as int, EXTRA_DATA_OFFSET_POS as int + 4),
        );
        lemma_pow256_le(4, 8);
        lemma_pow256_values();
    }
    let offset = read_le(b, EXTRA_DATA_OFFSET_POS, 4);
    if offset < fixed as u64 {
        return Err(DecodeError::OffsetIntoFixedPortion(offset as usize));
    }
    if offset > fixed as u64 {
        return Err(DecodeError::OffsetSkipsVariableBytes(offset as usize));
    }
    if len - fixed > MAX_EXTRA_DATA_BYTES {
        return Err(DecodeError::ExtraDataTooLong { len: len - fixed, max: MAX_EXTRA_DATA_BYTES });
    }
    Ok(read_bytes(b, fixed, len - fixed))
}

impl ExecutionPayloadHeader {
    /// Decodes a header from its wire form at the given fork. The two forks
    /// before execution payloads reject every byte string; at any later fork
    /// the bytes decode exactly when they are well sized with the offset at
    /// the end of the fork's fixed part, and every field is then the value
    /// written at its position.
    pub fn from_ssz_bytes(bytes: &Vec<u8>, fork_name: ForkName) -> (r: Result<
        ExecutionPayloadHeader,
        DecodeError,
    >)
        ensures
            fork_name == ForkName::Base || fork_name == ForkName::Altair ==> r == Err::<
                ExecutionPayloadHeader,
                DecodeError,
            >(DecodeError::UnsupportedFork),
            fork_name == ForkName::Merge ==> {
                &&& header_bytes_ok(bytes@, MERGE_FIXED_LEN as int) ==> (r matches Ok(
                    ExecutionPayloadHeader::Merge(m),
                ) && merge_fields_decoded(bytes@, m) && m.wf())
                &&& !header_bytes_ok(bytes@, MERGE_FIXED_LEN as int) ==> r == Err::<
                    ExecutionPayloadHeader,
                    DecodeError,
                >(header_bytes_err(bytes@, MERGE_FIXED_LEN as int))
            },
            fork_name == ForkName::Capella ==> {
                &&& header_bytes_ok(bytes@, CAPELLA_FIXED_LEN as int) ==> (r matches Ok(
                    ExecutionPayloadHeader::Capella(h),
                ) && capella_fields_decoded(bytes@, h) && h.wf())
                &&& !header_bytes_ok(bytes@, CAPELLA_FIXED_LEN as int) ==> r == Err::<
                    ExecutionPayloadHeader,
                    DecodeError,
                >(header_bytes_err(bytes@, CAPELLA_FIXED_LEN as int))
            },
            fork_name == ForkName::Deneb ==> {
                &&& header_bytes_ok(bytes@, DENEB_FIXED_LEN as int) ==> (r matches Ok(
                    ExecutionPayloadHeader::Deneb(h),
                ) && deneb_fields_decoded(bytes@, h) && h.wf())
                &&& !header_bytes_ok(bytes@, DENEB_FIXED_LEN as int) ==> r == Err::<
                    ExecutionPayloadHeader,
                    DecodeError,
                >(header_bytes_err(bytes@, DENEB_FIXED_LEN as int))
            },
    {
        match fork_name {
            ForkName::Base | ForkName::Altair => Err(DecodeError::UnsupportedFork),
            ForkName::Merge => {
                match decode_merge(bytes) {
                    Ok(h) => Ok(ExecutionPayloadHeader::Merge(h)),
                    Err(e) => Err(e),
                }
            },
            ForkName::Capella => {
                match decode_capella(bytes) {
                    Ok(h) => Ok(ExecutionPayloadHeader::Capella(h)),
                    Err(e) => Err(e),
                }
            },
            ForkName::Deneb => {
                match decode_deneb(bytes) {
                    Ok(h) => Ok(ExecutionPayloadHeader::Deneb(h)),
                    Err(e) => Err(e),
                }
            },
        }
    }
}

fn decode_merge(bytes: &Vec<u8>) -> (r: Result<ExecutionPayloadHeaderMerge, DecodeError>)
    ensures
        header_bytes_ok(bytes@, MERGE_FIXED_LEN as int) ==> (r matches Ok(m)
            && merge_fields_decoded(bytes@, m) && m.wf()),
        !header_bytes_ok(bytes@, MERGE_FIXED_LEN as int) ==> r == Err::<
            ExecutionPayloadHeaderMerge,
            DecodeError,
        >(header_bytes_err(bytes@, MERGE_FIXED_LEN as int)),
{
    let extra_data = match check_and_read_extra_data(bytes, MERGE_FIXED_LEN) {
        Ok(extra) => extra,
        Err(e) => {
            return Err(e);
        },
    };
    proof {
        lemma_le_val_fits_u64(bytes@.subrange(404, 412));
        lemma_le_val_fits_u64(bytes@.subrange(412, 420));
        lemma_le_val_fits_u64(bytes@.subrange(420, 428));
        lemma_le_val_fits_u64(bytes@.subrange(428, 436));
    }
    Ok(ExecutionPayloadHeaderMerge {
        parent_hash: ExecutionBlockHash(read_hash256(bytes, 0)),
        fee_recipient: read_address(bytes, 32),
        state_root: read_hash256(bytes, 52),
        receipts_root: read_hash256(bytes, 84),
        logs_bloom: read_bytes(bytes, 116, 256),
        prev_randao: read_hash256(bytes, 372),
        block_number: read_le(bytes, 404, 8),
        gas_limit: read_le(bytes, 412, 8),
        gas_used: read_le(bytes, 420, 8),
        timestamp: read_le(bytes, 428, 8),
        extra_data,
        base_fee_per_gas: read_uint256(bytes, 440),
        block_hash: ExecutionBlockHash(read_hash256(bytes, 472)),
        transactions_root: read_hash256(bytes, 504),
    })
}

fn decode_capella(bytes: &Vec<u8>) -> (r: Result<ExecutionPayloadHeaderCapella, DecodeError>)
    ensures
        header_bytes_ok(bytes@, CAPELLA_FIXED_LEN as int) ==> (r matches Ok(h)
            && capella_fields_decoded(bytes@, h) && h.wf()),
        !header_bytes_ok(bytes@, CAPELLA_FIXED_LEN as int) ==> r == Err::<
            ExecutionPayloadHeaderCapella,
            DecodeError,
        >(header_bytes_err(bytes@, CAPELLA_FIXED_LEN as int)),
{
    let extra_data = match check_and_read_extra_data(bytes, CAPELLA_FIXED_LEN) {
        Ok(extra) => extra,
        Err(e) => {
            return Err(e);
        },
    };
    proof {
        lemma_le_val_fits_u64(bytes@.subrange(404, 412));
        lemma_le_val_fits_u64(bytes@.subrange(412, 420));
        lemma_le_val_fits_u64(bytes@.subrange(420, 428));
        lemma_le_val_fits_u64(bytes@.subrange(428, 436));
    }
    Ok(ExecutionPayloadHeaderCapella {
        parent_hash: ExecutionBlockHash(read_hash256(bytes, 0)),
        fee_recipient: read_address(bytes, 32),
        state_root: read_hash256(bytes, 52),
        receipts_root: read_hash256(bytes, 84),
        logs_bloom: read_bytes(bytes, 116, 256),
        prev_randao: read_hash256(bytes, 372),
        block_number: read_le(bytes, 404, 8),
        gas_limit: read_le(bytes, 412, 8),
        gas_used: read_le(bytes, 420, 8),
        timestamp: read_le(bytes, 428, 8),
        extra_data,
        base_fee_per_gas: read_uint256(bytes, 440),
        block_hash: ExecutionBlockHash(read_hash256(bytes, 472)),
        transactions_root: read_hash256(bytes, 504),
        withdrawals_root: read_hash256(bytes, 536),
    })
}

fn decode_deneb(bytes: &Vec<u8>) -> (r: Result<ExecutionPayloadHeaderDeneb, DecodeError>)
    ensures
        header_bytes_ok(bytes@, DENEB_FIXED_LEN as int) ==> (r matches Ok(h)
            && deneb_fields_decoded(bytes@, h) && h.wf()),
        !header_bytes_ok(bytes@, DENEB_FIXED_LEN as int) ==> r == Err::<
            ExecutionPayloadHeaderDeneb,
            DecodeError,
        >(header_bytes_err(bytes@, DENEB_FIXED_LEN as int)),
{
    let extra_data = match check_and_read_extra_data(bytes, DENEB_FIXED_LEN) {
        Ok(extra) => extra,
        Err(e) => {
            return Err(e);
        },
    };
    proof {
        lemma_le_val_fits_u64(bytes@.subrange(404, 412));
        lemma_le_val_fits_u64(bytes@.subrange(412, 420));
        lemma_le_val_fits_u64(bytes@.subrange(420, 428));
        lemma_le_val_fits_u64(bytes@.subrange(428, 436));
        lemma_le_val_fits_u64(bytes@.subrange(568, 576));
        lemma_le_val_fits_u64(bytes@.subrange(576, 584));
    }
    Ok(ExecutionPayloadHeaderDeneb {
        parent_hash: ExecutionBlockHash(read_hash256(bytes, 0)),
        fee_recipient: read_address(bytes, 32),
        state_root: read_hash256(bytes, 52),
        receipts_root: read_hash256(bytes, 84),
        logs_bloom: read_bytes(bytes, 116, 256),
        prev_randao: read_hash256(bytes, 372),
        block_number: read_le(bytes, 404, 8),
        gas_limit: read_le(bytes, 412, 8),
        gas_used: read_le(bytes, 420, 8),
        timestamp: read_le(bytes, 428, 8),
        extra_data,
        base_fee_per_gas: read_uint256(bytes, 440),
        block_hash: ExecutionBlockHash(read_hash256(bytes, 472)),
        transactions_root: read_hash256(bytes, 504),
        withdrawals_root: read_hash256(bytes, 536),
        blob_gas_used: read_le(bytes, 568, 8),
        excess_blob_gas: read_le(bytes, 576, 8),
    })
}

} // verus!
