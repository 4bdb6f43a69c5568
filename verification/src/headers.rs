//! Execution-payload headers across the forks that carry one, and the
//! field-preserving upgrades between them.

use vstd::prelude::*;

use crate::ids::Hash256;

verus! {

/// Size of the logs-bloom filter in bytes.
pub const BYTES_PER_LOGS_BLOOM: usize = 256;

/// Longest extra-data field a payload may carry, in bytes.
pub const MAX_EXTRA_DATA_BYTES: usize = 32;

/// A 160-bit execution-layer address, as two 64-bit limbs and one 32-bit limb.
#[derive(Clone, Copy, Debug, PartialEq, Eq, Structural, Hash)]
pub struct Address(pub u64, pub u64, pub u32);

/// The hash identifying an execution-layer block.
#[derive(Clone, Copy, Debug, PartialEq, Eq, Structural, Hash)]
pub struct ExecutionBlockHash(pub Hash256);

/// A 256-bit unsigned quantity, least significant limb first.
#[derive(Clone, Copy, Debug, PartialEq, Eq, Structural, Hash)]
pub struct Uint256(pub u64, pub u64, pub u64, pub u64);

/// The execution-layer transactions of a payload, each an opaque byte list.
/// A header carries only their root, never the list itself.
#[derive(Clone, Debug, PartialEq, Eq)]
pub struct Transactions(pub Vec<Vec<u8>>);

/// Every byte is zero.
pub open spec fn all_zero(s: Seq<u8>) -> bool {
    forall|i: int| 0 <= i < s.len() ==> s[i] == 0
}

/// The payload header of the first fork with an execution payload.
#[derive(Clone, Debug, PartialEq, Eq)]
pub struct ExecutionPayloadHeaderMerge {
    pub parent_hash: ExecutionBlockHash,
    pub fee_recipient: Address,
    pub state_root: Hash256,
    pub receipts_root: Hash256,
    pub logs_bloom: Vec<u8>,
    pub prev_randao: Hash256,
    pub block_number: u64,
    pub gas_limit: u64,
    pub gas_used: u64,
    pub timestamp: u64,
    pub extra_data: Vec<u8>,
    pub base_fee_per_gas: Uint256,
    pub block_hash: ExecutionBlockHash,
    pub transactions_root: Hash256,
}

/// The payload header of the fork that adds withdrawals.
#[derive(Clone, Debug, PartialEq, Eq)]
pub struct ExecutionPayloadHeaderCapella {
    pub parent_hash: ExecutionBlockHash,
    pub fee_recipient: Address,
    pub state_root: Hash256,
    pub receipts_root: Hash256,
    pub logs_bloom: Vec<u8>,
    pub prev_randao: Hash256,
    pub block_number: u64,
    pub gas_limit: u64,
    pub gas_used: u64,
    pub timestamp: u64,
    pub extra_data: Vec<u8>,
    pub base_fee_per_gas: Uint256,
    pub block_hash: ExecutionBlockHash,
    pub transactions_root: Hash256,
    pub withdrawals_root: Hash256,
}

/// The payload header of the fork that adds blob gas accounting.
#[derive(Clone, Debug, PartialEq, Eq)]
pub struct ExecutionPayloadHeaderDeneb {
    pub parent_hash: ExecutionBlockHash,
    pub fee_recipient: Address,
    pub state_root: Hash256,
    pub receipts_root: Hash256,
    pub logs_bloom: Vec<u8>,
    pub prev_randao: Hash256,
    pub block_number: u64,
    pub gas_limit: u64,
    pub gas_used: u64,
    pub timestamp: u64,
    pub extra_data: Vec<u8>,
    pub base_fee_per_gas: Uint256,
    pub block_hash: ExecutionBlockHash,
    pub transactions_root: Hash256,
    pub withdrawals_root: Hash256,
    pub blob_gas_used: u64,
    pub excess_blob_gas: u64,
}

/// A payload header at whatever fork produced it.
#[derive(Clone, Debug, PartialEq, Eq)]
pub enum ExecutionPayloadHeader {
    Merge(ExecutionPayloadHeaderMerge),
    Capella(ExecutionPayloadHeaderCapella),
    Deneb(ExecutionPayloadHeaderDeneb),
}

/// A borrowed payload header at whatever fork produced it.
#[derive(Clone, Copy, Debug)]
pub enum ExecutionPayloadHeaderRef<'a> {
    Merge(&'a ExecutionPayloadHeaderMerge),
    Capella(&'a ExecutionPayloadHeaderCapella),
    Deneb(&'a ExecutionPayloadHeaderDeneb),
}

impl ExecutionPayloadHeaderMerge {
    /// The bloom filter is full-width and the extra data within bounds.
    pub open spec fn wf(&self) -> bool {
        &&& self.logs_bloom@.len() == BYTES_PER_LOGS_BLOOM
        &&& self.extra_data@.len() <= MAX_EXTRA_DATA_BYTES
    }

    /// Every field holds its zero value.
    pub open spec fn spec_is_default(&self) -> bool {
        &&& self.parent_hash == ExecutionBlockHash(Hash256(0u64, 0u64, 0u64, 0u64))
        &&& self.fee_recipient == Address(0u64, 0u64, 0u32)
        &&& self.state_root == Hash256(0u64, 0u64, 0u64, 0u64)
        &&& self.receipts_root == Hash256(0u64, 0u64, 0u64, 0u64)
        &&& self.logs_bloom@.len() == BYTES_PER_LOGS_BLOOM
        &&& all_zero(self.logs_bloom@)
        &&& self.prev_randao == Hash256(0u64, 0u64, 0u64, 0u64)
        &&& self.block_number == 0
        &&& self.gas_limit == 0
        &&& self.gas_used == 0
        &&& self.timestamp == 0
        &&& self.extra_data@.len() == 0
        &&& self.base_fee_per_gas == Uint256(0u64, 0u64, 0u64, 0u64)
        &&& self.block_hash == ExecutionBlockHash(Hash256(0u64, 0u64, 0u64, 0u64))
        &&& self.transactions_root == Hash256(0u64, 0u64, 0u64, 0u64)
    }

    /// Carries every field over unchanged; the withdrawals root, new in the
    /// target fork, starts at zero.
    pub fn upgrade_to_capella(&self) -> (r: ExecutionPayloadHeaderCapella)
        ensures
            r.parent_hash == self.parent_hash,
            r.fee_recipient == self.fee_recipient,
            r.state_root == self.state_root,
            r.receipts_root == self.receipts_root,
            r.logs_bloom@ == self.logs_bloom@,
            r.prev_randao == self.prev_randao,
            r.block_number == self.block_number,
            r.gas_limit == self.gas_limit,
            r.gas_used == self.gas_used,
            r.timestamp == self.timestamp,
            r.extra_data@ == self.extra_data@,
            r.base_fee_per_gas == self.base_fee_per_gas,
            r.block_hash == self.block_hash,
            r.transactions_root == self.transactions_root,
            r.withdrawals_root == Hash256(0u64, 0u64, 0u64, 0u64),
    {
        ExecutionPayloadHeaderCapella {
            parent_hash: self.parent_hash,
            fee_recipient: self.fee_recipient,
            state_root: self.state_root,
            receipts_root: self.receipts_root,
            logs_bloom: copy_bytes(&self.logs_bloom),
            prev_randao: self.prev_randao,
            block_number: self.block_number,
            gas_limit: self.gas_limit,
            gas_used: self.gas_used,
            timestamp: self.timestamp,
            extra_data: copy_bytes(&self.extra_data),
            base_fee_per_gas: self.base_fee_per_gas,
            block_hash: self.block_hash,
            transactions_root: self.transactions_root,
            withdrawals_root: Hash256::zero(),
        }
    }
}

impl Default for ExecutionPayloadHeaderMerge {
    /// The all-zero header of this fork.
    fn default() -> (r: Self)
        ensures
            r.spec_is_default(),
            r.wf(),
    {
        ExecutionPayloadHeaderMerge {
            parent_hash: ExecutionBlockHash(Hash256::zero()),
            fee_recipient: Address(0, 0, 0),
            state_root: Hash256::zero(),
            receipts_root: Hash256::zero(),
            logs_bloom: zero_bytes(BYTES_PER_LOGS_BLOOM),
            prev_randao: Hash256::zero(),
            block_number: 0,
            gas_limit: 0,
            gas_used: 0,
            timestamp: 0,
            extra_data: Vec::new(),
            base_fee_per_gas: Uint256(0, 0, 0, 0),
            block_hash: ExecutionBlockHash(Hash256::zero()),
            transactions_root: Hash256::zero(),
        }
    }
}

impl ExecutionPayloadHeaderCapella {
    /// The bloom filter is full-width and the extra data within bounds.
    pub open spec fn wf(&self) -> bool {
        &&& self.logs_bloom@.len() == BYTES_PER_LOGS_BLOOM
        &&& self.extra_data@.len() <= MAX_EXTRA_DATA_BYTES
    }

    /// Every field holds its zero value.
    pub open spec fn spec_is_default(&self) -> bool {
        &&& self.parent_hash == ExecutionBlockHash(Hash256(0u64, 0u64, 0u64, 0u64))
        &&& self.fee_recipient == Address(0u64, 0u64, 0u32)
        &&& self.state_root == Hash256(0u64, 0u64, 0u64, 0u64)
        &&& self.receipts_root == Hash256(0u64, 0u64, 0u64, 0u64)
        &&& self.logs_bloom@.len() == BYTES_PER_LOGS_BLOOM
        &&& all_zero(self.logs_bloom@)
        &&& self.prev_randao == Hash256(0u64, 0u64, 0u64, 0u64)
        &&& self.block_number == 0
        &&& self.gas_limit == 0
        &&& self.gas_used == 0
        &&& self.timestamp == 0
        &&& self.extra_data@.len() == 0
        &&& self.base_fee_per_gas == Uint256(0u64, 0u64, 0u64, 0u64)
        &&& self.block_hash == ExecutionBlockHash(Hash256(0u64, 0u64, 0u64, 0u64))
        &&& self.transactions_root == Hash256(0u64, 0u64, 0u64, 0u64)
        &&& self.withdrawals_root == Hash256(0u64, 0u64, 0u64, 0u64)
    }

    /// Carries every field over unchanged; the blob-gas fields, new in the
    /// target fork, start at zero.
    pub fn upgrade_to_deneb(&self) -> (r: ExecutionPayloadHeaderDeneb)
        ensures
            r.parent_hash == self.parent_hash,
            r.fee_recipient == self.fee_recipient,
            r.state_root == self.state_root,
            r.receipts_root == self.receipts_root,
            r.logs_bloom@ == self.logs_bloom@,
            r.prev_randao == self.prev_randao,
            r.block_number == self.block_number,
            r.gas_limit == self.gas_limit,
            r.gas_used == self.gas_used,
            r.timestamp == self.timestamp,
            r.extra_data@ == self.extra_data@,
            r.base_fee_per_gas == self.base_fee_per_gas,
            r.block_hash == self.block_hash,
            r.transactions_root == self.transactions_root,
            r.withdrawals_root == self.withdrawals_root,
            r.blob_gas_used == 0,
            r.excess_blob_gas == 0,
    {
        ExecutionPayloadHeaderDeneb {
            parent_hash: self.parent_hash,
            fee_recipient: self.fee_recipient,
            state_root: self.state_root,
            receipts_root: self.receipts_root,
            logs_bloom: copy_bytes(&self.logs_bloom),
            prev_randao: self.prev_randao,
            block_number: self.block_number,
            gas_limit: self.gas_limit,
            gas_used: self.gas_used,
            timestamp: self.timestamp,
            extra_data: copy_bytes(&self.extra_data),
            base_fee_per_gas: self.base_fee_per_gas,
            block_hash: self.block_hash,
            transactions_root: self.transactions_root,
            withdrawals_root: self.withdrawals_root,
            blob_gas_used: 0,
            excess_blob_gas: 0,
        }
    }
}

impl Default for ExecutionPayloadHeaderCapella {
    /// The all-zero header of this fork.
    fn default() -> (r: Self)
        ensures
            r.spec_is_default(),
            r.wf(),
    {
        let base = ExecutionPayloadHeaderMerge::default();
        base.upgrade_to_capella()
    }
}

impl ExecutionPayloadHeaderDeneb {
    /// The bloom filter is full-width and the extra data within bounds.
    pub open spec fn wf(&self) -> bool {
        &&& self.logs_bloom@.len() == BYTES_PER_LOGS_BLOOM
        &&& self.extra_data@.len() <= MAX_EXTRA_DATA_BYTES
    }

    /// Every field holds its zero value.
    pub open spec fn spec_is_default(&self) -> bool {
        &&& self.parent_hash == ExecutionBlockHash(Hash256(0u64, 0u64, 0u64, 0u64))
        &&& self.fee_recipient == Address(0u64, 0u64, 0u32)
        &&& self.state_root == Hash256(0u64, 0u64, 0u64, 0u64)
        &&& self.receipts_root == Hash256(0u64, 0u64, 0u64, 0u64)
        &&& self.logs_bloom@.len() == BYTES_PER_LOGS_BLOOM
        &&& all_zero(self.logs_bloom@)
        &&& self.prev_randao == Hash256(0u64, 0u64, 0u64, 0u64)
        &&& self.block_number == 0
        &&& self.gas_limit == 0
        &&& self.gas_used == 0
        &&& self.timestamp == 0
        &&& self.extra_data@.len() == 0
        &&& self.base_fee_per_gas == Uint256(0u64, 0u64, 0u64, 0u64)
        &&& self.block_hash == ExecutionBlockHash(Hash256(0u64, 0u64, 0u64, 0u64))
        &&& self.transactions_root == Hash256(0u64, 0u64, 0u64, 0u64)
        &&& self.withdrawals_root == Hash256(0u64, 0u64, 0u64, 0u64)
        &&& self.blob_gas_used == 0
        &&& self.excess_blob_gas == 0
    }
}

impl Default for ExecutionPayloadHeaderDeneb {
    /// The all-zero header of this fork.
    fn default() -> (r: Self)
        ensures
            r.spec_is_default(),
            r.wf(),
    {
        let base = ExecutionPayloadHeaderMerge::default();
        let capella = base.upgrade_to_capella();
        capella.upgrade_to_deneb()
    }
}

impl ExecutionPayloadHeader {
    /// A header never carries the transaction list itself, only its root.
    pub fn transactions(&self) -> (r: Option<&Transactions>)
        ensures
            r is None,
    {
        None
    }

    /// Borrows the header at its fork.
    pub fn to_ref<'a>(&'a self) -> (r: ExecutionPayloadHeaderRef<'a>)
        ensures
            match r {
                ExecutionPayloadHeaderRef::Merge(h) => self matches ExecutionPayloadHeader::Merge(
                    inner,
                ) && h == inner,
                ExecutionPayloadHeaderRef::Capella(h) => self
                    matches ExecutionPayloadHeader::Capella(inner) && h == inner,
                ExecutionPayloadHeaderRef::Deneb(h) => self matches ExecutionPayloadHeader::Deneb(
                    inner,
                ) && h == inner,
            },
    {
        match self {
            ExecutionPayloadHeader::Merge(h) => ExecutionPayloadHeaderRef::Merge(h),
            ExecutionPayloadHeader::Capella(h) => ExecutionPayloadHeaderRef::Capella(h),
            ExecutionPayloadHeader::Deneb(h) => ExecutionPayloadHeaderRef::Deneb(h),
        }
    }
}

impl<'a> ExecutionPayloadHeaderRef<'a> {
    /// Whether the borrowed header is its fork's all-zero value.
    pub open spec fn spec_is_default(&self) -> bool {
        match self {
            ExecutionPayloadHeaderRef::Merge(h) => h.spec_is_default(),
            ExecutionPayloadHeaderRef::Capella(h) => h.spec_is_default(),
            ExecutionPayloadHeaderRef::Deneb(h) => h.spec_is_default(),
        }
    }

    /// Whether the header equals its fork's default value, whose roots are
    /// all zero.
    pub fn is_default_with_zero_roots(self) -> (r: bool)
        ensures
            r == self.spec_is_default(),
    {
        match self {
            ExecutionPayloadHeaderRef::Merge(h) => {
                h.parent_hash == ExecutionBlockHash(Hash256(0, 0, 0, 0))
                    && h.fee_recipient == Address(0, 0, 0)
                    && h.state_root == Hash256(0, 0, 0, 0)
                    && h.receipts_root == Hash256(0, 0, 0, 0)
                    && h.logs_bloom.len() == BYTES_PER_LOGS_BLOOM
                    && bytes_all_zero(&h.logs_bloom)
                    && h.prev_randao == Hash256(0, 0, 0, 0)
                    && h.block_number == 0
                    && h.gas_limit == 0
                    && h.gas_used == 0
                    && h.timestamp == 0
                    && h.extra_data.len() == 0
                    && h.base_fee_per_gas == Uint256(0, 0, 0, 0)
                    && h.block_hash == ExecutionBlockHash(Hash256(0, 0, 0, 0))
                    && h.transactions_root == Hash256(0, 0, 0, 0)
            },
            ExecutionPayloadHeaderRef::Capella(h) => {
                h.parent_hash == ExecutionBlockHash(Hash256(0, 0, 0, 0))
                    && h.fee_recipient == Address(0, 0, 0)
                    && h.state_root == Hash256(0, 0, 0, 0)
                    && h.receipts_root == Hash256(0, 0, 0, 0)
                    && h.logs_bloom.len() == BYTES_PER_LOGS_BLOOM
                    && bytes_all_zero(&h.logs_bloom)
                    && h.prev_randao == Hash256(0, 0, 0, 0)
                    && h.block_number == 0
                    && h.gas_limit == 0
                    && h.gas_used == 0
                    && h.timestamp == 0
                    && h.extra_data.len() == 0
                    && h.base_fee_per_gas == Uint256(0, 0, 0, 0)
                    && h.block_hash == ExecutionBlockHash(Hash256(0, 0, 0, 0))
                    && h.transactions_root == Hash256(0, 0, 0, 0)
                    && h.withdrawals_root == Hash256(0, 0, 0, 0)
            },
            ExecutionPayloadHeaderRef::Deneb(h) => {
                h.parent_hash == ExecutionBlockHash(Hash256(0, 0, 0, 0))
                    && h.fee_recipient == Address(0, 0, 0)
                    && h.state_root == Hash256(0, 0, 0, 0)
                    && h.receipts_root == Hash256(0, 0, 0, 0)
                    && h.logs_bloom.len() == BYTES_PER_LOGS_BLOOM
                    && bytes_all_zero(&h.logs_bloom)
                    && h.prev_randao == Hash256(0, 0, 0, 0)
                    && h.block_number == 0
                    && h.gas_limit == 0
                    && h.gas_used == 0
                    && h.timestamp == 0
                    && h.extra_data.len() == 0
                    && h.base_fee_per_gas == Uint256(0, 0, 0, 0)
                    && h.block_hash == ExecutionBlockHash(Hash256(0, 0, 0, 0))
                    && h.transactions_root == Hash256(0, 0, 0, 0)
                    && h.withdrawals_root == Hash256(0, 0, 0, 0)
                    && h.blob_gas_used == 0
                    && h.excess_blob_gas == 0
            },
        }
    }
}

/// Why a header cannot be read at the requested fork.
#[derive(Clone, Copy, Debug, PartialEq, Eq, Structural)]
pub enum BeaconStateError {
    /// The header belongs to a different fork than asked for.
    IncorrectStateVariant,
}

impl ExecutionPayloadHeaderMerge {
    /// The header's value at this fork; any other fork is the wrong variant.
    pub fn try_from(header: ExecutionPayloadHeader) -> (r: Result<Self, BeaconStateError>)
        ensures
            match header {
                ExecutionPayloadHeader::Merge(h) => r == Ok::<Self, BeaconStateError>(h),
                _ => r == Err::<Self, BeaconStateError>(BeaconStateError::IncorrectStateVariant),
            },
    {
        match header {
            ExecutionPayloadHeader::Merge(h) => Ok(h),
            _ => Err(BeaconStateError::IncorrectStateVariant),
        }
    }
}

impl ExecutionPayloadHeaderCapella {
    /// The header's value at this fork; any other fork is the wrong variant.
    pub fn try_from(header: ExecutionPayloadHeader) -> (r: Result<Self, BeaconStateError>)
        ensures
            match header {
                ExecutionPayloadHeader::Capella(h) => r == Ok::<Self, BeaconStateError>(h),
                _ => r == Err::<Self, BeaconStateError>(BeaconStateError::IncorrectStateVariant),
            },
    {
        match header {
            ExecutionPayloadHeader::Capella(h) => Ok(h),
            _ => Err(BeaconStateError::IncorrectStateVariant),
        }
    }
}

impl ExecutionPayloadHeaderDeneb {
    /// The header's value at this fork; any other fork is the wrong variant.
    pub fn try_from(header: ExecutionPayloadHeader) -> (r: Result<Self, BeaconStateError>)
        ensures
            match header {
                ExecutionPayloadHeader::Deneb(h) => r == Ok::<Self, BeaconStateError>(h),
                _ => r == Err::<Self, BeaconStateError>(BeaconStateError::IncorrectStateVariant),
            },
    {
        match header {
            ExecutionPayloadHeader::Deneb(h) => Ok(h),
            _ => Err(BeaconStateError::IncorrectStateVariant),
        }
    }
}

/// A fresh vector of `n` zero bytes.
fn zero_bytes(n: usize) -> (r: Vec<u8>)
    ensures
        r@.len() == n,
        all_zero(r@),
{
    let mut r: Vec<u8> = Vec::new();
    let mut i: usize = 0;
    while i < n
        invariant
            0 <= i <= n,
            r@.len() == i,
            all_zero(r@),
        decreases n - i,
    {
        r.push(0);
        i += 1;
    }
    r
}

/// A fresh vector with the same bytes.
fn copy_bytes(v: &Vec<u8>) -> (r: Vec<u8>)
    ensures
        r@ == v@,
{
    let mut r: Vec<u8> = Vec::new();
    let mut i: usize = 0;
    while i < v.len()
        invariant
            0 <= i <= v@.len(),
            r@ =~= v@.take(i as int),
        decreases v@.len() - i,
    {
        r.push(v[i]);
        i += 1;
    }
    assert(r@ =~= v@);
    r
}

/// Whether every byte is zero.
fn bytes_all_zero(v: &Vec<u8>) -> (r: bool)
    ensures
        r == all_zero(v@),
{
    let mut i: usize = 0;
    while i < v.len()
        invariant
            0 <= i <= v@.len(),
            forall|j: int| 0 <= j < i ==> v@[j] == 0,
        decreases v@.len() - i,
    {
        if v[i] != 0 {
            return false;
        }
        i += 1;
    }
    true
}

} // verus!
