//! The execution witness: the state diff and proof a stateless payload
//! carries. This layer moves witnesses whole; each type models its wire shape
//! with plain byte vectors and bounded lists.

use vstd::prelude::*;

verus! {

/// Size of one banderwagon curve element in bytes.
pub const BYTES_PER_BANDERWAGON_ELEMENT: usize = 32;

/// Length of a verkle stem in bytes.
pub const MAX_STEM_LENGTH: usize = 31;

/// Size of one suffix state-diff value in bytes.
pub const BYTES_PER_SUFFIX_STATE_DIFF_VALUE: usize = 32;

/// Width of one verkle node: the most suffix diffs a stem can carry.
pub const MAX_VERKLE_WIDTH: usize = 256;

/// The most stems one witness can touch.
pub const MAX_STEMS: usize = 65536;

/// The most commitments one proof can carry.
pub const MAX_COMMITTMENTS: usize = 65536;

/// Depth of an inner-product-argument proof.
pub const IPA_PROOF_DEPTH: usize = 8;

/// One element of the banderwagon curve group.
#[derive(Clone, Debug, PartialEq, Eq)]
pub struct BanderwagonGroupElement {
    pub inner: Vec<u8>,
}

impl BanderwagonGroupElement {
    pub open spec fn wf(&self) -> bool {
        self.inner@.len() == BYTES_PER_BANDERWAGON_ELEMENT
    }
}

/// One element of the banderwagon scalar field.
#[derive(Clone, Debug, PartialEq, Eq)]
pub struct BanderwagonFieldElement {
    pub inner: Vec<u8>,
}

impl BanderwagonFieldElement {
    pub open spec fn wf(&self) -> bool {
        self.inner@.len() == BYTES_PER_BANDERWAGON_ELEMENT
    }
}

/// A verkle stem: the path to a node, one byte short of a full key.
#[derive(Clone, Debug, PartialEq, Eq)]
pub struct Stem {
    pub inner: Vec<u8>,
}

impl Stem {
    pub open spec fn wf(&self) -> bool {
        self.inner@.len() == MAX_STEM_LENGTH
    }
}

/// The value under one key, before or after the block.
#[derive(Clone, Debug, PartialEq, Eq)]
pub struct StateDiffValue {
    pub inner: Vec<u8>,
}

impl StateDiffValue {
    pub open spec fn wf(&self) -> bool {
        self.inner@.len() == BYTES_PER_SUFFIX_STATE_DIFF_VALUE
    }
}

/// The change under one suffix of a stem: nothing for a value that is absent,
/// respectively not updated.
#[derive(Clone, Debug, PartialEq, Eq)]
pub struct SuffixStateDiff {
    pub suffix: u8,
    /// The value before the block; absent when the key had none.
    pub current_value: Option<StateDiffValue>,
    /// The value after the block; absent when the block leaves it unchanged.
    pub new_value: Option<StateDiffValue>,
}

impl SuffixStateDiff {
    pub open spec fn wf(&self) -> bool {
        &&& (self.current_value matches Some(v) ==> v.wf())
        &&& (self.new_value matches Some(v) ==> v.wf())
    }
}

/// Every suffix change under one stem.
#[derive(Clone, Debug, PartialEq, Eq)]
pub struct StemStateDiff {
    pub stem: Stem,
    pub suffix_diffs: Vec<SuffixStateDiff>,
}

impl StemStateDiff {
    pub open spec fn wf(&self) -> bool {
        &&& self.stem.wf()
        &&& self.suffix_diffs@.len() <= MAX_VERKLE_WIDTH
        &&& forall|i: int|
            0 <= i < self.suffix_diffs@.len() ==> (#[trigger] self.suffix_diffs@[i]).wf()
    }
}

/// The whole state diff of one block, stem by stem.
#[derive(Clone, Debug, PartialEq, Eq)]
pub struct StateDiff {
    pub inner: Vec<StemStateDiff>,
}

impl StateDiff {
    pub open spec fn wf(&self) -> bool {
        &&& self.inner@.len() <= MAX_STEMS
        &&& forall|i: int| 0 <= i < self.inner@.len() ==> (#[trigger] self.inner@[i]).wf()
    }
}

/// An inner-product-argument proof over the banderwagon group.
#[derive(Clone, Debug, PartialEq, Eq)]
pub struct IpaProof {
    pub cl: Vec<BanderwagonGroupElement>,
    pub cr: Vec<BanderwagonGroupElement>,
    pub final_evaluation: BanderwagonFieldElement,
}

impl IpaProof {
    pub open spec fn wf(&self) -> bool {
        &&& self.cl@.len() == IPA_PROOF_DEPTH
        &&& self.cr@.len() == IPA_PROOF_DEPTH
        &&& forall|i: int| 0 <= i < self.cl@.len() ==> (#[trigger] self.cl@[i]).wf()
        &&& forall|i: int| 0 <= i < self.cr@.len() ==> (#[trigger] self.cr@[i]).wf()
        &&& self.final_evaluation.wf()
    }
}

/// A stem that shares a prefix with a touched key but is not itself touched.
#[derive(Clone, Debug, PartialEq, Eq)]
pub struct StemValue {
    pub inner: Vec<u8>,
}

impl StemValue {
    pub open spec fn wf(&self) -> bool {
        self.inner@.len() == MAX_STEM_LENGTH
    }
}

/// The verkle multiproof for every value the state diff touches.
#[derive(Clone, Debug, PartialEq, Eq)]
pub struct VerkleProof {
    pub other_stems: Vec<StemValue>,
    pub depth_extension_present: Vec<u8>,
    pub commitments_by_path: Vec<BanderwagonGroupElement>,
    pub d: BanderwagonGroupElement,
    pub ipa_proof: IpaProof,
}

impl VerkleProof {
    pub open spec fn wf(&self) -> bool {
        &&& self.other_stems@.len() <= MAX_STEMS
        &&& forall|i: int| 0 <= i < self.other_stems@.len() ==> (#[trigger] self.other_stems@[i]).wf()
        &&& self.depth_extension_present@.len() <= MAX_STEMS
        &&& self.commitments_by_path@.len() <= MAX_COMMITTMENTS
        &&& forall|i: int|
            0 <= i < self.commitments_by_path@.len() ==> (
            #[trigger] self.commitments_by_path@[i]).wf()
        &&& self.d.wf()
        &&& self.ipa_proof.wf()
    }
}

/// Everything an execution layer needs to re-execute one block statelessly.
#[derive(Clone, Debug, PartialEq, Eq)]
pub struct ExecutionWitness {
    pub state_diff: StateDiff,
    pub verkle_proof: VerkleProof,
}

impl ExecutionWitness {
    pub open spec fn wf(&self) -> bool {
        &&& self.state_diff.wf()
        &&& self.verkle_proof.wf()
    }
}

} // verus!
