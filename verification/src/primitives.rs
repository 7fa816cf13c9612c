//! The parachain values that the scenario builds, as plain data.

use crate::bits::BitVector;
use crate::crypto::{H256, PublicKey, Signature};
use vstd::prelude::*;

verus! {

/// Identifies a parachain.
#[derive(Clone, Copy, Debug, PartialEq, Eq, Structural)]
pub struct ParaId(pub u32);

/// Identifies an availability core.
#[derive(Clone, Copy, Debug, PartialEq, Eq, Structural)]
pub struct CoreIndex(pub u32);

/// Identifies a validator group.
#[derive(Clone, Copy, Debug, PartialEq, Eq, Structural)]
pub struct GroupIndex(pub u32);

/// The position of a validator in the session's list.
#[derive(Clone, Copy, Debug, PartialEq, Eq, Structural)]
pub struct ValidatorIndex(pub u32);

/// The hash of a candidate receipt.
#[derive(Clone, Copy, Debug, PartialEq, Eq)]
pub struct CandidateHash(pub H256);

/// What occupies an availability core.
#[derive(Clone, Copy, Debug, PartialEq, Eq, Structural)]
pub enum CoreOccupied {
    Parachain,
}

/// What a core is assigned to.
#[derive(Clone, Copy, Debug, PartialEq, Eq, Structural)]
pub enum AssignmentKind {
    Parachain,
}

/// A core that is scheduled for a parachain, and the group that backs it.
#[derive(Clone, Copy, Debug, PartialEq, Eq, Structural)]
pub struct CoreAssignment {
    pub core: CoreIndex,
    pub para_id: ParaId,
    pub kind: AssignmentKind,
    pub group_idx: GroupIndex,
}

/// `len` zero bytes.
pub open spec fn zeroes(len: nat) -> Seq<u8> {
    Seq::new(len, |i: int| 0u8)
}

/// The all zero hash.
pub fn zero_hash() -> (res: H256)
    ensures
        res@ == zeroes(32),
        forall|i: int| 0 <= i < 32 ==> #[trigger] res@[i] == 0,
{
    let hash: H256 = [0u8; 32];
    assert(hash@ =~= zeroes(32));
    hash
}

/// The head of a parachain.
#[derive(Debug, PartialEq, Eq)]
pub struct HeadData(pub Vec<u8>);

impl View for HeadData {
    type V = Seq<u8>;

    open spec fn view(&self) -> Seq<u8> {
        self.0@
    }
}

impl Default for HeadData {
    fn default() -> (res: Self)
        ensures
            res@ == Seq::<u8>::empty(),
    {
        HeadData(Vec::new())
    }
}

/// A message from one parachain to another.
#[derive(Debug, PartialEq, Eq)]
pub struct OutboundHrmpMessage {
    pub recipient: ParaId,
    pub data: Vec<u8>,
}

/// What a candidate commits to.
#[derive(Debug, PartialEq, Eq)]
pub struct CandidateCommitments {
    pub upward_messages: Vec<Vec<u8>>,
    pub horizontal_messages: Vec<OutboundHrmpMessage>,
    pub new_validation_code: Option<Vec<u8>>,
    pub head_data: HeadData,
    pub processed_downward_messages: u32,
    pub hrmp_watermark: u32,
}

impl CandidateCommitments {
    /// No messages, no new code and an empty head, at the given watermark.
    pub open spec fn is_empty_at(self, hrmp_watermark: u32) -> bool {
        &&& self.upward_messages@ == Seq::<Vec<u8>>::empty()
        &&& self.horizontal_messages@ == Seq::<OutboundHrmpMessage>::empty()
        &&& self.new_validation_code is None
        &&& self.head_data@ == Seq::<u8>::empty()
        &&& self.processed_downward_messages == 0
        &&& self.hrmp_watermark == hrmp_watermark
    }
}

impl Default for CandidateCommitments {
    fn default() -> (res: Self)
        ensures
            res.is_empty_at(0),
            res.upward_messages@.len() == 0,
            res.horizontal_messages@.len() == 0,
            res.new_validation_code is None,
            res.head_data@.len() == 0,
            res.processed_downward_messages == 0,
            res.hrmp_watermark == 0,
    {
        CandidateCommitments {
            upward_messages: Vec::new(),
            horizontal_messages: Vec::new(),
            new_validation_code: None,
            head_data: HeadData::default(),
            processed_downward_messages: 0,
            hrmp_watermark: 0,
        }
    }
}

/// Commitments that are empty at a watermark send no message, process none, bring no new code and
/// leave the head empty, whatever the watermark is: two of them differ in the watermark alone.
pub proof fn law_empty_commitments_differ_in_the_watermark_alone(
    a: CandidateCommitments,
    b: CandidateCommitments,
    watermark_a: u32,
    watermark_b: u32,
)
    requires
        a.is_empty_at(watermark_a),
        b.is_empty_at(watermark_b),
    ensures
        a.upward_messages@.len() == 0,
        a.horizontal_messages@.len() == 0,
        a.new_validation_code is None,
        a.head_data@.len() == 0,
        a.processed_downward_messages == 0,
        a.hrmp_watermark == watermark_a,
        a.upward_messages@ == b.upward_messages@,
        a.horizontal_messages@ == b.horizontal_messages@,
        a.new_validation_code == b.new_validation_code,
        a.head_data@ == b.head_data@,
        a.processed_downward_messages == b.processed_downward_messages,
{
}

/// The part of a candidate receipt that says what the candidate is.
#[derive(Clone, Copy, Debug, PartialEq, Eq)]
pub struct CandidateDescriptor {
    pub para_id: ParaId,
    pub relay_parent: H256,
    pub collator: PublicKey,
    pub persisted_validation_data_hash: H256,
    pub pov_hash: H256,
    pub erasure_root: H256,
    pub signature: Signature,
    pub para_head: H256,
    pub validation_code_hash: H256,
}

impl CandidateDescriptor {
    /// Zero in every field.
    pub open spec fn is_default(self) -> bool {
        &&& self.para_id == ParaId(0)
        &&& self.relay_parent@ == zeroes(32)
        &&& self.collator@ == zeroes(32)
        &&& self.persisted_validation_data_hash@ == zeroes(32)
        &&& self.pov_hash@ == zeroes(32)
        &&& self.erasure_root@ == zeroes(32)
        &&& self.signature@ == zeroes(64)
        &&& self.para_head@ == zeroes(32)
        &&& self.validation_code_hash@ == zeroes(32)
    }
}

impl Default for CandidateDescriptor {
    fn default() -> (res: Self)
        ensures
            res.is_default(),
            res.para_id.0 == 0,
            forall|i: int|
                0 <= i < 32 ==> {
                    &&& #[trigger] res.relay_parent@[i] == 0
                    &&& res.collator@[i] == 0
                    &&& res.persisted_validation_data_hash@[i] == 0
                    &&& res.pov_hash@[i] == 0
                    &&& res.erasure_root@[i] == 0
                    &&& res.para_head@[i] == 0
                    &&& res.validation_code_hash@[i] == 0
                },
            forall|i: int| 0 <= i < 64 ==> #[trigger] res.signature@[i] == 0,
    {
        let signature: Signature = [0u8; 64];
        assert(signature@ =~= zeroes(64));
        CandidateDescriptor {
            para_id: ParaId(0),
            relay_parent: zero_hash(),
            collator: zero_hash(),
            persisted_validation_data_hash: zero_hash(),
            pov_hash: zero_hash(),
            erasure_root: zero_hash(),
            signature,
            para_head: zero_hash(),
            validation_code_hash: zero_hash(),
        }
    }
}

/// A default descriptor names parachain zero and holds nothing but zero bytes.
pub proof fn law_default_descriptor_is_zero(descriptor: CandidateDescriptor)
    requires
        descriptor.is_default(),
    ensures
        descriptor.para_id.0 == 0,
        forall|i: int|
            0 <= i < 32 ==> {
                &&& #[trigger] descriptor.relay_parent@[i] == 0
                &&& descriptor.collator@[i] == 0
                &&& descriptor.persisted_validation_data_hash@[i] == 0
                &&& descriptor.pov_hash@[i] == 0
                &&& descriptor.erasure_root@[i] == 0
                &&& descriptor.para_head@[i] == 0
                &&& descriptor.validation_code_hash@[i] == 0
            },
        forall|i: int| 0 <= i < 64 ==> #[trigger] descriptor.signature@[i] == 0,
{
}

/// A candidate receipt with the commitments spelled out.
#[derive(Debug, PartialEq, Eq)]
pub struct CommittedCandidateReceipt {
    pub descriptor: CandidateDescriptor,
    pub commitments: CandidateCommitments,
}

/// The data that a candidate was validated against.
#[derive(Debug, PartialEq, Eq)]
pub struct PersistedValidationData {
    pub parent_head: HeadData,
    pub relay_parent_number: u32,
    pub relay_parent_storage_root: H256,
    pub max_pov_size: u32,
}

/// A candidate that waits for its data to become available.
pub struct CandidatePendingAvailability {
    pub core: CoreIndex,
    pub hash: CandidateHash,
    pub descriptor: CandidateDescriptor,
    pub availability_votes: BitVector,
    pub backers: BitVector,
    pub relay_parent_number: u32,
    pub backed_in_number: u32,
    pub backing_group: GroupIndex,
}

/// One bit per core: whether a validator holds its piece of the candidate on that core.
pub struct AvailabilityBitfield(pub BitVector);

impl View for AvailabilityBitfield {
    type V = Seq<bool>;

    open spec fn view(&self) -> Seq<bool> {
        self.0@
    }
}

/// The relay parent and the session that a signature is bound to.
#[derive(Clone, Copy, Debug, PartialEq, Eq)]
pub struct SigningContext {
    pub parent_hash: H256,
    pub session_index: u32,
}

/// A statement of a validator about a candidate.
#[derive(Clone, Copy, Debug, PartialEq, Eq)]
pub enum CompactStatement {
    Valid(CandidateHash),
}

/// A vote for a candidate, as it goes on chain.
#[derive(Clone, Copy, Debug, PartialEq, Eq)]
pub enum ValidityAttestation {
    Explicit(Signature),
}

/// A candidate with the votes of the group that backs it.
pub struct BackedCandidate {
    pub candidate: CommittedCandidateReceipt,
    pub validity_votes: Vec<ValidityAttestation>,
    pub validator_indices: BitVector,
}

/// A payload with a signature that nobody has checked yet.
pub struct UncheckedSigned<Payload> {
    pub payload: Payload,
    pub validator_index: ValidatorIndex,
    pub signature: Signature,
}

/// How a validator came to dispute a candidate as invalid.
#[derive(Clone, Copy, Debug, PartialEq, Eq, Structural)]
pub enum InvalidDisputeStatementKind {
    Explicit,
}

/// A vote in a dispute.
#[derive(Clone, Copy, Debug, PartialEq, Eq, Structural)]
pub enum DisputeStatement {
    Invalid(InvalidDisputeStatementKind),
}

/// The votes on one disputed candidate.
#[derive(Debug, PartialEq, Eq)]
pub struct DisputeStatementSet {
    pub candidate_hash: CandidateHash,
    pub session: u32,
    pub statements: Vec<(DisputeStatement, ValidatorIndex, Signature)>,
}

} // verus!
