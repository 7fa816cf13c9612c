//! Backed candidates, and what validators sign.

use crate::bits::{bitvec_clone, bitvec_repeat, max_bits, repeated};
use crate::crypto::{sr25519_public, sr25519_verifies, KeyPair, PublicKey, H256};
use crate::primitives::{
    zero_hash, zeroes, AssignmentKind, AvailabilityBitfield, BackedCandidate,
    CandidateCommitments, CandidateDescriptor, CandidateHash, CommittedCandidateReceipt,
    CompactStatement, CoreAssignment, CoreIndex, GroupIndex, HeadData, ParaId, SigningContext,
    UncheckedSigned, ValidatorIndex, ValidityAttestation,
};
use crate::sizes::BenchmarkSizes;
use crate::storage::{ParaPastCodeMeta, ParachainsState, ReplacementTimes};
use crate::validators::{same_key, SessionValidator};
use vstd::prelude::*;

verus! {

/// The parachain and the core of a backed candidate.
#[derive(Clone, Copy, Debug, PartialEq, Eq, Structural)]
pub struct BackedSlot {
    pub para_id: ParaId,
    pub core: CoreIndex,
}

/// The parachain and the core of the backed candidate numbered `seed`.
pub open spec fn backed_slot_of(sizes: BenchmarkSizes, seed: u32) -> BackedSlot {
    BackedSlot {
        para_id: ParaId((seed + sizes.concluding) as u32),
        core: CoreIndex((seed + sizes.concluding) as u32),
    }
}

/// The parachain and the core of the backed candidate numbered `seed`.
pub fn backed_slot(sizes: &BenchmarkSizes, seed: u32) -> (res: BackedSlot)
    requires
        sizes.wf(),
        seed < sizes.backed,
    ensures
        res == backed_slot_of(*sizes, seed),
        res.para_id.0 == seed + sizes.concluding,
        res.core.0 == seed + sizes.concluding,
{
    BackedSlot { para_id: ParaId(seed + sizes.concluding), core: CoreIndex(seed + sizes.concluding) }
}

/// The backed candidates take the cores of the concluding ones, each its own, and no backed
/// candidate is disputed.
pub proof fn law_backed_candidates_take_concluding_cores(
    sizes: BenchmarkSizes,
    a: u32,
    b: u32,
)
    requires
        sizes.wf(),
        a < sizes.backed,
        b < sizes.backed,
    ensures
        sizes.concluding <= backed_slot_of(sizes, a).core.0 < sizes.first_disputed(),
        backed_slot_of(sizes, a).para_id.0 == backed_slot_of(sizes, a).core.0,
        a != b ==> backed_slot_of(sizes, a).core != backed_slot_of(sizes, b).core,
        backed_slot_of(sizes, a).core.0 == a + sizes.concluding,
        backed_slot_of(sizes, a).core.0 < sizes.concluding + sizes.backed,
{
}

/// Between `before` and `after` the storage was prepared for a candidate on `slot` that
/// `group_idx` backs: the parachain got an empty head, one code replacement at block zero and the
/// zero code hash, the core was assigned, and nothing else changed.
pub open spec fn scheduled_backed(
    before: ParachainsState,
    after: ParachainsState,
    slot: BackedSlot,
    group_idx: GroupIndex,
) -> bool {
    let para = slot.para_id.0;
    &&& after.heads@ == before.heads@.insert(para, after.heads@[para])
    &&& after.heads@[para]@ == Seq::<u8>::empty()
    &&& after.scheduled@ == before.scheduled@.push(
        CoreAssignment {
            core: slot.core,
            para_id: slot.para_id,
            kind: AssignmentKind::Parachain,
            group_idx,
        },
    )
    &&& after.past_code_meta@ == before.past_code_meta@.insert(para, after.past_code_meta@[para])
    &&& after.past_code_meta@[para].replacements@ == seq![
        ReplacementTimes { expected_at: 0, activated_at: 0 },
    ]
    &&& after.current_code_hash@ == before.current_code_hash@.insert(
        para,
        after.current_code_hash@[para],
    )
    &&& after.current_code_hash@[para]@ == zeroes(32)
    &&& after.parachains == before.parachains
    &&& after.availability_cores == before.availability_cores
    &&& after.pending_availability == before.pending_availability
    &&& after.pending_availability_commitments == before.pending_availability_commitments
}

/// Scheduling a backed candidate adds one assignment at the end, gives its parachain an empty
/// head, one code replacement at block zero and a code hash of zeroes, and leaves the cores, the
/// pending candidates and every other parachain alone.
pub proof fn law_scheduling_touches_one_parachain(
    before: ParachainsState,
    after: ParachainsState,
    slot: BackedSlot,
    group_idx: GroupIndex,
    other: u32,
)
    requires
        scheduled_backed(before, after, slot, group_idx),
        other != slot.para_id.0,
    ensures
        after.scheduled@.len() == before.scheduled@.len() + 1,
        after.scheduled@.drop_last() == before.scheduled@,
        after.scheduled@.last().core == slot.core,
        after.scheduled@.last().para_id == slot.para_id,
        after.scheduled@.last().group_idx == group_idx,
        after.heads@.contains_key(slot.para_id.0),
        after.heads@[slot.para_id.0]@.len() == 0,
        after.past_code_meta@.contains_key(slot.para_id.0),
        after.past_code_meta@[slot.para_id.0].replacements@.len() == 1,
        after.past_code_meta@[slot.para_id.0].replacements@[0].expected_at == 0,
        after.past_code_meta@[slot.para_id.0].replacements@[0].activated_at == 0,
        after.current_code_hash@.contains_key(slot.para_id.0),
        forall|i: int|
            0 <= i < 32 ==> #[trigger] after.current_code_hash@[slot.para_id.0]@[i] == 0,
        after.heads@.contains_key(other) == before.heads@.contains_key(other),
        after.heads@[other] == before.heads@[other],
        after.past_code_meta@.contains_key(other) == before.past_code_meta@.contains_key(other),
        after.past_code_meta@[other] == before.past_code_meta@[other],
        after.current_code_hash@.contains_key(other) == before.current_code_hash@.contains_key(
            other,
        ),
        after.current_code_hash@[other] == before.current_code_hash@[other],
        after.parachains == before.parachains,
        after.availability_cores == before.availability_cores,
        after.pending_availability == before.pending_availability,
        after.pending_availability_commitments == before.pending_availability_commitments,
{
    assert(after.scheduled@.drop_last() =~= before.scheduled@);
}

/// Prepares the storage for a candidate on `slot` that `group_idx` backs: an empty head, an
/// assignment of the core, a code replacement at block zero and the zero code hash.
pub fn schedule_backed(state: &mut ParachainsState, slot: BackedSlot, group_idx: GroupIndex)
    ensures
        scheduled_backed(*old(state), *final(state), slot, group_idx),
        final(state).scheduled@.len() == old(state).scheduled@.len() + 1,
        final(state).scheduled@.drop_last() == old(state).scheduled@,
        final(state).scheduled@.last().core == slot.core,
        final(state).scheduled@.last().para_id == slot.para_id,
        final(state).scheduled@.last().group_idx == group_idx,
        final(state).heads@.dom() == old(state).heads@.dom().insert(slot.para_id.0),
        final(state).heads@[slot.para_id.0]@.len() == 0,
        final(state).past_code_meta@.dom() == old(state).past_code_meta@.dom().insert(
            slot.para_id.0,
        ),
        final(state).past_code_meta@[slot.para_id.0].replacements@.len() == 1,
        final(state).past_code_meta@[slot.para_id.0].replacements@[0].expected_at == 0,
        final(state).past_code_meta@[slot.para_id.0].replacements@[0].activated_at == 0,
        final(state).current_code_hash@.dom() == old(state).current_code_hash@.dom().insert(
            slot.para_id.0,
        ),
        forall|i: int|
            0 <= i < 32 ==> #[trigger] final(state).current_code_hash@[slot.para_id.0]@[i] == 0,
        final(state).parachains == old(state).parachains,
        final(state).availability_cores == old(state).availability_cores,
        final(state).pending_availability == old(state).pending_availability,
        final(state).pending_availability_commitments == old(
            state,
        ).pending_availability_commitments,
{
    state.heads.insert(slot.para_id, HeadData::default());
    state.scheduled.push(
        CoreAssignment {
            core: slot.core,
            para_id: slot.para_id,
            kind: AssignmentKind::Parachain,
            group_idx,
        },
    );
    let mut replacements: Vec<ReplacementTimes> = Vec::new();
    replacements.push(ReplacementTimes { expected_at: 0, activated_at: 0 });
    state.past_code_meta.insert(slot.para_id, ParaPastCodeMeta { replacements });
    state.current_code_hash.insert(slot.para_id, zero_hash());
}

/// What a collator signs about a candidate.
#[derive(Clone, Copy, Debug, PartialEq, Eq)]
pub struct CollatorPayload {
    pub relay_parent: H256,
    pub para_id: ParaId,
    pub persisted_validation_data_hash: H256,
    pub pov_hash: H256,
    pub validation_code_hash: H256,
}

/// What the collator of the candidate on `para_id` signs: the hashes of the block data and of
/// the validation code are zero.
pub fn collator_payload(
    relay_parent: H256,
    para_id: ParaId,
    persisted_validation_data_hash: H256,
) -> (res: CollatorPayload)
    ensures
        res.relay_parent == relay_parent,
        res.para_id == para_id,
        res.persisted_validation_data_hash == persisted_validation_data_hash,
        res.pov_hash@ == zeroes(32),
        res.validation_code_hash@ == zeroes(32),
        forall|i: int|
            0 <= i < 32 ==> {
                &&& #[trigger] res.pov_hash@[i] == 0
                &&& res.validation_code_hash@[i] == 0
            },
{
    CollatorPayload {
        relay_parent,
        para_id,
        persisted_validation_data_hash,
        pov_hash: zero_hash(),
        validation_code_hash: zero_hash(),
    }
}

/// The receipt of the candidate that `payload` describes, signed by `collator` over
/// `signing_bytes`, which `payload` is encoded as. `para_head` is the hash of an empty head.
pub fn committed_candidate(
    payload: &CollatorPayload,
    signing_bytes: &Vec<u8>,
    collator: &KeyPair,
    para_head: H256,
) -> (res: CommittedCandidateReceipt)
    requires
        signing_bytes@.len() <= u32::MAX,
    ensures
        res.descriptor.para_id == payload.para_id,
        res.descriptor.relay_parent == payload.relay_parent,
        res.descriptor.collator@ == collator.public_key(),
        res.descriptor.persisted_validation_data_hash == payload.persisted_validation_data_hash,
        res.descriptor.pov_hash == payload.pov_hash,
        res.descriptor.erasure_root@ == zeroes(32),
        collator.signed(signing_bytes@, res.descriptor.signature),
        sr25519_verifies(
            res.descriptor.signature@,
            signing_bytes@,
            sr25519_public(collator.seed@),
        ),
        res.descriptor.collator@ == sr25519_public(collator.seed@),
        res.descriptor.para_head == para_head,
        res.descriptor.validation_code_hash == payload.validation_code_hash,
        res.commitments.is_empty_at(1),
        forall|i: int| 0 <= i < 32 ==> #[trigger] res.descriptor.erasure_root@[i] == 0,
        res.commitments.upward_messages@.len() == 0,
        res.commitments.horizontal_messages@.len() == 0,
        res.commitments.new_validation_code is None,
        res.commitments.head_data@.len() == 0,
        res.commitments.processed_downward_messages == 0,
        res.commitments.hrmp_watermark == 1,
{
    CommittedCandidateReceipt {
        descriptor: CandidateDescriptor {
            para_id: payload.para_id,
            relay_parent: payload.relay_parent,
            collator: collator.public(),
            persisted_validation_data_hash: payload.persisted_validation_data_hash,
            pov_hash: payload.pov_hash,
            erasure_root: zero_hash(),
            signature: collator.sign(signing_bytes),
            para_head,
            validation_code_hash: payload.validation_code_hash,
        },
        commitments: CandidateCommitments {
            upward_messages: Vec::new(),
            horizontal_messages: Vec::new(),
            new_validation_code: None,
            head_data: HeadData::default(),
            processed_downward_messages: 0,
            hrmp_watermark: 1,
        },
    }
}

/// Whatever the payload and the collator, the receipt commits to what default commitments hold in
/// every field but the watermark: nothing is sent, processed or changed, and the watermark is one.
pub proof fn law_receipts_commit_to_nothing_at_watermark_one(
    payload: CollatorPayload,
    signing_bytes: Vec<u8>,
    collator: KeyPair,
    para_head: H256,
    receipt: CommittedCandidateReceipt,
    default: CandidateCommitments,
)
    requires
        signing_bytes@.len() <= u32::MAX,
        call_ensures(
            committed_candidate,
            (&payload, &signing_bytes, &collator, para_head),
            receipt,
        ),
        default.is_empty_at(0),
    ensures
        receipt.commitments.upward_messages@ == default.upward_messages@,
        receipt.commitments.horizontal_messages@ == default.horizontal_messages@,
        receipt.commitments.new_validation_code == default.new_validation_code,
        receipt.commitments.head_data@ == default.head_data@,
        receipt.commitments.processed_downward_messages == default.processed_downward_messages,
        receipt.commitments.processed_downward_messages == 0,
        receipt.commitments.hrmp_watermark == default.hrmp_watermark + 1,
        receipt.commitments.hrmp_watermark == 1,
        receipt.descriptor.para_id == payload.para_id,
        sr25519_verifies(
            receipt.descriptor.signature@,
            signing_bytes@,
            receipt.descriptor.collator@,
        ),
{
}

/// The receipt of the candidate that `payload` describes, from a collator with a fresh key pair:
/// whatever the key, the signature over `signing_bytes` verifies under it.
pub fn candidate_of_new_collator(
    payload: &CollatorPayload,
    signing_bytes: &Vec<u8>,
    para_head: H256,
) -> (res: CommittedCandidateReceipt)
    requires
        signing_bytes@.len() <= u32::MAX,
    ensures
        res.descriptor.para_id == payload.para_id,
        res.descriptor.relay_parent == payload.relay_parent,
        res.descriptor.persisted_validation_data_hash == payload.persisted_validation_data_hash,
        res.descriptor.pov_hash == payload.pov_hash,
        res.descriptor.erasure_root@ == zeroes(32),
        sr25519_verifies(
            res.descriptor.signature@,
            signing_bytes@,
            res.descriptor.collator@,
        ),
        exists|collator: KeyPair| #[trigger]
            collator.drawn() && res.descriptor.collator@ == sr25519_public(collator.seed@),
        res.descriptor.para_head == para_head,
        res.descriptor.validation_code_hash == payload.validation_code_hash,
        res.commitments.is_empty_at(1),
        forall|i: int| 0 <= i < 32 ==> #[trigger] res.descriptor.erasure_root@[i] == 0,
        res.commitments.upward_messages@.len() == 0,
        res.commitments.horizontal_messages@.len() == 0,
        res.commitments.new_validation_code is None,
        res.commitments.head_data@.len() == 0,
        res.commitments.processed_downward_messages == 0,
        res.commitments.hrmp_watermark == 1,
{
    let collator = KeyPair::generate();
    committed_candidate(payload, signing_bytes, &collator, para_head)
}

/// A payload that a validator has to sign, and the pair that it signs with.
pub struct SigningRequest<Payload> {
    pub pair: KeyPair,
    pub payload: Payload,
    pub context: SigningContext,
    pub validator_index: ValidatorIndex,
}

/// Every member of the group is a validator of the session, and is listed under the same key
/// there and among the active validators.
pub open spec fn group_keys_agree(
    group: Seq<ValidatorIndex>,
    validators: Seq<SessionValidator>,
    active: Seq<PublicKey>,
) -> bool {
    forall|i: int|
        0 <= i < group.len() ==> {
            &&& (#[trigger] group[i]).0 < validators.len()
            &&& group[i].0 < active.len()
            &&& active[group[i].0 as int]@ == validators[group[i].0 as int].public@
        }
}

/// One member without the same key in both lists is enough for a group not to agree, and without
/// such a member it agrees.
pub proof fn law_group_agrees_unless_a_member_differs(
    group: Seq<ValidatorIndex>,
    validators: Seq<SessionValidator>,
    active: Seq<PublicKey>,
)
    ensures
        !group_keys_agree(group, validators, active) <==> exists|i: int|
            0 <= i < group.len() && {
                ||| (#[trigger] group[i]).0 >= validators.len()
                ||| group[i].0 >= active.len()
                ||| active[group[i].0 as int]@ != validators[group[i].0 as int].public@
            },
{
}

/// Checks that every member of the group is listed under the same key in the session and among
/// the active validators.
pub fn check_group_keys(
    group: &Vec<ValidatorIndex>,
    validators: &Vec<SessionValidator>,
    active: &Vec<PublicKey>,
) -> (res: bool)
    ensures
        res == group_keys_agree(group@, validators@, active@),
        res <==> forall|i: int|
            0 <= i < group@.len() ==> {
                &&& (#[trigger] group@[i]).0 < validators@.len()
                &&& group@[i].0 < active@.len()
                &&& active@[group@[i].0 as int]@ == validators@[group@[i].0 as int].public@
            },
{
    for i in 0..group.len()
        invariant
            group_keys_agree(group@.take(i as int), validators@, active@),
    {
        let index: usize = group[i].0 as usize;
        assert(group@[i as int].0 == index);
        if index >= validators.len() || index >= active.len() {
            return false;
        }
        if !same_key(&active[index], &validators[index].public) {
            return false;
        }
        assert forall|j: int| 0 <= j < i + 1 implies {
            let g = #[trigger] group@.take(i + 1)[j];
            &&& g.0 < validators@.len()
            &&& g.0 < active@.len()
            &&& active@[g.0 as int]@ == validators@[g.0 as int].public@
        } by {
            if j < i {
                assert(group@.take(i as int)[j] == group@[j]);
            }
        }
    }
    assert(group@.take(group@.len() as int) =~= group@);
    true
}

/// What each member of the group signs to vouch for the candidate.
pub fn validity_requests(
    candidate_hash: CandidateHash,
    group: &Vec<ValidatorIndex>,
    validators: &Vec<SessionValidator>,
    context: &SigningContext,
) -> (res: Vec<SigningRequest<CompactStatement>>)
    requires
        forall|i: int| 0 <= i < group@.len() ==> (#[trigger] group@[i]).0 < validators@.len(),
    ensures
        res@.len() == group@.len(),
        forall|i: int|
            0 <= i < group@.len() ==> {
                &&& (#[trigger] res@[i]).pair == validators@[group@[i].0 as int].pair
                &&& res@[i].payload == CompactStatement::Valid(candidate_hash)
                &&& res@[i].context == *context
                &&& res@[i].validator_index == group@[i]
            },
{
    let mut requests: Vec<SigningRequest<CompactStatement>> = Vec::new();
    for i in 0..group.len()
        invariant
            forall|j: int| 0 <= j < group@.len() ==> (#[trigger] group@[j]).0 < validators@.len(),
            requests@.len() == i,
            forall|j: int|
                0 <= j < i ==> {
                    &&& (#[trigger] requests@[j]).pair == validators@[group@[j].0 as int].pair
                    &&& requests@[j].payload == CompactStatement::Valid(candidate_hash)
                    &&& requests@[j].context == *context
                    &&& requests@[j].validator_index == group@[j]
                },
    {
        let validator_index: ValidatorIndex = group[i];
        assert(group@[i as int].0 < validators@.len());
        requests.push(
            SigningRequest {
                pair: validators[validator_index.0 as usize].pair,
                payload: CompactStatement::Valid(candidate_hash),
                context: *context,
                validator_index,
            },
        );
    }
    requests
}

/// The candidate with the votes of its group: an explicit vote for each signed statement, and a
/// bit set for each member.
pub fn backed_candidate(
    candidate: CommittedCandidateReceipt,
    signed: &Vec<UncheckedSigned<CompactStatement>>,
) -> (res: BackedCandidate)
    requires
        signed@.len() <= max_bits(),
    ensures
        res.candidate == candidate,
        res.validity_votes@ == signed@.map_values(
            |s: UncheckedSigned<CompactStatement>| ValidityAttestation::Explicit(s.signature),
        ),
        res.validator_indices@ == repeated(true, signed@.len()),
        res.validity_votes@.len() == signed@.len(),
        forall|i: int|
            0 <= i < signed@.len() ==> #[trigger] res.validity_votes@[i]
                == ValidityAttestation::Explicit(signed@[i].signature),
        res.validator_indices@.len() == signed@.len(),
        forall|i: int| 0 <= i < signed@.len() ==> #[trigger] res.validator_indices@[i],
{
    let mut validity_votes: Vec<ValidityAttestation> = Vec::new();
    for i in 0..signed.len()
        invariant
            validity_votes@ =~= signed@.take(i as int).map_values(
                |s: UncheckedSigned<CompactStatement>| ValidityAttestation::Explicit(s.signature),
            ),
    {
        validity_votes.push(ValidityAttestation::Explicit(signed[i].signature));
    }
    assert(signed@.take(signed@.len() as int) =~= signed@);
    BackedCandidate {
        candidate,
        validity_votes,
        validator_indices: bitvec_repeat(true, signed.len()),
    }
}

/// A backed candidate has as many bits as votes, all of them set, and each vote carries the
/// signature of its statement.
pub proof fn law_a_bit_is_set_for_each_vote(
    candidate: CommittedCandidateReceipt,
    signed: Vec<UncheckedSigned<CompactStatement>>,
    backed: BackedCandidate,
    i: int,
)
    requires
        signed@.len() <= max_bits(),
        call_ensures(backed_candidate, (candidate, &signed), backed),
        0 <= i < signed@.len(),
    ensures
        backed.validator_indices@.len() == backed.validity_votes@.len(),
        backed.validity_votes@.len() == signed@.len(),
        backed.validator_indices@[i],
        backed.validity_votes@[i] matches ValidityAttestation::Explicit(signature) && signature
            == signed@[i].signature,
        backed.candidate == candidate,
{
}

/// What each validator signs to vote for the availability that `bitfield` shows.
pub fn bitfield_requests(
    bitfield: &AvailabilityBitfield,
    validators: &Vec<SessionValidator>,
    context: &SigningContext,
) -> (res: Vec<SigningRequest<AvailabilityBitfield>>)
    ensures
        res@.len() == validators@.len(),
        forall|i: int|
            0 <= i < validators@.len() ==> {
                &&& (#[trigger] res@[i]).pair == validators@[i].pair
                &&& res@[i].payload@ == bitfield@
                &&& res@[i].context == *context
                &&& res@[i].validator_index == ValidatorIndex(i as u32)
            },
{
    let mut requests: Vec<SigningRequest<AvailabilityBitfield>> = Vec::new();
    for i in 0..validators.len()
        invariant
            requests@.len() == i,
            forall|j: int|
                0 <= j < i ==> {
                    &&& (#[trigger] requests@[j]).pair == validators@[j].pair
                    &&& requests@[j].payload@ == bitfield@
                    &&& requests@[j].context == *context
                    &&& requests@[j].validator_index == ValidatorIndex(j as u32)
                },
    {
        requests.push(
            SigningRequest {
                pair: validators[i].pair,
                payload: AvailabilityBitfield(bitvec_clone(&bitfield.0)),
                context: *context,
                validator_index: ValidatorIndex(i as u32),
            },
        );
    }
    requests
}

impl<Payload> SigningRequest<Payload> {
    /// Signs `bytes`, which the payload and the context are encoded as.
    pub fn sign(self, bytes: &Vec<u8>) -> (res: UncheckedSigned<Payload>)
        requires
            bytes@.len() <= u32::MAX,
        ensures
            res.payload == self.payload,
            res.validator_index == self.validator_index,
            self.pair.signed(bytes@, res.signature),
            sr25519_verifies(res.signature@, bytes@, sr25519_public(self.pair.seed@)),
    {
        let signature = self.pair.sign(bytes);
        UncheckedSigned {
            payload: self.payload,
            validator_index: self.validator_index,
            signature,
        }
    }
}

/// Where each validator holds the key pair of the key that it is listed with, and the votes on a
/// candidate are those of the group's members, each over its own bytes: every vote verifies under
/// the key that the member is listed with.
pub proof fn law_validity_votes_verify_under_the_listed_keys(
    group: Seq<ValidatorIndex>,
    validators: Seq<SessionValidator>,
    votes: Seq<ValidityAttestation>,
    bytes: Seq<Seq<u8>>,
    i: int,
)
    requires
        votes.len() == group.len(),
        bytes.len() == group.len(),
        forall|j: int|
            0 <= j < validators.len() ==> (#[trigger] validators[j]).pair.public_key()
                == validators[j].public@,
        forall|j: int|
            0 <= j < group.len() ==> {
                &&& (#[trigger] group[j]).0 < validators.len()
                &&& votes[j] matches ValidityAttestation::Explicit(signature)
                &&& validators[group[j].0 as int].pair.signed(bytes[j], signature)
            },
        0 <= i < group.len(),
    ensures
        votes[i] matches ValidityAttestation::Explicit(signature) && sr25519_verifies(
            signature@,
            bytes[i],
            validators[group[i].0 as int].public@,
        ),
{
    let member = group[i];
    assert(validators[member.0 as int].pair.public_key() == validators[member.0 as int].public@);
}

/// Where each validator holds the key pair of the key that it is listed with: a bitfield that was
/// signed with the pair of the validator at its index verifies under the key listed there.
pub proof fn law_bitfields_verify_under_the_listed_keys(
    validators: Seq<SessionValidator>,
    bitfield: UncheckedSigned<AvailabilityBitfield>,
    bytes: Seq<u8>,
)
    requires
        forall|j: int|
            0 <= j < validators.len() ==> (#[trigger] validators[j]).pair.public_key()
                == validators[j].public@,
        bitfield.validator_index.0 < validators.len(),
        validators[bitfield.validator_index.0 as int].pair.signed(bytes, bitfield.signature),
    ensures
        sr25519_verifies(
            bitfield.signature@,
            bytes,
            validators[bitfield.validator_index.0 as int].public@,
        ),
{
    let index = bitfield.validator_index.0 as int;
    assert(validators[index].pair.public_key() == validators[index].public@);
}

} // verus!
