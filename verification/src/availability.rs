//! Candidates that wait for availability, and the votes on it.

use crate::bits::{bits_of, bitvec_push, bitvec_repeat, max_bits, BitVector};
use crate::crypto::{h256_from_low_u64_le, low_u64_le};
use crate::primitives::{
    AvailabilityBitfield, CandidateCommitments, CandidateDescriptor, CandidateHash,
    CandidatePendingAvailability, CoreIndex, CoreOccupied, GroupIndex, ParaId,
};
use crate::storage::ParachainsState;
use vstd::prelude::*;

verus! {

/// The hash that stands for the candidate made from `seed`.
pub open spec fn seed_hash(seed: u32) -> Seq<u8> {
    low_u64_le(seed as u64)
}

/// The hash that stands for the candidate made from `seed`.
pub fn candidate_hash_of_seed(seed: u32) -> (res: CandidateHash)
    ensures
        res.0@ == seed_hash(seed),
        forall|i: int| 0 <= i < 24 ==> #[trigger] res.0@[i] == 0,
        res.0@[24] + 0x100 * res.0@[25] + 0x1_0000 * res.0@[26] + 0x100_0000 * res.0@[27] == seed,
        forall|i: int| 28 <= i < 32 ==> #[trigger] res.0@[i] == 0,
{
    proof {
        law_hash_spells_the_seed(seed);
    }
    CandidateHash(h256_from_low_u64_le(seed as u64))
}

/// The hash of a candidate spells out its seed: 24 zero bytes, the four bytes of the seed, the
/// least significant one first, and four zero bytes.
pub proof fn law_hash_spells_the_seed(seed: u32)
    ensures
        seed_hash(seed).len() == 32,
        forall|i: int| 0 <= i < 24 ==> #[trigger] seed_hash(seed)[i] == 0,
        seed_hash(seed)[24] + 0x100 * seed_hash(seed)[25] + 0x1_0000 * seed_hash(seed)[26]
            + 0x100_0000 * seed_hash(seed)[27] == seed,
        forall|i: int| 28 <= i < 32 ==> #[trigger] seed_hash(seed)[i] == 0,
{
    let x = seed as u64;
    assert(seed_hash(seed)[24] == ((x >> 0u64) & 0xff) as u8);
    assert(seed_hash(seed)[25] == ((x >> 8u64) & 0xff) as u8);
    assert(seed_hash(seed)[26] == ((x >> 16u64) & 0xff) as u8);
    assert(seed_hash(seed)[27] == ((x >> 24u64) & 0xff) as u8);
    assert(((x >> 0u64) & 0xff) as u8 + 0x100 * (((x >> 8u64) & 0xff) as u8) + 0x1_0000 * (((x
        >> 16u64) & 0xff) as u8) + 0x100_0000 * (((x >> 24u64) & 0xff) as u8) == x)
        by (bit_vector)
        requires
            x <= 0xffff_ffff,
    ;
    assert forall|i: int| 28 <= i < 32 implies #[trigger] seed_hash(seed)[i] == 0 by {
        let shift = (8 * (i - 24)) as u64;
        assert(((x >> shift) & 0xff) as u8 == 0) by (bit_vector)
            requires
                x <= 0xffff_ffff,
                32 <= shift < 64,
        ;
    }
}

/// Different candidates have different hashes.
pub proof fn law_candidate_hashes_differ(a: u32, b: u32)
    requires
        a != b,
    ensures
        seed_hash(a) != seed_hash(b),
{
    let x = a as u64;
    let y = b as u64;
    if seed_hash(a) == seed_hash(b) {
        assert forall|i: int| 24 <= i < 32 implies low_u64_le_agrees(x, y, i) by {
            assert(low_u64_le(x)[i] == low_u64_le(y)[i]);
        }
        assert(low_u64_le_agrees(x, y, 24));
        assert(low_u64_le_agrees(x, y, 25));
        assert(low_u64_le_agrees(x, y, 26));
        assert(low_u64_le_agrees(x, y, 27));
        assert(x == y) by (bit_vector)
            requires
                x <= 0xffff_ffff,
                y <= 0xffff_ffff,
                ((x >> 0u64) & 0xff) as u8 == ((y >> 0u64) & 0xff) as u8,
                ((x >> 8u64) & 0xff) as u8 == ((y >> 8u64) & 0xff) as u8,
                ((x >> 16u64) & 0xff) as u8 == ((y >> 16u64) & 0xff) as u8,
                ((x >> 24u64) & 0xff) as u8 == ((y >> 24u64) & 0xff) as u8,
        ;
    }
}

spec fn low_u64_le_agrees(x: u64, y: u64, i: int) -> bool {
    ((x >> ((8 * (i - 24)) as u64)) & 0xff) as u8 == ((y >> ((8 * (i - 24)) as u64)) & 0xff) as u8
}

impl CandidatePendingAvailability {
    /// The candidate of `seed`: on the core and in the group of that number, backed in the first
    /// block, with the given hash and votes and with nothing else filled in.
    pub open spec fn is_mock(self, seed: u32, hash: Seq<u8>, votes: Seq<bool>) -> bool {
        &&& self.core == CoreIndex(seed)
        &&& self.hash.0@ == hash
        &&& self.descriptor.is_default()
        &&& self.availability_votes@ == votes
        &&& self.backers@ == Seq::<bool>::empty()
        &&& self.relay_parent_number == 0
        &&& self.backed_in_number == 1
        &&& self.backing_group == GroupIndex(seed)
    }
}

/// A mock candidate is on the core and in the group of its seed, was backed in block one on block
/// zero, has no backers, and holds its hash and its votes.
pub proof fn law_mock_candidate_holds_its_parts(
    candidate: CandidatePendingAvailability,
    seed: u32,
    hash: Seq<u8>,
    votes: Seq<bool>,
)
    requires
        candidate.is_mock(seed, hash, votes),
    ensures
        candidate.core.0 == seed,
        candidate.backing_group.0 == seed,
        candidate.hash.0@ == hash,
        candidate.availability_votes@ == votes,
        candidate.backers@.len() == 0,
        candidate.relay_parent_number == 0,
        candidate.backed_in_number == 1,
        candidate.descriptor.is_default(),
{
}

/// A candidate that waits for availability on the core numbered `seed`.
pub fn candidate_availability_mock(
    seed: u32,
    candidate_hash: CandidateHash,
    availability_votes: BitVector,
) -> (res: CandidatePendingAvailability)
    ensures
        res.is_mock(seed, candidate_hash.0@, availability_votes@),
        res.core.0 == seed,
        res.hash == candidate_hash,
        res.descriptor.is_default(),
        res.availability_votes == availability_votes,
        res.backers@.len() == 0,
        res.relay_parent_number == 0,
        res.backed_in_number == 1,
        res.backing_group.0 == seed,
{
    let backers = bitvec_repeat(false, 0);
    assert(backers@ =~= Seq::<bool>::empty());
    CandidatePendingAvailability {
        core: CoreIndex(seed),
        hash: candidate_hash,
        descriptor: CandidateDescriptor::default(),
        availability_votes,
        backers,
        relay_parent_number: 0,
        backed_in_number: 1,
        backing_group: GroupIndex(seed),
    }
}

/// Whether `v` holds `x`.
fn contains(v: &Vec<u32>, x: u32) -> (res: bool)
    ensures
        res == v@.contains(x),
{
    for i in 0..v.len()
        invariant
            forall|j: int| 0 <= j < i ==> v@[j] != x,
    {
        if v[i] == x {
            return true;
        }
    }
    false
}

/// Only the cores of the two states can differ.
pub open spec fn same_but_cores(a: ParachainsState, b: ParachainsState) -> bool {
    &&& a.parachains == b.parachains
    &&& a.scheduled == b.scheduled
    &&& a.pending_availability == b.pending_availability
    &&& a.pending_availability_commitments == b.pending_availability_commitments
    &&& a.heads == b.heads
    &&& a.past_code_meta == b.past_code_meta
    &&& a.current_code_hash == b.current_code_hash
}

/// `cores` with those from `lo` up to `hi` occupied by parachains.
pub open spec fn occupied(
    cores: Seq<Option<CoreOccupied>>,
    lo: int,
    hi: int,
) -> Seq<Option<CoreOccupied>> {
    Seq::new(
        cores.len(),
        |i: int|
            if lo <= i < hi {
                Some(CoreOccupied::Parachain)
            } else {
                cores[i]
            },
    )
}

/// States that are the same but for the cores agree in every other storage item.
pub proof fn law_same_but_cores_keeps_the_rest(a: ParachainsState, b: ParachainsState)
    requires
        same_but_cores(a, b),
    ensures
        a.parachains == b.parachains,
        a.scheduled == b.scheduled,
        a.pending_availability == b.pending_availability,
        a.pending_availability_commitments == b.pending_availability_commitments,
        a.heads == b.heads,
        a.past_code_meta == b.past_code_meta,
        a.current_code_hash == b.current_code_hash,
{
}

/// Occupying cores puts a parachain on each core of the range and leaves every other core alone.
pub proof fn law_occupied_changes_the_range_alone(
    cores: Seq<Option<CoreOccupied>>,
    lo: int,
    hi: int,
    i: int,
)
    requires
        0 <= i < cores.len(),
    ensures
        occupied(cores, lo, hi).len() == cores.len(),
        lo <= i < hi ==> occupied(cores, lo, hi)[i] == Some(CoreOccupied::Parachain),
        !(lo <= i < hi) ==> occupied(cores, lo, hi)[i] == cores[i],
{
}

/// Marks the first `cores` cores as occupied, and returns one bit for each of them: set where
/// the core is among `concluding`.
pub fn availability_bitvec(
    state: &mut ParachainsState,
    cores: u32,
    concluding: Vec<u32>,
) -> (res: AvailabilityBitfield)
    requires
        cores <= old(state).availability_cores@.len(),
        cores <= max_bits(),
    ensures
        res@ == Seq::new(cores as nat, |i: int| concluding@.contains(i as u32)),
        final(state).availability_cores@ == occupied(
            old(state).availability_cores@,
            0,
            cores as int,
        ),
        same_but_cores(*final(state), *old(state)),
        final(state).availability_cores@.len() == old(state).availability_cores@.len(),
        forall|i: int|
            0 <= i < cores ==> #[trigger] final(state).availability_cores@[i] == Some(
                CoreOccupied::Parachain,
            ),
        forall|i: int|
            cores <= i < old(state).availability_cores@.len() ==>
                #[trigger] final(state).availability_cores@[i] == old(state).availability_cores@[i],
        final(state).parachains == old(state).parachains,
        final(state).scheduled == old(state).scheduled,
        final(state).pending_availability == old(state).pending_availability,
        final(state).pending_availability_commitments == old(
            state,
        ).pending_availability_commitments,
        final(state).heads == old(state).heads,
        final(state).past_code_meta == old(state).past_code_meta,
        final(state).current_code_hash == old(state).current_code_hash,
{
    let ghost bits = Seq::new(cores as nat, |i: int| concluding@.contains(i as u32));
    let mut bitfield = bitvec_repeat(false, 0);
    for i in 0..cores
        invariant
            cores <= max_bits(),
            cores <= old(state).availability_cores@.len(),
            bits == Seq::new(cores as nat, |j: int| concluding@.contains(j as u32)),
            bits_of(bitfield) =~= bits.take(i as int),
            state.availability_cores@ =~= occupied(
                old(state).availability_cores@,
                0,
                i as int,
            ),
            same_but_cores(*state, *old(state)),
    {
        if contains(&concluding, i) {
            bitvec_push(&mut bitfield, true);
        } else {
            bitvec_push(&mut bitfield, false);
        }
        state.availability_cores.set(i as usize, Some(CoreOccupied::Parachain));
        assert(bits.take(i + 1) =~= bits.take(i as int).push(bits[i as int]));
    }
    assert(bits.take(cores as int) =~= bits);
    AvailabilityBitfield(bitfield)
}

/// Between `before` and `after` the candidates from `lo` up to `hi` were made to wait for
/// availability, each with the given votes; what was filed under other parachains is untouched.
pub open spec fn added_candidates(
    before: ParachainsState,
    after: ParachainsState,
    lo: int,
    hi: int,
    votes: Seq<bool>,
) -> bool {
    &&& after.pending_availability@.dom() == before.pending_availability@.dom().union(
        Set::new(|s: u32| lo <= s < hi),
    )
    &&& after.pending_availability_commitments@.dom()
        == before.pending_availability_commitments@.dom().union(Set::new(|s: u32| lo <= s < hi))
    &&& forall|s: u32|
        lo <= s < hi ==> {
            &&& (#[trigger] after.pending_availability@[s]).is_mock(s, seed_hash(s), votes)
            &&& after.pending_availability_commitments@[s].is_empty_at(0)
        }
    &&& forall|s: u32|
        !(lo <= s < hi) ==> {
            &&& #[trigger] after.pending_availability@[s] == before.pending_availability@[s]
            &&& after.pending_availability_commitments@[s]
                == before.pending_availability_commitments@[s]
        }
}

/// Everything but the candidates that wait for availability is the same in both states.
pub open spec fn same_but_pending(a: ParachainsState, b: ParachainsState) -> bool {
    &&& a.parachains == b.parachains
    &&& a.availability_cores == b.availability_cores
    &&& a.scheduled == b.scheduled
    &&& a.heads == b.heads
    &&& a.past_code_meta == b.past_code_meta
    &&& a.current_code_hash == b.current_code_hash
}

/// States that are the same but for the pending candidates agree in every other storage item.
pub proof fn law_same_but_pending_keeps_the_rest(a: ParachainsState, b: ParachainsState)
    requires
        same_but_pending(a, b),
    ensures
        a.parachains == b.parachains,
        a.availability_cores == b.availability_cores,
        a.scheduled == b.scheduled,
        a.heads == b.heads,
        a.past_code_meta == b.past_code_meta,
        a.current_code_hash == b.current_code_hash,
{
}

/// After the candidates of a range were added: each of them waits on its own core, under the hash
/// that spells its number, with the votes that were given and commitments that hold nothing, and
/// every parachain outside the range has what it had before, or nothing.
pub proof fn law_added_candidates_wait_on_their_cores(
    before: ParachainsState,
    after: ParachainsState,
    lo: int,
    hi: int,
    votes: Seq<bool>,
    s: u32,
)
    requires
        added_candidates(before, after, lo, hi, votes),
    ensures
        lo <= s < hi ==> {
            let candidate = after.pending_availability@[s];
            let commitments = after.pending_availability_commitments@[s];
            let hash = candidate.hash.0@;
            &&& after.pending_availability@.contains_key(s)
            &&& candidate.core.0 == s
            &&& candidate.backing_group.0 == s
            &&& hash[24] + 0x100 * hash[25] + 0x1_0000 * hash[26] + 0x100_0000 * hash[27] == s
            &&& candidate.availability_votes@ == votes
            &&& candidate.backers@.len() == 0
            &&& candidate.relay_parent_number == 0
            &&& candidate.backed_in_number == 1
            &&& after.pending_availability_commitments@.contains_key(s)
            &&& commitments.upward_messages@.len() == 0
            &&& commitments.horizontal_messages@.len() == 0
            &&& commitments.new_validation_code is None
            &&& commitments.head_data@.len() == 0
            &&& commitments.processed_downward_messages == 0
            &&& commitments.hrmp_watermark == 0
        },
        !(lo <= s < hi) ==> {
            &&& after.pending_availability@.contains_key(s)
                == before.pending_availability@.contains_key(s)
            &&& after.pending_availability@[s] == before.pending_availability@[s]
            &&& after.pending_availability_commitments@.contains_key(s)
                == before.pending_availability_commitments@.contains_key(s)
            &&& after.pending_availability_commitments@[s]
                == before.pending_availability_commitments@[s]
        },
{
    law_hash_spells_the_seed(s);
    let added = Set::new(|k: u32| lo <= k < hi);
    assert(after.pending_availability@.dom().contains(s) <==> {
        ||| before.pending_availability@.dom().contains(s)
        ||| added.contains(s)
    });
    assert(after.pending_availability_commitments@.dom().contains(s) <==> {
        ||| before.pending_availability_commitments@.dom().contains(s)
        ||| added.contains(s)
    });
    if lo <= s < hi {
        assert(after.pending_availability@[s].is_mock(s, seed_hash(s), votes));
    } else {
        assert(after.pending_availability@[s] == before.pending_availability@[s]);
    }
}

/// Makes the candidate of `seed` wait for availability, with commitments that hold nothing, and
/// returns its hash.
pub fn add_availability(
    state: &mut ParachainsState,
    seed: u32,
    availability_votes: BitVector,
    candidate_hash: CandidateHash,
) -> (res: CandidateHash)
    ensures
        res == candidate_hash,
        final(state).pending_availability@ == old(state).pending_availability@.insert(
            seed,
            final(state).pending_availability@[seed],
        ),
        final(state).pending_availability@[seed].is_mock(
            seed,
            candidate_hash.0@,
            availability_votes@,
        ),
        final(state).pending_availability_commitments@ == old(
            state,
        ).pending_availability_commitments@.insert(
            seed,
            final(state).pending_availability_commitments@[seed],
        ),
        final(state).pending_availability_commitments@[seed].is_empty_at(0),
        same_but_pending(*final(state), *old(state)),
        final(state).pending_availability@[seed].core.0 == seed,
        final(state).pending_availability@[seed].backing_group.0 == seed,
        final(state).pending_availability@[seed].hash == candidate_hash,
        final(state).pending_availability@[seed].availability_votes == availability_votes,
        final(state).pending_availability@[seed].backers@.len() == 0,
        final(state).pending_availability@[seed].relay_parent_number == 0,
        final(state).pending_availability@[seed].backed_in_number == 1,
        final(state).pending_availability_commitments@[seed].upward_messages@.len() == 0,
        final(state).pending_availability_commitments@[seed].horizontal_messages@.len() == 0,
        final(state).pending_availability_commitments@[seed].new_validation_code is None,
        final(state).pending_availability_commitments@[seed].head_data@.len() == 0,
        final(state).pending_availability_commitments@[seed].processed_downward_messages == 0,
        final(state).pending_availability_commitments@[seed].hrmp_watermark == 0,
        final(state).parachains == old(state).parachains,
        final(state).availability_cores == old(state).availability_cores,
        final(state).scheduled == old(state).scheduled,
        final(state).heads == old(state).heads,
        final(state).past_code_meta == old(state).past_code_meta,
        final(state).current_code_hash == old(state).current_code_hash,
{
    let candidate_availability = candidate_availability_mock(
        seed,
        candidate_hash,
        availability_votes,
    );
    let commitments = CandidateCommitments::default();
    let para_id = ParaId(seed);
    state.pending_availability.insert(para_id, candidate_availability);
    state.pending_availability_commitments.insert(para_id, commitments);
    candidate_hash
}

} // verus!
