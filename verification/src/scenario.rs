//! A block in which as many candidates as possible are disputed, from the configuration to the
//! inherent.

use crate::availability::{
    added_candidates, availability_bitvec, law_mock_candidate_holds_its_parts, occupied,
    same_but_cores, seed_hash,
};
use crate::backing::{
    backed_slot, backed_slot_of, bitfield_requests, check_group_keys, collator_payload,
    group_keys_agree, schedule_backed, scheduled_backed, validity_requests, CollatorPayload,
    SigningRequest,
};
use crate::bits::{max_bits, repeated, BitVector};
use crate::crypto::{
    benchmark_account, blake2_header_hash, sr25519_public, sr25519_verifies, PublicKey, H256,
};
use crate::disputes::{
    add_concluding, availability_votes_yes, build_disputes, concluding_cores, disputes_candidate,
    lemma_added_append, statement_count,
};
use crate::inherent::ParachainsInherentData;
use crate::primitives::{
    zeroes, AvailabilityBitfield, BackedCandidate, CandidateHash, CompactStatement,
    CoreAssignment, CoreOccupied, DisputeStatement, GroupIndex, InvalidDisputeStatementKind, ParaId,
    UncheckedSigned, ValidatorIndex,
};
use crate::setup::{
    check_session, register_parachains, session_check, Header, SetupError, CURRENT_SESSION,
};
use crate::sizes::{BenchmarkSizes, HostConfiguration};
use crate::storage::ParachainsState;
use crate::validators::{
    draw_key_pair, find_session_validators, generate_validator_pairs,
    law_pairs_are_filed_under_their_keys, pairs_by_key, validator_account, SessionValidator,
    ValidatorMap, ValidatorPair,
};
use vstd::prelude::*;

verus! {

/// What is made before the session starts.
pub struct Preparation {
    pub config: HostConfiguration,
    pub sizes: BenchmarkSizes,
    pub header: Header,
    pub pairs: Vec<ValidatorPair>,
    pub state: ParachainsState,
}

/// What the runtime shows of the session that was started.
pub struct SessionInfo {
    pub availability_cores: Vec<Option<CoreOccupied>>,
    /// How many validator groups there are.
    pub validator_groups: usize,
    pub session_index: u32,
    /// The validators' keys, in the order of the session.
    pub validators: Vec<PublicKey>,
}

/// The scenario, once its session is open.
pub struct Scenario {
    pub config: HostConfiguration,
    pub sizes: BenchmarkSizes,
    pub header: Header,
    pub validators: Vec<SessionValidator>,
    /// The votes that a candidate is available.
    pub votes: BitVector,
    pub state: ParachainsState,
}

impl Preparation {
    /// The sizes and the header are those of the scenario.
    pub open spec fn wf(self) -> bool {
        &&& self.sizes.fit(self.config)
        &&& self.header.is_parent()
    }

    /// The sizes, the parent header, the validators with fresh keys and one parachain for each
    /// core.
    pub fn new(config: &HostConfiguration) -> (res: Preparation)
        requires
            config.supports_scenario(),
        ensures
            res.wf(),
            res.config == *config,
            res.pairs@.len() == res.sizes.max_validators,
            forall|i: int|
                0 <= i < res.pairs@.len() ==> (#[trigger] res.pairs@[i]).account@
                    == validator_account(i as u32),
            res.state.parachains@ == Seq::new(
                res.sizes.max_cores as nat,
                |i: int| ParaId(i as u32),
            ),
            res.state.scheduled@ == Seq::<CoreAssignment>::empty(),
            res.state.availability_cores@ == Seq::<Option<CoreOccupied>>::empty(),
            res.state.pending_availability@.dom() == Set::<u32>::empty(),
            res.state.pending_availability_commitments@.dom() == Set::<u32>::empty(),
            res.state.heads@.dom() == Set::<u32>::empty(),
            res.state.past_code_meta@.dom() == Set::<u32>::empty(),
            res.state.current_code_hash@.dom() == Set::<u32>::empty(),
            res.pairs@.len() == match config.max_validators {
                Some(n) => n,
                None => 200,
            },
            forall|i: int|
                0 <= i < res.pairs@.len() ==> {
                    &&& call_ensures(draw_key_pair, (i as u32,), (#[trigger] res.pairs@[i]).pair)
                    &&& res.pairs@[i].pair.drawn()
                    &&& res.pairs@[i].account@ == benchmark_account(
                        "validator"@,
                        i as u32,
                        i as u32,
                    )
                },
            res.sizes.concluding == 5,
            res.sizes.backed == 1,
            res.sizes.disputed == res.sizes.max_cores - 6,
            res.sizes.max_candidates == res.sizes.max_cores,
            res.header.number == 1,
            forall|i: int|
                0 <= i < 32 ==> {
                    &&& #[trigger] res.header.extrinsics_root@[i] == 0
                    &&& res.header.state_root@[i] == 0
                    &&& res.header.parent_hash@[i] == 0
                },
            res.state.parachains@.len() == res.sizes.max_cores,
            forall|i: int|
                0 <= i < res.sizes.max_cores ==> (#[trigger] res.state.parachains@[i]).0 == i,
    {
        let sizes = BenchmarkSizes::new(config);
        let mut state = ParachainsState::new(Vec::new());
        register_parachains(&mut state, &sizes);
        Preparation {
            config: *config,
            sizes,
            header: Header::parent(),
            pairs: generate_validator_pairs(sizes.max_validators),
            state,
        }
    }

    /// Whether the key pair of every validator in the session is known.
    pub open spec fn knows(self, validators: Seq<PublicKey>) -> bool {
        forall|i: int|
            0 <= i < validators.len() ==> pairs_by_key(self.pairs@).contains_key(
                (#[trigger] validators[i])@,
            )
    }

    /// Opens the scenario in the session that was started, unless the session does not fit.
    pub fn open(self, session: SessionInfo) -> (res: Result<Scenario, SetupError>)
        requires
            self.wf(),
            self.sizes.max_validators <= max_bits(),
        ensures
            match session_check(
                self.sizes.max_cores,
                session.availability_cores@.len() as usize,
                session.validator_groups,
                session.session_index,
            ) {
                Err(error) => res is Err && res->Err_0 == error,
                Ok(()) => if self.knows(session.validators@) {
                    res is Ok && opened(self, session, res->Ok_0)
                } else {
                    res is Err && res->Err_0 == SetupError::UnknownValidator
                },
            },
            res is Ok <==> {
                &&& session.availability_cores@.len() == self.sizes.max_cores
                &&& session.validator_groups == self.sizes.max_cores
                &&& session.session_index == 1
                &&& self.knows(session.validators@)
            },
            res matches Ok(scenario) ==> {
                &&& scenario.config == self.config
                &&& scenario.sizes == self.sizes
                &&& scenario.header == self.header
                &&& scenario.validators@.len() == session.validators@.len()
                &&& forall|i: int|
                    0 <= i < session.validators@.len() ==> {
                        &&& (#[trigger] scenario.validators@[i]).public == session.validators@[i]
                        &&& sr25519_public(scenario.validators@[i].pair.seed@)
                            == session.validators@[i]@
                    }
                &&& scenario.votes@.len() == self.sizes.max_validators
                &&& forall|i: int|
                    0 <= i < self.sizes.max_validators ==> #[trigger] scenario.votes@[i]
                &&& scenario.state.availability_cores == session.availability_cores
                &&& scenario.state.parachains == self.state.parachains
                &&& scenario.state.scheduled == self.state.scheduled
                &&& scenario.state.pending_availability == self.state.pending_availability
                &&& scenario.state.pending_availability_commitments
                    == self.state.pending_availability_commitments
                &&& scenario.state.heads == self.state.heads
                &&& scenario.state.past_code_meta == self.state.past_code_meta
                &&& scenario.state.current_code_hash == self.state.current_code_hash
            },
    {
        match check_session(
            &self.sizes,
            session.availability_cores.len(),
            session.validator_groups,
            session.session_index,
        ) {
            Err(error) => {
                return Err(error);
            },
            Ok(()) => {},
        }
        let map = ValidatorMap::new(&self.pairs);
        match find_session_validators(&session.validators, &map) {
            None => Err(SetupError::UnknownValidator),
            Some(validators) => {
                let mut state = self.state;
                state.availability_cores = session.availability_cores;
                Ok(
                    Scenario {
                        config: self.config,
                        sizes: self.sizes,
                        header: self.header,
                        validators,
                        votes: availability_votes_yes(&self.sizes),
                        state,
                    },
                )
            },
        }
    }
}

/// `scenario` is what `preparation` becomes in `session`: each validator of the session with its
/// key pair, and storage with the cores of the session.
pub open spec fn opened(
    preparation: Preparation,
    session: SessionInfo,
    scenario: Scenario,
) -> bool {
    &&& scenario.wf()
    &&& scenario.config == preparation.config
    &&& scenario.sizes == preparation.sizes
    &&& scenario.header == preparation.header
    &&& scenario.validators@.len() == session.validators@.len()
    &&& forall|i: int|
        0 <= i < session.validators@.len() ==> {
            &&& (#[trigger] scenario.validators@[i]).public == session.validators@[i]
            &&& scenario.validators@[i].pair == pairs_by_key(
                preparation.pairs@,
            )[session.validators@[i]@]
        }
    &&& scenario.state.availability_cores == session.availability_cores
    &&& same_but_cores(scenario.state, preparation.state)
}

/// In an open scenario each validator holds the pair of the key that the session lists it with,
/// all cores of the session are there, and nothing that was prepared is lost.
pub proof fn law_opening_keeps_what_was_prepared(
    preparation: Preparation,
    session: SessionInfo,
    scenario: Scenario,
    i: int,
)
    requires
        opened(preparation, session, scenario),
        preparation.knows(session.validators@),
        0 <= i < session.validators@.len(),
    ensures
        scenario.config == preparation.config,
        scenario.sizes == preparation.sizes,
        scenario.header == preparation.header,
        scenario.validators@.len() == session.validators@.len(),
        scenario.validators@[i].public@ == session.validators@[i]@,
        sr25519_public(scenario.validators@[i].pair.seed@) == session.validators@[i]@,
        scenario.votes@.len() == preparation.sizes.max_validators,
        forall|v: int| 0 <= v < scenario.votes@.len() ==> #[trigger] scenario.votes@[v],
        scenario.state.availability_cores == session.availability_cores,
        scenario.state.parachains == preparation.state.parachains,
        scenario.state.scheduled == preparation.state.scheduled,
        scenario.state.pending_availability == preparation.state.pending_availability,
        scenario.state.pending_availability_commitments
            == preparation.state.pending_availability_commitments,
        scenario.state.heads == preparation.state.heads,
        scenario.state.past_code_meta == preparation.state.past_code_meta,
        scenario.state.current_code_hash == preparation.state.current_code_hash,
{
    law_pairs_are_filed_under_their_keys(preparation.pairs@);
    assert(scenario.validators@[i].public == session.validators@[i]);
    assert(pairs_by_key(preparation.pairs@).contains_key(session.validators@[i]@));
}

/// A validator votes for a core exactly if a backed candidate takes it: the core of the backed
/// candidate numbered `s` is `s` after the first concluding one. That is core five alone, and no
/// vote is for a core below it or for the core of a disputed candidate.
pub proof fn law_votes_are_for_the_backed_cores(scenario: Scenario, core: int)
    requires
        scenario.wf(),
        0 <= core < scenario.sizes.max_cores,
    ensures
        scenario.concluding_bits().len() == scenario.sizes.max_cores,
        scenario.concluding_bits()[core] <==> exists|s: u32|
            {
                &&& s < scenario.sizes.backed
                &&& s + scenario.sizes.concluding == core
                &&& (#[trigger] backed_slot_of(scenario.sizes, s)).core.0 == core
            },
        scenario.concluding_bits()[core] <==> core == 5,
        core >= scenario.sizes.concluding + scenario.sizes.backed
            ==> !scenario.concluding_bits()[core],
        core < scenario.sizes.concluding ==> !scenario.concluding_bits()[core],
{
    if core == scenario.sizes.concluding {
        assert(backed_slot_of(scenario.sizes, 0).core.0 == core);
    }
}

/// Only storage can differ between the two scenarios.
pub open spec fn same_but_state(a: Scenario, b: Scenario) -> bool {
    &&& a.config == b.config
    &&& a.sizes == b.sizes
    &&& a.header == b.header
    &&& a.validators == b.validators
    &&& a.votes == b.votes
}

impl Scenario {
    /// The sizes, the header and the votes are those of the scenario, and it has all its cores.
    pub open spec fn wf(self) -> bool {
        &&& self.sizes.fit(self.config)
        &&& self.header.is_parent()
        &&& self.sizes.max_validators <= max_bits()
        &&& self.votes@ == repeated(true, self.sizes.max_validators as nat)
        &&& self.state.availability_cores@.len() == self.sizes.max_cores
    }

    /// The bits that every validator votes for: those of the concluding cores are set.
    pub open spec fn concluding_bits(self) -> Seq<bool> {
        Seq::new(
            self.sizes.max_cores as nat,
            |i: int| self.sizes.concluding <= i < self.sizes.first_disputed(),
        )
    }

    /// Prepares storage for the backed candidate numbered `seed`, which `group_idx` backs, and
    /// returns what its collator signs. `persisted_validation_data_hash` is the hash of what
    /// `Header::persisted_validation_data` returns.
    pub fn plan_backed(
        &mut self,
        seed: u32,
        group_idx: GroupIndex,
        persisted_validation_data_hash: H256,
    ) -> (res: CollatorPayload)
        requires
            old(self).wf(),
            seed < old(self).sizes.backed,
        ensures
            res.relay_parent@ == old(self).header.hash_bytes(),
            res.para_id == backed_slot_of(old(self).sizes, seed).para_id,
            res.persisted_validation_data_hash == persisted_validation_data_hash,
            res.pov_hash@ == zeroes(32),
            res.validation_code_hash@ == zeroes(32),
            scheduled_backed(
                old(self).state,
                final(self).state,
                backed_slot_of(old(self).sizes, seed),
                group_idx,
            ),
            same_but_state(*final(self), *old(self)),
            final(self).wf(),
            res.relay_parent@ == blake2_header_hash(
                1,
                old(self).header.extrinsics_root@,
                old(self).header.state_root@,
                old(self).header.parent_hash@,
            ),
            res.para_id.0 == seed + 5,
            forall|i: int|
                0 <= i < 32 ==> {
                    &&& #[trigger] res.pov_hash@[i] == 0
                    &&& res.validation_code_hash@[i] == 0
                },
            final(self).state.scheduled@.len() == old(self).state.scheduled@.len() + 1,
            final(self).state.scheduled@.drop_last() == old(self).state.scheduled@,
            final(self).state.scheduled@.last().core.0 == seed + 5,
            final(self).state.scheduled@.last().para_id.0 == seed + 5,
            final(self).state.scheduled@.last().group_idx == group_idx,
            final(self).state.heads@.contains_key((seed + 5) as u32),
            final(self).state.heads@[(seed + 5) as u32]@.len() == 0,
            final(self).config == old(self).config,
            final(self).sizes == old(self).sizes,
            final(self).header == old(self).header,
            final(self).validators == old(self).validators,
            final(self).votes == old(self).votes,
    {
        let slot = backed_slot(&self.sizes, seed);
        schedule_backed(&mut self.state, slot, group_idx);
        collator_payload(self.header.hash(), slot.para_id, persisted_validation_data_hash)
    }

    /// What each member of the group signs to vouch for the candidate; nothing where a member is
    /// not listed under the same key in the session and among the active validators.
    pub fn vouch(
        &self,
        candidate_hash: CandidateHash,
        group: &Vec<ValidatorIndex>,
        active: &Vec<PublicKey>,
    ) -> (res: Option<Vec<SigningRequest<CompactStatement>>>)
        ensures
            res is Some <==> group_keys_agree(group@, self.validators@, active@),
            res matches Some(requests) ==> {
                &&& requests@.len() == group@.len()
                &&& forall|i: int|
                    0 <= i < group@.len() ==> {
                        &&& (#[trigger] requests@[i]).pair
                            == self.validators@[group@[i].0 as int].pair
                        &&& requests@[i].payload == CompactStatement::Valid(candidate_hash)
                        &&& requests@[i].context.parent_hash@ == self.header.hash_bytes()
                        &&& requests@[i].context.session_index == CURRENT_SESSION
                        &&& requests@[i].validator_index == group@[i]
                        &&& requests@[i].context.session_index == 1
                        &&& requests@[i].context.parent_hash@ == blake2_header_hash(
                            self.header.number,
                            self.header.extrinsics_root@,
                            self.header.state_root@,
                            self.header.parent_hash@,
                        )
                    }
            },
            res is Some <==> forall|i: int|
                0 <= i < group@.len() ==> {
                    &&& (#[trigger] group@[i]).0 < self.validators@.len()
                    &&& group@[i].0 < active@.len()
                    &&& active@[group@[i].0 as int]@ == self.validators@[group@[i].0 as int].public@
                },
    {
        if !check_group_keys(group, &self.validators, active) {
            return None;
        }
        let context = self.header.signing_context();
        Some(validity_requests(candidate_hash, group, &self.validators, &context))
    }

    /// Occupies all cores, and returns what each validator signs to vote that the candidates on
    /// the concluding cores are available.
    pub fn vote_available(&mut self) -> (res: Vec<SigningRequest<AvailabilityBitfield>>)
        requires
            old(self).wf(),
        ensures
            res@.len() == old(self).validators@.len(),
            forall|i: int|
                0 <= i < res@.len() ==> {
                    &&& (#[trigger] res@[i]).pair == old(self).validators@[i].pair
                    &&& res@[i].payload@ == old(self).concluding_bits()
                    &&& res@[i].context.parent_hash@ == old(self).header.hash_bytes()
                    &&& res@[i].context.session_index == CURRENT_SESSION
                    &&& res@[i].validator_index == ValidatorIndex(i as u32)
                },
            final(self).state.availability_cores@ == Seq::new(
                old(self).sizes.max_cores as nat,
                |i: int| Some(CoreOccupied::Parachain),
            ),
            same_but_cores(final(self).state, old(self).state),
            same_but_state(*final(self), *old(self)),
            final(self).wf(),
            forall|i: int|
                0 <= i < res@.len() ==> {
                    &&& (#[trigger] res@[i]).payload@.len() == old(self).sizes.max_cores
                    &&& res@[i].context.session_index == 1
                    &&& res@[i].context.parent_hash@ == blake2_header_hash(
                        1,
                        old(self).header.extrinsics_root@,
                        old(self).header.state_root@,
                        old(self).header.parent_hash@,
                    )
                },
            forall|i: int, core: int|
                0 <= i < res@.len() && 0 <= core < old(self).sizes.max_cores ==> (
                #[trigger] res@[i].payload@[core] <==> old(self).sizes.concluding <= core < old(
                    self,
                ).sizes.concluding + old(self).sizes.backed),
            forall|i: int, core: int|
                0 <= i < res@.len() && 0 <= core < old(self).sizes.max_cores ==> (
                #[trigger] res@[i].payload@[core] <==> core == 5),
            final(self).state.availability_cores@.len() == old(self).sizes.max_cores,
            forall|core: int|
                0 <= core < old(self).sizes.max_cores ==>
                    #[trigger] final(self).state.availability_cores@[core] == Some(
                    CoreOccupied::Parachain,
                ),
            final(self).state.parachains == old(self).state.parachains,
            final(self).state.scheduled == old(self).state.scheduled,
            final(self).state.pending_availability == old(self).state.pending_availability,
            final(self).state.pending_availability_commitments == old(
                self,
            ).state.pending_availability_commitments,
            final(self).state.heads == old(self).state.heads,
            final(self).state.past_code_meta == old(self).state.past_code_meta,
            final(self).state.current_code_hash == old(self).state.current_code_hash,
            final(self).config == old(self).config,
            final(self).sizes == old(self).sizes,
            final(self).header == old(self).header,
            final(self).validators == old(self).validators,
            final(self).votes == old(self).votes,
    {
        let concluding = concluding_cores(&self.sizes);
        let ghost cores = concluding@;
        let bitfield = availability_bitvec(&mut self.state, self.sizes.max_cores, concluding);
        proof {
            assert(self.state.availability_cores@ =~= Seq::new(
                self.sizes.max_cores as nat,
                |i: int| Some(CoreOccupied::Parachain),
            ));
            assert forall|i: int| 0 <= i < self.sizes.max_cores implies bitfield@[i]
                == self.concluding_bits()[i] by {
                if self.sizes.concluding <= i < self.sizes.first_disputed() {
                    assert(cores[i - self.sizes.concluding] == i as u32);
                }
            }
            assert(bitfield@ =~= self.concluding_bits());
        }
        let context = self.header.signing_context();
        bitfield_requests(&bitfield, &self.validators, &context)
    }

    /// Makes the concluding and the disputed candidates wait for availability, disputes the
    /// latter, and puts the inherent together. `signing_bytes` holds, for each disputed candidate
    /// in order, the bytes that the statements on it sign.
    pub fn enter_max_disputed(
        &mut self,
        bitfields: Vec<UncheckedSigned<AvailabilityBitfield>>,
        backed_candidates: Vec<BackedCandidate>,
        signing_bytes: &Vec<Vec<u8>>,
    ) -> (res: ParachainsInherentData)
        requires
            old(self).wf(),
            signing_bytes@.len() == old(self).sizes.disputed,
            forall|k: int|
                0 <= k < signing_bytes@.len() ==> (#[trigger] signing_bytes@[k])@.len()
                    <= u32::MAX,
            forall|k: int|
                0 <= k < old(self).sizes.disputed ==> #[trigger] statement_count(
                    old(self).sizes,
                    old(self).config.dispute_max_spam_slots,
                    k,
                ) <= old(self).validators@.len(),
        ensures
            res.bitfields == bitfields,
            res.backed_candidates == backed_candidates,
            res.parent_header == old(self).header,
            res.disputes@.len() == old(self).sizes.disputed,
            forall|k: int|
                0 <= k < res.disputes@.len() ==> disputes_candidate(
                    #[trigger] res.disputes@[k],
                    old(self).sizes,
                    old(self).config.dispute_max_spam_slots,
                    CURRENT_SESSION,
                    old(self).validators@,
                    signing_bytes@[k]@,
                    k,
                ),
            added_candidates(
                old(self).state,
                final(self).state,
                old(self).sizes.concluding as int,
                old(self).sizes.max_candidates as int,
                old(self).votes@,
            ),
            final(self).state.availability_cores@ == occupied(
                old(self).state.availability_cores@,
                old(self).sizes.concluding as int,
                old(self).sizes.first_disputed(),
            ),
            final(self).state.parachains == old(self).state.parachains,
            final(self).state.scheduled == old(self).state.scheduled,
            final(self).state.heads == old(self).state.heads,
            final(self).state.past_code_meta == old(self).state.past_code_meta,
            final(self).state.current_code_hash == old(self).state.current_code_hash,
            same_but_state(*final(self), *old(self)),
            final(self).wf(),
            res.disputes@.len() + 6 == old(self).sizes.max_cores,
            forall|k: int|
                0 <= k < res.disputes@.len() ==> {
                    let validators: int = match old(self).config.max_validators {
                        Some(n) => n as int,
                        None => 200,
                    };
                    &&& (#[trigger] res.disputes@[k]).statements@.len() == if k < old(
                        self,
                    ).config.dispute_max_spam_slots {
                        validators / 3
                    } else {
                        validators
                    }
                    &&& res.disputes@[k].session == 1
                    &&& res.disputes@[k].candidate_hash.0@ == seed_hash((k + 6) as u32)
                },
            forall|k: int, j: int|
                0 <= k < res.disputes@.len() && 0 <= j < res.disputes@[k].statements@.len() ==> {
                    &&& (#[trigger] res.disputes@[k].statements@[j]).0 == DisputeStatement::Invalid(
                        InvalidDisputeStatementKind::Explicit,
                    )
                    &&& res.disputes@[k].statements@[j].1.0 == j
                    &&& sr25519_verifies(
                        res.disputes@[k].statements@[j].2@,
                        signing_bytes@[k]@,
                        sr25519_public(old(self).validators@[j].pair.seed@),
                    )
                },
            forall|s: u32|
                #[trigger] final(self).state.pending_availability@.contains_key(s) <==> {
                    ||| old(self).state.pending_availability@.contains_key(s)
                    ||| 5 <= s < old(self).sizes.max_cores
                },
            forall|s: u32|
                #[trigger] final(self).state.pending_availability_commitments@.contains_key(s) <==> {
                    ||| old(self).state.pending_availability_commitments@.contains_key(s)
                    ||| 5 <= s < old(self).sizes.max_cores
                },
            forall|s: u32|
                5 <= s < old(self).sizes.max_cores ==> {
                    &&& (#[trigger] final(self).state.pending_availability@[s]).core.0 == s
                    &&& final(self).state.pending_availability@[s].backing_group.0 == s
                    &&& final(self).state.pending_availability@[s].hash.0@ == seed_hash(s)
                    &&& final(self).state.pending_availability@[s].availability_votes@ == old(
                        self,
                    ).votes@
                },
            final(self).state.availability_cores@.len() == old(self).sizes.max_cores,
            forall|core: int|
                0 <= core < old(self).sizes.max_cores ==>
                    #[trigger] final(self).state.availability_cores@[core] == if core == 5 {
                    Some(CoreOccupied::Parachain)
                } else {
                    old(self).state.availability_cores@[core]
                },
            final(self).config == old(self).config,
            final(self).sizes == old(self).sizes,
            final(self).header == old(self).header,
            final(self).validators == old(self).validators,
            final(self).votes == old(self).votes,
    {
        add_concluding(&mut self.state, &self.sizes, &self.votes);
        let ghost between = self.state;
        let disputes = build_disputes(
            &mut self.state,
            &self.sizes,
            self.config.dispute_max_spam_slots,
            CURRENT_SESSION,
            &self.votes,
            &self.validators,
            signing_bytes,
        );
        proof {
            lemma_added_append(
                old(self).state,
                between,
                self.state,
                self.sizes.concluding as int,
                self.sizes.first_disputed(),
                self.sizes.max_candidates as int,
                self.votes@,
            );
            assert forall|s: u32| 5 <= s < self.sizes.max_cores implies {
                let candidate = #[trigger] self.state.pending_availability@[s];
                &&& candidate.core.0 == s
                &&& candidate.backing_group.0 == s
                &&& candidate.hash.0@ == seed_hash(s)
                &&& candidate.availability_votes@ == old(self).votes@
            } by {
                law_mock_candidate_holds_its_parts(
                    self.state.pending_availability@[s],
                    s,
                    seed_hash(s),
                    self.votes@,
                );
            }
        }
        ParachainsInherentData {
            bitfields,
            backed_candidates,
            disputes,
            parent_header: self.header,
        }
    }
}

} // verus!
