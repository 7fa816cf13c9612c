//! The candidates that conclude, those that are disputed, and the statements that dispute them.

use crate::availability::{
    add_availability, added_candidates, candidate_hash_of_seed, law_candidate_hashes_differ,
    occupied, same_but_pending, seed_hash,
};
use crate::bits::{bitvec_clone, bitvec_repeat, max_bits, repeated, BitVector};
use crate::crypto::{sr25519_public, sr25519_verifies, Signature};
use crate::primitives::{
    CandidateHash, CoreOccupied, DisputeStatement, DisputeStatementSet,
    InvalidDisputeStatementKind, ValidatorIndex,
};
use crate::sizes::{
    law_sizes_are_those_of_the_configuration, BenchmarkSizes, HostConfiguration,
};
use crate::storage::ParachainsState;
use crate::validators::SessionValidator;
use vstd::prelude::*;
use vstd::set_lib::{lemma_int_range, set_int_range};

verus! {

/// The votes of all validators that a candidate is available.
pub fn availability_votes_yes(sizes: &BenchmarkSizes) -> (res: BitVector)
    requires
        sizes.max_validators <= max_bits(),
    ensures
        res@ == repeated(true, sizes.max_validators as nat),
        res@.len() == sizes.max_validators,
        forall|i: int| 0 <= i < sizes.max_validators ==> #[trigger] res@[i],
{
    bitvec_repeat(true, sizes.max_validators as usize)
}

/// The cores whose candidates conclude.
pub fn concluding_cores(sizes: &BenchmarkSizes) -> (res: Vec<u32>)
    requires
        sizes.wf(),
    ensures
        res@ == Seq::new(sizes.backed as nat, |i: int| (sizes.concluding + i) as u32),
{
    let mut cores: Vec<u32> = Vec::new();
    for core in sizes.concluding..sizes.concluding + sizes.backed
        invariant
            sizes.wf(),
            cores@ =~= Seq::new(
                (core - sizes.concluding) as nat,
                |i: int| (sizes.concluding + i) as u32,
            ),
    {
        cores.push(core);
    }
    cores
}

proof fn lemma_added_none(state: ParachainsState, lo: int, votes: Seq<bool>)
    ensures
        added_candidates(state, state, lo, lo, votes),
{
    let none = Set::new(|s: u32| lo <= s < lo);
    assert(state.pending_availability@.dom().union(none) =~= state.pending_availability@.dom());
    assert(state.pending_availability_commitments@.dom().union(none)
        =~= state.pending_availability_commitments@.dom());
}

proof fn lemma_added_one(
    start: ParachainsState,
    before: ParachainsState,
    after: ParachainsState,
    lo: int,
    seed: u32,
    votes: Seq<bool>,
)
    requires
        lo <= seed,
        added_candidates(start, before, lo, seed as int, votes),
        after.pending_availability@ == before.pending_availability@.insert(
            seed,
            after.pending_availability@[seed],
        ),
        after.pending_availability@[seed].is_mock(seed, seed_hash(seed), votes),
        after.pending_availability_commitments@ == before.pending_availability_commitments@.insert(
            seed,
            after.pending_availability_commitments@[seed],
        ),
        after.pending_availability_commitments@[seed].is_empty_at(0),
    ensures
        added_candidates(start, after, lo, seed + 1, votes),
{
    let old_range = Set::new(|s: u32| lo <= s < seed);
    let new_range = Set::new(|s: u32| lo <= s < seed + 1);
    assert(old_range.insert(seed) =~= new_range);
    assert(after.pending_availability@.dom() =~= start.pending_availability@.dom().union(
        new_range,
    ));
    assert(after.pending_availability_commitments@.dom()
        =~= start.pending_availability_commitments@.dom().union(new_range));
    assert forall|s: u32| lo <= s < seed + 1 implies {
        &&& (#[trigger] after.pending_availability@[s]).is_mock(s, seed_hash(s), votes)
        &&& after.pending_availability_commitments@[s].is_empty_at(0)
    } by {
        if s != seed {
            assert(before.pending_availability@[s].is_mock(s, seed_hash(s), votes));
        }
    }
    assert forall|s: u32| !(lo <= s < seed + 1) implies {
        &&& #[trigger] after.pending_availability@[s] == start.pending_availability@[s]
        &&& after.pending_availability_commitments@[s]
            == start.pending_availability_commitments@[s]
    } by {
        assert(before.pending_availability@[s] == start.pending_availability@[s]);
    }
}

/// Makes the concluding candidates wait for availability and occupies their cores.
pub fn add_concluding(state: &mut ParachainsState, sizes: &BenchmarkSizes, votes: &BitVector)
    requires
        sizes.wf(),
        sizes.first_disputed() <= old(state).availability_cores@.len(),
    ensures
        added_candidates(
            *old(state),
            *final(state),
            sizes.concluding as int,
            sizes.first_disputed(),
            votes@,
        ),
        final(state).availability_cores@ == occupied(
            old(state).availability_cores@,
            sizes.concluding as int,
            sizes.first_disputed(),
        ),
        final(state).availability_cores@.len() == old(state).availability_cores@.len(),
        forall|i: int|
            0 <= i < old(state).availability_cores@.len() ==>
                #[trigger] final(state).availability_cores@[i] == if sizes.concluding <= i
                < sizes.concluding + sizes.backed {
                Some(CoreOccupied::Parachain)
            } else {
                old(state).availability_cores@[i]
            },
        final(state).parachains == old(state).parachains,
        final(state).scheduled == old(state).scheduled,
        final(state).heads == old(state).heads,
        final(state).past_code_meta == old(state).past_code_meta,
        final(state).current_code_hash == old(state).current_code_hash,
{
    proof {
        lemma_added_none(*state, sizes.concluding as int, votes@);
    }
    for seed in sizes.concluding..sizes.concluding + sizes.backed
        invariant
            sizes.wf(),
            sizes.first_disputed() <= old(state).availability_cores@.len(),
            added_candidates(
                *old(state),
                *state,
                sizes.concluding as int,
                seed as int,
                votes@,
            ),
            state.availability_cores@ =~= occupied(
                old(state).availability_cores@,
                sizes.concluding as int,
                seed as int,
            ),
            state.parachains == old(state).parachains,
            state.scheduled == old(state).scheduled,
            state.heads == old(state).heads,
            state.past_code_meta == old(state).past_code_meta,
            state.current_code_hash == old(state).current_code_hash,
    {
        let ghost before = *state;
        let hash = candidate_hash_of_seed(seed);
        add_availability(state, seed, bitvec_clone(votes), hash);
        state.availability_cores.set(seed as usize, Some(CoreOccupied::Parachain));
        proof {
            lemma_added_one(*old(state), before, *state, sizes.concluding as int, seed, votes@);
        }
    }
}

/// How many statements the dispute numbered `k` gets: as many as still count as potential spam
/// while there are spam slots left, and one of every validator after that.
pub open spec fn statement_count(sizes: BenchmarkSizes, max_spam_slots: u32, k: int) -> u32 {
    if k < max_spam_slots {
        sizes.byzantine_statement_thresh
    } else {
        sizes.max_statements
    }
}

/// What the signature of a dispute statement covers.
#[derive(Clone, Copy, Debug, PartialEq, Eq)]
pub struct DisputePayload {
    pub statement: DisputeStatement,
    pub candidate_hash: CandidateHash,
    pub session: u32,
}

/// What has to be signed to dispute each of the disputed candidates as invalid, in order.
pub fn dispute_payloads(sizes: &BenchmarkSizes, session: u32) -> (res: Vec<DisputePayload>)
    requires
        sizes.wf(),
    ensures
        res@.len() == sizes.disputed,
        forall|k: int|
            0 <= k < sizes.disputed ==> {
                &&& (#[trigger] res@[k]).statement == DisputeStatement::Invalid(
                    InvalidDisputeStatementKind::Explicit,
                )
                &&& res@[k].candidate_hash.0@ == seed_hash((sizes.first_disputed() + k) as u32)
                &&& res@[k].candidate_hash.0@ == seed_hash(
                    (sizes.concluding + sizes.backed + k) as u32,
                )
                &&& res@[k].session == session
            },
{
    let mut payloads: Vec<DisputePayload> = Vec::new();
    let first: u32 = sizes.concluding + sizes.backed;
    for seed in first..sizes.max_candidates
        invariant
            sizes.wf(),
            first == sizes.first_disputed(),
            payloads@.len() == seed - first,
            forall|k: int|
                0 <= k < seed - first ==> {
                    &&& (#[trigger] payloads@[k]).statement == DisputeStatement::Invalid(
                        InvalidDisputeStatementKind::Explicit,
                    )
                    &&& payloads@[k].candidate_hash.0@ == seed_hash(
                        (sizes.first_disputed() + k) as u32,
                    )
                    &&& payloads@[k].session == session
                },
    {
        payloads.push(
            DisputePayload {
                statement: DisputeStatement::Invalid(InvalidDisputeStatementKind::Explicit),
                candidate_hash: candidate_hash_of_seed(seed),
                session,
            },
        );
    }
    payloads
}

/// The first `count` validators, in order, each dispute the candidate as invalid and sign
/// `payload`.
pub open spec fn votes_invalid(
    statements: Seq<(DisputeStatement, ValidatorIndex, Signature)>,
    validators: Seq<SessionValidator>,
    payload: Seq<u8>,
    count: u32,
) -> bool {
    &&& statements.len() == count
    &&& forall|j: int|
        0 <= j < count ==> {
            &&& (#[trigger] statements[j]).0 == DisputeStatement::Invalid(
                InvalidDisputeStatementKind::Explicit,
            )
            &&& statements[j].1 == ValidatorIndex(j as u32)
            &&& validators[j].pair.signed(payload, statements[j].2)
        }
}

/// The statements of the first `count` validators that the candidate is invalid.
pub fn dispute_statements(
    validators: &Vec<SessionValidator>,
    payload: &Vec<u8>,
    count: u32,
) -> (res: Vec<(DisputeStatement, ValidatorIndex, Signature)>)
    requires
        count <= validators@.len(),
        count > 0 ==> payload@.len() <= u32::MAX,
    ensures
        votes_invalid(res@, validators@, payload@, count),
        res@.len() == count,
        forall|j: int|
            0 <= j < count ==> {
                &&& (#[trigger] res@[j]).0 == DisputeStatement::Invalid(
                    InvalidDisputeStatementKind::Explicit,
                )
                &&& res@[j].1.0 == j
                &&& sr25519_verifies(
                    res@[j].2@,
                    payload@,
                    sr25519_public(validators@[j].pair.seed@),
                )
            },
{
    let mut statements: Vec<(DisputeStatement, ValidatorIndex, Signature)> = Vec::new();
    for validator_index in 0..count
        invariant
            count <= validators@.len(),
            count > 0 ==> payload@.len() <= u32::MAX,
            votes_invalid(statements@, validators@, payload@, validator_index),
    {
        let signature = validators[validator_index as usize].pair.sign(payload);
        statements.push(
            (
                DisputeStatement::Invalid(InvalidDisputeStatementKind::Explicit),
                ValidatorIndex(validator_index),
                signature,
            ),
        );
    }
    statements
}

/// Whether `available` validators are enough for the statements of every dispute.
pub fn enough_validators(sizes: &BenchmarkSizes, max_spam_slots: u32, available: usize) -> (res:
    bool)
    ensures
        res <==> forall|k: int|
            0 <= k < sizes.disputed ==> #[trigger] statement_count(*sizes, max_spam_slots, k)
                <= available,
        res <==> {
            &&& max_spam_slots > 0 && sizes.disputed > 0 ==> sizes.byzantine_statement_thresh
                <= available
            &&& sizes.disputed > max_spam_slots ==> sizes.max_statements <= available
        },
{
    let spam = max_spam_slots > 0 && sizes.disputed > 0;
    let full = sizes.disputed > max_spam_slots;
    proof {
        if spam {
            assert(statement_count(*sizes, max_spam_slots, 0) == sizes.byzantine_statement_thresh);
        }
        if full {
            assert(statement_count(*sizes, max_spam_slots, max_spam_slots as int)
                == sizes.max_statements);
        }
    }
    (!spam || sizes.byzantine_statement_thresh as usize <= available) && (!full
        || sizes.max_statements as usize <= available)
}

/// The set `k` disputes the candidate numbered `k` among the disputed ones.
pub open spec fn disputes_candidate(
    set: DisputeStatementSet,
    sizes: BenchmarkSizes,
    max_spam_slots: u32,
    session: u32,
    validators: Seq<SessionValidator>,
    payload: Seq<u8>,
    k: int,
) -> bool {
    &&& set.candidate_hash.0@ == seed_hash((sizes.first_disputed() + k) as u32)
    &&& set.session == session
    &&& votes_invalid(
        set.statements@,
        validators,
        payload,
        statement_count(sizes, max_spam_slots, k),
    )
}

/// Makes every disputed candidate wait for availability and disputes it; `payloads` holds the
/// bytes that the statements on each of them sign.
pub fn build_disputes(
    state: &mut ParachainsState,
    sizes: &BenchmarkSizes,
    max_spam_slots: u32,
    session: u32,
    votes: &BitVector,
    validators: &Vec<SessionValidator>,
    payloads: &Vec<Vec<u8>>,
) -> (res: Vec<DisputeStatementSet>)
    requires
        sizes.wf(),
        payloads@.len() == sizes.disputed,
        forall|k: int|
            0 <= k < payloads@.len() ==> (#[trigger] payloads@[k])@.len() <= u32::MAX,
        forall|k: int|
            0 <= k < sizes.disputed ==> #[trigger] statement_count(*sizes, max_spam_slots, k)
                <= validators@.len(),
    ensures
        res@.len() == sizes.disputed,
        forall|k: int|
            0 <= k < sizes.disputed ==> disputes_candidate(
                #[trigger] res@[k],
                *sizes,
                max_spam_slots,
                session,
                validators@,
                payloads@[k]@,
                k,
            ),
        res@.len() + sizes.concluding + sizes.backed == sizes.max_candidates,
        forall|k: int|
            0 <= k < res@.len() && k < max_spam_slots ==> (#[trigger] res@[k]).statements@.len()
                == sizes.max_validators / 3,
        forall|k: int|
            0 <= k < res@.len() && k >= max_spam_slots ==> (#[trigger] res@[k]).statements@.len()
                == sizes.max_validators,
        forall|k: int|
            0 <= k < res@.len() ==> {
                &&& (#[trigger] res@[k]).session == session
                &&& res@[k].candidate_hash.0@ == seed_hash(
                    (sizes.concluding + sizes.backed + k) as u32,
                )
            },
        forall|k: int, j: int|
            0 <= k < res@.len() && 0 <= j < res@[k].statements@.len() ==> {
                &&& (#[trigger] res@[k].statements@[j]).0 == DisputeStatement::Invalid(
                    InvalidDisputeStatementKind::Explicit,
                )
                &&& res@[k].statements@[j].1.0 == j
                &&& sr25519_verifies(
                    res@[k].statements@[j].2@,
                    payloads@[k]@,
                    sr25519_public(validators@[j].pair.seed@),
                )
            },
        final(state).parachains == old(state).parachains,
        final(state).availability_cores == old(state).availability_cores,
        final(state).scheduled == old(state).scheduled,
        final(state).heads == old(state).heads,
        final(state).past_code_meta == old(state).past_code_meta,
        final(state).current_code_hash == old(state).current_code_hash,
        added_candidates(
            *old(state),
            *final(state),
            sizes.first_disputed(),
            sizes.max_candidates as int,
            votes@,
        ),
        same_but_pending(*final(state), *old(state)),
{
    proof {
        lemma_added_none(*state, sizes.first_disputed(), votes@);
    }
    let mut spam_count: u32 = 0;
    let mut disputes: Vec<DisputeStatementSet> = Vec::new();
    let first: u32 = sizes.concluding + sizes.backed;
    for seed in first..sizes.max_candidates
        invariant
            sizes.wf(),
            first == sizes.first_disputed(),
            payloads@.len() == sizes.disputed,
            forall|k: int|
                0 <= k < payloads@.len() ==> (#[trigger] payloads@[k])@.len() <= u32::MAX,
            forall|k: int|
                0 <= k < sizes.disputed ==> #[trigger] statement_count(*sizes, max_spam_slots, k)
                    <= validators@.len(),
            spam_count == if seed - first < max_spam_slots {
                seed - first
            } else {
                max_spam_slots as int
            },
            disputes@.len() == seed - first,
            forall|k: int|
                0 <= k < seed - first ==> disputes_candidate(
                    #[trigger] disputes@[k],
                    *sizes,
                    max_spam_slots,
                    session,
                    validators@,
                    payloads@[k]@,
                    k,
                ),
            added_candidates(*old(state), *state, first as int, seed as int, votes@),
            same_but_pending(*state, *old(state)),
    {
        let ghost before = *state;
        let ghost k = seed - first;
        let hash = candidate_hash_of_seed(seed);
        let candidate_hash = add_availability(state, seed, bitvec_clone(votes), hash);
        let count: u32 = if spam_count < max_spam_slots {
            sizes.byzantine_statement_thresh
        } else {
            sizes.max_statements
        };
        assert(count == statement_count(*sizes, max_spam_slots, k));
        assert(payloads@[k]@.len() <= u32::MAX);
        let statements = dispute_statements(validators, &payloads[(seed - first) as usize], count);
        if spam_count < max_spam_slots {
            spam_count = spam_count + 1;
        }
        disputes.push(DisputeStatementSet { candidate_hash, session, statements });
        proof {
            lemma_added_one(*old(state), before, *state, first as int, seed, votes@);
        }
    }
    proof {
        assert forall|k: int| 0 <= k < disputes@.len() implies disputes_in_numbers(
            #[trigger] disputes@[k],
            *sizes,
            max_spam_slots,
            session,
            validators@,
            payloads@[k]@,
            k,
        ) by {
            law_dispute_set_in_numbers(
                disputes@[k],
                *sizes,
                max_spam_slots,
                session,
                validators@,
                payloads@[k]@,
                k,
            );
        }
    }
    disputes
}

spec fn disputes_in_numbers(
    set: DisputeStatementSet,
    sizes: BenchmarkSizes,
    max_spam_slots: u32,
    session: u32,
    validators: Seq<SessionValidator>,
    payload: Seq<u8>,
    k: int,
) -> bool {
    &&& set.statements@.len() == if k < max_spam_slots {
        sizes.max_validators / 3
    } else {
        sizes.max_validators
    }
    &&& set.session == session
    &&& set.candidate_hash.0@ == seed_hash((sizes.concluding + sizes.backed + k) as u32)
    &&& forall|j: int|
        0 <= j < set.statements@.len() ==> {
            &&& (#[trigger] set.statements@[j]).0 == DisputeStatement::Invalid(
                InvalidDisputeStatementKind::Explicit,
            )
            &&& set.statements@[j].1.0 == j
            &&& sr25519_verifies(
                set.statements@[j].2@,
                payload,
                sr25519_public(validators[j].pair.seed@),
            )
        }
}

/// A dispute set in numbers: a third of the validators speak while spam slots last and all of them
/// after that, the validators from the first one on in order, each disputing the candidate as
/// invalid and signing the payload with its own key.
pub proof fn law_dispute_set_in_numbers(
    set: DisputeStatementSet,
    sizes: BenchmarkSizes,
    max_spam_slots: u32,
    session: u32,
    validators: Seq<SessionValidator>,
    payload: Seq<u8>,
    k: int,
)
    requires
        sizes.wf(),
        disputes_candidate(set, sizes, max_spam_slots, session, validators, payload, k),
    ensures
        k < max_spam_slots ==> set.statements@.len() == sizes.max_validators / 3,
        k >= max_spam_slots ==> set.statements@.len() == sizes.max_validators,
        set.session == session,
        set.candidate_hash.0@ == seed_hash((sizes.concluding + sizes.backed + k) as u32),
        forall|j: int|
            0 <= j < set.statements@.len() ==> {
                &&& (#[trigger] set.statements@[j]).0 == DisputeStatement::Invalid(
                    InvalidDisputeStatementKind::Explicit,
                )
                &&& set.statements@[j].1.0 == j
                &&& sr25519_verifies(
                    set.statements@[j].2@,
                    payload,
                    sr25519_public(validators[j].pair.seed@),
                )
            },
{
}

/// Of the dispute sets that are built, the small ones in which a validator of the first third
/// speaks are exactly those before the spam slots run out, and a validator beyond the first third
/// speaks in none of them. All numbers are those of the configuration: `third` is a third of the
/// validators, and there are six fewer disputes than cores.
pub proof fn law_built_disputes_use_up_the_spam_slots(
    config: HostConfiguration,
    sizes: BenchmarkSizes,
    session: u32,
    validators: Seq<SessionValidator>,
    payloads: Seq<Seq<u8>>,
    sets: Seq<DisputeStatementSet>,
    validator: int,
)
    requires
        config.supports_scenario(),
        sizes.fit(config),
        sets.len() == sizes.disputed,
        forall|k: int|
            0 <= k < sets.len() ==> disputes_candidate(
                #[trigger] sets[k],
                sizes,
                config.dispute_max_spam_slots,
                session,
                validators,
                payloads[k],
                k,
            ),
        0 <= validator,
    ensures
        ({
            let count: int = match config.max_validators {
                Some(n) => n as int,
                None => 200,
            };
            let third = count / 3;
            let slots = config.dispute_max_spam_slots as int;
            let spam = if sets.len() < slots {
                sets.len() as int
            } else {
                slots
            };
            let speaks_in_small = Set::new(
                |k: int|
                    {
                        &&& 0 <= k < sets.len()
                        &&& sets[k].statements@.len() <= third
                        &&& exists|j: int|
                            0 <= j < sets[k].statements@.len() && (
                            #[trigger] sets[k].statements@[j]).1.0 == validator
                    },
            );
            &&& sets.len() + 6 == sizes.max_cores
            &&& forall|k: int|
                0 <= k < sets.len() ==> (#[trigger] sets[k]).statements@.len() == if k < slots {
                    third
                } else {
                    count
                }
            &&& validator < third ==> {
                &&& speaks_in_small == set_int_range(0, spam)
                &&& speaks_in_small.finite()
                &&& speaks_in_small.len() == spam
            }
            &&& validator >= third ==> speaks_in_small == Set::<int>::empty()
        }),
{
    law_sizes_are_those_of_the_configuration(config, sizes);
    let count: int = match config.max_validators {
        Some(n) => n as int,
        None => 200,
    };
    let third = count / 3;
    let slots = config.dispute_max_spam_slots as int;
    let spam = if sets.len() < slots {
        sets.len() as int
    } else {
        slots
    };
    let speaks_in_small = Set::new(
        |k: int|
            {
                &&& 0 <= k < sets.len()
                &&& sets[k].statements@.len() <= third
                &&& exists|j: int|
                    0 <= j < sets[k].statements@.len() && (
                    #[trigger] sets[k].statements@[j]).1.0 == validator
            },
    );
    assert forall|k: int| 0 <= k < sets.len() implies {
        &&& (#[trigger] sets[k]).statements@.len() == if k < slots {
            third
        } else {
            count
        }
        &&& forall|j: int|
            0 <= j < sets[k].statements@.len() ==> (#[trigger] sets[k].statements@[j]).1.0 == j
    } by {
        law_dispute_set_in_numbers(
            sets[k],
            sizes,
            config.dispute_max_spam_slots,
            session,
            validators,
            payloads[k],
            k,
        );
    }
    if validator < third {
        assert forall|k: int| #![trigger speaks_in_small.contains(k)]
            speaks_in_small.contains(k) <==> set_int_range(0, spam).contains(k) by {
            if 0 <= k < spam {
                assert(sets[k].statements@.len() == third);
                assert(sets[k].statements@[validator].1.0 == validator);
            }
        }
        assert(speaks_in_small =~= set_int_range(0, spam));
        lemma_int_range(0, spam);
    } else {
        assert forall|k: int| !(#[trigger] speaks_in_small.contains(k)) by {
            if speaks_in_small.contains(k) {
                let j = choose|j: int|
                    0 <= j < sets[k].statements@.len() && (
                    #[trigger] sets[k].statements@[j]).1.0 == validator;
                assert(sets[k].statements@[j].1.0 == j);
            }
        }
        assert(speaks_in_small =~= Set::<int>::empty());
    }
}

/// What the statements of a dispute have to sign is about the dispute's own candidate and session.
pub proof fn law_payloads_are_about_their_disputes(
    sizes: BenchmarkSizes,
    max_spam_slots: u32,
    session: u32,
    validators: Seq<SessionValidator>,
    bytes: Seq<u8>,
    payloads: Vec<DisputePayload>,
    set: DisputeStatementSet,
    k: int,
)
    requires
        sizes.wf(),
        call_ensures(dispute_payloads, (&sizes, session), payloads),
        disputes_candidate(set, sizes, max_spam_slots, session, validators, bytes, k),
        0 <= k < sizes.disputed,
    ensures
        payloads@.len() == sizes.disputed,
        payloads@[k].candidate_hash.0@ == set.candidate_hash.0@,
        payloads@[k].session == set.session,
        forall|j: int|
            0 <= j < set.statements@.len() ==> (#[trigger] set.statements@[j]).0
                == payloads@[k].statement,
{
    assert(payloads@[k].session == session);
}

/// In how many of the sets that count as potential spam the validator numbered `validator` has a
/// statement.
pub open spec fn spam_votes(
    sets: Seq<DisputeStatementSet>,
    sizes: BenchmarkSizes,
    validator: int,
) -> int
    decreases sets.len(),
{
    if sets.len() == 0 {
        0
    } else {
        spam_votes(sets.drop_last(), sizes, validator) + if validator
            < sets.last().statements@.len() <= sizes.byzantine_statement_thresh {
            1int
        } else {
            0int
        }
    }
}

/// Exactly the disputes that come before the spam slots run out count as potential spam; each of
/// the others has a statement of every validator, which is a super majority.
pub proof fn law_spam_stops_at_the_limit(sizes: BenchmarkSizes, max_spam_slots: u32, k: int)
    requires
        sizes.wf(),
        sizes.max_validators > 0,
    ensures
        statement_count(sizes, max_spam_slots, k) <= sizes.byzantine_statement_thresh <==> k
            < max_spam_slots,
        k >= max_spam_slots ==> {
            &&& statement_count(sizes, max_spam_slots, k) == sizes.max_validators
            &&& 3 * statement_count(sizes, max_spam_slots, k) > 2 * sizes.max_validators
        },
{
}

/// The validators below the byzantine threshold use up their spam slots, as far as there are
/// disputes for it, and no other validator uses any.
pub proof fn law_spam_slots_are_used_up(
    sets: Seq<DisputeStatementSet>,
    sizes: BenchmarkSizes,
    max_spam_slots: u32,
    validator: int,
)
    requires
        sizes.wf(),
        sizes.max_validators > 0,
        0 <= validator < sizes.max_validators,
        forall|k: int|
            0 <= k < sets.len() ==> (#[trigger] sets[k]).statements@.len() == statement_count(
                sizes,
                max_spam_slots,
                k,
            ),
    ensures
        spam_votes(sets, sizes, validator) == if validator < sizes.byzantine_statement_thresh {
            if sets.len() < max_spam_slots {
                sets.len() as int
            } else {
                max_spam_slots as int
            }
        } else {
            0
        },
    decreases sets.len(),
{
    if sets.len() > 0 {
        let rest = sets.drop_last();
        assert forall|k: int| 0 <= k < rest.len() implies (#[trigger] rest[k]).statements@.len()
            == statement_count(sizes, max_spam_slots, k) by {
            assert(rest[k] == sets[k]);
        }
        law_spam_slots_are_used_up(rest, sizes, max_spam_slots, validator);
        assert(sets.last() == sets[sets.len() - 1]);
    }
}

/// Where each validator holds the key pair of the key that it is listed with, every statement on
/// a disputed candidate verifies under the key listed at the statement's own index.
pub proof fn law_statements_verify_under_the_listed_keys(
    statements: Seq<(DisputeStatement, ValidatorIndex, Signature)>,
    validators: Seq<SessionValidator>,
    payload: Seq<u8>,
    count: u32,
    j: int,
)
    requires
        votes_invalid(statements, validators, payload, count),
        count <= validators.len(),
        forall|i: int|
            0 <= i < validators.len() ==> (#[trigger] validators[i]).pair.public_key()
                == validators[i].public@,
        0 <= j < statements.len(),
    ensures
        statements[j].1.0 < validators.len(),
        sr25519_verifies(
            statements[j].2@,
            payload,
            validators[statements[j].1.0 as int].public@,
        ),
{
    assert(validators[j].pair.public_key() == validators[j].public@);
}

/// The disputes are on different candidates.
pub proof fn law_each_candidate_is_disputed_once(
    sets: Seq<DisputeStatementSet>,
    sizes: BenchmarkSizes,
    i: int,
    j: int,
)
    requires
        sizes.wf(),
        sets.len() == sizes.disputed,
        forall|k: int|
            0 <= k < sets.len() ==> (#[trigger] sets[k]).candidate_hash.0@ == seed_hash(
                (sizes.first_disputed() + k) as u32,
            ),
        0 <= i < j < sets.len(),
    ensures
        sets[i].candidate_hash != sets[j].candidate_hash,
{
    law_candidate_hashes_differ(
        (sizes.first_disputed() + i) as u32,
        (sizes.first_disputed() + j) as u32,
    );
}

/// The parachains numbered from `lo` up to `hi`.
pub open spec fn para_range(lo: int, hi: int) -> Set<u32> {
    Set::new(|s: u32| lo <= s < hi)
}

proof fn lemma_para_range_len(lo: int, hi: int)
    requires
        0 <= lo <= hi <= u32::MAX + 1,
    ensures
        para_range(lo, hi).finite(),
        para_range(lo, hi).len() == hi - lo,
    decreases hi - lo,
{
    if lo == hi {
        assert(para_range(lo, hi) =~= Set::<u32>::empty());
    } else {
        lemma_para_range_len(lo, hi - 1);
        assert(para_range(lo, hi) =~= para_range(lo, hi - 1).insert((hi - 1) as u32));
    }
}

/// Where nothing waited for availability before the candidates from the first concluding one on
/// were added: once the disputed candidates are taken out again, exactly the concluding ones
/// still wait, with their commitments, and they are as many as there are backed candidates.
pub proof fn law_backed_candidates_remain_pending(
    before: ParachainsState,
    after: ParachainsState,
    sizes: BenchmarkSizes,
    votes: Seq<bool>,
)
    requires
        sizes.wf(),
        before.pending_availability@.dom() == Set::<u32>::empty(),
        before.pending_availability_commitments@.dom() == Set::<u32>::empty(),
        added_candidates(
            before,
            after,
            sizes.concluding as int,
            sizes.max_candidates as int,
            votes,
        ),
    ensures
        ({
            let disputed = para_range(sizes.first_disputed(), sizes.max_candidates as int);
            let pending = after.pending_availability@.dom().difference(disputed);
            let commitments = after.pending_availability_commitments@.dom().difference(disputed);
            &&& pending == para_range(sizes.concluding as int, sizes.first_disputed())
            &&& commitments == pending
            &&& pending.finite()
            &&& pending.len() == sizes.backed
        }),
{
    let disputed = para_range(sizes.first_disputed(), sizes.max_candidates as int);
    let concluding = para_range(sizes.concluding as int, sizes.first_disputed());
    assert(after.pending_availability@.dom().difference(disputed) =~= concluding);
    assert(after.pending_availability_commitments@.dom().difference(disputed) =~= concluding);
    lemma_para_range_len(sizes.concluding as int, sizes.first_disputed());
}

/// Where a parachain is on every core, it stays so when the concluding candidates take theirs.
pub proof fn law_all_cores_stay_occupied(sizes: BenchmarkSizes)
    requires
        sizes.wf(),
    ensures
        ({
            let all = Seq::new(
                sizes.max_cores as nat,
                |i: int| Some(CoreOccupied::Parachain),
            );
            occupied(all, sizes.concluding as int, sizes.first_disputed()) == all
        }),
{
    let all = Seq::new(sizes.max_cores as nat, |i: int| Some(CoreOccupied::Parachain));
    assert(occupied(all, sizes.concluding as int, sizes.first_disputed()) =~= all);
}

/// Adding candidates up to `mid` and then those from `mid` on adds the whole range.
pub(crate) proof fn lemma_added_append(
    start: ParachainsState,
    between: ParachainsState,
    end: ParachainsState,
    lo: int,
    mid: int,
    hi: int,
    votes: Seq<bool>,
)
    requires
        lo <= mid <= hi,
        added_candidates(start, between, lo, mid, votes),
        added_candidates(between, end, mid, hi, votes),
    ensures
        added_candidates(start, end, lo, hi, votes),
{
    assert(para_range(lo, mid).union(para_range(mid, hi)) =~= para_range(lo, hi));
    assert(end.pending_availability@.dom() =~= start.pending_availability@.dom().union(
        Set::new(|s: u32| lo <= s < hi),
    ));
    assert(end.pending_availability_commitments@.dom()
        =~= start.pending_availability_commitments@.dom().union(Set::new(|s: u32| lo <= s < hi)));
    assert forall|s: u32| lo <= s < hi implies {
        &&& (#[trigger] end.pending_availability@[s]).is_mock(s, seed_hash(s), votes)
        &&& end.pending_availability_commitments@[s].is_empty_at(0)
    } by {
        if s < mid {
            assert(between.pending_availability@[s].is_mock(s, seed_hash(s), votes));
        }
    }
    assert forall|s: u32| !(lo <= s < hi) implies {
        &&& #[trigger] end.pending_availability@[s] == start.pending_availability@[s]
        &&& end.pending_availability_commitments@[s] == start.pending_availability_commitments@[s]
    } by {
        assert(between.pending_availability@[s] == start.pending_availability@[s]);
    }
}

} // verus!
