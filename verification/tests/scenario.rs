use paras_inherent_benchmarking::availability::candidate_hash_of_seed;
use paras_inherent_benchmarking::backing::{
    backed_candidate, backed_slot, candidate_of_new_collator, check_group_keys,
    committed_candidate, BackedSlot,
};
use paras_inherent_benchmarking::crypto::KeyPair;
use paras_inherent_benchmarking::inherent::{check_outcome, OutcomeError, StorageAfterEnter};
use paras_inherent_benchmarking::primitives::{
    AssignmentKind, CandidateCommitments, CandidateHash, CompactStatement, CoreAssignment,
    CoreIndex, CoreOccupied, GroupIndex, HeadData, ParaId, ValidatorIndex, ValidityAttestation,
};
use paras_inherent_benchmarking::scenario::{Preparation, Scenario, SessionInfo};
use paras_inherent_benchmarking::setup::SetupError;
use paras_inherent_benchmarking::sizes::{BenchmarkSizes, HostConfiguration};
use paras_inherent_benchmarking::storage::ReplacementTimes;

fn config(slots: u32) -> HostConfiguration {
    HostConfiguration {
        max_validators: Some(30),
        max_validators_per_core: Some(3),
        max_pov_size: 5,
        dispute_max_spam_slots: slots,
    }
}

/// The session with the validators in reverse order.
fn session_of(preparation: &Preparation) -> SessionInfo {
    SessionInfo {
        availability_cores: vec![None; 10],
        validator_groups: 10,
        session_index: 1,
        validators: preparation.pairs.iter().rev().map(|v| v.pair.public()).collect(),
    }
}

fn open(slots: u32) -> Scenario {
    let preparation = Preparation::new(&config(slots));
    let session = session_of(&preparation);
    match preparation.open(session) {
        Ok(scenario) => scenario,
        Err(error) => panic!("{:?}", error),
    }
}

fn verifies(signature: [u8; 64], message: &[u8], public: [u8; 32]) -> bool {
    <sp_core::sr25519::Pair as sp_core::Pair>::verify(
        &sp_core::sr25519::Signature::from_raw(signature),
        message,
        &sp_core::sr25519::Public::from_raw(public),
    )
}

#[test]
fn preparation_makes_validators_and_parachains() {
    let preparation = Preparation::new(&config(2));
    assert_eq!(preparation.pairs.len(), 30);
    assert_eq!(preparation.state.parachains.len(), 10);
    assert_eq!(preparation.state.parachains[9], ParaId(9));
    assert_eq!(preparation.header.number, 1);
    assert!(preparation.state.scheduled.is_empty());
    assert!(preparation.state.availability_cores.is_empty());
}

#[test]
fn an_open_scenario_has_the_validators_of_the_session() {
    let preparation = Preparation::new(&config(2));
    let session = session_of(&preparation);
    let seeds: Vec<[u8; 32]> = preparation.pairs.iter().map(|v| v.pair.seed).collect();
    let keys = session.validators.clone();
    let scenario = preparation.open(session).ok().unwrap();
    assert_eq!(scenario.validators.len(), 30);
    for i in 0..30 {
        assert_eq!(scenario.validators[i].public, keys[i]);
        assert_eq!(scenario.validators[i].pair.seed, seeds[29 - i]);
    }
    assert_eq!(scenario.votes.to_vec(), vec![true; 30]);
    assert_eq!(scenario.state.availability_cores, vec![None; 10]);
    assert_eq!(scenario.state.parachains.len(), 10);
}

#[test]
fn sessions_that_do_not_fit_are_refused() {
    let cases: Vec<(fn(&mut SessionInfo), SetupError)> = vec![
        (|s| s.availability_cores.push(None), SetupError::AvailabilityCores),
        (|s| s.validator_groups = 9, SetupError::ValidatorGroups),
        (|s| s.session_index = 0, SetupError::SessionIndex),
        (|s| s.validators[4] = [0; 32], SetupError::UnknownValidator),
    ];
    for (change, expected) in cases {
        let preparation = Preparation::new(&config(2));
        let mut session = session_of(&preparation);
        change(&mut session);
        assert_eq!(preparation.open(session).err(), Some(expected));
    }
}

#[test]
fn the_backed_candidate_takes_the_concluding_core() {
    let sizes = BenchmarkSizes::new(&config(2));
    assert_eq!(
        backed_slot(&sizes, 0),
        BackedSlot { para_id: ParaId(5), core: CoreIndex(5) }
    );
}

#[test]
fn planning_a_backed_candidate_fills_storage() {
    let mut scenario = open(2);
    let payload = scenario.plan_backed(0, GroupIndex(8), [4; 32]);
    assert_eq!(payload.relay_parent, scenario.header.hash());
    assert_eq!(payload.para_id, ParaId(5));
    assert_eq!(payload.persisted_validation_data_hash, [4; 32]);
    assert_eq!(payload.pov_hash, [0; 32]);
    assert_eq!(payload.validation_code_hash, [0; 32]);
    assert_eq!(
        scenario.state.scheduled,
        vec![CoreAssignment {
            core: CoreIndex(5),
            para_id: ParaId(5),
            kind: AssignmentKind::Parachain,
            group_idx: GroupIndex(8),
        }]
    );
    assert_eq!(scenario.state.heads.entries[&5], HeadData(Vec::new()));
    assert_eq!(scenario.state.current_code_hash.entries[&5], [0; 32]);
    assert_eq!(
        scenario.state.past_code_meta.entries[&5].replacements,
        vec![ReplacementTimes { expected_at: 0, activated_at: 0 }]
    );
}

#[test]
fn the_collator_signs_the_candidate() {
    let mut scenario = open(2);
    let payload = scenario.plan_backed(0, GroupIndex(8), [4; 32]);
    let collator = KeyPair::generate();
    let bytes = vec![8, 9];
    let receipt = committed_candidate(&payload, &bytes, &collator, [6; 32]);
    assert_eq!(receipt.descriptor.para_id, ParaId(5));
    assert_eq!(receipt.descriptor.collator, collator.public());
    assert_eq!(receipt.descriptor.relay_parent, payload.relay_parent);
    assert_eq!(receipt.descriptor.persisted_validation_data_hash, [4; 32]);
    assert_eq!(receipt.descriptor.erasure_root, [0; 32]);
    assert_eq!(receipt.descriptor.para_head, [6; 32]);
    assert!(verifies(receipt.descriptor.signature, &bytes, collator.public()));
    assert_eq!(receipt.commitments.hrmp_watermark, 1);
    assert!(receipt.commitments.upward_messages.is_empty());
    assert!(receipt.commitments.horizontal_messages.is_empty());
    assert!(receipt.commitments.new_validation_code.is_none());
}

#[test]
fn a_new_collator_signs_under_its_own_key() {
    let mut scenario = open(2);
    let payload = scenario.plan_backed(0, GroupIndex(8), [4; 32]);
    let bytes = vec![8, 9];
    let first = candidate_of_new_collator(&payload, &bytes, [6; 32]);
    let second = candidate_of_new_collator(&payload, &bytes, [6; 32]);
    for receipt in [&first, &second] {
        let descriptor = &receipt.descriptor;
        assert!(verifies(descriptor.signature, &bytes, descriptor.collator));
        assert_eq!(descriptor.para_id, ParaId(5));
        assert_eq!(descriptor.para_head, [6; 32]);
    }
    assert_ne!(first.descriptor.collator, second.descriptor.collator);
}

#[test]
fn the_group_vouches_with_its_keys() {
    let scenario = open(2);
    let active: Vec<[u8; 32]> = scenario.validators.iter().map(|v| v.public).collect();
    let group = vec![ValidatorIndex(7), ValidatorIndex(2)];
    let hash = CandidateHash([3; 32]);
    let requests = scenario.vouch(hash, &group, &active).unwrap();
    assert_eq!(requests.len(), 2);
    assert_eq!(requests[0].pair.seed, scenario.validators[7].pair.seed);
    assert_eq!(requests[1].pair.seed, scenario.validators[2].pair.seed);
    assert_eq!(requests[1].payload, CompactStatement::Valid(hash));
    assert_eq!(requests[1].context, scenario.header.signing_context());
    assert_eq!(requests[1].validator_index, ValidatorIndex(2));
}

#[test]
fn a_group_with_other_keys_does_not_vouch() {
    let scenario = open(2);
    let mut active: Vec<[u8; 32]> = scenario.validators.iter().map(|v| v.public).collect();
    active[2][31] ^= 1;
    let hash = CandidateHash([3; 32]);
    assert!(scenario.vouch(hash, &vec![ValidatorIndex(2)], &active).is_none());
    assert!(scenario.vouch(hash, &vec![ValidatorIndex(3)], &active).is_some());
    assert!(!check_group_keys(&vec![ValidatorIndex(30)], &scenario.validators, &active));
    active.truncate(4);
    assert!(!check_group_keys(&vec![ValidatorIndex(4)], &scenario.validators, &active));
    assert!(check_group_keys(&Vec::new(), &scenario.validators, &active));
}

#[test]
fn a_backed_candidate_has_a_vote_of_each_member() {
    let mut scenario = open(2);
    let payload = scenario.plan_backed(0, GroupIndex(8), [4; 32]);
    let receipt = committed_candidate(&payload, &vec![1], &KeyPair::generate(), [0; 32]);
    let active: Vec<[u8; 32]> = scenario.validators.iter().map(|v| v.public).collect();
    let group = vec![ValidatorIndex(7), ValidatorIndex(2), ValidatorIndex(11)];
    let bytes = vec![4, 5, 6];
    let signed: Vec<_> = scenario
        .vouch(CandidateHash([3; 32]), &group, &active)
        .unwrap()
        .into_iter()
        .map(|request| request.sign(&bytes))
        .collect();
    let backed = backed_candidate(receipt, &signed);
    assert_eq!(backed.validity_votes.len(), 3);
    for (i, ValidityAttestation::Explicit(signature)) in backed.validity_votes.iter().enumerate() {
        assert_eq!(*signature, signed[i].signature);
        let public = scenario.validators[group[i].0 as usize].public;
        assert!(verifies(*signature, &bytes, public));
    }
    assert_eq!(backed.validator_indices.to_vec(), vec![true; 3]);
    assert_eq!(backed.candidate.descriptor.para_id, ParaId(5));
}

#[test]
fn every_validator_votes_for_the_concluding_core() {
    let mut scenario = open(2);
    let requests = scenario.vote_available();
    assert_eq!(requests.len(), 30);
    let mut bits = vec![false; 10];
    bits[5] = true;
    for (i, request) in requests.into_iter().enumerate() {
        assert_eq!(request.pair.seed, scenario.validators[i].pair.seed);
        assert_eq!(request.payload.0.to_vec(), bits);
        assert_eq!(request.validator_index, ValidatorIndex(i as u32));
        let bytes = vec![i as u8, 3];
        let signed = request.sign(&bytes);
        assert_eq!(signed.payload.0.to_vec(), bits);
        assert_eq!(signed.validator_index, ValidatorIndex(i as u32));
        assert!(verifies(signed.signature, &bytes, scenario.validators[i].public));
    }
    assert_eq!(scenario.state.availability_cores, vec![Some(CoreOccupied::Parachain); 10]);
}

#[test]
fn entering_disputes_every_candidate_after_the_concluding_one() {
    let mut scenario = open(2);
    let bitfields: Vec<_> = scenario
        .vote_available()
        .into_iter()
        .map(|request| request.sign(&vec![2]))
        .collect();
    let bytes: Vec<Vec<u8>> = (0..4u8).map(|k| vec![k, 1]).collect();
    let data = scenario.enter_max_disputed(bitfields, Vec::new(), &bytes);
    assert_eq!(data.bitfields.len(), 30);
    assert!(data.backed_candidates.is_empty());
    assert_eq!(data.parent_header.hash(), scenario.header.hash());
    assert_eq!(data.disputes.len(), 4);
    let counts: Vec<usize> = data.disputes.iter().map(|d| d.statements.len()).collect();
    assert_eq!(counts, vec![10, 10, 30, 30]);
    for (k, set) in data.disputes.iter().enumerate() {
        assert_eq!(set.session, 1);
        assert_eq!(set.candidate_hash, candidate_hash_of_seed(6 + k as u32));
        for (j, (_, index, signature)) in set.statements.iter().enumerate() {
            assert_eq!(*index, ValidatorIndex(j as u32));
            assert!(verifies(*signature, &bytes[k], scenario.validators[j].public));
        }
    }
    let pending: Vec<u32> = scenario.state.pending_availability.entries.keys().copied().collect();
    assert_eq!(pending, vec![5, 6, 7, 8, 9]);
    for (seed, candidate) in &scenario.state.pending_availability.entries {
        assert_eq!(candidate.hash, candidate_hash_of_seed(*seed));
        assert_eq!(candidate.core, CoreIndex(*seed));
        assert_eq!(candidate.availability_votes.to_vec(), vec![true; 30]);
    }
    assert_eq!(scenario.state.pending_availability_commitments.entries.len(), 5);
    assert_eq!(
        scenario.state.pending_availability_commitments.entries[&9],
        CandidateCommitments::default()
    );
    assert_eq!(scenario.state.availability_cores, vec![Some(CoreOccupied::Parachain); 10]);
}

#[test]
fn spam_slots_are_used_by_the_first_third_of_validators() {
    let mut scenario = open(3);
    let bytes: Vec<Vec<u8>> = vec![Vec::new(); 4];
    let data = scenario.enter_max_disputed(Vec::new(), Vec::new(), &bytes);
    for validator in 0..30 {
        let spam = data
            .disputes
            .iter()
            .filter(|d| d.statements.len() <= 10 && validator < d.statements.len())
            .count();
        assert_eq!(spam, if validator < 10 { 3 } else { 0 });
    }
}

#[test]
fn without_spam_slots_every_dispute_is_full() {
    let mut scenario = open(0);
    let bytes: Vec<Vec<u8>> = vec![vec![7]; 4];
    let data = scenario.enter_max_disputed(Vec::new(), Vec::new(), &bytes);
    assert!(data.disputes.iter().all(|d| d.statements.len() == 30));
}

#[test]
fn disputed_candidates_gone_leave_the_backed_ones_pending() {
    let mut scenario = open(2);
    let bytes: Vec<Vec<u8>> = vec![vec![7]; 4];
    scenario.enter_max_disputed(Vec::new(), Vec::new(), &bytes);
    for seed in 6..10u32 {
        scenario.state.pending_availability.entries.remove(&seed);
        scenario.state.pending_availability_commitments.entries.remove(&seed);
    }
    let storage = StorageAfterEnter {
        has_spam_slots: true,
        pending_availability_commitments: scenario
            .state
            .pending_availability_commitments
            .entries
            .len(),
        pending_availability: scenario.state.pending_availability.entries.len(),
        scheduled: 4,
        availability_cores: scenario.state.availability_cores.len(),
    };
    assert_eq!(check_outcome(&scenario.sizes, &storage), Ok(()));
}

#[test]
fn outcomes_that_differ_are_reported_in_order() {
    let sizes = BenchmarkSizes::new(&config(2));
    let good = StorageAfterEnter {
        has_spam_slots: true,
        pending_availability_commitments: 1,
        pending_availability: 1,
        scheduled: 4,
        availability_cores: 10,
    };
    assert_eq!(check_outcome(&sizes, &good), Ok(()));
    let bad = StorageAfterEnter {
        has_spam_slots: false,
        pending_availability_commitments: 0,
        pending_availability: 0,
        scheduled: 0,
        availability_cores: 0,
    };
    let mut storage = bad;
    assert_eq!(check_outcome(&sizes, &storage), Err(OutcomeError::NoSpamSlots));
    storage.has_spam_slots = true;
    assert_eq!(
        check_outcome(&sizes, &storage),
        Err(OutcomeError::PendingAvailabilityCommitments)
    );
    storage.pending_availability_commitments = 1;
    assert_eq!(check_outcome(&sizes, &storage), Err(OutcomeError::PendingAvailability));
    storage.pending_availability = 1;
    assert_eq!(check_outcome(&sizes, &storage), Err(OutcomeError::Scheduled));
    storage.scheduled = 4;
    assert_eq!(check_outcome(&sizes, &storage), Err(OutcomeError::AvailabilityCores));
}
