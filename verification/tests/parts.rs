use bitvec::order::Lsb0;
use bitvec::vec::BitVec;
use paras_inherent_benchmarking::availability::{
    add_availability, availability_bitvec, candidate_availability_mock, candidate_hash_of_seed,
};
use paras_inherent_benchmarking::blocks::{run_to_block, BlockAction, BlockPhase};
use paras_inherent_benchmarking::crypto::{verify, KeyPair};
use paras_inherent_benchmarking::disputes::{
    availability_votes_yes, concluding_cores, dispute_payloads, dispute_statements,
    enough_validators,
};
use paras_inherent_benchmarking::primitives::{
    CandidateCommitments, CandidateDescriptor, CandidateHash, CoreIndex, CoreOccupied,
    DisputeStatement, GroupIndex, InvalidDisputeStatementKind, ParaId, ValidatorIndex,
};
use paras_inherent_benchmarking::setup::{
    check_session, register_parachains, Header, SetupError,
};
use paras_inherent_benchmarking::sizes::{BenchmarkSizes, HostConfiguration};
use paras_inherent_benchmarking::storage::ParachainsState;
use paras_inherent_benchmarking::validators::{
    find_session_validators, generate_validator_pairs, shuffled_validators, validator_pairs,
    validators_public, SessionValidator, ValidatorMap, ValidatorPair,
};

fn config(max_validators: Option<u32>, per_core: Option<u32>) -> HostConfiguration {
    HostConfiguration {
        max_validators,
        max_validators_per_core: per_core,
        max_pov_size: 1024,
        dispute_max_spam_slots: 2,
    }
}

fn verifies(signature: [u8; 64], message: &[u8], public: [u8; 32]) -> bool {
    <sp_core::sr25519::Pair as sp_core::Pair>::verify(
        &sp_core::sr25519::Signature::from_raw(signature),
        message,
        &sp_core::sr25519::Public::from_raw(public),
    )
}

fn pair(byte: u8) -> KeyPair {
    KeyPair { seed: [byte; 32] }
}

#[test]
fn default_configuration_gives_the_default_sizes() {
    let sizes = BenchmarkSizes::new(&config(None, None));
    assert_eq!(
        sizes,
        BenchmarkSizes {
            max_validators: 200,
            max_cores: 40,
            max_candidates: 40,
            max_statements: 200,
            byzantine_statement_thresh: 66,
            concluding: 5,
            backed: 1,
            disputed: 34,
        }
    );
}

#[test]
fn configured_limits_give_the_sizes() {
    let sizes = BenchmarkSizes::new(&config(Some(20), Some(3)));
    assert_eq!(sizes.max_cores, 6);
    assert_eq!(sizes.byzantine_statement_thresh, 6);
    assert_eq!(sizes.disputed, 0);
}

#[test]
fn only_configurations_with_enough_cores_are_supported() {
    assert!(config(None, None).is_supported());
    assert!(config(Some(6), Some(1)).is_supported());
    assert!(!config(Some(5), Some(1)).is_supported());
    assert!(!config(Some(29), None).is_supported());
    assert!(config(Some(30), None).is_supported());
    assert!(!config(None, Some(0)).is_supported());
    assert!(!config(None, Some(34)).is_supported());
}

#[test]
fn running_to_a_block_visits_every_block() {
    let mut number = 0u32;
    let mut phase = BlockPhase::Settled;
    let mut actions = Vec::new();
    loop {
        let (next, action) = run_to_block(phase, number, 2);
        phase = next;
        actions.push(action);
        match action {
            BlockAction::SetBlockNumber(b) => number = b,
            BlockAction::Done => break,
            _ => {}
        }
    }
    assert_eq!(
        actions,
        vec![
            BlockAction::Finalize(0),
            BlockAction::SetBlockNumber(1),
            BlockAction::Initialize(1),
            BlockAction::Finalize(1),
            BlockAction::SetBlockNumber(2),
            BlockAction::Initialize(2),
            BlockAction::Done,
        ]
    );
    assert_eq!(number, 2);
}

#[test]
fn nothing_is_done_at_or_beyond_the_target() {
    assert_eq!(run_to_block(BlockPhase::Settled, 2, 2), (BlockPhase::Settled, BlockAction::Done));
    assert_eq!(run_to_block(BlockPhase::Settled, 7, 2), (BlockPhase::Settled, BlockAction::Done));
}

#[test]
fn candidate_hashes_are_the_seed_in_the_last_bytes() {
    let hash = candidate_hash_of_seed(0x0102_0304).0;
    let mut expected = [0u8; 32];
    expected[24] = 4;
    expected[25] = 3;
    expected[26] = 2;
    expected[27] = 1;
    assert_eq!(hash, expected);
    assert_ne!(candidate_hash_of_seed(6), candidate_hash_of_seed(7));
}

#[test]
fn the_bitfield_has_the_concluding_cores_set() {
    let mut state = ParachainsState::new(vec![None; 8]);
    let bitfield = availability_bitvec(&mut state, 7, vec![5, 1, 9]);
    assert_eq!(bitfield.0.to_vec(), vec![false, true, false, false, false, true, false]);
    assert_eq!(state.availability_cores[..7], [Some(CoreOccupied::Parachain); 7]);
    assert_eq!(state.availability_cores[7], None);
}

#[test]
fn no_cores_give_an_empty_bitfield() {
    let mut state = ParachainsState::new(vec![None; 2]);
    let bitfield = availability_bitvec(&mut state, 0, vec![0]);
    assert_eq!(bitfield.0.to_vec(), Vec::<bool>::new());
    assert_eq!(state.availability_cores, vec![None, None]);
}

#[test]
fn mock_candidates_hold_what_they_are_made_from() {
    let sizes = BenchmarkSizes::new(&config(Some(12), Some(2)));
    let hash = CandidateHash([9; 32]);
    let mock = candidate_availability_mock(3, hash, availability_votes_yes(&sizes));
    assert_eq!(mock.core, CoreIndex(3));
    assert_eq!(mock.backing_group, GroupIndex(3));
    assert_eq!(mock.hash, hash);
    assert_eq!(mock.descriptor, CandidateDescriptor::default());
    assert_eq!(mock.descriptor.signature, [0u8; 64]);
    assert_eq!(mock.availability_votes.to_vec(), vec![true; 12]);
    assert!(mock.backers.to_vec().is_empty());
    assert_eq!(mock.relay_parent_number, 0);
    assert_eq!(mock.backed_in_number, 1);
}

#[test]
fn adding_availability_files_the_candidate_and_its_commitments() {
    let sizes = BenchmarkSizes::new(&config(Some(12), Some(2)));
    let mut state = ParachainsState::new(Vec::new());
    let first = CandidateHash([1; 32]);
    let second = CandidateHash([2; 32]);
    assert_eq!(add_availability(&mut state, 4, availability_votes_yes(&sizes), first), first);
    assert_eq!(add_availability(&mut state, 4, availability_votes_yes(&sizes), second), second);
    assert_eq!(state.pending_availability.entries.len(), 1);
    assert_eq!(state.pending_availability.entries[&4].hash, second);
    assert_eq!(
        state.pending_availability_commitments.entries[&4],
        CandidateCommitments::default()
    );
    assert_eq!(state.pending_availability_commitments.entries[&4].hrmp_watermark, 0);
}

#[test]
fn bits_come_back_as_the_bit_vector_packs_them() {
    let mut bits: BitVec<Lsb0, u8> = BitVec::repeat(false, 0);
    for i in 0..20 {
        bits.push(i == 5);
    }
    let mut state = ParachainsState::new(vec![None; 20]);
    let bitfield = availability_bitvec(&mut state, 20, vec![5]);
    let expected: Vec<bool> = bits.iter().map(|b| *b).collect();
    assert_eq!(bitfield.0.to_vec(), expected);
}

#[test]
fn concluding_cores_are_the_backed_ones() {
    let sizes = BenchmarkSizes::new(&config(None, None));
    assert_eq!(concluding_cores(&sizes), vec![5]);
}

#[test]
fn public_keys_belong_to_the_seed() {
    let seed = [7u8; 32];
    let expected = sp_core::Pair::public(
        &<sp_core::sr25519::Pair as sp_core::Pair>::from_seed(&seed),
    );
    assert_eq!(KeyPair { seed }.public(), expected.0);
    assert_ne!(KeyPair { seed }.public(), seed);
    assert_ne!(pair(1).public(), pair(2).public());
}

#[test]
fn signatures_verify_under_their_key_alone() {
    let message = b"statement".to_vec();
    let signature = pair(1).sign(&message);
    assert!(verifies(signature, &message, pair(1).public()));
    assert!(!verifies(signature, &message, pair(2).public()));
    assert!(!verifies(signature, b"other", pair(1).public()));
}

#[test]
fn verifying_answers_as_substrate_answers() {
    let message = b"statement".to_vec();
    let signature = pair(1).sign(&message);
    assert!(verify(&signature, &message, &pair(1).public()));
    assert!(!verify(&signature, &message, &pair(2).public()));
    assert!(!verify(&signature, &b"other".to_vec(), &pair(1).public()));
    assert!(!verify(&[0; 64], &message, &pair(1).public()));
}

#[test]
fn drawn_pairs_go_to_the_validators_in_order() {
    let pairs = validator_pairs(&vec![pair(3), pair(1)]);
    assert_eq!(pairs.len(), 2);
    assert_eq!(pairs[0].pair.seed, [3; 32]);
    assert_eq!(pairs[1].pair.seed, [1; 32]);
    let account: [u8; 32] =
        frame_benchmarking::account::<sp_runtime::AccountId32>("validator", 1, 1).into();
    assert_eq!(pairs[1].account, account);
    assert!(validator_pairs(&Vec::new()).is_empty());
}

#[test]
fn generated_pairs_differ() {
    assert_ne!(KeyPair::generate().seed, KeyPair::generate().seed);
}

#[test]
fn validators_have_their_accounts() {
    let pairs = generate_validator_pairs(3);
    assert_eq!(pairs.len(), 3);
    for i in 0..3u32 {
        let account: [u8; 32] =
            frame_benchmarking::account::<sp_runtime::AccountId32>("validator", i, i).into();
        assert_eq!(pairs[i as usize].account, account);
    }
    assert_ne!(pairs[0].account, pairs[1].account);
    let keys = validators_public(&pairs);
    assert_eq!(keys.len(), 3);
    assert_eq!(keys[2], (pairs[2].account, pairs[2].pair.public()));
}

#[test]
fn the_last_pair_under_a_key_is_found() {
    let pairs = vec![
        ValidatorPair { account: [0; 32], pair: pair(1) },
        ValidatorPair { account: [1; 32], pair: pair(2) },
        ValidatorPair { account: [2; 32], pair: pair(1) },
    ];
    let map = ValidatorMap::new(&pairs);
    assert_eq!(map.get(&pair(1).public()).unwrap().seed, [1; 32]);
    assert_eq!(map.get(&pair(2).public()).unwrap().seed, [2; 32]);
    assert!(map.get(&pair(3).public()).is_none());
    assert!(ValidatorMap::new(&Vec::new()).get(&pair(1).public()).is_none());
}

#[test]
fn session_validators_come_in_the_order_of_the_session() {
    let pairs = vec![
        ValidatorPair { account: [0; 32], pair: pair(1) },
        ValidatorPair { account: [1; 32], pair: pair(2) },
    ];
    let map = ValidatorMap::new(&pairs);
    let session = vec![pair(2).public(), pair(1).public()];
    let validators = shuffled_validators(&session, &map);
    assert_eq!(validators[0].public, session[0]);
    assert_eq!(validators[0].pair.seed, [2; 32]);
    assert_eq!(validators[1].pair.public(), validators[1].public);
    assert!(find_session_validators(&vec![pair(1).public(), pair(3).public()], &map).is_none());
    assert_eq!(find_session_validators(&session, &map).unwrap().len(), 2);
}

#[test]
fn the_parent_header_hashes_as_substrate_hashes_it() {
    let header = Header::parent();
    let zero = sp_core::H256([0; 32]);
    let expected: sp_runtime::generic::Header<u32, sp_runtime::traits::BlakeTwo256> =
        sp_runtime::traits::Header::new(1, zero, zero, zero, Default::default());
    assert_eq!(header.hash(), expected.hash().0);
    assert_ne!(header.hash(), [0; 32]);
    let context = header.signing_context();
    assert_eq!(context.parent_hash, header.hash());
    assert_eq!(context.session_index, 1);
}

#[test]
fn header_fields_go_to_their_places() {
    let header = Header {
        number: 7,
        extrinsics_root: [1; 32],
        state_root: [2; 32],
        parent_hash: [3; 32],
    };
    let expected: sp_runtime::generic::Header<u32, sp_runtime::traits::BlakeTwo256> =
        sp_runtime::traits::Header::new(
            7,
            sp_core::H256([1; 32]),
            sp_core::H256([2; 32]),
            sp_core::H256([3; 32]),
            Default::default(),
        );
    assert_eq!(header.hash(), expected.hash().0);
}

#[test]
fn validation_data_comes_from_the_header_and_the_configuration() {
    let data = Header::parent().persisted_validation_data(&config(None, None));
    assert!(data.parent_head.0.is_empty());
    assert_eq!(data.relay_parent_number, 1);
    assert_eq!(data.relay_parent_storage_root, [0; 32]);
    assert_eq!(data.max_pov_size, 1024);
}

#[test]
fn a_parachain_is_registered_for_each_core() {
    let sizes = BenchmarkSizes::new(&config(Some(12), Some(2)));
    let mut state = ParachainsState::new(Vec::new());
    register_parachains(&mut state, &sizes);
    let expected: Vec<ParaId> = (0..6).map(ParaId).collect();
    assert_eq!(state.parachains, expected);
}

#[test]
fn sessions_are_checked_in_order() {
    let sizes = BenchmarkSizes::new(&config(None, None));
    assert_eq!(check_session(&sizes, 40, 40, 1), Ok(()));
    assert_eq!(check_session(&sizes, 39, 39, 0), Err(SetupError::AvailabilityCores));
    assert_eq!(check_session(&sizes, 40, 41, 0), Err(SetupError::ValidatorGroups));
    assert_eq!(check_session(&sizes, 40, 40, 0), Err(SetupError::SessionIndex));
}

#[test]
fn dispute_payloads_name_the_disputed_candidates() {
    let sizes = BenchmarkSizes::new(&config(Some(16), Some(2)));
    let payloads = dispute_payloads(&sizes, 1);
    assert_eq!(payloads.len(), 2);
    assert_eq!(payloads[0].candidate_hash, candidate_hash_of_seed(6));
    assert_eq!(payloads[1].candidate_hash, candidate_hash_of_seed(7));
    assert_eq!(payloads[1].session, 1);
    assert_eq!(
        payloads[1].statement,
        DisputeStatement::Invalid(InvalidDisputeStatementKind::Explicit)
    );
}

#[test]
fn the_first_validators_dispute_the_candidate() {
    let validators: Vec<SessionValidator> = (1..4u8)
        .map(|i| SessionValidator { public: pair(i).public(), pair: pair(i) })
        .collect();
    let payload = vec![1, 2, 3];
    let statements = dispute_statements(&validators, &payload, 2);
    assert_eq!(statements.len(), 2);
    for (i, (statement, index, signature)) in statements.iter().enumerate() {
        assert_eq!(
            *statement,
            DisputeStatement::Invalid(InvalidDisputeStatementKind::Explicit)
        );
        assert_eq!(*index, ValidatorIndex(i as u32));
        assert!(verifies(*signature, &payload, validators[i].public));
    }
    assert!(dispute_statements(&validators, &payload, 0).is_empty());
}

#[test]
fn validators_are_enough_for_the_largest_dispute() {
    let sizes = BenchmarkSizes::new(&config(Some(30), Some(3)));
    assert!(enough_validators(&sizes, 4, 10));
    assert!(!enough_validators(&sizes, 4, 9));
    assert!(!enough_validators(&sizes, 3, 29));
    assert!(enough_validators(&sizes, 3, 30));
    let none = BenchmarkSizes::new(&config(Some(18), Some(3)));
    assert!(enough_validators(&none, 1, 0));
}
