//! The header, the parachains and the session that the scenario starts from.

use crate::crypto::{blake2_header_hash, header_hash, H256};
use crate::primitives::{zero_hash, zeroes, HeadData, ParaId, PersistedValidationData, SigningContext};
use crate::sizes::{BenchmarkSizes, HostConfiguration};
use crate::storage::ParachainsState;
use vstd::prelude::*;

verus! {

/// The session that the scenario runs in.
pub const CURRENT_SESSION: u32 = 1;

/// The block that the chain is run to before the candidates are built.
pub const SETUP_BLOCK: u32 = 2;

/// The header of a relay chain block, with an empty digest. Its hash is Blake2.
#[derive(Clone, Copy, Debug, PartialEq, Eq)]
pub struct Header {
    pub number: u32,
    pub extrinsics_root: H256,
    pub state_root: H256,
    pub parent_hash: H256,
}

impl Header {
    /// The bytes of the header's hash.
    pub open spec fn hash_bytes(self) -> Seq<u8> {
        blake2_header_hash(
            self.number,
            self.extrinsics_root@,
            self.state_root@,
            self.parent_hash@,
        )
    }

    /// Number one and zero elsewhere.
    pub open spec fn is_parent(self) -> bool {
        &&& self.number == 1
        &&& self.extrinsics_root@ == zeroes(32)
        &&& self.state_root@ == zeroes(32)
        &&& self.parent_hash@ == zeroes(32)
    }

    /// The header of the parent block.
    pub fn parent() -> (res: Header)
        ensures
            res.is_parent(),
            res.number == 1,
            forall|i: int|
                0 <= i < 32 ==> {
                    &&& #[trigger] res.extrinsics_root@[i] == 0
                    &&& res.state_root@[i] == 0
                    &&& res.parent_hash@[i] == 0
                },
    {
        Header {
            number: 1,
            extrinsics_root: zero_hash(),
            state_root: zero_hash(),
            parent_hash: zero_hash(),
        }
    }

    /// The header's hash.
    pub fn hash(&self) -> (res: H256)
        ensures
            res@ == self.hash_bytes(),
            res@ == blake2_header_hash(
                self.number,
                self.extrinsics_root@,
                self.state_root@,
                self.parent_hash@,
            ),
    {
        header_hash(self.number, self.extrinsics_root, self.state_root, self.parent_hash)
    }

    /// What signatures in the scenario are bound to: this block and the current session.
    pub fn signing_context(&self) -> (res: SigningContext)
        ensures
            res.parent_hash@ == self.hash_bytes(),
            res.session_index == CURRENT_SESSION,
            res.parent_hash@ == blake2_header_hash(
                self.number,
                self.extrinsics_root@,
                self.state_root@,
                self.parent_hash@,
            ),
            res.session_index == 1,
    {
        SigningContext { parent_hash: self.hash(), session_index: CURRENT_SESSION }
    }

    /// What a candidate with an empty parent head on this block is validated against.
    pub fn persisted_validation_data(&self, config: &HostConfiguration) -> (res:
        PersistedValidationData)
        ensures
            res.parent_head@ == Seq::<u8>::empty(),
            res.relay_parent_number == self.number,
            res.relay_parent_storage_root@ == zeroes(32),
            forall|i: int| 0 <= i < 32 ==> #[trigger] res.relay_parent_storage_root@[i] == 0,
            res.max_pov_size == config.max_pov_size,
    {
        PersistedValidationData {
            parent_head: HeadData::default(),
            relay_parent_number: self.number,
            relay_parent_storage_root: zero_hash(),
            max_pov_size: config.max_pov_size,
        }
    }
}

/// The parent is block one with zero roots, and the candidates are built in the block after it.
pub proof fn law_candidates_are_built_right_after_the_parent(header: Header)
    requires
        header.is_parent(),
    ensures
        header.number == 1,
        SETUP_BLOCK == header.number + 1,
        forall|i: int|
            0 <= i < 32 ==> {
                &&& #[trigger] header.extrinsics_root@[i] == 0
                &&& header.state_root@[i] == 0
                &&& header.parent_hash@[i] == 0
            },
{
}

/// The hash of a header is that of its own fields: the roots and the parent are not mixed up.
pub proof fn law_header_hash_is_of_its_fields(header: Header)
    ensures
        header.hash_bytes() == blake2_header_hash(
            header.number,
            header.extrinsics_root@,
            header.state_root@,
            header.parent_hash@,
        ),
{
}

/// A session passes the checks exactly if it has a core and a validator group for each core of the
/// scenario and is session one; otherwise the first of the three that differs is reported.
pub proof fn law_only_fitting_sessions_pass(
    max_cores: u32,
    availability_cores: usize,
    validator_groups: usize,
    session_index: u32,
)
    ensures
        ({
            let res = session_check(
                max_cores,
                availability_cores,
                validator_groups,
                session_index,
            );
            &&& res is Ok <==> availability_cores == max_cores && validator_groups == max_cores
                && session_index == 1
            &&& res is Err ==> {
                &&& res->Err_0 == SetupError::AvailabilityCores <==> availability_cores
                    != max_cores
                &&& res->Err_0 == SetupError::ValidatorGroups <==> availability_cores == max_cores
                    && validator_groups != max_cores
                &&& res->Err_0 == SetupError::SessionIndex <==> availability_cores == max_cores
                    && validator_groups == max_cores
            }
        }),
{
}

/// Registers a parachain for each core, where none was registered before.
pub fn register_parachains(state: &mut ParachainsState, sizes: &BenchmarkSizes)
    requires
        old(state).parachains@.len() == 0,
    ensures
        final(state).parachains@ == Seq::new(sizes.max_cores as nat, |i: int| ParaId(i as u32)),
        final(state).availability_cores == old(state).availability_cores,
        final(state).scheduled == old(state).scheduled,
        final(state).pending_availability == old(state).pending_availability,
        final(state).pending_availability_commitments == old(
            state,
        ).pending_availability_commitments,
        final(state).heads == old(state).heads,
        final(state).past_code_meta == old(state).past_code_meta,
        final(state).current_code_hash == old(state).current_code_hash,
{
    for i in 0..sizes.max_cores
        invariant
            state.parachains@ =~= Seq::new(i as nat, |j: int| ParaId(j as u32)),
            state.availability_cores == old(state).availability_cores,
            state.scheduled == old(state).scheduled,
            state.pending_availability == old(state).pending_availability,
            state.pending_availability_commitments == old(state).pending_availability_commitments,
            state.heads == old(state).heads,
            state.past_code_meta == old(state).past_code_meta,
            state.current_code_hash == old(state).current_code_hash,
    {
        state.parachains.push(ParaId(i));
    }
}

/// A way in which the session that was started does not fit the scenario.
#[derive(Clone, Copy, Debug, PartialEq, Eq, Structural)]
pub enum SetupError {
    /// The number of availability cores is wrong.
    AvailabilityCores,
    /// The number of validator groups is wrong.
    ValidatorGroups,
    /// It is not the current session.
    SessionIndex,
    /// The session has a validator whose key pair nobody holds.
    UnknownValidator,
}

/// What the checks of the session report: the first that fails, in this order.
pub open spec fn session_check(
    max_cores: u32,
    availability_cores: usize,
    validator_groups: usize,
    session_index: u32,
) -> Result<(), SetupError> {
    if availability_cores != max_cores {
        Err(SetupError::AvailabilityCores)
    } else if validator_groups != max_cores {
        Err(SetupError::ValidatorGroups)
    } else if session_index != CURRENT_SESSION {
        Err(SetupError::SessionIndex)
    } else {
        Ok(())
    }
}

/// Checks that the session has as many cores and validator groups as the scenario, and is the
/// current one.
pub fn check_session(
    sizes: &BenchmarkSizes,
    availability_cores: usize,
    validator_groups: usize,
    session_index: u32,
) -> (res: Result<(), SetupError>)
    ensures
        res == session_check(
            sizes.max_cores,
            availability_cores,
            validator_groups,
            session_index,
        ),
        res is Ok <==> {
            &&& availability_cores == sizes.max_cores
            &&& validator_groups == sizes.max_cores
            &&& session_index == 1
        },
        res == Err::<(), SetupError>(SetupError::AvailabilityCores) <==> availability_cores
            != sizes.max_cores,
        res == Err::<(), SetupError>(SetupError::ValidatorGroups) <==> {
            &&& availability_cores == sizes.max_cores
            &&& validator_groups != sizes.max_cores
        },
        res == Err::<(), SetupError>(SetupError::SessionIndex) <==> {
            &&& availability_cores == sizes.max_cores
            &&& validator_groups == sizes.max_cores
            &&& session_index != 1
        },
{
    if availability_cores != sizes.max_cores as usize {
        Err(SetupError::AvailabilityCores)
    } else if validator_groups != sizes.max_cores as usize {
        Err(SetupError::ValidatorGroups)
    } else if session_index != CURRENT_SESSION {
        Err(SetupError::SessionIndex)
    } else {
        Ok(())
    }
}

} // verus!
