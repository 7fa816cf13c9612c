//! The storage items of the parachains runtime that the scenario fills.

use crate::crypto::H256;
use crate::primitives::{
    CandidateCommitments, CandidatePendingAvailability, CoreAssignment, CoreOccupied, HeadData,
    ParaId,
};
use std::collections::BTreeMap;
use vstd::prelude::*;

verus! {

broadcast use vstd::laws_cmp::group_laws_cmp;

/// A storage map with a parachain as its key.
pub struct ParaMap<V> {
    pub entries: BTreeMap<u32, V>,
}

impl<V> View for ParaMap<V> {
    type V = Map<u32, V>;

    open spec fn view(&self) -> Map<u32, V> {
        self.entries@
    }
}

impl<V> ParaMap<V> {
    /// A map without entries.
    pub fn new() -> (res: Self)
        ensures
            res@ == Map::<u32, V>::empty(),
    {
        ParaMap { entries: BTreeMap::new() }
    }

    /// Files `value` under `para_id`, in place of what was there.
    pub fn insert(&mut self, para_id: ParaId, value: V)
        ensures
            final(self)@ == old(self)@.insert(para_id.0, value),
    {
        self.entries.insert(para_id.0, value);
    }
}

/// When a code upgrade was expected and when it took effect.
#[derive(Clone, Copy, Debug, PartialEq, Eq, Structural)]
pub struct ReplacementTimes {
    pub expected_at: u32,
    pub activated_at: u32,
}

/// The code replacements that were noted for a parachain, oldest first.
#[derive(Debug, PartialEq, Eq)]
pub struct ParaPastCodeMeta {
    pub replacements: Vec<ReplacementTimes>,
}

/// The storage items that the scenario reads and writes.
pub struct ParachainsState {
    /// All registered parachains.
    pub parachains: Vec<ParaId>,
    /// What occupies each core.
    pub availability_cores: Vec<Option<CoreOccupied>>,
    /// The cores that are scheduled for the next block.
    pub scheduled: Vec<CoreAssignment>,
    /// The candidates that wait for availability.
    pub pending_availability: ParaMap<CandidatePendingAvailability>,
    /// The commitments of those candidates.
    pub pending_availability_commitments: ParaMap<CandidateCommitments>,
    /// The head of each parachain.
    pub heads: ParaMap<HeadData>,
    /// The code replacements of each parachain.
    pub past_code_meta: ParaMap<ParaPastCodeMeta>,
    /// The hash of each parachain's code.
    pub current_code_hash: ParaMap<H256>,
}

impl ParachainsState {
    /// Storage with no entries, and cores that are occupied as given.
    pub fn new(availability_cores: Vec<Option<CoreOccupied>>) -> (res: Self)
        ensures
            res.availability_cores == availability_cores,
            res.is_fresh(),
            res.parachains@.len() == 0,
            res.scheduled@.len() == 0,
            res.pending_availability@.dom() == Set::<u32>::empty(),
            res.pending_availability_commitments@.dom() == Set::<u32>::empty(),
            res.heads@.dom() == Set::<u32>::empty(),
            res.past_code_meta@.dom() == Set::<u32>::empty(),
            res.current_code_hash@.dom() == Set::<u32>::empty(),
    {
        ParachainsState {
            parachains: Vec::new(),
            availability_cores,
            scheduled: Vec::new(),
            pending_availability: ParaMap::new(),
            pending_availability_commitments: ParaMap::new(),
            heads: ParaMap::new(),
            past_code_meta: ParaMap::new(),
            current_code_hash: ParaMap::new(),
        }
    }

    /// Nothing is stored but the state of the cores.
    pub open spec fn is_fresh(self) -> bool {
        &&& self.parachains@ == Seq::<ParaId>::empty()
        &&& self.scheduled@ == Seq::<CoreAssignment>::empty()
        &&& self.pending_availability@ == Map::<u32, CandidatePendingAvailability>::empty()
        &&& self.pending_availability_commitments@ == Map::<u32, CandidateCommitments>::empty()
        &&& self.heads@ == Map::<u32, HeadData>::empty()
        &&& self.past_code_meta@ == Map::<u32, ParaPastCodeMeta>::empty()
        &&& self.current_code_hash@ == Map::<u32, H256>::empty()
    }
}

} // verus!
