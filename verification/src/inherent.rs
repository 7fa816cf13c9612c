//! The inherent that the scenario enters, and what storage shows after it.

use crate::availability::added_candidates;
use crate::disputes::{law_backed_candidates_remain_pending, para_range};
use crate::primitives::{
    AvailabilityBitfield, BackedCandidate, DisputeStatementSet, UncheckedSigned,
};
use crate::setup::Header;
use crate::sizes::{
    law_sizes_are_those_of_the_configuration, BenchmarkSizes, HostConfiguration,
};
use crate::storage::ParachainsState;
use vstd::prelude::*;

verus! {

/// The data of the parachains inherent.
pub struct ParachainsInherentData {
    pub bitfields: Vec<UncheckedSigned<AvailabilityBitfield>>,
    pub backed_candidates: Vec<BackedCandidate>,
    pub disputes: Vec<DisputeStatementSet>,
    pub parent_header: Header,
}

/// What storage shows after the inherent was entered.
#[derive(Clone, Copy, Debug, PartialEq, Eq, Structural)]
pub struct StorageAfterEnter {
    /// Whether the current session has spam slots.
    pub has_spam_slots: bool,
    pub pending_availability_commitments: usize,
    pub pending_availability: usize,
    pub scheduled: usize,
    pub availability_cores: usize,
}

/// A way in which storage is not as expected after the inherent.
#[derive(Clone, Copy, Debug, PartialEq, Eq, Structural)]
pub enum OutcomeError {
    NoSpamSlots,
    PendingAvailabilityCommitments,
    PendingAvailability,
    Scheduled,
    AvailabilityCores,
}

/// What the checks of the outcome report: the first that fails, in this order.
pub open spec fn outcome_check(
    sizes: BenchmarkSizes,
    storage: StorageAfterEnter,
) -> Result<(), OutcomeError> {
    if !storage.has_spam_slots {
        Err(OutcomeError::NoSpamSlots)
    } else if storage.pending_availability_commitments != sizes.backed {
        Err(OutcomeError::PendingAvailabilityCommitments)
    } else if storage.pending_availability != sizes.backed {
        Err(OutcomeError::PendingAvailability)
    } else if storage.scheduled != sizes.disputed {
        Err(OutcomeError::Scheduled)
    } else if storage.availability_cores != sizes.max_cores {
        Err(OutcomeError::AvailabilityCores)
    } else {
        Ok(())
    }
}

/// Checks that the disputed candidates no longer wait for availability, that as many cores as
/// possible are scheduled and that all cores are there.
pub fn check_outcome(sizes: &BenchmarkSizes, storage: &StorageAfterEnter) -> (res: Result<
    (),
    OutcomeError,
>)
    ensures
        res == outcome_check(*sizes, *storage),
        res is Ok <==> {
            &&& storage.has_spam_slots
            &&& storage.pending_availability_commitments == sizes.backed
            &&& storage.pending_availability == sizes.backed
            &&& storage.scheduled == sizes.disputed
            &&& storage.availability_cores == sizes.max_cores
        },
        res == Err::<(), OutcomeError>(OutcomeError::NoSpamSlots) <==> !storage.has_spam_slots,
        res == Err::<(), OutcomeError>(OutcomeError::PendingAvailabilityCommitments) <==> {
            &&& storage.has_spam_slots
            &&& storage.pending_availability_commitments != sizes.backed
        },
        res == Err::<(), OutcomeError>(OutcomeError::PendingAvailability) <==> {
            &&& storage.has_spam_slots
            &&& storage.pending_availability_commitments == sizes.backed
            &&& storage.pending_availability != sizes.backed
        },
        res == Err::<(), OutcomeError>(OutcomeError::Scheduled) <==> {
            &&& storage.has_spam_slots
            &&& storage.pending_availability_commitments == sizes.backed
            &&& storage.pending_availability == sizes.backed
            &&& storage.scheduled != sizes.disputed
        },
        res == Err::<(), OutcomeError>(OutcomeError::AvailabilityCores) <==> {
            &&& storage.has_spam_slots
            &&& storage.pending_availability_commitments == sizes.backed
            &&& storage.pending_availability == sizes.backed
            &&& storage.scheduled == sizes.disputed
            &&& storage.availability_cores != sizes.max_cores
        },
{
    if !storage.has_spam_slots {
        Err(OutcomeError::NoSpamSlots)
    } else if storage.pending_availability_commitments != sizes.backed as usize {
        Err(OutcomeError::PendingAvailabilityCommitments)
    } else if storage.pending_availability != sizes.backed as usize {
        Err(OutcomeError::PendingAvailability)
    } else if storage.scheduled != sizes.disputed as usize {
        Err(OutcomeError::Scheduled)
    } else if storage.availability_cores != sizes.max_cores as usize {
        Err(OutcomeError::AvailabilityCores)
    } else {
        Ok(())
    }
}

/// An outcome is accepted only if spam was recorded, exactly as many candidates and commitments
/// as are backed still wait, a core is scheduled for each disputed candidate and all cores are
/// there; in numbers of the configuration: one candidate waits, and six fewer cores are scheduled
/// than there are.
pub proof fn law_only_good_outcomes_are_accepted(
    config: HostConfiguration,
    sizes: BenchmarkSizes,
    storage: StorageAfterEnter,
)
    requires
        config.supports_scenario(),
        sizes.fit(config),
        outcome_check(sizes, storage) is Ok,
    ensures
        storage.has_spam_slots,
        storage.pending_availability_commitments == sizes.backed,
        storage.pending_availability == sizes.backed,
        storage.scheduled == sizes.disputed,
        storage.availability_cores == sizes.max_cores,
        storage.pending_availability_commitments == 1,
        storage.pending_availability == 1,
        storage.scheduled + 6 == storage.availability_cores,
{
    law_sizes_are_those_of_the_configuration(config, sizes);
}

/// A runtime that leaves a disputed candidate waiting is never accepted: where the candidates that
/// were added still wait, all but `collected` of the disputed ones, the outcome is good only if
/// all of them were collected.
pub proof fn law_uncollected_disputes_are_refused(
    sizes: BenchmarkSizes,
    storage: StorageAfterEnter,
    collected: int,
)
    requires
        sizes.wf(),
        0 <= collected < sizes.disputed,
        storage.pending_availability == sizes.backed + sizes.disputed - collected,
    ensures
        outcome_check(sizes, storage) is Err,
{
}

/// Where nothing waited for availability before the concluding and the disputed candidates were
/// added: if the runtime takes exactly the disputed ones out again, keeps all cores, records spam
/// and schedules a core for each disputed candidate, then the outcome is as expected.
pub proof fn law_collected_disputes_meet_the_checks(
    before: ParachainsState,
    after: ParachainsState,
    sizes: BenchmarkSizes,
    votes: Seq<bool>,
    storage: StorageAfterEnter,
)
    requires
        sizes.wf(),
        before.pending_availability@.dom() == Set::<u32>::empty(),
        before.pending_availability_commitments@.dom() == Set::<u32>::empty(),
        added_candidates(
            before,
            after,
            sizes.concluding as int,
            sizes.max_candidates as int,
            votes,
        ),
        after.availability_cores@.len() == sizes.max_cores,
        storage.has_spam_slots,
        storage.pending_availability == after.pending_availability@.dom().difference(
            para_range(sizes.first_disputed(), sizes.max_candidates as int),
        ).len(),
        storage.pending_availability_commitments
            == after.pending_availability_commitments@.dom().difference(
            para_range(sizes.first_disputed(), sizes.max_candidates as int),
        ).len(),
        storage.scheduled == sizes.disputed,
        storage.availability_cores == after.availability_cores@.len(),
    ensures
        outcome_check(sizes, storage) == Ok::<(), OutcomeError>(()),
{
    law_backed_candidates_remain_pending(before, after, sizes, votes);
}

} // verus!
