use vstd::prelude::*;

use crate::caches::{ActivationQueue, EpochCache, ExitCache, PreEpochCache, ProgressiveBalancesCache};
use crate::config::ForkName;
use crate::participation::ParticipationFlags;
use crate::validator::Validator;

verus! {

/// Copy a vector of plain values element by element.
pub(crate) fn copy_vec<T: Copy>(values: &Vec<T>) -> (r: Vec<T>)
    ensures
        r@ == values@,
{
    let mut out: Vec<T> = Vec::new();
    let mut i: usize = 0;
    while i < values.len()
        invariant
            i <= values@.len(),
            out@ == values@.subrange(0, i as int),
        decreases values@.len() - i,
    {
        out.push(values[i]);
        proof {
            assert(out@ =~= values@.subrange(0, i + 1));
        }
        i = i + 1;
    }
    proof {
        assert(values@.subrange(0, values@.len() as int) =~= values@);
    }
    out
}

/// The in-memory state an epoch transition mutates: the per-validator
/// sequences, the collaborator caches that must already reflect the
/// pre-transition state, and the aggregates rolled forward for the next
/// epoch. The caller owns it and commits or discards it atomically.
#[derive(Clone, Debug)]
pub struct BeaconState {
    /// The validator registry.
    pub validators: Vec<Validator>,
    /// Balances, index-aligned with `validators`.
    pub balances: Vec<u64>,
    /// Previous-epoch participation flags, index-aligned with `validators`.
    pub previous_epoch_participation: Vec<ParticipationFlags>,
    /// Current-epoch participation flags, index-aligned with `validators`.
    pub current_epoch_participation: Vec<ParticipationFlags>,
    /// Inactivity scores, index-aligned with `validators`.
    pub inactivity_scores: Vec<u64>,
    /// The rolling vector of recorded slashing amounts.
    pub slashings: Vec<u64>,
    /// The epoch being processed.
    pub current_epoch: u64,
    /// Whether finality has stalled chain-wide.
    pub is_in_inactivity_leak: bool,
    /// Cached total active balance of the current epoch.
    pub total_active_balance: u64,
    /// The protocol version in force.
    pub fork_name: ForkName,
    /// Per-epoch exit churn counters and the maximum exit epoch observed.
    pub exit_cache: ExitCache,
    /// Attesting-balance aggregates per participation flag.
    pub progressive_balances: ProgressiveBalancesCache,
    /// Precomputed base rewards and the current activation queue.
    pub epoch_cache: EpochCache,
    /// Total active balance accumulated for the next epoch; committed by the
    /// effective-balance stage.
    pub next_epoch_total_active_balance: u64,
    /// Next-epoch effective balances accumulated during the pass.
    pub next_epoch_cache: PreEpochCache,
    /// The next epoch's speculative activation queue built during the pass.
    pub next_epoch_activation_queue: ActivationQueue,
}

/// Immutable snapshot of the validator records and both participation
/// bitsets taken before any mutation, handed to monitoring.
#[derive(Clone, Debug)]
pub struct ParticipationEpochSummary {
    /// The validator registry before the pass.
    pub validators: Vec<Validator>,
    /// Previous-epoch participation before the pass.
    pub previous_epoch_participation: Vec<ParticipationFlags>,
    /// Current-epoch participation before the pass.
    pub current_epoch_participation: Vec<ParticipationFlags>,
    /// The epoch before the one processed.
    pub previous_epoch: u64,
    /// The epoch processed.
    pub current_epoch: u64,
}

impl ParticipationEpochSummary {
    /// Assemble a snapshot from pre-mutation copies of the state.
    pub fn new(
        validators: Vec<Validator>,
        previous_epoch_participation: Vec<ParticipationFlags>,
        current_epoch_participation: Vec<ParticipationFlags>,
        previous_epoch: u64,
        current_epoch: u64,
    ) -> (r: ParticipationEpochSummary)
        ensures
            r.validators@ == validators@,
            r.previous_epoch_participation@ == previous_epoch_participation@,
            r.current_epoch_participation@ == current_epoch_participation@,
            r.previous_epoch == previous_epoch,
            r.current_epoch == current_epoch,
    {
        ParticipationEpochSummary {
            validators,
            previous_epoch_participation,
            current_epoch_participation,
            previous_epoch,
            current_epoch,
        }
    }
}

} // verus!
