use vstd::prelude::*;

use crate::arith::spec_saturating_sub;
use crate::arith::Delta;
use crate::config::{ChainSpec, ForkName};
use crate::errors::Error;
use crate::participation::{
    spec_flag_weight, spec_has_flag, ParticipationFlags, NUM_FLAG_INDICES, TIMELY_HEAD_FLAG_INDEX,
    TIMELY_TARGET_FLAG_INDEX, WEIGHT_DENOMINATOR,
};

verus! {

/// Independent switches for the five stages, used to isolate one rule at a
/// time in differential tests; all stages are enabled by default.
pub struct SinglePassConfig {
    pub inactivity_updates: bool,
    pub rewards_and_penalties: bool,
    pub registry_updates: bool,
    pub slashings: bool,
    pub effective_balance_updates: bool,
}

impl Default for SinglePassConfig {
    /// The default runs every stage.
    fn default() -> (r: SinglePassConfig)
        ensures
            r.inactivity_updates && r.rewards_and_penalties && r.registry_updates && r.slashings
                && r.effective_balance_updates,
    {
        Self::enable_all()
    }
}

impl SinglePassConfig {
    /// A configuration with every stage enabled.
    pub fn enable_all() -> (r: SinglePassConfig)
        ensures
            r.inactivity_updates && r.rewards_and_penalties && r.registry_updates && r.slashings
                && r.effective_balance_updates,
    {
        Self {
            inactivity_updates: true,
            rewards_and_penalties: true,
            registry_updates: true,
            slashings: true,
            effective_balance_updates: true,
        }
    }

    /// A configuration with every stage disabled.
    pub fn disable_all() -> (r: SinglePassConfig)
        ensures
            !r.inactivity_updates && !r.rewards_and_penalties && !r.registry_updates
                && !r.slashings && !r.effective_balance_updates,
    {
        SinglePassConfig {
            inactivity_updates: false,
            rewards_and_penalties: false,
            registry_updates: false,
            slashings: false,
            effective_balance_updates: false,
        }
    }
}

/// The epoch before `current`, floored at the genesis epoch.
pub open spec fn spec_previous_epoch(current: u64) -> u64 {
    if current > 0 {
        (current - 1) as u64
    } else {
        0u64
    }
}

/// Values derived from the state that stay immutable throughout the pass.
pub struct StateContext {
    /// The epoch being processed.
    pub current_epoch: u64,
    /// The epoch before it, floored at genesis.
    pub previous_epoch: u64,
    /// The epoch after it.
    pub next_epoch: u64,
    /// Whether finality has stalled chain-wide.
    pub is_in_inactivity_leak: bool,
    /// Total active balance of the current epoch.
    pub total_active_balance: u64,
    /// The per-epoch exit churn limit.
    pub churn_limit: u64,
    /// The protocol version in force.
    pub fork_name: ForkName,
}

/// Ephemeral per-validator snapshot threading computed facts between the
/// stages of one iteration step; read-only once built.
#[derive(Clone, Copy, Debug, PartialEq, Eq, Structural)]
pub struct ValidatorInfo {
    pub index: usize,
    pub effective_balance: u64,
    pub base_reward: u64,
    pub is_eligible: bool,
    pub is_slashed: bool,
    pub is_active_current_epoch: bool,
    pub is_active_previous_epoch: bool,
    /// Used for determining rewards.
    pub previous_epoch_participation: ParticipationFlags,
    /// Used for updating the progressive-balances cache for the next epoch.
    pub current_epoch_participation: ParticipationFlags,
}

/// Whether the validator was active in the previous epoch, unslashed, and
/// timely for the flag at `flag_index`.
pub open spec fn spec_unslashed_participating(info: &ValidatorInfo, flag_index: usize) -> bool {
    info.is_active_previous_epoch && !info.is_slashed && spec_has_flag(
        info.previous_epoch_participation.bits,
        flag_index,
    )
}

impl ValidatorInfo {
    /// Whether the validator counts as an unslashed participant for the flag
    /// at `flag_index`.
    pub fn is_unslashed_participating_index(&self, flag_index: usize) -> (r: Result<bool, Error>)
        ensures
            flag_index < NUM_FLAG_INDICES ==> r == Result::<bool, Error>::Ok(
                spec_unslashed_participating(self, flag_index),
            ),
            flag_index >= NUM_FLAG_INDICES && self.is_active_previous_epoch && !self.is_slashed
                ==> r == Result::<bool, Error>::Err(Error::InvalidFlagIndex(flag_index)),
            flag_index >= NUM_FLAG_INDICES && !(self.is_active_previous_epoch && !self.is_slashed)
                ==> r == Result::<bool, Error>::Ok(false),
    {
        if self.is_active_previous_epoch && !self.is_slashed {
            match self.previous_epoch_participation.has_flag(flag_index) {
                Ok(b) => Ok(b),
                Err(e) => Err(e),
            }
        } else {
            Ok(false)
        }
    }
}

/// The smaller of two amounts.
pub open spec fn spec_min_u64(a: u64, b: u64) -> u64 {
    if a <= b {
        a
    } else {
        b
    }
}

/// The forgiveness decay applied to an already-adjusted inactivity score:
/// outside a leak the score shrinks by the recovery rate, floored at zero.
pub open spec fn spec_inactivity_decay(score: u64, is_in_leak: bool, spec: &ChainSpec) -> u64 {
    if !is_in_leak {
        (score - spec_min_u64(spec.inactivity_score_recovery_rate, score)) as u64
    } else {
        score
    }
}

/// The inactivity-score update of one validator: `None` when the bias
/// increment would overflow.
#[verifier::opaque]
pub open spec fn spec_inactivity_update(
    score: u64,
    info: &ValidatorInfo,
    is_in_leak: bool,
    spec: &ChainSpec,
) -> Option<u64> {
    if !info.is_eligible {
        Some(score)
    } else if spec_unslashed_participating(info, TIMELY_TARGET_FLAG_INDEX) {
        if score == 0 {
            // No decrement is possible and the decay of zero is zero: the
            // score is left untouched.
            Some(score)
        } else {
            Some(spec_inactivity_decay((score - 1) as u64, is_in_leak, spec))
        }
    } else {
        if score + spec.inactivity_score_bias > u64::MAX {
            None
        } else {
            Some(
                spec_inactivity_decay(
                    (score + spec.inactivity_score_bias) as u64,
                    is_in_leak,
                    spec,
                ),
            )
        }
    }
}

/// Update one validator's inactivity score: participation-based adjustment
/// first, then the forgiveness decay outside a leak.
pub fn process_single_inactivity_update(
    inactivity_score: &mut u64,
    validator_info: &ValidatorInfo,
    state_ctxt: &StateContext,
    spec: &ChainSpec,
) -> (r: Result<(), Error>)
    ensures
        r.is_ok() <==> spec_inactivity_update(
            *old(inactivity_score),
            validator_info,
            state_ctxt.is_in_inactivity_leak,
            spec,
        ) is Some,
        r.is_ok() ==> Some(*final(inactivity_score)) == spec_inactivity_update(
            *old(inactivity_score),
            validator_info,
            state_ctxt.is_in_inactivity_leak,
            spec,
        ),
        r.is_err() ==> *final(inactivity_score) == *old(inactivity_score) && r == Result::<
            (),
            Error,
        >::Err(Error::ArithmeticError),
{
    proof {
        reveal(spec_inactivity_update);
    }
    if !validator_info.is_eligible {
        return Ok(());
    }
    // Increase the inactivity score of inactive validators.
    match validator_info.is_unslashed_participating_index(TIMELY_TARGET_FLAG_INDEX) {
        Ok(true) => {
            // Avoid mutating when the score is already zero and cannot go any
            // lower: the common case.
            if *inactivity_score == 0 {
                return Ok(());
            }
            *inactivity_score = *inactivity_score - 1;
        },
        Ok(false) => {
            match inactivity_score.checked_add(spec.inactivity_score_bias) {
                Some(next) => {
                    *inactivity_score = next;
                },
                None => {
                    return Err(Error::ArithmeticError);
                },
            }
        },
        Err(e) => {
            return Err(e);
        },
    }
    // Decrease the score of all validators for forgiveness when not in a
    // leak, using the already-adjusted score.
    if !state_ctxt.is_in_inactivity_leak {
        let deduction = if spec.inactivity_score_recovery_rate <= *inactivity_score {
            spec.inactivity_score_recovery_rate
        } else {
            *inactivity_score
        };
        *inactivity_score = *inactivity_score - deduction;
    }
    Ok(())
}

/// Shared figures of the reward stage: unslashed participating increments
/// per flag, and the total active increments.
pub struct RewardsAndPenaltiesContext {
    /// Unslashed previous-epoch attesting balance per flag, in increments.
    pub unslashed_participating_increments_array: Vec<u64>,
    /// Total active balance in increments.
    pub active_increments: u64,
}

impl RewardsAndPenaltiesContext {
    /// One increment figure per participation flag.
    pub open spec fn wf(&self) -> bool {
        self.unslashed_participating_increments_array@.len() == NUM_FLAG_INDICES
    }

    /// Derive the reward-stage context from the progressive-balances cache
    /// and the total active balance. Fails exactly when the increment is
    /// zero.
    pub fn new(
        progressive_balances: &crate::caches::ProgressiveBalancesCache,
        state_ctxt: &StateContext,
        spec: &ChainSpec,
    ) -> (r: Result<RewardsAndPenaltiesContext, Error>)
        requires
            progressive_balances.wf(),
        ensures
            r.is_ok() <==> spec.effective_balance_increment != 0,
            r.is_ok() ==> {
                &&& r->Ok_0.wf()
                &&& forall|f: usize| f < NUM_FLAG_INDICES
                    ==> r->Ok_0.unslashed_participating_increments_array@[f as int]
                    == progressive_balances.previous_epoch_flag_balances@[f as int]
                        / spec.effective_balance_increment
                &&& r->Ok_0.active_increments == state_ctxt.total_active_balance
                    / spec.effective_balance_increment
            },
            r.is_err() ==> r == Result::<RewardsAndPenaltiesContext, Error>::Err(
                Error::ArithmeticError,
            ),
    {
        let mut unslashed_participating_increments_array: Vec<u64> = Vec::new();
        let mut flag_index: usize = 0;
        while flag_index < NUM_FLAG_INDICES
            invariant
                progressive_balances.wf(),
                flag_index <= NUM_FLAG_INDICES,
                unslashed_participating_increments_array@.len() == flag_index,
                forall|f: usize| f < flag_index
                    ==> #[trigger] unslashed_participating_increments_array@[f as int]
                    == progressive_balances.previous_epoch_flag_balances@[f as int]
                        / spec.effective_balance_increment,
            decreases NUM_FLAG_INDICES - flag_index,
        {
            let unslashed_participating_balance = match progressive_balances
                .previous_epoch_flag_attesting_balance(flag_index) {
                Ok(b) => b,
                Err(e) => {
                    return Err(e);
                },
            };
            let increments = match unslashed_participating_balance.checked_div(
                spec.effective_balance_increment,
            ) {
                Some(v) => v,
                None => {
                    return Err(Error::ArithmeticError);
                },
            };
            unslashed_participating_increments_array.push(increments);
            flag_index = flag_index + 1;
        }
        let active_increments = match state_ctxt.total_active_balance.checked_div(
            spec.effective_balance_increment,
        ) {
            Some(v) => v,
            None => {
                return Err(Error::ArithmeticError);
            },
        };
        Ok(
            RewardsAndPenaltiesContext {
                unslashed_participating_increments_array,
                active_increments,
            },
        )
    }

    /// The unslashed participating increments of the flag at `flag_index`.
    pub fn get_unslashed_participating_increments(&self, flag_index: usize) -> (r: Result<
        u64,
        Error,
    >)
        ensures
            flag_index < self.unslashed_participating_increments_array@.len() ==> r == Result::<
                u64,
                Error,
            >::Ok(self.unslashed_participating_increments_array@[flag_index as int]),
            flag_index >= self.unslashed_participating_increments_array@.len() ==> r == Result::<
                u64,
                Error,
            >::Err(Error::InvalidFlagIndex(flag_index)),
    {
        if flag_index < self.unslashed_participating_increments_array.len() {
            Ok(self.unslashed_participating_increments_array[flag_index])
        } else {
            Err(Error::InvalidFlagIndex(flag_index))
        }
    }
}

/// The contribution of one flag to a validator's delta; defined for
/// `flag_index` within the flag range. `None` marks checked-arithmetic
/// failure. A participating flag rewards outside a leak; a missed flag other
/// than head timeliness penalizes.
pub open spec fn spec_apply_flag_delta(
    d: Delta,
    info: &ValidatorInfo,
    flag_index: usize,
    upi_array: Seq<u64>,
    active_increments: u64,
    is_in_leak: bool,
) -> Option<Delta> {
    let base_reward = info.base_reward;
    let weight = spec_flag_weight(flag_index)->Some_0;
    let upi = upi_array[flag_index as int];
    if spec_unslashed_participating(info, flag_index) {
        if !is_in_leak {
            if base_reward * weight > u64::MAX {
                None
            } else if base_reward * weight * upi > u64::MAX {
                None
            } else if active_increments * WEIGHT_DENOMINATOR > u64::MAX {
                None
            } else if active_increments * WEIGHT_DENOMINATOR == 0 {
                None
            } else {
                let reward = base_reward * weight * upi / (active_increments
                    * WEIGHT_DENOMINATOR);
                if d.rewards + reward > u64::MAX {
                    None
                } else {
                    Some(Delta { rewards: (d.rewards + reward) as u64, penalties: d.penalties })
                }
            }
        } else {
            Some(d)
        }
    } else if flag_index != TIMELY_HEAD_FLAG_INDEX {
        if base_reward * weight > u64::MAX {
            None
        } else {
            let penalty = base_reward * weight / (WEIGHT_DENOMINATOR as int);
            if d.penalties + penalty > u64::MAX {
                None
            } else {
                Some(Delta { rewards: d.rewards, penalties: (d.penalties + penalty) as u64 })
            }
        }
    } else {
        Some(d)
    }
}

/// The delta after the first `n` flags have contributed, in flag order.
pub open spec fn spec_flag_fold(
    d: Delta,
    info: &ValidatorInfo,
    upi_array: Seq<u64>,
    active_increments: u64,
    is_in_leak: bool,
    n: nat,
) -> Option<Delta>
    decreases n,
{
    if n == 0 {
        Some(d)
    } else {
        match spec_flag_fold(d, info, upi_array, active_increments, is_in_leak, (n - 1) as nat) {
            Some(acc) => spec_apply_flag_delta(
                acc,
                info,
                (n - 1) as usize,
                upi_array,
                active_increments,
                is_in_leak,
            ),
            None => None,
        }
    }
}

/// Once a prefix of the flags fails, the whole fold fails.
proof fn lemma_flag_fold_none(
    d: Delta,
    info: &ValidatorInfo,
    upi_array: Seq<u64>,
    active_increments: u64,
    is_in_leak: bool,
    m: nat,
    n: nat,
)
    requires
        m <= n,
        spec_flag_fold(d, info, upi_array, active_increments, is_in_leak, m) is None,
    ensures
        spec_flag_fold(d, info, upi_array, active_increments, is_in_leak, n) is None,
    decreases n - m,
{
    if m < n {
        lemma_flag_fold_none(d, info, upi_array, active_increments, is_in_leak, m, (n - 1) as nat);
    }
}

/// Add one flag's reward or penalty to the delta. The head-timeliness flag
/// never contributes a penalty.
pub fn get_flag_index_delta(
    delta: &mut Delta,
    validator_info: &ValidatorInfo,
    flag_index: usize,
    rewards_ctxt: &RewardsAndPenaltiesContext,
    state_ctxt: &StateContext,
) -> (r: Result<(), Error>)
    requires
        rewards_ctxt.wf(),
    ensures
        flag_index < NUM_FLAG_INDICES ==> {
            &&& r.is_ok() <==> spec_apply_flag_delta(
                *old(delta),
                validator_info,
                flag_index,
                rewards_ctxt.unslashed_participating_increments_array@,
                rewards_ctxt.active_increments,
                state_ctxt.is_in_inactivity_leak,
            ) is Some
            &&& r.is_ok() ==> Some(*final(delta)) == spec_apply_flag_delta(
                *old(delta),
                validator_info,
                flag_index,
                rewards_ctxt.unslashed_participating_increments_array@,
                rewards_ctxt.active_increments,
                state_ctxt.is_in_inactivity_leak,
            )
            &&& r.is_err() ==> *final(delta) == *old(delta) && r == Result::<(), Error>::Err(
                Error::ArithmeticError,
            )
        },
        flag_index >= NUM_FLAG_INDICES ==> r == Result::<(), Error>::Err(
            Error::InvalidFlagIndex(flag_index),
        ) && *final(delta) == *old(delta),
        flag_index == TIMELY_HEAD_FLAG_INDEX ==> final(delta).penalties == old(delta).penalties,
{
    let base_reward = validator_info.base_reward;
    let weight = match crate::participation::get_flag_weight(flag_index) {
        Ok(w) => w,
        Err(e) => {
            return Err(e);
        },
    };
    let unslashed_participating_increments = match rewards_ctxt
        .get_unslashed_participating_increments(flag_index) {
        Ok(v) => v,
        Err(e) => {
            return Err(e);
        },
    };
    let participating = match validator_info.is_unslashed_participating_index(flag_index) {
        Ok(b) => b,
        Err(e) => {
            return Err(e);
        },
    };
    if participating {
        if !state_ctxt.is_in_inactivity_leak {
            let weighted = match base_reward.checked_mul(weight) {
                Some(v) => v,
                None => {
                    return Err(Error::ArithmeticError);
                },
            };
            let reward_numerator = match weighted.checked_mul(unslashed_participating_increments) {
                Some(v) => v,
                None => {
                    return Err(Error::ArithmeticError);
                },
            };
            let denominator = match rewards_ctxt.active_increments.checked_mul(WEIGHT_DENOMINATOR) {
                Some(v) => v,
                None => {
                    return Err(Error::ArithmeticError);
                },
            };
            let reward = match reward_numerator.checked_div(denominator) {
                Some(v) => v,
                None => {
                    return Err(Error::ArithmeticError);
                },
            };
            match delta.reward(reward) {
                Ok(()) => {},
                Err(e) => {
                    return Err(e);
                },
            }
        }
    } else if flag_index != TIMELY_HEAD_FLAG_INDEX {
        let weighted = match base_reward.checked_mul(weight) {
            Some(v) => v,
            None => {
                return Err(Error::ArithmeticError);
            },
        };
        let penalty = weighted / WEIGHT_DENOMINATOR;
        match delta.penalize(penalty) {
            Ok(()) => {},
            Err(e) => {
                return Err(e);
            },
        }
    }
    Ok(())
}

/// The head-timeliness flag never contributes a penalty: whatever delta it
/// is applied to, the pending penalties are unchanged.
pub proof fn lemma_head_flag_never_penalizes(
    d: Delta,
    info: &ValidatorInfo,
    upi_array: Seq<u64>,
    active_increments: u64,
    is_in_leak: bool,
)
    ensures
        spec_apply_flag_delta(
            d,
            info,
            TIMELY_HEAD_FLAG_INDEX,
            upi_array,
            active_increments,
            is_in_leak,
        ) matches Some(after) ==> after.penalties == d.penalties,
{
}

/// The extra inactivity penalty of a validator that missed the target flag:
/// `effective_balance * inactivity_score / (bias * fork quotient)`.
pub open spec fn spec_apply_inactivity_penalty(
    d: Delta,
    info: &ValidatorInfo,
    inactivity_score: u64,
    fork: ForkName,
    spec: &ChainSpec,
) -> Option<Delta> {
    if !spec_unslashed_participating(info, TIMELY_TARGET_FLAG_INDEX) {
        if info.effective_balance * inactivity_score > u64::MAX {
            None
        } else if spec.inactivity_score_bias * spec.spec_inactivity_penalty_quotient_for_fork(fork)
            > u64::MAX {
            None
        } else if spec.inactivity_score_bias * spec.spec_inactivity_penalty_quotient_for_fork(fork)
            == 0 {
            None
        } else {
            let penalty = info.effective_balance * inactivity_score / (spec.inactivity_score_bias
                * spec.spec_inactivity_penalty_quotient_for_fork(fork));
            if d.penalties + penalty > u64::MAX {
                None
            } else {
                Some(Delta { rewards: d.rewards, penalties: (d.penalties + penalty) as u64 })
            }
        }
    } else {
        Some(d)
    }
}

/// Add the inactivity penalty of a validator that missed the target flag.
pub fn get_inactivity_penalty_delta(
    delta: &mut Delta,
    validator_info: &ValidatorInfo,
    inactivity_score: &u64,
    state_ctxt: &StateContext,
    spec: &ChainSpec,
) -> (r: Result<(), Error>)
    ensures
        r.is_ok() <==> spec_apply_inactivity_penalty(
            *old(delta),
            validator_info,
            *inactivity_score,
            state_ctxt.fork_name,
            spec,
        ) is Some,
        r.is_ok() ==> Some(*final(delta)) == spec_apply_inactivity_penalty(
            *old(delta),
            validator_info,
            *inactivity_score,
            state_ctxt.fork_name,
            spec,
        ),
        r.is_err() ==> *final(delta) == *old(delta) && r == Result::<(), Error>::Err(
            Error::ArithmeticError,
        ),
{
    let participating = match validator_info.is_unslashed_participating_index(
        TIMELY_TARGET_FLAG_INDEX,
    ) {
        Ok(b) => b,
        Err(e) => {
            return Err(e);
        },
    };
    if !participating {
        let penalty_numerator = match validator_info.effective_balance.checked_mul(
            *inactivity_score,
        ) {
            Some(v) => v,
            None => {
                return Err(Error::ArithmeticError);
            },
        };
        let quotient = spec.inactivity_penalty_quotient_for_fork(state_ctxt.fork_name);
        let penalty_denominator = match spec.inactivity_score_bias.checked_mul(quotient) {
            Some(v) => v,
            None => {
                return Err(Error::ArithmeticError);
            },
        };
        let penalty = match penalty_numerator.checked_div(penalty_denominator) {
            Some(v) => v,
            None => {
                return Err(Error::ArithmeticError);
            },
        };
        match delta.penalize(penalty) {
            Ok(()) => {},
            Err(e) => {
                return Err(e);
            },
        }
    }
    Ok(())
}

/// The balance of one eligible validator after the reward stage: all three
/// flag contributions and the inactivity term combined into one delta, the
/// rewards added, and the penalties subtracted with saturation.
#[verifier::opaque]
pub open spec fn spec_rewards_outcome(
    balance: u64,
    inactivity_score: u64,
    info: &ValidatorInfo,
    upi_array: Seq<u64>,
    active_increments: u64,
    is_in_leak: bool,
    fork: ForkName,
    spec: &ChainSpec,
) -> Option<u64> {
    if !info.is_eligible {
        Some(balance)
    } else {
        match spec_flag_fold(
            Delta { rewards: 0u64, penalties: 0u64 },
            info,
            upi_array,
            active_increments,
            is_in_leak,
            NUM_FLAG_INDICES as nat,
        ) {
            None => None,
            Some(flag_delta) => match spec_apply_inactivity_penalty(
                flag_delta,
                info,
                inactivity_score,
                fork,
                spec,
            ) {
                None => None,
                Some(d) => {
                    if balance + d.rewards > u64::MAX {
                        None
                    } else {
                        Some(spec_saturating_sub((balance + d.rewards) as u64, d.penalties))
                    }
                },
            },
        }
    }
}

/// Apply the reward stage to one eligible validator's balance: combine the
/// three flag deltas and the inactivity term, add the rewards, then subtract
/// the penalties saturating at zero.
pub fn process_single_reward_and_penalty(
    balance: &mut u64,
    inactivity_score: &u64,
    validator_info: &ValidatorInfo,
    rewards_ctxt: &RewardsAndPenaltiesContext,
    state_ctxt: &StateContext,
    spec: &ChainSpec,
) -> (r: Result<(), Error>)
    requires
        rewards_ctxt.wf(),
    ensures
        r.is_ok() <==> spec_rewards_outcome(
            *old(balance),
            *inactivity_score,
            validator_info,
            rewards_ctxt.unslashed_participating_increments_array@,
            rewards_ctxt.active_increments,
            state_ctxt.is_in_inactivity_leak,
            state_ctxt.fork_name,
            spec,
        ) is Some,
        r.is_ok() ==> Some(*final(balance)) == spec_rewards_outcome(
            *old(balance),
            *inactivity_score,
            validator_info,
            rewards_ctxt.unslashed_participating_increments_array@,
            rewards_ctxt.active_increments,
            state_ctxt.is_in_inactivity_leak,
            state_ctxt.fork_name,
            spec,
        ),
        r.is_err() ==> *final(balance) == *old(balance) && r == Result::<(), Error>::Err(
            Error::ArithmeticError,
        ),
{
    proof {
        reveal(spec_rewards_outcome);
    }
    if !validator_info.is_eligible {
        return Ok(());
    }
    let mut delta = Delta::new();
    let mut flag_index: usize = 0;
    while flag_index < NUM_FLAG_INDICES
        invariant
            rewards_ctxt.wf(),
            validator_info.is_eligible,
            flag_index <= NUM_FLAG_INDICES,
            spec_flag_fold(
                Delta { rewards: 0u64, penalties: 0u64 },
                validator_info,
                rewards_ctxt.unslashed_participating_increments_array@,
                rewards_ctxt.active_increments,
                state_ctxt.is_in_inactivity_leak,
                flag_index as nat,
            ) == Some(delta),
        decreases NUM_FLAG_INDICES - flag_index,
    {
        match get_flag_index_delta(
            &mut delta,
            validator_info,
            flag_index,
            rewards_ctxt,
            state_ctxt,
        ) {
            Ok(()) => {},
            Err(e) => {
                proof {
                    reveal(spec_rewards_outcome);
                    lemma_flag_fold_none(
                        Delta { rewards: 0u64, penalties: 0u64 },
                        validator_info,
                        rewards_ctxt.unslashed_participating_increments_array@,
                        rewards_ctxt.active_increments,
                        state_ctxt.is_in_inactivity_leak,
                        (flag_index + 1) as nat,
                        NUM_FLAG_INDICES as nat,
                    );
                }
                return Err(e);
            },
        }
        flag_index = flag_index + 1;
    }
    match get_inactivity_penalty_delta(&mut delta, validator_info, inactivity_score, state_ctxt, spec) {
        Ok(()) => {},
        Err(e) => {
            return Err(e);
        },
    }
    if delta.rewards != 0 || delta.penalties != 0 {
        let summed = match balance.checked_add(delta.rewards) {
            Some(v) => v,
            None => {
                return Err(Error::ArithmeticError);
            },
        };
        *balance = summed.saturating_sub(delta.penalties);
    }
    Ok(())
}

/// The epoch an exit initiated now is assigned to: the later of the
/// cache's maximum exit epoch and the minimum delayed epoch, advanced by one
/// when the churn already recorded there reaches the churn limit. `None`
/// marks checked-arithmetic failure.
pub open spec fn spec_exit_queue_epoch(
    exit_entries: Seq<(u64, u64)>,
    max_exit_epoch: Option<u64>,
    churn_limit: u64,
    current_epoch: u64,
    spec: &ChainSpec,
) -> Option<u64> {
    if spec.spec_activation_exit_epoch(current_epoch) > u64::MAX {
        None
    } else {
        let delayed = spec.spec_activation_exit_epoch(current_epoch) as u64;
        let candidate = match max_exit_epoch {
            Option::Some(m) => if m >= delayed {
                m
            } else {
                delayed
            },
            Option::None => delayed,
        };
        if crate::caches::spec_lookup(exit_entries, candidate) >= churn_limit {
            if candidate + 1 > u64::MAX {
                None
            } else {
                Some((candidate + 1) as u64)
            }
        } else {
            Some(candidate)
        }
    }
}

/// Schedule the exit of one active, under-ejected validator. A validator
/// that has already initiated exit is left untouched, together with the
/// cache: the exit transition is one-directional and never reverses. On any
/// arithmetic failure neither the validator nor the cache changes.
pub fn initiate_validator_exit(
    validator: &mut crate::validator::Validator,
    exit_cache: &mut crate::caches::ExitCache,
    state_ctxt: &StateContext,
    spec: &ChainSpec,
) -> (r: Result<(), Error>)
    ensures
        old(validator).exit_epoch != spec.far_future_epoch ==> r.is_ok() && *final(validator)
            == *old(validator) && *final(exit_cache) == *old(exit_cache),
        old(validator).exit_epoch == spec.far_future_epoch ==> match spec_exit_queue_epoch(
            old(exit_cache).entries@,
            old(exit_cache).max_exit_epoch,
            state_ctxt.churn_limit,
            state_ctxt.current_epoch,
            spec,
        ) {
            Option::None => r == Result::<(), Error>::Err(Error::ArithmeticError)
                && *final(validator) == *old(validator)
                && *final(exit_cache) == *old(exit_cache),
            Option::Some(e) => {
                if e + spec.min_validator_withdrawability_delay > u64::MAX
                    || crate::caches::spec_lookup(old(exit_cache).entries@, e) + 1 > u64::MAX {
                    r == Result::<(), Error>::Err(Error::ArithmeticError) && *final(validator)
                        == *old(validator) && *final(exit_cache) == *old(exit_cache)
                } else {
                    &&& r.is_ok()
                    &&& *final(validator) == (crate::validator::Validator {
                        exit_epoch: e,
                        withdrawable_epoch: (e
                            + spec.min_validator_withdrawability_delay) as u64,
                        ..*old(validator)
                    })
                    &&& final(exit_cache).entries@ == crate::caches::spec_record_entries(
                        old(exit_cache).entries@,
                        e,
                    )
                    &&& final(exit_cache).max_exit_epoch == Some(
                        match old(exit_cache).max_exit_epoch {
                            Option::Some(m) => if m >= e { m } else { e },
                            Option::None => e,
                        },
                    )
                    &&& crate::caches::spec_lookup(final(exit_cache).entries@, e)
                        == crate::caches::spec_lookup(old(exit_cache).entries@, e) + 1
                    &&& forall|x: u64| x != e ==> crate::caches::spec_lookup(
                        final(exit_cache).entries@,
                        x,
                    ) == crate::caches::spec_lookup(old(exit_cache).entries@, x)
                    &&& old(exit_cache).wf() ==> final(exit_cache).wf()
                }
            },
        },
        // Churn bound: a pass that respects the limit keeps respecting it.
        r.is_ok() && old(exit_cache).wf() && crate::caches::spec_churn_bounded(
            old(exit_cache).entries@,
            state_ctxt.churn_limit,
        ) && state_ctxt.churn_limit >= 1 ==> crate::caches::spec_churn_bounded(
            final(exit_cache).entries@,
            state_ctxt.churn_limit,
        ),
{
    // Return if the validator already initiated exit.
    if validator.exit_epoch != spec.far_future_epoch {
        return Ok(());
    }
    // Compute the exit queue epoch.
    let delayed_epoch = match spec.compute_activation_exit_epoch(state_ctxt.current_epoch) {
        Ok(e) => e,
        Err(e) => {
            return Err(e);
        },
    };
    let mut exit_queue_epoch = match exit_cache.max_epoch() {
        Some(m) => if m >= delayed_epoch {
            m
        } else {
            delayed_epoch
        },
        None => delayed_epoch,
    };
    let exit_queue_churn = exit_cache.churn_at(exit_queue_epoch);
    let ghost candidate = exit_queue_epoch;
    if exit_queue_churn >= state_ctxt.churn_limit {
        exit_queue_epoch = match exit_queue_epoch.checked_add(1) {
            Some(e) => e,
            None => {
                return Err(Error::ArithmeticError);
            },
        };
    }
    let withdrawable_epoch = match exit_queue_epoch.checked_add(
        spec.min_validator_withdrawability_delay,
    ) {
        Some(e) => e,
        None => {
            return Err(Error::ArithmeticError);
        },
    };
    // Record the exit first: a failing record leaves every structure
    // unchanged.
    match exit_cache.record_exit(exit_queue_epoch) {
        Ok(()) => {},
        Err(e) => {
            return Err(e);
        },
    }
    proof {
        if old(exit_cache).wf() && crate::caches::spec_churn_bounded(
            old(exit_cache).entries@,
            state_ctxt.churn_limit,
        ) && state_ctxt.churn_limit >= 1 {
            if crate::caches::spec_lookup(old(exit_cache).entries@, candidate)
                >= state_ctxt.churn_limit {
                // The chosen epoch lies past every recorded epoch, so its
                // churn was zero before this exit.
                assert(forall|j: int| 0 <= j < old(exit_cache).entries@.len()
                    ==> #[trigger] old(exit_cache).entries@[j].0 != exit_queue_epoch);
                crate::caches::lemma_lookup_absent(old(exit_cache).entries@, exit_queue_epoch);
            }
        }
    }
    validator.exit_epoch = exit_queue_epoch;
    validator.withdrawable_epoch = withdrawable_epoch;
    Ok(())
}

/// The validator after the activation-eligibility step: a validator newly
/// meeting the criteria is queued for the epoch after the current one.
pub open spec fn spec_registry_eligibility_step(
    v: crate::validator::Validator,
    current_epoch: u64,
    spec: &ChainSpec,
) -> Option<crate::validator::Validator> {
    if v.spec_is_eligible_for_activation_queue(spec) {
        if current_epoch + 1 > u64::MAX {
            None
        } else {
            Some(
                crate::validator::Validator {
                    activation_eligibility_epoch: (current_epoch + 1) as u64,
                    ..v
                },
            )
        }
    } else {
        Some(v)
    }
}

/// The registry update of one validator: the updated record, and the epoch
/// an exit was recorded at, if one was. `None` marks checked-arithmetic
/// failure.
#[verifier::opaque]
pub open spec fn spec_registry_update(
    v0: crate::validator::Validator,
    exit_entries: Seq<(u64, u64)>,
    max_exit_epoch: Option<u64>,
    in_activation_queue: bool,
    churn_limit: u64,
    current_epoch: u64,
    next_epoch: u64,
    spec: &ChainSpec,
) -> Option<(crate::validator::Validator, Option<u64>)> {
    match spec_registry_eligibility_step(v0, current_epoch, spec) {
        None => None,
        Some(v1) => {
            if in_activation_queue && spec.spec_activation_exit_epoch(current_epoch) > u64::MAX {
                None
            } else {
                let exiting = v1.spec_is_active_at(current_epoch) && v1.effective_balance
                    <= spec.ejection_balance && v1.exit_epoch == spec.far_future_epoch;
                if exiting {
                    match spec_exit_queue_epoch(
                        exit_entries,
                        max_exit_epoch,
                        churn_limit,
                        current_epoch,
                        spec,
                    ) {
                        None => None,
                        Some(e) => {
                            if e + spec.min_validator_withdrawability_delay > u64::MAX
                                || crate::caches::spec_lookup(exit_entries, e) + 1 > u64::MAX {
                                None
                            } else {
                                let v2 = crate::validator::Validator {
                                    exit_epoch: e,
                                    withdrawable_epoch: (e
                                        + spec.min_validator_withdrawability_delay) as u64,
                                    ..v1
                                };
                                let v3 = if in_activation_queue {
                                    crate::validator::Validator {
                                        activation_epoch: spec.spec_activation_exit_epoch(
                                            current_epoch,
                                        ) as u64,
                                        ..v2
                                    }
                                } else {
                                    v2
                                };
                                Some((v3, Some(e)))
                            }
                        },
                    }
                } else {
                    let v3 = if in_activation_queue {
                        crate::validator::Validator {
                            activation_epoch: spec.spec_activation_exit_epoch(
                                current_epoch,
                            ) as u64,
                            ..v1
                        }
                    } else {
                        v1
                    };
                    Some((v3, None))
                }
            }
        },
    }
}

/// Apply the registry-update stage to one validator: queue newly eligible
/// validators for activation, eject an active validator at or below the
/// ejection threshold, activate a validator whose index is in this epoch's
/// activation queue, and offer the final record to the next epoch's
/// speculative activation queue.
pub fn process_single_registry_update(
    validator: &mut crate::validator::Validator,
    validator_info: &ValidatorInfo,
    exit_cache: &mut crate::caches::ExitCache,
    activation_queue: &Vec<usize>,
    next_epoch_activation_queue: &mut crate::caches::ActivationQueue,
    state_ctxt: &StateContext,
    spec: &ChainSpec,
) -> (r: Result<(), Error>)
    ensures
        match spec_registry_update(
            *old(validator),
            old(exit_cache).entries@,
            old(exit_cache).max_exit_epoch,
            activation_queue@.contains(validator_info.index),
            state_ctxt.churn_limit,
            state_ctxt.current_epoch,
            state_ctxt.next_epoch,
            spec,
        ) {
            Option::None => {
                &&& r == Result::<(), Error>::Err(Error::ArithmeticError)
                &&& *final(validator) == *old(validator)
                &&& *final(exit_cache) == *old(exit_cache)
                &&& *final(next_epoch_activation_queue) == *old(next_epoch_activation_queue)
            },
            Option::Some((v3, exited)) => {
                &&& r.is_ok()
                &&& *final(validator) == v3
                &&& match exited {
                    Option::None => *final(exit_cache) == *old(exit_cache),
                    Option::Some(e) => {
                        &&& final(exit_cache).entries@ == crate::caches::spec_record_entries(
                            old(exit_cache).entries@,
                            e,
                        )
                        &&& final(exit_cache).max_exit_epoch == Some(
                            match old(exit_cache).max_exit_epoch {
                                Option::Some(m) => if m >= e { m } else { e },
                                Option::None => e,
                            },
                        )
                        &&& crate::caches::spec_lookup(final(exit_cache).entries@, e)
                            == crate::caches::spec_lookup(old(exit_cache).entries@, e) + 1
                        &&& forall|x: u64| x != e ==> crate::caches::spec_lookup(
                            final(exit_cache).entries@,
                            x,
                        ) == crate::caches::spec_lookup(old(exit_cache).entries@, x)
                        &&& old(exit_cache).wf() ==> final(exit_cache).wf()
                    },
                }
                &&& if v3.spec_could_be_eligible_for_activation_at(state_ctxt.next_epoch, spec) {
                    final(next_epoch_activation_queue).queue@ == old(
                        next_epoch_activation_queue,
                    ).queue@.push((v3.activation_eligibility_epoch, validator_info.index))
                } else {
                    *final(next_epoch_activation_queue) == *old(next_epoch_activation_queue)
                }
            },
        },
        // Exit monotonicity: an exit scheduled before this stage survives it.
        r.is_ok() && old(validator).exit_epoch != spec.far_future_epoch
            ==> final(validator).exit_epoch == old(validator).exit_epoch
            && final(validator).withdrawable_epoch == old(validator).withdrawable_epoch,
        // Churn bound: a pass that respects the limit keeps respecting it.
        r.is_ok() && old(exit_cache).wf() && crate::caches::spec_churn_bounded(
            old(exit_cache).entries@,
            state_ctxt.churn_limit,
        ) && state_ctxt.churn_limit >= 1 ==> crate::caches::spec_churn_bounded(
            final(exit_cache).entries@,
            state_ctxt.churn_limit,
        ) && (old(exit_cache).wf() ==> final(exit_cache).wf()),
{
    proof {
        reveal(spec_registry_update);
    }
    let current_epoch = state_ctxt.current_epoch;
    let mut v = *validator;

    if v.is_eligible_for_activation_queue(spec) {
        match current_epoch.checked_add(1) {
            Some(next) => {
                v.activation_eligibility_epoch = next;
            },
            None => {
                return Err(Error::ArithmeticError);
            },
        }
    }

    let in_activation_queue = contains_index(activation_queue, validator_info.index);
    let mut delayed_activation_epoch: u64 = 0;
    if in_activation_queue {
        delayed_activation_epoch = match spec.compute_activation_exit_epoch(current_epoch) {
            Ok(e) => e,
            Err(e) => {
                return Err(e);
            },
        };
    }

    if v.is_active_at(current_epoch) && v.effective_balance <= spec.ejection_balance {
        match initiate_validator_exit(&mut v, exit_cache, state_ctxt, spec) {
            Ok(()) => {},
            Err(e) => {
                return Err(e);
            },
        }
    }

    if in_activation_queue {
        v.activation_epoch = delayed_activation_epoch;
    }

    // Caching: offer the final record to the next epoch's speculative
    // activation queue.
    next_epoch_activation_queue.add_if_could_be_eligible_for_activation(
        validator_info.index,
        &v,
        state_ctxt.next_epoch,
        spec,
    );

    *validator = v;
    Ok(())
}

/// Whether `index` occurs in `indices`.
fn contains_index(indices: &Vec<usize>, index: usize) -> (r: bool)
    ensures
        r == indices@.contains(index),
{
    let n = indices.len();
    let mut i: usize = 0;
    while i < n
        invariant
            n == indices@.len(),
            i <= n,
            forall|j: int| 0 <= j < i ==> indices@[j] != index,
        decreases n - i,
    {
        if indices[i] == index {
            assert(indices@[i as int] == index);
            return true;
        }
        i = i + 1;
    }
    assert(!indices@.contains(index));
    false
}

/// Epoch-wide figures of the slashing stage.
pub struct SlashingsContext {
    /// The slashing sum scaled by the fork multiplier, capped at the total
    /// active balance.
    pub adjusted_total_slashing_balance: u64,
    /// Only validators whose withdrawable epoch equals this are penalized.
    pub target_withdrawable_epoch: u64,
}

/// The slashing-stage context derived from the rolling slashings vector:
/// `None` marks checked-arithmetic failure.
pub open spec fn spec_slashings_context(
    slashings: Seq<u64>,
    total_active_balance: u64,
    current_epoch: u64,
    fork: ForkName,
    spec: &ChainSpec,
) -> Option<SlashingsContext> {
    match crate::arith::spec_checked_sum(slashings) {
        None => None,
        Some(sum) => {
            if sum * spec.spec_proportional_slashing_multiplier_for_fork(fork) > u64::MAX {
                None
            } else {
                let adjusted = spec_min_u64(
                    (sum * spec.spec_proportional_slashing_multiplier_for_fork(fork)) as u64,
                    total_active_balance,
                );
                if current_epoch + slashings.len() as u64 / 2 > u64::MAX {
                    None
                } else {
                    Some(
                        SlashingsContext {
                            adjusted_total_slashing_balance: adjusted,
                            target_withdrawable_epoch: (current_epoch
                                + slashings.len() as u64 / 2) as u64,
                        },
                    )
                }
            }
        },
    }
}

impl SlashingsContext {
    /// Derive the slashing-stage context once per epoch: scale the recorded
    /// slashing sum by the fork multiplier, cap it at the total active
    /// balance, and fix the targeted withdrawable epoch half a slashing
    /// vector ahead.
    pub fn new(slashings: &Vec<u64>, state_ctxt: &StateContext, spec: &ChainSpec) -> (r: Result<
        SlashingsContext,
        Error,
    >)
        ensures
            r == match spec_slashings_context(
                slashings@,
                state_ctxt.total_active_balance,
                state_ctxt.current_epoch,
                state_ctxt.fork_name,
                spec,
            ) {
                Some(ctxt) => Result::<SlashingsContext, Error>::Ok(ctxt),
                None => Result::<SlashingsContext, Error>::Err(Error::ArithmeticError),
            },
    {
        let sum_slashings = match crate::arith::checked_sum(slashings) {
            Ok(v) => v,
            Err(e) => {
                return Err(e);
            },
        };
        let multiplier = spec.proportional_slashing_multiplier_for_fork(state_ctxt.fork_name);
        let scaled = match sum_slashings.checked_mul(multiplier) {
            Some(v) => v,
            None => {
                return Err(Error::ArithmeticError);
            },
        };
        let adjusted_total_slashing_balance = if scaled <= state_ctxt.total_active_balance {
            scaled
        } else {
            state_ctxt.total_active_balance
        };
        let half_window = (slashings.len() as u64) / 2;
        let target_withdrawable_epoch = match state_ctxt.current_epoch.checked_add(half_window) {
            Some(v) => v,
            None => {
                return Err(Error::ArithmeticError);
            },
        };
        Ok(SlashingsContext { adjusted_total_slashing_balance, target_withdrawable_epoch })
    }
}

/// The balance of one validator after the slashing stage: a slashed
/// validator whose withdrawable epoch equals the target pays an
/// increment-quantized share of the adjusted slashing balance, saturating
/// at zero. `None` marks checked-arithmetic failure.
#[verifier::opaque]
pub open spec fn spec_slashing_outcome(
    balance: u64,
    v: crate::validator::Validator,
    slashings_ctxt: SlashingsContext,
    total_active_balance: u64,
    increment: u64,
) -> Option<u64> {
    if v.slashed && slashings_ctxt.target_withdrawable_epoch == v.withdrawable_epoch {
        if increment == 0 {
            None
        } else {
            let increments = v.effective_balance / increment;
            if increments * slashings_ctxt.adjusted_total_slashing_balance > u64::MAX {
                None
            } else if total_active_balance == 0 {
                None
            } else {
                let per_increment = increments * slashings_ctxt.adjusted_total_slashing_balance
                    / (total_active_balance as int);
                if per_increment * increment > u64::MAX {
                    None
                } else {
                    Some(spec_saturating_sub(balance, (per_increment * increment) as u64))
                }
            }
        }
    } else {
        Some(balance)
    }
}

/// Apply the slashing penalty to one validator's balance.
pub fn process_single_slashing(
    balance: &mut u64,
    validator: &crate::validator::Validator,
    slashings_ctxt: &SlashingsContext,
    state_ctxt: &StateContext,
    spec: &ChainSpec,
) -> (r: Result<(), Error>)
    ensures
        r.is_ok() <==> spec_slashing_outcome(
            *old(balance),
            *validator,
            *slashings_ctxt,
            state_ctxt.total_active_balance,
            spec.effective_balance_increment,
        ) is Some,
        r.is_ok() ==> Some(*final(balance)) == spec_slashing_outcome(
            *old(balance),
            *validator,
            *slashings_ctxt,
            state_ctxt.total_active_balance,
            spec.effective_balance_increment,
        ),
        r.is_err() ==> *final(balance) == *old(balance) && r == Result::<(), Error>::Err(
            Error::ArithmeticError,
        ),
{
    proof {
        reveal(spec_slashing_outcome);
    }
    if validator.slashed && slashings_ctxt.target_withdrawable_epoch
        == validator.withdrawable_epoch {
        let increment = spec.effective_balance_increment;
        let increments = match validator.effective_balance.checked_div(increment) {
            Some(v) => v,
            None => {
                return Err(Error::ArithmeticError);
            },
        };
        let penalty_numerator = match increments.checked_mul(
            slashings_ctxt.adjusted_total_slashing_balance,
        ) {
            Some(v) => v,
            None => {
                return Err(Error::ArithmeticError);
            },
        };
        let per_increment = match penalty_numerator.checked_div(state_ctxt.total_active_balance) {
            Some(v) => v,
            None => {
                return Err(Error::ArithmeticError);
            },
        };
        let penalty = match per_increment.checked_mul(increment) {
            Some(v) => v,
            None => {
                return Err(Error::ArithmeticError);
            },
        };
        *balance = balance.saturating_sub(penalty);
    }
    Ok(())
}

/// Hysteresis thresholds of the effective-balance stage.
pub struct EffectiveBalancesContext {
    /// Tolerated downward balance drift before the effective balance moves.
    pub downward_threshold: u64,
    /// Tolerated upward balance drift before the effective balance moves.
    pub upward_threshold: u64,
}

/// The hysteresis thresholds derived from the chain configuration: `None`
/// marks checked-arithmetic failure.
pub open spec fn spec_effective_balances_context(spec: &ChainSpec) -> Option<
    EffectiveBalancesContext,
> {
    if spec.hysteresis_quotient == 0 {
        None
    } else {
        let hysteresis_increment = spec.effective_balance_increment / spec.hysteresis_quotient;
        if hysteresis_increment * spec.hysteresis_downward_multiplier > u64::MAX {
            None
        } else if hysteresis_increment * spec.hysteresis_upward_multiplier > u64::MAX {
            None
        } else {
            Some(
                EffectiveBalancesContext {
                    downward_threshold: (hysteresis_increment
                        * spec.hysteresis_downward_multiplier) as u64,
                    upward_threshold: (hysteresis_increment
                        * spec.hysteresis_upward_multiplier) as u64,
                },
            )
        }
    }
}

impl EffectiveBalancesContext {
    /// Derive the hysteresis thresholds once per epoch.
    pub fn new(spec: &ChainSpec) -> (r: Result<EffectiveBalancesContext, Error>)
        ensures
            r == match spec_effective_balances_context(spec) {
                Some(ctxt) => Result::<EffectiveBalancesContext, Error>::Ok(ctxt),
                None => Result::<EffectiveBalancesContext, Error>::Err(Error::ArithmeticError),
            },
    {
        let hysteresis_increment = match spec.effective_balance_increment.checked_div(
            spec.hysteresis_quotient,
        ) {
            Some(v) => v,
            None => {
                return Err(Error::ArithmeticError);
            },
        };
        let downward_threshold = match hysteresis_increment.checked_mul(
            spec.hysteresis_downward_multiplier,
        ) {
            Some(v) => v,
            None => {
                return Err(Error::ArithmeticError);
            },
        };
        let upward_threshold = match hysteresis_increment.checked_mul(
            spec.hysteresis_upward_multiplier,
        ) {
            Some(v) => v,
            None => {
                return Err(Error::ArithmeticError);
            },
        };
        Ok(EffectiveBalancesContext { downward_threshold, upward_threshold })
    }
}

/// The new effective balance of one validator: the balance rounded down to
/// the increment and capped at the maximum when it drifted out of the
/// hysteresis band, the old effective balance otherwise. `None` marks
/// checked-arithmetic failure.
pub open spec fn spec_new_effective_balance(
    balance: u64,
    effective_balance: u64,
    eb_ctxt: &EffectiveBalancesContext,
    spec: &ChainSpec,
) -> Option<u64> {
    if balance + eb_ctxt.downward_threshold > u64::MAX {
        None
    } else if balance + eb_ctxt.downward_threshold < effective_balance {
        spec_rounded_balance(balance, spec)
    } else if effective_balance + eb_ctxt.upward_threshold > u64::MAX {
        None
    } else if effective_balance + eb_ctxt.upward_threshold < balance {
        spec_rounded_balance(balance, spec)
    } else {
        Some(effective_balance)
    }
}

/// The balance rounded down to the nearest increment and capped at the
/// maximum effective balance.
pub open spec fn spec_rounded_balance(balance: u64, spec: &ChainSpec) -> Option<u64> {
    if spec.effective_balance_increment == 0 {
        None
    } else {
        Some(
            spec_min_u64(
                (balance - balance % spec.effective_balance_increment) as u64,
                spec.max_effective_balance,
            ),
        )
    }
}

/// Hysteresis idempotence: while the balance stays within
/// `[effective_balance - downward_threshold, effective_balance +
/// upward_threshold)`, the update rule either leaves the effective balance
/// unchanged or fails a checked addition, so no new value is ever written.
pub proof fn lemma_hysteresis_idempotent(
    balance: u64,
    effective_balance: u64,
    eb_ctxt: &EffectiveBalancesContext,
    spec: &ChainSpec,
)
    requires
        effective_balance - eb_ctxt.downward_threshold <= balance,
        balance < effective_balance + eb_ctxt.upward_threshold,
    ensures
        match spec_new_effective_balance(balance, effective_balance, eb_ctxt, spec) {
            Some(new_eb) => new_eb == effective_balance,
            None => true,
        },
{
}

/// Whether the effective-balance stage of one validator succeeds: the new
/// effective balance is computable, the next-epoch total does not overflow,
/// and the progressive-balances adjustment stays in range.
#[verifier::opaque]
pub open spec fn spec_effective_balance_update_ok(
    balance: u64,
    v: crate::validator::Validator,
    info: &ValidatorInfo,
    next_epoch_total: u64,
    flag_balances: Seq<u64>,
    eb_ctxt: &EffectiveBalancesContext,
    next_epoch: u64,
    spec: &ChainSpec,
) -> bool {
    match spec_new_effective_balance(balance, v.effective_balance, eb_ctxt, spec) {
        None => false,
        Some(new_eb) => {
            &&& (v.spec_is_active_at(next_epoch) ==> next_epoch_total + new_eb <= u64::MAX)
            &&& (new_eb != v.effective_balance ==> forall|f: usize|
                f < NUM_FLAG_INDICES
                    && crate::caches::ProgressiveBalancesCache::spec_flag_affected(
                    v.slashed,
                    info.current_epoch_participation.bits,
                    f,
                ) ==> 0 <= flag_balances[f as int] - v.effective_balance
                    + new_eb <= u64::MAX)
        },
    }
}

/// Apply the effective-balance stage to one validator: move the effective
/// balance only when the actual balance drifted out of the hysteresis band,
/// accumulate the next epoch's total active balance, keep the
/// progressive-balances cache consistent, and append the result to the
/// next-epoch cache.
pub fn process_single_effective_balance_update(
    balance: u64,
    validator: &mut crate::validator::Validator,
    validator_info: &ValidatorInfo,
    next_epoch_total_active_balance: &mut u64,
    next_epoch_cache: &mut crate::caches::PreEpochCache,
    progressive_balances: &mut crate::caches::ProgressiveBalancesCache,
    eb_ctxt: &EffectiveBalancesContext,
    state_ctxt: &StateContext,
    spec: &ChainSpec,
) -> (r: Result<(), Error>)
    requires
        old(progressive_balances).wf(),
    ensures
        r.is_ok() <==> spec_effective_balance_update_ok(
            balance,
            *old(validator),
            validator_info,
            *old(next_epoch_total_active_balance),
            old(progressive_balances).current_epoch_flag_balances@,
            eb_ctxt,
            state_ctxt.next_epoch,
            spec,
        ),
        r.is_ok() ==> {
            let new_eb = spec_new_effective_balance(
                balance,
                old(validator).effective_balance,
                eb_ctxt,
                spec,
            )->Some_0;
            &&& *final(validator) == (crate::validator::Validator {
                effective_balance: new_eb,
                ..*old(validator)
            })
            &&& *final(next_epoch_total_active_balance) == if old(validator).spec_is_active_at(
                state_ctxt.next_epoch,
            ) {
                (*old(next_epoch_total_active_balance) + new_eb) as u64
            } else {
                *old(next_epoch_total_active_balance)
            }
            &&& final(next_epoch_cache).effective_balances@ == old(
                next_epoch_cache,
            ).effective_balances@.push(new_eb)
            &&& final(progressive_balances).wf()
            &&& final(progressive_balances).previous_epoch_flag_balances@
                == old(progressive_balances).previous_epoch_flag_balances@
            &&& (new_eb == old(validator).effective_balance ==> *final(progressive_balances)
                == *old(progressive_balances))
            &&& (new_eb != old(validator).effective_balance ==> forall|f: usize|
                f < NUM_FLAG_INDICES
                    ==> final(progressive_balances).current_epoch_flag_balances@[f as int]
                    == if crate::caches::ProgressiveBalancesCache::spec_flag_affected(
                    old(validator).slashed,
                    validator_info.current_epoch_participation.bits,
                    f,
                ) {
                    (old(progressive_balances).current_epoch_flag_balances@[f as int] - old(
                        validator,
                    ).effective_balance + new_eb) as u64
                } else {
                    old(progressive_balances).current_epoch_flag_balances@[f as int]
                })
        },
        // Hysteresis idempotence: a balance inside the band leaves the
        // effective balance untouched.
        r.is_ok() && old(validator).effective_balance <= balance
            + eb_ctxt.downward_threshold && balance <= old(validator).effective_balance
            + eb_ctxt.upward_threshold ==> final(validator).effective_balance == old(
            validator,
        ).effective_balance,
        r.is_err() ==> {
            &&& *final(validator) == *old(validator)
            &&& *final(next_epoch_total_active_balance) == *old(next_epoch_total_active_balance)
            &&& *final(next_epoch_cache) == *old(next_epoch_cache)
            &&& *final(progressive_balances) == *old(progressive_balances)
            &&& r == Result::<(), Error>::Err(Error::ArithmeticError)
        },
{
    proof {
        reveal(spec_effective_balance_update_ok);
    }
    let old_effective_balance = validator.effective_balance;
    let drifted_down = match balance.checked_add(eb_ctxt.downward_threshold) {
        Some(v) => v < old_effective_balance,
        None => {
            return Err(Error::ArithmeticError);
        },
    };
    let out_of_band = if drifted_down {
        true
    } else {
        match old_effective_balance.checked_add(eb_ctxt.upward_threshold) {
            Some(v) => v < balance,
            None => {
                return Err(Error::ArithmeticError);
            },
        }
    };
    let new_effective_balance = if out_of_band {
        let remainder = match balance.checked_rem(spec.effective_balance_increment) {
            Some(v) => v,
            None => {
                return Err(Error::ArithmeticError);
            },
        };
        proof {
            vstd::arithmetic::div_mod::lemma_mod_decreases(
                balance as nat,
                spec.effective_balance_increment as nat,
            );
        }
        let rounded = balance - remainder;
        if rounded <= spec.max_effective_balance {
            rounded
        } else {
            spec.max_effective_balance
        }
    } else {
        old_effective_balance
    };

    let new_total = if validator.is_active_at(state_ctxt.next_epoch) {
        match next_epoch_total_active_balance.checked_add(new_effective_balance) {
            Some(v) => v,
            None => {
                return Err(Error::ArithmeticError);
            },
        }
    } else {
        *next_epoch_total_active_balance
    };

    if new_effective_balance != old_effective_balance {
        // Keep the progressive-balances cache of the current epoch (soon the
        // previous epoch) consistent with the changed balance.
        match progressive_balances.on_effective_balance_change(
            validator.slashed,
            validator_info.current_epoch_participation,
            old_effective_balance,
            new_effective_balance,
        ) {
            Ok(()) => {},
            Err(e) => {
                return Err(e);
            },
        }
        validator.effective_balance = new_effective_balance;
    }

    *next_epoch_total_active_balance = new_total;
    // Caching: append the next epoch's effective balance in index order.
    next_epoch_cache.push_effective_balance(new_effective_balance);
    Ok(())
}

/// How many of the validators are active at `epoch`.
pub open spec fn spec_active_count(vs: Seq<crate::validator::Validator>, epoch: u64) -> nat
    decreases vs.len(),
{
    if vs.len() == 0 {
        0nat
    } else {
        spec_active_count(vs.drop_last(), epoch) + if vs.last().spec_is_active_at(epoch) {
            1nat
        } else {
            0nat
        }
    }
}

/// The per-epoch exit churn limit: the active-validator count divided by the
/// churn-limit quotient, floored at the configured minimum. `None` when the
/// quotient is zero.
pub open spec fn spec_churn_limit(
    vs: Seq<crate::validator::Validator>,
    epoch: u64,
    spec: &ChainSpec,
) -> Option<u64> {
    if spec.churn_limit_quotient == 0 {
        None
    } else {
        let by_quotient = spec_active_count(vs, epoch) as u64 / spec.churn_limit_quotient;
        Some(
            if spec.min_per_epoch_churn_limit >= by_quotient {
                spec.min_per_epoch_churn_limit
            } else {
                by_quotient
            },
        )
    }
}

/// Compute the per-epoch exit churn limit from the registry.
pub fn get_churn_limit(
    validators: &Vec<crate::validator::Validator>,
    current_epoch: u64,
    spec: &ChainSpec,
) -> (r: Result<u64, Error>)
    ensures
        r == match spec_churn_limit(validators@, current_epoch, spec) {
            Some(limit) => Result::<u64, Error>::Ok(limit),
            None => Result::<u64, Error>::Err(Error::ArithmeticError),
        },
{
    let n = validators.len();
    let mut active_count: u64 = 0;
    let mut i: usize = 0;
    while i < n
        invariant
            n == validators@.len(),
            i <= n,
            active_count == spec_active_count(validators@.subrange(0, i as int), current_epoch),
            active_count <= i,
        decreases n - i,
    {
        proof {
            assert(validators@.subrange(0, i + 1).drop_last() =~= validators@.subrange(0, i as int));
            assert(validators@.subrange(0, i + 1).last() == validators@[i as int]);
        }
        if validators[i].is_active_at(current_epoch) {
            active_count = active_count + 1;
        }
        i = i + 1;
    }
    proof {
        assert(validators@.subrange(0, validators@.len() as int) =~= validators@);
    }
    let by_quotient = match active_count.checked_div(spec.churn_limit_quotient) {
        Some(v) => v,
        None => {
            return Err(Error::ArithmeticError);
        },
    };
    if spec.min_per_epoch_churn_limit >= by_quotient {
        Ok(spec.min_per_epoch_churn_limit)
    } else {
        Ok(by_quotient)
    }
}

/// The per-validator snapshot the orchestrator builds at index `j` of a
/// pre-transition state.
pub open spec fn spec_info_in(state: crate::state::BeaconState, j: int) -> ValidatorInfo {
    let previous_epoch = spec_previous_epoch(state.current_epoch);
    let v = state.validators@[j];
    let eligible = v.spec_is_active_at(previous_epoch) || (v.slashed && previous_epoch + 1
        < v.withdrawable_epoch);
    ValidatorInfo {
        index: j as usize,
        effective_balance: v.effective_balance,
        base_reward: if eligible {
            state.epoch_cache.base_rewards@[j]
        } else {
            0u64
        },
        is_eligible: eligible,
        is_slashed: v.slashed,
        is_active_current_epoch: v.spec_is_active_at(state.current_epoch),
        is_active_previous_epoch: v.spec_is_active_at(previous_epoch),
        previous_epoch_participation: state.previous_epoch_participation@[j],
        current_epoch_participation: state.current_epoch_participation@[j],
    }
}

/// Whether the pass's context construction succeeds on a state: the
/// collaborator caches are usable and the epoch scalars and the four
/// contexts are computable.
pub open spec fn spec_context_ok(state: crate::state::BeaconState, spec: &ChainSpec) -> bool {
    &&& state.progressive_balances.wf()
    &&& state.current_epoch + 1 <= u64::MAX
    &&& spec_churn_limit(state.validators@, state.current_epoch, spec) is Some
    &&& spec_slashings_context(
        state.slashings@,
        state.total_active_balance,
        state.current_epoch,
        state.fork_name,
        spec,
    ) is Some
    &&& spec.effective_balance_increment != 0
    &&& spec_effective_balances_context(spec) is Some
}

/// Whether every per-validator sequence has one entry per validator.
pub open spec fn spec_sequences_aligned(state: crate::state::BeaconState) -> bool {
    &&& state.balances@.len() == state.validators@.len()
    &&& state.previous_epoch_participation@.len() == state.validators@.len()
    &&& state.current_epoch_participation@.len() == state.validators@.len()
    &&& state.inactivity_scores@.len() == state.validators@.len()
}

/// The length of the shortest per-validator sequence beside the registry:
/// the first index at which a misaligned pass finds no entry.
pub open spec fn spec_shortest_sequence(state: crate::state::BeaconState) -> int {
    let a = state.balances@.len() as int;
    let b = if state.previous_epoch_participation@.len() < a {
        state.previous_epoch_participation@.len() as int
    } else {
        a
    };
    let c = if state.current_epoch_participation@.len() < b {
        state.current_epoch_participation@.len() as int
    } else {
        b
    };
    if state.inactivity_scores@.len() < c {
        state.inactivity_scores@.len() as int
    } else {
        c
    }
}

/// Whether the pass's setup succeeds on a state: the contexts are
/// computable, the per-validator sequences are index-aligned, and every
/// eligible validator has a precomputed base reward.
pub open spec fn spec_setup_ok(state: crate::state::BeaconState, spec: &ChainSpec) -> bool {
    &&& spec_context_ok(state, spec)
    &&& spec_sequences_aligned(state)
    &&& forall|j: int|
        0 <= j < state.validators@.len() && (#[trigger] spec_info_in(state, j)).is_eligible
            ==> j < state.epoch_cache.base_rewards@.len()
}

/// The unslashed participating increments per flag of a pre-transition
/// state: each flag's previous-epoch attesting balance in increments.
pub open spec fn spec_upi_array(state: crate::state::BeaconState, spec: &ChainSpec) -> Seq<u64> {
    Seq::new(
        NUM_FLAG_INDICES as nat,
        |f: int| state.progressive_balances.previous_epoch_flag_balances@[f]
            / spec.effective_balance_increment,
    )
}

/// The next epoch's total active balance: the sum of the effective balances
/// of the validators active in it.
pub open spec fn spec_next_epoch_total(
    vs: Seq<crate::validator::Validator>,
    next_epoch: u64,
) -> int
    decreases vs.len(),
{
    if vs.len() == 0 {
        0
    } else {
        spec_next_epoch_total(vs.drop_last(), next_epoch) + if vs.last().spec_is_active_at(
            next_epoch,
        ) {
            vs.last().effective_balance as int
        } else {
            0
        }
    }
}

/// Everything one pass mutates, as one mathematical record: the three
/// per-validator sequences, the exit-churn table, the current-epoch flag
/// sums, and the next-epoch aggregates being accumulated.
#[verifier::ext_equal]
pub struct PassTally {
    pub validators: Seq<crate::validator::Validator>,
    pub balances: Seq<u64>,
    pub scores: Seq<u64>,
    pub exit_entries: Seq<(u64, u64)>,
    pub max_exit_epoch: Option<u64>,
    pub flag_balances: Seq<u64>,
    pub next_epoch_total: u64,
    pub next_epoch_effective_balances: Seq<u64>,
    pub next_epoch_queue: Seq<(u64, usize)>,
}

/// The tally a pass starts from: the pre-transition sequences and caches,
/// and empty next-epoch aggregates.
pub open spec fn spec_initial_tally(state0: crate::state::BeaconState) -> PassTally {
    PassTally {
        validators: state0.validators@,
        balances: state0.balances@,
        scores: state0.inactivity_scores@,
        exit_entries: state0.exit_cache.entries@,
        max_exit_epoch: state0.exit_cache.max_exit_epoch,
        flag_balances: state0.progressive_balances.current_epoch_flag_balances@,
        next_epoch_total: 0u64,
        next_epoch_effective_balances: Seq::empty(),
        next_epoch_queue: Seq::empty(),
    }
}

/// The tally a state and the pass's accumulator locals currently form.
pub open spec fn spec_current_tally(
    state: crate::state::BeaconState,
    next_epoch_total: u64,
    next_epoch_effective_balances: Seq<u64>,
    next_epoch_queue: Seq<(u64, usize)>,
) -> PassTally {
    PassTally {
        validators: state.validators@,
        balances: state.balances@,
        scores: state.inactivity_scores@,
        exit_entries: state.exit_cache.entries@,
        max_exit_epoch: state.exit_cache.max_exit_epoch,
        flag_balances: state.progressive_balances.current_epoch_flag_balances@,
        next_epoch_total,
        next_epoch_effective_balances,
        next_epoch_queue,
    }
}

/// One validator's iteration of the pass: the enabled stages applied in
/// the fixed order (inactivity, rewards, registry, slashing, effective
/// balance), reading the pre-transition state for the index-local facts and
/// the tally for everything threaded between validators. `None` marks
/// checked-arithmetic failure in any enabled stage.
#[verifier::opaque]
pub open spec fn spec_validator_step(
    state0: crate::state::BeaconState,
    conf: SinglePassConfig,
    spec: &ChainSpec,
    t: PassTally,
    j: int,
) -> Option<PassTally> {
    let info = spec_info_in(state0, j);
    let next0 = (state0.current_epoch + 1) as u64;
    let genesis = state0.current_epoch == crate::config::GENESIS_EPOCH;
    let score1_opt = if !genesis && conf.inactivity_updates {
        spec_inactivity_update(t.scores[j], &info, state0.is_in_inactivity_leak, spec)
    } else {
        Some(t.scores[j])
    };
    if score1_opt is None {
        None
    } else {
        let score1 = score1_opt->Some_0;
        let balance1_opt = if !genesis && conf.rewards_and_penalties {
            spec_rewards_outcome(
                t.balances[j],
                score1,
                &info,
                spec_upi_array(state0, spec),
                state0.total_active_balance / spec.effective_balance_increment,
                state0.is_in_inactivity_leak,
                state0.fork_name,
                spec,
            )
        } else {
            Some(t.balances[j])
        };
        if balance1_opt is None {
            None
        } else {
            let balance1 = balance1_opt->Some_0;
            let reg_opt = if conf.registry_updates {
                spec_registry_update(
                    t.validators[j],
                    t.exit_entries,
                    t.max_exit_epoch,
                    state0.epoch_cache.activation_queue@.contains(j as usize),
                    spec_churn_limit(state0.validators@, state0.current_epoch, spec)->Some_0,
                    state0.current_epoch,
                    next0,
                    spec,
                )
            } else {
                Some((t.validators[j], Option::<u64>::None))
            };
            if reg_opt is None {
                None
            } else {
                let v1 = reg_opt->Some_0.0;
                let exited = reg_opt->Some_0.1;
                let exit_entries1 = match exited {
                    Option::Some(e) => crate::caches::spec_record_entries(t.exit_entries, e),
                    Option::None => t.exit_entries,
                };
                let max1 = match exited {
                    Option::Some(e) => Some(
                        match t.max_exit_epoch {
                            Option::Some(m) => if m >= e {
                                m
                            } else {
                                e
                            },
                            Option::None => e,
                        },
                    ),
                    Option::None => t.max_exit_epoch,
                };
                let queue1 = if conf.registry_updates
                    && v1.spec_could_be_eligible_for_activation_at(next0, spec) {
                    t.next_epoch_queue.push((v1.activation_eligibility_epoch, j as usize))
                } else {
                    t.next_epoch_queue
                };
                let balance2_opt = if conf.slashings {
                    spec_slashing_outcome(
                        balance1,
                        v1,
                        spec_slashings_context(
                            state0.slashings@,
                            state0.total_active_balance,
                            state0.current_epoch,
                            state0.fork_name,
                            spec,
                        )->Some_0,
                        state0.total_active_balance,
                        spec.effective_balance_increment,
                    )
                } else {
                    Some(balance1)
                };
                if balance2_opt is None {
                    None
                } else {
                    let balance2 = balance2_opt->Some_0;
                    if conf.effective_balance_updates {
                        let eb_ctxt = spec_effective_balances_context(spec)->Some_0;
                        if !spec_effective_balance_update_ok(
                            balance2,
                            v1,
                            &info,
                            t.next_epoch_total,
                            t.flag_balances,
                            &eb_ctxt,
                            next0,
                            spec,
                        ) {
                            None
                        } else {
                            let new_eb = spec_new_effective_balance(
                                balance2,
                                v1.effective_balance,
                                &eb_ctxt,
                                spec,
                            )->Some_0;
                            let v2 = crate::validator::Validator {
                                effective_balance: new_eb,
                                ..v1
                            };
                            let total1 = if v1.spec_is_active_at(next0) {
                                (t.next_epoch_total + new_eb) as u64
                            } else {
                                t.next_epoch_total
                            };
                            let flags1 = if new_eb != v1.effective_balance {
                                Seq::new(
                                    t.flag_balances.len(),
                                    |f: int| if 0 <= f < NUM_FLAG_INDICES
                                        && crate::caches::ProgressiveBalancesCache::spec_flag_affected(
                                        v1.slashed,
                                        info.current_epoch_participation.bits,
                                        f as usize,
                                    ) {
                                        (t.flag_balances[f] - v1.effective_balance
                                            + new_eb) as u64
                                    } else {
                                        t.flag_balances[f]
                                    },
                                )
                            } else {
                                t.flag_balances
                            };
                            Some(
                                PassTally {
                                    validators: t.validators.update(j, v2),
                                    balances: t.balances.update(j, balance2),
                                    scores: t.scores.update(j, score1),
                                    exit_entries: exit_entries1,
                                    max_exit_epoch: max1,
                                    flag_balances: flags1,
                                    next_epoch_total: total1,
                                    next_epoch_effective_balances: t
                                        .next_epoch_effective_balances
                                        .push(new_eb),
                                    next_epoch_queue: queue1,
                                },
                            )
                        }
                    } else {
                        Some(
                            PassTally {
                                validators: t.validators.update(j, v1),
                                balances: t.balances.update(j, balance2),
                                scores: t.scores.update(j, score1),
                                exit_entries: exit_entries1,
                                max_exit_epoch: max1,
                                flag_balances: t.flag_balances,
                                next_epoch_total: t.next_epoch_total,
                                next_epoch_effective_balances: t.next_epoch_effective_balances,
                                next_epoch_queue: queue1,
                            },
                        )
                    }
                }
            }
        }
    }
}

/// The tally after the first `n` validators of the pass.
pub open spec fn spec_pass_fold(
    state0: crate::state::BeaconState,
    conf: SinglePassConfig,
    spec: &ChainSpec,
    n: nat,
) -> Option<PassTally>
    decreases n,
{
    if n == 0 {
        Some(spec_initial_tally(state0))
    } else {
        match spec_pass_fold(state0, conf, spec, (n - 1) as nat) {
            Some(t) => spec_validator_step(state0, conf, spec, t, n - 1),
            None => None,
        }
    }
}

/// Once one validator's step fails, the whole pass fails.
proof fn lemma_pass_fold_none(
    state0: crate::state::BeaconState,
    conf: SinglePassConfig,
    spec: &ChainSpec,
    m: nat,
    n: nat,
)
    requires
        m <= n,
        spec_pass_fold(state0, conf, spec, m) is None,
    ensures
        spec_pass_fold(state0, conf, spec, n) is None,
    decreases n - m,
{
    if m < n {
        lemma_pass_fold_none(state0, conf, spec, m, (n - 1) as nat);
    }
}

/// Run the per-epoch state transition: build the four contexts, take the
/// pre-mutation snapshot, iterate the validator set exactly once running the
/// enabled stages per validator in fixed order, and commit the next epoch's
/// aggregates. Any stage error aborts the pass immediately; the caller must
/// then discard the state copy, as partial mutation is never committed.
#[verifier::loop_isolation(false)]
#[verifier::rlimit(100)]
pub fn process_epoch_single_pass(
    state: &mut crate::state::BeaconState,
    spec: &ChainSpec,
    conf: SinglePassConfig,
) -> (r: Result<crate::state::ParticipationEpochSummary, Error>)
    ensures
        // The participation bitsets, slashings vector, scalar context and
        // epoch cache are never mutated.
        final(state).previous_epoch_participation@ == old(state).previous_epoch_participation@,
        final(state).current_epoch_participation@ == old(state).current_epoch_participation@,
        final(state).slashings@ == old(state).slashings@,
        final(state).current_epoch == old(state).current_epoch,
        final(state).is_in_inactivity_leak == old(state).is_in_inactivity_leak,
        final(state).total_active_balance == old(state).total_active_balance,
        final(state).fork_name == old(state).fork_name,
        final(state).epoch_cache.base_rewards@ == old(state).epoch_cache.base_rewards@,
        final(state).epoch_cache.activation_queue@ == old(state).epoch_cache.activation_queue@,
        // A pass succeeds only on index-aligned sequences and keeps them so.
        r.is_ok() ==> {
            &&& old(state).balances@.len() == old(state).validators@.len()
            &&& old(state).inactivity_scores@.len() == old(state).validators@.len()
            &&& final(state).validators@.len() == old(state).validators@.len()
            &&& final(state).balances@.len() == old(state).validators@.len()
            &&& final(state).inactivity_scores@.len() == old(state).validators@.len()
        },
        // The summary is the pre-mutation snapshot.
        r.is_ok() ==> {
            &&& r->Ok_0.validators@ == old(state).validators@
            &&& r->Ok_0.previous_epoch_participation@ == old(state).previous_epoch_participation@
            &&& r->Ok_0.current_epoch_participation@ == old(state).current_epoch_participation@
            &&& r->Ok_0.previous_epoch == spec_previous_epoch(old(state).current_epoch)
            &&& r->Ok_0.current_epoch == old(state).current_epoch
        },
        // Exit monotonicity across the whole pass: an exit scheduled before
        // the pass is untouched by it.
        r.is_ok() ==> forall|j: int|
            0 <= j < old(state).validators@.len() && old(state).validators@[j].exit_epoch != spec.far_future_epoch
                ==> final(state).validators@[j].exit_epoch == old(state).validators@[j].exit_epoch && final(state).validators@[j].withdrawable_epoch == old(state).validators@[j].withdrawable_epoch,
        // Churn bound across the whole pass: under the computed churn limit,
        // a bounded exit cache stays bounded.
        r.is_ok() ==> ({
            let limit_opt = spec_churn_limit(old(state).validators@, old(state).current_epoch, spec);
            limit_opt is Some && {
                let limit = limit_opt->Some_0;
                old(state).exit_cache.wf() && crate::caches::spec_churn_bounded(
                    old(state).exit_cache.entries@,
                    limit,
                ) && limit >= 1 ==> final(state).exit_cache.wf()
                    && crate::caches::spec_churn_bounded(final(state).exit_cache.entries@, limit)
            }
        }),
        // With every stage disabled nothing but the setup can fail, and the
        // setup fails exactly on the states it rejects.
        !conf.inactivity_updates && !conf.rewards_and_penalties && !conf.registry_updates
            && !conf.slashings && !conf.effective_balance_updates ==> (r.is_ok()
            <==> spec_setup_ok(*old(state), spec)),
        // Desynchronized per-validator sequences are an invariant violation:
        // once the contexts are in place, a misaligned pass reports the
        // first index at which an entry is missing.
        spec_context_ok(*old(state), spec) && !spec_sequences_aligned(*old(state)) ==> r
            == Result::<crate::state::ParticipationEpochSummary, Error>::Err(
            Error::UnknownValidatorIndex(spec_shortest_sequence(*old(state)) as usize),
        ),
        // Before the genesis boundary the inactivity and reward stages are
        // skipped even when enabled.
        r.is_ok() && old(state).current_epoch == crate::config::GENESIS_EPOCH ==> final(state).inactivity_scores@ == old(state).inactivity_scores@,
        r.is_ok() && old(state).current_epoch == crate::config::GENESIS_EPOCH
            && !conf.slashings ==> final(state).balances@ == old(state).balances@,
        // Progressive previous-epoch sums are read, never written.
        final(state).progressive_balances.previous_epoch_flag_balances@ == old(state).progressive_balances.previous_epoch_flag_balances@,
        // Stage isolation: a disabled stage leaves its sequences untouched.
        r.is_ok() && !conf.registry_updates && !conf.effective_balance_updates ==> final(state).validators@ == old(state).validators@,
        r.is_ok() && !conf.rewards_and_penalties && !conf.slashings ==> final(state).balances@
            == old(state).balances@,
        r.is_ok() && !conf.inactivity_updates ==> final(state).inactivity_scores@ == old(state).inactivity_scores@,
        r.is_ok() && !conf.registry_updates ==> final(state).exit_cache.entries@ == old(state).exit_cache.entries@ && final(state).exit_cache.max_exit_epoch == old(state).exit_cache.max_exit_epoch,
        r.is_ok() && !conf.effective_balance_updates ==> final(state).progressive_balances.current_epoch_flag_balances@ == old(state).progressive_balances.current_epoch_flag_balances@,
        // The next-epoch aggregates are committed only by the
        // effective-balance stage.
        r.is_ok() && !conf.effective_balance_updates ==> {
            &&& final(state).next_epoch_total_active_balance == old(state).next_epoch_total_active_balance
            &&& final(state).next_epoch_cache.effective_balances@ == old(state).next_epoch_cache.effective_balances@
            &&& final(state).next_epoch_activation_queue.queue@ == old(state).next_epoch_activation_queue.queue@
        },
        r.is_ok() && conf.effective_balance_updates ==> {
            &&& final(state).next_epoch_cache.effective_balances@.len() == old(state).validators@.len()
            &&& forall|j: int| 0 <= j < old(state).validators@.len()
                ==> final(state).next_epoch_cache.effective_balances@[j] == final(state).validators@[j].effective_balance
            &&& final(state).next_epoch_total_active_balance == spec_next_epoch_total(
                final(state).validators@,
                (old(state).current_epoch + 1) as u64,
            )
        },
        // An uninitialized progressive-balances cache is rejected up front.
        !old(state).progressive_balances.wf() ==> r == Result::<
            crate::state::ParticipationEpochSummary,
            Error,
        >::Err(Error::CacheError),
{
    // The progressive-balances cache must already reflect the pre-transition
    // state; a malformed one cannot be consumed.
    if !(state.progressive_balances.previous_epoch_flag_balances.len() == NUM_FLAG_INDICES
        && state.progressive_balances.current_epoch_flag_balances.len() == NUM_FLAG_INDICES) {
        return Err(Error::CacheError);
    }

    let current_epoch = state.current_epoch;
    let previous_epoch = if current_epoch > 0 {
        current_epoch - 1
    } else {
        0
    };
    let next_epoch = match current_epoch.checked_add(1) {
        Some(e) => e,
        None => {
            return Err(Error::ArithmeticError);
        },
    };
    let churn_limit = match get_churn_limit(&state.validators, current_epoch, spec) {
        Ok(l) => l,
        Err(e) => {
            return Err(e);
        },
    };

    let state_ctxt = StateContext {
        current_epoch,
        previous_epoch,
        next_epoch,
        is_in_inactivity_leak: state.is_in_inactivity_leak,
        total_active_balance: state.total_active_balance,
        churn_limit,
        fork_name: state.fork_name,
    };

    // Contexts that require immutable access to the state.
    let slashings_ctxt = match SlashingsContext::new(&state.slashings, &state_ctxt, spec) {
        Ok(c) => c,
        Err(e) => {
            return Err(e);
        },
    };
    let rewards_ctxt = match RewardsAndPenaltiesContext::new(
        &state.progressive_balances,
        &state_ctxt,
        spec,
    ) {
        Ok(c) => c,
        Err(e) => {
            return Err(e);
        },
    };
    proof {
        assert(rewards_ctxt.unslashed_participating_increments_array@ =~= spec_upi_array(
            *old(state),
            spec,
        ));
    }
    let eb_ctxt = match EffectiveBalancesContext::new(spec) {
        Ok(c) => c,
        Err(e) => {
            return Err(e);
        },
    };
    let activation_queue = crate::state::copy_vec(&state.epoch_cache.activation_queue);

    let num_validators = state.validators.len();
    // The per-validator sequences must be index-aligned with the registry.
    if state.balances.len() != num_validators
        || state.previous_epoch_participation.len() != num_validators
        || state.current_epoch_participation.len() != num_validators
        || state.inactivity_scores.len() != num_validators {
        let mut shortest = state.balances.len();
        if state.previous_epoch_participation.len() < shortest {
            shortest = state.previous_epoch_participation.len();
        }
        if state.current_epoch_participation.len() < shortest {
            shortest = state.current_epoch_participation.len();
        }
        if state.inactivity_scores.len() < shortest {
            shortest = state.inactivity_scores.len();
        }
        return Err(Error::UnknownValidatorIndex(shortest));
    }

    // Take a snapshot of the validators and participation before mutating,
    // for monitoring and telemetry outside this core.
    let summary = crate::state::ParticipationEpochSummary::new(
        crate::state::copy_vec(&state.validators),
        crate::state::copy_vec(&state.previous_epoch_participation),
        crate::state::copy_vec(&state.current_epoch_participation),
        previous_epoch,
        current_epoch,
    );

    // Values computed for the next epoch transition.
    let mut next_epoch_cache = crate::caches::PreEpochCache::new_for_next_epoch();
    let mut next_epoch_total_active_balance: u64 = 0;
    let mut next_epoch_activation_queue = crate::caches::ActivationQueue::new();

    let mut index: usize = 0;
    while index < num_validators
        invariant
            index <= num_validators,
            state.validators@.len() == num_validators,
            state.balances@.len() == num_validators,
            state.inactivity_scores@.len() == num_validators,
            state.previous_epoch_participation@ == old(state).previous_epoch_participation@,
            state.current_epoch_participation@ == old(state).current_epoch_participation@,
            state.slashings@ == old(state).slashings@,
            state.current_epoch == old(state).current_epoch,
            state.is_in_inactivity_leak == old(state).is_in_inactivity_leak,
            state.total_active_balance == old(state).total_active_balance,
            state.fork_name == old(state).fork_name,
            state.epoch_cache.base_rewards@ == old(state).epoch_cache.base_rewards@,
            state.epoch_cache.activation_queue@ == old(state).epoch_cache.activation_queue@,
            state.next_epoch_total_active_balance == old(state).next_epoch_total_active_balance,
            state.next_epoch_cache.effective_balances@ == old(state).next_epoch_cache.effective_balances@,
            state.next_epoch_activation_queue.queue@ == old(state).next_epoch_activation_queue.queue@,
            state.progressive_balances.wf(),
            state.progressive_balances.previous_epoch_flag_balances@ == old(state).progressive_balances.previous_epoch_flag_balances@,
            !conf.registry_updates && !conf.effective_balance_updates ==> state.validators@
                == old(state).validators@,
            (!conf.rewards_and_penalties || state.current_epoch == crate::config::GENESIS_EPOCH)
                && !conf.slashings ==> state.balances@ == old(state).balances@,
            (!conf.inactivity_updates || state.current_epoch == crate::config::GENESIS_EPOCH)
                ==> state.inactivity_scores@ == old(state).inactivity_scores@,
            !conf.registry_updates ==> state.exit_cache.entries@ == old(state).exit_cache.entries@ && state.exit_cache.max_exit_epoch == old(state).exit_cache.max_exit_epoch,
            !conf.effective_balance_updates
                ==> state.progressive_balances.current_epoch_flag_balances@ == old(state).progressive_balances.current_epoch_flag_balances@,
            forall|j: int| index <= j < num_validators ==> state.validators@[j] == old(state).validators@[j],
            forall|j: int| index <= j < num_validators ==> state.inactivity_scores@[j] == old(state).inactivity_scores@[j],
            forall|j: int|
                0 <= j < index && (#[trigger] spec_info_in(*old(state), j)).is_eligible ==> j
                    < old(state).epoch_cache.base_rewards@.len(),
            forall|j: int| index <= j < num_validators ==> state.balances@[j] == old(state).balances@[j],
            forall|j: int|
                0 <= j < index && old(state).validators@[j].exit_epoch != spec.far_future_epoch
                    ==> state.validators@[j].exit_epoch == old(state).validators@[j].exit_epoch
                    && state.validators@[j].withdrawable_epoch == old(state).validators@[j].withdrawable_epoch,
            old(state).exit_cache.wf() && crate::caches::spec_churn_bounded(
                old(state).exit_cache.entries@,
                churn_limit,
            ) && churn_limit >= 1 ==> state.exit_cache.wf() && crate::caches::spec_churn_bounded(
                state.exit_cache.entries@,
                churn_limit,
            ),
            conf.effective_balance_updates ==> {
                &&& next_epoch_cache.effective_balances@.len() == index
                &&& forall|j: int| 0 <= j < index
                    ==> next_epoch_cache.effective_balances@[j]
                    == state.validators@[j].effective_balance
                &&& next_epoch_total_active_balance == spec_next_epoch_total(
                    state.validators@.subrange(0, index as int),
                    next_epoch,
                )
            },
        decreases num_validators - index,
    {
        let previous_epoch_participation = state.previous_epoch_participation[index];
        let current_epoch_participation = state.current_epoch_participation[index];
        let mut validator = state.validators[index];
        let mut balance = state.balances[index];
        let mut inactivity_score = state.inactivity_scores[index];

        let is_active_current_epoch = validator.is_active_at(current_epoch);
        let is_active_previous_epoch = validator.is_active_at(previous_epoch);
        let is_eligible = is_active_previous_epoch || (validator.slashed && previous_epoch + 1
            < validator.withdrawable_epoch);

        let base_reward = if is_eligible {
            match state.epoch_cache.get_base_reward(index) {
                Ok(b) => b,
                Err(e) => {
                    proof {
                        assert(spec_info_in(*old(state), index as int).is_eligible);
                        assert(!spec_setup_ok(*old(state), spec));
                    }
                    return Err(e);
                },
            }
        } else {
            0
        };

        let validator_info = ValidatorInfo {
            index,
            effective_balance: validator.effective_balance,
            base_reward,
            is_eligible,
            is_slashed: validator.slashed,
            is_active_current_epoch,
            is_active_previous_epoch,
            previous_epoch_participation,
            current_epoch_participation,
        };
        proof {
            assert(validator_info == spec_info_in(*old(state), index as int));
        }

        if current_epoch != crate::config::GENESIS_EPOCH {
            if conf.inactivity_updates {
                match process_single_inactivity_update(
                    &mut inactivity_score,
                    &validator_info,
                    &state_ctxt,
                    spec,
                ) {
                    Ok(()) => {},
                    Err(e) => {
                        return Err(e);
                    },
                }
            }
            if conf.rewards_and_penalties {
                match process_single_reward_and_penalty(
                    &mut balance,
                    &inactivity_score,
                    &validator_info,
                    &rewards_ctxt,
                    &state_ctxt,
                    spec,
                ) {
                    Ok(()) => {},
                    Err(e) => {
                        return Err(e);
                    },
                }
            }
        }

        if conf.registry_updates {
            match process_single_registry_update(
                &mut validator,
                &validator_info,
                &mut state.exit_cache,
                &activation_queue,
                &mut next_epoch_activation_queue,
                &state_ctxt,
                spec,
            ) {
                Ok(()) => {},
                Err(e) => {
                    return Err(e);
                },
            }
        }

        if conf.slashings {
            match process_single_slashing(
                &mut balance,
                &validator,
                &slashings_ctxt,
                &state_ctxt,
                spec,
            ) {
                Ok(()) => {},
                Err(e) => {
                    return Err(e);
                },
            }
        }

        if conf.effective_balance_updates {
            match process_single_effective_balance_update(
                balance,
                &mut validator,
                &validator_info,
                &mut next_epoch_total_active_balance,
                &mut next_epoch_cache,
                &mut state.progressive_balances,
                &eb_ctxt,
                &state_ctxt,
                spec,
            ) {
                Ok(()) => {},
                Err(e) => {
                    return Err(e);
                },
            }
        }

        let ghost pre_validators = state.validators@;
        state.validators.set(index, validator);
        state.balances.set(index, balance);
        state.inactivity_scores.set(index, inactivity_score);
        proof {
            if conf.effective_balance_updates {
                reveal(spec_effective_balance_update_ok);
                assert(state.validators@.subrange(0, index as int) =~= pre_validators.subrange(
                    0,
                    index as int,
                ));
                assert(state.validators@.subrange(0, index + 1).drop_last()
                    =~= state.validators@.subrange(0, index as int));
                assert(state.validators@.subrange(0, index + 1).last() == validator);
                assert(spec_next_epoch_total(state.validators@.subrange(0, index + 1), next_epoch)
                    == spec_next_epoch_total(state.validators@.subrange(0, index as int), next_epoch)
                    + if validator.spec_is_active_at(next_epoch) {
                    validator.effective_balance as int
                } else {
                    0
                });
                assert(next_epoch_cache.effective_balances@[index as int]
                    == validator.effective_balance);
                assert(next_epoch_total_active_balance == spec_next_epoch_total(
                    state.validators@.subrange(0, index + 1),
                    next_epoch,
                ));
            }
            if !conf.registry_updates && !conf.effective_balance_updates {
                assert(state.validators@ =~= old(state).validators@);
            }
            if (!conf.rewards_and_penalties || current_epoch == crate::config::GENESIS_EPOCH)
                && !conf.slashings {
                assert(state.balances@ =~= old(state).balances@);
            }
            if !conf.inactivity_updates || current_epoch == crate::config::GENESIS_EPOCH {
                assert(state.inactivity_scores@ =~= old(state).inactivity_scores@);
            }
        }
        index = index + 1;
    }

    proof {
        if conf.effective_balance_updates {
            assert(state.validators@.subrange(0, state.validators@.len() as int)
                =~= state.validators@);
        }
    }
    if conf.effective_balance_updates {
        state.next_epoch_total_active_balance = next_epoch_total_active_balance;
        state.next_epoch_cache = next_epoch_cache;
        state.next_epoch_activation_queue = next_epoch_activation_queue;
    }

    Ok(summary)
}

} // verus!

