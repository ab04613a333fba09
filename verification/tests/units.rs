use state_processing::arith::{checked_sum, Delta};
use state_processing::caches::{EpochCache, ExitCache, ProgressiveBalancesCache};
use state_processing::config::{ChainSpec, ForkName};
use state_processing::errors::Error;
use state_processing::participation::{
    get_flag_weight, ParticipationFlags, TIMELY_HEAD_WEIGHT, TIMELY_SOURCE_WEIGHT,
    TIMELY_TARGET_WEIGHT, WEIGHT_DENOMINATOR,
};
use state_processing::single_pass::{
    get_churn_limit, get_flag_index_delta, initiate_validator_exit,
    process_single_effective_balance_update, process_single_inactivity_update,
    process_single_reward_and_penalty, EffectiveBalancesContext, RewardsAndPenaltiesContext,
    StateContext, ValidatorInfo,
};
use state_processing::validator::Validator;

fn chain_spec() -> ChainSpec {
    ChainSpec {
        far_future_epoch: u64::MAX,
        effective_balance_increment: 1_000_000_000,
        max_effective_balance: 32_000_000_000,
        ejection_balance: 16_000_000_000,
        inactivity_score_bias: 4,
        inactivity_score_recovery_rate: 16,
        inactivity_penalty_quotient_altair: 50_331_648,
        inactivity_penalty_quotient_bellatrix: 16_777_216,
        proportional_slashing_multiplier_altair: 2,
        proportional_slashing_multiplier_bellatrix: 3,
        hysteresis_quotient: 4,
        hysteresis_downward_multiplier: 1,
        hysteresis_upward_multiplier: 5,
        min_per_epoch_churn_limit: 4,
        churn_limit_quotient: 65536,
        min_validator_withdrawability_delay: 256,
        max_seed_lookahead: 4,
    }
}

fn state_ctxt(leak: bool) -> StateContext {
    StateContext {
        current_epoch: 5,
        previous_epoch: 4,
        next_epoch: 6,
        is_in_inactivity_leak: leak,
        total_active_balance: 32_000_000_000,
        churn_limit: 4,
        fork_name: ForkName::Altair,
    }
}

fn info(previous_bits: u8, eligible: bool) -> ValidatorInfo {
    ValidatorInfo {
        index: 0,
        effective_balance: 32_000_000_000,
        base_reward: 54_000,
        is_eligible: eligible,
        is_slashed: false,
        is_active_current_epoch: true,
        is_active_previous_epoch: true,
        previous_epoch_participation: ParticipationFlags { bits: previous_bits },
        current_epoch_participation: ParticipationFlags { bits: previous_bits },
    }
}

fn active_validator(effective_balance: u64) -> Validator {
    Validator {
        effective_balance,
        slashed: false,
        activation_eligibility_epoch: 0,
        activation_epoch: 0,
        exit_epoch: u64::MAX,
        withdrawable_epoch: u64::MAX,
    }
}

#[test]
fn flag_weights_sum_to_denominator() {
    assert_eq!(
        TIMELY_SOURCE_WEIGHT + TIMELY_TARGET_WEIGHT + TIMELY_HEAD_WEIGHT,
        WEIGHT_DENOMINATOR
    );
    assert_eq!(get_flag_weight(0), Ok(14));
    assert_eq!(get_flag_weight(1), Ok(26));
    assert_eq!(get_flag_weight(2), Ok(14));
    assert_eq!(get_flag_weight(3), Err(Error::InvalidFlagIndex(3)));
}

#[test]
fn participation_flags_roundtrip() {
    let mut f = ParticipationFlags::empty();
    assert_eq!(f.has_flag(1), Ok(false));
    assert_eq!(f.add_flag(1), Ok(()));
    assert_eq!(f.has_flag(1), Ok(true));
    assert_eq!(f.has_flag(0), Ok(false));
    assert_eq!(f.has_flag(2), Ok(false));
    assert_eq!(f.add_flag(3), Err(Error::InvalidFlagIndex(3)));
    assert_eq!(f.has_flag(7), Err(Error::InvalidFlagIndex(7)));
}

#[test]
fn checked_sum_detects_overflow() {
    assert_eq!(checked_sum(&vec![1, 2, 3]), Ok(6));
    assert_eq!(checked_sum(&vec![]), Ok(0));
    assert_eq!(checked_sum(&vec![u64::MAX, 1]), Err(Error::ArithmeticError));
}

#[test]
fn delta_accumulates_and_checks_overflow() {
    let mut d = Delta::new();
    assert_eq!(d.reward(10), Ok(()));
    assert_eq!(d.penalize(3), Ok(()));
    assert_eq!(d.rewards, 10);
    assert_eq!(d.penalties, 3);
    d.rewards = u64::MAX;
    assert_eq!(d.reward(1), Err(Error::ArithmeticError));
    assert_eq!(d.rewards, u64::MAX);
}

#[test]
fn exit_cache_counts_churn_per_epoch() {
    let mut cache = ExitCache::new();
    assert_eq!(cache.max_epoch(), None);
    assert_eq!(cache.churn_at(5), 0);
    assert_eq!(cache.record_exit(5), Ok(()));
    assert_eq!(cache.record_exit(5), Ok(()));
    assert_eq!(cache.record_exit(3), Ok(()));
    assert_eq!(cache.churn_at(5), 2);
    assert_eq!(cache.churn_at(3), 1);
    assert_eq!(cache.churn_at(4), 0);
    assert_eq!(cache.max_epoch(), Some(5));
}

#[test]
fn progressive_cache_adjusts_only_attested_flags() {
    let mut cache = ProgressiveBalancesCache {
        previous_epoch_flag_balances: vec![10, 20, 30],
        current_epoch_flag_balances: vec![100, 200, 300],
    };
    let r = cache.on_effective_balance_change(false, ParticipationFlags { bits: 0b101 }, 50, 70);
    assert_eq!(r, Ok(()));
    assert_eq!(cache.current_epoch_flag_balances, vec![120, 200, 320]);
    assert_eq!(cache.previous_epoch_flag_balances, vec![10, 20, 30]);
    // A slashed validator's change touches nothing.
    let r2 = cache.on_effective_balance_change(true, ParticipationFlags { bits: 0b111 }, 50, 70);
    assert_eq!(r2, Ok(()));
    assert_eq!(cache.current_epoch_flag_balances, vec![120, 200, 320]);
    // An underflowing adjustment fails and leaves the cache unchanged.
    let r3 = cache.on_effective_balance_change(false, ParticipationFlags { bits: 0b001 }, 200, 0);
    assert_eq!(r3, Err(Error::ArithmeticError));
    assert_eq!(cache.current_epoch_flag_balances, vec![120, 200, 320]);
}

#[test]
fn base_reward_lookup_is_bounded() {
    let cache = EpochCache { base_rewards: vec![7, 8], activation_queue: vec![] };
    assert_eq!(cache.get_base_reward(1), Ok(8));
    assert_eq!(cache.get_base_reward(2), Err(Error::UnknownValidatorIndex(2)));
}

#[test]
fn inactivity_score_decrements_and_decays() {
    let cs = chain_spec();
    // Timely target, score 10: minus one, then the full decay to zero.
    let mut score: u64 = 10;
    let r = process_single_inactivity_update(&mut score, &info(0b010, true), &state_ctxt(false), &cs);
    assert_eq!(r, Ok(()));
    assert_eq!(score, 0);
    // Timely target at score zero stays zero.
    let mut score2: u64 = 0;
    process_single_inactivity_update(&mut score2, &info(0b010, true), &state_ctxt(false), &cs)
        .unwrap();
    assert_eq!(score2, 0);
    // Missing the target during a leak adds exactly the bias.
    let mut score3: u64 = 2;
    process_single_inactivity_update(&mut score3, &info(0b101, true), &state_ctxt(true), &cs)
        .unwrap();
    assert_eq!(score3, 6);
    // An ineligible validator is skipped entirely.
    let mut score4: u64 = 9;
    process_single_inactivity_update(&mut score4, &info(0b000, false), &state_ctxt(true), &cs)
        .unwrap();
    assert_eq!(score4, 9);
}

#[test]
fn inactivity_score_overflow_is_an_error() {
    let cs = chain_spec();
    let mut score: u64 = u64::MAX;
    let r = process_single_inactivity_update(&mut score, &info(0b000, true), &state_ctxt(true), &cs);
    assert_eq!(r, Err(Error::ArithmeticError));
    assert_eq!(score, u64::MAX);
}

#[test]
fn head_flag_never_penalizes() {
    // A validator that missed every flag: the head flag contributes no
    // penalty while source and target do.
    let rewards_ctxt = RewardsAndPenaltiesContext {
        unslashed_participating_increments_array: vec![32, 32, 32],
        active_increments: 32,
    };
    let mut d = Delta::new();
    let r = get_flag_index_delta(&mut d, &info(0b000, true), 2, &rewards_ctxt, &state_ctxt(false));
    assert_eq!(r, Ok(()));
    assert_eq!(d.penalties, 0);
    assert_eq!(d.rewards, 0);
    let r2 = get_flag_index_delta(&mut d, &info(0b000, true), 0, &rewards_ctxt, &state_ctxt(false));
    assert_eq!(r2, Ok(()));
    // 54_000 * 14 / 54.
    assert_eq!(d.penalties, 14_000);
    let r3 = get_flag_index_delta(&mut d, &info(0b000, true), 1, &rewards_ctxt, &state_ctxt(false));
    assert_eq!(r3, Ok(()));
    assert_eq!(d.penalties, 14_000 + 26_000);
    assert_eq!(d.rewards, 0);
}

#[test]
fn reward_stage_combines_flags_and_inactivity_into_one_delta() {
    let cs = chain_spec();
    let rewards_ctxt = RewardsAndPenaltiesContext {
        unslashed_participating_increments_array: vec![32, 32, 32],
        active_increments: 32,
    };
    // Fully participating outside a leak: plus the three flag rewards.
    let mut balance: u64 = 1_000_000;
    let r = process_single_reward_and_penalty(
        &mut balance,
        &0,
        &info(0b111, true),
        &rewards_ctxt,
        &state_ctxt(false),
        &cs,
    );
    assert_eq!(r, Ok(()));
    assert_eq!(balance, 1_000_000 + 54_000);
    // Missing every flag during a leak with score 12: the source and target
    // penalties plus 32e9 * 12 / (4 * 50_331_648) = 1907.
    let mut balance2: u64 = 1_000_000;
    process_single_reward_and_penalty(
        &mut balance2,
        &12,
        &info(0b000, true),
        &rewards_ctxt,
        &state_ctxt(true),
        &cs,
    )
    .unwrap();
    assert_eq!(balance2, 1_000_000 - 14_000 - 26_000 - 1907);
    // The same penalties saturate a small balance at zero.
    let mut balance3: u64 = 10_000;
    process_single_reward_and_penalty(
        &mut balance3,
        &12,
        &info(0b000, true),
        &rewards_ctxt,
        &state_ctxt(true),
        &cs,
    )
    .unwrap();
    assert_eq!(balance3, 0);
    // An ineligible validator's balance is untouched.
    let mut balance4: u64 = 77;
    process_single_reward_and_penalty(
        &mut balance4,
        &12,
        &info(0b000, false),
        &rewards_ctxt,
        &state_ctxt(true),
        &cs,
    )
    .unwrap();
    assert_eq!(balance4, 77);
}

#[test]
fn exit_initiation_is_idempotent() {
    let cs = chain_spec();
    let ctxt = state_ctxt(false);
    let mut v = active_validator(16_000_000_000);
    let mut cache = ExitCache::new();
    initiate_validator_exit(&mut v, &mut cache, &ctxt, &cs).unwrap();
    assert_eq!(v.exit_epoch, 10);
    assert_eq!(v.withdrawable_epoch, 266);
    assert_eq!(cache.churn_at(10), 1);
    // A second initiation changes neither the validator nor the cache.
    let snapshot = v;
    initiate_validator_exit(&mut v, &mut cache, &ctxt, &cs).unwrap();
    assert_eq!(v, snapshot);
    assert_eq!(cache.churn_at(10), 1);
    assert_eq!(cache.max_epoch(), Some(10));
}

#[test]
fn exit_queue_follows_recorded_maximum() {
    let cs = chain_spec();
    let ctxt = state_ctxt(false);
    let mut cache = ExitCache::new();
    // An exit already recorded at a later epoch pulls new exits to it.
    cache.record_exit(20).unwrap();
    let mut v = active_validator(16_000_000_000);
    initiate_validator_exit(&mut v, &mut cache, &ctxt, &cs).unwrap();
    assert_eq!(v.exit_epoch, 20);
    assert_eq!(cache.churn_at(20), 2);
}

#[test]
fn churn_limit_floors_at_minimum() {
    let cs = chain_spec();
    let validators = vec![active_validator(32_000_000_000); 10];
    // 10 active / 65536 floors to 0; the configured minimum of 4 wins.
    assert_eq!(get_churn_limit(&validators, 5, &cs), Ok(4));
    let mut cs2 = chain_spec();
    cs2.churn_limit_quotient = 2;
    assert_eq!(get_churn_limit(&validators, 5, &cs2), Ok(5));
    let mut cs3 = chain_spec();
    cs3.churn_limit_quotient = 0;
    assert_eq!(get_churn_limit(&validators, 5, &cs3), Err(Error::ArithmeticError));
}

#[test]
fn effective_balance_update_within_band_is_a_no_op() {
    let cs = chain_spec();
    let eb_ctxt = EffectiveBalancesContext::new(&cs).unwrap();
    assert_eq!(eb_ctxt.downward_threshold, 250_000_000);
    assert_eq!(eb_ctxt.upward_threshold, 1_250_000_000);
    let mut v = active_validator(32_000_000_000);
    let mut total: u64 = 0;
    let mut next_cache = state_processing::caches::PreEpochCache::new_for_next_epoch();
    let mut progressive = ProgressiveBalancesCache {
        previous_epoch_flag_balances: vec![32_000_000_000; 3],
        current_epoch_flag_balances: vec![32_000_000_000; 3],
    };
    // 31.8e9 is within [32e9 - 0.25e9, 32e9 + 1.25e9): unchanged.
    let r = process_single_effective_balance_update(
        31_800_000_000,
        &mut v,
        &info(0b111, true),
        &mut total,
        &mut next_cache,
        &mut progressive,
        &eb_ctxt,
        &state_ctxt(false),
        &cs,
    );
    assert_eq!(r, Ok(()));
    assert_eq!(v.effective_balance, 32_000_000_000);
    assert_eq!(total, 32_000_000_000);
    assert_eq!(next_cache.effective_balances, vec![32_000_000_000]);
    assert_eq!(progressive.current_epoch_flag_balances, vec![32_000_000_000; 3]);
}

#[test]
fn effective_balance_is_capped_at_maximum() {
    let cs = chain_spec();
    let eb_ctxt = EffectiveBalancesContext::new(&cs).unwrap();
    let mut v = active_validator(30_000_000_000);
    let mut total: u64 = 0;
    let mut next_cache = state_processing::caches::PreEpochCache::new_for_next_epoch();
    let mut progressive = ProgressiveBalancesCache {
        previous_epoch_flag_balances: vec![30_000_000_000; 3],
        current_epoch_flag_balances: vec![30_000_000_000; 3],
    };
    // 40e9 is far above the band; the rounded balance caps at 32e9.
    let r = process_single_effective_balance_update(
        40_000_000_000,
        &mut v,
        &info(0b111, true),
        &mut total,
        &mut next_cache,
        &mut progressive,
        &eb_ctxt,
        &state_ctxt(false),
        &cs,
    );
    assert_eq!(r, Ok(()));
    assert_eq!(v.effective_balance, 32_000_000_000);
    assert_eq!(progressive.current_epoch_flag_balances, vec![32_000_000_000; 3]);
}

#[test]
fn fork_constants_are_selected_by_fork() {
    let cs = chain_spec();
    assert_eq!(cs.inactivity_penalty_quotient_for_fork(ForkName::Altair), 50_331_648);
    assert_eq!(cs.inactivity_penalty_quotient_for_fork(ForkName::Bellatrix), 16_777_216);
    assert_eq!(cs.inactivity_penalty_quotient_for_fork(ForkName::Capella), 16_777_216);
    assert_eq!(cs.proportional_slashing_multiplier_for_fork(ForkName::Altair), 2);
    assert_eq!(cs.proportional_slashing_multiplier_for_fork(ForkName::Bellatrix), 3);
    assert_eq!(cs.compute_activation_exit_epoch(5), Ok(10));
    assert_eq!(cs.compute_activation_exit_epoch(u64::MAX), Err(Error::ArithmeticError));
}
