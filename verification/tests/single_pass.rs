use state_processing::caches::{
    ActivationQueue, EpochCache, ExitCache, PreEpochCache, ProgressiveBalancesCache,
};
use state_processing::config::{ChainSpec, ForkName};
use state_processing::errors::Error;
use state_processing::participation::ParticipationFlags;
use state_processing::single_pass::{process_epoch_single_pass, SinglePassConfig};
use state_processing::state::BeaconState;
use state_processing::validator::Validator;

fn chain_spec() -> ChainSpec {
    ChainSpec {
        far_future_epoch: u64::MAX,
        effective_balance_increment: 1_000_000_000,
        max_effective_balance: 32_000_000_000,
        ejection_balance: 16_000_000_000,
        inactivity_score_bias: 4,
        inactivity_score_recovery_rate: 16,
        inactivity_penalty_quotient_altair: 50_331_648,
        inactivity_penalty_quotient_bellatrix: 16_777_216,
        proportional_slashing_multiplier_altair: 2,
        proportional_slashing_multiplier_bellatrix: 3,
        hysteresis_quotient: 4,
        hysteresis_downward_multiplier: 1,
        hysteresis_upward_multiplier: 5,
        min_per_epoch_churn_limit: 4,
        churn_limit_quotient: 65536,
        min_validator_withdrawability_delay: 256,
        max_seed_lookahead: 4,
    }
}

fn active_validator(effective_balance: u64) -> Validator {
    Validator {
        effective_balance,
        slashed: false,
        activation_eligibility_epoch: 0,
        activation_epoch: 0,
        exit_epoch: u64::MAX,
        withdrawable_epoch: u64::MAX,
    }
}

fn flags(bits: u8) -> ParticipationFlags {
    ParticipationFlags { bits }
}

fn base_state(
    validators: Vec<Validator>,
    balances: Vec<u64>,
    scores: Vec<u64>,
    prev: Vec<ParticipationFlags>,
    curr: Vec<ParticipationFlags>,
    base_rewards: Vec<u64>,
) -> BeaconState {
    BeaconState {
        validators,
        balances,
        previous_epoch_participation: prev,
        current_epoch_participation: curr,
        inactivity_scores: scores,
        slashings: vec![0; 8],
        current_epoch: 5,
        is_in_inactivity_leak: false,
        total_active_balance: 32_000_000_000,
        fork_name: ForkName::Altair,
        exit_cache: ExitCache::new(),
        progressive_balances: ProgressiveBalancesCache {
            previous_epoch_flag_balances: vec![32_000_000_000; 3],
            current_epoch_flag_balances: vec![32_000_000_000; 3],
        },
        epoch_cache: EpochCache { base_rewards, activation_queue: vec![] },
        next_epoch_total_active_balance: 0,
        next_epoch_cache: PreEpochCache { effective_balances: vec![] },
        next_epoch_activation_queue: ActivationQueue::new(),
    }
}

#[test]
fn full_participation_rewards_sum_of_flag_formulas() {
    // A fully participating, unslashed validator outside a leak with score 0
    // and maximal effective balance: score stays 0, reward is the sum of the
    // three flag formulas, penalty is zero.
    let cs = chain_spec();
    let v = active_validator(32_000_000_000);
    let mut state = base_state(
        vec![v],
        vec![32_000_000_000],
        vec![0],
        vec![flags(0b111)],
        vec![flags(0b111)],
        vec![54_000],
    );
    let summary = process_epoch_single_pass(&mut state, &cs, SinglePassConfig::enable_all())
        .expect("pass succeeds");
    // base_reward * weight * 32 / (32 * 54) per flag: 14_000 + 26_000 + 14_000.
    assert_eq!(state.balances[0], 32_000_000_000 + 54_000);
    assert_eq!(state.inactivity_scores[0], 0);
    assert_eq!(summary.validators, vec![v]);
    assert_eq!(summary.previous_epoch, 4);
    assert_eq!(summary.current_epoch, 5);
    assert_eq!(state.next_epoch_total_active_balance, 32_000_000_000);
    assert_eq!(state.next_epoch_cache.effective_balances, vec![32_000_000_000]);
    assert_eq!(state.next_epoch_activation_queue.queue.len(), 0);
}

#[test]
fn leak_target_failure_bias_and_inactivity_penalty() {
    // A validator failing the target flag during a leak: inactivity score
    // rises by exactly the bias with no forgiveness decay, and the balance
    // pays the target-flag penalty plus the inactivity penalty
    // effective_balance * score / (bias * quotient).
    let cs = chain_spec();
    let v = active_validator(32_000_000_000);
    let mut state = base_state(
        vec![v],
        vec![32_000_000_000],
        vec![0],
        vec![flags(0b101)],
        vec![flags(0b101)],
        vec![54_000],
    );
    state.is_in_inactivity_leak = true;
    process_epoch_single_pass(&mut state, &cs, SinglePassConfig::enable_all())
        .expect("pass succeeds");
    assert_eq!(state.inactivity_scores[0], 4);
    // Target-flag penalty: 54_000 * 26 / 54 = 26_000.
    // Inactivity penalty: 32e9 * 4 / (4 * 50_331_648) = 635.
    assert_eq!(state.balances[0], 32_000_000_000 - 26_000 - 635);
}

#[test]
fn slashing_penalty_formula_and_saturation() {
    // A slashed validator whose withdrawable epoch equals the target epoch
    // pays the increment-quantized penalty exactly, saturating at zero when
    // it exceeds the balance.
    let cs = chain_spec();
    let mut slashed = active_validator(32_000_000_000);
    slashed.slashed = true;
    slashed.withdrawable_epoch = 9;
    let mut state = base_state(
        vec![slashed, slashed],
        vec![32_000_000_000, 1_000_000_000],
        vec![0, 0],
        vec![flags(0), flags(0)],
        vec![flags(0), flags(0)],
        vec![0, 0],
    );
    state.slashings = vec![3_000_000_000, 0, 0, 0, 0, 0, 0, 0];
    state.total_active_balance = 64_000_000_000;
    let mut conf = SinglePassConfig::disable_all();
    conf.slashings = true;
    process_epoch_single_pass(&mut state, &cs, conf).expect("pass succeeds");
    // adjusted = min(3e9 * 2, 64e9) = 6e9; penalty = 32 * 6e9 / 64e9 * 1e9 = 3e9.
    assert_eq!(state.balances[0], 29_000_000_000);
    // 1e9 - 3e9 saturates at zero instead of underflowing.
    assert_eq!(state.balances[1], 0);
}

#[test]
fn ejection_sets_exit_and_withdrawable_epochs() {
    // An active validator at the ejection threshold gets the minimum delayed
    // exit epoch when churn allows, and withdrawable = exit + delay.
    let cs = chain_spec();
    let v = active_validator(16_000_000_000);
    let mut state = base_state(
        vec![v],
        vec![16_000_000_000],
        vec![0],
        vec![flags(0)],
        vec![flags(0)],
        vec![0],
    );
    let mut conf = SinglePassConfig::disable_all();
    conf.registry_updates = true;
    let summary = process_epoch_single_pass(&mut state, &cs, conf).expect("pass succeeds");
    // The snapshot was taken before the mutation.
    assert_eq!(summary.validators[0].exit_epoch, u64::MAX);
    // delayed epoch = 5 + 1 + 4 = 10.
    assert_eq!(state.validators[0].exit_epoch, 10);
    assert_eq!(state.validators[0].withdrawable_epoch, 10 + 256);
    assert_eq!(state.exit_cache.churn_at(10), 1);
    assert_eq!(state.exit_cache.max_epoch(), Some(10));
}

#[test]
fn churn_limit_pushes_excess_exits_to_next_epoch() {
    // With a churn limit of one, the second ejected validator is assigned
    // the following exit epoch.
    let mut cs = chain_spec();
    cs.min_per_epoch_churn_limit = 1;
    let v = active_validator(16_000_000_000);
    let mut state = base_state(
        vec![v, v],
        vec![16_000_000_000, 16_000_000_000],
        vec![0, 0],
        vec![flags(0), flags(0)],
        vec![flags(0), flags(0)],
        vec![0, 0],
    );
    let mut conf = SinglePassConfig::disable_all();
    conf.registry_updates = true;
    process_epoch_single_pass(&mut state, &cs, conf).expect("pass succeeds");
    assert_eq!(state.validators[0].exit_epoch, 10);
    assert_eq!(state.validators[1].exit_epoch, 11);
    assert_eq!(state.validators[1].withdrawable_epoch, 11 + 256);
    assert_eq!(state.exit_cache.churn_at(10), 1);
    assert_eq!(state.exit_cache.churn_at(11), 1);
}

#[test]
fn genesis_epoch_skips_inactivity_and_rewards() {
    let cs = chain_spec();
    let v = active_validator(32_000_000_000);
    let mut state = base_state(
        vec![v],
        vec![32_000_000_000],
        vec![7],
        vec![flags(0)],
        vec![flags(0)],
        vec![54_000],
    );
    state.current_epoch = 0;
    process_epoch_single_pass(&mut state, &cs, SinglePassConfig::enable_all())
        .expect("pass succeeds");
    // Neither the score nor the balance moved at the genesis boundary.
    assert_eq!(state.inactivity_scores[0], 7);
    assert_eq!(state.balances[0], 32_000_000_000);
}

#[test]
fn disabled_stages_leave_state_untouched() {
    let cs = chain_spec();
    let v = active_validator(16_000_000_000);
    let mut state = base_state(
        vec![v],
        vec![16_000_000_000],
        vec![3],
        vec![flags(0)],
        vec![flags(0)],
        vec![54_000],
    );
    process_epoch_single_pass(&mut state, &cs, SinglePassConfig::disable_all())
        .expect("pass succeeds");
    assert_eq!(state.validators[0], v);
    assert_eq!(state.balances[0], 16_000_000_000);
    assert_eq!(state.inactivity_scores[0], 3);
    assert_eq!(state.next_epoch_total_active_balance, 0);
    assert_eq!(state.next_epoch_cache.effective_balances.len(), 0);
}

#[test]
fn desynchronized_sequences_are_rejected() {
    let cs = chain_spec();
    let v = active_validator(32_000_000_000);
    let mut state = base_state(
        vec![v],
        vec![],
        vec![0],
        vec![flags(0)],
        vec![flags(0)],
        vec![0],
    );
    let r = process_epoch_single_pass(&mut state, &cs, SinglePassConfig::enable_all());
    assert_eq!(r.err(), Some(Error::UnknownValidatorIndex(0)));
}

#[test]
fn malformed_progressive_cache_is_rejected() {
    let cs = chain_spec();
    let v = active_validator(32_000_000_000);
    let mut state = base_state(
        vec![v],
        vec![32_000_000_000],
        vec![0],
        vec![flags(0)],
        vec![flags(0)],
        vec![0],
    );
    state.progressive_balances.current_epoch_flag_balances = vec![0; 2];
    let r = process_epoch_single_pass(&mut state, &cs, SinglePassConfig::enable_all());
    assert_eq!(r.err(), Some(Error::CacheError));
}

#[test]
fn missing_base_reward_is_an_unknown_index() {
    let cs = chain_spec();
    let v = active_validator(32_000_000_000);
    let mut state = base_state(
        vec![v],
        vec![32_000_000_000],
        vec![0],
        vec![flags(0b111)],
        vec![flags(0b111)],
        vec![],
    );
    let r = process_epoch_single_pass(&mut state, &cs, SinglePassConfig::enable_all());
    assert_eq!(r.err(), Some(Error::UnknownValidatorIndex(0)));
}

#[test]
fn effective_balance_moves_only_out_of_band() {
    // Hysteresis: a downward drift past the threshold rounds the balance
    // down to the increment; the next pass with the balance back in band
    // leaves the effective balance alone.
    let cs = chain_spec();
    let v = active_validator(32_000_000_000);
    let mut state = base_state(
        vec![v],
        vec![31_400_000_123],
        vec![0],
        vec![flags(0)],
        vec![flags(0)],
        vec![0],
    );
    let mut conf = SinglePassConfig::disable_all();
    conf.effective_balance_updates = true;
    process_epoch_single_pass(&mut state, &cs, conf).expect("pass succeeds");
    // 31_400_000_123 < 32e9 - 250e6, so the balance is out of band:
    // new effective balance = 31_400_000_123 rounded down to 1e9.
    assert_eq!(state.validators[0].effective_balance, 31_000_000_000);
    assert_eq!(state.next_epoch_total_active_balance, 31_000_000_000);
    assert_eq!(state.next_epoch_cache.effective_balances, vec![31_000_000_000]);
    // The progressive-balances cache followed the change for attested flags.
    assert_eq!(
        state.progressive_balances.current_epoch_flag_balances,
        vec![32_000_000_000; 3]
    );

    // Second pass: the balance is within the band of the new effective
    // balance, so nothing moves.
    let mut conf2 = SinglePassConfig::disable_all();
    conf2.effective_balance_updates = true;
    process_epoch_single_pass(&mut state, &cs, conf2).expect("pass succeeds");
    assert_eq!(state.validators[0].effective_balance, 31_000_000_000);
}

#[test]
fn effective_balance_change_updates_progressive_cache() {
    let cs = chain_spec();
    let v = active_validator(32_000_000_000);
    let mut state = base_state(
        vec![v],
        vec![20_000_000_000],
        vec![0],
        vec![flags(0)],
        vec![flags(0b011)],
        vec![0],
    );
    let mut conf = SinglePassConfig::disable_all();
    conf.effective_balance_updates = true;
    process_epoch_single_pass(&mut state, &cs, conf).expect("pass succeeds");
    assert_eq!(state.validators[0].effective_balance, 20_000_000_000);
    // Source and target sums follow the 12e9 drop; the head sum does not.
    assert_eq!(
        state.progressive_balances.current_epoch_flag_balances,
        vec![20_000_000_000, 20_000_000_000, 32_000_000_000]
    );
}

#[test]
fn exits_scheduled_before_the_pass_are_untouched() {
    // Exit monotonicity through a full pass: a validator that already
    // initiated exit keeps its epochs even while still ejectable.
    let cs = chain_spec();
    let mut v = active_validator(16_000_000_000);
    v.exit_epoch = 42;
    v.withdrawable_epoch = 298;
    let mut state = base_state(
        vec![v],
        vec![16_000_000_000],
        vec![0],
        vec![flags(0)],
        vec![flags(0)],
        vec![0],
    );
    let mut conf = SinglePassConfig::disable_all();
    conf.registry_updates = true;
    process_epoch_single_pass(&mut state, &cs, conf).expect("pass succeeds");
    assert_eq!(state.validators[0].exit_epoch, 42);
    assert_eq!(state.validators[0].withdrawable_epoch, 298);
    assert_eq!(state.exit_cache.max_epoch(), None);
}

#[test]
fn newly_eligible_validator_is_queued_and_offered() {
    // A validator at maximum effective balance with an unset eligibility
    // epoch is queued for the next epoch and offered to the speculative
    // activation queue.
    let cs = chain_spec();
    let mut v = active_validator(32_000_000_000);
    v.activation_eligibility_epoch = u64::MAX;
    v.activation_epoch = u64::MAX;
    v.exit_epoch = u64::MAX;
    let mut state = base_state(
        vec![v],
        vec![32_000_000_000],
        vec![0],
        vec![flags(0)],
        vec![flags(0)],
        vec![0],
    );
    let mut conf = SinglePassConfig::disable_all();
    conf.registry_updates = true;
    // The speculative queue is committed by the effective-balance stage.
    conf.effective_balance_updates = true;
    process_epoch_single_pass(&mut state, &cs, conf).expect("pass succeeds");
    assert_eq!(state.validators[0].activation_eligibility_epoch, 6);
    // Eligible no later than next epoch (6) and not yet activated: offered.
    assert_eq!(state.next_epoch_activation_queue.queue, vec![(6, 0)]);
}

#[test]
fn queued_validator_is_activated() {
    let cs = chain_spec();
    let mut v = active_validator(32_000_000_000);
    v.activation_epoch = u64::MAX;
    v.activation_eligibility_epoch = 2;
    let mut state = base_state(
        vec![v],
        vec![32_000_000_000],
        vec![0],
        vec![flags(0)],
        vec![flags(0)],
        vec![0],
    );
    state.epoch_cache.activation_queue = vec![0];
    let mut conf = SinglePassConfig::disable_all();
    conf.registry_updates = true;
    process_epoch_single_pass(&mut state, &cs, conf).expect("pass succeeds");
    assert_eq!(state.validators[0].activation_epoch, 10);
}
