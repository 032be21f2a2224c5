use coralswap_pair::dynamic_fee::{compute_fee_bps, decay_stale_ema, update_volatility, FeeState};
use coralswap_pair::errors::PairError;
use coralswap_pair::fee_decay::apply_time_decay;
use coralswap_pair::math::SCALE;

fn default_fee_state(alpha: i128) -> FeeState {
    FeeState {
        vol_accumulator: 0,
        ema_alpha: alpha,
        baseline_fee_bps: 30,
        min_fee_bps: 5,
        max_fee_bps: 100,
        ramp_up_multiplier: 2,
        cooldown_divisor: 2,
        last_fee_update: 0,
        decay_threshold_blocks: 100,
    }
}

#[test]
fn large_trade_produces_larger_update_than_small_trade() {
    let alpha = SCALE / 10;
    let total_reserve = 1_000_000;
    let price_delta = 500;
    let mut state_small = default_fee_state(alpha);
    update_volatility(&mut state_small, price_delta, 1_000, total_reserve, 0).unwrap();
    let mut state_large = default_fee_state(alpha);
    update_volatility(&mut state_large, price_delta, 100_000, total_reserve, 0).unwrap();
    assert!(
        state_large.vol_accumulator > state_small.vol_accumulator,
        "large trade ({}) must move accumulator more than small trade ({})",
        state_large.vol_accumulator,
        state_small.vol_accumulator,
    );
}

#[test]
fn ema_smooths_observations_towards_steady_state() {
    let alpha = SCALE / 10;
    let total_reserve = 1_000_000;
    let trade_size = 100_000;
    let price_delta = 1_000;
    let mut state = default_fee_state(alpha);
    let mut prev = 0i128;
    for _ in 0..200 {
        update_volatility(&mut state, price_delta, trade_size, total_reserve, 0).unwrap();
        assert!(
            state.vol_accumulator >= prev,
            "accumulator should be non-decreasing under constant positive input"
        );
        prev = state.vol_accumulator;
    }
    let theoretical = 100i128;
    assert!(
        state.vol_accumulator > theoretical * 9 / 10 && state.vol_accumulator <= theoretical,
        "accumulator {} should converge to ~{} (within 10%)",
        state.vol_accumulator,
        theoretical,
    );
}

#[test]
fn alpha_controls_responsiveness() {
    let total_reserve = 1_000_000;
    let trade_size = 100_000;
    let price_delta = 1_000;
    let mut fast = default_fee_state(SCALE / 2);
    let mut slow = default_fee_state(SCALE / 20);
    update_volatility(&mut fast, price_delta, trade_size, total_reserve, 0).unwrap();
    update_volatility(&mut slow, price_delta, trade_size, total_reserve, 0).unwrap();
    assert!(
        fast.vol_accumulator > slow.vol_accumulator,
        "fast alpha ({}) should yield larger first update than slow alpha ({})",
        fast.vol_accumulator,
        slow.vol_accumulator,
    );
}

#[test]
fn zero_price_delta_does_not_increase_volatility() {
    let mut state = default_fee_state(SCALE / 10);
    state.vol_accumulator = 500;
    update_volatility(&mut state, 0, 100_000, 1_000_000, 0).unwrap();
    assert!(state.vol_accumulator <= 500, "accumulator should not increase on zero delta, got {}", state.vol_accumulator);
}

#[test]
fn timestamp_is_updated_after_call() {
    let mut state = default_fee_state(SCALE / 10);
    assert_eq!(state.last_fee_update, 0);
    let current_sequence: u64 = 0;
    update_volatility(&mut state, 100, 1_000, 1_000_000, current_sequence).unwrap();
    assert_eq!(state.last_fee_update, current_sequence);
}

#[test]
fn update_records_the_sequence_number() {
    let mut state = default_fee_state(SCALE / 10);
    update_volatility(&mut state, 100, 1_000, 1_000_000, 4_242).unwrap();
    assert_eq!(state.last_fee_update, 4_242);
}

#[test]
fn overflow_on_huge_price_delta_returns_error() {
    let mut state = default_fee_state(SCALE / 10);
    let result = update_volatility(&mut state, i128::MAX / 2, i128::MAX / 2, 1, 0);
    assert_eq!(result, Err(PairError::Overflow));
}

#[test]
fn overflow_on_huge_trade_size_returns_error() {
    let mut state = default_fee_state(SCALE / 10);
    let result = update_volatility(&mut state, 100, i128::MAX, 1, 0);
    assert_eq!(result, Err(PairError::Overflow));
}

#[test]
fn negative_price_delta_returns_error() {
    let mut state = default_fee_state(SCALE / 10);
    let result = update_volatility(&mut state, -1, 1_000, 1_000_000, 0);
    assert_eq!(result, Err(PairError::InvalidInput));
}

#[test]
fn zero_trade_size_returns_error() {
    let mut state = default_fee_state(SCALE / 10);
    let result = update_volatility(&mut state, 100, 0, 1_000_000, 0);
    assert_eq!(result, Err(PairError::InvalidInput));
}

#[test]
fn zero_total_reserve_returns_error() {
    let mut state = default_fee_state(SCALE / 10);
    let result = update_volatility(&mut state, 100, 1_000, 0, 0);
    assert_eq!(result, Err(PairError::InvalidInput));
}

#[test]
fn failed_update_leaves_state_unchanged() {
    let mut state = default_fee_state(SCALE / 10);
    state.vol_accumulator = 777;
    state.last_fee_update = 9;
    let before = state;
    assert_eq!(update_volatility(&mut state, 100, i128::MAX, 1, 50), Err(PairError::Overflow));
    assert_eq!(state, before);
}

#[test]
fn alpha_zero_means_no_update() {
    let mut state = default_fee_state(0);
    state.vol_accumulator = 500;
    update_volatility(&mut state, 1_000, 100_000, 1_000_000, 0).unwrap();
    assert_eq!(state.vol_accumulator, 500);
}

#[test]
fn alpha_scale_means_full_replace() {
    let mut state = default_fee_state(SCALE);
    state.vol_accumulator = 999_999;
    update_volatility(&mut state, 1_000, 100_000, 1_000_000, 0).unwrap();
    assert_eq!(state.vol_accumulator, 100, "alpha=SCALE should fully replace old accumulator with new observation");
}

#[test]
fn ema_blend_exact_value() {
    // weight = 100_000 * SCALE / 1_000_000 = SCALE / 10; observation = 1_000 / 10 = 100
    // new = (SCALE/10 * 100 + 9*SCALE/10 * 500) / SCALE = 10 + 450 = 460
    let mut state = default_fee_state(SCALE / 10);
    state.vol_accumulator = 500;
    update_volatility(&mut state, 1_000, 100_000, 1_000_000, 7).unwrap();
    assert_eq!(state.vol_accumulator, 460);
    assert_eq!(state.last_fee_update, 7);
}

#[test]
fn zero_volatility_fee_is_baseline() {
    let state = default_fee_state(SCALE / 10);
    assert_eq!(compute_fee_bps(&state), 30);
}

#[test]
fn baseline_below_min_is_raised_to_min() {
    let mut state = default_fee_state(SCALE / 10);
    state.baseline_fee_bps = 1;
    assert_eq!(compute_fee_bps(&state), 5);
}

#[test]
fn fee_grows_with_volatility() {
    let mut state = default_fee_state(SCALE / 10);
    // 2.5e10 * 2 / 1e10 = 5 extra basis points
    state.vol_accumulator = 25_000_000_000;
    assert_eq!(compute_fee_bps(&state), 35);
}

#[test]
fn fee_is_monotone_and_bounded_in_volatility() {
    let mut prev = 0u32;
    for vol in [0i128, 1, 10_000_000_000, 100_000_000_000, 400_000_000_000, 1_000_000_000_000, i128::MAX] {
        let mut state = default_fee_state(SCALE / 10);
        state.vol_accumulator = vol;
        let fee = compute_fee_bps(&state);
        assert!(fee >= prev);
        assert!((5..=100).contains(&fee));
        prev = fee;
    }
}

#[test]
fn extreme_volatility_saturates_to_max_fee() {
    let mut state = default_fee_state(SCALE / 10);
    state.vol_accumulator = i128::MAX;
    state.ramp_up_multiplier = u32::MAX;
    assert_eq!(compute_fee_bps(&state), 100);
}

#[test]
fn fee_formula_clamps_to_max() {
    let state = FeeState {
        vol_accumulator: 1_000_000_000_000,
        ema_alpha: 5_000_000_000_000,
        baseline_fee_bps: 30,
        min_fee_bps: 5,
        max_fee_bps: 100,
        ramp_up_multiplier: 2,
        cooldown_divisor: 2,
        last_fee_update: 0,
        decay_threshold_blocks: 100,
    };
    assert_eq!(compute_fee_bps(&state), 100);
}

#[test]
fn decay_within_threshold_is_noop() {
    let mut state = default_fee_state(SCALE / 10);
    state.vol_accumulator = 1_000;
    state.last_fee_update = 50;
    let before = state;
    decay_stale_ema(&mut state, 150);
    assert_eq!(state, before);
}

#[test]
fn decay_halves_per_idle_period() {
    let mut state = default_fee_state(SCALE / 10);
    state.vol_accumulator = 1_000;
    state.last_fee_update = 0;
    decay_stale_ema(&mut state, 350);
    assert_eq!(state.vol_accumulator, 125);
    assert_eq!(state.last_fee_update, 350);
}

#[test]
fn decay_is_capped_at_max_periods() {
    let mut state = default_fee_state(SCALE / 10);
    state.vol_accumulator = i128::MAX;
    decay_stale_ema(&mut state, u64::MAX);
    // at most 64 halvings: 2^127 - 1 becomes 2^63 - 1
    assert_eq!(state.vol_accumulator, i128::MAX >> 64);
    assert_eq!(state.last_fee_update, u64::MAX);
}

#[test]
fn decay_twice_at_same_sequence_changes_nothing_more() {
    let mut state = default_fee_state(SCALE / 10);
    state.vol_accumulator = 80_000;
    decay_stale_ema(&mut state, 1_000);
    let once = state;
    decay_stale_ema(&mut state, 1_000);
    assert_eq!(state, once);
    assert_eq!(once.vol_accumulator, 80_000 >> 10);
}

#[test]
fn decay_reaches_zero_and_stays_there() {
    let mut state = default_fee_state(SCALE / 10);
    state.vol_accumulator = 3;
    decay_stale_ema(&mut state, 500);
    assert_eq!(state.vol_accumulator, 0);
    assert_eq!(state.last_fee_update, 500);
}

#[test]
fn time_decay_with_zero_accumulator_records_sequence() {
    let mut state = default_fee_state(SCALE / 10);
    apply_time_decay(&mut state, 10_000);
    assert_eq!(state.vol_accumulator, 0);
    assert_eq!(state.last_fee_update, 10_000);
}

#[test]
fn stale_decay_with_zero_volatility_records_sequence() {
    let mut state = default_fee_state(SCALE / 10);
    decay_stale_ema(&mut state, 500);
    assert_eq!(state.vol_accumulator, 0);
    assert_eq!(state.last_fee_update, 500);
    let once = state;
    decay_stale_ema(&mut state, 500);
    assert_eq!(state, once);
}

#[test]
fn time_decay_without_elapsed_time_keeps_state() {
    let mut state = default_fee_state(SCALE / 10);
    state.vol_accumulator = 900;
    state.last_fee_update = 40;
    let before = state;
    apply_time_decay(&mut state, 40);
    assert_eq!(state, before);
}
