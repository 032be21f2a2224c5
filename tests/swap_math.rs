use coralswap_pair::errors::PairError;
use coralswap_pair::swap_math::{get_amount_out, k_after_swap};

#[test]
fn test_basic_swap_amount_out() {
    let reserve_in: i128 = 1_000_000_0000000;
    let reserve_out: i128 = 1_000_000_0000000;
    let amount_in: i128 = 1_000_0000000;
    let fee_bps: u32 = 30;
    let amount_out = get_amount_out(amount_in, reserve_in, reserve_out, fee_bps)
        .expect("basic swap should succeed");
    assert!(amount_out > 0, "amount_out must be positive");
    assert!(amount_out < reserve_out, "amount_out must be less than reserve_out");
    assert!(amount_out < amount_in, "output should be less than input due to fees and slippage");
}

#[test]
fn test_fee_deduction_30_bps() {
    let reserve_in: i128 = 10_000_000;
    let reserve_out: i128 = 10_000_000;
    let amount_in: i128 = 10_000;
    let out_with_fee = get_amount_out(amount_in, reserve_in, reserve_out, 30).unwrap();
    let out_no_fee = get_amount_out(amount_in, reserve_in, reserve_out, 0).unwrap();
    assert!(
        out_with_fee < out_no_fee,
        "output with fee ({}) must be less than output without fee ({})",
        out_with_fee,
        out_no_fee,
    );
    let diff = out_no_fee - out_with_fee;
    assert!(diff > 0, "fee must reduce the output");
}

#[test]
fn test_dynamic_fee_higher_fee_reduces_output() {
    let reserve_in: i128 = 5_000_000;
    let reserve_out: i128 = 5_000_000;
    let amount_in: i128 = 50_000;
    let out_30 = get_amount_out(amount_in, reserve_in, reserve_out, 30).unwrap();
    let out_100 = get_amount_out(amount_in, reserve_in, reserve_out, 100).unwrap();
    let out_500 = get_amount_out(amount_in, reserve_in, reserve_out, 500).unwrap();
    assert!(out_30 > out_100, "30 bps fee output ({}) > 100 bps fee output ({})", out_30, out_100);
    assert!(out_100 > out_500, "100 bps fee output ({}) > 500 bps fee output ({})", out_100, out_500);
}

#[test]
fn test_k_invariant_increases_with_fee() {
    let reserve_in: i128 = 2_000_000;
    let reserve_out: i128 = 2_000_000;
    let amount_in: i128 = 100_000;
    let amount_out = get_amount_out(amount_in, reserve_in, reserve_out, 30).unwrap();
    let (k_before, k_after) = k_after_swap(reserve_in, reserve_out, amount_in, amount_out);
    assert!(k_after >= k_before, "k must not decrease: k_before={}, k_after={}", k_before, k_after);
}

#[test]
fn test_k_invariant_equal_with_zero_fee() {
    let reserve_in: i128 = 1_000_000;
    let reserve_out: i128 = 1_000_000;
    let amount_in: i128 = 10_000;
    let amount_out = get_amount_out(amount_in, reserve_in, reserve_out, 0).unwrap();
    let (k_before, k_after) = k_after_swap(reserve_in, reserve_out, amount_in, amount_out);
    assert!(
        k_after >= k_before,
        "k must not decrease even with zero fee: k_before={}, k_after={}",
        k_before,
        k_after,
    );
}

#[test]
fn test_zero_amount_in_fails() {
    let result = get_amount_out(0, 1_000_000, 1_000_000, 30);
    assert_eq!(
        result,
        Err(PairError::InsufficientInputAmount),
        "zero amount_in must return InsufficientInputAmount"
    );
}

#[test]
fn test_negative_amount_in_fails() {
    let result = get_amount_out(-100, 1_000_000, 1_000_000, 30);
    assert_eq!(
        result,
        Err(PairError::InsufficientInputAmount),
        "negative amount_in must return InsufficientInputAmount"
    );
}

#[test]
fn test_empty_pool_reserve_in_zero() {
    let result = get_amount_out(1_000, 0, 1_000_000, 30);
    assert_eq!(result, Err(PairError::InsufficientLiquidity), "zero reserve_in must return InsufficientLiquidity");
}

#[test]
fn test_empty_pool_reserve_out_zero() {
    let result = get_amount_out(1_000, 1_000_000, 0, 30);
    assert_eq!(result, Err(PairError::InsufficientLiquidity), "zero reserve_out must return InsufficientLiquidity");
}

#[test]
fn test_overflow_large_reserves() {
    let huge: i128 = i128::MAX / 2;
    let result = get_amount_out(huge, huge, huge, 30);
    assert_eq!(result, Err(PairError::Overflow), "near-max reserves must return Overflow");
}

#[test]
fn test_overflow_large_amount_in() {
    let result = get_amount_out(i128::MAX, 1_000_000, 1_000_000, 30);
    assert_eq!(result, Err(PairError::Overflow), "i128::MAX amount_in must return Overflow");
}

#[test]
fn test_swap_symmetry_balanced_pool() {
    let reserve: i128 = 5_000_000;
    let amount_in: i128 = 50_000;
    let out_a_to_b = get_amount_out(amount_in, reserve, reserve, 30).unwrap();
    let out_b_to_a = get_amount_out(amount_in, reserve, reserve, 30).unwrap();
    assert_eq!(out_a_to_b, out_b_to_a, "balanced pool must produce symmetric outputs");
}

#[test]
fn test_large_swap_price_impact() {
    let reserve: i128 = 100_000_000_0000000;
    let amount_in: i128 = 10_000_000_0000000;
    let amount_out = get_amount_out(amount_in, reserve, reserve, 30).unwrap();
    let upper_bound = reserve * 907 / 10_000;
    assert!(
        amount_out < upper_bound,
        "large swap output ({}) must show significant price impact (< {})",
        amount_out,
        upper_bound,
    );
    assert!(amount_out > 0, "amount_out must be positive");
}

#[test]
fn test_tiny_swap_dust_amount() {
    let reserve: i128 = 1_000_000_000;
    let result = get_amount_out(1, reserve, reserve, 30);
    assert_eq!(result, Err(PairError::InsufficientOutputAmount), "dust swap that rounds to zero output must fail");
}

#[test]
fn amount_out_exact_value() {
    // 10_000 * 9_970 * 1_000_000 / (1_000_000 * 10_000 + 10_000 * 9_970) = 9_871
    assert_eq!(get_amount_out(10_000, 1_000_000, 1_000_000, 30), Ok(9_871));
}

#[test]
fn k_after_swap_exact_values() {
    assert_eq!(k_after_swap(100, 200, 10, 20), (20_000, 19_800));
}
