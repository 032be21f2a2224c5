//! Volatility-driven swap fee: a size-weighted EMA of price moves, the fee it
//! implies, and the decay of a stale accumulator.
use vstd::prelude::*;

use crate::errors::PairError;
use crate::fee_decay::{apply_time_decay, decay_spec};
use crate::math::{div_trunc, fits_i128, SCALE};

verus! {

/// Fixed-point scale divided by the basis-point denominator: one basis point
/// of fee per this much of `vol_accumulator * ramp_up_multiplier`.
pub const VOL_PER_BPS: i128 = 10_000_000_000;

/// Baseline fee used when no fee configuration exists yet.
pub const DEFAULT_FEE_BPS: u32 = 30;
/// Lower fee bound of the default configuration.
pub const DEFAULT_MIN_FEE_BPS: u32 = 5;
/// Upper fee bound of the default configuration.
pub const DEFAULT_MAX_FEE_BPS: u32 = 100;
/// Volatility multiplier of the default configuration.
pub const DEFAULT_RAMP_UP_MULTIPLIER: u32 = 2;
/// Decay divisor of the default configuration.
pub const DEFAULT_COOLDOWN_DIVISOR: u32 = 2;
/// Idle-period length of the default configuration.
pub const DEFAULT_DECAY_THRESHOLD_BLOCKS: u64 = 100;
/// EMA weight of the default configuration (10% of `SCALE`).
pub const DEFAULT_EMA_ALPHA: i128 = 10_000_000_000_000;

/// Per-pair dynamic fee configuration and volatility state.
#[derive(Clone, Copy, Debug, PartialEq, Eq, Structural)]
pub struct FeeState {
    /// EMA of size-weighted absolute price change, scaled by `SCALE`.
    pub vol_accumulator: i128,
    /// Weight of a new observation, as a fraction of `SCALE`.
    pub ema_alpha: i128,
    pub baseline_fee_bps: u32,
    pub min_fee_bps: u32,
    pub max_fee_bps: u32,
    /// Scales volatility into a fee contribution.
    pub ramp_up_multiplier: u32,
    /// Divisor applied to the accumulator once per idle period.
    pub cooldown_divisor: u32,
    /// Sequence number of the last volatility update or decay.
    pub last_fee_update: u64,
    /// Length of an idle period, in sequence numbers.
    pub decay_threshold_blocks: u64,
}

/// The default configuration, with no volatility, as of `current_sequence`.
pub open spec fn default_fee_state_spec(current_sequence: u64) -> FeeState {
    FeeState {
        vol_accumulator: 0,
        ema_alpha: DEFAULT_EMA_ALPHA,
        baseline_fee_bps: DEFAULT_FEE_BPS,
        min_fee_bps: DEFAULT_MIN_FEE_BPS,
        max_fee_bps: DEFAULT_MAX_FEE_BPS,
        ramp_up_multiplier: DEFAULT_RAMP_UP_MULTIPLIER,
        cooldown_divisor: DEFAULT_COOLDOWN_DIVISOR,
        last_fee_update: current_sequence,
        decay_threshold_blocks: DEFAULT_DECAY_THRESHOLD_BLOCKS,
    }
}

impl FeeState {
    /// The configuration an engine starts from when none was stored.
    pub fn new_default(current_sequence: u64) -> (r: FeeState)
        ensures
            r == default_fee_state_spec(current_sequence),
            r.wf(),
    {
        FeeState {
            vol_accumulator: 0,
            ema_alpha: DEFAULT_EMA_ALPHA,
            baseline_fee_bps: DEFAULT_FEE_BPS,
            min_fee_bps: DEFAULT_MIN_FEE_BPS,
            max_fee_bps: DEFAULT_MAX_FEE_BPS,
            ramp_up_multiplier: DEFAULT_RAMP_UP_MULTIPLIER,
            cooldown_divisor: DEFAULT_COOLDOWN_DIVISOR,
            last_fee_update: current_sequence,
            decay_threshold_blocks: DEFAULT_DECAY_THRESHOLD_BLOCKS,
        }
    }

    /// A sound configuration: weight within the scale, ordered bounds,
    /// a decaying divisor and a non-negative accumulator.
    pub open spec fn wf(self) -> bool {
        &&& 0 <= self.ema_alpha <= SCALE
        &&& self.min_fee_bps <= self.baseline_fee_bps <= self.max_fee_bps
        &&& self.cooldown_divisor >= 2
        &&& self.vol_accumulator >= 0
    }
}

/// Size-weighted observation: `price_delta_abs * (trade_size * SCALE / total_reserve) / SCALE`,
/// or nothing when a product leaves the `i128` range.
pub open spec fn observation_spec(price_delta_abs: int, trade_size: int, total_reserve: int) -> Option<int> {
    let w = trade_size * (SCALE as int);
    if !fits_i128(w) {
        None
    } else {
        let weight = w / total_reserve;
        let o = price_delta_abs * weight;
        if !fits_i128(o) {
            None
        } else {
            Some(o / (SCALE as int))
        }
    }
}

/// The accumulator after blending in `observation`, or nothing on overflow.
pub open spec fn ema_blend_spec(alpha: int, old_accum: int, observation: int) -> Option<int> {
    let alpha_term = alpha * observation;
    let complement = (SCALE as int) - alpha;
    let prev_term = complement * old_accum;
    if !fits_i128(alpha_term) || !fits_i128(complement) || !fits_i128(prev_term) || !fits_i128(
        alpha_term + prev_term,
    ) {
        None
    } else {
        Some(div_trunc(alpha_term + prev_term, SCALE as int))
    }
}

/// The new accumulator for one volatility update, or nothing on overflow.
pub open spec fn volatility_spec(fs: FeeState, price_delta_abs: int, trade_size: int, total_reserve: int) -> Option<int> {
    match observation_spec(price_delta_abs, trade_size, total_reserve) {
        None => None,
        Some(obs) => ema_blend_spec(fs.ema_alpha as int, fs.vol_accumulator as int, obs),
    }
}

/// Whether the inputs of a volatility update are acceptable.
pub open spec fn volatility_inputs_valid(price_delta_abs: int, trade_size: int, total_reserve: int) -> bool {
    price_delta_abs >= 0 && trade_size > 0 && total_reserve > 0
}

/// Blends a new size-weighted price observation into the volatility EMA and
/// records `current_sequence` as the time of the update.
///
/// Negative `price_delta_abs`, or non-positive `trade_size` or
/// `total_reserve`, give `InvalidInput`; an overflowing step gives `Overflow`.
/// On failure the state is left as it was.
pub fn update_volatility(
    fee_state: &mut FeeState,
    price_delta_abs: i128,
    trade_size: i128,
    total_reserve: i128,
    current_sequence: u64,
) -> (r: Result<(), PairError>)
    ensures
        !volatility_inputs_valid(price_delta_abs as int, trade_size as int, total_reserve as int)
            ==> r == Err::<(), PairError>(PairError::InvalidInput) && *final(fee_state) == *old(fee_state),
        volatility_inputs_valid(price_delta_abs as int, trade_size as int, total_reserve as int)
            ==> match volatility_spec(*old(fee_state), price_delta_abs as int, trade_size as int, total_reserve as int) {
            None => r == Err::<(), PairError>(PairError::Overflow) && *final(fee_state) == *old(fee_state),
            Some(v) => r == Ok::<(), PairError>(()) && *final(fee_state) == (FeeState {
                vol_accumulator: v as i128,
                last_fee_update: current_sequence,
                ..*old(fee_state)
            }),
        },
{
    if price_delta_abs < 0 || trade_size <= 0 || total_reserve <= 0 {
        return Err(PairError::InvalidInput);
    }
    let w = match trade_size.checked_mul(SCALE) {
        Some(w) => w,
        None => return Err(PairError::Overflow),
    };
    let weight = w / total_reserve;
    let o = match price_delta_abs.checked_mul(weight) {
        Some(o) => o,
        None => return Err(PairError::Overflow),
    };
    let observation = o / SCALE;
    let alpha_term = match fee_state.ema_alpha.checked_mul(observation) {
        Some(t) => t,
        None => return Err(PairError::Overflow),
    };
    let complement = match SCALE.checked_sub(fee_state.ema_alpha) {
        Some(c) => c,
        None => return Err(PairError::Overflow),
    };
    let prev_term = match complement.checked_mul(fee_state.vol_accumulator) {
        Some(t) => t,
        None => return Err(PairError::Overflow),
    };
    let sum = match alpha_term.checked_add(prev_term) {
        Some(s) => s,
        None => return Err(PairError::Overflow),
    };
    fee_state.vol_accumulator = sum / SCALE;
    fee_state.last_fee_update = current_sequence;
    Ok(())
}

/// The fee in basis points: `baseline + vol * ramp_up / VOL_PER_BPS`
/// (a non-positive accumulator adds nothing), raised to `min_fee_bps` and
/// then capped at `max_fee_bps`.
pub open spec fn fee_bps_spec(fs: FeeState) -> int {
    let adjustment = if fs.vol_accumulator > 0 {
        (fs.vol_accumulator * fs.ramp_up_multiplier) / (VOL_PER_BPS as int)
    } else {
        0
    };
    let raw = fs.baseline_fee_bps + adjustment;
    let floored = if raw < fs.min_fee_bps { fs.min_fee_bps as int } else { raw };
    if floored > fs.max_fee_bps { fs.max_fee_bps as int } else { floored }
}

/// The current fee in basis points implied by the volatility accumulator.
/// Saturates: an accumulator too large to scale yields `max_fee_bps`.
pub fn compute_fee_bps(fee_state: &FeeState) -> (r: u32)
    ensures
        r as int == fee_bps_spec(*fee_state),
{
    let vol = fee_state.vol_accumulator;
    let adjustment: i128 = if vol > 0 {
        match vol.checked_mul(fee_state.ramp_up_multiplier as i128) {
            Some(p) => p / VOL_PER_BPS,
            None => {
                proof {
                    let p = vol * fee_state.ramp_up_multiplier;
                    assert(p > i128::MAX);
                    assert(p / (VOL_PER_BPS as int) >= u32::MAX as int);
                }
                return fee_state.max_fee_bps;
            },
        }
    } else {
        0
    };
    let raw: i128 = fee_state.baseline_fee_bps as i128 + adjustment;
    let min = fee_state.min_fee_bps as i128;
    let max = fee_state.max_fee_bps as i128;
    let floored = if raw < min { min } else { raw };
    let fee = if floored > max { max } else { floored };
    fee as u32
}

/// Decays the accumulator when more than one idle period has passed since
/// the last update; otherwise changes nothing.
pub fn decay_stale_ema(fee_state: &mut FeeState, current_sequence: u64)
    ensures
        *final(fee_state) == decay_spec(*old(fee_state), current_sequence),
{
    if current_sequence > fee_state.last_fee_update && current_sequence - fee_state.last_fee_update
        > fee_state.decay_threshold_blocks {
        apply_time_decay(fee_state, current_sequence);
    }
}

/// The fee never decreases as the accumulator grows, all else being equal.
pub proof fn lemma_fee_monotone(fs1: FeeState, fs2: FeeState)
    requires
        fs2 == (FeeState { vol_accumulator: fs2.vol_accumulator, ..fs1 }),
        fs1.vol_accumulator < fs2.vol_accumulator,
    ensures
        fee_bps_spec(fs1) <= fee_bps_spec(fs2),
{
    let r = fs1.ramp_up_multiplier as int;
    let v1 = fs1.vol_accumulator as int;
    let v2 = fs2.vol_accumulator as int;
    let d = VOL_PER_BPS as int;
    if v1 > 0 {
        assert(v1 * r <= v2 * r) by (nonlinear_arith)
            requires v1 < v2, r >= 0;
        assert((v1 * r) / d <= (v2 * r) / d) by (nonlinear_arith)
            requires v1 * r <= v2 * r, d > 0;
    }
    if v2 > 0 {
        assert(v2 * r >= 0) by (nonlinear_arith)
            requires v2 > 0, r >= 0;
        assert((v2 * r) / d >= 0) by (nonlinear_arith)
            requires v2 * r >= 0, d > 0;
    }
}

/// With ordered bounds, the fee always lies within them.
pub proof fn lemma_fee_within_bounds(fs: FeeState)
    requires
        fs.min_fee_bps <= fs.max_fee_bps,
    ensures
        fs.min_fee_bps <= fee_bps_spec(fs) <= fs.max_fee_bps,
{
}

/// For the same price move and pool size, a larger trade never moves a
/// non-negative accumulator less than a smaller one, and moves it strictly further once the
/// weighted difference of the two observations reaches one scaled unit.
pub proof fn lemma_larger_trade_weighs_more(
    fs: FeeState,
    price_delta_abs: int,
    small_trade: int,
    large_trade: int,
    total_reserve: int,
)
    requires
        0 <= fs.ema_alpha <= SCALE,
        fs.vol_accumulator >= 0,
        price_delta_abs >= 0,
        0 < small_trade < large_trade,
        total_reserve > 0,
        volatility_spec(fs, price_delta_abs, small_trade, total_reserve) is Some,
        volatility_spec(fs, price_delta_abs, large_trade, total_reserve) is Some,
    ensures
        observation_spec(price_delta_abs, small_trade, total_reserve)->0
            <= observation_spec(price_delta_abs, large_trade, total_reserve)->0,
        volatility_spec(fs, price_delta_abs, small_trade, total_reserve)->0
            <= volatility_spec(fs, price_delta_abs, large_trade, total_reserve)->0,
        fs.ema_alpha * (observation_spec(price_delta_abs, large_trade, total_reserve)->0
            - observation_spec(price_delta_abs, small_trade, total_reserve)->0) >= SCALE
            ==> volatility_spec(fs, price_delta_abs, small_trade, total_reserve)->0
            < volatility_spec(fs, price_delta_abs, large_trade, total_reserve)->0,
{
    let s = SCALE as int;
    let pd = price_delta_abs;
    let tr = total_reserve;
    let w1 = small_trade * s;
    let w2 = large_trade * s;
    assert(0 <= w1 <= w2) by (nonlinear_arith)
        requires 0 < small_trade < large_trade, s > 0, w1 == small_trade * s, w2 == large_trade * s;
    let g1 = w1 / tr;
    let g2 = w2 / tr;
    assert(0 <= g1 <= g2) by (nonlinear_arith)
        requires 0 <= w1 <= w2, tr > 0, g1 == w1 / tr, g2 == w2 / tr;
    let o1 = pd * g1;
    let o2 = pd * g2;
    assert(0 <= o1 <= o2) by (nonlinear_arith)
        requires 0 <= g1 <= g2, pd >= 0, o1 == pd * g1, o2 == pd * g2;
    let b1 = o1 / s;
    let b2 = o2 / s;
    assert(0 <= b1 <= b2) by (nonlinear_arith)
        requires 0 <= o1 <= o2, s > 0, b1 == o1 / s, b2 == o2 / s;
    assert(observation_spec(pd, small_trade, tr) == Some(b1));
    assert(observation_spec(pd, large_trade, tr) == Some(b2));
    let a = fs.ema_alpha as int;
    let v = fs.vol_accumulator as int;
    let t1 = a * b1;
    let t2 = a * b2;
    assert(0 <= t1 <= t2) by (nonlinear_arith)
        requires 0 <= b1 <= b2, a >= 0, t1 == a * b1, t2 == a * b2;
    let p = (s - a) * v;
    assert(p >= 0) by (nonlinear_arith)
        requires s - a >= 0, v >= 0, p == (s - a) * v;
    let n1 = t1 + p;
    let n2 = t2 + p;
    assert(n1 / s <= n2 / s) by (nonlinear_arith)
        requires 0 <= n1 <= n2, s > 0;
    if a * (b2 - b1) >= s {
        assert(t2 - t1 == a * (b2 - b1)) by (nonlinear_arith)
            requires t1 == a * b1, t2 == a * b2;
        assert(n1 / s < n2 / s) by (nonlinear_arith)
            requires 0 <= n1, n2 - n1 >= s, s > 0;
    }
}

} // verus!
