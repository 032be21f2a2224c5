//! The pair's operations, run against a host that supplies the ledger clock,
//! token custody, the share token and the flash-loan receiver.
use vstd::prelude::*;

use crate::dynamic_fee::{compute_fee_bps, decay_stale_ema, default_fee_state_spec, FeeState, DEFAULT_FEE_BPS};
use crate::fee_decay::decay_spec;
use crate::errors::PairError;
use crate::events::PairEvents;
use crate::flash_loan::{compute_flash_fee, flash_fee_spec, side_fee, FLASH_FEE_FLOOR_BPS, MAX_PAYLOAD_SIZE};
use crate::math::{fits_i128, MINIMUM_LIQUIDITY};
use crate::reentrancy::{acquire, release};
use crate::settlement::{
    burn_settle_spec, flash_settle_spec, mint_settle_spec, settle_burn, settle_flash_loan, settle_mint, settle_swap,
    swap_settle_spec, sync_reserves, synced_spec,
};
use crate::storage::{Address, Pair, PairStorage};

verus! {

/// What the pair needs from its environment. Every call may return anything:
/// the pair's contracts hold whatever the host does.
pub trait PairHost {
    /// The pair's own identity.
    fn current_address(&self) -> Address;

    /// Ledger time, in seconds.
    fn timestamp(&self) -> u64;

    /// Ledger sequence number.
    fn sequence(&self) -> u64;

    /// Balance of `token` held by the pair.
    fn token_balance(&self, token: Address) -> i128;

    /// Moves `amount` of `token` from the pair to `to`.
    fn token_transfer(&mut self, token: Address, to: Address, amount: i128);

    /// Total supply of the share token.
    fn share_total_supply(&self, share_token: Address) -> i128;

    /// Issues `amount` new shares to `to`.
    fn share_mint(&mut self, share_token: Address, to: Address, amount: i128);

    /// Issues `amount` new shares to a holder that can never move them.
    fn share_lock(&mut self, share_token: Address, amount: i128);

    /// Destroys `amount` shares held by the pair.
    fn share_burn(&mut self, share_token: Address, amount: i128);

    /// Runs the receiver's flash-loan callback, which may call back into
    /// `pair`; the pair is locked for the whole callback.
    fn flash_callback(
        &mut self,
        pair: &mut Pair,
        receiver: Address,
        initiator: Address,
        token_a: Address,
        token_b: Address,
        amount_a: i128,
        amount_b: i128,
        fee_a: i128,
        fee_b: i128,
        data: &Vec<u8>,
    )
        requires
            old(pair).guard.locked,
    ;

    /// Publishes a notification.
    fn publish(&mut self, event: PairEvents);
}

/// The fee rate a flash loan is priced at: the configured baseline, or the
/// floor when no fee configuration exists.
pub open spec fn flash_pool_fee_spec(p: Pair) -> int {
    match p.fee_state {
        Some(fs) => fs.baseline_fee_bps as int,
        None => FLASH_FEE_FLOOR_BPS as int,
    }
}

/// The fee state a swap starts from: the stored one, or the default.
pub open spec fn starting_fee_state(fee_state: Option<FeeState>, current_sequence: u64) -> FeeState {
    match fee_state {
        Some(fs) => fs,
        None => default_fee_state_spec(current_sequence),
    }
}

/// The pair and fee state a swap stores, for the sequence number, balances
/// and time that the host reported.
pub open spec fn swap_outcome(
    st: PairStorage,
    fee_state: Option<FeeState>,
    amount_a_out: int,
    amount_b_out: int,
    current_sequence: u64,
    balance_a: int,
    balance_b: int,
    now: u64,
) -> Result<(PairStorage, FeeState), PairError> {
    match swap_settle_spec(
        st,
        decay_spec(starting_fee_state(fee_state, current_sequence), current_sequence),
        amount_a_out,
        amount_b_out,
        balance_a,
        balance_b,
        current_sequence,
        now,
    ) {
        Ok(t) => Ok((t.0, t.1)),
        Err(e) => Err(e),
    }
}

/// The pair state a flash loan stores, for the balances and time that the
/// host reported after the callback.
pub open spec fn flash_outcome(
    st: PairStorage,
    amount_a: int,
    amount_b: int,
    fee_bps: int,
    balance_a: int,
    balance_b: int,
    now: u64,
) -> Result<PairStorage, PairError> {
    flash_settle_spec(st, amount_a, amount_b, side_fee(amount_a, fee_bps), side_fee(amount_b, fee_bps), balance_a, balance_b, now)
}

/// The pair state and shares of a deposit, for the balances, supply and time
/// that the host reported.
pub open spec fn mint_outcome(st: PairStorage, balance_a: int, balance_b: int, total_supply: int, now: u64) -> Result<(PairStorage, int), PairError> {
    match mint_settle_spec(st, balance_a, balance_b, total_supply, now) {
        Ok(t) => Ok((t.0, t.1)),
        Err(e) => Err(e),
    }
}

/// Product of the reserves of an initialized pair.
pub open spec fn reserve_product(p: Pair) -> int {
    p.state->Some_0.reserve_a * p.state->Some_0.reserve_b
}

/// Whether a flash-loan request passes every check made before the host is
/// first called: a small payload, non-negative amounts not both zero, an
/// initialized pair holding the amounts, a representable reserve product, and
/// no other swap or flash loan in progress.
pub open spec fn flash_request_admitted(before: Pair, amount_a: i128, amount_b: i128, payload_len: int) -> bool {
    &&& payload_len <= MAX_PAYLOAD_SIZE
    &&& amount_a >= 0 && amount_b >= 0 && (amount_a > 0 || amount_b > 0)
    &&& before.state is Some
    &&& amount_a <= before.state->Some_0.reserve_a && amount_b <= before.state->Some_0.reserve_b
    &&& fits_i128(reserve_product(before))
    &&& !before.guard.locked
}

/// Whether a swap request passes every check made before the host is first
/// called: some positive output, an initialized pair whose reserves exceed
/// both outputs, and no other swap or flash loan in progress.
pub open spec fn swap_request_admitted(before: Pair, amount_a_out: i128, amount_b_out: i128) -> bool {
    &&& !before.guard.locked
    &&& !(amount_a_out <= 0 && amount_b_out <= 0)
    &&& before.state is Some
    &&& amount_a_out < before.state->Some_0.reserve_a && amount_b_out < before.state->Some_0.reserve_b
}

/// What a flash loan guarantees of the store it ran on (`before`, then
/// `after`) and its result, for a payload of `payload_len` bytes.
pub open spec fn flash_loan_post(
    before: Pair,
    after: Pair,
    r: Result<(), PairError>,
    amount_a: i128,
    amount_b: i128,
    payload_len: int,
) -> bool {
    let valid_request = payload_len <= MAX_PAYLOAD_SIZE && amount_a >= 0 && amount_b >= 0 && (amount_a > 0
        || amount_b > 0);
    &&& r is Err ==> after == before
    &&& payload_len > MAX_PAYLOAD_SIZE ==> r == Err::<(), PairError>(PairError::FlashPayloadTooLarge)
    &&& payload_len <= MAX_PAYLOAD_SIZE && (amount_a < 0 || amount_b < 0 || (amount_a == 0 && amount_b == 0))
        ==> r == Err::<(), PairError>(PairError::InsufficientInputAmount)
    &&& valid_request && before.state is None ==> r == Err::<(), PairError>(PairError::NotInitialized)
    &&& valid_request && before.state is Some && (amount_a > before.state->Some_0.reserve_a || amount_b
        > before.state->Some_0.reserve_b) ==> r == Err::<(), PairError>(PairError::InsufficientLiquidity)
    &&& valid_request && before.state is Some && amount_a <= before.state->Some_0.reserve_a && amount_b
        <= before.state->Some_0.reserve_b && !fits_i128(reserve_product(before)) ==> r == Err::<(), PairError>(
        PairError::Overflow,
    )
    &&& valid_request && before.state is Some && amount_a <= before.state->Some_0.reserve_a && amount_b
        <= before.state->Some_0.reserve_b && fits_i128(reserve_product(before)) && before.guard.locked ==> r
        == Err::<(), PairError>(PairError::Locked)
    &&& r == Err::<(), PairError>(PairError::Locked) ==> before.guard.locked
    &&& flash_request_admitted(before, amount_a, amount_b, payload_len) && r is Err ==> exists|
        balance_a: int,
        balance_b: int,
        now: u64,
    |
        #[trigger] flash_outcome(
            before.state->Some_0,
            amount_a as int,
            amount_b as int,
            flash_pool_fee_spec(before),
            balance_a,
            balance_b,
            now,
        ) == Err::<PairStorage, PairError>(r->Err_0)
    &&& r is Ok ==> before.state is Some && after.state is Some && after.fee_state == before.fee_state
        && !after.guard.locked && reserve_product(after) >= reserve_product(before)
    &&& r is Ok ==> after == (Pair { state: after.state, ..before })
    &&& r is Ok ==> exists|balance_a: int, balance_b: int, now: u64|
        #[trigger] flash_outcome(
            before.state->Some_0,
            amount_a as int,
            amount_b as int,
            flash_pool_fee_spec(before),
            balance_a,
            balance_b,
            now,
        ) == Ok::<PairStorage, PairError>(after.state->Some_0)
    &&& r is Ok && amount_a > 0 ==> after.state->Some_0.reserve_a >= before.state->Some_0.reserve_a
        + flash_fee_spec(amount_a as int, flash_pool_fee_spec(before))
    &&& r is Ok && amount_b > 0 ==> after.state->Some_0.reserve_b >= before.state->Some_0.reserve_b
        + flash_fee_spec(amount_b as int, flash_pool_fee_spec(before))
    &&& r is Ok && before.state->Some_0.wf() ==> after.state->Some_0.wf()
}

/// A successful flash loan leaves a store fixed by the store before it and
/// the balances and time the host reported after the callback. Whatever the
/// callback attempted in between (a swap or flash loan on the same pair is
/// rejected with `Locked`, since the store is locked during the callback)
/// leaves no other trace: two runs that saw the same balances and time end
/// in the same store.
pub proof fn lemma_flash_loan_ignores_callback(
    before: Pair,
    after_1: Pair,
    after_2: Pair,
    amount_a: i128,
    amount_b: i128,
    payload_len: int,
    balance_a: int,
    balance_b: int,
    now: u64,
)
    requires
        flash_loan_post(before, after_1, Ok(()), amount_a, amount_b, payload_len),
        flash_loan_post(before, after_2, Ok(()), amount_a, amount_b, payload_len),
        flash_outcome(before.state->Some_0, amount_a as int, amount_b as int, flash_pool_fee_spec(before), balance_a, balance_b, now)
            == Ok::<PairStorage, PairError>(after_1.state->Some_0),
        flash_outcome(before.state->Some_0, amount_a as int, amount_b as int, flash_pool_fee_spec(before), balance_a, balance_b, now)
            == Ok::<PairStorage, PairError>(after_2.state->Some_0),
    ensures
        after_1 == after_2,
        !after_1.guard.locked,
        after_1.fee_state == before.fee_state,
{
}

impl Pair {
    /// Records the pair's tokens and the host's current time, with zero
    /// reserves, accumulators and invariant.
    pub fn initialize<H: PairHost>(
        &mut self,
        host: &H,
        factory: Address,
        token_a: Address,
        token_b: Address,
        lp_token: Address,
    ) -> (r: Result<(), PairError>)
        ensures
            old(self).state is Some ==> r == Err::<(), PairError>(PairError::AlreadyInitialized)
                && *final(self) == *old(self),
            old(self).state is None ==> r is Ok && final(self).fee_state == old(self).fee_state
                && final(self).guard == old(self).guard && final(self).state is Some && ({
                let s = final(self).state->Some_0;
                &&& s.wf()
                &&& s == (PairStorage {
                    factory,
                    token_a,
                    token_b,
                    lp_token,
                    reserve_a: 0,
                    reserve_b: 0,
                    block_timestamp_last: s.block_timestamp_last,
                    price_a_cumulative: 0,
                    price_b_cumulative: 0,
                    k_last: 0,
                })
            }),
    {
        if self.state.is_some() {
            return Err(PairError::AlreadyInitialized);
        }
        let now = host.timestamp();
        self.state = Some(PairStorage {
            factory,
            token_a,
            token_b,
            lp_token,
            reserve_a: 0,
            reserve_b: 0,
            block_timestamp_last: now,
            price_a_cumulative: 0,
            price_b_cumulative: 0,
            k_last: 0,
        });
        Ok(())
    }

    /// Issues shares for the tokens deposited since the last synchronisation
    /// and adopts the new balances as reserves. The stored state and the
    /// shares are the deposit settlement of the balances, supply and time the
    /// host reported.
    pub fn mint<H: PairHost>(&mut self, host: &mut H, to: Address) -> (r: Result<i128, PairError>)
        ensures
            r is Err ==> *final(self) == *old(self),
            old(self).state is None ==> r == Err::<i128, PairError>(PairError::NotInitialized)
                && *final(host) == *old(host),
            old(self).state is Some && r is Err ==> exists|balance_a: int, balance_b: int, total_supply: int, now: u64|
                #[trigger] mint_outcome(old(self).state->Some_0, balance_a, balance_b, total_supply, now) == Err::<
                    (PairStorage, int),
                    PairError,
                >(r->Err_0),
            r is Ok ==> r->Ok_0 > 0 && final(self).state is Some && final(self).fee_state == old(self).fee_state
                && final(self).guard == old(self).guard,
            r is Ok ==> exists|balance_a: int, balance_b: int, total_supply: int, now: u64|
                #[trigger] mint_outcome(old(self).state->Some_0, balance_a, balance_b, total_supply, now) == Ok::<
                    (PairStorage, int),
                    PairError,
                >((final(self).state->Some_0, r->Ok_0 as int)),
            r is Ok && old(self).state->Some_0.wf() ==> final(self).state->Some_0.wf(),
    {
        let st = match self.state {
            Some(s) => s,
            None => return Err(PairError::NotInitialized),
        };
        let balance_a = host.token_balance(st.token_a);
        let balance_b = host.token_balance(st.token_b);
        let total_supply = host.share_total_supply(st.lp_token);
        let now = host.timestamp();
        let (next, liquidity, amount_a, amount_b) = match settle_mint(&st, balance_a, balance_b, total_supply, now) {
            Ok(t) => t,
            Err(e) => {
                assert(mint_outcome(st, balance_a as int, balance_b as int, total_supply as int, now) == Err::<
                    (PairStorage, int),
                    PairError,
                >(e));
                return Err(e);
            },
        };
        assert(mint_outcome(st, balance_a as int, balance_b as int, total_supply as int, now) == Ok::<
            (PairStorage, int),
            PairError,
        >((next, liquidity as int)));
        if total_supply == 0 {
            host.share_lock(st.lp_token, MINIMUM_LIQUIDITY);
        }
        host.share_mint(st.lp_token, to, liquidity);
        self.state = Some(next);
        host.publish(PairEvents::Mint { sender: to, amount_a, amount_b });
        Ok(liquidity)
    }

    /// Redeems the shares the pair holds for a proportional part of both
    /// reserves, paid to `to`. The stored state and the amounts are the
    /// redemption settlement of the share balance, supply and time the host
    /// reported.
    pub fn burn<H: PairHost>(&mut self, host: &mut H, to: Address) -> (r: Result<(i128, i128), PairError>)
        ensures
            r is Err ==> *final(self) == *old(self),
            old(self).state is None ==> r == Err::<(i128, i128), PairError>(PairError::NotInitialized)
                && *final(host) == *old(host),
            old(self).state is Some && r is Err ==> exists|share_balance: int, total_supply: int, now: u64|
                #[trigger] burn_settle_spec(old(self).state->Some_0, share_balance, total_supply, now) == Err::<
                    (PairStorage, int, int),
                    PairError,
                >(r->Err_0),
            r is Ok ==> final(self).state is Some && final(self).fee_state == old(self).fee_state
                && final(self).guard == old(self).guard
                && r->Ok_0.0 > 0 && r->Ok_0.1 > 0
                && final(self).state->Some_0.reserve_a == old(self).state->Some_0.reserve_a - r->Ok_0.0
                && final(self).state->Some_0.reserve_b == old(self).state->Some_0.reserve_b - r->Ok_0.1,
            r is Ok ==> exists|share_balance: int, total_supply: int, now: u64|
                #[trigger] burn_settle_spec(old(self).state->Some_0, share_balance, total_supply, now) == Ok::<
                    (PairStorage, int, int),
                    PairError,
                >((final(self).state->Some_0, r->Ok_0.0 as int, r->Ok_0.1 as int)),
            r is Ok && old(self).state->Some_0.wf() ==> final(self).state->Some_0.wf(),
    {
        let st = match self.state {
            Some(s) => s,
            None => return Err(PairError::NotInitialized),
        };
        let share_balance = host.token_balance(st.lp_token);
        let total_supply = host.share_total_supply(st.lp_token);
        let now = host.timestamp();
        let (next, amount_a, amount_b) = match settle_burn(&st, share_balance, total_supply, now) {
            Ok(t) => t,
            Err(e) => {
                assert(burn_settle_spec(st, share_balance as int, total_supply as int, now) == Err::<
                    (PairStorage, int, int),
                    PairError,
                >(e));
                return Err(e);
            },
        };
        assert(burn_settle_spec(st, share_balance as int, total_supply as int, now) == Ok::<
            (PairStorage, int, int),
            PairError,
        >((next, amount_a as int, amount_b as int)));
        host.share_burn(st.lp_token, share_balance);
        host.token_transfer(st.token_a, to, amount_a);
        host.token_transfer(st.token_b, to, amount_b);
        self.state = Some(next);
        host.publish(PairEvents::Burn { sender: to, amount_a, amount_b, to });
        Ok((amount_a, amount_b))
    }

    /// Adopts the pair's current token balances as its reserves, advancing
    /// the price oracle.
    pub fn sync<H: PairHost>(&mut self, host: &mut H) -> (r: Result<(), PairError>)
        ensures
            r is Err ==> *final(self) == *old(self),
            old(self).state is None ==> r == Err::<(), PairError>(PairError::NotInitialized)
                && *final(host) == *old(host),
            old(self).state is Some && r is Err ==> exists|balance_a: int, balance_b: int, now: u64|
                #[trigger] synced_spec(old(self).state->Some_0, balance_a, balance_b, now) == Err::<PairStorage, PairError>(
                    r->Err_0,
                ),
            r is Ok ==> final(self).state is Some && final(self).fee_state == old(self).fee_state
                && final(self).guard == old(self).guard,
            r is Ok ==> exists|balance_a: int, balance_b: int, now: u64|
                #[trigger] synced_spec(old(self).state->Some_0, balance_a, balance_b, now) == Ok::<PairStorage, PairError>(
                    final(self).state->Some_0,
                ),
            r is Ok && old(self).state->Some_0.wf() ==> final(self).state->Some_0.wf(),
    {
        let st = match self.state {
            Some(s) => s,
            None => return Err(PairError::NotInitialized),
        };
        let balance_a = host.token_balance(st.token_a);
        let balance_b = host.token_balance(st.token_b);
        let now = host.timestamp();
        let next = match sync_reserves(&st, balance_a, balance_b, now) {
            Ok(s) => s,
            Err(e) => {
                assert(synced_spec(st, balance_a as int, balance_b as int, now) == Err::<PairStorage, PairError>(e));
                return Err(e);
            },
        };
        assert(synced_spec(st, balance_a as int, balance_b as int, now) == Ok::<PairStorage, PairError>(next));
        self.state = Some(next);
        host.publish(PairEvents::Sync { reserve_a: balance_a, reserve_b: balance_b });
        Ok(())
    }

    /// Swap settlement after the lock is taken: validates the request, prices
    /// it with the decayed dynamic fee, pays the outputs to `to`, settles on
    /// the balances that result, and returns the new pair state, fee state
    /// and notification without storing them.
    fn swap_locked<H: PairHost>(
        state: Option<PairStorage>,
        fee_state: Option<FeeState>,
        host: &mut H,
        amount_a_out: i128,
        amount_b_out: i128,
        to: Address,
    ) -> (r: Result<(PairStorage, FeeState, PairEvents), PairError>)
        ensures
            amount_a_out <= 0 && amount_b_out <= 0 ==> r == Err::<(PairStorage, FeeState, PairEvents), PairError>(
                PairError::InsufficientOutputAmount,
            ),
            !(amount_a_out <= 0 && amount_b_out <= 0) && state is None ==> r == Err::<
                (PairStorage, FeeState, PairEvents),
                PairError,
            >(PairError::NotInitialized),
            !(amount_a_out <= 0 && amount_b_out <= 0) && state is Some && (amount_a_out >= state->Some_0.reserve_a
                || amount_b_out >= state->Some_0.reserve_b) ==> r == Err::<
                (PairStorage, FeeState, PairEvents),
                PairError,
            >(PairError::InsufficientLiquidity),
            !(!(amount_a_out <= 0 && amount_b_out <= 0) && state is Some && amount_a_out < state->Some_0.reserve_a
                && amount_b_out < state->Some_0.reserve_b) ==> r is Err && *final(host) == *old(host),
            !(amount_a_out <= 0 && amount_b_out <= 0) && state is Some && amount_a_out < state->Some_0.reserve_a
                && amount_b_out < state->Some_0.reserve_b && r is Err ==> exists|
                current_sequence: u64,
                balance_a: int,
                balance_b: int,
                now: u64,
            |
                #[trigger] swap_outcome(
                    state->Some_0,
                    fee_state,
                    amount_a_out as int,
                    amount_b_out as int,
                    current_sequence,
                    balance_a,
                    balance_b,
                    now,
                ) == Err::<(PairStorage, FeeState), PairError>(r->Err_0),
            r is Ok ==> state is Some && r->Ok_0.0.reserve_a * r->Ok_0.0.reserve_b >= state->Some_0.reserve_a
                * state->Some_0.reserve_b,
            r is Ok ==> exists|current_sequence: u64, balance_a: int, balance_b: int, now: u64|
                #[trigger] swap_outcome(
                    state->Some_0,
                    fee_state,
                    amount_a_out as int,
                    amount_b_out as int,
                    current_sequence,
                    balance_a,
                    balance_b,
                    now,
                ) == Ok::<(PairStorage, FeeState), PairError>((r->Ok_0.0, r->Ok_0.1)),
            r is Ok && state->Some_0.wf() ==> r->Ok_0.0.wf(),
    {
        if amount_a_out <= 0 && amount_b_out <= 0 {
            return Err(PairError::InsufficientOutputAmount);
        }
        let st = match state {
            Some(s) => s,
            None => return Err(PairError::NotInitialized),
        };
        if amount_a_out >= st.reserve_a || amount_b_out >= st.reserve_b {
            return Err(PairError::InsufficientLiquidity);
        }
        let seq = host.sequence();
        let mut fs = match fee_state {
            Some(f) => f,
            None => FeeState::new_default(seq),
        };
        decay_stale_ema(&mut fs, seq);
        if amount_a_out > 0 {
            host.token_transfer(st.token_a, to, amount_a_out);
        }
        if amount_b_out > 0 {
            host.token_transfer(st.token_b, to, amount_b_out);
        }
        let balance_a = host.token_balance(st.token_a);
        let balance_b = host.token_balance(st.token_b);
        let now = host.timestamp();
        let (next, next_fs, amount_a_in, amount_b_in, fee_bps) = match settle_swap(
            &st,
            &fs,
            amount_a_out,
            amount_b_out,
            balance_a,
            balance_b,
            seq,
            now,
        ) {
            Ok(t) => t,
            Err(e) => {
                assert(swap_outcome(st, fee_state, amount_a_out as int, amount_b_out as int, seq, balance_a as int, balance_b as int, now)
                    == Err::<(PairStorage, FeeState), PairError>(e));
                return Err(e);
            },
        };
        assert(swap_outcome(st, fee_state, amount_a_out as int, amount_b_out as int, seq, balance_a as int, balance_b as int, now)
            == Ok::<(PairStorage, FeeState), PairError>((next, next_fs)));
        let event = PairEvents::Swap {
            sender: to,
            amount_a_in,
            amount_b_in,
            amount_a_out,
            amount_b_out,
            fee_bps,
            to,
        };
        Ok((next, next_fs, event))
    }

    /// Pays out `amount_a_out`/`amount_b_out` to `to` against tokens the
    /// caller deposited beforehand, under the reentrancy lock, charging the
    /// dynamic fee. The stored pair and fee state are the swap settlement of
    /// the sequence number, balances and time the host reported, and the
    /// product of the reserves never decreases. A failure, including `Locked`
    /// while another swap or flash loan runs, leaves the store as it was.
    pub fn swap<H: PairHost>(&mut self, host: &mut H, amount_a_out: i128, amount_b_out: i128, to: Address) -> (r: Result<
        (),
        PairError,
    >)
        ensures
            r is Err ==> *final(self) == *old(self),
            old(self).guard.locked ==> r == Err::<(), PairError>(PairError::Locked),
            r == Err::<(), PairError>(PairError::Locked) ==> old(self).guard.locked,
            !swap_request_admitted(*old(self), amount_a_out, amount_b_out)
                ==> r is Err && *final(host) == *old(host),
            swap_request_admitted(*old(self), amount_a_out, amount_b_out) && r is Err ==> exists|
                current_sequence: u64,
                balance_a: int,
                balance_b: int,
                now: u64,
            |
                #[trigger] swap_outcome(
                    old(self).state->Some_0,
                    old(self).fee_state,
                    amount_a_out as int,
                    amount_b_out as int,
                    current_sequence,
                    balance_a,
                    balance_b,
                    now,
                ) == Err::<(PairStorage, FeeState), PairError>(r->Err_0),
            !old(self).guard.locked && amount_a_out <= 0 && amount_b_out <= 0 ==> r == Err::<(), PairError>(
                PairError::InsufficientOutputAmount,
            ),
            !old(self).guard.locked && !(amount_a_out <= 0 && amount_b_out <= 0) && old(self).state is None
                ==> r == Err::<(), PairError>(PairError::NotInitialized),
            !old(self).guard.locked && !(amount_a_out <= 0 && amount_b_out <= 0) && old(self).state is Some && (
            amount_a_out >= old(self).state->Some_0.reserve_a || amount_b_out >= old(self).state->Some_0.reserve_b)
                ==> r == Err::<(), PairError>(PairError::InsufficientLiquidity),
            r is Ok ==> old(self).state is Some && final(self).state is Some && final(self).fee_state is Some
                && !final(self).guard.locked && reserve_product(*final(self)) >= reserve_product(*old(self)),
            r is Ok ==> exists|current_sequence: u64, balance_a: int, balance_b: int, now: u64|
                #[trigger] swap_outcome(
                    old(self).state->Some_0,
                    old(self).fee_state,
                    amount_a_out as int,
                    amount_b_out as int,
                    current_sequence,
                    balance_a,
                    balance_b,
                    now,
                ) == Ok::<(PairStorage, FeeState), PairError>(
                    (final(self).state->Some_0, final(self).fee_state->Some_0),
                ),
            r is Ok && old(self).state->Some_0.wf() ==> final(self).state->Some_0.wf(),
    {
        match acquire(&mut self.guard) {
            Ok(()) => {},
            Err(e) => return Err(e),
        }
        let result = Pair::swap_locked(self.state, self.fee_state, host, amount_a_out, amount_b_out, to);
        release(&mut self.guard);
        match result {
            Ok((next, fs, event)) => {
                self.state = Some(next);
                self.fee_state = Some(fs);
                host.publish(event);
                Ok(())
            },
            Err(e) => Err(e),
        }
    }

    /// Runs a flash loan on this store; see `execute_flash_loan`.
    pub fn flash_loan<H: PairHost>(
        &mut self,
        host: &mut H,
        receiver: Address,
        amount_a: i128,
        amount_b: i128,
        data: &Vec<u8>,
    ) -> (r: Result<(), PairError>)
        ensures
            flash_loan_post(*old(self), *final(self), r, amount_a, amount_b, data@.len() as int),
            !flash_request_admitted(*old(self), amount_a, amount_b, data@.len() as int)
                ==> r is Err && *final(host) == *old(host),
    {
        execute_flash_loan(self, host, receiver, amount_a, amount_b, data)
    }

    /// Reserves and the time of their last update.
    pub fn get_reserves(&self) -> (r: (i128, i128, u64))
        requires
            self.state is Some,
        ensures
            r == (self.state->Some_0.reserve_a, self.state->Some_0.reserve_b, self.state->Some_0.block_timestamp_last),
    {
        let st = self.state.unwrap();
        (st.reserve_a, st.reserve_b, st.block_timestamp_last)
    }

    /// The fee a swap would be charged now, before any decay; the default
    /// baseline when no fee configuration exists.
    pub fn get_current_fee_bps(&self) -> (r: u32)
        ensures
            self.fee_state is None ==> r == DEFAULT_FEE_BPS,
            self.fee_state is Some ==> r as int == crate::dynamic_fee::fee_bps_spec(self.fee_state->Some_0),
    {
        match self.fee_state {
            Some(fs) => compute_fee_bps(&fs),
            None => DEFAULT_FEE_BPS,
        }
    }

    /// The share token of an initialized pair.
    pub fn lp_token(&self) -> (r: Result<Address, PairError>)
        ensures
            self.state is None ==> r == Err::<Address, PairError>(PairError::NotInitialized),
            self.state is Some ==> r == Ok::<Address, PairError>(self.state->Some_0.lp_token),
    {
        match self.state {
            Some(st) => Ok(st.lp_token),
            None => Err(PairError::NotInitialized),
        }
    }
}

/// Lends `amount_a`/`amount_b` to `receiver` for the duration of its
/// callback, which must return each borrowed amount plus its fee. The lock
/// is held throughout the callback, so a swap or flash loan attempted from
/// it fails with `Locked`, and nothing the callback does to the store
/// survives: the stored state is the flash-loan settlement of the balances
/// and time the host reported afterwards. A failure leaves the store as it
/// was.
pub fn execute_flash_loan<H: PairHost>(
    pair: &mut Pair,
    host: &mut H,
    receiver: Address,
    amount_a: i128,
    amount_b: i128,
    data: &Vec<u8>,
) -> (r: Result<(), PairError>)
    ensures
        flash_loan_post(*old(pair), *final(pair), r, amount_a, amount_b, data@.len() as int),
        !flash_request_admitted(*old(pair), amount_a, amount_b, data@.len() as int) ==> r is Err && *final(host)
            == *old(host),
{
    if data.len() > MAX_PAYLOAD_SIZE {
        return Err(PairError::FlashPayloadTooLarge);
    }
    if amount_a < 0 || amount_b < 0 {
        return Err(PairError::InsufficientInputAmount);
    }
    if amount_a == 0 && amount_b == 0 {
        return Err(PairError::InsufficientInputAmount);
    }
    let st = match pair.state {
        Some(s) => s,
        None => return Err(PairError::NotInitialized),
    };
    if amount_a > st.reserve_a || amount_b > st.reserve_b {
        return Err(PairError::InsufficientLiquidity);
    }
    if st.reserve_a.checked_mul(st.reserve_b).is_none() {
        return Err(PairError::Overflow);
    }
    let before = *pair;
    match acquire(&mut pair.guard) {
        Ok(()) => {},
        Err(e) => return Err(e),
    }
    let pool_fee_bps = match pair.fee_state {
        Some(fs) => fs.baseline_fee_bps,
        None => FLASH_FEE_FLOOR_BPS,
    };
    let fee_a = if amount_a > 0 { compute_flash_fee(amount_a, pool_fee_bps) } else { 0 };
    let fee_b = if amount_b > 0 { compute_flash_fee(amount_b, pool_fee_bps) } else { 0 };
    let initiator = host.current_address();
    if amount_a > 0 {
        host.token_transfer(st.token_a, receiver, amount_a);
    }
    if amount_b > 0 {
        host.token_transfer(st.token_b, receiver, amount_b);
    }
    let during = *pair;
    host.flash_callback(
        pair,
        receiver,
        initiator,
        st.token_a,
        st.token_b,
        amount_a,
        amount_b,
        fee_a,
        fee_b,
        data,
    );
    *pair = during;
    let balance_a = host.token_balance(st.token_a);
    let balance_b = host.token_balance(st.token_b);
    let now = host.timestamp();
    let next = match settle_flash_loan(&st, amount_a, amount_b, fee_a, fee_b, balance_a, balance_b, now) {
        Ok(s) => s,
        Err(e) => {
            *pair = before;
            return Err(e);
        },
    };
    assert(pool_fee_bps as int == flash_pool_fee_spec(before));
    assert(flash_outcome(st, amount_a as int, amount_b as int, flash_pool_fee_spec(before), balance_a as int, balance_b as int, now)
        == Ok::<PairStorage, PairError>(next));
    pair.state = Some(next);
    release(&mut pair.guard);
    host.publish(PairEvents::FlashLoan { receiver, amount_a, amount_b, fee_a, fee_b });
    Ok(())
}

} // verus!
