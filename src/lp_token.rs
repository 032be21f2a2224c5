//! The liquidity-share token: balances, allowances with an expiry, and the
//! supply that issuing and burning shares move.
use std::collections::HashMap;

use vstd::prelude::*;

use crate::errors::LpTokenError;
use crate::math::fits_i128;
use crate::storage::{address_pair_key, address_pair_key_spec, Address};

verus! {

broadcast use vstd::std_specs::hash::group_hash_axioms;

/// An allowance and the last ledger sequence number at which it may be spent.
#[derive(Clone, Copy, Debug, PartialEq, Eq, Structural)]
pub struct AllowanceEntry {
    pub amount: i128,
    pub expiration_ledger: u32,
}

/// The balance a map records for `id`; absent entries are zero.
pub open spec fn balance_in(m: Map<u64, i128>, id: u64) -> i128 {
    if m.contains_key(id) { m[id] } else { 0 }
}

/// `m` with `id`'s balance set to `v`; a zero balance is stored as absent.
pub open spec fn with_balance(m: Map<u64, i128>, id: u64, v: i128) -> Map<u64, i128> {
    if v == 0 { m.remove(id) } else { m.insert(id, v) }
}

/// Balances after moving `amount` from `from` to `to`, or the failure:
/// a negative amount or a short balance is `InsufficientBalance`, an
/// overflowing credit is `Overflow`; a zero amount changes nothing.
pub open spec fn transfer_spec(m: Map<u64, i128>, from: u64, to: u64, amount: i128) -> Result<Map<u64, i128>, LpTokenError> {
    if amount < 0 {
        Err(LpTokenError::InsufficientBalance)
    } else if amount == 0 {
        Ok(m)
    } else if balance_in(m, from) < amount {
        Err(LpTokenError::InsufficientBalance)
    } else {
        let debited = with_balance(m, from, (balance_in(m, from) - amount) as i128);
        if !fits_i128(balance_in(debited, to) + amount) {
            Err(LpTokenError::Overflow)
        } else {
            Ok(with_balance(debited, to, (balance_in(debited, to) + amount) as i128))
        }
    }
}

/// The spendable allowance: zero once expired or when none was granted.
pub open spec fn allowance_spec(entries: Map<u128, AllowanceEntry>, key: u128, current_sequence: u32) -> i128 {
    if !entries.contains_key(key) || entries[key].expiration_ledger < current_sequence {
        0
    } else {
        entries[key].amount
    }
}

/// The share-token ledger.
pub struct LpToken {
    pub admin: Option<Address>,
    pub decimals: u32,
    pub name: String,
    pub symbol: String,
    pub total_supply: i128,
    pub balances: HashMap<u64, i128>,
    pub allowances: HashMap<u128, AllowanceEntry>,
}

impl LpToken {
    /// An uninitialized ledger with no balances.
    pub fn new() -> (r: LpToken)
        ensures
            r.admin is None,
            r.total_supply == 0,
            r.balances@ == Map::<u64, i128>::empty(),
            r.allowances@ == Map::<u128, AllowanceEntry>::empty(),
    {
        LpToken {
            admin: None,
            decimals: 0,
            name: String::new(),
            symbol: String::new(),
            total_supply: 0,
            balances: HashMap::new(),
            allowances: HashMap::new(),
        }
    }

    /// Records the issuer and metadata; zero supply. Only once.
    pub fn initialize(&mut self, admin: Address, decimals: u32, name: String, symbol: String) -> (r: Result<(), LpTokenError>)
        ensures
            old(self).admin is Some ==> r == Err::<(), LpTokenError>(LpTokenError::AlreadyInitialized)
                && final(self).admin == old(self).admin && final(self).total_supply == old(self).total_supply
                && final(self).balances@ == old(self).balances@,
            old(self).admin is None ==> r is Ok && final(self).admin == Some(admin) && final(self).decimals == decimals
                && final(self).name@ == name@ && final(self).symbol@ == symbol@ && final(self).total_supply == 0
                && final(self).balances@ == old(self).balances@
                && final(self).allowances@ == old(self).allowances@,
    {
        if self.admin.is_some() {
            return Err(LpTokenError::AlreadyInitialized);
        }
        self.admin = Some(admin);
        self.decimals = decimals;
        self.name = name;
        self.symbol = symbol;
        self.total_supply = 0;
        Ok(())
    }

    /// What `spender` may still move out of `from` at `current_sequence`.
    pub fn allowance(&self, from: Address, spender: Address, current_sequence: u32) -> (r: i128)
        ensures
            r == allowance_spec(self.allowances@, address_pair_key_spec(from, spender), current_sequence),
    {
        let key = address_pair_key(from, spender);
        match self.allowances.get(&key) {
            Some(entry) => if entry.expiration_ledger < current_sequence { 0 } else { entry.amount },
            None => 0,
        }
    }

    /// Grants `spender` an allowance of `amount` over `from`'s shares until
    /// `expiration_ledger`; zero revokes it. A non-zero grant that has already
    /// expired is `Unauthorized`.
    pub fn approve(
        &mut self,
        from: Address,
        spender: Address,
        amount: i128,
        expiration_ledger: u32,
        current_sequence: u32,
    ) -> (r: Result<(), LpTokenError>)
        ensures
            final(self).admin == old(self).admin,
            final(self).total_supply == old(self).total_supply,
            final(self).balances@ == old(self).balances@,
            amount != 0 && expiration_ledger < current_sequence ==> r == Err::<(), LpTokenError>(LpTokenError::Unauthorized)
                && final(self).allowances@ == old(self).allowances@,
            amount == 0 ==> r is Ok && final(self).allowances@ == old(self).allowances@.remove(address_pair_key_spec(from, spender)),
            amount != 0 && expiration_ledger >= current_sequence ==> r is Ok && final(self).allowances@ == old(
                self,
            ).allowances@.insert(address_pair_key_spec(from, spender), AllowanceEntry { amount, expiration_ledger }),
    {
        if amount != 0 && expiration_ledger < current_sequence {
            return Err(LpTokenError::Unauthorized);
        }
        let key = address_pair_key(from, spender);
        if amount == 0 {
            self.allowances.remove(&key);
        } else {
            self.allowances.insert(key, AllowanceEntry { amount, expiration_ledger });
        }
        Ok(())
    }

    /// The shares `id` holds.
    pub fn balance(&self, id: Address) -> (r: i128)
        ensures
            r == balance_in(self.balances@, id.id),
    {
        match self.balances.get(&id.id) {
            Some(b) => *b,
            None => 0,
        }
    }

    fn store_balance(&mut self, id: u64, v: i128)
        ensures
            final(self).balances@ == with_balance(old(self).balances@, id, v),
            final(self).allowances@ == old(self).allowances@,
            final(self).admin == old(self).admin,
            final(self).total_supply == old(self).total_supply,
    {
        if v == 0 {
            self.balances.remove(&id);
        } else {
            self.balances.insert(id, v);
        }
    }

    fn transfer_internal(&mut self, from: Address, to: Address, amount: i128) -> (r: Result<(), LpTokenError>)
        ensures
            final(self).allowances@ == old(self).allowances@,
            final(self).admin == old(self).admin,
            final(self).total_supply == old(self).total_supply,
            match transfer_spec(old(self).balances@, from.id, to.id, amount) {
                Ok(m) => r is Ok && final(self).balances@ == m,
                Err(e) => r == Err::<(), LpTokenError>(e) && final(self).balances@ == old(self).balances@,
            },
    {
        if amount < 0 {
            return Err(LpTokenError::InsufficientBalance);
        }
        if amount == 0 {
            return Ok(());
        }
        let from_balance = self.balance(from);
        if from_balance < amount {
            return Err(LpTokenError::InsufficientBalance);
        }
        let new_from = from_balance - amount;
        let to_balance = if to.id == from.id { new_from } else { self.balance(to) };
        let new_to = match to_balance.checked_add(amount) {
            Some(v) => v,
            None => return Err(LpTokenError::Overflow),
        };
        self.store_balance(from.id, new_from);
        self.store_balance(to.id, new_to);
        Ok(())
    }

    /// Moves `amount` shares from `from` to `to`; see `transfer_spec`.
    pub fn transfer(&mut self, from: Address, to: Address, amount: i128) -> (r: Result<(), LpTokenError>)
        ensures
            final(self).allowances@ == old(self).allowances@,
            final(self).admin == old(self).admin,
            final(self).total_supply == old(self).total_supply,
            match transfer_spec(old(self).balances@, from.id, to.id, amount) {
                Ok(m) => r is Ok && final(self).balances@ == m,
                Err(e) => r == Err::<(), LpTokenError>(e) && final(self).balances@ == old(self).balances@,
            },
    {
        self.transfer_internal(from, to, amount)
    }

    /// Moves `amount` shares from `from` to `to` on `spender`'s allowance,
    /// which shrinks by `amount` (and disappears at zero). A missing, expired
    /// or short allowance is `InsufficientAllowance`; then the transfer's own
    /// failures apply. A failure changes nothing.
    pub fn transfer_from(
        &mut self,
        spender: Address,
        from: Address,
        to: Address,
        amount: i128,
        current_sequence: u32,
    ) -> (r: Result<(), LpTokenError>)
        ensures
            final(self).admin == old(self).admin,
            final(self).total_supply == old(self).total_supply,
            ({
                let key = address_pair_key_spec(from, spender);
                let entries = old(self).allowances@;
                if !entries.contains_key(key) || entries[key].expiration_ledger < current_sequence
                    || entries[key].amount < amount {
                    r == Err::<(), LpTokenError>(LpTokenError::InsufficientAllowance)
                        && final(self).balances@ == old(self).balances@
                        && final(self).allowances@ == entries
                } else {
                    match transfer_spec(old(self).balances@, from.id, to.id, amount) {
                        Err(e) => r == Err::<(), LpTokenError>(e) && final(self).balances@ == old(self).balances@
                            && final(self).allowances@ == entries,
                        Ok(m) => r is Ok && final(self).balances@ == m && final(self).allowances@ == (if entries[key].amount
                            - amount == 0 {
                            entries.remove(key)
                        } else {
                            entries.insert(
                                key,
                                AllowanceEntry {
                                    amount: (entries[key].amount - amount) as i128,
                                    expiration_ledger: entries[key].expiration_ledger,
                                },
                            )
                        }),
                    }
                }
            }),
    {
        let key = address_pair_key(from, spender);
        let entry = match self.allowances.get(&key) {
            Some(e) => *e,
            None => return Err(LpTokenError::InsufficientAllowance),
        };
        if entry.expiration_ledger < current_sequence {
            return Err(LpTokenError::InsufficientAllowance);
        }
        if entry.amount < amount {
            return Err(LpTokenError::InsufficientAllowance);
        }
        match self.transfer_internal(from, to, amount) {
            Ok(()) => {},
            Err(e) => return Err(e),
        }
        let remaining = entry.amount - amount;
        if remaining == 0 {
            self.allowances.remove(&key);
        } else {
            self.allowances.insert(key, AllowanceEntry { amount: remaining, expiration_ledger: entry.expiration_ledger });
        }
        Ok(())
    }

    /// Issues `amount` new shares to `to`. Needs an initialized ledger; an
    /// overflowing balance or supply is `Overflow`. A failure changes nothing.
    pub fn mint(&mut self, to: Address, amount: i128) -> (r: Result<(), LpTokenError>)
        ensures
            final(self).admin == old(self).admin,
            final(self).allowances@ == old(self).allowances@,
            old(self).admin is None ==> r == Err::<(), LpTokenError>(LpTokenError::NotInitialized),
            old(self).admin is Some && (!fits_i128(balance_in(old(self).balances@, to.id) + amount) || !fits_i128(
                old(self).total_supply + amount,
            )) ==> r == Err::<(), LpTokenError>(LpTokenError::Overflow),
            r is Err ==> final(self).balances@ == old(self).balances@ && final(self).total_supply == old(self).total_supply,
            r is Ok ==> final(self).balances@ == with_balance(
                old(self).balances@,
                to.id,
                (balance_in(old(self).balances@, to.id) + amount) as i128,
            ) && final(self).total_supply == old(self).total_supply + amount,
            old(self).admin is Some && fits_i128(balance_in(old(self).balances@, to.id) + amount) && fits_i128(
                old(self).total_supply + amount,
            ) ==> r is Ok,
    {
        if self.admin.is_none() {
            return Err(LpTokenError::NotInitialized);
        }
        let current = self.balance(to);
        let new_balance = match current.checked_add(amount) {
            Some(v) => v,
            None => return Err(LpTokenError::Overflow),
        };
        let new_supply = match self.total_supply.checked_add(amount) {
            Some(v) => v,
            None => return Err(LpTokenError::Overflow),
        };
        self.store_balance(to.id, new_balance);
        self.total_supply = new_supply;
        Ok(())
    }

    /// Destroys `amount` of `from`'s shares. A short balance is
    /// `InsufficientBalance`; an overflowing supply or balance is `Overflow`. A failure
    /// changes nothing.
    pub fn burn(&mut self, from: Address, amount: i128) -> (r: Result<(), LpTokenError>)
        ensures
            final(self).admin == old(self).admin,
            final(self).allowances@ == old(self).allowances@,
            balance_in(old(self).balances@, from.id) < amount ==> r == Err::<(), LpTokenError>(
                LpTokenError::InsufficientBalance,
            ),
            balance_in(old(self).balances@, from.id) >= amount && (!fits_i128(old(self).total_supply - amount)
                || !fits_i128(balance_in(old(self).balances@, from.id) - amount)) ==> r == Err::<(), LpTokenError>(
                LpTokenError::Overflow,
            ),
            r is Err ==> final(self).balances@ == old(self).balances@ && final(self).total_supply == old(self).total_supply,
            r is Ok ==> final(self).balances@ == with_balance(
                old(self).balances@,
                from.id,
                (balance_in(old(self).balances@, from.id) - amount) as i128,
            ) && final(self).total_supply == old(self).total_supply - amount,
            balance_in(old(self).balances@, from.id) >= amount && fits_i128(old(self).total_supply - amount)
                && fits_i128(balance_in(old(self).balances@, from.id) - amount) ==> r is Ok,
    {
        let current = self.balance(from);
        if current < amount {
            return Err(LpTokenError::InsufficientBalance);
        }
        let new_supply = match self.total_supply.checked_sub(amount) {
            Some(v) => v,
            None => return Err(LpTokenError::Overflow),
        };
        let new_balance = match current.checked_sub(amount) {
            Some(v) => v,
            None => return Err(LpTokenError::Overflow),
        };
        self.store_balance(from.id, new_balance);
        self.total_supply = new_supply;
        Ok(())
    }

    pub fn decimals(&self) -> (r: u32)
        ensures
            r == self.decimals,
    {
        self.decimals
    }

    pub fn name(&self) -> (r: String)
        ensures
            r@ == self.name@,
    {
        self.name.clone()
    }

    pub fn symbol(&self) -> (r: String)
        ensures
            r@ == self.symbol@,
    {
        self.symbol.clone()
    }

    pub fn total_supply(&self) -> (r: i128)
        ensures
            r == self.total_supply,
    {
        self.total_supply
    }
}

} // verus!
