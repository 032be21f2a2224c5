//! The pair registry: one pair per unordered token pair, created in
//! canonical token order while the protocol is not paused.
use std::collections::HashMap;

use vstd::prelude::*;

use crate::errors::FactoryError;
use crate::storage::{address_pair_key, address_pair_key_spec, Address};

verus! {

broadcast use vstd::std_specs::hash::group_hash_axioms;

/// Largest number of governance signers.
pub const MAX_SIGNERS: usize = 10;

/// Registry configuration.
pub struct FactoryStorage {
    pub signers: Vec<Address>,
    pub pair_wasm_hash: [u8; 32],
    pub lp_token_wasm_hash: [u8; 32],
    pub pair_count: u32,
    pub protocol_version: u32,
    pub paused: bool,
    pub fee_to: Option<Address>,
    pub fee_to_setter: Address,
}

/// The registry: its configuration, once initialized, and the pairs by
/// token pair (each pair is found under both orders of its tokens).
pub struct Factory {
    pub storage: Option<FactoryStorage>,
    pub pairs: HashMap<u128, Address>,
}

/// The canonical order of two tokens: smaller identity first.
pub open spec fn sorted_spec(token_a: Address, token_b: Address) -> (Address, Address) {
    if token_a.id < token_b.id { (token_a, token_b) } else { (token_b, token_a) }
}

/// The first failure a pair creation for `token_a`/`token_b` would meet.
pub open spec fn creation_check_spec(f: Factory, token_a: Address, token_b: Address) -> Option<FactoryError> {
    let (t0, t1) = sorted_spec(token_a, token_b);
    if token_a == token_b {
        Some(FactoryError::IdenticalTokens)
    } else if f.pairs@.contains_key(address_pair_key_spec(t0, t1)) {
        Some(FactoryError::PairExists)
    } else if f.storage is None {
        Some(FactoryError::NotInitialized)
    } else if f.storage->Some_0.paused {
        Some(FactoryError::ProtocolPaused)
    } else {
        None
    }
}

impl Factory {
    /// An uninitialized registry with no pairs.
    pub fn new() -> (r: Factory)
        ensures
            r.storage is None,
            r.pairs@ == Map::<u128, Address>::empty(),
    {
        Factory { storage: None, pairs: HashMap::new() }
    }

    /// Records the configuration: between one and `MAX_SIGNERS` signers, not
    /// paused, no fee recipient, protocol version one. Only once.
    pub fn initialize(
        &mut self,
        signers: Vec<Address>,
        pair_wasm_hash: [u8; 32],
        lp_token_wasm_hash: [u8; 32],
        fee_to_setter: Address,
    ) -> (r: Result<(), FactoryError>)
        ensures
            final(self).pairs@ == old(self).pairs@,
            old(self).storage is Some ==> r == Err::<(), FactoryError>(FactoryError::AlreadyInitialized)
                && final(self).storage is Some,
            old(self).storage is None && (signers@.len() < 1 || signers@.len() > MAX_SIGNERS) ==> r == Err::<
                (),
                FactoryError,
            >(FactoryError::InvalidSignerCount) && final(self).storage is None,
            old(self).storage is None && 1 <= signers@.len() <= MAX_SIGNERS ==> r is Ok && final(self).storage is Some
                && ({
                let st = final(self).storage->Some_0;
                &&& st.signers@ == signers@
                &&& st.pair_count == 0
                &&& st.protocol_version == 1
                &&& !st.paused
                &&& st.fee_to is None
                &&& st.fee_to_setter == fee_to_setter
            }),
    {
        if self.storage.is_some() {
            return Err(FactoryError::AlreadyInitialized);
        }
        let count = signers.len();
        if count < 1 || count > MAX_SIGNERS {
            return Err(FactoryError::InvalidSignerCount);
        }
        self.storage = Some(FactoryStorage {
            signers,
            pair_wasm_hash,
            lp_token_wasm_hash,
            pair_count: 0,
            protocol_version: 1,
            paused: false,
            fee_to: None,
            fee_to_setter,
        });
        Ok(())
    }

    /// Checks that a pair for the two tokens may be created and returns them
    /// in canonical order.
    pub fn prepare_pair(&self, token_a: Address, token_b: Address) -> (r: Result<(Address, Address), FactoryError>)
        ensures
            match creation_check_spec(*self, token_a, token_b) {
                Some(e) => r == Err::<(Address, Address), FactoryError>(e),
                None => r == Ok::<(Address, Address), FactoryError>(sorted_spec(token_a, token_b)),
            },
    {
        if token_a == token_b {
            return Err(FactoryError::IdenticalTokens);
        }
        let (token_0, token_1) = if token_a.id < token_b.id { (token_a, token_b) } else { (token_b, token_a) };
        let key = address_pair_key(token_0, token_1);
        if self.pairs.contains_key(&key) {
            return Err(FactoryError::PairExists);
        }
        match &self.storage {
            None => Err(FactoryError::NotInitialized),
            Some(st) => if st.paused { Err(FactoryError::ProtocolPaused) } else { Ok((token_0, token_1)) },
        }
    }

    /// Registers `pair` for the two tokens, under both orders, after the
    /// checks of `prepare_pair`; returns the pair's index.
    pub fn create_pair(&mut self, token_a: Address, token_b: Address, pair: Address) -> (r: Result<u32, FactoryError>)
        ensures
            match creation_check_spec(*old(self), token_a, token_b) {
                Some(e) => r == Err::<u32, FactoryError>(e) && final(self).pairs@ == old(self).pairs@,
                None => (old(self).storage->Some_0.pair_count == u32::MAX ==> r == Err::<u32, FactoryError>(
                    FactoryError::PairLimitReached,
                ) && final(self).pairs@ == old(self).pairs@)
                    && (old(self).storage->Some_0.pair_count < u32::MAX ==> r == Ok::<u32, FactoryError>(
                    old(self).storage->Some_0.pair_count,
                ) && final(self).storage->Some_0.pair_count == old(self).storage->Some_0.pair_count + 1
                    && final(self).pairs@ == old(self).pairs@.insert(
                    address_pair_key_spec(token_a, token_b),
                    pair,
                ).insert(address_pair_key_spec(token_b, token_a), pair)),
            },
    {
        let (token_0, token_1) = match self.prepare_pair(token_a, token_b) {
            Ok(t) => t,
            Err(e) => return Err(e),
        };
        let index = match &self.storage {
            Some(st) => st.pair_count,
            None => return Err(FactoryError::NotInitialized),
        };
        if index == u32::MAX {
            return Err(FactoryError::PairLimitReached);
        }
        let mut st = self.storage.take().unwrap();
        st.pair_count = index + 1;
        self.storage = Some(st);
        self.pairs.insert(address_pair_key(token_a, token_b), pair);
        self.pairs.insert(address_pair_key(token_b, token_a), pair);
        proof {
            assert(token_0 == token_a || token_0 == token_b);
        }
        Ok(index)
    }

    /// The pair registered for the two tokens, in either order.
    pub fn get_pair(&self, token_a: Address, token_b: Address) -> (r: Option<Address>)
        ensures
            self.pairs@.contains_key(address_pair_key_spec(token_a, token_b)) ==> r == Some(
                self.pairs@[address_pair_key_spec(token_a, token_b)],
            ),
            !self.pairs@.contains_key(address_pair_key_spec(token_a, token_b)) ==> r is None,
    {
        match self.pairs.get(&address_pair_key(token_a, token_b)) {
            Some(p) => Some(*p),
            None => None,
        }
    }

    /// Sets or clears the pause flag.
    fn set_paused(&mut self, paused: bool) -> (r: Result<(), FactoryError>)
        ensures
            final(self).pairs@ == old(self).pairs@,
            old(self).storage is None ==> r == Err::<(), FactoryError>(FactoryError::NotInitialized)
                && final(self).storage is None,
            old(self).storage is Some ==> r is Ok && final(self).storage is Some
                && final(self).storage->Some_0.paused == paused
                && final(self).storage->Some_0.pair_count == old(self).storage->Some_0.pair_count
                && final(self).storage->Some_0.fee_to == old(self).storage->Some_0.fee_to
                && final(self).storage->Some_0.fee_to_setter == old(self).storage->Some_0.fee_to_setter,
    {
        let mut st = match self.storage.take() {
            Some(st) => st,
            None => return Err(FactoryError::NotInitialized),
        };
        st.paused = paused;
        self.storage = Some(st);
        Ok(())
    }

    /// Stops pair creation.
    pub fn pause(&mut self) -> (r: Result<(), FactoryError>)
        ensures
            final(self).pairs@ == old(self).pairs@,
            old(self).storage is None ==> r == Err::<(), FactoryError>(FactoryError::NotInitialized),
            old(self).storage is Some ==> r is Ok && final(self).storage is Some && final(self).storage->Some_0.paused
                && final(self).storage->Some_0.pair_count == old(self).storage->Some_0.pair_count,
    {
        self.set_paused(true)
    }

    /// Resumes pair creation.
    pub fn unpause(&mut self) -> (r: Result<(), FactoryError>)
        ensures
            final(self).pairs@ == old(self).pairs@,
            old(self).storage is None ==> r == Err::<(), FactoryError>(FactoryError::NotInitialized),
            old(self).storage is Some ==> r is Ok && final(self).storage is Some && !final(self).storage->Some_0.paused
                && final(self).storage->Some_0.pair_count == old(self).storage->Some_0.pair_count,
    {
        self.set_paused(false)
    }

    /// Sets the protocol fee recipient; only the fee-recipient setter may.
    pub fn set_fee_to(&mut self, setter: Address, fee_to: Option<Address>) -> (r: Result<(), FactoryError>)
        ensures
            final(self).pairs@ == old(self).pairs@,
            old(self).storage is None ==> r == Err::<(), FactoryError>(FactoryError::NotInitialized),
            old(self).storage is Some && setter != old(self).storage->Some_0.fee_to_setter ==> r == Err::<
                (),
                FactoryError,
            >(FactoryError::Unauthorized) && final(self).storage is Some
                && final(self).storage->Some_0.fee_to == old(self).storage->Some_0.fee_to,
            old(self).storage is Some && setter == old(self).storage->Some_0.fee_to_setter ==> r is Ok
                && final(self).storage is Some && final(self).storage->Some_0.fee_to == fee_to
                && final(self).storage->Some_0.fee_to_setter == old(self).storage->Some_0.fee_to_setter,
    {
        let mut st = match self.storage.take() {
            Some(st) => st,
            None => return Err(FactoryError::NotInitialized),
        };
        if setter != st.fee_to_setter {
            self.storage = Some(st);
            return Err(FactoryError::Unauthorized);
        }
        st.fee_to = fee_to;
        self.storage = Some(st);
        Ok(())
    }

    /// Hands the right to set the fee recipient to `new_setter`; only the
    /// current setter may.
    pub fn set_fee_to_setter(&mut self, setter: Address, new_setter: Address) -> (r: Result<(), FactoryError>)
        ensures
            final(self).pairs@ == old(self).pairs@,
            old(self).storage is None ==> r == Err::<(), FactoryError>(FactoryError::NotInitialized),
            old(self).storage is Some && setter != old(self).storage->Some_0.fee_to_setter ==> r == Err::<
                (),
                FactoryError,
            >(FactoryError::Unauthorized) && final(self).storage is Some
                && final(self).storage->Some_0.fee_to_setter == old(self).storage->Some_0.fee_to_setter,
            old(self).storage is Some && setter == old(self).storage->Some_0.fee_to_setter ==> r is Ok
                && final(self).storage is Some && final(self).storage->Some_0.fee_to_setter == new_setter
                && final(self).storage->Some_0.fee_to == old(self).storage->Some_0.fee_to,
    {
        let mut st = match self.storage.take() {
            Some(st) => st,
            None => return Err(FactoryError::NotInitialized),
        };
        if setter != st.fee_to_setter {
            self.storage = Some(st);
            return Err(FactoryError::Unauthorized);
        }
        st.fee_to_setter = new_setter;
        self.storage = Some(st);
        Ok(())
    }

    /// The protocol fee recipient, if any.
    pub fn fee_to(&self) -> (r: Option<Address>)
        ensures
            self.storage is None ==> r is None,
            self.storage is Some ==> r == self.storage->Some_0.fee_to,
    {
        match &self.storage {
            Some(st) => st.fee_to,
            None => None,
        }
    }

    /// The account allowed to set the fee recipient, once initialized.
    pub fn fee_to_setter(&self) -> (r: Option<Address>)
        ensures
            self.storage is None ==> r is None,
            self.storage is Some ==> r == Some(self.storage->Some_0.fee_to_setter),
    {
        match &self.storage {
            Some(st) => Some(st.fee_to_setter),
            None => None,
        }
    }

    /// Whether pair creation is stopped; an uninitialized registry is not paused.
    pub fn is_paused(&self) -> (r: bool)
        ensures
            r == (self.storage is Some && self.storage->Some_0.paused),
    {
        match &self.storage {
            Some(st) => st.paused,
            None => false,
        }
    }
}

} // verus!
