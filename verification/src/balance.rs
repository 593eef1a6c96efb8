//! The balance store: one non-negative pending balance per artist
//! identity, with atomic credit, debit and read.

use vstd::prelude::*;
use std::collections::HashMap;
use crate::errors::Error;
use crate::state::balance_in;

verus! {

broadcast use vstd::std_specs::hash::group_hash_axioms;

/// Maps each artist identity to its pending balance.  An identity with
/// no entry has a balance of zero; no balance ever goes negative.
pub struct BalanceStore {
    entries: HashMap<u64, u64>,
}

impl View for BalanceStore {
    type V = Map<u64, u64>;

    closed spec fn view(&self) -> Map<u64, u64> {
        self.entries@
    }
}

impl BalanceStore {
    /// An empty store: every balance reads as zero.
    pub fn new() -> (r: BalanceStore)
        ensures
            r@ == Map::<u64, u64>::empty(),
    {
        BalanceStore { entries: HashMap::new() }
    }

    /// Current pending balance of `artist`, zero for unknown identities.
    /// Never fails.
    pub fn read(&self, artist: u64) -> (r: u64)
        ensures
            r == balance_in(self@, artist),
    {
        match self.entries.get(&artist) {
            Some(b) => *b,
            None => 0,
        }
    }

    /// Unconditionally adds `amount` to the artist's pending balance.
    /// The only demand is the machine limit: the new balance must still
    /// fit in a `u64`.
    pub fn credit(&mut self, artist: u64, amount: u64)
        requires
            balance_in(old(self)@, artist) + amount <= u64::MAX,
        ensures
            final(self)@ == old(self)@.insert(
                artist,
                (balance_in(old(self)@, artist) + amount) as u64,
            ),
    {
        let current = self.read(artist);
        self.entries.insert(artist, current + amount);
    }

    /// Subtracts `amount` from the artist's pending balance and returns
    /// the new balance; fails with `InsufficientBalance` exactly when
    /// `amount` exceeds the pending balance, leaving the store unchanged.
    pub fn debit(&mut self, artist: u64, amount: u64) -> (r: Result<u64, Error>)
        ensures
            ({
                let b = balance_in(old(self)@, artist);
                match r {
                    Ok(new_balance) => {
                        &&& amount <= b
                        &&& new_balance == b - amount
                        &&& final(self)@ == old(self)@.insert(artist, new_balance)
                    },
                    Err(e) => {
                        &&& e == Error::InsufficientBalance
                        &&& amount > b
                        &&& final(self)@ == old(self)@
                    },
                }
            }),
    {
        let current = self.read(artist);
        if amount > current {
            Err(Error::InsufficientBalance)
        } else {
            let new_balance = current - amount;
            self.entries.insert(artist, new_balance);
            Ok(new_balance)
        }
    }
}

} // verus!
