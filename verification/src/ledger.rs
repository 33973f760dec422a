//! Balances and total supply.

use vstd::prelude::*;
use std::collections::HashMap;
use crate::address::Address;
use crate::error::TokenError;
use crate::supply::{
    address_count, lemma_balance_within_sum, lemma_sum_after_insert, lemma_sum_nonnegative,
    lemma_sum_of_nothing, lemma_two_balances_within_sum, LedgerState,
};

verus! {

broadcast use vstd::std_specs::hash::group_hash_axioms;

/// Per-identity balances and the total supply. An identity that was never
/// credited holds zero.
pub struct Ledger {
    held: HashMap<u64, i128>,
    total: i128,
}

impl View for Ledger {
    type V = LedgerState;

    closed spec fn view(&self) -> LedgerState {
        LedgerState {
            balances: Map::total(
                |a: Address|
                    if self.held@.contains_key(a.id) {
                        self.held@[a.id] as int
                    } else {
                        0int
                    },
            ),
            total_supply: self.total as int,
        }
    }
}

impl Ledger {
    /// The total supply equals the sum of all balances, and no balance is
    /// negative.
    pub open spec fn wf(&self) -> bool {
        self@.conserved()
    }

    /// A ledger in which nobody holds anything.
    pub fn new() -> (ledger: Ledger)
        ensures
            ledger.wf(),
            ledger@ == LedgerState::empty(),
    {
        let ledger = Ledger { held: HashMap::new(), total: 0 };
        proof {
            assert(ledger@.balances =~= LedgerState::empty().balances);
            lemma_sum_of_nothing(address_count());
        }
        ledger
    }

    /// What `account` holds.
    pub fn balance(&self, account: Address) -> (held: i128)
        ensures
            held == self@.balances[account],
    {
        match self.held.get(&account.id) {
            Some(held) => *held,
            None => 0,
        }
    }

    /// The total supply.
    pub fn total_supply(&self) -> (total: i128)
        ensures
            total == self@.total_supply,
    {
        self.total
    }

    /// Creates `amount` new units and credits them to `account`. A negative
    /// amount is refused, and so is one that would take the total supply out
    /// of the 128-bit range; a refused mint changes nothing.
    pub fn mint(&mut self, account: Address, amount: i128) -> (res: Result<(), TokenError>)
        requires
            old(self).wf(),
        ensures
            final(self).wf(),
            old(self)@.mint_refusal(amount as int) matches Some(refusal) ==>
                res == Err::<(), TokenError>(refusal),
            old(self)@.mint_refusal(amount as int) is Some ==> final(self)@ == old(self)@,
            old(self)@.mint_refusal(amount as int) is None ==> res == Ok::<(), TokenError>(()),
            old(self)@.mint_refusal(amount as int) is None ==>
                final(self)@ == old(self)@.after_mint(account, amount as int),
    {
        if amount < 0 {
            return Err(TokenError::InvalidAmount);
        }
        proof {
            lemma_sum_nonnegative(self@.balances, address_count());
        }
        if amount > i128::MAX - self.total {
            return Err(TokenError::Overflow);
        }
        let held: i128 = self.balance(account);
        proof {
            lemma_balance_within_sum(self@.balances, account);
        }
        let ghost before = self@;
        self.held.insert(account.id, held + amount);
        self.total = self.total + amount;
        proof {
            assert(self@.balances =~= before.after_mint(account, amount as int).balances);
            lemma_sum_after_insert(before.balances, account, held + amount, address_count());
        }
        Ok(())
    }

    /// Destroys `amount` units held by `from`. A negative amount is refused,
    /// and so is one that exceeds what `from` holds; a refused burn changes
    /// nothing.
    pub fn burn(&mut self, from: Address, amount: i128) -> (res: Result<(), TokenError>)
        requires
            old(self).wf(),
        ensures
            final(self).wf(),
            old(self)@.spend_refusal(from, amount as int) matches Some(refusal) ==>
                res == Err::<(), TokenError>(refusal),
            old(self)@.spend_refusal(from, amount as int) is Some ==> final(self)@ == old(self)@,
            old(self)@.spend_refusal(from, amount as int) is None ==>
                res == Ok::<(), TokenError>(()),
            old(self)@.spend_refusal(from, amount as int) is None ==>
                final(self)@ == old(self)@.after_burn(from, amount as int),
    {
        if amount < 0 {
            return Err(TokenError::InvalidAmount);
        }
        let held: i128 = self.balance(from);
        if held < amount {
            return Err(TokenError::InsufficientBalance);
        }
        proof {
            lemma_balance_within_sum(self@.balances, from);
        }
        let ghost before = self@;
        self.held.insert(from.id, held - amount);
        self.total = self.total - amount;
        proof {
            assert(self@.balances =~= before.after_burn(from, amount as int).balances);
            lemma_sum_after_insert(before.balances, from, held - amount, address_count());
        }
        Ok(())
    }

    /// Moves `amount` units from `from` to `to`; the total supply stays. A
    /// negative amount is refused, and so is one that exceeds what `from`
    /// holds; a refused transfer changes nothing.
    pub fn transfer(
        &mut self,
        from: Address,
        to: Address,
        amount: i128,
    ) -> (res: Result<(), TokenError>)
        requires
            old(self).wf(),
        ensures
            final(self).wf(),
            old(self)@.spend_refusal(from, amount as int) matches Some(refusal) ==>
                res == Err::<(), TokenError>(refusal),
            old(self)@.spend_refusal(from, amount as int) is Some ==> final(self)@ == old(self)@,
            old(self)@.spend_refusal(from, amount as int) is None ==>
                res == Ok::<(), TokenError>(()),
            old(self)@.spend_refusal(from, amount as int) is None ==>
                final(self)@ == old(self)@.after_transfer(from, to, amount as int),
    {
        if amount < 0 {
            return Err(TokenError::InvalidAmount);
        }
        let held: i128 = self.balance(from);
        if held < amount {
            return Err(TokenError::InsufficientBalance);
        }
        let ghost before = self@;
        self.held.insert(from.id, held - amount);
        let ghost between = self@;
        let received: i128 = self.balance(to);
        proof {
            assert(between.balances =~= before.debit(from, amount as int).balances);
            lemma_sum_after_insert(before.balances, from, held - amount, address_count());
            if from != to {
                lemma_two_balances_within_sum(before.balances, from, to);
            }
        }
        self.held.insert(to.id, received + amount);
        proof {
            assert(self@.balances =~= before.after_transfer(from, to, amount as int).balances);
            lemma_sum_after_insert(between.balances, to, received + amount, address_count());
        }
        Ok(())
    }
}

} // verus!
