//! The mathematics of the ledger: balances as a total map from identities to
//! integers, and the sum of all of them.

use vstd::prelude::*;
use crate::address::Address;
use crate::error::TokenError;

verus! {

/// How many identities there are.
pub open spec fn address_count() -> nat {
    0x1_0000_0000_0000_0000
}

/// The sum of the balances of the identities numbered below `n`.
pub open spec fn sum_below(balances: Map<Address, int>, n: nat) -> int
    decreases n,
{
    if n == 0 {
        0
    } else {
        sum_below(balances, (n - 1) as nat) + balances[Address { id: (n - 1) as u64 }]
    }
}

/// The sum of all balances.
pub open spec fn sum_of_balances(balances: Map<Address, int>) -> int {
    sum_below(balances, address_count())
}

/// What a ledger is: a balance for every identity, and the total supply.
pub struct LedgerState {
    pub balances: Map<Address, int>,
    pub total_supply: int,
}

impl LedgerState {
    /// The ledger in which nobody holds anything.
    pub open spec fn empty() -> LedgerState {
        LedgerState { balances: Map::total(|a: Address| 0int), total_supply: 0 }
    }

    /// Every identity has a balance, none is negative, and the total supply
    /// is their sum and fits in 128 bits.
    pub open spec fn conserved(self) -> bool {
        &&& forall|a: Address| self.balances.dom().contains(a)
        &&& forall|a: Address| #[trigger] self.balances[a] >= 0
        &&& self.total_supply == sum_of_balances(self.balances)
        &&& self.total_supply <= i128::MAX
    }

    /// The ledger with `amount` added to what `account` holds.
    pub open spec fn credit(self, account: Address, amount: int) -> LedgerState {
        LedgerState {
            balances: self.balances.insert(account, self.balances[account] + amount),
            total_supply: self.total_supply,
        }
    }

    /// The ledger with `amount` taken from what `account` holds.
    pub open spec fn debit(self, account: Address, amount: int) -> LedgerState {
        self.credit(account, -amount)
    }

    /// The ledger with the total supply changed by `amount`.
    pub open spec fn issue(self, amount: int) -> LedgerState {
        LedgerState { balances: self.balances, total_supply: self.total_supply + amount }
    }

    /// Why a mint of `amount` is refused, if it is.
    pub open spec fn mint_refusal(self, amount: int) -> Option<TokenError> {
        if amount < 0 {
            Some(TokenError::InvalidAmount)
        } else if self.total_supply + amount > i128::MAX {
            Some(TokenError::Overflow)
        } else {
            None
        }
    }

    /// The ledger after `amount` was minted to `account`.
    pub open spec fn after_mint(self, account: Address, amount: int) -> LedgerState {
        self.credit(account, amount).issue(amount)
    }

    /// Why taking `amount` from `from` is refused, if it is. Burns and
    /// transfers share this rule.
    pub open spec fn spend_refusal(self, from: Address, amount: int) -> Option<TokenError> {
        if amount < 0 {
            Some(TokenError::InvalidAmount)
        } else if self.balances[from] < amount {
            Some(TokenError::InsufficientBalance)
        } else {
            None
        }
    }

    /// The ledger after `from` burned `amount`.
    pub open spec fn after_burn(self, from: Address, amount: int) -> LedgerState {
        self.debit(from, amount).issue(-amount)
    }

    /// The ledger after `amount` moved from `from` to `to`.
    pub open spec fn after_transfer(self, from: Address, to: Address, amount: int) -> LedgerState {
        self.debit(from, amount).credit(to, amount)
    }
}

/// Balances that are all zero sum to zero.
pub proof fn lemma_sum_of_nothing(n: nat)
    ensures
        sum_below(Map::total(|a: Address| 0int), n) == 0,
    decreases n,
{
    if n > 0 {
        lemma_sum_of_nothing((n - 1) as nat);
    }
}

/// Changing one balance changes the sum by as much, provided the identity is
/// among those summed.
pub proof fn lemma_sum_after_insert(
    balances: Map<Address, int>,
    account: Address,
    held: int,
    n: nat,
)
    requires
        n <= address_count(),
    ensures
        sum_below(balances.insert(account, held), n) == sum_below(balances, n) + (if account.id
            < n {
            held - balances[account]
        } else {
            0
        }),
    decreases n,
{
    if n > 0 {
        lemma_sum_after_insert(balances, account, held, (n - 1) as nat);
        let last = Address { id: (n - 1) as u64 };
        assert(last.id == n - 1);
        if account.id == n - 1 {
            assert(last == account);
        } else {
            assert(last != account);
        }
    }
}

/// Where no balance is negative, no partial sum is negative.
pub proof fn lemma_sum_nonnegative(balances: Map<Address, int>, n: nat)
    requires
        forall|a: Address| #[trigger] balances[a] >= 0,
    ensures
        sum_below(balances, n) >= 0,
    decreases n,
{
    if n > 0 {
        lemma_sum_nonnegative(balances, (n - 1) as nat);
    }
}

/// Where no balance is negative, no single balance exceeds the sum of all.
pub proof fn lemma_balance_within_sum(balances: Map<Address, int>, account: Address)
    requires
        forall|a: Address| #[trigger] balances[a] >= 0,
    ensures
        balances[account] <= sum_of_balances(balances),
{
    let without = balances.insert(account, 0);
    lemma_sum_after_insert(balances, account, 0, address_count());
    assert forall|a: Address| #[trigger] without[a] >= 0 by {
        assert(balances[a] >= 0);
    }
    lemma_sum_nonnegative(without, address_count());
}

/// Where no balance is negative, no two balances together exceed the sum of
/// all.
pub proof fn lemma_two_balances_within_sum(
    balances: Map<Address, int>,
    first: Address,
    second: Address,
)
    requires
        forall|a: Address| #[trigger] balances[a] >= 0,
        first != second,
    ensures
        balances[first] + balances[second] <= sum_of_balances(balances),
{
    let without = balances.insert(first, 0);
    lemma_sum_after_insert(balances, first, 0, address_count());
    assert forall|a: Address| #[trigger] without[a] >= 0 by {
        assert(balances[a] >= 0);
    }
    lemma_balance_within_sum(without, second);
}

/// The empty ledger conserves value.
pub proof fn lemma_empty_conserved()
    ensures
        LedgerState::empty().conserved(),
{
    lemma_sum_of_nothing(address_count());
}

/// A mint that is not refused keeps the total supply equal to the sum of all
/// balances, and no balance negative.
pub proof fn lemma_mint_conserves(ledger: LedgerState, account: Address, amount: int)
    requires
        ledger.conserved(),
        ledger.mint_refusal(amount) is None,
    ensures
        ledger.after_mint(account, amount).conserved(),
{
    let after = ledger.after_mint(account, amount);
    lemma_sum_after_insert(
        ledger.balances,
        account,
        ledger.balances[account] + amount,
        address_count(),
    );
    assert forall|a: Address| #[trigger] after.balances[a] >= 0 by {
        assert(ledger.balances[a] >= 0);
    }
}

/// A burn that is not refused keeps the total supply equal to the sum of all
/// balances, and no balance negative.
pub proof fn lemma_burn_conserves(ledger: LedgerState, from: Address, amount: int)
    requires
        ledger.conserved(),
        ledger.spend_refusal(from, amount) is None,
    ensures
        ledger.after_burn(from, amount).conserved(),
{
    let after = ledger.after_burn(from, amount);
    lemma_sum_after_insert(
        ledger.balances,
        from,
        ledger.balances[from] - amount,
        address_count(),
    );
    assert forall|a: Address| #[trigger] after.balances[a] >= 0 by {
        assert(ledger.balances[a] >= 0);
    }
}

/// A transfer that is not refused leaves the total supply as it was, equal to
/// the sum of all balances, and no balance negative. This holds of a transfer
/// to oneself too.
pub proof fn lemma_transfer_conserves(
    ledger: LedgerState,
    from: Address,
    to: Address,
    amount: int,
)
    requires
        ledger.conserved(),
        ledger.spend_refusal(from, amount) is None,
    ensures
        ledger.after_transfer(from, to, amount).conserved(),
        ledger.after_transfer(from, to, amount).total_supply == ledger.total_supply,
{
    let between = ledger.debit(from, amount);
    let after = ledger.after_transfer(from, to, amount);
    lemma_sum_after_insert(
        ledger.balances,
        from,
        ledger.balances[from] - amount,
        address_count(),
    );
    lemma_sum_after_insert(
        between.balances,
        to,
        between.balances[to] + amount,
        address_count(),
    );
    assert forall|a: Address| #[trigger] after.balances[a] >= 0 by {
        assert(ledger.balances[a] >= 0);
    }
}

} // verus!
