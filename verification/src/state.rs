//! The token as a state machine: what the state is, when an operation is
//! refused, and what an accepted operation leaves behind.

use vstd::prelude::*;
use crate::address::Address;
use crate::error::TokenError;
use crate::operation::Operation;
use crate::roles::{Role, RoleState};
use crate::supply::LedgerState;

verus! {

/// The whole state of the token.
pub struct TokenState {
    pub roles: RoleState,
    pub paused: bool,
    pub blocked: Set<Address>,
    pub ledger: LedgerState,
}

/// One invocation: the operation, the identities that the authentication
/// oracle vouched for, and the allowance that the source has delegated to the
/// spender, as the allowance subsystem reports it. The allowance matters to
/// `BurnFrom` and `TransferFrom` alone.
pub struct Call {
    pub op: Operation,
    pub authenticated: Set<Address>,
    pub allowance: int,
}

/// Why spending `amount` of somebody else's funds is refused, if it is: the
/// amount is tried first, then the allowance, then the balance.
pub open spec fn delegated_refusal(ledger: LedgerState, from: Address, amount: int, allowance: int)
    -> Option<TokenError> {
    if amount < 0 {
        Some(TokenError::InvalidAmount)
    } else if allowance < amount {
        Some(TokenError::InsufficientAllowance)
    } else {
        ledger.spend_refusal(from, amount)
    }
}

/// The blocked address among the two parties of a movement, if one is
/// blocked: the source is looked at before the destination.
pub open spec fn blocked_party(blocked: Set<Address>, parties: Option<(Address, Address)>)
    -> Option<TokenError> {
    match parties {
        Some((from, to)) => if blocked.contains(from) {
            Some(TokenError::AddressBlocked(from))
        } else if blocked.contains(to) {
            Some(TokenError::AddressBlocked(to))
        } else {
            None
        },
        None => None,
    }
}

impl Call {
    /// The allowance that is left once the invocation has gone through:
    /// `BurnFrom` and `TransferFrom` use up the amount they move, and no
    /// other operation touches it.
    pub open spec fn remaining_allowance(self) -> int {
        if self.op is BurnFrom || self.op is TransferFrom {
            self.allowance - self.op.amount()
        } else {
            self.allowance
        }
    }
}

impl TokenState {
    /// The state right after construction: the admin set, each of the four
    /// roles granted once, the switch off, nobody blocked, nothing minted.
    pub open spec fn initial(
        admin: Address,
        pauser: Address,
        upgrader: Address,
        minter: Address,
        manager: Address,
    ) -> TokenState {
        TokenState {
            roles: RoleState::empty().with_admin(admin).granted(Role::Pauser, pauser).granted(
                Role::Upgrader,
                upgrader,
            ).granted(Role::Minter, minter).granted(Role::Manager, manager),
            paused: false,
            blocked: Set::empty(),
            ledger: LedgerState::empty(),
        }
    }

    /// The admin is set, and the ledger conserves value.
    pub open spec fn wf(self) -> bool {
        &&& self.roles.admin is Some
        &&& self.ledger.conserved()
    }

    /// The first guard that refuses `op`, if one does. The guards are tried
    /// in a fixed order: authentication, role, pause switch, block list
    /// (source before destination).
    pub open spec fn gate_refusal(
        self,
        op: Operation,
        authenticated: Set<Address>,
    ) -> Option<TokenError> {
        let guards = op.guards();
        if !authenticated.contains(guards.signer) {
            Some(TokenError::AuthenticationFailed)
        } else if guards.role is Some && !self.roles.holds(guards.role->0, guards.signer) {
            Some(TokenError::Unauthorized)
        } else if guards.when_not_paused && self.paused {
            Some(TokenError::ContractPaused)
        } else {
            blocked_party(self.blocked, guards.parties)
        }
    }

    /// Why `op` is refused once every guard has passed, if it is.
    pub open spec fn mutation_refusal(self, op: Operation, allowance: int) -> Option<TokenError> {
        match op {
            Operation::Mint { account, amount, caller } => self.ledger.mint_refusal(amount as int),
            Operation::Burn { from, amount } => self.ledger.spend_refusal(from, amount as int),
            Operation::BurnFrom { spender, from, amount } => delegated_refusal(
                self.ledger,
                from,
                amount as int,
                allowance,
            ),
            Operation::Transfer { from, to, amount } => self.ledger.spend_refusal(
                from,
                amount as int,
            ),
            Operation::TransferFrom { spender, from, to, amount } => delegated_refusal(
                self.ledger,
                from,
                amount as int,
                allowance,
            ),
            Operation::GrantRole { role, account, caller } => if role == Role::Admin {
                Some(TokenError::Unauthorized)
            } else {
                None
            },
            Operation::RevokeRole { role, account, caller } => if role == Role::Admin {
                Some(TokenError::Unauthorized)
            } else {
                None
            },
            _ => None,
        }
    }

    /// Why the invocation is refused, if it is: by a guard, or else by the
    /// operation itself.
    pub open spec fn refusal(self, call: Call) -> Option<TokenError> {
        match self.gate_refusal(call.op, call.authenticated) {
            Some(refusal) => Some(refusal),
            None => self.mutation_refusal(call.op, call.allowance),
        }
    }

    /// The state that `op` leaves behind where it is not refused.
    pub open spec fn after(self, op: Operation) -> TokenState {
        match op {
            Operation::Mint { account, amount, caller } => TokenState {
                ledger: self.ledger.after_mint(account, amount as int),
                ..self
            },
            Operation::Burn { from, amount } => TokenState {
                ledger: self.ledger.after_burn(from, amount as int),
                ..self
            },
            Operation::BurnFrom { spender, from, amount } => TokenState {
                ledger: self.ledger.after_burn(from, amount as int),
                ..self
            },
            Operation::Transfer { from, to, amount } => TokenState {
                ledger: self.ledger.after_transfer(from, to, amount as int),
                ..self
            },
            Operation::TransferFrom { spender, from, to, amount } => TokenState {
                ledger: self.ledger.after_transfer(from, to, amount as int),
                ..self
            },
            Operation::BlockUser { user, operator } => TokenState {
                blocked: self.blocked.insert(user),
                ..self
            },
            Operation::UnblockUser { user, operator } => TokenState {
                blocked: self.blocked.remove(user),
                ..self
            },
            Operation::Pause { caller } => TokenState { paused: true, ..self },
            Operation::Unpause { caller } => TokenState { paused: false, ..self },
            Operation::AuthorizeUpgrade { operator } => self,
            Operation::GrantRole { role, account, caller } => TokenState {
                roles: self.roles.granted(role, account),
                ..self
            },
            Operation::RevokeRole { role, account, caller } => TokenState {
                roles: self.roles.revoked(role, account),
                ..self
            },
        }
    }

    /// The state after one invocation: a refused one changes nothing.
    pub open spec fn step(self, call: Call) -> TokenState {
        if self.refusal(call) is None {
            self.after(call.op)
        } else {
            self
        }
    }

    /// The state after a sequence of invocations, each applied to what the
    /// one before it left.
    pub open spec fn run(self, calls: Seq<Call>) -> TokenState
        decreases calls.len(),
    {
        if calls.len() == 0 {
            self
        } else {
            self.run(calls.drop_last()).step(calls.last())
        }
    }
}

} // verus!
