//! The operations of the ledger, and the guards each one must pass.

use vstd::prelude::*;
use crate::address::Address;
use crate::roles::Role;

verus! {

/// A mutating operation, or the approval of an upgrade, with its arguments.
#[derive(Clone, Copy, Debug, PartialEq, Eq, Structural)]
pub enum Operation {
    Mint { account: Address, amount: i128, caller: Address },
    Burn { from: Address, amount: i128 },
    BurnFrom { spender: Address, from: Address, amount: i128 },
    Transfer { from: Address, to: Address, amount: i128 },
    TransferFrom { spender: Address, from: Address, to: Address, amount: i128 },
    BlockUser { user: Address, operator: Address },
    UnblockUser { user: Address, operator: Address },
    Pause { caller: Address },
    Unpause { caller: Address },
    AuthorizeUpgrade { operator: Address },
    GrantRole { role: Role, account: Address, caller: Address },
    RevokeRole { role: Role, account: Address, caller: Address },
}

/// The guards of one operation, in the order in which they are tried.
#[derive(Clone, Copy, Debug, PartialEq, Eq)]
pub struct Guards {
    /// Who must have been authenticated.
    pub signer: Address,
    /// The role that the signer must hold, if the operation asks for one.
    pub role: Option<Role>,
    /// Whether the operation is refused while the pause switch is on.
    pub when_not_paused: bool,
    /// The source and the destination that must not be blocked, where the
    /// operation moves value between two addresses.
    pub parties: Option<(Address, Address)>,
}

impl Operation {
    /// The amount that the operation creates, destroys or moves; zero for an
    /// operation that does none of these.
    pub open spec fn amount(self) -> int {
        match self {
            Operation::Mint { account, amount, caller } => amount as int,
            Operation::Burn { from, amount } => amount as int,
            Operation::BurnFrom { spender, from, amount } => amount as int,
            Operation::Transfer { from, to, amount } => amount as int,
            Operation::TransferFrom { spender, from, to, amount } => amount as int,
            _ => 0,
        }
    }

    /// Who must authenticate, which role they must hold, whether the pause
    /// switch applies, and which addresses must not be blocked.
    pub open spec fn guards(self) -> Guards {
        match self {
            Operation::Mint { account, amount, caller } => Guards {
                signer: caller,
                role: Some(Role::Minter),
                when_not_paused: true,
                parties: None,
            },
            Operation::Burn { from, amount } => Guards {
                signer: from,
                role: None,
                when_not_paused: true,
                parties: None,
            },
            Operation::BurnFrom { spender, from, amount } => Guards {
                signer: spender,
                role: None,
                when_not_paused: true,
                parties: None,
            },
            Operation::Transfer { from, to, amount } => Guards {
                signer: from,
                role: None,
                when_not_paused: true,
                parties: Some((from, to)),
            },
            Operation::TransferFrom { spender, from, to, amount } => Guards {
                signer: spender,
                role: None,
                when_not_paused: true,
                parties: Some((from, to)),
            },
            Operation::BlockUser { user, operator } => Guards {
                signer: operator,
                role: Some(Role::Manager),
                when_not_paused: false,
                parties: None,
            },
            Operation::UnblockUser { user, operator } => Guards {
                signer: operator,
                role: Some(Role::Manager),
                when_not_paused: false,
                parties: None,
            },
            Operation::Pause { caller } => Guards {
                signer: caller,
                role: Some(Role::Pauser),
                when_not_paused: false,
                parties: None,
            },
            Operation::Unpause { caller } => Guards {
                signer: caller,
                role: Some(Role::Pauser),
                when_not_paused: false,
                parties: None,
            },
            Operation::AuthorizeUpgrade { operator } => Guards {
                signer: operator,
                role: Some(Role::Upgrader),
                when_not_paused: false,
                parties: None,
            },
            Operation::GrantRole { role, account, caller } => Guards {
                signer: caller,
                role: Some(Role::Admin),
                when_not_paused: false,
                parties: None,
            },
            Operation::RevokeRole { role, account, caller } => Guards {
                signer: caller,
                role: Some(Role::Admin),
                when_not_paused: false,
                parties: None,
            },
        }
    }

    /// The guards of this operation.
    pub fn guard_set(&self) -> (guards: Guards)
        ensures
            guards == self.guards(),
    {
        match *self {
            Operation::Mint { account: _, amount: _, caller } => Guards {
                signer: caller,
                role: Some(Role::Minter),
                when_not_paused: true,
                parties: None,
            },
            Operation::Burn { from, amount: _ } => Guards {
                signer: from,
                role: None,
                when_not_paused: true,
                parties: None,
            },
            Operation::BurnFrom { spender, from: _, amount: _ } => Guards {
                signer: spender,
                role: None,
                when_not_paused: true,
                parties: None,
            },
            Operation::Transfer { from, to, amount: _ } => Guards {
                signer: from,
                role: None,
                when_not_paused: true,
                parties: Some((from, to)),
            },
            Operation::TransferFrom { spender, from, to, amount: _ } => Guards {
                signer: spender,
                role: None,
                when_not_paused: true,
                parties: Some((from, to)),
            },
            Operation::BlockUser { user: _, operator } => Guards {
                signer: operator,
                role: Some(Role::Manager),
                when_not_paused: false,
                parties: None,
            },
            Operation::UnblockUser { user: _, operator } => Guards {
                signer: operator,
                role: Some(Role::Manager),
                when_not_paused: false,
                parties: None,
            },
            Operation::Pause { caller } => Guards {
                signer: caller,
                role: Some(Role::Pauser),
                when_not_paused: false,
                parties: None,
            },
            Operation::Unpause { caller } => Guards {
                signer: caller,
                role: Some(Role::Pauser),
                when_not_paused: false,
                parties: None,
            },
            Operation::AuthorizeUpgrade { operator } => Guards {
                signer: operator,
                role: Some(Role::Upgrader),
                when_not_paused: false,
                parties: None,
            },
            Operation::GrantRole { role: _, account: _, caller } => Guards {
                signer: caller,
                role: Some(Role::Admin),
                when_not_paused: false,
                parties: None,
            },
            Operation::RevokeRole { role: _, account: _, caller } => Guards {
                signer: caller,
                role: Some(Role::Admin),
                when_not_paused: false,
                parties: None,
            },
        }
    }
}

} // verus!
