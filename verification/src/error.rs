//! The ways an operation can be refused.

use vstd::prelude::*;
use crate::address::Address;

verus! {

/// Why an operation was refused. Every refusal ends the invocation and
/// leaves the state untouched.
#[derive(Clone, Copy, Debug, PartialEq, Eq, Structural)]
pub enum TokenError {
    /// The declared caller was not authenticated.
    AuthenticationFailed,
    /// The caller does not hold the role the operation asks for.
    Unauthorized,
    /// The operation is guarded by the pause switch, and the switch is on.
    ContractPaused,
    /// The named address is on the block list.
    AddressBlocked(Address),
    /// The amount is negative.
    InvalidAmount,
    /// The source holds less than the amount.
    InsufficientBalance,
    /// The spender's delegated allowance is less than the amount.
    InsufficientAllowance,
    /// The total supply would leave the 128-bit range.
    Overflow,
    /// The admin identity was already set.
    AlreadyInitialized,
}

} // verus!
