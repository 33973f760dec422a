//! What holds of the token whatever is asked of it.
//!
//! Every operation of the token is stated against the state machine of
//! `state`, so what is proved here of the machine holds of the token.

use vstd::prelude::*;
use crate::address::Address;
use crate::error::TokenError;
use crate::operation::Operation;
use crate::roles::Role;
use crate::state::{Call, TokenState};
use crate::supply::{
    lemma_balance_within_sum, lemma_burn_conserves, lemma_empty_conserved, lemma_mint_conserves,
    lemma_transfer_conserves, sum_of_balances,
};

verus! {

/// Whether the operation is one that the pause switch suspends: a mint, a
/// burn or a transfer, direct or delegated.
pub open spec fn moves_value(op: Operation) -> bool {
    op is Mint || op is Burn || op is BurnFrom || op is Transfer || op is TransferFrom
}

/// Whether the operation is a transfer, direct or delegated, that names
/// `party` as its source or as its destination.
pub open spec fn transfers_through(op: Operation, party: Address) -> bool {
    match op {
        Operation::Transfer { from, to, amount } => from == party || to == party,
        Operation::TransferFrom { spender, from, to, amount } => from == party || to == party,
        _ => false,
    }
}

/// Whether the declared caller was authenticated and holds the role that the
/// operation asks for, if it asks for one.
pub open spec fn caller_admitted(state: TokenState, call: Call) -> bool {
    let guards = call.op.guards();
    &&& call.authenticated.contains(guards.signer)
    &&& guards.role is Some ==> state.roles.holds(guards.role->0, guards.signer)
}

/// A freshly constructed token conserves value: nothing is held, and the
/// total supply is zero.
pub proof fn lemma_initial_state_is_sound(
    admin: Address,
    pauser: Address,
    upgrader: Address,
    minter: Address,
    manager: Address,
)
    ensures
        TokenState::initial(admin, pauser, upgrader, minter, manager).wf(),
        TokenState::initial(admin, pauser, upgrader, minter, manager).roles.admin == Some(admin),
{
    lemma_empty_conserved();
}

/// Conservation, one invocation at a time: whatever is invoked, and whether
/// it is refused or not, the total supply still equals the sum of all
/// balances afterwards, and no balance is negative.
pub proof fn lemma_step_conserves(state: TokenState, call: Call)
    requires
        state.wf(),
    ensures
        state.step(call).wf(),
{
    if state.refusal(call) is None {
        match call.op {
            Operation::Mint { account, amount, caller } => {
                lemma_mint_conserves(state.ledger, account, amount as int);
            },
            Operation::Burn { from, amount } => {
                lemma_burn_conserves(state.ledger, from, amount as int);
            },
            Operation::BurnFrom { spender, from, amount } => {
                lemma_burn_conserves(state.ledger, from, amount as int);
            },
            Operation::Transfer { from, to, amount } => {
                lemma_transfer_conserves(state.ledger, from, to, amount as int);
            },
            Operation::TransferFrom { spender, from, to, amount } => {
                lemma_transfer_conserves(state.ledger, from, to, amount as int);
            },
            _ => {},
        }
    }
}

/// Conservation over any sequence of invocations: after all of them the
/// total supply equals the sum of all balances, no balance is negative, and
/// none exceeds the total supply.
pub proof fn lemma_run_conserves(state: TokenState, calls: Seq<Call>)
    requires
        state.wf(),
    ensures
        state.run(calls).wf(),
        state.run(calls).ledger.total_supply == sum_of_balances(state.run(calls).ledger.balances),
        forall|a: Address|
            0 <= #[trigger] state.run(calls).ledger.balances[a] <= state.run(
                calls,
            ).ledger.total_supply,
    decreases calls.len(),
{
    if calls.len() > 0 {
        lemma_run_conserves(state, calls.drop_last());
        lemma_step_conserves(state.run(calls.drop_last()), calls.last());
    }
    let end = state.run(calls);
    assert forall|a: Address| 0 <= #[trigger] end.ledger.balances[a] <= end.ledger.total_supply by {
        lemma_balance_within_sum(end.ledger.balances, a);
    }
}

/// A transfer, direct or delegated, never changes the total supply.
pub proof fn lemma_transfer_keeps_supply(state: TokenState, call: Call)
    requires
        call.op is Transfer || call.op is TransferFrom,
    ensures
        state.step(call).ledger.total_supply == state.ledger.total_supply,
{
}

/// The admin identity never changes, whatever is invoked.
pub proof fn lemma_admin_is_immutable(state: TokenState, calls: Seq<Call>)
    ensures
        state.run(calls).roles.admin == state.roles.admin,
    decreases calls.len(),
{
    if calls.len() > 0 {
        lemma_admin_is_immutable(state, calls.drop_last());
    }
}

/// While the switch is on, every mint, burn and transfer is refused and
/// changes nothing. The refusal is `ContractPaused` exactly when the declared
/// caller was authenticated and holds the role the operation asks for: a
/// caller who fails one of those two guards is turned away by that guard,
/// which comes first.
pub proof fn lemma_paused_refuses_value_moves(state: TokenState, call: Call)
    requires
        state.paused,
        moves_value(call.op),
    ensures
        state.refusal(call) is Some,
        state.step(call) == state,
        caller_admitted(state, call) <==> state.refusal(call) == Some(TokenError::ContractPaused),
{
}

/// Once the switch is on it stays on until an unpause goes through: no other
/// invocation turns it off.
pub proof fn lemma_pause_lasts(state: TokenState, call: Call)
    requires
        state.paused,
        !(call.op is Unpause && state.refusal(call) is None),
    ensures
        state.step(call).paused,
{
}

/// The same over a sequence of invocations none of which is an unpause: the
/// switch is still on at the end, so every mint, burn and transfer after the
/// sequence is refused.
pub proof fn lemma_pause_lasts_over_run(state: TokenState, calls: Seq<Call>)
    requires
        state.paused,
        forall|i: int| 0 <= i < calls.len() ==> !(#[trigger] calls[i].op is Unpause),
    ensures
        state.run(calls).paused,
    decreases calls.len(),
{
    if calls.len() > 0 {
        let earlier = calls.drop_last();
        assert forall|i: int| 0 <= i < earlier.len() implies !(#[trigger] earlier[i].op
            is Unpause) by {
            assert(earlier[i] == calls[i]);
        }
        lemma_pause_lasts_over_run(state, earlier);
        assert(!(calls[calls.len() - 1].op is Unpause));
        lemma_pause_lasts(state.run(earlier), calls.last());
    }
}

/// A pause that goes through turns the switch on, and an unpause that goes
/// through turns it off.
pub proof fn lemma_pause_and_unpause_take_effect(state: TokenState, call: Call)
    requires
        state.refusal(call) is None,
    ensures
        call.op is Pause ==> state.step(call).paused,
        call.op is Unpause ==> !state.step(call).paused,
{
}

/// Blocking, unblocking, pausing and unpausing do not look at the switch:
/// each is refused with the switch on exactly as with the switch off, and
/// goes through whenever the declared caller was authenticated and holds the
/// role.
pub proof fn lemma_administration_ignores_pause(state: TokenState, call: Call)
    requires
        call.op is BlockUser || call.op is UnblockUser || call.op is Pause || call.op is Unpause,
    ensures
        (TokenState { paused: true, ..state }).refusal(call) == (TokenState {
            paused: false,
            ..state
        }).refusal(call),
        caller_admitted(state, call) <==> state.refusal(call) is None,
{
}

/// A transfer, direct or delegated, that names a blocked address as its
/// source or its destination is refused and changes nothing, whatever the
/// amount, zero included. Where the declared caller was authenticated and
/// the switch is off, the refusal is `AddressBlocked`, naming the source
/// where the source is blocked and the destination otherwise.
pub proof fn lemma_blocked_party_stops_transfers(state: TokenState, party: Address, call: Call)
    requires
        state.blocked.contains(party),
        transfers_through(call.op, party),
    ensures
        state.refusal(call) is Some,
        state.step(call) == state,
        call.authenticated.contains(call.op.guards().signer) && !state.paused ==> state.refusal(
            call,
        ) is Some && state.refusal(call)->0 is AddressBlocked && state.blocked.contains(
            state.refusal(call)->0->AddressBlocked_0,
        ),
{
}

/// A block that goes through puts the address on the list, and it stays
/// there until an unblock of that address goes through.
pub proof fn lemma_block_takes_effect_and_lasts(
    state: TokenState,
    user: Address,
    operator: Address,
    block: Call,
    next: Call,
)
    requires
        block.op == (Operation::BlockUser { user, operator }),
        state.refusal(block) is None,
        !(next.op is UnblockUser && next.op->UnblockUser_user == user && state.step(block).refusal(
            next,
        ) is None),
    ensures
        state.step(block).blocked.contains(user),
        state.step(block).step(next).blocked.contains(user),
{
}

/// A mint on behalf of a caller who does not hold `Minter` is refused and
/// changes nothing. The refusal is `Unauthorized` where the caller was
/// authenticated, and `AuthenticationFailed` where not.
pub proof fn lemma_mint_needs_minter(state: TokenState, call: Call)
    requires
        call.op is Mint,
        !state.roles.holds(Role::Minter, call.op->Mint_caller),
    ensures
        state.step(call) == state,
        state.refusal(call) == Some(
            if call.authenticated.contains(call.op->Mint_caller) {
                TokenError::Unauthorized
            } else {
                TokenError::AuthenticationFailed
            },
        ),
{
}

/// Granting `Minter` and then revoking it leaves the account without the
/// role, so that its mints are refused again.
pub proof fn lemma_revoke_undoes_grant(
    state: TokenState,
    account: Address,
    grant: Call,
    revoke: Call,
    mint: Call,
)
    requires
        grant.op is GrantRole,
        grant.op->GrantRole_role == Role::Minter,
        grant.op->GrantRole_account == account,
        revoke.op is RevokeRole,
        revoke.op->RevokeRole_role == Role::Minter,
        revoke.op->RevokeRole_account == account,
        state.refusal(grant) is None,
        state.step(grant).refusal(revoke) is None,
        mint.op is Mint,
        mint.op->Mint_caller == account,
        mint.authenticated.contains(account),
    ensures
        state.step(grant).roles.holds(Role::Minter, account),
        !state.step(grant).step(revoke).roles.holds(Role::Minter, account),
        state.step(grant).step(revoke).refusal(mint) == Some(TokenError::Unauthorized),
{
}

/// Blocking, unblocking, pausing and unpausing are idempotent: the second
/// of two equal invocations in a row is refused if and only if the first
/// was, and leaves the state that the first left.
pub proof fn lemma_administration_is_idempotent(state: TokenState, call: Call)
    requires
        call.op is BlockUser || call.op is UnblockUser || call.op is Pause || call.op is Unpause,
    ensures
        state.step(call).refusal(call) == state.refusal(call),
        state.step(call).step(call) == state.step(call),
{
    let once = state.step(call);
    let twice = once.step(call);
    assert(twice.blocked =~= once.blocked);
}

/// Granting a role that is held, and revoking one that is not, change
/// nothing.
pub proof fn lemma_grant_and_revoke_are_idempotent(state: TokenState, call: Call)
    requires
        call.op is GrantRole || call.op is RevokeRole,
    ensures
        state.step(call).refusal(call) == state.refusal(call),
        state.step(call).step(call) == state.step(call),
{
    let once = state.step(call);
    let twice = once.step(call);
    assert(twice.roles.members =~= once.roles.members);
}

/// The allowance matters to the two delegated operations alone: every other
/// invocation is refused, or not, whatever the allowance is.
pub proof fn lemma_allowance_matters_to_delegation_only(state: TokenState, call: Call, other: int)
    requires
        !(call.op is BurnFrom || call.op is TransferFrom),
    ensures
        state.refusal(Call { allowance: other, ..call }) == state.refusal(call),
        state.step(Call { allowance: other, ..call }) == state.step(call),
{
}

/// A delegated burn or transfer is refused with `InsufficientAllowance`
/// exactly when every guard passes, the amount is not negative, and the
/// allowance is less than the amount. Where it goes through, what is left of
/// the allowance is not negative.
pub proof fn lemma_delegation_respects_allowance(state: TokenState, call: Call)
    requires
        call.op is BurnFrom || call.op is TransferFrom,
    ensures
        state.refusal(call) == Some(TokenError::InsufficientAllowance) <==> (state.gate_refusal(
            call.op,
            call.authenticated,
        ) is None && 0 <= call.op.amount() && call.allowance < call.op.amount()),
        state.refusal(call) is None ==> 0 <= call.remaining_allowance() <= call.allowance,
{
}

/// The guards come in a fixed order. A caller who was not authenticated
/// learns nothing else: the refusal is `AuthenticationFailed` whatever the
/// roles, the switch, the block list and the balances are.
pub proof fn lemma_authentication_comes_first(state: TokenState, call: Call)
    requires
        !call.authenticated.contains(call.op.guards().signer),
    ensures
        state.refusal(call) == Some(TokenError::AuthenticationFailed),
{
}

} // verus!
