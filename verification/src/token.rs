//! The public surface of the token: every operation passes its guards, in
//! order, before it changes anything.

use vstd::prelude::*;
use crate::address::Address;
use crate::auth::Authentication;
use crate::blocklist::BlockList;
use crate::error::TokenError;
use crate::ledger::Ledger;
use crate::operation::Operation;
use crate::pause::PauseSwitch;
use crate::roles::{Role, RoleRegistry};
use crate::state::{Call, TokenState};

verus! {

/// The token: role registry, pause switch, block list and ledger, owned
/// together and changed only through the operations below.
pub struct IDRX {
    roles: RoleRegistry,
    switch: PauseSwitch,
    blocklist: BlockList,
    ledger: Ledger,
}

impl View for IDRX {
    type V = TokenState;

    closed spec fn view(&self) -> TokenState {
        TokenState {
            roles: self.roles@,
            paused: self.switch@,
            blocked: self.blocklist@,
            ledger: self.ledger@,
        }
    }
}

/// The invocation of `op` with what the two collaborators reported.
pub open spec fn call_of(op: Operation, auth: &Authentication, allowance: int) -> Call {
    Call { op, authenticated: auth@, allowance }
}

impl IDRX {
    /// The admin is set, the total supply equals the sum of all balances,
    /// and no balance is negative.
    pub open spec fn wf(&self) -> bool {
        self@.wf()
    }

    /// What every operation without a result of its own promises: it is
    /// refused exactly when the state machine refuses it, with that error and
    /// no change; else it succeeds and leaves the state the machine gives.
    pub open spec fn performed(
        before: TokenState,
        after: TokenState,
        call: Call,
        res: Result<(), TokenError>,
    ) -> bool {
        match before.refusal(call) {
            Some(refusal) => res == Err::<(), TokenError>(refusal) && after == before,
            None => res == Ok::<(), TokenError>(()) && after == before.after(call.op),
        }
    }

    /// The same promise for an operation that spends a delegated allowance:
    /// where it succeeds, its result is the allowance that is left.
    pub open spec fn performed_delegated(
        before: TokenState,
        after: TokenState,
        call: Call,
        res: Result<i128, TokenError>,
    ) -> bool {
        match before.refusal(call) {
            Some(refusal) => res == Err::<i128, TokenError>(refusal) && after == before,
            None => res is Ok && res->Ok_0 == call.remaining_allowance() && after == before.after(
                call.op,
            ),
        }
    }

    /// Sets up the token: `admin` becomes the admin identity, and each of the
    /// four roles is granted to the address given for it. No caller is
    /// authenticated: construction is trusted.
    pub fn init(
        admin: Address,
        pauser: Address,
        upgrader: Address,
        minter: Address,
        manager: Address,
    ) -> (token: IDRX)
        ensures
            token.wf(),
            token@ == TokenState::initial(admin, pauser, upgrader, minter, manager),
    {
        let mut roles = RoleRegistry::new();
        let _ = roles.set_admin(admin);
        let _ = roles.grant(Role::Pauser, pauser);
        let _ = roles.grant(Role::Upgrader, upgrader);
        let _ = roles.grant(Role::Minter, minter);
        let _ = roles.grant(Role::Manager, manager);
        IDRX {
            roles,
            switch: PauseSwitch::new(),
            blocklist: BlockList::new(),
            ledger: Ledger::new(),
        }
    }

    /// Puts a token together from its four stores, as when a state that was
    /// kept elsewhere is taken up again. The registry must have its admin.
    pub fn from_parts(
        roles: RoleRegistry,
        switch: PauseSwitch,
        blocklist: BlockList,
        ledger: Ledger,
    )
        -> (token: IDRX)
        requires
            roles@.admin is Some,
            ledger.wf(),
        ensures
            token.wf(),
            token@ == (TokenState {
                roles: roles@,
                paused: switch@,
                blocked: blocklist@,
                ledger: ledger@,
            }),
    {
        IDRX { roles, switch, blocklist, ledger }
    }

    /// The number of decimal places in which amounts are shown: 18.
    pub fn decimals(&self) -> (places: u32)
        ensures
            places == 18,
    {
        18
    }

    /// The name of the token: "IDRX".
    pub fn name(&self) -> (name: &'static str)
        ensures
            name@ == "IDRX"@,
    {
        "IDRX"
    }

    /// The symbol of the token: "IDRX".
    pub fn symbol(&self) -> (symbol: &'static str)
        ensures
            symbol@ == "IDRX"@,
    {
        "IDRX"
    }

    /// Tries the guards of `op` in order and stops at the first that fails:
    /// authentication of the declared caller, then the role, then the pause
    /// switch, then the block list for the source and for the destination.
    pub fn authorize(&self, op: &Operation, auth: &Authentication) -> (res: Result<(), TokenError>)
        ensures
            res == (match self@.gate_refusal(*op, auth@) {
                Some(refusal) => Err::<(), TokenError>(refusal),
                None => Ok::<(), TokenError>(()),
            }),
    {
        let guards = op.guard_set();
        if !auth.covers(guards.signer) {
            return Err(TokenError::AuthenticationFailed);
        }
        if let Some(role) = guards.role {
            if !self.roles.has_role(role, guards.signer) {
                return Err(TokenError::Unauthorized);
            }
        }
        if guards.when_not_paused && self.switch.paused() {
            return Err(TokenError::ContractPaused);
        }
        if let Some((from, to)) = guards.parties {
            if self.blocklist.blocked(from) {
                return Err(TokenError::AddressBlocked(from));
            }
            if self.blocklist.blocked(to) {
                return Err(TokenError::AddressBlocked(to));
            }
        }
        Ok(())
    }

    /// Mints `amount` to `account` on behalf of `caller`, who must be
    /// authenticated and hold `Minter`, while the switch is off.
    pub fn mint(&mut self, account: Address, amount: i128, caller: Address, auth: &Authentication)
        -> (res: Result<(), TokenError>)
        requires
            old(self).wf(),
        ensures
            final(self).wf(),
            IDRX::performed(
                old(self)@,
                final(self)@,
                call_of(Operation::Mint { account, amount, caller }, auth, 0),
                res,
            ),
    {
        let op = Operation::Mint { account, amount, caller };
        match self.authorize(&op, auth) {
            Err(refusal) => Err(refusal),
            Ok(()) => self.ledger.mint(account, amount),
        }
    }

    /// Burns `amount` of what `from` holds. `from` must be authenticated,
    /// and the switch off.
    pub fn burn(
        &mut self,
        from: Address,
        amount: i128,
        auth: &Authentication,
    ) -> (res: Result<(), TokenError>)
        requires
            old(self).wf(),
        ensures
            final(self).wf(),
            IDRX::performed(
                old(self)@,
                final(self)@,
                call_of(Operation::Burn { from, amount }, auth, 0),
                res,
            ),
    {
        let op = Operation::Burn { from, amount };
        match self.authorize(&op, auth) {
            Err(refusal) => Err(refusal),
            Ok(()) => self.ledger.burn(from, amount),
        }
    }

    /// Burns `amount` of what `from` holds, on behalf of `spender`, who must
    /// be authenticated, while the switch is off. `allowance` is what `from`
    /// has delegated to `spender`, as the allowance subsystem reports it; the
    /// result is what is left of it.
    pub fn burn_from(
        &mut self,
        spender: Address,
        from: Address,
        amount: i128,
        allowance: i128,
        auth: &Authentication,
    ) -> (res: Result<i128, TokenError>)
        requires
            old(self).wf(),
        ensures
            final(self).wf(),
            IDRX::performed_delegated(
                old(self)@,
                final(self)@,
                call_of(Operation::BurnFrom { spender, from, amount }, auth, allowance as int),
                res,
            ),
    {
        let op = Operation::BurnFrom { spender, from, amount };
        match self.authorize(&op, auth) {
            Err(refusal) => {
                return Err(refusal);
            },
            Ok(()) => {},
        }
        if amount < 0 {
            return Err(TokenError::InvalidAmount);
        }
        if allowance < amount {
            return Err(TokenError::InsufficientAllowance);
        }
        match self.ledger.burn(from, amount) {
            Err(refusal) => Err(refusal),
            Ok(()) => Ok(allowance - amount),
        }
    }

    /// Moves `amount` from `from` to `to`. `from` must be authenticated, the
    /// switch off, and neither address blocked.
    pub fn transfer(&mut self, from: Address, to: Address, amount: i128, auth: &Authentication)
        -> (res: Result<(), TokenError>)
        requires
            old(self).wf(),
        ensures
            final(self).wf(),
            IDRX::performed(
                old(self)@,
                final(self)@,
                call_of(Operation::Transfer { from, to, amount }, auth, 0),
                res,
            ),
    {
        let op = Operation::Transfer { from, to, amount };
        match self.authorize(&op, auth) {
            Err(refusal) => Err(refusal),
            Ok(()) => self.ledger.transfer(from, to, amount),
        }
    }

    /// Moves `amount` from `from` to `to` on behalf of `spender`, who must be
    /// authenticated, while the switch is off and neither `from` nor `to` is
    /// blocked. `allowance` is what `from` has delegated to `spender`, as the
    /// allowance subsystem reports it; the result is what is left of it.
    pub fn transfer_from(
        &mut self,
        spender: Address,
        from: Address,
        to: Address,
        amount: i128,
        allowance: i128,
        auth: &Authentication,
    ) -> (res: Result<i128, TokenError>)
        requires
            old(self).wf(),
        ensures
            final(self).wf(),
            IDRX::performed_delegated(
                old(self)@,
                final(self)@,
                call_of(
                    Operation::TransferFrom { spender, from, to, amount },
                    auth,
                    allowance as int,
                ),
                res,
            ),
    {
        let op = Operation::TransferFrom { spender, from, to, amount };
        match self.authorize(&op, auth) {
            Err(refusal) => {
                return Err(refusal);
            },
            Ok(()) => {},
        }
        if amount < 0 {
            return Err(TokenError::InvalidAmount);
        }
        if allowance < amount {
            return Err(TokenError::InsufficientAllowance);
        }
        match self.ledger.transfer(from, to, amount) {
            Err(refusal) => Err(refusal),
            Ok(()) => Ok(allowance - amount),
        }
    }

    /// Blocks `user`, on behalf of `operator`, who must be authenticated and
    /// hold `Manager`. Blocking a blocked address succeeds and changes
    /// nothing.
    pub fn block_user(
        &mut self,
        user: Address,
        operator: Address,
        auth: &Authentication,
    ) -> (res: Result<(), TokenError>)
        requires
            old(self).wf(),
        ensures
            final(self).wf(),
            IDRX::performed(
                old(self)@,
                final(self)@,
                call_of(Operation::BlockUser { user, operator }, auth, 0),
                res,
            ),
    {
        let op = Operation::BlockUser { user, operator };
        match self.authorize(&op, auth) {
            Err(refusal) => Err(refusal),
            Ok(()) => {
                self.blocklist.block_user(user);
                Ok(())
            },
        }
    }

    /// Unblocks `user`, on behalf of `operator`, who must be authenticated
    /// and hold `Manager`. Unblocking an address that is not blocked succeeds
    /// and changes nothing.
    pub fn unblock_user(
        &mut self,
        user: Address,
        operator: Address,
        auth: &Authentication,
    ) -> (res: Result<(), TokenError>)
        requires
            old(self).wf(),
        ensures
            final(self).wf(),
            IDRX::performed(
                old(self)@,
                final(self)@,
                call_of(Operation::UnblockUser { user, operator }, auth, 0),
                res,
            ),
    {
        let op = Operation::UnblockUser { user, operator };
        match self.authorize(&op, auth) {
            Err(refusal) => Err(refusal),
            Ok(()) => {
                self.blocklist.unblock_user(user);
                Ok(())
            },
        }
    }

    /// Turns the pause switch on, on behalf of `caller`, who must be
    /// authenticated and hold `Pauser`. Pausing while paused succeeds and
    /// changes nothing.
    pub fn pause(&mut self, caller: Address, auth: &Authentication) -> (res: Result<(), TokenError>)
        requires
            old(self).wf(),
        ensures
            final(self).wf(),
            IDRX::performed(
                old(self)@,
                final(self)@,
                call_of(Operation::Pause { caller }, auth, 0),
                res,
            ),
    {
        let op = Operation::Pause { caller };
        match self.authorize(&op, auth) {
            Err(refusal) => Err(refusal),
            Ok(()) => {
                self.switch.pause();
                Ok(())
            },
        }
    }

    /// Turns the pause switch off, on behalf of `caller`, who must be
    /// authenticated and hold `Pauser`. Unpausing while not paused succeeds
    /// and changes nothing.
    pub fn unpause(
        &mut self,
        caller: Address,
        auth: &Authentication,
    ) -> (res: Result<(), TokenError>)
        requires
            old(self).wf(),
        ensures
            final(self).wf(),
            IDRX::performed(
                old(self)@,
                final(self)@,
                call_of(Operation::Unpause { caller }, auth, 0),
                res,
            ),
    {
        let op = Operation::Unpause { caller };
        match self.authorize(&op, auth) {
            Err(refusal) => Err(refusal),
            Ok(()) => {
                self.switch.unpause();
                Ok(())
            },
        }
    }

    /// Approves a replacement of the code on behalf of `operator`, who must
    /// be authenticated and hold `Upgrader`. Nothing in the state changes.
    pub fn authorize_upgrade(
        &self,
        operator: Address,
        auth: &Authentication,
    ) -> (res: Result<(), TokenError>)
        ensures
            res == (match self@.refusal(
                call_of(Operation::AuthorizeUpgrade { operator }, auth, 0),
            ) {
                Some(refusal) => Err::<(), TokenError>(refusal),
                None => Ok::<(), TokenError>(()),
            }),
    {
        let op = Operation::AuthorizeUpgrade { operator };
        self.authorize(&op, auth)
    }

    /// Grants `role` to `account` on behalf of `caller`, who must be
    /// authenticated and be the admin. Granting a role that is already held
    /// succeeds and changes nothing; `Admin` itself is never granted.
    pub fn grant_role(
        &mut self,
        role: Role,
        account: Address,
        caller: Address,
        auth: &Authentication,
    ) -> (res: Result<(), TokenError>)
        requires
            old(self).wf(),
        ensures
            final(self).wf(),
            IDRX::performed(
                old(self)@,
                final(self)@,
                call_of(Operation::GrantRole { role, account, caller }, auth, 0),
                res,
            ),
    {
        let op = Operation::GrantRole { role, account, caller };
        match self.authorize(&op, auth) {
            Err(refusal) => Err(refusal),
            Ok(()) => self.roles.grant(role, account),
        }
    }

    /// Takes `role` from `account` on behalf of `caller`, who must be
    /// authenticated and be the admin. Revoking a role that is not held
    /// succeeds and changes nothing; `Admin` itself is never revoked.
    pub fn revoke_role(
        &mut self,
        role: Role,
        account: Address,
        caller: Address,
        auth: &Authentication,
    ) -> (res: Result<(), TokenError>)
        requires
            old(self).wf(),
        ensures
            final(self).wf(),
            IDRX::performed(
                old(self)@,
                final(self)@,
                call_of(Operation::RevokeRole { role, account, caller }, auth, 0),
                res,
            ),
    {
        let op = Operation::RevokeRole { role, account, caller };
        match self.authorize(&op, auth) {
            Err(refusal) => Err(refusal),
            Ok(()) => self.roles.revoke(role, account),
        }
    }

    /// What `account` holds.
    pub fn balance(&self, account: Address) -> (held: i128)
        ensures
            held == self@.ledger.balances[account],
    {
        self.ledger.balance(account)
    }

    /// The total supply.
    pub fn total_supply(&self) -> (total: i128)
        ensures
            total == self@.ledger.total_supply,
    {
        self.ledger.total_supply()
    }

    /// Whether the pause switch is on.
    pub fn paused(&self) -> (on: bool)
        ensures
            on == self@.paused,
    {
        self.switch.paused()
    }

    /// Whether `account` is blocked.
    pub fn blocked(&self, account: Address) -> (listed: bool)
        ensures
            listed == self@.blocked.contains(account),
    {
        self.blocklist.blocked(account)
    }

    /// Whether `account` holds `role`.
    pub fn has_role(&self, role: Role, account: Address) -> (held: bool)
        ensures
            held == self@.roles.holds(role, account),
    {
        self.roles.has_role(role, account)
    }

    /// The admin identity, as it was set at construction.
    pub fn admin(&self) -> (admin: Option<Address>)
        ensures
            admin == self@.roles.admin,
    {
        self.roles.admin()
    }
}

} // verus!
