//! Who may do what: the admin identity and the role memberships.

use vstd::prelude::*;
use std::collections::HashSet;
use crate::address::Address;
use crate::error::TokenError;

verus! {

broadcast use vstd::std_specs::hash::group_hash_axioms;

/// A named capability. The set is closed.
#[derive(Clone, Copy, Debug, PartialEq, Eq, Structural, Hash)]
pub enum Role {
    /// Grants and revokes the other roles. Held by the admin identity alone.
    Admin,
    /// Switches the pause on and off.
    Pauser,
    /// Approves a replacement of the code.
    Upgrader,
    /// Mints.
    Minter,
    /// Blocks and unblocks addresses.
    Manager,
}

/// What a role registry is: the admin identity, once set, and the pairs of
/// role and identity that were granted.
pub struct RoleState {
    pub admin: Option<Address>,
    pub members: Set<(Role, Address)>,
}

impl RoleState {
    /// The registry before anything was set or granted.
    pub open spec fn empty() -> RoleState {
        RoleState { admin: None, members: Set::empty() }
    }

    /// Whether `account` holds `role`. The admin identity holds `Admin`, and
    /// nobody else does.
    pub open spec fn holds(self, role: Role, account: Address) -> bool {
        match role {
            Role::Admin => self.admin == Some(account),
            _ => self.members.contains((role, account)),
        }
    }

    /// The registry with `admin` as the admin identity.
    pub open spec fn with_admin(self, admin: Address) -> RoleState {
        RoleState { admin: Some(admin), members: self.members }
    }

    /// The registry after `role` was granted to `account`.
    pub open spec fn granted(self, role: Role, account: Address) -> RoleState {
        RoleState { admin: self.admin, members: self.members.insert((role, account)) }
    }

    /// The registry after `role` was taken from `account`.
    pub open spec fn revoked(self, role: Role, account: Address) -> RoleState {
        RoleState { admin: self.admin, members: self.members.remove((role, account)) }
    }
}

/// The admin identity and the role memberships.
pub struct RoleRegistry {
    admin: Option<Address>,
    pausers: HashSet<u64>,
    upgraders: HashSet<u64>,
    minters: HashSet<u64>,
    managers: HashSet<u64>,
}

impl View for RoleRegistry {
    type V = RoleState;

    closed spec fn view(&self) -> RoleState {
        RoleState {
            admin: self.admin,
            members: Set::new(
                |pair: (Role, Address)|
                    match pair.0 {
                        Role::Admin => false,
                        Role::Pauser => self.pausers@.contains(pair.1.id),
                        Role::Upgrader => self.upgraders@.contains(pair.1.id),
                        Role::Minter => self.minters@.contains(pair.1.id),
                        Role::Manager => self.managers@.contains(pair.1.id),
                    },
            ),
        }
    }
}

impl RoleRegistry {
    /// A registry with no admin and no memberships.
    pub fn new() -> (registry: RoleRegistry)
        ensures
            registry@ == RoleState::empty(),
    {
        let registry = RoleRegistry {
            admin: None,
            pausers: HashSet::new(),
            upgraders: HashSet::new(),
            minters: HashSet::new(),
            managers: HashSet::new(),
        };
        proof {
            assert(registry@.members =~= RoleState::empty().members);
        }
        registry
    }

    /// The admin identity, once it was set.
    pub fn admin(&self) -> (admin: Option<Address>)
        ensures
            admin == self@.admin,
    {
        self.admin
    }

    /// Sets the admin identity. It can be set once: a second call is refused
    /// with `AlreadyInitialized` and changes nothing.
    pub fn set_admin(&mut self, admin: Address) -> (res: Result<(), TokenError>)
        ensures
            old(self)@.admin is Some ==>
                res == Err::<(), TokenError>(TokenError::AlreadyInitialized),
            old(self)@.admin is Some ==> final(self)@ == old(self)@,
            old(self)@.admin is None ==> res == Ok::<(), TokenError>(()),
            old(self)@.admin is None ==> final(self)@ == old(self)@.with_admin(admin),
    {
        if self.admin.is_some() {
            return Err(TokenError::AlreadyInitialized);
        }
        self.admin = Some(admin);
        proof {
            assert(self@.members =~= old(self)@.members);
        }
        Ok(())
    }

    /// Whether `account` holds `role`.
    pub fn has_role(&self, role: Role, account: Address) -> (held: bool)
        ensures
            held == self@.holds(role, account),
    {
        match role {
            Role::Admin => match self.admin {
                Some(admin) => admin == account,
                None => false,
            },
            Role::Pauser => self.pausers.contains(&account.id),
            Role::Upgrader => self.upgraders.contains(&account.id),
            Role::Minter => self.minters.contains(&account.id),
            Role::Manager => self.managers.contains(&account.id),
        }
    }

    /// Passes where `account` holds `role`, and is `Unauthorized` where not.
    pub fn require_role(&self, role: Role, account: Address) -> (res: Result<(), TokenError>)
        ensures
            res == (if self@.holds(role, account) {
                Ok::<(), TokenError>(())
            } else {
                Err::<(), TokenError>(TokenError::Unauthorized)
            }),
    {
        if self.has_role(role, account) {
            Ok(())
        } else {
            Err(TokenError::Unauthorized)
        }
    }

    /// Grants `role` to `account`; granting a role that is already held
    /// changes nothing. `Admin` is never granted: the admin identity is set
    /// once and stays, so that request is refused with `Unauthorized`.
    ///
    /// This is the registry's own operation and asks for no caller: the
    /// facade decides who may reach it.
    pub fn grant(&mut self, role: Role, account: Address) -> (res: Result<(), TokenError>)
        ensures
            role == Role::Admin ==> res == Err::<(), TokenError>(TokenError::Unauthorized),
            role == Role::Admin ==> final(self)@ == old(self)@,
            role != Role::Admin ==> res == Ok::<(), TokenError>(()),
            role != Role::Admin ==> final(self)@ == old(self)@.granted(role, account),
    {
        match role {
            Role::Admin => {
                return Err(TokenError::Unauthorized);
            },
            Role::Pauser => {
                self.pausers.insert(account.id);
            },
            Role::Upgrader => {
                self.upgraders.insert(account.id);
            },
            Role::Minter => {
                self.minters.insert(account.id);
            },
            Role::Manager => {
                self.managers.insert(account.id);
            },
        }
        proof {
            assert(self@.members =~= old(self)@.granted(role, account).members);
        }
        Ok(())
    }

    /// Takes `role` from `account`; revoking a role that is not held changes
    /// nothing. `Admin` is never revoked: that request is refused with
    /// `Unauthorized`.
    pub fn revoke(&mut self, role: Role, account: Address) -> (res: Result<(), TokenError>)
        ensures
            role == Role::Admin ==> res == Err::<(), TokenError>(TokenError::Unauthorized),
            role == Role::Admin ==> final(self)@ == old(self)@,
            role != Role::Admin ==> res == Ok::<(), TokenError>(()),
            role != Role::Admin ==> final(self)@ == old(self)@.revoked(role, account),
    {
        match role {
            Role::Admin => {
                return Err(TokenError::Unauthorized);
            },
            Role::Pauser => {
                self.pausers.remove(&account.id);
            },
            Role::Upgrader => {
                self.upgraders.remove(&account.id);
            },
            Role::Minter => {
                self.minters.remove(&account.id);
            },
            Role::Manager => {
                self.managers.remove(&account.id);
            },
        }
        proof {
            assert(self@.members =~= old(self)@.revoked(role, account).members);
        }
        Ok(())
    }
}

} // verus!
