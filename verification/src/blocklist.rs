//! The set of addresses that may neither send nor receive.

use vstd::prelude::*;
use std::collections::HashSet;
use crate::address::Address;
use crate::error::TokenError;

verus! {

broadcast use vstd::std_specs::hash::group_hash_axioms;

/// The blocked addresses.
pub struct BlockList {
    listed: HashSet<u64>,
}

impl View for BlockList {
    type V = Set<Address>;

    closed spec fn view(&self) -> Set<Address> {
        Set::new(|a: Address| self.listed@.contains(a.id))
    }
}

impl BlockList {
    /// A list with nobody on it.
    pub fn new() -> (list: BlockList)
        ensures
            list@ == Set::<Address>::empty(),
    {
        let list = BlockList { listed: HashSet::new() };
        proof {
            assert(list@ =~= Set::<Address>::empty());
        }
        list
    }

    /// Whether `account` is on the list.
    pub fn blocked(&self, account: Address) -> (listed: bool)
        ensures
            listed == self@.contains(account),
    {
        self.listed.contains(&account.id)
    }

    /// Puts `user` on the list. Blocking a blocked address changes nothing.
    pub fn block_user(&mut self, user: Address)
        ensures
            final(self)@ == old(self)@.insert(user),
    {
        self.listed.insert(user.id);
        proof {
            assert(self@ =~= old(self)@.insert(user));
        }
    }

    /// Takes `user` off the list. Unblocking an address that is not blocked
    /// changes nothing.
    pub fn unblock_user(&mut self, user: Address)
        ensures
            final(self)@ == old(self)@.remove(user),
    {
        self.listed.remove(&user.id);
        proof {
            assert(self@ =~= old(self)@.remove(user));
        }
    }

    /// Passes where `account` is not on the list, and is `AddressBlocked`,
    /// naming it, where it is.
    pub fn require_not_blocked(&self, account: Address) -> (res: Result<(), TokenError>)
        ensures
            res == (if self@.contains(account) {
                Err::<(), TokenError>(TokenError::AddressBlocked(account))
            } else {
                Ok::<(), TokenError>(())
            }),
    {
        if self.blocked(account) {
            Err(TokenError::AddressBlocked(account))
        } else {
            Ok(())
        }
    }
}

} // verus!
