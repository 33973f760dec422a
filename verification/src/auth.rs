//! What the authentication oracle said about an invocation.

use vstd::prelude::*;
use crate::address::Address;
use crate::error::TokenError;

verus! {

/// The identities that were authenticated as the true callers of the
/// invocation at hand. Whoever runs the oracle fills it in; the ledger only
/// asks whether an identity is among them.
pub struct Authentication {
    vouched: Vec<Address>,
}

impl View for Authentication {
    type V = Set<Address>;

    closed spec fn view(&self) -> Set<Address> {
        Set::new(|a: Address| self.vouched@.contains(a))
    }
}

impl Authentication {
    /// Nobody was authenticated.
    pub fn none() -> (auth: Authentication)
        ensures
            auth@ == Set::<Address>::empty(),
    {
        let auth = Authentication { vouched: Vec::new() };
        proof {
            assert(auth@ =~= Set::<Address>::empty());
        }
        auth
    }

    /// `who` was authenticated, and nobody else.
    pub fn of(who: Address) -> (auth: Authentication)
        ensures
            auth@ == Set::<Address>::empty().insert(who),
    {
        let mut auth = Authentication::none();
        auth.vouch(who);
        auth
    }

    /// Records that `who` was authenticated too.
    pub fn vouch(&mut self, who: Address)
        ensures
            final(self)@ == old(self)@.insert(who),
    {
        self.vouched.push(who);
        proof {
            let before = old(self).vouched@;
            let after = self.vouched@;
            assert(after == before.push(who));
            assert forall|a: Address| after.contains(a) <==> (before.contains(a) || a == who) by {
                if before.contains(a) {
                    let i = choose|i: int| 0 <= i < before.len() && before[i] == a;
                    assert(after[i] == a);
                }
                if a == who {
                    assert(after[before.len() as int] == a);
                }
            }
            assert(self@ =~= old(self)@.insert(who));
        }
    }

    /// Whether `who` was authenticated.
    pub fn covers(&self, who: Address) -> (found: bool)
        ensures
            found == self@.contains(who),
    {
        let mut i: usize = 0;
        while i < self.vouched.len()
            invariant
                i <= self.vouched.len(),
                forall|j: int| 0 <= j < i ==> self.vouched@[j] != who,
            decreases self.vouched.len() - i,
        {
            if self.vouched[i] == who {
                return true;
            }
            i += 1;
        }
        false
    }

    /// Passes where `who` was authenticated, and is `AuthenticationFailed`
    /// where not.
    pub fn authenticate(&self, who: Address) -> (res: Result<(), TokenError>)
        ensures
            res == (if self@.contains(who) {
                Ok::<(), TokenError>(())
            } else {
                Err::<(), TokenError>(TokenError::AuthenticationFailed)
            }),
    {
        if self.covers(who) {
            Ok(())
        } else {
            Err(TokenError::AuthenticationFailed)
        }
    }
}

} // verus!
