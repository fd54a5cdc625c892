//! The signing authority of a contract and its rotation in two steps.

use crate::error::BridgeError;
use vstd::prelude::*;

verus! {

/// The signing authority of a contract and the account proposed to follow
/// it. Control passes in two steps: the authority proposes, and the proposed
/// account itself takes over.
#[derive(Clone, Debug, PartialEq, Eq)]
pub struct AuthorityRegistry {
    current: String,
    pending: String,
}

/// A registry as the two account names it holds.
pub ghost struct AuthorityView {
    pub current: Seq<char>,
    pub pending: Seq<char>,
}

impl AuthorityView {
    /// Why an operation reserved for the authority is refused to `caller`.
    pub open spec fn gate(self, caller: Seq<char>) -> Option<BridgeError> {
        if caller == self.current {
            None
        } else {
            Some(BridgeError::Unauthorized)
        }
    }

    /// The registry after `caller` proposed `next`: only the authority may,
    /// and it stays the authority.
    pub open spec fn propose(self, caller: Seq<char>, next: Seq<char>) -> Result<AuthorityView, BridgeError> {
        if caller == self.current {
            Ok(AuthorityView { current: self.current, pending: next })
        } else {
            Err(BridgeError::Unauthorized)
        }
    }

    /// The registry after `caller` took over: only the proposed account may.
    pub open spec fn finalize(self, caller: Seq<char>) -> Result<AuthorityView, BridgeError> {
        if caller == self.pending {
            Ok(AuthorityView { current: self.pending, pending: self.pending })
        } else {
            Err(BridgeError::Unauthorized)
        }
    }
}

impl View for AuthorityRegistry {
    type V = AuthorityView;

    closed spec fn view(&self) -> AuthorityView {
        AuthorityView { current: self.current@, pending: self.pending@ }
    }
}

impl AuthorityRegistry {
    /// A registry under `authority`, with nobody else proposed.
    pub fn new(authority: String) -> (registry: Self)
        ensures
            registry@ == (AuthorityView { current: authority@, pending: authority@ }),
    {
        let pending = authority.clone();
        AuthorityRegistry { current: authority, pending }
    }

    /// A registry under `current`, with `pending` proposed to follow it.
    pub fn from_parts(current: String, pending: String) -> (registry: Self)
        ensures
            registry@ == (AuthorityView { current: current@, pending: pending@ }),
    {
        AuthorityRegistry { current, pending }
    }

    /// The authority and the account proposed to follow it.
    pub fn into_parts(self) -> (parts: (String, String))
        ensures
            parts.0@ == self@.current,
            parts.1@ == self@.pending,
    {
        (self.current, self.pending)
    }

    /// The authority.
    pub fn current(&self) -> (authority: String)
        ensures
            authority@ == self@.current,
    {
        self.current.clone()
    }

    /// The account proposed to follow the authority.
    pub fn pending(&self) -> (proposed: String)
        ensures
            proposed@ == self@.pending,
    {
        self.pending.clone()
    }

    /// Whether `caller` is the authority.
    pub fn is_authority(&self, caller: &String) -> (yes: bool)
        ensures
            yes == (self@.gate(caller@) is None),
    {
        *caller == self.current
    }

    /// Proposes `next` as the following authority.
    pub fn propose(&mut self, caller: &String, next: String) -> (done: Result<(), BridgeError>)
        ensures
            match old(self)@.propose(caller@, next@) {
                Ok(after) => done is Ok && final(self)@ == after,
                Err(error) => done == Err::<(), BridgeError>(error) && *final(self) == *old(self),
            },
    {
        if *caller != self.current {
            return Err(BridgeError::Unauthorized);
        }
        self.pending = next;
        Ok(())
    }

    /// Makes the proposed account the authority.
    pub fn finalize(&mut self, caller: &String) -> (done: Result<(), BridgeError>)
        ensures
            match old(self)@.finalize(caller@) {
                Ok(after) => done is Ok && final(self)@ == after,
                Err(error) => done == Err::<(), BridgeError>(error) && *final(self) == *old(self),
            },
    {
        if *caller != self.pending {
            return Err(BridgeError::Unauthorized);
        }
        self.current = self.pending.clone();
        Ok(())
    }
}

/// Rotation is safe. After the authority `a` proposed `b`, the authority is
/// still `a`: operations reserved for the authority are open to `a` and
/// refused to `b`. `a` cannot complete the rotation. Once `b` does, the
/// authority is `b`, and `a` is refused.
pub proof fn rotation_safety(registry: AuthorityView, a: Seq<char>, b: Seq<char>)
    requires
        registry.current == a,
        a != b,
    ensures
        registry.propose(a, b) is Ok,
        registry.propose(a, b)->Ok_0.current == a,
        registry.propose(a, b)->Ok_0.gate(a) is None,
        registry.propose(a, b)->Ok_0.gate(b) == Some(BridgeError::Unauthorized),
        registry.propose(a, b)->Ok_0.finalize(a) == Err::<AuthorityView, BridgeError>(BridgeError::Unauthorized),
        registry.propose(a, b)->Ok_0.finalize(b) is Ok,
        registry.propose(a, b)->Ok_0.finalize(b)->Ok_0.current == b,
        registry.propose(a, b)->Ok_0.finalize(b)->Ok_0.gate(b) is None,
        registry.propose(a, b)->Ok_0.finalize(b)->Ok_0.gate(a) == Some(BridgeError::Unauthorized),
{
}

/// Nobody but the authority can propose, and nobody but the proposed
/// account can take over.
pub proof fn rotation_is_gated(registry: AuthorityView, caller: Seq<char>, next: Seq<char>)
    ensures
        caller != registry.current ==> registry.propose(caller, next) == Err::<AuthorityView, BridgeError>(
            BridgeError::Unauthorized,
        ),
        caller != registry.pending ==> registry.finalize(caller) == Err::<AuthorityView, BridgeError>(
            BridgeError::Unauthorized,
        ),
{
}

} // verus!
