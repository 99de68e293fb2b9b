//! Client access lock: records at most one current authorized caller for a
//! device and gates multi-step interactions. Once set, only the matching
//! client may proceed until the lock is released.

use vstd::prelude::*;

use crate::ClientId;

verus! {

/// An optional owner; free when no client holds it.
pub struct AccessLock {
    holder: Option<ClientId>,
}

impl AccessLock {
    /// The client currently holding the lock, if any.
    pub closed spec fn owner(&self) -> Option<ClientId> {
        self.holder
    }

    /// The lock is free or already held by `client`.
    pub open spec fn available_to(&self, client: ClientId) -> bool {
        self.owner() is None || self.owner() == Some(client)
    }

    /// A free lock.
    pub fn new() -> (l: AccessLock)
        ensures
            l.owner() is None,
    {
        AccessLock { holder: None }
    }

    /// Acquire the lock for `client`: succeeds when the lock is free
    /// (taking it) or already held by `client`; fails without any change
    /// otherwise. Never blocks.
    pub fn try_acquire(&mut self, client: ClientId) -> (r: bool)
        ensures
            r == old(self).available_to(client),
            r ==> final (self).owner() == Some(client),
            !r ==> *final (self) == *old(self),
    {
        match &self.holder {
            None => {
                self.holder = Some(client);
                true
            },
            Some(current) => *current == client,
        }
    }

    /// Release the lock unconditionally.
    pub fn release(&mut self)
        ensures
            final (self).owner() is None,
    {
        self.holder = None;
    }
}

} // verus!
