//! Exchange buffer: an ownership container holding zero or one transfer
//! buffer. It is the sole mechanism for passing memory to and from the bus
//! transport without copying: the driver `take`s the buffer to start a
//! transaction and `put`s it back when the completion callback returns it.
//! At most one holder exists at any time, by construction.

use vstd::prelude::*;

verus! {

/// A single-slot box that owns at most one transfer buffer.
pub struct ExchangeBuffer {
    slot: Option<Vec<u8>>,
}

impl ExchangeBuffer {
    /// The bytes currently stored, or `None` while the buffer is checked out.
    pub closed spec fn contents(&self) -> Option<Seq<u8>> {
        match self.slot {
            Some(ref b) => Some(b@),
            None => None,
        }
    }

    /// The buffer is currently held here (not checked out to the transport).
    pub open spec fn is_held(&self) -> bool {
        self.contents() is Some
    }

    /// Length of the stored buffer; meaningful only while it is held.
    pub open spec fn stored_len(&self) -> nat {
        self.contents().unwrap().len()
    }

    /// A container that starts out holding `buffer`.
    pub fn new(buffer: Vec<u8>) -> (b: ExchangeBuffer)
        ensures
            b.contents() == Some(buffer@),
    {
        ExchangeBuffer { slot: Some(buffer) }
    }

    /// A container that starts out empty.
    pub fn vacant() -> (b: ExchangeBuffer)
        ensures
            b.contents() is None,
    {
        ExchangeBuffer { slot: None }
    }

    /// Whether the buffer is currently held here.
    pub fn is_occupied(&self) -> (r: bool)
        ensures
            r == self.is_held(),
    {
        self.slot.is_some()
    }

    /// Remove and return the buffer, leaving the container empty; returns
    /// `None` if the buffer is already checked out. Never blocks.
    pub fn take(&mut self) -> (r: Option<Vec<u8>>)
        ensures
            final (self).contents() is None,
            r is Some <==> old(self).is_held(),
            r matches Some(b) ==> Some(b@) == old(self).contents(),
            !old(self).is_held() ==> *final (self) == *old(self),
    {
        self.slot.take()
    }

    /// Store `buffer`, filling an empty slot. If the slot is already
    /// occupied the stored buffer is kept and `buffer` is dropped: the
    /// protocol guarantees callers only put back what they previously took.
    pub fn put(&mut self, buffer: Vec<u8>)
        ensures
            final (self).contents() == if old(self).is_held() {
                old(self).contents()
            } else {
                Some(buffer@)
            },
    {
        if self.slot.is_none() {
            self.slot = Some(buffer);
        }
    }
}

} // verus!
