//! The single-slot cell that carries a decoded remote command from the
//! receiver's interrupt context to the main loop.
//!
//! Last-writer-wins: a command arriving while the previous one is unread
//! overwrites it — no backpressure, no queue — which is acceptable because
//! the control loop polls often enough that at most one command is expected
//! to be pending. On the device the two sides share the cell under a
//! critical section; here the slot is an owned value, which gives the same
//! one-at-a-time access by construction.

use vstd::prelude::*;

verus! {

/// A one-command mailbox holding a raw protocol code.
pub struct CommandSlot {
    pending: Option<u8>,
}

impl CommandSlot {
    /// The code waiting to be read, if any.
    pub closed spec fn spec_pending(&self) -> Option<u8> {
        self.pending
    }

    /// An empty slot.
    pub fn new() -> (s: CommandSlot)
        ensures
            s.spec_pending() is None,
    {
        CommandSlot { pending: None }
    }

    /// Store a freshly decoded code, overwriting any unread one:
    /// last-writer-wins.
    pub fn set(&mut self, code: u8)
        ensures
            final(self).spec_pending() == Some(code),
    {
        self.pending = Some(code);
    }

    /// Take the pending code, leaving the slot empty.
    pub fn take(&mut self) -> (r: Option<u8>)
        ensures
            r == old(self).spec_pending(),
            final(self).spec_pending() is None,
    {
        let r = self.pending;
        self.pending = None;
        r
    }
}

} // verus!
