//! Requests to paint the window again.
//!
//! Requests are coalesced, not queued: however many arrive before the
//! window is painted, it is painted once.

use vstd::prelude::*;

verus! {

/// Remembers whether the window is to be painted again.
#[derive(Clone, Copy, Debug, PartialEq, Eq, Structural)]
pub struct RenderGate {
    pub pending: bool,
}

impl RenderGate {
    /// Nothing to paint.
    pub fn new() -> (gate: RenderGate)
        ensures
            !gate.pending,
    {
        RenderGate { pending: false }
    }

    /// Asks for the window to be painted; asking again before it was
    /// painted adds nothing.
    pub fn request(&mut self)
        ensures
            final(self).pending,
    {
        self.pending = true;
    }

    /// Notes a request if there is one.
    pub fn note(&mut self, render: bool)
        ensures
            final(self).pending == (old(self).pending || render),
    {
        if render {
            self.pending = true;
        }
    }

    /// Says whether the window is to be painted now, and forgets the
    /// requests so far.
    pub fn take(&mut self) -> (paint: bool)
        ensures
            paint == old(self).pending,
            !final(self).pending,
    {
        let paint = self.pending;
        self.pending = false;
        paint
    }
}

} // verus!
