//! A counting task for the cooperative scheduler: every time it is resumed
//! it yields the next number, starting from 1.  It never finishes, so the
//! limit it is made with is never reached.
use vstd::prelude::*;

verus! {

pub struct UpTo {
    i: u32,
    limit: u32,
}

impl View for UpTo {
    /// (last number yielded, limit it was made with)
    type V = (u32, u32);

    closed spec fn view(&self) -> (u32, u32) {
        (self.i, self.limit)
    }
}

/// A counting task that has yielded nothing yet.
pub fn up_to(limit: u32) -> (g: UpTo)
    ensures
        g@ == (0u32, limit),
{
    UpTo { i: 0, limit }
}

impl UpTo {
    /// The last number yielded (0 before the first resume).
    pub fn count(&self) -> (r: u32)
        ensures
            r == self@.0,
    {
        self.i
    }

    /// Runs the task to its next yield and returns the number yielded.
    pub fn resume(&mut self) -> (r: u32)
        requires
            old(self)@.0 < u32::MAX,
        ensures
            r == old(self)@.0 + 1,
            final(self)@ == (r, old(self)@.1),
    {
        self.i += 1;
        self.i
    }
}

} // verus!
