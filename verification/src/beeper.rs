//! Placeholder for the buzzer driver: it has no state and its start-up does
//! nothing yet.
use vstd::prelude::*;

verus! {

pub struct Beeper {}

/// A tone to play: its pitch setting and how many periods it lasts.
#[derive(Clone, Copy)]
struct Sound {
    sound: u32,
    count: u32,
}

impl Beeper {
    pub fn new() -> (b: Self)
        ensures
            b == (Beeper {}),
    {
        Beeper {}
    }

    /// Start-up of the buzzer timer; it touches nothing.
    pub fn init(&mut self)
        ensures
            *final(self) == *old(self),
    {
    }
}

} // verus!
