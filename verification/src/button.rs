//! Debouncing of the two front-panel keys.
//!
//! A key is sampled at 100 Hz.  A press is reported when the key is released:
//! a hold of at most 5 ticks is taken for contact bounce and ignored, a hold
//! of 6 to 255 ticks is a short press and a longer hold is a long press.
use vstd::prelude::*;

verus! {

/// Level of a key's input pin.
#[derive(Debug, Clone, Copy, PartialEq, Eq, Structural)]
pub enum State {
    Pressed,
    Released,
}

/// The pin is active low: a low level (`false`) means the key is held.
pub open spec fn state_of_level(level: bool) -> State {
    if level {
        State::Released
    } else {
        State::Pressed
    }
}

impl From<bool> for State {
    fn from(level: bool) -> (s: State) {
        match level {
            false => State::Pressed,
            true => State::Released,
        }
    }
}

impl vstd::std_specs::convert::FromSpecImpl<bool> for State {
    open spec fn obeys_from_spec() -> bool {
        true
    }

    open spec fn from_spec(v: bool) -> State {
        state_of_level(v)
    }
}

/// A press that has been recognised and not yet collected.
#[derive(Debug, Clone, Copy, PartialEq, Eq, Structural)]
pub enum Press {
    Short,
    Long,
    NoPress,
}

/// Reads the current level of a key.
pub trait ButtonPin {
    fn state(&self) -> State;
}

/// Longest hold, in ticks, that is still taken for contact bounce.
pub const BOUNCE_TICKS: u32 = 5;

/// Longest hold, in ticks, that is still a short press.
pub const SHORT_PRESS_TICKS: u32 = 255;

/// The press reported on release after a hold of `len` ticks: a bounce keeps
/// whatever press was pending before.
pub open spec fn classify(len: int, pending: Press) -> Press {
    if len <= BOUNCE_TICKS {
        pending
    } else if len <= SHORT_PRESS_TICKS {
        Press::Short
    } else {
        Press::Long
    }
}

/// One 100 Hz tick of the debouncer: from the remembered level, pending press
/// and hold length, and the level just sampled, the new ones.
pub open spec fn button_step(s: (State, Press, u32), pin: State) -> (State, Press, u32) {
    let (prev, p, len) = s;
    match prev {
        State::Pressed => match pin {
            State::Pressed => (prev, p, (len + 1) as u32),
            State::Released => (pin, classify(len as int, p), 0),
        },
        State::Released => match pin {
            State::Pressed => (pin, p, (len + 1) as u32),
            State::Released => (prev, p, len),
        },
    }
}

pub struct Button<P> {
    prev: State,
    p: Press,
    press_len: u32,
    pin: P,
}

impl<P> View for Button<P> {
    /// Remembered level, pending press, ticks the key has been held.
    type V = (State, Press, u32);

    closed spec fn view(&self) -> (State, Press, u32) {
        (self.prev, self.p, self.press_len)
    }
}

impl<P: ButtonPin> Button<P> {
    pub fn new(pin: P) -> (b: Self)
        ensures
            b@ == (State::Released, Press::NoPress, 0u32),
    {
        Button { prev: State::Released, p: Press::NoPress, press_len: 0u32, pin }
    }

    /// Ticks the key has been held so far.
    pub fn press_len(&self) -> (r: u32)
        ensures
            r == self@.2,
    {
        self.press_len
    }

    /// One debouncer tick with the level `pin_state` just read from the pin.
    /// The hold counter must not be at its largest value.
    pub fn update_with_state(&mut self, pin_state: State)
        requires
            old(self)@.2 < u32::MAX,
        ensures
            final(self)@ == button_step(old(self)@, pin_state),
    {
        match self.prev {
            State::Pressed => {
                if let State::Pressed = pin_state {
                    self.press_len += 1;
                } else {
                    self.prev = pin_state;
                    if self.press_len <= BOUNCE_TICKS {
                    } else if self.press_len <= SHORT_PRESS_TICKS {
                        self.p = Press::Short;
                    } else {
                        self.p = Press::Long;
                    }
                    self.press_len = 0;
                }
            },
            State::Released => {
                if let State::Pressed = pin_state {
                    self.press_len += 1;
                    self.prev = pin_state;
                }
            },
        }
    }

    /// One debouncer tick: samples the key's pin and steps the debouncer with
    /// the level read, whatever it was.
    pub fn update_state_100hz(&mut self)
        requires
            old(self)@.2 < u32::MAX,
        ensures
            final(self)@ == button_step(old(self)@, State::Pressed) || final(self)@ == button_step(
                old(self)@,
                State::Released,
            ),
    {
        let pin_state = self.pin.state();
        self.update_with_state(pin_state);
    }

    /// Collects the pending press, if any, and clears it.
    pub fn is_pressed(&mut self) -> (r: Press)
        ensures
            r == old(self)@.1,
            final(self)@ == (old(self)@.0, Press::NoPress, old(self)@.2),
    {
        let p = self.p;
        self.p = Press::NoPress;
        p
    }
}

/// The state after `n` ticks with the key held, starting released and idle.
pub open spec fn held_for(n: nat, pending: Press) -> (State, Press, u32)
    decreases n,
{
    if n == 0 {
        (State::Released, pending, 0u32)
    } else {
        button_step(held_for((n - 1) as nat, pending), State::Pressed)
    }
}

/// Holding a key for `n` ticks from rest counts the hold: the debouncer then
/// remembers the key as pressed, with `n` ticks of hold and the pending press
/// unchanged.
pub proof fn lemma_hold_counts(n: nat, pending: Press)
    requires
        0 < n <= u32::MAX,
    ensures
        held_for(n, pending) == (State::Pressed, pending, n as u32),
    decreases n,
{
    let prev = held_for((n - 1) as nat, pending);
    if n > 1 {
        lemma_hold_counts((n - 1) as nat, pending);
    }
    assert(((n - 1) + 1) as u32 == n as u32);
    assert(held_for(n, pending) == button_step(prev, State::Pressed));
}

/// What a release reports after a hold of `n` ticks from rest: nothing new
/// for a bounce of at most 5 ticks, a short press up to 255 ticks, a long
/// press beyond; the debouncer is back at rest with the hold count cleared.
pub proof fn lemma_release_reports(n: nat, pending: Press)
    requires
        0 < n <= u32::MAX,
    ensures
        button_step(held_for(n, pending), State::Released) == (
            State::Released,
            if n <= 5 {
                pending
            } else if n <= 255 {
                Press::Short
            } else {
                Press::Long
            },
            0u32,
        ),
{
    lemma_hold_counts(n, pending);
}

/// A released key that stays released changes nothing.
pub proof fn lemma_idle_is_stable(s: (State, Press, u32))
    requires
        s.0 == State::Released,
    ensures
        button_step(s, State::Released) == s,
{
}


/// The hold count agrees with the remembered level: zero while the key is
/// remembered released, at least one tick while it is remembered pressed.
pub open spec fn button_inv(s: (State, Press, u32)) -> bool {
    &&& s.0 == State::Released ==> s.2 == 0
    &&& s.0 == State::Pressed ==> s.2 >= 1
}

/// The debouncer's state after the samples `pins`, starting from `s`.
pub open spec fn button_run(s: (State, Press, u32), pins: Seq<State>) -> (State, Press, u32)
    decreases pins.len(),
{
    if pins.len() == 0 {
        s
    } else {
        button_step(button_run(s, pins.drop_last()), pins.last())
    }
}

/// How many samples at the end of `pins` are `Pressed`.
pub open spec fn trailing_pressed(pins: Seq<State>) -> nat
    decreases pins.len(),
{
    if pins.len() == 0 || pins.last() == State::Released {
        0
    } else {
        trailing_pressed(pins.drop_last()) + 1
    }
}

/// One tick keeps the hold count in step with the level; a `Released`
/// sample leaves the key at rest with the count cleared, a `Pressed` one
/// counts one more tick; and the pending press changes only when a held key
/// is released.
pub proof fn lemma_button_step(s: (State, Press, u32), pin: State)
    requires
        button_inv(s),
        s.2 < u32::MAX,
    ensures
        button_inv(button_step(s, pin)),
        pin == State::Released ==> button_step(s, pin).0 == State::Released
            && button_step(s, pin).2 == 0,
        pin == State::Pressed ==> button_step(s, pin).0 == State::Pressed
            && button_step(s, pin).2 == s.2 + 1,
        button_step(s, pin).1 != s.1 ==> s.0 == State::Pressed && pin == State::Released,
{
}

/// From a key at rest, after any samples (fewer than `u32::MAX`, so the
/// count cannot overflow): the hold count is the number of `Pressed` samples
/// at the end, the key is remembered pressed exactly when that number is
/// not zero, and the invariant holds.
pub proof fn lemma_button_run(p0: Press, pins: Seq<State>)
    requires
        pins.len() < u32::MAX,
    ensures
        button_inv(button_run((State::Released, p0, 0u32), pins)),
        button_run((State::Released, p0, 0u32), pins).2 == trailing_pressed(pins),
        trailing_pressed(pins) <= pins.len(),
        button_run((State::Released, p0, 0u32), pins).0 == (if trailing_pressed(pins) > 0 {
            State::Pressed
        } else {
            State::Released
        }),
    decreases pins.len(),
{
    if pins.len() > 0 {
        let rest = pins.drop_last();
        lemma_button_run(p0, rest);
        lemma_button_step(button_run((State::Released, p0, 0u32), rest), pins.last());
    }
}

} // verus!
