//! Set-up of the TPS power-management chip over I²C.
//!
//! Five registers are written, each one read back at once and compared
//! with what was written.  The bus transfers are done by the caller: `init`
//! and `confirm` say which register to write next and check each
//! read-back.
use vstd::prelude::*;

verus! {

/// 7-bit I²C address of the chip.
pub const TPS_ADDR: u8 = 0x48;

/// Power modes of the chip.
#[derive(Debug, Clone, Copy, PartialEq, Eq, Structural)]
pub enum PowerState {
    LowPower,
    FullPower,
}

/// Number of registers written at start-up.
pub const TPS_SETTINGS: usize = 5;

/// The registers written at start-up, with their values, in order.
pub open spec fn tps_settings() -> Seq<(u8, u8)> {
    seq![(0x10u8, 0x31u8), (0x12u8, 0x3Fu8), (0x14u8, 0x1Fu8), (0x17u8, 0x3Fu8), (0x04u8, 0x30u8)]
}

fn tps_setting(i: usize) -> (s: (u8, u8))
    requires
        i < TPS_SETTINGS,
    ensures
        s == tps_settings()[i as int],
{
    let t: [(u8, u8); 5] = [(0x10, 0x31), (0x12, 0x3F), (0x14, 0x1F), (0x17, 0x3F), (0x04, 0x30)];
    assert(t@ =~= tps_settings());
    t[i]
}

/// What the caller does next.
#[derive(Debug, Clone, Copy, PartialEq, Eq, Structural)]
pub enum TpsStep {
    /// Write `[reg, value]` to the chip at `addr`, then write `[reg]` and
    /// read one byte, and hand that byte to `confirm`.
    Write { addr: u8, reg: u8, value: u8 },
    /// Every register holds what was written.
    Done,
    /// Register `reg` read back `got` in place of `expected`.
    Mismatch { reg: u8, expected: u8, got: u8 },
}

/// The step that writes setting `i`.
pub open spec fn set_step(i: int) -> TpsStep {
    TpsStep::Write { addr: TPS_ADDR, reg: tps_settings()[i].0, value: tps_settings()[i].1 }
}

/// Checking read-back `got` of the last register written, when `sent`
/// registers have been written: the state (registers written, over) after
/// it and the next step.
pub open spec fn confirm_step(sent: nat, got: u8) -> ((nat, bool), TpsStep) {
    let (reg, expected) = tps_settings()[sent - 1];
    if got != expected {
        ((sent, true), TpsStep::Mismatch { reg, expected, got })
    } else if sent < TPS_SETTINGS {
        ((sent + 1, false), set_step(sent as int))
    } else {
        ((sent, true), TpsStep::Done)
    }
}

pub struct Tps {
    sent: usize,
    over: bool,
}

impl View for Tps {
    /// Registers written so far, and whether the set-up is over.
    type V = (nat, bool);

    closed spec fn view(&self) -> (nat, bool) {
        (self.sent as nat, self.over)
    }
}

impl Tps {
    pub fn new() -> (t: Self)
        ensures
            t@ == (0nat, false),
    {
        Tps { sent: 0, over: false }
    }

    /// Starts the set-up: the first register to write.
    pub fn init(&mut self) -> (s: TpsStep)
        ensures
            s == set_step(0),
            final(self)@ == (1nat, false),
    {
        let (reg, value) = tps_setting(0);
        self.sent = 1;
        self.over = false;
        TpsStep::Write { addr: TPS_ADDR, reg, value }
    }

    /// Checks the read-back `got` of the register last written.
    pub fn confirm(&mut self, got: u8) -> (s: TpsStep)
        requires
            1 <= old(self)@.0 <= TPS_SETTINGS,
            !old(self)@.1,
        ensures
            (final(self)@, s) == confirm_step(old(self)@.0, got),
            1 <= final(self)@.0 <= TPS_SETTINGS,
    {
        let (reg, expected) = tps_setting(self.sent - 1);
        if got != expected {
            self.over = true;
            TpsStep::Mismatch { reg, expected, got }
        } else if self.sent < TPS_SETTINGS {
            let (r, v) = tps_setting(self.sent);
            self.sent = self.sent + 1;
            TpsStep::Write { addr: TPS_ADDR, reg: r, value: v }
        } else {
            self.over = true;
            TpsStep::Done
        }
    }
}

/// The bytes of a 16-bit register value for the chip: the high byte, then
/// the low byte shifted out of a byte (always 0).
pub fn rev16(v: u16) -> (b: [u8; 2])
    ensures
        b@ == seq![(v >> 8u16) as u8, (v << 8u16) as u8],
        b@[1] == 0,
{
    assert((v << 8u16) as u8 == 0u8) by (bit_vector);
    let b = [(v >> 8u16) as u8, (v << 8u16) as u8];
    assert(b@ =~= seq![(v >> 8u16) as u8, (v << 8u16) as u8]);
    b
}

/// When every register reads back what was written, the set-up writes the
/// five registers in order and then reports `Done`; any other read-back
/// stops it with a `Mismatch` naming the register.
pub proof fn lemma_tps_setup(sent: nat, got: u8)
    requires
        1 <= sent <= TPS_SETTINGS,
    ensures
        got == tps_settings()[sent - 1].1 && sent < TPS_SETTINGS ==> confirm_step(sent, got) == (
            (sent + 1, false),
            set_step(sent as int),
        ),
        got == tps_settings()[sent - 1].1 && sent == TPS_SETTINGS ==> confirm_step(sent, got) == (
            (sent, true),
            TpsStep::Done,
        ),
        got != tps_settings()[sent - 1].1 ==> confirm_step(sent, got).1 == (TpsStep::Mismatch {
            reg: tps_settings()[sent - 1].0,
            expected: tps_settings()[sent - 1].1,
            got,
        }),
{
}

/// The state and step after `init` and `n` read-backs that all gave back
/// what was written.
pub open spec fn good_run(n: nat) -> ((nat, bool), TpsStep)
    decreases n,
{
    if n == 0 {
        ((1, false), set_step(0))
    } else {
        confirm_step(good_run((n - 1) as nat).0.0, tps_settings()[n - 1].1)
    }
}

/// On a chip that keeps what is written, the set-up writes the five
/// registers one after the other and finishes with `Done` after the fifth
/// read-back.
pub proof fn lemma_good_run(n: nat)
    requires
        n <= TPS_SETTINGS,
    ensures
        n < TPS_SETTINGS ==> good_run(n) == ((n + 1, false), set_step(n as int)),
        n == TPS_SETTINGS ==> good_run(n) == ((TPS_SETTINGS as nat, true), TpsStep::Done),
    decreases n,
{
    if n > 0 {
        lemma_good_run((n - 1) as nat);
    }
}

} // verus!
