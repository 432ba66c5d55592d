//! The peripherals that the firmware drives: 16-bit registers on the FSMC
//! bus (the PLD and the display controller) and a few GPIO lines.  Start-up and reset procedures are
//! worked out here as a list of `BusOp`s; the board support code carries
//! them out in order.
use vstd::prelude::*;

verus! {

/// CPU cycles per millisecond at the 72 MHz system clock.
pub const CYCLES_PER_MS: u32 = 72000;

/// A 16-bit register on the FSMC bus: the PLD's registers and the two
/// ports of the display controller.  Some addresses hold one register for
/// reading and another for writing.
#[derive(Debug, Clone, Copy, PartialEq, Eq, Structural)]
pub enum BusReg {
    /// Valve PWM, or a general-purpose register (read/write).
    PwmValve,
    /// High word of the AFE4490 command response (read).
    AfeCmdRespHighR,
    /// Enables the compressor and valve outputs (write).
    PwmSel,
    /// Sound FIFO of the VS1063A (read).
    FdpOut,
    /// Compressor PWM (write).
    PwmComp,
    /// Configuration of the AFE4490 controller (read/write).
    AfeSpiMode,
    /// Low word of a command for the AFE4490 (write).
    AfeCmdLow,
    /// Data FIFO of the AFE4490 (read).
    AfeFifoOut,
    /// Peripheral input pins (read).
    AfeAdcOut,
    /// Read command passed to the AFE4490 (write).
    AfeCmdHighR,
    /// Write command passed to the AFE4490 (write).
    AfeCmdHigh,
    /// Low word of the AFE4490 command response (read).
    AfeCmdRespLowR,
    /// Operating mode of the PLD's acquisition automaton.
    AdcMode,
    /// PLD configuration.
    Cfg,
    /// PLD firmware version (read).
    Id,
    /// Command port of the ADS1298 converters (write).
    Spi,
    /// Global interrupt enable.
    Gie,
    /// Interrupt enable.
    Ie,
    /// FIFO test data input.
    Cfg5,
    /// Sampling rate of the SPI reader.
    RdSpi,
    /// Data FIFO of the ADS1298 converters (read).
    Fifo,
    /// Bus test register (usable during start-up only).
    TestReg,
    /// Index (command) port of the display controller.
    LcdIndex,
    /// Parameter (data) port of the display controller.
    LcdParam,
}

/// Address of a PLD register in the FSMC bank.
pub open spec fn reg_address(r: BusReg) -> u32 {
    match r {
        BusReg::PwmValve => 0x6038_0000,
        BusReg::AfeCmdRespHighR => 0x6038_0002,
        BusReg::PwmSel => 0x6038_0002,
        BusReg::FdpOut => 0x6038_0004,
        BusReg::PwmComp => 0x6038_0004,
        BusReg::AfeSpiMode => 0x6038_0006,
        BusReg::AfeCmdLow => 0x6038_0008,
        BusReg::AfeFifoOut => 0x6038_0008,
        BusReg::AfeAdcOut => 0x6038_000c,
        BusReg::AfeCmdHighR => 0x6038_000c,
        BusReg::AfeCmdHigh => 0x6038_000e,
        BusReg::AfeCmdRespLowR => 0x6038_000e,
        BusReg::AdcMode => 0x6030_0000,
        BusReg::Cfg => 0x6030_0002,
        BusReg::Id => 0x6030_0004,
        BusReg::Spi => 0x6030_0004,
        BusReg::Gie => 0x6030_0006,
        BusReg::Ie => 0x6030_0008,
        BusReg::Cfg5 => 0x6030_000A,
        BusReg::RdSpi => 0x6030_000C,
        BusReg::Fifo => 0x6030_000E,
        BusReg::TestReg => 0x6038_0000,
        BusReg::LcdIndex => 0x6000_0000,
        BusReg::LcdParam => 0x6008_0000,
    }
}

impl BusReg {
    pub fn address(self) -> (a: u32)
        ensures
            a == reg_address(self),
    {
        match self {
            BusReg::PwmValve => 0x6038_0000,
            BusReg::AfeCmdRespHighR => 0x6038_0002,
            BusReg::PwmSel => 0x6038_0002,
            BusReg::FdpOut => 0x6038_0004,
            BusReg::PwmComp => 0x6038_0004,
            BusReg::AfeSpiMode => 0x6038_0006,
            BusReg::AfeCmdLow => 0x6038_0008,
            BusReg::AfeFifoOut => 0x6038_0008,
            BusReg::AfeAdcOut => 0x6038_000c,
            BusReg::AfeCmdHighR => 0x6038_000c,
            BusReg::AfeCmdHigh => 0x6038_000e,
            BusReg::AfeCmdRespLowR => 0x6038_000e,
            BusReg::AdcMode => 0x6030_0000,
            BusReg::Cfg => 0x6030_0002,
            BusReg::Id => 0x6030_0004,
            BusReg::Spi => 0x6030_0004,
            BusReg::Gie => 0x6030_0006,
            BusReg::Ie => 0x6030_0008,
            BusReg::Cfg5 => 0x6030_000A,
            BusReg::RdSpi => 0x6030_000C,
            BusReg::Fifo => 0x6030_000E,
            BusReg::TestReg => 0x6038_0000,
            BusReg::LcdIndex => 0x6000_0000,
            BusReg::LcdParam => 0x6008_0000,
        }
    }
}

/// A GPIO output line.
#[derive(Debug, Clone, Copy, PartialEq, Eq, Structural)]
pub enum Pin {
    /// PB13: reset of the ADS1298 converters, active low.
    AdcReset,
    /// PC7: start of the ADS1298 conversions, active high.
    AdcStart,
    /// PF13: reset of the AFE4490, active low.
    AfeReset,
    /// PC0: reset of the display, released when high.
    LcdReset,
    /// PF15: supply of the display and its backlight.
    LcdPower,
}

/// One step of a peripheral procedure.
#[derive(Debug, Clone, Copy, PartialEq, Eq, Structural)]
pub enum BusOp {
    /// Write `value` to `reg`.
    Write { reg: BusReg, value: u16 },
    /// Read `reg` (the value read is handed back to the procedure, if it
    /// asks for it).
    Read { reg: BusReg },
    /// Busy-wait for `cycles` CPU cycles.
    Delay { cycles: u32 },
    /// Drive `pin` high or low.
    SetPin { pin: Pin, high: bool },
    /// Wait `ms` milliseconds on the pause timer.
    Pause { ms: u32 },
}

/// Appends a list of operations.
pub fn append_ops(ops: &mut Vec<BusOp>, more: Vec<BusOp>)
    ensures
        final(ops)@ == old(ops)@ + more@,
{
    let mut more = more;
    ops.append(&mut more);
}

/// Sending each word of `cmd` to `reg`, with a one-millisecond pause after
/// each.
pub open spec fn send_ops(reg: BusReg, cmd: Seq<u16>) -> Seq<BusOp>
    decreases cmd.len(),
{
    if cmd.len() == 0 {
        Seq::empty()
    } else {
        send_ops(reg, cmd.drop_last()) + seq![
            BusOp::Write { reg: reg, value: cmd.last() },
            BusOp::Delay { cycles: CYCLES_PER_MS },
        ]
    }
}

/// Sending a single word is one write and one pause.
pub proof fn lemma_send_one(reg: BusReg, b: u16)
    ensures
        send_ops(reg, seq![b]) == seq![
            BusOp::Write { reg: reg, value: b },
            BusOp::Delay { cycles: CYCLES_PER_MS },
        ],
{
    reveal_with_fuel(send_ops, 2);
    assert(seq![b].drop_last() =~= Seq::<u16>::empty());
    assert(Seq::<BusOp>::empty() + seq![
        BusOp::Write { reg: reg, value: b },
        BusOp::Delay { cycles: CYCLES_PER_MS },
    ] =~= seq![BusOp::Write { reg: reg, value: b }, BusOp::Delay { cycles: CYCLES_PER_MS }]);
}

/// Sending a command followed by one more word is sending the command and
/// then the word.
pub proof fn lemma_send_push(reg: BusReg, s: Seq<u16>, b: u16)
    ensures
        send_ops(reg, s.push(b)) == send_ops(reg, s) + send_ops(reg, seq![b]),
{
    lemma_send_one(reg, b);
    assert(s.push(b).drop_last() =~= s);
}

} // verus!
