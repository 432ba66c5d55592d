//! Start-up checks and controls of the PLD that sits between the processor
//! and the measurement front end.
//!
//! `pld_init` is a procedure that alternates bus accesses and decisions: it
//! polls the PLL-ready flag, checks the identification code, walks a one
//! through the data bus, and fills and drains the FIFO five times with a
//! test pattern.  It is written here as a state machine: every step is given
//! the value of the read that ended the previous step's operations and
//! returns the next operations, which end in one read unless the procedure
//! has finished.
use vstd::prelude::*;
use crate::bus::{BusOp, BusReg};

verus! {

/// Identification code of the PLD firmware.
pub const PLD_ID_CODE: u16 = 0xA5;

/// How many times the PLL-ready flag is polled at most.
pub const PLL_POLLS: u32 = 100;

/// How many times the FIFO is filled and drained.
pub const FIFO_TEST_ROUNDS: u32 = 5;

/// Width of the data bus in bits.
pub const BUS_BITS: u32 = 16;

/// Test word `index` of the FIFO check: the index in the low byte, its
/// complement in the high byte.
pub open spec fn fifo_pattern(index: u16) -> u16 {
    index | ((!index) << 8u16)
}

pub fn fifo_pattern_exec(index: u16) -> (w: u16)
    ensures
        w == fifo_pattern(index),
{
    index | ((!index) << 8u16)
}

/// The data-bus line under test.
pub open spec fn bus_bit(bit: u32) -> u16 {
    1u16 << bit
}

/// How the start-up checks ended.
#[derive(Debug, Clone, Copy, PartialEq, Eq, Structural)]
pub enum PldCheck {
    /// Every check passed.
    Passed,
    /// The identification code was wrong; `id` is the code first read.
    IdMismatch { id: u16 },
    /// Bus lines that did not carry what was written.
    BusFault { map: u16 },
    /// The FIFO gave back `got` in place of test word `index` in round
    /// `round`.
    FifoFault { round: u32, index: u16, got: u16 },
}

/// Where the start-up procedure stands; every phase but `Finished` waits
/// for the value of one read.
#[derive(Debug, Clone, Copy, PartialEq, Eq, Structural)]
pub enum PldInitPhase {
    /// Waiting for PLL-ready poll number `polls`.
    PllPoll { polls: u32 },
    /// Waiting for the first read of the identification code.
    IdFirst,
    /// Waiting for the second read of the identification code.
    IdSecond { first: u16 },
    /// Waiting for the read-back of the complement of line `bit`.
    BusInverted { bit: u32, map: u16 },
    /// Waiting for the read-back of line `bit`.
    BusDirect { bit: u32, map: u16 },
    /// Waiting for test word `index` of round `round` from the FIFO.
    FifoRead { round: u32, index: u16 },
    /// The procedure is over.
    Finished { check: PldCheck },
}

/// Reset of the FIFO and first read of the identification code.
pub open spec fn id_start_ops() -> Seq<BusOp> {
    seq![
        BusOp::Write { reg: BusReg::Cfg, value: 0x0073 },
        BusOp::Delay { cycles: 360000 },
        BusOp::Write { reg: BusReg::Cfg, value: 0x0072 },
        BusOp::Delay { cycles: 360000 },
        BusOp::Read { reg: BusReg::Id },
    ]
}

/// Writing line `bit` (or its complement) to the test register and reading
/// it back.
pub open spec fn bus_probe_ops(bit: u32, inverted: bool) -> Seq<BusOp> {
    seq![
        BusOp::Write {
            reg: BusReg::TestReg,
            value: if inverted {
                !bus_bit(bit)
            } else {
                bus_bit(bit)
            },
        },
        BusOp::Read { reg: BusReg::TestReg },
    ]
}

/// Switching the PLD to FIFO test mode.
pub open spec fn fifo_start_ops() -> Seq<BusOp> {
    seq![
        BusOp::Write { reg: BusReg::AdcMode, value: 0x0001 },
        BusOp::Delay { cycles: 360000 },
        BusOp::Write { reg: BusReg::Cfg, value: 0x0056 },
        BusOp::Delay { cycles: 360000 },
    ]
}

/// Filling the FIFO with the 256 test words.
pub open spec fn fifo_fill_ops() -> Seq<BusOp> {
    Seq::new(256, |i: int| BusOp::Write { reg: BusReg::Cfg5, value: fifo_pattern(i as u16) })
}

/// One step of the procedure, given the value `v` of the last read.
pub open spec fn pld_step(ph: PldInitPhase, v: u16) -> (PldInitPhase, Seq<BusOp>) {
    match ph {
        PldInitPhase::PllPoll { polls } => {
            let pause = seq![BusOp::Delay { cycles: 720000 }];
            if v & 0x8000u16 == 0 || polls >= PLL_POLLS {
                (PldInitPhase::IdFirst, pause + id_start_ops())
            } else {
                (
                    PldInitPhase::PllPoll { polls: (polls + 1) as u32 },
                    pause + seq![BusOp::Read { reg: BusReg::Id }],
                )
            }
        },
        PldInitPhase::IdFirst => (
            PldInitPhase::IdSecond { first: v },
            seq![BusOp::Read { reg: BusReg::Id }],
        ),
        PldInitPhase::IdSecond { first } => {
            if v != PLD_ID_CODE {
                (PldInitPhase::Finished { check: PldCheck::IdMismatch { id: first } }, Seq::empty())
            } else {
                (PldInitPhase::BusInverted { bit: 0, map: 0 }, bus_probe_ops(0, true))
            }
        },
        PldInitPhase::BusInverted { bit, map } => (
            PldInitPhase::BusDirect { bit, map: map | (!v ^ bus_bit(bit)) },
            bus_probe_ops(bit, false),
        ),
        PldInitPhase::BusDirect { bit, map } => {
            let m = map | (v ^ bus_bit(bit));
            if bit + 1 < BUS_BITS {
                (
                    PldInitPhase::BusInverted { bit: (bit + 1) as u32, map: m },
                    bus_probe_ops((bit + 1) as u32, true),
                )
            } else if m != 0 {
                (PldInitPhase::Finished { check: PldCheck::BusFault { map: m } }, Seq::empty())
            } else {
                (
                    PldInitPhase::FifoRead { round: 0, index: 0 },
                    fifo_start_ops() + fifo_fill_ops() + seq![BusOp::Read { reg: BusReg::Fifo }],
                )
            }
        },
        PldInitPhase::FifoRead { round, index } => {
            if v != fifo_pattern(index) {
                (
                    PldInitPhase::Finished {
                        check: PldCheck::FifoFault { round, index, got: v },
                    },
                    Seq::empty(),
                )
            } else if index < 0xFF {
                (
                    PldInitPhase::FifoRead { round, index: (index + 1) as u16 },
                    seq![BusOp::Read { reg: BusReg::Fifo }],
                )
            } else if round + 1 < FIFO_TEST_ROUNDS {
                (
                    PldInitPhase::FifoRead { round: (round + 1) as u32, index: 0 },
                    fifo_fill_ops() + seq![BusOp::Read { reg: BusReg::Fifo }],
                )
            } else {
                (PldInitPhase::Finished { check: PldCheck::Passed }, Seq::empty())
            }
        },
        PldInitPhase::Finished { .. } => (ph, Seq::empty()),
    }
}

/// The phases that a run of the procedure can reach.
pub open spec fn phase_ok(ph: PldInitPhase) -> bool {
    match ph {
        PldInitPhase::PllPoll { polls } => 1 <= polls <= PLL_POLLS,
        PldInitPhase::BusInverted { bit, .. } => bit < BUS_BITS,
        PldInitPhase::BusDirect { bit, .. } => bit < BUS_BITS,
        PldInitPhase::FifoRead { round, index } => round < FIFO_TEST_ROUNDS && index <= 0xFF,
        _ => true,
    }
}

fn fifo_fill(ops: &mut Vec<BusOp>)
    ensures
        final(ops)@ == old(ops)@ + fifo_fill_ops(),
{
    let ghost start = ops@;
    let mut i: u16 = 0;
    while i < 0x100
        invariant
            i <= 0x100,
            ops@ == start + Seq::new(
                i as nat,
                |k: int| BusOp::Write { reg: BusReg::Cfg5, value: fifo_pattern(k as u16) },
            ),
        decreases 0x100 - i,
    {
        ops.push(BusOp::Write { reg: BusReg::Cfg5, value: fifo_pattern_exec(i) });
        i += 1;
        assert(ops@ =~= start + Seq::new(
            i as nat,
            |k: int| BusOp::Write { reg: BusReg::Cfg5, value: fifo_pattern(k as u16) },
        ));
    }
    assert(ops@ =~= start + fifo_fill_ops());
}

fn bus_probe(ops: &mut Vec<BusOp>, bit: u32, inverted: bool)
    requires
        bit < BUS_BITS,
    ensures
        final(ops)@ == old(ops)@ + bus_probe_ops(bit, inverted),
{
    let rg: u16 = 1u16 << bit;
    let value = if inverted {
        !rg
    } else {
        rg
    };
    ops.push(BusOp::Write { reg: BusReg::TestReg, value });
    ops.push(BusOp::Read { reg: BusReg::TestReg });
    assert(ops@ =~= old(ops)@ + bus_probe_ops(bit, inverted));
}

/// The start-up procedure in progress.
pub struct PldInit {
    phase: PldInitPhase,
}

impl View for PldInit {
    type V = PldInitPhase;

    closed spec fn view(&self) -> PldInitPhase {
        self.phase
    }
}

/// Starts the PLD start-up checks: the first operation is the first
/// PLL-ready poll.
pub fn pld_init() -> (r: (PldInit, Vec<BusOp>))
    ensures
        r.0@ == (PldInitPhase::PllPoll { polls: 1 }),
        r.1@ == seq![BusOp::Read { reg: BusReg::Id }],
{
    (PldInit { phase: PldInitPhase::PllPoll { polls: 1 } }, vec![BusOp::Read { reg: BusReg::Id }])
}

impl PldInit {
    /// The outcome, once the procedure is over.
    pub fn outcome(&self) -> (r: Option<PldCheck>)
        ensures
            r == (match self@ {
                PldInitPhase::Finished { check } => Some(check),
                _ => None,
            }),
    {
        match self.phase {
            PldInitPhase::Finished { check } => Some(check),
            _ => None,
        }
    }

    /// Takes the value `v` of the last read and returns the next operations.
    pub fn step(&mut self, v: u16) -> (ops: Vec<BusOp>)
        requires
            phase_ok(old(self)@),
        ensures
            (final(self)@, ops@) == pld_step(old(self)@, v),
            phase_ok(final(self)@),
    {
        let mut ops: Vec<BusOp> = Vec::new();
        match self.phase {
            PldInitPhase::PllPoll { polls } => {
                ops.push(BusOp::Delay { cycles: 720000 });
                if v & 0x8000u16 == 0 || polls >= PLL_POLLS {
                    ops.push(BusOp::Write { reg: BusReg::Cfg, value: 0x0073 });
                    ops.push(BusOp::Delay { cycles: 360000 });
                    ops.push(BusOp::Write { reg: BusReg::Cfg, value: 0x0072 });
                    ops.push(BusOp::Delay { cycles: 360000 });
                    ops.push(BusOp::Read { reg: BusReg::Id });
                    self.phase = PldInitPhase::IdFirst;
                } else {
                    ops.push(BusOp::Read { reg: BusReg::Id });
                    self.phase = PldInitPhase::PllPoll { polls: polls + 1 };
                }
            },
            PldInitPhase::IdFirst => {
                ops.push(BusOp::Read { reg: BusReg::Id });
                self.phase = PldInitPhase::IdSecond { first: v };
            },
            PldInitPhase::IdSecond { first } => {
                if v != PLD_ID_CODE {
                    self.phase = PldInitPhase::Finished {
                        check: PldCheck::IdMismatch { id: first },
                    };
                } else {
                    bus_probe(&mut ops, 0, true);
                    self.phase = PldInitPhase::BusInverted { bit: 0, map: 0 };
                }
            },
            PldInitPhase::BusInverted { bit, map } => {
                let rg: u16 = 1u16 << bit;
                bus_probe(&mut ops, bit, false);
                self.phase = PldInitPhase::BusDirect { bit, map: map | (!v ^ rg) };
            },
            PldInitPhase::BusDirect { bit, map } => {
                let rg: u16 = 1u16 << bit;
                let m = map | (v ^ rg);
                if bit + 1 < BUS_BITS {
                    bus_probe(&mut ops, bit + 1, true);
                    self.phase = PldInitPhase::BusInverted { bit: bit + 1, map: m };
                } else if m != 0 {
                    self.phase = PldInitPhase::Finished { check: PldCheck::BusFault { map: m } };
                } else {
                    ops.push(BusOp::Write { reg: BusReg::AdcMode, value: 0x0001 });
                    ops.push(BusOp::Delay { cycles: 360000 });
                    ops.push(BusOp::Write { reg: BusReg::Cfg, value: 0x0056 });
                    ops.push(BusOp::Delay { cycles: 360000 });
                    fifo_fill(&mut ops);
                    ops.push(BusOp::Read { reg: BusReg::Fifo });
                    self.phase = PldInitPhase::FifoRead { round: 0, index: 0 };
                }
            },
            PldInitPhase::FifoRead { round, index } => {
                if v != fifo_pattern_exec(index) {
                    self.phase = PldInitPhase::Finished {
                        check: PldCheck::FifoFault { round, index, got: v },
                    };
                } else if index < 0xFF {
                    ops.push(BusOp::Read { reg: BusReg::Fifo });
                    self.phase = PldInitPhase::FifoRead { round, index: index + 1 };
                } else if round + 1 < FIFO_TEST_ROUNDS {
                    fifo_fill(&mut ops);
                    ops.push(BusOp::Read { reg: BusReg::Fifo });
                    self.phase = PldInitPhase::FifoRead { round: round + 1, index: 0 };
                } else {
                    self.phase = PldInitPhase::Finished { check: PldCheck::Passed };
                }
            },
            PldInitPhase::Finished { .. } => {},
        }
        assert(ops@ =~= pld_step(old(self)@, v).1);
        ops
    }
}

/// Enables both the valve and the compressor outputs.
pub fn pld_enable_pwm() -> (ops: Vec<BusOp>)
    ensures
        ops@ == seq![BusOp::Write { reg: BusReg::PwmSel, value: 0x0003 }],
{
    vec![BusOp::Write { reg: BusReg::PwmSel, value: 0x0003 }]
}

/// Clears the flag left by an emergency pressure release: reading the
/// identification register does it.
pub fn pld_emergency_block_unlock() -> (ops: Vec<BusOp>)
    ensures
        ops@ == seq![BusOp::Read { reg: BusReg::Id }],
{
    vec![BusOp::Read { reg: BusReg::Id }]
}

/// Reads still to come, at most, before the procedure is over.
pub open spec fn reads_left(ph: PldInitPhase) -> nat {
    let fifo_max: nat = (FIFO_TEST_ROUNDS as nat) * 256;
    let bus_max: nat = 2 * (BUS_BITS as nat);
    match ph {
        PldInitPhase::PllPoll { polls } => fifo_max + bus_max + 3 + (if polls <= PLL_POLLS {
            (PLL_POLLS - polls) as nat
        } else {
            0
        }),
        PldInitPhase::IdFirst => fifo_max + bus_max + 2,
        PldInitPhase::IdSecond { .. } => fifo_max + bus_max + 1,
        PldInitPhase::BusInverted { bit, .. } => fifo_max + 2 * ((BUS_BITS - bit) as nat),
        PldInitPhase::BusDirect { bit, .. } => (fifo_max + 2 * ((BUS_BITS - bit) as nat) - 1) as nat,
        PldInitPhase::FifoRead { round, index } => ((FIFO_TEST_ROUNDS - 1 - round) as nat) * 256
            + ((0xFF - index) as nat) + 1,
        PldInitPhase::Finished { .. } => 0,
    }
}

/// The procedure always ends: every step of an unfinished run brings it
/// closer to its end, so that it is over after at most
/// `reads_left(PllPoll { polls: 1 })` steps; and once over it stays over,
/// asking for nothing more.
pub proof fn lemma_pld_init_terminates(ph: PldInitPhase, v: u16)
    requires
        phase_ok(ph),
    ensures
        !(ph is Finished) ==> reads_left(pld_step(ph, v).0) < reads_left(ph),
        ph is Finished ==> pld_step(ph, v).0 == ph && pld_step(ph, v).1 == Seq::<BusOp>::empty(),
{
}

/// Every step of an unfinished run ends with exactly one read, whose value
/// the next step takes; a step that finishes the run asks for nothing.
pub proof fn lemma_pld_step_ends_in_read(ph: PldInitPhase, v: u16)
    requires
        phase_ok(ph),
        !(ph is Finished),
    ensures
        ({
            let (next, ops) = pld_step(ph, v);
            &&& next is Finished ==> ops.len() == 0
            &&& !(next is Finished) ==> ops.len() > 0 && ops.last() is Read && forall|i: int|
                0 <= i < ops.len() - 1 ==> !(ops[i] is Read)
        }),
{
    let (next, ops) = pld_step(ph, v);
    if !(next is Finished) {
        assert forall|i: int| 0 <= i < ops.len() - 1 implies !(ops[i] is Read) by {
            if ops.len() > 300 {
                assert(ops =~= fifo_start_ops() + fifo_fill_ops() + seq![
                    BusOp::Read { reg: BusReg::Fifo },
                ]);
            }
        }
    }
}

/// The bus check passes on a sound bus: when every read gives back what was
/// written, no line is marked faulty; a line is marked as soon as one of
/// its read-backs differs.
pub proof fn lemma_bus_check_exact(map: u16, rg: u16, a: u16, b: u16)
    ensures
        (map | (!a ^ rg)) | (b ^ rg) == 0 <==> map == 0 && a == !rg && b == rg,
{
    assert((map | (!a ^ rg)) | (b ^ rg) == 0 <==> map == 0 && a == !rg && b == rg) by (bit_vector);
}

} // verus!
