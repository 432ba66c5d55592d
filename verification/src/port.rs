//! Start-up configuration of the microcontroller's own peripherals: the
//! clocks of the GPIO ports, FSMC and ADC3 in the RCC, the mode of every
//! GPIO pin the board uses, the FSMC timing of the PLD bank and the
//! conversion sequence of ADC3.
//!
//! Each step is a read-modify-write of one 32-bit control register: the
//! bits of `clear` are cleared, then the bits of `set` are set.  The board
//! support code carries the steps out in order.
use vstd::prelude::*;

verus! {

/// A 32-bit control register of the microcontroller.
#[derive(Debug, Clone, Copy, PartialEq, Eq, Hash, Structural)]
pub enum CfgReg {
    /// RCC clock configuration.
    RccCfgr,
    /// RCC AHB peripheral clock enable.
    RccAhbenr,
    /// RCC APB2 peripheral clock enable.
    RccApb2enr,
    GpioaOdr,
    GpioaCrl,
    GpioaCrh,
    GpiobCrl,
    GpiocOdr,
    GpiocCrl,
    GpiocCrh,
    GpiodCrl,
    GpiodCrh,
    GpioeCrl,
    GpioeCrh,
    GpiofOdr,
    GpiofCrl,
    GpiofCrh,
    GpiogOdr,
    GpiogCrl,
    GpiogCrh,
    /// FSMC chip-select control of bank 1.
    FsmcBcr1,
    /// FSMC chip-select timing of bank 1.
    FsmcBtr1,
    Adc3Cr1,
    Adc3Cr2,
    /// ADC3 regular sequence, first conversions.
    Adc3Sqr3,
    /// ADC3 injected sequence.
    Adc3Jsqr,
}

/// A read-modify-write of one control register.
#[derive(Debug, Clone, Copy, PartialEq, Eq, Structural)]
pub struct RegUpdate {
    pub reg: CfgReg,
    /// Bits taken out of the old value.
    pub clear: u32,
    /// Bits put in after that.
    pub set: u32,
}

/// The value a register holds after an update of `old`.
pub open spec fn updated(old: u32, clear: u32, set: u32) -> u32 {
    (old & !clear) | set
}

/// The update of `reg` that clears `clear` and sets `set`.
pub open spec fn upd(reg: CfgReg, clear: u32, set: u32) -> RegUpdate {
    RegUpdate { reg, clear, set }
}

impl RegUpdate {
    /// The new value of the register, given the value read from it.
    pub fn apply(&self, old: u32) -> (new: u32)
        ensures
            new == updated(old, self.clear, self.set),
    {
        (old & !self.clear) | self.set
    }
}

/// The value of register `r` after the steps, starting from `old`; steps on
/// other registers leave it alone.
pub open spec fn apply_steps(steps: Seq<RegUpdate>, r: CfgReg, old: u32) -> u32
    decreases steps.len(),
{
    if steps.len() == 0 {
        old
    } else {
        let before = apply_steps(steps.drop_last(), r, old);
        if steps.last().reg == r {
            updated(before, steps.last().clear, steps.last().set)
        } else {
            before
        }
    }
}

/// Setting exactly the cleared bits turns them on and keeps the others.
pub proof fn lemma_updated_enables(old: u32, bits: u32)
    ensures
        updated(old, bits, bits) == old | bits,
{
    assert((old & !bits) | bits == old | bits) by (bit_vector);
}

/// Two updates of one register are one update: the masks are merged, and
/// the second one wins where they overlap.
pub proof fn lemma_updated_twice(old: u32, c1: u32, s1: u32, c2: u32, s2: u32)
    ensures
        updated(updated(old, c1, s1), c2, s2) == updated(old, c1 | c2, (s1 & !c2) | s2),
{
    assert((((old & !c1) | s1) & !c2) | s2 == (old & !(c1 | c2)) | ((s1 & !c2) | s2))
        by (bit_vector);
}

/// The steps of `port_init`: clocks of ports A to G, then the output
/// levels and modes of ports A, C, F and G.
///
/// A mode nibble is `CNF << 2 | MODE`: 0x2 push-pull output at 2 MHz,
/// 0x3 the same at 50 MHz, 0x6 open-drain output at 2 MHz, 0x4 floating
/// input, 0x8 input with pull-up or pull-down, 0x0 analog input.
pub open spec fn port_init_steps() -> Seq<RegUpdate> {
    seq![
        upd(CfgReg::RccApb2enr, 0x0000_01FC, 0x0000_01FC),
        upd(CfgReg::GpioaOdr, 0x0000_1FFF, 0x0000_071B),
        upd(CfgReg::GpioaCrl, 0xFFFF_FFFF, 0x2422_4224),
        upd(CfgReg::GpioaCrh, 0x000F_FFFF, 0x0008_8824),
        upd(CfgReg::GpiocOdr, 0x0000_3FFF, 0x0000_2F1E),
        upd(CfgReg::GpiocCrl, 0xFFFF_FFFF, 0x2222_4682),
        upd(CfgReg::GpiocCrh, 0x00FF_FFFF, 0x0083_4444),
        upd(CfgReg::GpiofOdr, 0x0000_FFFF, 0x0000_581F),
        upd(CfgReg::GpiofCrl, 0xFFFF_FFFF, 0x0084_4444),
        upd(CfgReg::GpiofCrh, 0xFFFF_FFFF, 0x2424_8400),
        upd(CfgReg::GpiogOdr, 0x0000_FFFF, 0x0000_DFBF),
        upd(CfgReg::GpiogCrl, 0xFFFF_FFFF, 0x6666_8466),
        upd(CfgReg::GpiogCrh, 0xFFFF_FFFF, 0x6444_4288),
    ]
}

/// The steps of `fsmc_init`: the FSMC clock, bank 1 as a multiplexed
/// 16-bit NOR flash with writes enabled and one-cycle address set-up, hold
/// and data phases in access mode A, then the bus pins as alternate
/// function push-pull outputs.
pub open spec fn fsmc_init_steps() -> Seq<RegUpdate> {
    seq![
        upd(CfgReg::RccAhbenr, 0x0000_0100, 0x0000_0100),
        upd(CfgReg::FsmcBcr1, 0x0000_503F, 0x0000_101B),
        upd(CfgReg::FsmcBtr1, 0x3000_FFFF, 0x0000_0111),
        upd(CfgReg::GpiobCrl, 0xF000_0000, 0xA000_0000),
        upd(CfgReg::GpiodCrh, 0xFF00_0000, 0x9900_0000),
        upd(CfgReg::GpiodCrl, 0x0000_00FF, 0x0000_0099),
        upd(CfgReg::GpioeCrl, 0xF000_0000, 0x9000_0000),
        upd(CfgReg::GpioeCrh, 0xFFFF_FFFF, 0x9999_9999),
        upd(CfgReg::GpiodCrh, 0x00FF_FFFF, 0x0099_9999),
        upd(CfgReg::GpioeCrl, 0x000F_F000, 0x0009_9000),
        upd(CfgReg::GpiodCrl, 0xF0FF_0000, 0xA0AA_0000),
    ]
}


/// What `port_init` leaves in each register it touches, for any value the
/// register held before: the port clocks are switched on without touching
/// the other clocks, and the listed fields of the output and mode
/// registers are replaced.
pub proof fn lemma_port_init_effects(old: u32)
    ensures
        apply_steps(port_init_steps(), CfgReg::RccApb2enr, old) == old | 0x0000_01FC,
        apply_steps(port_init_steps(), CfgReg::GpioaOdr, old) == (old & !0x0000_1FFFu32) | 0x0000_071B,
        apply_steps(port_init_steps(), CfgReg::GpioaCrl, old) == 0x2422_4224,
        apply_steps(port_init_steps(), CfgReg::GpioaCrh, old) == (old & !0x000F_FFFFu32) | 0x0008_8824,
        apply_steps(port_init_steps(), CfgReg::GpiocOdr, old) == (old & !0x0000_3FFFu32) | 0x0000_2F1E,
        apply_steps(port_init_steps(), CfgReg::GpiocCrl, old) == 0x2222_4682,
        apply_steps(port_init_steps(), CfgReg::GpiocCrh, old) == (old & !0x00FF_FFFFu32) | 0x0083_4444,
        apply_steps(port_init_steps(), CfgReg::GpiofOdr, old) == (old & !0x0000_FFFFu32) | 0x0000_581F,
        apply_steps(port_init_steps(), CfgReg::GpiofCrl, old) == 0x0084_4444,
        apply_steps(port_init_steps(), CfgReg::GpiofCrh, old) == 0x2424_8400,
        apply_steps(port_init_steps(), CfgReg::GpiogOdr, old) == (old & !0x0000_FFFFu32) | 0x0000_DFBF,
        apply_steps(port_init_steps(), CfgReg::GpiogCrl, old) == 0x6666_8466,
        apply_steps(port_init_steps(), CfgReg::GpiogCrh, old) == 0x6444_4288,
        apply_steps(port_init_steps(), CfgReg::FsmcBcr1, old) == old,
{
    let s = port_init_steps();
    reveal_with_fuel(apply_steps, 14);
    lemma_updated_enables(old, 0x0000_01FC);
    assert(forall|v: u32| #[trigger] updated(old, 0xFFFF_FFFF, v) == v) by {
        assert forall|v: u32| #[trigger] updated(old, 0xFFFF_FFFF, v) == v by {
            assert((old & !0xFFFF_FFFFu32) | v == v) by (bit_vector);
        }
    }
    assert(s.drop_last() =~= s.subrange(0, 12));
}


/// What `fsmc_init` leaves in each register it touches, for any value the
/// register held before.  Ports D and E are configured in two passes; the
/// second pass of each adds fields to the first, so port E's high half and
/// port D's high half end up wholly as alternate-function outputs.
pub proof fn lemma_fsmc_init_effects(old: u32)
    ensures
        apply_steps(fsmc_init_steps(), CfgReg::RccAhbenr, old) == old | 0x0000_0100,
        apply_steps(fsmc_init_steps(), CfgReg::FsmcBcr1, old) == (old & !0x0000_503Fu32) | 0x0000_101B,
        apply_steps(fsmc_init_steps(), CfgReg::FsmcBtr1, old) == (old & !0x3000_FFFFu32) | 0x0000_0111,
        apply_steps(fsmc_init_steps(), CfgReg::GpiobCrl, old) == (old & !0xF000_0000u32) | 0xA000_0000,
        apply_steps(fsmc_init_steps(), CfgReg::GpiodCrl, old) == (old & !0xF0FF_00FFu32) | 0xA0AA_0099,
        apply_steps(fsmc_init_steps(), CfgReg::GpiodCrh, old) == 0x9999_9999,
        apply_steps(fsmc_init_steps(), CfgReg::GpioeCrl, old) == (old & !0xF00F_F000u32) | 0x9009_9000,
        apply_steps(fsmc_init_steps(), CfgReg::GpioeCrh, old) == 0x9999_9999,
        apply_steps(fsmc_init_steps(), CfgReg::RccApb2enr, old) == old,
{
    reveal_with_fuel(apply_steps, 12);
    lemma_updated_enables(old, 0x0000_0100);
    assert(
        0x0000_00FFu32 | 0xF0FF_0000u32 == 0xF0FF_00FFu32
        && (0x0000_0099u32 & !0xF0FF_0000u32) | 0xA0AA_0000u32 == 0xA0AA_0099u32
        && 0xFF00_0000u32 | 0x00FF_FFFFu32 == 0xFFFF_FFFFu32
        && (0x9900_0000u32 & !0x00FF_FFFFu32) | 0x0099_9999u32 == 0x9999_9999u32
        && 0xF000_0000u32 | 0x000F_F000u32 == 0xF00F_F000u32
        && (0x9000_0000u32 & !0x000F_F000u32) | 0x0009_9000u32 == 0x9009_9000u32
    ) by (bit_vector);
    lemma_updated_twice(old, 0x0000_00FF, 0x0000_0099, 0xF0FF_0000, 0xA0AA_0000);
    lemma_updated_twice(old, 0xFF00_0000, 0x9900_0000, 0x00FF_FFFF, 0x0099_9999);
    lemma_updated_twice(old, 0xF000_0000, 0x9000_0000, 0x000F_F000, 0x0009_9000);
    assert((old & !0xFFFF_FFFFu32) | 0x9999_9999 == 0x9999_9999u32) by (bit_vector);
}

/// Configures the port clocks and the pins of ports A, C, F and G.
pub fn port_init() -> (steps: Vec<RegUpdate>)
    ensures
        steps@ == port_init_steps(),
{
    let mut v: Vec<RegUpdate> = Vec::new();
    v.push(RegUpdate { reg: CfgReg::RccApb2enr, clear: 0x0000_01FC, set: 0x0000_01FC });
    v.push(RegUpdate { reg: CfgReg::GpioaOdr, clear: 0x0000_1FFF, set: 0x0000_071B });
    v.push(RegUpdate { reg: CfgReg::GpioaCrl, clear: 0xFFFF_FFFF, set: 0x2422_4224 });
    v.push(RegUpdate { reg: CfgReg::GpioaCrh, clear: 0x000F_FFFF, set: 0x0008_8824 });
    v.push(RegUpdate { reg: CfgReg::GpiocOdr, clear: 0x0000_3FFF, set: 0x0000_2F1E });
    v.push(RegUpdate { reg: CfgReg::GpiocCrl, clear: 0xFFFF_FFFF, set: 0x2222_4682 });
    v.push(RegUpdate { reg: CfgReg::GpiocCrh, clear: 0x00FF_FFFF, set: 0x0083_4444 });
    v.push(RegUpdate { reg: CfgReg::GpiofOdr, clear: 0x0000_FFFF, set: 0x0000_581F });
    v.push(RegUpdate { reg: CfgReg::GpiofCrl, clear: 0xFFFF_FFFF, set: 0x0084_4444 });
    v.push(RegUpdate { reg: CfgReg::GpiofCrh, clear: 0xFFFF_FFFF, set: 0x2424_8400 });
    v.push(RegUpdate { reg: CfgReg::GpiogOdr, clear: 0x0000_FFFF, set: 0x0000_DFBF });
    v.push(RegUpdate { reg: CfgReg::GpiogCrl, clear: 0xFFFF_FFFF, set: 0x6666_8466 });
    v.push(RegUpdate { reg: CfgReg::GpiogCrh, clear: 0xFFFF_FFFF, set: 0x6444_4288 });
    assert(v@ =~= port_init_steps());
    v
}

/// Configures the FSMC bank of the PLD and the pins of its bus.
pub fn fsmc_init() -> (steps: Vec<RegUpdate>)
    ensures
        steps@ == fsmc_init_steps(),
{
    let mut v: Vec<RegUpdate> = Vec::new();
    v.push(RegUpdate { reg: CfgReg::RccAhbenr, clear: 0x0000_0100, set: 0x0000_0100 });
    v.push(RegUpdate { reg: CfgReg::FsmcBcr1, clear: 0x0000_503F, set: 0x0000_101B });
    v.push(RegUpdate { reg: CfgReg::FsmcBtr1, clear: 0x3000_FFFF, set: 0x0000_0111 });
    v.push(RegUpdate { reg: CfgReg::GpiobCrl, clear: 0xF000_0000, set: 0xA000_0000 });
    v.push(RegUpdate { reg: CfgReg::GpiodCrh, clear: 0xFF00_0000, set: 0x9900_0000 });
    v.push(RegUpdate { reg: CfgReg::GpiodCrl, clear: 0x0000_00FF, set: 0x0000_0099 });
    v.push(RegUpdate { reg: CfgReg::GpioeCrl, clear: 0xF000_0000, set: 0x9000_0000 });
    v.push(RegUpdate { reg: CfgReg::GpioeCrh, clear: 0xFFFF_FFFF, set: 0x9999_9999 });
    v.push(RegUpdate { reg: CfgReg::GpiodCrh, clear: 0x00FF_FFFF, set: 0x0099_9999 });
    v.push(RegUpdate { reg: CfgReg::GpioeCrl, clear: 0x000F_F000, set: 0x0009_9000 });
    v.push(RegUpdate { reg: CfgReg::GpiodCrl, clear: 0xF0FF_0000, set: 0xA0AA_0000 });
    assert(v@ =~= fsmc_init_steps());
    v
}

} // verus!
