//! Three-axis accelerometer read through the injected channels of ADC3.
//!
//! The conversion-complete interrupt hands the raw data registers to
//! `callback_conv_ready`, which keeps the centred values for `get_axes`.
use vstd::prelude::*;
use crate::port::{apply_steps, updated, upd, CfgReg, RegUpdate, lemma_updated_enables};

verus! {

/// The steps of `Adc::init`: ADC clock at PCLK2 / 8, the ADC3 clock, scan
/// mode with the injected group converted automatically after the regular
/// one and an interrupt at its end, single conversions, channel 4 (Z axis)
/// as the regular sequence and the four injected channels 7, 5, 6 and 8
/// (supply, Y axis, X axis, current).
pub open spec fn adc3_init_steps() -> Seq<RegUpdate> {
    seq![
        upd(CfgReg::RccCfgr, 0x0000_C000, 0x0000_C000),
        upd(CfgReg::RccApb2enr, 0x0000_8000, 0x0000_8000),
        upd(CfgReg::Adc3Cr1, 0x0000_0580, 0x0000_0580),
        upd(CfgReg::Adc3Cr2, 0x0000_0002, 0x0000_0000),
        upd(CfgReg::Adc3Sqr3, 0x0000_001F, 0x0000_0004),
        upd(CfgReg::Adc3Jsqr, 0x003F_FFFF, 0x0034_18A7),
    ]
}

/// The field values that `Adc::init` leaves, whatever the registers held
/// before: prescaler 8 (code 3), the ADC3 clock on, SCAN, JAUTO and JEOCIE
/// on, CONT off, SQ1 = 4, and an injected sequence of JL + 1 = 4 channels
/// 7, 5, 6, 8.
pub proof fn lemma_adc3_init_fields(old: u32)
    ensures
        (apply_steps(adc3_init_steps(), CfgReg::RccCfgr, old) >> 14u32) & 3 == 3,
        apply_steps(adc3_init_steps(), CfgReg::RccApb2enr, old) == old | 0x0000_8000,
        apply_steps(adc3_init_steps(), CfgReg::Adc3Cr1, old) == old | 0x0000_0580,
        apply_steps(adc3_init_steps(), CfgReg::Adc3Cr2, old) & 0x0000_0002 == 0,
        apply_steps(adc3_init_steps(), CfgReg::Adc3Sqr3, old) & 0x1F == 4,
        (apply_steps(adc3_init_steps(), CfgReg::Adc3Jsqr, old) >> 20u32) & 3 == 3,
        apply_steps(adc3_init_steps(), CfgReg::Adc3Jsqr, old) & 0x1F == 7,
        (apply_steps(adc3_init_steps(), CfgReg::Adc3Jsqr, old) >> 5u32) & 0x1F == 5,
        (apply_steps(adc3_init_steps(), CfgReg::Adc3Jsqr, old) >> 10u32) & 0x1F == 6,
        (apply_steps(adc3_init_steps(), CfgReg::Adc3Jsqr, old) >> 15u32) & 0x1F == 8,
{
    reveal_with_fuel(apply_steps, 7);
    lemma_updated_enables(old, 0x0000_C000);
    lemma_updated_enables(old, 0x0000_8000);
    lemma_updated_enables(old, 0x0000_0580);
    let c = old | 0x0000_C000;
    assert((c >> 14u32) & 3 == 3) by (bit_vector) requires c == old | 0x0000_C000;
    assert(((old & !0x0000_0002u32) | 0) & 0x0000_0002 == 0) by (bit_vector);
    assert(((old & !0x0000_001Fu32) | 4) & 0x1F == 4) by (bit_vector);
    let j = updated(old, 0x003F_FFFF, 0x0034_18A7);
    assert((j >> 20u32) & 3 == 3 && j & 0x1F == 7 && (j >> 5u32) & 0x1F == 5
        && (j >> 10u32) & 0x1F == 6 && (j >> 15u32) & 0x1F == 8) by (bit_vector)
        requires j == (old & !0x003F_FFFFu32) | 0x0034_18A7;
}

/// Offset that the accelerometer's mid-scale reading is centred on.
pub const ACCEL_ZERO: isize = 2000;

/// Turns a raw data register value into a signed acceleration: the low
/// 16 bits are read as a two's-complement number and the zero offset is
/// subtracted.
pub fn axis_from_raw(bits: u32) -> (a: isize)
    ensures
        a == (bits as i16) as int - ACCEL_ZERO,
{
    let v: i16 = bits as i16;
    v as isize - ACCEL_ZERO
}

pub struct Adc {
    x: isize,
    y: isize,
    z: isize,
}

impl View for Adc {
    /// The last stored (x, y, z) accelerations.
    type V = (int, int, int);

    closed spec fn view(&self) -> (int, int, int) {
        (self.x as int, self.y as int, self.z as int)
    }
}

impl Adc {
    pub fn new() -> (a: Self)
        ensures
            a@ == (0int, 0int, 0int),
    {
        Adc { x: 0, y: 0, z: 0 }
    }

    /// Stores the accelerations of a finished conversion, given the raw
    /// regular data register (Z axis) and injected data registers 2 (Y axis)
    /// and 3 (X axis).
    pub fn callback_conv_ready(&mut self, dr: u32, jdr2: u32, jdr3: u32)
        ensures
            final(self)@ == (
                (jdr3 as i16) as int - ACCEL_ZERO,
                (jdr2 as i16) as int - ACCEL_ZERO,
                (dr as i16) as int - ACCEL_ZERO,
            ),
    {
        let z = axis_from_raw(dr);
        let y = axis_from_raw(jdr2);
        let x = axis_from_raw(jdr3);
        self.x = x;
        self.y = y;
        self.z = z;
    }

    /// Configures the clock and the conversion sequences of ADC3 (the
    /// board support code then unmasks its interrupt).
    pub fn init(&self) -> (steps: Vec<RegUpdate>)
        ensures
            steps@ == adc3_init_steps(),
    {
        let mut v: Vec<RegUpdate> = Vec::new();
        v.push(RegUpdate { reg: CfgReg::RccCfgr, clear: 0x0000_C000, set: 0x0000_C000 });
        v.push(RegUpdate { reg: CfgReg::RccApb2enr, clear: 0x0000_8000, set: 0x0000_8000 });
        v.push(RegUpdate { reg: CfgReg::Adc3Cr1, clear: 0x0000_0580, set: 0x0000_0580 });
        v.push(RegUpdate { reg: CfgReg::Adc3Cr2, clear: 0x0000_0002, set: 0x0000_0000 });
        v.push(RegUpdate { reg: CfgReg::Adc3Sqr3, clear: 0x0000_001F, set: 0x0000_0004 });
        v.push(RegUpdate { reg: CfgReg::Adc3Jsqr, clear: 0x003F_FFFF, set: 0x0034_18A7 });
        assert(v@ =~= adc3_init_steps());
        v
    }

    /// Switches ADC3 on (ADON), which starts a conversion of the sequences.
    pub fn start_conversion(&self) -> (step: RegUpdate)
        ensures
            step == upd(CfgReg::Adc3Cr2, 0x0000_0001, 0x0000_0001),
    {
        RegUpdate { reg: CfgReg::Adc3Cr2, clear: 0x0000_0001, set: 0x0000_0001 }
    }

    /// The last stored accelerations as (x, y, z).
    pub fn get_axes(&self) -> (r: (isize, isize, isize))
        ensures
            (r.0 as int, r.1 as int, r.2 as int) == self@,
    {
        (self.x, self.y, self.z)
    }
}

} // verus!
