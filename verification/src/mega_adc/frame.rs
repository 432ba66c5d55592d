//! The frames that the measurement front end delivers: sixteen channels of
//! the ADS1298 converters, and the four channels of the AFE4490 pulse
//! oximeter.  `as_bytes` lays a frame out as it is sent to the host: the
//! fields in order, packed, each little-endian.
use vstd::prelude::*;

verus! {

/// Little-endian bytes of a 32-bit word.
pub open spec fn le_u32(x: u32) -> Seq<u8> {
    seq![x as u8, (x >> 8u32) as u8, (x >> 16u32) as u8, (x >> 24u32) as u8]
}

/// Little-endian bytes of a 16-bit word.
pub open spec fn le_u16(x: u16) -> Seq<u8> {
    seq![x as u8, (x >> 8u16) as u8]
}

/// Appends the little-endian bytes of `x`.
pub fn push_u32(v: &mut Vec<u8>, x: u32)
    ensures
        final(v)@ == old(v)@ + le_u32(x),
{
    v.push(x as u8);
    v.push((x >> 8u32) as u8);
    v.push((x >> 16u32) as u8);
    v.push((x >> 24u32) as u8);
    assert(v@ =~= old(v)@ + le_u32(x));
}

/// Appends the little-endian bytes of `x`.
pub fn push_u16(v: &mut Vec<u8>, x: u16)
    ensures
        final(v)@ == old(v)@ + le_u16(x),
{
    v.push(x as u8);
    v.push((x >> 8u16) as u8);
    assert(v@ =~= old(v)@ + le_u16(x));
}

/// Number of bytes of an `AdcFrame` laid out packed.
pub const ADC_FRAME_BYTES: usize = 76;

/// Number of bytes of an `AfeFrame` laid out packed.
pub const AFE_FRAME_BYTES: usize = 28;

#[allow(non_snake_case)]
#[derive(Debug, Clone, Copy, PartialEq, Eq, Structural)]
pub struct AdcFrame {
    pub chL: i32,
    pub chF: i32,
    pub ch1: i32,
    pub ch2: i32,
    pub ch3: i32,
    pub ch4: i32,
    pub ch5: i32,
    pub ch6: i32,
    pub reo0: i32,
    pub reo1: i32,
    pub brth: i32,
    pub ad: i32,
    pub mic1: i32,
    pub Red: i32,
    pub Ir: i32,
    pub nu: i32,
    pub cnt: u32,
    pub sec: u32,
    pub tick: u16,
    pub nu2: u16,
}

impl AdcFrame {
    pub fn new() -> (f: Self)
        ensures
            f.channels() == Seq::new(16, |i: int| 0i32),
            f.cnt == 0,
            f.sec == 0,
            f.tick == 0,
            f.nu2 == 0,
    {
        let f = AdcFrame {
            chL: 0,
            chF: 0,
            ch1: 0,
            ch2: 0,
            ch3: 0,
            ch4: 0,
            ch5: 0,
            ch6: 0,
            reo0: 0,
            reo1: 0,
            brth: 0,
            ad: 0,
            mic1: 0,
            Red: 0,
            Ir: 0,
            nu: 0,
            cnt: 0,
            sec: 0,
            tick: 0,
            nu2: 0,
        };
        assert(f.channels() =~= Seq::new(16, |i: int| 0i32));
        f
    }

    /// The sixteen channel fields in their order in the frame.
    pub open spec fn channels(self) -> Seq<i32> {
        seq![
            self.chL, self.chF, self.ch1,
            self.ch2, self.ch3, self.ch4,
            self.ch5, self.ch6, self.reo0,
            self.reo1, self.brth, self.ad,
            self.mic1, self.Red, self.Ir,
            self.nu,
        ]
    }

    /// Sets channel `k` (in frame order) and nothing else.
    pub fn set_channel(&mut self, k: usize, v: i32)
        requires
            k < 16,
        ensures
            final(self).channels() == old(self).channels().update(k as int, v),
            final(self).cnt == old(self).cnt,
            final(self).sec == old(self).sec,
            final(self).tick == old(self).tick,
            final(self).nu2 == old(self).nu2,
    {
        match k {
            0 => self.chL = v,
            1 => self.chF = v,
            2 => self.ch1 = v,
            3 => self.ch2 = v,
            4 => self.ch3 = v,
            5 => self.ch4 = v,
            6 => self.ch5 = v,
            7 => self.ch6 = v,
            8 => self.reo0 = v,
            9 => self.reo1 = v,
            10 => self.brth = v,
            11 => self.ad = v,
            12 => self.mic1 = v,
            13 => self.Red = v,
            14 => self.Ir = v,
            _ => self.nu = v,
        }
        assert(self.channels() =~= old(self).channels().update(k as int, v));
    }

    /// The packed little-endian layout of the frame.
    pub open spec fn bytes(self) -> Seq<u8> {
        le_u32(self.chL as u32)
            + le_u32(self.chF as u32)
            + le_u32(self.ch1 as u32)
            + le_u32(self.ch2 as u32)
            + le_u32(self.ch3 as u32)
            + le_u32(self.ch4 as u32)
            + le_u32(self.ch5 as u32)
            + le_u32(self.ch6 as u32)
            + le_u32(self.reo0 as u32)
            + le_u32(self.reo1 as u32)
            + le_u32(self.brth as u32)
            + le_u32(self.ad as u32)
            + le_u32(self.mic1 as u32)
            + le_u32(self.Red as u32)
            + le_u32(self.Ir as u32)
            + le_u32(self.nu as u32)
            + le_u32(self.cnt)
            + le_u32(self.sec)
            + le_u16(self.tick)
            + le_u16(self.nu2)
    }

    /// The frame's bytes as it is sent: every field in order, packed,
    /// little-endian.
    pub fn as_bytes(&self) -> (b: Vec<u8>)
        ensures
            b@ == self.bytes(),
            b@.len() == ADC_FRAME_BYTES,
    {
        let mut b: Vec<u8> = Vec::new();
        push_u32(&mut b, self.chL as u32);
        push_u32(&mut b, self.chF as u32);
        push_u32(&mut b, self.ch1 as u32);
        push_u32(&mut b, self.ch2 as u32);
        push_u32(&mut b, self.ch3 as u32);
        push_u32(&mut b, self.ch4 as u32);
        push_u32(&mut b, self.ch5 as u32);
        push_u32(&mut b, self.ch6 as u32);
        push_u32(&mut b, self.reo0 as u32);
        push_u32(&mut b, self.reo1 as u32);
        push_u32(&mut b, self.brth as u32);
        push_u32(&mut b, self.ad as u32);
        push_u32(&mut b, self.mic1 as u32);
        push_u32(&mut b, self.Red as u32);
        push_u32(&mut b, self.Ir as u32);
        push_u32(&mut b, self.nu as u32);
        push_u32(&mut b, self.cnt);
        push_u32(&mut b, self.sec);
        push_u16(&mut b, self.tick);
        push_u16(&mut b, self.nu2);
        b
    }
}

#[derive(Debug, Clone, Copy, PartialEq, Eq, Structural)]
pub struct AfeFrame {
    pub ir: i32,
    pub bg_ir: i32,
    pub rd: i32,
    pub bg_rd: i32,
    pub cnt: u32,
    pub sec: u32,
    pub tick: u16,
    pub nu2: u16,
}

impl AfeFrame {
    pub fn new() -> (f: Self)
        ensures
            f == (AfeFrame { ir: 0, bg_ir: 0, rd: 0, bg_rd: 0, cnt: 0, sec: 0, tick: 0, nu2: 0 }),
    {
        AfeFrame { ir: 0, bg_ir: 0, rd: 0, bg_rd: 0, cnt: 0, sec: 0, tick: 0, nu2: 0 }
    }

    /// The packed little-endian layout of the frame.
    pub open spec fn bytes(self) -> Seq<u8> {
        le_u32(self.ir as u32) + le_u32(self.bg_ir as u32) + le_u32(self.rd as u32) + le_u32(
            self.bg_rd as u32,
        ) + le_u32(self.cnt) + le_u32(self.sec) + le_u16(self.tick) + le_u16(self.nu2)
    }

    /// The frame's bytes as it is sent: every field in order, packed,
    /// little-endian.
    pub fn as_bytes(&self) -> (b: Vec<u8>)
        ensures
            b@ == self.bytes(),
            b@.len() == AFE_FRAME_BYTES,
    {
        let mut b: Vec<u8> = Vec::new();
        push_u32(&mut b, self.ir as u32);
        push_u32(&mut b, self.bg_ir as u32);
        push_u32(&mut b, self.rd as u32);
        push_u32(&mut b, self.bg_rd as u32);
        push_u32(&mut b, self.cnt);
        push_u32(&mut b, self.sec);
        push_u16(&mut b, self.tick);
        push_u16(&mut b, self.nu2);
        b
    }
}


/// The four little-endian bytes of a word, lowest first, give the word
/// back.
pub proof fn lemma_le_u32(x: u32)
    ensures
        le_u32(x).len() == 4,
        le_u32(x)[0] as int + 0x100 * le_u32(x)[1] as int + 0x1_0000 * le_u32(x)[2] as int
            + 0x100_0000 * le_u32(x)[3] as int == x as int,
{
    assert((x as u8) as u32 + 0x100 * ((x >> 8u32) as u8) as u32 + 0x1_0000 * ((x >> 16u32) as u8) as u32
        + 0x100_0000 * ((x >> 24u32) as u8) as u32 == x) by (bit_vector);
}

/// The two little-endian bytes of a half-word, lowest first, give it back.
pub proof fn lemma_le_u16(x: u16)
    ensures
        le_u16(x).len() == 2,
        le_u16(x)[0] as int + 0x100 * le_u16(x)[1] as int == x as int,
{
    assert((x as u8) as u16 + 0x100 * ((x >> 8u16) as u8) as u16 == x) by (bit_vector);
}

/// The packed layout of a converter frame: 76 bytes, the sixteen channels
/// in their declared order (chL, chF, ch1 .. ch6, reo0, reo1, brth, ad,
/// mic1, Red, Ir, nu) four bytes each from offset 0, then the counter at
/// 64, the seconds at 68, the tick at 72 and the spare half-word at 74.
pub proof fn lemma_adc_frame_layout(f: AdcFrame)
    ensures
        f.bytes().len() == 76,
        f.bytes().subrange(0, 4) == le_u32(f.chL as u32),
        f.bytes().subrange(4, 8) == le_u32(f.chF as u32),
        f.bytes().subrange(8, 12) == le_u32(f.ch1 as u32),
        f.bytes().subrange(12, 16) == le_u32(f.ch2 as u32),
        f.bytes().subrange(16, 20) == le_u32(f.ch3 as u32),
        f.bytes().subrange(20, 24) == le_u32(f.ch4 as u32),
        f.bytes().subrange(24, 28) == le_u32(f.ch5 as u32),
        f.bytes().subrange(28, 32) == le_u32(f.ch6 as u32),
        f.bytes().subrange(32, 36) == le_u32(f.reo0 as u32),
        f.bytes().subrange(36, 40) == le_u32(f.reo1 as u32),
        f.bytes().subrange(40, 44) == le_u32(f.brth as u32),
        f.bytes().subrange(44, 48) == le_u32(f.ad as u32),
        f.bytes().subrange(48, 52) == le_u32(f.mic1 as u32),
        f.bytes().subrange(52, 56) == le_u32(f.Red as u32),
        f.bytes().subrange(56, 60) == le_u32(f.Ir as u32),
        f.bytes().subrange(60, 64) == le_u32(f.nu as u32),
        f.bytes().subrange(64, 68) == le_u32(f.cnt),
        f.bytes().subrange(68, 72) == le_u32(f.sec),
        f.bytes().subrange(72, 74) == le_u16(f.tick),
        f.bytes().subrange(74, 76) == le_u16(f.nu2),
{
}

/// The packed layout of an oximeter frame: 28 bytes, ir at 0, bg_ir at 4,
/// rd at 8, bg_rd at 12, the counter at 16, the seconds at 20, the tick at
/// 24 and the spare half-word at 26.
pub proof fn lemma_afe_frame_layout(f: AfeFrame)
    ensures
        f.bytes().len() == 28,
        f.bytes().subrange(0, 4) == le_u32(f.ir as u32),
        f.bytes().subrange(4, 8) == le_u32(f.bg_ir as u32),
        f.bytes().subrange(8, 12) == le_u32(f.rd as u32),
        f.bytes().subrange(12, 16) == le_u32(f.bg_rd as u32),
        f.bytes().subrange(16, 20) == le_u32(f.cnt),
        f.bytes().subrange(20, 24) == le_u32(f.sec),
        f.bytes().subrange(24, 26) == le_u16(f.tick),
        f.bytes().subrange(26, 28) == le_u16(f.nu2),
{
}

} // verus!
