//! The measurement front end: two ADS1298 converters (ECG, impedance,
//! pressure and microphone channels) and an AFE4490 pulse oximeter behind
//! the PLD.  The PLD collects their samples into FIFOs; each converter frame
//! is 41 words and each oximeter frame 12 words, both framed by a marker and
//! numbered by a running counter.  A frame is accepted when its marker is
//! right and its counter follows the previous one; otherwise the FIFOs are
//! reset.
use vstd::prelude::*;
use crate::bus::{BusOp, BusReg, Pin, CYCLES_PER_MS, send_ops, append_ops};

pub mod afe;
pub mod cmd;
pub mod frame;
pub mod tables;

pub use frame::{AdcFrame, AfeFrame};

verus! {

/// Words of one converter frame in the FIFO: marker, three spare words, two
/// status words, sixteen points of two words, checksum, counter, end marker.
pub const ADC_FIFO_WORDS: usize = 41;

/// Words of one oximeter frame in the FIFO: marker, counter, four values of
/// two words, counter again, end marker.
pub const AFE_FIFO_WORDS: usize = 12;

/// Marker that opens a converter frame.
pub const ADC_FRAME_HEAD: u16 = 0xFEFE;

/// Marker that opens an oximeter frame.
pub const AFE_FRAME_HEAD: u16 = 0xFEFD;

/// Words taken out of the converter FIFO before the marker is judged: the
/// marker, the three spare words and the two status words.
pub const ADC_HEADER_WORDS: usize = 6;

/// Words taken out of the oximeter FIFO before the marker is judged: the
/// marker and the counter.
pub const AFE_HEADER_WORDS: usize = 2;

/// How many words a converter frame read takes out of the FIFO, given the
/// first one: the whole frame after the right marker, only the header after
/// a wrong one.
pub open spec fn adc_fifo_words(head: u16) -> nat {
    if head == ADC_FRAME_HEAD { ADC_FIFO_WORDS as nat } else { ADC_HEADER_WORDS as nat }
}

/// How many words an oximeter frame read takes out of its FIFO, given the
/// first one.
pub open spec fn afe_fifo_words(head: u16) -> nat {
    if head == AFE_FRAME_HEAD { AFE_FIFO_WORDS as nat } else { AFE_HEADER_WORDS as nat }
}

/// The number of words to take out of the converter FIFO for a frame whose
/// first word is `head`.
pub fn adc_frame_words(head: u16) -> (n: usize)
    ensures
        n == adc_fifo_words(head),
{
    if head == ADC_FRAME_HEAD { ADC_FIFO_WORDS } else { ADC_HEADER_WORDS }
}

/// The number of words to take out of the oximeter FIFO for a frame whose
/// first word is `head`.
pub fn afe_frame_words(head: u16) -> (n: usize)
    ensures
        n == afe_fifo_words(head),
{
    if head == AFE_FRAME_HEAD { AFE_FIFO_WORDS } else { AFE_HEADER_WORDS }
}

/// `w` holds the words that one converter frame read takes: the header,
/// and the rest of the frame exactly when the marker is right.
pub open spec fn adc_words_taken(w: Seq<u16>) -> bool {
    w.len() >= ADC_HEADER_WORDS && w.len() == adc_fifo_words(w[0])
}

/// `w` holds the words that one oximeter frame read takes.
pub open spec fn afe_words_taken(w: Seq<u16>) -> bool {
    w.len() >= AFE_HEADER_WORDS && w.len() == afe_fifo_words(w[0])
}

/// A 32-bit value from its low and high words.
pub open spec fn join_words(l: u16, h: u16) -> u32 {
    ((h as u32) << 16u32) | (l as u32)
}

/// Bits 0..24 of `x`, sign-extended to 32 bits.
pub open spec fn sign_extend_24(x: u32) -> u32 {
    if x & 0x0080_0000u32 != 0 {
        (x & 0x00FF_FFFFu32) | 0xFF00_0000u32
    } else {
        x & 0x00FF_FFFFu32
    }
}

/// Bits 0..22 of `x`, sign-extended to 32 bits.
pub open spec fn sign_extend_22(x: u32) -> u32 {
    if x & 0x0020_0000u32 != 0 {
        (x & 0x003F_FFFFu32) | 0xFFC0_0000u32
    } else {
        x & 0x003F_FFFFu32
    }
}

pub fn sign_extend_24_exec(x: u32) -> (r: u32)
    ensures
        r == sign_extend_24(x),
{
    if x & 0x0080_0000u32 != 0 {
        (x & 0x00FF_FFFFu32) | 0xFF00_0000u32
    } else {
        x & 0x00FF_FFFFu32
    }
}

pub fn sign_extend_22_exec(x: u32) -> (r: u32)
    ensures
        r == sign_extend_22(x),
{
    if x & 0x0020_0000u32 != 0 {
        (x & 0x003F_FFFFu32) | 0xFFC0_0000u32
    } else {
        x & 0x003F_FFFFu32
    }
}

/// Point `i` of a converter frame: the two words joined, sign-extended from
/// 24 bits, the most negative sample nudged up by one step, then shifted
/// right (logically) to the channel's width.
pub open spec fn adc_point(w: Seq<u16>, i: int) -> u32 {
    let bb = sign_extend_24(join_words(w[6 + 2 * i], w[7 + 2 * i]));
    let s = tables::spec_ad1298_shift(i);
    let bb2 = if bb == 0xFF80_0000u32 {
        (bb + (1u32 << s)) as u32
    } else {
        bb
    };
    bb2 >> s
}

/// Value `i` of an oximeter frame: the two words joined and sign-extended
/// from 22 bits.
pub open spec fn afe_point(w: Seq<u16>, i: int) -> u32 {
    sign_extend_22(join_words(w[2 + 2 * i], w[3 + 2 * i]))
}

/// The counter expected after `c`.
pub open spec fn next_count(c: u16) -> u16 {
    if c == 0xFFFF {
        0
    } else {
        (c + 1) as u16
    }
}

/// `f` with the points of converter frame `w` stored in their channels and
/// the frame counter taken over.
pub open spec fn decoded_adc_frame(f: AdcFrame, w: Seq<u16>) -> AdcFrame {
    AdcFrame {
        chL: adc_point(w, 15) as i32,
        chF: adc_point(w, 7) as i32,
        ch1: adc_point(w, 13) as i32,
        ch2: adc_point(w, 5) as i32,
        ch3: adc_point(w, 11) as i32,
        ch4: adc_point(w, 3) as i32,
        ch5: adc_point(w, 9) as i32,
        ch6: adc_point(w, 14) as i32,
        reo0: adc_point(w, 0) as i32,
        reo1: adc_point(w, 1) as i32,
        brth: adc_point(w, 12) as i32,
        ad: adc_point(w, 10) as i32,
        mic1: adc_point(w, 8) as i32,
        Red: adc_point(w, 2) as i32,
        Ir: adc_point(w, 4) as i32,
        nu: adc_point(w, 6) as i32,
        cnt: w[39] as u32,
        sec: f.sec,
        tick: f.tick,
        nu2: f.nu2,
    }
}

/// `f` with the values of oximeter frame `w` and its counter.
pub open spec fn decoded_afe_frame(f: AfeFrame, w: Seq<u16>) -> AfeFrame {
    AfeFrame {
        ir: afe_point(w, 0) as i32,
        bg_ir: afe_point(w, 1) as i32,
        rd: afe_point(w, 2) as i32,
        bg_rd: afe_point(w, 3) as i32,
        cnt: w[1] as u32,
        sec: f.sec,
        tick: f.tick,
        nu2: f.nu2,
    }
}

/// State of the reader: last converter frame, last oximeter frame, counter
/// expected of the next converter frame, and of the next oximeter frame.
pub type MegaAdcView = (AdcFrame, AfeFrame, u16, u16);

/// Reading converter frame `w`: a wrong marker changes nothing and fails;
/// otherwise the frame is stored, the counter expected next is the one after
/// the frame's, and the read succeeds when the frame's counter was the one
/// expected.
pub open spec fn adc_read(s: MegaAdcView, w: Seq<u16>) -> (MegaAdcView, bool) {
    if w[0] != ADC_FRAME_HEAD {
        (s, false)
    } else {
        ((decoded_adc_frame(s.0, w), s.1, next_count(w[39]), s.3), w[39] == s.2)
    }
}

/// Reading oximeter frame `w`, in the same way.
pub open spec fn afe_read(s: MegaAdcView, w: Seq<u16>) -> (MegaAdcView, bool) {
    if w[0] != AFE_FRAME_HEAD {
        (s, false)
    } else {
        ((s.0, decoded_afe_frame(s.1, w), s.2, next_count(w[1])), w[1] == s.3)
    }
}

/// Reset and programming of the oximeter.
pub open spec fn spec_init_afe_ops() -> Seq<BusOp> {
    seq![
        BusOp::SetPin { pin: Pin::AfeReset, high: false },
        BusOp::Delay { cycles: 144000 },
        BusOp::SetPin { pin: Pin::AfeReset, high: true },
        BusOp::Delay { cycles: 144000 },
    ]
    + send_ops(BusReg::AfeSpiMode, afe::spec_afe4490_diag())
    + seq![BusOp::Delay { cycles: 1440000 }]
    + send_ops(BusReg::AfeSpiMode, afe::spec_afe4490_prog1())
    + send_ops(BusReg::AfeSpiMode, afe::spec_afe4490_prog2())
    + send_ops(BusReg::AfeSpiMode, afe::spec_afe4490_prog3())
    + send_ops(BusReg::AfeSpiMode, afe::spec_afe4490_prog4())
    + send_ops(BusReg::AfeSpiMode, afe::spec_afe4490_prog5())
    + send_ops(BusReg::AfeSpiMode, afe::spec_afe4490_prog6())
    + send_ops(BusReg::AfeSpiMode, afe::spec_afe4490_prog7())
    + send_ops(BusReg::AfeSpiMode, afe::spec_afe4490_prog8())
    + send_ops(BusReg::AfeSpiMode, afe::spec_afe4490_prog9())
    + send_ops(BusReg::AfeSpiMode, afe::spec_afe4490_proga())
    + send_ops(BusReg::AfeSpiMode, afe::spec_afe4490_progb())
    + send_ops(BusReg::AfeSpiMode, afe::spec_afe4490_progc())
    + send_ops(BusReg::AfeSpiMode, afe::spec_afe4490_progd())
    + send_ops(BusReg::AfeSpiMode, afe::spec_afe4490_proge())
    + send_ops(BusReg::AfeSpiMode, afe::spec_afe4490_progf())
    + send_ops(BusReg::AfeSpiMode, afe::spec_afe4490_prog10())
    + send_ops(BusReg::AfeSpiMode, afe::spec_afe4490_prog11())
    + send_ops(BusReg::AfeSpiMode, afe::spec_afe4490_prog12())
    + send_ops(BusReg::AfeSpiMode, afe::spec_afe4490_prog13())
    + send_ops(BusReg::AfeSpiMode, afe::spec_afe4490_prog14())
    + send_ops(BusReg::AfeSpiMode, afe::spec_afe4490_prog15())
    + send_ops(BusReg::AfeSpiMode, afe::spec_afe4490_prog16())
    + send_ops(BusReg::AfeSpiMode, afe::spec_afe4490_prog17())
    + send_ops(BusReg::AfeSpiMode, afe::spec_afe4490_prog18())
    + send_ops(BusReg::AfeSpiMode, afe::spec_afe4490_prog19())
    + send_ops(BusReg::AfeSpiMode, afe::spec_afe4490_prog1a())
    + send_ops(BusReg::AfeSpiMode, afe::spec_afe4490_prog1b())
    + send_ops(BusReg::AfeSpiMode, afe::spec_afe4490_prog1c())
    + send_ops(BusReg::AfeSpiMode, afe::spec_afe4490_prog1d())
    + send_ops(BusReg::AfeSpiMode, afe::spec_afe4490_prog1e())
    + send_ops(BusReg::AfeSpiMode, afe::spec_afe4490_prog20())
    + send_ops(BusReg::AfeSpiMode, afe::spec_afe4490_prog21())
    + send_ops(BusReg::AfeSpiMode, afe::spec_afe4490_prog22())
    + send_ops(BusReg::AfeSpiMode, afe::spec_afe4490_prog23())
    + send_ops(BusReg::AfeSpiMode, afe::spec_afe4490_prog29())
    + send_ops(BusReg::AfeSpiMode, afe::spec_afe4490_spireaden())
}

/// Start-up of the converters, the PLD's acquisition and the oximeter.
pub open spec fn spec_init_ops() -> Seq<BusOp> {
    seq![BusOp::SetPin { pin: Pin::AdcStart, high: false }, BusOp::Delay { cycles: 2880000 }]
    + send_ops(BusReg::Spi, tables::spec_adc1298_stop_cmd())
    + seq![
        BusOp::Write { reg: BusReg::RdSpi, value: 0x0018 },
        BusOp::Write { reg: BusReg::Fifo, value: 0x0018 },
        BusOp::Write { reg: BusReg::AdcMode, value: 0x0002 },
        BusOp::Delay { cycles: 360000 },
        BusOp::Write { reg: BusReg::Cfg, value: 0x0051 },
        BusOp::Delay { cycles: CYCLES_PER_MS },
        BusOp::Write { reg: BusReg::Cfg, value: 0x0032 },
        BusOp::Delay { cycles: CYCLES_PER_MS },
        BusOp::SetPin { pin: Pin::AdcReset, high: false },
        BusOp::Delay { cycles: 720000 },
        BusOp::SetPin { pin: Pin::AdcReset, high: true },
    ]
    + send_ops(BusReg::Spi, tables::spec_adc1298_stop_cmd())
    + send_ops(BusReg::Spi, tables::spec_adc1298_set1khz_cmd())
    + send_ops(BusReg::Spi, tables::spec_adc1298_signal_cmd())
    + send_ops(BusReg::Spi, tables::spec_adc1298_start_cmd())
    + seq![
        BusOp::Write { reg: BusReg::Ie, value: 0x0008 },
        BusOp::Write { reg: BusReg::Gie, value: 0x0001 },
    ]
    + spec_init_afe_ops()
    + seq![
        BusOp::Write { reg: BusReg::AdcMode, value: 0x0000 },
        BusOp::Delay { cycles: CYCLES_PER_MS },
        BusOp::SetPin { pin: Pin::AdcStart, high: true },
    ]
}

/// Recovery after a bad frame: the FIFOs and the oximeter are reset and
/// acquisition restarted.
pub open spec fn spec_fifo_reset_ops() -> Seq<BusOp> {
    seq![
        BusOp::SetPin { pin: Pin::AdcStart, high: false },
        BusOp::Write { reg: BusReg::AdcMode, value: 0x0002 },
        BusOp::Delay { cycles: 360000 },
        BusOp::Write { reg: BusReg::Cfg, value: 0x0073 },
        BusOp::Delay { cycles: CYCLES_PER_MS },
        BusOp::Write { reg: BusReg::Cfg, value: 0x0072 },
        BusOp::Delay { cycles: CYCLES_PER_MS },
        BusOp::Write { reg: BusReg::Ie, value: 0x0008 },
        BusOp::Write { reg: BusReg::Gie, value: 0x0001 },
    ]
    + spec_init_afe_ops()
    + seq![
        BusOp::Write { reg: BusReg::AdcMode, value: 0x0000 },
        BusOp::Delay { cycles: 432000 },
        BusOp::SetPin { pin: Pin::AdcStart, high: true },
    ]
}

/// What to do after a pair of frames has been read.
pub enum SampleStep {
    /// Both frames are good: hand them on.
    Frames,
    /// A frame was bad: carry out the reset procedure.
    Reset(Vec<BusOp>),
}

pub struct MegaAdc {
    adc_frame: AdcFrame,
    afe_frame: AfeFrame,
    cnt: u16,
    afe_cnt: u16,
}

impl View for MegaAdc {
    type V = MegaAdcView;

    closed spec fn view(&self) -> MegaAdcView {
        (self.adc_frame, self.afe_frame, self.cnt, self.afe_cnt)
    }
}

impl MegaAdc {
    pub fn new() -> (m: Self)
        ensures
            m@.0.channels() == Seq::new(16, |i: int| 0i32),
            m@.0.cnt == 0 && m@.0.sec == 0 && m@.0.tick == 0 && m@.0.nu2 == 0,
            m@.1 == (AfeFrame { ir: 0, bg_ir: 0, rd: 0, bg_rd: 0, cnt: 0, sec: 0, tick: 0, nu2: 0 }),
            m@.2 == 0,
            m@.3 == 0,
    {
        MegaAdc { adc_frame: AdcFrame::new(), afe_frame: AfeFrame::new(), cnt: 0, afe_cnt: 0 }
    }

    /// The last converter frame read.
    pub fn adc_frame(&self) -> (f: AdcFrame)
        ensures
            f == self@.0,
    {
        self.adc_frame
    }

    /// The last oximeter frame read.
    pub fn afe_frame(&self) -> (f: AfeFrame)
        ensures
            f == self@.1,
    {
        self.afe_frame
    }

    /// The start-up procedure.
    pub fn init(&mut self) -> (ops: Vec<BusOp>)
        ensures
            ops@ == spec_init_ops(),
            final(self)@ == old(self)@,
    {
        let mut ops: Vec<BusOp> = vec![cmd::adc_stop(), BusOp::Delay { cycles: 2880000 }];
        append_ops(&mut ops, cmd::write(tables::adc1298_stop_cmd().as_slice()));
        append_ops(&mut ops, vec![
            BusOp::Write { reg: BusReg::RdSpi, value: 0x0018 },
            BusOp::Write { reg: BusReg::Fifo, value: 0x0018 },
            BusOp::Write { reg: BusReg::AdcMode, value: 0x0002 },
            BusOp::Delay { cycles: 360000 },
            BusOp::Write { reg: BusReg::Cfg, value: 0x0051 },
            BusOp::Delay { cycles: CYCLES_PER_MS },
            BusOp::Write { reg: BusReg::Cfg, value: 0x0032 },
            BusOp::Delay { cycles: CYCLES_PER_MS },
            cmd::adc_reset_on(),
            BusOp::Delay { cycles: 720000 },
            cmd::adc_reset_off(),
        ]);
        append_ops(&mut ops, cmd::write(tables::adc1298_stop_cmd().as_slice()));
        append_ops(&mut ops, cmd::write(tables::adc1298_set1khz_cmd().as_slice()));
        append_ops(&mut ops, cmd::write(tables::adc1298_signal_cmd().as_slice()));
        append_ops(&mut ops, cmd::write(tables::adc1298_start_cmd().as_slice()));
        append_ops(&mut ops, vec![
            BusOp::Write { reg: BusReg::Ie, value: 0x0008 },
            BusOp::Write { reg: BusReg::Gie, value: 0x0001 },
        ]);
        append_ops(&mut ops, self.init_afe());
        append_ops(&mut ops, vec![
            BusOp::Write { reg: BusReg::AdcMode, value: 0x0000 },
            BusOp::Delay { cycles: CYCLES_PER_MS },
            cmd::adc_start(),
        ]);
        ops
    }

    /// Reset and programming of the oximeter.
    pub fn init_afe(&self) -> (ops: Vec<BusOp>)
        ensures
            ops@ == spec_init_afe_ops(),
    {
        let mut ops: Vec<BusOp> = vec![
            afe::reset_on(),
            BusOp::Delay { cycles: 144000 },
            afe::reset_off(),
            BusOp::Delay { cycles: 144000 },
        ];
        append_ops(&mut ops, afe::cmd_write(afe::afe4490_diag().as_slice()));
        append_ops(&mut ops, vec![BusOp::Delay { cycles: 1440000 }]);
        append_ops(&mut ops, afe::cmd_write(afe::afe4490_prog1().as_slice()));
        append_ops(&mut ops, afe::cmd_write(afe::afe4490_prog2().as_slice()));
        append_ops(&mut ops, afe::cmd_write(afe::afe4490_prog3().as_slice()));
        append_ops(&mut ops, afe::cmd_write(afe::afe4490_prog4().as_slice()));
        append_ops(&mut ops, afe::cmd_write(afe::afe4490_prog5().as_slice()));
        append_ops(&mut ops, afe::cmd_write(afe::afe4490_prog6().as_slice()));
        append_ops(&mut ops, afe::cmd_write(afe::afe4490_prog7().as_slice()));
        append_ops(&mut ops, afe::cmd_write(afe::afe4490_prog8().as_slice()));
        append_ops(&mut ops, afe::cmd_write(afe::afe4490_prog9().as_slice()));
        append_ops(&mut ops, afe::cmd_write(afe::afe4490_proga().as_slice()));
        append_ops(&mut ops, afe::cmd_write(afe::afe4490_progb().as_slice()));
        append_ops(&mut ops, afe::cmd_write(afe::afe4490_progc().as_slice()));
        append_ops(&mut ops, afe::cmd_write(afe::afe4490_progd().as_slice()));
        append_ops(&mut ops, afe::cmd_write(afe::afe4490_proge().as_slice()));
        append_ops(&mut ops, afe::cmd_write(afe::afe4490_progf().as_slice()));
        append_ops(&mut ops, afe::cmd_write(afe::afe4490_prog10().as_slice()));
        append_ops(&mut ops, afe::cmd_write(afe::afe4490_prog11().as_slice()));
        append_ops(&mut ops, afe::cmd_write(afe::afe4490_prog12().as_slice()));
        append_ops(&mut ops, afe::cmd_write(afe::afe4490_prog13().as_slice()));
        append_ops(&mut ops, afe::cmd_write(afe::afe4490_prog14().as_slice()));
        append_ops(&mut ops, afe::cmd_write(afe::afe4490_prog15().as_slice()));
        append_ops(&mut ops, afe::cmd_write(afe::afe4490_prog16().as_slice()));
        append_ops(&mut ops, afe::cmd_write(afe::afe4490_prog17().as_slice()));
        append_ops(&mut ops, afe::cmd_write(afe::afe4490_prog18().as_slice()));
        append_ops(&mut ops, afe::cmd_write(afe::afe4490_prog19().as_slice()));
        append_ops(&mut ops, afe::cmd_write(afe::afe4490_prog1a().as_slice()));
        append_ops(&mut ops, afe::cmd_write(afe::afe4490_prog1b().as_slice()));
        append_ops(&mut ops, afe::cmd_write(afe::afe4490_prog1c().as_slice()));
        append_ops(&mut ops, afe::cmd_write(afe::afe4490_prog1d().as_slice()));
        append_ops(&mut ops, afe::cmd_write(afe::afe4490_prog1e().as_slice()));
        append_ops(&mut ops, afe::cmd_write(afe::afe4490_prog20().as_slice()));
        append_ops(&mut ops, afe::cmd_write(afe::afe4490_prog21().as_slice()));
        append_ops(&mut ops, afe::cmd_write(afe::afe4490_prog22().as_slice()));
        append_ops(&mut ops, afe::cmd_write(afe::afe4490_prog23().as_slice()));
        append_ops(&mut ops, afe::cmd_write(afe::afe4490_prog29().as_slice()));
        append_ops(&mut ops, afe::cmd_write(afe::afe4490_spireaden().as_slice()));
        ops
    }

    /// Recovery after a bad frame: the expected counters start again at 0 and
    /// the reset procedure is returned.
    pub fn fifo_reset(&mut self) -> (ops: Vec<BusOp>)
        ensures
            ops@ == spec_fifo_reset_ops(),
            final(self)@ == (old(self)@.0, old(self)@.1, 0u16, 0u16),
    {
        self.cnt = 0;
        self.afe_cnt = 0;
        let mut ops: Vec<BusOp> = vec![
            cmd::adc_stop(),
            BusOp::Write { reg: BusReg::AdcMode, value: 0x0002 },
            BusOp::Delay { cycles: 360000 },
            BusOp::Write { reg: BusReg::Cfg, value: 0x0073 },
            BusOp::Delay { cycles: CYCLES_PER_MS },
            BusOp::Write { reg: BusReg::Cfg, value: 0x0072 },
            BusOp::Delay { cycles: CYCLES_PER_MS },
            BusOp::Write { reg: BusReg::Ie, value: 0x0008 },
            BusOp::Write { reg: BusReg::Gie, value: 0x0001 },
        ];
        append_ops(&mut ops, self.init_afe());
        append_ops(&mut ops, vec![
            BusOp::Write { reg: BusReg::AdcMode, value: 0x0000 },
            BusOp::Delay { cycles: 432000 },
            cmd::adc_start(),
        ]);
        ops
    }
    /// Reads one converter frame from the words taken out of the FIFO: the
    /// six header words, and the other 35 only after the right marker.
    pub fn try_read_adc1298_fifo(&mut self, fifo: &[u16]) -> (r: Result<(), ()>)
        requires
            adc_words_taken(fifo@),
        ensures
            (final(self)@, r is Ok) == adc_read(old(self)@, fifo@),
    {
        let head = fifo[0];
        if (head ^ 0xFEFEu16) != 0 {
            assert(head != ADC_FRAME_HEAD) by (bit_vector)
                requires
                    (head ^ 0xFEFEu16) != 0,
            ;
            return Err(());
        }
        assert(head == ADC_FRAME_HEAD) by (bit_vector)
            requires
                (head ^ 0xFEFEu16) == 0,
        ;
        let ghost f0 = self.adc_frame;
        let mut i: usize = 0;
        while i < 16
            invariant
                fifo@.len() == ADC_FIFO_WORDS,
                i <= 16,
                self.afe_frame == old(self).afe_frame,
                self.cnt == old(self).cnt,
                self.afe_cnt == old(self).afe_cnt,
                self.adc_frame.cnt == f0.cnt,
                self.adc_frame.sec == f0.sec,
                self.adc_frame.tick == f0.tick,
                self.adc_frame.nu2 == f0.nu2,
                forall|k: int|
                    0 <= k < i ==> self.adc_frame.channels()[tables::spec_ad1298_change(k)]
                        == #[trigger] adc_point(fifo@, k) as i32,
            decreases 16 - i,
        {
            let bb_l = fifo[6 + 2 * i] as u32;
            let bb_h = fifo[7 + 2 * i] as u32;
            let mut bb: u32 = (bb_h << 16u32) | bb_l;
            bb = sign_extend_24_exec(bb);
            let sh = tables::ad1298_shift(i);
            if bb == 0xFF80_0000u32 {
                assert((1u32 << sh) <= 256u32) by (bit_vector)
                    requires
                        sh <= 8u32,
                ;
                bb += 1u32 << sh;
            }
            let c = tables::ad1298_change(i);
            proof {
                assert forall|k: int| 0 <= k < i implies tables::spec_ad1298_change(k) != c by {
                    tables::lemma_change_distinct(k, i as int);
                }
                tables::lemma_change_distinct(i as int, if i == 0 { 1 } else { 0 });
            }
            self.adc_frame.set_channel(c, (bb >> sh) as i32);
            i += 1;
        }
        let cnt = fifo[39];
        self.adc_frame.cnt = cnt as u32;
        if cnt != self.cnt {
            self.cnt = cnt.wrapping_add(1);
            return Err(());
        }
        self.cnt = cnt.wrapping_add(1);
        Ok(())
    }

    /// Reads one oximeter frame from the words taken out of its FIFO: the
    /// marker and the counter, and the other 10 only after the right marker.
    pub fn try_read_afe_fifo(&mut self, fifo: &[u16]) -> (r: Result<(), ()>)
        requires
            afe_words_taken(fifo@),
        ensures
            (final(self)@, r is Ok) == afe_read(old(self)@, fifo@),
    {
        let head = fifo[0];
        let cnt = fifo[1];
        if (head ^ 0xFEFDu16) != 0 {
            assert(head != AFE_FRAME_HEAD) by (bit_vector)
                requires
                    (head ^ 0xFEFDu16) != 0,
            ;
            return Err(());
        }
        assert(head == AFE_FRAME_HEAD) by (bit_vector)
            requires
                (head ^ 0xFEFDu16) == 0,
        ;
        let mut vals: [u32; 4] = [0; 4];
        let mut i: usize = 0;
        while i < 4
            invariant
                fifo@.len() == AFE_FIFO_WORDS,
                i <= 4,
                forall|k: int| 0 <= k < i ==> #[trigger] vals@[k] == afe_point(fifo@, k),
            decreases 4 - i,
        {
            let bb_l = fifo[2 + 2 * i] as u32;
            let bb_h = fifo[3 + 2 * i] as u32;
            let bb: u32 = (bb_h << 16u32) | bb_l;
            vals[i] = sign_extend_22_exec(bb);
            i += 1;
        }
        self.afe_frame.ir = vals[0] as i32;
        self.afe_frame.bg_ir = vals[1] as i32;
        self.afe_frame.rd = vals[2] as i32;
        self.afe_frame.bg_rd = vals[3] as i32;
        self.afe_frame.cnt = cnt as u32;
        if cnt != self.afe_cnt {
            self.afe_cnt = cnt.wrapping_add(1);
            return Err(());
        }
        self.afe_cnt = cnt.wrapping_add(1);
        Ok(())
    }

    /// Reads a converter frame and then an oximeter frame.  When both are
    /// good they can be handed on; otherwise the reader is reset and the
    /// reset procedure is returned.
    pub fn try_samples(&mut self, adc_fifo: &[u16], afe_fifo: &[u16]) -> (r: SampleStep)
        requires
            adc_words_taken(adc_fifo@),
            afe_words_taken(afe_fifo@),
        ensures
            ({
                let (s1, ok1) = adc_read(old(self)@, adc_fifo@);
                let (s2, ok2) = afe_read(s1, afe_fifo@);
                &&& ok1 && ok2 ==> r is Frames && final(self)@ == s2
                &&& !(ok1 && ok2) ==> (r matches SampleStep::Reset(ops) && ops@ == spec_fifo_reset_ops())
                    && final(self)@ == (s2.0, s2.1, 0u16, 0u16)
            }),
    {
        let ra = self.try_read_adc1298_fifo(adc_fifo);
        let rb = self.try_read_afe_fifo(afe_fifo);
        match (ra, rb) {
            (Ok(_), Ok(_)) => SampleStep::Frames,
            _ => SampleStep::Reset(self.fifo_reset()),
        }
    }
}


/// A frame with a wrong marker is refused and changes nothing; a frame
/// with the right marker is always stored, and it is accepted exactly when
/// its counter is the one expected.
pub proof fn lemma_adc_read_outcome(s: MegaAdcView, w: Seq<u16>)
    requires
        adc_words_taken(w),
    ensures
        w[0] != ADC_FRAME_HEAD ==> adc_read(s, w) == (s, false),
        w[0] == ADC_FRAME_HEAD ==> adc_read(s, w).0.0 == decoded_adc_frame(s.0, w) && adc_read(
            s,
            w,
        ).1 == (w[39] == s.2) && adc_read(s, w).0.2 == next_count(w[39]),
{
}

/// Converter frames numbered one after the other keep being accepted,
/// across the wrap of the 16-bit counter too: after an accepted frame
/// numbered `c`, a frame with the right marker numbered `c + 1` (0 after
/// 0xFFFF) is accepted.
pub proof fn lemma_adc_counter_continues(s: MegaAdcView, w1: Seq<u16>, w2: Seq<u16>)
    requires
        w1.len() == ADC_FIFO_WORDS,
        w2.len() == ADC_FIFO_WORDS,
        w1[0] == ADC_FRAME_HEAD,
        w1[39] == s.2,
        w2[0] == ADC_FRAME_HEAD,
        w2[39] == next_count(w1[39]),
    ensures
        adc_read(s, w1).1,
        adc_read(adc_read(s, w1).0, w2).1,
{
}

/// Oximeter frames numbered one after the other keep being accepted.
pub proof fn lemma_afe_counter_continues(s: MegaAdcView, w1: Seq<u16>, w2: Seq<u16>)
    requires
        w1.len() == AFE_FIFO_WORDS,
        w2.len() == AFE_FIFO_WORDS,
        w1[0] == AFE_FRAME_HEAD,
        w1[1] == s.3,
        w2[0] == AFE_FRAME_HEAD,
        w2[1] == next_count(w1[1]),
    ensures
        afe_read(s, w1).1,
        afe_read(afe_read(s, w1).0, w2).1,
{
}

/// After a reset the reader expects both counters to start again at 0: a
/// pair of good frames numbered 0 is accepted.
pub proof fn lemma_reset_restarts_count(s: MegaAdcView, wa: Seq<u16>, wb: Seq<u16>)
    requires
        s.2 == 0,
        s.3 == 0,
        wa.len() == ADC_FIFO_WORDS,
        wb.len() == AFE_FIFO_WORDS,
        wa[0] == ADC_FRAME_HEAD,
        wa[39] == 0,
        wb[0] == AFE_FRAME_HEAD,
        wb[1] == 0,
    ensures
        adc_read(s, wa).1,
        afe_read(adc_read(s, wa).0, wb).1,
{
}

/// Reading a converter frame leaves the oximeter side alone, and the other
/// way round.
pub proof fn lemma_reads_independent(s: MegaAdcView, wa: Seq<u16>, wb: Seq<u16>)
    requires
        wa.len() == ADC_FIFO_WORDS,
        wb.len() == AFE_FIFO_WORDS,
    ensures
        adc_read(s, wa).0.1 == s.1,
        adc_read(s, wa).0.3 == s.3,
        afe_read(s, wb).0.0 == s.0,
        afe_read(s, wb).0.2 == s.2,
{
}


/// Sign extension from 24 bits gives the two's-complement value of the low
/// 24 bits of `x`: a sample with bit 23 clear is kept whole, and one with
/// bit 23 set counts 2^24 less.
pub proof fn lemma_sign_extend_24(x: u32)
    ensures
        x & 0x0080_0000u32 == 0 ==> sign_extend_24(x) == x & 0x00FF_FFFFu32,
        x & 0x0080_0000u32 == 0 ==> (sign_extend_24(x) as i32) as int == (x & 0x00FF_FFFFu32) as int,
        x & 0x0080_0000u32 != 0 ==> (sign_extend_24(x) as i32) as int == (x & 0x00FF_FFFFu32) as int
            - 0x0100_0000,
{
    assert(x & 0x0080_0000u32 == 0 ==> (((x & 0x00FF_FFFFu32) as i32) as int == (x
        & 0x00FF_FFFFu32) as int)) by (bit_vector);
    assert(x & 0x0080_0000u32 != 0 ==> ((((x & 0x00FF_FFFFu32) | 0xFF00_0000u32) as i32) as int
        == (x & 0x00FF_FFFFu32) as int - 0x0100_0000)) by (bit_vector);
}

/// Sign extension from 22 bits gives the two's-complement value of the low
/// 22 bits of `x`: a value with bit 21 clear is kept whole, and one with bit
/// 21 set counts 2^22 less.
pub proof fn lemma_sign_extend_22(x: u32)
    ensures
        x & 0x0020_0000u32 == 0 ==> sign_extend_22(x) == x & 0x003F_FFFFu32,
        x & 0x0020_0000u32 == 0 ==> (sign_extend_22(x) as i32) as int == (x & 0x003F_FFFFu32) as int,
        x & 0x0020_0000u32 != 0 ==> (sign_extend_22(x) as i32) as int == (x & 0x003F_FFFFu32) as int
            - 0x0040_0000,
{
    assert(x & 0x0020_0000u32 == 0 ==> (((x & 0x003F_FFFFu32) as i32) as int == (x
        & 0x003F_FFFFu32) as int)) by (bit_vector);
    assert(x & 0x0020_0000u32 != 0 ==> ((((x & 0x003F_FFFFu32) | 0xFFC0_0000u32) as i32) as int
        == (x & 0x003F_FFFFu32) as int - 0x0040_0000)) by (bit_vector);
}


/// A converter point whose sample has bit 23 clear keeps all 24 bits of the
/// sample: it is the low byte of the high word above the low word, shifted
/// right by the channel's shift.
pub proof fn lemma_adc_point_non_negative(w: Seq<u16>, i: int)
    requires
        0 <= i < 16,
        7 + 2 * i < w.len(),
        w[7 + 2 * i] & 0x0080u16 == 0,
    ensures
        adc_point(w, i) == ((((w[7 + 2 * i] & 0x00FFu16) as u32) << 16u32) | (w[6 + 2 * i] as u32))
            >> tables::spec_ad1298_shift(i),
{
    let l = w[6 + 2 * i];
    let h = w[7 + 2 * i];
    let j = join_words(l, h);
    assert(j & 0x0080_0000u32 == 0 && j & 0x00FF_FFFFu32 == (((h & 0x00FFu16) as u32) << 16u32) | (
    l as u32) && j & 0x00FF_FFFFu32 != 0xFF80_0000u32) by (bit_vector)
        requires
            j == ((h as u32) << 16u32) | (l as u32),
            h & 0x0080u16 == 0,
    ;
    lemma_sign_extend_24(j);
}

/// An oximeter value with bit 21 clear keeps all 22 bits: it is the low six
/// bits of the high word above the low word.
pub proof fn lemma_afe_point_non_negative(w: Seq<u16>, i: int)
    requires
        0 <= i < 4,
        3 + 2 * i < w.len(),
        w[3 + 2 * i] & 0x0020u16 == 0,
    ensures
        afe_point(w, i) == (((w[3 + 2 * i] & 0x003Fu16) as u32) << 16u32) | (w[2 + 2 * i] as u32),
{
    let l = w[2 + 2 * i];
    let h = w[3 + 2 * i];
    let j = join_words(l, h);
    assert(j & 0x0020_0000u32 == 0 && j & 0x003F_FFFFu32 == (((h & 0x003Fu16) as u32) << 16u32) | (
    l as u32)) by (bit_vector)
        requires
            j == ((h as u32) << 16u32) | (l as u32),
            h & 0x0020u16 == 0,
    ;
    lemma_sign_extend_22(j);
}


/// A converter point whose sample has bit 23 set is the sample's
/// two's-complement value as a 32-bit word (the low 24 bits with the top
/// eight bits set), nudged up by one step of the channel's resolution when
/// it is the most negative sample 0x80_0000, then shifted right (logically)
/// by the channel's shift.
pub proof fn lemma_adc_point_negative(w: Seq<u16>, i: int)
    requires
        0 <= i < 16,
        7 + 2 * i < w.len(),
        w[7 + 2 * i] & 0x0080u16 != 0,
    ensures
        ({
            let lo: u32 = (((w[7 + 2 * i] & 0x00FFu16) as u32) << 16u32) | (w[6 + 2 * i] as u32);
            let s = tables::spec_ad1298_shift(i);
            let v: u32 = (lo + 0xFF00_0000u32) as u32;
            &&& lo != 0x0080_0000u32 ==> adc_point(w, i) == v >> s
            &&& lo == 0x0080_0000u32 ==> adc_point(w, i) == ((v + (1u32 << s)) as u32) >> s
        }),
{
    let l = w[6 + 2 * i];
    let h = w[7 + 2 * i];
    let j = join_words(l, h);
    let lo: u32 = (((h & 0x00FFu16) as u32) << 16u32) | (l as u32);
    assert(j & 0x0080_0000u32 != 0 && (j & 0x00FF_FFFFu32) | 0xFF00_0000u32 == (lo + 0xFF00_0000u32)
        as u32 && ((lo + 0xFF00_0000u32) as u32 == 0xFF80_0000u32 <==> lo == 0x0080_0000u32))
        by (bit_vector)
        requires
            j == ((h as u32) << 16u32) | (l as u32),
            lo == (((h & 0x00FFu16) as u32) << 16u32) | (l as u32),
            h & 0x0080u16 != 0,
    ;
}

/// An oximeter value with bit 21 set is its two's-complement value as a
/// 32-bit word: the low 22 bits with the top ten bits set.
pub proof fn lemma_afe_point_negative(w: Seq<u16>, i: int)
    requires
        0 <= i < 4,
        3 + 2 * i < w.len(),
        w[3 + 2 * i] & 0x0020u16 != 0,
    ensures
        afe_point(w, i) == ((((w[3 + 2 * i] & 0x003Fu16) as u32) << 16u32) | (w[2 + 2 * i] as u32))
            + 0xFFC0_0000u32,
{
    let l = w[2 + 2 * i];
    let h = w[3 + 2 * i];
    let j = join_words(l, h);
    assert(j & 0x0020_0000u32 != 0 && (j & 0x003F_FFFFu32) | 0xFFC0_0000u32 == (((((h & 0x003Fu16)
        as u32) << 16u32) | (l as u32)) + 0xFFC0_0000u32) as u32 && ((((h & 0x003Fu16) as u32)
        << 16u32) | (l as u32)) < 0x0040_0000u32) by (bit_vector)
        requires
            j == ((h as u32) << 16u32) | (l as u32),
            h & 0x0020u16 != 0,
    ;
}

} // verus!
