//! Handlers of the host protocol's register tree.  The tree has four
//! sections: `hard` (actuators and LED currents), `info` and `build`
//! (read-only descriptions of the firmware) and `test` (an echo register
//! and five read-only test strings).  Every handler answers with a
//! `Result`; writing a read-only register answers `NonWriteable`.
use vstd::prelude::*;
use crate::bus::{BusOp, BusReg};
use vstd::string::StringSliceAdditionalSpecFns;

verus! {

/// Errors a handler answers with.
#[derive(Debug, Clone, Copy, PartialEq, Eq, Structural)]
pub enum Error {
    /// The register cannot be written.
    NonWriteable,
}

/// Facts about the firmware build, taken from the build environment.
pub struct BuildInfo {
    pub pkg_version: &'static str,
    pub rustc_version: &'static str,
    pub git_version: Option<&'static str>,
    pub built_time_utc: &'static str,
    pub target: &'static str,
    pub host: &'static str,
    pub profile: &'static str,
    pub pkg_authors: &'static str,
}

/// Drive currents of the red and infrared LEDs of the pulse oximeter.
pub struct LedCurrents {
    red: u8,
    inf: u8,
}

/// Value first programmed into both LED currents.
pub const LED_CURRENT_START: u8 = 0x20;

/// Command word that makes the oximeter latch the LED current register.
pub const LED_CURRENT_CMD: u16 = 0x2202;

/// The LED current register: red current in the high byte, infrared in the
/// low byte.
pub open spec fn led_current_word(red: u8, inf: u8) -> u16 {
    ((red as u16) << 8u16) | (inf as u16)
}

/// Sending the LED currents to the oximeter.
pub open spec fn led_current_ops(red: u8, inf: u8) -> Seq<BusOp> {
    seq![
        BusOp::Write { reg: BusReg::AfeCmdLow, value: led_current_word(red, inf) },
        BusOp::Write { reg: BusReg::AfeCmdHigh, value: LED_CURRENT_CMD },
    ]
}

impl View for LedCurrents {
    /// (red, infrared)
    type V = (u8, u8);

    closed spec fn view(&self) -> (u8, u8) {
        (self.red, self.inf)
    }
}

/// A write to one of the LED current registers.
#[derive(Debug, Clone, Copy, PartialEq, Eq, Structural)]
pub enum LedWrite {
    Red(u8),
    Inf(u8),
}

/// The (red, infrared) currents after one write: the written current takes
/// the new value, the other one is kept.
pub open spec fn led_step(s: (u8, u8), w: LedWrite) -> (u8, u8) {
    match w {
        LedWrite::Red(v) => (v, s.1),
        LedWrite::Inf(v) => (s.0, v),
    }
}

/// The currents after the writes `ws`, in order, starting from `s`.
pub open spec fn led_after(s: (u8, u8), ws: Seq<LedWrite>) -> (u8, u8)
    decreases ws.len(),
{
    if ws.len() == 0 {
        s
    } else {
        led_step(led_after(s, ws.drop_last()), ws.last())
    }
}

/// The value of the last red write among `ws`, or `r0` when there is none.
pub open spec fn last_red(r0: u8, ws: Seq<LedWrite>) -> u8
    decreases ws.len(),
{
    if ws.len() == 0 {
        r0
    } else {
        match ws.last() {
            LedWrite::Red(v) => v,
            LedWrite::Inf(_) => last_red(r0, ws.drop_last()),
        }
    }
}

/// The value of the last infrared write among `ws`, or `i0` when there is
/// none.
pub open spec fn last_inf(i0: u8, ws: Seq<LedWrite>) -> u8
    decreases ws.len(),
{
    if ws.len() == 0 {
        i0
    } else {
        match ws.last() {
            LedWrite::Inf(v) => v,
            LedWrite::Red(_) => last_inf(i0, ws.drop_last()),
        }
    }
}

/// Over any run of writes, each current read back is the one last written
/// to it: writing one current never changes the other.
pub proof fn lemma_led_writes(s: (u8, u8), ws: Seq<LedWrite>)
    ensures
        led_after(s, ws) == (last_red(s.0, ws), last_inf(s.1, ws)),
    decreases ws.len(),
{
    if ws.len() > 0 {
        lemma_led_writes(s, ws.drop_last());
    }
}

/// After a red write of `v` followed by any number of infrared writes, the
/// red current reads back as `v`.
pub proof fn lemma_inf_writes_keep_red(s: (u8, u8), v: u8, ws: Seq<LedWrite>)
    requires
        forall|i: int| 0 <= i < ws.len() ==> (#[trigger] ws[i]) is Inf,
    ensures
        led_after(s, seq![LedWrite::Red(v)] + ws).0 == v,
    decreases ws.len(),
{
    let all = seq![LedWrite::Red(v)] + ws;
    lemma_led_writes(s, all);
    if ws.len() == 0 {
        assert(all.drop_last() =~= Seq::<LedWrite>::empty());
    } else {
        assert(all.drop_last() =~= seq![LedWrite::Red(v)] + ws.drop_last());
        assert(ws.last() is Inf);
        lemma_inf_writes_keep_red(s, v, ws.drop_last());
        lemma_led_writes(s, seq![LedWrite::Red(v)] + ws.drop_last());
    }
}

impl LedCurrents {
    pub fn new() -> (c: Self)
        ensures
            c@ == (LED_CURRENT_START, LED_CURRENT_START),
    {
        LedCurrents { red: LED_CURRENT_START, inf: LED_CURRENT_START }
    }
}

fn send_led_currents(cur: &LedCurrents, ops: &mut Vec<BusOp>)
    ensures
        final(ops)@ == old(ops)@ + led_current_ops(cur@.0, cur@.1),
{
    let tmp: u16 = ((cur.red as u16) << 8u16) | (cur.inf as u16);
    ops.push(BusOp::Write { reg: BusReg::AfeCmdLow, value: tmp });
    ops.push(BusOp::Write { reg: BusReg::AfeCmdHigh, value: LED_CURRENT_CMD });
    assert(ops@ =~= old(ops)@ + led_current_ops(cur@.0, cur@.1));
}

/// Largest message the echo register holds.
pub const ECHO_CAPACITY: usize = 0x40;

/// The echo register: gives back what was last written to it.
pub struct Echo {
    buf: Vec<u8>,
}

impl View for Echo {
    type V = Seq<u8>;

    closed spec fn view(&self) -> Seq<u8> {
        self.buf@
    }
}

impl Echo {
    pub fn new() -> (e: Self)
        ensures
            e@ == Seq::<u8>::empty(),
    {
        Echo { buf: Vec::new() }
    }
}

pub fn cb_erase_hard() -> (r: Result<(), Error>)
    ensures
        r == Ok::<(), Error>(()),
{
    Ok(())
}

/// Sets the compressor's PWM duty: one write of `v` to its PLD register.
pub fn cb_write_hard_comp(ops: &mut Vec<BusOp>, v: u16) -> (r: Result<(), Error>)
    ensures
        r == Ok::<(), Error>(()),
        final(ops)@ == old(ops)@.push(BusOp::Write { reg: BusReg::PwmComp, value: v }),
{
    ops.push(BusOp::Write { reg: BusReg::PwmComp, value: v });
    Ok(())
}

/// Reads the compressor's PWM duty back: one read of its PLD register,
/// whose value is the answer.
pub fn cb_read_hard_comp(ops: &mut Vec<BusOp>)
    ensures
        final(ops)@ == old(ops)@.push(BusOp::Read { reg: BusReg::PwmComp }),
{
    ops.push(BusOp::Read { reg: BusReg::PwmComp });
}

/// Sets the valve's PWM duty: one write of `v` to its PLD register.
pub fn cb_write_hard_valv(ops: &mut Vec<BusOp>, v: u16) -> (r: Result<(), Error>)
    ensures
        r == Ok::<(), Error>(()),
        final(ops)@ == old(ops)@.push(BusOp::Write { reg: BusReg::PwmValve, value: v }),
{
    ops.push(BusOp::Write { reg: BusReg::PwmValve, value: v });
    Ok(())
}

/// Reads the valve's PWM duty back: one read of its PLD register, whose
/// value is the answer.
pub fn cb_read_hard_valv(ops: &mut Vec<BusOp>)
    ensures
        final(ops)@ == old(ops)@.push(BusOp::Read { reg: BusReg::PwmValve }),
{
    ops.push(BusOp::Read { reg: BusReg::PwmValve });
}

/// Sets the red LED current and sends both currents to the oximeter.
pub fn cb_write_hard_red(cur: &mut LedCurrents, ops: &mut Vec<BusOp>, v: u8) -> (r: Result<
    (),
    Error,
>)
    ensures
        r == Ok::<(), Error>(()),
        final(cur)@ == led_step(old(cur)@, LedWrite::Red(v)),
        final(ops)@ == old(ops)@ + led_current_ops(v, old(cur)@.1),
{
    cur.red = v;
    send_led_currents(cur, ops);
    Ok(())
}

pub fn cb_read_hard_red(cur: &LedCurrents) -> (r: Result<u8, Error>)
    ensures
        r == Ok::<u8, Error>(cur@.0),
{
    Ok(cur.red)
}

/// Sets the infrared LED current and sends both currents to the oximeter.
pub fn cb_write_hard_inf(cur: &mut LedCurrents, ops: &mut Vec<BusOp>, v: u8) -> (r: Result<
    (),
    Error,
>)
    ensures
        r == Ok::<(), Error>(()),
        final(cur)@ == led_step(old(cur)@, LedWrite::Inf(v)),
        final(ops)@ == old(ops)@ + led_current_ops(old(cur)@.0, v),
{
    cur.inf = v;
    send_led_currents(cur, ops);
    Ok(())
}

pub fn cb_read_hard_inf(cur: &LedCurrents) -> (r: Result<u8, Error>)
    ensures
        r == Ok::<u8, Error>(cur@.1),
{
    Ok(cur.inf)
}

pub fn cb_erase_info() -> (r: Result<(), Error>)
    ensures
        r == Ok::<(), Error>(()),
{
    Ok(())
}

pub fn cb_write_info_version(_v: &'static str) -> (r: Result<(), Error>)
    ensures
        r == Err::<(), Error>(Error::NonWriteable),
{
    Err(Error::NonWriteable)
}

pub fn cb_read_info_version(info: &BuildInfo) -> (r: Result<&'static str, Error>)
    ensures
        r matches Ok(s) && s@ == info.pkg_version@,
{
    Ok(info.pkg_version)
}

pub fn cb_erase_build() -> (r: Result<(), Error>)
    ensures
        r == Ok::<(), Error>(()),
{
    Ok(())
}

pub fn cb_write_build_version(_v: &'static str) -> (r: Result<(), Error>)
    ensures
        r == Err::<(), Error>(Error::NonWriteable),
{
    Err(Error::NonWriteable)
}

pub fn cb_read_build_version(info: &BuildInfo) -> (r: Result<&'static str, Error>)
    ensures
        r matches Ok(s) && s@ == info.pkg_version@,
{
    Ok(info.pkg_version)
}

pub fn cb_write_build_compiler(_v: &'static str) -> (r: Result<(), Error>)
    ensures
        r == Err::<(), Error>(Error::NonWriteable),
{
    Err(Error::NonWriteable)
}

pub fn cb_read_build_compiler(info: &BuildInfo) -> (r: Result<&'static str, Error>)
    ensures
        r matches Ok(s) && s@ == info.rustc_version@,
{
    Ok(info.rustc_version)
}

pub fn cb_write_build_git(_v: &'static str) -> (r: Result<(), Error>)
    ensures
        r == Err::<(), Error>(Error::NonWriteable),
{
    Err(Error::NonWriteable)
}

/// The revision the firmware was built from, or `"None"` when it is not known.
pub fn cb_read_build_git(info: &BuildInfo) -> (r: Result<&'static str, Error>)
    ensures
        r matches Ok(s) && (match info.git_version {
            Some(g) => s@ == g@,
            None => s@ == "None"@,
        }),
{
    match info.git_version {
        Some(g) => Ok(g),
        None => Ok("None"),
    }
}

pub fn cb_write_build_time(_v: &'static str) -> (r: Result<(), Error>)
    ensures
        r == Err::<(), Error>(Error::NonWriteable),
{
    Err(Error::NonWriteable)
}

pub fn cb_read_build_time(info: &BuildInfo) -> (r: Result<&'static str, Error>)
    ensures
        r matches Ok(s) && s@ == info.built_time_utc@,
{
    Ok(info.built_time_utc)
}

pub fn cb_write_build_target(_v: &'static str) -> (r: Result<(), Error>)
    ensures
        r == Err::<(), Error>(Error::NonWriteable),
{
    Err(Error::NonWriteable)
}

pub fn cb_read_build_target(info: &BuildInfo) -> (r: Result<&'static str, Error>)
    ensures
        r matches Ok(s) && s@ == info.target@,
{
    Ok(info.target)
}

pub fn cb_write_build_host(_v: &'static str) -> (r: Result<(), Error>)
    ensures
        r == Err::<(), Error>(Error::NonWriteable),
{
    Err(Error::NonWriteable)
}

pub fn cb_read_build_host(info: &BuildInfo) -> (r: Result<&'static str, Error>)
    ensures
        r matches Ok(s) && s@ == info.host@,
{
    Ok(info.host)
}

pub fn cb_write_build_profile(_v: &'static str) -> (r: Result<(), Error>)
    ensures
        r == Err::<(), Error>(Error::NonWriteable),
{
    Err(Error::NonWriteable)
}

pub fn cb_read_build_profile(info: &BuildInfo) -> (r: Result<&'static str, Error>)
    ensures
        r matches Ok(s) && s@ == info.profile@,
{
    Ok(info.profile)
}

pub fn cb_write_build_authors(_v: &'static str) -> (r: Result<(), Error>)
    ensures
        r == Err::<(), Error>(Error::NonWriteable),
{
    Err(Error::NonWriteable)
}

pub fn cb_read_build_authors(info: &BuildInfo) -> (r: Result<&'static str, Error>)
    ensures
        r matches Ok(s) && s@ == info.pkg_authors@,
{
    Ok(info.pkg_authors)
}

pub fn cb_erase_test() -> (r: Result<(), Error>)
    ensures
        r == Ok::<(), Error>(()),
{
    Ok(())
}

/// Stores a message in the echo register; it must fit in the register.
pub fn cb_write_test_echo(echo: &mut Echo, v: &[u8]) -> (r: Result<(), Error>)
    requires
        v@.len() <= ECHO_CAPACITY,
    ensures
        r == Ok::<(), Error>(()),
        final(echo)@ == v@,
{
    let mut buf: Vec<u8> = Vec::new();
    let mut i: usize = 0;
    while i < v.len()
        invariant
            i <= v@.len(),
            buf@ == v@.subrange(0, i as int),
        decreases v@.len() - i,
    {
        buf.push(v[i]);
        i += 1;
        assert(buf@ =~= v@.subrange(0, i as int));
    }
    assert(buf@ =~= v@);
    echo.buf = buf;
    Ok(())
}

/// The message last stored in the echo register.
pub fn cb_read_test_echo(echo: &Echo) -> (r: Result<&[u8], Error>)
    ensures
        r matches Ok(s) && s@ == echo@,
{
    Ok(echo.buf.as_slice())
}

pub fn cb_write_test_test1(_v: &'static [u8]) -> (r: Result<(), Error>)
    ensures
        r == Err::<(), Error>(Error::NonWriteable),
{
    Err(Error::NonWriteable)
}

pub fn cb_read_test_test1() -> (r: Result<&'static [u8], Error>)
    ensures
        r matches Ok(s) && s@ == "\"Oh, you can't help that,\" said the Cat:".spec_bytes(),
{
    Ok("\"Oh, you can't help that,\" said the Cat:".as_bytes())
}

pub fn cb_write_test_test2(_v: &'static [u8]) -> (r: Result<(), Error>)
    ensures
        r == Err::<(), Error>(Error::NonWriteable),
{
    Err(Error::NonWriteable)
}

pub fn cb_read_test_test2() -> (r: Result<&'static [u8], Error>)
    ensures
        r matches Ok(s) && s@ == "\"we're all mad here. I'm mad. You're mad.\"".spec_bytes(),
{
    Ok("\"we're all mad here. I'm mad. You're mad.\"".as_bytes())
}

pub fn cb_write_test_test3(_v: &'static [u8]) -> (r: Result<(), Error>)
    ensures
        r == Err::<(), Error>(Error::NonWriteable),
{
    Err(Error::NonWriteable)
}

pub fn cb_read_test_test3() -> (r: Result<&'static [u8], Error>)
    ensures
        r matches Ok(s) && s@ == "\"How do you know I'm mad?\" said Alice.".spec_bytes(),
{
    Ok("\"How do you know I'm mad?\" said Alice.".as_bytes())
}

pub fn cb_write_test_test4(_v: &'static [u8]) -> (r: Result<(), Error>)
    ensures
        r == Err::<(), Error>(Error::NonWriteable),
{
    Err(Error::NonWriteable)
}

pub fn cb_read_test_test4() -> (r: Result<&'static [u8], Error>)
    ensures
        r matches Ok(s) && s@ == "\"You must be,\" said the Cat,".spec_bytes(),
{
    Ok("\"You must be,\" said the Cat,".as_bytes())
}

pub fn cb_write_test_test5(_v: &'static [u8]) -> (r: Result<(), Error>)
    ensures
        r == Err::<(), Error>(Error::NonWriteable),
{
    Err(Error::NonWriteable)
}

pub fn cb_read_test_test5() -> (r: Result<&'static [u8], Error>)
    ensures
        r matches Ok(s) && s@ == "or you wouldn't have come here.\"".spec_bytes(),
{
    Ok("or you wouldn't have come here.\"".as_bytes())
}

} // verus!
