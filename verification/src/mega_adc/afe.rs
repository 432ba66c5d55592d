//! The AFE4490 pulse-oximeter front end: its register programme (timing
//! values recommended by the vendor, in 4 MHz clock ticks, for 1 kHz
//! sampling) and the commands that send it through the PLD.  Each command
//! is framed by 0x03 (chip select low) and 0x06 (chip select high) bytes.
use vstd::prelude::*;
use crate::bus::{BusOp, BusReg, Pin, send_ops};

verus! {

/// Start diagnostics and enable SPI reads.
pub open spec fn spec_afe4490_diag() -> Seq<u16> {
    seq![0x0300u16, 0x0300, 0x0300, 0x0304, 0x0600]
}

/// Start diagnostics and enable SPI reads.
pub fn afe4490_diag() -> (v: Vec<u16>)
    ensures
        v@ == spec_afe4490_diag(),
{
    vec![0x0300u16, 0x0300, 0x0300, 0x0304, 0x0600]
}

/// Enable SPI reads.
pub open spec fn spec_afe4490_spireaden() -> Seq<u16> {
    seq![0x0300u16, 0x0300, 0x0300, 0x0301, 0x0600]
}

/// Enable SPI reads.
pub fn afe4490_spireaden() -> (v: Vec<u16>)
    ensures
        v@ == spec_afe4490_spireaden(),
{
    vec![0x0300u16, 0x0300, 0x0300, 0x0301, 0x0600]
}

/// Program AFE4490 register 0x1.
pub open spec fn spec_afe4490_prog1() -> Seq<u16> {
    seq![0x0301u16, 0x0300, 0x030C, 0x0319, 0x0600]
}

/// Program AFE4490 register 0x1.
pub fn afe4490_prog1() -> (v: Vec<u16>)
    ensures
        v@ == spec_afe4490_prog1(),
{
    vec![0x0301u16, 0x0300, 0x030C, 0x0319, 0x0600]
}

/// Program AFE4490 register 0x2.
pub open spec fn spec_afe4490_prog2() -> Seq<u16> {
    seq![0x0302u16, 0x0300, 0x030F, 0x03FE, 0x0600]
}

/// Program AFE4490 register 0x2.
pub fn afe4490_prog2() -> (v: Vec<u16>)
    ensures
        v@ == spec_afe4490_prog2(),
{
    vec![0x0302u16, 0x0300, 0x030F, 0x03FE, 0x0600]
}

/// Program AFE4490 register 0x3.
pub open spec fn spec_afe4490_prog3() -> Seq<u16> {
    seq![0x0303u16, 0x0300, 0x030C, 0x0300, 0x0600]
}

/// Program AFE4490 register 0x3.
pub fn afe4490_prog3() -> (v: Vec<u16>)
    ensures
        v@ == spec_afe4490_prog3(),
{
    vec![0x0303u16, 0x0300, 0x030C, 0x0300, 0x0600]
}

/// Program AFE4490 register 0x4.
pub open spec fn spec_afe4490_prog4() -> Seq<u16> {
    seq![0x0304u16, 0x0300, 0x030F, 0x03FF, 0x0600]
}

/// Program AFE4490 register 0x4.
pub fn afe4490_prog4() -> (v: Vec<u16>)
    ensures
        v@ == spec_afe4490_prog4(),
{
    vec![0x0304u16, 0x0300, 0x030F, 0x03FF, 0x0600]
}

/// Program AFE4490 register 0x5.
pub open spec fn spec_afe4490_prog5() -> Seq<u16> {
    seq![0x0305u16, 0x0300, 0x0300, 0x0319, 0x0600]
}

/// Program AFE4490 register 0x5.
pub fn afe4490_prog5() -> (v: Vec<u16>)
    ensures
        v@ == spec_afe4490_prog5(),
{
    vec![0x0305u16, 0x0300, 0x0300, 0x0319, 0x0600]
}

/// Program AFE4490 register 0x6.
pub open spec fn spec_afe4490_prog6() -> Seq<u16> {
    seq![0x0306u16, 0x0300, 0x0303, 0x03FE, 0x0600]
}

/// Program AFE4490 register 0x6.
pub fn afe4490_prog6() -> (v: Vec<u16>)
    ensures
        v@ == spec_afe4490_prog6(),
{
    vec![0x0306u16, 0x0300, 0x0303, 0x03FE, 0x0600]
}

/// Program AFE4490 register 0x7.
pub open spec fn spec_afe4490_prog7() -> Seq<u16> {
    seq![0x0307u16, 0x0300, 0x0304, 0x0319, 0x0600]
}

/// Program AFE4490 register 0x7.
pub fn afe4490_prog7() -> (v: Vec<u16>)
    ensures
        v@ == spec_afe4490_prog7(),
{
    vec![0x0307u16, 0x0300, 0x0304, 0x0319, 0x0600]
}

/// Program AFE4490 register 0x8.
pub open spec fn spec_afe4490_prog8() -> Seq<u16> {
    seq![0x0308u16, 0x0300, 0x0307, 0x03FE, 0x0600]
}

/// Program AFE4490 register 0x8.
pub fn afe4490_prog8() -> (v: Vec<u16>)
    ensures
        v@ == spec_afe4490_prog8(),
{
    vec![0x0308u16, 0x0300, 0x0307, 0x03FE, 0x0600]
}

/// Program AFE4490 register 0x9.
pub open spec fn spec_afe4490_prog9() -> Seq<u16> {
    seq![0x0309u16, 0x0300, 0x0304, 0x0300, 0x0600]
}

/// Program AFE4490 register 0x9.
pub fn afe4490_prog9() -> (v: Vec<u16>)
    ensures
        v@ == spec_afe4490_prog9(),
{
    vec![0x0309u16, 0x0300, 0x0304, 0x0300, 0x0600]
}

/// Program AFE4490 register 0xA.
pub open spec fn spec_afe4490_proga() -> Seq<u16> {
    seq![0x030Au16, 0x0300, 0x0307, 0x03FF, 0x0600]
}

/// Program AFE4490 register 0xA.
pub fn afe4490_proga() -> (v: Vec<u16>)
    ensures
        v@ == spec_afe4490_proga(),
{
    vec![0x030Au16, 0x0300, 0x0307, 0x03FF, 0x0600]
}

/// Program AFE4490 register 0xB.
pub open spec fn spec_afe4490_progb() -> Seq<u16> {
    seq![0x030Bu16, 0x0300, 0x0308, 0x0319, 0x0600]
}

/// Program AFE4490 register 0xB.
pub fn afe4490_progb() -> (v: Vec<u16>)
    ensures
        v@ == spec_afe4490_progb(),
{
    vec![0x030Bu16, 0x0300, 0x0308, 0x0319, 0x0600]
}

/// Program AFE4490 register 0xC.
pub open spec fn spec_afe4490_progc() -> Seq<u16> {
    seq![0x030Cu16, 0x0300, 0x0307, 0x03FE, 0x0600]
}

/// Program AFE4490 register 0xC.
pub fn afe4490_progc() -> (v: Vec<u16>)
    ensures
        v@ == spec_afe4490_progc(),
{
    vec![0x030Cu16, 0x0300, 0x0307, 0x03FE, 0x0600]
}

/// Program AFE4490 register 0xD.
pub open spec fn spec_afe4490_progd() -> Seq<u16> {
    seq![0x030Du16, 0x0300, 0x0300, 0x0304, 0x0600]
}

/// Program AFE4490 register 0xD.
pub fn afe4490_progd() -> (v: Vec<u16>)
    ensures
        v@ == spec_afe4490_progd(),
{
    vec![0x030Du16, 0x0300, 0x0300, 0x0304, 0x0600]
}

/// Program AFE4490 register 0xE.
pub open spec fn spec_afe4490_proge() -> Seq<u16> {
    seq![0x030Eu16, 0x0300, 0x0303, 0x03FF, 0x0600]
}

/// Program AFE4490 register 0xE.
pub fn afe4490_proge() -> (v: Vec<u16>)
    ensures
        v@ == spec_afe4490_proge(),
{
    vec![0x030Eu16, 0x0300, 0x0303, 0x03FF, 0x0600]
}

/// Program AFE4490 register 0xF.
pub open spec fn spec_afe4490_progf() -> Seq<u16> {
    seq![0x030Fu16, 0x0300, 0x0304, 0x0304, 0x0600]
}

/// Program AFE4490 register 0xF.
pub fn afe4490_progf() -> (v: Vec<u16>)
    ensures
        v@ == spec_afe4490_progf(),
{
    vec![0x030Fu16, 0x0300, 0x0304, 0x0304, 0x0600]
}

/// Program AFE4490 register 0x10.
pub open spec fn spec_afe4490_prog10() -> Seq<u16> {
    seq![0x0310u16, 0x0300, 0x0307, 0x03FF, 0x0600]
}

/// Program AFE4490 register 0x10.
pub fn afe4490_prog10() -> (v: Vec<u16>)
    ensures
        v@ == spec_afe4490_prog10(),
{
    vec![0x0310u16, 0x0300, 0x0307, 0x03FF, 0x0600]
}

/// Program AFE4490 register 0x11.
pub open spec fn spec_afe4490_prog11() -> Seq<u16> {
    seq![0x0311u16, 0x0300, 0x0308, 0x0304, 0x0600]
}

/// Program AFE4490 register 0x11.
pub fn afe4490_prog11() -> (v: Vec<u16>)
    ensures
        v@ == spec_afe4490_prog11(),
{
    vec![0x0311u16, 0x0300, 0x0308, 0x0304, 0x0600]
}

/// Program AFE4490 register 0x12.
pub open spec fn spec_afe4490_prog12() -> Seq<u16> {
    seq![0x0312u16, 0x0300, 0x030B, 0x03FF, 0x0600]
}

/// Program AFE4490 register 0x12.
pub fn afe4490_prog12() -> (v: Vec<u16>)
    ensures
        v@ == spec_afe4490_prog12(),
{
    vec![0x0312u16, 0x0300, 0x030B, 0x03FF, 0x0600]
}

/// Program AFE4490 register 0x13.
pub open spec fn spec_afe4490_prog13() -> Seq<u16> {
    seq![0x0313u16, 0x0300, 0x030C, 0x0304, 0x0600]
}

/// Program AFE4490 register 0x13.
pub fn afe4490_prog13() -> (v: Vec<u16>)
    ensures
        v@ == spec_afe4490_prog13(),
{
    vec![0x0313u16, 0x0300, 0x030C, 0x0304, 0x0600]
}

/// Program AFE4490 register 0x14.
pub open spec fn spec_afe4490_prog14() -> Seq<u16> {
    seq![0x0314u16, 0x0300, 0x030F, 0x03FF, 0x0600]
}

/// Program AFE4490 register 0x14.
pub fn afe4490_prog14() -> (v: Vec<u16>)
    ensures
        v@ == spec_afe4490_prog14(),
{
    vec![0x0314u16, 0x0300, 0x030F, 0x03FF, 0x0600]
}

/// Program AFE4490 register 0x15.
pub open spec fn spec_afe4490_prog15() -> Seq<u16> {
    seq![0x0315u16, 0x0300, 0x0300, 0x0300, 0x0600]
}

/// Program AFE4490 register 0x15.
pub fn afe4490_prog15() -> (v: Vec<u16>)
    ensures
        v@ == spec_afe4490_prog15(),
{
    vec![0x0315u16, 0x0300, 0x0300, 0x0300, 0x0600]
}

/// Program AFE4490 register 0x16.
pub open spec fn spec_afe4490_prog16() -> Seq<u16> {
    seq![0x0316u16, 0x0300, 0x0300, 0x0303, 0x0600]
}

/// Program AFE4490 register 0x16.
pub fn afe4490_prog16() -> (v: Vec<u16>)
    ensures
        v@ == spec_afe4490_prog16(),
{
    vec![0x0316u16, 0x0300, 0x0300, 0x0303, 0x0600]
}

/// Program AFE4490 register 0x17.
pub open spec fn spec_afe4490_prog17() -> Seq<u16> {
    seq![0x0317u16, 0x0300, 0x0304, 0x0300, 0x0600]
}

/// Program AFE4490 register 0x17.
pub fn afe4490_prog17() -> (v: Vec<u16>)
    ensures
        v@ == spec_afe4490_prog17(),
{
    vec![0x0317u16, 0x0300, 0x0304, 0x0300, 0x0600]
}

/// Program AFE4490 register 0x18.
pub open spec fn spec_afe4490_prog18() -> Seq<u16> {
    seq![0x0318u16, 0x0300, 0x0304, 0x0303, 0x0600]
}

/// Program AFE4490 register 0x18.
pub fn afe4490_prog18() -> (v: Vec<u16>)
    ensures
        v@ == spec_afe4490_prog18(),
{
    vec![0x0318u16, 0x0300, 0x0304, 0x0303, 0x0600]
}

/// Program AFE4490 register 0x19.
pub open spec fn spec_afe4490_prog19() -> Seq<u16> {
    seq![0x0319u16, 0x0300, 0x0308, 0x0300, 0x0600]
}

/// Program AFE4490 register 0x19.
pub fn afe4490_prog19() -> (v: Vec<u16>)
    ensures
        v@ == spec_afe4490_prog19(),
{
    vec![0x0319u16, 0x0300, 0x0308, 0x0300, 0x0600]
}

/// Program AFE4490 register 0x1A.
pub open spec fn spec_afe4490_prog1a() -> Seq<u16> {
    seq![0x031Au16, 0x0300, 0x0308, 0x0303, 0x0600]
}

/// Program AFE4490 register 0x1A.
pub fn afe4490_prog1a() -> (v: Vec<u16>)
    ensures
        v@ == spec_afe4490_prog1a(),
{
    vec![0x031Au16, 0x0300, 0x0308, 0x0303, 0x0600]
}

/// Program AFE4490 register 0x1B.
pub open spec fn spec_afe4490_prog1b() -> Seq<u16> {
    seq![0x031Bu16, 0x0300, 0x030C, 0x0300, 0x0600]
}

/// Program AFE4490 register 0x1B.
pub fn afe4490_prog1b() -> (v: Vec<u16>)
    ensures
        v@ == spec_afe4490_prog1b(),
{
    vec![0x031Bu16, 0x0300, 0x030C, 0x0300, 0x0600]
}

/// Program AFE4490 register 0x1C.
pub open spec fn spec_afe4490_prog1c() -> Seq<u16> {
    seq![0x031Cu16, 0x0300, 0x030C, 0x0303, 0x0600]
}

/// Program AFE4490 register 0x1C.
pub fn afe4490_prog1c() -> (v: Vec<u16>)
    ensures
        v@ == spec_afe4490_prog1c(),
{
    vec![0x031Cu16, 0x0300, 0x030C, 0x0303, 0x0600]
}

/// Program AFE4490 register 0x1D.
pub open spec fn spec_afe4490_prog1d() -> Seq<u16> {
    seq![0x031Du16, 0x0300, 0x030F, 0x03FF, 0x0600]
}

/// Program AFE4490 register 0x1D.
pub fn afe4490_prog1d() -> (v: Vec<u16>)
    ensures
        v@ == spec_afe4490_prog1d(),
{
    vec![0x031Du16, 0x0300, 0x030F, 0x03FF, 0x0600]
}

/// Program AFE4490 register 0x1E.
pub open spec fn spec_afe4490_prog1e() -> Seq<u16> {
    seq![0x031Eu16, 0x0300, 0x0301, 0x0302, 0x0600]
}

/// Program AFE4490 register 0x1E.
pub fn afe4490_prog1e() -> (v: Vec<u16>)
    ensures
        v@ == spec_afe4490_prog1e(),
{
    vec![0x031Eu16, 0x0300, 0x0301, 0x0302, 0x0600]
}

/// Program AFE4490 register 0x20.
pub open spec fn spec_afe4490_prog20() -> Seq<u16> {
    seq![0x0320u16, 0x0300, 0x0300, 0x0301, 0x0600]
}

/// Program AFE4490 register 0x20.
pub fn afe4490_prog20() -> (v: Vec<u16>)
    ensures
        v@ == spec_afe4490_prog20(),
{
    vec![0x0320u16, 0x0300, 0x0300, 0x0301, 0x0600]
}

/// Program AFE4490 register 0x21.
pub open spec fn spec_afe4490_prog21() -> Seq<u16> {
    seq![0x0321u16, 0x0300, 0x0300, 0x0301, 0x0600]
}

/// Program AFE4490 register 0x21.
pub fn afe4490_prog21() -> (v: Vec<u16>)
    ensures
        v@ == spec_afe4490_prog21(),
{
    vec![0x0321u16, 0x0300, 0x0300, 0x0301, 0x0600]
}

/// Program AFE4490 register 0x22.
pub open spec fn spec_afe4490_prog22() -> Seq<u16> {
    seq![0x0322u16, 0x0300, 0x0300, 0x0300, 0x0600]
}

/// Program AFE4490 register 0x22.
pub fn afe4490_prog22() -> (v: Vec<u16>)
    ensures
        v@ == spec_afe4490_prog22(),
{
    vec![0x0322u16, 0x0300, 0x0300, 0x0300, 0x0600]
}

/// Program AFE4490 register 0x23.
pub open spec fn spec_afe4490_prog23() -> Seq<u16> {
    seq![0x0323u16, 0x0300, 0x0302, 0x0300, 0x0600]
}

/// Program AFE4490 register 0x23.
pub fn afe4490_prog23() -> (v: Vec<u16>)
    ensures
        v@ == spec_afe4490_prog23(),
{
    vec![0x0323u16, 0x0300, 0x0302, 0x0300, 0x0600]
}

/// Program AFE4490 register 0x29.
pub open spec fn spec_afe4490_prog29() -> Seq<u16> {
    seq![0x0329u16, 0x0300, 0x0300, 0x0380, 0x0600]
}

/// Program AFE4490 register 0x29.
pub fn afe4490_prog29() -> (v: Vec<u16>)
    ensures
        v@ == spec_afe4490_prog29(),
{
    vec![0x0329u16, 0x0300, 0x0300, 0x0380, 0x0600]
}

/// The programme written after the diagnostics, in order.
pub open spec fn spec_afe_program() -> Seq<Seq<u16>> {
    seq![
        spec_afe4490_prog1(), spec_afe4490_prog2(), spec_afe4490_prog3(),
        spec_afe4490_prog4(), spec_afe4490_prog5(), spec_afe4490_prog6(),
        spec_afe4490_prog7(), spec_afe4490_prog8(), spec_afe4490_prog9(),
        spec_afe4490_proga(), spec_afe4490_progb(), spec_afe4490_progc(),
        spec_afe4490_progd(), spec_afe4490_proge(), spec_afe4490_progf(),
        spec_afe4490_prog10(), spec_afe4490_prog11(), spec_afe4490_prog12(),
        spec_afe4490_prog13(), spec_afe4490_prog14(), spec_afe4490_prog15(),
        spec_afe4490_prog16(), spec_afe4490_prog17(), spec_afe4490_prog18(),
        spec_afe4490_prog19(), spec_afe4490_prog1a(), spec_afe4490_prog1b(),
        spec_afe4490_prog1c(), spec_afe4490_prog1d(), spec_afe4490_prog1e(),
        spec_afe4490_prog20(), spec_afe4490_prog21(), spec_afe4490_prog22(),
        spec_afe4490_prog23(), spec_afe4490_prog29(),
    ]
}

/// Asserts the AFE4490 reset line (PF13 low).
pub fn reset_on() -> (op: BusOp)
    ensures
        op == (BusOp::SetPin { pin: Pin::AfeReset, high: false }),
{
    BusOp::SetPin { pin: Pin::AfeReset, high: false }
}

/// Releases the AFE4490 reset line (PF13 high).
pub fn reset_off() -> (op: BusOp)
    ensures
        op == (BusOp::SetPin { pin: Pin::AfeReset, high: true }),
{
    BusOp::SetPin { pin: Pin::AfeReset, high: true }
}

/// Appends the sending of one word to the AFE4490 controller, followed by a
/// one-millisecond pause.
fn data_send(ops: &mut Vec<BusOp>, b: u16)
    ensures
        final(ops)@ == old(ops)@ + send_ops(BusReg::AfeSpiMode, seq![b]),
{
    ops.push(BusOp::Write { reg: BusReg::AfeSpiMode, value: b });
    ops.push(BusOp::Delay { cycles: crate::bus::CYCLES_PER_MS });
    proof {
        crate::bus::lemma_send_one(BusReg::AfeSpiMode, b);
    }
    assert(ops@ =~= old(ops)@ + send_ops(BusReg::AfeSpiMode, seq![b]));
}

/// Sends a command to the AFE4490 word by word.
pub fn cmd_write(cmd: &[u16]) -> (ops: Vec<BusOp>)
    ensures
        ops@ == send_ops(BusReg::AfeSpiMode, cmd@),
{
    let mut ops: Vec<BusOp> = Vec::new();
    let mut j: usize = 0;
    while j < cmd.len()
        invariant
            j <= cmd@.len(),
            ops@ == send_ops(BusReg::AfeSpiMode, cmd@.subrange(0, j as int)),
        decreases cmd@.len() - j,
    {
        data_send(&mut ops, cmd[j]);
        proof {
            assert(cmd@.subrange(0, j + 1) =~= cmd@.subrange(0, j as int).push(cmd@[j as int]));
            crate::bus::lemma_send_push(BusReg::AfeSpiMode, cmd@.subrange(0, j as int), cmd@[j as int]);
        }
        j += 1;
    }
    assert(cmd@.subrange(0, cmd@.len() as int) =~= cmd@);
    ops
}

} // verus!
