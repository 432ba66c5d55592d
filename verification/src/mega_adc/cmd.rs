//! Control lines and the command port of the ADS1298 converters.
use vstd::prelude::*;
use crate::bus::{BusOp, BusReg, Pin, send_ops};

verus! {

/// Asserts the converters' reset line (PB13 low).
pub fn adc_reset_on() -> (op: BusOp)
    ensures
        op == (BusOp::SetPin { pin: Pin::AdcReset, high: false }),
{
    BusOp::SetPin { pin: Pin::AdcReset, high: false }
}

/// Releases the converters' reset line (PB13 high).
pub fn adc_reset_off() -> (op: BusOp)
    ensures
        op == (BusOp::SetPin { pin: Pin::AdcReset, high: true }),
{
    BusOp::SetPin { pin: Pin::AdcReset, high: true }
}

/// Starts conversions (PC7 high).
pub fn adc_start() -> (op: BusOp)
    ensures
        op == (BusOp::SetPin { pin: Pin::AdcStart, high: true }),
{
    BusOp::SetPin { pin: Pin::AdcStart, high: true }
}

/// Stops conversions (PC7 low).
pub fn adc_stop() -> (op: BusOp)
    ensures
        op == (BusOp::SetPin { pin: Pin::AdcStart, high: false }),
{
    BusOp::SetPin { pin: Pin::AdcStart, high: false }
}

/// Appends the sending of one word to the converters' command port,
/// followed by a one-millisecond pause.
fn data_send(ops: &mut Vec<BusOp>, b: u16)
    ensures
        final(ops)@ == old(ops)@ + send_ops(BusReg::Spi, seq![b]),
{
    ops.push(BusOp::Write { reg: BusReg::Spi, value: b });
    ops.push(BusOp::Delay { cycles: crate::bus::CYCLES_PER_MS });
    proof {
        crate::bus::lemma_send_one(BusReg::Spi, b);
    }
    assert(ops@ =~= old(ops)@ + send_ops(BusReg::Spi, seq![b]));
}

/// Sends a command to the converters word by word.
pub fn write(cmd: &[u16]) -> (ops: Vec<BusOp>)
    ensures
        ops@ == send_ops(BusReg::Spi, cmd@),
{
    let mut ops: Vec<BusOp> = Vec::new();
    let mut j: usize = 0;
    while j < cmd.len()
        invariant
            j <= cmd@.len(),
            ops@ == send_ops(BusReg::Spi, cmd@.subrange(0, j as int)),
        decreases cmd@.len() - j,
    {
        data_send(&mut ops, cmd[j]);
        proof {
            assert(cmd@.subrange(0, j + 1) =~= cmd@.subrange(0, j as int).push(cmd@[j as int]));
            crate::bus::lemma_send_push(BusReg::Spi, cmd@.subrange(0, j as int), cmd@[j as int]);
        }
        j += 1;
    }
    assert(cmd@.subrange(0, cmd@.len() as int) =~= cmd@);
    ops
}

} // verus!
