//! Packets that carry measurement frames to the host through the telemetry
//! ring.
use vstd::prelude::*;
use crate::mega_adc::frame::{AdcFrame, ADC_FRAME_BYTES, lemma_adc_frame_layout};

verus! {

/// A converter frame as a packet: start marker 0x7E, payload length,
/// 0x00, packet type 0x81, the frame's bytes, then 0xFF 0xFF and the end
/// marker 0xBD.
pub open spec fn adc_packet(f: AdcFrame) -> Seq<u8> {
    seq![0x7Eu8, ADC_FRAME_BYTES as u8, 0x00u8, 0x81u8] + f.bytes() + seq![0xFFu8, 0xFFu8, 0xBDu8]
}

/// Lays out the packet of a converter frame.
pub fn encode_adc_packet(f: &AdcFrame) -> (p: Vec<u8>)
    ensures
        p@ == adc_packet(*f),
{
    let mut p: Vec<u8> = vec![0x7E, ADC_FRAME_BYTES as u8, 0x00, 0x81];
    let mut body = f.as_bytes();
    p.append(&mut body);
    p.push(0xFF);
    p.push(0xFF);
    p.push(0xBD);
    assert(p@ =~= adc_packet(*f));
    p
}


/// A converter packet is 83 bytes: the four header bytes, the frame's 76
/// packed bytes at offset 4, and the three trailer bytes.
pub proof fn lemma_adc_packet_layout(f: AdcFrame)
    ensures
        adc_packet(f).len() == 83,
        adc_packet(f)[0] == 0x7E,
        adc_packet(f)[1] == 76,
        adc_packet(f)[2] == 0x00,
        adc_packet(f)[3] == 0x81,
        adc_packet(f).subrange(4, 80) == f.bytes(),
        adc_packet(f)[80] == 0xFF,
        adc_packet(f)[81] == 0xFF,
        adc_packet(f)[82] == 0xBD,
{
    lemma_adc_frame_layout(f);
    assert(adc_packet(f).subrange(4, 80) =~= f.bytes());
}

} // verus!
