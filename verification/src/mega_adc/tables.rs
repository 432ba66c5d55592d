//! Command tables of the ADS1298 converters and the channel layout of
//! their frames.
use vstd::prelude::*;

verus! {

/// Enable continuous data mode of the ADS1298 converters.
pub open spec fn spec_adc1298_start_cmd() -> Seq<u16> {
    seq![0x2200u16, 0x1110, 0x6600]
}

/// Enable continuous data mode of the ADS1298 converters.
pub fn adc1298_start_cmd() -> (v: Vec<u16>)
    ensures
        v@ == spec_adc1298_start_cmd(),
{
    vec![0x2200u16, 0x1110, 0x6600]
}

/// Stop continuous data mode of the ADS1298 converters.
pub open spec fn spec_adc1298_stop_cmd() -> Seq<u16> {
    seq![0x2200u16, 0x1111, 0x6600]
}

/// Stop continuous data mode of the ADS1298 converters.
pub fn adc1298_stop_cmd() -> (v: Vec<u16>)
    ensures
        v@ == spec_adc1298_stop_cmd(),
{
    vec![0x2200u16, 0x1111, 0x6600]
}

/// Set the ADS1298 sample rate to 1 kHz (the only rate supported).
pub open spec fn spec_adc1298_set1khz_cmd() -> Seq<u16> {
    seq![0x2200u16, 0x1141, 0x1100, 0x1104, 0x6600]
}

/// Set the ADS1298 sample rate to 1 kHz (the only rate supported).
pub fn adc1298_set1khz_cmd() -> (v: Vec<u16>)
    ensures
        v@ == spec_adc1298_set1khz_cmd(),
{
    vec![0x2200u16, 0x1141, 0x1100, 0x1104, 0x6600]
}

/// Read back the ADS1298 rate register.
pub open spec fn spec_adc1298_getkhz_cmd() -> Seq<u16> {
    seq![0x2200u16, 0x1121, 0x1100, 0x1100, 0x6600]
}

/// Read back the ADS1298 rate register.
pub fn adc1298_getkhz_cmd() -> (v: Vec<u16>)
    ensures
        v@ == spec_adc1298_getkhz_cmd(),
{
    vec![0x2200u16, 0x1121, 0x1100, 0x1100, 0x6600]
}

/// Set up the ADS1298 channels for external signals: reference, gains, lead-off detection.
pub open spec fn spec_adc1298_signal_cmd() -> Seq<u16> {
    seq![
        0x0200u16, 0x0142, 0x0100, 0x0115, 0x0600,
        0x0200, 0x0143, 0x0100, 0x01C0, 0x0600,
        0x0200, 0x0145, 0x0100, 0x0110, 0x0600,
        0x0200, 0x0146, 0x0100, 0x0110, 0x0600,
        0x0200, 0x0147, 0x0100, 0x0110, 0x0600,
        0x0200, 0x0148, 0x0100, 0x0110, 0x0600,
        0x0200, 0x0149, 0x0100, 0x0160, 0x0600,
        0x0200, 0x014A, 0x0100, 0x0110, 0x0600,
        0x0200, 0x014B, 0x0100, 0x0110, 0x0600,
        0x0200, 0x014C, 0x0100, 0x0150, 0x0600,
        0x2000, 0x1042, 0x1000, 0x1015, 0x6000,
        0x2000, 0x1043, 0x1000, 0x10C0, 0x6000,
        0x2000, 0x1045, 0x1000, 0x1010, 0x6000,
        0x2000, 0x1046, 0x1000, 0x1050, 0x6000,
        0x2000, 0x1047, 0x1000, 0x1050, 0x6000,
        0x2000, 0x1048, 0x1000, 0x1050, 0x6000,
        0x2000, 0x1049, 0x1000, 0x1050, 0x6000,
        0x2000, 0x104A, 0x1000, 0x1050, 0x6000,
        0x2000, 0x104B, 0x1000, 0x1050, 0x6000,
        0x2000, 0x104C, 0x1000, 0x1050, 0x6000,
        0x2000, 0x1044, 0x1000, 0x100F, 0x6000,
        0x2000, 0x104F, 0x1000, 0x10F6, 0x6000,
        0x2000, 0x1050, 0x1000, 0x1080, 0x6000,
        0x2000, 0x1051, 0x1000, 0x1034, 0x6000,
        0x0200, 0x0144, 0x0100, 0x010F, 0x0600,
        0x0200, 0x014F, 0x0100, 0x0180, 0x0600,
        0x0200, 0x0150, 0x0100, 0x0180, 0x0600,
        0x0200, 0x0151, 0x0100, 0x0180, 0x0600,
    ]
}

/// Set up the ADS1298 channels for external signals: reference, gains, lead-off detection.
pub fn adc1298_signal_cmd() -> (v: Vec<u16>)
    ensures
        v@ == spec_adc1298_signal_cmd(),
{
    vec![
        0x0200u16, 0x0142, 0x0100, 0x0115, 0x0600,
        0x0200, 0x0143, 0x0100, 0x01C0, 0x0600,
        0x0200, 0x0145, 0x0100, 0x0110, 0x0600,
        0x0200, 0x0146, 0x0100, 0x0110, 0x0600,
        0x0200, 0x0147, 0x0100, 0x0110, 0x0600,
        0x0200, 0x0148, 0x0100, 0x0110, 0x0600,
        0x0200, 0x0149, 0x0100, 0x0160, 0x0600,
        0x0200, 0x014A, 0x0100, 0x0110, 0x0600,
        0x0200, 0x014B, 0x0100, 0x0110, 0x0600,
        0x0200, 0x014C, 0x0100, 0x0150, 0x0600,
        0x2000, 0x1042, 0x1000, 0x1015, 0x6000,
        0x2000, 0x1043, 0x1000, 0x10C0, 0x6000,
        0x2000, 0x1045, 0x1000, 0x1010, 0x6000,
        0x2000, 0x1046, 0x1000, 0x1050, 0x6000,
        0x2000, 0x1047, 0x1000, 0x1050, 0x6000,
        0x2000, 0x1048, 0x1000, 0x1050, 0x6000,
        0x2000, 0x1049, 0x1000, 0x1050, 0x6000,
        0x2000, 0x104A, 0x1000, 0x1050, 0x6000,
        0x2000, 0x104B, 0x1000, 0x1050, 0x6000,
        0x2000, 0x104C, 0x1000, 0x1050, 0x6000,
        0x2000, 0x1044, 0x1000, 0x100F, 0x6000,
        0x2000, 0x104F, 0x1000, 0x10F6, 0x6000,
        0x2000, 0x1050, 0x1000, 0x1080, 0x6000,
        0x2000, 0x1051, 0x1000, 0x1034, 0x6000,
        0x0200, 0x0144, 0x0100, 0x010F, 0x0600,
        0x0200, 0x014F, 0x0100, 0x0180, 0x0600,
        0x0200, 0x0150, 0x0100, 0x0180, 0x0600,
        0x0200, 0x0151, 0x0100, 0x0180, 0x0600,
    ]
}

/// Right shift applied to the sign-extended 24-bit sample of each point,
/// leaving the bits each channel uses.
pub open spec fn spec_ad1298_shift(i: int) -> u32 {
    if i == 0 {
        2
    } else if i == 1 {
        2
    } else if i == 2 {
        8
    } else if i == 3 {
        5
    } else if i == 4 {
        8
    } else if i == 5 {
        5
    } else if i == 6 {
        8
    } else if i == 7 {
        5
    } else if i == 8 {
        8
    } else if i == 9 {
        5
    } else if i == 10 {
        4
    } else if i == 11 {
        5
    } else if i == 12 {
        8
    } else if i == 13 {
        5
    } else if i == 14 {
        5
    } else {
        5
    }
}

/// The shift of point `i` (`i < 16`).
pub fn ad1298_shift(i: usize) -> (s: u32)
    requires
        i < 16,
    ensures
        s == spec_ad1298_shift(i as int),
{
    let t: [u32; 16] = [2, 2, 8, 5, 8, 5, 8, 5, 8, 5, 4, 5, 8, 5, 5, 5];
    t[i]
}

/// Frame slot (channel, in frame order) that point `i` of a converter frame
/// goes to; slot 16 is the frame counter.
pub open spec fn spec_ad1298_change(i: int) -> int {
    if i == 0 {
        8
    } else if i == 1 {
        9
    } else if i == 2 {
        13
    } else if i == 3 {
        5
    } else if i == 4 {
        14
    } else if i == 5 {
        3
    } else if i == 6 {
        15
    } else if i == 7 {
        1
    } else if i == 8 {
        12
    } else if i == 9 {
        6
    } else if i == 10 {
        11
    } else if i == 11 {
        4
    } else if i == 12 {
        10
    } else if i == 13 {
        2
    } else if i == 14 {
        7
    } else if i == 15 {
        0
    } else {
        16
    }
}

/// The slot of point `i` (`i < 17`).
pub fn ad1298_change(i: usize) -> (c: usize)
    requires
        i < 17,
    ensures
        c == spec_ad1298_change(i as int),
{
    let t: [usize; 17] = [8, 9, 13, 5, 14, 3, 15, 1, 12, 6, 11, 4, 10, 2, 7, 0, 16];
    t[i]
}

/// Points go to distinct channels.
pub proof fn lemma_change_distinct(i: int, k: int)
    requires
        0 <= i < 16,
        0 <= k < 16,
        i != k,
    ensures
        spec_ad1298_change(i) != spec_ad1298_change(k),
        0 <= spec_ad1298_change(i) < 16,
{
}

} // verus!
