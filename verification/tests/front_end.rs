use monitor_fw::bus::{BusOp, BusReg, Pin};
use monitor_fw::mega_adc::frame::{AdcFrame, AfeFrame, ADC_FRAME_BYTES, AFE_FRAME_BYTES};
use monitor_fw::mega_adc::{
    adc_frame_words, afe_frame_words, MegaAdc, SampleStep, ADC_FIFO_WORDS, ADC_HEADER_WORDS,
    AFE_FIFO_WORDS, AFE_HEADER_WORDS,
};
use monitor_fw::mega_adc::{cmd, afe, tables};
use monitor_fw::telemetry::encode_adc_packet;

fn adc_words(cnt: u16) -> Vec<u16> {
    let mut w = vec![0u16; ADC_FIFO_WORDS];
    w[0] = 0xFEFE;
    w[1] = 1;
    w[2] = 2;
    w[3] = 3;
    w[4] = 0xAAAA;
    w[5] = 0x5555;
    // point 0 (reo0, shift 2): 0x001234
    w[6] = 0x1234;
    w[7] = 0x0000;
    // point 2 (Red, shift 8): the most negative sample 0x800000
    w[10] = 0x0000;
    w[11] = 0x0080;
    // point 15 (chL, shift 5): -1
    w[36] = 0xFFFF;
    w[37] = 0x00FF;
    // point 3 (ch4, shift 5): high byte of the high word is ignored
    w[12] = 0x0020;
    w[13] = 0x7F00;
    w[38] = 0xC0C0;
    w[39] = cnt;
    w[40] = 0xBDBD;
    w
}

fn afe_words(cnt: u16) -> Vec<u16> {
    let mut w = vec![0u16; AFE_FIFO_WORDS];
    w[0] = 0xFEFD;
    w[1] = cnt;
    // ir: 0x000100
    w[2] = 0x0100;
    w[3] = 0x0000;
    // bg_ir: -2 in 22 bits
    w[4] = 0xFFFE;
    w[5] = 0x003F;
    // rd: bit 21 set, upper bits ignored
    w[6] = 0x0000;
    w[7] = 0x1220;
    // bg_rd: 7
    w[8] = 7;
    w[9] = 0;
    w[10] = cnt;
    w[11] = 0xBCBC;
    w
}

#[test]
fn frames_start_zeroed() {
    let f = AdcFrame::new();
    assert_eq!(f.chL, 0);
    assert_eq!(f.nu, 0);
    assert_eq!(f.cnt, 0);
    let a = AfeFrame::new();
    assert_eq!(a.ir, 0);
    assert_eq!(a.nu2, 0);
}

#[test]
fn frame_bytes_are_packed_little_endian() {
    let mut f = AdcFrame::new();
    f.chL = 0x0403_0201;
    f.nu = -1;
    f.cnt = 0x0A0B_0C0D;
    f.tick = 0x1234;
    let b = f.as_bytes();
    assert_eq!(b.len(), ADC_FRAME_BYTES);
    assert_eq!(&b[0..4], &[1, 2, 3, 4]);
    assert_eq!(&b[60..64], &[0xFF, 0xFF, 0xFF, 0xFF]);
    assert_eq!(&b[64..68], &[0x0D, 0x0C, 0x0B, 0x0A]);
    assert_eq!(&b[72..74], &[0x34, 0x12]);
    let mut a = AfeFrame::new();
    a.bg_rd = 0x11223344;
    let ab = a.as_bytes();
    assert_eq!(ab.len(), AFE_FRAME_BYTES);
    assert_eq!(&ab[12..16], &[0x44, 0x33, 0x22, 0x11]);
}

#[test]
fn adc_frame_is_decoded_into_its_channels() {
    let mut m = MegaAdc::new();
    assert_eq!(m.try_read_adc1298_fifo(&adc_words(0)), Ok(()));
    let f = m.adc_frame();
    assert_eq!(f.reo0, 0x1234 >> 2);
    assert_eq!(f.Red, 0x00FF_8001);
    assert_eq!(f.chL, 0x07FF_FFFF);
    assert_eq!(f.ch4, 0x0020 >> 5);
    assert_eq!(f.reo1, 0);
    assert_eq!(f.cnt, 0);
}

#[test]
fn adc_counter_must_follow() {
    let mut m = MegaAdc::new();
    assert_eq!(m.try_read_adc1298_fifo(&adc_words(0)), Ok(()));
    assert_eq!(m.try_read_adc1298_fifo(&adc_words(1)), Ok(()));
    assert_eq!(m.try_read_adc1298_fifo(&adc_words(5)), Err(()));
    assert_eq!(m.adc_frame().cnt, 5);
    assert_eq!(m.try_read_adc1298_fifo(&adc_words(6)), Ok(()));
}

#[test]
fn adc_counter_wraps() {
    let mut m = MegaAdc::new();
    assert_eq!(m.try_read_adc1298_fifo(&adc_words(0xFFFF)), Err(()));
    assert_eq!(m.try_read_adc1298_fifo(&adc_words(0)), Ok(()));
}

#[test]
fn adc_bad_marker_changes_nothing() {
    let mut m = MegaAdc::new();
    let mut w = adc_words(0);
    w[0] = 0xFEFF;
    assert_eq!(adc_frame_words(w[0]), ADC_HEADER_WORDS);
    w.truncate(ADC_HEADER_WORDS);
    assert_eq!(m.try_read_adc1298_fifo(&w), Err(()));
    assert_eq!(m.adc_frame(), AdcFrame::new());
    assert_eq!(m.try_read_adc1298_fifo(&adc_words(0)), Ok(()));
}

#[test]
fn afe_frame_is_decoded() {
    let mut m = MegaAdc::new();
    assert_eq!(m.try_read_afe_fifo(&afe_words(0)), Ok(()));
    let a = m.afe_frame();
    assert_eq!(a.ir, 0x100);
    assert_eq!(a.bg_ir, -2);
    assert_eq!(a.rd, 0xFFE0_0000u32 as i32);
    assert_eq!(a.bg_rd, 7);
    assert_eq!(a.cnt, 0);
    assert_eq!(m.try_read_afe_fifo(&afe_words(3)), Err(()));
    let mut bad = afe_words(4);
    bad[0] = 0;
    assert_eq!(afe_frame_words(bad[0]), AFE_HEADER_WORDS);
    bad.truncate(AFE_HEADER_WORDS);
    assert_eq!(m.try_read_afe_fifo(&bad), Err(()));
    assert_eq!(m.afe_frame().cnt, 3);
}

#[test]
fn samples_are_handed_on_or_reset() {
    let mut m = MegaAdc::new();
    match m.try_samples(&adc_words(0), &afe_words(0)) {
        SampleStep::Frames => {}
        SampleStep::Reset(_) => panic!("good frames refused"),
    }
    match m.try_samples(&adc_words(1), &afe_words(1)) {
        SampleStep::Frames => {}
        SampleStep::Reset(_) => panic!("good frames refused"),
    }
    match m.try_samples(&adc_words(2), &afe_words(9)) {
        SampleStep::Frames => panic!("bad counter accepted"),
        SampleStep::Reset(ops) => {
            assert_eq!(ops[0], BusOp::SetPin { pin: Pin::AdcStart, high: false });
            assert_eq!(*ops.last().unwrap(), BusOp::SetPin { pin: Pin::AdcStart, high: true });
        }
    }
    // counters start again at 0
    match m.try_samples(&adc_words(0), &afe_words(0)) {
        SampleStep::Frames => {}
        SampleStep::Reset(_) => panic!("counters not restarted"),
    }
}

#[test]
fn command_words_are_sent_with_pauses() {
    let ops = cmd::write(&[0x2200, 0x1110]);
    assert_eq!(
        ops,
        vec![
            BusOp::Write { reg: BusReg::Spi, value: 0x2200 },
            BusOp::Delay { cycles: 72000 },
            BusOp::Write { reg: BusReg::Spi, value: 0x1110 },
            BusOp::Delay { cycles: 72000 },
        ]
    );
    let ops = afe::cmd_write(&[0x0300]);
    assert_eq!(
        ops,
        vec![BusOp::Write { reg: BusReg::AfeSpiMode, value: 0x0300 }, BusOp::Delay { cycles: 72000 }]
    );
    assert_eq!(cmd::adc_reset_on(), BusOp::SetPin { pin: Pin::AdcReset, high: false });
    assert_eq!(afe::reset_off(), BusOp::SetPin { pin: Pin::AfeReset, high: true });
}

#[test]
fn start_up_procedure() {
    let mut m = MegaAdc::new();
    let ops = m.init();
    let afe_ops = m.init_afe();
    // 2 + 6 + 11 + 6 + 10 + 280 + 6 + 2 + afe + 3
    assert_eq!(ops.len(), 2 + 6 + 11 + 6 + 10 + 280 + 6 + 2 + afe_ops.len() + 3);
    assert_eq!(afe_ops.len(), 4 + 10 + 1 + 35 * 10 + 10);
    assert_eq!(ops[0], BusOp::SetPin { pin: Pin::AdcStart, high: false });
    assert_eq!(ops[1], BusOp::Delay { cycles: 2_880_000 });
    assert_eq!(ops[2], BusOp::Write { reg: BusReg::Spi, value: 0x2200 });
    assert_eq!(ops[8], BusOp::Write { reg: BusReg::RdSpi, value: 0x0018 });
    assert_eq!(*ops.last().unwrap(), BusOp::SetPin { pin: Pin::AdcStart, high: true });
    assert_eq!(afe_ops[14], BusOp::Delay { cycles: 1_440_000 });
    assert_eq!(afe_ops[15], BusOp::Write { reg: BusReg::AfeSpiMode, value: 0x0301 });
    assert_eq!(tables::adc1298_signal_cmd().len(), 140);
    assert_eq!(tables::ad1298_change(15), 0);
    assert_eq!(tables::ad1298_shift(10), 4);
}

#[test]
fn adc_packet_layout() {
    let mut f = AdcFrame::new();
    f.cnt = 7;
    let p = encode_adc_packet(&f);
    assert_eq!(p.len(), 4 + ADC_FRAME_BYTES + 3);
    assert_eq!(&p[0..4], &[0x7E, 76, 0x00, 0x81]);
    assert_eq!(&p[4 + 64..4 + 68], &[7, 0, 0, 0]);
    assert_eq!(&p[p.len() - 3..], &[0xFF, 0xFF, 0xBD]);
}

#[test]
fn register_addresses() {
    assert_eq!(BusReg::Fifo.address(), 0x6030_000E);
    assert_eq!(BusReg::PwmSel.address(), 0x6038_0002);
    assert_eq!(BusReg::LcdParam.address(), 0x6008_0000);
}

#[test]
fn frame_lengths_follow_the_marker() {
    assert_eq!(adc_frame_words(0xFEFE), 41);
    assert_eq!(adc_frame_words(0xFEFD), 6);
    assert_eq!(adc_frame_words(0), 6);
    assert_eq!(afe_frame_words(0xFEFD), 12);
    assert_eq!(afe_frame_words(0xFEFE), 2);
    assert_eq!(afe_frame_words(0xFFFF), 2);
}

#[test]
fn bad_marker_in_samples_resets_after_header_only() {
    let mut m = MegaAdc::new();
    let mut a = adc_words(0);
    a[0] = 0x1234;
    a.truncate(ADC_HEADER_WORDS);
    match m.try_samples(&a, &afe_words(0)) {
        SampleStep::Reset(ops) => assert!(!ops.is_empty()),
        _ => panic!("a frame with a wrong marker was accepted"),
    }
}
