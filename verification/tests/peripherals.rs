use monitor_fw::bus::{BusOp, BusReg, Pin};
use monitor_fw::pld::{pld_init, pld_enable_pwm, pld_emergency_block_unlock, PldCheck, PldInit};
use monitor_fw::tps::{Tps, TpsStep, TPS_ADDR, PowerState};
use std::collections::VecDeque;

/// A model of the PLD for the start-up checks.
struct FakePld {
    id: u16,
    stuck_low: u16,
    test_reg: u16,
    fifo: VecDeque<u16>,
    fifo_corrupt_at: Option<usize>,
    fifo_writes: usize,
}

impl FakePld {
    fn new() -> Self {
        FakePld { id: 0xA5, stuck_low: 0, test_reg: 0, fifo: VecDeque::new(), fifo_corrupt_at: None, fifo_writes: 0 }
    }

    fn run(&mut self, ops: &[BusOp]) -> u16 {
        let mut last = 0;
        for op in ops {
            match *op {
                BusOp::Write { reg: BusReg::TestReg, value } => self.test_reg = value & !self.stuck_low,
                BusOp::Write { reg: BusReg::Cfg5, value } => {
                    let v = if Some(self.fifo_writes) == self.fifo_corrupt_at { value ^ 1 } else { value };
                    self.fifo_writes += 1;
                    self.fifo.push_back(v)
                }
                BusOp::Read { reg: BusReg::Id } => last = self.id,
                BusOp::Read { reg: BusReg::TestReg } => last = self.test_reg,
                BusOp::Read { reg: BusReg::Fifo } => last = self.fifo.pop_front().unwrap(),
                _ => {}
            }
        }
        last
    }
}

fn run_pld(dev: &mut FakePld) -> (PldCheck, usize) {
    let (mut m, mut ops): (PldInit, Vec<BusOp>) = pld_init();
    let mut steps = 0;
    loop {
        let v = dev.run(&ops);
        if let Some(c) = m.outcome() {
            return (c, steps);
        }
        ops = m.step(v);
        steps += 1;
    }
}

#[test]
fn pld_checks_pass_on_sound_hardware() {
    let mut dev = FakePld::new();
    let (c, steps) = run_pld(&mut dev);
    assert_eq!(c, PldCheck::Passed);
    // one poll, two id reads, 32 bus reads, 5 x 256 fifo reads
    assert_eq!(steps, 1 + 2 + 32 + 5 * 256);
    assert!(dev.fifo.is_empty());
}

#[test]
fn pld_wrong_id_is_reported() {
    let mut dev = FakePld::new();
    dev.id = 0x5A;
    let (c, _) = run_pld(&mut dev);
    assert_eq!(c, PldCheck::IdMismatch { id: 0x5A });
}

#[test]
fn pld_stuck_bus_line_is_reported() {
    let mut dev = FakePld::new();
    dev.stuck_low = 0x0100;
    let (c, steps) = run_pld(&mut dev);
    assert_eq!(c, PldCheck::BusFault { map: 0x0100 });
    assert_eq!(steps, 1 + 2 + 32);
}

#[test]
fn pld_fifo_fault_is_reported() {
    let mut dev = FakePld::new();
    dev.fifo_corrupt_at = Some(256 + 3);
    let (c, _) = run_pld(&mut dev);
    assert_eq!(c, PldCheck::FifoFault { round: 1, index: 3, got: (3 | (!3u16 << 8)) ^ 1 });
}

#[test]
fn pld_pll_is_polled_until_ready() {
    let (mut m, ops) = pld_init();
    assert_eq!(ops, vec![BusOp::Read { reg: BusReg::Id }]);
    let ops = m.step(0x8000);
    assert_eq!(ops, vec![BusOp::Delay { cycles: 720000 }, BusOp::Read { reg: BusReg::Id }]);
    assert_eq!(m.outcome(), None);
    let ops = m.step(0x0000);
    assert_eq!(ops.len(), 6);
    assert_eq!(ops[1], BusOp::Write { reg: BusReg::Cfg, value: 0x0073 });
    assert_eq!(ops[5], BusOp::Read { reg: BusReg::Id });
}

#[test]
fn pld_pll_polling_gives_up_after_a_hundred_reads() {
    let (mut m, _) = pld_init();
    for _ in 0..99 {
        let ops = m.step(0x8000);
        assert_eq!(ops.len(), 2);
    }
    let ops = m.step(0x8000);
    assert_eq!(ops.len(), 6);
}

#[test]
fn pld_simple_controls() {
    assert_eq!(pld_enable_pwm(), vec![BusOp::Write { reg: BusReg::PwmSel, value: 3 }]);
    assert_eq!(pld_emergency_block_unlock(), vec![BusOp::Read { reg: BusReg::Id }]);
}

#[test]
fn tps_setup_all_good() {
    let mut t = Tps::new();
    let mut step = t.init();
    let mut written = Vec::new();
    loop {
        match step {
            TpsStep::Write { addr, reg, value } => {
                assert_eq!(addr, TPS_ADDR);
                written.push((reg, value));
                step = t.confirm(value);
            }
            TpsStep::Done => break,
            TpsStep::Mismatch { .. } => panic!("unexpected mismatch"),
        }
    }
    assert_eq!(written, vec![(0x10, 0x31), (0x12, 0x3F), (0x14, 0x1F), (0x17, 0x3F), (0x04, 0x30)]);
    assert_eq!(TPS_ADDR, 0x90 >> 1);
}

#[test]
fn tps_setup_stops_on_bad_read_back() {
    let mut t = Tps::new();
    assert_eq!(t.init(), TpsStep::Write { addr: 0x48, reg: 0x10, value: 0x31 });
    assert_eq!(t.confirm(0x31), TpsStep::Write { addr: 0x48, reg: 0x12, value: 0x3F });
    assert_eq!(t.confirm(0x00), TpsStep::Mismatch { reg: 0x12, expected: 0x3F, got: 0x00 });
    let _ = PowerState::LowPower;
    let _ = Pin::LcdPower;
}

#[test]
fn register_value_bytes() {
    assert_eq!(monitor_fw::tps::rev16(0x1234), [0x12, 0x00]);
}
