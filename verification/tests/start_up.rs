use monitor_fw::adc::Adc;
use monitor_fw::bus::{BusOp, BusReg};
use monitor_fw::cmd::{cb_read_hard_comp, cb_read_hard_valv, cb_write_hard_comp, cb_write_hard_valv};
use monitor_fw::lcd::lcd_init_check;
use monitor_fw::port::{fsmc_init, port_init, CfgReg, RegUpdate};
use std::collections::HashMap;

/// Carries the steps out on a register file whose registers all start at
/// `start`, and returns the file.
fn run_steps(steps: &[RegUpdate], start: u32) -> HashMap<CfgReg, u32> {
    let mut regs: HashMap<CfgReg, u32> = HashMap::new();
    for u in steps {
        let old = *regs.get(&u.reg).unwrap_or(&start);
        regs.insert(u.reg, u.apply(old));
    }
    regs
}

#[test]
fn update_clears_then_sets() {
    let u = RegUpdate { reg: CfgReg::GpioaOdr, clear: 0x00FF, set: 0x0012 };
    assert_eq!(u.apply(0xABCD), 0xAB12);
    assert_eq!(u.apply(0xFFFF_FFFF), 0xFFFF_FF12);
    assert_eq!(u.apply(0), 0x0012);
}

#[test]
fn port_init_enables_port_clocks_and_keeps_others() {
    let steps = port_init();
    assert_eq!(steps.len(), 13);
    assert_eq!(steps[0].reg, CfgReg::RccApb2enr);
    assert_eq!(steps[0].apply(0x0000_8001), 0x0000_81FD);
    assert_eq!(steps[0].apply(0), 0x0000_01FC);
}

#[test]
fn port_init_output_levels() {
    for start in [0u32, 0xFFFF_FFFF, 0x1234_5678] {
        let regs = run_steps(&port_init(), start);
        assert_eq!(regs[&CfgReg::GpioaOdr], (start & !0x1FFF) | 0x071B);
        assert_eq!(regs[&CfgReg::GpiocOdr], (start & !0x3FFF) | 0x2F1E);
        assert_eq!(regs[&CfgReg::GpiofOdr] & 0xFFFF, 0x581F);
        assert_eq!(regs[&CfgReg::GpiogOdr] & 0xFFFF, 0xDFBF);
    }
}

#[test]
fn port_init_pin_modes() {
    let regs = run_steps(&port_init(), 0x4444_4444);
    // PA0 floating input, PA1 push-pull output at 2 MHz, PA10..12 inputs with pull
    assert_eq!(regs[&CfgReg::GpioaCrl], 0x2422_4224);
    assert_eq!(regs[&CfgReg::GpioaCrh], 0x4448_8824);
    // PC12 push-pull output at 50 MHz, PC14/PC15 untouched
    assert_eq!(regs[&CfgReg::GpiocCrh], 0x4483_4444);
    assert_eq!(regs[&CfgReg::GpiogCrh] & 0xFF, 0x88);
    assert_eq!(regs[&CfgReg::GpiofCrh], 0x2424_8400);
}

#[test]
fn fsmc_init_bank_and_pins() {
    let steps = fsmc_init();
    assert_eq!(steps.len(), 11);
    let regs = run_steps(&steps, 0xFFFF_FFFF);
    assert_eq!(regs[&CfgReg::RccAhbenr], 0xFFFF_FFFF);
    assert_eq!(regs[&CfgReg::FsmcBcr1], (0xFFFF_FFFF & !0x503F) | 0x101B);
    assert_eq!(regs[&CfgReg::FsmcBtr1], 0xCFFF_0111);
    let regs = run_steps(&steps, 0);
    assert_eq!(regs[&CfgReg::RccAhbenr], 0x0000_0100);
    assert_eq!(regs[&CfgReg::FsmcBcr1], 0x0000_101B);
    assert_eq!(regs[&CfgReg::FsmcBtr1], 0x0000_0111);
    // both passes over port D's high half leave it wholly alternate-function
    assert_eq!(regs[&CfgReg::GpiodCrh], 0x9999_9999);
    assert_eq!(regs[&CfgReg::GpiodCrl], 0xA0AA_0099);
    assert_eq!(regs[&CfgReg::GpioeCrl], 0x9009_9000);
    assert_eq!(regs[&CfgReg::GpioeCrh], 0x9999_9999);
    assert_eq!(regs[&CfgReg::GpiobCrl], 0xA000_0000);
}

#[test]
fn adc3_init_fields() {
    let adc = Adc::new();
    let steps = adc.init();
    assert_eq!(steps.len(), 6);
    let regs = run_steps(&steps, 0);
    assert_eq!((regs[&CfgReg::RccCfgr] >> 14) & 3, 3);
    assert_eq!(regs[&CfgReg::RccApb2enr], 0x8000);
    assert_eq!(regs[&CfgReg::Adc3Cr1], 0x0580);
    assert_eq!(regs[&CfgReg::Adc3Sqr3], 4);
    let j = regs[&CfgReg::Adc3Jsqr];
    assert_eq!((j >> 20) & 3, 3);
    assert_eq!(j & 0x1F, 7);
    assert_eq!((j >> 5) & 0x1F, 5);
    assert_eq!((j >> 10) & 0x1F, 6);
    assert_eq!((j >> 15) & 0x1F, 8);
    let regs = run_steps(&steps, 0xFFFF_FFFF);
    assert_eq!(regs[&CfgReg::Adc3Cr2] & 2, 0);
    assert_eq!(regs[&CfgReg::Adc3Sqr3] & 0x1F, 4);
}

#[test]
fn adc3_start_sets_adon() {
    let adc = Adc::new();
    let u = adc.start_conversion();
    assert_eq!(u.reg, CfgReg::Adc3Cr2);
    assert_eq!(u.apply(0), 1);
    assert_eq!(u.apply(0x0000_0100), 0x0000_0101);
}

#[test]
fn lcd_needs_ports_c_and_f() {
    assert!(lcd_init_check(0x0000_01FC));
    assert!(lcd_init_check(0x0000_0090));
    assert!(!lcd_init_check(0x0000_0010));
    assert!(!lcd_init_check(0x0000_0080));
    assert!(!lcd_init_check(0));
}

#[test]
fn compressor_and_valve_handlers() {
    let mut ops = Vec::new();
    assert_eq!(cb_write_hard_comp(&mut ops, 0x1234), Ok(()));
    assert_eq!(cb_write_hard_valv(&mut ops, 0x0042), Ok(()));
    cb_read_hard_comp(&mut ops);
    cb_read_hard_valv(&mut ops);
    assert_eq!(
        ops,
        vec![
            BusOp::Write { reg: BusReg::PwmComp, value: 0x1234 },
            BusOp::Write { reg: BusReg::PwmValve, value: 0x0042 },
            BusOp::Read { reg: BusReg::PwmComp },
            BusOp::Read { reg: BusReg::PwmValve },
        ]
    );
}
