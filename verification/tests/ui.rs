use monitor_fw::adc::{axis_from_raw, Adc};
use monitor_fw::beeper::Beeper;
use monitor_fw::bus::{BusOp, BusReg, Pin};
use monitor_fw::button::{Button, ButtonPin, Press, State};
use monitor_fw::embbox::EmbBox;
use monitor_fw::game::{cell_color, cell_rect, game_fits, game_iter, CellKind, Control, TetrisInput};
use monitor_fw::lcd::{full_screen_rect, lcd_pwr, lcd_reset, Color, Lcd, Rect, RGB, LCD_HEIGHT, LCD_WIDTH};
use monitor_fw::sche::up_to;
use monitor_fw::splash::{draw_sreens, from_u8_slice};

struct Key(State);

impl ButtonPin for Key {
    fn state(&self) -> State {
        self.0
    }
}

#[test]
fn accelerometer_axes() {
    assert_eq!(axis_from_raw(2000), 0);
    assert_eq!(axis_from_raw(0xFFFF), -2001);
    assert_eq!(axis_from_raw(0x1_0000 + 2100), 100);
    let mut a = Adc::new();
    assert_eq!(a.get_axes(), (0, 0, 0));
    a.callback_conv_ready(2100, 1900, 0xFFFF);
    assert_eq!(a.get_axes(), (-2001, -100, 100));
}

#[test]
fn beeper_does_nothing_yet() {
    let mut b = Beeper::new();
    b.init();
}

#[test]
fn level_to_key_state() {
    assert_eq!(State::from(false), State::Pressed);
    assert_eq!(State::from(true), State::Released);
}

fn press_for(ticks: u32) -> Press {
    let mut b = Button::new(Key(State::Released));
    for _ in 0..ticks {
        b.update_with_state(State::Pressed);
    }
    assert_eq!(b.press_len(), ticks);
    b.update_with_state(State::Released);
    assert_eq!(b.press_len(), 0);
    b.is_pressed()
}

#[test]
fn button_press_lengths() {
    assert_eq!(press_for(1), Press::NoPress);
    assert_eq!(press_for(5), Press::NoPress);
    assert_eq!(press_for(6), Press::Short);
    assert_eq!(press_for(255), Press::Short);
    assert_eq!(press_for(256), Press::Long);
}

#[test]
fn button_press_is_collected_once() {
    let mut b = Button::new(Key(State::Pressed));
    for _ in 0..10 {
        b.update_state_100hz();
    }
    b.update_with_state(State::Released);
    assert_eq!(b.is_pressed(), Press::Short);
    assert_eq!(b.is_pressed(), Press::NoPress);
    // a bounce afterwards keeps nothing new
    b.update_with_state(State::Pressed);
    b.update_with_state(State::Released);
    assert_eq!(b.is_pressed(), Press::NoPress);
}

#[test]
fn named_and_mixed_colours() {
    assert_eq!(u16::from(Color::White), 0xFFFF);
    assert_eq!(u16::from(Color::Black), 0);
    assert_eq!(u16::from(Color::Green), 0x07E0);
    assert_eq!(u16::from(Color::Blue), 0x001F);
    assert_eq!(u16::from(Color::Red), 0xF800);
    assert_eq!(u16::from(RGB(255, 0, 0)), 0xF800);
    assert_eq!(u16::from(RGB(0, 0, 255)), 0x001F);
    assert_eq!(u16::from(RGB(255, 255, 255)), 0xFFFF);
    assert_eq!(u16::from(RGB(0, 70, 180)), (17 << 5) | 22);
    assert_eq!(u16::from(RGB(0, 255, 0)), 0x07E0);
}

#[test]
fn display_start_up() {
    let mut lcd = Lcd::new();
    let ops = lcd.init();
    assert_eq!(ops.len(), 2 + 14 + 10 + 1 + LCD_WIDTH * LCD_HEIGHT + 2 + 2);
    assert_eq!(ops[0], BusOp::SetPin { pin: Pin::LcdReset, high: true });
    assert_eq!(ops[1], BusOp::Write { reg: BusReg::LcdIndex, value: 0x23 });
    assert_eq!(ops[ops.len() - 1], BusOp::Write { reg: BusReg::LcdParam, value: 0x01 });
    assert_eq!(ops[ops.len() - 4], BusOp::Pause { ms: 1000 });
    assert_eq!(lcd_reset(false), BusOp::SetPin { pin: Pin::LcdReset, high: false });
    assert_eq!(lcd_pwr(true), BusOp::SetPin { pin: Pin::LcdPower, high: true });
    assert_eq!(full_screen_rect(), Rect { x: 0, y: 0, w: 320, h: 240 });
    lcd.set_pixel(1, 1);
}

#[test]
fn scan_window_and_fill() {
    let mut lcd = Lcd::new();
    let ops = lcd.fill_rect_with_color(Rect::new(75, 20, 200, 200), 0x1234);
    let idx = |v| BusOp::Write { reg: BusReg::LcdIndex, value: v };
    let par = |v| BusOp::Write { reg: BusReg::LcdParam, value: v };
    assert_eq!(
        &ops[..11],
        &[idx(0x35), par(75), idx(0x36), par(274), idx(0x37), par((20 << 8) | 219), idx(0x20), par(20), idx(0x21), par(75), idx(0x22)]
    );
    assert_eq!(ops.len(), 11 + 40000);
    assert!(ops[11..].iter().all(|op| *op == par(0x1234)));
    let bitmap: Vec<u16> = (0..6).collect();
    let ops = lcd.fill_rect_with_bitmap(Rect::new(0, 0, 3, 2), &bitmap);
    assert_eq!(&ops[11..], &[par(0), par(1), par(2), par(3), par(4), par(5)]);
}

#[test]
fn bytes_to_pixels() {
    assert_eq!(from_u8_slice(&[1, 2, 3, 4, 5]), vec![0x0201, 0x0403]);
    assert_eq!(from_u8_slice(&[]), Vec::<u16>::new());
    let logo: Vec<u8> = (0..80000u32).map(|i| i as u8).collect();
    let mut lcd = Lcd::new();
    let ops = draw_sreens(&mut lcd, &logo);
    assert_eq!(ops.len(), (10 + 1 + 76800) + (10 + 1 + 40000) + 1);
    assert_eq!(*ops.last().unwrap(), BusOp::Pause { ms: 1000 });
    assert_eq!(ops[76811 + 11], BusOp::Write { reg: BusReg::LcdParam, value: 0x0100 });
}

#[test]
fn squares_follow_the_tilt() {
    let mut lcd = Lcd::new();
    let mut red = Rect { x: 50, y: 50, w: 25, h: 25 };
    let mut green = Rect { x: 100, y: 100, w: 25, h: 25 };
    let ops = game_iter(&mut lcd, &mut red, &mut green, (0, 80, -60));
    assert_eq!(red.y, 60);
    assert_eq!(green.x, 80);
    assert_eq!(ops.len(), 4 * (11 + 625));
    game_iter(&mut lcd, &mut red, &mut green, (0, -100, 49));
    assert_eq!(red.y, 48);
    assert_eq!(green.x, 80);
    game_iter(&mut lcd, &mut red, &mut green, (0, -9, 49));
    assert_eq!(red.y, 48);
    game_iter(&mut lcd, &mut red, &mut green, (0, 10000, 500));
    assert_eq!(red.y, LCD_HEIGHT - 25);
    assert_eq!(green.x, 100);
    let mut g2 = Rect { x: 10, y: 0, w: 25, h: 25 };
    game_iter(&mut lcd, &mut red, &mut g2, (0, 0, -500));
    assert_eq!(g2.x, 0);
}

#[test]
fn board_cells_on_screen() {
    assert_eq!(cell_rect(0, 0), Rect { x: 300, y: 0, w: 20, h: 20 });
    assert_eq!(cell_rect(3, 2), Rect { x: 260, y: 60, w: 20, h: 20 });
}

#[test]
fn tilt_controls() {
    let mut t = TetrisInput::new();
    let none = Control { left: false, right: false, fall: false };
    assert_eq!(t.tetris_control(0, (0, 200, 0)), none);
    assert_eq!(t.tetris_control(1, (0, 200, 0)), Control { left: false, right: true, fall: false });
    assert_eq!(t.tetris_control(2, (0, 39, 0)), none);
    let mut t = TetrisInput::new();
    for _ in 0..13 {
        t.tetris_control(0, (0, -100, 0));
    }
    assert_eq!(t.tetris_control(0, (0, -100, 0)), Control { left: true, right: false, fall: false });
    let mut t = TetrisInput::new();
    assert_eq!(t.tetris_control(0, (0, 0, -400)), Control { left: false, right: false, fall: true });
    assert_eq!(t.tetris_control(0, (0, 0, -400)), none);
    assert_eq!(t.tetris_control(0, (0, 0, 0)), none);
    assert_eq!(t.tetris_control(0, (0, 0, -351)), Control { left: false, right: false, fall: true });
}

#[test]
fn counting_task() {
    let mut g = up_to(2);
    assert_eq!(g.resume(), 1);
    assert_eq!(g.resume(), 2);
    assert_eq!(g.resume(), 3);
}

#[test]
fn inline_box() {
    assert!(EmbBox::<u32, [usize; 8]>::fits());
    assert!(!EmbBox::<[u64; 16], [usize; 2]>::fits());
    assert!(EmbBox::<(), u8>::fits());
    let mut b: EmbBox<u32, [usize; 8]> = EmbBox::new(5);
    assert_eq!(*b.get(), 5);
    *b.get_mut() = 9;
    assert_eq!(b.into_inner(), 9);
}

#[test]
fn frames_that_can_be_computed() {
    let red = Rect { x: 50, y: 50, w: 25, h: 25 };
    let green = Rect { x: 100, y: 100, w: 25, h: 25 };
    assert!(game_fits(&red, &green, (0, isize::MAX, isize::MIN)));
    let tall = Rect { x: 0, y: 0, w: 1, h: LCD_HEIGHT + 1 };
    assert!(!game_fits(&tall, &green, (0, 0, 0)));
    let empty = Rect { x: 0, y: 0, w: 0, h: 0 };
    assert!(!game_fits(&red, &empty, (0, 0, 0)));
    let far = Rect { x: 0, y: usize::MAX - 10, w: 25, h: 25 };
    let wrapped = Rect { x: 0, y: usize::MAX - 30, w: 25, h: 25 };
    assert!(game_fits(&wrapped, &green, (0, 0, 0)));
    assert!(!game_fits(&far, &green, (0, 0, 0)));
}

#[test]
fn tilt_overflow_is_detected() {
    let t = TetrisInput::new();
    assert!(t.control_fits((0, 200, 0)));
    assert!(!t.control_fits((0, isize::MIN, 0)));
    assert!(!t.control_fits((0, 0, isize::MIN)));
    assert!(!t.control_fits((0, 0x2000_0000, 0)));
    assert!(t.control_fits((0, 0x1_0000_0000 + 100, 0)));
}

#[test]
fn drop_rearms_only_after_return() {
    let mut t = TetrisInput::new();
    let mut drops = Vec::new();
    // tipped, held tipped, half back, tipped, back above -100, tipped
    for z in [-400isize, -400, -200, -500, -99, -400] {
        let c = t.tetris_control(0, (0, 0, z));
        assert!(!(c.left && c.right));
        if c.fall {
            assert!(z < -350);
        }
        drops.push(c.fall);
    }
    assert_eq!(drops, vec![true, false, false, false, false, true]);
    // coming back to -100 exactly does not re-arm
    let mut t = TetrisInput::new();
    assert!(t.tetris_control(0, (0, 0, -400)).fall);
    assert!(!t.tetris_control(0, (0, 0, -100)).fall);
    assert!(!t.tetris_control(0, (0, 0, -400)).fall);
}

#[test]
fn hold_count_follows_pressed_samples() {
    let (p, r) = (State::Pressed, State::Released);
    let mut b = Button::new(Key(r));
    let samples = [p, p, r, p, p, p, r, r];
    let expected = [1u32, 2, 0, 1, 2, 3, 0, 0];
    for (s, n) in samples.iter().zip(expected.iter()) {
        b.update_with_state(*s);
        assert_eq!(b.press_len(), *n);
        // nothing longer than a bounce was held, so nothing is pending
        assert_eq!(b.is_pressed(), Press::NoPress);
    }
}

#[test]
fn board_cell_colours() {
    assert_eq!(cell_color(CellKind::Empty), RGB(0, 0, 0));
    assert_eq!(cell_color(CellKind::Red), RGB(255, 0, 0));
    assert_eq!(cell_color(CellKind::Blue), RGB(0, 70, 180));
    assert_eq!(cell_color(CellKind::C1), RGB(30, 220, 50));
    assert_eq!(cell_color(CellKind::C2), RGB(255, 210, 0));
    assert_eq!(cell_color(CellKind::C3), RGB(210, 210, 20));
    assert_eq!(cell_color(CellKind::C4), RGB(0, 10, 210));
}

#[test]
fn counting_task_count() {
    let mut g = up_to(2);
    assert_eq!(g.count(), 0);
    assert_eq!(g.resume(), 1);
    assert_eq!(g.count(), 1);
    assert_eq!(g.resume(), 2);
    assert_eq!(g.count(), 2);
}
