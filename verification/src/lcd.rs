//! The 320×240 display, driven through its index and parameter ports on
//! the FSMC bus.
//!
//! ```text
//!     x
//!     o---------------------> width
//!   y |
//!     |
//!     V height
//! ```
//!
//! Drawing works on a scan window: `set_rect` selects the window, then the
//! memory-write command (0x22) is followed by one 5-6-5 colour word per
//! pixel.
use vstd::prelude::*;
use crate::bus::{BusOp, BusReg, Pin};

verus! {

pub const LCD_WIDTH: usize = 320;

pub const LCD_HEIGHT: usize = 240;

#[derive(Copy, Clone, Debug, PartialEq, Eq, Structural)]
pub struct Rect {
    pub x: usize,
    pub y: usize,
    pub w: usize,
    pub h: usize,
}

impl Rect {
    pub fn new(x: usize, y: usize, w: usize, h: usize) -> (r: Rect)
        ensures
            r == (Rect { x, y, w, h }),
    {
        Rect { x, y, w, h }
    }
}

/// The whole screen.
pub open spec fn spec_full_screen_rect() -> Rect {
    Rect { x: 0, y: 0, w: LCD_WIDTH, h: LCD_HEIGHT }
}

/// The whole screen.
pub fn full_screen_rect() -> (r: Rect)
    ensures
        r == spec_full_screen_rect(),
{
    Rect { x: 0, y: 0, w: LCD_WIDTH, h: LCD_HEIGHT }
}

/// Named colours.
#[derive(Copy, Clone, Debug, PartialEq, Eq, Structural)]
pub enum Color {
    White,
    Black,
    Green,
    Blue,
    Red,
}

/// The 5-6-5 word of a named colour.
pub open spec fn color_value(c: Color) -> u16 {
    match c {
        Color::White => 0xFFFF,
        Color::Black => 0x0000,
        Color::Green => 0x07E0,
        Color::Blue => 0x001F,
        Color::Red => 0xF800,
    }
}

impl From<Color> for u16 {
    fn from(c: Color) -> (v: u16) {
        match c {
            Color::White => 0xFFFF,
            Color::Black => 0x0000,
            Color::Green => 0x07E0,
            Color::Blue => 0x001F,
            Color::Red => 0xF800,
        }
    }
}

impl vstd::std_specs::convert::FromSpecImpl<Color> for u16 {
    open spec fn obeys_from_spec() -> bool {
        true
    }

    open spec fn from_spec(v: Color) -> u16 {
        color_value(v)
    }
}

/// A colour by its 8-bit red, green and blue parts.
#[derive(Copy, Clone, Debug, PartialEq, Eq, Structural)]
pub struct RGB(pub u8, pub u8, pub u8);

/// The 5-6-5 word of a colour: the red part scaled to 5 bits in the top
/// field (bits 11 to 15), the green part scaled to 6 bits in the middle
/// field (bits 5 to 10) and the blue part scaled to 5 bits in the bottom
/// field (bits 0 to 4).
pub open spec fn rgb565(r: u8, g: u8, b: u8) -> u16 {
    let r5: u16 = (r / 8) as u16;
    let g6: u16 = (g / 4) as u16;
    let b5: u16 = (b / 8) as u16;
    ((r5 << 11u16) & 0xF800u16) | ((g6 << 5u16) & 0x07E0u16) | (b5 & 0x001Fu16)
}

impl From<RGB> for u16 {
    fn from(c: RGB) -> (v: u16) {
        let r: u16 = (c.0 / 8) as u16;
        let g: u16 = (c.1 / 4) as u16;
        let b: u16 = (c.2 / 8) as u16;
        ((r << 11u16) & 0xF800u16) | ((g << 5u16) & 0x07E0u16) | (b & 0x001Fu16)
    }
}

impl vstd::std_specs::convert::FromSpecImpl<RGB> for u16 {
    open spec fn obeys_from_spec() -> bool {
        true
    }

    open spec fn from_spec(v: RGB) -> u16 {
        rgb565(v.0, v.1, v.2)
    }
}

/// A rectangle whose corner coordinates can be computed: its far edges do
/// not overflow and it is not an empty rectangle at the origin.
pub open spec fn rect_ok(r: Rect) -> bool {
    &&& r.x + r.w >= 1
    &&& r.y + r.h >= 1
    &&& r.x + r.w <= usize::MAX
    &&& r.y + r.h <= usize::MAX
    &&& r.w * r.h <= usize::MAX
}

/// Writing `value` to display register `index`.
pub open spec fn reg_ops(index: u16, value: u16) -> Seq<BusOp> {
    seq![
        BusOp::Write { reg: BusReg::LcdIndex, value: index },
        BusOp::Write { reg: BusReg::LcdParam, value: value },
    ]
}

/// Selecting `r` as scan window: horizontal bounds, vertical bounds packed in
/// one word (top in the high byte), then the start address (row, column).
pub open spec fn set_rect_ops(r: Rect) -> Seq<BusOp> {
    let x1 = r.x;
    let x2 = (r.x + r.w - 1) as usize;
    let y1 = r.y;
    let y2 = (r.y + r.h - 1) as usize;
    let yy = ((y1 << 8usize) | y2) as u16;
    reg_ops(0x35, x1 as u16) + reg_ops(0x36, x2 as u16) + reg_ops(0x37, yy) + reg_ops(
        0x20,
        y1 as u16,
    ) + reg_ops(0x21, x1 as u16)
}

/// Memory-write command followed by `n` pixels of `color`.
pub open spec fn fill_color_ops(n: nat, color: u16) -> Seq<BusOp> {
    seq![BusOp::Write { reg: BusReg::LcdIndex, value: 0x22 }] + Seq::new(
        n,
        |i: int| BusOp::Write { reg: BusReg::LcdParam, value: color },
    )
}

/// Memory-write command followed by the first `n` pixels of `bitmap`.
pub open spec fn fill_bitmap_ops(n: nat, bitmap: Seq<u16>) -> Seq<BusOp> {
    seq![BusOp::Write { reg: BusReg::LcdIndex, value: 0x22 }] + Seq::new(
        n,
        |i: int| BusOp::Write { reg: BusReg::LcdParam, value: bitmap[i] },
    )
}

/// Display off, interface and standby set-up, then the entry mode.
pub open spec fn init_disp_controller_ops() -> Seq<BusOp> {
    reg_ops(0x05, 0x00) + reg_ops(0x02, 0x00) + reg_ops(0x10, 0x00) + reg_ops(0x30, 0x00) + reg_ops(
        0x31,
        0x00,
    ) + reg_ops(0x32, 0x00) + reg_ops(0x03, 0x30)
}

/// Clearing the screen to black.
pub open spec fn clear_ops() -> Seq<BusOp> {
    set_rect_ops(spec_full_screen_rect()) + fill_color_ops(
        (LCD_WIDTH * LCD_HEIGHT) as nat,
        color_value(Color::Black),
    )
}

/// The start-up of the display.
pub open spec fn lcd_init_ops() -> Seq<BusOp> {
    seq![
        BusOp::SetPin { pin: Pin::LcdReset, high: true },
        BusOp::Write { reg: BusReg::LcdIndex, value: 0x23 },
    ] + init_disp_controller_ops() + clear_ops() + seq![
        BusOp::Pause { ms: 1000 },
        BusOp::SetPin { pin: Pin::LcdPower, high: true },
    ] + reg_ops(0x05, 0x01)
}

/// Logical reset line of the display (released when `on`).
pub fn lcd_reset(on: bool) -> (op: BusOp)
    ensures
        op == (BusOp::SetPin { pin: Pin::LcdReset, high: on }),
{
    BusOp::SetPin { pin: Pin::LcdReset, high: on }
}

/// Supply of the display and its backlight.
pub fn lcd_pwr(on: bool) -> (op: BusOp)
    ensures
        op == (BusOp::SetPin { pin: Pin::LcdPower, high: on }),
{
    BusOp::SetPin { pin: Pin::LcdPower, high: on }
}

fn write_reg(ops: &mut Vec<BusOp>, index: u16, value: u16)
    ensures
        final(ops)@ == old(ops)@ + reg_ops(index, value),
{
    ops.push(BusOp::Write { reg: BusReg::LcdIndex, value: index });
    ops.push(BusOp::Write { reg: BusReg::LcdParam, value: value });
    assert(final(ops)@ =~= old(ops)@ + reg_ops(index, value));
}

pub struct Lcd {}

impl Lcd {
    pub fn new() -> (l: Self)
        ensures
            l == (Lcd {}),
    {
        Lcd {}
    }

    /// Start-up: release the reset, select the 16-bit interface, set up the
    /// controller, clear the screen, wait a second, power the backlight and
    /// switch the display on.
    pub fn init(&mut self) -> (ops: Vec<BusOp>)
        ensures
            ops@ == lcd_init_ops(),
    {
        let mut ops: Vec<BusOp> = vec![
            lcd_reset(true),
            BusOp::Write { reg: BusReg::LcdIndex, value: 0x23 },
        ];
        Self::init_disp_controller(&mut ops);
        let mut more = self.clear();
        ops.append(&mut more);
        ops.push(BusOp::Pause { ms: 1000 });
        ops.push(lcd_pwr(true));
        Self::display_enable(&mut ops, true);
        assert(ops@ =~= lcd_init_ops());
        ops
    }

    /// Drawing single pixels is not supported; nothing is done.
    pub fn set_pixel(&mut self, _x: usize, _y: usize)
        ensures
            *final(self) == *old(self),
    {
    }

    /// Clears the screen to black.
    pub fn clear(&mut self) -> (ops: Vec<BusOp>)
        ensures
            ops@ == clear_ops(),
    {
        let rect = full_screen_rect();
        self.fill_rect_with_color(rect, u16::from(Color::Black))
    }

    /// Fills `rect` with `color`.
    pub fn fill_rect_with_color(&mut self, rect: Rect, color: u16) -> (ops: Vec<BusOp>)
        requires
            rect_ok(rect),
        ensures
            ops@ == set_rect_ops(rect) + fill_color_ops((rect.w * rect.h) as nat, color),
    {
        let mut ops: Vec<BusOp> = Vec::new();
        Self::set_rect(&mut ops, rect);
        Self::fill_with_color(&mut ops, rect.w * rect.h, color);
        ops
    }

    /// Fills `rect` with the first `rect.w * rect.h` pixels of `bitmap`,
    /// row by row.
    pub fn fill_rect_with_bitmap(&mut self, rect: Rect, bitmap: &[u16]) -> (ops: Vec<BusOp>)
        requires
            rect_ok(rect),
            rect.w * rect.h <= bitmap@.len(),
        ensures
            ops@ == set_rect_ops(rect) + fill_bitmap_ops((rect.w * rect.h) as nat, bitmap@),
    {
        let mut ops: Vec<BusOp> = Vec::new();
        Self::set_rect(&mut ops, rect);
        Self::fill_with_bitmap(&mut ops, rect.w * rect.h, bitmap);
        ops
    }

    fn init_disp_controller(ops: &mut Vec<BusOp>)
        ensures
            final(ops)@ == old(ops)@ + init_disp_controller_ops(),
    {
        write_reg(ops, 0x05, 0x00);
        write_reg(ops, 0x02, 0x00);
        write_reg(ops, 0x10, 0x00);
        write_reg(ops, 0x30, 0x00);
        write_reg(ops, 0x31, 0x00);
        write_reg(ops, 0x32, 0x00);
        Self::set_entry_mode(ops);
        assert(final(ops)@ =~= old(ops)@ + init_disp_controller_ops());
    }

    fn set_entry_mode(ops: &mut Vec<BusOp>)
        ensures
            final(ops)@ == old(ops)@ + reg_ops(0x03, 0x30),
    {
        write_reg(ops, 0x03, 0x30);
    }

    /// Switches the picture on or off.
    fn display_enable(ops: &mut Vec<BusOp>, on: bool)
        ensures
            final(ops)@ == old(ops)@ + reg_ops(
                0x05,
                if on {
                    0x01
                } else {
                    0x00
                },
            ),
    {
        if on {
            write_reg(ops, 0x05, 0x01);
        } else {
            write_reg(ops, 0x05, 0x00);
        }
    }

    fn set_rect(ops: &mut Vec<BusOp>, rect: Rect)
        requires
            rect_ok(rect),
        ensures
            final(ops)@ == old(ops)@ + set_rect_ops(rect),
    {
        let x1 = rect.x;
        let x2 = rect.x + rect.w - 1;
        let y1 = rect.y;
        let y2 = rect.y + rect.h - 1;
        write_reg(ops, 0x35, x1 as u16);
        write_reg(ops, 0x36, x2 as u16);
        let yy = ((y1 << 8usize) | y2) as u16;
        write_reg(ops, 0x37, yy);
        write_reg(ops, 0x20, y1 as u16);
        write_reg(ops, 0x21, x1 as u16);
        assert(final(ops)@ =~= old(ops)@ + set_rect_ops(rect));
    }

    fn fill_with_color(ops: &mut Vec<BusOp>, ln: usize, color: u16)
        ensures
            final(ops)@ == old(ops)@ + fill_color_ops(ln as nat, color),
    {
        let ghost start = ops@;
        let ghost total = ln;
        ops.push(BusOp::Write { reg: BusReg::LcdIndex, value: 0x22 });
        let mut ln = ln;
        while ln != 0
            invariant
                ln <= total,
                ops@ == start + fill_color_ops((total - ln) as nat, color),
            decreases ln,
        {
            ops.push(BusOp::Write { reg: BusReg::LcdParam, value: color });
            ln -= 1;
            assert(ops@ =~= start + fill_color_ops((total - ln) as nat, color));
        }
    }

    fn fill_with_bitmap(ops: &mut Vec<BusOp>, ln: usize, bitmap: &[u16])
        requires
            ln <= bitmap@.len(),
        ensures
            final(ops)@ == old(ops)@ + fill_bitmap_ops(ln as nat, bitmap@),
    {
        let ghost start = ops@;
        ops.push(BusOp::Write { reg: BusReg::LcdIndex, value: 0x22 });
        let mut i: usize = 0;
        while i < ln
            invariant
                i <= ln,
                ln <= bitmap@.len(),
                ops@ == start + fill_bitmap_ops(i as nat, bitmap@),
            decreases ln - i,
        {
            ops.push(BusOp::Write { reg: BusReg::LcdParam, value: bitmap[i] });
            i += 1;
            assert(ops@ =~= start + fill_bitmap_ops(i as nat, bitmap@));
        }
    }
}

/// Each part of a colour can be read back from its field of the 5-6-5
/// word: the top five bits of red and blue and the top six bits of green.
pub proof fn lemma_rgb565_fields(r: u8, g: u8, b: u8)
    ensures
        rgb565(r, g, b) >> 11u16 == (r / 8) as u16,
        rgb565(r, g, b) & 0x001Fu16 == (b / 8) as u16,
        (rgb565(r, g, b) >> 5u16) & 0x003Fu16 == (g / 4) as u16,
{
    let r5: u16 = (r / 8) as u16;
    let g6: u16 = (g / 4) as u16;
    let b5: u16 = (b / 8) as u16;
    assert(r5 < 32 && g6 < 64 && b5 < 32);
    let v = ((r5 << 11u16) & 0xF800u16) | ((g6 << 5u16) & 0x07E0u16) | (b5 & 0x001Fu16);
    assert(v >> 11u16 == r5 && v & 0x001Fu16 == b5 && (v >> 5u16) & 0x003Fu16 == g6)
        by (bit_vector)
        requires
            r5 < 32,
            g6 < 64,
            b5 < 32,
            v == ((r5 << 11u16) & 0xF800u16) | ((g6 << 5u16) & 0x07E0u16) | (b5 & 0x001Fu16),
    ;
}


/// The display is driven through ports C and F: their clocks (IOPCEN, bit 4,
/// and IOPFEN, bit 7, of RCC APB2ENR) must be on before it is set up.
/// Given the value of APB2ENR, tells whether both are.
pub fn lcd_init_check(apb2enr: u32) -> (ready: bool)
    ensures
        ready == (apb2enr & 0x0010 != 0 && apb2enr & 0x0080 != 0),
{
    apb2enr & 0x0010 != 0 && apb2enr & 0x0080 != 0
}


/// Clearing the screen selects the whole screen as the window, sends the
/// memory-write command, and then paints each of its 320 × 240 pixels
/// black: every pixel word is 0x0000.
pub proof fn lemma_clear_paints_black()
    ensures
        ({
            let w = set_rect_ops(spec_full_screen_rect());
            &&& clear_ops().len() == w.len() + 1 + 320 * 240
            &&& clear_ops().subrange(0, w.len() as int) == w
            &&& clear_ops()[w.len() as int] == BusOp::Write { reg: BusReg::LcdIndex, value: 0x22 }
            &&& forall|j: int|
                w.len() + 1 <= j < clear_ops().len() ==> #[trigger] clear_ops()[j] == BusOp::Write {
                    reg: BusReg::LcdParam,
                    value: 0x0000,
                }
        }),
{
    let w = set_rect_ops(spec_full_screen_rect());
    assert(clear_ops().subrange(0, w.len() as int) =~= w);
}

} // verus!
