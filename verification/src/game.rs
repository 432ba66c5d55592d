//! The two demonstration games steered by tilting the device: a pair of
//! squares moved by the accelerometer, and the controls of a falling-blocks
//! game.
use vstd::prelude::*;
use crate::bus::BusOp;
use crate::lcd::{Lcd, Rect, LCD_WIDTH, LCD_HEIGHT, Color, color_value, rect_ok, set_rect_ops, fill_color_ops, RGB};

verus! {

/// Side of a board cell on the screen, in pixels.
pub const SQUARE_SIZE: usize = 20;

/// `v`, or 0 when it lies strictly between `-limit` and `limit`.
pub open spec fn dead_zone(v: int, limit: int) -> int {
    if v < limit && v > -limit {
        0
    } else {
        v
    }
}

/// Division rounded toward zero.
pub open spec fn div_toward_zero(a: int, d: int) -> int {
    if a >= 0 {
        a / d
    } else {
        -((-a) / d)
    }
}

pub open spec fn sign(v: int) -> int {
    if v > 0 {
        1
    } else if v < 0 {
        -1
    } else {
        0
    }
}

/// Position `p` of an object of length `size` kept on a line of length
/// `max`.
pub open spec fn keep_on_screen(p: int, size: int, max: int) -> int {
    if p + size > max {
        max - size
    } else if p < 0 {
        0
    } else {
        p
    }
}

/// Filling `r` with colour `c`.
pub open spec fn fill_ops(r: Rect, c: Color) -> Seq<BusOp> {
    set_rect_ops(r) + fill_color_ops((r.w * r.h) as nat, color_value(c))
}

/// Position `p` of an object of length `size` on a line of length `max`,
/// moved by `step`: the position is taken as a signed number, and the
/// object is kept on the line.
pub open spec fn moved(p: usize, step: int, size: usize, max: usize) -> usize {
    let q = (p as isize) as int + step;
    if q + (size as isize) as int > max {
        (max - size) as usize
    } else if q < 0 {
        0
    } else {
        q as usize
    }
}

/// The move of `moved` can be computed in machine integers.
pub open spec fn move_ok(p: usize, step: int, size: usize, max: usize) -> bool {
    let q = (p as isize) as int + step;
    &&& isize::MIN <= q <= isize::MAX
    &&& isize::MIN <= q + (size as isize) as int <= isize::MAX
    &&& q + (size as isize) as int > max ==> size <= max
}

/// Vertical step of the red square for the y reading: an eighth of it,
/// readings under 50 in size ignored.
pub open spec fn red_step(axes: (isize, isize, isize)) -> int {
    div_toward_zero(dead_zone(axes.1 as int, 50), 8)
}

/// Horizontal step of the green square for the z reading: 20 pixels with
/// its sign, readings under 50 in size ignored.
pub open spec fn green_step(axes: (isize, isize, isize)) -> int {
    20 * sign(dead_zone(axes.2 as int, 50))
}

/// Where the squares go for the accelerations `axes` (x, y, z): the red one
/// moves vertically, the green one horizontally, both kept on the screen.
pub open spec fn game_moves(red: Rect, green: Rect, axes: (isize, isize, isize)) -> (Rect, Rect) {
    (
        Rect { x: red.x, y: moved(red.y, red_step(axes), red.h, LCD_HEIGHT), w: red.w, h: red.h },
        Rect {
            x: moved(green.x, green_step(axes), green.w, LCD_WIDTH),
            y: green.y,
            w: green.w,
            h: green.h,
        },
    )
}

/// A frame of the squares game can be computed and drawn.
pub open spec fn game_ok(red: Rect, green: Rect, axes: (isize, isize, isize)) -> bool {
    &&& move_ok(red.y, red_step(axes), red.h, LCD_HEIGHT)
    &&& move_ok(green.x, green_step(axes), green.w, LCD_WIDTH)
    &&& rect_ok(red)
    &&& rect_ok(green)
    &&& rect_ok(game_moves(red, green, axes).0)
    &&& rect_ok(game_moves(red, green, axes).1)
}

/// A square that fits on the screen.
pub open spec fn square_ok(r: Rect) -> bool {
    &&& 1 <= r.w <= LCD_WIDTH
    &&& 1 <= r.h <= LCD_HEIGHT
    &&& r.x <= LCD_WIDTH
    &&& r.y <= LCD_HEIGHT
}

proof fn lemma_square_drawable(r: Rect)
    requires
        square_ok(r),
    ensures
        rect_ok(r),
{
    assert(r.w * r.h <= LCD_WIDTH * LCD_HEIGHT) by (nonlinear_arith)
        requires
            r.w <= LCD_WIDTH,
            r.h <= LCD_HEIGHT,
    ;
}

/// Squares on the screen stay on the screen: from squares that fit on the
/// screen, every frame can be computed and drawn, and the squares it moves
/// to fit on the screen again, whatever the readings.
pub proof fn lemma_squares_stay_on_screen(red: Rect, green: Rect, axes: (isize, isize, isize))
    requires
        square_ok(red),
        square_ok(green),
    ensures
        game_ok(red, green, axes),
        square_ok(game_moves(red, green, axes).0),
        square_ok(game_moves(red, green, axes).1),
{
    let (r2, g2) = game_moves(red, green, axes);
    assert(square_ok(r2));
    assert(square_ok(g2));
    lemma_square_drawable(red);
    lemma_square_drawable(green);
    lemma_square_drawable(r2);
    lemma_square_drawable(g2);
}

fn rect_fits(r: &Rect) -> (b: bool)
    ensures
        b == rect_ok(*r),
{
    let x = r.x as u128;
    let y = r.y as u128;
    let w = r.w as u128;
    let h = r.h as u128;
    assert(w * h <= (usize::MAX as u128) * (usize::MAX as u128)) by (nonlinear_arith)
        requires
            w <= usize::MAX,
            h <= usize::MAX,
    ;
    assert((usize::MAX as u128) * (usize::MAX as u128) <= u128::MAX) by (nonlinear_arith);
    x + w >= 1 && y + h >= 1 && x + w <= usize::MAX as u128 && y + h <= usize::MAX as u128 && w * h
        <= usize::MAX as u128
}

fn move_fits(p: usize, step: isize, size: usize, max: usize) -> (r: (bool, usize))
    ensures
        r.0 == move_ok(p, step as int, size, max),
        r.0 ==> r.1 == moved(p, step as int, size, max),
{
    let q: i128 = (p as isize) as i128 + step as i128;
    let end: i128 = q + (size as isize) as i128;
    if q < isize::MIN as i128 || q > isize::MAX as i128 || end < isize::MIN as i128 || end
        > isize::MAX as i128 {
        return (false, 0);
    }
    if end > max as i128 {
        if size <= max {
            (true, max - size)
        } else {
            (false, 0)
        }
    } else if q < 0 {
        (true, 0)
    } else {
        (true, q as usize)
    }
}

/// Whether a frame of the squares game can be computed and drawn.
pub fn game_fits(red: &Rect, green: &Rect, axes: (isize, isize, isize)) -> (b: bool)
    ensures
        b == game_ok(*red, *green, axes),
{
    let y = axes.1;
    let x = axes.2;
    let dy: isize = if y < 50 && y > -50 {
        0
    } else {
        y
    };
    let dx: isize = if x < 50 && x > -50 {
        0
    } else {
        x
    };
    let sg: isize = if dx > 0 {
        1
    } else if dx < 0 {
        -1
    } else {
        0
    };
    let (ok_r, ny) = move_fits(red.y, dy / 8, red.h, LCD_HEIGHT);
    let (ok_g, nx) = move_fits(green.x, 20 * sg, green.w, LCD_WIDTH);
    if !ok_r || !ok_g {
        return false;
    }
    let r2 = Rect { x: red.x, y: ny, w: red.w, h: red.h };
    let g2 = Rect { x: nx, y: green.y, w: green.w, h: green.h };
    rect_fits(red) && rect_fits(green) && rect_fits(&r2) && rect_fits(&g2)
}

/// One frame of the squares game: the squares move and are redrawn (old
/// places in black, then red and green at the new places).
pub fn game_iter(
    lcd: &mut Lcd,
    red: &mut Rect,
    green: &mut Rect,
    axes: (isize, isize, isize),
) -> (ops: Vec<BusOp>)
    requires
        game_ok(*old(red), *old(green), axes),
    ensures
        (*final(red), *final(green)) == game_moves(*old(red), *old(green), axes),
        ops@ == fill_ops(*old(red), Color::Black) + fill_ops(*old(green), Color::Black) + fill_ops(
            *final(red),
            Color::Red,
        ) + fill_ops(*final(green), Color::Green),
{
    let prev_red = *red;
    let prev_green = *green;
    let y = axes.1;
    let x = axes.2;
    let dy: isize = if y < 50 && y > -50 {
        0
    } else {
        y
    };
    let dx: isize = if x < 50 && x > -50 {
        0
    } else {
        x
    };
    let yy: isize = red.y as isize + (dy / 8);
    red.y = if yy + red.h as isize > LCD_HEIGHT as isize {
        LCD_HEIGHT - red.h
    } else if yy < 0 {
        0
    } else {
        yy as usize
    };
    let sg: isize = if dx > 0 {
        1
    } else if dx < 0 {
        -1
    } else {
        0
    };
    let xx: isize = green.x as isize + 20 * sg;
    green.x = if xx + green.w as isize > LCD_WIDTH as isize {
        LCD_WIDTH - green.w
    } else if xx < 0 {
        0
    } else {
        xx as usize
    };
    let mut ops = lcd.fill_rect_with_color(prev_red, u16::from(Color::Black));
    let mut more = lcd.fill_rect_with_color(prev_green, u16::from(Color::Black));
    ops.append(&mut more);
    let mut more = lcd.fill_rect_with_color(*red, u16::from(Color::Red));
    ops.append(&mut more);
    let mut more = lcd.fill_rect_with_color(*green, u16::from(Color::Green));
    ops.append(&mut more);
    ops
}

/// Screen square of board cell (`x`, `y`): the board lies on its side, its
/// rows running right to left.
pub open spec fn spec_cell_rect(x: usize, y: usize) -> Rect {
    Rect {
        x: (LCD_WIDTH - SQUARE_SIZE - y * SQUARE_SIZE) as usize,
        y: (x * SQUARE_SIZE) as usize,
        w: SQUARE_SIZE,
        h: SQUARE_SIZE,
    }
}

pub fn cell_rect(x: usize, y: usize) -> (r: Rect)
    requires
        y * SQUARE_SIZE + SQUARE_SIZE <= LCD_WIDTH,
        x * SQUARE_SIZE <= usize::MAX,
    ensures
        r == spec_cell_rect(x, y),
{
    Rect::new(LCD_WIDTH - SQUARE_SIZE - y * SQUARE_SIZE, x * SQUARE_SIZE, SQUARE_SIZE, SQUARE_SIZE)
}

/// Moves asked of the falling-blocks game.
#[derive(Debug, Clone, Copy, PartialEq, Eq, Structural)]
pub struct Control {
    pub left: bool,
    pub right: bool,
    pub fall: bool,
}

/// Tilt needed, accumulated over frames, for one sideways step.
pub const TILT_STEP: i32 = 1300;

pub open spec fn abs(v: int) -> int {
    if v < 0 {
        -v
    } else {
        v
    }
}

/// Size of a reading (`isize::abs`).
fn abs_isize(v: isize) -> (r: isize)
    requires
        v != isize::MIN,
    ensures
        r == abs(v as int),
{
    if v < 0 {
        -v
    } else {
        v
    }
}

/// The y reading with readings under 40 in size ignored.
pub open spec fn tilt_y(y: isize) -> int {
    if abs(y as int) < 40 {
        0
    } else {
        y as int
    }
}

/// The z reading with readings under 250 in size ignored.
pub open spec fn tilt_z(z: isize) -> int {
    if abs(z as int) < 250 {
        0
    } else {
        z as int
    }
}

/// What one frame adds to the sideways tilt: the y reading (as a 32-bit
/// value), six times over when it is larger than 150 in size.
pub open spec fn tilt_increment(y: isize) -> int {
    let d = tilt_y(y);
    let d32 = (d as i32) as int;
    if abs(d) > 150 {
        d32 * 6
    } else {
        d32
    }
}

/// The readings can be processed without overflow from tilt `accum`.
pub open spec fn control_ok(accum: i32, axes: (isize, isize, isize)) -> bool {
    &&& axes.1 != isize::MIN
    &&& axes.2 != isize::MIN
    &&& i32::MIN <= tilt_increment(axes.1) <= i32::MAX
    &&& i32::MIN <= accum + tilt_increment(axes.1) <= i32::MAX
}

/// One frame of the controls: from the accumulated tilt, the armed flag and
/// the readings, the new tilt and flag and the moves asked.  A step right
/// or left is asked when the tilt passes `TILT_STEP` either way, and that
/// much tilt is used up; a drop is asked when the device is tipped forward
/// (z below -350) while armed, and it disarms until the device comes back
/// (z above -100).
pub open spec fn control_step(s: (i32, bool), axes: (isize, isize, isize)) -> ((i32, bool), Control) {
    let (accum, armed) = s;
    let z = axes.2 as int;
    let armed1 = if z > -100 {
        true
    } else {
        armed
    };
    let dz = tilt_z(axes.2);
    let a = accum + tilt_increment(axes.1);
    let right = a > TILT_STEP;
    let left = !right && a < -TILT_STEP;
    let a2 = if right {
        a - TILT_STEP
    } else if left {
        a + TILT_STEP
    } else {
        a
    };
    let fall = armed1 && dz < -350;
    (((a2 as i32), if fall {
        false
    } else {
        armed1
    }), Control { left, right, fall })
}

/// State of the falling-blocks controls between frames.
pub struct TetrisInput {
    accum_y: i32,
    lvl_ret: bool,
}

impl View for TetrisInput {
    /// (accumulated sideways tilt, drop armed)
    type V = (i32, bool);

    closed spec fn view(&self) -> (i32, bool) {
        (self.accum_y, self.lvl_ret)
    }
}

impl TetrisInput {
    pub fn new() -> (t: Self)
        ensures
            t@ == (0i32, true),
    {
        TetrisInput { accum_y: 0, lvl_ret: true }
    }

    /// Whether the readings `axes` can be taken without overflow.
    pub fn control_fits(&self, axes: (isize, isize, isize)) -> (r: bool)
        ensures
            r == control_ok(self@.0, axes),
    {
        let y = axes.1;
        let x = axes.2;
        if y == isize::MIN || x == isize::MIN {
            return false;
        }
        let dy: isize = if abs_isize(y) < 40 {
            0
        } else {
            y
        };
        let d32: i64 = (dy as i32) as i64;
        let inc: i64 = if abs_isize(dy) > 150 {
            d32 * 6
        } else {
            d32
        };
        if inc < i32::MIN as i64 || inc > i32::MAX as i64 {
            return false;
        }
        let total: i64 = self.accum_y as i64 + inc;
        total >= i32::MIN as i64 && total <= i32::MAX as i64
    }

    /// The moves asked for the readings `axes` of this frame.
    pub fn tetris_control(&mut self, _tick: u32, axes: (isize, isize, isize)) -> (c: Control)
        requires
            control_ok(old(self)@.0, axes),
        ensures
            (final(self)@, c) == control_step(old(self)@, axes),
    {
        let mut c = Control { left: false, right: false, fall: false };
        let y = axes.1;
        let x = axes.2;
        if x > -100 {
            self.lvl_ret = true;
        }
        let dx: isize = if abs_isize(x) < 250 {
            0
        } else {
            x
        };
        let dy: isize = if abs_isize(y) < 40 {
            0
        } else {
            y
        };
        if abs_isize(dy) > 150 {
            self.accum_y += dy as i32 * 6;
        } else {
            self.accum_y += dy as i32;
        }
        if self.accum_y > TILT_STEP {
            c.right = true;
            self.accum_y -= TILT_STEP;
        } else if self.accum_y < -TILT_STEP {
            c.left = true;
            self.accum_y += TILT_STEP;
        }
        if self.lvl_ret && dx < -350 {
            c.fall = true;
            self.lvl_ret = false;
        }
        c
    }
}


/// The controls' state after the first `n` frames of readings `xs`,
/// starting from `s`.
pub open spec fn control_state(
    s: (i32, bool),
    xs: Seq<(isize, isize, isize)>,
    n: nat,
) -> (i32, bool)
    decreases n,
{
    if n == 0 {
        s
    } else {
        control_step(control_state(s, xs, (n - 1) as nat), xs[n - 1]).0
    }
}

/// The moves asked in frame `i` of readings `xs`, starting from `s`.
pub open spec fn control_moves(s: (i32, bool), xs: Seq<(isize, isize, isize)>, i: nat) -> Control {
    control_step(control_state(s, xs, i), xs[i as int]).1
}

/// In one frame: never a step both ways; a drop only when the device is
/// tipped forward beyond -350, and a drop disarms the next one.
pub proof fn lemma_control_step_moves(s: (i32, bool), axes: (isize, isize, isize))
    ensures
        !(control_step(s, axes).1.left && control_step(s, axes).1.right),
        control_step(s, axes).1.fall ==> axes.2 < -350,
        control_step(s, axes).1.fall ==> !control_step(s, axes).0.1,
{
}

/// Once a drop has been asked in frame `i`, the drop stays disarmed through
/// frame `m` as long as no frame after `i` and before `m` brought the device
/// back above -100.
proof fn lemma_stays_disarmed(s: (i32, bool), xs: Seq<(isize, isize, isize)>, i: nat, m: nat)
    requires
        i < m <= xs.len(),
        control_moves(s, xs, i).fall,
        forall|k: int| i < k < m ==> (#[trigger] xs[k]).2 <= -100,
    ensures
        !control_state(s, xs, m).1,
    decreases m - i,
{
    if m > i + 1 {
        lemma_stays_disarmed(s, xs, i, (m - 1) as nat);
        assert(xs[m - 1].2 <= -100);
    }
}

/// Over any run of frames: no frame asks for a step both ways, a frame asks
/// for a drop only when the device is tipped forward beyond -350, and
/// between two drops the device has been brought back above -100 in some
/// frame after the first and before the second.
pub proof fn lemma_control_run(s: (i32, bool), xs: Seq<(isize, isize, isize)>, i: nat, j: nat)
    requires
        i < j < xs.len(),
    ensures
        !(control_moves(s, xs, i).left && control_moves(s, xs, i).right),
        control_moves(s, xs, i).fall ==> xs[i as int].2 < -350,
        control_moves(s, xs, i).fall && control_moves(s, xs, j).fall ==> exists|k: int|
            i < k < j && (#[trigger] xs[k]).2 > -100,
{
    lemma_control_step_moves(control_state(s, xs, i), xs[i as int]);
    if control_moves(s, xs, i).fall && control_moves(s, xs, j).fall {
        if !(exists|k: int| i < k < j && (#[trigger] xs[k]).2 > -100) {
            lemma_stays_disarmed(s, xs, i, j);
        }
    }
}


/// What a cell of the falling-blocks board holds, as far as it is drawn.
#[derive(Debug, Clone, Copy, PartialEq, Eq, Structural)]
pub enum CellKind {
    Empty,
    Red,
    Blue,
    C1,
    C2,
    C3,
    C4,
}

/// The colour a cell is drawn in.
pub open spec fn cell_color_spec(k: CellKind) -> RGB {
    match k {
        CellKind::Empty => RGB(0, 0, 0),
        CellKind::Red => RGB(255, 0, 0),
        CellKind::Blue => RGB(0, 70, 180),
        CellKind::C1 => RGB(30, 220, 50),
        CellKind::C2 => RGB(255, 210, 0),
        CellKind::C3 => RGB(210, 210, 20),
        CellKind::C4 => RGB(0, 10, 210),
    }
}

/// The colour a cell of kind `k` is drawn in.
pub fn cell_color(k: CellKind) -> (c: RGB)
    ensures
        c == cell_color_spec(k),
{
    match k {
        CellKind::Empty => RGB(0, 0, 0),
        CellKind::Red => RGB(255, 0, 0),
        CellKind::Blue => RGB(0, 70, 180),
        CellKind::C1 => RGB(30, 220, 50),
        CellKind::C2 => RGB(255, 210, 0),
        CellKind::C3 => RGB(210, 210, 20),
        CellKind::C4 => RGB(0, 10, 210),
    }
}


/// The green square's horizontal step: 20 pixels right when the z reading
/// is 50 or more, 20 pixels left when it is -50 or less, none otherwise.
pub proof fn lemma_green_step(axes: (isize, isize, isize))
    ensures
        axes.2 >= 50 ==> green_step(axes) == 20,
        axes.2 <= -50 ==> green_step(axes) == -20,
        -50 < axes.2 < 50 ==> green_step(axes) == 0,
{
}

/// A moved square stays wholly on the screen and keeps its size: moved by
/// its step, it is pushed flush against the far edge when it would run
/// past it, against the near edge when it would run before it, and
/// otherwise lands exactly where the step takes it.  The red square moves
/// only vertically and the green one only horizontally.
pub proof fn lemma_squares_clamped(red: Rect, green: Rect, axes: (isize, isize, isize))
    requires
        1 <= red.h <= LCD_HEIGHT,
        red.y + red.h <= LCD_HEIGHT,
        1 <= green.w <= LCD_WIDTH,
        green.x + green.w <= LCD_WIDTH,
    ensures
        ({
            let (r2, g2) = game_moves(red, green, axes);
            let qy = red.y + red_step(axes);
            let qx = green.x + green_step(axes);
            &&& r2.x == red.x && r2.w == red.w && r2.h == red.h
            &&& g2.y == green.y && g2.w == green.w && g2.h == green.h
            &&& r2.y + r2.h <= LCD_HEIGHT
            &&& g2.x + g2.w <= LCD_WIDTH
            &&& qy + red.h > LCD_HEIGHT ==> r2.y == LCD_HEIGHT - red.h
            &&& qy < 0 ==> r2.y == 0
            &&& 0 <= qy && qy + red.h <= LCD_HEIGHT ==> r2.y == qy
            &&& qx + green.w > LCD_WIDTH ==> g2.x == LCD_WIDTH - green.w
            &&& qx < 0 ==> g2.x == 0
            &&& 0 <= qx && qx + green.w <= LCD_WIDTH ==> g2.x == qx
        }),
{
}


/// The red square's vertical step: an eighth of the y reading, rounded
/// toward zero, when the reading is at least 50 in size, none otherwise.
pub proof fn lemma_red_step(axes: (isize, isize, isize))
    ensures
        axes.1 >= 50 ==> red_step(axes) == axes.1 as int / 8,
        axes.1 <= -50 ==> red_step(axes) == -((-(axes.1 as int)) / 8),
        -50 < axes.1 < 50 ==> red_step(axes) == 0,
{
}

} // verus!
