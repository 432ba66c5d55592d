//! The start-up picture.
use vstd::prelude::*;
use crate::bus::BusOp;
use crate::lcd::{Lcd, Rect, clear_ops, set_rect_ops, fill_bitmap_ops};

verus! {

/// The 16-bit pixels of a byte image: each pair of bytes, low byte first.
pub open spec fn pixels_of_bytes(b: Seq<u8>) -> Seq<u16> {
    Seq::new(b.len() / 2, |i: int| ((b[2 * i] as u16) | ((b[2 * i + 1] as u16) << 8u16)) as u16)
}

/// Reads a byte image as 16-bit pixels, little-endian; an odd last byte is
/// left out.
pub fn from_u8_slice(slice: &[u8]) -> (px: Vec<u16>)
    ensures
        px@ == pixels_of_bytes(slice@),
{
    let n: usize = slice.len();
    let len: usize = n / 2;
    let mut px: Vec<u16> = Vec::new();
    let mut i: usize = 0;
    while i < len
        invariant
            len == slice@.len() / 2,
            n == slice@.len(),
            i <= len,
            px@ == pixels_of_bytes(slice@).subrange(0, i as int),
        decreases len - i,
    {
        assert(2 * i + 1 < slice@.len()) by (nonlinear_arith)
            requires
                i < len,
                len == slice@.len() / 2,
        ;
        let v: u16 = (slice[2 * i] as u16) | ((slice[2 * i + 1] as u16) << 8u16);
        px.push(v);
        i += 1;
        assert(px@ =~= pixels_of_bytes(slice@).subrange(0, i as int));
    }
    assert(px@ =~= pixels_of_bytes(slice@));
    px
}

/// Where the logo goes on the screen.
pub open spec fn logo_rect() -> Rect {
    Rect { x: 75, y: 20, w: 200, h: 200 }
}

/// Clears the screen, draws the logo (a 200×200 picture given as bytes) and
/// shows it for a second.
pub fn draw_sreens(lcd: &mut Lcd, logo: &[u8]) -> (ops: Vec<BusOp>)
    requires
        logo@.len() >= 80000,
    ensures
        ops@ == clear_ops() + set_rect_ops(logo_rect()) + fill_bitmap_ops(
            40000,
            pixels_of_bytes(logo@),
        ) + seq![BusOp::Pause { ms: 1000 }],
{
    let mut ops = lcd.clear();
    let logo16 = from_u8_slice(logo);
    let mut more = lcd.fill_rect_with_bitmap(Rect { x: 75, y: 20, w: 200, h: 200 }, logo16.as_slice());
    ops.append(&mut more);
    ops.push(BusOp::Pause { ms: 1000 });
    ops
}

} // verus!
