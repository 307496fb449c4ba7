//! Pixel frames: rows of RGBA pixels, four bytes each, that the grid is
//! drawn into.

use vstd::prelude::*;
use vstd::arithmetic::div_mod::{
    lemma_div_is_ordered, lemma_fundamental_div_mod, lemma_fundamental_div_mod_converse_div,
    lemma_fundamental_div_mod_converse_mod, lemma_mod_bound,
};
use vstd::arithmetic::mul::lemma_mul_inequality;

verus! {

/// The byte that channel `k` of an opaque pixel of color `rgb` holds.
pub open spec fn channel(rgb: (u8, u8, u8), k: int) -> u8 {
    if k == 0 {
        rgb.0
    } else if k == 1 {
        rgb.1
    } else if k == 2 {
        rgb.2
    } else {
        255u8
    }
}

/// The frame with every whole pixel painted in `rgb`; bytes after the last
/// whole pixel stay.
pub open spec fn filled(frame: Seq<u8>, rgb: (u8, u8, u8)) -> Seq<u8> {
    Seq::new(
        frame.len(),
        |i: int|
            if i < (frame.len() / 4) * 4 {
                channel(rgb, i % 4)
            } else {
                frame[i]
            },
    )
}

/// Paints every whole pixel of the frame in `rgb`.
pub fn fill(frame: &mut [u8], rgb: (u8, u8, u8))
    ensures
        final(frame)@ == filled(old(frame)@, rgb),
{
    let len: usize = frame.len();
    let pixels: usize = len / 4;
    let mut p: usize = 0;
    while p < pixels
        invariant
            p <= pixels,
            pixels == old(frame)@.len() / 4,
            frame@.len() == len,
            len == old(frame)@.len(),
            forall|i: int|
                0 <= i < frame@.len() ==> #[trigger] frame@[i] == (if i < p * 4 {
                    channel(rgb, i % 4)
                } else {
                    old(frame)@[i]
                }),
        decreases pixels - p,
    {
        let start: usize = p * 4;
        frame[start] = rgb.0;
        frame[start + 1] = rgb.1;
        frame[start + 2] = rgb.2;
        frame[start + 3] = 255;
        p += 1;
    }
    assert(frame@ =~= filled(old(frame)@, rgb));
}

/// What is done to the pixels of a rectangle.
#[derive(Clone, Copy, Debug, PartialEq, Eq, Structural)]
pub enum Ink {
    /// Paint them in an opaque color.
    Paint(u8, u8, u8),
    /// Invert their color and make them opaque.
    Invert,
}

/// What channel `k` of a pixel holds after `ink`, when it held `before`.
pub open spec fn inked_byte(ink: Ink, before: u8, k: int) -> u8 {
    match ink {
        Ink::Paint(r, g, b) => channel((r, g, b), k),
        Ink::Invert => if k == 3 {
            255u8
        } else {
            (255 - before) as u8
        },
    }
}

/// Whether byte `i` of a frame of `len` bytes, `width` pixels to a row,
/// belongs to a whole pixel inside the rectangle that is `w` wide and `h`
/// high and has its corner at column `x0` of row `y0`. Pixels of the
/// rectangle beyond the end of a row or of the frame do not exist.
pub open spec fn in_rect(len: int, width: int, x0: int, y0: int, w: int, h: int, i: int) -> bool {
    let p = i / 4;
    &&& width > 0
    &&& x0 <= p % width < x0 + w
    &&& y0 <= p / width < y0 + h
    &&& p * 4 + 3 < len
}

/// Whether byte `i` belongs to a pixel of the rectangle that lies before
/// column `x` of row `y` in reading order.
pub open spec fn reached(
    len: int,
    width: int,
    x0: int,
    y0: int,
    w: int,
    h: int,
    y: int,
    x: int,
    i: int,
) -> bool {
    in_rect(len, width, x0, y0, w, h, i) && ((i / 4) / width < y || ((i / 4) / width == y && (i
        / 4) % width < x))
}

/// The frame with `ink` applied to the pixels of the rectangle that lie
/// before column `x` of row `y`.
pub open spec fn inked_upto(
    frame: Seq<u8>,
    width: int,
    x0: int,
    y0: int,
    w: int,
    h: int,
    ink: Ink,
    y: int,
    x: int,
) -> Seq<u8> {
    Seq::new(
        frame.len(),
        |i: int|
            if reached(frame.len() as int, width, x0, y0, w, h, y, x, i) {
                inked_byte(ink, frame[i], i % 4)
            } else {
                frame[i]
            },
    )
}

/// The frame with `ink` applied to every pixel of the rectangle.
pub open spec fn inked(frame: Seq<u8>, width: int, x0: int, y0: int, w: int, h: int, ink: Ink) -> Seq<
    u8,
> {
    Seq::new(
        frame.len(),
        |i: int|
            if in_rect(frame.len() as int, width, x0, y0, w, h, i) {
                inked_byte(ink, frame[i], i % 4)
            } else {
                frame[i]
            },
    )
}

/// The pixel in column `x` of row `y` is pixel number `y * width + x`, and
/// no other column and row give that number.
proof fn lemma_pixel(width: int, x: int, y: int)
    requires
        width > 0,
        0 <= x < width,
    ensures
        (y * width + x) / width == y,
        (y * width + x) % width == x,
{
    lemma_fundamental_div_mod_converse_div(y * width + x, width, y, x);
    lemma_fundamental_div_mod_converse_mod(y * width + x, width, y, x);
}

/// Applies `ink` to the pixels of a rectangle.
fn ink_rect(frame: &mut [u8], width: usize, x0: usize, y0: usize, w: usize, h: usize, ink: Ink)
    ensures
        final(frame)@ == inked(old(frame)@, width as int, x0 as int, y0 as int, w as int, h as int, ink),
{
    let len: usize = frame.len();
    let pixels: usize = len / 4;
    let ghost before = frame@;
    let ghost target = inked(before, width as int, x0 as int, y0 as int, w as int, h as int, ink);
    if width == 0 || x0 >= width || pixels == 0 {
        assert forall|i: int| 0 <= i < len implies !in_rect(
            len as int,
            width as int,
            x0 as int,
            y0 as int,
            w as int,
            h as int,
            i,
        ) by {
            if width > 0 {
                lemma_mod_bound(i / 4, width as int);
            }
        }
        assert(frame@ =~= target);
        return;
    }
    let last_row: usize = (pixels - 1) / width;
    if y0 > last_row {
        assert forall|i: int| 0 <= i < len implies !in_rect(
            len as int,
            width as int,
            x0 as int,
            y0 as int,
            w as int,
            h as int,
            i,
        ) by {
            if i / 4 <= pixels - 1 {
                lemma_div_is_ordered(i / 4, pixels - 1, width as int);
            }
        }
        assert(frame@ =~= target);
        return;
    }
    let x_end: usize = if w > width - x0 { width } else { x0 + w };
    let y_end: usize = if h > last_row - y0 { last_row + 1 } else { y0 + h };
    let mut y: usize = y0;
    assert(frame@ =~= inked_upto(before, width as int, x0 as int, y0 as int, w as int, h as int, ink, y as int, 0));
    while y < y_end
        invariant
            y0 <= y <= y_end <= last_row + 1,
            y_end <= y0 + h,
            h > last_row - y0 ==> y_end == last_row + 1,
            x0 < width,
            x0 <= x_end <= width,
            x_end <= x0 + w,
            w > width - x0 ==> x_end == width,
            w <= width - x0 ==> x_end == x0 + w,
            len == before.len(),
            frame@.len() == len,
            pixels == len / 4,
            pixels >= 1,
            last_row == (pixels - 1) / (width as int),
            frame@ == inked_upto(
                before,
                width as int,
                x0 as int,
                y0 as int,
                w as int,
                h as int,
                ink,
                y as int,
                0,
            ),
        decreases y_end - y,
    {
        proof {
            lemma_fundamental_div_mod(pixels - 1, width as int);
            lemma_mod_bound(pixels - 1, width as int);
            lemma_mul_inequality(y as int, last_row as int, width as int);
            assert((width as int) * (last_row as int) == (last_row as int) * (width as int))
                by (nonlinear_arith);
        }
        let row_start: usize = y * width;
        let mut x: usize = x0;
        assert(frame@ =~= inked_upto(
            before,
            width as int,
            x0 as int,
            y0 as int,
            w as int,
            h as int,
            ink,
            y as int,
            x as int,
        ));
        while x < x_end
            invariant
                x0 <= x <= x_end <= width,
                x_end <= x0 + w,
                y0 <= y < y0 + h,
                row_start == y * width,
                row_start <= pixels - 1,
                len == before.len(),
                frame@.len() == len,
                pixels == len / 4,
                frame@ == inked_upto(
                    before,
                    width as int,
                    x0 as int,
                    y0 as int,
                    w as int,
                    h as int,
                    ink,
                    y as int,
                    x as int,
                ),
            decreases x_end - x,
        {
            let ghost p = row_start + x;
            let ghost prev = frame@;
            proof {
                lemma_pixel(width as int, x as int, y as int);
            }
            if x < pixels - row_start {
                let start: usize = (row_start + x) * 4;
                match ink {
                    Ink::Paint(r, g, b) => {
                        frame[start] = r;
                        frame[start + 1] = g;
                        frame[start + 2] = b;
                    },
                    Ink::Invert => {
                        frame[start] = 255 - frame[start];
                        frame[start + 1] = 255 - frame[start + 1];
                        frame[start + 2] = 255 - frame[start + 2];
                    },
                }
                frame[start + 3] = 255;
            }
            assert forall|i: int| 0 <= i < len implies frame@[i] == inked_upto(
                before,
                width as int,
                x0 as int,
                y0 as int,
                w as int,
                h as int,
                ink,
                y as int,
                x + 1,
            )[i] by {
                let q = i / 4;
                lemma_fundamental_div_mod(q, width as int);
                assert((width as int) * (q / (width as int)) == (q / (width as int)) * (width as int))
                    by (nonlinear_arith);
                assert(prev[i] == inked_upto(
                    before,
                    width as int,
                    x0 as int,
                    y0 as int,
                    w as int,
                    h as int,
                    ink,
                    y as int,
                    x as int,
                )[i]);
                if q == p {
                    assert(q / (width as int) == y && q % (width as int) == x);
                    assert(!reached(
                        len as int,
                        width as int,
                        x0 as int,
                        y0 as int,
                        w as int,
                        h as int,
                        y as int,
                        x as int,
                        i,
                    ));
                    assert(prev[i] == before[i]);
                } else {
                    assert(!(q / (width as int) == y && q % (width as int) == x));
                }
            }
            x += 1;
            assert(frame@ =~= inked_upto(
                before,
                width as int,
                x0 as int,
                y0 as int,
                w as int,
                h as int,
                ink,
                y as int,
                x as int,
            ));
        }
        y += 1;
        assert(frame@ =~= inked_upto(
            before,
            width as int,
            x0 as int,
            y0 as int,
            w as int,
            h as int,
            ink,
            y as int,
            0,
        )) by {
            assert forall|i: int| 0 <= i < len implies 0 <= #[trigger] ((i / 4) % (width as int))
                < width by {
                lemma_mod_bound(i / 4, width as int);
            }
        }
    }
    assert(frame@ =~= target) by {
        assert forall|i: int| 0 <= i < len && in_rect(
            len as int,
            width as int,
            x0 as int,
            y0 as int,
            w as int,
            h as int,
            i,
        ) implies (i / 4) / (width as int) < y_end by {
            lemma_div_is_ordered(i / 4, pixels - 1, width as int);
        }
    }
}

/// Paints the pixels of a rectangle in `rgb`. The rectangle is `w` pixels
/// wide and `h` high and has its corner at column `x0` of row `y0`, in a
/// frame of `width` pixels to a row; what lies beyond the end of a row or
/// of the frame is left out.
pub fn fill_rect(frame: &mut [u8], width: usize, x0: usize, y0: usize, w: usize, h: usize, rgb: (
    u8,
    u8,
    u8,
))
    ensures
        final(frame)@ == inked(
            old(frame)@,
            width as int,
            x0 as int,
            y0 as int,
            w as int,
            h as int,
            Ink::Paint(rgb.0, rgb.1, rgb.2),
        ),
{
    ink_rect(frame, width, x0, y0, w, h, Ink::Paint(rgb.0, rgb.1, rgb.2));
}

/// Inverts the color of the pixels of a rectangle and makes them opaque.
/// What lies beyond the end of a row or of the frame is left out.
pub fn invert_rect(frame: &mut [u8], width: usize, x0: usize, y0: usize, w: usize, h: usize)
    ensures
        final(frame)@ == inked(
            old(frame)@,
            width as int,
            x0 as int,
            y0 as int,
            w as int,
            h as int,
            Ink::Invert,
        ),
{
    ink_rect(frame, width, x0, y0, w, h, Ink::Invert);
}

} // verus!
