//! Filling a rectangle of a bitmap with the bytes of a 32-bit color.
use vstd::prelude::*;
use crate::errors::ErrorKind;
use crate::flow_error::FlowError;
use crate::graphics::bitmaps::Bitmap;

verus! {

/// Byte `c` of `color` in little-endian order: blue, green, red, then alpha of `0xAARRGGBB`.
pub open spec fn color_byte(color: u32, c: int) -> u8 {
    if c == 0 {
        (color % 256) as u8
    } else if c == 1 {
        ((color / 256) % 256) as u8
    } else if c == 2 {
        ((color / 65536) % 256) as u8
    } else {
        (color / 16777216) as u8
    }
}

fn color_byte_exec(color: u32, c: u32) -> (r: u8)
    ensures
        r == color_byte(color, c as int),
{
    if c == 0 {
        (color % 256) as u8
    } else if c == 1 {
        ((color / 256) % 256) as u8
    } else if c == 2 {
        ((color / 65536) % 256) as u8
    } else {
        (color / 16777216) as u8
    }
}

/// The rectangle is empty or does not fit in a `w` by `h` bitmap.
pub open spec fn fill_rect_invalid(x1: u32, y1: u32, x2: u32, y2: u32, w: int, h: int) -> bool {
    x1 >= x2 || y1 >= y2 || y2 > h || x2 > w
}

/// Fills the columns `x1..x2` of rows `y1..y2` with `color_srgb_argb`: each pixel takes the
/// first bytes of the color in little-endian order, as many as it has (B, G, R for 3 bytes per
/// pixel; B, G, R, A for 4). An empty or out-of-bounds rectangle, and a one-byte-per-pixel
/// bitmap, are refused with `InvalidArgument`.
pub fn flow_bitmap_bgra_fill_rect(b: &mut Bitmap, x1: u32, y1: u32, x2: u32, y2: u32, color_srgb_argb: u32)
    -> (r: Result<(), FlowError>)
    requires
        old(b).wf(),
    ensures
        final(b).wf(),
        r is Err <==> (fill_rect_invalid(x1, y1, x2, y2, old(b).spec_w() as int, old(b).spec_h() as int)
            || old(b).spec_bpp() == 1),
        r matches Err(e) ==> e.kind == ErrorKind::InvalidArgument,
        r is Err ==> *final(b) == *old(b),
        r is Ok ==> {
            &&& final(b).same_outside(&*old(b), x1 as int, x2 as int, y1 as int, y2 as int)
            &&& forall|x: int, y: int, c: int| x1 <= x < x2 && y1 <= y < y2 && 0 <= c < old(b).spec_bpp()
                ==> #[trigger] final(b).byte_at(x, y, c) == color_byte(color_srgb_argb, c)
        },
{
    if x1 >= x2 || y1 >= y2 || y2 > b.h() || x2 > b.w() {
        return Err(FlowError::with_message(ErrorKind::InvalidArgument,
            "Either out of bounds or has a width or height of zero"));
    }
    let step = b.info().t_per_pixel;
    if step == 1 {
        return Err(FlowError::with_message(ErrorKind::InvalidArgument, "One byte per pixel is not supported"));
    }
    let ghost orig = *b;
    let mut y = y1;
    while y < y2
        invariant
            b.wf(),
            orig.wf(),
            b.same_shape(&orig),
            step == orig.spec_bpp(),
            x1 < x2 <= orig.spec_w(), y1 <= y <= y2, y2 <= orig.spec_h(),
            forall|i: int| 0 <= i < orig.spec_bytes().len() && !orig.in_pixels(i)
                ==> #[trigger] b.spec_bytes()[i] == orig.spec_bytes()[i],
            forall|px: int, py: int, c: int|
                0 <= px < orig.spec_w() && 0 <= py < orig.spec_h() && 0 <= c < orig.spec_bpp()
                    ==> #[trigger] b.byte_at(px, py, c) == (if x1 <= px < x2 && y1 <= py < y {
                        color_byte(color_srgb_argb, c)
                    } else {
                        orig.byte_at(px, py, c)
                    }),
        decreases y2 - y,
    {
        let mut x = x1;
        while x < x2
            invariant
                b.wf(),
                orig.wf(),
                b.same_shape(&orig),
                step == orig.spec_bpp(),
                x1 <= x <= x2, x2 <= orig.spec_w(), y1 <= y < y2, y2 <= orig.spec_h(),
                forall|i: int| 0 <= i < orig.spec_bytes().len() && !orig.in_pixels(i)
                    ==> #[trigger] b.spec_bytes()[i] == orig.spec_bytes()[i],
                forall|px: int, py: int, c: int|
                    0 <= px < orig.spec_w() && 0 <= py < orig.spec_h() && 0 <= c < orig.spec_bpp()
                        ==> #[trigger] b.byte_at(px, py, c) == (if x1 <= px < x2 && y1 <= py < y
                            || (py == y && x1 <= px < x) {
                            color_byte(color_srgb_argb, c)
                        } else {
                            orig.byte_at(px, py, c)
                        }),
            decreases x2 - x,
        {
            let mut c: u32 = 0;
            while c < step
                invariant
                    b.wf(),
                    orig.wf(),
                    b.same_shape(&orig),
                    step == orig.spec_bpp(),
                    x1 <= x < x2, x2 <= orig.spec_w(), y1 <= y < y2, y2 <= orig.spec_h(),
                    c <= step,
                    forall|i: int| 0 <= i < orig.spec_bytes().len() && !orig.in_pixels(i)
                        ==> #[trigger] b.spec_bytes()[i] == orig.spec_bytes()[i],
                    forall|px: int, py: int, cc: int|
                        0 <= px < orig.spec_w() && 0 <= py < orig.spec_h() && 0 <= cc < orig.spec_bpp()
                            ==> #[trigger] b.byte_at(px, py, cc) == (if x1 <= px < x2 && y1 <= py < y
                                || (py == y && x1 <= px < x) || (py == y && px == x && cc < c) {
                                color_byte(color_srgb_argb, cc)
                            } else {
                                orig.byte_at(px, py, cc)
                            }),
                decreases step - c,
            {
                let ghost before = *b;
                let v = color_byte_exec(color_srgb_argb, c);
                b.write_byte(x, y, c, v);
                proof {
                    Bitmap::lemma_byte_write_frame(&before, &*b, x as int, y as int, c as int, v);
                }
                c = c + 1;
            }
            x = x + 1;
        }
        y = y + 1;
    }
    proof {
        assert forall|i: int| 0 <= i < orig.spec_bytes().len() && !orig.in_rect(i, x1 as int, x2 as int, y1 as int, y2 as int)
            implies #[trigger] b.spec_bytes()[i] == orig.spec_bytes()[i] by {
            if orig.in_pixels(i) {
                let (px, py, c) = orig.lemma_pixel_of_position(i);
                orig.lemma_pos_in_rect(px, py, c, x1 as int, x2 as int, y1 as int, y2 as int);
                assert(b.byte_at(px, py, c) == orig.byte_at(px, py, c));
            }
        }
    }
    Ok(())
}

} // verus!
