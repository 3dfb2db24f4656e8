//! Moving a frame's pixels between bitmaps and the forms single-format codecs take and give: a
//! list of BGRA or RGBA pixels, row after row, or the rows' bytes packed without padding.
use vstd::prelude::*;
use vstd::arithmetic::div_mod::{lemma_fundamental_div_mod, lemma_fundamental_div_mod_converse};
use crate::errors::ErrorKind;
use crate::flow_error::FlowError;
use crate::graphics::bitmaps::{Bgra8, Bitmap, PixelFormat};
use crate::graphics::hashing::contiguous_pixels;

verus! {

/// One RGBA pixel.
#[derive(Copy, Clone, Debug, PartialEq, Eq, Structural)]
pub struct Rgba8 {
    pub r: u8,
    pub g: u8,
    pub b: u8,
    pub a: u8,
}

/// Pixel `(x, y)` of a bitmap as BGRA: its first three bytes are blue, green and red; its alpha
/// is its fourth byte where the bitmap's alpha is meaningful, and opaque otherwise.
pub open spec fn bitmap_pixel(b: &Bitmap, x: int, y: int) -> Bgra8 {
    Bgra8 {
        b: b.byte_at(x, y, 0),
        g: b.byte_at(x, y, 1),
        r: b.byte_at(x, y, 2),
        a: if b.spec_format() == PixelFormat::Bgra32 { b.byte_at(x, y, 3) } else { 255u8 },
    }
}

/// The same color in RGBA order.
pub open spec fn rgba_of(p: Bgra8) -> Rgba8 {
    Rgba8 { r: p.r, g: p.g, b: p.b, a: p.a }
}

/// The same color in BGRA order.
pub open spec fn bgra_of(p: Rgba8) -> Bgra8 {
    Bgra8 { b: p.b, g: p.g, r: p.r, a: p.a }
}

/// `v` holds the pixels of the bitmap as BGRA, row after row.
pub open spec fn bgra_pixels_of(v: Seq<Bgra8>, b: &Bitmap) -> bool {
    &&& v.len() == b.spec_w() * b.spec_h()
    &&& forall|i: int| 0 <= i < v.len() ==> #[trigger] v[i] == bitmap_pixel(b, i % (b.spec_w() as int), i / (b.spec_w() as int))
}

/// `v` holds the pixels of the bitmap as RGBA, row after row.
pub open spec fn rgba_pixels_of(v: Seq<Rgba8>, b: &Bitmap) -> bool {
    &&& v.len() == b.spec_w() * b.spec_h()
    &&& forall|i: int| 0 <= i < v.len() ==> #[trigger] v[i] == rgba_of(bitmap_pixel(b, i % (b.spec_w() as int), i / (b.spec_w() as int)))
}

/// A well-formed bitmap has at most `u32::MAX` rows of pixel bytes in all, and so at most that
/// many pixels.
proof fn lemma_pixel_count(b: &Bitmap)
    requires
        b.wf(),
    ensures
        b.spec_h() * b.spec_row_len() <= u32::MAX,
        b.spec_w() * b.spec_h() <= u32::MAX,
{
    let h = b.spec_h() as int;
    let s = b.spec_stride() as int;
    let rl = b.spec_row_len();
    assert((h - 1) * rl <= (h - 1) * s) by (nonlinear_arith) requires h >= 1, rl <= s;
    assert(h * rl == (h - 1) * rl + rl) by (nonlinear_arith);
    assert(b.spec_w() * b.spec_h() <= h * rl) by (nonlinear_arith)
        requires rl == b.spec_w() * b.spec_bpp(), b.spec_bpp() >= 1, h == b.spec_h();
}

/// The pixels of a bitmap as BGRA, row after row, alpha opaque where it is not meaningful. A
/// gray bitmap is refused with `InvalidArgument`.
pub fn bitmap_bgra_pixels(bitmap: &Bitmap) -> (r: Result<Vec<Bgra8>, FlowError>)
    requires
        bitmap.wf(),
    ensures
        bitmap.spec_format() == PixelFormat::Gray8 ==> (r matches Err(e) && e.kind == ErrorKind::InvalidArgument),
        bitmap.spec_format() != PixelFormat::Gray8 ==> (r matches Ok(v) && bgra_pixels_of(v@, bitmap)),
{
    let fmt = bitmap.frame_info().fmt;
    if fmt == PixelFormat::Gray8 {
        return Err(FlowError::with_message(ErrorKind::InvalidArgument, "gray bitmaps have no BGRA pixels"));
    }
    let w = bitmap.w();
    let h = bitmap.h();
    proof {
        lemma_pixel_count(bitmap);
    }
    let mut v: Vec<Bgra8> = Vec::new();
    let mut y: u32 = 0;
    while y < h
        invariant
            bitmap.wf(),
            fmt == bitmap.spec_format(),
            fmt != PixelFormat::Gray8,
            w == bitmap.spec_w(),
            h == bitmap.spec_h(),
            y <= h,
            v@.len() == y * w,
            forall|i: int| 0 <= i < v@.len() ==> #[trigger] v@[i] == bitmap_pixel(bitmap, i % (w as int), i / (w as int)),
        decreases h - y,
    {
        let mut x: u32 = 0;
        while x < w
            invariant
                bitmap.wf(),
                fmt == bitmap.spec_format(),
                fmt != PixelFormat::Gray8,
                w == bitmap.spec_w(),
                h == bitmap.spec_h(),
                y < h,
                x <= w,
                v@.len() == y * w + x,
                forall|i: int| 0 <= i < v@.len() ==> #[trigger] v@[i] == bitmap_pixel(bitmap, i % (w as int), i / (w as int)),
            decreases w - x,
        {
            let a: u8 = if fmt == PixelFormat::Bgra32 { bitmap.read_byte(x, y, 3) } else { 255 };
            let p = Bgra8 { b: bitmap.read_byte(x, y, 0), g: bitmap.read_byte(x, y, 1), r: bitmap.read_byte(x, y, 2), a };
            proof {
                lemma_fundamental_div_mod_converse(y * w + x, w as int, y as int, x as int);
            }
            v.push(p);
            x = x + 1;
        }
        proof {
            assert((y + 1) * w == y * w + w) by (nonlinear_arith);
        }
        y = y + 1;
    }
    proof {
        assert(h * w == w * h) by (nonlinear_arith);
    }
    Ok(v)
}

/// The pixels of a bitmap as RGBA, row after row, alpha opaque where it is not meaningful. A
/// gray bitmap is refused with `InvalidArgument`.
pub fn bitmap_rgba_pixels(bitmap: &Bitmap) -> (r: Result<Vec<Rgba8>, FlowError>)
    requires
        bitmap.wf(),
    ensures
        bitmap.spec_format() == PixelFormat::Gray8 ==> (r matches Err(e) && e.kind == ErrorKind::InvalidArgument),
        bitmap.spec_format() != PixelFormat::Gray8 ==> (r matches Ok(v) && rgba_pixels_of(v@, bitmap)),
{
    let bgra = match bitmap_bgra_pixels(bitmap) {
        Ok(v) => v,
        Err(e) => return Err(e),
    };
    let mut out: Vec<Rgba8> = Vec::new();
    let mut i: usize = 0;
    while i < bgra.len()
        invariant
            i <= bgra@.len(),
            out@.len() == i,
            forall|j: int| 0 <= j < i ==> #[trigger] out@[j] == rgba_of(bgra@[j]),
        decreases bgra.len() - i,
    {
        let p = bgra[i];
        out.push(Rgba8 { r: p.r, g: p.g, b: p.b, a: p.a });
        i = i + 1;
    }
    Ok(out)
}

/// The pixel bytes of a bitmap's rows, one row after another, without the padding between rows.
pub fn pack_rows(bitmap: &Bitmap) -> (r: Vec<u8>)
    requires
        bitmap.wf(),
    ensures
        r@ == contiguous_pixels(bitmap),
{
    let mut v: Vec<u8> = Vec::new();
    bitmap.append_rows(&mut v);
    proof {
        assert(v@ =~= contiguous_pixels(bitmap));
    }
    v
}

/// Writes RGBA pixels, row after row, into the BGRA pixels of a 4-byte bitmap. The padding
/// between rows is unchanged.
pub fn write_rgba_pixels(bitmap: &mut Bitmap, pixels: &[Rgba8])
    requires
        old(bitmap).wf(),
        old(bitmap).spec_bpp() == 4,
        pixels@.len() >= old(bitmap).spec_w() * old(bitmap).spec_h(),
    ensures
        final(bitmap).wf(),
        final(bitmap).same_outside(&*old(bitmap), 0, old(bitmap).spec_w() as int, 0, old(bitmap).spec_h() as int),
        forall|x: int, y: int| 0 <= x < old(bitmap).spec_w() && 0 <= y < old(bitmap).spec_h()
            ==> #[trigger] final(bitmap).pixel_is(x, y, bgra_of(pixels@[y * old(bitmap).spec_w() + x])),
{
    let ghost orig = *old(bitmap);
    let w = bitmap.w();
    let h = bitmap.h();
    proof {
        lemma_pixel_count(&orig);
    }
    let mut y: u32 = 0;
    while y < h
        invariant
            bitmap.wf(),
            bitmap.spec_bpp() == 4,
            orig.wf(),
            w == orig.spec_w(),
            h == orig.spec_h(),
            w * h <= u32::MAX,
            pixels@.len() >= w * h,
            y <= h,
            bitmap.same_outside(&orig, 0, w as int, 0, h as int),
            forall|px: int, py: int| 0 <= px < w && 0 <= py < y
                ==> #[trigger] bitmap.pixel_is(px, py, bgra_of(pixels@[py * w + px])),
        decreases h - y,
    {
        let mut x: u32 = 0;
        while x < w
            invariant
                bitmap.wf(),
                bitmap.spec_bpp() == 4,
                orig.wf(),
                w == orig.spec_w(),
                h == orig.spec_h(),
                w * h <= u32::MAX,
                pixels@.len() >= w * h,
                y < h,
                x <= w,
                bitmap.same_outside(&orig, 0, w as int, 0, h as int),
                forall|px: int, py: int| 0 <= px < w && 0 <= py < y
                    ==> #[trigger] bitmap.pixel_is(px, py, bgra_of(pixels@[py * w + px])),
                forall|px: int| 0 <= px < x ==> #[trigger] bitmap.pixel_is(px, y as int, bgra_of(pixels@[y * w + px])),
            decreases w - x,
        {
            proof {
                assert(y * w + x < w * h) by (nonlinear_arith)
                    requires y < h, x < w;
            }
            let idx: usize = (y as usize) * (w as usize) + (x as usize);
            let s = pixels[idx];
            let p = Bgra8 { b: s.b, g: s.g, r: s.r, a: s.a };
            let ghost before = *bitmap;
            bitmap.write_pixel_bgra(x, y, p);
            proof {
                Bitmap::lemma_pixel_write_frame(&before, &*bitmap, x as int, y as int, 4);
                assert forall|px: int, py: int| 0 <= px < w && 0 <= py < y
                    implies #[trigger] bitmap.pixel_is(px, py, bgra_of(pixels@[py * w + px])) by {
                    assert(before.pixel_is(px, py, bgra_of(pixels@[py * w + px])));
                }
                assert forall|px: int| 0 <= px < x + 1
                    implies #[trigger] bitmap.pixel_is(px, y as int, bgra_of(pixels@[y * w + px])) by {
                    if px < x {
                        assert(before.pixel_is(px, y as int, bgra_of(pixels@[y * w + px])));
                    }
                }
                assert forall|i: int|
                    0 <= i < bitmap.spec_bytes().len() && !orig.in_rect(i, 0, w as int, 0, h as int)
                    implies #[trigger] bitmap.spec_bytes()[i] == orig.spec_bytes()[i] by {
                    if bitmap.spec_bytes()[i] != before.spec_bytes()[i] {
                        assert(before.in_rect(i, 0, w as int, 0, h as int));
                    }
                }
            }
            x = x + 1;
        }
        y = y + 1;
    }
}

/// What is written as RGBA pixels into a bitmap whose alpha is meaningful is read back as the
/// same RGBA pixels, row after row.
pub proof fn lemma_rgba_pixels_roundtrip(b: &Bitmap, pixels: Seq<Rgba8>, read: Seq<Rgba8>)
    requires
        b.wf(),
        b.spec_format() == PixelFormat::Bgra32,
        pixels.len() == b.spec_w() * b.spec_h(),
        forall|x: int, y: int| 0 <= x < b.spec_w() && 0 <= y < b.spec_h()
            ==> #[trigger] b.pixel_is(x, y, bgra_of(pixels[y * b.spec_w() + x])),
        rgba_pixels_of(read, b),
    ensures
        read == pixels,
{
    let w = b.spec_w() as int;
    assert forall|i: int| 0 <= i < read.len() implies #[trigger] read[i] == pixels[i] by {
        lemma_fundamental_div_mod(i, w);
        let x = i % w;
        let y = i / w;
        assert(0 <= y < b.spec_h()) by (nonlinear_arith)
            requires 0 <= i < w * b.spec_h(), w > 0, y == i / w;
        assert(i == y * w + x) by (nonlinear_arith)
            requires i == w * (i / w) + i % w, x == i % w, y == i / w;
        assert(b.pixel_is(x, y, bgra_of(pixels[y * w + x])));
    }
    assert(read =~= pixels);
}

} // verus!
