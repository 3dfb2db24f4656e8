//! Copying a rectangle of pixels from one bitmap onto another.
use vstd::prelude::*;
use vstd::arithmetic::mul::lemma_mul_inequality;
use crate::errors::ErrorKind;
use crate::flow_error::FlowError;
use crate::graphics::alpha::is_alpha_filled;
use crate::graphics::bitmaps::{Bitmap, BitmapCompositing, PixelFormat, PixelLayout, SurfaceInfo};

verus! {

/// The rectangle does not start inside the input, or does not fit in the input or on the canvas.
pub open spec fn copy_rect_args_invalid(input: &Bitmap, canvas: &Bitmap, from_x: u32, from_y: u32,
    to_x: u32, to_y: u32, w: u32, h: u32) -> bool {
    ||| input.spec_w() <= from_x
    ||| input.spec_h() <= from_y
    ||| input.spec_w() < from_x + w
    ||| input.spec_h() < from_y + h
    ||| canvas.spec_w() < to_x + w
    ||| canvas.spec_h() < to_y + h
}

/// Pixels of the input format can be copied byte for byte onto the canvas format: the formats
/// are the same, or BGR with unused alpha goes onto BGRA.
pub open spec fn formats_copyable(input_fmt: PixelFormat, canvas_fmt: PixelFormat) -> bool {
    canvas_fmt == input_fmt || (canvas_fmt == PixelFormat::Bgra32 && input_fmt == PixelFormat::Bgr32)
}

/// Both bitmaps are whole (not cropped), the rectangle covers both entirely and their strides
/// agree: then everything from the first pixel on is copied, stride padding included.
pub open spec fn copies_whole_buffer(input: &Bitmap, canvas: &Bitmap, from_x: u32, from_y: u32,
    to_x: u32, to_y: u32, w: u32, h: u32) -> bool {
    &&& !input.spec_cropped()
    &&& !canvas.spec_cropped()
    &&& from_x == 0 && from_y == 0 && w == input.spec_w() && h == input.spec_h()
    &&& to_x == 0 && to_y == 0 && w == canvas.spec_w() && h == canvas.spec_h()
    &&& input.spec_stride() == canvas.spec_stride()
}

/// Every byte of the `w` by `h` rectangle at `(to_x, to_y)` of `canvas` is the byte at the same
/// place of the rectangle at `(from_x, from_y)` of `src`.
pub open spec fn rect_copied(canvas: &Bitmap, src: &Bitmap, from_x: u32, from_y: u32,
    to_x: u32, to_y: u32, w: u32, h: u32) -> bool {
    forall|x: int, y: int, c: int|
        to_x <= x < to_x + w && to_y <= y < to_y + h && 0 <= c < canvas.spec_bpp()
            ==> #[trigger] canvas.byte_at(x, y, c) == src.byte_at(x - to_x + from_x, y - to_y + from_y, c)
}

/// What the input holds once the copy has prepared it: BGR with unused alpha that goes onto BGRA
/// gets its alpha set to 255, anything else stays as it is.
pub open spec fn input_prepared(after: &Bitmap, before: &Bitmap, canvas: &Bitmap) -> bool {
    if before.spec_format() == PixelFormat::Bgr32 && canvas.spec_format() == PixelFormat::Bgra32 {
        is_alpha_filled(after, before)
    } else {
        *after == *before
    }
}

/// The inputs on which copying the rectangle neither fails to start nor stops: both bitmaps are
/// well formed, and a rectangle that fits is not empty, is not BGR going onto BGRA, and, when
/// whole buffers are copied, they have the same length from the first pixel on.
pub open spec fn copy_rect_accepts(input: &Bitmap, canvas: &Bitmap, from_x: u32, from_y: u32,
    to_x: u32, to_y: u32, w: u32, h: u32) -> bool {
    &&& input.wf()
    &&& canvas.wf()
    &&& !copy_rect_args_invalid(input, canvas, from_x, from_y, to_x, to_y, w, h) ==> {
        &&& w >= 1 && h >= 1
        &&& !(input.spec_format() == PixelFormat::Bgr24 && canvas.spec_info().pixel_layout == PixelLayout::BGRA)
        &&& formats_copyable(input.spec_format(), canvas.spec_format())
            && copies_whole_buffer(input, canvas, from_x, from_y, to_x, to_y, w, h)
            ==> input.spec_bytes().len() - input.spec_offset() == canvas.spec_bytes().len() - canvas.spec_offset()
    }
}

/// What copying the rectangle comes to, for the inputs that `copy_rectangle` accepts: the
/// outcome `r`, the input before and after, and the canvas before and after.
pub open spec fn copy_rect_outcome(r: Result<(), FlowError>, input_before: &Bitmap, input_after: &Bitmap,
    canvas_before: &Bitmap, canvas_after: &Bitmap, from_x: u32, from_y: u32, to_x: u32, to_y: u32, w: u32,
    h: u32) -> bool {
    &&& input_after.wf()
    &&& canvas_after.wf()
    &&& copy_rect_args_invalid(input_before, canvas_before, from_x, from_y, to_x, to_y, w, h) ==> {
        &&& r matches Err(e) && e.kind == ErrorKind::InvalidArgument
        &&& *input_after == *input_before
        &&& *canvas_after == *canvas_before
    }
    &&& !copy_rect_args_invalid(input_before, canvas_before, from_x, from_y, to_x, to_y, w, h) ==> {
        &&& input_prepared(input_after, input_before, canvas_before)
        &&& canvas_after.spec_info()
            == (SurfaceInfo { compose: BitmapCompositing::BlendWithSelf, ..canvas_before.spec_info() })
        &&& canvas_after.spec_w() == canvas_before.spec_w()
        &&& canvas_after.spec_h() == canvas_before.spec_h()
        &&& canvas_after.spec_stride() == canvas_before.spec_stride()
        &&& canvas_after.spec_bpp() == canvas_before.spec_bpp()
        &&& canvas_after.spec_offset() == canvas_before.spec_offset()
        &&& canvas_after.spec_cropped() == canvas_before.spec_cropped()
        &&& canvas_after.spec_bytes().len() == canvas_before.spec_bytes().len()
        &&& if formats_copyable(input_before.spec_format(), canvas_before.spec_format()) {
            &&& r is Ok
            &&& rect_copied(canvas_after, input_after, from_x, from_y, to_x, to_y, w, h)
            &&& if copies_whole_buffer(input_before, canvas_before, from_x, from_y, to_x, to_y, w, h) {
                &&& canvas_after.spec_bytes().subrange(0, canvas_before.spec_offset() as int)
                    == canvas_before.spec_bytes().subrange(0, canvas_before.spec_offset() as int)
                &&& forall|i: int| 0 <= i < input_after.spec_bytes().len() - input_after.spec_offset()
                    ==> #[trigger] canvas_after.spec_bytes()[canvas_before.spec_offset() + i]
                        == input_after.spec_bytes()[input_after.spec_offset() + i]
            } else {
                forall|i: int| 0 <= i < canvas_before.spec_bytes().len()
                    && !canvas_before.in_rect(i, to_x as int, to_x + w, to_y as int, to_y + h)
                    ==> #[trigger] canvas_after.spec_bytes()[i] == canvas_before.spec_bytes()[i]
            }
        } else {
            &&& r matches Err(e) && e.kind == ErrorKind::InvalidOperation
            &&& canvas_after.spec_bytes() == canvas_before.spec_bytes()
        }
    }
}

/// Byte column `x * bpp + c` lies in the byte span of columns `x0..x1` exactly when `x` does.
pub proof fn lemma_column_span(x: int, c: int, bpp: int, x0: int, x1: int)
    requires
        0 <= c < bpp,
        0 <= x, 0 <= x0,
    ensures
        (x0 <= x < x1) <==> (x0 * bpp <= x * bpp + c < x1 * bpp),
{
    if x < x0 {
        lemma_mul_inequality(x + 1, x0, bpp);
        assert((x + 1) * bpp == x * bpp + bpp) by (nonlinear_arith);
    } else {
        lemma_mul_inequality(x0, x, bpp);
    }
    if x < x1 {
        lemma_mul_inequality(x + 1, x1, bpp);
        assert((x + 1) * bpp == x * bpp + bpp) by (nonlinear_arith);
    } else {
        lemma_mul_inequality(x1, x, bpp);
    }
}

/// Copies the `w` by `h` rectangle at `(from_x, from_y)` of `input` onto `canvas` at `(to_x, to_y)`.
///
/// The rectangle must start inside the input and fit in both bitmaps, else `InvalidArgument`.
/// Otherwise the canvas is set to blend with itself, and the pixels are copied when the formats
/// allow it; BGR with unused alpha onto BGRA first has the whole input's alpha set to 255.
/// Other pairs of formats are refused with `InvalidOperation`.
pub fn copy_rectangle(input: &mut Bitmap, canvas: &mut Bitmap, from_x: u32, from_y: u32, to_x: u32,
    to_y: u32, w: u32, h: u32) -> (r: Result<(), FlowError>)
    requires
        copy_rect_accepts(&*old(input), &*old(canvas), from_x, from_y, to_x, to_y, w, h),
    ensures
        copy_rect_outcome(r, &*old(input), &*final(input), &*old(canvas), &*final(canvas), from_x, from_y, to_x, to_y, w, h),
{
    if input.w() as u64 <= from_x as u64 || input.h() as u64 <= from_y as u64
        || (input.w() as u64) < from_x as u64 + w as u64
        || (input.h() as u64) < from_y as u64 + h as u64
        || (canvas.w() as u64) < to_x as u64 + w as u64
        || (canvas.h() as u64) < to_y as u64 + h as u64 {
        return Err(FlowError::with_message(ErrorKind::InvalidArgument, "Invalid argument to copy_rect"));
    }
    canvas.set_compositing(BitmapCompositing::BlendWithSelf);
    let canvas_fmt = match canvas.info().calculate_pixel_format() {
        Ok(f) => f,
        Err(e) => return Err(e),
    };
    let input_fmt = match input.info().calculate_pixel_format() {
        Ok(f) => f,
        Err(e) => return Err(e),
    };
    let cropping_happened = input.is_cropped() || canvas.is_cropped()
        || !(from_x == 0 && from_y == 0 && w == input.w() && h == input.h())
        || !(to_x == 0 && to_y == 0 && w == canvas.w() && h == canvas.h());
    if input_fmt == PixelFormat::Bgr32 && canvas_fmt == PixelFormat::Bgra32 {
        match input.normalize_unused_alpha() {
            Ok(()) => {},
            Err(e) => return Err(e),
        }
    }
    if canvas_fmt == input_fmt || (canvas_fmt == PixelFormat::Bgra32 && input_fmt == PixelFormat::Bgr32) {
        if !cropping_happened && input.info().t_stride == canvas.info().t_stride {
            canvas.copy_tail_from(input);
            proof {
                assert forall|x: int, y: int, c: int|
                    to_x <= x < to_x + w && to_y <= y < to_y + h && 0 <= c < canvas.spec_bpp()
                    implies #[trigger] canvas.byte_at(x, y, c)
                        == input.byte_at(x - to_x + from_x, y - to_y + from_y, c) by {
                    input.lemma_pixel_pos(x, y, c);
                    let i = input.pos(x, y, c) - input.spec_offset();
                    assert(canvas.pos(x, y, c) == canvas.spec_offset() + i);
                    assert(canvas.spec_bytes()[canvas.spec_offset() + i] == input.spec_bytes()[input.spec_offset() + i]);
                }
            }
        } else {
            copy_rows(input, canvas, from_x, from_y, to_x, to_y, w, h);
        }
        Ok(())
    } else {
        Err(FlowError::with_message(ErrorKind::InvalidOperation, "Cannot copy bytes between these pixel formats"))
    }
}

/// Copies the rectangle row by row; bytes of the canvas outside it keep their values.
fn copy_rows(input: &Bitmap, canvas: &mut Bitmap, from_x: u32, from_y: u32, to_x: u32, to_y: u32, w: u32, h: u32)
    requires
        input.wf(),
        old(canvas).wf(),
        input.spec_bpp() == old(canvas).spec_bpp(),
        from_x + w <= input.spec_w(),
        from_y + h <= input.spec_h(),
        to_x + w <= old(canvas).spec_w(),
        to_y + h <= old(canvas).spec_h(),
    ensures
        final(canvas).wf(),
        final(canvas).same_shape(&*old(canvas)),
        rect_copied(&*final(canvas), input, from_x, from_y, to_x, to_y, w, h),
        forall|i: int| 0 <= i < old(canvas).spec_bytes().len()
            && !old(canvas).in_rect(i, to_x as int, to_x + w, to_y as int, to_y + h)
            ==> #[trigger] final(canvas).spec_bytes()[i] == old(canvas).spec_bytes()[i],
{
    let ghost c0 = *canvas;
    let ghost bppi = input.spec_bpp() as int;
    let bpp = input.info().t_per_pixel;
    proof {
        lemma_mul_inequality(from_x + w, input.spec_w() as int, bppi);
        lemma_mul_inequality(to_x + w, c0.spec_w() as int, bppi);
        assert((from_x + w) * bppi == from_x * bppi + w * bppi) by (nonlinear_arith);
        assert((to_x + w) * bppi == to_x * bppi + w * bppi) by (nonlinear_arith);
        lemma_mul_inequality(0, input.spec_h() - 1, input.spec_stride() as int);
        lemma_mul_inequality(0, c0.spec_h() - 1, c0.spec_stride() as int);
        lemma_mul_inequality(0, w as int, bppi);
        lemma_mul_inequality(0, from_x as int, bppi);
        lemma_mul_inequality(0, to_x as int, bppi);
    }
    let row_bytes = w * bpp;
    let src_k0 = from_x * bpp;
    let dst_k0 = to_x * bpp;
    let mut r: u32 = 0;
    while r < h
        invariant
            canvas.wf(),
            canvas.same_shape(&c0),
            c0.wf(),
            input.wf(),
            bpp == bppi, bppi == c0.spec_bpp(), bppi == input.spec_bpp(),
            row_bytes == w * bppi, src_k0 == from_x * bppi, dst_k0 == to_x * bppi,
            src_k0 + row_bytes <= input.spec_row_len() <= u32::MAX,
            dst_k0 + row_bytes <= c0.spec_row_len() <= u32::MAX,
            from_y + h <= input.spec_h(),
            to_y + h <= c0.spec_h(),
            r <= h,
            forall|i: int| 0 <= i < c0.spec_bytes().len() && !c0.in_pixels(i)
                ==> #[trigger] canvas.spec_bytes()[i] == c0.spec_bytes()[i],
            forall|rr: int, kk: int| 0 <= rr < c0.spec_h() && 0 <= kk < c0.spec_row_len()
                ==> #[trigger] canvas.cell_at(rr, kk) == (if to_y <= rr < to_y + r && dst_k0 <= kk < dst_k0 + row_bytes {
                    input.cell_at(rr - to_y + from_y, kk - dst_k0 + src_k0)
                } else {
                    c0.cell_at(rr, kk)
                }),
        decreases h - r,
    {
        let mut k: u32 = 0;
        while k < row_bytes
            invariant
                canvas.wf(),
                canvas.same_shape(&c0),
                c0.wf(),
                input.wf(),
                bpp == bppi, bppi == c0.spec_bpp(), bppi == input.spec_bpp(),
                row_bytes == w * bppi, src_k0 == from_x * bppi, dst_k0 == to_x * bppi,
                src_k0 + row_bytes <= input.spec_row_len() <= u32::MAX,
                dst_k0 + row_bytes <= c0.spec_row_len() <= u32::MAX,
                from_y + h <= input.spec_h(),
                to_y + h <= c0.spec_h(),
                r < h,
                k <= row_bytes,
                forall|i: int| 0 <= i < c0.spec_bytes().len() && !c0.in_pixels(i)
                    ==> #[trigger] canvas.spec_bytes()[i] == c0.spec_bytes()[i],
                forall|rr: int, kk: int| 0 <= rr < c0.spec_h() && 0 <= kk < c0.spec_row_len()
                    ==> #[trigger] canvas.cell_at(rr, kk) == (if (to_y <= rr < to_y + r && dst_k0 <= kk < dst_k0 + row_bytes)
                        || (rr == to_y + r && dst_k0 <= kk < dst_k0 + k) {
                        input.cell_at(rr - to_y + from_y, kk - dst_k0 + src_k0)
                    } else {
                        c0.cell_at(rr, kk)
                    }),
            decreases row_bytes - k,
        {
            let ghost before = *canvas;
            let sy = from_y + r;
            let sk = src_k0 + k;
            let dy = to_y + r;
            let dk = dst_k0 + k;
            let v = input.read_cell(sy, sk);
            canvas.write_cell(dy, dk, v);
            proof {
                Bitmap::lemma_cell_write_frame(&before, &*canvas, to_y + r, dst_k0 + k, v);
            }
            k = k + 1;
        }
        r = r + 1;
    }
    proof {
        assert forall|x: int, y: int, c: int|
            to_x <= x < to_x + w && to_y <= y < to_y + h && 0 <= c < canvas.spec_bpp()
            implies #[trigger] canvas.byte_at(x, y, c) == input.byte_at(x - to_x + from_x, y - to_y + from_y, c) by {
            canvas.lemma_byte_is_cell(x, y, c);
            input.lemma_byte_is_cell(x - to_x + from_x, y - to_y + from_y, c);
            lemma_column_span(x, c, bppi, to_x as int, to_x + w);
            assert(x * bppi + c - dst_k0 + src_k0 == (x - to_x + from_x) * bppi + c) by (nonlinear_arith)
                requires dst_k0 == to_x * bppi, src_k0 == from_x * bppi;
            assert(w * bppi == (to_x + w) * bppi - to_x * bppi) by (nonlinear_arith);
        }
        assert forall|i: int| 0 <= i < c0.spec_bytes().len()
            && !c0.in_rect(i, to_x as int, to_x + w, to_y as int, to_y + h)
            implies #[trigger] canvas.spec_bytes()[i] == c0.spec_bytes()[i] by {
            if c0.in_pixels(i) {
                let (x, y, c) = c0.lemma_pixel_of_position(i);
                c0.lemma_pos_in_rect(x, y, c, to_x as int, to_x + w, to_y as int, to_y + h);
                c0.lemma_byte_is_cell(x, y, c);
                canvas.lemma_byte_is_cell(x, y, c);
                lemma_column_span(x, c, bppi, to_x as int, to_x + w);
                assert(w * bppi == (to_x + w) * bppi - to_x * bppi) by (nonlinear_arith);
                assert(canvas.cell_at(y, x * bppi + c) == c0.cell_at(y, x * bppi + c));
            }
        }
    }
}

} // verus!
