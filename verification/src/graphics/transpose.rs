//! Transposition of strided matrices of 32-bit pixels, and of BGRA bitmaps.
use vstd::prelude::*;
use crate::graphics::bitmaps::{Bitmap, PixelLayout};
use vstd::arithmetic::div_mod::lemma_fundamental_div_mod_converse;
use vstd::arithmetic::mul::lemma_mul_inequality;
use crate::errors::ErrorKind;
use crate::flow_error::FlowError;

verus! {

/// The cell `(x, y)` of the source (row `y`, column `x`) has been written to row `x`,
/// column `y` of the destination.
pub open spec fn transposed_at(from: Seq<u32>, to: Seq<u32>, from_stride: int, to_stride: int, x: int, y: int) -> bool {
    to[x * to_stride + y] == from[y * from_stride + x]
}

/// Every cell of a `width` x `height` source has been transposed into the destination.
pub open spec fn is_transposed(from: Seq<u32>, to: Seq<u32>, from_stride: int, to_stride: int, width: int, height: int) -> bool {
    forall|x: int, y: int|
        0 <= x < width && 0 <= y < height ==> #[trigger] transposed_at(from, to, from_stride, to_stride, x, y)
}

/// Destination position `i` lies in row `x` and column `y` of a destination with stride `to_stride`,
/// for some `x0 <= x < x1` and `y0 <= y < y1`.
pub open spec fn dst_in_rect(i: int, to_stride: int, x0: int, x1: int, y0: int, y1: int) -> bool {
    x0 <= i / to_stride < x1 && y0 <= i % to_stride < y1
}

/// The destination cells of a `width` x `height` transposition: rows below `width`,
/// columns below `height`.
pub open spec fn is_dst_cell(i: int, to_stride: int, width: int, height: int) -> bool {
    dst_in_rect(i, to_stride, 0, width, 0, height)
}

/// Position `i` of `a` and `b` is equal unless it is a destination cell in the rectangle.
pub open spec fn unchanged_outside(a: Seq<u32>, b: Seq<u32>, to_stride: int, x0: int, x1: int, y0: int, y1: int) -> bool {
    a.len() == b.len() && forall|i: int|
        0 <= i < a.len() && !dst_in_rect(i, to_stride, x0, x1, y0, y1) ==> #[trigger] a[i] == b[i]
}

/// A `width` x `height` matrix with row stride `stride` fits in `len` elements.
pub open spec fn fits(len: int, stride: int, width: int, height: int) -> bool {
    &&& width >= 1
    &&& height >= 1
    &&& stride >= width
    &&& stride * (height - 1) + width <= len
}

/// Row `y`, column `x` of a matrix that fits lies inside it.
pub proof fn lemma_index_in_bounds(len: int, stride: int, width: int, height: int, x: int, y: int)
    requires
        fits(len, stride, width, height),
        0 <= x < width,
        0 <= y < height,
    ensures
        0 <= y * stride + x < len,
        0 <= y * stride,
{
    lemma_mul_inequality(y, height - 1, stride);
    lemma_mul_inequality(0, y, stride);
    assert(y * stride == stride * y) by (nonlinear_arith);
    assert((height - 1) * stride == stride * (height - 1)) by (nonlinear_arith);
}

/// Row and column of a position: `(x * stride + y) / stride == x` and `% stride == y` when `y < stride`.
pub proof fn lemma_row_col(x: int, y: int, stride: int)
    requires
        0 <= y < stride,
    ensures
        (x * stride + y) / stride == x,
        (x * stride + y) % stride == y,
{
    lemma_fundamental_div_mod_converse(x * stride + y, stride, x, y);
}

/// Transposes the source rectangle of columns `x0..x1` and rows `y0..y1` into the destination;
/// every other destination element is left as it was.
pub fn transpose_rect(
    from: &[u32],
    to: &mut Vec<u32>,
    from_stride: usize,
    to_stride: usize,
    width: usize,
    height: usize,
    x0: usize,
    x1: usize,
    y0: usize,
    y1: usize,
)
    requires
        fits(from@.len() as int, from_stride as int, width as int, height as int),
        fits(old(to)@.len() as int, to_stride as int, height as int, width as int),
        x0 <= x1 <= width,
        y0 <= y1 <= height,
    ensures
        final(to)@.len() == old(to)@.len(),
        unchanged_outside(final(to)@, old(to)@, to_stride as int, x0 as int, x1 as int, y0 as int, y1 as int),
        forall|x: int, y: int|
            x0 <= x < x1 && y0 <= y < y1 ==> #[trigger] transposed_at(from@, final(to)@, from_stride as int, to_stride as int, x, y),
{
    let ghost fs = from_stride as int;
    let ghost ts = to_stride as int;
    let from_len = from.len();
    let to_len = to.len();
    let mut y = y0;
    while y < y1
        invariant
            fits(from@.len() as int, fs, width as int, height as int),
            fits(old(to)@.len() as int, ts, height as int, width as int),
            fs == from_stride,
            ts == to_stride,
            from_len == from@.len(),
            to_len == old(to)@.len(),
            x0 <= x1 <= width,
            y0 <= y <= y1 <= height,
            to@.len() == old(to)@.len(),
            unchanged_outside(to@, old(to)@, ts, x0 as int, x1 as int, y0 as int, y1 as int),
            forall|px: int, py: int|
                x0 <= px < x1 && y0 <= py < y ==> #[trigger] transposed_at(from@, to@, fs, ts, px, py),
        decreases y1 - y,
    {
        let mut x = x0;
        while x < x1
            invariant
                fits(from@.len() as int, fs, width as int, height as int),
                fits(old(to)@.len() as int, ts, height as int, width as int),
                fs == from_stride,
                ts == to_stride,
                from_len == from@.len(),
                to_len == old(to)@.len(),
                x0 <= x <= x1 <= width,
                y0 <= y < y1 <= height,
                to@.len() == old(to)@.len(),
                unchanged_outside(to@, old(to)@, ts, x0 as int, x1 as int, y0 as int, y1 as int),
                forall|px: int, py: int|
                    x0 <= px < x1 && y0 <= py < y ==> #[trigger] transposed_at(from@, to@, fs, ts, px, py),
                forall|px: int|
                    x0 <= px < x ==> #[trigger] transposed_at(from@, to@, fs, ts, px, y as int),
            decreases x1 - x,
        {
            proof {
                lemma_index_in_bounds(from@.len() as int, fs, width as int, height as int, x as int, y as int);
                lemma_index_in_bounds(to@.len() as int, ts, height as int, width as int, y as int, x as int);
                lemma_row_col(x as int, y as int, ts);
            }
            let si = y * from_stride + x;
            let di = x * to_stride + y;
            let ghost before = to@;
            let v = from[si];
            to.set(di, v);
            proof {
                assert forall|px: int, py: int|
                    x0 <= px < x1 && y0 <= py < y implies #[trigger] transposed_at(from@, to@, fs, ts, px, py) by {
                    assert(transposed_at(from@, before, fs, ts, px, py));
                    lemma_row_col(px, py, ts);
                    lemma_index_in_bounds(to@.len() as int, ts, height as int, width as int, py, px);
                    assert(px * ts + py != di);
                }
                assert forall|px: int|
                    x0 <= px < x + 1 implies #[trigger] transposed_at(from@, to@, fs, ts, px, y as int) by {
                    if px < x {
                        assert(transposed_at(from@, before, fs, ts, px, y as int));
                        lemma_row_col(px, y as int, ts);
                        lemma_index_in_bounds(to@.len() as int, ts, height as int, width as int, y as int, px);
                        assert(px * ts + y != di);
                    }
                }
                assert forall|i: int|
                    0 <= i < to@.len() && !dst_in_rect(i, ts, x0 as int, x1 as int, y0 as int, y1 as int)
                    implies #[trigger] to@[i] == old(to)@[i] by {
                    assert(before[i] == old(to)@[i]);
                }
            }
            x = x + 1;
        }
        y = y + 1;
    }
}

} // verus!

verus! {

/// Progress of a transposition into `to`, which started as `orig`: the cells for which `done`
/// holds have been transposed, and every other destination element still holds its original value.
pub open spec fn progress(
    from: Seq<u32>,
    to: Seq<u32>,
    orig: Seq<u32>,
    from_stride: int,
    to_stride: int,
    width: int,
    height: int,
    done: spec_fn(int, int) -> bool,
) -> bool {
    &&& to.len() == orig.len()
    &&& forall|x: int, y: int|
        0 <= x < width && 0 <= y < height && done(x, y) ==> #[trigger] transposed_at(from, to, from_stride, to_stride, x, y)
    &&& forall|i: int|
        0 <= i < to.len() && !(i % to_stride < height && i / to_stride < width && done(i / to_stride, i % to_stride))
            ==> #[trigger] to[i] == orig[i]
}

/// Transposing one more rectangle extends the progress to the union of the old region and the rectangle.
pub proof fn lemma_progress_step(
    from: Seq<u32>,
    before: Seq<u32>,
    after: Seq<u32>,
    orig: Seq<u32>,
    fs: int,
    ts: int,
    width: int,
    height: int,
    x0: int,
    x1: int,
    y0: int,
    y1: int,
    done1: spec_fn(int, int) -> bool,
    done2: spec_fn(int, int) -> bool,
)
    requires
        fits(from.len() as int, fs, width, height),
        fits(before.len() as int, ts, height, width),
        0 <= x0 && x1 <= width,
        0 <= y0 && y1 <= height,
        progress(from, before, orig, fs, ts, width, height, done1),
        unchanged_outside(after, before, ts, x0, x1, y0, y1),
        forall|x: int, y: int|
            x0 <= x < x1 && y0 <= y < y1 ==> #[trigger] transposed_at(from, after, fs, ts, x, y),
        forall|x: int, y: int|
            0 <= x < width && 0 <= y < height ==> (#[trigger] done2(x, y) == (done1(x, y) || (x0 <= x < x1 && y0 <= y < y1))),
    ensures
        progress(from, after, orig, fs, ts, width, height, done2),
{
    assert forall|x: int, y: int|
        0 <= x < width && 0 <= y < height && done2(x, y) implies #[trigger] transposed_at(from, after, fs, ts, x, y) by {
        if !(x0 <= x < x1 && y0 <= y < y1) {
            assert(done1(x, y));
            assert(transposed_at(from, before, fs, ts, x, y));
            lemma_row_col(x, y, ts);
            lemma_index_in_bounds(before.len() as int, ts, height, width, y, x);
            assert(after[x * ts + y] == before[x * ts + y]);
        }
    }
    assert forall|i: int|
        0 <= i < after.len() && !(i % ts < height && i / ts < width && done2(i / ts, i % ts))
        implies #[trigger] after[i] == orig[i] by {
        assert(after[i] == before[i]);
        assert(before[i] == orig[i]);
    }
}

/// Two progress predicates over the same cells describe the same progress.
pub proof fn lemma_progress_same(
    from: Seq<u32>,
    to: Seq<u32>,
    orig: Seq<u32>,
    fs: int,
    ts: int,
    width: int,
    height: int,
    done1: spec_fn(int, int) -> bool,
    done2: spec_fn(int, int) -> bool,
)
    requires
        ts > 0,
        progress(from, to, orig, fs, ts, width, height, done1),
        forall|x: int, y: int| 0 <= x < width && 0 <= y < height ==> #[trigger] done2(x, y) == done1(x, y),
    ensures
        progress(from, to, orig, fs, ts, width, height, done2),
{
    assert forall|i: int|
        0 <= i < to.len() && !(i % ts < height && i / ts < width && done2(i / ts, i % ts))
        implies #[trigger] to[i] == orig[i] by {
        assert(0 <= i % ts && 0 <= i / ts) by (nonlinear_arith) requires ts > 0, i >= 0;
        if i % ts < height && i / ts < width {
            assert(done2(i / ts, i % ts) == done1(i / ts, i % ts));
        }
    }
}

/// The cells covered so far by the tiled walk: whole rows of blocks above `yb` (within the
/// tiled width `cw`), whole blocks left of `xb` in the current row of blocks, whole rows of
/// 8x8 tiles above `y` in the current block, and tiles left of `x` in the current row of tiles.
pub open spec fn tile_done(px: int, py: int, cw: int, bs: int, yb: int, xb: int, y: int, x: int) -> bool {
    ||| (py < yb && px < cw)
    ||| (yb <= py < yb + bs && px < xb)
    ||| (yb <= py < y && xb <= px < xb + bs)
    ||| (y <= py < y + 8 && xb <= px < x)
}

} // verus!

verus! {

/// Transposes the source into the destination by walking `block_size` x `block_size` blocks of
/// 8x8 tiles, then the right and bottom edges that the blocks do not cover.
fn transpose_tiled(
    from: &[u32],
    to: &mut Vec<u32>,
    from_stride: usize,
    to_stride: usize,
    width: usize,
    height: usize,
    block_size: usize,
)
    requires
        fits(from@.len() as int, from_stride as int, width as int, height as int),
        fits(old(to)@.len() as int, to_stride as int, height as int, width as int),
        block_size >= 8,
        block_size % 8 == 0,
    ensures
        progress(from@, final(to)@, old(to)@, from_stride as int, to_stride as int, width as int, height as int, |x: int, y: int| true),
{
    let ghost fs = from_stride as int;
    let ghost ts = to_stride as int;
    let ghost w = width as int;
    let ghost h = height as int;
    let ghost orig = to@;
    let ghost bs = block_size as int;
    let blocks_h = height / block_size;
    let blocks_w = width / block_size;
    assert(blocks_h * block_size <= height) by (nonlinear_arith) requires blocks_h == height / block_size, block_size > 0;
    assert(blocks_w * block_size <= width) by (nonlinear_arith) requires blocks_w == width / block_size, block_size > 0;
    let cropped_h = blocks_h * block_size;
    let cropped_w = blocks_w * block_size;
    let ghost cw = cropped_w as int;
    let tiles = block_size / 8;
    assert(tiles * 8 == block_size);
    proof {
        lemma_progress_same(from@, to@, orig, fs, ts, w, h, |x: int, y: int| false,
            |x: int, y: int| tile_done(x, y, cw, bs, 0, 0, 0, 0));
    }
    let mut bi: usize = 0;
    while bi < blocks_h
        invariant
            fits(from@.len() as int, fs, w, h),
            fits(orig.len() as int, ts, h, w),
            fs == from_stride, ts == to_stride, w == width, h == height, bs == block_size, cw == cropped_w,
            tiles * 8 == block_size, block_size >= 8,
            blocks_h * block_size == cropped_h, cropped_h <= height,
            blocks_w * block_size == cropped_w, cropped_w <= width,
            bi <= blocks_h,
            progress(from@, to@, orig, fs, ts, w, h,
                |x: int, y: int| tile_done(x, y, cw, bs, bi * bs, 0, bi * bs, 0)),
        decreases blocks_h - bi,
    {
        assert(bi * block_size <= (bi + 1) * block_size <= cropped_h) by (nonlinear_arith)
            requires bi < blocks_h, blocks_h * block_size == cropped_h, block_size > 0;
        let y_block = bi * block_size;
        assert((bi + 1) * block_size == y_block + block_size) by (nonlinear_arith) requires y_block == bi * block_size;
        let mut bj: usize = 0;
        while bj < blocks_w
            invariant
                fits(from@.len() as int, fs, w, h),
                fits(orig.len() as int, ts, h, w),
                fs == from_stride, ts == to_stride, w == width, h == height, bs == block_size, cw == cropped_w,
                tiles * 8 == block_size, block_size >= 8,
                blocks_w * block_size == cropped_w, cropped_w <= width,
                y_block + block_size <= cropped_h, cropped_h <= height,
                y_block == bi * block_size,
                bj <= blocks_w,
                progress(from@, to@, orig, fs, ts, w, h,
                    |x: int, y: int| tile_done(x, y, cw, bs, y_block as int, bj * bs, y_block as int, bj * bs)),
            decreases blocks_w - bj,
        {
            assert(bj * block_size <= (bj + 1) * block_size <= cropped_w) by (nonlinear_arith)
                requires bj < blocks_w, blocks_w * block_size == cropped_w, block_size > 0;
            let x_block = bj * block_size;
            assert((bj + 1) * block_size == x_block + block_size) by (nonlinear_arith) requires x_block == bj * block_size;
            let mut ti: usize = 0;
            while ti < tiles
                invariant
                    fits(from@.len() as int, fs, w, h),
                    fits(orig.len() as int, ts, h, w),
                    fs == from_stride, ts == to_stride, w == width, h == height, bs == block_size, cw == cropped_w,
                    tiles * 8 == block_size,
                    x_block + block_size <= cropped_w, cropped_w <= width,
                    y_block + block_size <= cropped_h, cropped_h <= height,
                    x_block == bj * block_size,
                    ti <= tiles,
                    progress(from@, to@, orig, fs, ts, w, h,
                        |x: int, y: int| tile_done(x, y, cw, bs, y_block as int, x_block as int, y_block + 8 * ti, x_block as int)),
                decreases tiles - ti,
            {
                let y = y_block + 8 * ti;
                let mut tj: usize = 0;
                while tj < tiles
                    invariant
                        fits(from@.len() as int, fs, w, h),
                        fits(orig.len() as int, ts, h, w),
                        fs == from_stride, ts == to_stride, w == width, h == height, bs == block_size, cw == cropped_w,
                        tiles * 8 == block_size,
                        x_block + block_size <= cropped_w, cropped_w <= width,
                        y_block + block_size <= cropped_h, cropped_h <= height,
                        x_block == bj * block_size,
                        ti < tiles,
                        y == y_block + 8 * ti,
                        tj <= tiles,
                        progress(from@, to@, orig, fs, ts, w, h,
                            |px: int, py: int| tile_done(px, py, cw, bs, y_block as int, x_block as int, y as int, x_block + 8 * tj)),
                    decreases tiles - tj,
                {
                    let x = x_block + 8 * tj;
                    let ghost before = to@;
                    transpose_rect(from, to, from_stride, to_stride, width, height, x, x + 8, y, y + 8);
                    proof {
                        lemma_progress_step(from@, before, to@, orig, fs, ts, w, h,
                            x as int, x + 8, y as int, y + 8,
                            |px: int, py: int| tile_done(px, py, cw, bs, y_block as int, x_block as int, y as int, x as int),
                            |px: int, py: int| tile_done(px, py, cw, bs, y_block as int, x_block as int, y as int, x + 8));
                    }
                    tj = tj + 1;
                }
                proof {
                    lemma_progress_same(from@, to@, orig, fs, ts, w, h,
                        |px: int, py: int| tile_done(px, py, cw, bs, y_block as int, x_block as int, y as int, x_block + 8 * tiles),
                        |px: int, py: int| tile_done(px, py, cw, bs, y_block as int, x_block as int, y + 8, x_block as int));
                }
                ti = ti + 1;
            }
            proof {
                lemma_progress_same(from@, to@, orig, fs, ts, w, h,
                    |x: int, y: int| tile_done(x, y, cw, bs, y_block as int, x_block as int, y_block + 8 * tiles, x_block as int),
                    |x: int, y: int| tile_done(x, y, cw, bs, y_block as int, (bj + 1) * bs, y_block as int, (bj + 1) * bs));
            }
            bj = bj + 1;
        }
        proof {
            lemma_progress_same(from@, to@, orig, fs, ts, w, h,
                |x: int, y: int| tile_done(x, y, cw, bs, y_block as int, blocks_w * bs, y_block as int, blocks_w * bs),
                |x: int, y: int| tile_done(x, y, cw, bs, (bi + 1) * bs, 0, (bi + 1) * bs, 0));
        }
        bi = bi + 1;
    }
    let ghost ch = cropped_h as int;
    proof {
        lemma_progress_same(from@, to@, orig, fs, ts, w, h,
            |x: int, y: int| tile_done(x, y, cw, bs, blocks_h * bs, 0, blocks_h * bs, 0),
            |x: int, y: int| y < ch && x < cw);
    }
    transpose_edges(from, to, cropped_h, cropped_w, from_stride, to_stride, width, height, Ghost(orig));
}

/// Transposes the right edge (columns `cropped_width..width` of the first `cropped_height` rows)
/// and the bottom edge (rows `cropped_height..height`, all columns).
fn transpose_edges(
    from: &[u32],
    to: &mut Vec<u32>,
    cropped_height: usize,
    cropped_width: usize,
    from_stride: usize,
    to_stride: usize,
    width: usize,
    height: usize,
    Ghost(orig): Ghost<Seq<u32>>,
)
    requires
        fits(from@.len() as int, from_stride as int, width as int, height as int),
        fits(old(to)@.len() as int, to_stride as int, height as int, width as int),
        cropped_height <= height,
        cropped_width <= width,
        progress(from@, old(to)@, orig, from_stride as int, to_stride as int, width as int, height as int,
            |x: int, y: int| y < cropped_height && x < cropped_width),
    ensures
        progress(from@, final(to)@, orig, from_stride as int, to_stride as int, width as int, height as int,
            |x: int, y: int| true),
{
    let ghost fs = from_stride as int;
    let ghost ts = to_stride as int;
    let ghost w = width as int;
    let ghost h = height as int;
    let ghost ch = cropped_height as int;
    let ghost cw = cropped_width as int;
    let ghost start = to@;
    transpose_rect(from, to, from_stride, to_stride, width, height, cropped_width, width, 0, cropped_height);
    let ghost middle = to@;
    transpose_rect(from, to, from_stride, to_stride, width, height, 0, width, cropped_height, height);
    proof {
        lemma_progress_step(from@, start, middle, orig, fs, ts, w, h, cw, w, 0, ch,
            |x: int, y: int| y < ch && x < cw, |x: int, y: int| y < ch);
        lemma_progress_step(from@, middle, to@, orig, fs, ts, w, h, 0, w, ch, h,
            |x: int, y: int| y < ch, |x: int, y: int| true);
    }
}

} // verus!

verus! {

/// The argument checks of `transpose_u32_slices` fail.
pub open spec fn transpose_args_invalid(
    from_len: int,
    to_len: int,
    from_stride: int,
    to_stride: int,
    width: int,
    height: int,
) -> bool {
    ||| to_stride < height
    ||| from_stride * (height - 1) + width > from_len
    ||| from_stride < width
    ||| to_stride * (width - 1) + height > to_len
}

/// Transposes a matrix of u32 values from `from` into `to`.
/// The source has `width` columns, `height` rows, and `from_stride` elements per row.
/// The destination has `height` columns, `width` rows, and `to_stride` elements per row.
/// Destination elements outside the transposed cells (stride padding) are left untouched.
pub fn transpose_u32_slices(
    from: &[u32],
    to: &mut Vec<u32>,
    from_stride: usize,
    to_stride: usize,
    width: usize,
    height: usize,
) -> (r: Result<(), FlowError>)
    requires
        height >= 1,
        to_stride >= height ==> from_stride * (height - 1) + width <= usize::MAX,
        !(to_stride < height || from_stride * (height - 1) + width > from@.len()
            || from_stride < width) ==> width >= 1 && to_stride * (width - 1) + height <= usize::MAX,
    ensures
        final(to)@.len() == old(to)@.len(),
        r is Err <==> transpose_args_invalid(from@.len() as int, old(to)@.len() as int,
            from_stride as int, to_stride as int, width as int, height as int),
        r matches Err(e) ==> e.kind == ErrorKind::InvalidArgument && final(to)@ == old(to)@,
        r is Ok ==> is_transposed(from@, final(to)@, from_stride as int, to_stride as int, width as int, height as int),
        r is Ok ==> forall|i: int|
            0 <= i < final(to)@.len() && !is_dst_cell(i, to_stride as int, width as int, height as int)
                ==> #[trigger] final(to)@[i] == old(to)@[i],
{
    if to_stride < height {
        return Err(FlowError::with_message(ErrorKind::InvalidArgument, "to_stride < height"));
    }
    if from_stride * (height - 1) + width > from.len() {
        return Err(FlowError::with_message(ErrorKind::InvalidArgument, "Slice bounds exceeded: from_stride * (height - 1) + width > from.len()"));
    }
    if from_stride < width {
        return Err(FlowError::with_message(ErrorKind::InvalidArgument, "from_stride < width"));
    }
    if to_stride * (width - 1) + height > to.len() {
        return Err(FlowError::with_message(ErrorKind::InvalidArgument, "Slice bounds exceeded: to_stride * (width - 1) + height > to.len()"));
    }
    let ghost orig = to@;
    proof {
        assert(from_stride * (height - 1) == (height - 1) * from_stride) by (nonlinear_arith);
        assert(to_stride * (width - 1) == (width - 1) * to_stride) by (nonlinear_arith);
    }
    transpose_tiled(from, to, from_stride, to_stride, width, height, BLOCK_SIZE);
    proof {
        let ts = to_stride as int;
        assert forall|i: int|
            0 <= i < to@.len() && !is_dst_cell(i, ts, width as int, height as int)
            implies #[trigger] to@[i] == orig[i] by {
            assert(0 <= i % ts && 0 <= i / ts) by (nonlinear_arith) requires ts > 0, i >= 0;
        }
        assert forall|x: int, y: int|
            0 <= x < width && 0 <= y < height
            implies #[trigger] transposed_at(from@, to@, from_stride as int, ts, x, y) by {
        }
    }
    Ok(())
}

/// The side of the square blocks that the tiled walk processes at a time.
pub const BLOCK_SIZE: usize = 128;

/// Transposing a matrix and then transposing the result back restores every cell of the original.
pub proof fn lemma_transpose_roundtrip(
    original: Seq<u32>,
    transposed: Seq<u32>,
    restored: Seq<u32>,
    original_stride: int,
    transposed_stride: int,
    restored_stride: int,
    width: int,
    height: int,
)
    requires
        is_transposed(original, transposed, original_stride, transposed_stride, width, height),
        is_transposed(transposed, restored, transposed_stride, restored_stride, height, width),
    ensures
        forall|x: int, y: int|
            0 <= x < width && 0 <= y < height ==> #[trigger] restored[y * restored_stride + x]
                == original[y * original_stride + x],
{
    assert forall|x: int, y: int|
        0 <= x < width && 0 <= y < height implies #[trigger] restored[y * restored_stride + x]
            == original[y * original_stride + x] by {
        assert(transposed_at(transposed, restored, transposed_stride, restored_stride, y, x));
        assert(transposed_at(original, transposed, original_stride, transposed_stride, x, y));
    }
}

} // verus!

verus! {

/// `to` holds `from` transposed: its pixel `(x, y)` is pixel `(y, x)` of `from`; every byte of
/// `to` outside its pixels is as in `before`, and its geometry is `before`'s.
pub open spec fn bitmap_transposed(to: &Bitmap, before: &Bitmap, from: &Bitmap) -> bool {
    &&& to.wf()
    &&& to.same_shape(before)
    &&& forall|i: int| 0 <= i < before.spec_bytes().len() && !before.in_pixels(i)
            ==> #[trigger] to.spec_bytes()[i] == before.spec_bytes()[i]
    &&& forall|x: int, y: int| 0 <= x < to.spec_w() && 0 <= y < to.spec_h()
            ==> #[trigger] to.pixel_bgra(x, y) == from.pixel_bgra(y, x)
}

/// Transposes a BGRA bitmap onto a canvas whose width is the bitmap's height and whose height
/// is its width. Dimensions that are not exchanged or layouts that differ are refused with
/// `InvalidArgument`, as is any layout but BGRA; the canvas is unchanged then.
pub fn bitmap_window_transpose(from: &Bitmap, to: &mut Bitmap) -> (r: Result<(), FlowError>)
    requires
        from.wf(),
        old(to).wf(),
    ensures
        (from.spec_w() != old(to).spec_h() || from.spec_h() != old(to).spec_w()
            || from.spec_info().pixel_layout != old(to).spec_info().pixel_layout
            || from.spec_info().pixel_layout != PixelLayout::BGRA) ==> (r matches Err(e)
            && e.kind == ErrorKind::InvalidArgument && *final(to) == *old(to)),
        !(from.spec_w() != old(to).spec_h() || from.spec_h() != old(to).spec_w()
            || from.spec_info().pixel_layout != old(to).spec_info().pixel_layout
            || from.spec_info().pixel_layout != PixelLayout::BGRA) ==> (r is Ok
            && bitmap_transposed(&*final(to), &*old(to), from)),
{
    if from.w() != to.h() || from.h() != to.w() || from.info().pixel_layout() != to.info().pixel_layout() {
        return Err(FlowError::with_message(ErrorKind::InvalidArgument,
            "For transposition, canvas and input formats must be the same and dimensions must be swapped"));
    }
    if from.info().pixel_layout() != PixelLayout::BGRA {
        return Err(FlowError::with_message(ErrorKind::InvalidArgument, "Only BGRA layout is supported"));
    }
    let ghost orig = *to;
    let w = to.w();
    let h = to.h();
    let mut y: u32 = 0;
    while y < h
        invariant
            from.wf(),
            orig.wf(),
            to.wf(),
            to.same_shape(&orig),
            w == orig.spec_w(), h == orig.spec_h(),
            from.spec_w() == h, from.spec_h() == w,
            from.spec_bpp() == 4, orig.spec_bpp() == 4,
            y <= h,
            forall|i: int| 0 <= i < orig.spec_bytes().len() && !orig.in_pixels(i)
                ==> #[trigger] to.spec_bytes()[i] == orig.spec_bytes()[i],
            forall|px: int, py: int| 0 <= px < w && 0 <= py < h ==> #[trigger] to.pixel_bgra(px, py)
                == (if py < y { from.pixel_bgra(py, px) } else { orig.pixel_bgra(px, py) }),
        decreases h - y,
    {
        let mut x: u32 = 0;
        while x < w
            invariant
                from.wf(),
                orig.wf(),
                to.wf(),
                to.same_shape(&orig),
                w == orig.spec_w(), h == orig.spec_h(),
                from.spec_w() == h, from.spec_h() == w,
                from.spec_bpp() == 4, orig.spec_bpp() == 4,
                y < h,
                x <= w,
                forall|i: int| 0 <= i < orig.spec_bytes().len() && !orig.in_pixels(i)
                    ==> #[trigger] to.spec_bytes()[i] == orig.spec_bytes()[i],
                forall|px: int, py: int| 0 <= px < w && 0 <= py < h ==> #[trigger] to.pixel_bgra(px, py)
                    == (if py < y || (py == y && px < x) { from.pixel_bgra(py, px) } else { orig.pixel_bgra(px, py) }),
            decreases w - x,
        {
            let p = match from.get_pixel_bgra8(y, x) {
                Some(p) => p,
                None => {
                    proof {
                        assert(false);
                    }
                    return Ok(());
                },
            };
            let ghost before = *to;
            to.write_pixel_bgra(x, y, p);
            proof {
                Bitmap::lemma_pixel_write_frame(&before, &*to, x as int, y as int, 4);
                assert forall|i: int| 0 <= i < orig.spec_bytes().len() && !orig.in_pixels(i)
                    implies #[trigger] to.spec_bytes()[i] == orig.spec_bytes()[i] by {
                    before.lemma_in_pixels_is_full_rect(i);
                    if to.spec_bytes()[i] != before.spec_bytes()[i] {
                        assert(before.in_rect(i, 0, w as int, 0, h as int));
                    }
                }
                assert forall|px: int, py: int| 0 <= px < w && 0 <= py < h implies #[trigger] to.pixel_bgra(px, py)
                    == (if py < y || (py == y && px < x + 1) { from.pixel_bgra(py, px) } else { orig.pixel_bgra(px, py) }) by {
                    if px == x && py == y {
                        assert(to.pixel_is(x as int, y as int, p));
                        assert(to.pixel_bgra(px, py) == p);
                        assert(p == from.pixel_bgra(y as int, x as int));
                    } else {
                        assert(to.byte_at(px, py, 0) == before.byte_at(px, py, 0));
                        assert(to.byte_at(px, py, 1) == before.byte_at(px, py, 1));
                        assert(to.byte_at(px, py, 2) == before.byte_at(px, py, 2));
                        assert(to.byte_at(px, py, 3) == before.byte_at(px, py, 3));
                        assert(to.pixel_bgra(px, py) == before.pixel_bgra(px, py));
                    }
                }
            }
            x = x + 1;
        }
        y = y + 1;
    }
    Ok(())
}

/// Transposing a bitmap and then the result gives back its pixels.
pub proof fn lemma_bitmap_transpose_twice(from: &Bitmap, canvas1: &Bitmap, once: &Bitmap, canvas2: &Bitmap, twice: &Bitmap)
    requires
        bitmap_transposed(once, canvas1, from),
        bitmap_transposed(twice, canvas2, once),
        once.spec_w() == from.spec_h(),
        once.spec_h() == from.spec_w(),
        twice.spec_w() == from.spec_w(),
        twice.spec_h() == from.spec_h(),
    ensures
        forall|x: int, y: int| 0 <= x < from.spec_w() && 0 <= y < from.spec_h()
            ==> #[trigger] twice.pixel_bgra(x, y) == from.pixel_bgra(x, y),
{
    assert forall|x: int, y: int| 0 <= x < from.spec_w() && 0 <= y < from.spec_h()
        implies #[trigger] twice.pixel_bgra(x, y) == from.pixel_bgra(x, y) by {
        assert(twice.pixel_bgra(x, y) == once.pixel_bgra(y, x));
    }
}

} // verus!
