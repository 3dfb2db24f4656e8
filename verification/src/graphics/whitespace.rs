//! Finding the content of an image by the absence of edges around it: grayscale windows of the
//! image are scanned with a Scharr kernel, and every pixel with enough edge energy widens the
//! box of content found so far.
use vstd::prelude::*;
use crate::graphics::bitmaps::{Bitmap, PixelFormat};

verus! {

/// The number of grayscale bytes a window holds.
pub const BUFFER_SIZE: usize = 2048;

/// A grayscale window of the image: `w` by `h` pixels, row after row, whose top-left pixel is at
/// `(x, y)` of the image.
pub struct Buffer {
    pub pixels: [u8; 2048],
    pub x: u32,
    pub y: u32,
    pub w: u32,
    pub h: u32,
}

/// The state of a search for content in a `w` by `h` image: the box found so far spans the
/// columns `min_x..max_x` and the rows `min_y..max_y` (empty while `min_x > max_x`).
pub struct WhitespaceSearch {
    pub w: u32,
    pub h: u32,
    pub threshold: u32,
    pub min_x: u32,
    pub max_x: u32,
    pub min_y: u32,
    pub max_y: u32,
}

/// The absolute value of an integer.
pub open spec fn abs(v: int) -> int {
    if v < 0 { -v } else { v }
}

/// The gray value at column `x`, row `y` of the window.
pub open spec fn gray(buf: &Buffer, x: int, y: int) -> int {
    buf.pixels@[y * buf.w + x] as int
}

/// The horizontal Scharr gradient at `(x, y)`.
pub open spec fn scharr_gx(buf: &Buffer, x: int, y: int) -> int {
    3 * gray(buf, x - 1, y - 1) + 10 * gray(buf, x - 1, y) + 3 * gray(buf, x - 1, y + 1)
        - 3 * gray(buf, x + 1, y - 1) - 10 * gray(buf, x + 1, y) - 3 * gray(buf, x + 1, y + 1)
}

/// The vertical Scharr gradient at `(x, y)`.
pub open spec fn scharr_gy(buf: &Buffer, x: int, y: int) -> int {
    3 * gray(buf, x - 1, y - 1) + 10 * gray(buf, x, y - 1) + 3 * gray(buf, x + 1, y - 1)
        - 3 * gray(buf, x - 1, y + 1) - 10 * gray(buf, x, y + 1) - 3 * gray(buf, x + 1, y + 1)
}

/// The pixel at `(x, y)` has more edge energy than the threshold.
pub open spec fn energetic(buf: &Buffer, x: int, y: int, threshold: int) -> bool {
    abs(scharr_gx(buf, x, y)) + abs(scharr_gy(buf, x, y)) > threshold
}

/// Neighbors `(x + dx1, y + dy1)` and `(x + dx2, y + dy2)` differ by more than the threshold.
pub open spec fn edge(buf: &Buffer, x: int, y: int, dx1: int, dy1: int, dx2: int, dy2: int, t: int) -> bool {
    abs(gray(buf, x + dx1, y + dy1) - gray(buf, x + dx2, y + dy2)) > t
}

/// Within the 3x3 neighborhood of `(x, y)`, column `m` (0, 1 or 2) has an edge to the next row.
pub open spec fn column_edge(buf: &Buffer, x: int, y: int, m: int, t: int) -> bool {
    edge(buf, x, y, m - 1, -1, m - 1, 0, t) || edge(buf, x, y, m - 1, 0, m - 1, 1, t)
}

/// Within the 3x3 neighborhood of `(x, y)`, row `m` (0, 1 or 2) has an edge to the next column.
pub open spec fn row_edge(buf: &Buffer, x: int, y: int, m: int, t: int) -> bool {
    edge(buf, x, y, -1, m - 1, 0, m - 1, t) || edge(buf, x, y, 0, m - 1, 1, m - 1, t)
}

/// Some row of the neighborhood has an edge between its first and second column.
pub open spec fn any_left_edge(buf: &Buffer, x: int, y: int, t: int) -> bool {
    edge(buf, x, y, -1, -1, 0, -1, t) || edge(buf, x, y, -1, 0, 0, 0, t) || edge(buf, x, y, -1, 1, 0, 1, t)
}

/// Some row of the neighborhood has an edge between its second and third column.
pub open spec fn any_right_edge(buf: &Buffer, x: int, y: int, t: int) -> bool {
    edge(buf, x, y, 0, -1, 1, -1, t) || edge(buf, x, y, 0, 0, 1, 0, t) || edge(buf, x, y, 0, 1, 1, 1, t)
}

/// Some column of the neighborhood has an edge between its first and second row.
pub open spec fn any_top_edge(buf: &Buffer, x: int, y: int, t: int) -> bool {
    edge(buf, x, y, -1, -1, -1, 0, t) || edge(buf, x, y, 0, -1, 0, 0, t) || edge(buf, x, y, 1, -1, 1, 0, t)
}

/// Some column of the neighborhood has an edge between its second and third row.
pub open spec fn any_bottom_edge(buf: &Buffer, x: int, y: int, t: int) -> bool {
    edge(buf, x, y, -1, 0, -1, 1, t) || edge(buf, x, y, 0, 0, 0, 1, t) || edge(buf, x, y, 1, 0, 1, 1, t)
}

/// The box of content that an energetic pixel at `(x, y)` of the window stands for, in image
/// coordinates: the neighborhood's edges between pixels, where it has any; by default the pixel
/// itself. Returns `(min_x, max_x, min_y, max_y)`.
pub open spec fn local_box(buf: &Buffer, x: int, y: int, t: int) -> (int, int, int, int) {
    let lmin_x = if column_edge(buf, x, y, 0, t) { 0int } else if any_left_edge(buf, x, y, t)
        || column_edge(buf, x, y, 1, t) { 1int } else { 2int };
    let lmax_x = if column_edge(buf, x, y, 2, t) { 3int } else if any_right_edge(buf, x, y, t)
        || column_edge(buf, x, y, 1, t) { 2int } else { 1int };
    let lmin_y = if row_edge(buf, x, y, 0, t) { 0int } else if any_top_edge(buf, x, y, t)
        || row_edge(buf, x, y, 1, t) { 1int } else { 2int };
    let lmax_y = if row_edge(buf, x, y, 2, t) { 3int } else if any_bottom_edge(buf, x, y, t)
        || row_edge(buf, x, y, 1, t) { 2int } else { 1int };
    (lmin_x + buf.x + x - 1, lmax_x + buf.x + x - 1, lmin_y + buf.y + y - 1, lmax_y + buf.y + y - 1)
}

/// The pixel `(x, y)` lies strictly inside the window, where the kernel applies.
pub open spec fn interior(buf: &Buffer, x: int, y: int) -> bool {
    1 <= x < buf.w - 1 && 1 <= y < buf.h - 1
}

/// The pixel `(x, y)` comes before `(cx, cy)` in row-major order.
pub open spec fn before(x: int, y: int, cx: int, cy: int) -> bool {
    y < cy || (y == cy && x < cx)
}

/// `v` is `init`, or the value of `f` at an energetic interior pixel before `(cx, cy)`, and no
/// such value is below `v`.
pub open spec fn is_min_over(buf: &Buffer, t: int, cx: int, cy: int, init: int, v: int,
    f: spec_fn(int, int) -> int) -> bool {
    &&& v <= init
    &&& forall|x: int, y: int| interior(buf, x, y) && before(x, y, cx, cy) && energetic(buf, x, y, t)
        ==> v <= #[trigger] f(x, y)
    &&& (v == init || exists|x: int, y: int| interior(buf, x, y) && before(x, y, cx, cy)
        && energetic(buf, x, y, t) && v == #[trigger] f(x, y))
}

/// `v` is `init`, or the value of `f` at an energetic interior pixel before `(cx, cy)`, and no
/// such value is above `v`.
pub open spec fn is_max_over(buf: &Buffer, t: int, cx: int, cy: int, init: int, v: int,
    f: spec_fn(int, int) -> int) -> bool {
    &&& v >= init
    &&& forall|x: int, y: int| interior(buf, x, y) && before(x, y, cx, cy) && energetic(buf, x, y, t)
        ==> v >= #[trigger] f(x, y)
    &&& (v == init || exists|x: int, y: int| interior(buf, x, y) && before(x, y, cx, cy)
        && energetic(buf, x, y, t) && v == #[trigger] f(x, y))
}

/// Two scan positions that have the same interior pixels before them give the same extremes.
pub proof fn lemma_over_same_pixels(buf: &Buffer, t: int, cx1: int, cy1: int, cx2: int, cy2: int,
    init: int, v: int, f: spec_fn(int, int) -> int, is_min: bool)
    requires
        forall|x: int, y: int| interior(buf, x, y) ==> (before(x, y, cx1, cy1) <==> before(x, y, cx2, cy2)),
        is_min ==> is_min_over(buf, t, cx1, cy1, init, v, f),
        !is_min ==> is_max_over(buf, t, cx1, cy1, init, v, f),
    ensures
        is_min ==> is_min_over(buf, t, cx2, cy2, init, v, f),
        !is_min ==> is_max_over(buf, t, cx2, cy2, init, v, f),
{
    if v != init {
        let (wx, wy) = choose|x: int, y: int| interior(buf, x, y) && before(x, y, cx1, cy1)
            && energetic(buf, x, y, t) && v == #[trigger] f(x, y);
        assert(before(wx, wy, cx2, cy2));
        assert(v == f(wx, wy));
    }
}

/// Taking in the interior pixel `(x, y)` moves the scan position one pixel on.
pub proof fn lemma_over_step(buf: &Buffer, t: int, x: int, y: int, init: int, v: int, v2: int,
    f: spec_fn(int, int) -> int, is_min: bool)
    requires
        interior(buf, x, y),
        is_min ==> is_min_over(buf, t, x, y, init, v, f),
        !is_min ==> is_max_over(buf, t, x, y, init, v, f),
        is_min ==> v2 == (if energetic(buf, x, y, t) && f(x, y) < v { f(x, y) } else { v }),
        !is_min ==> v2 == (if energetic(buf, x, y, t) && f(x, y) > v { f(x, y) } else { v }),
    ensures
        is_min ==> is_min_over(buf, t, x + 1, y, init, v2, f),
        !is_min ==> is_max_over(buf, t, x + 1, y, init, v2, f),
{
    if v2 != init {
        if v2 == f(x, y) && energetic(buf, x, y, t) {
            assert(before(x, y, x + 1, y));
        } else {
            let (wx, wy) = choose|a: int, b: int| interior(buf, a, b) && before(a, b, x, y)
                && energetic(buf, a, b, t) && v == #[trigger] f(a, b);
            assert(before(wx, wy, x + 1, y));
            assert(v2 == f(wx, wy));
        }
    }
}

/// The gray value at column `x`, row `y` of the window.
fn gray_at(buf: &Buffer, x: usize, y: usize) -> (r: i32)
    requires
        (y + 1) * buf.w <= 2048,
        x < buf.w,
    ensures
        r == gray(buf, x as int, y as int),
{
    proof {
        assert(y * buf.w + x < (y + 1) * buf.w) by (nonlinear_arith) requires x < buf.w;
        assert(y * buf.w + x >= 0) by (nonlinear_arith) requires x >= 0, y >= 0, buf.w >= 0;
    }
    buf.pixels[y * buf.w as usize + x] as i32
}

/// The absolute difference of two gray values exceeds the threshold.
fn differs(a: i32, b: i32, t: i32) -> (r: bool)
    requires
        0 <= a <= 255,
        0 <= b <= 255,
    ensures
        r == (abs(a - b) > t),
{
    let d = a - b;
    let ad = if d < 0 { -d } else { d };
    ad > t
}

/// The absolute value of a gradient.
fn abs_i32(v: i32) -> (r: i32)
    requires
        v > i32::MIN,
    ensures
        r == abs(v as int),
{
    if v < 0 { -v } else { v }
}

/// The window indices that the neighborhood of an interior pixel reads lie in the buffer.
proof fn lemma_neighborhood_in_buffer(buf: &Buffer, x: int, y: int)
    requires
        1 <= x, x + 1 < buf.w,
        1 <= y, y + 1 < buf.h,
        buf.w * buf.h <= 2048,
    ensures
        (y + 2) * buf.w <= 2048,
        (y + 1) * buf.w <= 2048,
        y * buf.w <= 2048,
{
    assert((y + 2) * buf.w <= buf.h * buf.w) by (nonlinear_arith) requires y + 2 <= buf.h, buf.w >= 0;
    assert(buf.h * buf.w == buf.w * buf.h) by (nonlinear_arith);
    assert((y + 1) * buf.w <= (y + 2) * buf.w) by (nonlinear_arith) requires buf.w >= 0;
    assert(y * buf.w <= (y + 1) * buf.w) by (nonlinear_arith) requires buf.w >= 0;
}

/// The edge energy at the interior pixel `(x, y)`.
fn energy_at(buf: &Buffer, x: usize, y: usize) -> (r: i32)
    requires
        1 <= x, x + 1 < buf.w,
        1 <= y, y + 1 < buf.h,
        buf.w * buf.h <= 2048,
    ensures
        r == abs(scharr_gx(buf, x as int, y as int)) + abs(scharr_gy(buf, x as int, y as int)),
{
    proof { lemma_neighborhood_in_buffer(buf, x as int, y as int); }
    let a11 = gray_at(buf, x - 1, y - 1);
    let a12 = gray_at(buf, x, y - 1);
    let a13 = gray_at(buf, x + 1, y - 1);
    let a21 = gray_at(buf, x - 1, y);
    let a23 = gray_at(buf, x + 1, y);
    let a31 = gray_at(buf, x - 1, y + 1);
    let a32 = gray_at(buf, x, y + 1);
    let a33 = gray_at(buf, x + 1, y + 1);
    let gx: i32 = 3 * a11 + 10 * a21 + 3 * a31 - 3 * a13 - 10 * a23 - 3 * a33;
    let gy: i32 = 3 * a11 + 10 * a12 + 3 * a13 - 3 * a31 - 10 * a32 - 3 * a33;
    abs_i32(gx) + abs_i32(gy)
}

/// The box of content that the interior pixel `(x, y)` stands for, in image coordinates.
#[verifier::rlimit(40)]
fn box_at(buf: &Buffer, x: usize, y: usize, t: i32) -> (r: (u32, u32, u32, u32))
    requires
        1 <= x, x + 1 < buf.w,
        1 <= y, y + 1 < buf.h,
        buf.w * buf.h <= 2048,
        buf.x + buf.w <= u32::MAX,
        buf.y + buf.h <= u32::MAX,
    ensures
        (r.0 as int, r.1 as int, r.2 as int, r.3 as int) == local_box(buf, x as int, y as int, t as int),
{
    proof { lemma_neighborhood_in_buffer(buf, x as int, y as int); }
    let a11 = gray_at(buf, x - 1, y - 1);
    let a12 = gray_at(buf, x, y - 1);
    let a13 = gray_at(buf, x + 1, y - 1);
    let a21 = gray_at(buf, x - 1, y);
    let a22 = gray_at(buf, x, y);
    let a23 = gray_at(buf, x + 1, y);
    let a31 = gray_at(buf, x - 1, y + 1);
    let a32 = gray_at(buf, x, y + 1);
    let a33 = gray_at(buf, x + 1, y + 1);
    // vertical edges within each column of the neighborhood
    let col0 = differs(a11, a21, t) || differs(a21, a31, t);
    let col1 = differs(a12, a22, t) || differs(a22, a32, t);
    let col2 = differs(a13, a23, t) || differs(a23, a33, t);
    // horizontal edges within each row of the neighborhood
    let row0 = differs(a11, a12, t) || differs(a12, a13, t);
    let row1 = differs(a21, a22, t) || differs(a22, a23, t);
    let row2 = differs(a31, a32, t) || differs(a32, a33, t);
    let left = differs(a11, a12, t) || differs(a21, a22, t) || differs(a31, a32, t);
    let right = differs(a12, a13, t) || differs(a22, a23, t) || differs(a32, a33, t);
    let top = differs(a11, a21, t) || differs(a12, a22, t) || differs(a13, a23, t);
    let bottom = differs(a21, a31, t) || differs(a22, a32, t) || differs(a23, a33, t);
    let lmin_x: u32 = if col0 { 0 } else if left || col1 { 1 } else { 2 };
    let lmax_x: u32 = if col2 { 3 } else if right || col1 { 2 } else { 1 };
    let lmin_y: u32 = if row0 { 0 } else if top || row1 { 1 } else { 2 };
    let lmax_y: u32 = if row2 { 3 } else if bottom || row1 { 2 } else { 1 };
    let bx = buf.x + x as u32 - 1;
    let by = buf.y + y as u32 - 1;
    (lmin_x + bx, lmax_x + bx, lmin_y + by, lmax_y + by)
}

/// Scans the interior of the window with the Scharr kernel and widens the search's box to take
/// in the box of content of every pixel whose edge energy exceeds the search's threshold.
pub fn sobel_scharr_detect(buf: &Buffer, search: &mut WhitespaceSearch)
    requires
        buf.w >= 1,
        buf.h >= 1,
        buf.w * buf.h <= 2048,
        buf.x + buf.w <= u32::MAX,
        buf.y + buf.h <= u32::MAX,
    ensures
        final(search).w == old(search).w,
        final(search).h == old(search).h,
        final(search).threshold == old(search).threshold,
        is_min_over(buf, old(search).threshold as i32 as int, 1, buf.h - 1, old(search).min_x as int,
            final(search).min_x as int, |x: int, y: int| local_box(buf, x, y, old(search).threshold as i32 as int).0),
        is_max_over(buf, old(search).threshold as i32 as int, 1, buf.h - 1, old(search).max_x as int,
            final(search).max_x as int, |x: int, y: int| local_box(buf, x, y, old(search).threshold as i32 as int).1),
        is_min_over(buf, old(search).threshold as i32 as int, 1, buf.h - 1, old(search).min_y as int,
            final(search).min_y as int, |x: int, y: int| local_box(buf, x, y, old(search).threshold as i32 as int).2),
        is_max_over(buf, old(search).threshold as i32 as int, 1, buf.h - 1, old(search).max_y as int,
            final(search).max_y as int, |x: int, y: int| local_box(buf, x, y, old(search).threshold as i32 as int).3),
{
    let t = search.threshold as i32;
    let ghost ti = t as int;
    let ghost fminx = |x: int, y: int| local_box(buf, x, y, ti).0;
    let ghost fmaxx = |x: int, y: int| local_box(buf, x, y, ti).1;
    let ghost fminy = |x: int, y: int| local_box(buf, x, y, ti).2;
    let ghost fmaxy = |x: int, y: int| local_box(buf, x, y, ti).3;
    let w = buf.w as usize;
    let h = buf.h as usize;
    let y_end = h - 1;
    let x_end = w - 1;
    let mut y: usize = 1;
    while y < y_end
        invariant
            w == buf.w, h == buf.h, y_end == h - 1, x_end == w - 1,
            1 <= y, y_end >= 1 ==> y <= y_end,
            buf.w * buf.h <= 2048,
            buf.x + buf.w <= u32::MAX,
            buf.y + buf.h <= u32::MAX,
            ti == t as int, t == search.threshold as i32,
            fminx == (|a: int, b: int| local_box(buf, a, b, ti).0),
            fmaxx == (|a: int, b: int| local_box(buf, a, b, ti).1),
            fminy == (|a: int, b: int| local_box(buf, a, b, ti).2),
            fmaxy == (|a: int, b: int| local_box(buf, a, b, ti).3),
            search.w == old(search).w, search.h == old(search).h, search.threshold == old(search).threshold,
            is_min_over(buf, ti, 1, y as int, old(search).min_x as int, search.min_x as int, fminx),
            is_max_over(buf, ti, 1, y as int, old(search).max_x as int, search.max_x as int, fmaxx),
            is_min_over(buf, ti, 1, y as int, old(search).min_y as int, search.min_y as int, fminy),
            is_max_over(buf, ti, 1, y as int, old(search).max_y as int, search.max_y as int, fmaxy),
        decreases y_end - y,
    {
        let mut x: usize = 1;
        while x < x_end
            invariant
                w == buf.w, h == buf.h, y_end == h - 1, x_end == w - 1,
                1 <= y < y_end,
                1 <= x, x_end >= 1 ==> x <= x_end,
                buf.w * buf.h <= 2048,
                buf.x + buf.w <= u32::MAX,
                buf.y + buf.h <= u32::MAX,
                ti == t as int, t == search.threshold as i32,
                fminx == (|a: int, b: int| local_box(buf, a, b, ti).0),
                fmaxx == (|a: int, b: int| local_box(buf, a, b, ti).1),
                fminy == (|a: int, b: int| local_box(buf, a, b, ti).2),
                fmaxy == (|a: int, b: int| local_box(buf, a, b, ti).3),
                search.w == old(search).w, search.h == old(search).h, search.threshold == old(search).threshold,
                is_min_over(buf, ti, x as int, y as int, old(search).min_x as int, search.min_x as int, fminx),
                is_max_over(buf, ti, x as int, y as int, old(search).max_x as int, search.max_x as int, fmaxx),
                is_min_over(buf, ti, x as int, y as int, old(search).min_y as int, search.min_y as int, fminy),
                is_max_over(buf, ti, x as int, y as int, old(search).max_y as int, search.max_y as int, fmaxy),
            decreases x_end - x,
        {
            let ghost (v0, v1, v2, v3) = (search.min_x as int, search.max_x as int, search.min_y as int, search.max_y as int);
            if energy_at(buf, x, y) > t {
                let (lmin_x, lmax_x, lmin_y, lmax_y) = box_at(buf, x, y, t);
                if lmin_x < search.min_x {
                    search.min_x = lmin_x;
                }
                if lmax_x > search.max_x {
                    search.max_x = lmax_x;
                }
                if lmin_y < search.min_y {
                    search.min_y = lmin_y;
                }
                if lmax_y > search.max_y {
                    search.max_y = lmax_y;
                }
            }
            proof {
                assert(interior(buf, x as int, y as int));
                assert(fminx(x as int, y as int) == local_box(buf, x as int, y as int, ti).0);
                assert(fmaxx(x as int, y as int) == local_box(buf, x as int, y as int, ti).1);
                assert(fminy(x as int, y as int) == local_box(buf, x as int, y as int, ti).2);
                assert(fmaxy(x as int, y as int) == local_box(buf, x as int, y as int, ti).3);
                lemma_over_step(buf, ti, x as int, y as int, old(search).min_x as int, v0, search.min_x as int, fminx, true);
                lemma_over_step(buf, ti, x as int, y as int, old(search).max_x as int, v1, search.max_x as int, fmaxx, false);
                lemma_over_step(buf, ti, x as int, y as int, old(search).min_y as int, v2, search.min_y as int, fminy, true);
                lemma_over_step(buf, ti, x as int, y as int, old(search).max_y as int, v3, search.max_y as int, fmaxy, false);
            }
            x = x + 1;
        }
        proof {
            assert forall|a: int, b: int| interior(buf, a, b) implies
                (before(a, b, x as int, y as int) <==> before(a, b, 1, y + 1)) by {}
            lemma_over_same_pixels(buf, ti, x as int, y as int, 1, y + 1, old(search).min_x as int, search.min_x as int, fminx, true);
            lemma_over_same_pixels(buf, ti, x as int, y as int, 1, y + 1, old(search).max_x as int, search.max_x as int, fmaxx, false);
            lemma_over_same_pixels(buf, ti, x as int, y as int, 1, y + 1, old(search).min_y as int, search.min_y as int, fminy, true);
            lemma_over_same_pixels(buf, ti, x as int, y as int, 1, y + 1, old(search).max_y as int, search.max_y as int, fmaxy, false);
        }
        y = y + 1;
    }
    proof {
        assert forall|a: int, b: int| interior(buf, a, b) implies
            (before(a, b, 1, y as int) <==> before(a, b, 1, buf.h - 1)) by {}
        lemma_over_same_pixels(buf, ti, 1, y as int, 1, buf.h - 1, old(search).min_x as int, search.min_x as int, fminx, true);
        lemma_over_same_pixels(buf, ti, 1, y as int, 1, buf.h - 1, old(search).max_x as int, search.max_x as int, fmaxx, false);
        lemma_over_same_pixels(buf, ti, 1, y as int, 1, buf.h - 1, old(search).min_y as int, search.min_y as int, fminy, true);
        lemma_over_same_pixels(buf, ti, 1, y as int, 1, buf.h - 1, old(search).max_y as int, search.max_y as int, fmaxy, false);
    }
}

/// The approximate gray value of the pixel at `(x, y)`: luma weights 233, 1197 and 610 (out of
/// 2048) for blue, green and red; with meaningful alpha the result is also scaled by alpha and
/// rounded up; a gray pixel is its own value.
pub open spec fn approximate_gray(b: &Bitmap, x: int, y: int) -> u8 {
    let luma = 233 * b.byte_at(x, y, 0) + 1197 * b.byte_at(x, y, 1) + 610 * b.byte_at(x, y, 2);
    match b.spec_format() {
        PixelFormat::Bgra32 => {
            let g = (luma * b.byte_at(x, y, 3) + 524287) / 524288;
            if g > 255 { 255u8 } else { g as u8 }
        },
        PixelFormat::Gray8 => b.byte_at(x, y, 0),
        _ => (luma / 2048) as u8,
    }
}

/// The approximate gray value of the pixel at `(x, y)`.
fn approximate_gray_at(b: &Bitmap, x: u32, y: u32, fmt: PixelFormat) -> (r: u8)
    requires
        b.wf(),
        x < b.spec_w(),
        y < b.spec_h(),
        fmt == b.spec_format(),
    ensures
        r == approximate_gray(b, x as int, y as int),
{
    match fmt {
        PixelFormat::Gray8 => b.read_byte(x, y, 0),
        PixelFormat::Bgra32 => {
            let luma = 233 * b.read_byte(x, y, 0) as u32 + 1197 * b.read_byte(x, y, 1) as u32
                + 610 * b.read_byte(x, y, 2) as u32;
            let a = b.read_byte(x, y, 3) as u32;
            proof {
                assert(luma * a <= 522240 * 255) by (nonlinear_arith) requires luma <= 522240, a <= 255;
            }
            let g = (luma * a + 524287) / 524288;
            if g > 255 { 255 } else { g as u8 }
        },
        _ => {
            let luma = 233 * b.read_byte(x, y, 0) as u32 + 1197 * b.read_byte(x, y, 1) as u32
                + 610 * b.read_byte(x, y, 2) as u32;
            (luma / 2048) as u8
        },
    }
}

/// Writes the approximate gray values of the `w` by `h` pixels at `(x, y)` of the bitmap into
/// `grayscale`, row after row, `grayscale_stride` bytes apart; no other byte of `grayscale` changes.
pub fn approximate_grayscale(grayscale: &mut [u8], grayscale_stride: usize, x: u32, y: u32, w: u32, h: u32,
    source_bitmap: &Bitmap)
    requires
        source_bitmap.wf(),
        grayscale_stride >= w,
        x + w <= source_bitmap.spec_w(),
        y + h <= source_bitmap.spec_h(),
        h >= 1 ==> (h - 1) * grayscale_stride + w <= old(grayscale)@.len(),
    ensures
        final(grayscale)@.len() == old(grayscale)@.len(),
        forall|row: int, col: int| 0 <= row < h && 0 <= col < w
            ==> #[trigger] final(grayscale)@[row * grayscale_stride + col]
                == approximate_gray(source_bitmap, x + col, y + row),
        forall|i: int| 0 <= i < old(grayscale)@.len() && (i % (grayscale_stride as int) >= w
            || i >= h * grayscale_stride) ==> #[trigger] final(grayscale)@[i] == old(grayscale)@[i],
{
    let fmt = match source_bitmap.info().calculate_pixel_format() {
        Ok(f) => f,
        Err(_) => PixelFormat::Bgra32,
    };
    let ghost stride = grayscale_stride as int;
    let mut row: u32 = 0;
    while row < h
        invariant
            source_bitmap.wf(),
            fmt == source_bitmap.spec_format(),
            grayscale_stride >= w, stride == grayscale_stride,
            x + w <= source_bitmap.spec_w(),
            y + h <= source_bitmap.spec_h(),
            h >= 1 ==> (h - 1) * stride + w <= old(grayscale)@.len(),
            row <= h,
            grayscale@.len() == old(grayscale)@.len(),
            forall|r: int, c: int| 0 <= r < row && 0 <= c < w
                ==> #[trigger] grayscale@[r * stride + c] == approximate_gray(source_bitmap, x + c, y + r),
            forall|i: int| 0 <= i < old(grayscale)@.len() && (i % stride >= w || i >= row * stride)
                ==> #[trigger] grayscale@[i] == old(grayscale)@[i],
        decreases h - row,
    {
        let mut col: u32 = 0;
        proof {
            assert(row * stride + w <= (h - 1) * stride + w) by (nonlinear_arith)
                requires row <= h - 1, stride >= 0;
        }
        while col < w
            invariant
                source_bitmap.wf(),
                fmt == source_bitmap.spec_format(),
                grayscale_stride >= w, stride == grayscale_stride,
                x + w <= source_bitmap.spec_w(),
                y + h <= source_bitmap.spec_h(),
                row < h,
                row * stride + w <= old(grayscale)@.len(),
                col <= w,
                grayscale@.len() == old(grayscale)@.len(),
                forall|r: int, c: int| 0 <= r < row && 0 <= c < w
                    ==> #[trigger] grayscale@[r * stride + c] == approximate_gray(source_bitmap, x + c, y + r),
                forall|c: int| 0 <= c < col
                    ==> #[trigger] grayscale@[row * stride + c] == approximate_gray(source_bitmap, x + c, y + row),
                forall|i: int| 0 <= i < old(grayscale)@.len() && (i % stride >= w || i >= row * stride + col)
                    ==> #[trigger] grayscale@[i] == old(grayscale)@[i],
            decreases w - col,
        {
            let v = approximate_gray_at(source_bitmap, x + col, y + row, fmt);
            let ghost before = grayscale@;
            let glen = grayscale.len();
            proof {
                assert(row * stride + col < glen);
                assert(0 <= row * stride) by (nonlinear_arith) requires row >= 0, stride >= 0;
            }
            let idx = row as usize * grayscale_stride + col as usize;
            proof {
                assert(idx == row * stride + col);
            }
            grayscale[idx] = v;
            proof {
                assert forall|r: int, c: int| 0 <= r < row && 0 <= c < w
                    implies #[trigger] grayscale@[r * stride + c] == approximate_gray(source_bitmap, x + c, y + r) by {
                    assert(r * stride + c < row * stride) by (nonlinear_arith)
                        requires r < row, c < w, w <= stride;
                    assert(0 <= r * stride + c) by (nonlinear_arith) requires r >= 0, c >= 0, stride >= 0;
                    assert(before[r * stride + c] == approximate_gray(source_bitmap, x + c, y + r));
                }
                assert forall|i: int| 0 <= i < old(grayscale)@.len() && (i % stride >= w || i >= row * stride + col + 1)
                    implies #[trigger] grayscale@[i] == old(grayscale)@[i] by {
                    if i == idx {
                        assert((row * stride + col) % stride == col) by (nonlinear_arith)
                            requires col < stride, stride > 0, row >= 0;
                    }
                }
            }
            col = col + 1;
        }
        proof {
            assert forall|i: int| 0 <= i < old(grayscale)@.len() && (i % stride >= w || i >= (row + 1) * stride)
                implies #[trigger] grayscale@[i] == old(grayscale)@[i] by {
                if i % stride < w && i < row * stride + w {
                    assert(i < (row + 1) * stride) by (nonlinear_arith) requires i < row * stride + w, w <= stride;
                    if i >= row * stride {
                        assert(i % stride == i - row * stride) by (nonlinear_arith)
                            requires row * stride <= i, i < row * stride + stride, stride > 0;
                    }
                }
            }
        }
        row = row + 1;
    }
}

/// A rectangle by its corners: columns `x1..x2`, rows `y1..y2`.
#[derive(Copy, Clone, Debug, PartialEq, Eq, Structural)]
pub struct RectCorners {
    pub x1: u32,
    pub y1: u32,
    pub x2: u32,
    pub y2: u32,
}

/// A rectangle by its top-left corner and size.
#[derive(Copy, Clone, Debug, PartialEq, Eq, Structural)]
pub struct Rect {
    pub x: u32,
    pub y: u32,
    pub w: u32,
    pub h: u32,
}

impl Rect {
    /// The corners of the rectangle, unless the far corner does not fit in a `u32`.
    pub fn to_corners_checked(&self) -> (r: Option<RectCorners>)
        ensures
            self.x + self.w <= u32::MAX && self.y + self.h <= u32::MAX ==> r == Some(RectCorners {
                x1: self.x, y1: self.y, x2: (self.x + self.w) as u32, y2: (self.y + self.h) as u32,
            }),
            !(self.x + self.w <= u32::MAX && self.y + self.h <= u32::MAX) ==> r is None,
    {
        if let Some(x2) = self.x.checked_add(self.w) {
            if let Some(y2) = self.y.checked_add(self.h) {
                return Some(RectCorners { x1: self.x, y1: self.y, x2, y2 });
            }
        }
        None
    }
}

/// The side of the image a scan works inward from, if any.
#[derive(Copy, Clone, Debug, PartialEq, Eq, Structural)]
pub enum ScanEdge {
    Top,
    Right,
    Bottom,
    Left,
    NonDirectional,
}

/// The span `lo..hi` widened one step at a time on both sides, within `0..limit`, until it is at
/// least `min` long or covers `0..limit`.
pub open spec fn grown_span(lo: int, hi: int, min: int, limit: int) -> (int, int)
    decreases lo + limit - hi,
{
    if hi - lo < min && (lo > 0 || hi < limit) && 0 <= lo && hi <= limit {
        grown_span(if lo > 0 { lo - 1 } else { 0 }, if hi + 1 < limit { hi + 1 } else { limit }, min, limit)
    } else {
        (lo, hi)
    }
}

/// Grows `lo..hi` as `grown_span` does.
fn grow_span(lo: u32, hi: u32, min: u32, limit: u32) -> (r: (u32, u32))
    requires
        lo <= hi <= limit,
    ensures
        (r.0 as int, r.1 as int) == grown_span(lo as int, hi as int, min as int, limit as int),
        r.0 <= r.1 <= limit,
{
    let ghost (lo0, hi0) = (lo as int, hi as int);
    let mut lo = lo;
    let mut hi = hi;
    while hi - lo < min && (lo > 0 || hi < limit)
        invariant
            lo <= hi <= limit,
            grown_span(lo as int, hi as int, min as int, limit as int)
                == grown_span(lo0, hi0, min as int, limit as int),
        decreases lo + limit - hi,
    {
        lo = if lo > 0 { lo - 1 } else { 0 };
        hi = if hi < limit { hi + 1 } else { limit };
    }
    (lo, hi)
}

/// The smaller of two integers.
pub open spec fn min_int(a: int, b: int) -> int {
    if a <= b { a } else { b }
}

/// The larger of two integers.
pub open spec fn max_int(a: int, b: int) -> int {
    if a >= b { a } else { b }
}

impl WhitespaceSearch {
    /// The rectangle to scan for a region whose edges, as fractions of the image's last column
    /// and row, came to the columns `fx1..fx2` and rows `fy1..fy2`: limited to the image, snapped
    /// to the side the region scans inward from so as to skip what is already known to be
    /// content, and widened to at least 3 pixels along the scan and 7 across it. None when
    /// nothing is left to scan.
    pub open spec fn spec_search_rect(&self, edge: ScanEdge, fx1: u32, fx2: u32, fy1: u32, fy2: u32) -> Option<RectCorners> {
        let w = self.w as int;
        let h = self.h as int;
        let (x1, x2, y1, y2) = match edge {
            ScanEdge::Left => (0int, min_int(min_int(w, fx2 as int), self.min_x as int), min_int(h, fy1 as int), min_int(h, fy2 as int)),
            ScanEdge::Right => (max_int(min_int(w, fx1 as int), self.max_x as int), w, min_int(h, fy1 as int), min_int(h, fy2 as int)),
            ScanEdge::Top => (min_int(w, fx1 as int), min_int(w, fx2 as int), 0int, min_int(min_int(h, fy2 as int), self.min_y as int)),
            ScanEdge::Bottom => (min_int(w, fx1 as int), min_int(w, fx2 as int), max_int(min_int(h, fy1 as int), self.max_y as int), h),
            ScanEdge::NonDirectional => (min_int(w, fx1 as int), min_int(w, fx2 as int), min_int(h, fy1 as int), min_int(h, fy2 as int)),
        };
        if x1 == x2 || y1 == y2 {
            None
        } else {
            let min_w = if edge == ScanEdge::Right || edge == ScanEdge::Left { 3int } else { 7int };
            let min_h = if edge == ScanEdge::Top || edge == ScanEdge::Bottom { 3int } else { 7int };
            let (gy1, gy2) = grown_span(y1, y2, min_h, h);
            let (gx1, gx2) = grown_span(x1, x2, min_w, w);
            Some(RectCorners { x1: gx1 as u32, y1: gy1 as u32, x2: gx2 as u32, y2: gy2 as u32 })
        }
    }

    /// The rectangle to scan, as `spec_search_rect` describes it; `fx1..fx2` and `fy1..fy2` are
    /// the fractions of the region applied to the image's last column and row, rounded down.
    pub fn get_search_rect(&self, edge: ScanEdge, fx1: u32, fx2: u32, fy1: u32, fy2: u32) -> (r: Option<RectCorners>)
        requires
            fx1 <= fx2,
            fy1 <= fy2,
            self.max_x <= self.w,
            self.max_y <= self.h,
        ensures
            r == self.spec_search_rect(edge, fx1, fx2, fy1, fy2),
            r matches Some(c) ==> c.x1 < c.x2 <= self.w && c.y1 < c.y2 <= self.h,
    {
        let mut x1 = if fx1 < self.w { fx1 } else { self.w };
        let mut x2 = if fx2 < self.w { fx2 } else { self.w };
        let mut y1 = if fy1 < self.h { fy1 } else { self.h };
        let mut y2 = if fy2 < self.h { fy2 } else { self.h };
        match edge {
            ScanEdge::Left => {
                x1 = 0;
                x2 = if x2 < self.min_x { x2 } else { self.min_x };
            },
            ScanEdge::Right => {
                x1 = if x1 > self.max_x { x1 } else { self.max_x };
                x2 = self.w;
            },
            ScanEdge::Top => {
                y1 = 0;
                y2 = if y2 < self.min_y { y2 } else { self.min_y };
            },
            ScanEdge::Bottom => {
                y1 = if y1 > self.max_y { y1 } else { self.max_y };
                y2 = self.h;
            },
            ScanEdge::NonDirectional => {},
        }
        if x1 == x2 || y1 == y2 {
            return None;
        }
        let min_region_width: u32 = if edge == ScanEdge::Right || edge == ScanEdge::Left { 3 } else { 7 };
        let min_region_height: u32 = if edge == ScanEdge::Top || edge == ScanEdge::Bottom { 3 } else { 7 };
        let (gy1, gy2) = grow_span(y1, y2, min_region_height, self.h);
        let (gx1, gx2) = grow_span(x1, x2, min_region_width, self.w);
        proof {
            lemma_grown_span_keeps(y1 as int, y2 as int, min_region_height as int, self.h as int);
            lemma_grown_span_keeps(x1 as int, x2 as int, min_region_width as int, self.w as int);
        }
        Some(RectCorners { x1: gx1, y1: gy1, x2: gx2, y2: gy2 })
    }
}

/// Growing a span never shrinks it.
pub proof fn lemma_grown_span_keeps(lo: int, hi: int, min: int, limit: int)
    requires
        0 <= lo <= hi <= limit,
    ensures
        grown_span(lo, hi, min, limit).0 <= lo,
        grown_span(lo, hi, min, limit).1 >= hi,
    decreases lo + limit - hi,
{
    if hi - lo < min && (lo > 0 || hi < limit) {
        lemma_grown_span_keeps(if lo > 0 { lo - 1 } else { 0 }, if hi + 1 < limit { hi + 1 } else { limit }, min, limit);
    }
}

/// The side of the square windows that directional scans use: the square root of the buffer
/// size, rounded up.
pub const SQUARE_WINDOW_SIDE: u32 = 46;

/// The size of the windows that scan a `w` by `h` rectangle: wide rows of the buffer for a
/// scan of everything, squares otherwise, never larger than the rectangle.
pub open spec fn spec_window_size(edge: ScanEdge, w: int, h: int) -> (int, int) {
    let side = if edge == ScanEdge::NonDirectional { (BUFFER_SIZE / 7) as int } else { SQUARE_WINDOW_SIDE as int };
    let ww = min_int(w, side);
    (ww, min_int(h, BUFFER_SIZE as int / ww))
}

/// The size of the windows that scan a `w` by `h` rectangle, as `spec_window_size` describes it.
pub fn window_size(edge: ScanEdge, w: u32, h: u32) -> (r: (u32, u32))
    requires
        w >= 1,
    ensures
        (r.0 as int, r.1 as int) == spec_window_size(edge, w as int, h as int),
        r.0 >= 1,
        r.0 * r.1 <= BUFFER_SIZE,
{
    let side: u32 = if edge == ScanEdge::NonDirectional { 2048 / 7 } else { SQUARE_WINDOW_SIDE };
    let ww = if w < side { w } else { side };
    let by_size: u32 = 2048 / ww;
    let wh = if h < by_size { h } else { by_size };
    proof {
        assert(ww * wh <= ww * (2048u32 / ww)) by (nonlinear_arith) requires wh <= 2048u32 / ww, ww >= 1;
        assert(ww * (2048u32 / ww) <= 2048) by (nonlinear_arith) requires ww >= 1;
    }
    (ww, wh)
}

/// Where window `(row, column)` of a scan of the rectangle `rect` with `ww` by `wh` windows lies,
/// as `(x, y, w, h)`: windows overlap by two pixels; a window is shrunk or shifted so as to skip
/// what the search already knows to be content, skipped entirely (None) when it lies within that
/// content, and shifted back inside the image.
pub open spec fn spec_window_plan(s: &WhitespaceSearch, rect: RectCorners, ww: int, wh: int, row: int, column: int)
    -> Option<(int, int, int, int)> {
    let bx = rect.x1 + (ww - 2) * column;
    let by = rect.y1 + (wh - 2) * row;
    let bw = min_int(max_int(3, rect.x2 - bx), ww);
    let bh = min_int(max_int(3, rect.y2 - by), wh);
    let bx2 = bx + bw;
    let by2 = by + bh;
    let excluded_x = s.min_x < bx && s.max_x > bx2;
    let excluded_y = s.min_y < by && s.max_y > by2;
    if excluded_x && excluded_y {
        None
    } else {
        let (bx, bw) = if excluded_y && s.min_x < bx2 && bx2 < s.max_x {
            (bx, max_int(3, s.min_x - bx))
        } else if excluded_y && s.max_x > bx && bx > s.min_x {
            let nx = min_int(bx2 - 3, s.max_x as int);
            (nx, bx2 - nx)
        } else {
            (bx, bw)
        };
        let (by, bh) = if excluded_x && s.min_y < by2 && by2 < s.max_y {
            (by, max_int(3, s.min_y - by))
        } else if excluded_x && s.max_y > by && by > s.min_y {
            let ny = min_int(by2 - 3, s.max_y as int);
            (ny, by2 - ny)
        } else {
            (by, bh)
        };
        let (by, bh) = if by + bh > s.h {
            if bh <= s.h { (s.h - bh, bh) } else { (0int, s.h as int) }
        } else {
            (by, bh)
        };
        let (bx, bw) = if bx + bw > s.w {
            if bw <= s.w { (s.w - bw, bw) } else { (0int, s.w as int) }
        } else {
            (bx, bw)
        };
        Some((bx, by, bw, bh))
    }
}

impl WhitespaceSearch {
    /// Where window `(row, column)` of a scan of `rect` lies, as `spec_window_plan` describes it.
    pub fn plan_window(&self, rect: RectCorners, ww: u32, wh: u32, row: u32, column: u32)
        -> (r: Option<(u32, u32, u32, u32)>)
        requires
            ww >= 3,
            wh >= 3,
            rect.x1 + (ww - 2) * column <= rect.x2,
            rect.y1 + (wh - 2) * row <= rect.y2,
            rect.x2 + ww <= u32::MAX,
            rect.y2 + wh <= u32::MAX,
        ensures
            r matches Some(p) ==> Some((p.0 as int, p.1 as int, p.2 as int, p.3 as int))
                == spec_window_plan(self, rect, ww as int, wh as int, row as int, column as int),
            r is None ==> spec_window_plan(self, rect, ww as int, wh as int, row as int, column as int) is None,
    {
        proof {
            assert((ww - 2) * column >= 0) by (nonlinear_arith) requires ww >= 2, column >= 0;
            assert((wh - 2) * row >= 0) by (nonlinear_arith) requires wh >= 2, row >= 0;
        }
        let mut bx = rect.x1 + (ww - 2) * column;
        let mut by = rect.y1 + (wh - 2) * row;
        let spread_x = if rect.x2 - bx > 3 { rect.x2 - bx } else { 3 };
        let spread_y = if rect.y2 - by > 3 { rect.y2 - by } else { 3 };
        let mut bw = if spread_x < ww { spread_x } else { ww };
        let mut bh = if spread_y < wh { spread_y } else { wh };
        let bx2 = bx + bw;
        let by2 = by + bh;
        let excluded_x = self.min_x < bx && self.max_x > bx2;
        let excluded_y = self.min_y < by && self.max_y > by2;
        if excluded_x && excluded_y {
            return None;
        }
        if excluded_y && self.min_x < bx2 && bx2 < self.max_x {
            bw = if self.min_x - bx > 3 { self.min_x - bx } else { 3 };
        } else if excluded_y && self.max_x > bx && bx > self.min_x {
            bx = if bx2 - 3 < self.max_x { bx2 - 3 } else { self.max_x };
            bw = bx2 - bx;
        }
        if excluded_x && self.min_y < by2 && by2 < self.max_y {
            bh = if self.min_y - by > 3 { self.min_y - by } else { 3 };
        } else if excluded_x && self.max_y > by && by > self.min_y {
            by = if by2 - 3 < self.max_y { by2 - 3 } else { self.max_y };
            bh = by2 - by;
        }
        if by as u64 + bh as u64 > self.h as u64 {
            if bh <= self.h {
                by = self.h - bh;
            } else {
                by = 0;
                bh = self.h;
            }
        }
        if bx as u64 + bw as u64 > self.w as u64 {
            if bw <= self.w {
                bx = self.w - bw;
            } else {
                bx = 0;
                bw = self.w;
            }
        }
        Some((bx, by, bw, bh))
    }
}

/// The area left outside the box found so far, counted as the quick scans count it: the strips
/// left of, above, right of and below the box (the last one measured by the image's height).
pub open spec fn spec_area_outside(s: &WhitespaceSearch) -> int {
    s.min_x * s.h + s.min_y * s.w + (s.w - s.max_x) * s.h + (s.h - s.max_y) * s.h
}

impl WhitespaceSearch {
    /// After the quick scans: whether so much is left outside the box that the whole image is
    /// better scanned at once than inward from each side.
    pub fn needs_full_scan(&self) -> (r: bool)
        requires
            self.w <= i32::MAX,
            self.h <= i32::MAX,
            self.min_x <= self.w,
            self.min_y <= self.h,
            self.max_x <= self.w,
            self.max_y <= self.h,
            spec_area_outside(self) <= i64::MAX,
        ensures
            r == (spec_area_outside(self) > self.h * self.w),
    {
        proof {
            assert(self.min_x * self.h <= self.w * self.h) by (nonlinear_arith) requires self.min_x <= self.w;
            assert(self.min_y * self.w <= self.h * self.w) by (nonlinear_arith) requires self.min_y <= self.h;
            assert((self.w - self.max_x) * self.h <= self.w * self.h) by (nonlinear_arith) requires self.max_x <= self.w, self.max_x >= 0;
            assert((self.h - self.max_y) * self.h <= self.h * self.h) by (nonlinear_arith) requires self.max_y <= self.h, self.max_y >= 0;
            assert(self.w * self.h <= 2147483647 * 2147483647) by (nonlinear_arith) requires self.w <= 2147483647, self.h <= 2147483647;
            assert(self.h * self.h <= 2147483647 * 2147483647) by (nonlinear_arith) requires self.h <= 2147483647;
            assert(self.h * self.w == self.w * self.h) by (nonlinear_arith);
            assert(0 <= (self.w - self.max_x) * self.h) by (nonlinear_arith) requires self.max_x <= self.w;
            assert(0 <= (self.h - self.max_y) * self.h) by (nonlinear_arith) requires self.max_y <= self.h;
        }
        let area: i64 = self.min_x as i64 * self.h as i64 + self.min_y as i64 * self.w as i64
            + (self.w as i64 - self.max_x as i64) * self.h as i64 + (self.h as i64 - self.max_y as i64) * self.h as i64;
        area > self.h as i64 * self.w as i64
    }

    /// The content found: the box, or the whole image when no edge was found at all.
    pub fn content_rect(&self) -> (r: RectCorners)
        ensures
            (self.min_x == self.w && self.max_x == 0 && self.min_y == self.h && self.max_y == 0)
                ==> r == (RectCorners { x1: 0, y1: 0, x2: self.w, y2: self.h }),
            !(self.min_x == self.w && self.max_x == 0 && self.min_y == self.h && self.max_y == 0)
                ==> r == (RectCorners { x1: self.min_x, y1: self.min_y, x2: self.max_x, y2: self.max_y }),
    {
        if self.min_x == self.w && self.max_x == 0 && self.min_y == self.h && self.max_y == 0 {
            RectCorners { x1: 0, y1: 0, x2: self.w, y2: self.h }
        } else {
            RectCorners { x1: self.min_x, y1: self.min_y, x2: self.max_x, y2: self.max_y }
        }
    }
}

} // verus!

verus! {

/// Which regions a content search scans after its quick strips.
#[derive(Copy, Clone, Debug, PartialEq, Eq, Structural)]
pub enum ScanPhase {
    /// The whole image at once, when the strips left too much of it unexplained.
    Full,
    /// The whole image inward from each side.
    EverythingInward,
}

impl WhitespaceSearch {
    /// A search of a `w` by `h` image that has found nothing yet: its box is empty, from the far
    /// corner to the origin.
    pub fn start(w: u32, h: u32, threshold: u32) -> (r: WhitespaceSearch)
        ensures
            r.w == w && r.h == h && r.threshold == threshold,
            r.min_x == w && r.min_y == h && r.max_x == 0 && r.max_y == 0,
    {
        WhitespaceSearch { w, h, threshold, max_x: 0, max_y: 0, min_y: h, min_x: w }
    }

    /// The scan after the quick strips: the full image where the area outside the box found so
    /// far exceeds the image's area, each side inward otherwise.
    pub fn next_phase(&self) -> (r: ScanPhase)
        requires
            self.w <= i32::MAX,
            self.h <= i32::MAX,
            self.min_x <= self.w,
            self.min_y <= self.h,
            self.max_x <= self.w,
            self.max_y <= self.h,
            spec_area_outside(self) <= i64::MAX,
        ensures
            r == (if spec_area_outside(self) > self.h * self.w { ScanPhase::Full } else { ScanPhase::EverythingInward }),
    {
        if self.needs_full_scan() { ScanPhase::Full } else { ScanPhase::EverythingInward }
    }
}

/// An image less than 3 pixels wide or tall has no interior to scan: its content is the whole
/// image. Any other image is scanned (none).
pub fn content_of_small_image(w: u32, h: u32) -> (r: Option<RectCorners>)
    ensures
        (w < 3 || h < 3) ==> r == Some(RectCorners { x1: 0, x2: w, y1: 0, y2: h }),
        !(w < 3 || h < 3) ==> r is None,
{
    if w < 3 || h < 3 {
        Some(RectCorners { x1: 0, x2: w, y1: 0, y2: h })
    } else {
        None
    }
}

} // verus!
