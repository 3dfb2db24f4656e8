//! Per-channel histograms of BGRA bitmaps.
use vstd::prelude::*;
use crate::flow_error::FlowError;
use crate::graphics::bitmaps::Bitmap;

verus! {

/// The number of the first `n` pixels of row `y` whose byte `c` is `v`.
pub open spec fn row_count(b: &Bitmap, c: int, v: int, y: int, n: int) -> nat
    decreases n,
{
    if n <= 0 {
        0
    } else {
        row_count(b, c, v, y, n - 1) + (if b.byte_at(n - 1, y, c) == v { 1nat } else { 0nat })
    }
}

/// The number of pixels of the first `m` rows whose byte `c` is `v`.
pub open spec fn rows_count(b: &Bitmap, c: int, v: int, m: int) -> nat
    decreases m,
{
    if m <= 0 {
        0
    } else {
        rows_count(b, c, v, m - 1) + row_count(b, c, v, m - 1, b.spec_w() as int)
    }
}

proof fn lemma_row_count_bound(b: &Bitmap, c: int, v: int, y: int, n: int)
    requires
        n >= 0,
    ensures
        row_count(b, c, v, y, n) <= n,
    decreases n,
{
    if n > 0 {
        lemma_row_count_bound(b, c, v, y, n - 1);
    }
}

proof fn lemma_rows_count_bound(b: &Bitmap, c: int, v: int, m: int)
    requires
        m >= 0,
    ensures
        rows_count(b, c, v, m) <= m * b.spec_w(),
    decreases m,
{
    if m > 0 {
        lemma_rows_count_bound(b, c, v, m - 1);
        lemma_row_count_bound(b, c, v, m - 1, b.spec_w() as int);
        assert((m - 1) * b.spec_w() + b.spec_w() == m * b.spec_w()) by (nonlinear_arith);
    }
}

/// Counts, for every value, the pixels of a BGRA bitmap whose red, green and blue bytes have it,
/// adding the counts to `histograms` (red first, then green, then blue).
pub fn populate_histogram_from_window(window: &Bitmap, histograms: &mut [[u64; 256]; 3]) -> (r: Result<(), FlowError>)
    requires
        window.wf(),
        window.spec_bpp() == 4,
        forall|k: int, v: int| 0 <= k < 3 && 0 <= v < 256
            ==> #[trigger] old(histograms)@[k]@[v] + window.spec_w() * window.spec_h() <= u64::MAX,
    ensures
        r is Ok,
        forall|v: int| 0 <= v < 256 ==> #[trigger] final(histograms)@[0]@[v]
            == old(histograms)@[0]@[v] + rows_count(window, 2, v, window.spec_h() as int),
        forall|v: int| 0 <= v < 256 ==> #[trigger] final(histograms)@[1]@[v]
            == old(histograms)@[1]@[v] + rows_count(window, 1, v, window.spec_h() as int),
        forall|v: int| 0 <= v < 256 ==> #[trigger] final(histograms)@[2]@[v]
            == old(histograms)@[2]@[v] + rows_count(window, 0, v, window.spec_h() as int),
{
    let w = window.w();
    let h = window.h();
    let mut y: u32 = 0;
    while y < h
        invariant
            window.wf(),
            window.spec_bpp() == 4,
            w == window.spec_w(), h == window.spec_h(),
            y <= h,
            forall|k: int, v: int| 0 <= k < 3 && 0 <= v < 256
                ==> #[trigger] old(histograms)@[k]@[v] + w * h <= u64::MAX,
            forall|v: int| 0 <= v < 256 ==> #[trigger] histograms@[0]@[v]
                == old(histograms)@[0]@[v] + rows_count(window, 2, v, y as int),
            forall|v: int| 0 <= v < 256 ==> #[trigger] histograms@[1]@[v]
                == old(histograms)@[1]@[v] + rows_count(window, 1, v, y as int),
            forall|v: int| 0 <= v < 256 ==> #[trigger] histograms@[2]@[v]
                == old(histograms)@[2]@[v] + rows_count(window, 0, v, y as int),
        decreases h - y,
    {
        let mut x: u32 = 0;
        while x < w
            invariant
                window.wf(),
                window.spec_bpp() == 4,
                w == window.spec_w(), h == window.spec_h(),
                y < h,
                x <= w,
                forall|k: int, v: int| 0 <= k < 3 && 0 <= v < 256
                    ==> #[trigger] old(histograms)@[k]@[v] + w * h <= u64::MAX,
                forall|v: int| 0 <= v < 256 ==> #[trigger] histograms@[0]@[v]
                    == old(histograms)@[0]@[v] + rows_count(window, 2, v, y as int) + row_count(window, 2, v, y as int, x as int),
                forall|v: int| 0 <= v < 256 ==> #[trigger] histograms@[1]@[v]
                    == old(histograms)@[1]@[v] + rows_count(window, 1, v, y as int) + row_count(window, 1, v, y as int, x as int),
                forall|v: int| 0 <= v < 256 ==> #[trigger] histograms@[2]@[v]
                    == old(histograms)@[2]@[v] + rows_count(window, 0, v, y as int) + row_count(window, 0, v, y as int, x as int),
            decreases w - x,
        {
            let r = window.read_byte(x, y, 2) as usize;
            let g = window.read_byte(x, y, 1) as usize;
            let b = window.read_byte(x, y, 0) as usize;
            proof {
                assert forall|c: int, v: int| 0 <= c < 3 && 0 <= v < 256 implies
                    rows_count(window, c, v, y as int) + row_count(window, c, v, y as int, x as int) < w * h by {
                    lemma_rows_count_bound(window, c, v, y as int);
                    lemma_row_count_bound(window, c, v, y as int, x as int);
                    assert(y * w + x < w * h) by (nonlinear_arith) requires y < h, x < w;
                }
                assert(histograms@[0]@[r as int] < u64::MAX);
                assert(histograms@[1]@[g as int] < u64::MAX);
                assert(histograms@[2]@[b as int] < u64::MAX);
            }
            histograms[0][r] = histograms[0][r] + 1;
            histograms[1][g] = histograms[1][g] + 1;
            histograms[2][b] = histograms[2][b] + 1;
            x = x + 1;
        }
        y = y + 1;
    }
    Ok(())
}

} // verus!
