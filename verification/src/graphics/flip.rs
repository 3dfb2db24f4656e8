//! Mirroring bitmaps vertically and horizontally, in place.
use vstd::prelude::*;
use crate::errors::ErrorKind;
use crate::flow_error::FlowError;
use crate::graphics::bitmaps::{Bitmap, Bgra8, PixelLayout};

verus! {

/// `after` is `before` mirrored top-to-bottom: same geometry and padding, row `y` holding row `h - 1 - y`.
pub open spec fn is_vertical_mirror(after: &Bitmap, before: &Bitmap) -> bool {
    &&& after.wf()
    &&& after.same_outside(before, 0, before.spec_w() as int, 0, before.spec_h() as int)
    &&& forall|x: int, y: int, c: int|
        0 <= x < before.spec_w() && 0 <= y < before.spec_h() && 0 <= c < before.spec_bpp()
            ==> #[trigger] after.byte_at(x, y, c) == before.byte_at(x, before.spec_h() - 1 - y, c)
}

/// `after` is `before` mirrored left-to-right: same geometry and padding, column `x` holding column `w - 1 - x`.
pub open spec fn is_horizontal_mirror(after: &Bitmap, before: &Bitmap) -> bool {
    &&& after.wf()
    &&& after.same_outside(before, 0, before.spec_w() as int, 0, before.spec_h() as int)
    &&& forall|x: int, y: int, c: int|
        0 <= x < before.spec_w() && 0 <= y < before.spec_h() && 0 <= c < before.spec_bpp()
            ==> #[trigger] after.byte_at(x, y, c) == before.byte_at(before.spec_w() - 1 - x, y, c)
}

/// Mirrors the bitmap top-to-bottom: row `y` takes the pixels of row `h - 1 - y`.
/// Stride padding is not touched.
pub fn flow_bitmap_bgra_flip_vertical_safe(b: &mut Bitmap) -> (r: Result<(), FlowError>)
    requires
        old(b).wf(),
    ensures
        r is Ok,
        is_vertical_mirror(&*final(b), &*old(b)),
{
    let ghost orig = *b;
    let h = b.h();
    let row_len = b.row_len();
    let ghost hh = h as int;
    let half = h / 2;
    let mut y: u32 = 0;
    while y < half
        invariant
            b.wf(),
            b.same_shape(&orig),
            orig.wf(),
            hh == orig.spec_h(), row_len == orig.spec_row_len(), h == hh,
            half == hh / 2,
            y <= half,
            forall|i: int| 0 <= i < orig.spec_bytes().len() && !orig.in_pixels(i)
                ==> #[trigger] b.spec_bytes()[i] == orig.spec_bytes()[i],
            forall|r: int, k: int| 0 <= r < hh && 0 <= k < row_len ==>
                #[trigger] b.cell_at(r, k) == (if r < y || r >= hh - y {
                    orig.cell_at(hh - 1 - r, k)
                } else {
                    orig.cell_at(r, k)
                }),
        decreases half - y,
    {
        let y2 = h - 1 - y;
        let mut k: u32 = 0;
        while k < row_len
            invariant
                b.wf(),
                b.same_shape(&orig),
                orig.wf(),
                hh == orig.spec_h(), row_len == orig.spec_row_len(), h == hh,
                half == hh / 2,
                y < half,
                y2 == hh - 1 - y,
                k <= row_len,
                forall|i: int| 0 <= i < orig.spec_bytes().len() && !orig.in_pixels(i)
                    ==> #[trigger] b.spec_bytes()[i] == orig.spec_bytes()[i],
                forall|r: int, kk: int| 0 <= r < hh && 0 <= kk < row_len ==>
                    #[trigger] b.cell_at(r, kk) == (if r < y || r >= hh - y
                        || ((r == y || r == y2) && kk < k) {
                        orig.cell_at(hh - 1 - r, kk)
                    } else {
                        orig.cell_at(r, kk)
                    }),
            decreases row_len - k,
        {
            let ghost before = *b;
            let t = b.read_cell(y, k);
            let u = b.read_cell(y2, k);
            b.write_cell(y, k, u);
            b.write_cell(y2, k, t);
            proof {
                before.lemma_cell_distinct(y as int, k as int, y2 as int, k as int);
                before.lemma_cell_pos(y as int, k as int);
                before.lemma_cell_pos(y2 as int, k as int);
                assert forall|i: int| 0 <= i < orig.spec_bytes().len() && !orig.in_pixels(i)
                    implies #[trigger] b.spec_bytes()[i] == orig.spec_bytes()[i] by {
                    assert(i != before.cell_pos(y as int, k as int) && i != before.cell_pos(y2 as int, k as int));
                    assert(before.spec_bytes()[i] == orig.spec_bytes()[i]);
                }
                assert forall|r: int, kk: int| 0 <= r < hh && 0 <= kk < row_len implies
                    #[trigger] b.cell_at(r, kk) == (if r < y || r >= hh - y
                        || ((r == y || r == y2) && kk < k + 1) {
                        orig.cell_at(hh - 1 - r, kk)
                    } else {
                        orig.cell_at(r, kk)
                    }) by {
                    assert(before.cell_at(r, kk) == (if r < y || r >= hh - y
                        || ((r == y || r == y2) && kk < k) {
                        orig.cell_at(hh - 1 - r, kk)
                    } else {
                        orig.cell_at(r, kk)
                    }));
                    assert(y != y2);
                    assert(before.cell_at(y as int, k as int) == orig.cell_at(y as int, k as int));
                    assert(before.cell_at(y2 as int, k as int) == orig.cell_at(y2 as int, k as int));
                    let p1 = before.cell_pos(y as int, k as int);
                    let p2 = before.cell_pos(y2 as int, k as int);
                    assert(b.spec_bytes() == before.spec_bytes().update(p1, u).update(p2, t));
                    if r == y && kk == k {
                        assert(b.cell_pos(r, kk) == p1);
                        assert(b.cell_at(r, kk) == u);
                        assert(hh - 1 - r == y2);
                    } else if r == y2 && kk == k {
                        assert(b.cell_pos(r, kk) == p2);
                        assert(b.cell_at(r, kk) == t);
                        assert(hh - 1 - r == y);
                    } else {
                        before.lemma_cell_distinct(r, kk, y as int, k as int);
                        before.lemma_cell_distinct(r, kk, y2 as int, k as int);
                        before.lemma_cell_pos(r, kk);
                        assert(b.cell_pos(r, kk) == before.cell_pos(r, kk));
                        assert(b.cell_at(r, kk) == before.cell_at(r, kk));
                    }
                }
            }
            k = k + 1;
        }
        y = y + 1;
    }
    proof {
        assert forall|x: int, yy: int, c: int|
            0 <= x < orig.spec_w() && 0 <= yy < orig.spec_h() && 0 <= c < orig.spec_bpp()
            implies #[trigger] b.byte_at(x, yy, c) == orig.byte_at(x, orig.spec_h() - 1 - yy, c) by {
            b.lemma_byte_is_cell(x, yy, c);
            orig.lemma_byte_is_cell(x, orig.spec_h() - 1 - yy, c);
            assert(b.cell_at(yy, x * orig.spec_bpp() + c) == (if yy < y || yy >= hh - y {
                orig.cell_at(hh - 1 - yy, x * orig.spec_bpp() + c)
            } else {
                orig.cell_at(yy, x * orig.spec_bpp() + c)
            }));
        }
        assert forall|i: int|
            0 <= i < b.spec_bytes().len() && !orig.in_rect(i, 0, orig.spec_w() as int, 0, orig.spec_h() as int)
            implies #[trigger] b.spec_bytes()[i] == orig.spec_bytes()[i] by {
            orig.lemma_in_pixels_is_full_rect(i);
        }
    }
    Ok(())
}

/// Mirrors the bitmap left-to-right: column `x` takes the pixels of column `w - 1 - x`.
/// Only BGRA bitmaps are mirrored; stride padding is not touched.
pub fn flow_bitmap_bgra_flip_horizontal_safe(b: &mut Bitmap) -> (r: Result<(), FlowError>)
    requires
        old(b).wf(),
        old(b).spec_info().pixel_layout == PixelLayout::BGRA,
    ensures
        r is Ok,
        is_horizontal_mirror(&*final(b), &*old(b)),
{
    let ghost orig = *b;
    let w = b.w();
    let h = b.h();
    let half = w / 2;
    let mut y: u32 = 0;
    while y < h
        invariant
            b.wf(),
            orig.wf(),
            b.same_shape(&orig),
            w == orig.spec_w(), h == orig.spec_h(), half == w / 2,
            y <= h,
            forall|i: int| 0 <= i < orig.spec_bytes().len() && !orig.in_pixels(i)
                ==> #[trigger] b.spec_bytes()[i] == orig.spec_bytes()[i],
            forall|px: int, py: int, c: int|
                0 <= px < orig.spec_w() && 0 <= py < orig.spec_h() && 0 <= c < orig.spec_bpp()
                    ==> #[trigger] b.byte_at(px, py, c) == (if py < y {
                        orig.byte_at(w - 1 - px, py, c)
                    } else {
                        orig.byte_at(px, py, c)
                    }),
        decreases h - y,
    {
        let mut i: u32 = 0;
        while i < half
            invariant
                b.wf(),
                orig.wf(),
                b.same_shape(&orig),
                w == orig.spec_w(), h == orig.spec_h(), half == w / 2,
                y < h,
                i <= half,
                forall|i: int| 0 <= i < orig.spec_bytes().len() && !orig.in_pixels(i)
                    ==> #[trigger] b.spec_bytes()[i] == orig.spec_bytes()[i],
                forall|px: int, py: int, c: int|
                    0 <= px < orig.spec_w() && 0 <= py < orig.spec_h() && 0 <= c < orig.spec_bpp()
                        ==> #[trigger] b.byte_at(px, py, c) == (if py < y || (py == y && (px < i || px >= w - i)) {
                            orig.byte_at(w - 1 - px, py, c)
                        } else {
                            orig.byte_at(px, py, c)
                        }),
            decreases half - i,
        {
            let ghost before = *b;
            b.swap_pixels(i, w - 1 - i, y);
            proof {
                assert forall|px: int, py: int, c: int|
                    0 <= px < orig.spec_w() && 0 <= py < orig.spec_h() && 0 <= c < orig.spec_bpp()
                    implies #[trigger] b.byte_at(px, py, c) == (if py < y || (py == y && (px < i + 1 || px >= w - (i + 1))) {
                            orig.byte_at(w - 1 - px, py, c)
                        } else {
                            orig.byte_at(px, py, c)
                        }) by {
                    assert(before.byte_at(px, py, c) == (if py < y || (py == y && (px < i || px >= w - i)) {
                            orig.byte_at(w - 1 - px, py, c)
                        } else {
                            orig.byte_at(px, py, c)
                        }));
                    if py == y && px == i {
                        assert(before.byte_at(w - 1 - i, y as int, c) == orig.byte_at(w - 1 - i, y as int, c));
                    } else if py == y && px == w - 1 - i {
                        assert(before.byte_at(i as int, y as int, c) == orig.byte_at(i as int, y as int, c));
                    }
                }
            }
            i = i + 1;
        }
        proof {
            assert forall|px: int, py: int, c: int|
                0 <= px < orig.spec_w() && 0 <= py < orig.spec_h() && 0 <= c < orig.spec_bpp()
                implies #[trigger] b.byte_at(px, py, c) == (if py < y + 1 {
                    orig.byte_at(w - 1 - px, py, c)
                } else {
                    orig.byte_at(px, py, c)
                }) by {
                if py == y && half <= px < w - half {
                    assert(w - 1 - px == px);
                }
            }
        }
        y = y + 1;
    }
    proof {
        assert forall|i: int|
            0 <= i < b.spec_bytes().len() && !orig.in_rect(i, 0, orig.spec_w() as int, 0, orig.spec_h() as int)
            implies #[trigger] b.spec_bytes()[i] == orig.spec_bytes()[i] by {
            orig.lemma_in_pixels_is_full_rect(i);
        }
    }
    Ok(())
}

/// Mirroring top-to-bottom twice gives back the bitmap's bytes.
pub proof fn lemma_vertical_mirror_twice(b0: &Bitmap, b1: &Bitmap, b2: &Bitmap)
    requires
        b0.wf(),
        is_vertical_mirror(b1, b0),
        is_vertical_mirror(b2, b1),
    ensures
        b2.same_shape(b0),
        b2.spec_bytes() == b0.spec_bytes(),
{
    assert forall|i: int| 0 <= i < b0.spec_bytes().len() implies #[trigger] b2.spec_bytes()[i] == b0.spec_bytes()[i] by {
        b0.lemma_in_pixels_is_full_rect(i);
        b1.lemma_in_pixels_is_full_rect(i);
        if b0.in_pixels(i) {
            let (x, y, c) = b0.lemma_pixel_of_position(i);
            assert(b2.byte_at(x, y, c) == b1.byte_at(x, b0.spec_h() - 1 - y, c));
            assert(b1.byte_at(x, b0.spec_h() - 1 - y, c) == b0.byte_at(x, y, c));
        }
    }
    assert(b2.spec_bytes() =~= b0.spec_bytes());
}

/// Mirroring left-to-right twice gives back the bitmap's bytes.
pub proof fn lemma_horizontal_mirror_twice(b0: &Bitmap, b1: &Bitmap, b2: &Bitmap)
    requires
        b0.wf(),
        is_horizontal_mirror(b1, b0),
        is_horizontal_mirror(b2, b1),
    ensures
        b2.same_shape(b0),
        b2.spec_bytes() == b0.spec_bytes(),
{
    assert forall|i: int| 0 <= i < b0.spec_bytes().len() implies #[trigger] b2.spec_bytes()[i] == b0.spec_bytes()[i] by {
        b0.lemma_in_pixels_is_full_rect(i);
        b1.lemma_in_pixels_is_full_rect(i);
        if b0.in_pixels(i) {
            let (x, y, c) = b0.lemma_pixel_of_position(i);
            assert(b2.byte_at(x, y, c) == b1.byte_at(b0.spec_w() - 1 - x, y, c));
            assert(b1.byte_at(b0.spec_w() - 1 - x, y, c) == b0.byte_at(x, y, c));
        }
    }
    assert(b2.spec_bytes() =~= b0.spec_bytes());
}

/// Mirroring top-to-bottom and left-to-right, in either order, gives the same bytes: the
/// bitmap turned by half a turn, pixel `(x, y)` holding pixel `(w - 1 - x, h - 1 - y)`.
pub proof fn lemma_mirrors_commute(b0: &Bitmap, v1: &Bitmap, vh: &Bitmap, h1: &Bitmap, hv: &Bitmap)
    requires
        b0.wf(),
        is_vertical_mirror(v1, b0),
        is_horizontal_mirror(vh, v1),
        is_horizontal_mirror(h1, b0),
        is_vertical_mirror(hv, h1),
    ensures
        vh.same_shape(hv),
        vh.spec_bytes() == hv.spec_bytes(),
        forall|x: int, y: int, c: int|
            0 <= x < b0.spec_w() && 0 <= y < b0.spec_h() && 0 <= c < b0.spec_bpp()
                ==> #[trigger] vh.byte_at(x, y, c) == b0.byte_at(b0.spec_w() - 1 - x, b0.spec_h() - 1 - y, c),
{
    assert forall|x: int, y: int, c: int|
        0 <= x < b0.spec_w() && 0 <= y < b0.spec_h() && 0 <= c < b0.spec_bpp()
            implies #[trigger] vh.byte_at(x, y, c) == b0.byte_at(b0.spec_w() - 1 - x, b0.spec_h() - 1 - y, c) by {
        assert(vh.byte_at(x, y, c) == v1.byte_at(b0.spec_w() - 1 - x, y, c));
        assert(v1.byte_at(b0.spec_w() - 1 - x, y, c) == b0.byte_at(b0.spec_w() - 1 - x, b0.spec_h() - 1 - y, c));
    }
    assert forall|i: int| 0 <= i < b0.spec_bytes().len() implies #[trigger] vh.spec_bytes()[i] == hv.spec_bytes()[i] by {
        b0.lemma_in_pixels_is_full_rect(i);
        v1.lemma_in_pixels_is_full_rect(i);
        h1.lemma_in_pixels_is_full_rect(i);
        if b0.in_pixels(i) {
            let (x, y, c) = b0.lemma_pixel_of_position(i);
            assert(vh.byte_at(x, y, c) == v1.byte_at(b0.spec_w() - 1 - x, y, c));
            assert(v1.byte_at(b0.spec_w() - 1 - x, y, c) == b0.byte_at(b0.spec_w() - 1 - x, b0.spec_h() - 1 - y, c));
            assert(hv.byte_at(x, y, c) == h1.byte_at(x, b0.spec_h() - 1 - y, c));
            assert(h1.byte_at(x, b0.spec_h() - 1 - y, c) == b0.byte_at(b0.spec_w() - 1 - x, b0.spec_h() - 1 - y, c));
        }
    }
    assert(vh.spec_bytes() =~= hv.spec_bytes());
}

} // verus!
