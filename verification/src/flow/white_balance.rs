//! White balance by histogram: each channel is stretched through a byte mapping.
use vstd::prelude::*;
use crate::errors::ErrorKind;
use crate::flow_error::FlowError;
use crate::graphics::bitmaps::Bitmap;

verus! {

/// `after` is `before` with the red, green and blue bytes of every pixel passed through their
/// mapping; alpha and every byte that is not a pixel byte are unchanged.
pub open spec fn mappings_applied(after: &Bitmap, before: &Bitmap, map_red: Seq<u8>, map_green: Seq<u8>,
    map_blue: Seq<u8>) -> bool {
    &&& after.wf()
    &&& after.same_shape(before)
    &&& forall|i: int| 0 <= i < before.spec_bytes().len() && !before.in_pixels(i)
            ==> #[trigger] after.spec_bytes()[i] == before.spec_bytes()[i]
    &&& forall|x: int, y: int, c: int|
            0 <= x < before.spec_w() && 0 <= y < before.spec_h() && 0 <= c < before.spec_bpp()
                ==> #[trigger] after.byte_at(x, y, c) == (if c == 0 {
                    map_blue[before.byte_at(x, y, 0) as int]
                } else if c == 1 {
                    map_green[before.byte_at(x, y, 1) as int]
                } else if c == 2 {
                    map_red[before.byte_at(x, y, 2) as int]
                } else {
                    before.byte_at(x, y, c)
                })
}

/// Passes the red, green and blue bytes of every pixel of a BGRA bitmap through their mappings.
/// A mapping shorter than 256 entries is refused with `InvalidState`, and nothing changes.
pub fn apply_mappings(bitmap: &mut Bitmap, map_red: &[u8], map_green: &[u8], map_blue: &[u8]) -> (r: Result<(), FlowError>)
    requires
        old(bitmap).wf(),
        old(bitmap).spec_bpp() == 4,
    ensures
        r is Err <==> (map_red@.len() < 256 || map_green@.len() < 256 || map_blue@.len() < 256),
        r matches Err(e) ==> e.kind == ErrorKind::InvalidState,
        r is Err ==> *final(bitmap) == *old(bitmap),
        r is Ok ==> mappings_applied(&*final(bitmap), &*old(bitmap), map_red@, map_green@, map_blue@),
{
    if map_red.len() < 256 || map_green.len() < 256 || map_blue.len() < 256 {
        return Err(FlowError::new(ErrorKind::InvalidState));
    }
    let ghost orig = *bitmap;
    let w = bitmap.w();
    let h = bitmap.h();
    let mut y: u32 = 0;
    while y < h
        invariant
            bitmap.wf(),
            orig.wf(),
            bitmap.same_shape(&orig),
            orig.spec_bpp() == 4,
            w == orig.spec_w(), h == orig.spec_h(),
            map_red@.len() >= 256, map_green@.len() >= 256, map_blue@.len() >= 256,
            y <= h,
            forall|i: int| 0 <= i < orig.spec_bytes().len() && !orig.in_pixels(i)
                ==> #[trigger] bitmap.spec_bytes()[i] == orig.spec_bytes()[i],
            forall|px: int, py: int, c: int|
                0 <= px < orig.spec_w() && 0 <= py < orig.spec_h() && 0 <= c < orig.spec_bpp()
                    ==> #[trigger] bitmap.byte_at(px, py, c) == (if py < y && c == 0 {
                        map_blue@[orig.byte_at(px, py, 0) as int]
                    } else if py < y && c == 1 {
                        map_green@[orig.byte_at(px, py, 1) as int]
                    } else if py < y && c == 2 {
                        map_red@[orig.byte_at(px, py, 2) as int]
                    } else {
                        orig.byte_at(px, py, c)
                    }),
        decreases h - y,
    {
        let mut x: u32 = 0;
        while x < w
            invariant
                bitmap.wf(),
                orig.wf(),
                bitmap.same_shape(&orig),
                orig.spec_bpp() == 4,
                w == orig.spec_w(), h == orig.spec_h(),
                map_red@.len() >= 256, map_green@.len() >= 256, map_blue@.len() >= 256,
                y < h,
                x <= w,
                forall|i: int| 0 <= i < orig.spec_bytes().len() && !orig.in_pixels(i)
                    ==> #[trigger] bitmap.spec_bytes()[i] == orig.spec_bytes()[i],
                forall|px: int, py: int, c: int|
                    0 <= px < orig.spec_w() && 0 <= py < orig.spec_h() && 0 <= c < orig.spec_bpp()
                        ==> #[trigger] bitmap.byte_at(px, py, c) == (if (py < y || (py == y && px < x)) && c == 0 {
                            map_blue@[orig.byte_at(px, py, 0) as int]
                        } else if (py < y || (py == y && px < x)) && c == 1 {
                            map_green@[orig.byte_at(px, py, 1) as int]
                        } else if (py < y || (py == y && px < x)) && c == 2 {
                            map_red@[orig.byte_at(px, py, 2) as int]
                        } else {
                            orig.byte_at(px, py, c)
                        }),
            decreases w - x,
        {
            let b0 = bitmap.read_byte(x, y, 0);
            let g0 = bitmap.read_byte(x, y, 1);
            let r0 = bitmap.read_byte(x, y, 2);
            let ghost s0 = *bitmap;
            bitmap.write_byte(x, y, 0, map_blue[b0 as usize]);
            proof { Bitmap::lemma_byte_write_frame(&s0, &*bitmap, x as int, y as int, 0, map_blue@[b0 as int]); }
            let ghost s1 = *bitmap;
            bitmap.write_byte(x, y, 1, map_green[g0 as usize]);
            proof { Bitmap::lemma_byte_write_frame(&s1, &*bitmap, x as int, y as int, 1, map_green@[g0 as int]); }
            let ghost s2 = *bitmap;
            bitmap.write_byte(x, y, 2, map_red[r0 as usize]);
            proof { Bitmap::lemma_byte_write_frame(&s2, &*bitmap, x as int, y as int, 2, map_red@[r0 as int]); }
            x = x + 1;
        }
        y = y + 1;
    }
    Ok(())
}

/// Balances the white of an image by stretching each channel's histogram.
#[derive(Debug, Clone)]
pub struct WhiteBalanceSrgbMutDef;

} // verus!
