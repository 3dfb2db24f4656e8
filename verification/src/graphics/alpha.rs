//! Making the alpha channel of BGRA bitmaps opaque.
use vstd::prelude::*;
use crate::errors::ErrorKind;
use crate::flow_error::FlowError;
use crate::graphics::bitmaps::{Bitmap, PixelFormat, PixelLayout};

verus! {

/// `after` is `before` with the alpha byte (byte 3) of every pixel set to 255; all other bytes,
/// padding included, are unchanged.
pub open spec fn is_alpha_filled(after: &Bitmap, before: &Bitmap) -> bool {
    &&& after.wf()
    &&& after.same_shape(before)
    &&& alpha_filled_bytes(after, before)
}

/// The bytes of `after` are those of `before` with byte 3 of every pixel set to 255.
pub open spec fn alpha_filled_bytes(after: &Bitmap, before: &Bitmap) -> bool {
    &&& forall|i: int| 0 <= i < before.spec_bytes().len() && !before.in_pixels(i)
            ==> #[trigger] after.spec_bytes()[i] == before.spec_bytes()[i]
    &&& forall|x: int, y: int, c: int|
            0 <= x < before.spec_w() && 0 <= y < before.spec_h() && 0 <= c < before.spec_bpp()
                ==> #[trigger] after.byte_at(x, y, c) == (if c == 3 { 255u8 } else { before.byte_at(x, y, c) })
}

impl Bitmap {
    /// Sets the alpha byte of every pixel to 255. Only BGRA bitmaps have one; any other layout is
    /// refused with `InvalidArgument` and left as it is.
    pub fn set_alpha_to_255(&mut self) -> (r: Result<(), FlowError>)
        requires
            old(self).wf(),
        ensures
            r is Err <==> old(self).spec_info().pixel_layout != PixelLayout::BGRA,
            r matches Err(e) ==> e.kind == ErrorKind::InvalidArgument,
            r is Err ==> *final(self) == *old(self),
            r is Ok ==> is_alpha_filled(&*final(self), &*old(self)),
    {
        if self.info().info.pixel_layout != PixelLayout::BGRA {
            return Err(FlowError::with_message(ErrorKind::InvalidArgument, "Bitmap is not BGRA"));
        }
        let ghost orig = *self;
        let w = self.w();
        let h = self.h();
        let mut y: u32 = 0;
        while y < h
            invariant
                self.wf(),
                orig.wf(),
                self.same_shape(&orig),
                orig.spec_bpp() == 4,
                w == orig.spec_w(), h == orig.spec_h(),
                y <= h,
                forall|i: int| 0 <= i < orig.spec_bytes().len() && !orig.in_pixels(i)
                    ==> #[trigger] self.spec_bytes()[i] == orig.spec_bytes()[i],
                forall|px: int, py: int, c: int|
                    0 <= px < orig.spec_w() && 0 <= py < orig.spec_h() && 0 <= c < orig.spec_bpp()
                        ==> #[trigger] self.byte_at(px, py, c) == (if c == 3 && py < y { 255u8 } else {
                            orig.byte_at(px, py, c)
                        }),
            decreases h - y,
        {
            let mut x: u32 = 0;
            while x < w
                invariant
                    self.wf(),
                    orig.wf(),
                    self.same_shape(&orig),
                    orig.spec_bpp() == 4,
                    w == orig.spec_w(), h == orig.spec_h(),
                    y < h,
                    x <= w,
                    forall|i: int| 0 <= i < orig.spec_bytes().len() && !orig.in_pixels(i)
                        ==> #[trigger] self.spec_bytes()[i] == orig.spec_bytes()[i],
                    forall|px: int, py: int, c: int|
                        0 <= px < orig.spec_w() && 0 <= py < orig.spec_h() && 0 <= c < orig.spec_bpp()
                            ==> #[trigger] self.byte_at(px, py, c) == (if c == 3 && (py < y || (py == y && px < x)) {
                                255u8
                            } else {
                                orig.byte_at(px, py, c)
                            }),
                decreases w - x,
            {
                let ghost before = *self;
                self.write_byte(x, y, 3, 255);
                proof {
                    Bitmap::lemma_byte_write_frame(&before, &*self, x as int, y as int, 3, 255u8);
                }
                x = x + 1;
            }
            y = y + 1;
        }
        Ok(())
    }

    /// Where alpha is not meaningful, sets it to 255 so that every pixel reads as opaque.
    /// A bitmap whose alpha is meaningful is left as it is.
    pub fn normalize_unused_alpha(&mut self) -> (r: Result<(), FlowError>)
        requires
            old(self).wf(),
        ensures
            r is Err <==> (!old(self).spec_info().alpha_meaningful
                && old(self).spec_info().pixel_layout != PixelLayout::BGRA),
            r matches Err(e) ==> e.kind == ErrorKind::InvalidArgument,
            old(self).spec_info().alpha_meaningful || r is Err ==> *final(self) == *old(self),
            !old(self).spec_info().alpha_meaningful && r is Ok ==> is_alpha_filled(&*final(self), &*old(self)),
    {
        if self.info().info.alpha_meaningful {
            return Ok(());
        }
        self.set_alpha_to_255()
    }

    /// A BGR bitmap with a fourth unused byte gets that byte set to 255 in every pixel; any other
    /// bitmap is left as it is.
    pub fn normalize_alpha(&mut self) -> (r: Result<(), FlowError>)
        requires
            old(self).wf(),
        ensures
            r is Ok,
            old(self).spec_format() == PixelFormat::Bgr32 ==> is_alpha_filled(&*final(self), &*old(self)),
            old(self).spec_format() != PixelFormat::Bgr32 ==> *final(self) == *old(self),
    {
        let info = self.info();
        if info.info.pixel_layout == PixelLayout::BGRA && !info.info.alpha_meaningful {
            match self.set_alpha_to_255() {
                Ok(()) => {},
                Err(e) => return Err(e),
            }
        }
        Ok(())
    }
}

} // verus!
