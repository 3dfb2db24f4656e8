//! 8-bit bitmaps: a byte buffer, an offset to the first pixel, dimensions, a row stride and
//! the surface description (layout, alpha, color space, compositing).
use vstd::prelude::*;
use vstd::arithmetic::div_mod::lemma_fundamental_div_mod_converse;
use vstd::arithmetic::mul::lemma_mul_inequality;
use crate::errors::ErrorKind;
use crate::flow_error::FlowError;

verus! {

/// The pixel formats of 8-bit bitmaps.
#[derive(Debug, Copy, Clone, PartialEq, Eq, Structural)]
pub enum PixelFormat {
    Bgra32,
    Bgr32,
    Bgr24,
    Gray8,
}

impl PixelFormat {
    /// Bytes per pixel.
    pub open spec fn spec_bytes(self) -> nat {
        match self {
            PixelFormat::Bgra32 => 4,
            PixelFormat::Bgr32 => 4,
            PixelFormat::Bgr24 => 3,
            PixelFormat::Gray8 => 1,
        }
    }

    /// Bytes per pixel.
    pub fn bytes(&self) -> (r: usize)
        ensures
            r == self.spec_bytes(),
    {
        match *self {
            PixelFormat::Bgra32 => 4,
            PixelFormat::Bgr32 => 4,
            PixelFormat::Bgr24 => 3,
            PixelFormat::Gray8 => 1,
        }
    }
}

/// Bytes per pixel of a pixel format.
pub fn flow_pixel_format_bytes_per_pixel(format: PixelFormat) -> (r: u32)
    ensures
        r == format.spec_bytes(),
{
    format.bytes() as u32
}

/// The number of channels that carry color in a pixel format: alpha counts only where it is
/// meaningful (BGRA), not in BGR with a fourth unused byte.
pub fn flow_pixel_format_channels(format: PixelFormat) -> (r: u32)
    ensures
        r == (match format {
            PixelFormat::Bgra32 => 4u32,
            PixelFormat::Bgr32 => 3u32,
            PixelFormat::Bgr24 => 3u32,
            PixelFormat::Gray8 => 1u32,
        }),
{
    match format {
        PixelFormat::Bgra32 => 4,
        PixelFormat::Bgr32 => 3,
        PixelFormat::Bgr24 => 3,
        PixelFormat::Gray8 => 1,
    }
}

/// The channel layouts of 8-bit bitmaps.
#[derive(Debug, Copy, Clone, PartialEq, Eq, Structural)]
pub enum PixelLayout {
    BGR,
    BGRA,
    Gray,
}

impl PixelLayout {
    /// Channels (bytes) per pixel.
    pub open spec fn spec_channels(self) -> nat {
        match self {
            PixelLayout::BGR => 3,
            PixelLayout::BGRA => 4,
            PixelLayout::Gray => 1,
        }
    }

    /// Channels (bytes) per pixel.
    pub fn channels(&self) -> (r: usize)
        ensures
            r == self.spec_channels(),
    {
        match *self {
            PixelLayout::BGR => 3,
            PixelLayout::BGRA => 4,
            PixelLayout::Gray => 1,
        }
    }
}

#[derive(Copy, Clone, Debug, Eq, PartialEq, Structural)]
pub enum ColorSpace {
    StandardRGB,
    LinearRGB,
}

/// A 32-bit color, `0xAARRGGBB`.
#[derive(Copy, Clone, Debug, Eq, PartialEq, Structural)]
pub struct Color32(pub u32);

/// One BGRA pixel.
#[derive(Copy, Clone, Debug, Eq, PartialEq, Structural)]
pub struct Bgra8 {
    pub b: u8,
    pub g: u8,
    pub r: u8,
    pub a: u8,
}

impl Color32 {
    /// The channels of the color as a BGRA pixel.
    pub open spec fn spec_bgra(self) -> Bgra8 {
        Bgra8 {
            b: (self.0 % 256) as u8,
            g: ((self.0 / 256) % 256) as u8,
            r: ((self.0 / 65536) % 256) as u8,
            a: (self.0 / 16777216) as u8,
        }
    }

    /// The channels of the color as a BGRA pixel.
    pub fn to_bgra8(&self) -> (p: Bgra8)
        ensures
            p == self.spec_bgra(),
    {
        Bgra8 {
            b: (self.0 % 256) as u8,
            g: ((self.0 / 256) % 256) as u8,
            r: ((self.0 / 65536) % 256) as u8,
            a: (self.0 / 16777216) as u8,
        }
    }
}

/// How a bitmap is composed onto what lies below it.
#[derive(Copy, Clone, Debug, PartialEq, Eq, Structural)]
pub enum BitmapCompositing {
    ReplaceSelf,
    BlendWithSelf,
    BlendWithMatte(Color32),
}

#[derive(Clone, Debug)]
pub struct SurfaceInfo {
    pub alpha_premultiplied: bool,
    pub alpha_meaningful: bool,
    pub color_space: ColorSpace,
    pub pixel_layout: PixelLayout,
    pub compose: BitmapCompositing,
}

/// The pixel format of a surface: BGR is `Bgr24`, BGRA is `Bgra32` when alpha is meaningful
/// and `Bgr32` otherwise, Gray is `Gray8`.
pub open spec fn spec_pixel_format(layout: PixelLayout, alpha_meaningful: bool) -> PixelFormat {
    match layout {
        PixelLayout::BGR => PixelFormat::Bgr24,
        PixelLayout::BGRA => if alpha_meaningful { PixelFormat::Bgra32 } else { PixelFormat::Bgr32 },
        PixelLayout::Gray => PixelFormat::Gray8,
    }
}

impl SurfaceInfo {
    pub fn alpha_premultiplied(&self) -> (r: bool)
        ensures r == self.alpha_premultiplied,
    {
        self.alpha_premultiplied
    }

    pub fn pixel_layout(&self) -> (r: PixelLayout)
        ensures r == self.pixel_layout,
    {
        self.pixel_layout
    }

    pub fn color_space(&self) -> (r: ColorSpace)
        ensures r == self.color_space,
    {
        self.color_space
    }

    pub fn alpha_meaningful(&self) -> (r: bool)
        ensures r == self.alpha_meaningful,
    {
        self.alpha_meaningful
    }

    pub fn compose(&self) -> (r: &BitmapCompositing)
        ensures *r == self.compose,
    {
        &self.compose
    }

    /// The pixel format of the surface; every layout has one, so this never fails.
    pub fn calculate_pixel_format(&self) -> (r: Result<PixelFormat, FlowError>)
        ensures
            r == Ok::<PixelFormat, FlowError>(spec_pixel_format(self.pixel_layout, self.alpha_meaningful)),
    {
        Ok(match self.pixel_layout {
            PixelLayout::BGR => PixelFormat::Bgr24,
            PixelLayout::BGRA => if self.alpha_meaningful { PixelFormat::Bgra32 } else { PixelFormat::Bgr32 },
            PixelLayout::Gray => PixelFormat::Gray8,
        })
    }
}

#[derive(Clone, Debug)]
pub struct BitmapInfo {
    pub w: u32,
    pub h: u32,
    /// Row stride, in bytes
    pub t_stride: u32,
    pub t_per_pixel: u32,
    pub info: SurfaceInfo,
}

impl BitmapInfo {
    pub fn width(&self) -> (r: u32) ensures r == self.w, { self.w }
    pub fn height(&self) -> (r: u32) ensures r == self.h, { self.h }
    pub fn surface_info(&self) -> (r: &SurfaceInfo) ensures *r == self.info, { &self.info }
    /// Row stride
    pub fn t_stride(&self) -> (r: u32) ensures r == self.t_stride, { self.t_stride }
    pub fn t_per_pixel(&self) -> (r: usize) ensures r == self.t_per_pixel, { self.t_per_pixel as usize }
    pub fn pixel_layout(&self) -> (r: PixelLayout) ensures r == self.info.pixel_layout, { self.info.pixel_layout }
    pub fn color_space(&self) -> (r: ColorSpace) ensures r == self.info.color_space, { self.info.color_space }
    pub fn alpha_premultiplied(&self) -> (r: bool) ensures r == self.info.alpha_premultiplied, { self.info.alpha_premultiplied }
    pub fn alpha_meaningful(&self) -> (r: bool) ensures r == self.info.alpha_meaningful, { self.info.alpha_meaningful }
    pub fn compose(&self) -> (r: &BitmapCompositing) ensures *r == self.info.compose, { &self.info.compose }

    /// The pixel format of the surface.
    pub fn calculate_pixel_format(&self) -> (r: Result<PixelFormat, FlowError>)
        ensures
            r == Ok::<PixelFormat, FlowError>(spec_pixel_format(self.info.pixel_layout, self.info.alpha_meaningful)),
    {
        self.info.calculate_pixel_format()
    }
}

/// An 8-bit bitmap. The pixel at column `x`, row `y` begins at byte
/// `offset + y * stride + x * bytes_per_pixel` of the buffer.
#[derive(Debug)]
pub struct Bitmap {
    pub(crate) buffer: Vec<u8>,
    pub(crate) offset: u32,
    pub(crate) info: BitmapInfo,
    pub(crate) cropped: bool,
}

/// Position `i` of a buffer whose rows start at `base` with stride `stride` lies in rows `y0..y1`,
/// at byte columns `b0..b1` within its row.
pub open spec fn in_region(i: int, base: int, stride: int, y0: int, y1: int, b0: int, b1: int) -> bool {
    i >= base && y0 <= (i - base) / stride < y1 && b0 <= (i - base) % stride < b1
}

/// The byte at row `y`, byte column `b` of a row-strided buffer lies in the region exactly when `(y, b)` does.
pub proof fn lemma_region_position(base: int, stride: int, y: int, b: int)
    requires
        0 <= b < stride,
        0 <= y,
    ensures
        (base + y * stride + b - base) / stride == y,
        (base + y * stride + b - base) % stride == b,
        base + y * stride + b >= base,
{
    lemma_fundamental_div_mod_converse(y * stride + b, stride, y, b);
    lemma_mul_inequality(0, y, stride);
}

/// Rows `y0 <= y < y1`, byte columns `b0 <= b < b1` with `b1 <= row_len <= stride` lie before
/// `base + (h - 1) * stride + row_len` when `y1 <= h`.
pub proof fn lemma_position_bound(base: int, stride: int, h: int, row_len: int, y: int, b: int)
    requires
        0 <= y < h,
        0 <= b < row_len <= stride,
    ensures
        base + y * stride + b < base + (h - 1) * stride + row_len,
        0 <= y * stride,
{
    lemma_mul_inequality(y, h - 1, stride);
    lemma_mul_inequality(0, y, stride);
}

impl Bitmap {
    pub closed spec fn spec_w(&self) -> nat { self.info.w as nat }
    pub closed spec fn spec_h(&self) -> nat { self.info.h as nat }
    pub closed spec fn spec_stride(&self) -> nat { self.info.t_stride as nat }
    pub closed spec fn spec_bpp(&self) -> nat { self.info.t_per_pixel as nat }
    pub closed spec fn spec_offset(&self) -> nat { self.offset as nat }
    pub closed spec fn spec_bytes(&self) -> Seq<u8> { self.buffer@ }
    pub closed spec fn spec_info(&self) -> SurfaceInfo { self.info.info }
    pub closed spec fn spec_cropped(&self) -> bool { self.cropped }

    /// The pixel format of the bitmap.
    pub open spec fn spec_format(&self) -> PixelFormat {
        spec_pixel_format(self.spec_info().pixel_layout, self.spec_info().alpha_meaningful)
    }

    /// The position of byte `c` of the pixel at column `x`, row `y`.
    pub open spec fn pos(&self, x: int, y: int, c: int) -> int {
        self.spec_offset() + y * self.spec_stride() + x * self.spec_bpp() + c
    }

    /// Byte `c` of the pixel at column `x`, row `y`.
    pub open spec fn byte_at(&self, x: int, y: int, c: int) -> u8 {
        self.spec_bytes()[self.pos(x, y, c)]
    }

    /// Position `i` of the buffer is one of the pixel bytes of the rectangle of columns
    /// `x0..x1` and rows `y0..y1`.
    pub open spec fn in_rect(&self, i: int, x0: int, x1: int, y0: int, y1: int) -> bool {
        in_region(i, self.spec_offset() as int, self.spec_stride() as int, y0, y1,
            x0 * self.spec_bpp(), x1 * self.spec_bpp())
    }

    /// The buffer holds every pixel of the bitmap; the bytes per pixel match the layout;
    /// the dimensions are positive and the buffer is addressable with 32-bit positions.
    pub open spec fn wf(&self) -> bool {
        &&& self.spec_w() >= 1
        &&& self.spec_h() >= 1
        &&& self.spec_bpp() == self.spec_info().pixel_layout.spec_channels()
        &&& self.spec_stride() >= self.spec_w() * self.spec_bpp()
        &&& self.spec_offset() + (self.spec_h() - 1) * self.spec_stride() + self.spec_w() * self.spec_bpp()
            <= self.spec_bytes().len()
        &&& self.spec_bytes().len() <= u32::MAX
        &&& self.spec_w() <= u32::MAX
        &&& self.spec_h() <= u32::MAX
    }

    /// The same buffer, dimensions and surface, with every byte outside the rectangle unchanged.
    pub open spec fn same_outside(&self, other: &Bitmap, x0: int, x1: int, y0: int, y1: int) -> bool {
        &&& self.spec_w() == other.spec_w()
        &&& self.spec_h() == other.spec_h()
        &&& self.spec_stride() == other.spec_stride()
        &&& self.spec_bpp() == other.spec_bpp()
        &&& self.spec_offset() == other.spec_offset()
        &&& self.spec_info() == other.spec_info()
        &&& self.spec_cropped() == other.spec_cropped()
        &&& self.spec_bytes().len() == other.spec_bytes().len()
        &&& forall|i: int|
            0 <= i < self.spec_bytes().len() && !other.in_rect(i, x0, x1, y0, y1)
                ==> #[trigger] self.spec_bytes()[i] == other.spec_bytes()[i]
    }

    pub fn offset(&self) -> (r: u32) ensures r == self.spec_offset(), { self.offset }
    /// The length of the whole buffer, in bytes.
    pub fn buffer_len(&self) -> (r: usize) ensures r == self.spec_bytes().len(), { self.buffer.len() }
    pub fn info(&self) -> (r: &BitmapInfo)
        ensures
            r.w == self.spec_w(),
            r.h == self.spec_h(),
            r.t_stride == self.spec_stride(),
            r.t_per_pixel == self.spec_bpp(),
            r.info == self.spec_info(),
    {
        &self.info
    }
    pub fn size(&self) -> (r: (usize, usize))
        ensures r == (self.spec_w() as usize, self.spec_h() as usize),
    {
        (self.info.w as usize, self.info.h as usize)
    }
    /// The frame of this bitmap: its dimensions and pixel format.
    pub fn frame_info(&self) -> (r: crate::flow::definitions::FrameInfo)
        ensures
            r == (crate::flow::definitions::FrameInfo {
                w: self.spec_w() as i32,
                h: self.spec_h() as i32,
                fmt: self.spec_format(),
            }),
    {
        let fmt = match self.info.calculate_pixel_format() {
            Ok(f) => f,
            Err(_) => PixelFormat::Bgra32,
        };
        crate::flow::definitions::FrameInfo { w: self.info.w as i32, h: self.info.h as i32, fmt }
    }

    pub fn w(&self) -> (r: u32) ensures r == self.spec_w(), { self.info.w }
    pub fn h(&self) -> (r: u32) ensures r == self.spec_h(), { self.info.h }
    pub fn is_cropped(&self) -> (r: bool) ensures r == self.spec_cropped(), { self.cropped }

    pub fn set_alpha_meaningful(&mut self, value: bool)
        ensures
            final(self).spec_info() == (SurfaceInfo { alpha_meaningful: value, ..old(self).spec_info() }),
            final(self).spec_bytes() == old(self).spec_bytes(),
            final(self).spec_w() == old(self).spec_w(),
            final(self).spec_h() == old(self).spec_h(),
            final(self).spec_stride() == old(self).spec_stride(),
            final(self).spec_bpp() == old(self).spec_bpp(),
            final(self).spec_offset() == old(self).spec_offset(),
            final(self).spec_cropped() == old(self).spec_cropped(),
    {
        self.info.info.alpha_meaningful = value;
    }

    pub fn set_compositing(&mut self, value: BitmapCompositing)
        ensures
            final(self).spec_info() == (SurfaceInfo { compose: value, ..old(self).spec_info() }),
            final(self).spec_bytes() == old(self).spec_bytes(),
            final(self).spec_w() == old(self).spec_w(),
            final(self).spec_h() == old(self).spec_h(),
            final(self).spec_stride() == old(self).spec_stride(),
            final(self).spec_bpp() == old(self).spec_bpp(),
            final(self).spec_offset() == old(self).spec_offset(),
            final(self).spec_cropped() == old(self).spec_cropped(),
    {
        self.info.info.compose = value;
    }
}

} // verus!

verus! {

/// Byte column `x * bpp + c` of a pixel column `x < w` and channel `c < bpp` lies before `w * bpp`,
/// and determines `x` and `c`.
pub proof fn lemma_pixel_column(x: int, c: int, bpp: int, w: int)
    requires
        0 <= x < w,
        0 <= c < bpp,
    ensures
        0 <= x * bpp + c < w * bpp,
        (x * bpp + c) / bpp == x,
        (x * bpp + c) % bpp == c,
{
    lemma_mul_inequality(x + 1, w, bpp);
    lemma_mul_inequality(0, x, bpp);
    assert((x + 1) * bpp == x * bpp + bpp) by (nonlinear_arith);
    lemma_fundamental_div_mod_converse(x * bpp + c, bpp, x, c);
}

impl Bitmap {
    /// Where byte `c` of pixel `(x, y)` lies: inside the buffer, in row `y` of the bitmap,
    /// at byte column `x * bpp + c`.
    pub proof fn lemma_pixel_pos(&self, x: int, y: int, c: int)
        requires
            self.wf(),
            0 <= x < self.spec_w(),
            0 <= y < self.spec_h(),
            0 <= c < self.spec_bpp(),
        ensures
            0 <= self.pos(x, y, c) < self.spec_bytes().len(),
            self.pos(x, y, c) >= self.spec_offset(),
            (self.pos(x, y, c) - self.spec_offset()) / (self.spec_stride() as int) == y,
            (self.pos(x, y, c) - self.spec_offset()) % (self.spec_stride() as int) == x * self.spec_bpp() + c,
            0 <= x * self.spec_bpp() + c < self.spec_w() * self.spec_bpp(),
    {
        let bpp = self.spec_bpp() as int;
        let stride = self.spec_stride() as int;
        lemma_pixel_column(x, c, bpp, self.spec_w() as int);
        lemma_region_position(self.spec_offset() as int, stride, y, x * bpp + c);
        lemma_position_bound(self.spec_offset() as int, stride, self.spec_h() as int,
            self.spec_w() * bpp, y, x * bpp + c);
        assert(self.pos(x, y, c) == self.spec_offset() + y * stride + (x * bpp + c));
    }

    /// Byte positions of distinct pixel channels are distinct.
    pub proof fn lemma_pos_distinct(&self, x1: int, y1: int, c1: int, x2: int, y2: int, c2: int)
        requires
            self.wf(),
            0 <= x1 < self.spec_w(), 0 <= y1 < self.spec_h(), 0 <= c1 < self.spec_bpp(),
            0 <= x2 < self.spec_w(), 0 <= y2 < self.spec_h(), 0 <= c2 < self.spec_bpp(),
            self.pos(x1, y1, c1) == self.pos(x2, y2, c2),
        ensures
            x1 == x2 && y1 == y2 && c1 == c2,
    {
        self.lemma_pixel_pos(x1, y1, c1);
        self.lemma_pixel_pos(x2, y2, c2);
        lemma_pixel_column(x1, c1, self.spec_bpp() as int, self.spec_w() as int);
        lemma_pixel_column(x2, c2, self.spec_bpp() as int, self.spec_w() as int);
    }

    /// A pixel byte lies in a rectangle exactly when its pixel does.
    pub proof fn lemma_pos_in_rect(&self, x: int, y: int, c: int, x0: int, x1: int, y0: int, y1: int)
        requires
            self.wf(),
            0 <= x < self.spec_w(), 0 <= y < self.spec_h(), 0 <= c < self.spec_bpp(),
            0 <= x0, x1 <= self.spec_w(),
        ensures
            self.in_rect(self.pos(x, y, c), x0, x1, y0, y1) <==> (x0 <= x < x1 && y0 <= y < y1),
    {
        let bpp = self.spec_bpp() as int;
        self.lemma_pixel_pos(x, y, c);
        if x0 <= x {
            lemma_mul_inequality(x0, x, bpp);
        } else {
            lemma_mul_inequality(x + 1, x0, bpp);
            assert((x + 1) * bpp == x * bpp + bpp) by (nonlinear_arith);
        }
        if x < x1 {
            lemma_mul_inequality(x + 1, x1, bpp);
            assert((x + 1) * bpp == x * bpp + bpp) by (nonlinear_arith);
        } else {
            lemma_mul_inequality(x1, x, bpp);
        }
    }

    /// Computes the position of byte `c` of pixel `(x, y)`.
    pub(crate) fn byte_pos(&self, x: u32, y: u32, c: u32) -> (p: usize)
        requires
            self.wf(),
            x < self.spec_w(),
            y < self.spec_h(),
            c < self.spec_bpp(),
        ensures
            p == self.pos(x as int, y as int, c as int),
            p < self.spec_bytes().len(),
    {
        proof {
            self.lemma_pixel_pos(x as int, y as int, c as int);
            lemma_mul_inequality(0, y as int, self.spec_stride() as int);
            lemma_mul_inequality(0, x as int, self.spec_bpp() as int);
        }
        self.offset as usize + y as usize * self.info.t_stride as usize
            + x as usize * self.info.t_per_pixel as usize + c as usize
    }

    /// Writes byte `c` of pixel `(x, y)`.
    pub(crate) fn write_byte(&mut self, x: u32, y: u32, c: u32, v: u8)
        requires
            old(self).wf(),
            x < old(self).spec_w(),
            y < old(self).spec_h(),
            c < old(self).spec_bpp(),
        ensures
            final(self).spec_bytes() == old(self).spec_bytes().update(old(self).pos(x as int, y as int, c as int), v),
            final(self).spec_w() == old(self).spec_w(),
            final(self).spec_h() == old(self).spec_h(),
            final(self).spec_stride() == old(self).spec_stride(),
            final(self).spec_bpp() == old(self).spec_bpp(),
            final(self).spec_offset() == old(self).spec_offset(),
            final(self).spec_info() == old(self).spec_info(),
            final(self).spec_cropped() == old(self).spec_cropped(),
            final(self).wf(),
            final(self).same_shape(&*old(self)),
    {
        let p = self.byte_pos(x, y, c);
        self.buffer.set(p, v);
    }

    /// Reads byte `c` of pixel `(x, y)`.
    pub(crate) fn read_byte(&self, x: u32, y: u32, c: u32) -> (v: u8)
        requires
            self.wf(),
            x < self.spec_w(),
            y < self.spec_h(),
            c < self.spec_bpp(),
        ensures
            v == self.byte_at(x as int, y as int, c as int),
    {
        let p = self.byte_pos(x, y, c);
        self.buffer[p]
    }

    /// Every pixel byte outside `except` keeps its value, and so does every byte that is not a pixel byte.
    pub open spec fn same_pixels_except(&self, other: &Bitmap, except: spec_fn(int, int) -> bool) -> bool {
        &&& self.same_shape(other)
        &&& forall|i: int| 0 <= i < other.spec_bytes().len() && !other.in_pixels(i)
                ==> #[trigger] self.spec_bytes()[i] == other.spec_bytes()[i]
        &&& forall|px: int, py: int, c: int|
                0 <= px < other.spec_w() && 0 <= py < other.spec_h() && 0 <= c < other.spec_bpp()
                    && !except(px, py)
                    ==> #[trigger] self.byte_at(px, py, c) == other.byte_at(px, py, c)
    }

    /// Every pixel byte of the bitmap is byte `c` of some pixel `(x, y)`.
    pub proof fn lemma_pixel_of_position(&self, i: int) -> (r: (int, int, int))
        requires
            self.wf(),
            self.in_pixels(i),
        ensures
            0 <= r.0 < self.spec_w(),
            0 <= r.1 < self.spec_h(),
            0 <= r.2 < self.spec_bpp(),
            self.pos(r.0, r.1, r.2) == i,
    {
        let stride = self.spec_stride() as int;
        let bpp = self.spec_bpp() as int;
        let off = self.spec_offset() as int;
        let y = (i - off) / stride;
        let k = (i - off) % stride;
        let x = k / bpp;
        let c = k % bpp;
        assert(i - off == y * stride + k) by (nonlinear_arith) requires stride > 0, y == (i - off) / stride, k == (i - off) % stride;
        assert(k == x * bpp + c) by (nonlinear_arith) requires bpp > 0, x == k / bpp, c == k % bpp;
        assert(x < self.spec_w()) by (nonlinear_arith)
            requires bpp > 0, x == k / bpp, 0 <= k, k < self.spec_w() * bpp;
        assert(0 <= x) by (nonlinear_arith) requires bpp > 0, x == k / bpp, 0 <= k;
        (x, y, c)
    }

    /// After one byte write, every other pixel byte and every non-pixel byte keeps its value.
    pub proof fn lemma_byte_write_frame(before: &Bitmap, after: &Bitmap, x: int, y: int, c: int, v: u8)
        requires
            before.wf(),
            after.same_shape(before),
            0 <= x < before.spec_w(), 0 <= y < before.spec_h(), 0 <= c < before.spec_bpp(),
            after.spec_bytes() == before.spec_bytes().update(before.pos(x, y, c), v),
        ensures
            forall|i: int| 0 <= i < before.spec_bytes().len() && !before.in_pixels(i)
                ==> #[trigger] after.spec_bytes()[i] == before.spec_bytes()[i],
            forall|px: int, py: int, cc: int|
                0 <= px < before.spec_w() && 0 <= py < before.spec_h() && 0 <= cc < before.spec_bpp()
                    ==> #[trigger] after.byte_at(px, py, cc) == (if px == x && py == y && cc == c { v } else {
                        before.byte_at(px, py, cc)
                    }),
    {
        before.lemma_pixel_pos(x, y, c);
        assert forall|i: int| 0 <= i < before.spec_bytes().len() && !before.in_pixels(i)
            implies #[trigger] after.spec_bytes()[i] == before.spec_bytes()[i] by {
            assert(i != before.pos(x, y, c));
        }
        assert forall|px: int, py: int, cc: int|
            0 <= px < before.spec_w() && 0 <= py < before.spec_h() && 0 <= cc < before.spec_bpp()
            implies #[trigger] after.byte_at(px, py, cc) == (if px == x && py == y && cc == c { v } else {
                before.byte_at(px, py, cc)
            }) by {
            before.lemma_pixel_pos(px, py, cc);
            if before.pos(px, py, cc) == before.pos(x, y, c) {
                before.lemma_pos_distinct(px, py, cc, x, y, c);
            }
        }
    }

    /// Exchanges the bytes of pixels `(x1, y)` and `(x2, y)`; nothing else changes.
    pub(crate) fn swap_pixels(&mut self, x1: u32, x2: u32, y: u32)
        requires
            old(self).wf(),
            x1 < old(self).spec_w(),
            x2 < old(self).spec_w(),
            x1 != x2,
            y < old(self).spec_h(),
        ensures
            final(self).wf(),
            final(self).same_pixels_except(&*old(self), |px: int, py: int| py == y && (px == x1 || px == x2)),
            forall|c: int| 0 <= c < old(self).spec_bpp() ==> #[trigger] final(self).byte_at(x1 as int, y as int, c)
                == old(self).byte_at(x2 as int, y as int, c),
            forall|c: int| 0 <= c < old(self).spec_bpp() ==> #[trigger] final(self).byte_at(x2 as int, y as int, c)
                == old(self).byte_at(x1 as int, y as int, c),
    {
        let ghost orig = *self;
        let bpp = self.info.t_per_pixel;
        let mut c: u32 = 0;
        while c < bpp
            invariant
                self.wf(),
                orig.wf(),
                self.same_shape(&orig),
                bpp == orig.spec_bpp(),
                x1 < orig.spec_w(), x2 < orig.spec_w(), x1 != x2, y < orig.spec_h(),
                c <= bpp,
                forall|i: int| 0 <= i < orig.spec_bytes().len() && !orig.in_pixels(i)
                    ==> #[trigger] self.spec_bytes()[i] == orig.spec_bytes()[i],
                forall|px: int, py: int, cc: int|
                    0 <= px < orig.spec_w() && 0 <= py < orig.spec_h() && 0 <= cc < orig.spec_bpp()
                        ==> #[trigger] self.byte_at(px, py, cc) == (
                            if py == y && px == x1 && cc < c { orig.byte_at(x2 as int, y as int, cc) }
                            else if py == y && px == x2 && cc < c { orig.byte_at(x1 as int, y as int, cc) }
                            else { orig.byte_at(px, py, cc) }),
            decreases bpp - c,
        {
            let ghost before = *self;
            let a = self.read_byte(x1, y, c);
            let b = self.read_byte(x2, y, c);
            self.write_byte(x1, y, c, b);
            self.write_byte(x2, y, c, a);
            proof {
                let p1 = before.pos(x1 as int, y as int, c as int);
                let p2 = before.pos(x2 as int, y as int, c as int);
                before.lemma_pixel_pos(x1 as int, y as int, c as int);
                before.lemma_pixel_pos(x2 as int, y as int, c as int);
                assert(p1 != p2) by {
                    if p1 == p2 {
                        before.lemma_pos_distinct(x1 as int, y as int, c as int, x2 as int, y as int, c as int);
                    }
                }
                assert(self.spec_bytes() == before.spec_bytes().update(p1, b).update(p2, a));
                assert forall|i: int| 0 <= i < orig.spec_bytes().len() && !orig.in_pixels(i)
                    implies #[trigger] self.spec_bytes()[i] == orig.spec_bytes()[i] by {
                    assert(before.in_pixels(p1));
                    assert(before.in_pixels(p2));
                    assert(before.spec_bytes()[i] == orig.spec_bytes()[i]);
                }
                assert forall|px: int, py: int, cc: int|
                    0 <= px < orig.spec_w() && 0 <= py < orig.spec_h() && 0 <= cc < orig.spec_bpp()
                    implies #[trigger] self.byte_at(px, py, cc) == (
                            if py == y && px == x1 && cc < c + 1 { orig.byte_at(x2 as int, y as int, cc) }
                            else if py == y && px == x2 && cc < c + 1 { orig.byte_at(x1 as int, y as int, cc) }
                            else { orig.byte_at(px, py, cc) }) by {
                    let q = before.pos(px, py, cc);
                    before.lemma_pixel_pos(px, py, cc);
                    assert(before.byte_at(px, py, cc) == (
                            if py == y && px == x1 && cc < c { orig.byte_at(x2 as int, y as int, cc) }
                            else if py == y && px == x2 && cc < c { orig.byte_at(x1 as int, y as int, cc) }
                            else { orig.byte_at(px, py, cc) }));
                    assert(before.byte_at(x1 as int, y as int, c as int) == orig.byte_at(x1 as int, y as int, c as int));
                    assert(before.byte_at(x2 as int, y as int, c as int) == orig.byte_at(x2 as int, y as int, c as int));
                    if py == y && px == x1 && cc == c {
                        assert(q == p1);
                    } else if py == y && px == x2 && cc == c {
                        assert(q == p2);
                    } else {
                        if q == p1 {
                            before.lemma_pos_distinct(px, py, cc, x1 as int, y as int, c as int);
                        }
                        if q == p2 {
                            before.lemma_pos_distinct(px, py, cc, x2 as int, y as int, c as int);
                        }
                        assert(self.byte_at(px, py, cc) == before.byte_at(px, py, cc));
                    }
                }
            }
            c = c + 1;
        }
    }
}

} // verus!

verus! {

impl Bitmap {
    /// The pixel at `(x, y)` of a 4-byte bitmap holds `p` (bytes in B, G, R, A order).
    pub open spec fn pixel_is(&self, x: int, y: int, p: Bgra8) -> bool {
        &&& self.byte_at(x, y, 0) == p.b
        &&& self.byte_at(x, y, 1) == p.g
        &&& self.byte_at(x, y, 2) == p.r
        &&& self.byte_at(x, y, 3) == p.a
    }

    /// The BGRA pixel at `(x, y)` of a 4-byte bitmap.
    pub open spec fn pixel_bgra(&self, x: int, y: int) -> Bgra8 {
        Bgra8 { b: self.byte_at(x, y, 0), g: self.byte_at(x, y, 1), r: self.byte_at(x, y, 2), a: self.byte_at(x, y, 3) }
    }

    /// Same geometry and surface as `other`.
    pub open spec fn same_shape(&self, other: &Bitmap) -> bool {
        &&& self.spec_w() == other.spec_w()
        &&& self.spec_h() == other.spec_h()
        &&& self.spec_stride() == other.spec_stride()
        &&& self.spec_bpp() == other.spec_bpp()
        &&& self.spec_offset() == other.spec_offset()
        &&& self.spec_info() == other.spec_info()
        &&& self.spec_cropped() == other.spec_cropped()
        &&& self.spec_bytes().len() == other.spec_bytes().len()
    }

    /// Writes the bytes of pixel `(x, y)` of a 4-byte bitmap; nothing else changes.
    pub(crate) fn write_pixel_bgra(&mut self, x: u32, y: u32, p: Bgra8)
        requires
            old(self).wf(),
            old(self).spec_bpp() == 4,
            x < old(self).spec_w(),
            y < old(self).spec_h(),
        ensures
            final(self).wf(),
            final(self).same_shape(&*old(self)),
            final(self).pixel_is(x as int, y as int, p),
            forall|i: int|
                0 <= i < old(self).spec_bytes().len() && !(old(self).pos(x as int, y as int, 0) <= i < old(self).pos(x as int, y as int, 0) + 4)
                    ==> #[trigger] final(self).spec_bytes()[i] == old(self).spec_bytes()[i],
    {
        let ghost p0 = old(self).pos(x as int, y as int, 0);
        self.write_byte(x, y, 0, p.b);
        self.write_byte(x, y, 1, p.g);
        self.write_byte(x, y, 2, p.r);
        self.write_byte(x, y, 3, p.a);
        proof {
            old(self).lemma_pixel_pos(x as int, y as int, 3);
            old(self).lemma_pixel_pos(x as int, y as int, 0);
            assert(self.pos(x as int, y as int, 1) == p0 + 1);
            assert(self.pos(x as int, y as int, 2) == p0 + 2);
            assert(self.pos(x as int, y as int, 3) == p0 + 3);
            assert(self.spec_bytes()[p0] == p.b);
            assert(self.spec_bytes()[p0 + 1] == p.g);
            assert(self.spec_bytes()[p0 + 2] == p.r);
            assert(self.spec_bytes()[p0 + 3] == p.a);
            assert(self.same_shape(&*old(self)));
        }
    }

    /// After a pixel write, any other pixel keeps its bytes, and the write lies in any rectangle
    /// that contains the pixel.
    pub proof fn lemma_pixel_write_frame(before: &Bitmap, after: &Bitmap, x: int, y: int, bpp_bytes: int)
        requires
            before.wf(),
            after.same_shape(before),
            0 <= x < before.spec_w(),
            0 <= y < before.spec_h(),
            bpp_bytes == before.spec_bpp(),
            forall|i: int|
                0 <= i < before.spec_bytes().len() && !(before.pos(x, y, 0) <= i < before.pos(x, y, 0) + bpp_bytes)
                    ==> #[trigger] after.spec_bytes()[i] == before.spec_bytes()[i],
        ensures
            forall|px: int, py: int, c: int|
                0 <= px < before.spec_w() && 0 <= py < before.spec_h() && 0 <= c < before.spec_bpp() && !(px == x && py == y)
                    ==> #[trigger] after.byte_at(px, py, c) == before.byte_at(px, py, c),
            forall|i: int, x0: int, x1: int, y0: int, y1: int|
                0 <= i < before.spec_bytes().len() && 0 <= x0 <= x < x1 <= before.spec_w() && y0 <= y < y1
                    && #[trigger] after.spec_bytes()[i] != before.spec_bytes()[i]
                    ==> #[trigger] before.in_rect(i, x0, x1, y0, y1),
    {
        assert forall|px: int, py: int, c: int|
            0 <= px < before.spec_w() && 0 <= py < before.spec_h() && 0 <= c < before.spec_bpp() && !(px == x && py == y)
            implies #[trigger] after.byte_at(px, py, c) == before.byte_at(px, py, c) by {
            before.lemma_pixel_pos(px, py, c);
            let p = before.pos(px, py, c);
            if before.pos(x, y, 0) <= p < before.pos(x, y, 0) + bpp_bytes {
                let c2 = p - before.pos(x, y, 0);
                assert(before.pos(x, y, c2) == p);
                before.lemma_pos_distinct(px, py, c, x, y, c2);
            }
        }
        assert forall|i: int, x0: int, x1: int, y0: int, y1: int|
            0 <= i < before.spec_bytes().len() && 0 <= x0 <= x < x1 <= before.spec_w() && y0 <= y < y1
                && #[trigger] after.spec_bytes()[i] != before.spec_bytes()[i]
            implies #[trigger] before.in_rect(i, x0, x1, y0, y1) by {
            let c2 = i - before.pos(x, y, 0);
            assert(before.pos(x, y, c2) == i);
            before.lemma_pos_in_rect(x, y, c2, x0, x1, y0, y1);
        }
    }
}

} // verus!

verus! {

impl Bitmap {
    /// Fills the rectangle of columns `x..x2` and rows `y..y2` of a BGRA bitmap with `color`.
    /// An empty rectangle (zero width or height) is accepted and changes nothing.
    /// A bitmap composed onto a matte color can only be filled whole.
    pub fn fill_rectangle(&mut self, color: Color32, x: u32, y: u32, x2: u32, y2: u32) -> (r: Result<(), FlowError>)
        requires
            old(self).wf(),
        ensures
            final(self).wf(),
            r is Err <==> (
                (old(self).spec_info().compose is BlendWithMatte
                    && !(x == 0 && y == 0 && x2 == old(self).spec_w() && y2 == old(self).spec_h()))
                || (y2 != y && x2 != x && (y2 <= y || x2 <= x || x2 > old(self).spec_w() || y2 > old(self).spec_h()
                    || old(self).spec_info().pixel_layout != PixelLayout::BGRA))),
            r matches Err(e) ==> e.kind == ErrorKind::InvalidArgument,
            r is Err || y2 == y || x2 == x ==> final(self).spec_bytes() == old(self).spec_bytes(),
            final(self).same_outside(&*old(self), x as int, x2 as int, y as int, y2 as int),
            r is Ok ==> forall|px: int, py: int|
                x <= px < x2 && y <= py < y2 ==> #[trigger] final(self).pixel_is(px, py, color.spec_bgra()),
    {
        if let BitmapCompositing::BlendWithMatte(_) = self.info.info.compose {
            if x != 0 || y != 0 || x2 != self.info.w || y2 != self.info.h {
                return Err(FlowError::with_message(ErrorKind::InvalidArgument,
                    "Cannot draw a rectangle on a sub-rectangle of a bitmap in BlendWithMatte mode"));
            }
        }
        if y2 == y || x2 == x {
            return Ok(());
        }
        if y2 <= y || x2 <= x || x2 > self.info.w || y2 > self.info.h {
            return Err(FlowError::with_message(ErrorKind::InvalidArgument,
                "Coordinates must be within image dimensions"));
        }
        if self.info.info.pixel_layout != PixelLayout::BGRA {
            return Err(FlowError::with_message(ErrorKind::InvalidArgument,
                "Only BGRA supported for fill_rectangle"));
        }
        let bgra = color.to_bgra8();
        self.fill_pixels(bgra, x, y, x2, y2);
        Ok(())
    }

    /// Sets every pixel of the (non-empty, in-bounds) rectangle of a 4-byte bitmap to `p`.
    pub(crate) fn fill_pixels(&mut self, p: Bgra8, x: u32, y: u32, x2: u32, y2: u32)
        requires
            old(self).wf(),
            old(self).spec_bpp() == 4,
            x < x2 <= old(self).spec_w(),
            y < y2 <= old(self).spec_h(),
        ensures
            final(self).wf(),
            final(self).same_outside(&*old(self), x as int, x2 as int, y as int, y2 as int),
            forall|px: int, py: int|
                x <= px < x2 && y <= py < y2 ==> #[trigger] final(self).pixel_is(px, py, p),
    {
        let ghost orig = *old(self);
        let mut yy = y;
        while yy < y2
            invariant
                self.wf(),
                self.spec_bpp() == 4,
                x < x2 <= self.spec_w(),
                y <= yy <= y2 <= self.spec_h(),
                orig.wf(),
                self.same_outside(&orig, x as int, x2 as int, y as int, y2 as int),
                forall|px: int, py: int|
                    x <= px < x2 && y <= py < yy ==> #[trigger] self.pixel_is(px, py, p),
            decreases y2 - yy,
        {
            let mut xx = x;
            while xx < x2
                invariant
                    self.wf(),
                    self.spec_bpp() == 4,
                    x <= xx <= x2 <= self.spec_w(),
                    y <= yy < y2 <= self.spec_h(),
                    orig.wf(),
                    self.same_outside(&orig, x as int, x2 as int, y as int, y2 as int),
                    forall|px: int, py: int|
                        x <= px < x2 && y <= py < yy ==> #[trigger] self.pixel_is(px, py, p),
                    forall|px: int| x <= px < xx ==> #[trigger] self.pixel_is(px, yy as int, p),
                decreases x2 - xx,
            {
                let ghost before = *self;
                self.write_pixel_bgra(xx, yy, p);
                proof {
                    Bitmap::lemma_pixel_write_frame(&before, &*self, xx as int, yy as int, 4);
                    assert forall|px: int, py: int|
                        x <= px < x2 && y <= py < yy implies #[trigger] self.pixel_is(px, py, p) by {
                        assert(before.pixel_is(px, py, p));
                    }
                    assert forall|px: int| x <= px < xx + 1 implies #[trigger] self.pixel_is(px, yy as int, p) by {
                        if px < xx {
                            assert(before.pixel_is(px, yy as int, p));
                        }
                    }
                    assert forall|i: int|
                        0 <= i < self.spec_bytes().len() && !orig.in_rect(i, x as int, x2 as int, y as int, y2 as int)
                        implies #[trigger] self.spec_bytes()[i] == orig.spec_bytes()[i] by {
                        if self.spec_bytes()[i] != before.spec_bytes()[i] {
                            assert(before.in_rect(i, x as int, x2 as int, y as int, y2 as int));
                        }
                    }
                }
                xx = xx + 1;
            }
            yy = yy + 1;
        }
    }
}

} // verus!

verus! {

/// The dimension check fails: a zero dimension, or `w * item_size` (saturating) not below `i32::MAX / h`.
pub open spec fn dimensions_invalid(w: int, h: int, item_size: int) -> bool {
    w == 0 || h == 0 || (if w * item_size > usize::MAX { usize::MAX as int } else { w * item_size }) >= (i32::MAX as int) / h
}

/// `len` rounded up to a multiple of `alignment`.
pub open spec fn round_up(len: int, alignment: int) -> int {
    if len % alignment == 0 { len } else { len + (alignment - len % alignment) }
}

/// The row stride (in items) of a bitmap `w` pixels wide with `t_per_pixel` items per pixel,
/// padded to `alignment_in_bytes`.
pub open spec fn spec_stride(w: int, t_per_pixel: int, alignment_in_bytes: int, item_size: int) -> int {
    round_up(w * t_per_pixel, alignment_in_bytes / item_size)
}

/// `get_stride` fails for these arguments.
pub open spec fn stride_invalid(w: int, h: int, t_per_pixel: int, alignment_in_bytes: int, item_size: int) -> bool {
    ||| dimensions_invalid(w, t_per_pixel, item_size)
    ||| alignment_in_bytes % item_size != 0
    ||| dimensions_invalid(spec_stride(w, t_per_pixel, alignment_in_bytes, item_size), h, item_size)
}

impl Bitmap {
    /// Checks that the dimensions are non-zero and small enough that `w * item_size * h` cannot
    /// overflow an `i32`.
    pub fn check_dimensions(w: usize, h: usize, item_size: usize) -> (r: Result<(), FlowError>)
        ensures
            r is Err <==> dimensions_invalid(w as int, h as int, item_size as int),
            r matches Err(e) ==> e.kind == ErrorKind::InvalidArgument,
    {
        if w == 0 || h == 0 {
            return Err(FlowError::with_message(ErrorKind::InvalidArgument, "Bitmap dimensions cannot be zero"));
        }
        let product = match w.checked_mul(item_size) {
            Some(v) => v,
            None => usize::MAX,
        };
        if product >= 2147483647usize / h {
            return Err(FlowError::with_message(ErrorKind::InvalidArgument,
                "Bitmap dimensions cannot be so large they would cause i32 overflow"));
        }
        Ok(())
    }

    /// The row stride (in items of `item_size` bytes) for a bitmap `w` pixels wide and `h` rows
    /// high with `t_per_pixel` items per pixel, padded to a multiple of `alignment_in_bytes`.
    pub fn get_stride(w: usize, h: usize, t_per_pixel: usize, alignment_in_bytes: usize, item_size: usize)
        -> (r: Result<u32, FlowError>)
        requires
            item_size >= 1,
            !dimensions_invalid(w as int, t_per_pixel as int, item_size as int)
                && alignment_in_bytes % item_size == 0 ==> alignment_in_bytes >= item_size,
        ensures
            r is Err <==> stride_invalid(w as int, h as int, t_per_pixel as int, alignment_in_bytes as int, item_size as int),
            r matches Err(e) ==> e.kind == ErrorKind::InvalidArgument,
            r matches Ok(s) ==> s == spec_stride(w as int, t_per_pixel as int, alignment_in_bytes as int, item_size as int),
    {
        Bitmap::check_dimensions(w, t_per_pixel, item_size)?;
        proof {
            let wi = w as int;
            let si = item_size as int;
            let ti = t_per_pixel as int;
            assert(ti >= 1);
            assert(wi * si < 2147483647int / ti);
            assert(wi * ti <= (wi * si) * ti) by (nonlinear_arith) requires si >= 1, wi >= 0, ti >= 0;
            assert((wi * si) * ti < 2147483647int) by (nonlinear_arith)
                requires wi * si < 2147483647int / ti, ti >= 1, wi * si >= 0;
        }
        let un_padded_stride = w * t_per_pixel;
        let alignment = alignment_in_bytes / item_size;
        if alignment_in_bytes % item_size != 0 {
            return Err(FlowError::with_message(ErrorKind::InvalidArgument,
                "Bitmap alignment must be multiple of type size"));
        }
        assert(alignment >= 1) by (nonlinear_arith)
            requires alignment == alignment_in_bytes / item_size, alignment_in_bytes >= item_size, item_size >= 1;
        let padding = if un_padded_stride % alignment == 0 {
            0
        } else {
            alignment - (un_padded_stride % alignment)
        };
        let stride = match un_padded_stride.checked_add(padding) {
            Some(v) => v,
            None => usize::MAX,
        };
        proof {
            let rs = spec_stride(w as int, t_per_pixel as int, alignment_in_bytes as int, item_size as int);
            assert(rs == un_padded_stride + padding);
            if rs > usize::MAX {
                assert(stride == usize::MAX);
                assert(rs * item_size >= rs) by (nonlinear_arith) requires item_size >= 1, rs >= 0;
                assert(stride * item_size >= stride) by (nonlinear_arith) requires item_size >= 1, stride >= 0;
                if h >= 1 { assert(2147483647int / (h as int) <= 2147483647int) by (nonlinear_arith) requires h >= 1; }
                assert(dimensions_invalid(rs, h as int, item_size as int));
                assert(dimensions_invalid(stride as int, h as int, item_size as int));
            } else {
                assert(stride == rs);
            }
        }
        Bitmap::check_dimensions(stride, h, item_size)?;
        proof {
            let st = stride as int;
            let si = item_size as int;
            let hi = h as int;
            assert(st * si < 2147483647int / hi);
            assert(st <= st * si) by (nonlinear_arith) requires si >= 1, st >= 0;
            assert(2147483647int / hi <= 2147483647int) by (nonlinear_arith) requires hi >= 1;
        }
        Ok(stride as u32)
    }
}

} // verus!

verus! {

/// The color a new bitmap starts filled with: the matte color of a bitmap composed onto a
/// non-transparent matte.
pub open spec fn matte_fill(compositing: BitmapCompositing) -> Option<Color32> {
    match compositing {
        BitmapCompositing::BlendWithMatte(c) => if c.0 != 0 { Some(c) } else { None },
        _ => None,
    }
}

/// `create_u8` fails for these arguments.
pub open spec fn create_u8_invalid(w: int, h: int, layout: PixelLayout, compositing: BitmapCompositing) -> bool {
    ||| w > i32::MAX
    ||| h > i32::MAX
    ||| stride_invalid(w, h, layout.spec_channels() as int, 64, 1)
    ||| (compositing matches BitmapCompositing::BlendWithMatte(c) && c.0 != 0 && layout != PixelLayout::BGRA)
}

impl Bitmap {
    /// Creates a zeroed 8-bit bitmap with rows padded to a multiple of 64 bytes.
    /// A bitmap composed onto a (non-transparent) matte color starts filled with that color.
    pub fn create_u8(
        w: u32,
        h: u32,
        pixel_layout: PixelLayout,
        alpha_premultiplied: bool,
        alpha_meaningful: bool,
        color_space: ColorSpace,
        compositing_mode: BitmapCompositing,
    ) -> (r: Result<Bitmap, FlowError>)
        ensures
            r is Err <==> create_u8_invalid(w as int, h as int, pixel_layout, compositing_mode),
            r matches Err(e) ==> e.kind == ErrorKind::InvalidArgument,
            r matches Ok(b) ==> {
                &&& b.wf()
                &&& b.spec_w() == w
                &&& b.spec_h() == h
                &&& b.spec_bpp() == pixel_layout.spec_channels()
                &&& b.spec_stride() == spec_stride(w as int, pixel_layout.spec_channels() as int, 64, 1)
                &&& b.spec_offset() == 0
                &&& !b.spec_cropped()
                &&& b.spec_info() == (SurfaceInfo {
                    alpha_premultiplied,
                    alpha_meaningful,
                    color_space,
                    pixel_layout,
                    compose: compositing_mode,
                })
                &&& b.spec_bytes().len() == b.spec_stride() * h
                &&& matte_fill(compositing_mode) matches Some(c)
                    ==> forall|px: int, py: int|
                        0 <= px < w && 0 <= py < h ==> #[trigger] b.pixel_is(px, py, c.spec_bgra())
                &&& matte_fill(compositing_mode) is None
                    ==> forall|i: int| 0 <= i < b.spec_bytes().len() ==> #[trigger] b.spec_bytes()[i] == 0
            },
    {
        if w > 2147483647u32 || h > 2147483647u32 {
            return Err(FlowError::with_message(ErrorKind::InvalidArgument,
                "Bitmap dimensions would cause i32 overflow"));
        }
        let t_per_pixel = pixel_layout.channels();
        let stride = Bitmap::get_stride(w as usize, h as usize, t_per_pixel, 64, 1)?;
        proof {
            assert(stride as int * h < 2147483647int) by (nonlinear_arith)
                requires stride * 1 < 2147483647int / (h as int), h >= 1;
            assert(w * t_per_pixel <= stride);
            assert((h - 1) * stride + w * t_per_pixel <= stride * h) by (nonlinear_arith)
                requires w * t_per_pixel <= stride, h >= 1;
        }
        let len = stride as usize * h as usize;
        let buffer: Vec<u8> = vec![0u8; len];
        let mut b = Bitmap {
            buffer,
            offset: 0,
            info: BitmapInfo {
                w,
                h,
                t_stride: stride,
                t_per_pixel: t_per_pixel as u32,
                info: SurfaceInfo {
                    alpha_premultiplied,
                    alpha_meaningful,
                    color_space,
                    pixel_layout,
                    compose: compositing_mode,
                },
            },
            cropped: false,
        };
        if let BitmapCompositing::BlendWithMatte(c) = compositing_mode {
            if c.0 != 0 {
                b.fill_rectangle(c, 0, 0, w, h)?;
            }
        }
        Ok(b)
    }

    /// `after` is `before` restricted to the columns `x1..x2` and rows `y1..y2`: the same buffer,
    /// starting at pixel `(x1, y1)`, marked as cropped.
    pub open spec fn is_crop_of(after: &Bitmap, before: &Bitmap, x1: u32, y1: u32, x2: u32, y2: u32) -> bool {
        &&& after.spec_w() == x2 - x1
        &&& after.spec_h() == y2 - y1
        &&& after.spec_stride() == before.spec_stride()
        &&& after.spec_bpp() == before.spec_bpp()
        &&& after.spec_info() == before.spec_info()
        &&& after.spec_bytes() == before.spec_bytes()
        &&& after.spec_offset() == before.pos(x1 as int, y1 as int, 0)
        &&& after.spec_cropped()
        &&& forall|x: int, y: int, c: int|
            0 <= x < x2 - x1 && 0 <= y < y2 - y1 && 0 <= c < before.spec_bpp()
                ==> #[trigger] after.byte_at(x, y, c) == before.byte_at(x + x1, y + y1, c)
    }

    /// Restricts the bitmap to the columns `x1..x2` and rows `y1..y2`, without moving any pixel.
    pub fn crop(&mut self, x1: u32, y1: u32, x2: u32, y2: u32) -> (r: Result<(), FlowError>)
        requires
            old(self).wf(),
        ensures
            final(self).wf(),
            r is Err <==> (x2 <= x1 || y2 <= y1 || x2 > old(self).spec_w() || y2 > old(self).spec_h()),
            r matches Err(e) ==> e.kind == ErrorKind::InvalidArgument,
            r is Err ==> *final(self) == *old(self),
            r is Ok ==> Bitmap::is_crop_of(&*final(self), &*old(self), x1, y1, x2, y2),
    {
        let (w, h) = (self.info.w, self.info.h);
        if x2 <= x1 || y2 <= y1 || x2 > w || y2 > h {
            return Err(FlowError::with_message(ErrorKind::InvalidArgument, "Invalid crop bounds"));
        }
        proof {
            self.lemma_pixel_pos(x1 as int, y1 as int, 0);
            lemma_mul_inequality(0, y1 as int, self.spec_stride() as int);
            lemma_mul_inequality(0, x1 as int, self.spec_bpp() as int);
            assert(self.info.t_stride * y1 == y1 * self.info.t_stride) by (nonlinear_arith);
            assert(self.info.t_per_pixel * x1 == x1 * self.info.t_per_pixel) by (nonlinear_arith);
        }
        let ghost old_self = *self;
        self.offset = self.offset + (self.info.t_stride * y1) + (self.info.t_per_pixel * x1);
        self.info.w = x2 - x1;
        self.info.h = y2 - y1;
        self.cropped = true;
        proof {
            let s = old_self.spec_stride() as int;
            let bpp = old_self.spec_bpp() as int;
            assert(self.spec_offset() == old_self.pos(x1 as int, y1 as int, 0));
            assert forall|x: int, y: int, c: int|
                0 <= x < x2 - x1 && 0 <= y < y2 - y1 && 0 <= c < bpp
                implies #[trigger] self.byte_at(x, y, c) == old_self.byte_at(x + x1, y + y1, c) by {
                assert(y * s + y1 * s == (y + y1) * s) by (nonlinear_arith);
                assert(x * bpp + x1 * bpp == (x + x1) * bpp) by (nonlinear_arith);
            }
            let nw = (x2 - x1) as int;
            let nh = (y2 - y1) as int;
            assert(nw * bpp <= (w as int) * bpp) by (nonlinear_arith) requires nw <= w, bpp >= 0;
            old_self.lemma_pixel_pos(x2 - 1, y2 - 1, bpp - 1);
            assert(old_self.pos(x2 - 1, y2 - 1, bpp - 1) == self.spec_offset() + (nh - 1) * s + nw * bpp - 1) by {
                assert((nh - 1) * s + y1 * s == (y2 - 1) * s) by (nonlinear_arith) requires nh == y2 - y1;
                assert(nw * bpp + x1 * bpp == x2 * bpp) by (nonlinear_arith) requires nw == x2 - x1;
                assert((x2 - 1) * bpp + bpp == x2 * bpp) by (nonlinear_arith);
            }
        }
        Ok(())
    }

    /// The BGRA pixel at `(x, y)`, if the bitmap has 4 bytes per pixel and the pixel lies inside it.
    pub fn get_pixel_bgra8(&self, x: u32, y: u32) -> (r: Option<Bgra8>)
        requires
            self.wf(),
        ensures
            r is Some <==> (self.spec_bpp() == 4 && x < self.spec_w() && y < self.spec_h()),
            r matches Some(p) ==> p == self.pixel_bgra(x as int, y as int),
    {
        if self.info.t_per_pixel != 4 || x >= self.info.w || y >= self.info.h {
            return None;
        }
        Some(Bgra8 {
            b: self.read_byte(x, y, 0),
            g: self.read_byte(x, y, 1),
            r: self.read_byte(x, y, 2),
            a: self.read_byte(x, y, 3),
        })
    }
}

} // verus!

verus! {

impl Bitmap {
    /// The position of the byte at row `r`, byte column `k`.
    pub open spec fn cell_pos(&self, r: int, k: int) -> int {
        self.spec_offset() + r * self.spec_stride() + k
    }

    /// The byte at row `r`, byte column `k`.
    pub open spec fn cell_at(&self, r: int, k: int) -> u8 {
        self.spec_bytes()[self.cell_pos(r, k)]
    }

    /// The number of pixel bytes in a row.
    pub open spec fn spec_row_len(&self) -> int {
        (self.spec_w() * self.spec_bpp()) as int
    }

    /// Position `i` is one of the pixel bytes of the bitmap (not stride padding, not outside).
    pub open spec fn in_pixels(&self, i: int) -> bool {
        in_region(i, self.spec_offset() as int, self.spec_stride() as int, 0, self.spec_h() as int, 0, self.spec_row_len())
    }

    /// Where a cell lies: inside the buffer, among the pixel bytes, at its row and column.
    pub proof fn lemma_cell_pos(&self, r: int, k: int)
        requires
            self.wf(),
            0 <= r < self.spec_h(),
            0 <= k < self.spec_row_len(),
        ensures
            0 <= self.cell_pos(r, k) < self.spec_bytes().len(),
            self.in_pixels(self.cell_pos(r, k)),
            (self.cell_pos(r, k) - self.spec_offset()) / (self.spec_stride() as int) == r,
            (self.cell_pos(r, k) - self.spec_offset()) % (self.spec_stride() as int) == k,
    {
        lemma_region_position(self.spec_offset() as int, self.spec_stride() as int, r, k);
        lemma_position_bound(self.spec_offset() as int, self.spec_stride() as int, self.spec_h() as int,
            self.spec_row_len(), r, k);
    }

    /// Cells at distinct (row, column) pairs lie at distinct positions.
    pub proof fn lemma_cell_distinct(&self, r1: int, k1: int, r2: int, k2: int)
        requires
            self.wf(),
            0 <= r1 < self.spec_h(), 0 <= k1 < self.spec_row_len(),
            0 <= r2 < self.spec_h(), 0 <= k2 < self.spec_row_len(),
            !(r1 == r2 && k1 == k2),
        ensures
            self.cell_pos(r1, k1) != self.cell_pos(r2, k2),
    {
        self.lemma_cell_pos(r1, k1);
        self.lemma_cell_pos(r2, k2);
    }

    /// The byte of pixel `(x, y)`, channel `c`, is the cell at row `y`, byte column `x * bpp + c`;
    /// a pixel lies in a rectangle of whole rows exactly when its cells do.
    pub proof fn lemma_byte_is_cell(&self, x: int, y: int, c: int)
        requires
            self.wf(),
            0 <= x < self.spec_w(), 0 <= y < self.spec_h(), 0 <= c < self.spec_bpp(),
        ensures
            self.byte_at(x, y, c) == self.cell_at(y, x * self.spec_bpp() + c),
            self.pos(x, y, c) == self.cell_pos(y, x * self.spec_bpp() + c),
            0 <= x * self.spec_bpp() + c < self.spec_row_len(),
    {
        lemma_pixel_column(x, c, self.spec_bpp() as int, self.spec_w() as int);
    }

    /// Pixel bytes of the whole bitmap are exactly the bytes in the full rectangle.
    pub proof fn lemma_in_pixels_is_full_rect(&self, i: int)
        requires
            self.wf(),
        ensures
            self.in_pixels(i) == self.in_rect(i, 0, self.spec_w() as int, 0, self.spec_h() as int),
    {
    }

    /// The number of pixel bytes in a row.
    pub(crate) fn row_len(&self) -> (r: u32)
        requires
            self.wf(),
        ensures
            r == self.spec_row_len(),
    {
        proof {
            lemma_mul_inequality(0, self.spec_h() - 1, self.spec_stride() as int);
        }
        self.info.w * self.info.t_per_pixel
    }

    /// After one cell write, every other cell and every non-pixel byte keeps its value.
    pub proof fn lemma_cell_write_frame(before: &Bitmap, after: &Bitmap, r: int, k: int, v: u8)
        requires
            before.wf(),
            after.same_shape(before),
            0 <= r < before.spec_h(), 0 <= k < before.spec_row_len(),
            after.spec_bytes() == before.spec_bytes().update(before.cell_pos(r, k), v),
        ensures
            forall|i: int| 0 <= i < before.spec_bytes().len() && !before.in_pixels(i)
                ==> #[trigger] after.spec_bytes()[i] == before.spec_bytes()[i],
            forall|rr: int, kk: int| 0 <= rr < before.spec_h() && 0 <= kk < before.spec_row_len()
                ==> #[trigger] after.cell_at(rr, kk) == (if rr == r && kk == k { v } else { before.cell_at(rr, kk) }),
    {
        before.lemma_cell_pos(r, k);
        assert forall|rr: int, kk: int| 0 <= rr < before.spec_h() && 0 <= kk < before.spec_row_len()
            implies #[trigger] after.cell_at(rr, kk) == (if rr == r && kk == k { v } else { before.cell_at(rr, kk) }) by {
            before.lemma_cell_pos(rr, kk);
            if !(rr == r && kk == k) {
                before.lemma_cell_distinct(rr, kk, r, k);
            }
        }
    }

    /// Copies every byte of `src` from its first pixel on over the bytes of `self` from its first
    /// pixel on; both tails have the same length.
    pub(crate) fn copy_tail_from(&mut self, src: &Bitmap)
        requires
            old(self).wf(),
            src.wf(),
            old(self).spec_bytes().len() - old(self).spec_offset() == src.spec_bytes().len() - src.spec_offset(),
        ensures
            final(self).wf(),
            final(self).same_shape(&*old(self)),
            final(self).spec_bytes().subrange(0, old(self).spec_offset() as int)
                == old(self).spec_bytes().subrange(0, old(self).spec_offset() as int),
            forall|i: int| 0 <= i < src.spec_bytes().len() - src.spec_offset()
                ==> #[trigger] final(self).spec_bytes()[old(self).spec_offset() + i] == src.spec_bytes()[src.spec_offset() + i],
    {
        let n = self.buffer.len() - self.offset as usize;
        let mut i: usize = 0;
        while i < n
            invariant
                self.wf(),
                self.same_shape(&*old(self)),
                src.wf(),
                n == old(self).spec_bytes().len() - old(self).spec_offset(),
                n == src.spec_bytes().len() - src.spec_offset(),
                i <= n,
                forall|j: int| 0 <= j < old(self).spec_offset() ==> #[trigger] self.spec_bytes()[j] == old(self).spec_bytes()[j],
                forall|j: int| 0 <= j < i ==> #[trigger] self.spec_bytes()[old(self).spec_offset() + j] == src.spec_bytes()[src.spec_offset() + j],
                forall|j: int| i <= j < n ==> #[trigger] self.spec_bytes()[old(self).spec_offset() + j] == old(self).spec_bytes()[old(self).spec_offset() + j],
            decreases n - i,
        {
            let v = src.buffer[src.offset as usize + i];
            let p = self.offset as usize + i;
            self.buffer.set(p, v);
            i = i + 1;
        }
        assert(self.spec_bytes().subrange(0, old(self).spec_offset() as int)
            =~= old(self).spec_bytes().subrange(0, old(self).spec_offset() as int));
    }

    /// Computes the position of the cell at row `r`, byte column `k`.
    pub(crate) fn cell_index(&self, r: u32, k: u32) -> (p: usize)
        requires
            self.wf(),
            r < self.spec_h(),
            k < self.spec_row_len(),
        ensures
            p == self.cell_pos(r as int, k as int),
            p < self.spec_bytes().len(),
    {
        proof {
            self.lemma_cell_pos(r as int, k as int);
            lemma_mul_inequality(0, r as int, self.spec_stride() as int);
        }
        self.offset as usize + r as usize * self.info.t_stride as usize + k as usize
    }

    /// Reads the cell at row `r`, byte column `k`.
    pub(crate) fn read_cell(&self, r: u32, k: u32) -> (v: u8)
        requires
            self.wf(),
            r < self.spec_h(),
            k < self.spec_row_len(),
        ensures
            v == self.cell_at(r as int, k as int),
    {
        let p = self.cell_index(r, k);
        self.buffer[p]
    }

    /// Writes the cell at row `r`, byte column `k`.
    pub(crate) fn write_cell(&mut self, r: u32, k: u32, v: u8)
        requires
            old(self).wf(),
            r < old(self).spec_h(),
            k < old(self).spec_row_len(),
        ensures
            final(self).wf(),
            final(self).same_shape(&*old(self)),
            final(self).spec_bytes() == old(self).spec_bytes().update(old(self).cell_pos(r as int, k as int), v),
    {
        let p = self.cell_index(r, k);
        self.buffer.set(p, v);
    }
}

} // verus!

verus! {

/// The shape of a pixel buffer reinterpreted as elements of another size: `(stride, elements per
/// row, elements per pixel)` in the new elements. A slice of `old_len` elements became one of
/// `new_len` larger (or equal) elements, so every count shrinks by the factor between the lengths.
pub open spec fn cast_shape(old_w: int, old_t_per_pixel: int, old_stride: int, old_len: int, new_len: int)
    -> (int, int, int) {
    let (t_per_pixel, t_stride) = if old_len > new_len {
        (old_t_per_pixel / (old_len / new_len), old_stride / (old_len / new_len))
    } else {
        (old_t_per_pixel, old_stride)
    };
    (t_stride, old_w * t_per_pixel, t_per_pixel)
}

/// The shape of a buffer of `old_h` rows of `old_w` pixels, `old_t_per_pixel` elements per pixel
/// and rows `old_stride` elements apart, once its slice of `old_len` elements is reinterpreted
/// as `new_len` elements: `(stride, elements per row, elements per pixel)`. When trailing padding
/// is required and the new slice does not hold the padding after the last row, the cast is
/// refused with `InvalidArgument`.
pub fn calculate_cast_buffer_results(old_w: usize, old_h: usize, old_t_per_pixel: usize, old_stride: usize,
    old_slice_length: usize, new_slice_length: usize, require_trailing_padding: bool)
    -> (r: Result<(usize, usize, usize), FlowError>)
    requires
        old_slice_length >= new_slice_length,
        old_slice_length == 0 || (new_slice_length > 0 && old_slice_length % new_slice_length == 0),
        ({
            let s = cast_shape(old_w as int, old_t_per_pixel as int, old_stride as int, old_slice_length as int,
                new_slice_length as int);
            &&& s.1 <= usize::MAX
            &&& s.0 >= s.1
            &&& s.0 * old_h <= usize::MAX
            &&& s.0 * old_h >= s.0 - s.1
            &&& new_slice_length >= s.0 * old_h - (s.0 - s.1)
        }),
    ensures
        ({
            let s = cast_shape(old_w as int, old_t_per_pixel as int, old_stride as int, old_slice_length as int,
                new_slice_length as int);
            &&& (require_trailing_padding && new_slice_length < s.0 * old_h) ==> (r matches Err(e) && e.kind == ErrorKind::InvalidArgument)
            &&& !(require_trailing_padding && new_slice_length < s.0 * old_h) ==> (r matches Ok(v)
                && v.0 == s.0 && v.1 == s.1 && v.2 == s.2)
        }),
{
    let (t_per_pixel, t_stride) = if old_slice_length > new_slice_length {
        let factor = old_slice_length / new_slice_length;
        proof {
            vstd::arithmetic::div_mod::lemma_div_pos_is_pos(old_slice_length as int, new_slice_length as int);
            assert(factor >= 1) by (nonlinear_arith)
                requires factor == old_slice_length / new_slice_length, old_slice_length > new_slice_length, new_slice_length > 0;
        }
        (old_t_per_pixel / factor, old_stride / factor)
    } else {
        (old_t_per_pixel, old_stride)
    };
    let t_per_row = old_w * t_per_pixel;
    let full = t_stride * old_h;
    if require_trailing_padding && new_slice_length < full {
        return Err(FlowError::with_message(ErrorKind::InvalidArgument,
            "FlowPixelBuffer::try_cast_from: new slice too short (trailing padding required)"));
    }
    Ok((t_stride, t_per_row, t_per_pixel))
}

} // verus!

verus! {

impl Bitmap {
    /// The width and height as 16-bit values; a bitmap wider or taller than that is refused with
    /// `InvalidArgument`.
    pub fn size_16(&self) -> (r: Result<(u16, u16), FlowError>)
        ensures
            (self.spec_w() > u16::MAX || self.spec_h() > u16::MAX) ==> (r matches Err(e) && e.kind == ErrorKind::InvalidArgument),
            !(self.spec_w() > u16::MAX || self.spec_h() > u16::MAX) ==> r == Ok::<(u16, u16), FlowError>((self.spec_w() as u16, self.spec_h() as u16)),
    {
        let w = self.w();
        let h = self.h();
        if h > 65535 || w > 65535 {
            return Err(FlowError::with_message(ErrorKind::InvalidArgument, "Bitmap size is too large to fit in a u16"));
        }
        Ok((w as u16, h as u16))
    }

    /// The bytes between the end of a row's pixels and the start of the next row.
    pub fn stride_padding(&self) -> (r: usize)
        requires
            self.wf(),
        ensures
            r == self.spec_stride() - self.spec_w() * self.spec_bpp(),
    {
        proof {
            assert(self.spec_w() * self.spec_bpp() <= self.spec_stride());
        }
        self.info.t_stride as usize - self.info.w as usize * self.info.t_per_pixel as usize
    }

    /// The pixel bytes of row `index`, if the bitmap has such a row.
    pub fn row(&self, index: usize) -> (r: Option<&[u8]>)
        requires
            self.wf(),
        ensures
            index >= self.spec_h() ==> r is None,
            index < self.spec_h() ==> (r matches Some(s) && s@ == self.spec_bytes().subrange(
                self.pos(0, index as int, 0), self.pos(0, index as int, 0) + self.spec_w() * self.spec_bpp())),
    {
        if index >= self.info.h as usize {
            return None;
        }
        proof {
            assert(index * self.spec_stride() <= (self.spec_h() - 1) * self.spec_stride()) by (nonlinear_arith)
                requires index < self.spec_h();
            assert(self.pos(0, index as int, 0) + self.spec_w() * self.spec_bpp()
                <= self.spec_offset() + (self.spec_h() - 1) * self.spec_stride() + self.spec_w() * self.spec_bpp())
                by (nonlinear_arith)
                requires
                    index < self.spec_h(),
                    self.pos(0, index as int, 0) == self.spec_offset() + index * self.spec_stride(),
            ;
        }
        let start = self.offset as usize + index * self.info.t_stride as usize;
        let len = self.info.w as usize * self.info.t_per_pixel as usize;
        let (_, rest) = self.buffer.as_slice().split_at(start);
        let (row, _) = rest.split_at(len);
        proof {
            assert(row@ =~= self.spec_bytes().subrange(start as int, start + len));
        }
        Some(row)
    }
}

} // verus!
