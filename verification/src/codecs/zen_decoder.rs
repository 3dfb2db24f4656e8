//! Converting decoded pixels to the BGRA layout of bitmaps, row by row.
use vstd::prelude::*;
use vstd::arithmetic::div_mod::{lemma_fundamental_div_mod, lemma_fundamental_div_mod_converse};
use crate::graphics::swizzle::{br_source, garb_rgba_to_bgra_inplace_strided, in_rows, strided_swapped};

verus! {

/// How many bytes of a source pixel with `channels` channels the conversion reads.
pub open spec fn bytes_read(channels: int) -> int {
    if channels >= 4 { 4 } else if channels >= 3 { 3 } else { 1 }
}

/// Byte `c` of BGRA pixel `x` converted from a row of `channels`-channel pixels: four or more
/// channels are RGBA (extra channels ignored), three are RGB (alpha 255), fewer are gray (the
/// first byte in blue, green and red, alpha 255).
pub open spec fn bgra_from_row(src: Seq<u8>, channels: int, x: int, c: int) -> u8 {
    let si = x * channels;
    if channels >= 4 {
        if c == 3 { src[si + 3] } else { src[si + 2 - c] }
    } else if channels >= 3 {
        if c == 3 { 255u8 } else { src[si + 2 - c] }
    } else {
        if c == 3 { 255u8 } else { src[si] }
    }
}

/// Converts `width` pixels of `channels` channels from `src` into BGRA pixels at the start of
/// `dst`; the rest of `dst` is unchanged.
pub fn row_to_bgra(dst: &mut [u8], src: &[u8], width: usize, channels: usize)
    requires
        width * 4 <= old(dst)@.len(),
        width >= 1 ==> (width - 1) * channels + bytes_read(channels as int) <= src@.len(),
    ensures
        final(dst)@.len() == old(dst)@.len(),
        forall|i: int| 0 <= i < old(dst)@.len() ==> #[trigger] final(dst)@[i] == (if i < width * 4 {
            bgra_from_row(src@, channels as int, i / 4, i % 4)
        } else {
            old(dst)@[i]
        }),
{
    row_to_bgra_at(dst, 0, src, 0, width, channels);
    proof {
        assert(src@.skip(0) =~= src@);
    }
}

/// `row_to_bgra` from the pixels at `src_start` of `src` into the bytes at `dst_start` of `dst`;
/// every other byte of `dst` is unchanged.
fn row_to_bgra_at(dst: &mut [u8], dst_start: usize, src: &[u8], src_start: usize, width: usize, channels: usize)
    requires
        dst_start + width * 4 <= old(dst)@.len(),
        width >= 1 ==> src_start + (width - 1) * channels + bytes_read(channels as int) <= src@.len(),
    ensures
        final(dst)@.len() == old(dst)@.len(),
        forall|i: int| 0 <= i < old(dst)@.len() ==> #[trigger] final(dst)@[i] == (if dst_start <= i < dst_start + width * 4 {
            bgra_from_row(src@.skip(src_start as int), channels as int, (i - dst_start) / 4, (i - dst_start) % 4)
        } else {
            old(dst)@[i]
        }),
{
    let ghost row = src@.skip(src_start as int);
    let slen = src.len();
    let dlen = dst.len();
    let mut x: usize = 0;
    while x < width
        invariant
            slen == src@.len(), dlen == old(dst)@.len(),
            dst_start + width * 4 <= old(dst)@.len(),
            width >= 1 ==> src_start + (width - 1) * channels + bytes_read(channels as int) <= src@.len(),
            row == src@.skip(src_start as int),
            x <= width,
            dst@.len() == old(dst)@.len(),
            forall|i: int| 0 <= i < old(dst)@.len() ==> #[trigger] dst@[i] == (if dst_start <= i < dst_start + x * 4 {
                bgra_from_row(row, channels as int, (i - dst_start) / 4, (i - dst_start) % 4)
            } else {
                old(dst)@[i]
            }),
        decreases width - x,
    {
        proof {
            assert(x * channels <= (width - 1) * channels) by (nonlinear_arith) requires x <= width - 1;
        }
        let si = src_start + x * channels;
        let di = dst_start + x * 4;
        let ghost before = dst@;
        if channels >= 4 {
            dst[di] = src[si + 2];
            dst[di + 1] = src[si + 1];
            dst[di + 2] = src[si];
            dst[di + 3] = src[si + 3];
        } else if channels >= 3 {
            dst[di] = src[si + 2];
            dst[di + 1] = src[si + 1];
            dst[di + 2] = src[si];
            dst[di + 3] = 255;
        } else {
            let v = src[si];
            dst[di] = v;
            dst[di + 1] = v;
            dst[di + 2] = v;
            dst[di + 3] = 255;
        }
        proof {
            assert forall|i: int| 0 <= i < old(dst)@.len() implies #[trigger] dst@[i] == (if dst_start <= i < dst_start + (x + 1) * 4 {
                bgra_from_row(row, channels as int, (i - dst_start) / 4, (i - dst_start) % 4)
            } else {
                old(dst)@[i]
            }) by {
                if di <= i < di + 4 {
                    assert((i - dst_start) / 4 == x && (i - dst_start) % 4 == i - di);
                } else {
                    assert(dst@[i] == before[i]);
                }
            }
        }
        x = x + 1;
    }
}

/// How the bytes of decoded pixels are laid out.
#[derive(Copy, Clone, Debug, PartialEq, Eq, Structural)]
pub enum DecodedLayout {
    /// 8-bit BGRA: copied as they are.
    Bgra,
    /// 8-bit RGBA: copied, then blue and red exchanged.
    Rgba,
    /// 8-bit CMYK: copied as they are, for color management to interpret later.
    Cmyk,
    /// Any other layout, with its number of channels: converted by `row_to_bgra`.
    Other { channels: usize },
}

/// Decoded pixels: `rows` rows of `width` pixels of `bytes_per_pixel` bytes; row `y` is the
/// `width * bytes_per_pixel` bytes of `bytes` from `y * stride` on.
pub struct DecodedPixels<'a> {
    pub bytes: &'a [u8],
    pub stride: usize,
    pub width: u32,
    pub rows: u32,
    pub bytes_per_pixel: usize,
    pub layout: DecodedLayout,
}

/// Byte `b` of row `y` of the BGRA bitmap that the decoded pixels become.
pub open spec fn decoded_byte(p: &DecodedPixels, y: int, b: int) -> u8 {
    let start = y * p.stride;
    match p.layout {
        DecodedLayout::Bgra | DecodedLayout::Cmyk => p.bytes@[start + b],
        DecodedLayout::Rgba => p.bytes@[start + br_source(b)],
        DecodedLayout::Other { channels } => bgra_from_row(p.bytes@.skip(start), channels as int, b / 4, b % 4),
    }
}

/// The decoded pixels fit a bitmap buffer of `dst_len` bytes with rows `dst_stride` bytes apart,
/// and each of their rows holds what its layout reads.
pub open spec fn decoded_fits(p: &DecodedPixels, dst_len: int, dst_stride: int) -> bool {
    &&& p.width * 4 <= dst_stride
    &&& p.rows >= 1 ==> (p.rows - 1) * dst_stride + p.width * 4 <= dst_len
    &&& p.rows >= 1 ==> (p.rows - 1) * p.stride + p.width * p.bytes_per_pixel <= p.bytes@.len()
    &&& (p.layout is Bgra || p.layout is Rgba || p.layout is Cmyk) ==> p.bytes_per_pixel >= 4
    &&& (p.layout matches DecodedLayout::Other { channels } ==> (p.width >= 1 ==>
            (p.width - 1) * channels + bytes_read(channels as int) <= p.width * p.bytes_per_pixel))
}

/// `after` is `before` with the first `4 * width` bytes of each of the first `rows` rows
/// (`stride` bytes apart) taken from the decoded pixels.
pub open spec fn pixels_copied(after: Seq<u8>, before: Seq<u8>, stride: int, p: &DecodedPixels) -> bool {
    &&& after.len() == before.len()
    &&& forall|i: int| 0 <= i < before.len() ==> #[trigger] after[i] == (if in_rows(i, stride, p.rows as int, p.width * 4) {
            decoded_byte(p, i / stride, i % stride)
        } else {
            before[i]
        })
}

/// Position `i` lies in row `y` (rows `stride` bytes apart) within its first `rb` bytes exactly
/// when it lies in `y * stride .. y * stride + rb`, at `i - y * stride` within the row.
proof fn lemma_row_position(i: int, stride: int, y: int, rb: int)
    requires
        0 < rb <= stride,
        0 <= y,
    ensures
        (0 <= i && i / stride == y && i % stride < rb) <==> (y * stride <= i < y * stride + rb),
        (y * stride <= i < y * stride + rb) ==> i % stride == i - y * stride,
{
    assert(0 <= y * stride) by (nonlinear_arith) requires 0 <= y, 0 < stride;
    if y * stride <= i < y * stride + rb {
        lemma_fundamental_div_mod_converse(i, stride, y, i - y * stride);
    }
    if 0 <= i && i / stride == y && i % stride < rb {
        lemma_fundamental_div_mod(i, stride);
        assert(stride * y == y * stride) by (nonlinear_arith);
    }
}

/// Copies `n` bytes from `src_start` of `src` to `dst_start` of `dst`; every other byte of `dst`
/// is unchanged.
fn copy_bytes(dst: &mut [u8], dst_start: usize, src: &[u8], src_start: usize, n: usize)
    requires
        dst_start + n <= old(dst)@.len(),
        src_start + n <= src@.len(),
    ensures
        final(dst)@.len() == old(dst)@.len(),
        forall|i: int| 0 <= i < old(dst)@.len() ==> #[trigger] final(dst)@[i] == (if dst_start <= i < dst_start + n {
            src@[src_start + (i - dst_start)]
        } else {
            old(dst)@[i]
        }),
{
    let dlen = dst.len();
    let slen = src.len();
    let mut k: usize = 0;
    while k < n
        invariant
            dlen == old(dst)@.len(), slen == src@.len(),
            dst_start + n <= old(dst)@.len(),
            src_start + n <= src@.len(),
            k <= n,
            dst@.len() == old(dst)@.len(),
            forall|i: int| 0 <= i < old(dst)@.len() ==> #[trigger] dst@[i] == (if dst_start <= i < dst_start + k {
                src@[src_start + (i - dst_start)]
            } else {
                old(dst)@[i]
            }),
        decreases n - k,
    {
        dst[dst_start + k] = src[src_start + k];
        k = k + 1;
    }
}

/// Copies the first `4 * width` bytes of each decoded row into the rows of `dst`.
fn copy_rows(dst: &mut [u8], dst_stride: usize, ps: &DecodedPixels)
    requires
        decoded_fits(ps, old(dst)@.len() as int, dst_stride as int),
        ps.bytes_per_pixel >= 4,
    ensures
        final(dst)@.len() == old(dst)@.len(),
        forall|i: int| 0 <= i < old(dst)@.len() ==> #[trigger] final(dst)@[i] == (if in_rows(i, dst_stride as int, ps.rows as int, ps.width * 4) {
            ps.bytes@[(i / (dst_stride as int)) * ps.stride + i % (dst_stride as int)]
        } else {
            old(dst)@[i]
        }),
{
    let w = ps.width as usize;
    let h = ps.rows as usize;
    let row_bytes = w * 4;
    let ghost ds = dst_stride as int;
    let dlen = dst.len();
    let blen = ps.bytes.len();
    let mut y: usize = 0;
    while y < h
        invariant
            dlen == old(dst)@.len(), blen == ps.bytes@.len(),
            decoded_fits(ps, old(dst)@.len() as int, dst_stride as int),
            ps.bytes_per_pixel >= 4,
            w == ps.width, h == ps.rows, row_bytes == w * 4, ds == dst_stride,
            y <= h,
            dst@.len() == old(dst)@.len(),
            forall|i: int| 0 <= i < old(dst)@.len() ==> #[trigger] dst@[i] == (if in_rows(i, ds, y as int, row_bytes as int) {
                ps.bytes@[(i / ds) * ps.stride + i % ds]
            } else {
                old(dst)@[i]
            }),
        decreases h - y,
    {
        proof {
            assert(y * dst_stride + row_bytes <= (h - 1) * dst_stride + row_bytes) by (nonlinear_arith)
                requires y <= h - 1;
            assert(y * ps.stride + row_bytes <= (h - 1) * ps.stride + w * ps.bytes_per_pixel) by (nonlinear_arith)
                requires y <= h - 1, row_bytes == w * 4, ps.bytes_per_pixel >= 4;
        }
        let dst_start = y * dst_stride;
        let src_start = y * ps.stride;
        let ghost before = dst@;
        copy_bytes(dst, dst_start, ps.bytes, src_start, row_bytes);
        proof {
            assert forall|i: int| 0 <= i < old(dst)@.len() implies #[trigger] dst@[i] == (if in_rows(i, ds, y + 1, row_bytes as int) {
                ps.bytes@[(i / ds) * ps.stride + i % ds]
            } else {
                old(dst)@[i]
            }) by {
                if row_bytes > 0 {
                    lemma_row_position(i, ds, y as int, row_bytes as int);
                }
            }
        }
        y = y + 1;
    }
}

/// Copies decoded pixels into a BGRA bitmap buffer whose rows lie `dst_stride` bytes apart:
/// BGRA and CMYK rows as they are, RGBA rows with blue and red exchanged, any other layout
/// converted by `row_to_bgra`. Bytes outside the pixels' rows are unchanged.
pub fn copy_pixel_slice_to_bitmap(dst: &mut [u8], dst_stride: usize, ps: &DecodedPixels)
    requires
        decoded_fits(ps, old(dst)@.len() as int, dst_stride as int),
    ensures
        pixels_copied(final(dst)@, old(dst)@, dst_stride as int, ps),
{
    let w = ps.width as usize;
    let h = ps.rows as usize;
    let ghost ds = dst_stride as int;
    let ghost rb = w * 4;
    match ps.layout {
        DecodedLayout::Bgra | DecodedLayout::Cmyk => {
            copy_rows(dst, dst_stride, ps);
        },
        DecodedLayout::Rgba => {
            copy_rows(dst, dst_stride, ps);
            let ghost mid = dst@;
            let swapped = garb_rgba_to_bgra_inplace_strided(dst, w, h, dst_stride);
            proof {
                assert forall|i: int| 0 <= i < old(dst)@.len() implies #[trigger] dst@[i] == (if in_rows(i, ds, h as int, rb) {
                    decoded_byte(ps, i / ds, i % ds)
                } else {
                    old(dst)@[i]
                }) by {
                    if in_rows(i, ds, h as int, rb) {
                        let y = i / ds;
                        let b = i % ds;
                        let j = i - b + br_source(b);
                        lemma_fundamental_div_mod(i, ds);
                        assert(0 <= y) by {
                            vstd::arithmetic::div_mod::lemma_div_pos_is_pos(i, ds);
                        }
                        assert(swapped is Ok);
                        assert(0 <= br_source(b) < rb) by {
                            assert(b % 4 == 0 ==> b + 4 <= rb);
                        }
                        assert(y * ds == ds * y) by (nonlinear_arith);
                        assert(j == y * ds + br_source(b));
                        lemma_row_position(j, ds, y, rb);
                        assert(y * ds + rb <= (h - 1) * ds + rb) by (nonlinear_arith)
                            requires y <= h - 1, ds >= 0;
                        assert(in_rows(j, ds, h as int, rb));
                        assert(dst@[i] == mid[j]);
                        assert(mid[j] == ps.bytes@[(j / ds) * ps.stride + j % ds]);
                    } else {
                        assert(mid[i] == old(dst)@[i]);
                    }
                }
            }
        },
        DecodedLayout::Other { channels } => {
            let dlen = dst.len();
            let blen = ps.bytes.len();
            let mut y: usize = 0;
            while y < h
                invariant
                    dlen == old(dst)@.len(), blen == ps.bytes@.len(),
                    decoded_fits(ps, old(dst)@.len() as int, dst_stride as int),
                    ps.layout == (DecodedLayout::Other { channels }),
                    w == ps.width, h == ps.rows, rb == w * 4, ds == dst_stride,
                    y <= h,
                    dst@.len() == old(dst)@.len(),
                    forall|i: int| 0 <= i < old(dst)@.len() ==> #[trigger] dst@[i] == (if in_rows(i, ds, y as int, rb) {
                        decoded_byte(ps, i / ds, i % ds)
                    } else {
                        old(dst)@[i]
                    }),
                decreases h - y,
            {
                proof {
                    assert(y * dst_stride + w * 4 <= (h - 1) * dst_stride + w * 4) by (nonlinear_arith)
                        requires y <= h - 1;
                    assert(y * ps.stride + w * ps.bytes_per_pixel <= (h - 1) * ps.stride + w * ps.bytes_per_pixel)
                        by (nonlinear_arith) requires y <= h - 1;
                }
                let dst_start = y * dst_stride;
                let src_start = y * ps.stride;
                row_to_bgra_at(dst, dst_start, ps.bytes, src_start, w, channels);
                proof {
                    assert forall|i: int| 0 <= i < old(dst)@.len() implies #[trigger] dst@[i] == (if in_rows(i, ds, y + 1, rb) {
                        decoded_byte(ps, i / ds, i % ds)
                    } else {
                        old(dst)@[i]
                    }) by {
                        if rb > 0 {
                            lemma_row_position(i, ds, y as int, rb);
                        }
                    }
                }
                y = y + 1;
            }
        },
    }
}

/// Why a row sink refuses a request.
#[derive(Debug, Clone, Copy, PartialEq, Eq, Structural)]
pub enum SinkRefusal {
    /// The decoded channels are not 8-bit.
    NotU8,
    /// The strip of rows `y..y + height` and `width` pixels reaches beyond the bitmap.
    StripOutside { y: u32, height: u32, width: u32, bitmap_width: u32, bitmap_height: u32 },
    /// The strip at row `y`, written into the bitmap, would end at byte `needed`, beyond the
    /// `available` bytes.
    StripTooLong { y: u32, needed: usize, available: usize },
}

/// A strip whose decoded pixels wait in the sink's temporary buffer: rows `y..y + height` of
/// `width` pixels of `bytes_per_pixel` bytes and `channels` channels, rows packed one after another.
#[derive(Debug, Clone, Copy, PartialEq, Eq, Structural)]
pub struct StripMeta {
    pub y: u32,
    pub height: u32,
    pub width: u32,
    pub bytes_per_pixel: usize,
    pub channels: usize,
}

/// Where the decoder writes a strip.
#[derive(Debug, Clone, Copy, PartialEq, Eq, Structural)]
pub enum StripBuffer {
    /// Directly into the bitmap: the `len` bytes from `start`, with the bitmap's stride.
    Bitmap { start: usize, len: usize },
    /// Into the first `len` bytes of the sink's temporary buffer, rows `stride` bytes apart.
    Temp { len: usize, stride: usize },
}

/// Receives decoded strips for a BGRA bitmap whose rows lie `stride` bytes apart. Strips of
/// 4-byte pixels are written straight into the bitmap (RGBA ones get blue and red exchanged at
/// the end); other strips are written into a temporary buffer and converted into the bitmap when
/// the next strip arrives or at the end.
pub struct BitmapRowSink {
    stride: usize,
    width: u32,
    height: u32,
    temp: Vec<u8>,
    is_4bpp: bool,
    needs_swizzle: bool,
    prev_strip: Option<StripMeta>,
}

/// Position `i` lies within the strip's rows of the bitmap (rows `stride` bytes apart), within
/// their first `4 * width` bytes.
pub open spec fn in_strip(i: int, stride: int, m: StripMeta) -> bool {
    &&& m.width > 0
    &&& 0 <= i
    &&& m.y <= i / stride < m.y + m.height
    &&& i % stride < m.width * 4
}

/// The bitmap once the strip waiting in `temp` is converted into it: every byte of the strip's
/// rows is the BGRA conversion of the decoded pixel, every other byte is as `before`.
pub open spec fn strip_converted(after: Seq<u8>, before: Seq<u8>, stride: int, m: StripMeta, temp: Seq<u8>) -> bool {
    &&& after.len() == before.len()
    &&& forall|i: int| 0 <= i < before.len() ==> #[trigger] after[i] == (if in_strip(i, stride, m) {
            bgra_from_row(temp.skip((i / stride - m.y) * (m.width * m.bytes_per_pixel)), m.channels as int,
                (i % stride) / 4, (i % stride) % 4)
        } else {
            before[i]
        })
}

/// The strip's rows fit a bitmap of `len` bytes whose rows lie `stride` bytes apart.
pub open spec fn strip_fits(m: StripMeta, stride: int, len: int) -> bool {
    &&& m.width * 4 <= stride
    &&& m.height >= 1 ==> (m.y + m.height - 1) * stride + m.width * 4 <= len
}

impl BitmapRowSink {
    pub closed spec fn spec_stride(&self) -> usize { self.stride }
    pub closed spec fn spec_width(&self) -> u32 { self.width }
    pub closed spec fn spec_height(&self) -> u32 { self.height }
    pub closed spec fn spec_temp(&self) -> Seq<u8> { self.temp@ }
    pub closed spec fn spec_is_4bpp(&self) -> bool { self.is_4bpp }
    pub closed spec fn spec_needs_swizzle(&self) -> bool { self.needs_swizzle }
    pub closed spec fn spec_prev_strip(&self) -> Option<StripMeta> { self.prev_strip }

    /// The waiting strip, if any, lies within the bitmap's declared size, its pixels fit the
    /// temporary buffer, and each of its pixels holds the channels the conversion reads.
    pub closed spec fn wf(&self) -> bool {
        match self.prev_strip {
            Some(m) => {
                &&& m.y + m.height <= self.height
                &&& m.width <= self.width
                &&& m.width * m.bytes_per_pixel <= usize::MAX
                &&& m.height * (m.width * m.bytes_per_pixel) <= self.temp@.len()
                &&& 1 <= m.channels <= m.bytes_per_pixel
            },
            None => true,
        }
    }

    /// A sink for a bitmap whose rows lie `stride` bytes apart, before any strip.
    pub fn new(stride: usize) -> (r: BitmapRowSink)
        ensures
            r.wf(),
            r.spec_stride() == stride,
            r.spec_width() == 0,
            r.spec_height() == 0,
            r.spec_temp() == Seq::<u8>::empty(),
            !r.spec_is_4bpp(),
            !r.spec_needs_swizzle(),
            r.spec_prev_strip() is None,
    {
        BitmapRowSink { stride, width: 0, height: 0, temp: Vec::new(), is_4bpp: false, needs_swizzle: false, prev_strip: None }
    }

    /// Starts a frame of `width` by `height` pixels of `bytes_per_pixel` bytes; channels other than
    /// 8-bit are refused with `NotU8`, and nothing changes then.
    pub fn begin(&mut self, width: u32, height: u32, channels_u8: bool, bytes_per_pixel: usize, rgba: bool)
        -> (r: Result<(), SinkRefusal>)
        requires
            old(self).wf(),
            old(self).spec_prev_strip() matches Some(m) ==> m.y + m.height <= height && m.width <= width,
        ensures
            final(self).wf(),
            !channels_u8 ==> r == Err::<(), SinkRefusal>(SinkRefusal::NotU8) && *final(self) == *old(self),
            channels_u8 ==> {
                &&& r is Ok
                &&& final(self).spec_width() == width
                &&& final(self).spec_height() == height
                &&& final(self).spec_is_4bpp() == (bytes_per_pixel == 4)
                &&& final(self).spec_needs_swizzle() == rgba
                &&& final(self).spec_stride() == old(self).spec_stride()
                &&& final(self).spec_temp() == old(self).spec_temp()
                &&& final(self).spec_prev_strip() == old(self).spec_prev_strip()
            },
    {
        if !channels_u8 {
            return Err(SinkRefusal::NotU8);
        }
        self.width = width;
        self.height = height;
        self.is_4bpp = bytes_per_pixel == 4;
        self.needs_swizzle = rgba;
        Ok(())
    }

    /// The temporary buffer, for the decoder to write a strip into.
    pub fn temp_mut(&mut self) -> (r: &mut [u8])
        ensures
            r@ == old(self).spec_temp(),
            final(self).spec_temp() == final(r)@,
            final(self).spec_stride() == old(self).spec_stride(),
            final(self).spec_width() == old(self).spec_width(),
            final(self).spec_height() == old(self).spec_height(),
            final(self).spec_is_4bpp() == old(self).spec_is_4bpp(),
            final(self).spec_needs_swizzle() == old(self).spec_needs_swizzle(),
            final(self).spec_prev_strip() == old(self).spec_prev_strip(),
    {
        self.temp.as_mut_slice()
    }

    /// Where the decoder writes the strip of rows `y..y + height` and `width` pixels of
    /// `bytes_per_pixel` bytes and `channels` channels. A strip beyond the bitmap's declared size
    /// is refused with `StripOutside`. A strip of 4-byte pixels goes straight into `data`, unless
    /// it would end beyond it (`StripTooLong`); nothing changes then. Any other strip goes into the
    /// temporary buffer, resized to hold it, after the strip waiting there is converted into `data`.
    pub fn provide_next_buffer(&mut self, data: &mut [u8], y: u32, height: u32, width: u32, bytes_per_pixel: usize,
        channels: usize) -> (r: Result<StripBuffer, SinkRefusal>)
        requires
            old(self).wf(),
            ({
                let stride = old(self).spec_stride() as int;
                let inside = y + height <= old(self).spec_height() && width <= old(self).spec_width();
                &&& (inside && old(self).spec_is_4bpp()) ==> width * 4 <= usize::MAX && y * stride
                    + (if height > 0 { (height - 1) * stride + width * 4 } else { 0 }) <= usize::MAX
                &&& (inside && !old(self).spec_is_4bpp()) ==> {
                    &&& 1 <= channels <= bytes_per_pixel
                    &&& width * bytes_per_pixel <= usize::MAX
                    &&& height * (width * bytes_per_pixel) <= usize::MAX
                    &&& old(self).spec_prev_strip() matches Some(m) ==> strip_fits(m, stride, old(data)@.len() as int)
                }
            }),
        ensures
            final(self).wf(),
            final(self).spec_stride() == old(self).spec_stride(),
            final(self).spec_width() == old(self).spec_width(),
            final(self).spec_height() == old(self).spec_height(),
            final(self).spec_is_4bpp() == old(self).spec_is_4bpp(),
            final(self).spec_needs_swizzle() == old(self).spec_needs_swizzle(),
            ({
                let stride = old(self).spec_stride() as int;
                let inside = y + height <= old(self).spec_height() && width <= old(self).spec_width();
                let start = y * stride;
                let needed = if height > 0 { (height - 1) * stride + width * 4 } else { 0 };
                &&& !inside ==> r == Err::<StripBuffer, SinkRefusal>(SinkRefusal::StripOutside {
                        y, height, width, bitmap_width: old(self).spec_width(), bitmap_height: old(self).spec_height(),
                    })
                &&& (!inside || old(self).spec_is_4bpp()) ==> *final(self) == *old(self) && final(data)@ == old(data)@
                &&& (inside && old(self).spec_is_4bpp() && start + needed > old(data)@.len()) ==>
                    r == Err::<StripBuffer, SinkRefusal>(SinkRefusal::StripTooLong {
                        y, needed: (start + needed) as usize, available: old(data)@.len() as usize,
                    })
                &&& (inside && old(self).spec_is_4bpp() && start + needed <= old(data)@.len()) ==>
                    r == Ok::<StripBuffer, SinkRefusal>(StripBuffer::Bitmap { start: start as usize, len: needed as usize })
                &&& (inside && !old(self).spec_is_4bpp()) ==> {
                    &&& r == Ok::<StripBuffer, SinkRefusal>(StripBuffer::Temp {
                            len: (height * (width * bytes_per_pixel)) as usize, stride: (width * bytes_per_pixel) as usize,
                        })
                    &&& final(self).spec_prev_strip() == Some(StripMeta { y, height, width, bytes_per_pixel, channels })
                    &&& final(self).spec_temp().len() == height * (width * bytes_per_pixel)
                    &&& match old(self).spec_prev_strip() {
                        Some(m) => strip_converted(final(data)@, old(data)@, stride, m, old(self).spec_temp()),
                        None => final(data)@ == old(data)@,
                    }
                }
            }),
    {
        let end_row = y as u64 + height as u64;
        if end_row > self.height as u64 || width > self.width {
            return Err(SinkRefusal::StripOutside {
                y, height, width, bitmap_width: self.width, bitmap_height: self.height,
            });
        }
        if self.is_4bpp {
            let row_bytes = width as usize * 4;
            let row_start = y as usize * self.stride;
            let needed = if height > 0 { (height as usize - 1) * self.stride + row_bytes } else { 0 };
            if row_start + needed > data.len() {
                return Err(SinkRefusal::StripTooLong { y, needed: row_start + needed, available: data.len() });
            }
            Ok(StripBuffer::Bitmap { start: row_start, len: needed })
        } else {
            if let Some(meta) = self.prev_strip {
                self.convert_strip(data, meta);
            }
            let src_stride = width as usize * bytes_per_pixel;
            let needed = height as usize * src_stride;
            self.temp.resize(needed, 0);
            self.prev_strip = Some(StripMeta { y, height, width, bytes_per_pixel, channels });
            Ok(StripBuffer::Temp { len: needed, stride: src_stride })
        }
    }

    /// Ends the frame: the strip waiting in the temporary buffer is converted into `data`, and an
    /// RGBA frame gets blue and red exchanged in every pixel of its rows (when it has rows and
    /// they fit `data`).
    pub fn finish(&mut self, data: &mut [u8]) -> (r: Result<(), SinkRefusal>)
        requires
            old(self).wf(),
            old(self).spec_prev_strip() matches Some(m) ==> strip_fits(m, old(self).spec_stride() as int,
                old(data)@.len() as int),
        ensures
            r is Ok,
            final(self).wf(),
            final(self).spec_prev_strip() is None,
            final(self).spec_stride() == old(self).spec_stride(),
            final(self).spec_width() == old(self).spec_width(),
            final(self).spec_height() == old(self).spec_height(),
            final(self).spec_temp() == old(self).spec_temp(),
            exists|mid: Seq<u8>| {
                &&& match old(self).spec_prev_strip() {
                    Some(m) => strip_converted(mid, old(data)@, old(self).spec_stride() as int, m, old(self).spec_temp()),
                    None => mid == old(data)@,
                }
                &&& if old(self).spec_needs_swizzle() && old(self).spec_width() > 0 && old(self).spec_height() > 0
                    && old(self).spec_width() * 4 <= old(self).spec_stride()
                    && (old(self).spec_height() - 1) * old(self).spec_stride() + old(self).spec_width() * 4 <= mid.len() {
                    strided_swapped(final(data)@, mid, old(self).spec_width() as int, old(self).spec_height() as int,
                        old(self).spec_stride() as int)
                } else {
                    final(data)@ == mid
                }
            },
    {
        if let Some(meta) = self.prev_strip {
            self.convert_strip(data, meta);
        }
        self.prev_strip = None;
        let ghost mid = data@;
        if self.needs_swizzle {
            let _ = garb_rgba_to_bgra_inplace_strided(data, self.width as usize, self.height as usize, self.stride);
        }
        proof {
            assert(mid.len() == old(data)@.len());
        }
        Ok(())
    }

    /// Converts the waiting strip from the temporary buffer into the bitmap.
    fn convert_strip(&self, data: &mut [u8], meta: StripMeta)
        requires
            self.wf(),
            self.prev_strip == Some(meta),
            strip_fits(meta, self.stride as int, old(data)@.len() as int),
        ensures
            strip_converted(final(data)@, old(data)@, self.stride as int, meta, self.temp@),
    {
        let src_stride = meta.width as usize * meta.bytes_per_pixel;
        let w = meta.width as usize;
        let dlen = data.len();
        let tlen = self.temp.len();
        let ghost stride = self.stride as int;
        let mut row: usize = 0;
        while row < meta.height as usize
            invariant
                self.wf(),
                self.prev_strip == Some(meta),
                strip_fits(meta, stride, old(data)@.len() as int),
                dlen == old(data)@.len(), tlen == self.temp@.len(),
                src_stride == meta.width * meta.bytes_per_pixel, w == meta.width, stride == self.stride,
                row <= meta.height,
                data@.len() == old(data)@.len(),
                forall|i: int| 0 <= i < old(data)@.len() ==> #[trigger] data@[i] == (if in_strip(i, stride,
                    StripMeta { height: row as u32, ..meta }) {
                    bgra_from_row(self.temp@.skip((i / stride - meta.y) * (meta.width * meta.bytes_per_pixel)),
                        meta.channels as int, (i % stride) / 4, (i % stride) % 4)
                } else {
                    old(data)@[i]
                }),
            decreases meta.height - row,
        {
            proof {
                assert((meta.y + row) * self.stride + w * 4 <= (meta.y + meta.height - 1) * self.stride + w * 4)
                    by (nonlinear_arith) requires row <= meta.height - 1;
                assert(row * src_stride + src_stride <= meta.height * src_stride) by (nonlinear_arith)
                    requires row <= meta.height - 1;
                assert(w * meta.channels <= src_stride) by (nonlinear_arith)
                    requires meta.channels <= meta.bytes_per_pixel, src_stride == w * meta.bytes_per_pixel;
                if w >= 1 {
                    assert((w - 1) * meta.channels + meta.channels == w * meta.channels) by (nonlinear_arith);
                }
            }
            let dst_start = (meta.y as usize + row) * self.stride;
            let src_start = row * src_stride;
            let ghost before = data@;
            row_to_bgra_at(data, dst_start, &self.temp, src_start, w, meta.channels);
            proof {
                assert forall|i: int| 0 <= i < old(data)@.len() implies #[trigger] data@[i] == (if in_strip(i, stride,
                    StripMeta { height: (row + 1) as u32, ..meta }) {
                    bgra_from_row(self.temp@.skip((i / stride - meta.y) * (meta.width * meta.bytes_per_pixel)),
                        meta.channels as int, (i % stride) / 4, (i % stride) % 4)
                } else {
                    old(data)@[i]
                }) by {
                    if w > 0 {
                        lemma_row_position(i, stride, meta.y + row, (w * 4) as int);
                    }
                }
            }
            row = row + 1;
        }
        proof {
            assert forall|i: int| 0 <= i < old(data)@.len() implies #[trigger] data@[i] == (if in_strip(i, stride, meta) {
                bgra_from_row(self.temp@.skip((i / stride - meta.y) * (meta.width * meta.bytes_per_pixel)),
                    meta.channels as int, (i % stride) / 4, (i % stride) % 4)
            } else {
                old(data)@[i]
            }) by {
                assert(StripMeta { height: meta.height, ..meta } == meta);
            }
        }
    }
}

} // verus!
