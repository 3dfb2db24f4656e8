//! What the zen encoder decides around the calls it makes into its codec: the settings of each
//! format, the matte that removes alpha, how a frame's pixels are laid out for the codec, and the
//! delay of an animation frame. The codec calls themselves are made by the caller.
use vstd::prelude::*;
use crate::errors::ErrorKind;
use crate::flow_error::FlowError;
use crate::graphics::bitmaps::{Color32, PixelFormat, PixelLayout};
use crate::graphics::swizzle::{
    br_source, garb_bgra_to_rgba_inplace_strided, garb_fill_alpha_bgra_strided, garb_fill_alpha_rgba_strided,
    in_rows,
};

verus! {

/// The formats the zen encoders write.
#[derive(Copy, Clone, Debug, PartialEq, Eq, Structural)]
pub enum EncoderFormat {
    /// JPEG through the native zenjpeg encoder.
    Jpeg,
    /// JPEG through the mozjpeg-rs encoder.
    MozjpegRs,
    WebP,
    Gif,
    Avif,
    Jxl,
    Bmp,
    Png,
}

/// The file extension of a format's output.
pub open spec fn spec_extension(f: EncoderFormat) -> Seq<char> {
    match f {
        EncoderFormat::Jpeg | EncoderFormat::MozjpegRs => "jpg"@,
        EncoderFormat::WebP => "webp"@,
        EncoderFormat::Gif => "gif"@,
        EncoderFormat::Avif => "avif"@,
        EncoderFormat::Jxl => "jxl"@,
        EncoderFormat::Bmp => "bmp"@,
        EncoderFormat::Png => "png"@,
    }
}

/// The MIME type of a format's output.
pub open spec fn spec_mime_type(f: EncoderFormat) -> Seq<char> {
    match f {
        EncoderFormat::Jpeg | EncoderFormat::MozjpegRs => "image/jpeg"@,
        EncoderFormat::WebP => "image/webp"@,
        EncoderFormat::Gif => "image/gif"@,
        EncoderFormat::Avif => "image/avif"@,
        EncoderFormat::Jxl => "image/jxl"@,
        EncoderFormat::Bmp => "image/bmp"@,
        EncoderFormat::Png => "image/png"@,
    }
}

/// The IANA media subtype named by a file extension: "jpg" files are "jpeg"; other extensions
/// name their subtype as they are.
pub open spec fn media_subtype(ext: Seq<char>) -> Seq<char> {
    if ext == "jpg"@ { "jpeg"@ } else { ext }
}

/// Every encoder's output is labelled consistently: its MIME type is "image/" followed by the
/// media subtype its extension names.
pub proof fn lemma_mime_type_matches_extension(f: EncoderFormat)
    ensures
        spec_mime_type(f) == "image/"@ + media_subtype(spec_extension(f)),
{
    reveal_strlit("jpg");
    reveal_strlit("jpeg");
    reveal_strlit("webp");
    reveal_strlit("gif");
    reveal_strlit("avif");
    reveal_strlit("jxl");
    reveal_strlit("bmp");
    reveal_strlit("png");
    reveal_strlit("image/");
    reveal_strlit("image/jpeg");
    reveal_strlit("image/webp");
    reveal_strlit("image/gif");
    reveal_strlit("image/avif");
    reveal_strlit("image/jxl");
    reveal_strlit("image/bmp");
    reveal_strlit("image/png");
    let e = spec_extension(f);
    match f {
        EncoderFormat::Jpeg | EncoderFormat::MozjpegRs => {
            assert(media_subtype(e) == "jpeg"@);
            assert("image/jpeg"@ =~= "image/"@ + "jpeg"@);
        },
        EncoderFormat::WebP => {
            assert(e[0] != "jpg"@[0]);
            assert("image/webp"@ =~= "image/"@ + "webp"@);
        },
        EncoderFormat::Gif => {
            assert(e[0] != "jpg"@[0]);
            assert("image/gif"@ =~= "image/"@ + "gif"@);
        },
        EncoderFormat::Avif => {
            assert(e[0] != "jpg"@[0]);
            assert("image/avif"@ =~= "image/"@ + "avif"@);
        },
        EncoderFormat::Jxl => {
            assert(e[1] != "jpg"@[1]);
            assert("image/jxl"@ =~= "image/"@ + "jxl"@);
        },
        EncoderFormat::Bmp => {
            assert(e[0] != "jpg"@[0]);
            assert("image/bmp"@ =~= "image/"@ + "bmp"@);
        },
        EncoderFormat::Png => {
            assert(e[0] != "jpg"@[0]);
            assert("image/png"@ =~= "image/"@ + "png"@);
        },
    }
}

/// Only the two JPEG encoders share an extension; every other format's output is told apart by
/// its extension.
pub proof fn lemma_extensions_tell_formats_apart(f: EncoderFormat, g: EncoderFormat)
    requires
        spec_extension(f) == spec_extension(g),
    ensures
        f == g || ((f == EncoderFormat::Jpeg || f == EncoderFormat::MozjpegRs)
            && (g == EncoderFormat::Jpeg || g == EncoderFormat::MozjpegRs)),
{
    reveal_strlit("jpg");
    reveal_strlit("webp");
    reveal_strlit("gif");
    reveal_strlit("avif");
    reveal_strlit("jxl");
    reveal_strlit("bmp");
    reveal_strlit("png");
    let e = spec_extension(f);
    assert(e[0] == spec_extension(g)[0]);
    assert(e[1] == spec_extension(g)[1]);
}

impl EncoderFormat {
    /// The extension the output is given.
    pub fn preferred_extension(&self) -> (r: &'static str)
        ensures
            r@ == spec_extension(*self),
    {
        match self {
            EncoderFormat::Jpeg | EncoderFormat::MozjpegRs => "jpg",
            EncoderFormat::WebP => "webp",
            EncoderFormat::Gif => "gif",
            EncoderFormat::Avif => "avif",
            EncoderFormat::Jxl => "jxl",
            EncoderFormat::Bmp => "bmp",
            EncoderFormat::Png => "png",
        }
    }

    /// The MIME type the output is given.
    pub fn preferred_mime_type(&self) -> (r: &'static str)
        ensures
            r@ == spec_mime_type(*self),
    {
        match self {
            EncoderFormat::Jpeg | EncoderFormat::MozjpegRs => "image/jpeg",
            EncoderFormat::WebP => "image/webp",
            EncoderFormat::Gif => "image/gif",
            EncoderFormat::Avif => "image/avif",
            EncoderFormat::Jxl => "image/jxl",
            EncoderFormat::Bmp => "image/bmp",
            EncoderFormat::Png => "image/png",
        }
    }

    /// WebP and GIF are written through the animation encoder (a one-frame WebP animation is
    /// written as a still image); the other formats are written one image at a time.
    pub fn supports_animation(&self) -> (r: bool)
        ensures
            r == (*self == EncoderFormat::WebP || *self == EncoderFormat::Gif),
    {
        match self {
            EncoderFormat::WebP | EncoderFormat::Gif => true,
            _ => false,
        }
    }

    /// The matte the encoder composes frames onto before writing them. JPEG has no alpha, so
    /// both JPEG encoders always compose, onto opaque white where no matte was given; GIF and
    /// JPEG XL compose onto none; the other formats keep the matte they were given.
    pub fn matte(&self, requested: Option<Color32>) -> (r: Option<Color32>)
        ensures
            (*self == EncoderFormat::Jpeg || *self == EncoderFormat::MozjpegRs) ==> r == Some(match requested {
                Some(c) => c,
                None => Color32(0xFFFF_FFFF),
            }),
            (*self == EncoderFormat::Gif || *self == EncoderFormat::Jxl) ==> r is None,
            (*self == EncoderFormat::WebP || *self == EncoderFormat::Avif || *self == EncoderFormat::Bmp
                || *self == EncoderFormat::Png) ==> r == requested,
    {
        match self {
            EncoderFormat::Jpeg | EncoderFormat::MozjpegRs => Some(match requested {
                Some(c) => c,
                None => Color32(0xFFFF_FFFF),
            }),
            EncoderFormat::Gif | EncoderFormat::Jxl => None,
            _ => requested,
        }
    }
}

/// An encoder that the job disabled is refused with `CodecDisabledError`.
pub fn require_encoder_enabled(enabled: bool) -> (r: Result<(), FlowError>)
    ensures
        enabled ==> r is Ok,
        !enabled ==> (r matches Err(e) && e.kind == ErrorKind::CodecDisabledError),
{
    if enabled {
        Ok(())
    } else {
        Err(FlowError::with_message(ErrorKind::CodecDisabledError, "The encoder has been disabled"))
    }
}

/// The settings of a JPEG encoder.
#[derive(Copy, Clone, Debug, PartialEq, Eq, Structural)]
pub struct JpegSettings {
    /// Quality on the mozjpeg scale, 0 to 100.
    pub quality: u8,
    /// Chroma at full resolution (4:4:4) rather than a quarter (4:2:0).
    pub full_chroma: bool,
    pub progressive: bool,
    /// Adaptive quantization and other automatic optimizations.
    pub auto_optimize: bool,
    pub optimize_huffman: bool,
}

/// The mozjpeg-style JPEG settings: quality 75 unless given, at most 100; full chroma only above
/// quality 90; progressive unless turned off; automatic optimization on.
pub fn mozjpeg_style_settings(quality: Option<u8>, progressive: Option<bool>) -> (r: JpegSettings)
    ensures
        r.quality == (match quality {
            Some(q) => if q > 100 { 100u8 } else { q },
            None => 75u8,
        }),
        r.full_chroma == (r.quality > 90),
        r.progressive == (match progressive {
            Some(p) => p,
            None => true,
        }),
        r.auto_optimize,
        !r.optimize_huffman,
{
    let raw: u8 = match quality {
        Some(q) => q,
        None => 75,
    };
    let q: u8 = if raw > 100 { 100 } else { raw };
    JpegSettings {
        quality: q,
        full_chroma: q > 90,
        progressive: match progressive {
            Some(p) => p,
            None => true,
        },
        auto_optimize: true,
        optimize_huffman: false,
    }
}

/// The libjpeg-turbo-style JPEG settings: quality 100 unless given, clamped to 0..=100; full
/// chroma from quality 90; baseline unless progressive is asked for; no automatic optimization;
/// Huffman optimization only when asked for.
pub fn libjpeg_turbo_style_settings(quality: Option<i32>, progressive: Option<bool>, optimize_huffman: Option<bool>)
    -> (r: JpegSettings)
    ensures
        r.quality == (match quality {
            Some(q) => if q < 0 { 0int } else if q > 100 { 100int } else { q as int },
            None => 100int,
        }),
        r.full_chroma == (r.quality >= 90),
        r.progressive == (match progressive {
            Some(p) => p,
            None => false,
        }),
        !r.auto_optimize,
        r.optimize_huffman == (match optimize_huffman {
            Some(o) => o,
            None => false,
        }),
{
    let raw: i32 = match quality {
        Some(q) => q,
        None => 100,
    };
    let clamped: i32 = if raw < 0 { 0 } else if raw > 100 { 100 } else { raw };
    let q: u8 = clamped as u8;
    JpegSettings {
        quality: q,
        full_chroma: q >= 90,
        progressive: match progressive {
            Some(p) => p,
            None => false,
        },
        auto_optimize: false,
        optimize_huffman: match optimize_huffman {
            Some(o) => o,
            None => false,
        },
    }
}

/// The settings of the standalone zenjpeg encoder: quality 75 unless given, at most 100; full
/// chroma from quality 90; progressive unless turned off; automatic optimization on.
pub fn zenjpeg_encoder_settings(quality: Option<u8>, progressive: Option<bool>) -> (r: JpegSettings)
    ensures
        r.quality == (match quality {
            Some(q) => if q > 100 { 100u8 } else { q },
            None => 75u8,
        }),
        r.full_chroma == (r.quality >= 90),
        r.progressive == (match progressive {
            Some(p) => p,
            None => true,
        }),
        r.auto_optimize,
        !r.optimize_huffman,
{
    let raw: u8 = match quality {
        Some(q) => q,
        None => 75,
    };
    let q: u8 = if raw > 100 { 100 } else { raw };
    JpegSettings {
        quality: q,
        full_chroma: q >= 90,
        progressive: match progressive {
            Some(p) => p,
            None => true,
        },
        auto_optimize: true,
        optimize_huffman: false,
    }
}

/// A WebP encoder cannot be both lossless and given a quality: that is `InvalidState`.
pub fn check_webp_options(lossless: Option<bool>, quality_given: bool) -> (r: Result<(), FlowError>)
    ensures
        (lossless == Some(true) && quality_given) ==> (r matches Err(e) && e.kind == ErrorKind::InvalidState),
        !(lossless == Some(true) && quality_given) ==> r is Ok,
{
    if lossless == Some(true) && quality_given {
        Err(FlowError::with_message(ErrorKind::InvalidState, "Cannot specify both lossless=true and quality"))
    } else {
        Ok(())
    }
}

/// The pixel layouts the WebP encoder reads.
#[derive(Copy, Clone, Debug, PartialEq, Eq, Structural)]
pub enum WebpInputLayout {
    Bgra8,
    Bgr8,
}

/// The layout, and bytes per pixel, the WebP encoder reads a bitmap of the given layout in; gray
/// bitmaps are `ImageEncodingError`.
pub fn webp_input_layout(layout: PixelLayout) -> (r: Result<(WebpInputLayout, usize), FlowError>)
    ensures
        layout == PixelLayout::BGRA ==> r == Ok::<(WebpInputLayout, usize), FlowError>((WebpInputLayout::Bgra8, 4)),
        layout == PixelLayout::BGR ==> r == Ok::<(WebpInputLayout, usize), FlowError>((WebpInputLayout::Bgr8, 3)),
        layout == PixelLayout::Gray ==> (r matches Err(e) && e.kind == ErrorKind::ImageEncodingError),
{
    match layout {
        PixelLayout::BGRA => Ok((WebpInputLayout::Bgra8, 4)),
        PixelLayout::BGR => Ok((WebpInputLayout::Bgr8, 3)),
        PixelLayout::Gray => Err(FlowError::with_message(ErrorKind::ImageEncodingError, "zenwebp: unsupported pixel layout")),
    }
}

/// The mozjpeg-rs settings: quality 85 unless given, at most 100, and effort 2 for progressive
/// output (the default) or 1 for baseline.
pub fn mozjpeg_rs_settings(quality: Option<u8>, progressive: Option<bool>) -> (r: (u8, u32))
    ensures
        r.0 == (match quality {
            Some(q) => if q > 100 { 100u8 } else { q },
            None => 85u8,
        }),
        r.1 == (if (match progressive {
            Some(p) => p,
            None => true,
        }) {
            2u32
        } else {
            1u32
        }),
{
    let raw: u8 = match quality {
        Some(q) => q,
        None => 85,
    };
    let q: u8 = if raw > 100 { 100 } else { raw };
    let progressive = match progressive {
        Some(p) => p,
        None => true,
    };
    (q, if progressive { 2 } else { 1 })
}

/// The pixel layouts the native JPEG encoder reads.
#[derive(Copy, Clone, Debug, PartialEq, Eq, Structural)]
pub enum JpegInputLayout {
    Bgra8,
    /// BGR with a padding byte.
    Bgrx8,
    Bgr8,
    Gray8,
}

/// The layout the JPEG encoder reads a bitmap of the given format in.
pub fn jpeg_input_layout(fmt: PixelFormat) -> (r: JpegInputLayout)
    ensures
        fmt == PixelFormat::Bgra32 ==> r == JpegInputLayout::Bgra8,
        fmt == PixelFormat::Bgr32 ==> r == JpegInputLayout::Bgrx8,
        fmt == PixelFormat::Bgr24 ==> r == JpegInputLayout::Bgr8,
        fmt == PixelFormat::Gray8 ==> r == JpegInputLayout::Gray8,
{
    match fmt {
        PixelFormat::Bgra32 => JpegInputLayout::Bgra8,
        PixelFormat::Bgr32 => JpegInputLayout::Bgrx8,
        PixelFormat::Bgr24 => JpegInputLayout::Bgr8,
        PixelFormat::Gray8 => JpegInputLayout::Gray8,
    }
}

/// Rows with no padding between them are handed to the JPEG encoder as one slice; otherwise
/// they are handed over one by one.
pub fn rows_are_packed(w: usize, fmt: PixelFormat, stride: usize) -> (r: bool)
    ensures
        r == (w * fmt.spec_bytes() == stride),
{
    let bytes = fmt.bytes();
    proof {
        assert(w * fmt.spec_bytes() <= usize::MAX * 4) by (nonlinear_arith)
            requires fmt.spec_bytes() <= 4;
    }
    (w as u128) * (bytes as u128) == stride as u128
}

/// The byte order of the 4-byte pixels handed to an encoder.
#[derive(Copy, Clone, Debug, PartialEq, Eq, Structural)]
pub enum EncodeOrder {
    Bgra,
    Rgba,
}

/// Alpha is set opaque before encoding where the frame's alpha is not meaningful and the codec
/// writes an alpha channel (so that it does not write what was left in the alpha bytes).
pub fn needs_alpha_fill(make_opaque: bool, codec_writes_alpha: bool) -> (r: bool)
    ensures
        r == (make_opaque && codec_writes_alpha),
{
    make_opaque && codec_writes_alpha
}

/// The buffer's bytes after preparing `h` rows of `w` BGRA pixels, `stride` bytes apart, for an
/// encoder: blue and red exchanged where the encoder does not take BGRA, and alpha set to 255
/// where asked; the bytes between rows and after the last row are unchanged.
pub open spec fn prepared_pixels(before: Seq<u8>, w: int, h: int, stride: int, takes_bgra: bool, fill_alpha: bool) -> Seq<u8> {
    Seq::new(before.len(), |i: int|
        if in_rows(i, stride, h, w * 4) {
            if fill_alpha && (i % stride) % 4 == 3 {
                255u8
            } else if takes_bgra {
                before[i]
            } else {
                before[i - i % stride + br_source(i % stride)]
            }
        } else {
            before[i]
        })
}

/// The shape a strided 4-byte buffer must have to be prepared: at least one row of at least one
/// pixel, rows that fit their stride, and a last row within the buffer.
pub open spec fn strided_shape_ok(len: int, w: int, h: int, stride: int) -> bool {
    w > 0 && h > 0 && w * 4 <= stride && (h - 1) * stride + w * 4 <= len
}

/// Prepares the BGRA pixels of a frame for an encoder: they stay BGRA where the encoder takes
/// BGRA, and are swapped to RGBA otherwise; where alpha must be filled, every alpha byte becomes
/// 255. Returns the order handed over. A buffer of any other shape is left as it is.
pub fn prepare_pixels_for_encoder(buf: &mut [u8], w: usize, h: usize, stride: usize, takes_bgra: bool, fill_alpha: bool)
    -> (r: EncodeOrder)
    ensures
        r == (if takes_bgra { EncodeOrder::Bgra } else { EncodeOrder::Rgba }),
        strided_shape_ok(old(buf)@.len() as int, w as int, h as int, stride as int) ==>
            final(buf)@ == prepared_pixels(old(buf)@, w as int, h as int, stride as int, takes_bgra, fill_alpha),
        !strided_shape_ok(old(buf)@.len() as int, w as int, h as int, stride as int) ==> final(buf)@ == old(buf)@,
{
    let ghost before = buf@;
    if takes_bgra {
        if fill_alpha {
            let _ = garb_fill_alpha_bgra_strided(buf, w, h, stride);
        }
        proof {
            if strided_shape_ok(before.len() as int, w as int, h as int, stride as int) {
                assert(buf@ =~= prepared_pixels(before, w as int, h as int, stride as int, takes_bgra, fill_alpha));
            }
        }
        EncodeOrder::Bgra
    } else {
        let _ = garb_bgra_to_rgba_inplace_strided(buf, w, h, stride);
        let ghost swapped = buf@;
        if fill_alpha {
            let _ = garb_fill_alpha_rgba_strided(buf, w, h, stride);
        }
        proof {
            if strided_shape_ok(before.len() as int, w as int, h as int, stride as int) {
                assert forall|i: int| 0 <= i < before.len() implies #[trigger] buf@[i]
                    == prepared_pixels(before, w as int, h as int, stride as int, takes_bgra, fill_alpha)[i] by {
                    if in_rows(i, stride as int, h as int, w as int * 4) && !(fill_alpha && (i % stride as int) % 4 == 3) {
                        assert(swapped[i] == before[i - i % stride as int + br_source(i % stride as int)]);
                    }
                }
                assert(buf@ =~= prepared_pixels(before, w as int, h as int, stride as int, takes_bgra, fill_alpha));
            }
        }
        EncodeOrder::Rgba
    }
}

/// The delay of an animation frame in milliseconds: the source frame's delay, in centiseconds,
/// times ten, or 100 where the source has none.
pub fn frame_delay_ms(source_delay_cs: Option<u16>) -> (r: u32)
    ensures
        r == (match source_delay_cs {
            Some(d) => d as int * 10,
            None => 100int,
        }),
{
    match source_delay_cs {
        Some(d) => (d as u32) * 10,
        None => 100,
    }
}

} // verus!
