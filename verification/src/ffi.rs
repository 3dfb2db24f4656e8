//! Types shared with the C side of the library: compositing modes, decoder hints, color profile
//! sources and JPEG markers, with the values that C code uses for them.
use vstd::prelude::*;

verus! {

/// How a bitmap is composed onto what lies below it.
#[derive(Copy, Clone, Debug, PartialEq, Eq, Structural)]
pub enum BitmapCompositingMode {
    ReplaceSelf,
    BlendWithSelf,
    BlendWithMatte,
}

impl BitmapCompositingMode {
    /// The value that C code uses for the mode.
    pub fn c_value(&self) -> (r: i32)
        ensures
            r == (match *self {
                BitmapCompositingMode::ReplaceSelf => 0i32,
                BitmapCompositingMode::BlendWithSelf => 1i32,
                BitmapCompositingMode::BlendWithMatte => 2i32,
            }),
    {
        match *self {
            BitmapCompositingMode::ReplaceSelf => 0,
            BitmapCompositingMode::BlendWithSelf => 1,
            BitmapCompositingMode::BlendWithMatte => 2,
        }
    }
}

/// When and how a decoder may scale an image down while decoding it.
#[derive(Copy, Clone, Debug, PartialEq, Eq, Structural)]
pub struct DecoderDownscaleHints {
    pub downscale_if_wider_than: i64,
    pub or_if_taller_than: i64,
    pub downscaled_min_width: i64,
    pub downscaled_min_height: i64,
    pub scale_luma_spatially: bool,
    pub gamma_correct_for_srgb_during_spatial_luma_scaling: bool,
}

/// Where the color profile of a decoded image comes from.
#[allow(non_camel_case_types)]
#[derive(Copy, Clone, Debug, PartialEq, Eq, Structural)]
pub enum ColorProfileSource {
    Null,
    ICCP,
    ICCP_GRAY,
    GAMA_CHRM,
    sRGB,
}

impl ColorProfileSource {
    /// The value that C code uses for the source.
    pub fn c_value(&self) -> (r: i32)
        ensures
            r == (match *self {
                ColorProfileSource::Null => 0i32,
                ColorProfileSource::ICCP => 1i32,
                ColorProfileSource::ICCP_GRAY => 2i32,
                ColorProfileSource::GAMA_CHRM => 3i32,
                ColorProfileSource::sRGB => 4i32,
            }),
    {
        match *self {
            ColorProfileSource::Null => 0,
            ColorProfileSource::ICCP => 1,
            ColorProfileSource::ICCP_GRAY => 2,
            ColorProfileSource::GAMA_CHRM => 3,
            ColorProfileSource::sRGB => 4,
        }
    }
}

/// The JPEG markers that decoders keep.
#[derive(Copy, Clone, Debug, PartialEq, Eq, Structural)]
pub enum JpegMarker {
    App0,
    ICC,
    EXIF,
}

impl JpegMarker {
    /// The marker's code in a JPEG stream.
    pub fn code(&self) -> (r: u8)
        ensures
            r == (match *self {
                JpegMarker::App0 => 0xE0u8,
                JpegMarker::ICC => 0xE2u8,
                JpegMarker::EXIF => 0xE1u8,
            }),
    {
        match *self {
            JpegMarker::App0 => 0xE0,
            JpegMarker::ICC => 0xE2,
            JpegMarker::EXIF => 0xE1,
        }
    }
}

} // verus!
