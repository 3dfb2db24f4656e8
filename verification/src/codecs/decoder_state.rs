//! What the zen decoder decides between the calls it makes into its codec: which formats carry
//! EXIF orientation or CMYK data, which decode path a frame takes, what the color management
//! stage is told about the source, which frame comes next, and whether more frames follow.
//!
//! The codec calls themselves (probing, decoding, rendering frames) are made by the caller, which
//! hands the results to these functions and performs what they decide.
use vstd::prelude::*;
use crate::errors::ErrorKind;
use crate::flow_error::FlowError;
use crate::graphics::bitmaps::PixelFormat;

verus! {

/// The image formats the zen decoders read.
#[derive(Copy, Clone, Debug, PartialEq, Eq, Structural)]
pub enum ZenFormat {
    Jpeg,
    WebP,
    Png,
    Gif,
    Avif,
    Jxl,
    Bmp,
}

/// JPEG and JPEG XL carry EXIF orientation.
pub fn has_exif_orientation(fmt: ZenFormat) -> (r: bool)
    ensures
        r == (fmt == ZenFormat::Jpeg || fmt == ZenFormat::Jxl),
{
    match fmt {
        ZenFormat::Jpeg | ZenFormat::Jxl => true,
        _ => false,
    }
}

/// JPEG is the only format decoded to raw CMYK data.
pub fn may_have_cmyk(fmt: ZenFormat) -> (r: bool)
    ensures
        r == (fmt == ZenFormat::Jpeg),
{
    match fmt {
        ZenFormat::Jpeg => true,
        _ => false,
    }
}

/// GIF always goes through the frame decoder, since probing cannot tell whether it is animated.
pub fn always_use_frame_decoder(fmt: ZenFormat) -> (r: bool)
    ensures
        r == (fmt == ZenFormat::Gif),
{
    match fmt {
        ZenFormat::Gif => true,
        _ => false,
    }
}

/// JPEG is decoded into a buffer and copied, rather than streamed row by row into the bitmap.
pub fn prefers_buffered_decode(fmt: ZenFormat) -> (r: bool)
    ensures
        r == (fmt == ZenFormat::Jpeg),
{
    match fmt {
        ZenFormat::Jpeg => true,
        _ => false,
    }
}

/// Coding-independent code points of a source's color.
#[derive(Copy, Clone, Debug, PartialEq, Eq, Structural)]
pub struct Cicp {
    pub color_primaries: u8,
    pub transfer_characteristics: u8,
    pub matrix_coefficients: u8,
    pub full_range: bool,
}

/// What a probe reports of a source's color.
#[derive(Clone, Debug)]
pub struct SourceColor {
    pub channel_count: Option<u8>,
    pub has_alpha: bool,
    pub icc_profile: Option<Vec<u8>>,
    pub cicp: Option<Cicp>,
}

/// What the color management stage converts from.
#[derive(Clone, Debug)]
pub enum SourceProfile {
    /// Nothing to convert.
    Srgb,
    /// Raw CMYK data, with its embedded ICC profile, or with none, where the fallback CMYK
    /// profile applies.
    CmykIcc(Option<Vec<u8>>),
    /// A grayscale source with an ICC profile.
    IccProfileGray(Vec<u8>),
    IccProfile(Vec<u8>),
    Cicp(Cicp),
}

/// The source is raw CMYK data: a format that may carry it, four channels and no alpha.
pub open spec fn cmyk_source(fmt: ZenFormat, channel_count: Option<u8>, has_alpha: bool) -> bool {
    fmt == ZenFormat::Jpeg && channel_count == Some(4u8) && !has_alpha
}

/// The profile the color management stage converts from. CMYK data is always converted, with
/// its embedded profile or the fallback one, even when color profiles are ignored. Otherwise,
/// ignoring profiles means sRGB; an embedded ICC profile comes first (marked gray for one
/// channel), then CICP code points, and without either the source is sRGB.
pub fn source_profile_from_info(fmt: ZenFormat, info: SourceColor, ignore_color_profile: bool) -> (r: SourceProfile)
    ensures
        cmyk_source(fmt, info.channel_count, info.has_alpha) ==> r == SourceProfile::CmykIcc(info.icc_profile),
        !cmyk_source(fmt, info.channel_count, info.has_alpha) ==> {
            &&& ignore_color_profile ==> r == SourceProfile::Srgb
            &&& !ignore_color_profile ==> match info.icc_profile {
                Some(p) => r == (if info.channel_count == Some(1u8) {
                    SourceProfile::IccProfileGray(p)
                } else {
                    SourceProfile::IccProfile(p)
                }),
                None => match info.cicp {
                    Some(c) => r == SourceProfile::Cicp(c),
                    None => r == SourceProfile::Srgb,
                },
            }
        },
{
    if may_have_cmyk(fmt) && info.channel_count == Some(4u8) && !info.has_alpha {
        return SourceProfile::CmykIcc(info.icc_profile);
    }
    if ignore_color_profile {
        return SourceProfile::Srgb;
    }
    match info.icc_profile {
        Some(p) => {
            if info.channel_count == Some(1u8) {
                SourceProfile::IccProfileGray(p)
            } else {
                SourceProfile::IccProfile(p)
            }
        },
        None => match info.cicp {
            Some(c) => SourceProfile::Cicp(c),
            None => SourceProfile::Srgb,
        },
    }
}

/// Whether a profile calls for a conversion to sRGB.
pub fn needs_color_conversion(profile: &SourceProfile) -> (r: bool)
    ensures
        r == !(*profile is Srgb),
{
    match profile {
        SourceProfile::Srgb => false,
        _ => true,
    }
}

/// A command a job gives a decoder.
#[derive(Copy, Clone, Debug, PartialEq, Eq, Structural)]
pub enum DecoderCommand {
    DiscardColorProfile,
    IgnoreColorProfileErrors,
    SelectFrame(i32),
    /// A command this decoder does not act on.
    Other,
}

/// The result of looking ahead for another frame after one was decoded.
#[derive(Copy, Clone, Debug, PartialEq, Eq, Structural)]
pub enum FramePeek {
    /// Another frame was rendered and is held for the next read.
    Frame,
    /// The decoder reported no more frames.
    End,
    /// Rendering the next frame failed.
    Failed,
}

/// The decision state of a zen decoder: the frame it is at, the delay and loop count of its
/// animation, the commands it was given, and what is known of further frames.
pub struct ZenDecoderState {
    pub format: ZenFormat,
    pub frame_index: u32,
    pub last_delay_ms: u32,
    pub loop_count: Option<u32>,
    pub ignore_color_profile: bool,
    pub ignore_color_profile_errors: bool,
    /// Whether more frames follow, where that is known.
    pub has_more: Option<bool>,
    /// The frame a `SelectFrame` command asked for.
    pub target_frame: Option<u32>,
    /// Whether the persistent frame decoder was created.
    pub frame_decoder_started: bool,
}

impl ZenDecoderState {
    /// A decoder that has read nothing and was given no commands.
    pub fn new(format: ZenFormat) -> (r: ZenDecoderState)
        ensures
            r.format == format,
            r.frame_index == 0,
            r.last_delay_ms == 0,
            r.loop_count is None,
            !r.ignore_color_profile,
            !r.ignore_color_profile_errors,
            r.has_more is None,
            r.target_frame is None,
            !r.frame_decoder_started,
    {
        ZenDecoderState {
            format,
            frame_index: 0,
            last_delay_ms: 0,
            loop_count: None,
            ignore_color_profile: false,
            ignore_color_profile_errors: false,
            has_more: None,
            target_frame: None,
            frame_decoder_started: false,
        }
    }

    /// Acts on a command: discarding the color profile, ignoring color profile errors, or
    /// selecting a frame (a negative index selects the first). Other commands change nothing.
    pub fn tell_decoder(&mut self, command: DecoderCommand)
        ensures
            final(self).format == old(self).format,
            final(self).frame_index == old(self).frame_index,
            final(self).last_delay_ms == old(self).last_delay_ms,
            final(self).loop_count == old(self).loop_count,
            final(self).has_more == old(self).has_more,
            final(self).frame_decoder_started == old(self).frame_decoder_started,
            final(self).ignore_color_profile == (old(self).ignore_color_profile || command == DecoderCommand::DiscardColorProfile),
            final(self).ignore_color_profile_errors == (old(self).ignore_color_profile_errors
                || command == DecoderCommand::IgnoreColorProfileErrors),
            final(self).target_frame == (match command {
                DecoderCommand::SelectFrame(f) => Some(if f < 0 { 0u32 } else { f as u32 }),
                _ => old(self).target_frame,
            }),
    {
        match command {
            DecoderCommand::DiscardColorProfile => {
                self.ignore_color_profile = true;
            },
            DecoderCommand::IgnoreColorProfileErrors => {
                self.ignore_color_profile_errors = true;
            },
            DecoderCommand::SelectFrame(frame) => {
                let f: u32 = if frame < 0 { 0 } else { frame as u32 };
                self.target_frame = Some(f);
            },
            DecoderCommand::Other => {},
        }
    }

    /// The delay of the last frame in centiseconds, where it had one: its milliseconds divided
    /// by ten, kept to 16 bits.
    pub fn last_frame_delay(&self) -> (r: Option<u16>)
        ensures
            self.last_delay_ms == 0 ==> r is None,
            self.last_delay_ms > 0 ==> r == Some((self.last_delay_ms / 10) as u16),
    {
        if self.last_delay_ms > 0 {
            Some((self.last_delay_ms / 10) as u16)
        } else {
            None
        }
    }

    pub fn get_loop_count(&self) -> (r: Option<u32>)
        ensures
            r == self.loop_count,
    {
        self.loop_count
    }

    /// The EXIF orientation flag of the image, for a format that carries one: none for
    /// orientation 1 (upright) or 0, the flag otherwise.
    pub fn exif_rotation_flag(&self, orientation: u8) -> (r: Option<i32>)
        ensures
            !(self.format == ZenFormat::Jpeg || self.format == ZenFormat::Jxl) ==> r is None,
            (self.format == ZenFormat::Jpeg || self.format == ZenFormat::Jxl) ==> r == (if orientation <= 1 {
                None::<i32>
            } else {
                Some(orientation as i32)
            }),
    {
        if !has_exif_orientation(self.format) {
            return None;
        }
        if orientation <= 1 {
            None
        } else {
            Some(orientation as i32)
        }
    }

    /// The frame an image decodes into: BGRA where it has alpha, BGR with padding otherwise, with
    /// the probed width and height taken as 32-bit signed values.
    pub fn decoded_frame(&self, width: u32, height: u32, has_alpha: bool) -> (r: (PixelFormat, i32, i32))
        ensures
            r.0 == (if has_alpha { PixelFormat::Bgra32 } else { PixelFormat::Bgr32 }),
            r.1 == width as i32,
            r.2 == height as i32,
    {
        let fmt = if has_alpha { PixelFormat::Bgra32 } else { PixelFormat::Bgr32 };
        (fmt, width as i32, height as i32)
    }

    /// A frame goes through the frame decoder for GIF, for an animated source, and once the frame
    /// decoder was started.
    pub fn uses_frame_decoder(&self, animated: bool) -> (r: bool)
        ensures
            r == (self.format == ZenFormat::Gif || animated || self.frame_decoder_started),
    {
        always_use_frame_decoder(self.format) || animated || self.frame_decoder_started
    }

    /// Records that the frame decoder was created, with the loop count it reports. A selected
    /// frame becomes the current frame index, and is returned so that the decoder starts there.
    pub fn start_frame_decoder(&mut self, loop_count: Option<u32>) -> (r: Option<u32>)
        ensures
            r == old(self).target_frame,
            final(self).frame_decoder_started,
            final(self).loop_count == loop_count,
            final(self).frame_index == (match old(self).target_frame {
                Some(t) => t,
                None => old(self).frame_index,
            }),
            final(self).format == old(self).format,
            final(self).last_delay_ms == old(self).last_delay_ms,
            final(self).ignore_color_profile == old(self).ignore_color_profile,
            final(self).ignore_color_profile_errors == old(self).ignore_color_profile_errors,
            final(self).has_more == old(self).has_more,
            final(self).target_frame == old(self).target_frame,
    {
        if let Some(t) = self.target_frame {
            self.frame_index = t;
        }
        self.loop_count = loop_count;
        self.frame_decoder_started = true;
        self.target_frame
    }

    /// Records a frame read from the frame decoder: its duration, and one frame further.
    pub fn frame_read(&mut self, duration_ms: u32)
        requires
            old(self).frame_index < u32::MAX,
        ensures
            final(self).last_delay_ms == duration_ms,
            final(self).frame_index == old(self).frame_index + 1,
            final(self).format == old(self).format,
            final(self).loop_count == old(self).loop_count,
            final(self).ignore_color_profile == old(self).ignore_color_profile,
            final(self).ignore_color_profile_errors == old(self).ignore_color_profile_errors,
            final(self).has_more == old(self).has_more,
            final(self).target_frame == old(self).target_frame,
            final(self).frame_decoder_started == old(self).frame_decoder_started,
    {
        self.last_delay_ms = duration_ms;
        self.frame_index = self.frame_index + 1;
    }

    /// After an animation frame, a decoder that selected one frame reads no more, and looks no
    /// further; one that did not looks ahead for another frame.
    pub fn should_peek(&self) -> (r: bool)
        ensures
            r == (self.target_frame is None),
    {
        self.target_frame.is_none()
    }

    /// Records what looking ahead found (or, with a selected frame, that nothing follows): more
    /// frames follow only where another frame was rendered.
    pub fn after_animation_frame(&mut self, peek: FramePeek)
        ensures
            final(self).has_more == Some(old(self).target_frame is None && peek == FramePeek::Frame),
            final(self).format == old(self).format,
            final(self).frame_index == old(self).frame_index,
            final(self).last_delay_ms == old(self).last_delay_ms,
            final(self).loop_count == old(self).loop_count,
            final(self).ignore_color_profile == old(self).ignore_color_profile,
            final(self).ignore_color_profile_errors == old(self).ignore_color_profile_errors,
            final(self).target_frame == old(self).target_frame,
            final(self).frame_decoder_started == old(self).frame_decoder_started,
    {
        if self.target_frame.is_some() {
            self.has_more = Some(false);
        } else {
            self.has_more = Some(match peek {
                FramePeek::Frame => true,
                _ => false,
            });
        }
    }

    /// A single-frame image has no frame after the one read.
    pub fn after_single_frame(&mut self)
        ensures
            final(self).has_more == Some(false),
            final(self).format == old(self).format,
            final(self).frame_index == old(self).frame_index,
            final(self).last_delay_ms == old(self).last_delay_ms,
            final(self).loop_count == old(self).loop_count,
            final(self).ignore_color_profile == old(self).ignore_color_profile,
            final(self).ignore_color_profile_errors == old(self).ignore_color_profile_errors,
            final(self).target_frame == old(self).target_frame,
            final(self).frame_decoder_started == old(self).frame_decoder_started,
    {
        self.has_more = Some(false);
    }

    /// More frames are assumed to follow until a read says otherwise.
    pub fn has_more_frames(&self) -> (r: bool)
        ensures
            r == (match self.has_more {
                Some(b) => b,
                None => true,
            }),
    {
        match self.has_more {
            Some(b) => b,
            None => true,
        }
    }

    /// The outcome of converting a decoded frame to sRGB: a failed conversion fails the read,
    /// unless color profile errors are ignored.
    pub fn color_conversion_outcome(&self, conversion: Result<(), FlowError>) -> (r: Result<(), FlowError>)
        ensures
            conversion is Ok ==> r is Ok,
            conversion matches Err(e) ==> (if self.ignore_color_profile_errors { r is Ok } else { r == Err::<(), FlowError>(e) }),
    {
        match conversion {
            Ok(()) => Ok(()),
            Err(e) => {
                if self.ignore_color_profile_errors {
                    Ok(())
                } else {
                    Err(e)
                }
            },
        }
    }
}

/// The profile of a JPEG decoded by the native JPEG decoder: none where profiles are ignored or
/// the data was CMYK (which the decoder already converted); otherwise its embedded ICC profile,
/// marked gray for a grayscale JPEG, or none.
pub fn jpeg_source_profile(ignore_color_profile: bool, is_cmyk: bool, icc_profile: Option<Vec<u8>>, grayscale: bool)
    -> (r: SourceProfile)
    ensures
        (ignore_color_profile || is_cmyk) ==> r == SourceProfile::Srgb,
        !(ignore_color_profile || is_cmyk) ==> r == (match icc_profile {
            Some(p) => if grayscale { SourceProfile::IccProfileGray(p) } else { SourceProfile::IccProfile(p) },
            None => SourceProfile::Srgb,
        }),
{
    if ignore_color_profile || is_cmyk {
        return SourceProfile::Srgb;
    }
    match icc_profile {
        Some(p) => if grayscale { SourceProfile::IccProfileGray(p) } else { SourceProfile::IccProfile(p) },
        None => SourceProfile::Srgb,
    }
}

/// The EXIF orientation flag of a JPEG XL image: none for orientation 1 (upright), the flag
/// otherwise.
pub fn jxl_rotation_flag(orientation: u32) -> (r: Option<i32>)
    ensures
        orientation == 1 ==> r is None,
        orientation != 1 ==> r == Some(orientation as i32),
{
    if orientation == 1 {
        None
    } else {
        Some(orientation as i32)
    }
}

/// What a WebP header says of the frame it decodes into: BGRA with alpha, BGR with padding
/// without; lossless when it is not lossy; several frames when it is animated.
pub fn webp_image_info(width: u32, height: u32, has_alpha: bool, is_lossy: bool, has_animation: bool)
    -> (r: (PixelFormat, i32, i32, bool, bool))
    ensures
        r == ((if has_alpha { PixelFormat::Bgra32 } else { PixelFormat::Bgr32 }), width as i32, height as i32,
            !is_lossy, has_animation),
{
    let fmt = if has_alpha { PixelFormat::Bgra32 } else { PixelFormat::Bgr32 };
    (fmt, width as i32, height as i32, !is_lossy, has_animation)
}

/// A buffered decode must produce the dimensions the probe reported; other dimensions are
/// `ImageDecodingError`.
pub fn check_decoded_dimensions(expected_w: u32, expected_h: u32, decoded_w: u32, decoded_h: u32) -> (r: Result<(), FlowError>)
    ensures
        (decoded_w == expected_w && decoded_h == expected_h) ==> r is Ok,
        !(decoded_w == expected_w && decoded_h == expected_h) ==> (r matches Err(e) && e.kind == ErrorKind::ImageDecodingError),
{
    if decoded_w != expected_w || decoded_h != expected_h {
        Err(FlowError::with_message(ErrorKind::ImageDecodingError, "decoded dimensions differ from those the probe reported"))
    } else {
        Ok(())
    }
}

} // verus!
