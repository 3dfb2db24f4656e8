use imageflow_core::codecs::decoder_state::{
    always_use_frame_decoder, check_decoded_dimensions, has_exif_orientation, jpeg_source_profile, jxl_rotation_flag,
    may_have_cmyk, webp_image_info,
    needs_color_conversion, prefers_buffered_decode, source_profile_from_info, Cicp, DecoderCommand, FramePeek,
    SourceColor, SourceProfile, ZenDecoderState, ZenFormat,
};
use imageflow_core::codecs::encoder_plan::{
    check_webp_options, frame_delay_ms, jpeg_input_layout, webp_input_layout, zenjpeg_encoder_settings, WebpInputLayout, libjpeg_turbo_style_settings, mozjpeg_rs_settings, mozjpeg_style_settings,
    needs_alpha_fill, prepare_pixels_for_encoder, require_encoder_enabled, rows_are_packed, EncodeOrder,
    EncoderFormat, JpegInputLayout,
};
use imageflow_core::errors::ErrorKind;
use imageflow_core::flow_error::FlowError;
use imageflow_core::graphics::bitmaps::{Color32, PixelFormat, PixelLayout};

fn color(channels: Option<u8>, has_alpha: bool, icc: Option<Vec<u8>>, cicp: Option<Cicp>) -> SourceColor {
    SourceColor { channel_count: channels, has_alpha, icc_profile: icc, cicp }
}

#[test]
fn format_predicates() {
    assert!(has_exif_orientation(ZenFormat::Jpeg));
    assert!(has_exif_orientation(ZenFormat::Jxl));
    assert!(!has_exif_orientation(ZenFormat::Png));
    assert!(may_have_cmyk(ZenFormat::Jpeg));
    assert!(!may_have_cmyk(ZenFormat::WebP));
    assert!(always_use_frame_decoder(ZenFormat::Gif));
    assert!(!always_use_frame_decoder(ZenFormat::Avif));
    assert!(prefers_buffered_decode(ZenFormat::Jpeg));
    assert!(!prefers_buffered_decode(ZenFormat::Bmp));
}

#[test]
fn cmyk_jpegs_are_always_color_managed() {
    let p = source_profile_from_info(ZenFormat::Jpeg, color(Some(4), false, None, None), true);
    assert!(matches!(p, SourceProfile::CmykIcc(None)));
    let p = source_profile_from_info(ZenFormat::Jpeg, color(Some(4), false, Some(vec![1, 2]), None), false);
    assert!(matches!(p, SourceProfile::CmykIcc(Some(ref v)) if v == &vec![1u8, 2]));
    assert!(needs_color_conversion(&p));
}

#[test]
fn profiles_come_in_order_icc_cicp_srgb() {
    let cicp = Cicp { color_primaries: 9, transfer_characteristics: 16, matrix_coefficients: 9, full_range: true };
    let p = source_profile_from_info(ZenFormat::Png, color(Some(1), false, Some(vec![7]), Some(cicp)), false);
    assert!(matches!(p, SourceProfile::IccProfileGray(ref v) if v == &vec![7u8]));
    let p = source_profile_from_info(ZenFormat::Png, color(Some(3), false, Some(vec![7]), Some(cicp)), false);
    assert!(matches!(p, SourceProfile::IccProfile(_)));
    let p = source_profile_from_info(ZenFormat::Avif, color(Some(3), false, None, Some(cicp)), false);
    assert!(matches!(p, SourceProfile::Cicp(c) if c == cicp));
    let p = source_profile_from_info(ZenFormat::Avif, color(Some(3), false, None, None), false);
    assert!(matches!(p, SourceProfile::Srgb));
    assert!(!needs_color_conversion(&p));
    let p = source_profile_from_info(ZenFormat::Png, color(Some(3), true, Some(vec![7]), None), true);
    assert!(matches!(p, SourceProfile::Srgb));
    // Four channels with alpha are not CMYK.
    let p = source_profile_from_info(ZenFormat::Jpeg, color(Some(4), true, None, None), false);
    assert!(matches!(p, SourceProfile::Srgb));
}

#[test]
fn decoder_commands_update_the_state() {
    let mut s = ZenDecoderState::new(ZenFormat::Gif);
    s.tell_decoder(DecoderCommand::DiscardColorProfile);
    assert!(s.ignore_color_profile);
    s.tell_decoder(DecoderCommand::IgnoreColorProfileErrors);
    assert!(s.ignore_color_profile_errors);
    s.tell_decoder(DecoderCommand::SelectFrame(-3));
    assert_eq!(s.target_frame, Some(0));
    s.tell_decoder(DecoderCommand::SelectFrame(5));
    assert_eq!(s.target_frame, Some(5));
    s.tell_decoder(DecoderCommand::Other);
    assert_eq!(s.target_frame, Some(5));
}

#[test]
fn a_selected_frame_is_the_only_frame() {
    let mut s = ZenDecoderState::new(ZenFormat::WebP);
    assert!(s.has_more_frames());
    s.tell_decoder(DecoderCommand::SelectFrame(2));
    assert!(s.uses_frame_decoder(true));
    assert_eq!(s.start_frame_decoder(Some(0)), Some(2));
    assert_eq!(s.frame_index, 2);
    assert_eq!(s.get_loop_count(), Some(0));
    s.frame_read(40);
    assert_eq!(s.frame_index, 3);
    assert!(!s.should_peek());
    s.after_animation_frame(FramePeek::Frame);
    assert!(!s.has_more_frames());
}

#[test]
fn animation_frames_follow_while_peeks_find_them() {
    let mut s = ZenDecoderState::new(ZenFormat::Gif);
    assert!(s.uses_frame_decoder(false));
    assert_eq!(s.start_frame_decoder(None), None);
    s.frame_read(70);
    assert_eq!(s.last_frame_delay(), Some(7));
    assert!(s.should_peek());
    s.after_animation_frame(FramePeek::Frame);
    assert!(s.has_more_frames());
    s.frame_read(0);
    assert_eq!(s.last_frame_delay(), None);
    s.after_animation_frame(FramePeek::Failed);
    assert!(!s.has_more_frames());
    let mut single = ZenDecoderState::new(ZenFormat::Png);
    assert!(!single.uses_frame_decoder(false));
    single.after_single_frame();
    assert!(!single.has_more_frames());
}

#[test]
fn frame_delays_are_kept_to_sixteen_bits() {
    let mut s = ZenDecoderState::new(ZenFormat::Gif);
    s.frame_read(700_000);
    assert_eq!(s.last_frame_delay(), Some((70_000u32 % 65_536) as u16));
}

#[test]
fn exif_orientation_is_read_for_jpeg_and_jxl() {
    let jpeg = ZenDecoderState::new(ZenFormat::Jpeg);
    assert_eq!(jpeg.exif_rotation_flag(6), Some(6));
    assert_eq!(jpeg.exif_rotation_flag(1), None);
    assert_eq!(jpeg.exif_rotation_flag(0), None);
    let png = ZenDecoderState::new(ZenFormat::Png);
    assert_eq!(png.exif_rotation_flag(6), None);
}

#[test]
fn decoded_frames_have_padding_without_alpha() {
    let s = ZenDecoderState::new(ZenFormat::Png);
    assert_eq!(s.decoded_frame(10, 20, true), (PixelFormat::Bgra32, 10, 20));
    assert_eq!(s.decoded_frame(10, 20, false), (PixelFormat::Bgr32, 10, 20));
}

#[test]
fn color_conversion_errors_fail_unless_ignored() {
    let mut s = ZenDecoderState::new(ZenFormat::Jpeg);
    let e = s.color_conversion_outcome(Err(FlowError::new(ErrorKind::ColorProfileError))).unwrap_err();
    assert_eq!(e.kind, ErrorKind::ColorProfileError);
    assert!(s.color_conversion_outcome(Ok(())).is_ok());
    s.tell_decoder(DecoderCommand::IgnoreColorProfileErrors);
    assert!(s.color_conversion_outcome(Err(FlowError::new(ErrorKind::ColorProfileError))).is_ok());
}

#[test]
fn decoded_dimensions_must_match_the_probe() {
    assert!(check_decoded_dimensions(3, 4, 3, 4).is_ok());
    assert_eq!(check_decoded_dimensions(3, 4, 4, 3).unwrap_err().kind, ErrorKind::ImageDecodingError);
}

#[test]
fn encoder_formats_name_their_output() {
    assert_eq!(EncoderFormat::Jpeg.preferred_extension(), "jpg");
    assert_eq!(EncoderFormat::MozjpegRs.preferred_mime_type(), "image/jpeg");
    assert_eq!(EncoderFormat::WebP.preferred_extension(), "webp");
    assert_eq!(EncoderFormat::Jxl.preferred_mime_type(), "image/jxl");
    assert!(EncoderFormat::Gif.supports_animation());
    assert!(EncoderFormat::WebP.supports_animation());
    assert!(!EncoderFormat::Png.supports_animation());
}

#[test]
fn jpeg_always_gets_a_matte() {
    assert_eq!(EncoderFormat::Jpeg.matte(None), Some(Color32(0xFFFF_FFFF)));
    assert_eq!(EncoderFormat::MozjpegRs.matte(Some(Color32(0xFF00_0000))), Some(Color32(0xFF00_0000)));
    assert_eq!(EncoderFormat::Gif.matte(Some(Color32(0xFF00_0000))), None);
    assert_eq!(EncoderFormat::Png.matte(Some(Color32(0x8000_0000))), Some(Color32(0x8000_0000)));
    assert_eq!(EncoderFormat::WebP.matte(None), None);
}

#[test]
fn disabled_encoders_are_refused() {
    assert!(require_encoder_enabled(true).is_ok());
    assert_eq!(require_encoder_enabled(false).unwrap_err().kind, ErrorKind::CodecDisabledError);
}

#[test]
fn jpeg_settings_by_style() {
    let s = mozjpeg_style_settings(None, None);
    assert_eq!((s.quality, s.full_chroma, s.progressive, s.auto_optimize, s.optimize_huffman), (75, false, true, true, false));
    let s = mozjpeg_style_settings(Some(90), Some(false));
    assert_eq!((s.quality, s.full_chroma, s.progressive), (90, false, false));
    let s = mozjpeg_style_settings(Some(200), None);
    assert_eq!((s.quality, s.full_chroma), (100, true));
    let s = libjpeg_turbo_style_settings(None, None, None);
    assert_eq!((s.quality, s.full_chroma, s.progressive, s.auto_optimize, s.optimize_huffman), (100, true, false, false, false));
    let s = libjpeg_turbo_style_settings(Some(90), Some(true), Some(true));
    assert_eq!((s.quality, s.full_chroma, s.progressive, s.optimize_huffman), (90, true, true, true));
    let s = libjpeg_turbo_style_settings(Some(-5), None, None);
    assert_eq!((s.quality, s.full_chroma), (0, false));
    assert_eq!(mozjpeg_rs_settings(None, None), (85, 2));
    assert_eq!(mozjpeg_rs_settings(Some(120), Some(false)), (100, 1));
}

#[test]
fn jpeg_input_layouts_and_packing() {
    assert_eq!(jpeg_input_layout(PixelFormat::Bgra32), JpegInputLayout::Bgra8);
    assert_eq!(jpeg_input_layout(PixelFormat::Bgr32), JpegInputLayout::Bgrx8);
    assert_eq!(jpeg_input_layout(PixelFormat::Bgr24), JpegInputLayout::Bgr8);
    assert_eq!(jpeg_input_layout(PixelFormat::Gray8), JpegInputLayout::Gray8);
    assert!(rows_are_packed(10, PixelFormat::Bgra32, 40));
    assert!(!rows_are_packed(10, PixelFormat::Bgra32, 64));
    assert!(rows_are_packed(10, PixelFormat::Bgr24, 30));
}

#[test]
fn pixels_are_swapped_and_made_opaque_for_rgba_encoders() {
    // Two rows of one pixel, with two padding bytes after each row.
    let mut buf = vec![1u8, 2, 3, 4, 9, 9, 5, 6, 7, 8, 9, 9];
    assert!(needs_alpha_fill(true, true));
    assert_eq!(prepare_pixels_for_encoder(&mut buf, 1, 2, 6, false, true), EncodeOrder::Rgba);
    assert_eq!(buf, vec![3u8, 2, 1, 255, 9, 9, 7, 6, 5, 255, 9, 9]);
}

#[test]
fn bgra_encoders_keep_the_byte_order() {
    let mut buf = vec![1u8, 2, 3, 4, 5, 6, 7, 8];
    assert!(!needs_alpha_fill(false, true));
    assert_eq!(prepare_pixels_for_encoder(&mut buf, 2, 1, 8, true, false), EncodeOrder::Bgra);
    assert_eq!(buf, vec![1u8, 2, 3, 4, 5, 6, 7, 8]);
    assert_eq!(prepare_pixels_for_encoder(&mut buf, 2, 1, 8, true, true), EncodeOrder::Bgra);
    assert_eq!(buf, vec![1u8, 2, 3, 255, 5, 6, 7, 255]);
    // A stride too short for the row leaves the buffer as it is.
    let mut short = vec![1u8, 2, 3, 4];
    assert_eq!(prepare_pixels_for_encoder(&mut short, 2, 1, 4, false, true), EncodeOrder::Rgba);
    assert_eq!(short, vec![1u8, 2, 3, 4]);
}

#[test]
fn frame_delays_are_centiseconds_times_ten() {
    assert_eq!(frame_delay_ms(Some(7)), 70);
    assert_eq!(frame_delay_ms(None), 100);
}

#[test]
fn native_jpeg_profiles() {
    assert!(matches!(jpeg_source_profile(true, false, Some(vec![1]), false), SourceProfile::Srgb));
    assert!(matches!(jpeg_source_profile(false, true, Some(vec![1]), false), SourceProfile::Srgb));
    assert!(matches!(jpeg_source_profile(false, false, Some(vec![1]), true), SourceProfile::IccProfileGray(_)));
    assert!(matches!(jpeg_source_profile(false, false, Some(vec![1]), false), SourceProfile::IccProfile(_)));
    assert!(matches!(jpeg_source_profile(false, false, None, false), SourceProfile::Srgb));
}

#[test]
fn jxl_orientation_and_webp_info() {
    assert_eq!(jxl_rotation_flag(1), None);
    assert_eq!(jxl_rotation_flag(8), Some(8));
    assert_eq!(webp_image_info(4, 5, true, true, false), (PixelFormat::Bgra32, 4, 5, false, false));
    assert_eq!(webp_image_info(4, 5, false, false, true), (PixelFormat::Bgr32, 4, 5, true, true));
}

#[test]
fn standalone_jpeg_and_webp_options() {
    let s = zenjpeg_encoder_settings(None, None);
    assert_eq!((s.quality, s.full_chroma, s.progressive, s.auto_optimize), (75, false, true, true));
    let s = zenjpeg_encoder_settings(Some(90), Some(false));
    assert_eq!((s.quality, s.full_chroma, s.progressive), (90, true, false));
    assert_eq!(check_webp_options(Some(true), true).unwrap_err().kind, ErrorKind::InvalidState);
    assert!(check_webp_options(Some(true), false).is_ok());
    assert!(check_webp_options(Some(false), true).is_ok());
    assert_eq!(webp_input_layout(PixelLayout::BGRA).unwrap(), (WebpInputLayout::Bgra8, 4));
    assert_eq!(webp_input_layout(PixelLayout::BGR).unwrap(), (WebpInputLayout::Bgr8, 3));
    assert_eq!(webp_input_layout(PixelLayout::Gray).unwrap_err().kind, ErrorKind::ImageEncodingError);
}
