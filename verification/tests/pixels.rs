use imageflow_core::codecs::zen_decoder::{copy_pixel_slice_to_bitmap, DecodedLayout, DecodedPixels};
use imageflow_core::codecs::zen_decoder::row_to_bgra;
use imageflow_core::errors::ErrorKind;
use imageflow_core::flow::white_balance::apply_mappings;
use imageflow_core::graphics::bitmaps::{Bgra8, Bitmap, BitmapCompositing, Color32, ColorSpace, PixelLayout};
use imageflow_core::graphics::histogram::populate_histogram_from_window;
use imageflow_core::graphics::swizzle::{
    copy_swap_br, gray_alpha_to_bgra, gray_to_bgra, rgb_to_bgra, set_alpha_to_255, swap_br_inplace,
};

fn bgra(w: u32, h: u32) -> Bitmap {
    Bitmap::create_u8(w, h, PixelLayout::BGRA, false, true, ColorSpace::StandardRGB, BitmapCompositing::ReplaceSelf)
        .unwrap()
}

#[test]
fn swapping_blue_and_red() {
    let mut row = [1u8, 2, 3, 4, 5, 6, 7, 8];
    swap_br_inplace(&mut row);
    assert_eq!(row, [3, 2, 1, 4, 7, 6, 5, 8]);
    let mut copy = [0u8; 8];
    copy_swap_br(&row, &mut copy);
    assert_eq!(copy, [1, 2, 3, 4, 5, 6, 7, 8]);
}

#[test]
fn filling_alpha() {
    let mut row = [1u8, 2, 3, 4, 5, 6, 7, 8];
    set_alpha_to_255(&mut row);
    assert_eq!(row, [1, 2, 3, 255, 5, 6, 7, 255]);
}

#[test]
fn expanding_rows_to_bgra() {
    let mut out = [0u8; 8];
    rgb_to_bgra(&[10, 20, 30, 40, 50, 60], &mut out);
    assert_eq!(out, [30, 20, 10, 255, 60, 50, 40, 255]);
    gray_to_bgra(&[9, 200], &mut out);
    assert_eq!(out, [9, 9, 9, 255, 200, 200, 200, 255]);
    gray_alpha_to_bgra(&[9, 1, 200, 2], &mut out);
    assert_eq!(out, [9, 9, 9, 1, 200, 200, 200, 2]);
}

#[test]
fn decoded_rows_become_bgra() {
    let mut dst = [0u8; 12];
    row_to_bgra(&mut dst, &[1, 2, 3, 4, 5, 6, 7, 8], 2, 4);
    assert_eq!(&dst[..8], &[3, 2, 1, 4, 7, 6, 5, 8]);
    row_to_bgra(&mut dst, &[1, 2, 3], 1, 3);
    assert_eq!(&dst[..4], &[3, 2, 1, 255]);
    let mut gray = [0u8; 12];
    row_to_bgra(&mut gray, &[5, 99, 6, 98], 2, 2);
    assert_eq!(gray, [5, 5, 5, 255, 6, 6, 6, 255, 0, 0, 0, 0]);
    let mut untouched = [4u8; 8];
    row_to_bgra(&mut untouched, &[1], 1, 1);
    assert_eq!(untouched, [1, 1, 1, 255, 4, 4, 4, 4]);
}

#[test]
fn histogram_counts_each_channel() {
    let mut b = bgra(2, 1);
    b.fill_rectangle(Color32(0xFF010203), 0, 0, 2, 1).unwrap();
    let mut h = [[0u64; 256]; 3];
    h[0][1] = 5;
    populate_histogram_from_window(&b, &mut h).unwrap();
    assert_eq!(h[0][1], 7);
    assert_eq!(h[1][2], 2);
    assert_eq!(h[2][3], 2);
    assert_eq!(h[0].iter().sum::<u64>(), 7);
    assert_eq!(h[2].iter().sum::<u64>(), 2);
}

#[test]
fn mappings_rewrite_each_channel() {
    let mut b = bgra(1, 1);
    b.fill_rectangle(Color32(0xFF102030), 0, 0, 1, 1).unwrap();
    let red: Vec<u8> = (0..256u32).map(|v| 255 - v as u8).collect();
    let green: Vec<u8> = (0..256u32).map(|v| v as u8).collect();
    let blue = vec![7u8; 256];
    apply_mappings(&mut b, &red, &green, &blue).unwrap();
    assert_eq!(b.get_pixel_bgra8(0, 0).unwrap(), Bgra8 { b: 7, g: 0x20, r: 0xEF, a: 0xFF });
    let e = apply_mappings(&mut b, &red[..255], &green, &blue).unwrap_err();
    assert_eq!(e.kind, ErrorKind::InvalidState);
    assert_eq!(b.get_pixel_bgra8(0, 0).unwrap(), Bgra8 { b: 7, g: 0x20, r: 0xEF, a: 0xFF });
}


fn decoded(bytes: &[u8], stride: usize, width: u32, rows: u32, bpp: usize, layout: DecodedLayout) -> DecodedPixels<'_> {
    DecodedPixels { bytes, stride, width, rows, bytes_per_pixel: bpp, layout }
}

#[test]
fn decoded_bgra_rows_land_on_the_bitmap_stride() {
    let src = [1u8, 2, 3, 4, 5, 6, 7, 8, 9, 10, 11, 12, 13, 14, 15, 16];
    let mut dst = [0xAAu8; 24];
    copy_pixel_slice_to_bitmap(&mut dst, 12, &decoded(&src, 8, 2, 2, 4, DecodedLayout::Bgra));
    assert_eq!(&dst[..8], &src[..8]);
    assert_eq!(&dst[8..12], &[0xAA; 4]);
    assert_eq!(&dst[12..20], &src[8..16]);
    assert_eq!(&dst[20..], &[0xAA; 4]);
    let mut cmyk = [0u8; 16];
    copy_pixel_slice_to_bitmap(&mut cmyk, 8, &decoded(&src, 8, 2, 2, 4, DecodedLayout::Cmyk));
    assert_eq!(cmyk, src);
}

#[test]
fn decoded_rgba_rows_swap_blue_and_red() {
    let src = [1u8, 2, 3, 4, 0, 0, 0, 0, 5, 6, 7, 8, 0, 0, 0, 0];
    let mut dst = [9u8; 12];
    copy_pixel_slice_to_bitmap(&mut dst, 6, &decoded(&src, 8, 1, 2, 4, DecodedLayout::Rgba));
    assert_eq!(dst, [3, 2, 1, 4, 9, 9, 7, 6, 5, 8, 9, 9]);
}

#[test]
fn decoded_rgb_rows_expand_to_bgra() {
    let src = [10u8, 20, 30, 40, 50, 60];
    let mut dst = [0u8; 8];
    copy_pixel_slice_to_bitmap(&mut dst, 4, &decoded(&src, 3, 1, 2, 3, DecodedLayout::Other { channels: 3 }));
    assert_eq!(dst, [30, 20, 10, 255, 60, 50, 40, 255]);
    let gray = [7u8, 8];
    let mut g = [0u8; 8];
    copy_pixel_slice_to_bitmap(&mut g, 8, &decoded(&gray, 2, 2, 1, 1, DecodedLayout::Other { channels: 1 }));
    assert_eq!(g, [7, 7, 7, 255, 8, 8, 8, 255]);
}

#[test]
fn empty_decoded_pixels_change_nothing() {
    let src = [1u8; 4];
    let mut dst = [5u8; 8];
    copy_pixel_slice_to_bitmap(&mut dst, 4, &decoded(&src, 4, 0, 2, 4, DecodedLayout::Rgba));
    assert_eq!(dst, [5u8; 8]);
}
