use imageflow_core::graphics::transpose::bitmap_window_transpose;
use imageflow_core::graphics::bitmaps::calculate_cast_buffer_results;
use imageflow_core::errors::ErrorKind;
use imageflow_core::graphics::bitmaps::{
    Bgra8, Bitmap, BitmapCompositing, Color32, ColorSpace, PixelFormat, PixelLayout,
};
use imageflow_core::graphics::copy_rect::copy_rectangle;
use imageflow_core::graphics::fill::flow_bitmap_bgra_fill_rect;
use imageflow_core::graphics::flip::{
    flow_bitmap_bgra_flip_horizontal_safe, flow_bitmap_bgra_flip_vertical_safe,
};

fn bgra(w: u32, h: u32) -> Bitmap {
    Bitmap::create_u8(w, h, PixelLayout::BGRA, false, true, ColorSpace::StandardRGB, BitmapCompositing::ReplaceSelf)
        .unwrap()
}

fn bgr32(w: u32, h: u32) -> Bitmap {
    Bitmap::create_u8(w, h, PixelLayout::BGRA, false, false, ColorSpace::StandardRGB, BitmapCompositing::ReplaceSelf)
        .unwrap()
}

fn paint(b: &mut Bitmap, x: u32, y: u32, argb: u32) {
    b.fill_rectangle(Color32(argb), x, y, x + 1, y + 1).unwrap();
}

fn px(b: &Bitmap, x: u32, y: u32) -> Bgra8 {
    b.get_pixel_bgra8(x, y).unwrap()
}

fn color_of(x: u32, y: u32) -> u32 {
    0xFF00_0000 | (x << 16) | (y << 8) | (x * 16 + y)
}

fn patterned(w: u32, h: u32) -> Bitmap {
    let mut b = bgra(w, h);
    for y in 0..h {
        for x in 0..w {
            paint(&mut b, x, y, color_of(x, y));
        }
    }
    b
}

fn expect(b: &Bitmap, x: u32, y: u32, argb: u32) {
    let p = px(b, x, y);
    assert_eq!(p, Color32(argb).to_bgra8(), "pixel {},{}", x, y);
}

#[test]
fn fill_rectangle_paints_only_the_rectangle() {
    let mut b = bgra(4, 3);
    b.fill_rectangle(Color32(0xFF112233), 1, 1, 3, 3).unwrap();
    assert_eq!(px(&b, 1, 1), Bgra8 { b: 0x33, g: 0x22, r: 0x11, a: 0xFF });
    assert_eq!(px(&b, 2, 2), Bgra8 { b: 0x33, g: 0x22, r: 0x11, a: 0xFF });
    assert_eq!(px(&b, 0, 0), Bgra8 { b: 0, g: 0, r: 0, a: 0 });
    assert_eq!(px(&b, 3, 1), Bgra8 { b: 0, g: 0, r: 0, a: 0 });
}

#[test]
fn fill_rectangle_errors() {
    let mut b = bgra(4, 3);
    let e = b.fill_rectangle(Color32(1), 1, 1, 5, 2).unwrap_err();
    assert_eq!(e.kind, ErrorKind::InvalidArgument);
    assert!(b.fill_rectangle(Color32(1), 1, 1, 1, 2).is_ok());
    let mut gray = Bitmap::create_u8(2, 2, PixelLayout::Gray, false, false, ColorSpace::StandardRGB, BitmapCompositing::ReplaceSelf).unwrap();
    assert_eq!(gray.fill_rectangle(Color32(1), 0, 0, 1, 1).unwrap_err().kind, ErrorKind::InvalidArgument);
}

#[test]
fn flip_vertical_reverses_rows() {
    let mut b = patterned(3, 4);
    flow_bitmap_bgra_flip_vertical_safe(&mut b).unwrap();
    for y in 0..4 {
        for x in 0..3 {
            expect(&b, x, y, color_of(x, 3 - y));
        }
    }
}

#[test]
fn flip_horizontal_reverses_columns() {
    let mut b = patterned(5, 2);
    flow_bitmap_bgra_flip_horizontal_safe(&mut b).unwrap();
    for y in 0..2 {
        for x in 0..5 {
            expect(&b, x, y, color_of(4 - x, y));
        }
    }
}

#[test]
fn flipping_twice_restores_the_bitmap() {
    let mut b = patterned(4, 3);
    let before = b.create_contiguous_vec().unwrap();
    flow_bitmap_bgra_flip_horizontal_safe(&mut b).unwrap();
    flow_bitmap_bgra_flip_horizontal_safe(&mut b).unwrap();
    flow_bitmap_bgra_flip_vertical_safe(&mut b).unwrap();
    flow_bitmap_bgra_flip_vertical_safe(&mut b).unwrap();
    assert_eq!(b.create_contiguous_vec().unwrap(), before);
}

#[test]
fn copy_rectangle_copies_the_rectangle() {
    let mut input = patterned(4, 4);
    let mut canvas = bgra(6, 6);
    copy_rectangle(&mut input, &mut canvas, 1, 1, 3, 2, 2, 3).unwrap();
    for y in 0..6 {
        for x in 0..6 {
            if (3..5).contains(&x) && (2..5).contains(&y) {
                expect(&canvas, x, y, color_of(x - 3 + 1, y - 2 + 1));
            } else {
                expect(&canvas, x, y, 0);
            }
        }
    }
    assert_eq!(*canvas.info().compose(), BitmapCompositing::BlendWithSelf);
}

#[test]
fn copy_rectangle_whole_bitmap() {
    let mut input = patterned(3, 2);
    let mut canvas = bgra(3, 2);
    copy_rectangle(&mut input, &mut canvas, 0, 0, 0, 0, 3, 2).unwrap();
    assert_eq!(canvas.create_contiguous_vec().unwrap(), input.create_contiguous_vec().unwrap());
}

#[test]
fn copy_rectangle_refuses_rectangles_that_do_not_fit() {
    let mut input = patterned(4, 4);
    let mut canvas = bgra(3, 3);
    let e = copy_rectangle(&mut input, &mut canvas, 0, 0, 2, 2, 2, 2).unwrap_err();
    assert_eq!(e.kind, ErrorKind::InvalidArgument);
    let e = copy_rectangle(&mut input, &mut canvas, 4, 0, 0, 0, 1, 1).unwrap_err();
    assert_eq!(e.kind, ErrorKind::InvalidArgument);
    assert_eq!(*canvas.info().compose(), BitmapCompositing::ReplaceSelf);
}

#[test]
fn copy_rectangle_from_unused_alpha_makes_it_opaque() {
    let mut input = bgr32(2, 2);
    input.fill_rectangle(Color32(0x10203040), 0, 0, 2, 2).unwrap();
    let mut canvas = bgra(2, 2);
    copy_rectangle(&mut input, &mut canvas, 0, 0, 0, 0, 1, 1).unwrap();
    assert_eq!(px(&canvas, 0, 0), Bgra8 { b: 0x40, g: 0x30, r: 0x20, a: 0xFF });
    assert_eq!(px(&input, 1, 1).a, 0xFF);
}

#[test]
fn copy_rectangle_refuses_other_formats() {
    let mut input = bgra(2, 2);
    let mut canvas = bgr32(2, 2);
    let e = copy_rectangle(&mut input, &mut canvas, 0, 0, 0, 0, 1, 1).unwrap_err();
    assert_eq!(e.kind, ErrorKind::InvalidOperation);
}

#[test]
fn fill_rect_writes_color_bytes_per_pixel() {
    let mut b = Bitmap::create_u8(3, 2, PixelLayout::BGR, false, false, ColorSpace::StandardRGB, BitmapCompositing::ReplaceSelf).unwrap();
    flow_bitmap_bgra_fill_rect(&mut b, 1, 0, 3, 1, 0xAA112233).unwrap();
    let bytes = b.create_contiguous_vec().unwrap();
    assert_eq!(&bytes[0..9], &[0, 0, 0, 0x33, 0x22, 0x11, 0x33, 0x22, 0x11]);
    assert_eq!(&bytes[9..18], &[0u8; 9]);
    assert!(flow_bitmap_bgra_fill_rect(&mut b, 1, 1, 1, 2, 0).is_err());
    let mut gray = Bitmap::create_u8(2, 2, PixelLayout::Gray, false, false, ColorSpace::StandardRGB, BitmapCompositing::ReplaceSelf).unwrap();
    assert_eq!(flow_bitmap_bgra_fill_rect(&mut gray, 0, 0, 1, 1, 0).unwrap_err().kind, ErrorKind::InvalidArgument);
}

#[test]
fn crop_keeps_pixels_in_place() {
    let mut b = patterned(4, 4);
    b.crop(1, 2, 3, 4).unwrap();
    assert_eq!(b.size(), (2, 2));
    assert!(b.is_cropped());
    expect(&b, 0, 0, color_of(1, 2));
    expect(&b, 1, 1, color_of(2, 3));
    assert_eq!(b.crop(0, 0, 3, 1).unwrap_err().kind, ErrorKind::InvalidArgument);
}

#[test]
fn set_alpha_to_255_needs_bgra() {
    let mut b = bgra(2, 1);
    b.fill_rectangle(Color32(0x00102030), 0, 0, 2, 1).unwrap();
    b.set_alpha_to_255().unwrap();
    assert_eq!(px(&b, 1, 0), Bgra8 { b: 0x30, g: 0x20, r: 0x10, a: 0xFF });
    let mut rgb = Bitmap::create_u8(2, 1, PixelLayout::BGR, false, false, ColorSpace::StandardRGB, BitmapCompositing::ReplaceSelf).unwrap();
    assert_eq!(rgb.set_alpha_to_255().unwrap_err().kind, ErrorKind::InvalidArgument);
}

#[test]
fn normalize_unused_alpha_only_when_unused() {
    let mut used = bgra(1, 1);
    used.fill_rectangle(Color32(0x01020304), 0, 0, 1, 1).unwrap();
    used.normalize_unused_alpha().unwrap();
    assert_eq!(px(&used, 0, 0).a, 0x01);
    let mut unused = bgr32(1, 1);
    unused.fill_rectangle(Color32(0x01020304), 0, 0, 1, 1).unwrap();
    unused.normalize_unused_alpha().unwrap();
    assert_eq!(px(&unused, 0, 0).a, 0xFF);
    unused.normalize_alpha().unwrap();
    assert_eq!(px(&unused, 0, 0), Bgra8 { b: 4, g: 3, r: 2, a: 0xFF });
}

#[test]
fn contiguous_vec_skips_stride_padding() {
    let b = patterned(3, 2);
    let v = b.create_contiguous_vec().unwrap();
    assert_eq!(v.len(), 3 * 2 * 4);
    let p = Color32(color_of(2, 1)).to_bgra8();
    assert_eq!(&v[20..24], &[p.b, p.g, p.r, p.a]);
}

#[test]
fn short_hash_is_xxhash_of_the_pixel_rows() {
    let b = patterned(3, 2);
    let v = b.create_contiguous_vec().unwrap();
    let expected = twox_hash::XxHash64::oneshot(0x8ed1_2ad9_483d_28a0, &v);
    assert_eq!(b.short_hash_pixels(), expected);
    assert_ne!(b.short_hash_pixels(), 0x8ed1_2ad9_483d_28a0);
    let mut other = patterned(3, 2);
    paint(&mut other, 0, 0, 0xFFFFFFFF);
    assert_ne!(b.short_hash_pixels(), other.short_hash_pixels());
}

#[test]
fn frame_info_reports_size_and_format() {
    let b = bgr32(7, 5);
    let info = b.frame_info();
    assert_eq!((info.w, info.h, info.fmt), (7, 5, PixelFormat::Bgr32));
}

#[test]
fn create_u8_refuses_zero_dimensions() {
    let e = Bitmap::create_u8(0, 5, PixelLayout::BGRA, false, true, ColorSpace::StandardRGB, BitmapCompositing::ReplaceSelf).unwrap_err();
    assert_eq!(e.kind, ErrorKind::InvalidArgument);
}

#[test]
fn matte_compositing_fills_with_the_matte() {
    let b = Bitmap::create_u8(2, 2, PixelLayout::BGRA, false, true, ColorSpace::StandardRGB,
        BitmapCompositing::BlendWithMatte(Color32(0xFF0000FF))).unwrap();
    assert_eq!(px(&b, 1, 1), Bgra8 { b: 0xFF, g: 0, r: 0, a: 0xFF });
}

#[test]
fn cast_shapes_shrink_by_the_element_factor() {
    assert_eq!(calculate_cast_buffer_results(5, 3, 4, 24, 72, 18, true).unwrap(), (6, 5, 1));
    assert_eq!(calculate_cast_buffer_results(5, 3, 4, 24, 68, 17, false).unwrap(), (6, 5, 1));
    assert_eq!(calculate_cast_buffer_results(5, 3, 4, 24, 68, 17, true).unwrap_err().kind, ErrorKind::InvalidArgument);
    assert_eq!(calculate_cast_buffer_results(2, 2, 3, 8, 16, 16, true).unwrap(), (8, 6, 3));
}

#[test]
fn rows_hold_the_pixel_bytes() {
    let mut b = bgra(2, 2);
    paint(&mut b, 1, 1, 0xFF112233);
    assert_eq!(b.row(1).unwrap(), &[0, 0, 0, 0, 0x33, 0x22, 0x11, 0xFF][..]);
    assert_eq!(b.row(0).unwrap(), &[0u8; 8][..]);
    assert!(b.row(2).is_none());
    assert_eq!(b.size_16().unwrap(), (2, 2));
    assert_eq!(b.stride_padding(), 56);
}

#[test]
fn mirrors_commute_into_a_half_turn() {
    let mut a = patterned(3, 2);
    let mut b = patterned(3, 2);
    flow_bitmap_bgra_flip_vertical_safe(&mut a).unwrap();
    flow_bitmap_bgra_flip_horizontal_safe(&mut a).unwrap();
    flow_bitmap_bgra_flip_horizontal_safe(&mut b).unwrap();
    flow_bitmap_bgra_flip_vertical_safe(&mut b).unwrap();
    assert_eq!(a.create_contiguous_vec().unwrap(), b.create_contiguous_vec().unwrap());
    for y in 0..2 {
        for x in 0..3 {
            expect(&a, x, y, color_of(2 - x, 1 - y));
        }
    }
}

#[test]
fn bitmaps_transpose_onto_a_canvas() {
    let from = patterned(3, 2);
    let mut to = bgra(2, 3);
    bitmap_window_transpose(&from, &mut to).unwrap();
    for y in 0..3 {
        for x in 0..2 {
            expect(&to, x, y, color_of(y, x));
        }
    }
    let mut wrong = bgra(3, 2);
    assert_eq!(bitmap_window_transpose(&from, &mut wrong).unwrap_err().kind, ErrorKind::InvalidArgument);
    let bgr_from = Bitmap::create_u8(2, 1, PixelLayout::BGR, false, false, ColorSpace::StandardRGB, BitmapCompositing::ReplaceSelf).unwrap();
    let mut bgr_to = Bitmap::create_u8(1, 2, PixelLayout::BGR, false, false, ColorSpace::StandardRGB, BitmapCompositing::ReplaceSelf).unwrap();
    assert_eq!(bitmap_window_transpose(&bgr_from, &mut bgr_to).unwrap_err().kind, ErrorKind::InvalidArgument);
}
