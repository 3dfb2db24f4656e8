use imageflow_core::graphics::bitmaps::{Bitmap, BitmapCompositing, Color32, ColorSpace, PixelLayout};
use imageflow_core::graphics::whitespace::{
    approximate_grayscale, content_of_small_image, sobel_scharr_detect, window_size, Buffer, Rect, RectCorners,
    ScanEdge, ScanPhase,
    WhitespaceSearch,
};

fn empty_search(w: u32, h: u32, threshold: u32) -> WhitespaceSearch {
    WhitespaceSearch { w, h, threshold, min_x: w, max_x: 0, min_y: h, max_y: 0 }
}

fn buffer(w: u32, h: u32, lit: &[(u32, u32)]) -> Buffer {
    let mut pixels = [0u8; 2048];
    for &(x, y) in lit {
        pixels[(y * w + x) as usize] = 255;
    }
    Buffer { pixels, x: 0, y: 0, w, h }
}

#[test]
fn a_single_bright_pixel_is_found_exactly() {
    let buf = buffer(5, 5, &[(2, 2)]);
    let mut s = empty_search(5, 5, 10);
    sobel_scharr_detect(&buf, &mut s);
    assert_eq!((s.min_x, s.max_x, s.min_y, s.max_y), (2, 3, 2, 3));
}

#[test]
fn the_window_offset_moves_the_box() {
    let mut buf = buffer(5, 5, &[(2, 2)]);
    buf.x = 10;
    buf.y = 20;
    let mut s = empty_search(40, 40, 10);
    sobel_scharr_detect(&buf, &mut s);
    assert_eq!((s.min_x, s.max_x, s.min_y, s.max_y), (12, 13, 22, 23));
}

#[test]
fn a_flat_window_changes_nothing() {
    let buf = buffer(6, 4, &[]);
    let mut s = empty_search(6, 4, 0);
    sobel_scharr_detect(&buf, &mut s);
    assert_eq!((s.min_x, s.max_x, s.min_y, s.max_y), (6, 0, 4, 0));
}

#[test]
fn a_high_threshold_ignores_the_pixel() {
    let buf = buffer(5, 5, &[(2, 2)]);
    let mut s = empty_search(5, 5, 3000);
    sobel_scharr_detect(&buf, &mut s);
    assert_eq!((s.min_x, s.max_x, s.min_y, s.max_y), (5, 0, 5, 0));
}

#[test]
fn grayscale_of_bgra_scales_by_alpha() {
    let mut b = Bitmap::create_u8(2, 1, PixelLayout::BGRA, false, true, ColorSpace::StandardRGB, BitmapCompositing::ReplaceSelf).unwrap();
    b.fill_rectangle(Color32(0xFF112233), 0, 0, 1, 1).unwrap();
    b.fill_rectangle(Color32(0xFFFFFFFF), 1, 0, 2, 1).unwrap();
    let mut gray = [7u8; 3];
    approximate_grayscale(&mut gray, 3, 0, 0, 2, 1, &b);
    assert_eq!(gray, [31, 254, 7]);
}

#[test]
fn grayscale_of_a_window_lands_row_by_row() {
    let mut b = Bitmap::create_u8(3, 3, PixelLayout::BGRA, false, false, ColorSpace::StandardRGB, BitmapCompositing::ReplaceSelf).unwrap();
    b.fill_rectangle(Color32(0xFFFFFFFF), 1, 1, 3, 3).unwrap();
    let mut gray = [1u8; 6];
    approximate_grayscale(&mut gray, 3, 1, 1, 2, 2, &b);
    assert_eq!(gray, [254, 254, 1, 254, 254, 1]);
}

#[test]
fn rect_corners_unless_they_overflow() {
    let r = Rect { x: 1, y: 2, w: 3, h: 4 };
    assert_eq!(r.to_corners_checked(), Some(RectCorners { x1: 1, y1: 2, x2: 4, y2: 6 }));
    let r = Rect { x: u32::MAX, y: 0, w: 1, h: 1 };
    assert_eq!(r.to_corners_checked(), None);
}

#[test]
fn window_sizes() {
    assert_eq!(window_size(ScanEdge::NonDirectional, 1000, 1000), (292, 7));
    assert_eq!(window_size(ScanEdge::Top, 1000, 1000), (46, 44));
    assert_eq!(window_size(ScanEdge::Left, 10, 100), (10, 100));
}

#[test]
fn search_rects_per_edge() {
    let s = empty_search(100, 100, 0);
    assert_eq!(s.get_search_rect(ScanEdge::Left, 0, 25, 0, 99), Some(RectCorners { x1: 0, y1: 0, x2: 25, y2: 99 }));
    assert_eq!(s.get_search_rect(ScanEdge::Top, 0, 99, 0, 25), Some(RectCorners { x1: 0, y1: 0, x2: 99, y2: 25 }));
    assert_eq!(s.get_search_rect(ScanEdge::NonDirectional, 10, 12, 10, 11), Some(RectCorners { x1: 7, y1: 7, x2: 15, y2: 14 }));
    let found = WhitespaceSearch { w: 100, h: 100, threshold: 0, min_x: 10, max_x: 100, min_y: 10, max_y: 90 };
    assert_eq!(found.get_search_rect(ScanEdge::Right, 70, 99, 0, 99), None);
    assert_eq!(found.get_search_rect(ScanEdge::Bottom, 0, 99, 70, 99), Some(RectCorners { x1: 0, y1: 90, x2: 99, y2: 100 }));
}

#[test]
fn window_plans() {
    let s = empty_search(100, 100, 0);
    let rect = RectCorners { x1: 0, y1: 0, x2: 100, y2: 100 };
    assert_eq!(s.plan_window(rect, 46, 44, 0, 0), Some((0, 0, 46, 44)));
    assert_eq!(s.plan_window(rect, 46, 44, 0, 2), Some((88, 0, 12, 44)));
    let found = WhitespaceSearch { w: 100, h: 100, threshold: 0, min_x: 10, max_x: 90, min_y: 10, max_y: 90 };
    assert_eq!(found.plan_window(rect, 10, 10, 3, 3), None);
}

#[test]
fn full_scan_when_much_is_left_outside() {
    assert!(empty_search(100, 100, 0).needs_full_scan());
    let found = WhitespaceSearch { w: 100, h: 100, threshold: 0, min_x: 10, max_x: 90, min_y: 10, max_y: 90 };
    assert!(!found.needs_full_scan());
}

#[test]
fn content_rect_is_the_box_or_everything() {
    assert_eq!(empty_search(8, 6, 0).content_rect(), RectCorners { x1: 0, y1: 0, x2: 8, y2: 6 });
    let found = WhitespaceSearch { w: 8, h: 6, threshold: 0, min_x: 1, max_x: 5, min_y: 2, max_y: 4 };
    assert_eq!(found.content_rect(), RectCorners { x1: 1, y1: 2, x2: 5, y2: 4 });
}

#[test]
fn a_window_at_the_far_edge_of_the_coordinate_range_is_scanned() {
    let mut buf = buffer(5, 5, &[(2, 2)]);
    buf.x = u32::MAX - 5;
    buf.y = u32::MAX - 5;
    let mut s = empty_search(u32::MAX, u32::MAX, 10);
    sobel_scharr_detect(&buf, &mut s);
    assert_eq!((s.min_x, s.max_x), (u32::MAX - 3, u32::MAX - 2));
    assert_eq!((s.min_y, s.max_y), (u32::MAX - 3, u32::MAX - 2));
}

#[test]
fn small_images_are_their_own_content_and_searches_start_empty() {
    assert_eq!(content_of_small_image(2, 10), Some(RectCorners { x1: 0, x2: 2, y1: 0, y2: 10 }));
    assert_eq!(content_of_small_image(10, 1), Some(RectCorners { x1: 0, x2: 10, y1: 0, y2: 1 }));
    assert_eq!(content_of_small_image(3, 3), None);
    let s = WhitespaceSearch::start(8, 6, 20);
    assert_eq!((s.min_x, s.max_x, s.min_y, s.max_y, s.threshold), (8, 0, 6, 0, 20));
    assert_eq!(s.next_phase(), ScanPhase::Full);
    let found = WhitespaceSearch { min_x: 0, max_x: 8, min_y: 0, max_y: 6, ..s };
    assert_eq!(found.next_phase(), ScanPhase::EverythingInward);
}
