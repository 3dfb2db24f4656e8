use imageflow_core::graphics::transpose::transpose_u32_slices;

const SENTINEL: u32 = 0xDEAD_BEEF;

/// Verify transpose correctness with sentinel-filled destination.
/// Uses unique sequential values offset by 1 (so no cell has value 0 or SENTINEL).
/// Checks every active cell AND verifies stride padding is untouched.
fn verify_transpose(w: usize, h: usize, src_stride: usize, dst_stride: usize) {
    let mut from = vec![SENTINEL; src_stride * h];
    for y in 0..h {
        for x in 0..w {
            from[y * src_stride + x] = (y * w + x + 1) as u32;
        }
    }

    let mut to = vec![SENTINEL; dst_stride * w];

    match transpose_u32_slices(&from, &mut to, src_stride, dst_stride, w, h) {
        Ok(()) => {}
        Err(e) => panic!(
            "transpose failed for {w}x{h} (strides {src_stride},{dst_stride}): {}",
            e.to_display_string()
        ),
    }

    for y in 0..h {
        for x in 0..w {
            let expected = (y * w + x + 1) as u32;
            let actual = to[x * dst_stride + y];
            assert_eq!(
                actual, expected,
                "wrong value at dst[{x}][{y}] for {w}x{h} (strides {src_stride},{dst_stride}): \
                 got {actual:#X}, expected {expected:#X}"
            );
        }
    }

    for dst_row in 0..w {
        for col in h..dst_stride {
            let actual = to[dst_row * dst_stride + col];
            assert_eq!(
                actual, SENTINEL,
                "padding corrupted at dst row {dst_row} col {col} for {w}x{h} \
                 (strides {src_stride},{dst_stride}): got {actual:#X}, expected SENTINEL"
            );
        }
    }
}

const TEST_DIMS: &[(usize, usize)] = &[
    (1, 1),
    (1, 2),
    (2, 1),
    (3, 5),
    (5, 3),
    (7, 7),
    (8, 8),
    (16, 8),
    (8, 16),
    (16, 16),
    (64, 64),
    (120, 120),
    (9, 9),
    (15, 17),
    (17, 15),
    (33, 65),
    (65, 33),
    (127, 127),
    (128, 128),
    (129, 128),
    (128, 129),
    (129, 129),
    (131, 133),
    (136, 128),
    (128, 136),
    (136, 136),
    (137, 128),
    (128, 137),
    (137, 139),
    (256, 256),
    (257, 257),
    (255, 255),
    (1, 128),
    (128, 1),
    (1, 257),
    (257, 1),
    (3, 256),
    (256, 3),
    (7, 129),
    (129, 7),
];

#[test]
fn test_transpose_all_dims_no_padding() {
    for &(w, h) in TEST_DIMS {
        verify_transpose(w, h, w, h);
    }
}

#[test]
fn test_transpose_all_dims_with_stride_padding() {
    for &(w, h) in TEST_DIMS {
        verify_transpose(w, h, w + 1, h + 2);
        verify_transpose(w, h, w + 3, h + 1);
    }
}

#[test]
fn test_transpose_roundtrip() {
    for &(w, h) in TEST_DIMS {
        let original: Vec<u32> = (1..=(w * h) as u32).collect();
        let mut transposed = vec![SENTINEL; w * h];
        let mut roundtripped = vec![SENTINEL; w * h];

        transpose_u32_slices(&original, &mut transposed, w, h, w, h).unwrap();
        transpose_u32_slices(&transposed, &mut roundtripped, h, w, h, w).unwrap();

        assert_eq!(original, roundtripped, "roundtrip failed for {w}x{h}");
    }
}

#[test]
fn test_transpose_error_cases() {
    let from = vec![1, 2, 3, 4];
    let mut to = vec![0; 4];

    assert!(transpose_u32_slices(&from, &mut to, 1, 2, 2, 2).is_err()); // from_stride < width
    assert!(transpose_u32_slices(&from, &mut to, 2, 1, 2, 2).is_err()); // to_stride < height
    assert!(transpose_u32_slices(&from, &mut to, 3, 2, 3, 2).is_err()); // from OOB
    assert!(transpose_u32_slices(&from, &mut to, 2, 3, 2, 3).is_err()); // to OOB
}

#[test]
fn test_transpose_known_small() {
    let from = vec![1, 2, 3, 4, 5, 6, 7, 8, 9];
    let mut to = vec![SENTINEL; 9];
    transpose_u32_slices(&from, &mut to, 3, 3, 3, 3).unwrap();
    assert_eq!(to, vec![1, 4, 7, 2, 5, 8, 3, 6, 9]);

    let from = vec![1, 2, 3, 4, 5, 6];
    let mut to = vec![SENTINEL; 6];
    transpose_u32_slices(&from, &mut to, 3, 2, 3, 2).unwrap();
    assert_eq!(to, vec![1, 4, 2, 5, 3, 6]);

    let from = vec![1, 2, 3, 0xFF, 4, 5, 6, 0xFF, 7, 8, 9, 0xFF];
    let mut to = vec![SENTINEL; 9];
    transpose_u32_slices(&from, &mut to, 4, 3, 3, 3).unwrap();
    assert_eq!(to, vec![1, 4, 7, 2, 5, 8, 3, 6, 9]);
}

#[test]
fn a_short_destination_stride_is_refused_before_any_size_is_computed() {
    let from = vec![0u32; 4];
    let mut to = vec![7u32; 4];
    let e = transpose_u32_slices(&from, &mut to, usize::MAX, 1, 2, 3).unwrap_err();
    assert_eq!(e.kind, imageflow_core::errors::ErrorKind::InvalidArgument);
    assert_eq!(to, vec![7u32; 4]);
}
