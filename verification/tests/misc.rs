use imageflow_core::context::min_optional;
use imageflow_core::errors::{CErrorProxy, CStatus, ErrorCategory};
use imageflow_core::ffi::{BitmapCompositingMode, ColorProfileSource, JpegMarker};
use imageflow_core::graphics::math::{int_max, int_min};
use imageflow_core::text::{push_decimal_i64, push_decimal_u64};

#[test]
fn min_optional_takes_the_smaller_present_value() {
    assert_eq!(min_optional(Some(3), Some(5)), Some(3));
    assert_eq!(min_optional(Some(7), None), Some(7));
    assert_eq!(min_optional(None, Some(2)), Some(2));
    assert_eq!(min_optional(None, None), None);
}

#[test]
fn c_error_proxy_reports_the_status() {
    let oom = CErrorProxy::new(10, "ignored".to_string());
    assert!(oom.has_error());
    assert_eq!(oom.error(), CStatus::Cat(ErrorCategory::OutOfMemory));
    let e = oom.get();
    assert!(e.is_oom());
    assert_eq!(e.into_string(), "");

    let custom = CErrorProxy::new(2000, "plugin failed".to_string());
    assert_eq!(custom.error(), CStatus::Custom(2000));
    assert_eq!(custom.get().into_string(), "plugin failed");

    assert_eq!(CErrorProxy::new(90, String::new()).error(), CStatus::ErrorMismatch);
    assert_eq!(CErrorProxy::new(55, String::new()).error(), CStatus::Unknown(55));
    assert_eq!(CErrorProxy::new(30, "x".to_string()).require().status(), CStatus::Cat(ErrorCategory::InternalError));
}

#[test]
fn c_error_proxy_without_error() {
    let none = CErrorProxy::null();
    assert!(!none.has_error());
    assert_eq!(none.get().status(), CStatus::Cat(ErrorCategory::NoError));
    let r = none.require();
    assert_eq!(r.status(), CStatus::ErrorMismatch);
    assert_eq!(r.into_string(), "");
}

#[test]
fn c_codes() {
    assert_eq!(BitmapCompositingMode::ReplaceSelf.c_value(), 0);
    assert_eq!(BitmapCompositingMode::BlendWithMatte.c_value(), 2);
    assert_eq!(ColorProfileSource::Null.c_value(), 0);
    assert_eq!(ColorProfileSource::sRGB.c_value(), 4);
    assert_eq!(JpegMarker::App0.code(), 0xE0);
    assert_eq!(JpegMarker::EXIF.code(), 0xE1);
    assert_eq!(JpegMarker::ICC.code(), 0xE2);
    assert_eq!(CStatus::Custom(2000).to_i32(), 2000);
    assert_eq!(CStatus::ErrorMismatch.to_i32(), 90);
    assert_eq!(CStatus::from(60), CStatus::Cat(ErrorCategory::ImageMalformed));
}

#[test]
fn integer_extremes() {
    assert_eq!(int_max(-3, 2), 2);
    assert_eq!(int_min(-3, 2), -3);
    assert_eq!(int_max(i32::MIN, i32::MIN), i32::MIN);
}

#[test]
fn decimal_text() {
    let mut s = String::from("n=");
    push_decimal_u64(&mut s, 0);
    push_decimal_u64(&mut s, 1907);
    assert_eq!(s, "n=01907");
    let mut t = String::new();
    push_decimal_i64(&mut t, i64::MIN);
    assert_eq!(t, "-9223372036854775808");
    let mut u = String::new();
    push_decimal_i64(&mut u, -12);
    assert_eq!(u, "-12");
}
