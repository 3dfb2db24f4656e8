use imageflow_core::context::{
    effective_security, intersect_job_security, min_optional_bounds, FrameSizeBounds, JobSecuritySnapshot,
    SecurityLimits, SecurityState,
};

fn none() -> SecurityLimits {
    SecurityLimits {
        max_decode_size: None,
        max_frame_size: None,
        max_encode_size: None,
        max_input_file_bytes: None,
        max_json_bytes: None,
        max_total_file_pixels: None,
    }
}

#[test]
fn frame_bounds_are_tightened_dimension_by_dimension() {
    let a = Some(FrameSizeBounds { w: 100, h: 50 });
    let b = Some(FrameSizeBounds { w: 80, h: 70 });
    assert_eq!(min_optional_bounds(a, b), Some(FrameSizeBounds { w: 80, h: 50 }));
    assert_eq!(min_optional_bounds(a, None), a);
    assert_eq!(min_optional_bounds(None, b), b);
    assert_eq!(min_optional_bounds(None, None), None);
}

#[test]
fn a_job_only_tightens_the_defaults() {
    let default = SecurityLimits {
        max_decode_size: Some(FrameSizeBounds { w: 10000, h: 10000 }),
        max_json_bytes: Some(1000),
        max_input_file_bytes: Some(500),
        ..none()
    };
    let job = SecurityLimits {
        max_decode_size: Some(FrameSizeBounds { w: 20000, h: 800 }),
        max_json_bytes: Some(5000),
        max_total_file_pixels: Some(42),
        ..none()
    };
    let r = intersect_job_security(&default, &job);
    assert_eq!(r.max_decode_size, Some(FrameSizeBounds { w: 10000, h: 800 }));
    assert_eq!(r.max_json_bytes, Some(1000));
    assert_eq!(r.max_input_file_bytes, Some(500));
    assert_eq!(r.max_total_file_pixels, Some(42));
    assert_eq!(r.max_frame_size, None);
    assert_eq!(intersect_job_security(&job, &default), r);
}

#[test]
fn without_job_settings_the_defaults_apply() {
    let default = SecurityLimits { max_json_bytes: Some(7), ..none() };
    assert_eq!(effective_security(&default, None), default);
    let job = SecurityLimits { max_json_bytes: Some(3), ..none() };
    assert_eq!(effective_security(&default, Some(&job)).max_json_bytes, Some(3));
}

#[test]
fn a_job_installs_its_limits_and_restores_the_previous_ones() {
    let default = SecurityLimits { max_json_bytes: Some(100), ..none() };
    let mut state = SecurityState { default_job_security: default, active_job_security: None };
    assert_eq!(state.current_security(), default);
    let job = SecurityLimits { max_json_bytes: Some(10), ..none() };
    let snapshot = JobSecuritySnapshot::install(&mut state, job);
    assert_eq!(state.current_security(), job);
    snapshot.restore(&mut state);
    assert_eq!(state, SecurityState { default_job_security: default, active_job_security: None });
}
