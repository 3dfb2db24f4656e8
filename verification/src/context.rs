//! Combining the security limits of a job with the context's defaults: the more restrictive of
//! each limit is the one in force.
use vstd::prelude::*;

verus! {

/// The width and height limits of a frame that a job may decode or encode.
#[derive(Copy, Clone, Debug, PartialEq, Eq, Structural)]
pub struct FrameSizeBounds {
    pub w: u32,
    pub h: u32,
}

/// The more restrictive of two optional limits: the smaller where both are set, the one that is
/// set where only one is, none where neither is.
pub open spec fn spec_min_optional(a: Option<u64>, b: Option<u64>) -> Option<u64> {
    match (a, b) {
        (Some(x), Some(y)) => Some(if x <= y { x } else { y }),
        (Some(x), None) => Some(x),
        (None, Some(y)) => Some(y),
        (None, None) => None,
    }
}

/// The more restrictive of two optional limits.
pub fn min_optional(a: Option<u64>, b: Option<u64>) -> (r: Option<u64>)
    ensures
        r == spec_min_optional(a, b),
{
    match (a, b) {
        (Some(x), Some(y)) => Some(if x <= y { x } else { y }),
        (Some(x), None) => Some(x),
        (None, Some(y)) => Some(y),
        (None, None) => None,
    }
}

/// Combining limits is order-independent, keeps every limit that either side sets, and never
/// loosens one: the result is set whenever either limit is, and is no larger than either.
pub proof fn lemma_min_optional_restricts(a: Option<u64>, b: Option<u64>)
    ensures
        spec_min_optional(a, b) == spec_min_optional(b, a),
        spec_min_optional(a, b) is Some <==> (a is Some || b is Some),
        a matches Some(x) ==> spec_min_optional(a, b).unwrap() <= x,
        b matches Some(y) ==> spec_min_optional(a, b).unwrap() <= y,
        spec_min_optional(spec_min_optional(a, b), b) == spec_min_optional(a, b),
{
}

} // verus!

verus! {

/// The more restrictive of two optional frame-size bounds: width and height each the smaller
/// where both are set, the one that is set where only one is, none where neither is.
pub open spec fn spec_min_optional_bounds(a: Option<FrameSizeBounds>, b: Option<FrameSizeBounds>) -> Option<FrameSizeBounds> {
    match (a, b) {
        (Some(x), Some(y)) => Some(FrameSizeBounds {
            w: if x.w <= y.w { x.w } else { y.w },
            h: if x.h <= y.h { x.h } else { y.h },
        }),
        (Some(x), None) => Some(x),
        (None, Some(y)) => Some(y),
        (None, None) => None,
    }
}

/// The more restrictive of two optional frame-size bounds, dimension by dimension.
pub fn min_optional_bounds(a: Option<FrameSizeBounds>, b: Option<FrameSizeBounds>) -> (r: Option<FrameSizeBounds>)
    ensures
        r == spec_min_optional_bounds(a, b),
{
    match (a, b) {
        (Some(x), Some(y)) => Some(FrameSizeBounds {
            w: if x.w <= y.w { x.w } else { y.w },
            h: if x.h <= y.h { x.h } else { y.h },
        }),
        (Some(x), None) => Some(x),
        (None, Some(y)) => Some(y),
        (None, None) => None,
    }
}

/// The integer limits of a job's security settings: frame sizes for decoding, for any frame and
/// for encoding, and byte and pixel counts of its inputs.
#[derive(Copy, Clone, Debug, PartialEq, Eq, Structural)]
pub struct SecurityLimits {
    pub max_decode_size: Option<FrameSizeBounds>,
    pub max_frame_size: Option<FrameSizeBounds>,
    pub max_encode_size: Option<FrameSizeBounds>,
    pub max_input_file_bytes: Option<u64>,
    pub max_json_bytes: Option<u64>,
    pub max_total_file_pixels: Option<u64>,
}

/// The limits of two security settings, each the more restrictive of the two.
pub open spec fn spec_intersect_limits(a: SecurityLimits, b: SecurityLimits) -> SecurityLimits {
    SecurityLimits {
        max_decode_size: spec_min_optional_bounds(a.max_decode_size, b.max_decode_size),
        max_frame_size: spec_min_optional_bounds(a.max_frame_size, b.max_frame_size),
        max_encode_size: spec_min_optional_bounds(a.max_encode_size, b.max_encode_size),
        max_input_file_bytes: spec_min_optional(a.max_input_file_bytes, b.max_input_file_bytes),
        max_json_bytes: spec_min_optional(a.max_json_bytes, b.max_json_bytes),
        max_total_file_pixels: spec_min_optional(a.max_total_file_pixels, b.max_total_file_pixels),
    }
}

/// A job's limits combined with the context's defaults: the more restrictive of each limit.
pub fn intersect_job_security(default: &SecurityLimits, job: &SecurityLimits) -> (r: SecurityLimits)
    ensures
        r == spec_intersect_limits(*default, *job),
{
    SecurityLimits {
        max_decode_size: min_optional_bounds(default.max_decode_size, job.max_decode_size),
        max_frame_size: min_optional_bounds(default.max_frame_size, job.max_frame_size),
        max_encode_size: min_optional_bounds(default.max_encode_size, job.max_encode_size),
        max_input_file_bytes: min_optional(default.max_input_file_bytes, job.max_input_file_bytes),
        max_json_bytes: min_optional(default.max_json_bytes, job.max_json_bytes),
        max_total_file_pixels: min_optional(default.max_total_file_pixels, job.max_total_file_pixels),
    }
}

/// The limits in force for a job: the context's defaults, tightened by the job's own settings
/// where it gives any.
pub fn effective_security(default: &SecurityLimits, inline: Option<&SecurityLimits>) -> (r: SecurityLimits)
    ensures
        inline is None ==> r == *default,
        inline matches Some(j) ==> r == spec_intersect_limits(*default, *j),
{
    match inline {
        Some(j) => intersect_job_security(default, j),
        None => *default,
    }
}

/// `a` is no looser than `b`: every bound that `b` sets, `a` sets too, at most as large.
pub open spec fn bound_no_looser(a: Option<FrameSizeBounds>, b: Option<FrameSizeBounds>) -> bool {
    b matches Some(y) ==> (a matches Some(x) && x.w <= y.w && x.h <= y.h)
}

/// `a` is no looser than `b`: every count that `b` limits, `a` limits too, at most as high.
pub open spec fn count_no_looser(a: Option<u64>, b: Option<u64>) -> bool {
    b matches Some(y) ==> (a matches Some(x) && x <= y)
}

/// Every limit of `a` is at least as restrictive as the same limit of `b`.
pub open spec fn limits_no_looser(a: SecurityLimits, b: SecurityLimits) -> bool {
    &&& bound_no_looser(a.max_decode_size, b.max_decode_size)
    &&& bound_no_looser(a.max_frame_size, b.max_frame_size)
    &&& bound_no_looser(a.max_encode_size, b.max_encode_size)
    &&& count_no_looser(a.max_input_file_bytes, b.max_input_file_bytes)
    &&& count_no_looser(a.max_json_bytes, b.max_json_bytes)
    &&& count_no_looser(a.max_total_file_pixels, b.max_total_file_pixels)
}

/// A job can only tighten the context's limits, never loosen them: the combined limits are at
/// least as restrictive as both the defaults and the job's own, whichever side is given first.
pub proof fn lemma_job_security_never_loosens(default: SecurityLimits, job: SecurityLimits)
    ensures
        limits_no_looser(spec_intersect_limits(default, job), default),
        limits_no_looser(spec_intersect_limits(default, job), job),
        spec_intersect_limits(default, job) == spec_intersect_limits(job, default),
{
}

} // verus!

verus! {

/// The security settings a context holds: its defaults, and those of the job running, if any.
#[derive(Copy, Clone, Debug, PartialEq, Eq, Structural)]
pub struct SecurityState {
    pub default_job_security: SecurityLimits,
    pub active_job_security: Option<SecurityLimits>,
}

impl SecurityState {
    /// The limits in force: the running job's, or the defaults when no job runs.
    pub fn current_security(&self) -> (r: SecurityLimits)
        ensures
            r == (match self.active_job_security {
                Some(a) => a,
                None => self.default_job_security,
            }),
    {
        match self.active_job_security {
            Some(a) => a,
            None => self.default_job_security,
        }
    }
}

/// The settings a job replaced, kept to be put back when the job ends.
pub struct JobSecuritySnapshot {
    pub previous: Option<SecurityLimits>,
}

impl JobSecuritySnapshot {
    /// Installs `effective` as the running job's limits, and keeps the limits it replaced.
    pub fn install(state: &mut SecurityState, effective: SecurityLimits) -> (r: JobSecuritySnapshot)
        ensures
            final(state).active_job_security == Some(effective),
            final(state).default_job_security == old(state).default_job_security,
            r.previous == old(state).active_job_security,
    {
        let previous = state.active_job_security;
        state.active_job_security = Some(effective);
        JobSecuritySnapshot { previous }
    }

    /// Puts back the limits that were running before `install`.
    pub fn restore(self, state: &mut SecurityState)
        ensures
            final(state).active_job_security == self.previous,
            final(state).default_job_security == old(state).default_job_security,
    {
        state.active_job_security = self.previous;
    }
}

/// Installing a job's limits and then restoring the snapshot leaves the context's settings as
/// they were, and while the job runs its limits are the ones in force.
pub proof fn lemma_install_then_restore(before: SecurityState, installed: SecurityState, snapshot_previous: Option<SecurityLimits>,
    after: SecurityState, effective: SecurityLimits)
    requires
        installed.active_job_security == Some(effective),
        installed.default_job_security == before.default_job_security,
        snapshot_previous == before.active_job_security,
        after.active_job_security == snapshot_previous,
        after.default_job_security == installed.default_job_security,
    ensures
        after == before,
        (match installed.active_job_security { Some(a) => a, None => installed.default_job_security }) == effective,
{
}

} // verus!
