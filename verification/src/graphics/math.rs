//! Integer helpers of the graphics code.
use vstd::prelude::*;

verus! {

/// The larger of two integers.
pub fn int_max(a: i32, b: i32) -> (r: i32)
    ensures
        r == (if a >= b { a } else { b }),
{
    if a >= b { a } else { b }
}

/// The smaller of two integers.
pub fn int_min(a: i32, b: i32) -> (r: i32)
    ensures
        r == (if a <= b { a } else { b }),
{
    if a <= b { a } else { b }
}

} // verus!
