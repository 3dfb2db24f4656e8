//! The color spaces that scaling works in.
use vstd::prelude::*;

verus! {

/// The space in which pixel values are blended: sRGB as stored, linear light, or a gamma curve.
#[derive(Copy, Clone, Debug, PartialEq, Eq, Structural)]
pub enum WorkingFloatspace {
    StandardRGB,
    LinearRGB,
    Gamma,
}

} // verus!
