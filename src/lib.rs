//! Fourier coefficients of a closed polygonal path, for drawing it with
//! epicycles. The library decides everything that does not depend on the
//! coordinates: how the polygon is resampled, which harmonics are evaluated
//! and in what order, and when a path is rejected.

use vstd::prelude::*;

pub mod harmonics;
pub mod plan;
pub mod resample;

verus! {

/// Number of samples taken along each edge of the input polygon.
pub const INTERPOLATION_AMOUNT: usize = 20;

} // verus!
