//! 68-point facial landmark layout and the landmark detector entry point.
//!
//! Layout: 0-16 jaw, 17-21 right eyebrow, 22-26 left eyebrow, 27-35 nose,
//! 36-41 right eye, 42-47 left eye, 48-59 outer lip, 60-67 inner lip.

use vstd::prelude::*;
use crate::error::MediaError;

verus! {

/// Number of landmarks in the model.
pub const LANDMARK_COUNT: usize = 68;

/// Outer upper lip, left corner to right corner.
pub const OUTER_LIP_UPPER: [usize; 7] = [48, 49, 50, 51, 52, 53, 54];
/// Outer lower lip, right corner back to left corner.
pub const OUTER_LIP_LOWER: [usize; 7] = [54, 55, 56, 57, 58, 59, 48];
/// Inner upper lip.
pub const INNER_LIP_UPPER: [usize; 5] = [60, 61, 62, 63, 64];
/// Inner lower lip.
pub const INNER_LIP_LOWER: [usize; 5] = [64, 65, 66, 67, 60];

/// Every lip index names a landmark of the 68-point model; outer lip indices
/// lie in the outer-lip range 48-59 and inner ones in 60-67; each lip contour
/// closes on the corner points it shares with its counterpart.
pub proof fn lip_indices_are_valid()
    ensures
        forall|i: int| 0 <= i < 7 ==> 48 <= #[trigger] OUTER_LIP_UPPER@[i] <= 59,
        forall|i: int| 0 <= i < 7 ==> 48 <= #[trigger] OUTER_LIP_LOWER@[i] <= 59,
        forall|i: int| 0 <= i < 5 ==> 60 <= #[trigger] INNER_LIP_UPPER@[i] < LANDMARK_COUNT,
        forall|i: int| 0 <= i < 5 ==> 60 <= #[trigger] INNER_LIP_LOWER@[i] < LANDMARK_COUNT,
        OUTER_LIP_UPPER@[6] == OUTER_LIP_LOWER@[0] && OUTER_LIP_LOWER@[6] == OUTER_LIP_UPPER@[0],
        INNER_LIP_UPPER@[4] == INNER_LIP_LOWER@[0] && INNER_LIP_LOWER@[4] == INNER_LIP_UPPER@[0],
{
}

/// Landmark detector. The facemark module is not part of the build, so no
/// detector can be constructed.
pub struct FaceLandmarkDetector {
    _private: (),
}

impl FaceLandmarkDetector {
    /// A landmark detector if landmark detection is available; it is not in
    /// this build, so the answer is always `Ok(None)`.
    pub fn new() -> (r: Result<Option<Self>, MediaError>)
        ensures
            r matches Ok(None),
    {
        Ok(None)
    }
}

} // verus!
