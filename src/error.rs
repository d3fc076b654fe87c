//! The kinds of failure that tracking distinguishes.

use vstd::prelude::*;

verus! {

/// Why a frame produced no pose update, or why startup cannot go on.
///
/// Every kind but `CalibrationLoadFailed` is recovered within the frame: the
/// last published camera transform stays in place.
#[derive(Clone, Copy, Debug, PartialEq, Eq, Structural)]
pub enum TrackingError {
    /// The frame source gave an empty image.
    AcquisitionEmpty,
    /// No detected marker is in the registry (or nothing was detected).
    NoTargets,
    /// The matched image corners and world corners differ in number.
    CorrespondenceMismatch,
    /// The pose solver failed or found no pose.
    SolveFailed,
    /// The solved rotation is not a proper rotation (for instance a reflection).
    DegeneratePose,
    /// The camera calibration is missing or malformed; fatal at startup.
    CalibrationLoadFailed,
}

} // verus!
