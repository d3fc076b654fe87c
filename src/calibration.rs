//! Shape checks on the camera calibration read at startup.

use vstd::prelude::*;

use crate::error::TrackingError;

verus! {

/// Whether `rows` is a 3x3 matrix given row by row.
pub open spec fn is_camera_matrix_shape<T>(rows: Seq<Vec<T>>) -> bool {
    &&& rows.len() == 3
    &&& forall|i: int| 0 <= i < 3 ==> (#[trigger] rows[i])@.len() == 3
}

/// Accepts a camera matrix only when it has three rows of three entries;
/// anything else is a malformed calibration.
pub fn check_camera_matrix<T>(rows: &Vec<Vec<T>>) -> (r: Result<(), TrackingError>)
    ensures
        r is Ok <==> is_camera_matrix_shape(rows@),
        r is Err ==> r == Err::<(), TrackingError>(TrackingError::CalibrationLoadFailed),
{
    if rows.len() != 3 {
        return Err(TrackingError::CalibrationLoadFailed);
    }
    let mut i: usize = 0;
    while i < 3
        invariant
            rows@.len() == 3,
            0 <= i <= 3,
            forall|k: int| 0 <= k < i ==> (#[trigger] rows@[k])@.len() == 3,
        decreases 3 - i,
    {
        if rows[i].len() != 3 {
            return Err(TrackingError::CalibrationLoadFailed);
        }
        i = i + 1;
    }
    Ok(())
}

} // verus!
