use fiducial_pose::calibration::check_camera_matrix;
use fiducial_pose::convention::{render_sign, Axis, FLIPPED_AXIS};
use fiducial_pose::error::TrackingError;

#[test]
fn vertical_axis_is_flipped() {
    assert_eq!(FLIPPED_AXIS, Axis::Y);
    assert_eq!(render_sign(Axis::X), 1);
    assert_eq!(render_sign(Axis::Y), -1);
    assert_eq!(render_sign(Axis::Z), 1);
}

#[test]
fn three_by_three_matrix_is_accepted() {
    let m = vec![vec![600.0, 0.0, 320.0], vec![0.0, 600.0, 240.0], vec![0.0, 0.0, 1.0]];
    assert_eq!(check_camera_matrix(&m), Ok(()));
}

#[test]
fn malformed_matrix_is_rejected() {
    let short_row = vec![vec![1.0, 0.0, 0.0], vec![0.0, 1.0], vec![0.0, 0.0, 1.0]];
    let two_rows = vec![vec![1.0, 0.0, 0.0], vec![0.0, 1.0, 0.0]];
    let empty: Vec<Vec<f64>> = Vec::new();
    for m in [short_row, two_rows, empty] {
        assert_eq!(check_camera_matrix(&m), Err(TrackingError::CalibrationLoadFailed));
    }
}
