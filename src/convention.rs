//! The coordinate convention between the vision frame and the render frame.
//!
//! The solver works in the vision convention (`y` grows downward in the
//! image); the renderer's world has `y` growing upward. Re-expressing a camera
//! position therefore negates exactly one component.

use vstd::prelude::*;

verus! {

/// An axis of a 3D frame.
#[derive(Clone, Copy, Debug, PartialEq, Eq, Structural)]
pub enum Axis {
    X,
    Y,
    Z,
}

/// The axis whose direction differs between the vision and render conventions.
pub const FLIPPED_AXIS: Axis = Axis::Y;

/// The factor applied to the component along `axis` of a camera position
/// when it moves from the vision frame to the render frame.
pub fn render_sign(axis: Axis) -> (s: i8)
    ensures
        s == (if axis == FLIPPED_AXIS {
            -1i8
        } else {
            1i8
        }),
{
    if axis == FLIPPED_AXIS {
        -1
    } else {
        1
    }
}

} // verus!
