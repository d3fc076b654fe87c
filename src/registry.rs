//! The fixed table of fiducial markers and their world-space corners.
//!
//! Lengths are held in whole micrometres, so that every corner of every
//! marker is an exact integer. The markers lie in the plane `y == 0`; their
//! centres sit on the `x` axis at `(x_offset_um, 0, 0)`.

use vstd::prelude::*;

verus! {

/// Edge length of every marker (82.5 mm).
pub const MARKER_SIZE_UM: i64 = 82_500;

/// Half the edge length of a marker (41.25 mm).
pub const HALF_MARKER_SIZE_UM: i64 = 41_250;

/// Distance from the reference axis to the inner edge of the two inner markers.
pub const INNER_GAP_UM: i64 = 105_000;

/// Distance from an inner marker's outer edge to the outer marker's inner edge.
pub const OUTER_GAP_UM: i64 = 280_000;

/// Distance from the reference axis to the centre of each inner marker.
pub const INNER_OFFSET_UM: i64 = INNER_GAP_UM + HALF_MARKER_SIZE_UM;

/// Distance from the reference axis to the centre of each outer marker.
pub const OUTER_OFFSET_UM: i64 = INNER_GAP_UM + OUTER_GAP_UM + HALF_MARKER_SIZE_UM;

/// A point in world space, in micrometres.
#[derive(Clone, Copy, Debug, PartialEq, Eq, Structural)]
pub struct Point3 {
    pub x: i64,
    pub y: i64,
    pub z: i64,
}

/// A marker of the table: its identifier and the signed distance of its
/// centre from the reference axis (rightward positive).
#[derive(Clone, Copy, Debug, PartialEq, Eq, Structural)]
pub struct FiducialMarker {
    pub id: i32,
    pub x_offset_um: i64,
}

/// The registered markers, in table order.
pub open spec fn marker_table() -> Seq<FiducialMarker> {
    let outer_left = (-OUTER_OFFSET_UM) as i64;
    let inner_left = (-INNER_OFFSET_UM) as i64;
    seq![
        FiducialMarker { id: 0, x_offset_um: outer_left },
        FiducialMarker { id: 1, x_offset_um: inner_left },
        FiducialMarker { id: 2, x_offset_um: INNER_OFFSET_UM },
        FiducialMarker { id: 3, x_offset_um: OUTER_OFFSET_UM },
    ]
}

/// Whether `id` names a marker of the table.
pub open spec fn is_registered(id: i32) -> bool {
    exists|i: int| 0 <= i < marker_table().len() && (#[trigger] marker_table()[i]).id == id
}

/// The marker of the table that `id` names.
pub open spec fn marker_of(id: i32) -> FiducialMarker
    recommends
        is_registered(id),
{
    marker_table()[choose|i: int| 0 <= i < marker_table().len() && (#[trigger] marker_table()[i]).id == id]
}

/// The four corners of a square marker centred at `(cx, 0, 0)`, in the
/// detector's corner order: bottom-right, bottom-left, top-left, top-right,
/// where positive `z` points toward the camera ("bottom").
pub open spec fn square_corners(cx: int) -> Seq<Point3> {
    let h = HALF_MARKER_SIZE_UM as int;
    seq![
        Point3 { x: (cx + h) as i64, y: 0, z: h as i64 },
        Point3 { x: (cx - h) as i64, y: 0, z: h as i64 },
        Point3 { x: (cx - h) as i64, y: 0, z: -h as i64 },
        Point3 { x: (cx + h) as i64, y: 0, z: -h as i64 },
    ]
}

/// The world corners of the marker that `id` names.
pub open spec fn corners_of(id: i32) -> Seq<Point3> {
    square_corners(marker_of(id).x_offset_um as int)
}

/// Whether four points form a planar square of edge `size` in the plane
/// `y == 0`, centred at `(cx, 0, 0)`, walked in the order the corners of a
/// marker are given.
pub open spec fn is_marker_square(c: Seq<Point3>, cx: int, size: int) -> bool {
    &&& c.len() == 4
    &&& forall|k: int| 0 <= k < 4 ==> (#[trigger] c[k]).y == 0
    &&& c[0].x - c[1].x == size && c[0].z == c[1].z
    &&& c[1].z - c[2].z == size && c[1].x == c[2].x
    &&& c[3].x - c[2].x == size && c[2].z == c[3].z
    &&& c[0].z - c[3].z == size && c[0].x == c[3].x
    &&& c[0].x + c[1].x + c[2].x + c[3].x == 4 * cx
    &&& c[0].z + c[1].z + c[2].z + c[3].z == 0
}

/// Marker identifiers in the table are pairwise distinct.
pub proof fn lemma_table_ids_unique()
    ensures
        forall|i: int, j: int|
            0 <= i < marker_table().len() && 0 <= j < marker_table().len()
                && (#[trigger] marker_table()[i]).id == (#[trigger] marker_table()[j]).id ==> i == j,
{
}

impl FiducialMarker {
    /// The marker's four world corners, in the detector's corner order.
    pub fn corners(&self) -> (r: [Point3; 4])
        requires
            -1_000_000_000 <= self.x_offset_um <= 1_000_000_000,
        ensures
            r@ == square_corners(self.x_offset_um as int),
    {
        let h = HALF_MARKER_SIZE_UM;
        let r = [
            Point3 { x: self.x_offset_um + h, y: 0, z: h },
            Point3 { x: self.x_offset_um - h, y: 0, z: h },
            Point3 { x: self.x_offset_um - h, y: 0, z: -h },
            Point3 { x: self.x_offset_um + h, y: 0, z: -h },
        ];
        assert(r@ =~= square_corners(self.x_offset_um as int));
        r
    }
}

/// The registered markers, in table order.
pub fn fiducial_table() -> (r: Vec<FiducialMarker>)
    ensures
        r@ == marker_table(),
{
    let outer_left: i64 = -OUTER_OFFSET_UM;
    let inner_left: i64 = -INNER_OFFSET_UM;
    let r = vec![
        FiducialMarker { id: 0, x_offset_um: outer_left },
        FiducialMarker { id: 1, x_offset_um: inner_left },
        FiducialMarker { id: 2, x_offset_um: INNER_OFFSET_UM },
        FiducialMarker { id: 3, x_offset_um: OUTER_OFFSET_UM },
    ];
    assert(r@ =~= marker_table());
    r
}

/// Looks `id` up in the table by a linear scan.
pub fn find_marker(id: i32) -> (r: Option<FiducialMarker>)
    ensures
        match r {
            Some(m) => is_registered(id) && m == marker_of(id),
            None => !is_registered(id),
        },
{
    let table = fiducial_table();
    let mut i: usize = 0;
    while i < table.len()
        invariant
            table@ == marker_table(),
            0 <= i <= table.len(),
            forall|k: int| 0 <= k < i ==> (#[trigger] table@[k]).id != id,
        decreases table.len() - i,
    {
        if table[i].id == id {
            proof {
                lemma_table_ids_unique();
                let j = choose|j: int| 0 <= j < marker_table().len() && (#[trigger] marker_table()[j]).id == id;
                assert(marker_table()[i as int].id == id);
            }
            return Some(table[i]);
        }
        i = i + 1;
    }
    None
}

/// The world corners of marker `id`, or `None` for an identifier that the
/// table does not hold.
pub fn corners_for(id: i32) -> (r: Option<[Point3; 4]>)
    ensures
        is_registered(id) <==> r is Some,
        r matches Some(c) ==> c@ == corners_of(id),
{
    match find_marker(id) {
        Some(m) => Some(m.corners()),
        None => None,
    }
}

/// Every registered marker's corners form a square of the configured size,
/// in the plane `y == 0`, centred at the marker's configured offset.
pub proof fn lemma_registered_corners_form_marker_square(id: i32)
    requires
        is_registered(id),
    ensures
        is_marker_square(corners_of(id), marker_of(id).x_offset_um as int, MARKER_SIZE_UM as int),
{
}

} // verus!
