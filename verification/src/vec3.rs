use vstd::prelude::*;

verus! {

/// Largest magnitude a bounding-volume bound may have.
///
/// Keeping every bound within this limit (2^61) keeps all of the library's
/// arithmetic on bounds (sums of two bounds, extents, midpoints) inside
/// `i64`.
pub const COORD_LIMIT: i64 = 0x2000_0000_0000_0000;

/// Largest magnitude a mesh vertex coordinate may have.
///
/// This is half of [`COORD_LIMIT`], so that a volume built from vertices can
/// always be shifted by its own centering translation and stay within
/// [`COORD_LIMIT`].
pub const VERTEX_LIMIT: i64 = 0x1000_0000_0000_0000;

/// A 3-component point or translation vector.
///
/// Components are dimensionless fixed-point units: callers choose the scale
/// when they convert their coordinates into `Vec3` values.
#[derive(Clone, Copy, PartialEq, Eq, Structural, Debug)]
pub struct Vec3 {
    pub x: i64,
    pub y: i64,
    pub z: i64,
}

/// Every component is small enough to be a mesh vertex coordinate.
pub open spec fn in_vertex_range(v: Vec3) -> bool {
    &&& -VERTEX_LIMIT <= v.x <= VERTEX_LIMIT
    &&& -VERTEX_LIMIT <= v.y <= VERTEX_LIMIT
    &&& -VERTEX_LIMIT <= v.z <= VERTEX_LIMIT
}

impl Vec3 {
    /// The world origin, `(0, 0, 0)`.
    pub fn origin() -> (r: Vec3)
        ensures
            r == (Vec3 { x: 0, y: 0, z: 0 }),
    {
        Vec3 { x: 0, y: 0, z: 0 }
    }
}

} // verus!
