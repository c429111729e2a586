//! Integer vector types and the orientation test used by the mesh contracts.

use vstd::prelude::*;

verus! {

/// An integer 3-vector.
///
/// It is used both for voxel coordinates, in whole units, and for mesh
/// vertex positions and normals.  Vertex positions are stored in half units:
/// a stored component `v` denotes the coordinate `v / 2`, so a voxel face at
/// `x - 0.5` is stored as `2 * x - 1`.
#[derive(Clone, Copy, PartialEq, Eq, Structural, Debug)]
pub struct Vec3i {
    pub x: i64,
    pub y: i64,
    pub z: i64,
}

/// An integer 2-vector, used for texture coordinates (each component 0 or 1).
#[derive(Clone, Copy, PartialEq, Eq, Structural, Debug)]
pub struct Vec2i {
    pub x: i64,
    pub y: i64,
}

/// The difference `a - b`, widened to mathematical integers.
pub open spec fn sub3(a: Vec3i, b: Vec3i) -> (int, int, int) {
    (a.x - b.x, a.y - b.y, a.z - b.z)
}

/// Cross product of two integer 3-vectors.
pub open spec fn cross3(a: (int, int, int), b: (int, int, int)) -> (int, int, int) {
    (a.1 * b.2 - a.2 * b.1, a.2 * b.0 - a.0 * b.2, a.0 * b.1 - a.1 * b.0)
}

/// Dot product of an integer 3-vector with a stored vector.
pub open spec fn dot3(a: (int, int, int), b: Vec3i) -> int {
    a.0 * b.x + a.1 * b.y + a.2 * b.z
}

/// The triangle `p0, p1, p2` is wound counter-clockwise when viewed from the
/// side its normal `n` points to: its area vector points along `n`.
pub open spec fn triangle_ccw(p0: Vec3i, p1: Vec3i, p2: Vec3i, n: Vec3i) -> bool {
    dot3(cross3(sub3(p1, p0), sub3(p2, p0)), n) > 0
}

} // verus!
