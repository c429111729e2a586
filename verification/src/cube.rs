//! The canonical unit cube: a fixed reference mesh, independent of voxel
//! data, whose per-face template surface extraction reuses.

use vstd::prelude::*;
use crate::geom::Vec3i;
use crate::mesh::MeshBuilder;
use crate::mesh::MeshData;
use crate::mesh::face_normal;
use crate::mesh::face_normals;
use crate::mesh::face_positions;
use crate::mesh::face_vertex;

verus! {

/// The cube's center: the origin, so that the mesh rotates around its own
/// center of mass.
pub open spec fn cube_center() -> Vec3i {
    Vec3i { x: 0, y: 0, z: 0 }
}

/// The 24 vertex positions of the canonical cube, four per face, faces in
/// the fixture's order `+Y, -Y, +X, -X, +Z, -Z` (top, bottom, right,
/// left, back, forward).  Vertices are duplicated across faces so each
/// face carries its own normal and texture corners.
pub open spec fn cube_positions() -> Seq<Vec3i> {
    face_positions(cube_center(), 0) + face_positions(cube_center(), 1) + face_positions(
        cube_center(),
        2,
    ) + face_positions(cube_center(), 3) + face_positions(cube_center(), 4) + face_positions(
        cube_center(),
        5,
    )
}

/// The 24 normals of the canonical cube: each face's four vertices carry
/// that face's outward axis normal.
pub open spec fn cube_normals() -> Seq<Vec3i> {
    face_normals(0) + face_normals(1) + face_normals(2) + face_normals(3) + face_normals(4)
        + face_normals(5)
}

/// The canonical unit cube: 24 vertices and 12 counter-clockwise
/// triangles, a half unit out from the origin on every side, each face
/// axis-normal-correct with texture corners `(0,0), (1,0), (1,1), (0,1)`
/// and its own two-triangle index listing (`0,3,1, 1,3,2` relative to a
/// positive face's corners, `0,1,3, 1,2,3` to a negative one's).
pub fn create_unit_cube() -> (m: MeshData)
    ensures
        m.is_well_formed(),
        m.has_template_indices(),
        m.has_corner_uvs(),
        m.quads_ccw(),
        m.positions@ == cube_positions(),
        m.normals@ == cube_normals(),
        m.positions@.len() == 24,
        m.normals@.len() == 24,
        m.uvs@.len() == 24,
        m.indices@.len() == 36,
        forall|f: int| 0 <= f < 6 ==> #[trigger] m.normals@[4 * f] == face_normal(f),
        forall|f: int, k: int|
            0 <= f < 6 && 0 <= k < 4 ==> #[trigger] m.positions@[4 * f + k] == face_vertex(
                cube_center(),
                f,
                k,
            ),
{
    let mut b = MeshBuilder::new();
    let center = Vec3i { x: 0, y: 0, z: 0 };
    b.emit_face(center, 0);
    b.emit_face(center, 1);
    b.emit_face(center, 2);
    b.emit_face(center, 3);
    b.emit_face(center, 4);
    b.emit_face(center, 5);
    proof {
        assert(b.mesh.positions@ =~= cube_positions());
        assert(b.mesh.normals@ =~= cube_normals());
        assert forall|f: int, k: int| 0 <= f < 6 && 0 <= k < 4 implies #[trigger] b.mesh.positions@[
            4 * f + k
        ] == face_vertex(cube_center(), f, k) by {
            assert(b.mesh.positions@[4 * f + k] == face_positions(cube_center(), f)[k]);
        }
        assert forall|f: int| 0 <= f < 6 implies #[trigger] b.mesh.normals@[4 * f] == face_normal(
            f,
        ) by {
            assert(b.mesh.normals@[4 * f] == face_normals(f)[0]);
        }
    }
    b.finish()
}

} // verus!
