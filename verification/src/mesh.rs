//! Mesh buffers, the per-direction face template, and surface extraction.

use vstd::prelude::*;
use vstd::arithmetic::div_mod::lemma_fundamental_div_mod;
use vstd::arithmetic::div_mod::lemma_fundamental_div_mod_converse;
use vstd::arithmetic::div_mod::lemma_mod_bound;
use crate::chunk::Chunk;
use crate::chunk::face_bit;
use crate::chunk::in_coord_limit;
use crate::chunk::lemma_cube_bound;
use crate::geom::Vec2i;
use crate::geom::Vec3i;
use crate::geom::triangle_ccw;
use crate::voxel::Voxel;
use crate::voxel::VoxelKind;

verus! {

/// Outward normal of face `f` of the canonical cube template, the faces
/// ordered `+Y, -Y, +X, -X, +Z, -Z` (top, bottom, right, left, back,
/// forward).
pub open spec fn face_normal(f: int) -> Vec3i {
    if f == 0 {
        Vec3i { x: 0, y: 1, z: 0 }
    } else if f == 1 {
        Vec3i { x: 0, y: -1i64, z: 0 }
    } else if f == 2 {
        Vec3i { x: 1, y: 0, z: 0 }
    } else if f == 3 {
        Vec3i { x: -1i64, y: 0, z: 0 }
    } else if f == 4 {
        Vec3i { x: 0, y: 0, z: 1 }
    } else {
        Vec3i { x: 0, y: 0, z: -1i64 }
    }
}

/// Offset, in half units from the voxel center, of corner `k` of face
/// `f`, in the canonical cube's own corner order for that face.  Each
/// face splits into two triangles along its corner 1-3 diagonal; positive
/// faces list their corners clockwise seen from outside, so their
/// triangles reverse the listing, while negative faces list them
/// counter-clockwise and keep it (see `quad_index_offset`).
pub open spec fn face_vertex_offset(f: int, k: int) -> Vec3i {
    if f == 0 {
        if k == 0 {
            Vec3i { x: -1i64, y: 1, z: -1i64 }
        } else if k == 1 {
            Vec3i { x: 1, y: 1, z: -1i64 }
        } else if k == 2 {
            Vec3i { x: 1, y: 1, z: 1 }
        } else {
            Vec3i { x: -1i64, y: 1, z: 1 }
        }
    } else if f == 1 {
        if k == 0 {
            Vec3i { x: -1i64, y: -1i64, z: -1i64 }
        } else if k == 1 {
            Vec3i { x: 1, y: -1i64, z: -1i64 }
        } else if k == 2 {
            Vec3i { x: 1, y: -1i64, z: 1 }
        } else {
            Vec3i { x: -1i64, y: -1i64, z: 1 }
        }
    } else if f == 2 {
        if k == 0 {
            Vec3i { x: 1, y: -1i64, z: -1i64 }
        } else if k == 1 {
            Vec3i { x: 1, y: -1i64, z: 1 }
        } else if k == 2 {
            Vec3i { x: 1, y: 1, z: 1 }
        } else {
            Vec3i { x: 1, y: 1, z: -1i64 }
        }
    } else if f == 3 {
        if k == 0 {
            Vec3i { x: -1i64, y: -1i64, z: -1i64 }
        } else if k == 1 {
            Vec3i { x: -1i64, y: -1i64, z: 1 }
        } else if k == 2 {
            Vec3i { x: -1i64, y: 1, z: 1 }
        } else {
            Vec3i { x: -1i64, y: 1, z: -1i64 }
        }
    } else if f == 4 {
        if k == 0 {
            Vec3i { x: -1i64, y: -1i64, z: 1 }
        } else if k == 1 {
            Vec3i { x: -1i64, y: 1, z: 1 }
        } else if k == 2 {
            Vec3i { x: 1, y: 1, z: 1 }
        } else {
            Vec3i { x: 1, y: -1i64, z: 1 }
        }
    } else {
        if k == 0 {
            Vec3i { x: -1i64, y: -1i64, z: -1i64 }
        } else if k == 1 {
            Vec3i { x: -1i64, y: 1, z: -1i64 }
        } else if k == 2 {
            Vec3i { x: 1, y: 1, z: -1i64 }
        } else {
            Vec3i { x: 1, y: -1i64, z: -1i64 }
        }
    }
}

/// Corner `k` of the face of the voxel centered at `p` (whole units)
/// facing direction `f`, in half units.
pub open spec fn face_vertex(p: Vec3i, f: int, k: int) -> Vec3i {
    let o = face_vertex_offset(f, k);
    Vec3i {
        x: (2 * p.x + o.x) as i64,
        y: (2 * p.y + o.y) as i64,
        z: (2 * p.z + o.z) as i64,
    }
}

/// Texture corner of vertex `k` of any quad: `(0,0), (1,0), (1,1), (0,1)`.
pub open spec fn uv_corner(k: int) -> Vec2i {
    if k == 0 {
        Vec2i { x: 0, y: 0 }
    } else if k == 1 {
        Vec2i { x: 1, y: 0 }
    } else if k == 2 {
        Vec2i { x: 1, y: 1 }
    } else {
        Vec2i { x: 0, y: 1 }
    }
}

/// Entry `j` of the six indices of one quad, relative to the quad's
/// first vertex.  A quad facing a positive axis uses `0,3,1, 1,3,2`; one
/// facing a negative axis uses `0,1,3, 1,2,3` — the canonical cube's two
/// per-face triangle listings, both counter-clockwise from outside.
pub open spec fn quad_index_offset(positive: bool, j: int) -> int {
    if positive {
        if j == 0 {
            0
        } else if j == 1 {
            3
        } else if j == 2 {
            1
        } else if j == 3 {
            1
        } else if j == 4 {
            3
        } else {
            2
        }
    } else {
        if j == 0 {
            0
        } else if j == 1 {
            1
        } else if j == 2 {
            3
        } else if j == 3 {
            1
        } else if j == 4 {
            2
        } else {
            3
        }
    }
}

/// The stored normal points along a positive axis (the face directions
/// are unit axis vectors, so their components sum to 1 or -1).
pub open spec fn positive_normal(n: Vec3i) -> bool {
    n.x + n.y + n.z == 1
}

/// The four vertex positions of one emitted face.
pub open spec fn face_positions(p: Vec3i, f: int) -> Seq<Vec3i> {
    Seq::new(4, |k: int| face_vertex(p, f, k))
}

/// The four (equal) normals of one emitted face.
pub open spec fn face_normals(f: int) -> Seq<Vec3i> {
    Seq::new(4, |k: int| face_normal(f))
}

/// The four vertices of quad `q` share one normal and its two template
/// triangles wind counter-clockwise around it.
pub open spec fn quad_ccw(ps: Seq<Vec3i>, ns: Seq<Vec3i>, q: int) -> bool {
    let n = ns[4 * q];
    let pos = positive_normal(n);
    &&& ns[4 * q + 1] == n
    &&& ns[4 * q + 2] == n
    &&& ns[4 * q + 3] == n
    &&& triangle_ccw(
        ps[4 * q + quad_index_offset(pos, 0)],
        ps[4 * q + quad_index_offset(pos, 1)],
        ps[4 * q + quad_index_offset(pos, 2)],
        n,
    )
    &&& triangle_ccw(
        ps[4 * q + quad_index_offset(pos, 3)],
        ps[4 * q + quad_index_offset(pos, 4)],
        ps[4 * q + quad_index_offset(pos, 5)],
        n,
    )
}

/// Renderable triangle-list geometry: parallel vertex buffers and the
/// index buffer, immutable once returned.
///
/// Positions are stored in half units (a component `v` stands for
/// `v / 2`); normals are unit axis vectors with components -1, 0 or 1;
/// texture coordinates are 0 or 1.
#[derive(Clone, Debug, PartialEq)]
pub struct MeshData {
    pub positions: Vec<Vec3i>,
    pub normals: Vec<Vec3i>,
    pub uvs: Vec<Vec2i>,
    pub indices: Vec<u32>,
}

impl MeshData {
    /// Number of quads held.
    pub open spec fn quad_count(self) -> int {
        self.positions@.len() as int / 4
    }

    /// The buffer invariants: parallel vertex buffers, whole quads, six
    /// indices per quad, every index in bounds.
    pub open spec fn is_well_formed(self) -> bool {
        &&& self.normals@.len() == self.positions@.len()
        &&& self.uvs@.len() == self.positions@.len()
        &&& self.positions@.len() % 4 == 0
        &&& self.indices@.len() == self.positions@.len() / 4 * 6
        &&& forall|j: int|
            0 <= j < self.indices@.len() ==> (#[trigger] self.indices@[j]) < self.positions@.len()
    }

    /// Every quad's six indices are the canonical cube's two-triangle
    /// listing over its own four vertices, chosen by which way the quad
    /// faces.
    pub open spec fn has_template_indices(self) -> bool {
        forall|j: int|
            0 <= j < self.indices@.len() ==> (#[trigger] self.indices@[j]) == 4 * (j / 6)
                + quad_index_offset(positive_normal(self.normals@[4 * (j / 6)]), j % 6)
    }

    /// Every vertex carries the texture corner for its place in its quad.
    pub open spec fn has_corner_uvs(self) -> bool {
        forall|k: int| 0 <= k < self.uvs@.len() ==> (#[trigger] self.uvs@[k]) == uv_corner(k % 4)
    }

    /// Every quad's triangles wind counter-clockwise around its normal.
    pub open spec fn quads_ccw(self) -> bool {
        forall|q: int|
            0 <= q < self.quad_count() ==> #[trigger] quad_ccw(self.positions@, self.normals@, q)
    }
}

/// Both template triangles of a face wind counter-clockwise around the
/// face's outward normal, wherever the voxel sits; a face's listing is
/// chosen by whether it points along a positive axis, which is exactly
/// the parity of its direction.
#[verifier::rlimit(100)]
pub proof fn lemma_face_quad_ccw(p: Vec3i, f: int)
    requires
        0 <= f < 6,
        in_coord_limit(p),
    ensures
        positive_normal(face_normal(f)) == (f % 2 == 0),
        triangle_ccw(
            face_vertex(p, f, quad_index_offset(f % 2 == 0, 0)),
            face_vertex(p, f, quad_index_offset(f % 2 == 0, 1)),
            face_vertex(p, f, quad_index_offset(f % 2 == 0, 2)),
            face_normal(f),
        ),
        triangle_ccw(
            face_vertex(p, f, quad_index_offset(f % 2 == 0, 3)),
            face_vertex(p, f, quad_index_offset(f % 2 == 0, 4)),
            face_vertex(p, f, quad_index_offset(f % 2 == 0, 5)),
            face_normal(f),
        ),
{
    let n = face_normal(f);
    let v0 = face_vertex(p, f, 0);
    let v1 = face_vertex(p, f, 1);
    let v2 = face_vertex(p, f, 2);
    let v3 = face_vertex(p, f, 3);
    if f == 0 {
        assert(crate::geom::cross3((0int, 0int, 2int), (2int, 0int, 0int)) == (0int, 4int, 0int)) by (nonlinear_arith);
        assert(crate::geom::dot3((0int, 4int, 0int), n) == 4) by (nonlinear_arith)
            requires
                n == face_normal(0),
        ;
        lemma_edges_ccw(v0, v3, v1, n, (0int, 0int, 2int), (2int, 0int, 0int), (0int, 4int, 0int));
        assert(crate::geom::cross3((-2int, 0int, 2int), (0int, 0int, 2int)) == (0int, 4int, 0int)) by (nonlinear_arith);
        assert(crate::geom::dot3((0int, 4int, 0int), n) == 4) by (nonlinear_arith)
            requires
                n == face_normal(0),
        ;
        lemma_edges_ccw(v1, v3, v2, n, (-2int, 0int, 2int), (0int, 0int, 2int), (0int, 4int, 0int));
    } else if f == 1 {
        assert(crate::geom::cross3((2int, 0int, 0int), (0int, 0int, 2int)) == (0int, -4int, 0int)) by (nonlinear_arith);
        assert(crate::geom::dot3((0int, -4int, 0int), n) == 4) by (nonlinear_arith)
            requires
                n == face_normal(1),
        ;
        lemma_edges_ccw(v0, v1, v3, n, (2int, 0int, 0int), (0int, 0int, 2int), (0int, -4int, 0int));
        assert(crate::geom::cross3((0int, 0int, 2int), (-2int, 0int, 2int)) == (0int, -4int, 0int)) by (nonlinear_arith);
        assert(crate::geom::dot3((0int, -4int, 0int), n) == 4) by (nonlinear_arith)
            requires
                n == face_normal(1),
        ;
        lemma_edges_ccw(v1, v2, v3, n, (0int, 0int, 2int), (-2int, 0int, 2int), (0int, -4int, 0int));
    } else if f == 2 {
        assert(crate::geom::cross3((0int, 2int, 0int), (0int, 0int, 2int)) == (4int, 0int, 0int)) by (nonlinear_arith);
        assert(crate::geom::dot3((4int, 0int, 0int), n) == 4) by (nonlinear_arith)
            requires
                n == face_normal(2),
        ;
        lemma_edges_ccw(v0, v3, v1, n, (0int, 2int, 0int), (0int, 0int, 2int), (4int, 0int, 0int));
        assert(crate::geom::cross3((0int, 2int, -2int), (0int, 2int, 0int)) == (4int, 0int, 0int)) by (nonlinear_arith);
        assert(crate::geom::dot3((4int, 0int, 0int), n) == 4) by (nonlinear_arith)
            requires
                n == face_normal(2),
        ;
        lemma_edges_ccw(v1, v3, v2, n, (0int, 2int, -2int), (0int, 2int, 0int), (4int, 0int, 0int));
    } else if f == 3 {
        assert(crate::geom::cross3((0int, 0int, 2int), (0int, 2int, 0int)) == (-4int, 0int, 0int)) by (nonlinear_arith);
        assert(crate::geom::dot3((-4int, 0int, 0int), n) == 4) by (nonlinear_arith)
            requires
                n == face_normal(3),
        ;
        lemma_edges_ccw(v0, v1, v3, n, (0int, 0int, 2int), (0int, 2int, 0int), (-4int, 0int, 0int));
        assert(crate::geom::cross3((0int, 2int, 0int), (0int, 2int, -2int)) == (-4int, 0int, 0int)) by (nonlinear_arith);
        assert(crate::geom::dot3((-4int, 0int, 0int), n) == 4) by (nonlinear_arith)
            requires
                n == face_normal(3),
        ;
        lemma_edges_ccw(v1, v2, v3, n, (0int, 2int, 0int), (0int, 2int, -2int), (-4int, 0int, 0int));
    } else if f == 4 {
        assert(crate::geom::cross3((2int, 0int, 0int), (0int, 2int, 0int)) == (0int, 0int, 4int)) by (nonlinear_arith);
        assert(crate::geom::dot3((0int, 0int, 4int), n) == 4) by (nonlinear_arith)
            requires
                n == face_normal(4),
        ;
        lemma_edges_ccw(v0, v3, v1, n, (2int, 0int, 0int), (0int, 2int, 0int), (0int, 0int, 4int));
        assert(crate::geom::cross3((2int, -2int, 0int), (2int, 0int, 0int)) == (0int, 0int, 4int)) by (nonlinear_arith);
        assert(crate::geom::dot3((0int, 0int, 4int), n) == 4) by (nonlinear_arith)
            requires
                n == face_normal(4),
        ;
        lemma_edges_ccw(v1, v3, v2, n, (2int, -2int, 0int), (2int, 0int, 0int), (0int, 0int, 4int));
    } else {
        assert(crate::geom::cross3((0int, 2int, 0int), (2int, 0int, 0int)) == (0int, 0int, -4int)) by (nonlinear_arith);
        assert(crate::geom::dot3((0int, 0int, -4int), n) == 4) by (nonlinear_arith)
            requires
                n == face_normal(5),
        ;
        lemma_edges_ccw(v0, v1, v3, n, (0int, 2int, 0int), (2int, 0int, 0int), (0int, 0int, -4int));
        assert(crate::geom::cross3((2int, 0int, 0int), (2int, -2int, 0int)) == (0int, 0int, -4int)) by (nonlinear_arith);
        assert(crate::geom::dot3((0int, 0int, -4int), n) == 4) by (nonlinear_arith)
            requires
                n == face_normal(5),
        ;
        lemma_edges_ccw(v1, v2, v3, n, (2int, 0int, 0int), (2int, -2int, 0int), (0int, 0int, -4int));
    }
}

/// A triangle whose two edge vectors and their cross product are the given
/// constants winds counter-clockwise whenever that cross product points
/// along the normal.
proof fn lemma_edges_ccw(
    p0: Vec3i,
    p1: Vec3i,
    p2: Vec3i,
    n: Vec3i,
    e1: (int, int, int),
    e2: (int, int, int),
    c: (int, int, int),
)
    requires
        crate::geom::sub3(p1, p0) == e1,
        crate::geom::sub3(p2, p0) == e2,
        crate::geom::cross3(e1, e2) == c,
        crate::geom::dot3(c, n) > 0,
    ensures
        triangle_ccw(p0, p1, p2, n),
{
}

/// Accumulates quads into the four mesh buffers, one exposed face at a
/// time, keeping every `MeshData` invariant at each step.
pub struct MeshBuilder {
    pub mesh: MeshData,
}

impl MeshBuilder {
    /// The buffers stay well formed with canonical indices, texture
    /// corners, and winding throughout accumulation.
    pub open spec fn wf(self) -> bool {
        &&& self.mesh.is_well_formed()
        &&& self.mesh.has_template_indices()
        &&& self.mesh.has_corner_uvs()
        &&& self.mesh.quads_ccw()
    }

    /// Empty buffers.
    pub fn new() -> (r: MeshBuilder)
        ensures
            r.wf(),
            r.mesh.positions@.len() == 0,
            r.mesh.normals@.len() == 0,
            r.mesh.uvs@.len() == 0,
            r.mesh.indices@.len() == 0,
    {
        MeshBuilder {
            mesh: MeshData {
                positions: Vec::new(),
                normals: Vec::new(),
                uvs: Vec::new(),
                indices: Vec::new(),
            },
        }
    }

    /// Append the quad for the face of the voxel at `p` (whole units)
    /// facing direction `f`: four positions in the canonical cube's
    /// corner order, four copies of the outward normal, the four texture
    /// corners, and the six indices of that face's triangle listing.
    pub fn emit_face(&mut self, p: Vec3i, f: usize)
        requires
            old(self).wf(),
            f < 6,
            in_coord_limit(p),
            old(self).mesh.positions@.len() + 4 <= u32::MAX,
        ensures
            final(self).wf(),
            final(self).mesh.positions@ == old(self).mesh.positions@ + face_positions(
                p,
                f as int,
            ),
            final(self).mesh.normals@ == old(self).mesh.normals@ + face_normals(f as int),
            final(self).mesh.uvs@.len() == old(self).mesh.uvs@.len() + 4,
            final(self).mesh.indices@.len() == old(self).mesh.indices@.len() + 6,
    {
        let base = self.mesh.positions.len() as u32;
        let ghost q0 = self.mesh.quad_count();
        proof {
            assert(4 * q0 == old(self).mesh.positions@.len());
        }
        let v0 = face_vertex_exec(p, f, 0);
        let v1 = face_vertex_exec(p, f, 1);
        let v2 = face_vertex_exec(p, f, 2);
        let v3 = face_vertex_exec(p, f, 3);
        self.mesh.positions.push(v0);
        self.mesh.positions.push(v1);
        self.mesh.positions.push(v2);
        self.mesh.positions.push(v3);
        let nrm = face_normal_exec(f);
        self.mesh.normals.push(nrm);
        self.mesh.normals.push(nrm);
        self.mesh.normals.push(nrm);
        self.mesh.normals.push(nrm);
        self.mesh.uvs.push(Vec2i { x: 0, y: 0 });
        self.mesh.uvs.push(Vec2i { x: 1, y: 0 });
        self.mesh.uvs.push(Vec2i { x: 1, y: 1 });
        self.mesh.uvs.push(Vec2i { x: 0, y: 1 });
        if f % 2 == 0 {
            self.mesh.indices.push(base);
            self.mesh.indices.push(base + 3);
            self.mesh.indices.push(base + 1);
            self.mesh.indices.push(base + 1);
            self.mesh.indices.push(base + 3);
            self.mesh.indices.push(base + 2);
        } else {
            self.mesh.indices.push(base);
            self.mesh.indices.push(base + 1);
            self.mesh.indices.push(base + 3);
            self.mesh.indices.push(base + 1);
            self.mesh.indices.push(base + 2);
            self.mesh.indices.push(base + 3);
        }
        proof {
            let m0 = old(self).mesh;
            let m1 = self.mesh;
            lemma_face_quad_ccw(p, f as int);
            assert(m1.positions@ =~= m0.positions@ + face_positions(p, f as int));
            assert(m1.normals@ =~= m0.normals@ + face_normals(f as int));
            assert forall|j: int| 0 <= j < m1.indices@.len() implies (#[trigger] m1.indices@[j])
                == 4 * (j / 6) + quad_index_offset(positive_normal(m1.normals@[4 * (j / 6)]), j % 6)
                && m1.indices@[j] < m1.positions@.len() by {
                if j < m0.indices@.len() {
                    lemma_fundamental_div_mod(j, 6);
                    lemma_mod_bound(j, 6);
                    assert(j / 6 < q0);
                    assert(m1.indices@[j] == m0.indices@[j]);
                    assert(m1.normals@[4 * (j / 6)] == m0.normals@[4 * (j / 6)]);
                } else {
                    lemma_fundamental_div_mod_converse(j, 6, q0, j - 6 * q0);
                    assert(m1.normals@[4 * q0] == face_normal(f as int));
                }
            }
            assert forall|k: int| 0 <= k < m1.uvs@.len() implies (#[trigger] m1.uvs@[k])
                == uv_corner(k % 4) by {
                if k < m0.uvs@.len() {
                    assert(m1.uvs@[k] == m0.uvs@[k]);
                } else {
                    lemma_fundamental_div_mod_converse(k, 4, q0, k - 4 * q0);
                }
            }
            assert forall|q: int| 0 <= q < m1.quad_count() implies #[trigger] quad_ccw(
                m1.positions@,
                m1.normals@,
                q,
            ) by {
                if q < q0 {
                    assert(quad_ccw(m0.positions@, m0.normals@, q));
                } else {
                    lemma_face_quad_ccw(p, f as int);
                }
            }
        }
    }

    /// Hand the finished, immutable mesh to the caller.
    pub fn finish(self) -> (m: MeshData)
        ensures
            m == self.mesh,
    {
        self.mesh
    }
}

/// Exec mirror of `face_vertex_offset`.
fn face_vertex_offset_exec(f: usize, k: usize) -> (r: Vec3i)
    requires
        f < 6,
        k < 4,
    ensures
        r == face_vertex_offset(f as int, k as int),
{
    if f == 0 {
        if k == 0 {
            Vec3i { x: -1i64, y: 1, z: -1i64 }
        } else if k == 1 {
            Vec3i { x: 1, y: 1, z: -1i64 }
        } else if k == 2 {
            Vec3i { x: 1, y: 1, z: 1 }
        } else {
            Vec3i { x: -1i64, y: 1, z: 1 }
        }
    } else if f == 1 {
        if k == 0 {
            Vec3i { x: -1i64, y: -1i64, z: -1i64 }
        } else if k == 1 {
            Vec3i { x: 1, y: -1i64, z: -1i64 }
        } else if k == 2 {
            Vec3i { x: 1, y: -1i64, z: 1 }
        } else {
            Vec3i { x: -1i64, y: -1i64, z: 1 }
        }
    } else if f == 2 {
        if k == 0 {
            Vec3i { x: 1, y: -1i64, z: -1i64 }
        } else if k == 1 {
            Vec3i { x: 1, y: -1i64, z: 1 }
        } else if k == 2 {
            Vec3i { x: 1, y: 1, z: 1 }
        } else {
            Vec3i { x: 1, y: 1, z: -1i64 }
        }
    } else if f == 3 {
        if k == 0 {
            Vec3i { x: -1i64, y: -1i64, z: -1i64 }
        } else if k == 1 {
            Vec3i { x: -1i64, y: -1i64, z: 1 }
        } else if k == 2 {
            Vec3i { x: -1i64, y: 1, z: 1 }
        } else {
            Vec3i { x: -1i64, y: 1, z: -1i64 }
        }
    } else if f == 4 {
        if k == 0 {
            Vec3i { x: -1i64, y: -1i64, z: 1 }
        } else if k == 1 {
            Vec3i { x: -1i64, y: 1, z: 1 }
        } else if k == 2 {
            Vec3i { x: 1, y: 1, z: 1 }
        } else {
            Vec3i { x: 1, y: -1i64, z: 1 }
        }
    } else {
        if k == 0 {
            Vec3i { x: -1i64, y: -1i64, z: -1i64 }
        } else if k == 1 {
            Vec3i { x: -1i64, y: 1, z: -1i64 }
        } else if k == 2 {
            Vec3i { x: 1, y: 1, z: -1i64 }
        } else {
            Vec3i { x: 1, y: -1i64, z: -1i64 }
        }
    }
}

/// Exec mirror of `face_normal`.
fn face_normal_exec(f: usize) -> (r: Vec3i)
    requires
        f < 6,
    ensures
        r == face_normal(f as int),
{
    if f == 0 {
        Vec3i { x: 0, y: 1, z: 0 }
    } else if f == 1 {
        Vec3i { x: 0, y: -1i64, z: 0 }
    } else if f == 2 {
        Vec3i { x: 1, y: 0, z: 0 }
    } else if f == 3 {
        Vec3i { x: -1i64, y: 0, z: 0 }
    } else if f == 4 {
        Vec3i { x: 0, y: 0, z: 1 }
    } else {
        Vec3i { x: 0, y: 0, z: -1i64 }
    }
}

/// Exec mirror of `face_vertex`.
fn face_vertex_exec(p: Vec3i, f: usize, k: usize) -> (r: Vec3i)
    requires
        f < 6,
        k < 4,
        in_coord_limit(p),
    ensures
        r == face_vertex(p, f as int, k as int),
{
    let o = face_vertex_offset_exec(f, k);
    proof {
        assert(-1 <= o.x <= 1 && -1 <= o.y <= 1 && -1 <= o.z <= 1);
    }
    Vec3i { x: 2 * p.x + o.x, y: 2 * p.y + o.y, z: 2 * p.z + o.z }
}

/// The neighbor-mask direction that face `f` tests: the mask orders
/// directions `+X, -X, +Y, -Y, +Z, -Z` while the cube template orders its
/// faces `+Y, -Y, +X, -X, +Z, -Z`.
pub open spec fn mask_dir_of_face(f: int) -> int {
    if f == 0 {
        2
    } else if f == 1 {
        3
    } else if f == 2 {
        0
    } else if f == 3 {
        1
    } else if f == 4 {
        4
    } else {
        5
    }
}

/// The neighbor-mask bit that face `f` tests.
pub open spec fn face_mask_bit(f: int) -> u8 {
    face_bit(mask_dir_of_face(f))
}

/// Surface extraction emits the face of voxel `v` in direction `f`: the
/// voxel is solid and its neighbor in that direction is not recorded as
/// occupied, so the face is exposed.
pub open spec fn emits_face(v: Voxel, f: int) -> bool {
    v.kind == VoxelKind::Solid && v.occupied_neighbor_mask & face_mask_bit(f) == 0
}

/// The vertex positions voxel `v` contributes among its first `n` face
/// directions, in direction order.
pub open spec fn voxel_face_positions(v: Voxel, n: int) -> Seq<Vec3i>
    decreases n,
{
    if n <= 0 {
        Seq::empty()
    } else {
        voxel_face_positions(v, n - 1) + (if emits_face(v, n - 1) {
            face_positions(v.world_position, n - 1)
        } else {
            Seq::empty()
        })
    }
}

/// The normals voxel `v` contributes among its first `n` face directions.
pub open spec fn voxel_face_normals(v: Voxel, n: int) -> Seq<Vec3i>
    decreases n,
{
    if n <= 0 {
        Seq::empty()
    } else {
        voxel_face_normals(v, n - 1) + (if emits_face(v, n - 1) {
            face_normals(n - 1)
        } else {
            Seq::empty()
        })
    }
}

/// The vertex positions of the whole grid's exposed faces, voxels in
/// linear-address order.
pub open spec fn grid_face_positions(vs: Seq<Voxel>) -> Seq<Vec3i>
    decreases vs.len(),
{
    if vs.len() == 0 {
        Seq::empty()
    } else {
        grid_face_positions(vs.drop_last()) + voxel_face_positions(vs.last(), 6)
    }
}

/// The normals of the whole grid's exposed faces.
pub open spec fn grid_face_normals(vs: Seq<Voxel>) -> Seq<Vec3i>
    decreases vs.len(),
{
    if vs.len() == 0 {
        Seq::empty()
    } else {
        grid_face_normals(vs.drop_last()) + voxel_face_normals(vs.last(), 6)
    }
}

/// One voxel contributes the same number of positions and normals: four
/// per emitted face, at most four per direction.
pub proof fn lemma_voxel_face_lens(v: Voxel, n: int)
    requires
        0 <= n,
    ensures
        voxel_face_positions(v, n).len() == voxel_face_normals(v, n).len(),
        voxel_face_positions(v, n).len() <= 4 * n,
    decreases n,
{
    if n > 0 {
        lemma_voxel_face_lens(v, n - 1);
    }
}

/// Exec mirror of `face_mask_bit`.
fn face_mask_bit_exec(f: usize) -> (r: u8)
    requires
        f < 6,
    ensures
        r == face_mask_bit(f as int),
{
    if f == 0 {
        4
    } else if f == 1 {
        8
    } else if f == 2 {
        1
    } else if f == 3 {
        2
    } else if f == 4 {
        16
    } else {
        32
    }
}

/// Surface extraction: walk the classified grid in linear-address order
/// and emit one quad per exposed face of each solid voxel, oriented and
/// wound after the canonical cube's per-direction template.  The buffers
/// are fully determined by the grid, so extraction is deterministic.
pub fn build_chunk_mesh(chunk: &Chunk) -> (m: MeshData)
    requires
        chunk.wf(),
    ensures
        m.is_well_formed(),
        m.has_template_indices(),
        m.has_corner_uvs(),
        m.quads_ccw(),
        m.positions@ == grid_face_positions(chunk.voxels@),
        m.normals@ == grid_face_normals(chunk.voxels@),
{
    let mut b = MeshBuilder::new();
    let n = chunk.voxels.len();
    proof {
        lemma_cube_bound(chunk.size as int);
        assert(chunk.voxels@.take(0) =~= Seq::<Voxel>::empty());
    }
    let mut i: usize = 0;
    while i < n
        invariant
            b.wf(),
            chunk.wf(),
            n == chunk.voxels@.len(),
            n <= 262144,
            i <= n,
            b.mesh.positions@ == grid_face_positions(chunk.voxels@.take(i as int)),
            b.mesh.normals@ == grid_face_normals(chunk.voxels@.take(i as int)),
            b.mesh.positions@.len() <= 24 * i,
        decreases n - i,
    {
        let v = chunk.voxels[i];
        let ghost prefix = grid_face_positions(chunk.voxels@.take(i as int));
        let ghost prefix_n = grid_face_normals(chunk.voxels@.take(i as int));
        let mut f: usize = 0;
        while f < 6
            invariant
                b.wf(),
                chunk.wf(),
                n == chunk.voxels@.len(),
                n <= 262144,
                i < n,
                v == chunk.voxels@[i as int],
                in_coord_limit(v.world_position),
                f <= 6,
                prefix == grid_face_positions(chunk.voxels@.take(i as int)),
                prefix_n == grid_face_normals(chunk.voxels@.take(i as int)),
                prefix.len() <= 24 * i,
                b.mesh.positions@ == prefix + voxel_face_positions(v, f as int),
                b.mesh.normals@ == prefix_n + voxel_face_normals(v, f as int),
            decreases 6 - f,
        {
            proof {
                lemma_voxel_face_lens(v, f as int);
            }
            if v.kind == VoxelKind::Solid && v.occupied_neighbor_mask & face_mask_bit_exec(f) == 0 {
                b.emit_face(v.world_position, f);
                proof {
                    assert(b.mesh.positions@ =~= prefix + voxel_face_positions(v, f + 1));
                    assert(b.mesh.normals@ =~= prefix_n + voxel_face_normals(v, f + 1));
                }
            } else {
                proof {
                    assert(voxel_face_positions(v, f + 1) =~= voxel_face_positions(v, f as int));
                    assert(voxel_face_normals(v, f + 1) =~= voxel_face_normals(v, f as int));
                }
            }
            f = f + 1;
        }
        proof {
            assert(chunk.voxels@.take(i + 1).drop_last() =~= chunk.voxels@.take(i as int));
            assert(chunk.voxels@.take(i + 1).last() == chunk.voxels@[i as int]);
            lemma_voxel_face_lens(v, 6);
        }
        i = i + 1;
    }
    proof {
        assert(chunk.voxels@.take(n as int) =~= chunk.voxels@);
    }
    b.finish()
}

} // verus!
