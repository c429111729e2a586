//! One chunk end to end — grid, adjacency, surface — and the laws the
//! pipeline obeys.

use vstd::prelude::*;
use crate::chunk::cell_in_range;
use crate::chunk::chunk_in_range;
use crate::chunk::classify_adjacency;
use crate::chunk::generate_grid;
use crate::chunk::in_grid;
use crate::chunk::lemma_lin_index_decompose;
use crate::chunk::lemma_mask_bit;
use crate::chunk::lin_index;
use crate::chunk::neighbor_solid;
use crate::chunk::spec_classified;
use crate::chunk::spec_grid;
use crate::chunk::world_coord;
use crate::config::GenError;
use crate::config::GenerationConfig;
use crate::geom::Vec3i;
use crate::mesh::MeshData;
use crate::mesh::build_chunk_mesh;
use crate::mesh::emits_face;
use crate::mesh::mask_dir_of_face;
use crate::mesh::positive_normal;
use crate::mesh::quad_index_offset;
use crate::mesh::grid_face_normals;
use crate::mesh::grid_face_positions;
use crate::mesh::uv_corner;
use crate::voxel::Voxel;
use crate::voxel::VoxelKind;
use crate::voxel::kind_of_sample;

verus! {

/// The classified grid of one generation run: generation, then adjacency,
/// both functions of the chunk coordinate, the configuration, and the
/// field samples alone.
pub open spec fn spec_generated_grid(
    cc: Vec3i,
    cfg: GenerationConfig,
    samples: Seq<i64>,
) -> Seq<Voxel> {
    spec_classified(spec_grid(cc, cfg, samples), cfg.chunk_size as int)
}

/// The mesh of one generation run: every buffer a function of the chunk
/// coordinate, the configuration, and the field samples alone.
pub open spec fn is_generated_mesh(
    m: MeshData,
    cc: Vec3i,
    cfg: GenerationConfig,
    samples: Seq<i64>,
) -> bool {
    &&& m.is_well_formed()
    &&& m.has_template_indices()
    &&& m.has_corner_uvs()
    &&& m.quads_ccw()
    &&& m.positions@ == grid_face_positions(spec_generated_grid(cc, cfg, samples))
    &&& m.normals@ == grid_face_normals(spec_generated_grid(cc, cfg, samples))
}

/// Generate one chunk's renderable mesh from the noise samples read at
/// this chunk's sample points (see `sample_points_milli`), `samples[i]`
/// belonging to the cell at linear address `i`.
///
/// The grid is generated and fully populated, every solid voxel is
/// classified against its six neighbors, and one quad is emitted per
/// exposed face.  A zero side length yields an empty, well-formed mesh;
/// an unrepresentable cell coordinate is refused with
/// `CoordinateOverflow` rather than allowed to wrap.
pub fn generate(chunk_coord: Vec3i, config: &GenerationConfig, samples: &Vec<i64>) -> (r: Result<
    MeshData,
    GenError,
>)
    requires
        config.wf(),
        samples@.len() == config.chunk_size * config.chunk_size * config.chunk_size,
    ensures
        r is Ok <==> chunk_in_range(chunk_coord, *config),
        r is Err ==> r->Err_0 == GenError::CoordinateOverflow,
        r is Ok ==> is_generated_mesh(r->Ok_0, chunk_coord, *config, samples@),
{
    match generate_grid(chunk_coord, config, samples) {
        Ok(mut chunk) => {
            classify_adjacency(&mut chunk);
            Ok(build_chunk_mesh(&chunk))
        },
        Err(e) => Err(e),
    }
}

/// Determinism law: two meshes generated from the same chunk coordinate,
/// configuration, and samples have bit-identical buffers — generation
/// never draws on hidden state.
pub proof fn lemma_generation_deterministic(
    m1: MeshData,
    m2: MeshData,
    cc: Vec3i,
    cfg: GenerationConfig,
    samples: Seq<i64>,
)
    requires
        is_generated_mesh(m1, cc, cfg, samples),
        is_generated_mesh(m2, cc, cfg, samples),
    ensures
        m1.positions@ == m2.positions@,
        m1.normals@ == m2.normals@,
        m1.uvs@ == m2.uvs@,
        m1.indices@ == m2.indices@,
{
    assert(m1.uvs@ =~= m2.uvs@) by {
        assert forall|k: int| 0 <= k < m1.uvs@.len() implies m1.uvs@[k] == m2.uvs@[k] by {
            assert(m1.uvs@[k] == uv_corner(k % 4));
            assert(m2.uvs@[k] == uv_corner(k % 4));
        }
    }
    assert(m1.normals@ == m2.normals@);
    assert(m1.indices@ =~= m2.indices@) by {
        assert forall|j: int| 0 <= j < m1.indices@.len() implies m1.indices@[j]
            == m2.indices@[j] by {
            assert(m1.indices@[j] == 4 * (j / 6) + quad_index_offset(
                positive_normal(m1.normals@[4 * (j / 6)]),
                j % 6,
            ));
            assert(m2.indices@[j] == 4 * (j / 6) + quad_index_offset(
                positive_normal(m2.normals@[4 * (j / 6)]),
                j % 6,
            ));
        }
    }
}

/// Grid completeness law: a generated grid holds exactly `size³` voxels;
/// the voxel at local `(x, y, z)` sits at linear address
/// `x + y·size + z·size²`, its world position is
/// `chunk_coord · size + local` on every axis, its kind follows its own
/// sample, and its neighbor mask starts at zero.
pub proof fn lemma_grid_completeness(
    cc: Vec3i,
    cfg: GenerationConfig,
    samples: Seq<i64>,
    x: int,
    y: int,
    z: int,
)
    requires
        in_grid(cfg.chunk_size as int, x, y, z),
    ensures
        spec_grid(cc, cfg, samples).len() == cfg.chunk_size * cfg.chunk_size * cfg.chunk_size,
        ({
            let s = cfg.chunk_size as int;
            let i = lin_index(s, x, y, z);
            let v = spec_grid(cc, cfg, samples)[i];
            &&& v.kind == kind_of_sample(samples[i] as int, cfg.occupancy_threshold_nano as int)
            &&& v.occupied_neighbor_mask == 0
            &&& cell_in_range(cc, cfg, i) ==> v.world_position == (Vec3i {
                x: world_coord(cc.x as int, s, x) as i64,
                y: world_coord(cc.y as int, s, y) as i64,
                z: world_coord(cc.z as int, s, z) as i64,
            })
        }),
{
    let s = cfg.chunk_size as int;
    lemma_lin_index_decompose(s, x, y, z);
}

/// Boundary continuity law: along any axis, the first cell of the next
/// chunk has the same world coordinate — and therefore the same sample
/// point — as the cell one past the edge of this chunk.  Chunks read one
/// continuous field; nothing is reseeded per chunk.
pub proof fn lemma_boundary_continuity(c: int, s: int, scale: int)
    ensures
        world_coord(c + 1, s, 0) == world_coord(c, s, s),
        world_coord(c + 1, s, 0) * scale == world_coord(c, s, s) * scale,
{
    assert((c + 1) * s + 0 == c * s + s) by (nonlinear_arith);
}

/// Exposure law: after adjacency classification, the voxel at `(x, y, z)`
/// emits its face `f` (in the cube template's face order) exactly when it
/// is solid and its neighbor in that face's direction is absent or air.
pub proof fn lemma_face_emitted_iff_exposed(
    vs: Seq<Voxel>,
    s: int,
    x: int,
    y: int,
    z: int,
    f: int,
)
    requires
        0 < s,
        in_grid(s, x, y, z),
        vs.len() == s * s * s,
        0 <= f < 6,
    ensures
        emits_face(spec_classified(vs, s)[lin_index(s, x, y, z)], f) <==> (vs[lin_index(
            s,
            x,
            y,
            z,
        )].kind == VoxelKind::Solid && !neighbor_solid(vs, s, x, y, z, mask_dir_of_face(f))),
{
    lemma_lin_index_decompose(s, x, y, z);
    lemma_mask_bit(vs, s, x, y, z, mask_dir_of_face(f));
}

} // verus!

