//! The dense voxel grid of one chunk: linear addressing, generation from
//! noise samples, adjacency classification, and occupancy statistics.

use vstd::prelude::*;
use vstd::arithmetic::div_mod::lemma_div_denominator;
use vstd::arithmetic::div_mod::lemma_fundamental_div_mod;
use vstd::arithmetic::div_mod::lemma_fundamental_div_mod_converse;
use vstd::arithmetic::div_mod::lemma_mod_bound;
use crate::config::COORD_LIMIT;
use crate::config::GenError;
use crate::config::GenerationConfig;
use crate::config::MAX_CHUNK_SIZE;
use crate::geom::Vec3i;
use crate::voxel::Voxel;
use crate::voxel::VoxelKind;
use crate::voxel::classify_sample;
use crate::voxel::kind_of_sample;

verus! {

/// Linear address of the local cell `(x, y, z)` in a grid of side `s`.
pub open spec fn lin_index(s: int, x: int, y: int, z: int) -> int {
    x + y * s + z * s * s
}

/// The local coordinate lies inside the grid.
pub open spec fn in_grid(s: int, x: int, y: int, z: int) -> bool {
    0 <= x < s && 0 <= y < s && 0 <= z < s
}

/// Local x-coordinate of the cell at linear address `i`.
pub open spec fn local_x(s: int, i: int) -> int {
    i % s
}

/// Local y-coordinate of the cell at linear address `i`.
pub open spec fn local_y(s: int, i: int) -> int {
    (i / s) % s
}

/// Local z-coordinate of the cell at linear address `i`.
pub open spec fn local_z(s: int, i: int) -> int {
    i / (s * s)
}

/// A side length of at most `MAX_CHUNK_SIZE` keeps the cell count small.
pub proof fn lemma_cube_bound(s: int)
    requires
        0 <= s <= MAX_CHUNK_SIZE,
    ensures
        s * s <= 4096,
        s * s * s <= 262144,
{
    assert(s * s <= 4096 && s * s * s <= 262144) by (nonlinear_arith)
        requires
            0 <= s <= 64,
    ;
}

/// `lin_index` is inverted by the three local coordinate projections.
pub proof fn lemma_lin_index_decompose(s: int, x: int, y: int, z: int)
    requires
        0 < s,
        in_grid(s, x, y, z),
    ensures
        0 <= lin_index(s, x, y, z) < s * s * s,
        local_x(s, lin_index(s, x, y, z)) == x,
        local_y(s, lin_index(s, x, y, z)) == y,
        local_z(s, lin_index(s, x, y, z)) == z,
{
    let i = lin_index(s, x, y, z);
    assert(i == (y + z * s) * s + x && 0 <= i < s * s * s && 0 <= y + z * s < s * s)
        by (nonlinear_arith)
        requires
            0 < s,
            in_grid(s, x, y, z),
            i == x + y * s + z * s * s,
    ;
    lemma_fundamental_div_mod_converse(i, s, y + z * s, x);
    lemma_fundamental_div_mod_converse(y + z * s, s, z, y);
    lemma_div_denominator(i, s, s);
}

/// Every linear address inside the grid decomposes into local coordinates
/// that address it back.
pub proof fn lemma_lin_index_compose(s: int, i: int)
    requires
        0 < s,
        0 <= i < s * s * s,
    ensures
        in_grid(s, local_x(s, i), local_y(s, i), local_z(s, i)),
        lin_index(s, local_x(s, i), local_y(s, i), local_z(s, i)) == i,
{
    let x = local_x(s, i);
    let y = local_y(s, i);
    let z = local_z(s, i);
    lemma_mod_bound(i, s);
    lemma_mod_bound(i / s, s);
    lemma_fundamental_div_mod(i, s);
    lemma_fundamental_div_mod(i / s, s);
    lemma_div_denominator(i, s, s);
    assert(i == x + y * s + z * s * s && 0 <= z < s) by (nonlinear_arith)
        requires
            0 < s,
            0 <= i < s * s * s,
            0 <= x < s,
            0 <= y < s,
            x == i % s,
            i == s * (i / s) + x,
            i / s == s * z + y,
    ;
}

/// World coordinate of local cell `l` along an axis whose chunk coordinate
/// is `c`: chunks tile space without gaps or overlaps.
pub open spec fn world_coord(c: int, size: int, l: int) -> int {
    c * size + l
}

/// Along one axis, the world coordinate of cell `l` lies within
/// `COORD_LIMIT` and its sample point, in thousandths of a unit, fits the
/// machine integers.
pub open spec fn axis_in_range(c: int, size: int, l: int, scale: int) -> bool {
    let w = world_coord(c, size, l);
    &&& -COORD_LIMIT <= w <= COORD_LIMIT
    &&& i64::MIN <= w * scale <= i64::MAX
}

/// The cell at linear address `i` is representable on all three axes.
pub open spec fn cell_in_range(cc: Vec3i, cfg: GenerationConfig, i: int) -> bool {
    let s = cfg.chunk_size as int;
    let scale = cfg.world_scale_milli as int;
    &&& axis_in_range(cc.x as int, s, local_x(s, i), scale)
    &&& axis_in_range(cc.y as int, s, local_y(s, i), scale)
    &&& axis_in_range(cc.z as int, s, local_z(s, i), scale)
}

/// Every cell of the chunk is representable; generation succeeds exactly
/// when this holds.
pub open spec fn chunk_in_range(cc: Vec3i, cfg: GenerationConfig) -> bool {
    let s = cfg.chunk_size as int;
    forall|i: int| 0 <= i < s * s * s ==> #[trigger] cell_in_range(cc, cfg, i)
}

/// World position of the cell at linear address `i`.
pub open spec fn spec_world_position(cc: Vec3i, cfg: GenerationConfig, i: int) -> Vec3i {
    let s = cfg.chunk_size as int;
    Vec3i {
        x: world_coord(cc.x as int, s, local_x(s, i)) as i64,
        y: world_coord(cc.y as int, s, local_y(s, i)) as i64,
        z: world_coord(cc.z as int, s, local_z(s, i)) as i64,
    }
}

/// Sample point of the cell at linear address `i`, in thousandths of a
/// unit: the world position scaled by the sampling frequency.
pub open spec fn spec_sample_point(cc: Vec3i, cfg: GenerationConfig, i: int) -> Vec3i {
    let s = cfg.chunk_size as int;
    let scale = cfg.world_scale_milli as int;
    Vec3i {
        x: (world_coord(cc.x as int, s, local_x(s, i)) * scale) as i64,
        y: (world_coord(cc.y as int, s, local_y(s, i)) * scale) as i64,
        z: (world_coord(cc.z as int, s, local_z(s, i)) * scale) as i64,
    }
}

/// The grid a generation run produces from the given samples: cell `i`
/// solid exactly when `samples[i]` lies strictly above the threshold, its
/// world position determined by the chunk coordinate, its neighbor mask
/// still zero.
pub open spec fn spec_grid(cc: Vec3i, cfg: GenerationConfig, samples: Seq<i64>) -> Seq<Voxel> {
    let s = cfg.chunk_size as int;
    Seq::new(
        (s * s * s) as nat,
        |i: int| Voxel {
            kind: kind_of_sample(samples[i] as int, cfg.occupancy_threshold_nano as int),
            world_position: spec_world_position(cc, cfg, i),
            occupied_neighbor_mask: 0u8,
        },
    )
}

/// The stored position lies within `COORD_LIMIT` on every axis.
pub open spec fn in_coord_limit(p: Vec3i) -> bool {
    &&& -COORD_LIMIT <= p.x <= COORD_LIMIT
    &&& -COORD_LIMIT <= p.y <= COORD_LIMIT
    &&& -COORD_LIMIT <= p.z <= COORD_LIMIT
}

/// A fixed-size cubic grid of voxels, the unit of generation.
///
/// Cells are addressed by `lin_index`; the grid is dense and fully
/// populated before adjacency classification reads it.
#[derive(Clone, Debug)]
pub struct Chunk {
    pub size: usize,
    pub voxels: Vec<Voxel>,
}

impl Chunk {
    /// Well-formed: a bounded side length, exactly `size³` cells, and every
    /// stored world position within `COORD_LIMIT`.
    pub open spec fn wf(self) -> bool {
        &&& self.size <= MAX_CHUNK_SIZE
        &&& self.voxels@.len() == self.size * self.size * self.size
        &&& forall|i: int|
            0 <= i < self.voxels@.len() ==> in_coord_limit(
                (#[trigger] self.voxels@[i]).world_position,
            )
    }
}

/// The world coordinate along one axis, refused where it leaves
/// `COORD_LIMIT` or its sample point would wrap: paired with it, that
/// sample point in thousandths of a unit.
fn checked_axis(c: i64, size: usize, l: usize, scale: i64) -> (r: Option<(i64, i64)>)
    requires
        size <= MAX_CHUNK_SIZE,
        l < size,
    ensures
        match r {
            Some(p) => {
                &&& p.0 == world_coord(c as int, size as int, l as int)
                &&& p.1 == world_coord(c as int, size as int, l as int) * scale
                &&& axis_in_range(c as int, size as int, l as int, scale as int)
            },
            None => !axis_in_range(c as int, size as int, l as int, scale as int),
        },
{
    match c.checked_mul(size as i64) {
        Some(p) => match p.checked_add(l as i64) {
            Some(w) => {
                if -COORD_LIMIT <= w && w <= COORD_LIMIT {
                    match w.checked_mul(scale) {
                        Some(m) => Some((w, m)),
                        None => None,
                    }
                } else {
                    None
                }
            },
            None => None,
        },
        None => None,
    }
}

/// The sample points of every cell of the chunk, in linear-address order
/// and in thousandths of a unit: the points at which the noise field is to
/// be read.  Refused with `CoordinateOverflow` exactly when some cell of
/// the chunk cannot be represented.
pub fn sample_points_milli(chunk_coord: Vec3i, config: &GenerationConfig) -> (r: Result<
    Vec<Vec3i>,
    GenError,
>)
    requires
        config.wf(),
    ensures
        r is Ok <==> chunk_in_range(chunk_coord, *config),
        r is Err ==> r->Err_0 == GenError::CoordinateOverflow,
        r is Ok ==> {
            let s = config.chunk_size as int;
            &&& r->Ok_0@.len() == s * s * s
            &&& forall|i: int|
                0 <= i < s * s * s ==> #[trigger] r->Ok_0@[i] == spec_sample_point(
                    chunk_coord,
                    *config,
                    i,
                )
        },
{
    let s = config.chunk_size;
    let scale = config.world_scale_milli;
    proof {
        lemma_cube_bound(s as int);
    }
    let mut points: Vec<Vec3i> = Vec::new();
    let mut z: usize = 0;
    while z < s
        invariant
            config.wf(),
            s == config.chunk_size,
            scale == config.world_scale_milli,
            z <= s,
            points@.len() == z * s * s,
            forall|j: int|
                0 <= j < points@.len() ==> #[trigger] points@[j] == spec_sample_point(
                    chunk_coord,
                    *config,
                    j,
                ),
            forall|j: int| 0 <= j < points@.len() ==> #[trigger] cell_in_range(
                chunk_coord,
                *config,
                j,
            ),
        decreases s - z,
    {
        let mut y: usize = 0;
        while y < s
            invariant
                config.wf(),
                s == config.chunk_size,
                scale == config.world_scale_milli,
                z < s,
                y <= s,
                points@.len() == z * s * s + y * s,
                forall|j: int|
                    0 <= j < points@.len() ==> #[trigger] points@[j] == spec_sample_point(
                        chunk_coord,
                        *config,
                        j,
                    ),
                forall|j: int| 0 <= j < points@.len() ==> #[trigger] cell_in_range(
                    chunk_coord,
                    *config,
                    j,
                ),
            decreases s - y,
        {
            let mut x: usize = 0;
            while x < s
                invariant
                    config.wf(),
                    s == config.chunk_size,
                    scale == config.world_scale_milli,
                    z < s,
                    y < s,
                    x <= s,
                    points@.len() == z * s * s + y * s + x,
                    forall|j: int|
                        0 <= j < points@.len() ==> #[trigger] points@[j] == spec_sample_point(
                            chunk_coord,
                            *config,
                            j,
                        ),
                    forall|j: int| 0 <= j < points@.len() ==> #[trigger] cell_in_range(
                        chunk_coord,
                        *config,
                        j,
                    ),
                decreases s - x,
            {
                proof {
                    lemma_cube_bound(s as int);
                    lemma_lin_index_decompose(s as int, x as int, y as int, z as int);
                }
                let rx = checked_axis(chunk_coord.x, s, x, scale);
                let ry = checked_axis(chunk_coord.y, s, y, scale);
                let rz = checked_axis(chunk_coord.z, s, z, scale);
                match (rx, ry, rz) {
                    (Some(px), Some(py), Some(pz)) => {
                        points.push(Vec3i { x: px.1, y: py.1, z: pz.1 });
                    },
                    _ => {
                        proof {
                            let i = lin_index(s as int, x as int, y as int, z as int);
                            assert(!cell_in_range(chunk_coord, *config, i));
                        }
                        return Err(GenError::CoordinateOverflow);
                    },
                }
                x = x + 1;
            }
            proof {
                assert((y + 1) * s == y * s + s) by (nonlinear_arith);
            }
            y = y + 1;
        }
        proof {
            assert((z + 1) * s * s == z * s * s + s * s) by (nonlinear_arith);
        }
        z = z + 1;
    }
    proof {
        lemma_cube_bound(s as int);
        assert(points@.len() == s * s * s) by (nonlinear_arith)
            requires
                points@.len() == z * s * s,
                z == s,
        ;
    }
    Ok(points)
}

/// Generate the dense occupancy grid of one chunk from the field samples
/// read at this chunk's sample points, `samples[i]` belonging to the cell
/// at linear address `i`.  Every cell is populated: solid exactly when its
/// sample lies strictly above the threshold, with its world position and a
/// zero neighbor mask.  Refused with `CoordinateOverflow` exactly when some
/// cell of the chunk cannot be represented.
pub fn generate_grid(chunk_coord: Vec3i, config: &GenerationConfig, samples: &Vec<i64>) -> (r:
    Result<Chunk, GenError>)
    requires
        config.wf(),
        samples@.len() == config.chunk_size * config.chunk_size * config.chunk_size,
    ensures
        r is Ok <==> chunk_in_range(chunk_coord, *config),
        r is Err ==> r->Err_0 == GenError::CoordinateOverflow,
        r is Ok ==> {
            &&& r->Ok_0.wf()
            &&& r->Ok_0.size == config.chunk_size
            &&& r->Ok_0.voxels@ == spec_grid(chunk_coord, *config, samples@)
        },
{
    let s = config.chunk_size;
    let scale = config.world_scale_milli;
    proof {
        lemma_cube_bound(s as int);
    }
    let mut voxels: Vec<Voxel> = Vec::new();
    let mut z: usize = 0;
    while z < s
        invariant
            config.wf(),
            s == config.chunk_size,
            scale == config.world_scale_milli,
            samples@.len() == s * s * s,
            z <= s,
            voxels@.len() == z * s * s,
            forall|j: int|
                0 <= j < voxels@.len() ==> #[trigger] voxels@[j] == spec_grid(
                    chunk_coord,
                    *config,
                    samples@,
                )[j],
            forall|j: int| 0 <= j < voxels@.len() ==> #[trigger] cell_in_range(
                chunk_coord,
                *config,
                j,
            ),
        decreases s - z,
    {
        let mut y: usize = 0;
        while y < s
            invariant
                config.wf(),
                s == config.chunk_size,
                scale == config.world_scale_milli,
                samples@.len() == s * s * s,
                z < s,
                y <= s,
                voxels@.len() == z * s * s + y * s,
                forall|j: int|
                    0 <= j < voxels@.len() ==> #[trigger] voxels@[j] == spec_grid(
                        chunk_coord,
                        *config,
                        samples@,
                    )[j],
                forall|j: int| 0 <= j < voxels@.len() ==> #[trigger] cell_in_range(
                    chunk_coord,
                    *config,
                    j,
                ),
            decreases s - y,
        {
            let mut x: usize = 0;
            while x < s
                invariant
                    config.wf(),
                    s == config.chunk_size,
                    scale == config.world_scale_milli,
                    samples@.len() == s * s * s,
                    z < s,
                    y < s,
                    x <= s,
                    voxels@.len() == z * s * s + y * s + x,
                    forall|j: int|
                        0 <= j < voxels@.len() ==> #[trigger] voxels@[j] == spec_grid(
                            chunk_coord,
                            *config,
                            samples@,
                        )[j],
                    forall|j: int| 0 <= j < voxels@.len() ==> #[trigger] cell_in_range(
                        chunk_coord,
                        *config,
                        j,
                    ),
                decreases s - x,
            {
                proof {
                    lemma_cube_bound(s as int);
                    lemma_lin_index_decompose(s as int, x as int, y as int, z as int);
                }
                let rx = checked_axis(chunk_coord.x, s, x, scale);
                let ry = checked_axis(chunk_coord.y, s, y, scale);
                let rz = checked_axis(chunk_coord.z, s, z, scale);
                match (rx, ry, rz) {
                    (Some(px), Some(py), Some(pz)) => {
                        let i = voxels.len();
                        let kind = classify_sample(samples[i], config.occupancy_threshold_nano);
                        voxels.push(
                            Voxel {
                                kind,
                                world_position: Vec3i { x: px.0, y: py.0, z: pz.0 },
                                occupied_neighbor_mask: 0,
                            },
                        );
                    },
                    _ => {
                        proof {
                            let i = lin_index(s as int, x as int, y as int, z as int);
                            assert(!cell_in_range(chunk_coord, *config, i));
                        }
                        return Err(GenError::CoordinateOverflow);
                    },
                }
                x = x + 1;
            }
            proof {
                assert((y + 1) * s == y * s + s) by (nonlinear_arith);
            }
            y = y + 1;
        }
        proof {
            assert((z + 1) * s * s == z * s * s + s * s) by (nonlinear_arith);
        }
        z = z + 1;
    }
    proof {
        lemma_cube_bound(s as int);
        assert(voxels@.len() == s * s * s) by (nonlinear_arith)
            requires
                voxels@.len() == z * s * s,
                z == s,
        ;
        assert forall|i: int| 0 <= i < voxels@.len() implies in_coord_limit(
            (#[trigger] voxels@[i]).world_position,
        ) by {
            assert(voxels@[i] == spec_grid(chunk_coord, *config, samples@)[i]);
            assert(cell_in_range(chunk_coord, *config, i));
        }
    }
    Ok(Chunk { size: s, voxels })
}

/// The cell at `(x, y, z)` exists in the grid and is solid.  Coordinates
/// outside the grid count as air: classification never reads a neighboring
/// chunk, so faces at chunk edges are always treated as exposed.
pub open spec fn solid_in_grid(vs: Seq<Voxel>, s: int, x: int, y: int, z: int) -> bool {
    in_grid(s, x, y, z) && vs[lin_index(s, x, y, z)].kind == VoxelKind::Solid
}

/// Offset of the neighbor in direction `f`, the directions ordered
/// `+X, -X, +Y, -Y, +Z, -Z`.
pub open spec fn dir_offset(f: int) -> (int, int, int) {
    if f == 0 {
        (1int, 0int, 0int)
    } else if f == 1 {
        (-1int, 0int, 0int)
    } else if f == 2 {
        (0int, 1int, 0int)
    } else if f == 3 {
        (0int, -1int, 0int)
    } else if f == 4 {
        (0int, 0int, 1int)
    } else {
        (0int, 0int, -1int)
    }
}

/// The mask bit that records direction `f`.
pub open spec fn face_bit(f: int) -> u8 {
    if f == 0 {
        1u8
    } else if f == 1 {
        2u8
    } else if f == 2 {
        4u8
    } else if f == 3 {
        8u8
    } else if f == 4 {
        16u8
    } else {
        32u8
    }
}

/// The neighbor of `(x, y, z)` in direction `f` exists and is solid.
pub open spec fn neighbor_solid(vs: Seq<Voxel>, s: int, x: int, y: int, z: int, f: int) -> bool {
    solid_in_grid(vs, s, x + dir_offset(f).0, y + dir_offset(f).1, z + dir_offset(f).2)
}

/// The six-bit neighbor-occupancy mask of the cell at `(x, y, z)`.
pub open spec fn neighbor_mask(vs: Seq<Voxel>, s: int, x: int, y: int, z: int) -> u8 {
    (if neighbor_solid(vs, s, x, y, z, 0) {
        1u8
    } else {
        0u8
    }) | (if neighbor_solid(vs, s, x, y, z, 1) {
        2u8
    } else {
        0u8
    }) | (if neighbor_solid(vs, s, x, y, z, 2) {
        4u8
    } else {
        0u8
    }) | (if neighbor_solid(vs, s, x, y, z, 3) {
        8u8
    } else {
        0u8
    }) | (if neighbor_solid(vs, s, x, y, z, 4) {
        16u8
    } else {
        0u8
    }) | (if neighbor_solid(vs, s, x, y, z, 5) {
        32u8
    } else {
        0u8
    })
}

/// Reading one bit of the mask recovers exactly one neighbor test: bit `f`
/// of the mask is clear exactly when the neighbor in direction `f` is
/// absent or air.
pub proof fn lemma_mask_bit(vs: Seq<Voxel>, s: int, x: int, y: int, z: int, f: int)
    requires
        0 <= f < 6,
    ensures
        neighbor_mask(vs, s, x, y, z) & face_bit(f) == 0 <==> !neighbor_solid(vs, s, x, y, z, f),
{
    let t0: u8 = if neighbor_solid(vs, s, x, y, z, 0) { 1u8 } else { 0u8 };
    let t1: u8 = if neighbor_solid(vs, s, x, y, z, 1) { 2u8 } else { 0u8 };
    let t2: u8 = if neighbor_solid(vs, s, x, y, z, 2) { 4u8 } else { 0u8 };
    let t3: u8 = if neighbor_solid(vs, s, x, y, z, 3) { 8u8 } else { 0u8 };
    let t4: u8 = if neighbor_solid(vs, s, x, y, z, 4) { 16u8 } else { 0u8 };
    let t5: u8 = if neighbor_solid(vs, s, x, y, z, 5) { 32u8 } else { 0u8 };
    let m: u8 = t0 | t1 | t2 | t3 | t4 | t5;
    assert(neighbor_mask(vs, s, x, y, z) == m);
    assert(((m & 1u8 == 0) <==> t0 == 0) && ((m & 2u8 == 0) <==> t1 == 0) && ((m & 4u8 == 0)
        <==> t2 == 0) && ((m & 8u8 == 0) <==> t3 == 0) && ((m & 16u8 == 0) <==> t4 == 0) && ((m
        & 32u8 == 0) <==> t5 == 0)) by (bit_vector)
        requires
            m == t0 | t1 | t2 | t3 | t4 | t5,
            t0 == 0 || t0 == 1,
            t1 == 0 || t1 == 2,
            t2 == 0 || t2 == 4,
            t3 == 0 || t3 == 8,
            t4 == 0 || t4 == 16,
            t5 == 0 || t5 == 32,
    ;
}

/// The voxel at linear address `i` after adjacency classification: a solid
/// voxel learns its neighbor mask, an air voxel is left untouched.
pub open spec fn spec_classified_voxel(vs: Seq<Voxel>, s: int, i: int) -> Voxel {
    let v = vs[i];
    if v.kind == VoxelKind::Solid {
        Voxel {
            kind: v.kind,
            world_position: v.world_position,
            occupied_neighbor_mask: neighbor_mask(vs, s, local_x(s, i), local_y(s, i), local_z(s, i)),
        }
    } else {
        v
    }
}

/// The grid after adjacency classification, computed over the finished
/// grid `vs` alone: classification never reads a partially written grid.
pub open spec fn spec_classified(vs: Seq<Voxel>, s: int) -> Seq<Voxel> {
    Seq::new(vs.len(), |i: int| spec_classified_voxel(vs, s, i))
}

/// Shorthand: the neighbor mask of the cell at linear address `i`.
pub open spec fn neighbor_mask_at(vs: Seq<Voxel>, s: int, i: int) -> u8 {
    neighbor_mask(vs, s, local_x(s, i), local_y(s, i), local_z(s, i))
}

/// First phase of classification: read the finished grid and compute the
/// neighbor mask of every cell, without writing anything.
#[verifier::rlimit(100)]
fn compute_neighbor_masks(vs: &Vec<Voxel>, s: usize) -> (r: Vec<u8>)
    requires
        s <= MAX_CHUNK_SIZE,
        vs@.len() == s * s * s,
    ensures
        r@.len() == vs@.len(),
        forall|i: int| 0 <= i < vs@.len() ==> #[trigger] r@[i] == neighbor_mask_at(
            vs@,
            s as int,
            i,
        ),
{
    let n = vs.len();
    proof {
        lemma_cube_bound(s as int);
    }
    let mut masks: Vec<u8> = Vec::new();
    let mut i: usize = 0;
    while i < n
        invariant
            s <= MAX_CHUNK_SIZE,
            n == vs@.len(),
            n == s * s * s,
            i <= n,
            masks@.len() == i,
            forall|j: int| 0 <= j < i ==> #[trigger] masks@[j] == neighbor_mask_at(
                vs@,
                s as int,
                j,
            ),
        decreases n - i,
    {
        proof {
            assert(0 < s && 0 < s * s) by (nonlinear_arith)
                requires
                    (i as int) < n,
                    n == s * s * s,
                    0 <= s,
            ;
            lemma_cube_bound(s as int);
            lemma_lin_index_compose(s as int, i as int);
        }
        let x = i % s;
        let y = (i / s) % s;
        let z = i / (s * s);
        proof {
            let si = s as int;
            if x + 1 < s {
                lemma_lin_index_decompose(si, x + 1, y as int, z as int);
            }
            if x > 0 {
                lemma_lin_index_decompose(si, x - 1, y as int, z as int);
            }
            if y + 1 < s {
                lemma_lin_index_decompose(si, x as int, y + 1, z as int);
            }
            if y > 0 {
                lemma_lin_index_decompose(si, x as int, y - 1, z as int);
            }
            if z + 1 < s {
                lemma_lin_index_decompose(si, x as int, y as int, z + 1);
            }
            if z > 0 {
                lemma_lin_index_decompose(si, x as int, y as int, z - 1);
            }
            let yi = y as int;
            let zi = z as int;
            assert((yi + 1) * si == yi * si + si && (yi - 1) * si == yi * si - si && (zi + 1) * si
                * si == zi * si * si + si * si && (zi - 1) * si * si == zi * si * si - si * si && yi
                * si >= 0 && zi * si * si >= 0 && (1 <= yi ==> yi * si >= si) && (1 <= zi ==> zi
                * si * si >= si * si)) by (nonlinear_arith)
                requires
                    0 < si,
                    0 <= yi,
                    0 <= zi,
            ;
        }
        let t0: u8 = if x + 1 < s && vs[i + 1].kind == VoxelKind::Solid {
            1
        } else {
            0
        };
        let t1: u8 = if x > 0 && vs[i - 1].kind == VoxelKind::Solid {
            2
        } else {
            0
        };
        let t2: u8 = if y + 1 < s && vs[i + s].kind == VoxelKind::Solid {
            4
        } else {
            0
        };
        let t3: u8 = if y > 0 && vs[i - s].kind == VoxelKind::Solid {
            8
        } else {
            0
        };
        let t4: u8 = if z + 1 < s && vs[i + s * s].kind == VoxelKind::Solid {
            16
        } else {
            0
        };
        let t5: u8 = if z > 0 && vs[i - s * s].kind == VoxelKind::Solid {
            32
        } else {
            0
        };
        let m: u8 = t0 | t1 | t2 | t3 | t4 | t5;
        proof {
            assert(m == neighbor_mask_at(vs@, s as int, i as int));
        }
        masks.push(m);
        i = i + 1;
    }
    masks
}

/// Annotate every solid voxel of the finished grid with its six-bit
/// neighbor-occupancy mask; air voxels keep their zero mask.  Kinds and
/// world positions are never changed.  The pass is strictly two-phase:
/// all masks are computed from the finished grid before any is written,
/// so classification never reads a partially classified grid.
pub fn classify_adjacency(chunk: &mut Chunk)
    requires
        old(chunk).wf(),
    ensures
        final(chunk).wf(),
        final(chunk).size == old(chunk).size,
        final(chunk).voxels@ == spec_classified(old(chunk).voxels@, old(chunk).size as int),
{
    let s = chunk.size;
    let n = chunk.voxels.len();
    let masks = compute_neighbor_masks(&chunk.voxels, s);
    let mut i: usize = 0;
    while i < n
        invariant
            chunk.size == s,
            chunk.size == old(chunk).size,
            s <= MAX_CHUNK_SIZE,
            n == chunk.voxels@.len(),
            n == old(chunk).voxels@.len(),
            masks@.len() == n,
            forall|j: int| 0 <= j < n ==> #[trigger] masks@[j] == neighbor_mask_at(
                old(chunk).voxels@,
                s as int,
                j,
            ),
            i <= n,
            forall|j: int| i <= j < n ==> chunk.voxels@[j] == old(chunk).voxels@[j],
            forall|j: int|
                0 <= j < i ==> #[trigger] chunk.voxels@[j] == spec_classified_voxel(
                    old(chunk).voxels@,
                    s as int,
                    j,
                ),
            forall|j: int|
                0 <= j < n ==> in_coord_limit((#[trigger] chunk.voxels@[j]).world_position),
        decreases n - i,
    {
        let v = chunk.voxels[i];
        if v.kind == VoxelKind::Solid {
            let mut nv = v;
            nv.occupied_neighbor_mask = masks[i];
            chunk.voxels.set(i, nv);
        }
        i = i + 1;
    }
    proof {
        assert(chunk.voxels@ =~= spec_classified(old(chunk).voxels@, old(chunk).size as int));
    }
}

/// How many voxels of the grid are of kind `k`.
pub open spec fn count_kind(vs: Seq<Voxel>, k: VoxelKind) -> int
    decreases vs.len(),
{
    if vs.len() == 0 {
        0
    } else {
        count_kind(vs.drop_last(), k) + if vs.last().kind == k {
            1int
        } else {
            0int
        }
    }
}

/// How many of the six mask bits are set.
pub open spec fn popcount6(m: u8) -> int {
    (if m & 1 != 0 {
        1int
    } else {
        0int
    }) + (if m & 2 != 0 {
        1int
    } else {
        0int
    }) + (if m & 4 != 0 {
        1int
    } else {
        0int
    }) + (if m & 8 != 0 {
        1int
    } else {
        0int
    }) + (if m & 16 != 0 {
        1int
    } else {
        0int
    }) + (if m & 32 != 0 {
        1int
    } else {
        0int
    })
}

/// Total number of recorded occupied-neighbor links over the whole grid.
pub open spec fn total_neighbor_links(vs: Seq<Voxel>) -> int
    decreases vs.len(),
{
    if vs.len() == 0 {
        0
    } else {
        total_neighbor_links(vs.drop_last()) + popcount6(vs.last().occupied_neighbor_mask)
    }
}

/// Occupancy counts of one classified chunk.
#[derive(Clone, Copy, PartialEq, Eq, Structural, Debug)]
pub struct ChunkStats {
    pub air: usize,
    pub solid: usize,
    pub occupied_neighbor_links: usize,
}

/// Count the air and solid voxels and the recorded occupied-neighbor
/// links of the grid.
pub fn occupancy_stats(chunk: &Chunk) -> (r: ChunkStats)
    requires
        chunk.wf(),
    ensures
        r.air == count_kind(chunk.voxels@, VoxelKind::Air),
        r.solid == count_kind(chunk.voxels@, VoxelKind::Solid),
        r.air + r.solid == chunk.voxels@.len(),
        r.occupied_neighbor_links == total_neighbor_links(chunk.voxels@),
        r.occupied_neighbor_links <= 6 * chunk.voxels@.len(),
{
    let vs = &chunk.voxels;
    let n = vs.len();
    proof {
        lemma_cube_bound(chunk.size as int);
    }
    let mut air: usize = 0;
    let mut solid: usize = 0;
    let mut links: usize = 0;
    let mut i: usize = 0;
    while i < n
        invariant
            n == vs@.len(),
            n <= 262144,
            i <= n,
            air == count_kind(vs@.take(i as int), VoxelKind::Air),
            solid == count_kind(vs@.take(i as int), VoxelKind::Solid),
            air + solid == i,
            links == total_neighbor_links(vs@.take(i as int)),
            links <= 6 * i,
        decreases n - i,
    {
        proof {
            assert(vs@.take(i + 1).drop_last() =~= vs@.take(i as int));
            assert(vs@.take(i + 1).last() == vs@[i as int]);
        }
        let v = vs[i];
        if v.kind == VoxelKind::Air {
            air = air + 1;
        } else {
            solid = solid + 1;
        }
        let m = v.occupied_neighbor_mask;
        let p: u8 = (if m & 1 != 0 {
            1u8
        } else {
            0u8
        }) + (if m & 2 != 0 {
            1u8
        } else {
            0u8
        }) + (if m & 4 != 0 {
            1u8
        } else {
            0u8
        }) + (if m & 8 != 0 {
            1u8
        } else {
            0u8
        }) + (if m & 16 != 0 {
            1u8
        } else {
            0u8
        }) + (if m & 32 != 0 {
            1u8
        } else {
            0u8
        });
        links = links + (p as usize);
        i = i + 1;
    }
    proof {
        assert(vs@.take(n as int) =~= vs@);
    }
    ChunkStats { air, solid, occupied_neighbor_links: links }
}

/// Average recorded occupied-neighbor links per voxel, in thousandths of a
/// link, or nothing for an empty grid: the division is guarded against a
/// zero voxel count.
pub fn average_neighbor_links_milli(chunk: &Chunk) -> (r: Option<u64>)
    requires
        chunk.wf(),
    ensures
        r is Some <==> chunk.voxels@.len() > 0,
        r is Some ==> r->Some_0 == total_neighbor_links(chunk.voxels@) * 1000 / (
        chunk.voxels@.len() as int),
{
    let stats = occupancy_stats(chunk);
    let n = chunk.voxels.len();
    if n == 0 {
        None
    } else {
        proof {
            lemma_cube_bound(chunk.size as int);
        }
        let total: u64 = (stats.occupied_neighbor_links as u64) * 1000;
        Some(total / (n as u64))
    }
}

} // verus!
