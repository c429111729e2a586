//! Voxels and the occupancy classification of a noise sample.

use vstd::prelude::*;
use crate::geom::Vec3i;

verus! {

/// What a unit cell of space holds.
#[derive(Clone, Copy, PartialEq, Eq, Structural, Debug)]
pub enum VoxelKind {
    Air,
    Solid,
}

/// A unit cell of the grid.
///
/// `kind` and `world_position` are fixed when the grid is generated;
/// `occupied_neighbor_mask` starts at zero and is written exactly once,
/// by adjacency classification over the finished grid.  Bit `f` of the mask
/// (see `crate::chunk::face_bit`) records that the neighbor in direction `f`
/// exists in the same chunk and is solid.
#[derive(Clone, Copy, PartialEq, Eq, Structural, Debug)]
pub struct Voxel {
    pub kind: VoxelKind,
    pub world_position: Vec3i,
    pub occupied_neighbor_mask: u8,
}

/// The binary density threshold: a cell is solid exactly when its sample
/// lies strictly above the occupancy threshold.  A sample equal to the
/// threshold classifies as air.
pub open spec fn kind_of_sample(sample: int, threshold: int) -> VoxelKind {
    if sample > threshold {
        VoxelKind::Solid
    } else {
        VoxelKind::Air
    }
}

/// Classify one noise sample against the occupancy threshold, both in
/// billionths of the unit noise amplitude.
pub fn classify_sample(sample: i64, threshold: i64) -> (k: VoxelKind)
    ensures
        k == kind_of_sample(sample as int, threshold as int),
{
    if sample > threshold {
        VoxelKind::Solid
    } else {
        VoxelKind::Air
    }
}

/// Threshold edge law: a sample exactly equal to the occupancy threshold
/// classifies as air, never solid.
pub proof fn lemma_threshold_sample_is_air(sample: int, threshold: int)
    requires
        sample == threshold,
    ensures
        kind_of_sample(sample, threshold) == VoxelKind::Air,
{
}

} // verus!
