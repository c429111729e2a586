//! Generation parameters, their validation, and the failure conditions.

use vstd::prelude::*;

verus! {

/// One whole unit of the noise amplitude scale.  Field samples lie in
/// `[-NOISE_ONE, NOISE_ONE]` and stand for real values in `[-1, 1]`; the
/// occupancy threshold is expressed on the same scale.
pub const NOISE_ONE: i64 = 1_000_000_000;

/// Largest accepted chunk side length.  Keeps `size * size * size` cells and
/// every derived buffer length comfortably inside the machine integer types.
pub const MAX_CHUNK_SIZE: usize = 64;

/// Largest accepted sampling scale, in thousandths of a unit per cell
/// (one million units per cell).
pub const MAX_WORLD_SCALE_MILLI: i64 = 1_000_000_000;

/// Largest magnitude a voxel world coordinate may take.  Mesh vertices are
/// stored in half units, so `2 * c + 1` must still fit an `i64`; this bound
/// leaves that headroom with room to spare.
pub const COORD_LIMIT: i64 = 1_000_000_000_000_000_000;

/// Why generation refused to produce a result.
#[derive(Clone, Copy, PartialEq, Eq, Structural, Debug)]
pub enum GenError {
    /// A configuration field lies outside its documented range.
    InvalidConfiguration,
    /// A voxel world coordinate or sample point cannot be represented
    /// without wrapping.
    CoordinateOverflow,
}

/// The explicit parameters of one generation run; never global state.
///
/// `world_scale_milli` is the sampling frequency in thousandths of a unit
/// per cell, and `occupancy_threshold_nano` the solidity cutoff in
/// billionths of the unit noise amplitude.
#[derive(Clone, Copy, PartialEq, Eq, Structural, Debug)]
pub struct GenerationConfig {
    pub seed: u32,
    pub chunk_size: usize,
    pub world_scale_milli: i64,
    pub occupancy_threshold_nano: i64,
}

/// The documented sane ranges: a side length at most `MAX_CHUNK_SIZE`, a
/// positive scale at most `MAX_WORLD_SCALE_MILLI`, and a threshold within
/// the noise amplitude.  A zero side length is allowed and yields an empty,
/// well-formed mesh.
pub open spec fn config_valid(
    chunk_size: usize,
    world_scale_milli: i64,
    occupancy_threshold_nano: i64,
) -> bool {
    &&& chunk_size <= MAX_CHUNK_SIZE
    &&& 1 <= world_scale_milli <= MAX_WORLD_SCALE_MILLI
    &&& -NOISE_ONE <= occupancy_threshold_nano <= NOISE_ONE
}

impl GenerationConfig {
    /// A well-formed configuration: every field within its documented range.
    pub open spec fn wf(self) -> bool {
        config_valid(self.chunk_size, self.world_scale_milli, self.occupancy_threshold_nano)
    }

    /// Validate the parameters; values outside their documented sane ranges
    /// are rejected rather than allowed to propagate garbage geometry.
    pub fn new(
        seed: u32,
        chunk_size: usize,
        world_scale_milli: i64,
        occupancy_threshold_nano: i64,
    ) -> (r: Result<GenerationConfig, GenError>)
        ensures
            r == (if config_valid(chunk_size, world_scale_milli, occupancy_threshold_nano) {
                Result::<GenerationConfig, GenError>::Ok(GenerationConfig {
                    seed,
                    chunk_size,
                    world_scale_milli,
                    occupancy_threshold_nano,
                })
            } else {
                Result::<GenerationConfig, GenError>::Err(GenError::InvalidConfiguration)
            }),
            r is Ok ==> r->Ok_0.wf(),
    {
        if chunk_size <= MAX_CHUNK_SIZE
            && 1 <= world_scale_milli && world_scale_milli <= MAX_WORLD_SCALE_MILLI
            && -NOISE_ONE <= occupancy_threshold_nano && occupancy_threshold_nano <= NOISE_ONE
        {
            Ok(GenerationConfig { seed, chunk_size, world_scale_milli, occupancy_threshold_nano })
        } else {
            Err(GenError::InvalidConfiguration)
        }
    }
}

} // verus!
