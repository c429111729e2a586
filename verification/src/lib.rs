//! Procedural voxel-chunk generation.
//!
//! A coherent-noise field is sampled over a cubic grid of voxels, each voxel
//! is classified `Air` or `Solid` against an occupancy threshold, every solid
//! voxel learns which of its six axis-aligned neighbors are solid, and the
//! exposed faces are emitted as a renderable triangle mesh.  A canonical unit
//! cube serves as the reference for per-face geometry.
//!
//! All quantities are integers: mesh coordinates are stored in half units
//! (a stored component `v` denotes the coordinate `v / 2`), noise samples in
//! billionths of the unit amplitude, and the sampling scale in thousandths.

pub mod chunk;
pub mod config;
pub mod cube;
pub mod generator;
pub mod geom;
pub mod mesh;
pub mod voxel;
