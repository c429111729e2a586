use noise::NoiseFn;
use noise::Perlin;
use voxel_chunk::chunk::average_neighbor_links_milli;
use voxel_chunk::chunk::classify_adjacency;
use voxel_chunk::chunk::generate_grid;
use voxel_chunk::chunk::occupancy_stats;
use voxel_chunk::chunk::sample_points_milli;
use voxel_chunk::config::GenError;
use voxel_chunk::config::GenerationConfig;
use voxel_chunk::generator::generate;
use voxel_chunk::geom::Vec3i;
use voxel_chunk::mesh::MeshData;
use voxel_chunk::mesh::build_chunk_mesh;
use voxel_chunk::voxel::VoxelKind;
use voxel_chunk::voxel::classify_sample;

/// Read the coherent noise field at the library's sample points, handing
/// back fixed-point samples in billionths of the unit amplitude.
fn field_samples(seed: u32, points_milli: &[Vec3i]) -> Vec<i64> {
    let perlin = Perlin::new(seed);
    points_milli
        .iter()
        .map(|p| {
            let v = perlin.get([
                p.x as f64 / 1000.0,
                p.y as f64 / 1000.0,
                p.z as f64 / 1000.0,
            ]);
            (v * 1_000_000_000.0) as i64
        })
        .collect()
}

fn generate_at(config: &GenerationConfig, chunk_coord: Vec3i) -> Result<MeshData, GenError> {
    let points = sample_points_milli(chunk_coord, config)?;
    let samples = field_samples(config.seed, &points);
    generate(chunk_coord, config, &samples)
}

fn mesh_invariants_hold(m: &MeshData) {
    assert_eq!(m.normals.len(), m.positions.len());
    assert_eq!(m.uvs.len(), m.positions.len());
    assert_eq!(m.positions.len() % 4, 0);
    assert_eq!(m.indices.len(), m.positions.len() / 4 * 6);
    for ix in &m.indices {
        assert!((*ix as usize) < m.positions.len());
    }
}

#[test]
fn config_validation_accepts_and_rejects() {
    let good = GenerationConfig::new(2137, 16, 100, 300_000_000).unwrap();
    assert_eq!(good.seed, 2137);
    assert_eq!(good.chunk_size, 16);
    assert_eq!(good.world_scale_milli, 100);
    assert_eq!(good.occupancy_threshold_nano, 300_000_000);
    assert_eq!(
        GenerationConfig::new(1, 16, 0, 0),
        Err(GenError::InvalidConfiguration)
    );
    assert_eq!(
        GenerationConfig::new(1, 16, 100, 1_000_000_001),
        Err(GenError::InvalidConfiguration)
    );
    assert_eq!(
        GenerationConfig::new(1, 65, 100, 0),
        Err(GenError::InvalidConfiguration)
    );
}

#[test]
fn threshold_exact_sample_is_air() {
    assert_eq!(classify_sample(300_000_000, 300_000_000), VoxelKind::Air);
    assert_eq!(classify_sample(300_000_001, 300_000_000), VoxelKind::Solid);
    assert_eq!(classify_sample(299_999_999, 300_000_000), VoxelKind::Air);
}

#[test]
fn zero_chunk_size_yields_empty_mesh() {
    let config = GenerationConfig::new(7, 0, 100, 0).unwrap();
    let m = generate_at(&config, Vec3i { x: 0, y: 0, z: 0 }).unwrap();
    assert_eq!(m.positions.len(), 0);
    assert_eq!(m.normals.len(), 0);
    assert_eq!(m.uvs.len(), 0);
    assert_eq!(m.indices.len(), 0);
    mesh_invariants_hold(&m);
}

#[test]
fn extreme_chunk_coordinate_reports_overflow() {
    let config = GenerationConfig::new(7, 16, 100, 0).unwrap();
    let far = Vec3i { x: i64::MAX / 16, y: 0, z: 0 };
    assert_eq!(
        sample_points_milli(far, &config),
        Err(GenError::CoordinateOverflow)
    );
    let samples = vec![0i64; 16 * 16 * 16];
    assert_eq!(
        generate(far, &config, &samples),
        Err(GenError::CoordinateOverflow)
    );
}

#[test]
fn grid_is_complete_and_addressed_by_linear_index() {
    let config = GenerationConfig::new(11, 4, 250, 100_000_000).unwrap();
    let cc = Vec3i { x: 2, y: -1, z: 3 };
    let points = sample_points_milli(cc, &config).unwrap();
    assert_eq!(points.len(), 64);
    let samples = field_samples(config.seed, &points);
    let chunk = generate_grid(cc, &config, &samples).unwrap();
    assert_eq!(chunk.size, 4);
    assert_eq!(chunk.voxels.len(), 64);
    for z in 0..4i64 {
        for y in 0..4i64 {
            for x in 0..4i64 {
                let i = (x + y * 4 + z * 16) as usize;
                let v = &chunk.voxels[i];
                assert_eq!(v.world_position.x, 2 * 4 + x);
                assert_eq!(v.world_position.y, -1 * 4 + y);
                assert_eq!(v.world_position.z, 3 * 4 + z);
                assert_eq!(v.occupied_neighbor_mask, 0);
                let expected = if samples[i] > config.occupancy_threshold_nano {
                    VoxelKind::Solid
                } else {
                    VoxelKind::Air
                };
                assert_eq!(v.kind, expected);
                // the sample point is the world position scaled to milli units
                assert_eq!(points[i].x, v.world_position.x * 250);
                assert_eq!(points[i].y, v.world_position.y * 250);
                assert_eq!(points[i].z, v.world_position.z * 250);
            }
        }
    }
}

#[test]
fn chunk_boundary_sample_points_coincide() {
    // the first cell of chunk (1,0,0) is the cell one past the edge of
    // chunk (0,0,0): same world coordinate, same sample point, same sample
    let config = GenerationConfig::new(2137, 16, 100, 300_000_000).unwrap();
    let next = sample_points_milli(Vec3i { x: 1, y: 0, z: 0 }, &config).unwrap();
    let first_of_next = next[0];
    assert_eq!(first_of_next.x, 16 * 100);
    assert_eq!(first_of_next.y, 0);
    assert_eq!(first_of_next.z, 0);
    let expected = Vec3i { x: (0 * 16 + 16) * 100, y: 0, z: 0 };
    assert_eq!(first_of_next, expected);
    let s1 = field_samples(config.seed, &[first_of_next]);
    let s2 = field_samples(config.seed, &[expected]);
    assert_eq!(s1, s2);
}

#[test]
fn adjacency_marks_exactly_the_solid_neighbors() {
    // a 2-cube with two solid voxels side by side along +X
    let config = GenerationConfig::new(1, 2, 100, 0).unwrap();
    let cc = Vec3i { x: 0, y: 0, z: 0 };
    let mut samples = vec![-500_000_000i64; 8];
    samples[0] = 500_000_000; // local (0,0,0)
    samples[1] = 500_000_000; // local (1,0,0)
    let mut chunk = generate_grid(cc, &config, &samples).unwrap();
    classify_adjacency(&mut chunk);
    // +X is bit 1, -X is bit 2
    assert_eq!(chunk.voxels[0].kind, VoxelKind::Solid);
    assert_eq!(chunk.voxels[0].occupied_neighbor_mask, 1);
    assert_eq!(chunk.voxels[1].occupied_neighbor_mask, 2);
    for i in 2..8 {
        assert_eq!(chunk.voxels[i].kind, VoxelKind::Air);
        assert_eq!(chunk.voxels[i].occupied_neighbor_mask, 0);
    }
    let stats = occupancy_stats(&chunk);
    assert_eq!(stats.solid, 2);
    assert_eq!(stats.air, 6);
    assert_eq!(stats.occupied_neighbor_links, 2);
    // 2 links over 8 voxels: 0.25 links per voxel
    assert_eq!(average_neighbor_links_milli(&chunk), Some(250));
}

#[test]
fn mesh_emits_one_quad_per_exposed_face() {
    // the two solid voxels share one face, so each has 5 exposed faces
    let config = GenerationConfig::new(1, 2, 100, 0).unwrap();
    let cc = Vec3i { x: 0, y: 0, z: 0 };
    let mut samples = vec![-500_000_000i64; 8];
    samples[0] = 500_000_000;
    samples[1] = 500_000_000;
    let mut chunk = generate_grid(cc, &config, &samples).unwrap();
    classify_adjacency(&mut chunk);
    let m = build_chunk_mesh(&chunk);
    mesh_invariants_hold(&m);
    assert_eq!(m.positions.len(), 10 * 4);
    assert_eq!(m.indices.len(), 10 * 6);
    // neither voxel emits a face toward the other: no +X quad at the
    // origin voxel, no -X quad at its neighbor
    for q in 0..10 {
        let n = &m.normals[4 * q];
        let p = &m.positions[4 * q];
        if n.x == 1 {
            // a +X face belongs to the voxel at x == 1: its plane is x == 3 half units
            assert_eq!(p.x, 3);
        }
        if n.x == -1 {
            // a -X face belongs to the voxel at x == 0: its plane is x == -1 half units
            assert_eq!(p.x, -1);
        }
    }
}

#[test]
fn average_neighbor_links_guards_empty_grid() {
    let config = GenerationConfig::new(1, 0, 100, 0).unwrap();
    let cc = Vec3i { x: 0, y: 0, z: 0 };
    let samples: Vec<i64> = Vec::new();
    let mut chunk = generate_grid(cc, &config, &samples).unwrap();
    classify_adjacency(&mut chunk);
    assert_eq!(average_neighbor_links_milli(&chunk), None);
}

#[test]
fn generation_is_deterministic() {
    let config = GenerationConfig::new(2137, 16, 100, 300_000_000).unwrap();
    let cc = Vec3i { x: 0, y: 0, z: 0 };
    let m1 = generate_at(&config, cc).unwrap();
    let m2 = generate_at(&config, cc).unwrap();
    assert_eq!(m1, m2);
}

#[test]
fn end_to_end_scenario_produces_pinned_mesh() {
    // seed 2137, side 16, scale 0.1 (100 milli), threshold 0.3 (3e8 nano)
    let config = GenerationConfig::new(2137, 16, 100, 300_000_000).unwrap();
    let cc = Vec3i { x: 0, y: 0, z: 0 };
    let points = sample_points_milli(cc, &config).unwrap();
    let samples = field_samples(config.seed, &points);
    let mut chunk = generate_grid(cc, &config, &samples).unwrap();
    classify_adjacency(&mut chunk);
    let stats = occupancy_stats(&chunk);
    assert_eq!(stats.air + stats.solid, 4096);
    // regression values pinned from this noise function and fixed-point scale
    assert_eq!(stats.solid, 561, "solid count drifted");
    assert_eq!(stats.air, 3535, "air count drifted");
    let m = build_chunk_mesh(&chunk);
    mesh_invariants_hold(&m);
    assert!(m.positions.len() > 0);
    let again = generate(cc, &config, &samples).unwrap();
    assert_eq!(m, again);
}
