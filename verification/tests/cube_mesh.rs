use voxel_chunk::cube::create_unit_cube;
use voxel_chunk::geom::Vec3i;

fn cross(a: (i64, i64, i64), b: (i64, i64, i64)) -> (i64, i64, i64) {
    (a.1 * b.2 - a.2 * b.1, a.2 * b.0 - a.0 * b.2, a.0 * b.1 - a.1 * b.0)
}

fn sub(a: &Vec3i, b: &Vec3i) -> (i64, i64, i64) {
    (a.x - b.x, a.y - b.y, a.z - b.z)
}

fn dot(a: (i64, i64, i64), b: &Vec3i) -> i64 {
    a.0 * b.x + a.1 * b.y + a.2 * b.z
}

#[test]
fn unit_cube_has_canonical_counts() {
    let m = create_unit_cube();
    assert_eq!(m.positions.len(), 24);
    assert_eq!(m.normals.len(), 24);
    assert_eq!(m.uvs.len(), 24);
    assert_eq!(m.indices.len(), 36);
}

#[test]
fn unit_cube_faces_are_axis_normal_correct() {
    let m = create_unit_cube();
    let axes: [(i64, i64, i64); 6] =
        [(0, 1, 0), (0, -1, 0), (1, 0, 0), (-1, 0, 0), (0, 0, 1), (0, 0, -1)];
    for f in 0..6 {
        for k in 0..4 {
            let n = &m.normals[4 * f + k];
            assert_eq!((n.x, n.y, n.z), axes[f]);
            // every vertex sits half a unit from the center on each axis
            let p = &m.positions[4 * f + k];
            assert_eq!(p.x.abs(), 1);
            assert_eq!(p.y.abs(), 1);
            assert_eq!(p.z.abs(), 1);
            // each face lies on its own axis plane
            let held = p.x * axes[f].0 + p.y * axes[f].1 + p.z * axes[f].2;
            assert_eq!(held, 1);
        }
    }
}

#[test]
fn unit_cube_positions_match_the_fixture() {
    // the fixture's 24 corners, in half units, faces ordered
    // top, bottom, right, left, back, forward
    let m = create_unit_cube();
    let expected: [(i64, i64, i64); 24] = [
        (-1, 1, -1), (1, 1, -1), (1, 1, 1), (-1, 1, 1),
        (-1, -1, -1), (1, -1, -1), (1, -1, 1), (-1, -1, 1),
        (1, -1, -1), (1, -1, 1), (1, 1, 1), (1, 1, -1),
        (-1, -1, -1), (-1, -1, 1), (-1, 1, 1), (-1, 1, -1),
        (-1, -1, 1), (-1, 1, 1), (1, 1, 1), (1, -1, 1),
        (-1, -1, -1), (-1, 1, -1), (1, 1, -1), (1, -1, -1),
    ];
    for k in 0..24 {
        let p = &m.positions[k];
        assert_eq!((p.x, p.y, p.z), expected[k], "corner {}", k);
    }
}

#[test]
fn unit_cube_uvs_are_corner_mapped() {
    let m = create_unit_cube();
    let corners: [(i64, i64); 4] = [(0, 0), (1, 0), (1, 1), (0, 1)];
    for k in 0..24 {
        let uv = &m.uvs[k];
        assert_eq!((uv.x, uv.y), corners[k % 4]);
    }
}

#[test]
fn unit_cube_indices_match_the_fixture() {
    let m = create_unit_cube();
    let expected: [u32; 36] = [
        0, 3, 1, 1, 3, 2,
        4, 5, 7, 5, 6, 7,
        8, 11, 9, 9, 11, 10,
        12, 13, 15, 13, 14, 15,
        16, 19, 17, 17, 19, 18,
        20, 21, 23, 21, 22, 23,
    ];
    for j in 0..36 {
        assert_eq!(m.indices[j], expected[j], "index {}", j);
        // each face's six indices reference only its own four vertices
        let face = (j / 6) as u32;
        assert!(4 * face <= m.indices[j] && m.indices[j] < 4 * face + 4);
    }
}

#[test]
fn unit_cube_triangles_wind_counter_clockwise() {
    let m = create_unit_cube();
    for t in 0..12 {
        let i0 = m.indices[3 * t] as usize;
        let i1 = m.indices[3 * t + 1] as usize;
        let i2 = m.indices[3 * t + 2] as usize;
        let e1 = sub(&m.positions[i1], &m.positions[i0]);
        let e2 = sub(&m.positions[i2], &m.positions[i0]);
        let area = cross(e1, e2);
        let outward = dot(area, &m.normals[i0]);
        assert!(outward > 0, "triangle {} winds the wrong way", t);
    }
}
