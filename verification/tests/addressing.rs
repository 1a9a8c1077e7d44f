use voxel_mesh::coord::VxWorldCoord;
use voxel_mesh::dims::WorldDims;
use voxel_mesh::grid::{get_cube_type, is_void, CubeTypes, VoxelGrid};

fn dims(chunk_size: usize, w: usize, h: usize, d: usize) -> WorldDims {
    WorldDims::new(chunk_size, w, h, d).expect("well-formed dimensions")
}

fn empty_grid(d: WorldDims) -> VoxelGrid {
    let voxels = vec![CubeTypes::Empty; d.grid_len()];
    VoxelGrid::new(d, voxels).expect("matching length")
}

fn grid_with(d: WorldDims, solids: &[((usize, usize, usize), (usize, usize, usize))]) -> VoxelGrid {
    let mut voxels = vec![CubeTypes::Empty; d.grid_len()];
    for &(chunk, cube) in solids {
        let id = VxWorldCoord::new(chunk, cube).get_id(&d);
        voxels[id] = CubeTypes::Dirt;
    }
    VoxelGrid::new(d, voxels).expect("matching length")
}

#[test]
fn dims_accepts_well_formed() {
    let d = dims(2, 3, 4, 5);
    assert_eq!(d.chunk_size, 2);
    assert_eq!(d.world_w, 3);
    assert_eq!(d.world_h, 4);
    assert_eq!(d.world_d, 5);
    assert_eq!(d.grid_len(), 3 * 5 * 4 * 8);
    assert_eq!(d.chunk_count(), 60);
}

#[test]
fn dims_rejects_zero_and_oversize() {
    assert!(WorldDims::new(0, 1, 1, 1).is_none());
    assert!(WorldDims::new(257, 1, 1, 1).is_none());
    assert!(WorldDims::new(2, 0, 1, 1).is_none());
    assert!(WorldDims::new(2, 1, 0, 1).is_none());
    assert!(WorldDims::new(2, 1, 1, 0).is_none());
    assert!(WorldDims::new(256, usize::MAX, 1, 1).is_none());
}

#[test]
fn grid_checks_length() {
    let d = dims(2, 1, 1, 1);
    assert!(VoxelGrid::new(d, vec![CubeTypes::Empty; 8]).is_some());
    assert!(VoxelGrid::new(d, vec![CubeTypes::Empty; 7]).is_none());
    assert!(VoxelGrid::new(d, vec![]).is_none());
}

#[test]
fn flat_index_formula() {
    let d = dims(2, 2, 2, 2);
    // chunk (1, 0, 1), cube (1, 0, 1):
    // x part: 1 * 8 + 1, y part: 0, z part: 1 * 2 * 8 + 1 * 2.
    let id = VxWorldCoord::new((1, 0, 1), (1, 0, 1)).get_id(&d);
    assert_eq!(id, 27);
    assert_eq!(VxWorldCoord::new((0, 0, 0), (0, 0, 0)).get_id(&d), 0);
    assert_eq!(VxWorldCoord::new((0, 0, 0), (1, 0, 0)).get_id(&d), 1);
    assert_eq!(VxWorldCoord::new((1, 0, 0), (0, 0, 0)).get_id(&d), 8);
    assert_eq!(VxWorldCoord::new((0, 0, 0), (0, 1, 0)).get_id(&d), 4);
    assert_eq!(VxWorldCoord::new((0, 0, 1), (0, 0, 0)).get_id(&d), 16);
    assert_eq!(VxWorldCoord::new((0, 1, 0), (0, 0, 0)).get_id(&d), 32);
}

#[test]
fn flat_index_no_collisions_in_small_world() {
    let d = dims(2, 2, 2, 2);
    let mut seen = vec![false; d.grid_len()];
    for cx in 0..2 {
        for cy in 0..2 {
            for cz in 0..2 {
                for lx in 0..2 {
                    for ly in 0..2 {
                        for lz in 0..2 {
                            let id =
                                VxWorldCoord::new((cx, cy, cz), (lx, ly, lz)).get_id(&d);
                            assert!(id < d.grid_len());
                            assert!(!seen[id], "flat index collision at {}", id);
                            seen[id] = true;
                        }
                    }
                }
            }
        }
    }
    assert!(seen.iter().all(|&b| b));
}

#[test]
fn step_stays_inside_chunk() {
    let d = dims(4, 2, 2, 2);
    let a = VxWorldCoord::new((0, 0, 0), (1, 1, 1));
    let b = a
        .move_direction(&(1, 0, -1), &d)
        .expect("step inside the chunk");
    assert_eq!(b, VxWorldCoord::new((0, 0, 0), (2, 1, 0)));
}

#[test]
fn step_carries_across_chunk_boundary() {
    let d = dims(4, 2, 2, 2);
    let a = VxWorldCoord::new((0, 1, 1), (3, 2, 0));
    let b = a.move_direction(&(1, -1, 1), &d).expect("step crosses x");
    assert_eq!(b, VxWorldCoord::new((1, 1, 1), (0, 1, 1)));
    let c = VxWorldCoord::new((1, 0, 0), (0, 0, 0))
        .move_direction(&(-1, 0, 0), &d)
        .expect("step back into chunk 0");
    assert_eq!(c, VxWorldCoord::new((0, 0, 0), (3, 0, 0)));
}

#[test]
fn step_fails_at_world_edge() {
    let d = dims(4, 2, 2, 2);
    assert!(VxWorldCoord::new((0, 0, 0), (0, 0, 0))
        .move_direction(&(-1, 0, 0), &d)
        .is_none());
    assert!(VxWorldCoord::new((0, 0, 0), (0, 0, 0))
        .move_direction(&(0, -1, 0), &d)
        .is_none());
    assert!(VxWorldCoord::new((1, 1, 1), (3, 3, 3))
        .move_direction(&(0, 0, 1), &d)
        .is_none());
    // One axis leaving the world fails the whole step.
    assert!(VxWorldCoord::new((0, 0, 0), (1, 0, 1))
        .move_direction(&(1, -1, 1), &d)
        .is_none());
}

#[test]
fn step_roundtrip_concrete() {
    let d = dims(4, 2, 2, 2);
    let starts = [
        ((0usize, 0usize, 0usize), (0usize, 0usize, 0usize)),
        ((0, 1, 1), (3, 2, 0)),
        ((1, 0, 1), (0, 3, 3)),
    ];
    let dirs: [(i8, i8, i8); 5] = [(1, 0, 0), (0, 1, 0), (0, 0, 1), (1, -1, 1), (-1, -1, -1)];
    for &(chunk, cube) in &starts {
        let a = VxWorldCoord::new(chunk, cube);
        for &(dx, dy, dz) in &dirs {
            if let Some(b) = a.move_direction(&(dx, dy, dz), &d) {
                let back = b
                    .move_direction(&(-dx, -dy, -dz), &d)
                    .expect("the inverse step stays inside the world");
                assert_eq!(back, a);
            }
        }
    }
}

#[test]
fn void_test_reads_neighbors_and_boundary() {
    let d = dims(2, 2, 1, 1);
    let g = grid_with(d, &[((0, 0, 0), (1, 0, 0)), ((1, 0, 0), (0, 0, 0))]);
    let a = VxWorldCoord::new((0, 0, 0), (1, 0, 0));
    assert_eq!(get_cube_type(&g, &a), CubeTypes::Dirt);
    // The +x neighbor sits in the next chunk and is solid.
    assert!(!is_void(&g, &a, &(1, 0, 0)));
    // The -y neighbor leaves the world: void.
    assert!(is_void(&g, &a, &(0, -1, 0)));
    // The +y neighbor is inside the world and empty: void.
    assert!(is_void(&g, &a, &(0, 1, 0)));
    let empty = empty_grid(d);
    assert_eq!(
        get_cube_type(&empty, &a),
        CubeTypes::Empty
    );
}
