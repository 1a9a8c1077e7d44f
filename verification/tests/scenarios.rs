use voxel_mesh::coord::VxWorldCoord;
use voxel_mesh::dims::WorldDims;
use voxel_mesh::grid::{CubeTypes, VoxelGrid};
use voxel_mesh::mesh::{build_mesh, build_world, VxChunkMesh};

fn dims(chunk_size: usize, w: usize, h: usize, d: usize) -> WorldDims {
    WorldDims::new(chunk_size, w, h, d).expect("well-formed dimensions")
}

fn grid_with(d: WorldDims, solids: &[((usize, usize, usize), (usize, usize, usize))]) -> VoxelGrid {
    let mut voxels = vec![CubeTypes::Empty; d.grid_len()];
    for &(chunk, cube) in solids {
        let id = VxWorldCoord::new(chunk, cube).get_id(&d);
        voxels[id] = CubeTypes::Dirt;
    }
    VoxelGrid::new(d, voxels).expect("matching length")
}

/// The voxel-type ids of the emitted faces, one entry per quad.
fn quad_types(mesh: &VxChunkMesh) -> Vec<u32> {
    assert_eq!(mesh.vertices_type.len() % 4, 0);
    let mut types = Vec::new();
    for q in 0..mesh.vertices_type.len() / 4 {
        let t = mesh.vertices_type[4 * q];
        for k in 1..4 {
            assert_eq!(mesh.vertices_type[4 * q + k], t);
        }
        types.push(t);
    }
    types
}

#[test]
fn scenario_single_voxel_in_tiny_world() {
    // A 1-chunk world of chunk size 2 with only (0,0,0) solid: all six
    // faces are emitted, and the stencil yields the uniform sample (3,3,3,3)
    // on every face, because every ring sample is void (open air inside the
    // chunk, or beyond the world boundary).
    let d = dims(2, 1, 1, 1);
    let g = grid_with(d, &[((0, 0, 0), (0, 0, 0))]);
    let mesh = VxChunkMesh::new((0, 0, 0), &g);
    assert_eq!(mesh.coord, (0, 0, 0));
    assert_eq!(mesh.vertices_coord.len(), 24);
    assert_eq!(mesh.vertices_order.len(), 36);
    assert_eq!(mesh.uv_coord.len(), 24);
    assert_eq!(mesh.vertices_normal.len(), 24);
    assert_eq!(mesh.vertices_ao, vec![3; 24]);
    // Faces come in the fixed order Top, Bottom, Right, Left, Back, Front.
    assert_eq!(quad_types(&mesh), vec![0, 1, 2, 3, 4, 5]);
    // Quad geometry of the first two faces, centered at the voxel (0,0,0).
    assert_eq!(
        mesh.vertices_coord[0..4],
        [(-1, 1, -1), (1, 1, -1), (1, 1, 1), (-1, 1, 1)]
    );
    assert_eq!(
        mesh.vertices_coord[4..8],
        [(-1, -1, -1), (1, -1, -1), (1, -1, 1), (-1, -1, 1)]
    );
    assert_eq!(mesh.vertices_normal[0..4], [(0, 1, 0); 4]);
    assert_eq!(mesh.vertices_normal[4..8], [(0, -1, 0); 4]);
    // Equal diagonal sums select the second split on every face; the
    // handedness alternates with the face.
    assert_eq!(
        mesh.vertices_order,
        vec![
            0, 3, 1, 2, 1, 3, // Top
            4, 5, 7, 6, 7, 5, // Bottom
            8, 9, 11, 10, 11, 9, // Right
            12, 15, 13, 14, 13, 15, // Left
            16, 17, 19, 18, 19, 17, // Back
            20, 23, 21, 22, 21, 23, // Front
        ]
    );
    // One atlas quad per face, tile (5, 3).
    assert_eq!(mesh.uv_coord[0..4], [(3, 6), (3, 5), (4, 5), (4, 6)]);
    assert_eq!(mesh.uv_coord[20..24], [(3, 6), (3, 5), (4, 5), (4, 6)]);
}

#[test]
fn scenario_shared_face_across_chunk_boundary() {
    // Two solid voxels share a face across the chunk boundary on x: each
    // chunk suppresses exactly that shared face.
    let d = dims(2, 2, 1, 1);
    let g = grid_with(d, &[((0, 0, 0), (1, 0, 0)), ((1, 0, 0), (0, 0, 0))]);
    let mesh0 = VxChunkMesh::new((0, 0, 0), &g);
    let mesh1 = VxChunkMesh::new((1, 0, 0), &g);
    assert_eq!(mesh0.vertices_coord.len(), 20);
    assert_eq!(mesh0.vertices_order.len(), 30);
    assert_eq!(mesh1.vertices_coord.len(), 20);
    assert_eq!(mesh1.vertices_order.len(), 30);
    // The left chunk's voxel loses its Right face (id 2), the right
    // chunk's voxel its Left face (id 3).
    assert_eq!(quad_types(&mesh0), vec![0, 1, 3, 4, 5]);
    assert_eq!(quad_types(&mesh1), vec![0, 1, 2, 4, 5]);
}

#[test]
fn enclosed_voxel_emits_no_faces() {
    // A solid voxel whose six neighbors are all solid contributes nothing;
    // each of the six neighbors shows five faces.
    let d = dims(4, 1, 1, 1);
    let center = ((0, 0, 0), (1, 1, 1));
    let neighbors = [
        ((0, 0, 0), (0, 1, 1)),
        ((0, 0, 0), (2, 1, 1)),
        ((0, 0, 0), (1, 0, 1)),
        ((0, 0, 0), (1, 2, 1)),
        ((0, 0, 0), (1, 1, 0)),
        ((0, 0, 0), (1, 1, 2)),
    ];
    let mut solids = vec![center];
    solids.extend_from_slice(&neighbors);
    let g = grid_with(d, &solids);
    let mesh = VxChunkMesh::new((0, 0, 0), &g);
    assert_eq!(mesh.vertices_coord.len(), 6 * 5 * 4);
    assert_eq!(mesh.vertices_order.len(), 6 * 5 * 6);
}

#[test]
fn isolated_voxels_match_up_to_translation() {
    // Two solitary voxels at different positions in otherwise empty worlds
    // produce identical topology; only the vertex positions differ, by
    // twice the difference of the local coordinates.
    let d = dims(4, 1, 1, 1);
    let g1 = grid_with(d, &[((0, 0, 0), (1, 1, 1))]);
    let g2 = grid_with(d, &[((0, 0, 0), (2, 0, 1))]);
    let m1 = VxChunkMesh::new((0, 0, 0), &g1);
    let m2 = VxChunkMesh::new((0, 0, 0), &g2);
    assert_eq!(m1.uv_coord, m2.uv_coord);
    assert_eq!(m1.vertices_normal, m2.vertices_normal);
    assert_eq!(m1.vertices_order, m2.vertices_order);
    assert_eq!(m1.vertices_type, m2.vertices_type);
    assert_eq!(m1.vertices_ao, m2.vertices_ao);
    assert_eq!(m1.vertices_coord.len(), 24);
    assert_eq!(m2.vertices_coord.len(), 24);
    let (tx, ty, tz) = (2 * (1 - 2), 2 * (1 - 0), 2 * (1 - 1));
    for i in 0..24 {
        let p1 = m1.vertices_coord[i];
        let p2 = m2.vertices_coord[i];
        assert_eq!(p1, (p2.0 + tx, p2.1 + ty, p2.2 + tz));
    }
}

#[test]
fn building_twice_is_deterministic() {
    let d = dims(2, 2, 1, 2);
    let g = grid_with(
        d,
        &[
            ((0, 0, 0), (0, 0, 0)),
            ((0, 0, 0), (1, 1, 1)),
            ((1, 0, 1), (0, 1, 0)),
        ],
    );
    let m1 = build_mesh(&g, &(0, 0, 0));
    let m2 = build_mesh(&g, &(0, 0, 0));
    assert_eq!(m1, m2);
    let w1 = build_world(&g);
    let w2 = build_world(&g);
    assert_eq!(w1, w2);
}

#[test]
fn world_builder_walks_chunks_in_order() {
    let d = dims(2, 2, 2, 2);
    let g = grid_with(d, &[((1, 1, 0), (0, 0, 0))]);
    let world = build_world(&g);
    assert_eq!(world.len(), 8);
    let coords: Vec<(usize, usize, usize)> = world.iter().map(|m| m.coord).collect();
    assert_eq!(
        coords,
        vec![
            (0, 0, 0),
            (1, 0, 0),
            (0, 0, 1),
            (1, 0, 1),
            (0, 1, 0),
            (1, 1, 0),
            (0, 1, 1),
            (1, 1, 1),
        ]
    );
    for mesh in &world {
        if mesh.coord == (1, 1, 0) {
            assert_eq!(mesh.vertices_coord.len(), 24);
        } else {
            assert_eq!(mesh.vertices_coord.len(), 0);
            assert_eq!(mesh.vertices_order.len(), 0);
        }
    }
}
