use voxel_mesh::ao::get_ao;
use voxel_mesh::coord::VxWorldCoord;
use voxel_mesh::dims::WorldDims;
use voxel_mesh::face::FaceType;
use voxel_mesh::grid::{CubeTypes, VoxelGrid};
use voxel_mesh::mesh::{add_face, map_texture, VxChunkMesh};

fn dims(chunk_size: usize, w: usize, h: usize, d: usize) -> WorldDims {
    WorldDims::new(chunk_size, w, h, d).expect("well-formed dimensions")
}

fn grid_with(d: WorldDims, solids: &[((usize, usize, usize), (usize, usize, usize))]) -> VoxelGrid {
    let mut voxels = vec![CubeTypes::Empty; d.grid_len()];
    for &(chunk, cube) in solids {
        let id = VxWorldCoord::new(chunk, cube).get_id(&d);
        voxels[id] = CubeTypes::Dirt;
    }
    VoxelGrid::new(d, voxels).expect("matching length")
}

fn empty_mesh() -> VxChunkMesh {
    VxChunkMesh {
        coord: (0, 0, 0),
        vertices_coord: Vec::new(),
        uv_coord: Vec::new(),
        vertices_normal: Vec::new(),
        vertices_order: Vec::new(),
        vertices_type: Vec::new(),
        vertices_ao: Vec::new(),
    }
}

#[test]
fn atlas_quad_numerators() {
    let mut uv: Vec<(u32, u32)> = Vec::new();
    map_texture(&mut uv, 5, 3);
    assert_eq!(uv, vec![(3, 6), (3, 5), (4, 5), (4, 6)]);
    // A tile outside the 32x32 atlas appends nothing.
    map_texture(&mut uv, 32, 0);
    map_texture(&mut uv, 0, 32);
    assert_eq!(uv.len(), 4);
}

#[test]
fn face_emitter_appends_one_quad() {
    let mut mesh = empty_mesh();
    add_face(&mut mesh, FaceType::Top, (3, 3, 3, 3), &CubeTypes::Dirt, (1, 2, 3));
    assert_eq!(
        mesh.vertices_coord,
        vec![(1, 5, 5), (3, 5, 5), (3, 5, 7), (1, 5, 7)]
    );
    assert_eq!(mesh.vertices_normal, vec![(0, 1, 0); 4]);
    assert_eq!(mesh.vertices_type, vec![0; 4]);
    assert_eq!(mesh.vertices_ao, vec![3, 3, 3, 3]);
    assert_eq!(mesh.uv_coord, vec![(3, 6), (3, 5), (4, 5), (4, 6)]);
    // Equal diagonal sums choose the second split; Top uses the mirrored
    // handedness.
    assert_eq!(mesh.vertices_order, vec![0, 3, 1, 2, 1, 3]);
}

#[test]
fn face_emitter_winding_follows_occlusion() {
    // Less occlusion on the 1-3 diagonal flips the split.
    let mut a = empty_mesh();
    add_face(&mut a, FaceType::Top, (1, 0, 1, 0), &CubeTypes::Dirt, (0, 0, 0));
    assert_eq!(a.vertices_order, vec![0, 3, 2, 2, 1, 0]);
    let mut b = empty_mesh();
    add_face(&mut b, FaceType::Top, (0, 1, 0, 1), &CubeTypes::Dirt, (0, 0, 0));
    assert_eq!(b.vertices_order, vec![0, 3, 1, 2, 1, 3]);
    // Right uses the other handedness.
    let mut c = empty_mesh();
    add_face(&mut c, FaceType::Right, (1, 0, 1, 0), &CubeTypes::Dirt, (0, 0, 0));
    assert_eq!(c.vertices_order, vec![0, 1, 2, 2, 3, 0]);
    let mut e = empty_mesh();
    add_face(&mut e, FaceType::Right, (0, 1, 0, 1), &CubeTypes::Dirt, (0, 0, 0));
    assert_eq!(e.vertices_order, vec![0, 1, 3, 2, 3, 1]);
}

#[test]
fn face_emitter_offsets_build_on_existing_vertices() {
    let mut mesh = empty_mesh();
    add_face(&mut mesh, FaceType::Top, (3, 3, 3, 3), &CubeTypes::Dirt, (0, 0, 0));
    add_face(&mut mesh, FaceType::Bottom, (3, 3, 3, 3), &CubeTypes::Dirt, (0, 0, 0));
    assert_eq!(mesh.vertices_coord.len(), 8);
    // Bottom belongs to the Right/Bottom/Back handedness.
    assert_eq!(
        mesh.vertices_order[6..12],
        [4, 5, 7, 6, 7, 5]
    );
}

#[test]
fn ao_boundary_face_is_uniform_maximal() {
    let d = dims(4, 1, 1, 1);
    let g = grid_with(d, &[((0, 0, 0), (0, 2, 2))]);
    let a = VxWorldCoord::new((0, 0, 0), (0, 2, 2));
    // The -x neighbor lies beyond the world boundary.
    assert_eq!(get_ao(&g, &a, FaceType::Left), (3, 3, 3, 3));
}

#[test]
fn ao_open_air_counts_every_ring_sample() {
    let d = dims(4, 1, 1, 1);
    let g = grid_with(d, &[((0, 0, 0), (1, 1, 1))]);
    let a = VxWorldCoord::new((0, 0, 0), (1, 1, 1));
    // Every ring sample around every face neighbor is void.
    assert_eq!(get_ao(&g, &a, FaceType::Top), (3, 3, 3, 3));
    assert_eq!(get_ao(&g, &a, FaceType::Right), (3, 3, 3, 3));
    assert_eq!(get_ao(&g, &a, FaceType::Back), (3, 3, 3, 3));
}

#[test]
fn ao_stencil_charges_the_touched_corners() {
    let d = dims(4, 1, 1, 1);
    // A solid voxel at (1,1,1); its Top face samples the ring around
    // (1,2,1) in the x-z plane.  A second solid at (1,2,0) occupies ring
    // position a, which contributes to corners 0 and 1.
    let g = grid_with(d, &[((0, 0, 0), (1, 1, 1)), ((0, 0, 0), (1, 2, 0))]);
    let a = VxWorldCoord::new((0, 0, 0), (1, 1, 1));
    assert_eq!(get_ao(&g, &a, FaceType::Top), (2, 2, 3, 3));
    // A solid at (0,2,1) occupies ring position c instead: corners 0 and 3.
    let g2 = grid_with(d, &[((0, 0, 0), (1, 1, 1)), ((0, 0, 0), (0, 2, 1))]);
    assert_eq!(get_ao(&g2, &a, FaceType::Top), (2, 3, 3, 2));
    // A diagonal solid at (0,2,0) occupies ring position b: corner 0 only.
    let g3 = grid_with(d, &[((0, 0, 0), (1, 1, 1)), ((0, 0, 0), (0, 2, 0))]);
    assert_eq!(get_ao(&g3, &a, FaceType::Top), (2, 3, 3, 3));
}
