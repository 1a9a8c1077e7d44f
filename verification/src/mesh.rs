//! Chunk mesh assembly: the per-chunk output buffers, the face emitter, and
//! the builders that walk one chunk, respectively the whole world.
//!
//! Vertex positions are exact integers in half-voxel units relative to the
//! chunk origin (a voxel center sits at twice its local coordinate, a cube
//! corner one half-unit away on each axis); normals are unit integer
//! vectors; texture coordinates are numerators over the 32x32 atlas grid.

use crate::ao::{get_ao, spec_ao};
use crate::coord::VxWorldCoord;
use crate::dims::MAX_CHUNK_SIZE;
use crate::face::{face_corner, face_winding, FaceType};
use crate::grid::{get_cube_type, is_void, CubeTypes, VoxelGrid};
use vstd::prelude::*;

verus! {

/// The buffers of one chunk mesh: positions, texture coordinates, normals,
/// a triangle index list, a voxel-type id per vertex, and an
/// ambient-occlusion value per vertex.
#[derive(Debug, PartialEq, Eq)]
pub struct VxChunkMesh {
    /// The chunk coordinate the mesh was built for.
    pub coord: (usize, usize, usize),
    /// Vertex positions, half-voxel units, relative to the chunk origin.
    pub vertices_coord: Vec<(i32, i32, i32)>,
    /// Texture coordinates, numerators over the 32x32 atlas grid.
    pub uv_coord: Vec<(u32, u32)>,
    /// Unit normal vector per vertex.
    pub vertices_normal: Vec<(i32, i32, i32)>,
    /// Triangle index list: three vertex indices per triangle.
    pub vertices_order: Vec<u32>,
    /// Voxel-type id per vertex.
    pub vertices_type: Vec<u32>,
    /// Ambient-occlusion value per vertex.
    pub vertices_ao: Vec<u32>,
}

/// The mathematical content of the six buffers, as unbounded integers.
#[verifier::ext_equal]
pub ghost struct MeshData {
    /// Vertex positions, half-voxel units.
    pub vertices_coord: Seq<(int, int, int)>,
    /// Texture coordinates, atlas-grid numerators.
    pub uv_coord: Seq<(int, int)>,
    /// Unit normal per vertex.
    pub vertices_normal: Seq<(int, int, int)>,
    /// Triangle index list.
    pub vertices_order: Seq<int>,
    /// Voxel-type id per vertex.
    pub vertices_type: Seq<int>,
    /// Ambient-occlusion value per vertex.
    pub vertices_ao: Seq<int>,
}

/// The integer content of one integer triple.
pub open spec fn tri_val(p: (i32, i32, i32)) -> (int, int, int) {
    (p.0 as int, p.1 as int, p.2 as int)
}

/// The integer content of a sequence of integer triples.
pub open spec fn tri_view(s: Seq<(i32, i32, i32)>) -> Seq<(int, int, int)> {
    s.map_values(|p: (i32, i32, i32)| tri_val(p))
}

/// The integer content of a sequence of integer pairs.
pub open spec fn pair_view(s: Seq<(u32, u32)>) -> Seq<(int, int)> {
    s.map_values(|p: (u32, u32)| (p.0 as int, p.1 as int))
}

/// The integer content of a sequence of machine integers.
pub open spec fn nums_view(s: Seq<u32>) -> Seq<int> {
    s.map_values(|v: u32| v as int)
}

impl View for VxChunkMesh {
    type V = MeshData;

    open spec fn view(&self) -> MeshData {
        MeshData {
            vertices_coord: tri_view(self.vertices_coord@),
            uv_coord: pair_view(self.uv_coord@),
            vertices_normal: tri_view(self.vertices_normal@),
            vertices_order: nums_view(self.vertices_order@),
            vertices_type: nums_view(self.vertices_type@),
            vertices_ao: nums_view(self.vertices_ao@),
        }
    }
}

impl MeshData {
    /// Buffers with nothing emitted yet.
    pub open spec fn empty() -> MeshData {
        MeshData {
            vertices_coord: Seq::empty(),
            uv_coord: Seq::empty(),
            vertices_normal: Seq::empty(),
            vertices_order: Seq::empty(),
            vertices_type: Seq::empty(),
            vertices_ao: Seq::empty(),
        }
    }

    /// The buffers agree in shape: one entry of every per-vertex buffer per
    /// vertex, four vertices per face, six index entries per face.
    pub open spec fn counts_ok(self) -> bool {
        &&& self.vertices_coord.len() % 4 == 0
        &&& self.uv_coord.len() == self.vertices_coord.len()
        &&& self.vertices_normal.len() == self.vertices_coord.len()
        &&& self.vertices_type.len() == self.vertices_coord.len()
        &&& self.vertices_ao.len() == self.vertices_coord.len()
        &&& self.vertices_order.len() * 4 == self.vertices_coord.len() * 6
    }
}

proof fn lemma_tri_append4(
    s: Seq<(i32, i32, i32)>,
    a: (i32, i32, i32),
    b: (i32, i32, i32),
    c: (i32, i32, i32),
    d: (i32, i32, i32),
)
    ensures
        tri_view(s.push(a).push(b).push(c).push(d)) == tri_view(s) + seq![
            tri_val(a),
            tri_val(b),
            tri_val(c),
            tri_val(d),
        ],
{
    assert(tri_view(s.push(a).push(b).push(c).push(d)) =~= tri_view(s) + seq![
        tri_val(a),
        tri_val(b),
        tri_val(c),
        tri_val(d),
    ]);
}

proof fn lemma_nums_append4(s: Seq<u32>, a: u32, b: u32, c: u32, d: u32)
    ensures
        nums_view(s.push(a).push(b).push(c).push(d)) == nums_view(s) + seq![
            a as int,
            b as int,
            c as int,
            d as int,
        ],
{
    assert(nums_view(s.push(a).push(b).push(c).push(d)) =~= nums_view(s) + seq![
        a as int,
        b as int,
        c as int,
        d as int,
    ]);
}

proof fn lemma_nums_append6(s: Seq<u32>, e0: u32, e1: u32, e2: u32, e3: u32, e4: u32, e5: u32)
    ensures
        nums_view(s.push(e0).push(e1).push(e2).push(e3).push(e4).push(e5)) == nums_view(s) + seq![
            e0 as int,
            e1 as int,
            e2 as int,
            e3 as int,
            e4 as int,
            e5 as int,
        ],
{
    assert(nums_view(s.push(e0).push(e1).push(e2).push(e3).push(e4).push(e5)) =~= nums_view(s)
        + seq![e0 as int, e1 as int, e2 as int, e3 as int, e4 as int, e5 as int]);
}

/// The atlas tile of a voxel material, as (row, column) in the 32x32 grid.
/// Dirt uses the one fixed tile of the current domain on all six faces.
pub open spec fn atlas_tile(kind: CubeTypes) -> (int, int) {
    match kind {
        CubeTypes::Dirt => (5, 3),
        CubeTypes::Empty => (0, 0),
    }
}

/// The four texture coordinates of a face quad reading tile
/// `(row, col)` of the atlas, as numerators over 32, in vertex order.
pub open spec fn spec_uv_quad(row: int, col: int) -> Seq<(int, int)> {
    seq![(col, row + 1), (col, row), (col + 1, row), (col + 1, row + 1)]
}

/// Corner `k` of face `f` of the voxel at local coordinate `(x, y, z)`, in
/// half-voxel units relative to the chunk origin.
pub open spec fn spec_corner_pos(f: FaceType, k: int, x: int, y: int, z: int) -> (int, int, int) {
    let c = face_corner(f, k);
    (2 * x + c.0, 2 * y + c.1, 2 * z + c.2)
}

/// The four vertex positions of face `f` of the voxel at `(x, y, z)`, in
/// emission order.
pub open spec fn spec_face_vertices(f: FaceType, x: int, y: int, z: int) -> Seq<(int, int, int)> {
    seq![
        spec_corner_pos(f, 0, x, y, z),
        spec_corner_pos(f, 1, x, y, z),
        spec_corner_pos(f, 2, x, y, z),
        spec_corner_pos(f, 3, x, y, z),
    ]
}

/// What emitting one face appends to the buffers: four vertices at the
/// face's corner positions, the face normal and type id and the matching
/// ambient-occlusion corner value once per vertex, the material's atlas
/// quad, and six triangle indices based at the previous vertex count with
/// the occlusion-driven winding.
pub open spec fn spec_add_face(
    m: MeshData,
    f: FaceType,
    ao: (int, int, int, int),
    kind: CubeTypes,
    x: int,
    y: int,
    z: int,
) -> MeshData {
    let off = m.vertices_coord.len() as int;
    MeshData {
        vertices_coord: m.vertices_coord + spec_face_vertices(f, x, y, z),
        uv_coord: m.uv_coord + spec_uv_quad(atlas_tile(kind).0, atlas_tile(kind).1),
        vertices_normal: m.vertices_normal + seq![
            f.spec_offset(),
            f.spec_offset(),
            f.spec_offset(),
            f.spec_offset(),
        ],
        vertices_order: m.vertices_order + face_winding(f, ao).map_values(|i: int| off + i),
        vertices_type: m.vertices_type + seq![
            f.spec_type_id(),
            f.spec_type_id(),
            f.spec_type_id(),
            f.spec_type_id(),
        ],
        vertices_ao: m.vertices_ao + seq![ao.0, ao.1, ao.2, ao.3],
    }
}

/// Appends the four texture coordinates of atlas tile
/// `(coord_x, coord_y)` (row, column) when the tile lies inside the 32x32
/// grid, and appends nothing otherwise.
pub fn map_texture(uv_coord: &mut Vec<(u32, u32)>, coord_x: u32, coord_y: u32)
    ensures
        pair_view(final(uv_coord)@) == if coord_x < 32 && coord_y < 32 {
            pair_view(old(uv_coord)@) + spec_uv_quad(coord_x as int, coord_y as int)
        } else {
            pair_view(old(uv_coord)@)
        },
{
    if coord_x < 32 && coord_y < 32 {
        let (x, y) = (coord_x, coord_y);
        uv_coord.push((y, x + 1));
        uv_coord.push((y, x));
        uv_coord.push((y + 1, x));
        uv_coord.push((y + 1, x + 1));
        proof {
            assert(pair_view(uv_coord@) =~= pair_view(old(uv_coord)@) + spec_uv_quad(
                coord_x as int,
                coord_y as int,
            ));
        }
    }
}

/// Emits one face of a solid voxel into the chunk buffers.  Calling this
/// for an empty voxel is a caller bug, excluded by contract.
pub fn add_face(
    mesh: &mut VxChunkMesh,
    face_type: FaceType,
    face_ao: (u32, u32, u32, u32),
    cube_type: &CubeTypes,
    cube_coord: (usize, usize, usize),
)
    requires
        *cube_type != CubeTypes::Empty,
        old(mesh).vertices_coord@.len() + 4 <= u32::MAX,
        cube_coord.0 < MAX_CHUNK_SIZE,
        cube_coord.1 < MAX_CHUNK_SIZE,
        cube_coord.2 < MAX_CHUNK_SIZE,
        face_ao.0 <= 3,
        face_ao.1 <= 3,
        face_ao.2 <= 3,
        face_ao.3 <= 3,
    ensures
        final(mesh)@ == spec_add_face(
            old(mesh)@,
            face_type,
            (face_ao.0 as int, face_ao.1 as int, face_ao.2 as int, face_ao.3 as int),
            *cube_type,
            cube_coord.0 as int,
            cube_coord.1 as int,
            cube_coord.2 as int,
        ),
        final(mesh).coord == old(mesh).coord,
{
    let x2: i32 = 2 * (cube_coord.0 as i32);
    let y2: i32 = 2 * (cube_coord.1 as i32);
    let z2: i32 = 2 * (cube_coord.2 as i32);
    let v0: (i32, i32, i32);
    let v1: (i32, i32, i32);
    let v2: (i32, i32, i32);
    let v3: (i32, i32, i32);
    let normal: (i32, i32, i32);
    let v_type: u32;
    match face_type {
        FaceType::Top => {
            v0 = (x2 - 1, y2 + 1, z2 - 1);
            v1 = (x2 + 1, y2 + 1, z2 - 1);
            v2 = (x2 + 1, y2 + 1, z2 + 1);
            v3 = (x2 - 1, y2 + 1, z2 + 1);
            normal = (0, 1, 0);
            v_type = 0;
        },
        FaceType::Bottom => {
            v0 = (x2 - 1, y2 - 1, z2 - 1);
            v1 = (x2 + 1, y2 - 1, z2 - 1);
            v2 = (x2 + 1, y2 - 1, z2 + 1);
            v3 = (x2 - 1, y2 - 1, z2 + 1);
            normal = (0, -1, 0);
            v_type = 1;
        },
        FaceType::Right => {
            v0 = (x2 + 1, y2 - 1, z2 - 1);
            v1 = (x2 + 1, y2 + 1, z2 - 1);
            v2 = (x2 + 1, y2 + 1, z2 + 1);
            v3 = (x2 + 1, y2 - 1, z2 + 1);
            normal = (1, 0, 0);
            v_type = 2;
        },
        FaceType::Left => {
            v0 = (x2 - 1, y2 - 1, z2 - 1);
            v1 = (x2 - 1, y2 + 1, z2 - 1);
            v2 = (x2 - 1, y2 + 1, z2 + 1);
            v3 = (x2 - 1, y2 - 1, z2 + 1);
            normal = (-1, 0, 0);
            v_type = 3;
        },
        FaceType::Back => {
            v0 = (x2 - 1, y2 - 1, z2 + 1);
            v1 = (x2 + 1, y2 - 1, z2 + 1);
            v2 = (x2 + 1, y2 + 1, z2 + 1);
            v3 = (x2 - 1, y2 + 1, z2 + 1);
            normal = (0, 0, 1);
            v_type = 4;
        },
        FaceType::Front => {
            v0 = (x2 - 1, y2 - 1, z2 - 1);
            v1 = (x2 + 1, y2 - 1, z2 - 1);
            v2 = (x2 + 1, y2 + 1, z2 - 1);
            v3 = (x2 - 1, y2 + 1, z2 - 1);
            normal = (0, 0, -1);
            v_type = 5;
        },
    }
    let ghost gx = cube_coord.0 as int;
    let ghost gy = cube_coord.1 as int;
    let ghost gz = cube_coord.2 as int;
    proof {
        assert((v0.0 as int, v0.1 as int, v0.2 as int) == spec_corner_pos(face_type, 0, gx, gy, gz));
        assert((v1.0 as int, v1.1 as int, v1.2 as int) == spec_corner_pos(face_type, 1, gx, gy, gz));
        assert((v2.0 as int, v2.1 as int, v2.2 as int) == spec_corner_pos(face_type, 2, gx, gy, gz));
        assert((v3.0 as int, v3.1 as int, v3.2 as int) == spec_corner_pos(face_type, 3, gx, gy, gz));
        assert((normal.0 as int, normal.1 as int, normal.2 as int) == face_type.spec_offset());
        assert(v_type as int == face_type.spec_type_id());
    }
    let ghost ao_int = (face_ao.0 as int, face_ao.1 as int, face_ao.2 as int, face_ao.3 as int);
    let ghost off0 = old(mesh)@.vertices_coord.len() as int;
    let ghost order0 = mesh.vertices_order@;
    let offset = mesh.vertices_coord.len() as u32;
    proof {
        assert(off0 == offset as int);
    }
    mesh.vertices_type.push(v_type);
    mesh.vertices_coord.push(v0);
    mesh.vertices_normal.push(normal);
    mesh.vertices_type.push(v_type);
    mesh.vertices_coord.push(v1);
    mesh.vertices_normal.push(normal);
    mesh.vertices_type.push(v_type);
    mesh.vertices_coord.push(v2);
    mesh.vertices_normal.push(normal);
    mesh.vertices_type.push(v_type);
    mesh.vertices_coord.push(v3);
    mesh.vertices_normal.push(normal);
    proof {
        lemma_tri_append4(old(mesh).vertices_coord@, v0, v1, v2, v3);
        lemma_tri_append4(old(mesh).vertices_normal@, normal, normal, normal, normal);
        lemma_nums_append4(old(mesh).vertices_type@, v_type, v_type, v_type, v_type);
        assert(tri_view(mesh.vertices_coord@) == tri_view(old(mesh).vertices_coord@)
            + spec_face_vertices(face_type, gx, gy, gz));
        assert(tri_view(mesh.vertices_normal@) == tri_view(old(mesh).vertices_normal@) + seq![
            face_type.spec_offset(),
            face_type.spec_offset(),
            face_type.spec_offset(),
            face_type.spec_offset(),
        ]);
        assert(nums_view(mesh.vertices_type@) == nums_view(old(mesh).vertices_type@) + seq![
            face_type.spec_type_id(),
            face_type.spec_type_id(),
            face_type.spec_type_id(),
            face_type.spec_type_id(),
        ]);
    }
    if face_type == FaceType::Right || face_type == FaceType::Bottom || face_type
        == FaceType::Back {
        if face_ao.1 + face_ao.3 < face_ao.0 + face_ao.2 {
            mesh.vertices_order.push(offset);
            mesh.vertices_order.push(offset + 1);
            mesh.vertices_order.push(offset + 2);
            mesh.vertices_order.push(offset + 2);
            mesh.vertices_order.push(offset + 3);
            mesh.vertices_order.push(offset);
            proof {
                lemma_nums_append6(
                    order0,
                    offset,
                    (offset + 1) as u32,
                    (offset + 2) as u32,
                    (offset + 2) as u32,
                    (offset + 3) as u32,
                    offset,
                );
                assert(face_winding(face_type, ao_int).map_values(|i: int| off0 + i) =~= seq![
                    off0,
                    off0 + 1,
                    off0 + 2,
                    off0 + 2,
                    off0 + 3,
                    off0,
                ]);
            }
        } else {
            mesh.vertices_order.push(offset);
            mesh.vertices_order.push(offset + 1);
            mesh.vertices_order.push(offset + 3);
            mesh.vertices_order.push(offset + 2);
            mesh.vertices_order.push(offset + 3);
            mesh.vertices_order.push(offset + 1);
            proof {
                lemma_nums_append6(
                    order0,
                    offset,
                    (offset + 1) as u32,
                    (offset + 3) as u32,
                    (offset + 2) as u32,
                    (offset + 3) as u32,
                    (offset + 1) as u32,
                );
                assert(face_winding(face_type, ao_int).map_values(|i: int| off0 + i) =~= seq![
                    off0,
                    off0 + 1,
                    off0 + 3,
                    off0 + 2,
                    off0 + 3,
                    off0 + 1,
                ]);
            }
        }
    } else {
        if face_ao.1 + face_ao.3 < face_ao.0 + face_ao.2 {
            mesh.vertices_order.push(offset);
            mesh.vertices_order.push(offset + 3);
            mesh.vertices_order.push(offset + 2);
            mesh.vertices_order.push(offset + 2);
            mesh.vertices_order.push(offset + 1);
            mesh.vertices_order.push(offset);
            proof {
                lemma_nums_append6(
                    order0,
                    offset,
                    (offset + 3) as u32,
                    (offset + 2) as u32,
                    (offset + 2) as u32,
                    (offset + 1) as u32,
                    offset,
                );
                assert(face_winding(face_type, ao_int).map_values(|i: int| off0 + i) =~= seq![
                    off0,
                    off0 + 3,
                    off0 + 2,
                    off0 + 2,
                    off0 + 1,
                    off0,
                ]);
            }
        } else {
            mesh.vertices_order.push(offset);
            mesh.vertices_order.push(offset + 3);
            mesh.vertices_order.push(offset + 1);
            mesh.vertices_order.push(offset + 2);
            mesh.vertices_order.push(offset + 1);
            mesh.vertices_order.push(offset + 3);
            proof {
                lemma_nums_append6(
                    order0,
                    offset,
                    (offset + 3) as u32,
                    (offset + 1) as u32,
                    (offset + 2) as u32,
                    (offset + 1) as u32,
                    (offset + 3) as u32,
                );
                assert(face_winding(face_type, ao_int).map_values(|i: int| off0 + i) =~= seq![
                    off0,
                    off0 + 3,
                    off0 + 1,
                    off0 + 2,
                    off0 + 1,
                    off0 + 3,
                ]);
            }
        }
    }
    proof {
        assert(nums_view(mesh.vertices_order@) == nums_view(order0) + face_winding(
            face_type,
            ao_int,
        ).map_values(|i: int| off0 + i));
    }
    let ghost ao0 = mesh.vertices_ao@;
    mesh.vertices_ao.push(face_ao.0);
    mesh.vertices_ao.push(face_ao.1);
    mesh.vertices_ao.push(face_ao.2);
    mesh.vertices_ao.push(face_ao.3);
    proof {
        lemma_nums_append4(ao0, face_ao.0, face_ao.1, face_ao.2, face_ao.3);
    }
    match cube_type {
        CubeTypes::Dirt => {
            map_texture(&mut mesh.uv_coord, 5, 3);
        },
        CubeTypes::Empty => {},
    }
    proof {
        let spec_result = spec_add_face(old(mesh)@, face_type, ao_int, *cube_type, gx, gy, gz);
        assert(mesh@ =~= spec_result);
    }
}

/// The address of the voxel at local coordinate `(x, y, z)` of chunk `c`.
pub open spec fn cell_addr(c: (usize, usize, usize), x: int, y: int, z: int) -> VxWorldCoord {
    VxWorldCoord { chunk_coord: c, cube_coord: (x as usize, y as usize, z as usize) }
}

/// Whether face `f` of the voxel at address `a` is visible: its outward
/// neighbor slot is void (empty, or beyond the world boundary).
pub open spec fn spec_face_visible(g: VoxelGrid, a: VxWorldCoord, f: FaceType) -> bool {
    g.void_at(
        a.abs_x(g.dims) + f.spec_offset().0,
        a.abs_y(g.dims) + f.spec_offset().1,
        a.abs_z(g.dims) + f.spec_offset().2,
    )
}

/// The buffers after emitting the first `nf` faces (in the fixed face
/// order) of the voxel at local coordinate `(x, y, z)` of chunk `c`, on top
/// of `m`: a face is emitted exactly when the voxel is solid and the face
/// is visible.
pub open spec fn spec_build_cell(
    m: MeshData,
    g: VoxelGrid,
    c: (usize, usize, usize),
    x: int,
    y: int,
    z: int,
    nf: int,
) -> MeshData
    decreases nf,
{
    if nf <= 0 {
        m
    } else {
        let prev = spec_build_cell(m, g, c, x, y, z, nf - 1);
        let a = cell_addr(c, x, y, z);
        let f = FaceType::spec_of_index(nf - 1);
        if g.voxel_at(a) != CubeTypes::Empty && spec_face_visible(g, a, f) {
            spec_add_face(
                prev,
                f,
                spec_ao(g, a.abs_x(g.dims), a.abs_y(g.dims), a.abs_z(g.dims), f),
                g.voxel_at(a),
                x,
                y,
                z,
            )
        } else {
            prev
        }
    }
}

/// The buffers after walking the first `n` voxels of chunk `c` in the fixed
/// scan order (x outermost, then y, then z).
pub open spec fn spec_build_upto(g: VoxelGrid, c: (usize, usize, usize), n: int) -> MeshData
    decreases n,
{
    if n <= 0 {
        MeshData::empty()
    } else {
        let s = g.dims.chunk_size as int;
        let m = spec_build_upto(g, c, n - 1);
        let x = (n - 1) / (s * s);
        let y = ((n - 1) % (s * s)) / s;
        let z = ((n - 1) % (s * s)) % s;
        spec_build_cell(m, g, c, x, y, z, 6)
    }
}

/// The complete mesh buffers of chunk `c` of grid `g`: every voxel of the
/// chunk walked in the fixed scan order, every visible face of every solid
/// voxel emitted.  This function of the grid and the chunk coordinate alone
/// pins the output down entirely, so building a chunk twice yields
/// identical buffers.
pub open spec fn spec_build_chunk(g: VoxelGrid, c: (usize, usize, usize)) -> MeshData {
    spec_build_upto(g, c, g.dims.chunk_volume())
}

/// Emitting one face grows every per-vertex buffer by four entries, the
/// index buffer by six, and keeps the buffer shape.
pub proof fn lemma_add_face_shape(
    m: MeshData,
    f: FaceType,
    ao: (int, int, int, int),
    kind: CubeTypes,
    x: int,
    y: int,
    z: int,
)
    ensures
        spec_add_face(m, f, ao, kind, x, y, z).vertices_coord.len() == m.vertices_coord.len() + 4,
        spec_add_face(m, f, ao, kind, x, y, z).uv_coord.len() == m.uv_coord.len() + 4,
        spec_add_face(m, f, ao, kind, x, y, z).vertices_normal.len() == m.vertices_normal.len()
            + 4,
        spec_add_face(m, f, ao, kind, x, y, z).vertices_order.len() == m.vertices_order.len() + 6,
        spec_add_face(m, f, ao, kind, x, y, z).vertices_type.len() == m.vertices_type.len() + 4,
        spec_add_face(m, f, ao, kind, x, y, z).vertices_ao.len() == m.vertices_ao.len() + 4,
        m.counts_ok() ==> spec_add_face(m, f, ao, kind, x, y, z).counts_ok(),
{
    assert(face_winding(f, ao).len() == 6);
}

/// Emitting the faces of one voxel grows every per-vertex buffer by at most
/// four entries per face and keeps the buffer shape.
pub proof fn lemma_build_cell_shape(
    m: MeshData,
    g: VoxelGrid,
    c: (usize, usize, usize),
    x: int,
    y: int,
    z: int,
    nf: int,
)
    requires
        0 <= nf,
    ensures
        m.vertices_coord.len() <= spec_build_cell(m, g, c, x, y, z, nf).vertices_coord.len()
            <= m.vertices_coord.len() + 4 * nf,
        m.counts_ok() ==> spec_build_cell(m, g, c, x, y, z, nf).counts_ok(),
    decreases nf,
{
    if nf > 0 {
        lemma_build_cell_shape(m, g, c, x, y, z, nf - 1);
        let prev = spec_build_cell(m, g, c, x, y, z, nf - 1);
        let a = cell_addr(c, x, y, z);
        let f = FaceType::spec_of_index(nf - 1);
        if g.voxel_at(a) != CubeTypes::Empty && spec_face_visible(g, a, f) {
            lemma_add_face_shape(
                prev,
                f,
                spec_ao(g, a.abs_x(g.dims), a.abs_y(g.dims), a.abs_z(g.dims), f),
                g.voxel_at(a),
                x,
                y,
                z,
            );
        }
    }
}

/// Walking the first `n` voxels keeps the buffer shape and emits at most
/// 24 vertices per voxel.
pub proof fn lemma_build_upto_shape(g: VoxelGrid, c: (usize, usize, usize), n: int)
    requires
        0 <= n,
    ensures
        spec_build_upto(g, c, n).counts_ok(),
        spec_build_upto(g, c, n).vertices_coord.len() <= 24 * n,
    decreases n,
{
    if n > 0 {
        lemma_build_upto_shape(g, c, n - 1);
        let s = g.dims.chunk_size as int;
        lemma_build_cell_shape(
            spec_build_upto(g, c, n - 1),
            g,
            c,
            (n - 1) / (s * s),
            ((n - 1) % (s * s)) / s,
            ((n - 1) % (s * s)) % s,
            6,
        );
    }
}

/// An empty voxel emits nothing.
pub proof fn lemma_build_cell_empty(
    m: MeshData,
    g: VoxelGrid,
    c: (usize, usize, usize),
    x: int,
    y: int,
    z: int,
    nf: int,
)
    requires
        0 <= nf,
        g.voxel_at(cell_addr(c, x, y, z)) == CubeTypes::Empty,
    ensures
        spec_build_cell(m, g, c, x, y, z, nf) == m,
    decreases nf,
{
    if nf > 0 {
        lemma_build_cell_empty(m, g, c, x, y, z, nf - 1);
    }
}

/// Unfolds the voxel walk at the voxel with scan index
/// `x * s^2 + y * s + z`.
pub proof fn lemma_build_upto_unfold(
    g: VoxelGrid,
    c: (usize, usize, usize),
    x: int,
    y: int,
    z: int,
)
    requires
        0 <= x < g.dims.chunk_size,
        0 <= y < g.dims.chunk_size,
        0 <= z < g.dims.chunk_size,
    ensures
        ({
            let s = g.dims.chunk_size as int;
            let n = x * s * s + y * s + z;
            spec_build_upto(g, c, n + 1) == spec_build_cell(spec_build_upto(g, c, n), g, c, x, y, z, 6)
        }),
{
    let s = g.dims.chunk_size as int;
    let n = x * s * s + y * s + z;
    assert(0 <= y * s + z < s * s && n == x * (s * s) + (y * s + z) && 0 <= n)
        by (nonlinear_arith)
        requires
            0 <= x < s,
            0 <= y < s,
            0 <= z < s,
            n == x * s * s + y * s + z,
    ;
    vstd::arithmetic::div_mod::lemma_fundamental_div_mod_converse(n, s * s, x, y * s + z);
    vstd::arithmetic::div_mod::lemma_fundamental_div_mod_converse(y * s + z, s, y, z);
    assert(n / (s * s) == x);
    assert(n % (s * s) == y * s + z);
    assert(spec_build_upto(g, c, n + 1) == spec_build_cell(
        spec_build_upto(g, c, n),
        g,
        c,
        x,
        y,
        z,
        6,
    ));
}

/// Builds the mesh of one chunk: walks every voxel of the chunk in the
/// fixed scan order, skips empty voxels, and emits every visible face of
/// every solid voxel with its ambient-occlusion sample.
pub fn build_mesh(voxels: &VoxelGrid, chunk_coord: &(usize, usize, usize)) -> (r: VxChunkMesh)
    requires
        voxels.wf(),
        chunk_coord.0 < voxels.dims.world_w,
        chunk_coord.1 < voxels.dims.world_h,
        chunk_coord.2 < voxels.dims.world_d,
    ensures
        r.coord == *chunk_coord,
        r@ == spec_build_chunk(*voxels, *chunk_coord),
{
    let s = voxels.dims.chunk_size;
    let mut mesh = VxChunkMesh {
        coord: *chunk_coord,
        vertices_coord: Vec::new(),
        uv_coord: Vec::new(),
        vertices_normal: Vec::new(),
        vertices_order: Vec::new(),
        vertices_type: Vec::new(),
        vertices_ao: Vec::new(),
    };
    proof {
        assert(mesh@ =~= MeshData::empty());
    }
    let mut p_x: usize = 0;
    while p_x < s
        invariant
            voxels.wf(),
            chunk_coord.0 < voxels.dims.world_w,
            chunk_coord.1 < voxels.dims.world_h,
            chunk_coord.2 < voxels.dims.world_d,
            s == voxels.dims.chunk_size,
            p_x <= s,
            mesh.coord == *chunk_coord,
            mesh@ == spec_build_upto(*voxels, *chunk_coord, p_x * s * s),
        decreases s - p_x,
    {
        let mut p_y: usize = 0;
        while p_y < s
            invariant
                voxels.wf(),
                chunk_coord.0 < voxels.dims.world_w,
                chunk_coord.1 < voxels.dims.world_h,
                chunk_coord.2 < voxels.dims.world_d,
                s == voxels.dims.chunk_size,
                p_x < s,
                p_y <= s,
                mesh.coord == *chunk_coord,
                mesh@ == spec_build_upto(*voxels, *chunk_coord, p_x * s * s + p_y * s),
            decreases s - p_y,
        {
            let mut p_z: usize = 0;
            while p_z < s
                invariant
                    voxels.wf(),
                    chunk_coord.0 < voxels.dims.world_w,
                    chunk_coord.1 < voxels.dims.world_h,
                    chunk_coord.2 < voxels.dims.world_d,
                    s == voxels.dims.chunk_size,
                    p_x < s,
                    p_y < s,
                    p_z <= s,
                    mesh.coord == *chunk_coord,
                    mesh@ == spec_build_upto(*voxels, *chunk_coord, p_x * s * s + p_y * s + p_z),
                decreases s - p_z,
            {
                let ghost n = p_x * s * s + p_y * s + p_z;
                proof {
                    lemma_build_upto_shape(*voxels, *chunk_coord, n);
                    lemma_build_upto_unfold(
                        *voxels,
                        *chunk_coord,
                        p_x as int,
                        p_y as int,
                        p_z as int,
                    );
                    assert(n < voxels.dims.chunk_volume() && 24 * n + 24
                        <= 24 * voxels.dims.chunk_volume() && 24 * voxels.dims.chunk_volume()
                        <= 0x1800_0000) by (nonlinear_arith)
                        requires
                            0 <= p_x < s,
                            0 <= p_y < s,
                            0 <= p_z < s,
                            s <= MAX_CHUNK_SIZE,
                            n == p_x * s * s + p_y * s + p_z,
                            voxels.dims.chunk_volume() == (s * s) * s,
                    ;
                }
                let world_coord = VxWorldCoord::new(*chunk_coord, (p_x, p_y, p_z));
                let cube_type = get_cube_type(voxels, &world_coord);
                if cube_type != CubeTypes::Empty {
                    let ghost m_enter = mesh@;
                    let mut face_index: usize = 0;
                    while face_index < 6
                        invariant
                            voxels.wf(),
                            chunk_coord.0 < voxels.dims.world_w,
                            chunk_coord.1 < voxels.dims.world_h,
                            chunk_coord.2 < voxels.dims.world_d,
                            s == voxels.dims.chunk_size,
                            p_x < s,
                            p_y < s,
                            p_z < s,
                            s <= MAX_CHUNK_SIZE,
                            face_index <= 6,
                            world_coord == cell_addr(
                                *chunk_coord,
                                p_x as int,
                                p_y as int,
                                p_z as int,
                            ),
                            cube_type == voxels.voxel_at(world_coord),
                            cube_type != CubeTypes::Empty,
                            m_enter == spec_build_upto(*voxels, *chunk_coord, n),
                            n == p_x * s * s + p_y * s + p_z,
                            m_enter.vertices_coord.len() <= 24 * n,
                            24 * n + 24 <= 0x1800_0000,
                            mesh.coord == *chunk_coord,
                            mesh@ == spec_build_cell(
                                m_enter,
                                *voxels,
                                *chunk_coord,
                                p_x as int,
                                p_y as int,
                                p_z as int,
                                face_index as int,
                            ),
                        decreases 6 - face_index,
                    {
                        let face_type = FaceType::of_index(face_index);
                        let off = face_type.offset();
                        proof {
                            lemma_build_cell_shape(
                                m_enter,
                                *voxels,
                                *chunk_coord,
                                p_x as int,
                                p_y as int,
                                p_z as int,
                                face_index as int,
                            );
                        }
                        if is_void(voxels, &world_coord, &off) {
                            let face_ao = get_ao(voxels, &world_coord, face_type);
                            proof {
                                crate::ao::lemma_ao_range(
                                    *voxels,
                                    world_coord.abs_x(voxels.dims),
                                    world_coord.abs_y(voxels.dims),
                                    world_coord.abs_z(voxels.dims),
                                    face_type,
                                );
                            }
                            add_face(&mut mesh, face_type, face_ao, &cube_type, (p_x, p_y, p_z));
                            proof {
                                assert(mesh@ == spec_build_cell(
                                    m_enter,
                                    *voxels,
                                    *chunk_coord,
                                    p_x as int,
                                    p_y as int,
                                    p_z as int,
                                    face_index as int + 1,
                                ));
                            }
                        } else {
                            proof {
                                assert(mesh@ == spec_build_cell(
                                    m_enter,
                                    *voxels,
                                    *chunk_coord,
                                    p_x as int,
                                    p_y as int,
                                    p_z as int,
                                    face_index as int + 1,
                                ));
                            }
                        }
                        face_index = face_index + 1;
                    }
                } else {
                    proof {
                        lemma_build_cell_empty(
                            mesh@,
                            *voxels,
                            *chunk_coord,
                            p_x as int,
                            p_y as int,
                            p_z as int,
                            6,
                        );
                    }
                }
                p_z = p_z + 1;
            }
            p_y = p_y + 1;
            proof {
                assert(p_x * s * s + (p_y - 1) * s + s == p_x * s * s + p_y * s)
                    by (nonlinear_arith);
            }
        }
        p_x = p_x + 1;
        proof {
            assert((p_x - 1) * s * s + s * s == p_x * s * s) by (nonlinear_arith);
        }
    }
    proof {
        assert(p_x * s * s == voxels.dims.chunk_volume()) by (nonlinear_arith)
            requires
                p_x == s,
                voxels.dims.chunk_volume() == (s * s) * s,
        ;
    }
    mesh
}

impl VxChunkMesh {
    /// Builds the mesh of the chunk at `coord` from the world's voxel grid.
    pub fn new(coord: (usize, usize, usize), voxels: &VoxelGrid) -> (r: VxChunkMesh)
        requires
            voxels.wf(),
            coord.0 < voxels.dims.world_w,
            coord.1 < voxels.dims.world_h,
            coord.2 < voxels.dims.world_d,
        ensures
            r.coord == coord,
            r@ == spec_build_chunk(*voxels, coord),
    {
        build_mesh(voxels, &coord)
    }
}

/// The chunk coordinate built at position `i` of the world walk: x varies
/// fastest, then z, then y, matching the flat index linearization.
pub open spec fn spec_chunk_coord_of_index(d: crate::dims::WorldDims, i: int) -> (
    usize,
    usize,
    usize,
) {
    (
        ((i % (d.world_w as int)) as usize),
        ((i / (d.world_w as int * d.world_d as int)) as usize),
        (((i % (d.world_w as int * d.world_d as int)) / (d.world_w as int)) as usize),
    )
}

/// Builds the mesh of every chunk of the world, in the fixed chunk walk
/// order.
pub fn build_world(voxels: &VoxelGrid) -> (r: Vec<VxChunkMesh>)
    requires
        voxels.wf(),
    ensures
        r@.len() == voxels.dims.world_volume(),
        forall|i: int|
            0 <= i < r@.len() ==> {
                let c = spec_chunk_coord_of_index(voxels.dims, i);
                &&& (#[trigger] r@[i]).coord == c
                &&& r@[i]@ == spec_build_chunk(*voxels, c)
            },
{
    let total = voxels.dims.chunk_count();
    proof {
        crate::dims::lemma_prefix_products_bounded(voxels.dims);
    }
    let world_area = voxels.dims.world_w * voxels.dims.world_d;
    let mut chunks: Vec<VxChunkMesh> = Vec::new();
    let mut i: usize = 0;
    while i < total
        invariant
            voxels.wf(),
            total == voxels.dims.world_volume(),
            world_area == voxels.dims.world_w * voxels.dims.world_d,
            i <= total,
            chunks@.len() == i,
            forall|j: int|
                0 <= j < i ==> {
                    let c = spec_chunk_coord_of_index(voxels.dims, j);
                    &&& (#[trigger] chunks@[j]).coord == c
                    &&& chunks@[j]@ == spec_build_chunk(*voxels, c)
                },
        decreases total - i,
    {
        proof {
            assert(0 < world_area && voxels.dims.world_volume() == voxels.dims.world_h
                * world_area && world_area == voxels.dims.world_d * voxels.dims.world_w)
                by (nonlinear_arith)
                requires
                    0 < voxels.dims.world_w,
                    0 < voxels.dims.world_d,
                    0 < voxels.dims.world_h,
                    world_area == voxels.dims.world_w * voxels.dims.world_d,
                    voxels.dims.world_volume() == (voxels.dims.world_w * voxels.dims.world_d)
                        * voxels.dims.world_h,
            ;
            crate::coord::lemma_axis_split(i as int, world_area as int, voxels.dims.world_h as int);
            crate::coord::lemma_axis_split(
                (i as int) % (world_area as int),
                voxels.dims.world_w as int,
                voxels.dims.world_d as int,
            );
            vstd::arithmetic::div_mod::lemma_mod_bound(i as int, voxels.dims.world_w as int);
        }
        let c_x = i % voxels.dims.world_w;
        let c_y = i / world_area;
        let c_z = (i % world_area) / voxels.dims.world_w;
        let chunk = VxChunkMesh::new((c_x, c_y, c_z), voxels);
        chunks.push(chunk);
        i = i + 1;
    }
    chunks
}

} // verus!
