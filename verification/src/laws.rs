//! Library-level laws: statements that relate several operations, proved
//! once and for all inputs.
//!
//! The laws of the addressing layer (the step round trip and the flat-index
//! injectivity) live beside their functions in [`crate::coord`]; this
//! module holds the laws of the produced geometry.

use crate::ao::spec_ao;
use crate::coord::{coord_of_abs, in_world, lemma_coord_abs_roundtrip, lemma_coord_of_abs_wf,
    VxWorldCoord};
use crate::face::FaceType;
use crate::grid::{CubeTypes, VoxelGrid};
use crate::mesh::{cell_addr, nums_view, pair_view, spec_add_face, spec_build_cell,
    spec_build_chunk, spec_build_upto, spec_corner_pos, spec_face_visible, tri_val, tri_view,
    lemma_add_face_shape, lemma_build_cell_empty, MeshData, VxChunkMesh};
use vstd::prelude::*;

verus! {

/// The dot product of two integer vectors.
pub open spec fn vec_dot(a: (int, int, int), b: (int, int, int)) -> int {
    a.0 * b.0 + a.1 * b.1 + a.2 * b.2
}

/// The difference of two integer vectors.
pub open spec fn vec_sub(a: (int, int, int), b: (int, int, int)) -> (int, int, int) {
    (a.0 - b.0, a.1 - b.1, a.2 - b.2)
}

/// The fixed quad of every face is a planar unit square with the face's
/// offset as its unit normal: the normal has unit length, every corner has
/// the same projection onto it, the two edges leaving corner 0 are
/// orthogonal and of length one voxel (two half-units), and corner 2 closes
/// the parallelogram.  Translating the corners to a voxel center preserves
/// all of it, so it holds of every emitted face quad.
pub proof fn lemma_face_quad_geometry(f: FaceType, x: int, y: int, z: int)
    ensures
        vec_dot(f.spec_offset(), f.spec_offset()) == 1,
        forall|k: int|
            0 <= k < 4 ==> vec_dot(
                vec_sub(#[trigger] spec_corner_pos(f, k, x, y, z), spec_corner_pos(f, 0, x, y, z)),
                f.spec_offset(),
            ) == 0,
        ({
            let e1 = vec_sub(spec_corner_pos(f, 1, x, y, z), spec_corner_pos(f, 0, x, y, z));
            let e3 = vec_sub(spec_corner_pos(f, 3, x, y, z), spec_corner_pos(f, 0, x, y, z));
            &&& vec_dot(e1, e1) == 4
            &&& vec_dot(e3, e3) == 4
            &&& vec_dot(e1, e3) == 0
        }),
        vec_sub(spec_corner_pos(f, 2, x, y, z), spec_corner_pos(f, 1, x, y, z)) == vec_sub(
            spec_corner_pos(f, 3, x, y, z),
            spec_corner_pos(f, 0, x, y, z),
        ),
{
    let e1 = vec_sub(spec_corner_pos(f, 1, x, y, z), spec_corner_pos(f, 0, x, y, z));
    let e3 = vec_sub(spec_corner_pos(f, 3, x, y, z), spec_corner_pos(f, 0, x, y, z));
    match f {
        FaceType::Top => {
            assert(vec_dot(f.spec_offset(), f.spec_offset()) == 1 && vec_dot(e1, e1) == 4
                && vec_dot(e3, e3) == 4 && vec_dot(e1, e3) == 0) by (nonlinear_arith)
                requires
                    f.spec_offset() == (0int, 1int, 0int),
                    e1 == (2int, 0int, 0int),
                    e3 == (0int, 0int, 2int),
            ;
        },
        FaceType::Bottom => {
            assert(vec_dot(f.spec_offset(), f.spec_offset()) == 1 && vec_dot(e1, e1) == 4
                && vec_dot(e3, e3) == 4 && vec_dot(e1, e3) == 0) by (nonlinear_arith)
                requires
                    f.spec_offset() == (0int, -1int, 0int),
                    e1 == (2int, 0int, 0int),
                    e3 == (0int, 0int, 2int),
            ;
        },
        FaceType::Right => {
            assert(vec_dot(f.spec_offset(), f.spec_offset()) == 1 && vec_dot(e1, e1) == 4
                && vec_dot(e3, e3) == 4 && vec_dot(e1, e3) == 0) by (nonlinear_arith)
                requires
                    f.spec_offset() == (1int, 0int, 0int),
                    e1 == (0int, 2int, 0int),
                    e3 == (0int, 0int, 2int),
            ;
        },
        FaceType::Left => {
            assert(vec_dot(f.spec_offset(), f.spec_offset()) == 1 && vec_dot(e1, e1) == 4
                && vec_dot(e3, e3) == 4 && vec_dot(e1, e3) == 0) by (nonlinear_arith)
                requires
                    f.spec_offset() == (-1int, 0int, 0int),
                    e1 == (0int, 2int, 0int),
                    e3 == (0int, 0int, 2int),
            ;
        },
        FaceType::Back => {
            assert(vec_dot(f.spec_offset(), f.spec_offset()) == 1 && vec_dot(e1, e1) == 4
                && vec_dot(e3, e3) == 4 && vec_dot(e1, e3) == 0) by (nonlinear_arith)
                requires
                    f.spec_offset() == (0int, 0int, 1int),
                    e1 == (2int, 0int, 0int),
                    e3 == (0int, 2int, 0int),
            ;
        },
        FaceType::Front => {
            assert(vec_dot(f.spec_offset(), f.spec_offset()) == 1 && vec_dot(e1, e1) == 4
                && vec_dot(e3, e3) == 4 && vec_dot(e1, e3) == 0) by (nonlinear_arith)
                requires
                    f.spec_offset() == (0int, 0int, -1int),
                    e1 == (2int, 0int, 0int),
                    e3 == (0int, 2int, 0int),
            ;
        },
    }
}

/// Quad `q` of the buffers is the fixed quad of face `f` at voxel center
/// `(x, y, z)`: the four positions, with the face's constant normal and
/// type id on each of the four vertices.
pub open spec fn quad_matches(
    m: MeshData,
    q: int,
    f: FaceType,
    x: int,
    y: int,
    z: int,
) -> bool {
    &&& m.vertices_coord[4 * q] == spec_corner_pos(f, 0, x, y, z)
    &&& m.vertices_coord[4 * q + 1] == spec_corner_pos(f, 1, x, y, z)
    &&& m.vertices_coord[4 * q + 2] == spec_corner_pos(f, 2, x, y, z)
    &&& m.vertices_coord[4 * q + 3] == spec_corner_pos(f, 3, x, y, z)
    &&& m.vertices_normal[4 * q] == f.spec_offset()
    &&& m.vertices_normal[4 * q + 1] == f.spec_offset()
    &&& m.vertices_normal[4 * q + 2] == f.spec_offset()
    &&& m.vertices_normal[4 * q + 3] == f.spec_offset()
    &&& m.vertices_type[4 * q] == f.spec_type_id()
    &&& m.vertices_type[4 * q + 1] == f.spec_type_id()
    &&& m.vertices_type[4 * q + 2] == f.spec_type_id()
    &&& m.vertices_type[4 * q + 3] == f.spec_type_id()
}

/// Quad `q` of the buffers is the quad of some face at some voxel center.
pub open spec fn quad_ok(m: MeshData, q: int) -> bool {
    exists|f: FaceType, x: int, y: int, z: int| quad_matches(m, q, f, x, y, z)
}

/// Every quad of the buffers is the fixed quad of some face at some voxel
/// center.
pub open spec fn quads_wf(m: MeshData) -> bool {
    forall|q: int| 0 <= q && 4 * q + 3 < m.vertices_coord.len() ==> #[trigger] quad_ok(m, q)
}

proof fn lemma_add_face_quads(
    m: MeshData,
    f: FaceType,
    ao: (int, int, int, int),
    kind: CubeTypes,
    x: int,
    y: int,
    z: int,
)
    requires
        m.counts_ok(),
        quads_wf(m),
    ensures
        quads_wf(spec_add_face(m, f, ao, kind, x, y, z)),
{
    let r = spec_add_face(m, f, ao, kind, x, y, z);
    lemma_add_face_shape(m, f, ao, kind, x, y, z);
    assert forall|q: int| 0 <= q && 4 * q + 3 < r.vertices_coord.len() implies #[trigger] quad_ok(
        r,
        q,
    ) by {
        if 4 * q + 3 < m.vertices_coord.len() {
            assert(quad_ok(m, q));
            let (f0, x0, y0, z0) = choose|f0: FaceType, x0: int, y0: int, z0: int|
                quad_matches(m, q, f0, x0, y0, z0);
            assert(quad_matches(r, q, f0, x0, y0, z0));
        } else {
            let base = m.vertices_coord.len() as int;
            assert(4 * q == base);
            assert(r.vertices_coord[base] == spec_corner_pos(f, 0, x, y, z));
            assert(r.vertices_coord[base + 1] == spec_corner_pos(f, 1, x, y, z));
            assert(r.vertices_coord[base + 2] == spec_corner_pos(f, 2, x, y, z));
            assert(r.vertices_coord[base + 3] == spec_corner_pos(f, 3, x, y, z));
            assert(quad_matches(r, q, f, x, y, z));
        }
    }
}

proof fn lemma_build_cell_quads(
    m: MeshData,
    g: VoxelGrid,
    c: (usize, usize, usize),
    x: int,
    y: int,
    z: int,
    nf: int,
)
    requires
        0 <= nf,
        m.counts_ok(),
        quads_wf(m),
    ensures
        spec_build_cell(m, g, c, x, y, z, nf).counts_ok(),
        quads_wf(spec_build_cell(m, g, c, x, y, z, nf)),
    decreases nf,
{
    if nf > 0 {
        lemma_build_cell_quads(m, g, c, x, y, z, nf - 1);
        let prev = spec_build_cell(m, g, c, x, y, z, nf - 1);
        let a = cell_addr(c, x, y, z);
        let f = FaceType::spec_of_index(nf - 1);
        if g.voxel_at(a) != CubeTypes::Empty && spec_face_visible(g, a, f) {
            let ao = spec_ao(g, a.abs_x(g.dims), a.abs_y(g.dims), a.abs_z(g.dims), f);
            lemma_add_face_quads(prev, f, ao, g.voxel_at(a), x, y, z);
            lemma_add_face_shape(prev, f, ao, g.voxel_at(a), x, y, z);
        }
    }
}

/// Every face quad that building a chunk emits is the fixed quad of its
/// face at its voxel center; with [`lemma_face_quad_geometry`], its four
/// vertices are coplanar and form a unit square, and its four normals are
/// the face's constant unit normal.
pub proof fn lemma_build_chunk_quads(g: VoxelGrid, c: (usize, usize, usize))
    ensures
        spec_build_chunk(g, c).counts_ok(),
        quads_wf(spec_build_chunk(g, c)),
{
    lemma_build_upto_quads(g, c, g.dims.chunk_volume());
}

proof fn lemma_build_upto_quads(g: VoxelGrid, c: (usize, usize, usize), n: int)
    ensures
        spec_build_upto(g, c, n).counts_ok(),
        quads_wf(spec_build_upto(g, c, n)),
    decreases n,
{
    if n > 0 {
        lemma_build_upto_quads(g, c, n - 1);
        let s = g.dims.chunk_size as int;
        lemma_build_cell_quads(
            spec_build_upto(g, c, n - 1),
            g,
            c,
            (n - 1) / (s * s),
            ((n - 1) % (s * s)) / s,
            ((n - 1) % (s * s)) % s,
            6,
        );
    }
}

/// The voxel at address `a` is enclosed: on all six sides its neighbor slot
/// lies inside the world and holds a solid voxel.
pub open spec fn spec_enclosed(g: VoxelGrid, a: VxWorldCoord) -> bool {
    forall|i: int|
        0 <= i < 6 ==> {
            let o = (#[trigger] FaceType::spec_of_index(i)).spec_offset();
            &&& in_world(
                g.dims,
                a.abs_x(g.dims) + o.0,
                a.abs_y(g.dims) + o.1,
                a.abs_z(g.dims) + o.2,
            )
            &&& g.voxel_at_abs(
                a.abs_x(g.dims) + o.0,
                a.abs_y(g.dims) + o.1,
                a.abs_z(g.dims) + o.2,
            ) != CubeTypes::Empty
        }
}

proof fn lemma_enclosed_cell_upto(
    m: MeshData,
    g: VoxelGrid,
    c: (usize, usize, usize),
    x: int,
    y: int,
    z: int,
    nf: int,
)
    requires
        0 <= nf <= 6,
        spec_enclosed(g, cell_addr(c, x, y, z)),
    ensures
        spec_build_cell(m, g, c, x, y, z, nf) == m,
    decreases nf,
{
    if nf > 0 {
        lemma_enclosed_cell_upto(m, g, c, x, y, z, nf - 1);
        let a = cell_addr(c, x, y, z);
        let f = FaceType::spec_of_index(nf - 1);
        assert(!spec_face_visible(g, a, f));
    }
}

/// A voxel whose six neighbors are all solid and inside the world emits no
/// face at all, whether it is solid or empty itself.
pub proof fn lemma_enclosed_voxel_no_faces(
    m: MeshData,
    g: VoxelGrid,
    c: (usize, usize, usize),
    x: int,
    y: int,
    z: int,
)
    requires
        spec_enclosed(g, cell_addr(c, x, y, z)),
    ensures
        spec_build_cell(m, g, c, x, y, z, 6) == m,
{
    lemma_enclosed_cell_upto(m, g, c, x, y, z, 6);
}

proof fn lemma_tri_view_injective(s1: Seq<(i32, i32, i32)>, s2: Seq<(i32, i32, i32)>)
    requires
        tri_view(s1) == tri_view(s2),
    ensures
        s1 == s2,
{
    assert(tri_view(s1).len() == s1.len());
    assert(tri_view(s2).len() == s2.len());
    assert forall|i: int| 0 <= i < s1.len() implies s1[i] == s2[i] by {
        assert(tri_view(s1)[i] == tri_val(s1[i]));
        assert(tri_view(s2)[i] == tri_val(s2[i]));
        assert(tri_val(s1[i]) == tri_val(s2[i]));
    }
    assert(s1 =~= s2);
}

proof fn lemma_pair_view_injective(s1: Seq<(u32, u32)>, s2: Seq<(u32, u32)>)
    requires
        pair_view(s1) == pair_view(s2),
    ensures
        s1 == s2,
{
    assert(pair_view(s1).len() == s1.len());
    assert(pair_view(s2).len() == s2.len());
    assert forall|i: int| 0 <= i < s1.len() implies s1[i] == s2[i] by {
        assert(pair_view(s1)[i] == (s1[i].0 as int, s1[i].1 as int));
        assert(pair_view(s2)[i] == (s2[i].0 as int, s2[i].1 as int));
    }
    assert(s1 =~= s2);
}

proof fn lemma_nums_view_injective(s1: Seq<u32>, s2: Seq<u32>)
    requires
        nums_view(s1) == nums_view(s2),
    ensures
        s1 == s2,
{
    assert(nums_view(s1).len() == s1.len());
    assert(nums_view(s2).len() == s2.len());
    assert forall|i: int| 0 <= i < s1.len() implies s1[i] == s2[i] by {
        assert(nums_view(s1)[i] == s1[i] as int);
        assert(nums_view(s2)[i] == s2[i] as int);
    }
    assert(s1 =~= s2);
}

/// Determinism: two chunk meshes built for the same chunk of the same grid
/// carry identical buffers, entry for entry.  The builders' contracts pin
/// the buffers down to a function of the grid and the chunk coordinate
/// alone, so building twice cannot differ.
pub proof fn lemma_build_deterministic(
    g: VoxelGrid,
    c: (usize, usize, usize),
    m1: VxChunkMesh,
    m2: VxChunkMesh,
)
    requires
        m1.coord == c,
        m1@ == spec_build_chunk(g, c),
        m2.coord == c,
        m2@ == spec_build_chunk(g, c),
    ensures
        m1.coord == m2.coord,
        m1.vertices_coord@ == m2.vertices_coord@,
        m1.uv_coord@ == m2.uv_coord@,
        m1.vertices_normal@ == m2.vertices_normal@,
        m1.vertices_order@ == m2.vertices_order@,
        m1.vertices_type@ == m2.vertices_type@,
        m1.vertices_ao@ == m2.vertices_ao@,
{
    lemma_tri_view_injective(m1.vertices_coord@, m2.vertices_coord@);
    lemma_tri_view_injective(m1.vertices_normal@, m2.vertices_normal@);
    lemma_pair_view_injective(m1.uv_coord@, m2.uv_coord@);
    lemma_nums_view_injective(m1.vertices_order@, m2.vertices_order@);
    lemma_nums_view_injective(m1.vertices_type@, m2.vertices_type@);
    lemma_nums_view_injective(m1.vertices_ao@, m2.vertices_ao@);
}

/// `m1` is `m2` with every vertex position translated by `(tx, ty, tz)` and
/// every other buffer identical: the same topology, moved in space.
pub open spec fn translated(m1: MeshData, m2: MeshData, tx: int, ty: int, tz: int) -> bool {
    &&& m1.vertices_coord.len() == m2.vertices_coord.len()
    &&& forall|i: int|
        0 <= i < m1.vertices_coord.len() ==> #[trigger] m1.vertices_coord[i] == (
            m2.vertices_coord[i].0 + tx,
            m2.vertices_coord[i].1 + ty,
            m2.vertices_coord[i].2 + tz,
        )
    &&& m1.uv_coord == m2.uv_coord
    &&& m1.vertices_normal == m2.vertices_normal
    &&& m1.vertices_order == m2.vertices_order
    &&& m1.vertices_type == m2.vertices_type
    &&& m1.vertices_ao == m2.vertices_ao
}

/// Emitting the same face with the same occlusion sample and material at
/// two voxel centers keeps two translated buffer sets translated.
proof fn lemma_add_face_translated(
    m1: MeshData,
    m2: MeshData,
    f: FaceType,
    ao: (int, int, int, int),
    kind: CubeTypes,
    x1: int,
    y1: int,
    z1: int,
    x2: int,
    y2: int,
    z2: int,
)
    requires
        translated(m1, m2, 2 * (x1 - x2), 2 * (y1 - y2), 2 * (z1 - z2)),
    ensures
        translated(
            spec_add_face(m1, f, ao, kind, x1, y1, z1),
            spec_add_face(m2, f, ao, kind, x2, y2, z2),
            2 * (x1 - x2),
            2 * (y1 - y2),
            2 * (z1 - z2),
        ),
{
    let tx = 2 * (x1 - x2);
    let ty = 2 * (y1 - y2);
    let tz = 2 * (z1 - z2);
    let r1 = spec_add_face(m1, f, ao, kind, x1, y1, z1);
    let r2 = spec_add_face(m2, f, ao, kind, x2, y2, z2);
    let len = m1.vertices_coord.len() as int;
    assert forall|i: int| 0 <= i < r1.vertices_coord.len() implies #[trigger] r1.vertices_coord[i]
        == (r2.vertices_coord[i].0 + tx, r2.vertices_coord[i].1 + ty, r2.vertices_coord[i].2
        + tz) by {
        if i < len {
            assert(r1.vertices_coord[i] == m1.vertices_coord[i]);
            assert(r2.vertices_coord[i] == m2.vertices_coord[i]);
        } else {
            let k = i - len;
            assert(r1.vertices_coord[i] == spec_corner_pos(f, k, x1, y1, z1));
            assert(r2.vertices_coord[i] == spec_corner_pos(f, k, x2, y2, z2));
        }
    }
    assert(crate::face::face_winding(f, ao).map_values(
        |i: int| (m1.vertices_coord.len() as int) + i,
    ) =~= crate::face::face_winding(f, ao).map_values(
        |i: int| (m2.vertices_coord.len() as int) + i,
    ));
    assert(r1.vertices_order == r2.vertices_order);
}

/// Grid `g` holds exactly one solid voxel, at address `a`.
pub open spec fn spec_solitary(g: VoxelGrid, a: VxWorldCoord) -> bool {
    &&& g.wf()
    &&& a.wf(g.dims)
    &&& g.voxel_at(a) != CubeTypes::Empty
    &&& forall|b: VxWorldCoord|
        b.wf(g.dims) && b != a ==> #[trigger] g.voxel_at(b) == CubeTypes::Empty
}

/// In a grid with a single solid voxel, every absolute coordinate other
/// than that voxel's is void.
proof fn lemma_solitary_void(g: VoxelGrid, a: VxWorldCoord, x: int, y: int, z: int)
    requires
        spec_solitary(g, a),
        (x, y, z) != (a.abs_x(g.dims), a.abs_y(g.dims), a.abs_z(g.dims)),
    ensures
        g.void_at(x, y, z),
{
    if in_world(g.dims, x, y, z) {
        lemma_coord_of_abs_wf(g.dims, x, y, z);
        lemma_coord_abs_roundtrip(g.dims, a);
        let b = coord_of_abs(g.dims, x, y, z);
        assert(b != a);
        assert(g.voxel_at(b) == CubeTypes::Empty);
    }
}

/// Every face of a solitary solid voxel is visible and samples the uniform
/// maximal ambient occlusion: each ring sample around the face neighbor is
/// void, whether inside the world or beyond it.
proof fn lemma_solitary_face(g: VoxelGrid, a: VxWorldCoord, f: FaceType)
    requires
        spec_solitary(g, a),
    ensures
        spec_face_visible(g, a, f),
        spec_ao(g, a.abs_x(g.dims), a.abs_y(g.dims), a.abs_z(g.dims), f) == (3int, 3int, 3int, 3int),
{
    let ax = a.abs_x(g.dims);
    let ay = a.abs_y(g.dims);
    let az = a.abs_z(g.dims);
    let o = f.spec_offset();
    let nx = ax + o.0;
    let ny = ay + o.1;
    let nz = az + o.2;
    lemma_solitary_void(g, a, nx, ny, nz);
    if in_world(g.dims, nx, ny, nz) {
        assert forall|i: int| 0 <= i < 8 implies crate::ao::ring_void(g, nx, ny, nz, f, i) by {
            let d = crate::ao::ring_dir(f, i);
            assert((nx + d.0, ny + d.1, nz + d.2) != (ax, ay, az));
            lemma_solitary_void(g, a, nx + d.0, ny + d.1, nz + d.2);
        }
    }
}

/// The first `nf` faces of two solitary voxels of the same material produce
/// translated buffers, four vertices per face, starting from empty buffers.
proof fn lemma_solitary_cell_translated(
    g1: VoxelGrid,
    a1: VxWorldCoord,
    g2: VoxelGrid,
    a2: VxWorldCoord,
    nf: int,
)
    requires
        spec_solitary(g1, a1),
        spec_solitary(g2, a2),
        g1.voxel_at(a1) == g2.voxel_at(a2),
        0 <= nf <= 6,
    ensures
        ({
            let m1 = spec_build_cell(
                MeshData::empty(),
                g1,
                a1.chunk_coord,
                a1.cube_coord.0 as int,
                a1.cube_coord.1 as int,
                a1.cube_coord.2 as int,
                nf,
            );
            let m2 = spec_build_cell(
                MeshData::empty(),
                g2,
                a2.chunk_coord,
                a2.cube_coord.0 as int,
                a2.cube_coord.1 as int,
                a2.cube_coord.2 as int,
                nf,
            );
            &&& translated(
                m1,
                m2,
                2 * (a1.cube_coord.0 - a2.cube_coord.0),
                2 * (a1.cube_coord.1 - a2.cube_coord.1),
                2 * (a1.cube_coord.2 - a2.cube_coord.2),
            )
            &&& m1.vertices_coord.len() == 4 * nf
        }),
    decreases nf,
{
    let x1 = a1.cube_coord.0 as int;
    let y1 = a1.cube_coord.1 as int;
    let z1 = a1.cube_coord.2 as int;
    let x2 = a2.cube_coord.0 as int;
    let y2 = a2.cube_coord.1 as int;
    let z2 = a2.cube_coord.2 as int;
    assert(cell_addr(a1.chunk_coord, x1, y1, z1) == a1);
    assert(cell_addr(a2.chunk_coord, x2, y2, z2) == a2);
    if nf == 0 {
        assert(translated(
            MeshData::empty(),
            MeshData::empty(),
            2 * (x1 - x2),
            2 * (y1 - y2),
            2 * (z1 - z2),
        ));
    } else {
        lemma_solitary_cell_translated(g1, a1, g2, a2, nf - 1);
        let f = FaceType::spec_of_index(nf - 1);
        lemma_solitary_face(g1, a1, f);
        lemma_solitary_face(g2, a2, f);
        let prev1 = spec_build_cell(MeshData::empty(), g1, a1.chunk_coord, x1, y1, z1, nf - 1);
        let prev2 = spec_build_cell(MeshData::empty(), g2, a2.chunk_coord, x2, y2, z2, nf - 1);
        lemma_add_face_translated(
            prev1,
            prev2,
            f,
            (3int, 3int, 3int, 3int),
            g1.voxel_at(a1),
            x1,
            y1,
            z1,
            x2,
            y2,
            z2,
        );
        lemma_add_face_shape(
            prev1,
            f,
            (3int, 3int, 3int, 3int),
            g1.voxel_at(a1),
            x1,
            y1,
            z1,
        );
    }
}

/// Walking the chunk of a solitary voxel leaves the buffers empty until the
/// voxel's own scan position and unchanged after it.
proof fn lemma_solitary_upto(g: VoxelGrid, a: VxWorldCoord, n: int)
    requires
        spec_solitary(g, a),
        0 <= n <= g.dims.chunk_volume(),
    ensures
        ({
            let s = g.dims.chunk_size as int;
            let nl = a.cube_coord.0 * s * s + a.cube_coord.1 * s + a.cube_coord.2;
            spec_build_upto(g, a.chunk_coord, n) == if n <= nl {
                MeshData::empty()
            } else {
                spec_build_cell(
                    MeshData::empty(),
                    g,
                    a.chunk_coord,
                    a.cube_coord.0 as int,
                    a.cube_coord.1 as int,
                    a.cube_coord.2 as int,
                    6,
                )
            }
        }),
    decreases n,
{
    let s = g.dims.chunk_size as int;
    let nl = a.cube_coord.0 * s * s + a.cube_coord.1 * s + a.cube_coord.2;
    if n > 0 {
        lemma_solitary_upto(g, a, n - 1);
        let m = n - 1;
        let x = m / (s * s);
        let y = (m % (s * s)) / s;
        let z = (m % (s * s)) % s;
        assert(m < (s * s) * s && m < s * (s * s) && 0 < s * s) by (nonlinear_arith)
            requires
                m < g.dims.chunk_volume(),
                g.dims.chunk_volume() == (s * s) * s,
                0 < s,
        ;
        crate::coord::lemma_axis_split(m, s * s, s);
        crate::coord::lemma_axis_split(m % (s * s), s, s);
        assert(0 <= x < s && 0 <= y < s && 0 <= z < s);
        if m == nl {
            assert(nl == a.cube_coord.0 * (s * s) + (a.cube_coord.1 * s + a.cube_coord.2) && 0
                <= a.cube_coord.1 * s + a.cube_coord.2 < s * s) by (nonlinear_arith)
                requires
                    nl == a.cube_coord.0 * s * s + a.cube_coord.1 * s + a.cube_coord.2,
                    a.cube_coord.0 < s,
                    a.cube_coord.1 < s,
                    a.cube_coord.2 < s,
                    0 < s,
            ;
            vstd::arithmetic::div_mod::lemma_fundamental_div_mod_converse(
                nl,
                s * s,
                a.cube_coord.0 as int,
                a.cube_coord.1 * s + a.cube_coord.2,
            );
            vstd::arithmetic::div_mod::lemma_fundamental_div_mod_converse(
                a.cube_coord.1 * s + a.cube_coord.2,
                s,
                a.cube_coord.1 as int,
                a.cube_coord.2 as int,
            );
            assert(x == a.cube_coord.0 && y == a.cube_coord.1 && z == a.cube_coord.2);
            assert(n - 1 <= nl);
        } else {
            let b = cell_addr(a.chunk_coord, x, y, z);
            assert(b.wf(g.dims));
            if b == a {
                assert(x == a.cube_coord.0 && y == a.cube_coord.1 && z == a.cube_coord.2);
                assert(m == x * (s * s) + (y * s + z)) by {
                    vstd::arithmetic::div_mod::lemma_fundamental_div_mod(m, s * s);
                    vstd::arithmetic::div_mod::lemma_fundamental_div_mod(m % (s * s), s);
                    assert(m == (s * s) * x + m % (s * s) && m % (s * s) == s * y + z ==> m == x
                        * (s * s) + (y * s + z)) by (nonlinear_arith);
                }
                assert(m == nl) by (nonlinear_arith)
                    requires
                        m == x * (s * s) + (y * s + z),
                        nl == a.cube_coord.0 * s * s + a.cube_coord.1 * s + a.cube_coord.2,
                        x == a.cube_coord.0,
                        y == a.cube_coord.1,
                        z == a.cube_coord.2,
                ;
                assert(false);
            }
            assert(g.voxel_at(b) == CubeTypes::Empty);
            lemma_build_cell_empty(
                spec_build_upto(g, a.chunk_coord, m),
                g,
                a.chunk_coord,
                x,
                y,
                z,
                6,
            );
        }
    }
}

/// Two structurally identical solitary solid voxels, at any two positions
/// in any two otherwise empty worlds, produce chunk meshes with identical
/// buffers up to a translation of the vertex positions by twice the
/// difference of their local coordinates; each mesh holds exactly the six
/// faces of its voxel.
pub proof fn lemma_isolated_voxels_translated(
    g1: VoxelGrid,
    a1: VxWorldCoord,
    g2: VoxelGrid,
    a2: VxWorldCoord,
)
    requires
        spec_solitary(g1, a1),
        spec_solitary(g2, a2),
        g1.voxel_at(a1) == g2.voxel_at(a2),
    ensures
        translated(
            spec_build_chunk(g1, a1.chunk_coord),
            spec_build_chunk(g2, a2.chunk_coord),
            2 * (a1.cube_coord.0 - a2.cube_coord.0),
            2 * (a1.cube_coord.1 - a2.cube_coord.1),
            2 * (a1.cube_coord.2 - a2.cube_coord.2),
        ),
        spec_build_chunk(g1, a1.chunk_coord).vertices_coord.len() == 24,
{
    lemma_scan_index_in_volume(g1, a1);
    lemma_scan_index_in_volume(g2, a2);
    lemma_solitary_upto(g1, a1, g1.dims.chunk_volume());
    lemma_solitary_upto(g2, a2, g2.dims.chunk_volume());
    lemma_solitary_cell_translated(g1, a1, g2, a2, 6);
}

/// The scan position of a voxel lies strictly inside the chunk volume.
proof fn lemma_scan_index_in_volume(g: VoxelGrid, a: VxWorldCoord)
    requires
        g.wf(),
        a.wf(g.dims),
    ensures
        ({
            let s = g.dims.chunk_size as int;
            0 <= a.cube_coord.0 * s * s + a.cube_coord.1 * s + a.cube_coord.2
                < g.dims.chunk_volume()
        }),
{
    let s = g.dims.chunk_size as int;
    assert(0 <= a.cube_coord.0 * s * s + a.cube_coord.1 * s + a.cube_coord.2 < (s * s) * s)
        by (nonlinear_arith)
        requires
            a.cube_coord.0 < s,
            a.cube_coord.1 < s,
            a.cube_coord.2 < s,
            0 < s,
    ;
}

} // verus!
