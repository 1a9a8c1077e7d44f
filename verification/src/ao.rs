//! Ambient-occlusion sampling: for a visible voxel face, a count per face
//! corner of the void samples among its three contributing neighbors in the
//! ring around the face, or the uniform maximal sample at the world boundary.
//!
//! Looking at the face from outside, the ring of eight samples around the
//! face neighbor is laid out
//!
//! ```text
//!  b | a | h
//! ---0---1---
//!  c |   | g
//! ---3---2---
//!  d | e | f
//! ```
//!
//! and each corner 0 to 3 counts its two flanking edge samples plus its
//! diagonal sample: corner 0 counts a, b, c; corner 1 counts a, g, h;
//! corner 2 counts e, f, g; corner 3 counts c, d, e.

use crate::coord::{in_world, lemma_coord_of_abs_wf, VxWorldCoord};
use crate::face::FaceType;
use crate::grid::{is_void, VoxelGrid};
use vstd::prelude::*;

verus! {

/// 1 for a void sample, 0 for a solid one.
pub open spec fn void_count(b: bool) -> int {
    if b {
        1
    } else {
        0
    }
}

/// Ring sample direction `i` (0 to 7 for positions a to h) around a face of
/// kind `f`, as an offset in the plane perpendicular to the face normal.
/// Right/Left faces use the y-z plane, Top/Bottom the x-z plane, Back/Front
/// the x-y plane.
pub open spec fn ring_dir(f: FaceType, i: int) -> (int, int, int) {
    if f == FaceType::Right || f == FaceType::Left {
        if i == 0 {
            (0, 0, -1)
        } else if i == 1 {
            (0, -1, -1)
        } else if i == 2 {
            (0, -1, 0)
        } else if i == 3 {
            (0, -1, 1)
        } else if i == 4 {
            (0, 0, 1)
        } else if i == 5 {
            (0, 1, 1)
        } else if i == 6 {
            (0, 1, 0)
        } else {
            (0, 1, -1)
        }
    } else if f == FaceType::Top || f == FaceType::Bottom {
        if i == 0 {
            (0, 0, -1)
        } else if i == 1 {
            (-1, 0, -1)
        } else if i == 2 {
            (-1, 0, 0)
        } else if i == 3 {
            (-1, 0, 1)
        } else if i == 4 {
            (0, 0, 1)
        } else if i == 5 {
            (1, 0, 1)
        } else if i == 6 {
            (1, 0, 0)
        } else {
            (1, 0, -1)
        }
    } else {
        if i == 0 {
            (0, -1, 0)
        } else if i == 1 {
            (-1, -1, 0)
        } else if i == 2 {
            (-1, 0, 0)
        } else if i == 3 {
            (-1, 1, 0)
        } else if i == 4 {
            (0, 1, 0)
        } else if i == 5 {
            (1, 1, 0)
        } else if i == 6 {
            (1, 0, 0)
        } else {
            (1, -1, 0)
        }
    }
}

/// Whether ring sample `i` around the face neighbor at absolute coordinate
/// `(x, y, z)` is void.
pub open spec fn ring_void(g: VoxelGrid, x: int, y: int, z: int, f: FaceType, i: int) -> bool {
    g.void_at(x + ring_dir(f, i).0, y + ring_dir(f, i).1, z + ring_dir(f, i).2)
}

/// The four-corner ambient-occlusion sample of face `f` of the voxel at
/// absolute coordinate `(x, y, z)`: when the face neighbor lies outside the
/// world the sample is the uniform maximal `(3, 3, 3, 3)`; otherwise each
/// corner counts the void samples among its three contributing ring
/// directions.
pub open spec fn spec_ao(g: VoxelGrid, x: int, y: int, z: int, f: FaceType) -> (
    int,
    int,
    int,
    int,
) {
    let o = f.spec_offset();
    let nx = x + o.0;
    let ny = y + o.1;
    let nz = z + o.2;
    if !in_world(g.dims, nx, ny, nz) {
        (3, 3, 3, 3)
    } else {
        (
            void_count(ring_void(g, nx, ny, nz, f, 0)) + void_count(ring_void(g, nx, ny, nz, f, 1))
                + void_count(ring_void(g, nx, ny, nz, f, 2)),
            void_count(ring_void(g, nx, ny, nz, f, 0)) + void_count(ring_void(g, nx, ny, nz, f, 6))
                + void_count(ring_void(g, nx, ny, nz, f, 7)),
            void_count(ring_void(g, nx, ny, nz, f, 4)) + void_count(ring_void(g, nx, ny, nz, f, 5))
                + void_count(ring_void(g, nx, ny, nz, f, 6)),
            void_count(ring_void(g, nx, ny, nz, f, 2)) + void_count(ring_void(g, nx, ny, nz, f, 3))
                + void_count(ring_void(g, nx, ny, nz, f, 4)),
        )
    }
}

/// Every corner of the sample lies in `[0, 3]`.
pub proof fn lemma_ao_range(g: VoxelGrid, x: int, y: int, z: int, f: FaceType)
    ensures
        0 <= spec_ao(g, x, y, z, f).0 <= 3,
        0 <= spec_ao(g, x, y, z, f).1 <= 3,
        0 <= spec_ao(g, x, y, z, f).2 <= 3,
        0 <= spec_ao(g, x, y, z, f).3 <= 3,
{
}

/// A face whose outward neighbor lies beyond the world boundary is visible
/// and receives the uniform maximal occlusion sample.
pub proof fn lemma_boundary_face(g: VoxelGrid, a: VxWorldCoord, f: FaceType)
    requires
        !in_world(
            g.dims,
            a.abs_x(g.dims) + f.spec_offset().0,
            a.abs_y(g.dims) + f.spec_offset().1,
            a.abs_z(g.dims) + f.spec_offset().2,
        ),
    ensures
        g.void_at(
            a.abs_x(g.dims) + f.spec_offset().0,
            a.abs_y(g.dims) + f.spec_offset().1,
            a.abs_z(g.dims) + f.spec_offset().2,
        ),
        spec_ao(g, a.abs_x(g.dims), a.abs_y(g.dims), a.abs_z(g.dims), f) == (
            3int,
            3int,
            3int,
            3int,
        ),
{
}

/// Samples the ambient occlusion of face `face_type` of the voxel at
/// `world_coord`.
pub fn get_ao(voxels: &VoxelGrid, world_coord: &VxWorldCoord, face_type: FaceType) -> (r: (
    u32,
    u32,
    u32,
    u32,
))
    requires
        voxels.wf(),
        world_coord.wf(voxels.dims),
    ensures
        ({
            let a = spec_ao(
                *voxels,
                world_coord.abs_x(voxels.dims),
                world_coord.abs_y(voxels.dims),
                world_coord.abs_z(voxels.dims),
                face_type,
            );
            (r.0 as int, r.1 as int, r.2 as int, r.3 as int) == a
        }),
{
    let off = face_type.offset();
    let ghost nx = world_coord.abs_x(voxels.dims) + off.0;
    let ghost ny = world_coord.abs_y(voxels.dims) + off.1;
    let ghost nz = world_coord.abs_z(voxels.dims) + off.2;
    if let Some(new_world_coord) = world_coord.move_direction(&off, &voxels.dims) {
        proof {
            lemma_coord_of_abs_wf(voxels.dims, nx, ny, nz);
        }
        let mut ao: (u32, u32, u32, u32) = (0, 0, 0, 0);
        let direction_a: (i8, i8, i8);
        let direction_b: (i8, i8, i8);
        let direction_c: (i8, i8, i8);
        let direction_d: (i8, i8, i8);
        let direction_e: (i8, i8, i8);
        let direction_f: (i8, i8, i8);
        let direction_g: (i8, i8, i8);
        let direction_h: (i8, i8, i8);
        if face_type == FaceType::Right || face_type == FaceType::Left {
            direction_a = (0, 0, -1);
            direction_b = (0, -1, -1);
            direction_c = (0, -1, 0);
            direction_d = (0, -1, 1);
            direction_e = (0, 0, 1);
            direction_f = (0, 1, 1);
            direction_g = (0, 1, 0);
            direction_h = (0, 1, -1);
        } else if face_type == FaceType::Top || face_type == FaceType::Bottom {
            direction_a = (0, 0, -1);
            direction_b = (-1, 0, -1);
            direction_c = (-1, 0, 0);
            direction_d = (-1, 0, 1);
            direction_e = (0, 0, 1);
            direction_f = (1, 0, 1);
            direction_g = (1, 0, 0);
            direction_h = (1, 0, -1);
        } else {
            direction_a = (0, -1, 0);
            direction_b = (-1, -1, 0);
            direction_c = (-1, 0, 0);
            direction_d = (-1, 1, 0);
            direction_e = (0, 1, 0);
            direction_f = (1, 1, 0);
            direction_g = (1, 0, 0);
            direction_h = (1, -1, 0);
        }
        if is_void(voxels, &new_world_coord, &direction_a) {
            ao.0 = ao.0 + 1;
            ao.1 = ao.1 + 1;
        }
        if is_void(voxels, &new_world_coord, &direction_b) {
            ao.0 = ao.0 + 1;
        }
        if is_void(voxels, &new_world_coord, &direction_c) {
            ao.0 = ao.0 + 1;
            ao.3 = ao.3 + 1;
        }
        if is_void(voxels, &new_world_coord, &direction_d) {
            ao.3 = ao.3 + 1;
        }
        if is_void(voxels, &new_world_coord, &direction_e) {
            ao.2 = ao.2 + 1;
            ao.3 = ao.3 + 1;
        }
        if is_void(voxels, &new_world_coord, &direction_f) {
            ao.2 = ao.2 + 1;
        }
        if is_void(voxels, &new_world_coord, &direction_g) {
            ao.1 = ao.1 + 1;
            ao.2 = ao.2 + 1;
        }
        if is_void(voxels, &new_world_coord, &direction_h) {
            ao.1 = ao.1 + 1;
        }
        ao
    } else {
        (3, 3, 3, 3)
    }
}

} // verus!
