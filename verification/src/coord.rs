//! World addressing: a (chunk coordinate, local coordinate) pair naming one
//! voxel slot, stepping by a small per-axis offset across chunk boundaries,
//! and the bijective flat grid index.
//!
//! The mathematical model of an address is its absolute voxel coordinate per
//! axis, `chunk * chunk_size + local`.  Stepping by an offset moves the
//! absolute coordinate by the offset on each axis independently and fails
//! exactly when some axis leaves the world.

use crate::dims::WorldDims;
use vstd::arithmetic::div_mod::lemma_fundamental_div_mod_converse;
use vstd::prelude::*;

verus! {

/// The unique (chunk coordinate, local coordinate) identifier of one voxel.
/// Each local component lies in `[0, chunk_size)`; each chunk component lies
/// below the world extent in chunks on its axis.
#[derive(Clone, Copy, Debug, PartialEq, Eq)]
pub struct VxWorldCoord {
    /// Chunk coordinate, one component per axis, in chunks.
    pub chunk_coord: (usize, usize, usize),
    /// Local coordinate inside the chunk, one component per axis, in voxels.
    pub cube_coord: (usize, usize, usize),
}

/// Whether the absolute voxel coordinate `(x, y, z)` lies inside the world.
pub open spec fn in_world(d: WorldDims, x: int, y: int, z: int) -> bool {
    &&& 0 <= x < d.extent_x()
    &&& 0 <= y < d.extent_y()
    &&& 0 <= z < d.extent_z()
}

/// The address whose absolute voxel coordinate is `(x, y, z)`.
pub open spec fn coord_of_abs(d: WorldDims, x: int, y: int, z: int) -> VxWorldCoord {
    VxWorldCoord {
        chunk_coord: (
            ((x / d.chunk_size as int) as usize),
            ((y / d.chunk_size as int) as usize),
            ((z / d.chunk_size as int) as usize),
        ),
        cube_coord: (
            ((x % d.chunk_size as int) as usize),
            ((y % d.chunk_size as int) as usize),
            ((z % d.chunk_size as int) as usize),
        ),
    }
}

/// Stepping an address by an integer offset per axis: the absolute
/// coordinate moves by the offset, and the step fails exactly when the moved
/// coordinate leaves the world on some axis.
pub open spec fn spec_step(
    d: WorldDims,
    a: VxWorldCoord,
    dx: int,
    dy: int,
    dz: int,
) -> Option<VxWorldCoord> {
    let nx = a.abs_x(d) + dx;
    let ny = a.abs_y(d) + dy;
    let nz = a.abs_z(d) + dz;
    if in_world(d, nx, ny, nz) {
        Some(coord_of_abs(d, nx, ny, nz))
    } else {
        None
    }
}

impl VxWorldCoord {
    /// A valid address: every component within its extent.
    pub open spec fn wf(self, d: WorldDims) -> bool {
        &&& self.chunk_coord.0 < d.world_w
        &&& self.chunk_coord.1 < d.world_h
        &&& self.chunk_coord.2 < d.world_d
        &&& self.cube_coord.0 < d.chunk_size
        &&& self.cube_coord.1 < d.chunk_size
        &&& self.cube_coord.2 < d.chunk_size
    }

    /// Absolute voxel coordinate along x.
    pub open spec fn abs_x(self, d: WorldDims) -> int {
        self.chunk_coord.0 * d.chunk_size + self.cube_coord.0
    }

    /// Absolute voxel coordinate along y.
    pub open spec fn abs_y(self, d: WorldDims) -> int {
        self.chunk_coord.1 * d.chunk_size + self.cube_coord.1
    }

    /// Absolute voxel coordinate along z.
    pub open spec fn abs_z(self, d: WorldDims) -> int {
        self.chunk_coord.2 * d.chunk_size + self.cube_coord.2
    }

    /// Position of the address within its chunk, linearized y-major.
    pub open spec fn local_lin(self, d: WorldDims) -> int {
        self.cube_coord.1 * d.chunk_area() + self.cube_coord.2 * d.chunk_size + self.cube_coord.0
    }

    /// Position of the address's chunk in the world, linearized y-major.
    pub open spec fn chunk_lin(self, d: WorldDims) -> int {
        self.chunk_coord.1 * d.world_area() + self.chunk_coord.2 * d.world_w + self.chunk_coord.0
    }

    /// The flat grid index of the address: chunks are laid out y-major over
    /// the world, and within a chunk the voxels y-major again.
    pub open spec fn spec_flat_index(self, d: WorldDims) -> int {
        self.chunk_lin(d) * d.chunk_volume() + self.local_lin(d)
    }

    /// Builds an address at a known chunk/local pair.
    pub fn new(chunk_coord: (usize, usize, usize), cube_coord: (usize, usize, usize)) -> (r:
        VxWorldCoord)
        ensures
            r == (VxWorldCoord { chunk_coord, cube_coord }),
    {
        VxWorldCoord { chunk_coord, cube_coord }
    }

    /// Steps the address by `direction`, one offset component per axis, each
    /// in `{-1, 0, 1}`.  A component that stays inside the chunk only moves
    /// the local coordinate; one that leaves it carries into the neighboring
    /// chunk; and when the neighboring chunk does not exist the whole step
    /// returns `None` (the step exits the world).
    pub fn move_direction(&self, direction: &(i8, i8, i8), dims: &WorldDims) -> (r: Option<
        VxWorldCoord,
    >)
        requires
            dims.wf(),
            self.wf(*dims),
            -1 <= direction.0 <= 1,
            -1 <= direction.1 <= 1,
            -1 <= direction.2 <= 1,
        ensures
            r == spec_step(*dims, *self, direction.0 as int, direction.1 as int, direction.2 as int),
    {
        let ghost nx = self.abs_x(*dims) + direction.0 as int;
        let ghost ny = self.abs_y(*dims) + direction.1 as int;
        let ghost nz = self.abs_z(*dims) + direction.2 as int;
        let x_axis = match step_axis(
            self.chunk_coord.0,
            self.cube_coord.0,
            direction.0,
            dims.chunk_size,
            dims.world_w,
        ) {
            Some(p) => p,
            None => {
                return None;
            },
        };
        let y_axis = match step_axis(
            self.chunk_coord.1,
            self.cube_coord.1,
            direction.1,
            dims.chunk_size,
            dims.world_h,
        ) {
            Some(p) => p,
            None => {
                return None;
            },
        };
        let z_axis = match step_axis(
            self.chunk_coord.2,
            self.cube_coord.2,
            direction.2,
            dims.chunk_size,
            dims.world_d,
        ) {
            Some(p) => p,
            None => {
                return None;
            },
        };
        let result = VxWorldCoord {
            chunk_coord: (x_axis.0, y_axis.0, z_axis.0),
            cube_coord: (x_axis.1, y_axis.1, z_axis.1),
        };
        proof {
            let s = dims.chunk_size as int;
            lemma_fundamental_div_mod_converse(nx, s, x_axis.0 as int, x_axis.1 as int);
            lemma_fundamental_div_mod_converse(ny, s, y_axis.0 as int, y_axis.1 as int);
            lemma_fundamental_div_mod_converse(nz, s, z_axis.0 as int, z_axis.1 as int);
            assert(coord_of_abs(*dims, nx, ny, nz) == result);
        }
        Some(result)
    }

    /// The flat grid index of the address; distinct valid addresses under the
    /// same dimensions never collide (see [`lemma_flat_index_injective`]).
    pub fn get_id(&self, dims: &WorldDims) -> (r: usize)
        requires
            dims.wf(),
            self.wf(*dims),
        ensures
            r == self.spec_flat_index(*dims),
            r < dims.grid_size(),
    {
        proof {
            lemma_flat_index_terms(*dims, *self);
        }
        let s = dims.chunk_size;
        let chunk_area = s * s;
        let chunk_volume = chunk_area * s;
        let index_x = self.chunk_coord.0 * chunk_volume + self.cube_coord.0;
        let index_y = self.chunk_coord.1 * (dims.world_w * dims.world_d * chunk_volume)
            + self.cube_coord.1 * chunk_area;
        let index_z = self.chunk_coord.2 * (dims.world_w * chunk_volume) + self.cube_coord.2 * s;
        index_x + index_y + index_z
    }
}

/// One axis of a step: `chunk * s + local` moves by `dir` and is decomposed
/// again into a chunk component below `w` and a local component below `s`;
/// `None` exactly when the moved coordinate leaves `[0, w * s)`.
fn step_axis(chunk: usize, local: usize, dir: i8, s: usize, w: usize) -> (r: Option<
    (usize, usize),
>)
    requires
        0 < s,
        chunk < w,
        local < s,
        -1 <= dir <= 1,
    ensures
        match r {
            Some(p) => {
                &&& p.0 < w
                &&& p.1 < s
                &&& p.0 * s + p.1 == chunk * s + local + dir
                &&& 0 <= chunk * s + local + dir < w * s
            },
            None => !(0 <= chunk * s + local + dir < w * s),
        },
{
    let ghost n = chunk * s + local + dir;
    if dir >= 0 {
        let du = dir as usize;
        if local + du >= s {
            if chunk + 1 >= w {
                assert(!(0 <= n < w * s)) by (nonlinear_arith)
                    requires
                        n == chunk * s + local + dir,
                        local + dir == s,
                        chunk + 1 >= w,
                        0 < s,
                ;
                None
            } else {
                let r = (chunk + 1, local + du - s);
                assert(r.0 * s + r.1 == n && 0 <= n < w * s) by (nonlinear_arith)
                    requires
                        n == chunk * s + local + dir,
                        r == ((chunk + 1) as usize, (local + dir - s) as usize),
                        local + dir == s,
                        chunk + 1 < w,
                        0 < s,
                ;
                Some(r)
            }
        } else {
            let r = (chunk, local + du);
            assert(0 <= n < w * s) by (nonlinear_arith)
                requires
                    n == chunk * s + local + dir,
                    0 <= local + dir < s,
                    chunk < w,
                    0 < s,
            ;
            Some(r)
        }
    } else {
        let du = (-dir) as usize;
        if local < du {
            if chunk == 0 {
                assert(!(0 <= n < w * s));
                None
            } else {
                let r = (chunk - 1, s - (du - local));
                assert(r.0 * s + r.1 == n && 0 <= n < w * s) by (nonlinear_arith)
                    requires
                        n == chunk * s + local + dir,
                        r == ((chunk - 1) as usize, (s - 1) as usize),
                        local == 0,
                        dir == -1,
                        0 < chunk < w,
                        0 < s,
                ;
                Some(r)
            }
        } else {
            let r = (chunk, local - du);
            assert(0 <= n < w * s) by (nonlinear_arith)
                requires
                    n == chunk * s + local + dir,
                    0 <= local + dir < s,
                    chunk < w,
                    0 < s,
            ;
            Some(r)
        }
    }
}

/// Bounds for the flat-index computation: the linearized chunk and local
/// positions stay below the chunk count and the chunk volume, every product
/// in the flat sum stays below the grid size, and so does the index itself.
pub proof fn lemma_flat_index_terms(d: WorldDims, a: VxWorldCoord)
    requires
        d.wf(),
        a.wf(d),
    ensures
        0 <= a.local_lin(d) < d.chunk_volume(),
        0 <= a.chunk_lin(d) < d.world_volume(),
        0 <= a.spec_flat_index(d) < d.grid_size(),
        a.spec_flat_index(d) == a.chunk_coord.0 * d.chunk_volume() + a.cube_coord.0
            + (a.chunk_coord.1 * (d.world_w * d.world_d * d.chunk_volume()) + a.cube_coord.1
            * d.chunk_area()) + (a.chunk_coord.2 * (d.world_w * d.chunk_volume()) + a.cube_coord.2
            * d.chunk_size),
        d.chunk_area() <= d.grid_size(),
        d.chunk_volume() <= d.grid_size(),
        d.world_w * d.world_d <= d.grid_size(),
        d.world_w * d.world_d * d.chunk_volume() <= d.grid_size(),
        d.world_w * d.chunk_volume() <= d.grid_size(),
        0 <= a.chunk_coord.0 * d.chunk_volume(),
        0 <= a.chunk_coord.1 * (d.world_w * d.world_d * d.chunk_volume()),
        0 <= a.chunk_coord.2 * (d.world_w * d.chunk_volume()),
        0 <= a.cube_coord.1 * d.chunk_area(),
        0 <= a.cube_coord.2 * d.chunk_size,
{
    let s = d.chunk_size as int;
    let w = d.world_w as int;
    let h = d.world_h as int;
    let dd = d.world_d as int;
    assert(0 <= a.local_lin(d) < d.chunk_volume()) by (nonlinear_arith)
        requires
            a.cube_coord.0 < s,
            a.cube_coord.1 < s,
            a.cube_coord.2 < s,
            0 < s,
            a.local_lin(d) == a.cube_coord.1 * (s * s) + a.cube_coord.2 * s + a.cube_coord.0,
            d.chunk_volume() == (s * s) * s,
    ;
    assert(0 <= a.chunk_lin(d) < d.world_volume()) by (nonlinear_arith)
        requires
            a.chunk_coord.0 < w,
            a.chunk_coord.1 < h,
            a.chunk_coord.2 < dd,
            0 < w,
            0 < h,
            0 < dd,
            a.chunk_lin(d) == a.chunk_coord.1 * (w * dd) + a.chunk_coord.2 * w + a.chunk_coord.0,
            d.world_volume() == (w * dd) * h,
    ;
    assert(0 <= a.spec_flat_index(d) < d.grid_size()) by (nonlinear_arith)
        requires
            0 <= a.local_lin(d) < d.chunk_volume(),
            0 <= a.chunk_lin(d) < d.world_volume(),
            a.spec_flat_index(d) == a.chunk_lin(d) * d.chunk_volume() + a.local_lin(d),
            d.grid_size() == d.world_volume() * d.chunk_volume(),
    ;
    assert(a.spec_flat_index(d) == a.chunk_coord.0 * d.chunk_volume() + a.cube_coord.0
        + (a.chunk_coord.1 * (d.world_w * d.world_d * d.chunk_volume()) + a.cube_coord.1
        * d.chunk_area()) + (a.chunk_coord.2 * (d.world_w * d.chunk_volume()) + a.cube_coord.2
        * d.chunk_size)) by (nonlinear_arith)
        requires
            a.spec_flat_index(d) == (a.chunk_coord.1 * (w * dd) + a.chunk_coord.2 * w
                + a.chunk_coord.0) * d.chunk_volume() + (a.cube_coord.1 * d.chunk_area()
                + a.cube_coord.2 * s + a.cube_coord.0),
            d.chunk_volume() == d.chunk_area() * s,
            d.chunk_area() == s * s,
            w == d.world_w,
            dd == d.world_d,
            s == d.chunk_size,
    ;
    assert(d.chunk_area() <= d.grid_size() && d.chunk_volume() <= d.grid_size() && d.world_w
        * d.world_d <= d.grid_size() && d.world_w * d.world_d * d.chunk_volume() <= d.grid_size()
        && d.world_w * d.chunk_volume() <= d.grid_size()) by (nonlinear_arith)
        requires
            d.grid_size() == ((w * dd) * h) * ((s * s) * s),
            d.chunk_area() == s * s,
            d.chunk_volume() == (s * s) * s,
            w == d.world_w,
            dd == d.world_d,
            0 < s,
            0 < w,
            0 < h,
            0 < dd,
    ;
    assert(0 <= a.chunk_coord.0 * d.chunk_volume() && 0 <= a.chunk_coord.1 * (d.world_w * d.world_d
        * d.chunk_volume()) && 0 <= a.chunk_coord.2 * (d.world_w * d.chunk_volume()) && 0
        <= a.cube_coord.1 * d.chunk_area() && 0 <= a.cube_coord.2 * d.chunk_size)
        by (nonlinear_arith)
        requires
            d.chunk_volume() == (s * s) * s,
            d.chunk_area() == s * s,
            w == d.world_w,
            dd == d.world_d,
            s == d.chunk_size,
            0 <= s,
            0 <= w,
            0 <= dd,
            0 <= a.chunk_coord.0,
            0 <= a.chunk_coord.1,
            0 <= a.chunk_coord.2,
            0 <= a.cube_coord.1,
            0 <= a.cube_coord.2,
    ;
}

/// The flat index is injective over valid addresses: two distinct valid
/// addresses never collide (with the bound of [`lemma_flat_index_terms`],
/// the flat index is a bijection onto `[0, grid_size)`).
pub proof fn lemma_flat_index_injective(d: WorldDims, a: VxWorldCoord, b: VxWorldCoord)
    requires
        d.wf(),
        a.wf(d),
        b.wf(d),
        a.spec_flat_index(d) == b.spec_flat_index(d),
    ensures
        a == b,
{
    lemma_flat_index_terms(d, a);
    lemma_flat_index_terms(d, b);
    let f = a.spec_flat_index(d);
    lemma_fundamental_div_mod_converse(f, d.chunk_volume(), a.chunk_lin(d), a.local_lin(d));
    lemma_fundamental_div_mod_converse(f, d.chunk_volume(), b.chunk_lin(d), b.local_lin(d));
    assert(a.chunk_lin(d) == b.chunk_lin(d));
    assert(a.local_lin(d) == b.local_lin(d));
    lemma_lin3_injective(
        a.chunk_coord.1 as int,
        a.chunk_coord.2 as int,
        a.chunk_coord.0 as int,
        b.chunk_coord.1 as int,
        b.chunk_coord.2 as int,
        b.chunk_coord.0 as int,
        d.world_w as int,
        d.world_d as int,
    );
    lemma_lin3_injective(
        a.cube_coord.1 as int,
        a.cube_coord.2 as int,
        a.cube_coord.0 as int,
        b.cube_coord.1 as int,
        b.cube_coord.2 as int,
        b.cube_coord.0 as int,
        d.chunk_size as int,
        d.chunk_size as int,
    );
    assert(a.chunk_coord == b.chunk_coord);
    assert(a.cube_coord == b.cube_coord);
}

/// Injectivity of the three-digit mixed-radix form `p * (w * q) + m * w + l`
/// with `m < q` and `l < w`.
proof fn lemma_lin3_injective(
    p1: int,
    m1: int,
    l1: int,
    p2: int,
    m2: int,
    l2: int,
    w: int,
    q: int,
)
    requires
        0 < w,
        0 < q,
        0 <= l1 < w,
        0 <= l2 < w,
        0 <= m1 < q,
        0 <= m2 < q,
        0 <= p1,
        0 <= p2,
        p1 * (w * q) + m1 * w + l1 == p2 * (w * q) + m2 * w + l2,
    ensures
        p1 == p2,
        m1 == m2,
        l1 == l2,
{
    let v = p1 * (w * q) + m1 * w + l1;
    assert(0 <= m1 * w + l1 < w * q) by (nonlinear_arith)
        requires
            0 <= m1 < q,
            0 <= l1 < w,
            0 < w,
            0 < q,
    ;
    assert(0 <= m2 * w + l2 < w * q) by (nonlinear_arith)
        requires
            0 <= m2 < q,
            0 <= l2 < w,
            0 < w,
            0 < q,
    ;
    lemma_fundamental_div_mod_converse(v, w * q, p1, m1 * w + l1);
    lemma_fundamental_div_mod_converse(v, w * q, p2, m2 * w + l2);
    assert(p1 == p2);
    let r = m1 * w + l1;
    lemma_fundamental_div_mod_converse(r, w, m1, l1);
    lemma_fundamental_div_mod_converse(r, w, m2, l2);
}

/// A valid address is recovered from its absolute coordinate: the model
/// loses nothing.
pub proof fn lemma_coord_abs_roundtrip(d: WorldDims, a: VxWorldCoord)
    requires
        d.wf(),
        a.wf(d),
    ensures
        in_world(d, a.abs_x(d), a.abs_y(d), a.abs_z(d)),
        coord_of_abs(d, a.abs_x(d), a.abs_y(d), a.abs_z(d)) == a,
{
    let s = d.chunk_size as int;
    lemma_axis_abs(a.chunk_coord.0 as int, a.cube_coord.0 as int, s, d.world_w as int);
    lemma_axis_abs(a.chunk_coord.1 as int, a.cube_coord.1 as int, s, d.world_h as int);
    lemma_axis_abs(a.chunk_coord.2 as int, a.cube_coord.2 as int, s, d.world_d as int);
    assert(coord_of_abs(d, a.abs_x(d), a.abs_y(d), a.abs_z(d)) == a);
}

/// One axis of the roundtrip: the absolute coordinate of a valid pair stays
/// in range and splits back into the same pair.
proof fn lemma_axis_abs(c: int, l: int, s: int, w: int)
    requires
        0 < s,
        0 <= c < w,
        0 <= l < s,
    ensures
        0 <= c * s + l < w * s,
        (c * s + l) / s == c,
        (c * s + l) % s == l,
{
    assert(0 <= c * s + l < w * s) by (nonlinear_arith)
        requires
            0 < s,
            0 <= c < w,
            0 <= l < s,
    ;
    lemma_fundamental_div_mod_converse(c * s + l, s, c, l);
}

/// The address built from an in-world absolute coordinate is valid and has
/// that absolute coordinate.
pub proof fn lemma_coord_of_abs_wf(d: WorldDims, x: int, y: int, z: int)
    requires
        d.wf(),
        in_world(d, x, y, z),
    ensures
        coord_of_abs(d, x, y, z).wf(d),
        coord_of_abs(d, x, y, z).abs_x(d) == x,
        coord_of_abs(d, x, y, z).abs_y(d) == y,
        coord_of_abs(d, x, y, z).abs_z(d) == z,
{
    let s = d.chunk_size as int;
    lemma_axis_split(x, s, d.world_w as int);
    lemma_axis_split(y, s, d.world_h as int);
    lemma_axis_split(z, s, d.world_d as int);
}

/// Splitting a value `v` in `[0, w * s)` by a positive divisor `s` yields a
/// quotient below `w` and a remainder below `s`, and the two recompose.
pub proof fn lemma_axis_split(v: int, s: int, w: int)
    requires
        0 < s,
        0 <= v < w * s,
    ensures
        0 <= v / s < w,
        0 <= v % s < s,
        (v / s) * s + v % s == v,
{
    vstd::arithmetic::div_mod::lemma_fundamental_div_mod(v, s);
    vstd::arithmetic::div_mod::lemma_mod_bound(v, s);
    vstd::arithmetic::div_mod::lemma_div_pos_is_pos(v, s);
    vstd::arithmetic::mul::lemma_mul_is_commutative(v / s, s);
    assert(v / s < w) by (nonlinear_arith)
        requires
            0 < s,
            0 <= v < w * s,
            v == s * (v / s) + v % s,
            0 <= v % s < s,
    ;
}

/// Stepping is its own inverse under negation: whenever a step succeeds,
/// stepping the result by the negated offset returns the starting address.
pub proof fn lemma_step_roundtrip(d: WorldDims, a: VxWorldCoord, dx: int, dy: int, dz: int)
    requires
        d.wf(),
        a.wf(d),
        spec_step(d, a, dx, dy, dz) is Some,
    ensures
        spec_step(d, spec_step(d, a, dx, dy, dz)->Some_0, -dx, -dy, -dz) == Some(a),
{
    let nx = a.abs_x(d) + dx;
    let ny = a.abs_y(d) + dy;
    let nz = a.abs_z(d) + dz;
    lemma_coord_of_abs_wf(d, nx, ny, nz);
    lemma_coord_abs_roundtrip(d, a);
    let b = coord_of_abs(d, nx, ny, nz);
    assert(b.abs_x(d) + (-dx) == a.abs_x(d));
    assert(spec_step(d, b, -dx, -dy, -dz) == Some(a));
}

} // verus!
