//! World configuration: voxels per chunk edge and world extent in chunks.

use vstd::prelude::*;

verus! {

/// The largest accepted chunk edge length.  It keeps every vertex index of a
/// chunk mesh inside `u32` (a chunk emits at most `24 * chunk_size^3`
/// vertices) and every half-unit vertex coordinate inside `i32`.
pub const MAX_CHUNK_SIZE: usize = 256;

/// Immutable configuration fixed when a world is built: the chunk edge length
/// (voxels per axis, uniform in x/y/z) and the world extent in chunks along
/// each axis.  Every addressing computation derives from these numbers.
#[derive(Clone, Copy, Debug, PartialEq, Eq, Structural)]
pub struct WorldDims {
    /// Voxels per chunk edge, uniform in the three axes.
    pub chunk_size: usize,
    /// World extent in chunks along the x axis.
    pub world_w: usize,
    /// World extent in chunks along the y axis.
    pub world_h: usize,
    /// World extent in chunks along the z axis.
    pub world_d: usize,
}

impl WorldDims {
    /// Voxels in one chunk layer.
    pub open spec fn chunk_area(self) -> int {
        self.chunk_size * self.chunk_size
    }

    /// Voxels in one chunk.
    pub open spec fn chunk_volume(self) -> int {
        self.chunk_area() * self.chunk_size
    }

    /// Chunks in one horizontal world layer.
    pub open spec fn world_area(self) -> int {
        self.world_w * self.world_d
    }

    /// Chunks in the whole world.
    pub open spec fn world_volume(self) -> int {
        self.world_area() * self.world_h
    }

    /// Voxels in the whole world, which is the length of the flat grid.
    pub open spec fn grid_size(self) -> int {
        self.world_volume() * self.chunk_volume()
    }

    /// World extent in voxels along the x axis.
    pub open spec fn extent_x(self) -> int {
        self.world_w * self.chunk_size
    }

    /// World extent in voxels along the y axis.
    pub open spec fn extent_y(self) -> int {
        self.world_h * self.chunk_size
    }

    /// World extent in voxels along the z axis.
    pub open spec fn extent_z(self) -> int {
        self.world_d * self.chunk_size
    }

    /// Well-formed dimensions: every extent is positive, the chunk edge is at
    /// most [`MAX_CHUNK_SIZE`], and the flat voxel grid fits in memory.
    pub open spec fn wf(self) -> bool {
        &&& 0 < self.chunk_size <= MAX_CHUNK_SIZE
        &&& 0 < self.world_w
        &&& 0 < self.world_h
        &&& 0 < self.world_d
        &&& self.grid_size() <= usize::MAX
    }

    /// Builds the configuration, accepting exactly the well-formed values.
    pub fn new(chunk_size: usize, world_w: usize, world_h: usize, world_d: usize) -> (r: Option<
        WorldDims,
    >)
        ensures
            ({
                let d = WorldDims { chunk_size, world_w, world_h, world_d };
                match r {
                    Some(v) => v == d && d.wf(),
                    None => !d.wf(),
                }
            }),
    {
        let ghost d = WorldDims { chunk_size, world_w, world_h, world_d };
        if chunk_size == 0 || chunk_size > MAX_CHUNK_SIZE || world_w == 0 || world_h == 0
            || world_d == 0 {
            return None;
        }
        proof {
            lemma_prefix_products_bounded(d);
        }
        let p = match world_w.checked_mul(world_d) {
            Some(v) => v,
            None => {
                return None;
            },
        };
        let p = match p.checked_mul(world_h) {
            Some(v) => v,
            None => {
                return None;
            },
        };
        let p = match p.checked_mul(chunk_size) {
            Some(v) => v,
            None => {
                return None;
            },
        };
        let p = match p.checked_mul(chunk_size) {
            Some(v) => v,
            None => {
                return None;
            },
        };
        match p.checked_mul(chunk_size) {
            Some(_) => Some(WorldDims { chunk_size, world_w, world_h, world_d }),
            None => None,
        }
    }

    /// The length of the flat voxel grid for these dimensions.
    pub fn grid_len(&self) -> (r: usize)
        requires
            self.wf(),
        ensures
            r == self.grid_size(),
    {
        proof {
            lemma_prefix_products_bounded(*self);
        }
        self.world_w * self.world_d * self.world_h * self.chunk_size * self.chunk_size
            * self.chunk_size
    }

    /// The number of chunks in the world.
    pub fn chunk_count(&self) -> (r: usize)
        requires
            self.wf(),
        ensures
            r == self.world_volume(),
    {
        proof {
            lemma_prefix_products_bounded(*self);
        }
        self.world_w * self.world_d * self.world_h
    }
}

/// The grid size equals the six extent factors multiplied out flat, from the
/// left, and bounds every prefix of that product while the factors still to
/// come are positive.
pub proof fn lemma_prefix_products_bounded(d: WorldDims)
    requires
        0 < d.chunk_size,
        0 < d.world_h,
    ensures
        d.grid_size() == d.world_w * d.world_d * d.world_h * d.chunk_size * d.chunk_size
            * d.chunk_size,
        d.world_w * d.world_d <= d.grid_size(),
        d.world_w * d.world_d * d.world_h <= d.grid_size(),
        d.world_w * d.world_d * d.world_h * d.chunk_size <= d.grid_size(),
        d.world_w * d.world_d * d.world_h * d.chunk_size * d.chunk_size <= d.grid_size(),
{
    assert(d.grid_size() == d.world_w * d.world_d * d.world_h * d.chunk_size * d.chunk_size
        * d.chunk_size) by (nonlinear_arith);
    assert(d.world_w * d.world_d * d.world_h * d.chunk_size * d.chunk_size <= d.grid_size())
        by (nonlinear_arith)
        requires
            0 < d.chunk_size,
            d.grid_size() == d.world_w * d.world_d * d.world_h * d.chunk_size * d.chunk_size
                * d.chunk_size,
    ;
    assert(d.world_w * d.world_d * d.world_h * d.chunk_size <= d.grid_size()) by (nonlinear_arith)
        requires
            0 < d.chunk_size,
            d.grid_size() == d.world_w * d.world_d * d.world_h * d.chunk_size * d.chunk_size
                * d.chunk_size,
    ;
    assert(d.world_w * d.world_d * d.world_h <= d.grid_size()) by (nonlinear_arith)
        requires
            0 < d.chunk_size,
            d.grid_size() == d.world_w * d.world_d * d.world_h * d.chunk_size * d.chunk_size
                * d.chunk_size,
    ;
    assert(d.world_w * d.world_d <= d.grid_size()) by (nonlinear_arith)
        requires
            0 < d.chunk_size,
            0 < d.world_h,
            d.grid_size() == d.world_w * d.world_d * d.world_h * d.chunk_size * d.chunk_size
                * d.chunk_size,
    ;
}

} // verus!
