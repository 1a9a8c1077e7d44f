//! The voxel grid: flat storage of one voxel kind per grid slot, and the
//! void test that drives face visibility and occlusion sampling.

use crate::coord::{coord_of_abs, in_world, lemma_coord_of_abs_wf, VxWorldCoord};
use crate::dims::WorldDims;
use vstd::prelude::*;

verus! {

/// The kind of one voxel cell: empty air or a solid material.
#[derive(Clone, Copy, Debug, PartialEq, Eq, Structural)]
pub enum CubeTypes {
    /// No voxel: faces of solid neighbors that border it are drawn.
    Empty,
    /// Solid dirt.
    Dirt,
}

/// Flat, read-only storage of the voxel kind of every slot in the world,
/// indexed by [`VxWorldCoord::spec_flat_index`].
pub struct VoxelGrid {
    /// The world configuration the grid was built for.
    pub dims: WorldDims,
    /// One entry per voxel slot of the whole world.
    pub voxels: Vec<CubeTypes>,
}

impl VoxelGrid {
    /// A well-formed grid: valid dimensions and exactly one entry per slot.
    pub open spec fn wf(self) -> bool {
        &&& self.dims.wf()
        &&& self.voxels@.len() == self.dims.grid_size()
    }

    /// The voxel stored at a valid address.
    pub open spec fn voxel_at(self, a: VxWorldCoord) -> CubeTypes {
        self.voxels@[a.spec_flat_index(self.dims)]
    }

    /// The voxel stored at an in-world absolute coordinate.
    pub open spec fn voxel_at_abs(self, x: int, y: int, z: int) -> CubeTypes {
        self.voxel_at(coord_of_abs(self.dims, x, y, z))
    }

    /// Whether the absolute coordinate `(x, y, z)` is void: outside the
    /// world, or an empty voxel.  A face whose outward neighbor is void is
    /// drawn; a void ring sample around a face brightens its corners.
    pub open spec fn void_at(self, x: int, y: int, z: int) -> bool {
        !in_world(self.dims, x, y, z) || self.voxel_at_abs(x, y, z) == CubeTypes::Empty
    }

    /// Wraps a populated voxel store, accepting exactly the stores whose
    /// length matches the dimensions.
    pub fn new(dims: WorldDims, voxels: Vec<CubeTypes>) -> (r: Option<VoxelGrid>)
        requires
            dims.wf(),
        ensures
            match r {
                Some(g) => g.dims == dims && g.voxels@ == voxels@ && g.wf(),
                None => voxels@.len() != dims.grid_size(),
            },
    {
        if voxels.len() == dims.grid_len() {
            Some(VoxelGrid { dims, voxels })
        } else {
            None
        }
    }
}

/// Reads the voxel kind at a valid address.
pub fn get_cube_type(voxels: &VoxelGrid, world_coord: &VxWorldCoord) -> (r: CubeTypes)
    requires
        voxels.wf(),
        world_coord.wf(voxels.dims),
    ensures
        r == voxels.voxel_at(*world_coord),
{
    let id = world_coord.get_id(&voxels.dims);
    voxels.voxels[id]
}

/// Steps `world_coord` by `direction` and tells whether the reached slot is
/// void: `true` when the step exits the world or the reached voxel is empty.
pub fn is_void(voxels: &VoxelGrid, world_coord: &VxWorldCoord, direction: &(i8, i8, i8)) -> (r:
    bool)
    requires
        voxels.wf(),
        world_coord.wf(voxels.dims),
        -1 <= direction.0 <= 1,
        -1 <= direction.1 <= 1,
        -1 <= direction.2 <= 1,
    ensures
        r == voxels.void_at(
            world_coord.abs_x(voxels.dims) + direction.0,
            world_coord.abs_y(voxels.dims) + direction.1,
            world_coord.abs_z(voxels.dims) + direction.2,
        ),
{
    let ghost nx = world_coord.abs_x(voxels.dims) + direction.0;
    let ghost ny = world_coord.abs_y(voxels.dims) + direction.1;
    let ghost nz = world_coord.abs_z(voxels.dims) + direction.2;
    match world_coord.move_direction(direction, &voxels.dims) {
        Some(new_world_coord) => {
            proof {
                lemma_coord_of_abs_wf(voxels.dims, nx, ny, nz);
            }
            let t = get_cube_type(voxels, &new_world_coord);
            t == CubeTypes::Empty
        },
        None => true,
    }
}

} // verus!
