//! The six voxel faces: their unit offset vectors (equal to their normals),
//! their fixed corner geometry in half-voxel units, their integer ids, and
//! the fixed order in which a voxel's faces are emitted.

use vstd::prelude::*;

verus! {

/// One of the six unit-square sides of a voxel cube.
#[derive(Clone, Copy, Debug, PartialEq, Eq, Structural)]
pub enum FaceType {
    /// +y side.
    Top,
    /// -y side.
    Bottom,
    /// +x side.
    Right,
    /// -x side.
    Left,
    /// +z side.
    Back,
    /// -z side.
    Front,
}

impl FaceType {
    /// The unit integer offset vector of the face: exactly one component is
    /// nonzero, and it is the face's outward normal as well.
    pub open spec fn spec_offset(self) -> (int, int, int) {
        match self {
            FaceType::Top => (0, 1, 0),
            FaceType::Bottom => (0, -1, 0),
            FaceType::Right => (1, 0, 0),
            FaceType::Left => (-1, 0, 0),
            FaceType::Back => (0, 0, 1),
            FaceType::Front => (0, 0, -1),
        }
    }

    /// The integer id stored with every vertex of the face.
    pub open spec fn spec_type_id(self) -> int {
        match self {
            FaceType::Top => 0,
            FaceType::Bottom => 1,
            FaceType::Right => 2,
            FaceType::Left => 3,
            FaceType::Back => 4,
            FaceType::Front => 5,
        }
    }

    /// The unit offset vector of the face as machine integers.
    pub fn offset(&self) -> (r: (i8, i8, i8))
        ensures
            (r.0 as int, r.1 as int, r.2 as int) == self.spec_offset(),
            -1 <= r.0 <= 1,
            -1 <= r.1 <= 1,
            -1 <= r.2 <= 1,
    {
        match self {
            FaceType::Top => (0, 1, 0),
            FaceType::Bottom => (0, -1, 0),
            FaceType::Right => (1, 0, 0),
            FaceType::Left => (-1, 0, 0),
            FaceType::Back => (0, 0, 1),
            FaceType::Front => (0, 0, -1),
        }
    }

    /// The face emitted at position `i` of the fixed per-voxel enumeration
    /// order; it equals the face whose id is `i`.
    pub open spec fn spec_of_index(i: int) -> FaceType {
        if i == 0 {
            FaceType::Top
        } else if i == 1 {
            FaceType::Bottom
        } else if i == 2 {
            FaceType::Right
        } else if i == 3 {
            FaceType::Left
        } else if i == 4 {
            FaceType::Back
        } else {
            FaceType::Front
        }
    }

    /// The face emitted at position `i` of the fixed per-voxel order.
    pub fn of_index(i: usize) -> (r: FaceType)
        requires
            i < 6,
        ensures
            r == FaceType::spec_of_index(i as int),
    {
        if i == 0 {
            FaceType::Top
        } else if i == 1 {
            FaceType::Bottom
        } else if i == 2 {
            FaceType::Right
        } else if i == 3 {
            FaceType::Left
        } else if i == 4 {
            FaceType::Back
        } else {
            FaceType::Front
        }
    }
}

/// The corner offset `k` (0 to 3, in vertex emission order) of face `f`, in
/// half-voxel units relative to the cube center.  Every component is -1 or
/// +1, and the component on the face's axis equals the face's offset.
pub open spec fn face_corner(f: FaceType, k: int) -> (int, int, int) {
    match f {
        FaceType::Top => {
            if k == 0 {
                (-1, 1, -1)
            } else if k == 1 {
                (1, 1, -1)
            } else if k == 2 {
                (1, 1, 1)
            } else {
                (-1, 1, 1)
            }
        },
        FaceType::Bottom => {
            if k == 0 {
                (-1, -1, -1)
            } else if k == 1 {
                (1, -1, -1)
            } else if k == 2 {
                (1, -1, 1)
            } else {
                (-1, -1, 1)
            }
        },
        FaceType::Right => {
            if k == 0 {
                (1, -1, -1)
            } else if k == 1 {
                (1, 1, -1)
            } else if k == 2 {
                (1, 1, 1)
            } else {
                (1, -1, 1)
            }
        },
        FaceType::Left => {
            if k == 0 {
                (-1, -1, -1)
            } else if k == 1 {
                (-1, 1, -1)
            } else if k == 2 {
                (-1, 1, 1)
            } else {
                (-1, -1, 1)
            }
        },
        FaceType::Back => {
            if k == 0 {
                (-1, -1, 1)
            } else if k == 1 {
                (1, -1, 1)
            } else if k == 2 {
                (1, 1, 1)
            } else {
                (-1, 1, 1)
            }
        },
        FaceType::Front => {
            if k == 0 {
                (-1, -1, -1)
            } else if k == 1 {
                (1, -1, -1)
            } else if k == 2 {
                (1, 1, -1)
            } else {
                (-1, 1, -1)
            }
        },
    }
}

/// The six vertex-order increments of the face's two triangles.  The split
/// diagonal follows the ambient-occlusion sums of the two corner pairs, so
/// that the shared edge crosses the less occluded diagonal, and the
/// handedness of Right, Bottom and Back mirrors the other three faces to
/// keep every triangle front-face-consistent.
pub open spec fn face_winding(f: FaceType, ao: (int, int, int, int)) -> Seq<int> {
    if f == FaceType::Right || f == FaceType::Bottom || f == FaceType::Back {
        if ao.1 + ao.3 < ao.0 + ao.2 {
            seq![0, 1, 2, 2, 3, 0]
        } else {
            seq![0, 1, 3, 2, 3, 1]
        }
    } else {
        if ao.1 + ao.3 < ao.0 + ao.2 {
            seq![0, 3, 2, 2, 1, 0]
        } else {
            seq![0, 3, 1, 2, 1, 3]
        }
    }
}

} // verus!
