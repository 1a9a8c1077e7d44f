//! Chunk mesh generation for a voxel world.
//!
//! The world is a grid of cubic voxels partitioned into fixed-size cubic
//! chunks.  For each chunk this library emits the triangle geometry of the
//! faces that are visually exposed (bordering empty space or the world
//! boundary), together with a per-corner ambient-occlusion sample, a
//! texture-atlas quad per voxel material, and a triangulation whose diagonal
//! split follows the occlusion gradient.
//!
//! All geometry is exact integer data: vertex positions are measured in
//! half-voxel units (a cube corner sits one half-unit from the cube center),
//! normals are unit integer vectors, and texture coordinates are numerators
//! over a fixed 32x32 atlas grid.  A renderer divides by two, respectively by
//! thirty-two, to obtain floating-point buffers.

pub mod ao;
pub mod coord;
pub mod dims;
pub mod face;
pub mod grid;
pub mod laws;
pub mod mesh;
