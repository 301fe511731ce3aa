//! A chunked voxel world: dense block storage, world-coordinate addressing,
//! face-culling mesh generation, and a first-person character controller that
//! collides with the voxel grid.
//!
//! All quantities are integers. Continuous quantities (positions, speeds,
//! angles) are held in fixed-point micro-units so that the simulation step and
//! its contracts are exact.

pub mod camera;
pub mod chunk;
pub mod cube;
pub mod fixed;
pub mod mesh;
pub mod vertex;
pub mod world;
