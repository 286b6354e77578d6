//! The world as chunks of voxels: positions, and what is stored at them.
pub mod ecs;
pub mod positions;
pub mod storage;
