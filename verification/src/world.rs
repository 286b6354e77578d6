//! The voxel world that bodies collide with.
pub mod chunks;
pub mod player;
