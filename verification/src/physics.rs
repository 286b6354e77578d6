//! How bodies move through the voxel world.
pub mod collision;
