//! Collision of a moving box with the solid voxels around it.
pub mod aabb;
pub mod laws;
pub mod neighborhood;
pub mod time;
pub mod volume;
