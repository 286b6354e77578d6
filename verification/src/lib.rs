//! Swept collision of an axis-aligned box with a sparse, chunked voxel
//! world.
//!
//! A body is an axis-aligned box that moves by a given velocity over one
//! step. The library finds the solid voxels that the body touches where it
//! stands ([`physics::collision::aabb::aabb_intersects_world`]) and those
//! that it runs into within the step
//! ([`physics::collision::aabb::aabb_vs_world`]), with the face that is hit
//! and the distance to it. Combining several collisions into one final
//! position is left to the caller.
//!
//! # Numbers
//!
//! Lengths and velocities are fixed-point: whole numbers of units, with
//! [`math::UNITS_PER_VOXEL`] units to the voxel edge. Moments within the
//! step are exact fractions. Nothing is rounded, so every answer is the one
//! that the rules of [`physics::collision::aabb`] give in exact arithmetic,
//! and the laws of [`physics::collision::laws`] hold of every input that
//! they name.
//!
//! # The world
//!
//! The world is read, never changed: a list of chunk data, the table of
//! loaded chunks that says where in the list each chunk's data is, and the
//! table of block kinds that says which kinds are empty. See
//! [`world::chunks`].
//!
//! # Around the world
//!
//! [`world::player`] keeps the player's place among the chunks, and
//! [`storage::blocks`] holds the rules by which the kinds of block are named
//! and their textures found.
pub mod math;
pub mod physics;
pub mod storage;
pub mod world;
