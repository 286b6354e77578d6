//! The kinds of block: how one is described, the kinds that are made from
//! it, and where its textures are found.
pub mod descriptor;
pub mod load;
pub mod textures;
