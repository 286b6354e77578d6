//! What is known of the kinds of block before the world is built.
pub mod blocks;
