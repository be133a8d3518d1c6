//! Generators of metadata.

pub mod cache;
pub mod disk;
