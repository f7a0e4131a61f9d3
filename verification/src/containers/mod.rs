//! Containers

pub mod chain;
pub mod indexed_map;
