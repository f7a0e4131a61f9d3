//! IoStore .ucas file providers
//!
//! These are used to allow different .ucas file reading strategies
//! e.g. Memory mapping from disk, full read into memory, etc.

pub mod file;
pub mod memory;
