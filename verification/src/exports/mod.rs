//! Asset exports

pub mod base_export;
pub mod class_export;
pub mod export_kind;
pub mod raw_export;
pub mod roundtrip;
pub mod string_table_export;
