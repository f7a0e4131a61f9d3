//! Reading and writing Unreal Engine asset and IoStore container data.
//!
//! Every binary record of the formats is described twice: by executable
//! readers and writers over byte buffers, and by specification functions
//! that say which bytes a record occupies.  The contracts tie the two
//! together, and the laws state that reading back what was written yields
//! the written value.

pub mod ac7;
pub mod archive;
pub mod asset;
pub mod bytes;
pub mod containers;
pub mod custom_version;
pub mod engine_version;
pub mod enums;
pub mod error;
pub mod exports;
pub mod flags;
pub mod fproperty;
pub mod fproperty_rt;
pub mod fengineversion;
pub mod iostore;
pub mod kismet;
pub mod strings;
pub mod types;
pub mod version_registry;
