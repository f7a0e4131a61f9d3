//! The settings that an asset starts with: its versions, its loader and the struct types that
//! it assumes for map and array properties.

use vstd::prelude::*;
use crate::containers::indexed_map::IndexedMap;
use crate::engine_version::{EngineVersion, OBJECT_VERSION_UNKNOWN, OBJECT_VERSION_UE5_UNKNOWN};
use super::overrides::{override_pairs, default_map_key_override, default_map_value_override,
    default_array_struct_type_override, default_map_key_pairs, default_map_value_pairs, default_array_struct_type_pairs};

verus! {

/// Asset data: what an asset is read and written with besides its exports.
pub struct AssetData {
    /// Does asset use the event driven loader
    pub use_event_driven_loader: bool,
    /// Whether the package summary carries no versions
    pub unversioned: bool,
    /// Engine version
    pub engine_version: EngineVersion,
    /// Object version
    pub object_version: i32,
    /// UE5 object version
    pub object_version_ue5: i32,
    /// Key struct types of map properties whose keys are structs
    pub map_key_override: IndexedMap<String, String>,
    /// Value struct types of map properties whose values are structs
    pub map_value_override: IndexedMap<String, String>,
    /// Element struct types of array properties whose elements are structs
    pub array_struct_type_override: IndexedMap<String, String>,
}

impl Default for AssetData {
    /// Unversioned, without the event driven loader, with unknown versions and the default
    /// struct type overrides.
    fn default() -> (r: Self)
        ensures
            !r.use_event_driven_loader,
            r.unversioned,
            r.engine_version == EngineVersion::UNKNOWN,
            r.object_version == OBJECT_VERSION_UNKNOWN,
            r.object_version_ue5 == OBJECT_VERSION_UE5_UNKNOWN,
            r.map_key_override.wf(),
            override_pairs(r.map_key_override.entries()) == default_map_key_pairs(),
            r.map_value_override.wf(),
            override_pairs(r.map_value_override.entries()) == default_map_value_pairs(),
            r.array_struct_type_override.wf(),
            override_pairs(r.array_struct_type_override.entries()) == default_array_struct_type_pairs(),
    {
        AssetData {
            use_event_driven_loader: false,
            unversioned: true,
            engine_version: EngineVersion::UNKNOWN,
            object_version: OBJECT_VERSION_UNKNOWN,
            object_version_ue5: OBJECT_VERSION_UE5_UNKNOWN,
            map_key_override: default_map_key_override(),
            map_value_override: default_map_value_override(),
            array_struct_type_override: default_array_struct_type_override(),
        }
    }
}

} // verus!
