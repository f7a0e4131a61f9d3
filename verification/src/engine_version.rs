//! Engine versions, object versions, and guessing one from the others.

use vstd::prelude::*;

verus! {

/// An enum used to represent all retail versions of the Unreal Engine.
#[derive(Debug, Clone, Copy, PartialEq, Eq, Hash, Structural)]
#[allow(non_camel_case_types)]
pub enum EngineVersion {
    UNKNOWN,
    VER_UE4_OLDEST_LOADABLE_PACKAGE,
    /// 4.0
    VER_UE4_0,
    /// 4.1
    VER_UE4_1,
    /// 4.2
    VER_UE4_2,
    /// 4.3
    VER_UE4_3,
    /// 4.4
    VER_UE4_4,
    /// 4.5
    VER_UE4_5,
    /// 4.6
    VER_UE4_6,
    /// 4.7
    VER_UE4_7,
    /// 4.8
    VER_UE4_8,
    /// 4.9
    VER_UE4_9,
    /// 4.10
    VER_UE4_10,
    /// 4.11
    VER_UE4_11,
    /// 4.12
    VER_UE4_12,
    /// 4.13
    VER_UE4_13,
    /// 4.14
    VER_UE4_14,
    /// 4.15
    VER_UE4_15,
    /// 4.16
    VER_UE4_16,
    /// 4.17
    VER_UE4_17,
    /// 4.18
    VER_UE4_18,
    /// 4.19
    VER_UE4_19,
    /// 4.20
    VER_UE4_20,
    /// 4.21
    VER_UE4_21,
    /// 4.22
    VER_UE4_22,
    /// 4.23
    VER_UE4_23,
    /// 4.24
    VER_UE4_24,
    /// 4.25
    VER_UE4_25,
    /// 4.26
    VER_UE4_26,
    /// 4.27
    VER_UE4_27,
    /// 5.0
    VER_UE5_0,
    /// The newest specified version of the Unreal Engine.
    VER_UE4_AUTOMATIC_VERSION,
    VER_UE4_AUTOMATIC_VERSION_PLUS_ONE,
}

impl EngineVersion {
    /// Position of the version in release order.
    pub open spec fn ord(self) -> int {
        match self {
            EngineVersion::UNKNOWN => 0,
            EngineVersion::VER_UE4_OLDEST_LOADABLE_PACKAGE => 1,
            EngineVersion::VER_UE4_0 => 2,
            EngineVersion::VER_UE4_1 => 3,
            EngineVersion::VER_UE4_2 => 4,
            EngineVersion::VER_UE4_3 => 5,
            EngineVersion::VER_UE4_4 => 6,
            EngineVersion::VER_UE4_5 => 7,
            EngineVersion::VER_UE4_6 => 8,
            EngineVersion::VER_UE4_7 => 9,
            EngineVersion::VER_UE4_8 => 10,
            EngineVersion::VER_UE4_9 => 11,
            EngineVersion::VER_UE4_10 => 12,
            EngineVersion::VER_UE4_11 => 13,
            EngineVersion::VER_UE4_12 => 14,
            EngineVersion::VER_UE4_13 => 15,
            EngineVersion::VER_UE4_14 => 16,
            EngineVersion::VER_UE4_15 => 17,
            EngineVersion::VER_UE4_16 => 18,
            EngineVersion::VER_UE4_17 => 19,
            EngineVersion::VER_UE4_18 => 20,
            EngineVersion::VER_UE4_19 => 21,
            EngineVersion::VER_UE4_20 => 22,
            EngineVersion::VER_UE4_21 => 23,
            EngineVersion::VER_UE4_22 => 24,
            EngineVersion::VER_UE4_23 => 25,
            EngineVersion::VER_UE4_24 => 26,
            EngineVersion::VER_UE4_25 => 27,
            EngineVersion::VER_UE4_26 => 28,
            EngineVersion::VER_UE4_27 => 29,
            EngineVersion::VER_UE5_0 => 30,
            EngineVersion::VER_UE4_AUTOMATIC_VERSION => 31,
            EngineVersion::VER_UE4_AUTOMATIC_VERSION_PLUS_ONE => 32,
        }
    }

    /// Position of the version in release order.
    pub fn to_i32(self) -> (r: i32)
        ensures r == self.ord(),
    {
        match self {
            EngineVersion::UNKNOWN => 0,
            EngineVersion::VER_UE4_OLDEST_LOADABLE_PACKAGE => 1,
            EngineVersion::VER_UE4_0 => 2,
            EngineVersion::VER_UE4_1 => 3,
            EngineVersion::VER_UE4_2 => 4,
            EngineVersion::VER_UE4_3 => 5,
            EngineVersion::VER_UE4_4 => 6,
            EngineVersion::VER_UE4_5 => 7,
            EngineVersion::VER_UE4_6 => 8,
            EngineVersion::VER_UE4_7 => 9,
            EngineVersion::VER_UE4_8 => 10,
            EngineVersion::VER_UE4_9 => 11,
            EngineVersion::VER_UE4_10 => 12,
            EngineVersion::VER_UE4_11 => 13,
            EngineVersion::VER_UE4_12 => 14,
            EngineVersion::VER_UE4_13 => 15,
            EngineVersion::VER_UE4_14 => 16,
            EngineVersion::VER_UE4_15 => 17,
            EngineVersion::VER_UE4_16 => 18,
            EngineVersion::VER_UE4_17 => 19,
            EngineVersion::VER_UE4_18 => 20,
            EngineVersion::VER_UE4_19 => 21,
            EngineVersion::VER_UE4_20 => 22,
            EngineVersion::VER_UE4_21 => 23,
            EngineVersion::VER_UE4_22 => 24,
            EngineVersion::VER_UE4_23 => 25,
            EngineVersion::VER_UE4_24 => 26,
            EngineVersion::VER_UE4_25 => 27,
            EngineVersion::VER_UE4_26 => 28,
            EngineVersion::VER_UE4_27 => 29,
            EngineVersion::VER_UE5_0 => 30,
            EngineVersion::VER_UE4_AUTOMATIC_VERSION => 31,
            EngineVersion::VER_UE4_AUTOMATIC_VERSION_PLUS_ONE => 32,
        }
    }

    /// The version at a position in release order.
    pub fn from_i32(v: i32) -> (r: Option<EngineVersion>)
        ensures
            r is Some <==> 0 <= v < 33,
            r matches Some(e) ==> e.ord() == v,
    {
        match v {
            0 => Some(EngineVersion::UNKNOWN),
            1 => Some(EngineVersion::VER_UE4_OLDEST_LOADABLE_PACKAGE),
            2 => Some(EngineVersion::VER_UE4_0),
            3 => Some(EngineVersion::VER_UE4_1),
            4 => Some(EngineVersion::VER_UE4_2),
            5 => Some(EngineVersion::VER_UE4_3),
            6 => Some(EngineVersion::VER_UE4_4),
            7 => Some(EngineVersion::VER_UE4_5),
            8 => Some(EngineVersion::VER_UE4_6),
            9 => Some(EngineVersion::VER_UE4_7),
            10 => Some(EngineVersion::VER_UE4_8),
            11 => Some(EngineVersion::VER_UE4_9),
            12 => Some(EngineVersion::VER_UE4_10),
            13 => Some(EngineVersion::VER_UE4_11),
            14 => Some(EngineVersion::VER_UE4_12),
            15 => Some(EngineVersion::VER_UE4_13),
            16 => Some(EngineVersion::VER_UE4_14),
            17 => Some(EngineVersion::VER_UE4_15),
            18 => Some(EngineVersion::VER_UE4_16),
            19 => Some(EngineVersion::VER_UE4_17),
            20 => Some(EngineVersion::VER_UE4_18),
            21 => Some(EngineVersion::VER_UE4_19),
            22 => Some(EngineVersion::VER_UE4_20),
            23 => Some(EngineVersion::VER_UE4_21),
            24 => Some(EngineVersion::VER_UE4_22),
            25 => Some(EngineVersion::VER_UE4_23),
            26 => Some(EngineVersion::VER_UE4_24),
            27 => Some(EngineVersion::VER_UE4_25),
            28 => Some(EngineVersion::VER_UE4_26),
            29 => Some(EngineVersion::VER_UE4_27),
            30 => Some(EngineVersion::VER_UE5_0),
            31 => Some(EngineVersion::VER_UE4_AUTOMATIC_VERSION),
            32 => Some(EngineVersion::VER_UE4_AUTOMATIC_VERSION_PLUS_ONE),
            _ => None,
        }
    }
}

} // verus!
verus! {

/// The unknown object version
pub const OBJECT_VERSION_UNKNOWN: i32 = 0;
/// Object version `VER_UE4_PRIVATE_REMOTE_ROLE`
pub const VER_UE4_PRIVATE_REMOTE_ROLE: i32 = 342;
/// Object version `VER_UE4_UNDO_BREAK_MATERIALATTRIBUTES_CHANGE`
pub const VER_UE4_UNDO_BREAK_MATERIALATTRIBUTES_CHANGE: i32 = 352;
/// Object version `VER_UE4_FIX_MATERIAL_COORDS`
pub const VER_UE4_FIX_MATERIAL_COORDS: i32 = 363;
/// Object version `VER_UE4_FIX_MATERIAL_PROPERTY_OVERRIDE_SERIALIZE`
pub const VER_UE4_FIX_MATERIAL_PROPERTY_OVERRIDE_SERIALIZE: i32 = 382;
/// Object version `VER_UE4_BLUEPRINT_USE_SCS_ROOTCOMPONENT_SCALE`
pub const VER_UE4_BLUEPRINT_USE_SCS_ROOTCOMPONENT_SCALE: i32 = 385;
/// Object version `VER_UE4_RENAME_CAMERA_COMPONENT_CONTROL_ROTATION`
pub const VER_UE4_RENAME_CAMERA_COMPONENT_CONTROL_ROTATION: i32 = 401;
/// Object version `VER_UE4_MOVEMENTCOMPONENT_AXIS_SETTINGS`
pub const VER_UE4_MOVEMENTCOMPONENT_AXIS_SETTINGS: i32 = 413;
/// Object version `VER_UE4_AFTER_MERGING_ADD_MODIFIERS_RUNTIME_GENERATION_TO_4_7`
pub const VER_UE4_AFTER_MERGING_ADD_MODIFIERS_RUNTIME_GENERATION_TO_4_7: i32 = 434;
/// Object version `VER_UE4_SERIALIZE_BLUEPRINT_EVENTGRAPH_FASTCALLS_IN_UFUNCTION`
pub const VER_UE4_SERIALIZE_BLUEPRINT_EVENTGRAPH_FASTCALLS_IN_UFUNCTION: i32 = 451;
/// Object version `VER_UE4_APEX_CLOTH_TESSELLATION`
pub const VER_UE4_APEX_CLOTH_TESSELLATION: i32 = 482;
/// Object version `VER_UE4_STREAMABLE_TEXTURE_MIN_MAX_DISTANCE`
pub const VER_UE4_STREAMABLE_TEXTURE_MIN_MAX_DISTANCE: i32 = 498;
/// Object version `VER_UE4_NAME_HASHES_SERIALIZED`
pub const VER_UE4_NAME_HASHES_SERIALIZED: i32 = 504;
/// Object version `VER_UE4_INSTANCED_STEREO_UNIFORM_REFACTOR`
pub const VER_UE4_INSTANCED_STEREO_UNIFORM_REFACTOR: i32 = 505;
/// Object version `VER_UE4_TEMPLATE_INDEX_IN_COOKED_EXPORTS`
pub const VER_UE4_TEMPLATE_INDEX_IN_COOKED_EXPORTS: i32 = 508;
/// Object version `VER_UE4_ADDED_SEARCHABLE_NAMES`
pub const VER_UE4_ADDED_SEARCHABLE_NAMES: i32 = 510;
/// Object version `VER_UE4_ADDED_SWEEP_WHILE_WALKING_FLAG`
pub const VER_UE4_ADDED_SWEEP_WHILE_WALKING_FLAG: i32 = 513;
/// Object version `VER_UE4_ADDED_SOFT_OBJECT_PATH`
pub const VER_UE4_ADDED_SOFT_OBJECT_PATH: i32 = 514;
/// Object version `VER_UE4_ADDED_PACKAGE_SUMMARY_LOCALIZATION_ID`
pub const VER_UE4_ADDED_PACKAGE_SUMMARY_LOCALIZATION_ID: i32 = 516;
/// Object version `VER_UE4_FIX_WIDE_STRING_CRC`
pub const VER_UE4_FIX_WIDE_STRING_CRC: i32 = 517;
/// Object version `VER_UE4_ADDED_PACKAGE_OWNER`
pub const VER_UE4_ADDED_PACKAGE_OWNER: i32 = 518;
/// Object version `VER_UE4_SKINWEIGHT_PROFILE_DATA_LAYOUT_CHANGES`
pub const VER_UE4_SKINWEIGHT_PROFILE_DATA_LAYOUT_CHANGES: i32 = 519;
/// Object version `VER_UE4_CORRECT_LICENSEE_FLAG`
pub const VER_UE4_CORRECT_LICENSEE_FLAG: i32 = 522;
/// Object version `VER_UE4_LOAD_FOR_EDITOR_GAME`
pub const VER_UE4_LOAD_FOR_EDITOR_GAME: i32 = 365;
/// Object version `VER_UE4_COOKED_ASSETS_IN_EDITOR_SUPPORT`
pub const VER_UE4_COOKED_ASSETS_IN_EDITOR_SUPPORT: i32 = 485;
/// Object version `VER_UE4_PRELOAD_DEPENDENCIES_IN_COOKED_EXPORTS`
pub const VER_UE4_PRELOAD_DEPENDENCIES_IN_COOKED_EXPORTS: i32 = 507;
/// Object version `VER_UE4_64BIT_EXPORTMAP_SERIALSIZES`
pub const VER_UE4_64BIT_EXPORTMAP_SERIALSIZES: i32 = 511;
/// The unknown UE5 object version
pub const OBJECT_VERSION_UE5_UNKNOWN: i32 = 0;
/// UE5 object version `OPTIONAL_RESOURCES`
pub const OPTIONAL_RESOURCES: i32 = 1003;
/// UE5 object version `TRACK_OBJECT_EXPORT_IS_INHERITED`
pub const TRACK_OBJECT_EXPORT_IS_INHERITED: i32 = 1006;
/// UE5 object version `DATA_RESOURCES`
pub const DATA_RESOURCES: i32 = 1009;
/// UE5 object version `LARGE_WORLD_COORDINATES`
pub const LARGE_WORLD_COORDINATES: i32 = 1004;

/// Object versions and the engine versions that shipped them, oldest first.
pub open spec fn object_version_table() -> Seq<(i32, EngineVersion)> {
    seq![
        (VER_UE4_PRIVATE_REMOTE_ROLE, EngineVersion::VER_UE4_0),
        (VER_UE4_UNDO_BREAK_MATERIALATTRIBUTES_CHANGE, EngineVersion::VER_UE4_1),
        (VER_UE4_FIX_MATERIAL_COORDS, EngineVersion::VER_UE4_2),
        (VER_UE4_FIX_MATERIAL_PROPERTY_OVERRIDE_SERIALIZE, EngineVersion::VER_UE4_3),
        (VER_UE4_BLUEPRINT_USE_SCS_ROOTCOMPONENT_SCALE, EngineVersion::VER_UE4_4),
        (VER_UE4_RENAME_CAMERA_COMPONENT_CONTROL_ROTATION, EngineVersion::VER_UE4_5),
        (VER_UE4_MOVEMENTCOMPONENT_AXIS_SETTINGS, EngineVersion::VER_UE4_6),
        (VER_UE4_AFTER_MERGING_ADD_MODIFIERS_RUNTIME_GENERATION_TO_4_7, EngineVersion::VER_UE4_7),
        (VER_UE4_SERIALIZE_BLUEPRINT_EVENTGRAPH_FASTCALLS_IN_UFUNCTION, EngineVersion::VER_UE4_8),
        (VER_UE4_APEX_CLOTH_TESSELLATION, EngineVersion::VER_UE4_9),
        (VER_UE4_APEX_CLOTH_TESSELLATION, EngineVersion::VER_UE4_10),
        (VER_UE4_STREAMABLE_TEXTURE_MIN_MAX_DISTANCE, EngineVersion::VER_UE4_11),
        (VER_UE4_NAME_HASHES_SERIALIZED, EngineVersion::VER_UE4_12),
        (VER_UE4_INSTANCED_STEREO_UNIFORM_REFACTOR, EngineVersion::VER_UE4_13),
        (VER_UE4_TEMPLATE_INDEX_IN_COOKED_EXPORTS, EngineVersion::VER_UE4_14),
        (VER_UE4_ADDED_SEARCHABLE_NAMES, EngineVersion::VER_UE4_15),
        (VER_UE4_ADDED_SWEEP_WHILE_WALKING_FLAG, EngineVersion::VER_UE4_16),
        (VER_UE4_ADDED_SWEEP_WHILE_WALKING_FLAG, EngineVersion::VER_UE4_17),
        (VER_UE4_ADDED_SOFT_OBJECT_PATH, EngineVersion::VER_UE4_18),
        (VER_UE4_ADDED_PACKAGE_SUMMARY_LOCALIZATION_ID, EngineVersion::VER_UE4_19),
        (VER_UE4_ADDED_PACKAGE_SUMMARY_LOCALIZATION_ID, EngineVersion::VER_UE4_20),
        (VER_UE4_FIX_WIDE_STRING_CRC, EngineVersion::VER_UE4_21),
        (VER_UE4_FIX_WIDE_STRING_CRC, EngineVersion::VER_UE4_22),
        (VER_UE4_FIX_WIDE_STRING_CRC, EngineVersion::VER_UE4_23),
        (VER_UE4_ADDED_PACKAGE_OWNER, EngineVersion::VER_UE4_24),
        (VER_UE4_ADDED_PACKAGE_OWNER, EngineVersion::VER_UE4_25),
        (VER_UE4_SKINWEIGHT_PROFILE_DATA_LAYOUT_CHANGES, EngineVersion::VER_UE4_26),
        (VER_UE4_CORRECT_LICENSEE_FLAG, EngineVersion::VER_UE4_27),
        (VER_UE4_CORRECT_LICENSEE_FLAG, EngineVersion::VER_UE5_0)
    ]
}

/// Object versions and the engine versions that shipped them, oldest first.
fn object_version_pairs() -> (v: Vec<(i32, EngineVersion)>)
    ensures v@ == object_version_table(),
{
    let v = vec![
        (VER_UE4_PRIVATE_REMOTE_ROLE, EngineVersion::VER_UE4_0),
        (VER_UE4_UNDO_BREAK_MATERIALATTRIBUTES_CHANGE, EngineVersion::VER_UE4_1),
        (VER_UE4_FIX_MATERIAL_COORDS, EngineVersion::VER_UE4_2),
        (VER_UE4_FIX_MATERIAL_PROPERTY_OVERRIDE_SERIALIZE, EngineVersion::VER_UE4_3),
        (VER_UE4_BLUEPRINT_USE_SCS_ROOTCOMPONENT_SCALE, EngineVersion::VER_UE4_4),
        (VER_UE4_RENAME_CAMERA_COMPONENT_CONTROL_ROTATION, EngineVersion::VER_UE4_5),
        (VER_UE4_MOVEMENTCOMPONENT_AXIS_SETTINGS, EngineVersion::VER_UE4_6),
        (VER_UE4_AFTER_MERGING_ADD_MODIFIERS_RUNTIME_GENERATION_TO_4_7, EngineVersion::VER_UE4_7),
        (VER_UE4_SERIALIZE_BLUEPRINT_EVENTGRAPH_FASTCALLS_IN_UFUNCTION, EngineVersion::VER_UE4_8),
        (VER_UE4_APEX_CLOTH_TESSELLATION, EngineVersion::VER_UE4_9),
        (VER_UE4_APEX_CLOTH_TESSELLATION, EngineVersion::VER_UE4_10),
        (VER_UE4_STREAMABLE_TEXTURE_MIN_MAX_DISTANCE, EngineVersion::VER_UE4_11),
        (VER_UE4_NAME_HASHES_SERIALIZED, EngineVersion::VER_UE4_12),
        (VER_UE4_INSTANCED_STEREO_UNIFORM_REFACTOR, EngineVersion::VER_UE4_13),
        (VER_UE4_TEMPLATE_INDEX_IN_COOKED_EXPORTS, EngineVersion::VER_UE4_14),
        (VER_UE4_ADDED_SEARCHABLE_NAMES, EngineVersion::VER_UE4_15),
        (VER_UE4_ADDED_SWEEP_WHILE_WALKING_FLAG, EngineVersion::VER_UE4_16),
        (VER_UE4_ADDED_SWEEP_WHILE_WALKING_FLAG, EngineVersion::VER_UE4_17),
        (VER_UE4_ADDED_SOFT_OBJECT_PATH, EngineVersion::VER_UE4_18),
        (VER_UE4_ADDED_PACKAGE_SUMMARY_LOCALIZATION_ID, EngineVersion::VER_UE4_19),
        (VER_UE4_ADDED_PACKAGE_SUMMARY_LOCALIZATION_ID, EngineVersion::VER_UE4_20),
        (VER_UE4_FIX_WIDE_STRING_CRC, EngineVersion::VER_UE4_21),
        (VER_UE4_FIX_WIDE_STRING_CRC, EngineVersion::VER_UE4_22),
        (VER_UE4_FIX_WIDE_STRING_CRC, EngineVersion::VER_UE4_23),
        (VER_UE4_ADDED_PACKAGE_OWNER, EngineVersion::VER_UE4_24),
        (VER_UE4_ADDED_PACKAGE_OWNER, EngineVersion::VER_UE4_25),
        (VER_UE4_SKINWEIGHT_PROFILE_DATA_LAYOUT_CHANGES, EngineVersion::VER_UE4_26),
        (VER_UE4_CORRECT_LICENSEE_FLAG, EngineVersion::VER_UE4_27),
        (VER_UE4_CORRECT_LICENSEE_FLAG, EngineVersion::VER_UE5_0)
    ];
    assert(v@ =~= object_version_table());
    v
}

/// UE5 object versions and the engine versions they are taken for.
pub open spec fn object_version_ue5_table() -> Seq<(i32, EngineVersion)> {
    seq![(LARGE_WORLD_COORDINATES, EngineVersion::VER_UE4_5)]
}

/// The engine version of the first pair from `i` on with object version `ov`.
pub open spec fn engine_of_object_version(t: Seq<(i32, EngineVersion)>, ov: i32, i: int) -> Option<EngineVersion>
    decreases t.len() - i,
{
    if i < 0 || i >= t.len() {
        None
    } else if t[i].0 == ov {
        Some(t[i].1)
    } else {
        engine_of_object_version(t, ov, i + 1)
    }
}

/// The object version of the first pair from `i` on with engine version `ev`.
pub open spec fn object_version_of_engine(t: Seq<(i32, EngineVersion)>, ev: EngineVersion, i: int) -> Option<i32>
    decreases t.len() - i,
{
    if i < 0 || i >= t.len() {
        None
    } else if t[i].1 == ev {
        Some(t[i].0)
    } else {
        object_version_of_engine(t, ev, i + 1)
    }
}

/// The engine versions that an object version pair may come from: the one of the UE5
/// object version, then the first of the object version.
pub open spec fn possible_versions(object_version: i32, object_version_ue5: i32) -> Seq<EngineVersion> {
    (match engine_of_object_version(object_version_ue5_table(), object_version_ue5, 0) {
        Some(e) => seq![e],
        None => Seq::empty(),
    }) + (match engine_of_object_version(object_version_table(), object_version, 0) {
        Some(e) => seq![e],
        None => Seq::empty(),
    })
}

/// The first engine version from `i` on in `t` that shipped object version `ov`.
fn find_engine(t: &Vec<(i32, EngineVersion)>, ov: i32) -> (r: Option<EngineVersion>)
    ensures r == engine_of_object_version(t@, ov, 0),
{
    let mut i: usize = 0;
    while i < t.len()
        invariant
            i <= t.len(),
            engine_of_object_version(t@, ov, 0) == engine_of_object_version(t@, ov, i as int),
        decreases t.len() - i,
    {
        let (o, e) = t[i];
        if o == ov {
            return Some(e);
        }
        i = i + 1;
    }
    None
}

/// The object version of the first pair in `t` with engine version `ev`.
fn find_object_version(t: &Vec<(i32, EngineVersion)>, ev: EngineVersion) -> (r: Option<i32>)
    ensures r == object_version_of_engine(t@, ev, 0),
{
    let mut i: usize = 0;
    while i < t.len()
        invariant
            i <= t.len(),
            object_version_of_engine(t@, ev, 0) == object_version_of_engine(t@, ev, i as int),
        decreases t.len() - i,
    {
        let (o, e) = t[i];
        if e == ev {
            return Some(o);
        }
        i = i + 1;
    }
    None
}

/// The engine versions that an object version and a UE5 object version may come from.
pub fn get_possible_versions(object_version: i32, object_version_ue5: i32) -> (r: Vec<EngineVersion>)
    ensures r@ == possible_versions(object_version, object_version_ue5),
{
    let mut versions: Vec<EngineVersion> = Vec::new();
    let ue5 = vec![(LARGE_WORLD_COORDINATES, EngineVersion::VER_UE4_5)];
    assert(ue5@ =~= object_version_ue5_table());
    if let Some(e) = find_engine(&ue5, object_version_ue5) {
        versions.push(e);
    }
    let table = object_version_pairs();
    if let Some(e) = find_engine(&table, object_version) {
        versions.push(e);
    }
    assert(versions@ =~= possible_versions(object_version, object_version_ue5));
    versions
}

/// The object versions of an engine version: none for the unknown version; else the first
/// object version shipped with it, and its UE5 object version, each unknown when not listed.
pub open spec fn object_versions(engine_version: EngineVersion) -> (i32, i32) {
    if engine_version == EngineVersion::UNKNOWN {
        (OBJECT_VERSION_UNKNOWN, OBJECT_VERSION_UE5_UNKNOWN)
    } else {
        (
            match object_version_of_engine(object_version_table(), engine_version, 0) {
                Some(o) => o,
                None => OBJECT_VERSION_UNKNOWN,
            },
            match object_version_of_engine(object_version_ue5_table(), engine_version, 0) {
                Some(o) => o,
                None => OBJECT_VERSION_UE5_UNKNOWN,
            },
        )
    }
}

/// The object version and UE5 object version of an engine version.
pub fn get_object_versions(engine_version: EngineVersion) -> (r: (i32, i32))
    ensures r == object_versions(engine_version),
{
    if engine_version == EngineVersion::UNKNOWN {
        return (OBJECT_VERSION_UNKNOWN, OBJECT_VERSION_UE5_UNKNOWN);
    }
    let table = object_version_pairs();
    let object_version = match find_object_version(&table, engine_version) {
        Some(o) => o,
        None => OBJECT_VERSION_UNKNOWN,
    };
    let ue5 = vec![(LARGE_WORLD_COORDINATES, EngineVersion::VER_UE4_5)];
    assert(ue5@ =~= object_version_ue5_table());
    let object_version_ue5 = match find_object_version(&ue5, engine_version) {
        Some(o) => o,
        None => OBJECT_VERSION_UE5_UNKNOWN,
    };
    (object_version, object_version_ue5)
}

} // verus!

verus! {

/// A custom version, as what it holds: GUID, name, version number and mappings.
pub type CustomVersionView = (Seq<u8>, Option<Seq<char>>, i32, Seq<(EngineVersion, i32)>);

/// The version, or the unknown version.
pub open spec fn or_unknown(e: Option<EngineVersion>) -> EngineVersion {
    match e {
        Some(v) => v,
        None => EngineVersion::UNKNOWN,
    }
}

/// The engine versions that the first `n` custom versions allow, from and below: the
/// latest that introduced one of their version numbers, and the earliest that introduced
/// a number past one of them.
pub open spec fn introduced_bounds(cvs: Seq<CustomVersionView>, n: int) -> (EngineVersion, EngineVersion)
    decreases n,
{
    if n <= 0 || n > cvs.len() {
        (EngineVersion::VER_UE4_OLDEST_LOADABLE_PACKAGE, EngineVersion::VER_UE4_AUTOMATIC_VERSION_PLUS_ONE)
    } else {
        let (lo, hi) = introduced_bounds(cvs, n - 1);
        let cv = cvs[n - 1];
        let cur_min = or_unknown(crate::version_registry::engine_for_number_from(cv.3, cv.2, 0));
        let cur_max = or_unknown(crate::version_registry::engine_for_number_from(cv.3, (cv.2 + 1) as i32, 0));
        (
            if cur_min != EngineVersion::UNKNOWN && cur_min.ord() > lo.ord() { cur_min } else { lo },
            if cur_max != EngineVersion::UNKNOWN && cur_max.ord() < hi.ord() { cur_max } else { hi },
        )
    }
}

/// The engine version guessed from object versions and custom versions: the only possible
/// one, or the earliest possible one within the custom versions' bounds, or the first
/// possible one when none is within them.
pub open spec fn guessed_version(object_version: i32, object_version_ue5: i32, cvs: Seq<CustomVersionView>) -> EngineVersion {
    let pv = possible_versions(object_version, object_version_ue5);
    if pv.len() == 0 {
        EngineVersion::UNKNOWN
    } else if pv.len() == 1 {
        pv[0]
    } else {
        let (lo, hi) = introduced_bounds(cvs, cvs.len() as int);
        let a = pv[0];
        let b = pv[1];
        let a_in = lo.ord() <= a.ord() && a.ord() < hi.ord();
        let b_in = lo.ord() <= b.ord() && b.ord() < hi.ord();
        if a_in && b_in {
            if b.ord() < a.ord() { b } else { a }
        } else if a_in {
            a
        } else if b_in {
            b
        } else {
            a
        }
    }
}

/// Guess the engine version from object versions and the custom versions of an asset.
pub fn guess_engine_version(
    object_version: i32,
    object_version_ue5: i32,
    custom_versions: &[crate::version_registry::CustomVersion],
) -> (r: EngineVersion)
    requires
        possible_versions(object_version, object_version_ue5).len() >= 2 ==>
            forall|i: int| 0 <= i < custom_versions@.len() ==> #[trigger] custom_versions@[i].version < i32::MAX,
    ensures r == guessed_version(object_version, object_version_ue5, crate::version_registry::custom_views(custom_versions@)),
{
    let possible = get_possible_versions(object_version, object_version_ue5);
    if possible.len() == 0 {
        return EngineVersion::UNKNOWN;
    }
    if possible.len() == 1 {
        return possible[0];
    }
    let ghost cvs = crate::version_registry::custom_views(custom_versions@);
    let mut min_introduced = EngineVersion::VER_UE4_OLDEST_LOADABLE_PACKAGE;
    let mut max_introduced = EngineVersion::VER_UE4_AUTOMATIC_VERSION_PLUS_ONE;
    let mut i: usize = 0;
    while i < custom_versions.len()
        invariant
            i <= custom_versions.len(),
            cvs == crate::version_registry::custom_views(custom_versions@),
            forall|j: int| 0 <= j < custom_versions@.len() ==> #[trigger] custom_versions@[j].version < i32::MAX,
            (min_introduced, max_introduced) == introduced_bounds(cvs, i as int),
        decreases custom_versions.len() - i,
    {
        let cv = &custom_versions[i];
        assert(cvs[i as int] == cv.view());
        let current_min_introduced = match cv.get_engine_version_from_version_number(cv.version) {
            Some(e) => e,
            None => EngineVersion::UNKNOWN,
        };
        let current_max_introduced = match cv.get_engine_version_from_version_number(cv.version + 1) {
            Some(e) => e,
            None => EngineVersion::UNKNOWN,
        };
        if current_min_introduced != EngineVersion::UNKNOWN && current_min_introduced.to_i32() > min_introduced.to_i32() {
            min_introduced = current_min_introduced;
        }
        if current_max_introduced != EngineVersion::UNKNOWN && current_max_introduced.to_i32() < max_introduced.to_i32() {
            max_introduced = current_max_introduced;
        }
        i = i + 1;
    }
    let lo = min_introduced.to_i32();
    let hi = max_introduced.to_i32();
    let a = possible[0];
    let b = possible[1];
    let a_in = lo <= a.to_i32() && a.to_i32() < hi;
    let b_in = lo <= b.to_i32() && b.to_i32() < hi;
    if a_in && b_in {
        if b.to_i32() < a.to_i32() { b } else { a }
    } else if a_in {
        a
    } else if b_in {
        b
    } else {
        a
    }
}

} // verus!
