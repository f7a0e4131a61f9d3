//! Custom versions: engine sub-versions, and the known ones.

use vstd::prelude::*;
use crate::engine_version::EngineVersion;
use crate::types::{new_guid, spec_new_guid, Guid};

verus! {

/// A custom version enum: its version numbers by engine version, its name and GUID.
pub trait CustomVersionTrait: Sized {
    /// Engine versions and the version numbers they introduced, newest first.
    spec fn spec_version_mappings() -> Seq<(EngineVersion, i32)>;
    /// The name of the custom version.
    spec fn spec_friendly_name() -> Seq<char>;
    /// The GUID of the custom version.
    spec fn spec_guid() -> Seq<u8>;
    /// The version number of a value.
    spec fn spec_into_i32(self) -> i32;

    /// Engine versions and the version numbers they introduced, newest first.
    fn version_mappings() -> (r: Vec<(EngineVersion, i32)>)
        ensures r@ == Self::spec_version_mappings();
    /// The name of the custom version.
    fn friendly_name() -> (r: String)
        ensures r@ == Self::spec_friendly_name();
    /// The GUID of the custom version.
    fn guid() -> (r: Guid)
        ensures r@ == Self::spec_guid();
    /// The version number of a value.
    fn into_i32(self) -> (r: i32)
        ensures r == self.spec_into_i32();
}

/// Custom version `FFortniteMainBranchObjectVersion`
#[derive(Debug, Clone, Copy, PartialEq, Eq, Structural)]
pub enum FFortniteMainBranchObjectVersion {
    /// Before any version changes were made
    /// Introduced: ObjectVersion.VER_UE4_OLDEST_LOADABLE_PACKAGE
    BeforeCustomVersionWasAdded,
    /// World composition tile offset changed from 2d to 3d
    /// Introduced: ObjectVersion.VER_UE4_ADDED_PACKAGE_SUMMARY_LOCALIZATION_ID
    WorldCompositionTile3DOffset,
    /// Minor material serialization optimization
    /// Introduced: ObjectVersion.VER_UE4_ADDED_PACKAGE_SUMMARY_LOCALIZATION_ID
    MaterialInstanceSerializeOptimizationShaderFname,
    /// Refactored cull distances to account for HLOD, explicit override and globals in priority
    /// Introduced: ObjectVersion.VER_UE4_ADDED_PACKAGE_SUMMARY_LOCALIZATION_ID
    CullDistanceRefactorRemovedDefaultDistance,
    /// Introduced: ObjectVersion.VER_UE4_ADDED_PACKAGE_SUMMARY_LOCALIZATION_ID
    CullDistanceRefactorNeverCullHlodsByDefault,
    /// Introduced: ObjectVersion.VER_UE4_ADDED_PACKAGE_SUMMARY_LOCALIZATION_ID
    CullDistanceRefactorNeverCullAlodactorsByDefault,
    /// Support to remove morphtarget generated by bRemapMorphtarget
    /// Introduced: ObjectVersion.VER_UE4_ADDED_PACKAGE_SUMMARY_LOCALIZATION_ID
    SaveGeneratedMorphTargetByEngine,
    /// Convert reduction setting options
    /// Introduced: ObjectVersion.VER_UE4_ADDED_PACKAGE_SUMMARY_LOCALIZATION_ID
    ConvertReductionSettingOptions,
    /// Serialize the type of blending used for landscape layer weight static params
    /// Introduced: ObjectVersion.VER_UE4_ADDED_PACKAGE_SUMMARY_LOCALIZATION_ID
    StaticParameterTerrainLayerWeightBlendType,
    /// Fix up None Named animation curve names,
    /// Introduced: ObjectVersion.VER_UE4_ADDED_PACKAGE_SUMMARY_LOCALIZATION_ID
    FixUpNoneNameAnimationCurves,
    /// Ensure ActiveBoneIndices to have parents even not skinned for old assets
    /// Introduced: ObjectVersion.VER_UE4_ADDED_PACKAGE_SUMMARY_LOCALIZATION_ID
    EnsureActiveBoneIndicesToContainParents,
    /// Serialize the instanced static mesh render data, to avoid building it at runtime
    /// Introduced: ObjectVersion.VER_UE4_ADDED_PACKAGE_SUMMARY_LOCALIZATION_ID
    SerializeInstancedStaticMeshRenderData,
    /// Cache material quality node usage
    /// Introduced: ObjectVersion.VER_UE4_ADDED_PACKAGE_SUMMARY_LOCALIZATION_ID
    CachedMaterialQualityNodeUsage,
    /// Font outlines no longer apply to drop shadows for new objects but we maintain the opposite way for backwards compat
    /// Introduced: ObjectVersion.VER_UE4_ADDED_PACKAGE_SUMMARY_LOCALIZATION_ID
    FontOutlineDropShadowFixup,
    /// New skeletal mesh import workflow (Geometry only or animation only re-import )
    /// Introduced: ObjectVersion.VER_UE4_ADDED_PACKAGE_SUMMARY_LOCALIZATION_ID
    NewSkeletalMeshImporterWorkflow,
    /// Migrate data from previous data structure to new one to support materials per LOD on the Landscape
    /// Introduced: ObjectVersion.VER_UE4_ADDED_PACKAGE_SUMMARY_LOCALIZATION_ID
    NewLandscapeMaterialPerLOD,
    /// New Pose Asset data type
    /// Introduced: ObjectVersion.VER_UE4_ADDED_PACKAGE_SUMMARY_LOCALIZATION_ID
    RemoveUnnecessaryTracksFromPose,
    /// Migrate Foliage TLazyObjectPtr to TSoftObjectPtr
    /// Introduced: ObjectVersion.VER_UE4_ADDED_PACKAGE_SUMMARY_LOCALIZATION_ID
    FoliageLazyObjPtrToSoftObjPtr,
    /// TimelineTemplates store their derived names instead of dynamically generating. This code tied to this version was reverted and redone at a later date
    /// Introduced: ObjectVersion.VER_UE4_FIX_WIDE_STRING_CRC
    RevertedStoreTimelineNamesInTemplate,
    /// Added BakePoseOverride for LOD setting
    /// Introduced: ObjectVersion.VER_UE4_FIX_WIDE_STRING_CRC
    AddBakePoseOverrideForSkeletalMeshReductionSetting,
    /// TimelineTemplates store their derived names instead of dynamically generating
    /// Introduced: ObjectVersion.VER_UE4_FIX_WIDE_STRING_CRC
    StoreTimelineNamesInTemplate,
    /// New Pose Asset data type
    /// Introduced: ObjectVersion.VER_UE4_FIX_WIDE_STRING_CRC
    WidgetStopDuplicatingAnimations,
    /// Allow reducing of the base LOD, we need to store some imported model data so we can reduce again from the same data.
    /// Introduced: ObjectVersion.VER_UE4_FIX_WIDE_STRING_CRC
    AllowSkeletalMeshToReduceTheBaseLOD,
    /// Curve Table size reduction
    /// Introduced: ObjectVersion.VER_UE4_FIX_WIDE_STRING_CRC
    ShrinkCurveTableSize,
    /// Widgets upgraded with WidgetStopDuplicatingAnimations, may not correctly default-to-self for the widget parameter.
    /// Introduced: ObjectVersion.VER_UE4_FIX_WIDE_STRING_CRC
    WidgetAnimationDefaultToSelfFail,
    /// HUDWidgets now require an element tag
    /// Introduced: ObjectVersion.VER_UE4_FIX_WIDE_STRING_CRC
    FortHUDElementNowRequiresTag,
    /// Animation saved as bulk data when cooked
    /// Introduced: ObjectVersion.VER_UE4_FIX_WIDE_STRING_CRC
    FortMappedCookedAnimation,
    /// Support Virtual Bone in Retarget Manager
    /// Introduced: ObjectVersion.VER_UE4_FIX_WIDE_STRING_CRC
    SupportVirtualBoneInRetargeting,
    /// Fixup bad defaults in water metadata
    /// Introduced: ObjectVersion.VER_UE4_FIX_WIDE_STRING_CRC
    FixUpWaterMetadata,
    /// Move the location of water metadata
    /// Introduced: ObjectVersion.VER_UE4_FIX_WIDE_STRING_CRC
    MoveWaterMetadataToActor,
    /// Replaced lake collision component
    /// Introduced: ObjectVersion.VER_UE4_FIX_WIDE_STRING_CRC
    ReplaceLakeCollision,
    /// Anim layer node names are now conformed by Guid
    /// Introduced: ObjectVersion.VER_UE4_ADDED_PACKAGE_OWNER
    AnimLayerGuidConformation,
    /// Ocean collision component has become dynamic
    /// Introduced: ObjectVersion.VER_UE4_SKINWEIGHT_PROFILE_DATA_LAYOUT_CHANGES
    MakeOceanCollisionTransient,
    /// FFieldPath will serialize the owner struct reference and only a short path to its property
    /// Introduced: ObjectVersion.VER_UE4_SKINWEIGHT_PROFILE_DATA_LAYOUT_CHANGES
    FFieldPathOwnerSerialization,
    /// Simplified WaterBody post process material handling
    /// Introduced: ObjectVersion.VER_UE4_SKINWEIGHT_PROFILE_DATA_LAYOUT_CHANGES
    FixUpUnderwaterPostProcessMaterial,
    /// A single water exclusion volume can now exclude N water bodies
    /// Introduced: ObjectVersion.VER_UE4_SKINWEIGHT_PROFILE_DATA_LAYOUT_CHANGES
    SupportMultipleWaterBodiesPerExclusionVolume,
    /// Serialize rigvm operators one by one instead of the full byte code array to ensure determinism
    /// Introduced: ObjectVersion.VER_UE4_NON_OUTER_PACKAGE_IMPORT
    RigVMByteCodeDeterminism,
    /// Serialize the physical materials generated by the render material
    /// Introduced: ObjectVersion.VER_UE4_NON_OUTER_PACKAGE_IMPORT
    LandscapePhysicalMaterialRenderData,
    /// RuntimeVirtualTextureVolume fix transforms
    /// Introduced: ObjectVersion.VER_UE4_NON_OUTER_PACKAGE_IMPORT
    FixupRuntimeVirtualTextureVolume,
    /// Retrieve water body collision components that were lost in cooked builds
    /// Introduced: ObjectVersion.VER_UE4_NON_OUTER_PACKAGE_IMPORT
    FixUpRiverCollisionComponents,
    /// Fix duplicate spline mesh components on rivers
    /// Introduced: ObjectVersion.VER_UE4_NON_OUTER_PACKAGE_IMPORT
    FixDuplicateRiverSplineMeshCollisionComponents,
    /// Indicates level has stable actor guids
    /// Introduced: ObjectVersion.VER_UE4_NON_OUTER_PACKAGE_IMPORT
    ContainsStableActorGUIDs,
    /// Levelset Serialization support for BodySetup.
    /// Introduced: ObjectVersion.VER_UE4_NON_OUTER_PACKAGE_IMPORT
    LevelsetSerializationSupportForBodySetup,
    /// Moving Chaos solver properties to allow them to exist in the project physics settings
    /// Introduced: ObjectVersion.VER_UE4_ASSETREGISTRY_DEPENDENCYFLAGS
    ChaosSolverPropertiesMoved,
    /// Moving some UFortGameFeatureData properties and behaviors into the UGameFeatureAction pattern
    /// Introduced: ObjectVersion.VER_UE4_CORRECT_LICENSEE_FLAG
    GameFeatureDataMovedComponentListAndCheats,
    /// Add centrifugal forces for cloth
    /// Introduced: ObjectVersion.VER_UE4_CORRECT_LICENSEE_FLAG
    ChaosClothAddfictitiousforces,
    /// Chaos Convex StructureData supports different index sizes based on num verts/planes. Chaos FConvex uses array of FVec3s for vertices instead of particles (Merged from //UE4/Main)
    /// Introduced: ObjectVersion.VER_UE4_CORRECT_LICENSEE_FLAG
    ChaosConvexVariableStructureDataAndVerticesArray,
    /// Remove the WaterVelocityHeightTexture dependency on MPC_Landscape and LandscapeWaterIndo
    /// Introduced: ObjectVersion.VER_UE4_CORRECT_LICENSEE_FLAG
    RemoveLandscapeWaterInfo,
    /// Added the weighted value property type to store the cloths weight maps' low/high ranges
    /// Introduced: EngineVersion.VER_UE4_AUTOMATIC_VERSION_PLUS_ONE
    ChaosClothAddWeightedValue,
    /// Added the Long Range Attachment stiffness weight map
    /// Introduced: EngineVersion.VER_UE4_AUTOMATIC_VERSION_PLUS_ONE
    ChaosClothAddTetherStiffnessWeightMap,
    /// Fix corrupted LOD transition maps
    /// Introduced: EngineVersion.VER_UE4_AUTOMATIC_VERSION_PLUS_ONE
    ChaosClothFixLODTransitionMaps,
    /// Enable a few more weight maps to better art direct the cloth simulation
    /// Introduced: EngineVersion.VER_UE4_AUTOMATIC_VERSION_PLUS_ONE
    ChaosClothAddTetherScaleAndDragLiftWeightMaps,
    /// Enable material (edge, bending, and area stiffness) weight maps
    /// Introduced: EngineVersion.VER_UE4_AUTOMATIC_VERSION_PLUS_ONE
    ChaosClothAddMaterialWeightMaps,
    /// Added bShowCurve for movie scene float channel serialization
    /// Introduced: EngineVersion.VER_UE4_AUTOMATIC_VERSION_PLUS_ONE
    SerializeFloatChannelShowCurve,
    /// Minimize slack waste by using a single array for grass data
    /// Introduced: EngineVersion.VER_UE4_AUTOMATIC_VERSION_PLUS_ONE
    LandscapeGrassSingleArray,
    /// Add loop counters to sequencer's compiled sub-sequence data
    /// Introduced: EngineVersion.VER_UE4_AUTOMATIC_VERSION_PLUS_ONE
    AddedSubSequenceEntryWarpCounter,
    /// Water plugin is now component-based rather than actor based
    /// Introduced: EngineVersion.VER_UE4_AUTOMATIC_VERSION_PLUS_ONE
    WaterBodyComponentRefactor,
    /// Cooked BPGC storing editor-only asset tags
    /// Introduced: EngineVersion.VER_UE4_AUTOMATIC_VERSION_PLUS_ONE
    BPGCCookedEditorTags,
    /// Terrain layer weights are no longer considered material parameters
    /// Introduced: EngineVersion.VER_UE4_AUTOMATIC_VERSION_PLUS_ONE
    TerrainLayerWeightsAreNotParameters,
    /// Anim Dynamics Node Gravity Override vector is now defined in world space, not simulation space.
    /// Legacy behavior can be maintained with a flag, which is set false by default for new nodes,
    /// true for nodes predating this change.
    GravityOverrideDefinedInWorldSpace,
    /// Introduced: ObjectVersion.VER_UE4_AUTOMATIC_VERSION_PLUS_ONE
    VersionPlusOne,
    /// Introduced: ObjectVersion.VER_UE4_AUTOMATIC_VERSION
    LatestVersion,
}

impl FFortniteMainBranchObjectVersion {
    /// The numeric value of this version.
    pub open spec fn spec_value(self) -> i32 {
        match self {
            FFortniteMainBranchObjectVersion::BeforeCustomVersionWasAdded => 0,
            FFortniteMainBranchObjectVersion::WorldCompositionTile3DOffset => 1,
            FFortniteMainBranchObjectVersion::MaterialInstanceSerializeOptimizationShaderFname => 2,
            FFortniteMainBranchObjectVersion::CullDistanceRefactorRemovedDefaultDistance => 3,
            FFortniteMainBranchObjectVersion::CullDistanceRefactorNeverCullHlodsByDefault => 4,
            FFortniteMainBranchObjectVersion::CullDistanceRefactorNeverCullAlodactorsByDefault => 5,
            FFortniteMainBranchObjectVersion::SaveGeneratedMorphTargetByEngine => 6,
            FFortniteMainBranchObjectVersion::ConvertReductionSettingOptions => 7,
            FFortniteMainBranchObjectVersion::StaticParameterTerrainLayerWeightBlendType => 8,
            FFortniteMainBranchObjectVersion::FixUpNoneNameAnimationCurves => 9,
            FFortniteMainBranchObjectVersion::EnsureActiveBoneIndicesToContainParents => 10,
            FFortniteMainBranchObjectVersion::SerializeInstancedStaticMeshRenderData => 11,
            FFortniteMainBranchObjectVersion::CachedMaterialQualityNodeUsage => 12,
            FFortniteMainBranchObjectVersion::FontOutlineDropShadowFixup => 13,
            FFortniteMainBranchObjectVersion::NewSkeletalMeshImporterWorkflow => 14,
            FFortniteMainBranchObjectVersion::NewLandscapeMaterialPerLOD => 15,
            FFortniteMainBranchObjectVersion::RemoveUnnecessaryTracksFromPose => 16,
            FFortniteMainBranchObjectVersion::FoliageLazyObjPtrToSoftObjPtr => 17,
            FFortniteMainBranchObjectVersion::RevertedStoreTimelineNamesInTemplate => 18,
            FFortniteMainBranchObjectVersion::AddBakePoseOverrideForSkeletalMeshReductionSetting => 19,
            FFortniteMainBranchObjectVersion::StoreTimelineNamesInTemplate => 20,
            FFortniteMainBranchObjectVersion::WidgetStopDuplicatingAnimations => 21,
            FFortniteMainBranchObjectVersion::AllowSkeletalMeshToReduceTheBaseLOD => 22,
            FFortniteMainBranchObjectVersion::ShrinkCurveTableSize => 23,
            FFortniteMainBranchObjectVersion::WidgetAnimationDefaultToSelfFail => 24,
            FFortniteMainBranchObjectVersion::FortHUDElementNowRequiresTag => 25,
            FFortniteMainBranchObjectVersion::FortMappedCookedAnimation => 26,
            FFortniteMainBranchObjectVersion::SupportVirtualBoneInRetargeting => 27,
            FFortniteMainBranchObjectVersion::FixUpWaterMetadata => 28,
            FFortniteMainBranchObjectVersion::MoveWaterMetadataToActor => 29,
            FFortniteMainBranchObjectVersion::ReplaceLakeCollision => 30,
            FFortniteMainBranchObjectVersion::AnimLayerGuidConformation => 31,
            FFortniteMainBranchObjectVersion::MakeOceanCollisionTransient => 32,
            FFortniteMainBranchObjectVersion::FFieldPathOwnerSerialization => 33,
            FFortniteMainBranchObjectVersion::FixUpUnderwaterPostProcessMaterial => 34,
            FFortniteMainBranchObjectVersion::SupportMultipleWaterBodiesPerExclusionVolume => 35,
            FFortniteMainBranchObjectVersion::RigVMByteCodeDeterminism => 36,
            FFortniteMainBranchObjectVersion::LandscapePhysicalMaterialRenderData => 37,
            FFortniteMainBranchObjectVersion::FixupRuntimeVirtualTextureVolume => 38,
            FFortniteMainBranchObjectVersion::FixUpRiverCollisionComponents => 39,
            FFortniteMainBranchObjectVersion::FixDuplicateRiverSplineMeshCollisionComponents => 40,
            FFortniteMainBranchObjectVersion::ContainsStableActorGUIDs => 41,
            FFortniteMainBranchObjectVersion::LevelsetSerializationSupportForBodySetup => 42,
            FFortniteMainBranchObjectVersion::ChaosSolverPropertiesMoved => 43,
            FFortniteMainBranchObjectVersion::GameFeatureDataMovedComponentListAndCheats => 44,
            FFortniteMainBranchObjectVersion::ChaosClothAddfictitiousforces => 45,
            FFortniteMainBranchObjectVersion::ChaosConvexVariableStructureDataAndVerticesArray => 46,
            FFortniteMainBranchObjectVersion::RemoveLandscapeWaterInfo => 47,
            FFortniteMainBranchObjectVersion::ChaosClothAddWeightedValue => 48,
            FFortniteMainBranchObjectVersion::ChaosClothAddTetherStiffnessWeightMap => 49,
            FFortniteMainBranchObjectVersion::ChaosClothFixLODTransitionMaps => 50,
            FFortniteMainBranchObjectVersion::ChaosClothAddTetherScaleAndDragLiftWeightMaps => 51,
            FFortniteMainBranchObjectVersion::ChaosClothAddMaterialWeightMaps => 52,
            FFortniteMainBranchObjectVersion::SerializeFloatChannelShowCurve => 53,
            FFortniteMainBranchObjectVersion::LandscapeGrassSingleArray => 54,
            FFortniteMainBranchObjectVersion::AddedSubSequenceEntryWarpCounter => 55,
            FFortniteMainBranchObjectVersion::WaterBodyComponentRefactor => 56,
            FFortniteMainBranchObjectVersion::BPGCCookedEditorTags => 57,
            FFortniteMainBranchObjectVersion::TerrainLayerWeightsAreNotParameters => 58,
            FFortniteMainBranchObjectVersion::GravityOverrideDefinedInWorldSpace => 59,
            FFortniteMainBranchObjectVersion::VersionPlusOne => 60,
            FFortniteMainBranchObjectVersion::LatestVersion => 61,
        }
    }

    /// The numeric value of this version.
    pub fn value(self) -> (r: i32)
        ensures r == self.spec_value(),
    {
        match self {
            FFortniteMainBranchObjectVersion::BeforeCustomVersionWasAdded => 0,
            FFortniteMainBranchObjectVersion::WorldCompositionTile3DOffset => 1,
            FFortniteMainBranchObjectVersion::MaterialInstanceSerializeOptimizationShaderFname => 2,
            FFortniteMainBranchObjectVersion::CullDistanceRefactorRemovedDefaultDistance => 3,
            FFortniteMainBranchObjectVersion::CullDistanceRefactorNeverCullHlodsByDefault => 4,
            FFortniteMainBranchObjectVersion::CullDistanceRefactorNeverCullAlodactorsByDefault => 5,
            FFortniteMainBranchObjectVersion::SaveGeneratedMorphTargetByEngine => 6,
            FFortniteMainBranchObjectVersion::ConvertReductionSettingOptions => 7,
            FFortniteMainBranchObjectVersion::StaticParameterTerrainLayerWeightBlendType => 8,
            FFortniteMainBranchObjectVersion::FixUpNoneNameAnimationCurves => 9,
            FFortniteMainBranchObjectVersion::EnsureActiveBoneIndicesToContainParents => 10,
            FFortniteMainBranchObjectVersion::SerializeInstancedStaticMeshRenderData => 11,
            FFortniteMainBranchObjectVersion::CachedMaterialQualityNodeUsage => 12,
            FFortniteMainBranchObjectVersion::FontOutlineDropShadowFixup => 13,
            FFortniteMainBranchObjectVersion::NewSkeletalMeshImporterWorkflow => 14,
            FFortniteMainBranchObjectVersion::NewLandscapeMaterialPerLOD => 15,
            FFortniteMainBranchObjectVersion::RemoveUnnecessaryTracksFromPose => 16,
            FFortniteMainBranchObjectVersion::FoliageLazyObjPtrToSoftObjPtr => 17,
            FFortniteMainBranchObjectVersion::RevertedStoreTimelineNamesInTemplate => 18,
            FFortniteMainBranchObjectVersion::AddBakePoseOverrideForSkeletalMeshReductionSetting => 19,
            FFortniteMainBranchObjectVersion::StoreTimelineNamesInTemplate => 20,
            FFortniteMainBranchObjectVersion::WidgetStopDuplicatingAnimations => 21,
            FFortniteMainBranchObjectVersion::AllowSkeletalMeshToReduceTheBaseLOD => 22,
            FFortniteMainBranchObjectVersion::ShrinkCurveTableSize => 23,
            FFortniteMainBranchObjectVersion::WidgetAnimationDefaultToSelfFail => 24,
            FFortniteMainBranchObjectVersion::FortHUDElementNowRequiresTag => 25,
            FFortniteMainBranchObjectVersion::FortMappedCookedAnimation => 26,
            FFortniteMainBranchObjectVersion::SupportVirtualBoneInRetargeting => 27,
            FFortniteMainBranchObjectVersion::FixUpWaterMetadata => 28,
            FFortniteMainBranchObjectVersion::MoveWaterMetadataToActor => 29,
            FFortniteMainBranchObjectVersion::ReplaceLakeCollision => 30,
            FFortniteMainBranchObjectVersion::AnimLayerGuidConformation => 31,
            FFortniteMainBranchObjectVersion::MakeOceanCollisionTransient => 32,
            FFortniteMainBranchObjectVersion::FFieldPathOwnerSerialization => 33,
            FFortniteMainBranchObjectVersion::FixUpUnderwaterPostProcessMaterial => 34,
            FFortniteMainBranchObjectVersion::SupportMultipleWaterBodiesPerExclusionVolume => 35,
            FFortniteMainBranchObjectVersion::RigVMByteCodeDeterminism => 36,
            FFortniteMainBranchObjectVersion::LandscapePhysicalMaterialRenderData => 37,
            FFortniteMainBranchObjectVersion::FixupRuntimeVirtualTextureVolume => 38,
            FFortniteMainBranchObjectVersion::FixUpRiverCollisionComponents => 39,
            FFortniteMainBranchObjectVersion::FixDuplicateRiverSplineMeshCollisionComponents => 40,
            FFortniteMainBranchObjectVersion::ContainsStableActorGUIDs => 41,
            FFortniteMainBranchObjectVersion::LevelsetSerializationSupportForBodySetup => 42,
            FFortniteMainBranchObjectVersion::ChaosSolverPropertiesMoved => 43,
            FFortniteMainBranchObjectVersion::GameFeatureDataMovedComponentListAndCheats => 44,
            FFortniteMainBranchObjectVersion::ChaosClothAddfictitiousforces => 45,
            FFortniteMainBranchObjectVersion::ChaosConvexVariableStructureDataAndVerticesArray => 46,
            FFortniteMainBranchObjectVersion::RemoveLandscapeWaterInfo => 47,
            FFortniteMainBranchObjectVersion::ChaosClothAddWeightedValue => 48,
            FFortniteMainBranchObjectVersion::ChaosClothAddTetherStiffnessWeightMap => 49,
            FFortniteMainBranchObjectVersion::ChaosClothFixLODTransitionMaps => 50,
            FFortniteMainBranchObjectVersion::ChaosClothAddTetherScaleAndDragLiftWeightMaps => 51,
            FFortniteMainBranchObjectVersion::ChaosClothAddMaterialWeightMaps => 52,
            FFortniteMainBranchObjectVersion::SerializeFloatChannelShowCurve => 53,
            FFortniteMainBranchObjectVersion::LandscapeGrassSingleArray => 54,
            FFortniteMainBranchObjectVersion::AddedSubSequenceEntryWarpCounter => 55,
            FFortniteMainBranchObjectVersion::WaterBodyComponentRefactor => 56,
            FFortniteMainBranchObjectVersion::BPGCCookedEditorTags => 57,
            FFortniteMainBranchObjectVersion::TerrainLayerWeightsAreNotParameters => 58,
            FFortniteMainBranchObjectVersion::GravityOverrideDefinedInWorldSpace => 59,
            FFortniteMainBranchObjectVersion::VersionPlusOne => 60,
            FFortniteMainBranchObjectVersion::LatestVersion => 61,
        }
    }
}

impl CustomVersionTrait for FFortniteMainBranchObjectVersion {
    open spec fn spec_version_mappings() -> Seq<(EngineVersion, i32)> {
        seq![
            (EngineVersion::VER_UE4_AUTOMATIC_VERSION, 61),
            (EngineVersion::VER_UE4_AUTOMATIC_VERSION_PLUS_ONE, 60),
            (EngineVersion::VER_UE4_27, 47),
            (EngineVersion::VER_UE4_26, 43),
            (EngineVersion::VER_UE4_24, 31),
            (EngineVersion::VER_UE4_23, 27),
            (EngineVersion::VER_UE4_22, 25),
            (EngineVersion::VER_UE4_21, 17),
            (EngineVersion::VER_UE4_20, 12),
            (EngineVersion::VER_UE4_OLDEST_LOADABLE_PACKAGE, 0),
        ]
    }

    open spec fn spec_friendly_name() -> Seq<char> {
        "FFortniteMainBranchObjectVersion"@
    }

    open spec fn spec_guid() -> Seq<u8> {
        spec_new_guid(0x601D1886, 0xAC644F84, 0xAA16D3DE, 0x0DEAC7D6)
    }

    open spec fn spec_into_i32(self) -> i32 {
        self.spec_value()
    }

    fn version_mappings() -> (r: Vec<(EngineVersion, i32)>) {
        let mut r = Vec::new();
        r.push((EngineVersion::VER_UE4_AUTOMATIC_VERSION, 61));
        r.push((EngineVersion::VER_UE4_AUTOMATIC_VERSION_PLUS_ONE, 60));
        r.push((EngineVersion::VER_UE4_27, 47));
        r.push((EngineVersion::VER_UE4_26, 43));
        r.push((EngineVersion::VER_UE4_24, 31));
        r.push((EngineVersion::VER_UE4_23, 27));
        r.push((EngineVersion::VER_UE4_22, 25));
        r.push((EngineVersion::VER_UE4_21, 17));
        r.push((EngineVersion::VER_UE4_20, 12));
        r.push((EngineVersion::VER_UE4_OLDEST_LOADABLE_PACKAGE, 0));
        assert(r@ =~= Self::spec_version_mappings());
        r
    }

    fn friendly_name() -> (r: String) {
        String::from_str("FFortniteMainBranchObjectVersion")
    }

    fn guid() -> (r: Guid) {
        new_guid(0x601D1886, 0xAC644F84, 0xAA16D3DE, 0x0DEAC7D6)
    }

    fn into_i32(self) -> (r: i32) {
        self.value()
    }
}

/// Custom version `FFrameworkObjectVersion`
#[derive(Debug, Clone, Copy, PartialEq, Eq, Structural)]
pub enum FFrameworkObjectVersion {
    /// Before any version changes were made
    /// Introduced: ObjectVersion.VER_UE4_OLDEST_LOADABLE_PACKAGE
    BeforeCustomVersionWasAdded,
    /// BodySetup's default instance collision profile is used by default when creating a new instance.
    /// Introduced: ObjectVersion.VER_UE4_STREAMABLE_TEXTURE_AABB
    UseBodySetupCollisionProfile,
    /// Regenerate subgraph arrays correctly in animation blueprints to remove duplicates and add missing graphs that appear read only when edited
    /// Introduced: ObjectVersion.VER_UE4_PROPERTY_GUID_IN_PROPERTY_TAG
    AnimBlueprintSubgraphFix,
    /// Static and skeletal mesh sockets now use the specified scale
    /// Introduced: ObjectVersion.VER_UE4_NAME_HASHES_SERIALIZED
    MeshSocketScaleUtilization,
    /// Attachment rules are now explicit in how they affect location, rotation and scale
    /// Introduced: ObjectVersion.VER_UE4_NAME_HASHES_SERIALIZED
    ExplicitAttachmentRules,
    /// Moved compressed anim data from uasset to the DDC
    /// Introduced: ObjectVersion.VER_UE4_NAME_HASHES_SERIALIZED
    MoveCompressedAnimDataToTheDDC,
    /// Some graph pins created using legacy code seem to have lost the RF_Transactional flag, which causes issues with undo. Restore the flag at this version
    /// Introduced: ObjectVersion.VER_UE4_NAME_HASHES_SERIALIZED
    FixNonTransactionalPins,
    /// Create new struct for SmartName, and use that for CurveName
    /// Introduced: ObjectVersion.VER_UE4_NAME_HASHES_SERIALIZED
    SmartNameRefactor,
    /// Add Reference Skeleton to Rig
    /// Introduced: ObjectVersion.VER_UE4_NAME_HASHES_SERIALIZED
    AddSourceReferenceSkeletonToRig,
    /// Refactor ConstraintInstance so that we have an easy way to swap behavior paramters
    /// Introduced: ObjectVersion.VER_UE4_INSTANCED_STEREO_UNIFORM_REFACTOR
    ConstraintInstanceBehaviorParameters,
    /// Pose Asset support mask per bone
    /// Introduced: ObjectVersion.VER_UE4_INSTANCED_STEREO_UNIFORM_REFACTOR
    PoseAssetSupportPerBoneMask,
    /// Physics Assets now use SkeletalBodySetup instead of BodySetup
    /// Introduced: ObjectVersion.VER_UE4_INSTANCED_STEREO_UNIFORM_REFACTOR
    PhysAssetUseSkeletalBodySetup,
    /// Remove SoundWave CompressionName
    /// Introduced: ObjectVersion.VER_UE4_INSTANCED_STEREO_UNIFORM_REFACTOR
    RemoveSoundWaveCompressionName,
    /// Switched render data for clothing over to unreal data, reskinned to the simulation mesh
    /// Introduced: ObjectVersion.VER_UE4_INSTANCED_STEREO_UNIFORM_REFACTOR
    AddInternalClothingGraphicalSkinning,
    /// Wheel force offset is now applied at the wheel instead of vehicle COM
    /// Introduced: ObjectVersion.VER_UE4_INSTANCED_STEREO_UNIFORM_REFACTOR
    WheelOffsetIsFromWheel,
    /// Move curve metadata to be saved in skeleton. Individual asset still saves some flag - i.e. disabled curve and editable or not, but major flag - i.e. material types - moves to skeleton and handle in one place
    /// Introduced: ObjectVersion.VER_UE4_COMPRESSED_SHADER_RESOURCES
    MoveCurveTypesToSkeleton,
    /// Cache destructible overlaps on save
    /// Introduced: ObjectVersion.VER_UE4_TemplateIndex_IN_COOKED_EXPORTS
    CacheDestructibleOverlaps,
    /// Added serialization of materials applied to geometry cache objects
    /// Introduced: ObjectVersion.VER_UE4_TemplateIndex_IN_COOKED_EXPORTS
    GeometryCacheMissingMaterials,
    /// Switch static and skeletal meshes to calculate LODs based on resolution-independent screen size
    /// Introduced: ObjectVersion.VER_UE4_ADDED_SEARCHABLE_NAMES
    LODsUseResolutionIndependentScreenSize,
    /// Blend space post load verification
    /// Introduced: ObjectVersion.VER_UE4_ADDED_SEARCHABLE_NAMES
    BlendSpacePostLoadSnapToGrid,
    /// Addition of rate scales to blend space samples
    /// Introduced: ObjectVersion.VER_UE4_ADDED_SEARCHABLE_NAMES
    SupportBlendSpaceRateScale,
    /// LOD hysteresis also needs conversion from the LODsUseResolutionIndependentScreenSize version
    /// Introduced: ObjectVersion.VER_UE4_ADDED_SEARCHABLE_NAMES
    LODHysteresisUseResolutionIndependentScreenSize,
    /// AudioComponent override subtitle priority default change
    /// Introduced: ObjectVersion.VER_UE4_ADDED_SEARCHABLE_NAMES
    ChangeAudioComponentOverrideSubtitlePriorityDefault,
    /// Serialize hard references to sound files when possible
    /// Introduced: ObjectVersion.VER_UE4_64BIT_EXPORTMAP_SERIALSIZES
    HardSoundReferences,
    /// Enforce const correctness in Animation Blueprint function graphs
    /// Introduced: ObjectVersion.VER_UE4_ADDED_SWEEP_WHILE_WALKING_FLAG
    EnforceConstInAnimBlueprintFunctionGraphs,
    /// Upgrade the InputKeySelector to use a text style
    /// Introduced: ObjectVersion.VER_UE4_ADDED_SWEEP_WHILE_WALKING_FLAG
    InputKeySelectorTextStyle,
    /// Represent a pins container type as an enum not 3 independent booleans
    /// Introduced: ObjectVersion.VER_UE4_ADDED_SWEEP_WHILE_WALKING_FLAG
    EdGraphPinContainerType,
    /// Switch asset pins to store as string instead of hard object reference
    /// Introduced: ObjectVersion.VER_UE4_ADDED_SWEEP_WHILE_WALKING_FLAG
    ChangeAssetPinsToString,
    /// Fix Local Variables so that the properties are correctly flagged as blueprint visible
    /// Introduced: ObjectVersion.VER_UE4_ADDED_SWEEP_WHILE_WALKING_FLAG
    LocalVariablesBlueprintVisible,
    /// Stopped serializing UField_Next so that UFunctions could be serialized in dependently of a UClass in order to allow us to do all UFunction loading in a single pass (after classes and CDOs are created)
    /// Introduced: ObjectVersion.VER_UE4_ADDED_SOFT_OBJECT_PATH
    RemoveUfieldNext,
    /// Fix User Defined structs so that all members are correct flagged blueprint visible
    /// Introduced: ObjectVersion.VER_UE4_ADDED_SOFT_OBJECT_PATH
    UserDefinedStructsBlueprintVisible,
    /// FMaterialInput and FEdGraphPin store their name as FName instead of FString
    /// Introduced: ObjectVersion.VER_UE4_ADDED_SOFT_OBJECT_PATH
    PinsStoreFName,
    /// User defined structs store their default instance, which is used for initializing instances
    /// Introduced: ObjectVersion.VER_UE4_POINTLIGHT_SOURCE_ORIENTATION
    UserDefinedStructsStoreDefaultInstance,
    /// Function terminator nodes serialize an FMemberReference rather than a name/class pair
    /// Introduced: ObjectVersion.VER_UE4_ADDED_PACKAGE_SUMMARY_LOCALIZATION_ID
    FunctionTerminatorNodesUseMemberReference,
    /// Custom event and non-native interface event implementations add 'const' to reference parameters
    /// Introduced: ObjectVersion.VER_UE4_ADDED_PACKAGE_SUMMARY_LOCALIZATION_ID
    EditableEventsUseConstRefParameters,
    /// No longer serialize the legacy flag that indicates this state, as it is now implied since we don't serialize the skeleton CDO
    /// Introduced: ObjectVersion.VER_UE4_FIX_WIDE_STRING_CRC
    BlueprintGeneratedClassIsAlwaysAuthoritative,
    /// Enforce visibility of blueprint functions - e.g. raise an error if calling a private function from another blueprint:
    /// Introduced: ObjectVersion.VER_UE4_ADDED_PACKAGE_OWNER
    EnforceBlueprintFunctionVisibility,
    /// ActorComponents now store their serialization index
    /// Introduced: ObjectVersion.VER_UE4_ADDED_PACKAGE_OWNER
    StoringUCSSerializationIndex,
    /// Introduced: ObjectVersion.VER_UE4_AUTOMATIC_VERSION_PLUS_ONE
    VersionPlusOne,
    /// Introduced: ObjectVersion.VER_UE4_AUTOMATIC_VERSION
    LatestVersion,
}

impl FFrameworkObjectVersion {
    /// The numeric value of this version.
    pub open spec fn spec_value(self) -> i32 {
        match self {
            FFrameworkObjectVersion::BeforeCustomVersionWasAdded => 0,
            FFrameworkObjectVersion::UseBodySetupCollisionProfile => 1,
            FFrameworkObjectVersion::AnimBlueprintSubgraphFix => 2,
            FFrameworkObjectVersion::MeshSocketScaleUtilization => 3,
            FFrameworkObjectVersion::ExplicitAttachmentRules => 4,
            FFrameworkObjectVersion::MoveCompressedAnimDataToTheDDC => 5,
            FFrameworkObjectVersion::FixNonTransactionalPins => 6,
            FFrameworkObjectVersion::SmartNameRefactor => 7,
            FFrameworkObjectVersion::AddSourceReferenceSkeletonToRig => 8,
            FFrameworkObjectVersion::ConstraintInstanceBehaviorParameters => 9,
            FFrameworkObjectVersion::PoseAssetSupportPerBoneMask => 10,
            FFrameworkObjectVersion::PhysAssetUseSkeletalBodySetup => 11,
            FFrameworkObjectVersion::RemoveSoundWaveCompressionName => 12,
            FFrameworkObjectVersion::AddInternalClothingGraphicalSkinning => 13,
            FFrameworkObjectVersion::WheelOffsetIsFromWheel => 14,
            FFrameworkObjectVersion::MoveCurveTypesToSkeleton => 15,
            FFrameworkObjectVersion::CacheDestructibleOverlaps => 16,
            FFrameworkObjectVersion::GeometryCacheMissingMaterials => 17,
            FFrameworkObjectVersion::LODsUseResolutionIndependentScreenSize => 18,
            FFrameworkObjectVersion::BlendSpacePostLoadSnapToGrid => 19,
            FFrameworkObjectVersion::SupportBlendSpaceRateScale => 20,
            FFrameworkObjectVersion::LODHysteresisUseResolutionIndependentScreenSize => 21,
            FFrameworkObjectVersion::ChangeAudioComponentOverrideSubtitlePriorityDefault => 22,
            FFrameworkObjectVersion::HardSoundReferences => 23,
            FFrameworkObjectVersion::EnforceConstInAnimBlueprintFunctionGraphs => 24,
            FFrameworkObjectVersion::InputKeySelectorTextStyle => 25,
            FFrameworkObjectVersion::EdGraphPinContainerType => 26,
            FFrameworkObjectVersion::ChangeAssetPinsToString => 27,
            FFrameworkObjectVersion::LocalVariablesBlueprintVisible => 28,
            FFrameworkObjectVersion::RemoveUfieldNext => 29,
            FFrameworkObjectVersion::UserDefinedStructsBlueprintVisible => 30,
            FFrameworkObjectVersion::PinsStoreFName => 31,
            FFrameworkObjectVersion::UserDefinedStructsStoreDefaultInstance => 32,
            FFrameworkObjectVersion::FunctionTerminatorNodesUseMemberReference => 33,
            FFrameworkObjectVersion::EditableEventsUseConstRefParameters => 34,
            FFrameworkObjectVersion::BlueprintGeneratedClassIsAlwaysAuthoritative => 35,
            FFrameworkObjectVersion::EnforceBlueprintFunctionVisibility => 36,
            FFrameworkObjectVersion::StoringUCSSerializationIndex => 37,
            FFrameworkObjectVersion::VersionPlusOne => 38,
            FFrameworkObjectVersion::LatestVersion => 39,
        }
    }

    /// The numeric value of this version.
    pub fn value(self) -> (r: i32)
        ensures r == self.spec_value(),
    {
        match self {
            FFrameworkObjectVersion::BeforeCustomVersionWasAdded => 0,
            FFrameworkObjectVersion::UseBodySetupCollisionProfile => 1,
            FFrameworkObjectVersion::AnimBlueprintSubgraphFix => 2,
            FFrameworkObjectVersion::MeshSocketScaleUtilization => 3,
            FFrameworkObjectVersion::ExplicitAttachmentRules => 4,
            FFrameworkObjectVersion::MoveCompressedAnimDataToTheDDC => 5,
            FFrameworkObjectVersion::FixNonTransactionalPins => 6,
            FFrameworkObjectVersion::SmartNameRefactor => 7,
            FFrameworkObjectVersion::AddSourceReferenceSkeletonToRig => 8,
            FFrameworkObjectVersion::ConstraintInstanceBehaviorParameters => 9,
            FFrameworkObjectVersion::PoseAssetSupportPerBoneMask => 10,
            FFrameworkObjectVersion::PhysAssetUseSkeletalBodySetup => 11,
            FFrameworkObjectVersion::RemoveSoundWaveCompressionName => 12,
            FFrameworkObjectVersion::AddInternalClothingGraphicalSkinning => 13,
            FFrameworkObjectVersion::WheelOffsetIsFromWheel => 14,
            FFrameworkObjectVersion::MoveCurveTypesToSkeleton => 15,
            FFrameworkObjectVersion::CacheDestructibleOverlaps => 16,
            FFrameworkObjectVersion::GeometryCacheMissingMaterials => 17,
            FFrameworkObjectVersion::LODsUseResolutionIndependentScreenSize => 18,
            FFrameworkObjectVersion::BlendSpacePostLoadSnapToGrid => 19,
            FFrameworkObjectVersion::SupportBlendSpaceRateScale => 20,
            FFrameworkObjectVersion::LODHysteresisUseResolutionIndependentScreenSize => 21,
            FFrameworkObjectVersion::ChangeAudioComponentOverrideSubtitlePriorityDefault => 22,
            FFrameworkObjectVersion::HardSoundReferences => 23,
            FFrameworkObjectVersion::EnforceConstInAnimBlueprintFunctionGraphs => 24,
            FFrameworkObjectVersion::InputKeySelectorTextStyle => 25,
            FFrameworkObjectVersion::EdGraphPinContainerType => 26,
            FFrameworkObjectVersion::ChangeAssetPinsToString => 27,
            FFrameworkObjectVersion::LocalVariablesBlueprintVisible => 28,
            FFrameworkObjectVersion::RemoveUfieldNext => 29,
            FFrameworkObjectVersion::UserDefinedStructsBlueprintVisible => 30,
            FFrameworkObjectVersion::PinsStoreFName => 31,
            FFrameworkObjectVersion::UserDefinedStructsStoreDefaultInstance => 32,
            FFrameworkObjectVersion::FunctionTerminatorNodesUseMemberReference => 33,
            FFrameworkObjectVersion::EditableEventsUseConstRefParameters => 34,
            FFrameworkObjectVersion::BlueprintGeneratedClassIsAlwaysAuthoritative => 35,
            FFrameworkObjectVersion::EnforceBlueprintFunctionVisibility => 36,
            FFrameworkObjectVersion::StoringUCSSerializationIndex => 37,
            FFrameworkObjectVersion::VersionPlusOne => 38,
            FFrameworkObjectVersion::LatestVersion => 39,
        }
    }
}

impl CustomVersionTrait for FFrameworkObjectVersion {
    open spec fn spec_version_mappings() -> Seq<(EngineVersion, i32)> {
        seq![
            (EngineVersion::VER_UE4_AUTOMATIC_VERSION, 39),
            (EngineVersion::VER_UE4_AUTOMATIC_VERSION_PLUS_ONE, 38),
            (EngineVersion::VER_UE4_25, 37),
            (EngineVersion::VER_UE4_24, 36),
            (EngineVersion::VER_UE4_22, 35),
            (EngineVersion::VER_UE4_20, 34),
            (EngineVersion::VER_UE4_19, 33),
            (EngineVersion::VER_UE4_18, 30),
            (EngineVersion::VER_UE4_17, 28),
            (EngineVersion::VER_UE4_16, 23),
            (EngineVersion::VER_UE4_15, 22),
            (EngineVersion::VER_UE4_14, 17),
            (EngineVersion::VER_UE4_13, 12),
            (EngineVersion::VER_UE4_12, 6),
            (EngineVersion::VER_UE4_OLDEST_LOADABLE_PACKAGE, 0),
        ]
    }

    open spec fn spec_friendly_name() -> Seq<char> {
        "FFrameworkObjectVersion"@
    }

    open spec fn spec_guid() -> Seq<u8> {
        spec_new_guid(0xCFFC743F, 0x43B04480, 0x939114DF, 0x171D2073)
    }

    open spec fn spec_into_i32(self) -> i32 {
        self.spec_value()
    }

    fn version_mappings() -> (r: Vec<(EngineVersion, i32)>) {
        let mut r = Vec::new();
        r.push((EngineVersion::VER_UE4_AUTOMATIC_VERSION, 39));
        r.push((EngineVersion::VER_UE4_AUTOMATIC_VERSION_PLUS_ONE, 38));
        r.push((EngineVersion::VER_UE4_25, 37));
        r.push((EngineVersion::VER_UE4_24, 36));
        r.push((EngineVersion::VER_UE4_22, 35));
        r.push((EngineVersion::VER_UE4_20, 34));
        r.push((EngineVersion::VER_UE4_19, 33));
        r.push((EngineVersion::VER_UE4_18, 30));
        r.push((EngineVersion::VER_UE4_17, 28));
        r.push((EngineVersion::VER_UE4_16, 23));
        r.push((EngineVersion::VER_UE4_15, 22));
        r.push((EngineVersion::VER_UE4_14, 17));
        r.push((EngineVersion::VER_UE4_13, 12));
        r.push((EngineVersion::VER_UE4_12, 6));
        r.push((EngineVersion::VER_UE4_OLDEST_LOADABLE_PACKAGE, 0));
        assert(r@ =~= Self::spec_version_mappings());
        r
    }

    fn friendly_name() -> (r: String) {
        String::from_str("FFrameworkObjectVersion")
    }

    fn guid() -> (r: Guid) {
        new_guid(0xCFFC743F, 0x43B04480, 0x939114DF, 0x171D2073)
    }

    fn into_i32(self) -> (r: i32) {
        self.value()
    }
}

/// Custom version `FCoreObjectVersion`
#[derive(Debug, Clone, Copy, PartialEq, Eq, Structural)]
pub enum FCoreObjectVersion {
    /// Before any version changes were made
    /// Introduced: ObjectVersion.VER_UE4_OLDEST_LOADABLE_PACKAGE
    BeforeCustomVersionWasAdded,
    /// Introduced: ObjectVersion.VER_UE4_PROPERTY_GUID_IN_PROPERTY_TAG
    MaterialInputNativeSerialize,
    /// Introduced: ObjectVersion.VER_UE4_ADDED_SEARCHABLE_NAMES
    EnumProperties,
    /// Introduced: ObjectVersion.VER_UE4_FIX_WIDE_STRING_CRC
    SkeletalMaterialEditorDataStripping,
    /// Introduced: ObjectVersion.VER_UE4_ADDED_PACKAGE_OWNER
    FProperties,
    /// Introduced: ObjectVersion.VER_UE4_AUTOMATIC_VERSION_PLUS_ONE
    VersionPlusOne,
    /// Introduced: ObjectVersion.VER_UE4_AUTOMATIC_VERSION
    LatestVersion,
}

impl FCoreObjectVersion {
    /// The numeric value of this version.
    pub open spec fn spec_value(self) -> i32 {
        match self {
            FCoreObjectVersion::BeforeCustomVersionWasAdded => 0,
            FCoreObjectVersion::MaterialInputNativeSerialize => 1,
            FCoreObjectVersion::EnumProperties => 2,
            FCoreObjectVersion::SkeletalMaterialEditorDataStripping => 3,
            FCoreObjectVersion::FProperties => 4,
            FCoreObjectVersion::VersionPlusOne => 5,
            FCoreObjectVersion::LatestVersion => 6,
        }
    }

    /// The numeric value of this version.
    pub fn value(self) -> (r: i32)
        ensures r == self.spec_value(),
    {
        match self {
            FCoreObjectVersion::BeforeCustomVersionWasAdded => 0,
            FCoreObjectVersion::MaterialInputNativeSerialize => 1,
            FCoreObjectVersion::EnumProperties => 2,
            FCoreObjectVersion::SkeletalMaterialEditorDataStripping => 3,
            FCoreObjectVersion::FProperties => 4,
            FCoreObjectVersion::VersionPlusOne => 5,
            FCoreObjectVersion::LatestVersion => 6,
        }
    }
}

impl CustomVersionTrait for FCoreObjectVersion {
    open spec fn spec_version_mappings() -> Seq<(EngineVersion, i32)> {
        seq![
            (EngineVersion::VER_UE4_AUTOMATIC_VERSION, 6),
            (EngineVersion::VER_UE4_AUTOMATIC_VERSION_PLUS_ONE, 5),
            (EngineVersion::VER_UE4_25, 4),
            (EngineVersion::VER_UE4_22, 3),
            (EngineVersion::VER_UE4_15, 2),
            (EngineVersion::VER_UE4_12, 1),
            (EngineVersion::VER_UE4_OLDEST_LOADABLE_PACKAGE, 0),
        ]
    }

    open spec fn spec_friendly_name() -> Seq<char> {
        "FCoreObjectVersion"@
    }

    open spec fn spec_guid() -> Seq<u8> {
        spec_new_guid(0x375EC13C, 0x06E448FB, 0xB50084F0, 0x262A717E)
    }

    open spec fn spec_into_i32(self) -> i32 {
        self.spec_value()
    }

    fn version_mappings() -> (r: Vec<(EngineVersion, i32)>) {
        let mut r = Vec::new();
        r.push((EngineVersion::VER_UE4_AUTOMATIC_VERSION, 6));
        r.push((EngineVersion::VER_UE4_AUTOMATIC_VERSION_PLUS_ONE, 5));
        r.push((EngineVersion::VER_UE4_25, 4));
        r.push((EngineVersion::VER_UE4_22, 3));
        r.push((EngineVersion::VER_UE4_15, 2));
        r.push((EngineVersion::VER_UE4_12, 1));
        r.push((EngineVersion::VER_UE4_OLDEST_LOADABLE_PACKAGE, 0));
        assert(r@ =~= Self::spec_version_mappings());
        r
    }

    fn friendly_name() -> (r: String) {
        String::from_str("FCoreObjectVersion")
    }

    fn guid() -> (r: Guid) {
        new_guid(0x375EC13C, 0x06E448FB, 0xB50084F0, 0x262A717E)
    }

    fn into_i32(self) -> (r: i32) {
        self.value()
    }
}

/// Custom version `FEditorObjectVersion`
#[derive(Debug, Clone, Copy, PartialEq, Eq, Structural)]
pub enum FEditorObjectVersion {
    /// Before any version changes were made
    /// Introduced: ObjectVersion.VER_UE4_OLDEST_LOADABLE_PACKAGE
    BeforeCustomVersionWasAdded,
    /// Localizable text gathered and stored in packages is now flagged with a localizable text gathering process version
    /// Introduced: ObjectVersion.VER_UE4_STREAMABLE_TEXTURE_AABB
    GatheredTextProcessVersionFlagging,
    /// Fixed several issues with the gathered text cache stored in package headers
    /// Introduced: ObjectVersion.VER_UE4_NAME_HASHES_SERIALIZED
    GatheredTextPackageCacheFixesV1,
    /// Added support for "root" meta-data (meta-data not associated with a particular object in a package)
    /// Introduced: ObjectVersion.VER_UE4_INSTANCED_STEREO_UNIFORM_REFACTOR
    RootMetaDataSupport,
    /// Fixed issues with how Blueprint bytecode was cached
    /// Introduced: ObjectVersion.VER_UE4_INSTANCED_STEREO_UNIFORM_REFACTOR
    GatheredTextPackageCacheFixesV2,
    /// Updated FFormatArgumentData to allow variant data to be marshaled from a BP into C++
    /// Introduced: ObjectVersion.VER_UE4_INSTANCED_STEREO_UNIFORM_REFACTOR
    TextFormatArgumentDataIsVariant,
    /// Changes to SplineComponent
    /// Introduced: ObjectVersion.VER_UE4_INSTANCED_STEREO_UNIFORM_REFACTOR
    SplineComponentCurvesInStruct,
    /// Updated ComboBox to support toggling the menu open, better controller support
    /// Introduced: ObjectVersion.VER_UE4_COMPRESSED_SHADER_RESOURCES
    ComboBoxControllerSupportUpdate,
    /// Refactor mesh editor materials
    /// Introduced: ObjectVersion.VER_UE4_COMPRESSED_SHADER_RESOURCES
    RefactorMeshEditorMaterials,
    /// Added UFontFace assets
    /// Introduced: ObjectVersion.VER_UE4_TemplateIndex_IN_COOKED_EXPORTS
    AddedFontFaceAssets,
    /// Add UPROPERTY for TMap of Mesh section, so the serialize will be done normally (and export to text will work correctly)
    /// Introduced: ObjectVersion.VER_UE4_ADDED_SEARCHABLE_NAMES
    UPropertryForMeshSection,
    /// Update the schema of all widget blueprints to use the WidgetGraphSchema
    /// Introduced: ObjectVersion.VER_UE4_ADDED_SEARCHABLE_NAMES
    WidgetGraphSchema,
    /// Added a specialized content slot to the background blur widget
    /// Introduced: ObjectVersion.VER_UE4_ADDED_SEARCHABLE_NAMES
    AddedBackgroundBlurContentSlot,
    /// Updated UserDefinedEnums to have stable keyed display names
    /// Introduced: ObjectVersion.VER_UE4_ADDED_SEARCHABLE_NAMES
    StableUserDefinedEnumDisplayNames,
    /// Added "Inline" option to UFontFace assets
    /// Introduced: ObjectVersion.VER_UE4_ADDED_SEARCHABLE_NAMES
    AddedInlineFontFaceAssets,
    /// Fix a serialization issue with static mesh FMeshSectionInfoMap FProperty
    /// Introduced: ObjectVersion.VER_UE4_ADDED_SEARCHABLE_NAMES
    UPropertryForMeshSectionSerialize,
    /// Adding a version bump for the new fast widget construction in case of problems.
    /// Introduced: ObjectVersion.VER_UE4_64BIT_EXPORTMAP_SERIALSIZES
    FastWidgetTemplates,
    /// Update material thumbnails to be more intelligent on default primitive shape for certain material types
    /// Introduced: ObjectVersion.VER_UE4_64BIT_EXPORTMAP_SERIALSIZES
    MaterialThumbnailRenderingChanges,
    /// Introducing a new clipping system for Slate/UMG
    /// Introduced: ObjectVersion.VER_UE4_ADDED_SWEEP_WHILE_WALKING_FLAG
    NewSlateClippingSystem,
    /// MovieScene Meta Data added as native Serialization
    /// Introduced: ObjectVersion.VER_UE4_ADDED_SWEEP_WHILE_WALKING_FLAG
    MovieSceneMetaDataSerialization,
    /// Text gathered from properties now adds two variants: a version without the package localization ID (for use at runtime), and a version with it (which is editor-only)
    /// Introduced: ObjectVersion.VER_UE4_ADDED_SWEEP_WHILE_WALKING_FLAG
    GatheredTextEditorOnlyPackageLocId,
    /// Added AlwaysSign to FNumberFormattingOptions
    /// Introduced: ObjectVersion.VER_UE4_ADDED_SOFT_OBJECT_PATH
    AddedAlwaysSignNumberFormattingOption,
    /// Added additional objects that must be serialized as part of this new material feature
    /// Introduced: ObjectVersion.VER_UE4_ADDED_PACKAGE_SUMMARY_LOCALIZATION_ID
    AddedMaterialSharedInputs,
    /// Added morph target section indices
    /// Introduced: ObjectVersion.VER_UE4_ADDED_PACKAGE_SUMMARY_LOCALIZATION_ID
    AddedMorphTargetSectionIndices,
    /// Serialize the instanced static mesh render data, to avoid building it at runtime
    /// Introduced: ObjectVersion.VER_UE4_ADDED_PACKAGE_SUMMARY_LOCALIZATION_ID
    SerializeInstancedStaticMeshRenderData,
    /// Change to MeshDescription serialization (moved to release)
    /// Introduced: ObjectVersion.VER_UE4_ADDED_PACKAGE_SUMMARY_LOCALIZATION_ID
    MeshDescriptionNewSerializationMovedToRelease,
    /// New format for mesh description attributes
    /// Introduced: ObjectVersion.VER_UE4_ADDED_PACKAGE_SUMMARY_LOCALIZATION_ID
    MeshDescriptionNewAttributeFormat,
    /// Switch root component of SceneCapture actors from MeshComponent to SceneComponent
    /// Introduced: ObjectVersion.VER_UE4_FIX_WIDE_STRING_CRC
    ChangeSceneCaptureRootComponent,
    /// StaticMesh serializes MeshDescription instead of RawMesh
    /// Introduced: ObjectVersion.VER_UE4_FIX_WIDE_STRING_CRC
    StaticMeshDeprecatedRawMesh,
    /// MeshDescriptionBulkData contains a Guid used as a DDC key
    /// Introduced: ObjectVersion.VER_UE4_FIX_WIDE_STRING_CRC
    MeshDescriptionBulkDataGuid,
    /// Change to MeshDescription serialization (removed FMeshPolygon::HoleContours)
    /// Introduced: ObjectVersion.VER_UE4_FIX_WIDE_STRING_CRC
    MeshDescriptionRemovedHoles,
    /// Change to the WidgetCompoent WindowVisibilty default value
    /// Introduced: ObjectVersion.VER_UE4_FIX_WIDE_STRING_CRC
    ChangedWidgetComponentWindowVisibilityDefault,
    /// Avoid keying culture invariant display strings during serialization to avoid non-deterministic cooking issues
    /// Introduced: ObjectVersion.VER_UE4_FIX_WIDE_STRING_CRC
    CultureInvariantTextSerializationKeyStability,
    /// Change to UScrollBar and UScrollBox thickness property (removed implicit padding of 2, so thickness value must be incremented by 4).
    /// Introduced: ObjectVersion.VER_UE4_FIX_WIDE_STRING_CRC
    ScrollBarThicknessChange,
    /// Deprecated LandscapeHoleMaterial
    /// Introduced: ObjectVersion.VER_UE4_FIX_WIDE_STRING_CRC
    RemoveLandscapeHoleMaterial,
    /// MeshDescription defined by triangles instead of arbitrary polygons
    /// Introduced: ObjectVersion.VER_UE4_FIX_WIDE_STRING_CRC
    MeshDescriptionTriangles,
    /// Add weighted area and angle when computing the normals
    /// Introduced: ObjectVersion.VER_UE4_ADDED_PACKAGE_OWNER
    ComputeWeightedNormals,
    /// SkeletalMesh now can be rebuild in editor, no more need to re-import
    /// Introduced: ObjectVersion.VER_UE4_ADDED_PACKAGE_OWNER
    SkeletalMeshBuildRefactor,
    /// Move all SkeletalMesh source data into a private uasset in the same package has the skeletalmesh
    /// Introduced: ObjectVersion.VER_UE4_ADDED_PACKAGE_OWNER
    SkeletalMeshMoveEditorSourceDataToPrivateAsset,
    /// Parse text only if the number is inside the limits of its type
    /// Introduced: ObjectVersion.VER_UE4_NON_OUTER_PACKAGE_IMPORT
    NumberParsingOptionsNumberLimitsAndClamping,
    /// Make sure we can have more then 255 material in the skeletal mesh source data
    /// Introduced: ObjectVersion.VER_UE4_NON_OUTER_PACKAGE_IMPORT
    SkeletalMeshSourceDataSupport16bitOfMaterialNumber,
    /// Introduced: ObjectVersion.VER_UE4_AUTOMATIC_VERSION_PLUS_ONE
    VersionPlusOne,
    /// Introduced: ObjectVersion.VER_UE4_AUTOMATIC_VERSION
    LatestVersion,
}

impl FEditorObjectVersion {
    /// The numeric value of this version.
    pub open spec fn spec_value(self) -> i32 {
        match self {
            FEditorObjectVersion::BeforeCustomVersionWasAdded => 0,
            FEditorObjectVersion::GatheredTextProcessVersionFlagging => 1,
            FEditorObjectVersion::GatheredTextPackageCacheFixesV1 => 2,
            FEditorObjectVersion::RootMetaDataSupport => 3,
            FEditorObjectVersion::GatheredTextPackageCacheFixesV2 => 4,
            FEditorObjectVersion::TextFormatArgumentDataIsVariant => 5,
            FEditorObjectVersion::SplineComponentCurvesInStruct => 6,
            FEditorObjectVersion::ComboBoxControllerSupportUpdate => 7,
            FEditorObjectVersion::RefactorMeshEditorMaterials => 8,
            FEditorObjectVersion::AddedFontFaceAssets => 9,
            FEditorObjectVersion::UPropertryForMeshSection => 10,
            FEditorObjectVersion::WidgetGraphSchema => 11,
            FEditorObjectVersion::AddedBackgroundBlurContentSlot => 12,
            FEditorObjectVersion::StableUserDefinedEnumDisplayNames => 13,
            FEditorObjectVersion::AddedInlineFontFaceAssets => 14,
            FEditorObjectVersion::UPropertryForMeshSectionSerialize => 15,
            FEditorObjectVersion::FastWidgetTemplates => 16,
            FEditorObjectVersion::MaterialThumbnailRenderingChanges => 17,
            FEditorObjectVersion::NewSlateClippingSystem => 18,
            FEditorObjectVersion::MovieSceneMetaDataSerialization => 19,
            FEditorObjectVersion::GatheredTextEditorOnlyPackageLocId => 20,
            FEditorObjectVersion::AddedAlwaysSignNumberFormattingOption => 21,
            FEditorObjectVersion::AddedMaterialSharedInputs => 22,
            FEditorObjectVersion::AddedMorphTargetSectionIndices => 23,
            FEditorObjectVersion::SerializeInstancedStaticMeshRenderData => 24,
            FEditorObjectVersion::MeshDescriptionNewSerializationMovedToRelease => 25,
            FEditorObjectVersion::MeshDescriptionNewAttributeFormat => 26,
            FEditorObjectVersion::ChangeSceneCaptureRootComponent => 27,
            FEditorObjectVersion::StaticMeshDeprecatedRawMesh => 28,
            FEditorObjectVersion::MeshDescriptionBulkDataGuid => 29,
            FEditorObjectVersion::MeshDescriptionRemovedHoles => 30,
            FEditorObjectVersion::ChangedWidgetComponentWindowVisibilityDefault => 31,
            FEditorObjectVersion::CultureInvariantTextSerializationKeyStability => 32,
            FEditorObjectVersion::ScrollBarThicknessChange => 33,
            FEditorObjectVersion::RemoveLandscapeHoleMaterial => 34,
            FEditorObjectVersion::MeshDescriptionTriangles => 35,
            FEditorObjectVersion::ComputeWeightedNormals => 36,
            FEditorObjectVersion::SkeletalMeshBuildRefactor => 37,
            FEditorObjectVersion::SkeletalMeshMoveEditorSourceDataToPrivateAsset => 38,
            FEditorObjectVersion::NumberParsingOptionsNumberLimitsAndClamping => 39,
            FEditorObjectVersion::SkeletalMeshSourceDataSupport16bitOfMaterialNumber => 40,
            FEditorObjectVersion::VersionPlusOne => 41,
            FEditorObjectVersion::LatestVersion => 42,
        }
    }

    /// The numeric value of this version.
    pub fn value(self) -> (r: i32)
        ensures r == self.spec_value(),
    {
        match self {
            FEditorObjectVersion::BeforeCustomVersionWasAdded => 0,
            FEditorObjectVersion::GatheredTextProcessVersionFlagging => 1,
            FEditorObjectVersion::GatheredTextPackageCacheFixesV1 => 2,
            FEditorObjectVersion::RootMetaDataSupport => 3,
            FEditorObjectVersion::GatheredTextPackageCacheFixesV2 => 4,
            FEditorObjectVersion::TextFormatArgumentDataIsVariant => 5,
            FEditorObjectVersion::SplineComponentCurvesInStruct => 6,
            FEditorObjectVersion::ComboBoxControllerSupportUpdate => 7,
            FEditorObjectVersion::RefactorMeshEditorMaterials => 8,
            FEditorObjectVersion::AddedFontFaceAssets => 9,
            FEditorObjectVersion::UPropertryForMeshSection => 10,
            FEditorObjectVersion::WidgetGraphSchema => 11,
            FEditorObjectVersion::AddedBackgroundBlurContentSlot => 12,
            FEditorObjectVersion::StableUserDefinedEnumDisplayNames => 13,
            FEditorObjectVersion::AddedInlineFontFaceAssets => 14,
            FEditorObjectVersion::UPropertryForMeshSectionSerialize => 15,
            FEditorObjectVersion::FastWidgetTemplates => 16,
            FEditorObjectVersion::MaterialThumbnailRenderingChanges => 17,
            FEditorObjectVersion::NewSlateClippingSystem => 18,
            FEditorObjectVersion::MovieSceneMetaDataSerialization => 19,
            FEditorObjectVersion::GatheredTextEditorOnlyPackageLocId => 20,
            FEditorObjectVersion::AddedAlwaysSignNumberFormattingOption => 21,
            FEditorObjectVersion::AddedMaterialSharedInputs => 22,
            FEditorObjectVersion::AddedMorphTargetSectionIndices => 23,
            FEditorObjectVersion::SerializeInstancedStaticMeshRenderData => 24,
            FEditorObjectVersion::MeshDescriptionNewSerializationMovedToRelease => 25,
            FEditorObjectVersion::MeshDescriptionNewAttributeFormat => 26,
            FEditorObjectVersion::ChangeSceneCaptureRootComponent => 27,
            FEditorObjectVersion::StaticMeshDeprecatedRawMesh => 28,
            FEditorObjectVersion::MeshDescriptionBulkDataGuid => 29,
            FEditorObjectVersion::MeshDescriptionRemovedHoles => 30,
            FEditorObjectVersion::ChangedWidgetComponentWindowVisibilityDefault => 31,
            FEditorObjectVersion::CultureInvariantTextSerializationKeyStability => 32,
            FEditorObjectVersion::ScrollBarThicknessChange => 33,
            FEditorObjectVersion::RemoveLandscapeHoleMaterial => 34,
            FEditorObjectVersion::MeshDescriptionTriangles => 35,
            FEditorObjectVersion::ComputeWeightedNormals => 36,
            FEditorObjectVersion::SkeletalMeshBuildRefactor => 37,
            FEditorObjectVersion::SkeletalMeshMoveEditorSourceDataToPrivateAsset => 38,
            FEditorObjectVersion::NumberParsingOptionsNumberLimitsAndClamping => 39,
            FEditorObjectVersion::SkeletalMeshSourceDataSupport16bitOfMaterialNumber => 40,
            FEditorObjectVersion::VersionPlusOne => 41,
            FEditorObjectVersion::LatestVersion => 42,
        }
    }
}

impl CustomVersionTrait for FEditorObjectVersion {
    open spec fn spec_version_mappings() -> Seq<(EngineVersion, i32)> {
        seq![
            (EngineVersion::VER_UE4_AUTOMATIC_VERSION, 42),
            (EngineVersion::VER_UE4_AUTOMATIC_VERSION_PLUS_ONE, 41),
            (EngineVersion::VER_UE4_26, 40),
            (EngineVersion::VER_UE4_25, 38),
            (EngineVersion::VER_UE4_24, 37),
            (EngineVersion::VER_UE4_23, 34),
            (EngineVersion::VER_UE4_22, 30),
            (EngineVersion::VER_UE4_21, 26),
            (EngineVersion::VER_UE4_20, 24),
            (EngineVersion::VER_UE4_19, 23),
            (EngineVersion::VER_UE4_17, 20),
            (EngineVersion::VER_UE4_16, 17),
            (EngineVersion::VER_UE4_15, 14),
            (EngineVersion::VER_UE4_14, 9),
            (EngineVersion::VER_UE4_13, 6),
            (EngineVersion::VER_UE4_12, 2),
            (EngineVersion::VER_UE4_OLDEST_LOADABLE_PACKAGE, 0),
        ]
    }

    open spec fn spec_friendly_name() -> Seq<char> {
        "FEditorObjectVersion"@
    }

    open spec fn spec_guid() -> Seq<u8> {
        spec_new_guid(0xE4B068ED, 0xF49442E9, 0xA231DA0B, 0x2E46BB41)
    }

    open spec fn spec_into_i32(self) -> i32 {
        self.spec_value()
    }

    fn version_mappings() -> (r: Vec<(EngineVersion, i32)>) {
        let mut r = Vec::new();
        r.push((EngineVersion::VER_UE4_AUTOMATIC_VERSION, 42));
        r.push((EngineVersion::VER_UE4_AUTOMATIC_VERSION_PLUS_ONE, 41));
        r.push((EngineVersion::VER_UE4_26, 40));
        r.push((EngineVersion::VER_UE4_25, 38));
        r.push((EngineVersion::VER_UE4_24, 37));
        r.push((EngineVersion::VER_UE4_23, 34));
        r.push((EngineVersion::VER_UE4_22, 30));
        r.push((EngineVersion::VER_UE4_21, 26));
        r.push((EngineVersion::VER_UE4_20, 24));
        r.push((EngineVersion::VER_UE4_19, 23));
        r.push((EngineVersion::VER_UE4_17, 20));
        r.push((EngineVersion::VER_UE4_16, 17));
        r.push((EngineVersion::VER_UE4_15, 14));
        r.push((EngineVersion::VER_UE4_14, 9));
        r.push((EngineVersion::VER_UE4_13, 6));
        r.push((EngineVersion::VER_UE4_12, 2));
        r.push((EngineVersion::VER_UE4_OLDEST_LOADABLE_PACKAGE, 0));
        assert(r@ =~= Self::spec_version_mappings());
        r
    }

    fn friendly_name() -> (r: String) {
        String::from_str("FEditorObjectVersion")
    }

    fn guid() -> (r: Guid) {
        new_guid(0xE4B068ED, 0xF49442E9, 0xA231DA0B, 0x2E46BB41)
    }

    fn into_i32(self) -> (r: i32) {
        self.value()
    }
}

/// Custom version `FAnimPhysObjectVersion`
#[derive(Debug, Clone, Copy, PartialEq, Eq, Structural)]
pub enum FAnimPhysObjectVersion {
    /// Before any version changes were made
    /// Introduced: ObjectVersion.VER_UE4_OLDEST_LOADABLE_PACKAGE
    BeforeCustomVersionWasAdded,
    /// convert animnode look at to use just default axis instead of enum, which doesn't do much
    /// Introduced: ObjectVersion.VER_UE4_ADDED_SWEEP_WHILE_WALKING_FLAG
    ConvertAnimNodeLookAtAxis,
    /// Change FKSphylElem and FKBoxElem to use Rotators not Quats for easier editing
    /// Introduced: ObjectVersion.VER_UE4_ADDED_SWEEP_WHILE_WALKING_FLAG
    BoxSphylElemsUseRotators,
    /// Change thumbnail scene info and asset import data to be transactional
    /// Introduced: ObjectVersion.VER_UE4_ADDED_SWEEP_WHILE_WALKING_FLAG
    ThumbnailSceneInfoAndAssetImportDataAreTransactional,
    /// Enabled clothing masks rather than painting parameters directly
    /// Introduced: ObjectVersion.VER_UE4_ADDED_SWEEP_WHILE_WALKING_FLAG
    AddedClothingMaskWorkflow,
    /// Remove UID from smart name serialize, it just breaks determinism
    /// Introduced: ObjectVersion.VER_UE4_ADDED_SWEEP_WHILE_WALKING_FLAG
    RemoveUIDFromSmartNameSerialize,
    /// Convert FName Socket to FSocketReference and added TargetReference that support bone and socket
    /// Introduced: ObjectVersion.VER_UE4_ADDED_SWEEP_WHILE_WALKING_FLAG
    CreateTargetReference,
    /// Tune soft limit stiffness and damping coefficients
    /// Introduced: ObjectVersion.VER_UE4_ADDED_SWEEP_WHILE_WALKING_FLAG
    TuneSoftLimitStiffnessAndDamping,
    /// Fix possible inf/nans in clothing particle masses
    /// Introduced: ObjectVersion.VER_UE4_ADDED_SWEEP_WHILE_WALKING_FLAG
    FixInvalidClothParticleMasses,
    /// Moved influence count to cached data
    /// Introduced: ObjectVersion.VER_UE4_ADDED_SWEEP_WHILE_WALKING_FLAG
    CacheClothMeshInfluences,
    /// Remove GUID from Smart Names entirely + remove automatic name fixup
    /// Introduced: ObjectVersion.VER_UE4_ADDED_SOFT_OBJECT_PATH
    SmartNameRefactorForDeterministicCooking,
    /// rename the variable and allow individual curves to be set
    /// Introduced: ObjectVersion.VER_UE4_ADDED_SOFT_OBJECT_PATH
    RenameDisableAnimCurvesToAllowAnimCurveEvaluation,
    /// link curve to LOD, so curve metadata has to include LODIndex
    /// Introduced: ObjectVersion.VER_UE4_ADDED_SOFT_OBJECT_PATH
    AddLODToCurveMetaData,
    /// Fixed blend profile references persisting after paste when they aren't compatible
    /// Introduced: ObjectVersion.VER_UE4_ADDED_SOFT_OBJECT_PATH
    FixupBadBlendProfileReferences,
    /// Allowing multiple audio plugin settings
    /// Introduced: ObjectVersion.VER_UE4_ADDED_SOFT_OBJECT_PATH
    AllowMultipleAudioPluginSettings,
    /// Change RetargetSource reference to SoftObjectPtr
    /// Introduced: ObjectVersion.VER_UE4_POINTLIGHT_SOURCE_ORIENTATION
    ChangeRetargetSourceReferenceToSoftObjectPtr,
    /// Save editor only full pose for pose asset
    /// Introduced: ObjectVersion.VER_UE4_POINTLIGHT_SOURCE_ORIENTATION
    SaveEditorOnlyFullPoseForPoseAsset,
    /// Asset change and cleanup to facilitate new streaming system
    /// Introduced: ObjectVersion.VER_UE4_ADDED_PACKAGE_SUMMARY_LOCALIZATION_ID
    GeometryCacheAssetDeprecation,
    /// Introduced: ObjectVersion.VER_UE4_AUTOMATIC_VERSION_PLUS_ONE
    VersionPlusOne,
    /// Introduced: ObjectVersion.VER_UE4_AUTOMATIC_VERSION
    LatestVersion,
}

impl FAnimPhysObjectVersion {
    /// The numeric value of this version.
    pub open spec fn spec_value(self) -> i32 {
        match self {
            FAnimPhysObjectVersion::BeforeCustomVersionWasAdded => 0,
            FAnimPhysObjectVersion::ConvertAnimNodeLookAtAxis => 1,
            FAnimPhysObjectVersion::BoxSphylElemsUseRotators => 2,
            FAnimPhysObjectVersion::ThumbnailSceneInfoAndAssetImportDataAreTransactional => 3,
            FAnimPhysObjectVersion::AddedClothingMaskWorkflow => 4,
            FAnimPhysObjectVersion::RemoveUIDFromSmartNameSerialize => 5,
            FAnimPhysObjectVersion::CreateTargetReference => 6,
            FAnimPhysObjectVersion::TuneSoftLimitStiffnessAndDamping => 7,
            FAnimPhysObjectVersion::FixInvalidClothParticleMasses => 8,
            FAnimPhysObjectVersion::CacheClothMeshInfluences => 9,
            FAnimPhysObjectVersion::SmartNameRefactorForDeterministicCooking => 10,
            FAnimPhysObjectVersion::RenameDisableAnimCurvesToAllowAnimCurveEvaluation => 11,
            FAnimPhysObjectVersion::AddLODToCurveMetaData => 12,
            FAnimPhysObjectVersion::FixupBadBlendProfileReferences => 13,
            FAnimPhysObjectVersion::AllowMultipleAudioPluginSettings => 14,
            FAnimPhysObjectVersion::ChangeRetargetSourceReferenceToSoftObjectPtr => 15,
            FAnimPhysObjectVersion::SaveEditorOnlyFullPoseForPoseAsset => 16,
            FAnimPhysObjectVersion::GeometryCacheAssetDeprecation => 17,
            FAnimPhysObjectVersion::VersionPlusOne => 18,
            FAnimPhysObjectVersion::LatestVersion => 19,
        }
    }

    /// The numeric value of this version.
    pub fn value(self) -> (r: i32)
        ensures r == self.spec_value(),
    {
        match self {
            FAnimPhysObjectVersion::BeforeCustomVersionWasAdded => 0,
            FAnimPhysObjectVersion::ConvertAnimNodeLookAtAxis => 1,
            FAnimPhysObjectVersion::BoxSphylElemsUseRotators => 2,
            FAnimPhysObjectVersion::ThumbnailSceneInfoAndAssetImportDataAreTransactional => 3,
            FAnimPhysObjectVersion::AddedClothingMaskWorkflow => 4,
            FAnimPhysObjectVersion::RemoveUIDFromSmartNameSerialize => 5,
            FAnimPhysObjectVersion::CreateTargetReference => 6,
            FAnimPhysObjectVersion::TuneSoftLimitStiffnessAndDamping => 7,
            FAnimPhysObjectVersion::FixInvalidClothParticleMasses => 8,
            FAnimPhysObjectVersion::CacheClothMeshInfluences => 9,
            FAnimPhysObjectVersion::SmartNameRefactorForDeterministicCooking => 10,
            FAnimPhysObjectVersion::RenameDisableAnimCurvesToAllowAnimCurveEvaluation => 11,
            FAnimPhysObjectVersion::AddLODToCurveMetaData => 12,
            FAnimPhysObjectVersion::FixupBadBlendProfileReferences => 13,
            FAnimPhysObjectVersion::AllowMultipleAudioPluginSettings => 14,
            FAnimPhysObjectVersion::ChangeRetargetSourceReferenceToSoftObjectPtr => 15,
            FAnimPhysObjectVersion::SaveEditorOnlyFullPoseForPoseAsset => 16,
            FAnimPhysObjectVersion::GeometryCacheAssetDeprecation => 17,
            FAnimPhysObjectVersion::VersionPlusOne => 18,
            FAnimPhysObjectVersion::LatestVersion => 19,
        }
    }
}

impl CustomVersionTrait for FAnimPhysObjectVersion {
    open spec fn spec_version_mappings() -> Seq<(EngineVersion, i32)> {
        seq![
            (EngineVersion::VER_UE4_AUTOMATIC_VERSION, 19),
            (EngineVersion::VER_UE4_AUTOMATIC_VERSION_PLUS_ONE, 18),
            (EngineVersion::VER_UE4_20, 17),
            (EngineVersion::VER_UE4_19, 16),
            (EngineVersion::VER_UE4_18, 12),
            (EngineVersion::VER_UE4_17, 7),
            (EngineVersion::VER_UE4_16, 3),
            (EngineVersion::VER_UE4_OLDEST_LOADABLE_PACKAGE, 0),
        ]
    }

    open spec fn spec_friendly_name() -> Seq<char> {
        "FAnimPhysObjectVersion"@
    }

    open spec fn spec_guid() -> Seq<u8> {
        spec_new_guid(0x29E575DD, 0xE0A34627, 0x9D10D276, 0x232CDCEA)
    }

    open spec fn spec_into_i32(self) -> i32 {
        self.spec_value()
    }

    fn version_mappings() -> (r: Vec<(EngineVersion, i32)>) {
        let mut r = Vec::new();
        r.push((EngineVersion::VER_UE4_AUTOMATIC_VERSION, 19));
        r.push((EngineVersion::VER_UE4_AUTOMATIC_VERSION_PLUS_ONE, 18));
        r.push((EngineVersion::VER_UE4_20, 17));
        r.push((EngineVersion::VER_UE4_19, 16));
        r.push((EngineVersion::VER_UE4_18, 12));
        r.push((EngineVersion::VER_UE4_17, 7));
        r.push((EngineVersion::VER_UE4_16, 3));
        r.push((EngineVersion::VER_UE4_OLDEST_LOADABLE_PACKAGE, 0));
        assert(r@ =~= Self::spec_version_mappings());
        r
    }

    fn friendly_name() -> (r: String) {
        String::from_str("FAnimPhysObjectVersion")
    }

    fn guid() -> (r: Guid) {
        new_guid(0x29E575DD, 0xE0A34627, 0x9D10D276, 0x232CDCEA)
    }

    fn into_i32(self) -> (r: i32) {
        self.value()
    }
}

/// Custom version `FReleaseObjectVersion`
#[derive(Debug, Clone, Copy, PartialEq, Eq, Structural)]
pub enum FReleaseObjectVersion {
    /// Before any version changes were made
    /// Introduced: ObjectVersion.VER_UE4_OLDEST_LOADABLE_PACKAGE
    BeforeCustomVersionWasAdded,
    /// Static Mesh extended bounds radius fix
    /// Introduced: ObjectVersion.VER_UE4_NAME_HASHES_SERIALIZED
    StaticMeshExtendedBoundsFix,
    /// Physics asset bodies are either in the sync scene or the async scene, but not both
    /// Introduced: ObjectVersion.VER_UE4_INSTANCED_STEREO_UNIFORM_REFACTOR
    NoSyncAsyncPhysAsset,
    /// ULevel was using TTransArray incorrectly (serializing the entire array in addition to individual mutations). converted to a TArray
    /// Introduced: ObjectVersion.VER_UE4_INSTANCED_STEREO_UNIFORM_REFACTOR
    LevelTransArrayConvertedToTArray,
    /// Add Component node templates now use their own unique naming scheme to ensure more reliable archetype lookups.
    /// Introduced: ObjectVersion.VER_UE4_TemplateIndex_IN_COOKED_EXPORTS
    AddComponentNodeTemplateUniqueNames,
    /// Fix a serialization issue with static mesh FMeshSectionInfoMap FProperty
    /// Introduced: ObjectVersion.VER_UE4_ADDED_SEARCHABLE_NAMES
    UPropertryForMeshSectionSerialize,
    /// Existing HLOD settings screen size to screen area conversion
    /// Introduced: ObjectVersion.VER_UE4_ADDED_SEARCHABLE_NAMES
    ConvertHLODScreenSize,
    /// Adding mesh section info data for existing billboard LOD models
    /// Introduced: ObjectVersion.VER_UE4_ADDED_SEARCHABLE_NAMES
    SpeedTreeBillboardSectionInfoFixup,
    /// Change FMovieSceneEventParameters::StructType to be a string asset reference from a TWeakObjectPtr UScriptStruct
    /// Introduced: ObjectVersion.VER_UE4_ADDED_SWEEP_WHILE_WALKING_FLAG
    EventSectionParameterStringAssetRef,
    /// Remove serialized irradiance map data from skylight.
    /// Introduced: ObjectVersion.VER_UE4_ADDED_SWEEP_WHILE_WALKING_FLAG
    SkyLightRemoveMobileIrradianceMap,
    /// rename bNoTwist to bAllowTwist
    /// Introduced: ObjectVersion.VER_UE4_ADDED_SWEEP_WHILE_WALKING_FLAG
    RenameNoTwistToAllowTwistInTwoBoneIK,
    /// Material layers serialization refactor
    /// Introduced: ObjectVersion.VER_UE4_ADDED_PACKAGE_SUMMARY_LOCALIZATION_ID
    MaterialLayersParameterSerializationRefactor,
    /// Added disable flag to skeletal mesh data
    /// Introduced: ObjectVersion.VER_UE4_ADDED_PACKAGE_SUMMARY_LOCALIZATION_ID
    AddSkeletalMeshSectionDisable,
    /// Removed objects that were serialized as part of this material feature
    /// Introduced: ObjectVersion.VER_UE4_ADDED_PACKAGE_SUMMARY_LOCALIZATION_ID
    RemovedMaterialSharedInputCollection,
    /// HISMC Cluster Tree migration to add new data
    /// Introduced: ObjectVersion.VER_UE4_ADDED_PACKAGE_SUMMARY_LOCALIZATION_ID
    HISMCClusterTreeMigration,
    /// Default values on pins in blueprints could be saved incoherently
    /// Introduced: ObjectVersion.VER_UE4_ADDED_PACKAGE_SUMMARY_LOCALIZATION_ID
    PinDefaultValuesVerified,
    /// During copy and paste transition getters could end up with broken state machine references
    /// Introduced: ObjectVersion.VER_UE4_ADDED_PACKAGE_SUMMARY_LOCALIZATION_ID
    FixBrokenStateMachineReferencesInTransitionGetters,
    /// Change to MeshDescription serialization
    /// Introduced: ObjectVersion.VER_UE4_ADDED_PACKAGE_SUMMARY_LOCALIZATION_ID
    MeshDescriptionNewSerialization,
    /// Change to not clamp RGB values > 1 on linear color curves
    /// Introduced: ObjectVersion.VER_UE4_ADDED_PACKAGE_SUMMARY_LOCALIZATION_ID
    UnclampRGBColorCurves,
    /// Bugfix for FAnimObjectVersion::LinkTimeAnimBlueprintRootDiscovery.
    /// Introduced: ObjectVersion.VER_UE4_ADDED_PACKAGE_SUMMARY_LOCALIZATION_ID
    LinkTimeAnimBlueprintRootDiscoveryBugFix,
    /// Change trail anim node variable deprecation
    /// Introduced: ObjectVersion.VER_UE4_ADDED_PACKAGE_SUMMARY_LOCALIZATION_ID
    TrailNodeBlendVariableNameChange,
    /// Make sure the Blueprint Replicated Property Conditions are actually serialized properly.
    /// Introduced: ObjectVersion.VER_UE4_FIX_WIDE_STRING_CRC
    PropertiesSerializeRepCondition,
    /// DepthOfFieldFocalDistance at 0 now disables DOF instead of DepthOfFieldFstop at 0.
    /// Introduced: ObjectVersion.VER_UE4_FIX_WIDE_STRING_CRC
    FocalDistanceDisablesDOF,
    /// Removed versioning, but version entry must still exist to keep assets saved with this version loadable
    /// Introduced: ObjectVersion.VER_UE4_FIX_WIDE_STRING_CRC
    UnusedSoundClass2dreverbSend,
    /// Groom asset version
    /// Introduced: ObjectVersion.VER_UE4_ADDED_PACKAGE_OWNER
    GroomAssetVersion1,
    /// Groom asset version
    /// Introduced: ObjectVersion.VER_UE4_ADDED_PACKAGE_OWNER
    GroomAssetVersion2,
    /// Store applied version of Animation Modifier to use when reverting
    /// Introduced: ObjectVersion.VER_UE4_ADDED_PACKAGE_OWNER
    SerializeAnimModifierState,
    /// Groom asset version
    /// Introduced: ObjectVersion.VER_UE4_ADDED_PACKAGE_OWNER
    GroomAssetVersion3,
    /// Upgrade filmback
    /// Introduced: ObjectVersion.VER_UE4_ADDED_PACKAGE_OWNER
    DeprecateFilmbackSettings,
    /// custom collision type
    /// Introduced: ObjectVersion.VER_UE4_ADDED_PACKAGE_OWNER
    CustomImplicitCollisionType,
    /// FFieldPath will serialize the owner struct reference and only a short path to its property
    /// Introduced: ObjectVersion.VER_UE4_ADDED_PACKAGE_OWNER
    FFieldPathOwnerSerialization,
    /// Dummy version to allow us to fix up the fact that ReleaseObjectVersion was changed elsewhere
    /// Introduced: ObjectVersion.VER_UE4_SKINWEIGHT_PROFILE_DATA_LAYOUT_CHANGES
    ReleaseObjectVersionFixup,
    /// Pin types include a flag that propagates the 'CPF_UObjectWrapper' flag to generated properties
    /// Introduced: ObjectVersion.VER_UE4_ASSETREGISTRY_DEPENDENCYFLAGS
    PinTypeIncludesUObjectWrapperFlag,
    /// Added Weight member to FMeshToMeshVertData
    /// Introduced: ObjectVersion.VER_UE4_ASSETREGISTRY_DEPENDENCYFLAGS
    WeightFMeshToMeshVertData,
    /// Animation graph node bindings displayed as pins
    /// Introduced: ObjectVersion.VER_UE4_ASSETREGISTRY_DEPENDENCYFLAGS
    AnimationGraphNodeBindingsDisplayedAsPins,
    /// Serialized rigvm offset segment paths
    /// Introduced: ObjectVersion.VER_UE4_ASSETREGISTRY_DEPENDENCYFLAGS
    SerializeRigVMOffsetSegmentPaths,
    /// Upgrade AbcGeomCacheImportSettings for velocities
    /// Introduced: ObjectVersion.VER_UE4_ASSETREGISTRY_DEPENDENCYFLAGS
    AbcVelocitiesSupport,
    /// Add margin support to Chaos Convex
    /// Introduced: ObjectVersion.VER_UE4_ASSETREGISTRY_DEPENDENCYFLAGS
    MarginAddedToConvexAndBox,
    /// Add structure data to Chaos Convex
    /// Introduced: ObjectVersion.VER_UE4_ASSETREGISTRY_DEPENDENCYFLAGS
    StructureDataAddedToConvex,
    /// Changed axis UI for LiveLink AxisSwitch Pre Processor
    /// Introduced: ObjectVersion.VER_UE4_CORRECT_LICENSEE_FLAG
    AddedFrontRightUpAxesToLiveLinkPreProcessor,
    /// Some sequencer event sections that were copy-pasted left broken links to the director BP
    /// Introduced: ObjectVersion.VER_UE4_CORRECT_LICENSEE_FLAG
    FixupCopiedEventSections,
    /// Serialize the number of bytes written when serializing function arguments
    /// Introduced: ObjectVersion.VER_UE4_CORRECT_LICENSEE_FLAG
    RemoteControlSerializeFunctionArgumentsSize,
    /// Add loop counters to sequencer's compiled sub-sequence data
    /// Introduced: ObjectVersion.VER_UE4_CORRECT_LICENSEE_FLAG
    AddedSubSequenceEntryWarpCounter,
    /// Remove default resolution limit of 512 pixels for cubemaps generated from long-lat sources
    /// Introduced: ObjectVersion.VER_UE4_CORRECT_LICENSEE_FLAG
    LonglatTextureCubeDefaultMaxResolution,
    /// bake center of mass into chaos cache
    /// Introduced: ObjectVersion.VER_UE4_CORRECT_LICENSEE_FLAG
    GeometryCollectionCacheRemovesMassToLocal,
    /// Introduced: ObjectVersion.VER_UE4_AUTOMATIC_VERSION_PLUS_ONE
    VersionPlusOne,
    /// Introduced: ObjectVersion.VER_UE4_AUTOMATIC_VERSION
    LatestVersion,
}

impl FReleaseObjectVersion {
    /// The numeric value of this version.
    pub open spec fn spec_value(self) -> i32 {
        match self {
            FReleaseObjectVersion::BeforeCustomVersionWasAdded => 0,
            FReleaseObjectVersion::StaticMeshExtendedBoundsFix => 1,
            FReleaseObjectVersion::NoSyncAsyncPhysAsset => 2,
            FReleaseObjectVersion::LevelTransArrayConvertedToTArray => 3,
            FReleaseObjectVersion::AddComponentNodeTemplateUniqueNames => 4,
            FReleaseObjectVersion::UPropertryForMeshSectionSerialize => 5,
            FReleaseObjectVersion::ConvertHLODScreenSize => 6,
            FReleaseObjectVersion::SpeedTreeBillboardSectionInfoFixup => 7,
            FReleaseObjectVersion::EventSectionParameterStringAssetRef => 8,
            FReleaseObjectVersion::SkyLightRemoveMobileIrradianceMap => 9,
            FReleaseObjectVersion::RenameNoTwistToAllowTwistInTwoBoneIK => 10,
            FReleaseObjectVersion::MaterialLayersParameterSerializationRefactor => 11,
            FReleaseObjectVersion::AddSkeletalMeshSectionDisable => 12,
            FReleaseObjectVersion::RemovedMaterialSharedInputCollection => 13,
            FReleaseObjectVersion::HISMCClusterTreeMigration => 14,
            FReleaseObjectVersion::PinDefaultValuesVerified => 15,
            FReleaseObjectVersion::FixBrokenStateMachineReferencesInTransitionGetters => 16,
            FReleaseObjectVersion::MeshDescriptionNewSerialization => 17,
            FReleaseObjectVersion::UnclampRGBColorCurves => 18,
            FReleaseObjectVersion::LinkTimeAnimBlueprintRootDiscoveryBugFix => 19,
            FReleaseObjectVersion::TrailNodeBlendVariableNameChange => 20,
            FReleaseObjectVersion::PropertiesSerializeRepCondition => 21,
            FReleaseObjectVersion::FocalDistanceDisablesDOF => 22,
            FReleaseObjectVersion::UnusedSoundClass2dreverbSend => 23,
            FReleaseObjectVersion::GroomAssetVersion1 => 24,
            FReleaseObjectVersion::GroomAssetVersion2 => 25,
            FReleaseObjectVersion::SerializeAnimModifierState => 26,
            FReleaseObjectVersion::GroomAssetVersion3 => 27,
            FReleaseObjectVersion::DeprecateFilmbackSettings => 28,
            FReleaseObjectVersion::CustomImplicitCollisionType => 29,
            FReleaseObjectVersion::FFieldPathOwnerSerialization => 30,
            FReleaseObjectVersion::ReleaseObjectVersionFixup => 31,
            FReleaseObjectVersion::PinTypeIncludesUObjectWrapperFlag => 32,
            FReleaseObjectVersion::WeightFMeshToMeshVertData => 33,
            FReleaseObjectVersion::AnimationGraphNodeBindingsDisplayedAsPins => 34,
            FReleaseObjectVersion::SerializeRigVMOffsetSegmentPaths => 35,
            FReleaseObjectVersion::AbcVelocitiesSupport => 36,
            FReleaseObjectVersion::MarginAddedToConvexAndBox => 37,
            FReleaseObjectVersion::StructureDataAddedToConvex => 38,
            FReleaseObjectVersion::AddedFrontRightUpAxesToLiveLinkPreProcessor => 39,
            FReleaseObjectVersion::FixupCopiedEventSections => 40,
            FReleaseObjectVersion::RemoteControlSerializeFunctionArgumentsSize => 41,
            FReleaseObjectVersion::AddedSubSequenceEntryWarpCounter => 42,
            FReleaseObjectVersion::LonglatTextureCubeDefaultMaxResolution => 43,
            FReleaseObjectVersion::GeometryCollectionCacheRemovesMassToLocal => 44,
            FReleaseObjectVersion::VersionPlusOne => 45,
            FReleaseObjectVersion::LatestVersion => 46,
        }
    }

    /// The numeric value of this version.
    pub fn value(self) -> (r: i32)
        ensures r == self.spec_value(),
    {
        match self {
            FReleaseObjectVersion::BeforeCustomVersionWasAdded => 0,
            FReleaseObjectVersion::StaticMeshExtendedBoundsFix => 1,
            FReleaseObjectVersion::NoSyncAsyncPhysAsset => 2,
            FReleaseObjectVersion::LevelTransArrayConvertedToTArray => 3,
            FReleaseObjectVersion::AddComponentNodeTemplateUniqueNames => 4,
            FReleaseObjectVersion::UPropertryForMeshSectionSerialize => 5,
            FReleaseObjectVersion::ConvertHLODScreenSize => 6,
            FReleaseObjectVersion::SpeedTreeBillboardSectionInfoFixup => 7,
            FReleaseObjectVersion::EventSectionParameterStringAssetRef => 8,
            FReleaseObjectVersion::SkyLightRemoveMobileIrradianceMap => 9,
            FReleaseObjectVersion::RenameNoTwistToAllowTwistInTwoBoneIK => 10,
            FReleaseObjectVersion::MaterialLayersParameterSerializationRefactor => 11,
            FReleaseObjectVersion::AddSkeletalMeshSectionDisable => 12,
            FReleaseObjectVersion::RemovedMaterialSharedInputCollection => 13,
            FReleaseObjectVersion::HISMCClusterTreeMigration => 14,
            FReleaseObjectVersion::PinDefaultValuesVerified => 15,
            FReleaseObjectVersion::FixBrokenStateMachineReferencesInTransitionGetters => 16,
            FReleaseObjectVersion::MeshDescriptionNewSerialization => 17,
            FReleaseObjectVersion::UnclampRGBColorCurves => 18,
            FReleaseObjectVersion::LinkTimeAnimBlueprintRootDiscoveryBugFix => 19,
            FReleaseObjectVersion::TrailNodeBlendVariableNameChange => 20,
            FReleaseObjectVersion::PropertiesSerializeRepCondition => 21,
            FReleaseObjectVersion::FocalDistanceDisablesDOF => 22,
            FReleaseObjectVersion::UnusedSoundClass2dreverbSend => 23,
            FReleaseObjectVersion::GroomAssetVersion1 => 24,
            FReleaseObjectVersion::GroomAssetVersion2 => 25,
            FReleaseObjectVersion::SerializeAnimModifierState => 26,
            FReleaseObjectVersion::GroomAssetVersion3 => 27,
            FReleaseObjectVersion::DeprecateFilmbackSettings => 28,
            FReleaseObjectVersion::CustomImplicitCollisionType => 29,
            FReleaseObjectVersion::FFieldPathOwnerSerialization => 30,
            FReleaseObjectVersion::ReleaseObjectVersionFixup => 31,
            FReleaseObjectVersion::PinTypeIncludesUObjectWrapperFlag => 32,
            FReleaseObjectVersion::WeightFMeshToMeshVertData => 33,
            FReleaseObjectVersion::AnimationGraphNodeBindingsDisplayedAsPins => 34,
            FReleaseObjectVersion::SerializeRigVMOffsetSegmentPaths => 35,
            FReleaseObjectVersion::AbcVelocitiesSupport => 36,
            FReleaseObjectVersion::MarginAddedToConvexAndBox => 37,
            FReleaseObjectVersion::StructureDataAddedToConvex => 38,
            FReleaseObjectVersion::AddedFrontRightUpAxesToLiveLinkPreProcessor => 39,
            FReleaseObjectVersion::FixupCopiedEventSections => 40,
            FReleaseObjectVersion::RemoteControlSerializeFunctionArgumentsSize => 41,
            FReleaseObjectVersion::AddedSubSequenceEntryWarpCounter => 42,
            FReleaseObjectVersion::LonglatTextureCubeDefaultMaxResolution => 43,
            FReleaseObjectVersion::GeometryCollectionCacheRemovesMassToLocal => 44,
            FReleaseObjectVersion::VersionPlusOne => 45,
            FReleaseObjectVersion::LatestVersion => 46,
        }
    }
}

impl CustomVersionTrait for FReleaseObjectVersion {
    open spec fn spec_version_mappings() -> Seq<(EngineVersion, i32)> {
        seq![
            (EngineVersion::VER_UE4_AUTOMATIC_VERSION, 46),
            (EngineVersion::VER_UE4_AUTOMATIC_VERSION_PLUS_ONE, 45),
            (EngineVersion::VER_UE4_27, 43),
            (EngineVersion::VER_UE4_26, 38),
            (EngineVersion::VER_UE4_25, 30),
            (EngineVersion::VER_UE4_24, 28),
            (EngineVersion::VER_UE4_23, 23),
            (EngineVersion::VER_UE4_21, 20),
            (EngineVersion::VER_UE4_20, 17),
            (EngineVersion::VER_UE4_19, 13),
            (EngineVersion::VER_UE4_17, 10),
            (EngineVersion::VER_UE4_16, 9),
            (EngineVersion::VER_UE4_15, 7),
            (EngineVersion::VER_UE4_14, 4),
            (EngineVersion::VER_UE4_13, 3),
            (EngineVersion::VER_UE4_11, 1),
            (EngineVersion::VER_UE4_OLDEST_LOADABLE_PACKAGE, 0),
        ]
    }

    open spec fn spec_friendly_name() -> Seq<char> {
        "FReleaseObjectVersion"@
    }

    open spec fn spec_guid() -> Seq<u8> {
        spec_new_guid(0x9C54D522, 0xA8264FBE, 0x94210746, 0x61B482D0)
    }

    open spec fn spec_into_i32(self) -> i32 {
        self.spec_value()
    }

    fn version_mappings() -> (r: Vec<(EngineVersion, i32)>) {
        let mut r = Vec::new();
        r.push((EngineVersion::VER_UE4_AUTOMATIC_VERSION, 46));
        r.push((EngineVersion::VER_UE4_AUTOMATIC_VERSION_PLUS_ONE, 45));
        r.push((EngineVersion::VER_UE4_27, 43));
        r.push((EngineVersion::VER_UE4_26, 38));
        r.push((EngineVersion::VER_UE4_25, 30));
        r.push((EngineVersion::VER_UE4_24, 28));
        r.push((EngineVersion::VER_UE4_23, 23));
        r.push((EngineVersion::VER_UE4_21, 20));
        r.push((EngineVersion::VER_UE4_20, 17));
        r.push((EngineVersion::VER_UE4_19, 13));
        r.push((EngineVersion::VER_UE4_17, 10));
        r.push((EngineVersion::VER_UE4_16, 9));
        r.push((EngineVersion::VER_UE4_15, 7));
        r.push((EngineVersion::VER_UE4_14, 4));
        r.push((EngineVersion::VER_UE4_13, 3));
        r.push((EngineVersion::VER_UE4_11, 1));
        r.push((EngineVersion::VER_UE4_OLDEST_LOADABLE_PACKAGE, 0));
        assert(r@ =~= Self::spec_version_mappings());
        r
    }

    fn friendly_name() -> (r: String) {
        String::from_str("FReleaseObjectVersion")
    }

    fn guid() -> (r: Guid) {
        new_guid(0x9C54D522, 0xA8264FBE, 0x94210746, 0x61B482D0)
    }

    fn into_i32(self) -> (r: i32) {
        self.value()
    }
}

/// Custom version `FSequencerObjectVersion`
#[derive(Debug, Clone, Copy, PartialEq, Eq, Structural)]
pub enum FSequencerObjectVersion {
    /// Before any version changes were made
    /// Introduced: EngineVersion.VER_UE4_OLDEST_LOADABLE_PACKAGE
    BeforeCustomVersionWasAdded,
    /// Per-platform overrides player overrides for media sources changed name and type
    /// Introduced: EngineVersion.VER_UE4_14
    RenameMediaSourcePlatformPlayers,
    /// Enable root motion isn't the right flag to use, but force root lock
    /// Introduced: EngineVersion.VER_UE4_15
    ConvertEnableRootMotionToForceRootLock,
    /// Convert multiple rows to tracks
    /// Introduced: EngineVersion.VER_UE4_15
    ConvertMultipleRowsToTracks,
    /// When finished now defaults to restore state
    /// Introduced: EngineVersion.VER_UE4_16
    WhenFinishedDefaultsToRestoreState,
    /// EvaluationTree added
    /// Introduced: EngineVersion.VER_UE4_19
    EvaluationTree,
    /// When finished now defaults to project default
    /// Introduced: EngineVersion.VER_UE4_19
    WhenFinishedDefaultsToProjectDefault,
    /// Use int range rather than float range in FMovieSceneSegment
    /// Introduced: EngineVersion.VER_UE4_20
    FloatToIntConversion,
    /// Purged old spawnable blueprint classes from level sequence assets
    /// Introduced: EngineVersion.VER_UE4_20
    PurgeSpawnableBlueprints,
    /// Finish UMG evaluation on end
    /// Introduced: EngineVersion.VER_UE4_20
    FinishUMGEvaluation,
    /// Manual serialization of float channel
    /// Introduced: EngineVersion.VER_UE4_22
    SerializeFloatChannel,
    /// Change the linear keys so they act the old way and interpolate always
    /// Introduced: EngineVersion.VER_UE4_22
    ModifyLinearKeysForOldInterp,
    /// Full Manual serialization of float channel
    /// Introduced: EngineVersion.VER_UE4_25
    SerializeFloatChannelCompletely,
    /// Set ContinuouslyRespawn to false by default, added FMovieSceneSpawnable::bNetAddressableName
    /// Introduced: EngineVersion.VER_UE4_27
    SpawnableImprovements,
    LatestVersion,
    VersionPlusOne,
}

impl FSequencerObjectVersion {
    /// The numeric value of this version.
    pub open spec fn spec_value(self) -> i32 {
        match self {
            FSequencerObjectVersion::BeforeCustomVersionWasAdded => 0,
            FSequencerObjectVersion::RenameMediaSourcePlatformPlayers => 1,
            FSequencerObjectVersion::ConvertEnableRootMotionToForceRootLock => 2,
            FSequencerObjectVersion::ConvertMultipleRowsToTracks => 3,
            FSequencerObjectVersion::WhenFinishedDefaultsToRestoreState => 4,
            FSequencerObjectVersion::EvaluationTree => 5,
            FSequencerObjectVersion::WhenFinishedDefaultsToProjectDefault => 6,
            FSequencerObjectVersion::FloatToIntConversion => 7,
            FSequencerObjectVersion::PurgeSpawnableBlueprints => 8,
            FSequencerObjectVersion::FinishUMGEvaluation => 9,
            FSequencerObjectVersion::SerializeFloatChannel => 10,
            FSequencerObjectVersion::ModifyLinearKeysForOldInterp => 11,
            FSequencerObjectVersion::SerializeFloatChannelCompletely => 12,
            FSequencerObjectVersion::SpawnableImprovements => 13,
            FSequencerObjectVersion::LatestVersion => 14,
            FSequencerObjectVersion::VersionPlusOne => 15,
        }
    }

    /// The numeric value of this version.
    pub fn value(self) -> (r: i32)
        ensures r == self.spec_value(),
    {
        match self {
            FSequencerObjectVersion::BeforeCustomVersionWasAdded => 0,
            FSequencerObjectVersion::RenameMediaSourcePlatformPlayers => 1,
            FSequencerObjectVersion::ConvertEnableRootMotionToForceRootLock => 2,
            FSequencerObjectVersion::ConvertMultipleRowsToTracks => 3,
            FSequencerObjectVersion::WhenFinishedDefaultsToRestoreState => 4,
            FSequencerObjectVersion::EvaluationTree => 5,
            FSequencerObjectVersion::WhenFinishedDefaultsToProjectDefault => 6,
            FSequencerObjectVersion::FloatToIntConversion => 7,
            FSequencerObjectVersion::PurgeSpawnableBlueprints => 8,
            FSequencerObjectVersion::FinishUMGEvaluation => 9,
            FSequencerObjectVersion::SerializeFloatChannel => 10,
            FSequencerObjectVersion::ModifyLinearKeysForOldInterp => 11,
            FSequencerObjectVersion::SerializeFloatChannelCompletely => 12,
            FSequencerObjectVersion::SpawnableImprovements => 13,
            FSequencerObjectVersion::LatestVersion => 14,
            FSequencerObjectVersion::VersionPlusOne => 15,
        }
    }
}

impl CustomVersionTrait for FSequencerObjectVersion {
    open spec fn spec_version_mappings() -> Seq<(EngineVersion, i32)> {
        seq![
            (EngineVersion::VER_UE4_AUTOMATIC_VERSION, 14),
            (EngineVersion::VER_UE4_AUTOMATIC_VERSION_PLUS_ONE, 15),
            (EngineVersion::VER_UE4_27, 13),
            (EngineVersion::VER_UE4_25, 12),
            (EngineVersion::VER_UE4_22, 11),
            (EngineVersion::VER_UE4_20, 9),
            (EngineVersion::VER_UE4_19, 6),
            (EngineVersion::VER_UE4_16, 4),
            (EngineVersion::VER_UE4_15, 3),
            (EngineVersion::VER_UE4_14, 1),
            (EngineVersion::VER_UE4_OLDEST_LOADABLE_PACKAGE, 0),
        ]
    }

    open spec fn spec_friendly_name() -> Seq<char> {
        "FSequencerObjectVersion"@
    }

    open spec fn spec_guid() -> Seq<u8> {
        spec_new_guid(0x7B5AE74C, 0xD2704C10, 0xA9585798, 0x0B212A5A)
    }

    open spec fn spec_into_i32(self) -> i32 {
        self.spec_value()
    }

    fn version_mappings() -> (r: Vec<(EngineVersion, i32)>) {
        let mut r = Vec::new();
        r.push((EngineVersion::VER_UE4_AUTOMATIC_VERSION, 14));
        r.push((EngineVersion::VER_UE4_AUTOMATIC_VERSION_PLUS_ONE, 15));
        r.push((EngineVersion::VER_UE4_27, 13));
        r.push((EngineVersion::VER_UE4_25, 12));
        r.push((EngineVersion::VER_UE4_22, 11));
        r.push((EngineVersion::VER_UE4_20, 9));
        r.push((EngineVersion::VER_UE4_19, 6));
        r.push((EngineVersion::VER_UE4_16, 4));
        r.push((EngineVersion::VER_UE4_15, 3));
        r.push((EngineVersion::VER_UE4_14, 1));
        r.push((EngineVersion::VER_UE4_OLDEST_LOADABLE_PACKAGE, 0));
        assert(r@ =~= Self::spec_version_mappings());
        r
    }

    fn friendly_name() -> (r: String) {
        String::from_str("FSequencerObjectVersion")
    }

    fn guid() -> (r: Guid) {
        new_guid(0x7B5AE74C, 0xD2704C10, 0xA9585798, 0x0B212A5A)
    }

    fn into_i32(self) -> (r: i32) {
        self.value()
    }
}


/// Versions of the asset registry format
#[derive(Debug, Clone, Copy, PartialEq, Eq, Structural)]
pub enum FAssetRegistryVersionType {
    /// From before file versioning was implemented
    PreVersioning,
    /// The first version of the runtime asset registry to include file versioning.
    HardSoftDependencies,
    /// Added FAssetRegistryState and support for piecemeal serialization
    AddAssetRegistryState,
    /// AssetData serialization format changed, versions before this are not readable
    ChangedAssetData,
    /// Removed MD5 hash from package data
    RemovedMD5Hash,
    /// Added hard/soft manage references
    AddedHardManage,
    /// Added MD5 hash of cooked package to package data
    AddedCookedMD5Hash,
    /// Added UE::AssetRegistry::EDependencyProperty to each dependency
    AddedDependencyFlags,
    /// Major tag format change that replaces USE_COMPACT_ASSET_REGISTRY
    FixedTags,
    /// Added Version information to AssetPackageData
    WorkspaceDomain,
    /// Added ImportedClasses to AssetPackageData
    PackageImportedClasses,
    /// A new version number of UE5 was added to FPackageFileSummary
    PackageFileSummaryVersionChange,
    /// Change to linker export/import resource serialization
    ObjectResourceOptionalVersionChange,
    /// Added FIoHash for each FIoChunkId in the package to the AssetPackageData.
    AddedChunkHashes,
    /// Classes are serialized as path names rather than short object names
    ClassPaths,
    /// Latest version
    LatestVersion,
    /// Latest version plus one
    VersionPlusOne,
}

impl FAssetRegistryVersionType {
    /// The numeric value of this version.
    pub open spec fn spec_value(self) -> i32 {
        match self {
            FAssetRegistryVersionType::PreVersioning => 0,
            FAssetRegistryVersionType::HardSoftDependencies => 1,
            FAssetRegistryVersionType::AddAssetRegistryState => 2,
            FAssetRegistryVersionType::ChangedAssetData => 3,
            FAssetRegistryVersionType::RemovedMD5Hash => 4,
            FAssetRegistryVersionType::AddedHardManage => 5,
            FAssetRegistryVersionType::AddedCookedMD5Hash => 6,
            FAssetRegistryVersionType::AddedDependencyFlags => 7,
            FAssetRegistryVersionType::FixedTags => 8,
            FAssetRegistryVersionType::WorkspaceDomain => 9,
            FAssetRegistryVersionType::PackageImportedClasses => 10,
            FAssetRegistryVersionType::PackageFileSummaryVersionChange => 11,
            FAssetRegistryVersionType::ObjectResourceOptionalVersionChange => 12,
            FAssetRegistryVersionType::AddedChunkHashes => 13,
            FAssetRegistryVersionType::ClassPaths => 14,
            FAssetRegistryVersionType::LatestVersion => 15,
            FAssetRegistryVersionType::VersionPlusOne => 16,
        }
    }

    /// The numeric value of this version.
    pub fn value(self) -> (r: i32)
        ensures r == self.spec_value(),
    {
        match self {
            FAssetRegistryVersionType::PreVersioning => 0,
            FAssetRegistryVersionType::HardSoftDependencies => 1,
            FAssetRegistryVersionType::AddAssetRegistryState => 2,
            FAssetRegistryVersionType::ChangedAssetData => 3,
            FAssetRegistryVersionType::RemovedMD5Hash => 4,
            FAssetRegistryVersionType::AddedHardManage => 5,
            FAssetRegistryVersionType::AddedCookedMD5Hash => 6,
            FAssetRegistryVersionType::AddedDependencyFlags => 7,
            FAssetRegistryVersionType::FixedTags => 8,
            FAssetRegistryVersionType::WorkspaceDomain => 9,
            FAssetRegistryVersionType::PackageImportedClasses => 10,
            FAssetRegistryVersionType::PackageFileSummaryVersionChange => 11,
            FAssetRegistryVersionType::ObjectResourceOptionalVersionChange => 12,
            FAssetRegistryVersionType::AddedChunkHashes => 13,
            FAssetRegistryVersionType::ClassPaths => 14,
            FAssetRegistryVersionType::LatestVersion => 15,
            FAssetRegistryVersionType::VersionPlusOne => 16,
        }
    }

    /// The version with a numeric value.
    pub fn try_from_i32(v: i32) -> (r: Option<Self>)
        ensures
            r is Some <==> 0 <= v < 17,
            r matches Some(t) ==> t.spec_value() == v,
    {
        match v {
            0 => Some(FAssetRegistryVersionType::PreVersioning),
            1 => Some(FAssetRegistryVersionType::HardSoftDependencies),
            2 => Some(FAssetRegistryVersionType::AddAssetRegistryState),
            3 => Some(FAssetRegistryVersionType::ChangedAssetData),
            4 => Some(FAssetRegistryVersionType::RemovedMD5Hash),
            5 => Some(FAssetRegistryVersionType::AddedHardManage),
            6 => Some(FAssetRegistryVersionType::AddedCookedMD5Hash),
            7 => Some(FAssetRegistryVersionType::AddedDependencyFlags),
            8 => Some(FAssetRegistryVersionType::FixedTags),
            9 => Some(FAssetRegistryVersionType::WorkspaceDomain),
            10 => Some(FAssetRegistryVersionType::PackageImportedClasses),
            11 => Some(FAssetRegistryVersionType::PackageFileSummaryVersionChange),
            12 => Some(FAssetRegistryVersionType::ObjectResourceOptionalVersionChange),
            13 => Some(FAssetRegistryVersionType::AddedChunkHashes),
            14 => Some(FAssetRegistryVersionType::ClassPaths),
            15 => Some(FAssetRegistryVersionType::LatestVersion),
            16 => Some(FAssetRegistryVersionType::VersionPlusOne),
            _ => None,
        }
    }

    /// The name of this version.
    pub open spec fn spec_name(self) -> Seq<char> {
        match self {
            FAssetRegistryVersionType::PreVersioning => "PreVersioning"@,
            FAssetRegistryVersionType::HardSoftDependencies => "HardSoftDependencies"@,
            FAssetRegistryVersionType::AddAssetRegistryState => "AddAssetRegistryState"@,
            FAssetRegistryVersionType::ChangedAssetData => "ChangedAssetData"@,
            FAssetRegistryVersionType::RemovedMD5Hash => "RemovedMD5Hash"@,
            FAssetRegistryVersionType::AddedHardManage => "AddedHardManage"@,
            FAssetRegistryVersionType::AddedCookedMD5Hash => "AddedCookedMD5Hash"@,
            FAssetRegistryVersionType::AddedDependencyFlags => "AddedDependencyFlags"@,
            FAssetRegistryVersionType::FixedTags => "FixedTags"@,
            FAssetRegistryVersionType::WorkspaceDomain => "WorkspaceDomain"@,
            FAssetRegistryVersionType::PackageImportedClasses => "PackageImportedClasses"@,
            FAssetRegistryVersionType::PackageFileSummaryVersionChange => "PackageFileSummaryVersionChange"@,
            FAssetRegistryVersionType::ObjectResourceOptionalVersionChange => "ObjectResourceOptionalVersionChange"@,
            FAssetRegistryVersionType::AddedChunkHashes => "AddedChunkHashes"@,
            FAssetRegistryVersionType::ClassPaths => "ClassPaths"@,
            FAssetRegistryVersionType::LatestVersion => "LatestVersion"@,
            FAssetRegistryVersionType::VersionPlusOne => "VersionPlusOne"@,
        }
    }

    /// The name of this version.
    pub fn to_string(&self) -> (r: String)
        ensures r@ == self.spec_name(),
    {
        match self {
            FAssetRegistryVersionType::PreVersioning => String::from_str("PreVersioning"),
            FAssetRegistryVersionType::HardSoftDependencies => String::from_str("HardSoftDependencies"),
            FAssetRegistryVersionType::AddAssetRegistryState => String::from_str("AddAssetRegistryState"),
            FAssetRegistryVersionType::ChangedAssetData => String::from_str("ChangedAssetData"),
            FAssetRegistryVersionType::RemovedMD5Hash => String::from_str("RemovedMD5Hash"),
            FAssetRegistryVersionType::AddedHardManage => String::from_str("AddedHardManage"),
            FAssetRegistryVersionType::AddedCookedMD5Hash => String::from_str("AddedCookedMD5Hash"),
            FAssetRegistryVersionType::AddedDependencyFlags => String::from_str("AddedDependencyFlags"),
            FAssetRegistryVersionType::FixedTags => String::from_str("FixedTags"),
            FAssetRegistryVersionType::WorkspaceDomain => String::from_str("WorkspaceDomain"),
            FAssetRegistryVersionType::PackageImportedClasses => String::from_str("PackageImportedClasses"),
            FAssetRegistryVersionType::PackageFileSummaryVersionChange => String::from_str("PackageFileSummaryVersionChange"),
            FAssetRegistryVersionType::ObjectResourceOptionalVersionChange => String::from_str("ObjectResourceOptionalVersionChange"),
            FAssetRegistryVersionType::AddedChunkHashes => String::from_str("AddedChunkHashes"),
            FAssetRegistryVersionType::ClassPaths => String::from_str("ClassPaths"),
            FAssetRegistryVersionType::LatestVersion => String::from_str("LatestVersion"),
            FAssetRegistryVersionType::VersionPlusOne => String::from_str("VersionPlusOne"),
        }
    }
}

} // verus!
pub use crate::version_registry::CustomVersion;

verus! {

/// The GUID of the asset registry version.
pub open spec fn asset_registry_version_guid() -> Seq<u8> {
    spec_new_guid(0x717F9EE7, 0xE9B0493A, 0x88B39132, 0x1B388107)
}

impl FAssetRegistryVersionType {
    /// The version with a numeric value.
    pub open spec fn spec_from_i32(v: i32) -> Option<Self> {
        if 0 <= v < 17 { Some(choose|t: Self| t.spec_value() == v) } else { None }
    }

    /// Versions with equal numeric values are equal.
    pub proof fn lemma_value_injective(a: Self, b: Self)
        ensures a.spec_value() == b.spec_value() ==> a == b,
    {
    }

    /// The version at the start of `s`: the asset registry GUID and a version number, or the
    /// latest version when the GUID is another, of which only the GUID is read.
    pub open spec fn spec_parse(s: Seq<u8>) -> Option<(Self, int)> {
        if s.len() < 16 {
            None
        } else if s.take(16) == asset_registry_version_guid() {
            match crate::archive::parse_i32(s.skip(16)) {
                Some((v, _)) => match Self::spec_from_i32(v) {
                    Some(t) => Some((t, 20)),
                    None => None,
                },
                None => None,
            }
        } else {
            Some((FAssetRegistryVersionType::LatestVersion, 16))
        }
    }

    /// The encoding of the version: the asset registry GUID and the version number.
    pub open spec fn spec_ser(self) -> Seq<u8> {
        asset_registry_version_guid() + crate::archive::ser_i32(self.spec_value())
    }

    /// Read the asset registry version
    pub fn new(reader: &mut crate::archive::ByteReader) -> (res: Result<Self, crate::error::Error>)
        ensures crate::archive::stepped(*old(reader), *final(reader), res, Self::spec_parse(old(reader).remaining())),
    {
        let ghost s = old(reader).remaining();
        let b = reader.read_record(16)?;
        let guid: Guid = [b[0], b[1], b[2], b[3], b[4], b[5], b[6], b[7], b[8], b[9], b[10], b[11], b[12], b[13], b[14], b[15]];
        assert(guid@ =~= s.take(16));
        let expected = new_guid(0x717F9EE7, 0xE9B0493A, 0x88B39132, 0x1B388107);
        if crate::types::guid_eq(&guid, &expected) {
            proof { crate::archive::lemma_advance(*old(reader), *reader); }
            let v = reader.read_i32()?;
            match Self::try_from_i32(v) {
                Some(t) => {
                    proof {
                        let c = choose|x: Self| x.spec_value() == v;
                        Self::lemma_value_injective(c, t);
                    }
                    Ok(t)
                },
                None => Err(crate::error::Error::invalid_enum("FAssetRegistryVersionType")),
            }
        } else {
            Ok(FAssetRegistryVersionType::LatestVersion)
        }
    }

    /// Write the asset registry version
    pub fn write(&self, writer: &mut crate::archive::ByteWriter) -> (res: Result<(), crate::error::Error>)
        ensures res is Ok, final(writer).data@ == old(writer).data@ + self.spec_ser(),
    {
        let guid = new_guid(0x717F9EE7, 0xE9B0493A, 0x88B39132, 0x1B388107);
        writer.write_bytes(&guid);
        writer.write_i32(self.value());
        Ok(())
    }
}

} // verus!
