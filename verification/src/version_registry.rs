//! The custom versions known by GUID, and custom version values.

use vstd::prelude::*;
use crate::archive::{ByteReader, ByteWriter, stepped, ser_i32, parse_i32, opt_chars, rest, lemma_advance};
use crate::custom_version::{CustomVersionTrait, FCoreObjectVersion, FEditorObjectVersion, FFrameworkObjectVersion,
    FFortniteMainBranchObjectVersion, FReleaseObjectVersion, FSequencerObjectVersion};
use crate::engine_version::EngineVersion;
use crate::error::Error;
use crate::types::{new_guid, spec_new_guid, guid_eq, Guid};

verus! {

/// What the registry of known custom versions holds for a GUID.
pub struct VersionInfo {
    /// GUID
    pub guid: Seq<u8>,
    /// Friendly name
    pub name: Seq<char>,
    /// Engine versions and the version numbers they introduced, when known
    pub mappings: Option<Seq<(EngineVersion, i32)>>,
}

/// An entry of the registry of known custom versions.
pub struct KnownVersion {
    /// GUID
    pub guid: Guid,
    /// Friendly name
    pub name: String,
    /// Engine versions and the version numbers they introduced, when known
    pub mappings: Option<Vec<(EngineVersion, i32)>>,
}

impl KnownVersion {
    /// What the entry holds.
    pub open spec fn view(&self) -> VersionInfo {
        VersionInfo {
            guid: self.guid@,
            name: self.name@,
            mappings: match self.mappings {
                Some(m) => Some(m@),
                None => None,
            },
        }
    }
}

/// What entries hold.
pub open spec fn infos(t: Seq<KnownVersion>) -> Seq<VersionInfo> {
    t.map_values(|k: KnownVersion| k.view())
}

/// The first part of the registry of known custom versions.
pub open spec fn known_versions_first() -> Seq<VersionInfo> {
    seq![
        VersionInfo { guid: spec_new_guid(0, 0, 0, 0xF99D40C1), name: "UnusedCustomVersionKey"@, mappings: None },
        VersionInfo { guid: spec_new_guid(0xB0D832E4, 0x1F894F0D, 0xACCF7EB7, 0x36FD4AA2), name: "FBlueprintsObjectVersion"@, mappings: None },
        VersionInfo { guid: spec_new_guid(0xE1C64328, 0xA22C4D53, 0xA36C8E86, 0x6417BD8C), name: "FBuildObjectVersion"@, mappings: None },
        VersionInfo { guid: spec_new_guid(0xB02B49B5, 0xBB2044E9, 0xA30432B7, 0x52E40360), name: "FMobileObjectVersion"@, mappings: None },
        VersionInfo { guid: spec_new_guid(0xA4E4105C, 0x59A149B5, 0xA7C540C4, 0x547EDFEE), name: "FNetworkingObjectVersion"@, mappings: None },
        VersionInfo { guid: spec_new_guid(0x39C831C9, 0x5AE647DC, 0x9A449C17, 0x3E1C8E7C), name: "FOnlineObjectVersion"@, mappings: None },
        VersionInfo { guid: spec_new_guid(0x78F01B33, 0xEBEA4F98, 0xB9B484EA, 0xCCB95AA2), name: "FPhysicsObjectVersion"@, mappings: None },
        VersionInfo { guid: spec_new_guid(0x6631380F, 0x2D4D43E0, 0x8009CF27, 0x6956A95A), name: "FPlatformObjectVersion"@, mappings: None },
        VersionInfo { guid: spec_new_guid(0x12F88B9F, 0x88754AFC, 0xA67CD90C, 0x383ABD29), name: "FRenderingObjectVersion"@, mappings: None },
        VersionInfo { guid: spec_new_guid(0xD7296918, 0x1DD64BDD, 0x9DE264A8, 0x3CC13884), name: "FVRObjectVersion"@, mappings: None },
        VersionInfo { guid: spec_new_guid(0xC2A15278, 0xBFE74AFE, 0x6C1790FF, 0x531DF755), name: "FLoadTimesObjectVersion"@, mappings: None },
        VersionInfo { guid: spec_new_guid(0x6EACA3D4, 0x40EC4CC1, 0xB7868BED, 0x9428FC5), name: "FGeometryObjectVersion"@, mappings: None },
        VersionInfo { guid: spec_new_guid(0x29E575DD, 0xE0A34627, 0x9D10D276, 0x232CDCEA), name: "FAnimPhysObjectVersion"@, mappings: None },
        VersionInfo { guid: spec_new_guid(0xAF43A65D, 0x7FD34947, 0x98733E8E, 0xD9C1BB05), name: "FAnimObjectVersion"@, mappings: None },
    ]
}

/// The first part of the registry of known custom versions.
fn push_known_versions_first(t: &mut Vec<KnownVersion>)
    ensures infos(final(t)@) == infos(old(t)@) + known_versions_first(),
{
    let ghost t0 = t@;
        t.push(KnownVersion { guid: new_guid(0, 0, 0, 0xF99D40C1), name: String::from_str("UnusedCustomVersionKey"), mappings: None });
        t.push(KnownVersion { guid: new_guid(0xB0D832E4, 0x1F894F0D, 0xACCF7EB7, 0x36FD4AA2), name: String::from_str("FBlueprintsObjectVersion"), mappings: None });
        t.push(KnownVersion { guid: new_guid(0xE1C64328, 0xA22C4D53, 0xA36C8E86, 0x6417BD8C), name: String::from_str("FBuildObjectVersion"), mappings: None });
        t.push(KnownVersion { guid: new_guid(0xB02B49B5, 0xBB2044E9, 0xA30432B7, 0x52E40360), name: String::from_str("FMobileObjectVersion"), mappings: None });
        t.push(KnownVersion { guid: new_guid(0xA4E4105C, 0x59A149B5, 0xA7C540C4, 0x547EDFEE), name: String::from_str("FNetworkingObjectVersion"), mappings: None });
        t.push(KnownVersion { guid: new_guid(0x39C831C9, 0x5AE647DC, 0x9A449C17, 0x3E1C8E7C), name: String::from_str("FOnlineObjectVersion"), mappings: None });
        t.push(KnownVersion { guid: new_guid(0x78F01B33, 0xEBEA4F98, 0xB9B484EA, 0xCCB95AA2), name: String::from_str("FPhysicsObjectVersion"), mappings: None });
        t.push(KnownVersion { guid: new_guid(0x6631380F, 0x2D4D43E0, 0x8009CF27, 0x6956A95A), name: String::from_str("FPlatformObjectVersion"), mappings: None });
        t.push(KnownVersion { guid: new_guid(0x12F88B9F, 0x88754AFC, 0xA67CD90C, 0x383ABD29), name: String::from_str("FRenderingObjectVersion"), mappings: None });
        t.push(KnownVersion { guid: new_guid(0xD7296918, 0x1DD64BDD, 0x9DE264A8, 0x3CC13884), name: String::from_str("FVRObjectVersion"), mappings: None });
        t.push(KnownVersion { guid: new_guid(0xC2A15278, 0xBFE74AFE, 0x6C1790FF, 0x531DF755), name: String::from_str("FLoadTimesObjectVersion"), mappings: None });
        t.push(KnownVersion { guid: new_guid(0x6EACA3D4, 0x40EC4CC1, 0xB7868BED, 0x9428FC5), name: String::from_str("FGeometryObjectVersion"), mappings: None });
        t.push(KnownVersion { guid: new_guid(0x29E575DD, 0xE0A34627, 0x9D10D276, 0x232CDCEA), name: String::from_str("FAnimPhysObjectVersion"), mappings: None });
        t.push(KnownVersion { guid: new_guid(0xAF43A65D, 0x7FD34947, 0x98733E8E, 0xD9C1BB05), name: String::from_str("FAnimObjectVersion"), mappings: None });
    assert(infos(t@) =~= infos(t0) + known_versions_first());
}

/// The second part of the registry of known custom versions.
pub open spec fn known_versions_second() -> Seq<VersionInfo> {
    seq![
        VersionInfo { guid: spec_new_guid(0x6B266CEC, 0x1EC74B8F, 0xA30BE4D9, 0x0942FC07), name: "FReflectionCaptureObjectVersion"@, mappings: None },
        VersionInfo { guid: spec_new_guid(0x0DF73D61, 0xA23F47EA, 0xB72789E9, 0x0C41499A), name: "FAutomationObjectVersion"@, mappings: None },
        VersionInfo { guid: spec_new_guid(0x9DFFBCD6, 0x494F0158, 0xE2211282, 0x3C92A888), name: "FEnterpriseObjectVersion"@, mappings: None },
        VersionInfo { guid: spec_new_guid(0xF2AED0AC, 0x9AFE416F, 0x8664AA7F, 0xFA26D6FC), name: "FNiagaraObjectVersion"@, mappings: None },
        VersionInfo { guid: spec_new_guid(0x174F1F0B, 0xB4C645A5, 0xB13F2EE8, 0xD0FB917D), name: "FDestructionObjectVersion"@, mappings: None },
        VersionInfo { guid: spec_new_guid(0x35F94A83, 0xE258406C, 0xA31809F5, 0x9610247C), name: "FExternalPhysicsCustomObjectVersion"@, mappings: None },
        VersionInfo { guid: spec_new_guid(0xB68FC16E, 0x8B1B42E2, 0xB453215C, 0x058844FE), name: "FExternalPhysicsMaterialCustomObjectVersion"@, mappings: None },
        VersionInfo { guid: spec_new_guid(0xB2E18506, 0x4273CFC2, 0xA54EF4BB, 0x758BBA07), name: "FCineCameraObjectVersion"@, mappings: None },
        VersionInfo { guid: spec_new_guid(0x64F58936, 0xFD1B42BA, 0xBA967289, 0xD5D0FA4E), name: "FVirtualProductionObjectVersion"@, mappings: None },
        VersionInfo { guid: spec_new_guid(0x6f0ed827, 0xa6094895, 0x9c91998d, 0x90180ea4), name: "FMediaFrameworkObjectVersion"@, mappings: None },
        VersionInfo { guid: spec_new_guid(0xAFE08691, 0x3A0D4952, 0xB673673B, 0x7CF22D1E), name: "FPoseDriverCustomVersion"@, mappings: None },
        VersionInfo { guid: spec_new_guid(0xCB8AB0CD, 0xE78C4BDE, 0xA8621393, 0x14E9EF62), name: "FTempCustomVersion"@, mappings: None },
        VersionInfo { guid: spec_new_guid(0x2EB5FDBD, 0x01AC4D10, 0x8136F38F, 0x3393A5DA), name: "FAnimationCustomVersion"@, mappings: None },
        VersionInfo { guid: spec_new_guid(0x717F9EE7, 0xE9B0493A, 0x88B39132, 0x1B388107), name: "FAssetRegistryVersion"@, mappings: None },
    ]
}

/// The second part of the registry of known custom versions.
fn push_known_versions_second(t: &mut Vec<KnownVersion>)
    ensures infos(final(t)@) == infos(old(t)@) + known_versions_second(),
{
    let ghost t0 = t@;
        t.push(KnownVersion { guid: new_guid(0x6B266CEC, 0x1EC74B8F, 0xA30BE4D9, 0x0942FC07), name: String::from_str("FReflectionCaptureObjectVersion"), mappings: None });
        t.push(KnownVersion { guid: new_guid(0x0DF73D61, 0xA23F47EA, 0xB72789E9, 0x0C41499A), name: String::from_str("FAutomationObjectVersion"), mappings: None });
        t.push(KnownVersion { guid: new_guid(0x9DFFBCD6, 0x494F0158, 0xE2211282, 0x3C92A888), name: String::from_str("FEnterpriseObjectVersion"), mappings: None });
        t.push(KnownVersion { guid: new_guid(0xF2AED0AC, 0x9AFE416F, 0x8664AA7F, 0xFA26D6FC), name: String::from_str("FNiagaraObjectVersion"), mappings: None });
        t.push(KnownVersion { guid: new_guid(0x174F1F0B, 0xB4C645A5, 0xB13F2EE8, 0xD0FB917D), name: String::from_str("FDestructionObjectVersion"), mappings: None });
        t.push(KnownVersion { guid: new_guid(0x35F94A83, 0xE258406C, 0xA31809F5, 0x9610247C), name: String::from_str("FExternalPhysicsCustomObjectVersion"), mappings: None });
        t.push(KnownVersion { guid: new_guid(0xB68FC16E, 0x8B1B42E2, 0xB453215C, 0x058844FE), name: String::from_str("FExternalPhysicsMaterialCustomObjectVersion"), mappings: None });
        t.push(KnownVersion { guid: new_guid(0xB2E18506, 0x4273CFC2, 0xA54EF4BB, 0x758BBA07), name: String::from_str("FCineCameraObjectVersion"), mappings: None });
        t.push(KnownVersion { guid: new_guid(0x64F58936, 0xFD1B42BA, 0xBA967289, 0xD5D0FA4E), name: String::from_str("FVirtualProductionObjectVersion"), mappings: None });
        t.push(KnownVersion { guid: new_guid(0x6f0ed827, 0xa6094895, 0x9c91998d, 0x90180ea4), name: String::from_str("FMediaFrameworkObjectVersion"), mappings: None });
        t.push(KnownVersion { guid: new_guid(0xAFE08691, 0x3A0D4952, 0xB673673B, 0x7CF22D1E), name: String::from_str("FPoseDriverCustomVersion"), mappings: None });
        t.push(KnownVersion { guid: new_guid(0xCB8AB0CD, 0xE78C4BDE, 0xA8621393, 0x14E9EF62), name: String::from_str("FTempCustomVersion"), mappings: None });
        t.push(KnownVersion { guid: new_guid(0x2EB5FDBD, 0x01AC4D10, 0x8136F38F, 0x3393A5DA), name: String::from_str("FAnimationCustomVersion"), mappings: None });
        t.push(KnownVersion { guid: new_guid(0x717F9EE7, 0xE9B0493A, 0x88B39132, 0x1B388107), name: String::from_str("FAssetRegistryVersion"), mappings: None });
    assert(infos(t@) =~= infos(t0) + known_versions_second());
}

/// The third part of the registry of known custom versions.
pub open spec fn known_versions_third() -> Seq<VersionInfo> {
    seq![
        VersionInfo { guid: spec_new_guid(0xFB680AF2, 0x59EF4BA3, 0xBAA819B5, 0x73C8443D), name: "FClothingAssetCustomVersion"@, mappings: None },
        VersionInfo { guid: spec_new_guid(0x4A56EB40, 0x10F511DC, 0x92D3347E, 0xB2C96AE7), name: "FParticleSystemCustomVersion"@, mappings: None },
        VersionInfo { guid: spec_new_guid(0xD78A4A00, 0xE8584697, 0xBAA819B5, 0x487D46B4), name: "FSkeletalMeshCustomVersion"@, mappings: None },
        VersionInfo { guid: spec_new_guid(0x5579F886, 0x933A4C1F, 0x83BA087B, 0x6361B92F), name: "FRecomputeTangentCustomVersion"@, mappings: None },
        VersionInfo { guid: spec_new_guid(0x612FBE52, 0xDA53400B, 0x910D4F91, 0x9FB1857C), name: "FOverlappingVerticesCustomVersion"@, mappings: None },
        VersionInfo { guid: spec_new_guid(0x430C4D19, 0x71544970, 0x87699B69, 0xDF90B0E5), name: "FFoliageCustomVersion"@, mappings: None },
        VersionInfo { guid: spec_new_guid(0xaafe32bd, 0x53954c14, 0xb66a5e25, 0x1032d1dd), name: "FProceduralFoliageCustomVersion"@, mappings: None },
        VersionInfo { guid: spec_new_guid(0xab965196, 0x45d808fc, 0xb7d7228d, 0x78ad569e), name: "FLiveLinkCustomVersion"@, mappings: None },
        VersionInfo { guid: FCoreObjectVersion::spec_guid(), name: FCoreObjectVersion::spec_friendly_name(), mappings: Some(FCoreObjectVersion::spec_version_mappings()) },
        VersionInfo { guid: FEditorObjectVersion::spec_guid(), name: FEditorObjectVersion::spec_friendly_name(), mappings: Some(FEditorObjectVersion::spec_version_mappings()) },
        VersionInfo { guid: FFrameworkObjectVersion::spec_guid(), name: FFrameworkObjectVersion::spec_friendly_name(), mappings: Some(FFrameworkObjectVersion::spec_version_mappings()) },
        VersionInfo { guid: FFortniteMainBranchObjectVersion::spec_guid(), name: FFortniteMainBranchObjectVersion::spec_friendly_name(), mappings: Some(FFortniteMainBranchObjectVersion::spec_version_mappings()) },
        VersionInfo { guid: FReleaseObjectVersion::spec_guid(), name: FReleaseObjectVersion::spec_friendly_name(), mappings: Some(FReleaseObjectVersion::spec_version_mappings()) },
        VersionInfo { guid: FSequencerObjectVersion::spec_guid(), name: FSequencerObjectVersion::spec_friendly_name(), mappings: Some(FSequencerObjectVersion::spec_version_mappings()) },
    ]
}

/// The third part of the registry of known custom versions.
fn push_known_versions_third(t: &mut Vec<KnownVersion>)
    ensures infos(final(t)@) == infos(old(t)@) + known_versions_third(),
{
    let ghost t0 = t@;
        t.push(KnownVersion { guid: new_guid(0xFB680AF2, 0x59EF4BA3, 0xBAA819B5, 0x73C8443D), name: String::from_str("FClothingAssetCustomVersion"), mappings: None });
        t.push(KnownVersion { guid: new_guid(0x4A56EB40, 0x10F511DC, 0x92D3347E, 0xB2C96AE7), name: String::from_str("FParticleSystemCustomVersion"), mappings: None });
        t.push(KnownVersion { guid: new_guid(0xD78A4A00, 0xE8584697, 0xBAA819B5, 0x487D46B4), name: String::from_str("FSkeletalMeshCustomVersion"), mappings: None });
        t.push(KnownVersion { guid: new_guid(0x5579F886, 0x933A4C1F, 0x83BA087B, 0x6361B92F), name: String::from_str("FRecomputeTangentCustomVersion"), mappings: None });
        t.push(KnownVersion { guid: new_guid(0x612FBE52, 0xDA53400B, 0x910D4F91, 0x9FB1857C), name: String::from_str("FOverlappingVerticesCustomVersion"), mappings: None });
        t.push(KnownVersion { guid: new_guid(0x430C4D19, 0x71544970, 0x87699B69, 0xDF90B0E5), name: String::from_str("FFoliageCustomVersion"), mappings: None });
        t.push(KnownVersion { guid: new_guid(0xaafe32bd, 0x53954c14, 0xb66a5e25, 0x1032d1dd), name: String::from_str("FProceduralFoliageCustomVersion"), mappings: None });
        t.push(KnownVersion { guid: new_guid(0xab965196, 0x45d808fc, 0xb7d7228d, 0x78ad569e), name: String::from_str("FLiveLinkCustomVersion"), mappings: None });
        t.push(KnownVersion { guid: FCoreObjectVersion::guid(), name: FCoreObjectVersion::friendly_name(), mappings: Some(FCoreObjectVersion::version_mappings()) });
        t.push(KnownVersion { guid: FEditorObjectVersion::guid(), name: FEditorObjectVersion::friendly_name(), mappings: Some(FEditorObjectVersion::version_mappings()) });
        t.push(KnownVersion { guid: FFrameworkObjectVersion::guid(), name: FFrameworkObjectVersion::friendly_name(), mappings: Some(FFrameworkObjectVersion::version_mappings()) });
        t.push(KnownVersion { guid: FFortniteMainBranchObjectVersion::guid(), name: FFortniteMainBranchObjectVersion::friendly_name(), mappings: Some(FFortniteMainBranchObjectVersion::version_mappings()) });
        t.push(KnownVersion { guid: FReleaseObjectVersion::guid(), name: FReleaseObjectVersion::friendly_name(), mappings: Some(FReleaseObjectVersion::version_mappings()) });
        t.push(KnownVersion { guid: FSequencerObjectVersion::guid(), name: FSequencerObjectVersion::friendly_name(), mappings: Some(FSequencerObjectVersion::version_mappings()) });
    assert(infos(t@) =~= infos(t0) + known_versions_third());
}

/// The registry of known custom versions: those known by name alone, then those whose
/// version numbers by engine version are known.
pub open spec fn known_versions() -> Seq<VersionInfo> {
    known_versions_first() + known_versions_second() + known_versions_third()
}

/// The registry of known custom versions.
pub fn known_version_table() -> (t: Vec<KnownVersion>)
    ensures infos(t@) == known_versions(),
{
    let mut t: Vec<KnownVersion> = Vec::new();
    assert(infos(t@) =~= Seq::<VersionInfo>::empty());
    push_known_versions_first(&mut t);
    push_known_versions_second(&mut t);
    push_known_versions_third(&mut t);
    assert(infos(t@) =~= known_versions());
    t
}

/// The first entry of `t` from `i` on with `guid`.
pub open spec fn find_info_from(t: Seq<VersionInfo>, guid: Seq<u8>, i: int) -> Option<VersionInfo>
    decreases t.len() - i,
{
    if i < 0 || i >= t.len() {
        None
    } else if t[i].guid == guid {
        Some(t[i])
    } else {
        find_info_from(t, guid, i + 1)
    }
}

/// The name of the known custom version with `guid`.
pub open spec fn info_name(guid: Seq<u8>) -> Option<Seq<char>> {
    match find_info_from(known_versions(), guid, 0) {
        Some(i) => Some(i.name),
        None => None,
    }
}

/// The version numbers by engine version of the known custom version with `guid`; none
/// when they are not known.
pub open spec fn info_mappings(guid: Seq<u8>) -> Seq<(EngineVersion, i32)> {
    match find_info_from(known_versions(), guid, 0) {
        Some(i) => match i.mappings {
            Some(m) => m,
            None => Seq::empty(),
        },
        None => Seq::empty(),
    }
}

/// The first engine version from `i` on that introduced the version number `n`.
pub open spec fn engine_for_number_from(m: Seq<(EngineVersion, i32)>, n: i32, i: int) -> Option<EngineVersion>
    decreases m.len() - i,
{
    if i < 0 || i >= m.len() {
        None
    } else if m[i].1 == n {
        Some(m[i].0)
    } else {
        engine_for_number_from(m, n, i + 1)
    }
}

/// The first version number from `i` on whose engine version is no later than `ev`.
pub open spec fn number_for_engine_from(m: Seq<(EngineVersion, i32)>, ev: EngineVersion, i: int) -> Option<i32>
    decreases m.len() - i,
{
    if i < 0 || i >= m.len() {
        None
    } else if m[i].0.ord() <= ev.ord() {
        Some(m[i].1)
    } else {
        number_for_engine_from(m, ev, i + 1)
    }
}

/// A copy of version mappings.
fn copy_mappings(m: &Vec<(EngineVersion, i32)>) -> (r: Vec<(EngineVersion, i32)>)
    ensures r@ == m@,
{
    let mut r: Vec<(EngineVersion, i32)> = Vec::new();
    let mut i: usize = 0;
    while i < m.len()
        invariant i <= m.len(), r@ == m@.take(i as int),
        decreases m.len() - i,
    {
        r.push(m[i]);
        assert(r@ =~= m@.take(i + 1));
        i = i + 1;
    }
    assert(m@.take(m.len() as int) =~= m@);
    r
}

/// The name and mappings that the registry holds for `guid`.
fn lookup_info(guid: &Guid) -> (r: (Option<String>, Vec<(EngineVersion, i32)>))
    ensures
        opt_chars(r.0) == info_name(guid@),
        r.1@ == info_mappings(guid@),
{
    let t = known_version_table();
    let mut i: usize = 0;
    while i < t.len()
        invariant
            i <= t.len(),
            infos(t@) == known_versions(),
            find_info_from(known_versions(), guid@, 0) == find_info_from(known_versions(), guid@, i as int),
        decreases t.len() - i,
    {
        assert(infos(t@)[i as int] == t@[i as int].view());
        if guid_eq(&t[i].guid, guid) {
            let name = t[i].name.clone();
            let m = match &t[i].mappings {
                Some(m) => copy_mappings(m),
                None => Vec::new(),
            };
            return (Some(name), m);
        }
        i = i + 1;
    }
    (None, Vec::new())
}

/// A custom version: its GUID, its name and version numbers by engine version when known,
/// and its version number.
#[derive(Debug, Clone)]
pub struct CustomVersion {
    /// GUID
    pub guid: Guid,
    /// Friendly name
    pub friendly_name: Option<String>,
    /// Version number
    pub version: i32,
    /// Engine versions and the version numbers they introduced, newest first
    pub version_mappings: Vec<(EngineVersion, i32)>,
}

impl CustomVersion {
    /// What the custom version holds.
    pub open spec fn view(&self) -> (Seq<u8>, Option<Seq<char>>, i32, Seq<(EngineVersion, i32)>) {
        (self.guid@, opt_chars(self.friendly_name), self.version, self.version_mappings@)
    }

    /// A custom version with `guid` and `version`, named from the registry.
    pub open spec fn spec_new(guid: Seq<u8>, version: i32) -> (Seq<u8>, Option<Seq<char>>, i32, Seq<(EngineVersion, i32)>) {
        (guid, info_name(guid), version, info_mappings(guid))
    }

    /// Create a new custom version; the name and version numbers come from the registry of
    /// known custom versions.
    pub fn new(guid: Guid, version: i32) -> (r: Self)
        ensures r.view() == Self::spec_new(guid@, version),
    {
        let (friendly_name, version_mappings) = lookup_info(&guid);
        CustomVersion { guid, friendly_name, version, version_mappings }
    }

    /// The GUID and version number at the start of `s`.
    pub open spec fn spec_parse(s: Seq<u8>) -> Option<((Seq<u8>, i32), int)> {
        if s.len() >= 20 {
            match parse_i32(s.skip(16)) {
                Some((v, _)) => Some(((s.take(16), v), 20)),
                None => None,
            }
        } else {
            None
        }
    }

    /// The encoding of the custom version.
    pub open spec fn spec_ser(self) -> Seq<u8> {
        self.guid@ + ser_i32(self.version)
    }

    /// Read a custom version: 16 GUID bytes and an `i32` version number.
    pub fn read(reader: &mut ByteReader) -> (res: Result<Self, Error>)
        ensures
            final(reader).data@ == old(reader).data@,
            match res {
                Ok(c) => Self::spec_parse(old(reader).remaining()) == Some(((c.guid@, c.version), final(reader).pos - old(reader).pos))
                    && c.view() == Self::spec_new(c.guid@, c.version),
                Err(_) => Self::spec_parse(old(reader).remaining()) is None,
            },
    {
        let ghost s = old(reader).remaining();
        let b = reader.read_record(16)?;
        let key: Guid = [b[0], b[1], b[2], b[3], b[4], b[5], b[6], b[7], b[8], b[9], b[10], b[11], b[12], b[13], b[14], b[15]];
        assert(key@ =~= b@);
        proof { lemma_advance(*old(reader), *reader); }
        let version = reader.read_i32()?;
        Ok(Self::new(key, version))
    }

    /// Write a custom version.
    pub fn write(&self, writer: &mut ByteWriter) -> (res: Result<(), Error>)
        ensures res is Ok, final(writer).data@ == old(writer).data@ + self.spec_ser(),
    {
        writer.write_bytes(&self.guid);
        writer.write_i32(self.version);
        Ok(())
    }

    /// Reading back a written custom version gives its GUID and version number, whatever
    /// follows; `read` then names it from the registry as `new` does.
    pub proof fn lemma_roundtrip(self, rest: Seq<u8>)
        ensures
            Self::spec_parse(self.spec_ser() + rest) == Some(((self.guid@, self.version), 20int)),
    {
        let s = self.spec_ser() + rest;
        crate::archive::lemma_parse_ints(0, 0, 0, self.version, 0, rest);
        assert(s.skip(16) =~= ser_i32(self.version) + rest);
        assert(s.take(16) =~= self.guid@);
    }

    /// The custom version of a value of a custom version enum.
    pub fn from_version<T: CustomVersionTrait>(version: T) -> (r: Self)
        ensures r.view() == (T::spec_guid(), Some(T::spec_friendly_name()), version.spec_into_i32(), T::spec_version_mappings()),
    {
        CustomVersion {
            guid: T::guid(),
            friendly_name: Some(T::friendly_name()),
            version: version.into_i32(),
            version_mappings: T::version_mappings(),
        }
    }

    /// The engine version that introduced a version number, the first in the mappings.
    pub fn get_engine_version_from_version_number(&self, version_number: i32) -> (r: Option<EngineVersion>)
        ensures r == engine_for_number_from(self.version_mappings@, version_number, 0),
    {
        let mut i: usize = 0;
        while i < self.version_mappings.len()
            invariant
                i <= self.version_mappings.len(),
                engine_for_number_from(self.version_mappings@, version_number, 0)
                    == engine_for_number_from(self.version_mappings@, version_number, i as int),
            decreases self.version_mappings.len() - i,
        {
            let (e, v) = self.version_mappings[i];
            if v == version_number {
                return Some(e);
            }
            i = i + 1;
        }
        None
    }

    /// The version number of an engine version: the first in the mappings whose engine
    /// version is no later than it.
    pub fn get_version_number_from_engine_version(&self, engine_version: EngineVersion) -> (r: Option<i32>)
        ensures r == number_for_engine_from(self.version_mappings@, engine_version, 0),
    {
        let mut i: usize = 0;
        let target = engine_version.to_i32();
        while i < self.version_mappings.len()
            invariant
                i <= self.version_mappings.len(),
                target == engine_version.ord(),
                number_for_engine_from(self.version_mappings@, engine_version, 0)
                    == number_for_engine_from(self.version_mappings@, engine_version, i as int),
            decreases self.version_mappings.len() - i,
        {
            let (e, v) = self.version_mappings[i];
            if e.to_i32() <= target {
                return Some(v);
            }
            i = i + 1;
        }
        None
    }
}

/// The custom versions that an engine version uses: for each known custom version whose
/// version numbers are known, in registry order, the number of the engine version.
pub open spec fn default_container(t: Seq<VersionInfo>, ev: EngineVersion, n: int)
    -> Seq<(Seq<u8>, Option<Seq<char>>, i32, Seq<(EngineVersion, i32)>)>
    decreases n,
{
    if n <= 0 || n > t.len() {
        Seq::empty()
    } else {
        let info = t[n - 1];
        let m = match info.mappings { Some(m) => m, None => Seq::empty() };
        default_container(t, ev, n - 1) + match number_for_engine_from(m, ev, 0) {
            Some(v) => seq![(info.guid, Some(info.name), v, m)],
            None => Seq::empty(),
        }
    }
}

/// The views of custom versions.
pub open spec fn custom_views(v: Seq<CustomVersion>) -> Seq<(Seq<u8>, Option<Seq<char>>, i32, Seq<(EngineVersion, i32)>)> {
    v.map_values(|c: CustomVersion| c.view())
}

impl CustomVersion {
    /// The custom versions of an engine version, for every known custom version whose
    /// version numbers are known.
    pub fn get_default_custom_version_container(engine_version: EngineVersion) -> (r: Vec<CustomVersion>)
        ensures custom_views(r@) == default_container(known_versions(), engine_version, known_versions().len() as int),
    {
        let t = known_version_table();
        let mut container: Vec<CustomVersion> = Vec::new();
        let mut i: usize = 0;
        assert(custom_views(container@) =~= default_container(known_versions(), engine_version, 0));
        while i < t.len()
            invariant
                i <= t.len(),
                infos(t@) == known_versions(),
                custom_views(container@) == default_container(known_versions(), engine_version, i as int),
            decreases t.len() - i,
        {
            assert(infos(t@)[i as int] == t@[i as int].view());
            let mappings = match &t[i].mappings {
                Some(m) => copy_mappings(m),
                None => Vec::new(),
            };
            let mut version = CustomVersion {
                guid: t[i].guid,
                friendly_name: Some(t[i].name.clone()),
                version: 0,
                version_mappings: mappings,
            };
            let ghost before = container@;
            match version.get_version_number_from_engine_version(engine_version) {
                Some(n) => {
                    version.version = n;
                    container.push(version);
                    assert(custom_views(container@) =~= custom_views(before).push(version.view()));
                },
                None => {},
            }
            i = i + 1;
        }
        container
    }
}

} // verus!
