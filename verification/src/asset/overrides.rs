//! The struct types that asset data assumes for map and array properties whose struct type
//! cannot be read from the asset itself.

use vstd::prelude::*;
use crate::containers::indexed_map::{IndexedMap, MapEntry, key_pos, entries_wf, spec_insert, spec_extend, lemma_key_pos};

verus! {

/// Insertion index, key and value text of each entry.
pub open spec fn override_pairs(s: Seq<MapEntry<Seq<char>, String>>) -> Seq<(usize, Seq<char>, Seq<char>)> {
    s.map_values(|e: MapEntry<Seq<char>, String>| (e.0, e.1, e.2@))
}

/// The key struct types that asset data assumes: insertion index, map property name, struct type.
pub open spec fn default_map_key_pairs() -> Seq<(usize, Seq<char>, Seq<char>)> {
    seq![
        (0usize, "PlayerCharacterIDs"@, "Guid"@),
        (1usize, "m_PerConditionValueToNodeMap"@, "Guid"@),
        (2usize, "BindingIdToReferences"@, "Guid"@),
        (3usize, "UserParameterRedirects"@, "NiagaraVariable"@),
        (4usize, "Tracks"@, "MovieSceneTrackIdentifier"@),
        (5usize, "SubSequences"@, "MovieSceneSequenceID"@),
        (6usize, "Hierarchy"@, "MovieSceneSequenceID"@),
        (7usize, "TrackSignatureToTrackIdentifier"@, "Guid"@),
        (8usize, "ItemsToRefund"@, "Guid"@),
        (9usize, "PlayerCharacterIDMap"@, "Guid"@),
    ]
}

/// The value struct types that asset data assumes: insertion index, map property name, struct type.
pub open spec fn default_map_value_pairs() -> Seq<(usize, Seq<char>, Seq<char>)> {
    seq![
        (0usize, "ColorDatabase"@, "LinearColor"@),
        (1usize, "UserParameterRedirects"@, "NiagaraVariable"@),
        (2usize, "TrackSignatureToTrackIdentifier"@, "MovieSceneTrackIdentifier"@),
        (3usize, "RainChanceMinMaxPerWeatherState"@, "FloatRange"@),
    ]
}

/// The element struct types that asset data assumes: insertion index, array property name, struct type.
pub open spec fn default_array_struct_type_pairs() -> Seq<(usize, Seq<char>, Seq<char>)> {
    seq![
        (0usize, "Keys"@, "RichCurveKey"@),
    ]
}

/// Key struct types of map properties whose keys are structs, by the name of the map property.
pub fn default_map_key_override() -> (m: IndexedMap<String, String>)
    ensures
        m.wf(),
        m.next_index() == 10,
        override_pairs(m.entries()) == default_map_key_pairs(),
{
    let mut m: IndexedMap<String, String> = IndexedMap::new();
    proof {
        reveal_strlit("BindingIdToReferences");
        reveal_strlit("Guid");
        reveal_strlit("Hierarchy");
        reveal_strlit("ItemsToRefund");
        reveal_strlit("MovieSceneSequenceID");
        reveal_strlit("MovieSceneTrackIdentifier");
        reveal_strlit("NiagaraVariable");
        reveal_strlit("PlayerCharacterIDMap");
        reveal_strlit("PlayerCharacterIDs");
        reveal_strlit("SubSequences");
        reveal_strlit("TrackSignatureToTrackIdentifier");
        reveal_strlit("Tracks");
        reveal_strlit("UserParameterRedirects");
        reveal_strlit("m_PerConditionValueToNodeMap");
    }
    let ghost e = m.entries();
    let key = String::from_str("PlayerCharacterIDs");
    let value = String::from_str("Guid");
    let ghost kv = key@;
    let ghost vv = value;
    assert(key_pos(e, kv) is None) by {
        assert forall|i: int| 0 <= i < e.len() implies #[trigger] e[i].1 != kv by {}
    }
    m.insert(key, value);
    proof {
        assert(m.entries() == e.push((0usize, kv, vv)));
        assert(m.entries()[0].1 == "PlayerCharacterIDs"@);
        assert(m.entries()[0].0 == 0);
        assert(m.entries()[0].2@ == "Guid"@);
    }
    let ghost e = m.entries();
    let key = String::from_str("m_PerConditionValueToNodeMap");
    let value = String::from_str("Guid");
    let ghost kv = key@;
    let ghost vv = value;
    assert(key_pos(e, kv) is None) by {
        assert forall|i: int| 0 <= i < e.len() implies #[trigger] e[i].1 != kv by { if i == 0 {} }
    }
    m.insert(key, value);
    proof {
        assert(m.entries() == e.push((1usize, kv, vv)));
        assert(m.entries()[0].1 == "PlayerCharacterIDs"@);
        assert(m.entries()[0].0 == 0);
        assert(m.entries()[0].2@ == "Guid"@);
        assert(m.entries()[1].1 == "m_PerConditionValueToNodeMap"@);
        assert(m.entries()[1].0 == 1);
        assert(m.entries()[1].2@ == "Guid"@);
    }
    let ghost e = m.entries();
    let key = String::from_str("BindingIdToReferences");
    let value = String::from_str("Guid");
    let ghost kv = key@;
    let ghost vv = value;
    assert(key_pos(e, kv) is None) by {
        assert forall|i: int| 0 <= i < e.len() implies #[trigger] e[i].1 != kv by { if i == 0 {} else if i == 1 {} }
    }
    m.insert(key, value);
    proof {
        assert(m.entries() == e.push((2usize, kv, vv)));
        assert(m.entries()[0].1 == "PlayerCharacterIDs"@);
        assert(m.entries()[0].0 == 0);
        assert(m.entries()[0].2@ == "Guid"@);
        assert(m.entries()[1].1 == "m_PerConditionValueToNodeMap"@);
        assert(m.entries()[1].0 == 1);
        assert(m.entries()[1].2@ == "Guid"@);
        assert(m.entries()[2].1 == "BindingIdToReferences"@);
        assert(m.entries()[2].0 == 2);
        assert(m.entries()[2].2@ == "Guid"@);
    }
    let ghost e = m.entries();
    let key = String::from_str("UserParameterRedirects");
    let value = String::from_str("NiagaraVariable");
    let ghost kv = key@;
    let ghost vv = value;
    assert(key_pos(e, kv) is None) by {
        assert forall|i: int| 0 <= i < e.len() implies #[trigger] e[i].1 != kv by { if i == 0 {} else if i == 1 {} else if i == 2 {} }
    }
    m.insert(key, value);
    proof {
        assert(m.entries() == e.push((3usize, kv, vv)));
        assert(m.entries()[0].1 == "PlayerCharacterIDs"@);
        assert(m.entries()[0].0 == 0);
        assert(m.entries()[0].2@ == "Guid"@);
        assert(m.entries()[1].1 == "m_PerConditionValueToNodeMap"@);
        assert(m.entries()[1].0 == 1);
        assert(m.entries()[1].2@ == "Guid"@);
        assert(m.entries()[2].1 == "BindingIdToReferences"@);
        assert(m.entries()[2].0 == 2);
        assert(m.entries()[2].2@ == "Guid"@);
        assert(m.entries()[3].1 == "UserParameterRedirects"@);
        assert(m.entries()[3].0 == 3);
        assert(m.entries()[3].2@ == "NiagaraVariable"@);
    }
    let ghost e = m.entries();
    let key = String::from_str("Tracks");
    let value = String::from_str("MovieSceneTrackIdentifier");
    let ghost kv = key@;
    let ghost vv = value;
    assert(key_pos(e, kv) is None) by {
        assert forall|i: int| 0 <= i < e.len() implies #[trigger] e[i].1 != kv by { if i == 0 {} else if i == 1 {} else if i == 2 {} else if i == 3 {} }
    }
    m.insert(key, value);
    proof {
        assert(m.entries() == e.push((4usize, kv, vv)));
        assert(m.entries()[0].1 == "PlayerCharacterIDs"@);
        assert(m.entries()[0].0 == 0);
        assert(m.entries()[0].2@ == "Guid"@);
        assert(m.entries()[1].1 == "m_PerConditionValueToNodeMap"@);
        assert(m.entries()[1].0 == 1);
        assert(m.entries()[1].2@ == "Guid"@);
        assert(m.entries()[2].1 == "BindingIdToReferences"@);
        assert(m.entries()[2].0 == 2);
        assert(m.entries()[2].2@ == "Guid"@);
        assert(m.entries()[3].1 == "UserParameterRedirects"@);
        assert(m.entries()[3].0 == 3);
        assert(m.entries()[3].2@ == "NiagaraVariable"@);
        assert(m.entries()[4].1 == "Tracks"@);
        assert(m.entries()[4].0 == 4);
        assert(m.entries()[4].2@ == "MovieSceneTrackIdentifier"@);
    }
    let ghost e = m.entries();
    let key = String::from_str("SubSequences");
    let value = String::from_str("MovieSceneSequenceID");
    let ghost kv = key@;
    let ghost vv = value;
    assert(key_pos(e, kv) is None) by {
        assert forall|i: int| 0 <= i < e.len() implies #[trigger] e[i].1 != kv by { if i == 0 {} else if i == 1 {} else if i == 2 {} else if i == 3 {} else if i == 4 {} }
    }
    m.insert(key, value);
    proof {
        assert(m.entries() == e.push((5usize, kv, vv)));
        assert(m.entries()[0].1 == "PlayerCharacterIDs"@);
        assert(m.entries()[0].0 == 0);
        assert(m.entries()[0].2@ == "Guid"@);
        assert(m.entries()[1].1 == "m_PerConditionValueToNodeMap"@);
        assert(m.entries()[1].0 == 1);
        assert(m.entries()[1].2@ == "Guid"@);
        assert(m.entries()[2].1 == "BindingIdToReferences"@);
        assert(m.entries()[2].0 == 2);
        assert(m.entries()[2].2@ == "Guid"@);
        assert(m.entries()[3].1 == "UserParameterRedirects"@);
        assert(m.entries()[3].0 == 3);
        assert(m.entries()[3].2@ == "NiagaraVariable"@);
        assert(m.entries()[4].1 == "Tracks"@);
        assert(m.entries()[4].0 == 4);
        assert(m.entries()[4].2@ == "MovieSceneTrackIdentifier"@);
        assert(m.entries()[5].1 == "SubSequences"@);
        assert(m.entries()[5].0 == 5);
        assert(m.entries()[5].2@ == "MovieSceneSequenceID"@);
    }
    let ghost e = m.entries();
    let key = String::from_str("Hierarchy");
    let value = String::from_str("MovieSceneSequenceID");
    let ghost kv = key@;
    let ghost vv = value;
    assert(key_pos(e, kv) is None) by {
        assert forall|i: int| 0 <= i < e.len() implies #[trigger] e[i].1 != kv by { if i == 0 {} else if i == 1 {} else if i == 2 {} else if i == 3 {} else if i == 4 {} else if i == 5 {} }
    }
    m.insert(key, value);
    proof {
        assert(m.entries() == e.push((6usize, kv, vv)));
        assert(m.entries()[0].1 == "PlayerCharacterIDs"@);
        assert(m.entries()[0].0 == 0);
        assert(m.entries()[0].2@ == "Guid"@);
        assert(m.entries()[1].1 == "m_PerConditionValueToNodeMap"@);
        assert(m.entries()[1].0 == 1);
        assert(m.entries()[1].2@ == "Guid"@);
        assert(m.entries()[2].1 == "BindingIdToReferences"@);
        assert(m.entries()[2].0 == 2);
        assert(m.entries()[2].2@ == "Guid"@);
        assert(m.entries()[3].1 == "UserParameterRedirects"@);
        assert(m.entries()[3].0 == 3);
        assert(m.entries()[3].2@ == "NiagaraVariable"@);
        assert(m.entries()[4].1 == "Tracks"@);
        assert(m.entries()[4].0 == 4);
        assert(m.entries()[4].2@ == "MovieSceneTrackIdentifier"@);
        assert(m.entries()[5].1 == "SubSequences"@);
        assert(m.entries()[5].0 == 5);
        assert(m.entries()[5].2@ == "MovieSceneSequenceID"@);
        assert(m.entries()[6].1 == "Hierarchy"@);
        assert(m.entries()[6].0 == 6);
        assert(m.entries()[6].2@ == "MovieSceneSequenceID"@);
    }
    let ghost e = m.entries();
    let key = String::from_str("TrackSignatureToTrackIdentifier");
    let value = String::from_str("Guid");
    let ghost kv = key@;
    let ghost vv = value;
    assert(key_pos(e, kv) is None) by {
        assert forall|i: int| 0 <= i < e.len() implies #[trigger] e[i].1 != kv by { if i == 0 {} else if i == 1 {} else if i == 2 {} else if i == 3 {} else if i == 4 {} else if i == 5 {} else if i == 6 {} }
    }
    m.insert(key, value);
    proof {
        assert(m.entries() == e.push((7usize, kv, vv)));
        assert(m.entries()[0].1 == "PlayerCharacterIDs"@);
        assert(m.entries()[0].0 == 0);
        assert(m.entries()[0].2@ == "Guid"@);
        assert(m.entries()[1].1 == "m_PerConditionValueToNodeMap"@);
        assert(m.entries()[1].0 == 1);
        assert(m.entries()[1].2@ == "Guid"@);
        assert(m.entries()[2].1 == "BindingIdToReferences"@);
        assert(m.entries()[2].0 == 2);
        assert(m.entries()[2].2@ == "Guid"@);
        assert(m.entries()[3].1 == "UserParameterRedirects"@);
        assert(m.entries()[3].0 == 3);
        assert(m.entries()[3].2@ == "NiagaraVariable"@);
        assert(m.entries()[4].1 == "Tracks"@);
        assert(m.entries()[4].0 == 4);
        assert(m.entries()[4].2@ == "MovieSceneTrackIdentifier"@);
        assert(m.entries()[5].1 == "SubSequences"@);
        assert(m.entries()[5].0 == 5);
        assert(m.entries()[5].2@ == "MovieSceneSequenceID"@);
        assert(m.entries()[6].1 == "Hierarchy"@);
        assert(m.entries()[6].0 == 6);
        assert(m.entries()[6].2@ == "MovieSceneSequenceID"@);
        assert(m.entries()[7].1 == "TrackSignatureToTrackIdentifier"@);
        assert(m.entries()[7].0 == 7);
        assert(m.entries()[7].2@ == "Guid"@);
    }
    let ghost e = m.entries();
    let key = String::from_str("ItemsToRefund");
    let value = String::from_str("Guid");
    let ghost kv = key@;
    let ghost vv = value;
    assert(key_pos(e, kv) is None) by {
        assert forall|i: int| 0 <= i < e.len() implies #[trigger] e[i].1 != kv by { if i == 0 {} else if i == 1 {} else if i == 2 {} else if i == 3 {} else if i == 4 {} else if i == 5 {} else if i == 6 {} else if i == 7 {} }
    }
    m.insert(key, value);
    proof {
        assert(m.entries() == e.push((8usize, kv, vv)));
        assert(m.entries()[0].1 == "PlayerCharacterIDs"@);
        assert(m.entries()[0].0 == 0);
        assert(m.entries()[0].2@ == "Guid"@);
        assert(m.entries()[1].1 == "m_PerConditionValueToNodeMap"@);
        assert(m.entries()[1].0 == 1);
        assert(m.entries()[1].2@ == "Guid"@);
        assert(m.entries()[2].1 == "BindingIdToReferences"@);
        assert(m.entries()[2].0 == 2);
        assert(m.entries()[2].2@ == "Guid"@);
        assert(m.entries()[3].1 == "UserParameterRedirects"@);
        assert(m.entries()[3].0 == 3);
        assert(m.entries()[3].2@ == "NiagaraVariable"@);
        assert(m.entries()[4].1 == "Tracks"@);
        assert(m.entries()[4].0 == 4);
        assert(m.entries()[4].2@ == "MovieSceneTrackIdentifier"@);
        assert(m.entries()[5].1 == "SubSequences"@);
        assert(m.entries()[5].0 == 5);
        assert(m.entries()[5].2@ == "MovieSceneSequenceID"@);
        assert(m.entries()[6].1 == "Hierarchy"@);
        assert(m.entries()[6].0 == 6);
        assert(m.entries()[6].2@ == "MovieSceneSequenceID"@);
        assert(m.entries()[7].1 == "TrackSignatureToTrackIdentifier"@);
        assert(m.entries()[7].0 == 7);
        assert(m.entries()[7].2@ == "Guid"@);
        assert(m.entries()[8].1 == "ItemsToRefund"@);
        assert(m.entries()[8].0 == 8);
        assert(m.entries()[8].2@ == "Guid"@);
    }
    let ghost e = m.entries();
    let key = String::from_str("PlayerCharacterIDMap");
    let value = String::from_str("Guid");
    let ghost kv = key@;
    let ghost vv = value;
    assert(key_pos(e, kv) is None) by {
        assert forall|i: int| 0 <= i < e.len() implies #[trigger] e[i].1 != kv by { if i == 0 {} else if i == 1 {} else if i == 2 {} else if i == 3 {} else if i == 4 {} else if i == 5 {} else if i == 6 {} else if i == 7 {} else if i == 8 {} }
    }
    m.insert(key, value);
    proof {
        assert(m.entries() == e.push((9usize, kv, vv)));
        assert(m.entries()[0].1 == "PlayerCharacterIDs"@);
        assert(m.entries()[0].0 == 0);
        assert(m.entries()[0].2@ == "Guid"@);
        assert(m.entries()[1].1 == "m_PerConditionValueToNodeMap"@);
        assert(m.entries()[1].0 == 1);
        assert(m.entries()[1].2@ == "Guid"@);
        assert(m.entries()[2].1 == "BindingIdToReferences"@);
        assert(m.entries()[2].0 == 2);
        assert(m.entries()[2].2@ == "Guid"@);
        assert(m.entries()[3].1 == "UserParameterRedirects"@);
        assert(m.entries()[3].0 == 3);
        assert(m.entries()[3].2@ == "NiagaraVariable"@);
        assert(m.entries()[4].1 == "Tracks"@);
        assert(m.entries()[4].0 == 4);
        assert(m.entries()[4].2@ == "MovieSceneTrackIdentifier"@);
        assert(m.entries()[5].1 == "SubSequences"@);
        assert(m.entries()[5].0 == 5);
        assert(m.entries()[5].2@ == "MovieSceneSequenceID"@);
        assert(m.entries()[6].1 == "Hierarchy"@);
        assert(m.entries()[6].0 == 6);
        assert(m.entries()[6].2@ == "MovieSceneSequenceID"@);
        assert(m.entries()[7].1 == "TrackSignatureToTrackIdentifier"@);
        assert(m.entries()[7].0 == 7);
        assert(m.entries()[7].2@ == "Guid"@);
        assert(m.entries()[8].1 == "ItemsToRefund"@);
        assert(m.entries()[8].0 == 8);
        assert(m.entries()[8].2@ == "Guid"@);
        assert(m.entries()[9].1 == "PlayerCharacterIDMap"@);
        assert(m.entries()[9].0 == 9);
        assert(m.entries()[9].2@ == "Guid"@);
    }
    proof {
        let ghost p = override_pairs(m.entries());
        let ghost want = seq![
            (0usize, "PlayerCharacterIDs"@, "Guid"@),
            (1usize, "m_PerConditionValueToNodeMap"@, "Guid"@),
            (2usize, "BindingIdToReferences"@, "Guid"@),
            (3usize, "UserParameterRedirects"@, "NiagaraVariable"@),
            (4usize, "Tracks"@, "MovieSceneTrackIdentifier"@),
            (5usize, "SubSequences"@, "MovieSceneSequenceID"@),
            (6usize, "Hierarchy"@, "MovieSceneSequenceID"@),
            (7usize, "TrackSignatureToTrackIdentifier"@, "Guid"@),
            (8usize, "ItemsToRefund"@, "Guid"@),
            (9usize, "PlayerCharacterIDMap"@, "Guid"@),
        ];
        assert forall|i: int| 0 <= i < 10 implies #[trigger] p[i] == want[i] by { if i == 0 {} else if i == 1 {} else if i == 2 {} else if i == 3 {} else if i == 4 {} else if i == 5 {} else if i == 6 {} else if i == 7 {} else if i == 8 {} else if i == 9 {} }
        assert(p =~= want);
    }
    m
}

/// Value struct types of map properties whose values are structs, by the name of the map property.
pub fn default_map_value_override() -> (m: IndexedMap<String, String>)
    ensures
        m.wf(),
        m.next_index() == 4,
        override_pairs(m.entries()) == default_map_value_pairs(),
{
    let mut m: IndexedMap<String, String> = IndexedMap::new();
    proof {
        reveal_strlit("ColorDatabase");
        reveal_strlit("FloatRange");
        reveal_strlit("LinearColor");
        reveal_strlit("MovieSceneTrackIdentifier");
        reveal_strlit("NiagaraVariable");
        reveal_strlit("RainChanceMinMaxPerWeatherState");
        reveal_strlit("TrackSignatureToTrackIdentifier");
        reveal_strlit("UserParameterRedirects");
    }
    let ghost e = m.entries();
    let key = String::from_str("ColorDatabase");
    let value = String::from_str("LinearColor");
    let ghost kv = key@;
    let ghost vv = value;
    assert(key_pos(e, kv) is None) by {
        assert forall|i: int| 0 <= i < e.len() implies #[trigger] e[i].1 != kv by {}
    }
    m.insert(key, value);
    proof {
        assert(m.entries() == e.push((0usize, kv, vv)));
        assert(m.entries()[0].1 == "ColorDatabase"@);
        assert(m.entries()[0].0 == 0);
        assert(m.entries()[0].2@ == "LinearColor"@);
    }
    let ghost e = m.entries();
    let key = String::from_str("UserParameterRedirects");
    let value = String::from_str("NiagaraVariable");
    let ghost kv = key@;
    let ghost vv = value;
    assert(key_pos(e, kv) is None) by {
        assert forall|i: int| 0 <= i < e.len() implies #[trigger] e[i].1 != kv by { if i == 0 {} }
    }
    m.insert(key, value);
    proof {
        assert(m.entries() == e.push((1usize, kv, vv)));
        assert(m.entries()[0].1 == "ColorDatabase"@);
        assert(m.entries()[0].0 == 0);
        assert(m.entries()[0].2@ == "LinearColor"@);
        assert(m.entries()[1].1 == "UserParameterRedirects"@);
        assert(m.entries()[1].0 == 1);
        assert(m.entries()[1].2@ == "NiagaraVariable"@);
    }
    let ghost e = m.entries();
    let key = String::from_str("TrackSignatureToTrackIdentifier");
    let value = String::from_str("MovieSceneTrackIdentifier");
    let ghost kv = key@;
    let ghost vv = value;
    assert(key_pos(e, kv) is None) by {
        assert forall|i: int| 0 <= i < e.len() implies #[trigger] e[i].1 != kv by { if i == 0 {} else if i == 1 {} }
    }
    m.insert(key, value);
    proof {
        assert(m.entries() == e.push((2usize, kv, vv)));
        assert(m.entries()[0].1 == "ColorDatabase"@);
        assert(m.entries()[0].0 == 0);
        assert(m.entries()[0].2@ == "LinearColor"@);
        assert(m.entries()[1].1 == "UserParameterRedirects"@);
        assert(m.entries()[1].0 == 1);
        assert(m.entries()[1].2@ == "NiagaraVariable"@);
        assert(m.entries()[2].1 == "TrackSignatureToTrackIdentifier"@);
        assert(m.entries()[2].0 == 2);
        assert(m.entries()[2].2@ == "MovieSceneTrackIdentifier"@);
    }
    let ghost e = m.entries();
    let key = String::from_str("RainChanceMinMaxPerWeatherState");
    let value = String::from_str("FloatRange");
    let ghost kv = key@;
    let ghost vv = value;
    assert(key_pos(e, kv) is None) by {
        assert forall|i: int| 0 <= i < e.len() implies #[trigger] e[i].1 != kv by {
            if i == 0 {} else if i == 1 {} else if i == 2 {
                assert(kv[0] == 'R' && e[2].1[0] == 'T');
            }
        }
    }
    m.insert(key, value);
    proof {
        assert(m.entries() == e.push((3usize, kv, vv)));
        assert(m.entries()[0].1 == "ColorDatabase"@);
        assert(m.entries()[0].0 == 0);
        assert(m.entries()[0].2@ == "LinearColor"@);
        assert(m.entries()[1].1 == "UserParameterRedirects"@);
        assert(m.entries()[1].0 == 1);
        assert(m.entries()[1].2@ == "NiagaraVariable"@);
        assert(m.entries()[2].1 == "TrackSignatureToTrackIdentifier"@);
        assert(m.entries()[2].0 == 2);
        assert(m.entries()[2].2@ == "MovieSceneTrackIdentifier"@);
        assert(m.entries()[3].1 == "RainChanceMinMaxPerWeatherState"@);
        assert(m.entries()[3].0 == 3);
        assert(m.entries()[3].2@ == "FloatRange"@);
    }
    proof {
        let ghost p = override_pairs(m.entries());
        let ghost want = seq![
            (0usize, "ColorDatabase"@, "LinearColor"@),
            (1usize, "UserParameterRedirects"@, "NiagaraVariable"@),
            (2usize, "TrackSignatureToTrackIdentifier"@, "MovieSceneTrackIdentifier"@),
            (3usize, "RainChanceMinMaxPerWeatherState"@, "FloatRange"@),
        ];
        assert forall|i: int| 0 <= i < 4 implies #[trigger] p[i] == want[i] by { if i == 0 {} else if i == 1 {} else if i == 2 {} else if i == 3 {} }
        assert(p =~= want);
    }
    m
}

/// Struct types of array properties whose elements are structs, by the name of the array property.
pub fn default_array_struct_type_override() -> (m: IndexedMap<String, String>)
    ensures
        m.wf(),
        m.next_index() == 1,
        override_pairs(m.entries()) == default_array_struct_type_pairs(),
{
    let mut m: IndexedMap<String, String> = IndexedMap::new();
    proof {
        reveal_strlit("Keys");
        reveal_strlit("RichCurveKey");
    }
    let ghost e = m.entries();
    let key = String::from_str("Keys");
    let value = String::from_str("RichCurveKey");
    let ghost kv = key@;
    let ghost vv = value;
    assert(key_pos(e, kv) is None) by {
        assert forall|i: int| 0 <= i < e.len() implies #[trigger] e[i].1 != kv by {}
    }
    m.insert(key, value);
    proof {
        assert(m.entries() == e.push((0usize, kv, vv)));
        assert(m.entries()[0].1 == "Keys"@);
        assert(m.entries()[0].0 == 0);
        assert(m.entries()[0].2@ == "RichCurveKey"@);
    }
    proof {
        let ghost p = override_pairs(m.entries());
        let ghost want = seq![
            (0usize, "Keys"@, "RichCurveKey"@),
        ];
        assert forall|i: int| 0 <= i < 1 implies #[trigger] p[i] == want[i] by { if i == 0 {} }
        assert(p =~= want);
    }
    m
}

/// Taking the texts of the values commutes with inserting into well-formed entries.
pub proof fn lemma_insert_texts(s: Seq<MapEntry<Seq<char>, String>>, next: usize, k: Seq<char>, v: String)
    requires entries_wf(s, next),
    ensures override_pairs(spec_insert(s, next, k, v)) == spec_insert(override_pairs(s), next, k, v@),
{
    let t = override_pairs(s);
    assert(entries_wf(t, next)) by {
        assert forall|a: int, b: int| 0 <= a < b < t.len() implies #[trigger] t[a].0 < #[trigger] t[b].0 by {
            assert(t[a].0 == s[a].0 && t[b].0 == s[b].0);
        }
        assert forall|a: int, b: int| 0 <= a < b < t.len() implies #[trigger] t[a].1 != #[trigger] t[b].1 by {
            assert(t[a].1 == s[a].1 && t[b].1 == s[b].1);
        }
        assert forall|a: int| 0 <= a < t.len() implies #[trigger] t[a].0 < next by {
            assert(t[a].0 == s[a].0);
        }
    }
    match key_pos(s, k) {
        Some(i) => {
            assert(s[i].1 == k);
            assert(t[i].1 == k);
            lemma_key_pos(t, next, k, i);
            assert(override_pairs(spec_insert(s, next, k, v)) =~= spec_insert(t, next, k, v@));
        },
        None => {
            if exists|j: int| 0 <= j < t.len() && #[trigger] t[j].1 == k {
                let j = choose|j: int| 0 <= j < t.len() && #[trigger] t[j].1 == k;
                assert(s[j].1 == k);
                assert(false);
            }
            assert(override_pairs(spec_insert(s, next, k, v)) =~= spec_insert(t, next, k, v@));
        },
    }
}

/// A table of the pairs of `pairs`, inserted in turn: a key inserted again keeps its place and
/// takes the later value.
pub fn override_table(pairs: &Vec<(String, String)>) -> (m: IndexedMap<String, String>)
    ensures
        m.wf(),
        override_pairs(m.entries()) == spec_extend(Seq::<MapEntry<Seq<char>, Seq<char>>>::empty(), 0,
            pairs@.map_values(|p: (String, String)| (p.0@, p.1@))).0,
        m.next_index() == spec_extend(Seq::<MapEntry<Seq<char>, Seq<char>>>::empty(), 0,
            pairs@.map_values(|p: (String, String)| (p.0@, p.1@))).1,
{
    let ghost texts = pairs@.map_values(|p: (String, String)| (p.0@, p.1@));
    let mut m: IndexedMap<String, String> = IndexedMap::new();
    let n = pairs.len();
    let mut i: usize = 0;
    proof {
        assert(texts.take(0) =~= Seq::<(Seq<char>, Seq<char>)>::empty());
        assert(override_pairs(m.entries()) =~= Seq::<MapEntry<Seq<char>, Seq<char>>>::empty());
    }
    while i < n
        invariant
            i <= n,
            n == texts.len(),
            texts == pairs@.map_values(|p: (String, String)| (p.0@, p.1@)),
            m.wf(),
            m.next_index() <= i,
            override_pairs(m.entries()) == spec_extend(Seq::<MapEntry<Seq<char>, Seq<char>>>::empty(), 0, texts.take(i as int)).0,
            m.next_index() == spec_extend(Seq::<MapEntry<Seq<char>, Seq<char>>>::empty(), 0, texts.take(i as int)).1,
        decreases n - i,
    {
        let k = pairs[i].0.clone();
        let v = pairs[i].1.clone();
        let ghost e0 = m.entries();
        let ghost n0 = m.next_index();
        proof {
            assert(k@ == texts[i as int].0 && v@ == texts[i as int].1);
            lemma_insert_texts(e0, n0, k@, v);
            assert(texts.take(i + 1).drop_last() =~= texts.take(i as int));
            assert(texts.take(i + 1).last() == texts[i as int]);
            assert(key_pos(override_pairs(e0), k@) is Some == key_pos(e0, k@) is Some) by {
                let t = override_pairs(e0);
                if key_pos(e0, k@) is Some {
                    let j = key_pos(e0, k@)->0;
                    assert(e0[j].1 == k@);
                    assert(t[j].1 == k@);
                } else if key_pos(t, k@) is Some {
                    let j = key_pos(t, k@)->0;
                    assert(t[j].1 == k@);
                    assert(e0[j].1 == k@);
                }
            }
        }
        m.insert(k, v);
        i = i + 1;
    }
    assert(texts.take(n as int) =~= texts);
    m
}

} // verus!
