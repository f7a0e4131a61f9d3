//! The decisions of export reading: which reader a class of export takes, which struct types
//! a blueprint class's map properties name for their keys and values, and when an export is
//! kept raw.

use vstd::prelude::*;
use crate::asset::name_map::NameMap;
use crate::fproperty::{FProperty, name_text};
use crate::types::PackageIndex;
use crate::containers::indexed_map::{IndexedMap, MapEntry, spec_extend};
use crate::asset::overrides::{override_pairs, override_table};

verus! {

/// The reader that an export takes, by the name of its class.
#[derive(Debug, Clone, Copy, PartialEq, Eq, Structural)]
pub enum ExportKind {
    /// A level
    Level,
    /// A world
    World,
    /// A user-defined struct
    UserDefinedStruct,
    /// A string table
    StringTable,
    /// An enum or a user-defined enum
    Enum,
    /// A function
    Function,
    /// A data table
    DataTable,
    /// A blueprint-generated class
    Class,
    /// A property
    Property,
    /// Any other export
    Normal,
}

/// Whether `s` ends with `suffix`.
pub open spec fn ends_with(s: Seq<char>, suffix: Seq<char>) -> bool {
    s.len() >= suffix.len() && s.subrange(s.len() - suffix.len(), s.len() as int) == suffix
}

/// The reader that an export of the class named `c` takes: a few class names by name, then
/// by the end of the name data tables, string tables, blueprint-generated classes and
/// properties; any other class is read as a normal export.
pub open spec fn spec_export_kind(c: Seq<char>) -> ExportKind {
    if c == "Level"@ {
        ExportKind::Level
    } else if c == "World"@ {
        ExportKind::World
    } else if c == "UserDefinedStruct"@ {
        ExportKind::UserDefinedStruct
    } else if c == "StringTable"@ {
        ExportKind::StringTable
    } else if c == "Enum"@ || c == "UserDefinedEnum"@ {
        ExportKind::Enum
    } else if c == "Function"@ {
        ExportKind::Function
    } else if ends_with(c, "DataTable"@) {
        ExportKind::DataTable
    } else if ends_with(c, "StringTable"@) {
        ExportKind::StringTable
    } else if ends_with(c, "BlueprintGeneratedClass"@) {
        ExportKind::Class
    } else if ends_with(c, "Property"@) {
        ExportKind::Property
    } else {
        ExportKind::Normal
    }
}

/// Whether `s` ends with `suffix`.
fn str_ends_with(s: &str, suffix: &str) -> (b: bool)
    ensures b == ends_with(s@, suffix@),
{
    let n = s.unicode_len();
    let m = suffix.unicode_len();
    if n < m {
        return false;
    }
    let ghost tail = s@.subrange(n - m, n as int);
    let mut i: usize = 0;
    while i < m
        invariant
            i <= m <= n,
            n == s@.len(),
            m == suffix@.len(),
            tail == s@.subrange(n - m, n as int),
            forall|j: int| 0 <= j < i ==> tail[j] == suffix@[j],
        decreases m - i,
    {
        if s.get_char(n - m + i) != suffix.get_char(i) {
            assert(tail[i as int] != suffix@[i as int]);
            return false;
        }
        i = i + 1;
    }
    assert(tail =~= suffix@);
    true
}

/// Whether `s` and `t` are the same text.
fn str_is(s: &str, t: &str) -> (b: bool)
    ensures b == (s@ == t@),
{
    if s.unicode_len() != t.unicode_len() {
        return false;
    }
    let r = str_ends_with(s, t);
    proof {
        assert(s@.subrange(s@.len() - t@.len(), s@.len() as int) =~= s@);
    }
    r
}

/// The reader that an export of the class named `class_type` takes.
pub fn export_kind_of(class_type: &str) -> (k: ExportKind)
    ensures k == spec_export_kind(class_type@),
{
    if str_is(class_type, "Level") {
        ExportKind::Level
    } else if str_is(class_type, "World") {
        ExportKind::World
    } else if str_is(class_type, "UserDefinedStruct") {
        ExportKind::UserDefinedStruct
    } else if str_is(class_type, "StringTable") {
        ExportKind::StringTable
    } else if str_is(class_type, "Enum") || str_is(class_type, "UserDefinedEnum") {
        ExportKind::Enum
    } else if str_is(class_type, "Function") {
        ExportKind::Function
    } else if str_ends_with(class_type, "DataTable") {
        ExportKind::DataTable
    } else if str_ends_with(class_type, "StringTable") {
        ExportKind::StringTable
    } else if str_ends_with(class_type, "BlueprintGeneratedClass") {
        ExportKind::Class
    } else if str_ends_with(class_type, "Property") {
        ExportKind::Property
    } else {
        ExportKind::Normal
    }
}

/// Whether an export whose reader stopped at `position` is kept raw: where the next export
/// starts at `next_starting` before that position, what was read overran the export.
pub fn export_falls_back_to_raw(next_starting: u64, position: u64) -> (b: bool)
    ensures b == ((next_starting as i64 as int) - (position as i64 as int) < 0),
{
    (next_starting as i64 as i128) - (position as i64 as i128) < 0
}

/// The struct type that a property names, where it is a struct property whose struct is an
/// import: the object name of that import, from `imports`, the object names of the imports.
pub open spec fn import_struct_name(p: FProperty, imports: Seq<Seq<char>>) -> Option<Seq<char>> {
    match p {
        FProperty::FStructProperty(x) => if x.index.index < 0 && -x.index.index - 1 < imports.len() {
            Some(imports[-x.index.index - 1])
        } else {
            None
        },
        _ => None,
    }
}

/// Whether the names of the map properties of `loaded` are ones that name texts can be made of.
pub open spec fn map_names_ok(loaded: Seq<FProperty>) -> bool {
    forall|i: int| 0 <= i < loaded.len() ==> (#[trigger] loaded[i] matches FProperty::FMapProperty(m)
        ==> m.generic_property.name.index != i32::MIN)
}

/// The overrides that the map properties of a class give, in the order of the properties:
/// for each map property whose key (where `keys`) or value is a struct property of an import,
/// the name of the map property and the import's object name.
pub open spec fn spec_map_overrides(loaded: Seq<FProperty>, names: Seq<Seq<char>>, imports: Seq<Seq<char>>, keys: bool)
    -> Seq<(Seq<char>, Seq<char>)>
    decreases loaded.len(),
{
    if loaded.len() == 0 {
        Seq::empty()
    } else {
        let before = spec_map_overrides(loaded.drop_last(), names, imports, keys);
        match loaded.last() {
            FProperty::FMapProperty(m) => match import_struct_name(if keys { *m.key_prop } else { *m.value_prop }, imports) {
                Some(t) => before.push((name_text(names, m.generic_property.name.index), t)),
                None => before,
            },
            _ => before,
        }
    }
}

/// The texts of pairs of strings.
pub open spec fn pair_texts(v: Seq<(String, String)>) -> Seq<(Seq<char>, Seq<char>)> {
    v.map_values(|p: (String, String)| (p.0@, p.1@))
}

/// The object name of the import that a struct property names, where it names one.
fn import_struct_name_of(p: &FProperty, imports: &Vec<String>) -> (r: Option<String>)
    ensures
        match r {
            Some(t) => import_struct_name(*p, imports@.map_values(|s: String| s@)) == Some(t@),
            None => import_struct_name(*p, imports@.map_values(|s: String| s@)) is None,
        },
{
    match p {
        FProperty::FStructProperty(x) => {
            let i = x.index.index;
            if i < 0 && ((-(i as i64) - 1) as u64) < imports.len() as u64 {
                let k = (-(i as i64) - 1) as usize;
                Some(imports[k].clone())
            } else {
                None
            }
        },
        _ => None,
    }
}

/// The map key (where `keys`) or value overrides that the loaded properties of a blueprint
/// class give, as pairs of the map property's name and the struct type, in the order in which
/// they are inserted into the asset's override tables. `imports` holds the object name of each
/// import.
pub fn class_map_overrides(loaded: &Vec<FProperty>, name_map: &NameMap, imports: &Vec<String>, keys: bool)
    -> (r: Vec<(String, String)>)
    requires map_names_ok(loaded@),
    ensures
        pair_texts(r@) == spec_map_overrides(loaded@, name_map.names(), imports@.map_values(|s: String| s@), keys),
{
    let ghost im = imports@.map_values(|s: String| s@);
    let mut r: Vec<(String, String)> = Vec::new();
    let mut i: usize = 0;
    assert(loaded@.take(0) =~= Seq::<FProperty>::empty());
    while i < loaded.len()
        invariant
            i <= loaded.len(),
            map_names_ok(loaded@),
            im == imports@.map_values(|s: String| s@),
            pair_texts(r@) == spec_map_overrides(loaded@.take(i as int), name_map.names(), im, keys),
        decreases loaded.len() - i,
    {
        let ghost before = r@;
        proof {
            assert(loaded@.take(i + 1).drop_last() =~= loaded@.take(i as int));
            assert(loaded@.take(i + 1).last() == loaded@[i as int]);
        }
        match &loaded[i] {
            FProperty::FMapProperty(m) => {
                let inner: &FProperty = if keys { &m.key_prop } else { &m.value_prop };
                match import_struct_name_of(inner, imports) {
                    Some(t) => {
                        proof { assert(loaded@[i as int] matches FProperty::FMapProperty(m)); }
                        let name = name_map.get_name_reference(m.generic_property.name.index);
                        r.push((name, t));
                        proof { assert(pair_texts(r@) =~= pair_texts(before).push((r@.last().0@, r@.last().1@))); }
                    },
                    None => {},
                }
            },
            _ => {},
        }
        i = i + 1;
    }
    assert(loaded@.take(i as int) =~= loaded@);
    r
}

/// The map key and value overrides that the loaded properties of a blueprint class give, as
/// the two tables that the asset's overrides are then extended with: each pair of
/// `class_map_overrides` inserted in turn. `imports` holds the object name of each import.
pub fn class_map_override_tables(loaded: &Vec<FProperty>, name_map: &NameMap, imports: &Vec<String>)
    -> (r: (IndexedMap<String, String>, IndexedMap<String, String>))
    requires map_names_ok(loaded@),
    ensures
        r.0.wf(),
        r.1.wf(),
        override_pairs(r.0.entries()) == spec_extend(Seq::<MapEntry<Seq<char>, Seq<char>>>::empty(), 0,
            spec_map_overrides(loaded@, name_map.names(), imports@.map_values(|s: String| s@), true)).0,
        override_pairs(r.1.entries()) == spec_extend(Seq::<MapEntry<Seq<char>, Seq<char>>>::empty(), 0,
            spec_map_overrides(loaded@, name_map.names(), imports@.map_values(|s: String| s@), false)).0,
{
    let keys = class_map_overrides(loaded, name_map, imports, true);
    let values = class_map_overrides(loaded, name_map, imports, false);
    assert(pair_texts(keys@) =~= keys@.map_values(|p: (String, String)| (p.0@, p.1@)));
    assert(pair_texts(values@) =~= values@.map_values(|p: (String, String)| (p.0@, p.1@)));
    (override_table(&keys), override_table(&values))
}

} // verus!
