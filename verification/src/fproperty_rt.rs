//! Reading back a property that was written: a property whose names lie in the name map and
//! whose serialized type name says its kind reads back as it was written.

use vstd::prelude::*;
use crate::archive::{rest, ser_i32, ser_u16, ser_u32, ser_u64, lemma_ser_values};
use crate::asset::name_map::{parse_fname, ser_fname, last_index_of, lemma_last_index_of};
use crate::enums::{EArrayDim, ELifetimeCondition};
use crate::exports::base_export::OBJECT_FLAGS_MASK;
use crate::flags::PROPERTY_FLAGS_MASK;
use crate::fproperty::{
    property_count, FBoolProperty, parse_bool_property,
    FProperty, FPropertyKind, FGenericProperty, FIndexProperty, FMapProperty, FClassProperty, parse_generic, parse_property, parse_tail,
    ser_property, ser_data, ser_fixed, serialized_name_of, spec_add_name, kind_of_name, kind_name, kind_of_property,
    name_text, index_property,
};
use crate::types::{NameIndex, PackageIndex};

verus! {

/// The generic part of a property whose names lie in a name map of `n` names and whose flags
/// are known ones.
pub open spec fn generic_fits(g: FGenericProperty, n: nat) -> bool {
    &&& 0 <= g.name.index < n
    &&& 0 <= g.rep_notify_func.index < n
    &&& g.flags.bits & !OBJECT_FLAGS_MASK == 0
    &&& g.property_flags.bits & !PROPERTY_FLAGS_MASK == 0
}

/// A property that reads back as it was written with the name map `names`: its generic parts
/// fit; a generic property keeps a type of the name map, with number 0, whose name names no
/// other kind; the generic part of any other kind keeps no type; and what it nests fits.
pub open spec fn pfits(p: FProperty, names: Seq<Seq<char>>) -> bool
    decreases p,
{
    match p {
        FProperty::FGenericProperty(g) => generic_fits(g, names.len()) && match g.serialized_type {
            Some(t) => t.number == 0 && 0 <= t.index < names.len()
                && kind_of_name(names[t.index as int]) == FPropertyKind::GenericProperty,
            None => false,
        },
        FProperty::FEnumProperty(e) => generic_fits(e.generic_property, names.len())
            && e.generic_property.serialized_type is None && pfits(*e.underlying_prop, names),
        FProperty::FArrayProperty(x) => generic_fits(x.generic_property, names.len())
            && x.generic_property.serialized_type is None && pfits(*x.inner, names),
        FProperty::FSetProperty(x) => generic_fits(x.generic_property, names.len())
            && x.generic_property.serialized_type is None && pfits(*x.inner, names),
        FProperty::FMapProperty(m) => generic_fits(m.generic_property, names.len())
            && m.generic_property.serialized_type is None && pfits(*m.key_prop, names) && pfits(*m.value_prop, names),
        FProperty::FClassProperty(c) => generic_fits(c.generic_property, names.len()) && c.generic_property.serialized_type is None,
        FProperty::FSoftClassProperty(c) => generic_fits(c.generic_property, names.len()) && c.generic_property.serialized_type is None,
        FProperty::FBoolProperty(b) => generic_fits(b.generic_property, names.len()) && b.generic_property.serialized_type is None,
        FProperty::FNumericProperty(g) => generic_fits(g, names.len()) && g.serialized_type is None,
        FProperty::FObjectProperty(x) => generic_fits(x.generic_property, names.len()) && x.generic_property.serialized_type is None,
        FProperty::FSoftObjectProperty(x) => generic_fits(x.generic_property, names.len()) && x.generic_property.serialized_type is None,
        FProperty::FDelegateProperty(x) => generic_fits(x.generic_property, names.len()) && x.generic_property.serialized_type is None,
        FProperty::FMulticastDelegateProperty(x) => generic_fits(x.generic_property, names.len())
            && x.generic_property.serialized_type is None,
        FProperty::FMulticastInlineDelegateProperty(x) => generic_fits(x.generic_property, names.len())
            && x.generic_property.serialized_type is None,
        FProperty::FInterfaceProperty(x) => generic_fits(x.generic_property, names.len()) && x.generic_property.serialized_type is None,
        FProperty::FByteProperty(x) => generic_fits(x.generic_property, names.len()) && x.generic_property.serialized_type is None,
        FProperty::FStructProperty(x) => generic_fits(x.generic_property, names.len()) && x.generic_property.serialized_type is None,
    }
}

/// Array dimensions and replication conditions read back from their values.
pub proof fn lemma_enum_values(d: EArrayDim, c: ELifetimeCondition)
    ensures
        EArrayDim::spec_from_i32(d.spec_value()) == Some(d),
        ELifetimeCondition::spec_from_u8(c.spec_value()) == Some(c),
{
}

/// The generic part of a property that fits reads back, with the type that the reader gives it,
/// whatever follows.
pub proof fn lemma_generic_rt(g: FGenericProperty, n: nat, st: Option<NameIndex>, r: Seq<u8>)
    requires generic_fits(g, n),
    ensures
        g.spec_ser().len() == 39,
        parse_generic(g.spec_ser() + r, n, st) == Some((FGenericProperty { serialized_type: st, ..g }, 39int)),
{
    lemma_enum_values(g.array_dim, g.blueprint_replication_condition);
    lemma_ser_values(g.rep_index, g.flags.bits, g.property_flags.bits, g.name.index, 0);
    lemma_ser_values(0, 0, 0, g.name.number, 0);
    lemma_ser_values(0, 0, 0, g.array_dim.spec_value(), 0);
    lemma_ser_values(0, 0, 0, g.element_size, 0);
    lemma_ser_values(0, 0, 0, g.rep_notify_func.index, 0);
    lemma_ser_values(0, 0, 0, g.rep_notify_func.number, 0);
    let s = g.spec_ser() + r;
    assert(s.subrange(0, 4) =~= ser_i32(g.name.index));
    assert(s.subrange(4, 8) =~= ser_i32(g.name.number));
    assert(s.subrange(8, 12) =~= ser_u32(g.flags.bits));
    assert(s.subrange(12, 16) =~= ser_i32(g.array_dim.spec_value()));
    assert(s.subrange(16, 20) =~= ser_i32(g.element_size));
    assert(s.subrange(20, 28) =~= ser_u64(g.property_flags.bits));
    assert(s.subrange(28, 30) =~= ser_u16(g.rep_index));
    assert(s.subrange(30, 34) =~= ser_i32(g.rep_notify_func.index));
    assert(s.subrange(34, 38) =~= ser_i32(g.rep_notify_func.number));
    assert(s[38] == g.blueprint_replication_condition.spec_value());
}

/// The serialized type name of each kind other than the generic one names that kind, and
/// "Generic" names the generic kind.
pub proof fn lemma_kind_names(k: FPropertyKind)
    ensures
        k != FPropertyKind::GenericProperty ==> kind_of_name(kind_name(k)) == k,
        kind_of_name("Generic"@) == FPropertyKind::GenericProperty,
{
    reveal_strlit("EnumProperty");
    reveal_strlit("ArrayProperty");
    reveal_strlit("SetProperty");
    reveal_strlit("ObjectProperty");
    reveal_strlit("SoftObjectProperty");
    reveal_strlit("ClassProperty");
    reveal_strlit("SoftClassProperty");
    reveal_strlit("DelegateProperty");
    reveal_strlit("MulticastDelegateProperty");
    reveal_strlit("MulticastInlineDelegateProperty");
    reveal_strlit("InterfaceProperty");
    reveal_strlit("MapProperty");
    reveal_strlit("BoolProperty");
    reveal_strlit("ByteProperty");
    reveal_strlit("StructProperty");
    reveal_strlit("NumericProperty");
    reveal_strlit("Generic");
    assert("Generic"@.len() == 7);
    assert("EnumProperty"@.len() == 12);
    assert("ArrayProperty"@.len() == 13);
    assert("SetProperty"@.len() == 11);
    assert("ObjectProperty"@.len() == 14);
    assert("SoftObjectProperty"@.len() == 18);
    assert("ClassProperty"@.len() == 13);
    assert("SoftClassProperty"@.len() == 17);
    assert("DelegateProperty"@.len() == 16);
    assert("MulticastDelegateProperty"@.len() == 25);
    assert("MulticastInlineDelegateProperty"@.len() == 31);
    assert("InterfaceProperty"@.len() == 17);
    assert("MapProperty"@.len() == 11);
    assert("BoolProperty"@.len() == 12);
    assert("ByteProperty"@.len() == 12);
    assert("StructProperty"@.len() == 14);
    assert("NumericProperty"@.len() == 15);
    assert("EnumProperty"@[0] == 'E' && "BoolProperty"@[0] == 'B' && "ByteProperty"@[0] == 'B');
    assert("BoolProperty"@[1] == 'o' && "ByteProperty"@[1] == 'y');
    assert("SetProperty"@[0] == 'S' && "MapProperty"@[0] == 'M');
    assert("ArrayProperty"@[0] == 'A' && "ClassProperty"@[0] == 'C');
    assert("ObjectProperty"@[0] == 'O' && "StructProperty"@[0] == 'S');
    assert("SoftClassProperty"@[0] == 'S' && "InterfaceProperty"@[0] == 'I');
}

/// Adding a name to a name map without duplicates: the name is at the index given, the map
/// before is a first part of the map after, which has no duplicates either.
pub proof fn lemma_add_name(names: Seq<Seq<char>>, name: Seq<char>)
    requires
        names.no_duplicates(),
        names.len() < 0x7fff_ffff,
    ensures
        0 <= spec_add_name(names, name).0 < spec_add_name(names, name).1.len(),
        spec_add_name(names, name).1[spec_add_name(names, name).0 as int] == name,
        names.is_prefix_of(spec_add_name(names, name).1),
        spec_add_name(names, name).1.no_duplicates(),
        spec_add_name(names, name).1.len() <= names.len() + 1,
        forall|i: int| 0 <= i < names.len() && names[i] == name ==> spec_add_name(names, name).0 == i,
{
    lemma_last_index_of(names, name);
    names.unique_seq_to_set();
    match last_index_of(names, name) {
        Some(j) => {
            assert(names.is_prefix_of(names)) by { assert(names =~= names.subrange(0, names.len() as int)); }
        },
        None => {
            let n1 = names.push(name);
            assert(names =~= n1.subrange(0, names.len() as int));
            assert forall|a: int, b: int| 0 <= a < n1.len() && 0 <= b < n1.len() && a != b implies n1[a] != n1[b] by {
                if a < names.len() && b < names.len() {
                } else if a == names.len() {
                    assert(!names.contains(name));
                    assert(n1[b] == names[b]);
                } else {
                    assert(!names.contains(name));
                    assert(n1[a] == names[a]);
                }
            }
        },
    }
}

/// Writing a property only adds names: the map before is a first part of the map after, which
/// has no duplicates where the map before had none.
pub proof fn lemma_ser_extends(p: FProperty, names: Seq<Seq<char>>)
    requires
        names.no_duplicates(),
        names.len() + property_count(p) < 0x7fff_ffff,
    ensures
        names.is_prefix_of(ser_property(p, names).1),
        ser_property(p, names).1.no_duplicates(),
        ser_property(p, names).1.len() <= names.len() + property_count(p),
    decreases p,
{
    let (i, n1) = spec_add_name(names, serialized_name_of(p, names));
    lemma_add_name(names, serialized_name_of(p, names));
    match p {
        FProperty::FEnumProperty(e) => {
            lemma_ser_extends(*e.underlying_prop, n1);
        },
        FProperty::FArrayProperty(x) => {
            lemma_ser_extends(*x.inner, n1);
        },
        FProperty::FSetProperty(x) => {
            lemma_ser_extends(*x.inner, n1);
        },
        FProperty::FMapProperty(m) => {
            lemma_ser_extends(*m.key_prop, n1);
            let nk = ser_property(*m.key_prop, n1).1;
            lemma_ser_extends(*m.value_prop, nk);
            let nv = ser_property(*m.value_prop, nk).1;
            assert(names.is_prefix_of(nk)) by {
                assert(nk.subrange(0, names.len() as int) =~= nk.subrange(0, n1.len() as int).subrange(0, names.len() as int));
            }
            assert(names.is_prefix_of(nv)) by {
                assert(nv.subrange(0, names.len() as int) =~= nv.subrange(0, nk.len() as int).subrange(0, names.len() as int));
            }
        },
        _ => {},
    }
    assert(names.is_prefix_of(ser_property(p, names).1)) by {
        let out = ser_property(p, names).1;
        match p {
            FProperty::FEnumProperty(_) | FProperty::FArrayProperty(_) | FProperty::FSetProperty(_) => {
                assert(out.subrange(0, names.len() as int) =~= out.subrange(0, n1.len() as int).subrange(0, names.len() as int));
            },
            _ => {},
        }
    }
}

/// A property that fits a name map fits a map that extends it.
pub proof fn lemma_pfits_extend(p: FProperty, a: Seq<Seq<char>>, b: Seq<Seq<char>>)
    requires
        pfits(p, a),
        a.is_prefix_of(b),
    ensures pfits(p, b),
    decreases p,
{
    match p {
        FProperty::FGenericProperty(g) => {
            let t = g.serialized_type->0;
            assert(b[t.index as int] == b.subrange(0, a.len() as int)[t.index as int]);
        },
        FProperty::FEnumProperty(e) => { lemma_pfits_extend(*e.underlying_prop, a, b); },
        FProperty::FArrayProperty(x) => { lemma_pfits_extend(*x.inner, a, b); },
        FProperty::FSetProperty(x) => { lemma_pfits_extend(*x.inner, a, b); },
        FProperty::FMapProperty(m) => {
            lemma_pfits_extend(*m.key_prop, a, b);
            lemma_pfits_extend(*m.value_prop, a, b);
        },
        _ => {},
    }
}

/// The generic part of a property.
pub open spec fn generic_of(p: FProperty) -> FGenericProperty {
    match p {
        FProperty::FGenericProperty(g) => g,
        FProperty::FNumericProperty(g) => g,
        FProperty::FEnumProperty(e) => e.generic_property,
        FProperty::FArrayProperty(x) => x.generic_property,
        FProperty::FSetProperty(x) => x.generic_property,
        FProperty::FMapProperty(m) => m.generic_property,
        FProperty::FClassProperty(c) => c.generic_property,
        FProperty::FSoftClassProperty(c) => c.generic_property,
        FProperty::FBoolProperty(b) => b.generic_property,
        FProperty::FObjectProperty(x) => x.generic_property,
        FProperty::FSoftObjectProperty(x) => x.generic_property,
        FProperty::FDelegateProperty(x) => x.generic_property,
        FProperty::FMulticastDelegateProperty(x) => x.generic_property,
        FProperty::FMulticastInlineDelegateProperty(x) => x.generic_property,
        FProperty::FInterfaceProperty(x) => x.generic_property,
        FProperty::FByteProperty(x) => x.generic_property,
        FProperty::FStructProperty(x) => x.generic_property,
    }
}

/// The generic part is written first, in 39 bytes.
pub proof fn lemma_data_split(p: FProperty, n1: Seq<Seq<char>>)
    ensures
        ser_data(p, n1).0.len() >= 39,
        ser_data(p, n1).0 =~= generic_of(p).spec_ser() + rest(ser_data(p, n1).0, 39),
{
    let g = generic_of(p);
    lemma_ser_values(g.rep_index, g.flags.bits, g.property_flags.bits, g.name.index, 0);
    lemma_ser_values(0, 0, 0, g.name.number, 0);
    lemma_ser_values(0, 0, 0, g.array_dim.spec_value(), 0);
    lemma_ser_values(0, 0, 0, g.element_size, 0);
    lemma_ser_values(0, 0, 0, g.rep_notify_func.index, 0);
    lemma_ser_values(0, 0, 0, g.rep_notify_func.number, 0);
    assert(g.spec_ser().len() == 39);
    reveal(ser_fixed);
    match p {
        FProperty::FEnumProperty(e) => {
            let b = ser_property(*e.underlying_prop, n1).0;
            assert(ser_data(p, n1).0 =~= g.spec_ser() + (ser_i32(e.enum_value.index) + b));
        },
        FProperty::FArrayProperty(x) => {},
        FProperty::FSetProperty(x) => {},
        FProperty::FMapProperty(m) => {
            let (kb, nk) = ser_property(*m.key_prop, n1);
            let vb = ser_property(*m.value_prop, nk).0;
            assert(ser_data(p, n1).0 =~= g.spec_ser() + (kb + vb));
        },
        FProperty::FClassProperty(c) => {
            assert(ser_data(p, n1).0 =~= g.spec_ser() + (ser_i32(c.property_class.index) + ser_i32(c.meta_class.index)));
        },
        FProperty::FSoftClassProperty(c) => {
            assert(ser_data(p, n1).0 =~= g.spec_ser() + (ser_i32(c.property_class.index) + ser_i32(c.meta_class.index)));
        },
        _ => {},
    }
    assert(ser_data(p, n1).0.subrange(0, 39) =~= g.spec_ser());
}

/// The names map that a property's data is written with: the map after its type name.
pub open spec fn names_after_type(p: FProperty, names: Seq<Seq<char>>) -> Seq<Seq<char>> {
    spec_add_name(names, serialized_name_of(p, names)).1
}

/// What a property that fits holds after its generic part reads back (enum kinds).
#[verifier::spinoff_prover]
#[verifier::rlimit(100)]
proof fn lemma_tail_enum(p: FProperty, names: Seq<Seq<char>>, big: Seq<Seq<char>>, r: Seq<u8>)
    requires
        pfits(p, names),
        names.no_duplicates(),
        names.len() + property_count(p) < 0x7fff_ffff,
        ser_property(p, names).1.is_prefix_of(big),
        (p is FEnumProperty),
    ensures
        parse_tail(rest(ser_data(p, names_after_type(p, names)).0, 39) + r, big, kind_of_property(p), generic_of(p))
            == Some((p, rest(ser_data(p, names_after_type(p, names)).0, 39).len() as int)),
    decreases p, 0int,
{
    let n1 = names_after_type(p, names);
    lemma_add_name(names, serialized_name_of(p, names));
    lemma_data_split(p, n1);
    reveal(ser_fixed);
    let g = generic_of(p);
    let body = ser_data(p, n1).0;
    let t = rest(body, 39) + r;
    match p {
        FProperty::FEnumProperty(e) => {
            let ub = ser_property(*e.underlying_prop, n1).0;
            lemma_pfits_extend(*e.underlying_prop, names, n1);
            lemma_property_rt(*e.underlying_prop, n1, big, r);
            lemma_ser_values(0, 0, 0, e.enum_value.index, 0);
            assert(body =~= g.spec_ser() + (ser_i32(e.enum_value.index) + ub));
            assert(rest(body, 39) =~= ser_i32(e.enum_value.index) + ub);
            assert(rest(t, 4) =~= ub + r);
            assert(t.subrange(0, 4) =~= ser_i32(e.enum_value.index));
            assert(e.enum_value == PackageIndex { index: e.enum_value.index });
        },
        _ => {},
    }
}

/// What a property that fits holds after its generic part reads back (inner kinds).
#[verifier::spinoff_prover]
#[verifier::rlimit(100)]
proof fn lemma_tail_inner(p: FProperty, names: Seq<Seq<char>>, big: Seq<Seq<char>>, r: Seq<u8>)
    requires
        pfits(p, names),
        names.no_duplicates(),
        names.len() + property_count(p) < 0x7fff_ffff,
        ser_property(p, names).1.is_prefix_of(big),
        (p is FArrayProperty || p is FSetProperty),
    ensures
        parse_tail(rest(ser_data(p, names_after_type(p, names)).0, 39) + r, big, kind_of_property(p), generic_of(p))
            == Some((p, rest(ser_data(p, names_after_type(p, names)).0, 39).len() as int)),
    decreases p, 0int,
{
    let n1 = names_after_type(p, names);
    lemma_add_name(names, serialized_name_of(p, names));
    lemma_data_split(p, n1);
    reveal(ser_fixed);
    let g = generic_of(p);
    let body = ser_data(p, n1).0;
    let t = rest(body, 39) + r;
    match p {
        FProperty::FArrayProperty(x) => {
            lemma_pfits_extend(*x.inner, names, n1);
            lemma_property_rt(*x.inner, n1, big, r);
            assert(rest(body, 39) =~= ser_property(*x.inner, n1).0);
        },
        FProperty::FSetProperty(x) => {
            lemma_pfits_extend(*x.inner, names, n1);
            lemma_property_rt(*x.inner, n1, big, r);
            assert(rest(body, 39) =~= ser_property(*x.inner, n1).0);
        },
        _ => {},
    }
}

/// The name maps that the key and the value of a map property are written with.
proof fn lemma_map_names(k: FProperty, v: FProperty, names: Seq<Seq<char>>, n1: Seq<Seq<char>>, big: Seq<Seq<char>>)
    requires
        n1.no_duplicates(),
        names.is_prefix_of(n1),
        pfits(k, names),
        pfits(v, names),
        n1.len() + property_count(k) + property_count(v) < 0x7fff_ffff,
        ser_property(v, ser_property(k, n1).1).1.is_prefix_of(big),
    ensures
        pfits(k, n1),
        pfits(v, ser_property(k, n1).1),
        ser_property(k, n1).1.no_duplicates(),
        ser_property(k, n1).1.len() + property_count(v) < 0x7fff_ffff,
        ser_property(k, n1).1.is_prefix_of(big),
{
    let nk = ser_property(k, n1).1;
    let nv = ser_property(v, nk).1;
    lemma_pfits_extend(k, names, n1);
    lemma_ser_extends(k, n1);
    assert(names.is_prefix_of(nk)) by {
        assert(nk.subrange(0, names.len() as int) =~= nk.subrange(0, n1.len() as int).subrange(0, names.len() as int));
    }
    lemma_pfits_extend(v, names, nk);
    lemma_ser_extends(v, nk);
    assert(nk.is_prefix_of(big)) by {
        assert(big.subrange(0, nk.len() as int) =~= big.subrange(0, nv.len() as int).subrange(0, nk.len() as int));
    }
}

/// The key and the value of a map property that fit read back, whatever follows them.
#[verifier::spinoff_prover]
#[verifier::rlimit(100)]
proof fn lemma_tail_map_parts(m: FMapProperty, names: Seq<Seq<char>>, n1: Seq<Seq<char>>, big: Seq<Seq<char>>, r: Seq<u8>)
    requires
        n1.no_duplicates(),
        names.is_prefix_of(n1),
        pfits(*m.key_prop, names),
        pfits(*m.value_prop, names),
        n1.len() + property_count(*m.key_prop) + property_count(*m.value_prop) < 0x7fff_ffff,
        ser_property(*m.value_prop, ser_property(*m.key_prop, n1).1).1.is_prefix_of(big),
    ensures
        parse_tail(ser_property(*m.key_prop, n1).0 + ser_property(*m.value_prop, ser_property(*m.key_prop, n1).1).0 + r,
            big, FPropertyKind::MapProperty, m.generic_property)
            == Some((FProperty::FMapProperty(m),
                (ser_property(*m.key_prop, n1).0 + ser_property(*m.value_prop, ser_property(*m.key_prop, n1).1).0).len() as int)),
    decreases m, 0int,
{
    let kb = ser_property(*m.key_prop, n1).0;
    let nk = ser_property(*m.key_prop, n1).1;
    let vb = ser_property(*m.value_prop, nk).0;
    lemma_map_names(*m.key_prop, *m.value_prop, names, n1, big);
    lemma_property_rt(*m.value_prop, nk, big, r);
    lemma_property_rt(*m.key_prop, n1, big, vb + r);
    let t = kb + vb + r;
    assert(t =~= kb + (vb + r));
    assert(rest(t, kb.len() as int) =~= vb + r);
}

/// What a property that fits holds after its generic part reads back (map kinds).
proof fn lemma_tail_map(p: FProperty, names: Seq<Seq<char>>, big: Seq<Seq<char>>, r: Seq<u8>)
    requires
        pfits(p, names),
        names.no_duplicates(),
        names.len() + property_count(p) < 0x7fff_ffff,
        ser_property(p, names).1.is_prefix_of(big),
        (p is FMapProperty),
    ensures
        parse_tail(rest(ser_data(p, names_after_type(p, names)).0, 39) + r, big, kind_of_property(p), generic_of(p))
            == Some((p, rest(ser_data(p, names_after_type(p, names)).0, 39).len() as int)),
    decreases p, 0int,
{
    let n1 = names_after_type(p, names);
    lemma_add_name(names, serialized_name_of(p, names));
    lemma_data_split(p, n1);
    let g = generic_of(p);
    let body = ser_data(p, n1).0;
    match p {
        FProperty::FMapProperty(m) => {
            let kb = ser_property(*m.key_prop, n1).0;
            let nk = ser_property(*m.key_prop, n1).1;
            let vb = ser_property(*m.value_prop, nk).0;
            lemma_tail_map_parts(m, names, n1, big, r);
            assert(body =~= g.spec_ser() + (kb + vb));
            assert(rest(body, 39) =~= kb + vb);
        },
        _ => {},
    }
}

/// What a property that fits holds after its generic part reads back (fixed kinds).
#[verifier::spinoff_prover]
#[verifier::rlimit(100)]
proof fn lemma_tail_fixed(p: FProperty, names: Seq<Seq<char>>, big: Seq<Seq<char>>, r: Seq<u8>)
    requires
        pfits(p, names),
        names.no_duplicates(),
        names.len() + property_count(p) < 0x7fff_ffff,
        ser_property(p, names).1.is_prefix_of(big),
        !(p is FEnumProperty || p is FArrayProperty || p is FSetProperty || p is FMapProperty),
    ensures
        parse_tail(rest(ser_data(p, names_after_type(p, names)).0, 39) + r, big, kind_of_property(p), generic_of(p))
            == Some((p, rest(ser_data(p, names_after_type(p, names)).0, 39).len() as int)),
    decreases p, 0int,
{
    let n1 = names_after_type(p, names);
    lemma_add_name(names, serialized_name_of(p, names));
    lemma_data_split(p, n1);
    reveal(ser_fixed);
    let g = generic_of(p);
    let body = ser_data(p, n1).0;
    let t = rest(body, 39) + r;
    match p {
        FProperty::FClassProperty(c) => {
            lemma_ser_values(0, 0, 0, c.property_class.index, 0);
            lemma_ser_values(0, 0, 0, c.meta_class.index, 0);
            assert(rest(body, 39) =~= ser_i32(c.property_class.index) + ser_i32(c.meta_class.index));
            assert(t.subrange(0, 4) =~= ser_i32(c.property_class.index));
            assert(t.subrange(4, 8) =~= ser_i32(c.meta_class.index));
            assert(c.property_class == PackageIndex { index: c.property_class.index });
            assert(c.meta_class == PackageIndex { index: c.meta_class.index });
        },
        FProperty::FSoftClassProperty(c) => {
            lemma_ser_values(0, 0, 0, c.property_class.index, 0);
            lemma_ser_values(0, 0, 0, c.meta_class.index, 0);
            assert(rest(body, 39) =~= ser_i32(c.property_class.index) + ser_i32(c.meta_class.index));
            assert(t.subrange(0, 4) =~= ser_i32(c.property_class.index));
            assert(t.subrange(4, 8) =~= ser_i32(c.meta_class.index));
            assert(c.property_class == PackageIndex { index: c.property_class.index });
            assert(c.meta_class == PackageIndex { index: c.meta_class.index });
        },
        FProperty::FBoolProperty(b) => {
            assert(rest(body, 39) =~= seq![b.field_size, b.byte_offset, b.byte_mask, b.field_mask,
                if b.native_bool { 1u8 } else { 0u8 }, if b.value { 1u8 } else { 0u8 }]);
        },
        FProperty::FGenericProperty(_) => {
            assert(rest(body, 39) =~= Seq::<u8>::empty());
        },
        FProperty::FNumericProperty(_) => {
            assert(rest(body, 39) =~= Seq::<u8>::empty());
        },
        _ => {
            let idx = match p {
                FProperty::FObjectProperty(y) => y.index,
                FProperty::FSoftObjectProperty(y) => y.index,
                FProperty::FDelegateProperty(y) => y.index,
                FProperty::FMulticastDelegateProperty(y) => y.index,
                FProperty::FMulticastInlineDelegateProperty(y) => y.index,
                FProperty::FInterfaceProperty(y) => y.index,
                FProperty::FByteProperty(y) => y.index,
                FProperty::FStructProperty(y) => y.index,
                _ => PackageIndex { index: 0 },
            };
            lemma_ser_values(0, 0, 0, idx.index, 0);
            assert(rest(body, 39) =~= ser_i32(idx.index));
            assert(t.subrange(0, 4) =~= ser_i32(idx.index));
            assert(idx == PackageIndex { index: idx.index });
        },
    }
}

/// What a property that fits holds after its generic part reads back, against any name map
/// that extends the map that the writer left, whatever follows it.
pub proof fn lemma_tail_rt(p: FProperty, names: Seq<Seq<char>>, big: Seq<Seq<char>>, r: Seq<u8>)
    requires
        pfits(p, names),
        names.no_duplicates(),
        names.len() + property_count(p) < 0x7fff_ffff,
        ser_property(p, names).1.is_prefix_of(big),
    ensures
        parse_tail(rest(ser_data(p, names_after_type(p, names)).0, 39) + r, big, kind_of_property(p), generic_of(p))
            == Some((p, rest(ser_data(p, names_after_type(p, names)).0, 39).len() as int)),
    decreases p, 1int,
{
    match p {
        FProperty::FEnumProperty(_) => { lemma_tail_enum(p, names, big, r); },
        FProperty::FArrayProperty(_) | FProperty::FSetProperty(_) => { lemma_tail_inner(p, names, big, r); },
        FProperty::FMapProperty(_) => { lemma_tail_map(p, names, big, r); },
        _ => { lemma_tail_fixed(p, names, big, r); },
    }
}

/// A property that fits reads back, against any name map that extends the map that the
/// writer left, whatever follows it.
#[verifier::spinoff_prover]
#[verifier::rlimit(100)]
pub proof fn lemma_property_rt(p: FProperty, names: Seq<Seq<char>>, big: Seq<Seq<char>>, r: Seq<u8>)
    requires
        pfits(p, names),
        names.no_duplicates(),
        names.len() + property_count(p) < 0x7fff_ffff,
        ser_property(p, names).1.is_prefix_of(big),
    ensures
        parse_property(ser_property(p, names).0 + r, big) == Some((p, ser_property(p, names).0.len() as int)),
    decreases p, 2int,
{
    let name = serialized_name_of(p, names);
    let i = spec_add_name(names, name).0;
    let n1 = spec_add_name(names, name).1;
    lemma_add_name(names, name);
    let body = ser_data(p, n1).0;
    let n2 = ser_data(p, n1).1;
    lemma_ser_extends(p, names);
    let tn = NameIndex { index: i, number: 0 };
    let s = ser_property(p, names).0 + r;
    lemma_ser_values(0, 0, 0, i, 0);
    lemma_ser_values(0, 0, 0, 0, 0);
    assert(s =~= ser_i32(i) + ser_i32(0) + body + r);
    assert(s.subrange(0, 4) =~= ser_i32(i));
    assert(s.subrange(4, 8) =~= ser_i32(0));
    assert(n1.is_prefix_of(big)) by {
        lemma_ser_data_extends(p, n1, names);
        assert(big.subrange(0, n1.len() as int) =~= big.subrange(0, n2.len() as int).subrange(0, n1.len() as int));
    }
    assert(big[i as int] == name) by {
        assert(big[i as int] == big.subrange(0, n1.len() as int)[i as int]);
    }
    assert(parse_fname(s, big.len()) == Some((tn, 8int)));
    reveal(serialized_name_of);
    lemma_kind_names(kind_of_property(p));
    let g = generic_of(p);
    let kind = kind_of_name(name);
    assert(kind == kind_of_property(p));
    let st = if kind == FPropertyKind::GenericProperty { Some(tn) } else { None };
    assert(st == g.serialized_type) by {
        match p {
            FProperty::FGenericProperty(gp) => {
                let ty = gp.serialized_type->0;
                assert(names[ty.index as int] == name);
                assert(i == ty.index);
            },
            _ => {},
        }
    }
    lemma_data_split(p, n1);
    let tb = rest(body, 39);
    assert(generic_fits(g, big.len()));
    lemma_generic_rt(g, big.len(), st, tb + r);
    assert(FGenericProperty { serialized_type: st, ..g } == g);
    assert(rest(s, 8) =~= g.spec_ser() + (tb + r));
    assert(rest(s, 47) =~= tb + r);
    lemma_tail_rt(p, names, big, r);
}

/// Writing what a property holds after its type name only adds names.
proof fn lemma_ser_data_extends(p: FProperty, n1: Seq<Seq<char>>, names: Seq<Seq<char>>)
    requires
        n1 == names_after_type(p, names),
        names.no_duplicates(),
        names.len() + property_count(p) < 0x7fff_ffff,
    ensures
        n1.is_prefix_of(ser_data(p, n1).1),
{
    lemma_add_name(names, serialized_name_of(p, names));
    let out = ser_data(p, n1).1;
    match p {
        FProperty::FEnumProperty(e) => { lemma_ser_extends(*e.underlying_prop, n1); },
        FProperty::FArrayProperty(x) => { lemma_ser_extends(*x.inner, n1); },
        FProperty::FSetProperty(x) => { lemma_ser_extends(*x.inner, n1); },
        FProperty::FMapProperty(m) => {
            lemma_ser_extends(*m.key_prop, n1);
            let nk = ser_property(*m.key_prop, n1).1;
            lemma_ser_extends(*m.value_prop, nk);
            assert(out.subrange(0, n1.len() as int) =~= out.subrange(0, nk.len() as int).subrange(0, n1.len() as int));
        },
        _ => {
            assert(out =~= n1.subrange(0, n1.len() as int));
        },
    }
}

/// Reading back a property that was written gives the property, whatever follows it: for a
/// property that fits the name map, which holds no name twice, read against the name map that
/// the writer left.
pub proof fn lemma_property_roundtrip(p: FProperty, names: Seq<Seq<char>>, r: Seq<u8>)
    requires
        pfits(p, names),
        names.no_duplicates(),
        names.len() + property_count(p) < 0x7fff_ffff,
    ensures
        parse_property(ser_property(p, names).0 + r, ser_property(p, names).1)
            == Some((p, ser_property(p, names).0.len() as int)),
{
    let big = ser_property(p, names).1;
    assert(big.is_prefix_of(big)) by { assert(big =~= big.subrange(0, big.len() as int)); }
    lemma_property_rt(p, names, big, r);
}

/// A boolean property reads back from what its writer wrote: its generic part, then the field
/// size, byte offset, byte mask and field mask bytes, then the native and value flags; the
/// read stops right after these 45 bytes, whatever follows.
pub proof fn lemma_bool_property_roundtrip(b: FBoolProperty, names: Seq<Seq<char>>, r: Seq<u8>)
    requires
        generic_fits(b.generic_property, names.len()),
        b.generic_property.serialized_type is None,
    ensures
        ser_fixed(FProperty::FBoolProperty(b)).len() == 45,
        parse_bool_property(ser_fixed(FProperty::FBoolProperty(b)) + r, names) == Some((b, 45int)),
{
    reveal(ser_fixed);
    let g = b.generic_property;
    let tail = seq![
        b.field_size, b.byte_offset, b.byte_mask, b.field_mask,
        if b.native_bool { 1u8 } else { 0u8 }, if b.value { 1u8 } else { 0u8 },
    ];
    lemma_generic_rt(g, names.len(), None, tail + r);
    let s = ser_fixed(FProperty::FBoolProperty(b)) + r;
    assert(s =~= g.spec_ser() + (tail + r));
    assert(rest(s, 39) =~= tail + r);
    assert(FGenericProperty { serialized_type: None, ..g } == g);
}

} // verus!
