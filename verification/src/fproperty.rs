//! All of Unreal Engine FProperties

use vstd::prelude::*;
use crate::archive::{ByteReader, ByteWriter, stepped, rest, lemma_advance, ser_i32, ser_u16, ser_u32, ser_u64, u16_at, u32_at, u64_at};
use crate::asset::name_map::{NameMap, parse_fname, ser_fname, read_fname, write_fname, last_index_of, lemma_last_index_of, decimal_text};
use crate::bytes::le_value;
use crate::enums::{EArrayDim, ELifetimeCondition};
use crate::error::{Error, IoErrorKind};
use crate::exports::base_export::{i32_at, u32_in, OBJECT_FLAGS_MASK};
use crate::flags::{EPropertyFlags, PROPERTY_FLAGS_MASK};
use crate::iostore::flags::EObjectFlags;
use crate::types::{NameIndex, PackageIndex};

verus! {

/// Generic FProperty
#[derive(Debug, Clone, Copy, PartialEq, Eq, Hash)]
pub struct FGenericProperty {
    /// Property name
    pub name: NameIndex,
    /// Object flags
    pub flags: EObjectFlags,
    /// Array dimension
    pub array_dim: EArrayDim,
    /// Array element size
    pub element_size: i32,
    /// Property flags
    pub property_flags: EPropertyFlags,
    /// Replication index
    pub rep_index: u16,
    /// Replication notify function
    pub rep_notify_func: NameIndex,
    /// Replication condition
    pub blueprint_replication_condition: ELifetimeCondition,
    /// Serialized type
    pub serialized_type: Option<NameIndex>,
}

/// Enum FProperty
#[derive(Debug, PartialEq, Eq)]
pub struct FEnumProperty {
    /// Generic property
    pub generic_property: FGenericProperty,
    /// Enum value
    pub enum_value: PackageIndex,
    /// Underlying property
    pub underlying_prop: Box<FProperty>,
}

/// Boolean FProperty
#[derive(Debug, PartialEq, Eq)]
pub struct FBoolProperty {
    /// Generic property
    pub generic_property: FGenericProperty,
    /// Field size
    pub field_size: u8,
    /// Byte offset
    pub byte_offset: u8,
    /// Byte mask
    pub byte_mask: u8,
    /// Field mask
    pub field_mask: u8,
    /// Is native boolean
    pub native_bool: bool,
    /// Value
    pub value: bool,
}

/// A property of one inner property (array, set)
#[derive(Debug, PartialEq, Eq)]
pub struct FInnerProperty {
    /// Generic property
    pub generic_property: FGenericProperty,
    /// Inner property
    pub inner: Box<FProperty>,
}

/// Map FProperty
#[derive(Debug, PartialEq, Eq)]
pub struct FMapProperty {
    /// Generic property
    pub generic_property: FGenericProperty,
    /// Key
    pub key_prop: Box<FProperty>,
    /// Value
    pub value_prop: Box<FProperty>,
}

/// A property that refers to one package index (object, delegate, interface, byte, struct)
#[derive(Debug, PartialEq, Eq)]
pub struct FIndexProperty {
    /// Generic property
    pub generic_property: FGenericProperty,
    /// The index: class, signature function, interface class, enum or struct
    pub index: PackageIndex,
}

/// A property that refers to a class and a meta-class
#[derive(Debug, PartialEq, Eq)]
pub struct FClassProperty {
    /// Generic property
    pub generic_property: FGenericProperty,
    /// Class index
    pub property_class: PackageIndex,
    /// Meta-class index
    pub meta_class: PackageIndex,
}

/// FProperty
#[derive(Debug, PartialEq, Eq)]
pub enum FProperty {
    /// Generic FProperty
    FGenericProperty(FGenericProperty),
    /// Enum
    FEnumProperty(FEnumProperty),
    /// Array
    FArrayProperty(FInnerProperty),
    /// Set
    FSetProperty(FInnerProperty),
    /// Object
    FObjectProperty(FIndexProperty),
    /// SoftObject
    FSoftObjectProperty(FIndexProperty),
    /// Class
    FClassProperty(FClassProperty),
    /// SoftClass
    FSoftClassProperty(FClassProperty),
    /// Delegate
    FDelegateProperty(FIndexProperty),
    /// MulticastDelegate
    FMulticastDelegateProperty(FIndexProperty),
    /// MulticastInlineDelegate
    FMulticastInlineDelegateProperty(FIndexProperty),
    /// Interface
    FInterfaceProperty(FIndexProperty),
    /// Map
    FMapProperty(FMapProperty),
    /// Bool
    FBoolProperty(FBoolProperty),
    /// Byte
    FByteProperty(FIndexProperty),
    /// Struct
    FStructProperty(FIndexProperty),
    /// Numeric
    FNumericProperty(FGenericProperty),
}

/// The kinds of property, by their serialized type names.
#[derive(Debug, Clone, Copy, PartialEq, Eq, Structural)]
pub enum FPropertyKind {
    /// EnumProperty
    EnumProperty,
    /// ArrayProperty
    ArrayProperty,
    /// SetProperty
    SetProperty,
    /// ObjectProperty
    ObjectProperty,
    /// SoftObjectProperty
    SoftObjectProperty,
    /// ClassProperty
    ClassProperty,
    /// SoftClassProperty
    SoftClassProperty,
    /// DelegateProperty
    DelegateProperty,
    /// MulticastDelegateProperty
    MulticastDelegateProperty,
    /// MulticastInlineDelegateProperty
    MulticastInlineDelegateProperty,
    /// InterfaceProperty
    InterfaceProperty,
    /// MapProperty
    MapProperty,
    /// BoolProperty
    BoolProperty,
    /// ByteProperty
    ByteProperty,
    /// StructProperty
    StructProperty,
    /// NumericProperty
    NumericProperty,
    /// Any other name
    GenericProperty,
}

/// The kind of property that a serialized type name names.
pub open spec fn kind_of_name(n: Seq<char>) -> FPropertyKind {
    if n == "EnumProperty"@ { FPropertyKind::EnumProperty }
    else if n == "ArrayProperty"@ { FPropertyKind::ArrayProperty }
    else if n == "SetProperty"@ { FPropertyKind::SetProperty }
    else if n == "ObjectProperty"@ { FPropertyKind::ObjectProperty }
    else if n == "SoftObjectProperty"@ { FPropertyKind::SoftObjectProperty }
    else if n == "ClassProperty"@ { FPropertyKind::ClassProperty }
    else if n == "SoftClassProperty"@ { FPropertyKind::SoftClassProperty }
    else if n == "DelegateProperty"@ { FPropertyKind::DelegateProperty }
    else if n == "MulticastDelegateProperty"@ { FPropertyKind::MulticastDelegateProperty }
    else if n == "MulticastInlineDelegateProperty"@ { FPropertyKind::MulticastInlineDelegateProperty }
    else if n == "InterfaceProperty"@ { FPropertyKind::InterfaceProperty }
    else if n == "MapProperty"@ { FPropertyKind::MapProperty }
    else if n == "BoolProperty"@ { FPropertyKind::BoolProperty }
    else if n == "ByteProperty"@ { FPropertyKind::ByteProperty }
    else if n == "StructProperty"@ { FPropertyKind::StructProperty }
    else if n == "NumericProperty"@ { FPropertyKind::NumericProperty }
    else { FPropertyKind::GenericProperty }
}

/// The kind of property that a serialized type name names.
pub fn kind_of(name: &String) -> (k: FPropertyKind)
    ensures k == kind_of_name(name@),
{
    if *name == String::from_str("EnumProperty") { FPropertyKind::EnumProperty }
    else if *name == String::from_str("ArrayProperty") { FPropertyKind::ArrayProperty }
    else if *name == String::from_str("SetProperty") { FPropertyKind::SetProperty }
    else if *name == String::from_str("ObjectProperty") { FPropertyKind::ObjectProperty }
    else if *name == String::from_str("SoftObjectProperty") { FPropertyKind::SoftObjectProperty }
    else if *name == String::from_str("ClassProperty") { FPropertyKind::ClassProperty }
    else if *name == String::from_str("SoftClassProperty") { FPropertyKind::SoftClassProperty }
    else if *name == String::from_str("DelegateProperty") { FPropertyKind::DelegateProperty }
    else if *name == String::from_str("MulticastDelegateProperty") { FPropertyKind::MulticastDelegateProperty }
    else if *name == String::from_str("MulticastInlineDelegateProperty") { FPropertyKind::MulticastInlineDelegateProperty }
    else if *name == String::from_str("InterfaceProperty") { FPropertyKind::InterfaceProperty }
    else if *name == String::from_str("MapProperty") { FPropertyKind::MapProperty }
    else if *name == String::from_str("BoolProperty") { FPropertyKind::BoolProperty }
    else if *name == String::from_str("ByteProperty") { FPropertyKind::ByteProperty }
    else if *name == String::from_str("StructProperty") { FPropertyKind::StructProperty }
    else if *name == String::from_str("NumericProperty") { FPropertyKind::NumericProperty }
    else { FPropertyKind::GenericProperty }
}

/// The little-endian `u64` at `off` in `b`.
pub open spec fn u64_in(b: Seq<u8>, off: int) -> u64 {
    le_value(b.subrange(off, off + 8)) as u64
}

/// The little-endian `u16` at `off` in `b`.
pub open spec fn u16_in(b: Seq<u8>, off: int) -> u16 {
    le_value(b.subrange(off, off + 2)) as u16
}

/// The generic property at the start of `s`, with `serialized_type`: its name, object flags,
/// array dimension, element size, property flags, replication index, replication notify
/// function and replication condition, 39 bytes; when its names lie in a name map of `n`
/// names and its flags, dimension and condition are known ones.
pub open spec fn parse_generic(s: Seq<u8>, n: nat, serialized_type: Option<NameIndex>) -> Option<(FGenericProperty, int)> {
    if s.len() >= 39 {
        let flags = u32_in(s, 8);
        let dim = EArrayDim::spec_from_i32(i32_at(s, 12));
        let property_flags = u64_in(s, 20);
        let cond = ELifetimeCondition::spec_from_u8(s[38]);
        if 0 <= i32_at(s, 0) < n && 0 <= i32_at(s, 30) < n && flags & !OBJECT_FLAGS_MASK == 0
            && dim is Some && property_flags & !PROPERTY_FLAGS_MASK == 0 && cond is Some {
            Some((FGenericProperty {
                name: NameIndex { index: i32_at(s, 0), number: i32_at(s, 4) },
                flags: EObjectFlags { bits: flags },
                array_dim: dim->0,
                element_size: i32_at(s, 16),
                property_flags: EPropertyFlags { bits: property_flags },
                rep_index: u16_in(s, 28),
                rep_notify_func: NameIndex { index: i32_at(s, 30), number: i32_at(s, 34) },
                blueprint_replication_condition: cond->0,
                serialized_type,
            }, 39))
        } else {
            None
        }
    } else {
        None
    }
}

/// The error of reading a generic property from `s`: that of the first field, in the order
/// name, object flags, array dimension, element size, property flags, replication index,
/// replication notify function, replication condition, that is cut short or does not hold a
/// valid value. Unknown flag bits make the file invalid; a value that names no array
/// dimension or condition is an invalid enum value; a name outside the map is a name error.
pub open spec fn generic_error(s: Seq<u8>, n: nat, e: Error) -> bool {
    let eof = Error::Io(IoErrorKind::UnexpectedEof);
    if s.len() < 8 {
        e == eof
    } else if !(0 <= i32_at(s, 0) < n) {
        e == Error::FName(i32_at(s, 0), n as usize)
    } else if s.len() < 12 {
        e == eof
    } else if u32_in(s, 8) & !OBJECT_FLAGS_MASK != 0 {
        e matches Error::InvalidFile(m) && m@ == "Invalid object flags"@
    } else if s.len() < 16 {
        e == eof
    } else if EArrayDim::spec_from_i32(i32_at(s, 12)) is None {
        e matches Error::InvalidEnumValue(m) && m@ == "EArrayDim"@
    } else if s.len() < 28 {
        e == eof
    } else if u64_in(s, 20) & !PROPERTY_FLAGS_MASK != 0 {
        e matches Error::InvalidFile(m) && m@ == "Invalid property flags"@
    } else if s.len() < 38 {
        e == eof
    } else if !(0 <= i32_at(s, 30) < n) {
        e == Error::FName(i32_at(s, 30), n as usize)
    } else if s.len() < 39 {
        e == eof
    } else {
        &&& ELifetimeCondition::spec_from_u8(s[38]) is None
        &&& (e matches Error::InvalidEnumValue(m) && m@ == "ELifetimeCondition"@)
    }
}

/// The property at the start of `s`: the name of its serialized type, its generic part, then
/// what the kind that the type names adds; an unknown type name reads as a generic property
/// that keeps it. Names must lie in the name map `names`.
pub open spec fn parse_property(s: Seq<u8>, names: Seq<Seq<char>>) -> Option<(FProperty, int)>
    decreases s.len(), 0int,
{
    match parse_fname(s, names.len()) {
        None => None,
        Some((t, _)) => {
            let kind = kind_of_name(names[t.index as int]);
            let st = if kind == FPropertyKind::GenericProperty { Some(t) } else { None };
            match parse_generic(rest(s, 8), names.len(), st) {
                None => None,
                Some((g, _)) => if s.len() >= 47 {
                    match parse_tail(rest(s, 47), names, kind, g) {
                        Some((p, k)) => Some((p, 47 + k)),
                        None => None,
                    }
                } else {
                    None
                },
            }
        },
    }
}

/// What a property of `kind` with generic part `g` holds after that part, at the start of `r`.
pub open spec fn parse_tail(r: Seq<u8>, names: Seq<Seq<char>>, kind: FPropertyKind, g: FGenericProperty)
    -> Option<(FProperty, int)>
    decreases r.len(), 1int,
{
    match kind {
        FPropertyKind::GenericProperty => Some((FProperty::FGenericProperty(g), 0)),
        FPropertyKind::NumericProperty => Some((FProperty::FNumericProperty(g), 0)),
        FPropertyKind::EnumProperty => if r.len() >= 4 {
            match parse_property(rest(r, 4), names) {
                Some((u, k)) => Some((FProperty::FEnumProperty(FEnumProperty {
                    generic_property: g,
                    enum_value: PackageIndex { index: i32_at(r, 0) },
                    underlying_prop: Box::new(u),
                }), 4 + k)),
                None => None,
            }
        } else {
            None
        },
        FPropertyKind::ArrayProperty => match parse_property(r, names) {
            Some((u, k)) => Some((FProperty::FArrayProperty(FInnerProperty { generic_property: g, inner: Box::new(u) }), k)),
            None => None,
        },
        FPropertyKind::SetProperty => match parse_property(r, names) {
            Some((u, k)) => Some((FProperty::FSetProperty(FInnerProperty { generic_property: g, inner: Box::new(u) }), k)),
            None => None,
        },
        FPropertyKind::MapProperty => match parse_property(r, names) {
            Some((key, k1)) => if 0 <= k1 <= r.len() {
                match parse_property(rest(r, k1), names) {
                    Some((value, k2)) => Some((FProperty::FMapProperty(FMapProperty {
                        generic_property: g,
                        key_prop: Box::new(key),
                        value_prop: Box::new(value),
                    }), k1 + k2)),
                    None => None,
                }
            } else {
                None
            },
            None => None,
        },
        FPropertyKind::ClassProperty | FPropertyKind::SoftClassProperty => if r.len() >= 8 {
            let p = FClassProperty {
                generic_property: g,
                property_class: PackageIndex { index: i32_at(r, 0) },
                meta_class: PackageIndex { index: i32_at(r, 4) },
            };
            Some((if kind == FPropertyKind::ClassProperty {
                FProperty::FClassProperty(p)
            } else {
                FProperty::FSoftClassProperty(p)
            }, 8))
        } else {
            None
        },
        FPropertyKind::BoolProperty => if r.len() >= 6 {
            Some((FProperty::FBoolProperty(FBoolProperty {
                generic_property: g,
                field_size: r[0],
                byte_offset: r[1],
                byte_mask: r[2],
                field_mask: r[3],
                native_bool: r[4] > 0,
                value: r[5] > 0,
            }), 6))
        } else {
            None
        },
        _ => if r.len() >= 4 {
            Some((index_property(kind, FIndexProperty {
                generic_property: g,
                index: PackageIndex { index: i32_at(r, 0) },
            }), 4))
        } else {
            None
        },
    }
}

/// A property read takes at least its type name and generic part, and no more than is there.
pub proof fn lemma_parse_bounds(s: Seq<u8>, names: Seq<Seq<char>>)
    ensures parse_property(s, names) matches Some((p, k)) ==> 47 <= k <= s.len(),
    decreases s.len(), 0int,
{
    if let Some((t, _)) = parse_fname(s, names.len()) {
        let kind = kind_of_name(names[t.index as int]);
        let st = if kind == FPropertyKind::GenericProperty { Some(t) } else { None };
        if let Some((g, _)) = parse_generic(rest(s, 8), names.len(), st) {
            if s.len() >= 47 {
                lemma_tail_bounds(rest(s, 47), names, kind, g);
            }
        }
    }
}

/// What follows the generic part takes no more than is there.
pub proof fn lemma_tail_bounds(r: Seq<u8>, names: Seq<Seq<char>>, kind: FPropertyKind, g: FGenericProperty)
    ensures parse_tail(r, names, kind, g) matches Some((p, k)) ==> 0 <= k <= r.len(),
    decreases r.len(), 1int,
{
    match kind {
        FPropertyKind::EnumProperty => if r.len() >= 4 { lemma_parse_bounds(rest(r, 4), names); },
        FPropertyKind::ArrayProperty | FPropertyKind::SetProperty => lemma_parse_bounds(r, names),
        FPropertyKind::MapProperty => {
            lemma_parse_bounds(r, names);
            if let Some((key, k1)) = parse_property(r, names) {
                if 0 <= k1 <= r.len() {
                    lemma_parse_bounds(rest(r, k1), names);
                }
            }
        },
        _ => {},
    }
}

/// The property of a kind that refers to one package index.
pub open spec fn index_property(kind: FPropertyKind, p: FIndexProperty) -> FProperty {
    match kind {
        FPropertyKind::ObjectProperty => FProperty::FObjectProperty(p),
        FPropertyKind::SoftObjectProperty => FProperty::FSoftObjectProperty(p),
        FPropertyKind::DelegateProperty => FProperty::FDelegateProperty(p),
        FPropertyKind::MulticastDelegateProperty => FProperty::FMulticastDelegateProperty(p),
        FPropertyKind::MulticastInlineDelegateProperty => FProperty::FMulticastInlineDelegateProperty(p),
        FPropertyKind::InterfaceProperty => FProperty::FInterfaceProperty(p),
        FPropertyKind::ByteProperty => FProperty::FByteProperty(p),
        _ => FProperty::FStructProperty(p),
    }
}

impl FGenericProperty {
    /// Read an `FGenericProperty` from an asset with a serialized type. Where it fails, the
    /// error is that of the first field, in the order in which they are read, that is cut
    /// short or does not hold a valid value.
    pub fn with_serialized_type(reader: &mut ByteReader, name_map: &NameMap, serialized_type: Option<NameIndex>)
        -> (res: Result<Self, Error>)
        ensures
            stepped(*old(reader), *final(reader), res,
                parse_generic(old(reader).remaining(), name_map.names().len(), serialized_type)),
            res matches Err(e) ==> generic_error(old(reader).remaining(), name_map.names().len(), e),
    {
        let ghost s = old(reader).remaining();
        let avail = reader.remaining_len();
        if avail == 0 {
            return Err(Error::Io(IoErrorKind::UnexpectedEof));
        }
        let k: usize = if avail < 39 { avail } else { 39 };
        let b = reader.read_record(k)?;
        let bs = b.as_slice();
        proof {
            assert(b@ == s.take(k as int));
            assert forall|i: int, j: int| 0 <= i <= j <= k implies #[trigger] b@.subrange(i, j) == s.subrange(i, j) by {
                assert(b@.subrange(i, j) =~= s.subrange(i, j));
            }
        }
        if k < 8 {
            return Err(Error::Io(IoErrorKind::UnexpectedEof));
        }
        let name_index = u32_at(bs, 0) as i32;
        let name_number = u32_at(bs, 4) as i32;
        let names_len = name_map.names_len();
        if name_index < 0 || name_index as usize >= names_len {
            return Err(Error::fname(name_index, names_len));
        }
        if k < 12 {
            return Err(Error::Io(IoErrorKind::UnexpectedEof));
        }
        let flags = match EObjectFlags::from_bits(u32_at(bs, 8)) {
            Some(f) => f,
            None => return Err(Error::invalid_file(String::from_str("Invalid object flags"))),
        };
        if k < 16 {
            return Err(Error::Io(IoErrorKind::UnexpectedEof));
        }
        let array_dim = match EArrayDim::try_from_i32(u32_at(bs, 12) as i32) {
            Some(d) => d,
            None => return Err(Error::invalid_enum("EArrayDim")),
        };
        if k < 28 {
            return Err(Error::Io(IoErrorKind::UnexpectedEof));
        }
        let element_size = u32_at(bs, 16) as i32;
        let property_flags = match EPropertyFlags::from_bits(u64_at(bs, 20)) {
            Some(f) => f,
            None => return Err(Error::invalid_file(String::from_str("Invalid property flags"))),
        };
        if k < 38 {
            return Err(Error::Io(IoErrorKind::UnexpectedEof));
        }
        let rep_index = u16_at(bs, 28);
        let notify_index = u32_at(bs, 30) as i32;
        let notify_number = u32_at(bs, 34) as i32;
        if notify_index < 0 || notify_index as usize >= names_len {
            return Err(Error::fname(notify_index, names_len));
        }
        if k < 39 {
            return Err(Error::Io(IoErrorKind::UnexpectedEof));
        }
        let blueprint_replication_condition = match ELifetimeCondition::try_from_u8(bs[38]) {
            Some(c) => c,
            None => return Err(Error::invalid_enum("ELifetimeCondition")),
        };
        Ok(FGenericProperty {
            name: NameIndex { index: name_index, number: name_number },
            flags,
            array_dim,
            element_size,
            property_flags,
            rep_index,
            rep_notify_func: NameIndex { index: notify_index, number: notify_number },
            blueprint_replication_condition,
            serialized_type,
        })
    }

    /// Read an `FGenericProperty` from an asset
    pub fn new(reader: &mut ByteReader, name_map: &NameMap) -> (res: Result<Self, Error>)
        ensures
            stepped(*old(reader), *final(reader), res, parse_generic(old(reader).remaining(), name_map.names().len(), None)),
            res matches Err(e) ==> generic_error(old(reader).remaining(), name_map.names().len(), e),
            res matches Ok(g) ==> g.serialized_type is None,
    {
        FGenericProperty::with_serialized_type(reader, name_map, None)
    }

    /// The encoding of the generic part of a property.
    pub open spec fn spec_ser(&self) -> Seq<u8> {
        ser_fname(self.name) + ser_u32(self.flags.bits) + ser_i32(self.array_dim.spec_value())
            + ser_i32(self.element_size) + ser_u64(self.property_flags.bits) + ser_u16(self.rep_index)
            + ser_fname(self.rep_notify_func) + seq![self.blueprint_replication_condition.spec_value()]
    }

    /// Write the generic part of a property
    pub fn write(&self, writer: &mut ByteWriter)
        ensures final(writer).data@ == old(writer).data@ + self.spec_ser(),
    {
        write_fname(writer, self.name);
        writer.write_u32(self.flags.bits());
        writer.write_i32(self.array_dim.value());
        writer.write_i32(self.element_size);
        writer.write_u64(self.property_flags.bits());
        writer.write_u16(self.rep_index);
        write_fname(writer, self.rep_notify_func);
        writer.write_u8(self.blueprint_replication_condition.value());
        assert(final(writer).data@ =~= old(writer).data@ + self.spec_ser());
    }
}

/// Skipping `a` bytes then `b` more skips `a + b`.
proof fn lemma_rest_rest(s: Seq<u8>, a: int, b: int)
    requires 0 <= a, 0 <= b, a + b <= s.len(),
    ensures rest(rest(s, a), b) == rest(s, a + b),
{
    assert(rest(rest(s, a), b) =~= rest(s, a + b));
}

impl FProperty {
    /// Read an `FProperty` from an asset: the name of its serialized type decides its kind.
    pub fn new(reader: &mut ByteReader, name_map: &NameMap) -> (res: Result<Self, Error>)
        ensures
            stepped(*old(reader), *final(reader), res, parse_property(old(reader).remaining(), name_map.names())),
        decreases old(reader).remaining().len(), 0int,
    {
        let ghost s = old(reader).remaining();
        let ghost r0 = *reader;
        let t = read_fname(reader, name_map)?;
        proof { lemma_advance(r0, *reader); }
        let serialized_name = name_map.get_name_reference(t.index);
        let kind = kind_of(&serialized_name);
        let st = if kind == FPropertyKind::GenericProperty { Some(t) } else { None };
        let ghost r1 = *reader;
        let g = FGenericProperty::with_serialized_type(reader, name_map, st)?;
        proof {
            lemma_advance(r1, *reader);
            lemma_rest_rest(s, 8, 39);
            lemma_advance(r0, *reader);
        }
        let ghost r2 = *reader;
        let p = FProperty::read_tail(reader, name_map, kind, g)?;
        proof {
            let (q, k) = parse_tail(rest(s, 47), name_map.names(), kind, g)->0;
            assert(reader.pos - r0.pos == 47 + k);
        }
        Ok(p)
    }

    /// Read what a property of `kind` holds after its generic part `g`.
    fn read_tail(reader: &mut ByteReader, name_map: &NameMap, kind: FPropertyKind, g: FGenericProperty)
        -> (res: Result<Self, Error>)
        ensures
            stepped(*old(reader), *final(reader), res, parse_tail(old(reader).remaining(), name_map.names(), kind, g)),
        decreases old(reader).remaining().len(), 2int,
    {
        match kind {
            FPropertyKind::GenericProperty => Ok(FProperty::FGenericProperty(g)),
            FPropertyKind::NumericProperty => Ok(FProperty::FNumericProperty(g)),
            FPropertyKind::EnumProperty => FProperty::read_enum_tail(reader, name_map, kind, g),
            FPropertyKind::MapProperty => FProperty::read_map_tail(reader, name_map, kind, g),
            FPropertyKind::ArrayProperty | FPropertyKind::SetProperty => FProperty::read_inner_tail(reader, name_map, kind, g),
            _ => FProperty::read_fixed_tail(reader, kind, g),
        }
    }

    /// Read the enum value and underlying property of an enum property.
    #[verifier::spinoff_prover]
    #[verifier::rlimit(40)]
    fn read_enum_tail(reader: &mut ByteReader, name_map: &NameMap, kind: FPropertyKind, g: FGenericProperty)
        -> (res: Result<Self, Error>)
        requires
            kind == FPropertyKind::EnumProperty,
        ensures
            stepped(*old(reader), *final(reader), res, parse_tail(old(reader).remaining(), name_map.names(), kind, g)),
        decreases old(reader).remaining().len(), 1int,
    {
        let ghost r = old(reader).remaining();
        let ghost r0 = *reader;
        let v = reader.read_i32()?;
        proof {
            lemma_advance(r0, *reader);
            assert(r.subrange(0, 4) =~= r.take(4));
        }
        let u = FProperty::new(reader, name_map)?;
        Ok(FProperty::FEnumProperty(FEnumProperty {
            generic_property: g,
            enum_value: PackageIndex::new(v),
            underlying_prop: Box::new(u),
        }))
    }

    /// Read the key and value properties of a map property.
    #[verifier::spinoff_prover]
    #[verifier::rlimit(40)]
    fn read_map_tail(reader: &mut ByteReader, name_map: &NameMap, kind: FPropertyKind, g: FGenericProperty)
        -> (res: Result<Self, Error>)
        requires
            kind == FPropertyKind::MapProperty,
        ensures
            stepped(*old(reader), *final(reader), res, parse_tail(old(reader).remaining(), name_map.names(), kind, g)),
        decreases old(reader).remaining().len(), 1int,
    {
        let ghost r = old(reader).remaining();
        let ghost r0 = *reader;
        let key = FProperty::new(reader, name_map)?;
        proof {
            lemma_parse_bounds(r, name_map.names());
            lemma_advance(r0, *reader);
        }
        let value = FProperty::new(reader, name_map)?;
        Ok(FProperty::FMapProperty(FMapProperty {
            generic_property: g,
            key_prop: Box::new(key),
            value_prop: Box::new(value),
        }))
    }

    /// Read the inner property of an array or set property.
    #[verifier::spinoff_prover]
    #[verifier::rlimit(40)]
    fn read_inner_tail(reader: &mut ByteReader, name_map: &NameMap, kind: FPropertyKind, g: FGenericProperty)
        -> (res: Result<Self, Error>)
        requires
            kind == FPropertyKind::ArrayProperty || kind == FPropertyKind::SetProperty,
        ensures
            stepped(*old(reader), *final(reader), res, parse_tail(old(reader).remaining(), name_map.names(), kind, g)),
        decreases old(reader).remaining().len(), 1int,
    {
        let ghost r = old(reader).remaining();
        let ghost r0 = *reader;
        let u = FProperty::new(reader, name_map)?;
        let p = FInnerProperty { generic_property: g, inner: Box::new(u) };
        if kind == FPropertyKind::ArrayProperty {
            Ok(FProperty::FArrayProperty(p))
        } else {
            Ok(FProperty::FSetProperty(p))
        }
    }

    /// Read the fixed part that a property of `kind` holds after its generic part `g`.
    #[verifier::spinoff_prover]
    #[verifier::rlimit(40)]
    fn read_fixed_tail(reader: &mut ByteReader, kind: FPropertyKind, g: FGenericProperty) -> (res: Result<Self, Error>)
        requires
            kind != FPropertyKind::EnumProperty && kind != FPropertyKind::ArrayProperty
                && kind != FPropertyKind::SetProperty && kind != FPropertyKind::MapProperty
                && kind != FPropertyKind::GenericProperty && kind != FPropertyKind::NumericProperty,
        ensures
            forall|names: Seq<Seq<char>>|
                stepped(*old(reader), *final(reader), res, #[trigger] parse_tail(old(reader).remaining(), names, kind, g)),
    {
        let ghost r = old(reader).remaining();
        if kind == FPropertyKind::ClassProperty || kind == FPropertyKind::SoftClassProperty {
            let b = reader.read_record(8)?;
            proof {
                assert(b@.subrange(0, 4) =~= r.subrange(0, 4));
                assert(b@.subrange(4, 8) =~= r.subrange(4, 8));
            }
            let p = FClassProperty {
                generic_property: g,
                property_class: PackageIndex::new(u32_at(b.as_slice(), 0) as i32),
                meta_class: PackageIndex::new(u32_at(b.as_slice(), 4) as i32),
            };
            if kind == FPropertyKind::ClassProperty {
                Ok(FProperty::FClassProperty(p))
            } else {
                Ok(FProperty::FSoftClassProperty(p))
            }
        } else if kind == FPropertyKind::BoolProperty {
            let b = reader.read_record(6)?;
            Ok(FProperty::FBoolProperty(FBoolProperty {
                generic_property: g,
                field_size: b[0],
                byte_offset: b[1],
                byte_mask: b[2],
                field_mask: b[3],
                native_bool: b[4] > 0,
                value: b[5] > 0,
            }))
        } else {
            let b = reader.read_record(4)?;
            proof { assert(b@.subrange(0, 4) =~= r.subrange(0, 4)); }
            let p = FIndexProperty { generic_property: g, index: PackageIndex::new(u32_at(b.as_slice(), 0) as i32) };
            Ok(match kind {
                FPropertyKind::ObjectProperty => FProperty::FObjectProperty(p),
                FPropertyKind::SoftObjectProperty => FProperty::FSoftObjectProperty(p),
                FPropertyKind::DelegateProperty => FProperty::FDelegateProperty(p),
                FPropertyKind::MulticastDelegateProperty => FProperty::FMulticastDelegateProperty(p),
                FPropertyKind::MulticastInlineDelegateProperty => FProperty::FMulticastInlineDelegateProperty(p),
                FPropertyKind::InterfaceProperty => FProperty::FInterfaceProperty(p),
                FPropertyKind::ByteProperty => FProperty::FByteProperty(p),
                _ => FProperty::FStructProperty(p),
            })
        }
    }
}

/// The kind of a property.
pub open spec fn kind_of_property(p: FProperty) -> FPropertyKind {
    match p {
        FProperty::FGenericProperty(_) => FPropertyKind::GenericProperty,
        FProperty::FEnumProperty(_) => FPropertyKind::EnumProperty,
        FProperty::FArrayProperty(_) => FPropertyKind::ArrayProperty,
        FProperty::FSetProperty(_) => FPropertyKind::SetProperty,
        FProperty::FObjectProperty(_) => FPropertyKind::ObjectProperty,
        FProperty::FSoftObjectProperty(_) => FPropertyKind::SoftObjectProperty,
        FProperty::FClassProperty(_) => FPropertyKind::ClassProperty,
        FProperty::FSoftClassProperty(_) => FPropertyKind::SoftClassProperty,
        FProperty::FDelegateProperty(_) => FPropertyKind::DelegateProperty,
        FProperty::FMulticastDelegateProperty(_) => FPropertyKind::MulticastDelegateProperty,
        FProperty::FMulticastInlineDelegateProperty(_) => FPropertyKind::MulticastInlineDelegateProperty,
        FProperty::FInterfaceProperty(_) => FPropertyKind::InterfaceProperty,
        FProperty::FMapProperty(_) => FPropertyKind::MapProperty,
        FProperty::FBoolProperty(_) => FPropertyKind::BoolProperty,
        FProperty::FByteProperty(_) => FPropertyKind::ByteProperty,
        FProperty::FStructProperty(_) => FPropertyKind::StructProperty,
        FProperty::FNumericProperty(_) => FPropertyKind::NumericProperty,
    }
}

/// The serialized type name of a kind of property other than the generic one.
pub open spec fn kind_name(k: FPropertyKind) -> Seq<char> {
    match k {
        FPropertyKind::EnumProperty => "EnumProperty"@,
        FPropertyKind::ArrayProperty => "ArrayProperty"@,
        FPropertyKind::SetProperty => "SetProperty"@,
        FPropertyKind::ObjectProperty => "ObjectProperty"@,
        FPropertyKind::SoftObjectProperty => "SoftObjectProperty"@,
        FPropertyKind::ClassProperty => "ClassProperty"@,
        FPropertyKind::SoftClassProperty => "SoftClassProperty"@,
        FPropertyKind::DelegateProperty => "DelegateProperty"@,
        FPropertyKind::MulticastDelegateProperty => "MulticastDelegateProperty"@,
        FPropertyKind::MulticastInlineDelegateProperty => "MulticastInlineDelegateProperty"@,
        FPropertyKind::InterfaceProperty => "InterfaceProperty"@,
        FPropertyKind::MapProperty => "MapProperty"@,
        FPropertyKind::BoolProperty => "BoolProperty"@,
        FPropertyKind::ByteProperty => "ByteProperty"@,
        FPropertyKind::StructProperty => "StructProperty"@,
        FPropertyKind::NumericProperty => "NumericProperty"@,
        FPropertyKind::GenericProperty => "Generic"@,
    }
}

/// The text of a name index in `names`: the name there, or the decimal text of the index
/// where it is out of range, without its sign where it is negative.
pub open spec fn name_text(names: Seq<Seq<char>>, index: i32) -> Seq<char> {
    if index < 0 {
        decimal_text(-index)
    } else if index >= names.len() {
        decimal_text(index as int)
    } else {
        names[index as int]
    }
}

/// The serialized type name of a property: that of its kind, or for a generic property the
/// text of the type it keeps, "Generic" where it keeps none.
#[verifier::opaque]
pub open spec fn serialized_name_of(p: FProperty, names: Seq<Seq<char>>) -> Seq<char> {
    match p {
        FProperty::FGenericProperty(g) => match g.serialized_type {
            Some(t) => name_text(names, t.index),
            None => "Generic"@,
        },
        _ => kind_name(kind_of_property(p)),
    }
}

/// Adding a name to a name map of `names` without duplicates: its index, and the names after.
pub open spec fn spec_add_name(names: Seq<Seq<char>>, name: Seq<char>) -> (i32, Seq<Seq<char>>) {
    match last_index_of(names, name) {
        Some(i) => (i as i32, names),
        None => (names.to_set().len() as i32, names.push(name)),
    }
}

/// The encoding of a property written with the name map `names`: the name of its serialized
/// type, added to the map, then its data; and the names after.
pub open spec fn ser_property(p: FProperty, names: Seq<Seq<char>>) -> (Seq<u8>, Seq<Seq<char>>)
    decreases p, 1int,
{
    let (index, n1) = spec_add_name(names, serialized_name_of(p, names));
    let (body, n2) = ser_data(p, n1);
    (ser_fname(NameIndex { index, number: 0 }) + body, n2)
}

/// The encoding of the data of a property, after its type name.
pub open spec fn ser_data(p: FProperty, names: Seq<Seq<char>>) -> (Seq<u8>, Seq<Seq<char>>)
    decreases p, 0int,
{
    match p {
        FProperty::FEnumProperty(e) => {
            let (b, n) = ser_property(*e.underlying_prop, names);
            (e.generic_property.spec_ser() + ser_i32(e.enum_value.index) + b, n)
        },
        FProperty::FArrayProperty(x) => {
            let (b, n) = ser_property(*x.inner, names);
            (x.generic_property.spec_ser() + b, n)
        },
        FProperty::FSetProperty(x) => {
            let (b, n) = ser_property(*x.inner, names);
            (x.generic_property.spec_ser() + b, n)
        },
        FProperty::FMapProperty(m) => {
            let (b1, n1) = ser_property(*m.key_prop, names);
            let (b2, n2) = ser_property(*m.value_prop, n1);
            (m.generic_property.spec_ser() + b1 + b2, n2)
        },
        _ => (ser_fixed(p), names),
    }
}

/// The encoding of the data of a property that nests no other.
#[verifier::opaque]
pub open spec fn ser_fixed(p: FProperty) -> Seq<u8> {
    match p {
        FProperty::FGenericProperty(g) => g.spec_ser(),
        FProperty::FNumericProperty(g) => g.spec_ser(),
        FProperty::FClassProperty(c) => c.generic_property.spec_ser() + ser_i32(c.property_class.index) + ser_i32(c.meta_class.index),
        FProperty::FSoftClassProperty(c) => c.generic_property.spec_ser() + ser_i32(c.property_class.index) + ser_i32(c.meta_class.index),
        FProperty::FBoolProperty(b) => b.generic_property.spec_ser() + seq![
            b.field_size, b.byte_offset, b.byte_mask, b.field_mask,
            if b.native_bool { 1u8 } else { 0u8 }, if b.value { 1u8 } else { 0u8 },
        ],
        FProperty::FObjectProperty(x) => x.generic_property.spec_ser() + ser_i32(x.index.index),
        FProperty::FSoftObjectProperty(x) => x.generic_property.spec_ser() + ser_i32(x.index.index),
        FProperty::FDelegateProperty(x) => x.generic_property.spec_ser() + ser_i32(x.index.index),
        FProperty::FMulticastDelegateProperty(x) => x.generic_property.spec_ser() + ser_i32(x.index.index),
        FProperty::FMulticastInlineDelegateProperty(x) => x.generic_property.spec_ser() + ser_i32(x.index.index),
        FProperty::FInterfaceProperty(x) => x.generic_property.spec_ser() + ser_i32(x.index.index),
        FProperty::FByteProperty(x) => x.generic_property.spec_ser() + ser_i32(x.index.index),
        FProperty::FStructProperty(x) => x.generic_property.spec_ser() + ser_i32(x.index.index),
        _ => Seq::empty(),
    }
}

/// The number of properties in `p`, itself and those it nests.
pub open spec fn property_count(p: FProperty) -> nat
    decreases p,
{
    match p {
        FProperty::FEnumProperty(e) => 1 + property_count(*e.underlying_prop),
        FProperty::FArrayProperty(x) => 1 + property_count(*x.inner),
        FProperty::FSetProperty(x) => 1 + property_count(*x.inner),
        FProperty::FMapProperty(m) => 1 + property_count(*m.key_prop) + property_count(*m.value_prop),
        _ => 1,
    }
}

/// Whether no generic property in `p` keeps a type whose index is `i32::MIN`, which has no
/// text without its sign.
pub open spec fn type_indices_ok(p: FProperty) -> bool
    decreases p,
{
    match p {
        FProperty::FGenericProperty(g) => match g.serialized_type {
            Some(t) => t.index != i32::MIN,
            None => true,
        },
        FProperty::FEnumProperty(e) => type_indices_ok(*e.underlying_prop),
        FProperty::FArrayProperty(x) => type_indices_ok(*x.inner),
        FProperty::FSetProperty(x) => type_indices_ok(*x.inner),
        FProperty::FMapProperty(m) => type_indices_ok(*m.key_prop) && type_indices_ok(*m.value_prop),
        _ => true,
    }
}

impl FProperty {
    /// The serialized type name of the property.
    pub fn to_serialized_name(&self, name_map: &NameMap) -> (r: String)
        requires type_indices_ok(*self),
        ensures r@ == serialized_name_of(*self, name_map.names()),
    {
        proof { reveal(serialized_name_of); }
        match self {
            FProperty::FGenericProperty(g) => match g.serialized_type {
                Some(t) => name_map.get_name_reference(t.index),
                None => String::from_str("Generic"),
            },
            FProperty::FEnumProperty(_) => String::from_str("EnumProperty"),
            FProperty::FArrayProperty(_) => String::from_str("ArrayProperty"),
            FProperty::FSetProperty(_) => String::from_str("SetProperty"),
            FProperty::FObjectProperty(_) => String::from_str("ObjectProperty"),
            FProperty::FSoftObjectProperty(_) => String::from_str("SoftObjectProperty"),
            FProperty::FClassProperty(_) => String::from_str("ClassProperty"),
            FProperty::FSoftClassProperty(_) => String::from_str("SoftClassProperty"),
            FProperty::FDelegateProperty(_) => String::from_str("DelegateProperty"),
            FProperty::FMulticastDelegateProperty(_) => String::from_str("MulticastDelegateProperty"),
            FProperty::FMulticastInlineDelegateProperty(_) => String::from_str("MulticastInlineDelegateProperty"),
            FProperty::FInterfaceProperty(_) => String::from_str("InterfaceProperty"),
            FProperty::FMapProperty(_) => String::from_str("MapProperty"),
            FProperty::FBoolProperty(_) => String::from_str("BoolProperty"),
            FProperty::FByteProperty(_) => String::from_str("ByteProperty"),
            FProperty::FStructProperty(_) => String::from_str("StructProperty"),
            FProperty::FNumericProperty(_) => String::from_str("NumericProperty"),
        }
    }

    /// Write an `FProperty` to an asset: the name of its serialized type, which is added to
    /// the name map, then its data.
    pub fn write(property: &FProperty, writer: &mut ByteWriter, name_map: &mut NameMap) -> (res: Result<(), Error>)
        requires
            old(name_map).wf(),
            old(name_map).names().len() + property_count(*property) < usize::MAX,
            type_indices_ok(*property),
        ensures
            res is Ok,
            final(name_map).wf(),
            final(writer).data@ == old(writer).data@ + ser_property(*property, old(name_map).names()).0,
            final(name_map).names() == ser_property(*property, old(name_map).names()).1,
            final(name_map).names().len() <= old(name_map).names().len() + property_count(*property),
        decreases property, 1int,
    {
        let ghost names0 = name_map.names();
        let serialized_name = property.to_serialized_name(name_map);
        proof { name_map.lemma_lookup_len(); }
        let f = name_map.add_fname(serialized_name.as_str());
        write_fname(writer, f);
        let ghost w1 = writer.data@;
        property.write_data(writer, name_map);
        proof {
            let (index, n1) = spec_add_name(names0, serialized_name_of(*property, names0));
            assert(f == NameIndex { index, number: 0 });
            assert(writer.data@ =~= old(writer).data@ + ser_property(*property, names0).0);
        }
        Ok(())
    }

    /// Write the data of a property, after its type name.
    fn write_data(&self, writer: &mut ByteWriter, name_map: &mut NameMap)
        requires
            old(name_map).wf(),
            old(name_map).names().len() + property_count(*self) <= usize::MAX,
            type_indices_ok(*self),
        ensures
            final(name_map).wf(),
            final(writer).data@ == old(writer).data@ + ser_data(*self, old(name_map).names()).0,
            final(name_map).names() == ser_data(*self, old(name_map).names()).1,
            final(name_map).names().len() + 1 <= old(name_map).names().len() + property_count(*self),
        decreases self, 0int,
    {
        match self {
            FProperty::FEnumProperty(e) => write_enum_data(e, writer, name_map),
            FProperty::FArrayProperty(x) => write_inner_data(x, writer, name_map),
            FProperty::FSetProperty(x) => write_inner_data(x, writer, name_map),
            FProperty::FMapProperty(m) => write_map_data(m, writer, name_map),
            _ => self.write_fixed_data(writer),
        }
    }

    /// Write the data of a property that nests no other.
    #[verifier::spinoff_prover]
    #[verifier::rlimit(40)]
    fn write_fixed_data(&self, writer: &mut ByteWriter)
        ensures final(writer).data@ == old(writer).data@ + ser_fixed(*self),
    {
        proof { reveal(ser_fixed); }
        let ghost d0 = writer.data@;
        match self {
            FProperty::FClassProperty(c) | FProperty::FSoftClassProperty(c) => {
                c.generic_property.write(writer);
                writer.write_i32(c.property_class.index);
                writer.write_i32(c.meta_class.index);
                assert(writer.data@ =~= d0 + ser_fixed(*self));
            },
            FProperty::FBoolProperty(b) => {
                b.generic_property.write(writer);
                writer.write_u8(b.field_size);
                writer.write_u8(b.byte_offset);
                writer.write_u8(b.byte_mask);
                writer.write_u8(b.field_mask);
                writer.write_u8(if b.native_bool { 1 } else { 0 });
                writer.write_u8(if b.value { 1 } else { 0 });
                assert(writer.data@ =~= d0 + ser_fixed(*self));
            },
            FProperty::FGenericProperty(g) | FProperty::FNumericProperty(g) => g.write(writer),
            FProperty::FObjectProperty(x) | FProperty::FSoftObjectProperty(x) | FProperty::FDelegateProperty(x)
                | FProperty::FMulticastDelegateProperty(x) | FProperty::FMulticastInlineDelegateProperty(x)
                | FProperty::FInterfaceProperty(x) | FProperty::FByteProperty(x) | FProperty::FStructProperty(x) => {
                x.generic_property.write(writer);
                writer.write_i32(x.index.index);
            },
            _ => {},
        }
    }
}

/// Write the enum value and underlying property of an enum property.
fn write_enum_data(e: &FEnumProperty, writer: &mut ByteWriter, name_map: &mut NameMap)
    requires
        old(name_map).wf(),
        old(name_map).names().len() + property_count(FProperty::FEnumProperty(*e)) <= usize::MAX,
        type_indices_ok(FProperty::FEnumProperty(*e)),
    ensures
        final(name_map).wf(),
        final(writer).data@ == old(writer).data@ + ser_data(FProperty::FEnumProperty(*e), old(name_map).names()).0,
        final(name_map).names() == ser_data(FProperty::FEnumProperty(*e), old(name_map).names()).1,
        final(name_map).names().len() + 1 <= old(name_map).names().len() + property_count(FProperty::FEnumProperty(*e)),
    decreases *e, 0int,
{
    let ghost d0 = writer.data@;
    e.generic_property.write(writer);
    writer.write_i32(e.enum_value.index);
    FProperty::write(&e.underlying_prop, writer, name_map);
    assert(writer.data@ =~= d0 + ser_data(FProperty::FEnumProperty(*e), old(name_map).names()).0);
}

/// Write the inner property of an array or set property.
fn write_inner_data(x: &FInnerProperty, writer: &mut ByteWriter, name_map: &mut NameMap)
    requires
        old(name_map).wf(),
        old(name_map).names().len() + property_count(FProperty::FArrayProperty(*x)) <= usize::MAX,
        type_indices_ok(FProperty::FArrayProperty(*x)),
    ensures
        final(name_map).wf(),
        final(writer).data@ == old(writer).data@ + ser_data(FProperty::FArrayProperty(*x), old(name_map).names()).0,
        final(writer).data@ == old(writer).data@ + ser_data(FProperty::FSetProperty(*x), old(name_map).names()).0,
        final(name_map).names() == ser_data(FProperty::FArrayProperty(*x), old(name_map).names()).1,
        final(name_map).names() == ser_data(FProperty::FSetProperty(*x), old(name_map).names()).1,
        final(name_map).names().len() + 1 <= old(name_map).names().len() + property_count(FProperty::FArrayProperty(*x)),
    decreases *x, 0int,
{
    let ghost d0 = writer.data@;
    x.generic_property.write(writer);
    FProperty::write(&x.inner, writer, name_map);
    assert(writer.data@ =~= d0 + ser_data(FProperty::FArrayProperty(*x), old(name_map).names()).0);
}

/// Write the key and value properties of a map property.
fn write_map_data(m: &FMapProperty, writer: &mut ByteWriter, name_map: &mut NameMap)
    requires
        old(name_map).wf(),
        old(name_map).names().len() + property_count(FProperty::FMapProperty(*m)) <= usize::MAX,
        type_indices_ok(FProperty::FMapProperty(*m)),
    ensures
        final(name_map).wf(),
        final(writer).data@ == old(writer).data@ + ser_data(FProperty::FMapProperty(*m), old(name_map).names()).0,
        final(name_map).names() == ser_data(FProperty::FMapProperty(*m), old(name_map).names()).1,
        final(name_map).names().len() + 1 <= old(name_map).names().len() + property_count(FProperty::FMapProperty(*m)),
    decreases *m, 0int,
{
    let ghost d0 = writer.data@;
    m.generic_property.write(writer);
    FProperty::write(&m.key_prop, writer, name_map);
    FProperty::write(&m.value_prop, writer, name_map);
    assert(writer.data@ =~= d0 + ser_data(FProperty::FMapProperty(*m), old(name_map).names()).0);
}

/// A boolean property at the start of `s`: its generic part, then its field size, byte offset,
/// byte mask, field mask and two flags.
pub open spec fn parse_bool_property(s: Seq<u8>, names: Seq<Seq<char>>) -> Option<(FBoolProperty, int)> {
    match parse_generic(s, names.len(), None) {
        Some((g, _)) => match parse_tail(rest(s, 39), names, FPropertyKind::BoolProperty, g) {
            Some((FProperty::FBoolProperty(b), k)) => Some((b, 39 + k)),
            _ => None,
        },
        None => None,
    }
}

/// An enum property at the start of `s`: its generic part, its enum value, then its
/// underlying property.
pub open spec fn parse_enum_property(s: Seq<u8>, names: Seq<Seq<char>>) -> Option<(FEnumProperty, int)> {
    match parse_generic(s, names.len(), None) {
        Some((g, _)) => match parse_tail(rest(s, 39), names, FPropertyKind::EnumProperty, g) {
            Some((FProperty::FEnumProperty(e), k)) => Some((e, 39 + k)),
            _ => None,
        },
        None => None,
    }
}

impl FBoolProperty {
    /// Read an `FBoolProperty` from an asset
    pub fn new(reader: &mut ByteReader, name_map: &NameMap) -> (res: Result<Self, Error>)
        ensures stepped(*old(reader), *final(reader), res, parse_bool_property(old(reader).remaining(), name_map.names())),
    {
        let ghost s = old(reader).remaining();
        let ghost r0 = *reader;
        let g = FGenericProperty::new(reader, name_map)?;
        proof { lemma_advance(r0, *reader); }
        let p = FProperty::read_fixed_tail(reader, FPropertyKind::BoolProperty, g)?;
        proof {
            assert(parse_tail(rest(s, 39), name_map.names(), FPropertyKind::BoolProperty, g) is Some);
        }
        match p {
            FProperty::FBoolProperty(b) => Ok(b),
            _ => {
                assert(false);
                Err(Error::eof())
            },
        }
    }

    /// Write an `FBoolProperty`: its generic part, then the field size, byte offset, byte mask
    /// and field mask bytes, then the native and value flags.
    pub fn write(&self, writer: &mut ByteWriter)
        ensures final(writer).data@ == old(writer).data@ + ser_fixed(FProperty::FBoolProperty(*self)),
    {
        proof { reveal(ser_fixed); }
        self.generic_property.write(writer);
        writer.write_u8(self.field_size);
        writer.write_u8(self.byte_offset);
        writer.write_u8(self.byte_mask);
        writer.write_u8(self.field_mask);
        writer.write_u8(if self.native_bool { 1u8 } else { 0u8 });
        writer.write_u8(if self.value { 1u8 } else { 0u8 });
        assert(final(writer).data@ =~= old(writer).data@ + ser_fixed(FProperty::FBoolProperty(*self)));
    }
}

impl FEnumProperty {
    /// Read an `FEnumProperty` from an asset
    pub fn new(reader: &mut ByteReader, name_map: &NameMap) -> (res: Result<Self, Error>)
        ensures stepped(*old(reader), *final(reader), res, parse_enum_property(old(reader).remaining(), name_map.names())),
    {
        let ghost s = old(reader).remaining();
        let ghost r0 = *reader;
        let g = FGenericProperty::new(reader, name_map)?;
        proof { lemma_advance(r0, *reader); }
        let p = FProperty::read_enum_tail(reader, name_map, FPropertyKind::EnumProperty, g)?;
        match p {
            FProperty::FEnumProperty(e) => Ok(e),
            _ => {
                assert(false);
                Err(Error::eof())
            },
        }
    }
}

} // verus!
