//! The fields that a class export adds to those of a struct export: its function map, class
//! flags, interfaces and default object, in the order and form of the object version.

use vstd::prelude::*;
use crate::archive::{ByteReader, ByteWriter, Record, rest, parse_i32, parse_repeat, ser_repeat, ser_i32, ser_u32,
    record_parser, record_writer, read_repeat, write_repeat, models, lemma_advance, lemma_repeat_step,
    lemma_repeat_none, lemma_repeat_roundtrip, lemma_ser_values, lemma_parse_ints};
use crate::asset::name_map::{NameMap, parse_fname, ser_fname, read_fname, write_fname};
use crate::error::Error;
use crate::types::{NameIndex, PackageIndex};
use super::base_export::{i32_at, u32_in};

verus! {

/// From this object version on, a class says whether it was cooked.
pub const VER_UE4_ADD_COOKED_TO_UCLASS: i32 = 241;

/// Before this object version, the not-placeable class flag was stored inverted.
pub const VER_UE4_CLASS_NOTPLACEABLE_ADDED: i32 = 315;

/// From this object version on, a class's interfaces follow the index of what generated it.
pub const VER_UE4_UCLASS_SERIALIZE_INTERFACES_AFTER_LINKING: i32 = 361;

/// The class flag of classes that cannot be placed in a level.
pub const CLASS_NOT_PLACEABLE: u32 = 0x0000_0200;

/// A reference to an interface that a class implements
#[derive(Debug, Clone, Copy, PartialEq, Eq, Hash, Structural)]
pub struct SerializedInterfaceReference {
    /// Class
    pub class: i32,
    /// Pointer offset
    pub pointer_offset: i32,
    /// Is implemented by K2
    pub implemented_by_k2: bool,
}

impl SerializedInterfaceReference {
    /// Create a new `SerializedInterfaceReference` instance
    pub fn new(class: i32, pointer_offset: i32, implemented_by_k2: bool) -> (r: Self)
        ensures r == (SerializedInterfaceReference { class, pointer_offset, implemented_by_k2 }),
    {
        SerializedInterfaceReference { class, pointer_offset, implemented_by_k2 }
    }

    /// The reference at the start of `s`: three `i32`s, the last one `1` where a blueprint
    /// implements the interface.
    pub open spec fn spec_parse(s: Seq<u8>) -> Option<(Self, int)> {
        if s.len() >= 12 {
            Some((SerializedInterfaceReference {
                class: i32_at(s, 0),
                pointer_offset: i32_at(s, 4),
                implemented_by_k2: i32_at(s, 8) == 1,
            }, 12))
        } else {
            None
        }
    }

    /// The encoding of the reference.
    pub open spec fn spec_ser(self) -> Seq<u8> {
        ser_i32(self.class) + ser_i32(self.pointer_offset) + ser_i32(if self.implemented_by_k2 { 1 } else { 0 })
    }

    /// Reading back the encoding of a reference gives the reference.
    pub proof fn lemma_roundtrip(self, r: Seq<u8>)
        ensures
            self.spec_ser().len() == 12,
            Self::spec_parse(self.spec_ser() + r) == Some((self, 12int)),
    {
        let k: i32 = if self.implemented_by_k2 { 1 } else { 0 };
        lemma_ser_values(0, 0, 0, self.class, 0);
        lemma_ser_values(0, 0, 0, self.pointer_offset, 0);
        lemma_ser_values(0, 0, 0, k, 0);
        let s = self.spec_ser() + r;
        assert(s.subrange(0, 4) =~= ser_i32(self.class));
        assert(s.subrange(4, 8) =~= ser_i32(self.pointer_offset));
        assert(s.subrange(8, 12) =~= ser_i32(k));
    }
}

impl Record for SerializedInterfaceReference {
    type Model = SerializedInterfaceReference;

    open spec fn model(v: SerializedInterfaceReference) -> SerializedInterfaceReference { v }

    open spec fn parse_model(s: Seq<u8>) -> Option<(SerializedInterfaceReference, int)> {
        SerializedInterfaceReference::spec_parse(s)
    }

    open spec fn ser_model(m: SerializedInterfaceReference) -> Seq<u8> { m.spec_ser() }

    fn read_from(reader: &mut ByteReader) -> (res: Result<SerializedInterfaceReference, Error>) {
        let b = reader.read_record(12)?;
        let s = b.as_slice();
        let r = SerializedInterfaceReference {
            class: crate::archive::u32_at(s, 0) as i32,
            pointer_offset: crate::archive::u32_at(s, 4) as i32,
            implemented_by_k2: crate::archive::u32_at(s, 8) as i32 == 1,
        };
        proof {
            let rem = old(reader).remaining();
            assert(b@.subrange(0, 4) =~= rem.subrange(0, 4));
            assert(b@.subrange(4, 8) =~= rem.subrange(4, 8));
            assert(b@.subrange(8, 12) =~= rem.subrange(8, 12));
        }
        Ok(r)
    }

    fn write_to(&self, writer: &mut ByteWriter) {
        writer.write_i32(self.class);
        writer.write_i32(self.pointer_offset);
        writer.write_i32(if self.implemented_by_k2 { 1 } else { 0 });
        assert(final(writer).data@ =~= old(writer).data@ + self.spec_ser());
    }
}

/// An entry of a function map at the start of `s`: the function's name, which must lie in a
/// name map of `n` names, then the index of its export.
pub open spec fn spec_parse_func_entry(s: Seq<u8>, n: nat) -> Option<((NameIndex, PackageIndex), int)> {
    match parse_fname(s, n) {
        Some((name, _)) => if s.len() >= 12 {
            Some(((name, PackageIndex { index: i32_at(s, 8) }), 12))
        } else {
            None
        },
        None => None,
    }
}

/// The parser of a function map entry, as a function value.
pub open spec fn func_entry_parser(n: nat) -> spec_fn(Seq<u8>) -> Option<((NameIndex, PackageIndex), int)> {
    |s: Seq<u8>| spec_parse_func_entry(s, n)
}

/// The encoding of a function map entry.
pub open spec fn ser_func_entry(e: (NameIndex, PackageIndex)) -> Seq<u8> {
    ser_fname(e.0) + ser_i32(e.1.index)
}

/// The encoder of a function map entry, as a function value.
pub open spec fn func_entry_writer() -> spec_fn((NameIndex, PackageIndex)) -> Seq<u8> {
    |e: (NameIndex, PackageIndex)| ser_func_entry(e)
}

/// A count at the start of `s` as an `i32`, then that many values read by `f`; a negative
/// count is invalid.
pub open spec fn spec_parse_counted<T>(s: Seq<u8>, f: spec_fn(Seq<u8>) -> Option<(T, int)>) -> Option<(Seq<T>, int)> {
    match parse_i32(s) {
        Some((c, _)) => if c < 0 {
            None
        } else {
            match parse_repeat(rest(s, 4), c as nat, f) {
                Some((v, k)) => Some((v, 4 + k)),
                None => None,
            }
        },
        None => None,
    }
}

/// Read a function map entry.
fn read_func_entry(reader: &mut ByteReader, name_map: &NameMap) -> (res: Result<(NameIndex, PackageIndex), Error>)
    ensures
        final(reader).data@ == old(reader).data@,
        match res {
            Ok(e) => spec_parse_func_entry(old(reader).remaining(), name_map.names().len())
                == Some((e, final(reader).pos - old(reader).pos)),
            Err(_) => spec_parse_func_entry(old(reader).remaining(), name_map.names().len()) is None,
        },
        res is Ok ==> old(reader).pos <= final(reader).pos
            && final(reader).pos - old(reader).pos <= old(reader).remaining().len(),
{
    let ghost s = old(reader).remaining();
    let ghost r0 = *reader;
    let name = read_fname(reader, name_map)?;
    proof { lemma_advance(r0, *reader); }
    let ghost r1 = *reader;
    let index = reader.read_i32()?;
    proof {
        lemma_advance(r1, *reader);
        assert(rest(s, 8).take(4) =~= s.subrange(8, 12));
    }
    Ok((name, PackageIndex::new(index)))
}

/// Read a function map: a count, then that many entries.
fn read_func_map(reader: &mut ByteReader, name_map: &NameMap) -> (res: Result<Vec<(NameIndex, PackageIndex)>, Error>)
    ensures
        final(reader).data@ == old(reader).data@,
        match res {
            Ok(v) => spec_parse_counted(old(reader).remaining(), func_entry_parser(name_map.names().len()))
                == Some((v@, final(reader).pos - old(reader).pos)),
            Err(_) => spec_parse_counted(old(reader).remaining(), func_entry_parser(name_map.names().len())) is None,
        },
        res is Ok ==> old(reader).pos <= final(reader).pos
            && final(reader).pos - old(reader).pos <= old(reader).remaining().len(),
{
    let ghost s0 = old(reader).remaining();
    let ghost f = func_entry_parser(name_map.names().len());
    let ghost r0 = *reader;
    let count = reader.read_i32()?;
    if count < 0 {
        return Err(Error::invalid_file(String::from_str("Negative function count")));
    }
    proof { lemma_advance(r0, *reader); }
    let ghost s = reader.remaining();
    let ghost p0 = reader.pos;
    let n: u32 = count as u32;
    let mut v: Vec<(NameIndex, PackageIndex)> = Vec::new();
    let mut i: u32 = 0;
    proof { assert(rest(s, 0) =~= s); }
    while i < n
        invariant
            i <= n,
            n == count,
            count >= 0,
            parse_i32(s0) == Some((count, 4int)),
            reader.data@ == old(reader).data@,
            s0 == old(reader).remaining(),
            s == rest(s0, 4),
            p0 == old(reader).pos + 4,
            f == func_entry_parser(name_map.names().len()),
            p0 <= reader.pos,
            reader.pos - p0 <= s.len(),
            reader.remaining() == rest(s, reader.pos - p0),
            parse_repeat(s, i as nat, f) == Some((v@, reader.pos - p0)),
        decreases n - i,
    {
        let ghost r1 = *reader;
        let ghost k = reader.pos - p0;
        let e = match read_func_entry(reader, name_map) {
            Ok(e) => e,
            Err(err) => {
                proof {
                    lemma_repeat_step(s, (i + 1) as nat, f);
                    assert((i + 1) as nat - 1 == i as nat);
                    lemma_repeat_none(s, (i + 1) as nat, n as nat, f);
                }
                return Err(err);
            },
        };
        proof {
            lemma_advance(r1, *reader);
            lemma_repeat_step(s, (i + 1) as nat, f);
            assert((i + 1) as nat - 1 == i as nat);
            assert(rest(rest(s, k), reader.pos - r1.pos) =~= rest(s, reader.pos - p0));
        }
        v.push(e);
        i = i + 1;
    }
    Ok(v)
}

/// Read a count, then that many interface references.
fn read_interfaces(reader: &mut ByteReader) -> (res: Result<Vec<SerializedInterfaceReference>, Error>)
    ensures
        final(reader).data@ == old(reader).data@,
        match res {
            Ok(v) => spec_parse_counted(old(reader).remaining(), record_parser::<SerializedInterfaceReference>())
                == Some((v@, final(reader).pos - old(reader).pos)),
            Err(_) => spec_parse_counted(old(reader).remaining(), record_parser::<SerializedInterfaceReference>()) is None,
        },
        res is Ok ==> old(reader).pos <= final(reader).pos
            && final(reader).pos - old(reader).pos <= old(reader).remaining().len(),
{
    let ghost s0 = old(reader).remaining();
    let ghost r0 = *reader;
    let count = reader.read_i32()?;
    if count < 0 {
        return Err(Error::invalid_file(String::from_str("Negative interface count")));
    }
    proof { lemma_advance(r0, *reader); }
    let ghost r1 = *reader;
    let v: Vec<SerializedInterfaceReference> = read_repeat(reader, count as u32)?;
    proof {
        lemma_advance(r1, *reader);
        assert(models(v@) =~= v@);
    }
    Ok(v)
}

/// The fields that a class export adds to those of its struct export.
pub struct ClassExport {
    /// The class's functions: each one's name and export, in the order read
    pub func_map: Vec<(NameIndex, PackageIndex)>,
    /// Class flags
    pub class_flags: u32,
    /// The class whose objects alone may own objects of this class
    pub class_within: PackageIndex,
    /// The name of the class's configuration
    pub class_config_name: NameIndex,
    /// Interfaces that the class implements
    pub interfaces: Vec<SerializedInterfaceReference>,
    /// What generated the class
    pub class_generated_by: PackageIndex,
    /// Whether the script order is forced, a deprecated setting
    pub deprecated_force_script_order: bool,
    /// Whether the class was cooked, from the object version that stores it on
    pub cooked: Option<bool>,
    /// The class default object
    pub class_default_object: PackageIndex,
}

/// The fields that a class export adds, as values.
pub struct ClassExportView {
    /// Function names and exports
    pub func_map: Seq<(NameIndex, PackageIndex)>,
    /// Class flags
    pub class_flags: u32,
    /// Class-within index
    pub class_within: PackageIndex,
    /// Config name
    pub class_config_name: NameIndex,
    /// Interfaces
    pub interfaces: Seq<SerializedInterfaceReference>,
    /// Generated-by index
    pub class_generated_by: PackageIndex,
    /// Deprecated script order
    pub deprecated_force_script_order: bool,
    /// Whether cooked, where stored
    pub cooked: Option<bool>,
    /// Default object
    pub class_default_object: PackageIndex,
}

impl View for ClassExport {
    type V = ClassExportView;

    open spec fn view(&self) -> ClassExportView {
        ClassExportView {
            func_map: self.func_map@,
            class_flags: self.class_flags,
            class_within: self.class_within,
            class_config_name: self.class_config_name,
            interfaces: self.interfaces@,
            class_generated_by: self.class_generated_by,
            deprecated_force_script_order: self.deprecated_force_script_order,
            cooked: self.cooked,
            class_default_object: self.class_default_object,
        }
    }
}

/// The class flags that stored flags stand for: before the object version that added the
/// not-placeable flag, that flag is stored inverted.
pub open spec fn class_flags_of(stored: u32, ov: i32) -> u32 {
    if ov < VER_UE4_CLASS_NOTPLACEABLE_ADDED { stored ^ CLASS_NOT_PLACEABLE } else { stored }
}

/// The number of bytes after the generated-by index: the deprecated script order, eight
/// skipped bytes, whether the class was cooked where the object version stores it, and the
/// default object.
pub open spec fn class_tail_len(ov: i32) -> int {
    if ov >= VER_UE4_ADD_COOKED_TO_UCLASS { 20 } else { 16 }
}

/// The interfaces and the generated-by index at the start of `s`: before the object version
/// that serializes interfaces after linking, the interfaces come first.
pub open spec fn spec_parse_links(s: Seq<u8>, ov: i32) -> Option<((Seq<SerializedInterfaceReference>, PackageIndex), int)> {
    if ov < VER_UE4_UCLASS_SERIALIZE_INTERFACES_AFTER_LINKING {
        match spec_parse_counted(s, record_parser::<SerializedInterfaceReference>()) {
            Some((is, k)) => if rest(s, k).len() >= 4 {
                Some(((is, PackageIndex { index: i32_at(rest(s, k), 0) }), k + 4))
            } else {
                None
            },
            None => None,
        }
    } else if s.len() >= 4 {
        match spec_parse_counted(rest(s, 4), record_parser::<SerializedInterfaceReference>()) {
            Some((is, k)) => Some(((is, PackageIndex { index: i32_at(s, 0) }), 4 + k)),
            None => None,
        }
    } else {
        None
    }
}

/// The class fields at the start of `s`, for a name map of `n` names and the object version
/// `ov`: the function map; the stored class flags, the class-within index and the config name;
/// the interfaces and the generated-by index; then the tail of `class_tail_len(ov)` bytes.
pub open spec fn spec_parse_class_fields(s: Seq<u8>, n: nat, ov: i32) -> Option<(ClassExportView, int)> {
    match spec_parse_counted(s, func_entry_parser(n)) {
        None => None,
        Some((fm, k0)) => {
            let s1 = rest(s, k0);
            if s1.len() < 8 {
                None
            } else {
                match parse_fname(rest(s1, 8), n) {
                    None => None,
                    Some((config, _)) => {
                        let s2 = rest(s1, 16);
                        match spec_parse_links(s2, ov) {
                            None => None,
                            Some(((is, generated_by), k2)) => {
                                let s3 = rest(s2, k2);
                                let t = class_tail_len(ov);
                                if s3.len() < t {
                                    None
                                } else {
                                    Some((ClassExportView {
                                        func_map: fm,
                                        class_flags: class_flags_of(u32_in(s1, 0), ov),
                                        class_within: PackageIndex { index: i32_at(s1, 4) },
                                        class_config_name: config,
                                        interfaces: is,
                                        class_generated_by: generated_by,
                                        deprecated_force_script_order: i32_at(s3, 0) == 1,
                                        cooked: if ov >= VER_UE4_ADD_COOKED_TO_UCLASS { Some(i32_at(s3, 12) == 1) } else { None },
                                        class_default_object: PackageIndex { index: i32_at(s3, t - 4) },
                                    }, k0 + 16 + k2 + t))
                                }
                            },
                        }
                    },
                }
            }
        },
    }
}

/// Read the interfaces and the generated-by index in the order of the object version.
fn read_links(reader: &mut ByteReader, ov: i32) -> (res: Result<(Vec<SerializedInterfaceReference>, PackageIndex), Error>)
    ensures
        final(reader).data@ == old(reader).data@,
        match res {
            Ok(v) => spec_parse_links(old(reader).remaining(), ov) == Some(((v.0@, v.1), final(reader).pos - old(reader).pos)),
            Err(_) => spec_parse_links(old(reader).remaining(), ov) is None,
        },
        res is Ok ==> old(reader).pos <= final(reader).pos
            && final(reader).pos - old(reader).pos <= old(reader).remaining().len(),
{
    let ghost s = old(reader).remaining();
    let ghost r0 = *reader;
    if ov < VER_UE4_UCLASS_SERIALIZE_INTERFACES_AFTER_LINKING {
        let is = read_interfaces(reader)?;
        proof { lemma_advance(r0, *reader); }
        let ghost r1 = *reader;
        let g = reader.read_i32()?;
        proof {
            lemma_advance(r1, *reader);
            assert(r1.remaining().take(4) =~= r1.remaining().subrange(0, 4));
        }
        Ok((is, PackageIndex::new(g)))
    } else {
        let g = reader.read_i32()?;
        proof {
            lemma_advance(r0, *reader);
            assert(s.take(4) =~= s.subrange(0, 4));
        }
        let is = read_interfaces(reader)?;
        Ok((is, PackageIndex::new(g)))
    }
}

/// Read the fields that a class export adds to its struct export, for the object version `ov`.
/// Negative counts of functions or interfaces are invalid.
pub fn read_class_fields(reader: &mut ByteReader, name_map: &NameMap, ov: i32) -> (res: Result<ClassExport, Error>)
    ensures
        final(reader).data@ == old(reader).data@,
        match res {
            Ok(c) => spec_parse_class_fields(old(reader).remaining(), name_map.names().len(), ov)
                == Some((c@, final(reader).pos - old(reader).pos)),
            Err(_) => spec_parse_class_fields(old(reader).remaining(), name_map.names().len(), ov) is None,
        },
{
    let ghost s = old(reader).remaining();
    let ghost n = name_map.names().len();
    let ghost r0 = *reader;
    let func_map = read_func_map(reader, name_map)?;
    proof { lemma_advance(r0, *reader); }
    let ghost r1 = *reader;
    let ghost s1 = r1.remaining();
    let head = reader.read_record(8)?;
    let stored_flags = crate::archive::u32_at(head.as_slice(), 0);
    let within = crate::archive::u32_at(head.as_slice(), 4) as i32;
    proof {
        assert(head@.subrange(0, 4) =~= s1.subrange(0, 4));
        assert(head@.subrange(4, 8) =~= s1.subrange(4, 8));
        lemma_advance(r1, *reader);
    }
    let ghost r2 = *reader;
    let config = read_fname(reader, name_map)?;
    proof {
        lemma_advance(r2, *reader);
        assert(rest(rest(s1, 8), 8) =~= rest(s1, 16));
    }
    let ghost r3 = *reader;
    let (interfaces, generated_by) = read_links(reader, ov)?;
    proof { lemma_advance(r3, *reader); }
    let ghost s3 = reader.remaining();
    let cooked_stored = ov >= VER_UE4_ADD_COOKED_TO_UCLASS;
    let t: usize = if cooked_stored { 20 } else { 16 };
    let tail = reader.read_record(t)?;
    let ts = tail.as_slice();
    let deprecated = crate::archive::u32_at(ts, 0) as i32 == 1;
    let cooked = if cooked_stored { Some(crate::archive::u32_at(ts, 12) as i32 == 1) } else { None };
    let cdo = crate::archive::u32_at(ts, t - 4) as i32;
    proof {
        assert(tail@.subrange(0, 4) =~= s3.subrange(0, 4));
        assert(tail@.subrange(12, 16) =~= s3.subrange(12, 16));
        assert(tail@.subrange(t - 4, t as int) =~= s3.subrange(t - 4, t as int));
    }
    let class_flags = if ov < VER_UE4_CLASS_NOTPLACEABLE_ADDED { stored_flags ^ CLASS_NOT_PLACEABLE } else { stored_flags };
    Ok(ClassExport {
        func_map,
        class_flags,
        class_within: PackageIndex::new(within),
        class_config_name: config,
        interfaces,
        class_generated_by: generated_by,
        deprecated_force_script_order: deprecated,
        cooked,
        class_default_object: PackageIndex::new(cdo),
    })
}

/// A count as an `i32`, then the encodings of `items`.
pub open spec fn ser_counted<T>(items: Seq<T>, g: spec_fn(T) -> Seq<u8>) -> Seq<u8> {
    ser_i32(items.len() as i32) + ser_repeat(items, g)
}

/// The encoding of the interfaces and the generated-by index, in the order of the object version.
pub open spec fn ser_links(is: Seq<SerializedInterfaceReference>, generated_by: PackageIndex, ov: i32) -> Seq<u8> {
    if ov < VER_UE4_UCLASS_SERIALIZE_INTERFACES_AFTER_LINKING {
        ser_counted(is, record_writer::<SerializedInterfaceReference>()) + ser_i32(generated_by.index)
    } else {
        ser_i32(generated_by.index) + ser_counted(is, record_writer::<SerializedInterfaceReference>())
    }
}

/// The encoding of a boolean as an `i32`.
pub open spec fn ser_bool_i32(b: bool) -> Seq<u8> {
    ser_i32(if b { 1 } else { 0 })
}

/// The encoding of the bytes after the generated-by index; the name `none_name` fills the eight
/// bytes that readers skip.
pub open spec fn ser_class_tail(v: ClassExportView, ov: i32, none_name: NameIndex) -> Seq<u8> {
    ser_bool_i32(v.deprecated_force_script_order) + ser_fname(none_name)
        + (if ov >= VER_UE4_ADD_COOKED_TO_UCLASS {
            ser_bool_i32(v.cooked.unwrap())
        } else {
            Seq::empty()
        })
        + ser_i32(v.class_default_object.index)
}

/// The encoding of the function map, the class flags as stored, the class-within index and the
/// config name.
pub open spec fn ser_class_head(v: ClassExportView, ov: i32) -> Seq<u8> {
    ser_counted(v.func_map, func_entry_writer())
        + ser_u32(class_flags_of(v.class_flags, ov)) + ser_i32(v.class_within.index)
        + ser_fname(v.class_config_name)
}

/// The encoding of class fields for the object version `ov`.
pub open spec fn ser_class_fields(v: ClassExportView, ov: i32, none_name: NameIndex) -> Seq<u8> {
    ser_class_head(v, ov)
        + ser_links(v.interfaces, v.class_generated_by, ov)
        + ser_class_tail(v, ov, none_name)
}

/// Write a boolean as an `i32`.
fn write_bool_i32(writer: &mut ByteWriter, b: bool)
    ensures final(writer).data@ == old(writer).data@ + ser_bool_i32(b),
{
    writer.write_i32(if b { 1 } else { 0 });
}

/// Write the interfaces: their count, then each one.
fn write_interfaces(writer: &mut ByteWriter, is: &Vec<SerializedInterfaceReference>)
    ensures final(writer).data@ == old(writer).data@ + ser_counted(is@, record_writer::<SerializedInterfaceReference>()),
{
    writer.write_i32(is.len() as i32);
    write_repeat(is, writer);
    assert(models(is@) =~= is@);
    assert(final(writer).data@ =~= old(writer).data@ + ser_counted(is@, record_writer::<SerializedInterfaceReference>()));
}

/// Write a function map: its count, then each name and export index.
fn write_func_map(writer: &mut ByteWriter, fm: &Vec<(NameIndex, PackageIndex)>)
    ensures final(writer).data@ == old(writer).data@ + ser_counted(fm@, func_entry_writer()),
{
    writer.write_i32(fm.len() as i32);
    let ghost d0 = writer.data@;
    let mut i: usize = 0;
    proof {
        assert(fm@.take(0) =~= Seq::<(NameIndex, PackageIndex)>::empty());
        assert(writer.data@ =~= d0 + ser_repeat(fm@.take(0), func_entry_writer()));
    }
    while i < fm.len()
        invariant
            i <= fm.len(),
            d0 == old(writer).data@ + ser_i32(fm@.len() as i32),
            writer.data@ == d0 + ser_repeat(fm@.take(i as int), func_entry_writer()),
        decreases fm.len() - i,
    {
        let (name, index) = fm[i];
        write_fname(writer, name);
        writer.write_i32(index.index);
        proof {
            let m = fm@.take(i + 1);
            assert(m.drop_last() =~= fm@.take(i as int));
            assert(m.last() == fm@[i as int]);
            assert(writer.data@ =~= d0 + ser_repeat(m, func_entry_writer()));
        }
        i = i + 1;
    }
    assert(fm@.take(fm.len() as int) =~= fm@);
    assert(final(writer).data@ =~= old(writer).data@ + ser_counted(fm@, func_entry_writer()));
}

/// Write the function map, the class flags as stored, the class-within index and the config name.
fn write_class_head(fields: &ClassExport, writer: &mut ByteWriter, ov: i32)
    ensures final(writer).data@ == old(writer).data@ + ser_class_head(fields@, ov),
{
    write_func_map(writer, &fields.func_map);
    let stored = if ov < VER_UE4_CLASS_NOTPLACEABLE_ADDED { fields.class_flags ^ CLASS_NOT_PLACEABLE } else { fields.class_flags };
    writer.write_u32(stored);
    writer.write_i32(fields.class_within.index);
    write_fname(writer, fields.class_config_name);
    assert(final(writer).data@ =~= old(writer).data@ + ser_class_head(fields@, ov));
}

/// Write the interfaces and the generated-by index in the order of the object version.
fn write_links(fields: &ClassExport, writer: &mut ByteWriter, ov: i32)
    ensures final(writer).data@ == old(writer).data@ + ser_links(fields.interfaces@, fields.class_generated_by, ov),
{
    if ov < VER_UE4_UCLASS_SERIALIZE_INTERFACES_AFTER_LINKING {
        write_interfaces(writer, &fields.interfaces);
        writer.write_i32(fields.class_generated_by.index);
    } else {
        writer.write_i32(fields.class_generated_by.index);
        write_interfaces(writer, &fields.interfaces);
    }
    assert(final(writer).data@ =~= old(writer).data@ + ser_links(fields.interfaces@, fields.class_generated_by, ov));
}

/// Write what follows the generated-by index.
fn write_class_tail(fields: &ClassExport, writer: &mut ByteWriter, ov: i32, none_name: NameIndex)
    requires ov >= VER_UE4_ADD_COOKED_TO_UCLASS ==> fields.cooked is Some,
    ensures final(writer).data@ == old(writer).data@ + ser_class_tail(fields@, ov, none_name),
{
    write_bool_i32(writer, fields.deprecated_force_script_order);
    write_fname(writer, none_name);
    if ov >= VER_UE4_ADD_COOKED_TO_UCLASS {
        match fields.cooked {
            Some(c) => write_bool_i32(writer, c),
            None => {},
        }
    }
    writer.write_i32(fields.class_default_object.index);
    assert(final(writer).data@ =~= old(writer).data@ + ser_class_tail(fields@, ov, none_name));
}

/// Write the fields that a class export adds, for the object version `ov`; `none_name` is the
/// name written where readers skip eight bytes. From the object version that stores whether a
/// class was cooked on, fields that do not say so are refused, and nothing is written.
pub fn write_class_fields(fields: &ClassExport, writer: &mut ByteWriter, ov: i32, none_name: NameIndex) -> (res: Result<(), Error>)
    ensures
        res is Err <==> (ov >= VER_UE4_ADD_COOKED_TO_UCLASS && fields.cooked is None),
        res is Ok ==> final(writer).data@ == old(writer).data@ + ser_class_fields(fields@, ov, none_name),
        res is Err ==> final(writer).data@ == old(writer).data@,
        res matches Err(e) ==> (e matches Error::NoData(m)
            && m@ == "engine_version >= UE4_ADD_COOKED_TO_UCLASS but cooked is None"@),
{
    if ov >= VER_UE4_ADD_COOKED_TO_UCLASS && fields.cooked.is_none() {
        return Err(Error::no_data(String::from_str("engine_version >= UE4_ADD_COOKED_TO_UCLASS but cooked is None")));
    }
    let ghost d0 = writer.data@;
    write_class_head(fields, writer, ov);
    write_links(fields, writer, ov);
    write_class_tail(fields, writer, ov, none_name);
    assert(writer.data@ =~= d0 + ser_class_fields(fields@, ov, none_name));
    Ok(())
}

/// Reading back the encoding of a function map entry, whose name lies in a name map of `n`
/// names, gives the entry.
proof fn lemma_func_entry_roundtrip(e: (NameIndex, PackageIndex), n: nat, r: Seq<u8>)
    requires 0 <= e.0.index < n,
    ensures
        ser_func_entry(e).len() == 12,
        spec_parse_func_entry(ser_func_entry(e) + r, n) == Some((e, 12int)),
{
    lemma_ser_values(0, 0, 0, e.0.index, 0);
    lemma_ser_values(0, 0, 0, e.0.number, 0);
    lemma_ser_values(0, 0, 0, e.1.index, 0);
    let s = ser_func_entry(e) + r;
    assert(s.subrange(0, 4) =~= ser_i32(e.0.index));
    assert(s.subrange(4, 8) =~= ser_i32(e.0.number));
    assert(s.subrange(8, 12) =~= ser_i32(e.1.index));
}

/// Reading back a count and the encodings of `items` gives the items, when reading back each
/// one does.
proof fn lemma_counted_roundtrip<T>(items: Seq<T>, f: spec_fn(Seq<u8>) -> Option<(T, int)>, g: spec_fn(T) -> Seq<u8>, r: Seq<u8>)
    requires
        items.len() <= i32::MAX,
        forall|i: int, x: Seq<u8>| 0 <= i < items.len() ==> #[trigger] f(g(items[i]) + x) == Some((items[i], g(items[i]).len() as int)),
    ensures
        spec_parse_counted(ser_counted(items, g) + r, f) == Some((items, ser_counted(items, g).len() as int)),
{
    let body = ser_repeat(items, g);
    let s = ser_counted(items, g) + r;
    lemma_parse_ints(0, 0, 0, items.len() as i32, 0, body + r);
    lemma_ser_values(0, 0, 0, items.len() as i32, 0);
    assert(s =~= ser_i32(items.len() as i32) + (body + r));
    assert(rest(s, 4) =~= body + r);
    lemma_repeat_roundtrip(items, f, g, r);
}

/// Reading back the encoding of interfaces and a generated-by index gives them.
proof fn lemma_links_roundtrip(is: Seq<SerializedInterfaceReference>, generated_by: PackageIndex, ov: i32, r: Seq<u8>)
    requires is.len() <= i32::MAX,
    ensures
        spec_parse_links(ser_links(is, generated_by, ov) + r, ov)
            == Some(((is, generated_by), ser_links(is, generated_by, ov).len() as int)),
{
    let f = record_parser::<SerializedInterfaceReference>();
    let g = record_writer::<SerializedInterfaceReference>();
    assert forall|i: int, x: Seq<u8>| 0 <= i < is.len() implies #[trigger] f(g(is[i]) + x) == Some((is[i], g(is[i]).len() as int)) by {
        is[i].lemma_roundtrip(x);
    }
    let c = ser_counted(is, g);
    let gi = ser_i32(generated_by.index);
    lemma_ser_values(0, 0, 0, generated_by.index, 0);
    if ov < VER_UE4_UCLASS_SERIALIZE_INTERFACES_AFTER_LINKING {
        let s = ser_links(is, generated_by, ov) + r;
        assert(s =~= c + (gi + r));
        lemma_counted_roundtrip(is, f, g, gi + r);
        assert(rest(s, c.len() as int) =~= gi + r);
        assert((gi + r).subrange(0, 4) =~= gi);
    } else {
        let s = ser_links(is, generated_by, ov) + r;
        assert(s =~= gi + (c + r));
        assert(rest(s, 4) =~= c + r);
        assert(s.subrange(0, 4) =~= gi);
        lemma_counted_roundtrip(is, f, g, r);
    }
}

/// What a reader finds in the encoding of the head of class fields, whatever follows it.
proof fn lemma_head_parse(v: ClassExportView, n: nat, ov: i32, x: Seq<u8>)
    requires
        v.func_map.len() <= i32::MAX,
        forall|i: int| 0 <= i < v.func_map.len() ==> 0 <= #[trigger] v.func_map[i].0.index < n,
        0 <= v.class_config_name.index < n,
    ensures ({
        let s = ser_class_head(v, ov) + x;
        let k = ser_counted(v.func_map, func_entry_writer()).len() as int;
        let s1 = rest(s, k);
        &&& spec_parse_counted(s, func_entry_parser(n)) == Some((v.func_map, k))
        &&& s1.len() >= 8
        &&& class_flags_of(u32_in(s1, 0), ov) == v.class_flags
        &&& i32_at(s1, 4) == v.class_within.index
        &&& parse_fname(rest(s1, 8), n) == Some((v.class_config_name, 8int))
        &&& rest(s1, 16) == x
        &&& ser_class_head(v, ov).len() == k + 16
    }),
{
    let f = func_entry_parser(n);
    let g = func_entry_writer();
    assert forall|i: int, y: Seq<u8>| 0 <= i < v.func_map.len() implies #[trigger] f(g(v.func_map[i]) + y)
        == Some((v.func_map[i], g(v.func_map[i]).len() as int)) by {
        lemma_func_entry_roundtrip(v.func_map[i], n, y);
    }
    let a = ser_counted(v.func_map, g);
    let stored = class_flags_of(v.class_flags, ov);
    let b = ser_u32(stored) + ser_i32(v.class_within.index);
    let c = ser_fname(v.class_config_name);
    let s = ser_class_head(v, ov) + x;
    assert(s =~= a + (b + (c + x)));
    lemma_counted_roundtrip(v.func_map, f, g, b + (c + x));
    let s1 = rest(s, a.len() as int);
    assert(s1 =~= b + (c + x));
    lemma_ser_values(0, stored, 0, v.class_within.index, 0);
    assert(s1.subrange(0, 4) =~= ser_u32(stored));
    assert(s1.subrange(4, 8) =~= ser_i32(v.class_within.index));
    assert(class_flags_of(stored, ov) == v.class_flags) by {
        let y = v.class_flags;
        assert((y ^ 0x200u32) ^ 0x200u32 == y) by (bit_vector);
    }
    let s1c = rest(s1, 8);
    assert(s1c =~= c + x);
    lemma_ser_values(0, 0, 0, v.class_config_name.index, 0);
    lemma_ser_values(0, 0, 0, v.class_config_name.number, 0);
    assert(s1c.subrange(0, 4) =~= ser_i32(v.class_config_name.index));
    assert(s1c.subrange(4, 8) =~= ser_i32(v.class_config_name.number));
    assert(rest(s1, 16) =~= x);
}

/// What a reader finds in the encoding of the tail of class fields, whatever follows it.
proof fn lemma_tail_parse(v: ClassExportView, ov: i32, none_name: NameIndex, r: Seq<u8>)
    requires (ov >= VER_UE4_ADD_COOKED_TO_UCLASS) == (v.cooked is Some),
    ensures ({
        let s3 = ser_class_tail(v, ov, none_name) + r;
        let t = class_tail_len(ov);
        &&& ser_class_tail(v, ov, none_name).len() == t
        &&& (i32_at(s3, 0) == 1) == v.deprecated_force_script_order
        &&& (if ov >= VER_UE4_ADD_COOKED_TO_UCLASS { Some(i32_at(s3, 12) == 1) } else { None }) == v.cooked
        &&& i32_at(s3, t - 4) == v.class_default_object.index
    }),
{
    let s3 = ser_class_tail(v, ov, none_name) + r;
    let dep: i32 = if v.deprecated_force_script_order { 1 } else { 0 };
    lemma_ser_values(0, 0, 0, dep, 0);
    lemma_ser_values(0, 0, 0, v.class_default_object.index, 0);
    lemma_ser_values(0, 0, 0, none_name.index, 0);
    lemma_ser_values(0, 0, 0, none_name.number, 0);
    assert(s3.subrange(0, 4) =~= ser_i32(dep));
    if ov >= VER_UE4_ADD_COOKED_TO_UCLASS {
        let ck: i32 = if v.cooked.unwrap() { 1 } else { 0 };
        lemma_ser_values(0, 0, 0, ck, 0);
        assert(s3.subrange(12, 16) =~= ser_i32(ck));
        assert(s3.subrange(16, 20) =~= ser_i32(v.class_default_object.index));
    } else {
        assert(s3.subrange(12, 16) =~= ser_i32(v.class_default_object.index));
    }
}

/// Writing class fields and reading them back gives the same fields, where the names lie in
/// the name map, the counts fit an `i32`, and the fields say whether the class was cooked
/// exactly from the object version that stores it on.
pub proof fn lemma_class_fields_roundtrip(v: ClassExportView, n: nat, ov: i32, none_name: NameIndex, r: Seq<u8>)
    requires
        v.func_map.len() <= i32::MAX,
        v.interfaces.len() <= i32::MAX,
        forall|i: int| 0 <= i < v.func_map.len() ==> 0 <= #[trigger] v.func_map[i].0.index < n,
        0 <= v.class_config_name.index < n,
        (ov >= VER_UE4_ADD_COOKED_TO_UCLASS) == (v.cooked is Some),
    ensures
        spec_parse_class_fields(ser_class_fields(v, ov, none_name) + r, n, ov)
            == Some((v, ser_class_fields(v, ov, none_name).len() as int)),
{
    let h = ser_class_head(v, ov);
    let l = ser_links(v.interfaces, v.class_generated_by, ov);
    let t = ser_class_tail(v, ov, none_name);
    let s = ser_class_fields(v, ov, none_name) + r;
    assert(s =~= h + (l + (t + r)));
    lemma_head_parse(v, n, ov, l + (t + r));
    lemma_links_roundtrip(v.interfaces, v.class_generated_by, ov, t + r);
    lemma_tail_parse(v, ov, none_name, r);
    let k = ser_counted(v.func_map, func_entry_writer()).len() as int;
    let s2 = rest(rest(s, k), 16);
    assert(s2 == l + (t + r));
    assert(rest(s2, l.len() as int) =~= t + r);
    let w = spec_parse_class_fields(s, n, ov).unwrap().0;
    assert(w =~= v);
}

} // verus!
