//! What reading an export map entry gives back of one that was written.

use vstd::prelude::*;
use crate::archive::{ser_i32, ser_i64, ser_u32, lemma_ser_values};
use crate::bytes::le_value;
use super::base_export::{
    BaseExport, ExportEntryFields, OBJECT_FLAGS_MASK, parse_entry, decode_entry, entry_len, template_len,
    sizes_len, inherited_len, editor_len, asset_len, public_hash_len, dependencies_len, outer_at, sizes_at,
    guid_at, package_flags_at, dependencies_at, ser_bool, ser_sizes, i32_at, u32_in, i64_at, lemma_ser_len,
};

verus! {

/// The fields that reading back the export map entry written for `e` gives: those of `e`, with
/// the serial size and offset that were written (cut to 32 bits before the object version that
/// widens them), the first dependency offset that was written and the lengths of the
/// dependency lists, and the fields that the versions leave out false or zero.
pub open spec fn written_fields(
    e: &BaseExport,
    ov: i32,
    ov5: i32,
    serial_size: i64,
    serial_offset: i64,
    dep_offset: i32,
) -> ExportEntryFields {
    ExportEntryFields {
        indices: (
            e.class_index.index,
            e.super_index.index,
            if template_len(ov) == 4 { e.template_index.index } else { 0 },
            e.outer_index.index,
        ),
        object_name: e.object_name,
        object_flags: e.object_flags.bits,
        serial: if sizes_len(ov) == 8 {
            ((serial_size as i32) as i64, (serial_offset as i32) as i64)
        } else {
            (serial_size, serial_offset)
        },
        load_flags: (e.forced_export, e.not_for_client, e.not_for_server),
        package_guid: e.package_guid@,
        is_inherited_instance: inherited_len(ov5) == 4 && e.is_inherited_instance,
        package_flags: e.package_flags,
        editor_flags: (
            editor_len(ov) == 4 && e.not_always_loaded_for_editor_game,
            asset_len(ov) == 4 && e.is_asset,
            public_hash_len(ov5) == 4 && e.generate_public_hash,
        ),
        dependencies: if dependencies_len(ov) == 20 {
            (
                dep_offset,
                e.serialization_before_serialization_dependencies@.len() as i32,
                e.create_before_serialization_dependencies@.len() as i32,
                e.serialization_before_create_dependencies@.len() as i32,
                e.create_before_create_dependencies@.len() as i32,
            )
        } else {
            (0, 0, 0, 0, 0)
        },
    }
}

proof fn lemma_int_codes()
    ensures
        forall|x: i32| #[trigger] ser_i32(x).len() == 4 && (le_value(ser_i32(x)) as u32) as i32 == x,
        forall|x: u32| #[trigger] ser_u32(x).len() == 4 && le_value(ser_u32(x)) as u32 == x,
        forall|x: i64| #[trigger] ser_i64(x).len() == 8 && (le_value(ser_i64(x)) as u64) as i64 == x,
{
    assert forall|x: i32| #[trigger] ser_i32(x).len() == 4 && (le_value(ser_i32(x)) as u32) as i32 == x by {
        lemma_ser_values(0, 0, 0, x, 0);
    }
    assert forall|x: u32| #[trigger] ser_u32(x).len() == 4 && le_value(ser_u32(x)) as u32 == x by {
        lemma_ser_values(0, x, 0, 0, 0);
    }
    assert forall|x: i64| #[trigger] ser_i64(x).len() == 8 && (le_value(ser_i64(x)) as u64) as i64 == x by {
        lemma_ser_values(0, 0, 0, 0, x);
    }
}

/// The bytes of `x + y` from `i` to `j`, inside `x`.
proof fn lemma_sub_left(x: Seq<u8>, y: Seq<u8>, i: int, j: int)
    requires 0 <= i <= j <= x.len(),
    ensures (x + y).subrange(i, j) == x.subrange(i, j),
{
    assert((x + y).subrange(i, j) =~= x.subrange(i, j));
}

/// The bytes of `x + y` from `i` to `j`, inside `y`.
proof fn lemma_sub_right(x: Seq<u8>, y: Seq<u8>, i: int, j: int)
    requires x.len() <= i <= j <= x.len() + y.len(),
    ensures (x + y).subrange(i, j) == y.subrange(i - x.len(), j - x.len()),
{
    assert((x + y).subrange(i, j) =~= y.subrange(i - x.len(), j - x.len()));
}

/// The head of the encoding decodes to the indices, name and object flags.
proof fn lemma_head(e: &BaseExport, ov: i32, r: Seq<u8>)
    ensures
        e.ser_head(ov).len() == outer_at(ov) + 16,
        i32_at(e.ser_head(ov) + r, 0) == e.class_index.index,
        i32_at(e.ser_head(ov) + r, 4) == e.super_index.index,
        template_len(ov) == 4 ==> i32_at(e.ser_head(ov) + r, 8) == e.template_index.index,
        i32_at(e.ser_head(ov) + r, outer_at(ov)) == e.outer_index.index,
        i32_at(e.ser_head(ov) + r, outer_at(ov) + 4) == e.object_name.index,
        i32_at(e.ser_head(ov) + r, outer_at(ov) + 8) == e.object_name.number,
        u32_in(e.ser_head(ov) + r, outer_at(ov) + 12) == e.object_flags.bits,
{
    lemma_int_codes();
    let h = e.ser_head(ov);
    let o = outer_at(ov);
    let h1 = ser_i32(e.class_index.index);
    let h2 = ser_i32(e.super_index.index);
    let h3 = ser_i32(e.template_index.index);
    let h4 = ser_i32(e.outer_index.index);
    let h5 = ser_i32(e.object_name.index);
    let h6 = ser_i32(e.object_name.number);
    let h7 = ser_u32(e.object_flags.bits);
    assert(h.len() == o + 16);
    lemma_sub_left(h, r, 0, 4);
    lemma_sub_left(h, r, 4, 8);
    lemma_sub_left(h, r, o, o + 4);
    lemma_sub_left(h, r, o + 4, o + 8);
    lemma_sub_left(h, r, o + 8, o + 12);
    lemma_sub_left(h, r, o + 12, o + 16);
    assert(h.subrange(0, 4) =~= h1);
    assert(h.subrange(4, 8) =~= h2);
    if template_len(ov) == 4 {
        lemma_sub_left(h, r, 8, 12);
        assert(h.subrange(8, 12) =~= h3);
    }
    assert(h.subrange(o, o + 4) =~= h4);
    assert(h.subrange(o + 4, o + 8) =~= h5);
    assert(h.subrange(o + 8, o + 12) =~= h6);
    assert(h.subrange(o + 12, o + 16) =~= h7);
}

/// The serial size and offset decode to what was written, cut to 32 bits where the version
/// writes them so.
proof fn lemma_sizes(p: Seq<u8>, ov: i32, serial_size: i64, serial_offset: i64, r: Seq<u8>)
    ensures
        ser_sizes(ov, serial_size, serial_offset).len() == sizes_len(ov),
        ({
            let b = p + ser_sizes(ov, serial_size, serial_offset) + r;
            let z = p.len() as int;
            if sizes_len(ov) == 8 {
                i32_at(b, z) as i64 == (serial_size as i32) as i64
                    && i32_at(b, z + 4) as i64 == (serial_offset as i32) as i64
            } else {
                i64_at(b, z) == serial_size && i64_at(b, z + 8) == serial_offset
            }
        }),
{
    lemma_int_codes();
    let m = ser_sizes(ov, serial_size, serial_offset);
    let b = p + m + r;
    let z = p.len() as int;
    lemma_sub_left(p + m, r, z, z + m.len());
    lemma_sub_right(p, m, z, z + m.len());
    assert((p + m).subrange(z, z + m.len()) =~= m);
    if sizes_len(ov) == 8 {
        let a = ser_i32(serial_size as i32);
        let c = ser_i32(serial_offset as i32);
        lemma_sub_left(p + m, r, z, z + 4);
        lemma_sub_left(p + m, r, z + 4, z + 8);
        assert((p + m).subrange(z, z + 4) =~= a);
        assert((p + m).subrange(z + 4, z + 8) =~= c);
    } else {
        let a = ser_i64(serial_size);
        let c = ser_i64(serial_offset);
        lemma_sub_left(p + m, r, z, z + 8);
        lemma_sub_left(p + m, r, z + 8, z + 16);
        assert((p + m).subrange(z, z + 8) =~= a);
        assert((p + m).subrange(z + 8, z + 16) =~= c);
    }
}

/// The load flags and package guid decode to those of `e`.
proof fn lemma_load(p: Seq<u8>, e: &BaseExport, r: Seq<u8>)
    ensures
        e.ser_load().len() == 28,
        ({
            let b = p + e.ser_load() + r;
            let g = p.len() + 12int;
            &&& (i32_at(b, g - 12) == 1) == e.forced_export
            &&& (i32_at(b, g - 8) == 1) == e.not_for_client
            &&& (i32_at(b, g - 4) == 1) == e.not_for_server
            &&& b.subrange(g, g + 16) == e.package_guid@
        }),
{
    lemma_int_codes();
    let m = e.ser_load();
    let b = p + m + r;
    let z = p.len() as int;
    let a1 = ser_bool(e.forced_export);
    let a2 = ser_bool(e.not_for_client);
    let a3 = ser_bool(e.not_for_server);
    assert(m.len() == 28);
    lemma_sub_left(p + m, r, z, z + 4);
    lemma_sub_left(p + m, r, z + 4, z + 8);
    lemma_sub_left(p + m, r, z + 8, z + 12);
    lemma_sub_left(p + m, r, z + 12, z + 28);
    lemma_sub_right(p, m, z, z + 4);
    lemma_sub_right(p, m, z + 4, z + 8);
    lemma_sub_right(p, m, z + 8, z + 12);
    lemma_sub_right(p, m, z + 12, z + 28);
    assert(m.subrange(0, 4) =~= a1);
    assert(m.subrange(4, 8) =~= a2);
    assert(m.subrange(8, 12) =~= a3);
    assert(m.subrange(12, 28) =~= e.package_guid@);
}

/// The inherited flag, package flags and editor flags decode to those of `e` that the
/// versions write.
#[verifier::spinoff_prover]
#[verifier::rlimit(40)]
proof fn lemma_tail(p: Seq<u8>, e: &BaseExport, ov: i32, ov5: i32, r: Seq<u8>)
    ensures
        e.ser_tail(ov, ov5).len() == inherited_len(ov5) + 4 + editor_len(ov) + asset_len(ov) + public_hash_len(ov5),
        ({
            let b = p + e.ser_tail(ov, ov5) + r;
            let q = p.len() + inherited_len(ov5);
            &&& (inherited_len(ov5) == 4 && i32_at(b, p.len() as int) == 1)
                == (inherited_len(ov5) == 4 && e.is_inherited_instance)
            &&& u32_in(b, q) == e.package_flags
            &&& (editor_len(ov) == 4 && i32_at(b, q + 4) == 1)
                == (editor_len(ov) == 4 && e.not_always_loaded_for_editor_game)
            &&& (asset_len(ov) == 4 && i32_at(b, q + 4 + editor_len(ov)) == 1)
                == (asset_len(ov) == 4 && e.is_asset)
            &&& (public_hash_len(ov5) == 4 && i32_at(b, q + 4 + editor_len(ov) + asset_len(ov)) == 1)
                == (public_hash_len(ov5) == 4 && e.generate_public_hash)
        }),
{
    lemma_int_codes();
    let m = e.ser_tail(ov, ov5);
    let z = p.len() as int;
    let i = inherited_len(ov5);
    let d = editor_len(ov);
    let a = asset_len(ov);
    let h = public_hash_len(ov5);
    let t1 = if ov5 >= crate::engine_version::TRACK_OBJECT_EXPORT_IS_INHERITED { ser_bool(e.is_inherited_instance) } else { Seq::empty() };
    let t2 = ser_u32(e.package_flags);
    let t3 = if ov >= crate::engine_version::VER_UE4_LOAD_FOR_EDITOR_GAME { ser_bool(e.not_always_loaded_for_editor_game) } else { Seq::empty() };
    let t4 = if ov >= crate::engine_version::VER_UE4_COOKED_ASSETS_IN_EDITOR_SUPPORT { ser_bool(e.is_asset) } else { Seq::empty() };
    let t5 = if ov5 >= crate::engine_version::OPTIONAL_RESOURCES { ser_bool(e.generate_public_hash) } else { Seq::empty() };
    assert(m == t1 + t2 + t3 + t4 + t5);
    assert(m.len() == i + 4 + d + a + h);
    if i == 4 {
        lemma_sub_left(p + m, r, z, z + 4);
        lemma_sub_right(p, m, z, z + 4);
        assert(m.subrange(0, 4) =~= t1);
    }
    lemma_sub_left(p + m, r, z + i, z + i + 4);
    lemma_sub_right(p, m, z + i, z + i + 4);
    assert(m.subrange(i, i + 4) =~= t2);
    if d == 4 {
        lemma_sub_left(p + m, r, z + i + 4, z + i + 8);
        lemma_sub_right(p, m, z + i + 4, z + i + 8);
        assert(m.subrange(i + 4, i + 8) =~= t3);
    }
    if a == 4 {
        lemma_sub_left(p + m, r, z + i + 4 + d, z + i + 8 + d);
        lemma_sub_right(p, m, z + i + 4 + d, z + i + 8 + d);
        assert(m.subrange(i + 4 + d, i + 8 + d) =~= t4);
    }
    if h == 4 {
        lemma_sub_left(p + m, r, z + i + 4 + d + a, z + i + 8 + d + a);
        lemma_sub_right(p, m, z + i + 4 + d + a, z + i + 8 + d + a);
        assert(m.subrange(i + 4 + d + a, i + 8 + d + a) =~= t5);
    }
}

/// The dependency offset and counts decode to what was written, where the version writes them.
proof fn lemma_dependencies(p: Seq<u8>, e: &BaseExport, ov: i32, dep_offset: i32)
    ensures
        e.ser_dependencies(ov, dep_offset).len() == dependencies_len(ov),
        ({
            let b = p + e.ser_dependencies(ov, dep_offset);
            let d = p.len() as int;
            dependencies_len(ov) == 20 ==> {
                &&& i32_at(b, d) == dep_offset
                &&& i32_at(b, d + 4) == e.serialization_before_serialization_dependencies@.len() as i32
                &&& i32_at(b, d + 8) == e.create_before_serialization_dependencies@.len() as i32
                &&& i32_at(b, d + 12) == e.serialization_before_create_dependencies@.len() as i32
                &&& i32_at(b, d + 16) == e.create_before_create_dependencies@.len() as i32
            }
        }),
{
    lemma_int_codes();
    let m = e.ser_dependencies(ov, dep_offset);
    let z = p.len() as int;
    if dependencies_len(ov) == 20 {
        let d1 = ser_i32(dep_offset);
        let d2 = ser_i32(e.serialization_before_serialization_dependencies@.len() as i32);
        let d3 = ser_i32(e.create_before_serialization_dependencies@.len() as i32);
        let d4 = ser_i32(e.serialization_before_create_dependencies@.len() as i32);
        let d5 = ser_i32(e.create_before_create_dependencies@.len() as i32);
        assert(m == d1 + d2 + d3 + d4 + d5);
        lemma_sub_right(p, m, z, z + 4);
        lemma_sub_right(p, m, z + 4, z + 8);
        lemma_sub_right(p, m, z + 8, z + 12);
        lemma_sub_right(p, m, z + 12, z + 16);
        lemma_sub_right(p, m, z + 16, z + 20);
        assert(m.subrange(0, 4) =~= d1);
        assert(m.subrange(4, 8) =~= d2);
        assert(m.subrange(8, 12) =~= d3);
        assert(m.subrange(12, 16) =~= d4);
        assert(m.subrange(16, 20) =~= d5);
    }
}

/// The indices, name and object flags read back.
#[verifier::spinoff_prover]
#[verifier::rlimit(40)]
proof fn lemma_read_head(e: &BaseExport, ov: i32, ov5: i32, serial_size: i64, serial_offset: i64, dep_offset: i32)
    ensures
        ({
            let f = decode_entry(e.spec_ser(ov, ov5, serial_size, serial_offset, dep_offset), ov, ov5);
            let w = written_fields(e, ov, ov5, serial_size, serial_offset, dep_offset);
            f.indices == w.indices && f.object_name == w.object_name && f.object_flags == w.object_flags
        }),
{
    let head = e.ser_head(ov);
    let sz = ser_sizes(ov, serial_size, serial_offset);
    let load = e.ser_load();
    let tail = e.ser_tail(ov, ov5);
    let deps = e.ser_dependencies(ov, dep_offset);
    let b = e.spec_ser(ov, ov5, serial_size, serial_offset, dep_offset);
    lemma_head(e, ov, sz + load + tail + deps);
    assert(b =~= head + (sz + load + tail + deps));
}

/// The serial size and offset read back.
#[verifier::spinoff_prover]
#[verifier::rlimit(40)]
proof fn lemma_read_sizes(e: &BaseExport, ov: i32, ov5: i32, serial_size: i64, serial_offset: i64, dep_offset: i32)
    ensures
        ({
            let f = decode_entry(e.spec_ser(ov, ov5, serial_size, serial_offset, dep_offset), ov, ov5);
            let w = written_fields(e, ov, ov5, serial_size, serial_offset, dep_offset);
            f.serial == w.serial
        }),
{
    let head = e.ser_head(ov);
    let sz = ser_sizes(ov, serial_size, serial_offset);
    let load = e.ser_load();
    let tail = e.ser_tail(ov, ov5);
    let deps = e.ser_dependencies(ov, dep_offset);
    let b = e.spec_ser(ov, ov5, serial_size, serial_offset, dep_offset);
    lemma_head(e, ov, Seq::empty());
    lemma_sizes(head, ov, serial_size, serial_offset, load + tail + deps);
    assert(b =~= head + sz + (load + tail + deps));
}

/// The load flags and package guid read back.
#[verifier::spinoff_prover]
#[verifier::rlimit(40)]
proof fn lemma_read_load(e: &BaseExport, ov: i32, ov5: i32, serial_size: i64, serial_offset: i64, dep_offset: i32)
    ensures
        ({
            let f = decode_entry(e.spec_ser(ov, ov5, serial_size, serial_offset, dep_offset), ov, ov5);
            let w = written_fields(e, ov, ov5, serial_size, serial_offset, dep_offset);
            f.load_flags == w.load_flags && f.package_guid == w.package_guid
        }),
{
    let head = e.ser_head(ov);
    let sz = ser_sizes(ov, serial_size, serial_offset);
    let load = e.ser_load();
    let tail = e.ser_tail(ov, ov5);
    let deps = e.ser_dependencies(ov, dep_offset);
    let b = e.spec_ser(ov, ov5, serial_size, serial_offset, dep_offset);
    lemma_head(e, ov, Seq::empty());
    lemma_sizes(head, ov, serial_size, serial_offset, Seq::empty());
    lemma_load(head + sz, e, tail + deps);
    assert(b =~= (head + sz) + load + (tail + deps));
}

/// The inherited flag, package flags and editor flags read back.
#[verifier::spinoff_prover]
#[verifier::rlimit(40)]
proof fn lemma_read_tail(e: &BaseExport, ov: i32, ov5: i32, serial_size: i64, serial_offset: i64, dep_offset: i32)
    ensures
        ({
            let f = decode_entry(e.spec_ser(ov, ov5, serial_size, serial_offset, dep_offset), ov, ov5);
            let w = written_fields(e, ov, ov5, serial_size, serial_offset, dep_offset);
            f.is_inherited_instance == w.is_inherited_instance && f.package_flags == w.package_flags && f.editor_flags == w.editor_flags
        }),
{
    let head = e.ser_head(ov);
    let sz = ser_sizes(ov, serial_size, serial_offset);
    let load = e.ser_load();
    let tail = e.ser_tail(ov, ov5);
    let deps = e.ser_dependencies(ov, dep_offset);
    let b = e.spec_ser(ov, ov5, serial_size, serial_offset, dep_offset);
    lemma_head(e, ov, Seq::empty());
    lemma_sizes(head, ov, serial_size, serial_offset, Seq::empty());
    lemma_load(head + sz, e, Seq::empty());
    lemma_tail(head + sz + load, e, ov, ov5, deps);
    assert(b =~= (head + sz + load) + tail + deps);
}

/// The dependency offset and counts read back.
#[verifier::spinoff_prover]
#[verifier::rlimit(40)]
proof fn lemma_read_dependencies(e: &BaseExport, ov: i32, ov5: i32, serial_size: i64, serial_offset: i64, dep_offset: i32)
    ensures
        ({
            let f = decode_entry(e.spec_ser(ov, ov5, serial_size, serial_offset, dep_offset), ov, ov5);
            let w = written_fields(e, ov, ov5, serial_size, serial_offset, dep_offset);
            f.dependencies == w.dependencies
        }),
{
    let head = e.ser_head(ov);
    let sz = ser_sizes(ov, serial_size, serial_offset);
    let load = e.ser_load();
    let tail = e.ser_tail(ov, ov5);
    let deps = e.ser_dependencies(ov, dep_offset);
    let b = e.spec_ser(ov, ov5, serial_size, serial_offset, dep_offset);
    lemma_head(e, ov, Seq::empty());
    lemma_sizes(head, ov, serial_size, serial_offset, Seq::empty());
    lemma_load(head + sz, e, Seq::empty());
    lemma_tail(head + sz + load, e, ov, ov5, Seq::empty());
    lemma_dependencies(head + sz + load + tail, e, ov, dep_offset);
    assert(b =~= (head + sz + load + tail) + deps);
}

/// Reading back an export map entry that was written, under the same object versions, gives
/// the fields that were written, whatever follows it: provided its name lies in the name map
/// and its object flags are known ones, which reading checks.
pub proof fn lemma_export_entry_roundtrip(
    e: &BaseExport,
    ov: i32,
    ov5: i32,
    serial_size: i64,
    serial_offset: i64,
    dep_offset: i32,
    name_map_size: usize,
    rest: Seq<u8>,
)
    requires
        0 <= e.object_name.index < name_map_size,
        e.object_flags.bits & !OBJECT_FLAGS_MASK == 0,
    ensures
        parse_entry(e.spec_ser(ov, ov5, serial_size, serial_offset, dep_offset) + rest, ov, ov5, name_map_size)
            == Some((written_fields(e, ov, ov5, serial_size, serial_offset, dep_offset), entry_len(ov, ov5))),
{
    let b = e.spec_ser(ov, ov5, serial_size, serial_offset, dep_offset);
    lemma_ser_len(e, ov, ov5, serial_size, serial_offset, dep_offset);
    assert((b + rest).take(entry_len(ov, ov5)) =~= b);
    lemma_read_head(e, ov, ov5, serial_size, serial_offset, dep_offset);
    lemma_read_sizes(e, ov, ov5, serial_size, serial_offset, dep_offset);
    lemma_read_load(e, ov, ov5, serial_size, serial_offset, dep_offset);
    lemma_read_tail(e, ov, ov5, serial_size, serial_offset, dep_offset);
    lemma_read_dependencies(e, ov, ov5, serial_size, serial_offset, dep_offset);
}

} // verus!
