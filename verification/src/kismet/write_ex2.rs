//! Writing what the expressions of one group of tokens hold.

use vstd::prelude::*;
use crate::archive::{ByteWriter, ser_u16, ser_u32, ser_i32, ser_u64, ser_i64};
use crate::asset::name_map::{write_fname, ser_fname};
use crate::error::Error;
use crate::types::{NameIndex, PackageIndex, Vector};
use super::expression::{KismetExpression, KView, KismetPropertyPointer, FScriptText, views};
use super::ser::{ser_body, ser_body_0, ser_body_1, ser_body_2, ser_body_3, ser_body_4, ser_cases, ser_ex_add_multicast_delegate, ser_ex_array_const, ser_ex_array_get_by_ref, ser_ex_assert, ser_ex_bind_delegate, ser_ex_byte_const, ser_ex_call_math, ser_ex_call_multicast_delegate, ser_ex_class_context, ser_ex_class_sparse_data_variable, ser_ex_clear_multicast_delegate, ser_ex_computed_jump, ser_ex_context, ser_ex_context_fail_silent, ser_ex_cross_interface_cast, ser_ex_default_variable, ser_ex_dynamic_cast, ser_ex_field_path_const, ser_ex_final_function, ser_ex_float_const, ser_ex_instance_delegate, ser_ex_instance_variable, ser_ex_instrumentation_event, ser_ex_int64_const, ser_ex_int_const, ser_ex_int_const_byte, ser_ex_interface_context, ser_ex_interface_to_obj_cast, ser_ex_jump, ser_ex_jump_if_not, ser_ex_let, ser_ex_let_bool, ser_ex_let_delegate, ser_ex_let_multicast_delegate, ser_ex_let_obj, ser_ex_let_value_on_persistent_frame, ser_ex_let_weak_obj_ptr, ser_ex_local_final_function, ser_ex_local_out_variable, ser_ex_local_variable, ser_ex_local_virtual_function, ser_ex_map_const, ser_ex_meta_cast, ser_ex_name_const, ser_ex_obj_to_interface_cast, ser_ex_object_const, ser_ex_pop_execution_flow_if_not, ser_ex_primitive_cast, ser_ex_property_const, ser_ex_push_execution_flow, ser_ex_remove_multicast_delegate, ser_ex_return, ser_ex_rotation_const, ser_ex_set_array, ser_ex_set_const, ser_ex_set_map, ser_ex_set_set, ser_ex_skip, ser_ex_skip_offset_const, ser_ex_soft_object_const, ser_ex_string_const, ser_ex_struct_const, ser_ex_struct_member_context, ser_ex_switch_value, ser_ex_text_const, ser_ex_transform_const, ser_ex_uint64_const, ser_ex_unicode_string_const, ser_ex_vector_const, ser_ex_virtual_function, ser_expr, ser_kstr, ser_kustr, ser_list, ser_names, ser_opt, ser_ptr, ser_rot4, ser_text, ser_vec3, wcat, wlit};
use super::tokens::{EExprToken, ECastToken};
use super::write::{wrote, lemma_views, write_kstr, write_kustr, write_list};

verus! {

/// Write what an `ExStructConst` holds; it reports the size that it takes in memory.
#[verifier::spinoff_prover]
pub(crate) fn write_ex_struct_const(e: &KismetExpression, writer: &mut ByteWriter, ov: i32) -> (res: Result<usize, Error>)
    requires
        ser_ex_struct_const(e.view(), ov).1 <= usize::MAX,
    ensures
        wrote(old(writer).data@, final(writer).data@, res, ser_ex_struct_const(e.view(), ov)),
    decreases e.view(), 0int,
{
    match e {
    KismetExpression::ExStructConst { struct_value, struct_size, value } => {
    let ghost w0 = writer.data@;
    let ghost mut acc = wlit(Seq::<u8>::empty(), 12);
    let ghost mut bytes = Seq::<u8>::empty();
    let mut off: usize = 12;
    assert(writer.data@ =~= w0 + bytes);
    writer.write_i32(struct_value.index);
    proof { acc = wcat(acc, wlit(ser_i32(struct_value.index), 0)); bytes = bytes + ser_i32(struct_value.index); }
    assert(writer.data@ =~= w0 + bytes);
    writer.write_i32(*struct_size);
    proof { acc = wcat(acc, wlit(ser_i32(*struct_size), 0)); bytes = bytes + ser_i32(*struct_size); }
    assert(writer.data@ =~= w0 + bytes);
    let o = write_list(value, writer, ov)?;
    proof { bytes = bytes + ser_list(views(value@), ov).0->0; acc = wcat(acc, ser_list(views(value@), ov)); }
    assert(writer.data@ =~= w0 + bytes);
    off = off + o;
    writer.write_u8(EExprToken::ExEndStructConst.value());
    proof { acc = wcat(acc, wlit(seq![EExprToken::ExEndStructConst.spec_value()], 1)); bytes = bytes + seq![EExprToken::ExEndStructConst.spec_value()]; }
    assert(writer.data@ =~= w0 + bytes);
    off = off + 1;
    assert(acc == ser_ex_struct_const(e.view(), ov));
    Ok(off)
    },
    _ => Err(Error::Utf8),
    }
}

/// Write what an `ExPropertyConst` holds; it reports the size that it takes in memory.
#[verifier::spinoff_prover]
pub(crate) fn write_ex_property_const(e: &KismetExpression, writer: &mut ByteWriter, ov: i32) -> (res: Result<usize, Error>)
    requires
        ser_ex_property_const(e.view(), ov).1 <= usize::MAX,
    ensures
        wrote(old(writer).data@, final(writer).data@, res, ser_ex_property_const(e.view(), ov)),
    decreases e.view(), 0int,
{
    match e {
    KismetExpression::ExPropertyConst { property } => {
    let ghost w0 = writer.data@;
    let ghost mut acc = wlit(Seq::<u8>::empty(), 0);
    let ghost mut bytes = Seq::<u8>::empty();
    let mut off: usize = 0;
    assert(writer.data@ =~= w0 + bytes);
    let o = property.write(writer, ov)?;
    proof { bytes = bytes + ser_ptr(property.view(), ov).0->0; acc = wcat(acc, ser_ptr(property.view(), ov)); }
    assert(writer.data@ =~= w0 + bytes);
    off = off + o;
    assert(acc == ser_ex_property_const(e.view(), ov));
    Ok(off)
    },
    _ => Err(Error::Utf8),
    }
}

/// Write what an `ExUnicodeStringConst` holds; it reports the size that it takes in memory.
#[verifier::spinoff_prover]
pub(crate) fn write_ex_unicode_string_const(e: &KismetExpression, writer: &mut ByteWriter, ov: i32) -> (res: Result<usize, Error>)
    requires
        ser_ex_unicode_string_const(e.view(), ov).1 <= usize::MAX,
    ensures
        wrote(old(writer).data@, final(writer).data@, res, ser_ex_unicode_string_const(e.view(), ov)),
    decreases e.view(), 0int,
{
    match e {
    KismetExpression::ExUnicodeStringConst { value } => {
    let ghost w0 = writer.data@;
    let ghost mut acc = wlit(Seq::<u8>::empty(), 0);
    let ghost mut bytes = Seq::<u8>::empty();
    let mut off: usize = 0;
    assert(writer.data@ =~= w0 + bytes);
    let o = write_kustr(value, writer)?;
    proof { bytes = bytes + ser_kustr(value@).0->0; acc = wcat(acc, ser_kustr(value@)); }
    assert(writer.data@ =~= w0 + bytes);
    off = off + o;
    assert(acc == ser_ex_unicode_string_const(e.view(), ov));
    Ok(off)
    },
    _ => Err(Error::Utf8),
    }
}

/// Write what an `ExInt64Const` holds; it reports the size that it takes in memory.
#[verifier::spinoff_prover]
pub(crate) fn write_ex_int64_const(e: &KismetExpression, writer: &mut ByteWriter, ov: i32) -> (res: Result<usize, Error>)
    requires
        ser_ex_int64_const(e.view(), ov).1 <= usize::MAX,
    ensures
        wrote(old(writer).data@, final(writer).data@, res, ser_ex_int64_const(e.view(), ov)),
    decreases e.view(), 0int,
{
    match e {
    KismetExpression::ExInt64Const { value } => {
    let ghost w0 = writer.data@;
    let ghost mut acc = wlit(Seq::<u8>::empty(), 8);
    let ghost mut bytes = Seq::<u8>::empty();
    let mut off: usize = 8;
    assert(writer.data@ =~= w0 + bytes);
    writer.write_i64(*value);
    proof { acc = wcat(acc, wlit(ser_i64(*value), 0)); bytes = bytes + ser_i64(*value); }
    assert(writer.data@ =~= w0 + bytes);
    assert(acc == ser_ex_int64_const(e.view(), ov));
    Ok(off)
    },
    _ => Err(Error::Utf8),
    }
}

/// Write what an `ExUInt64Const` holds; it reports the size that it takes in memory.
#[verifier::spinoff_prover]
pub(crate) fn write_ex_uint64_const(e: &KismetExpression, writer: &mut ByteWriter, ov: i32) -> (res: Result<usize, Error>)
    requires
        ser_ex_uint64_const(e.view(), ov).1 <= usize::MAX,
    ensures
        wrote(old(writer).data@, final(writer).data@, res, ser_ex_uint64_const(e.view(), ov)),
    decreases e.view(), 0int,
{
    match e {
    KismetExpression::ExUInt64Const { value } => {
    let ghost w0 = writer.data@;
    let ghost mut acc = wlit(Seq::<u8>::empty(), 8);
    let ghost mut bytes = Seq::<u8>::empty();
    let mut off: usize = 8;
    assert(writer.data@ =~= w0 + bytes);
    writer.write_u64(*value);
    proof { acc = wcat(acc, wlit(ser_u64(*value), 0)); bytes = bytes + ser_u64(*value); }
    assert(writer.data@ =~= w0 + bytes);
    assert(acc == ser_ex_uint64_const(e.view(), ov));
    Ok(off)
    },
    _ => Err(Error::Utf8),
    }
}

/// Write what an `ExPrimitiveCast` holds; it reports the size that it takes in memory.
#[verifier::spinoff_prover]
pub(crate) fn write_ex_primitive_cast(e: &KismetExpression, writer: &mut ByteWriter, ov: i32) -> (res: Result<usize, Error>)
    requires
        ser_ex_primitive_cast(e.view(), ov).1 <= usize::MAX,
    ensures
        wrote(old(writer).data@, final(writer).data@, res, ser_ex_primitive_cast(e.view(), ov)),
    decreases e.view(), 0int,
{
    match e {
    KismetExpression::ExPrimitiveCast { conversion_type, target } => {
    let ghost w0 = writer.data@;
    let ghost mut acc = wlit(Seq::<u8>::empty(), 1);
    let ghost mut bytes = Seq::<u8>::empty();
    let mut off: usize = 1;
    assert(writer.data@ =~= w0 + bytes);
    writer.write_u8(conversion_type.value());
    proof { acc = wcat(acc, wlit(seq![conversion_type.spec_value()], 0)); bytes = bytes + seq![conversion_type.spec_value()]; }
    assert(writer.data@ =~= w0 + bytes);
    let o = KismetExpression::write(&**target, writer, ov)?;
    proof { bytes = bytes + ser_expr((**target).view(), ov).0->0; acc = wcat(acc, ser_expr((**target).view(), ov)); }
    assert(writer.data@ =~= w0 + bytes);
    off = off + o;
    assert(acc == ser_ex_primitive_cast(e.view(), ov));
    Ok(off)
    },
    _ => Err(Error::Utf8),
    }
}

/// Write what an `ExSetSet` holds; it reports the size that it takes in memory.
#[verifier::spinoff_prover]
pub(crate) fn write_ex_set_set(e: &KismetExpression, writer: &mut ByteWriter, ov: i32) -> (res: Result<usize, Error>)
    requires
        ser_ex_set_set(e.view(), ov).1 <= usize::MAX,
    ensures
        wrote(old(writer).data@, final(writer).data@, res, ser_ex_set_set(e.view(), ov)),
    decreases e.view(), 0int,
{
    match e {
    KismetExpression::ExSetSet { set_property, elements } => {
    let ghost w0 = writer.data@;
    let ghost mut acc = wlit(Seq::<u8>::empty(), 4);
    let ghost mut bytes = Seq::<u8>::empty();
    let mut off: usize = 4;
    assert(writer.data@ =~= w0 + bytes);
    let o = KismetExpression::write(&**set_property, writer, ov)?;
    proof { bytes = bytes + ser_expr((**set_property).view(), ov).0->0; acc = wcat(acc, ser_expr((**set_property).view(), ov)); }
    assert(writer.data@ =~= w0 + bytes);
    off = off + o;
    proof { lemma_views(elements@); }
    writer.write_i32(elements.len() as i32);
    proof { acc = wcat(acc, wlit(ser_i32(views(elements@).len() as i32), 0)); bytes = bytes + ser_i32(views(elements@).len() as i32); }
    assert(writer.data@ =~= w0 + bytes);
    let o = write_list(elements, writer, ov)?;
    proof { bytes = bytes + ser_list(views(elements@), ov).0->0; acc = wcat(acc, ser_list(views(elements@), ov)); }
    assert(writer.data@ =~= w0 + bytes);
    off = off + o;
    writer.write_u8(EExprToken::ExEndSet.value());
    proof { acc = wcat(acc, wlit(seq![EExprToken::ExEndSet.spec_value()], 1)); bytes = bytes + seq![EExprToken::ExEndSet.spec_value()]; }
    assert(writer.data@ =~= w0 + bytes);
    off = off + 1;
    assert(acc == ser_ex_set_set(e.view(), ov));
    Ok(off)
    },
    _ => Err(Error::Utf8),
    }
}

/// Write what an `ExSetMap` holds; it reports the size that it takes in memory.
#[verifier::spinoff_prover]
pub(crate) fn write_ex_set_map(e: &KismetExpression, writer: &mut ByteWriter, ov: i32) -> (res: Result<usize, Error>)
    requires
        ser_ex_set_map(e.view(), ov).1 <= usize::MAX,
    ensures
        wrote(old(writer).data@, final(writer).data@, res, ser_ex_set_map(e.view(), ov)),
    decreases e.view(), 0int,
{
    match e {
    KismetExpression::ExSetMap { map_property, elements } => {
    let ghost w0 = writer.data@;
    let ghost mut acc = wlit(Seq::<u8>::empty(), 4);
    let ghost mut bytes = Seq::<u8>::empty();
    let mut off: usize = 4;
    assert(writer.data@ =~= w0 + bytes);
    let o = KismetExpression::write(&**map_property, writer, ov)?;
    proof { bytes = bytes + ser_expr((**map_property).view(), ov).0->0; acc = wcat(acc, ser_expr((**map_property).view(), ov)); }
    assert(writer.data@ =~= w0 + bytes);
    off = off + o;
    proof { lemma_views(elements@); }
    writer.write_i32(elements.len() as i32);
    proof { acc = wcat(acc, wlit(ser_i32(views(elements@).len() as i32), 0)); bytes = bytes + ser_i32(views(elements@).len() as i32); }
    assert(writer.data@ =~= w0 + bytes);
    let o = write_list(elements, writer, ov)?;
    proof { bytes = bytes + ser_list(views(elements@), ov).0->0; acc = wcat(acc, ser_list(views(elements@), ov)); }
    assert(writer.data@ =~= w0 + bytes);
    off = off + o;
    writer.write_u8(EExprToken::ExEndMap.value());
    proof { acc = wcat(acc, wlit(seq![EExprToken::ExEndMap.spec_value()], 1)); bytes = bytes + seq![EExprToken::ExEndMap.spec_value()]; }
    assert(writer.data@ =~= w0 + bytes);
    off = off + 1;
    assert(acc == ser_ex_set_map(e.view(), ov));
    Ok(off)
    },
    _ => Err(Error::Utf8),
    }
}

/// Write what an `ExSetConst` holds; it reports the size that it takes in memory.
#[verifier::spinoff_prover]
pub(crate) fn write_ex_set_const(e: &KismetExpression, writer: &mut ByteWriter, ov: i32) -> (res: Result<usize, Error>)
    requires
        ser_ex_set_const(e.view(), ov).1 <= usize::MAX,
    ensures
        wrote(old(writer).data@, final(writer).data@, res, ser_ex_set_const(e.view(), ov)),
    decreases e.view(), 0int,
{
    match e {
    KismetExpression::ExSetConst { inner_property, elements } => {
    let ghost w0 = writer.data@;
    let ghost mut acc = wlit(Seq::<u8>::empty(), 4);
    let ghost mut bytes = Seq::<u8>::empty();
    let mut off: usize = 4;
    assert(writer.data@ =~= w0 + bytes);
    let o = inner_property.write(writer, ov)?;
    proof { bytes = bytes + ser_ptr(inner_property.view(), ov).0->0; acc = wcat(acc, ser_ptr(inner_property.view(), ov)); }
    assert(writer.data@ =~= w0 + bytes);
    off = off + o;
    proof { lemma_views(elements@); }
    writer.write_i32(elements.len() as i32);
    proof { acc = wcat(acc, wlit(ser_i32(views(elements@).len() as i32), 0)); bytes = bytes + ser_i32(views(elements@).len() as i32); }
    assert(writer.data@ =~= w0 + bytes);
    let o = write_list(elements, writer, ov)?;
    proof { bytes = bytes + ser_list(views(elements@), ov).0->0; acc = wcat(acc, ser_list(views(elements@), ov)); }
    assert(writer.data@ =~= w0 + bytes);
    off = off + o;
    writer.write_u8(EExprToken::ExEndSetConst.value());
    proof { acc = wcat(acc, wlit(seq![EExprToken::ExEndSetConst.spec_value()], 1)); bytes = bytes + seq![EExprToken::ExEndSetConst.spec_value()]; }
    assert(writer.data@ =~= w0 + bytes);
    off = off + 1;
    assert(acc == ser_ex_set_const(e.view(), ov));
    Ok(off)
    },
    _ => Err(Error::Utf8),
    }
}

/// Write what an `ExMapConst` holds; it reports the size that it takes in memory.
#[verifier::spinoff_prover]
pub(crate) fn write_ex_map_const(e: &KismetExpression, writer: &mut ByteWriter, ov: i32) -> (res: Result<usize, Error>)
    requires
        ser_ex_map_const(e.view(), ov).1 <= usize::MAX,
    ensures
        wrote(old(writer).data@, final(writer).data@, res, ser_ex_map_const(e.view(), ov)),
    decreases e.view(), 0int,
{
    match e {
    KismetExpression::ExMapConst { key_property, value_property, elements } => {
    let ghost w0 = writer.data@;
    let ghost mut acc = wlit(Seq::<u8>::empty(), 4);
    let ghost mut bytes = Seq::<u8>::empty();
    let mut off: usize = 4;
    assert(writer.data@ =~= w0 + bytes);
    let o = key_property.write(writer, ov)?;
    proof { bytes = bytes + ser_ptr(key_property.view(), ov).0->0; acc = wcat(acc, ser_ptr(key_property.view(), ov)); }
    assert(writer.data@ =~= w0 + bytes);
    off = off + o;
    let o = value_property.write(writer, ov)?;
    proof { bytes = bytes + ser_ptr(value_property.view(), ov).0->0; acc = wcat(acc, ser_ptr(value_property.view(), ov)); }
    assert(writer.data@ =~= w0 + bytes);
    off = off + o;
    proof { lemma_views(elements@); }
    writer.write_i32(elements.len() as i32);
    proof { acc = wcat(acc, wlit(ser_i32(views(elements@).len() as i32), 0)); bytes = bytes + ser_i32(views(elements@).len() as i32); }
    assert(writer.data@ =~= w0 + bytes);
    let o = write_list(elements, writer, ov)?;
    proof { bytes = bytes + ser_list(views(elements@), ov).0->0; acc = wcat(acc, ser_list(views(elements@), ov)); }
    assert(writer.data@ =~= w0 + bytes);
    off = off + o;
    writer.write_u8(EExprToken::ExEndMapConst.value());
    proof { acc = wcat(acc, wlit(seq![EExprToken::ExEndMapConst.spec_value()], 1)); bytes = bytes + seq![EExprToken::ExEndMapConst.spec_value()]; }
    assert(writer.data@ =~= w0 + bytes);
    off = off + 1;
    assert(acc == ser_ex_map_const(e.view(), ov));
    Ok(off)
    },
    _ => Err(Error::Utf8),
    }
}

/// Write what an `ExStructMemberContext` holds; it reports the size that it takes in memory.
#[verifier::spinoff_prover]
pub(crate) fn write_ex_struct_member_context(e: &KismetExpression, writer: &mut ByteWriter, ov: i32) -> (res: Result<usize, Error>)
    requires
        ser_ex_struct_member_context(e.view(), ov).1 <= usize::MAX,
    ensures
        wrote(old(writer).data@, final(writer).data@, res, ser_ex_struct_member_context(e.view(), ov)),
    decreases e.view(), 0int,
{
    match e {
    KismetExpression::ExStructMemberContext { struct_member_expression, struct_expression } => {
    let ghost w0 = writer.data@;
    let ghost mut acc = wlit(Seq::<u8>::empty(), 0);
    let ghost mut bytes = Seq::<u8>::empty();
    let mut off: usize = 0;
    assert(writer.data@ =~= w0 + bytes);
    let o = struct_member_expression.write(writer, ov)?;
    proof { bytes = bytes + ser_ptr(struct_member_expression.view(), ov).0->0; acc = wcat(acc, ser_ptr(struct_member_expression.view(), ov)); }
    assert(writer.data@ =~= w0 + bytes);
    off = off + o;
    let o = KismetExpression::write(&**struct_expression, writer, ov)?;
    proof { bytes = bytes + ser_expr((**struct_expression).view(), ov).0->0; acc = wcat(acc, ser_expr((**struct_expression).view(), ov)); }
    assert(writer.data@ =~= w0 + bytes);
    off = off + o;
    assert(acc == ser_ex_struct_member_context(e.view(), ov));
    Ok(off)
    },
    _ => Err(Error::Utf8),
    }
}

} // verus!
