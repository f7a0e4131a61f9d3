//! Writing what the expressions of one group of tokens hold.

use vstd::prelude::*;
use crate::archive::{ByteWriter, ser_u16, ser_u32, ser_i32, ser_u64, ser_i64};
use crate::asset::name_map::{write_fname, ser_fname};
use crate::error::Error;
use crate::types::{NameIndex, PackageIndex, Vector};
use super::expression::{KismetExpression, KView, KismetPropertyPointer, FScriptText, views};
use super::ser::{ser_body, ser_body_0, ser_body_1, ser_body_2, ser_body_3, ser_body_4, ser_cases, ser_ex_add_multicast_delegate, ser_ex_array_const, ser_ex_array_get_by_ref, ser_ex_assert, ser_ex_bind_delegate, ser_ex_byte_const, ser_ex_call_math, ser_ex_call_multicast_delegate, ser_ex_class_context, ser_ex_class_sparse_data_variable, ser_ex_clear_multicast_delegate, ser_ex_computed_jump, ser_ex_context, ser_ex_context_fail_silent, ser_ex_cross_interface_cast, ser_ex_default_variable, ser_ex_dynamic_cast, ser_ex_field_path_const, ser_ex_final_function, ser_ex_float_const, ser_ex_instance_delegate, ser_ex_instance_variable, ser_ex_instrumentation_event, ser_ex_int64_const, ser_ex_int_const, ser_ex_int_const_byte, ser_ex_interface_context, ser_ex_interface_to_obj_cast, ser_ex_jump, ser_ex_jump_if_not, ser_ex_let, ser_ex_let_bool, ser_ex_let_delegate, ser_ex_let_multicast_delegate, ser_ex_let_obj, ser_ex_let_value_on_persistent_frame, ser_ex_let_weak_obj_ptr, ser_ex_local_final_function, ser_ex_local_out_variable, ser_ex_local_variable, ser_ex_local_virtual_function, ser_ex_map_const, ser_ex_meta_cast, ser_ex_name_const, ser_ex_obj_to_interface_cast, ser_ex_object_const, ser_ex_pop_execution_flow_if_not, ser_ex_primitive_cast, ser_ex_property_const, ser_ex_push_execution_flow, ser_ex_remove_multicast_delegate, ser_ex_return, ser_ex_rotation_const, ser_ex_set_array, ser_ex_set_const, ser_ex_set_map, ser_ex_set_set, ser_ex_skip, ser_ex_skip_offset_const, ser_ex_soft_object_const, ser_ex_string_const, ser_ex_struct_const, ser_ex_struct_member_context, ser_ex_switch_value, ser_ex_text_const, ser_ex_transform_const, ser_ex_uint64_const, ser_ex_unicode_string_const, ser_ex_vector_const, ser_ex_virtual_function, ser_expr, ser_kstr, ser_kustr, ser_list, ser_names, ser_opt, ser_ptr, ser_rot4, ser_text, ser_vec3, wcat, wlit};
use super::tokens::{EExprToken, ECastToken};
use super::write::{wrote, lemma_views, write_kstr, write_kustr, write_list};

verus! {

/// Write what an `ExFinalFunction` holds; it reports the size that it takes in memory.
#[verifier::spinoff_prover]
pub(crate) fn write_ex_final_function(e: &KismetExpression, writer: &mut ByteWriter, ov: i32) -> (res: Result<usize, Error>)
    requires
        ser_ex_final_function(e.view(), ov).1 <= usize::MAX,
    ensures
        wrote(old(writer).data@, final(writer).data@, res, ser_ex_final_function(e.view(), ov)),
    decreases e.view(), 0int,
{
    match e {
    KismetExpression::ExFinalFunction { stack_node, parameters } => {
    let ghost w0 = writer.data@;
    let ghost mut acc = wlit(Seq::<u8>::empty(), 8);
    let ghost mut bytes = Seq::<u8>::empty();
    let mut off: usize = 8;
    assert(writer.data@ =~= w0 + bytes);
    writer.write_i32(stack_node.index);
    proof { acc = wcat(acc, wlit(ser_i32(stack_node.index), 0)); bytes = bytes + ser_i32(stack_node.index); }
    assert(writer.data@ =~= w0 + bytes);
    let o = write_list(parameters, writer, ov)?;
    proof { bytes = bytes + ser_list(views(parameters@), ov).0->0; acc = wcat(acc, ser_list(views(parameters@), ov)); }
    assert(writer.data@ =~= w0 + bytes);
    off = off + o;
    writer.write_u8(EExprToken::ExEndFunctionParms.value());
    proof { acc = wcat(acc, wlit(seq![EExprToken::ExEndFunctionParms.spec_value()], 1)); bytes = bytes + seq![EExprToken::ExEndFunctionParms.spec_value()]; }
    assert(writer.data@ =~= w0 + bytes);
    off = off + 1;
    assert(acc == ser_ex_final_function(e.view(), ov));
    Ok(off)
    },
    _ => Err(Error::Utf8),
    }
}

/// Write what an `ExIntConst` holds; it reports the size that it takes in memory.
#[verifier::spinoff_prover]
pub(crate) fn write_ex_int_const(e: &KismetExpression, writer: &mut ByteWriter, ov: i32) -> (res: Result<usize, Error>)
    requires
        ser_ex_int_const(e.view(), ov).1 <= usize::MAX,
    ensures
        wrote(old(writer).data@, final(writer).data@, res, ser_ex_int_const(e.view(), ov)),
    decreases e.view(), 0int,
{
    match e {
    KismetExpression::ExIntConst { value } => {
    let ghost w0 = writer.data@;
    let ghost mut acc = wlit(Seq::<u8>::empty(), 4);
    let ghost mut bytes = Seq::<u8>::empty();
    let mut off: usize = 4;
    assert(writer.data@ =~= w0 + bytes);
    writer.write_i32(*value);
    proof { acc = wcat(acc, wlit(ser_i32(*value), 0)); bytes = bytes + ser_i32(*value); }
    assert(writer.data@ =~= w0 + bytes);
    assert(acc == ser_ex_int_const(e.view(), ov));
    Ok(off)
    },
    _ => Err(Error::Utf8),
    }
}

/// Write what an `ExFloatConst` holds; it reports the size that it takes in memory.
#[verifier::spinoff_prover]
pub(crate) fn write_ex_float_const(e: &KismetExpression, writer: &mut ByteWriter, ov: i32) -> (res: Result<usize, Error>)
    requires
        ser_ex_float_const(e.view(), ov).1 <= usize::MAX,
    ensures
        wrote(old(writer).data@, final(writer).data@, res, ser_ex_float_const(e.view(), ov)),
    decreases e.view(), 0int,
{
    match e {
    KismetExpression::ExFloatConst { value } => {
    let ghost w0 = writer.data@;
    let ghost mut acc = wlit(Seq::<u8>::empty(), 4);
    let ghost mut bytes = Seq::<u8>::empty();
    let mut off: usize = 4;
    assert(writer.data@ =~= w0 + bytes);
    writer.write_u32(*value);
    proof { acc = wcat(acc, wlit(ser_u32(*value), 0)); bytes = bytes + ser_u32(*value); }
    assert(writer.data@ =~= w0 + bytes);
    assert(acc == ser_ex_float_const(e.view(), ov));
    Ok(off)
    },
    _ => Err(Error::Utf8),
    }
}

/// Write what an `ExStringConst` holds; it reports the size that it takes in memory.
#[verifier::spinoff_prover]
pub(crate) fn write_ex_string_const(e: &KismetExpression, writer: &mut ByteWriter, ov: i32) -> (res: Result<usize, Error>)
    requires
        ser_ex_string_const(e.view(), ov).1 <= usize::MAX,
    ensures
        wrote(old(writer).data@, final(writer).data@, res, ser_ex_string_const(e.view(), ov)),
    decreases e.view(), 0int,
{
    match e {
    KismetExpression::ExStringConst { value } => {
    let ghost w0 = writer.data@;
    let ghost mut acc = wlit(Seq::<u8>::empty(), 0);
    let ghost mut bytes = Seq::<u8>::empty();
    let mut off: usize = 0;
    assert(writer.data@ =~= w0 + bytes);
    let o = write_kstr(value, writer)?;
    proof { bytes = bytes + ser_kstr(value@).0->0; acc = wcat(acc, ser_kstr(value@)); }
    assert(writer.data@ =~= w0 + bytes);
    off = off + o;
    assert(acc == ser_ex_string_const(e.view(), ov));
    Ok(off)
    },
    _ => Err(Error::Utf8),
    }
}

/// Write what an `ExObjectConst` holds; it reports the size that it takes in memory.
#[verifier::spinoff_prover]
pub(crate) fn write_ex_object_const(e: &KismetExpression, writer: &mut ByteWriter, ov: i32) -> (res: Result<usize, Error>)
    requires
        ser_ex_object_const(e.view(), ov).1 <= usize::MAX,
    ensures
        wrote(old(writer).data@, final(writer).data@, res, ser_ex_object_const(e.view(), ov)),
    decreases e.view(), 0int,
{
    match e {
    KismetExpression::ExObjectConst { value } => {
    let ghost w0 = writer.data@;
    let ghost mut acc = wlit(Seq::<u8>::empty(), 8);
    let ghost mut bytes = Seq::<u8>::empty();
    let mut off: usize = 8;
    assert(writer.data@ =~= w0 + bytes);
    writer.write_i32(value.index);
    proof { acc = wcat(acc, wlit(ser_i32(value.index), 0)); bytes = bytes + ser_i32(value.index); }
    assert(writer.data@ =~= w0 + bytes);
    assert(acc == ser_ex_object_const(e.view(), ov));
    Ok(off)
    },
    _ => Err(Error::Utf8),
    }
}

/// Write what an `ExNameConst` holds; it reports the size that it takes in memory.
#[verifier::spinoff_prover]
pub(crate) fn write_ex_name_const(e: &KismetExpression, writer: &mut ByteWriter, ov: i32) -> (res: Result<usize, Error>)
    requires
        ser_ex_name_const(e.view(), ov).1 <= usize::MAX,
    ensures
        wrote(old(writer).data@, final(writer).data@, res, ser_ex_name_const(e.view(), ov)),
    decreases e.view(), 0int,
{
    match e {
    KismetExpression::ExNameConst { value } => {
    let ghost w0 = writer.data@;
    let ghost mut acc = wlit(Seq::<u8>::empty(), 12);
    let ghost mut bytes = Seq::<u8>::empty();
    let mut off: usize = 12;
    assert(writer.data@ =~= w0 + bytes);
    write_fname(writer, *value);
    proof { acc = wcat(acc, wlit(ser_fname(*value), 0)); bytes = bytes + ser_fname(*value); }
    assert(writer.data@ =~= w0 + bytes);
    assert(acc == ser_ex_name_const(e.view(), ov));
    Ok(off)
    },
    _ => Err(Error::Utf8),
    }
}

/// Write what an `ExRotationConst` holds; it reports the size that it takes in memory.
#[verifier::spinoff_prover]
pub(crate) fn write_ex_rotation_const(e: &KismetExpression, writer: &mut ByteWriter, ov: i32) -> (res: Result<usize, Error>)
    requires
        ser_ex_rotation_const(e.view(), ov).1 <= usize::MAX,
    ensures
        wrote(old(writer).data@, final(writer).data@, res, ser_ex_rotation_const(e.view(), ov)),
    decreases e.view(), 0int,
{
    match e {
    KismetExpression::ExRotationConst { pitch, yaw, roll } => {
    let ghost w0 = writer.data@;
    let ghost mut acc = wlit(Seq::<u8>::empty(), 12);
    let ghost mut bytes = Seq::<u8>::empty();
    let mut off: usize = 12;
    assert(writer.data@ =~= w0 + bytes);
    writer.write_i32(*pitch);
    proof { acc = wcat(acc, wlit(ser_i32(*pitch), 0)); bytes = bytes + ser_i32(*pitch); }
    assert(writer.data@ =~= w0 + bytes);
    writer.write_i32(*yaw);
    proof { acc = wcat(acc, wlit(ser_i32(*yaw), 0)); bytes = bytes + ser_i32(*yaw); }
    assert(writer.data@ =~= w0 + bytes);
    writer.write_i32(*roll);
    proof { acc = wcat(acc, wlit(ser_i32(*roll), 0)); bytes = bytes + ser_i32(*roll); }
    assert(writer.data@ =~= w0 + bytes);
    assert(acc == ser_ex_rotation_const(e.view(), ov));
    Ok(off)
    },
    _ => Err(Error::Utf8),
    }
}

/// Write what an `ExVectorConst` holds; it reports the size that it takes in memory.
#[verifier::spinoff_prover]
pub(crate) fn write_ex_vector_const(e: &KismetExpression, writer: &mut ByteWriter, ov: i32) -> (res: Result<usize, Error>)
    requires
        ser_ex_vector_const(e.view(), ov).1 <= usize::MAX,
    ensures
        wrote(old(writer).data@, final(writer).data@, res, ser_ex_vector_const(e.view(), ov)),
    decreases e.view(), 0int,
{
    match e {
    KismetExpression::ExVectorConst { value } => {
    let ghost w0 = writer.data@;
    let ghost mut acc = wlit(Seq::<u8>::empty(), 12);
    let ghost mut bytes = Seq::<u8>::empty();
    let mut off: usize = 12;
    assert(writer.data@ =~= w0 + bytes);
    writer.write_u32(value.x);
    writer.write_u32(value.y);
    writer.write_u32(value.z);
    proof { acc = wcat(acc, wlit(ser_vec3(*value), 0)); bytes = bytes + ser_vec3(*value); }
    assert(writer.data@ =~= w0 + bytes);
    assert(acc == ser_ex_vector_const(e.view(), ov));
    Ok(off)
    },
    _ => Err(Error::Utf8),
    }
}

/// Write what an `ExByteConst` holds; it reports the size that it takes in memory.
#[verifier::spinoff_prover]
pub(crate) fn write_ex_byte_const(e: &KismetExpression, writer: &mut ByteWriter, ov: i32) -> (res: Result<usize, Error>)
    requires
        ser_ex_byte_const(e.view(), ov).1 <= usize::MAX,
    ensures
        wrote(old(writer).data@, final(writer).data@, res, ser_ex_byte_const(e.view(), ov)),
    decreases e.view(), 0int,
{
    match e {
    KismetExpression::ExByteConst { value } => {
    let ghost w0 = writer.data@;
    let ghost mut acc = wlit(Seq::<u8>::empty(), 1);
    let ghost mut bytes = Seq::<u8>::empty();
    let mut off: usize = 1;
    assert(writer.data@ =~= w0 + bytes);
    writer.write_u8(*value);
    proof { acc = wcat(acc, wlit(seq![*value], 0)); bytes = bytes + seq![*value]; }
    assert(writer.data@ =~= w0 + bytes);
    assert(acc == ser_ex_byte_const(e.view(), ov));
    Ok(off)
    },
    _ => Err(Error::Utf8),
    }
}

/// Write what an `ExTextConst` holds; it reports the size that it takes in memory.
#[verifier::spinoff_prover]
pub(crate) fn write_ex_text_const(e: &KismetExpression, writer: &mut ByteWriter, ov: i32) -> (res: Result<usize, Error>)
    requires
        ser_ex_text_const(e.view(), ov).1 <= usize::MAX,
    ensures
        wrote(old(writer).data@, final(writer).data@, res, ser_ex_text_const(e.view(), ov)),
    decreases e.view(), 0int,
{
    match e {
    KismetExpression::ExTextConst { value } => {
    let ghost w0 = writer.data@;
    let ghost mut acc = wlit(Seq::<u8>::empty(), 0);
    let ghost mut bytes = Seq::<u8>::empty();
    let mut off: usize = 0;
    assert(writer.data@ =~= w0 + bytes);
    let o = (**value).write(writer, ov)?;
    proof { bytes = bytes + ser_text((**value).view(), ov).0->0; acc = wcat(acc, ser_text((**value).view(), ov)); }
    assert(writer.data@ =~= w0 + bytes);
    off = off + o;
    assert(acc == ser_ex_text_const(e.view(), ov));
    Ok(off)
    },
    _ => Err(Error::Utf8),
    }
}

/// Write what an `ExTransformConst` holds; it reports the size that it takes in memory.
#[verifier::spinoff_prover]
pub(crate) fn write_ex_transform_const(e: &KismetExpression, writer: &mut ByteWriter, ov: i32) -> (res: Result<usize, Error>)
    requires
        ser_ex_transform_const(e.view(), ov).1 <= usize::MAX,
    ensures
        wrote(old(writer).data@, final(writer).data@, res, ser_ex_transform_const(e.view(), ov)),
    decreases e.view(), 0int,
{
    match e {
    KismetExpression::ExTransformConst { rotation, translation, scale } => {
    let ghost w0 = writer.data@;
    let ghost mut acc = wlit(Seq::<u8>::empty(), 40);
    let ghost mut bytes = Seq::<u8>::empty();
    let mut off: usize = 40;
    assert(writer.data@ =~= w0 + bytes);
    writer.write_u32(rotation.0);
    writer.write_u32(rotation.1);
    writer.write_u32(rotation.2);
    writer.write_u32(rotation.3);
    proof { acc = wcat(acc, wlit(ser_rot4(*rotation), 0)); bytes = bytes + ser_rot4(*rotation); }
    assert(writer.data@ =~= w0 + bytes);
    writer.write_u32(translation.x);
    writer.write_u32(translation.y);
    writer.write_u32(translation.z);
    proof { acc = wcat(acc, wlit(ser_vec3(*translation), 0)); bytes = bytes + ser_vec3(*translation); }
    assert(writer.data@ =~= w0 + bytes);
    writer.write_u32(scale.x);
    writer.write_u32(scale.y);
    writer.write_u32(scale.z);
    proof { acc = wcat(acc, wlit(ser_vec3(*scale), 0)); bytes = bytes + ser_vec3(*scale); }
    assert(writer.data@ =~= w0 + bytes);
    assert(acc == ser_ex_transform_const(e.view(), ov));
    Ok(off)
    },
    _ => Err(Error::Utf8),
    }
}

/// Write what an `ExIntConstByte` holds; it reports the size that it takes in memory.
#[verifier::spinoff_prover]
pub(crate) fn write_ex_int_const_byte(e: &KismetExpression, writer: &mut ByteWriter, ov: i32) -> (res: Result<usize, Error>)
    requires
        ser_ex_int_const_byte(e.view(), ov).1 <= usize::MAX,
    ensures
        wrote(old(writer).data@, final(writer).data@, res, ser_ex_int_const_byte(e.view(), ov)),
    decreases e.view(), 0int,
{
    match e {
    KismetExpression::ExIntConstByte { value } => {
    let ghost w0 = writer.data@;
    let ghost mut acc = wlit(Seq::<u8>::empty(), 1);
    let ghost mut bytes = Seq::<u8>::empty();
    let mut off: usize = 1;
    assert(writer.data@ =~= w0 + bytes);
    writer.write_u8(*value);
    proof { acc = wcat(acc, wlit(seq![*value], 0)); bytes = bytes + seq![*value]; }
    assert(writer.data@ =~= w0 + bytes);
    assert(acc == ser_ex_int_const_byte(e.view(), ov));
    Ok(off)
    },
    _ => Err(Error::Utf8),
    }
}

/// Write what an `ExDynamicCast` holds; it reports the size that it takes in memory.
#[verifier::spinoff_prover]
pub(crate) fn write_ex_dynamic_cast(e: &KismetExpression, writer: &mut ByteWriter, ov: i32) -> (res: Result<usize, Error>)
    requires
        ser_ex_dynamic_cast(e.view(), ov).1 <= usize::MAX,
    ensures
        wrote(old(writer).data@, final(writer).data@, res, ser_ex_dynamic_cast(e.view(), ov)),
    decreases e.view(), 0int,
{
    match e {
    KismetExpression::ExDynamicCast { class_ptr, target_expression } => {
    let ghost w0 = writer.data@;
    let ghost mut acc = wlit(Seq::<u8>::empty(), 8);
    let ghost mut bytes = Seq::<u8>::empty();
    let mut off: usize = 8;
    assert(writer.data@ =~= w0 + bytes);
    writer.write_i32(class_ptr.index);
    proof { acc = wcat(acc, wlit(ser_i32(class_ptr.index), 0)); bytes = bytes + ser_i32(class_ptr.index); }
    assert(writer.data@ =~= w0 + bytes);
    let o = KismetExpression::write(&**target_expression, writer, ov)?;
    proof { bytes = bytes + ser_expr((**target_expression).view(), ov).0->0; acc = wcat(acc, ser_expr((**target_expression).view(), ov)); }
    assert(writer.data@ =~= w0 + bytes);
    off = off + o;
    assert(acc == ser_ex_dynamic_cast(e.view(), ov));
    Ok(off)
    },
    _ => Err(Error::Utf8),
    }
}

} // verus!
