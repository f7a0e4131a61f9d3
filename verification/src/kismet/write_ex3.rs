//! Writing what the expressions of one group of tokens hold.

use vstd::prelude::*;
use crate::archive::{ByteWriter, ser_u16, ser_u32, ser_i32, ser_u64, ser_i64};
use crate::asset::name_map::{write_fname, ser_fname};
use crate::error::Error;
use crate::types::{NameIndex, PackageIndex, Vector};
use super::expression::{KismetExpression, KView, KismetPropertyPointer, FScriptText, views};
use super::ser::{ser_body, ser_body_0, ser_body_1, ser_body_2, ser_body_3, ser_body_4, ser_cases, ser_ex_add_multicast_delegate, ser_ex_array_const, ser_ex_array_get_by_ref, ser_ex_assert, ser_ex_bind_delegate, ser_ex_byte_const, ser_ex_call_math, ser_ex_call_multicast_delegate, ser_ex_class_context, ser_ex_class_sparse_data_variable, ser_ex_clear_multicast_delegate, ser_ex_computed_jump, ser_ex_context, ser_ex_context_fail_silent, ser_ex_cross_interface_cast, ser_ex_default_variable, ser_ex_dynamic_cast, ser_ex_field_path_const, ser_ex_final_function, ser_ex_float_const, ser_ex_instance_delegate, ser_ex_instance_variable, ser_ex_instrumentation_event, ser_ex_int64_const, ser_ex_int_const, ser_ex_int_const_byte, ser_ex_interface_context, ser_ex_interface_to_obj_cast, ser_ex_jump, ser_ex_jump_if_not, ser_ex_let, ser_ex_let_bool, ser_ex_let_delegate, ser_ex_let_multicast_delegate, ser_ex_let_obj, ser_ex_let_value_on_persistent_frame, ser_ex_let_weak_obj_ptr, ser_ex_local_final_function, ser_ex_local_out_variable, ser_ex_local_variable, ser_ex_local_virtual_function, ser_ex_map_const, ser_ex_meta_cast, ser_ex_name_const, ser_ex_obj_to_interface_cast, ser_ex_object_const, ser_ex_pop_execution_flow_if_not, ser_ex_primitive_cast, ser_ex_property_const, ser_ex_push_execution_flow, ser_ex_remove_multicast_delegate, ser_ex_return, ser_ex_rotation_const, ser_ex_set_array, ser_ex_set_const, ser_ex_set_map, ser_ex_set_set, ser_ex_skip, ser_ex_skip_offset_const, ser_ex_soft_object_const, ser_ex_string_const, ser_ex_struct_const, ser_ex_struct_member_context, ser_ex_switch_value, ser_ex_text_const, ser_ex_transform_const, ser_ex_uint64_const, ser_ex_unicode_string_const, ser_ex_vector_const, ser_ex_virtual_function, ser_expr, ser_kstr, ser_kustr, ser_list, ser_names, ser_opt, ser_ptr, ser_rot4, ser_text, ser_vec3, wcat, wlit};
use super::tokens::{EExprToken, ECastToken};
use super::write::{wrote, lemma_views, write_kstr, write_kustr, write_list};

verus! {

/// Write what an `ExLetMulticastDelegate` holds; it reports the size that it takes in memory.
#[verifier::spinoff_prover]
pub(crate) fn write_ex_let_multicast_delegate(e: &KismetExpression, writer: &mut ByteWriter, ov: i32) -> (res: Result<usize, Error>)
    requires
        ser_ex_let_multicast_delegate(e.view(), ov).1 <= usize::MAX,
    ensures
        wrote(old(writer).data@, final(writer).data@, res, ser_ex_let_multicast_delegate(e.view(), ov)),
    decreases e.view(), 0int,
{
    match e {
    KismetExpression::ExLetMulticastDelegate { variable_expression, assignment_expression } => {
    let ghost w0 = writer.data@;
    let ghost mut acc = wlit(Seq::<u8>::empty(), 0);
    let ghost mut bytes = Seq::<u8>::empty();
    let mut off: usize = 0;
    assert(writer.data@ =~= w0 + bytes);
    let o = KismetExpression::write(&**variable_expression, writer, ov)?;
    proof { bytes = bytes + ser_expr((**variable_expression).view(), ov).0->0; acc = wcat(acc, ser_expr((**variable_expression).view(), ov)); }
    assert(writer.data@ =~= w0 + bytes);
    off = off + o;
    let o = KismetExpression::write(&**assignment_expression, writer, ov)?;
    proof { bytes = bytes + ser_expr((**assignment_expression).view(), ov).0->0; acc = wcat(acc, ser_expr((**assignment_expression).view(), ov)); }
    assert(writer.data@ =~= w0 + bytes);
    off = off + o;
    assert(acc == ser_ex_let_multicast_delegate(e.view(), ov));
    Ok(off)
    },
    _ => Err(Error::Utf8),
    }
}

/// Write what an `ExLetDelegate` holds; it reports the size that it takes in memory.
#[verifier::spinoff_prover]
pub(crate) fn write_ex_let_delegate(e: &KismetExpression, writer: &mut ByteWriter, ov: i32) -> (res: Result<usize, Error>)
    requires
        ser_ex_let_delegate(e.view(), ov).1 <= usize::MAX,
    ensures
        wrote(old(writer).data@, final(writer).data@, res, ser_ex_let_delegate(e.view(), ov)),
    decreases e.view(), 0int,
{
    match e {
    KismetExpression::ExLetDelegate { variable_expression, assignment_expression } => {
    let ghost w0 = writer.data@;
    let ghost mut acc = wlit(Seq::<u8>::empty(), 0);
    let ghost mut bytes = Seq::<u8>::empty();
    let mut off: usize = 0;
    assert(writer.data@ =~= w0 + bytes);
    let o = KismetExpression::write(&**variable_expression, writer, ov)?;
    proof { bytes = bytes + ser_expr((**variable_expression).view(), ov).0->0; acc = wcat(acc, ser_expr((**variable_expression).view(), ov)); }
    assert(writer.data@ =~= w0 + bytes);
    off = off + o;
    let o = KismetExpression::write(&**assignment_expression, writer, ov)?;
    proof { bytes = bytes + ser_expr((**assignment_expression).view(), ov).0->0; acc = wcat(acc, ser_expr((**assignment_expression).view(), ov)); }
    assert(writer.data@ =~= w0 + bytes);
    off = off + o;
    assert(acc == ser_ex_let_delegate(e.view(), ov));
    Ok(off)
    },
    _ => Err(Error::Utf8),
    }
}

/// Write what an `ExLocalVirtualFunction` holds; it reports the size that it takes in memory.
#[verifier::spinoff_prover]
pub(crate) fn write_ex_local_virtual_function(e: &KismetExpression, writer: &mut ByteWriter, ov: i32) -> (res: Result<usize, Error>)
    requires
        ser_ex_local_virtual_function(e.view(), ov).1 <= usize::MAX,
    ensures
        wrote(old(writer).data@, final(writer).data@, res, ser_ex_local_virtual_function(e.view(), ov)),
    decreases e.view(), 0int,
{
    match e {
    KismetExpression::ExLocalVirtualFunction { virtual_function_name, parameters } => {
    let ghost w0 = writer.data@;
    let ghost mut acc = wlit(Seq::<u8>::empty(), 12);
    let ghost mut bytes = Seq::<u8>::empty();
    let mut off: usize = 12;
    assert(writer.data@ =~= w0 + bytes);
    write_fname(writer, *virtual_function_name);
    proof { acc = wcat(acc, wlit(ser_fname(*virtual_function_name), 0)); bytes = bytes + ser_fname(*virtual_function_name); }
    assert(writer.data@ =~= w0 + bytes);
    let o = write_list(parameters, writer, ov)?;
    proof { bytes = bytes + ser_list(views(parameters@), ov).0->0; acc = wcat(acc, ser_list(views(parameters@), ov)); }
    assert(writer.data@ =~= w0 + bytes);
    off = off + o;
    writer.write_u8(EExprToken::ExEndFunctionParms.value());
    proof { acc = wcat(acc, wlit(seq![EExprToken::ExEndFunctionParms.spec_value()], 1)); bytes = bytes + seq![EExprToken::ExEndFunctionParms.spec_value()]; }
    assert(writer.data@ =~= w0 + bytes);
    off = off + 1;
    assert(acc == ser_ex_local_virtual_function(e.view(), ov));
    Ok(off)
    },
    _ => Err(Error::Utf8),
    }
}

/// Write what an `ExLocalFinalFunction` holds; it reports the size that it takes in memory.
#[verifier::spinoff_prover]
pub(crate) fn write_ex_local_final_function(e: &KismetExpression, writer: &mut ByteWriter, ov: i32) -> (res: Result<usize, Error>)
    requires
        ser_ex_local_final_function(e.view(), ov).1 <= usize::MAX,
    ensures
        wrote(old(writer).data@, final(writer).data@, res, ser_ex_local_final_function(e.view(), ov)),
    decreases e.view(), 0int,
{
    match e {
    KismetExpression::ExLocalFinalFunction { stack_node, parameters } => {
    let ghost w0 = writer.data@;
    let ghost mut acc = wlit(Seq::<u8>::empty(), 8);
    let ghost mut bytes = Seq::<u8>::empty();
    let mut off: usize = 8;
    assert(writer.data@ =~= w0 + bytes);
    writer.write_i32(stack_node.index);
    proof { acc = wcat(acc, wlit(ser_i32(stack_node.index), 0)); bytes = bytes + ser_i32(stack_node.index); }
    assert(writer.data@ =~= w0 + bytes);
    let o = write_list(parameters, writer, ov)?;
    proof { bytes = bytes + ser_list(views(parameters@), ov).0->0; acc = wcat(acc, ser_list(views(parameters@), ov)); }
    assert(writer.data@ =~= w0 + bytes);
    off = off + o;
    writer.write_u8(EExprToken::ExEndFunctionParms.value());
    proof { acc = wcat(acc, wlit(seq![EExprToken::ExEndFunctionParms.spec_value()], 1)); bytes = bytes + seq![EExprToken::ExEndFunctionParms.spec_value()]; }
    assert(writer.data@ =~= w0 + bytes);
    off = off + 1;
    assert(acc == ser_ex_local_final_function(e.view(), ov));
    Ok(off)
    },
    _ => Err(Error::Utf8),
    }
}

/// Write what an `ExLocalOutVariable` holds; it reports the size that it takes in memory.
#[verifier::spinoff_prover]
pub(crate) fn write_ex_local_out_variable(e: &KismetExpression, writer: &mut ByteWriter, ov: i32) -> (res: Result<usize, Error>)
    requires
        ser_ex_local_out_variable(e.view(), ov).1 <= usize::MAX,
    ensures
        wrote(old(writer).data@, final(writer).data@, res, ser_ex_local_out_variable(e.view(), ov)),
    decreases e.view(), 0int,
{
    match e {
    KismetExpression::ExLocalOutVariable { variable } => {
    let ghost w0 = writer.data@;
    let ghost mut acc = wlit(Seq::<u8>::empty(), 0);
    let ghost mut bytes = Seq::<u8>::empty();
    let mut off: usize = 0;
    assert(writer.data@ =~= w0 + bytes);
    let o = variable.write(writer, ov)?;
    proof { bytes = bytes + ser_ptr(variable.view(), ov).0->0; acc = wcat(acc, ser_ptr(variable.view(), ov)); }
    assert(writer.data@ =~= w0 + bytes);
    off = off + o;
    assert(acc == ser_ex_local_out_variable(e.view(), ov));
    Ok(off)
    },
    _ => Err(Error::Utf8),
    }
}

/// Write what an `ExInstanceDelegate` holds; it reports the size that it takes in memory.
#[verifier::spinoff_prover]
pub(crate) fn write_ex_instance_delegate(e: &KismetExpression, writer: &mut ByteWriter, ov: i32) -> (res: Result<usize, Error>)
    requires
        ser_ex_instance_delegate(e.view(), ov).1 <= usize::MAX,
    ensures
        wrote(old(writer).data@, final(writer).data@, res, ser_ex_instance_delegate(e.view(), ov)),
    decreases e.view(), 0int,
{
    match e {
    KismetExpression::ExInstanceDelegate { function_name } => {
    let ghost w0 = writer.data@;
    let ghost mut acc = wlit(Seq::<u8>::empty(), 12);
    let ghost mut bytes = Seq::<u8>::empty();
    let mut off: usize = 12;
    assert(writer.data@ =~= w0 + bytes);
    write_fname(writer, *function_name);
    proof { acc = wcat(acc, wlit(ser_fname(*function_name), 0)); bytes = bytes + ser_fname(*function_name); }
    assert(writer.data@ =~= w0 + bytes);
    assert(acc == ser_ex_instance_delegate(e.view(), ov));
    Ok(off)
    },
    _ => Err(Error::Utf8),
    }
}

/// Write what an `ExPushExecutionFlow` holds; it reports the size that it takes in memory.
#[verifier::spinoff_prover]
pub(crate) fn write_ex_push_execution_flow(e: &KismetExpression, writer: &mut ByteWriter, ov: i32) -> (res: Result<usize, Error>)
    requires
        ser_ex_push_execution_flow(e.view(), ov).1 <= usize::MAX,
    ensures
        wrote(old(writer).data@, final(writer).data@, res, ser_ex_push_execution_flow(e.view(), ov)),
    decreases e.view(), 0int,
{
    match e {
    KismetExpression::ExPushExecutionFlow { pushing_address } => {
    let ghost w0 = writer.data@;
    let ghost mut acc = wlit(Seq::<u8>::empty(), 4);
    let ghost mut bytes = Seq::<u8>::empty();
    let mut off: usize = 4;
    assert(writer.data@ =~= w0 + bytes);
    writer.write_u32(*pushing_address);
    proof { acc = wcat(acc, wlit(ser_u32(*pushing_address), 0)); bytes = bytes + ser_u32(*pushing_address); }
    assert(writer.data@ =~= w0 + bytes);
    assert(acc == ser_ex_push_execution_flow(e.view(), ov));
    Ok(off)
    },
    _ => Err(Error::Utf8),
    }
}

/// Write what an `ExComputedJump` holds; it reports the size that it takes in memory.
#[verifier::spinoff_prover]
pub(crate) fn write_ex_computed_jump(e: &KismetExpression, writer: &mut ByteWriter, ov: i32) -> (res: Result<usize, Error>)
    requires
        ser_ex_computed_jump(e.view(), ov).1 <= usize::MAX,
    ensures
        wrote(old(writer).data@, final(writer).data@, res, ser_ex_computed_jump(e.view(), ov)),
    decreases e.view(), 0int,
{
    match e {
    KismetExpression::ExComputedJump { code_offset_expression } => {
    let ghost w0 = writer.data@;
    let ghost mut acc = wlit(Seq::<u8>::empty(), 0);
    let ghost mut bytes = Seq::<u8>::empty();
    let mut off: usize = 0;
    assert(writer.data@ =~= w0 + bytes);
    let o = KismetExpression::write(&**code_offset_expression, writer, ov)?;
    proof { bytes = bytes + ser_expr((**code_offset_expression).view(), ov).0->0; acc = wcat(acc, ser_expr((**code_offset_expression).view(), ov)); }
    assert(writer.data@ =~= w0 + bytes);
    off = off + o;
    assert(acc == ser_ex_computed_jump(e.view(), ov));
    Ok(off)
    },
    _ => Err(Error::Utf8),
    }
}

/// Write what an `ExPopExecutionFlowIfNot` holds; it reports the size that it takes in memory.
#[verifier::spinoff_prover]
pub(crate) fn write_ex_pop_execution_flow_if_not(e: &KismetExpression, writer: &mut ByteWriter, ov: i32) -> (res: Result<usize, Error>)
    requires
        ser_ex_pop_execution_flow_if_not(e.view(), ov).1 <= usize::MAX,
    ensures
        wrote(old(writer).data@, final(writer).data@, res, ser_ex_pop_execution_flow_if_not(e.view(), ov)),
    decreases e.view(), 0int,
{
    match e {
    KismetExpression::ExPopExecutionFlowIfNot { boolean_expression } => {
    let ghost w0 = writer.data@;
    let ghost mut acc = wlit(Seq::<u8>::empty(), 0);
    let ghost mut bytes = Seq::<u8>::empty();
    let mut off: usize = 0;
    assert(writer.data@ =~= w0 + bytes);
    let o = KismetExpression::write(&**boolean_expression, writer, ov)?;
    proof { bytes = bytes + ser_expr((**boolean_expression).view(), ov).0->0; acc = wcat(acc, ser_expr((**boolean_expression).view(), ov)); }
    assert(writer.data@ =~= w0 + bytes);
    off = off + o;
    assert(acc == ser_ex_pop_execution_flow_if_not(e.view(), ov));
    Ok(off)
    },
    _ => Err(Error::Utf8),
    }
}

/// Write what an `ExInterfaceContext` holds; it reports the size that it takes in memory.
#[verifier::spinoff_prover]
pub(crate) fn write_ex_interface_context(e: &KismetExpression, writer: &mut ByteWriter, ov: i32) -> (res: Result<usize, Error>)
    requires
        ser_ex_interface_context(e.view(), ov).1 <= usize::MAX,
    ensures
        wrote(old(writer).data@, final(writer).data@, res, ser_ex_interface_context(e.view(), ov)),
    decreases e.view(), 0int,
{
    match e {
    KismetExpression::ExInterfaceContext { interface_value } => {
    let ghost w0 = writer.data@;
    let ghost mut acc = wlit(Seq::<u8>::empty(), 0);
    let ghost mut bytes = Seq::<u8>::empty();
    let mut off: usize = 0;
    assert(writer.data@ =~= w0 + bytes);
    let o = KismetExpression::write(&**interface_value, writer, ov)?;
    proof { bytes = bytes + ser_expr((**interface_value).view(), ov).0->0; acc = wcat(acc, ser_expr((**interface_value).view(), ov)); }
    assert(writer.data@ =~= w0 + bytes);
    off = off + o;
    assert(acc == ser_ex_interface_context(e.view(), ov));
    Ok(off)
    },
    _ => Err(Error::Utf8),
    }
}

/// Write what an `ExObjToInterfaceCast` holds; it reports the size that it takes in memory.
#[verifier::spinoff_prover]
pub(crate) fn write_ex_obj_to_interface_cast(e: &KismetExpression, writer: &mut ByteWriter, ov: i32) -> (res: Result<usize, Error>)
    requires
        ser_ex_obj_to_interface_cast(e.view(), ov).1 <= usize::MAX,
    ensures
        wrote(old(writer).data@, final(writer).data@, res, ser_ex_obj_to_interface_cast(e.view(), ov)),
    decreases e.view(), 0int,
{
    match e {
    KismetExpression::ExObjToInterfaceCast { class_ptr, target } => {
    let ghost w0 = writer.data@;
    let ghost mut acc = wlit(Seq::<u8>::empty(), 8);
    let ghost mut bytes = Seq::<u8>::empty();
    let mut off: usize = 8;
    assert(writer.data@ =~= w0 + bytes);
    writer.write_i32(class_ptr.index);
    proof { acc = wcat(acc, wlit(ser_i32(class_ptr.index), 0)); bytes = bytes + ser_i32(class_ptr.index); }
    assert(writer.data@ =~= w0 + bytes);
    let o = KismetExpression::write(&**target, writer, ov)?;
    proof { bytes = bytes + ser_expr((**target).view(), ov).0->0; acc = wcat(acc, ser_expr((**target).view(), ov)); }
    assert(writer.data@ =~= w0 + bytes);
    off = off + o;
    assert(acc == ser_ex_obj_to_interface_cast(e.view(), ov));
    Ok(off)
    },
    _ => Err(Error::Utf8),
    }
}

/// Write what an `ExCrossInterfaceCast` holds; it reports the size that it takes in memory.
#[verifier::spinoff_prover]
pub(crate) fn write_ex_cross_interface_cast(e: &KismetExpression, writer: &mut ByteWriter, ov: i32) -> (res: Result<usize, Error>)
    requires
        ser_ex_cross_interface_cast(e.view(), ov).1 <= usize::MAX,
    ensures
        wrote(old(writer).data@, final(writer).data@, res, ser_ex_cross_interface_cast(e.view(), ov)),
    decreases e.view(), 0int,
{
    match e {
    KismetExpression::ExCrossInterfaceCast { class_ptr, target } => {
    let ghost w0 = writer.data@;
    let ghost mut acc = wlit(Seq::<u8>::empty(), 8);
    let ghost mut bytes = Seq::<u8>::empty();
    let mut off: usize = 8;
    assert(writer.data@ =~= w0 + bytes);
    writer.write_i32(class_ptr.index);
    proof { acc = wcat(acc, wlit(ser_i32(class_ptr.index), 0)); bytes = bytes + ser_i32(class_ptr.index); }
    assert(writer.data@ =~= w0 + bytes);
    let o = KismetExpression::write(&**target, writer, ov)?;
    proof { bytes = bytes + ser_expr((**target).view(), ov).0->0; acc = wcat(acc, ser_expr((**target).view(), ov)); }
    assert(writer.data@ =~= w0 + bytes);
    off = off + o;
    assert(acc == ser_ex_cross_interface_cast(e.view(), ov));
    Ok(off)
    },
    _ => Err(Error::Utf8),
    }
}

/// Write what an `ExInterfaceToObjCast` holds; it reports the size that it takes in memory.
#[verifier::spinoff_prover]
pub(crate) fn write_ex_interface_to_obj_cast(e: &KismetExpression, writer: &mut ByteWriter, ov: i32) -> (res: Result<usize, Error>)
    requires
        ser_ex_interface_to_obj_cast(e.view(), ov).1 <= usize::MAX,
    ensures
        wrote(old(writer).data@, final(writer).data@, res, ser_ex_interface_to_obj_cast(e.view(), ov)),
    decreases e.view(), 0int,
{
    match e {
    KismetExpression::ExInterfaceToObjCast { class_ptr, target } => {
    let ghost w0 = writer.data@;
    let ghost mut acc = wlit(Seq::<u8>::empty(), 8);
    let ghost mut bytes = Seq::<u8>::empty();
    let mut off: usize = 8;
    assert(writer.data@ =~= w0 + bytes);
    writer.write_i32(class_ptr.index);
    proof { acc = wcat(acc, wlit(ser_i32(class_ptr.index), 0)); bytes = bytes + ser_i32(class_ptr.index); }
    assert(writer.data@ =~= w0 + bytes);
    let o = KismetExpression::write(&**target, writer, ov)?;
    proof { bytes = bytes + ser_expr((**target).view(), ov).0->0; acc = wcat(acc, ser_expr((**target).view(), ov)); }
    assert(writer.data@ =~= w0 + bytes);
    off = off + o;
    assert(acc == ser_ex_interface_to_obj_cast(e.view(), ov));
    Ok(off)
    },
    _ => Err(Error::Utf8),
    }
}

/// Write what an `ExSkipOffsetConst` holds; it reports the size that it takes in memory.
#[verifier::spinoff_prover]
pub(crate) fn write_ex_skip_offset_const(e: &KismetExpression, writer: &mut ByteWriter, ov: i32) -> (res: Result<usize, Error>)
    requires
        ser_ex_skip_offset_const(e.view(), ov).1 <= usize::MAX,
    ensures
        wrote(old(writer).data@, final(writer).data@, res, ser_ex_skip_offset_const(e.view(), ov)),
    decreases e.view(), 0int,
{
    match e {
    KismetExpression::ExSkipOffsetConst { value } => {
    let ghost w0 = writer.data@;
    let ghost mut acc = wlit(Seq::<u8>::empty(), 4);
    let ghost mut bytes = Seq::<u8>::empty();
    let mut off: usize = 4;
    assert(writer.data@ =~= w0 + bytes);
    writer.write_u32(*value);
    proof { acc = wcat(acc, wlit(ser_u32(*value), 0)); bytes = bytes + ser_u32(*value); }
    assert(writer.data@ =~= w0 + bytes);
    assert(acc == ser_ex_skip_offset_const(e.view(), ov));
    Ok(off)
    },
    _ => Err(Error::Utf8),
    }
}

} // verus!
