//! Writing what the expressions of one group of tokens hold.

use vstd::prelude::*;
use crate::archive::{ByteWriter, ser_u16, ser_u32, ser_i32, ser_u64, ser_i64};
use crate::asset::name_map::{write_fname, ser_fname};
use crate::error::Error;
use crate::types::{NameIndex, PackageIndex, Vector};
use super::expression::{KismetExpression, KView, KismetPropertyPointer, FScriptText, views};
use super::ser::{ser_body, ser_body_0, ser_body_1, ser_body_2, ser_body_3, ser_body_4, ser_cases, ser_ex_add_multicast_delegate, ser_ex_array_const, ser_ex_array_get_by_ref, ser_ex_assert, ser_ex_bind_delegate, ser_ex_byte_const, ser_ex_call_math, ser_ex_call_multicast_delegate, ser_ex_class_context, ser_ex_class_sparse_data_variable, ser_ex_clear_multicast_delegate, ser_ex_computed_jump, ser_ex_context, ser_ex_context_fail_silent, ser_ex_cross_interface_cast, ser_ex_default_variable, ser_ex_dynamic_cast, ser_ex_field_path_const, ser_ex_final_function, ser_ex_float_const, ser_ex_instance_delegate, ser_ex_instance_variable, ser_ex_instrumentation_event, ser_ex_int64_const, ser_ex_int_const, ser_ex_int_const_byte, ser_ex_interface_context, ser_ex_interface_to_obj_cast, ser_ex_jump, ser_ex_jump_if_not, ser_ex_let, ser_ex_let_bool, ser_ex_let_delegate, ser_ex_let_multicast_delegate, ser_ex_let_obj, ser_ex_let_value_on_persistent_frame, ser_ex_let_weak_obj_ptr, ser_ex_local_final_function, ser_ex_local_out_variable, ser_ex_local_variable, ser_ex_local_virtual_function, ser_ex_map_const, ser_ex_meta_cast, ser_ex_name_const, ser_ex_obj_to_interface_cast, ser_ex_object_const, ser_ex_pop_execution_flow_if_not, ser_ex_primitive_cast, ser_ex_property_const, ser_ex_push_execution_flow, ser_ex_remove_multicast_delegate, ser_ex_return, ser_ex_rotation_const, ser_ex_set_array, ser_ex_set_const, ser_ex_set_map, ser_ex_set_set, ser_ex_skip, ser_ex_skip_offset_const, ser_ex_soft_object_const, ser_ex_string_const, ser_ex_struct_const, ser_ex_struct_member_context, ser_ex_switch_value, ser_ex_text_const, ser_ex_transform_const, ser_ex_uint64_const, ser_ex_unicode_string_const, ser_ex_vector_const, ser_ex_virtual_function, ser_expr, ser_kstr, ser_kustr, ser_list, ser_names, ser_opt, ser_ptr, ser_rot4, ser_text, ser_vec3, wcat, wlit};
use super::tokens::{EExprToken, ECastToken};
use super::write::{wrote, lemma_views, write_kstr, write_kustr, write_list};

verus! {

/// Write what an `ExLocalVariable` holds; it reports the size that it takes in memory.
#[verifier::spinoff_prover]
pub(crate) fn write_ex_local_variable(e: &KismetExpression, writer: &mut ByteWriter, ov: i32) -> (res: Result<usize, Error>)
    requires
        ser_ex_local_variable(e.view(), ov).1 <= usize::MAX,
    ensures
        wrote(old(writer).data@, final(writer).data@, res, ser_ex_local_variable(e.view(), ov)),
    decreases e.view(), 0int,
{
    match e {
    KismetExpression::ExLocalVariable { variable } => {
    let ghost w0 = writer.data@;
    let ghost mut acc = wlit(Seq::<u8>::empty(), 0);
    let ghost mut bytes = Seq::<u8>::empty();
    let mut off: usize = 0;
    assert(writer.data@ =~= w0 + bytes);
    let o = variable.write(writer, ov)?;
    proof { bytes = bytes + ser_ptr(variable.view(), ov).0->0; acc = wcat(acc, ser_ptr(variable.view(), ov)); }
    assert(writer.data@ =~= w0 + bytes);
    off = off + o;
    assert(acc == ser_ex_local_variable(e.view(), ov));
    Ok(off)
    },
    _ => Err(Error::Utf8),
    }
}

/// Write what an `ExInstanceVariable` holds; it reports the size that it takes in memory.
#[verifier::spinoff_prover]
pub(crate) fn write_ex_instance_variable(e: &KismetExpression, writer: &mut ByteWriter, ov: i32) -> (res: Result<usize, Error>)
    requires
        ser_ex_instance_variable(e.view(), ov).1 <= usize::MAX,
    ensures
        wrote(old(writer).data@, final(writer).data@, res, ser_ex_instance_variable(e.view(), ov)),
    decreases e.view(), 0int,
{
    match e {
    KismetExpression::ExInstanceVariable { variable } => {
    let ghost w0 = writer.data@;
    let ghost mut acc = wlit(Seq::<u8>::empty(), 0);
    let ghost mut bytes = Seq::<u8>::empty();
    let mut off: usize = 0;
    assert(writer.data@ =~= w0 + bytes);
    let o = variable.write(writer, ov)?;
    proof { bytes = bytes + ser_ptr(variable.view(), ov).0->0; acc = wcat(acc, ser_ptr(variable.view(), ov)); }
    assert(writer.data@ =~= w0 + bytes);
    off = off + o;
    assert(acc == ser_ex_instance_variable(e.view(), ov));
    Ok(off)
    },
    _ => Err(Error::Utf8),
    }
}

/// Write what an `ExDefaultVariable` holds; it reports the size that it takes in memory.
#[verifier::spinoff_prover]
pub(crate) fn write_ex_default_variable(e: &KismetExpression, writer: &mut ByteWriter, ov: i32) -> (res: Result<usize, Error>)
    requires
        ser_ex_default_variable(e.view(), ov).1 <= usize::MAX,
    ensures
        wrote(old(writer).data@, final(writer).data@, res, ser_ex_default_variable(e.view(), ov)),
    decreases e.view(), 0int,
{
    match e {
    KismetExpression::ExDefaultVariable { variable } => {
    let ghost w0 = writer.data@;
    let ghost mut acc = wlit(Seq::<u8>::empty(), 0);
    let ghost mut bytes = Seq::<u8>::empty();
    let mut off: usize = 0;
    assert(writer.data@ =~= w0 + bytes);
    let o = variable.write(writer, ov)?;
    proof { bytes = bytes + ser_ptr(variable.view(), ov).0->0; acc = wcat(acc, ser_ptr(variable.view(), ov)); }
    assert(writer.data@ =~= w0 + bytes);
    off = off + o;
    assert(acc == ser_ex_default_variable(e.view(), ov));
    Ok(off)
    },
    _ => Err(Error::Utf8),
    }
}

/// Write what an `ExReturn` holds; it reports the size that it takes in memory.
#[verifier::spinoff_prover]
pub(crate) fn write_ex_return(e: &KismetExpression, writer: &mut ByteWriter, ov: i32) -> (res: Result<usize, Error>)
    requires
        ser_ex_return(e.view(), ov).1 <= usize::MAX,
    ensures
        wrote(old(writer).data@, final(writer).data@, res, ser_ex_return(e.view(), ov)),
    decreases e.view(), 0int,
{
    match e {
    KismetExpression::ExReturn { return_expression } => {
    let ghost w0 = writer.data@;
    let ghost mut acc = wlit(Seq::<u8>::empty(), 0);
    let ghost mut bytes = Seq::<u8>::empty();
    let mut off: usize = 0;
    assert(writer.data@ =~= w0 + bytes);
    let o = KismetExpression::write(&**return_expression, writer, ov)?;
    proof { bytes = bytes + ser_expr((**return_expression).view(), ov).0->0; acc = wcat(acc, ser_expr((**return_expression).view(), ov)); }
    assert(writer.data@ =~= w0 + bytes);
    off = off + o;
    assert(acc == ser_ex_return(e.view(), ov));
    Ok(off)
    },
    _ => Err(Error::Utf8),
    }
}

/// Write what an `ExJump` holds; it reports the size that it takes in memory.
#[verifier::spinoff_prover]
pub(crate) fn write_ex_jump(e: &KismetExpression, writer: &mut ByteWriter, ov: i32) -> (res: Result<usize, Error>)
    requires
        ser_ex_jump(e.view(), ov).1 <= usize::MAX,
    ensures
        wrote(old(writer).data@, final(writer).data@, res, ser_ex_jump(e.view(), ov)),
    decreases e.view(), 0int,
{
    match e {
    KismetExpression::ExJump { code_offset } => {
    let ghost w0 = writer.data@;
    let ghost mut acc = wlit(Seq::<u8>::empty(), 4);
    let ghost mut bytes = Seq::<u8>::empty();
    let mut off: usize = 4;
    assert(writer.data@ =~= w0 + bytes);
    writer.write_u32(*code_offset);
    proof { acc = wcat(acc, wlit(ser_u32(*code_offset), 0)); bytes = bytes + ser_u32(*code_offset); }
    assert(writer.data@ =~= w0 + bytes);
    assert(acc == ser_ex_jump(e.view(), ov));
    Ok(off)
    },
    _ => Err(Error::Utf8),
    }
}

/// Write what an `ExJumpIfNot` holds; it reports the size that it takes in memory.
#[verifier::spinoff_prover]
pub(crate) fn write_ex_jump_if_not(e: &KismetExpression, writer: &mut ByteWriter, ov: i32) -> (res: Result<usize, Error>)
    requires
        ser_ex_jump_if_not(e.view(), ov).1 <= usize::MAX,
    ensures
        wrote(old(writer).data@, final(writer).data@, res, ser_ex_jump_if_not(e.view(), ov)),
    decreases e.view(), 0int,
{
    match e {
    KismetExpression::ExJumpIfNot { code_offset, boolean_expression } => {
    let ghost w0 = writer.data@;
    let ghost mut acc = wlit(Seq::<u8>::empty(), 4);
    let ghost mut bytes = Seq::<u8>::empty();
    let mut off: usize = 4;
    assert(writer.data@ =~= w0 + bytes);
    writer.write_u32(*code_offset);
    proof { acc = wcat(acc, wlit(ser_u32(*code_offset), 0)); bytes = bytes + ser_u32(*code_offset); }
    assert(writer.data@ =~= w0 + bytes);
    let o = KismetExpression::write(&**boolean_expression, writer, ov)?;
    proof { bytes = bytes + ser_expr((**boolean_expression).view(), ov).0->0; acc = wcat(acc, ser_expr((**boolean_expression).view(), ov)); }
    assert(writer.data@ =~= w0 + bytes);
    off = off + o;
    assert(acc == ser_ex_jump_if_not(e.view(), ov));
    Ok(off)
    },
    _ => Err(Error::Utf8),
    }
}

/// Write what an `ExAssert` holds; it reports the size that it takes in memory.
#[verifier::spinoff_prover]
pub(crate) fn write_ex_assert(e: &KismetExpression, writer: &mut ByteWriter, ov: i32) -> (res: Result<usize, Error>)
    requires
        ser_ex_assert(e.view(), ov).1 <= usize::MAX,
    ensures
        wrote(old(writer).data@, final(writer).data@, res, ser_ex_assert(e.view(), ov)),
    decreases e.view(), 0int,
{
    match e {
    KismetExpression::ExAssert { line_number, debug_mode, assert_expression } => {
    let ghost w0 = writer.data@;
    let ghost mut acc = wlit(Seq::<u8>::empty(), 5);
    let ghost mut bytes = Seq::<u8>::empty();
    let mut off: usize = 5;
    assert(writer.data@ =~= w0 + bytes);
    writer.write_u16(*line_number);
    proof { acc = wcat(acc, wlit(ser_u16(*line_number), 0)); bytes = bytes + ser_u16(*line_number); }
    assert(writer.data@ =~= w0 + bytes);
    writer.write_u8(if *debug_mode { 1u8 } else { 0u8 });
    proof { acc = wcat(acc, wlit(seq![if *debug_mode { 1u8 } else { 0u8 }], 0)); bytes = bytes + seq![if *debug_mode { 1u8 } else { 0u8 }]; }
    assert(writer.data@ =~= w0 + bytes);
    let o = KismetExpression::write(&**assert_expression, writer, ov)?;
    proof { bytes = bytes + ser_expr((**assert_expression).view(), ov).0->0; acc = wcat(acc, ser_expr((**assert_expression).view(), ov)); }
    assert(writer.data@ =~= w0 + bytes);
    off = off + o;
    assert(acc == ser_ex_assert(e.view(), ov));
    Ok(off)
    },
    _ => Err(Error::Utf8),
    }
}

/// Write what an `ExLet` holds; it reports the size that it takes in memory.
#[verifier::spinoff_prover]
pub(crate) fn write_ex_let(e: &KismetExpression, writer: &mut ByteWriter, ov: i32) -> (res: Result<usize, Error>)
    requires
        ser_ex_let(e.view(), ov).1 <= usize::MAX,
    ensures
        wrote(old(writer).data@, final(writer).data@, res, ser_ex_let(e.view(), ov)),
    decreases e.view(), 0int,
{
    match e {
    KismetExpression::ExLet { value, variable, expression } => {
    let ghost w0 = writer.data@;
    let ghost mut acc = wlit(Seq::<u8>::empty(), 0);
    let ghost mut bytes = Seq::<u8>::empty();
    let mut off: usize = 0;
    assert(writer.data@ =~= w0 + bytes);
    let o = value.write(writer, ov)?;
    proof { bytes = bytes + ser_ptr(value.view(), ov).0->0; acc = wcat(acc, ser_ptr(value.view(), ov)); }
    assert(writer.data@ =~= w0 + bytes);
    off = off + o;
    let o = KismetExpression::write(&**variable, writer, ov)?;
    proof { bytes = bytes + ser_expr((**variable).view(), ov).0->0; acc = wcat(acc, ser_expr((**variable).view(), ov)); }
    assert(writer.data@ =~= w0 + bytes);
    off = off + o;
    let o = KismetExpression::write(&**expression, writer, ov)?;
    proof { bytes = bytes + ser_expr((**expression).view(), ov).0->0; acc = wcat(acc, ser_expr((**expression).view(), ov)); }
    assert(writer.data@ =~= w0 + bytes);
    off = off + o;
    assert(acc == ser_ex_let(e.view(), ov));
    Ok(off)
    },
    _ => Err(Error::Utf8),
    }
}

/// Write what an `ExClassContext` holds; it reports the size that it takes in memory.
#[verifier::spinoff_prover]
pub(crate) fn write_ex_class_context(e: &KismetExpression, writer: &mut ByteWriter, ov: i32) -> (res: Result<usize, Error>)
    requires
        ser_ex_class_context(e.view(), ov).1 <= usize::MAX,
    ensures
        wrote(old(writer).data@, final(writer).data@, res, ser_ex_class_context(e.view(), ov)),
    decreases e.view(), 0int,
{
    match e {
    KismetExpression::ExClassContext { object_expression, offset, r_value_pointer, context_expression } => {
    let ghost w0 = writer.data@;
    let ghost mut acc = wlit(Seq::<u8>::empty(), 4);
    let ghost mut bytes = Seq::<u8>::empty();
    let mut off: usize = 4;
    assert(writer.data@ =~= w0 + bytes);
    let o = KismetExpression::write(&**object_expression, writer, ov)?;
    proof { bytes = bytes + ser_expr((**object_expression).view(), ov).0->0; acc = wcat(acc, ser_expr((**object_expression).view(), ov)); }
    assert(writer.data@ =~= w0 + bytes);
    off = off + o;
    writer.write_u32(*offset);
    proof { acc = wcat(acc, wlit(ser_u32(*offset), 0)); bytes = bytes + ser_u32(*offset); }
    assert(writer.data@ =~= w0 + bytes);
    let o = r_value_pointer.write(writer, ov)?;
    proof { bytes = bytes + ser_ptr(r_value_pointer.view(), ov).0->0; acc = wcat(acc, ser_ptr(r_value_pointer.view(), ov)); }
    assert(writer.data@ =~= w0 + bytes);
    off = off + o;
    let o = KismetExpression::write(&**context_expression, writer, ov)?;
    proof { bytes = bytes + ser_expr((**context_expression).view(), ov).0->0; acc = wcat(acc, ser_expr((**context_expression).view(), ov)); }
    assert(writer.data@ =~= w0 + bytes);
    off = off + o;
    assert(acc == ser_ex_class_context(e.view(), ov));
    Ok(off)
    },
    _ => Err(Error::Utf8),
    }
}

/// Write what an `ExMetaCast` holds; it reports the size that it takes in memory.
#[verifier::spinoff_prover]
pub(crate) fn write_ex_meta_cast(e: &KismetExpression, writer: &mut ByteWriter, ov: i32) -> (res: Result<usize, Error>)
    requires
        ser_ex_meta_cast(e.view(), ov).1 <= usize::MAX,
    ensures
        wrote(old(writer).data@, final(writer).data@, res, ser_ex_meta_cast(e.view(), ov)),
    decreases e.view(), 0int,
{
    match e {
    KismetExpression::ExMetaCast { class_ptr, target_expression } => {
    let ghost w0 = writer.data@;
    let ghost mut acc = wlit(Seq::<u8>::empty(), 8);
    let ghost mut bytes = Seq::<u8>::empty();
    let mut off: usize = 8;
    assert(writer.data@ =~= w0 + bytes);
    writer.write_i32(class_ptr.index);
    proof { acc = wcat(acc, wlit(ser_i32(class_ptr.index), 0)); bytes = bytes + ser_i32(class_ptr.index); }
    assert(writer.data@ =~= w0 + bytes);
    let o = KismetExpression::write(&**target_expression, writer, ov)?;
    proof { bytes = bytes + ser_expr((**target_expression).view(), ov).0->0; acc = wcat(acc, ser_expr((**target_expression).view(), ov)); }
    assert(writer.data@ =~= w0 + bytes);
    off = off + o;
    assert(acc == ser_ex_meta_cast(e.view(), ov));
    Ok(off)
    },
    _ => Err(Error::Utf8),
    }
}

/// Write what an `ExLetBool` holds; it reports the size that it takes in memory.
#[verifier::spinoff_prover]
pub(crate) fn write_ex_let_bool(e: &KismetExpression, writer: &mut ByteWriter, ov: i32) -> (res: Result<usize, Error>)
    requires
        ser_ex_let_bool(e.view(), ov).1 <= usize::MAX,
    ensures
        wrote(old(writer).data@, final(writer).data@, res, ser_ex_let_bool(e.view(), ov)),
    decreases e.view(), 0int,
{
    match e {
    KismetExpression::ExLetBool { variable_expression, assignment_expression } => {
    let ghost w0 = writer.data@;
    let ghost mut acc = wlit(Seq::<u8>::empty(), 0);
    let ghost mut bytes = Seq::<u8>::empty();
    let mut off: usize = 0;
    assert(writer.data@ =~= w0 + bytes);
    let o = KismetExpression::write(&**variable_expression, writer, ov)?;
    proof { bytes = bytes + ser_expr((**variable_expression).view(), ov).0->0; acc = wcat(acc, ser_expr((**variable_expression).view(), ov)); }
    assert(writer.data@ =~= w0 + bytes);
    off = off + o;
    let o = KismetExpression::write(&**assignment_expression, writer, ov)?;
    proof { bytes = bytes + ser_expr((**assignment_expression).view(), ov).0->0; acc = wcat(acc, ser_expr((**assignment_expression).view(), ov)); }
    assert(writer.data@ =~= w0 + bytes);
    off = off + o;
    assert(acc == ser_ex_let_bool(e.view(), ov));
    Ok(off)
    },
    _ => Err(Error::Utf8),
    }
}

/// Write what an `ExSkip` holds; it reports the size that it takes in memory.
#[verifier::spinoff_prover]
pub(crate) fn write_ex_skip(e: &KismetExpression, writer: &mut ByteWriter, ov: i32) -> (res: Result<usize, Error>)
    requires
        ser_ex_skip(e.view(), ov).1 <= usize::MAX,
    ensures
        wrote(old(writer).data@, final(writer).data@, res, ser_ex_skip(e.view(), ov)),
    decreases e.view(), 0int,
{
    match e {
    KismetExpression::ExSkip { code_offset, skip_expression } => {
    let ghost w0 = writer.data@;
    let ghost mut acc = wlit(Seq::<u8>::empty(), 4);
    let ghost mut bytes = Seq::<u8>::empty();
    let mut off: usize = 4;
    assert(writer.data@ =~= w0 + bytes);
    writer.write_u32(*code_offset);
    proof { acc = wcat(acc, wlit(ser_u32(*code_offset), 0)); bytes = bytes + ser_u32(*code_offset); }
    assert(writer.data@ =~= w0 + bytes);
    let o = KismetExpression::write(&**skip_expression, writer, ov)?;
    proof { bytes = bytes + ser_expr((**skip_expression).view(), ov).0->0; acc = wcat(acc, ser_expr((**skip_expression).view(), ov)); }
    assert(writer.data@ =~= w0 + bytes);
    off = off + o;
    assert(acc == ser_ex_skip(e.view(), ov));
    Ok(off)
    },
    _ => Err(Error::Utf8),
    }
}

/// Write what an `ExContext` holds; it reports the size that it takes in memory.
#[verifier::spinoff_prover]
pub(crate) fn write_ex_context(e: &KismetExpression, writer: &mut ByteWriter, ov: i32) -> (res: Result<usize, Error>)
    requires
        ser_ex_context(e.view(), ov).1 <= usize::MAX,
    ensures
        wrote(old(writer).data@, final(writer).data@, res, ser_ex_context(e.view(), ov)),
    decreases e.view(), 0int,
{
    match e {
    KismetExpression::ExContext { object_expression, offset, r_value_pointer, context_expression } => {
    let ghost w0 = writer.data@;
    let ghost mut acc = wlit(Seq::<u8>::empty(), 4);
    let ghost mut bytes = Seq::<u8>::empty();
    let mut off: usize = 4;
    assert(writer.data@ =~= w0 + bytes);
    let o = KismetExpression::write(&**object_expression, writer, ov)?;
    proof { bytes = bytes + ser_expr((**object_expression).view(), ov).0->0; acc = wcat(acc, ser_expr((**object_expression).view(), ov)); }
    assert(writer.data@ =~= w0 + bytes);
    off = off + o;
    writer.write_u32(*offset);
    proof { acc = wcat(acc, wlit(ser_u32(*offset), 0)); bytes = bytes + ser_u32(*offset); }
    assert(writer.data@ =~= w0 + bytes);
    let o = r_value_pointer.write(writer, ov)?;
    proof { bytes = bytes + ser_ptr(r_value_pointer.view(), ov).0->0; acc = wcat(acc, ser_ptr(r_value_pointer.view(), ov)); }
    assert(writer.data@ =~= w0 + bytes);
    off = off + o;
    let o = KismetExpression::write(&**context_expression, writer, ov)?;
    proof { bytes = bytes + ser_expr((**context_expression).view(), ov).0->0; acc = wcat(acc, ser_expr((**context_expression).view(), ov)); }
    assert(writer.data@ =~= w0 + bytes);
    off = off + o;
    assert(acc == ser_ex_context(e.view(), ov));
    Ok(off)
    },
    _ => Err(Error::Utf8),
    }
}

/// Write what an `ExContextFailSilent` holds; it reports the size that it takes in memory.
#[verifier::spinoff_prover]
pub(crate) fn write_ex_context_fail_silent(e: &KismetExpression, writer: &mut ByteWriter, ov: i32) -> (res: Result<usize, Error>)
    requires
        ser_ex_context_fail_silent(e.view(), ov).1 <= usize::MAX,
    ensures
        wrote(old(writer).data@, final(writer).data@, res, ser_ex_context_fail_silent(e.view(), ov)),
    decreases e.view(), 0int,
{
    match e {
    KismetExpression::ExContextFailSilent { object_expression, offset, r_value_pointer, context_expression } => {
    let ghost w0 = writer.data@;
    let ghost mut acc = wlit(Seq::<u8>::empty(), 4);
    let ghost mut bytes = Seq::<u8>::empty();
    let mut off: usize = 4;
    assert(writer.data@ =~= w0 + bytes);
    let o = KismetExpression::write(&**object_expression, writer, ov)?;
    proof { bytes = bytes + ser_expr((**object_expression).view(), ov).0->0; acc = wcat(acc, ser_expr((**object_expression).view(), ov)); }
    assert(writer.data@ =~= w0 + bytes);
    off = off + o;
    writer.write_u32(*offset);
    proof { acc = wcat(acc, wlit(ser_u32(*offset), 0)); bytes = bytes + ser_u32(*offset); }
    assert(writer.data@ =~= w0 + bytes);
    let o = r_value_pointer.write(writer, ov)?;
    proof { bytes = bytes + ser_ptr(r_value_pointer.view(), ov).0->0; acc = wcat(acc, ser_ptr(r_value_pointer.view(), ov)); }
    assert(writer.data@ =~= w0 + bytes);
    off = off + o;
    let o = KismetExpression::write(&**context_expression, writer, ov)?;
    proof { bytes = bytes + ser_expr((**context_expression).view(), ov).0->0; acc = wcat(acc, ser_expr((**context_expression).view(), ov)); }
    assert(writer.data@ =~= w0 + bytes);
    off = off + o;
    assert(acc == ser_ex_context_fail_silent(e.view(), ov));
    Ok(off)
    },
    _ => Err(Error::Utf8),
    }
}

/// Write what an `ExVirtualFunction` holds; it reports the size that it takes in memory.
#[verifier::spinoff_prover]
pub(crate) fn write_ex_virtual_function(e: &KismetExpression, writer: &mut ByteWriter, ov: i32) -> (res: Result<usize, Error>)
    requires
        ser_ex_virtual_function(e.view(), ov).1 <= usize::MAX,
    ensures
        wrote(old(writer).data@, final(writer).data@, res, ser_ex_virtual_function(e.view(), ov)),
    decreases e.view(), 0int,
{
    match e {
    KismetExpression::ExVirtualFunction { virtual_function_name, parameters } => {
    let ghost w0 = writer.data@;
    let ghost mut acc = wlit(Seq::<u8>::empty(), 12);
    let ghost mut bytes = Seq::<u8>::empty();
    let mut off: usize = 12;
    assert(writer.data@ =~= w0 + bytes);
    write_fname(writer, *virtual_function_name);
    proof { acc = wcat(acc, wlit(ser_fname(*virtual_function_name), 0)); bytes = bytes + ser_fname(*virtual_function_name); }
    assert(writer.data@ =~= w0 + bytes);
    let o = write_list(parameters, writer, ov)?;
    proof { bytes = bytes + ser_list(views(parameters@), ov).0->0; acc = wcat(acc, ser_list(views(parameters@), ov)); }
    assert(writer.data@ =~= w0 + bytes);
    off = off + o;
    writer.write_u8(EExprToken::ExEndFunctionParms.value());
    proof { acc = wcat(acc, wlit(seq![EExprToken::ExEndFunctionParms.spec_value()], 1)); bytes = bytes + seq![EExprToken::ExEndFunctionParms.spec_value()]; }
    assert(writer.data@ =~= w0 + bytes);
    off = off + 1;
    assert(acc == ser_ex_virtual_function(e.view(), ov));
    Ok(off)
    },
    _ => Err(Error::Utf8),
    }
}

} // verus!
