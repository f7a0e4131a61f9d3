//! Writing what an expression holds, for each group of tokens.

use vstd::prelude::*;
use crate::archive::ByteWriter;
use crate::error::Error;
use super::expression::KismetExpression;
use super::ser::{ser_body_0, ser_body_1, ser_body_2, ser_body_3, ser_body_4};
use super::write::wrote;
use super::write_expr::{write_ex_set_array, write_ex_switch_value, write_ex_instrumentation_event};
use super::write_ex0::{write_ex_local_variable, write_ex_instance_variable, write_ex_default_variable, write_ex_return, write_ex_jump, write_ex_jump_if_not, write_ex_assert, write_ex_let, write_ex_class_context, write_ex_meta_cast, write_ex_let_bool, write_ex_skip, write_ex_context, write_ex_context_fail_silent, write_ex_virtual_function};
use super::write_ex1::{write_ex_final_function, write_ex_int_const, write_ex_float_const, write_ex_string_const, write_ex_object_const, write_ex_name_const, write_ex_rotation_const, write_ex_vector_const, write_ex_byte_const, write_ex_text_const, write_ex_transform_const, write_ex_int_const_byte, write_ex_dynamic_cast};
use super::write_ex2::{write_ex_struct_const, write_ex_property_const, write_ex_unicode_string_const, write_ex_int64_const, write_ex_uint64_const, write_ex_primitive_cast, write_ex_set_set, write_ex_set_map, write_ex_set_const, write_ex_map_const, write_ex_struct_member_context};
use super::write_ex3::{write_ex_let_multicast_delegate, write_ex_let_delegate, write_ex_local_virtual_function, write_ex_local_final_function, write_ex_local_out_variable, write_ex_instance_delegate, write_ex_push_execution_flow, write_ex_computed_jump, write_ex_pop_execution_flow_if_not, write_ex_interface_context, write_ex_obj_to_interface_cast, write_ex_cross_interface_cast, write_ex_interface_to_obj_cast, write_ex_skip_offset_const};
use super::write_ex4::{write_ex_add_multicast_delegate, write_ex_clear_multicast_delegate, write_ex_let_obj, write_ex_let_weak_obj_ptr, write_ex_bind_delegate, write_ex_remove_multicast_delegate, write_ex_call_multicast_delegate, write_ex_let_value_on_persistent_frame, write_ex_array_const, write_ex_soft_object_const, write_ex_call_math, write_ex_array_get_by_ref, write_ex_class_sparse_data_variable, write_ex_field_path_const};

verus! {

/// Write what an expression of a token of group 0 holds.
#[verifier::spinoff_prover]
#[verifier::rlimit(60)]
pub(crate) fn write_body_0(e: &KismetExpression, writer: &mut ByteWriter, ov: i32) -> (res: Result<usize, Error>)
    requires
        ser_body_0(e.view(), ov).1 <= usize::MAX,
    ensures
        wrote(old(writer).data@, final(writer).data@, res, ser_body_0(e.view(), ov)),
    decreases e.view(), 1int,
{
    proof { reveal(ser_body_0); }
    assert(writer.data@ + Seq::<u8>::empty() =~= writer.data@);
    match e {
        KismetExpression::ExLocalVariable { .. } => write_ex_local_variable(e, writer, ov),
        KismetExpression::ExInstanceVariable { .. } => write_ex_instance_variable(e, writer, ov),
        KismetExpression::ExDefaultVariable { .. } => write_ex_default_variable(e, writer, ov),
        KismetExpression::ExReturn { .. } => write_ex_return(e, writer, ov),
        KismetExpression::ExJump { .. } => write_ex_jump(e, writer, ov),
        KismetExpression::ExJumpIfNot { .. } => write_ex_jump_if_not(e, writer, ov),
        KismetExpression::ExAssert { .. } => write_ex_assert(e, writer, ov),
        KismetExpression::ExNothing => Ok(0),
        KismetExpression::ExLet { .. } => write_ex_let(e, writer, ov),
        KismetExpression::ExClassContext { .. } => write_ex_class_context(e, writer, ov),
        KismetExpression::ExMetaCast { .. } => write_ex_meta_cast(e, writer, ov),
        KismetExpression::ExLetBool { .. } => write_ex_let_bool(e, writer, ov),
        KismetExpression::ExEndParmValue => Ok(0),
        KismetExpression::ExEndFunctionParms => Ok(0),
        KismetExpression::ExSelf => Ok(0),
        KismetExpression::ExSkip { .. } => write_ex_skip(e, writer, ov),
        KismetExpression::ExContext { .. } => write_ex_context(e, writer, ov),
        KismetExpression::ExContextFailSilent { .. } => write_ex_context_fail_silent(e, writer, ov),
        KismetExpression::ExVirtualFunction { .. } => write_ex_virtual_function(e, writer, ov),
        _ => Err(Error::Utf8),
    }
}

/// Write what an expression of a token of group 1 holds.
#[verifier::spinoff_prover]
#[verifier::rlimit(60)]
pub(crate) fn write_body_1(e: &KismetExpression, writer: &mut ByteWriter, ov: i32) -> (res: Result<usize, Error>)
    requires
        ser_body_1(e.view(), ov).1 <= usize::MAX,
    ensures
        wrote(old(writer).data@, final(writer).data@, res, ser_body_1(e.view(), ov)),
    decreases e.view(), 1int,
{
    proof { reveal(ser_body_1); }
    assert(writer.data@ + Seq::<u8>::empty() =~= writer.data@);
    match e {
        KismetExpression::ExFinalFunction { .. } => write_ex_final_function(e, writer, ov),
        KismetExpression::ExIntConst { .. } => write_ex_int_const(e, writer, ov),
        KismetExpression::ExFloatConst { .. } => write_ex_float_const(e, writer, ov),
        KismetExpression::ExStringConst { .. } => write_ex_string_const(e, writer, ov),
        KismetExpression::ExObjectConst { .. } => write_ex_object_const(e, writer, ov),
        KismetExpression::ExNameConst { .. } => write_ex_name_const(e, writer, ov),
        KismetExpression::ExRotationConst { .. } => write_ex_rotation_const(e, writer, ov),
        KismetExpression::ExVectorConst { .. } => write_ex_vector_const(e, writer, ov),
        KismetExpression::ExByteConst { .. } => write_ex_byte_const(e, writer, ov),
        KismetExpression::ExIntZero => Ok(0),
        KismetExpression::ExIntOne => Ok(0),
        KismetExpression::ExTrue => Ok(0),
        KismetExpression::ExFalse => Ok(0),
        KismetExpression::ExTextConst { .. } => write_ex_text_const(e, writer, ov),
        KismetExpression::ExNoObject => Ok(0),
        KismetExpression::ExTransformConst { .. } => write_ex_transform_const(e, writer, ov),
        KismetExpression::ExIntConstByte { .. } => write_ex_int_const_byte(e, writer, ov),
        KismetExpression::ExNoInterface => Ok(0),
        KismetExpression::ExDynamicCast { .. } => write_ex_dynamic_cast(e, writer, ov),
        _ => Err(Error::Utf8),
    }
}

/// Write what an expression of a token of group 2 holds.
#[verifier::spinoff_prover]
#[verifier::rlimit(60)]
pub(crate) fn write_body_2(e: &KismetExpression, writer: &mut ByteWriter, ov: i32) -> (res: Result<usize, Error>)
    requires
        ser_body_2(e.view(), ov).1 <= usize::MAX,
    ensures
        wrote(old(writer).data@, final(writer).data@, res, ser_body_2(e.view(), ov)),
    decreases e.view(), 1int,
{
    proof { reveal(ser_body_2); }
    assert(writer.data@ + Seq::<u8>::empty() =~= writer.data@);
    match e {
        KismetExpression::ExStructConst { .. } => write_ex_struct_const(e, writer, ov),
        KismetExpression::ExEndStructConst => Ok(0),
        KismetExpression::ExSetArray { .. } => write_ex_set_array(e, writer, ov),
        KismetExpression::ExEndArray => Ok(0),
        KismetExpression::ExPropertyConst { .. } => write_ex_property_const(e, writer, ov),
        KismetExpression::ExUnicodeStringConst { .. } => write_ex_unicode_string_const(e, writer, ov),
        KismetExpression::ExInt64Const { .. } => write_ex_int64_const(e, writer, ov),
        KismetExpression::ExUInt64Const { .. } => write_ex_uint64_const(e, writer, ov),
        KismetExpression::ExPrimitiveCast { .. } => write_ex_primitive_cast(e, writer, ov),
        KismetExpression::ExSetSet { .. } => write_ex_set_set(e, writer, ov),
        KismetExpression::ExEndSet => Ok(0),
        KismetExpression::ExSetMap { .. } => write_ex_set_map(e, writer, ov),
        KismetExpression::ExEndMap => Ok(0),
        KismetExpression::ExSetConst { .. } => write_ex_set_const(e, writer, ov),
        KismetExpression::ExEndSetConst => Ok(0),
        KismetExpression::ExMapConst { .. } => write_ex_map_const(e, writer, ov),
        KismetExpression::ExEndMapConst => Ok(0),
        KismetExpression::ExStructMemberContext { .. } => write_ex_struct_member_context(e, writer, ov),
        _ => Err(Error::Utf8),
    }
}

/// Write what an expression of a token of group 3 holds.
#[verifier::spinoff_prover]
#[verifier::rlimit(60)]
pub(crate) fn write_body_3(e: &KismetExpression, writer: &mut ByteWriter, ov: i32) -> (res: Result<usize, Error>)
    requires
        ser_body_3(e.view(), ov).1 <= usize::MAX,
    ensures
        wrote(old(writer).data@, final(writer).data@, res, ser_body_3(e.view(), ov)),
    decreases e.view(), 1int,
{
    proof { reveal(ser_body_3); }
    assert(writer.data@ + Seq::<u8>::empty() =~= writer.data@);
    match e {
        KismetExpression::ExLetMulticastDelegate { .. } => write_ex_let_multicast_delegate(e, writer, ov),
        KismetExpression::ExLetDelegate { .. } => write_ex_let_delegate(e, writer, ov),
        KismetExpression::ExLocalVirtualFunction { .. } => write_ex_local_virtual_function(e, writer, ov),
        KismetExpression::ExLocalFinalFunction { .. } => write_ex_local_final_function(e, writer, ov),
        KismetExpression::ExLocalOutVariable { .. } => write_ex_local_out_variable(e, writer, ov),
        KismetExpression::ExDeprecatedOp4A => Ok(0),
        KismetExpression::ExInstanceDelegate { .. } => write_ex_instance_delegate(e, writer, ov),
        KismetExpression::ExPushExecutionFlow { .. } => write_ex_push_execution_flow(e, writer, ov),
        KismetExpression::ExPopExecutionFlow => Ok(0),
        KismetExpression::ExComputedJump { .. } => write_ex_computed_jump(e, writer, ov),
        KismetExpression::ExPopExecutionFlowIfNot { .. } => write_ex_pop_execution_flow_if_not(e, writer, ov),
        KismetExpression::ExBreakpoint => Ok(0),
        KismetExpression::ExInterfaceContext { .. } => write_ex_interface_context(e, writer, ov),
        KismetExpression::ExObjToInterfaceCast { .. } => write_ex_obj_to_interface_cast(e, writer, ov),
        KismetExpression::ExEndOfScript => Ok(0),
        KismetExpression::ExCrossInterfaceCast { .. } => write_ex_cross_interface_cast(e, writer, ov),
        KismetExpression::ExInterfaceToObjCast { .. } => write_ex_interface_to_obj_cast(e, writer, ov),
        KismetExpression::ExWireTracepoint => Ok(0),
        KismetExpression::ExSkipOffsetConst { .. } => write_ex_skip_offset_const(e, writer, ov),
        _ => Err(Error::Utf8),
    }
}

/// Write what an expression of a token of group 4 holds.
#[verifier::spinoff_prover]
#[verifier::rlimit(60)]
pub(crate) fn write_body_4(e: &KismetExpression, writer: &mut ByteWriter, ov: i32) -> (res: Result<usize, Error>)
    requires
        ser_body_4(e.view(), ov).1 <= usize::MAX,
    ensures
        wrote(old(writer).data@, final(writer).data@, res, ser_body_4(e.view(), ov)),
    decreases e.view(), 1int,
{
    proof { reveal(ser_body_4); }
    assert(writer.data@ + Seq::<u8>::empty() =~= writer.data@);
    match e {
        KismetExpression::ExAddMulticastDelegate { .. } => write_ex_add_multicast_delegate(e, writer, ov),
        KismetExpression::ExClearMulticastDelegate { .. } => write_ex_clear_multicast_delegate(e, writer, ov),
        KismetExpression::ExTracepoint => Ok(0),
        KismetExpression::ExLetObj { .. } => write_ex_let_obj(e, writer, ov),
        KismetExpression::ExLetWeakObjPtr { .. } => write_ex_let_weak_obj_ptr(e, writer, ov),
        KismetExpression::ExBindDelegate { .. } => write_ex_bind_delegate(e, writer, ov),
        KismetExpression::ExRemoveMulticastDelegate { .. } => write_ex_remove_multicast_delegate(e, writer, ov),
        KismetExpression::ExCallMulticastDelegate { .. } => write_ex_call_multicast_delegate(e, writer, ov),
        KismetExpression::ExLetValueOnPersistentFrame { .. } => write_ex_let_value_on_persistent_frame(e, writer, ov),
        KismetExpression::ExArrayConst { .. } => write_ex_array_const(e, writer, ov),
        KismetExpression::ExEndArrayConst => Ok(0),
        KismetExpression::ExSoftObjectConst { .. } => write_ex_soft_object_const(e, writer, ov),
        KismetExpression::ExCallMath { .. } => write_ex_call_math(e, writer, ov),
        KismetExpression::ExSwitchValue { .. } => write_ex_switch_value(e, writer, ov),
        KismetExpression::ExInstrumentationEvent { .. } => write_ex_instrumentation_event(e, writer, ov),
        KismetExpression::ExArrayGetByRef { .. } => write_ex_array_get_by_ref(e, writer, ov),
        KismetExpression::ExClassSparseDataVariable { .. } => write_ex_class_sparse_data_variable(e, writer, ov),
        KismetExpression::ExFieldPathConst { .. } => write_ex_field_path_const(e, writer, ov),
        _ => Err(Error::Utf8),
    }
}

} // verus!
