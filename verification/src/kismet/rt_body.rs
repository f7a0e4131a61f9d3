//! What an expression holds reads back as it was written, for each group of tokens.

use vstd::prelude::*;
use super::expression::KView;
use super::fits::kfits;
use super::parse::{KRead, body_group, parse_body_0, parse_body_1, parse_body_2, parse_body_3, parse_body_4};
use super::ser::{ser_body_0, ser_body_1, ser_body_2, ser_body_3, ser_body_4};
use super::rt_ex0::{lemma_rt_ex_local_variable, lemma_rt_ex_instance_variable, lemma_rt_ex_default_variable, lemma_rt_ex_return, lemma_rt_ex_jump, lemma_rt_ex_jump_if_not, lemma_rt_ex_assert, lemma_rt_ex_let, lemma_rt_ex_class_context, lemma_rt_ex_meta_cast, lemma_rt_ex_let_bool, lemma_rt_ex_skip, lemma_rt_ex_context, lemma_rt_ex_context_fail_silent, lemma_rt_ex_virtual_function};
use super::rt_ex1::{lemma_rt_ex_final_function, lemma_rt_ex_int_const, lemma_rt_ex_float_const, lemma_rt_ex_string_const, lemma_rt_ex_object_const, lemma_rt_ex_name_const, lemma_rt_ex_rotation_const, lemma_rt_ex_vector_const, lemma_rt_ex_byte_const, lemma_rt_ex_text_const, lemma_rt_ex_transform_const, lemma_rt_ex_int_const_byte, lemma_rt_ex_dynamic_cast};
use super::rt_ex2::{lemma_rt_ex_struct_const, lemma_rt_ex_set_array, lemma_rt_ex_property_const, lemma_rt_ex_unicode_string_const, lemma_rt_ex_int64_const, lemma_rt_ex_uint64_const, lemma_rt_ex_primitive_cast, lemma_rt_ex_set_set, lemma_rt_ex_set_map, lemma_rt_ex_set_const, lemma_rt_ex_map_const, lemma_rt_ex_struct_member_context};
use super::rt_ex3::{lemma_rt_ex_let_multicast_delegate, lemma_rt_ex_let_delegate, lemma_rt_ex_local_virtual_function, lemma_rt_ex_local_final_function, lemma_rt_ex_local_out_variable, lemma_rt_ex_instance_delegate, lemma_rt_ex_push_execution_flow, lemma_rt_ex_computed_jump, lemma_rt_ex_pop_execution_flow_if_not, lemma_rt_ex_interface_context, lemma_rt_ex_obj_to_interface_cast, lemma_rt_ex_cross_interface_cast, lemma_rt_ex_interface_to_obj_cast, lemma_rt_ex_skip_offset_const};
use super::rt_ex4::{lemma_rt_ex_add_multicast_delegate, lemma_rt_ex_clear_multicast_delegate, lemma_rt_ex_let_obj, lemma_rt_ex_let_weak_obj_ptr, lemma_rt_ex_bind_delegate, lemma_rt_ex_remove_multicast_delegate, lemma_rt_ex_call_multicast_delegate, lemma_rt_ex_let_value_on_persistent_frame, lemma_rt_ex_array_const, lemma_rt_ex_soft_object_const, lemma_rt_ex_call_math, lemma_rt_ex_switch_value, lemma_rt_ex_instrumentation_event, lemma_rt_ex_array_get_by_ref, lemma_rt_ex_class_sparse_data_variable, lemma_rt_ex_field_path_const};

verus! {

/// Whether an expression has a token of group 0.
pub open spec fn in_group_0(e: KView) -> bool {
    e is ExLocalVariable || e is ExInstanceVariable || e is ExDefaultVariable || e is ExReturn || e is ExJump || e is ExJumpIfNot || e is ExAssert || e is ExNothing || e is ExLet || e is ExClassContext || e is ExMetaCast || e is ExLetBool || e is ExEndParmValue || e is ExEndFunctionParms || e is ExSelf || e is ExSkip || e is ExContext || e is ExContextFailSilent || e is ExVirtualFunction
}

/// An expression whose token is of group 0 has a token of the group.
pub proof fn lemma_in_group_0(e: KView)
    ensures body_group(e.token()) == 0 ==> in_group_0(e),
{
    reveal(body_group);
}

/// Whether an expression has a token of group 1.
pub open spec fn in_group_1(e: KView) -> bool {
    e is ExFinalFunction || e is ExIntConst || e is ExFloatConst || e is ExStringConst || e is ExObjectConst || e is ExNameConst || e is ExRotationConst || e is ExVectorConst || e is ExByteConst || e is ExIntZero || e is ExIntOne || e is ExTrue || e is ExFalse || e is ExTextConst || e is ExNoObject || e is ExTransformConst || e is ExIntConstByte || e is ExNoInterface || e is ExDynamicCast
}

/// An expression whose token is of group 1 has a token of the group.
pub proof fn lemma_in_group_1(e: KView)
    ensures body_group(e.token()) == 1 ==> in_group_1(e),
{
    reveal(body_group);
}

/// Whether an expression has a token of group 2.
pub open spec fn in_group_2(e: KView) -> bool {
    e is ExStructConst || e is ExEndStructConst || e is ExSetArray || e is ExEndArray || e is ExPropertyConst || e is ExUnicodeStringConst || e is ExInt64Const || e is ExUInt64Const || e is ExPrimitiveCast || e is ExSetSet || e is ExEndSet || e is ExSetMap || e is ExEndMap || e is ExSetConst || e is ExEndSetConst || e is ExMapConst || e is ExEndMapConst || e is ExStructMemberContext
}

/// An expression whose token is of group 2 has a token of the group.
pub proof fn lemma_in_group_2(e: KView)
    ensures body_group(e.token()) == 2 ==> in_group_2(e),
{
    reveal(body_group);
}

/// Whether an expression has a token of group 3.
pub open spec fn in_group_3(e: KView) -> bool {
    e is ExLetMulticastDelegate || e is ExLetDelegate || e is ExLocalVirtualFunction || e is ExLocalFinalFunction || e is ExLocalOutVariable || e is ExDeprecatedOp4A || e is ExInstanceDelegate || e is ExPushExecutionFlow || e is ExPopExecutionFlow || e is ExComputedJump || e is ExPopExecutionFlowIfNot || e is ExBreakpoint || e is ExInterfaceContext || e is ExObjToInterfaceCast || e is ExEndOfScript || e is ExCrossInterfaceCast || e is ExInterfaceToObjCast || e is ExWireTracepoint || e is ExSkipOffsetConst
}

/// An expression whose token is of group 3 has a token of the group.
pub proof fn lemma_in_group_3(e: KView)
    ensures body_group(e.token()) == 3 ==> in_group_3(e),
{
    reveal(body_group);
}

/// Whether an expression has a token of group 4.
pub open spec fn in_group_4(e: KView) -> bool {
    e is ExAddMulticastDelegate || e is ExClearMulticastDelegate || e is ExTracepoint || e is ExLetObj || e is ExLetWeakObjPtr || e is ExBindDelegate || e is ExRemoveMulticastDelegate || e is ExCallMulticastDelegate || e is ExLetValueOnPersistentFrame || e is ExArrayConst || e is ExEndArrayConst || e is ExSoftObjectConst || e is ExCallMath || e is ExSwitchValue || e is ExInstrumentationEvent || e is ExArrayGetByRef || e is ExClassSparseDataVariable || e is ExFieldPathConst
}

/// An expression whose token is of group 4 has a token of the group.
pub proof fn lemma_in_group_4(e: KView)
    ensures body_group(e.token()) == 4 ==> in_group_4(e),
{
    reveal(body_group);
}

/// What an expression of group 0 that fits holds reads back, whatever follows.
pub proof fn lemma_rt_body_0(e: KView, ov: i32, n: nat, r: Seq<u8>)
    requires
        kfits(e, ov, n),
        in_group_0(e),
    ensures
        ser_body_0(e, ov).0 is Some,
        parse_body_0(e.token(), ser_body_0(e, ov).0->0 + r, ov, n) == KRead::Done(e, ser_body_0(e, ov).0->0.len()),
    decreases e, 2int,
{
    match e {
        KView::ExLocalVariable { .. } => { lemma_rt_in_0_local_variable(e, ov, n, r); },
        KView::ExInstanceVariable { .. } => { lemma_rt_in_0_instance_variable(e, ov, n, r); },
        KView::ExDefaultVariable { .. } => { lemma_rt_in_0_default_variable(e, ov, n, r); },
        KView::ExReturn { .. } => { lemma_rt_in_0_return(e, ov, n, r); },
        KView::ExJump { .. } => { lemma_rt_in_0_jump(e, ov, n, r); },
        KView::ExJumpIfNot { .. } => { lemma_rt_in_0_jump_if_not(e, ov, n, r); },
        KView::ExAssert { .. } => { lemma_rt_in_0_assert(e, ov, n, r); },
        KView::ExNothing => { lemma_rt_in_0_nothing(e, ov, n, r); },
        KView::ExLet { .. } => { lemma_rt_in_0_let(e, ov, n, r); },
        KView::ExClassContext { .. } => { lemma_rt_in_0_class_context(e, ov, n, r); },
        KView::ExMetaCast { .. } => { lemma_rt_in_0_meta_cast(e, ov, n, r); },
        KView::ExLetBool { .. } => { lemma_rt_in_0_let_bool(e, ov, n, r); },
        KView::ExEndParmValue => { lemma_rt_in_0_end_parm_value(e, ov, n, r); },
        KView::ExEndFunctionParms => { lemma_rt_in_0_end_function_parms(e, ov, n, r); },
        KView::ExSelf => { lemma_rt_in_0_self(e, ov, n, r); },
        KView::ExSkip { .. } => { lemma_rt_in_0_skip(e, ov, n, r); },
        KView::ExContext { .. } => { lemma_rt_in_0_context(e, ov, n, r); },
        KView::ExContextFailSilent { .. } => { lemma_rt_in_0_context_fail_silent(e, ov, n, r); },
        KView::ExVirtualFunction { .. } => { lemma_rt_in_0_virtual_function(e, ov, n, r); },
        _ => {},
    }
}

/// What an expression of group 1 that fits holds reads back, whatever follows.
pub proof fn lemma_rt_body_1(e: KView, ov: i32, n: nat, r: Seq<u8>)
    requires
        kfits(e, ov, n),
        in_group_1(e),
    ensures
        ser_body_1(e, ov).0 is Some,
        parse_body_1(e.token(), ser_body_1(e, ov).0->0 + r, ov, n) == KRead::Done(e, ser_body_1(e, ov).0->0.len()),
    decreases e, 2int,
{
    match e {
        KView::ExFinalFunction { .. } => { lemma_rt_in_1_final_function(e, ov, n, r); },
        KView::ExIntConst { .. } => { lemma_rt_in_1_int_const(e, ov, n, r); },
        KView::ExFloatConst { .. } => { lemma_rt_in_1_float_const(e, ov, n, r); },
        KView::ExStringConst { .. } => { lemma_rt_in_1_string_const(e, ov, n, r); },
        KView::ExObjectConst { .. } => { lemma_rt_in_1_object_const(e, ov, n, r); },
        KView::ExNameConst { .. } => { lemma_rt_in_1_name_const(e, ov, n, r); },
        KView::ExRotationConst { .. } => { lemma_rt_in_1_rotation_const(e, ov, n, r); },
        KView::ExVectorConst { .. } => { lemma_rt_in_1_vector_const(e, ov, n, r); },
        KView::ExByteConst { .. } => { lemma_rt_in_1_byte_const(e, ov, n, r); },
        KView::ExIntZero => { lemma_rt_in_1_int_zero(e, ov, n, r); },
        KView::ExIntOne => { lemma_rt_in_1_int_one(e, ov, n, r); },
        KView::ExTrue => { lemma_rt_in_1_true(e, ov, n, r); },
        KView::ExFalse => { lemma_rt_in_1_false(e, ov, n, r); },
        KView::ExTextConst { .. } => { lemma_rt_in_1_text_const(e, ov, n, r); },
        KView::ExNoObject => { lemma_rt_in_1_no_object(e, ov, n, r); },
        KView::ExTransformConst { .. } => { lemma_rt_in_1_transform_const(e, ov, n, r); },
        KView::ExIntConstByte { .. } => { lemma_rt_in_1_int_const_byte(e, ov, n, r); },
        KView::ExNoInterface => { lemma_rt_in_1_no_interface(e, ov, n, r); },
        KView::ExDynamicCast { .. } => { lemma_rt_in_1_dynamic_cast(e, ov, n, r); },
        _ => {},
    }
}

/// What an expression of group 2 that fits holds reads back, whatever follows.
pub proof fn lemma_rt_body_2(e: KView, ov: i32, n: nat, r: Seq<u8>)
    requires
        kfits(e, ov, n),
        in_group_2(e),
    ensures
        ser_body_2(e, ov).0 is Some,
        parse_body_2(e.token(), ser_body_2(e, ov).0->0 + r, ov, n) == KRead::Done(e, ser_body_2(e, ov).0->0.len()),
    decreases e, 2int,
{
    match e {
        KView::ExStructConst { .. } => { lemma_rt_in_2_struct_const(e, ov, n, r); },
        KView::ExEndStructConst => { lemma_rt_in_2_end_struct_const(e, ov, n, r); },
        KView::ExSetArray { .. } => { lemma_rt_in_2_set_array(e, ov, n, r); },
        KView::ExEndArray => { lemma_rt_in_2_end_array(e, ov, n, r); },
        KView::ExPropertyConst { .. } => { lemma_rt_in_2_property_const(e, ov, n, r); },
        KView::ExUnicodeStringConst { .. } => { lemma_rt_in_2_unicode_string_const(e, ov, n, r); },
        KView::ExInt64Const { .. } => { lemma_rt_in_2_int64_const(e, ov, n, r); },
        KView::ExUInt64Const { .. } => { lemma_rt_in_2_uint64_const(e, ov, n, r); },
        KView::ExPrimitiveCast { .. } => { lemma_rt_in_2_primitive_cast(e, ov, n, r); },
        KView::ExSetSet { .. } => { lemma_rt_in_2_set_set(e, ov, n, r); },
        KView::ExEndSet => { lemma_rt_in_2_end_set(e, ov, n, r); },
        KView::ExSetMap { .. } => { lemma_rt_in_2_set_map(e, ov, n, r); },
        KView::ExEndMap => { lemma_rt_in_2_end_map(e, ov, n, r); },
        KView::ExSetConst { .. } => { lemma_rt_in_2_set_const(e, ov, n, r); },
        KView::ExEndSetConst => { lemma_rt_in_2_end_set_const(e, ov, n, r); },
        KView::ExMapConst { .. } => { lemma_rt_in_2_map_const(e, ov, n, r); },
        KView::ExEndMapConst => { lemma_rt_in_2_end_map_const(e, ov, n, r); },
        KView::ExStructMemberContext { .. } => { lemma_rt_in_2_struct_member_context(e, ov, n, r); },
        _ => {},
    }
}

/// What an expression of group 3 that fits holds reads back, whatever follows.
pub proof fn lemma_rt_body_3(e: KView, ov: i32, n: nat, r: Seq<u8>)
    requires
        kfits(e, ov, n),
        in_group_3(e),
    ensures
        ser_body_3(e, ov).0 is Some,
        parse_body_3(e.token(), ser_body_3(e, ov).0->0 + r, ov, n) == KRead::Done(e, ser_body_3(e, ov).0->0.len()),
    decreases e, 2int,
{
    match e {
        KView::ExLetMulticastDelegate { .. } => { lemma_rt_in_3_let_multicast_delegate(e, ov, n, r); },
        KView::ExLetDelegate { .. } => { lemma_rt_in_3_let_delegate(e, ov, n, r); },
        KView::ExLocalVirtualFunction { .. } => { lemma_rt_in_3_local_virtual_function(e, ov, n, r); },
        KView::ExLocalFinalFunction { .. } => { lemma_rt_in_3_local_final_function(e, ov, n, r); },
        KView::ExLocalOutVariable { .. } => { lemma_rt_in_3_local_out_variable(e, ov, n, r); },
        KView::ExDeprecatedOp4A => { lemma_rt_in_3_deprecated_op4_a(e, ov, n, r); },
        KView::ExInstanceDelegate { .. } => { lemma_rt_in_3_instance_delegate(e, ov, n, r); },
        KView::ExPushExecutionFlow { .. } => { lemma_rt_in_3_push_execution_flow(e, ov, n, r); },
        KView::ExPopExecutionFlow => { lemma_rt_in_3_pop_execution_flow(e, ov, n, r); },
        KView::ExComputedJump { .. } => { lemma_rt_in_3_computed_jump(e, ov, n, r); },
        KView::ExPopExecutionFlowIfNot { .. } => { lemma_rt_in_3_pop_execution_flow_if_not(e, ov, n, r); },
        KView::ExBreakpoint => { lemma_rt_in_3_breakpoint(e, ov, n, r); },
        KView::ExInterfaceContext { .. } => { lemma_rt_in_3_interface_context(e, ov, n, r); },
        KView::ExObjToInterfaceCast { .. } => { lemma_rt_in_3_obj_to_interface_cast(e, ov, n, r); },
        KView::ExEndOfScript => { lemma_rt_in_3_end_of_script(e, ov, n, r); },
        KView::ExCrossInterfaceCast { .. } => { lemma_rt_in_3_cross_interface_cast(e, ov, n, r); },
        KView::ExInterfaceToObjCast { .. } => { lemma_rt_in_3_interface_to_obj_cast(e, ov, n, r); },
        KView::ExWireTracepoint => { lemma_rt_in_3_wire_tracepoint(e, ov, n, r); },
        KView::ExSkipOffsetConst { .. } => { lemma_rt_in_3_skip_offset_const(e, ov, n, r); },
        _ => {},
    }
}

/// What an expression of group 4 that fits holds reads back, whatever follows.
pub proof fn lemma_rt_body_4(e: KView, ov: i32, n: nat, r: Seq<u8>)
    requires
        kfits(e, ov, n),
        in_group_4(e),
    ensures
        ser_body_4(e, ov).0 is Some,
        parse_body_4(e.token(), ser_body_4(e, ov).0->0 + r, ov, n) == KRead::Done(e, ser_body_4(e, ov).0->0.len()),
    decreases e, 2int,
{
    match e {
        KView::ExAddMulticastDelegate { .. } => { lemma_rt_in_4_add_multicast_delegate(e, ov, n, r); },
        KView::ExClearMulticastDelegate { .. } => { lemma_rt_in_4_clear_multicast_delegate(e, ov, n, r); },
        KView::ExTracepoint => { lemma_rt_in_4_tracepoint(e, ov, n, r); },
        KView::ExLetObj { .. } => { lemma_rt_in_4_let_obj(e, ov, n, r); },
        KView::ExLetWeakObjPtr { .. } => { lemma_rt_in_4_let_weak_obj_ptr(e, ov, n, r); },
        KView::ExBindDelegate { .. } => { lemma_rt_in_4_bind_delegate(e, ov, n, r); },
        KView::ExRemoveMulticastDelegate { .. } => { lemma_rt_in_4_remove_multicast_delegate(e, ov, n, r); },
        KView::ExCallMulticastDelegate { .. } => { lemma_rt_in_4_call_multicast_delegate(e, ov, n, r); },
        KView::ExLetValueOnPersistentFrame { .. } => { lemma_rt_in_4_let_value_on_persistent_frame(e, ov, n, r); },
        KView::ExArrayConst { .. } => { lemma_rt_in_4_array_const(e, ov, n, r); },
        KView::ExEndArrayConst => { lemma_rt_in_4_end_array_const(e, ov, n, r); },
        KView::ExSoftObjectConst { .. } => { lemma_rt_in_4_soft_object_const(e, ov, n, r); },
        KView::ExCallMath { .. } => { lemma_rt_in_4_call_math(e, ov, n, r); },
        KView::ExSwitchValue { .. } => { lemma_rt_in_4_switch_value(e, ov, n, r); },
        KView::ExInstrumentationEvent { .. } => { lemma_rt_in_4_instrumentation_event(e, ov, n, r); },
        KView::ExArrayGetByRef { .. } => { lemma_rt_in_4_array_get_by_ref(e, ov, n, r); },
        KView::ExClassSparseDataVariable { .. } => { lemma_rt_in_4_class_sparse_data_variable(e, ov, n, r); },
        KView::ExFieldPathConst { .. } => { lemma_rt_in_4_field_path_const(e, ov, n, r); },
        _ => {},
    }
}

/// An `ExLocalVariable` that fits reads back as an expression of group 0.
#[verifier::spinoff_prover]
#[verifier::rlimit(100)]
proof fn lemma_rt_in_0_local_variable(e: KView, ov: i32, n: nat, r: Seq<u8>)
    requires
        kfits(e, ov, n),
        (e is ExLocalVariable),
    ensures
        ser_body_0(e, ov).0 is Some,
        parse_body_0(e.token(), ser_body_0(e, ov).0->0 + r, ov, n) == KRead::Done(e, ser_body_0(e, ov).0->0.len()),
    decreases e, 1int,
{
    reveal(ser_body_0);
    reveal(parse_body_0);
    lemma_rt_ex_local_variable(e, ov, n, r);
}

/// An `ExInstanceVariable` that fits reads back as an expression of group 0.
#[verifier::spinoff_prover]
#[verifier::rlimit(100)]
proof fn lemma_rt_in_0_instance_variable(e: KView, ov: i32, n: nat, r: Seq<u8>)
    requires
        kfits(e, ov, n),
        (e is ExInstanceVariable),
    ensures
        ser_body_0(e, ov).0 is Some,
        parse_body_0(e.token(), ser_body_0(e, ov).0->0 + r, ov, n) == KRead::Done(e, ser_body_0(e, ov).0->0.len()),
    decreases e, 1int,
{
    reveal(ser_body_0);
    reveal(parse_body_0);
    lemma_rt_ex_instance_variable(e, ov, n, r);
}

/// An `ExDefaultVariable` that fits reads back as an expression of group 0.
#[verifier::spinoff_prover]
#[verifier::rlimit(100)]
proof fn lemma_rt_in_0_default_variable(e: KView, ov: i32, n: nat, r: Seq<u8>)
    requires
        kfits(e, ov, n),
        (e is ExDefaultVariable),
    ensures
        ser_body_0(e, ov).0 is Some,
        parse_body_0(e.token(), ser_body_0(e, ov).0->0 + r, ov, n) == KRead::Done(e, ser_body_0(e, ov).0->0.len()),
    decreases e, 1int,
{
    reveal(ser_body_0);
    reveal(parse_body_0);
    lemma_rt_ex_default_variable(e, ov, n, r);
}

/// An `ExReturn` that fits reads back as an expression of group 0.
#[verifier::spinoff_prover]
#[verifier::rlimit(100)]
proof fn lemma_rt_in_0_return(e: KView, ov: i32, n: nat, r: Seq<u8>)
    requires
        kfits(e, ov, n),
        (e is ExReturn),
    ensures
        ser_body_0(e, ov).0 is Some,
        parse_body_0(e.token(), ser_body_0(e, ov).0->0 + r, ov, n) == KRead::Done(e, ser_body_0(e, ov).0->0.len()),
    decreases e, 1int,
{
    reveal(ser_body_0);
    reveal(parse_body_0);
    lemma_rt_ex_return(e, ov, n, r);
}

/// An `ExJump` that fits reads back as an expression of group 0.
#[verifier::spinoff_prover]
#[verifier::rlimit(100)]
proof fn lemma_rt_in_0_jump(e: KView, ov: i32, n: nat, r: Seq<u8>)
    requires
        kfits(e, ov, n),
        (e is ExJump),
    ensures
        ser_body_0(e, ov).0 is Some,
        parse_body_0(e.token(), ser_body_0(e, ov).0->0 + r, ov, n) == KRead::Done(e, ser_body_0(e, ov).0->0.len()),
    decreases e, 1int,
{
    reveal(ser_body_0);
    reveal(parse_body_0);
    lemma_rt_ex_jump(e, ov, n, r);
}

/// An `ExJumpIfNot` that fits reads back as an expression of group 0.
#[verifier::spinoff_prover]
#[verifier::rlimit(100)]
proof fn lemma_rt_in_0_jump_if_not(e: KView, ov: i32, n: nat, r: Seq<u8>)
    requires
        kfits(e, ov, n),
        (e is ExJumpIfNot),
    ensures
        ser_body_0(e, ov).0 is Some,
        parse_body_0(e.token(), ser_body_0(e, ov).0->0 + r, ov, n) == KRead::Done(e, ser_body_0(e, ov).0->0.len()),
    decreases e, 1int,
{
    reveal(ser_body_0);
    reveal(parse_body_0);
    lemma_rt_ex_jump_if_not(e, ov, n, r);
}

/// An `ExAssert` that fits reads back as an expression of group 0.
#[verifier::spinoff_prover]
#[verifier::rlimit(100)]
proof fn lemma_rt_in_0_assert(e: KView, ov: i32, n: nat, r: Seq<u8>)
    requires
        kfits(e, ov, n),
        (e is ExAssert),
    ensures
        ser_body_0(e, ov).0 is Some,
        parse_body_0(e.token(), ser_body_0(e, ov).0->0 + r, ov, n) == KRead::Done(e, ser_body_0(e, ov).0->0.len()),
    decreases e, 1int,
{
    reveal(ser_body_0);
    reveal(parse_body_0);
    lemma_rt_ex_assert(e, ov, n, r);
}

/// An `ExNothing` that fits reads back as an expression of group 0.
#[verifier::spinoff_prover]
#[verifier::rlimit(100)]
proof fn lemma_rt_in_0_nothing(e: KView, ov: i32, n: nat, r: Seq<u8>)
    requires
        kfits(e, ov, n),
        (e is ExNothing),
    ensures
        ser_body_0(e, ov).0 is Some,
        parse_body_0(e.token(), ser_body_0(e, ov).0->0 + r, ov, n) == KRead::Done(e, ser_body_0(e, ov).0->0.len()),
    decreases e, 1int,
{
    reveal(ser_body_0);
    reveal(parse_body_0);
}

/// An `ExLet` that fits reads back as an expression of group 0.
#[verifier::spinoff_prover]
#[verifier::rlimit(100)]
proof fn lemma_rt_in_0_let(e: KView, ov: i32, n: nat, r: Seq<u8>)
    requires
        kfits(e, ov, n),
        (e is ExLet),
    ensures
        ser_body_0(e, ov).0 is Some,
        parse_body_0(e.token(), ser_body_0(e, ov).0->0 + r, ov, n) == KRead::Done(e, ser_body_0(e, ov).0->0.len()),
    decreases e, 1int,
{
    reveal(ser_body_0);
    reveal(parse_body_0);
    lemma_rt_ex_let(e, ov, n, r);
}

/// An `ExClassContext` that fits reads back as an expression of group 0.
#[verifier::spinoff_prover]
#[verifier::rlimit(100)]
proof fn lemma_rt_in_0_class_context(e: KView, ov: i32, n: nat, r: Seq<u8>)
    requires
        kfits(e, ov, n),
        (e is ExClassContext),
    ensures
        ser_body_0(e, ov).0 is Some,
        parse_body_0(e.token(), ser_body_0(e, ov).0->0 + r, ov, n) == KRead::Done(e, ser_body_0(e, ov).0->0.len()),
    decreases e, 1int,
{
    reveal(ser_body_0);
    reveal(parse_body_0);
    lemma_rt_ex_class_context(e, ov, n, r);
}

/// An `ExMetaCast` that fits reads back as an expression of group 0.
#[verifier::spinoff_prover]
#[verifier::rlimit(100)]
proof fn lemma_rt_in_0_meta_cast(e: KView, ov: i32, n: nat, r: Seq<u8>)
    requires
        kfits(e, ov, n),
        (e is ExMetaCast),
    ensures
        ser_body_0(e, ov).0 is Some,
        parse_body_0(e.token(), ser_body_0(e, ov).0->0 + r, ov, n) == KRead::Done(e, ser_body_0(e, ov).0->0.len()),
    decreases e, 1int,
{
    reveal(ser_body_0);
    reveal(parse_body_0);
    lemma_rt_ex_meta_cast(e, ov, n, r);
}

/// An `ExLetBool` that fits reads back as an expression of group 0.
#[verifier::spinoff_prover]
#[verifier::rlimit(100)]
proof fn lemma_rt_in_0_let_bool(e: KView, ov: i32, n: nat, r: Seq<u8>)
    requires
        kfits(e, ov, n),
        (e is ExLetBool),
    ensures
        ser_body_0(e, ov).0 is Some,
        parse_body_0(e.token(), ser_body_0(e, ov).0->0 + r, ov, n) == KRead::Done(e, ser_body_0(e, ov).0->0.len()),
    decreases e, 1int,
{
    reveal(ser_body_0);
    reveal(parse_body_0);
    lemma_rt_ex_let_bool(e, ov, n, r);
}

/// An `ExEndParmValue` that fits reads back as an expression of group 0.
#[verifier::spinoff_prover]
#[verifier::rlimit(100)]
proof fn lemma_rt_in_0_end_parm_value(e: KView, ov: i32, n: nat, r: Seq<u8>)
    requires
        kfits(e, ov, n),
        (e is ExEndParmValue),
    ensures
        ser_body_0(e, ov).0 is Some,
        parse_body_0(e.token(), ser_body_0(e, ov).0->0 + r, ov, n) == KRead::Done(e, ser_body_0(e, ov).0->0.len()),
    decreases e, 1int,
{
    reveal(ser_body_0);
    reveal(parse_body_0);
}

/// An `ExEndFunctionParms` that fits reads back as an expression of group 0.
#[verifier::spinoff_prover]
#[verifier::rlimit(100)]
proof fn lemma_rt_in_0_end_function_parms(e: KView, ov: i32, n: nat, r: Seq<u8>)
    requires
        kfits(e, ov, n),
        (e is ExEndFunctionParms),
    ensures
        ser_body_0(e, ov).0 is Some,
        parse_body_0(e.token(), ser_body_0(e, ov).0->0 + r, ov, n) == KRead::Done(e, ser_body_0(e, ov).0->0.len()),
    decreases e, 1int,
{
    reveal(ser_body_0);
    reveal(parse_body_0);
}

/// An `ExSelf` that fits reads back as an expression of group 0.
#[verifier::spinoff_prover]
#[verifier::rlimit(100)]
proof fn lemma_rt_in_0_self(e: KView, ov: i32, n: nat, r: Seq<u8>)
    requires
        kfits(e, ov, n),
        (e is ExSelf),
    ensures
        ser_body_0(e, ov).0 is Some,
        parse_body_0(e.token(), ser_body_0(e, ov).0->0 + r, ov, n) == KRead::Done(e, ser_body_0(e, ov).0->0.len()),
    decreases e, 1int,
{
    reveal(ser_body_0);
    reveal(parse_body_0);
}

/// An `ExSkip` that fits reads back as an expression of group 0.
#[verifier::spinoff_prover]
#[verifier::rlimit(100)]
proof fn lemma_rt_in_0_skip(e: KView, ov: i32, n: nat, r: Seq<u8>)
    requires
        kfits(e, ov, n),
        (e is ExSkip),
    ensures
        ser_body_0(e, ov).0 is Some,
        parse_body_0(e.token(), ser_body_0(e, ov).0->0 + r, ov, n) == KRead::Done(e, ser_body_0(e, ov).0->0.len()),
    decreases e, 1int,
{
    reveal(ser_body_0);
    reveal(parse_body_0);
    lemma_rt_ex_skip(e, ov, n, r);
}

/// An `ExContext` that fits reads back as an expression of group 0.
#[verifier::spinoff_prover]
#[verifier::rlimit(100)]
proof fn lemma_rt_in_0_context(e: KView, ov: i32, n: nat, r: Seq<u8>)
    requires
        kfits(e, ov, n),
        (e is ExContext),
    ensures
        ser_body_0(e, ov).0 is Some,
        parse_body_0(e.token(), ser_body_0(e, ov).0->0 + r, ov, n) == KRead::Done(e, ser_body_0(e, ov).0->0.len()),
    decreases e, 1int,
{
    reveal(ser_body_0);
    reveal(parse_body_0);
    lemma_rt_ex_context(e, ov, n, r);
}

/// An `ExContextFailSilent` that fits reads back as an expression of group 0.
#[verifier::spinoff_prover]
#[verifier::rlimit(100)]
proof fn lemma_rt_in_0_context_fail_silent(e: KView, ov: i32, n: nat, r: Seq<u8>)
    requires
        kfits(e, ov, n),
        (e is ExContextFailSilent),
    ensures
        ser_body_0(e, ov).0 is Some,
        parse_body_0(e.token(), ser_body_0(e, ov).0->0 + r, ov, n) == KRead::Done(e, ser_body_0(e, ov).0->0.len()),
    decreases e, 1int,
{
    reveal(ser_body_0);
    reveal(parse_body_0);
    lemma_rt_ex_context_fail_silent(e, ov, n, r);
}

/// An `ExVirtualFunction` that fits reads back as an expression of group 0.
#[verifier::spinoff_prover]
#[verifier::rlimit(100)]
proof fn lemma_rt_in_0_virtual_function(e: KView, ov: i32, n: nat, r: Seq<u8>)
    requires
        kfits(e, ov, n),
        (e is ExVirtualFunction),
    ensures
        ser_body_0(e, ov).0 is Some,
        parse_body_0(e.token(), ser_body_0(e, ov).0->0 + r, ov, n) == KRead::Done(e, ser_body_0(e, ov).0->0.len()),
    decreases e, 1int,
{
    reveal(ser_body_0);
    reveal(parse_body_0);
    lemma_rt_ex_virtual_function(e, ov, n, r);
}

/// An `ExFinalFunction` that fits reads back as an expression of group 1.
#[verifier::spinoff_prover]
#[verifier::rlimit(100)]
proof fn lemma_rt_in_1_final_function(e: KView, ov: i32, n: nat, r: Seq<u8>)
    requires
        kfits(e, ov, n),
        (e is ExFinalFunction),
    ensures
        ser_body_1(e, ov).0 is Some,
        parse_body_1(e.token(), ser_body_1(e, ov).0->0 + r, ov, n) == KRead::Done(e, ser_body_1(e, ov).0->0.len()),
    decreases e, 1int,
{
    reveal(ser_body_1);
    reveal(parse_body_1);
    lemma_rt_ex_final_function(e, ov, n, r);
}

/// An `ExIntConst` that fits reads back as an expression of group 1.
#[verifier::spinoff_prover]
#[verifier::rlimit(100)]
proof fn lemma_rt_in_1_int_const(e: KView, ov: i32, n: nat, r: Seq<u8>)
    requires
        kfits(e, ov, n),
        (e is ExIntConst),
    ensures
        ser_body_1(e, ov).0 is Some,
        parse_body_1(e.token(), ser_body_1(e, ov).0->0 + r, ov, n) == KRead::Done(e, ser_body_1(e, ov).0->0.len()),
    decreases e, 1int,
{
    reveal(ser_body_1);
    reveal(parse_body_1);
    lemma_rt_ex_int_const(e, ov, n, r);
}

/// An `ExFloatConst` that fits reads back as an expression of group 1.
#[verifier::spinoff_prover]
#[verifier::rlimit(100)]
proof fn lemma_rt_in_1_float_const(e: KView, ov: i32, n: nat, r: Seq<u8>)
    requires
        kfits(e, ov, n),
        (e is ExFloatConst),
    ensures
        ser_body_1(e, ov).0 is Some,
        parse_body_1(e.token(), ser_body_1(e, ov).0->0 + r, ov, n) == KRead::Done(e, ser_body_1(e, ov).0->0.len()),
    decreases e, 1int,
{
    reveal(ser_body_1);
    reveal(parse_body_1);
    lemma_rt_ex_float_const(e, ov, n, r);
}

/// An `ExStringConst` that fits reads back as an expression of group 1.
#[verifier::spinoff_prover]
#[verifier::rlimit(100)]
proof fn lemma_rt_in_1_string_const(e: KView, ov: i32, n: nat, r: Seq<u8>)
    requires
        kfits(e, ov, n),
        (e is ExStringConst),
    ensures
        ser_body_1(e, ov).0 is Some,
        parse_body_1(e.token(), ser_body_1(e, ov).0->0 + r, ov, n) == KRead::Done(e, ser_body_1(e, ov).0->0.len()),
    decreases e, 1int,
{
    reveal(ser_body_1);
    reveal(parse_body_1);
    lemma_rt_ex_string_const(e, ov, n, r);
}

/// An `ExObjectConst` that fits reads back as an expression of group 1.
#[verifier::spinoff_prover]
#[verifier::rlimit(100)]
proof fn lemma_rt_in_1_object_const(e: KView, ov: i32, n: nat, r: Seq<u8>)
    requires
        kfits(e, ov, n),
        (e is ExObjectConst),
    ensures
        ser_body_1(e, ov).0 is Some,
        parse_body_1(e.token(), ser_body_1(e, ov).0->0 + r, ov, n) == KRead::Done(e, ser_body_1(e, ov).0->0.len()),
    decreases e, 1int,
{
    reveal(ser_body_1);
    reveal(parse_body_1);
    lemma_rt_ex_object_const(e, ov, n, r);
}

/// An `ExNameConst` that fits reads back as an expression of group 1.
#[verifier::spinoff_prover]
#[verifier::rlimit(100)]
proof fn lemma_rt_in_1_name_const(e: KView, ov: i32, n: nat, r: Seq<u8>)
    requires
        kfits(e, ov, n),
        (e is ExNameConst),
    ensures
        ser_body_1(e, ov).0 is Some,
        parse_body_1(e.token(), ser_body_1(e, ov).0->0 + r, ov, n) == KRead::Done(e, ser_body_1(e, ov).0->0.len()),
    decreases e, 1int,
{
    reveal(ser_body_1);
    reveal(parse_body_1);
    lemma_rt_ex_name_const(e, ov, n, r);
}

/// An `ExRotationConst` that fits reads back as an expression of group 1.
#[verifier::spinoff_prover]
#[verifier::rlimit(100)]
proof fn lemma_rt_in_1_rotation_const(e: KView, ov: i32, n: nat, r: Seq<u8>)
    requires
        kfits(e, ov, n),
        (e is ExRotationConst),
    ensures
        ser_body_1(e, ov).0 is Some,
        parse_body_1(e.token(), ser_body_1(e, ov).0->0 + r, ov, n) == KRead::Done(e, ser_body_1(e, ov).0->0.len()),
    decreases e, 1int,
{
    reveal(ser_body_1);
    reveal(parse_body_1);
    lemma_rt_ex_rotation_const(e, ov, n, r);
}

/// An `ExVectorConst` that fits reads back as an expression of group 1.
#[verifier::spinoff_prover]
#[verifier::rlimit(100)]
proof fn lemma_rt_in_1_vector_const(e: KView, ov: i32, n: nat, r: Seq<u8>)
    requires
        kfits(e, ov, n),
        (e is ExVectorConst),
    ensures
        ser_body_1(e, ov).0 is Some,
        parse_body_1(e.token(), ser_body_1(e, ov).0->0 + r, ov, n) == KRead::Done(e, ser_body_1(e, ov).0->0.len()),
    decreases e, 1int,
{
    reveal(ser_body_1);
    reveal(parse_body_1);
    lemma_rt_ex_vector_const(e, ov, n, r);
}

/// An `ExByteConst` that fits reads back as an expression of group 1.
#[verifier::spinoff_prover]
#[verifier::rlimit(100)]
proof fn lemma_rt_in_1_byte_const(e: KView, ov: i32, n: nat, r: Seq<u8>)
    requires
        kfits(e, ov, n),
        (e is ExByteConst),
    ensures
        ser_body_1(e, ov).0 is Some,
        parse_body_1(e.token(), ser_body_1(e, ov).0->0 + r, ov, n) == KRead::Done(e, ser_body_1(e, ov).0->0.len()),
    decreases e, 1int,
{
    reveal(ser_body_1);
    reveal(parse_body_1);
    lemma_rt_ex_byte_const(e, ov, n, r);
}

/// An `ExIntZero` that fits reads back as an expression of group 1.
#[verifier::spinoff_prover]
#[verifier::rlimit(100)]
proof fn lemma_rt_in_1_int_zero(e: KView, ov: i32, n: nat, r: Seq<u8>)
    requires
        kfits(e, ov, n),
        (e is ExIntZero),
    ensures
        ser_body_1(e, ov).0 is Some,
        parse_body_1(e.token(), ser_body_1(e, ov).0->0 + r, ov, n) == KRead::Done(e, ser_body_1(e, ov).0->0.len()),
    decreases e, 1int,
{
    reveal(ser_body_1);
    reveal(parse_body_1);
}

/// An `ExIntOne` that fits reads back as an expression of group 1.
#[verifier::spinoff_prover]
#[verifier::rlimit(100)]
proof fn lemma_rt_in_1_int_one(e: KView, ov: i32, n: nat, r: Seq<u8>)
    requires
        kfits(e, ov, n),
        (e is ExIntOne),
    ensures
        ser_body_1(e, ov).0 is Some,
        parse_body_1(e.token(), ser_body_1(e, ov).0->0 + r, ov, n) == KRead::Done(e, ser_body_1(e, ov).0->0.len()),
    decreases e, 1int,
{
    reveal(ser_body_1);
    reveal(parse_body_1);
}

/// An `ExTrue` that fits reads back as an expression of group 1.
#[verifier::spinoff_prover]
#[verifier::rlimit(100)]
proof fn lemma_rt_in_1_true(e: KView, ov: i32, n: nat, r: Seq<u8>)
    requires
        kfits(e, ov, n),
        (e is ExTrue),
    ensures
        ser_body_1(e, ov).0 is Some,
        parse_body_1(e.token(), ser_body_1(e, ov).0->0 + r, ov, n) == KRead::Done(e, ser_body_1(e, ov).0->0.len()),
    decreases e, 1int,
{
    reveal(ser_body_1);
    reveal(parse_body_1);
}

/// An `ExFalse` that fits reads back as an expression of group 1.
#[verifier::spinoff_prover]
#[verifier::rlimit(100)]
proof fn lemma_rt_in_1_false(e: KView, ov: i32, n: nat, r: Seq<u8>)
    requires
        kfits(e, ov, n),
        (e is ExFalse),
    ensures
        ser_body_1(e, ov).0 is Some,
        parse_body_1(e.token(), ser_body_1(e, ov).0->0 + r, ov, n) == KRead::Done(e, ser_body_1(e, ov).0->0.len()),
    decreases e, 1int,
{
    reveal(ser_body_1);
    reveal(parse_body_1);
}

/// An `ExTextConst` that fits reads back as an expression of group 1.
#[verifier::spinoff_prover]
#[verifier::rlimit(100)]
proof fn lemma_rt_in_1_text_const(e: KView, ov: i32, n: nat, r: Seq<u8>)
    requires
        kfits(e, ov, n),
        (e is ExTextConst),
    ensures
        ser_body_1(e, ov).0 is Some,
        parse_body_1(e.token(), ser_body_1(e, ov).0->0 + r, ov, n) == KRead::Done(e, ser_body_1(e, ov).0->0.len()),
    decreases e, 1int,
{
    reveal(ser_body_1);
    reveal(parse_body_1);
    lemma_rt_ex_text_const(e, ov, n, r);
}

/// An `ExNoObject` that fits reads back as an expression of group 1.
#[verifier::spinoff_prover]
#[verifier::rlimit(100)]
proof fn lemma_rt_in_1_no_object(e: KView, ov: i32, n: nat, r: Seq<u8>)
    requires
        kfits(e, ov, n),
        (e is ExNoObject),
    ensures
        ser_body_1(e, ov).0 is Some,
        parse_body_1(e.token(), ser_body_1(e, ov).0->0 + r, ov, n) == KRead::Done(e, ser_body_1(e, ov).0->0.len()),
    decreases e, 1int,
{
    reveal(ser_body_1);
    reveal(parse_body_1);
}

/// An `ExTransformConst` that fits reads back as an expression of group 1.
#[verifier::spinoff_prover]
#[verifier::rlimit(100)]
proof fn lemma_rt_in_1_transform_const(e: KView, ov: i32, n: nat, r: Seq<u8>)
    requires
        kfits(e, ov, n),
        (e is ExTransformConst),
    ensures
        ser_body_1(e, ov).0 is Some,
        parse_body_1(e.token(), ser_body_1(e, ov).0->0 + r, ov, n) == KRead::Done(e, ser_body_1(e, ov).0->0.len()),
    decreases e, 1int,
{
    reveal(ser_body_1);
    reveal(parse_body_1);
    lemma_rt_ex_transform_const(e, ov, n, r);
}

/// An `ExIntConstByte` that fits reads back as an expression of group 1.
#[verifier::spinoff_prover]
#[verifier::rlimit(100)]
proof fn lemma_rt_in_1_int_const_byte(e: KView, ov: i32, n: nat, r: Seq<u8>)
    requires
        kfits(e, ov, n),
        (e is ExIntConstByte),
    ensures
        ser_body_1(e, ov).0 is Some,
        parse_body_1(e.token(), ser_body_1(e, ov).0->0 + r, ov, n) == KRead::Done(e, ser_body_1(e, ov).0->0.len()),
    decreases e, 1int,
{
    reveal(ser_body_1);
    reveal(parse_body_1);
    lemma_rt_ex_int_const_byte(e, ov, n, r);
}

/// An `ExNoInterface` that fits reads back as an expression of group 1.
#[verifier::spinoff_prover]
#[verifier::rlimit(100)]
proof fn lemma_rt_in_1_no_interface(e: KView, ov: i32, n: nat, r: Seq<u8>)
    requires
        kfits(e, ov, n),
        (e is ExNoInterface),
    ensures
        ser_body_1(e, ov).0 is Some,
        parse_body_1(e.token(), ser_body_1(e, ov).0->0 + r, ov, n) == KRead::Done(e, ser_body_1(e, ov).0->0.len()),
    decreases e, 1int,
{
    reveal(ser_body_1);
    reveal(parse_body_1);
}

/// An `ExDynamicCast` that fits reads back as an expression of group 1.
#[verifier::spinoff_prover]
#[verifier::rlimit(100)]
proof fn lemma_rt_in_1_dynamic_cast(e: KView, ov: i32, n: nat, r: Seq<u8>)
    requires
        kfits(e, ov, n),
        (e is ExDynamicCast),
    ensures
        ser_body_1(e, ov).0 is Some,
        parse_body_1(e.token(), ser_body_1(e, ov).0->0 + r, ov, n) == KRead::Done(e, ser_body_1(e, ov).0->0.len()),
    decreases e, 1int,
{
    reveal(ser_body_1);
    reveal(parse_body_1);
    lemma_rt_ex_dynamic_cast(e, ov, n, r);
}

/// An `ExStructConst` that fits reads back as an expression of group 2.
#[verifier::spinoff_prover]
#[verifier::rlimit(100)]
proof fn lemma_rt_in_2_struct_const(e: KView, ov: i32, n: nat, r: Seq<u8>)
    requires
        kfits(e, ov, n),
        (e is ExStructConst),
    ensures
        ser_body_2(e, ov).0 is Some,
        parse_body_2(e.token(), ser_body_2(e, ov).0->0 + r, ov, n) == KRead::Done(e, ser_body_2(e, ov).0->0.len()),
    decreases e, 1int,
{
    reveal(ser_body_2);
    reveal(parse_body_2);
    lemma_rt_ex_struct_const(e, ov, n, r);
}

/// An `ExEndStructConst` that fits reads back as an expression of group 2.
#[verifier::spinoff_prover]
#[verifier::rlimit(100)]
proof fn lemma_rt_in_2_end_struct_const(e: KView, ov: i32, n: nat, r: Seq<u8>)
    requires
        kfits(e, ov, n),
        (e is ExEndStructConst),
    ensures
        ser_body_2(e, ov).0 is Some,
        parse_body_2(e.token(), ser_body_2(e, ov).0->0 + r, ov, n) == KRead::Done(e, ser_body_2(e, ov).0->0.len()),
    decreases e, 1int,
{
    reveal(ser_body_2);
    reveal(parse_body_2);
}

/// An `ExSetArray` that fits reads back as an expression of group 2.
#[verifier::spinoff_prover]
#[verifier::rlimit(100)]
proof fn lemma_rt_in_2_set_array(e: KView, ov: i32, n: nat, r: Seq<u8>)
    requires
        kfits(e, ov, n),
        (e is ExSetArray),
    ensures
        ser_body_2(e, ov).0 is Some,
        parse_body_2(e.token(), ser_body_2(e, ov).0->0 + r, ov, n) == KRead::Done(e, ser_body_2(e, ov).0->0.len()),
    decreases e, 1int,
{
    reveal(ser_body_2);
    reveal(parse_body_2);
    lemma_rt_ex_set_array(e, ov, n, r);
}

/// An `ExEndArray` that fits reads back as an expression of group 2.
#[verifier::spinoff_prover]
#[verifier::rlimit(100)]
proof fn lemma_rt_in_2_end_array(e: KView, ov: i32, n: nat, r: Seq<u8>)
    requires
        kfits(e, ov, n),
        (e is ExEndArray),
    ensures
        ser_body_2(e, ov).0 is Some,
        parse_body_2(e.token(), ser_body_2(e, ov).0->0 + r, ov, n) == KRead::Done(e, ser_body_2(e, ov).0->0.len()),
    decreases e, 1int,
{
    reveal(ser_body_2);
    reveal(parse_body_2);
}

/// An `ExPropertyConst` that fits reads back as an expression of group 2.
#[verifier::spinoff_prover]
#[verifier::rlimit(100)]
proof fn lemma_rt_in_2_property_const(e: KView, ov: i32, n: nat, r: Seq<u8>)
    requires
        kfits(e, ov, n),
        (e is ExPropertyConst),
    ensures
        ser_body_2(e, ov).0 is Some,
        parse_body_2(e.token(), ser_body_2(e, ov).0->0 + r, ov, n) == KRead::Done(e, ser_body_2(e, ov).0->0.len()),
    decreases e, 1int,
{
    reveal(ser_body_2);
    reveal(parse_body_2);
    lemma_rt_ex_property_const(e, ov, n, r);
}

/// An `ExUnicodeStringConst` that fits reads back as an expression of group 2.
#[verifier::spinoff_prover]
#[verifier::rlimit(100)]
proof fn lemma_rt_in_2_unicode_string_const(e: KView, ov: i32, n: nat, r: Seq<u8>)
    requires
        kfits(e, ov, n),
        (e is ExUnicodeStringConst),
    ensures
        ser_body_2(e, ov).0 is Some,
        parse_body_2(e.token(), ser_body_2(e, ov).0->0 + r, ov, n) == KRead::Done(e, ser_body_2(e, ov).0->0.len()),
    decreases e, 1int,
{
    reveal(ser_body_2);
    reveal(parse_body_2);
    lemma_rt_ex_unicode_string_const(e, ov, n, r);
}

/// An `ExInt64Const` that fits reads back as an expression of group 2.
#[verifier::spinoff_prover]
#[verifier::rlimit(100)]
proof fn lemma_rt_in_2_int64_const(e: KView, ov: i32, n: nat, r: Seq<u8>)
    requires
        kfits(e, ov, n),
        (e is ExInt64Const),
    ensures
        ser_body_2(e, ov).0 is Some,
        parse_body_2(e.token(), ser_body_2(e, ov).0->0 + r, ov, n) == KRead::Done(e, ser_body_2(e, ov).0->0.len()),
    decreases e, 1int,
{
    reveal(ser_body_2);
    reveal(parse_body_2);
    lemma_rt_ex_int64_const(e, ov, n, r);
}

/// An `ExUInt64Const` that fits reads back as an expression of group 2.
#[verifier::spinoff_prover]
#[verifier::rlimit(100)]
proof fn lemma_rt_in_2_uint64_const(e: KView, ov: i32, n: nat, r: Seq<u8>)
    requires
        kfits(e, ov, n),
        (e is ExUInt64Const),
    ensures
        ser_body_2(e, ov).0 is Some,
        parse_body_2(e.token(), ser_body_2(e, ov).0->0 + r, ov, n) == KRead::Done(e, ser_body_2(e, ov).0->0.len()),
    decreases e, 1int,
{
    reveal(ser_body_2);
    reveal(parse_body_2);
    lemma_rt_ex_uint64_const(e, ov, n, r);
}

/// An `ExPrimitiveCast` that fits reads back as an expression of group 2.
#[verifier::spinoff_prover]
#[verifier::rlimit(100)]
proof fn lemma_rt_in_2_primitive_cast(e: KView, ov: i32, n: nat, r: Seq<u8>)
    requires
        kfits(e, ov, n),
        (e is ExPrimitiveCast),
    ensures
        ser_body_2(e, ov).0 is Some,
        parse_body_2(e.token(), ser_body_2(e, ov).0->0 + r, ov, n) == KRead::Done(e, ser_body_2(e, ov).0->0.len()),
    decreases e, 1int,
{
    reveal(ser_body_2);
    reveal(parse_body_2);
    lemma_rt_ex_primitive_cast(e, ov, n, r);
}

/// An `ExSetSet` that fits reads back as an expression of group 2.
#[verifier::spinoff_prover]
#[verifier::rlimit(100)]
proof fn lemma_rt_in_2_set_set(e: KView, ov: i32, n: nat, r: Seq<u8>)
    requires
        kfits(e, ov, n),
        (e is ExSetSet),
    ensures
        ser_body_2(e, ov).0 is Some,
        parse_body_2(e.token(), ser_body_2(e, ov).0->0 + r, ov, n) == KRead::Done(e, ser_body_2(e, ov).0->0.len()),
    decreases e, 1int,
{
    reveal(ser_body_2);
    reveal(parse_body_2);
    lemma_rt_ex_set_set(e, ov, n, r);
}

/// An `ExEndSet` that fits reads back as an expression of group 2.
#[verifier::spinoff_prover]
#[verifier::rlimit(100)]
proof fn lemma_rt_in_2_end_set(e: KView, ov: i32, n: nat, r: Seq<u8>)
    requires
        kfits(e, ov, n),
        (e is ExEndSet),
    ensures
        ser_body_2(e, ov).0 is Some,
        parse_body_2(e.token(), ser_body_2(e, ov).0->0 + r, ov, n) == KRead::Done(e, ser_body_2(e, ov).0->0.len()),
    decreases e, 1int,
{
    reveal(ser_body_2);
    reveal(parse_body_2);
}

/// An `ExSetMap` that fits reads back as an expression of group 2.
#[verifier::spinoff_prover]
#[verifier::rlimit(100)]
proof fn lemma_rt_in_2_set_map(e: KView, ov: i32, n: nat, r: Seq<u8>)
    requires
        kfits(e, ov, n),
        (e is ExSetMap),
    ensures
        ser_body_2(e, ov).0 is Some,
        parse_body_2(e.token(), ser_body_2(e, ov).0->0 + r, ov, n) == KRead::Done(e, ser_body_2(e, ov).0->0.len()),
    decreases e, 1int,
{
    reveal(ser_body_2);
    reveal(parse_body_2);
    lemma_rt_ex_set_map(e, ov, n, r);
}

/// An `ExEndMap` that fits reads back as an expression of group 2.
#[verifier::spinoff_prover]
#[verifier::rlimit(100)]
proof fn lemma_rt_in_2_end_map(e: KView, ov: i32, n: nat, r: Seq<u8>)
    requires
        kfits(e, ov, n),
        (e is ExEndMap),
    ensures
        ser_body_2(e, ov).0 is Some,
        parse_body_2(e.token(), ser_body_2(e, ov).0->0 + r, ov, n) == KRead::Done(e, ser_body_2(e, ov).0->0.len()),
    decreases e, 1int,
{
    reveal(ser_body_2);
    reveal(parse_body_2);
}

/// An `ExSetConst` that fits reads back as an expression of group 2.
#[verifier::spinoff_prover]
#[verifier::rlimit(100)]
proof fn lemma_rt_in_2_set_const(e: KView, ov: i32, n: nat, r: Seq<u8>)
    requires
        kfits(e, ov, n),
        (e is ExSetConst),
    ensures
        ser_body_2(e, ov).0 is Some,
        parse_body_2(e.token(), ser_body_2(e, ov).0->0 + r, ov, n) == KRead::Done(e, ser_body_2(e, ov).0->0.len()),
    decreases e, 1int,
{
    reveal(ser_body_2);
    reveal(parse_body_2);
    lemma_rt_ex_set_const(e, ov, n, r);
}

/// An `ExEndSetConst` that fits reads back as an expression of group 2.
#[verifier::spinoff_prover]
#[verifier::rlimit(100)]
proof fn lemma_rt_in_2_end_set_const(e: KView, ov: i32, n: nat, r: Seq<u8>)
    requires
        kfits(e, ov, n),
        (e is ExEndSetConst),
    ensures
        ser_body_2(e, ov).0 is Some,
        parse_body_2(e.token(), ser_body_2(e, ov).0->0 + r, ov, n) == KRead::Done(e, ser_body_2(e, ov).0->0.len()),
    decreases e, 1int,
{
    reveal(ser_body_2);
    reveal(parse_body_2);
}

/// An `ExMapConst` that fits reads back as an expression of group 2.
#[verifier::spinoff_prover]
#[verifier::rlimit(100)]
proof fn lemma_rt_in_2_map_const(e: KView, ov: i32, n: nat, r: Seq<u8>)
    requires
        kfits(e, ov, n),
        (e is ExMapConst),
    ensures
        ser_body_2(e, ov).0 is Some,
        parse_body_2(e.token(), ser_body_2(e, ov).0->0 + r, ov, n) == KRead::Done(e, ser_body_2(e, ov).0->0.len()),
    decreases e, 1int,
{
    reveal(ser_body_2);
    reveal(parse_body_2);
    lemma_rt_ex_map_const(e, ov, n, r);
}

/// An `ExEndMapConst` that fits reads back as an expression of group 2.
#[verifier::spinoff_prover]
#[verifier::rlimit(100)]
proof fn lemma_rt_in_2_end_map_const(e: KView, ov: i32, n: nat, r: Seq<u8>)
    requires
        kfits(e, ov, n),
        (e is ExEndMapConst),
    ensures
        ser_body_2(e, ov).0 is Some,
        parse_body_2(e.token(), ser_body_2(e, ov).0->0 + r, ov, n) == KRead::Done(e, ser_body_2(e, ov).0->0.len()),
    decreases e, 1int,
{
    reveal(ser_body_2);
    reveal(parse_body_2);
}

/// An `ExStructMemberContext` that fits reads back as an expression of group 2.
#[verifier::spinoff_prover]
#[verifier::rlimit(100)]
proof fn lemma_rt_in_2_struct_member_context(e: KView, ov: i32, n: nat, r: Seq<u8>)
    requires
        kfits(e, ov, n),
        (e is ExStructMemberContext),
    ensures
        ser_body_2(e, ov).0 is Some,
        parse_body_2(e.token(), ser_body_2(e, ov).0->0 + r, ov, n) == KRead::Done(e, ser_body_2(e, ov).0->0.len()),
    decreases e, 1int,
{
    reveal(ser_body_2);
    reveal(parse_body_2);
    lemma_rt_ex_struct_member_context(e, ov, n, r);
}

/// An `ExLetMulticastDelegate` that fits reads back as an expression of group 3.
#[verifier::spinoff_prover]
#[verifier::rlimit(100)]
proof fn lemma_rt_in_3_let_multicast_delegate(e: KView, ov: i32, n: nat, r: Seq<u8>)
    requires
        kfits(e, ov, n),
        (e is ExLetMulticastDelegate),
    ensures
        ser_body_3(e, ov).0 is Some,
        parse_body_3(e.token(), ser_body_3(e, ov).0->0 + r, ov, n) == KRead::Done(e, ser_body_3(e, ov).0->0.len()),
    decreases e, 1int,
{
    reveal(ser_body_3);
    reveal(parse_body_3);
    lemma_rt_ex_let_multicast_delegate(e, ov, n, r);
}

/// An `ExLetDelegate` that fits reads back as an expression of group 3.
#[verifier::spinoff_prover]
#[verifier::rlimit(100)]
proof fn lemma_rt_in_3_let_delegate(e: KView, ov: i32, n: nat, r: Seq<u8>)
    requires
        kfits(e, ov, n),
        (e is ExLetDelegate),
    ensures
        ser_body_3(e, ov).0 is Some,
        parse_body_3(e.token(), ser_body_3(e, ov).0->0 + r, ov, n) == KRead::Done(e, ser_body_3(e, ov).0->0.len()),
    decreases e, 1int,
{
    reveal(ser_body_3);
    reveal(parse_body_3);
    lemma_rt_ex_let_delegate(e, ov, n, r);
}

/// An `ExLocalVirtualFunction` that fits reads back as an expression of group 3.
#[verifier::spinoff_prover]
#[verifier::rlimit(100)]
proof fn lemma_rt_in_3_local_virtual_function(e: KView, ov: i32, n: nat, r: Seq<u8>)
    requires
        kfits(e, ov, n),
        (e is ExLocalVirtualFunction),
    ensures
        ser_body_3(e, ov).0 is Some,
        parse_body_3(e.token(), ser_body_3(e, ov).0->0 + r, ov, n) == KRead::Done(e, ser_body_3(e, ov).0->0.len()),
    decreases e, 1int,
{
    reveal(ser_body_3);
    reveal(parse_body_3);
    lemma_rt_ex_local_virtual_function(e, ov, n, r);
}

/// An `ExLocalFinalFunction` that fits reads back as an expression of group 3.
#[verifier::spinoff_prover]
#[verifier::rlimit(100)]
proof fn lemma_rt_in_3_local_final_function(e: KView, ov: i32, n: nat, r: Seq<u8>)
    requires
        kfits(e, ov, n),
        (e is ExLocalFinalFunction),
    ensures
        ser_body_3(e, ov).0 is Some,
        parse_body_3(e.token(), ser_body_3(e, ov).0->0 + r, ov, n) == KRead::Done(e, ser_body_3(e, ov).0->0.len()),
    decreases e, 1int,
{
    reveal(ser_body_3);
    reveal(parse_body_3);
    lemma_rt_ex_local_final_function(e, ov, n, r);
}

/// An `ExLocalOutVariable` that fits reads back as an expression of group 3.
#[verifier::spinoff_prover]
#[verifier::rlimit(100)]
proof fn lemma_rt_in_3_local_out_variable(e: KView, ov: i32, n: nat, r: Seq<u8>)
    requires
        kfits(e, ov, n),
        (e is ExLocalOutVariable),
    ensures
        ser_body_3(e, ov).0 is Some,
        parse_body_3(e.token(), ser_body_3(e, ov).0->0 + r, ov, n) == KRead::Done(e, ser_body_3(e, ov).0->0.len()),
    decreases e, 1int,
{
    reveal(ser_body_3);
    reveal(parse_body_3);
    lemma_rt_ex_local_out_variable(e, ov, n, r);
}

/// An `ExDeprecatedOp4A` that fits reads back as an expression of group 3.
#[verifier::spinoff_prover]
#[verifier::rlimit(100)]
proof fn lemma_rt_in_3_deprecated_op4_a(e: KView, ov: i32, n: nat, r: Seq<u8>)
    requires
        kfits(e, ov, n),
        (e is ExDeprecatedOp4A),
    ensures
        ser_body_3(e, ov).0 is Some,
        parse_body_3(e.token(), ser_body_3(e, ov).0->0 + r, ov, n) == KRead::Done(e, ser_body_3(e, ov).0->0.len()),
    decreases e, 1int,
{
    reveal(ser_body_3);
    reveal(parse_body_3);
}

/// An `ExInstanceDelegate` that fits reads back as an expression of group 3.
#[verifier::spinoff_prover]
#[verifier::rlimit(100)]
proof fn lemma_rt_in_3_instance_delegate(e: KView, ov: i32, n: nat, r: Seq<u8>)
    requires
        kfits(e, ov, n),
        (e is ExInstanceDelegate),
    ensures
        ser_body_3(e, ov).0 is Some,
        parse_body_3(e.token(), ser_body_3(e, ov).0->0 + r, ov, n) == KRead::Done(e, ser_body_3(e, ov).0->0.len()),
    decreases e, 1int,
{
    reveal(ser_body_3);
    reveal(parse_body_3);
    lemma_rt_ex_instance_delegate(e, ov, n, r);
}

/// An `ExPushExecutionFlow` that fits reads back as an expression of group 3.
#[verifier::spinoff_prover]
#[verifier::rlimit(100)]
proof fn lemma_rt_in_3_push_execution_flow(e: KView, ov: i32, n: nat, r: Seq<u8>)
    requires
        kfits(e, ov, n),
        (e is ExPushExecutionFlow),
    ensures
        ser_body_3(e, ov).0 is Some,
        parse_body_3(e.token(), ser_body_3(e, ov).0->0 + r, ov, n) == KRead::Done(e, ser_body_3(e, ov).0->0.len()),
    decreases e, 1int,
{
    reveal(ser_body_3);
    reveal(parse_body_3);
    lemma_rt_ex_push_execution_flow(e, ov, n, r);
}

/// An `ExPopExecutionFlow` that fits reads back as an expression of group 3.
#[verifier::spinoff_prover]
#[verifier::rlimit(100)]
proof fn lemma_rt_in_3_pop_execution_flow(e: KView, ov: i32, n: nat, r: Seq<u8>)
    requires
        kfits(e, ov, n),
        (e is ExPopExecutionFlow),
    ensures
        ser_body_3(e, ov).0 is Some,
        parse_body_3(e.token(), ser_body_3(e, ov).0->0 + r, ov, n) == KRead::Done(e, ser_body_3(e, ov).0->0.len()),
    decreases e, 1int,
{
    reveal(ser_body_3);
    reveal(parse_body_3);
}

/// An `ExComputedJump` that fits reads back as an expression of group 3.
#[verifier::spinoff_prover]
#[verifier::rlimit(100)]
proof fn lemma_rt_in_3_computed_jump(e: KView, ov: i32, n: nat, r: Seq<u8>)
    requires
        kfits(e, ov, n),
        (e is ExComputedJump),
    ensures
        ser_body_3(e, ov).0 is Some,
        parse_body_3(e.token(), ser_body_3(e, ov).0->0 + r, ov, n) == KRead::Done(e, ser_body_3(e, ov).0->0.len()),
    decreases e, 1int,
{
    reveal(ser_body_3);
    reveal(parse_body_3);
    lemma_rt_ex_computed_jump(e, ov, n, r);
}

/// An `ExPopExecutionFlowIfNot` that fits reads back as an expression of group 3.
#[verifier::spinoff_prover]
#[verifier::rlimit(100)]
proof fn lemma_rt_in_3_pop_execution_flow_if_not(e: KView, ov: i32, n: nat, r: Seq<u8>)
    requires
        kfits(e, ov, n),
        (e is ExPopExecutionFlowIfNot),
    ensures
        ser_body_3(e, ov).0 is Some,
        parse_body_3(e.token(), ser_body_3(e, ov).0->0 + r, ov, n) == KRead::Done(e, ser_body_3(e, ov).0->0.len()),
    decreases e, 1int,
{
    reveal(ser_body_3);
    reveal(parse_body_3);
    lemma_rt_ex_pop_execution_flow_if_not(e, ov, n, r);
}

/// An `ExBreakpoint` that fits reads back as an expression of group 3.
#[verifier::spinoff_prover]
#[verifier::rlimit(100)]
proof fn lemma_rt_in_3_breakpoint(e: KView, ov: i32, n: nat, r: Seq<u8>)
    requires
        kfits(e, ov, n),
        (e is ExBreakpoint),
    ensures
        ser_body_3(e, ov).0 is Some,
        parse_body_3(e.token(), ser_body_3(e, ov).0->0 + r, ov, n) == KRead::Done(e, ser_body_3(e, ov).0->0.len()),
    decreases e, 1int,
{
    reveal(ser_body_3);
    reveal(parse_body_3);
}

/// An `ExInterfaceContext` that fits reads back as an expression of group 3.
#[verifier::spinoff_prover]
#[verifier::rlimit(100)]
proof fn lemma_rt_in_3_interface_context(e: KView, ov: i32, n: nat, r: Seq<u8>)
    requires
        kfits(e, ov, n),
        (e is ExInterfaceContext),
    ensures
        ser_body_3(e, ov).0 is Some,
        parse_body_3(e.token(), ser_body_3(e, ov).0->0 + r, ov, n) == KRead::Done(e, ser_body_3(e, ov).0->0.len()),
    decreases e, 1int,
{
    reveal(ser_body_3);
    reveal(parse_body_3);
    lemma_rt_ex_interface_context(e, ov, n, r);
}

/// An `ExObjToInterfaceCast` that fits reads back as an expression of group 3.
#[verifier::spinoff_prover]
#[verifier::rlimit(100)]
proof fn lemma_rt_in_3_obj_to_interface_cast(e: KView, ov: i32, n: nat, r: Seq<u8>)
    requires
        kfits(e, ov, n),
        (e is ExObjToInterfaceCast),
    ensures
        ser_body_3(e, ov).0 is Some,
        parse_body_3(e.token(), ser_body_3(e, ov).0->0 + r, ov, n) == KRead::Done(e, ser_body_3(e, ov).0->0.len()),
    decreases e, 1int,
{
    reveal(ser_body_3);
    reveal(parse_body_3);
    lemma_rt_ex_obj_to_interface_cast(e, ov, n, r);
}

/// An `ExEndOfScript` that fits reads back as an expression of group 3.
#[verifier::spinoff_prover]
#[verifier::rlimit(100)]
proof fn lemma_rt_in_3_end_of_script(e: KView, ov: i32, n: nat, r: Seq<u8>)
    requires
        kfits(e, ov, n),
        (e is ExEndOfScript),
    ensures
        ser_body_3(e, ov).0 is Some,
        parse_body_3(e.token(), ser_body_3(e, ov).0->0 + r, ov, n) == KRead::Done(e, ser_body_3(e, ov).0->0.len()),
    decreases e, 1int,
{
    reveal(ser_body_3);
    reveal(parse_body_3);
}

/// An `ExCrossInterfaceCast` that fits reads back as an expression of group 3.
#[verifier::spinoff_prover]
#[verifier::rlimit(100)]
proof fn lemma_rt_in_3_cross_interface_cast(e: KView, ov: i32, n: nat, r: Seq<u8>)
    requires
        kfits(e, ov, n),
        (e is ExCrossInterfaceCast),
    ensures
        ser_body_3(e, ov).0 is Some,
        parse_body_3(e.token(), ser_body_3(e, ov).0->0 + r, ov, n) == KRead::Done(e, ser_body_3(e, ov).0->0.len()),
    decreases e, 1int,
{
    reveal(ser_body_3);
    reveal(parse_body_3);
    lemma_rt_ex_cross_interface_cast(e, ov, n, r);
}

/// An `ExInterfaceToObjCast` that fits reads back as an expression of group 3.
#[verifier::spinoff_prover]
#[verifier::rlimit(100)]
proof fn lemma_rt_in_3_interface_to_obj_cast(e: KView, ov: i32, n: nat, r: Seq<u8>)
    requires
        kfits(e, ov, n),
        (e is ExInterfaceToObjCast),
    ensures
        ser_body_3(e, ov).0 is Some,
        parse_body_3(e.token(), ser_body_3(e, ov).0->0 + r, ov, n) == KRead::Done(e, ser_body_3(e, ov).0->0.len()),
    decreases e, 1int,
{
    reveal(ser_body_3);
    reveal(parse_body_3);
    lemma_rt_ex_interface_to_obj_cast(e, ov, n, r);
}

/// An `ExWireTracepoint` that fits reads back as an expression of group 3.
#[verifier::spinoff_prover]
#[verifier::rlimit(100)]
proof fn lemma_rt_in_3_wire_tracepoint(e: KView, ov: i32, n: nat, r: Seq<u8>)
    requires
        kfits(e, ov, n),
        (e is ExWireTracepoint),
    ensures
        ser_body_3(e, ov).0 is Some,
        parse_body_3(e.token(), ser_body_3(e, ov).0->0 + r, ov, n) == KRead::Done(e, ser_body_3(e, ov).0->0.len()),
    decreases e, 1int,
{
    reveal(ser_body_3);
    reveal(parse_body_3);
}

/// An `ExSkipOffsetConst` that fits reads back as an expression of group 3.
#[verifier::spinoff_prover]
#[verifier::rlimit(100)]
proof fn lemma_rt_in_3_skip_offset_const(e: KView, ov: i32, n: nat, r: Seq<u8>)
    requires
        kfits(e, ov, n),
        (e is ExSkipOffsetConst),
    ensures
        ser_body_3(e, ov).0 is Some,
        parse_body_3(e.token(), ser_body_3(e, ov).0->0 + r, ov, n) == KRead::Done(e, ser_body_3(e, ov).0->0.len()),
    decreases e, 1int,
{
    reveal(ser_body_3);
    reveal(parse_body_3);
    lemma_rt_ex_skip_offset_const(e, ov, n, r);
}

/// An `ExAddMulticastDelegate` that fits reads back as an expression of group 4.
#[verifier::spinoff_prover]
#[verifier::rlimit(100)]
proof fn lemma_rt_in_4_add_multicast_delegate(e: KView, ov: i32, n: nat, r: Seq<u8>)
    requires
        kfits(e, ov, n),
        (e is ExAddMulticastDelegate),
    ensures
        ser_body_4(e, ov).0 is Some,
        parse_body_4(e.token(), ser_body_4(e, ov).0->0 + r, ov, n) == KRead::Done(e, ser_body_4(e, ov).0->0.len()),
    decreases e, 1int,
{
    reveal(ser_body_4);
    reveal(parse_body_4);
    lemma_rt_ex_add_multicast_delegate(e, ov, n, r);
}

/// An `ExClearMulticastDelegate` that fits reads back as an expression of group 4.
#[verifier::spinoff_prover]
#[verifier::rlimit(100)]
proof fn lemma_rt_in_4_clear_multicast_delegate(e: KView, ov: i32, n: nat, r: Seq<u8>)
    requires
        kfits(e, ov, n),
        (e is ExClearMulticastDelegate),
    ensures
        ser_body_4(e, ov).0 is Some,
        parse_body_4(e.token(), ser_body_4(e, ov).0->0 + r, ov, n) == KRead::Done(e, ser_body_4(e, ov).0->0.len()),
    decreases e, 1int,
{
    reveal(ser_body_4);
    reveal(parse_body_4);
    lemma_rt_ex_clear_multicast_delegate(e, ov, n, r);
}

/// An `ExTracepoint` that fits reads back as an expression of group 4.
#[verifier::spinoff_prover]
#[verifier::rlimit(100)]
proof fn lemma_rt_in_4_tracepoint(e: KView, ov: i32, n: nat, r: Seq<u8>)
    requires
        kfits(e, ov, n),
        (e is ExTracepoint),
    ensures
        ser_body_4(e, ov).0 is Some,
        parse_body_4(e.token(), ser_body_4(e, ov).0->0 + r, ov, n) == KRead::Done(e, ser_body_4(e, ov).0->0.len()),
    decreases e, 1int,
{
    reveal(ser_body_4);
    reveal(parse_body_4);
}

/// An `ExLetObj` that fits reads back as an expression of group 4.
#[verifier::spinoff_prover]
#[verifier::rlimit(100)]
proof fn lemma_rt_in_4_let_obj(e: KView, ov: i32, n: nat, r: Seq<u8>)
    requires
        kfits(e, ov, n),
        (e is ExLetObj),
    ensures
        ser_body_4(e, ov).0 is Some,
        parse_body_4(e.token(), ser_body_4(e, ov).0->0 + r, ov, n) == KRead::Done(e, ser_body_4(e, ov).0->0.len()),
    decreases e, 1int,
{
    reveal(ser_body_4);
    reveal(parse_body_4);
    lemma_rt_ex_let_obj(e, ov, n, r);
}

/// An `ExLetWeakObjPtr` that fits reads back as an expression of group 4.
#[verifier::spinoff_prover]
#[verifier::rlimit(100)]
proof fn lemma_rt_in_4_let_weak_obj_ptr(e: KView, ov: i32, n: nat, r: Seq<u8>)
    requires
        kfits(e, ov, n),
        (e is ExLetWeakObjPtr),
    ensures
        ser_body_4(e, ov).0 is Some,
        parse_body_4(e.token(), ser_body_4(e, ov).0->0 + r, ov, n) == KRead::Done(e, ser_body_4(e, ov).0->0.len()),
    decreases e, 1int,
{
    reveal(ser_body_4);
    reveal(parse_body_4);
    lemma_rt_ex_let_weak_obj_ptr(e, ov, n, r);
}

/// An `ExBindDelegate` that fits reads back as an expression of group 4.
#[verifier::spinoff_prover]
#[verifier::rlimit(100)]
proof fn lemma_rt_in_4_bind_delegate(e: KView, ov: i32, n: nat, r: Seq<u8>)
    requires
        kfits(e, ov, n),
        (e is ExBindDelegate),
    ensures
        ser_body_4(e, ov).0 is Some,
        parse_body_4(e.token(), ser_body_4(e, ov).0->0 + r, ov, n) == KRead::Done(e, ser_body_4(e, ov).0->0.len()),
    decreases e, 1int,
{
    reveal(ser_body_4);
    reveal(parse_body_4);
    lemma_rt_ex_bind_delegate(e, ov, n, r);
}

/// An `ExRemoveMulticastDelegate` that fits reads back as an expression of group 4.
#[verifier::spinoff_prover]
#[verifier::rlimit(100)]
proof fn lemma_rt_in_4_remove_multicast_delegate(e: KView, ov: i32, n: nat, r: Seq<u8>)
    requires
        kfits(e, ov, n),
        (e is ExRemoveMulticastDelegate),
    ensures
        ser_body_4(e, ov).0 is Some,
        parse_body_4(e.token(), ser_body_4(e, ov).0->0 + r, ov, n) == KRead::Done(e, ser_body_4(e, ov).0->0.len()),
    decreases e, 1int,
{
    reveal(ser_body_4);
    reveal(parse_body_4);
    lemma_rt_ex_remove_multicast_delegate(e, ov, n, r);
}

/// An `ExCallMulticastDelegate` that fits reads back as an expression of group 4.
#[verifier::spinoff_prover]
#[verifier::rlimit(100)]
proof fn lemma_rt_in_4_call_multicast_delegate(e: KView, ov: i32, n: nat, r: Seq<u8>)
    requires
        kfits(e, ov, n),
        (e is ExCallMulticastDelegate),
    ensures
        ser_body_4(e, ov).0 is Some,
        parse_body_4(e.token(), ser_body_4(e, ov).0->0 + r, ov, n) == KRead::Done(e, ser_body_4(e, ov).0->0.len()),
    decreases e, 1int,
{
    reveal(ser_body_4);
    reveal(parse_body_4);
    lemma_rt_ex_call_multicast_delegate(e, ov, n, r);
}

/// An `ExLetValueOnPersistentFrame` that fits reads back as an expression of group 4.
#[verifier::spinoff_prover]
#[verifier::rlimit(100)]
proof fn lemma_rt_in_4_let_value_on_persistent_frame(e: KView, ov: i32, n: nat, r: Seq<u8>)
    requires
        kfits(e, ov, n),
        (e is ExLetValueOnPersistentFrame),
    ensures
        ser_body_4(e, ov).0 is Some,
        parse_body_4(e.token(), ser_body_4(e, ov).0->0 + r, ov, n) == KRead::Done(e, ser_body_4(e, ov).0->0.len()),
    decreases e, 1int,
{
    reveal(ser_body_4);
    reveal(parse_body_4);
    lemma_rt_ex_let_value_on_persistent_frame(e, ov, n, r);
}

/// An `ExArrayConst` that fits reads back as an expression of group 4.
#[verifier::spinoff_prover]
#[verifier::rlimit(100)]
proof fn lemma_rt_in_4_array_const(e: KView, ov: i32, n: nat, r: Seq<u8>)
    requires
        kfits(e, ov, n),
        (e is ExArrayConst),
    ensures
        ser_body_4(e, ov).0 is Some,
        parse_body_4(e.token(), ser_body_4(e, ov).0->0 + r, ov, n) == KRead::Done(e, ser_body_4(e, ov).0->0.len()),
    decreases e, 1int,
{
    reveal(ser_body_4);
    reveal(parse_body_4);
    lemma_rt_ex_array_const(e, ov, n, r);
}

/// An `ExEndArrayConst` that fits reads back as an expression of group 4.
#[verifier::spinoff_prover]
#[verifier::rlimit(100)]
proof fn lemma_rt_in_4_end_array_const(e: KView, ov: i32, n: nat, r: Seq<u8>)
    requires
        kfits(e, ov, n),
        (e is ExEndArrayConst),
    ensures
        ser_body_4(e, ov).0 is Some,
        parse_body_4(e.token(), ser_body_4(e, ov).0->0 + r, ov, n) == KRead::Done(e, ser_body_4(e, ov).0->0.len()),
    decreases e, 1int,
{
    reveal(ser_body_4);
    reveal(parse_body_4);
}

/// An `ExSoftObjectConst` that fits reads back as an expression of group 4.
#[verifier::spinoff_prover]
#[verifier::rlimit(100)]
proof fn lemma_rt_in_4_soft_object_const(e: KView, ov: i32, n: nat, r: Seq<u8>)
    requires
        kfits(e, ov, n),
        (e is ExSoftObjectConst),
    ensures
        ser_body_4(e, ov).0 is Some,
        parse_body_4(e.token(), ser_body_4(e, ov).0->0 + r, ov, n) == KRead::Done(e, ser_body_4(e, ov).0->0.len()),
    decreases e, 1int,
{
    reveal(ser_body_4);
    reveal(parse_body_4);
    lemma_rt_ex_soft_object_const(e, ov, n, r);
}

/// An `ExCallMath` that fits reads back as an expression of group 4.
#[verifier::spinoff_prover]
#[verifier::rlimit(100)]
proof fn lemma_rt_in_4_call_math(e: KView, ov: i32, n: nat, r: Seq<u8>)
    requires
        kfits(e, ov, n),
        (e is ExCallMath),
    ensures
        ser_body_4(e, ov).0 is Some,
        parse_body_4(e.token(), ser_body_4(e, ov).0->0 + r, ov, n) == KRead::Done(e, ser_body_4(e, ov).0->0.len()),
    decreases e, 1int,
{
    reveal(ser_body_4);
    reveal(parse_body_4);
    lemma_rt_ex_call_math(e, ov, n, r);
}

/// An `ExSwitchValue` that fits reads back as an expression of group 4.
#[verifier::spinoff_prover]
#[verifier::rlimit(100)]
proof fn lemma_rt_in_4_switch_value(e: KView, ov: i32, n: nat, r: Seq<u8>)
    requires
        kfits(e, ov, n),
        (e is ExSwitchValue),
    ensures
        ser_body_4(e, ov).0 is Some,
        parse_body_4(e.token(), ser_body_4(e, ov).0->0 + r, ov, n) == KRead::Done(e, ser_body_4(e, ov).0->0.len()),
    decreases e, 1int,
{
    reveal(ser_body_4);
    reveal(parse_body_4);
    lemma_rt_ex_switch_value(e, ov, n, r);
}

/// An `ExInstrumentationEvent` that fits reads back as an expression of group 4.
#[verifier::spinoff_prover]
#[verifier::rlimit(100)]
proof fn lemma_rt_in_4_instrumentation_event(e: KView, ov: i32, n: nat, r: Seq<u8>)
    requires
        kfits(e, ov, n),
        (e is ExInstrumentationEvent),
    ensures
        ser_body_4(e, ov).0 is Some,
        parse_body_4(e.token(), ser_body_4(e, ov).0->0 + r, ov, n) == KRead::Done(e, ser_body_4(e, ov).0->0.len()),
    decreases e, 1int,
{
    reveal(ser_body_4);
    reveal(parse_body_4);
    lemma_rt_ex_instrumentation_event(e, ov, n, r);
}

/// An `ExArrayGetByRef` that fits reads back as an expression of group 4.
#[verifier::spinoff_prover]
#[verifier::rlimit(100)]
proof fn lemma_rt_in_4_array_get_by_ref(e: KView, ov: i32, n: nat, r: Seq<u8>)
    requires
        kfits(e, ov, n),
        (e is ExArrayGetByRef),
    ensures
        ser_body_4(e, ov).0 is Some,
        parse_body_4(e.token(), ser_body_4(e, ov).0->0 + r, ov, n) == KRead::Done(e, ser_body_4(e, ov).0->0.len()),
    decreases e, 1int,
{
    reveal(ser_body_4);
    reveal(parse_body_4);
    lemma_rt_ex_array_get_by_ref(e, ov, n, r);
}

/// An `ExClassSparseDataVariable` that fits reads back as an expression of group 4.
#[verifier::spinoff_prover]
#[verifier::rlimit(100)]
proof fn lemma_rt_in_4_class_sparse_data_variable(e: KView, ov: i32, n: nat, r: Seq<u8>)
    requires
        kfits(e, ov, n),
        (e is ExClassSparseDataVariable),
    ensures
        ser_body_4(e, ov).0 is Some,
        parse_body_4(e.token(), ser_body_4(e, ov).0->0 + r, ov, n) == KRead::Done(e, ser_body_4(e, ov).0->0.len()),
    decreases e, 1int,
{
    reveal(ser_body_4);
    reveal(parse_body_4);
    lemma_rt_ex_class_sparse_data_variable(e, ov, n, r);
}

/// An `ExFieldPathConst` that fits reads back as an expression of group 4.
#[verifier::spinoff_prover]
#[verifier::rlimit(100)]
proof fn lemma_rt_in_4_field_path_const(e: KView, ov: i32, n: nat, r: Seq<u8>)
    requires
        kfits(e, ov, n),
        (e is ExFieldPathConst),
    ensures
        ser_body_4(e, ov).0 is Some,
        parse_body_4(e.token(), ser_body_4(e, ov).0->0 + r, ov, n) == KRead::Done(e, ser_body_4(e, ov).0->0.len()),
    decreases e, 1int,
{
    reveal(ser_body_4);
    reveal(parse_body_4);
    lemma_rt_ex_field_path_const(e, ov, n, r);
}

} // verus!
