//! Reading what the expression of a token holds, by the group of the token.

use vstd::prelude::*;
use crate::archive::{ByteReader, rest, lemma_advance, u16_at, u32_at, u64_at, units_of};
use crate::asset::name_map::NameMap;
use crate::engine_version::VER_UE4_ADDED_PACKAGE_OWNER;
use crate::error::{Error, IoErrorKind, KismetError};
use crate::strings::{string_from_utf8, string_from_utf16};
use crate::types::{NameIndex, PackageIndex, Vector};
use super::expression::{
    KismetExpression, KView, KismetPropertyPointer, FieldPath, FScriptText, KismetSwitchCase, views, case_views,
    PointerView, TextView, SwitchCaseView,
};
use super::parse::{
    KRead, KErr, VER_UE4_CHANGE_SETARRAY_BYTECODE, body_group, first_zero, first_zero_pair, kr_boolb,
    kr_cast, kr_f32, kr_i32, kr_i64, kr_idx, kr_name,
    kr_names, kr_ptr, kr_rot4, kr_str, kr_u16, kr_u32,
    kr_u64, kr_u8, kr_ustr, kr_vec3, parse_body, parse_body_0,
    parse_body_1, parse_body_2, parse_body_3, parse_body_4, parse_case, parse_cases,
    parse_ex_add_multicast_delegate, parse_ex_array_const, parse_ex_array_get_by_ref, parse_ex_assert, parse_ex_bind_delegate, parse_ex_byte_const,
    parse_ex_call_math, parse_ex_call_multicast_delegate, parse_ex_class_context, parse_ex_class_sparse_data_variable, parse_ex_clear_multicast_delegate, parse_ex_computed_jump,
    parse_ex_context, parse_ex_context_fail_silent, parse_ex_cross_interface_cast, parse_ex_default_variable, parse_ex_dynamic_cast, parse_ex_field_path_const,
    parse_ex_final_function, parse_ex_float_const, parse_ex_instance_delegate, parse_ex_instance_variable, parse_ex_instrumentation_event, parse_ex_int64_const,
    parse_ex_int_const, parse_ex_int_const_byte, parse_ex_interface_context, parse_ex_interface_to_obj_cast, parse_ex_jump, parse_ex_jump_if_not,
    parse_ex_let, parse_ex_let_bool, parse_ex_let_delegate, parse_ex_let_multicast_delegate, parse_ex_let_obj, parse_ex_let_value_on_persistent_frame,
    parse_ex_let_weak_obj_ptr, parse_ex_local_final_function, parse_ex_local_out_variable, parse_ex_local_variable, parse_ex_local_virtual_function, parse_ex_map_const,
    parse_ex_meta_cast, parse_ex_name_const, parse_ex_obj_to_interface_cast, parse_ex_object_const, parse_ex_pop_execution_flow_if_not, parse_ex_primitive_cast,
    parse_ex_property_const, parse_ex_push_execution_flow, parse_ex_remove_multicast_delegate, parse_ex_return, parse_ex_rotation_const, parse_ex_set_array,
    parse_ex_set_const, parse_ex_set_map, parse_ex_set_set, parse_ex_skip, parse_ex_skip_offset_const, parse_ex_soft_object_const,
    parse_ex_string_const, parse_ex_struct_const, parse_ex_struct_member_context, parse_ex_switch_value, parse_ex_text_const, parse_ex_transform_const,
    parse_ex_uint64_const, parse_ex_unicode_string_const, parse_ex_vector_const, parse_ex_virtual_function, parse_expr, parse_list,
    parse_text,
};
use super::tokens::{EExprToken, ECastToken, EScriptInstrumentationType, EBlueprintTextLiteralType};

use super::read::{got, got_expr, err_of, is_eof_error, kstepped, lemma_first_zero, lemma_first_zero_pair, lemma_list_after_push, lemma_list_after_skip, lemma_list_step, lemma_names_stuck, lemma_views_push, list_after, read_boolb, read_cast, read_f32, read_i32, read_i64, read_idx, read_kismet_string, read_kismet_unicode_string, read_name, read_names, read_rot4, read_u16, read_u32, read_u64, read_u8, read_vec3, token_error};
use super::read_ex0::{read_ex_local_variable, read_ex_instance_variable, read_ex_default_variable, read_ex_return, read_ex_jump, read_ex_jump_if_not, read_ex_assert, read_ex_let, read_ex_class_context, read_ex_meta_cast, read_ex_let_bool, read_ex_skip, read_ex_context, read_ex_context_fail_silent, read_ex_virtual_function};
use super::read_ex1::{read_ex_final_function, read_ex_int_const, read_ex_float_const, read_ex_string_const, read_ex_object_const, read_ex_name_const, read_ex_rotation_const, read_ex_vector_const, read_ex_byte_const, read_ex_text_const, read_ex_transform_const, read_ex_int_const_byte, read_ex_dynamic_cast};
use super::read_ex2::{read_ex_struct_const, read_ex_set_array, read_ex_property_const, read_ex_unicode_string_const, read_ex_int64_const, read_ex_uint64_const, read_ex_primitive_cast, read_ex_set_set, read_ex_set_map, read_ex_set_const, read_ex_map_const, read_ex_struct_member_context};
use super::read_ex3::{read_ex_let_multicast_delegate, read_ex_let_delegate, read_ex_local_virtual_function, read_ex_local_final_function, read_ex_local_out_variable, read_ex_instance_delegate, read_ex_push_execution_flow, read_ex_computed_jump, read_ex_pop_execution_flow_if_not, read_ex_interface_context, read_ex_obj_to_interface_cast, read_ex_cross_interface_cast, read_ex_interface_to_obj_cast, read_ex_skip_offset_const};
use super::read_ex4::{read_ex_add_multicast_delegate, read_ex_clear_multicast_delegate, read_ex_let_obj, read_ex_let_weak_obj_ptr, read_ex_bind_delegate, read_ex_remove_multicast_delegate, read_ex_call_multicast_delegate, read_ex_let_value_on_persistent_frame, read_ex_array_const, read_ex_soft_object_const, read_ex_call_math, read_ex_switch_value, read_ex_instrumentation_event, read_ex_array_get_by_ref, read_ex_class_sparse_data_variable, read_ex_field_path_const};

verus! {

/// Read what the expression of token `t` holds, after the token.
pub(crate) fn read_body(reader: &mut ByteReader, name_map: &NameMap, ov: i32, t: EExprToken) -> (res: Result<KismetExpression, Error>)
    ensures
        kstepped(*old(reader), *final(reader), got_expr(res), err_of(res),
            parse_body(t, old(reader).remaining(), ov, name_map.names().len())),
    decreases old(reader).remaining().len(), 4int, 0int,
{
    let ghost s = old(reader).remaining();
    let ghost n = name_map.names().len();
    let g = body_group_of(t);
    proof {
        super::parse::lemma_parse_body(t, s, ov, n);
    }
    if g == 0 {
        read_body_0(reader, name_map, ov, t)
    } else if g == 1 {
        read_body_1(reader, name_map, ov, t)
    } else if g == 2 {
        read_body_2(reader, name_map, ov, t)
    } else if g == 3 {
        read_body_3(reader, name_map, ov, t)
    } else if g == 4 {
        read_body_4(reader, name_map, ov, t)
    } else {
        Err(token_error())
    }
}

/// The group of tokens that a token belongs to, for reading.
pub(crate) fn body_group_of(t: EExprToken) -> (g: u8)
    ensures g == body_group(t),
{
    proof { reveal(body_group); }
    match t {
        EExprToken::ExLocalVariable => 0,
        EExprToken::ExInstanceVariable => 0,
        EExprToken::ExDefaultVariable => 0,
        EExprToken::ExReturn => 0,
        EExprToken::ExJump => 0,
        EExprToken::ExJumpIfNot => 0,
        EExprToken::ExAssert => 0,
        EExprToken::ExNothing => 0,
        EExprToken::ExLet => 0,
        EExprToken::ExClassContext => 0,
        EExprToken::ExMetaCast => 0,
        EExprToken::ExLetBool => 0,
        EExprToken::ExEndParmValue => 0,
        EExprToken::ExEndFunctionParms => 0,
        EExprToken::ExSelf => 0,
        EExprToken::ExSkip => 0,
        EExprToken::ExContext => 0,
        EExprToken::ExContextFailSilent => 0,
        EExprToken::ExVirtualFunction => 0,
        EExprToken::ExFinalFunction => 1,
        EExprToken::ExIntConst => 1,
        EExprToken::ExFloatConst => 1,
        EExprToken::ExStringConst => 1,
        EExprToken::ExObjectConst => 1,
        EExprToken::ExNameConst => 1,
        EExprToken::ExRotationConst => 1,
        EExprToken::ExVectorConst => 1,
        EExprToken::ExByteConst => 1,
        EExprToken::ExIntZero => 1,
        EExprToken::ExIntOne => 1,
        EExprToken::ExTrue => 1,
        EExprToken::ExFalse => 1,
        EExprToken::ExTextConst => 1,
        EExprToken::ExNoObject => 1,
        EExprToken::ExTransformConst => 1,
        EExprToken::ExIntConstByte => 1,
        EExprToken::ExNoInterface => 1,
        EExprToken::ExDynamicCast => 1,
        EExprToken::ExStructConst => 2,
        EExprToken::ExEndStructConst => 2,
        EExprToken::ExSetArray => 2,
        EExprToken::ExEndArray => 2,
        EExprToken::ExPropertyConst => 2,
        EExprToken::ExUnicodeStringConst => 2,
        EExprToken::ExInt64Const => 2,
        EExprToken::ExUInt64Const => 2,
        EExprToken::ExPrimitiveCast => 2,
        EExprToken::ExSetSet => 2,
        EExprToken::ExEndSet => 2,
        EExprToken::ExSetMap => 2,
        EExprToken::ExEndMap => 2,
        EExprToken::ExSetConst => 2,
        EExprToken::ExEndSetConst => 2,
        EExprToken::ExMapConst => 2,
        EExprToken::ExEndMapConst => 2,
        EExprToken::ExStructMemberContext => 2,
        EExprToken::ExLetMulticastDelegate => 3,
        EExprToken::ExLetDelegate => 3,
        EExprToken::ExLocalVirtualFunction => 3,
        EExprToken::ExLocalFinalFunction => 3,
        EExprToken::ExLocalOutVariable => 3,
        EExprToken::ExDeprecatedOp4A => 3,
        EExprToken::ExInstanceDelegate => 3,
        EExprToken::ExPushExecutionFlow => 3,
        EExprToken::ExPopExecutionFlow => 3,
        EExprToken::ExComputedJump => 3,
        EExprToken::ExPopExecutionFlowIfNot => 3,
        EExprToken::ExBreakpoint => 3,
        EExprToken::ExInterfaceContext => 3,
        EExprToken::ExObjToInterfaceCast => 3,
        EExprToken::ExEndOfScript => 3,
        EExprToken::ExCrossInterfaceCast => 3,
        EExprToken::ExInterfaceToObjCast => 3,
        EExprToken::ExWireTracepoint => 3,
        EExprToken::ExSkipOffsetConst => 3,
        EExprToken::ExAddMulticastDelegate => 4,
        EExprToken::ExClearMulticastDelegate => 4,
        EExprToken::ExTracepoint => 4,
        EExprToken::ExLetObj => 4,
        EExprToken::ExLetWeakObjPtr => 4,
        EExprToken::ExBindDelegate => 4,
        EExprToken::ExRemoveMulticastDelegate => 4,
        EExprToken::ExCallMulticastDelegate => 4,
        EExprToken::ExLetValueOnPersistentFrame => 4,
        EExprToken::ExArrayConst => 4,
        EExprToken::ExEndArrayConst => 4,
        EExprToken::ExSoftObjectConst => 4,
        EExprToken::ExCallMath => 4,
        EExprToken::ExSwitchValue => 4,
        EExprToken::ExInstrumentationEvent => 4,
        EExprToken::ExArrayGetByRef => 4,
        EExprToken::ExClassSparseDataVariable => 4,
        EExprToken::ExFieldPathConst => 4,
        EExprToken::ExMax => 255,
    }
}

/// Read what the expression of token `t` holds, for the tokens of group 0.
pub(crate) fn read_body_0(reader: &mut ByteReader, name_map: &NameMap, ov: i32, t: EExprToken) -> (res: Result<KismetExpression, Error>)
    ensures
        kstepped(*old(reader), *final(reader), got_expr(res), err_of(res),
            parse_body_0(t, old(reader).remaining(), ov, name_map.names().len())),
    decreases old(reader).remaining().len(), 3int, 0int,
{
    proof { reveal(parse_body_0); }
    match t {
        EExprToken::ExLocalVariable => read_ex_local_variable(reader, name_map, ov),
        EExprToken::ExInstanceVariable => read_ex_instance_variable(reader, name_map, ov),
        EExprToken::ExDefaultVariable => read_ex_default_variable(reader, name_map, ov),
        EExprToken::ExReturn => read_ex_return(reader, name_map, ov),
        EExprToken::ExJump => read_ex_jump(reader, name_map, ov),
        EExprToken::ExJumpIfNot => read_ex_jump_if_not(reader, name_map, ov),
        EExprToken::ExAssert => read_ex_assert(reader, name_map, ov),
        EExprToken::ExNothing => Ok(KismetExpression::ExNothing),
        EExprToken::ExLet => read_ex_let(reader, name_map, ov),
        EExprToken::ExClassContext => read_ex_class_context(reader, name_map, ov),
        EExprToken::ExMetaCast => read_ex_meta_cast(reader, name_map, ov),
        EExprToken::ExLetBool => read_ex_let_bool(reader, name_map, ov),
        EExprToken::ExEndParmValue => Ok(KismetExpression::ExEndParmValue),
        EExprToken::ExEndFunctionParms => Ok(KismetExpression::ExEndFunctionParms),
        EExprToken::ExSelf => Ok(KismetExpression::ExSelf),
        EExprToken::ExSkip => read_ex_skip(reader, name_map, ov),
        EExprToken::ExContext => read_ex_context(reader, name_map, ov),
        EExprToken::ExContextFailSilent => read_ex_context_fail_silent(reader, name_map, ov),
        EExprToken::ExVirtualFunction => read_ex_virtual_function(reader, name_map, ov),
        _ => Err(token_error()),
    }
}

/// Read what the expression of token `t` holds, for the tokens of group 1.
pub(crate) fn read_body_1(reader: &mut ByteReader, name_map: &NameMap, ov: i32, t: EExprToken) -> (res: Result<KismetExpression, Error>)
    ensures
        kstepped(*old(reader), *final(reader), got_expr(res), err_of(res),
            parse_body_1(t, old(reader).remaining(), ov, name_map.names().len())),
    decreases old(reader).remaining().len(), 3int, 0int,
{
    proof { reveal(parse_body_1); }
    match t {
        EExprToken::ExFinalFunction => read_ex_final_function(reader, name_map, ov),
        EExprToken::ExIntConst => read_ex_int_const(reader, name_map, ov),
        EExprToken::ExFloatConst => read_ex_float_const(reader, name_map, ov),
        EExprToken::ExStringConst => read_ex_string_const(reader, name_map, ov),
        EExprToken::ExObjectConst => read_ex_object_const(reader, name_map, ov),
        EExprToken::ExNameConst => read_ex_name_const(reader, name_map, ov),
        EExprToken::ExRotationConst => read_ex_rotation_const(reader, name_map, ov),
        EExprToken::ExVectorConst => read_ex_vector_const(reader, name_map, ov),
        EExprToken::ExByteConst => read_ex_byte_const(reader, name_map, ov),
        EExprToken::ExIntZero => Ok(KismetExpression::ExIntZero),
        EExprToken::ExIntOne => Ok(KismetExpression::ExIntOne),
        EExprToken::ExTrue => Ok(KismetExpression::ExTrue),
        EExprToken::ExFalse => Ok(KismetExpression::ExFalse),
        EExprToken::ExTextConst => read_ex_text_const(reader, name_map, ov),
        EExprToken::ExNoObject => Ok(KismetExpression::ExNoObject),
        EExprToken::ExTransformConst => read_ex_transform_const(reader, name_map, ov),
        EExprToken::ExIntConstByte => read_ex_int_const_byte(reader, name_map, ov),
        EExprToken::ExNoInterface => Ok(KismetExpression::ExNoInterface),
        EExprToken::ExDynamicCast => read_ex_dynamic_cast(reader, name_map, ov),
        _ => Err(token_error()),
    }
}

/// Read what the expression of token `t` holds, for the tokens of group 2.
pub(crate) fn read_body_2(reader: &mut ByteReader, name_map: &NameMap, ov: i32, t: EExprToken) -> (res: Result<KismetExpression, Error>)
    ensures
        kstepped(*old(reader), *final(reader), got_expr(res), err_of(res),
            parse_body_2(t, old(reader).remaining(), ov, name_map.names().len())),
    decreases old(reader).remaining().len(), 3int, 0int,
{
    proof { reveal(parse_body_2); }
    match t {
        EExprToken::ExStructConst => read_ex_struct_const(reader, name_map, ov),
        EExprToken::ExEndStructConst => Ok(KismetExpression::ExEndStructConst),
        EExprToken::ExSetArray => read_ex_set_array(reader, name_map, ov),
        EExprToken::ExEndArray => Ok(KismetExpression::ExEndArray),
        EExprToken::ExPropertyConst => read_ex_property_const(reader, name_map, ov),
        EExprToken::ExUnicodeStringConst => read_ex_unicode_string_const(reader, name_map, ov),
        EExprToken::ExInt64Const => read_ex_int64_const(reader, name_map, ov),
        EExprToken::ExUInt64Const => read_ex_uint64_const(reader, name_map, ov),
        EExprToken::ExPrimitiveCast => read_ex_primitive_cast(reader, name_map, ov),
        EExprToken::ExSetSet => read_ex_set_set(reader, name_map, ov),
        EExprToken::ExEndSet => Ok(KismetExpression::ExEndSet),
        EExprToken::ExSetMap => read_ex_set_map(reader, name_map, ov),
        EExprToken::ExEndMap => Ok(KismetExpression::ExEndMap),
        EExprToken::ExSetConst => read_ex_set_const(reader, name_map, ov),
        EExprToken::ExEndSetConst => Ok(KismetExpression::ExEndSetConst),
        EExprToken::ExMapConst => read_ex_map_const(reader, name_map, ov),
        EExprToken::ExEndMapConst => Ok(KismetExpression::ExEndMapConst),
        EExprToken::ExStructMemberContext => read_ex_struct_member_context(reader, name_map, ov),
        _ => Err(token_error()),
    }
}

/// Read what the expression of token `t` holds, for the tokens of group 3.
pub(crate) fn read_body_3(reader: &mut ByteReader, name_map: &NameMap, ov: i32, t: EExprToken) -> (res: Result<KismetExpression, Error>)
    ensures
        kstepped(*old(reader), *final(reader), got_expr(res), err_of(res),
            parse_body_3(t, old(reader).remaining(), ov, name_map.names().len())),
    decreases old(reader).remaining().len(), 3int, 0int,
{
    proof { reveal(parse_body_3); }
    match t {
        EExprToken::ExLetMulticastDelegate => read_ex_let_multicast_delegate(reader, name_map, ov),
        EExprToken::ExLetDelegate => read_ex_let_delegate(reader, name_map, ov),
        EExprToken::ExLocalVirtualFunction => read_ex_local_virtual_function(reader, name_map, ov),
        EExprToken::ExLocalFinalFunction => read_ex_local_final_function(reader, name_map, ov),
        EExprToken::ExLocalOutVariable => read_ex_local_out_variable(reader, name_map, ov),
        EExprToken::ExDeprecatedOp4A => Ok(KismetExpression::ExDeprecatedOp4A),
        EExprToken::ExInstanceDelegate => read_ex_instance_delegate(reader, name_map, ov),
        EExprToken::ExPushExecutionFlow => read_ex_push_execution_flow(reader, name_map, ov),
        EExprToken::ExPopExecutionFlow => Ok(KismetExpression::ExPopExecutionFlow),
        EExprToken::ExComputedJump => read_ex_computed_jump(reader, name_map, ov),
        EExprToken::ExPopExecutionFlowIfNot => read_ex_pop_execution_flow_if_not(reader, name_map, ov),
        EExprToken::ExBreakpoint => Ok(KismetExpression::ExBreakpoint),
        EExprToken::ExInterfaceContext => read_ex_interface_context(reader, name_map, ov),
        EExprToken::ExObjToInterfaceCast => read_ex_obj_to_interface_cast(reader, name_map, ov),
        EExprToken::ExEndOfScript => Ok(KismetExpression::ExEndOfScript),
        EExprToken::ExCrossInterfaceCast => read_ex_cross_interface_cast(reader, name_map, ov),
        EExprToken::ExInterfaceToObjCast => read_ex_interface_to_obj_cast(reader, name_map, ov),
        EExprToken::ExWireTracepoint => Ok(KismetExpression::ExWireTracepoint),
        EExprToken::ExSkipOffsetConst => read_ex_skip_offset_const(reader, name_map, ov),
        _ => Err(token_error()),
    }
}

/// Read what the expression of token `t` holds, for the tokens of group 4.
pub(crate) fn read_body_4(reader: &mut ByteReader, name_map: &NameMap, ov: i32, t: EExprToken) -> (res: Result<KismetExpression, Error>)
    ensures
        kstepped(*old(reader), *final(reader), got_expr(res), err_of(res),
            parse_body_4(t, old(reader).remaining(), ov, name_map.names().len())),
    decreases old(reader).remaining().len(), 3int, 0int,
{
    proof { reveal(parse_body_4); }
    match t {
        EExprToken::ExAddMulticastDelegate => read_ex_add_multicast_delegate(reader, name_map, ov),
        EExprToken::ExClearMulticastDelegate => read_ex_clear_multicast_delegate(reader, name_map, ov),
        EExprToken::ExTracepoint => Ok(KismetExpression::ExTracepoint),
        EExprToken::ExLetObj => read_ex_let_obj(reader, name_map, ov),
        EExprToken::ExLetWeakObjPtr => read_ex_let_weak_obj_ptr(reader, name_map, ov),
        EExprToken::ExBindDelegate => read_ex_bind_delegate(reader, name_map, ov),
        EExprToken::ExRemoveMulticastDelegate => read_ex_remove_multicast_delegate(reader, name_map, ov),
        EExprToken::ExCallMulticastDelegate => read_ex_call_multicast_delegate(reader, name_map, ov),
        EExprToken::ExLetValueOnPersistentFrame => read_ex_let_value_on_persistent_frame(reader, name_map, ov),
        EExprToken::ExArrayConst => read_ex_array_const(reader, name_map, ov),
        EExprToken::ExEndArrayConst => Ok(KismetExpression::ExEndArrayConst),
        EExprToken::ExSoftObjectConst => read_ex_soft_object_const(reader, name_map, ov),
        EExprToken::ExCallMath => read_ex_call_math(reader, name_map, ov),
        EExprToken::ExSwitchValue => read_ex_switch_value(reader, name_map, ov),
        EExprToken::ExInstrumentationEvent => read_ex_instrumentation_event(reader, name_map, ov),
        EExprToken::ExArrayGetByRef => read_ex_array_get_by_ref(reader, name_map, ov),
        EExprToken::ExClassSparseDataVariable => read_ex_class_sparse_data_variable(reader, name_map, ov),
        EExprToken::ExFieldPathConst => read_ex_field_path_const(reader, name_map, ov),
        _ => Err(token_error()),
    }
}

} // verus!
