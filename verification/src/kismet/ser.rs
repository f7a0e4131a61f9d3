//! What writing kismet bytecode gives: the bytes of each part, and the in-memory size that
//! each write reports, which jump offsets of the bytecode count in.

use vstd::prelude::*;
use vstd::utf8::encode_utf8;
use crate::archive::{ser_u16, ser_u32, ser_i32, ser_u64, ser_i64, units_bytes};
use crate::asset::name_map::ser_fname;
use crate::engine_version::VER_UE4_ADDED_PACKAGE_OWNER;
use crate::strings::utf16_encode;
use crate::types::{NameIndex, Vector};
use super::expression::{KView, PointerView, TextView, SwitchCaseView};
use super::parse::{VER_UE4_CHANGE_SETARRAY_BYTECODE, body_group};
use super::tokens::{EExprToken, EScriptInstrumentationType, EBlueprintTextLiteralType};

verus! {

/// Two writes one after the other: the bytes of both where both have bytes, and the sum of the
/// sizes that they report.
pub open spec fn wcat(a: (Option<Seq<u8>>, nat), b: (Option<Seq<u8>>, nat)) -> (Option<Seq<u8>>, nat) {
    (match a.0 {
        Some(x) => match b.0 {
            Some(y) => Some(x + y),
            None => None,
        },
        None => None,
    }, a.1 + b.1)
}

/// A write of the bytes `b` that reports the size `off`.
pub open spec fn wlit(b: Seq<u8>, off: nat) -> (Option<Seq<u8>>, nat) {
    (Some(b), off)
}

/// The bytes of names, one after another.
pub open spec fn ser_names(p: Seq<NameIndex>) -> Seq<u8>
    decreases p.len(),
{
    if p.len() == 0 { Seq::empty() } else { ser_names(p.drop_last()) + ser_fname(p.last()) }
}

/// A property pointer: from the object version that adds the package owner, the count of the
/// path's names, the names and the owner; before it, the package index. The version's form must
/// be there. It reports the size of a pointer.
pub open spec fn ser_ptr(p: PointerView, ov: i32) -> (Option<Seq<u8>>, nat) {
    if ov >= VER_UE4_ADDED_PACKAGE_OWNER {
        match p.new {
            Some(f) => (Some(ser_i32(f.path.len() as i32) + ser_names(f.path) + ser_i32(f.resolved_owner.index)), 8),
            None => (None, 8),
        }
    } else {
        match p.old {
            Some(i) => (Some(ser_i32(i.index)), 8),
            None => (None, 8),
        }
    }
}

/// A UTF-8 string and a zero byte; it reports the bytes written.
pub open spec fn ser_kstr(t: Seq<char>) -> (Option<Seq<u8>>, nat) {
    (Some(encode_utf8(t).push(0u8)), encode_utf8(t).len() + 1)
}

/// A string as little-endian UTF-16 code units and a zero unit; it reports the bytes written.
pub open spec fn ser_kustr(t: Seq<char>) -> (Option<Seq<u8>>, nat) {
    (Some(units_bytes(utf16_encode(t)) + seq![0u8, 0u8]), 2 * utf16_encode(t).len() + 2)
}

/// Three `u32`s.
pub open spec fn ser_vec3(v: Vector<u32>) -> Seq<u8> {
    ser_u32(v.x) + ser_u32(v.y) + ser_u32(v.z)
}

/// Four `u32`s.
pub open spec fn ser_rot4(r: (u32, u32, u32, u32)) -> Seq<u8> {
    ser_u32(r.0) + ser_u32(r.1) + ser_u32(r.2) + ser_u32(r.3)
}

/// An expression: its token, then what it holds. The token counts one byte.
pub open spec fn ser_expr(e: KView, ov: i32) -> (Option<Seq<u8>>, nat)
    decreases e, 3int,
{
    wcat(wlit(seq![e.token().spec_value()], 1), ser_body(e, ov))
}

/// What an expression holds, by the group of its token.
pub open spec fn ser_body(e: KView, ov: i32) -> (Option<Seq<u8>>, nat)
    decreases e, 2int,
{
    let g = body_group(e.token());
    if g == 0 {
        ser_body_0(e, ov)
    } else if g == 1 {
        ser_body_1(e, ov)
    } else if g == 2 {
        ser_body_2(e, ov)
    } else if g == 3 {
        ser_body_3(e, ov)
    } else if g == 4 {
        ser_body_4(e, ov)
    } else {
        (None, 0)
    }
}

/// Expressions, one after another.
pub open spec fn ser_list(es: Seq<KView>, ov: i32) -> (Option<Seq<u8>>, nat)
    decreases es, 0int,
{
    if es.len() == 0 {
        wlit(Seq::empty(), 0)
    } else {
        wcat(ser_list(es.subrange(0, es.len() - 1), ov), ser_expr(es[es.len() - 1], ov))
    }
}

/// An expression that must be there.
pub open spec fn ser_opt(o: Option<KView>, ov: i32) -> (Option<Seq<u8>>, nat)
    decreases o, 0int,
{
    match o {
        Some(x) => ser_expr(x, ov),
        None => (None, 0),
    }
}

/// Switch cases, one after another: each its index term, its next offset and its term.
pub open spec fn ser_cases(cs: Seq<SwitchCaseView>, ov: i32) -> (Option<Seq<u8>>, nat)
    decreases cs, 0int,
{
    if cs.len() == 0 {
        wlit(Seq::empty(), 0)
    } else {
        let c = cs[cs.len() - 1];
        wcat(wcat(wcat(ser_cases(cs.subrange(0, cs.len() - 1), ov), ser_expr(c.case_index_value_term, ov)),
            wlit(ser_u32(c.next_offset), 4)), ser_expr(c.case_term, ov))
    }
}

/// A script text: its literal type, then the expressions that the type needs, which must be
/// there; a string table entry writes its asset's index and reports the size of a package index.
pub open spec fn ser_text(t: TextView, ov: i32) -> (Option<Seq<u8>>, nat)
    decreases t, 0int,
{
    let head = wlit(seq![t.text_literal_type.spec_value()], 1);
    match t.text_literal_type {
        EBlueprintTextLiteralType::Empty => head,
        EBlueprintTextLiteralType::LocalizedText => wcat(wcat(wcat(head, ser_opt(t.localized_source, ov)),
            ser_opt(t.localized_key, ov)), ser_opt(t.localized_namespace, ov)),
        EBlueprintTextLiteralType::InvariantText => wcat(head, ser_opt(t.invariant_literal_string, ov)),
        EBlueprintTextLiteralType::LiteralString => wcat(head, ser_opt(t.literal_string, ov)),
        EBlueprintTextLiteralType::StringTableEntry => wcat(wcat(wcat(head, match t.string_table_asset {
            Some(i) => (Some(ser_i32(i.index)), 8),
            None => (None, 8),
        }), ser_opt(t.string_table_id, ov)), ser_opt(t.string_table_key, ov)),
    }
}

/// What an expression of a token of group 0 holds.
#[verifier::opaque]
pub open spec fn ser_body_0(e: KView, ov: i32) -> (Option<Seq<u8>>, nat)
    decreases e, 1int,
{
    match e {
        KView::ExLocalVariable { .. } => ser_ex_local_variable(e, ov),
        KView::ExInstanceVariable { .. } => ser_ex_instance_variable(e, ov),
        KView::ExDefaultVariable { .. } => ser_ex_default_variable(e, ov),
        KView::ExReturn { .. } => ser_ex_return(e, ov),
        KView::ExJump { .. } => ser_ex_jump(e, ov),
        KView::ExJumpIfNot { .. } => ser_ex_jump_if_not(e, ov),
        KView::ExAssert { .. } => ser_ex_assert(e, ov),
        KView::ExNothing => wlit(Seq::empty(), 0),
        KView::ExLet { .. } => ser_ex_let(e, ov),
        KView::ExClassContext { .. } => ser_ex_class_context(e, ov),
        KView::ExMetaCast { .. } => ser_ex_meta_cast(e, ov),
        KView::ExLetBool { .. } => ser_ex_let_bool(e, ov),
        KView::ExEndParmValue => wlit(Seq::empty(), 0),
        KView::ExEndFunctionParms => wlit(Seq::empty(), 0),
        KView::ExSelf => wlit(Seq::empty(), 0),
        KView::ExSkip { .. } => ser_ex_skip(e, ov),
        KView::ExContext { .. } => ser_ex_context(e, ov),
        KView::ExContextFailSilent { .. } => ser_ex_context_fail_silent(e, ov),
        KView::ExVirtualFunction { .. } => ser_ex_virtual_function(e, ov),
        _ => (None, 0),
    }
}

/// What an expression of a token of group 1 holds.
#[verifier::opaque]
pub open spec fn ser_body_1(e: KView, ov: i32) -> (Option<Seq<u8>>, nat)
    decreases e, 1int,
{
    match e {
        KView::ExFinalFunction { .. } => ser_ex_final_function(e, ov),
        KView::ExIntConst { .. } => ser_ex_int_const(e, ov),
        KView::ExFloatConst { .. } => ser_ex_float_const(e, ov),
        KView::ExStringConst { .. } => ser_ex_string_const(e, ov),
        KView::ExObjectConst { .. } => ser_ex_object_const(e, ov),
        KView::ExNameConst { .. } => ser_ex_name_const(e, ov),
        KView::ExRotationConst { .. } => ser_ex_rotation_const(e, ov),
        KView::ExVectorConst { .. } => ser_ex_vector_const(e, ov),
        KView::ExByteConst { .. } => ser_ex_byte_const(e, ov),
        KView::ExIntZero => wlit(Seq::empty(), 0),
        KView::ExIntOne => wlit(Seq::empty(), 0),
        KView::ExTrue => wlit(Seq::empty(), 0),
        KView::ExFalse => wlit(Seq::empty(), 0),
        KView::ExTextConst { .. } => ser_ex_text_const(e, ov),
        KView::ExNoObject => wlit(Seq::empty(), 0),
        KView::ExTransformConst { .. } => ser_ex_transform_const(e, ov),
        KView::ExIntConstByte { .. } => ser_ex_int_const_byte(e, ov),
        KView::ExNoInterface => wlit(Seq::empty(), 0),
        KView::ExDynamicCast { .. } => ser_ex_dynamic_cast(e, ov),
        _ => (None, 0),
    }
}

/// What an expression of a token of group 2 holds.
#[verifier::opaque]
pub open spec fn ser_body_2(e: KView, ov: i32) -> (Option<Seq<u8>>, nat)
    decreases e, 1int,
{
    match e {
        KView::ExStructConst { .. } => ser_ex_struct_const(e, ov),
        KView::ExEndStructConst => wlit(Seq::empty(), 0),
        KView::ExSetArray { .. } => ser_ex_set_array(e, ov),
        KView::ExEndArray => wlit(Seq::empty(), 0),
        KView::ExPropertyConst { .. } => ser_ex_property_const(e, ov),
        KView::ExUnicodeStringConst { .. } => ser_ex_unicode_string_const(e, ov),
        KView::ExInt64Const { .. } => ser_ex_int64_const(e, ov),
        KView::ExUInt64Const { .. } => ser_ex_uint64_const(e, ov),
        KView::ExPrimitiveCast { .. } => ser_ex_primitive_cast(e, ov),
        KView::ExSetSet { .. } => ser_ex_set_set(e, ov),
        KView::ExEndSet => wlit(Seq::empty(), 0),
        KView::ExSetMap { .. } => ser_ex_set_map(e, ov),
        KView::ExEndMap => wlit(Seq::empty(), 0),
        KView::ExSetConst { .. } => ser_ex_set_const(e, ov),
        KView::ExEndSetConst => wlit(Seq::empty(), 0),
        KView::ExMapConst { .. } => ser_ex_map_const(e, ov),
        KView::ExEndMapConst => wlit(Seq::empty(), 0),
        KView::ExStructMemberContext { .. } => ser_ex_struct_member_context(e, ov),
        _ => (None, 0),
    }
}

/// What an expression of a token of group 3 holds.
#[verifier::opaque]
pub open spec fn ser_body_3(e: KView, ov: i32) -> (Option<Seq<u8>>, nat)
    decreases e, 1int,
{
    match e {
        KView::ExLetMulticastDelegate { .. } => ser_ex_let_multicast_delegate(e, ov),
        KView::ExLetDelegate { .. } => ser_ex_let_delegate(e, ov),
        KView::ExLocalVirtualFunction { .. } => ser_ex_local_virtual_function(e, ov),
        KView::ExLocalFinalFunction { .. } => ser_ex_local_final_function(e, ov),
        KView::ExLocalOutVariable { .. } => ser_ex_local_out_variable(e, ov),
        KView::ExDeprecatedOp4A => wlit(Seq::empty(), 0),
        KView::ExInstanceDelegate { .. } => ser_ex_instance_delegate(e, ov),
        KView::ExPushExecutionFlow { .. } => ser_ex_push_execution_flow(e, ov),
        KView::ExPopExecutionFlow => wlit(Seq::empty(), 0),
        KView::ExComputedJump { .. } => ser_ex_computed_jump(e, ov),
        KView::ExPopExecutionFlowIfNot { .. } => ser_ex_pop_execution_flow_if_not(e, ov),
        KView::ExBreakpoint => wlit(Seq::empty(), 0),
        KView::ExInterfaceContext { .. } => ser_ex_interface_context(e, ov),
        KView::ExObjToInterfaceCast { .. } => ser_ex_obj_to_interface_cast(e, ov),
        KView::ExEndOfScript => wlit(Seq::empty(), 0),
        KView::ExCrossInterfaceCast { .. } => ser_ex_cross_interface_cast(e, ov),
        KView::ExInterfaceToObjCast { .. } => ser_ex_interface_to_obj_cast(e, ov),
        KView::ExWireTracepoint => wlit(Seq::empty(), 0),
        KView::ExSkipOffsetConst { .. } => ser_ex_skip_offset_const(e, ov),
        _ => (None, 0),
    }
}

/// What an expression of a token of group 4 holds.
#[verifier::opaque]
pub open spec fn ser_body_4(e: KView, ov: i32) -> (Option<Seq<u8>>, nat)
    decreases e, 1int,
{
    match e {
        KView::ExAddMulticastDelegate { .. } => ser_ex_add_multicast_delegate(e, ov),
        KView::ExClearMulticastDelegate { .. } => ser_ex_clear_multicast_delegate(e, ov),
        KView::ExTracepoint => wlit(Seq::empty(), 0),
        KView::ExLetObj { .. } => ser_ex_let_obj(e, ov),
        KView::ExLetWeakObjPtr { .. } => ser_ex_let_weak_obj_ptr(e, ov),
        KView::ExBindDelegate { .. } => ser_ex_bind_delegate(e, ov),
        KView::ExRemoveMulticastDelegate { .. } => ser_ex_remove_multicast_delegate(e, ov),
        KView::ExCallMulticastDelegate { .. } => ser_ex_call_multicast_delegate(e, ov),
        KView::ExLetValueOnPersistentFrame { .. } => ser_ex_let_value_on_persistent_frame(e, ov),
        KView::ExArrayConst { .. } => ser_ex_array_const(e, ov),
        KView::ExEndArrayConst => wlit(Seq::empty(), 0),
        KView::ExSoftObjectConst { .. } => ser_ex_soft_object_const(e, ov),
        KView::ExCallMath { .. } => ser_ex_call_math(e, ov),
        KView::ExSwitchValue { .. } => ser_ex_switch_value(e, ov),
        KView::ExInstrumentationEvent { .. } => ser_ex_instrumentation_event(e, ov),
        KView::ExArrayGetByRef { .. } => ser_ex_array_get_by_ref(e, ov),
        KView::ExClassSparseDataVariable { .. } => ser_ex_class_sparse_data_variable(e, ov),
        KView::ExFieldPathConst { .. } => ser_ex_field_path_const(e, ov),
        _ => (None, 0),
    }
}

/// What an `ExLocalVariable` holds.
pub open spec fn ser_ex_local_variable(e: KView, ov: i32) -> (Option<Seq<u8>>, nat)
    decreases e, 0int,
{
    match e {
        KView::ExLocalVariable { variable } => wcat(wlit(Seq::<u8>::empty(), 0), ser_ptr(variable, ov)),
        _ => (None, 0),
    }
}

/// What an `ExInstanceVariable` holds.
pub open spec fn ser_ex_instance_variable(e: KView, ov: i32) -> (Option<Seq<u8>>, nat)
    decreases e, 0int,
{
    match e {
        KView::ExInstanceVariable { variable } => wcat(wlit(Seq::<u8>::empty(), 0), ser_ptr(variable, ov)),
        _ => (None, 0),
    }
}

/// What an `ExDefaultVariable` holds.
pub open spec fn ser_ex_default_variable(e: KView, ov: i32) -> (Option<Seq<u8>>, nat)
    decreases e, 0int,
{
    match e {
        KView::ExDefaultVariable { variable } => wcat(wlit(Seq::<u8>::empty(), 0), ser_ptr(variable, ov)),
        _ => (None, 0),
    }
}

/// What an `ExReturn` holds.
pub open spec fn ser_ex_return(e: KView, ov: i32) -> (Option<Seq<u8>>, nat)
    decreases e, 0int,
{
    match e {
        KView::ExReturn { return_expression } => wcat(wlit(Seq::<u8>::empty(), 0), ser_expr(*return_expression, ov)),
        _ => (None, 0),
    }
}

/// What an `ExJump` holds.
pub open spec fn ser_ex_jump(e: KView, ov: i32) -> (Option<Seq<u8>>, nat)
    decreases e, 0int,
{
    match e {
        KView::ExJump { code_offset } => wcat(wlit(Seq::<u8>::empty(), 4), wlit(ser_u32(code_offset), 0)),
        _ => (None, 0),
    }
}

/// What an `ExJumpIfNot` holds.
pub open spec fn ser_ex_jump_if_not(e: KView, ov: i32) -> (Option<Seq<u8>>, nat)
    decreases e, 0int,
{
    match e {
        KView::ExJumpIfNot { code_offset, boolean_expression } => wcat(wcat(wlit(Seq::<u8>::empty(), 4), wlit(ser_u32(code_offset), 0)), ser_expr(*boolean_expression, ov)),
        _ => (None, 0),
    }
}

/// What an `ExAssert` holds.
pub open spec fn ser_ex_assert(e: KView, ov: i32) -> (Option<Seq<u8>>, nat)
    decreases e, 0int,
{
    match e {
        KView::ExAssert { line_number, debug_mode, assert_expression } => wcat(wcat(wcat(wlit(Seq::<u8>::empty(), 5), wlit(ser_u16(line_number), 0)), wlit(seq![if debug_mode { 1u8 } else { 0u8 }], 0)), ser_expr(*assert_expression, ov)),
        _ => (None, 0),
    }
}

/// What an `ExLet` holds.
pub open spec fn ser_ex_let(e: KView, ov: i32) -> (Option<Seq<u8>>, nat)
    decreases e, 0int,
{
    match e {
        KView::ExLet { value, variable, expression } => wcat(wcat(wcat(wlit(Seq::<u8>::empty(), 0), ser_ptr(value, ov)), ser_expr(*variable, ov)), ser_expr(*expression, ov)),
        _ => (None, 0),
    }
}

/// What an `ExClassContext` holds.
pub open spec fn ser_ex_class_context(e: KView, ov: i32) -> (Option<Seq<u8>>, nat)
    decreases e, 0int,
{
    match e {
        KView::ExClassContext { object_expression, offset, r_value_pointer, context_expression } => wcat(wcat(wcat(wcat(wlit(Seq::<u8>::empty(), 4), ser_expr(*object_expression, ov)), wlit(ser_u32(offset), 0)), ser_ptr(r_value_pointer, ov)), ser_expr(*context_expression, ov)),
        _ => (None, 0),
    }
}

/// What an `ExMetaCast` holds.
pub open spec fn ser_ex_meta_cast(e: KView, ov: i32) -> (Option<Seq<u8>>, nat)
    decreases e, 0int,
{
    match e {
        KView::ExMetaCast { class_ptr, target_expression } => wcat(wcat(wlit(Seq::<u8>::empty(), 8), wlit(ser_i32(class_ptr.index), 0)), ser_expr(*target_expression, ov)),
        _ => (None, 0),
    }
}

/// What an `ExLetBool` holds.
pub open spec fn ser_ex_let_bool(e: KView, ov: i32) -> (Option<Seq<u8>>, nat)
    decreases e, 0int,
{
    match e {
        KView::ExLetBool { variable_expression, assignment_expression } => wcat(wcat(wlit(Seq::<u8>::empty(), 0), ser_expr(*variable_expression, ov)), ser_expr(*assignment_expression, ov)),
        _ => (None, 0),
    }
}

/// What an `ExSkip` holds.
pub open spec fn ser_ex_skip(e: KView, ov: i32) -> (Option<Seq<u8>>, nat)
    decreases e, 0int,
{
    match e {
        KView::ExSkip { code_offset, skip_expression } => wcat(wcat(wlit(Seq::<u8>::empty(), 4), wlit(ser_u32(code_offset), 0)), ser_expr(*skip_expression, ov)),
        _ => (None, 0),
    }
}

/// What an `ExContext` holds.
pub open spec fn ser_ex_context(e: KView, ov: i32) -> (Option<Seq<u8>>, nat)
    decreases e, 0int,
{
    match e {
        KView::ExContext { object_expression, offset, r_value_pointer, context_expression } => wcat(wcat(wcat(wcat(wlit(Seq::<u8>::empty(), 4), ser_expr(*object_expression, ov)), wlit(ser_u32(offset), 0)), ser_ptr(r_value_pointer, ov)), ser_expr(*context_expression, ov)),
        _ => (None, 0),
    }
}

/// What an `ExContextFailSilent` holds.
pub open spec fn ser_ex_context_fail_silent(e: KView, ov: i32) -> (Option<Seq<u8>>, nat)
    decreases e, 0int,
{
    match e {
        KView::ExContextFailSilent { object_expression, offset, r_value_pointer, context_expression } => wcat(wcat(wcat(wcat(wlit(Seq::<u8>::empty(), 4), ser_expr(*object_expression, ov)), wlit(ser_u32(offset), 0)), ser_ptr(r_value_pointer, ov)), ser_expr(*context_expression, ov)),
        _ => (None, 0),
    }
}

/// What an `ExVirtualFunction` holds.
pub open spec fn ser_ex_virtual_function(e: KView, ov: i32) -> (Option<Seq<u8>>, nat)
    decreases e, 0int,
{
    match e {
        KView::ExVirtualFunction { virtual_function_name, parameters } => wcat(wcat(wlit(Seq::<u8>::empty(), 12), wlit(ser_fname(virtual_function_name), 0)), wcat(ser_list(parameters, ov), wlit(seq![EExprToken::ExEndFunctionParms.spec_value()], 1))),
        _ => (None, 0),
    }
}

/// What an `ExFinalFunction` holds.
pub open spec fn ser_ex_final_function(e: KView, ov: i32) -> (Option<Seq<u8>>, nat)
    decreases e, 0int,
{
    match e {
        KView::ExFinalFunction { stack_node, parameters } => wcat(wcat(wlit(Seq::<u8>::empty(), 8), wlit(ser_i32(stack_node.index), 0)), wcat(ser_list(parameters, ov), wlit(seq![EExprToken::ExEndFunctionParms.spec_value()], 1))),
        _ => (None, 0),
    }
}

/// What an `ExIntConst` holds.
pub open spec fn ser_ex_int_const(e: KView, ov: i32) -> (Option<Seq<u8>>, nat)
    decreases e, 0int,
{
    match e {
        KView::ExIntConst { value } => wcat(wlit(Seq::<u8>::empty(), 4), wlit(ser_i32(value), 0)),
        _ => (None, 0),
    }
}

/// What an `ExFloatConst` holds.
pub open spec fn ser_ex_float_const(e: KView, ov: i32) -> (Option<Seq<u8>>, nat)
    decreases e, 0int,
{
    match e {
        KView::ExFloatConst { value } => wcat(wlit(Seq::<u8>::empty(), 4), wlit(ser_u32(value), 0)),
        _ => (None, 0),
    }
}

/// What an `ExStringConst` holds.
pub open spec fn ser_ex_string_const(e: KView, ov: i32) -> (Option<Seq<u8>>, nat)
    decreases e, 0int,
{
    match e {
        KView::ExStringConst { value } => wcat(wlit(Seq::<u8>::empty(), 0), ser_kstr(value)),
        _ => (None, 0),
    }
}

/// What an `ExObjectConst` holds.
pub open spec fn ser_ex_object_const(e: KView, ov: i32) -> (Option<Seq<u8>>, nat)
    decreases e, 0int,
{
    match e {
        KView::ExObjectConst { value } => wcat(wlit(Seq::<u8>::empty(), 8), wlit(ser_i32(value.index), 0)),
        _ => (None, 0),
    }
}

/// What an `ExNameConst` holds.
pub open spec fn ser_ex_name_const(e: KView, ov: i32) -> (Option<Seq<u8>>, nat)
    decreases e, 0int,
{
    match e {
        KView::ExNameConst { value } => wcat(wlit(Seq::<u8>::empty(), 12), wlit(ser_fname(value), 0)),
        _ => (None, 0),
    }
}

/// What an `ExRotationConst` holds.
pub open spec fn ser_ex_rotation_const(e: KView, ov: i32) -> (Option<Seq<u8>>, nat)
    decreases e, 0int,
{
    match e {
        KView::ExRotationConst { pitch, yaw, roll } => wcat(wcat(wcat(wlit(Seq::<u8>::empty(), 12), wlit(ser_i32(pitch), 0)), wlit(ser_i32(yaw), 0)), wlit(ser_i32(roll), 0)),
        _ => (None, 0),
    }
}

/// What an `ExVectorConst` holds.
pub open spec fn ser_ex_vector_const(e: KView, ov: i32) -> (Option<Seq<u8>>, nat)
    decreases e, 0int,
{
    match e {
        KView::ExVectorConst { value } => wcat(wlit(Seq::<u8>::empty(), 12), wlit(ser_vec3(value), 0)),
        _ => (None, 0),
    }
}

/// What an `ExByteConst` holds.
pub open spec fn ser_ex_byte_const(e: KView, ov: i32) -> (Option<Seq<u8>>, nat)
    decreases e, 0int,
{
    match e {
        KView::ExByteConst { value } => wcat(wlit(Seq::<u8>::empty(), 1), wlit(seq![value], 0)),
        _ => (None, 0),
    }
}

/// What an `ExTextConst` holds.
pub open spec fn ser_ex_text_const(e: KView, ov: i32) -> (Option<Seq<u8>>, nat)
    decreases e, 0int,
{
    match e {
        KView::ExTextConst { value } => wcat(wlit(Seq::<u8>::empty(), 0), ser_text(*value, ov)),
        _ => (None, 0),
    }
}

/// What an `ExTransformConst` holds.
pub open spec fn ser_ex_transform_const(e: KView, ov: i32) -> (Option<Seq<u8>>, nat)
    decreases e, 0int,
{
    match e {
        KView::ExTransformConst { rotation, translation, scale } => wcat(wcat(wcat(wlit(Seq::<u8>::empty(), 40), wlit(ser_rot4(rotation), 0)), wlit(ser_vec3(translation), 0)), wlit(ser_vec3(scale), 0)),
        _ => (None, 0),
    }
}

/// What an `ExIntConstByte` holds.
pub open spec fn ser_ex_int_const_byte(e: KView, ov: i32) -> (Option<Seq<u8>>, nat)
    decreases e, 0int,
{
    match e {
        KView::ExIntConstByte { value } => wcat(wlit(Seq::<u8>::empty(), 1), wlit(seq![value], 0)),
        _ => (None, 0),
    }
}

/// What an `ExDynamicCast` holds.
pub open spec fn ser_ex_dynamic_cast(e: KView, ov: i32) -> (Option<Seq<u8>>, nat)
    decreases e, 0int,
{
    match e {
        KView::ExDynamicCast { class_ptr, target_expression } => wcat(wcat(wlit(Seq::<u8>::empty(), 8), wlit(ser_i32(class_ptr.index), 0)), ser_expr(*target_expression, ov)),
        _ => (None, 0),
    }
}

/// What an `ExStructConst` holds.
pub open spec fn ser_ex_struct_const(e: KView, ov: i32) -> (Option<Seq<u8>>, nat)
    decreases e, 0int,
{
    match e {
        KView::ExStructConst { struct_value, struct_size, value } => wcat(wcat(wcat(wlit(Seq::<u8>::empty(), 12), wlit(ser_i32(struct_value.index), 0)), wlit(ser_i32(struct_size), 0)), wcat(ser_list(value, ov), wlit(seq![EExprToken::ExEndStructConst.spec_value()], 1))),
        _ => (None, 0),
    }
}

/// What an `ExSetArray` holds.
pub open spec fn ser_ex_set_array(e: KView, ov: i32) -> (Option<Seq<u8>>, nat)
    decreases e, 0int,
{
    match e {
        KView::ExSetArray { assigning_property, array_inner_prop, elements } => wcat(wcat(
            if ov >= VER_UE4_CHANGE_SETARRAY_BYTECODE {
                match assigning_property {
                    Some(x) => ser_expr(*x, ov),
                    None => (None, 0),
                }
            } else {
                match array_inner_prop {
                    Some(i) => (Some(ser_i32(i.index)), 8),
                    None => (None, 8),
                }
            }, ser_list(elements, ov)), wlit(seq![EExprToken::ExEndArray.spec_value()], 1)),
        _ => (None, 0),
    }
}

/// What an `ExPropertyConst` holds.
pub open spec fn ser_ex_property_const(e: KView, ov: i32) -> (Option<Seq<u8>>, nat)
    decreases e, 0int,
{
    match e {
        KView::ExPropertyConst { property } => wcat(wlit(Seq::<u8>::empty(), 0), ser_ptr(property, ov)),
        _ => (None, 0),
    }
}

/// What an `ExUnicodeStringConst` holds.
pub open spec fn ser_ex_unicode_string_const(e: KView, ov: i32) -> (Option<Seq<u8>>, nat)
    decreases e, 0int,
{
    match e {
        KView::ExUnicodeStringConst { value } => wcat(wlit(Seq::<u8>::empty(), 0), ser_kustr(value)),
        _ => (None, 0),
    }
}

/// What an `ExInt64Const` holds.
pub open spec fn ser_ex_int64_const(e: KView, ov: i32) -> (Option<Seq<u8>>, nat)
    decreases e, 0int,
{
    match e {
        KView::ExInt64Const { value } => wcat(wlit(Seq::<u8>::empty(), 8), wlit(ser_i64(value), 0)),
        _ => (None, 0),
    }
}

/// What an `ExUInt64Const` holds.
pub open spec fn ser_ex_uint64_const(e: KView, ov: i32) -> (Option<Seq<u8>>, nat)
    decreases e, 0int,
{
    match e {
        KView::ExUInt64Const { value } => wcat(wlit(Seq::<u8>::empty(), 8), wlit(ser_u64(value), 0)),
        _ => (None, 0),
    }
}

/// What an `ExPrimitiveCast` holds.
pub open spec fn ser_ex_primitive_cast(e: KView, ov: i32) -> (Option<Seq<u8>>, nat)
    decreases e, 0int,
{
    match e {
        KView::ExPrimitiveCast { conversion_type, target } => wcat(wcat(wlit(Seq::<u8>::empty(), 1), wlit(seq![conversion_type.spec_value()], 0)), ser_expr(*target, ov)),
        _ => (None, 0),
    }
}

/// What an `ExSetSet` holds.
pub open spec fn ser_ex_set_set(e: KView, ov: i32) -> (Option<Seq<u8>>, nat)
    decreases e, 0int,
{
    match e {
        KView::ExSetSet { set_property, elements } => wcat(wcat(wcat(wlit(Seq::<u8>::empty(), 4), ser_expr(*set_property, ov)), wlit(ser_i32(elements.len() as i32), 0)), wcat(ser_list(elements, ov), wlit(seq![EExprToken::ExEndSet.spec_value()], 1))),
        _ => (None, 0),
    }
}

/// What an `ExSetMap` holds.
pub open spec fn ser_ex_set_map(e: KView, ov: i32) -> (Option<Seq<u8>>, nat)
    decreases e, 0int,
{
    match e {
        KView::ExSetMap { map_property, elements } => wcat(wcat(wcat(wlit(Seq::<u8>::empty(), 4), ser_expr(*map_property, ov)), wlit(ser_i32(elements.len() as i32), 0)), wcat(ser_list(elements, ov), wlit(seq![EExprToken::ExEndMap.spec_value()], 1))),
        _ => (None, 0),
    }
}

/// What an `ExSetConst` holds.
pub open spec fn ser_ex_set_const(e: KView, ov: i32) -> (Option<Seq<u8>>, nat)
    decreases e, 0int,
{
    match e {
        KView::ExSetConst { inner_property, elements } => wcat(wcat(wcat(wlit(Seq::<u8>::empty(), 4), ser_ptr(inner_property, ov)), wlit(ser_i32(elements.len() as i32), 0)), wcat(ser_list(elements, ov), wlit(seq![EExprToken::ExEndSetConst.spec_value()], 1))),
        _ => (None, 0),
    }
}

/// What an `ExMapConst` holds.
pub open spec fn ser_ex_map_const(e: KView, ov: i32) -> (Option<Seq<u8>>, nat)
    decreases e, 0int,
{
    match e {
        KView::ExMapConst { key_property, value_property, elements } => wcat(wcat(wcat(wcat(wlit(Seq::<u8>::empty(), 4), ser_ptr(key_property, ov)), ser_ptr(value_property, ov)), wlit(ser_i32(elements.len() as i32), 0)), wcat(ser_list(elements, ov), wlit(seq![EExprToken::ExEndMapConst.spec_value()], 1))),
        _ => (None, 0),
    }
}

/// What an `ExStructMemberContext` holds.
pub open spec fn ser_ex_struct_member_context(e: KView, ov: i32) -> (Option<Seq<u8>>, nat)
    decreases e, 0int,
{
    match e {
        KView::ExStructMemberContext { struct_member_expression, struct_expression } => wcat(wcat(wlit(Seq::<u8>::empty(), 0), ser_ptr(struct_member_expression, ov)), ser_expr(*struct_expression, ov)),
        _ => (None, 0),
    }
}

/// What an `ExLetMulticastDelegate` holds.
pub open spec fn ser_ex_let_multicast_delegate(e: KView, ov: i32) -> (Option<Seq<u8>>, nat)
    decreases e, 0int,
{
    match e {
        KView::ExLetMulticastDelegate { variable_expression, assignment_expression } => wcat(wcat(wlit(Seq::<u8>::empty(), 0), ser_expr(*variable_expression, ov)), ser_expr(*assignment_expression, ov)),
        _ => (None, 0),
    }
}

/// What an `ExLetDelegate` holds.
pub open spec fn ser_ex_let_delegate(e: KView, ov: i32) -> (Option<Seq<u8>>, nat)
    decreases e, 0int,
{
    match e {
        KView::ExLetDelegate { variable_expression, assignment_expression } => wcat(wcat(wlit(Seq::<u8>::empty(), 0), ser_expr(*variable_expression, ov)), ser_expr(*assignment_expression, ov)),
        _ => (None, 0),
    }
}

/// What an `ExLocalVirtualFunction` holds.
pub open spec fn ser_ex_local_virtual_function(e: KView, ov: i32) -> (Option<Seq<u8>>, nat)
    decreases e, 0int,
{
    match e {
        KView::ExLocalVirtualFunction { virtual_function_name, parameters } => wcat(wcat(wlit(Seq::<u8>::empty(), 12), wlit(ser_fname(virtual_function_name), 0)), wcat(ser_list(parameters, ov), wlit(seq![EExprToken::ExEndFunctionParms.spec_value()], 1))),
        _ => (None, 0),
    }
}

/// What an `ExLocalFinalFunction` holds.
pub open spec fn ser_ex_local_final_function(e: KView, ov: i32) -> (Option<Seq<u8>>, nat)
    decreases e, 0int,
{
    match e {
        KView::ExLocalFinalFunction { stack_node, parameters } => wcat(wcat(wlit(Seq::<u8>::empty(), 8), wlit(ser_i32(stack_node.index), 0)), wcat(ser_list(parameters, ov), wlit(seq![EExprToken::ExEndFunctionParms.spec_value()], 1))),
        _ => (None, 0),
    }
}

/// What an `ExLocalOutVariable` holds.
pub open spec fn ser_ex_local_out_variable(e: KView, ov: i32) -> (Option<Seq<u8>>, nat)
    decreases e, 0int,
{
    match e {
        KView::ExLocalOutVariable { variable } => wcat(wlit(Seq::<u8>::empty(), 0), ser_ptr(variable, ov)),
        _ => (None, 0),
    }
}

/// What an `ExInstanceDelegate` holds.
pub open spec fn ser_ex_instance_delegate(e: KView, ov: i32) -> (Option<Seq<u8>>, nat)
    decreases e, 0int,
{
    match e {
        KView::ExInstanceDelegate { function_name } => wcat(wlit(Seq::<u8>::empty(), 12), wlit(ser_fname(function_name), 0)),
        _ => (None, 0),
    }
}

/// What an `ExPushExecutionFlow` holds.
pub open spec fn ser_ex_push_execution_flow(e: KView, ov: i32) -> (Option<Seq<u8>>, nat)
    decreases e, 0int,
{
    match e {
        KView::ExPushExecutionFlow { pushing_address } => wcat(wlit(Seq::<u8>::empty(), 4), wlit(ser_u32(pushing_address), 0)),
        _ => (None, 0),
    }
}

/// What an `ExComputedJump` holds.
pub open spec fn ser_ex_computed_jump(e: KView, ov: i32) -> (Option<Seq<u8>>, nat)
    decreases e, 0int,
{
    match e {
        KView::ExComputedJump { code_offset_expression } => wcat(wlit(Seq::<u8>::empty(), 0), ser_expr(*code_offset_expression, ov)),
        _ => (None, 0),
    }
}

/// What an `ExPopExecutionFlowIfNot` holds.
pub open spec fn ser_ex_pop_execution_flow_if_not(e: KView, ov: i32) -> (Option<Seq<u8>>, nat)
    decreases e, 0int,
{
    match e {
        KView::ExPopExecutionFlowIfNot { boolean_expression } => wcat(wlit(Seq::<u8>::empty(), 0), ser_expr(*boolean_expression, ov)),
        _ => (None, 0),
    }
}

/// What an `ExInterfaceContext` holds.
pub open spec fn ser_ex_interface_context(e: KView, ov: i32) -> (Option<Seq<u8>>, nat)
    decreases e, 0int,
{
    match e {
        KView::ExInterfaceContext { interface_value } => wcat(wlit(Seq::<u8>::empty(), 0), ser_expr(*interface_value, ov)),
        _ => (None, 0),
    }
}

/// What an `ExObjToInterfaceCast` holds.
pub open spec fn ser_ex_obj_to_interface_cast(e: KView, ov: i32) -> (Option<Seq<u8>>, nat)
    decreases e, 0int,
{
    match e {
        KView::ExObjToInterfaceCast { class_ptr, target } => wcat(wcat(wlit(Seq::<u8>::empty(), 8), wlit(ser_i32(class_ptr.index), 0)), ser_expr(*target, ov)),
        _ => (None, 0),
    }
}

/// What an `ExCrossInterfaceCast` holds.
pub open spec fn ser_ex_cross_interface_cast(e: KView, ov: i32) -> (Option<Seq<u8>>, nat)
    decreases e, 0int,
{
    match e {
        KView::ExCrossInterfaceCast { class_ptr, target } => wcat(wcat(wlit(Seq::<u8>::empty(), 8), wlit(ser_i32(class_ptr.index), 0)), ser_expr(*target, ov)),
        _ => (None, 0),
    }
}

/// What an `ExInterfaceToObjCast` holds.
pub open spec fn ser_ex_interface_to_obj_cast(e: KView, ov: i32) -> (Option<Seq<u8>>, nat)
    decreases e, 0int,
{
    match e {
        KView::ExInterfaceToObjCast { class_ptr, target } => wcat(wcat(wlit(Seq::<u8>::empty(), 8), wlit(ser_i32(class_ptr.index), 0)), ser_expr(*target, ov)),
        _ => (None, 0),
    }
}

/// What an `ExSkipOffsetConst` holds.
pub open spec fn ser_ex_skip_offset_const(e: KView, ov: i32) -> (Option<Seq<u8>>, nat)
    decreases e, 0int,
{
    match e {
        KView::ExSkipOffsetConst { value } => wcat(wlit(Seq::<u8>::empty(), 4), wlit(ser_u32(value), 0)),
        _ => (None, 0),
    }
}

/// What an `ExAddMulticastDelegate` holds.
pub open spec fn ser_ex_add_multicast_delegate(e: KView, ov: i32) -> (Option<Seq<u8>>, nat)
    decreases e, 0int,
{
    match e {
        KView::ExAddMulticastDelegate { delegate, delegate_to_add } => wcat(wcat(wlit(Seq::<u8>::empty(), 0), ser_expr(*delegate, ov)), ser_expr(*delegate_to_add, ov)),
        _ => (None, 0),
    }
}

/// What an `ExClearMulticastDelegate` holds.
pub open spec fn ser_ex_clear_multicast_delegate(e: KView, ov: i32) -> (Option<Seq<u8>>, nat)
    decreases e, 0int,
{
    match e {
        KView::ExClearMulticastDelegate { delegate_to_clear } => wcat(wlit(Seq::<u8>::empty(), 0), ser_expr(*delegate_to_clear, ov)),
        _ => (None, 0),
    }
}

/// What an `ExLetObj` holds.
pub open spec fn ser_ex_let_obj(e: KView, ov: i32) -> (Option<Seq<u8>>, nat)
    decreases e, 0int,
{
    match e {
        KView::ExLetObj { variable_expression, assignment_expression } => wcat(wcat(wlit(Seq::<u8>::empty(), 0), ser_expr(*variable_expression, ov)), ser_expr(*assignment_expression, ov)),
        _ => (None, 0),
    }
}

/// What an `ExLetWeakObjPtr` holds.
pub open spec fn ser_ex_let_weak_obj_ptr(e: KView, ov: i32) -> (Option<Seq<u8>>, nat)
    decreases e, 0int,
{
    match e {
        KView::ExLetWeakObjPtr { variable_expression, assignment_expression } => wcat(wcat(wlit(Seq::<u8>::empty(), 0), ser_expr(*variable_expression, ov)), ser_expr(*assignment_expression, ov)),
        _ => (None, 0),
    }
}

/// What an `ExBindDelegate` holds.
pub open spec fn ser_ex_bind_delegate(e: KView, ov: i32) -> (Option<Seq<u8>>, nat)
    decreases e, 0int,
{
    match e {
        KView::ExBindDelegate { function_name, delegate, object_term } => wcat(wcat(wcat(wlit(Seq::<u8>::empty(), 12), wlit(ser_fname(function_name), 0)), ser_expr(*delegate, ov)), ser_expr(*object_term, ov)),
        _ => (None, 0),
    }
}

/// What an `ExRemoveMulticastDelegate` holds.
pub open spec fn ser_ex_remove_multicast_delegate(e: KView, ov: i32) -> (Option<Seq<u8>>, nat)
    decreases e, 0int,
{
    match e {
        KView::ExRemoveMulticastDelegate { delegate, delegate_to_add } => wcat(wcat(wlit(Seq::<u8>::empty(), 0), ser_expr(*delegate, ov)), ser_expr(*delegate_to_add, ov)),
        _ => (None, 0),
    }
}

/// What an `ExCallMulticastDelegate` holds.
pub open spec fn ser_ex_call_multicast_delegate(e: KView, ov: i32) -> (Option<Seq<u8>>, nat)
    decreases e, 0int,
{
    match e {
        KView::ExCallMulticastDelegate { stack_node, delegate, parameters } => wcat(wcat(wcat(wlit(Seq::<u8>::empty(), 8), wlit(ser_i32(stack_node.index), 0)), ser_expr(*delegate, ov)), wcat(ser_list(parameters, ov), wlit(seq![EExprToken::ExEndFunctionParms.spec_value()], 1))),
        _ => (None, 0),
    }
}

/// What an `ExLetValueOnPersistentFrame` holds.
pub open spec fn ser_ex_let_value_on_persistent_frame(e: KView, ov: i32) -> (Option<Seq<u8>>, nat)
    decreases e, 0int,
{
    match e {
        KView::ExLetValueOnPersistentFrame { destination_property, assignment_expression } => wcat(wcat(wlit(Seq::<u8>::empty(), 0), ser_ptr(destination_property, ov)), ser_expr(*assignment_expression, ov)),
        _ => (None, 0),
    }
}

/// What an `ExArrayConst` holds.
pub open spec fn ser_ex_array_const(e: KView, ov: i32) -> (Option<Seq<u8>>, nat)
    decreases e, 0int,
{
    match e {
        KView::ExArrayConst { inner_property, elements } => wcat(wcat(wcat(wlit(Seq::<u8>::empty(), 4), ser_ptr(inner_property, ov)), wlit(ser_i32(elements.len() as i32), 0)), wcat(ser_list(elements, ov), wlit(seq![EExprToken::ExEndArrayConst.spec_value()], 1))),
        _ => (None, 0),
    }
}

/// What an `ExSoftObjectConst` holds.
pub open spec fn ser_ex_soft_object_const(e: KView, ov: i32) -> (Option<Seq<u8>>, nat)
    decreases e, 0int,
{
    match e {
        KView::ExSoftObjectConst { value } => wcat(wlit(Seq::<u8>::empty(), 0), ser_expr(*value, ov)),
        _ => (None, 0),
    }
}

/// What an `ExCallMath` holds.
pub open spec fn ser_ex_call_math(e: KView, ov: i32) -> (Option<Seq<u8>>, nat)
    decreases e, 0int,
{
    match e {
        KView::ExCallMath { stack_node, parameters } => wcat(wcat(wlit(Seq::<u8>::empty(), 8), wlit(ser_i32(stack_node.index), 0)), wcat(ser_list(parameters, ov), wlit(seq![EExprToken::ExEndFunctionParms.spec_value()], 1))),
        _ => (None, 0),
    }
}

/// What an `ExSwitchValue` holds.
pub open spec fn ser_ex_switch_value(e: KView, ov: i32) -> (Option<Seq<u8>>, nat)
    decreases e, 0int,
{
    match e {
        KView::ExSwitchValue { end_goto_offset, index_term, default_term, cases } => wcat(wcat(wcat(
            wlit(ser_u16(cases.len() as u16) + ser_u32(end_goto_offset), 6), ser_expr(*index_term, ov)),
            ser_cases(cases, ov)), ser_expr(*default_term, ov)),
        _ => (None, 0),
    }
}

/// What an `ExInstrumentationEvent` holds.
pub open spec fn ser_ex_instrumentation_event(e: KView, ov: i32) -> (Option<Seq<u8>>, nat)
    decreases e, 0int,
{
    match e {
        KView::ExInstrumentationEvent { event_type, event_name } => if event_type == EScriptInstrumentationType::InlineEvent {
            match event_name {
                Some(nm) => wlit(seq![event_type.spec_value()] + ser_fname(nm), 9),
                None => (None, 1),
            }
        } else {
            wlit(seq![event_type.spec_value()], 1)
        },
        _ => (None, 0),
    }
}

/// What an `ExArrayGetByRef` holds.
pub open spec fn ser_ex_array_get_by_ref(e: KView, ov: i32) -> (Option<Seq<u8>>, nat)
    decreases e, 0int,
{
    match e {
        KView::ExArrayGetByRef { array_variable, array_index } => wcat(wcat(wlit(Seq::<u8>::empty(), 0), ser_expr(*array_variable, ov)), ser_expr(*array_index, ov)),
        _ => (None, 0),
    }
}

/// What an `ExClassSparseDataVariable` holds.
pub open spec fn ser_ex_class_sparse_data_variable(e: KView, ov: i32) -> (Option<Seq<u8>>, nat)
    decreases e, 0int,
{
    match e {
        KView::ExClassSparseDataVariable { variable } => wcat(wlit(Seq::<u8>::empty(), 0), ser_ptr(variable, ov)),
        _ => (None, 0),
    }
}

/// What an `ExFieldPathConst` holds.
pub open spec fn ser_ex_field_path_const(e: KView, ov: i32) -> (Option<Seq<u8>>, nat)
    decreases e, 0int,
{
    match e {
        KView::ExFieldPathConst { value } => wcat(wlit(Seq::<u8>::empty(), 0), ser_expr(*value, ov)),
        _ => (None, 0),
    }
}

/// What `ser_body` gives, by the group of the token.
pub proof fn lemma_ser_body(e: KView, ov: i32)
    ensures
        body_group(e.token()) == 0 ==> ser_body(e, ov) == ser_body_0(e, ov),
        body_group(e.token()) == 1 ==> ser_body(e, ov) == ser_body_1(e, ov),
        body_group(e.token()) == 2 ==> ser_body(e, ov) == ser_body_2(e, ov),
        body_group(e.token()) == 3 ==> ser_body(e, ov) == ser_body_3(e, ov),
        body_group(e.token()) == 4 ==> ser_body(e, ov) == ser_body_4(e, ov),
        body_group(e.token()) > 4 ==> ser_body(e, ov) == (None::<Seq<u8>>, 0nat),
{
    reveal(ser_body_0);
    reveal(ser_body_1);
    reveal(ser_body_2);
    reveal(ser_body_3);
    reveal(ser_body_4);
}

/// A first part of a list writes no more than the list, and where it cannot be written, the
/// list cannot either.
pub proof fn lemma_ser_list_prefix(vs: Seq<KView>, k: int, ov: i32)
    requires 0 <= k <= vs.len(),
    ensures
        ser_list(vs.take(k), ov).1 <= ser_list(vs, ov).1,
        ser_list(vs.take(k), ov).0 is None ==> ser_list(vs, ov).0 is None,
    decreases vs.len(),
{
    if k < vs.len() {
        let p = vs.subrange(0, vs.len() - 1);
        assert(vs.take(k) =~= p.take(k));
        lemma_ser_list_prefix(p, k, ov);
    } else {
        assert(vs.take(k) =~= vs);
    }
}

/// A list with one more expression at the end.
pub proof fn lemma_ser_list_step(vs: Seq<KView>, i: int, ov: i32)
    requires 0 <= i < vs.len(),
    ensures ser_list(vs.take(i + 1), ov) == wcat(ser_list(vs.take(i), ov), ser_expr(vs[i], ov)),
{
    assert(vs.take(i + 1).subrange(0, i) =~= vs.take(i));
}

/// A first part of the switch cases writes no more than the cases, and where it cannot be
/// written, the cases cannot either.
pub proof fn lemma_ser_cases_prefix(cs: Seq<SwitchCaseView>, k: int, ov: i32)
    requires 0 <= k <= cs.len(),
    ensures
        ser_cases(cs.take(k), ov).1 <= ser_cases(cs, ov).1,
        ser_cases(cs.take(k), ov).0 is None ==> ser_cases(cs, ov).0 is None,
    decreases cs.len(),
{
    if k < cs.len() {
        let p = cs.subrange(0, cs.len() - 1);
        assert(cs.take(k) =~= p.take(k));
        lemma_ser_cases_prefix(p, k, ov);
    } else {
        assert(cs.take(k) =~= cs);
    }
}

/// Switch cases with one more at the end.
pub proof fn lemma_ser_cases_step(cs: Seq<SwitchCaseView>, i: int, ov: i32)
    requires 0 <= i < cs.len(),
    ensures
        ser_cases(cs.take(i + 1), ov) == wcat(wcat(wcat(ser_cases(cs.take(i), ov), ser_expr(cs[i].case_index_value_term, ov)),
            wlit(ser_u32(cs[i].next_offset), 4)), ser_expr(cs[i].case_term, ov)),
{
    assert(cs.take(i + 1).subrange(0, i) =~= cs.take(i));
}

/// Names with one more at the end.
pub proof fn lemma_ser_names_step(p: Seq<NameIndex>, i: int)
    requires 0 <= i < p.len(),
    ensures ser_names(p.take(i + 1)) == ser_names(p.take(i)) + ser_fname(p[i]),
{
    assert(p.take(i + 1).drop_last() =~= p.take(i));
}

} // verus!
