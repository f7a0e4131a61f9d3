//! Which kismet expressions read back as they were written: their parts have the form of the
//! object version, their names lie in the name map, their strings hold no NUL, and their lists
//! hold no expression with the list's end token.

use vstd::prelude::*;
use crate::engine_version::VER_UE4_ADDED_PACKAGE_OWNER;
use super::expression::{KView, PointerView, TextView, SwitchCaseView};
use super::parse::VER_UE4_CHANGE_SETARRAY_BYTECODE;
use super::rt_prim::no_nul;
use super::tokens::{EExprToken, EScriptInstrumentationType, EBlueprintTextLiteralType};

verus! {

/// A property pointer that has exactly the form of the object version, with its names in the
/// name map of `n` names.
pub open spec fn ptr_fits(p: PointerView, ov: i32, n: nat) -> bool {
    if ov >= VER_UE4_ADDED_PACKAGE_OWNER {
        &&& p.old is None
        &&& p.new is Some
        &&& p.new->0.path.len() <= 0x7fff_ffff
        &&& forall|i: int| 0 <= i < p.new->0.path.len() ==> 0 <= #[trigger] p.new->0.path[i].index < n
    } else {
        p.new is None && p.old is Some
    }
}

/// Expressions of a list, which fit, none with the list's end token.
pub open spec fn list_fits(es: Seq<KView>, end: EExprToken, ov: i32, n: nat) -> bool
    decreases es, 0int,
{
    if es.len() == 0 {
        true
    } else {
        &&& list_fits(es.subrange(1, es.len() as int), end, ov, n)
        &&& kfits(es[0], ov, n)
        &&& es[0].token() != end
    }
}

/// An expression that is there and fits.
pub open spec fn opt_fits(o: Option<KView>, ov: i32, n: nat) -> bool
    decreases o, 0int,
{
    match o {
        Some(x) => kfits(x, ov, n),
        None => false,
    }
}

/// Switch cases whose terms fit.
pub open spec fn cases_fits(cs: Seq<SwitchCaseView>, ov: i32, n: nat) -> bool
    decreases cs, 0int,
{
    if cs.len() == 0 {
        true
    } else {
        &&& cases_fits(cs.subrange(0, cs.len() - 1), ov, n)
        &&& kfits(cs[cs.len() - 1].case_index_value_term, ov, n)
        &&& kfits(cs[cs.len() - 1].case_term, ov, n)
    }
}

/// A script text that holds exactly the expressions that its literal type needs, which fit.
pub open spec fn text_fits(t: TextView, ov: i32, n: nat) -> bool
    decreases t, 0int,
{
    let none = t.localized_source is None && t.localized_key is None && t.localized_namespace is None
        && t.invariant_literal_string is None && t.literal_string is None && t.string_table_asset is None
        && t.string_table_id is None && t.string_table_key is None;
    match t.text_literal_type {
        EBlueprintTextLiteralType::Empty => none,
        EBlueprintTextLiteralType::LocalizedText => opt_fits(t.localized_source, ov, n) && opt_fits(t.localized_key, ov, n)
            && opt_fits(t.localized_namespace, ov, n) && t.invariant_literal_string is None && t.literal_string is None
            && t.string_table_asset is None && t.string_table_id is None && t.string_table_key is None,
        EBlueprintTextLiteralType::InvariantText => opt_fits(t.invariant_literal_string, ov, n)
            && t.localized_source is None && t.localized_key is None && t.localized_namespace is None
            && t.literal_string is None && t.string_table_asset is None && t.string_table_id is None && t.string_table_key is None,
        EBlueprintTextLiteralType::LiteralString => opt_fits(t.literal_string, ov, n)
            && t.localized_source is None && t.localized_key is None && t.localized_namespace is None
            && t.invariant_literal_string is None && t.string_table_asset is None && t.string_table_id is None
            && t.string_table_key is None,
        EBlueprintTextLiteralType::StringTableEntry => t.string_table_asset is Some && opt_fits(t.string_table_id, ov, n)
            && opt_fits(t.string_table_key, ov, n) && t.localized_source is None && t.localized_key is None
            && t.localized_namespace is None && t.invariant_literal_string is None && t.literal_string is None,
    }
}

/// An expression that reads back as it was written, in the form of the object version `ov`,
/// against a name map of `n` names.
#[verifier::opaque]
pub open spec fn kfits(e: KView, ov: i32, n: nat) -> bool
    decreases e, 1int,
{
    match e {
        KView::ExLocalVariable { variable, .. } => ptr_fits(variable, ov, n),
        KView::ExInstanceVariable { variable, .. } => ptr_fits(variable, ov, n),
        KView::ExDefaultVariable { variable, .. } => ptr_fits(variable, ov, n),
        KView::ExReturn { return_expression, .. } => kfits(*return_expression, ov, n),
        KView::ExJump { .. } => true,
        KView::ExJumpIfNot { boolean_expression, .. } => kfits(*boolean_expression, ov, n),
        KView::ExAssert { assert_expression, .. } => kfits(*assert_expression, ov, n),
        KView::ExNothing => true,
        KView::ExLet { value, variable, expression, .. } => ptr_fits(value, ov, n) && kfits(*variable, ov, n) && kfits(*expression, ov, n),
        KView::ExClassContext { object_expression, r_value_pointer, context_expression, .. } => kfits(*object_expression, ov, n) && ptr_fits(r_value_pointer, ov, n) && kfits(*context_expression, ov, n),
        KView::ExMetaCast { target_expression, .. } => kfits(*target_expression, ov, n),
        KView::ExLetBool { variable_expression, assignment_expression, .. } => kfits(*variable_expression, ov, n) && kfits(*assignment_expression, ov, n),
        KView::ExEndParmValue => true,
        KView::ExEndFunctionParms => true,
        KView::ExSelf => true,
        KView::ExSkip { skip_expression, .. } => kfits(*skip_expression, ov, n),
        KView::ExContext { object_expression, r_value_pointer, context_expression, .. } => kfits(*object_expression, ov, n) && ptr_fits(r_value_pointer, ov, n) && kfits(*context_expression, ov, n),
        KView::ExContextFailSilent { object_expression, r_value_pointer, context_expression, .. } => kfits(*object_expression, ov, n) && ptr_fits(r_value_pointer, ov, n) && kfits(*context_expression, ov, n),
        KView::ExVirtualFunction { virtual_function_name, parameters, .. } => 0 <= virtual_function_name.index < n && list_fits(parameters, EExprToken::ExEndFunctionParms, ov, n),
        KView::ExFinalFunction { parameters, .. } => list_fits(parameters, EExprToken::ExEndFunctionParms, ov, n),
        KView::ExIntConst { .. } => true,
        KView::ExFloatConst { .. } => true,
        KView::ExStringConst { value, .. } => no_nul(value),
        KView::ExObjectConst { .. } => true,
        KView::ExNameConst { value, .. } => 0 <= value.index < n,
        KView::ExRotationConst { .. } => true,
        KView::ExVectorConst { .. } => true,
        KView::ExByteConst { .. } => true,
        KView::ExIntZero => true,
        KView::ExIntOne => true,
        KView::ExTrue => true,
        KView::ExFalse => true,
        KView::ExTextConst { value, .. } => text_fits(*value, ov, n),
        KView::ExNoObject => true,
        KView::ExTransformConst { .. } => true,
        KView::ExIntConstByte { .. } => true,
        KView::ExNoInterface => true,
        KView::ExDynamicCast { target_expression, .. } => kfits(*target_expression, ov, n),
        KView::ExStructConst { value, .. } => list_fits(value, EExprToken::ExEndStructConst, ov, n),
        KView::ExEndStructConst => true,
        KView::ExSetArray { assigning_property, array_inner_prop, elements } => list_fits(elements, EExprToken::ExEndArray, ov, n) && if ov >= VER_UE4_CHANGE_SETARRAY_BYTECODE {
            array_inner_prop is None && match assigning_property {
                Some(x) => kfits(*x, ov, n),
                None => false,
            }
        } else {
            assigning_property is None && array_inner_prop is Some
        },
        KView::ExEndArray => true,
        KView::ExPropertyConst { property, .. } => ptr_fits(property, ov, n),
        KView::ExUnicodeStringConst { value, .. } => no_nul(value),
        KView::ExInt64Const { .. } => true,
        KView::ExUInt64Const { .. } => true,
        KView::ExPrimitiveCast { target, .. } => kfits(*target, ov, n),
        KView::ExSetSet { set_property, elements, .. } => kfits(*set_property, ov, n) && list_fits(elements, EExprToken::ExEndSet, ov, n),
        KView::ExEndSet => true,
        KView::ExSetMap { map_property, elements, .. } => kfits(*map_property, ov, n) && list_fits(elements, EExprToken::ExEndMap, ov, n),
        KView::ExEndMap => true,
        KView::ExSetConst { inner_property, elements, .. } => ptr_fits(inner_property, ov, n) && list_fits(elements, EExprToken::ExEndSetConst, ov, n),
        KView::ExEndSetConst => true,
        KView::ExMapConst { key_property, value_property, elements, .. } => ptr_fits(key_property, ov, n) && ptr_fits(value_property, ov, n) && list_fits(elements, EExprToken::ExEndMapConst, ov, n),
        KView::ExEndMapConst => true,
        KView::ExStructMemberContext { struct_member_expression, struct_expression, .. } => ptr_fits(struct_member_expression, ov, n) && kfits(*struct_expression, ov, n),
        KView::ExLetMulticastDelegate { variable_expression, assignment_expression, .. } => kfits(*variable_expression, ov, n) && kfits(*assignment_expression, ov, n),
        KView::ExLetDelegate { variable_expression, assignment_expression, .. } => kfits(*variable_expression, ov, n) && kfits(*assignment_expression, ov, n),
        KView::ExLocalVirtualFunction { virtual_function_name, parameters, .. } => 0 <= virtual_function_name.index < n && list_fits(parameters, EExprToken::ExEndFunctionParms, ov, n),
        KView::ExLocalFinalFunction { parameters, .. } => list_fits(parameters, EExprToken::ExEndFunctionParms, ov, n),
        KView::ExLocalOutVariable { variable, .. } => ptr_fits(variable, ov, n),
        KView::ExDeprecatedOp4A => true,
        KView::ExInstanceDelegate { function_name, .. } => 0 <= function_name.index < n,
        KView::ExPushExecutionFlow { .. } => true,
        KView::ExPopExecutionFlow => true,
        KView::ExComputedJump { code_offset_expression, .. } => kfits(*code_offset_expression, ov, n),
        KView::ExPopExecutionFlowIfNot { boolean_expression, .. } => kfits(*boolean_expression, ov, n),
        KView::ExBreakpoint => true,
        KView::ExInterfaceContext { interface_value, .. } => kfits(*interface_value, ov, n),
        KView::ExObjToInterfaceCast { target, .. } => kfits(*target, ov, n),
        KView::ExEndOfScript => true,
        KView::ExCrossInterfaceCast { target, .. } => kfits(*target, ov, n),
        KView::ExInterfaceToObjCast { target, .. } => kfits(*target, ov, n),
        KView::ExWireTracepoint => true,
        KView::ExSkipOffsetConst { .. } => true,
        KView::ExAddMulticastDelegate { delegate, delegate_to_add, .. } => kfits(*delegate, ov, n) && kfits(*delegate_to_add, ov, n),
        KView::ExClearMulticastDelegate { delegate_to_clear, .. } => kfits(*delegate_to_clear, ov, n),
        KView::ExTracepoint => true,
        KView::ExLetObj { variable_expression, assignment_expression, .. } => kfits(*variable_expression, ov, n) && kfits(*assignment_expression, ov, n),
        KView::ExLetWeakObjPtr { variable_expression, assignment_expression, .. } => kfits(*variable_expression, ov, n) && kfits(*assignment_expression, ov, n),
        KView::ExBindDelegate { function_name, delegate, object_term, .. } => 0 <= function_name.index < n && kfits(*delegate, ov, n) && kfits(*object_term, ov, n),
        KView::ExRemoveMulticastDelegate { delegate, delegate_to_add, .. } => kfits(*delegate, ov, n) && kfits(*delegate_to_add, ov, n),
        KView::ExCallMulticastDelegate { delegate, parameters, .. } => kfits(*delegate, ov, n) && list_fits(parameters, EExprToken::ExEndFunctionParms, ov, n),
        KView::ExLetValueOnPersistentFrame { destination_property, assignment_expression, .. } => ptr_fits(destination_property, ov, n) && kfits(*assignment_expression, ov, n),
        KView::ExArrayConst { inner_property, elements, .. } => ptr_fits(inner_property, ov, n) && list_fits(elements, EExprToken::ExEndArrayConst, ov, n),
        KView::ExEndArrayConst => true,
        KView::ExSoftObjectConst { value, .. } => kfits(*value, ov, n),
        KView::ExCallMath { parameters, .. } => list_fits(parameters, EExprToken::ExEndFunctionParms, ov, n),
        KView::ExSwitchValue { index_term, default_term, cases, .. } => cases.len() <= 0xffff && kfits(*index_term, ov, n)
            && kfits(*default_term, ov, n) && cases_fits(cases, ov, n),
        KView::ExInstrumentationEvent { event_type, event_name } => if event_type == EScriptInstrumentationType::InlineEvent {
            event_name is Some && 0 <= event_name->0.index < n
        } else {
            event_name is None
        },
        KView::ExArrayGetByRef { array_variable, array_index, .. } => kfits(*array_variable, ov, n) && kfits(*array_index, ov, n),
        KView::ExClassSparseDataVariable { variable, .. } => ptr_fits(variable, ov, n),
        KView::ExFieldPathConst { value, .. } => kfits(*value, ov, n),
    }
}

} // verus!
