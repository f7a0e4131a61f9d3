//! What expressions of one group of tokens hold reads back as it was written.

use vstd::prelude::*;
use crate::archive::{rest, ser_u16, ser_u32, ser_i32, ser_u64, ser_i64};
use crate::asset::name_map::ser_fname;
use crate::types::{NameIndex, PackageIndex, Vector};
use super::expression::KView;
use super::fits::kfits;
use super::expression::SwitchCaseView;
use super::parse::{KRead, kr_u16, kr_u32, parse_expr, parse_cases, VER_UE4_CHANGE_SETARRAY_BYTECODE, parse_ex_add_multicast_delegate, parse_ex_array_const, parse_ex_array_get_by_ref, parse_ex_assert, parse_ex_bind_delegate, parse_ex_byte_const, parse_ex_call_math, parse_ex_call_multicast_delegate, parse_ex_class_context, parse_ex_class_sparse_data_variable, parse_ex_clear_multicast_delegate, parse_ex_computed_jump, parse_ex_context, parse_ex_context_fail_silent, parse_ex_cross_interface_cast, parse_ex_default_variable, parse_ex_dynamic_cast, parse_ex_field_path_const, parse_ex_final_function, parse_ex_float_const, parse_ex_instance_delegate, parse_ex_instance_variable, parse_ex_instrumentation_event, parse_ex_int64_const, parse_ex_int_const, parse_ex_int_const_byte, parse_ex_interface_context, parse_ex_interface_to_obj_cast, parse_ex_jump, parse_ex_jump_if_not, parse_ex_let, parse_ex_let_bool, parse_ex_let_delegate, parse_ex_let_multicast_delegate, parse_ex_let_obj, parse_ex_let_value_on_persistent_frame, parse_ex_let_weak_obj_ptr, parse_ex_local_final_function, parse_ex_local_out_variable, parse_ex_local_variable, parse_ex_local_virtual_function, parse_ex_map_const, parse_ex_meta_cast, parse_ex_name_const, parse_ex_obj_to_interface_cast, parse_ex_object_const, parse_ex_pop_execution_flow_if_not, parse_ex_primitive_cast, parse_ex_property_const, parse_ex_push_execution_flow, parse_ex_remove_multicast_delegate, parse_ex_return, parse_ex_rotation_const, parse_ex_set_array, parse_ex_set_const, parse_ex_set_map, parse_ex_set_set, parse_ex_skip, parse_ex_skip_offset_const, parse_ex_soft_object_const, parse_ex_string_const, parse_ex_struct_const, parse_ex_struct_member_context, parse_ex_switch_value, parse_ex_text_const, parse_ex_transform_const, parse_ex_uint64_const, parse_ex_unicode_string_const, parse_ex_vector_const, parse_ex_virtual_function};
use super::rt::{lemma_kismet_roundtrip, lemma_rt_ptr, lemma_rt_list, lemma_rt_text, lemma_rt_cases};
use super::rt_prim::{lemma_kr_ints, lemma_kr_bytes, lemma_kr_name, lemma_kr_vectors, lemma_kr_str, lemma_kr_ustr, lemma_instrumentation_byte};
use super::ser::{ser_body, ser_body_0, ser_body_1, ser_body_2, ser_body_3, ser_body_4, ser_cases, ser_ex_add_multicast_delegate, ser_ex_array_const, ser_ex_array_get_by_ref, ser_ex_assert, ser_ex_bind_delegate, ser_ex_byte_const, ser_ex_call_math, ser_ex_call_multicast_delegate, ser_ex_class_context, ser_ex_class_sparse_data_variable, ser_ex_clear_multicast_delegate, ser_ex_computed_jump, ser_ex_context, ser_ex_context_fail_silent, ser_ex_cross_interface_cast, ser_ex_default_variable, ser_ex_dynamic_cast, ser_ex_field_path_const, ser_ex_final_function, ser_ex_float_const, ser_ex_instance_delegate, ser_ex_instance_variable, ser_ex_instrumentation_event, ser_ex_int64_const, ser_ex_int_const, ser_ex_int_const_byte, ser_ex_interface_context, ser_ex_interface_to_obj_cast, ser_ex_jump, ser_ex_jump_if_not, ser_ex_let, ser_ex_let_bool, ser_ex_let_delegate, ser_ex_let_multicast_delegate, ser_ex_let_obj, ser_ex_let_value_on_persistent_frame, ser_ex_let_weak_obj_ptr, ser_ex_local_final_function, ser_ex_local_out_variable, ser_ex_local_variable, ser_ex_local_virtual_function, ser_ex_map_const, ser_ex_meta_cast, ser_ex_name_const, ser_ex_obj_to_interface_cast, ser_ex_object_const, ser_ex_pop_execution_flow_if_not, ser_ex_primitive_cast, ser_ex_property_const, ser_ex_push_execution_flow, ser_ex_remove_multicast_delegate, ser_ex_return, ser_ex_rotation_const, ser_ex_set_array, ser_ex_set_const, ser_ex_set_map, ser_ex_set_set, ser_ex_skip, ser_ex_skip_offset_const, ser_ex_soft_object_const, ser_ex_string_const, ser_ex_struct_const, ser_ex_struct_member_context, ser_ex_switch_value, ser_ex_text_const, ser_ex_transform_const, ser_ex_uint64_const, ser_ex_unicode_string_const, ser_ex_vector_const, ser_ex_virtual_function, ser_expr, ser_kstr, ser_kustr, ser_list, ser_names, ser_opt, ser_ptr, ser_rot4, ser_text, ser_vec3, wcat, wlit};
use super::tokens::{EExprToken, ECastToken, EScriptInstrumentationType};

verus! {

/// What an `ExAddMulticastDelegate` that fits holds reads back, whatever follows.
#[verifier::spinoff_prover]
#[verifier::rlimit(100)]
pub proof fn lemma_rt_ex_add_multicast_delegate(e: KView, ov: i32, n: nat, r: Seq<u8>)
    requires
        kfits(e, ov, n),
        (e is ExAddMulticastDelegate),
    ensures
        ser_ex_add_multicast_delegate(e, ov).0 is Some,
        parse_ex_add_multicast_delegate(ser_ex_add_multicast_delegate(e, ov).0->0 + r, ov, n) == KRead::Done(e, ser_ex_add_multicast_delegate(e, ov).0->0.len()),
    decreases e, 0int,
{
    reveal(kfits);
    match e {
        KView::ExAddMulticastDelegate { delegate, delegate_to_add } => {
            let t2 = r;
            lemma_kismet_roundtrip(*delegate_to_add, ov, n, t2);
            let b1 = ser_expr(*delegate_to_add, ov).0->0;
            let t1 = b1 + t2;
            lemma_kismet_roundtrip(*delegate, ov, n, t1);
            let b0 = ser_expr(*delegate, ov).0->0;
            let t0 = b0 + t1;
            let s = ser_ex_add_multicast_delegate(e, ov).0->0 + r;
            assert(s =~= t0);
            assert(rest(s, (b0.len()) as int) =~= t1);
        },
        _ => {},
    }
}

/// What an `ExClearMulticastDelegate` that fits holds reads back, whatever follows.
#[verifier::spinoff_prover]
#[verifier::rlimit(100)]
pub proof fn lemma_rt_ex_clear_multicast_delegate(e: KView, ov: i32, n: nat, r: Seq<u8>)
    requires
        kfits(e, ov, n),
        (e is ExClearMulticastDelegate),
    ensures
        ser_ex_clear_multicast_delegate(e, ov).0 is Some,
        parse_ex_clear_multicast_delegate(ser_ex_clear_multicast_delegate(e, ov).0->0 + r, ov, n) == KRead::Done(e, ser_ex_clear_multicast_delegate(e, ov).0->0.len()),
    decreases e, 0int,
{
    reveal(kfits);
    match e {
        KView::ExClearMulticastDelegate { delegate_to_clear } => {
            let t1 = r;
            lemma_kismet_roundtrip(*delegate_to_clear, ov, n, t1);
            let b0 = ser_expr(*delegate_to_clear, ov).0->0;
            let t0 = b0 + t1;
            let s = ser_ex_clear_multicast_delegate(e, ov).0->0 + r;
            assert(s =~= t0);
        },
        _ => {},
    }
}

/// What an `ExLetObj` that fits holds reads back, whatever follows.
#[verifier::spinoff_prover]
#[verifier::rlimit(100)]
pub proof fn lemma_rt_ex_let_obj(e: KView, ov: i32, n: nat, r: Seq<u8>)
    requires
        kfits(e, ov, n),
        (e is ExLetObj),
    ensures
        ser_ex_let_obj(e, ov).0 is Some,
        parse_ex_let_obj(ser_ex_let_obj(e, ov).0->0 + r, ov, n) == KRead::Done(e, ser_ex_let_obj(e, ov).0->0.len()),
    decreases e, 0int,
{
    reveal(kfits);
    match e {
        KView::ExLetObj { variable_expression, assignment_expression } => {
            let t2 = r;
            lemma_kismet_roundtrip(*assignment_expression, ov, n, t2);
            let b1 = ser_expr(*assignment_expression, ov).0->0;
            let t1 = b1 + t2;
            lemma_kismet_roundtrip(*variable_expression, ov, n, t1);
            let b0 = ser_expr(*variable_expression, ov).0->0;
            let t0 = b0 + t1;
            let s = ser_ex_let_obj(e, ov).0->0 + r;
            assert(s =~= t0);
            assert(rest(s, (b0.len()) as int) =~= t1);
        },
        _ => {},
    }
}

/// What an `ExLetWeakObjPtr` that fits holds reads back, whatever follows.
#[verifier::spinoff_prover]
#[verifier::rlimit(100)]
pub proof fn lemma_rt_ex_let_weak_obj_ptr(e: KView, ov: i32, n: nat, r: Seq<u8>)
    requires
        kfits(e, ov, n),
        (e is ExLetWeakObjPtr),
    ensures
        ser_ex_let_weak_obj_ptr(e, ov).0 is Some,
        parse_ex_let_weak_obj_ptr(ser_ex_let_weak_obj_ptr(e, ov).0->0 + r, ov, n) == KRead::Done(e, ser_ex_let_weak_obj_ptr(e, ov).0->0.len()),
    decreases e, 0int,
{
    reveal(kfits);
    match e {
        KView::ExLetWeakObjPtr { variable_expression, assignment_expression } => {
            let t2 = r;
            lemma_kismet_roundtrip(*assignment_expression, ov, n, t2);
            let b1 = ser_expr(*assignment_expression, ov).0->0;
            let t1 = b1 + t2;
            lemma_kismet_roundtrip(*variable_expression, ov, n, t1);
            let b0 = ser_expr(*variable_expression, ov).0->0;
            let t0 = b0 + t1;
            let s = ser_ex_let_weak_obj_ptr(e, ov).0->0 + r;
            assert(s =~= t0);
            assert(rest(s, (b0.len()) as int) =~= t1);
        },
        _ => {},
    }
}

/// What an `ExBindDelegate` that fits holds reads back, whatever follows.
#[verifier::spinoff_prover]
#[verifier::rlimit(100)]
pub proof fn lemma_rt_ex_bind_delegate(e: KView, ov: i32, n: nat, r: Seq<u8>)
    requires
        kfits(e, ov, n),
        (e is ExBindDelegate),
    ensures
        ser_ex_bind_delegate(e, ov).0 is Some,
        parse_ex_bind_delegate(ser_ex_bind_delegate(e, ov).0->0 + r, ov, n) == KRead::Done(e, ser_ex_bind_delegate(e, ov).0->0.len()),
    decreases e, 0int,
{
    reveal(kfits);
    match e {
        KView::ExBindDelegate { function_name, delegate, object_term } => {
            let t3 = r;
            lemma_kismet_roundtrip(*object_term, ov, n, t3);
            let b2 = ser_expr(*object_term, ov).0->0;
            let t2 = b2 + t3;
            lemma_kismet_roundtrip(*delegate, ov, n, t2);
            let b1 = ser_expr(*delegate, ov).0->0;
            let t1 = b1 + t2;
            lemma_kr_name(function_name, n, t1);
            let b0 = ser_fname(function_name);
            let t0 = b0 + t1;
            let s = ser_ex_bind_delegate(e, ov).0->0 + r;
            assert(s =~= t0);
            assert(rest(s, (b0.len()) as int) =~= t1);
            assert(rest(s, (b0.len() + b1.len()) as int) =~= t2);
        },
        _ => {},
    }
}

/// What an `ExRemoveMulticastDelegate` that fits holds reads back, whatever follows.
#[verifier::spinoff_prover]
#[verifier::rlimit(100)]
pub proof fn lemma_rt_ex_remove_multicast_delegate(e: KView, ov: i32, n: nat, r: Seq<u8>)
    requires
        kfits(e, ov, n),
        (e is ExRemoveMulticastDelegate),
    ensures
        ser_ex_remove_multicast_delegate(e, ov).0 is Some,
        parse_ex_remove_multicast_delegate(ser_ex_remove_multicast_delegate(e, ov).0->0 + r, ov, n) == KRead::Done(e, ser_ex_remove_multicast_delegate(e, ov).0->0.len()),
    decreases e, 0int,
{
    reveal(kfits);
    match e {
        KView::ExRemoveMulticastDelegate { delegate, delegate_to_add } => {
            let t2 = r;
            lemma_kismet_roundtrip(*delegate_to_add, ov, n, t2);
            let b1 = ser_expr(*delegate_to_add, ov).0->0;
            let t1 = b1 + t2;
            lemma_kismet_roundtrip(*delegate, ov, n, t1);
            let b0 = ser_expr(*delegate, ov).0->0;
            let t0 = b0 + t1;
            let s = ser_ex_remove_multicast_delegate(e, ov).0->0 + r;
            assert(s =~= t0);
            assert(rest(s, (b0.len()) as int) =~= t1);
        },
        _ => {},
    }
}

/// What an `ExCallMulticastDelegate` that fits holds reads back, whatever follows.
#[verifier::spinoff_prover]
#[verifier::rlimit(100)]
pub proof fn lemma_rt_ex_call_multicast_delegate(e: KView, ov: i32, n: nat, r: Seq<u8>)
    requires
        kfits(e, ov, n),
        (e is ExCallMulticastDelegate),
    ensures
        ser_ex_call_multicast_delegate(e, ov).0 is Some,
        parse_ex_call_multicast_delegate(ser_ex_call_multicast_delegate(e, ov).0->0 + r, ov, n) == KRead::Done(e, ser_ex_call_multicast_delegate(e, ov).0->0.len()),
    decreases e, 0int,
{
    reveal(kfits);
    match e {
        KView::ExCallMulticastDelegate { stack_node, delegate, parameters } => {
            let t3 = r;
            lemma_rt_list(parameters, EExprToken::ExEndFunctionParms, ov, n, t3);
            let b2 = ser_list(parameters, ov).0->0 + seq![EExprToken::ExEndFunctionParms.spec_value()];
            let t2 = b2 + t3;
            assert(ser_list(parameters, ov).0->0 + (seq![EExprToken::ExEndFunctionParms.spec_value()] + t3) =~= t2);
            lemma_kismet_roundtrip(*delegate, ov, n, t2);
            let b1 = ser_expr(*delegate, ov).0->0;
            let t1 = b1 + t2;
            lemma_kr_ints(0, 0, 0, stack_node.index, 0, t1); assert(stack_node == PackageIndex { index: stack_node.index });
            let b0 = ser_i32(stack_node.index);
            let t0 = b0 + t1;
            let s = ser_ex_call_multicast_delegate(e, ov).0->0 + r;
            assert(s =~= t0);
            assert(rest(s, (b0.len()) as int) =~= t1);
            assert(rest(s, (b0.len() + b1.len()) as int) =~= t2);
        },
        _ => {},
    }
}

/// What an `ExLetValueOnPersistentFrame` that fits holds reads back, whatever follows.
#[verifier::spinoff_prover]
#[verifier::rlimit(100)]
pub proof fn lemma_rt_ex_let_value_on_persistent_frame(e: KView, ov: i32, n: nat, r: Seq<u8>)
    requires
        kfits(e, ov, n),
        (e is ExLetValueOnPersistentFrame),
    ensures
        ser_ex_let_value_on_persistent_frame(e, ov).0 is Some,
        parse_ex_let_value_on_persistent_frame(ser_ex_let_value_on_persistent_frame(e, ov).0->0 + r, ov, n) == KRead::Done(e, ser_ex_let_value_on_persistent_frame(e, ov).0->0.len()),
    decreases e, 0int,
{
    reveal(kfits);
    match e {
        KView::ExLetValueOnPersistentFrame { destination_property, assignment_expression } => {
            let t2 = r;
            lemma_kismet_roundtrip(*assignment_expression, ov, n, t2);
            let b1 = ser_expr(*assignment_expression, ov).0->0;
            let t1 = b1 + t2;
            lemma_rt_ptr(destination_property, ov, n, t1);
            let b0 = ser_ptr(destination_property, ov).0->0;
            let t0 = b0 + t1;
            let s = ser_ex_let_value_on_persistent_frame(e, ov).0->0 + r;
            assert(s =~= t0);
            assert(rest(s, (b0.len()) as int) =~= t1);
        },
        _ => {},
    }
}

/// What an `ExArrayConst` that fits holds reads back, whatever follows.
#[verifier::spinoff_prover]
#[verifier::rlimit(100)]
pub proof fn lemma_rt_ex_array_const(e: KView, ov: i32, n: nat, r: Seq<u8>)
    requires
        kfits(e, ov, n),
        (e is ExArrayConst),
    ensures
        ser_ex_array_const(e, ov).0 is Some,
        parse_ex_array_const(ser_ex_array_const(e, ov).0->0 + r, ov, n) == KRead::Done(e, ser_ex_array_const(e, ov).0->0.len()),
    decreases e, 0int,
{
    reveal(kfits);
    match e {
        KView::ExArrayConst { inner_property, elements } => {
            let t3 = r;
            lemma_rt_list(elements, EExprToken::ExEndArrayConst, ov, n, t3);
            let b2 = ser_list(elements, ov).0->0 + seq![EExprToken::ExEndArrayConst.spec_value()];
            let t2 = b2 + t3;
            assert(ser_list(elements, ov).0->0 + (seq![EExprToken::ExEndArrayConst.spec_value()] + t3) =~= t2);
            lemma_kr_ints(0, 0, 0, elements.len() as i32, 0, t2);
            let b1 = ser_i32(elements.len() as i32);
            let t1 = b1 + t2;
            lemma_rt_ptr(inner_property, ov, n, t1);
            let b0 = ser_ptr(inner_property, ov).0->0;
            let t0 = b0 + t1;
            let s = ser_ex_array_const(e, ov).0->0 + r;
            assert(s =~= t0);
            assert(rest(s, (b0.len()) as int) =~= t1);
            assert(rest(s, (b0.len() + b1.len()) as int) =~= t2);
        },
        _ => {},
    }
}

/// What an `ExSoftObjectConst` that fits holds reads back, whatever follows.
#[verifier::spinoff_prover]
#[verifier::rlimit(100)]
pub proof fn lemma_rt_ex_soft_object_const(e: KView, ov: i32, n: nat, r: Seq<u8>)
    requires
        kfits(e, ov, n),
        (e is ExSoftObjectConst),
    ensures
        ser_ex_soft_object_const(e, ov).0 is Some,
        parse_ex_soft_object_const(ser_ex_soft_object_const(e, ov).0->0 + r, ov, n) == KRead::Done(e, ser_ex_soft_object_const(e, ov).0->0.len()),
    decreases e, 0int,
{
    reveal(kfits);
    match e {
        KView::ExSoftObjectConst { value } => {
            let t1 = r;
            lemma_kismet_roundtrip(*value, ov, n, t1);
            let b0 = ser_expr(*value, ov).0->0;
            let t0 = b0 + t1;
            let s = ser_ex_soft_object_const(e, ov).0->0 + r;
            assert(s =~= t0);
        },
        _ => {},
    }
}

/// What an `ExCallMath` that fits holds reads back, whatever follows.
#[verifier::spinoff_prover]
#[verifier::rlimit(100)]
pub proof fn lemma_rt_ex_call_math(e: KView, ov: i32, n: nat, r: Seq<u8>)
    requires
        kfits(e, ov, n),
        (e is ExCallMath),
    ensures
        ser_ex_call_math(e, ov).0 is Some,
        parse_ex_call_math(ser_ex_call_math(e, ov).0->0 + r, ov, n) == KRead::Done(e, ser_ex_call_math(e, ov).0->0.len()),
    decreases e, 0int,
{
    reveal(kfits);
    match e {
        KView::ExCallMath { stack_node, parameters } => {
            let t2 = r;
            lemma_rt_list(parameters, EExprToken::ExEndFunctionParms, ov, n, t2);
            let b1 = ser_list(parameters, ov).0->0 + seq![EExprToken::ExEndFunctionParms.spec_value()];
            let t1 = b1 + t2;
            assert(ser_list(parameters, ov).0->0 + (seq![EExprToken::ExEndFunctionParms.spec_value()] + t2) =~= t1);
            lemma_kr_ints(0, 0, 0, stack_node.index, 0, t1); assert(stack_node == PackageIndex { index: stack_node.index });
            let b0 = ser_i32(stack_node.index);
            let t0 = b0 + t1;
            let s = ser_ex_call_math(e, ov).0->0 + r;
            assert(s =~= t0);
            assert(rest(s, (b0.len()) as int) =~= t1);
        },
        _ => {},
    }
}

/// A switch value reads as the parts that its bytes hold, one after another.
proof fn lemma_switch_parts(s: Seq<u8>, ov: i32, n: nat, c: u16, end_goto_offset: u32, index_term: KView, k2: nat,
    cases: Seq<SwitchCaseView>, k3: nat, default_term: KView, k4: nat)
    requires
        kr_u16(s) == KRead::Done(c, 2),
        kr_u32(rest(s, 2)) == KRead::Done(end_goto_offset, 4),
        parse_expr(rest(s, 6), ov, n) == KRead::Done(index_term, k2),
        parse_cases(rest(s, (6 + k2) as int), c as nat, ov, n) == KRead::Done(cases, k3),
        parse_expr(rest(s, (6 + k2 + k3) as int), ov, n) == KRead::Done(default_term, k4),
    ensures
        parse_ex_switch_value(s, ov, n) == KRead::Done(KView::ExSwitchValue {
            end_goto_offset,
            index_term: Box::new(index_term),
            default_term: Box::new(default_term),
            cases,
        }, 6 + k2 + k3 + k4),
{
}

/// What an `ExSwitchValue` that fits holds reads back, whatever follows.
#[verifier::spinoff_prover]
#[verifier::rlimit(100)]
pub proof fn lemma_rt_ex_switch_value(e: KView, ov: i32, n: nat, r: Seq<u8>)
    requires
        kfits(e, ov, n),
        (e is ExSwitchValue),
    ensures
        ser_ex_switch_value(e, ov).0 is Some,
        parse_ex_switch_value(ser_ex_switch_value(e, ov).0->0 + r, ov, n) == KRead::Done(e, ser_ex_switch_value(e, ov).0->0.len()),
    decreases e, 0int,
{
    reveal(kfits);
    match e {
        KView::ExSwitchValue { end_goto_offset, index_term, default_term, cases } => {
            lemma_kismet_roundtrip(*default_term, ov, n, r);
            let b4 = ser_expr(*default_term, ov).0->0;
            let t4 = b4 + r;
            lemma_rt_cases(cases, ov, n, t4);
            let b3 = ser_cases(cases, ov).0->0;
            let t3 = b3 + t4;
            lemma_kismet_roundtrip(*index_term, ov, n, t3);
            let b2 = ser_expr(*index_term, ov).0->0;
            let t2 = b2 + t3;
            let c = cases.len() as u16;
            assert(c as nat == cases.len());
            lemma_kr_ints(0, end_goto_offset, 0, 0, 0, t2);
            let t1 = ser_u32(end_goto_offset) + t2;
            lemma_kr_ints(c, 0, 0, 0, 0, t1);
            let s = ser_ex_switch_value(e, ov).0->0 + r;
            assert(s =~= ser_u16(c) + t1);
            assert(rest(s, 2) =~= t1);
            assert(rest(s, 6) =~= t2);
            assert(rest(s, (6 + b2.len()) as int) =~= t3);
            assert(rest(s, (6 + b2.len() + b3.len()) as int) =~= t4);
            lemma_switch_parts(s, ov, n, c, end_goto_offset, *index_term, b2.len(), cases, b3.len(), *default_term, b4.len());
        },
        _ => {},
    }
}

/// What an `ExInstrumentationEvent` that fits holds reads back, whatever follows.
#[verifier::spinoff_prover]
#[verifier::rlimit(100)]
pub proof fn lemma_rt_ex_instrumentation_event(e: KView, ov: i32, n: nat, r: Seq<u8>)
    requires
        kfits(e, ov, n),
        (e is ExInstrumentationEvent),
    ensures
        ser_ex_instrumentation_event(e, ov).0 is Some,
        parse_ex_instrumentation_event(ser_ex_instrumentation_event(e, ov).0->0 + r, ov, n) == KRead::Done(e, ser_ex_instrumentation_event(e, ov).0->0.len()),
    decreases e, 0int,
{
    reveal(kfits);
    match e {
        KView::ExInstrumentationEvent { event_type, event_name } => {
            lemma_instrumentation_byte(event_type);
            let h = seq![event_type.spec_value()];
            let s = ser_ex_instrumentation_event(e, ov).0->0 + r;
            if event_type == EScriptInstrumentationType::InlineEvent {
                let nm = event_name->0;
                lemma_kr_name(nm, n, r);
                assert(s =~= h + (ser_fname(nm) + r));
                assert(rest(s, 1) =~= ser_fname(nm) + r);
            } else {
                assert(s =~= h + r);
            }
        },
        _ => {},
    }
}

/// What an `ExArrayGetByRef` that fits holds reads back, whatever follows.
#[verifier::spinoff_prover]
#[verifier::rlimit(100)]
pub proof fn lemma_rt_ex_array_get_by_ref(e: KView, ov: i32, n: nat, r: Seq<u8>)
    requires
        kfits(e, ov, n),
        (e is ExArrayGetByRef),
    ensures
        ser_ex_array_get_by_ref(e, ov).0 is Some,
        parse_ex_array_get_by_ref(ser_ex_array_get_by_ref(e, ov).0->0 + r, ov, n) == KRead::Done(e, ser_ex_array_get_by_ref(e, ov).0->0.len()),
    decreases e, 0int,
{
    reveal(kfits);
    match e {
        KView::ExArrayGetByRef { array_variable, array_index } => {
            let t2 = r;
            lemma_kismet_roundtrip(*array_index, ov, n, t2);
            let b1 = ser_expr(*array_index, ov).0->0;
            let t1 = b1 + t2;
            lemma_kismet_roundtrip(*array_variable, ov, n, t1);
            let b0 = ser_expr(*array_variable, ov).0->0;
            let t0 = b0 + t1;
            let s = ser_ex_array_get_by_ref(e, ov).0->0 + r;
            assert(s =~= t0);
            assert(rest(s, (b0.len()) as int) =~= t1);
        },
        _ => {},
    }
}

/// What an `ExClassSparseDataVariable` that fits holds reads back, whatever follows.
#[verifier::spinoff_prover]
#[verifier::rlimit(100)]
pub proof fn lemma_rt_ex_class_sparse_data_variable(e: KView, ov: i32, n: nat, r: Seq<u8>)
    requires
        kfits(e, ov, n),
        (e is ExClassSparseDataVariable),
    ensures
        ser_ex_class_sparse_data_variable(e, ov).0 is Some,
        parse_ex_class_sparse_data_variable(ser_ex_class_sparse_data_variable(e, ov).0->0 + r, ov, n) == KRead::Done(e, ser_ex_class_sparse_data_variable(e, ov).0->0.len()),
    decreases e, 0int,
{
    reveal(kfits);
    match e {
        KView::ExClassSparseDataVariable { variable } => {
            let t1 = r;
            lemma_rt_ptr(variable, ov, n, t1);
            let b0 = ser_ptr(variable, ov).0->0;
            let t0 = b0 + t1;
            let s = ser_ex_class_sparse_data_variable(e, ov).0->0 + r;
            assert(s =~= t0);
        },
        _ => {},
    }
}

/// What an `ExFieldPathConst` that fits holds reads back, whatever follows.
#[verifier::spinoff_prover]
#[verifier::rlimit(100)]
pub proof fn lemma_rt_ex_field_path_const(e: KView, ov: i32, n: nat, r: Seq<u8>)
    requires
        kfits(e, ov, n),
        (e is ExFieldPathConst),
    ensures
        ser_ex_field_path_const(e, ov).0 is Some,
        parse_ex_field_path_const(ser_ex_field_path_const(e, ov).0->0 + r, ov, n) == KRead::Done(e, ser_ex_field_path_const(e, ov).0->0.len()),
    decreases e, 0int,
{
    reveal(kfits);
    match e {
        KView::ExFieldPathConst { value } => {
            let t1 = r;
            lemma_kismet_roundtrip(*value, ov, n, t1);
            let b0 = ser_expr(*value, ov).0->0;
            let t0 = b0 + t1;
            let s = ser_ex_field_path_const(e, ov).0->0 + r;
            assert(s =~= t0);
        },
        _ => {},
    }
}

} // verus!
