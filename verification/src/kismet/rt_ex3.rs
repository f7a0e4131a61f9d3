//! What expressions of one group of tokens hold reads back as it was written.

use vstd::prelude::*;
use crate::archive::{rest, ser_u16, ser_u32, ser_i32, ser_u64, ser_i64};
use crate::asset::name_map::ser_fname;
use crate::types::{NameIndex, PackageIndex, Vector};
use super::expression::KView;
use super::fits::kfits;
use super::parse::{KRead, VER_UE4_CHANGE_SETARRAY_BYTECODE, parse_ex_add_multicast_delegate, parse_ex_array_const, parse_ex_array_get_by_ref, parse_ex_assert, parse_ex_bind_delegate, parse_ex_byte_const, parse_ex_call_math, parse_ex_call_multicast_delegate, parse_ex_class_context, parse_ex_class_sparse_data_variable, parse_ex_clear_multicast_delegate, parse_ex_computed_jump, parse_ex_context, parse_ex_context_fail_silent, parse_ex_cross_interface_cast, parse_ex_default_variable, parse_ex_dynamic_cast, parse_ex_field_path_const, parse_ex_final_function, parse_ex_float_const, parse_ex_instance_delegate, parse_ex_instance_variable, parse_ex_instrumentation_event, parse_ex_int64_const, parse_ex_int_const, parse_ex_int_const_byte, parse_ex_interface_context, parse_ex_interface_to_obj_cast, parse_ex_jump, parse_ex_jump_if_not, parse_ex_let, parse_ex_let_bool, parse_ex_let_delegate, parse_ex_let_multicast_delegate, parse_ex_let_obj, parse_ex_let_value_on_persistent_frame, parse_ex_let_weak_obj_ptr, parse_ex_local_final_function, parse_ex_local_out_variable, parse_ex_local_variable, parse_ex_local_virtual_function, parse_ex_map_const, parse_ex_meta_cast, parse_ex_name_const, parse_ex_obj_to_interface_cast, parse_ex_object_const, parse_ex_pop_execution_flow_if_not, parse_ex_primitive_cast, parse_ex_property_const, parse_ex_push_execution_flow, parse_ex_remove_multicast_delegate, parse_ex_return, parse_ex_rotation_const, parse_ex_set_array, parse_ex_set_const, parse_ex_set_map, parse_ex_set_set, parse_ex_skip, parse_ex_skip_offset_const, parse_ex_soft_object_const, parse_ex_string_const, parse_ex_struct_const, parse_ex_struct_member_context, parse_ex_switch_value, parse_ex_text_const, parse_ex_transform_const, parse_ex_uint64_const, parse_ex_unicode_string_const, parse_ex_vector_const, parse_ex_virtual_function};
use super::rt::{lemma_kismet_roundtrip, lemma_rt_ptr, lemma_rt_list, lemma_rt_text, lemma_rt_cases};
use super::rt_prim::{lemma_kr_ints, lemma_kr_bytes, lemma_kr_name, lemma_kr_vectors, lemma_kr_str, lemma_kr_ustr, lemma_instrumentation_byte};
use super::ser::{ser_body, ser_body_0, ser_body_1, ser_body_2, ser_body_3, ser_body_4, ser_cases, ser_ex_add_multicast_delegate, ser_ex_array_const, ser_ex_array_get_by_ref, ser_ex_assert, ser_ex_bind_delegate, ser_ex_byte_const, ser_ex_call_math, ser_ex_call_multicast_delegate, ser_ex_class_context, ser_ex_class_sparse_data_variable, ser_ex_clear_multicast_delegate, ser_ex_computed_jump, ser_ex_context, ser_ex_context_fail_silent, ser_ex_cross_interface_cast, ser_ex_default_variable, ser_ex_dynamic_cast, ser_ex_field_path_const, ser_ex_final_function, ser_ex_float_const, ser_ex_instance_delegate, ser_ex_instance_variable, ser_ex_instrumentation_event, ser_ex_int64_const, ser_ex_int_const, ser_ex_int_const_byte, ser_ex_interface_context, ser_ex_interface_to_obj_cast, ser_ex_jump, ser_ex_jump_if_not, ser_ex_let, ser_ex_let_bool, ser_ex_let_delegate, ser_ex_let_multicast_delegate, ser_ex_let_obj, ser_ex_let_value_on_persistent_frame, ser_ex_let_weak_obj_ptr, ser_ex_local_final_function, ser_ex_local_out_variable, ser_ex_local_variable, ser_ex_local_virtual_function, ser_ex_map_const, ser_ex_meta_cast, ser_ex_name_const, ser_ex_obj_to_interface_cast, ser_ex_object_const, ser_ex_pop_execution_flow_if_not, ser_ex_primitive_cast, ser_ex_property_const, ser_ex_push_execution_flow, ser_ex_remove_multicast_delegate, ser_ex_return, ser_ex_rotation_const, ser_ex_set_array, ser_ex_set_const, ser_ex_set_map, ser_ex_set_set, ser_ex_skip, ser_ex_skip_offset_const, ser_ex_soft_object_const, ser_ex_string_const, ser_ex_struct_const, ser_ex_struct_member_context, ser_ex_switch_value, ser_ex_text_const, ser_ex_transform_const, ser_ex_uint64_const, ser_ex_unicode_string_const, ser_ex_vector_const, ser_ex_virtual_function, ser_expr, ser_kstr, ser_kustr, ser_list, ser_names, ser_opt, ser_ptr, ser_rot4, ser_text, ser_vec3, wcat, wlit};
use super::tokens::{EExprToken, ECastToken, EScriptInstrumentationType};

verus! {

/// What an `ExLetMulticastDelegate` that fits holds reads back, whatever follows.
#[verifier::spinoff_prover]
#[verifier::rlimit(100)]
pub proof fn lemma_rt_ex_let_multicast_delegate(e: KView, ov: i32, n: nat, r: Seq<u8>)
    requires
        kfits(e, ov, n),
        (e is ExLetMulticastDelegate),
    ensures
        ser_ex_let_multicast_delegate(e, ov).0 is Some,
        parse_ex_let_multicast_delegate(ser_ex_let_multicast_delegate(e, ov).0->0 + r, ov, n) == KRead::Done(e, ser_ex_let_multicast_delegate(e, ov).0->0.len()),
    decreases e, 0int,
{
    reveal(kfits);
    match e {
        KView::ExLetMulticastDelegate { variable_expression, assignment_expression } => {
            let t2 = r;
            lemma_kismet_roundtrip(*assignment_expression, ov, n, t2);
            let b1 = ser_expr(*assignment_expression, ov).0->0;
            let t1 = b1 + t2;
            lemma_kismet_roundtrip(*variable_expression, ov, n, t1);
            let b0 = ser_expr(*variable_expression, ov).0->0;
            let t0 = b0 + t1;
            let s = ser_ex_let_multicast_delegate(e, ov).0->0 + r;
            assert(s =~= t0);
            assert(rest(s, (b0.len()) as int) =~= t1);
        },
        _ => {},
    }
}

/// What an `ExLetDelegate` that fits holds reads back, whatever follows.
#[verifier::spinoff_prover]
#[verifier::rlimit(100)]
pub proof fn lemma_rt_ex_let_delegate(e: KView, ov: i32, n: nat, r: Seq<u8>)
    requires
        kfits(e, ov, n),
        (e is ExLetDelegate),
    ensures
        ser_ex_let_delegate(e, ov).0 is Some,
        parse_ex_let_delegate(ser_ex_let_delegate(e, ov).0->0 + r, ov, n) == KRead::Done(e, ser_ex_let_delegate(e, ov).0->0.len()),
    decreases e, 0int,
{
    reveal(kfits);
    match e {
        KView::ExLetDelegate { variable_expression, assignment_expression } => {
            let t2 = r;
            lemma_kismet_roundtrip(*assignment_expression, ov, n, t2);
            let b1 = ser_expr(*assignment_expression, ov).0->0;
            let t1 = b1 + t2;
            lemma_kismet_roundtrip(*variable_expression, ov, n, t1);
            let b0 = ser_expr(*variable_expression, ov).0->0;
            let t0 = b0 + t1;
            let s = ser_ex_let_delegate(e, ov).0->0 + r;
            assert(s =~= t0);
            assert(rest(s, (b0.len()) as int) =~= t1);
        },
        _ => {},
    }
}

/// What an `ExLocalVirtualFunction` that fits holds reads back, whatever follows.
#[verifier::spinoff_prover]
#[verifier::rlimit(100)]
pub proof fn lemma_rt_ex_local_virtual_function(e: KView, ov: i32, n: nat, r: Seq<u8>)
    requires
        kfits(e, ov, n),
        (e is ExLocalVirtualFunction),
    ensures
        ser_ex_local_virtual_function(e, ov).0 is Some,
        parse_ex_local_virtual_function(ser_ex_local_virtual_function(e, ov).0->0 + r, ov, n) == KRead::Done(e, ser_ex_local_virtual_function(e, ov).0->0.len()),
    decreases e, 0int,
{
    reveal(kfits);
    match e {
        KView::ExLocalVirtualFunction { virtual_function_name, parameters } => {
            let t2 = r;
            lemma_rt_list(parameters, EExprToken::ExEndFunctionParms, ov, n, t2);
            let b1 = ser_list(parameters, ov).0->0 + seq![EExprToken::ExEndFunctionParms.spec_value()];
            let t1 = b1 + t2;
            assert(ser_list(parameters, ov).0->0 + (seq![EExprToken::ExEndFunctionParms.spec_value()] + t2) =~= t1);
            lemma_kr_name(virtual_function_name, n, t1);
            let b0 = ser_fname(virtual_function_name);
            let t0 = b0 + t1;
            let s = ser_ex_local_virtual_function(e, ov).0->0 + r;
            assert(s =~= t0);
            assert(rest(s, (b0.len()) as int) =~= t1);
        },
        _ => {},
    }
}

/// What an `ExLocalFinalFunction` that fits holds reads back, whatever follows.
#[verifier::spinoff_prover]
#[verifier::rlimit(100)]
pub proof fn lemma_rt_ex_local_final_function(e: KView, ov: i32, n: nat, r: Seq<u8>)
    requires
        kfits(e, ov, n),
        (e is ExLocalFinalFunction),
    ensures
        ser_ex_local_final_function(e, ov).0 is Some,
        parse_ex_local_final_function(ser_ex_local_final_function(e, ov).0->0 + r, ov, n) == KRead::Done(e, ser_ex_local_final_function(e, ov).0->0.len()),
    decreases e, 0int,
{
    reveal(kfits);
    match e {
        KView::ExLocalFinalFunction { stack_node, parameters } => {
            let t2 = r;
            lemma_rt_list(parameters, EExprToken::ExEndFunctionParms, ov, n, t2);
            let b1 = ser_list(parameters, ov).0->0 + seq![EExprToken::ExEndFunctionParms.spec_value()];
            let t1 = b1 + t2;
            assert(ser_list(parameters, ov).0->0 + (seq![EExprToken::ExEndFunctionParms.spec_value()] + t2) =~= t1);
            lemma_kr_ints(0, 0, 0, stack_node.index, 0, t1); assert(stack_node == PackageIndex { index: stack_node.index });
            let b0 = ser_i32(stack_node.index);
            let t0 = b0 + t1;
            let s = ser_ex_local_final_function(e, ov).0->0 + r;
            assert(s =~= t0);
            assert(rest(s, (b0.len()) as int) =~= t1);
        },
        _ => {},
    }
}

/// What an `ExLocalOutVariable` that fits holds reads back, whatever follows.
#[verifier::spinoff_prover]
#[verifier::rlimit(100)]
pub proof fn lemma_rt_ex_local_out_variable(e: KView, ov: i32, n: nat, r: Seq<u8>)
    requires
        kfits(e, ov, n),
        (e is ExLocalOutVariable),
    ensures
        ser_ex_local_out_variable(e, ov).0 is Some,
        parse_ex_local_out_variable(ser_ex_local_out_variable(e, ov).0->0 + r, ov, n) == KRead::Done(e, ser_ex_local_out_variable(e, ov).0->0.len()),
    decreases e, 0int,
{
    reveal(kfits);
    match e {
        KView::ExLocalOutVariable { variable } => {
            let t1 = r;
            lemma_rt_ptr(variable, ov, n, t1);
            let b0 = ser_ptr(variable, ov).0->0;
            let t0 = b0 + t1;
            let s = ser_ex_local_out_variable(e, ov).0->0 + r;
            assert(s =~= t0);
        },
        _ => {},
    }
}

/// What an `ExInstanceDelegate` that fits holds reads back, whatever follows.
#[verifier::spinoff_prover]
#[verifier::rlimit(100)]
pub proof fn lemma_rt_ex_instance_delegate(e: KView, ov: i32, n: nat, r: Seq<u8>)
    requires
        kfits(e, ov, n),
        (e is ExInstanceDelegate),
    ensures
        ser_ex_instance_delegate(e, ov).0 is Some,
        parse_ex_instance_delegate(ser_ex_instance_delegate(e, ov).0->0 + r, ov, n) == KRead::Done(e, ser_ex_instance_delegate(e, ov).0->0.len()),
    decreases e, 0int,
{
    reveal(kfits);
    match e {
        KView::ExInstanceDelegate { function_name } => {
            let t1 = r;
            lemma_kr_name(function_name, n, t1);
            let b0 = ser_fname(function_name);
            let t0 = b0 + t1;
            let s = ser_ex_instance_delegate(e, ov).0->0 + r;
            assert(s =~= t0);
        },
        _ => {},
    }
}

/// What an `ExPushExecutionFlow` that fits holds reads back, whatever follows.
#[verifier::spinoff_prover]
#[verifier::rlimit(100)]
pub proof fn lemma_rt_ex_push_execution_flow(e: KView, ov: i32, n: nat, r: Seq<u8>)
    requires
        kfits(e, ov, n),
        (e is ExPushExecutionFlow),
    ensures
        ser_ex_push_execution_flow(e, ov).0 is Some,
        parse_ex_push_execution_flow(ser_ex_push_execution_flow(e, ov).0->0 + r, ov, n) == KRead::Done(e, ser_ex_push_execution_flow(e, ov).0->0.len()),
    decreases e, 0int,
{
    reveal(kfits);
    match e {
        KView::ExPushExecutionFlow { pushing_address } => {
            let t1 = r;
            lemma_kr_ints(0, pushing_address, 0, 0, 0, t1);
            let b0 = ser_u32(pushing_address);
            let t0 = b0 + t1;
            let s = ser_ex_push_execution_flow(e, ov).0->0 + r;
            assert(s =~= t0);
        },
        _ => {},
    }
}

/// What an `ExComputedJump` that fits holds reads back, whatever follows.
#[verifier::spinoff_prover]
#[verifier::rlimit(100)]
pub proof fn lemma_rt_ex_computed_jump(e: KView, ov: i32, n: nat, r: Seq<u8>)
    requires
        kfits(e, ov, n),
        (e is ExComputedJump),
    ensures
        ser_ex_computed_jump(e, ov).0 is Some,
        parse_ex_computed_jump(ser_ex_computed_jump(e, ov).0->0 + r, ov, n) == KRead::Done(e, ser_ex_computed_jump(e, ov).0->0.len()),
    decreases e, 0int,
{
    reveal(kfits);
    match e {
        KView::ExComputedJump { code_offset_expression } => {
            let t1 = r;
            lemma_kismet_roundtrip(*code_offset_expression, ov, n, t1);
            let b0 = ser_expr(*code_offset_expression, ov).0->0;
            let t0 = b0 + t1;
            let s = ser_ex_computed_jump(e, ov).0->0 + r;
            assert(s =~= t0);
        },
        _ => {},
    }
}

/// What an `ExPopExecutionFlowIfNot` that fits holds reads back, whatever follows.
#[verifier::spinoff_prover]
#[verifier::rlimit(100)]
pub proof fn lemma_rt_ex_pop_execution_flow_if_not(e: KView, ov: i32, n: nat, r: Seq<u8>)
    requires
        kfits(e, ov, n),
        (e is ExPopExecutionFlowIfNot),
    ensures
        ser_ex_pop_execution_flow_if_not(e, ov).0 is Some,
        parse_ex_pop_execution_flow_if_not(ser_ex_pop_execution_flow_if_not(e, ov).0->0 + r, ov, n) == KRead::Done(e, ser_ex_pop_execution_flow_if_not(e, ov).0->0.len()),
    decreases e, 0int,
{
    reveal(kfits);
    match e {
        KView::ExPopExecutionFlowIfNot { boolean_expression } => {
            let t1 = r;
            lemma_kismet_roundtrip(*boolean_expression, ov, n, t1);
            let b0 = ser_expr(*boolean_expression, ov).0->0;
            let t0 = b0 + t1;
            let s = ser_ex_pop_execution_flow_if_not(e, ov).0->0 + r;
            assert(s =~= t0);
        },
        _ => {},
    }
}

/// What an `ExInterfaceContext` that fits holds reads back, whatever follows.
#[verifier::spinoff_prover]
#[verifier::rlimit(100)]
pub proof fn lemma_rt_ex_interface_context(e: KView, ov: i32, n: nat, r: Seq<u8>)
    requires
        kfits(e, ov, n),
        (e is ExInterfaceContext),
    ensures
        ser_ex_interface_context(e, ov).0 is Some,
        parse_ex_interface_context(ser_ex_interface_context(e, ov).0->0 + r, ov, n) == KRead::Done(e, ser_ex_interface_context(e, ov).0->0.len()),
    decreases e, 0int,
{
    reveal(kfits);
    match e {
        KView::ExInterfaceContext { interface_value } => {
            let t1 = r;
            lemma_kismet_roundtrip(*interface_value, ov, n, t1);
            let b0 = ser_expr(*interface_value, ov).0->0;
            let t0 = b0 + t1;
            let s = ser_ex_interface_context(e, ov).0->0 + r;
            assert(s =~= t0);
        },
        _ => {},
    }
}

/// What an `ExObjToInterfaceCast` that fits holds reads back, whatever follows.
#[verifier::spinoff_prover]
#[verifier::rlimit(100)]
pub proof fn lemma_rt_ex_obj_to_interface_cast(e: KView, ov: i32, n: nat, r: Seq<u8>)
    requires
        kfits(e, ov, n),
        (e is ExObjToInterfaceCast),
    ensures
        ser_ex_obj_to_interface_cast(e, ov).0 is Some,
        parse_ex_obj_to_interface_cast(ser_ex_obj_to_interface_cast(e, ov).0->0 + r, ov, n) == KRead::Done(e, ser_ex_obj_to_interface_cast(e, ov).0->0.len()),
    decreases e, 0int,
{
    reveal(kfits);
    match e {
        KView::ExObjToInterfaceCast { class_ptr, target } => {
            let t2 = r;
            lemma_kismet_roundtrip(*target, ov, n, t2);
            let b1 = ser_expr(*target, ov).0->0;
            let t1 = b1 + t2;
            lemma_kr_ints(0, 0, 0, class_ptr.index, 0, t1); assert(class_ptr == PackageIndex { index: class_ptr.index });
            let b0 = ser_i32(class_ptr.index);
            let t0 = b0 + t1;
            let s = ser_ex_obj_to_interface_cast(e, ov).0->0 + r;
            assert(s =~= t0);
            assert(rest(s, (b0.len()) as int) =~= t1);
        },
        _ => {},
    }
}

/// What an `ExCrossInterfaceCast` that fits holds reads back, whatever follows.
#[verifier::spinoff_prover]
#[verifier::rlimit(100)]
pub proof fn lemma_rt_ex_cross_interface_cast(e: KView, ov: i32, n: nat, r: Seq<u8>)
    requires
        kfits(e, ov, n),
        (e is ExCrossInterfaceCast),
    ensures
        ser_ex_cross_interface_cast(e, ov).0 is Some,
        parse_ex_cross_interface_cast(ser_ex_cross_interface_cast(e, ov).0->0 + r, ov, n) == KRead::Done(e, ser_ex_cross_interface_cast(e, ov).0->0.len()),
    decreases e, 0int,
{
    reveal(kfits);
    match e {
        KView::ExCrossInterfaceCast { class_ptr, target } => {
            let t2 = r;
            lemma_kismet_roundtrip(*target, ov, n, t2);
            let b1 = ser_expr(*target, ov).0->0;
            let t1 = b1 + t2;
            lemma_kr_ints(0, 0, 0, class_ptr.index, 0, t1); assert(class_ptr == PackageIndex { index: class_ptr.index });
            let b0 = ser_i32(class_ptr.index);
            let t0 = b0 + t1;
            let s = ser_ex_cross_interface_cast(e, ov).0->0 + r;
            assert(s =~= t0);
            assert(rest(s, (b0.len()) as int) =~= t1);
        },
        _ => {},
    }
}

/// What an `ExInterfaceToObjCast` that fits holds reads back, whatever follows.
#[verifier::spinoff_prover]
#[verifier::rlimit(100)]
pub proof fn lemma_rt_ex_interface_to_obj_cast(e: KView, ov: i32, n: nat, r: Seq<u8>)
    requires
        kfits(e, ov, n),
        (e is ExInterfaceToObjCast),
    ensures
        ser_ex_interface_to_obj_cast(e, ov).0 is Some,
        parse_ex_interface_to_obj_cast(ser_ex_interface_to_obj_cast(e, ov).0->0 + r, ov, n) == KRead::Done(e, ser_ex_interface_to_obj_cast(e, ov).0->0.len()),
    decreases e, 0int,
{
    reveal(kfits);
    match e {
        KView::ExInterfaceToObjCast { class_ptr, target } => {
            let t2 = r;
            lemma_kismet_roundtrip(*target, ov, n, t2);
            let b1 = ser_expr(*target, ov).0->0;
            let t1 = b1 + t2;
            lemma_kr_ints(0, 0, 0, class_ptr.index, 0, t1); assert(class_ptr == PackageIndex { index: class_ptr.index });
            let b0 = ser_i32(class_ptr.index);
            let t0 = b0 + t1;
            let s = ser_ex_interface_to_obj_cast(e, ov).0->0 + r;
            assert(s =~= t0);
            assert(rest(s, (b0.len()) as int) =~= t1);
        },
        _ => {},
    }
}

/// What an `ExSkipOffsetConst` that fits holds reads back, whatever follows.
#[verifier::spinoff_prover]
#[verifier::rlimit(100)]
pub proof fn lemma_rt_ex_skip_offset_const(e: KView, ov: i32, n: nat, r: Seq<u8>)
    requires
        kfits(e, ov, n),
        (e is ExSkipOffsetConst),
    ensures
        ser_ex_skip_offset_const(e, ov).0 is Some,
        parse_ex_skip_offset_const(ser_ex_skip_offset_const(e, ov).0->0 + r, ov, n) == KRead::Done(e, ser_ex_skip_offset_const(e, ov).0->0.len()),
    decreases e, 0int,
{
    reveal(kfits);
    match e {
        KView::ExSkipOffsetConst { value } => {
            let t1 = r;
            lemma_kr_ints(0, value, 0, 0, 0, t1);
            let b0 = ser_u32(value);
            let t0 = b0 + t1;
            let s = ser_ex_skip_offset_const(e, ov).0->0 + r;
            assert(s =~= t0);
        },
        _ => {},
    }
}

} // verus!
