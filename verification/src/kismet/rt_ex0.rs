//! What expressions of one group of tokens hold reads back as it was written.

use vstd::prelude::*;
use crate::archive::{rest, ser_u16, ser_u32, ser_i32, ser_u64, ser_i64};
use crate::asset::name_map::ser_fname;
use crate::types::{NameIndex, PackageIndex, Vector};
use super::expression::KView;
use super::fits::kfits;
use super::parse::{KRead, VER_UE4_CHANGE_SETARRAY_BYTECODE, parse_ex_add_multicast_delegate, parse_ex_array_const, parse_ex_array_get_by_ref, parse_ex_assert, parse_ex_bind_delegate, parse_ex_byte_const, parse_ex_call_math, parse_ex_call_multicast_delegate, parse_ex_class_context, parse_ex_class_sparse_data_variable, parse_ex_clear_multicast_delegate, parse_ex_computed_jump, parse_ex_context, parse_ex_context_fail_silent, parse_ex_cross_interface_cast, parse_ex_default_variable, parse_ex_dynamic_cast, parse_ex_field_path_const, parse_ex_final_function, parse_ex_float_const, parse_ex_instance_delegate, parse_ex_instance_variable, parse_ex_instrumentation_event, parse_ex_int64_const, parse_ex_int_const, parse_ex_int_const_byte, parse_ex_interface_context, parse_ex_interface_to_obj_cast, parse_ex_jump, parse_ex_jump_if_not, parse_ex_let, parse_ex_let_bool, parse_ex_let_delegate, parse_ex_let_multicast_delegate, parse_ex_let_obj, parse_ex_let_value_on_persistent_frame, parse_ex_let_weak_obj_ptr, parse_ex_local_final_function, parse_ex_local_out_variable, parse_ex_local_variable, parse_ex_local_virtual_function, parse_ex_map_const, parse_ex_meta_cast, parse_ex_name_const, parse_ex_obj_to_interface_cast, parse_ex_object_const, parse_ex_pop_execution_flow_if_not, parse_ex_primitive_cast, parse_ex_property_const, parse_ex_push_execution_flow, parse_ex_remove_multicast_delegate, parse_ex_return, parse_ex_rotation_const, parse_ex_set_array, parse_ex_set_const, parse_ex_set_map, parse_ex_set_set, parse_ex_skip, parse_ex_skip_offset_const, parse_ex_soft_object_const, parse_ex_string_const, parse_ex_struct_const, parse_ex_struct_member_context, parse_ex_switch_value, parse_ex_text_const, parse_ex_transform_const, parse_ex_uint64_const, parse_ex_unicode_string_const, parse_ex_vector_const, parse_ex_virtual_function};
use super::rt::{lemma_kismet_roundtrip, lemma_rt_ptr, lemma_rt_list, lemma_rt_text, lemma_rt_cases};
use super::rt_prim::{lemma_kr_ints, lemma_kr_bytes, lemma_kr_name, lemma_kr_vectors, lemma_kr_str, lemma_kr_ustr, lemma_instrumentation_byte};
use super::ser::{ser_body, ser_body_0, ser_body_1, ser_body_2, ser_body_3, ser_body_4, ser_cases, ser_ex_add_multicast_delegate, ser_ex_array_const, ser_ex_array_get_by_ref, ser_ex_assert, ser_ex_bind_delegate, ser_ex_byte_const, ser_ex_call_math, ser_ex_call_multicast_delegate, ser_ex_class_context, ser_ex_class_sparse_data_variable, ser_ex_clear_multicast_delegate, ser_ex_computed_jump, ser_ex_context, ser_ex_context_fail_silent, ser_ex_cross_interface_cast, ser_ex_default_variable, ser_ex_dynamic_cast, ser_ex_field_path_const, ser_ex_final_function, ser_ex_float_const, ser_ex_instance_delegate, ser_ex_instance_variable, ser_ex_instrumentation_event, ser_ex_int64_const, ser_ex_int_const, ser_ex_int_const_byte, ser_ex_interface_context, ser_ex_interface_to_obj_cast, ser_ex_jump, ser_ex_jump_if_not, ser_ex_let, ser_ex_let_bool, ser_ex_let_delegate, ser_ex_let_multicast_delegate, ser_ex_let_obj, ser_ex_let_value_on_persistent_frame, ser_ex_let_weak_obj_ptr, ser_ex_local_final_function, ser_ex_local_out_variable, ser_ex_local_variable, ser_ex_local_virtual_function, ser_ex_map_const, ser_ex_meta_cast, ser_ex_name_const, ser_ex_obj_to_interface_cast, ser_ex_object_const, ser_ex_pop_execution_flow_if_not, ser_ex_primitive_cast, ser_ex_property_const, ser_ex_push_execution_flow, ser_ex_remove_multicast_delegate, ser_ex_return, ser_ex_rotation_const, ser_ex_set_array, ser_ex_set_const, ser_ex_set_map, ser_ex_set_set, ser_ex_skip, ser_ex_skip_offset_const, ser_ex_soft_object_const, ser_ex_string_const, ser_ex_struct_const, ser_ex_struct_member_context, ser_ex_switch_value, ser_ex_text_const, ser_ex_transform_const, ser_ex_uint64_const, ser_ex_unicode_string_const, ser_ex_vector_const, ser_ex_virtual_function, ser_expr, ser_kstr, ser_kustr, ser_list, ser_names, ser_opt, ser_ptr, ser_rot4, ser_text, ser_vec3, wcat, wlit};
use super::tokens::{EExprToken, ECastToken, EScriptInstrumentationType};

verus! {

/// What an `ExLocalVariable` that fits holds reads back, whatever follows.
#[verifier::spinoff_prover]
#[verifier::rlimit(100)]
pub proof fn lemma_rt_ex_local_variable(e: KView, ov: i32, n: nat, r: Seq<u8>)
    requires
        kfits(e, ov, n),
        (e is ExLocalVariable),
    ensures
        ser_ex_local_variable(e, ov).0 is Some,
        parse_ex_local_variable(ser_ex_local_variable(e, ov).0->0 + r, ov, n) == KRead::Done(e, ser_ex_local_variable(e, ov).0->0.len()),
    decreases e, 0int,
{
    reveal(kfits);
    match e {
        KView::ExLocalVariable { variable } => {
            let t1 = r;
            lemma_rt_ptr(variable, ov, n, t1);
            let b0 = ser_ptr(variable, ov).0->0;
            let t0 = b0 + t1;
            let s = ser_ex_local_variable(e, ov).0->0 + r;
            assert(s =~= t0);
        },
        _ => {},
    }
}

/// What an `ExInstanceVariable` that fits holds reads back, whatever follows.
#[verifier::spinoff_prover]
#[verifier::rlimit(100)]
pub proof fn lemma_rt_ex_instance_variable(e: KView, ov: i32, n: nat, r: Seq<u8>)
    requires
        kfits(e, ov, n),
        (e is ExInstanceVariable),
    ensures
        ser_ex_instance_variable(e, ov).0 is Some,
        parse_ex_instance_variable(ser_ex_instance_variable(e, ov).0->0 + r, ov, n) == KRead::Done(e, ser_ex_instance_variable(e, ov).0->0.len()),
    decreases e, 0int,
{
    reveal(kfits);
    match e {
        KView::ExInstanceVariable { variable } => {
            let t1 = r;
            lemma_rt_ptr(variable, ov, n, t1);
            let b0 = ser_ptr(variable, ov).0->0;
            let t0 = b0 + t1;
            let s = ser_ex_instance_variable(e, ov).0->0 + r;
            assert(s =~= t0);
        },
        _ => {},
    }
}

/// What an `ExDefaultVariable` that fits holds reads back, whatever follows.
#[verifier::spinoff_prover]
#[verifier::rlimit(100)]
pub proof fn lemma_rt_ex_default_variable(e: KView, ov: i32, n: nat, r: Seq<u8>)
    requires
        kfits(e, ov, n),
        (e is ExDefaultVariable),
    ensures
        ser_ex_default_variable(e, ov).0 is Some,
        parse_ex_default_variable(ser_ex_default_variable(e, ov).0->0 + r, ov, n) == KRead::Done(e, ser_ex_default_variable(e, ov).0->0.len()),
    decreases e, 0int,
{
    reveal(kfits);
    match e {
        KView::ExDefaultVariable { variable } => {
            let t1 = r;
            lemma_rt_ptr(variable, ov, n, t1);
            let b0 = ser_ptr(variable, ov).0->0;
            let t0 = b0 + t1;
            let s = ser_ex_default_variable(e, ov).0->0 + r;
            assert(s =~= t0);
        },
        _ => {},
    }
}

/// What an `ExReturn` that fits holds reads back, whatever follows.
#[verifier::spinoff_prover]
#[verifier::rlimit(100)]
pub proof fn lemma_rt_ex_return(e: KView, ov: i32, n: nat, r: Seq<u8>)
    requires
        kfits(e, ov, n),
        (e is ExReturn),
    ensures
        ser_ex_return(e, ov).0 is Some,
        parse_ex_return(ser_ex_return(e, ov).0->0 + r, ov, n) == KRead::Done(e, ser_ex_return(e, ov).0->0.len()),
    decreases e, 0int,
{
    reveal(kfits);
    match e {
        KView::ExReturn { return_expression } => {
            let t1 = r;
            lemma_kismet_roundtrip(*return_expression, ov, n, t1);
            let b0 = ser_expr(*return_expression, ov).0->0;
            let t0 = b0 + t1;
            let s = ser_ex_return(e, ov).0->0 + r;
            assert(s =~= t0);
        },
        _ => {},
    }
}

/// What an `ExJump` that fits holds reads back, whatever follows.
#[verifier::spinoff_prover]
#[verifier::rlimit(100)]
pub proof fn lemma_rt_ex_jump(e: KView, ov: i32, n: nat, r: Seq<u8>)
    requires
        kfits(e, ov, n),
        (e is ExJump),
    ensures
        ser_ex_jump(e, ov).0 is Some,
        parse_ex_jump(ser_ex_jump(e, ov).0->0 + r, ov, n) == KRead::Done(e, ser_ex_jump(e, ov).0->0.len()),
    decreases e, 0int,
{
    reveal(kfits);
    match e {
        KView::ExJump { code_offset } => {
            let t1 = r;
            lemma_kr_ints(0, code_offset, 0, 0, 0, t1);
            let b0 = ser_u32(code_offset);
            let t0 = b0 + t1;
            let s = ser_ex_jump(e, ov).0->0 + r;
            assert(s =~= t0);
        },
        _ => {},
    }
}

/// What an `ExJumpIfNot` that fits holds reads back, whatever follows.
#[verifier::spinoff_prover]
#[verifier::rlimit(100)]
pub proof fn lemma_rt_ex_jump_if_not(e: KView, ov: i32, n: nat, r: Seq<u8>)
    requires
        kfits(e, ov, n),
        (e is ExJumpIfNot),
    ensures
        ser_ex_jump_if_not(e, ov).0 is Some,
        parse_ex_jump_if_not(ser_ex_jump_if_not(e, ov).0->0 + r, ov, n) == KRead::Done(e, ser_ex_jump_if_not(e, ov).0->0.len()),
    decreases e, 0int,
{
    reveal(kfits);
    match e {
        KView::ExJumpIfNot { code_offset, boolean_expression } => {
            let t2 = r;
            lemma_kismet_roundtrip(*boolean_expression, ov, n, t2);
            let b1 = ser_expr(*boolean_expression, ov).0->0;
            let t1 = b1 + t2;
            lemma_kr_ints(0, code_offset, 0, 0, 0, t1);
            let b0 = ser_u32(code_offset);
            let t0 = b0 + t1;
            let s = ser_ex_jump_if_not(e, ov).0->0 + r;
            assert(s =~= t0);
            assert(rest(s, (b0.len()) as int) =~= t1);
        },
        _ => {},
    }
}

/// What an `ExAssert` that fits holds reads back, whatever follows.
#[verifier::spinoff_prover]
#[verifier::rlimit(100)]
pub proof fn lemma_rt_ex_assert(e: KView, ov: i32, n: nat, r: Seq<u8>)
    requires
        kfits(e, ov, n),
        (e is ExAssert),
    ensures
        ser_ex_assert(e, ov).0 is Some,
        parse_ex_assert(ser_ex_assert(e, ov).0->0 + r, ov, n) == KRead::Done(e, ser_ex_assert(e, ov).0->0.len()),
    decreases e, 0int,
{
    reveal(kfits);
    match e {
        KView::ExAssert { line_number, debug_mode, assert_expression } => {
            let t3 = r;
            lemma_kismet_roundtrip(*assert_expression, ov, n, t3);
            let b2 = ser_expr(*assert_expression, ov).0->0;
            let t2 = b2 + t3;
            lemma_kr_bytes(0, debug_mode, ECastToken::Max, t2);
            let b1 = seq![if debug_mode { 1u8 } else { 0u8 }];
            let t1 = b1 + t2;
            lemma_kr_ints(line_number, 0, 0, 0, 0, t1);
            let b0 = ser_u16(line_number);
            let t0 = b0 + t1;
            let s = ser_ex_assert(e, ov).0->0 + r;
            assert(s =~= t0);
            assert(rest(s, (b0.len()) as int) =~= t1);
            assert(rest(s, (b0.len() + b1.len()) as int) =~= t2);
        },
        _ => {},
    }
}

/// What an `ExLet` that fits holds reads back, whatever follows.
#[verifier::spinoff_prover]
#[verifier::rlimit(100)]
pub proof fn lemma_rt_ex_let(e: KView, ov: i32, n: nat, r: Seq<u8>)
    requires
        kfits(e, ov, n),
        (e is ExLet),
    ensures
        ser_ex_let(e, ov).0 is Some,
        parse_ex_let(ser_ex_let(e, ov).0->0 + r, ov, n) == KRead::Done(e, ser_ex_let(e, ov).0->0.len()),
    decreases e, 0int,
{
    reveal(kfits);
    match e {
        KView::ExLet { value, variable, expression } => {
            let t3 = r;
            lemma_kismet_roundtrip(*expression, ov, n, t3);
            let b2 = ser_expr(*expression, ov).0->0;
            let t2 = b2 + t3;
            lemma_kismet_roundtrip(*variable, ov, n, t2);
            let b1 = ser_expr(*variable, ov).0->0;
            let t1 = b1 + t2;
            lemma_rt_ptr(value, ov, n, t1);
            let b0 = ser_ptr(value, ov).0->0;
            let t0 = b0 + t1;
            let s = ser_ex_let(e, ov).0->0 + r;
            assert(s =~= t0);
            assert(rest(s, (b0.len()) as int) =~= t1);
            assert(rest(s, (b0.len() + b1.len()) as int) =~= t2);
        },
        _ => {},
    }
}

/// What an `ExClassContext` that fits holds reads back, whatever follows.
#[verifier::spinoff_prover]
#[verifier::rlimit(100)]
pub proof fn lemma_rt_ex_class_context(e: KView, ov: i32, n: nat, r: Seq<u8>)
    requires
        kfits(e, ov, n),
        (e is ExClassContext),
    ensures
        ser_ex_class_context(e, ov).0 is Some,
        parse_ex_class_context(ser_ex_class_context(e, ov).0->0 + r, ov, n) == KRead::Done(e, ser_ex_class_context(e, ov).0->0.len()),
    decreases e, 0int,
{
    reveal(kfits);
    match e {
        KView::ExClassContext { object_expression, offset, r_value_pointer, context_expression } => {
            let t4 = r;
            lemma_kismet_roundtrip(*context_expression, ov, n, t4);
            let b3 = ser_expr(*context_expression, ov).0->0;
            let t3 = b3 + t4;
            lemma_rt_ptr(r_value_pointer, ov, n, t3);
            let b2 = ser_ptr(r_value_pointer, ov).0->0;
            let t2 = b2 + t3;
            lemma_kr_ints(0, offset, 0, 0, 0, t2);
            let b1 = ser_u32(offset);
            let t1 = b1 + t2;
            lemma_kismet_roundtrip(*object_expression, ov, n, t1);
            let b0 = ser_expr(*object_expression, ov).0->0;
            let t0 = b0 + t1;
            let s = ser_ex_class_context(e, ov).0->0 + r;
            assert(s =~= t0);
            assert(rest(s, (b0.len()) as int) =~= t1);
            assert(rest(s, (b0.len() + b1.len()) as int) =~= t2);
            assert(rest(s, (b0.len() + b1.len() + b2.len()) as int) =~= t3);
        },
        _ => {},
    }
}

/// What an `ExMetaCast` that fits holds reads back, whatever follows.
#[verifier::spinoff_prover]
#[verifier::rlimit(100)]
pub proof fn lemma_rt_ex_meta_cast(e: KView, ov: i32, n: nat, r: Seq<u8>)
    requires
        kfits(e, ov, n),
        (e is ExMetaCast),
    ensures
        ser_ex_meta_cast(e, ov).0 is Some,
        parse_ex_meta_cast(ser_ex_meta_cast(e, ov).0->0 + r, ov, n) == KRead::Done(e, ser_ex_meta_cast(e, ov).0->0.len()),
    decreases e, 0int,
{
    reveal(kfits);
    match e {
        KView::ExMetaCast { class_ptr, target_expression } => {
            let t2 = r;
            lemma_kismet_roundtrip(*target_expression, ov, n, t2);
            let b1 = ser_expr(*target_expression, ov).0->0;
            let t1 = b1 + t2;
            lemma_kr_ints(0, 0, 0, class_ptr.index, 0, t1); assert(class_ptr == PackageIndex { index: class_ptr.index });
            let b0 = ser_i32(class_ptr.index);
            let t0 = b0 + t1;
            let s = ser_ex_meta_cast(e, ov).0->0 + r;
            assert(s =~= t0);
            assert(rest(s, (b0.len()) as int) =~= t1);
        },
        _ => {},
    }
}

/// What an `ExLetBool` that fits holds reads back, whatever follows.
#[verifier::spinoff_prover]
#[verifier::rlimit(100)]
pub proof fn lemma_rt_ex_let_bool(e: KView, ov: i32, n: nat, r: Seq<u8>)
    requires
        kfits(e, ov, n),
        (e is ExLetBool),
    ensures
        ser_ex_let_bool(e, ov).0 is Some,
        parse_ex_let_bool(ser_ex_let_bool(e, ov).0->0 + r, ov, n) == KRead::Done(e, ser_ex_let_bool(e, ov).0->0.len()),
    decreases e, 0int,
{
    reveal(kfits);
    match e {
        KView::ExLetBool { variable_expression, assignment_expression } => {
            let t2 = r;
            lemma_kismet_roundtrip(*assignment_expression, ov, n, t2);
            let b1 = ser_expr(*assignment_expression, ov).0->0;
            let t1 = b1 + t2;
            lemma_kismet_roundtrip(*variable_expression, ov, n, t1);
            let b0 = ser_expr(*variable_expression, ov).0->0;
            let t0 = b0 + t1;
            let s = ser_ex_let_bool(e, ov).0->0 + r;
            assert(s =~= t0);
            assert(rest(s, (b0.len()) as int) =~= t1);
        },
        _ => {},
    }
}

/// What an `ExSkip` that fits holds reads back, whatever follows.
#[verifier::spinoff_prover]
#[verifier::rlimit(100)]
pub proof fn lemma_rt_ex_skip(e: KView, ov: i32, n: nat, r: Seq<u8>)
    requires
        kfits(e, ov, n),
        (e is ExSkip),
    ensures
        ser_ex_skip(e, ov).0 is Some,
        parse_ex_skip(ser_ex_skip(e, ov).0->0 + r, ov, n) == KRead::Done(e, ser_ex_skip(e, ov).0->0.len()),
    decreases e, 0int,
{
    reveal(kfits);
    match e {
        KView::ExSkip { code_offset, skip_expression } => {
            let t2 = r;
            lemma_kismet_roundtrip(*skip_expression, ov, n, t2);
            let b1 = ser_expr(*skip_expression, ov).0->0;
            let t1 = b1 + t2;
            lemma_kr_ints(0, code_offset, 0, 0, 0, t1);
            let b0 = ser_u32(code_offset);
            let t0 = b0 + t1;
            let s = ser_ex_skip(e, ov).0->0 + r;
            assert(s =~= t0);
            assert(rest(s, (b0.len()) as int) =~= t1);
        },
        _ => {},
    }
}

/// What an `ExContext` that fits holds reads back, whatever follows.
#[verifier::spinoff_prover]
#[verifier::rlimit(100)]
pub proof fn lemma_rt_ex_context(e: KView, ov: i32, n: nat, r: Seq<u8>)
    requires
        kfits(e, ov, n),
        (e is ExContext),
    ensures
        ser_ex_context(e, ov).0 is Some,
        parse_ex_context(ser_ex_context(e, ov).0->0 + r, ov, n) == KRead::Done(e, ser_ex_context(e, ov).0->0.len()),
    decreases e, 0int,
{
    reveal(kfits);
    match e {
        KView::ExContext { object_expression, offset, r_value_pointer, context_expression } => {
            let t4 = r;
            lemma_kismet_roundtrip(*context_expression, ov, n, t4);
            let b3 = ser_expr(*context_expression, ov).0->0;
            let t3 = b3 + t4;
            lemma_rt_ptr(r_value_pointer, ov, n, t3);
            let b2 = ser_ptr(r_value_pointer, ov).0->0;
            let t2 = b2 + t3;
            lemma_kr_ints(0, offset, 0, 0, 0, t2);
            let b1 = ser_u32(offset);
            let t1 = b1 + t2;
            lemma_kismet_roundtrip(*object_expression, ov, n, t1);
            let b0 = ser_expr(*object_expression, ov).0->0;
            let t0 = b0 + t1;
            let s = ser_ex_context(e, ov).0->0 + r;
            assert(s =~= t0);
            assert(rest(s, (b0.len()) as int) =~= t1);
            assert(rest(s, (b0.len() + b1.len()) as int) =~= t2);
            assert(rest(s, (b0.len() + b1.len() + b2.len()) as int) =~= t3);
        },
        _ => {},
    }
}

/// What an `ExContextFailSilent` that fits holds reads back, whatever follows.
#[verifier::spinoff_prover]
#[verifier::rlimit(100)]
pub proof fn lemma_rt_ex_context_fail_silent(e: KView, ov: i32, n: nat, r: Seq<u8>)
    requires
        kfits(e, ov, n),
        (e is ExContextFailSilent),
    ensures
        ser_ex_context_fail_silent(e, ov).0 is Some,
        parse_ex_context_fail_silent(ser_ex_context_fail_silent(e, ov).0->0 + r, ov, n) == KRead::Done(e, ser_ex_context_fail_silent(e, ov).0->0.len()),
    decreases e, 0int,
{
    reveal(kfits);
    match e {
        KView::ExContextFailSilent { object_expression, offset, r_value_pointer, context_expression } => {
            let t4 = r;
            lemma_kismet_roundtrip(*context_expression, ov, n, t4);
            let b3 = ser_expr(*context_expression, ov).0->0;
            let t3 = b3 + t4;
            lemma_rt_ptr(r_value_pointer, ov, n, t3);
            let b2 = ser_ptr(r_value_pointer, ov).0->0;
            let t2 = b2 + t3;
            lemma_kr_ints(0, offset, 0, 0, 0, t2);
            let b1 = ser_u32(offset);
            let t1 = b1 + t2;
            lemma_kismet_roundtrip(*object_expression, ov, n, t1);
            let b0 = ser_expr(*object_expression, ov).0->0;
            let t0 = b0 + t1;
            let s = ser_ex_context_fail_silent(e, ov).0->0 + r;
            assert(s =~= t0);
            assert(rest(s, (b0.len()) as int) =~= t1);
            assert(rest(s, (b0.len() + b1.len()) as int) =~= t2);
            assert(rest(s, (b0.len() + b1.len() + b2.len()) as int) =~= t3);
        },
        _ => {},
    }
}

/// What an `ExVirtualFunction` that fits holds reads back, whatever follows.
#[verifier::spinoff_prover]
#[verifier::rlimit(100)]
pub proof fn lemma_rt_ex_virtual_function(e: KView, ov: i32, n: nat, r: Seq<u8>)
    requires
        kfits(e, ov, n),
        (e is ExVirtualFunction),
    ensures
        ser_ex_virtual_function(e, ov).0 is Some,
        parse_ex_virtual_function(ser_ex_virtual_function(e, ov).0->0 + r, ov, n) == KRead::Done(e, ser_ex_virtual_function(e, ov).0->0.len()),
    decreases e, 0int,
{
    reveal(kfits);
    match e {
        KView::ExVirtualFunction { virtual_function_name, parameters } => {
            let t2 = r;
            lemma_rt_list(parameters, EExprToken::ExEndFunctionParms, ov, n, t2);
            let b1 = ser_list(parameters, ov).0->0 + seq![EExprToken::ExEndFunctionParms.spec_value()];
            let t1 = b1 + t2;
            assert(ser_list(parameters, ov).0->0 + (seq![EExprToken::ExEndFunctionParms.spec_value()] + t2) =~= t1);
            lemma_kr_name(virtual_function_name, n, t1);
            let b0 = ser_fname(virtual_function_name);
            let t0 = b0 + t1;
            let s = ser_ex_virtual_function(e, ov).0->0 + r;
            assert(s =~= t0);
            assert(rest(s, (b0.len()) as int) =~= t1);
        },
        _ => {},
    }
}

} // verus!
