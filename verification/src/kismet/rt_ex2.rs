//! What expressions of one group of tokens hold reads back as it was written.

use vstd::prelude::*;
use crate::archive::{rest, ser_u16, ser_u32, ser_i32, ser_u64, ser_i64};
use crate::asset::name_map::ser_fname;
use crate::types::{NameIndex, PackageIndex, Vector};
use super::expression::{KView, PointerView};
use super::fits::{kfits, ptr_fits, list_fits};
use super::parse::{KRead, kr_ptr, kr_i32, parse_list, VER_UE4_CHANGE_SETARRAY_BYTECODE, parse_ex_add_multicast_delegate, parse_ex_array_const, parse_ex_array_get_by_ref, parse_ex_assert, parse_ex_bind_delegate, parse_ex_byte_const, parse_ex_call_math, parse_ex_call_multicast_delegate, parse_ex_class_context, parse_ex_class_sparse_data_variable, parse_ex_clear_multicast_delegate, parse_ex_computed_jump, parse_ex_context, parse_ex_context_fail_silent, parse_ex_cross_interface_cast, parse_ex_default_variable, parse_ex_dynamic_cast, parse_ex_field_path_const, parse_ex_final_function, parse_ex_float_const, parse_ex_instance_delegate, parse_ex_instance_variable, parse_ex_instrumentation_event, parse_ex_int64_const, parse_ex_int_const, parse_ex_int_const_byte, parse_ex_interface_context, parse_ex_interface_to_obj_cast, parse_ex_jump, parse_ex_jump_if_not, parse_ex_let, parse_ex_let_bool, parse_ex_let_delegate, parse_ex_let_multicast_delegate, parse_ex_let_obj, parse_ex_let_value_on_persistent_frame, parse_ex_let_weak_obj_ptr, parse_ex_local_final_function, parse_ex_local_out_variable, parse_ex_local_variable, parse_ex_local_virtual_function, parse_ex_map_const, parse_ex_meta_cast, parse_ex_name_const, parse_ex_obj_to_interface_cast, parse_ex_object_const, parse_ex_pop_execution_flow_if_not, parse_ex_primitive_cast, parse_ex_property_const, parse_ex_push_execution_flow, parse_ex_remove_multicast_delegate, parse_ex_return, parse_ex_rotation_const, parse_ex_set_array, parse_ex_set_const, parse_ex_set_map, parse_ex_set_set, parse_ex_skip, parse_ex_skip_offset_const, parse_ex_soft_object_const, parse_ex_string_const, parse_ex_struct_const, parse_ex_struct_member_context, parse_ex_switch_value, parse_ex_text_const, parse_ex_transform_const, parse_ex_uint64_const, parse_ex_unicode_string_const, parse_ex_vector_const, parse_ex_virtual_function};
use super::rt::{lemma_kismet_roundtrip, lemma_rt_ptr, lemma_rt_list, lemma_rt_text, lemma_rt_cases};
use super::rt_prim::{lemma_kr_ints, lemma_kr_bytes, lemma_kr_name, lemma_kr_vectors, lemma_kr_str, lemma_kr_ustr, lemma_instrumentation_byte};
use super::ser::{ser_body, ser_body_0, ser_body_1, ser_body_2, ser_body_3, ser_body_4, ser_cases, ser_ex_add_multicast_delegate, ser_ex_array_const, ser_ex_array_get_by_ref, ser_ex_assert, ser_ex_bind_delegate, ser_ex_byte_const, ser_ex_call_math, ser_ex_call_multicast_delegate, ser_ex_class_context, ser_ex_class_sparse_data_variable, ser_ex_clear_multicast_delegate, ser_ex_computed_jump, ser_ex_context, ser_ex_context_fail_silent, ser_ex_cross_interface_cast, ser_ex_default_variable, ser_ex_dynamic_cast, ser_ex_field_path_const, ser_ex_final_function, ser_ex_float_const, ser_ex_instance_delegate, ser_ex_instance_variable, ser_ex_instrumentation_event, ser_ex_int64_const, ser_ex_int_const, ser_ex_int_const_byte, ser_ex_interface_context, ser_ex_interface_to_obj_cast, ser_ex_jump, ser_ex_jump_if_not, ser_ex_let, ser_ex_let_bool, ser_ex_let_delegate, ser_ex_let_multicast_delegate, ser_ex_let_obj, ser_ex_let_value_on_persistent_frame, ser_ex_let_weak_obj_ptr, ser_ex_local_final_function, ser_ex_local_out_variable, ser_ex_local_variable, ser_ex_local_virtual_function, ser_ex_map_const, ser_ex_meta_cast, ser_ex_name_const, ser_ex_obj_to_interface_cast, ser_ex_object_const, ser_ex_pop_execution_flow_if_not, ser_ex_primitive_cast, ser_ex_property_const, ser_ex_push_execution_flow, ser_ex_remove_multicast_delegate, ser_ex_return, ser_ex_rotation_const, ser_ex_set_array, ser_ex_set_const, ser_ex_set_map, ser_ex_set_set, ser_ex_skip, ser_ex_skip_offset_const, ser_ex_soft_object_const, ser_ex_string_const, ser_ex_struct_const, ser_ex_struct_member_context, ser_ex_switch_value, ser_ex_text_const, ser_ex_transform_const, ser_ex_uint64_const, ser_ex_unicode_string_const, ser_ex_vector_const, ser_ex_virtual_function, ser_expr, ser_kstr, ser_kustr, ser_list, ser_names, ser_opt, ser_ptr, ser_rot4, ser_text, ser_vec3, wcat, wlit};
use super::tokens::{EExprToken, ECastToken, EScriptInstrumentationType};

verus! {

/// What an `ExStructConst` that fits holds reads back, whatever follows.
#[verifier::spinoff_prover]
#[verifier::rlimit(100)]
pub proof fn lemma_rt_ex_struct_const(e: KView, ov: i32, n: nat, r: Seq<u8>)
    requires
        kfits(e, ov, n),
        (e is ExStructConst),
    ensures
        ser_ex_struct_const(e, ov).0 is Some,
        parse_ex_struct_const(ser_ex_struct_const(e, ov).0->0 + r, ov, n) == KRead::Done(e, ser_ex_struct_const(e, ov).0->0.len()),
    decreases e, 0int,
{
    reveal(kfits);
    match e {
        KView::ExStructConst { struct_value, struct_size, value } => {
            let t3 = r;
            lemma_rt_list(value, EExprToken::ExEndStructConst, ov, n, t3);
            let b2 = ser_list(value, ov).0->0 + seq![EExprToken::ExEndStructConst.spec_value()];
            let t2 = b2 + t3;
            assert(ser_list(value, ov).0->0 + (seq![EExprToken::ExEndStructConst.spec_value()] + t3) =~= t2);
            lemma_kr_ints(0, 0, 0, struct_size, 0, t2);
            let b1 = ser_i32(struct_size);
            let t1 = b1 + t2;
            lemma_kr_ints(0, 0, 0, struct_value.index, 0, t1); assert(struct_value == PackageIndex { index: struct_value.index });
            let b0 = ser_i32(struct_value.index);
            let t0 = b0 + t1;
            let s = ser_ex_struct_const(e, ov).0->0 + r;
            assert(s =~= t0);
            assert(rest(s, (b0.len()) as int) =~= t1);
            assert(rest(s, (b0.len() + b1.len()) as int) =~= t2);
        },
        _ => {},
    }
}

/// What an `ExSetArray` that fits holds reads back, whatever follows.
#[verifier::spinoff_prover]
#[verifier::rlimit(100)]
pub proof fn lemma_rt_ex_set_array(e: KView, ov: i32, n: nat, r: Seq<u8>)
    requires
        kfits(e, ov, n),
        (e is ExSetArray),
    ensures
        ser_ex_set_array(e, ov).0 is Some,
        parse_ex_set_array(ser_ex_set_array(e, ov).0->0 + r, ov, n) == KRead::Done(e, ser_ex_set_array(e, ov).0->0.len()),
    decreases e, 0int,
{
    reveal(kfits);
    match e {
        KView::ExSetArray { assigning_property, array_inner_prop, elements } => {
            let eb = seq![EExprToken::ExEndArray.spec_value()];
            lemma_rt_list(elements, EExprToken::ExEndArray, ov, n, r);
            let b1 = ser_list(elements, ov).0->0 + eb;
            let t1 = b1 + r;
            assert(ser_list(elements, ov).0->0 + (eb + r) =~= t1);
            let s = ser_ex_set_array(e, ov).0->0 + r;
            if ov >= VER_UE4_CHANGE_SETARRAY_BYTECODE {
                let x = assigning_property->0;
                lemma_kismet_roundtrip(*x, ov, n, t1);
                let b0 = ser_expr(*x, ov).0->0;
                assert(s =~= b0 + t1);
                assert(rest(s, b0.len() as int) =~= t1);
            } else {
                let i = array_inner_prop->0;
                lemma_kr_ints(0, 0, 0, i.index, 0, t1);
                assert(s =~= ser_i32(i.index) + t1);
                assert(rest(s, 4) =~= t1);
                assert(i == PackageIndex { index: i.index });
            }
        },
        _ => {},
    }
}

/// What an `ExPropertyConst` that fits holds reads back, whatever follows.
#[verifier::spinoff_prover]
#[verifier::rlimit(100)]
pub proof fn lemma_rt_ex_property_const(e: KView, ov: i32, n: nat, r: Seq<u8>)
    requires
        kfits(e, ov, n),
        (e is ExPropertyConst),
    ensures
        ser_ex_property_const(e, ov).0 is Some,
        parse_ex_property_const(ser_ex_property_const(e, ov).0->0 + r, ov, n) == KRead::Done(e, ser_ex_property_const(e, ov).0->0.len()),
    decreases e, 0int,
{
    reveal(kfits);
    match e {
        KView::ExPropertyConst { property } => {
            let t1 = r;
            lemma_rt_ptr(property, ov, n, t1);
            let b0 = ser_ptr(property, ov).0->0;
            let t0 = b0 + t1;
            let s = ser_ex_property_const(e, ov).0->0 + r;
            assert(s =~= t0);
        },
        _ => {},
    }
}

/// What an `ExUnicodeStringConst` that fits holds reads back, whatever follows.
#[verifier::spinoff_prover]
#[verifier::rlimit(100)]
pub proof fn lemma_rt_ex_unicode_string_const(e: KView, ov: i32, n: nat, r: Seq<u8>)
    requires
        kfits(e, ov, n),
        (e is ExUnicodeStringConst),
    ensures
        ser_ex_unicode_string_const(e, ov).0 is Some,
        parse_ex_unicode_string_const(ser_ex_unicode_string_const(e, ov).0->0 + r, ov, n) == KRead::Done(e, ser_ex_unicode_string_const(e, ov).0->0.len()),
    decreases e, 0int,
{
    reveal(kfits);
    match e {
        KView::ExUnicodeStringConst { value } => {
            let t1 = r;
            lemma_kr_ustr(value, t1);
            let b0 = ser_kustr(value).0->0;
            let t0 = b0 + t1;
            let s = ser_ex_unicode_string_const(e, ov).0->0 + r;
            assert(s =~= t0);
        },
        _ => {},
    }
}

/// What an `ExInt64Const` that fits holds reads back, whatever follows.
#[verifier::spinoff_prover]
#[verifier::rlimit(100)]
pub proof fn lemma_rt_ex_int64_const(e: KView, ov: i32, n: nat, r: Seq<u8>)
    requires
        kfits(e, ov, n),
        (e is ExInt64Const),
    ensures
        ser_ex_int64_const(e, ov).0 is Some,
        parse_ex_int64_const(ser_ex_int64_const(e, ov).0->0 + r, ov, n) == KRead::Done(e, ser_ex_int64_const(e, ov).0->0.len()),
    decreases e, 0int,
{
    reveal(kfits);
    match e {
        KView::ExInt64Const { value } => {
            let t1 = r;
            lemma_kr_ints(0, 0, 0, 0, value, t1);
            let b0 = ser_i64(value);
            let t0 = b0 + t1;
            let s = ser_ex_int64_const(e, ov).0->0 + r;
            assert(s =~= t0);
        },
        _ => {},
    }
}

/// What an `ExUInt64Const` that fits holds reads back, whatever follows.
#[verifier::spinoff_prover]
#[verifier::rlimit(100)]
pub proof fn lemma_rt_ex_uint64_const(e: KView, ov: i32, n: nat, r: Seq<u8>)
    requires
        kfits(e, ov, n),
        (e is ExUInt64Const),
    ensures
        ser_ex_uint64_const(e, ov).0 is Some,
        parse_ex_uint64_const(ser_ex_uint64_const(e, ov).0->0 + r, ov, n) == KRead::Done(e, ser_ex_uint64_const(e, ov).0->0.len()),
    decreases e, 0int,
{
    reveal(kfits);
    match e {
        KView::ExUInt64Const { value } => {
            let t1 = r;
            lemma_kr_ints(0, 0, value, 0, 0, t1);
            let b0 = ser_u64(value);
            let t0 = b0 + t1;
            let s = ser_ex_uint64_const(e, ov).0->0 + r;
            assert(s =~= t0);
        },
        _ => {},
    }
}

/// What an `ExPrimitiveCast` that fits holds reads back, whatever follows.
#[verifier::spinoff_prover]
#[verifier::rlimit(100)]
pub proof fn lemma_rt_ex_primitive_cast(e: KView, ov: i32, n: nat, r: Seq<u8>)
    requires
        kfits(e, ov, n),
        (e is ExPrimitiveCast),
    ensures
        ser_ex_primitive_cast(e, ov).0 is Some,
        parse_ex_primitive_cast(ser_ex_primitive_cast(e, ov).0->0 + r, ov, n) == KRead::Done(e, ser_ex_primitive_cast(e, ov).0->0.len()),
    decreases e, 0int,
{
    reveal(kfits);
    match e {
        KView::ExPrimitiveCast { conversion_type, target } => {
            let t2 = r;
            lemma_kismet_roundtrip(*target, ov, n, t2);
            let b1 = ser_expr(*target, ov).0->0;
            let t1 = b1 + t2;
            lemma_kr_bytes(0, false, conversion_type, t1);
            let b0 = seq![conversion_type.spec_value()];
            let t0 = b0 + t1;
            let s = ser_ex_primitive_cast(e, ov).0->0 + r;
            assert(s =~= t0);
            assert(rest(s, (b0.len()) as int) =~= t1);
        },
        _ => {},
    }
}

/// What an `ExSetSet` that fits holds reads back, whatever follows.
#[verifier::spinoff_prover]
#[verifier::rlimit(100)]
pub proof fn lemma_rt_ex_set_set(e: KView, ov: i32, n: nat, r: Seq<u8>)
    requires
        kfits(e, ov, n),
        (e is ExSetSet),
    ensures
        ser_ex_set_set(e, ov).0 is Some,
        parse_ex_set_set(ser_ex_set_set(e, ov).0->0 + r, ov, n) == KRead::Done(e, ser_ex_set_set(e, ov).0->0.len()),
    decreases e, 0int,
{
    reveal(kfits);
    match e {
        KView::ExSetSet { set_property, elements } => {
            let t3 = r;
            lemma_rt_list(elements, EExprToken::ExEndSet, ov, n, t3);
            let b2 = ser_list(elements, ov).0->0 + seq![EExprToken::ExEndSet.spec_value()];
            let t2 = b2 + t3;
            assert(ser_list(elements, ov).0->0 + (seq![EExprToken::ExEndSet.spec_value()] + t3) =~= t2);
            lemma_kr_ints(0, 0, 0, elements.len() as i32, 0, t2);
            let b1 = ser_i32(elements.len() as i32);
            let t1 = b1 + t2;
            lemma_kismet_roundtrip(*set_property, ov, n, t1);
            let b0 = ser_expr(*set_property, ov).0->0;
            let t0 = b0 + t1;
            let s = ser_ex_set_set(e, ov).0->0 + r;
            assert(s =~= t0);
            assert(rest(s, (b0.len()) as int) =~= t1);
            assert(rest(s, (b0.len() + b1.len()) as int) =~= t2);
        },
        _ => {},
    }
}

/// What an `ExSetMap` that fits holds reads back, whatever follows.
#[verifier::spinoff_prover]
#[verifier::rlimit(100)]
pub proof fn lemma_rt_ex_set_map(e: KView, ov: i32, n: nat, r: Seq<u8>)
    requires
        kfits(e, ov, n),
        (e is ExSetMap),
    ensures
        ser_ex_set_map(e, ov).0 is Some,
        parse_ex_set_map(ser_ex_set_map(e, ov).0->0 + r, ov, n) == KRead::Done(e, ser_ex_set_map(e, ov).0->0.len()),
    decreases e, 0int,
{
    reveal(kfits);
    match e {
        KView::ExSetMap { map_property, elements } => {
            let t3 = r;
            lemma_rt_list(elements, EExprToken::ExEndMap, ov, n, t3);
            let b2 = ser_list(elements, ov).0->0 + seq![EExprToken::ExEndMap.spec_value()];
            let t2 = b2 + t3;
            assert(ser_list(elements, ov).0->0 + (seq![EExprToken::ExEndMap.spec_value()] + t3) =~= t2);
            lemma_kr_ints(0, 0, 0, elements.len() as i32, 0, t2);
            let b1 = ser_i32(elements.len() as i32);
            let t1 = b1 + t2;
            lemma_kismet_roundtrip(*map_property, ov, n, t1);
            let b0 = ser_expr(*map_property, ov).0->0;
            let t0 = b0 + t1;
            let s = ser_ex_set_map(e, ov).0->0 + r;
            assert(s =~= t0);
            assert(rest(s, (b0.len()) as int) =~= t1);
            assert(rest(s, (b0.len() + b1.len()) as int) =~= t2);
        },
        _ => {},
    }
}

/// What an `ExSetConst` that fits holds reads back, whatever follows.
#[verifier::spinoff_prover]
#[verifier::rlimit(100)]
pub proof fn lemma_rt_ex_set_const(e: KView, ov: i32, n: nat, r: Seq<u8>)
    requires
        kfits(e, ov, n),
        (e is ExSetConst),
    ensures
        ser_ex_set_const(e, ov).0 is Some,
        parse_ex_set_const(ser_ex_set_const(e, ov).0->0 + r, ov, n) == KRead::Done(e, ser_ex_set_const(e, ov).0->0.len()),
    decreases e, 0int,
{
    reveal(kfits);
    match e {
        KView::ExSetConst { inner_property, elements } => {
            let t3 = r;
            lemma_rt_list(elements, EExprToken::ExEndSetConst, ov, n, t3);
            let b2 = ser_list(elements, ov).0->0 + seq![EExprToken::ExEndSetConst.spec_value()];
            let t2 = b2 + t3;
            assert(ser_list(elements, ov).0->0 + (seq![EExprToken::ExEndSetConst.spec_value()] + t3) =~= t2);
            lemma_kr_ints(0, 0, 0, elements.len() as i32, 0, t2);
            let b1 = ser_i32(elements.len() as i32);
            let t1 = b1 + t2;
            lemma_rt_ptr(inner_property, ov, n, t1);
            let b0 = ser_ptr(inner_property, ov).0->0;
            let t0 = b0 + t1;
            let s = ser_ex_set_const(e, ov).0->0 + r;
            assert(s =~= t0);
            assert(rest(s, (b0.len()) as int) =~= t1);
            assert(rest(s, (b0.len() + b1.len()) as int) =~= t2);
        },
        _ => {},
    }
}

/// The parts of an `ExMapConst` that fit read back, whatever follows.
#[verifier::spinoff_prover]
#[verifier::rlimit(100)]
proof fn lemma_rt_map_parts(key_property: PointerView, value_property: PointerView, elements: Seq<KView>, ov: i32, n: nat, r: Seq<u8>)
    requires
        ptr_fits(key_property, ov, n),
        ptr_fits(value_property, ov, n),
        list_fits(elements, EExprToken::ExEndMapConst, ov, n),
    ensures
        ser_ex_map_const((KView::ExMapConst { key_property, value_property, elements }), ov).0 is Some,
        parse_ex_map_const(ser_ex_map_const((KView::ExMapConst { key_property, value_property, elements }), ov).0->0 + r, ov, n)
            == KRead::Done((KView::ExMapConst { key_property, value_property, elements }),
                ser_ex_map_const((KView::ExMapConst { key_property, value_property, elements }), ov).0->0.len()),
    decreases elements, 1int,
{
    let e = KView::ExMapConst { key_property, value_property, elements };
    let t4 = r;
    lemma_rt_list(elements, EExprToken::ExEndMapConst, ov, n, t4);
    let b3 = ser_list(elements, ov).0->0 + seq![EExprToken::ExEndMapConst.spec_value()];
    let t3 = b3 + t4;
    assert(ser_list(elements, ov).0->0 + (seq![EExprToken::ExEndMapConst.spec_value()] + t4) =~= t3);
    lemma_kr_ints(0, 0, 0, elements.len() as i32, 0, t3);
    let b2 = ser_i32(elements.len() as i32);
    let t2 = b2 + t3;
    lemma_rt_ptr(value_property, ov, n, t2);
    let b1 = ser_ptr(value_property, ov).0->0;
    let t1 = b1 + t2;
    lemma_rt_ptr(key_property, ov, n, t1);
    let b0 = ser_ptr(key_property, ov).0->0;
    let t0 = b0 + t1;
    let s = ser_ex_map_const(e, ov).0->0 + r;
    assert(s =~= t0);
    assert(rest(s, (b0.len()) as int) =~= t1);
    assert(rest(s, (b0.len() + b1.len()) as int) =~= t2);
    assert(rest(s, (b0.len() + b1.len() + b2.len()) as int) =~= t3);
}

/// What an `ExMapConst` that fits holds reads back, whatever follows.
pub proof fn lemma_rt_ex_map_const(e: KView, ov: i32, n: nat, r: Seq<u8>)
    requires
        kfits(e, ov, n),
        (e is ExMapConst),
    ensures
        ser_ex_map_const(e, ov).0 is Some,
        parse_ex_map_const(ser_ex_map_const(e, ov).0->0 + r, ov, n) == KRead::Done(e, ser_ex_map_const(e, ov).0->0.len()),
    decreases e, 0int,
{
    reveal(kfits);
    match e {
        KView::ExMapConst { key_property, value_property, elements } => {
            lemma_rt_map_parts(key_property, value_property, elements, ov, n, r);
        },
        _ => {},
    }
}

/// What an `ExStructMemberContext` that fits holds reads back, whatever follows.
#[verifier::spinoff_prover]
#[verifier::rlimit(100)]
pub proof fn lemma_rt_ex_struct_member_context(e: KView, ov: i32, n: nat, r: Seq<u8>)
    requires
        kfits(e, ov, n),
        (e is ExStructMemberContext),
    ensures
        ser_ex_struct_member_context(e, ov).0 is Some,
        parse_ex_struct_member_context(ser_ex_struct_member_context(e, ov).0->0 + r, ov, n) == KRead::Done(e, ser_ex_struct_member_context(e, ov).0->0.len()),
    decreases e, 0int,
{
    reveal(kfits);
    match e {
        KView::ExStructMemberContext { struct_member_expression, struct_expression } => {
            let t2 = r;
            lemma_kismet_roundtrip(*struct_expression, ov, n, t2);
            let b1 = ser_expr(*struct_expression, ov).0->0;
            let t1 = b1 + t2;
            lemma_rt_ptr(struct_member_expression, ov, n, t1);
            let b0 = ser_ptr(struct_member_expression, ov).0->0;
            let t0 = b0 + t1;
            let s = ser_ex_struct_member_context(e, ov).0->0 + r;
            assert(s =~= t0);
            assert(rest(s, (b0.len()) as int) =~= t1);
        },
        _ => {},
    }
}

} // verus!
