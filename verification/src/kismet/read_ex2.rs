//! Reading what the expressions of one group of tokens hold.

use vstd::prelude::*;
use crate::archive::{ByteReader, rest, lemma_advance, u16_at, u32_at, u64_at, units_of};
use crate::asset::name_map::NameMap;
use crate::engine_version::VER_UE4_ADDED_PACKAGE_OWNER;
use crate::error::{Error, IoErrorKind, KismetError};
use crate::strings::{string_from_utf8, string_from_utf16};
use crate::types::{NameIndex, PackageIndex, Vector};
use super::expression::{
    KismetExpression, KView, KismetPropertyPointer, FieldPath, FScriptText, KismetSwitchCase, views, case_views,
    PointerView, TextView, SwitchCaseView,
};
use super::parse::{
    KRead, KErr, VER_UE4_CHANGE_SETARRAY_BYTECODE, body_group, first_zero, first_zero_pair, kr_boolb,
    kr_cast, kr_f32, kr_i32, kr_i64, kr_idx, kr_name,
    kr_names, kr_ptr, kr_rot4, kr_str, kr_u16, kr_u32,
    kr_u64, kr_u8, kr_ustr, kr_vec3, parse_body, parse_body_0,
    parse_body_1, parse_body_2, parse_body_3, parse_body_4, parse_case, parse_cases,
    parse_ex_add_multicast_delegate, parse_ex_array_const, parse_ex_array_get_by_ref, parse_ex_assert, parse_ex_bind_delegate, parse_ex_byte_const,
    parse_ex_call_math, parse_ex_call_multicast_delegate, parse_ex_class_context, parse_ex_class_sparse_data_variable, parse_ex_clear_multicast_delegate, parse_ex_computed_jump,
    parse_ex_context, parse_ex_context_fail_silent, parse_ex_cross_interface_cast, parse_ex_default_variable, parse_ex_dynamic_cast, parse_ex_field_path_const,
    parse_ex_final_function, parse_ex_float_const, parse_ex_instance_delegate, parse_ex_instance_variable, parse_ex_instrumentation_event, parse_ex_int64_const,
    parse_ex_int_const, parse_ex_int_const_byte, parse_ex_interface_context, parse_ex_interface_to_obj_cast, parse_ex_jump, parse_ex_jump_if_not,
    parse_ex_let, parse_ex_let_bool, parse_ex_let_delegate, parse_ex_let_multicast_delegate, parse_ex_let_obj, parse_ex_let_value_on_persistent_frame,
    parse_ex_let_weak_obj_ptr, parse_ex_local_final_function, parse_ex_local_out_variable, parse_ex_local_variable, parse_ex_local_virtual_function, parse_ex_map_const,
    parse_ex_meta_cast, parse_ex_name_const, parse_ex_obj_to_interface_cast, parse_ex_object_const, parse_ex_pop_execution_flow_if_not, parse_ex_primitive_cast,
    parse_ex_property_const, parse_ex_push_execution_flow, parse_ex_remove_multicast_delegate, parse_ex_return, parse_ex_rotation_const, parse_ex_set_array,
    parse_ex_set_const, parse_ex_set_map, parse_ex_set_set, parse_ex_skip, parse_ex_skip_offset_const, parse_ex_soft_object_const,
    parse_ex_string_const, parse_ex_struct_const, parse_ex_struct_member_context, parse_ex_switch_value, parse_ex_text_const, parse_ex_transform_const,
    parse_ex_uint64_const, parse_ex_unicode_string_const, parse_ex_vector_const, parse_ex_virtual_function, parse_expr, parse_list,
    parse_text,
};
use super::tokens::{EExprToken, ECastToken, EScriptInstrumentationType, EBlueprintTextLiteralType};

use super::read::{got, got_expr, err_of, is_eof_error, kstepped, lemma_first_zero, lemma_first_zero_pair, lemma_list_after_push, lemma_list_after_skip, lemma_list_step, lemma_names_stuck, lemma_views_push, list_after, read_boolb, read_cast, read_f32, read_i32, read_i64, read_idx, read_kismet_string, read_kismet_unicode_string, read_name, read_names, read_rot4, read_u16, read_u32, read_u64, read_u8, read_vec3, token_error};
use super::read_misc::read_case;
use super::read_cases::read_cases;

verus! {
/// Read what an `ExStructConst` holds.
#[verifier::spinoff_prover]
#[verifier::rlimit(50)]
pub fn read_ex_struct_const(reader: &mut ByteReader, name_map: &NameMap, ov: i32) -> (res: Result<KismetExpression, Error>)
    ensures
        kstepped(*old(reader), *final(reader), got_expr(res), err_of(res),
            parse_ex_struct_const(old(reader).remaining(), ov, name_map.names().len())),
    decreases old(reader).remaining().len(), 2int, 0int,
{
    let ghost r0 = *reader;
    let struct_value = read_idx(reader)?;
    proof { lemma_advance(r0, *reader); }
    let struct_size = read_i32(reader)?;
    proof { lemma_advance(r0, *reader); }
    let value = KismetExpression::read_arr(reader, name_map, ov, EExprToken::ExEndStructConst)?;
    Ok(KismetExpression::ExStructConst { struct_value, struct_size, value })
}

/// Read what an `ExSetArray` holds.
#[verifier::spinoff_prover]
#[verifier::rlimit(50)]
pub fn read_ex_set_array(reader: &mut ByteReader, name_map: &NameMap, ov: i32) -> (res: Result<KismetExpression, Error>)
    ensures
        kstepped(*old(reader), *final(reader), got_expr(res), err_of(res),
            parse_ex_set_array(old(reader).remaining(), ov, name_map.names().len())),
    decreases old(reader).remaining().len(), 2int, 0int,
{
    let ghost r0 = *reader;
    if ov >= VER_UE4_CHANGE_SETARRAY_BYTECODE {
        let a = KismetExpression::new(reader, name_map, ov)?;
        proof { lemma_advance(r0, *reader); }
        let elements = KismetExpression::read_arr(reader, name_map, ov, EExprToken::ExEndArray)?;
        Ok(KismetExpression::ExSetArray { assigning_property: Some(Box::new(a)), array_inner_prop: None, elements })
    } else {
        let i = read_idx(reader)?;
        proof { lemma_advance(r0, *reader); }
        let elements = KismetExpression::read_arr(reader, name_map, ov, EExprToken::ExEndArray)?;
        Ok(KismetExpression::ExSetArray { assigning_property: None, array_inner_prop: Some(i), elements })
    }
}

/// Read what an `ExPropertyConst` holds.
#[verifier::spinoff_prover]
#[verifier::rlimit(50)]
pub fn read_ex_property_const(reader: &mut ByteReader, name_map: &NameMap, ov: i32) -> (res: Result<KismetExpression, Error>)
    ensures
        kstepped(*old(reader), *final(reader), got_expr(res), err_of(res),
            parse_ex_property_const(old(reader).remaining(), ov, name_map.names().len())),
    decreases old(reader).remaining().len(), 2int, 0int,
{
    let ghost r0 = *reader;
    let property = KismetPropertyPointer::new(reader, name_map, ov)?;
    Ok(KismetExpression::ExPropertyConst { property })
}

/// Read what an `ExUnicodeStringConst` holds.
#[verifier::spinoff_prover]
#[verifier::rlimit(50)]
pub fn read_ex_unicode_string_const(reader: &mut ByteReader, name_map: &NameMap, ov: i32) -> (res: Result<KismetExpression, Error>)
    ensures
        kstepped(*old(reader), *final(reader), got_expr(res), err_of(res),
            parse_ex_unicode_string_const(old(reader).remaining(), ov, name_map.names().len())),
    decreases old(reader).remaining().len(), 2int, 0int,
{
    let ghost r0 = *reader;
    let value = read_kismet_unicode_string(reader)?;
    Ok(KismetExpression::ExUnicodeStringConst { value })
}

/// Read what an `ExInt64Const` holds.
#[verifier::spinoff_prover]
#[verifier::rlimit(50)]
pub fn read_ex_int64_const(reader: &mut ByteReader, name_map: &NameMap, ov: i32) -> (res: Result<KismetExpression, Error>)
    ensures
        kstepped(*old(reader), *final(reader), got_expr(res), err_of(res),
            parse_ex_int64_const(old(reader).remaining(), ov, name_map.names().len())),
    decreases old(reader).remaining().len(), 2int, 0int,
{
    let ghost r0 = *reader;
    let value = read_i64(reader)?;
    Ok(KismetExpression::ExInt64Const { value })
}

/// Read what an `ExUInt64Const` holds.
#[verifier::spinoff_prover]
#[verifier::rlimit(50)]
pub fn read_ex_uint64_const(reader: &mut ByteReader, name_map: &NameMap, ov: i32) -> (res: Result<KismetExpression, Error>)
    ensures
        kstepped(*old(reader), *final(reader), got_expr(res), err_of(res),
            parse_ex_uint64_const(old(reader).remaining(), ov, name_map.names().len())),
    decreases old(reader).remaining().len(), 2int, 0int,
{
    let ghost r0 = *reader;
    let value = read_u64(reader)?;
    Ok(KismetExpression::ExUInt64Const { value })
}

/// Read what an `ExPrimitiveCast` holds.
#[verifier::spinoff_prover]
#[verifier::rlimit(50)]
pub fn read_ex_primitive_cast(reader: &mut ByteReader, name_map: &NameMap, ov: i32) -> (res: Result<KismetExpression, Error>)
    ensures
        kstepped(*old(reader), *final(reader), got_expr(res), err_of(res),
            parse_ex_primitive_cast(old(reader).remaining(), ov, name_map.names().len())),
        old(reader).remaining().len() >= 1 && ECastToken::spec_from_u8(old(reader).remaining()[0]) is None
            ==> (res matches Err(Error::InvalidEnumValue(m)) && m@ == "ECastToken"@),
    decreases old(reader).remaining().len(), 2int, 0int,
{
    let ghost r0 = *reader;
    let conversion_type = read_cast(reader)?;
    proof { lemma_advance(r0, *reader); }
    let target = KismetExpression::new(reader, name_map, ov)?;
    Ok(KismetExpression::ExPrimitiveCast { conversion_type, target: Box::new(target) })
}

/// Read what an `ExSetSet` holds.
#[verifier::spinoff_prover]
#[verifier::rlimit(50)]
pub fn read_ex_set_set(reader: &mut ByteReader, name_map: &NameMap, ov: i32) -> (res: Result<KismetExpression, Error>)
    ensures
        kstepped(*old(reader), *final(reader), got_expr(res), err_of(res),
            parse_ex_set_set(old(reader).remaining(), ov, name_map.names().len())),
    decreases old(reader).remaining().len(), 2int, 0int,
{
    let ghost r0 = *reader;
    let set_property = KismetExpression::new(reader, name_map, ov)?;
    proof { lemma_advance(r0, *reader); }
    let _count = read_i32(reader)?;
    proof { lemma_advance(r0, *reader); }
    let elements = KismetExpression::read_arr(reader, name_map, ov, EExprToken::ExEndSet)?;
    Ok(KismetExpression::ExSetSet { set_property: Box::new(set_property), elements })
}

/// Read what an `ExSetMap` holds.
#[verifier::spinoff_prover]
#[verifier::rlimit(50)]
pub fn read_ex_set_map(reader: &mut ByteReader, name_map: &NameMap, ov: i32) -> (res: Result<KismetExpression, Error>)
    ensures
        kstepped(*old(reader), *final(reader), got_expr(res), err_of(res),
            parse_ex_set_map(old(reader).remaining(), ov, name_map.names().len())),
    decreases old(reader).remaining().len(), 2int, 0int,
{
    let ghost r0 = *reader;
    let map_property = KismetExpression::new(reader, name_map, ov)?;
    proof { lemma_advance(r0, *reader); }
    let _count = read_i32(reader)?;
    proof { lemma_advance(r0, *reader); }
    let elements = KismetExpression::read_arr(reader, name_map, ov, EExprToken::ExEndMap)?;
    Ok(KismetExpression::ExSetMap { map_property: Box::new(map_property), elements })
}

/// Read what an `ExSetConst` holds.
#[verifier::spinoff_prover]
#[verifier::rlimit(50)]
pub fn read_ex_set_const(reader: &mut ByteReader, name_map: &NameMap, ov: i32) -> (res: Result<KismetExpression, Error>)
    ensures
        kstepped(*old(reader), *final(reader), got_expr(res), err_of(res),
            parse_ex_set_const(old(reader).remaining(), ov, name_map.names().len())),
    decreases old(reader).remaining().len(), 2int, 0int,
{
    let ghost r0 = *reader;
    let inner_property = KismetPropertyPointer::new(reader, name_map, ov)?;
    proof { lemma_advance(r0, *reader); }
    let _count = read_i32(reader)?;
    proof { lemma_advance(r0, *reader); }
    let elements = KismetExpression::read_arr(reader, name_map, ov, EExprToken::ExEndSetConst)?;
    Ok(KismetExpression::ExSetConst { inner_property, elements })
}

/// Read what an `ExMapConst` holds.
#[verifier::spinoff_prover]
#[verifier::rlimit(50)]
pub fn read_ex_map_const(reader: &mut ByteReader, name_map: &NameMap, ov: i32) -> (res: Result<KismetExpression, Error>)
    ensures
        kstepped(*old(reader), *final(reader), got_expr(res), err_of(res),
            parse_ex_map_const(old(reader).remaining(), ov, name_map.names().len())),
    decreases old(reader).remaining().len(), 2int, 0int,
{
    let ghost r0 = *reader;
    let key_property = KismetPropertyPointer::new(reader, name_map, ov)?;
    proof { lemma_advance(r0, *reader); }
    let value_property = KismetPropertyPointer::new(reader, name_map, ov)?;
    proof { lemma_advance(r0, *reader); }
    let _count = read_i32(reader)?;
    proof { lemma_advance(r0, *reader); }
    let elements = KismetExpression::read_arr(reader, name_map, ov, EExprToken::ExEndMapConst)?;
    Ok(KismetExpression::ExMapConst { key_property, value_property, elements })
}

/// Read what an `ExStructMemberContext` holds.
#[verifier::spinoff_prover]
#[verifier::rlimit(50)]
pub fn read_ex_struct_member_context(reader: &mut ByteReader, name_map: &NameMap, ov: i32) -> (res: Result<KismetExpression, Error>)
    ensures
        kstepped(*old(reader), *final(reader), got_expr(res), err_of(res),
            parse_ex_struct_member_context(old(reader).remaining(), ov, name_map.names().len())),
    decreases old(reader).remaining().len(), 2int, 0int,
{
    let ghost r0 = *reader;
    let struct_member_expression = KismetPropertyPointer::new(reader, name_map, ov)?;
    proof { lemma_advance(r0, *reader); }
    let struct_expression = KismetExpression::new(reader, name_map, ov)?;
    Ok(KismetExpression::ExStructMemberContext { struct_member_expression, struct_expression: Box::new(struct_expression) })
}


} // verus!
