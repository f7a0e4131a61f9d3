//! Reading what the expressions of one group of tokens hold.

use vstd::prelude::*;
use crate::archive::{ByteReader, rest, lemma_advance, u16_at, u32_at, u64_at, units_of};
use crate::asset::name_map::NameMap;
use crate::engine_version::VER_UE4_ADDED_PACKAGE_OWNER;
use crate::error::{Error, IoErrorKind, KismetError};
use crate::strings::{string_from_utf8, string_from_utf16};
use crate::types::{NameIndex, PackageIndex, Vector};
use super::expression::{
    KismetExpression, KView, KismetPropertyPointer, FieldPath, FScriptText, KismetSwitchCase, views, case_views,
    PointerView, TextView, SwitchCaseView,
};
use super::parse::{
    KRead, KErr, VER_UE4_CHANGE_SETARRAY_BYTECODE, body_group, first_zero, first_zero_pair, kr_boolb,
    kr_cast, kr_f32, kr_i32, kr_i64, kr_idx, kr_name,
    kr_names, kr_ptr, kr_rot4, kr_str, kr_u16, kr_u32,
    kr_u64, kr_u8, kr_ustr, kr_vec3, parse_body, parse_body_0,
    parse_body_1, parse_body_2, parse_body_3, parse_body_4, parse_case, parse_cases,
    parse_ex_add_multicast_delegate, parse_ex_array_const, parse_ex_array_get_by_ref, parse_ex_assert, parse_ex_bind_delegate, parse_ex_byte_const,
    parse_ex_call_math, parse_ex_call_multicast_delegate, parse_ex_class_context, parse_ex_class_sparse_data_variable, parse_ex_clear_multicast_delegate, parse_ex_computed_jump,
    parse_ex_context, parse_ex_context_fail_silent, parse_ex_cross_interface_cast, parse_ex_default_variable, parse_ex_dynamic_cast, parse_ex_field_path_const,
    parse_ex_final_function, parse_ex_float_const, parse_ex_instance_delegate, parse_ex_instance_variable, parse_ex_instrumentation_event, parse_ex_int64_const,
    parse_ex_int_const, parse_ex_int_const_byte, parse_ex_interface_context, parse_ex_interface_to_obj_cast, parse_ex_jump, parse_ex_jump_if_not,
    parse_ex_let, parse_ex_let_bool, parse_ex_let_delegate, parse_ex_let_multicast_delegate, parse_ex_let_obj, parse_ex_let_value_on_persistent_frame,
    parse_ex_let_weak_obj_ptr, parse_ex_local_final_function, parse_ex_local_out_variable, parse_ex_local_variable, parse_ex_local_virtual_function, parse_ex_map_const,
    parse_ex_meta_cast, parse_ex_name_const, parse_ex_obj_to_interface_cast, parse_ex_object_const, parse_ex_pop_execution_flow_if_not, parse_ex_primitive_cast,
    parse_ex_property_const, parse_ex_push_execution_flow, parse_ex_remove_multicast_delegate, parse_ex_return, parse_ex_rotation_const, parse_ex_set_array,
    parse_ex_set_const, parse_ex_set_map, parse_ex_set_set, parse_ex_skip, parse_ex_skip_offset_const, parse_ex_soft_object_const,
    parse_ex_string_const, parse_ex_struct_const, parse_ex_struct_member_context, parse_ex_switch_value, parse_ex_text_const, parse_ex_transform_const,
    parse_ex_uint64_const, parse_ex_unicode_string_const, parse_ex_vector_const, parse_ex_virtual_function, parse_expr, parse_list,
    parse_text,
};
use super::tokens::{EExprToken, ECastToken, EScriptInstrumentationType, EBlueprintTextLiteralType};

use super::read::{got, got_expr, err_of, is_eof_error, kstepped, lemma_first_zero, lemma_first_zero_pair, lemma_list_after_push, lemma_list_after_skip, lemma_list_step, lemma_names_stuck, lemma_views_push, list_after, read_boolb, read_cast, read_f32, read_i32, read_i64, read_idx, read_kismet_string, read_kismet_unicode_string, read_name, read_names, read_rot4, read_u16, read_u32, read_u64, read_u8, read_vec3, token_error};
use super::read_misc::read_case;
use super::read_cases::read_cases;

verus! {
/// Read what an `ExFinalFunction` holds.
#[verifier::spinoff_prover]
#[verifier::rlimit(50)]
pub fn read_ex_final_function(reader: &mut ByteReader, name_map: &NameMap, ov: i32) -> (res: Result<KismetExpression, Error>)
    ensures
        kstepped(*old(reader), *final(reader), got_expr(res), err_of(res),
            parse_ex_final_function(old(reader).remaining(), ov, name_map.names().len())),
    decreases old(reader).remaining().len(), 2int, 0int,
{
    let ghost r0 = *reader;
    let stack_node = read_idx(reader)?;
    proof { lemma_advance(r0, *reader); }
    let parameters = KismetExpression::read_arr(reader, name_map, ov, EExprToken::ExEndFunctionParms)?;
    Ok(KismetExpression::ExFinalFunction { stack_node, parameters })
}

/// Read what an `ExIntConst` holds.
#[verifier::spinoff_prover]
#[verifier::rlimit(50)]
pub fn read_ex_int_const(reader: &mut ByteReader, name_map: &NameMap, ov: i32) -> (res: Result<KismetExpression, Error>)
    ensures
        kstepped(*old(reader), *final(reader), got_expr(res), err_of(res),
            parse_ex_int_const(old(reader).remaining(), ov, name_map.names().len())),
    decreases old(reader).remaining().len(), 2int, 0int,
{
    let ghost r0 = *reader;
    let value = read_i32(reader)?;
    Ok(KismetExpression::ExIntConst { value })
}

/// Read what an `ExFloatConst` holds.
#[verifier::spinoff_prover]
#[verifier::rlimit(50)]
pub fn read_ex_float_const(reader: &mut ByteReader, name_map: &NameMap, ov: i32) -> (res: Result<KismetExpression, Error>)
    ensures
        kstepped(*old(reader), *final(reader), got_expr(res), err_of(res),
            parse_ex_float_const(old(reader).remaining(), ov, name_map.names().len())),
    decreases old(reader).remaining().len(), 2int, 0int,
{
    let ghost r0 = *reader;
    let value = read_f32(reader)?;
    Ok(KismetExpression::ExFloatConst { value })
}

/// Read what an `ExStringConst` holds.
#[verifier::spinoff_prover]
#[verifier::rlimit(50)]
pub fn read_ex_string_const(reader: &mut ByteReader, name_map: &NameMap, ov: i32) -> (res: Result<KismetExpression, Error>)
    ensures
        kstepped(*old(reader), *final(reader), got_expr(res), err_of(res),
            parse_ex_string_const(old(reader).remaining(), ov, name_map.names().len())),
    decreases old(reader).remaining().len(), 2int, 0int,
{
    let ghost r0 = *reader;
    let value = read_kismet_string(reader)?;
    Ok(KismetExpression::ExStringConst { value })
}

/// Read what an `ExObjectConst` holds.
#[verifier::spinoff_prover]
#[verifier::rlimit(50)]
pub fn read_ex_object_const(reader: &mut ByteReader, name_map: &NameMap, ov: i32) -> (res: Result<KismetExpression, Error>)
    ensures
        kstepped(*old(reader), *final(reader), got_expr(res), err_of(res),
            parse_ex_object_const(old(reader).remaining(), ov, name_map.names().len())),
    decreases old(reader).remaining().len(), 2int, 0int,
{
    let ghost r0 = *reader;
    let value = read_idx(reader)?;
    Ok(KismetExpression::ExObjectConst { value })
}

/// Read what an `ExNameConst` holds.
#[verifier::spinoff_prover]
#[verifier::rlimit(50)]
pub fn read_ex_name_const(reader: &mut ByteReader, name_map: &NameMap, ov: i32) -> (res: Result<KismetExpression, Error>)
    ensures
        kstepped(*old(reader), *final(reader), got_expr(res), err_of(res),
            parse_ex_name_const(old(reader).remaining(), ov, name_map.names().len())),
    decreases old(reader).remaining().len(), 2int, 0int,
{
    let ghost r0 = *reader;
    let value = read_name(reader, name_map)?;
    Ok(KismetExpression::ExNameConst { value })
}

/// Read what an `ExRotationConst` holds.
#[verifier::spinoff_prover]
#[verifier::rlimit(50)]
pub fn read_ex_rotation_const(reader: &mut ByteReader, name_map: &NameMap, ov: i32) -> (res: Result<KismetExpression, Error>)
    ensures
        kstepped(*old(reader), *final(reader), got_expr(res), err_of(res),
            parse_ex_rotation_const(old(reader).remaining(), ov, name_map.names().len())),
    decreases old(reader).remaining().len(), 2int, 0int,
{
    let ghost r0 = *reader;
    let pitch = read_i32(reader)?;
    proof { lemma_advance(r0, *reader); }
    let yaw = read_i32(reader)?;
    proof { lemma_advance(r0, *reader); }
    let roll = read_i32(reader)?;
    Ok(KismetExpression::ExRotationConst { pitch, yaw, roll })
}

/// Read what an `ExVectorConst` holds.
#[verifier::spinoff_prover]
#[verifier::rlimit(50)]
pub fn read_ex_vector_const(reader: &mut ByteReader, name_map: &NameMap, ov: i32) -> (res: Result<KismetExpression, Error>)
    ensures
        kstepped(*old(reader), *final(reader), got_expr(res), err_of(res),
            parse_ex_vector_const(old(reader).remaining(), ov, name_map.names().len())),
    decreases old(reader).remaining().len(), 2int, 0int,
{
    let ghost r0 = *reader;
    let value = read_vec3(reader)?;
    Ok(KismetExpression::ExVectorConst { value })
}

/// Read what an `ExByteConst` holds.
#[verifier::spinoff_prover]
#[verifier::rlimit(50)]
pub fn read_ex_byte_const(reader: &mut ByteReader, name_map: &NameMap, ov: i32) -> (res: Result<KismetExpression, Error>)
    ensures
        kstepped(*old(reader), *final(reader), got_expr(res), err_of(res),
            parse_ex_byte_const(old(reader).remaining(), ov, name_map.names().len())),
    decreases old(reader).remaining().len(), 2int, 0int,
{
    let ghost r0 = *reader;
    let value = read_u8(reader)?;
    Ok(KismetExpression::ExByteConst { value })
}

/// Read what an `ExTextConst` holds.
#[verifier::spinoff_prover]
#[verifier::rlimit(50)]
pub fn read_ex_text_const(reader: &mut ByteReader, name_map: &NameMap, ov: i32) -> (res: Result<KismetExpression, Error>)
    ensures
        kstepped(*old(reader), *final(reader), got_expr(res), err_of(res),
            parse_ex_text_const(old(reader).remaining(), ov, name_map.names().len())),
    decreases old(reader).remaining().len(), 2int, 0int,
{
    let ghost r0 = *reader;
    let value = FScriptText::new(reader, name_map, ov)?;
    Ok(KismetExpression::ExTextConst { value: Box::new(value) })
}

/// Read what an `ExTransformConst` holds.
#[verifier::spinoff_prover]
#[verifier::rlimit(50)]
pub fn read_ex_transform_const(reader: &mut ByteReader, name_map: &NameMap, ov: i32) -> (res: Result<KismetExpression, Error>)
    ensures
        kstepped(*old(reader), *final(reader), got_expr(res), err_of(res),
            parse_ex_transform_const(old(reader).remaining(), ov, name_map.names().len())),
    decreases old(reader).remaining().len(), 2int, 0int,
{
    let ghost r0 = *reader;
    let rotation = read_rot4(reader)?;
    proof { lemma_advance(r0, *reader); }
    let translation = read_vec3(reader)?;
    proof { lemma_advance(r0, *reader); }
    let scale = read_vec3(reader)?;
    Ok(KismetExpression::ExTransformConst { rotation, translation, scale })
}

/// Read what an `ExIntConstByte` holds.
#[verifier::spinoff_prover]
#[verifier::rlimit(50)]
pub fn read_ex_int_const_byte(reader: &mut ByteReader, name_map: &NameMap, ov: i32) -> (res: Result<KismetExpression, Error>)
    ensures
        kstepped(*old(reader), *final(reader), got_expr(res), err_of(res),
            parse_ex_int_const_byte(old(reader).remaining(), ov, name_map.names().len())),
    decreases old(reader).remaining().len(), 2int, 0int,
{
    let ghost r0 = *reader;
    let value = read_u8(reader)?;
    Ok(KismetExpression::ExIntConstByte { value })
}

/// Read what an `ExDynamicCast` holds.
#[verifier::spinoff_prover]
#[verifier::rlimit(50)]
pub fn read_ex_dynamic_cast(reader: &mut ByteReader, name_map: &NameMap, ov: i32) -> (res: Result<KismetExpression, Error>)
    ensures
        kstepped(*old(reader), *final(reader), got_expr(res), err_of(res),
            parse_ex_dynamic_cast(old(reader).remaining(), ov, name_map.names().len())),
    decreases old(reader).remaining().len(), 2int, 0int,
{
    let ghost r0 = *reader;
    let class_ptr = read_idx(reader)?;
    proof { lemma_advance(r0, *reader); }
    let target_expression = KismetExpression::new(reader, name_map, ov)?;
    Ok(KismetExpression::ExDynamicCast { class_ptr, target_expression: Box::new(target_expression) })
}


} // verus!
