//! Reading script texts.

use vstd::prelude::*;
use crate::archive::{ByteReader, rest, lemma_advance, u16_at, u32_at, u64_at, units_of};
use crate::asset::name_map::NameMap;
use crate::engine_version::VER_UE4_ADDED_PACKAGE_OWNER;
use crate::error::{Error, IoErrorKind, KismetError};
use crate::strings::{string_from_utf8, string_from_utf16};
use crate::types::{NameIndex, PackageIndex, Vector};
use super::expression::{
    KismetExpression, KView, KismetPropertyPointer, FieldPath, FScriptText, KismetSwitchCase, views, case_views,
    PointerView, TextView, SwitchCaseView,
};
use super::parse::{
    KRead, KErr, VER_UE4_CHANGE_SETARRAY_BYTECODE, body_group, first_zero, first_zero_pair, kr_boolb,
    kr_cast, kr_f32, kr_i32, kr_i64, kr_idx, kr_name,
    kr_names, kr_ptr, kr_rot4, kr_str, kr_u16, kr_u32,
    kr_u64, kr_u8, kr_ustr, kr_vec3, parse_body, parse_body_0,
    parse_body_1, parse_body_2, parse_body_3, parse_body_4, parse_case, parse_cases,
    parse_ex_add_multicast_delegate, parse_ex_array_const, parse_ex_array_get_by_ref, parse_ex_assert, parse_ex_bind_delegate, parse_ex_byte_const,
    parse_ex_call_math, parse_ex_call_multicast_delegate, parse_ex_class_context, parse_ex_class_sparse_data_variable, parse_ex_clear_multicast_delegate, parse_ex_computed_jump,
    parse_ex_context, parse_ex_context_fail_silent, parse_ex_cross_interface_cast, parse_ex_default_variable, parse_ex_dynamic_cast, parse_ex_field_path_const,
    parse_ex_final_function, parse_ex_float_const, parse_ex_instance_delegate, parse_ex_instance_variable, parse_ex_instrumentation_event, parse_ex_int64_const,
    parse_ex_int_const, parse_ex_int_const_byte, parse_ex_interface_context, parse_ex_interface_to_obj_cast, parse_ex_jump, parse_ex_jump_if_not,
    parse_ex_let, parse_ex_let_bool, parse_ex_let_delegate, parse_ex_let_multicast_delegate, parse_ex_let_obj, parse_ex_let_value_on_persistent_frame,
    parse_ex_let_weak_obj_ptr, parse_ex_local_final_function, parse_ex_local_out_variable, parse_ex_local_variable, parse_ex_local_virtual_function, parse_ex_map_const,
    parse_ex_meta_cast, parse_ex_name_const, parse_ex_obj_to_interface_cast, parse_ex_object_const, parse_ex_pop_execution_flow_if_not, parse_ex_primitive_cast,
    parse_ex_property_const, parse_ex_push_execution_flow, parse_ex_remove_multicast_delegate, parse_ex_return, parse_ex_rotation_const, parse_ex_set_array,
    parse_ex_set_const, parse_ex_set_map, parse_ex_set_set, parse_ex_skip, parse_ex_skip_offset_const, parse_ex_soft_object_const,
    parse_ex_string_const, parse_ex_struct_const, parse_ex_struct_member_context, parse_ex_switch_value, parse_ex_text_const, parse_ex_transform_const,
    parse_ex_uint64_const, parse_ex_unicode_string_const, parse_ex_vector_const, parse_ex_virtual_function, parse_expr, parse_list,
    parse_text,
};
use super::tokens::{EExprToken, ECastToken, EScriptInstrumentationType, EBlueprintTextLiteralType};

use super::read::{got, got_expr, err_of, is_eof_error, kstepped, lemma_first_zero, lemma_first_zero_pair, lemma_list_after_push, lemma_list_after_skip, lemma_list_step, lemma_names_stuck, lemma_views_push, list_after, read_boolb, read_cast, read_f32, read_i32, read_i64, read_idx, read_kismet_string, read_kismet_unicode_string, read_name, read_names, read_rot4, read_u16, read_u32, read_u64, read_u8, read_vec3, token_error};


verus! {

impl FScriptText {
    /// Read a script text: its literal type, then the expressions that the type holds.
    pub fn new(reader: &mut ByteReader, name_map: &NameMap, ov: i32) -> (res: Result<Self, Error>)
        ensures
            kstepped(*old(reader), *final(reader), match res { Ok(t) => Some(t.view()), Err(_) => None }, err_of(res),
                parse_text(old(reader).remaining(), ov, name_map.names().len())),
        decreases old(reader).remaining().len(), 1int, 0int,
    {
        let ghost r0 = *reader;
        let b = reader.read_u8()?;
        proof { lemma_advance(r0, *reader); }
        let ghost r1 = *reader;
        let ty = match EBlueprintTextLiteralType::try_from_u8(b) {
            Some(t) => t,
            None => return Err(Error::invalid_enum("EBlueprintTextLiteralType")),
        };
        let mut text = FScriptText {
            text_literal_type: ty,
            localized_source: None,
            localized_key: None,
            localized_namespace: None,
            invariant_literal_string: None,
            literal_string: None,
            string_table_asset: None,
            string_table_id: None,
            string_table_key: None,
        };
        match ty {
            EBlueprintTextLiteralType::Empty => {},
            EBlueprintTextLiteralType::LocalizedText => {
                let a = KismetExpression::new(reader, name_map, ov)?;
                proof { lemma_advance(r1, *reader); }
                let k = KismetExpression::new(reader, name_map, ov)?;
                proof { lemma_advance(r1, *reader); }
                let c = KismetExpression::new(reader, name_map, ov)?;
                text.localized_source = Some(a);
                text.localized_key = Some(k);
                text.localized_namespace = Some(c);
            },
            EBlueprintTextLiteralType::InvariantText => {
                let a = KismetExpression::new(reader, name_map, ov)?;
                text.invariant_literal_string = Some(a);
            },
            EBlueprintTextLiteralType::LiteralString => {
                let a = KismetExpression::new(reader, name_map, ov)?;
                text.literal_string = Some(a);
            },
            EBlueprintTextLiteralType::StringTableEntry => {
                let asset = read_idx(reader)?;
                proof { lemma_advance(r1, *reader); }
                let k = KismetExpression::new(reader, name_map, ov)?;
                proof { lemma_advance(r1, *reader); }
                let c = KismetExpression::new(reader, name_map, ov)?;
                text.string_table_asset = Some(asset);
                text.string_table_id = Some(k);
                text.string_table_key = Some(c);
            },
        }
        Ok(text)
    }
}

} // verus!
