//! Reading kismet expressions, lists of them, switch cases and script texts.

use vstd::prelude::*;
use crate::archive::{ByteReader, rest, lemma_advance, u16_at, u32_at, u64_at, units_of};
use crate::asset::name_map::NameMap;
use crate::engine_version::VER_UE4_ADDED_PACKAGE_OWNER;
use crate::error::{Error, IoErrorKind, KismetError};
use crate::strings::{string_from_utf8, string_from_utf16};
use crate::types::{NameIndex, PackageIndex, Vector};
use super::expression::{
    KismetExpression, KView, KismetPropertyPointer, FieldPath, FScriptText, KismetSwitchCase, views, case_views,
    PointerView, TextView, SwitchCaseView,
};
use super::parse::{
    KRead, KErr, VER_UE4_CHANGE_SETARRAY_BYTECODE, body_group, first_zero, first_zero_pair, kr_boolb,
    kr_cast, kr_f32, kr_i32, kr_i64, kr_idx, kr_name,
    kr_names, kr_ptr, kr_rot4, kr_str, kr_u16, kr_u32,
    kr_u64, kr_u8, kr_ustr, kr_vec3, parse_body, parse_body_0,
    parse_body_1, parse_body_2, parse_body_3, parse_body_4, parse_case, parse_cases,
    parse_ex_add_multicast_delegate, parse_ex_array_const, parse_ex_array_get_by_ref, parse_ex_assert, parse_ex_bind_delegate, parse_ex_byte_const,
    parse_ex_call_math, parse_ex_call_multicast_delegate, parse_ex_class_context, parse_ex_class_sparse_data_variable, parse_ex_clear_multicast_delegate, parse_ex_computed_jump,
    parse_ex_context, parse_ex_context_fail_silent, parse_ex_cross_interface_cast, parse_ex_default_variable, parse_ex_dynamic_cast, parse_ex_field_path_const,
    parse_ex_final_function, parse_ex_float_const, parse_ex_instance_delegate, parse_ex_instance_variable, parse_ex_instrumentation_event, parse_ex_int64_const,
    parse_ex_int_const, parse_ex_int_const_byte, parse_ex_interface_context, parse_ex_interface_to_obj_cast, parse_ex_jump, parse_ex_jump_if_not,
    parse_ex_let, parse_ex_let_bool, parse_ex_let_delegate, parse_ex_let_multicast_delegate, parse_ex_let_obj, parse_ex_let_value_on_persistent_frame,
    parse_ex_let_weak_obj_ptr, parse_ex_local_final_function, parse_ex_local_out_variable, parse_ex_local_variable, parse_ex_local_virtual_function, parse_ex_map_const,
    parse_ex_meta_cast, parse_ex_name_const, parse_ex_obj_to_interface_cast, parse_ex_object_const, parse_ex_pop_execution_flow_if_not, parse_ex_primitive_cast,
    parse_ex_property_const, parse_ex_push_execution_flow, parse_ex_remove_multicast_delegate, parse_ex_return, parse_ex_rotation_const, parse_ex_set_array,
    parse_ex_set_const, parse_ex_set_map, parse_ex_set_set, parse_ex_skip, parse_ex_skip_offset_const, parse_ex_soft_object_const,
    parse_ex_string_const, parse_ex_struct_const, parse_ex_struct_member_context, parse_ex_switch_value, parse_ex_text_const, parse_ex_transform_const,
    parse_ex_uint64_const, parse_ex_unicode_string_const, parse_ex_vector_const, parse_ex_virtual_function, parse_expr, parse_list,
    parse_text,
};
use super::tokens::{EExprToken, ECastToken, EScriptInstrumentationType, EBlueprintTextLiteralType};

use super::read::{got, got_expr, err_of, is_eof_error, kstepped, lemma_first_zero, lemma_first_zero_pair, lemma_list_after_push, lemma_list_after_skip, lemma_list_step, lemma_names_stuck, lemma_views_push, list_after, read_boolb, read_cast, read_f32, read_i32, read_i64, read_idx, read_kismet_string, read_kismet_unicode_string, read_name, read_names, read_rot4, read_u16, read_u32, read_u64, read_u8, read_vec3, token_error};

use super::read_body::read_body;

verus! {
impl KismetExpression {
    /// Read a `KismetExpression` from an asset: its token, then what the expression of the
    /// token holds. A byte that names no token is an invalid enum value; the end-of-tokens
    /// value 0xFF is an unknown expression.
    pub fn new(reader: &mut ByteReader, name_map: &NameMap, ov: i32) -> (res: Result<Self, Error>)
        ensures
            kstepped(*old(reader), *final(reader), got_expr(res), err_of(res),
                parse_expr(old(reader).remaining(), ov, name_map.names().len())),
            old(reader).remaining().len() >= 1 && EExprToken::spec_from_u8(old(reader).remaining()[0]) is None
                ==> (res matches Err(Error::InvalidEnumValue(m)) && m@ == "EExprToken"@),
            old(reader).remaining().len() >= 1 && old(reader).remaining()[0] == 0xFF
                ==> (res matches Err(Error::Kismet(KismetError::UnknownExpression(m)))
                    && m@ == "Unknown kismet expression 255"@),
        decreases old(reader).remaining().len(), 0int, 0int,
    {
        let ghost s = old(reader).remaining();
        let ghost r0 = *reader;
        let b = reader.read_u8()?;
        proof { lemma_advance(r0, *reader); }
        let t = match EExprToken::try_from_u8(b) {
            Some(t) => t,
            None => return Err(Error::invalid_enum("EExprToken")),
        };
        if t == EExprToken::ExMax {
            return Err(Error::Kismet(KismetError::expression(String::from_str("Unknown kismet expression 255"))));
        }
        let e = read_body(reader, name_map, ov, t)?;
        Ok(e)
    }

    /// Read expressions up to one with the token `end_token`, which is read and dropped; an
    /// expression that fails to read is skipped after the bytes that it read. Where the bytes
    /// end first, the read fails.
    #[verifier::spinoff_prover]
    #[verifier::rlimit(50)]
    pub fn read_arr(reader: &mut ByteReader, name_map: &NameMap, ov: i32, end_token: EExprToken)
        -> (res: Result<Vec<Self>, Error>)
        ensures
            kstepped(*old(reader), *final(reader), match res { Ok(v) => Some(views(v@)), Err(_) => None }, err_of(res),
                parse_list(old(reader).remaining(), end_token, ov, name_map.names().len())),
        decreases old(reader).remaining().len(), 1int, 0int,
    {
        let ghost s = old(reader).remaining();
        let ghost r0 = *reader;
        let ghost n = name_map.names().len();
        let mut data: Vec<KismetExpression> = Vec::new();
        assert(reader.remaining() == rest(s, 0)) by { assert(rest(s, 0) =~= s); }
        assert(views(data@) =~= Seq::<KView>::empty());
        assert(list_after(views(data@), 0, parse_list(s, end_token, ov, n)) == parse_list(s, end_token, ov, n)) by {
            match parse_list(s, end_token, ov, n) {
                KRead::Done(es, k) => { assert(Seq::<KView>::empty() + es =~= es); },
                _ => {},
            }
        }
        loop
            invariant
                reader.data@ == r0.data@,
                s == r0.remaining(),
                s == old(reader).remaining(),
                r0 == *old(reader),
                n == name_map.names().len(),
                r0.pos <= reader.pos,
                reader.pos - r0.pos <= s.len(),
                reader.remaining() == rest(s, reader.pos - r0.pos),
                reader.remaining().len() <= s.len(),
                list_after(views(data@), (reader.pos - r0.pos) as nat, parse_list(reader.remaining(), end_token, ov, n))
                    == parse_list(s, end_token, ov, n),
            decreases reader.remaining().len(),
        {
            let ghost rp = *reader;
            let ghost p = (reader.pos - r0.pos) as nat;
            let ghost t = rp.remaining();
            let ghost before = views(data@);
            let r = KismetExpression::new(reader, name_map, ov);
            proof { lemma_list_step(t, end_token, ov, n); }
            match r {
                Ok(e) => {
                    proof { lemma_advance(rp, *reader); lemma_advance(r0, *reader); }
                    if e.enum_eq(&end_token) {
                        proof {
                            assert(before + Seq::<KView>::empty() =~= before);
                        }
                        return Ok(data);
                    }
                    let ghost old_data = data@;
                    data.push(e);
                    proof {
                        let ghost k = (reader.pos - rp.pos) as nat;
                        lemma_views_push(old_data, data@[data@.len() - 1]);
                        assert(old_data.push(data@[data@.len() - 1]) =~= data@);
                        lemma_list_after_push(before, data@[data@.len() - 1].view(), p, k,
                            parse_list(reader.remaining(), end_token, ov, n));
                    }
                },
                Err(err) => {
                    if is_eof_error(&err) {
                        return Err(err);
                    }
                    proof {
                        lemma_advance(rp, *reader);
                        lemma_advance(r0, *reader);
                        let ghost k = (reader.pos - rp.pos) as nat;
                        lemma_list_after_skip(before, p, k, parse_list(reader.remaining(), end_token, ov, n));
                    }
                },
            }
        }
    }
}















} // verus!
