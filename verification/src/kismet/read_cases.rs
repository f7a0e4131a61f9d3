//! Reading lists of switch cases.

use vstd::prelude::*;
use crate::archive::{ByteReader, rest, lemma_advance, u16_at, u32_at, u64_at, units_of};
use crate::asset::name_map::NameMap;
use crate::engine_version::VER_UE4_ADDED_PACKAGE_OWNER;
use crate::error::{Error, IoErrorKind, KismetError};
use crate::strings::{string_from_utf8, string_from_utf16};
use crate::types::{NameIndex, PackageIndex, Vector};
use super::expression::{
    KismetExpression, KView, KismetPropertyPointer, FieldPath, FScriptText, KismetSwitchCase, views, case_views,
    PointerView, TextView, SwitchCaseView,
};
use super::parse::{
    KRead, KErr, VER_UE4_CHANGE_SETARRAY_BYTECODE, body_group, first_zero, first_zero_pair, kr_boolb,
    kr_cast, kr_f32, kr_i32, kr_i64, kr_idx, kr_name,
    kr_names, kr_ptr, kr_rot4, kr_str, kr_u16, kr_u32,
    kr_u64, kr_u8, kr_ustr, kr_vec3, parse_body, parse_body_0,
    parse_body_1, parse_body_2, parse_body_3, parse_body_4, parse_case, parse_cases,
    parse_ex_add_multicast_delegate, parse_ex_array_const, parse_ex_array_get_by_ref, parse_ex_assert, parse_ex_bind_delegate, parse_ex_byte_const,
    parse_ex_call_math, parse_ex_call_multicast_delegate, parse_ex_class_context, parse_ex_class_sparse_data_variable, parse_ex_clear_multicast_delegate, parse_ex_computed_jump,
    parse_ex_context, parse_ex_context_fail_silent, parse_ex_cross_interface_cast, parse_ex_default_variable, parse_ex_dynamic_cast, parse_ex_field_path_const,
    parse_ex_final_function, parse_ex_float_const, parse_ex_instance_delegate, parse_ex_instance_variable, parse_ex_instrumentation_event, parse_ex_int64_const,
    parse_ex_int_const, parse_ex_int_const_byte, parse_ex_interface_context, parse_ex_interface_to_obj_cast, parse_ex_jump, parse_ex_jump_if_not,
    parse_ex_let, parse_ex_let_bool, parse_ex_let_delegate, parse_ex_let_multicast_delegate, parse_ex_let_obj, parse_ex_let_value_on_persistent_frame,
    parse_ex_let_weak_obj_ptr, parse_ex_local_final_function, parse_ex_local_out_variable, parse_ex_local_variable, parse_ex_local_virtual_function, parse_ex_map_const,
    parse_ex_meta_cast, parse_ex_name_const, parse_ex_obj_to_interface_cast, parse_ex_object_const, parse_ex_pop_execution_flow_if_not, parse_ex_primitive_cast,
    parse_ex_property_const, parse_ex_push_execution_flow, parse_ex_remove_multicast_delegate, parse_ex_return, parse_ex_rotation_const, parse_ex_set_array,
    parse_ex_set_const, parse_ex_set_map, parse_ex_set_set, parse_ex_skip, parse_ex_skip_offset_const, parse_ex_soft_object_const,
    parse_ex_string_const, parse_ex_struct_const, parse_ex_struct_member_context, parse_ex_switch_value, parse_ex_text_const, parse_ex_transform_const,
    parse_ex_uint64_const, parse_ex_unicode_string_const, parse_ex_vector_const, parse_ex_virtual_function, parse_expr, parse_list,
    parse_text,
};
use super::tokens::{EExprToken, ECastToken, EScriptInstrumentationType, EBlueprintTextLiteralType};

use super::read::{got, got_expr, err_of, is_eof_error, kstepped, lemma_first_zero, lemma_first_zero_pair, lemma_list_after_push, lemma_list_after_skip, lemma_list_step, lemma_names_stuck, lemma_views_push, list_after, read_boolb, read_cast, read_f32, read_i32, read_i64, read_idx, read_kismet_string, read_kismet_unicode_string, read_name, read_names, read_rot4, read_u16, read_u32, read_u64, read_u8, read_vec3, token_error};

use super::read_misc::read_case;

verus! {

/// Once `count` switch cases fail to read, more cases fail the same way.
pub(crate) proof fn lemma_cases_stuck(s: Seq<u8>, i: nat, j: nat, ov: i32, n: nat)
    requires i <= j, !(parse_cases(s, i, ov, n) is Done),
    ensures parse_cases(s, j, ov, n) == parse_cases(s, i, ov, n),
    decreases j - i,
{
    if i < j {
        lemma_cases_stuck(s, i, (j - 1) as nat, ov, n);
    }
}

/// One more switch case after `i` of them that were read in `k` bytes.
pub(crate) proof fn lemma_cases_step(s: Seq<u8>, i: nat, ov: i32, n: nat, cs: Seq<SwitchCaseView>, k: nat)
    requires parse_cases(s, i, ov, n) == KRead::Done(cs, k),
    ensures
        parse_cases(s, i + 1, ov, n) == match parse_case(rest(s, k as int), ov, n) {
            KRead::Done(c, k2) => KRead::Done(cs.push(c), k + k2),
            KRead::Fail(k2, fe) => KRead::Fail(k + k2, fe),
            KRead::Eof => KRead::<Seq<SwitchCaseView>>::Eof,
        },
{
}

/// The views of switch cases with one more at the end.
pub(crate) proof fn lemma_case_views_push(s: Seq<KismetSwitchCase>, c: KismetSwitchCase)
    ensures case_views(s.push(c)) == case_views(s).push(c.view()),
{
    assert(s.push(c).subrange(0, s.len() as int) =~= s);
}

/// Read `count` switch cases.
pub(crate) fn read_cases(reader: &mut ByteReader, name_map: &NameMap, ov: i32, count: u16) -> (res: Result<Vec<KismetSwitchCase>, Error>)
    ensures
        kstepped(*old(reader), *final(reader), match res { Ok(v) => Some(case_views(v@)), Err(_) => None }, err_of(res),
            parse_cases(old(reader).remaining(), count as nat, ov, name_map.names().len())),
    decreases old(reader).remaining().len(), 1int, count as int,
{
    let ghost s = old(reader).remaining();
    let ghost r0 = *reader;
    let ghost n = name_map.names().len();
    let mut cases: Vec<KismetSwitchCase> = Vec::new();
    let mut i: u16 = 0;
    assert(reader.remaining() == rest(s, 0)) by { assert(rest(s, 0) =~= s); }
    assert(case_views(cases@) =~= Seq::<SwitchCaseView>::empty());
    while i < count
        invariant
            i <= count,
            reader.data@ == r0.data@,
            s == r0.remaining(),
            s == old(reader).remaining(),
            r0 == *old(reader),
            n == name_map.names().len(),
            r0.pos <= reader.pos,
            reader.pos - r0.pos <= s.len(),
            reader.remaining() == rest(s, reader.pos - r0.pos),
            reader.remaining().len() <= s.len(),
            parse_cases(s, i as nat, ov, n) == KRead::Done(case_views(cases@), (reader.pos - r0.pos) as nat),
        decreases count - i,
    {
        let ghost before = cases@;
        let ghost k = (reader.pos - r0.pos) as nat;
        proof { lemma_cases_step(s, i as nat, ov, n, case_views(before), k); }
        let c = match read_case(reader, name_map, ov) {
            Ok(c) => c,
            Err(e) => {
                proof { lemma_cases_stuck(s, (i + 1) as nat, count as nat, ov, n); }
                return Err(e);
            },
        };
        proof { lemma_advance(r0, *reader); }
        cases.push(c);
        proof { lemma_case_views_push(before, cases@[cases@.len() - 1]); assert(before.push(cases@[cases@.len() - 1]) =~= cases@); }
        i = i + 1;
    }
    Ok(cases)
}

} // verus!
