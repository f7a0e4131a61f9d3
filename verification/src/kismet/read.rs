//! Reading kismet bytecode.

use vstd::prelude::*;
use crate::archive::{ByteReader, rest, lemma_advance, u16_at, u32_at, u64_at, units_of};
use crate::asset::name_map::NameMap;
use crate::engine_version::VER_UE4_ADDED_PACKAGE_OWNER;
use crate::error::{Error, IoErrorKind, KismetError};
use crate::strings::{string_from_utf8, string_from_utf16};
use crate::types::{NameIndex, PackageIndex, Vector};
use super::expression::{
    KismetExpression, KView, KismetPropertyPointer, FieldPath, FScriptText, KismetSwitchCase, views, case_views,
    PointerView, TextView, SwitchCaseView,
};
use super::parse::{
    KRead, KErr, VER_UE4_CHANGE_SETARRAY_BYTECODE, body_group, first_zero, first_zero_pair, kr_boolb,
    kr_cast, kr_f32, kr_i32, kr_i64, kr_idx, kr_name,
    kr_names, kr_ptr, kr_rot4, kr_str, kr_u16, kr_u32,
    kr_u64, kr_u8, kr_ustr, kr_vec3, parse_body, parse_body_0,
    parse_body_1, parse_body_2, parse_body_3, parse_body_4, parse_case, parse_cases,
    parse_ex_add_multicast_delegate, parse_ex_array_const, parse_ex_array_get_by_ref, parse_ex_assert, parse_ex_bind_delegate, parse_ex_byte_const,
    parse_ex_call_math, parse_ex_call_multicast_delegate, parse_ex_class_context, parse_ex_class_sparse_data_variable, parse_ex_clear_multicast_delegate, parse_ex_computed_jump,
    parse_ex_context, parse_ex_context_fail_silent, parse_ex_cross_interface_cast, parse_ex_default_variable, parse_ex_dynamic_cast, parse_ex_field_path_const,
    parse_ex_final_function, parse_ex_float_const, parse_ex_instance_delegate, parse_ex_instance_variable, parse_ex_instrumentation_event, parse_ex_int64_const,
    parse_ex_int_const, parse_ex_int_const_byte, parse_ex_interface_context, parse_ex_interface_to_obj_cast, parse_ex_jump, parse_ex_jump_if_not,
    parse_ex_let, parse_ex_let_bool, parse_ex_let_delegate, parse_ex_let_multicast_delegate, parse_ex_let_obj, parse_ex_let_value_on_persistent_frame,
    parse_ex_let_weak_obj_ptr, parse_ex_local_final_function, parse_ex_local_out_variable, parse_ex_local_variable, parse_ex_local_virtual_function, parse_ex_map_const,
    parse_ex_meta_cast, parse_ex_name_const, parse_ex_obj_to_interface_cast, parse_ex_object_const, parse_ex_pop_execution_flow_if_not, parse_ex_primitive_cast,
    parse_ex_property_const, parse_ex_push_execution_flow, parse_ex_remove_multicast_delegate, parse_ex_return, parse_ex_rotation_const, parse_ex_set_array,
    parse_ex_set_const, parse_ex_set_map, parse_ex_set_set, parse_ex_skip, parse_ex_skip_offset_const, parse_ex_soft_object_const,
    parse_ex_string_const, parse_ex_struct_const, parse_ex_struct_member_context, parse_ex_switch_value, parse_ex_text_const, parse_ex_transform_const,
    parse_ex_uint64_const, parse_ex_unicode_string_const, parse_ex_vector_const, parse_ex_virtual_function, parse_expr, parse_list,
    parse_text,
};
use super::tokens::{EExprToken, ECastToken, EScriptInstrumentationType, EBlueprintTextLiteralType};

verus! {

/// Whether the error `e` is the failure `k`.
pub open spec fn kerr_is(e: Error, k: KErr) -> bool {
    match k {
        KErr::Name(i, n) => e == Error::FName(i, n),
        KErr::Enum(name) => (e matches Error::InvalidEnumValue(m) && m@ == name),
        KErr::NegativePath => (e matches Error::InvalidFile(m) && m@ == "Negative field path length"@),
        KErr::Utf8 => e == Error::Utf8,
        KErr::Utf16 => e == Error::Utf16,
        KErr::UnknownExpression =>
            (e matches Error::Kismet(KismetError::UnknownExpression(m)) && m@ == "Unknown kismet expression 255"@),
        KErr::Token => (e matches Error::Kismet(KismetError::InvalidToken(m)) && m@ == "Unknown kismet token"@),
    }
}

/// The reader `r1` is `r0` after a read that gave `got` (the view of its value, where it gave
/// one) or the error `err`, and `out` is the outcome of reading the bytes that `r0` had left:
/// a failure gives the error that the outcome names, the end of the bytes gives the end-of-file
/// error.
pub open spec fn kstepped<V>(r0: ByteReader, r1: ByteReader, got: Option<V>, err: Option<Error>, out: KRead<V>) -> bool {
    &&& r1.data@ == r0.data@
    &&& match out {
        KRead::Done(v, k) => got == Some(v) && r1.pos == r0.pos + k && k <= r0.remaining().len(),
        KRead::Fail(k, ke) => got is None && (err matches Some(e) && kerr_is(e, ke))
            && r1.pos == r0.pos + k && k <= r0.remaining().len(),
        KRead::Eof => got is None && err == Some(Error::Io(IoErrorKind::UnexpectedEof)),
    }
}

/// The value of a read, where it gave one.
pub open spec fn got<T>(res: Result<T, Error>) -> Option<T> {
    match res {
        Ok(v) => Some(v),
        Err(_) => None,
    }
}

/// The error of a read, where it failed.
pub open spec fn err_of<T>(res: Result<T, Error>) -> Option<Error> {
    match res {
        Ok(_) => None,
        Err(e) => Some(e),
    }
}

/// The view of a read expression.
pub open spec fn got_expr(res: Result<KismetExpression, Error>) -> Option<KView> {
    match res {
        Ok(e) => Some(e.view()),
        Err(_) => None,
    }
}

/// Whether an error is the end of the bytes.
pub(crate) fn is_eof_error(e: &Error) -> (b: bool)
    ensures b == (*e == Error::Io(IoErrorKind::UnexpectedEof)),
{
    match e {
        Error::Io(IoErrorKind::UnexpectedEof) => true,
        _ => false,
    }
}

/// The error of a byte that names no kismet token.
pub(crate) fn token_error() -> (e: Error)
    ensures kerr_is(e, KErr::Token),
{
    Error::Kismet(KismetError::token(String::from_str("Unknown kismet token")))
}

/// Read what `kr_u8` reads.
pub(crate) fn read_u8(reader: &mut ByteReader) -> (res: Result<u8, Error>)
    ensures kstepped(*old(reader), *final(reader), got(res), err_of(res), kr_u8(old(reader).remaining())),
{
    let ghost s = old(reader).remaining();
    let b = reader.read_record(1)?;
    let bs = b.as_slice();
    proof {
        assert forall|i: int, j: int| 0 <= i <= j <= b@.len() implies #[trigger] b@.subrange(i, j) == s.subrange(i, j) by {
            assert(b@.subrange(i, j) =~= s.subrange(i, j));
        }
    }
    Ok(b[0])
}

/// Read what `kr_boolb` reads.
pub(crate) fn read_boolb(reader: &mut ByteReader) -> (res: Result<bool, Error>)
    ensures kstepped(*old(reader), *final(reader), got(res), err_of(res), kr_boolb(old(reader).remaining())),
{
    let ghost s = old(reader).remaining();
    let b = reader.read_record(1)?;
    let bs = b.as_slice();
    proof {
        assert forall|i: int, j: int| 0 <= i <= j <= b@.len() implies #[trigger] b@.subrange(i, j) == s.subrange(i, j) by {
            assert(b@.subrange(i, j) =~= s.subrange(i, j));
        }
    }
    Ok(b[0] > 0)
}

/// Read what `kr_u16` reads.
pub(crate) fn read_u16(reader: &mut ByteReader) -> (res: Result<u16, Error>)
    ensures kstepped(*old(reader), *final(reader), got(res), err_of(res), kr_u16(old(reader).remaining())),
{
    let ghost s = old(reader).remaining();
    let b = reader.read_record(2)?;
    let bs = b.as_slice();
    proof {
        assert forall|i: int, j: int| 0 <= i <= j <= b@.len() implies #[trigger] b@.subrange(i, j) == s.subrange(i, j) by {
            assert(b@.subrange(i, j) =~= s.subrange(i, j));
        }
    }
    Ok(u16_at(bs, 0))
}

/// Read what `kr_u32` reads.
pub(crate) fn read_u32(reader: &mut ByteReader) -> (res: Result<u32, Error>)
    ensures kstepped(*old(reader), *final(reader), got(res), err_of(res), kr_u32(old(reader).remaining())),
{
    let ghost s = old(reader).remaining();
    let b = reader.read_record(4)?;
    let bs = b.as_slice();
    proof {
        assert forall|i: int, j: int| 0 <= i <= j <= b@.len() implies #[trigger] b@.subrange(i, j) == s.subrange(i, j) by {
            assert(b@.subrange(i, j) =~= s.subrange(i, j));
        }
    }
    Ok(u32_at(bs, 0))
}

/// Read what `kr_f32` reads.
pub(crate) fn read_f32(reader: &mut ByteReader) -> (res: Result<u32, Error>)
    ensures kstepped(*old(reader), *final(reader), got(res), err_of(res), kr_f32(old(reader).remaining())),
{
    let ghost s = old(reader).remaining();
    let b = reader.read_record(4)?;
    let bs = b.as_slice();
    proof {
        assert forall|i: int, j: int| 0 <= i <= j <= b@.len() implies #[trigger] b@.subrange(i, j) == s.subrange(i, j) by {
            assert(b@.subrange(i, j) =~= s.subrange(i, j));
        }
    }
    Ok(u32_at(bs, 0))
}

/// Read what `kr_i32` reads.
pub(crate) fn read_i32(reader: &mut ByteReader) -> (res: Result<i32, Error>)
    ensures kstepped(*old(reader), *final(reader), got(res), err_of(res), kr_i32(old(reader).remaining())),
{
    let ghost s = old(reader).remaining();
    let b = reader.read_record(4)?;
    let bs = b.as_slice();
    proof {
        assert forall|i: int, j: int| 0 <= i <= j <= b@.len() implies #[trigger] b@.subrange(i, j) == s.subrange(i, j) by {
            assert(b@.subrange(i, j) =~= s.subrange(i, j));
        }
    }
    Ok(u32_at(bs, 0) as i32)
}

/// Read what `kr_idx` reads.
pub(crate) fn read_idx(reader: &mut ByteReader) -> (res: Result<PackageIndex, Error>)
    ensures kstepped(*old(reader), *final(reader), got(res), err_of(res), kr_idx(old(reader).remaining())),
{
    let ghost s = old(reader).remaining();
    let b = reader.read_record(4)?;
    let bs = b.as_slice();
    proof {
        assert forall|i: int, j: int| 0 <= i <= j <= b@.len() implies #[trigger] b@.subrange(i, j) == s.subrange(i, j) by {
            assert(b@.subrange(i, j) =~= s.subrange(i, j));
        }
    }
    Ok(PackageIndex::new(u32_at(bs, 0) as i32))
}

/// Read what `kr_u64` reads.
pub(crate) fn read_u64(reader: &mut ByteReader) -> (res: Result<u64, Error>)
    ensures kstepped(*old(reader), *final(reader), got(res), err_of(res), kr_u64(old(reader).remaining())),
{
    let ghost s = old(reader).remaining();
    let b = reader.read_record(8)?;
    let bs = b.as_slice();
    proof {
        assert forall|i: int, j: int| 0 <= i <= j <= b@.len() implies #[trigger] b@.subrange(i, j) == s.subrange(i, j) by {
            assert(b@.subrange(i, j) =~= s.subrange(i, j));
        }
    }
    Ok(u64_at(bs, 0))
}

/// Read what `kr_i64` reads.
pub(crate) fn read_i64(reader: &mut ByteReader) -> (res: Result<i64, Error>)
    ensures kstepped(*old(reader), *final(reader), got(res), err_of(res), kr_i64(old(reader).remaining())),
{
    let ghost s = old(reader).remaining();
    let b = reader.read_record(8)?;
    let bs = b.as_slice();
    proof {
        assert forall|i: int, j: int| 0 <= i <= j <= b@.len() implies #[trigger] b@.subrange(i, j) == s.subrange(i, j) by {
            assert(b@.subrange(i, j) =~= s.subrange(i, j));
        }
    }
    Ok(u64_at(bs, 0) as i64)
}

/// Read what `kr_vec3` reads.
pub(crate) fn read_vec3(reader: &mut ByteReader) -> (res: Result<Vector<u32>, Error>)
    ensures kstepped(*old(reader), *final(reader), got(res), err_of(res), kr_vec3(old(reader).remaining())),
{
    let ghost s = old(reader).remaining();
    let b = reader.read_record(12)?;
    let bs = b.as_slice();
    proof {
        assert forall|i: int, j: int| 0 <= i <= j <= b@.len() implies #[trigger] b@.subrange(i, j) == s.subrange(i, j) by {
            assert(b@.subrange(i, j) =~= s.subrange(i, j));
        }
    }
    Ok(Vector::new(u32_at(bs, 0), u32_at(bs, 4), u32_at(bs, 8)))
}

/// Read what `kr_rot4` reads.
pub(crate) fn read_rot4(reader: &mut ByteReader) -> (res: Result<(u32, u32, u32, u32), Error>)
    ensures kstepped(*old(reader), *final(reader), got(res), err_of(res), kr_rot4(old(reader).remaining())),
{
    let ghost s = old(reader).remaining();
    let b = reader.read_record(16)?;
    let bs = b.as_slice();
    proof {
        assert forall|i: int, j: int| 0 <= i <= j <= b@.len() implies #[trigger] b@.subrange(i, j) == s.subrange(i, j) by {
            assert(b@.subrange(i, j) =~= s.subrange(i, j));
        }
    }
    Ok((u32_at(bs, 0), u32_at(bs, 4), u32_at(bs, 8), u32_at(bs, 12)))
}

/// Read a name, checking that its index lies in the name map.
pub(crate) fn read_name(reader: &mut ByteReader, name_map: &NameMap) -> (res: Result<NameIndex, Error>)
    ensures kstepped(*old(reader), *final(reader), got(res), err_of(res), kr_name(old(reader).remaining(), name_map.names().len())),
{
    let ghost s = old(reader).remaining();
    let b = reader.read_record(8)?;
    let bs = b.as_slice();
    proof {
        assert(b@.subrange(0, 4) =~= s.subrange(0, 4));
        assert(b@.subrange(4, 8) =~= s.subrange(4, 8));
    }
    let index = u32_at(bs, 0) as i32;
    let number = u32_at(bs, 4) as i32;
    let len = name_map.names_len();
    if index < 0 || index as usize >= len {
        return Err(Error::fname(index, len));
    }
    Ok(NameIndex { index, number })
}

/// Read a cast token.
pub(crate) fn read_cast(reader: &mut ByteReader) -> (res: Result<ECastToken, Error>)
    ensures
        kstepped(*old(reader), *final(reader), got(res), err_of(res), kr_cast(old(reader).remaining())),
        old(reader).remaining().len() >= 1 && ECastToken::spec_from_u8(old(reader).remaining()[0]) is None
            ==> (res matches Err(Error::InvalidEnumValue(m)) && m@ == "ECastToken"@),
{
    let b = reader.read_u8()?;
    match ECastToken::try_from_u8(b) {
        Some(c) => Ok(c),
        None => Err(Error::invalid_enum("ECastToken")),
    }
}

/// Once `count` names fail to read, more names fail the same way.
pub(crate) proof fn lemma_names_stuck(s: Seq<u8>, i: nat, j: nat, n: nat)
    requires i <= j, !(kr_names(s, i, n) is Done),
    ensures kr_names(s, j, n) == kr_names(s, i, n),
    decreases j - i,
{
    if i < j {
        lemma_names_stuck(s, i, (j - 1) as nat, n);
    }
}

/// Read `count` names.
pub(crate) fn read_names(reader: &mut ByteReader, name_map: &NameMap, count: i32) -> (res: Result<Vec<NameIndex>, Error>)
    requires count >= 0,
    ensures
        kstepped(*old(reader), *final(reader), match res { Ok(v) => Some(v@), Err(_) => None }, err_of(res),
            kr_names(old(reader).remaining(), count as nat, name_map.names().len())),
{
    let ghost s = old(reader).remaining();
    let ghost r0 = *reader;
    let ghost n = name_map.names().len();
    let mut path: Vec<NameIndex> = Vec::new();
    let mut i: i32 = 0;
    assert(reader.remaining() == rest(s, 0)) by { assert(rest(s, 0) =~= s); }
    while i < count
        invariant
            0 <= i <= count,
            reader.data@ == r0.data@,
            r0.pos <= reader.pos,
            reader.pos - r0.pos <= s.len(),
            reader.remaining() == rest(s, reader.pos - r0.pos),
            s == r0.remaining(),
            s == old(reader).remaining(),
            r0 == *old(reader),
            n == name_map.names().len(),
            kr_names(s, i as nat, n) == KRead::Done(path@, (reader.pos - r0.pos) as nat),
        decreases count - i,
    {
        let ghost ri = *reader;
        let x = match read_name(reader, name_map) {
            Ok(x) => x,
            Err(e) => {
                proof {
                    let k = (ri.pos - r0.pos) as nat;
                    match kr_name(rest(s, k as int), n) {
                        KRead::Done(x, k2) => {},
                        KRead::Fail(k2, fe) => { assert(kr_names(s, (i + 1) as nat, n) == KRead::<Seq<NameIndex>>::Fail(k + k2, fe)); },
                        KRead::Eof => { assert(kr_names(s, (i + 1) as nat, n) == KRead::<Seq<NameIndex>>::Eof); },
                    }
                    lemma_names_stuck(s, (i + 1) as nat, count as nat, n);
                }
                return Err(e);
            },
        };
        proof { lemma_advance(r0, *reader); }
        path.push(x);
        i = i + 1;
    }
    Ok(path)
}

impl KismetPropertyPointer {
    /// Read a `KismetPropertyPointer`: from the object version that adds the package owner, the
    /// count of the field path's names, the names and the owner; before it, a package index.
    pub fn new(reader: &mut ByteReader, name_map: &NameMap, ov: i32) -> (res: Result<Self, Error>)
        ensures
            kstepped(*old(reader), *final(reader), match res { Ok(p) => Some(p.view()), Err(_) => None }, err_of(res),
                kr_ptr(old(reader).remaining(), ov, name_map.names().len())),
    {
        let ghost s = old(reader).remaining();
        let ghost r0 = *reader;
        if ov >= VER_UE4_ADDED_PACKAGE_OWNER {
            let count = read_i32(reader)?;
            if count < 0 {
                return Err(Error::invalid_file(String::from_str("Negative field path length")));
            }
            proof { lemma_advance(r0, *reader); }
            let path = read_names(reader, name_map, count)?;
            proof { lemma_advance(r0, *reader); }
            let owner = read_i32(reader)?;
            let p = FieldPath::new(path, PackageIndex::new(owner));
            Ok(KismetPropertyPointer::from_new(p))
        } else {
            let old_index = read_idx(reader)?;
            Ok(KismetPropertyPointer::from_old(old_index))
        }
    }
}

/// Where `first_zero` finds a zero byte: the first one.
pub(crate) proof fn lemma_first_zero(s: Seq<u8>)
    ensures
        first_zero(s) matches Some(i) ==> i < s.len() && s[i as int] == 0 && forall|j: int| 0 <= j < i ==> s[j] != 0,
        first_zero(s) is None ==> forall|j: int| 0 <= j < s.len() ==> s[j] != 0,
    decreases s.len(),
{
    if s.len() > 0 && s[0] != 0 {
        lemma_first_zero(s.drop_first());
        assert forall|j: int| 1 <= j < s.len() implies s[j] == s.drop_first()[j - 1] by {}
    }
}

/// Whether the bytes of unit `j` of `s` are both zero.
pub open spec fn zero_pair_at(s: Seq<u8>, j: int) -> bool {
    s[2 * j] == 0 && s[2 * j + 1] == 0
}

/// Where `first_zero_pair` finds a pair of zero bytes: the first one.
pub(crate) proof fn lemma_first_zero_pair(s: Seq<u8>)
    ensures
        first_zero_pair(s) matches Some(i) ==> 2 * i + 2 <= s.len() && zero_pair_at(s, i as int)
            && forall|j: int| 0 <= j < i ==> !#[trigger] zero_pair_at(s, j),
        first_zero_pair(s) is None ==> forall|j: int| 0 <= j && 2 * j + 2 <= s.len() ==> !#[trigger] zero_pair_at(s, j),
    decreases s.len(),
{
    if s.len() >= 2 && !(s[0] == 0 && s[1] == 0) {
        lemma_first_zero_pair(s.skip(2));
        assert forall|j: int| 1 <= j && 2 * j + 2 <= s.len() implies #[trigger] zero_pair_at(s, j) == zero_pair_at(s.skip(2), j - 1) by {}
    }
}

/// Read a UTF-8 kismet string, ended by a zero byte.
pub(crate) fn read_kismet_string(reader: &mut ByteReader) -> (res: Result<String, Error>)
    ensures kstepped(*old(reader), *final(reader), match res { Ok(t) => Some(t@), Err(_) => None }, err_of(res), kr_str(old(reader).remaining())),
{
    let ghost s = old(reader).remaining();
    let ghost r0 = *reader;
    proof { lemma_first_zero(s); }
    let mut data: Vec<u8> = Vec::new();
    loop
        invariant_except_break
            data@.len() <= s.len(),
            reader.pos == r0.pos + data@.len(),
        invariant
            reader.data@ == r0.data@,
            s == r0.remaining(),
            r0 == *old(reader),
            data@ == s.take(data@.len() as int),
            forall|j: int| 0 <= j < data@.len() ==> s[j] != 0,
        ensures
            data@.len() < s.len(),
            s[data@.len() as int] == 0,
            reader.pos == r0.pos + data@.len() + 1,
        decreases s.len() - data@.len(),
    {
        let ghost rp = *reader;
        proof { lemma_advance(r0, rp); }
        let b = match reader.read_u8() {
            Ok(b) => b,
            Err(e) => {
                proof { lemma_first_zero(s); }
                assert(data@.len() == s.len());
                return Err(e);
            },
        };
        assert(b == s[data@.len() as int]);
        if b == 0 {
            break;
        }
        data.push(b);
        assert(data@ =~= s.take(data@.len() as int));
    }
    proof { lemma_first_zero(s); }
    let ghost i = data@.len();
    assert(first_zero(s) == Some(i as nat));
    match string_from_utf8(data) {
        Some(t) => Ok(t),
        None => Err(Error::Utf8),
    }
}

/// Read a UTF-16 kismet string, ended by a zero code unit.
pub(crate) fn read_kismet_unicode_string(reader: &mut ByteReader) -> (res: Result<String, Error>)
    ensures kstepped(*old(reader), *final(reader), match res { Ok(t) => Some(t@), Err(_) => None }, err_of(res), kr_ustr(old(reader).remaining())),
{
    let ghost s = old(reader).remaining();
    let ghost r0 = *reader;
    proof { lemma_first_zero_pair(s); }
    let mut data: Vec<u16> = Vec::new();
    loop
        invariant_except_break
            2 * data@.len() <= s.len(),
            reader.pos == r0.pos + 2 * data@.len(),
        invariant
            reader.data@ == r0.data@,
            s == r0.remaining(),
            r0 == *old(reader),
            data@ == units_of(s.take((2 * data@.len()) as int)),
            forall|j: int| 0 <= j < data@.len() ==> !#[trigger] zero_pair_at(s, j),
        ensures
            2 * data@.len() + 2 <= s.len(),
            zero_pair_at(s, data@.len() as int),
            reader.pos == r0.pos + 2 * data@.len() + 2,
        decreases s.len() - 2 * data@.len(),
    {
        let ghost rp = *reader;
        proof { lemma_advance(r0, rp); }
        let b1 = match reader.read_u8() {
            Ok(b) => b,
            Err(e) => {
                proof { lemma_first_zero_pair(s); }
                return Err(e);
            },
        };
        let ghost rq = *reader;
        proof { lemma_advance(r0, rq); }
        let b2 = match reader.read_u8() {
            Ok(b) => b,
            Err(e) => {
                proof { lemma_first_zero_pair(s); }
                return Err(e);
            },
        };
        let ghost k = (2 * data@.len()) as int;
        assert(b1 == s[k] && b2 == s[k + 1]);
        if b1 == 0 && b2 == 0 {
            break;
        }
        let ghost before = data@;
        let u: u16 = ((b2 as u16) << 8) | b1 as u16;
        proof {
            assert(u as nat == crate::bytes::le_value(s.subrange(k, k + 2))) by {
                crate::bytes::lemma_pow256_values();
                reveal_with_fuel(crate::bytes::le_value, 3);
                assert(s.subrange(k, k + 2) =~= seq![b1, b2]);
                assert(seq![b1, b2].drop_first() =~= seq![b2]);
                assert(seq![b2].drop_first() =~= Seq::<u8>::empty());
                assert(((b2 as u16) << 8) | b1 as u16 == b1 as u16 + 256 * (b2 as u16)) by (bit_vector);
            }
        }
        data.push(u);
        proof {
            let t2 = s.take((2 * data@.len()) as int);
            assert(data@ =~= units_of(t2)) by {
                assert forall|i: int| 0 <= i < data@.len() implies data@[i] == units_of(t2)[i] by {
                    if i < before.len() {
                        assert(units_of(s.take((2 * before.len()) as int))[i] == before[i]);
                        assert(t2.subrange(2 * i, 2 * i + 2) =~= s.take((2 * before.len()) as int).subrange(2 * i, 2 * i + 2));
                    } else {
                        assert(t2.subrange(2 * i, 2 * i + 2) =~= s.subrange(2 * i, 2 * i + 2));
                    }
                }
            }
            assert(!zero_pair_at(s, before.len() as int));
        }
    }
    proof { lemma_first_zero_pair(s); }
    let ghost i = data@.len();
    assert(first_zero_pair(s) == Some(i as nat));
    match string_from_utf16(data.as_slice()) {
        Some(t) => Ok(t),
        None => Err(Error::Utf16),
    }
}


/// The outcome `r` of reading a list after `prefix` was read in `p` bytes.
pub open spec fn list_after(prefix: Seq<KView>, p: nat, r: KRead<Seq<KView>>) -> KRead<Seq<KView>> {
    match r {
        KRead::Done(es, k) => KRead::Done(prefix + es, p + k),
        KRead::Fail(k, fe) => KRead::Fail(p + k, fe),
        KRead::Eof => KRead::Eof,
    }
}

/// The views of expressions with one more at the end.
pub(crate) proof fn lemma_views_push(s: Seq<KismetExpression>, e: KismetExpression)
    ensures views(s.push(e)) == views(s).push(e.view()),
{
    assert(s.push(e).subrange(0, s.len() as int) =~= s);
}

/// One step of reading a list: an expression, then the rest of the list.
pub(crate) proof fn lemma_list_step(t: Seq<u8>, end: EExprToken, ov: i32, n: nat)
    ensures
        match parse_expr(t, ov, n) {
            KRead::Done(e, k) => 1 <= k && (k <= t.len() ==> parse_list(t, end, ov, n) == if e.token() == end {
                KRead::Done(Seq::empty(), k)
            } else {
                list_after(seq![e], k, parse_list(rest(t, k as int), end, ov, n))
            }),
            KRead::Fail(k, _) => 1 <= k && (k <= t.len() ==> parse_list(t, end, ov, n)
                == list_after(Seq::empty(), k, parse_list(rest(t, k as int), end, ov, n))),
            KRead::Eof => parse_list(t, end, ov, n) is Eof,
        },
{
    match parse_list(rest(t, 1), end, ov, n) {
        _ => {},
    }
    match parse_expr(t, ov, n) {
        KRead::Done(e, k) => {
            if k <= t.len() && e.token() != end {
                match parse_list(rest(t, k as int), end, ov, n) {
                    KRead::Done(es, k2) => { assert(seq![e] + es =~= seq![e] + es); },
                    _ => {},
                }
            }
        },
        KRead::Fail(k, _) => {
            if k <= t.len() {
                match parse_list(rest(t, k as int), end, ov, n) {
                    KRead::Done(es, k2) => { assert(Seq::<KView>::empty() + es =~= es); },
                    _ => {},
                }
            }
        },
        KRead::Eof => {},
    }
}

/// Reading an expression of a list after a prefix extends the prefix.
pub(crate) proof fn lemma_list_after_push(prefix: Seq<KView>, e: KView, p: nat, k: nat, r: KRead<Seq<KView>>)
    ensures list_after(prefix, p, list_after(seq![e], k, r)) == list_after(prefix.push(e), p + k, r),
{
    match r {
        KRead::Done(es, k2) => { assert(prefix + (seq![e] + es) =~= prefix.push(e) + es); },
        _ => {},
    }
}

/// Skipping the bytes of an expression that fails keeps the prefix.
pub(crate) proof fn lemma_list_after_skip(prefix: Seq<KView>, p: nat, k: nat, r: KRead<Seq<KView>>)
    ensures list_after(prefix, p, list_after(Seq::empty(), k, r)) == list_after(prefix, p + k, r),
{
    match r {
        KRead::Done(es, k2) => { assert(prefix + (Seq::<KView>::empty() + es) =~= prefix + es); },
        _ => {},
    }
}


} // verus!
