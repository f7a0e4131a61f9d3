//! Reading back the parts of kismet bytecode that hold no expressions: integers, names,
//! tokens and strings.

use vstd::prelude::*;
use vstd::utf8::{encode_utf8, encode_scalar, encode_utf8_valid_utf8, encode_utf8_decode_utf8, char_is_scalar, char_u32_cast};
use crate::archive::{ser_u16, ser_u32, ser_i32, ser_u64, ser_i64, units_bytes, units_of, lemma_ser_values, lemma_units_of_bytes};
use crate::asset::name_map::ser_fname;
use crate::bytes::le_value;
use crate::strings::{utf16_encode, utf16_units_of, lemma_utf16_roundtrip};
use crate::types::{NameIndex, PackageIndex, Vector};
use super::parse::{
    KRead, KErr, first_zero, first_zero_pair, kr_boolb, kr_cast, kr_i32, kr_i64, kr_idx, kr_name, kr_rot4, kr_str, kr_u16,
    kr_u32, kr_u64, kr_u8, kr_ustr, kr_vec3,
};
use super::read::{lemma_first_zero, lemma_first_zero_pair, zero_pair_at};
use super::ser::{ser_kstr, ser_kustr, ser_vec3, ser_rot4};
use super::tokens::{EExprToken, ECastToken, EScriptInstrumentationType, EBlueprintTextLiteralType};

verus! {

/// A string that a kismet string holds exactly: it has no NUL character, which would end it.
pub open spec fn no_nul(t: Seq<char>) -> bool {
    forall|i: int| 0 <= i < t.len() ==> t[i] != '\0'
}

/// Each token but the last reads back from its byte.
pub proof fn lemma_token_byte(t: EExprToken)
    requires t != EExprToken::ExMax,
    ensures EExprToken::spec_from_u8(t.spec_value()) == Some(t),
{
}

/// Each cast token reads back from its byte.
pub proof fn lemma_cast_byte(c: ECastToken)
    ensures ECastToken::spec_from_u8(c.spec_value()) == Some(c),
{
}

/// Each instrumentation type reads back from its byte.
pub proof fn lemma_instrumentation_byte(t: EScriptInstrumentationType)
    ensures EScriptInstrumentationType::spec_from_u8(t.spec_value()) == Some(t),
{
}

/// Each text literal type reads back from its byte.
pub proof fn lemma_literal_byte(t: EBlueprintTextLiteralType)
    ensures EBlueprintTextLiteralType::spec_from_u8(t.spec_value()) == Some(t),
{
}

/// Integers read back from their little-endian bytes, whatever follows.
pub proof fn lemma_kr_ints(a: u16, b: u32, c: u64, d: i32, e: i64, r: Seq<u8>)
    ensures
        kr_u16(ser_u16(a) + r) == KRead::Done(a, 2),
        kr_u32(ser_u32(b) + r) == KRead::Done(b, 4),
        kr_u64(ser_u64(c) + r) == KRead::Done(c, 8),
        kr_i32(ser_i32(d) + r) == KRead::Done(d, 4),
        kr_idx(ser_i32(d) + r) == KRead::Done(PackageIndex { index: d }, 4),
        kr_i64(ser_i64(e) + r) == KRead::Done(e, 8),
        ser_u16(a).len() == 2, ser_u32(b).len() == 4, ser_u64(c).len() == 8, ser_i32(d).len() == 4, ser_i64(e).len() == 8,
{
    lemma_ser_values(a, b, c, d, e);
    assert((ser_u16(a) + r).subrange(0, 2) =~= ser_u16(a));
    assert((ser_u32(b) + r).subrange(0, 4) =~= ser_u32(b));
    assert((ser_u64(c) + r).subrange(0, 8) =~= ser_u64(c));
    assert((ser_i32(d) + r).subrange(0, 4) =~= ser_i32(d));
    assert((ser_i64(e) + r).subrange(0, 8) =~= ser_i64(e));
}

/// A byte, a boolean and a cast token read back, whatever follows.
pub proof fn lemma_kr_bytes(x: u8, b: bool, c: ECastToken, r: Seq<u8>)
    ensures
        kr_u8(seq![x] + r) == KRead::Done(x, 1),
        kr_boolb(seq![if b { 1u8 } else { 0u8 }] + r) == KRead::Done(b, 1),
        kr_cast(seq![c.spec_value()] + r) == KRead::Done(c, 1),
{
    lemma_cast_byte(c);
}

/// A name of the name map reads back, whatever follows.
pub proof fn lemma_kr_name(x: NameIndex, n: nat, r: Seq<u8>)
    requires 0 <= x.index < n,
    ensures kr_name(ser_fname(x) + r, n) == KRead::Done(x, 8), ser_fname(x).len() == 8,
{
    let s = ser_fname(x) + r;
    lemma_ser_values(0, 0, 0, x.index, 0);
    lemma_ser_values(0, 0, 0, x.number, 0);
    assert(s.subrange(0, 4) =~= ser_i32(x.index));
    assert(s.subrange(4, 8) =~= ser_i32(x.number));
}

/// Three and four `u32`s read back, whatever follows.
pub proof fn lemma_kr_vectors(v: Vector<u32>, q: (u32, u32, u32, u32), r: Seq<u8>)
    ensures
        kr_vec3(ser_vec3(v) + r) == KRead::Done(v, 12),
        kr_rot4(ser_rot4(q) + r) == KRead::Done(q, 16),
        ser_vec3(v).len() == 12,
        ser_rot4(q).len() == 16,
{
    lemma_ser_values(0, v.x, 0, 0, 0);
    lemma_ser_values(0, v.y, 0, 0, 0);
    lemma_ser_values(0, v.z, 0, 0, 0);
    let s = ser_vec3(v) + r;
    assert(s.subrange(0, 4) =~= ser_u32(v.x));
    assert(s.subrange(4, 8) =~= ser_u32(v.y));
    assert(s.subrange(8, 12) =~= ser_u32(v.z));
    lemma_ser_values(0, q.0, 0, 0, 0);
    lemma_ser_values(0, q.1, 0, 0, 0);
    lemma_ser_values(0, q.2, 0, 0, 0);
    lemma_ser_values(0, q.3, 0, 0, 0);
    let t = ser_rot4(q) + r;
    assert(t.subrange(0, 4) =~= ser_u32(q.0));
    assert(t.subrange(4, 8) =~= ser_u32(q.1));
    assert(t.subrange(8, 12) =~= ser_u32(q.2));
    assert(t.subrange(12, 16) =~= ser_u32(q.3));
}

/// The UTF-8 bytes of a character other than NUL are not zero.
proof fn lemma_scalar_nonzero(c: char)
    requires c != '\0',
    ensures forall|j: int| 0 <= j < encode_scalar(c as u32).len() ==> #[trigger] encode_scalar(c as u32)[j] != 0,
{
    char_is_scalar(c);
    char_u32_cast(c, c as u32);
    let v = c as u32;
    assert(v != 0);
    assert(0 < v <= 0x7F ==> (v & 0x7F) as u8 != 0) by (bit_vector);
    assert(forall|x: u8| #[trigger] (0xC0u8 | x) != 0) by (bit_vector);
    assert(forall|x: u8| #[trigger] (0xE0u8 | x) != 0) by (bit_vector);
    assert(forall|x: u8| #[trigger] (0xF0u8 | x) != 0) by (bit_vector);
    assert(forall|x: u8| #[trigger] (0x80u8 | x) != 0) by (bit_vector);
}

/// The UTF-8 bytes of a string without NUL are not zero.
proof fn lemma_utf8_nonzero(t: Seq<char>)
    requires no_nul(t),
    ensures forall|j: int| 0 <= j < encode_utf8(t).len() ==> #[trigger] encode_utf8(t)[j] != 0,
    decreases t.len(),
{
    if t.len() > 0 {
        let a = encode_scalar(t[0] as u32);
        let b = encode_utf8(t.drop_first());
        lemma_scalar_nonzero(t[0]);
        assert(no_nul(t.drop_first())) by {
            assert forall|i: int| 0 <= i < t.drop_first().len() implies t.drop_first()[i] != '\0' by {
                assert(t.drop_first()[i] == t[i + 1]);
            }
        }
        lemma_utf8_nonzero(t.drop_first());
        assert(encode_utf8(t) == a + b);
        assert forall|j: int| 0 <= j < encode_utf8(t).len() implies encode_utf8(t)[j] != 0 by {
            if j < a.len() {
                assert(encode_utf8(t)[j] == a[j]);
            } else {
                assert(encode_utf8(t)[j] == b[j - a.len()]);
            }
        }
    }
}

/// A UTF-8 kismet string without NUL reads back, whatever follows.
pub proof fn lemma_kr_str(t: Seq<char>, r: Seq<u8>)
    requires no_nul(t),
    ensures
        ser_kstr(t).0 is Some,
        kr_str(ser_kstr(t).0->0 + r) == KRead::Done(t, ser_kstr(t).0->0.len()),
{
    let enc = encode_utf8(t);
    let s = enc.push(0u8) + r;
    lemma_utf8_nonzero(t);
    lemma_first_zero(s);
    assert(s[enc.len() as int] == 0);
    assert forall|j: int| 0 <= j < enc.len() implies s[j] != 0 by {
        assert(s[j] == enc[j]);
    }
    assert(first_zero(s) == Some(enc.len()));
    assert(s.take(enc.len() as int) =~= enc);
    encode_utf8_valid_utf8(t);
    encode_utf8_decode_utf8(t);
}

/// The UTF-16 code units of a string without NUL are not zero.
proof fn lemma_utf16_nonzero(t: Seq<char>)
    requires no_nul(t),
    ensures forall|j: int| 0 <= j < utf16_encode(t).len() ==> #[trigger] utf16_encode(t)[j] != 0,
    decreases t.len(),
{
    if t.len() > 0 {
        let p = t.drop_last();
        let c = t.last();
        assert(no_nul(p)) by {
            assert forall|i: int| 0 <= i < p.len() implies p[i] != '\0' by {
                assert(p[i] == t[i]);
            }
        }
        lemma_utf16_nonzero(p);
        char_is_scalar(c);
        char_u32_cast(c, c as u32);
        assert(c != '\0');
        assert((c as u32) != 0);
        let a = utf16_encode(p);
        let u = utf16_units_of(c);
        assert(utf16_encode(t) == a + u);
        assert forall|j: int| 0 <= j < u.len() implies u[j] != 0 by {
            let v = c as u32;
            if v < 0x10000 {
                assert((v as u16) as u32 == v);
            } else {
                let w = (v - 0x10000) as u32;
                assert(w <= 0xFFFFF);
                assert(w / 0x400 <= 0x3FF);
                assert(w % 0x400 < 0x400);
            }
        }
        assert forall|j: int| 0 <= j < utf16_encode(t).len() implies utf16_encode(t)[j] != 0 by {
            if j < a.len() {
                assert(utf16_encode(t)[j] == a[j]);
            } else {
                assert(utf16_encode(t)[j] == u[j - a.len()]);
            }
        }
    }
}

/// A UTF-16 kismet string without NUL reads back, whatever follows.
pub proof fn lemma_kr_ustr(t: Seq<char>, r: Seq<u8>)
    requires no_nul(t),
    ensures
        ser_kustr(t).0 is Some,
        kr_ustr(ser_kustr(t).0->0 + r) == KRead::Done(t, ser_kustr(t).0->0.len()),
{
    let u = utf16_encode(t);
    let b = units_bytes(u);
    let s = b + seq![0u8, 0u8] + r;
    lemma_units_of_bytes(u);
    lemma_utf16_nonzero(t);
    lemma_first_zero_pair(s);
    assert(zero_pair_at(s, u.len() as int));
    assert forall|j: int| 0 <= j < u.len() implies !#[trigger] zero_pair_at(s, j) by {
        assert(units_of(b)[j] == u[j]);
        assert(s.subrange(2 * j, 2 * j + 2) =~= b.subrange(2 * j, 2 * j + 2));
        assert(s.subrange(2 * j, 2 * j + 2) =~= seq![s[2 * j], s[2 * j + 1]]);
        if s[2 * j] == 0 && s[2 * j + 1] == 0 {
            crate::bytes::lemma_pow256_values();
            reveal_with_fuel(le_value, 3);
            assert(seq![s[2 * j], s[2 * j + 1]].drop_first() =~= seq![s[2 * j + 1]]);
            assert(seq![s[2 * j + 1]].drop_first() =~= Seq::<u8>::empty());
            assert(le_value(seq![s[2 * j], s[2 * j + 1]]) == 0);
        }
    }
    assert(first_zero_pair(s) == Some(u.len()));
    assert(s.take((2 * u.len()) as int) =~= b);
    lemma_utf16_roundtrip(t);
}

} // verus!
