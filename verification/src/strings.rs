//! Text encodings: UTF-8 and UTF-16, and the std conversions that decode them.

use vstd::prelude::*;
use vstd::utf8::*;

verus! {

/// UTF-16 code units of one character.
pub open spec fn utf16_units_of(c: char) -> Seq<u16> {
    let v = c as u32;
    if v < 0x10000 {
        seq![v as u16]
    } else {
        let w = (v - 0x10000) as u32;
        seq![(0xD800 + w / 0x400) as u16, (0xDC00 + w % 0x400) as u16]
    }
}

/// UTF-16 code units of a string.
pub open spec fn utf16_encode(t: Seq<char>) -> Seq<u16>
    decreases t.len(),
{
    if t.len() == 0 { Seq::empty() } else { utf16_encode(t.drop_last()) + utf16_units_of(t.last()) }
}

/// Whether a code unit is a high (leading) surrogate.
pub open spec fn is_high_surrogate(u: u16) -> bool {
    0xD800 <= u <= 0xDBFF
}

/// Whether a code unit is a low (trailing) surrogate.
pub open spec fn is_low_surrogate(u: u16) -> bool {
    0xDC00 <= u <= 0xDFFF
}

/// The string that UTF-16 code units decode to, or `None` where a surrogate is unpaired.
pub open spec fn utf16_decode(u: Seq<u16>) -> Option<Seq<char>>
    decreases u.len(),
{
    if u.len() == 0 {
        Some(Seq::empty())
    } else {
        let last = u.last();
        if is_low_surrogate(last) {
            if u.len() >= 2 && is_high_surrogate(u[u.len() - 2]) {
                let hi = u[u.len() - 2];
                match utf16_decode(u.take(u.len() - 2)) {
                    Some(t) => Some(t.push(
                        (((hi - 0xD800) * 0x400 + (last - 0xDC00) + 0x10000) as u32) as char,
                    )),
                    None => None,
                }
            } else {
                None
            }
        } else if is_high_surrogate(last) {
            None
        } else {
            match utf16_decode(u.drop_last()) {
                Some(t) => Some(t.push((last as u32) as char)),
                None => None,
            }
        }
    }
}

/// Decoding the UTF-16 encoding of a string gives back the string.
pub proof fn lemma_utf16_roundtrip(t: Seq<char>)
    ensures utf16_decode(utf16_encode(t)) == Some(t),
    decreases t.len(),
{
    if t.len() > 0 {
        let p = t.drop_last();
        let c = t.last();
        lemma_utf16_roundtrip(p);
        let e = utf16_encode(p);
        let u = utf16_encode(t);
        assert(u == e + utf16_units_of(c));
        vstd::utf8::char_is_scalar(c);
        let v = c as u32;
        if v < 0x10000 {
            assert(u.drop_last() =~= e);
            assert(!(0xD800 <= v <= 0xDFFF));
            assert(((v as u16) as u32) == v);
            vstd::utf8::char_u32_cast(c, v);
        } else {
            let w = (v - 0x10000) as u32;
            let hi = (0xD800 + w / 0x400) as u16;
            let lo = (0xDC00 + w % 0x400) as u16;
            assert(w / 0x400 < 0x400 && w % 0x400 < 0x400);
            assert(u.take(u.len() - 2) =~= e);
            assert(u[u.len() - 2] == hi && u.last() == lo);
            assert((hi - 0xD800) * 0x400 + (lo - 0xDC00) + 0x10000 == v) by {
                vstd::arithmetic::div_mod::lemma_fundamental_div_mod(w as int, 0x400);
            }
            vstd::utf8::char_u32_cast(c, v);
            assert((((hi - 0xD800) * 0x400 + (lo - 0xDC00) + 0x10000) as u32) == v);
        }
        assert(t =~= p.push(c));
    }
}

/// `String::from_utf16`: the decoded string, or `None` where the units are not valid UTF-16.
#[verifier::external_body]
pub(crate) fn string_from_utf16(units: &[u16]) -> (r: Option<String>)
    ensures
        match r {
            Some(s) => utf16_decode(units@) == Some(s@),
            None => utf16_decode(units@) is None,
        },
{
    String::from_utf16(units).ok()
}

/// `str::encode_utf16`, collected: the code units of the string.
#[verifier::external_body]
pub(crate) fn encode_utf16(s: &str) -> (r: Vec<u16>)
    ensures r@ == utf16_encode(s@),
{
    s.encode_utf16().collect()
}

/// `String::from_utf8`: the decoded string, or `None` where the bytes are not valid UTF-8.
#[verifier::external_body]
pub(crate) fn string_from_utf8(bytes: Vec<u8>) -> (r: Option<String>)
    ensures
        r is Some <==> valid_utf8(bytes@),
        r matches Some(s) ==> s@ == decode_utf8(bytes@),
{
    String::from_utf8(bytes).ok()
}

} // verus!
