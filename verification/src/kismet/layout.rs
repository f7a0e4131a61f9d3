//! The byte layout of assertion expressions, stated byte by byte, over all values.

use vstd::prelude::*;
use crate::archive::{rest, ser_u16};
use crate::bytes::le_value;
use super::expression::KView;
use super::parse::{KRead, body_group, parse_expr, parse_body, parse_body_0, parse_ex_assert, kr_u16, kr_boolb, lemma_parse_body};
use super::ser::{ser_body, ser_body_0, ser_ex_assert, lemma_ser_body};
use super::tokens::EExprToken;
use super::ser::ser_expr;

verus! {

/// The token of an assertion is read and written with the first group of expressions.
proof fn lemma_assert_group()
    ensures body_group(EExprToken::ExAssert) == 0,
{
    reveal(body_group);
}

/// An `ExAssert` is written as its token 0x09, the line number as a little-endian `u16`, the
/// debug flag as one byte (1 or 0), then the asserted expression.
pub proof fn lemma_ex_assert_bytes(line_number: u16, debug_mode: bool, inner: KView, ov: i32)
    ensures
        ser_expr(KView::ExAssert { line_number, debug_mode, assert_expression: Box::new(inner) }, ov).0
            == match ser_expr(inner, ov).0 {
                Some(x) => Some(seq![0x09u8, (line_number % 256) as u8, (line_number / 256) as u8,
                    if debug_mode { 1u8 } else { 0u8 }] + x),
                None => None,
            },
{
    lemma_assert_group();
    reveal_with_fuel(crate::bytes::le_bytes, 3);
    let e = KView::ExAssert { line_number, debug_mode, assert_expression: Box::new(inner) };
    assert(e.token() == EExprToken::ExAssert);
    assert(EExprToken::ExAssert.spec_value() == 0x09u8);
    assert(body_group(EExprToken::ExAssert) == 0);
    lemma_ser_body(e, ov);
    assert(ser_body(e, ov) == ser_body_0(e, ov));
    assert(ser_body_0(e, ov) == ser_ex_assert(e, ov)) by { reveal(ser_body_0); }
    match ser_expr(inner, ov).0 {
        Some(x) => {
            assert(ser_u16(line_number) =~= seq![(line_number % 256) as u8, (line_number / 256) as u8]);
            assert(ser_expr(KView::ExAssert { line_number, debug_mode, assert_expression: Box::new(inner) }, ov).0->0
                =~= seq![0x09u8, (line_number % 256) as u8, (line_number / 256) as u8,
                    if debug_mode { 1u8 } else { 0u8 }] + x);
        },
        None => {},
    }
}

/// Bytes that start with the token 0x09 are read as an `ExAssert` whose line number is the
/// little-endian `u16` of the next two bytes and whose debug flag is whether the byte after
/// them is not zero, asserting on the expression that follows.
#[verifier::spinoff_prover]
#[verifier::rlimit(40)]
pub proof fn lemma_ex_assert_read(lo: u8, hi: u8, flag: u8, t: Seq<u8>, ov: i32, n: nat)
    ensures
        parse_expr(seq![0x09u8, lo, hi, flag] + t, ov, n) == match parse_expr(t, ov, n) {
            KRead::Done(x, k) => KRead::Done(KView::ExAssert {
                line_number: (lo as int + 256 * (hi as int)) as u16,
                debug_mode: flag != 0,
                assert_expression: Box::new(x),
            }, 4 + k),
            KRead::Fail(k, e) => KRead::Fail(4 + k, e),
            KRead::Eof => KRead::Eof,
        },
{
    lemma_assert_group();
    let s = seq![0x09u8, lo, hi, flag] + t;
    let b = rest(s, 1);
    assert(b.subrange(0, 2) =~= seq![lo, hi]);
    assert(le_value(seq![lo, hi]) == lo as int + 256 * (hi as int)) by {
        reveal_with_fuel(le_value, 3);
        assert(seq![lo, hi].drop_first() =~= seq![hi]);
        assert(seq![hi].drop_first() =~= Seq::<u8>::empty());
    }
    assert(rest(b, 2)[0] == flag);
    assert(rest(rest(b, 2), 1) =~= t);
    assert(rest(b, 3) =~= t);
    assert(EExprToken::spec_from_u8(0x09u8) == Some(EExprToken::ExAssert));
    assert(body_group(EExprToken::ExAssert) == 0);
    lemma_parse_body(EExprToken::ExAssert, b, ov, n);
    assert(parse_body(EExprToken::ExAssert, b, ov, n) == parse_body_0(EExprToken::ExAssert, b, ov, n));
    assert(parse_body_0(EExprToken::ExAssert, b, ov, n) == parse_ex_assert(b, ov, n)) by { reveal(parse_body_0); }
    assert(kr_u16(b) == KRead::Done((lo as int + 256 * (hi as int)) as u16, 2nat));
    assert(kr_boolb(rest(b, 2)) == KRead::Done(flag != 0, 1nat));
}

} // verus!
