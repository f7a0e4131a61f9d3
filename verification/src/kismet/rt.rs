//! Reading back what was written: a kismet expression that fits reads back from its bytes as
//! it was, whatever follows it.

use vstd::prelude::*;
use crate::archive::{rest, ser_i32, ser_u32, ser_u16, lemma_ser_values};
use crate::asset::name_map::ser_fname;
use crate::engine_version::VER_UE4_ADDED_PACKAGE_OWNER;
use crate::types::{NameIndex, PackageIndex};
use super::expression::{KView, PointerView, TextView, SwitchCaseView};
use super::fits::{kfits, ptr_fits, list_fits, opt_fits, cases_fits, text_fits};
use super::parse::{
    KRead, KErr, body_group, parse_expr, parse_body, parse_body_0, parse_body_1, parse_body_2, parse_body_3, parse_body_4,
    parse_list, parse_cases, parse_case, parse_text, kr_names, kr_ptr, lemma_parse_body,
};
use super::rt_prim::{lemma_token_byte, lemma_literal_byte, lemma_kr_ints, lemma_kr_name};
use super::rt_body::{
    lemma_rt_body_0, lemma_rt_body_1, lemma_rt_body_2, lemma_rt_body_3, lemma_rt_body_4, lemma_in_group_0, lemma_in_group_1,
    lemma_in_group_2, lemma_in_group_3, lemma_in_group_4,
};
use super::ser::{
    wcat, wlit, ser_expr, ser_body, ser_body_0, ser_body_1, ser_body_2, ser_body_3, ser_body_4, ser_list, ser_opt,
    ser_cases, ser_text, ser_names, ser_ptr, lemma_ser_body,
};
use super::tokens::{EExprToken, EBlueprintTextLiteralType};

verus! {

/// Writes one after the other group either way.
pub proof fn lemma_wcat_assoc(a: (Option<Seq<u8>>, nat), b: (Option<Seq<u8>>, nat), c: (Option<Seq<u8>>, nat))
    ensures wcat(wcat(a, b), c) == wcat(a, wcat(b, c)),
{
    if a.0 is Some && b.0 is Some && c.0 is Some {
        assert(a.0->0 + b.0->0 + c.0->0 =~= a.0->0 + (b.0->0 + c.0->0));
    }
}

/// A list is written as its first expression, then the rest of the list.
pub proof fn lemma_ser_list_front(es: Seq<KView>, ov: i32)
    requires es.len() > 0,
    ensures ser_list(es, ov) == wcat(ser_expr(es[0], ov), ser_list(es.subrange(1, es.len() as int), ov)),
    decreases es.len(),
{
    let init = es.subrange(0, es.len() - 1);
    let tl = es.subrange(1, es.len() as int);
    let x = ser_expr(es[0], ov);
    if es.len() == 1 {
        assert(init =~= Seq::<KView>::empty());
        assert(tl =~= Seq::<KView>::empty());
        if x.0 is Some {
            assert(Seq::<u8>::empty() + x.0->0 =~= x.0->0 + Seq::<u8>::empty());
        }
    } else {
        lemma_ser_list_front(init, ov);
        assert(init[0] == es[0]);
        assert(init.subrange(1, init.len() as int) =~= tl.subrange(0, tl.len() - 1));
        assert(tl[tl.len() - 1] == es[es.len() - 1]);
        lemma_wcat_assoc(x, ser_list(init.subrange(1, init.len() as int), ov), ser_expr(es[es.len() - 1], ov));
    }
}

/// The tokens of expressions are not the last token, and lie in a group.
pub proof fn lemma_kview_token(e: KView)
    ensures
        e.token() != EExprToken::ExMax,
        body_group(e.token()) <= 4,
{
    reveal(body_group);
}

/// Whether `t` is a token that ends a list.
pub open spec fn is_end_token(t: EExprToken) -> bool {
    ||| t == EExprToken::ExEndFunctionParms
    ||| t == EExprToken::ExEndStructConst
    ||| t == EExprToken::ExEndArray
    ||| t == EExprToken::ExEndArrayConst
    ||| t == EExprToken::ExEndSet
    ||| t == EExprToken::ExEndMap
    ||| t == EExprToken::ExEndSetConst
    ||| t == EExprToken::ExEndMapConst
}

/// The byte of a token that ends a list reads back as an expression of that token.
pub proof fn lemma_end_token(end: EExprToken, ov: i32, n: nat, r: Seq<u8>)
    requires is_end_token(end),
    ensures
        parse_expr(seq![end.spec_value()] + r, ov, n) matches KRead::Done(v, k) && k == 1 && v.token() == end,
{
    let s = seq![end.spec_value()] + r;
    lemma_token_byte(end);
    assert(rest(s, 1) =~= r);
    lemma_parse_body(end, r, ov, n);
    reveal(body_group);
    reveal(parse_body_0);
    reveal(parse_body_1);
    reveal(parse_body_2);
    reveal(parse_body_3);
    reveal(parse_body_4);
}

/// Names of the name map read back, whatever follows.
pub proof fn lemma_rt_names(path: Seq<NameIndex>, n: nat, r: Seq<u8>)
    requires forall|i: int| 0 <= i < path.len() ==> 0 <= #[trigger] path[i].index < n,
    ensures
        ser_names(path).len() == 8 * path.len(),
        kr_names(ser_names(path) + r, path.len(), n) == KRead::Done(path, 8 * path.len()),
    decreases path.len(),
{
    if path.len() == 0 {
        assert(path =~= Seq::<NameIndex>::empty());
    } else {
        let p = path.drop_last();
        let x = path.last();
        assert(0 <= path[path.len() - 1].index < n);
        lemma_kr_name(x, n, r);
        assert forall|i: int| 0 <= i < p.len() implies 0 <= #[trigger] p[i].index < n by {
            assert(p[i] == path[i]);
        }
        lemma_rt_names(p, n, ser_fname(x) + r);
        let s = ser_names(path) + r;
        assert(s =~= ser_names(p) + (ser_fname(x) + r));
        assert(rest(s, (8 * p.len()) as int) =~= ser_fname(x) + r);
        assert(p.push(x) =~= path);
    }
}

/// A property pointer that fits reads back, whatever follows.
pub proof fn lemma_rt_ptr(p: PointerView, ov: i32, n: nat, r: Seq<u8>)
    requires ptr_fits(p, ov, n),
    ensures
        ser_ptr(p, ov).0 is Some,
        kr_ptr(ser_ptr(p, ov).0->0 + r, ov, n) == KRead::Done(p, ser_ptr(p, ov).0->0.len()),
{
    if ov >= VER_UE4_ADDED_PACKAGE_OWNER {
        let f = p.new->0;
        let len = f.path.len();
        let c = len as i32;
        assert(c as int == len);
        let owner = f.resolved_owner.index;
        lemma_kr_ints(0, 0, 0, owner, 0, r);
        lemma_rt_names(f.path, n, ser_i32(owner) + r);
        let t1 = ser_names(f.path) + (ser_i32(owner) + r);
        lemma_kr_ints(0, 0, 0, c, 0, t1);
        let bytes = ser_i32(c) + ser_names(f.path) + ser_i32(owner);
        let s = bytes + r;
        assert(s =~= ser_i32(c) + t1);
        assert(rest(s, 4) =~= t1);
        assert(rest(s, (4 + 8 * len) as int) =~= ser_i32(owner) + r);
        assert(f.resolved_owner == PackageIndex { index: owner });
    } else {
        let i = p.old->0;
        lemma_kr_ints(0, 0, 0, i.index, 0, r);
        assert(i == PackageIndex { index: i.index });
    }
}

/// A kismet expression that fits reads back from its bytes as it was, whatever follows: the
/// reader takes exactly the bytes that the writer wrote.
#[verifier::spinoff_prover]
#[verifier::rlimit(80)]
pub proof fn lemma_kismet_roundtrip(e: KView, ov: i32, n: nat, r: Seq<u8>)
    requires kfits(e, ov, n),
    ensures
        ser_expr(e, ov).0 is Some,
        parse_expr(ser_expr(e, ov).0->0 + r, ov, n) == KRead::Done(e, ser_expr(e, ov).0->0.len()),
    decreases e, 4int,
{
    let t = e.token();
    lemma_kview_token(e);
    lemma_token_byte(t);
    lemma_rt_body(e, ov, n, r);
    let b = ser_body(e, ov).0->0;
    let s = seq![t.spec_value()] + b + r;
    assert(ser_expr(e, ov).0->0 + r =~= s);
    assert(rest(s, 1) =~= b + r);
}

/// What an expression that fits holds reads back, whatever follows.
#[verifier::spinoff_prover]
#[verifier::rlimit(80)]
pub proof fn lemma_rt_body(e: KView, ov: i32, n: nat, r: Seq<u8>)
    requires kfits(e, ov, n),
    ensures
        ser_body(e, ov).0 is Some,
        parse_body(e.token(), ser_body(e, ov).0->0 + r, ov, n) == KRead::Done(e, ser_body(e, ov).0->0.len()),
    decreases e, 3int,
{
    let t = e.token();
    let g = body_group(t);
    lemma_kview_token(e);
    lemma_ser_body(e, ov);
    lemma_in_group_0(e);
    lemma_in_group_1(e);
    lemma_in_group_2(e);
    lemma_in_group_3(e);
    lemma_in_group_4(e);
    if g == 0 {
        lemma_rt_body_0(e, ov, n, r);
        lemma_parse_body(t, ser_body_0(e, ov).0->0 + r, ov, n);
    } else if g == 1 {
        lemma_rt_body_1(e, ov, n, r);
        lemma_parse_body(t, ser_body_1(e, ov).0->0 + r, ov, n);
    } else if g == 2 {
        lemma_rt_body_2(e, ov, n, r);
        lemma_parse_body(t, ser_body_2(e, ov).0->0 + r, ov, n);
    } else if g == 3 {
        lemma_rt_body_3(e, ov, n, r);
        lemma_parse_body(t, ser_body_3(e, ov).0->0 + r, ov, n);
    } else {
        lemma_rt_body_4(e, ov, n, r);
        lemma_parse_body(t, ser_body_4(e, ov).0->0 + r, ov, n);
    }
}

/// A list of expressions that fits, with its end token, reads back, whatever follows.
#[verifier::spinoff_prover]
#[verifier::rlimit(80)]
pub proof fn lemma_rt_list(es: Seq<KView>, end: EExprToken, ov: i32, n: nat, r: Seq<u8>)
    requires
        list_fits(es, end, ov, n),
        is_end_token(end),
    ensures
        ser_list(es, ov).0 is Some,
        parse_list(ser_list(es, ov).0->0 + (seq![end.spec_value()] + r), end, ov, n)
            == KRead::Done(es, ser_list(es, ov).0->0.len() + 1),
    decreases es, 0int,
{
    reveal(kfits);
    let eb = seq![end.spec_value()];
    if es.len() == 0 {
        lemma_end_token(end, ov, n, r);
        assert(ser_list(es, ov).0->0 + (eb + r) =~= eb + r);
        assert(es =~= Seq::<KView>::empty());
    } else {
        let x = es[0];
        let tl = es.subrange(1, es.len() as int);
        lemma_ser_list_front(es, ov);
        lemma_rt_list(tl, end, ov, n, r);
        let lt = ser_list(tl, ov).0->0;
        let t2 = lt + (eb + r);
        lemma_kismet_roundtrip(x, ov, n, t2);
        let bx = ser_expr(x, ov).0->0;
        let s = ser_list(es, ov).0->0 + (eb + r);
        assert(s =~= bx + t2);
        assert(bx.len() >= 1);
        assert(rest(s, bx.len() as int) =~= t2);
        assert(seq![x] + tl =~= es);
    }
}

/// An expression that is there and fits reads back, whatever follows.
#[verifier::spinoff_prover]
#[verifier::rlimit(80)]
pub proof fn lemma_rt_opt(o: Option<KView>, ov: i32, n: nat, r: Seq<u8>)
    requires opt_fits(o, ov, n),
    ensures
        ser_opt(o, ov).0 is Some,
        parse_expr(ser_opt(o, ov).0->0 + r, ov, n) == KRead::Done(o->0, ser_opt(o, ov).0->0.len()),
    decreases o, 0int,
{
    reveal(kfits);
    match o {
        Some(x) => {
            lemma_kismet_roundtrip(x, ov, n, r);
        },
        None => {},
    }
}

/// Switch cases that fit read back, whatever follows.
#[verifier::spinoff_prover]
#[verifier::rlimit(80)]
pub proof fn lemma_rt_cases(cs: Seq<SwitchCaseView>, ov: i32, n: nat, r: Seq<u8>)
    requires cases_fits(cs, ov, n),
    ensures
        ser_cases(cs, ov).0 is Some,
        parse_cases(ser_cases(cs, ov).0->0 + r, cs.len(), ov, n) == KRead::Done(cs, ser_cases(cs, ov).0->0.len()),
    decreases cs, 0int,
{
    reveal(kfits);
    if cs.len() == 0 {
        assert(cs =~= Seq::<SwitchCaseView>::empty());
    } else {
        let p = cs.subrange(0, cs.len() - 1);
        let c = cs[cs.len() - 1];
        lemma_kismet_roundtrip(c.case_term, ov, n, r);
        let b3 = ser_expr(c.case_term, ov).0->0;
        let t3 = b3 + r;
        lemma_kr_ints(0, c.next_offset, 0, 0, 0, t3);
        let b2 = ser_u32(c.next_offset);
        let t2 = b2 + t3;
        lemma_kismet_roundtrip(c.case_index_value_term, ov, n, t2);
        let b1 = ser_expr(c.case_index_value_term, ov).0->0;
        let t1 = b1 + t2;
        lemma_rt_cases(p, ov, n, t1);
        let b0 = ser_cases(p, ov).0->0;
        let s = ser_cases(cs, ov).0->0 + r;
        assert(s =~= b0 + t1);
        assert(rest(s, b0.len() as int) =~= t1);
        let u = rest(s, b0.len() as int);
        assert(rest(u, b1.len() as int) =~= t2);
        assert(rest(u, (b1.len() + b2.len()) as int) =~= t3);
        assert(parse_case(u, ov, n) == KRead::Done(c, b1.len() + b2.len() + b3.len()));
        assert(p.push(c) =~= cs);
    }
}

/// A script text that fits reads back, whatever follows.
#[verifier::spinoff_prover]
#[verifier::rlimit(80)]
pub proof fn lemma_rt_text(t: TextView, ov: i32, n: nat, r: Seq<u8>)
    requires text_fits(t, ov, n),
    ensures
        ser_text(t, ov).0 is Some,
        parse_text(ser_text(t, ov).0->0 + r, ov, n) == KRead::Done(t, ser_text(t, ov).0->0.len()),
    decreases t, 0int,
{
    let ty = t.text_literal_type;
    lemma_literal_byte(ty);
    let h = seq![ty.spec_value()];
    match ty {
        EBlueprintTextLiteralType::Empty => {
            let s = h + r;
            assert(ser_text(t, ov).0->0 + r =~= s);
        },
        EBlueprintTextLiteralType::LocalizedText => {
            lemma_rt_opt(t.localized_namespace, ov, n, r);
            let b3 = ser_opt(t.localized_namespace, ov).0->0;
            let t3 = b3 + r;
            lemma_rt_opt(t.localized_key, ov, n, t3);
            let b2 = ser_opt(t.localized_key, ov).0->0;
            let t2 = b2 + t3;
            lemma_rt_opt(t.localized_source, ov, n, t2);
            let b1 = ser_opt(t.localized_source, ov).0->0;
            let t1 = b1 + t2;
            let s = ser_text(t, ov).0->0 + r;
            assert(s =~= h + t1);
            let u = rest(s, 1);
            assert(u =~= t1);
            assert(rest(u, b1.len() as int) =~= t2);
            assert(rest(u, (b1.len() + b2.len()) as int) =~= t3);
        },
        EBlueprintTextLiteralType::InvariantText => {
            lemma_rt_opt(t.invariant_literal_string, ov, n, r);
            let b1 = ser_opt(t.invariant_literal_string, ov).0->0;
            let s = ser_text(t, ov).0->0 + r;
            assert(s =~= h + (b1 + r));
            assert(rest(s, 1) =~= b1 + r);
        },
        EBlueprintTextLiteralType::LiteralString => {
            lemma_rt_opt(t.literal_string, ov, n, r);
            let b1 = ser_opt(t.literal_string, ov).0->0;
            let s = ser_text(t, ov).0->0 + r;
            assert(s =~= h + (b1 + r));
            assert(rest(s, 1) =~= b1 + r);
        },
        EBlueprintTextLiteralType::StringTableEntry => {
            lemma_rt_opt(t.string_table_key, ov, n, r);
            let b3 = ser_opt(t.string_table_key, ov).0->0;
            let t3 = b3 + r;
            lemma_rt_opt(t.string_table_id, ov, n, t3);
            let b2 = ser_opt(t.string_table_id, ov).0->0;
            let t2 = b2 + t3;
            let i = t.string_table_asset->0;
            lemma_kr_ints(0, 0, 0, i.index, 0, t2);
            let b1 = ser_i32(i.index);
            let t1 = b1 + t2;
            let s = ser_text(t, ov).0->0 + r;
            assert(s =~= h + t1);
            let u = rest(s, 1);
            assert(u =~= t1);
            assert(rest(u, 4) =~= t2);
            assert(rest(u, (4 + b2.len()) as int) =~= t3);
            assert(i == PackageIndex { index: i.index });
        },
    }
}

} // verus!
