//! What reading kismet bytecode gives: the outcome of reading each part from given bytes.

use vstd::prelude::*;
use vstd::utf8::{valid_utf8, decode_utf8};
use crate::archive::{rest, units_of};
use crate::engine_version::VER_UE4_ADDED_PACKAGE_OWNER;
use crate::exports::base_export::{i32_at, u32_in, i64_at};
use crate::fproperty::{u16_in, u64_in};
use crate::strings::utf16_decode;
use crate::types::{NameIndex, PackageIndex, Vector};
use super::expression::{KView, PointerView, FieldPathView, TextView, SwitchCaseView};
use super::tokens::{EExprToken, ECastToken, EScriptInstrumentationType, EBlueprintTextLiteralType};

verus! {

/// The object version from which a set-array expression holds its assigning property.
pub const VER_UE4_CHANGE_SETARRAY_BYTECODE: i32 = 316;

/// Why a read of kismet bytecode failed, other than by the end of the bytes.
pub enum KErr {
    /// A name index outside a name map of the given size
    Name(i32, usize),
    /// A value that names no member of the enum of the given name
    Enum(Seq<char>),
    /// A negative length of a field path
    NegativePath,
    /// Bytes that are not UTF-8
    Utf8,
    /// Code units that are not UTF-16
    Utf16,
    /// The end-of-tokens value where an expression starts
    UnknownExpression,
    /// A token that no reader handles
    Token,
}

/// The outcome of reading a value from some bytes: the value and the number of bytes read;
/// a failure after reading some bytes; or the end of the bytes.
pub enum KRead<T> {
    /// The value, and the number of bytes read
    Done(T, nat),
    /// A failure, the number of bytes read before it, and why it failed
    Fail(nat, KErr),
    /// The bytes ended
    Eof,
}

/// A byte.
pub open spec fn kr_u8(s: Seq<u8>) -> KRead<u8> {
    if s.len() >= 1 { KRead::Done(s[0], 1) } else { KRead::Eof }
}

/// A byte read as a boolean: true where it is not zero.
pub open spec fn kr_boolb(s: Seq<u8>) -> KRead<bool> {
    if s.len() >= 1 { KRead::Done(s[0] > 0, 1) } else { KRead::Eof }
}

/// A little-endian `u16`.
pub open spec fn kr_u16(s: Seq<u8>) -> KRead<u16> {
    if s.len() >= 2 { KRead::Done(u16_in(s, 0), 2) } else { KRead::Eof }
}

/// A little-endian `u32`.
pub open spec fn kr_u32(s: Seq<u8>) -> KRead<u32> {
    if s.len() >= 4 { KRead::Done(u32_in(s, 0), 4) } else { KRead::Eof }
}

/// The bits of a little-endian `f32`.
pub open spec fn kr_f32(s: Seq<u8>) -> KRead<u32> {
    kr_u32(s)
}

/// A little-endian `i32`.
pub open spec fn kr_i32(s: Seq<u8>) -> KRead<i32> {
    if s.len() >= 4 { KRead::Done(i32_at(s, 0), 4) } else { KRead::Eof }
}

/// A package index.
pub open spec fn kr_idx(s: Seq<u8>) -> KRead<PackageIndex> {
    if s.len() >= 4 { KRead::Done(PackageIndex { index: i32_at(s, 0) }, 4) } else { KRead::Eof }
}

/// A little-endian `u64`.
pub open spec fn kr_u64(s: Seq<u8>) -> KRead<u64> {
    if s.len() >= 8 { KRead::Done(u64_in(s, 0), 8) } else { KRead::Eof }
}

/// A little-endian `i64`.
pub open spec fn kr_i64(s: Seq<u8>) -> KRead<i64> {
    if s.len() >= 8 { KRead::Done(i64_at(s, 0), 8) } else { KRead::Eof }
}

/// The bits of three `f32`s.
pub open spec fn kr_vec3(s: Seq<u8>) -> KRead<Vector<u32>> {
    if s.len() >= 12 {
        KRead::Done(Vector { x: u32_in(s, 0), y: u32_in(s, 4), z: u32_in(s, 8) }, 12)
    } else {
        KRead::Eof
    }
}

/// The bits of four `f32`s.
pub open spec fn kr_rot4(s: Seq<u8>) -> KRead<(u32, u32, u32, u32)> {
    if s.len() >= 16 {
        KRead::Done((u32_in(s, 0), u32_in(s, 4), u32_in(s, 8), u32_in(s, 12)), 16)
    } else {
        KRead::Eof
    }
}

/// A name whose index lies in a name map of `n` names.
pub open spec fn kr_name(s: Seq<u8>, n: nat) -> KRead<NameIndex> {
    if s.len() >= 8 {
        if 0 <= i32_at(s, 0) < n {
            KRead::Done(NameIndex { index: i32_at(s, 0), number: i32_at(s, 4) }, 8)
        } else {
            KRead::Fail(8, KErr::Name(i32_at(s, 0), n as usize))
        }
    } else {
        KRead::Eof
    }
}

/// A cast token.
pub open spec fn kr_cast(s: Seq<u8>) -> KRead<ECastToken> {
    if s.len() >= 1 {
        match ECastToken::spec_from_u8(s[0]) {
            Some(c) => KRead::Done(c, 1),
            None => KRead::Fail(1, KErr::Enum("ECastToken"@)),
        }
    } else {
        KRead::Eof
    }
}

/// `count` names, one after another.
pub open spec fn kr_names(s: Seq<u8>, count: nat, n: nat) -> KRead<Seq<NameIndex>>
    decreases count,
{
    if count == 0 {
        KRead::Done(Seq::empty(), 0)
    } else {
        match kr_names(s, (count - 1) as nat, n) {
            KRead::Done(xs, k) => match kr_name(rest(s, k as int), n) {
                KRead::Done(x, k2) => KRead::Done(xs.push(x), k + k2),
                KRead::Fail(k2, fe) => KRead::Fail(k + k2, fe),
                KRead::Eof => KRead::Eof,
            },
            KRead::Fail(k, fe) => KRead::Fail(k, fe),
            KRead::Eof => KRead::Eof,
        }
    }
}

/// A property pointer: from the object version that adds the package owner, a count of names,
/// the names and the owner's package index; before it, a package index. A negative count fails.
pub open spec fn kr_ptr(s: Seq<u8>, ov: i32, n: nat) -> KRead<PointerView> {
    if ov >= VER_UE4_ADDED_PACKAGE_OWNER {
        match kr_i32(s) {
            KRead::Done(c, k0) => if c < 0 {
                KRead::Fail(k0, KErr::NegativePath)
            } else {
                match kr_names(rest(s, k0 as int), c as nat, n) {
                    KRead::Done(path, k1) => match kr_i32(rest(s, (k0 + k1) as int)) {
                        KRead::Done(owner, k2) => KRead::Done(PointerView {
                            old: None,
                            new: Some(FieldPathView { path, resolved_owner: PackageIndex { index: owner } }),
                        }, k0 + k1 + k2),
                        KRead::Fail(k, fe) => KRead::Fail(k0 + k1 + k, fe),
                        KRead::Eof => KRead::Eof,
                    },
                    KRead::Fail(k, fe) => KRead::Fail(k0 + k, fe),
                    KRead::Eof => KRead::Eof,
                }
            },
            KRead::Fail(k, fe) => KRead::Fail(k, fe),
            KRead::Eof => KRead::Eof,
        }
    } else {
        match kr_idx(s) {
            KRead::Done(i, k) => KRead::Done(PointerView { old: Some(i), new: None }, k),
            KRead::Fail(k, fe) => KRead::Fail(k, fe),
            KRead::Eof => KRead::Eof,
        }
    }
}

/// The position of the first zero byte of `s`.
pub open spec fn first_zero(s: Seq<u8>) -> Option<nat>
    decreases s.len(),
{
    if s.len() == 0 {
        None
    } else if s[0] == 0 {
        Some(0)
    } else {
        match first_zero(s.drop_first()) {
            Some(i) => Some(i + 1),
            None => None,
        }
    }
}

/// A UTF-8 string ended by a zero byte; bytes that are not UTF-8 fail after the zero.
pub open spec fn kr_str(s: Seq<u8>) -> KRead<Seq<char>> {
    match first_zero(s) {
        Some(i) => if valid_utf8(s.take(i as int)) {
            KRead::Done(decode_utf8(s.take(i as int)), i + 1)
        } else {
            KRead::Fail(i + 1, KErr::Utf8)
        },
        None => KRead::Eof,
    }
}

/// The position of the first pair of zero bytes of `s`, counted in pairs.
pub open spec fn first_zero_pair(s: Seq<u8>) -> Option<nat>
    decreases s.len(),
{
    if s.len() < 2 {
        None
    } else if s[0] == 0 && s[1] == 0 {
        Some(0)
    } else {
        match first_zero_pair(s.skip(2)) {
            Some(i) => Some(i + 1),
            None => None,
        }
    }
}

/// A UTF-16 string of little-endian code units ended by a zero unit; units that are not
/// UTF-16 fail after the zero.
pub open spec fn kr_ustr(s: Seq<u8>) -> KRead<Seq<char>> {
    match first_zero_pair(s) {
        Some(i) => match utf16_decode(units_of(s.take((2 * i) as int))) {
            Some(t) => KRead::Done(t, 2 * i + 2),
            None => KRead::Fail(2 * i + 2, KErr::Utf16),
        },
        None => KRead::Eof,
    }
}

/// A kismet expression: its token, then what the token's expression holds. A byte that names
/// no token, or names the end of the tokens, fails.
pub open spec fn parse_expr(s: Seq<u8>, ov: i32, n: nat) -> KRead<KView>
    decreases s.len(), 0int, 0int,
{
    if s.len() == 0 {
        KRead::Eof
    } else {
        match EExprToken::spec_from_u8(s[0]) {
            Some(t) => if t == EExprToken::ExMax {
                KRead::Fail(1, KErr::UnknownExpression)
            } else {
                match parse_body(t, rest(s, 1), ov, n) {
                    KRead::Done(v, k) => KRead::Done(v, 1 + k),
                    KRead::Fail(k, fe) => KRead::Fail(1 + k, fe),
                    KRead::Eof => KRead::Eof,
                }
            },
            None => KRead::Fail(1, KErr::Enum("EExprToken"@)),
        }
    }
}

/// Expressions up to one with the token `end`, which is read and dropped; an expression that
/// fails is skipped after the bytes that it read.
pub open spec fn parse_list(s: Seq<u8>, end: EExprToken, ov: i32, n: nat) -> KRead<Seq<KView>>
    decreases s.len(), 1int, 0int,
{
    match parse_expr(s, ov, n) {
        KRead::Done(e, k) => if e.token() == end {
            KRead::Done(Seq::empty(), k)
        } else if 0 < k <= s.len() {
            match parse_list(rest(s, k as int), end, ov, n) {
                KRead::Done(es, k2) => KRead::Done(seq![e] + es, k + k2),
                KRead::Fail(k2, fe) => KRead::Fail(k + k2, fe),
                KRead::Eof => KRead::Eof,
            }
        } else {
            KRead::Eof
        },
        KRead::Fail(k, fe) => if 0 < k <= s.len() {
            match parse_list(rest(s, k as int), end, ov, n) {
                KRead::Done(es, k2) => KRead::Done(es, k + k2),
                KRead::Fail(k2, fe) => KRead::Fail(k + k2, fe),
                KRead::Eof => KRead::Eof,
            }
        } else {
            KRead::Eof
        },
        KRead::Eof => KRead::Eof,
    }
}

/// A script text: its literal type, then the expressions that the type holds.
pub open spec fn parse_text(s: Seq<u8>, ov: i32, n: nat) -> KRead<TextView>
    decreases s.len(), 1int, 0int,
{
    if s.len() == 0 {
        KRead::Eof
    } else {
        match EBlueprintTextLiteralType::spec_from_u8(s[0]) {
            None => KRead::Fail(1, KErr::Enum("EBlueprintTextLiteralType"@)),
            Some(ty) => {
                let r = rest(s, 1);
                let none = TextView {
                    text_literal_type: ty,
                    localized_source: None,
                    localized_key: None,
                    localized_namespace: None,
                    invariant_literal_string: None,
                    literal_string: None,
                    string_table_asset: None,
                    string_table_id: None,
                    string_table_key: None,
                };
                match ty {
                    EBlueprintTextLiteralType::Empty => KRead::Done(none, 1),
                    EBlueprintTextLiteralType::LocalizedText => match parse_expr(r, ov, n) {
                        KRead::Done(a, k0) => match parse_expr(rest(r, k0 as int), ov, n) {
                            KRead::Done(b, k1) => match parse_expr(rest(r, (k0 + k1) as int), ov, n) {
                                KRead::Done(c, k2) => KRead::Done(TextView {
                                    localized_source: Some(a),
                                    localized_key: Some(b),
                                    localized_namespace: Some(c),
                                    ..none
                                }, 1 + k0 + k1 + k2),
                                KRead::Fail(k, fe) => KRead::Fail(1 + k0 + k1 + k, fe),
                                KRead::Eof => KRead::Eof,
                            },
                            KRead::Fail(k, fe) => KRead::Fail(1 + k0 + k, fe),
                            KRead::Eof => KRead::Eof,
                        },
                        KRead::Fail(k, fe) => KRead::Fail(1 + k, fe),
                        KRead::Eof => KRead::Eof,
                    },
                    EBlueprintTextLiteralType::InvariantText => match parse_expr(r, ov, n) {
                        KRead::Done(a, k0) => KRead::Done(TextView { invariant_literal_string: Some(a), ..none }, 1 + k0),
                        KRead::Fail(k, fe) => KRead::Fail(1 + k, fe),
                        KRead::Eof => KRead::Eof,
                    },
                    EBlueprintTextLiteralType::LiteralString => match parse_expr(r, ov, n) {
                        KRead::Done(a, k0) => KRead::Done(TextView { literal_string: Some(a), ..none }, 1 + k0),
                        KRead::Fail(k, fe) => KRead::Fail(1 + k, fe),
                        KRead::Eof => KRead::Eof,
                    },
                    EBlueprintTextLiteralType::StringTableEntry => match kr_idx(r) {
                        KRead::Done(asset, k0) => match parse_expr(rest(r, k0 as int), ov, n) {
                            KRead::Done(b, k1) => match parse_expr(rest(r, (k0 + k1) as int), ov, n) {
                                KRead::Done(c, k2) => KRead::Done(TextView {
                                    string_table_asset: Some(asset),
                                    string_table_id: Some(b),
                                    string_table_key: Some(c),
                                    ..none
                                }, 1 + k0 + k1 + k2),
                                KRead::Fail(k, fe) => KRead::Fail(1 + k0 + k1 + k, fe),
                                KRead::Eof => KRead::Eof,
                            },
                            KRead::Fail(k, fe) => KRead::Fail(1 + k0 + k, fe),
                            KRead::Eof => KRead::Eof,
                        },
                        KRead::Fail(k, fe) => KRead::Fail(1 + k, fe),
                        KRead::Eof => KRead::Eof,
                    },
                }
            },
        }
    }
}

/// One switch case: its index value term, the offset of the next case, and its term.
pub open spec fn parse_case(s: Seq<u8>, ov: i32, n: nat) -> KRead<SwitchCaseView>
    decreases s.len(), 1int, 0int,
{
    match parse_expr(s, ov, n) {
        KRead::Done(a, k0) => match kr_u32(rest(s, k0 as int)) {
            KRead::Done(b, k1) => match parse_expr(rest(s, (k0 + k1) as int), ov, n) {
                KRead::Done(c, k2) => KRead::Done(SwitchCaseView {
                    case_index_value_term: a,
                    next_offset: b,
                    case_term: c,
                }, k0 + k1 + k2),
                KRead::Fail(k, fe) => KRead::Fail(k0 + k1 + k, fe),
                KRead::Eof => KRead::Eof,
            },
            KRead::Fail(k, fe) => KRead::Fail(k0 + k, fe),
            KRead::Eof => KRead::Eof,
        },
        KRead::Fail(k, fe) => KRead::Fail(k, fe),
        KRead::Eof => KRead::Eof,
    }
}

/// `count` switch cases, one after another.
pub open spec fn parse_cases(s: Seq<u8>, count: nat, ov: i32, n: nat) -> KRead<Seq<SwitchCaseView>>
    decreases s.len(), 1int, count,
{
    if count == 0 {
        KRead::Done(Seq::empty(), 0)
    } else {
        match parse_cases(s, (count - 1) as nat, ov, n) {
            KRead::Done(cs, k) => match parse_case(rest(s, k as int), ov, n) {
                KRead::Done(c, k2) => KRead::Done(cs.push(c), k + k2),
                KRead::Fail(k2, fe) => KRead::Fail(k + k2, fe),
                KRead::Eof => KRead::Eof,
            },
            KRead::Fail(k, fe) => KRead::Fail(k, fe),
            KRead::Eof => KRead::Eof,
        }
    }
}

/// What `parse_body` gives, by the group of the token.
pub proof fn lemma_parse_body(t: EExprToken, s: Seq<u8>, ov: i32, n: nat)
    ensures
        body_group(t) == 0 ==> parse_body(t, s, ov, n) == parse_body_0(t, s, ov, n),
        body_group(t) == 1 ==> parse_body(t, s, ov, n) == parse_body_1(t, s, ov, n),
        body_group(t) == 2 ==> parse_body(t, s, ov, n) == parse_body_2(t, s, ov, n),
        body_group(t) == 3 ==> parse_body(t, s, ov, n) == parse_body_3(t, s, ov, n),
        body_group(t) == 4 ==> parse_body(t, s, ov, n) == parse_body_4(t, s, ov, n),
        body_group(t) > 4 ==> parse_body(t, s, ov, n) == KRead::<KView>::Fail(0, KErr::Token),
{
    reveal(parse_body_0);
    reveal(parse_body_1);
    reveal(parse_body_2);
    reveal(parse_body_3);
    reveal(parse_body_4);
}

/// What the expression of token `t` holds, after the token.
pub open spec fn parse_body(t: EExprToken, s: Seq<u8>, ov: i32, n: nat) -> KRead<KView>
    decreases s.len(), 4int, 0int,
{
    let g = body_group(t);
    if g == 0 {
        parse_body_0(t, s, ov, n)
    } else if g == 1 {
        parse_body_1(t, s, ov, n)
    } else if g == 2 {
        parse_body_2(t, s, ov, n)
    } else if g == 3 {
        parse_body_3(t, s, ov, n)
    } else if g == 4 {
        parse_body_4(t, s, ov, n)
    } else {
        KRead::Fail(0, KErr::Token)
    }
}

/// The group of tokens that a token belongs to, for reading.
#[verifier::opaque]
pub open spec fn body_group(t: EExprToken) -> u8 {
    match t {
        EExprToken::ExLocalVariable => 0,
        EExprToken::ExInstanceVariable => 0,
        EExprToken::ExDefaultVariable => 0,
        EExprToken::ExReturn => 0,
        EExprToken::ExJump => 0,
        EExprToken::ExJumpIfNot => 0,
        EExprToken::ExAssert => 0,
        EExprToken::ExNothing => 0,
        EExprToken::ExLet => 0,
        EExprToken::ExClassContext => 0,
        EExprToken::ExMetaCast => 0,
        EExprToken::ExLetBool => 0,
        EExprToken::ExEndParmValue => 0,
        EExprToken::ExEndFunctionParms => 0,
        EExprToken::ExSelf => 0,
        EExprToken::ExSkip => 0,
        EExprToken::ExContext => 0,
        EExprToken::ExContextFailSilent => 0,
        EExprToken::ExVirtualFunction => 0,
        EExprToken::ExFinalFunction => 1,
        EExprToken::ExIntConst => 1,
        EExprToken::ExFloatConst => 1,
        EExprToken::ExStringConst => 1,
        EExprToken::ExObjectConst => 1,
        EExprToken::ExNameConst => 1,
        EExprToken::ExRotationConst => 1,
        EExprToken::ExVectorConst => 1,
        EExprToken::ExByteConst => 1,
        EExprToken::ExIntZero => 1,
        EExprToken::ExIntOne => 1,
        EExprToken::ExTrue => 1,
        EExprToken::ExFalse => 1,
        EExprToken::ExTextConst => 1,
        EExprToken::ExNoObject => 1,
        EExprToken::ExTransformConst => 1,
        EExprToken::ExIntConstByte => 1,
        EExprToken::ExNoInterface => 1,
        EExprToken::ExDynamicCast => 1,
        EExprToken::ExStructConst => 2,
        EExprToken::ExEndStructConst => 2,
        EExprToken::ExSetArray => 2,
        EExprToken::ExEndArray => 2,
        EExprToken::ExPropertyConst => 2,
        EExprToken::ExUnicodeStringConst => 2,
        EExprToken::ExInt64Const => 2,
        EExprToken::ExUInt64Const => 2,
        EExprToken::ExPrimitiveCast => 2,
        EExprToken::ExSetSet => 2,
        EExprToken::ExEndSet => 2,
        EExprToken::ExSetMap => 2,
        EExprToken::ExEndMap => 2,
        EExprToken::ExSetConst => 2,
        EExprToken::ExEndSetConst => 2,
        EExprToken::ExMapConst => 2,
        EExprToken::ExEndMapConst => 2,
        EExprToken::ExStructMemberContext => 2,
        EExprToken::ExLetMulticastDelegate => 3,
        EExprToken::ExLetDelegate => 3,
        EExprToken::ExLocalVirtualFunction => 3,
        EExprToken::ExLocalFinalFunction => 3,
        EExprToken::ExLocalOutVariable => 3,
        EExprToken::ExDeprecatedOp4A => 3,
        EExprToken::ExInstanceDelegate => 3,
        EExprToken::ExPushExecutionFlow => 3,
        EExprToken::ExPopExecutionFlow => 3,
        EExprToken::ExComputedJump => 3,
        EExprToken::ExPopExecutionFlowIfNot => 3,
        EExprToken::ExBreakpoint => 3,
        EExprToken::ExInterfaceContext => 3,
        EExprToken::ExObjToInterfaceCast => 3,
        EExprToken::ExEndOfScript => 3,
        EExprToken::ExCrossInterfaceCast => 3,
        EExprToken::ExInterfaceToObjCast => 3,
        EExprToken::ExWireTracepoint => 3,
        EExprToken::ExSkipOffsetConst => 3,
        EExprToken::ExAddMulticastDelegate => 4,
        EExprToken::ExClearMulticastDelegate => 4,
        EExprToken::ExTracepoint => 4,
        EExprToken::ExLetObj => 4,
        EExprToken::ExLetWeakObjPtr => 4,
        EExprToken::ExBindDelegate => 4,
        EExprToken::ExRemoveMulticastDelegate => 4,
        EExprToken::ExCallMulticastDelegate => 4,
        EExprToken::ExLetValueOnPersistentFrame => 4,
        EExprToken::ExArrayConst => 4,
        EExprToken::ExEndArrayConst => 4,
        EExprToken::ExSoftObjectConst => 4,
        EExprToken::ExCallMath => 4,
        EExprToken::ExSwitchValue => 4,
        EExprToken::ExInstrumentationEvent => 4,
        EExprToken::ExArrayGetByRef => 4,
        EExprToken::ExClassSparseDataVariable => 4,
        EExprToken::ExFieldPathConst => 4,
        EExprToken::ExMax => 255,
    }
}

/// What the expression of token `t` holds, for the tokens of group 0.
#[verifier::opaque]
pub open spec fn parse_body_0(t: EExprToken, s: Seq<u8>, ov: i32, n: nat) -> KRead<KView>
    decreases s.len(), 3int, 0int,
{
    match t {
        EExprToken::ExLocalVariable => parse_ex_local_variable(s, ov, n),
        EExprToken::ExInstanceVariable => parse_ex_instance_variable(s, ov, n),
        EExprToken::ExDefaultVariable => parse_ex_default_variable(s, ov, n),
        EExprToken::ExReturn => parse_ex_return(s, ov, n),
        EExprToken::ExJump => parse_ex_jump(s, ov, n),
        EExprToken::ExJumpIfNot => parse_ex_jump_if_not(s, ov, n),
        EExprToken::ExAssert => parse_ex_assert(s, ov, n),
        EExprToken::ExNothing => KRead::Done(KView::ExNothing, 0),
        EExprToken::ExLet => parse_ex_let(s, ov, n),
        EExprToken::ExClassContext => parse_ex_class_context(s, ov, n),
        EExprToken::ExMetaCast => parse_ex_meta_cast(s, ov, n),
        EExprToken::ExLetBool => parse_ex_let_bool(s, ov, n),
        EExprToken::ExEndParmValue => KRead::Done(KView::ExEndParmValue, 0),
        EExprToken::ExEndFunctionParms => KRead::Done(KView::ExEndFunctionParms, 0),
        EExprToken::ExSelf => KRead::Done(KView::ExSelf, 0),
        EExprToken::ExSkip => parse_ex_skip(s, ov, n),
        EExprToken::ExContext => parse_ex_context(s, ov, n),
        EExprToken::ExContextFailSilent => parse_ex_context_fail_silent(s, ov, n),
        EExprToken::ExVirtualFunction => parse_ex_virtual_function(s, ov, n),
        _ => KRead::Fail(0, KErr::Token),
    }
}

/// What the expression of token `t` holds, for the tokens of group 1.
#[verifier::opaque]
pub open spec fn parse_body_1(t: EExprToken, s: Seq<u8>, ov: i32, n: nat) -> KRead<KView>
    decreases s.len(), 3int, 0int,
{
    match t {
        EExprToken::ExFinalFunction => parse_ex_final_function(s, ov, n),
        EExprToken::ExIntConst => parse_ex_int_const(s, ov, n),
        EExprToken::ExFloatConst => parse_ex_float_const(s, ov, n),
        EExprToken::ExStringConst => parse_ex_string_const(s, ov, n),
        EExprToken::ExObjectConst => parse_ex_object_const(s, ov, n),
        EExprToken::ExNameConst => parse_ex_name_const(s, ov, n),
        EExprToken::ExRotationConst => parse_ex_rotation_const(s, ov, n),
        EExprToken::ExVectorConst => parse_ex_vector_const(s, ov, n),
        EExprToken::ExByteConst => parse_ex_byte_const(s, ov, n),
        EExprToken::ExIntZero => KRead::Done(KView::ExIntZero, 0),
        EExprToken::ExIntOne => KRead::Done(KView::ExIntOne, 0),
        EExprToken::ExTrue => KRead::Done(KView::ExTrue, 0),
        EExprToken::ExFalse => KRead::Done(KView::ExFalse, 0),
        EExprToken::ExTextConst => parse_ex_text_const(s, ov, n),
        EExprToken::ExNoObject => KRead::Done(KView::ExNoObject, 0),
        EExprToken::ExTransformConst => parse_ex_transform_const(s, ov, n),
        EExprToken::ExIntConstByte => parse_ex_int_const_byte(s, ov, n),
        EExprToken::ExNoInterface => KRead::Done(KView::ExNoInterface, 0),
        EExprToken::ExDynamicCast => parse_ex_dynamic_cast(s, ov, n),
        _ => KRead::Fail(0, KErr::Token),
    }
}

/// What the expression of token `t` holds, for the tokens of group 2.
#[verifier::opaque]
pub open spec fn parse_body_2(t: EExprToken, s: Seq<u8>, ov: i32, n: nat) -> KRead<KView>
    decreases s.len(), 3int, 0int,
{
    match t {
        EExprToken::ExStructConst => parse_ex_struct_const(s, ov, n),
        EExprToken::ExEndStructConst => KRead::Done(KView::ExEndStructConst, 0),
        EExprToken::ExSetArray => parse_ex_set_array(s, ov, n),
        EExprToken::ExEndArray => KRead::Done(KView::ExEndArray, 0),
        EExprToken::ExPropertyConst => parse_ex_property_const(s, ov, n),
        EExprToken::ExUnicodeStringConst => parse_ex_unicode_string_const(s, ov, n),
        EExprToken::ExInt64Const => parse_ex_int64_const(s, ov, n),
        EExprToken::ExUInt64Const => parse_ex_uint64_const(s, ov, n),
        EExprToken::ExPrimitiveCast => parse_ex_primitive_cast(s, ov, n),
        EExprToken::ExSetSet => parse_ex_set_set(s, ov, n),
        EExprToken::ExEndSet => KRead::Done(KView::ExEndSet, 0),
        EExprToken::ExSetMap => parse_ex_set_map(s, ov, n),
        EExprToken::ExEndMap => KRead::Done(KView::ExEndMap, 0),
        EExprToken::ExSetConst => parse_ex_set_const(s, ov, n),
        EExprToken::ExEndSetConst => KRead::Done(KView::ExEndSetConst, 0),
        EExprToken::ExMapConst => parse_ex_map_const(s, ov, n),
        EExprToken::ExEndMapConst => KRead::Done(KView::ExEndMapConst, 0),
        EExprToken::ExStructMemberContext => parse_ex_struct_member_context(s, ov, n),
        _ => KRead::Fail(0, KErr::Token),
    }
}

/// What the expression of token `t` holds, for the tokens of group 3.
#[verifier::opaque]
pub open spec fn parse_body_3(t: EExprToken, s: Seq<u8>, ov: i32, n: nat) -> KRead<KView>
    decreases s.len(), 3int, 0int,
{
    match t {
        EExprToken::ExLetMulticastDelegate => parse_ex_let_multicast_delegate(s, ov, n),
        EExprToken::ExLetDelegate => parse_ex_let_delegate(s, ov, n),
        EExprToken::ExLocalVirtualFunction => parse_ex_local_virtual_function(s, ov, n),
        EExprToken::ExLocalFinalFunction => parse_ex_local_final_function(s, ov, n),
        EExprToken::ExLocalOutVariable => parse_ex_local_out_variable(s, ov, n),
        EExprToken::ExDeprecatedOp4A => KRead::Done(KView::ExDeprecatedOp4A, 0),
        EExprToken::ExInstanceDelegate => parse_ex_instance_delegate(s, ov, n),
        EExprToken::ExPushExecutionFlow => parse_ex_push_execution_flow(s, ov, n),
        EExprToken::ExPopExecutionFlow => KRead::Done(KView::ExPopExecutionFlow, 0),
        EExprToken::ExComputedJump => parse_ex_computed_jump(s, ov, n),
        EExprToken::ExPopExecutionFlowIfNot => parse_ex_pop_execution_flow_if_not(s, ov, n),
        EExprToken::ExBreakpoint => KRead::Done(KView::ExBreakpoint, 0),
        EExprToken::ExInterfaceContext => parse_ex_interface_context(s, ov, n),
        EExprToken::ExObjToInterfaceCast => parse_ex_obj_to_interface_cast(s, ov, n),
        EExprToken::ExEndOfScript => KRead::Done(KView::ExEndOfScript, 0),
        EExprToken::ExCrossInterfaceCast => parse_ex_cross_interface_cast(s, ov, n),
        EExprToken::ExInterfaceToObjCast => parse_ex_interface_to_obj_cast(s, ov, n),
        EExprToken::ExWireTracepoint => KRead::Done(KView::ExWireTracepoint, 0),
        EExprToken::ExSkipOffsetConst => parse_ex_skip_offset_const(s, ov, n),
        _ => KRead::Fail(0, KErr::Token),
    }
}

/// What the expression of token `t` holds, for the tokens of group 4.
#[verifier::opaque]
pub open spec fn parse_body_4(t: EExprToken, s: Seq<u8>, ov: i32, n: nat) -> KRead<KView>
    decreases s.len(), 3int, 0int,
{
    match t {
        EExprToken::ExAddMulticastDelegate => parse_ex_add_multicast_delegate(s, ov, n),
        EExprToken::ExClearMulticastDelegate => parse_ex_clear_multicast_delegate(s, ov, n),
        EExprToken::ExTracepoint => KRead::Done(KView::ExTracepoint, 0),
        EExprToken::ExLetObj => parse_ex_let_obj(s, ov, n),
        EExprToken::ExLetWeakObjPtr => parse_ex_let_weak_obj_ptr(s, ov, n),
        EExprToken::ExBindDelegate => parse_ex_bind_delegate(s, ov, n),
        EExprToken::ExRemoveMulticastDelegate => parse_ex_remove_multicast_delegate(s, ov, n),
        EExprToken::ExCallMulticastDelegate => parse_ex_call_multicast_delegate(s, ov, n),
        EExprToken::ExLetValueOnPersistentFrame => parse_ex_let_value_on_persistent_frame(s, ov, n),
        EExprToken::ExArrayConst => parse_ex_array_const(s, ov, n),
        EExprToken::ExEndArrayConst => KRead::Done(KView::ExEndArrayConst, 0),
        EExprToken::ExSoftObjectConst => parse_ex_soft_object_const(s, ov, n),
        EExprToken::ExCallMath => parse_ex_call_math(s, ov, n),
        EExprToken::ExSwitchValue => parse_ex_switch_value(s, ov, n),
        EExprToken::ExInstrumentationEvent => parse_ex_instrumentation_event(s, ov, n),
        EExprToken::ExArrayGetByRef => parse_ex_array_get_by_ref(s, ov, n),
        EExprToken::ExClassSparseDataVariable => parse_ex_class_sparse_data_variable(s, ov, n),
        EExprToken::ExFieldPathConst => parse_ex_field_path_const(s, ov, n),
        _ => KRead::Fail(0, KErr::Token),
    }
}

/// What an `ExLocalVariable` holds.
pub open spec fn parse_ex_local_variable(s: Seq<u8>, ov: i32, n: nat) -> KRead<KView>
    decreases s.len(), 2int, 0int,
{
    match kr_ptr(s, ov, n) {
        KRead::Done(variable, k0) =>
            KRead::Done(KView::ExLocalVariable { variable }, k0),
        KRead::Fail(k, fe) => KRead::Fail(k, fe),
        KRead::Eof => KRead::Eof,
    }
}

/// What an `ExInstanceVariable` holds.
pub open spec fn parse_ex_instance_variable(s: Seq<u8>, ov: i32, n: nat) -> KRead<KView>
    decreases s.len(), 2int, 0int,
{
    match kr_ptr(s, ov, n) {
        KRead::Done(variable, k0) =>
            KRead::Done(KView::ExInstanceVariable { variable }, k0),
        KRead::Fail(k, fe) => KRead::Fail(k, fe),
        KRead::Eof => KRead::Eof,
    }
}

/// What an `ExDefaultVariable` holds.
pub open spec fn parse_ex_default_variable(s: Seq<u8>, ov: i32, n: nat) -> KRead<KView>
    decreases s.len(), 2int, 0int,
{
    match kr_ptr(s, ov, n) {
        KRead::Done(variable, k0) =>
            KRead::Done(KView::ExDefaultVariable { variable }, k0),
        KRead::Fail(k, fe) => KRead::Fail(k, fe),
        KRead::Eof => KRead::Eof,
    }
}

/// What an `ExReturn` holds.
pub open spec fn parse_ex_return(s: Seq<u8>, ov: i32, n: nat) -> KRead<KView>
    decreases s.len(), 2int, 0int,
{
    match parse_expr(s, ov, n) {
        KRead::Done(return_expression, k0) =>
            KRead::Done(KView::ExReturn { return_expression: Box::new(return_expression) }, k0),
        KRead::Fail(k, fe) => KRead::Fail(k, fe),
        KRead::Eof => KRead::Eof,
    }
}

/// What an `ExJump` holds.
pub open spec fn parse_ex_jump(s: Seq<u8>, ov: i32, n: nat) -> KRead<KView>
    decreases s.len(), 2int, 0int,
{
    match kr_u32(s) {
        KRead::Done(code_offset, k0) =>
            KRead::Done(KView::ExJump { code_offset }, k0),
        KRead::Fail(k, fe) => KRead::Fail(k, fe),
        KRead::Eof => KRead::Eof,
    }
}

/// What an `ExJumpIfNot` holds.
pub open spec fn parse_ex_jump_if_not(s: Seq<u8>, ov: i32, n: nat) -> KRead<KView>
    decreases s.len(), 2int, 0int,
{
    match kr_u32(s) {
        KRead::Done(code_offset, k0) =>
            match parse_expr(rest(s, k0 as int), ov, n) {
                KRead::Done(boolean_expression, k1) =>
                    KRead::Done(KView::ExJumpIfNot { code_offset, boolean_expression: Box::new(boolean_expression) }, k0 + k1),
                KRead::Fail(k, fe) => KRead::Fail(k0 + k, fe),
                KRead::Eof => KRead::Eof,
            },
        KRead::Fail(k, fe) => KRead::Fail(k, fe),
        KRead::Eof => KRead::Eof,
    }
}

/// What an `ExAssert` holds.
pub open spec fn parse_ex_assert(s: Seq<u8>, ov: i32, n: nat) -> KRead<KView>
    decreases s.len(), 2int, 0int,
{
    match kr_u16(s) {
        KRead::Done(line_number, k0) =>
            match kr_boolb(rest(s, k0 as int)) {
                KRead::Done(debug_mode, k1) =>
                    match parse_expr(rest(s, (k0 + k1) as int), ov, n) {
                        KRead::Done(assert_expression, k2) =>
                            KRead::Done(KView::ExAssert { line_number, debug_mode, assert_expression: Box::new(assert_expression) }, k0 + k1 + k2),
                        KRead::Fail(k, fe) => KRead::Fail(k0 + k1 + k, fe),
                        KRead::Eof => KRead::Eof,
                    },
                KRead::Fail(k, fe) => KRead::Fail(k0 + k, fe),
                KRead::Eof => KRead::Eof,
            },
        KRead::Fail(k, fe) => KRead::Fail(k, fe),
        KRead::Eof => KRead::Eof,
    }
}

/// What an `ExLet` holds.
pub open spec fn parse_ex_let(s: Seq<u8>, ov: i32, n: nat) -> KRead<KView>
    decreases s.len(), 2int, 0int,
{
    match kr_ptr(s, ov, n) {
        KRead::Done(value, k0) =>
            match parse_expr(rest(s, k0 as int), ov, n) {
                KRead::Done(variable, k1) =>
                    match parse_expr(rest(s, (k0 + k1) as int), ov, n) {
                        KRead::Done(expression, k2) =>
                            KRead::Done(KView::ExLet { value, variable: Box::new(variable), expression: Box::new(expression) }, k0 + k1 + k2),
                        KRead::Fail(k, fe) => KRead::Fail(k0 + k1 + k, fe),
                        KRead::Eof => KRead::Eof,
                    },
                KRead::Fail(k, fe) => KRead::Fail(k0 + k, fe),
                KRead::Eof => KRead::Eof,
            },
        KRead::Fail(k, fe) => KRead::Fail(k, fe),
        KRead::Eof => KRead::Eof,
    }
}

/// What an `ExClassContext` holds.
pub open spec fn parse_ex_class_context(s: Seq<u8>, ov: i32, n: nat) -> KRead<KView>
    decreases s.len(), 2int, 0int,
{
    match parse_expr(s, ov, n) {
        KRead::Done(object_expression, k0) =>
            match kr_u32(rest(s, k0 as int)) {
                KRead::Done(offset, k1) =>
                    match kr_ptr(rest(s, (k0 + k1) as int), ov, n) {
                        KRead::Done(r_value_pointer, k2) =>
                            match parse_expr(rest(s, (k0 + k1 + k2) as int), ov, n) {
                                KRead::Done(context_expression, k3) =>
                                    KRead::Done(KView::ExClassContext { object_expression: Box::new(object_expression), offset, r_value_pointer, context_expression: Box::new(context_expression) }, k0 + k1 + k2 + k3),
                                KRead::Fail(k, fe) => KRead::Fail(k0 + k1 + k2 + k, fe),
                                KRead::Eof => KRead::Eof,
                            },
                        KRead::Fail(k, fe) => KRead::Fail(k0 + k1 + k, fe),
                        KRead::Eof => KRead::Eof,
                    },
                KRead::Fail(k, fe) => KRead::Fail(k0 + k, fe),
                KRead::Eof => KRead::Eof,
            },
        KRead::Fail(k, fe) => KRead::Fail(k, fe),
        KRead::Eof => KRead::Eof,
    }
}

/// What an `ExMetaCast` holds.
pub open spec fn parse_ex_meta_cast(s: Seq<u8>, ov: i32, n: nat) -> KRead<KView>
    decreases s.len(), 2int, 0int,
{
    match kr_idx(s) {
        KRead::Done(class_ptr, k0) =>
            match parse_expr(rest(s, k0 as int), ov, n) {
                KRead::Done(target_expression, k1) =>
                    KRead::Done(KView::ExMetaCast { class_ptr, target_expression: Box::new(target_expression) }, k0 + k1),
                KRead::Fail(k, fe) => KRead::Fail(k0 + k, fe),
                KRead::Eof => KRead::Eof,
            },
        KRead::Fail(k, fe) => KRead::Fail(k, fe),
        KRead::Eof => KRead::Eof,
    }
}

/// What an `ExLetBool` holds.
pub open spec fn parse_ex_let_bool(s: Seq<u8>, ov: i32, n: nat) -> KRead<KView>
    decreases s.len(), 2int, 0int,
{
    match parse_expr(s, ov, n) {
        KRead::Done(variable_expression, k0) =>
            match parse_expr(rest(s, k0 as int), ov, n) {
                KRead::Done(assignment_expression, k1) =>
                    KRead::Done(KView::ExLetBool { variable_expression: Box::new(variable_expression), assignment_expression: Box::new(assignment_expression) }, k0 + k1),
                KRead::Fail(k, fe) => KRead::Fail(k0 + k, fe),
                KRead::Eof => KRead::Eof,
            },
        KRead::Fail(k, fe) => KRead::Fail(k, fe),
        KRead::Eof => KRead::Eof,
    }
}

/// What an `ExSkip` holds.
pub open spec fn parse_ex_skip(s: Seq<u8>, ov: i32, n: nat) -> KRead<KView>
    decreases s.len(), 2int, 0int,
{
    match kr_u32(s) {
        KRead::Done(code_offset, k0) =>
            match parse_expr(rest(s, k0 as int), ov, n) {
                KRead::Done(skip_expression, k1) =>
                    KRead::Done(KView::ExSkip { code_offset, skip_expression: Box::new(skip_expression) }, k0 + k1),
                KRead::Fail(k, fe) => KRead::Fail(k0 + k, fe),
                KRead::Eof => KRead::Eof,
            },
        KRead::Fail(k, fe) => KRead::Fail(k, fe),
        KRead::Eof => KRead::Eof,
    }
}

/// What an `ExContext` holds.
pub open spec fn parse_ex_context(s: Seq<u8>, ov: i32, n: nat) -> KRead<KView>
    decreases s.len(), 2int, 0int,
{
    match parse_expr(s, ov, n) {
        KRead::Done(object_expression, k0) =>
            match kr_u32(rest(s, k0 as int)) {
                KRead::Done(offset, k1) =>
                    match kr_ptr(rest(s, (k0 + k1) as int), ov, n) {
                        KRead::Done(r_value_pointer, k2) =>
                            match parse_expr(rest(s, (k0 + k1 + k2) as int), ov, n) {
                                KRead::Done(context_expression, k3) =>
                                    KRead::Done(KView::ExContext { object_expression: Box::new(object_expression), offset, r_value_pointer, context_expression: Box::new(context_expression) }, k0 + k1 + k2 + k3),
                                KRead::Fail(k, fe) => KRead::Fail(k0 + k1 + k2 + k, fe),
                                KRead::Eof => KRead::Eof,
                            },
                        KRead::Fail(k, fe) => KRead::Fail(k0 + k1 + k, fe),
                        KRead::Eof => KRead::Eof,
                    },
                KRead::Fail(k, fe) => KRead::Fail(k0 + k, fe),
                KRead::Eof => KRead::Eof,
            },
        KRead::Fail(k, fe) => KRead::Fail(k, fe),
        KRead::Eof => KRead::Eof,
    }
}

/// What an `ExContextFailSilent` holds.
pub open spec fn parse_ex_context_fail_silent(s: Seq<u8>, ov: i32, n: nat) -> KRead<KView>
    decreases s.len(), 2int, 0int,
{
    match parse_expr(s, ov, n) {
        KRead::Done(object_expression, k0) =>
            match kr_u32(rest(s, k0 as int)) {
                KRead::Done(offset, k1) =>
                    match kr_ptr(rest(s, (k0 + k1) as int), ov, n) {
                        KRead::Done(r_value_pointer, k2) =>
                            match parse_expr(rest(s, (k0 + k1 + k2) as int), ov, n) {
                                KRead::Done(context_expression, k3) =>
                                    KRead::Done(KView::ExContextFailSilent { object_expression: Box::new(object_expression), offset, r_value_pointer, context_expression: Box::new(context_expression) }, k0 + k1 + k2 + k3),
                                KRead::Fail(k, fe) => KRead::Fail(k0 + k1 + k2 + k, fe),
                                KRead::Eof => KRead::Eof,
                            },
                        KRead::Fail(k, fe) => KRead::Fail(k0 + k1 + k, fe),
                        KRead::Eof => KRead::Eof,
                    },
                KRead::Fail(k, fe) => KRead::Fail(k0 + k, fe),
                KRead::Eof => KRead::Eof,
            },
        KRead::Fail(k, fe) => KRead::Fail(k, fe),
        KRead::Eof => KRead::Eof,
    }
}

/// What an `ExVirtualFunction` holds.
pub open spec fn parse_ex_virtual_function(s: Seq<u8>, ov: i32, n: nat) -> KRead<KView>
    decreases s.len(), 2int, 0int,
{
    match kr_name(s, n) {
        KRead::Done(virtual_function_name, k0) =>
            match parse_list(rest(s, k0 as int), EExprToken::ExEndFunctionParms, ov, n) {
                KRead::Done(parameters, k1) =>
                    KRead::Done(KView::ExVirtualFunction { virtual_function_name, parameters }, k0 + k1),
                KRead::Fail(k, fe) => KRead::Fail(k0 + k, fe),
                KRead::Eof => KRead::Eof,
            },
        KRead::Fail(k, fe) => KRead::Fail(k, fe),
        KRead::Eof => KRead::Eof,
    }
}

/// What an `ExFinalFunction` holds.
pub open spec fn parse_ex_final_function(s: Seq<u8>, ov: i32, n: nat) -> KRead<KView>
    decreases s.len(), 2int, 0int,
{
    match kr_idx(s) {
        KRead::Done(stack_node, k0) =>
            match parse_list(rest(s, k0 as int), EExprToken::ExEndFunctionParms, ov, n) {
                KRead::Done(parameters, k1) =>
                    KRead::Done(KView::ExFinalFunction { stack_node, parameters }, k0 + k1),
                KRead::Fail(k, fe) => KRead::Fail(k0 + k, fe),
                KRead::Eof => KRead::Eof,
            },
        KRead::Fail(k, fe) => KRead::Fail(k, fe),
        KRead::Eof => KRead::Eof,
    }
}

/// What an `ExIntConst` holds.
pub open spec fn parse_ex_int_const(s: Seq<u8>, ov: i32, n: nat) -> KRead<KView>
    decreases s.len(), 2int, 0int,
{
    match kr_i32(s) {
        KRead::Done(value, k0) =>
            KRead::Done(KView::ExIntConst { value }, k0),
        KRead::Fail(k, fe) => KRead::Fail(k, fe),
        KRead::Eof => KRead::Eof,
    }
}

/// What an `ExFloatConst` holds.
pub open spec fn parse_ex_float_const(s: Seq<u8>, ov: i32, n: nat) -> KRead<KView>
    decreases s.len(), 2int, 0int,
{
    match kr_f32(s) {
        KRead::Done(value, k0) =>
            KRead::Done(KView::ExFloatConst { value }, k0),
        KRead::Fail(k, fe) => KRead::Fail(k, fe),
        KRead::Eof => KRead::Eof,
    }
}

/// What an `ExStringConst` holds.
pub open spec fn parse_ex_string_const(s: Seq<u8>, ov: i32, n: nat) -> KRead<KView>
    decreases s.len(), 2int, 0int,
{
    match kr_str(s) {
        KRead::Done(value, k0) =>
            KRead::Done(KView::ExStringConst { value }, k0),
        KRead::Fail(k, fe) => KRead::Fail(k, fe),
        KRead::Eof => KRead::Eof,
    }
}

/// What an `ExObjectConst` holds.
pub open spec fn parse_ex_object_const(s: Seq<u8>, ov: i32, n: nat) -> KRead<KView>
    decreases s.len(), 2int, 0int,
{
    match kr_idx(s) {
        KRead::Done(value, k0) =>
            KRead::Done(KView::ExObjectConst { value }, k0),
        KRead::Fail(k, fe) => KRead::Fail(k, fe),
        KRead::Eof => KRead::Eof,
    }
}

/// What an `ExNameConst` holds.
pub open spec fn parse_ex_name_const(s: Seq<u8>, ov: i32, n: nat) -> KRead<KView>
    decreases s.len(), 2int, 0int,
{
    match kr_name(s, n) {
        KRead::Done(value, k0) =>
            KRead::Done(KView::ExNameConst { value }, k0),
        KRead::Fail(k, fe) => KRead::Fail(k, fe),
        KRead::Eof => KRead::Eof,
    }
}

/// What an `ExRotationConst` holds.
pub open spec fn parse_ex_rotation_const(s: Seq<u8>, ov: i32, n: nat) -> KRead<KView>
    decreases s.len(), 2int, 0int,
{
    match kr_i32(s) {
        KRead::Done(pitch, k0) =>
            match kr_i32(rest(s, k0 as int)) {
                KRead::Done(yaw, k1) =>
                    match kr_i32(rest(s, (k0 + k1) as int)) {
                        KRead::Done(roll, k2) =>
                            KRead::Done(KView::ExRotationConst { pitch, yaw, roll }, k0 + k1 + k2),
                        KRead::Fail(k, fe) => KRead::Fail(k0 + k1 + k, fe),
                        KRead::Eof => KRead::Eof,
                    },
                KRead::Fail(k, fe) => KRead::Fail(k0 + k, fe),
                KRead::Eof => KRead::Eof,
            },
        KRead::Fail(k, fe) => KRead::Fail(k, fe),
        KRead::Eof => KRead::Eof,
    }
}

/// What an `ExVectorConst` holds.
pub open spec fn parse_ex_vector_const(s: Seq<u8>, ov: i32, n: nat) -> KRead<KView>
    decreases s.len(), 2int, 0int,
{
    match kr_vec3(s) {
        KRead::Done(value, k0) =>
            KRead::Done(KView::ExVectorConst { value }, k0),
        KRead::Fail(k, fe) => KRead::Fail(k, fe),
        KRead::Eof => KRead::Eof,
    }
}

/// What an `ExByteConst` holds.
pub open spec fn parse_ex_byte_const(s: Seq<u8>, ov: i32, n: nat) -> KRead<KView>
    decreases s.len(), 2int, 0int,
{
    match kr_u8(s) {
        KRead::Done(value, k0) =>
            KRead::Done(KView::ExByteConst { value }, k0),
        KRead::Fail(k, fe) => KRead::Fail(k, fe),
        KRead::Eof => KRead::Eof,
    }
}

/// What an `ExTextConst` holds.
pub open spec fn parse_ex_text_const(s: Seq<u8>, ov: i32, n: nat) -> KRead<KView>
    decreases s.len(), 2int, 0int,
{
    match parse_text(s, ov, n) {
        KRead::Done(value, k0) =>
            KRead::Done(KView::ExTextConst { value: Box::new(value) }, k0),
        KRead::Fail(k, fe) => KRead::Fail(k, fe),
        KRead::Eof => KRead::Eof,
    }
}

/// What an `ExTransformConst` holds.
pub open spec fn parse_ex_transform_const(s: Seq<u8>, ov: i32, n: nat) -> KRead<KView>
    decreases s.len(), 2int, 0int,
{
    match kr_rot4(s) {
        KRead::Done(rotation, k0) =>
            match kr_vec3(rest(s, k0 as int)) {
                KRead::Done(translation, k1) =>
                    match kr_vec3(rest(s, (k0 + k1) as int)) {
                        KRead::Done(scale, k2) =>
                            KRead::Done(KView::ExTransformConst { rotation, translation, scale }, k0 + k1 + k2),
                        KRead::Fail(k, fe) => KRead::Fail(k0 + k1 + k, fe),
                        KRead::Eof => KRead::Eof,
                    },
                KRead::Fail(k, fe) => KRead::Fail(k0 + k, fe),
                KRead::Eof => KRead::Eof,
            },
        KRead::Fail(k, fe) => KRead::Fail(k, fe),
        KRead::Eof => KRead::Eof,
    }
}

/// What an `ExIntConstByte` holds.
pub open spec fn parse_ex_int_const_byte(s: Seq<u8>, ov: i32, n: nat) -> KRead<KView>
    decreases s.len(), 2int, 0int,
{
    match kr_u8(s) {
        KRead::Done(value, k0) =>
            KRead::Done(KView::ExIntConstByte { value }, k0),
        KRead::Fail(k, fe) => KRead::Fail(k, fe),
        KRead::Eof => KRead::Eof,
    }
}

/// What an `ExDynamicCast` holds.
pub open spec fn parse_ex_dynamic_cast(s: Seq<u8>, ov: i32, n: nat) -> KRead<KView>
    decreases s.len(), 2int, 0int,
{
    match kr_idx(s) {
        KRead::Done(class_ptr, k0) =>
            match parse_expr(rest(s, k0 as int), ov, n) {
                KRead::Done(target_expression, k1) =>
                    KRead::Done(KView::ExDynamicCast { class_ptr, target_expression: Box::new(target_expression) }, k0 + k1),
                KRead::Fail(k, fe) => KRead::Fail(k0 + k, fe),
                KRead::Eof => KRead::Eof,
            },
        KRead::Fail(k, fe) => KRead::Fail(k, fe),
        KRead::Eof => KRead::Eof,
    }
}

/// What an `ExStructConst` holds.
pub open spec fn parse_ex_struct_const(s: Seq<u8>, ov: i32, n: nat) -> KRead<KView>
    decreases s.len(), 2int, 0int,
{
    match kr_idx(s) {
        KRead::Done(struct_value, k0) =>
            match kr_i32(rest(s, k0 as int)) {
                KRead::Done(struct_size, k1) =>
                    match parse_list(rest(s, (k0 + k1) as int), EExprToken::ExEndStructConst, ov, n) {
                        KRead::Done(value, k2) =>
                            KRead::Done(KView::ExStructConst { struct_value, struct_size, value }, k0 + k1 + k2),
                        KRead::Fail(k, fe) => KRead::Fail(k0 + k1 + k, fe),
                        KRead::Eof => KRead::Eof,
                    },
                KRead::Fail(k, fe) => KRead::Fail(k0 + k, fe),
                KRead::Eof => KRead::Eof,
            },
        KRead::Fail(k, fe) => KRead::Fail(k, fe),
        KRead::Eof => KRead::Eof,
    }
}

/// What an `ExSetArray` holds.
pub open spec fn parse_ex_set_array(s: Seq<u8>, ov: i32, n: nat) -> KRead<KView>
    decreases s.len(), 2int, 0int,
{
    if ov >= VER_UE4_CHANGE_SETARRAY_BYTECODE {
        match parse_expr(s, ov, n) {
            KRead::Done(a, k0) => match parse_list(rest(s, k0 as int), EExprToken::ExEndArray, ov, n) {
                KRead::Done(elements, k1) => KRead::Done(KView::ExSetArray {
                    assigning_property: Some(Box::new(a)),
                    array_inner_prop: None,
                    elements,
                }, k0 + k1),
                KRead::Fail(k, fe) => KRead::Fail(k0 + k, fe),
                KRead::Eof => KRead::Eof,
            },
            KRead::Fail(k, fe) => KRead::Fail(k, fe),
            KRead::Eof => KRead::Eof,
        }
    } else {
        match kr_idx(s) {
            KRead::Done(i, k0) => match parse_list(rest(s, k0 as int), EExprToken::ExEndArray, ov, n) {
                KRead::Done(elements, k1) => KRead::Done(KView::ExSetArray {
                    assigning_property: None,
                    array_inner_prop: Some(i),
                    elements,
                }, k0 + k1),
                KRead::Fail(k, fe) => KRead::Fail(k0 + k, fe),
                KRead::Eof => KRead::Eof,
            },
            KRead::Fail(k, fe) => KRead::Fail(k, fe),
            KRead::Eof => KRead::Eof,
        }
    }
}

/// What an `ExPropertyConst` holds.
pub open spec fn parse_ex_property_const(s: Seq<u8>, ov: i32, n: nat) -> KRead<KView>
    decreases s.len(), 2int, 0int,
{
    match kr_ptr(s, ov, n) {
        KRead::Done(property, k0) =>
            KRead::Done(KView::ExPropertyConst { property }, k0),
        KRead::Fail(k, fe) => KRead::Fail(k, fe),
        KRead::Eof => KRead::Eof,
    }
}

/// What an `ExUnicodeStringConst` holds.
pub open spec fn parse_ex_unicode_string_const(s: Seq<u8>, ov: i32, n: nat) -> KRead<KView>
    decreases s.len(), 2int, 0int,
{
    match kr_ustr(s) {
        KRead::Done(value, k0) =>
            KRead::Done(KView::ExUnicodeStringConst { value }, k0),
        KRead::Fail(k, fe) => KRead::Fail(k, fe),
        KRead::Eof => KRead::Eof,
    }
}

/// What an `ExInt64Const` holds.
pub open spec fn parse_ex_int64_const(s: Seq<u8>, ov: i32, n: nat) -> KRead<KView>
    decreases s.len(), 2int, 0int,
{
    match kr_i64(s) {
        KRead::Done(value, k0) =>
            KRead::Done(KView::ExInt64Const { value }, k0),
        KRead::Fail(k, fe) => KRead::Fail(k, fe),
        KRead::Eof => KRead::Eof,
    }
}

/// What an `ExUInt64Const` holds.
pub open spec fn parse_ex_uint64_const(s: Seq<u8>, ov: i32, n: nat) -> KRead<KView>
    decreases s.len(), 2int, 0int,
{
    match kr_u64(s) {
        KRead::Done(value, k0) =>
            KRead::Done(KView::ExUInt64Const { value }, k0),
        KRead::Fail(k, fe) => KRead::Fail(k, fe),
        KRead::Eof => KRead::Eof,
    }
}

/// What an `ExPrimitiveCast` holds.
pub open spec fn parse_ex_primitive_cast(s: Seq<u8>, ov: i32, n: nat) -> KRead<KView>
    decreases s.len(), 2int, 0int,
{
    match kr_cast(s) {
        KRead::Done(conversion_type, k0) =>
            match parse_expr(rest(s, k0 as int), ov, n) {
                KRead::Done(target, k1) =>
                    KRead::Done(KView::ExPrimitiveCast { conversion_type, target: Box::new(target) }, k0 + k1),
                KRead::Fail(k, fe) => KRead::Fail(k0 + k, fe),
                KRead::Eof => KRead::Eof,
            },
        KRead::Fail(k, fe) => KRead::Fail(k, fe),
        KRead::Eof => KRead::Eof,
    }
}

/// What an `ExSetSet` holds.
pub open spec fn parse_ex_set_set(s: Seq<u8>, ov: i32, n: nat) -> KRead<KView>
    decreases s.len(), 2int, 0int,
{
    match parse_expr(s, ov, n) {
        KRead::Done(set_property, k0) =>
            match kr_i32(rest(s, k0 as int)) {
                KRead::Done(_, k1) =>
                    match parse_list(rest(s, (k0 + k1) as int), EExprToken::ExEndSet, ov, n) {
                        KRead::Done(elements, k2) =>
                            KRead::Done(KView::ExSetSet { set_property: Box::new(set_property), elements }, k0 + k1 + k2),
                        KRead::Fail(k, fe) => KRead::Fail(k0 + k1 + k, fe),
                        KRead::Eof => KRead::Eof,
                    },
                KRead::Fail(k, fe) => KRead::Fail(k0 + k, fe),
                KRead::Eof => KRead::Eof,
            },
        KRead::Fail(k, fe) => KRead::Fail(k, fe),
        KRead::Eof => KRead::Eof,
    }
}

/// What an `ExSetMap` holds.
pub open spec fn parse_ex_set_map(s: Seq<u8>, ov: i32, n: nat) -> KRead<KView>
    decreases s.len(), 2int, 0int,
{
    match parse_expr(s, ov, n) {
        KRead::Done(map_property, k0) =>
            match kr_i32(rest(s, k0 as int)) {
                KRead::Done(_, k1) =>
                    match parse_list(rest(s, (k0 + k1) as int), EExprToken::ExEndMap, ov, n) {
                        KRead::Done(elements, k2) =>
                            KRead::Done(KView::ExSetMap { map_property: Box::new(map_property), elements }, k0 + k1 + k2),
                        KRead::Fail(k, fe) => KRead::Fail(k0 + k1 + k, fe),
                        KRead::Eof => KRead::Eof,
                    },
                KRead::Fail(k, fe) => KRead::Fail(k0 + k, fe),
                KRead::Eof => KRead::Eof,
            },
        KRead::Fail(k, fe) => KRead::Fail(k, fe),
        KRead::Eof => KRead::Eof,
    }
}

/// What an `ExSetConst` holds.
pub open spec fn parse_ex_set_const(s: Seq<u8>, ov: i32, n: nat) -> KRead<KView>
    decreases s.len(), 2int, 0int,
{
    match kr_ptr(s, ov, n) {
        KRead::Done(inner_property, k0) =>
            match kr_i32(rest(s, k0 as int)) {
                KRead::Done(_, k1) =>
                    match parse_list(rest(s, (k0 + k1) as int), EExprToken::ExEndSetConst, ov, n) {
                        KRead::Done(elements, k2) =>
                            KRead::Done(KView::ExSetConst { inner_property, elements }, k0 + k1 + k2),
                        KRead::Fail(k, fe) => KRead::Fail(k0 + k1 + k, fe),
                        KRead::Eof => KRead::Eof,
                    },
                KRead::Fail(k, fe) => KRead::Fail(k0 + k, fe),
                KRead::Eof => KRead::Eof,
            },
        KRead::Fail(k, fe) => KRead::Fail(k, fe),
        KRead::Eof => KRead::Eof,
    }
}

/// What an `ExMapConst` holds.
pub open spec fn parse_ex_map_const(s: Seq<u8>, ov: i32, n: nat) -> KRead<KView>
    decreases s.len(), 2int, 0int,
{
    match kr_ptr(s, ov, n) {
        KRead::Done(key_property, k0) =>
            match kr_ptr(rest(s, k0 as int), ov, n) {
                KRead::Done(value_property, k1) =>
                    match kr_i32(rest(s, (k0 + k1) as int)) {
                        KRead::Done(_, k2) =>
                            match parse_list(rest(s, (k0 + k1 + k2) as int), EExprToken::ExEndMapConst, ov, n) {
                                KRead::Done(elements, k3) =>
                                    KRead::Done(KView::ExMapConst { key_property, value_property, elements }, k0 + k1 + k2 + k3),
                                KRead::Fail(k, fe) => KRead::Fail(k0 + k1 + k2 + k, fe),
                                KRead::Eof => KRead::Eof,
                            },
                        KRead::Fail(k, fe) => KRead::Fail(k0 + k1 + k, fe),
                        KRead::Eof => KRead::Eof,
                    },
                KRead::Fail(k, fe) => KRead::Fail(k0 + k, fe),
                KRead::Eof => KRead::Eof,
            },
        KRead::Fail(k, fe) => KRead::Fail(k, fe),
        KRead::Eof => KRead::Eof,
    }
}

/// What an `ExStructMemberContext` holds.
pub open spec fn parse_ex_struct_member_context(s: Seq<u8>, ov: i32, n: nat) -> KRead<KView>
    decreases s.len(), 2int, 0int,
{
    match kr_ptr(s, ov, n) {
        KRead::Done(struct_member_expression, k0) =>
            match parse_expr(rest(s, k0 as int), ov, n) {
                KRead::Done(struct_expression, k1) =>
                    KRead::Done(KView::ExStructMemberContext { struct_member_expression, struct_expression: Box::new(struct_expression) }, k0 + k1),
                KRead::Fail(k, fe) => KRead::Fail(k0 + k, fe),
                KRead::Eof => KRead::Eof,
            },
        KRead::Fail(k, fe) => KRead::Fail(k, fe),
        KRead::Eof => KRead::Eof,
    }
}

/// What an `ExLetMulticastDelegate` holds.
pub open spec fn parse_ex_let_multicast_delegate(s: Seq<u8>, ov: i32, n: nat) -> KRead<KView>
    decreases s.len(), 2int, 0int,
{
    match parse_expr(s, ov, n) {
        KRead::Done(variable_expression, k0) =>
            match parse_expr(rest(s, k0 as int), ov, n) {
                KRead::Done(assignment_expression, k1) =>
                    KRead::Done(KView::ExLetMulticastDelegate { variable_expression: Box::new(variable_expression), assignment_expression: Box::new(assignment_expression) }, k0 + k1),
                KRead::Fail(k, fe) => KRead::Fail(k0 + k, fe),
                KRead::Eof => KRead::Eof,
            },
        KRead::Fail(k, fe) => KRead::Fail(k, fe),
        KRead::Eof => KRead::Eof,
    }
}

/// What an `ExLetDelegate` holds.
pub open spec fn parse_ex_let_delegate(s: Seq<u8>, ov: i32, n: nat) -> KRead<KView>
    decreases s.len(), 2int, 0int,
{
    match parse_expr(s, ov, n) {
        KRead::Done(variable_expression, k0) =>
            match parse_expr(rest(s, k0 as int), ov, n) {
                KRead::Done(assignment_expression, k1) =>
                    KRead::Done(KView::ExLetDelegate { variable_expression: Box::new(variable_expression), assignment_expression: Box::new(assignment_expression) }, k0 + k1),
                KRead::Fail(k, fe) => KRead::Fail(k0 + k, fe),
                KRead::Eof => KRead::Eof,
            },
        KRead::Fail(k, fe) => KRead::Fail(k, fe),
        KRead::Eof => KRead::Eof,
    }
}

/// What an `ExLocalVirtualFunction` holds.
pub open spec fn parse_ex_local_virtual_function(s: Seq<u8>, ov: i32, n: nat) -> KRead<KView>
    decreases s.len(), 2int, 0int,
{
    match kr_name(s, n) {
        KRead::Done(virtual_function_name, k0) =>
            match parse_list(rest(s, k0 as int), EExprToken::ExEndFunctionParms, ov, n) {
                KRead::Done(parameters, k1) =>
                    KRead::Done(KView::ExLocalVirtualFunction { virtual_function_name, parameters }, k0 + k1),
                KRead::Fail(k, fe) => KRead::Fail(k0 + k, fe),
                KRead::Eof => KRead::Eof,
            },
        KRead::Fail(k, fe) => KRead::Fail(k, fe),
        KRead::Eof => KRead::Eof,
    }
}

/// What an `ExLocalFinalFunction` holds.
pub open spec fn parse_ex_local_final_function(s: Seq<u8>, ov: i32, n: nat) -> KRead<KView>
    decreases s.len(), 2int, 0int,
{
    match kr_idx(s) {
        KRead::Done(stack_node, k0) =>
            match parse_list(rest(s, k0 as int), EExprToken::ExEndFunctionParms, ov, n) {
                KRead::Done(parameters, k1) =>
                    KRead::Done(KView::ExLocalFinalFunction { stack_node, parameters }, k0 + k1),
                KRead::Fail(k, fe) => KRead::Fail(k0 + k, fe),
                KRead::Eof => KRead::Eof,
            },
        KRead::Fail(k, fe) => KRead::Fail(k, fe),
        KRead::Eof => KRead::Eof,
    }
}

/// What an `ExLocalOutVariable` holds.
pub open spec fn parse_ex_local_out_variable(s: Seq<u8>, ov: i32, n: nat) -> KRead<KView>
    decreases s.len(), 2int, 0int,
{
    match kr_ptr(s, ov, n) {
        KRead::Done(variable, k0) =>
            KRead::Done(KView::ExLocalOutVariable { variable }, k0),
        KRead::Fail(k, fe) => KRead::Fail(k, fe),
        KRead::Eof => KRead::Eof,
    }
}

/// What an `ExInstanceDelegate` holds.
pub open spec fn parse_ex_instance_delegate(s: Seq<u8>, ov: i32, n: nat) -> KRead<KView>
    decreases s.len(), 2int, 0int,
{
    match kr_name(s, n) {
        KRead::Done(function_name, k0) =>
            KRead::Done(KView::ExInstanceDelegate { function_name }, k0),
        KRead::Fail(k, fe) => KRead::Fail(k, fe),
        KRead::Eof => KRead::Eof,
    }
}

/// What an `ExPushExecutionFlow` holds.
pub open spec fn parse_ex_push_execution_flow(s: Seq<u8>, ov: i32, n: nat) -> KRead<KView>
    decreases s.len(), 2int, 0int,
{
    match kr_u32(s) {
        KRead::Done(pushing_address, k0) =>
            KRead::Done(KView::ExPushExecutionFlow { pushing_address }, k0),
        KRead::Fail(k, fe) => KRead::Fail(k, fe),
        KRead::Eof => KRead::Eof,
    }
}

/// What an `ExComputedJump` holds.
pub open spec fn parse_ex_computed_jump(s: Seq<u8>, ov: i32, n: nat) -> KRead<KView>
    decreases s.len(), 2int, 0int,
{
    match parse_expr(s, ov, n) {
        KRead::Done(code_offset_expression, k0) =>
            KRead::Done(KView::ExComputedJump { code_offset_expression: Box::new(code_offset_expression) }, k0),
        KRead::Fail(k, fe) => KRead::Fail(k, fe),
        KRead::Eof => KRead::Eof,
    }
}

/// What an `ExPopExecutionFlowIfNot` holds.
pub open spec fn parse_ex_pop_execution_flow_if_not(s: Seq<u8>, ov: i32, n: nat) -> KRead<KView>
    decreases s.len(), 2int, 0int,
{
    match parse_expr(s, ov, n) {
        KRead::Done(boolean_expression, k0) =>
            KRead::Done(KView::ExPopExecutionFlowIfNot { boolean_expression: Box::new(boolean_expression) }, k0),
        KRead::Fail(k, fe) => KRead::Fail(k, fe),
        KRead::Eof => KRead::Eof,
    }
}

/// What an `ExInterfaceContext` holds.
pub open spec fn parse_ex_interface_context(s: Seq<u8>, ov: i32, n: nat) -> KRead<KView>
    decreases s.len(), 2int, 0int,
{
    match parse_expr(s, ov, n) {
        KRead::Done(interface_value, k0) =>
            KRead::Done(KView::ExInterfaceContext { interface_value: Box::new(interface_value) }, k0),
        KRead::Fail(k, fe) => KRead::Fail(k, fe),
        KRead::Eof => KRead::Eof,
    }
}

/// What an `ExObjToInterfaceCast` holds.
pub open spec fn parse_ex_obj_to_interface_cast(s: Seq<u8>, ov: i32, n: nat) -> KRead<KView>
    decreases s.len(), 2int, 0int,
{
    match kr_idx(s) {
        KRead::Done(class_ptr, k0) =>
            match parse_expr(rest(s, k0 as int), ov, n) {
                KRead::Done(target, k1) =>
                    KRead::Done(KView::ExObjToInterfaceCast { class_ptr, target: Box::new(target) }, k0 + k1),
                KRead::Fail(k, fe) => KRead::Fail(k0 + k, fe),
                KRead::Eof => KRead::Eof,
            },
        KRead::Fail(k, fe) => KRead::Fail(k, fe),
        KRead::Eof => KRead::Eof,
    }
}

/// What an `ExCrossInterfaceCast` holds.
pub open spec fn parse_ex_cross_interface_cast(s: Seq<u8>, ov: i32, n: nat) -> KRead<KView>
    decreases s.len(), 2int, 0int,
{
    match kr_idx(s) {
        KRead::Done(class_ptr, k0) =>
            match parse_expr(rest(s, k0 as int), ov, n) {
                KRead::Done(target, k1) =>
                    KRead::Done(KView::ExCrossInterfaceCast { class_ptr, target: Box::new(target) }, k0 + k1),
                KRead::Fail(k, fe) => KRead::Fail(k0 + k, fe),
                KRead::Eof => KRead::Eof,
            },
        KRead::Fail(k, fe) => KRead::Fail(k, fe),
        KRead::Eof => KRead::Eof,
    }
}

/// What an `ExInterfaceToObjCast` holds.
pub open spec fn parse_ex_interface_to_obj_cast(s: Seq<u8>, ov: i32, n: nat) -> KRead<KView>
    decreases s.len(), 2int, 0int,
{
    match kr_idx(s) {
        KRead::Done(class_ptr, k0) =>
            match parse_expr(rest(s, k0 as int), ov, n) {
                KRead::Done(target, k1) =>
                    KRead::Done(KView::ExInterfaceToObjCast { class_ptr, target: Box::new(target) }, k0 + k1),
                KRead::Fail(k, fe) => KRead::Fail(k0 + k, fe),
                KRead::Eof => KRead::Eof,
            },
        KRead::Fail(k, fe) => KRead::Fail(k, fe),
        KRead::Eof => KRead::Eof,
    }
}

/// What an `ExSkipOffsetConst` holds.
pub open spec fn parse_ex_skip_offset_const(s: Seq<u8>, ov: i32, n: nat) -> KRead<KView>
    decreases s.len(), 2int, 0int,
{
    match kr_u32(s) {
        KRead::Done(value, k0) =>
            KRead::Done(KView::ExSkipOffsetConst { value }, k0),
        KRead::Fail(k, fe) => KRead::Fail(k, fe),
        KRead::Eof => KRead::Eof,
    }
}

/// What an `ExAddMulticastDelegate` holds.
pub open spec fn parse_ex_add_multicast_delegate(s: Seq<u8>, ov: i32, n: nat) -> KRead<KView>
    decreases s.len(), 2int, 0int,
{
    match parse_expr(s, ov, n) {
        KRead::Done(delegate, k0) =>
            match parse_expr(rest(s, k0 as int), ov, n) {
                KRead::Done(delegate_to_add, k1) =>
                    KRead::Done(KView::ExAddMulticastDelegate { delegate: Box::new(delegate), delegate_to_add: Box::new(delegate_to_add) }, k0 + k1),
                KRead::Fail(k, fe) => KRead::Fail(k0 + k, fe),
                KRead::Eof => KRead::Eof,
            },
        KRead::Fail(k, fe) => KRead::Fail(k, fe),
        KRead::Eof => KRead::Eof,
    }
}

/// What an `ExClearMulticastDelegate` holds.
pub open spec fn parse_ex_clear_multicast_delegate(s: Seq<u8>, ov: i32, n: nat) -> KRead<KView>
    decreases s.len(), 2int, 0int,
{
    match parse_expr(s, ov, n) {
        KRead::Done(delegate_to_clear, k0) =>
            KRead::Done(KView::ExClearMulticastDelegate { delegate_to_clear: Box::new(delegate_to_clear) }, k0),
        KRead::Fail(k, fe) => KRead::Fail(k, fe),
        KRead::Eof => KRead::Eof,
    }
}

/// What an `ExLetObj` holds.
pub open spec fn parse_ex_let_obj(s: Seq<u8>, ov: i32, n: nat) -> KRead<KView>
    decreases s.len(), 2int, 0int,
{
    match parse_expr(s, ov, n) {
        KRead::Done(variable_expression, k0) =>
            match parse_expr(rest(s, k0 as int), ov, n) {
                KRead::Done(assignment_expression, k1) =>
                    KRead::Done(KView::ExLetObj { variable_expression: Box::new(variable_expression), assignment_expression: Box::new(assignment_expression) }, k0 + k1),
                KRead::Fail(k, fe) => KRead::Fail(k0 + k, fe),
                KRead::Eof => KRead::Eof,
            },
        KRead::Fail(k, fe) => KRead::Fail(k, fe),
        KRead::Eof => KRead::Eof,
    }
}

/// What an `ExLetWeakObjPtr` holds.
pub open spec fn parse_ex_let_weak_obj_ptr(s: Seq<u8>, ov: i32, n: nat) -> KRead<KView>
    decreases s.len(), 2int, 0int,
{
    match parse_expr(s, ov, n) {
        KRead::Done(variable_expression, k0) =>
            match parse_expr(rest(s, k0 as int), ov, n) {
                KRead::Done(assignment_expression, k1) =>
                    KRead::Done(KView::ExLetWeakObjPtr { variable_expression: Box::new(variable_expression), assignment_expression: Box::new(assignment_expression) }, k0 + k1),
                KRead::Fail(k, fe) => KRead::Fail(k0 + k, fe),
                KRead::Eof => KRead::Eof,
            },
        KRead::Fail(k, fe) => KRead::Fail(k, fe),
        KRead::Eof => KRead::Eof,
    }
}

/// What an `ExBindDelegate` holds.
pub open spec fn parse_ex_bind_delegate(s: Seq<u8>, ov: i32, n: nat) -> KRead<KView>
    decreases s.len(), 2int, 0int,
{
    match kr_name(s, n) {
        KRead::Done(function_name, k0) =>
            match parse_expr(rest(s, k0 as int), ov, n) {
                KRead::Done(delegate, k1) =>
                    match parse_expr(rest(s, (k0 + k1) as int), ov, n) {
                        KRead::Done(object_term, k2) =>
                            KRead::Done(KView::ExBindDelegate { function_name, delegate: Box::new(delegate), object_term: Box::new(object_term) }, k0 + k1 + k2),
                        KRead::Fail(k, fe) => KRead::Fail(k0 + k1 + k, fe),
                        KRead::Eof => KRead::Eof,
                    },
                KRead::Fail(k, fe) => KRead::Fail(k0 + k, fe),
                KRead::Eof => KRead::Eof,
            },
        KRead::Fail(k, fe) => KRead::Fail(k, fe),
        KRead::Eof => KRead::Eof,
    }
}

/// What an `ExRemoveMulticastDelegate` holds.
pub open spec fn parse_ex_remove_multicast_delegate(s: Seq<u8>, ov: i32, n: nat) -> KRead<KView>
    decreases s.len(), 2int, 0int,
{
    match parse_expr(s, ov, n) {
        KRead::Done(delegate, k0) =>
            match parse_expr(rest(s, k0 as int), ov, n) {
                KRead::Done(delegate_to_add, k1) =>
                    KRead::Done(KView::ExRemoveMulticastDelegate { delegate: Box::new(delegate), delegate_to_add: Box::new(delegate_to_add) }, k0 + k1),
                KRead::Fail(k, fe) => KRead::Fail(k0 + k, fe),
                KRead::Eof => KRead::Eof,
            },
        KRead::Fail(k, fe) => KRead::Fail(k, fe),
        KRead::Eof => KRead::Eof,
    }
}

/// What an `ExCallMulticastDelegate` holds.
pub open spec fn parse_ex_call_multicast_delegate(s: Seq<u8>, ov: i32, n: nat) -> KRead<KView>
    decreases s.len(), 2int, 0int,
{
    match kr_idx(s) {
        KRead::Done(stack_node, k0) =>
            match parse_expr(rest(s, k0 as int), ov, n) {
                KRead::Done(delegate, k1) =>
                    match parse_list(rest(s, (k0 + k1) as int), EExprToken::ExEndFunctionParms, ov, n) {
                        KRead::Done(parameters, k2) =>
                            KRead::Done(KView::ExCallMulticastDelegate { stack_node, delegate: Box::new(delegate), parameters }, k0 + k1 + k2),
                        KRead::Fail(k, fe) => KRead::Fail(k0 + k1 + k, fe),
                        KRead::Eof => KRead::Eof,
                    },
                KRead::Fail(k, fe) => KRead::Fail(k0 + k, fe),
                KRead::Eof => KRead::Eof,
            },
        KRead::Fail(k, fe) => KRead::Fail(k, fe),
        KRead::Eof => KRead::Eof,
    }
}

/// What an `ExLetValueOnPersistentFrame` holds.
pub open spec fn parse_ex_let_value_on_persistent_frame(s: Seq<u8>, ov: i32, n: nat) -> KRead<KView>
    decreases s.len(), 2int, 0int,
{
    match kr_ptr(s, ov, n) {
        KRead::Done(destination_property, k0) =>
            match parse_expr(rest(s, k0 as int), ov, n) {
                KRead::Done(assignment_expression, k1) =>
                    KRead::Done(KView::ExLetValueOnPersistentFrame { destination_property, assignment_expression: Box::new(assignment_expression) }, k0 + k1),
                KRead::Fail(k, fe) => KRead::Fail(k0 + k, fe),
                KRead::Eof => KRead::Eof,
            },
        KRead::Fail(k, fe) => KRead::Fail(k, fe),
        KRead::Eof => KRead::Eof,
    }
}

/// What an `ExArrayConst` holds.
pub open spec fn parse_ex_array_const(s: Seq<u8>, ov: i32, n: nat) -> KRead<KView>
    decreases s.len(), 2int, 0int,
{
    match kr_ptr(s, ov, n) {
        KRead::Done(inner_property, k0) =>
            match kr_i32(rest(s, k0 as int)) {
                KRead::Done(_, k1) =>
                    match parse_list(rest(s, (k0 + k1) as int), EExprToken::ExEndArrayConst, ov, n) {
                        KRead::Done(elements, k2) =>
                            KRead::Done(KView::ExArrayConst { inner_property, elements }, k0 + k1 + k2),
                        KRead::Fail(k, fe) => KRead::Fail(k0 + k1 + k, fe),
                        KRead::Eof => KRead::Eof,
                    },
                KRead::Fail(k, fe) => KRead::Fail(k0 + k, fe),
                KRead::Eof => KRead::Eof,
            },
        KRead::Fail(k, fe) => KRead::Fail(k, fe),
        KRead::Eof => KRead::Eof,
    }
}

/// What an `ExSoftObjectConst` holds.
pub open spec fn parse_ex_soft_object_const(s: Seq<u8>, ov: i32, n: nat) -> KRead<KView>
    decreases s.len(), 2int, 0int,
{
    match parse_expr(s, ov, n) {
        KRead::Done(value, k0) =>
            KRead::Done(KView::ExSoftObjectConst { value: Box::new(value) }, k0),
        KRead::Fail(k, fe) => KRead::Fail(k, fe),
        KRead::Eof => KRead::Eof,
    }
}

/// What an `ExCallMath` holds.
pub open spec fn parse_ex_call_math(s: Seq<u8>, ov: i32, n: nat) -> KRead<KView>
    decreases s.len(), 2int, 0int,
{
    match kr_idx(s) {
        KRead::Done(stack_node, k0) =>
            match parse_list(rest(s, k0 as int), EExprToken::ExEndFunctionParms, ov, n) {
                KRead::Done(parameters, k1) =>
                    KRead::Done(KView::ExCallMath { stack_node, parameters }, k0 + k1),
                KRead::Fail(k, fe) => KRead::Fail(k0 + k, fe),
                KRead::Eof => KRead::Eof,
            },
        KRead::Fail(k, fe) => KRead::Fail(k, fe),
        KRead::Eof => KRead::Eof,
    }
}

/// What an `ExSwitchValue` holds.
pub open spec fn parse_ex_switch_value(s: Seq<u8>, ov: i32, n: nat) -> KRead<KView>
    decreases s.len(), 2int, 0int,
{
    match kr_u16(s) {
        KRead::Done(num_cases, k0) => match kr_u32(rest(s, k0 as int)) {
            KRead::Done(end_goto_offset, k1) => match parse_expr(rest(s, (k0 + k1) as int), ov, n) {
                KRead::Done(index_term, k2) => match parse_cases(rest(s, (k0 + k1 + k2) as int), num_cases as nat, ov, n) {
                    KRead::Done(cases, k3) => match parse_expr(rest(s, (k0 + k1 + k2 + k3) as int), ov, n) {
                        KRead::Done(default_term, k4) => KRead::Done(KView::ExSwitchValue {
                            end_goto_offset,
                            index_term: Box::new(index_term),
                            default_term: Box::new(default_term),
                            cases,
                        }, k0 + k1 + k2 + k3 + k4),
                        KRead::Fail(k, fe) => KRead::Fail(k0 + k1 + k2 + k3 + k, fe),
                        KRead::Eof => KRead::Eof,
                    },
                    KRead::Fail(k, fe) => KRead::Fail(k0 + k1 + k2 + k, fe),
                    KRead::Eof => KRead::Eof,
                },
                KRead::Fail(k, fe) => KRead::Fail(k0 + k1 + k, fe),
                KRead::Eof => KRead::Eof,
            },
            KRead::Fail(k, fe) => KRead::Fail(k0 + k, fe),
            KRead::Eof => KRead::Eof,
        },
        KRead::Fail(k, fe) => KRead::Fail(k, fe),
        KRead::Eof => KRead::Eof,
    }
}

/// What an `ExInstrumentationEvent` holds.
pub open spec fn parse_ex_instrumentation_event(s: Seq<u8>, ov: i32, n: nat) -> KRead<KView>
    decreases s.len(), 2int, 0int,
{
    if s.len() == 0 {
        KRead::Eof
    } else {
        match EScriptInstrumentationType::spec_from_u8(s[0]) {
            None => KRead::Fail(1, KErr::Enum("EScriptInstrumentationType"@)),
            Some(event_type) => if event_type == EScriptInstrumentationType::InlineEvent {
                match kr_name(rest(s, 1), n) {
                    KRead::Done(name, k) => KRead::Done(KView::ExInstrumentationEvent {
                        event_type,
                        event_name: Some(name),
                    }, 1 + k),
                    KRead::Fail(k, fe) => KRead::Fail(1 + k, fe),
                    KRead::Eof => KRead::Eof,
                }
            } else {
                KRead::Done(KView::ExInstrumentationEvent { event_type, event_name: None }, 1)
            },
        }
    }
}

/// What an `ExArrayGetByRef` holds.
pub open spec fn parse_ex_array_get_by_ref(s: Seq<u8>, ov: i32, n: nat) -> KRead<KView>
    decreases s.len(), 2int, 0int,
{
    match parse_expr(s, ov, n) {
        KRead::Done(array_variable, k0) =>
            match parse_expr(rest(s, k0 as int), ov, n) {
                KRead::Done(array_index, k1) =>
                    KRead::Done(KView::ExArrayGetByRef { array_variable: Box::new(array_variable), array_index: Box::new(array_index) }, k0 + k1),
                KRead::Fail(k, fe) => KRead::Fail(k0 + k, fe),
                KRead::Eof => KRead::Eof,
            },
        KRead::Fail(k, fe) => KRead::Fail(k, fe),
        KRead::Eof => KRead::Eof,
    }
}

/// What an `ExClassSparseDataVariable` holds.
pub open spec fn parse_ex_class_sparse_data_variable(s: Seq<u8>, ov: i32, n: nat) -> KRead<KView>
    decreases s.len(), 2int, 0int,
{
    match kr_ptr(s, ov, n) {
        KRead::Done(variable, k0) =>
            KRead::Done(KView::ExClassSparseDataVariable { variable }, k0),
        KRead::Fail(k, fe) => KRead::Fail(k, fe),
        KRead::Eof => KRead::Eof,
    }
}

/// What an `ExFieldPathConst` holds.
pub open spec fn parse_ex_field_path_const(s: Seq<u8>, ov: i32, n: nat) -> KRead<KView>
    decreases s.len(), 2int, 0int,
{
    match parse_expr(s, ov, n) {
        KRead::Done(value, k0) =>
            KRead::Done(KView::ExFieldPathConst { value: Box::new(value) }, k0),
        KRead::Fail(k, fe) => KRead::Fail(k, fe),
        KRead::Eof => KRead::Eof,
    }
}

} // verus!
