//! Little- and big-endian integer encodings and the byte-order primitives.

use vstd::prelude::*;
use byteorder::{BigEndian, ByteOrder, LittleEndian};

verus! {

/// 256 to the power `n`.
pub open spec fn pow256(n: nat) -> nat
    decreases n,
{
    if n == 0 { 1 } else { 256 * pow256((n - 1) as nat) }
}

/// Unsigned value of a little-endian byte sequence.
pub open spec fn le_value(s: Seq<u8>) -> nat
    decreases s.len(),
{
    if s.len() == 0 { 0 } else { s[0] as nat + 256 * le_value(s.drop_first()) }
}

/// The `n` low bytes of `x`, least significant first.
pub open spec fn le_bytes(x: nat, n: nat) -> Seq<u8>
    decreases n,
{
    if n == 0 { Seq::empty() } else { seq![(x % 256) as u8] + le_bytes(x / 256, (n - 1) as nat) }
}

/// Unsigned value of a big-endian byte sequence.
pub open spec fn be_value(s: Seq<u8>) -> nat {
    le_value(s.reverse())
}

/// The `n` low bytes of `x`, most significant first.
pub open spec fn be_bytes(x: nat, n: nat) -> Seq<u8> {
    le_bytes(x, n).reverse()
}

pub proof fn lemma_pow256_pos(n: nat)
    ensures pow256(n) >= 1,
    decreases n,
{
    if n > 0 { lemma_pow256_pos((n - 1) as nat); }
}

pub proof fn lemma_le_bytes_len(x: nat, n: nat)
    ensures le_bytes(x, n).len() == n,
    decreases n,
{
    if n > 0 { lemma_le_bytes_len(x / 256, (n - 1) as nat); }
}

pub proof fn lemma_le_value_bound(s: Seq<u8>)
    ensures le_value(s) < pow256(s.len()),
    decreases s.len(),
{
    if s.len() > 0 {
        lemma_le_value_bound(s.drop_first());
        let r = le_value(s.drop_first());
        let p = pow256((s.len() - 1) as nat);
        assert(s[0] as nat + 256 * r < 256 * p) by (nonlinear_arith)
            requires r < p, s[0] < 256;
    }
}

/// Decoding the encoding of a value that fits gives back the value.
pub proof fn lemma_le_roundtrip(x: nat, n: nat)
    requires x < pow256(n),
    ensures
        le_bytes(x, n).len() == n,
        le_value(le_bytes(x, n)) == x,
    decreases n,
{
    lemma_le_bytes_len(x, n);
    if n > 0 {
        let p = pow256((n - 1) as nat);
        assert(x / 256 < p) by (nonlinear_arith) requires x < 256 * p;
        lemma_le_roundtrip(x / 256, (n - 1) as nat);
        let t = le_bytes(x / 256, (n - 1) as nat);
        assert((seq![(x % 256) as u8] + t).drop_first() =~= t);
        assert(x == x % 256 + 256 * (x / 256)) by (nonlinear_arith);
    }
}

/// Encoding the value of a byte sequence gives back the sequence.
pub proof fn lemma_le_bytes_of_value(s: Seq<u8>)
    ensures le_bytes(le_value(s), s.len()) == s,
    decreases s.len(),
{
    if s.len() > 0 {
        let v = le_value(s);
        let r = le_value(s.drop_first());
        lemma_le_bytes_of_value(s.drop_first());
        assert(v % 256 == s[0] as nat && v / 256 == r) by (nonlinear_arith)
            requires v == s[0] as nat + 256 * r, s[0] < 256;
        assert(le_bytes(v, s.len()) =~= s);
    }
}

pub proof fn lemma_be_roundtrip(x: nat, n: nat)
    requires x < pow256(n),
    ensures
        be_bytes(x, n).len() == n,
        be_value(be_bytes(x, n)) == x,
{
    lemma_le_roundtrip(x, n);
    assert(be_bytes(x, n).reverse() =~= le_bytes(x, n));
}

pub proof fn lemma_pow256_values()
    ensures
        pow256(1) == 0x100,
        pow256(2) == 0x10000,
        pow256(4) == 0x1_0000_0000,
        pow256(5) == 0x100_0000_0000,
        pow256(8) == 0x1_0000_0000_0000_0000,
{
    reveal_with_fuel(pow256, 9);
}

/// Reads a little-endian `u16`.
#[verifier::external_body]
pub(crate) fn u16_from_le(b: [u8; 2]) -> (r: u16)
    ensures r as nat == le_value(b@),
{
    LittleEndian::read_u16(&b)
}

/// Reads a little-endian `u32`.
#[verifier::external_body]
pub(crate) fn u32_from_le(b: [u8; 4]) -> (r: u32)
    ensures r as nat == le_value(b@),
{
    LittleEndian::read_u32(&b)
}

/// Reads a little-endian `u64`.
#[verifier::external_body]
pub(crate) fn u64_from_le(b: [u8; 8]) -> (r: u64)
    ensures r as nat == le_value(b@),
{
    LittleEndian::read_u64(&b)
}

/// Reads a big-endian `u16`.
#[verifier::external_body]
pub(crate) fn u16_from_be(b: [u8; 2]) -> (r: u16)
    ensures r as nat == be_value(b@),
{
    BigEndian::read_u16(&b)
}

/// Writes a little-endian `u16`.
#[verifier::external_body]
pub(crate) fn u16_to_le(x: u16) -> (r: [u8; 2])
    ensures r@ == le_bytes(x as nat, 2),
{
    let mut b = [0u8; 2];
    LittleEndian::write_u16(&mut b, x);
    b
}

/// Writes a little-endian `u32`.
#[verifier::external_body]
pub(crate) fn u32_to_le(x: u32) -> (r: [u8; 4])
    ensures r@ == le_bytes(x as nat, 4),
{
    let mut b = [0u8; 4];
    LittleEndian::write_u32(&mut b, x);
    b
}

/// Writes a little-endian `u64`.
#[verifier::external_body]
pub(crate) fn u64_to_le(x: u64) -> (r: [u8; 8])
    ensures r@ == le_bytes(x as nat, 8),
{
    let mut b = [0u8; 8];
    LittleEndian::write_u64(&mut b, x);
    b
}

/// Writes a big-endian `u16`.
#[verifier::external_body]
pub(crate) fn u16_to_be(x: u16) -> (r: [u8; 2])
    ensures r@ == be_bytes(x as nat, 2),
{
    let mut b = [0u8; 2];
    BigEndian::write_u16(&mut b, x);
    b
}

} // verus!

verus! {

/// The value of a concatenation: the first part, plus the second shifted past it.
pub proof fn lemma_le_value_concat(a: Seq<u8>, c: Seq<u8>)
    ensures le_value(a + c) == le_value(a) + pow256(a.len()) * le_value(c),
    decreases a.len(),
{
    if a.len() == 0 {
        assert(a + c =~= c);
    } else {
        lemma_le_value_concat(a.drop_first(), c);
        assert((a + c).drop_first() =~= a.drop_first() + c);
        let x = le_value(a.drop_first());
        let p = pow256((a.len() - 1) as nat);
        let y = le_value(c);
        assert((a + c)[0] == a[0]);
        assert(le_value(a + c) == a[0] as nat + 256 * le_value((a + c).drop_first()));
        assert(le_value(a) == a[0] as nat + 256 * x);
        assert(pow256(a.len()) == 256 * p);
        assert(le_value((a + c).drop_first()) == x + p * y);
        assert(256 * (x + p * y) == 256 * x + (256 * p) * y) by (nonlinear_arith);
    }
}

/// The first `m` bytes of an encoding encode the value modulo `256^m`.
pub proof fn lemma_le_bytes_take(x: nat, n: nat, m: nat)
    requires m <= n,
    ensures le_bytes(x, n).take(m as int) == le_bytes(x % pow256(m), m),
    decreases m,
{
    lemma_le_bytes_len(x, n);
    lemma_le_bytes_len(x % pow256(m), m);
    if m > 0 {
        let p = pow256((m - 1) as nat);
        lemma_pow256_pos((m - 1) as nat);
        lemma_le_bytes_take(x / 256, (n - 1) as nat, (m - 1) as nat);
        let y = x % pow256(m);
        vstd::arithmetic::div_mod::lemma_breakdown(x as int, 256, p as int);
        let q = (x / 256) % p;
        assert(0 <= q < p) by { vstd::arithmetic::div_mod::lemma_mod_bound((x / 256) as int, p as int); }
        assert(0 <= x % 256 < 256);
        vstd::arithmetic::div_mod::lemma_fundamental_div_mod_converse(y as int, 256, q as int, (x % 256) as int);
        let t = le_bytes(x / 256, (n - 1) as nat);
        assert(le_bytes(x, n) =~= seq![(x % 256) as u8] + t);
        assert(le_bytes(x, n).take(m as int) =~= seq![(x % 256) as u8] + t.take(m - 1));
        assert(le_bytes(y, m) =~= seq![(y % 256) as u8] + le_bytes(y / 256, (m - 1) as nat));
    }
}

/// The encoding of `256 * y` is a zero byte followed by the encoding of `y`.
pub proof fn lemma_le_bytes_shift(y: nat, n: nat)
    requires n >= 1,
    ensures le_bytes(256 * y, n) == seq![0u8] + le_bytes(y, (n - 1) as nat),
{
    assert((256 * y) % 256 == 0 && (256 * y) / 256 == y) by (nonlinear_arith);
    assert(le_bytes(256 * y, n) =~= seq![0u8] + le_bytes(y, (n - 1) as nat));
}

pub proof fn lemma_pow256_more()
    ensures
        pow256(3) == 0x100_0000,
        pow256(6) == 0x1_0000_0000_0000,
        pow256(7) == 0x100_0000_0000_0000,
{
    reveal_with_fuel(pow256, 8);
}

} // verus!

verus! {

/// `n` zero bytes.
pub open spec fn zeros(n: nat) -> Seq<u8> {
    Seq::new(n, |i: int| 0u8)
}

/// Zero bytes add nothing to a value.
pub proof fn lemma_le_value_zeros(n: nat)
    ensures le_value(zeros(n)) == 0,
    decreases n,
{
    if n > 0 {
        lemma_le_value_zeros((n - 1) as nat);
        assert(zeros(n).drop_first() =~= zeros((n - 1) as nat));
    }
}

/// The value of a sequence followed by zero bytes is the value of the sequence.
pub proof fn lemma_le_value_pad(a: Seq<u8>, n: nat)
    ensures le_value(a + zeros(n)) == le_value(a),
{
    lemma_le_value_concat(a, zeros(n));
    lemma_le_value_zeros(n);
}

} // verus!
