//! Value alignment helpers

use vstd::prelude::*;
use vstd::arithmetic::power2::pow2;

verus! {

/// Align a value with an alignment
///
/// The result keeps the bits of `val + alignment - 1` above the mask
/// `alignment - 1`; for a power-of-two `alignment` this is the least
/// multiple of `alignment` that is at least `val`.
pub fn align(val: u64, alignment: u64) -> (r: u64)
    requires
        1 <= val as int + alignment as int <= u64::MAX,
    ensures
        r == (((val as int + alignment as int - 1) as u64) & !vstd::wrapping::u64_specs::wrapping_sub(alignment, 1)),
        forall|k: nat| k < 64 && alignment == pow2(k) ==> {
            &&& r >= val
            &&& r % alignment == 0
            &&& r - val < alignment
        },
{
    let v = val + alignment - 1;
    let r = v & !alignment.wrapping_sub(1);
    proof {
        assert forall|k: nat| k < 64 && alignment == pow2(k) implies {
            &&& r >= val
            &&& r % alignment == 0
            &&& r - val < alignment
        } by {
            lemma_round_down(v, alignment, k);
            vstd::arithmetic::power2::lemma_pow2_pos(k);
            vstd::arithmetic::div_mod::lemma_mod_bound(v as int, alignment as int);
            assert(r == v - v % alignment);
            assert(v == val + alignment - 1);
            assert(r as int % alignment as int == 0);
            assert(r >= val);
            assert(r % alignment == 0);
            assert(r - val == alignment - 1 - v % alignment);
            assert(0 <= v % alignment < alignment);
            assert(r - val < alignment);
        }
    }
    r
}

/// Clearing the bits below a power of two rounds down to a multiple of it.
proof fn lemma_round_down(v: u64, a: u64, k: nat)
    requires k < 64, a == pow2(k),
    ensures
        (v & !vstd::wrapping::u64_specs::wrapping_sub(a, 1)) == v - v % a,
        (v - v % a) % (a as int) == 0,
        v % a < a && v % a <= v,
{
    vstd::arithmetic::power2::lemma_pow2_pos(k);
    vstd::bits::lemma_u64_low_bits_mask_is_mod(v, k);
    let m = (a - 1) as u64;
    assert(vstd::wrapping::u64_specs::wrapping_sub(a, 1) == m);
    assert(v & !m == v - (v & m)) by (bit_vector);
    vstd::arithmetic::div_mod::lemma_fundamental_div_mod(v as int, a as int);
    vstd::arithmetic::div_mod::lemma_mod_bound(v as int, a as int);
    vstd::arithmetic::div_mod::lemma_mod_multiples_basic(v as int / a as int, a as int);
    assert((v - v % a) as int == (v as int / a as int) * a as int) by (nonlinear_arith)
        requires v as int == a as int * (v as int / a as int) + v as int % a as int;
}

} // verus!
