//! AC7 Encryption
//!
//! AC7 assets are xored byte by byte with a stream taken from a key table of
//! 217 rows of 1024 bytes, starting at a row and column derived from the
//! asset's name, and with the constant 0x77.

use vstd::prelude::*;

verus! {

/// The number of rows of the key table.
pub const KEY_ROWS: u32 = 217;

/// The number of bytes in a row of the key table.
pub const KEY_COLUMNS: u32 = 1024;

/// The number of bytes of the key table.
pub const KEY_TABLE_LEN: usize = 222208;

/// The uppercase form of a string, as Rust's `str::to_uppercase` computes it.
pub uninterp spec fn uppercase_of(s: Seq<char>) -> Seq<char>;

/// Calls `str::to_uppercase`, whose result is a function of the string alone (the Unicode
/// uppercase mapping), named `uppercase_of`.
#[verifier::external_body]
fn to_uppercase(s: &str) -> (r: String)
    ensures r@ == uppercase_of(s@),
{
    s.to_uppercase()
}

/// One step of the name key: fold in a byte.
pub open spec fn name_key_step(num: u32, b: u8) -> u32 {
    let n: u32 = num ^ (b as u32);
    let n2 = (n << 3u32) ^ n;
    let n3 = n << 1u32;
    ((!n2 >> 7u32) & 1u32) | n3
}

/// The name key of bytes: each byte folded in, in order.
pub open spec fn name_key_of(bytes: Seq<u8>) -> u32
    decreases bytes.len(),
{
    if bytes.len() == 0 { 0 } else { name_key_step(name_key_of(bytes.drop_last()), bytes.last()) }
}

/// The key stream position after `n` bytes from `(pk1, pk2)`.
pub open spec fn advance(pk1: u32, pk2: u32) -> (u32, u32) {
    (if pk1 + 1 >= 217 { 0 } else { (pk1 + 1) as u32 }, if pk2 + 1 >= 1024 { 0 } else { (pk2 + 1) as u32 })
}

/// `data` xored with the key stream of `table` that starts at `(pk1, pk2)`, and with 0x77.
pub open spec fn xor_stream(table: Seq<u8>, pk1: u32, pk2: u32, data: Seq<u8>) -> Seq<u8>
    decreases data.len(),
{
    if data.len() == 0 {
        Seq::empty()
    } else {
        let (n1, n2) = advance(pk1, pk2);
        seq![data[0] ^ table[pk1 * 1024 + pk2] ^ 0x77u8] + xor_stream(table, n1, n2, data.drop_first())
    }
}

/// The key stream position after `n` bytes from `(pk1, pk2)`.
pub open spec fn advance_by(pk1: u32, pk2: u32, n: nat) -> (u32, u32)
    decreases n,
{
    if n == 0 {
        (pk1, pk2)
    } else {
        let (a, b) = advance(pk1, pk2);
        advance_by(a, b, (n - 1) as nat)
    }
}

/// AC7 Encryption xor key
#[derive(Debug, Clone, Copy, PartialEq, Eq, Hash, Structural)]
pub struct AC7XorKey {
    name_key: i32,
    offset: u32,
    pk1: u32,
    pk2: u32,
}

impl AC7XorKey {
    /// The name key.
    pub closed spec fn spec_name_key(self) -> i32 { self.name_key }

    /// The offset that the key stream position was derived with.
    pub closed spec fn spec_offset(self) -> u32 { self.offset }

    /// The row of the key table of the next byte.
    pub closed spec fn spec_pk1(self) -> u32 { self.pk1 }

    /// The column of the key table of the next byte.
    pub closed spec fn spec_pk2(self) -> u32 { self.pk2 }

    /// Whether the key stream position lies in the key table.
    #[verifier::type_invariant]
    pub closed spec fn wf(self) -> bool {
        self.pk1 < 217 && self.pk2 < 1024
    }

    /// Creates a new AC7XorKey for an asset with the specified name
    /// Note: name should be without extension
    pub fn new(name: &str) -> (k: Self)
        ensures
            k.spec_name_key() == name_key_of(vstd::utf8::encode_utf8(uppercase_of(name@))) as i32,
            k.spec_offset() == 4,
            k.spec_pk1() == ((7 * (k.spec_name_key() as u32) + k.spec_offset()) % 217) as u32,
            k.spec_pk2() == ((11 * (k.spec_name_key() as u32) + k.spec_offset()) % 1024) as u32,
    {
        let name_key: i32 = Self::calc_name_key(name);
        let offset: u32 = 4;
        let (pk1, pk2): (u32, u32) = Self::calc_pkey_from_nkey(name_key as u32, offset);
        AC7XorKey { name_key, offset, pk1, pk2 }
    }

    /// Process a single byte with this key
    pub fn xor_byte(&mut self, table: &[u8], byte: u8) -> (r: u8)
        requires
            table@.len() >= KEY_TABLE_LEN,
        ensures
            r == byte ^ table@[old(self).spec_pk1() * 1024 + old(self).spec_pk2()] ^ 0x77u8,
            (final(self).spec_pk1(), final(self).spec_pk2()) == advance(old(self).spec_pk1(), old(self).spec_pk2()),
            final(self).spec_name_key() == old(self).spec_name_key(),
            final(self).spec_offset() == old(self).spec_offset(),
    {
        proof { use_type_invariant(&*self); }
        let index: usize = (self.pk1 * 1024 + self.pk2) as usize;
        let b1: u8 = byte ^ table[index];
        let b2: u32 = b1 as u32 ^ 0x77;
        let n1: u32 = if self.pk1 + 1 >= 217 { 0 } else { self.pk1 + 1 };
        let n2: u32 = if self.pk2 + 1 >= 1024 { 0 } else { self.pk2 + 1 };
        self.pk1 = n1;
        self.pk2 = n2;
        let r: u8 = b2 as u8;
        assert(r == b1 ^ 0x77u8) by (bit_vector)
            requires b2 == (b1 as u32) ^ 0x77u32, r == b2 as u8;
        r
    }

    /// Xors bytes with the key stream, advancing the key past them.
    pub fn xor_bytes(&mut self, table: &[u8], data: &mut Vec<u8>)
        requires
            table@.len() >= KEY_TABLE_LEN,
        ensures
            final(data)@ == xor_stream(table@, old(self).spec_pk1(), old(self).spec_pk2(), old(data)@),
            (final(self).spec_pk1(), final(self).spec_pk2())
                == advance_by(old(self).spec_pk1(), old(self).spec_pk2(), old(data)@.len()),
            final(self).spec_name_key() == old(self).spec_name_key(),
            final(self).spec_offset() == old(self).spec_offset(),
    {
        let ghost d0 = data@;
        let ghost k0 = *self;
        let mut i: usize = 0;
        assert(d0.skip(0) =~= d0);
        assert(data@.take(0) + xor_stream(table@, self.spec_pk1(), self.spec_pk2(), d0)
            =~= xor_stream(table@, k0.spec_pk1(), k0.spec_pk2(), d0));
        while i < data.len()
            invariant
                i <= data.len(),
                data@.len() == d0.len(),
                table@.len() >= KEY_TABLE_LEN,
                self.spec_name_key() == k0.spec_name_key(),
                self.spec_offset() == k0.spec_offset(),
                data@.take(i as int) + xor_stream(table@, self.spec_pk1(), self.spec_pk2(), d0.skip(i as int))
                    == xor_stream(table@, k0.spec_pk1(), k0.spec_pk2(), d0),
                data@.skip(i as int) == d0.skip(i as int),
                advance_by(self.spec_pk1(), self.spec_pk2(), (d0.len() - i) as nat)
                    == advance_by(k0.spec_pk1(), k0.spec_pk2(), d0.len()),
            decreases data.len() - i,
        {
            let ghost before = data@;
            let ghost k = *self;
            let b: u8 = data[i];
            let x: u8 = self.xor_byte(table, b);
            data.set(i, x);
            proof {
                let rest = d0.skip(i as int);
                assert(rest[0] == b);
                assert(rest.drop_first() =~= d0.skip(i + 1));
                assert(data@.take(i + 1) =~= before.take(i as int).push(x));
                assert(data@.skip(i + 1) =~= d0.skip(i + 1));
                assert(seq![x] + xor_stream(table@, self.spec_pk1(), self.spec_pk2(), d0.skip(i + 1))
                    == xor_stream(table@, k.spec_pk1(), k.spec_pk2(), rest));
                assert(before.take(i as int).push(x) + xor_stream(table@, self.spec_pk1(), self.spec_pk2(), d0.skip(i + 1))
                    =~= before.take(i as int) + (seq![x] + xor_stream(table@, self.spec_pk1(), self.spec_pk2(), d0.skip(i + 1))));
                assert((d0.len() - i) as nat - 1 == (d0.len() - (i + 1)) as nat);
            }
            i = i + 1;
        }
        proof {
            assert(data@.take(i as int) =~= data@);
            assert(d0.skip(i as int) =~= Seq::<u8>::empty());
        }
    }

    /// Calculate a name key for a given name
    fn calc_name_key(name: &str) -> (r: i32)
        ensures r == name_key_of(vstd::utf8::encode_utf8(uppercase_of(name@))) as i32,
    {
        let upper = to_uppercase(name);
        let bytes = upper.as_str().as_bytes();
        let mut num: u32 = 0;
        let mut i: usize = 0;
        while i < bytes.len()
            invariant
                i <= bytes@.len(),
                bytes@ == vstd::utf8::encode_utf8(uppercase_of(name@)),
                num == name_key_of(bytes@.take(i as int)),
            decreases bytes.len() - i,
        {
            let b: u8 = bytes[i];
            let n: u32 = num ^ (b as u32);
            let n2: u32 = (n << 3) ^ n;
            let n3: u32 = n << 1;
            num = ((!n2 >> 7) & 1) | n3;
            proof {
                assert(bytes@.take(i + 1).drop_last() =~= bytes@.take(i as int));
            }
            i = i + 1;
        }
        assert(bytes@.take(i as int) =~= bytes@);
        num as i32
    }

    /// Calculate private key from name key
    fn calc_pkey_from_nkey(nkey: u32, data_offset: u32) -> (r: (u32, u32))
        ensures
            r.0 == ((7 * nkey + data_offset) % 217) as u32,
            r.1 == ((11 * nkey + data_offset) % 1024) as u32,
    {
        let mut num: u128 = nkey as u128 * 7;
        let big_int: u128 = 5440514381186227205;
        num = num + data_offset as u128;
        let big_int_2: u128 = big_int * num;

        let mut num_2: u128 = big_int_2 >> 70u128;
        let mut num_3: u128 = num_2 >> 63u128;
        proof { lemma_reciprocal(num, big_int_2, num_2, num_3); }
        num_2 = num_2 + num_3;
        num_3 = num_2 * 217;
        num = num - num_3;

        let pk1: u32 = (num & 0xffffffffu128) as u32;

        let mut num_4: u128 = nkey as u128 * 11;
        num_4 = num_4 + data_offset as u128;
        num_2 = 0;
        num_2 = num_2 & 0x3ff;
        assert(num_2 == 0) by (bit_vector) requires num_2 == 0u128 & 0x3ffu128;
        num_4 = num_4 + num_2;
        let n4: u128 = num_4;
        num_4 = num_4 & 0x3ff;

        let num_5: u128 = num_4 - num_2;
        let pk2: u32 = (num_5 & 0xffffffffu128) as u32;
        proof {
            assert(n4 & 0x3ffu128 == n4 % 1024) by (bit_vector);
            assert(num & 0xffffffffu128 == num) by (bit_vector) requires num < 217u128;
            assert(num_5 & 0xffffffffu128 == num_5) by (bit_vector) requires num_5 < 1024u128;
        }
        (pk1, pk2)
    }
}

/// Multiplying by 5440514381186227205 and shifting right by 70 divides by 217, for values
/// below 2^36.
proof fn lemma_reciprocal(num: u128, big_int_2: u128, num_2: u128, num_3: u128)
    requires
        num < 0x10_0000_0000,
        big_int_2 == 5440514381186227205 * num,
        num_2 == big_int_2 >> 70u128,
        num_3 == num_2 >> 63u128,
    ensures
        num_2 == num / 217,
        num_3 == 0,
        num_2 + num_3 == num / 217,
        num - (num_2 + num_3) * 217 == num % 217,
{
    vstd::bits::lemma_u128_shr_is_div(big_int_2, 70);
    vstd::bits::lemma_u128_shr_is_div(num_2, 63);
    let p70 = vstd::arithmetic::power2::pow2(70);
    let p63 = vstd::arithmetic::power2::pow2(63);
    assert(p70 == 0x40_0000_0000_0000_0000nat) by {
        vstd::arithmetic::power2::lemma2_to64();
        vstd::arithmetic::power2::lemma_pow2_adds(64, 6);
    }
    assert(p63 == 0x8000_0000_0000_0000nat) by {
        vstd::arithmetic::power2::lemma2_to64();
        vstd::arithmetic::power2::lemma2_to64_rest();
    }
    let q = num as int / 217;
    let r = num as int % 217;
    vstd::arithmetic::div_mod::lemma_fundamental_div_mod(num as int, 217);
    vstd::arithmetic::div_mod::lemma_mod_bound(num as int, 217);
    assert(num as int == 217 * q + r && 0 <= r < 217);
    assert(0 <= q < 0x10_0000_0000);
    assert(5440514381186227205 * (num as int) == 0x40_0000_0000_0000_0000 * q + (61 * q + 5440514381186227205 * r))
        by (nonlinear_arith)
        requires num as int == 217 * q + r;
    assert(0 <= 61 * q + 5440514381186227205 * r < 0x40_0000_0000_0000_0000) by (nonlinear_arith)
        requires 0 <= r < 217, 0 <= q < 0x10_0000_0000;
    assert((big_int_2 as int) / 0x40_0000_0000_0000_0000 == q) by (nonlinear_arith)
        requires
            big_int_2 as int == 0x40_0000_0000_0000_0000 * q + (61 * q + 5440514381186227205 * r),
            0 <= 61 * q + 5440514381186227205 * r < 0x40_0000_0000_0000_0000;
    assert(num_2 as int / 0x8000_0000_0000_0000 == 0) by (nonlinear_arith)
        requires 0 <= num_2 < 0x10_0000_0000;
}

/// A reader which aligns bytes for AC7-encrypted assets
pub struct AC7Reader<C> {
    key: AC7XorKey,
    inner: C,
}

impl<C> AC7Reader<C> {
    /// The key of the reader.
    pub closed spec fn spec_key(&self) -> AC7XorKey { self.key }

    /// The inner value of the reader.
    pub closed spec fn spec_inner(&self) -> C { self.inner }

    /// Creates a new AC7Reader for an asset with the specified key
    pub fn new(key: AC7XorKey, inner: C) -> (r: Self)
        ensures r.spec_key() == key, r.spec_inner() == inner,
    {
        AC7Reader { key, inner }
    }

    /// Consumes this reader, returning the underlying value.
    pub fn into_inner(self) -> (r: C)
        ensures r == self.spec_inner(),
    {
        self.inner
    }

    /// The underlying value, to be used in place; the key stays as it is.
    pub fn get_mut(&mut self) -> (r: &mut C)
        ensures
            *r == old(self).spec_inner(),
            final(self).spec_inner() == *final(r),
            final(self).spec_key() == old(self).spec_key(),
    {
        &mut self.inner
    }

    /// Decrypts bytes read from the underlying value, advancing the key past them.
    pub fn decrypt(&mut self, table: &[u8], buf: &mut Vec<u8>)
        requires
            table@.len() >= KEY_TABLE_LEN,
        ensures
            final(buf)@ == xor_stream(table@, old(self).spec_key().spec_pk1(), old(self).spec_key().spec_pk2(), old(buf)@),
            final(self).spec_inner() == old(self).spec_inner(),
            (final(self).spec_key().spec_pk1(), final(self).spec_key().spec_pk2())
                == advance_by(old(self).spec_key().spec_pk1(), old(self).spec_key().spec_pk2(), old(buf)@.len()),
    {
        self.key.xor_bytes(table, buf);
    }
}

/// A writer which aligns bytes for AC7-encrypted assets
pub struct AC7Writer<C> {
    key: AC7XorKey,
    inner: C,
}

impl<C> AC7Writer<C> {
    /// The key of the writer.
    pub closed spec fn spec_key(&self) -> AC7XorKey { self.key }

    /// The inner value of the writer.
    pub closed spec fn spec_inner(&self) -> C { self.inner }

    /// Creates a new AC7Writer for an asset with the specified key
    pub fn new(key: AC7XorKey, inner: C) -> (r: Self)
        ensures r.spec_key() == key, r.spec_inner() == inner,
    {
        AC7Writer { key, inner }
    }

    /// Consumes this writer, returning the underlying value.
    pub fn into_inner(self) -> (r: C)
        ensures r == self.spec_inner(),
    {
        self.inner
    }

    /// The underlying value, to be used in place; the key stays as it is.
    pub fn get_mut(&mut self) -> (r: &mut C)
        ensures
            *r == old(self).spec_inner(),
            final(self).spec_inner() == *final(r),
            final(self).spec_key() == old(self).spec_key(),
    {
        &mut self.inner
    }

    /// Encrypts bytes to be written to the underlying value, advancing the key past them.
    pub fn encrypt(&mut self, table: &[u8], buf: &mut Vec<u8>)
        requires
            table@.len() >= KEY_TABLE_LEN,
        ensures
            final(buf)@ == xor_stream(table@, old(self).spec_key().spec_pk1(), old(self).spec_key().spec_pk2(), old(buf)@),
            final(self).spec_inner() == old(self).spec_inner(),
            (final(self).spec_key().spec_pk1(), final(self).spec_key().spec_pk2())
                == advance_by(old(self).spec_key().spec_pk1(), old(self).spec_key().spec_pk2(), old(buf)@.len()),
    {
        self.key.xor_bytes(table, buf);
    }
}

/// Decrypting with the key stream that encrypted gives the bytes back: xoring twice with
/// the same stream from the same position is the identity.
pub proof fn lemma_xor_stream_involution(table: Seq<u8>, pk1: u32, pk2: u32, data: Seq<u8>)
    ensures xor_stream(table, pk1, pk2, xor_stream(table, pk1, pk2, data)) == data,
    decreases data.len(),
{
    if data.len() > 0 {
        let (n1, n2) = advance(pk1, pk2);
        let k = table[pk1 * 1024 + pk2];
        let e = xor_stream(table, pk1, pk2, data);
        lemma_xor_stream_involution(table, n1, n2, data.drop_first());
        assert(e.drop_first() =~= xor_stream(table, n1, n2, data.drop_first()));
        let b = data[0];
        assert(b ^ k ^ 0x77u8 ^ k ^ 0x77u8 == b) by (bit_vector);
        assert(xor_stream(table, pk1, pk2, e) =~= data);
    }
}

/// The key stream steps through the whole key table: from a position in the table, the next
/// row is the row after, wrapping after the last of the `KEY_ROWS` rows, and the next column
/// is the column after, wrapping after the last of the `KEY_COLUMNS` columns.
pub proof fn lemma_advance_steps_through_table(pk1: u32, pk2: u32)
    requires pk1 < KEY_ROWS, pk2 < KEY_COLUMNS,
    ensures
        advance(pk1, pk2) == (((pk1 + 1) % (KEY_ROWS as int)) as u32, ((pk2 + 1) % (KEY_COLUMNS as int)) as u32),
        advance(pk1, pk2).0 < KEY_ROWS,
        advance(pk1, pk2).1 < KEY_COLUMNS,
{
}

/// After `n` bytes from a position in the key table, the key stream stands `n` rows and `n`
/// columns further on, each counted round the table.
pub proof fn lemma_advance_by_position(pk1: u32, pk2: u32, n: nat)
    requires pk1 < KEY_ROWS, pk2 < KEY_COLUMNS,
    ensures
        advance_by(pk1, pk2, n) == (((pk1 + n) % (KEY_ROWS as int)) as u32, ((pk2 + n) % (KEY_COLUMNS as int)) as u32),
    decreases n,
{
    if n > 0 {
        lemma_advance_steps_through_table(pk1, pk2);
        let (a, b) = advance(pk1, pk2);
        lemma_advance_by_position(a, b, (n - 1) as nat);
        let r = KEY_ROWS as int;
        let c = KEY_COLUMNS as int;
        assert((((pk1 + 1) % r) + (n - 1)) % r == (pk1 + n) % r) by {
            vstd::arithmetic::div_mod::lemma_add_mod_noop(pk1 + 1, n - 1, r);
            vstd::arithmetic::div_mod::lemma_mod_twice(n - 1, r);
            vstd::arithmetic::div_mod::lemma_add_mod_noop((pk1 + 1) % r, n - 1, r);
            vstd::arithmetic::div_mod::lemma_mod_twice(pk1 + 1, r);
        }
        assert((((pk2 + 1) % c) + (n - 1)) % c == (pk2 + n) % c) by {
            vstd::arithmetic::div_mod::lemma_add_mod_noop(pk2 + 1, n - 1, c);
            vstd::arithmetic::div_mod::lemma_mod_twice(n - 1, c);
            vstd::arithmetic::div_mod::lemma_add_mod_noop((pk2 + 1) % c, n - 1, c);
            vstd::arithmetic::div_mod::lemma_mod_twice(pk2 + 1, c);
        }
    }
}

/// Byte `i` of the key stream from a position in the table is xored with the key table entry
/// `i` rows and `i` columns further on, each counted round the table, and with 0x77.
pub proof fn lemma_xor_stream_byte(table: Seq<u8>, pk1: u32, pk2: u32, data: Seq<u8>, i: int)
    requires pk1 < KEY_ROWS, pk2 < KEY_COLUMNS, 0 <= i < data.len(),
    ensures
        xor_stream(table, pk1, pk2, data).len() == data.len(),
        xor_stream(table, pk1, pk2, data)[i]
            == data[i] ^ table[((pk1 + i) % (KEY_ROWS as int)) * (KEY_COLUMNS as int) + (pk2 + i) % (KEY_COLUMNS as int)] ^ 0x77u8,
    decreases data.len(),
{
    lemma_xor_stream_len(table, pk1, pk2, data);
    lemma_advance_steps_through_table(pk1, pk2);
    let (n1, n2) = advance(pk1, pk2);
    if i == 0 {
    } else {
        lemma_xor_stream_byte(table, n1, n2, data.drop_first(), i - 1);
        let r = KEY_ROWS as int;
        let c = KEY_COLUMNS as int;
        assert((((pk1 + 1) % r) + (i - 1)) % r == (pk1 + i) % r) by {
            vstd::arithmetic::div_mod::lemma_add_mod_noop((pk1 + 1) % r, i - 1, r);
            vstd::arithmetic::div_mod::lemma_mod_twice(pk1 + 1, r);
            vstd::arithmetic::div_mod::lemma_add_mod_noop(pk1 + 1, i - 1, r);
        }
        assert((((pk2 + 1) % c) + (i - 1)) % c == (pk2 + i) % c) by {
            vstd::arithmetic::div_mod::lemma_add_mod_noop((pk2 + 1) % c, i - 1, c);
            vstd::arithmetic::div_mod::lemma_mod_twice(pk2 + 1, c);
            vstd::arithmetic::div_mod::lemma_add_mod_noop(pk2 + 1, i - 1, c);
        }
    }
}

/// The key stream keeps the length of the data.
pub proof fn lemma_xor_stream_len(table: Seq<u8>, pk1: u32, pk2: u32, data: Seq<u8>)
    ensures xor_stream(table, pk1, pk2, data).len() == data.len(),
    decreases data.len(),
{
    if data.len() > 0 {
        let (n1, n2) = advance(pk1, pk2);
        lemma_xor_stream_len(table, n1, n2, data.drop_first());
    }
}

} // verus!
