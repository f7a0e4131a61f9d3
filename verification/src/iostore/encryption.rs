//! Encryption helpers

use vstd::prelude::*;
use aes::Aes256;
use aes::cipher::{BlockDecrypt, BlockEncrypt, KeyInit};
use aes::cipher::generic_array::GenericArray;

verus! {

/// Aes256 block alignment
pub const ENCRYPTION_ALIGN: u64 = 16;

/// The block that AES-256 decryption under `key` makes of the 16-byte `block`.
pub uninterp spec fn aes256_decrypt_block(key: Seq<u8>, block: Seq<u8>) -> Seq<u8>;

/// The block that AES-256 encryption under `key` makes of the 16-byte `block`.
pub uninterp spec fn aes256_encrypt_block(key: Seq<u8>, block: Seq<u8>) -> Seq<u8>;

/// Builds the `aes` crate's `Aes256` from `key` (`KeyInit::new`) and decrypts one block
/// with `BlockDecrypt::decrypt_block`. The contract claims only that the result is the
/// named AES-256 decryption of the block under the key, a function of the two alone.
#[verifier::external_body]
fn decrypt_block(key: &[u8; 32], block: [u8; 16]) -> (r: [u8; 16])
    ensures r@ == aes256_decrypt_block(key@, block@),
{
    let cipher = Aes256::new(&GenericArray::from(*key));
    let mut b = GenericArray::from(block);
    cipher.decrypt_block(&mut b);
    b.into()
}

/// Builds the `aes` crate's `Aes256` from `key` (`KeyInit::new`) and encrypts one block
/// with `BlockEncrypt::encrypt_block`. The contract claims that the result is the named
/// AES-256 encryption of the block under the key, and that decrypting it under the same
/// key gives the block back, which is what makes AES a block cipher.
#[verifier::external_body]
fn encrypt_block(key: &[u8; 32], block: [u8; 16]) -> (r: [u8; 16])
    ensures
        r@ == aes256_encrypt_block(key@, block@),
        aes256_decrypt_block(key@, r@) == block@,
{
    let cipher = Aes256::new(&GenericArray::from(*key));
    let mut b = GenericArray::from(block);
    cipher.encrypt_block(&mut b);
    b.into()
}

/// The first `end` bytes of `data`, each 16-byte block decrypted (or encrypted) under `key`.
pub open spec fn cipher_blocks(key: Seq<u8>, data: Seq<u8>, end: int, encrypt: bool) -> Seq<u8>
    decreases end,
{
    if end < 16 {
        Seq::empty()
    } else {
        let block = data.subrange(end - 16, end);
        cipher_blocks(key, data, end - 16, encrypt)
            + if encrypt { aes256_encrypt_block(key, block) } else { aes256_decrypt_block(key, block) }
    }
}

/// `data` decrypted block by block under `key`.
pub open spec fn decrypt_bytes(key: Seq<u8>, data: Seq<u8>) -> Seq<u8> {
    cipher_blocks(key, data, data.len() as int, false)
}

/// `data` encrypted block by block under `key`.
pub open spec fn encrypt_bytes(key: Seq<u8>, data: Seq<u8>) -> Seq<u8> {
    cipher_blocks(key, data, data.len() as int, true)
}

/// The 16 bytes of `data` from `i` on.
fn take_block(data: &Vec<u8>, i: usize) -> (b: [u8; 16])
    requires i + 16 <= data.len(),
    ensures b@ == data@.subrange(i as int, i + 16),
{
    let b = [
        data[i], data[i + 1], data[i + 2], data[i + 3], data[i + 4], data[i + 5], data[i + 6], data[i + 7],
        data[i + 8], data[i + 9], data[i + 10], data[i + 11], data[i + 12], data[i + 13], data[i + 14], data[i + 15],
    ];
    assert(b@ =~= data@.subrange(i as int, i + 16));
    b
}

/// Overwrites the 16 bytes of `data` from `i` on with `b`.
fn put_block(data: &mut Vec<u8>, i: usize, b: [u8; 16])
    requires i + 16 <= old(data).len(),
    ensures final(data)@ == old(data)@.take(i as int) + b@ + old(data)@.skip(i + 16),
{
    let mut j: usize = 0;
    while j < 16
        invariant
            j <= 16,
            i + 16 <= data.len(),
            data@.len() == old(data)@.len(),
            data@ == old(data)@.take(i as int) + b@.take(j as int) + old(data)@.skip(i + j),
        decreases 16 - j,
    {
        let ghost d0 = data@;
        data.set(i + j, b[j]);
        assert(data@ =~= d0.update(i + j, b[j as int]));
        assert(data@ =~= old(data)@.take(i as int) + b@.take(j + 1) + old(data)@.skip(i + j + 1));
        j = j + 1;
    }
    assert(b@.take(16) =~= b@);
}

/// Decrypt data that is aligned to aes256 block size
pub fn decrypt(key: &[u8; 32], data: &mut Vec<u8>)
    requires old(data).len() % 16 == 0,
    ensures
        final(data)@ == decrypt_bytes(key@, old(data)@),
        final(data)@.len() == old(data)@.len(),
{
    let ghost d0 = data@;
    let mut i: usize = 0;
    while i < data.len()
        invariant
            i % 16 == 0,
            i <= data.len(),
            data@.len() == d0.len(),
            d0.len() % 16 == 0,
            data@.take(i as int) == cipher_blocks(key@, d0, i as int, false),
            data@.skip(i as int) == d0.skip(i as int),
        decreases data.len() - i,
    {
        assert(i + 16 <= data.len());
        let block = take_block(data, i);
        assert(block@ =~= d0.subrange(i as int, i + 16)) by {
            assert(data@.skip(i as int).take(16) =~= block@);
            assert(d0.skip(i as int).take(16) =~= d0.subrange(i as int, i + 16));
        }
        let out = decrypt_block(key, block);
        let ghost before = data@;
        put_block(data, i, out);
        proof {
            assert(data@.take(i + 16) =~= before.take(i as int) + out@);
            assert(data@.skip(i + 16) =~= before.skip(i + 16));
            assert(before.skip(i + 16) =~= d0.skip(i + 16)) by {
                assert(before.skip(i + 16) =~= before.skip(i as int).skip(16));
                assert(d0.skip(i + 16) =~= d0.skip(i as int).skip(16));
            }
        }
        i = i + 16;
    }
    assert(data@.take(i as int) =~= data@);
}

/// Encrypt datat that is aligned to aes256 block size
pub fn encrypt(key: &[u8; 32], data: &mut Vec<u8>)
    requires old(data).len() % 16 == 0,
    ensures
        final(data)@ == encrypt_bytes(key@, old(data)@),
        final(data)@.len() == old(data)@.len(),
        decrypt_bytes(key@, final(data)@) == old(data)@,
{
    let ghost d0 = data@;
    let mut i: usize = 0;
    while i < data.len()
        invariant
            i % 16 == 0,
            i <= data.len(),
            data@.len() == d0.len(),
            d0.len() % 16 == 0,
            data@.take(i as int) == cipher_blocks(key@, d0, i as int, true),
            data@.skip(i as int) == d0.skip(i as int),
            cipher_blocks(key@, data@, i as int, false) == d0.take(i as int),
        decreases data.len() - i,
    {
        assert(i + 16 <= data.len());
        let block = take_block(data, i);
        assert(block@ =~= d0.subrange(i as int, i + 16)) by {
            assert(data@.skip(i as int).take(16) =~= block@);
            assert(d0.skip(i as int).take(16) =~= d0.subrange(i as int, i + 16));
        }
        let out = encrypt_block(key, block);
        let ghost before = data@;
        put_block(data, i, out);
        proof {
            assert(data@.take(i + 16) =~= before.take(i as int) + out@);
            assert(data@.skip(i + 16) =~= before.skip(i + 16));
            assert(before.skip(i + 16) =~= d0.skip(i + 16)) by {
                assert(before.skip(i + 16) =~= before.skip(i as int).skip(16));
                assert(d0.skip(i + 16) =~= d0.skip(i as int).skip(16));
            }
            assert(data@.take(i as int) =~= before.take(i as int));
            lemma_cipher_blocks_prefix(key@, before, data@, i as int, false);
            assert(data@.subrange(i as int, i + 16) =~= out@);
            assert(d0.take(i + 16) =~= d0.take(i as int) + block@);
        }
        i = i + 16;
    }
    assert(data@.take(i as int) =~= data@);
    assert(d0.take(i as int) =~= d0);
}

/// The blocks before `end` depend only on the bytes before `end`.
proof fn lemma_cipher_blocks_prefix(key: Seq<u8>, a: Seq<u8>, b: Seq<u8>, end: int, encrypt: bool)
    requires
        0 <= end <= a.len(),
        end <= b.len(),
        end % 16 == 0,
        a.take(end) == b.take(end),
    ensures cipher_blocks(key, a, end, encrypt) == cipher_blocks(key, b, end, encrypt),
    decreases end,
{
    if end >= 16 {
        assert(a.take(end - 16) =~= b.take(end - 16)) by {
            assert(a.take(end - 16) =~= a.take(end).take(end - 16));
            assert(b.take(end - 16) =~= b.take(end).take(end - 16));
        }
        assert(a.subrange(end - 16, end) =~= b.subrange(end - 16, end)) by {
            assert(a.subrange(end - 16, end) =~= a.take(end).subrange(end - 16, end));
            assert(b.subrange(end - 16, end) =~= b.take(end).subrange(end - 16, end));
        }
        lemma_cipher_blocks_prefix(key, a, b, end - 16, encrypt);
    }
}

} // verus!
