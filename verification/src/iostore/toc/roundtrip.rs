//! Reading back a written .utoc resource.

use vstd::prelude::*;
use vstd::utf8::*;
use crate::archive::{Record, record_parser, record_writer, parse_repeat, ser_repeat, rest, lemma_repeat_roundtrip,
    fstring_keeps, lemma_ser_values, parse_i32, ser_i32, ser_u32};
use crate::bytes::zeros;
use crate::iostore::encryption::decrypt_bytes;
use crate::iostore::flags::EIoContainerFlags;
use super::{EIoStoreTocVersion, IoOffsetAndLength, IoStoreTocCompressedBlockEntry, IoStoreTocEntryMeta};
use super::chunk::IoChunkId;
use super::header::IoStoreTocHeader;
use super::index::{IoStoreDirectoryIndex, DirectoryIndexView};
use super::resource::{TocResourceView, written_header, at_least, before_nul, parse_method_name, ser_method_name,
    parse_hash_tables, parse_compression_tables, parse_front, parse_directory, parse_signatures, directory_bytes,
    pad_repeat, has_flag, method_name_parser, method_name_writer, ser_tables, IoStoreTocResource, TocFrontView};

verus! {

/// Whether a compression method name reads back from its stored bytes: its UTF-8 bytes fit
/// the stored length and hold no zero byte.
pub open spec fn name_keeps(t: Seq<char>, len: u32) -> bool {
    &&& encode_utf8(t).len() <= len
    &&& forall|j: int| 0 <= j < encode_utf8(t).len() ==> #[trigger] encode_utf8(t)[j] != 0
}

/// Whether a directory index reads back from its encoding: strings without trailing NUL that
/// fit the length prefix, lists that fit an `i32` count, and an encoding whose padded length
/// fits the `u32` size field.
pub open spec fn directory_keeps(d: DirectoryIndexView) -> bool {
    &&& (d.mount_point matches Some(t) ==> fstring_keeps(t))
    &&& forall|j: int| 0 <= j < d.string_table.len() ==> (#[trigger] d.string_table[j] matches Some(t) ==> fstring_keeps(t))
    &&& d.directory_entries.len() <= 0x7fff_ffff
    &&& d.file_entries.len() <= 0x7fff_ffff
    &&& d.string_table.len() <= 0x7fff_ffff
    &&& IoStoreDirectoryIndex::spec_ser(d).len() + 16 < 0x1_0000_0000
}

/// Whether a resource reads back from what the writer stores with `key`: a header of the
/// standard size with partitions, one offset and one meta per chunk id, tables whose sizes
/// fit the header's counts and that the header's version stores, values that fit their
/// encodings, names that fit their stored length, and a directory index only with a key.
pub open spec fn resource_keeps(v: TocResourceView, key: Option<Seq<u8>>) -> bool {
    &&& v.header.header_size == 144
    &&& v.header.version.spec_value() >= EIoStoreTocVersion::PartitionSize.spec_value()
    &&& v.chunk_ids.len() <= u32::MAX
    &&& v.chunk_offsets_lengths.len() == v.chunk_ids.len()
    &&& v.chunk_metas.len() == v.chunk_ids.len()
    &&& v.chunk_perfect_hash_seeds.len() <= u32::MAX
    &&& (at_least(v.header, EIoStoreTocVersion::PerfectHash) || v.chunk_perfect_hash_seeds.len() == 0)
    &&& v.chunks_without_perfect_hash.len() <= u32::MAX
    &&& (at_least(v.header, EIoStoreTocVersion::PerfectHashWithOverflow) || v.chunks_without_perfect_hash.len() == 0)
    &&& v.compression_blocks.len() <= u32::MAX
    &&& v.compression_methods.len() <= u32::MAX
    &&& forall|i: int| 0 <= i < v.chunk_offsets_lengths.len() ==>
        (#[trigger] v.chunk_offsets_lengths[i]).offset < 0x100_0000_0000 && v.chunk_offsets_lengths[i].length < 0x100_0000_0000
    &&& forall|i: int| 0 <= i < v.compression_blocks.len() ==>
        (#[trigger] v.compression_blocks[i]).offset < 0x1_0000_0000
            && v.compression_blocks[i].compressed_size < 0x100_0000
            && v.compression_blocks[i].decompressed_size < 0x100_0000
    &&& forall|i: int| 0 <= i < v.compression_methods.len() ==>
        name_keeps(#[trigger] v.compression_methods[i], v.header.compression_method_name_length)
    &&& forall|i: int| 0 <= i < v.chunk_metas.len() ==> (#[trigger] v.chunk_metas[i]).0.len() == 32
    &&& match v.directory_index {
        Some(d) => key is Some && directory_keeps(d),
        None => true,
    }
}

/// What the writer guarantees of the bytes of an encrypted directory index: they decrypt
/// to the padded encoding of the index, and have its length.
pub open spec fn writer_directory_facts(v: TocResourceView, key: Option<Seq<u8>>) -> bool {
    match (v.directory_index, key) {
        (Some(d), Some(k)) => {
            &&& decrypt_bytes(k, directory_bytes(v.directory_index, key)) == pad_repeat(IoStoreDirectoryIndex::spec_ser(d))
            &&& directory_bytes(v.directory_index, key).len() == pad_repeat(IoStoreDirectoryIndex::spec_ser(d)).len()
        },
        _ => true,
    }
}

/// What reading back a written resource gives: the resource with the header the writer
/// stores.
pub open spec fn read_back(v: TocResourceView, key: Option<Seq<u8>>) -> TocResourceView {
    TocResourceView { header: written_header(v, key), ..v }
}

/// The bytes of `d` before its first zero byte are `a` when `d` is `a`, holding no zero
/// byte, followed by zero bytes.
proof fn lemma_before_nul(a: Seq<u8>, n: nat)
    requires forall|j: int| 0 <= j < a.len() ==> #[trigger] a[j] != 0,
    ensures before_nul(a + zeros(n)) == a,
    decreases a.len(),
{
    if a.len() == 0 {
        if n > 0 {
            assert((a + zeros(n))[0] == 0);
        }
        assert(before_nul(a + zeros(n)) =~= a);
    } else {
        let t = a.drop_first();
        assert forall|j: int| 0 <= j < t.len() implies #[trigger] t[j] != 0 by {
            assert(t[j] == a[j + 1]);
        }
        lemma_before_nul(t, n);
        assert((a + zeros(n)).drop_first() =~= t + zeros(n));
        assert(seq![a[0]] + t =~= a);
    }
}

/// A compression method name reads back from its stored bytes.
proof fn lemma_method_name(t: Seq<char>, len: u32, r: Seq<u8>)
    requires name_keeps(t, len),
    ensures parse_method_name(ser_method_name(t, len) + r, len) == Some((t, len as int)),
{
    let e = encode_utf8(t);
    let b = ser_method_name(t, len);
    assert(b =~= e + zeros((len - e.len()) as nat));
    assert((b + r).take(len as int) =~= b);
    lemma_before_nul(e, (len - e.len()) as nat);
    encode_utf8_valid_utf8(t);
    encode_utf8_decode_utf8(t);
}

/// The bits of the written container flags.
proof fn lemma_written_flags(b: u8)
    ensures
        (b & !4u8 & !2u8) & 4u8 != 4u8,
        (b & !4u8 & !2u8 | 8u8) & 4u8 != 4u8,
        (b & !4u8 & !2u8 | 8u8) & 8u8 == 8u8,
        (b & !4u8 & !2u8 | 8u8 | 2u8) & 4u8 != 4u8,
        (b & !4u8 & !2u8 | 8u8 | 2u8) & 8u8 == 8u8,
        (b & !4u8 & !2u8 | 8u8 | 2u8) & 2u8 == 2u8,
{
    assert((b & !4u8 & !2u8) & 4u8 != 4u8) by (bit_vector);
    assert((b & !4u8 & !2u8 | 8u8) & 4u8 != 4u8) by (bit_vector);
    assert((b & !4u8 & !2u8 | 8u8) & 8u8 == 8u8) by (bit_vector);
    assert((b & !4u8 & !2u8 | 8u8 | 2u8) & 4u8 != 4u8) by (bit_vector);
    assert((b & !4u8 & !2u8 | 8u8 | 2u8) & 8u8 == 8u8) by (bit_vector);
    assert((b & !4u8 & !2u8 | 8u8 | 2u8) & 2u8 == 2u8) by (bit_vector);
}

/// The hash tables read back.
#[verifier::spinoff_prover]
#[verifier::rlimit(60)]
proof fn lemma_hash_tables(v: TocResourceView, h: IoStoreTocHeader, tail: Seq<u8>)
    requires
        h.entry_count == v.chunk_ids.len(),
        v.chunk_offsets_lengths.len() == v.chunk_ids.len(),
        h.version == v.header.version,
        h.chunk_perfect_hash_seeds_count == v.chunk_perfect_hash_seeds.len(),
        h.chunks_without_perfect_hash_count == v.chunks_without_perfect_hash.len(),
        at_least(h, EIoStoreTocVersion::PerfectHash) || v.chunk_perfect_hash_seeds.len() == 0,
        at_least(h, EIoStoreTocVersion::PerfectHashWithOverflow) || v.chunks_without_perfect_hash.len() == 0,
        forall|i: int| 0 <= i < v.chunk_offsets_lengths.len() ==>
            (#[trigger] v.chunk_offsets_lengths[i]).offset < 0x100_0000_0000 && v.chunk_offsets_lengths[i].length < 0x100_0000_0000,
    ensures ({
        let a = ser_repeat(v.chunk_ids, record_writer::<IoChunkId>());
        let b = ser_repeat(v.chunk_offsets_lengths, record_writer::<IoOffsetAndLength>());
        let c = if at_least(h, EIoStoreTocVersion::PerfectHash) { ser_repeat(v.chunk_perfect_hash_seeds, record_writer::<i32>()) } else { Seq::empty() };
        let d = if at_least(h, EIoStoreTocVersion::PerfectHashWithOverflow) { ser_repeat(v.chunks_without_perfect_hash, record_writer::<u32>()) } else { Seq::empty() };
        parse_hash_tables(a + b + c + d + tail, h)
            == Some(((v.chunk_ids, v.chunk_offsets_lengths, v.chunk_perfect_hash_seeds, v.chunks_without_perfect_hash),
                (a.len() + b.len() + c.len() + d.len()) as int))
    }),
{
    reveal(parse_hash_tables);
    let a = ser_repeat(v.chunk_ids, record_writer::<IoChunkId>());
    let b = ser_repeat(v.chunk_offsets_lengths, record_writer::<IoOffsetAndLength>());
    let c = if at_least(h, EIoStoreTocVersion::PerfectHash) { ser_repeat(v.chunk_perfect_hash_seeds, record_writer::<i32>()) } else { Seq::empty() };
    let d = if at_least(h, EIoStoreTocVersion::PerfectHashWithOverflow) { ser_repeat(v.chunks_without_perfect_hash, record_writer::<u32>()) } else { Seq::empty() };
    let s = a + b + c + d + tail;
    assert(s =~= a + (b + (c + (d + tail))));
    assert forall|i: int, r: Seq<u8>| 0 <= i < v.chunk_ids.len() implies
        #[trigger] record_parser::<IoChunkId>()(record_writer::<IoChunkId>()(v.chunk_ids[i]) + r)
            == Some((v.chunk_ids[i], record_writer::<IoChunkId>()(v.chunk_ids[i]).len() as int)) by {
        v.chunk_ids[i].lemma_roundtrip(r);
    }
    lemma_repeat_roundtrip(v.chunk_ids, record_parser::<IoChunkId>(), record_writer::<IoChunkId>(), b + (c + (d + tail)));
    assert(rest(s, a.len() as int) =~= b + (c + (d + tail)));
    assert forall|i: int, r: Seq<u8>| 0 <= i < v.chunk_offsets_lengths.len() implies
        #[trigger] record_parser::<IoOffsetAndLength>()(record_writer::<IoOffsetAndLength>()(v.chunk_offsets_lengths[i]) + r)
            == Some((v.chunk_offsets_lengths[i], record_writer::<IoOffsetAndLength>()(v.chunk_offsets_lengths[i]).len() as int)) by {
        v.chunk_offsets_lengths[i].lemma_roundtrip(r);
    }
    lemma_repeat_roundtrip(v.chunk_offsets_lengths, record_parser::<IoOffsetAndLength>(), record_writer::<IoOffsetAndLength>(), c + (d + tail));
    assert(rest(s, (a.len() + b.len()) as int) =~= c + (d + tail));
    if at_least(h, EIoStoreTocVersion::PerfectHash) {
        assert forall|i: int, r: Seq<u8>| 0 <= i < v.chunk_perfect_hash_seeds.len() implies
            #[trigger] record_parser::<i32>()(record_writer::<i32>()(v.chunk_perfect_hash_seeds[i]) + r)
                == Some((v.chunk_perfect_hash_seeds[i], record_writer::<i32>()(v.chunk_perfect_hash_seeds[i]).len() as int)) by {
            crate::archive::lemma_parse_ints(0, 0, 0, v.chunk_perfect_hash_seeds[i], 0, r);
            lemma_ser_values(0, 0, 0, v.chunk_perfect_hash_seeds[i], 0);
        }
        lemma_repeat_roundtrip(v.chunk_perfect_hash_seeds, record_parser::<i32>(), record_writer::<i32>(), d + tail);
    } else {
        assert(v.chunk_perfect_hash_seeds =~= Seq::<i32>::empty());
    }
    assert(rest(s, (a.len() + b.len() + c.len()) as int) =~= d + tail);
    if at_least(h, EIoStoreTocVersion::PerfectHashWithOverflow) {
        assert forall|i: int, r: Seq<u8>| 0 <= i < v.chunks_without_perfect_hash.len() implies
            #[trigger] record_parser::<u32>()(record_writer::<u32>()(v.chunks_without_perfect_hash[i]) + r)
                == Some((v.chunks_without_perfect_hash[i], record_writer::<u32>()(v.chunks_without_perfect_hash[i]).len() as int)) by {
            crate::archive::lemma_parse_ints(0, v.chunks_without_perfect_hash[i], 0, 0, 0, r);
            lemma_ser_values(0, v.chunks_without_perfect_hash[i], 0, 0, 0);
        }
        lemma_repeat_roundtrip(v.chunks_without_perfect_hash, record_parser::<u32>(), record_writer::<u32>(), tail);
    } else {
        assert(v.chunks_without_perfect_hash =~= Seq::<u32>::empty());
    }
}

/// The compression tables read back, with no signature block after them.
#[verifier::spinoff_prover]
#[verifier::rlimit(60)]
proof fn lemma_compression_tables(v: TocResourceView, h: IoStoreTocHeader, tail: Seq<u8>)
    requires
        h.compressed_block_entry_count == v.compression_blocks.len(),
        h.compression_method_name_count == v.compression_methods.len(),
        h.container_flags.bits & EIoContainerFlags::SIGNED != EIoContainerFlags::SIGNED,
        forall|i: int| 0 <= i < v.compression_blocks.len() ==>
            (#[trigger] v.compression_blocks[i]).offset < 0x1_0000_0000
                && v.compression_blocks[i].compressed_size < 0x100_0000
                && v.compression_blocks[i].decompressed_size < 0x100_0000,
        forall|i: int| 0 <= i < v.compression_methods.len() ==>
            name_keeps(#[trigger] v.compression_methods[i], h.compression_method_name_length),
    ensures ({
        let a = ser_repeat(v.compression_blocks, record_writer::<IoStoreTocCompressedBlockEntry>());
        let b = ser_repeat(v.compression_methods, method_name_writer(h.compression_method_name_length));
        parse_compression_tables(a + b + tail, h)
            == Some(((v.compression_blocks, v.compression_methods), (a.len() + b.len()) as int))
    }),
{
    reveal(parse_compression_tables);
    let len = h.compression_method_name_length;
    let a = ser_repeat(v.compression_blocks, record_writer::<IoStoreTocCompressedBlockEntry>());
    let b = ser_repeat(v.compression_methods, method_name_writer(len));
    let s = a + b + tail;
    assert(s =~= a + (b + tail));
    assert forall|i: int, r: Seq<u8>| 0 <= i < v.compression_blocks.len() implies
        #[trigger] record_parser::<IoStoreTocCompressedBlockEntry>()(record_writer::<IoStoreTocCompressedBlockEntry>()(v.compression_blocks[i]) + r)
            == Some((v.compression_blocks[i], record_writer::<IoStoreTocCompressedBlockEntry>()(v.compression_blocks[i]).len() as int)) by {
        v.compression_blocks[i].lemma_roundtrip(r);
    }
    lemma_repeat_roundtrip(v.compression_blocks, record_parser::<IoStoreTocCompressedBlockEntry>(),
        record_writer::<IoStoreTocCompressedBlockEntry>(), b + tail);
    assert(rest(s, a.len() as int) =~= b + tail);
    assert forall|i: int, r: Seq<u8>| 0 <= i < v.compression_methods.len() implies
        #[trigger] method_name_parser(len)(method_name_writer(len)(v.compression_methods[i]) + r)
            == Some((v.compression_methods[i], method_name_writer(len)(v.compression_methods[i]).len() as int)) by {
        lemma_method_name(v.compression_methods[i], len, r);
    }
    lemma_repeat_roundtrip(v.compression_methods, method_name_parser(len), method_name_writer(len), tail);
    assert(rest(s, (a.len() + b.len()) as int) =~= tail);
}

/// Repeating bytes up to a multiple of 16 starts with the bytes and ends at a nonzero
/// multiple of 16.
proof fn lemma_pad_repeat(b: Seq<u8>)
    requires b.len() > 0,
    ensures
        pad_repeat(b).len() % 16 == 0,
        pad_repeat(b).len() >= b.len(),
        pad_repeat(b).len() < b.len() + 16,
        pad_repeat(b).take(b.len() as int) == b,
{
    let n = b.len() as int;
    let m = ((n + 15) / 16) * 16;
    assert(m % 16 == 0 && m >= n && m < n + 16) by (nonlinear_arith)
        requires m == ((n + 15) / 16) * 16, n > 0;
    assert forall|i: int| 0 <= i < n implies #[trigger] pad_repeat(b)[i] == b[i] by {
        vstd::arithmetic::div_mod::lemma_small_mod(i as nat, n as nat);
    }
    assert(pad_repeat(b).take(n) =~= b);
}

/// The directory index reads back from what the writer stores.
#[verifier::spinoff_prover]
#[verifier::rlimit(40)]
proof fn lemma_directory(v: TocResourceView, key: Option<Seq<u8>>, h: IoStoreTocHeader, tail: Seq<u8>)
    requires
        h == written_header(v, key),
        writer_directory_facts(v, key),
        match v.directory_index {
            Some(d) => key is Some && directory_keeps(d),
            None => true,
        },
    ensures
        parse_directory(directory_bytes(v.directory_index, key) + tail, h, key)
            == Some((v.directory_index, directory_bytes(v.directory_index, key).len() as int)),
{
    let db = directory_bytes(v.directory_index, key);
    match v.directory_index {
        None => {
            assert(db =~= Seq::<u8>::empty());
        },
        Some(d) => {
            let k = key->0;
            let ser = IoStoreDirectoryIndex::spec_ser(d);
            lemma_written_flags(v.header.container_flags.bits);
            let fm = ser_i32(0);
            lemma_ser_values(0, 0, 0, 0, 0);
            assert(ser.len() >= 4) by {
                crate::archive::lemma_ser_values(0, 0, 0, d.directory_entries.len() as i32, 0);
            }
            lemma_pad_repeat(ser);
            let p = pad_repeat(ser);
            assert(db.len() == p.len());
            assert(h.directory_index_size == db.len());
            assert((db + tail).take(db.len() as int) =~= db);
            IoStoreDirectoryIndex::lemma_roundtrip(d, p.skip(ser.len() as int));
            assert(ser + p.skip(ser.len() as int) =~= p);
        },
    }
}

/// A chunk meta reads back from its encoding.
proof fn lemma_meta(m: (Seq<u8>, u8), r: Seq<u8>)
    requires m.0.len() == 32,
    ensures
        <IoStoreTocEntryMeta as Record>::parse_model(<IoStoreTocEntryMeta as Record>::ser_model(m) + r)
            == Some((m, <IoStoreTocEntryMeta as Record>::ser_model(m).len() as int)),
{
    let b = <IoStoreTocEntryMeta as Record>::ser_model(m) + r;
    assert(b.take(32) =~= m.0);
    assert(b[32] == m.1);
}

/// The front of the .utoc reads back: the written header and the tables after it.
#[verifier::spinoff_prover]
#[verifier::rlimit(60)]
proof fn lemma_front(v: TocResourceView, key: Option<Seq<u8>>, x: Seq<u8>)
    requires resource_keeps(v, key),
    ensures ({
        let h = written_header(v, key);
        parse_front(h.spec_ser() + ser_tables(v, h) + x) == Some((TocFrontView {
            header: h,
            chunk_ids: v.chunk_ids,
            chunk_offsets_lengths: v.chunk_offsets_lengths,
            chunk_perfect_hash_seeds: v.chunk_perfect_hash_seeds,
            chunks_without_perfect_hash: v.chunks_without_perfect_hash,
            compression_blocks: v.compression_blocks,
            compression_methods: v.compression_methods,
        }, (144 + ser_tables(v, h).len()) as int))
    }),
{
    reveal(parse_front);
    let h = written_header(v, key);
    let hs = h.spec_ser();
    let a = ser_repeat(v.chunk_ids, record_writer::<IoChunkId>());
    let b = ser_repeat(v.chunk_offsets_lengths, record_writer::<IoOffsetAndLength>());
    let c = if at_least(h, EIoStoreTocVersion::PerfectHash) { ser_repeat(v.chunk_perfect_hash_seeds, record_writer::<i32>()) } else { Seq::empty() };
    let d = if at_least(h, EIoStoreTocVersion::PerfectHashWithOverflow) { ser_repeat(v.chunks_without_perfect_hash, record_writer::<u32>()) } else { Seq::empty() };
    let e = ser_repeat(v.compression_blocks, record_writer::<IoStoreTocCompressedBlockEntry>());
    let f = ser_repeat(v.compression_methods, method_name_writer(h.compression_method_name_length));
    assert(ser_tables(v, h) == a + b + c + d + e + f);
    let s = hs + ser_tables(v, h) + x;
    h.lemma_roundtrip(rest(s, 144));
    assert(s =~= hs + rest(s, 144));
    let t1 = e + f + x;
    assert(rest(s, 144) =~= a + b + c + d + t1);
    lemma_hash_tables(v, h, t1);
    let k1 = (a.len() + b.len() + c.len() + d.len()) as int;
    assert(rest(s, 144 + k1) =~= e + f + x);
    lemma_written_flags(v.header.container_flags.bits);
    lemma_compression_tables(v, h, x);
}

/// Reading back what the writer stores with a key gives the resource with the header the
/// writer stores, when the resource fits its encoding.
#[verifier::spinoff_prover]
#[verifier::rlimit(60)]
pub proof fn lemma_resource_roundtrip(v: TocResourceView, key: Option<Seq<u8>>, tail: Seq<u8>)
    requires
        resource_keeps(v, key),
        writer_directory_facts(v, key),
    ensures
        IoStoreTocResource::spec_parse(IoStoreTocResource::spec_ser(v, key) + tail, key)
            == Some((read_back(v, key), IoStoreTocResource::spec_ser(v, key).len() as int)),
{
    let h = written_header(v, key);
    let hs = h.spec_ser();
    let tables = ser_tables(v, h);
    let db = directory_bytes(v.directory_index, key);
    let m = ser_repeat(v.chunk_metas, record_writer::<IoStoreTocEntryMeta>());
    let ser = IoStoreTocResource::spec_ser(v, key);
    assert(ser == hs + tables + db + m);
    let s = ser + tail;
    assert(s =~= hs + tables + (db + m + tail));
    lemma_front(v, key, db + m + tail);
    h.lemma_roundtrip(Seq::empty());
    let kf: int = (144 + tables.len()) as int;
    assert(rest(s, kf) =~= db + (m + tail));
    lemma_directory(v, key, h, m + tail);
    assert(rest(s, kf + db.len() as int) =~= m + tail);
    assert forall|i: int, r: Seq<u8>| 0 <= i < v.chunk_metas.len() implies
        #[trigger] record_parser::<IoStoreTocEntryMeta>()(record_writer::<IoStoreTocEntryMeta>()(v.chunk_metas[i]) + r)
            == Some((v.chunk_metas[i], record_writer::<IoStoreTocEntryMeta>()(v.chunk_metas[i]).len() as int)) by {
        lemma_meta(v.chunk_metas[i], r);
    }
    lemma_repeat_roundtrip(v.chunk_metas, record_parser::<IoStoreTocEntryMeta>(), record_writer::<IoStoreTocEntryMeta>(), tail);
    assert(read_back(v, key) == TocResourceView {
        header: h,
        chunk_ids: v.chunk_ids,
        chunk_offsets_lengths: v.chunk_offsets_lengths,
        chunk_perfect_hash_seeds: v.chunk_perfect_hash_seeds,
        chunks_without_perfect_hash: v.chunks_without_perfect_hash,
        compression_blocks: v.compression_blocks,
        compression_methods: v.compression_methods,
        directory_index: v.directory_index,
        chunk_metas: v.chunk_metas,
    });
}

} // verus!
