//! The .utoc resource: the header and the tables that follow it.

use vstd::prelude::*;
use vstd::utf8::*;
use crate::archive::{ByteReader, ByteWriter, Record, read_repeat, write_repeat, record_parser, record_writer,
    models, parse_repeat, ser_repeat, rest, parse_i32, lemma_advance, lemma_repeat_step, lemma_repeat_none};
use crate::bytes::zeros;
use crate::error::{Error, IoStoreError};
use crate::strings::string_from_utf8;
use crate::iostore::align::align;
use crate::iostore::encryption::{decrypt, encrypt, decrypt_bytes, encrypt_bytes, ENCRYPTION_ALIGN};
use crate::iostore::flags::EIoContainerFlags;
use super::{EIoStoreTocVersion, IoOffsetAndLength, IoStoreTocCompressedBlockEntry, IoStoreTocEntryMeta};
use super::chunk::IoChunkId;
use super::header::IoStoreTocHeader;
use super::index::{IoStoreDirectoryIndex, DirectoryIndexView};

verus! {

/// Whether all the bits of `flag` are set in the header's container flags.
pub open spec fn has_flag(h: IoStoreTocHeader, flag: u8) -> bool {
    h.container_flags.bits & flag == flag
}

/// Whether the header's version is `v` or later.
pub open spec fn at_least(h: IoStoreTocHeader, v: EIoStoreTocVersion) -> bool {
    h.version.spec_value() >= v.spec_value()
}

/// The number of perfect hash seeds stored after the header.
pub open spec fn seed_count(h: IoStoreTocHeader) -> nat {
    if at_least(h, EIoStoreTocVersion::PerfectHash) { h.chunk_perfect_hash_seeds_count as nat } else { 0 }
}

/// The number of chunks without a perfect hash stored after the header.
pub open spec fn overflow_count(h: IoStoreTocHeader) -> nat {
    if at_least(h, EIoStoreTocVersion::PerfectHashWithOverflow) { h.chunks_without_perfect_hash_count as nat } else { 0 }
}

/// The bytes of `d` before its first zero byte.
pub open spec fn before_nul(d: Seq<u8>) -> Seq<u8>
    decreases d.len(),
{
    if d.len() == 0 || d[0] == 0 { Seq::empty() } else { seq![d[0]] + before_nul(d.drop_first()) }
}

/// A compression method name: `len` bytes, cut at the first NUL, holding UTF-8 text.
pub open spec fn parse_method_name(s: Seq<u8>, len: u32) -> Option<(Seq<char>, int)> {
    if s.len() >= len {
        let t = before_nul(s.take(len as int));
        if valid_utf8(t) { Some((decode_utf8(t), len as int)) } else { None }
    } else {
        None
    }
}

/// The parser of compression method names of `len` bytes, as a function value.
pub open spec fn method_name_parser(len: u32) -> spec_fn(Seq<u8>) -> Option<(Seq<char>, int)> {
    |s: Seq<u8>| parse_method_name(s, len)
}

/// `b` cut or padded with zero bytes to `len` bytes.
pub open spec fn fit(b: Seq<u8>, len: nat) -> Seq<u8> {
    if b.len() >= len { b.take(len as int) } else { b + zeros((len - b.len()) as nat) }
}

/// The UTF-8 bytes of a name, cut or padded to `len` bytes.
pub open spec fn ser_method_name(t: Seq<char>, len: u32) -> Seq<u8> {
    fit(encode_utf8(t), len as nat)
}

/// The encoder of compression method names of `len` bytes, as a function value.
pub open spec fn method_name_writer(len: u32) -> spec_fn(Seq<char>) -> Seq<u8> {
    |t: Seq<char>| ser_method_name(t, len)
}

/// The number of bytes of the signature block: its size, the two signatures, the joined
/// signatures and one 20-byte hash per compressed block; none when the container is not signed.
pub open spec fn parse_signatures(s: Seq<u8>, h: IoStoreTocHeader) -> Option<int> {
    if !has_flag(h, EIoContainerFlags::SIGNED) {
        Some(0)
    } else {
        match parse_i32(s) {
            Some((hash_size, _)) => {
                let n = 4 + 4 * hash_size + 20 * h.compressed_block_entry_count;
                if hash_size >= 0 && s.len() >= n { Some(n) } else { None }
            },
            None => None,
        }
    }
}

/// Whether the directory index is stored and encrypted.
pub open spec fn needs_key(h: IoStoreTocHeader) -> bool {
    &&& has_flag(h, EIoContainerFlags::INDEXED)
    &&& h.directory_index_size > 0
    &&& has_flag(h, EIoContainerFlags::ENCRYPTED)
}

/// The directory index after the signatures: none unless the container is indexed with a
/// nonzero size; read in place, or, when encrypted, from `directory_index_size` bytes
/// decrypted with `key`.
pub open spec fn parse_directory(s: Seq<u8>, h: IoStoreTocHeader, key: Option<Seq<u8>>) -> Option<(Option<DirectoryIndexView>, int)> {
    if !(has_flag(h, EIoContainerFlags::INDEXED) && h.directory_index_size > 0) {
        Some((None, 0))
    } else if has_flag(h, EIoContainerFlags::ENCRYPTED) {
        match key {
            Some(k) => {
                let n = h.directory_index_size as int;
                if s.len() >= n && n % 16 == 0 {
                    match IoStoreDirectoryIndex::spec_parse(decrypt_bytes(k, s.take(n))) {
                        Some((d, _)) => Some((Some(d), n)),
                        None => None,
                    }
                } else {
                    None
                }
            },
            None => None,
        }
    } else {
        match IoStoreDirectoryIndex::spec_parse(s) {
            Some((d, k)) => Some((Some(d), k)),
            None => None,
        }
    }
}

/// What the .utoc holds before its directory index.
pub struct TocFrontView {
    /// Header
    pub header: IoStoreTocHeader,
    /// Chunk ids
    pub chunk_ids: Seq<IoChunkId>,
    /// Chunk offsets lengths
    pub chunk_offsets_lengths: Seq<IoOffsetAndLength>,
    /// Chunk perfect hash seeds
    pub chunk_perfect_hash_seeds: Seq<i32>,
    /// Chunks without perfect hashes
    pub chunks_without_perfect_hash: Seq<u32>,
    /// Compression blocks
    pub compression_blocks: Seq<IoStoreTocCompressedBlockEntry>,
    /// Compression method names
    pub compression_methods: Seq<Seq<char>>,
}

/// What a .utoc resource holds, with strings as character sequences and chunk metas as
/// their hash bytes and flags.
pub struct TocResourceView {
    /// Header
    pub header: IoStoreTocHeader,
    /// Chunk ids
    pub chunk_ids: Seq<IoChunkId>,
    /// Chunk offsets lengths
    pub chunk_offsets_lengths: Seq<IoOffsetAndLength>,
    /// Chunk perfect hash seeds
    pub chunk_perfect_hash_seeds: Seq<i32>,
    /// Chunks without perfect hashes
    pub chunks_without_perfect_hash: Seq<u32>,
    /// Compression blocks
    pub compression_blocks: Seq<IoStoreTocCompressedBlockEntry>,
    /// Compression method names
    pub compression_methods: Seq<Seq<char>>,
    /// Directory index
    pub directory_index: Option<DirectoryIndexView>,
    /// Chunk metas
    pub chunk_metas: Seq<(Seq<u8>, u8)>,
}

/// The tables after the header whose size depends on the header's counts: chunk ids,
/// offsets and lengths, perfect hash seeds and chunks without perfect hashes.
#[verifier::opaque]
pub open spec fn parse_hash_tables(s: Seq<u8>, h: IoStoreTocHeader)
    -> Option<((Seq<IoChunkId>, Seq<IoOffsetAndLength>, Seq<i32>, Seq<u32>), int)>
{
    match parse_repeat(s, h.entry_count as nat, record_parser::<IoChunkId>()) {
        Some((ids, k1)) => match parse_repeat(rest(s, k1), h.entry_count as nat, record_parser::<IoOffsetAndLength>()) {
            Some((ols, k2)) => match parse_repeat(rest(s, k1 + k2), seed_count(h), record_parser::<i32>()) {
                Some((seeds, k3)) => match parse_repeat(rest(s, k1 + k2 + k3), overflow_count(h), record_parser::<u32>()) {
                    Some((wo, k4)) => Some(((ids, ols, seeds, wo), k1 + k2 + k3 + k4)),
                    None => None,
                },
                None => None,
            },
            None => None,
        },
        None => None,
    }
}

/// The compression blocks, the compression method names and the signature block.
#[verifier::opaque]
pub open spec fn parse_compression_tables(s: Seq<u8>, h: IoStoreTocHeader)
    -> Option<((Seq<IoStoreTocCompressedBlockEntry>, Seq<Seq<char>>), int)>
{
    match parse_repeat(s, h.compressed_block_entry_count as nat, record_parser::<IoStoreTocCompressedBlockEntry>()) {
        Some((blocks, k1)) => match parse_repeat(
            rest(s, k1),
            h.compression_method_name_count as nat,
            method_name_parser(h.compression_method_name_length),
        ) {
            Some((methods, k2)) => match parse_signatures(rest(s, k1 + k2), h) {
                Some(k3) => Some(((blocks, methods), k1 + k2 + k3)),
                None => None,
            },
            None => None,
        },
        None => None,
    }
}

/// The tables of a .utoc from the header through the signatures, at the start of `s`.
#[verifier::opaque]
pub open spec fn parse_front(s: Seq<u8>) -> Option<(TocFrontView, int)> {
    match IoStoreTocHeader::spec_parse(s) {
        Some((h, k0)) => match parse_hash_tables(rest(s, k0), h) {
            Some((a, k1)) => match parse_compression_tables(rest(s, k0 + k1), h) {
                Some((b, k2)) => Some((TocFrontView {
                    header: h,
                    chunk_ids: a.0,
                    chunk_offsets_lengths: a.1,
                    chunk_perfect_hash_seeds: a.2,
                    chunks_without_perfect_hash: a.3,
                    compression_blocks: b.0,
                    compression_methods: b.1,
                }, k0 + k1 + k2)),
                None => None,
            },
            None => None,
        },
        None => None,
    }
}

/// The key as a byte sequence.
pub open spec fn key_bytes(key: Option<[u8; 32]>) -> Option<Seq<u8>> {
    match key {
        Some(k) => Some(k@),
        None => None,
    }
}

/// The bytes of `b` repeated from its start up to the next multiple of 16.
pub open spec fn pad_repeat(b: Seq<u8>) -> Seq<u8> {
    if b.len() == 0 { b } else { Seq::new((((b.len() + 15) / 16) * 16) as nat, |i: int| b[i % (b.len() as int)]) }
}

/// The bytes that stand for the directory index: none, its encoding, or its encoding
/// padded and encrypted with `key`.
pub open spec fn directory_bytes(d: Option<DirectoryIndexView>, key: Option<Seq<u8>>) -> Seq<u8> {
    match d {
        None => Seq::empty(),
        Some(v) => match key {
            None => IoStoreDirectoryIndex::spec_ser(v),
            Some(k) => encrypt_bytes(k, pad_repeat(IoStoreDirectoryIndex::spec_ser(v))),
        },
    }
}

/// IoStore .utoc resource
pub struct IoStoreTocResource {
    /// Header
    pub header: IoStoreTocHeader,
    /// Chunk ids
    pub chunk_ids: Vec<IoChunkId>,
    /// Chunk offsets lengths
    pub chunk_offsets_lengths: Vec<IoOffsetAndLength>,
    /// Chunk perfect hash seeds
    pub chunk_perfect_hash_seeds: Vec<i32>,
    /// Chunks without perfect hashes
    pub chunks_without_perfect_hash: Vec<u32>,
    /// Compression blocks
    pub compression_blocks: Vec<IoStoreTocCompressedBlockEntry>,
    /// Compression method names
    pub compression_methods: Vec<String>,
    /// Directory index
    pub directory_index: Option<IoStoreDirectoryIndex>,
    /// Chunk metas
    pub chunk_metas: Vec<IoStoreTocEntryMeta>,
}

/// The character sequences of strings.
pub open spec fn chars_of(v: Seq<String>) -> Seq<Seq<char>> {
    v.map_values(|t: String| t@)
}

impl IoStoreTocResource {
    /// What the resource holds.
    pub open spec fn view(&self) -> TocResourceView {
        TocResourceView {
            header: self.header,
            chunk_ids: self.chunk_ids@,
            chunk_offsets_lengths: self.chunk_offsets_lengths@,
            chunk_perfect_hash_seeds: self.chunk_perfect_hash_seeds@,
            chunks_without_perfect_hash: self.chunks_without_perfect_hash@,
            compression_blocks: self.compression_blocks@,
            compression_methods: chars_of(self.compression_methods@),
            directory_index: match self.directory_index {
                Some(d) => Some(d.view()),
                None => None,
            },
            chunk_metas: models(self.chunk_metas@),
        }
    }

    /// The resource at the start of `s`: the header and tables, then the directory index,
    /// then one meta per entry.
    pub open spec fn spec_parse(s: Seq<u8>, key: Option<Seq<u8>>) -> Option<(TocResourceView, int)> {
        match parse_front(s) {
            Some((f, k)) => match parse_directory(rest(s, k), f.header, key) {
                Some((d, i)) => match parse_repeat(rest(s, k + i), f.header.entry_count as nat, record_parser::<IoStoreTocEntryMeta>()) {
                    Some((metas, j)) => Some((TocResourceView {
                        header: f.header,
                        chunk_ids: f.chunk_ids,
                        chunk_offsets_lengths: f.chunk_offsets_lengths,
                        chunk_perfect_hash_seeds: f.chunk_perfect_hash_seeds,
                        chunks_without_perfect_hash: f.chunks_without_perfect_hash,
                        compression_blocks: f.compression_blocks,
                        compression_methods: f.compression_methods,
                        directory_index: d,
                        chunk_metas: metas,
                    }, k + i + j)),
                    None => None,
                },
                None => None,
            },
            None => None,
        }
    }
}

/// After reads of `a` and then `b` bytes, what is left is `s` without its first `a + b` bytes.
pub proof fn lemma_rest_rest(s: Seq<u8>, a: int, b: int)
    requires 0 <= a <= s.len(), 0 <= b <= s.len() - a,
    ensures rest(rest(s, a), b) == rest(s, a + b),
{
    assert(rest(rest(s, a), b) =~= rest(s, a + b));
}

/// A parse result that takes no more than `len` bytes.
pub open spec fn within<T>(r: Option<(T, int)>, len: int) -> bool {
    match r {
        Some((_, m)) => 0 <= m <= len,
        None => true,
    }
}

/// An FString takes no more bytes than there are.
pub proof fn lemma_fstring_len(s: Seq<u8>)
    ensures within(crate::archive::parse_fstring(s), s.len() as int),
{
}

/// Values read one after the other take no more bytes than there are, when each one does.
pub proof fn lemma_repeat_len<T>(s: Seq<u8>, n: nat, f: spec_fn(Seq<u8>) -> Option<(T, int)>)
    requires forall|t: Seq<u8>| within(#[trigger] f(t), t.len() as int),
    ensures within(parse_repeat(s, n, f), s.len() as int),
    decreases n,
{
    if n > 0 {
        lemma_repeat_len(s, (n - 1) as nat, f);
        if let Some((v, k)) = parse_repeat(s, (n - 1) as nat, f) {
            let t = rest(s, k);
            assert(within(f(t), t.len() as int));
        }
    }
}

/// A counted list takes no more bytes than there are, when each value does.
pub proof fn lemma_counted_len<T>(s: Seq<u8>, f: spec_fn(Seq<u8>) -> Option<(T, int)>)
    requires forall|t: Seq<u8>| within(#[trigger] f(t), t.len() as int),
    ensures within(super::index::parse_counted(s, f), s.len() as int),
{
    if let Some((n, _)) = parse_i32(s) {
        if n >= 0 {
            lemma_repeat_len(rest(s, 4), n as nat, f);
        }
    }
}

/// A directory index takes no more bytes than there are.
pub proof fn lemma_directory_len(s: Seq<u8>)
    ensures within(IoStoreDirectoryIndex::spec_parse(s), s.len() as int),
{
    assert forall|t: Seq<u8>| within(#[trigger] super::index::dir_entry_parser()(t), t.len() as int) by {}
    assert forall|t: Seq<u8>| within(#[trigger] super::index::file_entry_parser()(t), t.len() as int) by {}
    assert forall|t: Seq<u8>| within(#[trigger] super::index::fstring_parser()(t), t.len() as int) by {
        lemma_fstring_len(t);
    }
    lemma_fstring_len(s);
    if let Some((mp, k1)) = crate::archive::parse_fstring(s) {
        let s1 = rest(s, k1);
        lemma_counted_len(s1, super::index::dir_entry_parser());
        if let Some((dirs, k2)) = super::index::parse_counted(s1, super::index::dir_entry_parser()) {
            let s2 = rest(s, k1 + k2);
            lemma_counted_len(s2, super::index::file_entry_parser());
            if let Some((files, k3)) = super::index::parse_counted(s2, super::index::file_entry_parser()) {
                let s3 = rest(s, k1 + k2 + k3);
                lemma_counted_len(s3, super::index::fstring_parser());
            }
        }
    }
}

/// The bytes of `d` before its first zero byte.
fn cut_at_nul(d: Vec<u8>) -> (r: Vec<u8>)
    ensures r@ == before_nul(d@),
{
    let mut r: Vec<u8> = Vec::new();
    let mut i: usize = 0;
    assert(d@.skip(0) =~= d@);
    assert(r@ + before_nul(d@) =~= before_nul(d@));
    while i < d.len() && d[i] != 0
        invariant
            i <= d.len(),
            forall|j: int| 0 <= j < i ==> d@[j] != 0,
            before_nul(d@) == r@ + before_nul(d@.skip(i as int)),
        decreases d.len() - i,
    {
        let ghost t = d@.skip(i as int);
        assert(t.drop_first() =~= d@.skip(i + 1));
        r.push(d[i]);
        i = i + 1;
    }
    assert(before_nul(d@.skip(i as int)) =~= Seq::<u8>::empty());
    r
}

/// Reads `n` compression method names of `len` bytes each.
fn read_method_names(reader: &mut ByteReader, n: u32, len: u32) -> (res: Result<Vec<String>, Error>)
    ensures
        final(reader).data@ == old(reader).data@,
        match res {
            Ok(v) => parse_repeat(old(reader).remaining(), n as nat, method_name_parser(len))
                == Some((chars_of(v@), final(reader).pos - old(reader).pos))
                && old(reader).pos <= final(reader).pos
                && final(reader).pos - old(reader).pos <= old(reader).remaining().len(),
            Err(_) => parse_repeat(old(reader).remaining(), n as nat, method_name_parser(len)) is None,
        },
{
    let ghost s = old(reader).remaining();
    let ghost p0 = reader.pos;
    let mut v: Vec<String> = Vec::new();
    let mut i: u32 = 0;
    proof {
        assert(chars_of(v@) =~= Seq::<Seq<char>>::empty());
        assert(reader.remaining() =~= rest(s, 0));
    }
    while i < n
        invariant
            reader.data@ == old(reader).data@,
            i <= n,
            p0 == old(reader).pos,
            s == old(reader).remaining(),
            p0 <= reader.pos,
            reader.pos - p0 <= s.len(),
            parse_repeat(s, i as nat, method_name_parser(len)) == Some((chars_of(v@), reader.pos - p0)),
            reader.remaining() == rest(s, reader.pos - p0),
        decreases n - i,
    {
        let ghost r0 = *reader;
        let ghost k = reader.pos - p0;
        proof {
            lemma_repeat_step(s, (i + 1) as nat, method_name_parser(len));
            assert((i + 1) as nat - 1 == i as nat);
        }
        let data = match reader.read_bytes(len as usize) {
            Ok(d) => d,
            Err(e) => {
                proof { lemma_repeat_none(s, (i + 1) as nat, n as nat, method_name_parser(len)); }
                return Err(e);
            },
        };
        let cut = cut_at_nul(data);
        let name = match string_from_utf8(cut) {
            Some(t) => t,
            None => {
                proof { lemma_repeat_none(s, (i + 1) as nat, n as nat, method_name_parser(len)); }
                return Err(Error::Utf8);
            },
        };
        proof {
            lemma_advance(r0, *reader);
            lemma_rest_rest(s, k, reader.pos - r0.pos);
        }
        let ghost before = v@;
        v.push(name);
        proof { assert(chars_of(v@) =~= chars_of(before).push(name@)); }
        i = i + 1;
    }
    Ok(v)
}

/// Reads past the signature block of a signed container.
fn skip_signatures(reader: &mut ByteReader, h: &IoStoreTocHeader) -> (res: Result<(), Error>)
    ensures
        final(reader).data@ == old(reader).data@,
        match res {
            Ok(_) => parse_signatures(old(reader).remaining(), *h) == Some(final(reader).pos - old(reader).pos)
                && old(reader).pos <= final(reader).pos
                && final(reader).pos - old(reader).pos <= old(reader).remaining().len(),
            Err(_) => parse_signatures(old(reader).remaining(), *h) is None,
        },
{
    if h.container_flags.bits & EIoContainerFlags::SIGNED != EIoContainerFlags::SIGNED {
        return Ok(());
    }
    let ghost s = old(reader).remaining();
    let hash_size = reader.read_i32()?;
    if hash_size < 0 {
        return Err(Error::invalid_file(String::from_str("negative signature size")));
    }
    let hs = hash_size as u64;
    let skip = 4 * hs + 20 * (h.compressed_block_entry_count as u64);
    let left = reader.remaining_len();
    if skip > left as u64 {
        return Err(Error::eof());
    }
    let sk = skip as usize;
    assert(sk == skip);
    if sk > 0 {
        assert(reader.pos + sk <= reader.data.len());
        reader.pos = reader.pos + sk;
    }
    Ok(())
}

/// Reads the directory index, when the header says there is one.
fn read_directory(reader: &mut ByteReader, h: &IoStoreTocHeader, key: Option<[u8; 32]>)
    -> (res: Result<Option<IoStoreDirectoryIndex>, Error>)
    ensures
        final(reader).data@ == old(reader).data@,
        match res {
            Ok(d) => parse_directory(old(reader).remaining(), *h, key_bytes(key))
                == Some((match d { Some(x) => Some(x.view()), None => None }, final(reader).pos - old(reader).pos))
                && old(reader).pos <= final(reader).pos
                && final(reader).pos - old(reader).pos <= old(reader).remaining().len(),
            Err(_) => parse_directory(old(reader).remaining(), *h, key_bytes(key)) is None,
        },
        needs_key(*h) && key is None ==> res matches Err(Error::IoStore(IoStoreError::NoEncryptionKey)),
{
    if !(h.container_flags.bits & EIoContainerFlags::INDEXED == EIoContainerFlags::INDEXED && h.directory_index_size > 0) {
        return Ok(None);
    }
    if h.container_flags.bits & EIoContainerFlags::ENCRYPTED == EIoContainerFlags::ENCRYPTED {
        let k = match key {
            Some(k) => k,
            None => { return Err(Error::IoStore(IoStoreError::NoEncryptionKey)); },
        };
        let n = h.directory_index_size as usize;
        if n % 16 != 0 {
            return Err(Error::invalid_file(String::from_str("directory index size is not a multiple of the AES block size")));
        }
        let mut buf = reader.read_bytes(n)?;
        decrypt(&k, &mut buf);
        let mut inner = ByteReader::new(buf);
        assert(inner.remaining() =~= inner.data@);
        let d = IoStoreDirectoryIndex::read(&mut inner)?;
        Ok(Some(d))
    } else {
        let d = IoStoreDirectoryIndex::read(reader)?;
        proof { lemma_directory_len(old(reader).remaining()); }
        Ok(Some(d))
    }
}


/// Reads the chunk ids, offsets and lengths, perfect hash seeds and chunks without
/// perfect hashes.
#[verifier::spinoff_prover]
#[verifier::rlimit(40)]
fn read_hash_tables(reader: &mut ByteReader, header: &IoStoreTocHeader)
    -> (res: Result<(Vec<IoChunkId>, Vec<IoOffsetAndLength>, Vec<i32>, Vec<u32>), Error>)
    ensures
        final(reader).data@ == old(reader).data@,
        match res {
            Ok((ids, ols, seeds, wo)) => parse_hash_tables(old(reader).remaining(), *header)
                == Some(((ids@, ols@, seeds@, wo@), final(reader).pos - old(reader).pos))
                && old(reader).pos <= final(reader).pos
                && final(reader).pos - old(reader).pos <= old(reader).remaining().len(),
            Err(_) => parse_hash_tables(old(reader).remaining(), *header) is None,
        },
{
    reveal(parse_hash_tables);
    let ghost s = old(reader).remaining();
    let ghost p0 = reader.pos;

    let chunk_ids = read_repeat::<IoChunkId>(reader, header.entry_count)?;
    proof {
        lemma_advance(*old(reader), *reader);
        assert(models(chunk_ids@) =~= chunk_ids@);
    }
    let ghost k1 = reader.pos - p0;

    let ghost r2 = *reader;
    let chunk_offsets_lengths = read_repeat::<IoOffsetAndLength>(reader, header.entry_count)?;
    proof {
        lemma_advance(r2, *reader);
        lemma_rest_rest(s, k1, reader.pos - r2.pos);
        assert(models(chunk_offsets_lengths@) =~= chunk_offsets_lengths@);
    }
    let ghost k2 = reader.pos - r2.pos;

    let n3: u32 = if header.version.value() >= 4 { header.chunk_perfect_hash_seeds_count } else { 0 };
    let ghost r3 = *reader;
    let chunk_perfect_hash_seeds = read_repeat::<i32>(reader, n3)?;
    proof {
        lemma_advance(r3, *reader);
        lemma_rest_rest(s, k1 + k2, reader.pos - r3.pos);
        assert(models(chunk_perfect_hash_seeds@) =~= chunk_perfect_hash_seeds@);
    }
    let ghost k3 = reader.pos - r3.pos;

    let n4: u32 = if header.version.value() >= 5 { header.chunks_without_perfect_hash_count } else { 0 };
    let ghost r4 = *reader;
    let chunks_without_perfect_hash = read_repeat::<u32>(reader, n4)?;
    proof {
        lemma_advance(r4, *reader);
        assert(models(chunks_without_perfect_hash@) =~= chunks_without_perfect_hash@);
    }
    Ok((chunk_ids, chunk_offsets_lengths, chunk_perfect_hash_seeds, chunks_without_perfect_hash))
}

/// Reads the compression blocks, the compression method names and the signature block.
#[verifier::spinoff_prover]
#[verifier::rlimit(40)]
fn read_compression_tables(reader: &mut ByteReader, header: &IoStoreTocHeader)
    -> (res: Result<(Vec<IoStoreTocCompressedBlockEntry>, Vec<String>), Error>)
    ensures
        final(reader).data@ == old(reader).data@,
        match res {
            Ok((blocks, methods)) => parse_compression_tables(old(reader).remaining(), *header)
                == Some(((blocks@, chars_of(methods@)), final(reader).pos - old(reader).pos))
                && old(reader).pos <= final(reader).pos
                && final(reader).pos - old(reader).pos <= old(reader).remaining().len(),
            Err(_) => parse_compression_tables(old(reader).remaining(), *header) is None,
        },
{
    reveal(parse_compression_tables);
    let ghost s = old(reader).remaining();
    let ghost p0 = reader.pos;

    let compression_blocks = read_repeat::<IoStoreTocCompressedBlockEntry>(reader, header.compressed_block_entry_count)?;
    proof {
        lemma_advance(*old(reader), *reader);
        assert(models(compression_blocks@) =~= compression_blocks@);
    }
    let ghost k1 = reader.pos - p0;

    let ghost r2 = *reader;
    let compression_methods = read_method_names(reader, header.compression_method_name_count, header.compression_method_name_length)?;
    proof {
        lemma_advance(r2, *reader);
        lemma_rest_rest(s, k1, reader.pos - r2.pos);
    }
    let ghost k2 = reader.pos - r2.pos;

    let ghost r3 = *reader;
    skip_signatures(reader, header)?;
    proof { lemma_advance(r3, *reader); }
    Ok((compression_blocks, compression_methods))
}

/// Reads the tables of a .utoc from the header through the signature block.
#[verifier::spinoff_prover]
#[verifier::rlimit(40)]
fn read_front(reader: &mut ByteReader) -> (res: Result<(IoStoreTocHeader, Vec<IoChunkId>, Vec<IoOffsetAndLength>,
    Vec<i32>, Vec<u32>, Vec<IoStoreTocCompressedBlockEntry>, Vec<String>), Error>)
    ensures
        final(reader).data@ == old(reader).data@,
        match res {
            Ok((h, ids, ols, seeds, wo, blocks, methods)) => parse_front(old(reader).remaining()) == Some((TocFrontView {
                    header: h,
                    chunk_ids: ids@,
                    chunk_offsets_lengths: ols@,
                    chunk_perfect_hash_seeds: seeds@,
                    chunks_without_perfect_hash: wo@,
                    compression_blocks: blocks@,
                    compression_methods: chars_of(methods@),
                }, final(reader).pos - old(reader).pos))
                && old(reader).pos <= final(reader).pos
                && final(reader).pos - old(reader).pos <= old(reader).remaining().len(),
            Err(_) => parse_front(old(reader).remaining()) is None,
        },
{
    reveal(parse_front);
    let ghost s = old(reader).remaining();
    let ghost p0 = reader.pos;
    let header = IoStoreTocHeader::read(reader)?;
    proof {
        IoStoreTocHeader::lemma_parse_len(s);
        lemma_advance(*old(reader), *reader);
    }
    let ghost k0 = reader.pos - p0;

    let ghost r1 = *reader;
    let (chunk_ids, chunk_offsets_lengths, chunk_perfect_hash_seeds, chunks_without_perfect_hash) = read_hash_tables(reader, &header)?;
    proof {
        lemma_advance(r1, *reader);
        lemma_rest_rest(s, k0, reader.pos - r1.pos);
    }
    let ghost k1 = reader.pos - r1.pos;

    let ghost r2 = *reader;
    let (compression_blocks, compression_methods) = read_compression_tables(reader, &header)?;
    proof { lemma_advance(r2, *reader); }
    Ok((header, chunk_ids, chunk_offsets_lengths, chunk_perfect_hash_seeds, chunks_without_perfect_hash,
        compression_blocks, compression_methods))
}

impl IoStoreTocResource {
    /// Read `IoStoreTocResource` from a reader
    #[verifier::spinoff_prover]
    #[verifier::rlimit(40)]
    pub fn read(reader: &mut ByteReader, encryption_key: Option<[u8; 32]>) -> (res: Result<Self, Error>)
        ensures
            final(reader).data@ == old(reader).data@,
            match res {
                Ok(t) => Self::spec_parse(old(reader).remaining(), key_bytes(encryption_key))
                    == Some((t.view(), final(reader).pos - old(reader).pos)),
                Err(_) => Self::spec_parse(old(reader).remaining(), key_bytes(encryption_key)) is None,
            },
            ({
                let s = old(reader).remaining();
                parse_front(s) matches Some((f, k)) && needs_key(f.header) && encryption_key is None
                    ==> res matches Err(Error::IoStore(IoStoreError::NoEncryptionKey))
            }),
    {
        let ghost s = old(reader).remaining();
        let ghost p0 = reader.pos;
        let (header, chunk_ids, chunk_offsets_lengths, chunk_perfect_hash_seeds, chunks_without_perfect_hash,
            compression_blocks, compression_methods) = read_front(reader)?;
        proof { lemma_advance(*old(reader), *reader); }
        let ghost k = reader.pos - p0;

        let ghost r1 = *reader;
        let directory_index = read_directory(reader, &header, encryption_key)?;
        proof {
            lemma_advance(r1, *reader);
            lemma_rest_rest(s, k, reader.pos - r1.pos);
        }
        let ghost i = reader.pos - r1.pos;

        let ghost r2 = *reader;
        let chunk_metas = read_repeat::<IoStoreTocEntryMeta>(reader, header.entry_count)?;
        proof { lemma_advance(r2, *reader); }

        let t = IoStoreTocResource {
            header,
            chunk_ids,
            chunk_offsets_lengths,
            chunk_perfect_hash_seeds,
            chunks_without_perfect_hash,
            compression_blocks,
            compression_methods,
            directory_index,
            chunk_metas,
        };
        Ok(t)
    }
}


/// The container flags that the writer stores: without the signed and encrypted bits, and
/// with the indexed bit, and the encrypted bit when a key is given, when there is a
/// directory index.
pub open spec fn written_flags(v: TocResourceView, key: Option<Seq<u8>>) -> u8 {
    let b = v.header.container_flags.bits & !EIoContainerFlags::SIGNED & !EIoContainerFlags::ENCRYPTED;
    match v.directory_index {
        None => b,
        Some(_) => if key is Some { b | EIoContainerFlags::INDEXED | EIoContainerFlags::ENCRYPTED } else { b | EIoContainerFlags::INDEXED },
    }
}

/// The header that the writer stores: the counts of the tables, the written flags, and a
/// directory index size only for an encrypted directory index.
pub open spec fn written_header(v: TocResourceView, key: Option<Seq<u8>>) -> IoStoreTocHeader {
    IoStoreTocHeader {
        container_flags: EIoContainerFlags { bits: written_flags(v, key) },
        entry_count: v.chunk_ids.len() as u32,
        chunk_perfect_hash_seeds_count: v.chunk_perfect_hash_seeds.len() as u32,
        chunks_without_perfect_hash_count: v.chunks_without_perfect_hash.len() as u32,
        compressed_block_entry_count: v.compression_blocks.len() as u32,
        compression_method_name_count: v.compression_methods.len() as u32,
        directory_index_size: if v.directory_index is Some && key is Some {
            directory_bytes(v.directory_index, key).len() as u32
        } else {
            0
        },
        ..v.header
    }
}

/// The encoding of the tables between the header and the directory index.
pub open spec fn ser_tables(v: TocResourceView, h: IoStoreTocHeader) -> Seq<u8> {
    ser_repeat(v.chunk_ids, record_writer::<IoChunkId>())
        + ser_repeat(v.chunk_offsets_lengths, record_writer::<IoOffsetAndLength>())
        + (if at_least(h, EIoStoreTocVersion::PerfectHash) {
            ser_repeat(v.chunk_perfect_hash_seeds, record_writer::<i32>())
        } else {
            Seq::empty()
        })
        + (if at_least(h, EIoStoreTocVersion::PerfectHashWithOverflow) {
            ser_repeat(v.chunks_without_perfect_hash, record_writer::<u32>())
        } else {
            Seq::empty()
        })
        + ser_repeat(v.compression_blocks, record_writer::<IoStoreTocCompressedBlockEntry>())
        + ser_repeat(v.compression_methods, method_name_writer(h.compression_method_name_length))
}

/// `b` cut or padded with zero bytes to `len` bytes.
fn fit_bytes(b: &[u8], len: usize) -> (r: Vec<u8>)
    ensures r@ == fit(b@, len as nat),
{
    let mut r: Vec<u8> = Vec::new();
    let mut i: usize = 0;
    while i < len
        invariant
            i <= len,
            r@ == fit(b@, len as nat).take(i as int),
        decreases len - i,
    {
        let x = if i < b.len() { b[i] } else { 0u8 };
        proof {
            assert(fit(b@, len as nat).len() == len);
            assert(fit(b@, len as nat)[i as int] == x);
        }
        r.push(x);
        proof { assert(r@ =~= fit(b@, len as nat).take(i + 1)); }
        i = i + 1;
    }
    proof { assert(fit(b@, len as nat).len() == len); }
    assert(r@ =~= fit(b@, len as nat));
    r
}

/// Writes compression method names, each cut or padded to `len` bytes.
fn write_method_names(names: &Vec<String>, len: u32, writer: &mut ByteWriter)
    ensures final(writer).data@ == old(writer).data@ + ser_repeat(chars_of(names@), method_name_writer(len)),
{
    let mut i: usize = 0;
    proof {
        assert(chars_of(names@.take(0)) =~= Seq::<Seq<char>>::empty());
        assert(writer.data@ =~= old(writer).data@ + ser_repeat(chars_of(names@.take(0)), method_name_writer(len)));
    }
    while i < names.len()
        invariant
            i <= names.len(),
            writer.data@ == old(writer).data@ + ser_repeat(chars_of(names@.take(i as int)), method_name_writer(len)),
        decreases names.len() - i,
    {
        let bytes = fit_bytes(names[i].as_str().as_bytes(), len as usize);
        writer.write_bytes(bytes.as_slice());
        proof {
            let m = chars_of(names@.take(i + 1));
            assert(m.drop_last() =~= chars_of(names@.take(i as int)));
            assert(m.last() == names@[i as int]@);
            assert(writer.data@ =~= old(writer).data@ + ser_repeat(m, method_name_writer(len)));
        }
        i = i + 1;
    }
    assert(names@.take(names.len() as int) =~= names@);
}

/// The least multiple of 16 that is at least `n`.
proof fn lemma_round16(n: int, r: int)
    requires 0 <= n, r >= n, r % 16 == 0, r - n < 16,
    ensures r == ((n + 15) / 16) * 16,
{
    assert(r == ((n + 15) / 16) * 16) by (nonlinear_arith)
        requires r >= n, r % 16 == 0, r - n < 16, n >= 0;
}

/// The encoding of a directory index, its bytes repeated up to a multiple of 16, then
/// encrypted with `key`.
fn encrypted_directory(d: &IoStoreDirectoryIndex, key: &[u8; 32]) -> (r: Vec<u8>)
    requires
        d.strings_fit(),
        IoStoreDirectoryIndex::spec_ser(d.view()).len() + 16 <= usize::MAX,
    ensures
        r@ == encrypt_bytes(key@, pad_repeat(IoStoreDirectoryIndex::spec_ser(d.view()))),
        decrypt_bytes(key@, r@) == pad_repeat(IoStoreDirectoryIndex::spec_ser(d.view())),
        r@.len() == pad_repeat(IoStoreDirectoryIndex::spec_ser(d.view())).len(),
{
    let mut w = ByteWriter::new();
    let _ = d.write(&mut w);
    let mut data = w.data;
    let ghost b = data@;
    assert(b =~= IoStoreDirectoryIndex::spec_ser(d.view()));
    let prev = data.len();
    if prev > 0 {
        let new_len = align(prev as u64, ENCRYPTION_ALIGN);
        proof {
            assert(ENCRYPTION_ALIGN == vstd::arithmetic::power2::pow2(4)) by {
                vstd::arithmetic::power2::lemma2_to64();
            }
            lemma_round16(prev as int, new_len as int);
            assert forall|j: int| 0 <= j < prev implies #[trigger] data@[j] == b[j % (prev as int)] by {
                vstd::arithmetic::div_mod::lemma_small_mod(j as nat, prev as nat);
            }
        }
        let mut i: usize = prev;
        while (i as u64) < new_len
            invariant
                prev == b.len(),
                prev > 0,
                new_len == ((b.len() + 15) / 16) * 16,
                prev <= i <= new_len,
                new_len <= usize::MAX,
                data@.len() == i,
                forall|j: int| 0 <= j < i ==> #[trigger] data@[j] == b[j % (prev as int)],
            decreases new_len - i,
        {
            let x = data[i - prev];
            proof {
                vstd::arithmetic::div_mod::lemma_mod_sub_multiples_vanish(i as int, prev as int);
                assert(data@[i - prev] == b[(i - prev) % (prev as int)]);
            }
            data.push(x);
            i = i + 1;
        }
        assert(data@ =~= pad_repeat(b));
    } else {
        assert(data@ =~= pad_repeat(b));
    }
    encrypt(key, &mut data);
    data
}

impl IoStoreTocResource {
    /// The encoding of a resource: the written header, the tables, the directory index
    /// bytes and the chunk metas.
    pub open spec fn spec_ser(v: TocResourceView, key: Option<Seq<u8>>) -> Seq<u8> {
        let h = written_header(v, key);
        h.spec_ser()
            + ser_tables(v, h)
            + directory_bytes(v.directory_index, key)
            + ser_repeat(v.chunk_metas, record_writer::<IoStoreTocEntryMeta>())
    }

    /// Whether every string of the directory index fits the writer's length prefix.
    pub open spec fn strings_fit(&self) -> bool {
        self.directory_index matches Some(d) ==> d.strings_fit()
    }

    /// Whether the encoding of the directory index, padded for encryption, fits in memory.
    pub open spec fn directory_fits(&self) -> bool {
        self.directory_index matches Some(d) ==> IoStoreDirectoryIndex::spec_ser(d.view()).len() + 16 <= usize::MAX
    }

    /// The header and the directory index bytes that the writer stores.
    #[verifier::spinoff_prover]
    fn written_parts(&self, encryption_key: Option<[u8; 32]>) -> (r: (IoStoreTocHeader, Vec<u8>))
        requires self.strings_fit(), self.directory_fits(),
        ensures
            r.0 == written_header(self.view(), key_bytes(encryption_key)),
            r.1@ == directory_bytes(self.view().directory_index, key_bytes(encryption_key)),
            crate::iostore::toc::roundtrip::writer_directory_facts(self.view(), key_bytes(encryption_key)),
    {
        let ghost v = self.view();
        let ghost key = key_bytes(encryption_key);
        let mut header = self.header;
        header.container_flags.remove(EIoContainerFlags::SIGNED);
        header.container_flags.remove(EIoContainerFlags::ENCRYPTED);
        header.entry_count = self.chunk_ids.len() as u32;
        header.chunk_perfect_hash_seeds_count = self.chunk_perfect_hash_seeds.len() as u32;
        header.chunks_without_perfect_hash_count = self.chunks_without_perfect_hash.len() as u32;
        header.compressed_block_entry_count = self.compression_blocks.len() as u32;
        header.compression_method_name_count = self.compression_methods.len() as u32;
        header.directory_index_size = 0;

        let mut directory: Vec<u8> = Vec::new();
        match &self.directory_index {
            Some(d) => {
                header.container_flags.insert(EIoContainerFlags::INDEXED);
                match encryption_key {
                    Some(k) => {
                        header.container_flags.insert(EIoContainerFlags::ENCRYPTED);
                        directory = encrypted_directory(d, &k);
                        header.directory_index_size = directory.len() as u32;
                    },
                    None => {
                        let mut w = ByteWriter::new();
                        let _ = d.write(&mut w);
                        directory = w.data;
                        assert(directory@ =~= IoStoreDirectoryIndex::spec_ser(d.view()));
                    },
                }
            },
            None => {},
        }
        (header, directory)
    }

    /// Writes the tables between the header and the directory index.
    #[verifier::spinoff_prover]
    #[verifier::rlimit(60)]
    fn write_tables(&self, h: &IoStoreTocHeader, writer: &mut ByteWriter)
        ensures final(writer).data@ == old(writer).data@ + ser_tables(self.view(), *h),
    {
        let ghost v = self.view();
        write_repeat(&self.chunk_ids, writer);
        write_repeat(&self.chunk_offsets_lengths, writer);
        if h.version.value() >= 4 {
            write_repeat(&self.chunk_perfect_hash_seeds, writer);
        }
        if h.version.value() >= 5 {
            write_repeat(&self.chunks_without_perfect_hash, writer);
        }
        write_repeat(&self.compression_blocks, writer);
        write_method_names(&self.compression_methods, h.compression_method_name_length, writer);
        proof {
            assert(models(self.chunk_ids@) =~= v.chunk_ids);
            assert(models(self.chunk_offsets_lengths@) =~= v.chunk_offsets_lengths);
            assert(models(self.chunk_perfect_hash_seeds@) =~= v.chunk_perfect_hash_seeds);
            assert(models(self.chunks_without_perfect_hash@) =~= v.chunks_without_perfect_hash);
            assert(models(self.compression_blocks@) =~= v.compression_blocks);
            assert(writer.data@ =~= old(writer).data@ + ser_tables(v, *h));
        }
    }

    /// Write `IoStoreTocResource` to a writer
    pub fn write(&self, writer: &mut ByteWriter, encryption_key: Option<[u8; 32]>) -> (res: Result<(), Error>)
        requires self.strings_fit(), self.directory_fits(),
        ensures
            res is Ok,
            final(writer).data@ == old(writer).data@ + Self::spec_ser(self.view(), key_bytes(encryption_key)),
            crate::iostore::toc::roundtrip::writer_directory_facts(self.view(), key_bytes(encryption_key)),
    {
        let (header, directory) = self.written_parts(encryption_key);
        let _ = header.write(writer);
        self.write_tables(&header, writer);
        writer.write_bytes(directory.as_slice());
        write_repeat(&self.chunk_metas, writer);
        assert(final(writer).data@ =~= old(writer).data@ + Self::spec_ser(self.view(), key_bytes(encryption_key)));
        Ok(())
    }
}

/// The first index from `i` on where `ids` holds `id`.
pub open spec fn index_from(ids: Seq<IoChunkId>, id: IoChunkId, i: int) -> Option<int>
    decreases ids.len() - i,
{
    if i < 0 || i >= ids.len() { None } else if ids[i] == id { Some(i) } else { index_from(ids, id, i + 1) }
}

/// The offset and length of the first entry of `id`, by a scan of the chunk ids.
pub open spec fn lookup_scan(v: TocResourceView, id: IoChunkId) -> Option<IoOffsetAndLength> {
    match index_from(v.chunk_ids, id, 0) {
        Some(i) => Some(v.chunk_offsets_lengths[i]),
        None => None,
    }
}

/// The perfect hash seed slot of `id` among `n` seeds.
pub open spec fn seed_slot(id: IoChunkId, n: int) -> int {
    (id.spec_hash(0) as usize) as int % n
}

/// The entry that the perfect hash seed `seed` gives for `id`: a negative seed names the
/// entry directly, a positive one rehashes the id.
pub open spec fn hashed_slot(v: TocResourceView, id: IoChunkId, seed: i32) -> int {
    if seed < 0 { ((-(seed as int) - 1) as i32) as usize as int } else { (id.spec_hash(seed) % (v.header.entry_count as u64)) as usize as int }
}

/// The offset and length of `id`: none for a zero seed; the entry in the hashed slot when it
/// holds `id`, else the first entry of `id`.
pub open spec fn lookup(v: TocResourceView, id: IoChunkId) -> Option<IoOffsetAndLength> {
    let seed = v.chunk_perfect_hash_seeds[seed_slot(id, v.chunk_perfect_hash_seeds.len() as int)];
    if seed == 0 {
        None
    } else {
        let slot = hashed_slot(v, id, seed);
        if slot < v.chunk_ids.len() && v.chunk_ids[slot] == id {
            Some(v.chunk_offsets_lengths[slot])
        } else {
            lookup_scan(v, id)
        }
    }
}

impl IoStoreTocResource {
    /// Whether lookups of `id` stay in the tables: seeds to pick from, entries for a
    /// positive seed to rehash into, and an offset for every chunk id.
    pub open spec fn can_look_up(&self, id: IoChunkId) -> bool {
        let n = self.chunk_perfect_hash_seeds@.len() as int;
        &&& n > 0
        &&& self.chunk_perfect_hash_seeds@[seed_slot(id, n)] > 0 ==> self.header.entry_count > 0
        &&& self.chunk_offsets_lengths@.len() >= self.chunk_ids@.len()
    }

    /// Get chunk offset and length by chunk id
    pub fn get_chunk_offset(&self, id: &IoChunkId) -> (res: Result<Option<IoOffsetAndLength>, Error>)
        requires self.can_look_up(*id),
        ensures res == Ok::<Option<IoOffsetAndLength>, Error>(lookup(self.view(), *id)),
    {
        let h0 = id.hash(0)?;
        let seed_index = (h0 as usize) % self.chunk_perfect_hash_seeds.len();
        let seed = self.chunk_perfect_hash_seeds[seed_index];
        if seed == 0 {
            return Ok(None);
        }
        let slot: usize = if seed < 0 {
            ((-(seed as i64) - 1) as i32) as usize
        } else {
            let hs = id.hash(seed)?;
            (hs % (self.header.entry_count as u64)) as usize
        };
        if slot >= self.chunk_ids.len() {
            return self.get_chunk_offset_imperfect(id);
        }
        if self.chunk_ids[slot] == *id {
            return Ok(Some(self.chunk_offsets_lengths[slot]));
        }
        self.get_chunk_offset_imperfect(id)
    }

    /// Get chunk offset and length by chunk type
    pub fn get_chunk_offset_by_type(&self, chunk_type: u8) -> (res: Result<Option<IoOffsetAndLength>, Error>)
        requires self.can_look_up(IoChunkId { chunk_id: 0, chunk_index: 0, chunk_type }),
        ensures res == Ok::<Option<IoOffsetAndLength>, Error>(
            lookup(self.view(), IoChunkId { chunk_id: 0, chunk_index: 0, chunk_type }),
        ),
    {
        self.get_chunk_offset(&IoChunkId::new(0, 0, chunk_type))
    }

    /// Get chunk offset and length by chunk id with imperfect hashing
    fn get_chunk_offset_imperfect(&self, id: &IoChunkId) -> (res: Result<Option<IoOffsetAndLength>, Error>)
        requires self.chunk_offsets_lengths@.len() >= self.chunk_ids@.len(),
        ensures res == Ok::<Option<IoOffsetAndLength>, Error>(lookup_scan(self.view(), *id)),
    {
        let mut i: usize = 0;
        while i < self.chunk_ids.len()
            invariant
                i <= self.chunk_ids.len(),
                self.chunk_offsets_lengths@.len() >= self.chunk_ids@.len(),
                index_from(self.chunk_ids@, *id, 0) == index_from(self.chunk_ids@, *id, i as int),
            decreases self.chunk_ids.len() - i,
        {
            if self.chunk_ids[i] == *id {
                return Ok(Some(self.chunk_offsets_lengths[i]));
            }
            i = i + 1;
        }
        Ok(None)
    }
}

} // verus!
