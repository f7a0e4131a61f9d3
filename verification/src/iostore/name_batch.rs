//! Name batches of zen packages: the names of a package, each after a two-byte header that
//! gives its length and whether it is UTF-16.

use vstd::prelude::*;
use vstd::utf8::{valid_utf8, decode_utf8};
use crate::archive::{ByteReader, Record, ByteWriter, stepped, rest, units_of, parse_i32, parse_repeat, record_parser,
    read_repeat, models, lemma_advance, lemma_repeat_step, lemma_repeat_none, to_units, opt_chars};
use crate::asset::name_map::{digits_text, decimal_digits};
use crate::error::Error;
use crate::strings::{utf16_decode, string_from_utf8, string_from_utf16};
use super::u64_in;
use super::name::FNameEntrySerialized;

verus! {

/// The hash version of name batches whose hashes are CityHash64 of the lower-cased names.
pub const HASH_VERSION_CITYHASH64: u64 = 0xC164_0000;

/// The header of a serialized name: whether its text is UTF-16, and its length in characters.
#[derive(Debug, Clone, Copy, PartialEq, Eq, Structural)]
pub struct SerializedNameHeader {
    /// Whether the text is UTF-16
    pub is_wide: bool,
    /// The length in characters
    pub len: u32,
}

impl SerializedNameHeader {
    /// The header at the start of `s`: the top bit of the first byte says UTF-16, the other
    /// seven bits and the second byte give the length, high byte first.
    pub open spec fn spec_parse(s: Seq<u8>) -> Option<(Self, int)> {
        if s.len() >= 2 {
            Some((SerializedNameHeader {
                is_wide: (s[0] & 0x80u8) != 0,
                len: (((s[0] & 0x7Fu8) as u32) * 256 + (s[1] as u32)) as u32,
            }, 2))
        } else {
            None
        }
    }

    /// Read `SerializedNameHeader` from a reader
    pub fn read(reader: &mut ByteReader) -> (res: Result<Self, Error>)
        ensures stepped(*old(reader), *final(reader), res, Self::spec_parse(old(reader).remaining())),
    {
        let b = reader.read_record(2)?;
        let h = SerializedNameHeader {
            is_wide: (b[0] & 0x80) != 0,
            len: ((b[0] & 0x7F) as u32) * 256 + (b[1] as u32),
        };
        Ok(h)
    }
}

impl Record for SerializedNameHeader {
    type Model = SerializedNameHeader;

    open spec fn model(v: SerializedNameHeader) -> SerializedNameHeader { v }

    open spec fn parse_model(s: Seq<u8>) -> Option<(SerializedNameHeader, int)> { SerializedNameHeader::spec_parse(s) }

    open spec fn ser_model(m: SerializedNameHeader) -> Seq<u8> {
        seq![(if m.is_wide { 0x80u8 } else { 0u8 }) | (((m.len / 256) % 128) as u8), (m.len % 256) as u8]
    }

    fn read_from(reader: &mut ByteReader) -> (res: Result<SerializedNameHeader, Error>) {
        SerializedNameHeader::read(reader)
    }

    fn write_to(&self, writer: &mut ByteWriter) {
        let hi: u8 = ((self.len / 256) % 128) as u8;
        writer.write_u8(if self.is_wide { 0x80u8 | hi } else { 0u8 | hi });
        writer.write_u8((self.len % 256) as u8);
    }
}

/// The text of `len` characters at the start of `s`, with no terminator: `2 * len` bytes of
/// little-endian UTF-16 code units where `wide`, else `len` bytes of UTF-8.
pub open spec fn spec_parse_noterm(s: Seq<u8>, len: nat, wide: bool) -> Option<(Seq<char>, int)> {
    if wide {
        if s.len() >= 2 * len {
            match utf16_decode(units_of(s.take((2 * len) as int))) {
                Some(t) => Some((t, (2 * len) as int)),
                None => None,
            }
        } else {
            None
        }
    } else if s.len() >= len && valid_utf8(s.take(len as int)) {
        Some((decode_utf8(s.take(len as int)), len as int))
    } else {
        None
    }
}

/// Read a text of `len` characters with no terminator.
pub fn read_fstring_len_noterm(reader: &mut ByteReader, len: u32, wide: bool) -> (res: Result<String, Error>)
    ensures
        final(reader).data@ == old(reader).data@,
        match res {
            Ok(t) => spec_parse_noterm(old(reader).remaining(), len as nat, wide)
                == Some((t@, final(reader).pos - old(reader).pos)),
            Err(_) => spec_parse_noterm(old(reader).remaining(), len as nat, wide) is None,
        },
{
    let ghost s = old(reader).remaining();
    if wide {
        let n64: u64 = 2 * (len as u64);
        if n64 > reader.data.len() as u64 {
            return Err(Error::eof());
        }
        let n: usize = n64 as usize;
        let bytes = reader.read_bytes(n)?;
        let units = to_units(&bytes);
        match string_from_utf16(units.as_slice()) {
            Some(t) => Ok(t),
            None => Err(Error::Utf16),
        }
    } else {
        let bytes = reader.read_bytes(len as usize)?;
        match string_from_utf8(bytes) {
            Some(t) => Ok(t),
            None => Err(Error::Utf8),
        }
    }
}

/// The names after the headers `hs`, one after another.
pub open spec fn spec_parse_names(s: Seq<u8>, hs: Seq<SerializedNameHeader>) -> Option<(Seq<Option<Seq<char>>>, int)>
    decreases hs.len(),
{
    if hs.len() == 0 {
        Some((Seq::empty(), 0))
    } else {
        match spec_parse_names(s, hs.drop_last()) {
            Some((ts, k)) => match spec_parse_noterm(rest(s, k), hs.last().len as nat, hs.last().is_wide) {
                Some((t, m)) => Some((ts.push(Some(t)), k + m)),
                None => None,
            },
            None => None,
        }
    }
}

/// The names of entries.
pub open spec fn entry_names(v: Seq<FNameEntrySerialized>) -> Seq<Option<Seq<char>>> {
    v.map_values(|e: FNameEntrySerialized| opt_chars(e.name))
}

/// Read the names after the headers `hs`.
fn read_names(reader: &mut ByteReader, hs: &Vec<SerializedNameHeader>) -> (res: Result<Vec<FNameEntrySerialized>, Error>)
    ensures
        final(reader).data@ == old(reader).data@,
        match res {
            Ok(v) => spec_parse_names(old(reader).remaining(), hs@) == Some((entry_names(v@), final(reader).pos - old(reader).pos)),
            Err(_) => spec_parse_names(old(reader).remaining(), hs@) is None,
        },
        res is Ok ==> old(reader).pos <= final(reader).pos
            && final(reader).pos - old(reader).pos <= old(reader).remaining().len(),
{
    let ghost s = old(reader).remaining();
    let ghost p0 = reader.pos;
    let mut v: Vec<FNameEntrySerialized> = Vec::new();
    let mut i: usize = 0;
    proof {
        assert(hs@.take(0) =~= Seq::<SerializedNameHeader>::empty());
        assert(entry_names(v@) =~= Seq::<Option<Seq<char>>>::empty());
        assert(rest(s, 0) =~= s);
    }
    while i < hs.len()
        invariant
            i <= hs.len(),
            reader.data@ == old(reader).data@,
            s == old(reader).remaining(),
            p0 == old(reader).pos,
            p0 <= reader.pos,
            reader.pos - p0 <= s.len(),
            reader.remaining() == rest(s, reader.pos - p0),
            spec_parse_names(s, hs@.take(i as int)) == Some((entry_names(v@), reader.pos - p0)),
        decreases hs.len() - i,
    {
        let ghost r0 = *reader;
        let ghost k = reader.pos - p0;
        let ghost before = v@;
        proof {
            assert(hs@.take(i + 1).drop_last() =~= hs@.take(i as int));
            assert(hs@.take(i + 1).last() == hs@[i as int]);
        }
        let h = hs[i];
        let t = match read_fstring_len_noterm(reader, h.len, h.is_wide) {
            Ok(t) => t,
            Err(e) => {
                proof { lemma_names_none(s, hs@, (i + 1) as nat); }
                return Err(e);
            },
        };
        proof {
            lemma_advance(r0, *reader);
            assert(rest(rest(s, k), reader.pos - r0.pos) =~= rest(s, reader.pos - p0));
        }
        v.push(FNameEntrySerialized::new(Some(t)));
        proof {
            assert(entry_names(v@) =~= entry_names(before).push(Some(t@)));
        }
        i = i + 1;
    }
    assert(hs@.take(i as int) =~= hs@);
    Ok(v)
}

/// Once the names after some headers fail to read, those after more headers fail too.
proof fn lemma_names_none(s: Seq<u8>, hs: Seq<SerializedNameHeader>, i: nat)
    requires i <= hs.len(), spec_parse_names(s, hs.take(i as int)) is None,
    ensures spec_parse_names(s, hs) is None,
    decreases hs.len() - i,
{
    if i < hs.len() {
        assert(hs.take((i + 1) as int).drop_last() =~= hs.take(i as int));
        lemma_names_none(s, hs, i + 1);
    } else {
        assert(hs.take(i as int) =~= hs);
    }
}

/// The name batch at the start of `s`: a count of names; where it is not zero, the byte length
/// of the strings (skipped), the hash version, which must be that of CityHash64, a hash for
/// each name (skipped), a header for each name, then the names. A negative count is invalid.
pub open spec fn spec_parse_name_batch(s: Seq<u8>) -> Option<(Seq<Option<Seq<char>>>, int)> {
    match parse_i32(s) {
        None => None,
        Some((n, _)) => if n == 0 {
            Some((Seq::empty(), 4))
        } else if n < 0 || s.len() < 16 || u64_in(s, 8) != HASH_VERSION_CITYHASH64 {
            None
        } else {
            match parse_repeat(rest(s, 16), n as nat, record_parser::<u64>()) {
                None => None,
                Some((_, k1)) => match parse_repeat(rest(s, 16 + k1), n as nat, record_parser::<SerializedNameHeader>()) {
                    None => None,
                    Some((hs, k2)) => match spec_parse_names(rest(s, 16 + k1 + k2), hs) {
                        None => None,
                        Some((ts, k3)) => Some((ts, 16 + k1 + k2 + k3)),
                    },
                },
            }
        },
    }
}

/// Read a name batch. A hash version other than CityHash64's is unimplemented.
pub fn read_name_batch(reader: &mut ByteReader) -> (res: Result<Vec<FNameEntrySerialized>, Error>)
    ensures
        final(reader).data@ == old(reader).data@,
        match res {
            Ok(v) => spec_parse_name_batch(old(reader).remaining()) == Some((entry_names(v@), final(reader).pos - old(reader).pos)),
            Err(_) => spec_parse_name_batch(old(reader).remaining()) is None,
        },
        res is Ok ==> old(reader).pos <= final(reader).pos
            && final(reader).pos - old(reader).pos <= old(reader).remaining().len(),
        old(reader).remaining().len() >= 16 && crate::exports::base_export::i32_at(old(reader).remaining(), 0) > 0
            && u64_in(old(reader).remaining(), 8) != HASH_VERSION_CITYHASH64
            ==> (res matches Err(Error::Unimplemented(m)) && m@ == "Unimplemented name batch algorithm: "@
                + decimal_digits(u64_in(old(reader).remaining(), 8) as nat)),
{
    let ghost s = old(reader).remaining();
    let ghost r0 = *reader;
    let n = reader.read_i32()?;
    if n == 0 {
        return Ok(Vec::new());
    }
    if n < 0 {
        return Err(Error::invalid_file(String::from_str("Negative name count")));
    }
    proof { lemma_advance(r0, *reader); }
    let ghost r1 = *reader;
    let _strings_length = reader.read_u32()?;
    proof { lemma_advance(r1, *reader); }
    let ghost r2 = *reader;
    let hash_version = reader.read_u64()?;
    proof {
        lemma_advance(r2, *reader);
        assert(rest(rest(rest(s, 4), 4), 8) =~= rest(s, 16));
        assert(s.subrange(8, 16) =~= rest(rest(s, 4), 4).take(8));
    }
    if hash_version != HASH_VERSION_CITYHASH64 {
        let mut m = String::from_str("Unimplemented name batch algorithm: ");
        let d = digits_text(hash_version);
        m.append(d.as_str());
        return Err(Error::Unimplemented(m));
    }
    let ghost r3 = *reader;
    let _hashes: Vec<u64> = read_repeat(reader, n as u32)?;
    proof { lemma_advance(r3, *reader); }
    let ghost r4 = *reader;
    proof {
        assert(rest(rest(s, 16), r4.pos - r3.pos) =~= rest(s, 16 + (r4.pos - r3.pos)));
    }
    let headers: Vec<SerializedNameHeader> = read_repeat(reader, n as u32)?;
    proof {
        lemma_advance(r4, *reader);
        assert(models(headers@) =~= headers@);
        assert(rest(rest(s, 16 + (r4.pos - r3.pos)), reader.pos - r4.pos)
            =~= rest(s, 16 + (r4.pos - r3.pos) + (reader.pos - r4.pos)));
    }
    let names = read_names(reader, &headers)?;
    Ok(names)
}

/// The entry at the start of `s` of a name list without a batch: a header, then the name.
pub open spec fn spec_parse_old_entry(s: Seq<u8>) -> Option<(Option<Seq<char>>, int)> {
    match SerializedNameHeader::spec_parse(s) {
        Some((h, _)) => match spec_parse_noterm(rest(s, 2), h.len as nat, h.is_wide) {
            Some((t, k)) => Some((Some(t), 2 + k)),
            None => None,
        },
        None => None,
    }
}

/// The parser of an entry of a name list without a batch, as a function value.
pub open spec fn old_entry_parser() -> spec_fn(Seq<u8>) -> Option<(Option<Seq<char>>, int)> {
    |s: Seq<u8>| spec_parse_old_entry(s)
}

/// Read `length` names each after its header, the layout before name batches.
pub fn read_name_batch_old(reader: &mut ByteReader, length: usize) -> (res: Result<Vec<FNameEntrySerialized>, Error>)
    ensures
        final(reader).data@ == old(reader).data@,
        match res {
            Ok(v) => parse_repeat(old(reader).remaining(), length as nat, old_entry_parser())
                == Some((entry_names(v@), final(reader).pos - old(reader).pos)),
            Err(_) => parse_repeat(old(reader).remaining(), length as nat, old_entry_parser()) is None,
        },
{
    let ghost s = old(reader).remaining();
    let ghost p0 = reader.pos;
    let ghost f = old_entry_parser();
    let mut v: Vec<FNameEntrySerialized> = Vec::new();
    let mut i: usize = 0;
    proof {
        assert(entry_names(v@) =~= Seq::<Option<Seq<char>>>::empty());
        assert(rest(s, 0) =~= s);
    }
    while i < length
        invariant
            i <= length,
            reader.data@ == old(reader).data@,
            s == old(reader).remaining(),
            p0 == old(reader).pos,
            f == old_entry_parser(),
            p0 <= reader.pos,
            reader.pos - p0 <= s.len(),
            reader.remaining() == rest(s, reader.pos - p0),
            parse_repeat(s, i as nat, f) == Some((entry_names(v@), reader.pos - p0)),
        decreases length - i,
    {
        let ghost r0 = *reader;
        let ghost k = reader.pos - p0;
        let ghost before = v@;
        let h = match SerializedNameHeader::read(reader) {
            Ok(h) => h,
            Err(e) => {
                proof {
                    lemma_repeat_step(s, (i + 1) as nat, f);
                    assert((i + 1) as nat - 1 == i as nat);
                    lemma_repeat_none(s, (i + 1) as nat, length as nat, f);
                }
                return Err(e);
            },
        };
        proof { lemma_advance(r0, *reader); }
        let ghost r1 = *reader;
        let t = match read_fstring_len_noterm(reader, h.len, h.is_wide) {
            Ok(t) => t,
            Err(e) => {
                proof {
                    assert(rest(rest(s, k), 2) =~= r1.remaining());
                    lemma_repeat_step(s, (i + 1) as nat, f);
                    assert((i + 1) as nat - 1 == i as nat);
                    lemma_repeat_none(s, (i + 1) as nat, length as nat, f);
                }
                return Err(e);
            },
        };
        proof {
            lemma_advance(r1, *reader);
            assert(rest(rest(s, k), 2) =~= r1.remaining());
            lemma_repeat_step(s, (i + 1) as nat, f);
            assert((i + 1) as nat - 1 == i as nat);
            assert(rest(rest(rest(s, k), 2), reader.pos - r1.pos) =~= rest(s, reader.pos - p0));
        }
        v.push(FNameEntrySerialized::new(Some(t)));
        proof {
            assert(entry_names(v@) =~= entry_names(before).push(Some(t@)));
        }
        i = i + 1;
    }
    Ok(v)
}

} // verus!
