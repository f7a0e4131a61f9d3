//! Byte readers and writers over in-memory buffers.

use vstd::prelude::*;
use vstd::utf8::*;
use crate::bytes::{le_value, le_bytes, be_value, be_bytes, u16_from_le, u16_from_be, u32_from_le, u64_from_le, u16_to_le, u16_to_be, u32_to_le, u64_to_le};
use crate::error::{Error, FStringError, IoErrorKind};
use crate::strings::{utf16_decode, utf16_encode, utf16_units_of, string_from_utf16, string_from_utf8, encode_utf16, lemma_utf16_roundtrip};

verus! {

/// The bytes of `data` from `pos` on (none when `pos` is past the end).
pub open spec fn rest(data: Seq<u8>, pos: int) -> Seq<u8> {
    if 0 <= pos <= data.len() { data.skip(pos) } else { Seq::empty() }
}

/// A value of `n` bytes decoded by `decode`, when at least `n` bytes are there.
pub open spec fn parse_fixed<T>(s: Seq<u8>, n: int, decode: spec_fn(Seq<u8>) -> T) -> Option<(T, int)> {
    if s.len() >= n { Some((decode(s.take(n)), n)) } else { None }
}

pub open spec fn parse_u8(s: Seq<u8>) -> Option<(u8, int)> {
    if s.len() >= 1 { Some((s[0], 1)) } else { None }
}

pub open spec fn parse_u16(s: Seq<u8>) -> Option<(u16, int)> {
    if s.len() >= 2 { Some((le_value(s.take(2)) as u16, 2)) } else { None }
}

pub open spec fn parse_u16_be(s: Seq<u8>) -> Option<(u16, int)> {
    if s.len() >= 2 { Some((be_value(s.take(2)) as u16, 2)) } else { None }
}

pub open spec fn parse_u32(s: Seq<u8>) -> Option<(u32, int)> {
    if s.len() >= 4 { Some((le_value(s.take(4)) as u32, 4)) } else { None }
}

pub open spec fn parse_i32(s: Seq<u8>) -> Option<(i32, int)> {
    if s.len() >= 4 { Some(((le_value(s.take(4)) as u32) as i32, 4)) } else { None }
}

pub open spec fn parse_u64(s: Seq<u8>) -> Option<(u64, int)> {
    if s.len() >= 8 { Some((le_value(s.take(8)) as u64, 8)) } else { None }
}

pub open spec fn parse_i64(s: Seq<u8>) -> Option<(i64, int)> {
    if s.len() >= 8 { Some(((le_value(s.take(8)) as u64) as i64, 8)) } else { None }
}

pub open spec fn parse_bytes(s: Seq<u8>, n: int) -> Option<(Seq<u8>, int)> {
    if 0 <= n <= s.len() { Some((s.take(n), n)) } else { None }
}

pub open spec fn ser_u16(x: u16) -> Seq<u8> { le_bytes(x as nat, 2) }
pub open spec fn ser_u16_be(x: u16) -> Seq<u8> { be_bytes(x as nat, 2) }
pub open spec fn ser_u32(x: u32) -> Seq<u8> { le_bytes(x as nat, 4) }
pub open spec fn ser_i32(x: i32) -> Seq<u8> { le_bytes((x as u32) as nat, 4) }
pub open spec fn ser_u64(x: u64) -> Seq<u8> { le_bytes(x as nat, 8) }
pub open spec fn ser_i64(x: i64) -> Seq<u8> { le_bytes((x as u64) as nat, 8) }

/// Values longer than a FString length prefix may announce.
pub open spec fn fstring_len_ok(len: i32) -> bool {
    -131072 <= len <= 131072
}

/// Bytes of an FString body with its trailing NUL bytes removed.
pub open spec fn strip_zero_bytes(s: Seq<u8>) -> Seq<u8>
    decreases s.len(),
{
    if s.len() > 0 && s.last() == 0 { strip_zero_bytes(s.drop_last()) } else { s }
}

/// Code units of an FString body with its trailing NUL units removed.
pub open spec fn strip_zero_units(s: Seq<u16>) -> Seq<u16>
    decreases s.len(),
{
    if s.len() > 0 && s.last() == 0 { strip_zero_units(s.drop_last()) } else { s }
}

/// Little-endian 16-bit code units of a byte sequence of even length.
pub open spec fn units_of(s: Seq<u8>) -> Seq<u16> {
    Seq::new(s.len() / 2, |i: int| le_value(s.subrange(2 * i, 2 * i + 2)) as u16)
}

/// What an FString prefixed by `len` decodes to, from the bytes after the prefix:
/// `Ok(Some((text, consumed)))`, `Ok(None)` for a null string, or the failure.
pub enum FStringBody {
    Null,
    Text(Seq<char>, int),
    BadSize,
    Eof,
    BadUtf8,
    BadUtf16,
}

pub open spec fn fstring_body(len: i32, s: Seq<u8>) -> FStringBody {
    if !fstring_len_ok(len) {
        FStringBody::BadSize
    } else if len == 0 {
        FStringBody::Null
    } else if len < 0 {
        let n = -2 * len;
        if s.len() < n {
            FStringBody::Eof
        } else {
            match utf16_decode(strip_zero_units(units_of(s.take(n)))) {
                Some(t) => FStringBody::Text(t, n),
                None => FStringBody::BadUtf16,
            }
        }
    } else {
        let n = len as int;
        if s.len() < n {
            FStringBody::Eof
        } else {
            let b = strip_zero_bytes(s.take(n));
            if valid_utf8(b) { FStringBody::Text(decode_utf8(b), n) } else { FStringBody::BadUtf8 }
        }
    }
}

/// The FString at the start of `s`: its length prefix and body.
pub open spec fn parse_fstring(s: Seq<u8>) -> Option<(Option<Seq<char>>, int)> {
    match parse_i32(s) {
        Some((len, k)) => match fstring_body(len, s.skip(k)) {
            FStringBody::Null => Some((None, k)),
            FStringBody::Text(t, n) => Some((Some(t), k + n)),
            _ => None,
        },
        None => None,
    }
}

/// Whether a string needs the UTF-16 FString form.
pub open spec fn needs_utf16(t: Seq<char>) -> bool {
    !is_ascii_chars(t)
}

/// The encoding of an FString.
pub open spec fn ser_fstring(t: Option<Seq<char>>) -> Seq<u8> {
    match t {
        None => ser_i32(0),
        Some(t) => if needs_utf16(t) {
            let u = utf16_encode(t);
            ser_i32(-(u.len() + 1) as i32) + units_bytes(u) + ser_u16(0)
        } else {
            ser_i32((t.len() + 1) as i32) + encode_utf8(t) + seq![0u8]
        },
    }
}

/// Little-endian bytes of 16-bit code units.
pub open spec fn units_bytes(u: Seq<u16>) -> Seq<u8>
    decreases u.len(),
{
    if u.len() == 0 { Seq::empty() } else { units_bytes(u.drop_last()) + ser_u16(u.last()) }
}

/// The kind of archive that a reader or writer works on.
#[derive(Debug, Clone, Copy, PartialEq, Eq, Structural)]
pub enum ArchiveType {
    /// A .uasset package
    UAsset,
    /// A zen package of an IoStore container
    Zen,
}

/// A reader over an in-memory byte buffer.
pub struct ByteReader {
    /// The bytes
    pub data: Vec<u8>,
    /// The position of the next byte to read
    pub pos: usize,
    /// The kind of archive that the bytes are
    pub archive_type: ArchiveType,
}

/// The reader `r1` is `r0` after a read that gave `res`, of which `p` says what it is.
pub open spec fn stepped<T>(r0: ByteReader, r1: ByteReader, res: Result<T, Error>, p: Option<(T, int)>) -> bool {
    &&& r1.data@ == r0.data@
    &&& match res {
        Ok(v) => p == Some((v, r1.pos - r0.pos)),
        Err(_) => p is None,
    }
}

impl ByteReader {
    /// The bytes that are left to read.
    pub open spec fn remaining(&self) -> Seq<u8> {
        rest(self.data@, self.pos as int)
    }

    /// Creates a reader at the start of `data`, a .uasset archive.
    pub fn new(data: Vec<u8>) -> (r: Self)
        ensures r.data@ == data@, r.pos == 0, r.archive_type == ArchiveType::UAsset,
    {
        ByteReader { data, pos: 0, archive_type: ArchiveType::UAsset }
    }

    /// Creates a reader at the start of `data`, an archive of the kind `archive_type`.
    pub fn with_archive_type(data: Vec<u8>, archive_type: ArchiveType) -> (r: Self)
        ensures r.data@ == data@, r.pos == 0, r.archive_type == archive_type,
    {
        ByteReader { data, pos: 0, archive_type }
    }

    /// The position of the next byte to read.
    pub fn position(&self) -> (p: u64)
        ensures p == self.pos,
    {
        self.pos as u64
    }

    /// Moves to an absolute position.
    pub fn set_position(&mut self, pos: u64) -> (res: Result<(), Error>)
        ensures
            final(self).data@ == old(self).data@,
            res is Ok <==> pos <= usize::MAX,
            res is Ok ==> final(self).pos == pos,
            res is Err ==> final(self).pos == old(self).pos,
    {
        if pos > usize::MAX as u64 {
            return Err(Error::Io(IoErrorKind::InvalidInput));
        }
        self.pos = pos as usize;
        Ok(())
    }

    /// The number of bytes from the position to the end.
    pub fn remaining_len(&self) -> (n: usize)
        ensures
            n == self.remaining().len(),
            n > 0 ==> self.pos + n == self.data@.len(),
    {
        if self.pos <= self.data.len() { self.data.len() - self.pos } else { 0 }
    }

    /// Whether `n` more bytes can be read.
    fn has(&self, n: usize) -> (b: bool)
        ensures
            b == (self.pos + n <= self.data.len()),
            n > 0 ==> b == (self.remaining().len() >= n),
    {
        self.pos <= self.data.len() && self.data.len() - self.pos >= n
    }

    pub fn read_u8(&mut self) -> (res: Result<u8, Error>)
        ensures
            stepped(*old(self), *final(self), res, parse_u8(old(self).remaining())),
            res matches Err(e) ==> e == Error::Io(IoErrorKind::UnexpectedEof),
    {
        if !self.has(1) {
            return Err(Error::eof());
        }
        let b = self.data[self.pos];
        self.pos = self.pos + 1;
        Ok(b)
    }

    pub fn read_u16(&mut self) -> (res: Result<u16, Error>)
        ensures
            stepped(*old(self), *final(self), res, parse_u16(old(self).remaining())),
            res matches Err(e) ==> e == Error::Io(IoErrorKind::UnexpectedEof),
    {
        if !self.has(2) {
            return Err(Error::eof());
        }
        let p = self.pos;
        let b = [self.data[p], self.data[p + 1]];
        proof { assert(b@ =~= old(self).remaining().take(2)); }
        self.pos = p + 2;
        Ok(u16_from_le(b))
    }

    pub fn read_u16_be(&mut self) -> (res: Result<u16, Error>)
        ensures
            stepped(*old(self), *final(self), res, parse_u16_be(old(self).remaining())),
            res matches Err(e) ==> e == Error::Io(IoErrorKind::UnexpectedEof),
    {
        if !self.has(2) {
            return Err(Error::eof());
        }
        let p = self.pos;
        let b = [self.data[p], self.data[p + 1]];
        proof { assert(b@ =~= old(self).remaining().take(2)); }
        self.pos = p + 2;
        Ok(u16_from_be(b))
    }

    pub fn read_u32(&mut self) -> (res: Result<u32, Error>)
        ensures
            stepped(*old(self), *final(self), res, parse_u32(old(self).remaining())),
            res matches Err(e) ==> e == Error::Io(IoErrorKind::UnexpectedEof),
    {
        if !self.has(4) {
            return Err(Error::eof());
        }
        let p = self.pos;
        let b = [self.data[p], self.data[p + 1], self.data[p + 2], self.data[p + 3]];
        proof { assert(b@ =~= old(self).remaining().take(4)); }
        self.pos = p + 4;
        Ok(u32_from_le(b))
    }

    pub fn read_i32(&mut self) -> (res: Result<i32, Error>)
        ensures
            stepped(*old(self), *final(self), res, parse_i32(old(self).remaining())),
            res matches Err(e) ==> e == Error::Io(IoErrorKind::UnexpectedEof),
    {
        match self.read_u32() {
            Ok(v) => Ok(v as i32),
            Err(e) => Err(e),
        }
    }

    pub fn read_u64(&mut self) -> (res: Result<u64, Error>)
        ensures
            stepped(*old(self), *final(self), res, parse_u64(old(self).remaining())),
            res matches Err(e) ==> e == Error::Io(IoErrorKind::UnexpectedEof),
    {
        if !self.has(8) {
            return Err(Error::eof());
        }
        let p = self.pos;
        let b = [
            self.data[p], self.data[p + 1], self.data[p + 2], self.data[p + 3],
            self.data[p + 4], self.data[p + 5], self.data[p + 6], self.data[p + 7],
        ];
        proof { assert(b@ =~= old(self).remaining().take(8)); }
        self.pos = p + 8;
        Ok(u64_from_le(b))
    }

    pub fn read_i64(&mut self) -> (res: Result<i64, Error>)
        ensures
            stepped(*old(self), *final(self), res, parse_i64(old(self).remaining())),
            res matches Err(e) ==> e == Error::Io(IoErrorKind::UnexpectedEof),
    {
        match self.read_u64() {
            Ok(v) => Ok(v as i64),
            Err(e) => Err(e),
        }
    }

    /// Reads `n` bytes.
    pub fn read_bytes(&mut self, n: usize) -> (res: Result<Vec<u8>, Error>)
        ensures
            final(self).data@ == old(self).data@,
            match res {
                Ok(v) => parse_bytes(old(self).remaining(), n as int) == Some((v@, final(self).pos - old(self).pos)),
                Err(e) => parse_bytes(old(self).remaining(), n as int) is None && e == Error::Io(IoErrorKind::UnexpectedEof),
            },
    {
        if n == 0 {
            return Ok(Vec::new());
        }
        if !self.has(n) {
            return Err(Error::eof());
        }
        let p = self.pos;
        let mut v: Vec<u8> = Vec::with_capacity(n);
        let mut i: usize = 0;
        while i < n
            invariant
                self.data@ == old(self).data@,
                self.pos == p,
                p + n <= self.data.len(),
                i <= n,
                v@ =~= self.data@.subrange(p as int, p + i),
            decreases n - i,
        {
            v.push(self.data[p + i]);
            i = i + 1;
        }
        self.pos = p + n;
        proof { assert(v@ =~= old(self).remaining().take(n as int)); }
        Ok(v)
    }
}

} // verus!

verus! {

/// `Some` text as a character sequence.
pub open spec fn opt_chars(o: Option<String>) -> Option<Seq<char>> {
    match o {
        Some(s) => Some(s@),
        None => None,
    }
}

/// Drops the trailing zero bytes of `v`.
fn strip_trailing_zero_bytes(v: &mut Vec<u8>)
    ensures final(v)@ == strip_zero_bytes(old(v)@),
{
    while v.len() > 0 && v[v.len() - 1] == 0
        invariant strip_zero_bytes(v@) == strip_zero_bytes(old(v)@),
        decreases v.len(),
    {
        let ghost before = v@;
        v.pop();
        assert(v@ =~= before.drop_last());
    }
}

/// Drops the trailing zero code units of `v`.
fn strip_trailing_zero_units(v: &mut Vec<u16>)
    ensures final(v)@ == strip_zero_units(old(v)@),
{
    while v.len() > 0 && v[v.len() - 1] == 0
        invariant strip_zero_units(v@) == strip_zero_units(old(v)@),
        decreases v.len(),
    {
        let ghost before = v@;
        v.pop();
        assert(v@ =~= before.drop_last());
    }
}

/// Groups bytes into little-endian 16-bit code units.
pub(crate) fn to_units(b: &Vec<u8>) -> (u: Vec<u16>)
    requires b.len() % 2 == 0,
    ensures u@ == units_of(b@),
{
    let mut u: Vec<u16> = Vec::with_capacity(b.len() / 2);
    let mut i: usize = 0;
    while i < b.len() / 2
        invariant
            b.len() % 2 == 0,
            i <= b.len() / 2,
            u@.len() == i,
            forall|j: int| 0 <= j < i ==> u@[j] == le_value(b@.subrange(2 * j, 2 * j + 2)) as u16,
        decreases b.len() / 2 - i,
    {
        let a = [b[2 * i], b[2 * i + 1]];
        assert(a@ =~= b@.subrange(2 * i, 2 * i + 2));
        u.push(u16_from_le(a));
        i = i + 1;
    }
    assert(u@ =~= units_of(b@));
    u
}

impl ByteReader {
    /// Reads an FString: an `i32` length, then that many bytes of UTF-8 text, or,
    /// for a negative length, that many UTF-16 code units; trailing NULs are dropped.
    pub fn read_fstring(&mut self) -> (res: Result<Option<String>, Error>)
        ensures
            final(self).data@ == old(self).data@,
            match res {
                Ok(v) => parse_fstring(old(self).remaining()) == Some((opt_chars(v), final(self).pos - old(self).pos)),
                Err(_) => parse_fstring(old(self).remaining()) is None,
            },
    {
        let ghost s = old(self).remaining();
        let len = self.read_i32()?;
        assert(s.skip(4) =~= self.remaining());
        if !(-131072 <= len && len <= 131072) {
            return Err(Error::FString(FStringError::InvalidStringSize(len)));
        }
        if len == 0 {
            return Ok(None);
        }
        if len < 0 {
            let n = (-2 * len) as usize;
            let bytes = self.read_bytes(n)?;
            let mut units = to_units(&bytes);
            strip_trailing_zero_units(&mut units);
            match string_from_utf16(units.as_slice()) {
                Some(t) => Ok(Some(t)),
                None => Err(Error::Utf16),
            }
        } else {
            let mut bytes = self.read_bytes(len as usize)?;
            strip_trailing_zero_bytes(&mut bytes);
            match string_from_utf8(bytes) {
                Some(t) => Ok(Some(t)),
                None => Err(Error::Utf8),
            }
        }
    }
}

/// A writer that appends to an in-memory byte buffer.
pub struct ByteWriter {
    /// The bytes written so far
    pub data: Vec<u8>,
    /// The kind of archive that is written
    pub archive_type: ArchiveType,
}

impl ByteWriter {
    /// Creates an empty writer of a .uasset archive.
    pub fn new() -> (w: Self)
        ensures w.data@ == Seq::<u8>::empty(), w.archive_type == ArchiveType::UAsset,
    {
        ByteWriter { data: Vec::new(), archive_type: ArchiveType::UAsset }
    }

    /// Creates an empty writer of an archive of the kind `archive_type`.
    pub fn with_archive_type(archive_type: ArchiveType) -> (w: Self)
        ensures w.data@ == Seq::<u8>::empty(), w.archive_type == archive_type,
    {
        ByteWriter { data: Vec::new(), archive_type }
    }

    /// The number of bytes written.
    pub fn position(&self) -> (p: u64)
        ensures p == self.data@.len(),
    {
        self.data.len() as u64
    }

    pub fn write_u8(&mut self, x: u8)
        ensures final(self).data@ == old(self).data@.push(x),
    {
        self.data.push(x);
    }

    /// Appends bytes.
    pub fn write_bytes(&mut self, b: &[u8])
        ensures final(self).data@ == old(self).data@ + b@,
    {
        let mut i: usize = 0;
        while i < b.len()
            invariant
                i <= b.len(),
                self.data@ =~= old(self).data@ + b@.take(i as int),
            decreases b.len() - i,
        {
            self.data.push(b[i]);
            i = i + 1;
        }
        assert(b@.take(b.len() as int) =~= b@);
    }

    pub fn write_u16(&mut self, x: u16)
        ensures final(self).data@ == old(self).data@ + ser_u16(x),
    {
        let b = u16_to_le(x);
        self.write_bytes(&b);
    }

    pub fn write_u16_be(&mut self, x: u16)
        ensures final(self).data@ == old(self).data@ + ser_u16_be(x),
    {
        let b = u16_to_be(x);
        self.write_bytes(&b);
    }

    pub fn write_u32(&mut self, x: u32)
        ensures final(self).data@ == old(self).data@ + ser_u32(x),
    {
        let b = u32_to_le(x);
        self.write_bytes(&b);
    }

    pub fn write_i32(&mut self, x: i32)
        ensures final(self).data@ == old(self).data@ + ser_i32(x),
    {
        self.write_u32(x as u32);
    }

    pub fn write_u64(&mut self, x: u64)
        ensures final(self).data@ == old(self).data@ + ser_u64(x),
    {
        let b = u64_to_le(x);
        self.write_bytes(&b);
    }

    pub fn write_i64(&mut self, x: i64)
        ensures final(self).data@ == old(self).data@ + ser_i64(x),
    {
        self.write_u64(x as u64);
    }

    /// Writes an FString: ASCII text as bytes, other text as UTF-16, each NUL-terminated.
    pub fn write_fstring(&mut self, value: Option<&str>)
        requires
            value matches Some(t) ==> t@.len() < 0x4000_0000,
        ensures
            final(self).data@ == old(self).data@ + ser_fstring(
                match value { Some(t) => Some(t@), None => None },
            ),
    {
        match value {
            None => {
                self.write_i32(0);
            },
            Some(t) => {
                if !t.is_ascii() {
                    let units = encode_utf16(t);
                    proof { lemma_utf16_encode_len(t@); }
                    self.write_i32(-(units.len() as i32 + 1));
                    let mut i: usize = 0;
                    while i < units.len()
                        invariant
                            i <= units.len(),
                            units.len() <= 2 * t@.len(),
                            t@.len() < 0x4000_0000,
                            self.data@ =~= old(self).data@ + ser_i32(-(units@.len() + 1) as i32)
                                + units_bytes(units@.take(i as int)),
                        decreases units.len() - i,
                    {
                        self.write_u16(units[i]);
                        proof {
                            assert(units@.take(i + 1).drop_last() =~= units@.take(i as int));
                        }
                        i = i + 1;
                    }
                    assert(units@.take(units.len() as int) =~= units@);
                    self.write_u16(0);
                } else {
                    let b = t.as_bytes();
                    proof { lemma_ascii_bytes_len(t@); }
                    self.write_i32(b.len() as i32 + 1);
                    self.write_bytes(b);
                    self.write_u8(0);
                }
            },
        }
    }
}

/// A string has at most two UTF-16 code units per character.
pub proof fn lemma_utf16_encode_len(t: Seq<char>)
    ensures utf16_encode(t).len() <= 2 * t.len(),
    decreases t.len(),
{
    if t.len() > 0 { lemma_utf16_encode_len(t.drop_last()); }
}

/// ASCII text has one UTF-8 byte per character.
pub proof fn lemma_ascii_bytes_len(t: Seq<char>)
    requires is_ascii_chars(t),
    ensures encode_utf8(t).len() == t.len(),
{
    is_ascii_chars_encode_utf8(t);
}

} // verus!

verus! {

/// The little-endian `u16` at `off` in `b`.
pub fn u16_at(b: &[u8], off: usize) -> (r: u16)
    requires off + 2 <= b@.len(),
    ensures r as nat == le_value(b@.subrange(off as int, off + 2)),
{
    let a = [b[off], b[off + 1]];
    assert(a@ =~= b@.subrange(off as int, off + 2));
    u16_from_le(a)
}

/// The little-endian `u32` at `off` in `b`.
pub fn u32_at(b: &[u8], off: usize) -> (r: u32)
    requires off + 4 <= b@.len(),
    ensures r as nat == le_value(b@.subrange(off as int, off + 4)),
{
    let a = [b[off], b[off + 1], b[off + 2], b[off + 3]];
    assert(a@ =~= b@.subrange(off as int, off + 4));
    u32_from_le(a)
}

/// The little-endian `u64` at `off` in `b`.
pub fn u64_at(b: &[u8], off: usize) -> (r: u64)
    requires off + 8 <= b@.len(),
    ensures r as nat == le_value(b@.subrange(off as int, off + 8)),
{
    let a = [b[off], b[off + 1], b[off + 2], b[off + 3], b[off + 4], b[off + 5], b[off + 6], b[off + 7]];
    assert(a@ =~= b@.subrange(off as int, off + 8));
    u64_from_le(a)
}

/// The value of the `n` encoded bytes of `x` is `x`, for each integer width.
pub proof fn lemma_ser_values(a: u16, b: u32, c: u64, d: i32, e: i64)
    ensures
        ser_u16(a).len() == 2, le_value(ser_u16(a)) == a,
        ser_u16_be(a).len() == 2, be_value(ser_u16_be(a)) == a,
        ser_u32(b).len() == 4, le_value(ser_u32(b)) == b,
        ser_u64(c).len() == 8, le_value(ser_u64(c)) == c,
        ser_i32(d).len() == 4, (le_value(ser_i32(d)) as u32) as i32 == d,
        ser_i64(e).len() == 8, (le_value(ser_i64(e)) as u64) as i64 == e,
{
    crate::bytes::lemma_pow256_values();
    crate::bytes::lemma_le_roundtrip(a as nat, 2);
    crate::bytes::lemma_be_roundtrip(a as nat, 2);
    crate::bytes::lemma_le_roundtrip(b as nat, 4);
    crate::bytes::lemma_le_roundtrip(c as nat, 8);
    crate::bytes::lemma_le_roundtrip((d as u32) as nat, 4);
    crate::bytes::lemma_le_roundtrip((e as u64) as nat, 8);
    assert((d as u32) as i32 == d) by (bit_vector);
    assert((e as u64) as i64 == e) by (bit_vector);
}

/// Reading an integer back from its encoding gives the integer, whatever follows.
pub proof fn lemma_parse_ints(a: u16, b: u32, c: u64, d: i32, e: i64, rest: Seq<u8>)
    ensures
        parse_u16(ser_u16(a) + rest) == Some((a, 2int)),
        parse_u16_be(ser_u16_be(a) + rest) == Some((a, 2int)),
        parse_u32(ser_u32(b) + rest) == Some((b, 4int)),
        parse_u64(ser_u64(c) + rest) == Some((c, 8int)),
        parse_i32(ser_i32(d) + rest) == Some((d, 4int)),
        parse_i64(ser_i64(e) + rest) == Some((e, 8int)),
{
    lemma_ser_values(a, b, c, d, e);
    assert((ser_u16(a) + rest).take(2) =~= ser_u16(a));
    assert((ser_u16_be(a) + rest).take(2) =~= ser_u16_be(a));
    assert((ser_u32(b) + rest).take(4) =~= ser_u32(b));
    assert((ser_u64(c) + rest).take(8) =~= ser_u64(c));
    assert((ser_i32(d) + rest).take(4) =~= ser_i32(d));
    assert((ser_i64(e) + rest).take(8) =~= ser_i64(e));
}

} // verus!

verus! {

/// The big-endian `u16` at `off` in `b`.
pub fn u16_be_at(b: &[u8], off: usize) -> (r: u16)
    requires off + 2 <= b@.len(),
    ensures r as nat == be_value(b@.subrange(off as int, off + 2)),
{
    let a = [b[off], b[off + 1]];
    assert(a@ =~= b@.subrange(off as int, off + 2));
    u16_from_be(a)
}

impl ByteReader {
    /// Reads a record of `n` bytes.
    pub fn read_record(&mut self, n: usize) -> (res: Result<Vec<u8>, Error>)
        requires n > 0,
        ensures
            final(self).data@ == old(self).data@,
            match res {
                Ok(v) => v@.len() == n && old(self).remaining().len() >= n
                    && v@ == old(self).remaining().take(n as int) && final(self).pos == old(self).pos + n,
                Err(e) => old(self).remaining().len() < n && e == Error::Io(IoErrorKind::UnexpectedEof),
            },
    {
        self.read_bytes(n)
    }
}

} // verus!

verus! {

/// A string that an FString holds exactly: no trailing NUL, and short enough for the length prefix.
pub open spec fn fstring_keeps(t: Seq<char>) -> bool {
    &&& (t.len() == 0 || t.last() != '\0')
    &&& t.len() < 0x10000
}

/// Grouping the bytes of code units gives back the code units.
pub proof fn lemma_units_of_bytes(x: Seq<u16>)
    ensures
        units_bytes(x).len() == 2 * x.len(),
        units_of(units_bytes(x)) == x,
    decreases x.len(),
{
    if x.len() > 0 {
        let p = x.drop_last();
        lemma_units_of_bytes(p);
        lemma_ser_values(x.last(), 0, 0, 0, 0);
        let b = units_bytes(x);
        let bp = units_bytes(p);
        assert(b == bp + ser_u16(x.last()));
        assert forall|i: int| 0 <= i < x.len() implies #[trigger] units_of(b)[i] == x[i] by {
            if i < p.len() {
                assert(b.subrange(2 * i, 2 * i + 2) =~= bp.subrange(2 * i, 2 * i + 2));
                assert(units_of(bp)[i] == p[i]);
            } else {
                assert(b.subrange(2 * i, 2 * i + 2) =~= ser_u16(x.last()));
            }
        }
        assert(units_of(b) =~= x);
    }
}

proof fn lemma_strip_bytes(e: Seq<u8>)
    requires e.len() == 0 || e.last() != 0,
    ensures strip_zero_bytes(e.push(0)) == e,
{
    assert(e.push(0).drop_last() =~= e);
    assert(strip_zero_bytes(e) == e);
    assert(strip_zero_bytes(e.push(0)) == strip_zero_bytes(e.push(0).drop_last()));
}

proof fn lemma_strip_units(e: Seq<u16>)
    requires e.len() == 0 || e.last() != 0,
    ensures strip_zero_units(e.push(0)) == e,
{
    assert(e.push(0).drop_last() =~= e);
    assert(strip_zero_units(e) == e);
    assert(strip_zero_units(e.push(0)) == strip_zero_units(e.push(0).drop_last()));
}

/// The UTF-16 encoding of a string that does not end in NUL does not end in a zero unit.
proof fn lemma_utf16_last_nonzero(t: Seq<char>)
    requires t.len() > 0, t.last() != '\0',
    ensures utf16_encode(t).len() > 0, utf16_encode(t).last() != 0,
{
    let c = t.last();
    vstd::utf8::char_is_scalar(c);
    vstd::utf8::char_u32_cast(c, c as u32);
    assert(utf16_encode(t) == utf16_encode(t.drop_last()) + utf16_units_of(c));
    if (c as u32) < 0x10000 {
        assert((c as u32) != 0);
    }
}

/// Reading back the encoding of an FString gives the string, whatever follows.
pub proof fn lemma_fstring_roundtrip(t: Option<Seq<char>>, rest: Seq<u8>)
    requires t matches Some(x) ==> fstring_keeps(x),
    ensures parse_fstring(ser_fstring(t) + rest) == Some((t, ser_fstring(t).len() as int)),
{
    let s = ser_fstring(t) + rest;
    match t {
        None => {
            lemma_parse_ints(0, 0, 0, 0, 0, rest);
            lemma_ser_values(0, 0, 0, 0, 0);
        },
        Some(x) => {
            if needs_utf16(x) {
                let u = utf16_encode(x);
                lemma_utf16_encode_len(x);
                let len = -(u.len() + 1) as i32;
                let body = units_bytes(u) + ser_u16(0);
                lemma_parse_ints(0, 0, 0, len, 0, body + rest);
                lemma_ser_values(0, 0, 0, len, 0);
                assert(s =~= ser_i32(len) + (body + rest));
                assert(s.skip(4) =~= body + rest);
                assert(units_bytes(u.push(0)) == units_bytes(u) + ser_u16(0)) by {
                    assert(u.push(0).drop_last() =~= u);
                }
                lemma_units_of_bytes(u.push(0));
                assert((body + rest).take(-2 * len) =~= body);
                if x.len() > 0 {
                    lemma_utf16_last_nonzero(x);
                }
                lemma_strip_units(u);
                lemma_utf16_roundtrip(x);
            } else {
                let e = encode_utf8(x);
                lemma_ascii_bytes_len(x);
                let len = (x.len() + 1) as i32;
                let body = e + seq![0u8];
                lemma_parse_ints(0, 0, 0, len, 0, body + rest);
                lemma_ser_values(0, 0, 0, len, 0);
                assert(s =~= ser_i32(len) + (body + rest));
                assert(s.skip(4) =~= body + rest);
                assert((body + rest).take(len as int) =~= e.push(0));
                if x.len() > 0 {
                    is_ascii_chars_encode_utf8(x);
                    assert(x[x.len() - 1] as u8 == e[x.len() - 1]);
                    assert(x.last() != '\0');
                    assert((x.last() as u32) < 0x80);
                }
                lemma_strip_bytes(e);
                encode_utf8_valid_utf8(x);
                encode_utf8_decode_utf8(x);
            }
        },
    }
}

} // verus!

verus! {

/// `n` values, each read by `f` right after the previous one.
pub open spec fn parse_repeat<T>(s: Seq<u8>, n: nat, f: spec_fn(Seq<u8>) -> Option<(T, int)>) -> Option<(Seq<T>, int)>
    decreases n,
{
    if n == 0 {
        Some((Seq::empty(), 0))
    } else {
        match parse_repeat(s, (n - 1) as nat, f) {
            Some((v, k)) => match f(rest(s, k)) {
                Some((x, m)) => Some((v.push(x), k + m)),
                None => None,
            },
            None => None,
        }
    }
}

/// The encodings of `items`, one after the other.
pub open spec fn ser_repeat<T>(items: Seq<T>, g: spec_fn(T) -> Seq<u8>) -> Seq<u8>
    decreases items.len(),
{
    if items.len() == 0 { Seq::empty() } else { ser_repeat(items.drop_last(), g) + g(items.last()) }
}

/// Reading back a sequence of encodings gives the items, when reading back each one does.
pub proof fn lemma_repeat_roundtrip<T>(
    items: Seq<T>,
    f: spec_fn(Seq<u8>) -> Option<(T, int)>,
    g: spec_fn(T) -> Seq<u8>,
    rest_bytes: Seq<u8>,
)
    requires
        forall|i: int, r: Seq<u8>| 0 <= i < items.len() ==> #[trigger] f(g(items[i]) + r) == Some((items[i], g(items[i]).len() as int)),
    ensures
        parse_repeat(ser_repeat(items, g) + rest_bytes, items.len(), f) == Some((items, ser_repeat(items, g).len() as int)),
    decreases items.len(),
{
    if items.len() > 0 {
        let p = items.drop_last();
        let x = items.last();
        assert forall|i: int, r: Seq<u8>| 0 <= i < p.len() implies #[trigger] f(g(p[i]) + r) == Some((p[i], g(p[i]).len() as int)) by {
            assert(p[i] == items[i]);
            assert(f(g(items[i]) + r) == Some((items[i], g(items[i]).len() as int)));
        }
        lemma_repeat_roundtrip(p, f, g, g(x) + rest_bytes);
        let sp = ser_repeat(p, g);
        let s = ser_repeat(items, g) + rest_bytes;
        assert(s =~= sp + (g(x) + rest_bytes));
        assert(rest(s, sp.len() as int) =~= g(x) + rest_bytes);
        assert(f(g(items[items.len() - 1]) + rest_bytes) == Some((x, g(x).len() as int)));
        assert(p.push(x) =~= items);
    }
}

/// Reading `n` more values with `f` extends what `parse_repeat` read.
pub proof fn lemma_repeat_step<T>(s: Seq<u8>, n: nat, f: spec_fn(Seq<u8>) -> Option<(T, int)>)
    requires n > 0,
    ensures parse_repeat(s, n, f) == match parse_repeat(s, (n - 1) as nat, f) {
        Some((v, k)) => match f(rest(s, k)) {
            Some((x, m)) => Some((v.push(x), k + m)),
            None => None,
        },
        None => None,
    },
{
}

} // verus!

verus! {

/// After a read of `k` bytes, what is left is what was left, without its first `k` bytes.
pub proof fn lemma_advance(r0: ByteReader, r1: ByteReader)
    requires
        r1.data@ == r0.data@,
        r0.pos <= r1.pos,
        r1.pos - r0.pos <= r0.remaining().len(),
    ensures
        r1.remaining() == rest(r0.remaining(), r1.pos - r0.pos),
{
    if r0.pos <= r0.data@.len() {
        assert(r1.remaining() =~= rest(r0.remaining(), r1.pos - r0.pos));
    } else {
        assert(r1.pos == r0.pos);
        assert(r1.remaining() =~= rest(r0.remaining(), 0));
    }
}

/// Once a sequence of reads fails, reading more values fails too.
pub proof fn lemma_repeat_none<T>(s: Seq<u8>, i: nat, n: nat, f: spec_fn(Seq<u8>) -> Option<(T, int)>)
    requires i <= n, parse_repeat(s, i, f) is None,
    ensures parse_repeat(s, n, f) is None,
    decreases n - i,
{
    if i < n {
        lemma_repeat_none(s, i + 1, n, f);
    }
}

} // verus!

verus! {

/// A value that the byte reader and writer move as one encoded record.
pub trait Record: Sized {
    /// What an encoding holds of a value.
    type Model;

    /// What the encoding of `v` holds.
    spec fn model(v: Self) -> Self::Model;

    /// The record at the start of `s`, and the number of bytes it takes.
    spec fn parse_model(s: Seq<u8>) -> Option<(Self::Model, int)>;

    /// The encoding of a record.
    spec fn ser_model(m: Self::Model) -> Seq<u8>;

    /// Reads one record.
    fn read_from(reader: &mut ByteReader) -> (res: Result<Self, Error>)
        ensures
            final(reader).data@ == old(reader).data@,
            match res {
                Ok(v) => Self::parse_model(old(reader).remaining()) == Some((Self::model(v), final(reader).pos - old(reader).pos))
                    && old(reader).pos <= final(reader).pos
                    && final(reader).pos - old(reader).pos <= old(reader).remaining().len(),
                Err(_) => Self::parse_model(old(reader).remaining()) is None,
            };

    /// Writes one record.
    fn write_to(&self, writer: &mut ByteWriter)
        ensures final(writer).data@ == old(writer).data@ + Self::ser_model(Self::model(*self));
}

/// The parser of a record type, as a function value.
pub open spec fn record_parser<T: Record>() -> spec_fn(Seq<u8>) -> Option<(T::Model, int)> {
    |s: Seq<u8>| T::parse_model(s)
}

/// The encoder of a record type, as a function value.
pub open spec fn record_writer<T: Record>() -> spec_fn(T::Model) -> Seq<u8> {
    |m: T::Model| T::ser_model(m)
}

/// What the encodings of `v` hold.
pub open spec fn models<T: Record>(v: Seq<T>) -> Seq<T::Model> {
    v.map_values(|x: T| T::model(x))
}

impl Record for i32 {
    type Model = i32;

    open spec fn model(v: i32) -> i32 { v }

    open spec fn parse_model(s: Seq<u8>) -> Option<(i32, int)> { parse_i32(s) }

    open spec fn ser_model(m: i32) -> Seq<u8> { ser_i32(m) }

    fn read_from(reader: &mut ByteReader) -> (res: Result<i32, Error>) {
        reader.read_i32()
    }

    fn write_to(&self, writer: &mut ByteWriter) {
        writer.write_i32(*self);
    }
}

impl Record for u32 {
    type Model = u32;

    open spec fn model(v: u32) -> u32 { v }

    open spec fn parse_model(s: Seq<u8>) -> Option<(u32, int)> { parse_u32(s) }

    open spec fn ser_model(m: u32) -> Seq<u8> { ser_u32(m) }

    fn read_from(reader: &mut ByteReader) -> (res: Result<u32, Error>) {
        reader.read_u32()
    }

    fn write_to(&self, writer: &mut ByteWriter) {
        writer.write_u32(*self);
    }
}

impl Record for u64 {
    type Model = u64;

    open spec fn model(v: u64) -> u64 { v }

    open spec fn parse_model(s: Seq<u8>) -> Option<(u64, int)> { parse_u64(s) }

    open spec fn ser_model(m: u64) -> Seq<u8> { ser_u64(m) }

    fn read_from(reader: &mut ByteReader) -> (res: Result<u64, Error>) {
        reader.read_u64()
    }

    fn write_to(&self, writer: &mut ByteWriter) {
        writer.write_u64(*self);
    }
}

/// Reads `n` records, one after the other.
pub fn read_repeat<T: Record>(reader: &mut ByteReader, n: u32) -> (res: Result<Vec<T>, Error>)
    ensures
        final(reader).data@ == old(reader).data@,
        match res {
            Ok(v) => parse_repeat(old(reader).remaining(), n as nat, record_parser::<T>())
                == Some((models(v@), final(reader).pos - old(reader).pos))
                && old(reader).pos <= final(reader).pos
                && final(reader).pos - old(reader).pos <= old(reader).remaining().len(),
            Err(_) => parse_repeat(old(reader).remaining(), n as nat, record_parser::<T>()) is None,
        },
{
    let ghost s = old(reader).remaining();
    let ghost p0 = reader.pos;
    let mut v: Vec<T> = Vec::new();
    let mut i: u32 = 0;
    proof {
        assert(models(v@) =~= Seq::<T::Model>::empty());
        assert(rest(s, 0) =~= s);
        assert(reader.remaining() =~= s);
    }
    while i < n
        invariant
            reader.data@ == old(reader).data@,
            i <= n,
            p0 == old(reader).pos,
            s == old(reader).remaining(),
            p0 <= reader.pos,
            reader.pos - p0 <= s.len(),
            parse_repeat(s, i as nat, record_parser::<T>()) == Some((models(v@), reader.pos - p0)),
            reader.remaining() == rest(s, reader.pos - p0),
        decreases n - i,
    {
        let ghost r0 = *reader;
        let ghost k = reader.pos - p0;
        let x = match T::read_from(reader) {
            Ok(x) => x,
            Err(e) => {
                proof {
                    lemma_repeat_step(s, (i + 1) as nat, record_parser::<T>());
                    assert((i + 1) as nat - 1 == i as nat);
                    lemma_repeat_none(s, (i + 1) as nat, n as nat, record_parser::<T>());
                }
                return Err(e);
            },
        };
        proof {
            lemma_advance(r0, *reader);
            lemma_repeat_step(s, (i + 1) as nat, record_parser::<T>());
            assert((i + 1) as nat - 1 == i as nat);
            assert(rest(rest(s, k), reader.pos - r0.pos) =~= rest(s, reader.pos - p0));
        }
        let ghost before = v@;
        v.push(x);
        proof {
            assert(models(v@) =~= models(before).push(T::model(x)));
        }
        i = i + 1;
    }
    Ok(v)
}

/// Writes the records of `items`, one after the other.
pub fn write_repeat<T: Record>(items: &Vec<T>, writer: &mut ByteWriter)
    ensures final(writer).data@ == old(writer).data@ + ser_repeat(models(items@), record_writer::<T>()),
{
    let mut i: usize = 0;
    proof {
        assert(models(items@.take(0)) =~= Seq::<T::Model>::empty());
        assert(writer.data@ =~= old(writer).data@ + ser_repeat(models(items@.take(0)), record_writer::<T>()));
    }
    while i < items.len()
        invariant
            i <= items.len(),
            writer.data@ == old(writer).data@ + ser_repeat(models(items@.take(i as int)), record_writer::<T>()),
        decreases items.len() - i,
    {
        let ghost d0 = writer.data@;
        items[i].write_to(writer);
        proof {
            let m = models(items@.take(i + 1));
            assert(m.drop_last() =~= models(items@.take(i as int)));
            assert(m.last() == T::model(items@[i as int]));
            assert(writer.data@ =~= old(writer).data@ + ser_repeat(m, record_writer::<T>()));
        }
        i = i + 1;
    }
    assert(items@.take(items.len() as int) =~= items@);
}

} // verus!
