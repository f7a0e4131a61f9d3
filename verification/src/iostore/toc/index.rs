//! .utoc directory index

use vstd::prelude::*;
use crate::archive::{ByteReader, ByteWriter, stepped, rest, lemma_advance, lemma_repeat_none, parse_i32, parse_fstring, ser_fstring, ser_i32, ser_u32,
    parse_repeat, ser_repeat, opt_chars, fstring_keeps, u32_at, lemma_ser_values, lemma_parse_ints,
    lemma_repeat_roundtrip, lemma_fstring_roundtrip};
use crate::bytes::le_value;
use crate::error::Error;

verus! {

/// The 32-bit little-endian value at `off` in `b`.
pub open spec fn u32_in(b: Seq<u8>, off: int) -> u32 {
    le_value(b.subrange(off, off + 4)) as u32
}

/// IoStore .utoc directory index entry
#[derive(Debug, Clone, Copy, PartialEq, Eq, Hash, Structural)]
pub struct IoStoreDirectoryIndexEntry {
    /// Name
    pub name: u32,
    /// First child entry
    pub first_child_entry: u32,
    /// Next sibling entry
    pub next_sibling_entry: u32,
    /// First file entry
    pub first_file_entry: u32,
}

impl IoStoreDirectoryIndexEntry {
    /// The entry at the start of `s`: four little-endian `u32`s.
    pub open spec fn spec_parse(s: Seq<u8>) -> Option<(Self, int)> {
        if s.len() >= 16 {
            Some((IoStoreDirectoryIndexEntry {
                name: u32_in(s, 0),
                first_child_entry: u32_in(s, 4),
                next_sibling_entry: u32_in(s, 8),
                first_file_entry: u32_in(s, 12),
            }, 16))
        } else {
            None
        }
    }

    /// The encoding of the entry.
    pub open spec fn spec_ser(self) -> Seq<u8> {
        ser_u32(self.name) + ser_u32(self.first_child_entry) + ser_u32(self.next_sibling_entry)
            + ser_u32(self.first_file_entry)
    }

    /// Read `IoStoreDirectoryIndexEntry` from a reader
    pub fn read(reader: &mut ByteReader) -> (res: Result<Self, Error>)
        ensures stepped(*old(reader), *final(reader), res, Self::spec_parse(old(reader).remaining())),
    {
        let b = reader.read_record(16)?;
        let e = IoStoreDirectoryIndexEntry {
            name: u32_at(b.as_slice(), 0),
            first_child_entry: u32_at(b.as_slice(), 4),
            next_sibling_entry: u32_at(b.as_slice(), 8),
            first_file_entry: u32_at(b.as_slice(), 12),
        };
        proof {
            let s = old(reader).remaining();
            assert(b@.subrange(0, 4) =~= s.subrange(0, 4));
            assert(b@.subrange(4, 8) =~= s.subrange(4, 8));
            assert(b@.subrange(8, 12) =~= s.subrange(8, 12));
            assert(b@.subrange(12, 16) =~= s.subrange(12, 16));
        }
        Ok(e)
    }

    /// Write IoStoreDirectoryIndexEntry` to a writer
    pub fn write(&self, writer: &mut ByteWriter) -> (res: Result<(), Error>)
        ensures res is Ok, final(writer).data@ == old(writer).data@ + self.spec_ser(),
    {
        writer.write_u32(self.name);
        writer.write_u32(self.first_child_entry);
        writer.write_u32(self.next_sibling_entry);
        writer.write_u32(self.first_file_entry);
        assert(final(writer).data@ =~= old(writer).data@ + self.spec_ser());
        Ok(())
    }

    /// Reading back the encoding of an entry gives the entry.
    pub proof fn lemma_roundtrip(self, r: Seq<u8>)
        ensures
            self.spec_ser().len() == 16,
            Self::spec_parse(self.spec_ser() + r) == Some((self, 16int)),
    {
        let s = self.spec_ser() + r;
        lemma_ser_values(0, self.name, 0, 0, 0);
        lemma_ser_values(0, self.first_child_entry, 0, 0, 0);
        lemma_ser_values(0, self.next_sibling_entry, 0, 0, 0);
        lemma_ser_values(0, self.first_file_entry, 0, 0, 0);
        assert(s.subrange(0, 4) =~= ser_u32(self.name));
        assert(s.subrange(4, 8) =~= ser_u32(self.first_child_entry));
        assert(s.subrange(8, 12) =~= ser_u32(self.next_sibling_entry));
        assert(s.subrange(12, 16) =~= ser_u32(self.first_file_entry));
    }
}

/// IoStore .utoc file index entry
#[derive(Debug, Clone, Copy, PartialEq, Eq, Hash, Structural)]
pub struct IoStoreFileIndexEntry {
    /// Name
    pub name: u32,
    /// Next file entry
    pub next_file_entry: u32,
    /// User data
    pub user_data: u32,
}

impl IoStoreFileIndexEntry {
    /// The entry at the start of `s`: three little-endian `u32`s.
    pub open spec fn spec_parse(s: Seq<u8>) -> Option<(Self, int)> {
        if s.len() >= 12 {
            Some((IoStoreFileIndexEntry {
                name: u32_in(s, 0),
                next_file_entry: u32_in(s, 4),
                user_data: u32_in(s, 8),
            }, 12))
        } else {
            None
        }
    }

    /// The encoding of the entry.
    pub open spec fn spec_ser(self) -> Seq<u8> {
        ser_u32(self.name) + ser_u32(self.next_file_entry) + ser_u32(self.user_data)
    }

    /// Read `IoStoreFileIndexEntry` from a reader
    pub fn read(reader: &mut ByteReader) -> (res: Result<Self, Error>)
        ensures stepped(*old(reader), *final(reader), res, Self::spec_parse(old(reader).remaining())),
    {
        let b = reader.read_record(12)?;
        let e = IoStoreFileIndexEntry {
            name: u32_at(b.as_slice(), 0),
            next_file_entry: u32_at(b.as_slice(), 4),
            user_data: u32_at(b.as_slice(), 8),
        };
        proof {
            let s = old(reader).remaining();
            assert(b@.subrange(0, 4) =~= s.subrange(0, 4));
            assert(b@.subrange(4, 8) =~= s.subrange(4, 8));
            assert(b@.subrange(8, 12) =~= s.subrange(8, 12));
        }
        Ok(e)
    }

    /// Write `IoStoreFileIndexEntry` to a writer
    pub fn write(&self, writer: &mut ByteWriter) -> (res: Result<(), Error>)
        ensures res is Ok, final(writer).data@ == old(writer).data@ + self.spec_ser(),
    {
        writer.write_u32(self.name);
        writer.write_u32(self.next_file_entry);
        writer.write_u32(self.user_data);
        assert(final(writer).data@ =~= old(writer).data@ + self.spec_ser());
        Ok(())
    }

    /// Reading back the encoding of an entry gives the entry.
    pub proof fn lemma_roundtrip(self, r: Seq<u8>)
        ensures
            self.spec_ser().len() == 12,
            Self::spec_parse(self.spec_ser() + r) == Some((self, 12int)),
    {
        let s = self.spec_ser() + r;
        lemma_ser_values(0, self.name, 0, 0, 0);
        lemma_ser_values(0, self.next_file_entry, 0, 0, 0);
        lemma_ser_values(0, self.user_data, 0, 0, 0);
        assert(s.subrange(0, 4) =~= ser_u32(self.name));
        assert(s.subrange(4, 8) =~= ser_u32(self.next_file_entry));
        assert(s.subrange(8, 12) =~= ser_u32(self.user_data));
    }
}

/// What a directory index holds, with its strings as character sequences.
pub struct DirectoryIndexView {
    /// Mount point
    pub mount_point: Option<Seq<char>>,
    /// Directory entries
    pub directory_entries: Seq<IoStoreDirectoryIndexEntry>,
    /// File entries
    pub file_entries: Seq<IoStoreFileIndexEntry>,
    /// String table
    pub string_table: Seq<Option<Seq<char>>>,
}

/// IoStore .utoc directory index
#[derive(Debug, Clone, PartialEq, Eq, Hash)]
pub struct IoStoreDirectoryIndex {
    /// Mount point
    pub mount_point: Option<String>,
    /// Directory entries
    pub directory_entries: Vec<IoStoreDirectoryIndexEntry>,
    /// File entries
    pub file_entries: Vec<IoStoreFileIndexEntry>,
    /// String table
    pub string_table: Vec<Option<String>>,
}

/// A count followed by that many values read by `f`; a negative count reads nothing and fails.
pub open spec fn parse_counted<T>(s: Seq<u8>, f: spec_fn(Seq<u8>) -> Option<(T, int)>) -> Option<(Seq<T>, int)> {
    match parse_i32(s) {
        Some((n, _)) => if n < 0 {
            None
        } else {
            match parse_repeat(rest(s, 4), n as nat, f) {
                Some((v, k)) => Some((v, 4 + k)),
                None => None,
            }
        },
        _ => None,
    }
}

/// A count and the encodings of `items`.
pub open spec fn ser_counted<T>(items: Seq<T>, g: spec_fn(T) -> Seq<u8>) -> Seq<u8> {
    ser_i32(items.len() as i32) + ser_repeat(items, g)
}

pub open spec fn parse_dir_entry(s: Seq<u8>) -> Option<(IoStoreDirectoryIndexEntry, int)> {
    IoStoreDirectoryIndexEntry::spec_parse(s)
}

pub open spec fn parse_file_entry(s: Seq<u8>) -> Option<(IoStoreFileIndexEntry, int)> {
    IoStoreFileIndexEntry::spec_parse(s)
}

pub open spec fn dir_entry_parser() -> spec_fn(Seq<u8>) -> Option<(IoStoreDirectoryIndexEntry, int)> {
    |b: Seq<u8>| parse_dir_entry(b)
}

pub open spec fn file_entry_parser() -> spec_fn(Seq<u8>) -> Option<(IoStoreFileIndexEntry, int)> {
    |b: Seq<u8>| parse_file_entry(b)
}

pub open spec fn fstring_parser() -> spec_fn(Seq<u8>) -> Option<(Option<Seq<char>>, int)> {
    |b: Seq<u8>| parse_fstring(b)
}

pub open spec fn dir_entry_writer() -> spec_fn(IoStoreDirectoryIndexEntry) -> Seq<u8> {
    |e: IoStoreDirectoryIndexEntry| ser_dir_entry(e)
}

pub open spec fn file_entry_writer() -> spec_fn(IoStoreFileIndexEntry) -> Seq<u8> {
    |e: IoStoreFileIndexEntry| ser_file_entry(e)
}

pub open spec fn fstring_writer() -> spec_fn(Option<Seq<char>>) -> Seq<u8> {
    |t: Option<Seq<char>>| ser_fstring(t)
}

pub open spec fn ser_dir_entry(e: IoStoreDirectoryIndexEntry) -> Seq<u8> {
    e.spec_ser()
}

pub open spec fn ser_file_entry(e: IoStoreFileIndexEntry) -> Seq<u8> {
    e.spec_ser()
}

impl IoStoreDirectoryIndex {
    /// Root file index
    pub const ROOT_INDEX: u32 = 0;
    /// Invalid file index
    pub const INVALID_INDEX: u32 = 0xffff_ffff;

    /// The contents with strings as character sequences.
    pub open spec fn view(&self) -> DirectoryIndexView {
        DirectoryIndexView {
            mount_point: opt_chars(self.mount_point),
            directory_entries: self.directory_entries@,
            file_entries: self.file_entries@,
            string_table: self.string_table@.map_values(|o: Option<String>| opt_chars(o)),
        }
    }

    /// The directory index at the start of `s`: a mount point FString, then counted directory
    /// entries, file entries and FStrings.
    pub open spec fn spec_parse(s: Seq<u8>) -> Option<(DirectoryIndexView, int)> {
        match parse_fstring(s) {
            Some((mount_point, k1)) => match parse_counted(rest(s, k1), dir_entry_parser()) {
                Some((dirs, k2)) => match parse_counted(rest(s, k1 + k2), file_entry_parser()) {
                    Some((files, k3)) => match parse_counted(rest(s, k1 + k2 + k3), fstring_parser()) {
                        Some((strings, k4)) => Some((DirectoryIndexView {
                            mount_point,
                            directory_entries: dirs,
                            file_entries: files,
                            string_table: strings,
                        }, k1 + k2 + k3 + k4)),
                        None => None,
                    },
                    None => None,
                },
                None => None,
            },
            None => None,
        }
    }


    /// Reads a count, then that many values.
    fn read_directory_entries(reader: &mut ByteReader) -> (res: Result<Vec<IoStoreDirectoryIndexEntry>, Error>)
        ensures
            final(reader).data@ == old(reader).data@,
            match res {
                Ok(v) => parse_counted(old(reader).remaining(), dir_entry_parser())
                    == Some((v@, final(reader).pos - old(reader).pos)),
                Err(_) => parse_counted(old(reader).remaining(), dir_entry_parser()) is None,
            },
    {
        let ghost s = old(reader).remaining();
        
        let n = reader.read_i32()?;
        if n < 0 {
            return Err(Error::invalid_file(String::from_str("negative count")));
        }
        proof { lemma_advance(*old(reader), *reader); }
        let ghost s2 = reader.remaining();
        let ghost p1 = reader.pos;
        let mut v: Vec<IoStoreDirectoryIndexEntry> = Vec::new();
        let mut i: i32 = 0;
        while i < n
            invariant
                reader.data@ == old(reader).data@,
                0 <= i <= n,
                p1 <= reader.pos,
                reader.pos - p1 <= s2.len(),
                s2 == rest(s, 4),
                s == old(reader).remaining(),
                parse_i32(s) == Some((n, 4int)),
                parse_repeat(s2, i as nat, dir_entry_parser()) == Some((v@, reader.pos - p1)),
                reader.remaining() == rest(s2, reader.pos - p1),
                p1 == old(reader).pos + 4,
            decreases n - i,
        {
            let ghost r0 = *reader;
            let ghost k = reader.pos - p1;
            let x = match IoStoreDirectoryIndexEntry::read(reader) {
                Ok(x) => x,
                Err(e) => {
                    proof {
                        crate::archive::lemma_repeat_step(s2, (i + 1) as nat, dir_entry_parser());
                        assert((i + 1) as nat - 1 == i as nat);
                        lemma_repeat_none(s2, (i + 1) as nat, n as nat, dir_entry_parser());
                        assert(parse_repeat(rest(s, 4), n as nat, dir_entry_parser()) is None);
                        assert(parse_counted(s, dir_entry_parser()) is None);
                    }
                    return Err(e);
                },
            };
            proof {
                lemma_advance(r0, *reader);
                assert(rest(s2, k).len() == s2.len() - k);
                crate::archive::lemma_repeat_step(s2, (i + 1) as nat, dir_entry_parser());
                assert((i + 1) as nat - 1 == i as nat);
                assert(rest(rest(s2, k), reader.pos - r0.pos) =~= rest(s2, reader.pos - p1));
            }
            let ghost before = v@;
            v.push(x);
            proof {
                assert(v@ =~= before.push(x));
            }
            i = i + 1;
        }
        Ok(v)
    }

    /// Reads a count, then that many values.
    fn read_file_entries(reader: &mut ByteReader) -> (res: Result<Vec<IoStoreFileIndexEntry>, Error>)
        ensures
            final(reader).data@ == old(reader).data@,
            match res {
                Ok(v) => parse_counted(old(reader).remaining(), file_entry_parser())
                    == Some((v@, final(reader).pos - old(reader).pos)),
                Err(_) => parse_counted(old(reader).remaining(), file_entry_parser()) is None,
            },
    {
        let ghost s = old(reader).remaining();
        
        let n = reader.read_i32()?;
        if n < 0 {
            return Err(Error::invalid_file(String::from_str("negative count")));
        }
        proof { lemma_advance(*old(reader), *reader); }
        let ghost s2 = reader.remaining();
        let ghost p1 = reader.pos;
        let mut v: Vec<IoStoreFileIndexEntry> = Vec::new();
        let mut i: i32 = 0;
        while i < n
            invariant
                reader.data@ == old(reader).data@,
                0 <= i <= n,
                p1 <= reader.pos,
                reader.pos - p1 <= s2.len(),
                s2 == rest(s, 4),
                s == old(reader).remaining(),
                parse_i32(s) == Some((n, 4int)),
                parse_repeat(s2, i as nat, file_entry_parser()) == Some((v@, reader.pos - p1)),
                reader.remaining() == rest(s2, reader.pos - p1),
                p1 == old(reader).pos + 4,
            decreases n - i,
        {
            let ghost r0 = *reader;
            let ghost k = reader.pos - p1;
            let x = match IoStoreFileIndexEntry::read(reader) {
                Ok(x) => x,
                Err(e) => {
                    proof {
                        crate::archive::lemma_repeat_step(s2, (i + 1) as nat, file_entry_parser());
                        assert((i + 1) as nat - 1 == i as nat);
                        lemma_repeat_none(s2, (i + 1) as nat, n as nat, file_entry_parser());
                        assert(parse_repeat(rest(s, 4), n as nat, file_entry_parser()) is None);
                        assert(parse_counted(s, file_entry_parser()) is None);
                    }
                    return Err(e);
                },
            };
            proof {
                lemma_advance(r0, *reader);
                assert(rest(s2, k).len() == s2.len() - k);
                crate::archive::lemma_repeat_step(s2, (i + 1) as nat, file_entry_parser());
                assert((i + 1) as nat - 1 == i as nat);
                assert(rest(rest(s2, k), reader.pos - r0.pos) =~= rest(s2, reader.pos - p1));
            }
            let ghost before = v@;
            v.push(x);
            proof {
                assert(v@ =~= before.push(x));
            }
            i = i + 1;
        }
        Ok(v)
    }

    /// Reads a count, then that many values.
    fn read_string_table(reader: &mut ByteReader) -> (res: Result<Vec<Option<String>>, Error>)
        ensures
            final(reader).data@ == old(reader).data@,
            match res {
                Ok(v) => parse_counted(old(reader).remaining(), fstring_parser())
                    == Some((v@.map_values(|o: Option<String>| opt_chars(o)), final(reader).pos - old(reader).pos)),
                Err(_) => parse_counted(old(reader).remaining(), fstring_parser()) is None,
            },
    {
        let ghost s = old(reader).remaining();
        
        let n = reader.read_i32()?;
        if n < 0 {
            return Err(Error::invalid_file(String::from_str("negative count")));
        }
        proof { lemma_advance(*old(reader), *reader); }
        let ghost s2 = reader.remaining();
        let ghost p1 = reader.pos;
        let mut v: Vec<Option<String>> = Vec::new();
        let mut i: i32 = 0;
        while i < n
            invariant
                reader.data@ == old(reader).data@,
                0 <= i <= n,
                p1 <= reader.pos,
                reader.pos - p1 <= s2.len(),
                s2 == rest(s, 4),
                s == old(reader).remaining(),
                parse_i32(s) == Some((n, 4int)),
                parse_repeat(s2, i as nat, fstring_parser()) == Some((v@.map_values(|o: Option<String>| opt_chars(o)), reader.pos - p1)),
                reader.remaining() == rest(s2, reader.pos - p1),
                p1 == old(reader).pos + 4,
            decreases n - i,
        {
            let ghost r0 = *reader;
            let ghost k = reader.pos - p1;
            let x = match reader.read_fstring() {
                Ok(x) => x,
                Err(e) => {
                    proof {
                        crate::archive::lemma_repeat_step(s2, (i + 1) as nat, fstring_parser());
                        assert((i + 1) as nat - 1 == i as nat);
                        lemma_repeat_none(s2, (i + 1) as nat, n as nat, fstring_parser());
                        assert(parse_repeat(rest(s, 4), n as nat, fstring_parser()) is None);
                        assert(parse_counted(s, fstring_parser()) is None);
                    }
                    return Err(e);
                },
            };
            proof {
                lemma_advance(r0, *reader);
                assert(rest(s2, k).len() == s2.len() - k);
                crate::archive::lemma_repeat_step(s2, (i + 1) as nat, fstring_parser());
                assert((i + 1) as nat - 1 == i as nat);
                assert(rest(rest(s2, k), reader.pos - r0.pos) =~= rest(s2, reader.pos - p1));
            }
            let ghost before = v@.map_values(|o: Option<String>| opt_chars(o));
            v.push(x);
            proof {
                assert(v@.map_values(|o: Option<String>| opt_chars(o)) =~= before.push(opt_chars(x)));
            }
            i = i + 1;
        }
        Ok(v)
    }

    /// Read `IoStoreDirectoryIndex` from a reader
    #[verifier::spinoff_prover]
    #[verifier::rlimit(50)]
    pub fn read(reader: &mut ByteReader) -> (res: Result<Self, Error>)
        ensures
            final(reader).data@ == old(reader).data@,
            match res {
                Ok(d) => Self::spec_parse(old(reader).remaining()) == Some((d.view(), final(reader).pos - old(reader).pos)),
                Err(_) => Self::spec_parse(old(reader).remaining()) is None,
            },
    {
        let ghost s = old(reader).remaining();
        let ghost r0 = *reader;
        let mount_point = reader.read_fstring()?;
        proof { lemma_advance(r0, *reader); }
        let ghost k1 = reader.pos - r0.pos;
        let ghost r1 = *reader;
        let directory_entries = Self::read_directory_entries(reader)?;
        proof {
            lemma_advance(r1, *reader);
            assert(rest(s, k1 + (reader.pos - r1.pos)) =~= rest(rest(s, k1), reader.pos - r1.pos));
        }
        let ghost k2 = reader.pos - r1.pos;
        let ghost r2 = *reader;
        let file_entries = Self::read_file_entries(reader)?;
        proof {
            lemma_advance(r2, *reader);
            assert(rest(s, k1 + k2 + (reader.pos - r2.pos)) =~= rest(rest(s, k1 + k2), reader.pos - r2.pos));
        }
        let ghost k3 = reader.pos - r2.pos;
        let ghost r3 = *reader;
        let string_table = Self::read_string_table(reader)?;
        Ok(IoStoreDirectoryIndex { mount_point, directory_entries, file_entries, string_table })
    }


    /// Writes a count, then the values.
    fn write_directory_entries(items: &Vec<IoStoreDirectoryIndexEntry>, writer: &mut ByteWriter)
        ensures final(writer).data@ == old(writer).data@ + ser_counted(items@, dir_entry_writer()),
    {
        writer.write_i32(items.len() as i32);
        let ghost d0 = writer.data@;
        let mut i: usize = 0;
        while i < items.len()
            invariant
                i <= items@.len(),
                d0 == old(writer).data@ + ser_i32(items@.len() as i32),
                writer.data@ == d0 + ser_repeat(items@.take(i as int), dir_entry_writer()),
            decreases items.len() - i,
        {
            let _ = items[i].write(writer);
            proof {
                let w = items@;
                assert(w.take(i + 1).drop_last() =~= w.take(i as int));
                assert(w.take(i + 1).last() == w[i as int]);
            }
            i = i + 1;
        }
        proof {
            let w = items@;
            assert(w.take(items@.len() as int) =~= w);
        }
    }

    /// Writes a count, then the values.
    fn write_file_entries(items: &Vec<IoStoreFileIndexEntry>, writer: &mut ByteWriter)
        ensures final(writer).data@ == old(writer).data@ + ser_counted(items@, file_entry_writer()),
    {
        writer.write_i32(items.len() as i32);
        let ghost d0 = writer.data@;
        let mut i: usize = 0;
        while i < items.len()
            invariant
                i <= items@.len(),
                d0 == old(writer).data@ + ser_i32(items@.len() as i32),
                writer.data@ == d0 + ser_repeat(items@.take(i as int), file_entry_writer()),
            decreases items.len() - i,
        {
            let _ = items[i].write(writer);
            proof {
                let w = items@;
                assert(w.take(i + 1).drop_last() =~= w.take(i as int));
                assert(w.take(i + 1).last() == w[i as int]);
            }
            i = i + 1;
        }
        proof {
            let w = items@;
            assert(w.take(items@.len() as int) =~= w);
        }
    }

    /// Writes a count, then the values.
    fn write_string_table(items: &Vec<Option<String>>, writer: &mut ByteWriter)
        requires
            forall|j: int| 0 <= j < items@.len() ==> (#[trigger] items@[j] matches Some(t) ==> t@.len() < 0x4000_0000),
        ensures final(writer).data@ == old(writer).data@ + ser_counted(items@.map_values(|o: Option<String>| opt_chars(o)), fstring_writer()),
    {
        writer.write_i32(items.len() as i32);
        let ghost d0 = writer.data@;
        let mut i: usize = 0;
        while i < items.len()
            invariant
                i <= items@.len(),
                d0 == old(writer).data@ + ser_i32(items@.len() as i32),
                writer.data@ == d0 + ser_repeat(items@.map_values(|o: Option<String>| opt_chars(o)).take(i as int), fstring_writer()),
                forall|j: int| 0 <= j < items@.len() ==> (#[trigger] items@[j] matches Some(t) ==> t@.len() < 0x4000_0000),
            decreases items.len() - i,
        {
            writer.write_fstring(match &items[i] { Some(t) => Some(t.as_str()), None => None });
            proof {
                let w = items@.map_values(|o: Option<String>| opt_chars(o));
                assert(w.take(i + 1).drop_last() =~= w.take(i as int));
                assert(w.take(i + 1).last() == w[i as int]);
            }
            i = i + 1;
        }
        proof {
            let w = items@.map_values(|o: Option<String>| opt_chars(o));
            assert(w.take(items@.len() as int) =~= w);
        }
    }

    /// Whether every string fits the length prefix of the writer.
    pub open spec fn strings_fit(&self) -> bool {
        &&& (self.mount_point matches Some(t) ==> t@.len() < 0x4000_0000)
        &&& forall|j: int| 0 <= j < self.string_table@.len() ==> (#[trigger] self.string_table@[j] matches Some(t) ==> t@.len() < 0x4000_0000)
    }

    /// Write `IoStoreDirectoryIndex` to a writer
    pub fn write(&self, writer: &mut ByteWriter) -> (res: Result<(), Error>)
        requires self.strings_fit(),
        ensures res is Ok, final(writer).data@ == old(writer).data@ + Self::spec_ser(self.view()),
    {
        writer.write_fstring(match &self.mount_point { Some(t) => Some(t.as_str()), None => None });
        Self::write_directory_entries(&self.directory_entries, writer);
        Self::write_file_entries(&self.file_entries, writer);
        Self::write_string_table(&self.string_table, writer);
        assert(final(writer).data@ =~= old(writer).data@ + Self::spec_ser(self.view()));
        Ok(())
    }

    /// The encoding of a directory index.
    pub open spec fn spec_ser(v: DirectoryIndexView) -> Seq<u8> {
        ser_fstring(v.mount_point)
            + ser_counted(v.directory_entries, dir_entry_writer())
            + ser_counted(v.file_entries, file_entry_writer())
            + ser_counted(v.string_table, fstring_writer())
    }
}

} // verus!

verus! {

/// Reading back a count and the encodings of items gives the items.
pub proof fn lemma_counted_roundtrip<T>(
    items: Seq<T>,
    f: spec_fn(Seq<u8>) -> Option<(T, int)>,
    g: spec_fn(T) -> Seq<u8>,
    r: Seq<u8>,
)
    requires
        items.len() <= 0x7fff_ffff,
        forall|i: int, q: Seq<u8>| 0 <= i < items.len() ==> #[trigger] f(g(items[i]) + q) == Some((items[i], g(items[i]).len() as int)),
    ensures
        parse_counted(ser_counted(items, g) + r, f) == Some((items, ser_counted(items, g).len() as int)),
{
    let body = ser_repeat(items, g) + r;
    lemma_parse_ints(0, 0, 0, items.len() as i32, 0, body);
    lemma_ser_values(0, 0, 0, items.len() as i32, 0);
    lemma_repeat_roundtrip(items, f, g, r);
    let s = ser_counted(items, g) + r;
    assert(s =~= ser_i32(items.len() as i32) + body);
    assert(rest(s, 4) =~= body);
}

impl IoStoreDirectoryIndex {
    /// Reading back the encoding of a directory index gives the index, when its strings
    /// have no trailing NUL and fit the length prefix, and its lists fit an `i32` count.
    #[verifier::spinoff_prover]
    #[verifier::rlimit(60)]
    pub proof fn lemma_roundtrip(v: DirectoryIndexView, r: Seq<u8>)
        requires
            v.mount_point matches Some(t) ==> fstring_keeps(t),
            forall|j: int| 0 <= j < v.string_table.len() ==> (#[trigger] v.string_table[j] matches Some(t) ==> fstring_keeps(t)),
            v.directory_entries.len() <= 0x7fff_ffff,
            v.file_entries.len() <= 0x7fff_ffff,
            v.string_table.len() <= 0x7fff_ffff,
        ensures
            Self::spec_parse(Self::spec_ser(v) + r) == Some((v, Self::spec_ser(v).len() as int)),
    {
        let a = ser_fstring(v.mount_point);
        let b = ser_counted(v.directory_entries, dir_entry_writer());
        let c = ser_counted(v.file_entries, file_entry_writer());
        let d = ser_counted(v.string_table, fstring_writer());
        let s = Self::spec_ser(v) + r;
        assert(s =~= a + (b + (c + (d + r))));
        lemma_fstring_roundtrip(v.mount_point, b + (c + (d + r)));
        assert forall|i: int, q: Seq<u8>| 0 <= i < v.directory_entries.len() implies
            #[trigger] dir_entry_parser()(dir_entry_writer()(v.directory_entries[i]) + q)
                == Some((v.directory_entries[i], dir_entry_writer()(v.directory_entries[i]).len() as int)) by {
            v.directory_entries[i].lemma_roundtrip(q);
        }
        lemma_counted_roundtrip(v.directory_entries, dir_entry_parser(), dir_entry_writer(), c + (d + r));
        assert forall|i: int, q: Seq<u8>| 0 <= i < v.file_entries.len() implies
            #[trigger] file_entry_parser()(file_entry_writer()(v.file_entries[i]) + q)
                == Some((v.file_entries[i], file_entry_writer()(v.file_entries[i]).len() as int)) by {
            v.file_entries[i].lemma_roundtrip(q);
        }
        lemma_counted_roundtrip(v.file_entries, file_entry_parser(), file_entry_writer(), d + r);
        assert forall|i: int, q: Seq<u8>| 0 <= i < v.string_table.len() implies
            #[trigger] fstring_parser()(fstring_writer()(v.string_table[i]) + q)
                == Some((v.string_table[i], fstring_writer()(v.string_table[i]).len() as int)) by {
            lemma_fstring_roundtrip(v.string_table[i], q);
        }
        lemma_counted_roundtrip(v.string_table, fstring_parser(), fstring_writer(), r);
        assert(rest(s, a.len() as int) =~= b + (c + (d + r)));
        assert(rest(s, (a.len() + b.len()) as int) =~= c + (d + r));
        assert(rest(s, (a.len() + b.len() + c.len()) as int) =~= d + r);
    }
}

} // verus!
