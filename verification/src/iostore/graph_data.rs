//! IoStore graph data

use vstd::prelude::*;
use crate::archive::{ByteReader, ByteWriter, Record, stepped, ser_i32, lemma_ser_values, rest, parse_i32, parse_repeat,
    record_parser, read_repeat, models, lemma_advance, lemma_repeat_step, lemma_repeat_none};
use crate::bytes::le_value;
use crate::error::Error;
use super::exports::EExportCommandType;

verus! {

/// The little-endian `i32` at `off` in `b`.
pub open spec fn i32_in(b: Seq<u8>, off: int) -> i32 {
    (le_value(b.subrange(off, off + 4)) as u32) as i32
}

/// IoStore internal graph arc
#[derive(Debug, Clone, Copy, PartialEq, Eq, Hash, Structural)]
pub struct FInternalArc {
    /// From (export bundle index)
    pub from: i32,
    /// To (export bundle index)
    pub to: i32,
}

impl FInternalArc {
    /// The arc at the start of `s`: two `i32`s.
    pub open spec fn spec_parse(s: Seq<u8>) -> Option<(Self, int)> {
        if s.len() >= 8 { Some((FInternalArc { from: i32_in(s, 0), to: i32_in(s, 4) }, 8)) } else { None }
    }

    /// The encoding of the arc.
    pub open spec fn spec_ser(self) -> Seq<u8> {
        ser_i32(self.from) + ser_i32(self.to)
    }

    /// Read `FInternalArc` from a reader
    pub fn read(reader: &mut ByteReader) -> (res: Result<Self, Error>)
        ensures stepped(*old(reader), *final(reader), res, Self::spec_parse(old(reader).remaining())),
    {
        let b = reader.read_record(8)?;
        let from = crate::archive::u32_at(b.as_slice(), 0) as i32;
        let to = crate::archive::u32_at(b.as_slice(), 4) as i32;
        proof {
            let rem = old(reader).remaining();
            assert(b@.subrange(0, 4) =~= rem.subrange(0, 4));
            assert(b@.subrange(4, 8) =~= rem.subrange(4, 8));
        }
        Ok(FInternalArc { from, to })
    }

    /// Write `FInternalArc` to a writer
    pub fn write(&self, writer: &mut ByteWriter) -> (res: Result<(), Error>)
        ensures res is Ok, final(writer).data@ == old(writer).data@ + self.spec_ser(),
    {
        writer.write_i32(self.from);
        writer.write_i32(self.to);
        Ok(())
    }

    /// Reading back the encoding of an arc gives the arc.
    pub proof fn lemma_roundtrip(self, r: Seq<u8>)
        ensures
            self.spec_ser().len() == 8,
            Self::spec_parse(self.spec_ser() + r) == Some((self, 8int)),
    {
        lemma_ser_values(0, 0, 0, self.from, 0);
        lemma_ser_values(0, 0, 0, self.to, 0);
        let s = self.spec_ser() + r;
        assert(s.subrange(0, 4) =~= ser_i32(self.from));
        assert(s.subrange(4, 8) =~= ser_i32(self.to));
    }
}

/// IoStore external graph arc
#[derive(Debug, Clone, Copy, PartialEq, Eq, Hash, Structural)]
pub struct FExternalArc {
    /// From (import index)
    pub from: i32,
    /// From command type
    pub from_command_type: EExportCommandType,
    /// To (export bundle index)
    pub to: i32,
}

impl FExternalArc {
    /// The arc at the start of `s`: an `i32`, a command byte and an `i32`.
    pub open spec fn spec_parse(s: Seq<u8>) -> Option<(Self, int)> {
        if s.len() >= 9 {
            match EExportCommandType::spec_from_u32(s[4] as u32) {
                Some(c) => Some((FExternalArc { from: i32_in(s, 0), from_command_type: c, to: i32_in(s, 5) }, 9)),
                None => None,
            }
        } else {
            None
        }
    }

    /// The encoding of the arc.
    pub open spec fn spec_ser(self) -> Seq<u8> {
        ser_i32(self.from) + seq![self.from_command_type.spec_value() as u8] + ser_i32(self.to)
    }

    /// Read `FExternalArc` from a reader
    pub fn read(reader: &mut ByteReader) -> (res: Result<Self, Error>)
        ensures stepped(*old(reader), *final(reader), res, Self::spec_parse(old(reader).remaining())),
    {
        let b = reader.read_record(9)?;
        let from = crate::archive::u32_at(b.as_slice(), 0) as i32;
        let c = b[4];
        let to = crate::archive::u32_at(b.as_slice(), 5) as i32;
        proof {
            let rem = old(reader).remaining();
            assert(b@.subrange(0, 4) =~= rem.subrange(0, 4));
            assert(b@.subrange(5, 9) =~= rem.subrange(5, 9));
        }
        match EExportCommandType::try_from_u32(c as u32) {
            Some(from_command_type) => Ok(FExternalArc { from, from_command_type, to }),
            None => Err(Error::invalid_enum("EExportCommandType")),
        }
    }

    /// Write `FExternalArc` to a writer
    pub fn write(&self, writer: &mut ByteWriter) -> (res: Result<(), Error>)
        ensures res is Ok, final(writer).data@ == old(writer).data@ + self.spec_ser(),
    {
        writer.write_i32(self.from);
        writer.write_u8(self.from_command_type.value() as u8);
        writer.write_i32(self.to);
        assert(final(writer).data@ =~= old(writer).data@ + self.spec_ser());
        Ok(())
    }

    /// Reading back the encoding of an arc gives the arc.
    pub proof fn lemma_roundtrip(self, r: Seq<u8>)
        ensures
            self.spec_ser().len() == 9,
            Self::spec_parse(self.spec_ser() + r) == Some((self, 9int)),
    {
        lemma_ser_values(0, 0, 0, self.from, 0);
        lemma_ser_values(0, 0, 0, self.to, 0);
        let s = self.spec_ser() + r;
        assert(s.subrange(0, 4) =~= ser_i32(self.from));
        assert(s.subrange(5, 9) =~= ser_i32(self.to));
    }
}

impl Record for FExternalArc {
    type Model = FExternalArc;

    open spec fn model(v: FExternalArc) -> FExternalArc { v }

    open spec fn parse_model(s: Seq<u8>) -> Option<(FExternalArc, int)> { FExternalArc::spec_parse(s) }

    open spec fn ser_model(m: FExternalArc) -> Seq<u8> { m.spec_ser() }

    fn read_from(reader: &mut ByteReader) -> (res: Result<FExternalArc, Error>) {
        FExternalArc::read(reader)
    }

    fn write_to(&self, writer: &mut ByteWriter) {
        let _ = self.write(writer);
    }
}

/// The arcs at the start of `s` from one imported package: a count as an `i32`, then that many
/// arcs; a negative count is invalid.
pub open spec fn spec_parse_arc_list(s: Seq<u8>) -> Option<(Seq<FExternalArc>, int)> {
    match parse_i32(s) {
        Some((c, _)) => if c < 0 {
            None
        } else {
            match parse_repeat(rest(s, 4), c as nat, record_parser::<FExternalArc>()) {
                Some((v, k)) => Some((v, 4 + k)),
                None => None,
            }
        },
        None => None,
    }
}

/// The parser of the arcs from one imported package, as a function value.
pub open spec fn arc_list_parser() -> spec_fn(Seq<u8>) -> Option<(Seq<FExternalArc>, int)> {
    |s: Seq<u8>| spec_parse_arc_list(s)
}

/// The imported packages whose arc lists are not empty, each with its arcs, in order.
pub open spec fn nonempty_arcs(ids: Seq<u64>, lists: Seq<Seq<FExternalArc>>) -> Seq<(u64, Seq<FExternalArc>)>
    decreases lists.len(),
{
    if lists.len() == 0 || ids.len() < lists.len() {
        Seq::empty()
    } else {
        let before = nonempty_arcs(ids, lists.drop_last());
        if lists.last().len() == 0 {
            before
        } else {
            before.push((ids[lists.len() - 1], lists.last()))
        }
    }
}

/// The arcs of a pair list, as values.
pub open spec fn arc_pairs(v: Seq<(u64, Vec<FExternalArc>)>) -> Seq<(u64, Seq<FExternalArc>)> {
    v.map_values(|p: (u64, Vec<FExternalArc>)| (p.0, p.1@))
}

/// Read the arcs from one imported package.
fn read_arc_list(reader: &mut ByteReader) -> (res: Result<Vec<FExternalArc>, Error>)
    ensures
        final(reader).data@ == old(reader).data@,
        match res {
            Ok(v) => spec_parse_arc_list(old(reader).remaining()) == Some((v@, final(reader).pos - old(reader).pos)),
            Err(_) => spec_parse_arc_list(old(reader).remaining()) is None,
        },
        res is Ok ==> old(reader).pos <= final(reader).pos
            && final(reader).pos - old(reader).pos <= old(reader).remaining().len(),
{
    let ghost r0 = *reader;
    let count = reader.read_i32()?;
    if count < 0 {
        return Err(Error::invalid_file(String::from_str("Negative external arc count")));
    }
    proof { lemma_advance(r0, *reader); }
    let ghost r1 = *reader;
    let v: Vec<FExternalArc> = read_repeat(reader, count as u32)?;
    proof {
        lemma_advance(r1, *reader);
        assert(models(v@) =~= v@);
    }
    Ok(v)
}

/// Read the arcs from each imported package in turn, which follow the internal arcs of the
/// graph data; the packages whose lists are not empty are given with their arcs, in order.
pub fn read_external_arcs(reader: &mut ByteReader, imported_package_ids: &Vec<u64>)
    -> (res: Result<Vec<(u64, Vec<FExternalArc>)>, Error>)
    ensures
        final(reader).data@ == old(reader).data@,
        match res {
            Ok(v) => parse_repeat(old(reader).remaining(), imported_package_ids@.len(), arc_list_parser())
                matches Some((lists, k)) && k == final(reader).pos - old(reader).pos
                && arc_pairs(v@) == nonempty_arcs(imported_package_ids@, lists),
            Err(_) => parse_repeat(old(reader).remaining(), imported_package_ids@.len(), arc_list_parser()) is None,
        },
{
    let ghost s = old(reader).remaining();
    let ghost p0 = reader.pos;
    let ghost f = arc_list_parser();
    let ghost mut lists: Seq<Seq<FExternalArc>> = Seq::empty();
    let mut out: Vec<(u64, Vec<FExternalArc>)> = Vec::new();
    let mut i: usize = 0;
    proof {
        assert(rest(s, 0) =~= s);
        assert(arc_pairs(out@) =~= Seq::<(u64, Seq<FExternalArc>)>::empty());
    }
    while i < imported_package_ids.len()
        invariant
            i <= imported_package_ids@.len(),
            lists.len() == i,
            reader.data@ == old(reader).data@,
            s == old(reader).remaining(),
            p0 == old(reader).pos,
            f == arc_list_parser(),
            p0 <= reader.pos,
            reader.pos - p0 <= s.len(),
            reader.remaining() == rest(s, reader.pos - p0),
            parse_repeat(s, i as nat, f) == Some((lists, reader.pos - p0)),
            arc_pairs(out@) == nonempty_arcs(imported_package_ids@, lists),
        decreases imported_package_ids.len() - i,
    {
        let ghost r0 = *reader;
        let ghost k = reader.pos - p0;
        let ghost before = out@;
        let ghost lists0 = lists;
        let arcs = match read_arc_list(reader) {
            Ok(a) => a,
            Err(e) => {
                proof {
                    lemma_repeat_step(s, (i + 1) as nat, f);
                    assert((i + 1) as nat - 1 == i as nat);
                    lemma_repeat_none(s, (i + 1) as nat, imported_package_ids@.len(), f);
                }
                return Err(e);
            },
        };
        proof {
            lemma_advance(r0, *reader);
            lemma_repeat_step(s, (i + 1) as nat, f);
            assert((i + 1) as nat - 1 == i as nat);
            assert(rest(rest(s, k), reader.pos - r0.pos) =~= rest(s, reader.pos - p0));
            lists = lists.push(arcs@);
            assert(lists.drop_last() =~= lists0);
        }
        if arcs.len() > 0 {
            out.push((imported_package_ids[i], arcs));
            proof {
                assert(arc_pairs(out@) =~= arc_pairs(before).push((imported_package_ids@[i as int], lists.last())));
            }
        }
        i = i + 1;
    }
    Ok(out)
}

} // verus!
