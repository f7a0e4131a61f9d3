//! String table exports: after the normal export, a namespace and the table's keys and values.

use vstd::prelude::*;
use crate::archive::{ByteReader, ByteWriter, rest, parse_i32, parse_fstring, parse_repeat, ser_repeat, ser_i32,
    ser_fstring, fstring_keeps, opt_chars, lemma_advance, lemma_repeat_step, lemma_repeat_none, lemma_repeat_roundtrip,
    lemma_fstring_roundtrip, lemma_parse_ints, lemma_ser_values};
use crate::asset::overrides::{override_pairs, override_table};
use crate::containers::indexed_map::{IndexedMap, MapEntry, spec_extend};
use crate::error::Error;

verus! {

/// A string table: a namespace and its entries, each key with its text.
pub struct StringTable {
    /// Namespace
    pub namespace: Option<String>,
    /// Entries by key, in insertion order
    pub value: IndexedMap<String, String>,
}

/// A string table export: the table that follows its normal export.
pub struct StringTableExport {
    /// The table
    pub table: StringTable,
}

/// The text of an FString at the start of `s` that is not null.
pub open spec fn parse_table_text(s: Seq<u8>) -> Option<(Seq<char>, int)> {
    match parse_fstring(s) {
        Some((Some(t), k)) => Some((t, k)),
        _ => None,
    }
}

/// A key and its text at the start of `s`, each an FString that is not null.
pub open spec fn parse_table_entry(s: Seq<u8>) -> Option<((Seq<char>, Seq<char>), int)> {
    match parse_table_text(s) {
        Some((k, a)) => match parse_table_text(rest(s, a)) {
            Some((v, b)) => Some(((k, v), a + b)),
            None => None,
        },
        None => None,
    }
}

/// The parser of a table entry, as a function value.
pub open spec fn table_entry_parser() -> spec_fn(Seq<u8>) -> Option<((Seq<char>, Seq<char>), int)> {
    |s: Seq<u8>| parse_table_entry(s)
}

/// The string table at the start of `s`: four bytes that are skipped, the namespace, a count as
/// an `i32`, then that many entries; a count below one gives no entry.
pub open spec fn spec_parse_string_table(s: Seq<u8>) -> Option<((Option<Seq<char>>, Seq<(Seq<char>, Seq<char>)>), int)> {
    if s.len() < 4 {
        None
    } else {
        match parse_fstring(rest(s, 4)) {
            None => None,
            Some((ns, k1)) => match parse_i32(rest(s, 4 + k1)) {
                None => None,
                Some((c, _)) => if c <= 0 {
                    Some(((ns, Seq::empty()), 8 + k1))
                } else {
                    match parse_repeat(rest(s, 8 + k1), c as nat, table_entry_parser()) {
                        Some((ps, k2)) => Some(((ns, ps), 8 + k1 + k2)),
                        None => None,
                    }
                },
            },
        }
    }
}

/// What an FString takes is no more than what is left.
proof fn lemma_fstring_within(s: Seq<u8>)
    ensures parse_fstring(s) matches Some((_, k)) ==> 0 <= k <= s.len(),
{
}

/// Read an FString that must not be null.
fn read_table_text(reader: &mut ByteReader, null_message: &str) -> (res: Result<String, Error>)
    ensures
        final(reader).data@ == old(reader).data@,
        match res {
            Ok(t) => parse_table_text(old(reader).remaining()) == Some((t@, final(reader).pos - old(reader).pos)),
            Err(_) => parse_table_text(old(reader).remaining()) is None,
        },
        res is Ok ==> old(reader).pos <= final(reader).pos
            && final(reader).pos - old(reader).pos <= old(reader).remaining().len(),
{
    proof { lemma_fstring_within(old(reader).remaining()); }
    match reader.read_fstring()? {
        Some(t) => Ok(t),
        None => Err(Error::no_data(null_message.to_string())),
    }
}

/// Read a key and its text.
fn read_table_entry(reader: &mut ByteReader) -> (res: Result<(String, String), Error>)
    ensures
        final(reader).data@ == old(reader).data@,
        match res {
            Ok(p) => parse_table_entry(old(reader).remaining()) == Some(((p.0@, p.1@), final(reader).pos - old(reader).pos)),
            Err(_) => parse_table_entry(old(reader).remaining()) is None,
        },
        res is Ok ==> old(reader).pos <= final(reader).pos
            && final(reader).pos - old(reader).pos <= old(reader).remaining().len(),
{
    let ghost r0 = *reader;
    let k = read_table_text(reader, "StringTable key is None")?;
    proof { lemma_advance(r0, *reader); }
    let ghost r1 = *reader;
    let v = read_table_text(reader, "StringTable value is None")?;
    proof { lemma_advance(r1, *reader); }
    Ok((k, v))
}

/// The texts of pairs of strings.
pub open spec fn entry_texts(v: Seq<(String, String)>) -> Seq<(Seq<char>, Seq<char>)> {
    v.map_values(|p: (String, String)| (p.0@, p.1@))
}

/// Read `count` entries, none where `count` is below one.
fn read_table_entries(reader: &mut ByteReader, count: i32) -> (res: Result<Vec<(String, String)>, Error>)
    ensures
        final(reader).data@ == old(reader).data@,
        match res {
            Ok(v) => if count <= 0 {
                v@.len() == 0 && final(reader).pos == old(reader).pos
            } else {
                parse_repeat(old(reader).remaining(), count as nat, table_entry_parser())
                    == Some((entry_texts(v@), final(reader).pos - old(reader).pos))
            },
            Err(_) => count > 0 && parse_repeat(old(reader).remaining(), count as nat, table_entry_parser()) is None,
        },
{
    let ghost s = old(reader).remaining();
    let ghost p0 = reader.pos;
    let ghost f = table_entry_parser();
    let mut pairs: Vec<(String, String)> = Vec::new();
    let mut i: i32 = 0;
    proof { assert(rest(s, 0) =~= s); }
    while i < count
        invariant
            0 <= i,
            count > 0 ==> i <= count,
            count <= 0 ==> i == 0 && pairs@.len() == 0 && reader.pos == p0,
            reader.data@ == old(reader).data@,
            s == old(reader).remaining(),
            p0 == old(reader).pos,
            p0 <= reader.pos,
            reader.pos - p0 <= s.len(),
            reader.remaining() == rest(s, reader.pos - p0),
            f == table_entry_parser(),
            parse_repeat(s, i as nat, f) == Some((entry_texts(pairs@), reader.pos - p0)),
        decreases count - i,
    {
        let ghost r3 = *reader;
        let ghost k = reader.pos - p0;
        let ghost before = pairs@;
        let e = match read_table_entry(reader) {
            Ok(e) => e,
            Err(err) => {
                proof {
                    lemma_repeat_step(s, (i + 1) as nat, f);
                    assert((i + 1) as nat - 1 == i as nat);
                    lemma_repeat_none(s, (i + 1) as nat, count as nat, f);
                }
                return Err(err);
            },
        };
        proof {
            lemma_advance(r3, *reader);
            lemma_repeat_step(s, (i + 1) as nat, f);
            assert((i + 1) as nat - 1 == i as nat);
            assert(rest(rest(s, k), reader.pos - r3.pos) =~= rest(s, reader.pos - p0));
        }
        pairs.push(e);
        proof {
            assert(entry_texts(pairs@) =~= entry_texts(before).push((e.0@, e.1@)));
        }
        i = i + 1;
    }
    Ok(pairs)
}

impl StringTableExport {
    /// Read the string table that follows a normal export.
    #[verifier::spinoff_prover]
    #[verifier::rlimit(40)]
    pub fn read(reader: &mut ByteReader) -> (res: Result<Self, Error>)
        ensures
            final(reader).data@ == old(reader).data@,
            match res {
                Ok(e) => spec_parse_string_table(old(reader).remaining()) matches Some(((ns, ps), k))
                    && opt_chars(e.table.namespace) == ns
                    && e.table.value.wf()
                    && override_pairs(e.table.value.entries()) == spec_extend(Seq::<MapEntry<Seq<char>, Seq<char>>>::empty(), 0, ps).0
                    && k == final(reader).pos - old(reader).pos,
                Err(_) => spec_parse_string_table(old(reader).remaining()) is None,
            },
    {
        let ghost s0 = old(reader).remaining();
        let ghost r0 = *reader;
        let _ = reader.read_i32()?;
        proof { lemma_advance(r0, *reader); }
        let ghost r1 = *reader;
        proof { lemma_fstring_within(r1.remaining()); }
        let namespace = reader.read_fstring()?;
        proof { lemma_advance(r1, *reader); }
        let ghost r2 = *reader;
        let count = reader.read_i32()?;
        proof {
            lemma_advance(r2, *reader);
            assert(rest(rest(s0, 4), r2.pos - r1.pos) =~= rest(s0, 4 + (r2.pos - r1.pos)));
            assert(rest(rest(s0, 4 + (r2.pos - r1.pos)), 4) =~= rest(s0, 8 + (r2.pos - r1.pos)));
        }
        let pairs = read_table_entries(reader, count)?;
        proof {
            assert(pairs@.map_values(|p: (String, String)| (p.0@, p.1@)) =~= entry_texts(pairs@));
            if count <= 0 {
                assert(entry_texts(pairs@) =~= Seq::<(Seq<char>, Seq<char>)>::empty());
            }
        }
        let value = override_table(&pairs);
        Ok(StringTableExport { table: StringTable { namespace, value } })
    }
}

/// The encoding of a key and its text.
pub open spec fn ser_table_entry(e: (Seq<char>, Seq<char>)) -> Seq<u8> {
    ser_fstring(Some(e.0)) + ser_fstring(Some(e.1))
}

/// The encoder of a table entry, as a function value.
pub open spec fn table_entry_writer() -> spec_fn((Seq<char>, Seq<char>)) -> Seq<u8> {
    |e: (Seq<char>, Seq<char>)| ser_table_entry(e)
}

/// Key and value text of each entry of a table.
pub open spec fn table_texts(entries: Seq<MapEntry<Seq<char>, String>>) -> Seq<(Seq<char>, Seq<char>)> {
    entries.map_values(|e: MapEntry<Seq<char>, String>| (e.1, e.2@))
}

/// The encoding of a string table: four zero bytes, the namespace, the number of entries as an
/// `i32`, then each key and its text.
pub open spec fn ser_string_table(ns: Option<Seq<char>>, ps: Seq<(Seq<char>, Seq<char>)>) -> Seq<u8> {
    ser_i32(0) + ser_fstring(ns) + ser_i32(ps.len() as i32) + ser_repeat(ps, table_entry_writer())
}

impl StringTableExport {
    /// Write the string table that follows a normal export, its entries in insertion order.
    pub fn write(&self, writer: &mut ByteWriter)
        requires
            self.table.value.wf(),
            self.table.namespace matches Some(n) ==> n@.len() < 0x4000_0000,
            forall|i: int| 0 <= i < self.table.value.entries().len() ==>
                (#[trigger] self.table.value.entries()[i]).1.len() < 0x4000_0000
                && self.table.value.entries()[i].2@.len() < 0x4000_0000,
        ensures
            final(writer).data@ == old(writer).data@ + ser_string_table(opt_chars(self.table.namespace),
                table_texts(self.table.value.entries())),
    {
        let ghost es = self.table.value.entries();
        let ghost ps = table_texts(es);
        writer.write_i32(0);
        match &self.table.namespace {
            Some(n) => writer.write_fstring(Some(n.as_str())),
            None => writer.write_fstring(None),
        }
        let items = self.table.value.iter();
        writer.write_i32(items.len() as i32);
        let ghost d0 = writer.data@;
        let mut i: usize = 0;
        proof {
            assert(ps.take(0) =~= Seq::<(Seq<char>, Seq<char>)>::empty());
            assert(writer.data@ =~= d0 + ser_repeat(ps.take(0), table_entry_writer()));
        }
        while i < items.len()
            invariant
                i <= items@.len(),
                items@.len() == es.len(),
                es == self.table.value.entries(),
                ps == table_texts(es),
                forall|j: int| 0 <= j < items@.len() ==> ((#[trigger] items@[j]).0, items@[j].1@, *items@[j].2) == es[j],
                forall|j: int| 0 <= j < es.len() ==> (#[trigger] es[j]).1.len() < 0x4000_0000 && es[j].2@.len() < 0x4000_0000,
                writer.data@ == d0 + ser_repeat(ps.take(i as int), table_entry_writer()),
            decreases items@.len() - i,
        {
            let (_, k, v) = items[i];
            proof {
                assert((items@[i as int].0, items@[i as int].1@, *items@[i as int].2) == es[i as int]);
            }
            writer.write_fstring(Some(k.as_str()));
            writer.write_fstring(Some(v.as_str()));
            proof {
                let m = ps.take(i + 1);
                assert(m.drop_last() =~= ps.take(i as int));
                assert(m.last() == (k@, v@));
                assert(writer.data@ =~= d0 + ser_repeat(m, table_entry_writer()));
            }
            i = i + 1;
        }
        assert(ps.take(es.len() as int) =~= ps);
        assert(final(writer).data@ =~= old(writer).data@ + ser_string_table(opt_chars(self.table.namespace), ps));
    }
}

/// Reading back the encoding of a key and its text gives them.
proof fn lemma_table_entry_roundtrip(e: (Seq<char>, Seq<char>), r: Seq<u8>)
    requires fstring_keeps(e.0), fstring_keeps(e.1),
    ensures parse_table_entry(ser_table_entry(e) + r) == Some((e, ser_table_entry(e).len() as int)),
{
    let a = ser_fstring(Some(e.0));
    let b = ser_fstring(Some(e.1));
    let s = ser_table_entry(e) + r;
    assert(s =~= a + (b + r));
    lemma_fstring_roundtrip(Some(e.0), b + r);
    assert(rest(s, a.len() as int) =~= b + r);
    lemma_fstring_roundtrip(Some(e.1), r);
}

/// Writing a string table and reading it back gives the namespace and the entries, in order,
/// where every text is held exactly by an FString and the count fits an `i32`.
#[verifier::spinoff_prover]
#[verifier::rlimit(60)]
pub proof fn lemma_string_table_roundtrip(ns: Option<Seq<char>>, ps: Seq<(Seq<char>, Seq<char>)>, r: Seq<u8>)
    requires
        ns matches Some(x) ==> fstring_keeps(x),
        forall|i: int| 0 <= i < ps.len() ==> fstring_keeps((#[trigger] ps[i]).0) && fstring_keeps(ps[i].1),
        ps.len() <= i32::MAX,
    ensures
        spec_parse_string_table(ser_string_table(ns, ps) + r) == Some(((ns, ps), ser_string_table(ns, ps).len() as int)),
{
    let f = table_entry_parser();
    let g = table_entry_writer();
    assert forall|i: int, x: Seq<u8>| 0 <= i < ps.len() implies #[trigger] f(g(ps[i]) + x) == Some((ps[i], g(ps[i]).len() as int)) by {
        lemma_table_entry_roundtrip(ps[i], x);
    }
    let z = ser_i32(0);
    let nb = ser_fstring(ns);
    let k1 = nb.len() as int;
    let c = ser_i32(ps.len() as i32);
    let body = ser_repeat(ps, g);
    let s = ser_string_table(ns, ps) + r;
    assert(s =~= z + (nb + (c + (body + r))));
    lemma_ser_values(0, 0, 0, 0, 0);
    lemma_ser_values(0, 0, 0, ps.len() as i32, 0);
    assert(rest(s, 4) =~= nb + (c + (body + r)));
    lemma_fstring_roundtrip(ns, c + (body + r));
    assert(rest(s, 4 + nb.len() as int) =~= c + (body + r));
    lemma_parse_ints(0, 0, 0, ps.len() as i32, 0, body + r);
    assert(rest(s, 8 + nb.len() as int) =~= body + r);
    lemma_repeat_roundtrip(ps, f, g, r);
    assert(parse_fstring(rest(s, 4)) == Some((ns, k1)));
    assert(parse_i32(rest(s, 4 + k1)) == Some((ps.len() as i32, 4int)));
    assert(parse_repeat(rest(s, 8 + k1), ps.len(), f) == Some((ps, body.len() as int)));
    assert(ser_string_table(ns, ps).len() == 8 + k1 + body.len());
    if ps.len() == 0 {
        assert(body =~= Seq::<u8>::empty());
    }
}

} // verus!
