//! Writing the parts of kismet bytecode: property pointers, strings, lists of expressions,
//! switch cases and script texts.

use vstd::prelude::*;
use crate::archive::{ByteWriter, ser_u16, ser_u32, ser_i32, units_bytes};
use crate::asset::name_map::{write_fname, ser_fname};
use crate::error::Error;
use crate::strings::{encode_utf16, utf16_encode};
use crate::types::NameIndex;
use super::expression::{
    KismetExpression, KView, KismetPropertyPointer, FScriptText, KismetSwitchCase, SwitchCaseView, views,
    case_views, opt_view,
};
use super::ser::{
    wcat, wlit, ser_names, ser_ptr, ser_kstr, ser_kustr, ser_expr, ser_list, ser_opt, ser_cases, ser_text,
    lemma_ser_list_prefix, lemma_ser_list_step, lemma_ser_cases_prefix, lemma_ser_cases_step, lemma_ser_names_step,
};
use super::tokens::EBlueprintTextLiteralType;
use crate::engine_version::VER_UE4_ADDED_PACKAGE_OWNER;

verus! {

/// A write from the bytes `w0` to the bytes `w1` that gave `res` did what `out` says: where
/// `out` has bytes, it appended them and reported its size; where it has none, it failed.
pub open spec fn wrote(w0: Seq<u8>, w1: Seq<u8>, res: Result<usize, Error>, out: (Option<Seq<u8>>, nat)) -> bool {
    match out.0 {
        Some(b) => res matches Ok(o) && o == out.1 && w1 == w0 + b,
        None => res is Err,
    }
}

/// The views of expressions, one by one.
pub proof fn lemma_views(s: Seq<KismetExpression>)
    ensures
        views(s).len() == s.len(),
        forall|i: int| 0 <= i < s.len() ==> #[trigger] views(s)[i] == s[i].view(),
    decreases s.len(),
{
    if s.len() > 0 {
        let p = s.subrange(0, s.len() - 1);
        lemma_views(p);
        assert forall|i: int| 0 <= i < s.len() implies #[trigger] views(s)[i] == s[i].view() by {
            if i < s.len() - 1 {
                assert(views(s)[i] == views(p)[i]);
                assert(p[i] == s[i]);
            }
        }
    }
}

/// The views of switch cases, one by one.
pub proof fn lemma_case_views(s: Seq<KismetSwitchCase>)
    ensures
        case_views(s).len() == s.len(),
        forall|i: int| 0 <= i < s.len() ==> #[trigger] case_views(s)[i] == s[i].view(),
    decreases s.len(),
{
    if s.len() > 0 {
        let p = s.subrange(0, s.len() - 1);
        lemma_case_views(p);
        assert forall|i: int| 0 <= i < s.len() implies #[trigger] case_views(s)[i] == s[i].view() by {
            if i < s.len() - 1 {
                assert(case_views(s)[i] == case_views(p)[i]);
                assert(p[i] == s[i]);
            }
        }
    }
}

/// Write names, one after another.
pub(crate) fn write_names(path: &Vec<NameIndex>, writer: &mut ByteWriter)
    ensures final(writer).data@ == old(writer).data@ + ser_names(path@),
{
    let ghost w0 = writer.data@;
    let mut i: usize = 0;
    assert(path@.take(0) =~= Seq::<NameIndex>::empty());
    assert(writer.data@ =~= w0 + ser_names(path@.take(0)));
    while i < path.len()
        invariant
            i <= path.len(),
            writer.data@ == w0 + ser_names(path@.take(i as int)),
        decreases path.len() - i,
    {
        write_fname(writer, path[i]);
        proof { lemma_ser_names_step(path@, i as int); }
        assert(writer.data@ =~= w0 + ser_names(path@.take(i + 1)));
        i = i + 1;
    }
    assert(path@.take(path.len() as int) =~= path@);
}

impl KismetPropertyPointer {
    /// Write a `KismetPropertyPointer` in the form of the object version `ov`, which must be
    /// there; it reports the size of a pointer.
    pub fn write(&self, writer: &mut ByteWriter, ov: i32) -> (res: Result<usize, Error>)
        ensures wrote(old(writer).data@, final(writer).data@, res, ser_ptr(self.view(), ov)),
    {
        let ghost w0 = writer.data@;
        if ov >= VER_UE4_ADDED_PACKAGE_OWNER {
            match &self.new {
                Some(f) => {
                    writer.write_i32(f.path.len() as i32);
                    write_names(&f.path, writer);
                    writer.write_i32(f.resolved_owner.index);
                    assert(writer.data@ =~= w0 + (ser_i32(f.path@.len() as i32) + ser_names(f.path@) + ser_i32(f.resolved_owner.index)));
                    Ok(8)
                },
                None => Err(Error::no_data(String::from_str("engine_version >= UE4_ADDED_PACKAGE_OWNER but new is None"))),
            }
        } else {
            match self.old {
                Some(i) => {
                    writer.write_i32(i.index);
                    Ok(8)
                },
                None => Err(Error::no_data(String::from_str("engine_version < UE4_ADDED_PACKAGE_OWNER but old is None"))),
            }
        }
    }
}

/// Write a UTF-8 kismet string and a zero byte; it reports the bytes written.
pub(crate) fn write_kstr(t: &String, writer: &mut ByteWriter) -> (res: Result<usize, Error>)
    requires ser_kstr(t@).1 <= usize::MAX,
    ensures wrote(old(writer).data@, final(writer).data@, res, ser_kstr(t@)),
{
    let ghost w0 = writer.data@;
    let b = t.as_str().as_bytes();
    writer.write_bytes(b);
    writer.write_u8(0);
    assert(writer.data@ =~= w0 + b@.push(0u8));
    Ok(b.len() + 1)
}

/// Write a kismet string as little-endian UTF-16 code units and a zero unit; it reports the
/// bytes written.
pub(crate) fn write_kustr(t: &String, writer: &mut ByteWriter) -> (res: Result<usize, Error>)
    requires ser_kustr(t@).1 <= usize::MAX,
    ensures wrote(old(writer).data@, final(writer).data@, res, ser_kustr(t@)),
{
    let ghost w0 = writer.data@;
    let units = encode_utf16(t.as_str());
    let mut i: usize = 0;
    assert(units@.take(0) =~= Seq::<u16>::empty());
    assert(writer.data@ =~= w0 + units_bytes(units@.take(0)));
    while i < units.len()
        invariant
            i <= units.len(),
            writer.data@ == w0 + units_bytes(units@.take(i as int)),
        decreases units.len() - i,
    {
        writer.write_u16(units[i]);
        assert(units@.take(i + 1).drop_last() =~= units@.take(i as int));
        assert(writer.data@ =~= w0 + units_bytes(units@.take(i + 1)));
        i = i + 1;
    }
    assert(units@.take(units.len() as int) =~= units@);
    writer.write_u8(0);
    writer.write_u8(0);
    assert(writer.data@ =~= w0 + (units_bytes(utf16_encode(t@)) + seq![0u8, 0u8]));
    Ok(2 * units.len() + 2)
}

/// Write expressions, one after another.
pub(crate) fn write_list(es: &Vec<KismetExpression>, writer: &mut ByteWriter, ov: i32) -> (res: Result<usize, Error>)
    requires ser_list(views(es@), ov).1 <= usize::MAX,
    ensures wrote(old(writer).data@, final(writer).data@, res, ser_list(views(es@), ov)),
    decreases views(es@), 0int,
{
    let ghost vs = views(es@);
    proof { lemma_views(es@); }
    let ghost w0 = writer.data@;
    let ghost mut bytes = Seq::<u8>::empty();
    let mut off: usize = 0;
    let mut i: usize = 0;
    assert(vs.take(0) =~= Seq::<KView>::empty());
    assert(writer.data@ =~= w0 + bytes);
    while i < es.len()
        invariant
            i <= es.len(),
            vs == views(es@),
            vs.len() == es.len(),
            forall|j: int| 0 <= j < es.len() ==> #[trigger] vs[j] == es@[j].view(),
            ser_list(vs, ov).1 <= usize::MAX,
            ser_list(vs.take(i as int), ov) == (Some(bytes), off as nat),
            writer.data@ == w0 + bytes,
            w0 == old(writer).data@,
        decreases es.len() - i,
    {
        proof {
            lemma_ser_list_step(vs, i as int, ov);
            lemma_ser_list_prefix(vs, i + 1, ov);
            assert(vs[i as int] == es@[i as int].view());
            assert(decreases_to!(vs => vs[i as int]));
        }
        let o = match KismetExpression::write(&es[i], writer, ov) {
            Ok(o) => o,
            Err(e) => {
                return Err(e);
            },
        };
        proof { bytes = bytes + ser_expr(vs[i as int], ov).0->0; }
        assert(writer.data@ =~= w0 + bytes);
        off = off + o;
        i = i + 1;
    }
    assert(vs.take(es.len() as int) =~= vs);
    Ok(off)
}

/// Write switch cases, one after another: each its index term, its next offset and its term.
pub(crate) fn write_cases(cs: &Vec<KismetSwitchCase>, writer: &mut ByteWriter, ov: i32) -> (res: Result<usize, Error>)
    requires ser_cases(case_views(cs@), ov).1 <= usize::MAX,
    ensures wrote(old(writer).data@, final(writer).data@, res, ser_cases(case_views(cs@), ov)),
    decreases case_views(cs@), 0int,
{
    let ghost vs = case_views(cs@);
    proof { lemma_case_views(cs@); }
    let ghost w0 = writer.data@;
    let ghost mut bytes = Seq::<u8>::empty();
    let mut off: usize = 0;
    let mut i: usize = 0;
    assert(vs.take(0) =~= Seq::<SwitchCaseView>::empty());
    assert(writer.data@ =~= w0 + bytes);
    while i < cs.len()
        invariant
            i <= cs.len(),
            vs == case_views(cs@),
            vs.len() == cs.len(),
            forall|j: int| 0 <= j < cs.len() ==> #[trigger] vs[j] == cs@[j].view(),
            ser_cases(vs, ov).1 <= usize::MAX,
            ser_cases(vs.take(i as int), ov) == (Some(bytes), off as nat),
            writer.data@ == w0 + bytes,
            w0 == old(writer).data@,
        decreases cs.len() - i,
    {
        let c = &cs[i];
        proof {
            lemma_ser_cases_step(vs, i as int, ov);
            lemma_ser_cases_prefix(vs, i + 1, ov);
            assert(vs[i as int] == c.view());
            assert(decreases_to!(vs => vs[i as int]));
            assert(decreases_to!(vs[i as int] => vs[i as int].case_index_value_term));
            assert(decreases_to!(vs[i as int] => vs[i as int].case_term));
        }
        let o1 = match KismetExpression::write(&c.case_index_value_term, writer, ov) {
            Ok(o) => o,
            Err(e) => {
                return Err(e);
            },
        };
        proof { bytes = bytes + ser_expr(vs[i as int].case_index_value_term, ov).0->0; }
        assert(writer.data@ =~= w0 + bytes);
        writer.write_u32(c.next_offset);
        proof { bytes = bytes + ser_u32(c.next_offset); }
        assert(writer.data@ =~= w0 + bytes);
        let o2 = match KismetExpression::write(&c.case_term, writer, ov) {
            Ok(o) => o,
            Err(e) => {
                return Err(e);
            },
        };
        proof { bytes = bytes + ser_expr(vs[i as int].case_term, ov).0->0; }
        assert(writer.data@ =~= w0 + bytes);
        off = off + o1 + 4 + o2;
        i = i + 1;
    }
    assert(vs.take(cs.len() as int) =~= vs);
    Ok(off)
}

/// Write an expression that must be there.
pub(crate) fn write_opt(o: &Option<KismetExpression>, what: &str, writer: &mut ByteWriter, ov: i32) -> (res: Result<usize, Error>)
    requires ser_opt(opt_view(*o), ov).1 <= usize::MAX,
    ensures wrote(old(writer).data@, final(writer).data@, res, ser_opt(opt_view(*o), ov)),
    decreases opt_view(*o), 0int,
{
    match o {
        Some(x) => KismetExpression::write(x, writer, ov),
        None => Err(Error::no_data(String::from_str(what))),
    }
}

impl FScriptText {
    /// Write a script text: its literal type, then the expressions that the type needs, which must
    /// be there; it reports the size that the text takes in memory.
    pub fn write(&self, writer: &mut ByteWriter, ov: i32) -> (res: Result<usize, Error>)
        requires ser_text(self.view(), ov).1 <= usize::MAX,
        ensures wrote(old(writer).data@, final(writer).data@, res, ser_text(self.view(), ov)),
        decreases self.view(), 0int,
    {
        let ghost w0 = writer.data@;
        let ghost tv = self.view();
        writer.write_u8(self.text_literal_type.value());
        let ghost mut bytes = seq![self.text_literal_type.spec_value()];
        assert(writer.data@ =~= w0 + bytes);
        match self.text_literal_type {
            EBlueprintTextLiteralType::Empty => Ok(1),
            EBlueprintTextLiteralType::LocalizedText => {
                let a = write_opt(&self.localized_source, "text_literal_type is LocalizedText but localized_source is None", writer, ov)?;
                proof { bytes = bytes + ser_opt(tv.localized_source, ov).0->0; }
                assert(writer.data@ =~= w0 + bytes);
                let b = write_opt(&self.localized_key, "text_literal_type is LocalizedText but localized_key is None", writer, ov)?;
                proof { bytes = bytes + ser_opt(tv.localized_key, ov).0->0; }
                assert(writer.data@ =~= w0 + bytes);
                let c = write_opt(&self.localized_namespace, "text_literal_type is LocalizedText but localized_namespace is None", writer, ov)?;
                proof { bytes = bytes + ser_opt(tv.localized_namespace, ov).0->0; }
                assert(writer.data@ =~= w0 + bytes);
                Ok(1 + a + b + c)
            },
            EBlueprintTextLiteralType::InvariantText => {
                let a = write_opt(&self.invariant_literal_string, "text_literal_type is InvariantText but invariant_literal_string is None", writer, ov)?;
                proof { bytes = bytes + ser_opt(tv.invariant_literal_string, ov).0->0; }
                assert(writer.data@ =~= w0 + bytes);
                Ok(1 + a)
            },
            EBlueprintTextLiteralType::LiteralString => {
                let a = write_opt(&self.literal_string, "text_literal_type is LiteralString but literal_string is None", writer, ov)?;
                proof { bytes = bytes + ser_opt(tv.literal_string, ov).0->0; }
                assert(writer.data@ =~= w0 + bytes);
                Ok(1 + a)
            },
            EBlueprintTextLiteralType::StringTableEntry => {
                match self.string_table_asset {
                    Some(i) => {
                        writer.write_i32(i.index);
                        proof { bytes = bytes + ser_i32(i.index); }
                        assert(writer.data@ =~= w0 + bytes);
                    },
                    None => {
                        return Err(Error::no_data(String::from_str("text_literal_type is StringTableEntry but string_table_asset is None")));
                    },
                }
                let b = write_opt(&self.string_table_id, "text_literal_type is StringTableEntry but string_table_id is None", writer, ov)?;
                proof { bytes = bytes + ser_opt(tv.string_table_id, ov).0->0; }
                assert(writer.data@ =~= w0 + bytes);
                let c = write_opt(&self.string_table_key, "text_literal_type is StringTableEntry but string_table_key is None", writer, ov)?;
                proof { bytes = bytes + ser_opt(tv.string_table_key, ov).0->0; }
                assert(writer.data@ =~= w0 + bytes);
                Ok(1 + 8 + b + c)
            },
        }
    }
}

} // verus!
