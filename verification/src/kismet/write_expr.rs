//! Writing kismet expressions: the token, then what the expression holds.

use vstd::prelude::*;
use crate::archive::{ByteWriter, ser_u16, ser_u32, ser_i32};
use crate::asset::name_map::{write_fname, ser_fname};
use crate::error::Error;
use crate::types::{NameIndex, PackageIndex};
use super::expression::{KismetExpression, KView, KismetSwitchCase, views, case_views};
use super::parse::{VER_UE4_CHANGE_SETARRAY_BYTECODE, body_group};
use super::read_body::body_group_of;
use super::ser::{
    wcat, wlit, ser_expr, ser_body, ser_body_0, ser_body_1, ser_body_2, ser_body_3, ser_body_4, ser_list,
    ser_cases, ser_ex_set_array, ser_ex_switch_value, ser_ex_instrumentation_event, lemma_ser_body,
};
use super::tokens::{EExprToken, EScriptInstrumentationType};
use super::write::{wrote, write_list, write_cases};
use super::write_body::{write_body_0, write_body_1, write_body_2, write_body_3, write_body_4};

verus! {

impl KismetExpression {
    /// Write a `KismetExpression`: its token, then what it holds, in the form of the object
    /// version `ov`. It reports the size that the expression takes in memory, by which jump
    /// offsets of the bytecode are counted; it fails where a part that the version needs is
    /// missing.
    pub fn write(&self, writer: &mut ByteWriter, ov: i32) -> (res: Result<usize, Error>)
        requires ser_expr(self.view(), ov).1 <= usize::MAX,
        ensures wrote(old(writer).data@, final(writer).data@, res, ser_expr(self.view(), ov)),
        decreases self.view(), 3int,
    {
        let ghost w0 = writer.data@;
        let t = self.get_token();
        writer.write_u8(t.value());
        let o = write_body(self, writer, ov)?;
        assert(writer.data@ =~= w0 + (seq![t.spec_value()] + ser_body(self.view(), ov).0->0));
        Ok(o + 1)
    }
}

/// Write what an expression holds, by the group of its token.
pub(crate) fn write_body(e: &KismetExpression, writer: &mut ByteWriter, ov: i32) -> (res: Result<usize, Error>)
    requires ser_body(e.view(), ov).1 <= usize::MAX,
    ensures wrote(old(writer).data@, final(writer).data@, res, ser_body(e.view(), ov)),
    decreases e.view(), 2int,
{
    let g = body_group_of(e.get_token());
    proof { lemma_ser_body(e.view(), ov); }
    if g == 0 {
        write_body_0(e, writer, ov)
    } else if g == 1 {
        write_body_1(e, writer, ov)
    } else if g == 2 {
        write_body_2(e, writer, ov)
    } else if g == 3 {
        write_body_3(e, writer, ov)
    } else if g == 4 {
        write_body_4(e, writer, ov)
    } else {
        Err(Error::no_data(String::from_str("Unknown kismet expression")))
    }
}

/// Write what an `ExSetArray` holds: from the object version that changed the bytecode, the
/// assigning property, which must be there; before it, the inner property's index.
#[verifier::spinoff_prover]
pub(crate) fn write_ex_set_array(e: &KismetExpression, writer: &mut ByteWriter, ov: i32) -> (res: Result<usize, Error>)
    requires
        ser_ex_set_array(e.view(), ov).1 <= usize::MAX,
    ensures
        wrote(old(writer).data@, final(writer).data@, res, ser_ex_set_array(e.view(), ov)),
    decreases e.view(), 0int,
{
    match e {
    KismetExpression::ExSetArray { assigning_property, array_inner_prop, elements } => {
    let ghost w0 = writer.data@;
    let ghost mut bytes = Seq::<u8>::empty();
    let mut off: usize = 0;
    if ov >= VER_UE4_CHANGE_SETARRAY_BYTECODE {
        match assigning_property {
            Some(a) => {
                let o = KismetExpression::write(&**a, writer, ov)?;
                proof { bytes = ser_expr((**a).view(), ov).0->0; }
                off = o;
            },
            None => {
                return Err(Error::no_data(String::from_str("engine_version >= UE4_CHANGE_SETARRAY_BYTECODE but assigning_property is None")));
            },
        }
    } else {
        match array_inner_prop {
            Some(i) => {
                writer.write_i32(i.index);
                proof { bytes = ser_i32(i.index); }
                off = 8;
            },
            None => {
                return Err(Error::no_data(String::from_str("engine_version < UE4_CHANGE_SETARRAY_BYTECODE but array_inner_prop is None")));
            },
        }
    }
    assert(writer.data@ =~= w0 + bytes);
    let o = write_list(elements, writer, ov)?;
    proof { bytes = bytes + ser_list(views(elements@), ov).0->0; }
    assert(writer.data@ =~= w0 + bytes);
    writer.write_u8(EExprToken::ExEndArray.value());
    proof { bytes = bytes + seq![EExprToken::ExEndArray.spec_value()]; }
    assert(writer.data@ =~= w0 + bytes);
    Ok(off + o + 1)
    },
    _ => Err(Error::Utf8),
    }
}

/// Write what an `ExSwitchValue` holds: the count of its cases, its end offset, its index term,
/// its cases and its default term.
#[verifier::spinoff_prover]
pub(crate) fn write_ex_switch_value(e: &KismetExpression, writer: &mut ByteWriter, ov: i32) -> (res: Result<usize, Error>)
    requires
        ser_ex_switch_value(e.view(), ov).1 <= usize::MAX,
    ensures
        wrote(old(writer).data@, final(writer).data@, res, ser_ex_switch_value(e.view(), ov)),
    decreases e.view(), 0int,
{
    match e {
    KismetExpression::ExSwitchValue { end_goto_offset, index_term, default_term, cases } => {
    let ghost w0 = writer.data@;
    proof { super::write::lemma_case_views(cases@); }
    writer.write_u16(cases.len() as u16);
    writer.write_u32(*end_goto_offset);
    let ghost mut bytes = ser_u16(case_views(cases@).len() as u16) + ser_u32(*end_goto_offset);
    assert(writer.data@ =~= w0 + bytes);
    let a = KismetExpression::write(&**index_term, writer, ov)?;
    proof { bytes = bytes + ser_expr((**index_term).view(), ov).0->0; }
    assert(writer.data@ =~= w0 + bytes);
    let b = write_cases(cases, writer, ov)?;
    proof { bytes = bytes + ser_cases(case_views(cases@), ov).0->0; }
    assert(writer.data@ =~= w0 + bytes);
    let c = KismetExpression::write(&**default_term, writer, ov)?;
    proof { bytes = bytes + ser_expr((**default_term).view(), ov).0->0; }
    assert(writer.data@ =~= w0 + bytes);
    Ok(6 + a + b + c)
    },
    _ => Err(Error::Utf8),
    }
}

/// Write what an `ExInstrumentationEvent` holds: its event type, and for an inline event its
/// name, which must be there.
pub(crate) fn write_ex_instrumentation_event(e: &KismetExpression, writer: &mut ByteWriter, ov: i32) -> (res: Result<usize, Error>)
    ensures
        wrote(old(writer).data@, final(writer).data@, res, ser_ex_instrumentation_event(e.view(), ov)),
{
    match e {
    KismetExpression::ExInstrumentationEvent { event_type, event_name } => {
    let ghost w0 = writer.data@;
    writer.write_u8(event_type.value());
    if *event_type == EScriptInstrumentationType::InlineEvent {
        match event_name {
            Some(nm) => {
                write_fname(writer, *nm);
                assert(writer.data@ =~= w0 + (seq![event_type.spec_value()] + ser_fname(*nm)));
                Ok(9)
            },
            None => Err(Error::no_data(String::from_str("event_type is InlineEvent but event_name is None"))),
        }
    } else {
        assert(writer.data@ =~= w0 + seq![event_type.spec_value()]);
        Ok(1)
    }
    },
    _ => Err(Error::Utf8),
    }
}

} // verus!
