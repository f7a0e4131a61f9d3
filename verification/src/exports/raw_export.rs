//! Raw export: the bytes of an export that is kept as it was read.

use vstd::prelude::*;
use crate::archive::{ByteReader, ByteWriter, parse_bytes};
use crate::error::{Error, IoErrorKind};
use super::base_export::BaseExport;

verus! {

/// An export whose data is kept as raw bytes
pub struct RawExport {
    /// Base export
    pub base_export: BaseExport,
    /// Data
    pub data: Vec<u8>,
}

impl RawExport {
    /// Read a `RawExport`: the `serial_size` bytes of the export.
    pub fn from_base(base: BaseExport, reader: &mut ByteReader) -> (res: Result<Self, Error>)
        requires 0 <= base.serial_size <= usize::MAX,
        ensures
            final(reader).data@ == old(reader).data@,
            match res {
                Ok(r) => parse_bytes(old(reader).remaining(), base.serial_size as int)
                        == Some((r.data@, final(reader).pos - old(reader).pos))
                    && r.base_export == base,
                Err(e) => parse_bytes(old(reader).remaining(), base.serial_size as int) is None
                    && e == Error::Io(IoErrorKind::UnexpectedEof),
            },
    {
        let data = reader.read_bytes(base.serial_size as usize)?;
        Ok(RawExport { base_export: base, data })
    }

    /// Write the export data.
    pub fn write(&self, writer: &mut ByteWriter) -> (res: Result<(), Error>)
        ensures res is Ok, final(writer).data@ == old(writer).data@ + self.data@,
    {
        writer.write_bytes(self.data.as_slice());
        Ok(())
    }
}

} // verus!
