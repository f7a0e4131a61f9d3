//! [`FEngineVersion`] type

use vstd::prelude::*;
use crate::archive::{ByteReader, ByteWriter, parse_u16, parse_u32, parse_fstring, ser_u16, ser_u32, ser_fstring,
    opt_chars, rest, lemma_advance};
use crate::bytes::le_value;
use crate::error::Error;

verus! {

/// EngineVersion for an Asset
#[derive(Debug, Clone)]
pub struct FEngineVersion {
    /// Major version
    pub major: u16,
    /// Minor version
    pub minor: u16,
    /// Patch version
    pub patch: u16,
    /// Build number
    pub build: u32,
    /// Branch name
    pub branch: Option<String>,
}

impl FEngineVersion {
    /// Create a new engine version
    pub fn new(major: u16, minor: u16, patch: u16, build: u32, branch: Option<String>) -> (r: Self)
        ensures r == (FEngineVersion { major, minor, patch, build, branch }),
    {
        FEngineVersion { major, minor, patch, build, branch }
    }

    /// The engine version at the start of `s`: three `u16`s, a `u32` and an FString.
    pub open spec fn spec_parse(s: Seq<u8>) -> Option<((u16, u16, u16, u32, Option<Seq<char>>), int)> {
        if s.len() >= 10 {
            match parse_fstring(s.skip(10)) {
                Some((branch, k)) => Some(((
                    le_value(s.subrange(0, 2)) as u16,
                    le_value(s.subrange(2, 4)) as u16,
                    le_value(s.subrange(4, 6)) as u16,
                    le_value(s.subrange(6, 10)) as u32,
                    branch,
                ), 10 + k)),
                None => None,
            }
        } else {
            None
        }
    }

    /// The encoding of an engine version.
    pub open spec fn spec_ser(self) -> Seq<u8> {
        ser_u16(self.major) + ser_u16(self.minor) + ser_u16(self.patch) + ser_u32(self.build)
            + ser_fstring(opt_chars(self.branch))
    }

    /// Read an engine version from a reader
    pub fn read(reader: &mut ByteReader) -> (res: Result<Self, Error>)
        ensures
            final(reader).data@ == old(reader).data@,
            match res {
                Ok(v) => Self::spec_parse(old(reader).remaining())
                    == Some(((v.major, v.minor, v.patch, v.build, opt_chars(v.branch)), final(reader).pos - old(reader).pos)),
                Err(_) => Self::spec_parse(old(reader).remaining()) is None,
            },
    {
        let ghost s = old(reader).remaining();
        let major = reader.read_u16()?;
        assert(reader.remaining() =~= s.skip(2));
        let minor = reader.read_u16()?;
        assert(reader.remaining() =~= s.skip(4));
        let patch = reader.read_u16()?;
        assert(reader.remaining() =~= s.skip(6));
        let build = reader.read_u32()?;
        assert(reader.remaining() =~= s.skip(10));
        let branch = reader.read_fstring()?;
        proof {
            assert(s.take(2) =~= s.subrange(0, 2));
            assert(s.skip(2).take(2) =~= s.subrange(2, 4));
            assert(s.skip(4).take(2) =~= s.subrange(4, 6));
            assert(s.skip(6).take(4) =~= s.subrange(6, 10));
        }
        Ok(Self::new(major, minor, patch, build, branch))
    }

    /// Write an engine version to a writer
    pub fn write(&self, writer: &mut ByteWriter) -> (res: Result<(), Error>)
        requires self.branch matches Some(t) ==> t@.len() < 0x4000_0000,
        ensures res is Ok, final(writer).data@ == old(writer).data@ + self.spec_ser(),
    {
        writer.write_u16(self.major);
        writer.write_u16(self.minor);
        writer.write_u16(self.patch);
        writer.write_u32(self.build);
        writer.write_fstring(match &self.branch {
            Some(t) => Some(t.as_str()),
            None => None,
        });
        assert(final(writer).data@ =~= old(writer).data@ + self.spec_ser());
        Ok(())
    }

    /// The unknown engine version
    pub fn unknown() -> (r: Self)
        ensures r == (FEngineVersion { major: 0, minor: 0, patch: 0, build: 0, branch: None }),
    {
        Self::new(0, 0, 0, 0, None)
    }
}

} // verus!
