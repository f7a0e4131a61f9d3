//! IoStore FNames

use vstd::prelude::*;
use crate::archive::{ByteReader, ByteWriter, stepped, ser_u32, lemma_ser_values, parse_fstring, opt_chars, rest,
    parse_u16, lemma_advance};
use crate::bytes::le_value;
use crate::error::{Error, IoErrorKind};
use crate::iostore::toc::index::u32_in;

verus! {

/// IoStore mapped name type
#[derive(Debug, Clone, Copy, PartialEq, Eq, Hash, Structural)]
pub enum EMappedNameType {
    /// Package-level name table
    Package,
    /// Container-level name table
    Container,
    /// Global name table
    Global,
}

impl EMappedNameType {
    /// The numeric value of the type.
    pub open spec fn spec_value(self) -> u8 {
        match self {
            EMappedNameType::Package => 0,
            EMappedNameType::Container => 1,
            EMappedNameType::Global => 2,
        }
    }

    /// The numeric value of the type.
    pub fn value(self) -> (r: u8)
        ensures r == self.spec_value(),
    {
        match self {
            EMappedNameType::Package => 0,
            EMappedNameType::Container => 1,
            EMappedNameType::Global => 2,
        }
    }

    /// The type with a numeric value.
    pub open spec fn spec_from_u8(v: u8) -> Option<Self> {
        if v == 0 {
            Some(EMappedNameType::Package)
        } else if v == 1 {
            Some(EMappedNameType::Container)
        } else if v == 2 {
            Some(EMappedNameType::Global)
        } else {
            None
        }
    }

    /// The type with a numeric value.
    pub fn try_from_u8(v: u8) -> (r: Option<Self>)
        ensures r == Self::spec_from_u8(v),
    {
        match v {
            0 => Some(EMappedNameType::Package),
            1 => Some(EMappedNameType::Container),
            2 => Some(EMappedNameType::Global),
            _ => None,
        }
    }
}

/// IoStore mapped name
#[derive(Debug, Clone, Copy, PartialEq, Eq, Hash, Structural)]
pub struct FMappedName {
    /// Name index
    pub index: u32,
    /// Name number
    pub number: u32,
    /// Name type
    pub ty: EMappedNameType,
}

impl FMappedName {
    /// FMappedName index bits
    pub const INDEX_BITS: u32 = 30;
    /// FMappedName index mask
    pub const INDEX_MASK: u32 = 0x3fff_ffff;
    /// FMappedName type mask
    pub const TYPE_MASK: u32 = 0xc000_0000;
    /// FMappedName type shift
    pub const TYPE_SHIFT: u32 = 30;

    /// Create a new `FMappedName` instance
    pub fn new(index: u32, number: u32, ty: EMappedNameType) -> (r: Self)
        ensures r == (FMappedName { index, number, ty }),
    {
        FMappedName { index, number, ty }
    }

    /// The name held by eight bytes: the index with the type in its top two bits, then the
    /// number; none when the top bits name no type.
    pub open spec fn spec_decode(b: Seq<u8>) -> Option<Self> {
        let i = u32_in(b, 0);
        match EMappedNameType::spec_from_u8(((i & 0xc000_0000u32) >> 30u32) as u8) {
            Some(ty) => Some(FMappedName { index: i & 0x3fff_ffffu32, number: u32_in(b, 4), ty }),
            None => None,
        }
    }

    /// The name at the start of `s`.
    pub open spec fn spec_parse(s: Seq<u8>) -> Option<(Self, int)> {
        if s.len() >= 8 {
            match Self::spec_decode(s.take(8)) {
                Some(n) => Some((n, 8)),
                None => None,
            }
        } else {
            None
        }
    }

    /// The index with the type in its top two bits.
    pub open spec fn spec_packed(self) -> u32 {
        (self.index & 0x3fff_ffffu32) | ((self.ty.spec_value() as u32) << 30u32)
    }

    /// The encoding of the name.
    pub open spec fn spec_ser(self) -> Seq<u8> {
        ser_u32(self.spec_packed()) + ser_u32(self.number)
    }

    /// Decodes eight bytes.
    pub fn decode(b: &[u8]) -> (res: Result<Self, Error>)
        requires b@.len() == 8,
        ensures
            match res {
                Ok(n) => Self::spec_decode(b@) == Some(n),
                Err(e) => Self::spec_decode(b@) is None && e is InvalidEnumValue,
            },
    {
        let index = crate::archive::u32_at(b, 0);
        let number = crate::archive::u32_at(b, 4);
        let t = (index & Self::TYPE_MASK) >> Self::TYPE_SHIFT;
        assert(t < 4) by (bit_vector)
            requires t == (index & 0xc000_0000u32) >> 30u32;
        match EMappedNameType::try_from_u8(t as u8) {
            Some(ty) => Ok(FMappedName { index: index & Self::INDEX_MASK, number, ty }),
            None => Err(Error::invalid_enum("EMappedNameType")),
        }
    }

    /// Read `FMappedName` from a reader
    pub fn read(reader: &mut ByteReader) -> (res: Result<Self, Error>)
        ensures
            stepped(*old(reader), *final(reader), res, Self::spec_parse(old(reader).remaining())),
            old(reader).remaining().len() < 8 ==> res == Err::<Self, Error>(Error::Io(IoErrorKind::UnexpectedEof)),
    {
        let b = reader.read_record(8)?;
        proof {
            assert(b@ =~= old(reader).remaining().take(8));
        }
        Self::decode(b.as_slice())
    }

    /// Write `FMappedName` to a writer
    pub fn write(&self, writer: &mut ByteWriter) -> (res: Result<(), Error>)
        ensures res is Ok, final(writer).data@ == old(writer).data@ + self.spec_ser(),
    {
        let index = self.index & Self::INDEX_MASK | (self.ty.value() as u32) << Self::TYPE_SHIFT;
        writer.write_u32(index);
        writer.write_u32(self.number);
        assert(final(writer).data@ =~= old(writer).data@ + self.spec_ser());
        Ok(())
    }

    /// Reading back the encoding of a name whose index fits 30 bits gives the name.
    pub proof fn lemma_roundtrip(self, r: Seq<u8>)
        requires self.index <= Self::INDEX_MASK,
        ensures
            self.spec_ser().len() == 8,
            Self::spec_parse(self.spec_ser() + r) == Some((self, 8int)),
    {
        let p = self.spec_packed();
        lemma_ser_values(0, p, 0, 0, 0);
        lemma_ser_values(0, self.number, 0, 0, 0);
        let s = self.spec_ser() + r;
        assert(s.take(8).subrange(0, 4) =~= ser_u32(p));
        assert(s.take(8).subrange(4, 8) =~= ser_u32(self.number));
        let i = self.index;
        let t = self.ty.spec_value() as u32;
        assert(t < 3);
        assert(((p & 0xc000_0000u32) >> 30u32) == t && (p & 0x3fff_ffffu32) == i) by (bit_vector)
            requires p == (i & 0x3fff_ffffu32) | (t << 30u32), t < 3, i <= 0x3fff_ffffu32;
    }
}

/// IoStore serialized fname entry
#[derive(Debug, Clone, PartialEq, Eq, Hash)]
pub struct FNameEntrySerialized {
    /// Name
    pub name: Option<String>,
}

/// The object version from which name entries carry two 16-bit hashes.
pub const VER_UE4_NAME_HASHES_SERIALIZED: i32 = 504;

impl FNameEntrySerialized {
    /// Create a new `FNameEntrySerialized` instance
    pub fn new(name: Option<String>) -> (r: Self)
        ensures r == (FNameEntrySerialized { name }),
    {
        FNameEntrySerialized { name }
    }

    /// The entry at the start of `s`: an FString, then, from the object version that
    /// serializes name hashes on, two 16-bit hashes that are skipped.
    pub open spec fn spec_parse(s: Seq<u8>, object_version: i32) -> Option<(Option<Seq<char>>, int)> {
        match parse_fstring(s) {
            Some((name, k)) => if object_version >= VER_UE4_NAME_HASHES_SERIALIZED {
                if rest(s, k).len() >= 4 { Some((name, k + 4)) } else { None }
            } else {
                Some((name, k))
            },
            None => None,
        }
    }

    /// Read `FNameEntrySerialized` from a reader
    pub fn read(reader: &mut ByteReader, object_version: i32) -> (res: Result<Self, Error>)
        ensures
            final(reader).data@ == old(reader).data@,
            match res {
                Ok(e) => Self::spec_parse(old(reader).remaining(), object_version)
                    == Some((opt_chars(e.name), final(reader).pos - old(reader).pos)),
                Err(_) => Self::spec_parse(old(reader).remaining(), object_version) is None,
            },
    {
        let name = reader.read_fstring()?;
        if object_version >= VER_UE4_NAME_HASHES_SERIALIZED {
            let ghost r1 = *reader;
            let _non_case_preserving_hash = reader.read_u16()?;
            let _case_preserving_hash = reader.read_u16()?;
            proof {
                crate::iostore::toc::resource::lemma_fstring_len(old(reader).remaining());
                lemma_advance(*old(reader), r1);
            }
        }
        Ok(FNameEntrySerialized { name })
    }
}

} // verus!
