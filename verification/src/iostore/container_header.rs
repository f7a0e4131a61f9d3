//! IoStore container header

use vstd::prelude::*;
use crate::archive::{ByteReader, ByteWriter, stepped, rest, lemma_advance};
use crate::error::Error;
use super::name::FMappedName;
use super::package_id::PackageId;

verus! {

/// IoStore container header localized package
#[derive(Debug, Clone, Copy, PartialEq, Eq, Hash, Structural)]
pub struct IoContainerHeaderLocalizedPackage {
    /// Source package id
    pub source_package_id: PackageId,
    /// Source package name
    pub source_package_name: FMappedName,
}

impl IoContainerHeaderLocalizedPackage {
    /// The localized package at the start of `s`: a package id, then a mapped name.
    pub open spec fn spec_parse(s: Seq<u8>) -> Option<(Self, int)> {
        match PackageId::spec_parse(s) {
            Some((id, k)) => match FMappedName::spec_parse(rest(s, k)) {
                Some((name, m)) => Some((IoContainerHeaderLocalizedPackage {
                    source_package_id: id,
                    source_package_name: name,
                }, k + m)),
                None => None,
            },
            None => None,
        }
    }

    /// The encoding of the localized package.
    pub open spec fn spec_ser(self) -> Seq<u8> {
        self.source_package_id.spec_ser() + self.source_package_name.spec_ser()
    }

    /// Read `IoContainerHeaderLocalizedPackage` from a reader
    pub fn read(reader: &mut ByteReader) -> (res: Result<Self, Error>)
        ensures stepped(*old(reader), *final(reader), res, Self::spec_parse(old(reader).remaining())),
    {
        let source_package_id = PackageId::read(reader)?;
        proof { lemma_advance(*old(reader), *reader); }
        let source_package_name = FMappedName::read(reader)?;
        Ok(IoContainerHeaderLocalizedPackage { source_package_id, source_package_name })
    }

    /// Write `IoContainerHeaderLocalizedPackage` to a writer
    pub fn write(&self, writer: &mut ByteWriter) -> (res: Result<(), Error>)
        ensures res is Ok, final(writer).data@ == old(writer).data@ + self.spec_ser(),
    {
        let _ = self.source_package_id.write(writer);
        let _ = self.source_package_name.write(writer);
        assert(final(writer).data@ =~= old(writer).data@ + self.spec_ser());
        Ok(())
    }
}

/// IoStore container header package redirect
#[derive(Debug, Clone, Copy, PartialEq, Eq, Hash, Structural)]
pub struct IoContainerHeaderPackageRedirect {
    /// Source package id
    pub source_package_id: PackageId,
    /// Target package id
    pub target_package_id: PackageId,
    /// Source package name
    pub source_package_name: FMappedName,
}

impl IoContainerHeaderPackageRedirect {
    /// The redirect at the start of `s`: two package ids, then a mapped name.
    pub open spec fn spec_parse(s: Seq<u8>) -> Option<(Self, int)> {
        match PackageId::spec_parse(s) {
            Some((src, k1)) => match PackageId::spec_parse(rest(s, k1)) {
                Some((dst, k2)) => match FMappedName::spec_parse(rest(s, k1 + k2)) {
                    Some((name, k3)) => Some((IoContainerHeaderPackageRedirect {
                        source_package_id: src,
                        target_package_id: dst,
                        source_package_name: name,
                    }, k1 + k2 + k3)),
                    None => None,
                },
                None => None,
            },
            None => None,
        }
    }

    /// The encoding of the redirect.
    pub open spec fn spec_ser(self) -> Seq<u8> {
        self.source_package_id.spec_ser() + self.target_package_id.spec_ser() + self.source_package_name.spec_ser()
    }

    /// Read `IoContainerHeaderPackageRedirect` from a reader
    pub fn read(reader: &mut ByteReader) -> (res: Result<Self, Error>)
        ensures stepped(*old(reader), *final(reader), res, Self::spec_parse(old(reader).remaining())),
    {
        let ghost s = old(reader).remaining();
        let source_package_id = PackageId::read(reader)?;
        proof { lemma_advance(*old(reader), *reader); }
        let ghost r1 = *reader;
        let target_package_id = PackageId::read(reader)?;
        proof {
            lemma_advance(r1, *reader);
            assert(rest(rest(s, 8), 8) =~= rest(s, 16));
        }
        let source_package_name = FMappedName::read(reader)?;
        Ok(IoContainerHeaderPackageRedirect { source_package_id, target_package_id, source_package_name })
    }

    /// Write `IoContainerHeaderPackageRedirect` to a writer
    pub fn write(&self, writer: &mut ByteWriter) -> (res: Result<(), Error>)
        ensures res is Ok, final(writer).data@ == old(writer).data@ + self.spec_ser(),
    {
        let _ = self.source_package_id.write(writer);
        let _ = self.target_package_id.write(writer);
        let _ = self.source_package_name.write(writer);
        assert(final(writer).data@ =~= old(writer).data@ + self.spec_ser());
        Ok(())
    }
}

} // verus!
