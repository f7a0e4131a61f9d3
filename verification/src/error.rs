//! Errors raised while reading or writing assets and containers.

use vstd::prelude::*;
use vstd::string::StringExecFns;
use crate::archive::ArchiveType;
use crate::custom_version::FAssetRegistryVersionType;

verus! {

/// Kinds of failure of the underlying byte stream.
#[derive(Debug, Clone, Copy, PartialEq, Eq, Structural)]
pub enum IoErrorKind {
    /// The stream ended before the requested bytes.
    UnexpectedEof,
    /// A position or size was out of the representable range.
    InvalidInput,
}

/// Thrown when an FString failed to deserialize
#[derive(Debug, Clone, Copy, PartialEq, Eq, Structural)]
pub enum FStringError {
    /// The length prefix is outside the accepted range
    InvalidStringSize(i32),
}

/// Thrown when kismet bytecode failed to deserialize
#[derive(Debug)]
pub enum KismetError {
    /// Kismet token was invalid
    InvalidToken(String),
    /// Unknown kismet expression
    UnknownExpression(String),
}

impl KismetError {
    /// Create a `KismetError` for an invalid token
    pub fn token(msg: String) -> (r: Self)
        ensures r == KismetError::InvalidToken(msg),
    {
        KismetError::InvalidToken(msg)
    }

    /// Create a `KismetError` for an unknown expression
    pub fn expression(msg: String) -> (r: Self)
        ensures r == KismetError::UnknownExpression(msg),
    {
        KismetError::UnknownExpression(msg)
    }

    /// The message of the error.
    pub fn to_string(&self) -> (r: String)
        ensures
            r@ == match self {
                KismetError::InvalidToken(m) => m@,
                KismetError::UnknownExpression(m) => m@,
            },
    {
        match self {
            KismetError::InvalidToken(m) => m.clone(),
            KismetError::UnknownExpression(m) => m.clone(),
        }
    }
}

/// Thrown when a usmap file failed to deserialize
#[derive(Debug)]
pub enum UsmapError {
    /// Unsupported usmap compression
    UnsupportedCompression(u8),
    /// Invalid compressiondata
    InvalidCompressionData,
}

impl UsmapError {
    /// Create an `UsmapError` for an unsupported compresion
    pub fn unsupported_compression(compression: u8) -> (r: Self)
        ensures r == UsmapError::UnsupportedCompression(compression),
    {
        UsmapError::UnsupportedCompression(compression)
    }

    /// Create an `UsmapError` for invalid compression data
    pub fn invalid_compression_data() -> (r: Self)
        ensures r == UsmapError::InvalidCompressionData,
    {
        UsmapError::InvalidCompressionData
    }
}

/// Thrown when asset registry failed to deserialize
#[derive(Debug)]
pub enum RegistryError {
    /// Invalid registry index
    InvalidIndex(i32),
    /// Invalid registry value for a given version
    Version(String, FAssetRegistryVersionType),
    /// Other
    Other(String),
}

impl RegistryError {
    /// Create a `RegistryError` for an invalid registry index
    pub fn index(index: i32) -> (r: Self)
        ensures r == RegistryError::InvalidIndex(index),
    {
        RegistryError::InvalidIndex(index)
    }

    /// Create a `RegistryError` for an invalid value for a given version
    pub fn version(msg: String, version: FAssetRegistryVersionType) -> (r: Self)
        ensures r == RegistryError::Version(msg, version),
    {
        RegistryError::Version(msg, version)
    }

    /// Create an other `RegistryError`
    pub fn other(msg: String) -> (r: Self)
        ensures r == RegistryError::Other(msg),
    {
        RegistryError::Other(msg)
    }
}

/// Thrown when a property failed to deserialize
#[derive(Debug)]
pub enum PropertyError {
    /// Header data was expected when serializing, but none was found
    HeaderlessProperty,
    /// A field was None when Some(...) was expected
    PropertyFieldNone(String, String),
    /// A `StructProperty` is invalid
    InvalidStruct(String),
    /// An `ArrayProperty` is invalid
    InvalidArrayType(String),
    /// Other
    Other(String),
}

impl PropertyError {
    /// Create a `PropertyError` for a property where a header was expected when serializing, but none was found
    pub fn headerless() -> (r: Self)
        ensures r == PropertyError::HeaderlessProperty,
    {
        PropertyError::HeaderlessProperty
    }

    /// Create a `PropertyError` for a field that was expected to have a value, but was None
    pub fn property_field_none(field_name: &str, expected: &str) -> (r: Self)
        ensures
            r matches PropertyError::PropertyFieldNone(f, e) && f@ == field_name@ && e@ == expected@,
    {
        PropertyError::PropertyFieldNone(field_name.to_owned(), expected.to_owned())
    }

    /// Create a `PropertyError` for an invalid `StructProperty`
    pub fn invalid_struct(msg: String) -> (r: Self)
        ensures r == PropertyError::InvalidStruct(msg),
    {
        PropertyError::InvalidStruct(msg)
    }

    /// Create a `PropertyError` for an invalid `ArrayProperty`
    pub fn invalid_array(msg: String) -> (r: Self)
        ensures r == PropertyError::InvalidArrayType(msg),
    {
        PropertyError::InvalidArrayType(msg)
    }

    /// Create an other `PropertyError`
    pub fn other(msg: String) -> (r: Self)
        ensures r == PropertyError::Other(msg),
    {
        PropertyError::Other(msg)
    }

    /// The message of the error.
    pub fn to_string(&self) -> (r: String)
        ensures
            r@ == match self {
                PropertyError::HeaderlessProperty => "include_header: true on headerless property"@,
                PropertyError::PropertyFieldNone(f, e) => f@ + " is None, expected "@ + e@,
                PropertyError::InvalidStruct(m) => m@,
                PropertyError::InvalidArrayType(m) => m@,
                PropertyError::Other(m) => m@,
            },
    {
        match self {
            PropertyError::HeaderlessProperty => String::from_str("include_header: true on headerless property"),
            PropertyError::PropertyFieldNone(f, e) => {
                let mut r = f.clone();
                r.append(" is None, expected ");
                r.append(e.as_str());
                r
            },
            PropertyError::InvalidStruct(m) => m.clone(),
            PropertyError::InvalidArrayType(m) => m.clone(),
            PropertyError::Other(m) => m.clone(),
        }
    }
}

/// Thrown when an IoStore container failed to deserialize
#[derive(Debug)]
pub enum IoStoreError {
    /// The .utoc magic is not the expected one
    InvalidTocMagic(Vec<u8>),
    /// The .utoc header size is not the expected one (expected, found)
    InvalidTocHeaderSize(u32, u32),
    /// The container is encrypted but no key was given
    NoEncryptionKey,
    /// No file of this name is mapped
    NoFile(String),
    /// No chunk of this kind was found
    NoChunk(String),
}

/// Error type
#[derive(Debug)]
pub enum Error {
    /// The byte stream failed
    Io(IoErrorKind),
    /// An `FStringError` occured
    FString(FStringError),
    /// Bytes were not valid UTF-8
    Utf8,
    /// Code units were not valid UTF-16
    Utf16,
    /// Expected data was not found
    NoData(String),
    /// An FName pointer was out of range
    FName(i32, usize),
    /// The file is invalid
    InvalidFile(String),
    /// A package index is invalid
    InvalidPackageIndex(String),
    /// An enum value is invalid
    InvalidEnumValue(String),
    /// Part of the library is not implemented
    Unimplemented(String),
    /// The archive is of another kind than the operation works on (expected, found)
    ArchiveTypeMismatch(Vec<ArchiveType>, ArchiveType),
    /// A `KismetError` occured
    Kismet(KismetError),
    /// A `PropertyError` occcured
    Property(PropertyError),
    /// A `RegistryError` occured
    Registry(RegistryError),
    /// A `UsmapError` occured
    Usmap(UsmapError),
    /// An `IoStoreError` occured
    IoStore(IoStoreError),
}

impl Error {
    /// Create an `Error` for a case where expected data was not found
    pub fn no_data(msg: String) -> (r: Self)
        ensures r == Error::NoData(msg),
    {
        Error::NoData(msg)
    }

    /// Create an `Error` when an FName pointer was out of range
    pub fn fname(index: i32, name_map_size: usize) -> (r: Self)
        ensures r == Error::FName(index, name_map_size),
    {
        Error::FName(index, name_map_size)
    }

    /// Create an `Error` when the file was invalid
    pub fn invalid_file(msg: String) -> (r: Self)
        ensures r == Error::InvalidFile(msg),
    {
        Error::InvalidFile(msg)
    }

    /// Create an `Error` when a package index is invalid
    pub fn invalid_package_index(msg: String) -> (r: Self)
        ensures r == Error::InvalidPackageIndex(msg),
    {
        Error::InvalidPackageIndex(msg)
    }

    /// Create an `Error` when a part of the library is not implemented
    pub fn unimplemented(msg: String) -> (r: Self)
        ensures r == Error::Unimplemented(msg),
    {
        Error::Unimplemented(msg)
    }

    /// The error for a read past the end of the data.
    pub fn eof() -> (r: Self)
        ensures r == Error::Io(IoErrorKind::UnexpectedEof),
    {
        Error::Io(IoErrorKind::UnexpectedEof)
    }

    /// The error for an operation on .uasset and zen archives that met an archive of the kind
    /// `found`.
    pub fn archive_type_mismatch(found: ArchiveType) -> (r: Self)
        ensures
            r matches Error::ArchiveTypeMismatch(v, t) && t == found
                && v@ == seq![ArchiveType::UAsset, ArchiveType::Zen],
    {
        let v = vec![ArchiveType::UAsset, ArchiveType::Zen];
        Error::ArchiveTypeMismatch(v, found)
    }

    /// The error for an enum discriminant that names no variant.
    pub fn invalid_enum(enum_name: &str) -> (r: Self)
        ensures r matches Error::InvalidEnumValue(m) && m@ == enum_name@,
    {
        Error::InvalidEnumValue(enum_name.to_owned())
    }
}

} // verus!
