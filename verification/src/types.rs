//! Basic value types: vectors, colors, GUIDs, names and string tables.

use vstd::prelude::*;
use std::collections::HashMap;
use crate::bytes::le_bytes;

verus! {

/// A 16-byte globally unique identifier.
pub type Guid = [u8; 16];

/// The bytes of the GUID made of four 32-bit parts, each stored little-endian.
pub open spec fn spec_new_guid(a: u32, b: u32, c: u32, d: u32) -> Seq<u8> {
    le_bytes(a as nat, 4) + le_bytes(b as nat, 4) + le_bytes(c as nat, 4) + le_bytes(d as nat, 4)
}

/// The little-endian bytes of a `u32`, as masks and shifts.
pub proof fn lemma_u32_le_bytes(x: u32)
    ensures
        le_bytes(x as nat, 4) == seq![
            (x & 0xff) as u8,
            ((x >> 8) & 0xff) as u8,
            ((x >> 16) & 0xff) as u8,
            ((x >> 24) & 0xff) as u8,
        ],
{
    reveal_with_fuel(le_bytes, 5);
    let n = x as nat;
    assert(x & 0xff == x % 256) by (bit_vector);
    assert((x >> 8) & 0xff == (x / 256) % 256) by (bit_vector);
    assert((x >> 16) & 0xff == ((x / 256) / 256) % 256) by (bit_vector);
    assert((x >> 24) & 0xff == (((x / 256) / 256) / 256) % 256) by (bit_vector);
    assert(le_bytes(n, 4) =~= seq![
        (x & 0xff) as u8,
        ((x >> 8) & 0xff) as u8,
        ((x >> 16) & 0xff) as u8,
        ((x >> 24) & 0xff) as u8,
    ]);
}

/// Creates a GUID from four 32-bit parts.
pub fn new_guid(a: u32, b: u32, c: u32, d: u32) -> (g: Guid)
    ensures g@ == spec_new_guid(a, b, c, d),
{
    let g: Guid = [
        (a & 0xff) as u8, ((a >> 8) & 0xff) as u8, ((a >> 16) & 0xff) as u8, ((a >> 24) & 0xff) as u8,
        (b & 0xff) as u8, ((b >> 8) & 0xff) as u8, ((b >> 16) & 0xff) as u8, ((b >> 24) & 0xff) as u8,
        (c & 0xff) as u8, ((c >> 8) & 0xff) as u8, ((c >> 16) & 0xff) as u8, ((c >> 24) & 0xff) as u8,
        (d & 0xff) as u8, ((d >> 8) & 0xff) as u8, ((d >> 16) & 0xff) as u8, ((d >> 24) & 0xff) as u8,
    ];
    proof {
        lemma_u32_le_bytes(a);
        lemma_u32_le_bytes(b);
        lemma_u32_le_bytes(c);
        lemma_u32_le_bytes(d);
        assert(g@ =~= spec_new_guid(a, b, c, d));
    }
    g
}

/// Whether two GUIDs are equal, byte by byte.
pub fn guid_eq(a: &Guid, b: &Guid) -> (r: bool)
    ensures r == (a@ == b@),
{
    let mut i: usize = 0;
    while i < 16
        invariant
            i <= 16,
            a@.len() == 16,
            b@.len() == 16,
            forall|j: int| 0 <= j < i ==> a@[j] == b@[j],
        decreases 16 - i,
    {
        if a[i] != b[i] {
            return false;
        }
        i = i + 1;
    }
    assert(a@ =~= b@);
    true
}

/// A three-component vector
#[derive(Debug, Clone, Copy, PartialEq, Eq, Hash)]
pub struct Vector<T> {
    /// X component
    pub x: T,
    /// Y component
    pub y: T,
    /// Z component
    pub z: T,
}

impl<T> Vector<T> {
    /// Creates a vector from its components.
    pub fn new(x: T, y: T, z: T) -> (v: Self)
        ensures v.x == x, v.y == y, v.z == z,
    {
        Vector { x, y, z }
    }
}

/// A four-component color
#[derive(Debug)]
pub struct Color<T> {
    /// Red
    pub r: T,
    /// Green
    pub g: T,
    /// Blue
    pub b: T,
    /// Alpha
    pub a: T,
}

impl<T> Color<T> {
    /// Creates a color from its components.
    pub fn new(r: T, g: T, b: T, a: T) -> (c: Self)
        ensures c.r == r, c.g == g, c.b == b, c.a == a,
    {
        Color { r, g, b, a }
    }
}

/// The byte of `argb` that starts at bit `shift`.
pub open spec fn argb_byte(argb: i32, shift: int) -> u8 {
    (((argb as u32) as int / pow2_int(shift)) % 256) as u8
}

pub open spec fn pow2_int(shift: int) -> int {
    if shift == 24 { 0x100_0000 } else if shift == 16 { 0x1_0000 } else if shift == 8 { 0x100 } else { 1 }
}

impl Color<u8> {
    /// Splits a packed ARGB value into its components: the most significant byte
    /// is the first component, the least significant byte the last.
    pub fn from_argb(argb: i32) -> (c: Self)
        ensures
            c.r == argb_byte(argb, 24),
            c.g == argb_byte(argb, 16),
            c.b == argb_byte(argb, 8),
            c.a == argb_byte(argb, 0),
    {
        let u = argb as u32;
        assert(((u >> 24) & 0xff) == (u / 0x100_0000) % 256) by (bit_vector);
        assert(((u >> 16) & 0xff) == (u / 0x1_0000) % 256) by (bit_vector);
        assert(((u >> 8) & 0xff) == (u / 0x100) % 256) by (bit_vector);
        assert((u & 0xff) == u % 256) by (bit_vector);
        assert(((argb >> 24) & 0xff) as u8 == ((u >> 24) & 0xff) as u8) by (bit_vector)
            requires u == argb as u32;
        assert(((argb >> 16) & 0xff) as u8 == ((u >> 16) & 0xff) as u8) by (bit_vector)
            requires u == argb as u32;
        assert(((argb >> 8) & 0xff) as u8 == ((u >> 8) & 0xff) as u8) by (bit_vector)
            requires u == argb as u32;
        assert((argb & 0xff) as u8 == (u & 0xff) as u8) by (bit_vector)
            requires u == argb as u32;
        Color::new(
            ((argb >> 24) & 0xff) as u8,
            ((argb >> 16) & 0xff) as u8,
            ((argb >> 8) & 0xff) as u8,
            (argb & 0xff) as u8,
        )
    }
}

/// Export and name counts of one generation of an asset
#[derive(Debug)]
pub struct GenerationInfo {
    /// Export count
    pub export_count: i32,
    /// Name count
    pub name_count: i32,
}

/// A name and its instance number
#[derive(Debug, Default, Hash, PartialEq, Eq, Clone)]
pub struct FName {
    /// The text of the name
    pub content: String,
    /// The instance number
    pub index: i32,
}

impl FName {
    /// Creates a name.
    pub fn new(content: String, index: i32) -> (n: Self)
        ensures n.content == content, n.index == index,
    {
        FName { content, index }
    }
}

/// A string with its namespace
#[derive(Debug, Default)]
pub struct NamespacedString {
    /// Namespace
    pub namespace: String,
    /// Value
    pub value: String,
}

impl NamespacedString {
    /// Creates a namespaced string.
    pub fn new(namespace: String, value: String) -> (s: Self)
        ensures s.namespace == namespace, s.value == value,
    {
        NamespacedString { namespace, value }
    }
}

/// A table of strings of one namespace
#[derive(Debug)]
pub struct StringTable {
    /// Namespace
    pub namespace: String,
    /// Key to value
    pub value: HashMap<String, String>,
}

impl StringTable {
    /// Creates an empty string table.
    pub fn new(namespace: String) -> (t: Self)
        ensures t.namespace == namespace, t.value@ == Map::<String, String>::empty(),
    {
        StringTable { namespace, value: HashMap::new() }
    }
}

/// An integer point property: a name, its property GUID when the header is read, and two
/// coordinates
#[derive(Debug)]
pub struct IntPointProperty {
    /// Name
    pub name: FName,
    /// Property GUID
    pub property_guid: Option<Guid>,
    /// X coordinate
    pub x: i32,
    /// Y coordinate
    pub y: i32,
}

/// A world tile layer
pub struct FWorldTileLayer {
    /// Name
    pub name: Option<String>,
    /// Reserved
    pub reserved_0: i32,
    /// Reserved
    pub reserved_1: IntPointProperty,
    /// Streaming distance
    pub streaming_distance: Option<i32>,
    /// Whether distance streaming is enabled
    pub distance_streaming_enabled: Option<bool>,
}

/// A reference into an asset's imports (negative), exports (positive) or nothing (zero)
#[derive(Debug, Clone, Copy, PartialEq, Eq, Hash, Structural)]
pub struct PackageIndex {
    /// The raw index
    pub index: i32,
}

impl PackageIndex {
    /// Creates a package index.
    pub fn new(index: i32) -> (r: Self)
        ensures r.index == index,
    {
        PackageIndex { index }
    }

    /// Whether the index refers to an import.
    pub fn is_import(&self) -> (r: bool)
        ensures r == (self.index < 0),
    {
        self.index < 0
    }

    /// Whether the index refers to an export.
    pub fn is_export(&self) -> (r: bool)
        ensures r == (self.index > 0),
    {
        self.index > 0
    }

    /// Whether the index refers to nothing.
    pub fn is_null(&self) -> (r: bool)
        ensures r == (self.index == 0),
    {
        self.index == 0
    }
}

/// A name of an asset's name map, by its position there and its instance number
#[derive(Debug, Clone, Copy, PartialEq, Eq, Hash, Structural)]
pub struct NameIndex {
    /// Position in the name map
    pub index: i32,
    /// Instance number
    pub number: i32,
}

} // verus!
