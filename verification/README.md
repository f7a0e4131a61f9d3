# unreal_asset

Reading and writing Unreal Engine asset data and IoStore containers, with the
behaviour of each reader and writer stated in Verus contracts and proved.

Every binary record is described twice: by an executable reader or writer over a
byte buffer, and by a specification function that says which bytes the record
occupies. The contracts tie the two together; proof functions state the laws
that span several calls, chiefly that reading back what was written gives the
written value (kismet bytecode, FProperties, TOC resources, export entries,
class export fields, string tables, custom versions) and that decryption undoes encryption.

## Layout

- `src/` — the verified library
  - `archive.rs`, `bytes.rs`, `strings.rs` — byte readers and writers, little- and
    big-endian integers, FStrings
  - `asset/` — the name map, asset data defaults and the struct type override tables
  - `containers/` — a chain of two byte sources and an insertion-indexed map
  - `kismet/` — blueprint bytecode: tokens, expressions, their readers, writers and
    the round-trip proof
  - `fproperty.rs`, `fproperty_rt.rs` — FProperties and their round trip
  - `exports/` — export map entries, the choice of reader by class name, the map
    overrides of blueprint classes, class export fields and string tables
  - `iostore/` — TOC headers, resources, directory indices, encryption, providers, and the
    zen package header (summary, versioning info, name batch, bulk data map, import and
    export maps, graph data)
  - `ac7.rs` — the AC7 xor key stream
  - `custom_version.rs`, `engine_version.rs`, `version_registry.rs` — versions
- `tests/` — tests run against the compiled library
- `app/` — file and stream handling around the library, and the error types with
  their messages

Trusted items (functions whose contracts Verus takes without proof) are the
wrappers around `byteorder`, the `aes` block cipher and a few functions of the
standard library; each one's doc comment says what it claims.
