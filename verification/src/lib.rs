//! Decoder for the fixed eight-byte header of a compiled class file.
//!
//! The header holds a four-byte magic signature, a two-byte minor version
//! and a two-byte major version, all big-endian. The library validates the
//! magic signature, resolves the major version against the table of known
//! runtime releases, and renders a header as text. Reading the bytes from a
//! file is left to the caller.

pub mod header;
pub mod strict;
pub mod text;
pub mod version;
