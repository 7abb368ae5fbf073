//! The header decoder: validates the magic signature and decodes the
//! version fields of an eight-byte class-file header.

use vstd::prelude::*;

use crate::text;
use crate::version::MajorVersion;
use crate::version::spec_resolve;

verus! {

/// The expected four-byte magic signature of a class-file container.
pub const MAGIC: u32 = 0xCAFEBABE;

/// The one failure the decoder can report: the first four bytes do not form
/// the expected magic signature. Carries the 32-bit value actually read.
#[derive(Debug, Clone, Copy, PartialEq, Eq, Structural)]
pub enum ParseError {
    InvalidMagicNumber(u32),
}

/// The big-endian 32-bit value of four bytes.
pub open spec fn be_u32(b0: u8, b1: u8, b2: u8, b3: u8) -> int {
    (b0 as int) * 0x1000000 + (b1 as int) * 0x10000 + (b2 as int) * 0x100 + (b3 as int)
}

/// The big-endian 16-bit value of two bytes.
pub open spec fn be_u16(hi: u8, lo: u8) -> int {
    (hi as int) * 0x100 + (lo as int)
}

/// Assembling four bytes by shifts and ors yields their big-endian value.
proof fn lemma_be_u32_shift(b0: u8, b1: u8, b2: u8, b3: u8)
    by (bit_vector)
    ensures
        (((b0 as u32) << 24) | ((b1 as u32) << 16) | ((b2 as u32) << 8) | (b3 as u32)) == (
        b0 as u32) * 0x1000000 + (b1 as u32) * 0x10000 + (b2 as u32) * 0x100 + (b3 as u32),
{
}

/// Assembling two bytes by a shift and an or yields their big-endian value.
proof fn lemma_be_u16_shift(hi: u8, lo: u8)
    by (bit_vector)
    ensures
        (((hi as u16) << 8) | (lo as u16)) == (hi as u16) * 0x100 + (lo as u16),
{
}

/// Assembles four bytes into their big-endian 32-bit value by shifts and
/// ors.
pub fn read_be_u32(b0: u8, b1: u8, b2: u8, b3: u8) -> (r: u32)
    ensures
        r == be_u32(b0, b1, b2, b3),
{
    proof {
        lemma_be_u32_shift(b0, b1, b2, b3);
    }
    ((b0 as u32) << 24) | ((b1 as u32) << 16) | ((b2 as u32) << 8) | (b3 as u32)
}

/// Assembles two bytes into their big-endian 16-bit value by a shift and an
/// or.
pub fn read_be_u16(hi: u8, lo: u8) -> (r: u16)
    ensures
        r == be_u16(hi, lo),
{
    proof {
        lemma_be_u16_shift(hi, lo);
    }
    ((hi as u16) << 8) | (lo as u16)
}

/// A validated class-file header: the magic signature, the minor version
/// carried verbatim, and the major version resolved against the known table.
///
/// A value of this type exists only if the magic signature matched:
/// construction through [`Header::new`] is the sole validation gate, and a
/// constructed header is read-only.
#[derive(Debug, Clone, Copy)]
pub struct Header {
    magic_number: u32,
    minor_version: u16,
    major_version: MajorVersion,
}

impl Header {
    /// The magic signature this header was constructed from.
    pub closed spec fn spec_magic(self) -> u32 {
        self.magic_number
    }

    /// The minor version this header carries.
    pub closed spec fn spec_minor(self) -> u16 {
        self.minor_version
    }

    /// The resolved major version this header carries.
    pub closed spec fn spec_major(self) -> MajorVersion {
        self.major_version
    }

    /// The invariant every constructed header satisfies.
    pub open spec fn wf(self) -> bool {
        self.spec_magic() == MAGIC
    }

    /// Decodes an eight-byte header, big-endian: bytes 0 to 3 are the magic
    /// signature, bytes 4 and 5 the minor version, bytes 6 and 7 the raw
    /// major version.
    ///
    /// Succeeds exactly when the magic signature equals [`MAGIC`]; otherwise
    /// reports the 32-bit value actually read. The minor version is stored
    /// verbatim, and the raw major version is resolved against the known
    /// table, never rejected.
    pub fn new(bytes: [u8; 8]) -> (r: Result<Header, ParseError>)
        ensures
            r is Ok <==> be_u32(bytes[0], bytes[1], bytes[2], bytes[3]) == MAGIC,
            r is Ok ==> ({
                let h = r->Ok_0;
                &&& h.wf()
                &&& h.spec_magic() == be_u32(bytes[0], bytes[1], bytes[2], bytes[3])
                &&& h.spec_minor() == be_u16(bytes[4], bytes[5])
                &&& h.spec_major() == spec_resolve(be_u16(bytes[6], bytes[7]) as u16)
            }),
            r is Err ==> r->Err_0 == ParseError::InvalidMagicNumber(
                be_u32(bytes[0], bytes[1], bytes[2], bytes[3]) as u32,
            ),
    {
        let magic_number: u32 = read_be_u32(bytes[0], bytes[1], bytes[2], bytes[3]);
        let minor_version: u16 = read_be_u16(bytes[4], bytes[5]);
        let major_raw: u16 = read_be_u16(bytes[6], bytes[7]);

        if magic_number != MAGIC {
            return Err(ParseError::InvalidMagicNumber(magic_number));
        }
        Ok(
            Header {
                magic_number,
                minor_version,
                major_version: MajorVersion::from_u16(major_raw),
            },
        )
    }

    /// The magic signature, always [`MAGIC`] on a constructed header.
    pub fn get_magic_number(self) -> (m: u32)
        ensures
            m == self.spec_magic(),
    {
        self.magic_number
    }

    /// The resolved major version.
    pub fn get_major_version(self) -> (v: MajorVersion)
        ensures
            v == self.spec_major(),
    {
        self.major_version
    }

    /// The minor version, exactly as it stood in the decoded bytes.
    pub fn get_minor_version(self) -> (m: u16)
        ensures
            m == self.spec_minor(),
    {
        self.minor_version
    }
}

/// The textual rendering of a header: the magic signature in hexadecimal,
/// the major version's release name, and the minor version in decimal, one
/// per line.
pub open spec fn spec_render(h: Header) -> Seq<char> {
    "Magic Number: 0x"@ + text::hex32_seq(h.spec_magic()) + "\nMajor Version: "@
        + h.spec_major().spec_label() + "\nMinor Version: "@ + text::dec_seq(h.spec_minor() as nat)
}

impl Header {
    /// Renders the header as text, one field per line.
    pub fn render(self) -> (r: String)
        ensures
            r@ == spec_render(self),
    {
        let mut s = String::from_str("Magic Number: 0x");
        s.append(text::u32_hex(self.get_magic_number()).as_str());
        s.append("\nMajor Version: ");
        s.append(self.get_major_version().label().as_str());
        s.append("\nMinor Version: ");
        s.append(text::u16_dec(self.get_minor_version()).as_str());
        proof {
            assert(s@ =~= spec_render(self));
        }
        s
    }
}

} // verus!
