//! A stricter variant of the header decoder. It stores the raw 16-bit
//! major-version field verbatim and resolves it only on demand, reporting a
//! value outside the known table as an error instead of the `Unknown` tag.

use vstd::prelude::*;

use crate::header::MAGIC;
use crate::header::ParseError;
use crate::header::be_u16;
use crate::header::be_u32;
use crate::version::MajorVersion;
use crate::version::spec_resolve;

verus! {

/// A validated class-file header with the raw major-version field kept
/// verbatim. As with [`crate::header::Header`], a value exists only if the
/// magic signature matched.
#[derive(Debug, Clone, Copy)]
pub struct Header {
    magic_number: u32,
    minor_version: u16,
    major_version: u16,
}

impl Header {
    /// The magic signature this header was constructed from.
    pub closed spec fn spec_magic(self) -> u32 {
        self.magic_number
    }

    /// The minor version this header carries.
    pub closed spec fn spec_minor(self) -> u16 {
        self.minor_version
    }

    /// The raw major version this header carries.
    pub closed spec fn spec_major_raw(self) -> u16 {
        self.major_version
    }

    /// The invariant every constructed header satisfies.
    pub open spec fn wf(self) -> bool {
        self.spec_magic() == MAGIC
    }

    /// Decodes an eight-byte header, big-endian, as
    /// [`crate::header::Header::new`] does, but stores the raw major
    /// version without resolving it.
    pub fn new(bytes: [u8; 8]) -> (r: Result<Header, ParseError>)
        ensures
            r is Ok <==> be_u32(bytes[0], bytes[1], bytes[2], bytes[3]) == MAGIC,
            r is Ok ==> ({
                let h = r->Ok_0;
                &&& h.wf()
                &&& h.spec_magic() == be_u32(bytes[0], bytes[1], bytes[2], bytes[3])
                &&& h.spec_minor() == be_u16(bytes[4], bytes[5])
                &&& h.spec_major_raw() == be_u16(bytes[6], bytes[7])
            }),
            r is Err ==> r->Err_0 == ParseError::InvalidMagicNumber(
                be_u32(bytes[0], bytes[1], bytes[2], bytes[3]) as u32,
            ),
    {
        let magic_number: u32 = crate::header::read_be_u32(
            bytes[0],
            bytes[1],
            bytes[2],
            bytes[3],
        );
        let minor_version: u16 = crate::header::read_be_u16(bytes[4], bytes[5]);
        let major_version: u16 = crate::header::read_be_u16(bytes[6], bytes[7]);

        if magic_number != MAGIC {
            return Err(ParseError::InvalidMagicNumber(magic_number));
        }
        Ok(Header { magic_number, minor_version, major_version })
    }

    /// Resolves the stored raw major version against the known table.
    ///
    /// Unlike [`MajorVersion::from_u16`], a value outside the table is an
    /// error here, carrying the unresolved raw value; the `Unknown` tag is
    /// never returned.
    pub fn get_major_version(self) -> (r: Result<MajorVersion, u16>)
        ensures
            r is Ok <==> 0x2D <= self.spec_major_raw() <= 0x3F,
            r is Ok ==> r->Ok_0 == spec_resolve(self.spec_major_raw()),
            r is Ok ==> r->Ok_0 != MajorVersion::Unknown,
            r is Err ==> r->Err_0 == self.spec_major_raw(),
    {
        let v = MajorVersion::from_u16(self.major_version);
        proof {
            crate::version::lemma_resolve_known_range(self.major_version);
        }
        match v {
            MajorVersion::Unknown => Err(self.major_version),
            known => Ok(known),
        }
    }

    /// The minor version, exactly as it stood in the decoded bytes.
    pub fn get_minor_version(self) -> (m: u16)
        ensures
            m == self.spec_minor(),
    {
        self.minor_version
    }
}

} // verus!
