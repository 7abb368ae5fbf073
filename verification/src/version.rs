//! The closed table of known major versions and its resolver.

use vstd::prelude::*;

verus! {

/// A known runtime release, identified by the raw major-version field of a
/// class-file header, plus a catch-all for values outside the known table.
///
/// The known raw values form the closed range `0x2D` (the oldest release)
/// through `0x3F` (the newest); anything else resolves to `Unknown`, which
/// is a valid outcome, not an error: a structurally well-formed file may
/// come from a release this table does not know yet.
#[derive(Debug, Clone, Copy, PartialEq, Eq, Structural)]
pub enum MajorVersion {
    Unknown,
    Java19,
    Java18,
    Java17,
    Java16,
    Java15,
    Java14,
    Java13,
    Java12,
    Java11,
    Java10,
    Java9,
    Java8,
    Java7,
    Java6,
    Java5,
    Java1_4,
    Java1_3,
    Java1_2,
    Java1_1,
}

/// The resolution table: which tag a raw 16-bit major version stands for.
pub open spec fn spec_resolve(raw: u16) -> MajorVersion {
    if raw == 0x3F {
        MajorVersion::Java19
    } else if raw == 0x3E {
        MajorVersion::Java18
    } else if raw == 0x3D {
        MajorVersion::Java17
    } else if raw == 0x3C {
        MajorVersion::Java16
    } else if raw == 0x3B {
        MajorVersion::Java15
    } else if raw == 0x3A {
        MajorVersion::Java14
    } else if raw == 0x39 {
        MajorVersion::Java13
    } else if raw == 0x38 {
        MajorVersion::Java12
    } else if raw == 0x37 {
        MajorVersion::Java11
    } else if raw == 0x36 {
        MajorVersion::Java10
    } else if raw == 0x35 {
        MajorVersion::Java9
    } else if raw == 0x34 {
        MajorVersion::Java8
    } else if raw == 0x33 {
        MajorVersion::Java7
    } else if raw == 0x32 {
        MajorVersion::Java6
    } else if raw == 0x31 {
        MajorVersion::Java5
    } else if raw == 0x30 {
        MajorVersion::Java1_4
    } else if raw == 0x2F {
        MajorVersion::Java1_3
    } else if raw == 0x2E {
        MajorVersion::Java1_2
    } else if raw == 0x2D {
        MajorVersion::Java1_1
    } else {
        MajorVersion::Unknown
    }
}

impl MajorVersion {
    /// Resolves a raw major-version value against the known table.
    ///
    /// Total: a value outside the table resolves to `Unknown` rather than
    /// failing.
    pub fn from_u16(value: u16) -> (v: MajorVersion)
        ensures
            v == spec_resolve(value),
    {
        match value {
            0x3F => MajorVersion::Java19,
            0x3E => MajorVersion::Java18,
            0x3D => MajorVersion::Java17,
            0x3C => MajorVersion::Java16,
            0x3B => MajorVersion::Java15,
            0x3A => MajorVersion::Java14,
            0x39 => MajorVersion::Java13,
            0x38 => MajorVersion::Java12,
            0x37 => MajorVersion::Java11,
            0x36 => MajorVersion::Java10,
            0x35 => MajorVersion::Java9,
            0x34 => MajorVersion::Java8,
            0x33 => MajorVersion::Java7,
            0x32 => MajorVersion::Java6,
            0x31 => MajorVersion::Java5,
            0x30 => MajorVersion::Java1_4,
            0x2F => MajorVersion::Java1_3,
            0x2E => MajorVersion::Java1_2,
            0x2D => MajorVersion::Java1_1,
            _ => MajorVersion::Unknown,
        }
    }
}

impl MajorVersion {
    /// The human-readable release name of this tag.
    pub open spec fn spec_label(self) -> Seq<char> {
        match self {
            MajorVersion::Java19 => "Java SE 19"@,
            MajorVersion::Java18 => "Java SE 18"@,
            MajorVersion::Java17 => "Java SE 17"@,
            MajorVersion::Java16 => "Java SE 16"@,
            MajorVersion::Java15 => "Java SE 15"@,
            MajorVersion::Java14 => "Java SE 14"@,
            MajorVersion::Java13 => "Java SE 13"@,
            MajorVersion::Java12 => "Java SE 12"@,
            MajorVersion::Java11 => "Java SE 11"@,
            MajorVersion::Java10 => "Java SE 10"@,
            MajorVersion::Java9 => "Java SE 9"@,
            MajorVersion::Java8 => "Java SE 8"@,
            MajorVersion::Java7 => "Java SE 7"@,
            MajorVersion::Java6 => "Java SE 6.0"@,
            MajorVersion::Java5 => "Java SE 50."@,
            MajorVersion::Java1_4 => "Java 1.4"@,
            MajorVersion::Java1_3 => "Java 1.3"@,
            MajorVersion::Java1_2 => "Java 1.2"@,
            MajorVersion::Java1_1 => "Java 1.1"@,
            MajorVersion::Unknown => "Unknown Version"@,
        }
    }

    /// The human-readable release name of this tag; `Unknown` renders as a
    /// fixed placeholder.
    pub fn label(self) -> (r: String)
        ensures
            r@ == self.spec_label(),
    {
        match self {
            MajorVersion::Java19 => String::from_str("Java SE 19"),
            MajorVersion::Java18 => String::from_str("Java SE 18"),
            MajorVersion::Java17 => String::from_str("Java SE 17"),
            MajorVersion::Java16 => String::from_str("Java SE 16"),
            MajorVersion::Java15 => String::from_str("Java SE 15"),
            MajorVersion::Java14 => String::from_str("Java SE 14"),
            MajorVersion::Java13 => String::from_str("Java SE 13"),
            MajorVersion::Java12 => String::from_str("Java SE 12"),
            MajorVersion::Java11 => String::from_str("Java SE 11"),
            MajorVersion::Java10 => String::from_str("Java SE 10"),
            MajorVersion::Java9 => String::from_str("Java SE 9"),
            MajorVersion::Java8 => String::from_str("Java SE 8"),
            MajorVersion::Java7 => String::from_str("Java SE 7"),
            MajorVersion::Java6 => String::from_str("Java SE 6.0"),
            MajorVersion::Java5 => String::from_str("Java SE 50."),
            MajorVersion::Java1_4 => String::from_str("Java 1.4"),
            MajorVersion::Java1_3 => String::from_str("Java 1.3"),
            MajorVersion::Java1_2 => String::from_str("Java 1.2"),
            MajorVersion::Java1_1 => String::from_str("Java 1.1"),
            MajorVersion::Unknown => String::from_str("Unknown Version"),
        }
    }
}

/// A raw value resolves to a known tag exactly when it lies in the closed
/// range `0x2D ..= 0x3F`; every other 16-bit value resolves to `Unknown`.
pub proof fn lemma_resolve_known_range(raw: u16)
    ensures
        (0x2D <= raw && raw <= 0x3F) <==> spec_resolve(raw) != MajorVersion::Unknown,
{
}

/// Within the known range the table is a bijection: two distinct raw values
/// resolve to two distinct tags, so each known tag matches one raw value.
pub proof fn lemma_resolve_injective(a: u16, b: u16)
    requires
        0x2D <= a <= 0x3F,
        0x2D <= b <= 0x3F,
        a != b,
    ensures
        spec_resolve(a) != spec_resolve(b),
{
}

} // verus!
