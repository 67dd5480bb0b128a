use core::cmp::Ordering;
use crate::text::{decimal, push_decimal};
use vstd::prelude::*;
use vstd::string::StringExecFns;

verus! {

/// Weight of the major version in the packed 32-bit word (byte 3).
pub const MAJOR_UNIT: u32 = 0x0100_0000;

/// Weight of the minor version in the packed 32-bit word (byte 2).
pub const MINOR_UNIT: u32 = 0x0001_0000;

/// The word that packs `major`, `minor` and `build`: the major version in
/// byte 3, the minor version in byte 2 and the build number in bytes 0 and 1.
pub open spec fn packed(major: u8, minor: u8, build: u16) -> int {
    major * 0x0100_0000 + minor * 0x0001_0000 + build
}

/// The version that a packed word stands for.
pub open spec fn unpacked(word: u32) -> Version {
    Version {
        major: (word / 0x0100_0000) as u8,
        minor: ((word / 0x0001_0000) % 0x100) as u8,
        build: (word % 0x0001_0000) as u16,
    }
}

/// How two integers compare.
pub open spec fn int_order(a: int, b: int) -> Ordering {
    if a < b {
        Ordering::Less
    } else if a == b {
        Ordering::Equal
    } else {
        Ordering::Greater
    }
}

/// Versions are ordered lexicographically: by major version, then by minor
/// version, then by build number.
pub open spec fn version_order(a: Version, b: Version) -> Ordering {
    if a.major != b.major {
        int_order(a.major as int, b.major as int)
    } else if a.minor != b.minor {
        int_order(a.minor as int, b.minor as int)
    } else {
        int_order(a.build as int, b.build as int)
    }
}

/// The text of a version: its three parts in decimal, separated by dots.
pub open spec fn version_text(v: Version) -> Seq<char> {
    decimal(v.major as nat) + seq!['.'] + decimal(v.minor as nat) + seq!['.'] + decimal(
        v.build as nat,
    )
}

/// D3XX version: a major version, a minor version and a build number.
#[derive(Debug, Copy, Clone, PartialEq, Eq, Structural, Ord)]
pub struct Version {
    /// Major version.
    pub major: u8,
    /// Minor version.
    pub minor: u8,
    /// Build number.
    pub build: u16,
}

impl Version {
    /// Creates a version from its three parts.
    pub fn new(major: u8, minor: u8, build: u16) -> (r: Version)
        ensures
            r.major == major,
            r.minor == minor,
            r.build == build,
    {
        Version { major, minor, build }
    }

    /// The version made of the three given parts.
    pub open spec fn new_spec(major: u8, minor: u8, build: u16) -> Version {
        Version { major, minor, build }
    }

    /// The packed word of this version.
    pub open spec fn word(self) -> int {
        packed(self.major, self.minor, self.build)
    }

    /// Creates a version from the packed 32-bit word that the driver reports:
    /// the build number in bytes 0 and 1, the minor version in byte 2 and the
    /// major version in byte 3.
    pub fn with_raw(value: u32) -> (r: Version)
        ensures
            r == unpacked(value),
    {
        let major = (value >> 24u32) & 0xFF;
        let minor = (value >> 16u32) & 0xFF;
        let build = value & 0xFFFF;
        assert(major == value / 0x0100_0000 && minor == (value / 0x0001_0000) % 0x100 && build
            == value % 0x0001_0000) by (bit_vector)
            requires
                major == (value >> 24u32) & 0xFF,
                minor == (value >> 16u32) & 0xFF,
                build == value & 0xFFFF,
        ;
        Version::new(major as u8, minor as u8, build as u16)
    }

    /// The packed 32-bit word of this version, the inverse of `with_raw`.
    pub fn raw(&self) -> (r: u32)
        ensures
            r == self.word(),
    {
        let major = self.major as u32;
        let minor = self.minor as u32;
        let build = self.build as u32;
        assert(major * 0x0100_0000 + minor * 0x0001_0000 + build <= 0xFFFF_FFFF) by (nonlinear_arith)
            requires
                major <= 0xFF,
                minor <= 0xFF,
                build <= 0xFFFF,
        ;
        major * MAJOR_UNIT + minor * MINOR_UNIT + build
    }

    /// The version as text, for instance `3.1.15`.
    pub fn to_string(&self) -> (r: String)
        ensures
            r@ == version_text(*self),
    {
        let mut s = String::new();
        push_decimal(&mut s, self.major as u32);
        proof {
            reveal_strlit(".");
        }
        s.append(".");
        push_decimal(&mut s, self.minor as u32);
        s.append(".");
        push_decimal(&mut s, self.build as u32);
        assert(s@ =~= version_text(*self));
        s
    }
}

/// Decoding a word and packing the version again gives back the same word.
pub proof fn lemma_word_round_trip(word: u32)
    ensures
        unpacked(word).word() == word,
{
    let v = unpacked(word);
    assert(v.major == word / 0x0100_0000);
    assert(v.minor == (word / 0x0001_0000) % 0x100);
    assert(v.build == word % 0x0001_0000);
    assert((word / 0x0100_0000) * 0x0100_0000 + ((word / 0x0001_0000) % 0x100) * 0x0001_0000 + word
        % 0x0001_0000 == word) by (bit_vector);
}

/// Packing a major version, a minor version and a build number and decoding
/// the word gives back the same three values.
pub proof fn lemma_parts_round_trip(major: u8, minor: u8, build: u16)
    ensures
        packed(major, minor, build) <= u32::MAX,
        unpacked(packed(major, minor, build) as u32) == Version::new_spec(major, minor, build),
{
    assert(major * 0x0100_0000 + minor * 0x0001_0000 + build <= u32::MAX) by (nonlinear_arith)
        requires
            major <= 0xFF,
            minor <= 0xFF,
            build <= 0xFFFF,
    ;
    let w: u32 = packed(major, minor, build) as u32;
    assert(w / 0x0100_0000 == major && (w / 0x0001_0000) % 0x100 == minor && w % 0x0001_0000
        == build) by (bit_vector)
        requires
            w == major * 0x0100_0000 + minor * 0x0001_0000 + build,
    ;
}

/// The lexicographic order of versions is the order of their packed words.
pub proof fn lemma_order_is_word_order(a: Version, b: Version)
    ensures
        version_order(a, b) == int_order(a.word(), b.word()),
{
    assert(a.major != b.major ==> (a.major < b.major <==> a.word() < b.word())) by (nonlinear_arith);
    assert(a.major == b.major && a.minor != b.minor ==> (a.minor < b.minor <==> a.word() < b.word()))
        by (nonlinear_arith);
}

/// Two versions compare equal exactly when they are the same version, and
/// one is below the other exactly when the other is above it.
pub proof fn lemma_order_strict(a: Version, b: Version)
    ensures
        version_order(a, b) == Ordering::Equal <==> a == b,
        version_order(a, b) == Ordering::Less <==> version_order(b, a) == Ordering::Greater,
{
}

impl PartialOrd for Version {
    fn partial_cmp(&self, other: &Version) -> (r: Option<Ordering>)
        ensures
            r == Some(version_order(*self, *other)),
    {
        if self.major != other.major {
            if self.major < other.major {
                Some(Ordering::Less)
            } else {
                Some(Ordering::Greater)
            }
        } else if self.minor != other.minor {
            if self.minor < other.minor {
                Some(Ordering::Less)
            } else {
                Some(Ordering::Greater)
            }
        } else if self.build < other.build {
            Some(Ordering::Less)
        } else if self.build == other.build {
            Some(Ordering::Equal)
        } else {
            Some(Ordering::Greater)
        }
    }
}

impl vstd::std_specs::cmp::PartialOrdSpecImpl for Version {
    open spec fn obeys_partial_cmp_spec() -> bool {
        true
    }

    open spec fn partial_cmp_spec(&self, other: &Version) -> Option<Ordering> {
        Some(version_order(*self, *other))
    }
}

} // verus!
