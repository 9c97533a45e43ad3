//! The format versions that this crate understands: a closed set, fixed when
//! the crate is built.

use vstd::prelude::*;

verus! {

/// Whether `version` is one of the format versions that this crate
/// understands. The set has a gap: 31 is no member.
pub open spec fn supported(version: u32) -> bool {
    version == 28 || version == 29 || version == 30 || version == 32 || version == 33
}

/// A format version that this crate understands.
#[derive(Clone, Copy, Debug, PartialEq, Eq, Structural)]
pub enum SupportedVersion {
    V28,
    V29,
    V30,
    V32,
    V33,
}

impl SupportedVersion {
    /// The number that a document of this version declares.
    pub open spec fn spec_number(self) -> u32 {
        match self {
            SupportedVersion::V28 => 28,
            SupportedVersion::V29 => 29,
            SupportedVersion::V30 => 30,
            SupportedVersion::V32 => 32,
            SupportedVersion::V33 => 33,
        }
    }

    /// The number that a document of this version declares.
    #[verifier::when_used_as_spec(spec_number)]
    pub fn number(self) -> (number: u32)
        ensures
            number == self.spec_number(),
            supported(number),
    {
        match self {
            SupportedVersion::V28 => 28,
            SupportedVersion::V29 => 29,
            SupportedVersion::V30 => 30,
            SupportedVersion::V32 => 32,
            SupportedVersion::V33 => 33,
        }
    }

    /// Looks a declared number up in the set: a member for a number that is
    /// supported, `None` for every other.
    pub fn from_number(number: u32) -> (found: Option<SupportedVersion>)
        ensures
            found is Some <==> supported(number),
            found matches Some(version) ==> version.spec_number() == number,
    {
        if number == 28 {
            Some(SupportedVersion::V28)
        } else if number == 29 {
            Some(SupportedVersion::V29)
        } else if number == 30 {
            Some(SupportedVersion::V30)
        } else if number == 32 {
            Some(SupportedVersion::V32)
        } else if number == 33 {
            Some(SupportedVersion::V33)
        } else {
            None
        }
    }
}

/// Whether this crate understands documents that declare `version`.
pub fn is_supported(version: u32) -> (yes: bool)
    ensures
        yes == supported(version),
{
    SupportedVersion::from_number(version).is_some()
}

/// Every member of the set declares a supported number, and looking that
/// number up gives the member back; two members never share a number.
pub proof fn lemma_versions_are_distinct(a: SupportedVersion, b: SupportedVersion)
    ensures
        supported(a.spec_number()),
        a.spec_number() == b.spec_number() ==> a == b,
{
}

} // verus!
