//! Format versions and the thresholds at which fields appear.
use vstd::prelude::*;

verus! {

/// A format version: major, minor and revision, ordered lexicographically.
#[derive(Clone, Copy, Debug, PartialEq, Eq, Structural)]
pub struct Version {
    pub major: u8,
    pub minor: u8,
    pub revision: u8,
}

impl Version {
    /// `self` is `other` or later.
    pub open spec fn spec_at_least(self, other: Version) -> bool {
        self.major > other.major || (self.major == other.major && (self.minor > other.minor || (
        self.minor == other.minor && self.revision >= other.revision)))
    }

    /// `self` is at least `major.minor.0`.
    pub open spec fn since(self, major: u8, minor: u8) -> bool {
        self.spec_at_least(Version { major, minor, revision: 0 })
    }

    /// Whether `self` is `other` or later.
    #[verifier::when_used_as_spec(spec_at_least)]
    pub fn at_least(self, other: Version) -> (r: bool)
        ensures
            r == self.spec_at_least(other),
    {
        self.major > other.major || (self.major == other.major && (self.minor > other.minor || (
        self.minor == other.minor && self.revision >= other.revision)))
    }
}

/// The version `major.minor.0`.
pub fn version(major: u8, minor: u8) -> (r: Version)
    ensures
        r == (Version { major, minor, revision: 0 }),
{
    Version { major, minor, revision: 0 }
}

} // verus!
