//! Engine and `moc3` format versions.
use vstd::prelude::*;

verus! {

/// The version of the Cubism Core lib.
#[derive(Clone, Copy, Debug, PartialEq, Eq, Structural, Hash)]
pub struct CubismVersion {
    /// The version number of the Cubism Core lib.
    pub version: u32,
}

impl CubismVersion {
    /// Major version: bits 31 to 24.
    pub open spec fn spec_major(self) -> nat {
        (self.version / 0x0100_0000) as nat
    }

    /// Minor version: bits 23 to 16.
    pub open spec fn spec_minor(self) -> nat {
        ((self.version / 0x0001_0000) % 0x100) as nat
    }

    /// Patch version: bits 15 to 0.
    pub open spec fn spec_patch(self) -> nat {
        (self.version % 0x0001_0000) as nat
    }

    /// Wraps a version number reported by the engine.
    pub fn new(version: u32) -> (r: Self)
        ensures
            r.version == version,
    {
        CubismVersion { version }
    }

    /// Returns the major version number of the Cubism Core lib.
    pub fn major(&self) -> (r: u8)
        ensures
            r == self.spec_major(),
    {
        let v = self.version;
        let r = ((v & 0xFF00_0000u32) >> 24u32) as u8;
        assert(((v & 0xFF00_0000u32) >> 24u32) == v / 0x0100_0000) by (bit_vector);
        r
    }

    /// Returns the minor version number of the Cubism Core lib.
    pub fn minor(&self) -> (r: u8)
        ensures
            r == self.spec_minor(),
    {
        let v = self.version;
        let r = ((v & 0x00FF_0000u32) >> 16u32) as u8;
        assert(((v & 0x00FF_0000u32) >> 16u32) == (v / 0x0001_0000) % 0x100) by (bit_vector);
        r
    }

    /// Returns the patch version number of the Cubism Core lib.
    pub fn patch(&self) -> (r: u16)
        ensures
            r == self.spec_patch(),
    {
        let v = self.version;
        let r = (v & 0x0000_FFFFu32) as u16;
        assert((v & 0x0000_FFFFu32) == v % 0x0001_0000) by (bit_vector);
        r
    }
}

/// The three parts of a version number put back together give the number.
pub proof fn lemma_version_parts(v: CubismVersion)
    ensures
        v.version == v.spec_major() * 0x0100_0000 + v.spec_minor() * 0x0001_0000 + v.spec_patch(),
{
    let x = v.version as int;
    assert(x == (x / 0x0100_0000) * 0x0100_0000 + ((x / 0x0001_0000) % 0x100) * 0x0001_0000
        + x % 0x0001_0000) by (nonlinear_arith)
        requires
            0 <= x,
    {
        let h = x / 0x0001_0000;
        assert(x == h * 0x0001_0000 + x % 0x0001_0000);
        assert(h == (h / 0x100) * 0x100 + h % 0x100);
        assert(h / 0x100 == x / 0x0100_0000);
    }
}

/// `moc3` file format version.
#[derive(Clone, Copy, Debug, PartialEq, Eq, Structural, Hash)]
pub enum MocVersion {
    /// `moc3` file version 3.0.00 - 3.2.07
    Version30,
    /// `moc3` file version 3.3.00 - 3.3.03
    Version33,
    /// `moc3` file version 4.0.00
    Version40,
    /// unknown `moc3` file version
    VersionUnknown,
}

/// The format revision that an engine version tag stands for.
pub open spec fn moc_version_of(tag: u32) -> MocVersion {
    if tag == 1 {
        MocVersion::Version30
    } else if tag == 2 {
        MocVersion::Version33
    } else if tag == 3 {
        MocVersion::Version40
    } else {
        MocVersion::VersionUnknown
    }
}

impl MocVersion {
    /// Position in the order of revisions; unknown comes last.
    pub open spec fn rank(self) -> nat {
        match self {
            MocVersion::Version30 => 0,
            MocVersion::Version33 => 1,
            MocVersion::Version40 => 2,
            MocVersion::VersionUnknown => 3,
        }
    }

    /// Creates [`MocVersion`] from the engine's version tag.
    pub fn new(version: u32) -> (r: Self)
        ensures
            r == moc_version_of(version),
    {
        if version == 1 {
            MocVersion::Version30
        } else if version == 2 {
            MocVersion::Version33
        } else if version == 3 {
            MocVersion::Version40
        } else {
            MocVersion::VersionUnknown
        }
    }

    /// Returns `true` if `self` is a later revision than `other`.
    pub fn is_newer_than(&self, other: &Self) -> (r: bool)
        ensures
            r == (self.rank() > other.rank()),
    {
        self.index() > other.index()
    }

    fn index(&self) -> (r: u8)
        ensures
            r == self.rank(),
    {
        match self {
            MocVersion::Version30 => 0,
            MocVersion::Version33 => 1,
            MocVersion::Version40 => 2,
            MocVersion::VersionUnknown => 3,
        }
    }

    /// Returns `true` if the [`MocVersion`] is [`Version30`](MocVersion::Version30).
    pub fn is_version30(&self) -> (r: bool)
        ensures
            r == (*self == MocVersion::Version30),
    {
        matches!(self, MocVersion::Version30)
    }

    /// Returns `true` if the [`MocVersion`] is [`Version33`](MocVersion::Version33).
    pub fn is_version33(&self) -> (r: bool)
        ensures
            r == (*self == MocVersion::Version33),
    {
        matches!(self, MocVersion::Version33)
    }

    /// Returns `true` if the [`MocVersion`] is [`Version40`](MocVersion::Version40).
    pub fn is_version40(self) -> (r: bool)
        ensures
            r == (self == MocVersion::Version40),
    {
        matches!(self, MocVersion::Version40)
    }

    /// Returns `true` if the [`MocVersion`] is [`VersionUnknown`](MocVersion::VersionUnknown).
    pub fn is_version_unknown(self) -> (r: bool)
        ensures
            r == (self == MocVersion::VersionUnknown),
    {
        matches!(self, MocVersion::VersionUnknown)
    }
}

impl From<u32> for MocVersion {
    fn from(version: u32) -> (r: Self)
        ensures
            r == moc_version_of(version),
    {
        MocVersion::new(version)
    }
}

impl vstd::std_specs::convert::FromSpecImpl<u32> for MocVersion {
    open spec fn obeys_from_spec() -> bool {
        true
    }

    open spec fn from_spec(v: u32) -> MocVersion {
        moc_version_of(v)
    }
}

} // verus!
