//! Filesystem access rights, the sets of them, and the sets that each
//! feature version of the kernel mechanism knows.

use landlock::{Access, AccessFs, ABI};
use vstd::prelude::*;

verus! {

/// One filesystem permission that the kernel mechanism can restrict.
#[derive(Clone, Copy, Debug, PartialEq, Eq, Structural)]
pub enum AccessRight {
    Execute,
    WriteFile,
    ReadFile,
    ReadDir,
    RemoveDir,
    RemoveFile,
    MakeChar,
    MakeDir,
    MakeReg,
    MakeSock,
    MakeFifo,
    MakeBlock,
    MakeSym,
    Refer,
    Truncate,
    IoctlDev,
    ResolveUnix,
}

/// Every bit that stands for some right.
pub const KNOWN_RIGHTS: u64 = 0x1FFFF;

/// The rights that only read: execute, read a file, list a directory.
pub const READ_RIGHTS: u64 = 0xD;

impl AccessRight {
    /// The bit by which the kernel interface knows this right.
    pub open spec fn mask(self) -> u64 {
        match self {
            AccessRight::Execute => 0x1,
            AccessRight::WriteFile => 0x2,
            AccessRight::ReadFile => 0x4,
            AccessRight::ReadDir => 0x8,
            AccessRight::RemoveDir => 0x10,
            AccessRight::RemoveFile => 0x20,
            AccessRight::MakeChar => 0x40,
            AccessRight::MakeDir => 0x80,
            AccessRight::MakeReg => 0x100,
            AccessRight::MakeSock => 0x200,
            AccessRight::MakeFifo => 0x400,
            AccessRight::MakeBlock => 0x800,
            AccessRight::MakeSym => 0x1000,
            AccessRight::Refer => 0x2000,
            AccessRight::Truncate => 0x4000,
            AccessRight::IoctlDev => 0x8000,
            AccessRight::ResolveUnix => 0x10000,
        }
    }

    /// Whether the right only reads, and changes nothing on disk.
    pub open spec fn is_read_only(self) -> bool {
        self == AccessRight::Execute || self == AccessRight::ReadFile || self
            == AccessRight::ReadDir
    }

    pub fn bit(self) -> (b: u64)
        ensures
            b == self.mask(),
    {
        match self {
            AccessRight::Execute => 0x1,
            AccessRight::WriteFile => 0x2,
            AccessRight::ReadFile => 0x4,
            AccessRight::ReadDir => 0x8,
            AccessRight::RemoveDir => 0x10,
            AccessRight::RemoveFile => 0x20,
            AccessRight::MakeChar => 0x40,
            AccessRight::MakeDir => 0x80,
            AccessRight::MakeReg => 0x100,
            AccessRight::MakeSock => 0x200,
            AccessRight::MakeFifo => 0x400,
            AccessRight::MakeBlock => 0x800,
            AccessRight::MakeSym => 0x1000,
            AccessRight::Refer => 0x2000,
            AccessRight::Truncate => 0x4000,
            AccessRight::IoctlDev => 0x8000,
            AccessRight::ResolveUnix => 0x10000,
        }
    }
}

/// Whether `bits` holds the bit of `right`.
pub open spec fn mask_has(bits: u64, right: AccessRight) -> bool {
    bits & right.mask() == right.mask()
}

/// Whether every bit of `inner` is a bit of `outer`.
pub open spec fn mask_within(inner: u64, outer: u64) -> bool {
    inner & outer == inner
}

/// The rights that the mechanism knows at the version with this ordinal:
/// later versions add rights and take none away.
pub open spec fn full_mask_at(ordinal: int) -> u64 {
    if ordinal <= 0 {
        0
    } else if ordinal == 1 {
        0x1FFF
    } else if ordinal == 2 {
        0x3FFF
    } else if ordinal <= 4 {
        0x7FFF
    } else if ordinal <= 8 {
        0xFFFF
    } else {
        0x1FFFF
    }
}

/// The read-only rights at the version with this ordinal.
pub open spec fn read_mask_at(ordinal: int) -> u64 {
    if ordinal <= 0 {
        0
    } else {
        READ_RIGHTS
    }
}

/// A set of access rights, kept as the bits of the kernel interface.
#[derive(Clone, Copy, Debug, PartialEq, Eq, Structural)]
pub struct AccessSet {
    bits: u64,
}

impl AccessSet {
    /// The bits of the set.
    pub closed spec fn mask(self) -> u64 {
        self.bits
    }

    /// Every bit of the set stands for a right.
    pub open spec fn wf(self) -> bool {
        mask_within(self.mask(), KNOWN_RIGHTS)
    }

    /// Whether `right` is in the set.
    pub open spec fn has(self, right: AccessRight) -> bool {
        mask_has(self.mask(), right)
    }

    /// Whether every right of the set is one of `other`.
    pub open spec fn within(self, other: AccessSet) -> bool {
        mask_within(self.mask(), other.mask())
    }

    /// The set with the given bits; bits that stand for no right are dropped.
    pub fn from_bits(bits: u64) -> (set: AccessSet)
        ensures
            set.mask() == bits & KNOWN_RIGHTS,
            set.wf(),
    {
        assert((bits & 0x1FFFF) & 0x1FFFF == bits & 0x1FFFF) by (bit_vector);
        AccessSet { bits: bits & KNOWN_RIGHTS }
    }

    pub fn bits(&self) -> (bits: u64)
        ensures
            bits == self.mask(),
    {
        self.bits
    }

    pub fn is_empty(&self) -> (empty: bool)
        ensures
            empty == (self.mask() == 0),
    {
        self.bits == 0
    }

    pub fn contains(&self, right: AccessRight) -> (found: bool)
        ensures
            found == self.has(right),
    {
        let bit: u64 = right.bit();
        self.bits & bit == bit
    }

    pub fn is_subset_of(&self, other: &AccessSet) -> (inside: bool)
        ensures
            inside == self.within(*other),
    {
        self.bits & other.bits == self.bits
    }
}

/// A generation of the kernel mechanism. Each one knows the rights of the one
/// before it and possibly more.
#[derive(Clone, Copy, Debug, PartialEq, Eq, Structural)]
pub enum FeatureVersion {
    V1,
    V2,
    V3,
    V4,
    V5,
    V6,
    V7,
    V8,
    V9,
}

impl FeatureVersion {
    /// The ordinal of the version, from 1.
    pub open spec fn index(self) -> int {
        match self {
            FeatureVersion::V1 => 1,
            FeatureVersion::V2 => 2,
            FeatureVersion::V3 => 3,
            FeatureVersion::V4 => 4,
            FeatureVersion::V5 => 5,
            FeatureVersion::V6 => 6,
            FeatureVersion::V7 => 7,
            FeatureVersion::V8 => 8,
            FeatureVersion::V9 => 9,
        }
    }

    /// The bits of every right that this version knows.
    pub open spec fn full_mask(self) -> u64 {
        full_mask_at(self.index())
    }

    /// The bits of the read-only rights of this version.
    pub open spec fn read_mask(self) -> u64 {
        read_mask_at(self.index())
    }

    pub fn ordinal(self) -> (n: u8)
        ensures
            n == self.index(),
    {
        match self {
            FeatureVersion::V1 => 1,
            FeatureVersion::V2 => 2,
            FeatureVersion::V3 => 3,
            FeatureVersion::V4 => 4,
            FeatureVersion::V5 => 5,
            FeatureVersion::V6 => 6,
            FeatureVersion::V7 => 7,
            FeatureVersion::V8 => 8,
            FeatureVersion::V9 => 9,
        }
    }

    /// Every right that this version knows.
    pub fn all_rights(self) -> (set: AccessSet)
        ensures
            set.mask() == self.full_mask(),
            set.wf(),
    {
        let bits: u64 = rights_known_at(self.ordinal());
        proof {
            lemma_version_masks_are_known(self.index());
        }
        AccessSet { bits }
    }

    /// The rights of this version that only read.
    pub fn read_rights(self) -> (set: AccessSet)
        ensures
            set.mask() == self.read_mask(),
            set.wf(),
    {
        let bits: u64 = read_rights_known_at(self.ordinal());
        proof {
            lemma_version_masks_are_known(self.index());
        }
        AccessSet { bits }
    }
}

/// Calls `landlock::AccessFs::from_all` on the version that `landlock::ABI`
/// makes of the ordinal, and hands back the bits of the flags. Trusted: for
/// an ordinal from 1 to 9 the flags are those that the crate lists for that
/// version, the first thirteen rights at version 1, `Refer` from 2,
/// `Truncate` from 3, `IoctlDev` from 5 and `ResolveUnix` from 9.
#[verifier::external_body]
fn rights_known_at(ordinal: u8) -> (bits: u64)
    requires
        1 <= ordinal <= 9,
    ensures
        bits == full_mask_at(ordinal as int),
{
    AccessFs::from_all(ABI::from(i32::from(ordinal))).bits()
}

/// Calls `landlock::AccessFs::from_read` on the version that `landlock::ABI`
/// makes of the ordinal, and hands back the bits of the flags. Trusted: for
/// an ordinal from 1 to 9 they are `Execute`, `ReadFile` and `ReadDir`.
#[verifier::external_body]
fn read_rights_known_at(ordinal: u8) -> (bits: u64)
    requires
        1 <= ordinal <= 9,
    ensures
        bits == read_mask_at(ordinal as int),
{
    AccessFs::from_read(ABI::from(i32::from(ordinal))).bits()
}

/// The masks of every version hold only bits that stand for a right.
pub proof fn lemma_version_masks_are_known(ordinal: int)
    ensures
        mask_within(full_mask_at(ordinal), KNOWN_RIGHTS),
        mask_within(read_mask_at(ordinal), KNOWN_RIGHTS),
{
    assert(0u64 & 0x1FFFF == 0 && 0x1FFFu64 & 0x1FFFF == 0x1FFF && 0x3FFFu64 & 0x1FFFF == 0x3FFF
        && 0x7FFFu64 & 0x1FFFF == 0x7FFF && 0xFFFFu64 & 0x1FFFF == 0xFFFF && 0x1FFFFu64 & 0x1FFFF
        == 0x1FFFF && 0xDu64 & 0x1FFFF == 0xD) by (bit_vector);
}

/// The read-only rights of a version are among all the rights of that
/// version.
pub proof fn lemma_read_rights_within_all(version: FeatureVersion)
    ensures
        mask_within(version.read_mask(), version.full_mask()),
{
    assert(0xDu64 & 0x1FFF == 0xD && 0xDu64 & 0x3FFF == 0xD && 0xDu64 & 0x7FFF == 0xD && 0xDu64
        & 0xFFFF == 0xD && 0xDu64 & 0x1FFFF == 0xD) by (bit_vector);
}

/// A later version knows every right of an earlier one.
pub proof fn lemma_versions_only_add_rights(earlier: FeatureVersion, later: FeatureVersion)
    requires
        earlier.index() <= later.index(),
    ensures
        mask_within(earlier.full_mask(), later.full_mask()),
{
    let a = earlier.full_mask();
    let b = later.full_mask();
    assert((a == 0x1FFF || a == 0x3FFF || a == 0x7FFF || a == 0xFFFF || a == 0x1FFFF) && (b
        == 0x1FFF || b == 0x3FFF || b == 0x7FFF || b == 0xFFFF || b == 0x1FFFF) && a <= b ==> a & b
        == a) by (bit_vector);
}

/// The read-only set of any version holds exactly the three rights that
/// only read: it holds no right to write, create, remove or reparent.
pub proof fn lemma_read_rights_only_read(version: FeatureVersion, right: AccessRight)
    ensures
        mask_has(version.read_mask(), right) <==> right.is_read_only(),
{
    assert(0xDu64 & 0x1 == 0x1 && 0xDu64 & 0x4 == 0x4 && 0xDu64 & 0x8 == 0x8) by (bit_vector);
    assert(0xDu64 & 0x2 != 0x2 && 0xDu64 & 0x10 != 0x10 && 0xDu64 & 0x20 != 0x20 && 0xDu64 & 0x40
        != 0x40 && 0xDu64 & 0x80 != 0x80 && 0xDu64 & 0x100 != 0x100 && 0xDu64 & 0x200 != 0x200
        && 0xDu64 & 0x400 != 0x400 && 0xDu64 & 0x800 != 0x800 && 0xDu64 & 0x1000 != 0x1000
        && 0xDu64 & 0x2000 != 0x2000 && 0xDu64 & 0x4000 != 0x4000 && 0xDu64 & 0x8000 != 0x8000
        && 0xDu64 & 0x10000 != 0x10000) by (bit_vector);
}

/// The read-only rights are the same at every version.
pub proof fn lemma_read_rights_are_fixed(one: FeatureVersion, other: FeatureVersion)
    ensures
        one.read_mask() == other.read_mask(),
        one.read_mask() == READ_RIGHTS,
{
}

/// A right of a set that lies within another set is a right of that other.
pub proof fn lemma_within_keeps_rights(inner: u64, outer: u64, right: AccessRight)
    requires
        mask_within(inner, outer),
        mask_has(inner, right),
    ensures
        mask_has(outer, right),
{
    let m = right.mask();
    assert(inner & outer == inner && inner & m == m ==> outer & m == m) by (bit_vector);
}

} // verus!
