//! The kind flags of an entry: independent facts stored as bits of one byte.

use vstd::prelude::*;

verus! {

/// The entry is a directory.
pub const DIR: u8 = 0b0000_0001;

/// The entry is hidden: by its name on a POSIX system, by its attribute bits
/// on a system with file attributes.
pub const HIDDEN: u8 = 0b0000_0010;

/// The entry is a symbolic link.
pub const LINK: u8 = 0b0000_0100;

/// The entry is a symbolic link whose target could not be resolved.
pub const ORPHAN: u8 = 0b0000_1000;

/// The record is a placeholder without real metadata behind it.
pub const DUMMY: u8 = 0b0001_0000;

/// The entry carries the system attribute (systems with file attributes only).
pub const SYSTEM: u8 = 0b0010_0000;

/// `f` is one of the six named flags.
pub open spec fn is_flag(f: u8) -> bool {
    f == 1 || f == 2 || f == 4 || f == 8 || f == 16 || f == 32
}

/// `f` if `on`, no bit otherwise.
pub open spec fn bit_if(on: bool, f: u8) -> u8 {
    if on {
        f
    } else {
        0
    }
}

/// The byte that holds exactly the flags whose argument is true.
pub open spec fn kind_bits(dir: bool, hidden: bool, link: bool, orphan: bool, dummy: bool, system: bool) -> u8 {
    bit_if(dir, 1) | bit_if(hidden, 2) | bit_if(link, 4) | bit_if(orphan, 8) | bit_if(dummy, 16)
        | bit_if(system, 32)
}

/// A set of kind flags.
#[derive(Clone, Copy, Debug, PartialEq, Eq, Structural)]
pub struct ChaKind {
    pub bits: u8,
}

impl ChaKind {
    /// Every bit of `f` is set.
    pub open spec fn has(self, f: u8) -> bool {
        self.bits & f == f
    }

    /// The set without any flag.
    pub fn empty() -> (r: ChaKind)
        ensures
            r.bits == 0,
    {
        ChaKind { bits: 0 }
    }

    /// The set holding exactly the given bits.
    pub fn from_bits_retain(bits: u8) -> (r: ChaKind)
        ensures
            r.bits == bits,
    {
        ChaKind { bits }
    }

    pub fn bits(&self) -> (r: u8)
        ensures
            r == self.bits,
    {
        self.bits
    }

    /// Whether every bit of `f` is set.
    pub fn contains(&self, f: u8) -> (r: bool)
        ensures
            r == self.has(f),
    {
        self.bits & f == f
    }

    /// Adds the bits of `f`.
    pub fn insert(&mut self, f: u8)
        ensures
            final(self).bits == old(self).bits | f,
    {
        self.bits = self.bits | f;
    }

    /// The union of two sets.
    pub fn union(self, other: ChaKind) -> (r: ChaKind)
        ensures
            r.bits == self.bits | other.bits,
    {
        ChaKind { bits: self.bits | other.bits }
    }
}

impl Default for ChaKind {
    /// The empty set.
    fn default() -> (r: ChaKind)
        ensures
            r.bits == 0,
    {
        ChaKind::empty()
    }
}

/// Each flag of a byte built by `kind_bits` is set exactly when its argument is true.
pub proof fn lemma_kind_bits_has(dir: bool, hidden: bool, link: bool, orphan: bool, dummy: bool, system: bool)
    by (bit_vector)
    ensures
        (kind_bits(dir, hidden, link, orphan, dummy, system) & 1 == 1) == dir,
        (kind_bits(dir, hidden, link, orphan, dummy, system) & 2 == 2) == hidden,
        (kind_bits(dir, hidden, link, orphan, dummy, system) & 4 == 4) == link,
        (kind_bits(dir, hidden, link, orphan, dummy, system) & 8 == 8) == orphan,
        (kind_bits(dir, hidden, link, orphan, dummy, system) & 16 == 16) == dummy,
        (kind_bits(dir, hidden, link, orphan, dummy, system) & 32 == 32) == system,
{
}

/// The union of two bytes built by `kind_bits` holds the flags of either.
pub proof fn lemma_kind_bits_or(
    d1: bool, h1: bool, l1: bool, o1: bool, u1: bool, s1: bool,
    d2: bool, h2: bool, l2: bool, o2: bool, u2: bool, s2: bool,
)
    by (bit_vector)
    ensures
        kind_bits(d1, h1, l1, o1, u1, s1) | kind_bits(d2, h2, l2, o2, u2, s2)
            == kind_bits(d1 || d2, h1 || h2, l1 || l2, o1 || o2, u1 || u2, s1 || s2),
{
}

/// Two bytes built by `kind_bits` are equal exactly when they hold the same flags.
pub proof fn lemma_kind_bits_eq(
    d1: bool, h1: bool, l1: bool, o1: bool, u1: bool, s1: bool,
    d2: bool, h2: bool, l2: bool, o2: bool, u2: bool, s2: bool,
)
    by (bit_vector)
    ensures
        (kind_bits(d1, h1, l1, o1, u1, s1) == kind_bits(d2, h2, l2, o2, u2, s2))
            == (d1 == d2 && h1 == h2 && l1 == l2 && o1 == o2 && u1 == u2 && s1 == s2),
{
}

/// Each named flag, and the empty byte, as built by `kind_bits`.
pub proof fn lemma_flags_as_kind_bits()
    ensures
        0u8 == kind_bits(false, false, false, false, false, false),
        DIR == kind_bits(true, false, false, false, false, false),
        HIDDEN == kind_bits(false, true, false, false, false, false),
        LINK == kind_bits(false, false, true, false, false, false),
        ORPHAN == kind_bits(false, false, false, true, false, false),
        DUMMY == kind_bits(false, false, false, false, true, false),
        SYSTEM == kind_bits(false, false, false, false, false, true),
{
    assert(0u8 == kind_bits(false, false, false, false, false, false)) by (bit_vector);
    assert(1u8 == kind_bits(true, false, false, false, false, false)) by (bit_vector);
    assert(2u8 == kind_bits(false, true, false, false, false, false)) by (bit_vector);
    assert(4u8 == kind_bits(false, false, true, false, false, false)) by (bit_vector);
    assert(8u8 == kind_bits(false, false, false, true, false, false)) by (bit_vector);
    assert(16u8 == kind_bits(false, false, false, false, true, false)) by (bit_vector);
    assert(32u8 == kind_bits(false, false, false, false, false, true)) by (bit_vector);
}

} // verus!
