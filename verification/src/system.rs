//! The system flags register.

use crate::bits::{
    bit, lemma_byte_and_not, lemma_positions_and, lemma_positions_byte,
    lemma_positions_disjoint, lemma_positions_empty, lemma_positions_injective,
    lemma_positions_or, lemma_positions_single, lemma_positions_subset,
    lemma_positions_superset, lemma_positions_xor, lemma_positions_zero, lemma_single_values,
    positions,
};
use vstd::prelude::*;

verus! {

/// The switches of the system flags register, one bit each.
///
/// The view is the set of bit positions that are set. Positions 2 to 7 name
/// no flag; a value read from the register may still carry them.
#[derive(Clone, Copy, Debug, PartialEq, Eq, Structural, Hash)]
pub struct SystemFlags {
    bits: u8,
}

impl View for SystemFlags {
    type V = Set<int>;

    open spec fn view(&self) -> Set<int> {
        positions(self.spec_bits() as u32)
    }
}

impl SystemFlags {
    /// The stored byte.
    pub closed spec fn spec_bits(&self) -> u8 {
        self.bits
    }

    /// The positions that name a system flag.
    pub open spec fn spec_all() -> Set<int> {
        set![0int, 1int]
    }

    /// Keep the framebuffer from one frame to the next (bit 0).
    #[allow(non_snake_case)]
    pub fn PRESERVE_FRAMEBUFFER() -> (r: Self)
        ensures
            r.spec_bits() == 1,
            r@ == set![0int],
    {
        proof {
            lemma_single_values();
            lemma_positions_single(0);
        }
        SystemFlags { bits: 1 }
    }

    /// Hide the gamepad overlay (bit 1).
    #[allow(non_snake_case)]
    pub fn HIDE_GAMEPAD_OVERLAY() -> (r: Self)
        ensures
            r.spec_bits() == 2,
            r@ == set![1int],
    {
        proof {
            lemma_single_values();
            lemma_positions_single(1);
        }
        SystemFlags { bits: 2 }
    }

    /// No flag.
    pub fn empty() -> (r: Self)
        ensures
            r.spec_bits() == 0,
            r@ == Set::<int>::empty(),
    {
        proof {
            lemma_positions_zero();
        }
        SystemFlags { bits: 0 }
    }

    /// Every flag.
    pub fn all() -> (r: Self)
        ensures
            r.spec_bits() == 0x03,
            r@ == Self::spec_all(),
    {
        proof {
            lemma_all_system_flags();
        }
        SystemFlags { bits: 0x03 }
    }

    /// The stored byte.
    #[verifier::when_used_as_spec(spec_bits)]
    pub fn bits(&self) -> (r: u8)
        ensures
            r == self.spec_bits(),
    {
        self.bits
    }

    /// The flags stored as `bits`, unless `bits` has a position set that
    /// names no system flag.
    pub fn from_bits(bits: u8) -> (r: Option<Self>)
        ensures
            r is Some <==> positions(bits as u32).subset_of(Self::spec_all()),
            r matches Some(f) ==> f.spec_bits() == bits,
    {
        proof {
            lemma_all_system_flags();
            lemma_byte_and_not(bits, 0x03);
            lemma_positions_empty((bits & !0x03u8) as u32);
            if positions(bits as u32).subset_of(Self::spec_all()) {
                assert(positions(bits as u32).difference(Self::spec_all())
                    =~= Set::<int>::empty());
            }
        }
        if bits & !0x03u8 == 0 {
            Some(SystemFlags { bits })
        } else {
            None
        }
    }

    /// The flags stored as `bits`, without the positions that name no
    /// system flag.
    pub fn from_bits_truncate(bits: u8) -> (r: Self)
        ensures
            r.spec_bits() == bits & 0x03,
            r@ == positions(bits as u32).intersect(Self::spec_all()),
    {
        proof {
            lemma_all_system_flags();
            lemma_positions_and(bits as u32, 0x03);
        }
        SystemFlags { bits: bits & 0x03 }
    }

    /// The flags stored as `bits`, every position kept. This is how a byte
    /// read from the system flags register becomes a value.
    pub fn from_bits_unchecked(bits: u8) -> (r: Self)
        ensures
            r.spec_bits() == bits,
    {
        SystemFlags { bits }
    }

    /// Whether no position is set.
    pub fn is_empty(&self) -> (r: bool)
        ensures
            r <==> self@ == Set::<int>::empty(),
            r <==> self.spec_bits() == 0,
    {
        proof {
            lemma_positions_empty(self.bits as u32);
        }
        self.bits == 0
    }

    /// Whether every system flag is set.
    pub fn is_all(&self) -> (r: bool)
        ensures
            r <==> Self::spec_all().subset_of(self@),
    {
        proof {
            lemma_all_system_flags();
            lemma_positions_superset(0x03, self.bits as u32);
        }
        0x03 | self.bits == self.bits
    }

    /// Whether `self` and `other` have a position in common.
    pub fn intersects(&self, other: Self) -> (r: bool)
        ensures
            r <==> !self@.disjoint(other@),
    {
        proof {
            lemma_positions_disjoint(self.bits as u32, other.bits as u32);
        }
        self.bits & other.bits != 0
    }

    /// Whether every position of `other` is set in `self`.
    pub fn contains(&self, other: Self) -> (r: bool)
        ensures
            r <==> other@.subset_of(self@),
    {
        proof {
            lemma_positions_subset(self.bits as u32, other.bits as u32);
        }
        (self.bits & other.bits) == other.bits
    }

    /// Sets the positions of `other`.
    pub fn insert(&mut self, other: Self)
        ensures
            final(self)@ == old(self)@.union(other@),
            final(self).spec_bits() == old(self).spec_bits() | other.spec_bits(),
    {
        proof {
            lemma_positions_or(self.bits as u32, other.bits as u32);
        }
        self.bits = self.bits | other.bits;
    }

    /// Clears the positions of `other`.
    pub fn remove(&mut self, other: Self)
        ensures
            final(self)@ == old(self)@.difference(other@),
            final(self).spec_bits() == old(self).spec_bits() & !other.spec_bits(),
    {
        proof {
            lemma_byte_and_not(self.bits, other.bits);
        }
        self.bits = self.bits & !other.bits;
    }

    /// Flips the positions of `other`.
    pub fn toggle(&mut self, other: Self)
        ensures
            final(self)@ == old(self)@.difference(other@).union(other@.difference(old(self)@)),
            final(self).spec_bits() == old(self).spec_bits() ^ other.spec_bits(),
    {
        proof {
            lemma_positions_xor(self.bits as u32, other.bits as u32);
        }
        self.bits = self.bits ^ other.bits;
    }

    /// Sets the positions of `other` where `value` holds, clears them where
    /// it does not.
    pub fn set(&mut self, other: Self, value: bool)
        ensures
            value ==> final(self)@ == old(self)@.union(other@),
            !value ==> final(self)@ == old(self)@.difference(other@),
    {
        if value {
            self.insert(other);
        } else {
            self.remove(other);
        }
    }

    /// The positions set in both.
    pub fn intersection(self, other: Self) -> (r: Self)
        ensures
            r@ == self@.intersect(other@),
            r.spec_bits() == self.spec_bits() & other.spec_bits(),
    {
        proof {
            lemma_positions_and(self.bits as u32, other.bits as u32);
        }
        SystemFlags { bits: self.bits & other.bits }
    }

    /// The positions set in either.
    pub fn union(self, other: Self) -> (r: Self)
        ensures
            r@ == self@.union(other@),
            r.spec_bits() == self.spec_bits() | other.spec_bits(),
    {
        proof {
            lemma_positions_or(self.bits as u32, other.bits as u32);
        }
        SystemFlags { bits: self.bits | other.bits }
    }

    /// The positions set in `self` and not in `other`.
    pub fn difference(self, other: Self) -> (r: Self)
        ensures
            r@ == self@.difference(other@),
            r.spec_bits() == self.spec_bits() & !other.spec_bits(),
    {
        proof {
            lemma_byte_and_not(self.bits, other.bits);
        }
        SystemFlags { bits: self.bits & !other.bits }
    }

    /// The positions set in exactly one of the two.
    pub fn symmetric_difference(self, other: Self) -> (r: Self)
        ensures
            r@ == self@.difference(other@).union(other@.difference(self@)),
            r.spec_bits() == self.spec_bits() ^ other.spec_bits(),
    {
        proof {
            lemma_positions_xor(self.bits as u32, other.bits as u32);
        }
        SystemFlags { bits: self.bits ^ other.bits }
    }

    /// The system flags that are not set in `self`.
    pub fn complement(self) -> (r: Self)
        ensures
            r@ == Self::spec_all().difference(self@),
            r.spec_bits() == 0x03 & !self.spec_bits(),
    {
        proof {
            lemma_all_system_flags();
            lemma_byte_and_not(0x03, self.bits);
        }
        SystemFlags { bits: 0x03 & !self.bits }
    }
}

/// The byte `0x03` has exactly the system flags' positions set.
proof fn lemma_all_system_flags()
    ensures
        positions(0x03) == SystemFlags::spec_all(),
{
    assert forall|i: int| bit(0x03, i) == SystemFlags::spec_all().contains(i) by {
        if 0 <= i < 32 {
            let k = i as u32;
            assert((0x03u32 >> k) & 1 == 1 <==> (k == 0 || k == 1)) by (bit_vector)
                requires
                    k < 32,
            ;
        }
    }
    assert(positions(0x03) =~= SystemFlags::spec_all());
}

/// Two values of `SystemFlags` with the same positions set are the same value.
pub proof fn lemma_system_flags_equal(a: SystemFlags, b: SystemFlags)
    requires
        a@ == b@,
    ensures
        a == b,
{
    lemma_positions_injective(a.spec_bits() as u32, b.spec_bits() as u32);
}

/// Every position of a `SystemFlags` lies in its byte.
pub proof fn lemma_system_flags_in_byte(f: SystemFlags)
    ensures
        forall|i: int| f@.contains(i) ==> 0 <= i < 8,
{
    lemma_positions_byte(f.spec_bits());
}

} // verus!
