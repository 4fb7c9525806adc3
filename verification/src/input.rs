//! The input registers: gamepad buttons, mouse buttons and the netplay byte.

use crate::bits::{
    bit, lemma_byte_and_not, lemma_positions_and, lemma_positions_byte,
    lemma_positions_disjoint, lemma_positions_empty, lemma_positions_injective,
    lemma_positions_or, lemma_positions_single, lemma_positions_subset,
    lemma_positions_superset, lemma_positions_xor, lemma_positions_zero, lemma_single_values,
    positions,
};
use vstd::prelude::*;

verus! {

/// The buttons of one gamepad, one bit each, as the console stores them in
/// a gamepad register.
///
/// The view is the set of bit positions that are set. Positions 2 and 3 name
/// no button; a value read from the register may still carry them.
#[derive(Clone, Copy, Debug, PartialEq, Eq, Structural, Hash)]
pub struct ButtonFlags {
    bits: u8,
}

impl View for ButtonFlags {
    type V = Set<int>;

    open spec fn view(&self) -> Set<int> {
        positions(self.spec_bits() as u32)
    }
}

impl ButtonFlags {
    /// The stored byte.
    pub closed spec fn spec_bits(&self) -> u8 {
        self.bits
    }

    /// The positions that name a button.
    pub open spec fn spec_all() -> Set<int> {
        set![0int, 1int, 4int, 5int, 6int, 7int]
    }

    /// Button X (bit 0).
    #[allow(non_snake_case)]
    pub fn X() -> (r: Self)
        ensures
            r.spec_bits() == 1,
            r@ == set![0int],
    {
        proof {
            lemma_single_values();
            lemma_positions_single(0);
        }
        ButtonFlags { bits: 1 }
    }

    /// Button Z (bit 1).
    #[allow(non_snake_case)]
    pub fn Z() -> (r: Self)
        ensures
            r.spec_bits() == 2,
            r@ == set![1int],
    {
        proof {
            lemma_single_values();
            lemma_positions_single(1);
        }
        ButtonFlags { bits: 2 }
    }

    /// D-pad left (bit 4).
    #[allow(non_snake_case)]
    pub fn LEFT() -> (r: Self)
        ensures
            r.spec_bits() == 16,
            r@ == set![4int],
    {
        proof {
            lemma_single_values();
            lemma_positions_single(4);
        }
        ButtonFlags { bits: 16 }
    }

    /// D-pad right (bit 5).
    #[allow(non_snake_case)]
    pub fn RIGHT() -> (r: Self)
        ensures
            r.spec_bits() == 32,
            r@ == set![5int],
    {
        proof {
            lemma_single_values();
            lemma_positions_single(5);
        }
        ButtonFlags { bits: 32 }
    }

    /// D-pad up (bit 6).
    #[allow(non_snake_case)]
    pub fn UP() -> (r: Self)
        ensures
            r.spec_bits() == 64,
            r@ == set![6int],
    {
        proof {
            lemma_single_values();
            lemma_positions_single(6);
        }
        ButtonFlags { bits: 64 }
    }

    /// D-pad down (bit 7).
    #[allow(non_snake_case)]
    pub fn DOWN() -> (r: Self)
        ensures
            r.spec_bits() == 128,
            r@ == set![7int],
    {
        proof {
            lemma_single_values();
            lemma_positions_single(7);
        }
        ButtonFlags { bits: 128 }
    }

    /// No button.
    pub fn empty() -> (r: Self)
        ensures
            r.spec_bits() == 0,
            r@ == Set::<int>::empty(),
    {
        proof {
            lemma_positions_zero();
        }
        ButtonFlags { bits: 0 }
    }

    /// Every button.
    pub fn all() -> (r: Self)
        ensures
            r.spec_bits() == 0xf3,
            r@ == Self::spec_all(),
    {
        proof {
            lemma_all_buttons();
        }
        ButtonFlags { bits: 0xf3 }
    }

    /// The stored byte.
    #[verifier::when_used_as_spec(spec_bits)]
    pub fn bits(&self) -> (r: u8)
        ensures
            r == self.spec_bits(),
    {
        self.bits
    }

    /// The flags stored as `bits`, unless `bits` has a position set that
    /// names no button.
    pub fn from_bits(bits: u8) -> (r: Option<Self>)
        ensures
            r is Some <==> positions(bits as u32).subset_of(Self::spec_all()),
            r matches Some(f) ==> f.spec_bits() == bits,
    {
        proof {
            lemma_all_buttons();
            lemma_byte_and_not(bits, 0xf3);
            lemma_positions_empty((bits & !0xf3u8) as u32);
            if positions(bits as u32).subset_of(Self::spec_all()) {
                assert(positions(bits as u32).difference(Self::spec_all())
                    =~= Set::<int>::empty());
            }
        }
        if bits & !0xf3u8 == 0 {
            Some(ButtonFlags { bits })
        } else {
            None
        }
    }

    /// The flags stored as `bits`, without the positions that name no
    /// button.
    pub fn from_bits_truncate(bits: u8) -> (r: Self)
        ensures
            r.spec_bits() == bits & 0xf3,
            r@ == positions(bits as u32).intersect(Self::spec_all()),
    {
        proof {
            lemma_all_buttons();
            lemma_positions_and(bits as u32, 0xf3);
        }
        ButtonFlags { bits: bits & 0xf3 }
    }

    /// The flags stored as `bits`, every position kept. This is how a byte
    /// read from a gamepad register becomes a value.
    pub fn from_bits_unchecked(bits: u8) -> (r: Self)
        ensures
            r.spec_bits() == bits,
    {
        ButtonFlags { bits }
    }

    /// Whether no position is set.
    pub fn is_empty(&self) -> (r: bool)
        ensures
            r <==> self@ == Set::<int>::empty(),
            r <==> self.spec_bits() == 0,
    {
        proof {
            lemma_positions_empty(self.bits as u32);
        }
        self.bits == 0
    }

    /// Whether every button is set.
    pub fn is_all(&self) -> (r: bool)
        ensures
            r <==> Self::spec_all().subset_of(self@),
    {
        proof {
            lemma_all_buttons();
            lemma_positions_superset(0xf3, self.bits as u32);
        }
        0xf3 | self.bits == self.bits
    }

    /// Whether `self` and `other` have a position in common.
    pub fn intersects(&self, other: Self) -> (r: bool)
        ensures
            r <==> !self@.disjoint(other@),
    {
        proof {
            lemma_positions_disjoint(self.bits as u32, other.bits as u32);
        }
        self.bits & other.bits != 0
    }

    /// Whether every position of `other` is set in `self`.
    pub fn contains(&self, other: Self) -> (r: bool)
        ensures
            r <==> other@.subset_of(self@),
    {
        proof {
            lemma_positions_subset(self.bits as u32, other.bits as u32);
        }
        (self.bits & other.bits) == other.bits
    }

    /// Sets the positions of `other`.
    pub fn insert(&mut self, other: Self)
        ensures
            final(self)@ == old(self)@.union(other@),
            final(self).spec_bits() == old(self).spec_bits() | other.spec_bits(),
    {
        proof {
            lemma_positions_or(self.bits as u32, other.bits as u32);
        }
        self.bits = self.bits | other.bits;
    }

    /// Clears the positions of `other`.
    pub fn remove(&mut self, other: Self)
        ensures
            final(self)@ == old(self)@.difference(other@),
            final(self).spec_bits() == old(self).spec_bits() & !other.spec_bits(),
    {
        proof {
            lemma_byte_and_not(self.bits, other.bits);
        }
        self.bits = self.bits & !other.bits;
    }

    /// Flips the positions of `other`.
    pub fn toggle(&mut self, other: Self)
        ensures
            final(self)@ == old(self)@.difference(other@).union(other@.difference(old(self)@)),
            final(self).spec_bits() == old(self).spec_bits() ^ other.spec_bits(),
    {
        proof {
            lemma_positions_xor(self.bits as u32, other.bits as u32);
        }
        self.bits = self.bits ^ other.bits;
    }

    /// Sets the positions of `other` where `value` holds, clears them where
    /// it does not.
    pub fn set(&mut self, other: Self, value: bool)
        ensures
            value ==> final(self)@ == old(self)@.union(other@),
            !value ==> final(self)@ == old(self)@.difference(other@),
    {
        if value {
            self.insert(other);
        } else {
            self.remove(other);
        }
    }

    /// The positions set in both.
    pub fn intersection(self, other: Self) -> (r: Self)
        ensures
            r@ == self@.intersect(other@),
            r.spec_bits() == self.spec_bits() & other.spec_bits(),
    {
        proof {
            lemma_positions_and(self.bits as u32, other.bits as u32);
        }
        ButtonFlags { bits: self.bits & other.bits }
    }

    /// The positions set in either.
    pub fn union(self, other: Self) -> (r: Self)
        ensures
            r@ == self@.union(other@),
            r.spec_bits() == self.spec_bits() | other.spec_bits(),
    {
        proof {
            lemma_positions_or(self.bits as u32, other.bits as u32);
        }
        ButtonFlags { bits: self.bits | other.bits }
    }

    /// The positions set in `self` and not in `other`.
    pub fn difference(self, other: Self) -> (r: Self)
        ensures
            r@ == self@.difference(other@),
            r.spec_bits() == self.spec_bits() & !other.spec_bits(),
    {
        proof {
            lemma_byte_and_not(self.bits, other.bits);
        }
        ButtonFlags { bits: self.bits & !other.bits }
    }

    /// The positions set in exactly one of the two.
    pub fn symmetric_difference(self, other: Self) -> (r: Self)
        ensures
            r@ == self@.difference(other@).union(other@.difference(self@)),
            r.spec_bits() == self.spec_bits() ^ other.spec_bits(),
    {
        proof {
            lemma_positions_xor(self.bits as u32, other.bits as u32);
        }
        ButtonFlags { bits: self.bits ^ other.bits }
    }

    /// The buttons that are not set in `self`.
    pub fn complement(self) -> (r: Self)
        ensures
            r@ == Self::spec_all().difference(self@),
            r.spec_bits() == 0xf3 & !self.spec_bits(),
    {
        proof {
            lemma_all_buttons();
            lemma_byte_and_not(0xf3, self.bits);
        }
        ButtonFlags { bits: 0xf3 & !self.bits }
    }
}

/// The byte `0xf3` has exactly the buttons' positions set.
proof fn lemma_all_buttons()
    ensures
        positions(0xf3) == ButtonFlags::spec_all(),
{
    assert forall|i: int| bit(0xf3, i) == ButtonFlags::spec_all().contains(i) by {
        if 0 <= i < 32 {
            let k = i as u32;
            assert((0xf3u32 >> k) & 1 == 1 <==> (k == 0 || k == 1 || k == 4 || k == 5 || k == 6
                || k == 7)) by (bit_vector)
                requires
                    k < 32,
            ;
        }
    }
    assert(positions(0xf3) =~= ButtonFlags::spec_all());
}

/// Two values of `ButtonFlags` with the same positions set are the same value.
pub proof fn lemma_button_flags_equal(a: ButtonFlags, b: ButtonFlags)
    requires
        a@ == b@,
    ensures
        a == b,
{
    lemma_positions_injective(a.spec_bits() as u32, b.spec_bits() as u32);
}

/// Every position of a `ButtonFlags` lies in its byte.
pub proof fn lemma_button_flags_in_byte(f: ButtonFlags)
    ensures
        forall|i: int| f@.contains(i) ==> 0 <= i < 8,
{
    lemma_positions_byte(f.spec_bits());
}

/// The buttons of the mouse, one bit each, as the console stores them in the
/// mouse button register.
///
/// The view is the set of bit positions that are set. Positions 3 to 7 name
/// no button; a value read from the register may still carry them.
#[derive(Clone, Copy, Debug, PartialEq, Eq, Structural, Hash)]
pub struct MouseFlags {
    bits: u8,
}

impl View for MouseFlags {
    type V = Set<int>;

    open spec fn view(&self) -> Set<int> {
        positions(self.spec_bits() as u32)
    }
}

impl MouseFlags {
    /// The stored byte.
    pub closed spec fn spec_bits(&self) -> u8 {
        self.bits
    }

    /// The positions that name a mouse button.
    pub open spec fn spec_all() -> Set<int> {
        set![0int, 1int, 2int]
    }

    /// Left button (bit 0).
    #[allow(non_snake_case)]
    pub fn LEFT() -> (r: Self)
        ensures
            r.spec_bits() == 1,
            r@ == set![0int],
    {
        proof {
            lemma_single_values();
            lemma_positions_single(0);
        }
        MouseFlags { bits: 1 }
    }

    /// Right button (bit 1).
    #[allow(non_snake_case)]
    pub fn RIGHT() -> (r: Self)
        ensures
            r.spec_bits() == 2,
            r@ == set![1int],
    {
        proof {
            lemma_single_values();
            lemma_positions_single(1);
        }
        MouseFlags { bits: 2 }
    }

    /// Middle button (bit 2).
    #[allow(non_snake_case)]
    pub fn MIDDLE() -> (r: Self)
        ensures
            r.spec_bits() == 4,
            r@ == set![2int],
    {
        proof {
            lemma_single_values();
            lemma_positions_single(2);
        }
        MouseFlags { bits: 4 }
    }

    /// No button.
    pub fn empty() -> (r: Self)
        ensures
            r.spec_bits() == 0,
            r@ == Set::<int>::empty(),
    {
        proof {
            lemma_positions_zero();
        }
        MouseFlags { bits: 0 }
    }

    /// Every button.
    pub fn all() -> (r: Self)
        ensures
            r.spec_bits() == 0x07,
            r@ == Self::spec_all(),
    {
        proof {
            lemma_all_mouse_buttons();
        }
        MouseFlags { bits: 0x07 }
    }

    /// The stored byte.
    #[verifier::when_used_as_spec(spec_bits)]
    pub fn bits(&self) -> (r: u8)
        ensures
            r == self.spec_bits(),
    {
        self.bits
    }

    /// The flags stored as `bits`, unless `bits` has a position set that
    /// names no mouse button.
    pub fn from_bits(bits: u8) -> (r: Option<Self>)
        ensures
            r is Some <==> positions(bits as u32).subset_of(Self::spec_all()),
            r matches Some(f) ==> f.spec_bits() == bits,
    {
        proof {
            lemma_all_mouse_buttons();
            lemma_byte_and_not(bits, 0x07);
            lemma_positions_empty((bits & !0x07u8) as u32);
            if positions(bits as u32).subset_of(Self::spec_all()) {
                assert(positions(bits as u32).difference(Self::spec_all())
                    =~= Set::<int>::empty());
            }
        }
        if bits & !0x07u8 == 0 {
            Some(MouseFlags { bits })
        } else {
            None
        }
    }

    /// The flags stored as `bits`, without the positions that name no
    /// mouse button.
    pub fn from_bits_truncate(bits: u8) -> (r: Self)
        ensures
            r.spec_bits() == bits & 0x07,
            r@ == positions(bits as u32).intersect(Self::spec_all()),
    {
        proof {
            lemma_all_mouse_buttons();
            lemma_positions_and(bits as u32, 0x07);
        }
        MouseFlags { bits: bits & 0x07 }
    }

    /// The flags stored as `bits`, every position kept. This is how a byte
    /// read from the mouse button register becomes a value.
    pub fn from_bits_unchecked(bits: u8) -> (r: Self)
        ensures
            r.spec_bits() == bits,
    {
        MouseFlags { bits }
    }

    /// Whether no position is set.
    pub fn is_empty(&self) -> (r: bool)
        ensures
            r <==> self@ == Set::<int>::empty(),
            r <==> self.spec_bits() == 0,
    {
        proof {
            lemma_positions_empty(self.bits as u32);
        }
        self.bits == 0
    }

    /// Whether every mouse button is set.
    pub fn is_all(&self) -> (r: bool)
        ensures
            r <==> Self::spec_all().subset_of(self@),
    {
        proof {
            lemma_all_mouse_buttons();
            lemma_positions_superset(0x07, self.bits as u32);
        }
        0x07 | self.bits == self.bits
    }

    /// Whether `self` and `other` have a position in common.
    pub fn intersects(&self, other: Self) -> (r: bool)
        ensures
            r <==> !self@.disjoint(other@),
    {
        proof {
            lemma_positions_disjoint(self.bits as u32, other.bits as u32);
        }
        self.bits & other.bits != 0
    }

    /// Whether every position of `other` is set in `self`.
    pub fn contains(&self, other: Self) -> (r: bool)
        ensures
            r <==> other@.subset_of(self@),
    {
        proof {
            lemma_positions_subset(self.bits as u32, other.bits as u32);
        }
        (self.bits & other.bits) == other.bits
    }

    /// Sets the positions of `other`.
    pub fn insert(&mut self, other: Self)
        ensures
            final(self)@ == old(self)@.union(other@),
            final(self).spec_bits() == old(self).spec_bits() | other.spec_bits(),
    {
        proof {
            lemma_positions_or(self.bits as u32, other.bits as u32);
        }
        self.bits = self.bits | other.bits;
    }

    /// Clears the positions of `other`.
    pub fn remove(&mut self, other: Self)
        ensures
            final(self)@ == old(self)@.difference(other@),
            final(self).spec_bits() == old(self).spec_bits() & !other.spec_bits(),
    {
        proof {
            lemma_byte_and_not(self.bits, other.bits);
        }
        self.bits = self.bits & !other.bits;
    }

    /// Flips the positions of `other`.
    pub fn toggle(&mut self, other: Self)
        ensures
            final(self)@ == old(self)@.difference(other@).union(other@.difference(old(self)@)),
            final(self).spec_bits() == old(self).spec_bits() ^ other.spec_bits(),
    {
        proof {
            lemma_positions_xor(self.bits as u32, other.bits as u32);
        }
        self.bits = self.bits ^ other.bits;
    }

    /// Sets the positions of `other` where `value` holds, clears them where
    /// it does not.
    pub fn set(&mut self, other: Self, value: bool)
        ensures
            value ==> final(self)@ == old(self)@.union(other@),
            !value ==> final(self)@ == old(self)@.difference(other@),
    {
        if value {
            self.insert(other);
        } else {
            self.remove(other);
        }
    }

    /// The positions set in both.
    pub fn intersection(self, other: Self) -> (r: Self)
        ensures
            r@ == self@.intersect(other@),
            r.spec_bits() == self.spec_bits() & other.spec_bits(),
    {
        proof {
            lemma_positions_and(self.bits as u32, other.bits as u32);
        }
        MouseFlags { bits: self.bits & other.bits }
    }

    /// The positions set in either.
    pub fn union(self, other: Self) -> (r: Self)
        ensures
            r@ == self@.union(other@),
            r.spec_bits() == self.spec_bits() | other.spec_bits(),
    {
        proof {
            lemma_positions_or(self.bits as u32, other.bits as u32);
        }
        MouseFlags { bits: self.bits | other.bits }
    }

    /// The positions set in `self` and not in `other`.
    pub fn difference(self, other: Self) -> (r: Self)
        ensures
            r@ == self@.difference(other@),
            r.spec_bits() == self.spec_bits() & !other.spec_bits(),
    {
        proof {
            lemma_byte_and_not(self.bits, other.bits);
        }
        MouseFlags { bits: self.bits & !other.bits }
    }

    /// The positions set in exactly one of the two.
    pub fn symmetric_difference(self, other: Self) -> (r: Self)
        ensures
            r@ == self@.difference(other@).union(other@.difference(self@)),
            r.spec_bits() == self.spec_bits() ^ other.spec_bits(),
    {
        proof {
            lemma_positions_xor(self.bits as u32, other.bits as u32);
        }
        MouseFlags { bits: self.bits ^ other.bits }
    }

    /// The mouse buttons that are not set in `self`.
    pub fn complement(self) -> (r: Self)
        ensures
            r@ == Self::spec_all().difference(self@),
            r.spec_bits() == 0x07 & !self.spec_bits(),
    {
        proof {
            lemma_all_mouse_buttons();
            lemma_byte_and_not(0x07, self.bits);
        }
        MouseFlags { bits: 0x07 & !self.bits }
    }
}

/// The byte `0x07` has exactly the mouse buttons' positions set.
proof fn lemma_all_mouse_buttons()
    ensures
        positions(0x07) == MouseFlags::spec_all(),
{
    assert forall|i: int| bit(0x07, i) == MouseFlags::spec_all().contains(i) by {
        if 0 <= i < 32 {
            let k = i as u32;
            assert((0x07u32 >> k) & 1 == 1 <==> (k == 0 || k == 1 || k == 2)) by (bit_vector)
                requires
                    k < 32,
            ;
        }
    }
    assert(positions(0x07) =~= MouseFlags::spec_all());
}

/// Two values of `MouseFlags` with the same positions set are the same value.
pub proof fn lemma_mouse_flags_equal(a: MouseFlags, b: MouseFlags)
    requires
        a@ == b@,
    ensures
        a == b,
{
    lemma_positions_injective(a.spec_bits() as u32, b.spec_bits() as u32);
}

/// Every position of a `MouseFlags` lies in its byte.
pub proof fn lemma_mouse_flags_in_byte(f: MouseFlags)
    ensures
        forall|i: int| f@.contains(i) ==> 0 <= i < 8,
{
    lemma_positions_byte(f.spec_bits());
}

/// The netplay register: which player this console is, and whether a netplay
/// session is running.
///
/// Bits 0 and 1 hold the player's index, bit 2 says whether netplay is
/// active, bits 3 to 7 are not used.
#[derive(Clone, Copy, Debug, PartialEq, Eq, Structural)]
pub struct NetPlay {
    byte: u8,
}

impl NetPlay {
    /// The register's byte.
    pub closed spec fn spec_byte(&self) -> u8 {
        self.byte
    }

    /// The index that the register's byte holds: its two lowest bits as a
    /// number.
    pub open spec fn spec_player_index(&self) -> u8 {
        self.spec_byte() % 4
    }

    /// Whether bit 2 of the register's byte is set.
    pub open spec fn spec_active(&self) -> bool {
        (self.spec_byte() / 4) % 2 == 1
    }

    /// Player 0, netplay not active: the zero byte.
    pub fn new() -> (r: Self)
        ensures
            r.spec_byte() == 0,
            r.spec_player_index() == 0,
            !r.spec_active(),
    {
        NetPlay { byte: 0 }
    }

    /// The register's byte.
    pub fn into_bytes(self) -> (bytes: [u8; 1])
        ensures
            bytes@ == seq![self.spec_byte()],
    {
        [self.byte]
    }

    /// The value that the register holds when its byte is `bytes[0]`.
    pub fn from_bytes(bytes: [u8; 1]) -> (r: Self)
        ensures
            r.spec_byte() == bytes@[0],
    {
        NetPlay { byte: bytes[0] }
    }

    /// The index of this console's player, 0 to 3.
    #[verifier::when_used_as_spec(spec_player_index)]
    pub fn player_index(&self) -> (r: u8)
        ensures
            r == self.spec_player_index(),
            r < 4,
    {
        let byte: u8 = self.byte;
        let r: u8 = byte & 3;
        assert(r == byte % 4) by (bit_vector)
            requires
                r == byte & 3,
        ;
        r
    }

    /// Whether a netplay session is running.
    #[verifier::when_used_as_spec(spec_active)]
    pub fn active(&self) -> (r: bool)
        ensures
            r == self.spec_active(),
    {
        let byte: u8 = self.byte;
        let r: u8 = (byte >> 2) & 1;
        assert(r == (byte / 4) % 2) by (bit_vector)
            requires
                r == (byte >> 2) & 1,
        ;
        r == 1
    }
}

/// The layout of the netplay register: the player's index in the two lowest
/// bits, the active bit next, and five bits that are not used above them.
pub proof fn lemma_netplay_layout(n: NetPlay)
    ensures
        n.spec_byte() == n.spec_player_index() + (if n.spec_active() {
            4int
        } else {
            0int
        }) + 8 * (n.spec_byte() / 8),
        n.spec_player_index() < 4,
{
}

} // verus!
