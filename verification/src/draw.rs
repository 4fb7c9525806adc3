//! Drawing: the calls of the console's drawing procedures.

use crate::bits::{
    bit, lemma_positions_and, lemma_positions_and_not, lemma_positions_disjoint,
    lemma_positions_empty, lemma_positions_injective, lemma_positions_or,
    lemma_positions_single, lemma_positions_subset, lemma_positions_superset,
    lemma_positions_xor, lemma_positions_zero, lemma_single_values, positions,
};
use crate::host::{Action, ActionView};
use vstd::prelude::*;
use vstd::slice::slice_to_vec;

verus! {

/// How `blit` and `blit_sub` read and place a sprite, one bit each, as the
/// console takes them in the last argument of both procedures.
///
/// The view is the set of bit positions that are set. Positions 4 to 31 name
/// no flag.
#[derive(Clone, Copy, Debug, PartialEq, Eq, Structural, Hash)]
pub struct BlitFlags {
    bits: u32,
}

impl View for BlitFlags {
    type V = Set<int>;

    open spec fn view(&self) -> Set<int> {
        positions(self.spec_bits())
    }
}

impl BlitFlags {
    /// The stored word.
    pub closed spec fn spec_bits(&self) -> u32 {
        self.bits
    }

    /// The positions that name a blit flag.
    pub open spec fn spec_all() -> Set<int> {
        set![0int, 1int, 2int, 3int]
    }

    /// The sprite holds two bits for each pixel (bit 0).
    #[allow(non_snake_case)]
    pub fn TWO_BIT_PER_PIXEL() -> (r: Self)
        ensures
            r.spec_bits() == 1,
            r@ == set![0int],
    {
        proof {
            lemma_single_values();
            lemma_positions_single(0);
        }
        BlitFlags { bits: 1 }
    }

    /// The sprite holds one bit for each pixel: no bit is set.
    #[allow(non_snake_case)]
    pub fn ONE_BIT_PER_PIXEL() -> (r: Self)
        ensures
            r.spec_bits() == 0,
            r@ == Set::<int>::empty(),
    {
        proof {
            lemma_positions_zero();
        }
        BlitFlags { bits: 0 }
    }

    /// Mirror the sprite left to right (bit 1).
    #[allow(non_snake_case)]
    pub fn FLIP_X() -> (r: Self)
        ensures
            r.spec_bits() == 2,
            r@ == set![1int],
    {
        proof {
            lemma_single_values();
            lemma_positions_single(1);
        }
        BlitFlags { bits: 2 }
    }

    /// Mirror the sprite top to bottom (bit 2).
    #[allow(non_snake_case)]
    pub fn FLIP_Y() -> (r: Self)
        ensures
            r.spec_bits() == 4,
            r@ == set![2int],
    {
        proof {
            lemma_single_values();
            lemma_positions_single(2);
        }
        BlitFlags { bits: 4 }
    }

    /// Rotate the sprite (bit 3).
    #[allow(non_snake_case)]
    pub fn ROTATE() -> (r: Self)
        ensures
            r.spec_bits() == 8,
            r@ == set![3int],
    {
        proof {
            lemma_single_values();
            lemma_positions_single(3);
        }
        BlitFlags { bits: 8 }
    }

    /// No flag.
    pub fn empty() -> (r: Self)
        ensures
            r.spec_bits() == 0,
            r@ == Set::<int>::empty(),
    {
        proof {
            lemma_positions_zero();
        }
        BlitFlags { bits: 0 }
    }

    /// Every flag.
    pub fn all() -> (r: Self)
        ensures
            r.spec_bits() == 0x0f,
            r@ == Self::spec_all(),
    {
        proof {
            lemma_all_blit_flags();
        }
        BlitFlags { bits: 0x0f }
    }

    /// The stored word.
    #[verifier::when_used_as_spec(spec_bits)]
    pub fn bits(&self) -> (r: u32)
        ensures
            r == self.spec_bits(),
    {
        self.bits
    }

    /// The flags stored as `bits`, unless `bits` has a position set that
    /// names no blit flag.
    pub fn from_bits(bits: u32) -> (r: Option<Self>)
        ensures
            r is Some <==> positions(bits).subset_of(Self::spec_all()),
            r matches Some(f) ==> f.spec_bits() == bits,
    {
        proof {
            lemma_all_blit_flags();
            lemma_positions_and_not(bits, 0x0f);
            lemma_positions_empty(bits & !0x0fu32);
            if positions(bits).subset_of(Self::spec_all()) {
                assert(positions(bits).difference(Self::spec_all())
                    =~= Set::<int>::empty());
            }
        }
        if bits & !0x0fu32 == 0 {
            Some(BlitFlags { bits })
        } else {
            None
        }
    }

    /// The flags stored as `bits`, without the positions that name no
    /// blit flag.
    pub fn from_bits_truncate(bits: u32) -> (r: Self)
        ensures
            r.spec_bits() == bits & 0x0f,
            r@ == positions(bits).intersect(Self::spec_all()),
    {
        proof {
            lemma_all_blit_flags();
            lemma_positions_and(bits, 0x0f);
        }
        BlitFlags { bits: bits & 0x0f }
    }

    /// The flags stored as `bits`, every position kept.
    pub fn from_bits_unchecked(bits: u32) -> (r: Self)
        ensures
            r.spec_bits() == bits,
    {
        BlitFlags { bits }
    }

    /// Whether no position is set.
    pub fn is_empty(&self) -> (r: bool)
        ensures
            r <==> self@ == Set::<int>::empty(),
            r <==> self.spec_bits() == 0,
    {
        proof {
            lemma_positions_empty(self.bits);
        }
        self.bits == 0
    }

    /// Whether every blit flag is set.
    pub fn is_all(&self) -> (r: bool)
        ensures
            r <==> Self::spec_all().subset_of(self@),
    {
        proof {
            lemma_all_blit_flags();
            lemma_positions_superset(0x0f, self.bits);
        }
        0x0f | self.bits == self.bits
    }

    /// Whether `self` and `other` have a position in common.
    pub fn intersects(&self, other: Self) -> (r: bool)
        ensures
            r <==> !self@.disjoint(other@),
    {
        proof {
            lemma_positions_disjoint(self.bits, other.bits);
        }
        self.bits & other.bits != 0
    }

    /// Whether every position of `other` is set in `self`.
    pub fn contains(&self, other: Self) -> (r: bool)
        ensures
            r <==> other@.subset_of(self@),
    {
        proof {
            lemma_positions_subset(self.bits, other.bits);
        }
        (self.bits & other.bits) == other.bits
    }

    /// Sets the positions of `other`.
    pub fn insert(&mut self, other: Self)
        ensures
            final(self)@ == old(self)@.union(other@),
            final(self).spec_bits() == old(self).spec_bits() | other.spec_bits(),
    {
        proof {
            lemma_positions_or(self.bits, other.bits);
        }
        self.bits = self.bits | other.bits;
    }

    /// Clears the positions of `other`.
    pub fn remove(&mut self, other: Self)
        ensures
            final(self)@ == old(self)@.difference(other@),
            final(self).spec_bits() == old(self).spec_bits() & !other.spec_bits(),
    {
        proof {
            lemma_positions_and_not(self.bits, other.bits);
        }
        self.bits = self.bits & !other.bits;
    }

    /// Flips the positions of `other`.
    pub fn toggle(&mut self, other: Self)
        ensures
            final(self)@ == old(self)@.difference(other@).union(other@.difference(old(self)@)),
            final(self).spec_bits() == old(self).spec_bits() ^ other.spec_bits(),
    {
        proof {
            lemma_positions_xor(self.bits, other.bits);
        }
        self.bits = self.bits ^ other.bits;
    }

    /// Sets the positions of `other` where `value` holds, clears them where
    /// it does not.
    pub fn set(&mut self, other: Self, value: bool)
        ensures
            value ==> final(self)@ == old(self)@.union(other@),
            !value ==> final(self)@ == old(self)@.difference(other@),
    {
        if value {
            self.insert(other);
        } else {
            self.remove(other);
        }
    }

    /// The positions set in both.
    pub fn intersection(self, other: Self) -> (r: Self)
        ensures
            r@ == self@.intersect(other@),
            r.spec_bits() == self.spec_bits() & other.spec_bits(),
    {
        proof {
            lemma_positions_and(self.bits, other.bits);
        }
        BlitFlags { bits: self.bits & other.bits }
    }

    /// The positions set in either.
    pub fn union(self, other: Self) -> (r: Self)
        ensures
            r@ == self@.union(other@),
            r.spec_bits() == self.spec_bits() | other.spec_bits(),
    {
        proof {
            lemma_positions_or(self.bits, other.bits);
        }
        BlitFlags { bits: self.bits | other.bits }
    }

    /// The positions set in `self` and not in `other`.
    pub fn difference(self, other: Self) -> (r: Self)
        ensures
            r@ == self@.difference(other@),
            r.spec_bits() == self.spec_bits() & !other.spec_bits(),
    {
        proof {
            lemma_positions_and_not(self.bits, other.bits);
        }
        BlitFlags { bits: self.bits & !other.bits }
    }

    /// The positions set in exactly one of the two.
    pub fn symmetric_difference(self, other: Self) -> (r: Self)
        ensures
            r@ == self@.difference(other@).union(other@.difference(self@)),
            r.spec_bits() == self.spec_bits() ^ other.spec_bits(),
    {
        proof {
            lemma_positions_xor(self.bits, other.bits);
        }
        BlitFlags { bits: self.bits ^ other.bits }
    }

    /// The blit flags that are not set in `self`.
    pub fn complement(self) -> (r: Self)
        ensures
            r@ == Self::spec_all().difference(self@),
            r.spec_bits() == 0x0f & !self.spec_bits(),
    {
        proof {
            lemma_all_blit_flags();
            lemma_positions_and_not(0x0f, self.bits);
        }
        BlitFlags { bits: 0x0f & !self.bits }
    }
}

/// The word `0x0f` has exactly the blit flags' positions set.
proof fn lemma_all_blit_flags()
    ensures
        positions(0x0f) == BlitFlags::spec_all(),
{
    assert forall|i: int| bit(0x0f, i) == BlitFlags::spec_all().contains(i) by {
        if 0 <= i < 32 {
            let k = i as u32;
            assert((0x0fu32 >> k) & 1 == 1 <==> (k == 0 || k == 1 || k == 2 || k == 3))
                by (bit_vector)
                requires
                    k < 32,
            ;
        }
    }
    assert(positions(0x0f) =~= BlitFlags::spec_all());
}

/// Two values of `BlitFlags` with the same positions set are the same value.
pub proof fn lemma_blit_flags_equal(a: BlitFlags, b: BlitFlags)
    requires
        a@ == b@,
    ensures
        a == b,
{
    lemma_positions_injective(a.spec_bits(), b.spec_bits());
}

/// Copies pixels to the framebuffer.
pub fn blit(
    sprite: &[u8],
    x: i32,
    y: i32,
    width: u32,
    height: u32,
    flags: BlitFlags,
) -> (a: Action)
    ensures
        a@ == (ActionView::Blit {
            sprite: sprite@,
            x,
            y,
            width,
            height,
            flags: flags.spec_bits(),
        }),
{
    Action::Blit { sprite: slice_to_vec(sprite), x, y, width, height, flags: flags.bits() }
}

/// Copies a subregion within a larger sprite atlas to the framebuffer.
pub fn blit_sub(
    sprite: &[u8],
    x: i32,
    y: i32,
    width: u32,
    height: u32,
    src_x: u32,
    src_y: u32,
    stride: u32,
    flags: BlitFlags,
) -> (a: Action)
    ensures
        a@ == (ActionView::BlitSub {
            sprite: sprite@,
            x,
            y,
            width,
            height,
            src_x,
            src_y,
            stride,
            flags: flags.spec_bits(),
        }),
{
    Action::BlitSub {
        sprite: slice_to_vec(sprite),
        x,
        y,
        width,
        height,
        src_x,
        src_y,
        stride,
        flags: flags.bits(),
    }
}

/// Draws a line between two points.
pub fn line(x1: i32, y1: i32, x2: i32, y2: i32) -> (a: Action)
    ensures
        a@ == (ActionView::Line { x1, y1, x2, y2 }),
{
    Action::Line { x1, y1, x2, y2 }
}

/// Draws an oval (or circle).
pub fn oval(x: i32, y: i32, width: u32, height: u32) -> (a: Action)
    ensures
        a@ == (ActionView::Oval { x, y, width, height }),
{
    Action::Oval { x, y, width, height }
}

/// Draws a rectangle.
pub fn rect(x: i32, y: i32, width: u32, height: u32) -> (a: Action)
    ensures
        a@ == (ActionView::Rect { x, y, width, height }),
{
    Action::Rect { x, y, width, height }
}

/// Draws text using the built-in system font. The console takes the bytes
/// of the text and their number.
pub fn text(bytes: &[u8], x: i32, y: i32) -> (a: Action)
    ensures
        a@ == (ActionView::Text { text: bytes@, x, y }),
{
    Action::Text { text: slice_to_vec(bytes), x, y }
}

/// Draws a vertical line.
pub fn vline(x: i32, y: i32, len: u32) -> (a: Action)
    ensures
        a@ == (ActionView::Vline { x, y, len }),
{
    Action::Vline { x, y, len }
}

/// Draws a horizontal line.
pub fn hline(x: i32, y: i32, len: u32) -> (a: Action)
    ensures
        a@ == (ActionView::Hline { x, y, len }),
{
    Action::Hline { x, y, len }
}

} // verus!
