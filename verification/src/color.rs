//! Colours: the palette entries and the draw colours register.

use vstd::prelude::*;

verus! {

/// One entry of the palette.
///
/// In the console's memory an entry takes four bytes: `r`, `g`, `b`, and one
/// byte that is not used.
#[derive(Clone, Copy, Debug, PartialEq, Eq, Structural)]
pub struct Rgb {
    pub r: u8,
    pub g: u8,
    pub b: u8,
}

impl Rgb {
    /// The entry with the given components. Mind the order of the
    /// parameters: red, then blue, then green.
    pub fn new(red: u8, blue: u8, green: u8) -> (c: Self)
        ensures
            c == (Rgb { r: red, g: green, b: blue }),
    {
        Rgb { r: red, g: green, b: blue }
    }

    /// `new(red, 0, 0)`: only `r` is set.
    pub fn red(red: u8) -> (c: Self)
        ensures
            c == (Rgb { r: red, g: 0, b: 0 }),
    {
        Self::new(red, 0, 0)
    }

    /// `new(0, green, 0)`. The second parameter of `new` is its blue one, so
    /// the value lands in `b`.
    pub fn green(green: u8) -> (c: Self)
        ensures
            c == (Rgb { r: 0, g: 0, b: green }),
    {
        Self::new(0, green, 0)
    }

    /// `new(0, 0, blue)`. The third parameter of `new` is its green one, so
    /// the value lands in `g`.
    pub fn blue(blue: u8) -> (c: Self)
        ensures
            c == (Rgb { r: 0, g: blue, b: 0 }),
    {
        Self::new(0, 0, blue)
    }

    /// The four bytes of the entry as they lie in memory. The unused byte is
    /// zero.
    pub fn into_bytes(self) -> (bytes: [u8; 4])
        ensures
            bytes@ == seq![self.r, self.g, self.b, 0u8],
    {
        [self.r, self.g, self.b, 0]
    }

    /// The entry that lies in memory as `bytes`. The unused byte is dropped.
    pub fn from_bytes(bytes: [u8; 4]) -> (c: Self)
        ensures
            c == (Rgb { r: bytes@[0], g: bytes@[1], b: bytes@[2] }),
    {
        Rgb { r: bytes[0], g: bytes[1], b: bytes[2] }
    }
}

/// A value was too large for the bits of its field.
#[derive(Clone, Copy, Debug, PartialEq, Eq, Structural)]
pub struct OutOfBounds;

/// The four slots of a draw colours word, lowest nibble first.
pub open spec fn unpack(word: u16) -> Seq<u8> {
    seq![
        (word % 16) as u8,
        ((word / 16) % 16) as u8,
        ((word / 256) % 16) as u8,
        (word / 4096) as u8,
    ]
}

/// The word that holds four slots, lowest nibble first.
pub open spec fn pack(slots: Seq<u8>) -> int
    recommends
        slots.len() == 4,
{
    slots[0] + 16 * slots[1] + 256 * slots[2] + 4096 * slots[3]
}

/// The nibble of `word` that starts at bit `shift`.
fn load(word: u16, shift: u16) -> (r: u8)
    requires
        shift == 0 || shift == 4 || shift == 8 || shift == 12,
    ensures
        r == unpack(word)[shift as int / 4],
        r < 16,
{
    let nibble: u16 = (word >> shift) & 0xf;
    assert({
        &&& nibble < 16
        &&& shift == 0 ==> nibble == word % 16
        &&& shift == 4 ==> nibble == (word / 16) % 16
        &&& shift == 8 ==> nibble == (word / 256) % 16
        &&& shift == 12 ==> nibble == word / 4096
    }) by (bit_vector)
        requires
            nibble == (word >> shift) & 0xf,
    ;
    nibble as u8
}

/// `word` with the nibble that starts at bit `shift` replaced by `value`.
fn store(word: u16, shift: u16, value: u8) -> (r: u16)
    requires
        shift == 0 || shift == 4 || shift == 8 || shift == 12,
        value < 16,
    ensures
        unpack(r) == unpack(word).update(shift as int / 4, value),
{
    let nibble: u16 = value as u16;
    let r: u16 = (word & !(0xfu16 << shift)) | (nibble << shift);
    assert({
        &&& r % 16 == if shift == 0 { nibble } else { word % 16 }
        &&& (r / 16) % 16 == if shift == 4 { nibble } else { (word / 16) % 16 }
        &&& (r / 256) % 16 == if shift == 8 { nibble } else { (word / 256) % 16 }
        &&& r / 4096 == if shift == 12 { nibble } else { word / 4096 }
    }) by (bit_vector)
        requires
            r == (word & !(0xfu16 << shift)) | (nibble << shift),
            shift == 0 || shift == 4 || shift == 8 || shift == 12,
            nibble < 16,
    ;
    assert(unpack(r) =~= unpack(word).update(shift as int / 4, value));
    r
}

/// The draw colours register: four slots of one nibble each, in a word of
/// sixteen bits.
///
/// The view is the sequence of the four slots, slot 0 first. Slot `k` takes
/// bits `4k` to `4k + 3` of the register's word. In memory the word's low
/// byte comes first.
#[derive(Clone, Copy, Debug, PartialEq, Eq, Structural)]
pub struct DrawColors {
    word: u16,
}

impl View for DrawColors {
    type V = Seq<u8>;

    open spec fn view(&self) -> Seq<u8> {
        unpack(self.spec_word())
    }
}

impl DrawColors {
    /// The register's word.
    pub closed spec fn spec_word(&self) -> u16 {
        self.word
    }

    /// All four slots zero.
    pub fn new() -> (r: Self)
        ensures
            r@ == seq![0u8, 0u8, 0u8, 0u8],
            r.spec_word() == 0,
    {
        let r = DrawColors { word: 0 };
        assert(r@ =~= seq![0u8, 0u8, 0u8, 0u8]);
        r
    }

    /// The register's two bytes as they lie in memory, low byte first.
    pub fn into_bytes(self) -> (bytes: [u8; 2])
        ensures
            bytes@ == seq![(self.spec_word() % 256) as u8, (self.spec_word() / 256) as u8],
            bytes@[0] + 256 * bytes@[1] == pack(self@),
            bytes@[0] == self@[0] + 16 * self@[1],
            bytes@[1] == self@[2] + 16 * self@[3],
    {
        let word: u16 = self.word;
        let low: u16 = word & 0xff;
        let high: u16 = word >> 8;
        assert(low == word % 256 && high == word / 256) by (bit_vector)
            requires
                low == word & 0xff,
                high == word >> 8,
        ;
        [low as u8, high as u8]
    }

    /// The value that the register holds when its two bytes in memory are
    /// `bytes`, low byte first.
    pub fn from_bytes(bytes: [u8; 2]) -> (r: Self)
        ensures
            r.spec_word() == bytes@[0] + 256 * bytes@[1],
            r@ == seq![
                bytes@[0] % 16,
                bytes@[0] / 16,
                bytes@[1] % 16,
                bytes@[1] / 16,
            ],
    {
        let low: u16 = bytes[0] as u16;
        let high: u16 = bytes[1] as u16;
        let word: u16 = low | (high << 8);
        assert(word == low + 256 * high) by (bit_vector)
            requires
                word == low | (high << 8),
                low < 256,
                high < 256,
        ;
        let r = DrawColors { word };
        assert(r@ =~= seq![bytes@[0] % 16, bytes@[0] / 16, bytes@[1] % 16, bytes@[1] / 16]);
        r
    }


    /// The colour of slot 0: bits 0 to 3 of the register.
    pub fn get_0(&self) -> (r: u8)
        ensures
            r == self@[0],
            r < 16,
    {
        load(self.word, 0)
    }

    /// A copy with slot 0 set to `new_val`; the other slots are kept.
    pub fn with_0(self, new_val: u8) -> (r: Self)
        requires
            new_val < 16,
        ensures
            r@ == self@.update(0, new_val),
    {
        DrawColors { word: store(self.word, 0, new_val) }
    }

    /// A copy with slot 0 set to `new_val`, or `OutOfBounds` where
    /// `new_val` does not fit in a nibble.
    pub fn with_0_checked(self, new_val: u8) -> (r: Result<Self, OutOfBounds>)
        ensures
            r is Ok <==> new_val < 16,
            r matches Ok(c) ==> c@ == self@.update(0, new_val),
    {
        if new_val > 15 {
            Err(OutOfBounds)
        } else {
            Ok(DrawColors { word: store(self.word, 0, new_val) })
        }
    }

    /// Sets slot 0 to `new_val`; the other slots are kept.
    pub fn set_0(&mut self, new_val: u8)
        requires
            new_val < 16,
        ensures
            final(self)@ == old(self)@.update(0, new_val),
    {
        self.word = store(self.word, 0, new_val);
    }

    /// Sets slot 0 to `new_val`. Where `new_val` does not fit in a nibble,
    /// nothing changes and the result is `OutOfBounds`.
    pub fn set_0_checked(&mut self, new_val: u8) -> (r: Result<(), OutOfBounds>)
        ensures
            r is Ok <==> new_val < 16,
            r is Ok ==> final(self)@ == old(self)@.update(0, new_val),
            r is Err ==> *final(self) == *old(self),
    {
        if new_val > 15 {
            Err(OutOfBounds)
        } else {
            self.word = store(self.word, 0, new_val);
            Ok(())
        }
    }

    /// The colour of slot 1: bits 4 to 7 of the register.
    pub fn get_1(&self) -> (r: u8)
        ensures
            r == self@[1],
            r < 16,
    {
        load(self.word, 4)
    }

    /// A copy with slot 1 set to `new_val`; the other slots are kept.
    pub fn with_1(self, new_val: u8) -> (r: Self)
        requires
            new_val < 16,
        ensures
            r@ == self@.update(1, new_val),
    {
        DrawColors { word: store(self.word, 4, new_val) }
    }

    /// A copy with slot 1 set to `new_val`, or `OutOfBounds` where
    /// `new_val` does not fit in a nibble.
    pub fn with_1_checked(self, new_val: u8) -> (r: Result<Self, OutOfBounds>)
        ensures
            r is Ok <==> new_val < 16,
            r matches Ok(c) ==> c@ == self@.update(1, new_val),
    {
        if new_val > 15 {
            Err(OutOfBounds)
        } else {
            Ok(DrawColors { word: store(self.word, 4, new_val) })
        }
    }

    /// Sets slot 1 to `new_val`; the other slots are kept.
    pub fn set_1(&mut self, new_val: u8)
        requires
            new_val < 16,
        ensures
            final(self)@ == old(self)@.update(1, new_val),
    {
        self.word = store(self.word, 4, new_val);
    }

    /// Sets slot 1 to `new_val`. Where `new_val` does not fit in a nibble,
    /// nothing changes and the result is `OutOfBounds`.
    pub fn set_1_checked(&mut self, new_val: u8) -> (r: Result<(), OutOfBounds>)
        ensures
            r is Ok <==> new_val < 16,
            r is Ok ==> final(self)@ == old(self)@.update(1, new_val),
            r is Err ==> *final(self) == *old(self),
    {
        if new_val > 15 {
            Err(OutOfBounds)
        } else {
            self.word = store(self.word, 4, new_val);
            Ok(())
        }
    }

    /// The colour of slot 2: bits 8 to 11 of the register.
    pub fn get_2(&self) -> (r: u8)
        ensures
            r == self@[2],
            r < 16,
    {
        load(self.word, 8)
    }

    /// A copy with slot 2 set to `new_val`; the other slots are kept.
    pub fn with_2(self, new_val: u8) -> (r: Self)
        requires
            new_val < 16,
        ensures
            r@ == self@.update(2, new_val),
    {
        DrawColors { word: store(self.word, 8, new_val) }
    }

    /// A copy with slot 2 set to `new_val`, or `OutOfBounds` where
    /// `new_val` does not fit in a nibble.
    pub fn with_2_checked(self, new_val: u8) -> (r: Result<Self, OutOfBounds>)
        ensures
            r is Ok <==> new_val < 16,
            r matches Ok(c) ==> c@ == self@.update(2, new_val),
    {
        if new_val > 15 {
            Err(OutOfBounds)
        } else {
            Ok(DrawColors { word: store(self.word, 8, new_val) })
        }
    }

    /// Sets slot 2 to `new_val`; the other slots are kept.
    pub fn set_2(&mut self, new_val: u8)
        requires
            new_val < 16,
        ensures
            final(self)@ == old(self)@.update(2, new_val),
    {
        self.word = store(self.word, 8, new_val);
    }

    /// Sets slot 2 to `new_val`. Where `new_val` does not fit in a nibble,
    /// nothing changes and the result is `OutOfBounds`.
    pub fn set_2_checked(&mut self, new_val: u8) -> (r: Result<(), OutOfBounds>)
        ensures
            r is Ok <==> new_val < 16,
            r is Ok ==> final(self)@ == old(self)@.update(2, new_val),
            r is Err ==> *final(self) == *old(self),
    {
        if new_val > 15 {
            Err(OutOfBounds)
        } else {
            self.word = store(self.word, 8, new_val);
            Ok(())
        }
    }

    /// The colour of slot 3: bits 12 to 15 of the register.
    pub fn get_3(&self) -> (r: u8)
        ensures
            r == self@[3],
            r < 16,
    {
        load(self.word, 12)
    }

    /// A copy with slot 3 set to `new_val`; the other slots are kept.
    pub fn with_3(self, new_val: u8) -> (r: Self)
        requires
            new_val < 16,
        ensures
            r@ == self@.update(3, new_val),
    {
        DrawColors { word: store(self.word, 12, new_val) }
    }

    /// A copy with slot 3 set to `new_val`, or `OutOfBounds` where
    /// `new_val` does not fit in a nibble.
    pub fn with_3_checked(self, new_val: u8) -> (r: Result<Self, OutOfBounds>)
        ensures
            r is Ok <==> new_val < 16,
            r matches Ok(c) ==> c@ == self@.update(3, new_val),
    {
        if new_val > 15 {
            Err(OutOfBounds)
        } else {
            Ok(DrawColors { word: store(self.word, 12, new_val) })
        }
    }

    /// Sets slot 3 to `new_val`; the other slots are kept.
    pub fn set_3(&mut self, new_val: u8)
        requires
            new_val < 16,
        ensures
            final(self)@ == old(self)@.update(3, new_val),
    {
        self.word = store(self.word, 12, new_val);
    }

    /// Sets slot 3 to `new_val`. Where `new_val` does not fit in a nibble,
    /// nothing changes and the result is `OutOfBounds`.
    pub fn set_3_checked(&mut self, new_val: u8) -> (r: Result<(), OutOfBounds>)
        ensures
            r is Ok <==> new_val < 16,
            r is Ok ==> final(self)@ == old(self)@.update(3, new_val),
            r is Err ==> *final(self) == *old(self),
    {
        if new_val > 15 {
            Err(OutOfBounds)
        } else {
            self.word = store(self.word, 12, new_val);
            Ok(())
        }
    }
}

/// Packing the slots of a word gives the word back, and every slot fits in a
/// nibble.
pub proof fn lemma_pack_unpack(word: u16)
    ensures
        pack(unpack(word)) == word,
        unpack(word).len() == 4,
        forall|k: int| 0 <= k < 4 ==> unpack(word)[k] < 16,
{
    assert(word % 16 + 16 * ((word / 16) % 16) + 256 * ((word / 256) % 16) + 4096 * (word
        / 4096) == word) by (bit_vector);
}

/// Four slots that fit in a nibble each are the slots of the word that they
/// pack to.
pub proof fn lemma_unpack_pack(slots: Seq<u8>)
    requires
        slots.len() == 4,
        forall|k: int| 0 <= k < 4 ==> slots[k] < 16,
    ensures
        0 <= pack(slots) < 0x1_0000,
        unpack(pack(slots) as u16) == slots,
{
    let a = slots[0] as u16;
    let b = slots[1] as u16;
    let c = slots[2] as u16;
    let d = slots[3] as u16;
    let word = pack(slots) as u16;
    assert(word % 16 == a && (word / 16) % 16 == b && (word / 256) % 16 == c && word / 4096
        == d) by (bit_vector)
        requires
            word == a + 16 * b + 256 * c + 4096 * d,
            a < 16,
            b < 16,
            c < 16,
            d < 16,
    ;
    assert(unpack(word) =~= slots);
}

/// Two draw colours values with the same slots are the same value.
pub proof fn lemma_draw_colors_equal(a: DrawColors, b: DrawColors)
    requires
        a@ == b@,
    ensures
        a == b,
{
    lemma_pack_unpack(a.spec_word());
    lemma_pack_unpack(b.spec_word());
}

} // verus!
