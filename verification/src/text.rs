//! Text in a fixed buffer.
//!
//! A cartridge has no heap to build messages in when it fails. [`Formatter`]
//! writes text into a buffer that its caller owns and refuses what does not
//! fit.

use vstd::prelude::*;
use vstd::slice::slice_subrange;
use vstd::string::StringSliceAdditionalSpecFns;
use vstd::utf8::{
    decode_utf8, encode_utf8, encode_utf8_decode_utf8, encode_utf8_valid_utf8,
    is_ascii_chars, is_ascii_chars_encode_utf8, valid_utf8, valid_utf8_concat,
};

verus! {

/// The byte that a fresh buffer is filled with: the letter `A`.
pub const FILL: u8 = 0x41;

/// The ASCII code of the decimal digit `d`.
pub open spec fn digit(d: nat) -> u8
    recommends
        d < 10,
{
    (0x30 + d) as u8
}

/// The decimal digits of `n` as ASCII codes, most significant first, without
/// leading zeros; zero is the one digit `0`.
pub open spec fn decimal(n: nat) -> Seq<u8>
    decreases n,
{
    if n < 10 {
        seq![digit(n)]
    } else {
        decimal(n / 10).push(digit(n % 10))
    }
}

/// Ten to the power of `n`.
pub open spec fn pow10(n: nat) -> nat
    decreases n,
{
    if n == 0 {
        1
    } else {
        10 * pow10((n - 1) as nat)
    }
}

/// The characters whose codes are `bytes`.
pub open spec fn ascii(bytes: Seq<u8>) -> Seq<char> {
    bytes.map_values(|b: u8| b as char)
}

/// Whether each of `bytes` is an ASCII code.
pub open spec fn is_ascii(bytes: Seq<u8>) -> bool {
    forall|i: int| 0 <= i < bytes.len() ==> #[trigger] bytes[i] < 0x80
}

/// ASCII codes are the UTF-8 encoding of their characters.
pub proof fn lemma_ascii_utf8(bytes: Seq<u8>)
    requires
        is_ascii(bytes),
    ensures
        valid_utf8(bytes),
        encode_utf8(ascii(bytes)) == bytes,
        decode_utf8(bytes) == ascii(bytes),
{
    let chars = ascii(bytes);
    assert(is_ascii_chars(chars)) by {
        assert forall|i: int| 0 <= i < chars.len() implies '\0' <= #[trigger] chars[i]
            <= '\u{7f}' by {
            assert(bytes[i] < 0x80);
        }
    }
    is_ascii_chars_encode_utf8(chars);
    assert(encode_utf8(chars) =~= bytes) by {
        assert forall|i: int| 0 <= i < bytes.len() implies encode_utf8(chars)[i] == bytes[i] by {
            assert(chars[i] as u8 == encode_utf8(chars)[i]);
            assert(bytes[i] < 0x80);
        }
    }
    encode_utf8_valid_utf8(chars);
    encode_utf8_decode_utf8(chars);
}

/// A number has between one and ten decimal digits when it is below ten to
/// the tenth, and all of them are digits.
pub proof fn lemma_decimal_digits(n: nat)
    ensures
        decimal(n).len() >= 1,
        forall|k: nat| n < pow10(k) && k >= 1 ==> decimal(n).len() <= k,
        forall|k: nat| n >= pow10(k) ==> decimal(n).len() > k,
        forall|i: int| 0 <= i < decimal(n).len() ==> 0x30 <= #[trigger] decimal(n)[i] <= 0x39,
        is_ascii(decimal(n)),
    decreases n,
{
    reveal_with_fuel(pow10, 2);
    if n >= 10 {
        lemma_decimal_digits(n / 10);
        assert forall|k: nat| n < pow10(k) && k >= 1 implies decimal(n).len() <= k by {
            if k == 1 {
            } else {
                assert(pow10(k) == 10 * pow10((k - 1) as nat));
                assert(n / 10 < pow10((k - 1) as nat));
            }
        }
        assert forall|k: nat| n >= pow10(k) implies decimal(n).len() > k by {
            if k > 0 {
                assert(pow10(k) == 10 * pow10((k - 1) as nat));
                assert(n / 10 >= pow10((k - 1) as nat));
            }
        }
    } else {
        assert forall|k: nat| n >= pow10(k) implies decimal(n).len() > k by {
            if k > 0 {
                assert(pow10(k) == 10 * pow10((k - 1) as nat));
                lemma_pow10_positive((k - 1) as nat);
            }
        }
    }
}

/// Powers of ten are positive.
pub proof fn lemma_pow10_positive(n: nat)
    ensures
        pow10(n) >= 1,
    decreases n,
{
    if n > 0 {
        lemma_pow10_positive((n - 1) as nat);
    }
}

/// The text did not fit in what was left of the buffer.
#[derive(Clone, Copy, Debug, PartialEq, Eq, Structural)]
pub struct BufferFull;

/// Reads `bytes` as text where they are valid UTF-8.
///
/// Trusted: this is `core::str::from_utf8`, with its error dropped. The
/// contract says what the standard library documents of it: the call
/// succeeds on valid UTF-8 and on nothing else, and the text it returns is
/// made of the very bytes it was given.
#[verifier::external_body]
fn utf8_text(bytes: &[u8]) -> (r: Option<&str>)
    ensures
        r is Some <==> valid_utf8(bytes@),
        r matches Some(s) ==> s.spec_bytes() == bytes@,
{
    core::str::from_utf8(bytes).ok()
}

/// Writes text into a caller's buffer, from its start on.
pub struct Formatter<'b> {
    buffer: &'b mut [u8],
    cursor: usize,
}

impl<'b> Formatter<'b> {
    /// The whole buffer as it stands.
    pub closed spec fn contents(&self) -> Seq<u8> {
        self.buffer@
    }

    /// The buffer's length.
    pub open spec fn capacity(&self) -> nat {
        self.contents().len()
    }

    /// The number of bytes written so far.
    pub closed spec fn len(&self) -> nat {
        self.cursor as nat
    }

    /// The bytes written so far: the start of the buffer.
    pub open spec fn written(&self) -> Seq<u8> {
        self.contents().subrange(0, self.len() as int)
    }

    /// The buffer as it stands once `bytes` are appended: they follow what
    /// was written, and what lies behind them is kept.
    pub open spec fn appended(&self, bytes: Seq<u8>) -> Seq<u8> {
        self.written() + bytes + self.contents().subrange(
            (self.len() + bytes.len()) as int,
            self.capacity() as int,
        )
    }

    /// What every formatter keeps: the written part lies within the buffer
    /// and is valid UTF-8.
    #[verifier::type_invariant]
    spec fn inv(&self) -> bool {
        &&& self.cursor <= self.buffer@.len()
        &&& valid_utf8(self.buffer@.subrange(0, self.cursor as int))
    }

    /// A formatter that has written nothing, over `buffer`. The buffer is
    /// filled with the letter `A` first, so that it holds text throughout.
    pub fn new(buffer: &'b mut [u8]) -> (f: Self)
        ensures
            f.capacity() == old(buffer)@.len(),
            f.len() == 0,
            valid_utf8(f.written()),
            f.contents() == Seq::new(old(buffer)@.len(), |i: int| FILL),
    {
        let n: usize = buffer.len();
        let mut i: usize = 0;
        while i < n
            invariant
                buffer@.len() == n,
                i <= n,
                forall|k: int| 0 <= k < i ==> buffer@[k] == FILL,
            decreases n - i,
        {
            buffer[i] = FILL;
            i = i + 1;
        }
        let f = Formatter { buffer, cursor: 0 };
        proof {
            assert(f.contents() =~= Seq::new(n as nat, |i: int| FILL));
            assert(f.written() =~= Seq::<u8>::empty());
        }
        f
    }

    /// Appends `bytes`, or changes nothing where they do not fit.
    fn write_bytes(&mut self, bytes: &[u8]) -> (r: Result<(), BufferFull>)
        requires
            valid_utf8(bytes@),
        ensures
            final(self).capacity() == old(self).capacity(),
            final(self).len() <= final(self).capacity(),
            valid_utf8(final(self).written()),
            r is Ok <==> old(self).len() + bytes@.len() <= old(self).capacity(),
            r is Ok ==> final(self).len() == old(self).len() + bytes@.len(),
            r is Ok ==> final(self).written() == old(self).written() + bytes@,
            r is Ok ==> final(self).contents() == old(self).appended(bytes@),
            r is Err ==> final(self).len() == old(self).len(),
            r is Err ==> final(self).contents() == old(self).contents(),
    {
        proof {
            use_type_invariant(&*self);
        }
        let n: usize = bytes.len();
        let capacity: usize = self.buffer.len();
        let start: usize = self.cursor;
        if capacity - start < n {
            return Err(BufferFull);
        }
        let mut i: usize = 0;
        while i < n
            invariant
                i <= n,
                n == bytes@.len(),
                self.cursor == start,
                self.buffer@.len() == capacity,
                capacity == old(self).contents().len(),
                start + n <= capacity,
                forall|k: int| 0 <= k < start ==> self.buffer@[k] == old(self).contents()[k],
                forall|k: int| 0 <= k < i ==> self.buffer@[start + k] == bytes@[k],
                forall|k: int|
                    start + i <= k < capacity ==> self.buffer@[k] == old(self).contents()[k],
                valid_utf8(old(self).written()),
                old(self).len() == start,
            decreases n - i,
        {
            proof {
                assert(self.buffer@.update(start + i, bytes@[i as int]).subrange(0, start as int)
                    =~= old(self).written());
            }
            self.buffer[start + i] = bytes[i];
            i = i + 1;
        }
        proof {
            assert(self.buffer@ =~= old(self).appended(bytes@));
            assert(self.buffer@.subrange(0, start + n) =~= old(self).written() + bytes@);
            valid_utf8_concat(old(self).written(), bytes@);
        }
        self.cursor = start + n;
        Ok(())
    }

    /// Appends `s` where it fits in what is left of the buffer. Where it does
    /// not, nothing is written and the result is `BufferFull`.
    pub fn write_str(&mut self, s: &str) -> (r: Result<(), BufferFull>)
        ensures
            final(self).capacity() == old(self).capacity(),
            final(self).len() <= final(self).capacity(),
            valid_utf8(final(self).written()),
            r is Ok <==> old(self).len() + s.spec_bytes().len() <= old(self).capacity(),
            r is Ok ==> final(self).len() == old(self).len() + s.spec_bytes().len(),
            r is Ok ==> final(self).written() == old(self).written() + s.spec_bytes(),
            r is Ok ==> final(self).contents() == old(self).appended(s.spec_bytes()),
            r is Err ==> final(self).len() == old(self).len(),
            r is Err ==> final(self).contents() == old(self).contents(),
    {
        proof {
            encode_utf8_valid_utf8(s@);
        }
        self.write_bytes(s.as_bytes())
    }

    /// Appends `value` in decimal where it fits in what is left of the
    /// buffer. Where it does not, nothing is written and the result is
    /// `BufferFull`.
    pub fn write_u32(&mut self, value: u32) -> (r: Result<(), BufferFull>)
        ensures
            final(self).capacity() == old(self).capacity(),
            final(self).len() <= final(self).capacity(),
            valid_utf8(final(self).written()),
            r is Ok <==> old(self).len() + decimal(value as nat).len() <= old(self).capacity(),
            r is Ok ==> final(self).len() == old(self).len() + decimal(value as nat).len(),
            r is Ok ==> final(self).written() == old(self).written() + decimal(value as nat),
            r is Ok ==> final(self).contents() == old(self).appended(decimal(value as nat)),
            r is Err ==> final(self).len() == old(self).len(),
            r is Err ==> final(self).contents() == old(self).contents(),
    {
        let mut digits: [u8; 10] = [0x30; 10];
        let mut i: usize = 9;
        let mut rest: u32 = value / 10;
        digits[9] = 0x30 + (value % 10) as u8;
        proof {
            reveal_with_fuel(pow10, 10);
            assert(pow10(9) == 1_000_000_000);
            if value < 10 {
                assert(decimal(value as nat) =~= digits@.subrange(9, 10));
            } else {
                assert(decimal(value as nat) =~= decimal(rest as nat) + digits@.subrange(9, 10));
            }
        }
        while rest > 0
            invariant
                i <= 9,
                rest < pow10(i as nat),
                rest > 0 ==> decimal(value as nat) == decimal(rest as nat) + digits@.subrange(
                    i as int,
                    10,
                ),
                rest == 0 ==> decimal(value as nat) == digits@.subrange(i as int, 10),
            decreases rest,
        {
            proof {
                if i == 0 {
                    assert(pow10(0) == 1);
                }
                assert(pow10(i as nat) == 10 * pow10((i - 1) as nat));
            }
            let ghost before = digits@;
            i = i - 1;
            digits[i] = 0x30 + (rest % 10) as u8;
            proof {
                assert(digits@.subrange(i as int, 10) =~= seq![digit((rest % 10) as nat)]
                    + before.subrange(i + 1, 10));
                if rest < 10 {
                    assert(decimal(rest as nat) =~= seq![digit(rest as nat)]);
                    assert(decimal(value as nat) =~= digits@.subrange(i as int, 10));
                } else {
                    assert(decimal(rest as nat) =~= decimal((rest / 10) as nat) + seq![
                        digit((rest % 10) as nat),
                    ]);
                    assert(decimal(value as nat) =~= decimal((rest / 10) as nat)
                        + digits@.subrange(i as int, 10));
                }
            }
            rest = rest / 10;
        }
        let text = slice_subrange(digits.as_slice(), i, 10);
        proof {
            lemma_decimal_digits(value as nat);
            lemma_ascii_utf8(decimal(value as nat));
            assert(text@ =~= decimal(value as nat));
        }
        self.write_bytes(text)
    }

    /// The text written so far.
    pub fn buffer(&self) -> (r: &str)
        ensures
            self.len() <= self.capacity(),
            valid_utf8(self.written()),
            r.spec_bytes() == self.written(),
            r.spec_bytes().len() == self.len(),
            r@ == decode_utf8(self.written()),
    {
        proof {
            use_type_invariant(self);
        }
        let written = slice_subrange(&*self.buffer, 0, self.cursor);
        let r = match utf8_text(written) {
            Some(s) => s,
            None => "",
        };
        proof {
            encode_utf8_decode_utf8(r@);
        }
        r
    }
}

} // verus!
