//! Sound: the four words that the console's `tone` procedure takes.
//!
//! Each parameter of a tone is a small record. The console takes each as
//! one integer in which the record's fields lie side by side, the first field
//! in the lowest bits.

use crate::host::{Action, ActionView};
use vstd::prelude::*;

verus! {

/// The pitch of a tone: where it starts and where it ends.
#[derive(Clone, Copy, Debug, PartialEq, Eq, Structural)]
pub struct ToneFrequency {
    pub start: u16,
    pub stop: u16,
}

impl ToneFrequency {
    /// The word that holds `start` in bits 0 to 15 and `stop` in bits 16 to
    /// 31.
    pub open spec fn spec_bits(&self) -> u32 {
        (self.start + 0x1_0000 * self.stop) as u32
    }

    /// The frequency as the console takes it.
    #[verifier::when_used_as_spec(spec_bits)]
    pub fn bits(&self) -> (r: u32)
        ensures
            r == self.spec_bits(),
            r == self.start + 0x1_0000 * self.stop,
    {
        let start: u32 = self.start as u32;
        let stop: u32 = self.stop as u32;
        let r: u32 = start | (stop << 16);
        assert(r == start + 0x1_0000 * stop) by (bit_vector)
            requires
                r == start | (stop << 16),
                start < 0x1_0000,
                stop < 0x1_0000,
        ;
        r
    }
}

/// The lengths of the four phases of a tone.
#[derive(Clone, Copy, Debug, PartialEq, Eq, Structural)]
pub struct ToneDuration {
    pub sustain: u8,
    pub delay: u8,
    pub release: u8,
    pub attack: u8,
}

impl ToneDuration {
    /// The word that holds `sustain` in its lowest byte, then `delay`,
    /// `release` and, in its highest byte, `attack`.
    pub open spec fn spec_bits(&self) -> u32 {
        (self.sustain + 0x100 * self.delay + 0x1_0000 * self.release + 0x100_0000
            * self.attack) as u32
    }

    /// The duration as the console takes it.
    #[verifier::when_used_as_spec(spec_bits)]
    pub fn bits(&self) -> (r: u32)
        ensures
            r == self.spec_bits(),
            r == self.sustain + 0x100 * self.delay + 0x1_0000 * self.release + 0x100_0000
                * self.attack,
    {
        let sustain: u32 = self.sustain as u32;
        let delay: u32 = self.delay as u32;
        let release: u32 = self.release as u32;
        let attack: u32 = self.attack as u32;
        let r: u32 = sustain | (delay << 8) | (release << 16) | (attack << 24);
        assert(r == sustain + 0x100 * delay + 0x1_0000 * release + 0x100_0000 * attack)
            by (bit_vector)
            requires
                r == sustain | (delay << 8) | (release << 16) | (attack << 24),
                sustain < 0x100,
                delay < 0x100,
                release < 0x100,
                attack < 0x100,
        ;
        r
    }
}

/// How loud a tone is: while it is held, and at the peak of its attack.
#[derive(Clone, Copy, Debug, PartialEq, Eq, Structural)]
pub struct ToneVolume {
    pub sustain: u8,
    pub peak: u8,
}

impl ToneVolume {
    /// The half word that holds `sustain` in its low byte and `peak` in its
    /// high byte.
    pub open spec fn spec_bits(&self) -> u16 {
        (self.sustain + 0x100 * self.peak) as u16
    }

    /// The volume as the console takes it.
    #[verifier::when_used_as_spec(spec_bits)]
    pub fn bits(&self) -> (r: u16)
        ensures
            r == self.spec_bits(),
            r == self.sustain + 0x100 * self.peak,
    {
        let sustain: u16 = self.sustain as u16;
        let peak: u16 = self.peak as u16;
        let r: u16 = sustain | (peak << 8);
        assert(r == sustain + 0x100 * peak) by (bit_vector)
            requires
                r == sustain | (peak << 8),
                sustain < 0x100,
                peak < 0x100,
        ;
        r
    }
}

/// The voice that plays a tone.
#[derive(Clone, Copy, Debug, PartialEq, Eq, Structural)]
pub enum ToneChannel {
    Pulse1,
    Pulse2,
    Triangle,
    Noise,
}

impl ToneChannel {
    /// The channel's number, which takes bits 0 and 1 of the flags byte.
    pub open spec fn spec_bits(&self) -> u8 {
        match self {
            ToneChannel::Pulse1 => 0,
            ToneChannel::Pulse2 => 1,
            ToneChannel::Triangle => 2,
            ToneChannel::Noise => 3,
        }
    }

    /// The channel as it lies in the flags byte.
    #[verifier::when_used_as_spec(spec_bits)]
    pub fn bits(&self) -> (r: u8)
        ensures
            r == self.spec_bits(),
    {
        match self {
            ToneChannel::Pulse1 => 0b00,
            ToneChannel::Pulse2 => 0b01,
            ToneChannel::Triangle => 0b10,
            ToneChannel::Noise => 0b11,
        }
    }
}

/// The duty cycle of a pulse channel.
#[derive(Clone, Copy, Debug, PartialEq, Eq, Structural)]
pub enum ToneMode {
    /// 1/8 duty cycle
    Mode1,
    /// 1/4 duty cycle
    Mode2,
    /// 1/2 duty cycle
    Mode3,
    /// 3/4 duty cycle
    Mode4,
}

impl ToneMode {
    /// The mode's number, moved to bits 2 and 3 of the flags byte.
    pub open spec fn spec_bits(&self) -> u8 {
        match self {
            ToneMode::Mode1 => 0,
            ToneMode::Mode2 => 4,
            ToneMode::Mode3 => 8,
            ToneMode::Mode4 => 12,
        }
    }

    /// The mode as it lies in the flags byte.
    #[verifier::when_used_as_spec(spec_bits)]
    pub fn bits(&self) -> (r: u8)
        ensures
            r == self.spec_bits(),
    {
        match self {
            ToneMode::Mode1 => 0b00_00,
            ToneMode::Mode2 => 0b01_00,
            ToneMode::Mode3 => 0b10_00,
            ToneMode::Mode4 => 0b11_00,
        }
    }
}

/// The side on which a tone is heard.
#[derive(Clone, Copy, Debug, PartialEq, Eq, Structural)]
pub enum TonePan {
    Center,
    Left,
    Right,
}

impl TonePan {
    /// The pan's number, moved to bits 4 and 5 of the flags byte.
    pub open spec fn spec_bits(&self) -> u8 {
        match self {
            TonePan::Center => 0,
            TonePan::Left => 16,
            TonePan::Right => 32,
        }
    }

    /// The pan as it lies in the flags byte.
    #[verifier::when_used_as_spec(spec_bits)]
    pub fn bits(&self) -> (r: u8)
        ensures
            r == self.spec_bits(),
    {
        match self {
            TonePan::Center => 0b00_00_00,
            TonePan::Left => 0b01_00_00,
            TonePan::Right => 0b10_00_00,
        }
    }
}

/// Channel, duty cycle and pan of a tone.
#[derive(Clone, Copy, Debug, PartialEq, Eq, Structural)]
pub struct ToneFlags {
    pub channel: ToneChannel,
    pub mode: ToneMode,
    pub pan: TonePan,
}

impl ToneFlags {
    /// The byte that holds the channel in bits 0 and 1, the mode in bits 2
    /// and 3 and the pan in bits 4 and 5.
    pub open spec fn spec_bits(&self) -> u8 {
        (self.channel.spec_bits() + self.mode.spec_bits() + self.pan.spec_bits()) as u8
    }

    /// The flags as the console takes them.
    #[verifier::when_used_as_spec(spec_bits)]
    pub fn bits(&self) -> (r: u8)
        ensures
            r == self.spec_bits(),
            r == self.channel.spec_bits() + self.mode.spec_bits() + self.pan.spec_bits(),
    {
        let channel: u8 = self.channel.bits();
        let mode: u8 = self.mode.bits();
        let pan: u8 = self.pan.bits();
        let r: u8 = channel | mode | pan;
        assert(r == channel + mode + pan) by (bit_vector)
            requires
                r == channel | mode | pan,
                channel < 4,
                mode == 0 || mode == 4 || mode == 8 || mode == 12,
                pan == 0 || pan == 16 || pan == 32,
        ;
        r
    }
}

/// Plays a sound tone: the call of the console's `tone` procedure with the
/// four parameters packed as it takes them.
pub fn tone(
    frequency: ToneFrequency,
    duration: ToneDuration,
    volume: ToneVolume,
    flags: ToneFlags,
) -> (a: Action)
    ensures
        a@ == (ActionView::Tone {
            frequency: frequency.spec_bits(),
            duration: duration.spec_bits(),
            volume: volume.spec_bits(),
            flags: flags.spec_bits(),
        }),
{
    Action::Tone {
        frequency: frequency.bits(),
        duration: duration.bits(),
        volume: volume.bits(),
        flags: flags.bits(),
    }
}

/// The word of a frequency gives both fields back.
pub proof fn lemma_frequency_fields(f: ToneFrequency)
    ensures
        f.spec_bits() % 0x1_0000 == f.start,
        f.spec_bits() / 0x1_0000 == f.stop,
{
}

/// The word of a duration gives all four fields back, one from each byte.
pub proof fn lemma_duration_fields(d: ToneDuration)
    ensures
        d.spec_bits() % 0x100 == d.sustain,
        (d.spec_bits() / 0x100) % 0x100 == d.delay,
        (d.spec_bits() / 0x1_0000) % 0x100 == d.release,
        d.spec_bits() / 0x100_0000 == d.attack,
{
}

/// The half word of a volume gives both fields back.
pub proof fn lemma_volume_fields(v: ToneVolume)
    ensures
        v.spec_bits() % 0x100 == v.sustain,
        v.spec_bits() / 0x100 == v.peak,
{
}

/// The flags byte gives channel, mode and pan back: each lies in two bits of
/// its own, and bits 6 and 7 stay clear.
pub proof fn lemma_flags_fields(f: ToneFlags)
    ensures
        f.spec_bits() % 4 == f.channel.spec_bits(),
        (f.spec_bits() / 4) % 4 * 4 == f.mode.spec_bits(),
        (f.spec_bits() / 16) * 16 == f.pan.spec_bits(),
        f.spec_bits() < 48,
{
}

/// Two different tone flags never pack to the same byte.
pub proof fn lemma_flags_injective(a: ToneFlags, b: ToneFlags)
    requires
        a.spec_bits() == b.spec_bits(),
    ensures
        a == b,
{
    lemma_flags_fields(a);
    lemma_flags_fields(b);
}

} // verus!
