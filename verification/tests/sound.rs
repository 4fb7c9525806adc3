use wasm4::host::Action;
use wasm4::sound::{
    tone, ToneChannel, ToneDuration, ToneFlags, ToneFrequency, ToneMode, TonePan, ToneVolume,
};

#[test]
fn tone_frequency_packs_start_low_and_stop_high() {
    assert_eq!(ToneFrequency { start: 440, stop: 880 }.bits(), 440 | (880 << 16));
    assert_eq!(ToneFrequency { start: 0x1234, stop: 0xabcd }.bits(), 0xabcd_1234);
    assert_eq!(ToneFrequency { start: 0, stop: 0 }.bits(), 0);
    assert_eq!(ToneFrequency { start: 0xffff, stop: 0 }.bits(), 0x0000_ffff);
    assert_eq!(ToneFrequency { start: 0, stop: 0xffff }.bits(), 0xffff_0000);
    assert_eq!(ToneFrequency { start: 0xffff, stop: 0xffff }.bits(), u32::MAX);
}

#[test]
fn tone_duration_packs_one_field_per_byte() {
    let d = ToneDuration { sustain: 0x11, delay: 0x22, release: 0x33, attack: 0x44 };
    assert_eq!(d.bits(), 0x4433_2211);
    assert_eq!(d.bits().to_le_bytes(), [0x11, 0x22, 0x33, 0x44]);
    assert_eq!(ToneDuration { sustain: 100, delay: 0, release: 0, attack: 0 }.bits(), 100);
    assert_eq!(
        ToneDuration { sustain: 255, delay: 255, release: 255, attack: 255 }.bits(),
        u32::MAX
    );
    assert_eq!(ToneDuration { sustain: 0, delay: 0, release: 0, attack: 1 }.bits(), 1 << 24);
}

#[test]
fn tone_volume_packs_sustain_low_and_peak_high() {
    assert_eq!(ToneVolume { sustain: 110, peak: 255 }.bits(), 0xff6e);
    assert_eq!(ToneVolume { sustain: 0x12, peak: 0x34 }.bits(), 0x3412);
    assert_eq!(ToneVolume { sustain: 0, peak: 0 }.bits(), 0);
    assert_eq!(ToneVolume { sustain: 255, peak: 255 }.bits(), u16::MAX);
}

#[test]
fn tone_channel_mode_and_pan_bits() {
    assert_eq!(ToneChannel::Pulse1.bits(), 0b00);
    assert_eq!(ToneChannel::Pulse2.bits(), 0b01);
    assert_eq!(ToneChannel::Triangle.bits(), 0b10);
    assert_eq!(ToneChannel::Noise.bits(), 0b11);
    assert_eq!(ToneMode::Mode1.bits(), 0b0000);
    assert_eq!(ToneMode::Mode2.bits(), 0b0100);
    assert_eq!(ToneMode::Mode3.bits(), 0b1000);
    assert_eq!(ToneMode::Mode4.bits(), 0b1100);
    assert_eq!(TonePan::Center.bits(), 0b00_0000);
    assert_eq!(TonePan::Left.bits(), 0b01_0000);
    assert_eq!(TonePan::Right.bits(), 0b10_0000);
}

#[test]
fn tone_flags_combine_channel_mode_and_pan() {
    let f = ToneFlags { channel: ToneChannel::Noise, mode: ToneMode::Mode2, pan: TonePan::Right };
    assert_eq!(f.bits(), 0b10_01_11);
    let f = ToneFlags { channel: ToneChannel::Pulse1, mode: ToneMode::Mode1, pan: TonePan::Center };
    assert_eq!(f.bits(), 0);
    let f = ToneFlags { channel: ToneChannel::Triangle, mode: ToneMode::Mode4, pan: TonePan::Left };
    assert_eq!(f.bits(), 0b01_11_10);
}

#[test]
fn tone_flags_pack_to_distinct_bytes() {
    let channels = [
        ToneChannel::Pulse1,
        ToneChannel::Pulse2,
        ToneChannel::Triangle,
        ToneChannel::Noise,
    ];
    let modes = [ToneMode::Mode1, ToneMode::Mode2, ToneMode::Mode3, ToneMode::Mode4];
    let pans = [TonePan::Center, TonePan::Left, TonePan::Right];
    let mut seen = [false; 256];
    let mut count = 0;
    for channel in channels {
        for mode in modes {
            for pan in pans {
                let bits = ToneFlags { channel, mode, pan }.bits();
                assert!(bits < 48);
                assert!(!seen[bits as usize]);
                seen[bits as usize] = true;
                assert_eq!(bits & 0b11, channel.bits());
                assert_eq!(bits & 0b1100, mode.bits());
                assert_eq!(bits & 0b11_0000, pan.bits());
                count += 1;
            }
        }
    }
    assert_eq!(count, 48);
}

#[test]
fn tone_packs_all_four_parameters() {
    let a = tone(
        ToneFrequency { start: 262, stop: 523 },
        ToneDuration { sustain: 60, delay: 1, release: 2, attack: 3 },
        ToneVolume { sustain: 50, peak: 100 },
        ToneFlags { channel: ToneChannel::Pulse2, mode: ToneMode::Mode4, pan: TonePan::Left },
    );
    assert_eq!(
        a,
        Action::Tone {
            frequency: 262 + (523 << 16),
            duration: 60 + (1 << 8) + (2 << 16) + (3 << 24),
            volume: 50 + (100 << 8),
            flags: 1 + 12 + 16,
        }
    );
}
