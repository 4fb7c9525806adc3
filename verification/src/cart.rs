//! The demo cartridge: a tone when it starts, and a greeting with a sprite
//! on every frame.
//!
//! The console calls `start` once and `update` on every frame. Both answer
//! with the steps that the glue is to carry out.

use crate::color::DrawColors;
use crate::draw::{blit, text, BlitFlags};
use crate::host::{lemma_performed_whole, performed, views, Action, ActionView};
use crate::input::ButtonFlags;
use crate::sound::{
    tone, ToneChannel, ToneDuration, ToneFlags, ToneFrequency, ToneMode, TonePan, ToneVolume,
};
use vstd::prelude::*;
use vstd::string::StringSliceAdditionalSpecFns;

verus! {

/// A smiling face of eight by eight pixels, one bit for each pixel.
pub const SMILEY: [u8; 8] = [
    0b11000011,
    0b10000001,
    0b00100100,
    0b00100100,
    0b00000000,
    0b00100100,
    0b10011001,
    0b11000011,
];

/// The tone of the start: from 440 to 880 hertz on the first pulse channel
/// at half duty cycle, held for 100 frames, at volume 110 with peak 255.
pub open spec fn start_tone() -> ActionView {
    ActionView::Tone {
        frequency: 0x0370_01b8,
        duration: 100,
        volume: 0xff6e,
        flags: 8,
    }
}

/// Called once when the cartridge starts: plays one tone.
pub fn start() -> (actions: Vec<Action>)
    ensures
        views(actions@) == seq![start_tone()],
{
    let mut actions: Vec<Action> = Vec::new();
    actions.push(
        tone(
            ToneFrequency { start: 440, stop: 880 },
            ToneDuration { sustain: 100, delay: 0, release: 0, attack: 0 },
            ToneVolume { sustain: 110, peak: 255 },
            ToneFlags { channel: ToneChannel::Pulse1, mode: ToneMode::Mode3, pan: TonePan::Center },
        ),
    );
    assert(views(actions@) =~= seq![start_tone()]);
    actions
}

/// The steps of a frame, given the four gamepads: slot 0 of the draw colours
/// is set to 2 and the greeting is drawn at (10, 10); where button X of the
/// first gamepad is down, slot 1 of the draw colours is set to 1; the smiley
/// is drawn at (76, 76) and a hint at (16, 90).
pub open spec fn frame(gamepads: Seq<ButtonFlags>) -> Seq<ActionView> {
    seq![
        ActionView::DrawColors { slots: seq![2u8, 0u8, 0u8, 0u8] },
        ActionView::Text { text: "Hello from Rust!".spec_bytes(), x: 10, y: 10 },
    ] + (if gamepads[0]@.contains(0) {
        seq![ActionView::DrawColors { slots: seq![0u8, 1u8, 0u8, 0u8] }]
    } else {
        seq![]
    }) + seq![
        ActionView::Blit { sprite: SMILEY@, x: 76, y: 76, width: 8, height: 8, flags: 0 },
        ActionView::Text { text: "Press X to blink".spec_bytes(), x: 16, y: 90 },
    ]
}

/// Called on every frame with the gamepad registers: the steps of the frame.
/// None of them fails, so the glue carries out all of them.
pub fn update(gamepads: &[ButtonFlags; 4]) -> (actions: Vec<Action>)
    ensures
        views(actions@) == frame(gamepads@),
        performed(views(actions@)) == views(actions@),
{
    let mut actions: Vec<Action> = Vec::new();
    actions.push(Action::DrawColors { colors: DrawColors::new().with_0(2) });
    actions.push(text("Hello from Rust!".as_bytes(), 10, 10));
    if gamepads[0].contains(ButtonFlags::X()) {
        actions.push(Action::DrawColors { colors: DrawColors::new().with_1(1) });
    }
    actions.push(blit(&SMILEY, 76, 76, 8, 8, BlitFlags::ONE_BIT_PER_PIXEL()));
    actions.push(text("Press X to blink".as_bytes(), 16, 90));
    proof {
        let blank = seq![0u8, 0u8, 0u8, 0u8];
        assert(blank.update(0, 2u8) =~= seq![2u8, 0u8, 0u8, 0u8]);
        assert(blank.update(1, 1u8) =~= seq![0u8, 1u8, 0u8, 0u8]);
        assert(views(actions@) =~= frame(gamepads@));
        lemma_frame_performed(gamepads@);
    }
    actions
}

/// Whatever the gamepads hold, no step of a frame fails: the frame is carried
/// out whole.
pub proof fn lemma_frame_performed(gamepads: Seq<ButtonFlags>)
    ensures
        performed(frame(gamepads)) == frame(gamepads),
{
    lemma_performed_whole(frame(gamepads));
}

} // verus!
