//! What a cartridge asks of its host.
//!
//! The console offers a table of imported procedures and a few registers in
//! memory. A cartridge built on this crate does not reach for them itself:
//! it computes [`Action`] values, which hold the plain integers and bytes
//! that each procedure takes, and the glue around the cartridge carries
//! them out in order.

use crate::color::DrawColors;
use vstd::prelude::*;

verus! {

/// One step that the host glue performs for the cartridge.
#[allow(inconsistent_fields)]
#[derive(Debug, PartialEq, Eq)]
pub enum Action {
    /// Store `colors` in the draw colours register.
    DrawColors { colors: DrawColors },
    /// Call `blit`: copy a sprite to the framebuffer.
    Blit { sprite: Vec<u8>, x: i32, y: i32, width: u32, height: u32, flags: u32 },
    /// Call `blitSub`: copy a region of a sprite atlas to the framebuffer.
    BlitSub {
        sprite: Vec<u8>,
        x: i32,
        y: i32,
        width: u32,
        height: u32,
        src_x: u32,
        src_y: u32,
        stride: u32,
        flags: u32,
    },
    /// Call `line`: draw a line between two points.
    Line { x1: i32, y1: i32, x2: i32, y2: i32 },
    /// Call `oval`: draw an oval.
    Oval { x: i32, y: i32, width: u32, height: u32 },
    /// Call `rect`: draw a rectangle.
    Rect { x: i32, y: i32, width: u32, height: u32 },
    /// Call `textUtf8`: draw text in the built-in font. The length that the
    /// procedure takes is the length of `text`.
    Text { text: Vec<u8>, x: i32, y: i32 },
    /// Call `vline`: draw a vertical line.
    Vline { x: i32, y: i32, len: u32 },
    /// Call `hline`: draw a horizontal line.
    Hline { x: i32, y: i32, len: u32 },
    /// Call `tone`: play a sound.
    Tone { frequency: u32, duration: u32, volume: u16, flags: u8 },
    /// Call `traceUtf8`: print a line on the debug console.
    Trace { text: String },
    /// Fail with `message`. The glue panics here, so the steps that follow
    /// in the same list are not reached.
    Panic { message: String },
}

/// An [`Action`] with its bytes and text as sequences, and the draw colours
/// as their four slots.
#[allow(inconsistent_fields)]
pub enum ActionView {
    DrawColors { slots: Seq<u8> },
    Blit { sprite: Seq<u8>, x: i32, y: i32, width: u32, height: u32, flags: u32 },
    BlitSub {
        sprite: Seq<u8>,
        x: i32,
        y: i32,
        width: u32,
        height: u32,
        src_x: u32,
        src_y: u32,
        stride: u32,
        flags: u32,
    },
    Line { x1: i32, y1: i32, x2: i32, y2: i32 },
    Oval { x: i32, y: i32, width: u32, height: u32 },
    Rect { x: i32, y: i32, width: u32, height: u32 },
    Text { text: Seq<u8>, x: i32, y: i32 },
    Vline { x: i32, y: i32, len: u32 },
    Hline { x: i32, y: i32, len: u32 },
    Tone { frequency: u32, duration: u32, volume: u16, flags: u8 },
    Trace { text: Seq<char> },
    Panic { message: Seq<char> },
}

impl View for Action {
    type V = ActionView;

    open spec fn view(&self) -> ActionView {
        match self {
            Action::DrawColors { colors } => ActionView::DrawColors { slots: colors@ },
            Action::Blit { sprite, x, y, width, height, flags } => ActionView::Blit {
                sprite: sprite@,
                x: *x,
                y: *y,
                width: *width,
                height: *height,
                flags: *flags,
            },
            Action::BlitSub {
                sprite,
                x,
                y,
                width,
                height,
                src_x,
                src_y,
                stride,
                flags,
            } => ActionView::BlitSub {
                sprite: sprite@,
                x: *x,
                y: *y,
                width: *width,
                height: *height,
                src_x: *src_x,
                src_y: *src_y,
                stride: *stride,
                flags: *flags,
            },
            Action::Line { x1, y1, x2, y2 } => ActionView::Line {
                x1: *x1,
                y1: *y1,
                x2: *x2,
                y2: *y2,
            },
            Action::Oval { x, y, width, height } => ActionView::Oval {
                x: *x,
                y: *y,
                width: *width,
                height: *height,
            },
            Action::Rect { x, y, width, height } => ActionView::Rect {
                x: *x,
                y: *y,
                width: *width,
                height: *height,
            },
            Action::Text { text, x, y } => ActionView::Text { text: text@, x: *x, y: *y },
            Action::Vline { x, y, len } => ActionView::Vline { x: *x, y: *y, len: *len },
            Action::Hline { x, y, len } => ActionView::Hline { x: *x, y: *y, len: *len },
            Action::Tone { frequency, duration, volume, flags } => ActionView::Tone {
                frequency: *frequency,
                duration: *duration,
                volume: *volume,
                flags: *flags,
            },
            Action::Trace { text } => ActionView::Trace { text: text@ },
            Action::Panic { message } => ActionView::Panic { message: message@ },
        }
    }
}

/// The views of a list of actions, in order.
pub open spec fn views(actions: Seq<Action>) -> Seq<ActionView> {
    actions.map_values(|a: Action| a@)
}

/// The part of a list of steps that the glue carries out: all of it, or, where
/// a step fails, the steps up to and with the first that does.
pub open spec fn performed(steps: Seq<ActionView>) -> Seq<ActionView>
    decreases steps.len(),
{
    if steps.len() == 0 {
        steps
    } else if steps[0] is Panic {
        seq![steps[0]]
    } else {
        seq![steps[0]] + performed(steps.subrange(1, steps.len() as int))
    }
}

/// A list of steps of which none fails is carried out whole.
pub proof fn lemma_performed_whole(steps: Seq<ActionView>)
    requires
        forall|i: int| 0 <= i < steps.len() ==> !(#[trigger] steps[i] is Panic),
    ensures
        performed(steps) == steps,
    decreases steps.len(),
{
    if steps.len() > 0 {
        let rest = steps.subrange(1, steps.len() as int);
        assert forall|i: int| 0 <= i < rest.len() implies !(#[trigger] rest[i] is Panic) by {
            assert(rest[i] == steps[i + 1]);
        }
        lemma_performed_whole(rest);
        assert(seq![steps[0]] + rest =~= steps);
    }
}

} // verus!
