//! The console's memory map: where each register lies in the cartridge's
//! linear memory, and how large the screen is.

use vstd::prelude::*;

verus! {

/// Width and height of the screen in pixels.
pub const SCREEN_SIZE: u32 = 160;

/// The palette: four entries of four bytes.
pub const PALETTE: usize = 0x04;

/// The draw colours register, two bytes.
pub const DRAW_COLORS: usize = 0x14;

/// The four gamepad registers, one byte each, at `0x16` to `0x19`.
pub const GAMEPAD: usize = 0x16;

/// The mouse's horizontal position, two bytes.
pub const MOUSE_X: usize = 0x1a;

/// The mouse's vertical position, two bytes.
pub const MOUSE_Y: usize = 0x1c;

/// The mouse button register.
pub const MOUSE_BUTTONS: usize = 0x1e;

/// The system flags register.
pub const SYSTEM_FLAGS: usize = 0x1f;

/// The netplay register.
pub const NETPLAY: usize = 0x20;

/// The framebuffer.
pub const FRAMEBUFFER: usize = 0xa0;

/// The framebuffer's length in bytes.
pub const FRAMEBUFFER_SIZE: usize = 6400;

/// The number of palette entries.
pub const PALETTE_ENTRIES: usize = 4;

/// The number of gamepads.
pub const GAMEPADS: usize = 4;

/// The framebuffer holds two bits for every pixel of the screen, and the
/// registers lie in the order of their addresses without overlap, all of them
/// below the framebuffer.
pub proof fn lemma_memory_map()
    ensures
        FRAMEBUFFER_SIZE * 8 == SCREEN_SIZE * SCREEN_SIZE * 2,
        PALETTE + 4 * PALETTE_ENTRIES <= DRAW_COLORS,
        DRAW_COLORS + 2 <= GAMEPAD,
        GAMEPAD + GAMEPADS <= MOUSE_X,
        MOUSE_X + 2 <= MOUSE_Y,
        MOUSE_Y + 2 <= MOUSE_BUTTONS,
        MOUSE_BUTTONS + 1 <= SYSTEM_FLAGS,
        SYSTEM_FLAGS + 1 <= NETPLAY,
        NETPLAY + 1 <= FRAMEBUFFER,
{
}

} // verus!
