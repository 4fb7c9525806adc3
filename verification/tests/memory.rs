use wasm4::memory::{
    DRAW_COLORS, FRAMEBUFFER, FRAMEBUFFER_SIZE, GAMEPAD, GAMEPADS, MOUSE_BUTTONS, MOUSE_X,
    MOUSE_Y, NETPLAY, PALETTE, PALETTE_ENTRIES, SCREEN_SIZE, SYSTEM_FLAGS,
};

#[test]
fn memory_map_addresses() {
    assert_eq!(PALETTE, 0x04);
    assert_eq!(DRAW_COLORS, 0x14);
    assert_eq!(GAMEPAD, 0x16);
    assert_eq!(MOUSE_X, 0x1a);
    assert_eq!(MOUSE_Y, 0x1c);
    assert_eq!(MOUSE_BUTTONS, 0x1e);
    assert_eq!(SYSTEM_FLAGS, 0x1f);
    assert_eq!(NETPLAY, 0x20);
    assert_eq!(FRAMEBUFFER, 0xa0);
}

#[test]
fn memory_map_sizes() {
    assert_eq!(SCREEN_SIZE, 160);
    assert_eq!(FRAMEBUFFER_SIZE, 6400);
    assert_eq!(FRAMEBUFFER_SIZE as u32 * 4, SCREEN_SIZE * SCREEN_SIZE);
    assert_eq!(PALETTE_ENTRIES, 4);
    assert_eq!(GAMEPADS, 4);
    assert_eq!(PALETTE + 4 * PALETTE_ENTRIES, DRAW_COLORS);
    assert_eq!(GAMEPAD + GAMEPADS, MOUSE_X);
}
