use wasm4::color::{DrawColors, OutOfBounds, Rgb};

#[test]
fn rgb_new_takes_red_blue_green() {
    let c = Rgb::new(1, 2, 3);
    assert_eq!(c.r, 1);
    assert_eq!(c.b, 2);
    assert_eq!(c.g, 3);
}

#[test]
fn rgb_red_sets_only_r() {
    assert_eq!(Rgb::red(200), Rgb { r: 200, g: 0, b: 0 });
}

#[test]
fn rgb_green_lands_in_b() {
    assert_eq!(Rgb::green(7), Rgb { r: 0, g: 0, b: 7 });
}

#[test]
fn rgb_blue_lands_in_g() {
    assert_eq!(Rgb::blue(9), Rgb { r: 0, g: 9, b: 0 });
}

#[test]
fn rgb_bytes_round_trip() {
    let c = Rgb { r: 0x12, g: 0x34, b: 0x56 };
    assert_eq!(c.into_bytes(), [0x12, 0x34, 0x56, 0]);
    assert_eq!(Rgb::from_bytes([0x12, 0x34, 0x56, 0xff]), c);
}

#[test]
fn draw_colors_new_is_zero() {
    let c = DrawColors::new();
    assert_eq!(c.into_bytes(), [0, 0]);
    assert_eq!((c.get_0(), c.get_1(), c.get_2(), c.get_3()), (0, 0, 0, 0));
}

#[test]
fn draw_colors_with_packs_one_nibble_per_slot() {
    assert_eq!(DrawColors::new().with_0(2).into_bytes(), [0x02, 0x00]);
    assert_eq!(DrawColors::new().with_1(1).into_bytes(), [0x10, 0x00]);
    assert_eq!(DrawColors::new().with_2(3).into_bytes(), [0x00, 0x03]);
    assert_eq!(DrawColors::new().with_3(4).into_bytes(), [0x00, 0x40]);
    let all = DrawColors::new().with_0(1).with_1(2).with_2(3).with_3(4);
    assert_eq!(all.into_bytes(), [0x21, 0x43]);
    assert_eq!(u16::from_le_bytes(all.into_bytes()), 0x4321);
}

#[test]
fn draw_colors_slots_hold_up_to_fifteen() {
    let c = DrawColors::new().with_0(15).with_1(15).with_2(15).with_3(15);
    assert_eq!(c.into_bytes(), [0xff, 0xff]);
    let c = DrawColors::new().with_1(15).with_3(8);
    assert_eq!((c.get_0(), c.get_1(), c.get_2(), c.get_3()), (0, 15, 0, 8));
}

#[test]
fn draw_colors_with_keeps_other_slots() {
    let c = DrawColors::from_bytes([0xff, 0xff]).with_1(0);
    assert_eq!((c.get_0(), c.get_1(), c.get_2(), c.get_3()), (15, 0, 15, 15));
    let c = DrawColors::from_bytes([0x10, 0x32]).with_2(9);
    assert_eq!((c.get_0(), c.get_1(), c.get_2(), c.get_3()), (0, 1, 9, 3));
}

#[test]
fn draw_colors_getters_read_each_nibble() {
    let c = DrawColors::from_bytes([0x24, 0x00]);
    assert_eq!((c.get_0(), c.get_1(), c.get_2(), c.get_3()), (4, 2, 0, 0));
    let c = DrawColors::from_bytes([0x10, 0x32]);
    assert_eq!((c.get_0(), c.get_1(), c.get_2(), c.get_3()), (0, 1, 2, 3));
    let c = DrawColors::from_bytes([0xab, 0xcd]);
    assert_eq!((c.get_0(), c.get_1(), c.get_2(), c.get_3()), (0xb, 0xa, 0xd, 0xc));
}

#[test]
fn draw_colors_set_changes_in_place() {
    let mut c = DrawColors::new();
    c.set_0(3);
    c.set_3(1);
    assert_eq!(c.into_bytes(), [0x03, 0x10]);
    c.set_0(0);
    assert_eq!(c.into_bytes(), [0x00, 0x10]);
    c.set_1(2);
    c.set_2(14);
    assert_eq!(c.into_bytes(), [0x20, 0x1e]);
}

#[test]
fn draw_colors_checked_refuses_what_does_not_fit() {
    assert_eq!(DrawColors::new().with_0_checked(16), Err(OutOfBounds));
    assert_eq!(DrawColors::new().with_1_checked(255), Err(OutOfBounds));
    assert_eq!(DrawColors::new().with_2_checked(16), Err(OutOfBounds));
    assert_eq!(DrawColors::new().with_3_checked(17), Err(OutOfBounds));
    assert_eq!(DrawColors::new().with_3_checked(15), Ok(DrawColors::from_bytes([0x00, 0xf0])));
    assert_eq!(DrawColors::new().with_0_checked(4), Ok(DrawColors::from_bytes([0x04, 0x00])));
    assert_eq!(DrawColors::new().with_1_checked(15), Ok(DrawColors::from_bytes([0xf0, 0x00])));
    assert_eq!(DrawColors::new().with_2_checked(0), Ok(DrawColors::new()));
}

#[test]
fn draw_colors_set_checked_leaves_value_on_error() {
    let mut c = DrawColors::from_bytes([0x6d, 0x5a]);
    assert_eq!(c.set_0_checked(16), Err(OutOfBounds));
    assert_eq!(c.set_1_checked(99), Err(OutOfBounds));
    assert_eq!(c.set_2_checked(200), Err(OutOfBounds));
    assert_eq!(c.set_3_checked(16), Err(OutOfBounds));
    assert_eq!(c.into_bytes(), [0x6d, 0x5a]);
    assert_eq!(c.set_2_checked(0), Ok(()));
    assert_eq!(c.into_bytes(), [0x6d, 0x50]);
    assert_eq!(c.set_0_checked(2), Ok(()));
    assert_eq!(c.set_1_checked(0), Ok(()));
    assert_eq!(c.set_3_checked(15), Ok(()));
    assert_eq!(c.into_bytes(), [0x02, 0xf0]);
}

#[test]
fn draw_colors_bytes_round_trip_for_every_word() {
    let mut w: u32 = 0;
    while w < 0x1_0000 {
        let bytes = (w as u16).to_le_bytes();
        let c = DrawColors::from_bytes(bytes);
        assert_eq!(c.into_bytes(), bytes);
        let packed = c.get_0() as u32 + 16 * c.get_1() as u32 + 256 * c.get_2() as u32
            + 4096 * c.get_3() as u32;
        assert_eq!(packed, w);
        let again = DrawColors::new()
            .with_0(c.get_0())
            .with_1(c.get_1())
            .with_2(c.get_2())
            .with_3(c.get_3());
        assert_eq!(again, c);
        w += 1;
    }
}
