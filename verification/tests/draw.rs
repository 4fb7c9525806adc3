use wasm4::draw;
use wasm4::draw::{blit, blit_sub, hline, oval, rect, text, vline, BlitFlags};
use wasm4::host::Action;

#[test]
fn blit_flags_have_the_console_values() {
    assert_eq!(BlitFlags::TWO_BIT_PER_PIXEL().bits(), 1);
    assert_eq!(BlitFlags::ONE_BIT_PER_PIXEL().bits(), 0);
    assert_eq!(BlitFlags::FLIP_X().bits(), 2);
    assert_eq!(BlitFlags::FLIP_Y().bits(), 4);
    assert_eq!(BlitFlags::ROTATE().bits(), 8);
    assert_eq!(BlitFlags::empty().bits(), 0);
    assert_eq!(BlitFlags::all().bits(), 15);
}

#[test]
fn blit_flags_one_bit_per_pixel_is_the_empty_set() {
    assert_eq!(BlitFlags::ONE_BIT_PER_PIXEL(), BlitFlags::empty());
    assert!(BlitFlags::ONE_BIT_PER_PIXEL().is_empty());
    assert!(BlitFlags::FLIP_X().contains(BlitFlags::ONE_BIT_PER_PIXEL()));
    assert!(BlitFlags::empty().contains(BlitFlags::ONE_BIT_PER_PIXEL()));
    assert!(!BlitFlags::all().intersects(BlitFlags::ONE_BIT_PER_PIXEL()));
}

#[test]
fn blit_flags_from_bits() {
    assert_eq!(BlitFlags::from_bits(16), None);
    assert_eq!(BlitFlags::from_bits(0x8000_0000), None);
    assert_eq!(BlitFlags::from_bits(0x8000_0001), None);
    assert_eq!(BlitFlags::from_bits(15), Some(BlitFlags::all()));
    assert_eq!(BlitFlags::from_bits(6), Some(BlitFlags::FLIP_X().union(BlitFlags::FLIP_Y())));
    assert_eq!(BlitFlags::from_bits_truncate(0xffff_fff9).bits(), 9);
    assert_eq!(BlitFlags::from_bits_unchecked(0xffff_fff9).bits(), 0xffff_fff9);
}

#[test]
fn blit_flags_queries() {
    let f = BlitFlags::TWO_BIT_PER_PIXEL().union(BlitFlags::ROTATE());
    assert_eq!(f.bits(), 9);
    assert!(f.contains(BlitFlags::ROTATE()));
    assert!(!f.contains(BlitFlags::FLIP_X()));
    assert!(f.intersects(BlitFlags::ROTATE().union(BlitFlags::FLIP_Y())));
    assert!(!f.intersects(BlitFlags::FLIP_X().union(BlitFlags::FLIP_Y())));
    assert!(!f.is_all());
    assert!(BlitFlags::from_bits_unchecked(0xffff_ffff).is_all());
    assert!(!BlitFlags::from_bits_unchecked(0x10).is_empty());
}

#[test]
fn blit_flags_updates_and_set_operations() {
    let mut f = BlitFlags::empty();
    f.insert(BlitFlags::FLIP_Y());
    f.insert(BlitFlags::TWO_BIT_PER_PIXEL());
    assert_eq!(f.bits(), 5);
    f.toggle(BlitFlags::FLIP_Y().union(BlitFlags::FLIP_X()));
    assert_eq!(f.bits(), 3);
    f.remove(BlitFlags::TWO_BIT_PER_PIXEL());
    assert_eq!(f, BlitFlags::FLIP_X());
    f.set(BlitFlags::ROTATE(), true);
    f.set(BlitFlags::FLIP_X(), false);
    assert_eq!(f, BlitFlags::ROTATE());
    let a = BlitFlags::from_bits_truncate(0b0111);
    let b = BlitFlags::from_bits_truncate(0b1100);
    assert_eq!(a.union(b).bits(), 0b1111);
    assert_eq!(a.intersection(b).bits(), 0b0100);
    assert_eq!(a.difference(b).bits(), 0b0011);
    assert_eq!(a.symmetric_difference(b).bits(), 0b1011);
    assert_eq!(a.complement().bits(), 0b1000);
    assert_eq!(BlitFlags::from_bits_unchecked(0xffff_fff0).complement(), BlitFlags::all());
}

#[test]
fn blit_passes_sprite_and_flag_bits() {
    let sprite = [0xaa_u8, 0x55, 0x0f];
    let flags = BlitFlags::TWO_BIT_PER_PIXEL().union(BlitFlags::FLIP_Y());
    assert_eq!(
        blit(&sprite, -3, 7, 4, 3, flags),
        Action::Blit { sprite: vec![0xaa, 0x55, 0x0f], x: -3, y: 7, width: 4, height: 3, flags: 5 }
    );
    assert_eq!(
        blit(&[], 0, 0, 0, 0, BlitFlags::ONE_BIT_PER_PIXEL()),
        Action::Blit { sprite: vec![], x: 0, y: 0, width: 0, height: 0, flags: 0 }
    );
}

#[test]
fn blit_sub_passes_every_argument_in_its_place() {
    let sprite = [1_u8, 2, 3, 4];
    assert_eq!(
        blit_sub(&sprite, 10, -20, 30, 40, 50, 60, 70, BlitFlags::ROTATE()),
        Action::BlitSub {
            sprite: vec![1, 2, 3, 4],
            x: 10,
            y: -20,
            width: 30,
            height: 40,
            src_x: 50,
            src_y: 60,
            stride: 70,
            flags: 8,
        }
    );
}

#[test]
fn line_oval_rect_pass_their_arguments() {
    assert_eq!(draw::line(1, -2, 3, -4), Action::Line { x1: 1, y1: -2, x2: 3, y2: -4 });
    assert_eq!(oval(-5, 6, 7, 8), Action::Oval { x: -5, y: 6, width: 7, height: 8 });
    assert_eq!(rect(9, -10, 11, 12), Action::Rect { x: 9, y: -10, width: 11, height: 12 });
    assert_eq!(
        draw::line(i32::MIN, i32::MAX, 0, -1),
        Action::Line { x1: i32::MIN, y1: i32::MAX, x2: 0, y2: -1 }
    );
}

#[test]
fn vline_and_hline_pass_their_arguments() {
    assert_eq!(vline(1, 2, 3), Action::Vline { x: 1, y: 2, len: 3 });
    assert_eq!(hline(-4, -5, 160), Action::Hline { x: -4, y: -5, len: 160 });
}

#[test]
fn text_passes_the_bytes() {
    assert_eq!(
        text("Hi!".as_bytes(), 4, 5),
        Action::Text { text: vec![b'H', b'i', b'!'], x: 4, y: 5 }
    );
    assert_eq!(text(&[0x80, 0xff], -1, -1), Action::Text { text: vec![0x80, 0xff], x: -1, y: -1 });
    assert_eq!(text(b"", 0, 0), Action::Text { text: vec![], x: 0, y: 0 });
}
