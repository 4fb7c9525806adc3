use wasm4::cart::{start, update, SMILEY};
use wasm4::color::DrawColors;
use wasm4::host::Action;
use wasm4::input::ButtonFlags;

fn pads(first: ButtonFlags) -> [ButtonFlags; 4] {
    [first, ButtonFlags::empty(), ButtonFlags::empty(), ButtonFlags::empty()]
}

fn opening() -> Vec<Action> {
    vec![
        Action::DrawColors { colors: DrawColors::from_bytes([0x02, 0x00]) },
        Action::Text { text: "Hello from Rust!".as_bytes().to_vec(), x: 10, y: 10 },
    ]
}

fn closing() -> Vec<Action> {
    vec![
        Action::Blit { sprite: SMILEY.to_vec(), x: 76, y: 76, width: 8, height: 8, flags: 0 },
        Action::Text { text: "Press X to blink".as_bytes().to_vec(), x: 16, y: 90 },
    ]
}

#[test]
fn smiley_is_eight_rows_of_eight_pixels() {
    assert_eq!(SMILEY, [0xc3, 0x81, 0x24, 0x24, 0x00, 0x24, 0x99, 0xc3]);
}

#[test]
fn start_plays_one_tone() {
    assert_eq!(
        start(),
        vec![Action::Tone {
            frequency: 440 | (880 << 16),
            duration: 100,
            volume: 110 | (255 << 8),
            flags: 0b1000,
        }]
    );
}

#[test]
fn update_without_buttons() {
    let mut expected = opening();
    expected.extend(closing());
    assert_eq!(update(&pads(ButtonFlags::empty())), expected);
}

#[test]
fn update_with_x_down_sets_second_draw_colour() {
    let mut expected = opening();
    expected.push(Action::DrawColors { colors: DrawColors::from_bytes([0x10, 0x00]) });
    expected.extend(closing());
    assert_eq!(update(&pads(ButtonFlags::X())), expected);
    assert_eq!(update(&pads(ButtonFlags::X().union(ButtonFlags::DOWN()))), expected);
    assert_eq!(update(&pads(ButtonFlags::from_bits_unchecked(0xff))), expected);
}

#[test]
fn update_with_other_buttons_down() {
    let mut expected = opening();
    expected.extend(closing());
    assert_eq!(update(&pads(ButtonFlags::Z())), expected);
    assert_eq!(update(&pads(ButtonFlags::all().difference(ButtonFlags::X()))), expected);
}

#[test]
fn update_looks_at_the_first_gamepad_only() {
    let mut expected = opening();
    expected.extend(closing());
    let others = [ButtonFlags::empty(), ButtonFlags::X(), ButtonFlags::all(), ButtonFlags::X()];
    assert_eq!(update(&others), expected);
}

#[test]
fn update_has_no_failing_step() {
    for first in [ButtonFlags::empty(), ButtonFlags::X(), ButtonFlags::all()] {
        let steps = update(&pads(first));
        assert!(!steps.iter().any(|step| matches!(step, Action::Panic { .. })));
    }
}

#[test]
fn update_makes_the_three_host_calls_in_order() {
    for (first, length) in [(ButtonFlags::empty(), 4), (ButtonFlags::X(), 5)] {
        let steps = update(&pads(first));
        assert_eq!(steps.len(), length);
        let calls: Vec<&Action> =
            steps.iter().filter(|step| !matches!(step, Action::DrawColors { .. })).collect();
        assert_eq!(calls.len(), 3);
        assert_eq!(
            *calls[0],
            Action::Text { text: "Hello from Rust!".as_bytes().to_vec(), x: 10, y: 10 }
        );
        assert_eq!(
            *calls[1],
            Action::Blit { sprite: SMILEY.to_vec(), x: 76, y: 76, width: 8, height: 8, flags: 0 }
        );
        assert_eq!(
            *calls[2],
            Action::Text { text: "Press X to blink".as_bytes().to_vec(), x: 16, y: 90 }
        );
        assert_eq!("Hello from Rust!".len(), 16);
        assert_eq!("Press X to blink".len(), 16);
    }
}

#[test]
fn update_with_x_down_writes_draw_colours_before_the_sprite() {
    let steps = update(&pads(ButtonFlags::X()));
    assert_eq!(steps[2], Action::DrawColors { colors: DrawColors::new().with_1(1) });
    assert!(matches!(steps[3], Action::Blit { .. }));
    match &steps[2] {
        Action::DrawColors { colors } => {
            assert_eq!(
                (colors.get_0(), colors.get_1(), colors.get_2(), colors.get_3()),
                (0, 1, 0, 0)
            );
        }
        _ => panic!("the third step sets the draw colours"),
    }
}
