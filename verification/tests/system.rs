use wasm4::system::SystemFlags;

#[test]
fn system_flags_have_the_register_bits() {
    assert_eq!(SystemFlags::PRESERVE_FRAMEBUFFER().bits(), 1 << 0);
    assert_eq!(SystemFlags::HIDE_GAMEPAD_OVERLAY().bits(), 1 << 1);
    assert_eq!(SystemFlags::empty().bits(), 0);
    assert_eq!(SystemFlags::all().bits(), 0b11);
}

#[test]
fn system_flags_from_bits() {
    assert_eq!(SystemFlags::from_bits(0b100), None);
    assert_eq!(SystemFlags::from_bits(0x80), None);
    assert_eq!(SystemFlags::from_bits(0b10), Some(SystemFlags::HIDE_GAMEPAD_OVERLAY()));
    assert_eq!(SystemFlags::from_bits(0), Some(SystemFlags::empty()));
    assert_eq!(SystemFlags::from_bits_truncate(0xfe), SystemFlags::HIDE_GAMEPAD_OVERLAY());
    assert_eq!(SystemFlags::from_bits_unchecked(0xfe).bits(), 0xfe);
}

#[test]
fn system_flags_queries() {
    let s = SystemFlags::PRESERVE_FRAMEBUFFER();
    assert!(s.contains(SystemFlags::PRESERVE_FRAMEBUFFER()));
    assert!(!s.contains(SystemFlags::HIDE_GAMEPAD_OVERLAY()));
    assert!(!s.contains(SystemFlags::all()));
    assert!(s.intersects(SystemFlags::all()));
    assert!(!s.intersects(SystemFlags::HIDE_GAMEPAD_OVERLAY()));
    assert!(!s.is_empty());
    assert!(!s.is_all());
    assert!(SystemFlags::all().is_all());
    assert!(SystemFlags::empty().is_empty());
}

#[test]
fn system_flags_updates_and_set_operations() {
    let mut s = SystemFlags::empty();
    s.insert(SystemFlags::HIDE_GAMEPAD_OVERLAY());
    assert_eq!(s.bits(), 0b10);
    s.toggle(SystemFlags::all());
    assert_eq!(s.bits(), 0b01);
    s.set(SystemFlags::HIDE_GAMEPAD_OVERLAY(), true);
    assert_eq!(s.bits(), 0b11);
    s.set(SystemFlags::PRESERVE_FRAMEBUFFER(), false);
    assert_eq!(s.bits(), 0b10);
    s.remove(SystemFlags::HIDE_GAMEPAD_OVERLAY());
    assert!(s.is_empty());
    let p = SystemFlags::PRESERVE_FRAMEBUFFER();
    let h = SystemFlags::HIDE_GAMEPAD_OVERLAY();
    assert_eq!(p.union(h), SystemFlags::all());
    assert_eq!(p.intersection(h), SystemFlags::empty());
    assert_eq!(p.difference(h), p);
    assert_eq!(p.symmetric_difference(SystemFlags::all()), h);
    assert_eq!(p.complement(), h);
}
