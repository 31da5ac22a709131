use chip8_emu::keypad::{logical_key, KeyEvent, Keypad};

#[test]
fn press_latches_and_release_keeps_latch() {
    let mut k = Keypad::default();
    assert!(k.handle_input(KeyEvent::Pressed(0xA)));
    assert!(k.is_key_pressed(0xA));
    assert_eq!(k.get_last_key(), 0xA);
    assert!(!k.handle_input(KeyEvent::Released(0xA)));
    assert!(!k.is_key_pressed(0xA));
    assert_eq!(k.get_last_key(), 0xA);
}

#[test]
fn unknown_key_is_ignored() {
    let mut k = Keypad::default();
    assert!(!k.handle_input(KeyEvent::Pressed(16)));
    assert_eq!(k.get_last_key(), 0);
    for key in 0..16 {
        assert!(!k.is_key_pressed(key));
    }
}

#[test]
fn reset_releases_all() {
    let mut k = Keypad::default();
    k.handle_input(KeyEvent::Pressed(3));
    k.handle_input(KeyEvent::Pressed(5));
    k.reset();
    assert!(!k.is_key_pressed(3));
    assert!(!k.is_key_pressed(5));
    assert_eq!(k.get_last_key(), 0);
}

#[test]
fn host_key_layout() {
    assert_eq!(logical_key('1'), Some(0x1));
    assert_eq!(logical_key('4'), Some(0xC));
    assert_eq!(logical_key('x'), Some(0x0));
    assert_eq!(logical_key('X'), Some(0x0));
    assert_eq!(logical_key('r'), Some(0xD));
    assert_eq!(logical_key('V'), Some(0xF));
    assert_eq!(logical_key('z'), Some(0xA));
    assert_eq!(logical_key('p'), None);
    assert_eq!(logical_key('5'), None);
}
