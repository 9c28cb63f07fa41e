use replkit::console_keys::translate_key;
use replkit::key::{Key, KeyEvent};

fn event(key: Key, raw: &[u8], text: Option<&str>) -> Option<KeyEvent> {
    Some(KeyEvent::new(key, raw.to_vec(), text.map(|t| t.to_string())))
}

#[test]
fn test_translate_key_release_gives_nothing() {
    assert_eq!(translate_key(false, 0x41, 'a' as u16), None);
    assert_eq!(translate_key(false, 0x0D, 13), None);
}

#[test]
fn test_translate_key_control_letters() {
    assert_eq!(translate_key(true, 0x41, 1), event(Key::ControlA, &[1], None));
    assert_eq!(translate_key(true, 0x5A, 26), event(Key::ControlZ, &[26], None));
    // Enter types a carriage return, which is Ctrl+M before the key code is looked at.
    assert_eq!(translate_key(true, 0x0D, 13), event(Key::ControlM, &[13], None));
    assert_eq!(translate_key(true, 0x08, 8), event(Key::ControlH, &[8], None));
}

#[test]
fn test_translate_key_special_keys() {
    assert_eq!(translate_key(true, 0x25, 0), event(Key::Left, &[0x25], None));
    assert_eq!(translate_key(true, 0x26, 0), event(Key::Up, &[0x26], None));
    assert_eq!(translate_key(true, 0x2E, 0), event(Key::Delete, &[0x2E], None));
    assert_eq!(translate_key(true, 0x1B, 27), event(Key::Escape, &[0x1B], None));
    assert_eq!(translate_key(true, 0x0D, 0), event(Key::Enter, &[0x0D], None));
}

#[test]
fn test_translate_key_typed_text() {
    assert_eq!(translate_key(true, 0x41, 'a' as u16), event(Key::NotDefined, b"a", Some("a")));
    assert_eq!(translate_key(true, 0x20, ' ' as u16), event(Key::NotDefined, b" ", Some(" ")));
    assert_eq!(translate_key(true, 0, 0xE9), event(Key::NotDefined, &[0xC3, 0xA9], Some("é")));
    assert_eq!(translate_key(true, 0, 0x4E2D), event(Key::NotDefined, &[0xE4, 0xB8, 0xAD], Some("中")));
}

#[test]
fn test_translate_key_undefined() {
    assert_eq!(translate_key(true, 0, 0xD83D), event(Key::NotDefined, &[], None));
    assert_eq!(translate_key(true, 0x10, 0), event(Key::NotDefined, &[], None));
    assert_eq!(translate_key(true, 0, 27), event(Key::NotDefined, &[], None));
    assert_eq!(translate_key(true, 0, 31), event(Key::NotDefined, &[], None));
}
