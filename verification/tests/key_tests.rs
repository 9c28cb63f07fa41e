use replkit::key::{key_name, Key, KeyEvent};


#[test]
fn test_key_event_creation() {
    let event = KeyEvent::new(Key::ControlC, vec![0x03], None);
    assert_eq!(event.key, Key::ControlC);
    assert_eq!(event.raw_bytes, vec![0x03]);
    assert_eq!(event.text, None);
}

#[test]
fn test_key_event_simple() {
    let event = KeyEvent::simple(Key::Enter, vec![0x0D]);
    assert_eq!(event.key, Key::Enter);
    assert_eq!(event.raw_bytes, vec![0x0D]);
    assert!(!event.has_text());
}

#[test]
fn test_key_event_with_text() {
    let event = KeyEvent::with_text(Key::NotDefined, vec![0x61], "a".to_string());
    assert_eq!(event.key, Key::NotDefined);
    assert_eq!(event.raw_bytes, vec![0x61]);
    assert!(event.has_text());
    assert_eq!(event.text_or_empty(), "a");
}

#[test]
fn test_key_event_default() {
    let event = KeyEvent::default();
    assert_eq!(event.key, Key::NotDefined);
    assert!(event.raw_bytes.is_empty());
    assert!(!event.has_text());
    assert_eq!(event.text_or_empty(), "");
}

#[test]
fn test_key_equality() {
    assert_eq!(Key::ControlC, Key::ControlC);
    assert_ne!(Key::ControlC, Key::ControlD);
}

#[test]
fn test_key_debug() {
    let key = Key::F1;
    let debug_str = format!("{:?}", key);
    assert_eq!(debug_str, "F1");
}

#[test]
fn test_key_names() {
    assert_eq!(key_name(Key::ControlA), "Ctrl+A");
    assert_eq!(key_name(Key::ControlBackslash), "Ctrl+\\");
    assert_eq!(key_name(Key::ShiftLeft), "Shift+Left");
    assert_eq!(key_name(Key::F24), "F24");
    assert_eq!(key_name(Key::NotDefined), "NotDefined");
}
