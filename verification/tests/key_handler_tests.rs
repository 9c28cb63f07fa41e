use replkit::buffer::Buffer;
use replkit::key::{Key, KeyEvent};
use replkit::key_handler::{finish_custom_action, KeyHandler, KeyResult};
use replkit::repl::{KeyAction, KeyBinding, ReplError};


#[test]
fn test_key_handler_new() {
    let custom_bindings = vec![KeyBinding {
        key: Key::ControlX,
        action: KeyAction::Exit,
    }];

    let handler = KeyHandler::new(custom_bindings);
    assert!(handler.has_binding(Key::ControlX));
    assert!(handler.has_binding(Key::ControlA)); // Default binding
}

#[test]
fn test_key_handler_default() {
    let handler = KeyHandler::default();

    // Should have default bindings
    assert!(handler.has_binding(Key::ControlA));
    assert!(handler.has_binding(Key::ControlE));
    assert!(handler.has_binding(Key::Left));
    assert!(handler.has_binding(Key::Right));
    assert!(handler.has_binding(Key::Backspace));
    assert!(handler.has_binding(Key::Delete));
    assert!(handler.has_binding(Key::Enter));

    // Should not have custom bindings
    assert!(handler.custom_bindings().is_empty());
}

#[test]
fn test_handle_key_move_cursor_left() {
    let handler = KeyHandler::default();
    let mut buffer = Buffer::new();
    buffer.set_text("hello".to_string());
    buffer.set_cursor_position(3);

    let key_event = KeyEvent::simple(Key::Left, vec![0x1b, 0x5b, 0x44]);
    let result = handler.handle_key(key_event, &mut buffer).unwrap();

    assert_eq!(result, KeyResult::Continue);
    assert_eq!(buffer.cursor_position(), 2);
}

#[test]
fn test_handle_key_move_cursor_right() {
    let handler = KeyHandler::default();
    let mut buffer = Buffer::new();
    buffer.set_text("hello".to_string());
    buffer.set_cursor_position(2);

    let key_event = KeyEvent::simple(Key::Right, vec![0x1b, 0x5b, 0x43]);
    let result = handler.handle_key(key_event, &mut buffer).unwrap();

    assert_eq!(result, KeyResult::Continue);
    assert_eq!(buffer.cursor_position(), 3);
}

#[test]
fn test_handle_key_move_to_beginning() {
    let handler = KeyHandler::default();
    let mut buffer = Buffer::new();
    buffer.set_text("hello world".to_string());
    buffer.set_cursor_position(5);

    let key_event = KeyEvent::simple(Key::ControlA, vec![0x01]);
    let result = handler.handle_key(key_event, &mut buffer).unwrap();

    assert_eq!(result, KeyResult::Continue);
    assert_eq!(buffer.cursor_position(), 0);
}

#[test]
fn test_handle_key_move_to_end() {
    let handler = KeyHandler::default();
    let mut buffer = Buffer::new();
    buffer.set_text("hello world".to_string());
    buffer.set_cursor_position(5);

    let key_event = KeyEvent::simple(Key::ControlE, vec![0x05]);
    let result = handler.handle_key(key_event, &mut buffer).unwrap();

    assert_eq!(result, KeyResult::Continue);
    assert_eq!(buffer.cursor_position(), 11);
}

#[test]
fn test_handle_key_home_end() {
    let handler = KeyHandler::default();
    let mut buffer = Buffer::new();
    buffer.set_text("hello world".to_string());
    buffer.set_cursor_position(5);

    // Test Home key
    let key_event = KeyEvent::simple(Key::Home, vec![0x1b, 0x5b, 0x48]);
    let result = handler.handle_key(key_event, &mut buffer).unwrap();
    assert_eq!(result, KeyResult::Continue);
    assert_eq!(buffer.cursor_position(), 0);

    // Test End key
    let key_event = KeyEvent::simple(Key::End, vec![0x1b, 0x5b, 0x46]);
    let result = handler.handle_key(key_event, &mut buffer).unwrap();
    assert_eq!(result, KeyResult::Continue);
    assert_eq!(buffer.cursor_position(), 11);
}

#[test]
fn test_handle_key_backspace() {
    let handler = KeyHandler::default();
    let mut buffer = Buffer::new();
    buffer.set_text("hello".to_string());
    buffer.set_cursor_position(3);

    let key_event = KeyEvent::simple(Key::Backspace, vec![0x08]);
    let result = handler.handle_key(key_event, &mut buffer).unwrap();

    assert_eq!(result, KeyResult::Continue);
    assert_eq!(buffer.text(), "helo");
    assert_eq!(buffer.cursor_position(), 2);
}

#[test]
fn test_handle_key_delete() {
    let handler = KeyHandler::default();
    let mut buffer = Buffer::new();
    buffer.set_text("hello".to_string());
    buffer.set_cursor_position(2);

    let key_event = KeyEvent::simple(Key::Delete, vec![0x1b, 0x5b, 0x33, 0x7e]);
    let result = handler.handle_key(key_event, &mut buffer).unwrap();

    assert_eq!(result, KeyResult::Continue);
    assert_eq!(buffer.text(), "helo");
    assert_eq!(buffer.cursor_position(), 2);
}

#[test]
fn test_handle_key_clear_line() {
    let handler = KeyHandler::default();
    let mut buffer = Buffer::new();
    buffer.set_text("hello world".to_string());
    buffer.set_cursor_position(5);

    let key_event = KeyEvent::simple(Key::ControlC, vec![0x03]);
    let result = handler.handle_key(key_event, &mut buffer).unwrap();

    assert_eq!(result, KeyResult::ClearLine);
    assert_eq!(buffer.text(), "");
    assert_eq!(buffer.cursor_position(), 0);
}

#[test]
fn test_handle_key_execute() {
    let handler = KeyHandler::default();
    let mut buffer = Buffer::new();
    buffer.set_text("hello world".to_string());

    let key_event = KeyEvent::simple(Key::Enter, vec![0x0d]);
    let result = handler.handle_key(key_event, &mut buffer).unwrap();

    assert_eq!(result, KeyResult::Execute("hello world".to_string()));
}

#[test]
fn test_handle_key_exit() {
    let handler = KeyHandler::default();
    let mut buffer = Buffer::new();

    let key_event = KeyEvent::simple(Key::ControlD, vec![0x04]);
    let result = handler.handle_key(key_event, &mut buffer).unwrap();

    assert_eq!(result, KeyResult::Exit);
}

#[test]
fn test_handle_key_printable_character() {
    let handler = KeyHandler::default();
    let mut buffer = Buffer::new();
    buffer.set_text("hello".to_string());
    buffer.set_cursor_position(5);

    let key_event = KeyEvent::with_text(Key::NotDefined, vec![0x20], " ".to_string());
    let result = handler.handle_key(key_event, &mut buffer).unwrap();

    assert_eq!(result, KeyResult::Continue);
    assert_eq!(buffer.text(), "hello ");
    assert_eq!(buffer.cursor_position(), 6);
}

#[test]
fn test_handle_key_bracketed_paste() {
    let handler = KeyHandler::default();
    let mut buffer = Buffer::new();
    buffer.set_text("hello".to_string());
    buffer.set_cursor_position(5);

    let key_event =
        KeyEvent::with_text(Key::BracketedPaste, vec![], " pasted text".to_string());
    let result = handler.handle_key(key_event, &mut buffer).unwrap();

    assert_eq!(result, KeyResult::Continue);
    assert_eq!(buffer.text(), "hello pasted text");
    assert_eq!(buffer.cursor_position(), 17);
}

#[test]
fn test_handle_key_ignore_special_keys() {
    let handler = KeyHandler::default();
    let mut buffer = Buffer::new();

    // Test various keys that should be ignored
    let ignore_keys = vec![
        Key::Ignore,
        Key::CPRResponse,
        Key::Vt100MouseEvent,
        Key::WindowsMouseEvent,
    ];

    for key in ignore_keys {
        let key_event = KeyEvent::simple(key, vec![]);
        let result = handler.handle_key(key_event, &mut buffer).unwrap();
        assert_eq!(result, KeyResult::Ignore);
    }
}

#[test]
fn test_handle_key_not_defined_without_text() {
    let handler = KeyHandler::default();
    let mut buffer = Buffer::new();

    // NotDefined without text should be ignored
    let key_event = KeyEvent::simple(Key::NotDefined, vec![]);
    let result = handler.handle_key(key_event, &mut buffer).unwrap();
    assert_eq!(result, KeyResult::Ignore);
}

#[test]
fn test_custom_bindings_override_defaults() {
    let custom_bindings = vec![KeyBinding {
        key: Key::ControlA, // Override default MoveToBeginning
        action: KeyAction::ClearLine,
    }];

    let handler = KeyHandler::new(custom_bindings);
    let mut buffer = Buffer::new();
    buffer.set_text("hello world".to_string());
    buffer.set_cursor_position(5);

    let key_event = KeyEvent::simple(Key::ControlA, vec![0x01]);
    let result = handler.handle_key(key_event, &mut buffer).unwrap();

    // Should execute custom action (ClearLine) instead of default (MoveToBeginning)
    assert_eq!(result, KeyResult::ClearLine);
    assert_eq!(buffer.text(), "");
}

#[test]
fn test_register_binding() {
    let mut handler = KeyHandler::default();

    // Initially should not have binding for ControlX
    assert!(!handler.has_binding(Key::ControlX));

    // Register custom binding
    handler.register_binding(Key::ControlX, KeyAction::Exit);

    // Now should have the binding
    assert!(handler.has_binding(Key::ControlX));

    // Test the binding works
    let mut buffer = Buffer::new();
    let key_event = KeyEvent::simple(Key::ControlX, vec![0x18]);
    let result = handler.handle_key(key_event, &mut buffer).unwrap();
    assert_eq!(result, KeyResult::Exit);
}

#[test]
fn test_remove_binding() {
    let custom_bindings = vec![KeyBinding {
        key: Key::ControlX,
        action: KeyAction::Exit,
    }];

    let mut handler = KeyHandler::new(custom_bindings);

    // Should have the custom binding
    assert!(handler.has_binding(Key::ControlX));

    // Remove the binding
    let removed = handler.remove_binding(Key::ControlX);
    assert!(removed);

    // Should no longer have the binding
    assert!(!handler.has_binding(Key::ControlX));

    // Removing non-existent binding should return false
    let removed = handler.remove_binding(Key::ControlY);
    assert!(!removed);
}

#[test]
fn test_get_action() {
    let custom_bindings = vec![KeyBinding {
        key: Key::ControlX,
        action: KeyAction::Exit,
    }];

    let handler = KeyHandler::new(custom_bindings);

    // Test custom binding
    let action = handler.get_action(Key::ControlX);
    assert!(action.is_some());
    if let Some(KeyAction::Exit) = action {
        // Expected
    } else {
        panic!("Expected Exit action for ControlX");
    }

    // Test default binding
    let action = handler.get_action(Key::ControlA);
    assert!(action.is_some());
    if let Some(KeyAction::MoveToBeginning) = action {
        // Expected
    } else {
        panic!("Expected MoveToBeginning action for ControlA");
    }

    // Test non-existent binding
    let action = handler.get_action(Key::ControlY);
    assert!(action.is_none());
}

#[test]
fn test_key_result_debug() {
    assert_eq!(format!("{:?}", KeyResult::Continue), "Continue");
    assert_eq!(format!("{:?}", KeyResult::Exit), "Exit");
    assert_eq!(format!("{:?}", KeyResult::ClearLine), "ClearLine");
    assert_eq!(format!("{:?}", KeyResult::Ignore), "Ignore");
    assert_eq!(
        format!("{:?}", KeyResult::Execute("test".to_string())),
        "Execute(\"test\")"
    );
}

#[test]
fn test_key_result_clone() {
    let result1 = KeyResult::Execute("test".to_string());
    let result2 = result1.clone();
    assert_eq!(result1, result2);
}

#[test]
fn test_buffer_last_key_stroke_updated() {
    let handler = KeyHandler::default();
    let mut buffer = Buffer::new();

    let key_event = KeyEvent::simple(Key::ControlA, vec![0x01]);
    let _result = handler.handle_key(key_event, &mut buffer).unwrap();

    assert_eq!(buffer.last_key_stroke(), Some(Key::ControlA));
}

#[test]
fn test_multiple_character_deletion() {
    let custom_bindings = vec![KeyBinding {
        key: Key::ControlW,
        action: KeyAction::DeleteBackward(5), // Delete 5 characters
    }];

    let handler = KeyHandler::new(custom_bindings);
    let mut buffer = Buffer::new();
    buffer.set_text("hello world".to_string());
    buffer.set_cursor_position(11);

    let key_event = KeyEvent::simple(Key::ControlW, vec![0x17]);
    let result = handler.handle_key(key_event, &mut buffer).unwrap();

    assert_eq!(result, KeyResult::Continue);
    assert_eq!(buffer.text(), "hello ");
    assert_eq!(buffer.cursor_position(), 6);
}

#[test]
fn test_multiple_character_forward_deletion() {
    let custom_bindings = vec![KeyBinding {
        key: Key::ControlK,
        action: KeyAction::DeleteForward(5), // Delete 5 characters forward
    }];

    let handler = KeyHandler::new(custom_bindings);
    let mut buffer = Buffer::new();
    buffer.set_text("hello world".to_string());
    buffer.set_cursor_position(0);

    let key_event = KeyEvent::simple(Key::ControlK, vec![0x0b]);
    let result = handler.handle_key(key_event, &mut buffer).unwrap();

    assert_eq!(result, KeyResult::Continue);
    assert_eq!(buffer.text(), " world");
    assert_eq!(buffer.cursor_position(), 0);
}

#[test]
fn test_multiple_cursor_movement() {
    let custom_bindings = vec![KeyBinding {
        key: Key::ControlF,
        action: KeyAction::MoveCursorRight(3), // Move 3 characters right
    }];

    let handler = KeyHandler::new(custom_bindings);
    let mut buffer = Buffer::new();
    buffer.set_text("hello world".to_string());
    buffer.set_cursor_position(2);

    let key_event = KeyEvent::simple(Key::ControlF, vec![0x06]);
    let result = handler.handle_key(key_event, &mut buffer).unwrap();

    assert_eq!(result, KeyResult::Continue);
    assert_eq!(buffer.cursor_position(), 5);
}

/// Runs a key through the handler; a custom action's function is looked up
/// by its id in `actions` and run on the buffer, as the REPL loop does.
fn handle_with_actions(
    handler: &KeyHandler,
    actions: &[Box<dyn Fn(&mut Buffer) -> Result<(), ReplError>>],
    key_event: KeyEvent,
    buffer: &mut Buffer,
) -> Result<KeyResult, ReplError> {
    match handler.handle_key(key_event, buffer)? {
        KeyResult::RunCustom(id) => finish_custom_action(actions[id as usize](buffer)),
        other => Ok(other),
    }
}

#[test]
fn test_custom_action_function() {
    let actions: Vec<Box<dyn Fn(&mut Buffer) -> Result<(), ReplError>>> = vec![Box::new(|buffer: &mut Buffer| {
        buffer.insert_text("CUSTOM", false, true);
        Ok(())
    })];
    let custom_bindings = vec![KeyBinding { key: Key::ControlX, action: KeyAction::Custom(0) }];

    let handler = KeyHandler::new(custom_bindings);
    let mut buffer = Buffer::new();
    buffer.set_text("hello".to_string());
    buffer.set_cursor_position(5);

    let key_event = KeyEvent::simple(Key::ControlX, vec![0x18]);
    let result = handle_with_actions(&handler, &actions, key_event, &mut buffer).unwrap();

    assert_eq!(result, KeyResult::Continue);
    assert_eq!(buffer.text(), "helloCUSTOM");
    assert_eq!(buffer.cursor_position(), 11);
}

#[test]
fn test_custom_action_function_error() {
    let actions: Vec<Box<dyn Fn(&mut Buffer) -> Result<(), ReplError>>> =
        vec![Box::new(|_buffer: &mut Buffer| Err(ReplError::CallbackError("Custom error".to_string())))];
    let custom_bindings = vec![KeyBinding { key: Key::ControlX, action: KeyAction::Custom(0) }];

    let handler = KeyHandler::new(custom_bindings);
    let mut buffer = Buffer::new();

    let key_event = KeyEvent::simple(Key::ControlX, vec![0x18]);
    let result = handle_with_actions(&handler, &actions, key_event, &mut buffer);

    assert!(result.is_err());
    if let Err(ReplError::CallbackError(msg)) = result {
        assert_eq!(msg, "Custom error");
    } else {
        panic!("Expected CallbackError");
    }
}

#[test]
fn test_custom_action_leaves_buffer_to_the_caller() {
    let handler = KeyHandler::new(vec![KeyBinding { key: Key::F5, action: KeyAction::Custom(7) }]);
    let mut buffer = Buffer::new();
    buffer.insert_text("abc", false, true);
    let result = handler.handle_key(KeyEvent::simple(Key::F5, vec![]), &mut buffer).unwrap();
    assert_eq!(result, KeyResult::RunCustom(7));
    assert_eq!(buffer.text(), "abc");
    assert_eq!(buffer.cursor_position(), 3);
    assert_eq!(finish_custom_action(Ok(())).unwrap(), KeyResult::Continue);
}
