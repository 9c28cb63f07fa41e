use replkit::engine::{ReplCore, ReplEvent};
use replkit::key::{Key, KeyEvent};
use replkit::mock::MockConsoleOutput;
use replkit::repl::{build_key_binding_map, KeyAction, KeyBinding, ReplConfig, ReplError};
use std::collections::HashMap;

fn fresh_core() -> ReplCore<MockConsoleOutput> {
    ReplCore::new(ReplConfig::default(), MockConsoleOutput::new()).unwrap()
}

#[test]
fn test_repl_engine_new_with_valid_config() {
    let config = ReplConfig::default();
    let result = ReplCore::new(config, MockConsoleOutput::new());
    assert!(result.is_ok());

    let engine = result.unwrap();
    assert_eq!(engine.config().prompt, ">>> ");
    assert!(!engine.is_running());
    assert!(!engine.should_exit());
    assert_eq!(engine.window_size(), (80, 24));
    assert_eq!(engine.buffer().text(), "");
}

#[test]
fn test_repl_core_new_with_invalid_config() {
    let mut config = ReplConfig::default();
    config.prompt = String::new();
    match ReplCore::new(config, MockConsoleOutput::new()) {
        Err(ReplError::ConfigurationError(msg)) => assert_eq!(msg, "Prompt cannot be empty"),
        _ => panic!("expected a configuration error"),
    }
}

#[test]
fn test_repl_engine_process_key_event_execute() {
    let mut engine = fresh_core();
    engine.buffer_mut().insert_text("hello", false, true);
    let result = engine.process_key_event(KeyEvent::simple(Key::Enter, vec![0x0d]));
    assert_eq!(result.unwrap(), Some("hello".to_string()));
}

#[test]
fn test_repl_engine_process_key_event_exit() {
    let mut engine = fresh_core();
    let result = engine.process_key_event(KeyEvent::simple(Key::ControlD, vec![0x04]));
    assert_eq!(result.unwrap(), None);
    assert!(engine.should_exit());
}

#[test]
fn test_repl_engine_process_key_event_clear_line() {
    let mut engine = fresh_core();
    engine.buffer_mut().insert_text("hello", false, true);
    let result = engine.process_key_event(KeyEvent::simple(Key::ControlC, vec![0x03]));
    assert_eq!(result.unwrap(), None);
    assert_eq!(engine.buffer().text(), "");
}

#[test]
fn test_repl_engine_process_key_event_continue() {
    let mut engine = fresh_core();
    let result = engine.process_key_event(KeyEvent::with_text(Key::NotDefined, vec![b'a'], "a".to_string()));
    assert_eq!(result.unwrap(), None);
    assert_eq!(engine.buffer().text(), "a");
    assert_eq!(engine.buffer().cursor_position(), 1);
}

#[test]
fn test_repl_core_custom_binding_overrides_default() {
    let mut config = ReplConfig::default();
    config.key_bindings = vec![KeyBinding { key: Key::Enter, action: KeyAction::Exit }];
    let mut engine = ReplCore::new(config, MockConsoleOutput::new()).unwrap();
    engine.buffer_mut().insert_text("hello", false, true);
    let result = engine.process_key_event(KeyEvent::simple(Key::Enter, vec![0x0d]));
    assert_eq!(result.unwrap(), None);
    assert!(engine.should_exit());
}

#[test]
fn test_repl_engine_process_event_shutdown() {
    let mut engine = fresh_core();
    let result = engine.process_event(ReplEvent::Shutdown);
    assert_eq!(result.unwrap(), None);
    assert!(engine.should_exit());
}

#[test]
fn test_repl_engine_process_event_window_resize() {
    let mut engine = fresh_core();
    let result = engine.process_event(ReplEvent::WindowResized(120, 30));
    assert_eq!(result.unwrap(), None);
    assert_eq!(engine.window_size(), (120, 30));
}

#[test]
fn test_repl_core_check_running() {
    let mut engine = fresh_core();
    match engine.check_running() {
        Err(ReplError::EventLoopError(msg)) => assert_eq!(msg, "REPL not running"),
        _ => panic!("expected an event loop error"),
    }
    engine.start(Some((100, 40))).unwrap();
    assert!(engine.is_running());
    assert!(engine.should_continue());
    assert!(engine.check_running().is_ok());
    engine.shutdown();
    assert!(!engine.is_running());
}

#[test]
fn test_repl_core_finish_execution() {
    let mut engine = fresh_core();
    engine.buffer_mut().insert_text("ls", false, true);
    engine.finish_execution().unwrap();
    assert_eq!(engine.buffer().text(), "");
    assert_eq!(engine.buffer().cursor_position(), 0);
}

#[test]
fn test_repl_core_handle_error() {
    let mut engine = fresh_core();
    match engine.handle_error(ReplError::ConsoleError(replkit::console::ConsoleError::IoError("x".to_string()))) {
        Err(ReplError::TerminalStateError(msg)) => assert_eq!(msg, "Console recovery not implemented"),
        _ => panic!("expected a terminal state error"),
    }
    assert!(engine.handle_error(ReplError::CallbackError("x".to_string())).is_ok());
    assert!(engine.handle_error(ReplError::RenderError("x".to_string())).is_ok());
    assert!(matches!(
        engine.handle_error(ReplError::KeyParsingError("x".to_string())),
        Err(ReplError::KeyParsingError(_))
    ));
}

#[test]
fn test_build_key_binding_map() {
    let mut config = ReplConfig::default();
    config.key_bindings = vec![
        KeyBinding { key: Key::ControlA, action: KeyAction::ClearLine },
        KeyBinding { key: Key::ControlX, action: KeyAction::Exit },
    ];

    let engine = ReplCore::new(config, MockConsoleOutput::new()).unwrap();
    let bindings = build_key_binding_map(engine.config());
    let mut binding_map: HashMap<Key, KeyAction> = HashMap::new();
    for b in &bindings {
        binding_map.insert(b.key, b.action);
    }

    assert_eq!(binding_map[&Key::ControlA], KeyAction::ClearLine);
    assert!(binding_map.contains_key(&Key::ControlX));
    assert_eq!(binding_map[&Key::ControlX], KeyAction::Exit);
    assert!(binding_map.contains_key(&Key::ControlE));
    assert!(binding_map.contains_key(&Key::Enter));
}

#[test]
fn test_engine_accessors() {
    let config = ReplConfig::default();
    let mut engine = ReplCore::new(config, MockConsoleOutput::new()).unwrap();

    assert_eq!(engine.config().prompt, ">>> ");

    let buffer_ref = engine.buffer();
    assert_eq!(buffer_ref.text(), "");

    let buffer_mut = engine.buffer_mut();
    buffer_mut.insert_text("test", false, true);
    assert_eq!(engine.buffer().text(), "test");

    engine.set_window_size(120, 30);
    assert_eq!(engine.window_size(), (120, 30));
}

#[test]
fn test_repl_engine_run_once_not_running() {
    let engine = fresh_core();
    let result = engine.check_running();
    assert!(result.is_err());
    if let Err(ReplError::EventLoopError(msg)) = result {
        assert!(msg.contains("REPL not running"));
    } else {
        panic!("Expected EventLoopError for not running");
    }
}

#[test]
fn test_repl_engine_shutdown() {
    let mut engine = fresh_core();
    engine.start(None).unwrap();
    assert!(engine.is_running());
    engine.shutdown();
    assert!(!engine.is_running());
}

#[test]
fn test_repl_engine_handle_window_resize() {
    let mut engine = fresh_core();
    let result = engine.handle_window_resize(120, 30);
    assert!(result.is_ok());
    assert_eq!(engine.window_size(), (120, 30));
}

#[test]
fn test_repl_core_custom_action_round_trip() {
    let mut config = ReplConfig::default();
    config.key_bindings = vec![KeyBinding { key: Key::ControlX, action: KeyAction::Custom(3) }];
    let mut engine = ReplCore::new(config, MockConsoleOutput::new()).unwrap();
    engine.buffer_mut().insert_text("hi", false, true);
    let result = engine.process_key_event(KeyEvent::simple(Key::ControlX, vec![0x18]));
    assert_eq!(result.unwrap(), None);
    assert_eq!(engine.take_custom_action(), Some(3));
    assert_eq!(engine.take_custom_action(), None);
    engine.buffer_mut().insert_text("!", false, true);
    assert_eq!(engine.finish_custom_action(Ok(())).unwrap(), None);
    assert_eq!(engine.buffer().text(), "hi!");
    match engine.finish_custom_action(Err(ReplError::CallbackError("boom".to_string()))) {
        Err(ReplError::CallbackError(m)) => assert_eq!(m, "boom"),
        _ => panic!("expected the action's error"),
    }
}
