use replkit::console::ConsoleError;
use replkit::key::Key;
use replkit::repl::{create_default_key_bindings, validate_config, KeyAction, KeyBinding, ReplConfig, ReplError};
use std::collections::HashMap;


#[test]
fn test_repl_config_default() {
    let config = ReplConfig::default();
    assert_eq!(config.prompt, ">>> ");
    assert!(!config.enable_history);
    assert_eq!(config.max_history_size, 1000);
    assert!(!config.enable_multiline);
    assert!(config.key_bindings.is_empty());
}

#[test]
fn test_validate_config_empty_prompt() {
    let mut config = ReplConfig::default();
    config.prompt = String::new();

    let result = validate_config(&config);
    assert!(result.is_err());

    if let Err(ReplError::ConfigurationError(msg)) = result {
        assert!(msg.contains("Prompt cannot be empty"));
    } else {
        panic!("Expected ConfigurationError for empty prompt");
    }
}

#[test]
fn test_validate_config_prompt_with_control_characters() {
    let mut config = ReplConfig::default();
    config.prompt = ">>> \x1b[31m".to_string(); // Contains escape sequence

    let result = validate_config(&config);
    assert!(result.is_err());

    if let Err(ReplError::ConfigurationError(msg)) = result {
        assert!(msg.contains("control characters"));
    } else {
        panic!("Expected ConfigurationError for prompt with control characters");
    }
}

#[test]
fn test_validate_config_prompt_with_tab_allowed() {
    let mut config = ReplConfig::default();
    config.prompt = ">>>\t".to_string(); // Tab should be allowed

    let result = validate_config(&config);
    assert!(result.is_ok());
}

#[test]
fn test_validate_config_history_size_zero() {
    let mut config = ReplConfig::default();
    config.enable_history = true;
    config.max_history_size = 0;

    let result = validate_config(&config);
    assert!(result.is_err());

    if let Err(ReplError::ConfigurationError(msg)) = result {
        assert!(msg.contains("History size must be greater than 0"));
    } else {
        panic!("Expected ConfigurationError for zero history size");
    }
}

#[test]
fn test_validate_config_history_size_too_large() {
    let mut config = ReplConfig::default();
    config.max_history_size = 200_000;

    let result = validate_config(&config);
    assert!(result.is_err());

    if let Err(ReplError::ConfigurationError(msg)) = result {
        assert!(msg.contains("cannot exceed 100,000"));
    } else {
        panic!("Expected ConfigurationError for excessive history size");
    }
}

#[test]
fn test_validate_config_duplicate_key_bindings() {
    let mut config = ReplConfig::default();
    config.key_bindings = vec![
        KeyBinding {
            key: Key::ControlA,
            action: KeyAction::MoveToBeginning,
        },
        KeyBinding {
            key: Key::ControlA, // Duplicate key
            action: KeyAction::MoveToEnd,
        },
    ];

    let result = validate_config(&config);
    assert!(result.is_err());

    if let Err(ReplError::ConfigurationError(msg)) = result {
        assert!(msg.contains("Duplicate key binding"));
        assert!(msg.contains("ControlA"));
    } else {
        panic!("Expected ConfigurationError for duplicate key bindings");
    }
}

#[test]
fn test_validate_config_valid_configuration() {
    let mut config = ReplConfig::default();
    config.prompt = "my-prompt> ".to_string();
    config.enable_history = true;
    config.max_history_size = 500;
    config.enable_multiline = true;
    config.key_bindings = vec![
        KeyBinding {
            key: Key::ControlX,
            action: KeyAction::ClearLine,
        },
        KeyBinding {
            key: Key::ControlY,
            action: KeyAction::Exit,
        },
    ];

    let result = validate_config(&config);
    assert!(result.is_ok());
}

#[test]
fn test_create_default_key_bindings() {
    let bindings = create_default_key_bindings();

    // Check that we have the expected default bindings
    assert!(!bindings.is_empty());

    // Verify some key bindings exist
    let binding_map: HashMap<Key, &KeyAction> =
        bindings.iter().map(|b| (b.key, &b.action)).collect();

    assert!(binding_map.contains_key(&Key::ControlA));
    assert!(binding_map.contains_key(&Key::ControlE));
    assert!(binding_map.contains_key(&Key::ControlC));
    assert!(binding_map.contains_key(&Key::ControlD));
    assert!(binding_map.contains_key(&Key::Enter));
    assert!(binding_map.contains_key(&Key::Backspace));
    assert!(binding_map.contains_key(&Key::Left));
    assert!(binding_map.contains_key(&Key::Right));

    // Verify specific actions
    if let KeyAction::MoveToBeginning = binding_map[&Key::ControlA] {
        // Expected
    } else {
        panic!("Expected MoveToBeginning for Ctrl+A");
    }

    if let KeyAction::Execute = binding_map[&Key::Enter] {
        // Expected
    } else {
        panic!("Expected Execute for Enter");
    }
}

#[test]
fn test_repl_error_display() {
    let console_error = ConsoleError::IoError("test error".to_string());
    let repl_error = ReplError::from(console_error);
    assert!(repl_error.to_string().contains("Console error"));
    assert!(repl_error.to_string().contains("test error"));

    let config_error = ReplError::ConfigurationError("invalid config".to_string());
    assert!(config_error.to_string().contains("Configuration error"));
    assert!(config_error.to_string().contains("invalid config"));
}

#[test]
fn test_key_action_clone() {
    let action1 = KeyAction::MoveCursorLeft(5);
    let action2 = action1.clone();

    if let (KeyAction::MoveCursorLeft(n1), KeyAction::MoveCursorLeft(n2)) = (action1, action2) {
        assert_eq!(n1, n2);
    } else {
        panic!("KeyAction clone failed");
    }
}

#[test]
fn test_key_binding_clone() {
    let binding1 = KeyBinding {
        key: Key::ControlA,
        action: KeyAction::MoveToBeginning,
    };
    let binding2 = binding1.clone();

    assert_eq!(binding1.key, binding2.key);
    // KeyAction clone works but we can't directly compare the actions
    // since they don't implement PartialEq
}

#[test]
fn test_key_binding_debug() {
    let binding = KeyBinding {
        key: Key::ControlA,
        action: KeyAction::MoveToBeginning,
    };
    let debug_str = format!("{:?}", binding);
    assert!(debug_str.contains("ControlA"));
    assert!(debug_str.contains("MoveToBeginning"));
}
