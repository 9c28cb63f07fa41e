use replkit::completion::StaticCompleter;
use replkit::document::Document;
use replkit::error::BufferError;
use replkit::prompt::{PromptBuilder, PromptError};
use replkit::suggestion::Suggestion;


#[test]
fn test_prompt_builder_default() {
    let prompt = PromptBuilder::new().build().unwrap();
    assert_eq!(prompt.prefix(), "> ");
    assert_eq!(prompt.get_completions().len(), 0);
}

#[test]
fn test_prompt_builder_with_prefix() {
    let prompt = PromptBuilder::new()
        .with_prefix("$ ")
        .build()
        .unwrap();
    assert_eq!(prompt.prefix(), "$ ");
}

#[test]
fn test_prompt_builder_with_string_prefix() {
    let prefix = "myapp> ".to_string();
    let prompt = PromptBuilder::new()
        .with_prefix(prefix.clone())
        .build()
        .unwrap();
    assert_eq!(prompt.prefix(), &prefix);
}

#[test]
fn test_prompt_with_static_completer() {
    let completer = StaticCompleter::from_strings(vec!["help", "hello", "history"]);
    let mut prompt = PromptBuilder::new()
        .with_completer(completer)
        .build()
        .unwrap();

    // Test with no input
    let suggestions = prompt.get_completions();
    assert_eq!(suggestions.len(), 3);

    // Test with prefix
    prompt.insert_text("he").unwrap();
    let suggestions = prompt.get_completions();
    assert_eq!(suggestions.len(), 2);
    assert!(suggestions.iter().any(|s| s.text == "help"));
    assert!(suggestions.iter().any(|s| s.text == "hello"));
}

#[test]
fn test_prompt_with_function_completer() {
    let completer = |document: &Document| -> Vec<Suggestion> {
        let word = document.get_word_before_cursor();
        if word.starts_with("git") {
            vec![
                Suggestion::new("git status", "Show repository status"),
                Suggestion::new("git commit", "Commit changes"),
            ]
        } else {
            vec![]
        }
    };

    let mut prompt = PromptBuilder::new()
        .with_completer(completer)
        .build()
        .unwrap();

    // Test with no matching input
    prompt.insert_text("hello").unwrap();
    let suggestions = prompt.get_completions();
    assert_eq!(suggestions.len(), 0);

    // Test with matching input
    prompt.clear();
    prompt.insert_text("git").unwrap();
    let suggestions = prompt.get_completions();
    assert_eq!(suggestions.len(), 2);
    assert!(suggestions.iter().any(|s| s.text == "git status"));
    assert!(suggestions.iter().any(|s| s.text == "git commit"));
}

#[test]
fn test_prompt_text_operations() {
    let mut prompt = PromptBuilder::new().build().unwrap();

    // Test insert
    prompt.insert_text("hello").unwrap();
    assert_eq!(prompt.document().text(), "hello");
    assert_eq!(prompt.document().cursor_position(), 5);

    // Test additional insert
    prompt.insert_text(" world").unwrap();
    assert_eq!(prompt.document().text(), "hello world");
    assert_eq!(prompt.document().cursor_position(), 11);

    // Test clear
    prompt.clear();
    assert_eq!(prompt.document().text(), "");
    assert_eq!(prompt.document().cursor_position(), 0);
}

#[test]
fn test_prompt_buffer_access() {
    let mut prompt = PromptBuilder::new().build().unwrap();
    
    prompt.insert_text("hello world").unwrap();
    
    // Test direct buffer manipulation
    let buffer = prompt.buffer_mut();
    buffer.cursor_left(6); // Move to after "hello"
    buffer.insert_text(" beautiful", false, true);
    
    assert_eq!(prompt.document().text(), "hello beautiful world");
}

#[test]
fn test_prompt_error_handling() {
    let mut prompt = PromptBuilder::new().build().unwrap();

    // Test that input() returns appropriate error for now
    let result = prompt.input();
    assert!(matches!(result, Err(PromptError::InvalidConfiguration(_))));
}

#[test]
fn test_builder_pattern_chaining() {
    let completer = StaticCompleter::from_strings(vec!["test"]);
    let prompt = PromptBuilder::new()
        .with_prefix(">>> ")
        .with_completer(completer)
        .build()
        .unwrap();

    assert_eq!(prompt.prefix(), ">>> ");
    assert_eq!(prompt.get_completions().len(), 1);
}

#[test]
fn test_prompt_error_display() {
    let error = PromptError::Interrupted;
    assert_eq!(error.to_string(), "Prompt was interrupted");

    let error = PromptError::IoError("connection lost".to_string());
    assert_eq!(error.to_string(), "I/O error: connection lost");

    let error = PromptError::InvalidConfiguration("bad config".to_string());
    assert_eq!(error.to_string(), "Invalid configuration: bad config");
}

#[test]
fn test_prompt_error_conversion() {
    let buffer_error = BufferError::invalid_cursor_position(10, 5);
    let prompt_error: PromptError = buffer_error.into();
    assert!(matches!(prompt_error, PromptError::BufferError(_)));

    let io_error = std::io::Error::new(std::io::ErrorKind::BrokenPipe, "pipe broken");
    let prompt_error: PromptError = io_error.into();
    assert!(matches!(prompt_error, PromptError::IoError(_)));
}
