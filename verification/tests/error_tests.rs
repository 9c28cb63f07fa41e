use replkit::error::BufferError;
use replkit::error::validation::{
    clamp_character_count, clamp_cursor_position, clamp_working_index, validate_character_count,
    validate_column_position, validate_cursor_position, validate_line_number, validate_range,
    validate_range_bounds, validate_text_encoding, validate_working_index,
};

#[test]
fn test_buffer_error_creation() {
    let err = BufferError::invalid_cursor_position(10, 5);
    assert_eq!(
        err,
        BufferError::InvalidCursorPosition {
            position: 10,
            max: 5
        }
    );

    let err = BufferError::invalid_working_index(3, 2);
    assert_eq!(err, BufferError::InvalidWorkingIndex { index: 3, max: 2 });

    let err = BufferError::bounds_check_failed("test_op", 15, (0, 10));
    assert_eq!(
        err,
        BufferError::BoundsCheckFailed {
            operation: "test_op".to_string(),
            position: 15,
            bounds: (0, 10)
        }
    );
}

#[test]
fn test_buffer_error_display() {
    let err = BufferError::invalid_cursor_position(10, 5);
    assert_eq!(err.to_string(), "Invalid cursor position 10 (max: 5)");

    let err = BufferError::invalid_character_count(5, 3);
    assert_eq!(
        err.to_string(),
        "Invalid character count 5: only 3 available"
    );

    let err = BufferError::bounds_check_failed("test_op", 15, (0, 10));
    assert_eq!(
        err.to_string(),
        "Bounds check failed for 'test_op': position 15 not in range 0..10"
    );
}

#[test]
fn test_validate_cursor_position() {
    // Valid positions
    assert!(validate_cursor_position(0, "hello").is_ok());
    assert!(validate_cursor_position(3, "hello").is_ok());
    assert!(validate_cursor_position(5, "hello").is_ok());

    // Invalid position
    let result = validate_cursor_position(10, "hello");
    assert!(result.is_err());
    if let Err(BufferError::InvalidCursorPosition { position, max }) = result {
        assert_eq!(position, 10);
        assert_eq!(max, 5);
    } else {
        panic!("Expected InvalidCursorPosition error");
    }
}

#[test]
fn test_validate_working_index() {
    // Valid indices
    assert!(validate_working_index(0, 3).is_ok());
    assert!(validate_working_index(2, 3).is_ok());

    // Invalid index
    let result = validate_working_index(3, 3);
    assert!(result.is_err());
    if let Err(BufferError::InvalidWorkingIndex { index, max }) = result {
        assert_eq!(index, 3);
        assert_eq!(max, 2);
    } else {
        panic!("Expected InvalidWorkingIndex error");
    }
}

#[test]
fn test_validate_range() {
    // Valid ranges
    assert!(validate_range(0, 5).is_ok());
    assert!(validate_range(2, 2).is_ok());

    // Invalid range
    let result = validate_range(5, 2);
    assert!(result.is_err());
    if let Err(BufferError::InvalidRange { start, end }) = result {
        assert_eq!(start, 5);
        assert_eq!(end, 2);
    } else {
        panic!("Expected InvalidRange error");
    }
}

#[test]
fn test_validate_range_bounds() {
    let text = "hello world";

    // Valid range within bounds
    assert!(validate_range_bounds(0, 5, text).is_ok());
    assert!(validate_range_bounds(6, 11, text).is_ok());

    // Invalid range (start > end)
    let result = validate_range_bounds(5, 2, text);
    assert!(result.is_err());

    // Range exceeds text bounds
    let result = validate_range_bounds(0, 20, text);
    assert!(result.is_err());
    if let Err(BufferError::BoundsCheckFailed {
        operation,
        position,
        bounds,
    }) = result
    {
        assert_eq!(operation, "range_bounds");
        assert_eq!(position, 20);
        assert_eq!(bounds, (0, 11));
    } else {
        panic!("Expected BoundsCheckFailed error");
    }
}

#[test]
fn test_validate_character_count() {
    // Valid counts
    assert_eq!(validate_character_count(0, 5, "test").unwrap(), 0);
    assert_eq!(validate_character_count(3, 5, "test").unwrap(), 3);
    assert_eq!(validate_character_count(5, 5, "test").unwrap(), 5);

    // Invalid count
    let result = validate_character_count(10, 5, "test");
    assert!(result.is_err());
    if let Err(BufferError::InvalidCharacterCount { count, available }) = result {
        assert_eq!(count, 10);
        assert_eq!(available, 5);
    } else {
        panic!("Expected InvalidCharacterCount error");
    }
}

#[test]
fn test_validate_text_encoding() {
    // Valid text
    assert!(validate_text_encoding("hello world").is_ok());
    assert!(validate_text_encoding("こんにちは").is_ok());
    assert!(validate_text_encoding("Hello 👋 World").is_ok());

    // Text with null characters
    let result = validate_text_encoding("hello\0world");
    assert!(result.is_err());
    if let Err(BufferError::TextEncodingError(_)) = result {
        // Expected
    } else {
        panic!("Expected TextEncodingError");
    }
}

#[test]
fn test_validate_line_number() {
    // Valid line numbers
    assert!(validate_line_number(0, 5).is_ok());
    assert!(validate_line_number(4, 5).is_ok());

    // Invalid line number
    let result = validate_line_number(5, 5);
    assert!(result.is_err());
    if let Err(BufferError::InvalidLineNumber { line, max_line }) = result {
        assert_eq!(line, 5);
        assert_eq!(max_line, 4);
    } else {
        panic!("Expected InvalidLineNumber error");
    }
}

#[test]
fn test_validate_column_position() {
    let line_text = "hello world";

    // Valid column positions
    assert!(validate_column_position(0, line_text).is_ok());
    assert!(validate_column_position(5, line_text).is_ok());
    assert!(validate_column_position(11, line_text).is_ok());

    // Invalid column position
    let result = validate_column_position(15, line_text);
    assert!(result.is_err());
    if let Err(BufferError::InvalidColumnPosition { column, max_column }) = result {
        assert_eq!(column, 15);
        assert_eq!(max_column, 11);
    } else {
        panic!("Expected InvalidColumnPosition error");
    }
}

#[test]
fn test_clamp_functions() {
    // Test cursor position clamping
    assert_eq!(clamp_cursor_position(3, "hello"), 3);
    assert_eq!(clamp_cursor_position(10, "hello"), 5);
    assert_eq!(clamp_cursor_position(0, ""), 0);

    // Test working index clamping
    assert_eq!(clamp_working_index(2, 5), 2);
    assert_eq!(clamp_working_index(10, 5), 4);
    assert_eq!(clamp_working_index(5, 0), 0);

    // Test character count clamping
    assert_eq!(clamp_character_count(3, 5), 3);
    assert_eq!(clamp_character_count(10, 5), 5);
    assert_eq!(clamp_character_count(0, 5), 0);
}

#[test]
fn test_unicode_validation() {
    // Test with various Unicode characters
    let unicode_text = "Hello 👋 こんにちは 🌍";

    assert!(validate_text_encoding(unicode_text).is_ok());
    assert!(validate_cursor_position(8, unicode_text).is_ok());

    // Test clamping with Unicode
    let clamped = clamp_cursor_position(100, unicode_text);
    assert_eq!(clamped, replkit::unicode::rune_count(unicode_text));
}

#[test]
fn test_error_chaining() {
    // Test that validation functions can be chained
    let text = "hello world";
    let result = validate_text_encoding(text)
        .and_then(|_| validate_cursor_position(5, text))
        .and_then(|_| validate_range_bounds(0, 5, text));

    assert!(result.is_ok());

    // Test error propagation in chain
    let result = validate_text_encoding(text)
        .and_then(|_| validate_cursor_position(20, text))
        .and_then(|_| validate_range_bounds(0, 5, text));

    assert!(result.is_err());
}

#[test]
fn test_unicode_and_state_transition_constructors() {
    let e = BufferError::unicode_error("bad rune");
    assert_eq!(e, BufferError::UnicodeError("bad rune".to_string()));
    assert_eq!(e.to_string(), "Unicode error: bad rune");

    let e = BufferError::invalid_state_transition("idle", "editing", "no buffer");
    assert_eq!(
        e,
        BufferError::InvalidStateTransition {
            from: "idle".to_string(),
            to: "editing".to_string(),
            reason: "no buffer".to_string(),
        }
    );
    assert_eq!(e.to_string(), "Invalid state transition from 'idle' to 'editing': no buffer");
}
