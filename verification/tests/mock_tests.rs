use replkit::console::{BackendType, ClearType, Color, ConsoleOutput, TextStyle};
use replkit::key::{Key, KeyEvent};
use replkit::mock::{MockConsoleInput, MockConsoleOutput, StyledOutputEvent};


#[test]
fn test_mock_console_input_creation() {
    let mut input = MockConsoleInput::new();
    assert_eq!(input.queued_event_count(), 0);

    let caps = input.get_capabilities();
    assert_eq!(caps.platform_name, "Mock");
    assert_eq!(caps.backend_type, BackendType::Mock);
    assert!(caps.supports_raw_mode);
    assert!(caps.supports_resize_events);
    assert!(caps.supports_unicode);
}

#[test]
fn test_window_size() {
    let mut input = MockConsoleInput::new();
    let (cols, rows) = input.get_window_size().unwrap();
    assert_eq!(cols, 80);
    assert_eq!(rows, 24);
}

#[test]
fn test_queue_key_event() {
    let mut input = MockConsoleInput::new();

    let event = KeyEvent::with_text(Key::NotDefined, vec![b'a'], "a".to_string());

    input.queue_key_event(event);
    assert_eq!(input.queued_event_count(), 1);

    input.clear_queue();
    assert_eq!(input.queued_event_count(), 0);
}

#[test]
fn test_queue_text_input() {
    let mut input = MockConsoleInput::new();

    // Queue individual character events
    for ch in "hello".chars() {
        input.queue_key_event(KeyEvent::with_text(
            Key::NotDefined,
            vec![ch as u8],
            ch.to_string(),
        ));
    }
    assert_eq!(input.queued_event_count(), 5);

    input.clear_queue();
    assert_eq!(input.queued_event_count(), 0);
}

#[test]
fn test_queue_multiple_events() {
    let mut input = MockConsoleInput::new();

    let events = vec![
        KeyEvent::with_text(Key::NotDefined, vec![b'a'], "a".to_string()),
        KeyEvent::simple(Key::ControlB, vec![0x02]),
        KeyEvent::simple(Key::Enter, vec![0x0D]),
    ];

    for event in events {
        input.queue_key_event(event);
    }
    assert_eq!(input.queued_event_count(), 3);
}

#[test]
fn test_key_reading() {
    let mut input = MockConsoleInput::new();

    // Queue some events
    let event1 = KeyEvent::with_text(Key::NotDefined, vec![b'x'], "x".to_string());
    let event2 = KeyEvent::simple(Key::ControlY, vec![0x19]);

    input.queue_key_event(event1.clone());
    input.queue_key_event(event2.clone());

    // Read events
    let read1 = input.try_read_key().unwrap();
    assert_eq!(read1.unwrap().key, Key::NotDefined);
    assert_eq!(input.queued_event_count(), 1);

    let read2 = input.try_read_key().unwrap();
    assert_eq!(read2.unwrap().key, Key::ControlY);
    assert_eq!(input.queued_event_count(), 0);

    // No more events
    let read3 = input.try_read_key().unwrap();
    assert!(read3.is_none());
}

#[test]
fn test_mock_console_output_creation() {
    let mut output = MockConsoleOutput::new();
    let caps = output.get_capabilities();

    assert_eq!(caps.platform_name, "Mock");
    assert_eq!(caps.backend_type, BackendType::Mock);
    assert!(caps.supports_colors);
    assert!(caps.supports_true_color);
    assert!(caps.supports_styling);
    assert!(caps.supports_alternate_screen);
    assert!(caps.supports_cursor_control);
    assert_eq!(caps.max_colors, 65535);
}

#[test]
fn test_output_text_capture() {
    let mut output = MockConsoleOutput::new();

    output.write_text("Hello").unwrap();
    output.write_text(" World").unwrap();

    assert_eq!(output.get_output_string(), "Hello World");

    output.clear_output();
    assert_eq!(output.get_output_string(), "");
}

#[test]
fn test_cursor_positioning() {
    let mut output = MockConsoleOutput::new();

    output.move_cursor_to(5, 10).unwrap();
    assert_eq!(output.get_mock_cursor_position(), (5, 10));

    // Check that ANSI sequence was written
    let output_str = output.get_output_string();
    assert!(output_str.contains("\x1b[6;11H")); // 1-based in ANSI

    output.move_cursor_relative(-2, 3).unwrap();
    assert_eq!(output.get_mock_cursor_position(), (3, 13));
}

#[test]
fn test_cursor_relative_movement_bounds() {
    let mut output = MockConsoleOutput::new();

    // Start at (0, 0)
    output.move_cursor_relative(-5, -5).unwrap();
    assert_eq!(output.get_mock_cursor_position(), (0, 0)); // Should not go negative
}

#[test]
fn test_screen_clearing() {
    let mut output = MockConsoleOutput::new();

    output.clear(ClearType::All).unwrap();
    assert!(output.get_output_string().contains("\x1b[2J"));

    output.clear_output();
    output.clear(ClearType::CurrentLine).unwrap();
    assert!(output.get_output_string().contains("\x1b[2K"));
}

#[test]
fn test_styling() {
    let mut output = MockConsoleOutput::new();

    let style = TextStyle {
        foreground: Some(Color::Red),
        bold: true,
        ..Default::default()
    };

    output.write_styled_text("Styled text", &style).unwrap();
    let output_str = output.get_output_string();

    // Should contain style sequences and reset
    assert!(output_str.contains("\x1b[1m")); // Bold (simplified)
    assert!(output_str.contains("Styled text"));
    assert!(output_str.contains("\x1b[0m")); // Reset
}

#[test]
fn test_alternate_screen() {
    let mut output = MockConsoleOutput::new();

    output.set_alternate_screen(true).unwrap();
    assert!(output.get_output_string().contains("\x1b[?1049h"));

    output.clear_output();
    output.set_alternate_screen(false).unwrap();
    assert!(output.get_output_string().contains("\x1b[?1049l"));
}

#[test]
fn test_cursor_visibility() {
    let mut output = MockConsoleOutput::new();

    output.set_cursor_visible(false).unwrap();
    assert!(output.get_output_string().contains("\x1b[?25l"));

    output.clear_output();
    output.set_cursor_visible(true).unwrap();
    assert!(output.get_output_string().contains("\x1b[?25h"));
}

#[test]
fn test_safe_text_writing() {
    let mut output = MockConsoleOutput::new();

    // For mock, safe text is just written directly
    output
        .write_safe_text("Safe text with \x1b[31m ANSI")
        .unwrap();
    assert_eq!(output.get_output_string(), "Safe text with \x1b[31m ANSI");
}

#[test]
fn test_styled_output_tracking() {
    let mut output = MockConsoleOutput::new();

    let red_style = TextStyle {
        foreground: Some(Color::Red),
        bold: true,
        ..Default::default()
    };

    let blue_style = TextStyle {
        foreground: Some(Color::Blue),
        italic: true,
        ..Default::default()
    };

    output.move_cursor_to(2, 5).unwrap();
    output.write_styled_text("Red text", &red_style).unwrap();

    output.move_cursor_to(3, 10).unwrap();
    output.write_styled_text("Blue text", &blue_style).unwrap();

    let styled_events = output.get_styled_output();
    assert_eq!(styled_events.len(), 2);

    // Check first styled event
    assert_eq!(styled_events[0].text, "Red text");
    assert_eq!(styled_events[0].style.foreground, Some(Color::Red));
    assert!(styled_events[0].style.bold);
    assert_eq!(styled_events[0].cursor_position, (2, 5));

    // Check second styled event
    assert_eq!(styled_events[1].text, "Blue text");
    assert_eq!(styled_events[1].style.foreground, Some(Color::Blue));
    assert!(styled_events[1].style.italic);
    assert_eq!(styled_events[1].cursor_position, (3, 10));
}

#[test]
fn test_terminal_state_tracking() {
    let mut output = MockConsoleOutput::new();

    // Initial state
    assert!(!output.is_alternate_screen_enabled());
    assert!(output.is_cursor_visible());

    // Enable alternate screen
    output.set_alternate_screen(true).unwrap();
    assert!(output.is_alternate_screen_enabled());

    // Hide cursor
    output.set_cursor_visible(false).unwrap();
    assert!(!output.is_cursor_visible());

    // Disable alternate screen
    output.set_alternate_screen(false).unwrap();
    assert!(!output.is_alternate_screen_enabled());

    // Show cursor
    output.set_cursor_visible(true).unwrap();
    assert!(output.is_cursor_visible());
}

#[test]
fn test_current_style_tracking() {
    let mut output = MockConsoleOutput::new();

    // Initial style should be default
    let initial_style = output.get_current_style();
    assert_eq!(initial_style, TextStyle::default());

    // Set a new style
    let new_style = TextStyle {
        foreground: Some(Color::Green),
        bold: true,
        underline: true,
        ..Default::default()
    };

    output.set_style(&new_style).unwrap();
    let current_style = output.get_current_style();
    assert_eq!(current_style, new_style);

    // Reset style
    output.reset_style().unwrap();
    let reset_style = output.get_current_style();
    assert_eq!(reset_style, TextStyle::default());
}

#[test]
fn test_clear_output_clears_styled_events() {
    let mut output = MockConsoleOutput::new();

    let style = TextStyle {
        foreground: Some(Color::Yellow),
        ..Default::default()
    };

    output.write_text("Regular text").unwrap();
    output.write_styled_text("Styled text", &style).unwrap();

    assert!(!output.get_output_string().is_empty());
    assert_eq!(output.get_styled_output().len(), 1);

    output.clear_output();

    assert!(output.get_output_string().is_empty());
    assert!(output.get_styled_output().is_empty());
}

#[test]
fn test_complex_output_sequence() {
    let mut output = MockConsoleOutput::new();

    // Complex sequence: move cursor, write styled text, clear line, move again
    output.move_cursor_to(1, 0).unwrap();

    let header_style = TextStyle {
        foreground: Some(Color::White),
        background: Some(Color::Blue),
        bold: true,
        ..Default::default()
    };

    output.write_styled_text("Header", &header_style).unwrap();
    output.clear(ClearType::FromCursorToEndOfLine).unwrap();
    output.move_cursor_to(2, 4).unwrap();
    output.write_text("Body text").unwrap();

    // Verify cursor position
    assert_eq!(output.get_mock_cursor_position(), (2, 4));

    // Verify styled output was captured
    let styled_events = output.get_styled_output();
    assert_eq!(styled_events.len(), 1);
    assert_eq!(styled_events[0].text, "Header");
    assert_eq!(styled_events[0].cursor_position, (1, 0));

    // Verify output buffer contains all sequences
    let output_str = output.get_output_string();
    assert!(output_str.contains("\x1b[2;1H")); // Move to (1,0) - 1-based ANSI
    assert!(output_str.contains("Header"));
    assert!(output_str.contains("\x1b[0K")); // Clear to end of line
    assert!(output_str.contains("\x1b[3;5H")); // Move to (2,4) - 1-based ANSI
    assert!(output_str.contains("Body text"));
}

#[test]
fn test_styled_output_event_equality() {
    let event1 = StyledOutputEvent {
        text: "Test".to_string(),
        style: TextStyle {
            foreground: Some(Color::Red),
            bold: true,
            ..Default::default()
        },
        cursor_position: (1, 2),
    };

    let event2 = StyledOutputEvent {
        text: "Test".to_string(),
        style: TextStyle {
            foreground: Some(Color::Red),
            bold: true,
            ..Default::default()
        },
        cursor_position: (1, 2),
    };

    let event3 = StyledOutputEvent {
        text: "Different".to_string(),
        style: TextStyle {
            foreground: Some(Color::Red),
            bold: true,
            ..Default::default()
        },
        cursor_position: (1, 2),
    };

    assert_eq!(event1, event2);
    assert_ne!(event1, event3);
}

#[test]
fn test_mock_input_read_key_timeout_never_waits() {
    let mut input = MockConsoleInput::new();
    assert_eq!(input.read_key_timeout(Some(1000)).unwrap(), None);
    input.queue_key_event(KeyEvent::simple(Key::Up, vec![0x1b, b'[', b'A']));
    input.queue_key_event(KeyEvent::simple(Key::Down, vec![0x1b, b'[', b'B']));
    assert_eq!(input.read_key_timeout(None).unwrap().map(|e| e.key), Some(Key::Up));
    assert_eq!(input.read_key_timeout(Some(5)).unwrap().map(|e| e.key), Some(Key::Down));
    assert_eq!(input.read_key_timeout(Some(5)).unwrap(), None);
}
