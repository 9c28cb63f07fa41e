use replkit::ansi::{color_to_bg_ansi, color_to_fg_ansi, parse_cursor_report};
use replkit::console::{Color, SafeTextFilter, SanitizationPolicy};
use replkit::buffer::Buffer;
use replkit::completion::{Completor, StaticCompleter};
use replkit::document::Document;
use replkit::key::Key;
use replkit::key_parser::KeyParser;
use replkit::key_handler::KeyHandler;
use replkit::mock::MockConsoleOutput;
use replkit::renderer::{RenderResult, Renderer};
use replkit::repl::{build_key_binding_map, validate_config, KeyAction, KeyBinding, ReplConfig};

#[test]
fn test_insert_then_delete_restores_text() {
    let mut buffer = Buffer::new();
    buffer.insert_text("hello world", false, true);
    buffer.set_cursor_position(5);
    buffer.insert_text(", dear", false, true);
    assert_eq!(buffer.text(), "hello, dear world");
    let deleted = buffer.delete_before_cursor(6);
    assert_eq!(deleted, ", dear");
    assert_eq!(buffer.text(), "hello world");
    assert_eq!(buffer.cursor_position(), 5);
}

#[test]
fn test_swap_twice_restores_text() {
    let mut buffer = Buffer::new();
    buffer.insert_text("abcd", false, true);
    buffer.set_cursor_position(3);
    buffer.swap_characters_before_cursor();
    assert_eq!(buffer.text(), "acbd");
    buffer.swap_characters_before_cursor();
    assert_eq!(buffer.text(), "abcd");
}

#[test]
fn test_position_round_trip() {
    let doc = Document::with_text("one\ntwo lines\n\nend".to_string(), 0);
    for i in 0..=doc.text().chars().count() {
        let (row, col) = doc.translate_index_to_position(i);
        assert_eq!(doc.translate_row_col_to_index(row, col), i);
    }
    assert_eq!(doc.line_count(), doc.lines().len());
}

#[test]
fn test_custom_binding_overrides_then_removal_restores_default() {
    let mut handler = KeyHandler::new(vec![KeyBinding { key: Key::ControlA, action: KeyAction::Exit }]);
    assert_eq!(handler.get_action(Key::ControlA), Some(&KeyAction::Exit));
    assert!(handler.remove_binding(Key::ControlA));
    assert_eq!(handler.get_action(Key::ControlA), Some(&KeyAction::MoveToBeginning));
    handler.register_binding(Key::ControlA, KeyAction::ClearLine);
    handler.register_binding(Key::ControlA, KeyAction::Execute);
    assert_eq!(handler.custom_bindings().len(), 1);
    assert_eq!(handler.get_action(Key::ControlA), Some(&KeyAction::Execute));
}

#[test]
fn test_build_key_binding_map_prefers_config() {
    let mut config = ReplConfig::default();
    config.key_bindings = vec![
        KeyBinding { key: Key::ControlA, action: KeyAction::ClearLine },
        KeyBinding { key: Key::ControlX, action: KeyAction::Exit },
    ];
    let bindings = build_key_binding_map(&config);
    let last_for = |k: Key| bindings.iter().rev().find(|b| b.key == k).map(|b| b.action);
    assert_eq!(last_for(Key::ControlA), Some(KeyAction::ClearLine));
    assert_eq!(last_for(Key::ControlX), Some(KeyAction::Exit));
    assert_eq!(last_for(Key::ControlE), Some(KeyAction::MoveToEnd));
    assert_eq!(last_for(Key::F5), None);
}

#[test]
fn test_completions_start_with_word() {
    let completer = StaticCompleter::from_strings(vec!["help", "hello", "history", "quit"]);
    let doc = Document::with_text("say hel".to_string(), 7);
    let suggestions = completer.complete(&doc);
    let texts: Vec<String> = suggestions.iter().map(|s| s.text.clone()).collect();
    assert_eq!(texts, vec!["help".to_string(), "hello".to_string()]);
}

#[test]
fn test_render_twice_reports_no_change() {
    let mut renderer = Renderer::new(MockConsoleOutput::new(), ">>> ".to_string());
    let mut buffer = Buffer::new();
    buffer.insert_text("print(1)", false, true);
    assert_eq!(renderer.render(&buffer).unwrap(), RenderResult::Updated);
    assert_eq!(renderer.render(&buffer).unwrap(), RenderResult::NoChange);
    buffer.set_cursor_position(2);
    assert_eq!(renderer.render(&buffer).unwrap(), RenderResult::Updated);
    assert_eq!(renderer.render(&buffer).unwrap(), RenderResult::NoChange);
}

#[test]
fn test_set_cursor_twice_same_as_once() {
    let mut once = Buffer::new();
    once.insert_text("hello\nworld", false, true);
    let mut twice = Buffer::new();
    twice.insert_text("hello\nworld", false, true);
    for pos in [0usize, 3, 6, 11, 50] {
        once.set_cursor_position(pos);
        twice.set_cursor_position(pos);
        twice.set_cursor_position(pos);
        assert_eq!(once.text(), twice.text());
        assert_eq!(once.cursor_position(), twice.cursor_position());
    }
    assert_eq!(twice.cursor_position(), 11);
}

#[test]
fn test_line_count_matches_lines() {
    for text in ["", "one", "a\nb", "a\n", "\n\n\n", "x\ny\nz"] {
        let doc = Document::with_text(text.to_string(), 0);
        assert_eq!(doc.line_count(), doc.lines().len());
    }
}

#[test]
fn test_cursor_report_round_trip() {
    for (row, col) in [(0u16, 0u16), (9, 99), (23, 79), (65534, 0), (1234, 65534)] {
        let report = format!("\x1b[{};{}R", row as u32 + 1, col as u32 + 1);
        assert_eq!(parse_cursor_report(report.as_bytes()).unwrap(), (row, col));
    }
}

#[test]
fn test_cursor_splits_text() {
    let text = "héllo\nwörld";
    for cursor in 0..=text.chars().count() {
        let doc = Document::with_text(text.to_string(), cursor);
        let joined = format!("{}{}", doc.text_before_cursor(), doc.text_after_cursor());
        assert_eq!(joined, text);
    }
}

#[test]
fn test_background_is_foreground_plus_ten() {
    for (c, fg, bg) in [
        (Color::Red, "31", "41"),
        (Color::BrightWhite, "97", "107"),
        (Color::Rgb(1, 2, 3), "38;2;1;2;3", "48;2;1;2;3"),
        (Color::Ansi256(200), "38;5;200", "48;5;200"),
    ] {
        assert_eq!(color_to_fg_ansi(&c), fg);
        assert_eq!(color_to_bg_ansi(&c), bg);
    }
}

#[test]
fn test_lines_join_to_text() {
    for text in ["", "one", "a\nb", "a\n", "\n\n", "x\ny\n\nz"] {
        let doc = Document::with_text(text.to_string(), 0);
        assert_eq!(doc.lines().join("\n"), text);
    }
}

#[test]
fn test_down_target_after_cursor() {
    let doc = Document::with_text("ab\ncdef\ng".to_string(), 1);
    assert_eq!(doc.cursor_down_target(1, None), 4);
    assert_eq!(doc.cursor_down_target(5, None), 9);
    assert_eq!(doc.cursor_down_target(0, None), 1);
    let last = Document::with_text("ab\ncd".to_string(), 4);
    assert_eq!(last.cursor_down_target(3, None), 4);
}

#[test]
fn test_valid_config_binds_each_key_once() {
    let mut config = ReplConfig::default();
    config.key_bindings = vec![
        KeyBinding { key: Key::ControlX, action: KeyAction::Exit },
        KeyBinding { key: Key::ControlY, action: KeyAction::ClearLine },
        KeyBinding { key: Key::ControlX, action: KeyAction::Execute },
    ];
    assert!(validate_config(&config).is_err());
    config.key_bindings.pop();
    assert!(validate_config(&config).is_ok());
}

#[test]
fn test_filter_output_controls() {
    let input = "a\x07b\x08c\td\ne\rf\x01g\x7fh";
    let mut remove = SafeTextFilter::new(SanitizationPolicy::RemoveAll);
    assert_eq!(remove.filter(input), "abc\td\ne\rfgh");
    let mut basic = SafeTextFilter::new(SanitizationPolicy::AllowBasicFormatting);
    assert_eq!(basic.filter(input), "a\x07b\x08c\td\ne\rfgh");
    let mut escape = SafeTextFilter::new(SanitizationPolicy::EscapeAll);
    assert!(!escape.filter(input).chars().any(|c| (c as u32) < 0x20 || c as u32 == 0x7f));
}

#[test]
fn test_margin_is_longest_blank_run() {
    let doc = Document::with_text("  \t x = 1".to_string(), 7);
    assert_eq!(doc.leading_whitespace_in_current_line(), "  \t ");
    let mut b = Buffer::new();
    b.insert_text("    indented line", false, true);
    b.set_cursor_position(16);
    b.new_line(true);
    assert_eq!(b.text(), "    indented lin\n    e");
    assert_eq!(b.cursor_position(), 21);
}

#[test]
fn test_word_boundaries_within_text() {
    let doc = Document::with_text("hello world".to_string(), 8);
    let before = doc.find_start_of_previous_word();
    let after = doc.find_end_of_current_word();
    assert!(before <= 8);
    assert!(after <= 11 - 8);
}

#[test]
fn test_wrapped_lines_rebuild_text() {
    let mut renderer = Renderer::new(MockConsoleOutput::new(), ">>> ".to_string());
    renderer.update_window_size(10, 5);
    let text = "abcdefghijklmnopqrstuvwxyz 中文字";
    let (first, lines) = renderer.handle_line_wrapping(text).unwrap();
    assert!(lines.len() > 1);
    assert_eq!(first, lines[0]);
    assert_eq!(lines.concat(), text);
    assert!(lines.iter().all(|l| !l.is_empty()));
}

#[test]
fn test_line_starts_are_prefix_sums() {
    let doc = Document::with_text("ab\n\nxyz\nq".to_string(), 0);
    let starts = doc.line_start_indexes();
    let lines = doc.lines();
    assert_eq!(starts, vec![0, 3, 4, 8]);
    for k in 0..starts.len() - 1 {
        assert_eq!(starts[k + 1], starts[k] + lines[k].chars().count() + 1);
    }
}

#[test]
fn test_feed_in_pieces() {
    let input: &[u8] = b"\x03ab\x1b[1;5C\x1b[200~paste\x1b[201~\x1b[24;80R\x1b[<0;1;1M\x1bOPz";
    let mut whole = KeyParser::new();
    let all = whole.feed(input);
    for split in 0..=input.len() {
        let mut parser = KeyParser::new();
        let mut events = parser.feed(&input[..split]);
        events.extend(parser.feed(&input[split..]));
        assert_eq!(events, all);
        assert_eq!(parser.state(), whole.state());
    }
    assert_eq!(all.len(), 9);
}

#[test]
fn test_filter_output_no_longer() {
    for policy in [SanitizationPolicy::RemoveAll, SanitizationPolicy::RemoveDangerous, SanitizationPolicy::AllowBasicFormatting] {
        let mut f = SafeTextFilter::new(policy);
        let input = "Hello\x1b[31mRed\x1b[0mWorld\x01\x07é";
        let out = f.filter(input);
        assert!(out.chars().count() <= input.chars().count());
        assert!(out.chars().count() <= input.len());
    }
    let mut f = SafeTextFilter::new(SanitizationPolicy::RemoveDangerous);
    assert_eq!(f.filter("Hello\x1b[31mRed\x1b[0mWorld"), "HelloRedWorld");
}

#[test]
fn test_previous_word_start_and_current_word_end() {
    let doc = Document::with_text("hello world test".to_string(), 11);
    assert_eq!(doc.find_start_of_previous_word(), 5);
    let doc = Document::with_text("hello world   ".to_string(), 14);
    assert_eq!(doc.find_start_of_previous_word(), 8);
    assert_eq!(doc.find_start_of_previous_word_with_space(), 3);
    let doc = Document::with_text("   ".to_string(), 3);
    assert_eq!(doc.find_start_of_previous_word(), 0);
    let doc = Document::with_text("hello  world".to_string(), 0);
    assert_eq!(doc.find_end_of_current_word_with_space(), 7);
    assert_eq!(doc.find_end_of_current_word(), 5);
    let doc = Document::with_text("hello  world".to_string(), 5);
    assert_eq!(doc.find_end_of_current_word(), 7);
}

#[test]
fn test_default_bindings_are_eleven_distinct() {
    let handler = KeyHandler::default();
    let defaults = handler.default_bindings();
    assert_eq!(defaults.len(), 11);
    for i in 0..defaults.len() {
        for j in i + 1..defaults.len() {
            assert_ne!(defaults[i].key, defaults[j].key);
        }
    }
    assert!(!handler.has_binding(Key::ControlX));
}

#[test]
fn test_validated_edits_keep_the_rest_of_the_buffer() {
    let mut b = Buffer::new();
    b.insert_text("hello", false, true);
    b.set_cursor_position(2);
    b.set_preferred_column(Some(4));
    b.set_last_key_stroke(Key::ControlA);
    assert_eq!(b.delete_validated(2).unwrap(), "ll");
    assert_eq!(b.text(), "heo");
    assert_eq!(b.preferred_column(), Some(4));
    assert_eq!(b.last_key_stroke(), Some(Key::ControlA));
    assert_eq!(b.delete_before_cursor_validated(1).unwrap(), "e");
    b.insert_text_validated("EE", false, true).unwrap();
    assert_eq!(b.text(), "hEEo");
    assert_eq!(b.cursor_position(), 3);
    assert_eq!(b.preferred_column(), Some(4));
    assert_eq!(b.last_key_stroke(), Some(Key::ControlA));
    assert_eq!(b.working_index(), 0);
}
