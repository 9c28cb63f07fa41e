use replkit::prelude::{Completor, Document, StaticCompleter, Suggestion};


#[test]
fn test_suggestion_from_prelude() {
    // Test that Suggestion can be created using types from prelude
    let suggestion = Suggestion::new("users", "Store user data");
    assert_eq!(suggestion.text, "users");
    assert_eq!(suggestion.description, "Store user data");
}

#[test]
fn test_document_from_prelude() {
    // Test that Document can be used through prelude
    let doc = Document::with_text("hello world".to_string(), 5);
    assert_eq!(doc.text(), "hello world");
    assert_eq!(doc.cursor_position(), 5);
}

#[test]
fn test_completion_from_prelude() {
    // Test that Completor trait and StaticCompleter are available through prelude
    let completer = StaticCompleter::from_strings(vec!["hello", "help", "history"]);
    let doc = Document::with_text("he".to_string(), 2);
    let suggestions = completer.complete(&doc);
    assert_eq!(suggestions.len(), 2);
    
    // Test function-based completer
    let func_completer = |document: &Document| -> Vec<Suggestion> {
        if document.text().starts_with("test") {
            vec![Suggestion::new("testing", "Run tests")]
        } else {
            vec![]
        }
    };
    
    let test_doc = Document::with_text("test".to_string(), 4);
    let test_suggestions = func_completer.complete(&test_doc);
    assert_eq!(test_suggestions.len(), 1);
    assert_eq!(test_suggestions[0].text, "testing");
}
