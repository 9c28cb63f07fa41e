pub mod unicode;
pub mod key;
pub mod console_keys;
pub mod sequence_matcher;
pub mod key_parser;
pub mod text;
pub mod error;
pub mod scan;
pub mod document;
pub mod buffer;
pub mod console;
pub mod ansi;
pub mod mock;
pub mod vt;
pub mod suggestion;
pub mod completion;
pub mod prompt;
pub mod prelude;
pub mod repl;
pub mod renderer;
pub mod key_handler;
pub mod engine;
pub mod laws;
pub mod wasm_bridge;
