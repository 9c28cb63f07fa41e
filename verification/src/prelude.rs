//! The types most programs need, in one import.

pub use crate::buffer::Buffer;
pub use crate::completion::{Completor, NoCompleter, StaticCompleter};
pub use crate::console::{ClearType, Color, ConsoleError, ConsoleOutput, ConsoleResult, TextStyle};
pub use crate::document::Document;
pub use crate::error::{BufferError, BufferResult};
pub use crate::key::{Key, KeyEvent};
pub use crate::prompt::{Prompt, PromptBuilder, PromptError};
pub use crate::suggestion::Suggestion;
pub use crate::unicode::{display_width, rune_count, rune_slice};
