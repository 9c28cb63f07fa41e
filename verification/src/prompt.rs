//! The prompt: a prefix, an input buffer and an optional completer, built
//! with a builder.

use vstd::prelude::*;
use vstd::string::*;
use crate::buffer::{insert_spec, Buffer, BufferView};
use crate::completion::{Completor, NoCompleter};
use crate::document::{min_int, Document, DocumentView};
use crate::error::BufferError;
use crate::suggestion::{IntoText, Suggestion};
use crate::console::io_error_text;
use crate::text::{owned, push_str};

verus! {

broadcast use vstd::string::group_string_axioms;

/// Errors of prompt operations.
#[derive(Debug)]
pub enum PromptError {
    /// The user interrupted the prompt (Ctrl+C).
    Interrupted,
    /// An I/O error occurred.
    IoError(String),
    /// The prompt configuration is invalid.
    InvalidConfiguration(String),
    /// A buffer operation failed.
    BufferError(BufferError),
}

impl Clone for PromptError {
    fn clone(&self) -> (e: Self)
        ensures
            e == *self,
    {
        match self {
            PromptError::Interrupted => PromptError::Interrupted,
            PromptError::IoError(m) => PromptError::IoError(m.clone()),
            PromptError::InvalidConfiguration(m) => PromptError::InvalidConfiguration(m.clone()),
            PromptError::BufferError(b) => PromptError::BufferError(b.clone()),
        }
    }
}

impl PromptError {
    /// The human-readable message of this error.
    pub open spec fn message_spec(self) -> Seq<char> {
        match self {
            PromptError::Interrupted => "Prompt was interrupted"@,
            PromptError::IoError(m) => "I/O error: "@ + m@,
            PromptError::InvalidConfiguration(m) => "Invalid configuration: "@ + m@,
            PromptError::BufferError(b) => "Buffer error: "@ + b.message_spec(),
        }
    }

    /// The human-readable message of this error.
    pub fn to_string(&self) -> (s: String)
        ensures
            s@ == self.message_spec(),
    {
        let mut s = String::new();
        match self {
            PromptError::Interrupted => push_str(&mut s, "Prompt was interrupted"),
            PromptError::IoError(m) => {
                push_str(&mut s, "I/O error: ");
                push_str(&mut s, m.as_str());
            },
            PromptError::InvalidConfiguration(m) => {
                push_str(&mut s, "Invalid configuration: ");
                push_str(&mut s, m.as_str());
            },
            PromptError::BufferError(b) => {
                push_str(&mut s, "Buffer error: ");
                let t = b.to_string();
                push_str(&mut s, t.as_str());
            },
        }
        s
    }
}

impl From<BufferError> for PromptError {
    fn from(err: BufferError) -> (e: Self) {
        PromptError::BufferError(err)
    }
}

impl vstd::std_specs::convert::FromSpecImpl<BufferError> for PromptError {
    open spec fn obeys_from_spec() -> bool {
        true
    }

    open spec fn from_spec(v: BufferError) -> Self {
        PromptError::BufferError(v)
    }
}

impl From<std::io::Error> for PromptError {
    /// An I/O error carrying the error's text.
    fn from(err: std::io::Error) -> (e: Self)
        ensures
            e is IoError,
    {
        PromptError::IoError(io_error_text(&err))
    }
}

impl vstd::std_specs::convert::FromSpecImpl<std::io::Error> for PromptError {
    /// The text of an I/O error is not known to contracts.
    open spec fn obeys_from_spec() -> bool {
        false
    }

    open spec fn from_spec(v: std::io::Error) -> Self {
        choose|e: PromptError| #![trigger e.message_spec()] e is IoError
    }
}

/// Result type for prompt operations.
pub type PromptResult<T> = Result<T, PromptError>;

/// An interactive prompt: prefix, input buffer, and completer.
pub struct Prompt<C> {
    prefix: String,
    completer: Option<C>,
    buffer: Buffer,
}

/// A builder of prompts.
pub struct PromptBuilder<C> {
    prefix: String,
    completer: Option<C>,
}

impl Prompt<NoCompleter> {
    /// A builder with the default settings.
    pub fn builder() -> (b: PromptBuilder<NoCompleter>)
        ensures
            b.prefix_spec() == "> "@,
            b.completer_spec() is None,
    {
        PromptBuilder::new()
    }
}

impl<C: Completor> Prompt<C> {
    /// The prefix shown before the input.
    pub closed spec fn prefix_spec(&self) -> Seq<char> {
        self.prefix@
    }

    /// The completer, if one was given.
    pub closed spec fn completer_spec(&self) -> Option<C> {
        self.completer
    }

    /// The input buffer.
    pub closed spec fn buffer_spec(&self) -> BufferView {
        self.buffer@
    }

    /// The input buffer is well formed.
    pub closed spec fn wf(&self) -> bool {
        self.buffer.wf()
    }

    /// The text of the input.
    pub closed spec fn text_spec(&self) -> Seq<char> {
        self.buffer.text_spec()
    }

    /// The document of the input: its text, the cursor within it, no key.
    pub open spec fn document_spec(&self) -> DocumentView {
        DocumentView {
            text: self.text_spec(),
            cursor: min_int(self.buffer_spec().cursor as int, self.text_spec().len() as int) as nat,
            last_key: None,
        }
    }

    /// The prefix.
    pub fn prefix(&self) -> (r: &str)
        ensures
            r@ == self.prefix_spec(),
    {
        self.prefix.as_str()
    }

    /// The current input as a document.
    pub fn document(&self) -> (d: Document)
        requires
            self.wf(),
        ensures
            d@ == self.document_spec(),
    {
        Document::with_text(owned(self.buffer.text()), self.buffer.cursor_position())
    }

    /// The completer's suggestions for the current input; none without a
    /// completer.
    pub fn get_completions(&self) -> (r: Vec<Suggestion>)
        requires
            self.wf(),
            self.completer_spec() matches Some(c) ==> forall|d: &Document| #[trigger] c.can_complete(d),
        ensures
            self.completer_spec() is None ==> r@.len() == 0,
            self.completer_spec() matches Some(c) ==> exists|d: &Document|
                (*d)@ == self.document_spec() && #[trigger] c.completes_to(d, r),
    {
        match &self.completer {
            Some(c) => {
                let d = self.document();
                let r = c.complete(&d);
                assert(c.completes_to(&d, r));
                r
            },
            None => Vec::new(),
        }
    }

    /// Inserts text at the cursor and moves the cursor past it.
    pub fn insert_text(&mut self, text: &str) -> (r: PromptResult<()>)
        requires
            old(self).wf(),
            old(self).text_spec().len() + text@.len() <= usize::MAX,
        ensures
            r is Ok,
            final(self).wf(),
            final(self).text_spec() == insert_spec(old(self).text_spec(), old(self).buffer_spec().cursor as int, text@, false),
            final(self).buffer_spec().cursor == min_int(old(self).buffer_spec().cursor as int, old(self).text_spec().len() as int) + text@.len(),
            final(self).prefix_spec() == old(self).prefix_spec(),
            final(self).completer_spec() == old(self).completer_spec(),
    {
        self.buffer.insert_text(text, false, true);
        Ok(())
    }

    /// Empties the input; the cursor goes to the start.
    pub fn clear(&mut self)
        requires
            old(self).wf(),
        ensures
            final(self).wf(),
            final(self).text_spec() == Seq::<char>::empty(),
            final(self).buffer_spec().cursor == 0,
            final(self).prefix_spec() == old(self).prefix_spec(),
            final(self).completer_spec() == old(self).completer_spec(),
    {
        self.buffer.set_text(String::new());
    }

    /// The input buffer, for editing beyond insertion.
    pub fn buffer_mut(&mut self) -> (b: &mut Buffer)
        requires
            old(self).wf(),
        ensures
            b.wf(),
            (*b)@ == old(self).buffer_spec(),
            final(self).buffer_spec() == (*final(b))@,
            final(self).wf() == final(b).wf(),
            final(self).prefix_spec() == old(self).prefix_spec(),
            final(self).completer_spec() == old(self).completer_spec(),
    {
        &mut self.buffer
    }

    /// Reading a line interactively is not available on a bare prompt: it
    /// always answers with an invalid-configuration error.
    pub fn input(&mut self) -> (r: PromptResult<String>)
        ensures
            r matches Err(PromptError::InvalidConfiguration(m))
                && m@ == "Input loop not yet implemented - will be added in Phase 4"@,
            *final(self) == *old(self),
    {
        Err(PromptError::InvalidConfiguration(owned("Input loop not yet implemented - will be added in Phase 4")))
    }
}

impl PromptBuilder<NoCompleter> {
    /// Prefix "> ", no completer.
    pub fn new() -> (b: Self)
        ensures
            b.prefix_spec() == "> "@,
            b.completer_spec() is None,
    {
        PromptBuilder { prefix: owned("> "), completer: None }
    }
}

impl<C: Completor> PromptBuilder<C> {
    /// The prefix that will be set.
    pub closed spec fn prefix_spec(&self) -> Seq<char> {
        self.prefix@
    }

    /// The completer that will be set.
    pub closed spec fn completer_spec(&self) -> Option<C> {
        self.completer
    }

    /// Sets the prefix shown before the input.
    pub fn with_prefix<S: IntoText>(self, prefix: S) -> (b: Self)
        ensures
            b.prefix_spec() == prefix.text_view(),
            b.completer_spec() == self.completer_spec(),
    {
        PromptBuilder { prefix: prefix.into_text(), completer: self.completer }
    }

    /// Sets the completer (a `StaticCompleter`, any type implementing
    /// `Completor`, or a closure from `&Document` to suggestions).
    pub fn with_completer<D: Completor>(self, completer: D) -> (b: PromptBuilder<D>)
        ensures
            b.prefix_spec() == self.prefix_spec(),
            b.completer_spec() == Some(completer),
    {
        PromptBuilder { prefix: self.prefix, completer: Some(completer) }
    }

    /// The prompt: this prefix and completer, an empty input.
    pub fn build(self) -> (r: PromptResult<Prompt<C>>)
        ensures
            r matches Ok(p) && p.wf() && p.prefix_spec() == self.prefix_spec()
                && p.completer_spec() == self.completer_spec()
                && p.text_spec() == Seq::<char>::empty() && p.buffer_spec().cursor == 0,
    {
        Ok(Prompt { prefix: self.prefix, completer: self.completer, buffer: Buffer::new() })
    }
}

impl Default for PromptBuilder<NoCompleter> {
    fn default() -> (b: Self)
        ensures
            b.prefix_spec() == "> "@,
            b.completer_spec() is None,
    {
        PromptBuilder::new()
    }
}

} // verus!
