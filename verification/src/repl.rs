//! REPL configuration, key bindings, errors, and the decisions of the REPL
//! engine: which configurations are valid, which key does what, and what
//! the engine does with each event.

use vstd::prelude::*;
use vstd::string::*;
use crate::console::{ConsoleError, EventLoopError};
use crate::error::BufferError;
use crate::key::{key_debug_name, key_debug_spec, Key};
use crate::key_handler::{default_action, lookup};
use crate::text::{owned, push_str};
use crate::unicode::{is_control, is_control_spec, to_chars};

verus! {

broadcast use vstd::string::group_string_axioms;

/// Errors of REPL operations.
#[derive(Debug)]
pub enum ReplError {
    /// Console I/O error
    ConsoleError(ConsoleError),
    /// Configuration validation error
    ConfigurationError(String),
    /// Event loop error
    EventLoopError(String),
    /// Rendering error
    RenderError(String),
    /// Callback execution error
    CallbackError(String),
    /// Buffer operation error
    BufferError(BufferError),
    /// Key parsing error
    KeyParsingError(String),
    /// Terminal state error
    TerminalStateError(String),
}

impl ReplError {
    /// The human-readable message of this error.
    pub open spec fn message_spec(self) -> Seq<char> {
        match self {
            ReplError::ConsoleError(e) => "Console error: "@ + e.message_spec(),
            ReplError::ConfigurationError(m) => "Configuration error: "@ + m@,
            ReplError::EventLoopError(m) => "Event loop error: "@ + m@,
            ReplError::RenderError(m) => "Render error: "@ + m@,
            ReplError::CallbackError(m) => "Callback error: "@ + m@,
            ReplError::BufferError(e) => "Buffer error: "@ + e.message_spec(),
            ReplError::KeyParsingError(m) => "Key parsing error: "@ + m@,
            ReplError::TerminalStateError(m) => "Terminal state error: "@ + m@,
        }
    }

    /// The human-readable message of this error.
    pub fn to_string(&self) -> (s: String)
        ensures
            s@ == self.message_spec(),
    {
        let mut s = String::new();
        match self {
            ReplError::ConsoleError(e) => {
                push_str(&mut s, "Console error: ");
                let t = e.to_string();
                push_str(&mut s, t.as_str());
            },
            ReplError::ConfigurationError(m) => {
                push_str(&mut s, "Configuration error: ");
                push_str(&mut s, m.as_str());
            },
            ReplError::EventLoopError(m) => {
                push_str(&mut s, "Event loop error: ");
                push_str(&mut s, m.as_str());
            },
            ReplError::RenderError(m) => {
                push_str(&mut s, "Render error: ");
                push_str(&mut s, m.as_str());
            },
            ReplError::CallbackError(m) => {
                push_str(&mut s, "Callback error: ");
                push_str(&mut s, m.as_str());
            },
            ReplError::BufferError(e) => {
                push_str(&mut s, "Buffer error: ");
                let t = e.to_string();
                push_str(&mut s, t.as_str());
            },
            ReplError::KeyParsingError(m) => {
                push_str(&mut s, "Key parsing error: ");
                push_str(&mut s, m.as_str());
            },
            ReplError::TerminalStateError(m) => {
                push_str(&mut s, "Terminal state error: ");
                push_str(&mut s, m.as_str());
            },
        }
        s
    }
}

impl From<ConsoleError> for ReplError {
    fn from(err: ConsoleError) -> (e: Self) {
        ReplError::ConsoleError(err)
    }
}

impl vstd::std_specs::convert::FromSpecImpl<ConsoleError> for ReplError {
    open spec fn obeys_from_spec() -> bool {
        true
    }

    open spec fn from_spec(v: ConsoleError) -> Self {
        ReplError::ConsoleError(v)
    }
}

impl From<BufferError> for ReplError {
    fn from(err: BufferError) -> (e: Self) {
        ReplError::BufferError(err)
    }
}

impl vstd::std_specs::convert::FromSpecImpl<BufferError> for ReplError {
    open spec fn obeys_from_spec() -> bool {
        true
    }

    open spec fn from_spec(v: BufferError) -> Self {
        ReplError::BufferError(v)
    }
}

impl From<EventLoopError> for ReplError {
    /// An event loop error carrying the `{:?}` text of `err`.
    fn from(err: EventLoopError) -> (e: Self)
        ensures
            e matches ReplError::EventLoopError(m) && m@ == err.debug_spec(),
    {
        ReplError::EventLoopError(err.debug_string())
    }
}

impl vstd::std_specs::convert::FromSpecImpl<EventLoopError> for ReplError {
    /// The message is a fresh string, which no spec value names, so the
    /// conversion is described by the `ensures` of `from`.
    open spec fn obeys_from_spec() -> bool {
        false
    }

    open spec fn from_spec(v: EventLoopError) -> Self {
        choose|e: ReplError| #![trigger e.message_spec()] e matches ReplError::EventLoopError(m) && m@ == v.debug_spec()
    }
}

/// An editing or control action bound to a key.
#[derive(Debug, Clone, Copy, PartialEq, Eq, Structural)]
pub enum KeyAction {
    /// Move cursor left by specified number of characters
    MoveCursorLeft(usize),
    /// Move cursor right by specified number of characters
    MoveCursorRight(usize),
    /// Delete specified number of characters backward from cursor
    DeleteBackward(usize),
    /// Delete specified number of characters forward from cursor
    DeleteForward(usize),
    /// Move cursor to beginning of line
    MoveToBeginning,
    /// Move cursor to end of line
    MoveToEnd,
    /// Clear the current line
    ClearLine,
    /// Execute the current input
    Execute,
    /// Exit the REPL
    Exit,
    /// A user-defined action on the buffer, known by the id under which the
    /// caller keeps its function; the caller runs it (see
    /// `KeyResult::RunCustom`).
    Custom(u64),
}

/// A key and the action it triggers.
#[derive(Debug, Clone, Copy, PartialEq, Eq, Structural)]
pub struct KeyBinding {
    /// The key that triggers this binding
    pub key: Key,
    /// The action to perform when the key is pressed
    pub action: KeyAction,
}


/// REPL settings: the prompt, custom key bindings, and history and
/// multi-line options.
#[derive(Debug, Clone)]
pub struct ReplConfig {
    /// Prompt prefix to display before user input
    pub prompt: String,
    /// Custom key bindings for the REPL
    pub key_bindings: Vec<KeyBinding>,
    /// Whether to enable history support
    pub enable_history: bool,
    /// Maximum number of history entries to keep
    pub max_history_size: usize,
    /// Whether to enable multi-line input support
    pub enable_multiline: bool,
}

impl Default for ReplConfig {
    /// Prompt ">>> ", no custom bindings, history off with room for 1000
    /// entries, single-line input.
    fn default() -> (c: Self)
        ensures
            c.prompt@ == ">>> "@,
            c.key_bindings@.len() == 0,
            !c.enable_history,
            c.max_history_size == 1000,
            !c.enable_multiline,
    {
        ReplConfig {
            prompt: owned(">>> "),
            key_bindings: Vec::new(),
            enable_history: false,
            max_history_size: 1000,
            enable_multiline: false,
        }
    }
}

/// Whether the key of binding `j` is bound by an earlier binding too.
pub open spec fn bound_earlier(b: Seq<KeyBinding>, j: int) -> bool {
    exists|i: int| 0 <= i < j && b[i].key == b[j].key
}

/// The first index at or after `j` whose key an earlier binding has.
pub open spec fn first_duplicate_from(b: Seq<KeyBinding>, j: int) -> Option<int>
    decreases b.len() - j,
{
    if j < 0 || j >= b.len() {
        None
    } else if bound_earlier(b, j) {
        Some(j)
    } else {
        first_duplicate_from(b, j + 1)
    }
}

/// The first index whose key an earlier binding has.
pub open spec fn first_duplicate(b: Seq<KeyBinding>) -> Option<int> {
    first_duplicate_from(b, 0)
}

/// Whether the prompt holds a control character other than tab.
pub open spec fn has_bad_control(p: Seq<char>) -> bool {
    exists|i: int| 0 <= i < p.len() && is_control_spec(#[trigger] p[i]) && p[i] != '\t'
}

/// Why a configuration is refused, in the order the checks are made: an
/// empty prompt; a control character other than tab in the prompt; history
/// enabled with room for no entry; room for more than 100,000 entries; a
/// key bound twice. `None` when it is accepted.
pub open spec fn config_error(prompt: Seq<char>, bindings: Seq<KeyBinding>, enable_history: bool, max_history_size: usize) -> Option<Seq<char>> {
    if prompt.len() == 0 {
        Some("Prompt cannot be empty"@)
    } else if has_bad_control(prompt) {
        Some("Prompt cannot contain control characters (except tab)"@)
    } else if enable_history && max_history_size == 0 {
        Some("History size must be greater than 0 when history is enabled"@)
    } else if max_history_size > 100_000 {
        Some("History size cannot exceed 100,000 entries"@)
    } else {
        match first_duplicate(bindings) {
            Some(j) => Some("Duplicate key binding for key: "@ + key_debug_spec(bindings[j].key)),
            None => None,
        }
    }
}

/// Whether `r` is the verdict that `config_error` gives.
pub open spec fn verdict(r: Result<(), ReplError>, e: Option<Seq<char>>) -> bool {
    match e {
        None => r is Ok,
        Some(m) => r matches Err(ReplError::ConfigurationError(x)) && x@ == m,
    }
}

fn config_failure(msg: &str) -> (e: ReplError)
    ensures
        e matches ReplError::ConfigurationError(x) && x@ == msg@,
{
    ReplError::ConfigurationError(owned(msg))
}

/// The first index whose key occurs earlier in `b`.
fn find_duplicate(b: &Vec<KeyBinding>) -> (r: Option<usize>)
    ensures
        match r {
            Some(j) => j < b@.len() && first_duplicate(b@) == Some(j as int),
            None => first_duplicate(b@) is None,
        },
{
    let mut j: usize = 0;
    while j < b.len()
        invariant
            j <= b@.len(),
            first_duplicate(b@) == first_duplicate_from(b@, j as int),
        decreases b.len() - j,
    {
        let mut i: usize = 0;
        while i < j
            invariant
                i <= j < b@.len(),
                first_duplicate(b@) == first_duplicate_from(b@, j as int),
                forall|k: int| 0 <= k < i ==> b@[k].key != b@[j as int].key,
            decreases j - i,
        {
            if b[i].key == b[j].key {
                assert(bound_earlier(b@, j as int));
                return Some(j);
            }
            i = i + 1;
        }
        assert(!bound_earlier(b@, j as int));
        j = j + 1;
    }
    None
}

/// Whether `chars` holds a control character other than tab.
fn find_bad_control(chars: &Vec<char>) -> (r: bool)
    ensures
        r == has_bad_control(chars@),
{
    let mut i: usize = 0;
    while i < chars.len()
        invariant
            i <= chars@.len(),
            forall|k: int| 0 <= k < i ==> !(is_control_spec(#[trigger] chars@[k]) && chars@[k] != '\t'),
        decreases chars.len() - i,
    {
        if is_control(chars[i]) && chars[i] != '\t' {
            assert(is_control_spec(chars@[i as int]));
            return true;
        }
        i = i + 1;
    }
    false
}

/// Checks a configuration: `Ok` exactly when `config_error` finds nothing,
/// otherwise the configuration error it names.
pub fn validate_config(config: &ReplConfig) -> (r: Result<(), ReplError>)
    ensures
        verdict(r, config_error(config.prompt@, config.key_bindings@, config.enable_history, config.max_history_size)),
{
    let chars = to_chars(config.prompt.as_str());
    if chars.len() == 0 {
        return Err(config_failure("Prompt cannot be empty"));
    }
    if find_bad_control(&chars) {
        return Err(config_failure("Prompt cannot contain control characters (except tab)"));
    }
    if config.enable_history && config.max_history_size == 0 {
        return Err(config_failure("History size must be greater than 0 when history is enabled"));
    }
    if config.max_history_size > 100_000 {
        return Err(config_failure("History size cannot exceed 100,000 entries"));
    }
    match find_duplicate(&config.key_bindings) {
        Some(j) => {
            let mut m = owned("Duplicate key binding for key: ");
            push_str(&mut m, key_debug_name(config.key_bindings[j].key));
            Err(ReplError::ConfigurationError(m))
        },
        None => Ok(()),
    }
}

/// The bindings a REPL starts with: Ctrl+A and Home to the line start,
/// Ctrl+E and End to its end, Ctrl+C clears, Ctrl+D exits, the arrows
/// move, Backspace and Delete delete, Enter executes.
pub fn create_default_key_bindings() -> (v: Vec<KeyBinding>)
    ensures
        v@ == seq![
            KeyBinding { key: Key::ControlA, action: KeyAction::MoveToBeginning },
            KeyBinding { key: Key::ControlE, action: KeyAction::MoveToEnd },
            KeyBinding { key: Key::ControlC, action: KeyAction::ClearLine },
            KeyBinding { key: Key::ControlD, action: KeyAction::Exit },
            KeyBinding { key: Key::Home, action: KeyAction::MoveToBeginning },
            KeyBinding { key: Key::End, action: KeyAction::MoveToEnd },
            KeyBinding { key: Key::Left, action: KeyAction::MoveCursorLeft(1) },
            KeyBinding { key: Key::Right, action: KeyAction::MoveCursorRight(1) },
            KeyBinding { key: Key::Backspace, action: KeyAction::DeleteBackward(1) },
            KeyBinding { key: Key::Delete, action: KeyAction::DeleteForward(1) },
            KeyBinding { key: Key::Enter, action: KeyAction::Execute },
        ],
        forall|k: Key| #[trigger] lookup(v@, k) == default_action(k),
{
    let v = vec![
        KeyBinding { key: Key::ControlA, action: KeyAction::MoveToBeginning },
        KeyBinding { key: Key::ControlE, action: KeyAction::MoveToEnd },
        KeyBinding { key: Key::ControlC, action: KeyAction::ClearLine },
        KeyBinding { key: Key::ControlD, action: KeyAction::Exit },
        KeyBinding { key: Key::Home, action: KeyAction::MoveToBeginning },
        KeyBinding { key: Key::End, action: KeyAction::MoveToEnd },
        KeyBinding { key: Key::Left, action: KeyAction::MoveCursorLeft(1) },
        KeyBinding { key: Key::Right, action: KeyAction::MoveCursorRight(1) },
        KeyBinding { key: Key::Backspace, action: KeyAction::DeleteBackward(1) },
        KeyBinding { key: Key::Delete, action: KeyAction::DeleteForward(1) },
        KeyBinding { key: Key::Enter, action: KeyAction::Execute },
    ];
    assert forall|k: Key| #[trigger] lookup(v@, k) == default_action(k) by {
        reveal_with_fuel(lookup, 12);
    }
    v
}

/// The bindings in effect for a configuration: the defaults, then the
/// configuration's own, which replace a default of the same key.
pub fn build_key_binding_map(config: &ReplConfig) -> (v: Vec<KeyBinding>)
    ensures
        forall|k: Key| #[trigger] lookup(v@, k) == match lookup(config.key_bindings@, k) {
            Some(a) => Some(a),
            None => default_action(k),
        },
{
    let mut v = create_default_key_bindings();
    let ghost d = v@;
    let mut i: usize = 0;
    while i < config.key_bindings.len()
        invariant
            i <= config.key_bindings@.len(),
            v@ == d + config.key_bindings@.take(i as int),
            forall|k: Key| #[trigger] lookup(d, k) == default_action(k),
        decreases config.key_bindings.len() - i,
    {
        v.push(config.key_bindings[i]);
        assert(v@ =~= d + config.key_bindings@.take(i + 1));
        i = i + 1;
    }
    assert(config.key_bindings@.take(i as int) =~= config.key_bindings@);
    proof {
        assert forall|k: Key| #[trigger] lookup(v@, k) == match lookup(config.key_bindings@, k) {
            Some(a) => Some(a),
            None => default_action(k),
        } by {
            lemma_lookup_append(d, config.key_bindings@, k);
        }
    }
    v
}

/// Looking up in a concatenation finds the second part's binding first.
pub proof fn lemma_lookup_append(a: Seq<KeyBinding>, b: Seq<KeyBinding>, k: Key)
    ensures
        lookup(a + b, k) == match lookup(b, k) {
            Some(x) => Some(x),
            None => lookup(a, k),
        },
    decreases b.len(),
{
    if b.len() == 0 {
        assert(a + b =~= a);
    } else {
        assert((a + b).drop_last() =~= a + b.drop_last());
        lemma_lookup_append(a, b.drop_last(), k);
    }
}

} // verus!
