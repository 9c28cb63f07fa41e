//! Console output abstraction and the types it speaks in: styles, colors,
//! clear types, capabilities, errors, and the filter that makes text safe to
//! print on a terminal.

use vstd::prelude::*;
use vstd::string::*;
use crate::text::{decimal_spec, owned, push_char, push_decimal, push_str};
use crate::unicode::to_chars;

verus! {

broadcast use vstd::string::group_string_axioms;

/// A request made of a console output.
pub enum ConsoleRequest {
    WriteText(Seq<char>),
    WriteStyledText(Seq<char>, TextStyle),
    WriteSafeText(Seq<char>),
    MoveCursorTo(u16, u16),
    MoveCursorRelative(i16, i16),
    Clear(ClearType),
    SetStyle(TextStyle),
    ResetStyle,
    Flush,
    SetAlternateScreen(bool),
    SetCursorVisible(bool),
}

/// Cross-platform console output interface.
///
/// Positions are zero-based (row, column); implementations translate them
/// to the one-based coordinates of ANSI sequences. Every call that acts on
/// the terminal is recorded, in order, in `requests`, whether it succeeds
/// or not.
pub trait ConsoleOutput {
    /// Whether this type keeps the record of `requests`. The outputs of
    /// this library do; an output defined elsewhere keeps the default and
    /// promises nothing about its record.
    open spec fn records_requests(&self) -> bool {
        false
    }

    /// The requests made of this output so far, oldest first.
    open spec fn requests(&self) -> Seq<ConsoleRequest> {
        Seq::empty()
    }

    /// Whether every request to this output succeeds. The outputs of this
    /// library that only record or queue never fail; an output defined
    /// elsewhere keeps the default and promises nothing.
    open spec fn never_fails(&self) -> bool {
        false
    }

    /// Whether `r` is an answer this output gives when asked for the cursor
    /// position. An output defined elsewhere keeps the default, which allows
    /// any answer.
    open spec fn cursor_answer(&self, r: ConsoleResult<(u16, u16)>) -> bool {
        true
    }

    /// Whether `c` are the capabilities this output reports. An output
    /// defined elsewhere keeps the default, which allows any report.
    open spec fn reports_capabilities(&self, c: OutputCapabilities) -> bool {
        true
    }

    /// Write text at the current cursor position.
    fn write_text(&mut self, text: &str) -> (r: ConsoleResult<()>)
        ensures
            old(self).records_requests() ==> final(self).records_requests() && final(self).requests() == old(self).requests().push(ConsoleRequest::WriteText(text@)),
            old(self).never_fails() ==> r is Ok && final(self).never_fails(),
    ;

    /// Write text with a specific style.
    fn write_styled_text(&mut self, text: &str, style: &TextStyle) -> (r: ConsoleResult<()>)
        ensures
            old(self).records_requests() ==> final(self).records_requests() && final(self).requests() == old(self).requests().push(ConsoleRequest::WriteStyledText(text@, *style)),
            old(self).never_fails() ==> r is Ok && final(self).never_fails(),
    ;

    /// Write text with its control sequences removed or escaped.
    fn write_safe_text(&mut self, text: &str) -> (r: ConsoleResult<()>)
        ensures
            old(self).records_requests() ==> final(self).records_requests() && final(self).requests() == old(self).requests().push(ConsoleRequest::WriteSafeText(text@)),
            old(self).never_fails() ==> r is Ok && final(self).never_fails(),
    ;

    /// Move the cursor to (row, col).
    fn move_cursor_to(&mut self, row: u16, col: u16) -> (r: ConsoleResult<()>)
        ensures
            old(self).records_requests() ==> final(self).records_requests() && final(self).requests() == old(self).requests().push(ConsoleRequest::MoveCursorTo(row, col)),
            old(self).never_fails() ==> r is Ok && final(self).never_fails(),
    ;

    /// Move the cursor relative to its current position.
    fn move_cursor_relative(&mut self, row_delta: i16, col_delta: i16) -> (r: ConsoleResult<()>)
        ensures
            old(self).records_requests() ==> final(self).records_requests() && final(self).requests() == old(self).requests().push(ConsoleRequest::MoveCursorRelative(row_delta, col_delta)),
            old(self).never_fails() ==> r is Ok && final(self).never_fails(),
    ;

    /// Clear the screen or part of it.
    fn clear(&mut self, clear_type: ClearType) -> (r: ConsoleResult<()>)
        ensures
            old(self).records_requests() ==> final(self).records_requests() && final(self).requests() == old(self).requests().push(ConsoleRequest::Clear(clear_type)),
            old(self).never_fails() ==> r is Ok && final(self).never_fails(),
    ;

    /// Set the style of subsequent writes.
    fn set_style(&mut self, style: &TextStyle) -> (r: ConsoleResult<()>)
        ensures
            old(self).records_requests() ==> final(self).records_requests() && final(self).requests() == old(self).requests().push(ConsoleRequest::SetStyle(*style)),
            old(self).never_fails() ==> r is Ok && final(self).never_fails(),
    ;

    /// Reset all styling to the default.
    fn reset_style(&mut self) -> (r: ConsoleResult<()>)
        ensures
            old(self).records_requests() ==> final(self).records_requests() && final(self).requests() == old(self).requests().push(ConsoleRequest::ResetStyle),
            old(self).never_fails() ==> r is Ok && final(self).never_fails(),
    ;

    /// Flush buffered output to the terminal.
    fn flush(&mut self) -> (r: ConsoleResult<()>)
        ensures
            old(self).records_requests() ==> final(self).records_requests() && final(self).requests() == old(self).requests().push(ConsoleRequest::Flush),
            old(self).never_fails() ==> r is Ok && final(self).never_fails(),
    ;

    /// Enable or disable the alternate screen buffer.
    fn set_alternate_screen(&mut self, enabled: bool) -> (r: ConsoleResult<()>)
        ensures
            old(self).records_requests() ==> final(self).records_requests() && final(self).requests() == old(self).requests().push(ConsoleRequest::SetAlternateScreen(enabled)),
            old(self).never_fails() ==> r is Ok && final(self).never_fails(),
    ;

    /// Show or hide the cursor.
    fn set_cursor_visible(&mut self, visible: bool) -> (r: ConsoleResult<()>)
        ensures
            old(self).records_requests() ==> final(self).records_requests() && final(self).requests() == old(self).requests().push(ConsoleRequest::SetCursorVisible(visible)),
            old(self).never_fails() ==> r is Ok && final(self).never_fails(),
    ;

    /// The current cursor position (row, col).
    fn get_cursor_position(&mut self) -> (r: ConsoleResult<(u16, u16)>)
        ensures
            old(self).records_requests() ==> final(self).records_requests() && final(self).requests() == old(self).requests(),
            old(self).never_fails() ==> r is Ok && final(self).never_fails(),
            old(self).cursor_answer(r),
    ;

    /// The output capabilities.
    fn get_capabilities(&self) -> (c: OutputCapabilities)
        ensures
            self.reports_capabilities(c),
    ;
}

/// A boxed output is an output: every call goes to the box's content.
impl<T: ConsoleOutput> ConsoleOutput for Box<T> {
    open spec fn records_requests(&self) -> bool {
        (**self).records_requests()
    }

    open spec fn requests(&self) -> Seq<ConsoleRequest> {
        (**self).requests()
    }

    /// The boxed output's.
    open spec fn never_fails(&self) -> bool {
        (**self).never_fails()
    }

    /// The boxed output's answer.
    open spec fn cursor_answer(&self, r: ConsoleResult<(u16, u16)>) -> bool {
        (**self).cursor_answer(r)
    }

    /// The boxed output's report.
    open spec fn reports_capabilities(&self, c: OutputCapabilities) -> bool {
        (**self).reports_capabilities(c)
    }

    fn write_text(&mut self, text: &str) -> ConsoleResult<()> {
        (**self).write_text(text)
    }

    fn write_styled_text(&mut self, text: &str, style: &TextStyle) -> ConsoleResult<()> {
        (**self).write_styled_text(text, style)
    }

    fn write_safe_text(&mut self, text: &str) -> ConsoleResult<()> {
        (**self).write_safe_text(text)
    }

    fn move_cursor_to(&mut self, row: u16, col: u16) -> ConsoleResult<()> {
        (**self).move_cursor_to(row, col)
    }

    fn move_cursor_relative(&mut self, row_delta: i16, col_delta: i16) -> ConsoleResult<()> {
        (**self).move_cursor_relative(row_delta, col_delta)
    }

    fn clear(&mut self, clear_type: ClearType) -> ConsoleResult<()> {
        (**self).clear(clear_type)
    }

    fn set_style(&mut self, style: &TextStyle) -> ConsoleResult<()> {
        (**self).set_style(style)
    }

    fn reset_style(&mut self) -> ConsoleResult<()> {
        (**self).reset_style()
    }

    fn flush(&mut self) -> ConsoleResult<()> {
        (**self).flush()
    }

    fn set_alternate_screen(&mut self, enabled: bool) -> ConsoleResult<()> {
        (**self).set_alternate_screen(enabled)
    }

    fn set_cursor_visible(&mut self, visible: bool) -> ConsoleResult<()> {
        (**self).set_cursor_visible(visible)
    }

    fn get_cursor_position(&mut self) -> ConsoleResult<(u16, u16)> {
        (**self).get_cursor_position()
    }

    fn get_capabilities(&self) -> OutputCapabilities {
        (**self).get_capabilities()
    }
}

/// Platform capabilities of a console input.
#[derive(Debug, Clone)]
pub struct ConsoleCapabilities {
    pub supports_raw_mode: bool,
    pub supports_resize_events: bool,
    pub supports_bracketed_paste: bool,
    pub supports_mouse_events: bool,
    pub supports_unicode: bool,
    pub platform_name: String,
    pub backend_type: BackendType,
}

/// Capabilities of a console output.
#[derive(Debug, Clone)]
pub struct OutputCapabilities {
    pub supports_colors: bool,
    /// True color (24-bit RGB) support
    pub supports_true_color: bool,
    pub supports_styling: bool,
    pub supports_alternate_screen: bool,
    pub supports_cursor_control: bool,
    pub max_colors: u16,
    pub platform_name: String,
    pub backend_type: BackendType,
}

/// Backend implementation type.
#[derive(Debug, Clone, PartialEq)]
pub enum BackendType {
    UnixVt,
    WindowsVt,
    WindowsLegacy,
    WasmBridge,
    Mock,
}

/// Text styling configuration.
#[derive(Debug, PartialEq)]
pub struct TextStyle {
    pub foreground: Option<Color>,
    pub background: Option<Color>,
    pub bold: bool,
    pub italic: bool,
    pub underline: bool,
    pub strikethrough: bool,
    pub dim: bool,
    pub reverse: bool,
}

impl TextStyle {
    /// The default style: no colors, no attributes.
    pub open spec fn plain() -> TextStyle {
        TextStyle {
            foreground: None,
            background: None,
            bold: false,
            italic: false,
            underline: false,
            strikethrough: false,
            dim: false,
            reverse: false,
        }
    }
}

impl Default for TextStyle {
    fn default() -> (s: Self)
        ensures
            s == TextStyle::plain(),
    {
        TextStyle {
            foreground: None,
            background: None,
            bold: false,
            italic: false,
            underline: false,
            strikethrough: false,
            dim: false,
            reverse: false,
        }
    }
}

impl Clone for TextStyle {
    fn clone(&self) -> (s: Self)
        ensures
            s == *self,
    {
        TextStyle {
            foreground: self.foreground,
            background: self.background,
            bold: self.bold,
            italic: self.italic,
            underline: self.underline,
            strikethrough: self.strikethrough,
            dim: self.dim,
            reverse: self.reverse,
        }
    }
}

/// Color of text or background.
#[derive(Debug, Clone, Copy, PartialEq)]
pub enum Color {
    Black,
    Red,
    Green,
    Yellow,
    Blue,
    Magenta,
    Cyan,
    White,
    BrightBlack,
    BrightRed,
    BrightGreen,
    BrightYellow,
    BrightBlue,
    BrightMagenta,
    BrightCyan,
    BrightWhite,
    Rgb(u8, u8, u8),
    Ansi256(u8),
}

/// Screen clearing options.
#[derive(Debug, Clone, Copy, PartialEq)]
pub enum ClearType {
    /// Clear entire screen
    All,
    /// Clear from cursor to end of screen
    FromCursor,
    /// Clear from beginning of screen to cursor
    ToCursor,
    /// Clear current line
    CurrentLine,
    /// Clear from cursor to end of line
    FromCursorToEndOfLine,
    /// Clear from beginning of line to cursor
    FromBeginningOfLineToCursor,
}

/// Console operation errors.
#[derive(Debug, Clone)]
pub enum ConsoleError {
    /// Platform-specific I/O error
    IoError(String),
    /// Feature not supported on this platform
    UnsupportedFeature { feature: String, platform: String },
    /// Event loop state error
    EventLoopError(EventLoopError),
    /// Terminal setup/teardown error
    TerminalError(String),
    /// Thread management error
    ThreadError(String),
    /// Callback registration error
    CallbackError(String),
    /// WASM bridge communication error
    WasmBridgeError(String),
}

/// Event loop errors.
#[derive(Debug, Clone)]
pub enum EventLoopError {
    AlreadyRunning,
    NotRunning,
    StartupFailed(String),
    ShutdownTimeout,
    ThreadPanic(String),
}

#[verifier::external_type_specification]
#[verifier::external_body]
pub struct ExIoError(std::io::Error);

/// `ToString::to_string` on an I/O error: its `Display` text, which for an
/// error from the system depends on the platform; nothing is stated of it.
#[verifier::external_body]
pub(crate) fn io_error_text(err: &std::io::Error) -> String {
    err.to_string()
}

/// An I/O error as a console error carrying the error's text.
pub fn io_error_to_console_error(e: std::io::Error) -> (r: ConsoleError)
    ensures
        r is IoError,
{
    ConsoleError::IoError(io_error_text(&e))
}

/// Result type for console operations.
pub type ConsoleResult<T> = Result<T, ConsoleError>;

/// A string literal as Rust's `Debug` writes it, with quotes, backslashes,
/// newlines, carriage returns and tabs escaped.
pub open spec fn quoted_spec(s: Seq<char>) -> Seq<char>
    decreases s.len(),
{
    if s.len() == 0 {
        seq!['"']
    } else {
        let c = s[0];
        let e = if c == '"' {
            seq!['\\', '"']
        } else if c == '\\' {
            seq!['\\', '\\']
        } else if c == '\n' {
            seq!['\\', 'n']
        } else if c == '\r' {
            seq!['\\', 'r']
        } else if c == '\t' {
            seq!['\\', 't']
        } else {
            seq![c]
        };
        e + quoted_spec(s.skip(1))
    }
}

/// Appends the escaped runes of `t` and a closing quote to `s`.
fn push_quoted_tail(s: &mut String, t: &Vec<char>, i: usize)
    requires
        i <= t@.len(),
    ensures
        final(s)@ == old(s)@ + quoted_spec(t@.skip(i as int)),
    decreases t@.len() - i,
{
    if i == t.len() {
        push_char(s, '"');
        assert(t@.skip(i as int).len() == 0);
        return;
    }
    let c = t[i];
    if c == '"' {
        push_char(s, '\\');
        push_char(s, '"');
    } else if c == '\\' {
        push_char(s, '\\');
        push_char(s, '\\');
    } else if c == '\n' {
        push_char(s, '\\');
        push_char(s, 'n');
    } else if c == '\r' {
        push_char(s, '\\');
        push_char(s, 'r');
    } else if c == '\t' {
        push_char(s, '\\');
        push_char(s, 't');
    } else {
        push_char(s, c);
    }
    let ghost mid = s@;
    push_quoted_tail(s, t, i + 1);
    assert(t@.skip(i as int).skip(1) =~= t@.skip(i + 1));
    assert(t@.skip(i as int)[0] == c);
}

/// Appends `t` as a quoted, escaped string literal to `s`.
pub fn push_quoted(s: &mut String, t: &str)
    ensures
        final(s)@ == old(s)@ + seq!['"'] + quoted_spec(t@),
{
    push_char(s, '"');
    let chars = crate::unicode::to_chars(t);
    push_quoted_tail(s, &chars, 0);
    assert(chars@.skip(0) =~= t@);
}

impl EventLoopError {
    /// The text that `{:?}` gives for this error.
    pub open spec fn debug_spec(self) -> Seq<char> {
        match self {
            EventLoopError::AlreadyRunning => "AlreadyRunning"@,
            EventLoopError::NotRunning => "NotRunning"@,
            EventLoopError::StartupFailed(m) => "StartupFailed("@ + seq!['"'] + quoted_spec(m@) + ")"@,
            EventLoopError::ShutdownTimeout => "ShutdownTimeout"@,
            EventLoopError::ThreadPanic(m) => "ThreadPanic("@ + seq!['"'] + quoted_spec(m@) + ")"@,
        }
    }

    /// The text that `{:?}` gives for this error.
    pub fn debug_string(&self) -> (s: String)
        ensures
            s@ == self.debug_spec(),
    {
        let mut s = String::new();
        match self {
            EventLoopError::AlreadyRunning => push_str(&mut s, "AlreadyRunning"),
            EventLoopError::NotRunning => push_str(&mut s, "NotRunning"),
            EventLoopError::StartupFailed(m) => {
                push_str(&mut s, "StartupFailed(");
                push_quoted(&mut s, m.as_str());
                push_str(&mut s, ")");
            },
            EventLoopError::ShutdownTimeout => push_str(&mut s, "ShutdownTimeout"),
            EventLoopError::ThreadPanic(m) => {
                push_str(&mut s, "ThreadPanic(");
                push_quoted(&mut s, m.as_str());
                push_str(&mut s, ")");
            },
        }
        s
    }
}

impl ConsoleError {
    /// The human-readable message of this error.
    pub open spec fn message_spec(self) -> Seq<char> {
        match self {
            ConsoleError::IoError(m) => "I/O error: "@ + m@,
            ConsoleError::UnsupportedFeature { feature, platform } => "Feature '"@ + feature@
                + "' not supported on platform '"@ + platform@ + "'"@,
            ConsoleError::EventLoopError(e) => "Event loop error: "@ + e.debug_spec(),
            ConsoleError::TerminalError(m) => "Terminal error: "@ + m@,
            ConsoleError::ThreadError(m) => "Thread error: "@ + m@,
            ConsoleError::CallbackError(m) => "Callback error: "@ + m@,
            ConsoleError::WasmBridgeError(m) => "WASM bridge error: "@ + m@,
        }
    }

    /// The human-readable message of this error (what `Display` prints in
    /// other Rust code).
    pub fn to_string(&self) -> (s: String)
        ensures
            s@ == self.message_spec(),
    {
        let mut s = String::new();
        match self {
            ConsoleError::IoError(m) => {
                push_str(&mut s, "I/O error: ");
                push_str(&mut s, m.as_str());
            },
            ConsoleError::UnsupportedFeature { feature, platform } => {
                push_str(&mut s, "Feature '");
                push_str(&mut s, feature.as_str());
                push_str(&mut s, "' not supported on platform '");
                push_str(&mut s, platform.as_str());
                push_str(&mut s, "'");
            },
            ConsoleError::EventLoopError(e) => {
                push_str(&mut s, "Event loop error: ");
                let d = e.debug_string();
                push_str(&mut s, d.as_str());
            },
            ConsoleError::TerminalError(m) => {
                push_str(&mut s, "Terminal error: ");
                push_str(&mut s, m.as_str());
            },
            ConsoleError::ThreadError(m) => {
                push_str(&mut s, "Thread error: ");
                push_str(&mut s, m.as_str());
            },
            ConsoleError::CallbackError(m) => {
                push_str(&mut s, "Callback error: ");
                push_str(&mut s, m.as_str());
            },
            ConsoleError::WasmBridgeError(m) => {
                push_str(&mut s, "WASM bridge error: ");
                push_str(&mut s, m.as_str());
            },
        }
        s
    }
}

/// How text is sanitized before it reaches the terminal.
#[derive(Debug, Clone, Copy, PartialEq)]
pub enum SanitizationPolicy {
    /// Remove all control sequences (CSI, OSC, DCS, etc.)
    RemoveAll,
    /// Remove only potentially dangerous sequences (CSI, OSC)
    RemoveDangerous,
    /// Escape control sequences to make them visible
    EscapeAll,
    /// Allow basic formatting but remove dangerous sequences
    AllowBasicFormatting,
}

/// Where the filter stands within an escape sequence.
#[derive(Debug, Clone, Copy, PartialEq)]
pub enum FilterState {
    Normal,
    Escape,
    Csi,
    OscString,
    DcsString,
}

/// What the filter does with one input character.
#[derive(Debug, Clone, Copy, PartialEq)]
pub enum FilterAction {
    Emit(char),
    EmitEscaped(u8),
    Skip,
}

/// Text filter that removes (or escapes) terminal control sequences; it keeps
/// its state between calls, so a sequence split over two calls is still caught.
pub struct SafeTextFilter {
    policy: SanitizationPolicy,
    state: FilterState,
}

/// A C0 control character or DEL.
pub open spec fn is_control_code(c: char) -> bool {
    c as u32 <= 0x1f || c as u32 == 0x7f
}

/// One step of the filter: the next state and the action for character `c`.
/// Outside a sequence, ordinary characters (any script) pass through; ESC
/// starts a sequence; other control characters are kept, escaped or dropped
/// as the policy says. Inside a sequence everything up to its end is dropped.
pub open spec fn filter_step(policy: SanitizationPolicy, state: FilterState, c: char) -> (FilterState, FilterAction) {
    let u = c as u32;
    match state {
        FilterState::Normal => if u == 0x1b {
            (FilterState::Escape, if policy == SanitizationPolicy::EscapeAll {
                FilterAction::EmitEscaped(0x1b)
            } else {
                FilterAction::Skip
            })
        } else if is_control_code(c) {
            (FilterState::Normal, match policy {
                SanitizationPolicy::RemoveAll | SanitizationPolicy::RemoveDangerous => if u == 0x09
                    || u == 0x0a || u == 0x0d {
                    FilterAction::Emit(c)
                } else {
                    FilterAction::Skip
                },
                SanitizationPolicy::EscapeAll => FilterAction::EmitEscaped(u as u8),
                SanitizationPolicy::AllowBasicFormatting => if u == 0x07 || u == 0x08 || u
                    == 0x09 || u == 0x0a || u == 0x0d {
                    FilterAction::Emit(c)
                } else {
                    FilterAction::Skip
                },
            })
        } else {
            (FilterState::Normal, FilterAction::Emit(c))
        },
        FilterState::Escape => if u == 0x5b {
            (FilterState::Csi, FilterAction::Skip)
        } else if u == 0x5d {
            (FilterState::OscString, FilterAction::Skip)
        } else if u == 0x50 {
            (FilterState::DcsString, FilterAction::Skip)
        } else {
            (FilterState::Normal, FilterAction::Skip)
        },
        FilterState::Csi => (if 0x40 <= u <= 0x7e {
            FilterState::Normal
        } else {
            FilterState::Csi
        }, FilterAction::Skip),
        FilterState::OscString => (if u == 0x1b {
            FilterState::Escape
        } else if u == 0x07 {
            FilterState::Normal
        } else {
            FilterState::OscString
        }, FilterAction::Skip),
        FilterState::DcsString => (if u == 0x1b {
            FilterState::Escape
        } else {
            FilterState::DcsString
        }, FilterAction::Skip),
    }
}

/// The lowercase hexadecimal digit for `d` (below sixteen).
pub open spec fn hex_digit(d: u8) -> char {
    if d < 10 {
        ((48 + d) as u8) as char
    } else {
        ((87 + d) as u8) as char
    }
}

/// The output of one action: the character itself, or `\xNN`.
pub open spec fn action_text(a: FilterAction) -> Seq<char> {
    match a {
        FilterAction::Emit(c) => seq![c],
        FilterAction::EmitEscaped(b) => seq!['\\', 'x', hex_digit(b / 16), hex_digit(b % 16)],
        FilterAction::Skip => Seq::empty(),
    }
}

/// Running the filter over `chars` from `state`: the final state and the output.
pub open spec fn filter_run(policy: SanitizationPolicy, state: FilterState, chars: Seq<char>) -> (FilterState, Seq<char>)
    decreases chars.len(),
{
    if chars.len() == 0 {
        (state, Seq::empty())
    } else {
        let (mid, out) = filter_run(policy, state, chars.drop_last());
        let (next, action) = filter_step(policy, mid, chars.last());
        (next, out + action_text(action))
    }
}

fn hex(d: u8) -> (c: char)
    requires
        d < 16,
    ensures
        c == hex_digit(d),
{
    if d < 10 {
        (48 + d) as char
    } else {
        (87 + d) as char
    }
}

impl SafeTextFilter {
    /// The policy of this filter.
    pub closed spec fn policy_spec(&self) -> SanitizationPolicy {
        self.policy
    }

    /// The escape-sequence state of this filter.
    pub closed spec fn state_spec(&self) -> FilterState {
        self.state
    }

    /// Create a filter with the given policy, outside any escape sequence.
    pub fn new(policy: SanitizationPolicy) -> (f: Self)
        ensures
            f.policy_spec() == policy,
            f.state_spec() == FilterState::Normal,
    {
        SafeTextFilter { policy, state: FilterState::Normal }
    }

    /// Filter `input` character by character; each kept character is
    /// copied, each escaped one becomes `\xNN`.
    pub fn filter(&mut self, input: &str) -> (output: String)
        ensures
            final(self).policy_spec() == old(self).policy_spec(),
            (final(self).state_spec(), output@) == filter_run(old(self).policy_spec(), old(self).state_spec(), input@),
    {
        let chars = to_chars(input);
        let mut output = String::new();
        let mut i: usize = 0;
        let ghost start = self.state;
        while i < chars.len()
            invariant
                chars@ == input@,
                i <= chars@.len(),
                self.policy == old(self).policy,
                start == old(self).state,
                (self.state, output@) == filter_run(self.policy, start, chars@.take(i as int)),
            decreases chars.len() - i,
        {
            let c = chars[i];
            let ghost before = output@;
            let action = self.process_char(c);
            match action {
                FilterAction::Emit(x) => push_char(&mut output, x),
                FilterAction::EmitEscaped(x) => {
                    push_char(&mut output, '\\');
                    push_char(&mut output, 'x');
                    push_char(&mut output, hex(x / 16));
                    push_char(&mut output, hex(x % 16));
                },
                FilterAction::Skip => {},
            }
            proof {
                assert(chars@.take(i + 1).drop_last() =~= chars@.take(i as int));
                assert(output@ =~= before + action_text(action));
            }
            i = i + 1;
        }
        assert(chars@.take(i as int) =~= chars@);
        output
    }

    /// Advance the state machine by one character.
    fn process_char(&mut self, c: char) -> (a: FilterAction)
        ensures
            final(self).policy == old(self).policy,
            (final(self).state, a) == filter_step(old(self).policy, old(self).state, c),
    {
        let u = c as u32;
        match self.state {
            FilterState::Normal => {
                if u == 0x1b {
                    self.state = FilterState::Escape;
                    match self.policy {
                        SanitizationPolicy::EscapeAll => FilterAction::EmitEscaped(0x1b),
                        _ => FilterAction::Skip,
                    }
                } else if u <= 0x1f || u == 0x7f {
                    match self.policy {
                        SanitizationPolicy::RemoveAll | SanitizationPolicy::RemoveDangerous => {
                            if u == 0x09 || u == 0x0a || u == 0x0d {
                                FilterAction::Emit(c)
                            } else {
                                FilterAction::Skip
                            }
                        },
                        SanitizationPolicy::EscapeAll => FilterAction::EmitEscaped(u as u8),
                        SanitizationPolicy::AllowBasicFormatting => {
                            if u == 0x07 || u == 0x08 || u == 0x09 || u == 0x0a || u == 0x0d {
                                FilterAction::Emit(c)
                            } else {
                                FilterAction::Skip
                            }
                        },
                    }
                } else {
                    FilterAction::Emit(c)
                }
            },
            FilterState::Escape => {
                if u == 0x5b {
                    self.state = FilterState::Csi;
                } else if u == 0x5d {
                    self.state = FilterState::OscString;
                } else if u == 0x50 {
                    self.state = FilterState::DcsString;
                } else {
                    self.state = FilterState::Normal;
                }
                FilterAction::Skip
            },
            FilterState::Csi => {
                if 0x40 <= u && u <= 0x7e {
                    self.state = FilterState::Normal;
                }
                FilterAction::Skip
            },
            FilterState::OscString => {
                if u == 0x1b {
                    self.state = FilterState::Escape;
                } else if u == 0x07 {
                    self.state = FilterState::Normal;
                }
                FilterAction::Skip
            },
            FilterState::DcsString => {
                if u == 0x1b {
                    self.state = FilterState::Escape;
                }
                FilterAction::Skip
            },
        }
    }
}

/// Whatever the policy, state and input, the filter's output holds no ESC
/// character: escape sequences never reach the terminal.
pub proof fn lemma_filter_output_has_no_escape(policy: SanitizationPolicy, state: FilterState, chars: Seq<char>)
    ensures
        !filter_run(policy, state, chars).1.contains('\x1b'),
    decreases chars.len(),
{
    if chars.len() > 0 {
        lemma_filter_output_has_no_escape(policy, state, chars.drop_last());
        let (mid, out) = filter_run(policy, state, chars.drop_last());
        let (next, action) = filter_step(policy, mid, chars.last());
        let t = action_text(action);
        assert(!t.contains('\x1b')) by {
            match action {
                FilterAction::EmitEscaped(b) => {
                    assert(hex_digit(b / 16) != '\x1b');
                    assert(hex_digit(b % 16) != '\x1b');
                },
                FilterAction::Emit(c) => {
                    assert(c != '\x1b');
                },
                _ => {},
            }
        }
        assert forall|i: int| 0 <= i < (out + t).len() implies (out + t)[i] != '\x1b' by {
            if i < out.len() {
                assert((out + t)[i] == out[i]);
            } else {
                assert((out + t)[i] == t[i - out.len()]);
            }
        }
    }
}

/// Text without control characters passes the filter unchanged, whatever
/// the script, and leaves it outside any escape sequence: control sequences
/// are all the filter removes or escapes.
pub proof fn law_filter_keeps_plain_text(policy: SanitizationPolicy, chars: Seq<char>)
    requires
        forall|i: int| 0 <= i < chars.len() ==> !is_control_code(#[trigger] chars[i]),
    ensures
        filter_run(policy, FilterState::Normal, chars) == (FilterState::Normal, chars),
    decreases chars.len(),
{
    if chars.len() > 0 {
        let init = chars.drop_last();
        assert forall|i: int| 0 <= i < init.len() implies !is_control_code(#[trigger] init[i]) by {
            assert(init[i] == chars[i]);
        }
        law_filter_keeps_plain_text(policy, init);
        assert(!is_control_code(chars[chars.len() - 1]));
        assert(init + seq![chars.last()] =~= chars);
    }
}

} // verus!
