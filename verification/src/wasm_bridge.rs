//! Console input and output for a WASM host: each output operation becomes
//! a text message for the host, and messages from the host are classified.

use vstd::prelude::*;
use vstd::string::*;
use crate::console::{
    BackendType, ClearType, Color, ConsoleCapabilities, ConsoleError, ConsoleOutput,
    ConsoleRequest, ConsoleResult, EventLoopError, OutputCapabilities, TextStyle,
};
use crate::completion::starts_with;
use crate::mock::shifted;
use crate::text::{decimal_spec, owned, push_decimal, push_str};

verus! {

broadcast use vstd::string::group_string_axioms;

/// `{:?}` of a color.
pub open spec fn color_debug(c: Color) -> Seq<char> {
    match c {
        Color::Black => "Black"@,
        Color::Red => "Red"@,
        Color::Green => "Green"@,
        Color::Yellow => "Yellow"@,
        Color::Blue => "Blue"@,
        Color::Magenta => "Magenta"@,
        Color::Cyan => "Cyan"@,
        Color::White => "White"@,
        Color::BrightBlack => "BrightBlack"@,
        Color::BrightRed => "BrightRed"@,
        Color::BrightGreen => "BrightGreen"@,
        Color::BrightYellow => "BrightYellow"@,
        Color::BrightBlue => "BrightBlue"@,
        Color::BrightMagenta => "BrightMagenta"@,
        Color::BrightCyan => "BrightCyan"@,
        Color::BrightWhite => "BrightWhite"@,
        Color::Rgb(r, g, b) => "Rgb("@ + decimal_spec(r as nat) + ", "@ + decimal_spec(g as nat) + ", "@
            + decimal_spec(b as nat) + ")"@,
        Color::Ansi256(n) => "Ansi256("@ + decimal_spec(n as nat) + ")"@,
    }
}

/// `{:?}` of an optional color.
pub open spec fn opt_color_debug(c: Option<Color>) -> Seq<char> {
    match c {
        Some(x) => "Some("@ + color_debug(x) + ")"@,
        None => "None"@,
    }
}

/// `{:?}` of a flag.
pub open spec fn bool_debug(b: bool) -> Seq<char> {
    if b { "true"@ } else { "false"@ }
}

/// The colors of a style's `{:?}`.
pub open spec fn style_colors_debug(s: TextStyle) -> Seq<char> {
    "TextStyle { foreground: "@ + opt_color_debug(s.foreground) + ", background: "@
        + opt_color_debug(s.background)
}

/// The first flags of a style's `{:?}`.
pub open spec fn style_flags_debug(s: TextStyle) -> Seq<char> {
    ", bold: "@ + bool_debug(s.bold) + ", italic: "@ + bool_debug(s.italic) + ", underline: "@
        + bool_debug(s.underline)
}

/// The last flags of a style's `{:?}`, and its end.
pub open spec fn style_more_flags_debug(s: TextStyle) -> Seq<char> {
    ", strikethrough: "@ + bool_debug(s.strikethrough) + ", dim: "@ + bool_debug(s.dim) + ", reverse: "@
        + bool_debug(s.reverse) + " }"@
}

/// `{:?}` of a text style.
pub open spec fn style_debug(s: TextStyle) -> Seq<char> {
    style_colors_debug(s) + style_flags_debug(s) + style_more_flags_debug(s)
}

/// `{:?}` of a clear type.
pub open spec fn clear_debug(c: ClearType) -> Seq<char> {
    match c {
        ClearType::All => "All"@,
        ClearType::FromCursor => "FromCursor"@,
        ClearType::ToCursor => "ToCursor"@,
        ClearType::CurrentLine => "CurrentLine"@,
        ClearType::FromCursorToEndOfLine => "FromCursorToEndOfLine"@,
        ClearType::FromBeginningOfLineToCursor => "FromBeginningOfLineToCursor"@,
    }
}

/// Decimal notation of a signed 16-bit number.
pub open spec fn signed_decimal(d: i16) -> Seq<char> {
    if d < 0 { seq!['-'] + decimal_spec((-d) as nat) } else { decimal_spec(d as nat) }
}

fn push_color_debug(s: &mut String, c: &Color)
    ensures
        final(s)@ == old(s)@ + color_debug(*c),
{
    match c {
        Color::Black => push_str(s, "Black"),
        Color::Red => push_str(s, "Red"),
        Color::Green => push_str(s, "Green"),
        Color::Yellow => push_str(s, "Yellow"),
        Color::Blue => push_str(s, "Blue"),
        Color::Magenta => push_str(s, "Magenta"),
        Color::Cyan => push_str(s, "Cyan"),
        Color::White => push_str(s, "White"),
        Color::BrightBlack => push_str(s, "BrightBlack"),
        Color::BrightRed => push_str(s, "BrightRed"),
        Color::BrightGreen => push_str(s, "BrightGreen"),
        Color::BrightYellow => push_str(s, "BrightYellow"),
        Color::BrightBlue => push_str(s, "BrightBlue"),
        Color::BrightMagenta => push_str(s, "BrightMagenta"),
        Color::BrightCyan => push_str(s, "BrightCyan"),
        Color::BrightWhite => push_str(s, "BrightWhite"),
        Color::Rgb(r, g, b) => {
            push_str(s, "Rgb(");
            push_decimal(s, *r as u64);
            push_str(s, ", ");
            push_decimal(s, *g as u64);
            push_str(s, ", ");
            push_decimal(s, *b as u64);
            push_str(s, ")");
            assert(final(s)@ =~= old(s)@ + color_debug(*c));
        },
        Color::Ansi256(n) => {
            push_str(s, "Ansi256(");
            push_decimal(s, *n as u64);
            push_str(s, ")");
            assert(final(s)@ =~= old(s)@ + color_debug(*c));
        },
    }
}

fn push_opt_color_debug(s: &mut String, c: &Option<Color>)
    ensures
        final(s)@ == old(s)@ + opt_color_debug(*c),
{
    match c {
        Some(x) => {
            push_str(s, "Some(");
            push_color_debug(s, x);
            push_str(s, ")");
            assert(final(s)@ =~= old(s)@ + opt_color_debug(*c));
        },
        None => push_str(s, "None"),
    }
}

fn push_bool(s: &mut String, b: bool)
    ensures
        final(s)@ == old(s)@ + bool_debug(b),
{
    if b {
        push_str(s, "true");
    } else {
        push_str(s, "false");
    }
}

fn push_style_colors(s: &mut String, st: &TextStyle)
    ensures
        final(s)@ == old(s)@ + style_colors_debug(*st),
{
    push_str(s, "TextStyle { foreground: ");
    push_opt_color_debug(s, &st.foreground);
    push_str(s, ", background: ");
    push_opt_color_debug(s, &st.background);
    assert(final(s)@ =~= old(s)@ + style_colors_debug(*st));
}

fn push_style_flags(s: &mut String, st: &TextStyle)
    ensures
        final(s)@ == old(s)@ + style_flags_debug(*st),
{
    push_str(s, ", bold: ");
    push_bool(s, st.bold);
    push_str(s, ", italic: ");
    push_bool(s, st.italic);
    push_str(s, ", underline: ");
    push_bool(s, st.underline);
    assert(final(s)@ =~= old(s)@ + style_flags_debug(*st));
}

fn push_style_more_flags(s: &mut String, st: &TextStyle)
    ensures
        final(s)@ == old(s)@ + style_more_flags_debug(*st),
{
    push_str(s, ", strikethrough: ");
    push_bool(s, st.strikethrough);
    push_str(s, ", dim: ");
    push_bool(s, st.dim);
    push_str(s, ", reverse: ");
    push_bool(s, st.reverse);
    push_str(s, " }");
    assert(final(s)@ =~= old(s)@ + style_more_flags_debug(*st));
}

fn push_style_debug(s: &mut String, st: &TextStyle)
    ensures
        final(s)@ == old(s)@ + style_debug(*st),
{
    push_style_colors(s, st);
    push_style_flags(s, st);
    push_style_more_flags(s, st);
    assert(final(s)@ =~= old(s)@ + style_debug(*st));
}

fn push_clear_debug(s: &mut String, c: ClearType)
    ensures
        final(s)@ == old(s)@ + clear_debug(c),
{
    match c {
        ClearType::All => push_str(s, "All"),
        ClearType::FromCursor => push_str(s, "FromCursor"),
        ClearType::ToCursor => push_str(s, "ToCursor"),
        ClearType::CurrentLine => push_str(s, "CurrentLine"),
        ClearType::FromCursorToEndOfLine => push_str(s, "FromCursorToEndOfLine"),
        ClearType::FromBeginningOfLineToCursor => push_str(s, "FromBeginningOfLineToCursor"),
    }
}

fn push_signed(s: &mut String, d: i16)
    ensures
        final(s)@ == old(s)@ + signed_decimal(d),
{
    if d < 0 {
        crate::text::push_char(s, '-');
        let n: i32 = -(d as i32);
        assert(n as nat == (-d) as nat);
        push_decimal(s, n as u64);
        assert(final(s)@ =~= old(s)@ + signed_decimal(d));
    } else {
        push_decimal(s, d as u64);
    }
}

/// What a WASM bridge output has: the messages for the host not yet taken,
/// the cursor it tracks and the style last set.
pub struct WasmOutputView {
    pub messages: Seq<Seq<char>>,
    pub cursor: (u16, u16),
    pub style: TextStyle,
}

/// Console output that turns each operation into a message for the host.
pub struct WasmBridgeConsoleOutput {
    outbox: Vec<String>,
    cursor_position: (u16, u16),
    current_style: TextStyle,
    requests: Ghost<Seq<ConsoleRequest>>,
}

impl View for WasmBridgeConsoleOutput {
    type V = WasmOutputView;

    closed spec fn view(&self) -> WasmOutputView {
        WasmOutputView {
            messages: self.outbox@.map_values(|m: String| m@),
            cursor: self.cursor_position,
            style: self.current_style,
        }
    }
}

/// The view with one more message.
pub open spec fn sent(v: WasmOutputView, m: Seq<char>) -> WasmOutputView {
    WasmOutputView { messages: v.messages.push(m), ..v }
}

impl WasmBridgeConsoleOutput {
    /// No messages, the cursor at (0, 0), the default style.
    pub fn new() -> (o: Self)
        ensures
            o@.messages == Seq::<Seq<char>>::empty(),
            o@.cursor == (0u16, 0u16),
            o@.style == TextStyle::plain(),
    {
        let o = WasmBridgeConsoleOutput {
            outbox: Vec::new(),
            cursor_position: (0, 0),
            current_style: TextStyle::default(),
            requests: Ghost(Seq::empty()),
        };
        assert(o@.messages =~= Seq::<Seq<char>>::empty());
        o
    }

    /// Hands the messages not yet taken to the host, in order.
    pub fn take_messages(&mut self) -> (v: Vec<String>)
        ensures
            v@.map_values(|m: String| m@) == old(self)@.messages,
            final(self)@ == (WasmOutputView { messages: Seq::empty(), ..old(self)@ }),
            final(self).requests() == old(self).requests(),
    {
        let mut v = Vec::new();
        std::mem::swap(&mut v, &mut self.outbox);
        assert(final(self)@.messages =~= Seq::<Seq<char>>::empty());
        v
    }

    fn send_message(&mut self, message: String) -> (r: ConsoleResult<()>)
        ensures
            r is Ok,
            final(self)@ == sent(old(self)@, message@),
            final(self).requests@ == old(self).requests@,
    {
        let ghost before = self.outbox@.map_values(|m: String| m@);
        self.outbox.push(message);
        assert(self.outbox@.map_values(|m: String| m@) =~= before.push(message@));
        Ok(())
    }
}

impl ConsoleOutput for WasmBridgeConsoleOutput {
    open spec fn records_requests(&self) -> bool {
        true
    }

    /// Every request succeeds.
    open spec fn never_fails(&self) -> bool {
        true
    }

    /// The tracked cursor.
    open spec fn cursor_answer(&self, r: ConsoleResult<(u16, u16)>) -> bool {
        r == Ok::<(u16, u16), crate::console::ConsoleError>(self@.cursor)
    }

    /// Colours (true colour too), styling, the alternate screen and cursor
    /// control, 65535 colours, platform "WASM Bridge".
    open spec fn reports_capabilities(&self, c: OutputCapabilities) -> bool {
        &&& c.supports_colors && c.supports_true_color && c.supports_styling
        &&& c.supports_alternate_screen && c.supports_cursor_control
        &&& c.max_colors == 65535
        &&& c.platform_name@ == "WASM Bridge"@
        &&& c.backend_type == BackendType::WasmBridge
    }

    closed spec fn requests(&self) -> Seq<ConsoleRequest> {
        self.requests@
    }

    fn write_text(&mut self, text: &str) -> (r: ConsoleResult<()>)
        ensures
            r is Ok,
            final(self)@ == sent(old(self)@, "write_text:"@ + text@),
    {
        self.requests = Ghost(self.requests@.push(ConsoleRequest::WriteText(text@)));
        let mut m = owned("write_text:");
        push_str(&mut m, text);
        self.send_message(m)
    }

    fn write_styled_text(&mut self, text: &str, style: &TextStyle) -> (r: ConsoleResult<()>)
        ensures
            r is Ok,
            final(self)@ == sent(old(self)@, "write_styled_text:"@ + text@ + ":"@ + style_debug(*style)),
    {
        self.requests = Ghost(self.requests@.push(ConsoleRequest::WriteStyledText(text@, *style)));
        let mut m = owned("write_styled_text:");
        push_str(&mut m, text);
        push_str(&mut m, ":");
        push_style_debug(&mut m, style);
        self.send_message(m)
    }

    fn write_safe_text(&mut self, text: &str) -> (r: ConsoleResult<()>)
        ensures
            r is Ok,
            final(self)@ == sent(old(self)@, "write_safe_text:"@ + text@),
    {
        self.requests = Ghost(self.requests@.push(ConsoleRequest::WriteSafeText(text@)));
        let mut m = owned("write_safe_text:");
        push_str(&mut m, text);
        self.send_message(m)
    }

    fn move_cursor_to(&mut self, row: u16, col: u16) -> (r: ConsoleResult<()>)
        ensures
            r is Ok,
            final(self)@ == sent(
                WasmOutputView { cursor: (row, col), ..old(self)@ },
                "move_cursor_to:"@ + decimal_spec(row as nat) + ":"@ + decimal_spec(col as nat),
            ),
    {
        self.requests = Ghost(self.requests@.push(ConsoleRequest::MoveCursorTo(row, col)));
        self.cursor_position = (row, col);
        let mut m = owned("move_cursor_to:");
        push_decimal(&mut m, row as u64);
        push_str(&mut m, ":");
        push_decimal(&mut m, col as u64);
        self.send_message(m)
    }

    fn move_cursor_relative(&mut self, row_delta: i16, col_delta: i16) -> (r: ConsoleResult<()>)
        ensures
            r is Ok,
            final(self)@ == sent(
                WasmOutputView {
                    cursor: (shifted(old(self)@.cursor.0, row_delta), shifted(old(self)@.cursor.1, col_delta)),
                    ..old(self)@
                },
                "move_cursor_relative:"@ + signed_decimal(row_delta) + ":"@ + signed_decimal(col_delta),
            ),
    {
        self.requests = Ghost(self.requests@.push(ConsoleRequest::MoveCursorRelative(row_delta, col_delta)));
        let r0 = (self.cursor_position.0 as i16) as i32 + row_delta as i32;
        let c0 = (self.cursor_position.1 as i16) as i32 + col_delta as i32;
        let r: u16 = if r0 < 0 { 0 } else { r0 as u16 };
        let c: u16 = if c0 < 0 { 0 } else { c0 as u16 };
        self.cursor_position = (r, c);
        let mut m = owned("move_cursor_relative:");
        push_signed(&mut m, row_delta);
        push_str(&mut m, ":");
        push_signed(&mut m, col_delta);
        self.send_message(m)
    }

    fn clear(&mut self, clear_type: ClearType) -> (r: ConsoleResult<()>)
        ensures
            r is Ok,
            final(self)@ == sent(old(self)@, "clear:"@ + clear_debug(clear_type)),
    {
        self.requests = Ghost(self.requests@.push(ConsoleRequest::Clear(clear_type)));
        let mut m = owned("clear:");
        push_clear_debug(&mut m, clear_type);
        self.send_message(m)
    }

    fn set_style(&mut self, style: &TextStyle) -> (r: ConsoleResult<()>)
        ensures
            r is Ok,
            final(self)@ == sent(WasmOutputView { style: *style, ..old(self)@ }, "set_style:"@ + style_debug(*style)),
    {
        self.requests = Ghost(self.requests@.push(ConsoleRequest::SetStyle(*style)));
        self.current_style = style.clone();
        let mut m = owned("set_style:");
        push_style_debug(&mut m, style);
        self.send_message(m)
    }

    fn reset_style(&mut self) -> (r: ConsoleResult<()>)
        ensures
            r is Ok,
            final(self)@ == sent(WasmOutputView { style: TextStyle::plain(), ..old(self)@ }, "reset_style"@),
    {
        self.requests = Ghost(self.requests@.push(ConsoleRequest::ResetStyle));
        self.current_style = TextStyle::default();
        self.send_message(owned("reset_style"))
    }

    fn flush(&mut self) -> (r: ConsoleResult<()>)
        ensures
            r is Ok,
            final(self)@ == sent(old(self)@, "flush"@),
    {
        self.requests = Ghost(self.requests@.push(ConsoleRequest::Flush));
        self.send_message(owned("flush"))
    }

    fn set_alternate_screen(&mut self, enabled: bool) -> (r: ConsoleResult<()>)
        ensures
            r is Ok,
            final(self)@ == sent(old(self)@, "set_alternate_screen:"@ + bool_debug(enabled)),
    {
        self.requests = Ghost(self.requests@.push(ConsoleRequest::SetAlternateScreen(enabled)));
        let mut m = owned("set_alternate_screen:");
        push_bool(&mut m, enabled);
        self.send_message(m)
    }

    fn set_cursor_visible(&mut self, visible: bool) -> (r: ConsoleResult<()>)
        ensures
            r is Ok,
            final(self)@ == sent(old(self)@, "set_cursor_visible:"@ + bool_debug(visible)),
    {
        self.requests = Ghost(self.requests@.push(ConsoleRequest::SetCursorVisible(visible)));
        let mut m = owned("set_cursor_visible:");
        push_bool(&mut m, visible);
        self.send_message(m)
    }

    fn get_cursor_position(&mut self) -> (r: ConsoleResult<(u16, u16)>)
        ensures
            r == Ok::<(u16, u16), ConsoleError>(old(self)@.cursor),
            final(self)@ == old(self)@,
    {
        Ok(self.cursor_position)
    }

    fn get_capabilities(&self) -> (c: OutputCapabilities)
        ensures
            c.supports_colors && c.supports_true_color && c.supports_styling,
            c.supports_alternate_screen && c.supports_cursor_control,
            c.max_colors == 65535,
            c.platform_name@ == "WASM Bridge"@,
            c.backend_type == BackendType::WasmBridge,
    {
        OutputCapabilities {
            supports_colors: true,
            supports_true_color: true,
            supports_styling: true,
            supports_alternate_screen: true,
            supports_cursor_control: true,
            max_colors: 65535,
            platform_name: owned("WASM Bridge"),
            backend_type: BackendType::WasmBridge,
        }
    }
}

/// Console input whose events come from the host.
pub struct WasmBridgeConsoleInput {
    running: bool,
}

impl WasmBridgeConsoleInput {
    /// An input whose event loop is not running.
    pub fn new() -> (i: Self)
        ensures
            !i.is_running_spec(),
    {
        WasmBridgeConsoleInput { running: false }
    }

    /// Whether the event loop runs.
    pub closed spec fn is_running_spec(&self) -> bool {
        self.running
    }

    /// Accepts a message from the host: key events (`key:...`) and resizes
    /// (`resize:...`); anything else is an error naming the message.
    pub fn receive_message(&self, message: &str) -> (r: ConsoleResult<()>)
        ensures
            ("key:"@.is_prefix_of(message@) || "resize:"@.is_prefix_of(message@)) ==> r is Ok,
            !("key:"@.is_prefix_of(message@) || "resize:"@.is_prefix_of(message@)) ==> (r matches Err(
                ConsoleError::WasmBridgeError(m),
            ) && m@ == "Unknown message type: "@ + message@),
    {
        if starts_with(message, "key:") {
            Ok(())
        } else if starts_with(message, "resize:") {
            Ok(())
        } else {
            let mut m = owned("Unknown message type: ");
            push_str(&mut m, message);
            Err(ConsoleError::WasmBridgeError(m))
        }
    }

    /// The host's window: 80 columns, 24 rows.
    pub fn get_window_size(&self) -> (r: ConsoleResult<(u16, u16)>)
        ensures
            r == Ok::<(u16, u16), ConsoleError>((80u16, 24u16)),
    {
        Ok((80, 24))
    }

    /// Marks the event loop running; the host drives the events. Starting
    /// twice is an error.
    pub fn start_event_loop(&mut self) -> (r: ConsoleResult<()>)
        ensures
            old(self).is_running_spec() ==> r == Err::<(), ConsoleError>(ConsoleError::EventLoopError(EventLoopError::AlreadyRunning)),
            !old(self).is_running_spec() ==> r is Ok,
            final(self).is_running_spec(),
    {
        if self.running {
            return Err(ConsoleError::EventLoopError(EventLoopError::AlreadyRunning));
        }
        self.running = true;
        Ok(())
    }

    /// Marks the event loop stopped. Stopping a stopped loop is an error.
    pub fn stop_event_loop(&mut self) -> (r: ConsoleResult<()>)
        ensures
            !old(self).is_running_spec() ==> r == Err::<(), ConsoleError>(ConsoleError::EventLoopError(EventLoopError::NotRunning)),
            old(self).is_running_spec() ==> r is Ok,
            !final(self).is_running_spec(),
    {
        if !self.running {
            return Err(ConsoleError::EventLoopError(EventLoopError::NotRunning));
        }
        self.running = false;
        Ok(())
    }

    /// Whether the event loop runs.
    pub fn is_running(&self) -> (b: bool)
        ensures
            b == self.is_running_spec(),
    {
        self.running
    }

    /// Raw mode, resize events and Unicode; no paste or mouse events.
    pub fn get_capabilities(&self) -> (c: ConsoleCapabilities)
        ensures
            c.supports_raw_mode && c.supports_resize_events && c.supports_unicode,
            !c.supports_bracketed_paste && !c.supports_mouse_events,
            c.platform_name@ == "WASM Bridge"@,
            c.backend_type == BackendType::WasmBridge,
    {
        ConsoleCapabilities {
            supports_raw_mode: true,
            supports_resize_events: true,
            supports_bracketed_paste: false,
            supports_mouse_events: false,
            supports_unicode: true,
            platform_name: owned("WASM Bridge"),
            backend_type: BackendType::WasmBridge,
        }
    }
}

} // verus!
