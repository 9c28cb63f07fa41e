//! In-memory console input and output that record what they are asked to
//! do, for tests of code that drives a console.

use vstd::prelude::*;
use vstd::string::*;
use vstd::utf8::encode_utf8;
use std::collections::VecDeque;
use crate::ansi::{alternate_screen_sequence, alternate_screen_spec, clear_sequence, clear_spec,
    cursor_to_sequence, cursor_to_spec, cursor_visibility_sequence, cursor_visibility_spec};
use crate::console::{
    BackendType, ClearType, ConsoleCapabilities, ConsoleOutput, ConsoleRequest, ConsoleResult,
    OutputCapabilities, TextStyle,
};
use crate::key::KeyEvent;
use crate::text::{owned, push_str};

verus! {

broadcast use vstd::string::group_string_axioms;

/// One call of `write_styled_text` as the mock saw it.
#[derive(Debug, PartialEq)]
pub struct StyledOutputEvent {
    pub text: String,
    pub style: TextStyle,
    pub cursor_position: (u16, u16),
}

impl StyledOutputEvent {
    /// The event as plain values: text, style, cursor position.
    pub open spec fn model(&self) -> (Seq<char>, TextStyle, (u16, u16)) {
        (self.text@, self.style, self.cursor_position)
    }
}

impl Clone for StyledOutputEvent {
    fn clone(&self) -> (e: Self)
        ensures
            e.model() == self.model(),
    {
        StyledOutputEvent {
            text: self.text.clone(),
            style: self.style.clone(),
            cursor_position: self.cursor_position,
        }
    }
}

/// What a mock output holds: the text written to it (escape sequences
/// included), the styled writes, the cursor, the style, and the screen state.
pub struct MockOutputView {
    pub output: Seq<char>,
    pub events: Seq<(Seq<char>, TextStyle, (u16, u16))>,
    pub cursor: (u16, u16),
    pub style: TextStyle,
    pub alternate_screen: bool,
    pub cursor_visible: bool,
}

/// Console output that records everything in memory.
pub struct MockConsoleOutput {
    output: String,
    events: Vec<StyledOutputEvent>,
    cursor: (u16, u16),
    style: TextStyle,
    alternate_screen: bool,
    cursor_visible: bool,
    requests: Ghost<Seq<ConsoleRequest>>,
}

/// The bold sequence the mock writes for every style change.
pub open spec fn mock_style_marker() -> Seq<char> {
    "\x1b[1m"@
}

/// The SGR reset sequence.
pub open spec fn mock_reset() -> Seq<char> {
    "\x1b[0m"@
}

/// One coordinate after a relative move: the coordinate read as a signed
/// 16-bit value, plus the delta, and never below zero.
pub open spec fn shifted(pos: u16, delta: i16) -> u16 {
    let s = (pos as i16) as int + delta as int;
    if s < 0 { 0 } else { s as u16 }
}

impl View for MockConsoleOutput {
    type V = MockOutputView;

    closed spec fn view(&self) -> MockOutputView {
        MockOutputView {
            output: self.output@,
            events: self.events@.map_values(|e: StyledOutputEvent| e.model()),
            cursor: self.cursor,
            style: self.style,
            alternate_screen: self.alternate_screen,
            cursor_visible: self.cursor_visible,
        }
    }
}

impl MockConsoleOutput {
    /// An empty output: nothing written, cursor at (0, 0), default style,
    /// main screen, cursor visible.
    pub fn new() -> (m: Self)
        ensures
            m@.output == Seq::<char>::empty(),
            m@.events == Seq::<(Seq<char>, TextStyle, (u16, u16))>::empty(),
            m@.cursor == (0u16, 0u16),
            m@.style == TextStyle::plain(),
            !m@.alternate_screen,
            m@.cursor_visible,
            m.requests() == Seq::<ConsoleRequest>::empty(),
    {
        let m = MockConsoleOutput {
            output: String::new(),
            events: Vec::new(),
            cursor: (0, 0),
            style: TextStyle::default(),
            alternate_screen: false,
            cursor_visible: true,
            requests: Ghost(Seq::empty()),
        };
        assert(m@.events =~= Seq::<(Seq<char>, TextStyle, (u16, u16))>::empty());
        m
    }

    /// The bytes written so far.
    pub fn get_output(&self) -> (v: Vec<u8>)
        ensures
            v@ == encode_utf8(self@.output),
    {
        self.output.as_str().as_bytes_vec()
    }

    /// The text written so far.
    pub fn get_output_string(&self) -> (s: String)
        ensures
            s@ == self@.output,
    {
        self.output.clone()
    }

    /// The styled writes so far, in order.
    pub fn get_styled_output(&self) -> (v: Vec<StyledOutputEvent>)
        ensures
            v@.map_values(|e: StyledOutputEvent| e.model()) == self@.events,
    {
        let mut v: Vec<StyledOutputEvent> = Vec::new();
        let mut i: usize = 0;
        while i < self.events.len()
            invariant
                i <= self.events@.len(),
                v@.len() == i,
                forall|k: int| 0 <= k < i ==> (#[trigger] v@[k]).model() == self.events@[k].model(),
            decreases self.events.len() - i,
        {
            v.push(self.events[i].clone());
            i = i + 1;
        }
        assert(v@.map_values(|e: StyledOutputEvent| e.model()) =~= self@.events);
        v
    }

    /// Forgets the text and the styled writes; the rest stays.
    pub fn clear_output(&mut self)
        ensures
            final(self)@.output == Seq::<char>::empty(),
            final(self)@.events == Seq::<(Seq<char>, TextStyle, (u16, u16))>::empty(),
            final(self)@.cursor == old(self)@.cursor,
            final(self)@.style == old(self)@.style,
            final(self)@.alternate_screen == old(self)@.alternate_screen,
            final(self)@.cursor_visible == old(self)@.cursor_visible,
            final(self).requests() == old(self).requests(),
    {
        self.output = String::new();
        self.events = Vec::new();
        assert(final(self)@.events =~= Seq::<(Seq<char>, TextStyle, (u16, u16))>::empty());
    }

    /// The cursor position the mock tracks.
    pub fn get_mock_cursor_position(&self) -> (p: (u16, u16))
        ensures
            p == self@.cursor,
    {
        self.cursor
    }

    /// The style most recently set.
    pub fn get_current_style(&self) -> (s: TextStyle)
        ensures
            s == self@.style,
    {
        self.style.clone()
    }

    /// Whether the alternate screen is on.
    pub fn is_alternate_screen_enabled(&self) -> (b: bool)
        ensures
            b == self@.alternate_screen,
    {
        self.alternate_screen
    }

    /// Whether the cursor is shown.
    pub fn is_cursor_visible(&self) -> (b: bool)
        ensures
            b == self@.cursor_visible,
    {
        self.cursor_visible
    }

    fn append(&mut self, t: &str)
        ensures
            final(self)@ == (MockOutputView { output: old(self)@.output + t@, ..old(self)@ }),
            final(self).requests@ == old(self).requests@,
    {
        push_str(&mut self.output, t);
    }
}

impl ConsoleOutput for MockConsoleOutput {
    open spec fn records_requests(&self) -> bool {
        true
    }

    /// Every request succeeds.
    open spec fn never_fails(&self) -> bool {
        true
    }

    /// The tracked cursor.
    open spec fn cursor_answer(&self, r: ConsoleResult<(u16, u16)>) -> bool {
        r == Ok::<(u16, u16), crate::console::ConsoleError>(self@.cursor)
    }

    /// Colours (true colour too), styling, the alternate screen and cursor
    /// control, 65535 colours, platform "Mock".
    open spec fn reports_capabilities(&self, c: OutputCapabilities) -> bool {
        &&& c.supports_colors && c.supports_true_color && c.supports_styling
        &&& c.supports_alternate_screen && c.supports_cursor_control
        &&& c.max_colors == 65535
        &&& c.platform_name@ == "Mock"@
        &&& c.backend_type == BackendType::Mock
    }

    closed spec fn requests(&self) -> Seq<ConsoleRequest> {
        self.requests@
    }

    fn write_text(&mut self, text: &str) -> (r: ConsoleResult<()>)
        ensures
            r is Ok,
            final(self)@ == (MockOutputView { output: old(self)@.output + text@, ..old(self)@ }),
    {
        self.requests = Ghost(self.requests@.push(ConsoleRequest::WriteText(text@)));
        self.append(text);
        Ok(())
    }

    fn write_styled_text(&mut self, text: &str, style: &TextStyle) -> (r: ConsoleResult<()>)
        ensures
            r is Ok,
            final(self)@ == (MockOutputView {
                output: old(self)@.output + mock_style_marker() + text@ + mock_reset(),
                events: old(self)@.events.push((text@, *style, old(self)@.cursor)),
                style: TextStyle::plain(),
                ..old(self)@
            }),
    {
        self.requests = Ghost(self.requests@.push(ConsoleRequest::WriteStyledText(text@, *style)));
        let ev = StyledOutputEvent { text: owned(text), style: style.clone(), cursor_position: self.cursor };
        let ghost before = self@;
        self.events.push(ev);
        assert(self@.events =~= before.events.push((text@, *style, before.cursor)));
        self.style = style.clone();
        self.append("\x1b[1m");
        self.append(text);
        self.style = TextStyle::default();
        self.append("\x1b[0m");
        assert(self@.output =~= before.output + mock_style_marker() + text@ + mock_reset());
        Ok(())
    }

    fn write_safe_text(&mut self, text: &str) -> (r: ConsoleResult<()>)
        ensures
            r is Ok,
            final(self)@ == (MockOutputView { output: old(self)@.output + text@, ..old(self)@ }),
    {
        self.requests = Ghost(self.requests@.push(ConsoleRequest::WriteSafeText(text@)));
        self.append(text);
        Ok(())
    }

    fn move_cursor_to(&mut self, row: u16, col: u16) -> (r: ConsoleResult<()>)
        ensures
            r is Ok,
            final(self)@ == (MockOutputView {
                output: old(self)@.output + cursor_to_spec(row, col),
                cursor: (row, col),
                ..old(self)@
            }),
    {
        self.requests = Ghost(self.requests@.push(ConsoleRequest::MoveCursorTo(row, col)));
        self.cursor = (row, col);
        let seq = cursor_to_sequence(row, col);
        self.append(seq.as_str());
        Ok(())
    }

    fn move_cursor_relative(&mut self, row_delta: i16, col_delta: i16) -> (r: ConsoleResult<()>)
        ensures
            r is Ok,
            final(self)@ == (MockOutputView {
                cursor: (shifted(old(self)@.cursor.0, row_delta), shifted(old(self)@.cursor.1, col_delta)),
                ..old(self)@
            }),
    {
        self.requests = Ghost(self.requests@.push(ConsoleRequest::MoveCursorRelative(row_delta, col_delta)));
        let r0 = (self.cursor.0 as i16) as i32 + row_delta as i32;
        let c0 = (self.cursor.1 as i16) as i32 + col_delta as i32;
        let r: u16 = if r0 < 0 { 0 } else { r0 as u16 };
        let c: u16 = if c0 < 0 { 0 } else { c0 as u16 };
        self.cursor = (r, c);
        Ok(())
    }

    fn clear(&mut self, clear_type: ClearType) -> (r: ConsoleResult<()>)
        ensures
            r is Ok,
            final(self)@ == (MockOutputView { output: old(self)@.output + clear_spec(clear_type), ..old(self)@ }),
    {
        self.requests = Ghost(self.requests@.push(ConsoleRequest::Clear(clear_type)));
        self.append(clear_sequence(clear_type));
        Ok(())
    }

    fn set_style(&mut self, style: &TextStyle) -> (r: ConsoleResult<()>)
        ensures
            r is Ok,
            final(self)@ == (MockOutputView {
                output: old(self)@.output + mock_style_marker(),
                style: *style,
                ..old(self)@
            }),
    {
        self.requests = Ghost(self.requests@.push(ConsoleRequest::SetStyle(*style)));
        self.style = style.clone();
        self.append("\x1b[1m");
        Ok(())
    }

    fn reset_style(&mut self) -> (r: ConsoleResult<()>)
        ensures
            r is Ok,
            final(self)@ == (MockOutputView {
                output: old(self)@.output + mock_reset(),
                style: TextStyle::plain(),
                ..old(self)@
            }),
    {
        self.requests = Ghost(self.requests@.push(ConsoleRequest::ResetStyle));
        self.style = TextStyle::default();
        self.append("\x1b[0m");
        Ok(())
    }

    fn flush(&mut self) -> (r: ConsoleResult<()>)
        ensures
            r is Ok,
            final(self)@ == old(self)@,
    {
        self.requests = Ghost(self.requests@.push(ConsoleRequest::Flush));
        Ok(())
    }

    fn set_alternate_screen(&mut self, enabled: bool) -> (r: ConsoleResult<()>)
        ensures
            r is Ok,
            final(self)@ == (MockOutputView {
                output: old(self)@.output + alternate_screen_spec(enabled),
                alternate_screen: enabled,
                ..old(self)@
            }),
    {
        self.requests = Ghost(self.requests@.push(ConsoleRequest::SetAlternateScreen(enabled)));
        self.alternate_screen = enabled;
        self.append(alternate_screen_sequence(enabled));
        Ok(())
    }

    fn set_cursor_visible(&mut self, visible: bool) -> (r: ConsoleResult<()>)
        ensures
            r is Ok,
            final(self)@ == (MockOutputView {
                output: old(self)@.output + cursor_visibility_spec(visible),
                cursor_visible: visible,
                ..old(self)@
            }),
    {
        self.requests = Ghost(self.requests@.push(ConsoleRequest::SetCursorVisible(visible)));
        self.cursor_visible = visible;
        self.append(cursor_visibility_sequence(visible));
        Ok(())
    }

    fn get_cursor_position(&mut self) -> (r: ConsoleResult<(u16, u16)>)
        ensures
            r == Ok::<(u16, u16), crate::console::ConsoleError>(old(self)@.cursor),
            final(self)@ == old(self)@,
    {
        Ok(self.cursor)
    }

    fn get_capabilities(&self) -> (c: OutputCapabilities)
        ensures
            c.supports_colors && c.supports_true_color && c.supports_styling,
            c.supports_alternate_screen && c.supports_cursor_control,
            c.max_colors == 65535,
            c.platform_name@ == "Mock"@,
            c.backend_type == BackendType::Mock,
    {
        OutputCapabilities {
            supports_colors: true,
            supports_true_color: true,
            supports_styling: true,
            supports_alternate_screen: true,
            supports_cursor_control: true,
            max_colors: 65535,
            platform_name: owned("Mock"),
            backend_type: BackendType::Mock,
        }
    }
}

/// Console input fed from a queue of key events.
pub struct MockConsoleInput {
    queue: VecDeque<KeyEvent>,
}

impl View for MockConsoleInput {
    type V = Seq<KeyEvent>;

    closed spec fn view(&self) -> Seq<KeyEvent> {
        self.queue@
    }
}

impl MockConsoleInput {
    /// An input with nothing queued.
    pub fn new() -> (m: Self)
        ensures
            m@ == Seq::<KeyEvent>::empty(),
    {
        MockConsoleInput { queue: VecDeque::new() }
    }

    /// Queues an event behind the others.
    pub fn queue_key_event(&mut self, event: KeyEvent)
        ensures
            final(self)@ == old(self)@.push(event),
    {
        self.queue.push_back(event);
    }

    /// Takes the oldest queued event, if any.
    pub fn pop_key_event(&mut self) -> (e: Option<KeyEvent>)
        ensures
            old(self)@.len() == 0 ==> e is None && final(self)@ == old(self)@,
            old(self)@.len() > 0 ==> e == Some(old(self)@[0]) && final(self)@ == old(self)@.drop_first(),
    {
        self.queue.pop_front()
    }

    /// The number of queued events.
    pub fn queued_event_count(&self) -> (n: usize)
        ensures
            n == self@.len(),
    {
        self.queue.len()
    }

    /// Drops every queued event.
    pub fn clear_queue(&mut self)
        ensures
            final(self)@ == Seq::<KeyEvent>::empty(),
    {
        self.queue.clear();
    }

    /// Reads the next key without waiting: the oldest queued event.
    pub fn try_read_key(&mut self) -> (r: ConsoleResult<Option<KeyEvent>>)
        ensures
            old(self)@.len() == 0 ==> r == Ok::<Option<KeyEvent>, crate::console::ConsoleError>(None) && final(self)@ == old(self)@,
            old(self)@.len() > 0 ==> r == Ok::<Option<KeyEvent>, crate::console::ConsoleError>(Some(old(self)@[0]))
                && final(self)@ == old(self)@.drop_first(),
    {
        Ok(self.pop_key_event())
    }

    /// Reads the next key; the mock never waits, whatever the timeout.
    pub fn read_key_timeout(&mut self, timeout_ms: Option<u32>) -> (r: ConsoleResult<Option<KeyEvent>>)
        ensures
            old(self)@.len() == 0 ==> r == Ok::<Option<KeyEvent>, crate::console::ConsoleError>(None) && final(self)@ == old(self)@,
            old(self)@.len() > 0 ==> r == Ok::<Option<KeyEvent>, crate::console::ConsoleError>(Some(old(self)@[0]))
                && final(self)@ == old(self)@.drop_first(),
    {
        Ok(self.pop_key_event())
    }

    /// The mock window: 80 columns, 24 rows.
    pub fn get_window_size(&self) -> (r: ConsoleResult<(u16, u16)>)
        ensures
            r == Ok::<(u16, u16), crate::console::ConsoleError>((80u16, 24u16)),
    {
        Ok((80, 24))
    }

    /// Raw mode, resize events and Unicode; no paste or mouse events.
    pub fn get_capabilities(&self) -> (c: ConsoleCapabilities)
        ensures
            c.supports_raw_mode && c.supports_resize_events && c.supports_unicode,
            !c.supports_bracketed_paste && !c.supports_mouse_events,
            c.platform_name@ == "Mock"@,
            c.backend_type == BackendType::Mock,
    {
        ConsoleCapabilities {
            supports_raw_mode: true,
            supports_resize_events: true,
            supports_bracketed_paste: false,
            supports_mouse_events: false,
            supports_unicode: true,
            platform_name: owned("Mock"),
            backend_type: BackendType::Mock,
        }
    }
}

} // verus!
