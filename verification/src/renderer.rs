//! Drawing the prompt and the input line on a console output, redrawing only
//! when the content or the cursor changed.

use vstd::prelude::*;
use vstd::string::*;
use crate::buffer::Buffer;
use crate::console::{ClearType, ConsoleError, ConsoleOutput, ConsoleRequest, TextStyle};
use crate::repl::ReplError;
use crate::text::{owned, push_str, str_equal};
use crate::unicode::{
    capped_width_spec, char_width, char_width_spec, clamped_range, display_width, rune_count,
    rune_slice, to_chars,
};

verus! {

broadcast use vstd::string::group_string_axioms;

/// What a render call did.
#[derive(Debug, Clone, Copy, PartialEq, Eq, Structural)]
pub enum RenderResult {
    /// Content was updated and rendered
    Updated,
    /// No changes detected, rendering skipped
    NoChange,
    /// Rendering was forced regardless of changes
    Forced,
}

/// Rendering options.
#[derive(Debug, Clone)]
pub struct RenderConfig {
    /// Whether to enable differential rendering optimization
    pub enable_differential_rendering: bool,
    /// Whether to show cursor position
    pub show_cursor: bool,
    /// Maximum line length before wrapping
    pub max_line_length: Option<usize>,
    /// Text style for the prompt
    pub prompt_style: Option<TextStyle>,
    /// Text style for user input
    pub input_style: Option<TextStyle>,
}

impl Default for RenderConfig {
    /// Differential rendering on, cursor shown, no line limit, no styles.
    fn default() -> (c: Self)
        ensures
            c.enable_differential_rendering,
            c.show_cursor,
            c.max_line_length is None,
            c.prompt_style is None,
            c.input_style is None,
    {
        RenderConfig {
            enable_differential_rendering: true,
            show_cursor: true,
            max_line_length: None,
            prompt_style: None,
            input_style: None,
        }
    }
}

/// The hash of what a render shows: the text, the cursor and the prompt,
/// as `DefaultHasher` computes it.
pub uninterp spec fn content_hash(text: Seq<char>, cursor: usize, prompt: Seq<char>) -> u64;

/// Feeds `text`, `cursor` and `prompt`, in that order, to a fresh
/// `DefaultHasher` (its fixed keys make it the same for the same values) and
/// returns `finish()`, the value named `content_hash`.
#[verifier::external_body]
fn hash_content(text: &str, cursor: usize, prompt: &str) -> (h: u64)
    ensures
        h == content_hash(text@, cursor, prompt@),
{
    let mut hasher = std::hash::DefaultHasher::new();
    std::hash::Hash::hash(text, &mut hasher);
    std::hash::Hash::hash(&cursor, &mut hasher);
    std::hash::Hash::hash(prompt, &mut hasher);
    std::hash::Hasher::finish(&hasher)
}

/// Greedy wrapping of runes into lines of at most `limit` columns: the
/// closed lines, the open line, and its width.
pub struct WrapState {
    pub lines: Seq<Seq<char>>,
    pub current: Seq<char>,
    pub width: nat,
}

/// The wrapping state after the runes of `s`: a rune that would overflow a
/// non-empty line starts a new one.
pub open spec fn wrap_state(s: Seq<char>, limit: nat) -> WrapState
    decreases s.len(),
{
    if s.len() == 0 {
        WrapState { lines: Seq::empty(), current: Seq::empty(), width: 0 }
    } else {
        let st = wrap_state(s.drop_last(), limit);
        let c = s.last();
        let cw = char_width_spec(c);
        if st.width + cw > limit && st.current.len() > 0 {
            WrapState { lines: st.lines.push(st.current), current: seq![c], width: cw }
        } else {
            WrapState { lines: st.lines, current: st.current.push(c), width: st.width + cw }
        }
    }
}

/// The lines of `s` wrapped at `limit` columns.
pub open spec fn wrap_lines(s: Seq<char>, limit: nat) -> Seq<Seq<char>> {
    let st = wrap_state(s, limit);
    if st.current.len() > 0 {
        st.lines.push(st.current)
    } else {
        st.lines
    }
}

/// What the line shows after a prompt of `prompt_width` columns in a window
/// `window_width` wide: the text itself when it fits or when the prompt
/// fills the window, otherwise the first of its wrapped lines; and the
/// wrapped lines (none when nothing wraps).
pub open spec fn wrap_spec(prompt_width: nat, window_width: nat, text: Seq<char>) -> (Seq<char>, Seq<Seq<char>>) {
    if window_width <= prompt_width {
        (text, Seq::empty())
    } else if capped_width_spec(text) <= window_width - prompt_width {
        (text, Seq::empty())
    } else {
        let lines = wrap_lines(text, (window_width - prompt_width) as nat);
        (if lines.len() > 0 { lines[0] } else { Seq::empty() }, lines)
    }
}

/// Width of the runes before the cursor (the cursor clamped to the text).
pub open spec fn cursor_width_spec(text: Seq<char>, cursor: usize) -> nat {
    if cursor == 0 {
        0
    } else {
        capped_width_spec(text.subrange(0, clamped_range(text.len(), 0, cursor as int).1))
    }
}

/// Where the cursor lands, on screen row `row`, after a prompt of
/// `prompt_width` columns and `cursor_width` columns of input, in a window
/// `window_width` wide: past the window's edge it wraps to the following
/// rows (the row never beyond the largest `u16`).
pub open spec fn cursor_layout(prompt_width: nat, cursor_width: nat, window_width: u16, row: u16) -> (u16, u16) {
    let col = if prompt_width + cursor_width > usize::MAX { usize::MAX as nat } else { prompt_width + cursor_width };
    if col >= window_width {
        let r = row + col / (window_width as nat);
        (if r > u16::MAX { u16::MAX } else { r as u16 }, (col % (window_width as nat)) as u16)
    } else {
        (row, col as u16)
    }
}

/// The state a renderer keeps: the prompt, what it last drew (hash, cursor,
/// text), the window size, the screen cursor and whether the cursor shows.
pub struct RendererView {
    pub prompt: Seq<char>,
    pub last_cursor: usize,
    pub last_hash: u64,
    pub last_text: Seq<char>,
    pub window: (u16, u16),
    pub screen_cursor: (u16, u16),
    pub cursor_visible: bool,
}

/// Draws the REPL state on a console output.
pub struct Renderer<O> {
    output: O,
    prompt: String,
    last_cursor_pos: usize,
    last_text_hash: u64,
    last_text_content: String,
    window_size: (u16, u16),
    screen_cursor_pos: (u16, u16),
    cursor_visible: bool,
    current_style: TextStyle,
}

impl<O> View for Renderer<O> {
    type V = RendererView;

    closed spec fn view(&self) -> RendererView {
        RendererView {
            prompt: self.prompt@,
            last_cursor: self.last_cursor_pos,
            last_hash: self.last_text_hash,
            last_text: self.last_text_content@,
            window: self.window_size,
            screen_cursor: self.screen_cursor_pos,
            cursor_visible: self.cursor_visible,
        }
    }
}

/// The state after something that makes the next render draw again.
pub open spec fn forget_drawn(v: RendererView) -> RendererView {
    RendererView { last_cursor: 0, last_hash: 0, last_text: Seq::empty(), ..v }
}

/// The state after a line break: the next screen row (the last row stays
/// the last), its first column, nothing drawn on it.
pub open spec fn line_broken(v: RendererView) -> RendererView {
    forget_drawn(
        RendererView {
            screen_cursor: (
                if v.screen_cursor.0 == u16::MAX { u16::MAX } else { (v.screen_cursor.0 + 1) as u16 },
                0u16,
            ),
            ..v
        },
    )
}

/// The state after drawing `text` with the cursor at `cursor`.
pub open spec fn drawn(v: RendererView, text: Seq<char>, cursor: usize) -> RendererView {
    RendererView {
        last_cursor: cursor,
        last_hash: content_hash(text, cursor, v.prompt),
        last_text: text,
        screen_cursor: cursor_layout(
            capped_width_spec(v.prompt),
            cursor_width_spec(text, cursor),
            v.window.0,
            v.screen_cursor.0,
        ),
        ..v
    }
}

/// Whether a render of `text` with the cursor at `cursor` has nothing new
/// to draw.
pub open spec fn unchanged(v: RendererView, text: Seq<char>, cursor: usize) -> bool {
    content_hash(text, cursor, v.prompt) == v.last_hash && cursor == v.last_cursor && text == v.last_text
}

/// Whether `r` is a render error.
pub open spec fn is_render_error<T>(r: Result<T, ReplError>) -> bool {
    r matches Err(ReplError::RenderError(_))
}

/// The state after clearing the screen line: the screen cursor at its
/// start, nothing drawn.
pub open spec fn line_cleared(v: RendererView) -> RendererView {
    forget_drawn(RendererView { screen_cursor: (v.screen_cursor.0, 0u16), ..v })
}

/// What drawing `text` with the cursor at `cursor` asks of the output: go to
/// the start of the screen line, clear it, write the prompt, write the text
/// the line shows (made safe by the output), put the cursor in place, flush.
pub open spec fn draw_requests(v: RendererView, text: Seq<char>, cursor: usize) -> Seq<ConsoleRequest> {
    let d = drawn(v, text, cursor);
    seq![
        ConsoleRequest::MoveCursorTo(v.screen_cursor.0, 0u16),
        ConsoleRequest::Clear(ClearType::FromCursorToEndOfLine),
        ConsoleRequest::WriteText(v.prompt),
        ConsoleRequest::WriteSafeText(wrap_spec(capped_width_spec(v.prompt), v.window.0 as nat, text).0),
        ConsoleRequest::MoveCursorTo(d.screen_cursor.0, d.screen_cursor.1),
        ConsoleRequest::Flush,
    ]
}

/// What clearing the line asks of the output.
pub open spec fn clear_line_requests(v: RendererView) -> Seq<ConsoleRequest> {
    seq![
        ConsoleRequest::MoveCursorTo(v.screen_cursor.0, 0u16),
        ConsoleRequest::Clear(ClearType::FromCursorToEndOfLine),
        ConsoleRequest::Flush,
    ]
}

/// What breaking the line asks of the output.
pub open spec fn break_line_requests() -> Seq<ConsoleRequest> {
    seq![ConsoleRequest::WriteText("\n"@), ConsoleRequest::Flush]
}

/// `after` is `before` followed by the first few of `ops`, at least one: the
/// requests up to the one that failed were made, and none after it.
pub open spec fn partly_sent(before: Seq<ConsoleRequest>, after: Seq<ConsoleRequest>, ops: Seq<ConsoleRequest>) -> bool {
    before.len() < after.len() && before.is_prefix_of(after) && after.is_prefix_of(before + ops)
}

proof fn lemma_partly_sent(before: Seq<ConsoleRequest>, ops: Seq<ConsoleRequest>, k: int)
    requires
        1 <= k <= ops.len(),
    ensures
        partly_sent(before, before + ops.take(k), ops),
{
    assert((before + ops.take(k)).subrange(0, before.len() as int) =~= before);
    assert((before + ops).subrange(0, before.len() + k) =~= before + ops.take(k));
}

fn render_error(prefix: &str, e: ConsoleError) -> (r: ReplError)
    ensures
        r matches ReplError::RenderError(m) && m@ == prefix@ + e.message_spec(),
{
    let mut m = owned(prefix);
    let t = e.to_string();
    push_str(&mut m, t.as_str());
    ReplError::RenderError(m)
}

impl<O: ConsoleOutput> Renderer<O> {
    /// The requests made of the output so far.
    pub closed spec fn requests(&self) -> Seq<ConsoleRequest> {
        self.output.requests()
    }

    /// Whether the output keeps the record of its requests.
    pub closed spec fn records(&self) -> bool {
        self.output.records_requests()
    }

    /// Whether every request to the output succeeds.
    pub closed spec fn output_never_fails(&self) -> bool {
        self.output.never_fails()
    }

    /// A renderer with this output and prompt: nothing drawn yet, an 80x24
    /// window, the screen cursor at (0, 0) and shown.
    pub fn new(output: O, prompt: String) -> (r: Self)
        ensures
            r@ == (RendererView {
                prompt: prompt@,
                last_cursor: 0,
                last_hash: 0,
                last_text: Seq::empty(),
                window: (80, 24),
                screen_cursor: (0, 0),
                cursor_visible: true,
            }),
            r.requests() == output.requests(),
            r.records() == output.records_requests(),
            r.output_never_fails() == output.never_fails(),
    {
        Renderer {
            output,
            prompt,
            last_cursor_pos: 0,
            last_text_hash: 0,
            last_text_content: String::new(),
            window_size: (80, 24),
            screen_cursor_pos: (0, 0),
            cursor_visible: true,
            current_style: TextStyle::default(),
        }
    }

    /// A renderer with a configuration; the configuration changes nothing yet.
    pub fn with_config(output: O, prompt: String, config: RenderConfig) -> (r: Self)
        ensures
            r@ == (RendererView {
                prompt: prompt@,
                last_cursor: 0,
                last_hash: 0,
                last_text: Seq::empty(),
                window: (80, 24),
                screen_cursor: (0, 0),
                cursor_visible: true,
            }),
            r.requests() == output.requests(),
            r.records() == output.records_requests(),
            r.output_never_fails() == output.never_fails(),
    {
        Self::new(output, prompt)
    }

    /// Draws the buffer unless it shows the same text and cursor as the last
    /// drawing.
    pub fn render(&mut self, buffer: &Buffer) -> (r: Result<RenderResult, ReplError>)
        requires
            buffer.wf(),
            old(self)@.window.0 > 0,
        ensures
            ({
                let v = old(self)@;
                let text = buffer.text_spec();
                let cursor = buffer@.cursor as usize;
                &&& unchanged(v, text, cursor) ==> r == Ok::<RenderResult, ReplError>(RenderResult::NoChange)
                    && final(self)@ == v && final(self).requests() == old(self).requests()
                &&& !unchanged(v, text, cursor) ==> (r == Ok::<RenderResult, ReplError>(RenderResult::Updated)
                    && final(self)@ == drawn(v, text, cursor)
                    && (old(self).records() ==> final(self).requests() == old(self).requests() + draw_requests(v, text, cursor)))
                    || (is_render_error(r) && final(self)@.last_hash == v.last_hash
                    && final(self)@.last_cursor == v.last_cursor && final(self)@.last_text == v.last_text
                    && (old(self).records() ==> partly_sent(old(self).requests(), final(self).requests(), draw_requests(v, text, cursor))))
            }),
            final(self)@.prompt == old(self)@.prompt,
            final(self)@.window == old(self)@.window,
            final(self)@.cursor_visible == old(self)@.cursor_visible,
            old(self).records() ==> final(self).records(),
            old(self).output_never_fails() ==> r is Ok && final(self).output_never_fails(),
    {
        let text = buffer.text();
        let cursor = buffer.cursor_position();
        let hash = hash_content(text, cursor, self.prompt.as_str());
        if hash == self.last_text_hash && cursor == self.last_cursor_pos && str_equal(
            text,
            self.last_text_content.as_str(),
        ) {
            return Ok(RenderResult::NoChange);
        }
        match self.render_content(text, cursor) {
            Ok(()) => {},
            Err(e) => {
                return Err(e);
            },
        }
        self.last_text_hash = hash;
        self.last_cursor_pos = cursor;
        self.last_text_content = owned(text);
        Ok(RenderResult::Updated)
    }

    /// Clears the line and draws the buffer whatever was drawn before.
    pub fn force_render(&mut self, buffer: &Buffer) -> (r: Result<RenderResult, ReplError>)
        requires
            buffer.wf(),
            old(self)@.window.0 > 0,
        ensures
            ({
                let v = old(self)@;
                let text = buffer.text_spec();
                let cursor = buffer@.cursor as usize;
                let ops = clear_line_requests(v) + draw_requests(line_cleared(v), text, cursor);
                ||| r == Ok::<RenderResult, ReplError>(RenderResult::Forced)
                    && final(self)@ == drawn(line_cleared(v), text, cursor)
                    && (old(self).records() ==> final(self).requests() == old(self).requests() + ops)
                ||| is_render_error(r) && (old(self).records() ==> partly_sent(old(self).requests(), final(self).requests(), ops))
            }),
            final(self)@.prompt == old(self)@.prompt,
            final(self)@.window == old(self)@.window,
            final(self)@.cursor_visible == old(self)@.cursor_visible,
            old(self).records() ==> final(self).records(),
            old(self).output_never_fails() ==> r is Ok && final(self).output_never_fails(),
    {
        let text = buffer.text();
        let cursor = buffer.cursor_position();
        let ghost v = self@;
        let ghost before = self.requests();
        let ghost ops1 = clear_line_requests(v);
        let ghost ops = clear_line_requests(v) + draw_requests(line_cleared(v), text@, cursor);
        match self.clear_line() {
            Ok(()) => {},
            Err(e) => {
                proof {
                    if old(self).records() {
                        let after = self.requests();
                        assert(after.len() <= before.len() + ops1.len());
                        assert(after =~= (before + ops).subrange(0, after.len() as int)) by {
                            assert forall|i: int| 0 <= i < after.len() implies after[i] == (before + ops)[i] by {
                                assert(after[i] == (before + ops1)[i]);
                            }
                        }
                    }
                }
                return Err(e);
            },
        }
        let ghost middle = self.requests();
        assert(old(self).records() ==> middle =~= before + ops1);
        match self.render_content(text, cursor) {
            Ok(()) => {},
            Err(e) => {
                proof {
                    if old(self).records() {
                        let after = self.requests();
                        assert(after =~= (before + ops).subrange(0, after.len() as int)) by {
                            assert forall|i: int| 0 <= i < after.len() implies after[i] == (before + ops)[i] by {
                                if i < middle.len() {
                                    assert(after[i] == middle[i]);
                                } else {
                                    assert(after[i] == (middle + draw_requests(line_cleared(v), text@, cursor))[i]);
                                }
                            }
                        }
                    }
                }
                return Err(e);
            },
        }
        assert(old(self).records() ==> self.requests() =~= before + ops);
        self.last_text_hash = hash_content(text, cursor, self.prompt.as_str());
        self.last_cursor_pos = cursor;
        self.last_text_content = owned(text);
        Ok(RenderResult::Forced)
    }

    /// Moves to the start of the screen line, clears it, and forgets what
    /// was drawn.
    pub fn clear_line(&mut self) -> (r: Result<(), ReplError>)
        ensures
            (r is Ok && final(self)@ == line_cleared(old(self)@)
                && (old(self).records() ==> final(self).requests() == old(self).requests() + clear_line_requests(old(self)@)))
                || (is_render_error(r) && (old(self).records() ==> partly_sent(old(self).requests(), final(self).requests(), clear_line_requests(old(self)@)))),
            final(self)@.prompt == old(self)@.prompt,
            final(self)@.window == old(self)@.window,
            final(self)@.cursor_visible == old(self)@.cursor_visible,
            old(self).records() ==> final(self).records(),
            old(self).output_never_fails() ==> r is Ok && final(self).output_never_fails(),
    {
        let ghost before = self.requests();
        let ghost ops = clear_line_requests(self@);
        match self.output.move_cursor_to(self.screen_cursor_pos.0, 0) {
            Ok(()) => {},
            Err(e) => {
                proof {
                    if old(self).records() {
                        assert(self.requests() =~= before + ops.take(1));
                        lemma_partly_sent(before, ops, 1);
                    }
                }
                return Err(render_error("Failed to move cursor: ", e));
            },
        }
        match self.output.clear(ClearType::FromCursorToEndOfLine) {
            Ok(()) => {},
            Err(e) => {
                proof {
                    if old(self).records() {
                        assert(self.requests() =~= before + ops.take(2));
                        lemma_partly_sent(before, ops, 2);
                    }
                }
                return Err(render_error("Failed to clear line: ", e));
            },
        }
        self.screen_cursor_pos.1 = 0;
        self.last_text_hash = 0;
        self.last_cursor_pos = 0;
        self.last_text_content = String::new();
        match self.output.flush() {
            Ok(()) => {},
            Err(e) => {
                proof {
                    if old(self).records() {
                        assert(self.requests() =~= before + ops.take(3));
                        lemma_partly_sent(before, ops, 3);
                    }
                }
                return Err(render_error("Failed to flush output: ", e));
            },
        }
        assert(old(self).records() ==> self.requests() =~= before + ops);
        Ok(())
    }

    /// Writes a newline: the screen cursor goes to the start of the next
    /// row, and what was drawn is forgotten.
    pub fn break_line(&mut self) -> (r: Result<(), ReplError>)
        ensures
            (r is Ok && final(self)@ == line_broken(old(self)@) && (old(self).records() ==> final(self).requests() == old(self).requests() + break_line_requests()))
                || (is_render_error(r) && (old(self).records() ==> partly_sent(old(self).requests(), final(self).requests(), break_line_requests()))),
            final(self)@.prompt == old(self)@.prompt,
            final(self)@.window == old(self)@.window,
            final(self)@.cursor_visible == old(self)@.cursor_visible,
            old(self).records() ==> final(self).records(),
            old(self).output_never_fails() ==> r is Ok && final(self).output_never_fails(),
    {
        let ghost before = self.requests();
        let ghost ops = break_line_requests();
        match self.output.write_text("\n") {
            Ok(()) => {},
            Err(e) => {
                proof {
                    if old(self).records() {
                        assert(self.requests() =~= before + ops.take(1));
                        lemma_partly_sent(before, ops, 1);
                    }
                }
                return Err(render_error("Failed to write newline: ", e));
            },
        }
        let row = self.screen_cursor_pos.0;
        self.screen_cursor_pos = (row.saturating_add(1), 0);
        self.last_text_hash = 0;
        self.last_cursor_pos = 0;
        self.last_text_content = String::new();
        match self.output.flush() {
            Ok(()) => {},
            Err(e) => {
                proof {
                    if old(self).records() {
                        assert(self.requests() =~= before + ops.take(2));
                        lemma_partly_sent(before, ops, 2);
                    }
                }
                return Err(render_error("Failed to flush output: ", e));
            },
        }
        assert(old(self).records() ==> self.requests() =~= before + ops);
        Ok(())
    }

    /// Records a new window size; the next render draws again.
    pub fn update_window_size(&mut self, width: u16, height: u16)
        ensures
            final(self)@ == forget_drawn(RendererView { window: (width, height), ..old(self)@ }),
            final(self).requests() == old(self).requests(),
            final(self).records() == old(self).records(),
            final(self).output_never_fails() == old(self).output_never_fails(),
    {
        self.window_size = (width, height);
        self.last_text_hash = 0;
        self.last_cursor_pos = 0;
        self.last_text_content = String::new();
    }

    /// The window size (columns, rows).
    pub fn window_size(&self) -> (r: (u16, u16))
        ensures
            r == self@.window,
    {
        self.window_size
    }

    /// The prompt.
    pub fn prompt(&self) -> (r: &str)
        ensures
            r@ == self@.prompt,
    {
        self.prompt.as_str()
    }

    /// Sets the prompt; the next render draws again.
    pub fn set_prompt(&mut self, prompt: String)
        ensures
            final(self)@ == (RendererView {
                prompt: prompt@,
                last_hash: 0,
                last_text: Seq::empty(),
                ..old(self)@
            }),
            final(self).requests() == old(self).requests(),
            final(self).records() == old(self).records(),
            final(self).output_never_fails() == old(self).output_never_fails(),
    {
        self.prompt = prompt;
        self.last_text_hash = 0;
        self.last_text_content = String::new();
    }

    /// The screen cursor (row, column).
    pub fn screen_cursor_position(&self) -> (r: (u16, u16))
        ensures
            r == self@.screen_cursor,
    {
        self.screen_cursor_pos
    }

    /// Shows or hides the cursor; asks the output only when that changes
    /// something.
    pub fn set_cursor_visible(&mut self, visible: bool) -> (r: Result<(), ReplError>)
        ensures
            old(self)@.cursor_visible == visible ==> r is Ok && final(self)@ == old(self)@
                && final(self).requests() == old(self).requests(),
            old(self)@.cursor_visible != visible ==> (old(self).records() ==> final(self).requests()
                == old(self).requests().push(ConsoleRequest::SetCursorVisible(visible))) && ((r is Ok && final(self)@ == (RendererView { cursor_visible: visible, ..old(self)@ }))
                || (is_render_error(r) && final(self)@ == old(self)@)),
            old(self).records() ==> final(self).records(),
            old(self).output_never_fails() ==> r is Ok && final(self).output_never_fails(),
    {
        if self.cursor_visible != visible {
            match self.output.set_cursor_visible(visible) {
                Ok(()) => {},
                Err(e) => {
                    return Err(render_error("Failed to set cursor visibility: ", e));
                },
            }
            self.cursor_visible = visible;
        }
        Ok(())
    }

    /// Whether the cursor is shown.
    pub fn is_cursor_visible(&self) -> (b: bool)
        ensures
            b == self@.cursor_visible,
    {
        self.cursor_visible
    }

    /// Terminal columns of `text`.
    pub fn calculate_display_width(&self, text: &str) -> (w: usize)
        ensures
            w == capped_width_spec(text@),
    {
        display_width(text)
    }

    /// The hash of drawing `text` with the cursor at `cursor_pos` after this
    /// renderer's prompt.
    pub fn calculate_content_hash(&self, text: &str, cursor_pos: usize) -> (h: u64)
        ensures
            h == content_hash(text@, cursor_pos, self@.prompt),
    {
        hash_content(text, cursor_pos, self.prompt.as_str())
    }

    /// What the line shows of `text` and how `text` wraps, in this window
    /// after this prompt.
    pub fn handle_line_wrapping(&self, text: &str) -> (r: Result<(String, Vec<String>), ReplError>)
        ensures
            r matches Ok((d, v)) && d@ == wrap_spec(capped_width_spec(self@.prompt), self@.window.0 as nat, text@).0
                && v@.map_values(|s: String| s@) == wrap_spec(capped_width_spec(self@.prompt), self@.window.0 as nat, text@).1,
    {
        let prompt_width = display_width(self.prompt.as_str());
        let available = self.window_size.0 as usize;
        if available <= prompt_width {
            let v: Vec<String> = Vec::new();
            assert(v@.map_values(|s: String| s@) =~= Seq::<Seq<char>>::empty());
            return Ok((owned(text), v));
        }
        let text_width = available - prompt_width;
        if display_width(text) <= text_width {
            let v: Vec<String> = Vec::new();
            assert(v@.map_values(|s: String| s@) =~= Seq::<Seq<char>>::empty());
            return Ok((owned(text), v));
        }
        let chars = to_chars(text);
        let mut lines: Vec<String> = Vec::new();
        let mut current = String::new();
        let mut current_width: usize = 0;
        let mut i: usize = 0;
        while i < chars.len()
            invariant
                chars@ == text@,
                i <= chars@.len(),
                text_width <= 65535,
                current_width <= text_width + 2,
                current@.len() == 0 ==> current_width == 0,
                lines@.map_values(|s: String| s@) == wrap_state(chars@.take(i as int), text_width as nat).lines,
                current@ == wrap_state(chars@.take(i as int), text_width as nat).current,
                current_width == wrap_state(chars@.take(i as int), text_width as nat).width,
            decreases chars.len() - i,
        {
            let c = chars[i];
            let cw = char_width(c);
            let ghost before = lines@.map_values(|s: String| s@);
            assert(chars@.take(i + 1).drop_last() =~= chars@.take(i as int));
            assert(chars@.take(i + 1).last() == c);
            if current_width + cw > text_width && crate::unicode::rune_count(current.as_str()) > 0 {
                let done = current.clone();
                lines.push(done);
                assert(lines@.map_values(|s: String| s@) =~= before.push(current@));
                current = String::new();
                current_width = 0;
            }
            crate::text::push_char(&mut current, c);
            current_width = current_width + cw;
            i = i + 1;
        }
        assert(chars@.take(i as int) =~= chars@);
        let ghost st = wrap_state(text@, text_width as nat);
        if crate::unicode::rune_count(current.as_str()) > 0 {
            let ghost before = lines@.map_values(|s: String| s@);
            lines.push(current);
            assert(lines@.map_values(|s: String| s@) =~= before.push(st.current));
        }
        let first = if lines.len() > 0 {
            lines[0].clone()
        } else {
            String::new()
        };
        proof {
            let all = lines@.map_values(|s: String| s@);
            if lines@.len() > 0 {
                assert(all[0] == lines@[0]@);
            }
        }
        Ok((first, lines))
    }

    /// Columns of the input before the cursor (the cursor clamped to the text).
    pub fn calculate_cursor_display_position(&self, text: &str, cursor_pos: usize) -> (r: Result<usize, ReplError>)
        ensures
            r == Ok::<usize, ReplError>(cursor_width_spec(text@, cursor_pos) as usize),
    {
        if cursor_pos == 0 {
            return Ok(0);
        }
        let n = rune_count(text);
        let safe = if cursor_pos < n {
            cursor_pos
        } else {
            n
        };
        let before = rune_slice(text, 0, safe);
        Ok(display_width(before))
    }

    fn render_content(&mut self, text: &str, cursor_pos: usize) -> (r: Result<(), ReplError>)
        requires
            old(self)@.window.0 > 0,
        ensures
            (r is Ok && final(self)@ == (RendererView {
                screen_cursor: drawn(old(self)@, text@, cursor_pos).screen_cursor,
                ..old(self)@
            }) && (old(self).records() ==> final(self).requests() == old(self).requests() + draw_requests(old(self)@, text@, cursor_pos)))
                || (is_render_error(r) && final(self)@.last_hash == old(self)@.last_hash
                && final(self)@.last_cursor == old(self)@.last_cursor
                && final(self)@.last_text == old(self)@.last_text
                && (old(self).records() ==> partly_sent(old(self).requests(), final(self).requests(), draw_requests(old(self)@, text@, cursor_pos)))),
            final(self)@.prompt == old(self)@.prompt,
            final(self)@.window == old(self)@.window,
            final(self)@.cursor_visible == old(self)@.cursor_visible,
            old(self).records() ==> final(self).records(),
            old(self).output_never_fails() ==> r is Ok && final(self).output_never_fails(),
    {
        let ghost before = self.requests();
        let ghost ops = draw_requests(self@, text@, cursor_pos);
        match self.output.move_cursor_to(self.screen_cursor_pos.0, 0) {
            Ok(()) => {},
            Err(e) => {
                proof {
                    if old(self).records() {
                        assert(self.requests() =~= before + ops.take(1));
                        lemma_partly_sent(before, ops, 1);
                    }
                }
                return Err(render_error("Failed to move cursor to line start: ", e));
            },
        }
        match self.output.clear(ClearType::FromCursorToEndOfLine) {
            Ok(()) => {},
            Err(e) => {
                proof {
                    if old(self).records() {
                        assert(self.requests() =~= before + ops.take(2));
                        lemma_partly_sent(before, ops, 2);
                    }
                }
                return Err(render_error("Failed to clear line: ", e));
            },
        }
        match self.output.write_text(self.prompt.as_str()) {
            Ok(()) => {},
            Err(e) => {
                proof {
                    if old(self).records() {
                        assert(self.requests() =~= before + ops.take(3));
                        lemma_partly_sent(before, ops, 3);
                    }
                }
                return Err(render_error("Failed to write prompt: ", e));
            },
        }
        let prompt_width = display_width(self.prompt.as_str());
        let display_text = match self.handle_line_wrapping(text) {
            Ok((d, _)) => d,
            Err(e) => {
                return Err(e);
            },
        };
        match self.output.write_safe_text(display_text.as_str()) {
            Ok(()) => {},
            Err(e) => {
                proof {
                    if old(self).records() {
                        assert(self.requests() =~= before + ops.take(4));
                        lemma_partly_sent(before, ops, 4);
                    }
                }
                return Err(render_error("Failed to write text: ", e));
            },
        }
        let cursor_width = match self.calculate_cursor_display_position(text, cursor_pos) {
            Ok(w) => w,
            Err(e) => {
                return Err(e);
            },
        };
        let col = prompt_width.saturating_add(cursor_width);
        let width = self.window_size.0;
        let row = self.screen_cursor_pos.0;
        let (cursor_row, cursor_col): (u16, u16) = if col >= width as usize {
            let down = col / (width as usize);
            let r: u16 = if down >= (u16::MAX - row) as usize {
                u16::MAX
            } else {
                row + down as u16
            };
            (r, (col % (width as usize)) as u16)
        } else {
            (row, col as u16)
        };
        match self.output.move_cursor_to(cursor_row, cursor_col) {
            Ok(()) => {},
            Err(e) => {
                proof {
                    if old(self).records() {
                        assert(self.requests() =~= before + ops.take(5));
                        lemma_partly_sent(before, ops, 5);
                    }
                }
                return Err(render_error("Failed to position cursor: ", e));
            },
        }
        self.screen_cursor_pos = (cursor_row, cursor_col);
        match self.output.flush() {
            Ok(()) => {},
            Err(e) => {
                proof {
                    if old(self).records() {
                        assert(self.requests() =~= before + ops.take(6));
                        lemma_partly_sent(before, ops, 6);
                    }
                }
                return Err(render_error("Failed to flush output: ", e));
            },
        }
        assert(old(self).records() ==> self.requests() =~= before + ops);
        Ok(())
    }
}

} // verus!
