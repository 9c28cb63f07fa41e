//! The byte stream of a VT/ANSI terminal output: what each console
//! operation sends, whether it is sent now or held until a flush, and what
//! the terminal is able to show.

use vstd::prelude::*;
use vstd::string::*;
use crate::ansi::{
    alternate_screen_sequence, alternate_screen_spec, clear_sequence, clear_spec,
    cursor_query_sequence, cursor_query_spec, cursor_relative_sequence, cursor_relative_spec,
    cursor_to_sequence, cursor_to_spec, cursor_visibility_sequence, cursor_visibility_spec,
    reset_sequence, reset_spec, style_sequence, style_to_ansi,
};
use crate::console::{
    filter_run, BackendType, ClearType, ConsoleCapabilities, FilterState, OutputCapabilities,
    SafeTextFilter, SanitizationPolicy, TextStyle,
};
use crate::text::{owned, push_str};
use crate::unicode::to_chars;

verus! {

broadcast use vstd::string::group_string_axioms;

/// A VT output stream: the text produced so far and not yet handed to the
/// terminal, and whether output is being held back until a flush.
pub struct VtOutput {
    pending: String,
    buffering: bool,
}

/// The text of a styled write: the style's SGR sequence, the text, and a
/// reset when the style set anything.
pub open spec fn styled_spec(text: Seq<char>, style: TextStyle) -> Seq<char> {
    if style_sequence(style).len() == 0 {
        text
    } else {
        style_sequence(style) + text + reset_spec()
    }
}

/// The text of a safe write: the text through a fresh filter that removes
/// dangerous sequences.
pub open spec fn safe_spec(text: &str) -> Seq<char> {
    filter_run(SanitizationPolicy::RemoveDangerous, FilterState::Normal, text@).1
}

impl View for VtOutput {
    type V = (Seq<char>, bool);

    /// (text not yet handed out, buffering on)
    closed spec fn view(&self) -> (Seq<char>, bool) {
        (self.pending@, self.buffering)
    }
}

impl VtOutput {
    /// An empty stream that writes through.
    pub fn new() -> (o: Self)
        ensures
            o@ == (Seq::<char>::empty(), false),
    {
        VtOutput { pending: String::new(), buffering: false }
    }

    /// Hold output back until the next flush.
    pub fn enable_buffering(&mut self)
        ensures
            final(self)@ == (old(self)@.0, true),
    {
        self.buffering = true;
    }

    /// Write through again; what is pending is handed out at the next flush.
    pub fn disable_buffering(&mut self)
        ensures
            final(self)@ == (old(self)@.0, false),
    {
        self.buffering = false;
    }

    /// Whether output is held back.
    pub fn is_buffering(&self) -> (b: bool)
        ensures
            b == self@.1,
    {
        self.buffering
    }

    /// The text not yet handed out.
    pub fn pending(&self) -> (s: &str)
        ensures
            s@ == self@.0,
    {
        self.pending.as_str()
    }

    /// What is to be written to the terminal now: everything pending when
    /// writing through, nothing while buffering.
    pub fn take_ready(&mut self) -> (s: String)
        ensures
            old(self)@.1 ==> s@ == Seq::<char>::empty() && final(self)@ == old(self)@,
            !old(self)@.1 ==> s@ == old(self)@.0 && final(self)@ == (Seq::<char>::empty(), false),
    {
        if self.buffering {
            String::new()
        } else {
            self.take_all()
        }
    }

    /// Everything pending, which the stream then forgets (a flush).
    pub fn take_all(&mut self) -> (s: String)
        ensures
            s@ == old(self)@.0,
            final(self)@ == (Seq::<char>::empty(), old(self)@.1),
    {
        let mut s = String::new();
        std::mem::swap(&mut s, &mut self.pending);
        s
    }

    fn append(&mut self, t: &str)
        ensures
            final(self)@ == (old(self)@.0 + t@, old(self)@.1),
    {
        push_str(&mut self.pending, t);
    }

    /// Plain text.
    pub fn write_text(&mut self, text: &str)
        ensures
            final(self)@ == (old(self)@.0 + text@, old(self)@.1),
    {
        self.append(text);
    }

    /// Text in a style; the style is reset afterwards when it set anything.
    pub fn write_styled_text(&mut self, text: &str, style: &TextStyle)
        ensures
            final(self)@ == (old(self)@.0 + styled_spec(text@, *style), old(self)@.1),
    {
        let seq = style_to_ansi(style);
        let empty = crate::unicode::rune_count(seq.as_str()) == 0;
        if !empty {
            self.append(seq.as_str());
        }
        self.append(text);
        if !empty {
            self.append(reset_sequence());
        }
        assert(final(self)@.0 =~= old(self)@.0 + styled_spec(text@, *style));
    }

    /// Text with its escape sequences and control characters removed
    /// (tab, newline and carriage return stay).
    pub fn write_safe_text(&mut self, text: &str)
        ensures
            final(self)@ == (old(self)@.0 + safe_spec(text), old(self)@.1),
    {
        let mut filter = SafeTextFilter::new(SanitizationPolicy::RemoveDangerous);
        let safe = filter.filter(text);
        self.append(safe.as_str());
    }

    /// Absolute cursor motion to the zero-based (row, col).
    pub fn move_cursor_to(&mut self, row: u16, col: u16)
        ensures
            final(self)@ == (old(self)@.0 + cursor_to_spec(row, col), old(self)@.1),
    {
        let s = cursor_to_sequence(row, col);
        self.append(s.as_str());
    }

    /// Relative cursor motion.
    pub fn move_cursor_relative(&mut self, row_delta: i16, col_delta: i16)
        ensures
            final(self)@ == (old(self)@.0 + cursor_relative_spec(row_delta, col_delta), old(self)@.1),
    {
        let s = cursor_relative_sequence(row_delta, col_delta);
        self.append(s.as_str());
    }

    /// Erase part of the screen or line.
    pub fn clear(&mut self, clear_type: ClearType)
        ensures
            final(self)@ == (old(self)@.0 + clear_spec(clear_type), old(self)@.1),
    {
        self.append(clear_sequence(clear_type));
    }

    /// Select a style for what follows; a style that sets nothing writes nothing.
    pub fn set_style(&mut self, style: &TextStyle)
        ensures
            final(self)@ == (old(self)@.0 + style_sequence(*style), old(self)@.1),
    {
        let s = style_to_ansi(style);
        self.append(s.as_str());
    }

    /// Reset every attribute.
    pub fn reset_style(&mut self)
        ensures
            final(self)@ == (old(self)@.0 + reset_spec(), old(self)@.1),
    {
        self.append(reset_sequence());
    }

    /// Enter or leave the alternate screen.
    pub fn set_alternate_screen(&mut self, enabled: bool)
        ensures
            final(self)@ == (old(self)@.0 + alternate_screen_spec(enabled), old(self)@.1),
    {
        self.append(alternate_screen_sequence(enabled));
    }

    /// Show or hide the cursor.
    pub fn set_cursor_visible(&mut self, visible: bool)
        ensures
            final(self)@ == (old(self)@.0 + cursor_visibility_spec(visible), old(self)@.1),
    {
        self.append(cursor_visibility_sequence(visible));
    }

    /// Ask the terminal where the cursor is.
    pub fn query_cursor_position(&mut self)
        ensures
            final(self)@ == (old(self)@.0 + cursor_query_spec(), old(self)@.1),
    {
        self.append(cursor_query_sequence());
    }
}

/// Whether `pat` occurs in `s`.
pub open spec fn contains_spec(s: Seq<char>, pat: Seq<char>) -> bool {
    exists|i: int| 0 <= i && i + pat.len() <= s.len() && #[trigger] s.subrange(i, i + pat.len()) == pat
}

/// Whether `pat` occurs in `s`.
pub fn contains_str(s: &str, pat: &str) -> (b: bool)
    ensures
        b == contains_spec(s@, pat@),
{
    let a = to_chars(s);
    let p = to_chars(pat);
    if p.len() > a.len() {
        proof {
            assert forall|i: int| 0 <= i && i + p@.len() <= a@.len() implies #[trigger] a@.subrange(i, i + p@.len()) != p@ by {}
        }
        return false;
    }
    if p.len() == 0 {
        assert(s@.subrange(0, 0 + pat@.len() as int) =~= pat@);
        return true;
    }
    let last = a.len() - p.len();
    let mut i: usize = 0;
    while i <= last
        invariant
            a@ == s@,
            p@ == pat@,
            p@.len() <= a@.len(),
            last + p@.len() == a@.len(),
            a@.len() <= usize::MAX,
            p@.len() > 0,
            i <= last + 1,
            forall|k: int| 0 <= k < i ==> #[trigger] a@.subrange(k, k + p@.len()) != p@,
        decreases last + 1 - i,
    {
        let mut j: usize = 0;
        let mut same = true;
        while j < p.len()
            invariant
                a@ == s@,
                p@ == pat@,
                i <= last,
                last + p@.len() == a@.len(),
                a@.len() <= usize::MAX,
                j <= p@.len(),
                same == (forall|m: int| 0 <= m < j ==> a@[i + m] == p@[m]),
            decreases p.len() - j,
        {
            if a[i + j] != p[j] {
                same = false;
            }
            j = j + 1;
        }
        if same {
            assert(a@.subrange(i as int, i + p@.len()) =~= p@);
            return true;
        }
        proof {
            let k = i as int;
            assert(a@.subrange(k, k + p@.len()) != p@) by {
                let m = choose|m: int| 0 <= m < p@.len() && a@[k + m] != p@[m];
                assert(a@.subrange(k, k + p@.len())[m] == a@[k + m]);
            }
        }
        i = i + 1;
    }
    false
}

/// Whether the environment announces 24-bit color: `COLORTERM` is
/// "truecolor" or "24bit", or `TERM` mentions "256color" or "truecolor", or
/// `TERM_PROGRAM` is set at all.
pub open spec fn true_color_spec(colorterm: Option<Seq<char>>, term: Option<Seq<char>>, term_program_set: bool) -> bool {
    (colorterm matches Some(c) && (c == "truecolor"@ || c == "24bit"@))
        || (term matches Some(t) && (contains_spec(t, "256color"@) || contains_spec(t, "truecolor"@)))
        || term_program_set
}

/// The view of an optional string.
pub open spec fn opt_view(s: Option<&str>) -> Option<Seq<char>> {
    match s {
        Some(t) => Some(t@),
        None => None,
    }
}

/// Decides true color support from the values of `COLORTERM`, `TERM` and
/// whether `TERM_PROGRAM` is set.
pub fn true_color_support(colorterm: Option<&str>, term: Option<&str>, term_program_set: bool) -> (b: bool)
    ensures
        b == true_color_spec(opt_view(colorterm), opt_view(term), term_program_set),
{
    if let Some(c) = colorterm {
        if crate::text::str_equal(c, "truecolor") || crate::text::str_equal(c, "24bit") {
            return true;
        }
    }
    if let Some(t) = term {
        if contains_str(t, "256color") || contains_str(t, "truecolor") {
            return true;
        }
    }
    term_program_set
}

/// What a VT terminal output offers: colors, styling, alternate screen and
/// cursor control always; true color and 65535 colors when detected,
/// otherwise 256 colors.
pub fn vt_output_capabilities(true_color: bool) -> (c: OutputCapabilities)
    ensures
        c.supports_colors && c.supports_styling && c.supports_alternate_screen && c.supports_cursor_control,
        c.supports_true_color == true_color,
        c.max_colors == (if true_color { 65535u16 } else { 256u16 }),
        c.platform_name@ == "Unix VT"@,
        c.backend_type == BackendType::UnixVt,
{
    OutputCapabilities {
        supports_colors: true,
        supports_true_color: true_color,
        supports_styling: true,
        supports_alternate_screen: true,
        supports_cursor_control: true,
        max_colors: if true_color { 65535 } else { 256 },
        platform_name: owned("Unix VT"),
        backend_type: BackendType::UnixVt,
    }
}

/// What a Unix terminal input offers: raw mode, resize events, bracketed
/// paste, mouse events and Unicode.
pub fn vt_input_capabilities() -> (c: ConsoleCapabilities)
    ensures
        c.supports_raw_mode && c.supports_resize_events && c.supports_bracketed_paste,
        c.supports_mouse_events && c.supports_unicode,
        c.platform_name@ == "Unix VT"@,
        c.backend_type == BackendType::UnixVt,
{
    ConsoleCapabilities {
        supports_raw_mode: true,
        supports_resize_events: true,
        supports_bracketed_paste: true,
        supports_mouse_events: true,
        supports_unicode: true,
        platform_name: owned("Unix VT"),
        backend_type: BackendType::UnixVt,
    }
}

} // verus!
