//! Immutable text with a cursor, and the analyses that editing builds on:
//! words, lines and cursor movement targets.

use vstd::prelude::*;
use vstd::string::*;
use crate::error::{BufferError, BufferResult};
use crate::error::validation::{validate_cursor_position, validate_text_encoding};
use crate::key::Key;
use crate::scan::{compute_line_starts, count_newlines, lemma_line_starts, scan_line_begin, scan_line_end, is_sep, is_sep_exec, line_begin, line_end, line_starts, newline_count, opt_seq, run_end, run_start, scan_left, scan_right, skip_whitespace};
use crate::text::{owned, push_str};
use crate::unicode::{capped_width_spec, char_at_rune_index, display_width, is_whitespace, to_chars};

verus! {

broadcast use vstd::string::group_string_axioms;

/// The abstract content of a document.
pub struct DocumentView {
    pub text: Seq<char>,
    pub cursor: nat,
    pub last_key: Option<Key>,
}

/// An immutable document: text, a cursor given as a rune index, and the last
/// key stroke.
#[derive(Debug, PartialEq)]
pub struct Document {
    text: String,
    cursor_position: usize,
    last_key: Option<Key>,
}

impl Clone for Document {
    fn clone(&self) -> (r: Self)
        ensures
            r@ == self@,
    {
        proof {
            use_type_invariant(self);
        }
        Document {
            text: self.text.clone(),
            cursor_position: self.cursor_position,
            last_key: self.last_key,
        }
    }
}

impl View for Document {
    type V = DocumentView;

    closed spec fn view(&self) -> DocumentView {
        DocumentView { text: self.text@, cursor: self.cursor_position as nat, last_key: self.last_key }
    }
}

/// `a` capped at `b`.
pub open spec fn min_int(a: int, b: int) -> int {
    if a <= b {
        a
    } else {
        b
    }
}

/// The runes of `s` in the range `r`, empty when the range is empty or inverted.
pub open spec fn range_text(s: Seq<char>, r: (int, int)) -> Seq<char> {
    if r.0 >= r.1 {
        Seq::empty()
    } else {
        s.subrange(r.0, r.1)
    }
}

/// Range of the word before the cursor `c`. When the cursor is inside a word,
/// the rune under the cursor belongs to it; with `include_space` the range
/// reaches back over the separators before the cursor and the word before them.
pub open spec fn word_before_range(s: Seq<char>, c: int, include_space: bool, seps: Option<
    Seq<char>,
>) -> (int, int) {
    if s.len() == 0 || c == 0 {
        (0, 0)
    } else if include_space {
        (run_start(s, seps, run_start(s, seps, c, true), false), c)
    } else if is_sep(s[c - 1], seps) {
        (0, 0)
    } else {
        let st0 = run_start(s, seps, c, false);
        let st = if seps is Some {
            skip_whitespace(s, st0, c)
        } else {
            st0
        };
        let end = if c < s.len() && !is_sep(s[c], seps) {
            c + 1
        } else {
            c
        };
        (st, end)
    }
}

/// Range of the word after the cursor `c`; with `include_space` it first
/// reaches over the separators after the cursor.
pub open spec fn word_after_range(s: Seq<char>, c: int, include_space: bool, seps: Option<
    Seq<char>,
>) -> (int, int) {
    if s.len() == 0 {
        (0, 0)
    } else if include_space {
        (c, run_end(s, seps, run_end(s, seps, c, true), false))
    } else if c < s.len() && is_sep(s[c], seps) {
        (0, 0)
    } else {
        (c, run_end(s, seps, c, false))
    }
}

/// Distance from the cursor back to the start of the previous word; with
/// `include_space` the separators before that word are counted too.
pub open spec fn boundary_before(s: Seq<char>, c: int, include_space: bool, seps: Option<
    Seq<char>,
>) -> int {
    if c == 0 {
        0
    } else if include_space {
        c - run_start(s, seps, run_start(s, seps, c, false), true)
    } else if run_start(s, seps, c, true) == 0 {
        0
    } else {
        c - run_start(s, seps, run_start(s, seps, c, true), false)
    }
}

/// Distance from the cursor to the end of the current word; with
/// `include_space` the separators after it are counted too.
pub open spec fn boundary_after(s: Seq<char>, c: int, include_space: bool, seps: Option<
    Seq<char>,
>) -> int {
    if c >= s.len() {
        0
    } else if include_space {
        run_end(s, seps, run_end(s, seps, c, false), true) - c
    } else if run_end(s, seps, c, true) >= s.len() {
        0
    } else {
        run_end(s, seps, run_end(s, seps, c, true), false) - c
    }
}

/// The row (zero-based line number) of position `i`.
pub open spec fn row_of(s: Seq<char>, i: int) -> int {
    newline_count(s.take(i)) as int
}

/// The column of position `i` within its line.
pub open spec fn col_of(s: Seq<char>, i: int) -> int {
    i - line_begin(s, i)
}

/// Number of lines: one more than the number of newlines.
pub open spec fn line_count_spec(s: Seq<char>) -> int {
    newline_count(s) + 1int
}

/// End of line `row`: just before the next line's start, or the end of the text.
pub open spec fn row_end(s: Seq<char>, row: int) -> int {
    if row + 1 < line_starts(s).len() {
        line_starts(s)[row + 1] - 1
    } else {
        s.len() as int
    }
}

/// Index of (`row`, `col`), the column clamped to the line and a row past
/// the last giving the end of the text.
pub open spec fn row_col_to_index(s: Seq<char>, row: int, col: int) -> int {
    if row >= line_starts(s).len() {
        s.len() as int
    } else {
        line_starts(s)[row] + min_int(col, row_end(s, row) - line_starts(s)[row])
    }
}

/// Target of moving the cursor `c` up `count` lines, keeping `preferred` (or
/// the current) column; the cursor itself when it cannot move.
pub open spec fn up_target(s: Seq<char>, c: int, count: int, preferred: Option<usize>) -> int {
    if count == 0 || row_of(s, c) == 0 {
        c
    } else {
        let target_row = if count >= row_of(s, c) {
            0
        } else {
            row_of(s, c) - count
        };
        let target_col = match preferred {
            Some(p) => p as int,
            None => col_of(s, c),
        };
        row_col_to_index(s, target_row, target_col)
    }
}

/// Target of moving the cursor `c` down `count` lines, keeping `preferred`
/// (or the current) column; the cursor itself when it cannot move.
pub open spec fn down_target(s: Seq<char>, c: int, count: int, preferred: Option<usize>) -> int {
    if count == 0 || row_of(s, c) >= line_count_spec(s) - 1 {
        c
    } else {
        let target_row = min_int(row_of(s, c) + count, line_count_spec(s) - 1);
        let target_col = match preferred {
            Some(p) => p as int,
            None => col_of(s, c),
        };
        row_col_to_index(s, target_row, target_col)
    }
}

/// First position at or after `pos`, not past `limit`, that is neither a space nor a tab.
pub open spec fn skip_blanks(s: Seq<char>, pos: int, limit: int) -> int
    decreases limit - pos,
{
    if pos >= limit {
        pos
    } else if s[pos] == ' ' || s[pos] == '\t' {
        skip_blanks(s, pos + 1, limit)
    } else {
        pos
    }
}

/// The rune at `i`, if there is one.
pub open spec fn char_at(s: Seq<char>, i: int) -> Option<char> {
    if 0 <= i < s.len() {
        Some(s[i])
    } else {
        None
    }
}

/// The separators argument as an optional rune sequence.
pub open spec fn opt_str(o: Option<&str>) -> Option<Seq<char>> {
    match o {
        Some(s) => Some(s@),
        None => None,
    }
}

fn seps_chars(separators: Option<&str>) -> (r: Option<Vec<char>>)
    ensures
        opt_seq(r) == opt_str(separators),
{
    match separators {
        Some(s) => Some(to_chars(s)),
        None => None,
    }
}

impl Document {
    /// Whether the cursor lies within the text; every document satisfies this.
    pub open spec fn wf(&self) -> bool {
        self@.cursor <= self@.text.len()
    }

    #[verifier::type_invariant]
    closed spec fn inv(&self) -> bool {
        self.cursor_position <= self.text@.len()
    }

    /// Create a new empty document.
    pub fn new() -> (d: Self)
        ensures
            d@.text.len() == 0,
            d@.cursor == 0,
            d@.last_key is None,
    {
        Document { text: String::new(), cursor_position: 0, last_key: None }
    }

    /// Create a document; the cursor is clamped to the end of the text.
    pub fn with_text(text: String, cursor_position: usize) -> (d: Self)
        ensures
            d@.text == text@,
            d@.cursor == min_int(cursor_position as int, text@.len() as int),
            d@.last_key is None,
    {
        Self::with_text_and_key(text, cursor_position, None)
    }

    /// Create a document with a last key stroke; the cursor is clamped to the
    /// end of the text.
    pub fn with_text_and_key(text: String, cursor_position: usize, last_key: Option<Key>) -> (d:
        Self)
        ensures
            d@.text == text@,
            d@.cursor == min_int(cursor_position as int, text@.len() as int),
            d@.last_key == last_key,
    {
        let text_len = text.as_str().unicode_len();
        let cursor_position = if cursor_position < text_len {
            cursor_position
        } else {
            text_len
        };
        Document { text, cursor_position, last_key }
    }

    /// Create a document, refusing text with a NUL character and a cursor
    /// past the end of the text.
    pub fn with_text_validated(text: String, cursor_position: usize) -> (r: BufferResult<Self>)
        ensures
            (!text@.contains('\0') && cursor_position <= text@.len()) <==> r is Ok,
            r matches Ok(d) ==> d@.text == text@ && d@.cursor == cursor_position
                && d@.last_key is None,
            text@.contains('\0') ==> r matches Err(BufferError::TextEncodingError(_)),
            !text@.contains('\0') && cursor_position > text@.len() ==> r == Err::<Self, BufferError>(
                BufferError::InvalidCursorPosition {
                    position: cursor_position,
                    max: text@.len() as usize,
                },
            ),
    {
        Self::with_text_and_key_validated(text, cursor_position, None)
    }

    /// Create a document with a last key stroke, refusing text with a NUL
    /// character and a cursor past the end of the text.
    pub fn with_text_and_key_validated(text: String, cursor_position: usize, last_key: Option<Key>) -> (r:
        BufferResult<Self>)
        ensures
            (!text@.contains('\0') && cursor_position <= text@.len()) <==> r is Ok,
            r matches Ok(d) ==> d@.text == text@ && d@.cursor == cursor_position && d@.last_key
                == last_key,
            text@.contains('\0') ==> r matches Err(BufferError::TextEncodingError(_)),
            !text@.contains('\0') && cursor_position > text@.len() ==> r == Err::<Self, BufferError>(
                BufferError::InvalidCursorPosition {
                    position: cursor_position,
                    max: text@.len() as usize,
                },
            ),
    {
        validate_text_encoding(text.as_str())?;
        validate_cursor_position(cursor_position, text.as_str())?;
        Ok(Document { text, cursor_position, last_key })
    }

    /// Check the document: its text must hold no NUL character.
    pub fn validate_state(&self) -> (r: BufferResult<()>)
        ensures
            !self@.text.contains('\0') <==> r is Ok,
            self@.text.contains('\0') ==> r matches Err(BufferError::TextEncodingError(_)),
    {
        proof {
            use_type_invariant(self);
        }
        validate_text_encoding(self.text.as_str())?;
        validate_cursor_position(self.cursor_position, self.text.as_str())?;
        Ok(())
    }

    /// The text content.
    pub fn text(&self) -> (r: &str)
        ensures
            r@ == self@.text,
    {
        self.text.as_str()
    }

    /// The cursor position as a rune index.
    pub fn cursor_position(&self) -> (r: usize)
        ensures
            r == self@.cursor,
            r <= self@.text.len(),
    {
        proof {
            use_type_invariant(self);
        }
        self.cursor_position
    }

    /// The last key stroke.
    pub fn last_key_stroke(&self) -> (r: Option<Key>)
        ensures
            r == self@.last_key,
    {
        self.last_key
    }

    /// Display width of the text before the cursor (wide characters count twice).
    pub fn display_cursor_position(&self) -> (r: usize)
        ensures
            r == capped_width_spec(self@.text.take(self@.cursor as int)),
    {
        let before = self.text_before_cursor();
        proof {
            use_type_invariant(self);
            assert(before@ =~= self@.text.take(self@.cursor as int));
        }
        display_width(before)
    }

    /// The text before the cursor.
    pub fn text_before_cursor(&self) -> (r: &str)
        ensures
            r@ == self@.text.subrange(0, self@.cursor as int),
    {
        proof {
            use_type_invariant(self);
        }
        self.text.as_str().substring_char(0, self.cursor_position)
    }

    /// The text after the cursor.
    pub fn text_after_cursor(&self) -> (r: &str)
        ensures
            r@ == self@.text.subrange(self@.cursor as int, self@.text.len() as int),
    {
        proof {
            use_type_invariant(self);
        }
        let len = self.text.as_str().unicode_len();
        self.text.as_str().substring_char(self.cursor_position, len)
    }

    /// The rune at `offset` from the cursor, or `None` outside the text.
    pub fn get_char_relative_to_cursor(&self, offset: i32) -> (r: Option<char>)
        requires
            offset != i32::MIN,
            offset >= 0 ==> self@.cursor + offset <= usize::MAX,
        ensures
            r == char_at(self@.text, self@.cursor + offset),
    {
        proof {
            use_type_invariant(self);
        }
        let target_pos = if offset < 0 {
            let back = (-offset) as usize;
            if back > self.cursor_position {
                return None;
            }
            self.cursor_position - back
        } else {
            self.cursor_position + offset as usize
        };
        char_at_rune_index(self.text.as_str(), target_pos)
    }

    /// The rune at `offset` from the cursor; `Ok(None)` at the end of the text,
    /// an error for a position outside `0..=len`.
    pub fn get_char_relative_to_cursor_validated(&self, offset: i32) -> (r: BufferResult<
        Option<char>,
    >)
        requires
            offset != i32::MIN,
            offset >= 0 ==> self@.cursor + offset <= usize::MAX,
        ensures
            (0 <= self@.cursor + offset <= self@.text.len()) <==> r is Ok,
            r is Ok ==> r == Ok::<Option<char>, BufferError>(
                char_at(self@.text, self@.cursor + offset),
            ),
            r matches Err(e) ==> e matches BufferError::BoundsCheckFailed { operation, position, bounds }
                && operation@ == "get_char_relative_to_cursor"@ && bounds == (
                0usize,
                self@.text.len() as usize,
            ) && position == if self@.cursor + offset < 0 {
                0
            } else {
                self@.cursor + offset
            },
    {
        proof {
            use_type_invariant(self);
        }
        let text_len = self.text.as_str().unicode_len();
        let target_pos = if offset < 0 {
            let abs_offset = (-offset) as usize;
            if abs_offset > self.cursor_position {
                return Err(
                    BufferError::bounds_check_failed(
                        "get_char_relative_to_cursor",
                        self.cursor_position.saturating_sub(abs_offset),
                        (0, text_len),
                    ),
                );
            }
            self.cursor_position - abs_offset
        } else {
            let target = self.cursor_position + offset as usize;
            if target > text_len {
                return Err(
                    BufferError::bounds_check_failed(
                        "get_char_relative_to_cursor",
                        target,
                        (0, text_len),
                    ),
                );
            }
            target
        };
        Ok(char_at_rune_index(self.text.as_str(), target_pos))
    }

    /// The word before the cursor (whitespace separated); inside a word, the
    /// part up to and including the rune under the cursor.
    pub fn get_word_before_cursor(&self) -> (r: &str)
        ensures
            r@ == range_text(self@.text, word_before_range(self@.text, self@.cursor as int, false, None)),
    {
        self.extract_current_word_before_cursor(false, None)
    }

    /// The word after the cursor (whitespace separated); inside a word, the
    /// part from the cursor on.
    pub fn get_word_after_cursor(&self) -> (r: &str)
        ensures
            r@ == range_text(self@.text, word_after_range(self@.text, self@.cursor as int, false, None)),
    {
        self.extract_current_word_after_cursor(false, None)
    }

    /// The word before the cursor with the whitespace between it and the cursor.
    pub fn get_word_before_cursor_with_space(&self) -> (r: &str)
        ensures
            r@ == range_text(self@.text, word_before_range(self@.text, self@.cursor as int, true, None)),
    {
        self.extract_current_word_before_cursor(true, None)
    }

    /// The word after the cursor with the whitespace between the cursor and it.
    pub fn get_word_after_cursor_with_space(&self) -> (r: &str)
        ensures
            r@ == range_text(self@.text, word_after_range(self@.text, self@.cursor as int, true, None)),
    {
        self.extract_current_word_after_cursor(true, None)
    }

    /// The word before the cursor, words being separated by any rune of `separators`.
    pub fn get_word_before_cursor_until_separator(&self, separators: &str) -> (r: &str)
        ensures
            r@ == range_text(
                self@.text,
                word_before_range(self@.text, self@.cursor as int, false, Some(separators@)),
            ),
    {
        self.extract_current_word_before_cursor(false, Some(separators))
    }

    /// The word after the cursor, words being separated by any rune of `separators`.
    pub fn get_word_after_cursor_until_separator(&self, separators: &str) -> (r: &str)
        ensures
            r@ == range_text(
                self@.text,
                word_after_range(self@.text, self@.cursor as int, false, Some(separators@)),
            ),
    {
        self.extract_current_word_after_cursor(false, Some(separators))
    }

    /// The word before the cursor with the separators between it and the cursor.
    pub fn get_word_before_cursor_until_separator_with_space(&self, separators: &str) -> (r: &str)
        ensures
            r@ == range_text(
                self@.text,
                word_before_range(self@.text, self@.cursor as int, true, Some(separators@)),
            ),
    {
        self.extract_current_word_before_cursor(true, Some(separators))
    }

    /// The word after the cursor with the separators between the cursor and it.
    pub fn get_word_after_cursor_until_separator_with_space(&self, separators: &str) -> (r: &str)
        ensures
            r@ == range_text(
                self@.text,
                word_after_range(self@.text, self@.cursor as int, true, Some(separators@)),
            ),
    {
        self.extract_current_word_after_cursor(true, Some(separators))
    }

    /// How far left the start of the previous word lies.
    pub fn find_start_of_previous_word(&self) -> (r: usize)
        ensures
            r == boundary_before(self@.text, self@.cursor as int, false, None),
    {
        self.find_word_boundary_before(false, None)
    }

    /// How far right the end of the current word lies.
    pub fn find_end_of_current_word(&self) -> (r: usize)
        ensures
            r == boundary_after(self@.text, self@.cursor as int, false, None),
    {
        self.find_word_boundary_after(false, None)
    }

    /// How far left the start of the previous word lies, whitespace before it included.
    pub fn find_start_of_previous_word_with_space(&self) -> (r: usize)
        ensures
            r == boundary_before(self@.text, self@.cursor as int, true, None),
    {
        self.find_word_boundary_before(true, None)
    }

    /// How far right the end of the current word lies, whitespace after it included.
    pub fn find_end_of_current_word_with_space(&self) -> (r: usize)
        ensures
            r == boundary_after(self@.text, self@.cursor as int, true, None),
    {
        self.find_word_boundary_after(true, None)
    }

    /// How far left the start of the previous word lies, words being separated
    /// by any rune of `separators`.
    pub fn find_start_of_previous_word_until_separator(&self, separators: &str) -> (r: usize)
        ensures
            r == boundary_before(self@.text, self@.cursor as int, false, Some(separators@)),
    {
        self.find_word_boundary_before(false, Some(separators))
    }

    /// How far right the end of the current word lies, words being separated
    /// by any rune of `separators`.
    pub fn find_end_of_current_word_until_separator(&self, separators: &str) -> (r: usize)
        ensures
            r == boundary_after(self@.text, self@.cursor as int, false, Some(separators@)),
    {
        self.find_word_boundary_after(false, Some(separators))
    }

    /// Like `find_start_of_previous_word_until_separator`, separators before
    /// the word included.
    pub fn find_start_of_previous_word_until_separator_with_space(&self, separators: &str) -> (r:
        usize)
        ensures
            r == boundary_before(self@.text, self@.cursor as int, true, Some(separators@)),
    {
        self.find_word_boundary_before(true, Some(separators))
    }

    /// Like `find_end_of_current_word_until_separator`, separators after the
    /// word included.
    pub fn find_end_of_current_word_until_separator_with_space(&self, separators: &str) -> (r:
        usize)
        ensures
            r == boundary_after(self@.text, self@.cursor as int, true, Some(separators@)),
    {
        self.find_word_boundary_after(true, Some(separators))
    }

    fn extract_current_word_before_cursor(&self, include_space: bool, separators: Option<&str>) -> (r:
        &str)
        ensures
            r@ == range_text(
                self@.text,
                word_before_range(self@.text, self@.cursor as int, include_space, opt_str(separators)),
            ),
    {
        proof {
            use_type_invariant(self);
        }
        let c = self.cursor_position;
        let chars = to_chars(self.text.as_str());
        if chars.len() == 0 || c == 0 {
            proof {
                reveal_strlit("");
            }
            return "";
        }
        let seps = seps_chars(separators);
        let start;
        let end;
        if include_space {
            let p1 = scan_left(&chars, &seps, c, true);
            start = scan_left(&chars, &seps, p1, false);
            end = c;
        } else {
            if is_sep_exec(chars[c - 1], &seps) {
                proof {
                    reveal_strlit("");
                }
                return "";
            }
            let mut st = scan_left(&chars, &seps, c, false);
            if seps.is_some() {
                while st < c && is_whitespace(chars[st])
                    invariant
                        st <= c <= chars@.len(),
                        skip_whitespace(chars@, run_start(chars@, opt_seq(seps), c as int, false), c as int)
                            == skip_whitespace(chars@, st as int, c as int),
                    decreases c - st,
                {
                    st = st + 1;
                }
            }
            start = st;
            end = if c < chars.len() && !is_sep_exec(chars[c], &seps) {
                c + 1
            } else {
                c
            };
        }
        if start >= end {
            proof {
                reveal_strlit("");
            }
            return "";
        }
        self.text.as_str().substring_char(start, end)
    }

    fn extract_current_word_after_cursor(&self, include_space: bool, separators: Option<&str>) -> (r:
        &str)
        ensures
            r@ == range_text(
                self@.text,
                word_after_range(self@.text, self@.cursor as int, include_space, opt_str(separators)),
            ),
    {
        proof {
            use_type_invariant(self);
        }
        let c = self.cursor_position;
        let chars = to_chars(self.text.as_str());
        if chars.len() == 0 {
            proof {
                reveal_strlit("");
            }
            return "";
        }
        let seps = seps_chars(separators);
        let start;
        let end;
        if include_space {
            start = c;
            let p = scan_right(&chars, &seps, c, true);
            end = scan_right(&chars, &seps, p, false);
        } else {
            if c < chars.len() && is_sep_exec(chars[c], &seps) {
                proof {
                    reveal_strlit("");
                }
                return "";
            }
            start = c;
            end = scan_right(&chars, &seps, c, false);
        }
        if start >= end {
            proof {
                reveal_strlit("");
            }
            return "";
        }
        self.text.as_str().substring_char(start, end)
    }

    fn find_word_boundary_before(&self, include_space: bool, separators: Option<&str>) -> (r: usize)
        ensures
            r == boundary_before(self@.text, self@.cursor as int, include_space, opt_str(separators)),
    {
        proof {
            use_type_invariant(self);
        }
        let c = self.cursor_position;
        if c == 0 {
            return 0;
        }
        let chars = to_chars(self.text.as_str());
        let seps = seps_chars(separators);
        let mut pos = c;
        if !include_space {
            pos = scan_left(&chars, &seps, pos, true);
            if pos == 0 {
                return 0;
            }
        }
        pos = scan_left(&chars, &seps, pos, false);
        if include_space {
            pos = scan_left(&chars, &seps, pos, true);
        }
        c - pos
    }

    fn find_word_boundary_after(&self, include_space: bool, separators: Option<&str>) -> (r: usize)
        ensures
            r == boundary_after(self@.text, self@.cursor as int, include_space, opt_str(separators)),
    {
        proof {
            use_type_invariant(self);
        }
        let c = self.cursor_position;
        let chars = to_chars(self.text.as_str());
        if c >= chars.len() {
            return 0;
        }
        let seps = seps_chars(separators);
        let mut pos = c;
        if !include_space {
            pos = scan_right(&chars, &seps, pos, true);
            if pos >= chars.len() {
                return 0;
            }
        }
        pos = scan_right(&chars, &seps, pos, false);
        if include_space {
            pos = scan_right(&chars, &seps, pos, true);
        }
        pos - c
    }
}

impl Document {
    /// The part of the current line before the cursor.
    pub fn current_line_before_cursor(&self) -> (r: &str)
        ensures
            r@ == self@.text.subrange(line_begin(self@.text, self@.cursor as int), self@.cursor as int),
    {
        proof {
            use_type_invariant(self);
        }
        let chars = to_chars(self.text.as_str());
        let b = scan_line_begin(&chars, self.cursor_position);
        self.text.as_str().substring_char(b, self.cursor_position)
    }

    /// The part of the current line after the cursor.
    pub fn current_line_after_cursor(&self) -> (r: &str)
        ensures
            r@ == self@.text.subrange(self@.cursor as int, line_end(self@.text, self@.cursor as int)),
    {
        proof {
            use_type_invariant(self);
        }
        let chars = to_chars(self.text.as_str());
        let e = scan_line_end(&chars, self.cursor_position);
        self.text.as_str().substring_char(self.cursor_position, e)
    }

    /// The whole line that holds the cursor, without its newline.
    pub fn current_line(&self) -> (r: String)
        ensures
            r@ == self@.text.subrange(
                line_begin(self@.text, self@.cursor as int),
                line_end(self@.text, self@.cursor as int),
            ),
    {
        proof {
            use_type_invariant(self);
        }
        let before = self.current_line_before_cursor();
        let after = self.current_line_after_cursor();
        proof {
            lemma_line_begin_bound(self@.text, self@.cursor as int);
            lemma_line_end_bound(self@.text, self@.cursor as int);
        }
        let mut r = owned(before);
        push_str(&mut r, after);
        assert(r@ =~= self@.text.subrange(
            line_begin(self@.text, self@.cursor as int),
            line_end(self@.text, self@.cursor as int),
        ));
        r
    }

    /// The lines of the text, split at newlines (which are left out).
    pub fn lines(&self) -> (r: Vec<&str>)
        ensures
            r@.len() == line_starts(self@.text).len(),
            forall|k: int|
                0 <= k < r@.len() ==> (#[trigger] r@[k])@ == self@.text.subrange(
                    line_starts(self@.text)[k],
                    row_end(self@.text, k),
                ),
    {
        let ghost s = self@.text;
        let chars = to_chars(self.text.as_str());
        let mut v: Vec<&str> = Vec::new();
        let mut piece_start: usize = 0;
        let mut i: usize = 0;
        proof {
            assert(chars@.take(0).len() == 0);
        }
        while i < chars.len()
            invariant
                chars@ == s,
                s == self@.text,
                i <= chars@.len(),
                piece_start <= i,
                v@.len() + 1 == line_starts(s.take(i as int)).len(),
                piece_start == line_starts(s.take(i as int))[v@.len() as int],
                forall|k: int|
                    0 <= k < v@.len() ==> (#[trigger] v@[k])@ == s.subrange(
                        line_starts(s.take(i as int))[k],
                        line_starts(s.take(i as int))[k + 1] - 1,
                    ),
            decreases chars.len() - i,
        {
            let ghost t = s.take(i + 1);
            assert(t.drop_last() =~= s.take(i as int));
            assert(t.last() == s[i as int]);
            if chars[i] == '\n' {
                let piece = self.text.as_str().substring_char(piece_start, i);
                v.push(piece);
                piece_start = i + 1;
            }
            i = i + 1;
        }
        assert(s.take(i as int) =~= s);
        let last = self.text.as_str().substring_char(piece_start, i);
        v.push(last);
        v
    }

    /// Number of lines: a trailing newline starts a new, empty line.
    pub fn line_count(&self) -> (r: usize)
        ensures
            r == line_count_spec(self@.text),
    {
        proof {
            lemma_line_starts(self@.text);
        }
        self.line_start_indexes().len()
    }

    /// The rune index at which each line starts.
    pub fn line_start_indexes(&self) -> (r: Vec<usize>)
        ensures
            r@.len() == line_starts(self@.text).len(),
            forall|k: int| 0 <= k < r@.len() ==> r@[k] as int == line_starts(self@.text)[k],
    {
        let chars = to_chars(self.text.as_str());
        compute_line_starts(&chars)
    }

    /// The zero-based line number of the cursor.
    pub fn cursor_position_row(&self) -> (r: usize)
        ensures
            r == row_of(self@.text, self@.cursor as int),
    {
        proof {
            use_type_invariant(self);
        }
        let (_, row) = self.find_line_start_index(self.cursor_position);
        row
    }

    /// The zero-based column of the cursor within its line.
    pub fn cursor_position_col(&self) -> (r: usize)
        ensures
            r == col_of(self@.text, self@.cursor as int),
    {
        proof {
            use_type_invariant(self);
        }
        let (line_start, _) = self.find_line_start_index(self.cursor_position);
        self.cursor_position - line_start
    }

    /// (row, column) of a rune index, the index clamped to the text.
    pub fn translate_index_to_position(&self, index: usize) -> (r: (usize, usize))
        ensures
            r.0 == row_of(self@.text, min_int(index as int, self@.text.len() as int)),
            r.1 == col_of(self@.text, min_int(index as int, self@.text.len() as int)),
    {
        let len = self.text.as_str().unicode_len();
        let clamped = if index < len {
            index
        } else {
            len
        };
        let (line_start, row) = self.find_line_start_index(clamped);
        (row, clamped - line_start)
    }

    /// Rune index of (row, col); the column is clamped to its line and a row
    /// past the last line gives the end of the text.
    pub fn translate_row_col_to_index(&self, row: usize, col: usize) -> (r: usize)
        ensures
            r == row_col_to_index(self@.text, row as int, col as int),
    {
        let starts = self.line_start_indexes();
        let len = self.text.as_str().unicode_len();
        proof {
            lemma_line_starts(self@.text);
        }
        if row >= starts.len() {
            return len;
        }
        let line_start = starts[row];
        let line_end = if row + 1 < starts.len() {
            proof {
                assert(line_starts(self@.text)[row as int] < line_starts(self@.text)[row + 1]);
            }
            starts[row + 1] - 1
        } else {
            len
        };
        let max_col = line_end - line_start;
        let clamped_col = if col < max_col {
            col
        } else {
            max_col
        };
        line_start + clamped_col
    }

    /// The start of the line holding `index` (clamped to the text), and its row.
    pub fn find_line_start_index(&self, index: usize) -> (r: (usize, usize))
        ensures
            r.0 == line_begin(self@.text, min_int(index as int, self@.text.len() as int)),
            r.1 == row_of(self@.text, min_int(index as int, self@.text.len() as int)),
            r.0 <= min_int(index as int, self@.text.len() as int),
    {
        let chars = to_chars(self.text.as_str());
        let clamped = if index < chars.len() {
            index
        } else {
            chars.len()
        };
        let b = scan_line_begin(&chars, clamped);
        let row = count_newlines(&chars, clamped);
        (b, row)
    }

    /// Target index of moving the cursor up `count` lines.
    pub fn cursor_up_target(&self, count: usize, preferred_column: Option<usize>) -> (r: usize)
        ensures
            r == up_target(self@.text, self@.cursor as int, count as int, preferred_column),
    {
        if count == 0 {
            return self.cursor_position;
        }
        let current_row = self.cursor_position_row();
        if current_row == 0 {
            return self.cursor_position;
        }
        let target_row = current_row.saturating_sub(count);
        let current_col = self.cursor_position_col();
        let target_col = match preferred_column {
            Some(p) => p,
            None => current_col,
        };
        self.translate_row_col_to_index(target_row, target_col)
    }

    /// Target index of moving the cursor down `count` lines.
    pub fn cursor_down_target(&self, count: usize, preferred_column: Option<usize>) -> (r: usize)
        ensures
            r == down_target(self@.text, self@.cursor as int, count as int, preferred_column),
    {
        if count == 0 {
            return self.cursor_position;
        }
        let current_row = self.cursor_position_row();
        let total_lines = self.line_count();
        proof {
            lemma_line_starts(self@.text);
        }
        if current_row >= total_lines - 1 {
            return self.cursor_position;
        }
        let last_row = total_lines - 1;
        let target_row = if count >= last_row - current_row {
            last_row
        } else {
            current_row + count
        };
        let current_col = self.cursor_position_col();
        let target_col = match preferred_column {
            Some(p) => p,
            None => current_col,
        };
        self.translate_row_col_to_index(target_row, target_col)
    }

    /// Offset (zero or negative) of moving left `count` runes without leaving the line.
    pub fn get_cursor_left_position(&self, count: usize) -> (r: i32)
        requires
            self@.text.len() <= i32::MAX,
        ensures
            r == -min_int(count as int, col_of(self@.text, self@.cursor as int)),
    {
        proof {
            use_type_invariant(self);
        }
        let available = self.cursor_position_col();
        proof {
            lemma_line_begin_bound(self@.text, self@.cursor as int);
        }
        let actual = if count < available {
            count
        } else {
            available
        };
        -(actual as i32)
    }

    /// Offset (zero or positive) of moving right `count` runes without leaving the line.
    pub fn get_cursor_right_position(&self, count: usize) -> (r: i32)
        requires
            self@.text.len() <= i32::MAX,
        ensures
            r == min_int(count as int, line_end(self@.text, self@.cursor as int) - self@.cursor),
    {
        proof {
            use_type_invariant(self);
        }
        let after = self.current_line_after_cursor();
        let available = after.unicode_len();
        proof {
            lemma_line_end_bound(self@.text, self@.cursor as int);
        }
        let actual = if count < available {
            count
        } else {
            available
        };
        actual as i32
    }

    /// Offset of moving up `count` lines, keeping `preferred_column` (or the
    /// current column), clamped to the target line.
    pub fn get_cursor_up_position(&self, count: usize, preferred_column: Option<usize>) -> (r: i32)
        requires
            self@.text.len() <= i32::MAX,
        ensures
            r == up_target(self@.text, self@.cursor as int, count as int, preferred_column) - self@.cursor,
    {
        proof {
            use_type_invariant(self);
            lemma_line_starts(self@.text);
        }
        let target = self.cursor_up_target(count, preferred_column);
        proof {
            lemma_row_col_to_index_bound(self@.text, self@.cursor as int, count as int, preferred_column);
        }
        (target as i32) - (self.cursor_position as i32)
    }

    /// Offset of moving down `count` lines, keeping `preferred_column` (or
    /// the current column), clamped to the target line.
    pub fn get_cursor_down_position(&self, count: usize, preferred_column: Option<usize>) -> (r: i32)
        requires
            self@.text.len() <= i32::MAX,
        ensures
            r == down_target(self@.text, self@.cursor as int, count as int, preferred_column) - self@.cursor,
    {
        proof {
            use_type_invariant(self);
            lemma_line_starts(self@.text);
        }
        let target = self.cursor_down_target(count, preferred_column);
        proof {
            lemma_row_col_to_index_bound(self@.text, self@.cursor as int, count as int, preferred_column);
        }
        (target as i32) - (self.cursor_position as i32)
    }

    /// Whether the cursor is on the last line.
    pub fn on_last_line(&self) -> (r: bool)
        ensures
            r == (row_of(self@.text, self@.cursor as int) >= line_count_spec(self@.text) - 1),
    {
        let current_row = self.cursor_position_row();
        let total_lines = self.line_count();
        proof {
            lemma_line_starts(self@.text);
        }
        current_row >= total_lines - 1
    }

    /// The rune index where the current line ends (its newline, or the end of the text).
    pub fn get_end_of_line_position(&self) -> (r: usize)
        ensures
            r == line_end(self@.text, self@.cursor as int),
    {
        proof {
            use_type_invariant(self);
        }
        let chars = to_chars(self.text.as_str());
        scan_line_end(&chars, self.cursor_position)
    }

    /// The spaces and tabs that begin the current line.
    pub fn leading_whitespace_in_current_line(&self) -> (r: &str)
        ensures
            ({
                let s = self@.text;
                let b = line_begin(s, self@.cursor as int);
                r@ == s.subrange(b, skip_blanks(s, b, line_end(s, b)))
            }),
    {
        proof {
            use_type_invariant(self);
        }
        let chars = to_chars(self.text.as_str());
        let line_start = scan_line_begin(&chars, self.cursor_position);
        let line_end = scan_line_end(&chars, line_start);
        let mut end_pos = line_start;
        while end_pos < line_end && (chars[end_pos] == ' ' || chars[end_pos] == '\t')
            invariant
                line_start <= end_pos <= line_end <= chars@.len(),
                skip_blanks(chars@, line_start as int, line_end as int) == skip_blanks(
                    chars@,
                    end_pos as int,
                    line_end as int,
                ),
            decreases line_end - end_pos,
        {
            end_pos = end_pos + 1;
        }
        self.text.as_str().substring_char(line_start, end_pos)
    }
}

impl Default for Document {
    fn default() -> (d: Self)
        ensures
            d@.text.len() == 0,
            d@.cursor == 0,
            d@.last_key is None,
    {
        Self::new()
    }
}

/// Any row/column target lies within the text.
pub proof fn lemma_row_col_to_index_bound(s: Seq<char>, c: int, count: int, preferred: Option<usize>)
    requires
        0 <= c <= s.len(),
        0 <= count,
    ensures
        0 <= up_target(s, c, count, preferred) <= s.len(),
        0 <= down_target(s, c, count, preferred) <= s.len(),
        forall|row: int, col: int| 0 <= row && 0 <= col ==> 0 <= #[trigger] row_col_to_index(s, row, col) <= s.len(),
{
    lemma_line_starts(s);
    lemma_line_begin_bound(s, c);
    assert forall|row: int, col: int| 0 <= row && 0 <= col implies 0 <= #[trigger] row_col_to_index(s, row, col) <= s.len() by {
        if row < line_starts(s).len() {
            if row + 1 < line_starts(s).len() {
                assert(line_starts(s)[row] < line_starts(s)[row + 1]);
            }
        }
    }
}

/// `line_end` lies between the position and the end of the text.
pub proof fn lemma_line_end_bound(s: Seq<char>, i: int)
    requires
        i <= s.len(),
    ensures
        i <= line_end(s, i) <= s.len(),
    decreases s.len() - i,
{
    if i < s.len() && s[i] != '\n' {
        lemma_line_end_bound(s, i + 1);
    }
}

/// `line_begin` lies between the start of the text and the position.
pub proof fn lemma_line_begin_bound(s: Seq<char>, i: int)
    requires
        0 <= i,
    ensures
        0 <= line_begin(s, i) <= i,
    decreases i,
{
    if i > 0 && s[i - 1] != '\n' {
        lemma_line_begin_bound(s, i - 1);
    }
}

} // verus!
