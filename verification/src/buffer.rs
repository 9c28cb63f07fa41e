//! The mutable text buffer behind an input line: working lines, a cursor and
//! the editing operations on them.

use vstd::prelude::*;
use vstd::string::*;
use crate::document::{
    col_of, down_target, min_int, skip_blanks, up_target, Document, DocumentView,
};
use crate::error::{BufferError, BufferResult};
use crate::error::validation::{validate_character_count, validate_cursor_position, validate_text_encoding};
use crate::key::Key;
use crate::scan::{line_begin, line_end, skip_whitespace};
use crate::text::{decimal_spec, owned, push_char, push_decimal, push_str, str_equal};
use crate::unicode::{capped_width_spec, is_whitespace, to_chars};

verus! {

broadcast use vstd::string::group_string_axioms;

/// Line `i` is the first of `lines` that holds a NUL character.
pub open spec fn first_nul_line(lines: Seq<Seq<char>>, i: int) -> bool {
    &&& 0 <= i < lines.len()
    &&& lines[i].contains('\0')
    &&& forall|j: int| 0 <= j < i ==> !(#[trigger] lines[j]).contains('\0')
}

/// The abstract content of a buffer.
pub struct BufferView {
    pub lines: Seq<Seq<char>>,
    pub index: nat,
    pub cursor: nat,
    pub preferred_column: Option<usize>,
    pub last_key: Option<Key>,
}

/// A mutable text buffer: several working lines (for history-like use), the
/// index of the current one, a cursor as a rune index within it, and the
/// column that vertical movement tries to keep.
#[derive(Debug, Clone)]
pub struct Buffer {
    working_lines: Vec<String>,
    working_index: usize,
    /// Cursor position as a rune index within the current line
    pub cursor_position: usize,
    cached_document: Option<Document>,
    /// Preferred column for vertical cursor movement
    pub preferred_column: Option<usize>,
    last_key_stroke: Option<Key>,
}

impl View for Buffer {
    type V = BufferView;

    closed spec fn view(&self) -> BufferView {
        BufferView {
            lines: self.working_lines@.map_values(|s: String| s@),
            index: self.working_index as nat,
            cursor: self.cursor_position as nat,
            preferred_column: self.preferred_column,
            last_key: self.last_key_stroke,
        }
    }
}

/// The runes of `s` before position `i` (all of them when `i` is past the end).
pub open spec fn clamp_pos(s: Seq<char>, i: int) -> int {
    min_int(i, s.len() as int)
}

/// Text after inserting (or, with `overwrite`, writing over) `t` at the
/// cursor `c` clamped to the text.
pub open spec fn insert_spec(s: Seq<char>, c: int, t: Seq<char>, overwrite: bool) -> Seq<char> {
    let p = clamp_pos(s, c);
    if overwrite {
        s.subrange(0, p) + t + s.subrange(min_int(p + t.len(), s.len() as int), s.len() as int)
    } else {
        s.subrange(0, p) + t + s.subrange(p, s.len() as int)
    }
}

/// Number of runes deleted before the cursor `c` (clamped to the text) for a
/// request of `count`.
pub open spec fn delete_before_count(s: Seq<char>, c: int, count: int) -> int {
    min_int(count, clamp_pos(s, c))
}

/// Number of runes deleted after the cursor `c` (clamped to the text) for a
/// request of `count`.
pub open spec fn delete_after_count(s: Seq<char>, c: int, count: int) -> int {
    min_int(count, s.len() - clamp_pos(s, c))
}

/// Position of the first newline at or after `c`, if any.
pub open spec fn next_newline(s: Seq<char>, c: int) -> Option<int> {
    if c < s.len() && line_end(s, c) < s.len() {
        Some(line_end(s, c))
    } else {
        None
    }
}

/// Text after joining the line of the cursor `c` with the next one through
/// `sep`; the next line loses its leading whitespace.
pub open spec fn join_spec(s: Seq<char>, c: int, sep: Seq<char>) -> Seq<char> {
    match next_newline(s, c) {
        Some(n) => s.subrange(0, n) + sep + s.subrange(
            skip_whitespace(s, n + 1, s.len() as int),
            s.len() as int,
        ),
        None => s,
    }
}

/// Text after swapping the two runes before the cursor `c`, when there are two.
pub open spec fn swap_spec(s: Seq<char>, c: int) -> Seq<char> {
    if 2 <= c <= s.len() {
        s.subrange(0, c - 2).push(s[c - 1]).push(s[c - 2]) + s.subrange(c, s.len() as int)
    } else {
        s
    }
}

impl Buffer {
    /// The current line's text.
    pub open spec fn text_spec(&self) -> Seq<char> {
        self@.lines[self@.index as int]
    }

    /// The buffer's working index points at one of its lines.
    pub open spec fn wf(&self) -> bool {
        self@.index < self@.lines.len()
    }

    /// The document view of this buffer: its current text, the cursor clamped
    /// to it, and the last key.
    pub open spec fn document_spec(&self) -> DocumentView {
        DocumentView {
            text: self.text_spec(),
            cursor: clamp_pos(self.text_spec(), self@.cursor as int) as nat,
            last_key: self@.last_key,
        }
    }

    /// Create an empty buffer: one empty working line, cursor at zero.
    pub fn new() -> (b: Self)
        ensures
            b.wf(),
            b@.lines == seq![Seq::<char>::empty()],
            b@.index == 0,
            b@.cursor == 0,
            b@.preferred_column is None,
            b@.last_key is None,
    {
        let mut lines: Vec<String> = Vec::new();
        lines.push(String::new());
        let b = Buffer {
            working_lines: lines,
            working_index: 0,
            cursor_position: 0,
            cached_document: None,
            preferred_column: None,
            last_key_stroke: None,
        };
        assert(b@.lines =~= seq![Seq::<char>::empty()]);
        b
    }

    /// The current line's text.
    pub fn text(&self) -> (r: &str)
        requires
            self.wf(),
        ensures
            r@ == self.text_spec(),
    {
        self.working_lines[self.working_index].as_str()
    }

    /// The cursor position as a rune index.
    pub fn cursor_position(&self) -> (r: usize)
        ensures
            r == self@.cursor,
    {
        self.cursor_position
    }

    /// The index of the current working line.
    pub fn working_index(&self) -> (r: usize)
        ensures
            r == self@.index,
    {
        self.working_index
    }

    /// The number of working lines.
    pub fn working_lines_count(&self) -> (r: usize)
        ensures
            r == self@.lines.len(),
    {
        self.working_lines.len()
    }

    /// The working lines.
    pub fn working_lines(&self) -> (r: &Vec<String>)
        ensures
            r@.map_values(|s: String| s@) == self@.lines,
    {
        &self.working_lines
    }

    /// The column that vertical movement tries to keep.
    pub fn preferred_column(&self) -> (r: Option<usize>)
        ensures
            r == self@.preferred_column,
    {
        self.preferred_column
    }

    /// The last key stroke.
    pub fn last_key_stroke(&self) -> (r: Option<Key>)
        ensures
            r == self@.last_key,
    {
        self.last_key_stroke
    }

    /// The document for the current state, built on demand and cached.
    pub fn document(&mut self) -> (r: &Document)
        requires
            old(self).wf(),
        ensures
            r@ == old(self).document_spec(),
            final(self)@ == old(self)@,
            final(self).wf(),
    {
        self.update_cached_document();
        self.cached_document.as_ref().unwrap()
    }

    /// Display width of the text before the cursor.
    pub fn display_cursor_position(&mut self) -> (r: usize)
        requires
            old(self).wf(),
        ensures
            r == capped_width_spec(
                old(self).text_spec().take(clamp_pos(old(self).text_spec(), old(self)@.cursor as int)),
            ),
            final(self)@ == old(self)@,
    {
        self.document().display_cursor_position()
    }

    /// Rebuild the cached document unless it matches the current state.
    fn update_cached_document(&mut self)
        requires
            old(self).wf(),
        ensures
            final(self)@ == old(self)@,
            final(self).cached_document matches Some(d) && d@ == old(self).document_spec(),
    {
        let idx = self.working_index;
        let valid = match &self.cached_document {
            Some(cached) => {
                let same_key = match (cached.last_key_stroke(), self.last_key_stroke) {
                    (Some(a), Some(b)) => a == b,
                    (None, None) => true,
                    _ => false,
                };
                same_key && cached.cursor_position() == self.cursor_position && str_equal(
                    cached.text(),
                    self.working_lines[idx].as_str(),
                )
            },
            None => false,
        };
        if valid {
            return;
        }
        let current_text = self.working_lines[idx].clone();
        self.cached_document = Some(
            Document::with_text_and_key(current_text, self.cursor_position, self.last_key_stroke),
        );
    }

    /// Forget the cached document.
    fn invalidate_cache(&mut self)
        ensures
            final(self)@ == old(self)@,
            final(self).cached_document is None,
    {
        self.cached_document = None;
    }

    /// Replace the current line's text.
    fn put_text(&mut self, text: String)
        requires
            old(self).wf(),
        ensures
            final(self).wf(),
            final(self)@ == (BufferView {
                lines: old(self)@.lines.update(old(self)@.index as int, text@),
                ..old(self)@
            }),
    {
        let idx = self.working_index;
        self.working_lines.set(idx, text);
        self.cached_document = None;
        assert(self@.lines =~= old(self)@.lines.update(old(self)@.index as int, text@));
    }

    /// Set the current line's text; a cursor past its end is clamped (and the
    /// preferred column forgotten).
    pub fn set_text(&mut self, text: String)
        requires
            old(self).wf(),
        ensures
            final(self).wf(),
            final(self)@.lines == old(self)@.lines.update(old(self)@.index as int, text@),
            final(self)@.index == old(self)@.index,
            final(self)@.last_key == old(self)@.last_key,
            old(self)@.cursor <= text@.len() ==> final(self)@.cursor == old(self)@.cursor
                && final(self)@.preferred_column == old(self)@.preferred_column,
            old(self)@.cursor > text@.len() ==> final(self)@.cursor == text@.len()
                && final(self)@.preferred_column is None,
    {
        self.put_text(text);
        self.ensure_cursor_bounds();
    }

    /// Set the current line's text, refusing text with a NUL character (the
    /// buffer is then unchanged).
    pub fn set_text_validated(&mut self, text: String) -> (r: BufferResult<()>)
        requires
            old(self).wf(),
        ensures
            final(self).wf(),
            !text@.contains('\0') <==> r is Ok,
            r is Err ==> final(self)@ == old(self)@ && r matches Err(BufferError::TextEncodingError(_)),
            r is Ok ==> final(self)@.lines == old(self)@.lines.update(old(self)@.index as int, text@),
            r is Ok ==> final(self)@.cursor == min_int(old(self)@.cursor as int, text@.len() as int),
            r is Ok ==> final(self)@.index == old(self)@.index && final(self)@.last_key == old(self)@.last_key,
            r is Ok && old(self)@.cursor <= text@.len() ==> final(self)@.preferred_column == old(self)@.preferred_column,
            r is Ok && old(self)@.cursor > text@.len() ==> final(self)@.preferred_column is None,
    {
        validate_text_encoding(text.as_str())?;
        self.set_text(text);
        Ok(())
    }

    /// Set the last key stroke.
    pub fn set_last_key_stroke(&mut self, key: Key)
        ensures
            final(self)@ == (BufferView { last_key: Some(key), ..old(self)@ }),
    {
        self.last_key_stroke = Some(key);
        self.invalidate_cache();
    }

    /// Set or clear the last key stroke.
    pub fn set_last_key_stroke_optional(&mut self, key: Option<Key>)
        ensures
            final(self)@ == (BufferView { last_key: key, ..old(self)@ }),
    {
        self.last_key_stroke = key;
        self.invalidate_cache();
    }

    /// Replace all working lines (an empty list becomes one empty line); a
    /// cursor past the current line's end is clamped.
    pub fn set_working_lines(&mut self, lines: Vec<String>)
        requires
            old(self)@.index < lines@.len() || (lines@.len() == 0 && old(self)@.index == 0),
        ensures
            final(self).wf(),
            lines@.len() > 0 ==> final(self)@.lines == lines@.map_values(|s: String| s@),
            lines@.len() == 0 ==> final(self)@.lines == seq![Seq::<char>::empty()],
            final(self)@.index == old(self)@.index,
            final(self)@.cursor == min_int(old(self)@.cursor as int, final(self).text_spec().len() as int),
            old(self)@.cursor <= final(self).text_spec().len() ==> final(self)@.preferred_column == old(self)@.preferred_column,
            old(self)@.cursor > final(self).text_spec().len() ==> final(self)@.preferred_column is None,
            final(self)@.last_key == old(self)@.last_key,
    {
        self.working_lines = lines;
        if self.working_lines.len() == 0 {
            self.working_lines.push(String::new());
            assert(self@.lines =~= seq![Seq::<char>::empty()]);
        }
        self.ensure_cursor_bounds();
        self.invalidate_cache();
    }

    /// Set the column that vertical movement tries to keep.
    pub fn set_preferred_column(&mut self, column: Option<usize>)
        ensures
            final(self)@ == (BufferView { preferred_column: column, ..old(self)@ }),
    {
        self.preferred_column = column;
    }

    /// Insert a newline at the cursor; with `copy_margin` the current line's
    /// leading spaces and tabs are repeated after it.
    pub fn new_line(&mut self, copy_margin: bool)
        requires
            old(self).wf(),
            old(self).text_spec().len() + old(self).text_spec().len() + 1 <= usize::MAX,
        ensures
            final(self).wf(),
            ({
                let s = old(self).text_spec();
                let c = clamp_pos(s, old(self)@.cursor as int);
                let b = line_begin(s, c);
                let margin = if copy_margin {
                    s.subrange(b, skip_blanks(s, b, line_end(s, b)))
                } else {
                    Seq::empty()
                };
                let t = seq!['\n'] + margin;
                &&& final(self).text_spec() == insert_spec(s, old(self)@.cursor as int, t, false)
                &&& final(self)@.cursor == c + t.len()
            }),
            final(self)@.index == old(self)@.index,
            final(self)@.lines == old(self)@.lines.update(old(self)@.index as int, final(self).text_spec()),
            final(self)@.preferred_column == old(self)@.preferred_column,
            final(self)@.last_key == old(self)@.last_key,
    {
        let mut newline_text = String::new();
        push_char(&mut newline_text, '\n');
        if copy_margin {
            let doc = self.document();
            let margin = doc.leading_whitespace_in_current_line();
            proof {
                crate::document::lemma_line_begin_bound(doc@.text, doc@.cursor as int);
                assert(margin@.len() <= doc@.text.len()) by {
                    crate::document::lemma_line_end_bound(doc@.text, line_begin(doc@.text, doc@.cursor as int));
                    lemma_skip_blanks_bound(doc@.text, line_begin(doc@.text, doc@.cursor as int),
                        line_end(doc@.text, line_begin(doc@.text, doc@.cursor as int)));
                    crate::document::lemma_line_end_bound(doc@.text, line_begin(doc@.text, doc@.cursor as int));
                }
            }
            push_str(&mut newline_text, margin);
        }
        self.insert_text(newline_text.as_str(), false, true);
    }

    /// Join the line of the cursor with the next one: the newline after the
    /// cursor becomes `separator` and the next line's leading whitespace is
    /// dropped. Nothing happens when no newline follows the cursor.
    pub fn join_next_line(&mut self, separator: &str)
        requires
            old(self).wf(),
            old(self).text_spec().len() + separator@.len() <= usize::MAX,
        ensures
            final(self).wf(),
            final(self).text_spec() == join_spec(old(self).text_spec(), old(self)@.cursor as int, separator@),
            final(self)@ == (BufferView {
                lines: old(self)@.lines.update(old(self)@.index as int, final(self).text_spec()),
                ..old(self)@
            }),
    {
        let ghost s = self.text_spec();
        let chars = to_chars(self.text());
        let c = self.cursor_position;
        if c >= chars.len() {
            assert(old(self)@.lines.update(old(self)@.index as int, s) =~= old(self)@.lines);
            return;
        }
        let n = crate::scan::scan_line_end(&chars, c);
        if n >= chars.len() {
            assert(old(self)@.lines.update(old(self)@.index as int, s) =~= old(self)@.lines);
            return;
        }
        let mut after = n + 1;
        while after < chars.len() && is_whitespace(chars[after])
            invariant
                n + 1 <= after <= chars@.len(),
                chars@ == s,
                skip_whitespace(s, n + 1, s.len() as int) == skip_whitespace(s, after as int, s.len() as int),
            decreases chars.len() - after,
        {
            after = after + 1;
        }
        let text = self.text();
        let mut new_text = owned(text.substring_char(0, n));
        push_str(&mut new_text, separator);
        push_str(&mut new_text, text.substring_char(after, chars.len()));
        self.put_text(new_text);
    }

    /// Swap the two runes before the cursor; nothing happens with fewer than
    /// two runes before it.
    pub fn swap_characters_before_cursor(&mut self)
        requires
            old(self).wf(),
        ensures
            final(self).wf(),
            final(self).text_spec() == swap_spec(old(self).text_spec(), old(self)@.cursor as int),
            final(self)@ == (BufferView {
                lines: old(self)@.lines.update(old(self)@.index as int, final(self).text_spec()),
                ..old(self)@
            }),
    {
        let ghost s = self.text_spec();
        let c = self.cursor_position;
        let len = self.text().unicode_len();
        if c < 2 || c > len {
            assert(old(self)@.lines.update(old(self)@.index as int, s) =~= old(self)@.lines);
            return;
        }
        let text = self.text();
        let ch1 = text.get_char(c - 2);
        let ch2 = text.get_char(c - 1);
        let mut new_text = owned(text.substring_char(0, c - 2));
        push_char(&mut new_text, ch2);
        push_char(&mut new_text, ch1);
        push_str(&mut new_text, text.substring_char(c, len));
        self.put_text(new_text);
    }

    /// Insert `text` at the cursor (clamped to the text), or write over the
    /// runes from the cursor with `overwrite`; with `move_cursor` the cursor
    /// ends after the inserted text, otherwise at the insertion point.
    pub fn insert_text(&mut self, text: &str, overwrite: bool, move_cursor: bool)
        requires
            old(self).wf(),
            old(self).text_spec().len() + text@.len() <= usize::MAX,
        ensures
            final(self).wf(),
            final(self).text_spec() == insert_spec(old(self).text_spec(), old(self)@.cursor as int, text@, overwrite),
            final(self)@.cursor == clamp_pos(old(self).text_spec(), old(self)@.cursor as int) + if move_cursor {
                text@.len() as int
            } else {
                0
            },
            final(self)@.lines == old(self)@.lines.update(old(self)@.index as int, final(self).text_spec()),
            final(self)@.index == old(self)@.index,
            final(self)@.preferred_column == old(self)@.preferred_column,
            final(self)@.last_key == old(self)@.last_key,
    {
        let current = self.text();
        let len = current.unicode_len();
        let insert_len = text.unicode_len();
        let safe = if self.cursor_position < len {
            self.cursor_position
        } else {
            len
        };
        let mut new_text = owned(current.substring_char(0, safe));
        push_str(&mut new_text, text);
        if overwrite {
            let after_pos = if safe + insert_len < len {
                safe + insert_len
            } else {
                len
            };
            push_str(&mut new_text, current.substring_char(after_pos, len));
        } else {
            push_str(&mut new_text, current.substring_char(safe, len));
        }
        self.put_text(new_text);
        if move_cursor {
            self.cursor_position = safe + insert_len;
        } else {
            self.cursor_position = safe;
        }
    }

    /// Insert text, refusing text with a NUL character and a cursor past the
    /// end of the current line (the buffer is then unchanged).
    pub fn insert_text_validated(&mut self, text: &str, overwrite: bool, move_cursor: bool) -> (r:
        BufferResult<()>)
        requires
            old(self).wf(),
            old(self).text_spec().len() + text@.len() <= usize::MAX,
        ensures
            final(self).wf(),
            (!text@.contains('\0') && old(self)@.cursor <= old(self).text_spec().len()) <==> r is Ok,
            r is Err ==> final(self)@ == old(self)@,
            text@.contains('\0') ==> r matches Err(BufferError::TextEncodingError(_)),
            !text@.contains('\0') && old(self)@.cursor > old(self).text_spec().len() ==> r == Err::<(), BufferError>(
                BufferError::InvalidCursorPosition {
                    position: old(self)@.cursor as usize,
                    max: old(self).text_spec().len() as usize,
                },
            ),
            r is Ok ==> final(self).text_spec() == insert_spec(old(self).text_spec(), old(self)@.cursor as int, text@, overwrite),
            r is Ok ==> final(self)@.cursor == old(self)@.cursor + if move_cursor {
                text@.len() as int
            } else {
                0
            },
            r is Ok ==> final(self)@ == (BufferView {
                lines: old(self)@.lines.update(old(self)@.index as int, final(self).text_spec()),
                cursor: final(self)@.cursor,
                ..old(self)@
            }),
    {
        validate_text_encoding(text)?;
        validate_cursor_position(self.cursor_position, self.text())?;
        self.insert_text(text, overwrite, move_cursor);
        Ok(())
    }

    /// Delete up to `count` runes before the cursor (clamped to the text) and
    /// give them back; the cursor moves to the start of the deleted part.
    pub fn delete_before_cursor(&mut self, count: usize) -> (deleted: String)
        requires
            old(self).wf(),
        ensures
            final(self).wf(),
            ({
                let s = old(self).text_spec();
                let c = clamp_pos(s, old(self)@.cursor as int);
                let k = delete_before_count(s, old(self)@.cursor as int, count as int);
                &&& deleted@ == s.subrange(c - k, c)
                &&& k > 0 ==> final(self).text_spec() == s.subrange(0, c - k) + s.subrange(c, s.len() as int)
                &&& k > 0 ==> final(self)@.cursor == c - k
                &&& k == 0 ==> final(self)@ == old(self)@
            }),
            final(self)@.lines == old(self)@.lines.update(old(self)@.index as int, final(self).text_spec()),
            final(self)@.index == old(self)@.index,
            final(self)@.preferred_column == old(self)@.preferred_column,
            final(self)@.last_key == old(self)@.last_key,
    {
        let ghost s = self.text_spec();
        let current = self.text();
        let len = current.unicode_len();
        let safe = if self.cursor_position < len {
            self.cursor_position
        } else {
            len
        };
        let actual = if count < safe {
            count
        } else {
            safe
        };
        if actual == 0 {
            proof {
                reveal_strlit("");
            }
            assert(old(self)@.lines.update(old(self)@.index as int, s) =~= old(self)@.lines);
            return owned("");
        }
        let start = safe - actual;
        let deleted = owned(current.substring_char(start, safe));
        let mut new_text = owned(current.substring_char(0, start));
        push_str(&mut new_text, current.substring_char(safe, len));
        self.put_text(new_text);
        self.cursor_position = start;
        deleted
    }

    /// Delete `count` runes before the cursor, refusing a cursor past the end
    /// of the line and a count above the runes before the cursor (the buffer
    /// is then unchanged). A count of zero deletes nothing.
    pub fn delete_before_cursor_validated(&mut self, count: usize) -> (r: BufferResult<String>)
        requires
            old(self).wf(),
        ensures
            final(self).wf(),
            (count == 0 || (old(self)@.cursor <= old(self).text_spec().len() && count <= old(self)@.cursor)) <==> r is Ok,
            r is Err ==> final(self)@ == old(self)@,
            count > 0 && old(self)@.cursor > old(self).text_spec().len() ==> r == Err::<String, BufferError>(
                BufferError::InvalidCursorPosition {
                    position: old(self)@.cursor as usize,
                    max: old(self).text_spec().len() as usize,
                },
            ),
            count > old(self)@.cursor && old(self)@.cursor <= old(self).text_spec().len() ==> r == Err::<String, BufferError>(
                BufferError::InvalidCharacterCount { count, available: old(self)@.cursor as usize },
            ),
            count == 0 ==> (r matches Ok(d) && d@.len() == 0 && final(self)@ == old(self)@),
            count > 0 ==> (r matches Ok(d) ==> {
                let s = old(self).text_spec();
                let c = old(self)@.cursor as int;
                &&& d@ == s.subrange(c - count, c)
                &&& final(self).text_spec() == s.subrange(0, c - count) + s.subrange(c, s.len() as int)
                &&& final(self)@.cursor == c - count
            }),
            r is Ok ==> final(self)@ == (BufferView {
                lines: old(self)@.lines.update(old(self)@.index as int, final(self).text_spec()),
                cursor: final(self)@.cursor,
                ..old(self)@
            }),
    {
        if count == 0 {
            proof {
                reveal_strlit("");
                assert(old(self)@.lines.update(old(self)@.index as int, self.text_spec()) =~= old(self)@.lines);
            }
            return Ok(owned(""));
        }
        validate_cursor_position(self.cursor_position, self.text())?;
        let available = self.cursor_position;
        validate_character_count(count, available, "delete_before_cursor")?;
        Ok(self.delete_before_cursor(count))
    }
}

impl Buffer {
    /// Delete up to `count` runes after the cursor (clamped to the text) and
    /// give them back; the cursor is clamped to the text.
    pub fn delete(&mut self, count: usize) -> (deleted: String)
        requires
            old(self).wf(),
        ensures
            final(self).wf(),
            ({
                let s = old(self).text_spec();
                let c = clamp_pos(s, old(self)@.cursor as int);
                let k = delete_after_count(s, old(self)@.cursor as int, count as int);
                &&& deleted@ == s.subrange(c, c + k)
                &&& k > 0 ==> final(self).text_spec() == s.subrange(0, c) + s.subrange(c + k, s.len() as int)
                &&& k > 0 ==> final(self)@.cursor == c
                &&& k == 0 ==> final(self)@ == old(self)@
            }),
            final(self)@.lines == old(self)@.lines.update(old(self)@.index as int, final(self).text_spec()),
            final(self)@.index == old(self)@.index,
            final(self)@.preferred_column == old(self)@.preferred_column,
            final(self)@.last_key == old(self)@.last_key,
    {
        let ghost s = self.text_spec();
        let current = self.text();
        let len = current.unicode_len();
        let safe = if self.cursor_position < len {
            self.cursor_position
        } else {
            len
        };
        let remaining = len - safe;
        let actual = if count < remaining {
            count
        } else {
            remaining
        };
        if actual == 0 {
            proof {
                reveal_strlit("");
            }
            assert(old(self)@.lines.update(old(self)@.index as int, s) =~= old(self)@.lines);
            return owned("");
        }
        let end = safe + actual;
        let deleted = owned(current.substring_char(safe, end));
        let mut new_text = owned(current.substring_char(0, safe));
        push_str(&mut new_text, current.substring_char(end, len));
        self.put_text(new_text);
        self.cursor_position = safe;
        deleted
    }

    /// Delete `count` runes after the cursor, refusing a cursor past the end
    /// of the line and a count above the runes after the cursor (the buffer
    /// is then unchanged). A count of zero deletes nothing.
    pub fn delete_validated(&mut self, count: usize) -> (r: BufferResult<String>)
        requires
            old(self).wf(),
        ensures
            final(self).wf(),
            (count == 0 || (old(self)@.cursor <= old(self).text_spec().len() && count
                <= old(self).text_spec().len() - old(self)@.cursor)) <==> r is Ok,
            r is Err ==> final(self)@ == old(self)@,
            count > 0 && old(self)@.cursor > old(self).text_spec().len() ==> r == Err::<String, BufferError>(
                BufferError::InvalidCursorPosition {
                    position: old(self)@.cursor as usize,
                    max: old(self).text_spec().len() as usize,
                },
            ),
            old(self)@.cursor <= old(self).text_spec().len() && count > old(self).text_spec().len()
                - old(self)@.cursor ==> r == Err::<String, BufferError>(
                BufferError::InvalidCharacterCount {
                    count,
                    available: (old(self).text_spec().len() - old(self)@.cursor) as usize,
                },
            ),
            count == 0 ==> (r matches Ok(d) && d@.len() == 0 && final(self)@ == old(self)@),
            count > 0 ==> (r matches Ok(d) ==> {
                let s = old(self).text_spec();
                let c = old(self)@.cursor as int;
                &&& d@ == s.subrange(c, c + count)
                &&& final(self).text_spec() == s.subrange(0, c) + s.subrange(c + count, s.len() as int)
                &&& final(self)@.cursor == c
            }),
            r is Ok ==> final(self)@ == (BufferView {
                lines: old(self)@.lines.update(old(self)@.index as int, final(self).text_spec()),
                cursor: final(self)@.cursor,
                ..old(self)@
            }),
    {
        if count == 0 {
            proof {
                reveal_strlit("");
                assert(old(self)@.lines.update(old(self)@.index as int, self.text_spec()) =~= old(self)@.lines);
            }
            return Ok(owned(""));
        }
        validate_cursor_position(self.cursor_position, self.text())?;
        let text_len = self.text().unicode_len();
        let available = text_len - self.cursor_position;
        validate_character_count(count, available, "delete")?;
        Ok(self.delete(count))
    }

    /// Switch to working line `index`: the cursor goes to its start and the
    /// preferred column is forgotten. An index past the last line is refused.
    pub fn set_working_index(&mut self, index: usize) -> (r: BufferResult<()>)
        requires
            old(self).wf(),
        ensures
            final(self).wf(),
            index < old(self)@.lines.len() <==> r is Ok,
            r is Ok ==> final(self)@ == (BufferView {
                index: index as nat,
                cursor: 0,
                preferred_column: None,
                ..old(self)@
            }),
            r is Err ==> final(self)@ == old(self)@ && r == Err::<(), BufferError>(
                BufferError::InvalidWorkingIndex {
                    index,
                    max: (old(self)@.lines.len() - 1) as usize,
                },
            ),
    {
        if index >= self.working_lines.len() {
            return Err(BufferError::InvalidWorkingIndex {
                index,
                max: self.working_lines.len().saturating_sub(1),
            });
        }
        self.working_index = index;
        self.cursor_position = 0;
        self.preferred_column = None;
        self.invalidate_cache();
        Ok(())
    }

    /// Append a working line, and switch to it (cursor at its start, preferred
    /// column forgotten) when `switch_to` is set.
    pub fn add_working_line(&mut self, text: String, switch_to: bool)
        requires
            old(self).wf(),
        ensures
            final(self).wf(),
            final(self)@.lines == old(self)@.lines.push(text@),
            !switch_to ==> final(self)@ == (BufferView { lines: old(self)@.lines.push(text@), ..old(self)@ }),
            switch_to ==> final(self)@ == (BufferView {
                lines: old(self)@.lines.push(text@),
                index: old(self)@.lines.len(),
                cursor: 0,
                preferred_column: None,
                ..old(self)@
            }),
    {
        self.working_lines.push(text);
        assert(self@.lines =~= old(self)@.lines.push(text@));
        if switch_to {
            self.working_index = self.working_lines.len() - 1;
            self.cursor_position = 0;
            self.preferred_column = None;
            self.invalidate_cache();
        }
    }

    /// Move the cursor left by up to `count` runes, not past the start of its line.
    pub fn cursor_left(&mut self, count: usize)
        requires
            old(self).wf(),
        ensures
            final(self).wf(),
            ({
                let s = old(self).text_spec();
                let d = clamp_pos(s, old(self)@.cursor as int);
                final(self)@ == (BufferView {
                    cursor: (old(self)@.cursor - min_int(count as int, col_of(s, d))) as nat,
                    ..old(self)@
                })
            }),
    {
        proof {
            let s = old(self).text_spec();
            crate::document::lemma_line_begin_bound(s, clamp_pos(s, old(self)@.cursor as int));
        }
        if count == 0 {
            return;
        }
        let doc = self.document();
        let available = doc.cursor_position_col();
        let m = if count < available {
            count
        } else {
            available
        };
        if m > 0 {
            self.cursor_position = self.cursor_position - m;
            self.invalidate_cache();
        }
    }

    /// Move the cursor right by up to `count` runes, not past the end of its line.
    pub fn cursor_right(&mut self, count: usize)
        requires
            old(self).wf(),
        ensures
            final(self).wf(),
            ({
                let s = old(self).text_spec();
                let d = clamp_pos(s, old(self)@.cursor as int);
                let m = min_int(count as int, line_end(s, d) - d);
                final(self)@ == (BufferView {
                    cursor: if m > 0 { (d + m) as nat } else { old(self)@.cursor },
                    ..old(self)@
                })
            }),
    {
        if count == 0 {
            return;
        }
        let doc = self.document();
        let d = doc.cursor_position();
        let after = doc.current_line_after_cursor();
        let available = after.unicode_len();
        let _len = doc.text().unicode_len();
        proof {
            crate::document::lemma_line_end_bound(doc@.text, d as int);
        }
        let m = if count < available {
            count
        } else {
            available
        };
        if m > 0 {
            self.cursor_position = d + m;
            self.invalidate_cache();
        }
    }

    /// Move the cursor up `count` lines, to the preferred column (which is set
    /// to the current column when unset) clamped to the target line.
    pub fn cursor_up(&mut self, count: usize)
        requires
            old(self).wf(),
        ensures
            final(self).wf(),
            count == 0 ==> final(self)@ == old(self)@,
            count > 0 ==> ({
                let s = old(self).text_spec();
                let d = clamp_pos(s, old(self)@.cursor as int);
                let pref = match old(self)@.preferred_column {
                    Some(p) => p as int,
                    None => col_of(s, d),
                };
                let t = up_target(s, d, count as int, Some(pref as usize));
                &&& final(self)@.preferred_column == Some(pref as usize)
                &&& final(self)@.cursor == if t < d { old(self)@.cursor - (d - t) } else { old(self)@.cursor as int }
                &&& final(self)@.lines == old(self)@.lines
                &&& final(self)@.index == old(self)@.index
                &&& final(self)@.last_key == old(self)@.last_key
            }),
    {
        if count == 0 {
            return;
        }
        if self.preferred_column.is_none() {
            let col = self.document().cursor_position_col();
            self.preferred_column = Some(col);
        }
        let preferred_column = self.preferred_column;
        let doc = self.document();
        let d = doc.cursor_position();
        let target = doc.cursor_up_target(count, preferred_column);
        if target < d {
            self.cursor_position = self.cursor_position - (d - target);
            self.invalidate_cache();
        }
    }

    /// Move the cursor down `count` lines, to the preferred column (which is
    /// set to the current column when unset) clamped to the target line.
    pub fn cursor_down(&mut self, count: usize)
        requires
            old(self).wf(),
        ensures
            final(self).wf(),
            count == 0 ==> final(self)@ == old(self)@,
            count > 0 ==> ({
                let s = old(self).text_spec();
                let d = clamp_pos(s, old(self)@.cursor as int);
                let pref = match old(self)@.preferred_column {
                    Some(p) => p as int,
                    None => col_of(s, d),
                };
                let t = down_target(s, d, count as int, Some(pref as usize));
                &&& final(self)@.preferred_column == Some(pref as usize)
                &&& final(self)@.cursor == if t > d { t } else { old(self)@.cursor as int }
                &&& final(self)@.lines == old(self)@.lines
                &&& final(self)@.index == old(self)@.index
                &&& final(self)@.last_key == old(self)@.last_key
            }),
    {
        if count == 0 {
            return;
        }
        if self.preferred_column.is_none() {
            let col = self.document().cursor_position_col();
            self.preferred_column = Some(col);
        }
        let preferred_column = self.preferred_column;
        let doc = self.document();
        let d = doc.cursor_position();
        let target = doc.cursor_down_target(count, preferred_column);
        if target > d {
            self.cursor_position = target;
            self.invalidate_cache();
        }
    }

    /// Set the cursor, clamped to the current line; a changed position forgets
    /// the preferred column.
    pub fn set_cursor_position(&mut self, position: usize)
        requires
            old(self).wf(),
        ensures
            final(self).wf(),
            ({
                let p = clamp_pos(old(self).text_spec(), position as int);
                final(self)@ == if p == old(self)@.cursor {
                    old(self)@
                } else {
                    BufferView { cursor: p as nat, preferred_column: None, ..old(self)@ }
                }
            }),
    {
        let len = self.text().unicode_len();
        let new_position = if position < len {
            position
        } else {
            len
        };
        if self.cursor_position != new_position {
            self.cursor_position = new_position;
            self.preferred_column = None;
            self.invalidate_cache();
        }
    }

    /// Set the cursor, refusing a position past the end of the current line
    /// (the buffer is then unchanged); a changed position forgets the
    /// preferred column.
    pub fn set_cursor_position_strict(&mut self, position: usize) -> (r: BufferResult<()>)
        requires
            old(self).wf(),
        ensures
            final(self).wf(),
            position <= old(self).text_spec().len() <==> r is Ok,
            r is Err ==> final(self)@ == old(self)@ && r == Err::<(), BufferError>(
                BufferError::InvalidCursorPosition {
                    position,
                    max: old(self).text_spec().len() as usize,
                },
            ),
            r is Ok ==> final(self)@ == if position == old(self)@.cursor {
                old(self)@
            } else {
                BufferView { cursor: position as nat, preferred_column: None, ..old(self)@ }
            },
    {
        validate_cursor_position(position, self.text())?;
        if self.cursor_position != position {
            self.cursor_position = position;
            self.preferred_column = None;
            self.invalidate_cache();
        }
        Ok(())
    }

    /// Clamp a cursor past the end of the current line, forgetting the
    /// preferred column when it does.
    pub fn ensure_cursor_bounds(&mut self)
        requires
            old(self).wf(),
        ensures
            final(self).wf(),
            old(self)@.cursor <= old(self).text_spec().len() ==> final(self)@ == old(self)@,
            old(self)@.cursor > old(self).text_spec().len() ==> final(self)@ == (BufferView {
                cursor: old(self).text_spec().len(),
                preferred_column: None,
                ..old(self)@
            }),
    {
        let text_len = self.text().unicode_len();
        if self.cursor_position > text_len {
            self.cursor_position = text_len;
            self.preferred_column = None;
        }
    }

    /// Check the buffer: the cursor must lie within the current line and no
    /// working line may hold a NUL character.
    pub fn validate_state(&self) -> (r: BufferResult<()>)
        requires
            self.wf(),
        ensures
            (self@.cursor <= self.text_spec().len() && forall|i: int|
                0 <= i < self@.lines.len() ==> !(#[trigger] self@.lines[i]).contains('\0')) <==> r is Ok,
            self@.cursor > self.text_spec().len() ==> r == Err::<(), BufferError>(
                BufferError::InvalidCursorPosition {
                    position: self@.cursor as usize,
                    max: self.text_spec().len() as usize,
                },
            ),
            self@.cursor <= self.text_spec().len() && self.text_spec().contains('\0') ==> r matches Err(
                BufferError::TextEncodingError(_),
            ),
            forall|i: int| #[trigger] first_nul_line(self@.lines, i) && self@.cursor <= self.text_spec().len()
                && !self.text_spec().contains('\0') ==> (r matches Err(BufferError::InvalidTextOperation { operation, reason })
                && operation@ == "validate_working_line"@
                && reason@ == "Invalid text encoding in working line "@ + decimal_spec(i as nat)),
    {
        crate::error::validation::validate_working_index(self.working_index, self.working_lines.len())?;
        validate_cursor_position(self.cursor_position, self.text())?;
        validate_text_encoding(self.text())?;
        let mut i: usize = 0;
        while i < self.working_lines.len()
            invariant
                self.wf(),
                self@.cursor <= self.text_spec().len(),
                !self.text_spec().contains('\0'),
                i <= self@.lines.len(),
                forall|j: int| 0 <= j < i ==> !(#[trigger] self@.lines[j]).contains('\0'),
            decreases self.working_lines.len() - i,
        {
            let line = self.working_lines[i].as_str();
            assert(self@.lines[i as int] == line@);
            if validate_text_encoding(line).is_err() {
                assert(first_nul_line(self@.lines, i as int));
                assert forall|k: int| #[trigger] first_nul_line(self@.lines, k) implies k == i by {
                    if k < i {
                        assert(!self@.lines[k].contains('\0'));
                    } else if k > i {
                        assert(!self@.lines[i as int].contains('\0'));
                    }
                }
                let mut reason = owned("Invalid text encoding in working line ");
                push_decimal(&mut reason, i as u64);
                return Err(BufferError::invalid_text_operation("validate_working_line", reason.as_str()));
            }
            i = i + 1;
        }
        Ok(())
    }
}

impl Default for Buffer {
    fn default() -> (b: Self)
        ensures
            b.wf(),
            b@.lines == seq![Seq::<char>::empty()],
            b@.index == 0,
            b@.cursor == 0,
            b@.preferred_column is None,
            b@.last_key is None,
    {
        Self::new()
    }
}

/// `skip_blanks` stays between its start and its limit.
pub proof fn lemma_skip_blanks_bound(s: Seq<char>, pos: int, limit: int)
    requires
        pos <= limit,
    ensures
        pos <= skip_blanks(s, pos, limit) <= limit,
    decreases limit - pos,
{
    if pos < limit && (s[pos] == ' ' || s[pos] == '\t') {
        lemma_skip_blanks_bound(s, pos + 1, limit);
    }
}

} // verus!
