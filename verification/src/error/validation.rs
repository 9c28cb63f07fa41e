//! Validation and clamping utilities for buffer operations.

use vstd::prelude::*;
use crate::error::{BufferError, BufferResult};
use crate::unicode::{rune_count, to_chars};

verus! {

/// Validate that `position` lies within the runes of `text` (the end included).
pub fn validate_cursor_position(position: usize, text: &str) -> (r: BufferResult<()>)
    ensures
        position <= text@.len() <==> r is Ok,
        position > text@.len() ==> r == Err::<(), BufferError>(
            BufferError::InvalidCursorPosition { position, max: text@.len() as usize },
        ),
{
    let text_len = rune_count(text);
    if position > text_len {
        Err(BufferError::invalid_cursor_position(position, text_len))
    } else {
        Ok(())
    }
}

/// Validate that `index` is a valid index among `max_index` working lines.
pub fn validate_working_index(index: usize, max_index: usize) -> (r: BufferResult<()>)
    ensures
        index < max_index <==> r is Ok,
        index >= max_index ==> r == Err::<(), BufferError>(
            BufferError::InvalidWorkingIndex {
                index,
                max: if max_index == 0 { 0 } else { (max_index - 1) as usize },
            },
        ),
{
    if index >= max_index {
        Err(BufferError::invalid_working_index(index, max_index.saturating_sub(1)))
    } else {
        Ok(())
    }
}

/// Validate that a range is not inverted.
pub fn validate_range(start: usize, end: usize) -> (r: BufferResult<()>)
    ensures
        start <= end <==> r is Ok,
        start > end ==> r == Err::<(), BufferError>(BufferError::InvalidRange { start, end }),
{
    if start > end {
        Err(BufferError::invalid_range(start, end))
    } else {
        Ok(())
    }
}

/// Validate that a range is not inverted and ends within the runes of `text`.
pub fn validate_range_bounds(start: usize, end: usize, text: &str) -> (r: BufferResult<()>)
    ensures
        (start <= end && end <= text@.len()) <==> r is Ok,
        start > end ==> r == Err::<(), BufferError>(BufferError::InvalidRange { start, end }),
        start <= end && end > text@.len() ==> (r matches Err(BufferError::BoundsCheckFailed {
            operation,
            position,
            bounds,
        }) && operation@ == "range_bounds"@ && position == end && bounds == (
            0usize,
            text@.len() as usize,
        )),
{
    validate_range(start, end)?;
    let text_len = rune_count(text);
    if end > text_len {
        Err(BufferError::bounds_check_failed("range_bounds", end, (0, text_len)))
    } else {
        Ok(())
    }
}

/// Validate that `count` runes are available; a count of zero always is.
/// Gives back the count.
pub fn validate_character_count(count: usize, available: usize, _operation: &str) -> (r:
    BufferResult<usize>)
    ensures
        (count == 0 || count <= available) <==> r is Ok,
        r is Ok ==> r == Ok::<usize, BufferError>(count),
        r is Err ==> r == Err::<usize, BufferError>(
            BufferError::InvalidCharacterCount { count, available },
        ),
{
    if count == 0 {
        return Ok(0);
    }
    if count > available {
        Err(BufferError::invalid_character_count(count, available))
    } else {
        Ok(count)
    }
}

/// Validate that `text` holds no NUL character.
pub fn validate_text_encoding(text: &str) -> (r: BufferResult<()>)
    ensures
        !text@.contains('\0') <==> r is Ok,
        r matches Err(e) ==> e matches BufferError::TextEncodingError(m) && m@
            == "Text contains null characters"@,
{
    let chars = to_chars(text);
    let mut i: usize = 0;
    while i < chars.len()
        invariant
            chars@ == text@,
            i <= chars.len(),
            forall|j: int| 0 <= j < i ==> chars@[j] != '\0',
        decreases chars.len() - i,
    {
        if chars[i] == '\0' {
            return Err(BufferError::text_encoding_error("Text contains null characters"));
        }
        i = i + 1;
    }
    Ok(())
}

/// Validate that `line` is a line number among `line_count` lines.
pub fn validate_line_number(line: usize, line_count: usize) -> (r: BufferResult<()>)
    ensures
        line < line_count <==> r is Ok,
        line >= line_count ==> r == Err::<(), BufferError>(
            BufferError::InvalidLineNumber {
                line,
                max_line: if line_count == 0 { 0 } else { (line_count - 1) as usize },
            },
        ),
{
    if line >= line_count {
        Err(BufferError::invalid_line_number(line, line_count.saturating_sub(1)))
    } else {
        Ok(())
    }
}

/// Validate that `column` lies within the runes of `line_text` (the end included).
pub fn validate_column_position(column: usize, line_text: &str) -> (r: BufferResult<()>)
    ensures
        column <= line_text@.len() <==> r is Ok,
        column > line_text@.len() ==> r == Err::<(), BufferError>(
            BufferError::InvalidColumnPosition { column, max_column: line_text@.len() as usize },
        ),
{
    let line_len = rune_count(line_text);
    if column > line_len {
        Err(BufferError::invalid_column_position(column, line_len))
    } else {
        Ok(())
    }
}

/// `position` clamped to the rune count of `text`.
pub fn clamp_cursor_position(position: usize, text: &str) -> (r: usize)
    ensures
        r == if position <= text@.len() { position as int } else { text@.len() as int },
{
    let text_len = rune_count(text);
    if position < text_len {
        position
    } else {
        text_len
    }
}

/// `index` clamped to the last of `max_index` working lines (zero when there are none).
pub fn clamp_working_index(index: usize, max_index: usize) -> (r: usize)
    ensures
        max_index == 0 ==> r == 0,
        max_index > 0 ==> r == if index < max_index { index as int } else { max_index - 1 },
{
    if max_index == 0 {
        0
    } else if index < max_index - 1 {
        index
    } else {
        max_index - 1
    }
}

/// `count` clamped to `available`.
pub fn clamp_character_count(count: usize, available: usize) -> (r: usize)
    ensures
        r == if count <= available { count } else { available },
{
    if count < available {
        count
    } else {
        available
    }
}

} // verus!
