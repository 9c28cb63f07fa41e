//! Error types for text buffer and document operations.

use vstd::prelude::*;
use crate::text::{decimal_spec, owned, push_decimal, push_str};

pub mod validation;

verus! {

/// Errors of buffer and document operations.
#[derive(Debug, PartialEq)]
pub enum BufferError {
    /// Invalid cursor position specified.
    InvalidCursorPosition { position: usize, max: usize },
    /// Invalid working index specified.
    InvalidWorkingIndex { index: usize, max: usize },
    /// Invalid range specified.
    InvalidRange { start: usize, end: usize },
    /// Unicode-related error.
    UnicodeError(String),
    /// Operation not valid on empty buffer.
    EmptyBuffer,
    /// Invalid text operation parameters.
    InvalidTextOperation { operation: String, reason: String },
    /// Bounds check failed for operation.
    BoundsCheckFailed { operation: String, position: usize, bounds: (usize, usize) },
    /// Invalid character count for operation.
    InvalidCharacterCount { count: usize, available: usize },
    /// Text encoding error.
    TextEncodingError(String),
    /// Invalid line number.
    InvalidLineNumber { line: usize, max_line: usize },
    /// Invalid column position.
    InvalidColumnPosition { column: usize, max_column: usize },
    /// Operation would result in invalid state.
    InvalidStateTransition { from: String, to: String, reason: String },
}

impl Clone for BufferError {
    fn clone(&self) -> (r: Self)
        ensures
            r == *self,
    {
        match self {
            BufferError::InvalidCursorPosition { position, max } => BufferError::InvalidCursorPosition {
                position: *position,
                max: *max,
            },
            BufferError::InvalidWorkingIndex { index, max } => BufferError::InvalidWorkingIndex {
                index: *index,
                max: *max,
            },
            BufferError::InvalidRange { start, end } => BufferError::InvalidRange {
                start: *start,
                end: *end,
            },
            BufferError::UnicodeError(m) => BufferError::UnicodeError(m.clone()),
            BufferError::EmptyBuffer => BufferError::EmptyBuffer,
            BufferError::InvalidTextOperation { operation, reason } =>
                BufferError::InvalidTextOperation {
                operation: operation.clone(),
                reason: reason.clone(),
            },
            BufferError::BoundsCheckFailed { operation, position, bounds } =>
                BufferError::BoundsCheckFailed {
                operation: operation.clone(),
                position: *position,
                bounds: (bounds.0, bounds.1),
            },
            BufferError::InvalidCharacterCount { count, available } =>
                BufferError::InvalidCharacterCount { count: *count, available: *available },
            BufferError::TextEncodingError(m) => BufferError::TextEncodingError(m.clone()),
            BufferError::InvalidLineNumber { line, max_line } => BufferError::InvalidLineNumber {
                line: *line,
                max_line: *max_line,
            },
            BufferError::InvalidColumnPosition { column, max_column } =>
                BufferError::InvalidColumnPosition { column: *column, max_column: *max_column },
            BufferError::InvalidStateTransition { from, to, reason } =>
                BufferError::InvalidStateTransition {
                from: from.clone(),
                to: to.clone(),
                reason: reason.clone(),
            },
        }
    }
}

/// Result type for buffer operations.
pub type BufferResult<T> = Result<T, BufferError>;

/// Decimal notation of a `usize`.
pub open spec fn dec(n: usize) -> Seq<char> {
    decimal_spec(n as nat)
}

impl BufferError {
    /// The human-readable message of this error.
    pub open spec fn message_spec(self) -> Seq<char> {
        match self {
            BufferError::InvalidCursorPosition { position, max } => "Invalid cursor position "@
                + dec(position) + " (max: "@ + dec(max) + ")"@,
            BufferError::InvalidWorkingIndex { index, max } => "Invalid working index "@ + dec(
                index,
            ) + " (max: "@ + dec(max) + ")"@,
            BufferError::InvalidRange { start, end } => "Invalid range "@ + dec(start) + ".."@
                + dec(end),
            BufferError::UnicodeError(msg) => "Unicode error: "@ + msg@,
            BufferError::EmptyBuffer => "Operation not valid on empty buffer"@,
            BufferError::InvalidTextOperation { operation, reason } =>
                "Invalid text operation '"@ + operation@ + "': "@ + reason@,
            BufferError::BoundsCheckFailed { operation, position, bounds } =>
                "Bounds check failed for '"@ + operation@ + "': position "@ + dec(position)
                + " not in range "@ + dec(bounds.0) + ".."@ + dec(bounds.1),
            BufferError::InvalidCharacterCount { count, available } =>
                "Invalid character count "@ + dec(count) + ": only "@ + dec(available)
                + " available"@,
            BufferError::TextEncodingError(msg) => "Text encoding error: "@ + msg@,
            BufferError::InvalidLineNumber { line, max_line } => "Invalid line number "@ + dec(
                line,
            ) + " (max: "@ + dec(max_line) + ")"@,
            BufferError::InvalidColumnPosition { column, max_column } =>
                "Invalid column position "@ + dec(column) + " (max: "@ + dec(max_column) + ")"@,
            BufferError::InvalidStateTransition { from, to, reason } =>
                "Invalid state transition from '"@ + from@ + "' to '"@ + to@ + "': "@ + reason@,
        }
    }

    /// The human-readable message of this error (what `Display` prints in
    /// other Rust code).
    pub fn to_string(&self) -> (s: String)
        ensures
            s@ == self.message_spec(),
    {
        let mut s = String::new();
        match self {
            BufferError::InvalidCursorPosition { position, max } => {
                push_str(&mut s, "Invalid cursor position ");
                push_decimal(&mut s, *position as u64);
                push_str(&mut s, " (max: ");
                push_decimal(&mut s, *max as u64);
                push_str(&mut s, ")");
            },
            BufferError::InvalidWorkingIndex { index, max } => {
                push_str(&mut s, "Invalid working index ");
                push_decimal(&mut s, *index as u64);
                push_str(&mut s, " (max: ");
                push_decimal(&mut s, *max as u64);
                push_str(&mut s, ")");
            },
            BufferError::InvalidRange { start, end } => {
                push_str(&mut s, "Invalid range ");
                push_decimal(&mut s, *start as u64);
                push_str(&mut s, "..");
                push_decimal(&mut s, *end as u64);
            },
            BufferError::UnicodeError(msg) => {
                push_str(&mut s, "Unicode error: ");
                push_str(&mut s, msg.as_str());
            },
            BufferError::EmptyBuffer => {
                push_str(&mut s, "Operation not valid on empty buffer");
            },
            BufferError::InvalidTextOperation { operation, reason } => {
                push_str(&mut s, "Invalid text operation '");
                push_str(&mut s, operation.as_str());
                push_str(&mut s, "': ");
                push_str(&mut s, reason.as_str());
            },
            BufferError::BoundsCheckFailed { operation, position, bounds } => {
                push_str(&mut s, "Bounds check failed for '");
                push_str(&mut s, operation.as_str());
                push_str(&mut s, "': position ");
                push_decimal(&mut s, *position as u64);
                push_str(&mut s, " not in range ");
                push_decimal(&mut s, bounds.0 as u64);
                push_str(&mut s, "..");
                push_decimal(&mut s, bounds.1 as u64);
            },
            BufferError::InvalidCharacterCount { count, available } => {
                push_str(&mut s, "Invalid character count ");
                push_decimal(&mut s, *count as u64);
                push_str(&mut s, ": only ");
                push_decimal(&mut s, *available as u64);
                push_str(&mut s, " available");
            },
            BufferError::TextEncodingError(msg) => {
                push_str(&mut s, "Text encoding error: ");
                push_str(&mut s, msg.as_str());
            },
            BufferError::InvalidLineNumber { line, max_line } => {
                push_str(&mut s, "Invalid line number ");
                push_decimal(&mut s, *line as u64);
                push_str(&mut s, " (max: ");
                push_decimal(&mut s, *max_line as u64);
                push_str(&mut s, ")");
            },
            BufferError::InvalidColumnPosition { column, max_column } => {
                push_str(&mut s, "Invalid column position ");
                push_decimal(&mut s, *column as u64);
                push_str(&mut s, " (max: ");
                push_decimal(&mut s, *max_column as u64);
                push_str(&mut s, ")");
            },
            BufferError::InvalidStateTransition { from, to, reason } => {
                push_str(&mut s, "Invalid state transition from '");
                push_str(&mut s, from.as_str());
                push_str(&mut s, "' to '");
                push_str(&mut s, to.as_str());
                push_str(&mut s, "': ");
                push_str(&mut s, reason.as_str());
            },
        }
        s
    }

    /// Create an invalid cursor position error.
    pub fn invalid_cursor_position(position: usize, max: usize) -> (e: Self)
        ensures
            e == (BufferError::InvalidCursorPosition { position, max }),
    {
        BufferError::InvalidCursorPosition { position, max }
    }

    /// Create an invalid working index error.
    pub fn invalid_working_index(index: usize, max: usize) -> (e: Self)
        ensures
            e == (BufferError::InvalidWorkingIndex { index, max }),
    {
        BufferError::InvalidWorkingIndex { index, max }
    }

    /// Create an invalid range error.
    pub fn invalid_range(start: usize, end: usize) -> (e: Self)
        ensures
            e == (BufferError::InvalidRange { start, end }),
    {
        BufferError::InvalidRange { start, end }
    }

    /// Create a bounds check failed error.
    pub fn bounds_check_failed(operation: &str, position: usize, bounds: (usize, usize)) -> (e:
        Self)
        ensures
            e matches BufferError::BoundsCheckFailed { operation: op, position: p, bounds: b }
                && op@ == operation@ && p == position && b == bounds,
    {
        BufferError::BoundsCheckFailed { operation: owned(operation), position, bounds }
    }

    /// Create an invalid character count error.
    pub fn invalid_character_count(count: usize, available: usize) -> (e: Self)
        ensures
            e == (BufferError::InvalidCharacterCount { count, available }),
    {
        BufferError::InvalidCharacterCount { count, available }
    }

    /// Create an invalid text operation error.
    pub fn invalid_text_operation(operation: &str, reason: &str) -> (e: Self)
        ensures
            e matches BufferError::InvalidTextOperation { operation: op, reason: r } && op@
                == operation@ && r@ == reason@,
    {
        BufferError::InvalidTextOperation { operation: owned(operation), reason: owned(reason) }
    }

    /// Create a Unicode error.
    pub fn unicode_error(msg: &str) -> (e: Self)
        ensures
            e matches BufferError::UnicodeError(m) && m@ == msg@,
    {
        BufferError::UnicodeError(owned(msg))
    }

    /// Create a text encoding error.
    pub fn text_encoding_error(msg: &str) -> (e: Self)
        ensures
            e matches BufferError::TextEncodingError(m) && m@ == msg@,
    {
        BufferError::TextEncodingError(owned(msg))
    }

    /// Create an invalid line number error.
    pub fn invalid_line_number(line: usize, max_line: usize) -> (e: Self)
        ensures
            e == (BufferError::InvalidLineNumber { line, max_line }),
    {
        BufferError::InvalidLineNumber { line, max_line }
    }

    /// Create an invalid column position error.
    pub fn invalid_column_position(column: usize, max_column: usize) -> (e: Self)
        ensures
            e == (BufferError::InvalidColumnPosition { column, max_column }),
    {
        BufferError::InvalidColumnPosition { column, max_column }
    }

    /// Create an invalid state transition error.
    pub fn invalid_state_transition(from: &str, to: &str, reason: &str) -> (e: Self)
        ensures
            e matches BufferError::InvalidStateTransition { from: f, to: t, reason: r } && f@
                == from@ && t@ == to@ && r@ == reason@,
    {
        BufferError::InvalidStateTransition { from: owned(from), to: owned(to), reason: owned(reason) }
    }
}

} // verus!
