//! Rune (Unicode scalar value) level helpers for text stored in `str`.
//!
//! Positions throughout the crate are rune indexes, never byte offsets.

use vstd::prelude::*;
use vstd::string::*;

verus! {

broadcast use vstd::string::group_string_axioms;

/// Unicode `White_Space` property, the set that `char::is_whitespace` tests.
pub open spec fn is_whitespace_spec(c: char) -> bool {
    let u = c as u32;
    ||| 0x09 <= u <= 0x0D
    ||| u == 0x20
    ||| u == 0x85
    ||| u == 0xA0
    ||| u == 0x1680
    ||| 0x2000 <= u <= 0x200A
    ||| u == 0x2028
    ||| u == 0x2029
    ||| u == 0x202F
    ||| u == 0x205F
    ||| u == 0x3000
}

/// Whether `c` is a Unicode whitespace character.
pub fn is_whitespace(c: char) -> (b: bool)
    ensures
        b == is_whitespace_spec(c),
{
    let u = c as u32;
    (0x09 <= u && u <= 0x0D) || u == 0x20 || u == 0x85 || u == 0xA0 || u == 0x1680 || (0x2000
        <= u && u <= 0x200A) || u == 0x2028 || u == 0x2029 || u == 0x202F || u == 0x205F || u
        == 0x3000
}

/// Unicode general category `Cc`, the set that `char::is_control` tests.
pub open spec fn is_control_spec(c: char) -> bool {
    let u = c as u32;
    u <= 0x1F || (0x7F <= u <= 0x9F)
}

/// Whether `c` is a control character.
pub fn is_control(c: char) -> (b: bool)
    ensures
        b == is_control_spec(c),
{
    let u = c as u32;
    u <= 0x1F || (0x7F <= u && u <= 0x9F)
}

/// Characters that occupy no terminal column: control characters, combining
/// marks and zero-width format characters.
pub open spec fn is_zero_width_spec(u: u32) -> bool {
    ||| u == 0
    ||| u < 0x20
    ||| 0x7F <= u < 0xA0
    ||| 0x0300 <= u <= 0x036F
    ||| 0x0483 <= u <= 0x0489
    ||| 0x0591 <= u <= 0x05BD
    ||| 0x0610 <= u <= 0x061A
    ||| 0x064B <= u <= 0x065F
    ||| 0x1AB0 <= u <= 0x1AFF
    ||| 0x1DC0 <= u <= 0x1DFF
    ||| 0x200B <= u <= 0x200F
    ||| 0x2028 <= u <= 0x202E
    ||| 0x2060 <= u <= 0x2064
    ||| 0x20D0 <= u <= 0x20FF
    ||| 0xFE00 <= u <= 0xFE0F
    ||| 0xFE20 <= u <= 0xFE2F
    ||| u == 0xFEFF
}

/// East Asian wide and fullwidth ranges, and the emoji blocks, which occupy
/// two terminal columns.
pub open spec fn is_wide_spec(u: u32) -> bool {
    ||| 0x1100 <= u <= 0x115F
    ||| 0x2E80 <= u <= 0x303E
    ||| 0x3041 <= u <= 0x33FF
    ||| 0x3400 <= u <= 0x4DBF
    ||| 0x4E00 <= u <= 0x9FFF
    ||| 0xA000 <= u <= 0xA4CF
    ||| 0xAC00 <= u <= 0xD7A3
    ||| 0xF900 <= u <= 0xFAFF
    ||| 0xFE30 <= u <= 0xFE4F
    ||| 0xFF00 <= u <= 0xFF60
    ||| 0xFFE0 <= u <= 0xFFE6
    ||| 0x1F300 <= u <= 0x1F64F
    ||| 0x1F900 <= u <= 0x1F9FF
    ||| 0x20000 <= u <= 0x2FFFD
    ||| 0x30000 <= u <= 0x3FFFD
}

/// Number of terminal columns that `c` occupies: 0, 1 or 2.
pub open spec fn char_width_spec(c: char) -> nat {
    let u = c as u32;
    if is_zero_width_spec(u) {
        0
    } else if is_wide_spec(u) {
        2
    } else {
        1
    }
}

/// Number of terminal columns that `c` occupies.
pub fn char_width(c: char) -> (w: usize)
    ensures
        w == char_width_spec(c),
{
    let u = c as u32;
    let zero = u == 0 || u < 0x20 || (0x7F <= u && u < 0xA0) || (0x0300 <= u && u <= 0x036F) || (
    0x0483 <= u && u <= 0x0489) || (0x0591 <= u && u <= 0x05BD) || (0x0610 <= u && u <= 0x061A)
        || (0x064B <= u && u <= 0x065F) || (0x1AB0 <= u && u <= 0x1AFF) || (0x1DC0 <= u && u
        <= 0x1DFF) || (0x200B <= u && u <= 0x200F) || (0x2028 <= u && u <= 0x202E) || (0x2060
        <= u && u <= 0x2064) || (0x20D0 <= u && u <= 0x20FF) || (0xFE00 <= u && u <= 0xFE0F) || (
    0xFE20 <= u && u <= 0xFE2F) || u == 0xFEFF;
    if zero {
        return 0;
    }
    let wide = (0x1100 <= u && u <= 0x115F) || (0x2E80 <= u && u <= 0x303E) || (0x3041 <= u && u
        <= 0x33FF) || (0x3400 <= u && u <= 0x4DBF) || (0x4E00 <= u && u <= 0x9FFF) || (0xA000
        <= u && u <= 0xA4CF) || (0xAC00 <= u && u <= 0xD7A3) || (0xF900 <= u && u <= 0xFAFF) || (
    0xFE30 <= u && u <= 0xFE4F) || (0xFF00 <= u && u <= 0xFF60) || (0xFFE0 <= u && u <= 0xFFE6)
        || (0x1F300 <= u && u <= 0x1F64F) || (0x1F900 <= u && u <= 0x1F9FF) || (0x20000 <= u && u
        <= 0x2FFFD) || (0x30000 <= u && u <= 0x3FFFD);
    if wide {
        2
    } else {
        1
    }
}

/// Total number of terminal columns of a rune sequence.
pub open spec fn width_spec(s: Seq<char>) -> nat
    decreases s.len(),
{
    if s.len() == 0 {
        0
    } else {
        width_spec(s.drop_last()) + char_width_spec(s.last())
    }
}

/// `width_spec` of a sequence, capped at the largest `usize`.
pub open spec fn capped_width_spec(s: Seq<char>) -> nat {
    if width_spec(s) > usize::MAX {
        usize::MAX as nat
    } else {
        width_spec(s)
    }
}

/// Terminal display width of `text` (wide characters count twice, combining
/// and control characters not at all).
pub fn display_width(text: &str) -> (w: usize)
    ensures
        w == capped_width_spec(text@),
{
    let chars = to_chars(text);
    let mut w: usize = 0;
    let mut i: usize = 0;
    while i < chars.len()
        invariant
            chars@ == text@,
            i <= chars.len(),
            w == capped_width_spec(chars@.take(i as int)),
        decreases chars.len() - i,
    {
        let cw = char_width(chars[i]);
        assert(chars@.take(i + 1).drop_last() =~= chars@.take(i as int));
        w = w.saturating_add(cw);
        i = i + 1;
    }
    assert(chars@.take(i as int) =~= chars@);
    w
}

/// The runes of `s`, in order.
pub fn to_chars(s: &str) -> (v: Vec<char>)
    ensures
        v@ == s@,
{
    let mut v: Vec<char> = Vec::new();
    for c in it: s.chars()
        invariant
            v@ == it.seq().take(it.index() as int),
            it.seq() == s@,
    {
        v.push(c);
    }
    v
}

/// Number of runes in `text`.
pub fn rune_count(text: &str) -> (n: usize)
    ensures
        n == text@.len(),
{
    text.unicode_len()
}

/// Rune range `[start, end)` after clamping both ends to the text and an
/// inverted range to empty.
pub open spec fn clamped_range(len: nat, start: int, end: int) -> (int, int) {
    let e = if end > len { len as int } else { end };
    let s = if start > e { e } else { start };
    (s, e)
}

/// The runes of `text` in `[start, end)`; both ends are clamped to the text,
/// and an inverted range gives the empty string.
pub fn rune_slice<'a>(text: &'a str, start: usize, end: usize) -> (r: &'a str)
    ensures
        r@ == text@.subrange(
            clamped_range(text@.len(), start as int, end as int).0,
            clamped_range(text@.len(), start as int, end as int).1,
        ),
{
    let len = text.unicode_len();
    let e = if end > len {
        len
    } else {
        end
    };
    let s = if start > e {
        e
    } else {
        start
    };
    text.substring_char(s, e)
}

/// The rune at `index`, or `None` past the end of `text`.
pub fn char_at_rune_index(text: &str, index: usize) -> (r: Option<char>)
    ensures
        index < text@.len() ==> r == Some(text@[index as int]),
        index >= text@.len() ==> r is None,
{
    let len = text.unicode_len();
    if index < len {
        Some(text.get_char(index))
    } else {
        None
    }
}

} // verus!
