//! ANSI/VT escape sequences for colors, styles and cursor control.

use vstd::prelude::*;
use vstd::string::*;
use crate::console::{BackendType, ClearType, Color, ConsoleError, OutputCapabilities, TextStyle};
use crate::text::{decimal_spec, owned, push_char, push_decimal, push_str};

verus! {

broadcast use vstd::string::group_string_axioms;

/// Decimal notation of a byte.
pub open spec fn dec8(n: u8) -> Seq<char> {
    decimal_spec(n as nat)
}

/// The SGR parameter that selects `color` as foreground (`background` false)
/// or background.
pub open spec fn color_code_spec(color: Color, background: bool) -> Seq<char> {
    let base: nat = if background { 40 } else { 30 };
    let bright: nat = if background { 100 } else { 90 };
    match color {
        Color::Black => decimal_spec(base),
        Color::Red => decimal_spec(base + 1),
        Color::Green => decimal_spec(base + 2),
        Color::Yellow => decimal_spec(base + 3),
        Color::Blue => decimal_spec(base + 4),
        Color::Magenta => decimal_spec(base + 5),
        Color::Cyan => decimal_spec(base + 6),
        Color::White => decimal_spec(base + 7),
        Color::BrightBlack => decimal_spec(bright),
        Color::BrightRed => decimal_spec(bright + 1),
        Color::BrightGreen => decimal_spec(bright + 2),
        Color::BrightYellow => decimal_spec(bright + 3),
        Color::BrightBlue => decimal_spec(bright + 4),
        Color::BrightMagenta => decimal_spec(bright + 5),
        Color::BrightCyan => decimal_spec(bright + 6),
        Color::BrightWhite => decimal_spec(bright + 7),
        Color::Rgb(r, g, b) => decimal_spec(base + 8) + ";2;"@ + dec8(r) + ";"@ + dec8(g) + ";"@
            + dec8(b),
        Color::Ansi256(n) => decimal_spec(base + 8) + ";5;"@ + dec8(n),
    }
}

fn color_code(color: &Color, background: bool) -> (s: String)
    ensures
        s@ == color_code_spec(*color, background),
{
    let base: u64 = if background {
        40
    } else {
        30
    };
    let bright: u64 = if background {
        100
    } else {
        90
    };
    let mut s = String::new();
    match color {
        Color::Black => push_decimal(&mut s, base),
        Color::Red => push_decimal(&mut s, base + 1),
        Color::Green => push_decimal(&mut s, base + 2),
        Color::Yellow => push_decimal(&mut s, base + 3),
        Color::Blue => push_decimal(&mut s, base + 4),
        Color::Magenta => push_decimal(&mut s, base + 5),
        Color::Cyan => push_decimal(&mut s, base + 6),
        Color::White => push_decimal(&mut s, base + 7),
        Color::BrightBlack => push_decimal(&mut s, bright),
        Color::BrightRed => push_decimal(&mut s, bright + 1),
        Color::BrightGreen => push_decimal(&mut s, bright + 2),
        Color::BrightYellow => push_decimal(&mut s, bright + 3),
        Color::BrightBlue => push_decimal(&mut s, bright + 4),
        Color::BrightMagenta => push_decimal(&mut s, bright + 5),
        Color::BrightCyan => push_decimal(&mut s, bright + 6),
        Color::BrightWhite => push_decimal(&mut s, bright + 7),
        Color::Rgb(r, g, b) => {
            push_decimal(&mut s, base + 8);
            push_str(&mut s, ";2;");
            push_decimal(&mut s, *r as u64);
            push_str(&mut s, ";");
            push_decimal(&mut s, *g as u64);
            push_str(&mut s, ";");
            push_decimal(&mut s, *b as u64);
        },
        Color::Ansi256(n) => {
            push_decimal(&mut s, base + 8);
            push_str(&mut s, ";5;");
            push_decimal(&mut s, *n as u64);
        },
    }
    s
}

/// SGR parameter selecting `color` as the foreground ("31", "38;2;r;g;b", ...).
pub fn color_to_fg_ansi(color: &Color) -> (s: String)
    ensures
        s@ == color_code_spec(*color, false),
{
    color_code(color, false)
}

/// SGR parameter selecting `color` as the background ("41", "48;5;n", ...).
pub fn color_to_bg_ansi(color: &Color) -> (s: String)
    ensures
        s@ == color_code_spec(*color, true),
{
    color_code(color, true)
}

/// `parts` with `code` appended when `on` holds.
pub open spec fn push_if(parts: Seq<Seq<char>>, on: bool, code: Seq<char>) -> Seq<Seq<char>> {
    if on {
        parts.push(code)
    } else {
        parts
    }
}

/// `parts` with the code of `color` appended when there is one.
pub open spec fn push_color(parts: Seq<Seq<char>>, color: Option<Color>, background: bool) -> Seq<Seq<char>> {
    match color {
        Some(c) => parts.push(color_code_spec(c, background)),
        None => parts,
    }
}

/// The SGR parameters of a style, in order: foreground, background, bold (1),
/// dim (2), italic (3), underline (4), reverse (7), strikethrough (9).
pub open spec fn style_codes(style: TextStyle) -> Seq<Seq<char>> {
    let p0 = push_color(Seq::empty(), style.foreground, false);
    let p1 = push_color(p0, style.background, true);
    let p2 = push_if(p1, style.bold, "1"@);
    let p3 = push_if(p2, style.dim, "2"@);
    let p4 = push_if(p3, style.italic, "3"@);
    let p5 = push_if(p4, style.underline, "4"@);
    let p6 = push_if(p5, style.reverse, "7"@);
    push_if(p6, style.strikethrough, "9"@)
}

/// The parts joined by semicolons.
pub open spec fn join_codes(parts: Seq<Seq<char>>) -> Seq<char>
    decreases parts.len(),
{
    if parts.len() == 0 {
        Seq::empty()
    } else if parts.len() == 1 {
        parts[0]
    } else {
        join_codes(parts.drop_last()) + ";"@ + parts.last()
    }
}

/// The SGR sequence of a style: empty for the plain style, otherwise
/// `ESC [ codes m`.
pub open spec fn style_sequence(style: TextStyle) -> Seq<char> {
    if style_codes(style).len() == 0 {
        Seq::empty()
    } else {
        seq!['\x1b', '['] + join_codes(style_codes(style)) + seq!['m']
    }
}

fn add_code(s: &mut String, parts: Ghost<Seq<Seq<char>>>, empty: bool, code: &str)
    requires
        old(s)@ == join_codes(parts@),
        empty == (parts@.len() == 0),
    ensures
        final(s)@ == join_codes(parts@.push(code@)),
{
    let ghost p2 = parts@.push(code@);
    assert(p2.drop_last() =~= parts@);
    if !empty {
        push_str(s, ";");
    }
    push_str(s, code);
}

fn add_flag(s: &mut String, parts: Ghost<Seq<Seq<char>>>, empty: bool, on: bool, code: &str) -> (e: bool)
    requires
        old(s)@ == join_codes(parts@),
        empty == (parts@.len() == 0),
    ensures
        final(s)@ == join_codes(push_if(parts@, on, code@)),
        e == (push_if(parts@, on, code@).len() == 0),
{
    if on {
        add_code(s, parts, empty, code);
        false
    } else {
        empty
    }
}

fn add_color(s: &mut String, parts: Ghost<Seq<Seq<char>>>, empty: bool, color: &Option<Color>, background: bool) -> (e: bool)
    requires
        old(s)@ == join_codes(parts@),
        empty == (parts@.len() == 0),
    ensures
        final(s)@ == join_codes(push_color(parts@, *color, background)),
        e == (push_color(parts@, *color, background).len() == 0),
{
    if let Some(c) = color {
        let code = color_code(c, background);
        add_code(s, parts, empty, code.as_str());
        false
    } else {
        empty
    }
}

/// The complete SGR sequence of a style; empty when the style sets nothing.
pub fn style_to_ansi(style: &TextStyle) -> (s: String)
    ensures
        s@ == style_sequence(*style),
{
    let mut codes = String::new();
    let ghost p0 = push_color(Seq::empty(), style.foreground, false);
    let ghost p1 = push_color(p0, style.background, true);
    let ghost p2 = push_if(p1, style.bold, "1"@);
    let ghost p3 = push_if(p2, style.dim, "2"@);
    let ghost p4 = push_if(p3, style.italic, "3"@);
    let ghost p5 = push_if(p4, style.underline, "4"@);
    let ghost p6 = push_if(p5, style.reverse, "7"@);
    let e = add_color(&mut codes, Ghost(Seq::empty()), true, &style.foreground, false);
    let e = add_color(&mut codes, Ghost(p0), e, &style.background, true);
    let e = add_flag(&mut codes, Ghost(p1), e, style.bold, "1");
    let e = add_flag(&mut codes, Ghost(p2), e, style.dim, "2");
    let e = add_flag(&mut codes, Ghost(p3), e, style.italic, "3");
    let e = add_flag(&mut codes, Ghost(p4), e, style.underline, "4");
    let e = add_flag(&mut codes, Ghost(p5), e, style.reverse, "7");
    let e = add_flag(&mut codes, Ghost(p6), e, style.strikethrough, "9");
    if e {
        return String::new();
    }
    let mut s = String::new();
    push_char(&mut s, '\x1b');
    push_char(&mut s, '[');
    push_str(&mut s, codes.as_str());
    push_char(&mut s, 'm');
    s
}


/// `ESC [ row+1 ; col+1 H`: moves the cursor to the zero-based (row, col).
pub open spec fn cursor_to_spec(row: u16, col: u16) -> Seq<char> {
    seq!['\x1b', '['] + decimal_spec(row as nat + 1) + ";"@ + decimal_spec(col as nat + 1) + "H"@
}

/// The absolute cursor positioning sequence for the zero-based (row, col).
pub fn cursor_to_sequence(row: u16, col: u16) -> (s: String)
    ensures
        s@ == cursor_to_spec(row, col),
{
    let mut s = String::new();
    push_char(&mut s, '\x1b');
    push_char(&mut s, '[');
    push_decimal(&mut s, row as u64 + 1);
    push_str(&mut s, ";");
    push_decimal(&mut s, col as u64 + 1);
    push_str(&mut s, "H");
    s
}

/// Absolute value of a delta.
pub open spec fn magnitude(d: i16) -> nat {
    if d < 0 { (-d) as nat } else { d as nat }
}

/// One relative move: `ESC [ n up` when `d` is negative, `ESC [ n down`
/// when positive, nothing when zero.
pub open spec fn step_spec(d: i16, down: char, up: char) -> Seq<char> {
    if d == 0 {
        Seq::empty()
    } else {
        seq!['\x1b', '['] + decimal_spec(magnitude(d)) + seq![if d > 0 { down } else { up }]
    }
}

/// Relative cursor motion: vertical (B down, A up), then horizontal
/// (C right, D left); a zero delta writes nothing.
pub open spec fn cursor_relative_spec(row_delta: i16, col_delta: i16) -> Seq<char> {
    step_spec(row_delta, 'B', 'A') + step_spec(col_delta, 'C', 'D')
}

fn push_step(s: &mut String, d: i16, down: char, up: char)
    ensures
        final(s)@ == old(s)@ + step_spec(d, down, up),
{
    if d != 0 {
        let n: u64 = if d < 0 { (-(d as i32)) as u64 } else { d as u64 };
        push_char(s, '\x1b');
        push_char(s, '[');
        push_decimal(s, n);
        if d > 0 {
            push_char(s, down);
        } else {
            push_char(s, up);
        }
        assert(final(s)@ =~= old(s)@ + step_spec(d, down, up));
    } else {
        assert(final(s)@ =~= old(s)@ + step_spec(d, down, up));
    }
}

/// The relative cursor motion sequence for the given deltas.
pub fn cursor_relative_sequence(row_delta: i16, col_delta: i16) -> (s: String)
    ensures
        s@ == cursor_relative_spec(row_delta, col_delta),
{
    let mut s = String::new();
    push_step(&mut s, row_delta, 'B', 'A');
    push_step(&mut s, col_delta, 'C', 'D');
    assert(s@ =~= cursor_relative_spec(row_delta, col_delta));
    s
}

/// The erase sequence of each clear type.
pub open spec fn clear_spec(clear_type: ClearType) -> Seq<char> {
    match clear_type {
        ClearType::All => "\x1b[2J"@,
        ClearType::FromCursor => "\x1b[0J"@,
        ClearType::ToCursor => "\x1b[1J"@,
        ClearType::CurrentLine => "\x1b[2K"@,
        ClearType::FromCursorToEndOfLine => "\x1b[0K"@,
        ClearType::FromBeginningOfLineToCursor => "\x1b[1K"@,
    }
}

/// The erase sequence (ED or EL) of a clear type.
pub fn clear_sequence(clear_type: ClearType) -> (s: &'static str)
    ensures
        s@ == clear_spec(clear_type),
{
    match clear_type {
        ClearType::All => "\x1b[2J",
        ClearType::FromCursor => "\x1b[0J",
        ClearType::ToCursor => "\x1b[1J",
        ClearType::CurrentLine => "\x1b[2K",
        ClearType::FromCursorToEndOfLine => "\x1b[0K",
        ClearType::FromBeginningOfLineToCursor => "\x1b[1K",
    }
}

/// Enter (`?1049h`) or leave (`?1049l`) the alternate screen.
pub open spec fn alternate_screen_spec(enabled: bool) -> Seq<char> {
    if enabled { "\x1b[?1049h"@ } else { "\x1b[?1049l"@ }
}

/// The sequence that enters or leaves the alternate screen buffer.
pub fn alternate_screen_sequence(enabled: bool) -> (s: &'static str)
    ensures
        s@ == alternate_screen_spec(enabled),
{
    if enabled { "\x1b[?1049h" } else { "\x1b[?1049l" }
}

/// Show (`?25h`) or hide (`?25l`) the cursor.
pub open spec fn cursor_visibility_spec(visible: bool) -> Seq<char> {
    if visible { "\x1b[?25h"@ } else { "\x1b[?25l"@ }
}

/// The sequence that shows or hides the cursor.
pub fn cursor_visibility_sequence(visible: bool) -> (s: &'static str)
    ensures
        s@ == cursor_visibility_spec(visible),
{
    if visible { "\x1b[?25h" } else { "\x1b[?25l" }
}

/// The sequence that resets every text attribute.
pub open spec fn reset_spec() -> Seq<char> {
    "\x1b[0m"@
}

/// The SGR reset sequence.
pub fn reset_sequence() -> (s: &'static str)
    ensures
        s@ == reset_spec(),
{
    "\x1b[0m"
}

/// The device status report that asks the terminal for the cursor position.
pub open spec fn cursor_query_spec() -> Seq<char> {
    "\x1b[6n"@
}

/// The cursor position query (DSR 6).
pub fn cursor_query_sequence() -> (s: &'static str)
    ensures
        s@ == cursor_query_spec(),
{
    "\x1b[6n"
}

/// Whether a byte is an ASCII decimal digit.
pub open spec fn is_digit_byte(b: u8) -> bool {
    0x30 <= b <= 0x39
}

/// The value of a string of decimal digits.
pub open spec fn digits_value(s: Seq<u8>) -> nat
    decreases s.len(),
{
    if s.len() == 0 {
        0
    } else {
        digits_value(s.drop_last()) * 10 + (s.last() - 0x30) as nat
    }
}

/// The digits of a number field: the field without one leading `+`.
pub open spec fn unsigned_digits(s: Seq<u8>) -> Seq<u8> {
    if s.len() > 0 && s[0] == 0x2b { s.subrange(1, s.len() as int) } else { s }
}

/// What parsing a field as a `u16` gives: an optional `+`, then one or more
/// decimal digits whose value fits in 16 bits.
pub open spec fn parse_u16_spec(s: Seq<u8>) -> Option<u16> {
    let d = unsigned_digits(s);
    if d.len() > 0 && (forall|i: int| 0 <= i < d.len() ==> is_digit_byte(#[trigger] d[i]))
        && digits_value(d) <= u16::MAX {
        Some(digits_value(d) as u16)
    } else {
        None
    }
}

proof fn lemma_digits_value_prefix(s: Seq<u8>, i: int)
    requires
        0 <= i <= s.len(),
        forall|j: int| 0 <= j < s.len() ==> is_digit_byte(#[trigger] s[j]),
    ensures
        digits_value(s.subrange(0, i)) <= digits_value(s),
    decreases s.len() - i,
{
    if i < s.len() {
        lemma_digits_value_prefix(s, i + 1);
        assert(s.subrange(0, i + 1).drop_last() =~= s.subrange(0, i));
    } else {
        assert(s.subrange(0, i) =~= s);
    }
}

/// Parses `s[start..end]` as a `u16` the way `str::parse::<u16>` does.
pub fn parse_u16_field(s: &[u8], start: usize, end: usize) -> (r: Option<u16>)
    requires
        start <= end <= s@.len(),
    ensures
        r == parse_u16_spec(s@.subrange(start as int, end as int)),
{
    let ghost f = s@.subrange(start as int, end as int);
    let mut i = start;
    if i < end && s[i] == 0x2b {
        i = i + 1;
    }
    let ghost d = unsigned_digits(f);
    assert(d =~= s@.subrange(i as int, end as int));
    if i == end {
        return None;
    }
    let mut v: u32 = 0;
    let mut j = i;
    while j < end
        invariant
            i <= j <= end <= s@.len(),
            d == s@.subrange(i as int, end as int),
            f == s@.subrange(start as int, end as int),
            d == unsigned_digits(f),
            forall|k: int| 0 <= k < j - i ==> is_digit_byte(#[trigger] d[k]),
            v == digits_value(d.subrange(0, j - i)),
            v <= u16::MAX,
        decreases end - j,
    {
        let b = s[j];
        if b < 0x30 || b > 0x39 {
            assert(!is_digit_byte(d[j - i]));
            assert(unsigned_digits(f) == d);
            assert(parse_u16_spec(f) is None);
            return None;
        }
        let ghost p = d.subrange(0, j - i + 1);
        assert(p.drop_last() =~= d.subrange(0, j - i));
        assert(p.last() == b);
        let nv = v * 10 + (b - 0x30) as u32;
        if nv > 65535 {
            proof {
                if forall|k: int| 0 <= k < d.len() ==> is_digit_byte(#[trigger] d[k]) {
                    lemma_digits_value_prefix(d, j - i + 1);
                    assert(digits_value(p) == nv);
                    assert(digits_value(d) > u16::MAX);
                }
                assert(unsigned_digits(f) == d);
                assert(parse_u16_spec(f) is None);
            }
            return None;
        }
        v = nv;
        j = j + 1;
    }
    assert(d.subrange(0, j - i) =~= d);
    Some(v as u16)
}

/// Splits a cursor report body at its one semicolon: the index of the
/// semicolon when there is exactly one.
pub open spec fn single_semicolon(s: Seq<u8>) -> Option<int> {
    if exists|k: int| 0 <= k < s.len() && s[k] == 0x3b && (forall|m: int| 0 <= m < s.len() && m != k ==> s[m] != 0x3b) {
        Some(choose|k: int| 0 <= k < s.len() && s[k] == 0x3b && (forall|m: int| 0 <= m < s.len() && m != k ==> s[m] != 0x3b))
    } else {
        None
    }
}

/// What a cursor position report `ESC [ row ; col R` gives: the zero-based
/// (row, col), each one-based field lowered by one (never below zero), or
/// the message of the I/O error that names what is wrong with it.
pub open spec fn cursor_report_spec(r: Seq<u8>) -> Result<(u16, u16), Seq<char>> {
    if !(r.len() >= 3 && r[0] == 0x1b && r[1] == 0x5b && r.last() == 0x52) {
        Err("Invalid cursor position response"@)
    } else {
        let body = r.subrange(2, r.len() - 1);
        match single_semicolon(body) {
            None => Err("Invalid cursor position format"@),
            Some(k) => match parse_u16_spec(body.subrange(0, k)) {
                None => Err("Invalid row in cursor position"@),
                Some(row) => match parse_u16_spec(body.subrange(k + 1, body.len() as int)) {
                    None => Err("Invalid column in cursor position"@),
                    Some(col) => Ok((
                        if row == 0 { 0u16 } else { (row - 1) as u16 },
                        if col == 0 { 0u16 } else { (col - 1) as u16 },
                    )),
                },
            },
        }
    }
}


/// Whether `r` is the result that `cursor_report_spec` describes.
pub open spec fn matches_report(r: Result<(u16, u16), ConsoleError>, expected: Result<(u16, u16), Seq<char>>) -> bool {
    match (r, expected) {
        (Ok(p), Ok(q)) => p == q,
        (Err(ConsoleError::IoError(m)), Err(msg)) => m@ == msg,
        _ => false,
    }
}

fn io_error(msg: &str) -> (e: ConsoleError)
    ensures
        e matches ConsoleError::IoError(m) && m@ == msg@,
{
    ConsoleError::IoError(owned(msg))
}

/// The one semicolon of `r[2 .. len - 1]`, as an index into `r`.
fn locate_semicolon(r: &[u8]) -> (k: Option<usize>)
    requires
        r@.len() >= 3,
    ensures
        match k {
            Some(s) => 2 <= s < r@.len() - 1 && single_semicolon(r@.subrange(2, r@.len() - 1)) == Some(s - 2),
            None => single_semicolon(r@.subrange(2, r@.len() - 1)) is None,
        },
{
    let n = r.len();
    let ghost body = r@.subrange(2, n - 1);
    let mut count: usize = 0;
    let mut semi: usize = 0;
    let mut i: usize = 2;
    while i < n - 1
        invariant
            3 <= n == r@.len(),
            2 <= i <= n - 1,
            body == r@.subrange(2, n - 1),
            count <= i,
            count == 0 ==> forall|m: int| 0 <= m < i - 2 ==> body[m] != 0x3b,
            count == 1 ==> 2 <= semi < i && body[semi - 2] == 0x3b
                && forall|m: int| 0 <= m < i - 2 && m != semi - 2 ==> body[m] != 0x3b,
            count >= 2 ==> exists|a: int, b: int| 0 <= a < b < i - 2 && body[a] == 0x3b && body[b] == 0x3b,
        decreases n - 1 - i,
    {
        if r[i] == 0x3b {
            if count == 0 {
                semi = i;
            } else if count == 1 {
                assert(body[semi - 2] == 0x3b && body[i - 2] == 0x3b);
            }
            if count < 2 {
                count = count + 1;
            }
        }
        i = i + 1;
    }
    if count != 1 {
        proof {
            if count == 0 {
                assert(!exists|k: int| 0 <= k < body.len() && body[k] == 0x3b && (forall|m: int| 0 <= m < body.len() && m != k ==> body[m] != 0x3b));
            } else {
                let (a, b) = choose|a: int, b: int| 0 <= a < b < i - 2 && body[a] == 0x3b && body[b] == 0x3b;
                assert forall|k: int| 0 <= k < body.len() && body[k] == 0x3b implies !(forall|m: int| 0 <= m < body.len() && m != k ==> body[m] != 0x3b) by {
                    if k == a {
                        assert(body[b] == 0x3b);
                    } else {
                        assert(body[a] == 0x3b);
                    }
                }
            }
        }
        return None;
    }
    proof {
        let k = semi - 2;
        assert(0 <= k < body.len() && body[k] == 0x3b && (forall|m: int| 0 <= m < body.len() && m != k ==> body[m] != 0x3b));
        let c = choose|k: int| 0 <= k < body.len() && body[k] == 0x3b && (forall|m: int| 0 <= m < body.len() && m != k ==> body[m] != 0x3b);
        if c != k {
            assert(body[c] != 0x3b);
        }
    }
    Some(semi)
}

/// Parses the terminal's answer to the cursor position query.
pub fn parse_cursor_report(r: &[u8]) -> (res: Result<(u16, u16), ConsoleError>)
    ensures
        matches_report(res, cursor_report_spec(r@)),
{
    let n = r.len();
    if !(n >= 3 && r[0] == 0x1b && r[1] == 0x5b && r[n - 1] == 0x52) {
        return Err(io_error("Invalid cursor position response"));
    }
    let semi = match locate_semicolon(r) {
        Some(s) => s,
        None => {
            return Err(io_error("Invalid cursor position format"));
        },
    };
    proof {
        let body = r@.subrange(2, n - 1);
        assert(body.subrange(0, semi - 2) =~= r@.subrange(2, semi as int));
        assert(body.subrange(semi - 1, body.len() as int) =~= r@.subrange(semi + 1, n - 1));
    }
    let row = match parse_u16_field(r, 2, semi) {
        Some(v) => v,
        None => {
            return Err(io_error("Invalid row in cursor position"));
        },
    };
    let col = match parse_u16_field(r, semi + 1, n - 1) {
        Some(v) => v,
        None => {
            return Err(io_error("Invalid column in cursor position"));
        },
    };
    let r0: u16 = if row == 0 { 0 } else { row - 1 };
    let c0: u16 = if col == 0 { 0 } else { col - 1 };
    Ok((r0, c0))
}

} // verus!
