//! Properties that relate several operations of the library.

use vstd::prelude::*;
use crate::ansi::{cursor_report_spec, digits_value, is_digit_byte, parse_u16_spec, single_semicolon, unsigned_digits};
use crate::buffer::{clamp_pos, delete_before_count, insert_spec, swap_spec};
use crate::completion::filter_prefix;
use crate::document::{col_of, line_count_spec, min_int, row_col_to_index, row_end, row_of};
use crate::key_handler::{action_effect, cursor_set, key_effect, lookup, without, KeyOutcome};
use crate::renderer::{cursor_width_spec, drawn, unchanged, wrap_lines, wrap_spec, wrap_state, RendererView};
use crate::unicode::{capped_width_spec, char_width_spec, clamped_range, width_spec};
use crate::key_parser::parser_initial;
use crate::repl::KeyBinding;
use crate::key::Key;
use crate::repl::KeyAction;
use crate::scan::{lemma_line_starts, line_begin, line_end, line_starts, newline_count};
use crate::buffer::BufferView;
use crate::ansi::{color_code_spec, dec8};
use crate::console::{action_text, filter_run, filter_step, hex_digit, is_control_code, Color, FilterAction, FilterState, SanitizationPolicy};
use crate::document::{boundary_after, boundary_before, down_target, lemma_row_col_to_index_bound, skip_blanks, up_target};
use crate::repl::{bound_earlier, config_error, first_duplicate_from};
use crate::scan::{is_sep, run_end, run_start};
use crate::text::decimal_spec;
use crate::document::DocumentView;
use crate::key_parser::{feed_spec, feed_step, EventModel, KeyParserView};

verus! {

/// Typing text and then deleting as many runes before the cursor gives the
/// text back, with the cursor where it was (clamped to the text).
pub proof fn law_insert_then_delete_restores(s: Seq<char>, c: int, t: Seq<char>)
    requires
        0 <= c,
    ensures
        ({
            let s2 = insert_spec(s, c, t, false);
            let c2 = clamp_pos(s, c) + t.len();
            let k = delete_before_count(s2, c2, t.len() as int);
            &&& k == t.len()
            &&& s2.subrange(0, c2 - k) + s2.subrange(c2, s2.len() as int) == s
            &&& c2 - k == clamp_pos(s, c)
        }),
{
    let p = clamp_pos(s, c);
    let s2 = insert_spec(s, c, t, false);
    let c2 = p + t.len();
    assert(s2.len() == s.len() + t.len());
    assert(clamp_pos(s2, c2) == c2);
    assert(s2.subrange(0, p) =~= s.subrange(0, p));
    assert(s2.subrange(c2, s2.len() as int) =~= s.subrange(p, s.len() as int));
    assert(s.subrange(0, p) + s.subrange(p, s.len() as int) =~= s);
}

/// The text before the cursor followed by the text after it is the whole
/// text of a document.
pub proof fn law_cursor_splits_text(d: DocumentView)
    requires
        d.cursor <= d.text.len(),
    ensures
        d.text.subrange(0, d.cursor as int) + d.text.subrange(d.cursor as int, d.text.len() as int) == d.text,
{
    assert(d.text.subrange(0, d.cursor as int) + d.text.subrange(d.cursor as int, d.text.len() as int) =~= d.text);
}

/// Swapping the two runes before the cursor twice gives the text back.
pub proof fn law_swap_twice_restores(s: Seq<char>, c: int)
    ensures
        swap_spec(swap_spec(s, c), c) == s,
{
    if 2 <= c <= s.len() {
        let s1 = swap_spec(s, c);
        assert(s1.len() == s.len());
        assert(s1[c - 1] == s[c - 2]);
        assert(s1[c - 2] == s[c - 1]);
        assert(swap_spec(s1, c) =~= s);
    }
}

/// A document has as many lines as line starts.
pub proof fn law_line_count_matches_lines(s: Seq<char>)
    ensures
        line_count_spec(s) == line_starts(s).len(),
{
    lemma_line_starts(s);
}

/// Rendering what was just rendered draws nothing: the renderer reports
/// no change.
pub proof fn law_render_twice_is_no_change(v: RendererView, text: Seq<char>, cursor: usize)
    ensures
        unchanged(drawn(v, text, cursor), text, cursor),
{
}

/// Setting the cursor to the same position twice is the same as once.
pub proof fn law_set_cursor_idempotent(b: BufferView, pos: int)
    requires
        b.index < b.lines.len(),
    ensures
        cursor_set(cursor_set(b, pos), pos) == cursor_set(b, pos),
{
}

/// Registering a binding and removing it again leaves the same bindings as
/// removing it directly.
pub proof fn law_register_then_remove(v: Seq<KeyBinding>, key: Key, action: KeyAction, k: Key)
    ensures
        lookup(without(without(v, key).push(KeyBinding { key, action }), key), k) == lookup(without(v, key), k),
{
    let w = without(v, key);
    let b = KeyBinding { key, action };
    assert(w.push(b).drop_last() =~= w);
    lemma_without_twice(v, key);
}

proof fn lemma_without_twice(v: Seq<KeyBinding>, key: Key)
    ensures
        without(without(v, key), key) == without(v, key),
    decreases v.len(),
{
    if v.len() > 0 {
        lemma_without_twice(v.drop_last(), key);
        let w = without(v.drop_last(), key);
        if v.last().key != key {
            assert(w.push(v.last()).drop_last() =~= w);
        }
    }
}

/// Every candidate a static completer offers starts with the word it was
/// asked about.
pub proof fn law_completions_start_with_word(all: Seq<(Seq<char>, Seq<char>)>, word: Seq<char>)
    ensures
        forall|i: int| 0 <= i < filter_prefix(all, word).len() ==> word.is_prefix_of(#[trigger] filter_prefix(all, word)[i].0),
    decreases all.len(),
{
    if all.len() > 0 {
        law_completions_start_with_word(all.drop_last(), word);
        let rest = filter_prefix(all.drop_last(), word);
        if word.is_prefix_of(all.last().0) {
            assert forall|i: int| 0 <= i < rest.push(all.last()).len() implies word.is_prefix_of(#[trigger] rest.push(all.last())[i].0) by {
                if i < rest.len() {
                    assert(rest.push(all.last())[i] == rest[i]);
                }
            }
        }
    }
}

/// The decimal digits of `n` as ASCII bytes.
pub open spec fn decimal_bytes(n: nat) -> Seq<u8>
    decreases n,
{
    if n < 10 {
        seq![(0x30 + n) as u8]
    } else {
        decimal_bytes(n / 10).push((0x30 + n % 10) as u8)
    }
}

proof fn lemma_decimal_bytes(n: nat)
    ensures
        decimal_bytes(n).len() > 0,
        forall|i: int| 0 <= i < decimal_bytes(n).len() ==> is_digit_byte(#[trigger] decimal_bytes(n)[i]),
        digits_value(decimal_bytes(n)) == n,
    decreases n,
{
    if n >= 10 {
        lemma_decimal_bytes(n / 10);
        let d = decimal_bytes(n / 10);
        assert(decimal_bytes(n).drop_last() =~= d);
        assert(n % 10 < 10);
        assert(decimal_bytes(n).last() == (0x30 + n % 10) as u8);
        assert(((0x30 + n % 10) as u8 - 0x30) as nat == n % 10);
        assert(n == (n / 10) * 10 + n % 10) by (nonlinear_arith);
        assert(digits_value(decimal_bytes(n)) == digits_value(d) * 10 + (decimal_bytes(n).last() - 0x30) as nat);
        assert forall|i: int| 0 <= i < decimal_bytes(n).len() implies is_digit_byte(#[trigger] decimal_bytes(n)[i]) by {
            if i < d.len() {
                assert(decimal_bytes(n)[i] == d[i]);
            }
        }
    } else {
        assert(decimal_bytes(n).drop_last() =~= Seq::<u8>::empty());
        assert(digits_value(decimal_bytes(n)) == digits_value(Seq::<u8>::empty()) * 10 + (decimal_bytes(n).last() - 0x30) as nat);
    }
}

/// The terminal's report of the one-based position (row, col):
/// `ESC [ row ; col R`.
pub open spec fn cursor_report(row: nat, col: nat) -> Seq<u8> {
    seq![0x1bu8, 0x5bu8] + decimal_bytes(row) + seq![0x3bu8] + decimal_bytes(col) + seq![0x52u8]
}

/// Reading back a cursor report gives the zero-based position it reports.
pub proof fn law_cursor_report_round_trip(row: u16, col: u16)
    requires
        row < u16::MAX,
        col < u16::MAX,
    ensures
        cursor_report_spec(cursor_report(row as nat + 1, col as nat + 1)) == Ok::<(u16, u16), Seq<char>>((row, col)),
{
    let a = decimal_bytes(row as nat + 1);
    let b = decimal_bytes(col as nat + 1);
    lemma_decimal_bytes(row as nat + 1);
    lemma_decimal_bytes(col as nat + 1);
    let r = cursor_report(row as nat + 1, col as nat + 1);
    let body = r.subrange(2, r.len() - 1);
    assert(body =~= a + seq![0x3bu8] + b);
    let k = a.len() as int;
    assert(body[k] == 0x3b);
    assert forall|m: int| 0 <= m < body.len() && m != k implies body[m] != 0x3b by {
        if m < k {
            assert(body[m] == a[m]);
            assert(is_digit_byte(a[m]));
        } else {
            assert(body[m] == b[m - k - 1]);
            assert(is_digit_byte(b[m - k - 1]));
        }
    }
    let c = choose|j: int| 0 <= j < body.len() && body[j] == 0x3b && (forall|m: int| 0 <= m < body.len() && m != j ==> body[m] != 0x3b);
    if c != k {
        assert(body[c] != 0x3b);
    }
    assert(single_semicolon(body) == Some(k));
    assert(body.subrange(0, k) =~= a);
    assert(body.subrange(k + 1, body.len() as int) =~= b);
    assert(is_digit_byte(a[0]));
    assert(is_digit_byte(b[0]));
    assert(unsigned_digits(a) == a);
    assert(unsigned_digits(b) == b);
    assert(parse_u16_spec(a) == Some((row + 1) as u16));
    assert(parse_u16_spec(b) == Some((col + 1) as u16));
}


proof fn lemma_line_begin_prefix(s: Seq<char>, k: int, j: int)
    requires
        0 <= j <= k <= s.len(),
    ensures
        line_begin(s.take(k), j) == line_begin(s, j),
    decreases j,
{
    if j > 0 {
        lemma_line_begin_prefix(s, k, j - 1);
        assert(s.take(k)[j - 1] == s[j - 1]);
    }
}

proof fn lemma_last_line_start(t: Seq<char>)
    ensures
        line_starts(t).len() > 0,
        line_starts(t).last() == line_begin(t, t.len() as int),
    decreases t.len(),
{
    if t.len() > 0 {
        let p = t.drop_last();
        lemma_last_line_start(p);
        if t.last() != '\n' {
            assert(p =~= t.take(t.len() - 1));
            lemma_line_begin_prefix(t, t.len() - 1, t.len() - 1);
        }
    }
}

proof fn lemma_line_starts_extend(s: Seq<char>, i: int, m: int)
    requires
        0 <= i <= m <= s.len(),
    ensures
        line_starts(s.take(i)).len() <= line_starts(s.take(m)).len(),
        forall|k: int| 0 <= k < line_starts(s.take(i)).len() ==> #[trigger] line_starts(s.take(m))[k] == line_starts(s.take(i))[k],
        forall|k: int| line_starts(s.take(i)).len() <= k < line_starts(s.take(m)).len() ==> #[trigger] line_starts(s.take(m))[k] >= i + 1,
    decreases m - i,
{
    if m > i {
        lemma_line_starts_extend(s, i, m - 1);
        assert(s.take(m).drop_last() =~= s.take(m - 1));
    }
}

/// Turning a position into (row, column) and back gives the position.
pub proof fn law_position_round_trip(s: Seq<char>, i: int)
    requires
        0 <= i <= s.len(),
    ensures
        row_col_to_index(s, row_of(s, i), col_of(s, i)) == i,
{
    let t = s.take(i);
    assert(s.take(s.len() as int) =~= s);
    lemma_line_starts_extend(s, i, s.len() as int);
    lemma_line_starts(t);
    lemma_line_starts(s);
    lemma_last_line_start(t);
    lemma_line_begin_prefix(s, i, i);
    assert(t.len() == i);
    let row = row_of(s, i);
    let st = line_starts(s);
    assert(row + 1 == line_starts(t).len());
    assert(st[row] == line_starts(t)[row]);
    assert(st[row] == line_begin(s, i));
    crate::document::lemma_line_begin_bound(s, i);
    if row + 1 < st.len() {
        assert(st[row + 1] >= i + 1);
    }
}


/// The foreground number of a colour: 30-37, 90-97, or 38 for RGB and
/// 256-colour codes.
pub open spec fn color_number(c: Color) -> nat {
    match c {
        Color::Black => 30,
        Color::Red => 31,
        Color::Green => 32,
        Color::Yellow => 33,
        Color::Blue => 34,
        Color::Magenta => 35,
        Color::Cyan => 36,
        Color::White => 37,
        Color::BrightBlack => 90,
        Color::BrightRed => 91,
        Color::BrightGreen => 92,
        Color::BrightYellow => 93,
        Color::BrightBlue => 94,
        Color::BrightMagenta => 95,
        Color::BrightCyan => 96,
        Color::BrightWhite => 97,
        Color::Rgb(_, _, _) => 38,
        Color::Ansi256(_) => 38,
    }
}

/// The parameters after the colour number: the RGB components or the
/// palette index, if any.
pub open spec fn color_tail(c: Color) -> Seq<char> {
    match c {
        Color::Rgb(r, g, b) => ";2;"@ + dec8(r) + ";"@ + dec8(g) + ";"@ + dec8(b),
        Color::Ansi256(n) => ";5;"@ + dec8(n),
        _ => Seq::empty(),
    }
}

/// Every colour's background code is its foreground code plus ten, with
/// the same parameters after it.
pub proof fn law_background_is_foreground_plus_ten(c: Color)
    ensures
        color_code_spec(c, false) == decimal_spec(color_number(c)) + color_tail(c),
        color_code_spec(c, true) == decimal_spec(color_number(c) + 10) + color_tail(c),
{
    assert(color_code_spec(c, false) =~= decimal_spec(color_number(c)) + color_tail(c));
    assert(color_code_spec(c, true) =~= decimal_spec(color_number(c) + 10) + color_tail(c));
}

proof fn lemma_no_duplicate_from(b: Seq<KeyBinding>, j: int)
    requires
        0 <= j,
        first_duplicate_from(b, j) is None,
    ensures
        forall|k: int| j <= k < b.len() ==> !bound_earlier(b, k),
    decreases b.len() - j,
{
    if j < b.len() {
        lemma_no_duplicate_from(b, j + 1);
    }
}

/// A configuration that validation accepts binds no key twice.
pub proof fn law_valid_config_binds_each_key_once(prompt: Seq<char>, bindings: Seq<KeyBinding>, enable_history: bool, max_history_size: usize)
    requires
        config_error(prompt, bindings, enable_history, max_history_size) is None,
    ensures
        forall|i: int, j: int| 0 <= i < j < bindings.len() ==> bindings[i].key != bindings[j].key,
{
    lemma_no_duplicate_from(bindings, 0);
    assert forall|i: int, j: int| 0 <= i < j < bindings.len() implies bindings[i].key != bindings[j].key by {
        if bindings[i].key == bindings[j].key {
            assert(bound_earlier(bindings, j));
        }
    }
}

/// The control characters a policy lets through: line layout (tab, line
/// feed, carriage return) when removing, also bell and backspace when
/// formatting is allowed, none when escaping.
pub open spec fn kept_control(policy: SanitizationPolicy, c: char) -> bool {
    let u = c as u32;
    match policy {
        SanitizationPolicy::RemoveAll | SanitizationPolicy::RemoveDangerous => u == 0x09 || u == 0x0a || u == 0x0d,
        SanitizationPolicy::AllowBasicFormatting => u == 0x07 || u == 0x08 || u == 0x09 || u == 0x0a || u == 0x0d,
        SanitizationPolicy::EscapeAll => false,
    }
}

/// The only control characters in the filter's output are those its
/// policy keeps.
pub proof fn law_filter_output_controls(policy: SanitizationPolicy, state: FilterState, chars: Seq<char>)
    ensures
        forall|i: int| 0 <= i < filter_run(policy, state, chars).1.len() && is_control_code(#[trigger] filter_run(policy, state, chars).1[i])
            ==> kept_control(policy, filter_run(policy, state, chars).1[i]),
    decreases chars.len(),
{
    if chars.len() > 0 {
        law_filter_output_controls(policy, state, chars.drop_last());
        let (mid, out) = filter_run(policy, state, chars.drop_last());
        let (next, action) = filter_step(policy, mid, chars.last());
        let t = action_text(action);
        let all = filter_run(policy, state, chars).1;
        assert(all == out + t);
        assert forall|i: int| 0 <= i < all.len() && is_control_code(#[trigger] all[i]) implies kept_control(policy, all[i]) by {
            if i < out.len() {
                assert(all[i] == out[i]);
            } else {
                assert(all[i] == t[i - out.len()]);
                match action {
                    FilterAction::EmitEscaped(b) => {
                        assert(hex_digit(b / 16) as u32 >= 0x30);
                        assert(hex_digit(b % 16) as u32 >= 0x30);
                    },
                    _ => {},
                }
            }
        }
    }
}

/// The margin copied by a new line is the longest run of spaces and tabs
/// from `pos`: every rune in it is blank, and the rune after it (before
/// `limit`) is not.
pub proof fn law_margin_is_longest_blank_run(s: Seq<char>, pos: int, limit: int)
    requires
        0 <= pos <= limit <= s.len(),
    ensures
        pos <= skip_blanks(s, pos, limit) <= limit,
        forall|i: int| pos <= i < skip_blanks(s, pos, limit) ==> s[i] == ' ' || s[i] == '\t',
        skip_blanks(s, pos, limit) < limit ==> s[skip_blanks(s, pos, limit)] != ' ' && s[skip_blanks(s, pos, limit)] != '\t',
    decreases limit - pos,
{
    if pos < limit && (s[pos] == ' ' || s[pos] == '\t') {
        law_margin_is_longest_blank_run(s, pos + 1, limit);
    }
}

proof fn lemma_run_start_bound(s: Seq<char>, seps: Option<Seq<char>>, pos: int, sep: bool)
    requires
        0 <= pos <= s.len(),
    ensures
        0 <= run_start(s, seps, pos, sep) <= pos,
    decreases pos,
{
    if pos > 0 {
        lemma_run_start_bound(s, seps, pos - 1, sep);
    }
}

proof fn lemma_run_end_bound(s: Seq<char>, seps: Option<Seq<char>>, pos: int, sep: bool)
    requires
        0 <= pos <= s.len(),
    ensures
        pos <= run_end(s, seps, pos, sep) <= s.len(),
    decreases s.len() - pos,
{
    if pos < s.len() {
        lemma_run_end_bound(s, seps, pos + 1, sep);
    }
}

/// The word boundaries stay within the text: the start of the previous
/// word is at most the cursor's distance from the start, and the end of the
/// current word at most its distance from the end.
pub proof fn law_word_boundaries_within_text(s: Seq<char>, c: int, include_space: bool, seps: Option<Seq<char>>)
    requires
        0 <= c <= s.len(),
    ensures
        0 <= boundary_before(s, c, include_space, seps) <= c,
        0 <= boundary_after(s, c, include_space, seps) <= s.len() - c,
{
    lemma_run_start_bound(s, seps, c, true);
    lemma_run_start_bound(s, seps, c, false);
    lemma_run_start_bound(s, seps, run_start(s, seps, c, false), true);
    lemma_run_start_bound(s, seps, run_start(s, seps, c, true), false);
    lemma_run_end_bound(s, seps, c, true);
    lemma_run_end_bound(s, seps, c, false);
    lemma_run_end_bound(s, seps, run_end(s, seps, c, false), true);
    lemma_run_end_bound(s, seps, run_end(s, seps, c, true), false);
}

/// The lines of a text, as `Document::lines` gives them: from each line
/// start to the end of that line.
pub open spec fn doc_lines(s: Seq<char>) -> Seq<Seq<char>> {
    Seq::new(line_starts(s).len(), |k: int| s.subrange(line_starts(s)[k], row_end(s, k)))
}

/// Lines joined with a newline between each two.
pub open spec fn join_lines(ls: Seq<Seq<char>>) -> Seq<char>
    decreases ls.len(),
{
    if ls.len() == 0 {
        Seq::empty()
    } else if ls.len() == 1 {
        ls[0]
    } else {
        join_lines(ls.drop_last()) + seq!['\n'] + ls.last()
    }
}

/// Joining a document's lines with newlines gives its text back.
pub proof fn law_lines_join_to_text(s: Seq<char>)
    ensures
        join_lines(doc_lines(s)) == s,
    decreases s.len(),
{
    lemma_line_starts(s);
    if s.len() == 0 {
        assert(doc_lines(s)[0] =~= s);
    } else {
        let t = s.drop_last();
        law_lines_join_to_text(t);
        lemma_line_starts(t);
        let n: int = line_starts(t).len() as int;
        assert forall|k: int| 0 <= k < n - 1 implies #[trigger] doc_lines(s)[k] == doc_lines(t)[k] by {
            assert(line_starts(s)[k] == line_starts(t)[k]);
            assert(line_starts(s)[k + 1] == line_starts(t)[k + 1]);
            assert(doc_lines(s)[k] =~= doc_lines(t)[k]);
        }
        assert(doc_lines(s).take(n - 1) =~= doc_lines(t).take(n - 1));
        if s.last() == '\n' {
            assert(line_starts(s) == line_starts(t).push(s.len() as int));
            assert(doc_lines(s)[n - 1] =~= doc_lines(t)[n - 1]);
            assert(doc_lines(s)[n] =~= Seq::<char>::empty());
            assert(doc_lines(s).drop_last() =~= doc_lines(t));
            assert(s =~= t + seq!['\n'] + Seq::<char>::empty());
        } else {
            assert(line_starts(s) == line_starts(t));
            assert(doc_lines(s)[n - 1] =~= doc_lines(t)[n - 1].push(s.last()));
            if n == 1 {
                assert(doc_lines(t)[0] =~= t);
                assert(s =~= t.push(s.last()));
            } else {
                assert(doc_lines(s).drop_last() =~= doc_lines(t).drop_last());
                assert(s =~= t.push(s.last()));
                assert(join_lines(doc_lines(t)) == join_lines(doc_lines(t).drop_last()) + seq!['\n'] + doc_lines(t).last());
                assert(join_lines(doc_lines(s)) =~= join_lines(doc_lines(t)).push(s.last()));
            }
        }
    }
}

/// Moving the cursor down never moves it back: the target lies between
/// the cursor and the end of the text, and strictly after the cursor when
/// there is a line below to move to.
pub proof fn law_down_target_after_cursor(s: Seq<char>, c: int, count: int, preferred: Option<usize>)
    requires
        0 <= c <= s.len(),
        0 <= count,
    ensures
        c <= down_target(s, c, count, preferred) <= s.len(),
        count > 0 && row_of(s, c) < line_count_spec(s) - 1 ==> c < down_target(s, c, count, preferred),
{
    lemma_row_col_to_index_bound(s, c, count, preferred);
    if count > 0 && row_of(s, c) < line_count_spec(s) - 1 {
        let t = s.take(c);
        lemma_line_starts(t);
        lemma_line_starts(s);
        lemma_line_starts_extend(s, c, s.len() as int);
        assert(s.take(s.len() as int) =~= s);
        crate::document::lemma_line_begin_bound(s, c);
        let row = row_of(s, c);
        let target_row = min_int(row + count, line_count_spec(s) - 1);
        assert(line_starts(t).len() == row + 1);
        assert(row + 1 <= target_row < line_starts(s).len());
        assert(line_starts(s)[target_row] >= c + 1);
        if target_row + 1 < line_starts(s).len() {
            assert(line_starts(s)[target_row] < line_starts(s)[target_row + 1]);
        }
        let target_col = match preferred {
            Some(p) => p as int,
            None => col_of(s, c),
        };
        assert(target_col >= 0);
        assert(row_col_to_index(s, target_row, target_col) >= line_starts(s)[target_row]);
    }
}

proof fn lemma_row_col_index(s: Seq<char>, r: int, col: int)
    requires
        0 <= r < line_starts(s).len(),
        0 <= col,
    ensures
        line_starts(s)[r] <= row_end(s, r) <= s.len(),
        row_col_to_index(s, r, col) == line_starts(s)[r] + min_int(col, row_end(s, r) - line_starts(s)[r]),
        row_of(s, row_col_to_index(s, r, col)) == r,
        line_begin(s, row_col_to_index(s, r, col)) == line_starts(s)[r],
{
    lemma_line_starts(s);
    let st = line_starts(s);
    let re = row_end(s, r);
    if r + 1 < st.len() {
        assert(st[r] < st[r + 1]);
    }
    let i = row_col_to_index(s, r, col);
    let t = s.take(i);
    assert(s.take(s.len() as int) =~= s);
    lemma_line_starts_extend(s, i, s.len() as int);
    lemma_line_starts(t);
    let lt = line_starts(t);
    if lt.len() < r + 1 {
        assert(st[r] >= i + 1);
    }
    if lt.len() > r + 1 {
        assert(lt[r + 1] == st[r + 1]);
        assert(lt[r + 1] <= t.len());
    }
    assert(lt.len() == r + 1);
    lemma_last_line_start(t);
    lemma_line_begin_prefix(s, i, i);
    assert(lt[r] == st[r]);
}

proof fn lemma_line_end_of_row(s: Seq<char>, r: int, i: int)
    requires
        0 <= r < line_starts(s).len(),
        line_starts(s)[r] <= i <= row_end(s, r),
    ensures
        line_end(s, i) == row_end(s, r),
    decreases row_end(s, r) - i,
{
    lemma_line_starts(s);
    let st = line_starts(s);
    let re = row_end(s, r);
    lemma_row_col_index(s, r, 0);
    if i == re {
        if re < s.len() {
            assert(r + 1 < st.len());
            assert(s[st[r + 1] - 1] == '\n');
        }
    } else {
        lemma_row_col_index(s, r, i - st[r]);
        lemma_row_col_index(s, r, i + 1 - st[r]);
        if s[i] == '\n' {
            assert(s.take(i + 1).drop_last() =~= s.take(i));
            assert(s.take(i + 1).last() == s[i]);
            assert(row_of(s, i + 1) == row_of(s, i) + 1);
        }
        lemma_line_end_of_row(s, r, i + 1);
    }
}

/// Moving the cursor up or down `count` lines lands on the line `count`
/// away (the first or last line when there are fewer), at the preferred
/// column (the cursor's own column when none is given), or at the end of
/// that line when it is shorter. Where there is no line to move to, the
/// cursor stays.
pub proof fn law_vertical_moves_reach_row_and_column(s: Seq<char>, c: int, count: int, preferred: Option<usize>)
    requires
        0 <= c <= s.len(),
        0 < count,
    ensures
        ({
            let row = row_of(s, c);
            let last = line_count_spec(s) - 1;
            let col = match preferred {
                Some(p) => p as int,
                None => col_of(s, c),
            };
            let up = up_target(s, c, count, preferred);
            let down = down_target(s, c, count, preferred);
            &&& row == 0 ==> up == c
            &&& row > 0 ==> row_of(s, up) == (if row - count > 0 { row - count } else { 0 })
            &&& row > 0 ==> col_of(s, up) == min_int(col, line_end(s, up) - line_begin(s, up))
            &&& row >= last ==> down == c
            &&& row < last ==> row_of(s, down) == (if row + count < last { row + count } else { last })
            &&& row < last ==> col_of(s, down) == min_int(col, line_end(s, down) - line_begin(s, down))
        }),
{
    lemma_line_starts(s);
    let t = s.take(c);
    assert(s.take(s.len() as int) =~= s);
    lemma_line_starts_extend(s, c, s.len() as int);
    lemma_line_starts(t);
    crate::document::lemma_line_begin_bound(s, c);
    let row = row_of(s, c);
    let last = line_count_spec(s) - 1;
    let col = match preferred {
        Some(p) => p as int,
        None => col_of(s, c),
    };
    assert(row <= last);
    assert(col >= 0);
    if row > 0 {
        let tr = if row - count > 0 { row - count } else { 0 };
        lemma_row_col_index(s, tr, col);
        let up = up_target(s, c, count, preferred);
        lemma_line_end_of_row(s, tr, up);
    }
    if row < last {
        let tr = if row + count < last { row + count } else { last };
        lemma_row_col_index(s, tr, col);
        let down = down_target(s, c, count, preferred);
        lemma_line_end_of_row(s, tr, down);
    }
}

/// Lines put back together, without separators.
pub open spec fn concat_lines(ls: Seq<Seq<char>>) -> Seq<char>
    decreases ls.len(),
{
    if ls.len() == 0 {
        Seq::empty()
    } else {
        concat_lines(ls.drop_last()) + ls.last()
    }
}

proof fn lemma_wrap_state_keeps_text(s: Seq<char>, limit: nat)
    ensures
        concat_lines(wrap_state(s, limit).lines) + wrap_state(s, limit).current == s,
        forall|k: int| 0 <= k < wrap_state(s, limit).lines.len() ==> (#[trigger] wrap_state(s, limit).lines[k]).len() > 0,
    decreases s.len(),
{
    if s.len() > 0 {
        let t = s.drop_last();
        lemma_wrap_state_keeps_text(t, limit);
        let st = wrap_state(t, limit);
        let c = s.last();
        if st.width + char_width_spec(c) > limit && st.current.len() > 0 {
            assert(st.lines.push(st.current).drop_last() =~= st.lines);
            assert(concat_lines(st.lines.push(st.current)) == concat_lines(st.lines) + st.current);
            assert(concat_lines(st.lines.push(st.current)) + seq![c] =~= s);
        } else {
            assert(s =~= t.push(c));
            assert((concat_lines(st.lines) + st.current).push(c) =~= concat_lines(st.lines) + st.current.push(c));
        }
    }
}

/// Wrapping loses and adds nothing: the wrapped lines put back together
/// are the text, and none of them is empty.
pub proof fn law_wrapped_lines_rebuild_text(s: Seq<char>, limit: nat)
    ensures
        concat_lines(wrap_lines(s, limit)) == s,
        forall|k: int| 0 <= k < wrap_lines(s, limit).len() ==> (#[trigger] wrap_lines(s, limit)[k]).len() > 0,
{
    lemma_wrap_state_keeps_text(s, limit);
    let st = wrap_state(s, limit);
    if st.current.len() > 0 {
        assert(st.lines.push(st.current).drop_last() =~= st.lines);
    } else {
        assert(concat_lines(st.lines) + st.current =~= concat_lines(st.lines));
    }
}

/// Each line starts one past the end of the line before it: the line
/// starts are the running sums of the line lengths plus their newlines.
pub proof fn law_line_starts_are_prefix_sums(s: Seq<char>, k: int)
    requires
        0 <= k,
        k + 1 < line_starts(s).len(),
    ensures
        line_starts(s)[k + 1] == line_starts(s)[k] + doc_lines(s)[k].len() + 1,
        s[line_starts(s)[k + 1] - 1] == '\n',
{
    lemma_line_starts(s);
    assert(line_starts(s)[k] < line_starts(s)[k + 1]);
}

/// Feeding input in two pieces gives the same events and the same parser
/// state as feeding it at once: a sequence split between two reads is
/// recognised all the same.
pub proof fn law_feed_in_pieces(p: KeyParserView, a: Seq<u8>, b: Seq<u8>)
    ensures
        ({
            let (q, e1) = feed_spec(p, a);
            let (r, e2) = feed_spec(q, b);
            (r, e1 + e2)
        }) == feed_spec(p, a + b),
    decreases b.len(),
{
    if b.len() == 0 {
        assert(a + b =~= a);
        let (q, e1) = feed_spec(p, a);
        assert(e1 + Seq::<EventModel>::empty() =~= e1);
    } else {
        law_feed_in_pieces(p, a, b.drop_last());
        assert((a + b).drop_last() =~= a + b.drop_last());
        assert((a + b).last() == b.last());
        let (q, e1) = feed_spec(p, a);
        let (r0, e2) = feed_spec(q, b.drop_last());
        let (r, e3) = feed_step(r0, b.last());
        assert(e1 + (e2 + e3) =~= (e1 + e2) + e3);
    }
}

/// Outside escaping, the filter gives at most one character for each
/// character it reads.
pub proof fn law_filter_output_no_longer(policy: SanitizationPolicy, state: FilterState, chars: Seq<char>)
    requires
        policy != SanitizationPolicy::EscapeAll,
    ensures
        filter_run(policy, state, chars).1.len() <= chars.len(),
    decreases chars.len(),
{
    if chars.len() > 0 {
        law_filter_output_no_longer(policy, state, chars.drop_last());
    }
}

/// A maximal run ending at `pos`: every rune in `[run_start, pos)` has
/// separator status `sep`, and the rune before it (if any) does not.
pub proof fn lemma_run_start_maximal(s: Seq<char>, seps: Option<Seq<char>>, pos: int, sep: bool)
    requires
        0 <= pos <= s.len(),
    ensures
        0 <= run_start(s, seps, pos, sep) <= pos,
        forall|i: int| run_start(s, seps, pos, sep) <= i < pos ==> is_sep(#[trigger] s[i], seps) == sep,
        run_start(s, seps, pos, sep) > 0 ==> is_sep(s[run_start(s, seps, pos, sep) - 1], seps) != sep,
    decreases pos,
{
    if pos > 0 && is_sep(s[pos - 1], seps) == sep {
        lemma_run_start_maximal(s, seps, pos - 1, sep);
    }
}

/// A maximal run starting at `pos`: every rune in `[pos, run_end)` has
/// separator status `sep`, and the rune at `run_end` (if any) does not.
pub proof fn lemma_run_end_maximal(s: Seq<char>, seps: Option<Seq<char>>, pos: int, sep: bool)
    requires
        0 <= pos <= s.len(),
    ensures
        pos <= run_end(s, seps, pos, sep) <= s.len(),
        forall|i: int| pos <= i < run_end(s, seps, pos, sep) ==> is_sep(#[trigger] s[i], seps) == sep,
        run_end(s, seps, pos, sep) < s.len() ==> is_sep(s[run_end(s, seps, pos, sep)], seps) != sep,
    decreases s.len() - pos,
{
    if pos < s.len() && is_sep(s[pos], seps) == sep {
        lemma_run_end_maximal(s, seps, pos + 1, sep);
    }
}

/// The start of the previous word. Without spaces: nothing when only
/// separators precede the cursor; otherwise, going back from the cursor,
/// the separators right before it, then a non-empty word, which begins at
/// the start of the text or after a separator. With spaces: the word the
/// cursor is in (or right after), then the separators before it, back to
/// the start or to a word character.
pub proof fn law_previous_word_start(s: Seq<char>, c: int, seps: Option<Seq<char>>)
    requires
        0 <= c <= s.len(),
    ensures
        ({
            let r = boundary_before(s, c, false, seps);
            let m = run_start(s, seps, c, true);
            &&& 0 <= r <= c
            &&& m == 0 ==> r == 0
            &&& m > 0 ==> {
                &&& c - r < m
                &&& forall|i: int| c - r <= i < m ==> !is_sep(#[trigger] s[i], seps)
                &&& forall|i: int| m <= i < c ==> is_sep(#[trigger] s[i], seps)
                &&& (c - r == 0 || is_sep(s[c - r - 1], seps))
            }
        }),
        c > 0 ==> ({
            let r = boundary_before(s, c, true, seps);
            let w = run_start(s, seps, c, false);
            &&& 0 <= c - r <= w <= c
            &&& forall|i: int| w <= i < c ==> !is_sep(#[trigger] s[i], seps)
            &&& forall|i: int| c - r <= i < w ==> is_sep(#[trigger] s[i], seps)
            &&& (c - r == 0 || !is_sep(s[c - r - 1], seps))
        }),
{
    lemma_run_start_maximal(s, seps, c, true);
    lemma_run_start_maximal(s, seps, c, false);
    let m = run_start(s, seps, c, true);
    let w = run_start(s, seps, c, false);
    lemma_run_start_maximal(s, seps, m, false);
    lemma_run_start_maximal(s, seps, w, true);
}

/// The end of the current word. Without spaces: nothing when only
/// separators follow the cursor; otherwise the separators right after it,
/// then a non-empty word, which ends at the end of the text or before a
/// separator. With spaces: the word the cursor is in, then the separators
/// after it, up to the end or to a word character.
pub proof fn law_current_word_end(s: Seq<char>, c: int, seps: Option<Seq<char>>)
    requires
        0 <= c <= s.len(),
    ensures
        ({
            let r = boundary_after(s, c, false, seps);
            let m = run_end(s, seps, c, true);
            &&& 0 <= r <= s.len() - c
            &&& m == s.len() ==> r == 0
            &&& m < s.len() ==> {
                &&& m < c + r
                &&& forall|i: int| c <= i < m ==> is_sep(#[trigger] s[i], seps)
                &&& forall|i: int| m <= i < c + r ==> !is_sep(#[trigger] s[i], seps)
                &&& (c + r == s.len() || is_sep(s[c + r], seps))
            }
        }),
        c < s.len() ==> ({
            let r = boundary_after(s, c, true, seps);
            let w = run_end(s, seps, c, false);
            &&& c <= w <= c + r <= s.len()
            &&& forall|i: int| c <= i < w ==> !is_sep(#[trigger] s[i], seps)
            &&& forall|i: int| w <= i < c + r ==> is_sep(#[trigger] s[i], seps)
            &&& (c + r == s.len() || !is_sep(s[c + r], seps))
        }),
{
    lemma_run_end_maximal(s, seps, c, true);
    lemma_run_end_maximal(s, seps, c, false);
    let m = run_end(s, seps, c, true);
    let w = run_end(s, seps, c, false);
    lemma_run_end_maximal(s, seps, m, false);
    lemma_run_end_maximal(s, seps, w, true);
}

/// Where a drawing leaves the terminal cursor: after the prompt and the
/// text before the cursor, counted in display columns and wrapped at the
/// window's width: column `k % w`, `k / w` rows down (the row capped at the
/// largest `u16`), where `k` is the prompt's width plus the width of the
/// runes before the cursor. In particular, when that fits on the row, the
/// cursor stays on the row at column `k`.
pub proof fn law_render_places_cursor_after_prompt_and_text(v: RendererView, text: Seq<char>, cursor: usize)
    requires
        v.window.0 > 0,
        width_spec(v.prompt) + width_spec(text.take(min_int(cursor as int, text.len() as int))) <= usize::MAX,
    ensures
        ({
            let k: int = (width_spec(v.prompt) + width_spec(text.take(min_int(cursor as int, text.len() as int)))) as int;
            let w = v.window.0 as int;
            let row = v.screen_cursor.0 as int;
            let pos = drawn(v, text, cursor).screen_cursor;
            &&& pos.1 == k % w
            &&& pos.0 == if row + k / w > u16::MAX { u16::MAX as int } else { row + k / w }
            &&& k < w ==> pos == (v.screen_cursor.0, k as u16)
        }),
{
    let before = text.take(min_int(cursor as int, text.len() as int));
    if cursor > 0 {
        assert(text.subrange(0, clamped_range(text.len(), 0, cursor as int).1) =~= before);
    } else {
        assert(before =~= Seq::<char>::empty());
    }
    let k: int = (width_spec(v.prompt) + width_spec(before)) as int;
    let w = v.window.0 as int;
    assert(capped_width_spec(v.prompt) == width_spec(v.prompt));
    assert(capped_width_spec(before) == width_spec(before));
    assert(cursor_width_spec(text, cursor) == width_spec(before));
    if k < w {
        assert(k / w == 0 && k % w == k) by (nonlinear_arith)
            requires 0 <= k < w;
    }
}

/// Control characters that a policy keeps pass the filter unchanged, like
/// any other text: outside escaping, tab, line feed and carriage return are
/// always kept (bell and backspace too where formatting is allowed), each
/// such character is emitted as it is, and text made only of ordinary
/// characters and kept controls comes out as it went in.
pub proof fn law_filter_keeps_kept_controls(policy: SanitizationPolicy, chars: Seq<char>)
    requires
        policy != SanitizationPolicy::EscapeAll,
        forall|i: int| 0 <= i < chars.len() ==> !is_control_code(#[trigger] chars[i]) || kept_control(policy, chars[i]),
    ensures
        kept_control(policy, '\t') && kept_control(policy, '\n') && kept_control(policy, '\r'),
        forall|c: char| #[trigger] kept_control(policy, c)
            ==> filter_step(policy, FilterState::Normal, c) == (FilterState::Normal, FilterAction::Emit(c)),
        filter_run(policy, FilterState::Normal, chars) == (FilterState::Normal, chars),
    decreases chars.len(),
{
    assert(('\t' as u32) == 0x09 && ('\n' as u32) == 0x0a && ('\r' as u32) == 0x0d);
    if chars.len() > 0 {
        let init = chars.drop_last();
        assert forall|i: int| 0 <= i < init.len() implies !is_control_code(#[trigger] init[i]) || kept_control(policy, init[i]) by {
            assert(init[i] == chars[i]);
        }
        law_filter_keeps_kept_controls(policy, init);
        let c = chars[chars.len() - 1];
        assert(!is_control_code(c) || kept_control(policy, c));
        assert(init + seq![chars.last()] =~= chars);
    }
}

/// The lowercase hexadecimal digit of a value below sixteen: `0`-`9`, then
/// `a`-`f`.
pub open spec fn lower_hex(d: int) -> char {
    if d < 10 { (('0' as int) + d) as char } else { (('a' as int) + d - 10) as char }
}

/// Under escaping, a control character outside a sequence (ESC included)
/// comes out as a backslash, `x` and its code as two lowercase hexadecimal
/// digits, and the filter stays outside any sequence unless it saw ESC.
pub proof fn law_escape_shows_code_in_hex(c: char)
    requires
        is_control_code(c),
    ensures
        filter_run(SanitizationPolicy::EscapeAll, FilterState::Normal, seq![c]).1
            == seq!['\\', 'x', lower_hex((c as u32 as int) / 16), lower_hex((c as u32 as int) % 16)],
        c != '\x1b' ==> filter_run(SanitizationPolicy::EscapeAll, FilterState::Normal, seq![c]).0 == FilterState::Normal,
{
    let one = seq![c];
    let u = c as u32;
    assert(one.drop_last() =~= Seq::<char>::empty());
    assert(one.last() == c);
    assert(u <= 0x7f);
    let b = u as u8;
    assert(b / 16 == u / 16 && b % 16 == u % 16);
    assert(hex_digit(b / 16) == lower_hex((u / 16) as int));
    assert(hex_digit(b % 16) == lower_hex((u % 16) as int));
    assert(('\x1b' as u32) == 0x1b);
    let (st, act) = filter_step(SanitizationPolicy::EscapeAll, FilterState::Normal, c);
    assert(act == FilterAction::EmitEscaped(b));
    assert(c != '\x1b' ==> st == FilterState::Normal);
    assert(filter_run(SanitizationPolicy::EscapeAll, FilterState::Normal, one.drop_last()) == (FilterState::Normal, Seq::<char>::empty()));
    assert(filter_run(SanitizationPolicy::EscapeAll, FilterState::Normal, one) == (st, Seq::<char>::empty() + action_text(act)));
    assert(Seq::<char>::empty() + action_text(act) =~= seq!['\\', 'x', lower_hex((u / 16) as int), lower_hex((u % 16) as int)]);
}

/// What each editing action does to a line `s` with the cursor at `c`
/// (within the line): moving left goes back `n` runes but not before the
/// start of the cursor's line; moving right goes forward `n` runes but not
/// past its end; deleting backward removes the `min(n, c)` runes before
/// the cursor, and forward the `min(n, len - c)` runes after it; the line
/// start and end keys go to `0` and `len`; clearing leaves an empty line
/// with the cursor at 0; executing hands back the line and exiting changes
/// nothing. Other lines are never touched.
pub proof fn law_key_actions(b: BufferView, n: usize)
    requires
        b.index < b.lines.len(),
        b.cursor <= b.lines[b.index as int].len(),
    ensures
        ({
            let s = b.lines[b.index as int];
            let c = b.cursor as int;
            let len = s.len() as int;
            let lb = line_begin(s, c);
            let le = line_end(s, c);
            let left = action_effect(KeyAction::MoveCursorLeft(n), b);
            let right = action_effect(KeyAction::MoveCursorRight(n), b);
            let back = action_effect(KeyAction::DeleteBackward(n), b);
            let fwd = action_effect(KeyAction::DeleteForward(n), b);
            let kb = if n < c { n as int } else { c };
            let kf = if n < len - c { n as int } else { len - c };
            &&& left.0 is Continue && left.1.lines == b.lines
            &&& left.1.cursor == if c - n > lb { c - n } else { lb }
            &&& right.0 is Continue && right.1.lines == b.lines
            &&& right.1.cursor == if c + n < le { c + n } else { le }
            &&& back.0 is Continue
            &&& back.1.lines == b.lines.update(b.index as int, s.take(c - kb) + s.skip(c))
            &&& back.1.cursor == c - kb
            &&& fwd.0 is Continue
            &&& fwd.1.lines == b.lines.update(b.index as int, s.take(c) + s.skip(c + kf))
            &&& fwd.1.cursor == c
            &&& action_effect(KeyAction::MoveToBeginning, b).1.cursor == 0
            &&& action_effect(KeyAction::MoveToEnd, b).1.cursor == len
            &&& action_effect(KeyAction::ClearLine, b).0 is ClearLine
            &&& action_effect(KeyAction::ClearLine, b).1.lines == b.lines.update(b.index as int, Seq::<char>::empty())
            &&& action_effect(KeyAction::ClearLine, b).1.cursor == 0
            &&& action_effect(KeyAction::Execute, b) == (KeyOutcome::Execute(s), b)
            &&& action_effect(KeyAction::Exit, b) == (KeyOutcome::Exit, b)
        }),
{
    let s = b.lines[b.index as int];
    let c = b.cursor as int;
    crate::document::lemma_line_begin_bound(s, c);
    crate::document::lemma_line_end_bound(s, c);
    assert(b.lines.update(b.index as int, s) =~= b.lines);
    let kb = if n < c { n as int } else { c };
    let kf = if n < s.len() - c { n as int } else { s.len() - c };
    if kb == 0 {
        assert(s.take(c - kb) + s.skip(c) =~= s);
    } else {
        assert(s.subrange(0, c - kb) + s.subrange(c, s.len() as int) =~= s.take(c - kb) + s.skip(c));
    }
    if kf == 0 {
        assert(s.take(c) + s.skip(c + kf) =~= s);
    } else {
        assert(s.subrange(0, c) + s.subrange(c + kf, s.len() as int) =~= s.take(c) + s.skip(c + kf));
    }
}

proof fn lemma_concat_starts_with_first(ls: Seq<Seq<char>>)
    requires
        ls.len() > 0,
    ensures
        ls[0].is_prefix_of(concat_lines(ls)),
    decreases ls.len(),
{
    let whole = concat_lines(ls);
    let n = ls[0].len() as int;
    if ls.len() == 1 {
        assert(ls.drop_last() =~= Seq::<Seq<char>>::empty());
        assert(whole =~= ls[0]);
        assert(whole.subrange(0, n) =~= ls[0]);
    } else {
        let init = ls.drop_last();
        lemma_concat_starts_with_first(init);
        assert(init[0] == ls[0]);
        let c = concat_lines(init);
        assert(whole == c + ls.last());
        assert(n <= c.len());
        assert(whole.subrange(0, n) =~= c.subrange(0, n));
    }
}

/// What the input line shows after the prompt: the whole text when the
/// prompt and the text fit in the window (or the prompt alone fills it),
/// and otherwise the start of the text; never anything that is not a
/// prefix of the text.
pub proof fn law_shown_text_is_prefix(prompt_width: nat, window_width: nat, text: Seq<char>)
    ensures
        wrap_spec(prompt_width, window_width, text).0.is_prefix_of(text),
        prompt_width + width_spec(text) <= window_width ==> wrap_spec(prompt_width, window_width, text).0 == text,
        window_width <= prompt_width ==> wrap_spec(prompt_width, window_width, text).0 == text,
{
    assert(text.is_prefix_of(text)) by {
        assert(text.subrange(0, text.len() as int) =~= text);
    }
    if window_width > prompt_width && capped_width_spec(text) > window_width - prompt_width {
        let limit = (window_width - prompt_width) as nat;
        law_wrapped_lines_rebuild_text(text, limit);
        let lines = wrap_lines(text, limit);
        if lines.len() > 0 {
            lemma_concat_starts_with_first(lines);
        } else {
            assert(Seq::<char>::empty().subrange(0, 0) =~= text.subrange(0, 0));
        }
    }
}

/// A CSI sequence (ESC, `[`, parameter and intermediate characters, a
/// final character) leaves no trace in the output under the removing
/// policies, and under escaping only its ESC shows, as `\x1b`; the filter
/// is back outside any sequence afterwards.
pub proof fn law_csi_sequence_removed(policy: SanitizationPolicy, params: Seq<char>, fin: char)
    requires
        forall|i: int| 0 <= i < params.len() ==> 0x20 <= #[trigger] (params[i] as u32) <= 0x3f,
        0x40 <= fin as u32 <= 0x7e,
    ensures
        filter_run(policy, FilterState::Normal, seq!['\x1b', '['] + params + seq![fin]) == (
            FilterState::Normal,
            if policy == SanitizationPolicy::EscapeAll { seq!['\\', 'x', '1', 'b'] } else { Seq::<char>::empty() },
        ),
{
    let esc_out = if policy == SanitizationPolicy::EscapeAll { seq!['\\', 'x', '1', 'b'] } else { Seq::<char>::empty() };
    let head = seq!['\x1b', '['];
    assert(head.drop_last() =~= seq!['\x1b']);
    lemma_escape_start(policy);
    assert(('[' as u32) == 0x5b);
    assert(filter_run(policy, FilterState::Normal, head) == (FilterState::Csi, esc_out)) by {
        assert(esc_out + Seq::<char>::empty() =~= esc_out);
    }
    lemma_csi_params(policy, esc_out, head, params);
    let body = head + params;
    assert((body + seq![fin]).drop_last() =~= body);
    assert(esc_out + Seq::<char>::empty() =~= esc_out);
}

proof fn lemma_csi_params(policy: SanitizationPolicy, out: Seq<char>, head: Seq<char>, params: Seq<char>)
    requires
        filter_run(policy, FilterState::Normal, head) == (FilterState::Csi, out),
        forall|i: int| 0 <= i < params.len() ==> 0x20 <= #[trigger] (params[i] as u32) <= 0x3f,
    ensures
        filter_run(policy, FilterState::Normal, head + params) == (FilterState::Csi, out),
    decreases params.len(),
{
    if params.len() == 0 {
        assert(head + params =~= head);
    } else {
        let init = params.drop_last();
        assert forall|i: int| 0 <= i < init.len() implies 0x20 <= #[trigger] (init[i] as u32) <= 0x3f by {
            assert(init[i] == params[i]);
        }
        lemma_csi_params(policy, out, head, init);
        assert((head + params).drop_last() =~= head + init);
        assert((head + params).last() == params[params.len() - 1]);
        assert(out + Seq::<char>::empty() =~= out);
    }
}

/// An OSC string (ESC, `]`, any text without ESC or BEL, then BEL) leaves
/// no trace in the output under the removing policies, and under escaping
/// only its ESC shows, as `\x1b`; the filter is back outside any sequence
/// afterwards.
pub proof fn law_osc_string_removed(policy: SanitizationPolicy, body: Seq<char>)
    requires
        forall|i: int| 0 <= i < body.len() ==> (#[trigger] body[i] as u32) != 0x1b && (body[i] as u32) != 0x07,
    ensures
        filter_run(policy, FilterState::Normal, seq!['\x1b', ']'] + body + seq!['\x07']) == (
            FilterState::Normal,
            if policy == SanitizationPolicy::EscapeAll { seq!['\\', 'x', '1', 'b'] } else { Seq::<char>::empty() },
        ),
{
    let esc_out = if policy == SanitizationPolicy::EscapeAll { seq!['\\', 'x', '1', 'b'] } else { Seq::<char>::empty() };
    let head = seq!['\x1b', ']'];
    assert(head.drop_last() =~= seq!['\x1b']);
    lemma_escape_start(policy);
    assert((']' as u32) == 0x5d);
    assert(filter_run(policy, FilterState::Normal, head) == (FilterState::OscString, esc_out)) by {
        assert(head.last() == ']');
        assert(esc_out + Seq::<char>::empty() =~= esc_out);
    }
    lemma_osc_body(policy, esc_out, head, body);
    let whole = head + body;
    assert((whole + seq!['\x07']).drop_last() =~= whole);
    assert(('\x07' as u32) == 0x07);
    assert(esc_out + Seq::<char>::empty() =~= esc_out);
}

proof fn lemma_escape_start(policy: SanitizationPolicy)
    ensures
        filter_run(policy, FilterState::Normal, seq!['\x1b']) == (
            FilterState::Escape,
            if policy == SanitizationPolicy::EscapeAll { seq!['\\', 'x', '1', 'b'] } else { Seq::<char>::empty() },
        ),
{
    let esc_out = if policy == SanitizationPolicy::EscapeAll { seq!['\\', 'x', '1', 'b'] } else { Seq::<char>::empty() };
    let one = seq!['\x1b'];
    assert(one.drop_last() =~= Seq::<char>::empty());
    assert(one.last() == '\x1b');
    assert(('\x1b' as u32) == 0x1b);
    assert(hex_digit(1) == '1' && hex_digit(11) == 'b');
    let (st, act) = filter_step(policy, FilterState::Normal, '\x1b');
    assert(action_text(act) =~= esc_out) by {
        if policy == SanitizationPolicy::EscapeAll {
            assert(act == FilterAction::EmitEscaped(0x1b));
            assert(0x1bu8 / 16 == 1 && 0x1bu8 % 16 == 11);
        }
    }
    assert(st == FilterState::Escape);
    assert(filter_run(policy, FilterState::Normal, one.drop_last()) == (FilterState::Normal, Seq::<char>::empty()));
    assert(filter_run(policy, FilterState::Normal, one) == (st, Seq::<char>::empty() + action_text(act)));
    assert(Seq::<char>::empty() + esc_out =~= esc_out);
}

proof fn lemma_osc_body(policy: SanitizationPolicy, out: Seq<char>, head: Seq<char>, body: Seq<char>)
    requires
        filter_run(policy, FilterState::Normal, head) == (FilterState::OscString, out),
        forall|i: int| 0 <= i < body.len() ==> (#[trigger] body[i] as u32) != 0x1b && (body[i] as u32) != 0x07,
    ensures
        filter_run(policy, FilterState::Normal, head + body) == (FilterState::OscString, out),
    decreases body.len(),
{
    if body.len() == 0 {
        assert(head + body =~= head);
    } else {
        let init = body.drop_last();
        assert forall|i: int| 0 <= i < init.len() implies (#[trigger] init[i] as u32) != 0x1b && (init[i] as u32) != 0x07 by {
            assert(init[i] == body[i]);
        }
        lemma_osc_body(policy, out, head, init);
        assert((head + body).drop_last() =~= head + init);
        let c = body[body.len() - 1];
        assert((head + body).last() == c);
        assert((c as u32) != 0x1b && (c as u32) != 0x07);
        assert(out + Seq::<char>::empty() =~= out);
    }
}

/// A key without a binding that carries text types it: the text goes in at
/// the cursor, the cursor moves past it, and the key is remembered.
pub proof fn law_unbound_key_types_its_text(key: Key, t: Seq<char>, b: BufferView)
    requires
        b.index < b.lines.len(),
        b.cursor <= b.lines[b.index as int].len(),
        t.len() > 0,
        key != Key::CPRResponse && key != Key::Vt100MouseEvent && key != Key::WindowsMouseEvent && key != Key::Ignore,
    ensures
        ({
            let s = b.lines[b.index as int];
            let c = b.cursor as int;
            let (outcome, after) = key_effect(None, key, Some(t), b);
            &&& outcome is Continue
            &&& after.lines == b.lines.update(b.index as int, s.take(c) + t + s.skip(c))
            &&& after.cursor == c + t.len()
            &&& after.last_key == Some(key)
            &&& after.index == b.index
        }),
{
    let s = b.lines[b.index as int];
    let c = b.cursor as int;
    assert(insert_spec(s, c, t, false) =~= s.take(c) + t + s.skip(c));
}

/// Printable ASCII fed to a parser at rest comes out as one event per
/// byte: an undefined key whose raw byte is that byte and whose text is
/// that character; the parser stays at rest.
pub proof fn law_printable_bytes_are_characters(data: Seq<u8>)
    requires
        forall|i: int| 0 <= i < data.len() ==> 0x20 <= #[trigger] data[i] <= 0x7e,
    ensures
        feed_spec(parser_initial(), data).0 == parser_initial(),
        feed_spec(parser_initial(), data).1.len() == data.len(),
        forall|i: int| 0 <= i < data.len() ==> #[trigger] feed_spec(parser_initial(), data).1[i]
            == (Key::NotDefined, seq![data[i]], Some(seq![data[i] as char])),
    decreases data.len(),
{
    if data.len() > 0 {
        let init = data.drop_last();
        assert forall|i: int| 0 <= i < init.len() implies 0x20 <= #[trigger] init[i] <= 0x7e by {
            assert(init[i] == data[i]);
        }
        law_printable_bytes_are_characters(init);
        let b = data.last();
        assert(seq![b].len() == 1 && seq![b][0] == b);
        let (q, e) = feed_spec(parser_initial(), init);
        assert(parser_initial().buffer.len() == 0);
        let (q2, e2) = feed_step(q, b);
        assert(e2 =~= seq![(Key::NotDefined, seq![b], Some(seq![b as char]))]);
        let all = feed_spec(parser_initial(), data).1;
        assert forall|i: int| 0 <= i < data.len() implies #[trigger] all[i]
            == (Key::NotDefined, seq![data[i]], Some(seq![data[i] as char])) by {
            if i < init.len() {
                assert(all[i] == e[i]);
            } else {
                assert(all[i] == e2[0]);
            }
        }
    }
}

} // verus!
