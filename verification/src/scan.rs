//! The mathematical model of words and lines in a rune sequence, and the
//! scanning routines that compute it.

use vstd::prelude::*;
use crate::unicode::{is_whitespace, is_whitespace_spec};

verus! {

/// Whether `c` separates words: one of `seps` when custom separators are
/// given, whitespace otherwise.
pub open spec fn is_sep(c: char, seps: Option<Seq<char>>) -> bool {
    match seps {
        Some(s) => s.contains(c),
        None => is_whitespace_spec(c),
    }
}

/// The view of an optional rune vector.
pub open spec fn opt_seq(v: Option<Vec<char>>) -> Option<Seq<char>> {
    match v {
        Some(x) => Some(x@),
        None => None,
    }
}

/// Start of the maximal run ending at `pos` of runes whose separator status is `sep`.
pub open spec fn run_start(s: Seq<char>, seps: Option<Seq<char>>, pos: int, sep: bool) -> int
    decreases pos,
{
    if pos <= 0 {
        0
    } else if is_sep(s[pos - 1], seps) == sep {
        run_start(s, seps, pos - 1, sep)
    } else {
        pos
    }
}

/// End of the maximal run starting at `pos` of runes whose separator status is `sep`.
pub open spec fn run_end(s: Seq<char>, seps: Option<Seq<char>>, pos: int, sep: bool) -> int
    decreases s.len() - pos,
{
    if pos >= s.len() {
        s.len() as int
    } else if is_sep(s[pos], seps) == sep {
        run_end(s, seps, pos + 1, sep)
    } else {
        pos
    }
}

/// First position at or after `pos`, and not past `limit`, that does not hold whitespace.
pub open spec fn skip_whitespace(s: Seq<char>, pos: int, limit: int) -> int
    decreases limit - pos,
{
    if pos >= limit {
        pos
    } else if is_whitespace_spec(s[pos]) {
        skip_whitespace(s, pos + 1, limit)
    } else {
        pos
    }
}

/// Number of newlines in `s`.
pub open spec fn newline_count(s: Seq<char>) -> nat
    decreases s.len(),
{
    if s.len() == 0 {
        0
    } else {
        newline_count(s.drop_last()) + if s.last() == '\n' {
            1nat
        } else {
            0nat
        }
    }
}

/// Start of the line that holds position `i`: just after the last newline before `i`.
pub open spec fn line_begin(s: Seq<char>, i: int) -> int
    decreases i,
{
    if i <= 0 {
        0
    } else if s[i - 1] == '\n' {
        i
    } else {
        line_begin(s, i - 1)
    }
}

/// End of the line that holds position `i`: the next newline at or after `i`, or the end.
pub open spec fn line_end(s: Seq<char>, i: int) -> int
    decreases s.len() - i,
{
    if i >= s.len() {
        s.len() as int
    } else if s[i] == '\n' {
        i
    } else {
        line_end(s, i + 1)
    }
}

/// The start position of every line: zero, then one past each newline.
pub open spec fn line_starts(s: Seq<char>) -> Seq<int>
    decreases s.len(),
{
    if s.len() == 0 {
        seq![0int]
    } else if s.last() == '\n' {
        line_starts(s.drop_last()).push(s.len() as int)
    } else {
        line_starts(s.drop_last())
    }
}

/// Shape of `line_starts`: one entry per line, starting at zero, strictly
/// increasing, within the text, each later entry just after a newline.
pub proof fn lemma_line_starts(s: Seq<char>)
    ensures
        line_starts(s).len() == newline_count(s) + 1,
        line_starts(s)[0] == 0,
        forall|k: int| 0 <= k < line_starts(s).len() ==> 0 <= #[trigger] line_starts(s)[k] <= s.len(),
        forall|j: int, k: int|
            0 <= j < k < line_starts(s).len() ==> #[trigger] line_starts(s)[j] < #[trigger] line_starts(s)[k],
        forall|k: int| 1 <= k < line_starts(s).len() ==> s[#[trigger] line_starts(s)[k] - 1] == '\n',
    decreases s.len(),
{
    if s.len() > 0 {
        let t = s.drop_last();
        lemma_line_starts(t);
        assert forall|k: int| 1 <= k < line_starts(t).len() implies s[#[trigger] line_starts(t)[k] - 1] == '\n' by {
            assert(s[line_starts(t)[k] - 1] == t[line_starts(t)[k] - 1]);
        }
    }
}

/// Computes `line_starts` as a vector of positions.
pub fn compute_line_starts(chars: &Vec<char>) -> (v: Vec<usize>)
    ensures
        v@.len() == line_starts(chars@).len(),
        forall|k: int| 0 <= k < v@.len() ==> v@[k] as int == line_starts(chars@)[k],
{
    let mut v: Vec<usize> = Vec::new();
    v.push(0);
    let mut i: usize = 0;
    proof {
        assert(chars@.take(0).len() == 0);
    }
    while i < chars.len()
        invariant
            i <= chars@.len(),
            v@.len() == line_starts(chars@.take(i as int)).len(),
            forall|k: int| 0 <= k < v@.len() ==> v@[k] as int == line_starts(chars@.take(i as int))[k],
        decreases chars.len() - i,
    {
        let ghost t = chars@.take(i + 1);
        assert(t.drop_last() =~= chars@.take(i as int));
        assert(t.last() == chars@[i as int]);
        if chars[i] == '\n' {
            v.push(i + 1);
        }
        i = i + 1;
    }
    assert(chars@.take(i as int) =~= chars@);
    v
}

/// Whether `c` is an exec separator for `seps`.
pub fn is_sep_exec(c: char, seps: &Option<Vec<char>>) -> (b: bool)
    ensures
        b == is_sep(c, opt_seq(*seps)),
{
    match seps {
        Some(v) => {
            assert(opt_seq(*seps) == Some(v@));
            let mut i: usize = 0;
            while i < v.len()
                invariant
                    i <= v.len(),
                    opt_seq(*seps) == Some(v@),
                    forall|j: int| 0 <= j < i ==> v@[j] != c,
                decreases v.len() - i,
            {
                if v[i] == c {
                    assert(v@[i as int] == c);
                    assert(v@.contains(c));
                    return true;
                }
                i = i + 1;
            }
            false
        },
        None => is_whitespace(c),
    }
}

/// Computes `run_start`.
pub fn scan_left(chars: &Vec<char>, seps: &Option<Vec<char>>, pos: usize, sep: bool) -> (r: usize)
    requires
        pos <= chars@.len(),
    ensures
        r == run_start(chars@, opt_seq(*seps), pos as int, sep),
        r <= pos,
{
    let mut p = pos;
    while p > 0 && is_sep_exec(chars[p - 1], seps) == sep
        invariant
            p <= pos <= chars@.len(),
            run_start(chars@, opt_seq(*seps), pos as int, sep) == run_start(
                chars@,
                opt_seq(*seps),
                p as int,
                sep,
            ),
        decreases p,
    {
        p = p - 1;
    }
    p
}

/// Computes `run_end`.
pub fn scan_right(chars: &Vec<char>, seps: &Option<Vec<char>>, pos: usize, sep: bool) -> (r: usize)
    requires
        pos <= chars@.len(),
    ensures
        r == run_end(chars@, opt_seq(*seps), pos as int, sep),
        pos <= r <= chars@.len(),
{
    let mut p = pos;
    while p < chars.len() && is_sep_exec(chars[p], seps) == sep
        invariant
            pos <= p <= chars@.len(),
            run_end(chars@, opt_seq(*seps), pos as int, sep) == run_end(
                chars@,
                opt_seq(*seps),
                p as int,
                sep,
            ),
        decreases chars.len() - p,
    {
        p = p + 1;
    }
    p
}

/// Computes `line_begin`.
pub fn scan_line_begin(chars: &Vec<char>, pos: usize) -> (r: usize)
    requires
        pos <= chars@.len(),
    ensures
        r == line_begin(chars@, pos as int),
        r <= pos,
{
    let mut p = pos;
    while p > 0 && chars[p - 1] != '\n'
        invariant
            p <= pos <= chars@.len(),
            line_begin(chars@, pos as int) == line_begin(chars@, p as int),
        decreases p,
    {
        p = p - 1;
    }
    p
}

/// Computes `line_end`.
pub fn scan_line_end(chars: &Vec<char>, pos: usize) -> (r: usize)
    requires
        pos <= chars@.len(),
    ensures
        r == line_end(chars@, pos as int),
        pos <= r <= chars@.len(),
{
    let mut p = pos;
    while p < chars.len() && chars[p] != '\n'
        invariant
            pos <= p <= chars@.len(),
            line_end(chars@, pos as int) == line_end(chars@, p as int),
        decreases chars.len() - p,
    {
        p = p + 1;
    }
    p
}

/// Computes `newline_count` of the first `pos` runes.
pub fn count_newlines(chars: &Vec<char>, pos: usize) -> (r: usize)
    requires
        pos <= chars@.len(),
    ensures
        r == newline_count(chars@.take(pos as int)),
        r <= pos,
{
    let mut n: usize = 0;
    let mut i: usize = 0;
    while i < pos
        invariant
            i <= pos <= chars@.len(),
            n == newline_count(chars@.take(i as int)),
            n <= i,
        decreases pos - i,
    {
        assert(chars@.take(i + 1).drop_last() =~= chars@.take(i as int));
        if chars[i] == '\n' {
            n = n + 1;
        }
        i = i + 1;
    }
    n
}

} // verus!
