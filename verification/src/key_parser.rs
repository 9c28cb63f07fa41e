//! A state machine that turns raw terminal input bytes into key events. It
//! keeps partial sequences between calls, so a sequence split over two
//! reads is still recognised; it knows CSI and SS3 sequences, cursor
//! position reports, X10 and SGR mouse reports, and bracketed paste.

use vstd::prelude::*;
use vstd::string::*;
use vstd::utf8::{decode_utf8, valid_utf8};
use vstd::slice::{slice_subrange, slice_to_vec};
use crate::key::{Key, KeyEvent};
use crate::key_handler::opt_string;
use crate::sequence_matcher::{longest_match_spec, match_spec, MatchResult, SequenceMatcher};
use crate::text::push_char;

verus! {

broadcast use vstd::string::group_string_axioms;

/// A buffer at least this long is flushed as text before the next byte.
pub const MAX_BUFFER_SIZE: usize = 1024;

/// What the parser is in the middle of.
#[derive(Debug, Clone, Copy, PartialEq, Eq, Structural)]
pub enum ParserState {
    /// Plain input and single-byte keys
    Normal,
    /// After ESC
    EscapeSequence,
    /// After ESC [
    CsiSequence,
    /// Inside a mouse report
    MouseEvent,
    /// Between ESC [ 200 ~ and ESC [ 201 ~
    BracketedPaste,
}

/// The parser's state: where it stands, the bytes of the sequence under
/// way, and the pasted content gathered so far.
pub struct KeyParserView {
    pub state: ParserState,
    pub buffer: Seq<u8>,
    pub paste: Seq<u8>,
}

/// A key event as plain values: key, raw bytes, text.
pub type EventModel = (Key, Seq<u8>, Option<Seq<char>>);

/// A key event as plain values.
pub open spec fn event_model(e: KeyEvent) -> EventModel {
    (e.key, e.raw_bytes@, opt_string(e.text))
}

/// Key events as plain values.
pub open spec fn events_model(v: Seq<KeyEvent>) -> Seq<EventModel> {
    v.map_values(|e: KeyEvent| event_model(e))
}

/// `String::from_utf8_lossy`'s text for `bytes` (invalid sequences become
/// U+FFFD).
pub uninterp spec fn lossy_text(bytes: Seq<u8>) -> Seq<char>;

/// `String::from_utf8_lossy`, owned.
#[verifier::external_body]
fn lossy_string(bytes: &[u8]) -> (s: String)
    ensures
        s@ == lossy_text(bytes@),
{
    String::from_utf8_lossy(bytes).into_owned()
}

/// `String::from_utf8`: the text of valid UTF-8, nothing otherwise.
#[verifier::external_body]
fn utf8_string(bytes: Vec<u8>) -> (r: Option<String>)
    ensures
        r is Some <==> valid_utf8(bytes@),
        r matches Some(s) ==> s@ == decode_utf8(bytes@),
{
    String::from_utf8(bytes).ok()
}

/// The parser at rest: normal state, nothing buffered or pasted.
pub open spec fn parser_initial() -> KeyParserView {
    KeyParserView { state: ParserState::Normal, buffer: Seq::empty(), paste: Seq::empty() }
}

/// Back to the normal state with an empty buffer (pasted content stays).
pub open spec fn reset_normal(p: KeyParserView) -> KeyParserView {
    KeyParserView { state: ParserState::Normal, buffer: Seq::empty(), paste: p.paste }
}

/// An event without text.
pub open spec fn simple_event(k: Key, raw: Seq<u8>) -> EventModel {
    (k, raw, None)
}

/// The event of a byte without a key of its own: printable ASCII carries
/// itself as text.
pub open spec fn char_event(b: u8) -> EventModel {
    if 0x20 <= b < 0x7f {
        (Key::NotDefined, seq![b], Some(seq![b as char]))
    } else {
        (Key::NotDefined, seq![b], None)
    }
}

/// The events of bytes taken one by one as characters.
pub open spec fn char_events(bs: Seq<u8>) -> Seq<EventModel> {
    bs.map_values(|b: u8| char_event(b))
}

/// The event of pasted content: with its text when it is valid UTF-8.
pub open spec fn paste_event(content: Seq<u8>) -> EventModel {
    if valid_utf8(content) {
        (Key::BracketedPaste, content, Some(decode_utf8(content)))
    } else {
        (Key::BracketedPaste, content, None)
    }
}

pub open spec fn is_digit(b: u8) -> bool {
    0x30 <= b <= 0x39
}

/// Parameter bytes of a CSI sequence: digits, `;`, `:`, `<`, `=`, `>`, `?`.
pub open spec fn is_csi_parameter(b: u8) -> bool {
    0x30 <= b <= 0x3f
}

/// Final bytes of a CSI sequence: `@` to `~`.
pub open spec fn is_csi_final(b: u8) -> bool {
    0x40 <= b <= 0x7e
}

/// The number of `;` in `s`.
pub open spec fn semicolons(s: Seq<u8>) -> nat
    decreases s.len(),
{
    if s.len() == 0 {
        0
    } else {
        semicolons(s.drop_last()) + if s.last() == 0x3b { 1nat } else { 0nat }
    }
}

/// `s` holds only digits and `;`.
pub open spec fn digits_and_semicolons(s: Seq<u8>) -> bool {
    forall|i: int| 0 <= i < s.len() ==> is_digit(#[trigger] s[i]) || s[i] == 0x3b
}

/// Numbers separated by single `;`: `count` of them, none empty.
pub open spec fn numbers_separated(s: Seq<u8>, count: nat) -> bool {
    &&& s.len() > 0
    &&& digits_and_semicolons(s)
    &&& semicolons(s) + 1 == count
    &&& s[0] != 0x3b
    &&& s.last() != 0x3b
    &&& forall|i: int| 0 <= i < s.len() - 1 ==> !(#[trigger] s[i] == 0x3b && s[i + 1] == 0x3b)
}

/// A cursor position report: `ESC [ row ; col R`.
pub open spec fn is_cpr_spec(buf: Seq<u8>) -> bool {
    &&& buf.len() >= 4
    &&& buf[0] == 0x1b && buf[1] == 0x5b
    &&& buf.last() == 0x52
    &&& numbers_separated(buf.subrange(2, buf.len() - 1), 2)
}

/// An SGR mouse report: `ESC [ < button ; x ; y` then `M` or `m`.
pub open spec fn is_sgr_mouse_spec(buf: Seq<u8>) -> bool {
    &&& buf.len() >= 5
    &&& buf[0] == 0x1b && buf[1] == 0x5b && buf[2] == 0x3c
    &&& (buf.last() == 0x4d || buf.last() == 0x6d)
    &&& numbers_separated(buf.subrange(3, buf.len() - 1), 3)
}

/// A Device Status Report or Device Attributes answer (`ESC [ ... n` or
/// `... c`), or an SGR-shaped mouse report.
pub open spec fn is_special_csi_spec(buf: Seq<u8>) -> bool {
    &&& buf.len() >= 3
    &&& buf[0] == 0x1b && buf[1] == 0x5b
    &&& (buf.last() == 0x6e || buf.last() == 0x63
        || (buf[2] == 0x3c && (buf.last() == 0x4d || buf.last() == 0x6d)))
}

/// `ESC [ 200 ~`, the start of a paste.
pub open spec fn paste_start() -> Seq<u8> {
    seq![0x1bu8, 0x5bu8, 0x32u8, 0x30u8, 0x30u8, 0x7eu8]
}

/// `ESC [ 201 ~`, the end of a paste.
pub open spec fn paste_end() -> Seq<u8> {
    seq![0x1bu8, 0x5bu8, 0x32u8, 0x30u8, 0x31u8, 0x7eu8]
}

/// Whether `s` ends with `t`.
pub open spec fn ends_with(s: Seq<u8>, t: Seq<u8>) -> bool {
    t.len() <= s.len() && s.subrange(s.len() - t.len(), s.len() as int) == t
}

/// A byte in the normal state: ESC opens a sequence; a byte with a key of
/// its own gives that key; any other byte is a character.
pub open spec fn normal_step(p: KeyParserView, b: u8) -> (KeyParserView, Seq<EventModel>) {
    if b == 0x1b {
        (KeyParserView { state: ParserState::EscapeSequence, buffer: p.buffer.push(b), ..p }, Seq::empty())
    } else {
        match match_spec(seq![b]) {
            MatchResult::Exact(k) => (p, seq![simple_event(k, seq![b])]),
            _ => (p, seq![char_event(b)]),
        }
    }
}

/// Bytes taken one after another as in the normal state.
pub open spec fn normal_run(p: KeyParserView, bs: Seq<u8>) -> (KeyParserView, Seq<EventModel>)
    decreases bs.len(),
{
    if bs.len() == 0 {
        (p, Seq::empty())
    } else {
        let (q, e) = normal_run(p, bs.drop_last());
        let (q2, e2) = normal_step(q, bs.last());
        (q2, e + e2)
    }
}

/// A byte after ESC: `[` opens CSI; a whole sequence gives its key; the
/// start of one goes on; otherwise ESC was a key by itself and the byte is
/// taken anew.
pub open spec fn escape_step(p: KeyParserView, b: u8) -> (KeyParserView, Seq<EventModel>) {
    let buf = p.buffer.push(b);
    if b == 0x5b {
        (KeyParserView { state: ParserState::CsiSequence, buffer: buf, ..p }, Seq::empty())
    } else {
        match match_spec(buf) {
            MatchResult::Exact(k) => (reset_normal(p), seq![simple_event(k, buf)]),
            MatchResult::Prefix => (KeyParserView { buffer: buf, ..p }, Seq::empty()),
            MatchResult::NoMatch => {
                let (q, e) = normal_step(reset_normal(p), b);
                (q, seq![simple_event(Key::Escape, seq![0x1bu8])] + e)
            },
        }
    }
}

/// The bytes after the first two.
pub open spec fn after_introducer(buf: Seq<u8>) -> Seq<u8> {
    if buf.len() >= 2 { buf.subrange(2, buf.len() as int) } else { Seq::empty() }
}

/// A byte of a CSI sequence, checked in this order: the paste start opens
/// a paste; `M` or `<` right after `ESC [` opens a mouse report; `R`
/// closing a position report gives it; a whole sequence gives its key
/// (nothing for an ignored one); the start of one, or a parameter byte,
/// goes on; another final byte gives an undefined key for the whole
/// sequence; anything else means `ESC [` was no sequence: ESC and `[` are
/// keys, and the rest is taken anew.
pub open spec fn csi_step(p: KeyParserView, b: u8) -> (KeyParserView, Seq<EventModel>) {
    let buf = p.buffer.push(b);
    if buf == paste_start() {
        (KeyParserView { state: ParserState::BracketedPaste, buffer: Seq::empty(), ..p }, Seq::empty())
    } else if buf.len() == 3 && (b == 0x4d || b == 0x3c) {
        (KeyParserView { state: ParserState::MouseEvent, buffer: buf, ..p }, Seq::empty())
    } else if b == 0x52 && is_cpr_spec(buf) {
        (reset_normal(p), seq![simple_event(Key::CPRResponse, buf)])
    } else {
        match match_spec(buf) {
            MatchResult::Exact(k) => (reset_normal(p), if k == Key::Ignore {
                Seq::empty()
            } else {
                seq![simple_event(k, buf)]
            }),
            MatchResult::Prefix => (KeyParserView { buffer: buf, ..p }, Seq::empty()),
            MatchResult::NoMatch => if is_csi_parameter(b) {
                (KeyParserView { buffer: buf, ..p }, Seq::empty())
            } else if is_csi_final(b) {
                (reset_normal(p), seq![simple_event(Key::NotDefined, buf)])
            } else {
                let (q, e) = normal_run(reset_normal(p), after_introducer(buf));
                (q, seq![simple_event(Key::Escape, seq![0x1bu8]), char_event(0x5b)] + e)
            },
        }
    }
}

/// A byte of a mouse report: an X10 report is `ESC [ M` and three bytes;
/// an SGR report ends at `M` or `m` (an undefined key when malformed, or at
/// a byte that is no digit or `;`); any other form is given up after ten
/// bytes.
pub open spec fn mouse_step(p: KeyParserView, b: u8) -> (KeyParserView, Seq<EventModel>) {
    let buf = p.buffer.push(b);
    if seq![0x1bu8, 0x5bu8, 0x4du8].is_prefix_of(buf) {
        if buf.len() >= 6 {
            (reset_normal(p), seq![simple_event(Key::Vt100MouseEvent, buf)])
        } else {
            (KeyParserView { buffer: buf, ..p }, Seq::empty())
        }
    } else if seq![0x1bu8, 0x5bu8, 0x3cu8].is_prefix_of(buf) {
        if b == 0x4d || b == 0x6d {
            (reset_normal(p), seq![simple_event(if is_sgr_mouse_spec(buf) { Key::Vt100MouseEvent } else { Key::NotDefined }, buf)])
        } else if !(is_digit(b) || b == 0x3b) {
            (reset_normal(p), seq![simple_event(Key::NotDefined, buf)])
        } else {
            (KeyParserView { buffer: buf, ..p }, Seq::empty())
        }
    } else if buf.len() >= 10 {
        (reset_normal(p), seq![simple_event(Key::NotDefined, buf)])
    } else {
        (KeyParserView { buffer: buf, ..p }, Seq::empty())
    }
}

/// A byte of pasted content: the paste end gives everything pasted before
/// it as one event; otherwise all but the last five bytes move to the
/// pasted content (the end marker may be under way).
pub open spec fn paste_step(p: KeyParserView, b: u8) -> (KeyParserView, Seq<EventModel>) {
    let buf = p.buffer.push(b);
    if ends_with(buf, paste_end()) {
        let content = p.paste + buf.subrange(0, buf.len() - 6);
        (KeyParserView { state: ParserState::Normal, buffer: Seq::empty(), paste: Seq::empty() }, seq![paste_event(content)])
    } else if buf.len() >= 6 {
        let m = buf.len() - 5;
        (KeyParserView { buffer: buf.subrange(m, buf.len() as int), paste: p.paste + buf.subrange(0, m), ..p }, Seq::empty())
    } else {
        (KeyParserView { buffer: buf, ..p }, Seq::empty())
    }
}

/// A byte in the parser's current state.
pub open spec fn dispatch_step(p: KeyParserView, b: u8) -> (KeyParserView, Seq<EventModel>) {
    match p.state {
        ParserState::Normal => normal_step(p, b),
        ParserState::EscapeSequence => escape_step(p, b),
        ParserState::CsiSequence => csi_step(p, b),
        ParserState::MouseEvent => mouse_step(p, b),
        ParserState::BracketedPaste => paste_step(p, b),
    }
}

/// One byte of input: a buffer that reached the limit is first handed out
/// as text, back in the normal state.
pub open spec fn feed_step(p: KeyParserView, b: u8) -> (KeyParserView, Seq<EventModel>) {
    if p.buffer.len() >= MAX_BUFFER_SIZE {
        let (q, e) = dispatch_step(reset_normal(p), b);
        (q, seq![(Key::NotDefined, p.buffer, Some(lossy_text(p.buffer)))] + e)
    } else {
        dispatch_step(p, b)
    }
}

/// Feeding `data`, byte after byte.
pub open spec fn feed_spec(p: KeyParserView, data: Seq<u8>) -> (KeyParserView, Seq<EventModel>)
    decreases data.len(),
{
    if data.len() == 0 {
        (p, Seq::empty())
    } else {
        let (q, e) = feed_spec(p, data.drop_last());
        let (q2, e2) = feed_step(q, data.last());
        (q2, e + e2)
    }
}

/// Flushing: during a paste, what was pasted so far; otherwise the longest
/// whole sequence at the start of the buffer and the rest as characters.
/// The parser is then at rest.
pub open spec fn flush_spec(p: KeyParserView) -> (KeyParserView, Seq<EventModel>) {
    let buf = p.buffer;
    let events = if buf.len() == 0 {
        Seq::empty()
    } else if p.state == ParserState::BracketedPaste {
        let all = p.paste + buf;
        seq![paste_event(all)]
    } else {
        match longest_match_spec(buf, buf.len() as int) {
            Some((k, n)) => seq![simple_event(k, buf.take(n))] + char_events(buf.skip(n)),
            None => char_events(buf),
        }
    };
    (parser_initial(), events)
}

proof fn lemma_longest_match(s: Seq<u8>, n: int)
    ensures
        longest_match_spec(s, n) matches Some((k, m)) ==> 1 <= m <= n && m <= s.len(),
    decreases n,
{
    if n > 0 && n <= s.len() {
        lemma_longest_match(s, n - 1);
    }
}

/// State machine parser for converting raw terminal input bytes to key
/// events; each call matches against the sequence table of
/// `SequenceMatcher`.
pub struct KeyParser {
    state: ParserState,
    buffer: Vec<u8>,
    paste_buffer: Vec<u8>,
}

impl View for KeyParser {
    type V = KeyParserView;

    closed spec fn view(&self) -> KeyParserView {
        KeyParserView { state: self.state, buffer: self.buffer@, paste: self.paste_buffer@ }
    }
}

fn create_char_event(byte: u8) -> (e: KeyEvent)
    ensures
        event_model(e) == char_event(byte),
{
    if 0x20 <= byte && byte < 0x7f {
        let mut text = String::new();
        push_char(&mut text, byte as char);
        KeyEvent::with_text(Key::NotDefined, vec![byte], text)
    } else {
        KeyEvent::simple(Key::NotDefined, vec![byte])
    }
}

fn simple(k: Key, raw: &[u8]) -> (e: KeyEvent)
    ensures
        event_model(e) == simple_event(k, raw@),
{
    KeyEvent::simple(k, slice_to_vec(raw))
}

fn create_paste_event(content: Vec<u8>) -> (e: KeyEvent)
    ensures
        event_model(e) == paste_event(content@),
{
    let raw = slice_to_vec(content.as_slice());
    match utf8_string(content) {
        Some(text) => KeyEvent::with_text(Key::BracketedPaste, raw, text),
        None => KeyEvent::simple(Key::BracketedPaste, raw),
    }
}

fn push_event(events: &mut Vec<KeyEvent>, e: KeyEvent)
    ensures
        events_model(final(events)@) == events_model(old(events)@).push(event_model(e)),
{
    events.push(e);
    assert(events_model(events@) =~= events_model(old(events)@).push(event_model(e)));
}

/// The numbers in `m` split at `;`: how many `;`, whether only digits and
/// `;` occur, and whether no two `;` are adjacent.
fn separator_facts(m: &[u8]) -> (r: (u64, bool, bool))
    ensures
        r.0 == semicolons(m@),
        r.1 == digits_and_semicolons(m@),
        r.2 == forall|i: int| 0 <= i < m@.len() - 1 ==> !(#[trigger] m@[i] == 0x3b && m@[i + 1] == 0x3b),
{
    let mut count: u64 = 0;
    let mut ok = true;
    let mut single = true;
    let mut i: usize = 0;
    while i < m.len()
        invariant
            i <= m@.len(),
            count == semicolons(m@.take(i as int)),
            count <= i,
            ok == digits_and_semicolons(m@.take(i as int)),
            single == forall|j: int| 0 <= j < i - 1 ==> !(#[trigger] m@[j] == 0x3b && m@[j + 1] == 0x3b),
        decreases m.len() - i,
    {
        let b = m[i];
        assert(m@.take(i + 1).drop_last() =~= m@.take(i as int));
        if b == 0x3b {
            count = count + 1;
            if i > 0 && m[i - 1] == 0x3b {
                single = false;
            }
        }
        if !((0x30 <= b && b <= 0x39) || b == 0x3b) {
            ok = false;
        }
        proof {
            if ok {
                assert forall|j: int| 0 <= j < i + 1 implies is_digit(#[trigger] m@.take(i + 1)[j]) || m@.take(i + 1)[j] == 0x3b by {
                    if j < i {
                        assert(m@.take(i + 1)[j] == m@.take(i as int)[j]);
                    }
                }
            } else if !((0x30 <= b && b <= 0x39) || b == 0x3b) {
                assert(!(is_digit(m@.take(i + 1)[i as int]) || m@.take(i + 1)[i as int] == 0x3b));
            } else {
                let j = choose|j: int| 0 <= j < m@.take(i as int).len() && !(is_digit(#[trigger] m@.take(i as int)[j]) || m@.take(i as int)[j] == 0x3b);
                assert(m@.take(i + 1)[j] == m@.take(i as int)[j]);
            }
        }
        i = i + 1;
    }
    assert(m@.take(i as int) =~= m@);
    (count, ok, single)
}

/// Whether `m` is `count` numbers separated by single `;`.
fn numbers_separated_exec(m: &[u8], count: u64) -> (r: bool)
    ensures
        r == numbers_separated(m@, count as nat),
{
    if m.len() == 0 {
        return false;
    }
    let (semis, ok, single) = separator_facts(m);
    semis < u64::MAX && semis + 1 == count && ok && single && m[0] != 0x3b && m[m.len() - 1] != 0x3b
}

impl KeyParser {
    /// Create a new parser at rest.
    pub fn new() -> (p: Self)
        ensures
            p@ == parser_initial(),
    {
        let p = KeyParser {
            state: ParserState::Normal,
            buffer: Vec::new(),
            paste_buffer: Vec::new(),
        };
        assert(p@.buffer =~= Seq::<u8>::empty());
        assert(p@.paste =~= Seq::<u8>::empty());
        p
    }

    /// The state the parser is in.
    pub fn state(&self) -> (s: ParserState)
        ensures
            s == self@.state,
    {
        self.state
    }

    /// The bytes of the sequence under way.
    pub fn buffer(&self) -> (b: &[u8])
        ensures
            b@ == self@.buffer,
    {
        self.buffer.as_slice()
    }

    /// Whether `byte` is a CSI parameter byte.
    pub fn is_csi_parameter_byte(&self, byte: u8) -> (r: bool)
        ensures
            r == is_csi_parameter(byte),
    {
        0x30 <= byte && byte <= 0x3f
    }

    /// Whether `byte` is a CSI final byte.
    pub fn is_csi_final_byte(&self, byte: u8) -> (r: bool)
        ensures
            r == is_csi_final(byte),
    {
        0x40 <= byte && byte <= 0x7e
    }

    /// Whether `byte` may stand inside an SGR mouse report.
    pub fn is_sgr_mouse_parameter_byte(&self, byte: u8) -> (r: bool)
        ensures
            r == (is_digit(byte) || byte == 0x3b),
    {
        (0x30 <= byte && byte <= 0x39) || byte == 0x3b
    }

    /// Whether `buffer` is a cursor position report `ESC [ row ; col R`.
    pub fn is_cpr_response(&self, buffer: &[u8]) -> (r: bool)
        ensures
            r == is_cpr_spec(buffer@),
    {
        let n = buffer.len();
        if n < 4 || buffer[0] != 0x1b || buffer[1] != 0x5b || buffer[n - 1] != 0x52 {
            return false;
        }
        numbers_separated_exec(slice_subrange(buffer, 2, n - 1), 2)
    }

    /// Whether `buffer` is an SGR mouse report `ESC [ < b ; x ; y M|m`.
    pub fn is_valid_sgr_mouse_sequence(&self, buffer: &[u8]) -> (r: bool)
        ensures
            r == is_sgr_mouse_spec(buffer@),
    {
        let n = buffer.len();
        if n < 5 || buffer[0] != 0x1b || buffer[1] != 0x5b || buffer[2] != 0x3c {
            return false;
        }
        if buffer[n - 1] != 0x4d && buffer[n - 1] != 0x6d {
            return false;
        }
        numbers_separated_exec(slice_subrange(buffer, 3, n - 1), 3)
    }

    /// Whether `buffer` is a status or attribute answer, or SGR-shaped.
    pub fn is_special_csi_sequence(&self, buffer: &[u8]) -> (r: bool)
        ensures
            r == is_special_csi_spec(buffer@),
    {
        let n = buffer.len();
        if n < 3 || buffer[0] != 0x1b || buffer[1] != 0x5b {
            return false;
        }
        let last = buffer[n - 1];
        last == 0x6e || last == 0x63 || (buffer[2] == 0x3c && (last == 0x4d || last == 0x6d))
    }

    /// Back to rest: normal state, nothing buffered or pasted.
    pub fn reset(&mut self)
        ensures
            final(self)@ == parser_initial(),
    {
        self.state = ParserState::Normal;
        self.buffer.clear();
        self.paste_buffer.clear();
        assert(self@.buffer =~= Seq::<u8>::empty());
        assert(self@.paste =~= Seq::<u8>::empty());
    }

    fn reset_to_normal(&mut self)
        ensures
            final(self)@ == reset_normal(old(self)@),
    {
        self.state = ParserState::Normal;
        self.buffer.clear();
        assert(self@.buffer =~= Seq::<u8>::empty());
    }

    fn handle_normal_byte(&mut self, m: &SequenceMatcher, byte: u8, events: &mut Vec<KeyEvent>)
        requires
            m.wf(),
        ensures
            (final(self)@, events_model(final(events)@)) == ({
                let (q, e) = normal_step(old(self)@, byte);
                (q, events_model(old(events)@) + e)
            }),
    {
        if byte == 0x1b {
            self.buffer.push(byte);
            self.state = ParserState::EscapeSequence;
            assert(events_model(events@) =~= events_model(old(events)@) + Seq::<EventModel>::empty());
        } else {
            let one = vec![byte];
            assert(one@ =~= seq![byte]);
            match m.match_sequence(one.as_slice()) {
                MatchResult::Exact(key) => {
                    push_event(events, KeyEvent::simple(key, vec![byte]));
                },
                _ => {
                    push_event(events, create_char_event(byte));
                },
            }
            assert(events_model(events@) =~= events_model(old(events)@) + normal_step(old(self)@, byte).1);
        }
    }

    fn handle_normal_bytes(&mut self, m: &SequenceMatcher, bytes: &[u8], events: &mut Vec<KeyEvent>)
        requires
            m.wf(),
        ensures
            (final(self)@, events_model(final(events)@)) == ({
                let (q, e) = normal_run(old(self)@, bytes@);
                (q, events_model(old(events)@) + e)
            }),
    {
        let mut i: usize = 0;
        while i < bytes.len()
            invariant
                m.wf(),
                i <= bytes@.len(),
                (self@, events_model(events@)) == ({
                    let (q, e) = normal_run(old(self)@, bytes@.take(i as int));
                    (q, events_model(old(events)@) + e)
                }),
            decreases bytes.len() - i,
        {
            proof {
                assert(bytes@.take(i + 1).drop_last() =~= bytes@.take(i as int));
            }
            let ghost mid = events_model(events@);
            self.handle_normal_byte(m, bytes[i], events);
            proof {
                let (q, e) = normal_run(old(self)@, bytes@.take(i as int));
                let (q2, e2) = normal_step(q, bytes@[i as int]);
                assert(events_model(events@) =~= events_model(old(events)@) + (e + e2));
            }
            i = i + 1;
        }
        proof {
            assert(bytes@.take(i as int) =~= bytes@);
        }
    }

    fn handle_escape_byte(&mut self, m: &SequenceMatcher, byte: u8, events: &mut Vec<KeyEvent>)
        requires
            m.wf(),
        ensures
            (final(self)@, events_model(final(events)@)) == ({
                let (q, e) = escape_step(old(self)@, byte);
                (q, events_model(old(events)@) + e)
            }),
    {
        self.buffer.push(byte);
        if byte == 0x5b {
            self.state = ParserState::CsiSequence;
            assert(events_model(events@) =~= events_model(old(events)@) + Seq::<EventModel>::empty());
            return;
        }
        match m.match_sequence(self.buffer.as_slice()) {
            MatchResult::Exact(key) => {
                push_event(events, simple(key, self.buffer.as_slice()));
                self.reset_to_normal();
                assert(events_model(events@) =~= events_model(old(events)@) + escape_step(old(self)@, byte).1);
            },
            MatchResult::Prefix => {
                assert(events_model(events@) =~= events_model(old(events)@) + Seq::<EventModel>::empty());
            },
            MatchResult::NoMatch => {
                let esc = vec![0x1bu8];
                assert(esc@ =~= seq![0x1bu8]);
                push_event(events, KeyEvent::simple(Key::Escape, esc));
                self.reset_to_normal();
                let ghost mid = events_model(events@);
                assert(mid =~= events_model(old(events)@) + seq![simple_event(Key::Escape, seq![0x1bu8])]);
                assert(self@ == reset_normal(old(self)@));
                self.handle_normal_byte(m, byte, events);
                let ghost e = normal_step(reset_normal(old(self)@), byte).1;
                assert(events_model(events@) =~= mid + e);
                assert(events_model(events@) =~= events_model(old(events)@) + (seq![simple_event(Key::Escape, seq![0x1bu8])] + e));
            },
        }
    }

    fn handle_csi_byte(&mut self, m: &SequenceMatcher, byte: u8, events: &mut Vec<KeyEvent>)
        requires
            m.wf(),
        ensures
            (final(self)@, events_model(final(events)@)) == ({
                let (q, e) = csi_step(old(self)@, byte);
                (q, events_model(old(events)@) + e)
            }),
    {
        self.buffer.push(byte);
        let start = vec![0x1bu8, 0x5bu8, 0x32u8, 0x30u8, 0x30u8, 0x7eu8];
        assert(start@ =~= paste_start());
        if crate::sequence_matcher::bytes_equal(self.buffer.as_slice(), start.as_slice()) {
            self.state = ParserState::BracketedPaste;
            self.buffer.clear();
            assert(self@.buffer =~= Seq::<u8>::empty());
            assert(events_model(events@) =~= events_model(old(events)@) + Seq::<EventModel>::empty());
            return;
        }
        if self.buffer.len() == 3 && (byte == 0x4d || byte == 0x3c) {
            self.state = ParserState::MouseEvent;
            assert(events_model(events@) =~= events_model(old(events)@) + Seq::<EventModel>::empty());
            return;
        }
        if byte == 0x52 && self.is_cpr_response(self.buffer.as_slice()) {
            push_event(events, simple(Key::CPRResponse, self.buffer.as_slice()));
            self.reset_to_normal();
            assert(events_model(events@) =~= events_model(old(events)@) + csi_step(old(self)@, byte).1);
            return;
        }
        match m.match_sequence(self.buffer.as_slice()) {
            MatchResult::Exact(key) => {
                if key != Key::Ignore {
                    push_event(events, simple(key, self.buffer.as_slice()));
                }
                self.reset_to_normal();
                assert(events_model(events@) =~= events_model(old(events)@) + csi_step(old(self)@, byte).1);
            },
            MatchResult::Prefix => {
                assert(events_model(events@) =~= events_model(old(events)@) + Seq::<EventModel>::empty());
            },
            MatchResult::NoMatch => {
                if self.is_csi_parameter_byte(byte) {
                    assert(events_model(events@) =~= events_model(old(events)@) + Seq::<EventModel>::empty());
                } else if self.is_csi_final_byte(byte) {
                    push_event(events, simple(Key::NotDefined, self.buffer.as_slice()));
                    self.reset_to_normal();
                    assert(events_model(events@) =~= events_model(old(events)@) + csi_step(old(self)@, byte).1);
                } else {
                    let esc = vec![0x1bu8];
                    assert(esc@ =~= seq![0x1bu8]);
                    push_event(events, KeyEvent::simple(Key::Escape, esc));
                    push_event(events, create_char_event(0x5b));
                    let ghost head = seq![simple_event(Key::Escape, seq![0x1bu8]), char_event(0x5b)];
                    assert(events_model(events@) =~= events_model(old(events)@) + head);
                    let remaining: Vec<u8> = if self.buffer.len() >= 2 {
                        slice_to_vec(slice_subrange(self.buffer.as_slice(), 2, self.buffer.len()))
                    } else {
                        Vec::new()
                    };
                    assert(remaining@ =~= after_introducer(old(self)@.buffer.push(byte)));
                    self.reset_to_normal();
                    let ghost mid = events_model(events@);
                    assert(self@ == reset_normal(old(self)@));
                    self.handle_normal_bytes(m, remaining.as_slice(), events);
                    let ghost e = normal_run(reset_normal(old(self)@), after_introducer(old(self)@.buffer.push(byte))).1;
                    assert(events_model(events@) =~= mid + e);
                    assert(events_model(events@) =~= events_model(old(events)@) + (head + e));
                }
            },
        }
    }

    fn handle_mouse_byte(&mut self, byte: u8, events: &mut Vec<KeyEvent>)
        ensures
            (final(self)@, events_model(final(events)@)) == ({
                let (q, e) = mouse_step(old(self)@, byte);
                (q, events_model(old(events)@) + e)
            }),
    {
        self.buffer.push(byte);
        let x10 = vec![0x1bu8, 0x5bu8, 0x4du8];
        let sgr = vec![0x1bu8, 0x5bu8, 0x3cu8];
        assert(x10@ =~= seq![0x1bu8, 0x5bu8, 0x4du8]);
        assert(sgr@ =~= seq![0x1bu8, 0x5bu8, 0x3cu8]);
        if crate::sequence_matcher::starts_with(self.buffer.as_slice(), x10.as_slice()) {
            if self.buffer.len() >= 6 {
                push_event(events, simple(Key::Vt100MouseEvent, self.buffer.as_slice()));
                self.reset_to_normal();
                assert(events_model(events@) =~= events_model(old(events)@) + mouse_step(old(self)@, byte).1);
            } else {
                assert(events_model(events@) =~= events_model(old(events)@) + Seq::<EventModel>::empty());
            }
        } else if crate::sequence_matcher::starts_with(self.buffer.as_slice(), sgr.as_slice()) {
            if byte == 0x4d || byte == 0x6d {
                let key = if self.is_valid_sgr_mouse_sequence(self.buffer.as_slice()) {
                    Key::Vt100MouseEvent
                } else {
                    Key::NotDefined
                };
                push_event(events, simple(key, self.buffer.as_slice()));
                self.reset_to_normal();
                assert(events_model(events@) =~= events_model(old(events)@) + mouse_step(old(self)@, byte).1);
            } else if !self.is_sgr_mouse_parameter_byte(byte) {
                push_event(events, simple(Key::NotDefined, self.buffer.as_slice()));
                self.reset_to_normal();
                assert(events_model(events@) =~= events_model(old(events)@) + mouse_step(old(self)@, byte).1);
            } else {
                assert(events_model(events@) =~= events_model(old(events)@) + Seq::<EventModel>::empty());
            }
        } else if self.buffer.len() >= 10 {
            push_event(events, simple(Key::NotDefined, self.buffer.as_slice()));
            self.reset_to_normal();
            assert(events_model(events@) =~= events_model(old(events)@) + mouse_step(old(self)@, byte).1);
        } else {
            assert(events_model(events@) =~= events_model(old(events)@) + Seq::<EventModel>::empty());
        }
    }

    fn handle_paste_byte(&mut self, byte: u8, events: &mut Vec<KeyEvent>)
        ensures
            (final(self)@, events_model(final(events)@)) == ({
                let (q, e) = paste_step(old(self)@, byte);
                (q, events_model(old(events)@) + e)
            }),
    {
        self.buffer.push(byte);
        let n = self.buffer.len();
        let end = vec![0x1bu8, 0x5bu8, 0x32u8, 0x30u8, 0x31u8, 0x7eu8];
        assert(end@ =~= paste_end());
        let ends = n >= 6 && crate::sequence_matcher::bytes_equal(slice_subrange(self.buffer.as_slice(), n - 6, n), end.as_slice());
        if ends {
            let head = slice_subrange(self.buffer.as_slice(), 0, n - 6);
            let mut content = slice_to_vec(self.paste_buffer.as_slice());
            let mut i: usize = 0;
            while i < head.len()
                invariant
                    i <= head@.len(),
                    content@ == old(self)@.paste + head@.take(i as int),
                decreases head.len() - i,
            {
                content.push(head[i]);
                assert(content@ =~= old(self)@.paste + head@.take(i + 1));
                i = i + 1;
            }
            assert(head@.take(i as int) =~= head@);
            push_event(events, create_paste_event(content));
            self.paste_buffer.clear();
            self.reset_to_normal();
            assert(self@.paste =~= Seq::<u8>::empty());
            assert(events_model(events@) =~= events_model(old(events)@) + paste_step(old(self)@, byte).1);
        } else if n >= 6 {
            let m = n - 5;
            let mut i: usize = 0;
            while i < m
                invariant
                    m == n - 5,
                    n == self.buffer@.len(),
                    self.buffer@ == old(self)@.buffer.push(byte),
                    i <= m,
                    self.paste_buffer@ == old(self)@.paste + self.buffer@.take(i as int),
                    self.state == old(self)@.state,
                decreases m - i,
            {
                self.paste_buffer.push(self.buffer[i]);
                assert(self.paste_buffer@ =~= old(self)@.paste + self.buffer@.take(i + 1));
                i = i + 1;
            }
            let rest = slice_to_vec(slice_subrange(self.buffer.as_slice(), m, n));
            self.buffer = rest;
            assert(events_model(events@) =~= events_model(old(events)@) + Seq::<EventModel>::empty());
        } else {
            assert(events_model(events@) =~= events_model(old(events)@) + Seq::<EventModel>::empty());
        }
    }

    fn dispatch(&mut self, m: &SequenceMatcher, byte: u8, events: &mut Vec<KeyEvent>)
        requires
            m.wf(),
        ensures
            (final(self)@, events_model(final(events)@)) == ({
                let (q, e) = dispatch_step(old(self)@, byte);
                (q, events_model(old(events)@) + e)
            }),
    {
        match self.state {
            ParserState::Normal => self.handle_normal_byte(m, byte, events),
            ParserState::EscapeSequence => self.handle_escape_byte(m, byte, events),
            ParserState::CsiSequence => self.handle_csi_byte(m, byte, events),
            ParserState::MouseEvent => self.handle_mouse_byte(byte, events),
            ParserState::BracketedPaste => self.handle_paste_byte(byte, events),
        }
    }

    /// Feed raw bytes and get the key events they complete; partial
    /// sequences wait for more input.
    pub fn feed(&mut self, data: &[u8]) -> (events: Vec<KeyEvent>)
        ensures
            (final(self)@, events_model(events@)) == feed_spec(old(self)@, data@),
    {
        let matcher = SequenceMatcher::new();
        let mut events: Vec<KeyEvent> = Vec::new();
        let mut i: usize = 0;
        while i < data.len()
            invariant
                matcher.wf(),
                i <= data@.len(),
                (self@, events_model(events@)) == feed_spec(old(self)@, data@.take(i as int)),
            decreases data.len() - i,
        {
            let byte = data[i];
            proof {
                assert(data@.take(i + 1).drop_last() =~= data@.take(i as int));
            }
            let ghost before = events_model(events@);
            let ghost p0 = self@;
            if self.buffer.len() >= MAX_BUFFER_SIZE {
                if self.buffer.len() > 0 {
                    let text = lossy_string(self.buffer.as_slice());
                    push_event(&mut events, KeyEvent::with_text(Key::NotDefined, slice_to_vec(self.buffer.as_slice()), text));
                }
                self.reset_to_normal();
            }
            self.dispatch(&matcher, byte, &mut events);
            proof {
                let (q, e) = feed_step(p0, byte);
                assert(events_model(events@) =~= before + e);
            }
            i = i + 1;
        }
        proof {
            assert(data@.take(i as int) =~= data@);
        }
        events
    }

    /// Hand out what is buffered: during a paste, the content so far;
    /// otherwise the longest whole sequence at the start and the rest as
    /// characters. The parser is then at rest.
    pub fn flush(&mut self) -> (events: Vec<KeyEvent>)
        ensures
            (final(self)@, events_model(events@)) == flush_spec(old(self)@),
    {
        let matcher = SequenceMatcher::new();
        let mut events: Vec<KeyEvent> = Vec::new();
        if self.buffer.len() > 0 {
            match self.state {
                ParserState::BracketedPaste => {
                    let mut all = slice_to_vec(self.paste_buffer.as_slice());
                    let mut i: usize = 0;
                    while i < self.buffer.len()
                        invariant
                            i <= self.buffer@.len(),
                            all@ == self.paste_buffer@ + self.buffer@.take(i as int),
                        decreases self.buffer.len() - i,
                    {
                        all.push(self.buffer[i]);
                        assert(all@ =~= self.paste_buffer@ + self.buffer@.take(i + 1));
                        i = i + 1;
                    }
                    assert(self.buffer@.take(i as int) =~= self.buffer@);
                    push_event(&mut events, create_paste_event(all));
                },
                _ => {
                    let buf = self.buffer.as_slice();
                    proof {
                        lemma_longest_match(buf@, buf@.len() as int);
                    }
                    let start: usize = match matcher.find_longest_match(buf) {
                        Some(longest) => {
                            push_event(&mut events, simple(longest.key, slice_subrange(buf, 0, longest.consumed_bytes)));
                            longest.consumed_bytes
                        },
                        None => 0,
                    };
                    assert(buf@.subrange(start as int, start as int) =~= Seq::<u8>::empty());
                    assert(char_events(Seq::<u8>::empty()) =~= Seq::<EventModel>::empty());
                    let ghost head = events_model(events@);
                    let mut i: usize = start;
                    while i < buf.len()
                        invariant
                            start <= i <= buf@.len(),
                            events_model(events@) == head + char_events(buf@.subrange(start as int, i as int)),
                        decreases buf.len() - i,
                    {
                        push_event(&mut events, create_char_event(buf[i]));
                        assert(char_events(buf@.subrange(start as int, i + 1)) =~= char_events(buf@.subrange(start as int, i as int)).push(char_event(buf@[i as int])));
                        i = i + 1;
                    }
                    proof {
                        assert(buf@.subrange(start as int, buf@.len() as int) =~= buf@.skip(start as int));
                        match longest_match_spec(buf@, buf@.len() as int) {
                            Some((k, n)) => {
                                assert(buf@.subrange(0, n) =~= buf@.take(n));
                            },
                            None => {
                                assert(buf@.skip(0) =~= buf@);
                                assert(head =~= Seq::<EventModel>::empty());
                            },
                        }
                    }
                },
            }
        }
        self.reset();
        proof {
            if old(self)@.buffer.len() == 0 {
                assert(events_model(events@) =~= Seq::<EventModel>::empty());
            }
        }
        events
    }
}

impl Default for KeyParser {
    /// A parser at rest.
    fn default() -> (p: Self)
        ensures
            p@ == parser_initial(),
    {
        Self::new()
    }
}

} // verus!
