//! The table of terminal key sequences, and matching input bytes against
//! it: a sequence is recognised whole, as the start of a longer one, or not
//! at all.

use vstd::prelude::*;
use crate::key::Key;

verus! {

/// Number of multi-byte entries in the sequence table.
pub const SEQUENCE_COUNT: usize = 56;

/// The key of a single input byte: control characters (Tab for 0x09,
/// Enter for 0x0d, Escape for 0x1b, Ctrl+letter otherwise) and Backspace
/// for DEL. Other bytes have no key of their own.
pub open spec fn single_byte_key(b: u8) -> Option<Key> {
    if b == 0x00 { Some(Key::ControlSpace) }
    else if b == 0x01 { Some(Key::ControlA) }
    else if b == 0x02 { Some(Key::ControlB) }
    else if b == 0x03 { Some(Key::ControlC) }
    else if b == 0x04 { Some(Key::ControlD) }
    else if b == 0x05 { Some(Key::ControlE) }
    else if b == 0x06 { Some(Key::ControlF) }
    else if b == 0x07 { Some(Key::ControlG) }
    else if b == 0x08 { Some(Key::ControlH) }
    else if b == 0x09 { Some(Key::Tab) }
    else if b == 0x0a { Some(Key::ControlJ) }
    else if b == 0x0b { Some(Key::ControlK) }
    else if b == 0x0c { Some(Key::ControlL) }
    else if b == 0x0d { Some(Key::Enter) }
    else if b == 0x0e { Some(Key::ControlN) }
    else if b == 0x0f { Some(Key::ControlO) }
    else if b == 0x10 { Some(Key::ControlP) }
    else if b == 0x11 { Some(Key::ControlQ) }
    else if b == 0x12 { Some(Key::ControlR) }
    else if b == 0x13 { Some(Key::ControlS) }
    else if b == 0x14 { Some(Key::ControlT) }
    else if b == 0x15 { Some(Key::ControlU) }
    else if b == 0x16 { Some(Key::ControlV) }
    else if b == 0x17 { Some(Key::ControlW) }
    else if b == 0x18 { Some(Key::ControlX) }
    else if b == 0x19 { Some(Key::ControlY) }
    else if b == 0x1a { Some(Key::ControlZ) }
    else if b == 0x1b { Some(Key::Escape) }
    else if b == 0x1c { Some(Key::ControlBackslash) }
    else if b == 0x1d { Some(Key::ControlSquareClose) }
    else if b == 0x1e { Some(Key::ControlCircumflex) }
    else if b == 0x1f { Some(Key::ControlUnderscore) }
    else if b == 0x7f { Some(Key::Backspace) }
    else { None }
}

/// Entry `i` of the table of multi-byte sequences: cursor keys (CSI and
/// SS3 forms), Home/End/Insert/Delete/Page keys, F1 to F20, Shift and
/// Ctrl with the arrows, Shift/Ctrl+Delete, Back-Tab, and the ignored
/// `ESC [ E`.
pub open spec fn sequence_entry(i: int) -> (Seq<u8>, Key) {
    if i == 0 { (seq![0x1bu8, 0x5bu8, 0x41u8], Key::Up) }
    else if i == 1 { (seq![0x1bu8, 0x5bu8, 0x42u8], Key::Down) }
    else if i == 2 { (seq![0x1bu8, 0x5bu8, 0x43u8], Key::Right) }
    else if i == 3 { (seq![0x1bu8, 0x5bu8, 0x44u8], Key::Left) }
    else if i == 4 { (seq![0x1bu8, 0x5bu8, 0x48u8], Key::Home) }
    else if i == 5 { (seq![0x1bu8, 0x5bu8, 0x46u8], Key::End) }
    else if i == 6 { (seq![0x1bu8, 0x5bu8, 0x5au8], Key::BackTab) }
    else if i == 7 { (seq![0x1bu8, 0x5bu8, 0x45u8], Key::Ignore) }
    else if i == 8 { (seq![0x1bu8, 0x4fu8, 0x41u8], Key::Up) }
    else if i == 9 { (seq![0x1bu8, 0x4fu8, 0x42u8], Key::Down) }
    else if i == 10 { (seq![0x1bu8, 0x4fu8, 0x43u8], Key::Right) }
    else if i == 11 { (seq![0x1bu8, 0x4fu8, 0x44u8], Key::Left) }
    else if i == 12 { (seq![0x1bu8, 0x4fu8, 0x48u8], Key::Home) }
    else if i == 13 { (seq![0x1bu8, 0x4fu8, 0x46u8], Key::End) }
    else if i == 14 { (seq![0x1bu8, 0x4fu8, 0x50u8], Key::F1) }
    else if i == 15 { (seq![0x1bu8, 0x4fu8, 0x51u8], Key::F2) }
    else if i == 16 { (seq![0x1bu8, 0x4fu8, 0x52u8], Key::F3) }
    else if i == 17 { (seq![0x1bu8, 0x4fu8, 0x53u8], Key::F4) }
    else if i == 18 { (seq![0x1bu8, 0x5bu8, 0x31u8, 0x7eu8], Key::Home) }
    else if i == 19 { (seq![0x1bu8, 0x5bu8, 0x32u8, 0x7eu8], Key::Insert) }
    else if i == 20 { (seq![0x1bu8, 0x5bu8, 0x33u8, 0x7eu8], Key::Delete) }
    else if i == 21 { (seq![0x1bu8, 0x5bu8, 0x34u8, 0x7eu8], Key::End) }
    else if i == 22 { (seq![0x1bu8, 0x5bu8, 0x35u8, 0x7eu8], Key::PageUp) }
    else if i == 23 { (seq![0x1bu8, 0x5bu8, 0x36u8, 0x7eu8], Key::PageDown) }
    else if i == 24 { (seq![0x1bu8, 0x5bu8, 0x37u8, 0x7eu8], Key::Home) }
    else if i == 25 { (seq![0x1bu8, 0x5bu8, 0x38u8, 0x7eu8], Key::End) }
    else if i == 26 { (seq![0x1bu8, 0x5bu8, 0x33u8, 0x3bu8, 0x32u8, 0x7eu8], Key::ShiftDelete) }
    else if i == 27 { (seq![0x1bu8, 0x5bu8, 0x33u8, 0x3bu8, 0x35u8, 0x7eu8], Key::ControlDelete) }
    else if i == 28 { (seq![0x1bu8, 0x5bu8, 0x31u8, 0x31u8, 0x7eu8], Key::F1) }
    else if i == 29 { (seq![0x1bu8, 0x5bu8, 0x31u8, 0x32u8, 0x7eu8], Key::F2) }
    else if i == 30 { (seq![0x1bu8, 0x5bu8, 0x31u8, 0x33u8, 0x7eu8], Key::F3) }
    else if i == 31 { (seq![0x1bu8, 0x5bu8, 0x31u8, 0x34u8, 0x7eu8], Key::F4) }
    else if i == 32 { (seq![0x1bu8, 0x5bu8, 0x31u8, 0x35u8, 0x7eu8], Key::F5) }
    else if i == 33 { (seq![0x1bu8, 0x5bu8, 0x31u8, 0x37u8, 0x7eu8], Key::F6) }
    else if i == 34 { (seq![0x1bu8, 0x5bu8, 0x31u8, 0x38u8, 0x7eu8], Key::F7) }
    else if i == 35 { (seq![0x1bu8, 0x5bu8, 0x31u8, 0x39u8, 0x7eu8], Key::F8) }
    else if i == 36 { (seq![0x1bu8, 0x5bu8, 0x32u8, 0x30u8, 0x7eu8], Key::F9) }
    else if i == 37 { (seq![0x1bu8, 0x5bu8, 0x32u8, 0x31u8, 0x7eu8], Key::F10) }
    else if i == 38 { (seq![0x1bu8, 0x5bu8, 0x32u8, 0x33u8, 0x7eu8], Key::F11) }
    else if i == 39 { (seq![0x1bu8, 0x5bu8, 0x32u8, 0x34u8, 0x7eu8], Key::F12) }
    else if i == 40 { (seq![0x1bu8, 0x5bu8, 0x32u8, 0x35u8, 0x7eu8], Key::F13) }
    else if i == 41 { (seq![0x1bu8, 0x5bu8, 0x32u8, 0x36u8, 0x7eu8], Key::F14) }
    else if i == 42 { (seq![0x1bu8, 0x5bu8, 0x32u8, 0x38u8, 0x7eu8], Key::F15) }
    else if i == 43 { (seq![0x1bu8, 0x5bu8, 0x32u8, 0x39u8, 0x7eu8], Key::F16) }
    else if i == 44 { (seq![0x1bu8, 0x5bu8, 0x33u8, 0x31u8, 0x7eu8], Key::F17) }
    else if i == 45 { (seq![0x1bu8, 0x5bu8, 0x33u8, 0x32u8, 0x7eu8], Key::F18) }
    else if i == 46 { (seq![0x1bu8, 0x5bu8, 0x33u8, 0x33u8, 0x7eu8], Key::F19) }
    else if i == 47 { (seq![0x1bu8, 0x5bu8, 0x33u8, 0x34u8, 0x7eu8], Key::F20) }
    else if i == 48 { (seq![0x1bu8, 0x5bu8, 0x31u8, 0x3bu8, 0x32u8, 0x41u8], Key::ShiftUp) }
    else if i == 49 { (seq![0x1bu8, 0x5bu8, 0x31u8, 0x3bu8, 0x32u8, 0x42u8], Key::ShiftDown) }
    else if i == 50 { (seq![0x1bu8, 0x5bu8, 0x31u8, 0x3bu8, 0x32u8, 0x43u8], Key::ShiftRight) }
    else if i == 51 { (seq![0x1bu8, 0x5bu8, 0x31u8, 0x3bu8, 0x32u8, 0x44u8], Key::ShiftLeft) }
    else if i == 52 { (seq![0x1bu8, 0x5bu8, 0x31u8, 0x3bu8, 0x35u8, 0x41u8], Key::ControlUp) }
    else if i == 53 { (seq![0x1bu8, 0x5bu8, 0x31u8, 0x3bu8, 0x35u8, 0x42u8], Key::ControlDown) }
    else if i == 54 { (seq![0x1bu8, 0x5bu8, 0x31u8, 0x3bu8, 0x35u8, 0x43u8], Key::ControlRight) }
    else if i == 55 { (seq![0x1bu8, 0x5bu8, 0x31u8, 0x3bu8, 0x35u8, 0x44u8], Key::ControlLeft) }
    else { (Seq::empty(), Key::NotDefined) }
}

/// The key of the first table entry at or after `i` that is exactly `s`.
pub open spec fn table_lookup_from(s: Seq<u8>, i: int) -> Option<Key>
    decreases SEQUENCE_COUNT - i,
{
    if i < 0 || i >= SEQUENCE_COUNT {
        None
    } else if sequence_entry(i).0 == s {
        Some(sequence_entry(i).1)
    } else {
        table_lookup_from(s, i + 1)
    }
}

/// Whether a table entry at or after `i` is longer than `s` and starts
/// with it.
pub open spec fn extends_from(s: Seq<u8>, i: int) -> bool
    decreases SEQUENCE_COUNT - i,
{
    if i < 0 || i >= SEQUENCE_COUNT {
        false
    } else if s.len() < sequence_entry(i).0.len() && s.is_prefix_of(sequence_entry(i).0) {
        true
    } else {
        extends_from(s, i + 1)
    }
}

/// The key that the bytes `s` stand for, as a whole.
pub open spec fn sequence_key(s: Seq<u8>) -> Option<Key> {
    if s.len() == 1 {
        single_byte_key(s[0])
    } else {
        table_lookup_from(s, 0)
    }
}

/// How bytes match the table.
#[derive(Debug, Clone, Copy, PartialEq, Eq, Structural)]
pub enum MatchResult {
    /// The bytes are a whole sequence, for this key
    Exact(Key),
    /// The bytes begin a longer sequence
    Prefix,
    /// The bytes neither are nor begin a sequence
    NoMatch,
}

/// A whole sequence first; otherwise the start of a longer one; otherwise
/// no match.
pub open spec fn match_spec(s: Seq<u8>) -> MatchResult {
    match sequence_key(s) {
        Some(k) => MatchResult::Exact(k),
        None => if extends_from(s, 0) { MatchResult::Prefix } else { MatchResult::NoMatch },
    }
}

/// The longest start of `s`, of at most `n` bytes, that is a whole
/// sequence: its key and length.
pub open spec fn longest_match_spec(s: Seq<u8>, n: int) -> Option<(Key, int)>
    decreases n,
{
    if n <= 0 || n > s.len() {
        None
    } else {
        match sequence_key(s.take(n)) {
            Some(k) => Some((k, n)),
            None => longest_match_spec(s, n - 1),
        }
    }
}

/// The longest whole sequence at the start of some bytes.
#[derive(Debug, Clone, Copy, PartialEq, Eq)]
pub struct LongestMatchResult {
    pub key: Key,
    pub consumed_bytes: usize,
}

/// The table of key sequences, for matching input bytes against it.
pub struct SequenceMatcher {
    entries: Vec<(Vec<u8>, Key)>,
}

fn push_entry(v: &mut Vec<(Vec<u8>, Key)>, bytes: Vec<u8>, key: Key)
    requires
        old(v)@.len() < SEQUENCE_COUNT,
        forall|j: int| 0 <= j < old(v)@.len() ==> (#[trigger] old(v)@[j].0@, old(v)@[j].1) == sequence_entry(j),
        (bytes@, key) == sequence_entry(old(v)@.len() as int),
    ensures
        final(v)@.len() == old(v)@.len() + 1,
        forall|j: int| 0 <= j < final(v)@.len() ==> (#[trigger] final(v)@[j].0@, final(v)@[j].1) == sequence_entry(j),
{
    v.push((bytes, key));
}

fn single_key(b: u8) -> (r: Option<Key>)
    ensures
        r == single_byte_key(b),
{
    if b == 0x00 { Some(Key::ControlSpace) }
    else if b == 0x01 { Some(Key::ControlA) }
    else if b == 0x02 { Some(Key::ControlB) }
    else if b == 0x03 { Some(Key::ControlC) }
    else if b == 0x04 { Some(Key::ControlD) }
    else if b == 0x05 { Some(Key::ControlE) }
    else if b == 0x06 { Some(Key::ControlF) }
    else if b == 0x07 { Some(Key::ControlG) }
    else if b == 0x08 { Some(Key::ControlH) }
    else if b == 0x09 { Some(Key::Tab) }
    else if b == 0x0a { Some(Key::ControlJ) }
    else if b == 0x0b { Some(Key::ControlK) }
    else if b == 0x0c { Some(Key::ControlL) }
    else if b == 0x0d { Some(Key::Enter) }
    else if b == 0x0e { Some(Key::ControlN) }
    else if b == 0x0f { Some(Key::ControlO) }
    else if b == 0x10 { Some(Key::ControlP) }
    else if b == 0x11 { Some(Key::ControlQ) }
    else if b == 0x12 { Some(Key::ControlR) }
    else if b == 0x13 { Some(Key::ControlS) }
    else if b == 0x14 { Some(Key::ControlT) }
    else if b == 0x15 { Some(Key::ControlU) }
    else if b == 0x16 { Some(Key::ControlV) }
    else if b == 0x17 { Some(Key::ControlW) }
    else if b == 0x18 { Some(Key::ControlX) }
    else if b == 0x19 { Some(Key::ControlY) }
    else if b == 0x1a { Some(Key::ControlZ) }
    else if b == 0x1b { Some(Key::Escape) }
    else if b == 0x1c { Some(Key::ControlBackslash) }
    else if b == 0x1d { Some(Key::ControlSquareClose) }
    else if b == 0x1e { Some(Key::ControlCircumflex) }
    else if b == 0x1f { Some(Key::ControlUnderscore) }
    else if b == 0x7f { Some(Key::Backspace) }
    else { None }
}

/// Whether `a` and `b` hold the same bytes.
pub fn bytes_equal(a: &[u8], b: &[u8]) -> (r: bool)
    ensures
        r == (a@ == b@),
{
    if a.len() != b.len() {
        return false;
    }
    let mut i: usize = 0;
    while i < a.len()
        invariant
            a@.len() == b@.len(),
            i <= a@.len(),
            forall|j: int| 0 <= j < i ==> a@[j] == b@[j],
        decreases a.len() - i,
    {
        if a[i] != b[i] {
            return false;
        }
        i = i + 1;
    }
    assert(a@ =~= b@);
    true
}

/// Whether `b` starts with `a`.
pub fn starts_with(b: &[u8], a: &[u8]) -> (r: bool)
    ensures
        r == a@.is_prefix_of(b@),
{
    if a.len() > b.len() {
        return false;
    }
    let mut i: usize = 0;
    while i < a.len()
        invariant
            a@.len() <= b@.len(),
            i <= a@.len(),
            forall|j: int| 0 <= j < i ==> a@[j] == b@[j],
        decreases a.len() - i,
    {
        if a[i] != b[i] {
            assert(a@[i as int] != b@.subrange(0, a@.len() as int)[i as int]);
            return false;
        }
        i = i + 1;
    }
    assert(a@ =~= b@.subrange(0, a@.len() as int));
    true
}

impl SequenceMatcher {
    /// The table, entry by entry.
    pub closed spec fn wf(&self) -> bool {
        &&& self.entries@.len() == SEQUENCE_COUNT
        &&& forall|j: int| 0 <= j < SEQUENCE_COUNT ==> (#[trigger] self.entries@[j].0@, self.entries@[j].1) == sequence_entry(j)
    }

    /// The full table.
    pub fn new() -> (m: Self)
        ensures
            m.wf(),
    {
        let mut v: Vec<(Vec<u8>, Key)> = Vec::new();
        push_entry(&mut v, vec![0x1bu8, 0x5bu8, 0x41u8], Key::Up);
        push_entry(&mut v, vec![0x1bu8, 0x5bu8, 0x42u8], Key::Down);
        push_entry(&mut v, vec![0x1bu8, 0x5bu8, 0x43u8], Key::Right);
        push_entry(&mut v, vec![0x1bu8, 0x5bu8, 0x44u8], Key::Left);
        push_entry(&mut v, vec![0x1bu8, 0x5bu8, 0x48u8], Key::Home);
        push_entry(&mut v, vec![0x1bu8, 0x5bu8, 0x46u8], Key::End);
        push_entry(&mut v, vec![0x1bu8, 0x5bu8, 0x5au8], Key::BackTab);
        push_entry(&mut v, vec![0x1bu8, 0x5bu8, 0x45u8], Key::Ignore);
        push_entry(&mut v, vec![0x1bu8, 0x4fu8, 0x41u8], Key::Up);
        push_entry(&mut v, vec![0x1bu8, 0x4fu8, 0x42u8], Key::Down);
        push_entry(&mut v, vec![0x1bu8, 0x4fu8, 0x43u8], Key::Right);
        push_entry(&mut v, vec![0x1bu8, 0x4fu8, 0x44u8], Key::Left);
        push_entry(&mut v, vec![0x1bu8, 0x4fu8, 0x48u8], Key::Home);
        push_entry(&mut v, vec![0x1bu8, 0x4fu8, 0x46u8], Key::End);
        push_entry(&mut v, vec![0x1bu8, 0x4fu8, 0x50u8], Key::F1);
        push_entry(&mut v, vec![0x1bu8, 0x4fu8, 0x51u8], Key::F2);
        push_entry(&mut v, vec![0x1bu8, 0x4fu8, 0x52u8], Key::F3);
        push_entry(&mut v, vec![0x1bu8, 0x4fu8, 0x53u8], Key::F4);
        push_entry(&mut v, vec![0x1bu8, 0x5bu8, 0x31u8, 0x7eu8], Key::Home);
        push_entry(&mut v, vec![0x1bu8, 0x5bu8, 0x32u8, 0x7eu8], Key::Insert);
        push_entry(&mut v, vec![0x1bu8, 0x5bu8, 0x33u8, 0x7eu8], Key::Delete);
        push_entry(&mut v, vec![0x1bu8, 0x5bu8, 0x34u8, 0x7eu8], Key::End);
        push_entry(&mut v, vec![0x1bu8, 0x5bu8, 0x35u8, 0x7eu8], Key::PageUp);
        push_entry(&mut v, vec![0x1bu8, 0x5bu8, 0x36u8, 0x7eu8], Key::PageDown);
        push_entry(&mut v, vec![0x1bu8, 0x5bu8, 0x37u8, 0x7eu8], Key::Home);
        push_entry(&mut v, vec![0x1bu8, 0x5bu8, 0x38u8, 0x7eu8], Key::End);
        push_entry(&mut v, vec![0x1bu8, 0x5bu8, 0x33u8, 0x3bu8, 0x32u8, 0x7eu8], Key::ShiftDelete);
        push_entry(&mut v, vec![0x1bu8, 0x5bu8, 0x33u8, 0x3bu8, 0x35u8, 0x7eu8], Key::ControlDelete);
        push_entry(&mut v, vec![0x1bu8, 0x5bu8, 0x31u8, 0x31u8, 0x7eu8], Key::F1);
        push_entry(&mut v, vec![0x1bu8, 0x5bu8, 0x31u8, 0x32u8, 0x7eu8], Key::F2);
        push_entry(&mut v, vec![0x1bu8, 0x5bu8, 0x31u8, 0x33u8, 0x7eu8], Key::F3);
        push_entry(&mut v, vec![0x1bu8, 0x5bu8, 0x31u8, 0x34u8, 0x7eu8], Key::F4);
        push_entry(&mut v, vec![0x1bu8, 0x5bu8, 0x31u8, 0x35u8, 0x7eu8], Key::F5);
        push_entry(&mut v, vec![0x1bu8, 0x5bu8, 0x31u8, 0x37u8, 0x7eu8], Key::F6);
        push_entry(&mut v, vec![0x1bu8, 0x5bu8, 0x31u8, 0x38u8, 0x7eu8], Key::F7);
        push_entry(&mut v, vec![0x1bu8, 0x5bu8, 0x31u8, 0x39u8, 0x7eu8], Key::F8);
        push_entry(&mut v, vec![0x1bu8, 0x5bu8, 0x32u8, 0x30u8, 0x7eu8], Key::F9);
        push_entry(&mut v, vec![0x1bu8, 0x5bu8, 0x32u8, 0x31u8, 0x7eu8], Key::F10);
        push_entry(&mut v, vec![0x1bu8, 0x5bu8, 0x32u8, 0x33u8, 0x7eu8], Key::F11);
        push_entry(&mut v, vec![0x1bu8, 0x5bu8, 0x32u8, 0x34u8, 0x7eu8], Key::F12);
        push_entry(&mut v, vec![0x1bu8, 0x5bu8, 0x32u8, 0x35u8, 0x7eu8], Key::F13);
        push_entry(&mut v, vec![0x1bu8, 0x5bu8, 0x32u8, 0x36u8, 0x7eu8], Key::F14);
        push_entry(&mut v, vec![0x1bu8, 0x5bu8, 0x32u8, 0x38u8, 0x7eu8], Key::F15);
        push_entry(&mut v, vec![0x1bu8, 0x5bu8, 0x32u8, 0x39u8, 0x7eu8], Key::F16);
        push_entry(&mut v, vec![0x1bu8, 0x5bu8, 0x33u8, 0x31u8, 0x7eu8], Key::F17);
        push_entry(&mut v, vec![0x1bu8, 0x5bu8, 0x33u8, 0x32u8, 0x7eu8], Key::F18);
        push_entry(&mut v, vec![0x1bu8, 0x5bu8, 0x33u8, 0x33u8, 0x7eu8], Key::F19);
        push_entry(&mut v, vec![0x1bu8, 0x5bu8, 0x33u8, 0x34u8, 0x7eu8], Key::F20);
        push_entry(&mut v, vec![0x1bu8, 0x5bu8, 0x31u8, 0x3bu8, 0x32u8, 0x41u8], Key::ShiftUp);
        push_entry(&mut v, vec![0x1bu8, 0x5bu8, 0x31u8, 0x3bu8, 0x32u8, 0x42u8], Key::ShiftDown);
        push_entry(&mut v, vec![0x1bu8, 0x5bu8, 0x31u8, 0x3bu8, 0x32u8, 0x43u8], Key::ShiftRight);
        push_entry(&mut v, vec![0x1bu8, 0x5bu8, 0x31u8, 0x3bu8, 0x32u8, 0x44u8], Key::ShiftLeft);
        push_entry(&mut v, vec![0x1bu8, 0x5bu8, 0x31u8, 0x3bu8, 0x35u8, 0x41u8], Key::ControlUp);
        push_entry(&mut v, vec![0x1bu8, 0x5bu8, 0x31u8, 0x3bu8, 0x35u8, 0x42u8], Key::ControlDown);
        push_entry(&mut v, vec![0x1bu8, 0x5bu8, 0x31u8, 0x3bu8, 0x35u8, 0x43u8], Key::ControlRight);
        push_entry(&mut v, vec![0x1bu8, 0x5bu8, 0x31u8, 0x3bu8, 0x35u8, 0x44u8], Key::ControlLeft);
        SequenceMatcher { entries: v }
    }

    fn table_lookup(&self, s: &[u8]) -> (r: Option<Key>)
        requires
            self.wf(),
        ensures
            r == table_lookup_from(s@, 0),
    {
        let mut i: usize = 0;
        while i < self.entries.len()
            invariant
                self.wf(),
                i <= SEQUENCE_COUNT,
                table_lookup_from(s@, 0) == table_lookup_from(s@, i as int),
            decreases self.entries.len() - i,
        {
            assert((self.entries@[i as int].0@, self.entries@[i as int].1) == sequence_entry(i as int));
            if bytes_equal(self.entries[i].0.as_slice(), s) {
                return Some(self.entries[i].1);
            }
            i = i + 1;
        }
        None
    }

    fn extends(&self, s: &[u8]) -> (r: bool)
        requires
            self.wf(),
        ensures
            r == extends_from(s@, 0),
    {
        let mut i: usize = 0;
        while i < self.entries.len()
            invariant
                self.wf(),
                i <= SEQUENCE_COUNT,
                extends_from(s@, 0) == extends_from(s@, i as int),
            decreases self.entries.len() - i,
        {
            assert((self.entries@[i as int].0@, self.entries@[i as int].1) == sequence_entry(i as int));
            let e = self.entries[i].0.as_slice();
            if s.len() < e.len() && starts_with(e, s) {
                return true;
            }
            i = i + 1;
        }
        false
    }

    /// The key that `s` stands for as a whole, if any.
    pub fn lookup(&self, s: &[u8]) -> (r: Option<Key>)
        requires
            self.wf(),
        ensures
            r == sequence_key(s@),
    {
        if s.len() == 1 {
            single_key(s[0])
        } else {
            self.table_lookup(s)
        }
    }

    /// How `s` matches the table.
    pub fn match_sequence(&self, s: &[u8]) -> (r: MatchResult)
        requires
            self.wf(),
        ensures
            r == match_spec(s@),
    {
        match self.lookup(s) {
            Some(k) => MatchResult::Exact(k),
            None => if self.extends(s) { MatchResult::Prefix } else { MatchResult::NoMatch },
        }
    }

    /// The longest start of `s` that is a whole sequence.
    pub fn find_longest_match(&self, s: &[u8]) -> (r: Option<LongestMatchResult>)
        requires
            self.wf(),
        ensures
            match longest_match_spec(s@, s@.len() as int) {
                Some((k, n)) => r == Some(LongestMatchResult { key: k, consumed_bytes: n as usize }),
                None => r is None,
            },
    {
        let mut n: usize = s.len();
        while n > 0
            invariant
                self.wf(),
                n <= s@.len(),
                longest_match_spec(s@, s@.len() as int) == longest_match_spec(s@, n as int),
            decreases n,
        {
            let head = vstd::slice::slice_subrange(s, 0, n);
            assert(head@ =~= s@.take(n as int));
            match self.lookup(head) {
                Some(k) => {
                    return Some(LongestMatchResult { key: k, consumed_bytes: n });
                },
                None => {},
            }
            n = n - 1;
        }
        None
    }
}

} // verus!
