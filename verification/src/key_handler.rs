//! Turning key events into buffer edits and REPL decisions, through default
//! and custom key bindings.

use vstd::prelude::*;
use vstd::string::*;
use crate::buffer::{
    clamp_pos, delete_after_count, delete_before_count, insert_spec, Buffer, BufferView,
};
use crate::document::{col_of, min_int};
use crate::key::{Key, KeyEvent};
use crate::repl::{KeyAction, KeyBinding, ReplError};
use crate::scan::line_end;
use crate::text::owned;
use crate::unicode::rune_count;

verus! {

broadcast use vstd::string::group_string_axioms;

/// What the REPL should do after a key.
#[derive(Debug, Clone, PartialEq)]
pub enum KeyResult {
    /// Continue normal REPL operation
    Continue,
    /// Execute the current input (user pressed Enter)
    Execute(String),
    /// Exit the REPL (user pressed Ctrl+D or exit key)
    Exit,
    /// Clear the current line (user pressed Ctrl+C)
    ClearLine,
    /// Ignore this key event (no action needed)
    Ignore,
    /// Run the custom action with this id on the buffer, then finish with
    /// `finish_custom_action`
    RunCustom(u64),
}

/// A key result as plain values.
pub enum KeyOutcome {
    Continue,
    Execute(Seq<char>),
    Exit,
    ClearLine,
    Ignore,
    RunCustom(u64),
}

impl KeyResult {
    /// This result as plain values.
    pub open spec fn model(self) -> KeyOutcome {
        match self {
            KeyResult::Continue => KeyOutcome::Continue,
            KeyResult::Execute(s) => KeyOutcome::Execute(s@),
            KeyResult::Exit => KeyOutcome::Exit,
            KeyResult::ClearLine => KeyOutcome::ClearLine,
            KeyResult::Ignore => KeyOutcome::Ignore,
            KeyResult::RunCustom(id) => KeyOutcome::RunCustom(id),
        }
    }
}

/// The action bound to `k` in `v`; the last binding of a key wins.
pub open spec fn lookup(v: Seq<KeyBinding>, k: Key) -> Option<KeyAction>
    decreases v.len(),
{
    if v.len() == 0 {
        None
    } else if v.last().key == k {
        Some(v.last().action)
    } else {
        lookup(v.drop_last(), k)
    }
}

/// The bindings of `v` without those of `key`, in order.
pub open spec fn without(v: Seq<KeyBinding>, key: Key) -> Seq<KeyBinding>
    decreases v.len(),
{
    if v.len() == 0 {
        Seq::empty()
    } else if v.last().key == key {
        without(v.drop_last(), key)
    } else {
        without(v.drop_last(), key).push(v.last())
    }
}

proof fn lemma_lookup_without(v: Seq<KeyBinding>, key: Key, k: Key)
    ensures
        lookup(without(v, key), k) == if k == key { None } else { lookup(v, k) },
    decreases v.len(),
{
    if v.len() > 0 {
        lemma_lookup_without(v.drop_last(), key, k);
        let w = without(v.drop_last(), key);
        if v.last().key != key {
            assert(w.push(v.last()).drop_last() =~= w);
        }
    }
}

/// The built-in bindings: arrows, Home/End, Backspace/Delete, Ctrl+A/E
/// (line start/end), Ctrl+C (clear line), Ctrl+D (exit), Enter (execute).
pub open spec fn default_action(k: Key) -> Option<KeyAction> {
    match k {
        Key::Left => Some(KeyAction::MoveCursorLeft(1)),
        Key::Right => Some(KeyAction::MoveCursorRight(1)),
        Key::Home => Some(KeyAction::MoveToBeginning),
        Key::End => Some(KeyAction::MoveToEnd),
        Key::Backspace => Some(KeyAction::DeleteBackward(1)),
        Key::Delete => Some(KeyAction::DeleteForward(1)),
        Key::ControlA => Some(KeyAction::MoveToBeginning),
        Key::ControlE => Some(KeyAction::MoveToEnd),
        Key::ControlC => Some(KeyAction::ClearLine),
        Key::ControlD => Some(KeyAction::Exit),
        Key::Enter => Some(KeyAction::Execute),
        _ => None,
    }
}

/// The text of the current line of a buffer.
pub open spec fn line_of(b: BufferView) -> Seq<char> {
    b.lines[b.index as int]
}

/// The buffer with its current line replaced.
pub open spec fn with_line(b: BufferView, t: Seq<char>) -> BufferView {
    BufferView { lines: b.lines.update(b.index as int, t), ..b }
}

/// The cursor set to `pos` clamped to the line; a move forgets the
/// preferred column.
pub open spec fn cursor_set(b: BufferView, pos: int) -> BufferView {
    let p = clamp_pos(line_of(b), pos);
    if p == b.cursor { b } else { BufferView { cursor: p as nat, preferred_column: None, ..b } }
}

/// What each action does to a buffer, and what it answers.
pub open spec fn action_effect(a: KeyAction, b: BufferView) -> (KeyOutcome, BufferView) {
    let s = line_of(b);
    let c = clamp_pos(s, b.cursor as int);
    match a {
        KeyAction::MoveCursorLeft(n) => (
            KeyOutcome::Continue,
            BufferView { cursor: (b.cursor - min_int(n as int, col_of(s, c))) as nat, ..b },
        ),
        KeyAction::MoveCursorRight(n) => {
            let m = min_int(n as int, line_end(s, c) - c);
            (KeyOutcome::Continue, BufferView { cursor: if m > 0 { (c + m) as nat } else { b.cursor }, ..b })
        },
        KeyAction::DeleteBackward(n) => {
            let k = delete_before_count(s, b.cursor as int, n as int);
            (KeyOutcome::Continue, if k > 0 {
                BufferView { cursor: (c - k) as nat, ..with_line(b, s.subrange(0, c - k) + s.subrange(c, s.len() as int)) }
            } else {
                b
            })
        },
        KeyAction::DeleteForward(n) => {
            let k = delete_after_count(s, b.cursor as int, n as int);
            (KeyOutcome::Continue, if k > 0 {
                BufferView { cursor: c as nat, ..with_line(b, s.subrange(0, c) + s.subrange(c + k, s.len() as int)) }
            } else {
                b
            })
        },
        KeyAction::MoveToBeginning => (KeyOutcome::Continue, cursor_set(b, 0)),
        KeyAction::MoveToEnd => (KeyOutcome::Continue, cursor_set(b, s.len() as int)),
        KeyAction::ClearLine => (
            KeyOutcome::ClearLine,
            BufferView {
                cursor: 0,
                preferred_column: if b.cursor == 0 { b.preferred_column } else { None },
                ..with_line(b, Seq::empty())
            },
        ),
        KeyAction::Execute => (KeyOutcome::Execute(s), b),
        KeyAction::Exit => (KeyOutcome::Exit, b),
        KeyAction::Custom(id) => (KeyOutcome::RunCustom(id), b),
    }
}

/// The buffer after typing `t` at the cursor.
pub open spec fn typed(b: BufferView, t: Seq<char>) -> BufferView {
    let s = line_of(b);
    BufferView {
        cursor: (clamp_pos(s, b.cursor as int) + t.len()) as nat,
        ..with_line(b, insert_spec(s, b.cursor as int, t, false))
    }
}

/// The view of an optional string.
pub open spec fn opt_string(t: Option<String>) -> Option<Seq<char>> {
    match t {
        Some(s) => Some(s@),
        None => None,
    }
}

/// What a key does: the key becomes the buffer's last key; then a bound
/// action runs; without a binding, terminal reports are ignored, pasted
/// text is inserted, `Ignore` is ignored, and any other key inserts its
/// text when it has some.
pub open spec fn key_effect(action: Option<KeyAction>, key: Key, text: Option<Seq<char>>, b0: BufferView) -> (KeyOutcome, BufferView) {
    let b = BufferView { last_key: Some(key), ..b0 };
    match action {
        Some(a) => action_effect(a, b),
        None => match key {
            Key::CPRResponse | Key::Vt100MouseEvent | Key::WindowsMouseEvent => (KeyOutcome::Ignore, b),
            Key::BracketedPaste => match text {
                Some(t) => (KeyOutcome::Continue, typed(b, t)),
                None => (KeyOutcome::Continue, b),
            },
            Key::Ignore => (KeyOutcome::Ignore, b),
            _ => match text {
                Some(t) => if t.len() > 0 { (KeyOutcome::Continue, typed(b, t)) } else { (KeyOutcome::Ignore, b) },
                None => (KeyOutcome::Ignore, b),
            },
        },
    }
}

/// Handles key events through custom bindings, then default ones.
pub struct KeyHandler {
    custom_bindings: Vec<KeyBinding>,
    default_bindings: Vec<KeyBinding>,
}

/// The index of the binding of `key` that `lookup` finds, if any.
fn find_binding(v: &Vec<KeyBinding>, key: Key) -> (r: Option<usize>)
    ensures
        match r {
            Some(i) => i < v@.len() && v@[i as int].key == key && lookup(v@, key) == Some(v@[i as int].action),
            None => lookup(v@, key) is None,
        },
{
    let mut i = v.len();
    assert(v@.take(i as int) =~= v@);
    while i > 0
        invariant
            i <= v@.len(),
            lookup(v@, key) == lookup(v@.take(i as int), key),
        decreases i,
    {
        assert(v@.take(i as int).drop_last() =~= v@.take(i - 1));
        assert(v@.take(i as int).last() == v@[i - 1]);
        if v[i - 1].key == key {
            return Some(i - 1);
        }
        i = i - 1;
    }
    None
}

/// `v` without the bindings of `key`.
fn remove_key(v: &Vec<KeyBinding>, key: Key) -> (r: Vec<KeyBinding>)
    ensures
        r@ == without(v@, key),
{
    let mut r: Vec<KeyBinding> = Vec::new();
    let mut i: usize = 0;
    while i < v.len()
        invariant
            i <= v@.len(),
            r@ == without(v@.take(i as int), key),
        decreases v.len() - i,
    {
        assert(v@.take(i + 1).drop_last() =~= v@.take(i as int));
        assert(v@.take(i + 1).last() == v@[i as int]);
        if v[i].key != key {
            r.push(v[i]);
        }
        i = i + 1;
    }
    assert(v@.take(i as int) =~= v@);
    r
}

/// The eleven built-in bindings, in order.
pub open spec fn default_bindings_spec() -> Seq<KeyBinding> {
    seq![
        KeyBinding { key: Key::Left, action: KeyAction::MoveCursorLeft(1) },
        KeyBinding { key: Key::Right, action: KeyAction::MoveCursorRight(1) },
        KeyBinding { key: Key::Home, action: KeyAction::MoveToBeginning },
        KeyBinding { key: Key::End, action: KeyAction::MoveToEnd },
        KeyBinding { key: Key::Backspace, action: KeyAction::DeleteBackward(1) },
        KeyBinding { key: Key::Delete, action: KeyAction::DeleteForward(1) },
        KeyBinding { key: Key::ControlA, action: KeyAction::MoveToBeginning },
        KeyBinding { key: Key::ControlE, action: KeyAction::MoveToEnd },
        KeyBinding { key: Key::ControlC, action: KeyAction::ClearLine },
        KeyBinding { key: Key::ControlD, action: KeyAction::Exit },
        KeyBinding { key: Key::Enter, action: KeyAction::Execute },
    ]
}

fn create_default_bindings() -> (v: Vec<KeyBinding>)
    ensures
        v@ == default_bindings_spec(),
        v@.len() == 11,
        forall|i: int, j: int| 0 <= i < j < v@.len() ==> v@[i].key != v@[j].key,
        forall|k: Key| #[trigger] lookup(v@, k) == default_action(k),
{
    let v = vec![
        KeyBinding { key: Key::Left, action: KeyAction::MoveCursorLeft(1) },
        KeyBinding { key: Key::Right, action: KeyAction::MoveCursorRight(1) },
        KeyBinding { key: Key::Home, action: KeyAction::MoveToBeginning },
        KeyBinding { key: Key::End, action: KeyAction::MoveToEnd },
        KeyBinding { key: Key::Backspace, action: KeyAction::DeleteBackward(1) },
        KeyBinding { key: Key::Delete, action: KeyAction::DeleteForward(1) },
        KeyBinding { key: Key::ControlA, action: KeyAction::MoveToBeginning },
        KeyBinding { key: Key::ControlE, action: KeyAction::MoveToEnd },
        KeyBinding { key: Key::ControlC, action: KeyAction::ClearLine },
        KeyBinding { key: Key::ControlD, action: KeyAction::Exit },
        KeyBinding { key: Key::Enter, action: KeyAction::Execute },
    ];
    assert forall|k: Key| #[trigger] lookup(v@, k) == default_action(k) by {
        reveal_with_fuel(lookup, 12);
    }
    v
}

impl KeyHandler {
    /// The custom action bound to `k`, if any.
    pub closed spec fn custom_action(&self, k: Key) -> Option<KeyAction> {
        lookup(self.custom_bindings@, k)
    }

    /// The built-in bindings this handler falls back on, in order.
    pub closed spec fn default_list(&self) -> Seq<KeyBinding> {
        self.default_bindings@
    }

    /// The default action bound to `k`, if any.
    pub closed spec fn default_binding(&self, k: Key) -> Option<KeyAction> {
        lookup(self.default_bindings@, k)
    }

    /// The action `k` triggers: the custom one, else the default one.
    pub open spec fn action_for(&self, k: Key) -> Option<KeyAction> {
        match self.custom_action(k) {
            Some(a) => Some(a),
            None => self.default_binding(k),
        }
    }

    /// A handler with the built-in bindings and these custom ones (for a key
    /// bound twice, the later binding wins).
    pub fn new(custom_bindings: Vec<KeyBinding>) -> (h: Self)
        ensures
            forall|k: Key| #[trigger] h.custom_action(k) == lookup(custom_bindings@, k),
            forall|k: Key| #[trigger] h.default_binding(k) == default_action(k),
            h.default_list() == default_bindings_spec(),
    {
        let mut h = KeyHandler { custom_bindings: Vec::new(), default_bindings: create_default_bindings() };
        let mut i: usize = 0;
        while i < custom_bindings.len()
            invariant
                i <= custom_bindings@.len(),
                forall|k: Key| #[trigger] h.custom_action(k) == lookup(custom_bindings@.take(i as int), k),
                forall|k: Key| #[trigger] h.default_binding(k) == default_action(k),
                h.default_list() == default_bindings_spec(),
            decreases custom_bindings.len() - i,
        {
            let b = custom_bindings[i];
            h.register_binding(b.key, b.action);
            assert forall|k: Key| #[trigger] h.custom_action(k) == lookup(custom_bindings@.take(i + 1), k) by {
                assert(custom_bindings@.take(i + 1).drop_last() =~= custom_bindings@.take(i as int));
            }
            i = i + 1;
        }
        assert(custom_bindings@.take(i as int) =~= custom_bindings@);
        h
    }

    /// Binds `key` to `action`, replacing any custom binding of `key`.
    pub fn register_binding(&mut self, key: Key, action: KeyAction)
        ensures
            forall|k: Key| #[trigger] final(self).custom_action(k) == if k == key {
                Some(action)
            } else {
                old(self).custom_action(k)
            },
            forall|k: Key| #[trigger] final(self).default_binding(k) == old(self).default_binding(k),
            final(self).default_list() == old(self).default_list(),
    {
        let mut v = remove_key(&self.custom_bindings, key);
        v.push(KeyBinding { key, action });
        proof {
            assert forall|k: Key| #[trigger] lookup(v@, k) == if k == key { Some(action) } else { lookup(old(self).custom_bindings@, k) } by {
                assert(v@.drop_last() == without(old(self).custom_bindings@, key));
                lemma_lookup_without(old(self).custom_bindings@, key, k);
            }
        }
        self.custom_bindings = v;
    }

    /// Removes the custom binding of `key`; whether there was one.
    pub fn remove_binding(&mut self, key: Key) -> (removed: bool)
        ensures
            removed == old(self).custom_action(key) is Some,
            forall|k: Key| #[trigger] final(self).custom_action(k) == if k == key {
                None
            } else {
                old(self).custom_action(k)
            },
            forall|k: Key| #[trigger] final(self).default_binding(k) == old(self).default_binding(k),
            final(self).default_list() == old(self).default_list(),
    {
        let existed = find_binding(&self.custom_bindings, key).is_some();
        let v = remove_key(&self.custom_bindings, key);
        proof {
            assert forall|k: Key| #[trigger] lookup(v@, k) == if k == key { None } else { lookup(old(self).custom_bindings@, k) } by {
                lemma_lookup_without(old(self).custom_bindings@, key, k);
            }
        }
        self.custom_bindings = v;
        existed
    }

    /// The action `key` triggers: the custom one, else the default one.
    pub fn get_action(&self, key: Key) -> (r: Option<&KeyAction>)
        ensures
            match r {
                Some(a) => self.action_for(key) == Some(*a),
                None => self.action_for(key) is None,
            },
    {
        match find_binding(&self.custom_bindings, key) {
            Some(i) => Some(&self.custom_bindings[i].action),
            None => match find_binding(&self.default_bindings, key) {
                Some(i) => Some(&self.default_bindings[i].action),
                None => None,
            },
        }
    }

    /// Whether `key` is bound, by a custom or a default binding.
    pub fn has_binding(&self, key: Key) -> (b: bool)
        ensures
            b == (self.action_for(key) is Some),
    {
        find_binding(&self.custom_bindings, key).is_some() || find_binding(&self.default_bindings, key).is_some()
    }

    /// The custom bindings.
    pub fn custom_bindings(&self) -> (r: &Vec<KeyBinding>)
        ensures
            forall|k: Key| #[trigger] lookup(r@, k) == self.custom_action(k),
    {
        &self.custom_bindings
    }

    /// The default bindings.
    pub fn default_bindings(&self) -> (r: &Vec<KeyBinding>)
        ensures
            forall|k: Key| #[trigger] lookup(r@, k) == self.default_binding(k),
            r@ == self.default_list(),
    {
        &self.default_bindings
    }

    /// Applies `action` to the buffer and says what the REPL should do next.
    pub fn execute_action(&self, action: &KeyAction, buffer: &mut Buffer) -> (r: Result<KeyResult, ReplError>)
        requires
            old(buffer).wf(),
        ensures
            final(buffer).wf(),
            r matches Ok(kr) && (kr.model(), final(buffer)@) == action_effect(*action, old(buffer)@),
    {
        match action {
            KeyAction::MoveCursorLeft(count) => {
                buffer.cursor_left(*count);
                Ok(KeyResult::Continue)
            },
            KeyAction::MoveCursorRight(count) => {
                buffer.cursor_right(*count);
                Ok(KeyResult::Continue)
            },
            KeyAction::DeleteBackward(count) => {
                let _ = buffer.delete_before_cursor(*count);
                assert(final(buffer)@.lines =~= action_effect(*action, old(buffer)@).1.lines);
                Ok(KeyResult::Continue)
            },
            KeyAction::DeleteForward(count) => {
                let _ = buffer.delete(*count);
                assert(final(buffer)@.lines =~= action_effect(*action, old(buffer)@).1.lines);
                Ok(KeyResult::Continue)
            },
            KeyAction::MoveToBeginning => {
                buffer.set_cursor_position(0);
                Ok(KeyResult::Continue)
            },
            KeyAction::MoveToEnd => {
                let len = rune_count(buffer.text());
                buffer.set_cursor_position(len);
                Ok(KeyResult::Continue)
            },
            KeyAction::ClearLine => {
                buffer.set_text(String::new());
                buffer.set_cursor_position(0);
                assert(final(buffer)@.lines =~= action_effect(*action, old(buffer)@).1.lines);
                Ok(KeyResult::ClearLine)
            },
            KeyAction::Execute => {
                let text = owned(buffer.text());
                Ok(KeyResult::Execute(text))
            },
            KeyAction::Exit => Ok(KeyResult::Exit),
            KeyAction::Custom(id) => Ok(KeyResult::RunCustom(*id)),
        }
    }

    /// Handles one key: records it as the buffer's last key, then runs its
    /// binding, or inserts the text it carries.
    pub fn handle_key(&self, key_event: KeyEvent, buffer: &mut Buffer) -> (r: Result<KeyResult, ReplError>)
        requires
            old(buffer).wf(),
            old(buffer).text_spec().len() + crate::key::opt_text(key_event.text).len() <= usize::MAX,
        ensures
            final(buffer).wf(),
            r matches Ok(kr) && (kr.model(), final(buffer)@) == key_effect(
                self.action_for(key_event.key),
                key_event.key,
                opt_string(key_event.text),
                old(buffer)@,
            ),
    {
        buffer.set_last_key_stroke(key_event.key);
        match self.get_action(key_event.key) {
            Some(action) => {
                return self.execute_action(action, buffer);
            },
            None => {},
        }
        match key_event.key {
            Key::CPRResponse | Key::Vt100MouseEvent | Key::WindowsMouseEvent => Ok(KeyResult::Ignore),
            Key::BracketedPaste => {
                if let Some(text) = &key_event.text {
                    buffer.insert_text(text.as_str(), false, true);
                    assert(final(buffer)@.lines =~= typed(BufferView { last_key: Some(key_event.key), ..old(buffer)@ }, text@).lines);
                }
                Ok(KeyResult::Continue)
            },
            Key::Ignore => Ok(KeyResult::Ignore),
            _ => {
                if let Some(text) = &key_event.text {
                    if rune_count(text.as_str()) > 0 {
                        buffer.insert_text(text.as_str(), false, true);
                        assert(final(buffer)@.lines =~= typed(BufferView { last_key: Some(key_event.key), ..old(buffer)@ }, text@).lines);
                        return Ok(KeyResult::Continue);
                    }
                }
                Ok(KeyResult::Ignore)
            },
        }
    }
}

impl Default for KeyHandler {
    /// Only the built-in bindings.
    fn default() -> (h: Self)
        ensures
            forall|k: Key| #[trigger] h.custom_action(k) is None,
            forall|k: Key| #[trigger] h.default_binding(k) == default_action(k),
            h.default_list() == default_bindings_spec(),
    {
        Self::new(Vec::new())
    }
}

/// The end of a custom action: once its function has run on the buffer,
/// the REPL goes on, or the function's error is the key's error.
pub fn finish_custom_action(outcome: Result<(), ReplError>) -> (r: Result<KeyResult, ReplError>)
    ensures
        match outcome {
            Ok(()) => r == Ok::<KeyResult, ReplError>(KeyResult::Continue),
            Err(e) => r == Err::<KeyResult, ReplError>(e),
        },
{
    match outcome {
        Ok(()) => Ok(KeyResult::Continue),
        Err(e) => Err(e),
    }
}

} // verus!
