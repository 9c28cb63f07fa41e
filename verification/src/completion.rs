//! Completion providers: the `Completor` trait, a fixed list of candidates
//! filtered by the word before the cursor, and closures as completers.

use vstd::prelude::*;
use vstd::string::*;
use crate::document::{range_text, word_before_range, Document};
use crate::suggestion::Suggestion;
use crate::text::owned;
use crate::unicode::to_chars;

verus! {

broadcast use vstd::string::group_string_axioms;

/// A source of suggestions for the text at the cursor.
pub trait Completor {
    /// Whether this completer may be asked about `document`.
    spec fn can_complete(&self, document: &Document) -> bool;

    /// Whether `r` is an answer this completer may give for `document`.
    spec fn completes_to(&self, document: &Document, r: Vec<Suggestion>) -> bool;

    /// The suggestions for `document`.
    fn complete(&self, document: &Document) -> (r: Vec<Suggestion>)
        requires
            self.can_complete(document),
        ensures
            self.completes_to(document, r),
    ;
}

impl<F: Fn(&Document) -> Vec<Suggestion>> Completor for F {
    /// A closure may be asked whenever its own precondition holds.
    open spec fn can_complete(&self, document: &Document) -> bool {
        call_requires(*self, (document,))
    }

    /// What the closure's own postcondition allows.
    open spec fn completes_to(&self, document: &Document, r: Vec<Suggestion>) -> bool {
        call_ensures(*self, (document,), r)
    }

    /// Calls the closure; what it returns is the closure's own affair.
    fn complete(&self, document: &Document) -> Vec<Suggestion> {
        self(document)
    }
}

/// The completer of a prompt that has none: it never suggests anything.
pub struct NoCompleter;

impl Completor for NoCompleter {
    open spec fn can_complete(&self, document: &Document) -> bool {
        true
    }

    /// Nothing.
    open spec fn completes_to(&self, document: &Document, r: Vec<Suggestion>) -> bool {
        r@.len() == 0
    }

    fn complete(&self, document: &Document) -> (r: Vec<Suggestion>) {
        Vec::new()
    }
}

/// Completes from a fixed list of candidates: those whose text starts with
/// the word before the cursor, in list order.
pub struct StaticCompleter {
    suggestions: Vec<Suggestion>,
}

/// The candidates of `all` whose text starts with `prefix`, in order.
pub open spec fn filter_prefix(all: Seq<(Seq<char>, Seq<char>)>, prefix: Seq<char>) -> Seq<(Seq<char>, Seq<char>)>
    decreases all.len(),
{
    if all.len() == 0 {
        Seq::empty()
    } else {
        let rest = filter_prefix(all.drop_last(), prefix);
        if prefix.is_prefix_of(all.last().0) {
            rest.push(all.last())
        } else {
            rest
        }
    }
}

/// The suggestions as plain values.
pub open spec fn models(v: Seq<Suggestion>) -> Seq<(Seq<char>, Seq<char>)> {
    v.map_values(|s: Suggestion| s.model())
}

/// Whether `p` is a prefix of `s`.
pub fn starts_with(s: &str, p: &str) -> (b: bool)
    ensures
        b == p@.is_prefix_of(s@),
{
    let a = to_chars(s);
    let q = to_chars(p);
    if q.len() > a.len() {
        return false;
    }
    let mut i: usize = 0;
    while i < q.len()
        invariant
            a@ == s@,
            q@ == p@,
            q@.len() <= a@.len(),
            i <= q@.len(),
            forall|k: int| 0 <= k < i ==> a@[k] == q@[k],
        decreases q.len() - i,
    {
        if a[i] != q[i] {
            return false;
        }
        i = i + 1;
    }
    assert(p@.is_prefix_of(s@)) by {
        assert(s@.subrange(0, p@.len() as int) =~= p@);
    }
    true
}

impl StaticCompleter {
    /// The candidates as plain values.
    pub closed spec fn candidates(&self) -> Seq<(Seq<char>, Seq<char>)> {
        models(self.suggestions@)
    }

    /// A completer over the given candidates.
    pub fn new(suggestions: Vec<Suggestion>) -> (c: Self)
        ensures
            c.candidates() == models(suggestions@),
    {
        StaticCompleter { suggestions }
    }

    /// A completer over candidates with the given texts and no descriptions.
    pub fn from_strings(words: Vec<&str>) -> (c: Self)
        ensures
            c.candidates().len() == words@.len(),
            forall|i: int| 0 <= i < words@.len() ==> #[trigger] c.candidates()[i] == (words@[i]@, Seq::<char>::empty()),
    {
        let mut v: Vec<Suggestion> = Vec::new();
        let mut i: usize = 0;
        while i < words.len()
            invariant
                i <= words@.len(),
                v@.len() == i,
                forall|k: int| 0 <= k < i ==> (#[trigger] v@[k]).model() == (words@[k]@, Seq::<char>::empty()),
            decreases words.len() - i,
        {
            v.push(Suggestion::text_only(words[i]));
            i = i + 1;
        }
        StaticCompleter { suggestions: v }
    }

    /// The candidates whose text starts with `prefix`, in order.
    pub fn filter(&self, prefix: &str) -> (r: Vec<Suggestion>)
        ensures
            models(r@) == filter_prefix(self.candidates(), prefix@),
    {
        let mut r: Vec<Suggestion> = Vec::new();
        let mut i: usize = 0;
        while i < self.suggestions.len()
            invariant
                i <= self.suggestions@.len(),
                models(r@) == filter_prefix(models(self.suggestions@.take(i as int)), prefix@),
            decreases self.suggestions.len() - i,
        {
            let ghost before = r@;
            let ghost all = models(self.suggestions@.take(i + 1));
            assert(all.drop_last() =~= models(self.suggestions@.take(i as int)));
            assert(all.last() == self.suggestions@[i as int].model());
            if starts_with(self.suggestions[i].text.as_str(), prefix) {
                r.push(self.suggestions[i].clone());
                assert(models(r@) =~= models(before).push(self.suggestions@[i as int].model()));
            }
            i = i + 1;
        }
        assert(self.suggestions@.take(i as int) =~= self.suggestions@);
        r
    }
}

impl Completor for StaticCompleter {
    /// A fixed list can always be asked.
    open spec fn can_complete(&self, document: &Document) -> bool {
        true
    }

    /// Exactly the candidates that start with the word before the cursor.
    open spec fn completes_to(&self, document: &Document, r: Vec<Suggestion>) -> bool {
        models(r@) == filter_prefix(
            self.candidates(),
            range_text(document@.text, word_before_range(document@.text, document@.cursor as int, false, None)),
        )
    }

    /// The candidates whose text starts with the word before the cursor.
    fn complete(&self, document: &Document) -> (r: Vec<Suggestion>) {
        let word = document.get_word_before_cursor();
        self.filter(word)
    }
}

} // verus!
