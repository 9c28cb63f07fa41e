//! Completion suggestions: the text to insert and a description of it.

use vstd::prelude::*;
use vstd::string::*;
use crate::text::owned;

verus! {

broadcast use vstd::string::group_string_axioms;

/// Something that can become a `String`: a string slice or a `String`.
pub trait IntoText {
    /// The text this value stands for.
    spec fn text_view(&self) -> Seq<char>;

    /// The text as an owned string.
    fn into_text(self) -> (s: String)
        ensures
            s@ == self.text_view(),
    ;
}

impl<'a> IntoText for &'a str {
    open spec fn text_view(&self) -> Seq<char> {
        (*self)@
    }

    fn into_text(self) -> (s: String) {
        owned(self)
    }
}

impl IntoText for String {
    open spec fn text_view(&self) -> Seq<char> {
        self@
    }

    fn into_text(self) -> (s: String) {
        self
    }
}

/// A completion suggestion with text and description.
#[derive(Debug, PartialEq, Eq)]
pub struct Suggestion {
    /// The text inserted when this suggestion is chosen.
    pub text: String,
    /// What the suggestion stands for, for the user.
    pub description: String,
}

impl Suggestion {
    /// The suggestion as plain values: (text, description).
    pub open spec fn model(&self) -> (Seq<char>, Seq<char>) {
        (self.text@, self.description@)
    }

    /// A suggestion with the given text and description.
    pub fn new<T: IntoText, D: IntoText>(text: T, description: D) -> (s: Self)
        ensures
            s.text@ == text.text_view(),
            s.description@ == description.text_view(),
    {
        Suggestion { text: text.into_text(), description: description.into_text() }
    }

    /// A suggestion with the given text and an empty description.
    pub fn text_only<T: IntoText>(text: T) -> (s: Self)
        ensures
            s.text@ == text.text_view(),
            s.description@ == Seq::<char>::empty(),
    {
        Suggestion { text: text.into_text(), description: String::new() }
    }
}

impl Clone for Suggestion {
    fn clone(&self) -> (s: Self)
        ensures
            s.model() == self.model(),
    {
        Suggestion { text: self.text.clone(), description: self.description.clone() }
    }
}

impl<'a> From<&'a str> for Suggestion {
    /// Text only, no description.
    fn from(text: &'a str) -> (s: Self)
        ensures
            s.text@ == text@,
            s.description@ == Seq::<char>::empty(),
    {
        Suggestion::text_only(text)
    }
}

impl<'a> vstd::std_specs::convert::FromSpecImpl<&'a str> for Suggestion {
    /// The new description is a fresh empty string, which no spec value
    /// names, so a conversion is described by the `ensures` of `from`.
    open spec fn obeys_from_spec() -> bool {
        false
    }

    open spec fn from_spec(v: &'a str) -> Self {
        choose|s: Suggestion| s.text@ == v@ && s.description@ == Seq::<char>::empty()
    }
}

impl From<String> for Suggestion {
    /// Text only, no description.
    fn from(text: String) -> (s: Self)
        ensures
            s.text@ == text@,
            s.description@ == Seq::<char>::empty(),
    {
        Suggestion::text_only(text)
    }
}

impl vstd::std_specs::convert::FromSpecImpl<String> for Suggestion {
    /// The new description is a fresh empty string, which no spec value
    /// names, so a conversion is described by the `ensures` of `from`.
    open spec fn obeys_from_spec() -> bool {
        false
    }

    open spec fn from_spec(v: String) -> Self {
        choose|s: Suggestion| s.text@ == v@ && s.description@ == Seq::<char>::empty()
    }
}

impl From<(String, String)> for Suggestion {
    /// (text, description).
    fn from(pair: (String, String)) -> (s: Self) {
        let (text, description) = pair;
        Suggestion { text, description }
    }
}

impl vstd::std_specs::convert::FromSpecImpl<(String, String)> for Suggestion {
    open spec fn obeys_from_spec() -> bool {
        true
    }

    open spec fn from_spec(v: (String, String)) -> Self {
        Suggestion { text: v.0, description: v.1 }
    }
}

impl<'a, 'b> From<(&'a str, &'b str)> for Suggestion {
    /// (text, description).
    fn from(pair: (&'a str, &'b str)) -> (s: Self)
        ensures
            s.text@ == pair.0@,
            s.description@ == pair.1@,
    {
        Suggestion::new(pair.0, pair.1)
    }
}

impl<'a, 'b> vstd::std_specs::convert::FromSpecImpl<(&'a str, &'b str)> for Suggestion {
    /// Text and description are fresh copies, which no spec value names, so
    /// a conversion is described by the `ensures` of `from`.
    open spec fn obeys_from_spec() -> bool {
        false
    }

    open spec fn from_spec(v: (&'a str, &'b str)) -> Self {
        choose|s: Suggestion| s.text@ == v.0@ && s.description@ == v.1@
    }
}

} // verus!
