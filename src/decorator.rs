//! The decorators: what each one does to a text.
use vstd::prelude::*;
use crate::casefold::{
    ascii_lower, ascii_upper, is_ascii_text, lower_of, to_lower, to_upper, upper_of,
};
use crate::leet::{leet_of_lower, Leet};
use crate::stupidify::{
    alpha_sort, alternate_ascii, alternate_case, alternate_of, has_distinct_chars, is_sorted_chars, shuffle,
};
use crate::text::{reverse_chars, space_chars, spaced};

verus! {

/// The one way a decoration can fail.
#[derive(Debug, Clone, Copy, PartialEq, Eq)]
pub enum DecoratorError {
    Failed,
}

/// One text transformation of the chain, with its configuration.
#[derive(Debug, Clone, Copy, PartialEq, Eq)]
pub enum Decorator {
    /// Letters in alternating case, the first one upper case.
    Alternate,
    /// The characters in reverse order.
    Reverse,
    /// One space between each two characters, which stay as they are.
    VaporWave,
    /// The characters in a random order.
    Shuffle,
    /// The characters sorted by code point.
    AlphaSort,
    /// Unicode lower case.
    LowerCase,
    /// Unicode upper case.
    UpperCase,
    /// Leet-speak.
    Leet(Leet),
}

/// Reverses the text.
pub struct Reverse;

/// Lower-cases the text.
pub struct LowerCase;

/// Upper-cases the text.
pub struct UpperCase;

impl Reverse {
    pub fn decorate(&self, text: &String) -> (r: Result<String, DecoratorError>)
        ensures
            r is Ok,
            r matches Ok(s) ==> s@ == text@.reverse(),
    {
        Ok(reverse_chars(text))
    }
}

impl LowerCase {
    pub fn decorate(&self, text: &String) -> (r: Result<String, DecoratorError>)
        ensures
            r is Ok,
            r matches Ok(s) ==> s@ == lower_of(text@),
            r matches Ok(s) ==> (is_ascii_text(text@) ==> s@ == ascii_lower(text@)),
    {
        Ok(to_lower(text))
    }
}

impl UpperCase {
    pub fn decorate(&self, text: &String) -> (r: Result<String, DecoratorError>)
        ensures
            r is Ok,
            r matches Ok(s) ==> s@ == upper_of(text@),
            r matches Ok(s) ==> (is_ascii_text(text@) ==> s@ == ascii_upper(text@)),
    {
        Ok(to_upper(text))
    }
}

/// The error of `string_stupidify` as this library's own.
fn from_outside(r: Result<String, string_stupidify::DecorationError>) -> (o: Result<String, DecoratorError>)
    ensures
        o is Ok <==> r is Ok,
        r matches Ok(s) ==> o == Ok::<String, DecoratorError>(s),
{
    match r {
        Ok(s) => Ok(s),
        Err(_) => Err(DecoratorError::Failed),
    }
}

impl Decorator {
    /// `r` is an outcome of this decorator on `t`. Every decorator but
    /// `Shuffle` has exactly one outcome on a given text.
    pub open spec fn decorates(self, t: Seq<char>, r: Seq<char>) -> bool {
        match self {
            Decorator::Alternate => r == alternate_of(t) && (is_ascii_text(t) ==> r
                == alternate_ascii(t, true)),
            Decorator::Reverse => r == t.reverse(),
            Decorator::VaporWave => r == spaced(t),
            Decorator::Shuffle => r.to_multiset() == t.to_multiset() && (has_distinct_chars(t)
                ==> r != t),
            Decorator::AlphaSort => is_sorted_chars(r) && r.to_multiset() == t.to_multiset(),
            Decorator::LowerCase => r == lower_of(t) && (is_ascii_text(t) ==> r == ascii_lower(t)),
            Decorator::UpperCase => r == upper_of(t) && (is_ascii_text(t) ==> r == ascii_upper(t)),
            Decorator::Leet(l) => r == leet_of_lower(lower_of(t), l.verbose) && (is_ascii_text(t)
                ==> r == leet_of_lower(ascii_lower(t), l.verbose)),
        }
    }

    /// Applies this decorator to the text. No decorator of this library fails.
    pub fn decorate(&self, text: &String) -> (r: Result<String, DecoratorError>)
        ensures
            r is Ok,
            r matches Ok(s) ==> self.decorates(text@, s@),
    {
        match self {
            Decorator::Alternate => from_outside(alternate_case(text)),
            Decorator::Reverse => Reverse.decorate(text),
            Decorator::VaporWave => Ok(space_chars(text)),
            Decorator::Shuffle => from_outside(shuffle(text)),
            Decorator::AlphaSort => from_outside(alpha_sort(text)),
            Decorator::LowerCase => LowerCase.decorate(text),
            Decorator::UpperCase => UpperCase.decorate(text),
            Decorator::Leet(l) => l.decorate(text),
        }
    }
}

} // verus!
