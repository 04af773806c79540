//! The decorators that the `string_stupidify` crate provides.
use vstd::prelude::*;
use string_stupidify::decorators::{AlphaSort, Alternate, Shuffle};
use string_stupidify::StringDecorator;
use crate::casefold::{ascii_lower_char, ascii_upper_char, is_ascii_text};

verus! {

#[verifier::external_type_specification]
#[verifier::external_body]
pub struct ExDecorationError(string_stupidify::DecorationError);

/// What `string_stupidify`'s `Alternate` decorator returns for these characters.
pub uninterp spec fn alternate_of(s: Seq<char>) -> Seq<char>;

/// An ASCII letter.
pub open spec fn is_ascii_letter(c: char) -> bool {
    ('a' <= c <= 'z') || ('A' <= c <= 'Z')
}

/// Alternating case on ASCII text: letters take upper and lower case in
/// turn, beginning with upper case when `upper` holds; other characters stay
/// as they are and do not take a turn.
pub open spec fn alternate_ascii(s: Seq<char>, upper: bool) -> Seq<char>
    decreases s.len(),
{
    if s.len() == 0 {
        s
    } else if is_ascii_letter(s[0]) {
        seq![if upper { ascii_upper_char(s[0]) } else { ascii_lower_char(s[0]) }]
            + alternate_ascii(s.drop_first(), !upper)
    } else {
        seq![s[0]] + alternate_ascii(s.drop_first(), upper)
    }
}

/// Ascending by code point.
pub open spec fn is_sorted_chars(s: Seq<char>) -> bool {
    forall|i: int, j: int| 0 <= i <= j < s.len() ==> (s[i] as u32) <= (s[j] as u32)
}

/// Some two characters of `s` differ.
pub open spec fn has_distinct_chars(s: Seq<char>) -> bool {
    exists|i: int, j: int| 0 <= i < s.len() && 0 <= j < s.len() && s[i] != s[j]
}

/// Relies on `string_stupidify::decorators::Alternate`: it never fails, its
/// result depends on the characters alone, and on ASCII text letters take
/// upper and lower case in turn, the first one upper case.
#[verifier::external_body]
pub(crate) fn alternate_case(text: &String) -> (r: Result<String, string_stupidify::DecorationError>)
    ensures
        r is Ok,
        r matches Ok(s) ==> s@ == alternate_of(text@),
        r matches Ok(s) ==> (is_ascii_text(text@) ==> s@ == alternate_ascii(text@, true)),
{
    Alternate.decorate(text)
}

/// Relies on `string_stupidify::decorators::Shuffle`: it never fails, it returns
/// a permutation of the characters drawn at random, and one that differs from
/// the input whenever the input holds two different characters.
#[verifier::external_body]
pub(crate) fn shuffle(text: &String) -> (r: Result<String, string_stupidify::DecorationError>)
    ensures
        r is Ok,
        r matches Ok(s) ==> s@.to_multiset() == text@.to_multiset(),
        r matches Ok(s) ==> (has_distinct_chars(text@) ==> s@ != text@),
{
    Shuffle.decorate(text)
}

/// Relies on `string_stupidify::decorators::AlphaSort`: it never fails and
/// returns the characters sorted by `char`'s order, which is code point order.
#[verifier::external_body]
pub(crate) fn alpha_sort(text: &String) -> (r: Result<String, string_stupidify::DecorationError>)
    ensures
        r is Ok,
        r matches Ok(s) ==> is_sorted_chars(s@),
        r matches Ok(s) ==> s@.to_multiset() == text@.to_multiset(),
{
    AlphaSort.decorate(text)
}

} // verus!
