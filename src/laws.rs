//! Laws that the decorators and the argument parser obey.
use vstd::prelude::*;
use crate::args::{flags_len, join_words, parsed_decorators, parsed_text, starts_with_hyphen};
use crate::casefold::{ascii_lower, ascii_upper, is_ascii_text};
use crate::decorator::Decorator;

verus! {

/// Reversing twice gives back the text.
pub proof fn reverse_is_involution(t: Seq<char>)
    ensures
        t.reverse().reverse() == t,
{
    assert(t.reverse().reverse() =~= t);
}

/// A shuffle keeps every character as often as it was, and so the length.
pub proof fn shuffle_keeps_characters(t: Seq<char>, r: Seq<char>)
    requires
        Decorator::Shuffle.decorates(t, r),
    ensures
        r.to_multiset() == t.to_multiset(),
        r.len() == t.len(),
{
    t.to_multiset_ensures();
    r.to_multiset_ensures();
}

/// Sorting gives the characters in ascending code point order, each as
/// often as it was, and so the length.
pub proof fn sort_orders_characters(t: Seq<char>, r: Seq<char>)
    requires
        Decorator::AlphaSort.decorates(t, r),
    ensures
        forall|i: int, j: int| 0 <= i <= j < r.len() ==> (r[i] as u32) <= (r[j] as u32),
        r.to_multiset() == t.to_multiset(),
        r.len() == t.len(),
{
    t.to_multiset_ensures();
    r.to_multiset_ensures();
}

/// On ASCII text, lower-casing after upper-casing is lower-casing, and
/// upper-casing after lower-casing is upper-casing.
pub proof fn case_folds_absorb(t: Seq<char>)
    requires
        is_ascii_text(t),
    ensures
        is_ascii_text(ascii_upper(t)),
        is_ascii_text(ascii_lower(t)),
        ascii_lower(ascii_upper(t)) == ascii_lower(t),
        ascii_upper(ascii_lower(t)) == ascii_upper(t),
{
    assert(ascii_lower(ascii_upper(t)) =~= ascii_lower(t));
    assert(ascii_upper(ascii_lower(t)) =~= ascii_upper(t));
}

proof fn flags_len_zero(a: Seq<Seq<char>>)
    requires
        a.len() > 0,
        !starts_with_hyphen(a[0]),
    ensures
        flags_len(a) == 0,
    decreases a.len(),
{
    if a.len() > 1 {
        assert(a.drop_last()[0] == a[0]);
        flags_len_zero(a.drop_last());
    } else {
        assert(a.last() == a[0]);
        assert(flags_len(a.drop_last()) == 0);
    }
}

/// When the first argument does not start with `-`, no decorator is
/// selected and every argument, whatever it starts with, is text.
pub proof fn leading_text_is_all_text(a: Seq<Seq<char>>)
    requires
        a.len() > 0,
        !starts_with_hyphen(a[0]),
    ensures
        parsed_decorators(a) == Seq::<Decorator>::empty(),
        parsed_text(a) == join_words(a),
{
    flags_len_zero(a);
    assert(a.take(0) =~= Seq::<Seq<char>>::empty());
    assert(a.skip(0) =~= a);
    assert(parsed_decorators(a) =~= Seq::<Decorator>::empty());
}

} // verus!
