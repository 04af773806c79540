//! Character-level helpers on strings.
use vstd::prelude::*;
use vstd::string::StrSliceExecFns;

verus! {

/// Relies on `String::push`: the character is appended at the end.
#[verifier::external_body]
pub(crate) fn push_char(s: &mut String, c: char)
    ensures
        final(s)@ == old(s)@.push(c),
{
    s.push(c)
}

/// The characters of `t` in reverse order.
pub fn reverse_chars(t: &String) -> (r: String)
    ensures
        r@ == t@.reverse(),
{
    let n = t.as_str().unicode_len();
    let mut r = String::new();
    let mut i: usize = n;
    while i > 0
        invariant
            n == t@.len(),
            i <= n,
            r@ =~= t@.subrange(i as int, n as int).reverse(),
        decreases i,
    {
        i = i - 1;
        let c = t.as_str().get_char(i);
        push_char(&mut r, c);
    }
    r
}

} // verus!

verus! {

/// Whether the two strings hold the same characters.
pub fn same_text(a: &str, b: &str) -> (r: bool)
    ensures
        r == (a@ == b@),
{
    let n = a.unicode_len();
    let m = b.unicode_len();
    if n != m {
        return false;
    }
    let mut i: usize = 0;
    while i < n
        invariant
            n == a@.len(),
            m == b@.len(),
            n == m,
            i <= n,
            forall|j: int| 0 <= j < i ==> a@[j] == b@[j],
        decreases n - i,
    {
        if a.get_char(i) != b.get_char(i) {
            return false;
        }
        i = i + 1;
    }
    assert(a@ =~= b@);
    true
}

} // verus!

verus! {

/// The characters of `s` with one space between each two neighbours.
pub open spec fn spaced(s: Seq<char>) -> Seq<char>
    decreases s.len(),
{
    if s.len() <= 1 {
        s
    } else {
        spaced(s.drop_last()) + seq![' ', s.last()]
    }
}

/// The characters of `t`, unchanged, with one space between each two.
pub fn space_chars(t: &String) -> (r: String)
    ensures
        r@ == spaced(t@),
{
    let n = t.as_str().unicode_len();
    let mut r = String::new();
    let mut i: usize = 0;
    while i < n
        invariant
            n == t@.len(),
            i <= n,
            r@ == spaced(t@.take(i as int)),
        decreases n - i,
    {
        let c = t.as_str().get_char(i);
        proof {
            assert(t@.take(i as int + 1).drop_last() =~= t@.take(i as int));
        }
        if i > 0 {
            push_char(&mut r, ' ');
        }
        push_char(&mut r, c);
        proof {
            if i == 0 {
                assert(r@ =~= t@.take(1));
            } else {
                assert(r@ =~= spaced(t@.take(i as int)) + seq![' ', c]);
            }
        }
        i = i + 1;
    }
    assert(t@.take(n as int) =~= t@);
    r
}

} // verus!
