//! Reading the command line: decorator flags, their sub-flags, then the text.
use vstd::prelude::*;
use vstd::string::{StrSliceExecFns, StringExecFns};
use crate::decorator::Decorator;
use crate::leet::{verbose_flag, Leet};
use crate::text::same_text;

verus! {

/// The token starts with `-`.
pub open spec fn starts_with_hyphen(t: Seq<char>) -> bool {
    t.len() >= 1 && t[0] == '-'
}

/// The token starts with `--`: it names a decorator.
pub open spec fn is_long_flag(t: Seq<char>) -> bool {
    t.len() >= 2 && t[0] == '-' && t[1] == '-'
}

/// The number of leading tokens that start with `-`: the flags section.
pub open spec fn flags_len(a: Seq<Seq<char>>) -> int
    decreases a.len(),
{
    if a.len() == 0 {
        0
    } else if flags_len(a.drop_last()) == a.len() - 1 && starts_with_hyphen(a.last()) {
        a.len() as int
    } else {
        flags_len(a.drop_last())
    }
}

/// Some token of `a` is the sub-flag `-v`.
pub open spec fn has_verbose_flag(a: Seq<Seq<char>>) -> bool {
    exists|j: int| 0 <= j < a.len() && a[j] == verbose_flag()
}

/// The decorator that a flag names, if it names one.
pub open spec fn resolve(name: Seq<char>, verbose: bool) -> Option<Decorator> {
    if name == seq!['-', '-', 'b', 'o', 'b'] {
        Some(Decorator::Alternate)
    } else if name == seq!['-', '-', 'r', 'e', 'v'] {
        Some(Decorator::Reverse)
    } else if name == seq!['-', '-', 'v', 'a', 'p'] {
        Some(Decorator::VaporWave)
    } else if name == seq!['-', '-', 'r', 'a', 'n'] {
        Some(Decorator::Shuffle)
    } else if name == seq!['-', '-', 'a', 'b', 'c'] {
        Some(Decorator::AlphaSort)
    } else if name == seq!['-', '-', 'l', 'o', 'w'] {
        Some(Decorator::LowerCase)
    } else if name == seq!['-', '-', 'b', 'i', 'g'] {
        Some(Decorator::UpperCase)
    } else if name == seq!['-', '-', '1', '3', '7'] {
        Some(Decorator::Leet(Leet { verbose }))
    } else {
        None
    }
}

/// What a pending flag adds to the sequence when it is resolved.
pub open spec fn resolved(name: Option<Seq<char>>, verbose: bool) -> Seq<Decorator> {
    match name {
        Some(n) => match resolve(n, verbose) {
            Some(d) => seq![d],
            None => Seq::empty(),
        },
        None => Seq::empty(),
    }
}

/// Some sub-flag given after the last decorator flag of a flags section is
/// `-v`: a sub-flag belongs to the flag pending when it comes.
pub open spec fn pending_verbose(a: Seq<Seq<char>>) -> bool
    decreases a.len(),
{
    if a.len() == 0 {
        false
    } else if is_long_flag(a.last()) {
        false
    } else {
        pending_verbose(a.drop_last()) || a.last() == verbose_flag()
    }
}

/// The last decorator flag of a flags section, still waiting to be resolved.
pub open spec fn pending(a: Seq<Seq<char>>) -> Option<Seq<char>>
    decreases a.len(),
{
    if a.len() == 0 {
        None
    } else if is_long_flag(a.last()) {
        Some(a.last())
    } else {
        pending(a.drop_last())
    }
}

/// The decorators of a flags section resolved before its end: each flag is
/// resolved when the next one comes, with the sub-flags given after it.
pub open spec fn flushed(a: Seq<Seq<char>>) -> Seq<Decorator>
    decreases a.len(),
{
    if a.len() == 0 {
        Seq::empty()
    } else if is_long_flag(a.last()) {
        flushed(a.drop_last()) + resolved(pending(a.drop_last()), pending_verbose(a.drop_last()))
    } else {
        flushed(a.drop_last())
    }
}

/// The decorators that a flags section names, in order.
pub open spec fn section_decorators(a: Seq<Seq<char>>) -> Seq<Decorator> {
    flushed(a) + resolved(pending(a), pending_verbose(a))
}

/// The tokens joined by single spaces.
pub open spec fn join_words(ts: Seq<Seq<char>>) -> Seq<char>
    decreases ts.len(),
{
    if ts.len() == 0 {
        Seq::empty()
    } else if ts.len() == 1 {
        ts[0]
    } else {
        join_words(ts.drop_last()) + seq![' '] + ts.last()
    }
}

/// The decorators that the arguments select.
pub open spec fn parsed_decorators(a: Seq<Seq<char>>) -> Seq<Decorator> {
    section_decorators(a.take(flags_len(a)))
}

/// The text that the arguments give: every token from the first one that
/// does not start with `-`, joined by single spaces.
pub open spec fn parsed_text(a: Seq<Seq<char>>) -> Seq<char> {
    join_words(a.skip(flags_len(a)))
}

fn starts_with_dash(s: &String) -> (r: bool)
    ensures
        r == starts_with_hyphen(s@),
{
    s.as_str().unicode_len() >= 1 && s.as_str().get_char(0) == '-'
}

fn starts_with_two_dashes(s: &String) -> (r: bool)
    ensures
        r == is_long_flag(s@),
{
    s.as_str().unicode_len() >= 2 && s.as_str().get_char(0) == '-' && s.as_str().get_char(1) == '-'
}

/// The decorator that the flag `name` names, given its sub-flags;
/// `None` for a flag that names none.
pub fn decorator_from_args(name: &str, args: &Vec<String>) -> (r: Option<Decorator>)
    ensures
        r == resolve(name@, has_verbose_flag(args.deep_view())),
{
    proof {
        reveal_strlit("--bob");
        reveal_strlit("--rev");
        reveal_strlit("--vap");
        reveal_strlit("--ran");
        reveal_strlit("--abc");
        reveal_strlit("--low");
        reveal_strlit("--big");
        reveal_strlit("--137");
        assert("--bob"@ =~= seq!['-', '-', 'b', 'o', 'b']);
        assert("--rev"@ =~= seq!['-', '-', 'r', 'e', 'v']);
        assert("--vap"@ =~= seq!['-', '-', 'v', 'a', 'p']);
        assert("--ran"@ =~= seq!['-', '-', 'r', 'a', 'n']);
        assert("--abc"@ =~= seq!['-', '-', 'a', 'b', 'c']);
        assert("--low"@ =~= seq!['-', '-', 'l', 'o', 'w']);
        assert("--big"@ =~= seq!['-', '-', 'b', 'i', 'g']);
        assert("--137"@ =~= seq!['-', '-', '1', '3', '7']);
    }
    if same_text(name, "--bob") {
        Some(Decorator::Alternate)
    } else if same_text(name, "--rev") {
        Some(Decorator::Reverse)
    } else if same_text(name, "--vap") {
        Some(Decorator::VaporWave)
    } else if same_text(name, "--ran") {
        Some(Decorator::Shuffle)
    } else if same_text(name, "--abc") {
        Some(Decorator::AlphaSort)
    } else if same_text(name, "--low") {
        Some(Decorator::LowerCase)
    } else if same_text(name, "--big") {
        Some(Decorator::UpperCase)
    } else if same_text(name, "--137") {
        let leet = Leet::from_args(args);
        assert(leet.verbose == has_verbose_flag(args.deep_view())) by {
            if leet.verbose {
                let i = choose|i: int| 0 <= i < args@.len() && (#[trigger] args@[i])@ == verbose_flag();
                assert(args.deep_view()[i] == args@[i]@);
            }
            if has_verbose_flag(args.deep_view()) {
                let j = choose|j: int| 0 <= j < args.deep_view().len() && args.deep_view()[j] == verbose_flag();
                assert(args.deep_view()[j] == args@[j]@);
            }
        }
        Some(Decorator::Leet(leet))
    } else {
        None
    }
}

/// Resolves the pending flag, if there is one, and appends its decorator
/// when it names one.
pub fn push_optional_decorator(decorators: &mut Vec<Decorator>, name: &Option<String>, args: &Vec<String>)
    ensures
        final(decorators)@ == old(decorators)@ + resolved(name.deep_view(), has_verbose_flag(args.deep_view())),
{
    match name {
        Some(dec) => {
            match decorator_from_args(dec.as_str(), args) {
                Some(d) => {
                    decorators.push(d);
                    assert(final(decorators)@ =~= old(decorators)@ + resolved(name.deep_view(), has_verbose_flag(args.deep_view())));
                },
                None => {
                    assert(decorators@ =~= old(decorators)@ + resolved(name.deep_view(), has_verbose_flag(args.deep_view())));
                },
            }
        },
        None => {
            assert(decorators@ =~= old(decorators)@ + resolved(name.deep_view(), has_verbose_flag(args.deep_view())));
        },
    }
}

proof fn lemma_has_verbose_push(a: Seq<Seq<char>>, t: Seq<char>)
    ensures
        has_verbose_flag(a.push(t)) == (has_verbose_flag(a) || t == verbose_flag()),
{
    if has_verbose_flag(a) {
        let j = choose|j: int| 0 <= j < a.len() && a[j] == verbose_flag();
        assert(a.push(t)[j] == a[j]);
    }
    if t == verbose_flag() {
        assert(a.push(t)[a.len() as int] == t);
    }
    if has_verbose_flag(a.push(t)) {
        let j = choose|j: int| 0 <= j < a.push(t).len() && a.push(t)[j] == verbose_flag();
        if j < a.len() {
            assert(a[j] == a.push(t)[j]);
        }
    }
}

/// Splits the arguments (without the program name) into the decorators that
/// their flags select, in order, and the text that follows them.
///
/// Tokens starting with `--` name decorators; tokens starting with a single
/// `-` are sub-flags of the decorator flag before them; the first token
/// that does not start with `-` begins the text, and from there on every
/// token is text. Unknown flags select nothing.
pub fn parse_args(args: &Vec<String>) -> (r: (Vec<Decorator>, String))
    ensures
        r.0@ == parsed_decorators(args.deep_view()),
        r.1@ == parsed_text(args.deep_view()),
{
    let ghost a = args.deep_view();
    let mut in_text = false;
    let mut text = String::new();
    let mut decorators: Vec<Decorator> = Vec::new();
    let mut current_dec: Option<String> = None;
    let mut current_decorator_args: Vec<String> = Vec::new();
    let mut start: usize = 0;
    let n = args.len();
    proof {
        reveal_strlit(" ");
        assert(a.take(0) =~= Seq::<Seq<char>>::empty());
    }
    let mut i: usize = 0;
    while i < n
        invariant
            n == args@.len(),
            a == args.deep_view(),
            a.len() == n,
            i <= n,
            start <= i,
            start <= n,
            " "@ == seq![' '],
            flags_len(a.take(i as int)) == start,
            in_text == (start < i),
            !in_text ==> text@ == Seq::<char>::empty(),
            !in_text ==> decorators@ == flushed(a.take(i as int)),
            !in_text ==> current_dec.deep_view() == pending(a.take(i as int)),
            !in_text ==> has_verbose_flag(current_decorator_args.deep_view())
                == pending_verbose(a.take(i as int)),
            in_text ==> decorators@ == section_decorators(a.take(start as int)),
            in_text ==> text@ == join_words(a.subrange(start as int, i as int)),
        decreases n - i,
    {
        let arg = &args[i];
        let ghost p = a.take(i as int);
        let ghost q = a.take(i as int + 1);
        proof {
            assert(q.drop_last() =~= p);
            assert(q.last() == a[i as int]);
            assert(a[i as int] == arg@);
        }
        if !in_text {
            if starts_with_two_dashes(arg) {
                push_optional_decorator(&mut decorators, &current_dec, &current_decorator_args);
                current_dec = Some(arg.clone());
                current_decorator_args = Vec::new();
                proof {
                    assert(current_decorator_args.deep_view() =~= Seq::<Seq<char>>::empty());
                }
                start = i + 1;
            } else if starts_with_dash(arg) {
                let ghost before = current_decorator_args.deep_view();
                current_decorator_args.push(arg.clone());
                proof {
                    lemma_has_verbose_push(before, arg@);
                    assert(current_decorator_args.deep_view() =~= before.push(arg@));
                }
                start = i + 1;
            } else {
                push_optional_decorator(&mut decorators, &current_dec, &current_decorator_args);
                in_text = true;
                start = i;
            }
        }
        if in_text {
            proof {
                assert(a.subrange(start as int, i as int + 1).drop_last() =~= a.subrange(start as int, i as int));
            }
            if i > start {
                text.append(" ");
            }
            text.append(arg.as_str());
            proof {
                if i == start {
                    assert(a.subrange(start as int, i as int + 1) =~= seq![a[start as int]]);
                }
            }
        }
        i = i + 1;
    }
    if !in_text {
        push_optional_decorator(&mut decorators, &current_dec, &current_decorator_args);
    }
    proof {
        assert(a.take(n as int) =~= a);
        assert(a.skip(start as int) =~= a.subrange(start as int, n as int));
        if !in_text {
            assert(a.skip(n as int) =~= Seq::<Seq<char>>::empty());
        }
    }
    (decorators, text)
}

} // verus!
