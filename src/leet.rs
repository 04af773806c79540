//! Leet-speak: letters replaced by look-alike digits and symbols.
use vstd::prelude::*;
use crate::casefold::{ascii_lower, is_ascii_text, lower_of, to_lower};
use crate::decorator::DecoratorError;
use crate::text::{push_char, same_text};
use vstd::string::StrSliceExecFns;

verus! {

/// The base table, always applied: one glyph for each of
/// a, b, c, e, g, i, l, o, s, t and z; every other character stands for itself.
pub open spec fn base_glyph(c: char) -> Seq<char> {
    if c == 'a' {
        seq!['4']
    } else if c == 'b' {
        seq!['8']
    } else if c == 'c' {
        seq!['(']
    } else if c == 'e' {
        seq!['3']
    } else if c == 'g' {
        seq!['9']
    } else if c == 'i' || c == 'l' {
        seq!['1']
    } else if c == 'o' {
        seq!['0']
    } else if c == 's' {
        seq!['5']
    } else if c == 't' {
        seq!['7']
    } else if c == 'z' {
        seq!['2']
    } else {
        seq![c]
    }
}

/// The verbose table: a few characters each for d, h, k, m, n, v and w;
/// every other character stands for itself.
pub open spec fn verbose_glyph(c: char) -> Seq<char> {
    if c == 'd' {
        seq!['|', ')']
    } else if c == 'h' {
        seq!['|', '-', '|']
    } else if c == 'k' {
        seq!['|', '<']
    } else if c == 'm' {
        seq!['|', 'v', '|']
    } else if c == 'n' {
        seq!['|', '\\', '|']
    } else if c == 'v' {
        seq!['\\', '/']
    } else if c == 'w' {
        seq!['\\', '/', '\\', '/']
    } else {
        seq![c]
    }
}

/// Each character replaced by its glyph of the base table, all at once.
pub open spec fn base_pass(s: Seq<char>) -> Seq<char>
    decreases s.len(),
{
    if s.len() == 0 {
        s
    } else {
        base_pass(s.drop_last()) + base_glyph(s.last())
    }
}

/// Each character replaced by its glyph of the verbose table, all at once.
pub open spec fn verbose_pass(s: Seq<char>) -> Seq<char>
    decreases s.len(),
{
    if s.len() == 0 {
        s
    } else {
        verbose_pass(s.drop_last()) + verbose_glyph(s.last())
    }
}

/// Leet-speak of already lower-cased text: the base pass, then, in verbose
/// mode, the verbose pass over what the base pass produced.
pub open spec fn leet_of_lower(s: Seq<char>, verbose: bool) -> Seq<char> {
    if verbose {
        verbose_pass(base_pass(s))
    } else {
        base_pass(s)
    }
}

/// The sub-flag that turns on verbose mode.
pub open spec fn verbose_flag() -> Seq<char> {
    seq!['-', 'v']
}

/// The leet-speak decorator.
#[derive(Debug, Clone, Copy, PartialEq, Eq)]
pub struct Leet {
    pub verbose: bool,
}

fn push_base_glyph(out: &mut String, c: char)
    ensures
        final(out)@ == old(out)@ + base_glyph(c),
{
    let g = match c {
        'a' => '4',
        'b' => '8',
        'c' => '(',
        'e' => '3',
        'g' => '9',
        'i' => '1',
        'l' => '1',
        'o' => '0',
        's' => '5',
        't' => '7',
        'z' => '2',
        _ => c,
    };
    push_char(out, g);
    assert(final(out)@ =~= old(out)@ + base_glyph(c));
}

fn push_verbose_glyph(out: &mut String, c: char)
    ensures
        final(out)@ == old(out)@ + verbose_glyph(c),
{
    match c {
        'd' => {
            push_char(out, '|');
            push_char(out, ')');
        },
        'h' => {
            push_char(out, '|');
            push_char(out, '-');
            push_char(out, '|');
        },
        'k' => {
            push_char(out, '|');
            push_char(out, '<');
        },
        'm' => {
            push_char(out, '|');
            push_char(out, 'v');
            push_char(out, '|');
        },
        'n' => {
            push_char(out, '|');
            push_char(out, '\\');
            push_char(out, '|');
        },
        'v' => {
            push_char(out, '\\');
            push_char(out, '/');
        },
        'w' => {
            push_char(out, '\\');
            push_char(out, '/');
            push_char(out, '\\');
            push_char(out, '/');
        },
        _ => push_char(out, c),
    }
    assert(final(out)@ =~= old(out)@ + verbose_glyph(c));
}

/// The base pass over `s`.
fn apply_base(s: &String) -> (r: String)
    ensures
        r@ == base_pass(s@),
{
    let n = s.as_str().unicode_len();
    let mut r = String::new();
    let mut i: usize = 0;
    while i < n
        invariant
            n == s@.len(),
            i <= n,
            r@ == base_pass(s@.take(i as int)),
        decreases n - i,
    {
        let c = s.as_str().get_char(i);
        proof {
            assert(s@.take(i as int + 1).drop_last() =~= s@.take(i as int));
        }
        push_base_glyph(&mut r, c);
        i = i + 1;
    }
    assert(s@.take(n as int) =~= s@);
    r
}

/// The verbose pass over `s`.
fn apply_verbose(s: &String) -> (r: String)
    ensures
        r@ == verbose_pass(s@),
{
    let n = s.as_str().unicode_len();
    let mut r = String::new();
    let mut i: usize = 0;
    while i < n
        invariant
            n == s@.len(),
            i <= n,
            r@ == verbose_pass(s@.take(i as int)),
        decreases n - i,
    {
        let c = s.as_str().get_char(i);
        proof {
            assert(s@.take(i as int + 1).drop_last() =~= s@.take(i as int));
        }
        push_verbose_glyph(&mut r, c);
        i = i + 1;
    }
    assert(s@.take(n as int) =~= s@);
    r
}

impl Leet {
    /// Verbose mode is on when some sub-flag is exactly `-v`; other sub-flags
    /// are ignored.
    pub fn from_args(args: &Vec<String>) -> (r: Leet)
        ensures
            r.verbose == exists|i: int| 0 <= i < args@.len() && (#[trigger] args@[i])@ == verbose_flag(),
    {
        let mut verbose = false;
        let mut i: usize = 0;
        proof {
            reveal_strlit("-v");
            assert("-v"@ =~= verbose_flag());
        }
        while i < args.len()
            invariant
                i <= args@.len(),
                "-v"@ == verbose_flag(),
                verbose == exists|j: int| 0 <= j < i && (#[trigger] args@[j])@ == verbose_flag(),
            decreases args@.len() - i,
        {
            if same_text(args[i].as_str(), "-v") {
                verbose = true;
            }
            i = i + 1;
        }
        Leet { verbose }
    }

    /// Lower-cases the text, then applies the base table and, in verbose
    /// mode, the verbose table to what the base table produced. Within one
    /// table every character is replaced at once, so no glyph is replaced again.
    pub fn decorate(&self, text: &String) -> (r: Result<String, DecoratorError>)
        ensures
            r is Ok,
            r matches Ok(s) ==> s@ == leet_of_lower(lower_of(text@), self.verbose),
            r matches Ok(s) ==> (is_ascii_text(text@) ==> s@ == leet_of_lower(
                ascii_lower(text@),
                self.verbose,
            )),
    {
        let lower = to_lower(text);
        let base = apply_base(&lower);
        if self.verbose {
            Ok(apply_verbose(&base))
        } else {
            Ok(base)
        }
    }
}

} // verus!
