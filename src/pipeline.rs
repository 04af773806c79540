//! Applying a chain of decorators, left to right.
use vstd::prelude::*;
use crate::args::{parse_args, parsed_decorators, parsed_text};
use crate::decorator::{Decorator, DecoratorError};

verus! {

/// `steps` records a run of `ds`: `steps[0]` is the input, and each decorator
/// turns the step before it into the step after it.
pub open spec fn is_run(ds: Seq<Decorator>, steps: Seq<Seq<char>>) -> bool {
    &&& steps.len() == ds.len() + 1
    &&& forall|i: int| 0 <= i < ds.len() ==> (#[trigger] ds[i]).decorates(steps[i], steps[i + 1])
}

/// `r` is an outcome of applying `ds` to `t` in order.
pub open spec fn chain_outcome(ds: Seq<Decorator>, t: Seq<char>, r: Seq<char>) -> bool {
    exists|steps: Seq<Seq<char>>| is_run(ds, steps) && steps[0] == t && steps.last() == r
}

/// The sequence that is run: the one given, or `Alternate` alone when none is.
pub open spec fn or_default(ds: Seq<Decorator>) -> Seq<Decorator> {
    if ds.len() == 0 {
        seq![Decorator::Alternate]
    } else {
        ds
    }
}

/// The decorators given, or `Alternate` alone when none is.
pub fn with_default(decorators: Vec<Decorator>) -> (r: Vec<Decorator>)
    ensures
        r@ == or_default(decorators@),
{
    if decorators.len() == 0 {
        let r = vec![Decorator::Alternate];
        assert(r@ =~= seq![Decorator::Alternate]);
        r
    } else {
        decorators
    }
}

/// Feeds the text through the decorators in order, each one's output being
/// the next one's input; the first failure ends the run and is returned.
pub fn decorate_text(text: &String, decorators: &Vec<Decorator>) -> (r: Result<String, DecoratorError>)
    ensures
        r is Ok,
        r matches Ok(s) ==> chain_outcome(decorators@, text@, s@),
{
    let mut s = text.clone();
    let mut i: usize = 0;
    let ghost mut steps: Seq<Seq<char>> = seq![text@];
    while i < decorators.len()
        invariant
            i <= decorators@.len(),
            steps.len() == i + 1,
            steps[0] == text@,
            steps.last() == s@,
            forall|j: int| 0 <= j < i ==> (#[trigger] decorators@[j]).decorates(steps[j], steps[j + 1]),
        decreases decorators@.len() - i,
    {
        match decorators[i].decorate(&s) {
            Ok(next) => {
                proof {
                    steps = steps.push(next@);
                }
                s = next;
            },
            Err(e) => {
                return Err(e);
            },
        }
        i = i + 1;
    }
    assert(is_run(decorators@, steps));
    Ok(s)
}

/// Parses the arguments (without the program name) and runs the selected
/// decorators, or `Alternate` when none is selected, on the text they give.
pub fn decorate_args(args: &Vec<String>) -> (r: Result<String, DecoratorError>)
    ensures
        r is Ok,
        r matches Ok(s) ==> chain_outcome(
            or_default(parsed_decorators(args.deep_view())),
            parsed_text(args.deep_view()),
            s@,
        ),
{
    let (decorators, text) = parse_args(args);
    let decorators = with_default(decorators);
    decorate_text(&text, &decorators)
}

} // verus!
