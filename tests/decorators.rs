use bob::decorator::{Decorator, DecoratorError, LowerCase, Reverse, UpperCase};
use bob::leet::Leet;
use bob::pipeline::{decorate_text, with_default};
use bob::text::{reverse_chars, same_text};

fn s(t: &str) -> String {
    t.to_string()
}

fn sorted_chars(t: &str) -> Vec<char> {
    let mut v: Vec<char> = t.chars().collect();
    v.sort();
    v
}

#[test]
fn reverse_twice_gives_back_text() {
    for t in ["", "a", "hello world", "héllo wörld ✓"] {
        let once = Reverse.decorate(&s(t)).unwrap();
        let twice = Reverse.decorate(&once).unwrap();
        assert_eq!(twice, t);
    }
}

#[test]
fn reverse_is_by_character_not_byte() {
    assert_eq!(Reverse.decorate(&s("añb")).unwrap(), "bña");
    assert_eq!(reverse_chars(&s("abc")), "cba");
    assert_eq!(reverse_chars(&s("")), "");
}

#[test]
fn shuffle_keeps_multiset_and_length() {
    let t = "abcdeba";
    let r = Decorator::Shuffle.decorate(&s(t)).unwrap();
    assert_eq!(r.chars().count(), t.chars().count());
    assert_eq!(sorted_chars(&r), sorted_chars(t));
    assert_ne!(r, t);
}

#[test]
fn shuffle_of_identical_characters_is_unchanged() {
    assert_eq!(Decorator::Shuffle.decorate(&s("")).unwrap(), "");
    assert_eq!(Decorator::Shuffle.decorate(&s("aaaa")).unwrap(), "aaaa");
}

#[test]
fn alpha_sort_sorts_by_code_point() {
    assert_eq!(Decorator::AlphaSort.decorate(&s("basbc")).unwrap(), "abbcs");
    assert_eq!(Decorator::AlphaSort.decorate(&s("bA a")).unwrap(), " Aab");
    assert_eq!(Decorator::AlphaSort.decorate(&s("")).unwrap(), "");
}

#[test]
fn alternate_starts_upper_and_skips_non_letters() {
    assert_eq!(Decorator::Alternate.decorate(&s("abcde")).unwrap(), "AbCdE");
    assert_eq!(Decorator::Alternate.decorate(&s("abc.de f34ghi")).unwrap(), "AbC.dE f34GhI");
    assert_eq!(Decorator::Alternate.decorate(&s("x")).unwrap(), "X");
}

#[test]
fn vapor_wave_spaces_characters() {
    assert_eq!(Decorator::VaporWave.decorate(&s("abCD eF")).unwrap(), "a b C D   e F");
    assert_eq!(Decorator::VaporWave.decorate(&s("")).unwrap(), "");
    assert_eq!(Decorator::VaporWave.decorate(&s("a")).unwrap(), "a");
    assert_eq!(Decorator::VaporWave.decorate(&s("ñé")).unwrap(), "ñ é");
}

#[test]
fn lower_and_upper_case() {
    assert_eq!(LowerCase.decorate(&s("HeLLo 1!")).unwrap(), "hello 1!");
    assert_eq!(UpperCase.decorate(&s("HeLLo 1!")).unwrap(), "HELLO 1!");
    assert_eq!(Decorator::LowerCase.decorate(&s("ÄB")).unwrap(), "äb");
    assert_eq!(Decorator::UpperCase.decorate(&s("ß")).unwrap(), "SS");
}

#[test]
fn case_folds_absorb_on_ascii() {
    let t = s("Hello, World 42");
    let up = UpperCase.decorate(&t).unwrap();
    let low = LowerCase.decorate(&t).unwrap();
    assert_eq!(LowerCase.decorate(&up).unwrap(), low);
    assert_eq!(UpperCase.decorate(&low).unwrap(), up);
}

#[test]
fn leet_base_table() {
    let leet = Leet { verbose: false };
    assert_eq!(leet.decorate(&s("cat")).unwrap(), "(47");
    assert_eq!(leet.decorate(&s("ABCEGILOSTZ")).unwrap(), "48(3911057 2".replace(' ', ""));
    assert_eq!(leet.decorate(&s("dog")).unwrap(), "d09");
}

#[test]
fn leet_verbose_table() {
    let leet = Leet { verbose: true };
    assert_eq!(leet.decorate(&s("dog")).unwrap(), "|)09");
    assert_eq!(leet.decorate(&s("hi")).unwrap(), "|-|1");
    assert_eq!(leet.decorate(&s("km")).unwrap(), "|<|v|");
    assert_eq!(leet.decorate(&s("nvw")).unwrap(), "|\\|\\/\\/\\/");
}

#[test]
fn leet_from_args_reads_verbose_flag() {
    assert!(!Leet::from_args(&vec![]).verbose);
    assert!(Leet::from_args(&vec![s("-v")]).verbose);
    assert!(Leet::from_args(&vec![s("-x"), s("-v")]).verbose);
    assert!(!Leet::from_args(&vec![s("-x"), s("-vv")]).verbose);
}

#[test]
fn pipeline_applies_in_order() {
    let ds = vec![Decorator::Reverse, Decorator::UpperCase];
    assert_eq!(decorate_text(&s("hello world"), &ds), Ok(s("DLROW OLLEH")));
    let ds = vec![Decorator::VaporWave, Decorator::Alternate];
    assert_eq!(decorate_text(&s("Hello, World"), &ds), Ok(s("H e L l O ,   w O r L d")));
    let none: Vec<Decorator> = vec![];
    assert_eq!(decorate_text(&s("same"), &none), Ok(s("same")));
    let r: Result<String, DecoratorError> = decorate_text(&s(""), &vec![Decorator::Leet(Leet { verbose: true })]);
    assert_eq!(r, Ok(s("")));
}

#[test]
fn default_is_alternate() {
    assert_eq!(with_default(vec![]), vec![Decorator::Alternate]);
    assert_eq!(with_default(vec![Decorator::Reverse]), vec![Decorator::Reverse]);
}

#[test]
fn same_text_compares_characters() {
    assert!(same_text("--bob", "--bob"));
    assert!(!same_text("--bob", "--bo"));
    assert!(!same_text("ab", "ba"));
    assert!(same_text("", ""));
}
