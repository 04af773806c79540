use bob::args::{decorator_from_args, parse_args, push_optional_decorator};
use bob::decorator::Decorator;
use bob::leet::Leet;
use bob::pipeline::decorate_args;

fn args(ts: &[&str]) -> Vec<String> {
    ts.iter().map(|t| t.to_string()).collect()
}

#[test]
fn flags_then_text() {
    let (ds, text) = parse_args(&args(&["--rev", "--big", "hello", "world"]));
    assert_eq!(ds, vec![Decorator::Reverse, Decorator::UpperCase]);
    assert_eq!(text, "hello world");
    assert_eq!(decorate_args(&args(&["--rev", "--big", "hello", "world"])), Ok("DLROW OLLEH".to_string()));
}

#[test]
fn leet_with_verbose_sub_flag() {
    let (ds, text) = parse_args(&args(&["--137", "-v", "hi"]));
    assert_eq!(ds, vec![Decorator::Leet(Leet { verbose: true })]);
    assert_eq!(text, "hi");
    assert_eq!(decorate_args(&args(&["--137", "-v", "hi"])), Ok("|-|1".to_string()));
}

#[test]
fn no_flags_defaults_to_alternate() {
    let (ds, text) = parse_args(&args(&["x"]));
    assert!(ds.is_empty());
    assert_eq!(text, "x");
    assert_eq!(decorate_args(&args(&["x"])), Ok("X".to_string()));
}

#[test]
fn unknown_flag_is_dropped() {
    let (ds, text) = parse_args(&args(&["--zzz", "a"]));
    assert!(ds.is_empty());
    assert_eq!(text, "a");
    assert_eq!(decorate_args(&args(&["--zzz", "a"])), Ok("A".to_string()));
}

#[test]
fn hyphen_tokens_after_text_are_text() {
    let (ds, text) = parse_args(&args(&["hello", "-x"]));
    assert!(ds.is_empty());
    assert_eq!(text, "hello -x");
    let (ds, text) = parse_args(&args(&["--low", "A", "--big", "B"]));
    assert_eq!(ds, vec![Decorator::LowerCase]);
    assert_eq!(text, "A --big B");
}

#[test]
fn flags_without_text() {
    let (ds, text) = parse_args(&args(&["--rev"]));
    assert_eq!(ds, vec![Decorator::Reverse]);
    assert_eq!(text, "");
    let (ds, text) = parse_args(&args(&[]));
    assert!(ds.is_empty());
    assert_eq!(text, "");
}

#[test]
fn every_flag_is_recognized() {
    let (ds, text) = parse_args(&args(&[
        "--bob", "--rev", "--vap", "--ran", "--abc", "--low", "--big", "--137", "t",
    ]));
    assert_eq!(
        ds,
        vec![
            Decorator::Alternate,
            Decorator::Reverse,
            Decorator::VaporWave,
            Decorator::Shuffle,
            Decorator::AlphaSort,
            Decorator::LowerCase,
            Decorator::UpperCase,
            Decorator::Leet(Leet { verbose: false }),
        ]
    );
    assert_eq!(text, "t");
}

#[test]
fn sub_flags_belong_to_the_flag_before_them() {
    let (ds, _) = parse_args(&args(&["-v", "--137", "x"]));
    assert_eq!(ds, vec![Decorator::Leet(Leet { verbose: false })]);
    let (ds, text) = parse_args(&args(&["--rev", "-v", "--137", "x"]));
    assert_eq!(ds, vec![Decorator::Reverse, Decorator::Leet(Leet { verbose: false })]);
    assert_eq!(text, "x");
    let (ds, _) = parse_args(&args(&["--137", "-v", "--rev", "x"]));
    assert_eq!(ds, vec![Decorator::Leet(Leet { verbose: true }), Decorator::Reverse]);
    let (ds, _) = parse_args(&args(&["--137", "-q", "-v", "x"]));
    assert_eq!(ds, vec![Decorator::Leet(Leet { verbose: true })]);
    let (ds, _) = parse_args(&args(&["--137", "-q", "x"]));
    assert_eq!(ds, vec![Decorator::Leet(Leet { verbose: false })]);
}

#[test]
fn registry_lookup() {
    assert_eq!(decorator_from_args("--vap", &vec![]), Some(Decorator::VaporWave));
    assert_eq!(decorator_from_args("--137", &args(&["-v"])), Some(Decorator::Leet(Leet { verbose: true })));
    assert_eq!(decorator_from_args("--zzz", &vec![]), None);
    assert_eq!(decorator_from_args("-bob", &vec![]), None);
}

#[test]
fn push_only_recognized_decorators() {
    let mut ds = vec![Decorator::Reverse];
    push_optional_decorator(&mut ds, &None, &vec![]);
    assert_eq!(ds, vec![Decorator::Reverse]);
    push_optional_decorator(&mut ds, &Some("--nope".to_string()), &vec![]);
    assert_eq!(ds, vec![Decorator::Reverse]);
    push_optional_decorator(&mut ds, &Some("--abc".to_string()), &vec![]);
    assert_eq!(ds, vec![Decorator::Reverse, Decorator::AlphaSort]);
}
