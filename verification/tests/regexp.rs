use uwscr_builtins::args::{Expression, NumValue, Object, Value};
use uwscr_builtins::builtin_args::BuiltinFuncArgs;
use uwscr_builtins::error::UErrorMessage;
use uwscr_builtins::regexp::{
    match_regex, newre, regex, regexmatch, replace_regex, test_regex, testre, RegexEnum, RegexMatch, RegexOutcome,
};

fn text(s: &str) -> Object {
    Object { value: Value::String(s.to_string()), text: s.to_string(), truthy: !s.is_empty() }
}

fn num(n: i64) -> Object {
    Object { value: Value::Num(NumValue::Finite { mantissa: n, exponent: 0 }), text: n.to_string(), truthy: n != 0 }
}

fn args(objs: Vec<Object>) -> BuiltinFuncArgs {
    let v: Vec<(Option<Expression>, Object)> = objs.into_iter().map(|o| (None, o)).collect();
    BuiltinFuncArgs::new(v, false)
}

fn whole(m: &RegexMatch) -> String {
    match m {
        RegexMatch::Whole(s) => s.clone(),
        RegexMatch::Groups(_) => panic!("groups"),
    }
}

fn groups(m: &RegexMatch) -> Vec<String> {
    match m {
        RegexMatch::Groups(g) => g.clone(),
        RegexMatch::Whole(_) => panic!("whole"),
    }
}

#[test]
fn newre_flags() {
    assert_eq!(newre("a.c", false, false, false), "(?i)a.c");
    assert_eq!(newre("a.c", true, false, false), "a.c");
    assert_eq!(newre("a.c", false, true, true), "(?ima)a.c");
    assert_eq!(newre("a.c", true, true, false), "(?m)a.c");
}

#[test]
fn testing_a_pattern() {
    assert_eq!(test_regex("abc", "b").ok(), Some(true));
    assert_eq!(test_regex("abc", "^b").ok(), Some(false));
    assert_eq!(test_regex("ABC", "(?i)b").ok(), Some(true));
    match test_regex("abc", "(") {
        Err(e) => match e.message() {
            UErrorMessage::InvalidRegexPattern(p) => assert_eq!(p, "("),
            _ => panic!("wrong error"),
        },
        Ok(_) => panic!("the pattern does not compile"),
    }
}

#[test]
fn matching() {
    let m = match_regex("a1b22c", "\\d+").ok().unwrap().unwrap();
    assert_eq!(m.len(), 2);
    assert_eq!(whole(&m[0]), "1");
    assert_eq!(whole(&m[1]), "22");
    let m = match_regex("a1b2", "([a-z])(\\d)").ok().unwrap().unwrap();
    assert_eq!(groups(&m[0]), vec!["a1", "a", "1"]);
    assert_eq!(groups(&m[1]), vec!["b2", "b", "2"]);
    // a group that takes no part cannot be reported
    assert!(match_regex("b", "(a)|b").ok().unwrap().is_none());
    assert!(match_regex("x", "(").is_err());
}

#[test]
fn replacing() {
    assert_eq!(replace_regex("a1b2", "\\d", "#").ok(), Some("a#b#".to_string()));
    assert_eq!(replace_regex("a1b2", "([a-z])(\\d)", "$2$1").ok(), Some("1a2b".to_string()));
    assert!(replace_regex("a", "[", "x").is_err());
}

#[test]
fn regex_builtin_dispatch() {
    match regex(&args(vec![text("abc"), text("b")])).ok().unwrap() {
        RegexOutcome::Test(b) => assert!(b),
        _ => panic!("a test was asked"),
    }
    match regex(&args(vec![text("a1b2"), text("\\d"), num(RegexEnum::REGEX_MATCH.value())])).ok().unwrap() {
        RegexOutcome::Matches(Some(m)) => assert_eq!(m.len(), 2),
        _ => panic!("matches were asked"),
    }
    match regex(&args(vec![text("a1b2"), text("\\d"), num(0)])).ok().unwrap() {
        RegexOutcome::Test(b) => assert!(b),
        _ => panic!("a test was asked"),
    }
    match regex(&args(vec![text("a1b2"), text("\\d"), text("_")])).ok().unwrap() {
        RegexOutcome::Replaced(s) => assert_eq!(s, "a_b_"),
        _ => panic!("a replacement was asked"),
    }
    let boolean = Object { value: Value::Bool(true), text: "True".to_string(), truthy: true };
    match regex(&args(vec![text("a"), text("a"), boolean])) {
        Err(e) => assert!(matches!(e.message(), UErrorMessage::InvalidArgument(_))),
        Ok(_) => panic!("a boolean is not a request"),
    }
    assert_eq!(testre(&args(vec![text("xyz"), text("y")])).ok(), Some(true));
    assert_eq!(regexmatch(&args(vec![text("xyz"), text("y")])).ok().unwrap().unwrap().len(), 1);
}
