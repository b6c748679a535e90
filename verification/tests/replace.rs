use uwscr_builtins::args::{Expression, Object, Value};
use uwscr_builtins::builtin_args::BuiltinFuncArgs;
use uwscr_builtins::replace::{replace, replace_plain};

fn text(s: &str) -> Object {
    Object { value: Value::String(s.to_string()), text: s.to_string(), truthy: !s.is_empty() }
}

fn args(objs: Vec<Object>) -> BuiltinFuncArgs {
    let v: Vec<(Option<Expression>, Object)> = objs.into_iter().map(|o| (None, o)).collect();
    BuiltinFuncArgs::new(v, false)
}

#[test]
fn replaces_without_case() {
    assert_eq!(replace_plain("Hello hello HELLO", "hello", "bye"), "bye bye bye");
    assert_eq!(replace_plain("あいうあい", "あい", "x"), "xうx");
}

#[test]
fn occurrences_are_taken_from_the_back() {
    // from the back, "aaa" holds "aa" once, at its end
    assert_eq!(replace_plain("aaa", "aa", "X"), "aX");
    assert_eq!(replace_plain("aaaa", "aa", "X"), "XX");
}

#[test]
fn empty_pattern_goes_between_characters() {
    assert_eq!(replace_plain("abc", "", "-"), "-a-b-c-");
    assert_eq!(replace_plain("", "", "-"), "-");
}

#[test]
fn text_without_the_pattern_is_unchanged() {
    assert_eq!(replace_plain("abcdef", "xyz", "!"), "abcdef");
    assert_eq!(replace_plain("日本語", "ABC", "!"), "日本語");
}

#[test]
fn replace_builtin() {
    let r = replace(&args(vec![text("a1B1"), text("b"), text("_")])).ok().unwrap();
    assert_eq!(r, "a1_1");
    // a string argument 3 true makes the pattern a regular expression
    let yes = Object { value: Value::Bool(true), text: "True".to_string(), truthy: true };
    let r = replace(&args(vec![text("a1b2"), text("\\d"), text("#"), yes])).ok().unwrap();
    assert_eq!(r, "a#b#");
    // a pattern made by newre is a regular expression
    let re = Object { value: Value::RegEx("[ab]".to_string()), text: "[ab]".to_string(), truthy: true };
    let r = replace(&args(vec![text("a1b2"), re, text("-")])).ok().unwrap();
    assert_eq!(r, "-1-2");
    // the replacement is required
    assert!(replace(&args(vec![text("a"), text("a")])).is_err());
}
