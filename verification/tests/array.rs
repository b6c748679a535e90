use uwscr_builtins::args::{Expression, Object, Value};
use uwscr_builtins::array::{join, reverse};
use uwscr_builtins::builtin_args::BuiltinFuncArgs;
use uwscr_builtins::error::UErrorMessage;

fn text(s: &str) -> Object {
    Object { value: Value::String(s.to_string()), text: s.to_string(), truthy: !s.is_empty() }
}

#[test]
fn joining() {
    let arr = vec![text("a"), text(""), text("c"), text("d")];
    assert_eq!(join(&arr, " ", false, 0, 3).ok(), Some("a  c d".to_string()));
    assert_eq!(join(&arr, ",", true, 0, 3).ok(), Some("a,c,d".to_string()));
    assert_eq!(join(&arr, "-", false, 2, 3).ok(), Some("c-d".to_string()));
    assert_eq!(join(&arr, "-", false, 2, 2).ok(), Some("c".to_string()));
    assert_eq!(join(&arr, "-", false, 3, 2).ok(), Some(String::new()));
    match join(&arr, "-", false, 0, 4) {
        Err(e) => assert!(matches!(e.message(), UErrorMessage::IndexOutOfBounds(4))),
        Ok(_) => panic!("4 is past the end"),
    }
}

#[test]
fn reversing() {
    let arr = Object { value: Value::Array(vec![text("x"), text("y"), text("z")]), text: String::new(), truthy: true };
    let e = Expression(11);
    let a = BuiltinFuncArgs::new(vec![(Some(e), arr)], false);
    let (expr, items) = reverse(&a).ok().unwrap();
    assert!(expr == Some(Expression(11)));
    let texts: Vec<String> = items.iter().map(|o| o.text.clone()).collect();
    assert_eq!(texts, vec!["z", "y", "x"]);
    let not_array = BuiltinFuncArgs::new(vec![(None, text("x"))], false);
    assert!(reverse(&not_array).is_err());
}
