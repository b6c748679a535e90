use uwscr_builtins::args::{Expression, Fopen, NumValue, Object, RemoteObject, TwoTypeArg, UTask, Value};
use uwscr_builtins::builtin_args::{BuiltinFuncArgs, ThreeState};
use uwscr_builtins::error::{builtin_func_error, BuiltinFuncError, UErrorKind, UErrorMessage};

fn text(s: &str) -> Object {
    Object { value: Value::String(s.to_string()), text: s.to_string(), truthy: !s.is_empty() }
}

fn num(m: i64, e: i32) -> Object {
    Object { value: Value::Num(NumValue::Finite { mantissa: m, exponent: e }), text: String::new(), truthy: m != 0 }
}

fn omitted() -> Object {
    Object { value: Value::EmptyParam, text: String::new(), truthy: false }
}

fn args(objs: Vec<Object>) -> BuiltinFuncArgs {
    let v: Vec<(Option<Expression>, Object)> = objs.into_iter().map(|o| (None, o)).collect();
    BuiltinFuncArgs::new(v, false)
}

fn required_at(r: Result<impl Sized, BuiltinFuncError>) -> usize {
    match r {
        Err(e) => match e.message() {
            UErrorMessage::BuiltinArgRequiredAt(n) => n,
            _ => panic!("another error"),
        },
        Ok(_) => panic!("an error was expected"),
    }
}

#[test]
fn defaults_for_missing_and_omitted_arguments() {
    let a = args(vec![text("x"), omitted()]);
    assert_eq!(a.get_as_string(1, Some("d".to_string())).ok(), Some("d".to_string()));
    assert_eq!(a.get_as_string(5, Some("d".to_string())).ok(), Some("d".to_string()));
    assert_eq!(required_at(a.get_as_string(1, None)), 2);
    assert_eq!(required_at(a.get_as_string(3, None)), 4);
    assert_eq!(a.get_as_string(0, None).ok(), Some("x".to_string()));
    assert_eq!(a.get_as_bool(1, Some(true)).ok(), Some(true));
}

#[test]
fn strings_from_any_value() {
    let n = Object { value: Value::Num(NumValue::Finite { mantissa: 5, exponent: 0 }), text: "5".to_string(), truthy: true };
    let a = args(vec![n, Object::empty(), text("")]);
    assert_eq!(a.get_as_string(0, None).ok(), Some("5".to_string()));
    assert_eq!(a.get_as_string_or_empty(1).ok(), Some(None));
    assert_eq!(a.get_as_string_or_empty(2).ok(), Some(Some(String::new())));
    assert_eq!(a.get_as_string_or_empty(9).ok(), Some(None));
    let arr = Object { value: Value::Array(vec![text("p"), text("q")]), text: String::new(), truthy: true };
    let a = args(vec![arr, text("r")]);
    assert_eq!(a.get_as_string_array(0).ok(), Some(vec!["p".to_string(), "q".to_string()]));
    assert_eq!(a.get_as_string_array(1).ok(), Some(vec!["r".to_string()]));
    assert_eq!(a.get_rest_as_string_array(0, 3).ok(), Some(vec!["p".to_string(), "q".to_string(), "r".to_string()]));
    assert_eq!(required_at(a.get_rest_as_string_array(0, 4)), 4);
}

#[test]
fn three_states() {
    let a = args(vec![num(2, 0), num(0, 0), Object { value: Value::Bool(true), text: String::new(), truthy: true }, text("x")]);
    assert!(a.get_as_three_state(0, None).ok() == Some(ThreeState::Other));
    assert!(a.get_as_three_state(1, None).ok() == Some(ThreeState::False));
    assert!(a.get_as_three_state(2, None).ok() == Some(ThreeState::True));
    assert!(a.get_as_three_state(3, None).is_err());
    assert!(ThreeState::Other.as_bool());
    assert!(!ThreeState::False.as_bool());
    assert!(ThreeState::from_bool(true).as_bool());
    assert!(!ThreeState::from_bool(false).as_bool());
    // 2.5 reads as 2
    assert!(ThreeState::from_num(NumValue::Finite { mantissa: 5, exponent: -1 }) == ThreeState::Other);
}

#[test]
fn numbers_and_handles() {
    let a = args(vec![
        num(3, 1),
        num(-7, -1),
        Object { value: Value::Task(UTask(4)), text: String::new(), truthy: true },
        Object { value: Value::RemoteObject(RemoteObject { id: 8, is_promise: false }), text: String::new(), truthy: true },
        Object { value: Value::Fopen(Fopen(3)), text: String::new(), truthy: true },
    ]);
    assert_eq!(a.get_as_i32(0).ok(), Some(6));
    assert_eq!(a.get_as_i32(1).ok(), Some(-3));
    assert!(matches!(a.get_as_task(2).ok(), Some(TwoTypeArg::T(UTask(4)))));
    match a.get_as_task(3) {
        Err(e) => assert!(matches!(e.message(), UErrorMessage::RemoteObjectIsNotPromise)),
        Ok(_) => panic!("not a promise"),
    }
    assert!(a.get_as_fopen(4).ok() == Some(Fopen(3)));
    assert!(matches!(a.get_as_string_or_fopen(4).ok(), Some(TwoTypeArg::U(Fopen(3)))));
}

#[test]
fn taking_arguments() {
    let mut a = BuiltinFuncArgs::new(vec![(Some(Expression(1)), text("a")), (None, text("b")), (None, text("c"))], true);
    assert_eq!(a.len(), 3);
    assert!(a.is_await());
    assert!(a.get_expr(0) == Some(Expression(1)));
    let rest = a.take_argument(1);
    assert_eq!(a.len(), 1);
    assert_eq!(rest.len(), 2);
    assert_eq!(rest[0].1.text, "b");
    assert_eq!(a.item(0).text, "a");
    assert!(matches!(a.item(7).value, Value::Empty));
}

#[test]
fn errors() {
    let e = BuiltinFuncError::new(UErrorMessage::Any("boom".to_string()));
    let u = e.to_uerror("copy".to_string());
    assert!(matches!(u.kind, UErrorKind::BuiltinFunctionError(ref n) if n == "copy"));
    assert!(matches!(u.message, UErrorMessage::Any(ref m) if m == "boom"));
    let e = BuiltinFuncError::new_with_kind(UErrorKind::UserDefinedError, UErrorMessage::Any("x".to_string()));
    assert!(matches!(e.message(), UErrorMessage::Any(ref m) if m == "x"));
    let u = e.to_uerror("f".to_string());
    assert!(matches!(u.kind, UErrorKind::UserDefinedError));
    assert!(matches!(builtin_func_error(UErrorMessage::RemoteObjectIsNotPromise).message(), UErrorMessage::RemoteObjectIsNotPromise));
}
