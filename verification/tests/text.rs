use uwscr_builtins::args::{Expression, NumValue, Object, OtherKind, TwoTypeArg, Value};
use uwscr_builtins::builtin_args::BuiltinFuncArgs;
use uwscr_builtins::error::UErrorMessage;
use uwscr_builtins::names::{type_of, VariableType, WindowClassName};
use uwscr_builtins::text::{
    as_string, asc, chr, fill, format_string, length, lengths, lengthu, newre, parse_usize, token,
    trim, LengthOf,
};
use uwscr_builtins::window::decimal;

fn text(s: &str) -> Object {
    Object { value: Value::String(s.to_string()), text: s.to_string(), truthy: !s.is_empty() }
}

fn args(objs: Vec<Object>) -> BuiltinFuncArgs {
    let v: Vec<(Option<Expression>, Object)> = objs.into_iter().map(|o| (None, o)).collect();
    BuiltinFuncArgs::new(v, false)
}

fn count(r: LengthOf) -> usize {
    match r {
        LengthOf::Count(n) => n,
        _ => panic!("a count was expected"),
    }
}

#[test]
fn characters_and_codes() {
    assert_eq!(chr(0x41), "A");
    assert_eq!(chr(0x3042), "あ");
    assert_eq!(chr(0xD800), "");
    assert_eq!(chr(0x110000), "");
    assert_eq!(asc("あいう"), 0x3042);
    assert_eq!(asc(""), 0);
}

#[test]
fn lengths_of_text() {
    assert_eq!(lengths("aあ😀"), 4);
    assert_eq!(lengthu("aあ😀"), 8);
    assert_eq!(count(length(&args(vec![text("aあ😀")])).ok().unwrap()), 3);
    let arr = Object { value: Value::Array(vec![text("x"), text("y")]), text: String::new(), truthy: true };
    assert_eq!(count(length(&args(vec![arr])).ok().unwrap()), 2);
    let b = Object { value: Value::Bool(false), text: "False".to_string(), truthy: false };
    assert_eq!(count(length(&args(vec![b])).ok().unwrap()), 5);
    assert_eq!(count(length(&args(vec![Object::empty()])).ok().unwrap()), 0);
    let null = Object { value: Value::Null, text: "NULL".to_string(), truthy: false };
    assert_eq!(count(length(&args(vec![null])).ok().unwrap()), 1);
    let n = Object { value: Value::Num(NumValue::Finite { mantissa: 12, exponent: 0 }), text: "12".to_string(), truthy: true };
    assert!(matches!(length(&args(vec![n])).ok().unwrap(), LengthOf::NumberText(_)));
    let module = Object { value: Value::Other(OtherKind::Module, 1), text: String::new(), truthy: true };
    assert!(matches!(length(&args(vec![module])).err().unwrap().message(), UErrorMessage::InvalidArgument(_)));
}

#[test]
fn filling() {
    assert_eq!(fill("ab", 5), "ababa");
    assert_eq!(fill("abc", 2), "abc");
    assert_eq!(fill("", 3), "");
    assert_eq!(fill("xy", 0), "xy");
    assert_eq!(format_string("あい", TwoTypeArg::T("3".to_string())).ok(), Some("あいあ".to_string()));
    assert_eq!(format_string("-", TwoTypeArg::U(4)).ok(), Some("----".to_string()));
    match format_string("-", TwoTypeArg::T("x".to_string())) {
        Err(e) => assert!(matches!(e.message(), UErrorMessage::NotANumber(_))),
        Ok(_) => panic!("not a number"),
    }
}

#[test]
fn parsing_numbers() {
    assert_eq!(parse_usize("123"), Some(123));
    assert_eq!(parse_usize("+7"), Some(7));
    assert_eq!(parse_usize(""), None);
    assert_eq!(parse_usize("+"), None);
    assert_eq!(parse_usize("-1"), None);
    assert_eq!(parse_usize("1a"), None);
    assert_eq!(parse_usize("99999999999999999999999"), None);
    for n in [0i64, 9, 10, 4096, 1234567] {
        assert_eq!(parse_usize(&decimal(n)), Some(n as usize));
    }
}

#[test]
fn builtins_on_strings() {
    let yes = Object { value: Value::Bool(true), text: "True".to_string(), truthy: true };
    assert_eq!(newre(&args(vec![text("x+"), yes])).ok(), Some("x+".to_string()));
    assert_eq!(newre(&args(vec![text("x+")])).ok(), Some("(?i)x+".to_string()));
    let n = Object { value: Value::Num(NumValue::Finite { mantissa: 3, exponent: 0 }), text: "3".to_string(), truthy: true };
    assert_eq!(as_string(&args(vec![n])).ok(), Some("3".to_string()));
}

#[test]
fn type_names() {
    assert_eq!(type_of(&args(vec![text("a")])).ok(), Some("TYPE_STRING".to_string()));
    let inst = Object { value: Value::Other(OtherKind::Instance(true), 9), text: String::new(), truthy: true };
    assert_eq!(type_of(&args(vec![inst])).ok(), Some("TYPE_NOTHING".to_string()));
    let tb = Object { value: Value::Other(OtherKind::ExpandableTB, 9), text: String::new(), truthy: true };
    assert_eq!(type_of(&args(vec![tb])).ok(), Some("TYPE_STRING".to_string()));
    assert_eq!(VariableType::TYPE_HWND.text(), "TYPE_HWND");
    assert_eq!(WindowClassName::CLASS_MSGBOX.text(), "UWSCR.MsgBox");
}

#[test]
fn trim_builtin_reads_its_option() {
    assert_eq!(trim(&args(vec![text("  abc\t")])).ok(), Some("abc".to_string()));
    assert_eq!(trim(&args(vec![text("\u{3000}abc\u{3000}")])).ok(), Some("\u{3000}abc\u{3000}".to_string()));
    let wide = Object { value: Value::Bool(true), text: "True".to_string(), truthy: true };
    assert_eq!(trim(&args(vec![text("\u{3000} abc\u{3000}"), wide])).ok(), Some("abc".to_string()));
    assert_eq!(trim(&args(vec![text("xxabcxy"), text("xy")])).ok(), Some("abc".to_string()));
    assert!(matches!(
        trim(&args(vec![])).err().unwrap().message(),
        UErrorMessage::BuiltinArgRequiredAt(1)
    ));
}

#[test]
fn token_builtin_returns_rest_and_target() {
    let call = BuiltinFuncArgs::new(
        vec![
            (None, text(",")),
            (Some(Expression(7)), text("a,,b,c")),
            (None, Object { value: Value::Bool(true), text: "True".to_string(), truthy: true }),
        ],
        false,
    );
    let (t, rest, target) = token(&call).ok().unwrap();
    assert_eq!(t, "a");
    assert_eq!(rest, "b,c");
    assert!(target == Some(Expression(7)));
    let (t, rest, target) = token(&args(vec![text(";"), text("abc")])).ok().unwrap();
    assert_eq!(t, "abc");
    assert_eq!(rest, "");
    assert!(target.is_none());
    assert!(matches!(
        token(&args(vec![text(",")])).err().unwrap().message(),
        UErrorMessage::BuiltinArgRequiredAt(2)
    ));
}
