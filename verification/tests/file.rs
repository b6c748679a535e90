use uwscr_builtins::args::{Expression, Fopen, NumValue, Object, Value};
use uwscr_builtins::builtin_args::BuiltinFuncArgs;
use uwscr_builtins::file::{fclose, fclose_outcome, fdelline, readini, IniRequest, IniSource};

fn text(s: &str) -> Object {
    Object { value: Value::String(s.to_string()), text: s.to_string(), truthy: !s.is_empty() }
}

fn file(h: u64) -> Object {
    Object { value: Value::Fopen(Fopen(h)), text: String::new(), truthy: true }
}

fn args(objs: Vec<Object>) -> BuiltinFuncArgs {
    let v: Vec<(Option<Expression>, Object)> = objs.into_iter().map(|o| (None, o)).collect();
    BuiltinFuncArgs::new(v, false)
}

fn path_of(s: &IniSource) -> String {
    match s {
        IniSource::Path(p) => p.clone(),
        IniSource::File(_) => panic!("a path was expected"),
    }
}

#[test]
fn readini_requests() {
    match readini(&args(vec![text("sec"), text("key"), text("a.ini")]), "default.ini").ok().unwrap() {
        IniRequest::Value { source, section, key } => {
            assert_eq!(path_of(&source), "a.ini");
            assert_eq!(section, Some("sec".to_string()));
            assert_eq!(key, "key");
        },
        _ => panic!("a value was asked"),
    }
    match readini(&args(vec![text("sec")]), "default.ini").ok().unwrap() {
        IniRequest::Keys { source, section } => {
            assert_eq!(path_of(&source), "default.ini");
            assert_eq!(section, "sec");
        },
        _ => panic!("the keys were asked"),
    }
    match readini(&args(vec![Object::empty(), Object::empty(), file(7)]), "default.ini").ok().unwrap() {
        IniRequest::Sections { source } => assert!(matches!(source, IniSource::File(Fopen(7)))),
        _ => panic!("the sections were asked"),
    }
    match readini(&args(vec![Object::empty(), text("k")]), "d.ini").ok().unwrap() {
        IniRequest::Value { section, .. } => assert_eq!(section, None),
        _ => panic!("a value was asked"),
    }
}

#[test]
fn deleting_lines() {
    assert!(fdelline(&args(vec![file(1)]), 0).ok().unwrap().is_none());
    let r = fdelline(&args(vec![file(1)]), 3).ok().unwrap().unwrap();
    assert!(r.0 == Fopen(1) && r.1 == 3);
    assert!(fdelline(&args(vec![text("x")]), 3).is_err());
}

#[test]
fn closing() {
    let yes = Object { value: Value::Bool(true), text: "True".to_string(), truthy: true };
    let (f, ignore) = fclose(&args(vec![file(2), yes])).ok().unwrap();
    assert!(f == Fopen(2) && ignore);
    assert_eq!(fclose_outcome::<String>(Err("denied".to_string()), true), Ok(false));
    assert_eq!(fclose_outcome::<String>(Err("denied".to_string()), false), Err("denied".to_string()));
    assert_eq!(fclose_outcome::<String>(Ok(true), false), Ok(true));
    let n = Object { value: Value::Num(NumValue::Finite { mantissa: 1, exponent: 0 }), text: "1".to_string(), truthy: true };
    assert!(fclose(&args(vec![n])).is_err());
}
