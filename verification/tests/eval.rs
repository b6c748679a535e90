use uwscr_builtins::eval::{array_bounds, chunks, define_array, total_size};
use uwscr_builtins::args::Function;
use uwscr_builtins::call::{builtin_call_check, call_plan, struct_call_check, CallPlan};
use uwscr_builtins::member::{member_read, member_write, MemberRead, MemberTarget, MemberWrite};
use uwscr_builtins::args::{NumValue, Object, OtherKind, Value};
use uwscr_builtins::error::{UErrorKind, UErrorMessage};
use uwscr_builtins::eval::{index_value, update_array_object, Indexed, KeyKind, WriteTarget};

fn num(n: i64) -> Object {
    Object { value: Value::Num(NumValue::Finite { mantissa: n, exponent: 0 }), text: n.to_string(), truthy: n != 0 }
}

fn text(s: &str) -> Object {
    Object { value: Value::String(s.to_string()), text: s.to_string(), truthy: !s.is_empty() }
}

fn array(v: Vec<Object>) -> Object {
    Object { value: Value::Array(v), text: String::new(), truthy: true }
}

fn as_num(o: &Object) -> i64 {
    match o.value {
        Value::Num(NumValue::Finite { mantissa, exponent: 0 }) => mantissa,
        _ => panic!("a whole number was expected"),
    }
}

#[test]
fn indexing_arrays_and_bytes() {
    let a = array(vec![num(10), num(20)]);
    match index_value(&a, &num(1), None).ok().unwrap() {
        Indexed::Value(o) => assert_eq!(as_num(&o), 20),
        _ => panic!("an element was expected"),
    }
    let e = index_value(&a, &num(2), None).err().unwrap();
    assert!(matches!(e.kind, UErrorKind::EvaluatorError));
    assert!(matches!(e.message, UErrorMessage::IndexOutOfRange(2)));
    assert!(matches!(index_value(&a, &num(-1), None).err().unwrap().message, UErrorMessage::IndexOutOfRange(-1)));
    assert!(matches!(index_value(&a, &text("x"), None).err().unwrap().message, UErrorMessage::InvalidIndex(_)));
    assert!(matches!(index_value(&a, &num(0), Some(&num(1))).err().unwrap().message, UErrorMessage::InvalidKeyOrIndex(_, _)));
    let b = Object { value: Value::ByteArray(vec![7, 8]), text: String::new(), truthy: true };
    assert!(matches!(index_value(&b, &num(1), None).ok().unwrap(), Indexed::Byte(8)));
    let t = Object { value: Value::HashTbl(vec![], vec![]), text: String::new(), truthy: true };
    match index_value(&t, &text("k"), None).ok().unwrap() {
        Indexed::Table { key, position, option } => {
            assert!(key.kind == KeyKind::Text);
            assert_eq!(key.text, "k");
            assert!(position.is_none());
            assert!(option.is_none());
        }
        _ => panic!("a table read was expected"),
    }
    let com = Object { value: Value::Other(OtherKind::ComObject, 5), text: String::new(), truthy: true };
    assert!(matches!(index_value(&com, &num(0), None).ok().unwrap(), Indexed::Com(5, _)));
    assert!(index_value(&num(3), &num(0), None).is_err());
}

#[test]
fn assigning_by_index() {
    // a[1][0] = 99 with a = [1, [2, 3]]
    let a = array(vec![num(1), array(vec![num(2), num(3)])]);
    let r = update_array_object(a, vec![num(0), num(1)], &num(99)).ok().unwrap();
    assert!(r.update);
    assert!(r.pending.is_none());
    match r.value.unwrap().value {
        Value::Array(v) => match &v[1].value {
            Value::Array(w) => {
                assert_eq!(as_num(&w[0]), 99);
                assert_eq!(as_num(&w[1]), 3);
            }
            _ => panic!("a nested array was expected"),
        },
        _ => panic!("an array was expected"),
    }
    let none = update_array_object(num(5), vec![], &num(1)).ok().unwrap();
    assert!(none.update && none.value.is_none());
    let e = update_array_object(array(vec![num(1)]), vec![num(4)], &num(1)).err().unwrap();
    assert!(matches!(e.kind, UErrorKind::AssignError));
    // a table inside an array: the write is handed back with its path
    let t = Object { value: Value::HashTbl(vec![], vec![]), text: String::new(), truthy: true };
    let r = update_array_object(array(vec![num(0), t]), vec![num(7), text("key"), num(1)], &num(1)).ok().unwrap();
    let w = r.pending.unwrap();
    assert_eq!(w.path, vec![1]);
    match w.target {
        WriteTarget::Table { key, rest } => {
            assert_eq!(key.text, "key");
            assert_eq!(rest.len(), 1);
        }
        _ => panic!("a table write was expected"),
    }
    let b = Object { value: Value::ByteArray(vec![0, 0]), text: String::new(), truthy: true };
    let r = update_array_object(b, vec![num(1)], &num(200)).ok().unwrap();
    assert!(matches!(r.value.unwrap().value, Value::ByteArray(ref v) if *v == vec![0, 200]));
    let b = Object { value: Value::ByteArray(vec![0]), text: String::new(), truthy: true };
    assert!(matches!(update_array_object(b, vec![num(0)], &num(256)).err().unwrap().message, UErrorMessage::NotAnByte(_)));
}

#[test]
fn defining_arrays() {
    let v = define_array(vec![num(1), num(2)], &num(3)).ok().unwrap();
    assert_eq!(v.len(), 4);
    assert!(matches!(v[3].value, Value::Empty));
    let v = define_array(vec![num(1), num(2), num(3)], &num(0)).ok().unwrap();
    assert_eq!(v.len(), 1);
    let v = define_array(vec![num(1), num(2)], &Object::empty()).ok().unwrap();
    assert_eq!(v.len(), 2);
    let half = Object { value: Value::Num(NumValue::Finite { mantissa: -1, exponent: -1 }), text: "-0.5".to_string(), truthy: true };
    assert_eq!(define_array(vec![num(1)], &half).ok().unwrap().len(), 0);
    assert!(matches!(define_array(vec![], &text("x")).err().unwrap().message, UErrorMessage::InvalidIndex(_)));
    let b = array_bounds(&vec![Object::empty(), num(2)]).ok().unwrap();
    assert_eq!(b, vec![usize::MAX, 2]);
    assert!(matches!(array_bounds(&vec![num(1), Object::empty()]).err().unwrap().message, UErrorMessage::ArraySizeOmitted));
    // [1][2] -> 2 * 3 items; [][2] with 7 values -> 3 rows of 3
    assert_eq!(total_size(&vec![1, 2], 0).ok(), Some(6));
    assert_eq!(total_size(&vec![usize::MAX, 2], 7).ok(), Some(9));
    let g = chunks(&vec![num(1), num(2), num(3), num(4), num(5)], 1);
    assert_eq!(g.len(), 3);
    assert_eq!(g[2].len(), 1);
    assert_eq!(chunks(&vec![], 3).len(), 1);
    assert_eq!(chunks(&vec![num(1), num(2)], usize::MAX).len(), 1);
}

#[test]
fn dot_operator_and_calls() {
    let module = Object { value: Value::Other(OtherKind::Module, 3), text: String::new(), truthy: true };
    assert!(member_read(&module, false, false) == MemberRead::Read(MemberTarget::Module(3)));
    let class = Object { value: Value::Other(OtherKind::Class, 4), text: String::new(), truthy: true };
    assert!(member_read(&class, false, false) == MemberRead::ClassMember);
    let com = Object { value: Value::Other(OtherKind::ComObject, 5), text: String::new(), truthy: true };
    assert!(member_read(&com, false, true) == MemberRead::Caller(MemberTarget::Com(5)));
    assert!(member_read(&com, false, false) == MemberRead::Read(MemberTarget::Com(5)));
    assert!(member_read(&num(1), false, false) == MemberRead::NotSupported);
    assert!(member_write(&module, true) == MemberWrite::Assign(MemberTarget::Module(3)));
    assert!(member_write(&module, false) == MemberWrite::NotAName(MemberTarget::Module(3)));
    assert!(member_write(&class, true) == MemberWrite::Invalid);
    let f = Object { value: Value::Function(Function(8)), text: String::new(), truthy: true };
    assert!(call_plan(&f, false) == CallPlan::Invoke(Function(8)));
    assert!(call_plan(&num(1), false) == CallPlan::NotAFunction);
    assert!(builtin_call_check("copy".to_string(), 3, 3).is_ok());
    assert!(matches!(builtin_call_check("copy".to_string(), 3, 4).err().unwrap().message, UErrorMessage::TooManyArguments(4, 3)));
    assert!(struct_call_check(2).is_err());
}
