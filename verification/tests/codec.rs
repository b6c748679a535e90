use uwscr_builtins::args::{Expression, NumValue, Object, TwoTypeArg, Value};
use uwscr_builtins::builtin_args::BuiltinFuncArgs;
use uwscr_builtins::codec::{
    as_byte, as_wide, decode, decode_value, encode, encode_text, from_byte, from_wide, CodeConst, Decoded, Encoded,
};

fn text(s: &str) -> Object {
    Object { value: Value::String(s.to_string()), text: s.to_string(), truthy: !s.is_empty() }
}

fn num(n: i64) -> Object {
    Object { value: Value::Num(NumValue::Finite { mantissa: n, exponent: 0 }), text: n.to_string(), truthy: n != 0 }
}

fn args(objs: Vec<Object>) -> BuiltinFuncArgs {
    let v: Vec<(Option<Expression>, Object)> = objs.into_iter().map(|o| (None, o)).collect();
    BuiltinFuncArgs::new(v, false)
}

fn as_text(e: Encoded) -> String {
    match e {
        Encoded::Text(s) => s,
        _ => panic!("not text"),
    }
}

fn as_bytes(e: Encoded) -> Vec<u8> {
    match e {
        Encoded::Bytes(b) => b,
        _ => panic!("not bytes"),
    }
}

fn decoded_text(d: Decoded) -> String {
    match d {
        Decoded::Text(s) => s,
        _ => panic!("not text"),
    }
}

#[test]
fn url_encoding_escapes_all_but_safe_bytes() {
    let e = as_text(encode_text("a b&cあ-._~", Some(CodeConst::CODE_URL)));
    assert_eq!(e, "a%20b%26c%E3%81%82-._~");
}

#[test]
fn url_decoding_undoes_escapes() {
    let d = decoded_text(decode_value(TwoTypeArg::T("a%20b%26c%E3%81%82".to_string()), Some(CodeConst::CODE_URL)));
    assert_eq!(d, "a b&cあ");
    // a percent sign without two hex digits stays, `+` stays
    let d = decoded_text(decode_value(TwoTypeArg::T("%41%4g+%".to_string()), Some(CodeConst::CODE_URL)));
    assert_eq!(d, "A%4g+%");
    // bytes that are not UTF-8 give EMPTY
    assert!(matches!(decode_value(TwoTypeArg::T("%FF".to_string()), Some(CodeConst::CODE_URL)), Decoded::Empty));
}

#[test]
fn url_roundtrip() {
    for s in ["", "plain", "スペース と 記号!?", "100%"] {
        let e = as_text(encode_text(s, Some(CodeConst::CODE_URL)));
        assert_eq!(decoded_text(decode_value(TwoTypeArg::T(e), Some(CodeConst::CODE_URL))), s);
    }
}

#[test]
fn html_entities() {
    let e = as_text(encode_text("<div class='header'></div>", Some(CodeConst::CODE_HTML)));
    assert_eq!(e, "&lt;div class=&apos;header&apos;&gt;&lt;/div&gt;");
    let e = as_text(encode_text("a & \"b\"", Some(CodeConst::CODE_HTML)));
    assert_eq!(e, "a &amp; &quot;b&quot;");
    let d = decoded_text(decode_value(TwoTypeArg::T("&lt;a&gt; &amp; b".to_string()), Some(CodeConst::CODE_HTML)));
    assert_eq!(d, "<a> & b");
    let d = decoded_text(decode_value(TwoTypeArg::T("no entity".to_string()), Some(CodeConst::CODE_HTML)));
    assert_eq!(d, "no entity");
}

#[test]
fn wide_bytes() {
    assert_eq!(as_wide("Aあ"), vec![0x41, 0x00, 0x42, 0x30]);
    assert_eq!(as_wide("😀"), vec![0x3d, 0xd8, 0x00, 0xde]);
    assert_eq!(from_wide(&[0x41, 0x00, 0x42, 0x30]), "Aあ");
    // an odd last byte is dropped
    assert_eq!(from_wide(&[0x41, 0x00, 0x42]), "A");
    let b = as_bytes(encode_text("ユニコード😀", Some(CodeConst::CODE_BYTEARRAYW)));
    assert_eq!(decoded_text(decode_value(TwoTypeArg::U(b), Some(CodeConst::CODE_BYTEARRAYW))), "ユニコード😀");
}

#[test]
fn utf8_bytes() {
    assert_eq!(as_byte("aé"), vec![0x61, 0xc3, 0xa9]);
    assert_eq!(from_byte(&[0x61, 0xc3, 0xa9]), "aé");
    assert_eq!(from_byte(&[0x61, 0xff]), "a\u{fffd}");
    let b = as_bytes(encode_text("テスト", Some(CodeConst::CODE_BYTEARRAYU)));
    assert_eq!(decoded_text(decode_value(TwoTypeArg::U(b), Some(CodeConst::CODE_BYTEARRAYU))), "テスト");
}

#[test]
fn codes_that_change_nothing() {
    assert_eq!(as_text(encode_text("abc", None)), "abc");
    assert_eq!(as_text(encode_text("abc", Some(CodeConst::CODE_ANSI))), "abc");
    assert_eq!(as_text(encode_text("abc", Some(CodeConst::CODE_UTF8))), "abc");
    assert!(matches!(encode_text("abc", Some(CodeConst::CODE_BYTEARRAY)), Encoded::Ansi(_)));
    assert!(matches!(decode_value(TwoTypeArg::U(vec![1]), Some(CodeConst::CODE_URL)), Decoded::Empty));
    assert!(matches!(decode_value(TwoTypeArg::U(vec![1]), None), Decoded::Empty));
    assert!(matches!(decode_value(TwoTypeArg::U(vec![1]), Some(CodeConst::CODE_BYTEARRAY)), Decoded::Ansi(_)));
    assert_eq!(decoded_text(decode_value(TwoTypeArg::T("x".to_string()), Some(CodeConst::CODE_UTF8))), "x");
}

#[test]
fn code_numbers() {
    assert_eq!(CodeConst::CODE_URL.value(), 2);
    assert!(CodeConst::from_num(NumValue::Finite { mantissa: 4, exponent: 0 }) == CodeConst::CODE_HTML);
    // 4.5 selects by its integer part
    assert!(CodeConst::from_num(NumValue::Finite { mantissa: 9, exponent: -1 }) == CodeConst::CODE_HTML);
    assert!(CodeConst::from_num(NumValue::Finite { mantissa: 99, exponent: 0 }) == CodeConst::CODE_UTF8);
    assert!(CodeConst::from_num(NumValue::NaN) == CodeConst::CODE_UTF8);
}

#[test]
fn encode_and_decode_builtins() {
    let r = encode(&args(vec![text("a b"), num(2)])).ok().unwrap();
    assert_eq!(as_text(r), "a%20b");
    // no code: the text comes back
    let r = encode(&args(vec![text("a b"), Object::empty()])).ok().unwrap();
    assert_eq!(as_text(r), "a b");
    // the code is required
    assert!(encode(&args(vec![text("a b")])).is_err());
    let r = decode(&args(vec![text("a%20b"), num(2)])).ok().unwrap();
    assert_eq!(decoded_text(r), "a b");
    let bytes = Object { value: Value::ByteArray(vec![0x41, 0x00]), text: String::new(), truthy: true };
    let r = decode(&args(vec![bytes, num(6)])).ok().unwrap();
    assert_eq!(decoded_text(r), "A");
    // a number is neither a string nor a byte array
    assert!(decode(&args(vec![num(1), num(6)])).is_err());
}
