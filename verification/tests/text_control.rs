use uwscr_builtins::args::TwoTypeArg;
use uwscr_builtins::between::betweenstr;
use uwscr_builtins::search::pos;
use uwscr_builtins::strings::{copy, token, trim};

#[test]
fn test_copy() {
    let s = "あいうえおかきくけこ";
    assert_eq!(copy(s, 6, None), "かきくけこ");
    assert_eq!(copy(s, 3, Some(4)), "うえおか");
    assert_eq!(copy(s, 11, None), "");
}

#[test]
fn test_pos() {
    let moji1 = "あいabうえおかきくうえABけこ";
    let moji2 = "あいあいあ";
    assert_eq!(pos("うえ", moji1, 1), 5);
    assert_eq!(pos("うえ", moji1, 0), 5);
    assert_eq!(pos("うえ", moji1, 1), 5);
    assert_eq!(pos("うえ", moji1, 2), 11);
    assert_eq!(pos("うえ", moji1, 3), 0);
    assert_eq!(pos("うえ", moji1, -1), 11);
    assert_eq!(pos("うえ", moji1, -2), 5);
    assert_eq!(pos("うえ", moji1, -3), 0);
    assert_eq!(pos("ab", moji1, 2), 13);
    assert_eq!(pos("ab", moji1, -1), 13);
    assert_eq!(pos("いぬ", "🐕いぬ", 1), 2);
    assert_eq!(pos("あいあ", moji2, 1), 1);
    assert_eq!(pos("あいあ", moji2, 2), 3);
    assert_eq!(pos("あ", "あああ123", 1), 1);
    assert_eq!(pos("あ", "あああ123", 2), 2);
    assert_eq!(pos("あ", "あああ123", 3), 3);
    assert_eq!(pos("あ", "あああ123", -1), 3);
    assert_eq!(pos("あ", "あああ123", -2), 2);
    assert_eq!(pos("あ", "あああ123", -3), 1);
}

fn bs(s: &str, from: Option<&str>, to: Option<&str>, nth: i32, flag: bool) -> String {
    betweenstr(s, from, to, nth, flag).expect("the markers do not overlap")
}

#[test]
fn test_betweenstr() {
    let moji1 = "あfromいtoうfromえtoお";
    let moji2 = "あfromいfromうtoえfromおtoかtoき";
    let moji3 = "ababaあいうccc";
    let moji4 = "aabaab";
    let moji5 = "abあfabいfab";
    assert_eq!(bs(moji1, None, None, 1, false), "あfromいtoうfromえtoお");
    assert_eq!(bs(moji1, None, None, 1, false), "あfromいtoうfromえtoお");
    assert_eq!(bs(moji1, None, None, 2, false), "あfromいtoうfromえtoお");
    assert_eq!(bs(moji1, None, None, -1, false), "あfromいtoうfromえtoお");
    assert_eq!(bs(moji1, Some("from"), None, 1, false), "いtoうfromえtoお");
    assert_eq!(bs(moji1, Some("from"), None, 2, false), "えtoお");
    assert_eq!(bs(moji1, None, Some("to"), 1, false), "あfromい");
    assert_eq!(bs(moji1, None, Some("to"), 2, false), "あfromいtoうfromえ");
    assert_eq!(bs(moji1, None, Some("to"), 2, true), "あfromいtoうfromえ");
    assert_eq!(bs(moji1, None, Some("to"), -1, false), "あfromいtoうfromえ");
    assert_eq!(bs(moji1, Some("from"), Some("to"), 1, false), "い");
    assert_eq!(bs(moji1, Some("from"), Some("to"), 1, false), "い");
    assert_eq!(bs(moji1, Some("from"), Some("to"), 2, false), "え");
    assert_eq!(bs(moji1, Some("from"), Some("to"), 3, false), "");
    assert_eq!(bs(moji1, Some("from"), Some("foo"), 1, false), "");
    assert_eq!(bs(moji1, Some("foo"), Some("to"), 1, false), "");
    assert_eq!(bs(moji1, Some("foo"), Some("bar"), 1, false), "");
    assert_eq!(bs(moji2, Some("from"), Some("to"), 1, false), "いfromう");
    assert_eq!(bs(moji2, Some("from"), Some("to"), 2, false), "お");
    assert_eq!(bs(moji2, Some("from"), Some("to"), 2, true), "う");
    assert_eq!(bs(moji2, Some("from"), Some("to"), -1, false), "おtoか");
    assert_eq!(bs(moji2, Some("from"), Some("to"), -2, false), "う");
    assert_eq!(bs(moji2, Some("from"), Some("to"), -2, true), "お");
    assert_eq!(bs(moji3, Some("aba"), Some("ccc"), 1, true), "baあいう");
    assert_eq!(bs(moji3, Some("aba"), Some("ccc"), 2, true), "あいう");
    assert_eq!(bs(moji4, None, Some("b"), 2, false), "aabaa");
    assert_eq!(bs(moji4, None, Some("b"), -1, false), "aabaa");
    assert_eq!(bs(moji5, Some("ab"), Some("fab"), 1, false), "あ");
    assert_eq!(bs(moji5, Some("ab"), Some("fab"), 2, false), "い");
    assert_eq!(bs("あ123", Some("あ"), None, 1, false), "123");
    assert_eq!(bs("あ123", Some("あ"), None, -1, false), "123");
    assert_eq!(bs("あいう123", Some("あいう"), None, 1, false), "123");
    assert_eq!(bs("あいう123", Some("あいう"), None, -1, false), "123");
    assert_eq!(bs("abc123", Some("abc"), None, 1, false), "123");
    assert_eq!(bs("abc123", Some("abc"), None, -1, false), "123");
    assert_eq!(bs("あああ123", Some("あ"), None, 1, false), "ああ123");
    assert_eq!(bs("あああ123", Some("あ"), None, 2, false), "あ123");
    assert_eq!(bs("あああ123", Some("あ"), None, 3, false), "123");
    assert_eq!(bs("あああ123", Some("あ"), None, -1, false), "123");
    assert_eq!(bs("あああ123", Some("あ"), None, -2, false), "あ123");
    assert_eq!(bs("あああ123", Some("あ"), None, -3, false), "ああ123");
    assert_eq!(bs("ああああ123", Some("ああ"), None, 1, false), "ああ123");
    assert_eq!(bs("ああああ123", Some("ああ"), None, 2, false), "あ123");
    assert_eq!(bs("ああああ123", Some("ああ"), None, 3, false), "123");
    assert_eq!(bs("ああああ123", Some("ああ"), None, -1, false), "123");
    assert_eq!(bs("ああああ123", Some("ああ"), None, -2, false), "あ123");
    assert_eq!(bs("ああああ123", Some("ああ"), None, -3, false), "ああ123");
    assert_eq!(bs("123あ", None, Some("あ"), 1, false), "123");
    assert_eq!(bs("123あ", None, Some("あ"), -1, false), "123");
    assert_eq!(bs("123あいう", None, Some("あいう"), 1, false), "123");
    assert_eq!(bs("123あいう", None, Some("あいう"), -1, false), "123");
    assert_eq!(bs("123abc", None, Some("abc"), 1, false), "123");
    assert_eq!(bs("123abc", None, Some("abc"), -1, false), "123");
    assert_eq!(bs("あいう123", None, Some("123"), 1, false), "あいう");
    assert_eq!(bs("あいう123", None, Some("123"), -1, false), "あいう");
    assert_eq!(bs("123ああ", None, Some("あ"), 1, false), "123");
    assert_eq!(bs("123ああ", None, Some("あ"), 2, false), "123あ");
    assert_eq!(bs("123ああ", None, Some("あ"), -1, false), "123あ");
    assert_eq!(bs("123ああ", None, Some("あ"), -2, false), "123");
    assert_eq!(bs("123あああ", None, Some("ああ"), 1, false), "123");
    assert_eq!(bs("123あああ", None, Some("ああ"), 2, false), "123あ");
    assert_eq!(bs("123あああ", None, Some("ああ"), -1, false), "123あ");
    assert_eq!(bs("123あああ", None, Some("ああ"), -2, false), "123");
}

#[test]
fn test_trim() {
    assert_eq!(trim("  abc   ", TwoTypeArg::U(false)), "abc");
    assert_eq!(trim(" \r\n  abc \t  ", TwoTypeArg::U(false)), "abc");
    assert_eq!(trim(" \u{001b}abc\u{001b} ", TwoTypeArg::U(false)), "abc");
    assert_eq!(trim(" \u{3000}abc\u{3000} ", TwoTypeArg::U(true)), "abc");
    assert_eq!(trim(" \u{3000}abc\u{3000} ", TwoTypeArg::U(false)), "\u{3000}abc\u{3000}");
    assert_eq!(trim("edeffededdabcedfffedeeddedf", TwoTypeArg::T("edf".to_string())), "abc");
}

#[test]
fn test_token() {
    // each call hands back the token and the text that the variable keeps
    let (t, moji1) = token("-", "あ-い-う-え-お", false, false);
    assert_eq!((t.as_str(), moji1.as_str()), ("あ", "い-う-え-お"));
    let (t, moji1) = token("-", &moji1, false, false);
    assert_eq!((t.as_str(), moji1.as_str()), ("い", "う-え-お"));
    let (t, moji2) = token("abc", "あいうabcえお", false, false);
    assert_eq!((t.as_str(), moji2.as_str()), ("あいう", "bcえお"));
    let (t, moji2) = token("abc", &moji2, false, false);
    assert_eq!((t.as_str(), moji2.as_str()), ("", "cえお"));
    let (t, moji3) = token("abc", "あいうabcえお", true, false);
    assert_eq!((t.as_str(), moji3.as_str()), ("あいう", "えお"));
    let (t, moji4) = token("abc", "あいうえお", false, false);
    assert_eq!((t.as_str(), moji4.as_str()), ("あいうえお", ""));
    let moji = "\"あabcか\"abcさ";
    let (t, rest) = token("abc", moji, false, false);
    assert_eq!((t.as_str(), rest.as_str()), ("\"あ", "bcか\"abcさ"));
    let (t, rest) = token("abc", moji, false, true);
    assert_eq!((t.as_str(), rest.as_str()), ("\"あabcか\"", "bcさ"));
    let (t, rest) = token("abc", moji, true, false);
    assert_eq!((t.as_str(), rest.as_str()), ("\"あ", "か\"abcさ"));
    let (t, rest) = token("abc", moji, true, true);
    assert_eq!((t.as_str(), rest.as_str()), ("\"あabcか\"", "さ"));
}
