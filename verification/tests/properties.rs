use uwscr_builtins::args::NumValue;
use uwscr_builtins::num::nth_of;
use uwscr_builtins::args::TwoTypeArg;
use uwscr_builtins::replace::replace_plain;
use uwscr_builtins::strings::{copy, token, trim};
use uwscr_builtins::text::parse_usize;
use uwscr_builtins::window::decimal;

#[test]
fn trimming_twice_changes_nothing_more() {
    let cases = ["  a b  ", "\t\u{3000}x\u{3000}\n", "", "   "];
    for s in cases {
        for opt in [TwoTypeArg::U(false), TwoTypeArg::U(true), TwoTypeArg::T("ab ".to_string())] {
            let o2 = match &opt {
                TwoTypeArg::T(t) => TwoTypeArg::T(t.clone()),
                TwoTypeArg::U(b) => TwoTypeArg::U(*b),
            };
            let once = trim(s, opt);
            assert_eq!(trim(&once, o2), once);
        }
    }
}

#[test]
fn token_and_rest_rebuild_the_text() {
    let base = "one,two,three";
    let (t, rest) = token(",", base, false, false);
    assert_eq!(format!("{},{}", t, rest), base);
    let (t, rest) = token(",;", "a;b,c", false, false);
    assert_eq!(t, "a");
    assert_eq!(rest, "b,c");
}

#[test]
fn copy_stays_within_the_text() {
    assert_eq!(copy("abcdef", 3, Some(100)), "cdef");
    assert_eq!(copy("abcdef", 10, None), "");
    assert_eq!(copy("abcdef", 0, Some(2)), "ab");
}

#[test]
fn text_without_the_pattern_comes_back() {
    assert_eq!(replace_plain("hello", "xyz", "!"), "hello");
}

#[test]
fn decimal_text_reads_back() {
    for n in [0_i64, 7, 10, 12345, i64::MAX] {
        assert_eq!(parse_usize(&decimal(n)), Some(n as usize));
    }
}

#[test]
fn nth_values_of_one_or_less_select_the_first() {
    assert_eq!(nth_of(NumValue::Finite { mantissa: -5, exponent: 0 }), Some(1));
    assert_eq!(nth_of(NumValue::Finite { mantissa: 0, exponent: 0 }), Some(1));
    assert_eq!(nth_of(NumValue::Finite { mantissa: 7, exponent: 0 }), Some(7));
    assert_eq!(nth_of(NumValue::Finite { mantissa: 1, exponent: 40 }), None);
    assert_eq!(nth_of(NumValue::NaN), None);
}
