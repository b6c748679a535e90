use uwscr_builtins::strconv::{strconv, StrConvCase, StrConvKana, StrConvType, StrConvWidth, StrconvConst};

#[test]
fn option_flags() {
    let t = StrConvType::from(StrconvConst::SC_UPPERCASE.value() | StrconvConst::SC_KATAKANA.value());
    assert!(t.case == StrConvCase::Upper);
    assert!(t.kana == StrConvKana::Katakana);
    assert!(t.width == StrConvWidth::Keep);
    // both flags of a pair cancel out
    let t = StrConvType::from(0x100 | 0x200);
    assert!(t.case == StrConvCase::Keep);
}

#[test]
fn conversions() {
    assert_eq!(strconv("abc", 0x200), "ABC");
    assert_eq!(strconv("ABC", 0x100), "abc");
    assert_eq!(strconv("あいう", 0x200000), "アイウ");
    assert_eq!(strconv("アイウ", 0x100000), "あいう");
    assert_eq!(strconv("abc", 0x800000), "ａｂｃ");
    assert_eq!(strconv("ａｂｃ", 0x400000), "abc");
}

#[test]
fn no_flag_leaves_the_text() {
    assert_eq!(strconv("Mixed テキスト", 0), "Mixed テキスト");
    assert_eq!(strconv("Mixed テキスト", 0x100 | 0x200), "Mixed テキスト");
}
