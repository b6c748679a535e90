use uwscr_builtins::error::{BuiltinFuncError, UError, UErrorKind, UErrorMessage};
use uwscr_builtins::registry::{slct_consts, str_consts, to_upper, Builtin, BuiltinFunctionSets};

fn name_of(e: &(String, Builtin<u8>)) -> String {
    e.0.clone()
}

#[test]
fn upper_case_names() {
    assert_eq!(to_upper("getid"), "GETID");
    assert_eq!(to_upper("Mixed_Case1"), "MIXED_CASE1");
    assert_eq!(to_upper("äbc"), "äBC");
}

#[test]
fn function_sets_register_in_order() {
    let mut sets: BuiltinFunctionSets<u8> = BuiltinFunctionSets::new();
    sets.add("copy", 3, 1);
    sets.add("pos", 3, 2);
    let mut out: Vec<(String, Builtin<u8>)> = Vec::new();
    sets.set(&mut out);
    assert_eq!(out.len(), 2);
    assert_eq!(name_of(&out[0]), "COPY");
    assert!(matches!(&out[1].1, Builtin::Function(n, 3, 2) if n == "POS"));
}

#[test]
fn string_constants() {
    let mut out: Vec<(String, Builtin<u8>)> = Vec::new();
    str_consts(&vec!["get_active_win".to_string()], "__", "__", &mut out);
    assert_eq!(name_of(&out[0]), "GET_ACTIVE_WIN");
    assert!(matches!(&out[0].1, Builtin::Text(t) if t == "__GET_ACTIVE_WIN__"));
}

#[test]
fn slct_constants_are_powers_of_two() {
    let mut out: Vec<(String, Builtin<u8>)> = Vec::new();
    slct_consts(&mut out);
    assert_eq!(out.len(), 31);
    assert_eq!(name_of(&out[0]), "SLCT_1");
    assert!(matches!(out[0].1, Builtin::Num(1)));
    assert_eq!(name_of(&out[9]), "SLCT_10");
    assert!(matches!(out[9].1, Builtin::Num(512)));
    assert_eq!(name_of(&out[30]), "SLCT_31");
    assert!(matches!(out[30].1, Builtin::Num(1073741824)));
}

#[test]
fn reported_errors_keep_their_message() {
    let e = BuiltinFuncError::new(UErrorMessage::BuiltinArgRequiredAt(2));
    let u: UError = e.to_uerror("copy".to_string());
    assert!(matches!(u.kind, UErrorKind::BuiltinFunctionError(ref n) if n == "copy"));
    assert!(matches!(u.message, UErrorMessage::BuiltinArgRequiredAt(2)));
    let k = BuiltinFuncError::new_with_kind(UErrorKind::UserDefinedError, UErrorMessage::Any("x".to_string()));
    let u = k.to_uerror("copy".to_string());
    assert!(matches!(u.kind, UErrorKind::UserDefinedError));
    assert!(matches!(u.message, UErrorMessage::Any(ref m) if m == "x"));
}

#[test]
fn numbered_constants_are_registered_with_their_aliases() {
    let mut out: Vec<(String, Builtin<u8>)> = Vec::new();
    uwscr_builtins::const_table::builtin_consts(&mut out);
    let find = |n: &str| out.iter().find(|e| e.0 == n).map(|e| match e.1 { Builtin::Num(v) => v, _ => -1 });
    assert_eq!(find("ST_TITLE"), Some(9));
    assert_eq!(find("MON_PRIMARY"), find("MON_ISMAIN"));
    assert!(find("MON_ISMAIN").is_some());
    assert_eq!(find("CLK_TREEVIEW"), find("CLK_TREEVEW"));
    assert_eq!(find("ERR_VALUE"), Some(-999999));
    assert_eq!(find("NO_SUCH_CONST"), None);
}
