use uwscr_builtins::args::{Expression, NumValue, Object, Value};
use uwscr_builtins::builtin_args::BuiltinFuncArgs;
use uwscr_builtins::consts::{CtrlWinCmd, MorgContextConst, MorgTargetConst, SldConst, StatusEnum};
use uwscr_builtins::names::SpecialWindowId;
use uwscr_builtins::window::{
    all_statuses, ctrlwin, decimal, status_request, StatusRequest, getid_result, getslider, posacc, special_window, MorgContext, MorgTarget, SendStrMode,
    SliderInfo, Window, WindowControl, WindowSize,
};

fn num(n: i64) -> Object {
    Object { value: Value::Num(NumValue::Finite { mantissa: n, exponent: 0 }), text: n.to_string(), truthy: n != 0 }
}

fn args(objs: Vec<Object>) -> BuiltinFuncArgs {
    let v: Vec<(Option<Expression>, Object)> = objs.into_iter().map(|o| (None, o)).collect();
    BuiltinFuncArgs::new(v, false)
}

#[test]
fn ids_count_up() {
    let mut c = WindowControl::new();
    assert_eq!(c.get_next_id(), 1);
    assert_eq!(c.get_next_id(), 2);
    assert_eq!(c.get_next_id(), 3);
}

#[test]
fn window_table() {
    let mut c = WindowControl::new();
    assert_eq!(c.get_hwnd_from_id(5), 0);
    c.set_new_window(5, 1234, false);
    assert_eq!(c.get_hwnd_from_id(5), 1234);
    assert_eq!(c.get_hwnd_from_id(0), 0);
    c.set_new_window(6, 777, true);
    assert_eq!(c.get_hwnd_from_id(0), 777);
    c.set_id_zero(1234);
    assert_eq!(c.get_hwnd_from_id(0), 1234);
    assert_eq!(c.find_id(777), Some(6));
    assert_eq!(c.find_id(999), None);
}

#[test]
fn handles_get_ids() {
    let mut c = WindowControl::new();
    let id = c.get_id_from_hwnd(4000, true);
    assert_eq!(id, 1);
    // the same handle keeps its id
    assert_eq!(c.get_id_from_hwnd(4000, true), 1);
    assert_eq!(c.get_hwnd_from_id(id), 4000);
    // a handle that is not a window gets -1 and no id
    assert_eq!(c.get_id_from_hwnd(5000, false), -1);
    assert_eq!(c.find_id(5000), None);
    assert_eq!(c.idtohnd_candidate(id), Some(4000));
    assert_eq!(c.idtohnd_candidate(-1), None);
    assert_eq!(c.idtohnd_candidate(42), None);
    assert_eq!(getid_result(&mut c, 0, true), -1);
    assert_eq!(getid_result(&mut c, 6000, true), 2);
    assert_eq!(getid_result(&mut c, 4000, true), 1);
    assert_eq!(getid_result(&mut c, 7000, false), -1);
    assert_eq!(c.find_id(7000), None);
    assert_eq!(c.get_next_id(), 3);
}

#[test]
fn ctrlwin_and_posacc() {
    let mut c = WindowControl::new();
    assert!(ctrlwin(&mut c, 3, &args(vec![num(3), num(2)])).ok().unwrap().is_none());
    c.set_new_window(3, 300, false);
    let r = ctrlwin(&mut c, 3, &args(vec![num(3), num(2)])).ok().unwrap().unwrap();
    assert_eq!(r.0, 300);
    assert!(r.1 == Some(CtrlWinCmd::CLOSE));
    assert_eq!(c.get_hwnd_from_id(0), 300);
    // the command is required
    assert!(ctrlwin(&mut c, 3, &args(vec![num(3)])).is_err());
    c.set_new_window(4, 400, false);
    assert_eq!(posacc(&mut c, 4), 400);
    assert_eq!(c.get_hwnd_from_id(0), 400);
}

#[test]
fn decimal_text() {
    assert_eq!(decimal(0), "0");
    assert_eq!(decimal(42), "42");
    assert_eq!(decimal(-7), "-7");
    assert_eq!(decimal(i64::MIN), "-9223372036854775808");
    assert_eq!(decimal(i64::MAX), "9223372036854775807");
    assert_eq!(Window { id: 15 }.to_string(), "15");
}

#[test]
fn sliders_and_modes() {
    let s = SliderInfo { pos: 5, min: 0, max: 10, page: 2, bar: 1, x: 30, y: 40 };
    assert_eq!(s.get(SldConst::SLD_MAX), 10);
    assert_eq!(getslider(&Some(s), None), 5);
    let s = SliderInfo { pos: 5, min: 0, max: 10, page: 2, bar: 1, x: 30, y: 40 };
    assert_eq!(getslider(&Some(s), Some(SldConst::SLD_Y)), 40);
    assert_eq!(getslider(&None, Some(SldConst::SLD_Y)), -999999);
    assert!(SendStrMode::from(0) == SendStrMode::Append);
    assert!(SendStrMode::from(2) == SendStrMode::OneByOne);
    assert!(SendStrMode::from(1) == SendStrMode::Replace);
    assert!(MorgTargetConst::MORG_CLIENT.into_target() == MorgTarget::Client);
    assert!(MorgContextConst::MORG_BACK.into_context() == MorgContext::Back);
    let size = WindowSize(1, 2, 3, 4);
    assert_eq!((size.x(), size.y(), size.width(), size.height()), (1, 2, 3, 4));
}

#[test]
fn special_window_names() {
    assert!(special_window(&"__GET_ACTIVE_WIN__".to_string()) == Some(SpecialWindowId::GET_ACTIVE_WIN));
    assert!(special_window(&"__GET_CONSOLE_WIN__".to_string()) == Some(SpecialWindowId::GET_CONSOLE_WIN));
    assert!(special_window(&"Notepad".to_string()).is_none());
    assert!(special_window(&"__GET_FUKIDASI_WIN__".to_string()).is_none());
    assert_eq!(SpecialWindowId::GET_LOGPRINT_WIN.text(), "__GET_LOGPRINT_WIN__");
}

#[test]
fn status_requests() {
    assert!(matches!(status_request(&args(vec![num(1), num(9)])).ok().unwrap(), StatusRequest::One(StatusEnum::ST_TITLE)));
    assert!(matches!(status_request(&args(vec![num(1), num(0)])).ok().unwrap(), StatusRequest::All));
    assert!(matches!(status_request(&args(vec![num(1), num(55)])).ok().unwrap(), StatusRequest::Nothing));
    assert!(status_request(&args(vec![num(1)])).is_err());
    match status_request(&args(vec![num(1), num(1), num(77), num(101)])).ok().unwrap() {
        StatusRequest::Many(v) => {
            assert_eq!(v.len(), 2);
            assert!(v[0] == StatusEnum::ST_X);
            assert!(v[1] == StatusEnum::ST_WX);
        }
        _ => panic!("a table was expected"),
    }
    let text = Object { value: Value::String("x".to_string()), text: "x".to_string(), truthy: true };
    assert!(status_request(&args(vec![num(1), num(1), text])).is_err());
    let all = all_statuses();
    assert_eq!(all.len(), 21);
    assert!(all[0] == StatusEnum::ST_TITLE);
    assert!(all[20] == StatusEnum::ST_MONITOR);
}
