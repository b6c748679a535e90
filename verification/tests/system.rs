use uwscr_builtins::consts::OsKind;
use uwscr_builtins::error::UErrorMessage;
use uwscr_builtins::system::{get_os_kind, kindofos, os_kind, KindOfOsValue, OsVersion};

fn v(major: u32, minor: u32, build: u32, workstation: bool) -> OsVersion {
    OsVersion { major, minor, build, platform: 2, workstation }
}

#[test]
fn kinds_of_windows() {
    assert!(os_kind(&v(10, 0, 19045, true), false) == OsKind::OS_WIN10);
    assert!(os_kind(&v(10, 0, 22631, true), false) == OsKind::OS_WIN11);
    assert!(os_kind(&v(10, 0, 17763, false), false) == OsKind::OS_WINSRV2016);
    assert!(os_kind(&v(6, 1, 7601, true), false) == OsKind::OS_WIN7);
    assert!(os_kind(&v(6, 3, 9600, false), false) == OsKind::OS_WINSRV2012R2);
    assert!(os_kind(&v(5, 2, 3790, false), true) == OsKind::OS_WINSRV2003R2);
    assert!(os_kind(&v(5, 1, 2600, true), false) == OsKind::OS_WINXP);
    assert!(os_kind(&v(4, 0, 0, true), false) == OsKind::OS_UNKNOWN);
    assert_eq!(get_os_kind(&v(6, 1, 7601, true), false), vec![22, 6, 1, 7601, 2]);
}

#[test]
fn kindofos_requests() {
    let ver = v(10, 0, 22631, true);
    assert!(kindofos(0, &ver, false, Some(true)).ok() == Some(KindOfOsValue::Num(32)));
    assert!(kindofos(1, &ver, false, Some(true)).ok() == Some(KindOfOsValue::Bool(true)));
    assert!(kindofos(2, &ver, false, None).ok() == Some(KindOfOsValue::Num(10)));
    assert!(kindofos(4, &ver, false, None).ok() == Some(KindOfOsValue::Num(22631)));
    assert!(kindofos(99, &ver, false, None).ok() == Some(KindOfOsValue::Num(32)));
    match kindofos(1, &ver, false, None) {
        Err(e) => assert!(matches!(e.message(), UErrorMessage::UnsupportedArchitecture)),
        Ok(_) => panic!("the architecture is unknown"),
    }
}
