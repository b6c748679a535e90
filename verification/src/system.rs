//! `kindofos`: naming the running Windows version from the version numbers the system
//! reports.

use vstd::prelude::*;
use crate::consts::{KindOfOsResultType, OsKind};
use crate::builtin_args::ConstEnum;
use crate::error::{builtin_func_error, BuiltinFuncError, ErrorModel, MessageModel, UErrorMessage};

verus! {

/// The version numbers the system reports.
#[derive(PartialEq, Eq, Clone, Copy, Structural)]
pub struct OsVersion {
    pub major: u32,
    pub minor: u32,
    pub build: u32,
    pub platform: u32,
    /// Whether the product is a workstation (not a server).
    pub workstation: bool,
}

/// The first build number of Windows 11.
pub open spec fn win11_build() -> u32 {
    21996
}

/// The kind of system a version stands for: 10.x is Windows 10 (or Server 2016) below
/// build 21996 and Windows 11 from it; 6.0–6.3 are Vista/7/8/8.1 or the matching servers;
/// 5.0–5.2 are 2000, XP and Server 2003 (R2 when `server_r2`); anything else is unknown.
pub open spec fn os_kind_of(v: OsVersion, server_r2: bool) -> OsKind {
    if v.major == 10 {
        if v.build < win11_build() {
            if v.workstation { OsKind::OS_WIN10 } else { OsKind::OS_WINSRV2016 }
        } else {
            OsKind::OS_WIN11
        }
    } else if v.major == 6 {
        if v.minor == 3 {
            if v.workstation { OsKind::OS_WIN81 } else { OsKind::OS_WINSRV2012R2 }
        } else if v.minor == 2 {
            if v.workstation { OsKind::OS_WIN8 } else { OsKind::OS_WINSRV2012 }
        } else if v.minor == 1 {
            if v.workstation { OsKind::OS_WIN7 } else { OsKind::OS_WINSRV2008R2 }
        } else if v.minor == 0 {
            if v.workstation { OsKind::OS_WINVISTA } else { OsKind::OS_WINSRV2008 }
        } else {
            OsKind::OS_UNKNOWN
        }
    } else if v.major == 5 {
        if v.minor == 2 {
            if server_r2 { OsKind::OS_WINSRV2003R2 } else { OsKind::OS_WINSRV2003 }
        } else if v.minor == 1 {
            OsKind::OS_WINXP
        } else if v.minor == 0 {
            OsKind::OS_WIN2000
        } else {
            OsKind::OS_UNKNOWN
        }
    } else {
        OsKind::OS_UNKNOWN
    }
}

/// The kind of system a version stands for (see `os_kind_of`).
pub fn os_kind(v: &OsVersion, server_r2: bool) -> (r: OsKind)
    ensures
        r == os_kind_of(*v, server_r2),
{
    if v.major == 10 {
        if v.build < 21996 {
            if v.workstation { OsKind::OS_WIN10 } else { OsKind::OS_WINSRV2016 }
        } else {
            OsKind::OS_WIN11
        }
    } else if v.major == 6 {
        if v.minor == 3 {
            if v.workstation { OsKind::OS_WIN81 } else { OsKind::OS_WINSRV2012R2 }
        } else if v.minor == 2 {
            if v.workstation { OsKind::OS_WIN8 } else { OsKind::OS_WINSRV2012 }
        } else if v.minor == 1 {
            if v.workstation { OsKind::OS_WIN7 } else { OsKind::OS_WINSRV2008R2 }
        } else if v.minor == 0 {
            if v.workstation { OsKind::OS_WINVISTA } else { OsKind::OS_WINSRV2008 }
        } else {
            OsKind::OS_UNKNOWN
        }
    } else if v.major == 5 {
        if v.minor == 2 {
            if server_r2 { OsKind::OS_WINSRV2003R2 } else { OsKind::OS_WINSRV2003 }
        } else if v.minor == 1 {
            OsKind::OS_WINXP
        } else if v.minor == 0 {
            OsKind::OS_WIN2000
        } else {
            OsKind::OS_UNKNOWN
        }
    } else {
        OsKind::OS_UNKNOWN
    }
}

/// The numbers `kindofos` can report: the kind's number, the major, minor and build
/// numbers, and the platform.
pub open spec fn os_numbers(v: OsVersion, server_r2: bool) -> Seq<int> {
    seq![os_kind_of(v, server_r2).number(), v.major as int, v.minor as int, v.build as int, v.platform as int]
}

/// The numbers `kindofos` can report (see `os_numbers`).
pub fn get_os_kind(v: &OsVersion, server_r2: bool) -> (r: Vec<i64>)
    ensures
        r@.len() == 5,
        forall|i: int| 0 <= i < 5 ==> #[trigger] r@[i] as int == os_numbers(*v, server_r2)[i],
{
    let kind = os_kind(v, server_r2);
    let mut r: Vec<i64> = Vec::new();
    r.push(kind.value());
    r.push(v.major as i64);
    r.push(v.minor as i64);
    r.push(v.build as i64);
    r.push(v.platform as i64);
    r
}

/// What `kindofos` reports.
#[derive(PartialEq, Eq, Clone, Copy, Structural)]
pub enum KindOfOsValue {
    Bool(bool),
    Num(i64),
}

/// What `kindofos` reports for the request number `t` (a number that names no request
/// asks for the kind): whether the system is 64-bit (an error when the architecture is
/// neither x86 nor x64), or one of the numbers of `os_numbers`.
pub open spec fn kindofos_spec(t: i32, v: OsVersion, server_r2: bool, is_64bit: Option<bool>) -> Result<KindOfOsValue, ErrorModel> {
    let n = os_numbers(v, server_r2);
    match KindOfOsResultType::of_value(t as int) {
        Some(KindOfOsResultType::IS_64BIT_OS) => match is_64bit {
            Some(b) => Ok(KindOfOsValue::Bool(b)),
            None => Err(ErrorModel::Error(MessageModel::UnsupportedArchitecture)),
        },
        Some(KindOfOsResultType::OSVER_MAJOR) => Ok(KindOfOsValue::Num(n[1] as i64)),
        Some(KindOfOsResultType::OSVER_MINOR) => Ok(KindOfOsValue::Num(n[2] as i64)),
        Some(KindOfOsResultType::OSVER_BUILD) => Ok(KindOfOsValue::Num(n[3] as i64)),
        Some(KindOfOsResultType::OSVER_PLATFORM) => Ok(KindOfOsValue::Num(n[4] as i64)),
        _ => Ok(KindOfOsValue::Num(n[0] as i64)),
    }
}

/// `kindofos` (see `kindofos_spec`).
pub fn kindofos(t: i32, v: &OsVersion, server_r2: bool, is_64bit: Option<bool>) -> (r: Result<KindOfOsValue, BuiltinFuncError>)
    ensures
        match r {
            Ok(x) => kindofos_spec(t, *v, server_r2, is_64bit) == Ok::<KindOfOsValue, ErrorModel>(x),
            Err(e) => kindofos_spec(t, *v, server_r2, is_64bit) == Err::<KindOfOsValue, ErrorModel>(e.model()),
        },
{
    let n = get_os_kind(v, server_r2);
    proof {
        assert(n@[0] as int == os_numbers(*v, server_r2)[0]);
        assert(n@[1] as int == os_numbers(*v, server_r2)[1]);
        assert(n@[2] as int == os_numbers(*v, server_r2)[2]);
        assert(n@[3] as int == os_numbers(*v, server_r2)[3]);
        assert(n@[4] as int == os_numbers(*v, server_r2)[4]);
    }
    match KindOfOsResultType::from_value(t as i64) {
        Some(KindOfOsResultType::IS_64BIT_OS) => match is_64bit {
            Some(b) => Ok(KindOfOsValue::Bool(b)),
            None => Err(builtin_func_error(UErrorMessage::UnsupportedArchitecture)),
        },
        Some(KindOfOsResultType::OSVER_MAJOR) => Ok(KindOfOsValue::Num(n[1])),
        Some(KindOfOsResultType::OSVER_MINOR) => Ok(KindOfOsValue::Num(n[2])),
        Some(KindOfOsResultType::OSVER_BUILD) => Ok(KindOfOsValue::Num(n[3])),
        Some(KindOfOsResultType::OSVER_PLATFORM) => Ok(KindOfOsValue::Num(n[4])),
        _ => Ok(KindOfOsValue::Num(n[0])),
    }
}


/// Version 10 is Windows 11 exactly from build 21996 on, whatever the product type;
/// below it a workstation is Windows 10 and a server Server 2016. For versions 6.0 to
/// 6.3 and 10 below build 21996, a workstation and a server of the same numbers never
/// get the same kind.
pub proof fn law_os_kind_builds(v: OsVersion, server_r2: bool)
    ensures
        v.major == 10 ==> ((os_kind_of(v, server_r2) == OsKind::OS_WIN11) <==> v.build >= 21996),
        v.major == 10 && v.build < 21996 ==> os_kind_of(v, server_r2)
            == (if v.workstation { OsKind::OS_WIN10 } else { OsKind::OS_WINSRV2016 }),
        (v.major == 6 && v.minor <= 3) || (v.major == 10 && v.build < 21996) ==>
            os_kind_of(OsVersion { workstation: true, ..v }, server_r2)
                != os_kind_of(OsVersion { workstation: false, ..v }, server_r2),
{
}
} // verus!
