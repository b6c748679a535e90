//! The numbered constants that scripts see, each table in the order its constants are
//! declared, with their alternative names; and how they are registered as builtin names.

use vstd::prelude::*;
use crate::registry::{to_upper, upper, Builtin};

verus! {

/// A table of numbered constants: each name with its number, alternative names
/// following the name they stand for.
pub trait ConstTable {
    /// The names and numbers, in order.
    spec fn table() -> Seq<(&'static str, i64)>;

    /// The names and numbers, in order.
    fn entries() -> (r: Vec<(&'static str, i64)>)
        ensures
            r@ == Self::table();
}

/// The registered entries of a table: each name in upper case standing for its number.
#[verifier::opaque]
pub open spec fn const_entries(t: Seq<(&'static str, i64)>) -> Seq<(Seq<char>, i64)> {
    t.map_values(|e: (&'static str, i64)| (upper(e.0@), e.1))
}

/// The registered entries as plain values.
pub open spec fn registered<F>(v: Seq<(String, Builtin<F>)>) -> Seq<(Seq<char>, Option<i64>)> {
    v.map_values(|e: (String, Builtin<F>)| (e.0@, match e.1 { Builtin::Num(n) => Some(n), _ => None }))
}

/// The plain view of table entries as registered numbers.
pub open spec fn as_registered(t: Seq<(Seq<char>, i64)>) -> Seq<(Seq<char>, Option<i64>)> {
    t.map_values(|e: (Seq<char>, i64)| (e.0, Some(e.1)))
}

/// Registers the constants of a table, in order (see `const_entries`).
pub fn set_builtin_consts<E: ConstTable, F>(out: &mut Vec<(String, Builtin<F>)>)
    ensures
        registered(final(out)@) == registered(old(out)@) + as_registered(const_entries(E::table())),
{
    let entries = E::entries();
    let ghost start = out@;
    proof {
        reveal(const_entries);
    }
    let mut k: usize = 0;
    while k < entries.len()
        invariant
            k <= entries@.len(),
            entries@ == E::table(),
            registered(out@) == registered(start) + as_registered(const_entries(E::table()).take(k as int)),
        decreases entries.len() - k,
    {
        let (name, n) = entries[k];
        let ghost before = out@;
        out.push((to_upper(name), Builtin::Num(n)));
        proof {
            reveal(const_entries);
            assert(registered(out@) =~= registered(before).push((upper(name@), Some(n))));
            assert(as_registered(const_entries(E::table()).take(k as int + 1)) =~= as_registered(const_entries(E::table()).take(k as int)).push((upper(name@), Some(n))));
        }
        k = k + 1;
    }
    proof {
        reveal(const_entries);
        assert(const_entries(E::table()).take(k as int) =~= const_entries(E::table()));
    }
}

impl ConstTable for crate::consts::CtrlWinCmd {
    open spec fn table() -> Seq<(&'static str, i64)> {
        seq![
            ("CLOSE", 2i64),
            ("CLOSE2", 3i64),
            ("ACTIVATE", 1i64),
            ("HIDE", 4i64),
            ("SHOW", 5i64),
            ("MIN", 6i64),
            ("MAX", 7i64),
            ("NORMAL", 8i64),
            ("TOPMOST", 9i64),
            ("NOTOPMOST", 10i64),
            ("TOPNOACTV", 11i64),
        ]
    }

    fn entries() -> (r: Vec<(&'static str, i64)>) {
        vec![
            ("CLOSE", 2i64),
            ("CLOSE2", 3i64),
            ("ACTIVATE", 1i64),
            ("HIDE", 4i64),
            ("SHOW", 5i64),
            ("MIN", 6i64),
            ("MAX", 7i64),
            ("NORMAL", 8i64),
            ("TOPMOST", 9i64),
            ("NOTOPMOST", 10i64),
            ("TOPNOACTV", 11i64),
        ]
    }
}

impl ConstTable for crate::consts::StatusEnum {
    open spec fn table() -> Seq<(&'static str, i64)> {
        seq![
            ("ST_ALL", 0i64),
            ("ST_TITLE", 9i64),
            ("ST_CLASS", 14i64),
            ("ST_X", 1i64),
            ("ST_Y", 2i64),
            ("ST_WIDTH", 3i64),
            ("ST_HEIGHT", 4i64),
            ("ST_CLX", 5i64),
            ("ST_CLY", 6i64),
            ("ST_CLWIDTH", 7i64),
            ("ST_CLHEIGHT", 8i64),
            ("ST_PARENT", 16i64),
            ("ST_ICON", 10i64),
            ("ST_MAXIMIZED", 11i64),
            ("ST_VISIBLE", 12i64),
            ("ST_ACTIVE", 13i64),
            ("ST_BUSY", 15i64),
            ("ST_ISID", 21i64),
            ("ST_WIN64", 19i64),
            ("ST_PATH", 17i64),
            ("ST_PROCESS", 18i64),
            ("ST_MONITOR", 20i64),
            ("ST_WX", 101i64),
            ("ST_WY", 102i64),
            ("ST_WWIDTH", 103i64),
            ("ST_WHEIGHT", 104i64),
        ]
    }

    fn entries() -> (r: Vec<(&'static str, i64)>) {
        vec![
            ("ST_ALL", 0i64),
            ("ST_TITLE", 9i64),
            ("ST_CLASS", 14i64),
            ("ST_X", 1i64),
            ("ST_Y", 2i64),
            ("ST_WIDTH", 3i64),
            ("ST_HEIGHT", 4i64),
            ("ST_CLX", 5i64),
            ("ST_CLY", 6i64),
            ("ST_CLWIDTH", 7i64),
            ("ST_CLHEIGHT", 8i64),
            ("ST_PARENT", 16i64),
            ("ST_ICON", 10i64),
            ("ST_MAXIMIZED", 11i64),
            ("ST_VISIBLE", 12i64),
            ("ST_ACTIVE", 13i64),
            ("ST_BUSY", 15i64),
            ("ST_ISID", 21i64),
            ("ST_WIN64", 19i64),
            ("ST_PATH", 17i64),
            ("ST_PROCESS", 18i64),
            ("ST_MONITOR", 20i64),
            ("ST_WX", 101i64),
            ("ST_WY", 102i64),
            ("ST_WWIDTH", 103i64),
            ("ST_WHEIGHT", 104i64),
        ]
    }
}

impl ConstTable for crate::consts::MonitorEnum {
    open spec fn table() -> Seq<(&'static str, i64)> {
        seq![
            ("MON_X", 0i64),
            ("MON_Y", 1i64),
            ("MON_WIDTH", 2i64),
            ("MON_HEIGHT", 3i64),
            ("MON_PRIMARY", 4i64),
            ("MON_ISMAIN", 4i64),
            ("MON_NAME", 5i64),
            ("MON_WORK_X", 10i64),
            ("MON_WORK_Y", 11i64),
            ("MON_WORK_WIDTH", 12i64),
            ("MON_WORK_HEIGHT", 13i64),
            ("MON_DPI", 15i64),
            ("MON_SCALING", 16i64),
            ("MON_ALL", 20i64),
        ]
    }

    fn entries() -> (r: Vec<(&'static str, i64)>) {
        vec![
            ("MON_X", 0i64),
            ("MON_Y", 1i64),
            ("MON_WIDTH", 2i64),
            ("MON_HEIGHT", 3i64),
            ("MON_PRIMARY", 4i64),
            ("MON_ISMAIN", 4i64),
            ("MON_NAME", 5i64),
            ("MON_WORK_X", 10i64),
            ("MON_WORK_Y", 11i64),
            ("MON_WORK_WIDTH", 12i64),
            ("MON_WORK_HEIGHT", 13i64),
            ("MON_DPI", 15i64),
            ("MON_SCALING", 16i64),
            ("MON_ALL", 20i64),
        ]
    }
}

impl ConstTable for crate::consts::ClkConst {
    open spec fn table() -> Seq<(&'static str, i64)> {
        seq![
            ("CLK_BTN", 1i64),
            ("CLK_LIST", 2i64),
            ("CLK_MENU", 4i64),
            ("CLK_TAB", 8i64),
            ("CLK_TREEVIEW", 16i64),
            ("CLK_TREEVEW", 16i64),
            ("CLK_LISTVIEW", 32i64),
            ("CLK_LSTVEW", 32i64),
            ("CLK_TOOLBAR", 64i64),
            ("CLK_LINK", 128i64),
            ("CLK_SHORT", 256i64),
            ("CLK_BACK", 512i64),
            ("CLK_MOUSEMOVE", 1024i64),
            ("CLK_MUSMOVE", 1024i64),
            ("CLK_RIGHTCLK", 4096i64),
            ("CLK_LEFTCLK", 2048i64),
            ("CLK_DBLCLK", 8192i64),
            ("CLK_FROMLAST", 65536i64),
            ("CLK_ACC", 32768i64),
            ("CLK_API", 536870912i64),
            ("CLK_UIA", 1073741824i64),
            ("CLK_HWND", 262144i64),
        ]
    }

    fn entries() -> (r: Vec<(&'static str, i64)>) {
        vec![
            ("CLK_BTN", 1i64),
            ("CLK_LIST", 2i64),
            ("CLK_MENU", 4i64),
            ("CLK_TAB", 8i64),
            ("CLK_TREEVIEW", 16i64),
            ("CLK_TREEVEW", 16i64),
            ("CLK_LISTVIEW", 32i64),
            ("CLK_LSTVEW", 32i64),
            ("CLK_TOOLBAR", 64i64),
            ("CLK_LINK", 128i64),
            ("CLK_SHORT", 256i64),
            ("CLK_BACK", 512i64),
            ("CLK_MOUSEMOVE", 1024i64),
            ("CLK_MUSMOVE", 1024i64),
            ("CLK_RIGHTCLK", 4096i64),
            ("CLK_LEFTCLK", 2048i64),
            ("CLK_DBLCLK", 8192i64),
            ("CLK_FROMLAST", 65536i64),
            ("CLK_ACC", 32768i64),
            ("CLK_API", 536870912i64),
            ("CLK_UIA", 1073741824i64),
            ("CLK_HWND", 262144i64),
        ]
    }
}

impl ConstTable for crate::consts::GetItemConst {
    open spec fn table() -> Seq<(&'static str, i64)> {
        seq![
            ("ITM_BTN", 1i64),
            ("ITM_LIST", 2i64),
            ("ITM_TAB", 8i64),
            ("ITM_MENU", 4i64),
            ("ITM_TREEVIEW", 16i64),
            ("ITM_TREEVEW", 16i64),
            ("ITM_LISTVIEW", 32i64),
            ("ITM_LSTVEW", 32i64),
            ("ITM_EDIT", 131072i64),
            ("ITM_STATIC", 262144i64),
            ("ITM_STATUSBAR", 524288i64),
            ("ITM_TOOLBAR", 64i64),
            ("ITM_LINK", 128i64),
            ("ITM_ACCCLK", 4194304i64),
            ("ITM_ACCCLK2", 272629760i64),
            ("ITM_ACCTXT", 8388608i64),
            ("ITM_ACCEDIT", 16777216i64),
            ("ITM_FROMLAST", 65536i64),
        ]
    }

    fn entries() -> (r: Vec<(&'static str, i64)>) {
        vec![
            ("ITM_BTN", 1i64),
            ("ITM_LIST", 2i64),
            ("ITM_TAB", 8i64),
            ("ITM_MENU", 4i64),
            ("ITM_TREEVIEW", 16i64),
            ("ITM_TREEVEW", 16i64),
            ("ITM_LISTVIEW", 32i64),
            ("ITM_LSTVEW", 32i64),
            ("ITM_EDIT", 131072i64),
            ("ITM_STATIC", 262144i64),
            ("ITM_STATUSBAR", 524288i64),
            ("ITM_TOOLBAR", 64i64),
            ("ITM_LINK", 128i64),
            ("ITM_ACCCLK", 4194304i64),
            ("ITM_ACCCLK2", 272629760i64),
            ("ITM_ACCTXT", 8388608i64),
            ("ITM_ACCEDIT", 16777216i64),
            ("ITM_FROMLAST", 65536i64),
        ]
    }
}

impl ConstTable for crate::consts::AccConst {
    open spec fn table() -> Seq<(&'static str, i64)> {
        seq![
            ("ACC_ACC", 1i64),
            ("ACC_API", 2i64),
            ("ACC_NAME", 3i64),
            ("ACC_VALUE", 4i64),
            ("ACC_ROLE", 5i64),
            ("ACC_STATE", 6i64),
            ("ACC_DESCRIPTION", 7i64),
            ("ACC_LOCATION", 8i64),
            ("ACC_BACK", 512i64),
        ]
    }

    fn entries() -> (r: Vec<(&'static str, i64)>) {
        vec![
            ("ACC_ACC", 1i64),
            ("ACC_API", 2i64),
            ("ACC_NAME", 3i64),
            ("ACC_VALUE", 4i64),
            ("ACC_ROLE", 5i64),
            ("ACC_STATE", 6i64),
            ("ACC_DESCRIPTION", 7i64),
            ("ACC_LOCATION", 8i64),
            ("ACC_BACK", 512i64),
        ]
    }
}

impl ConstTable for crate::consts::CurConst {
    open spec fn table() -> Seq<(&'static str, i64)> {
        seq![
            ("CUR_APPSTARTING", 1i64),
            ("CUR_ARROW", 2i64),
            ("CUR_CROSS", 3i64),
            ("CUR_HAND", 4i64),
            ("CUR_HELP", 5i64),
            ("CUR_IBEAM", 6i64),
            ("CUR_NO", 8i64),
            ("CUR_SIZEALL", 10i64),
            ("CUR_SIZENESW", 11i64),
            ("CUR_SIZENS", 12i64),
            ("CUR_SIZENWSE", 13i64),
            ("CUR_SIZEWE", 14i64),
            ("CUR_UPARROW", 15i64),
            ("CUR_WAIT", 16i64),
        ]
    }

    fn entries() -> (r: Vec<(&'static str, i64)>) {
        vec![
            ("CUR_APPSTARTING", 1i64),
            ("CUR_ARROW", 2i64),
            ("CUR_CROSS", 3i64),
            ("CUR_HAND", 4i64),
            ("CUR_HELP", 5i64),
            ("CUR_IBEAM", 6i64),
            ("CUR_NO", 8i64),
            ("CUR_SIZEALL", 10i64),
            ("CUR_SIZENESW", 11i64),
            ("CUR_SIZENS", 12i64),
            ("CUR_SIZENWSE", 13i64),
            ("CUR_SIZEWE", 14i64),
            ("CUR_UPARROW", 15i64),
            ("CUR_WAIT", 16i64),
        ]
    }
}

impl ConstTable for crate::consts::ColConst {
    open spec fn table() -> Seq<(&'static str, i64)> {
        seq![
            ("COL_BGR", 0i64),
            ("COL_RGB", 3i64),
            ("COL_R", 4i64),
            ("COL_G", 5i64),
            ("COL_B", 6i64),
        ]
    }

    fn entries() -> (r: Vec<(&'static str, i64)>) {
        vec![
            ("COL_BGR", 0i64),
            ("COL_RGB", 3i64),
            ("COL_R", 4i64),
            ("COL_G", 5i64),
            ("COL_B", 6i64),
        ]
    }
}

impl ConstTable for crate::consts::SldConst {
    open spec fn table() -> Seq<(&'static str, i64)> {
        seq![
            ("SLD_POS", 0i64),
            ("SLD_MIN", 1i64),
            ("SLD_MAX", 2i64),
            ("SLD_PAGE", 3i64),
            ("SLD_BAR", 4i64),
            ("SLD_X", 5i64),
            ("SLD_Y", 6i64),
        ]
    }

    fn entries() -> (r: Vec<(&'static str, i64)>) {
        vec![
            ("SLD_POS", 0i64),
            ("SLD_MIN", 1i64),
            ("SLD_MAX", 2i64),
            ("SLD_PAGE", 3i64),
            ("SLD_BAR", 4i64),
            ("SLD_X", 5i64),
            ("SLD_Y", 6i64),
        ]
    }
}

impl ConstTable for crate::consts::GetStrConst {
    open spec fn table() -> Seq<(&'static str, i64)> {
        seq![
            ("STR_EDIT", 0i64),
            ("STR_STATIC", 1i64),
            ("STR_STATUS", 2i64),
            ("STR_ACC_EDIT", 3i64),
            ("STR_ACC_STATIC", 4i64),
            ("STR_ACC_CELL", 5i64),
            ("STR_UIA", 6i64),
        ]
    }

    fn entries() -> (r: Vec<(&'static str, i64)>) {
        vec![
            ("STR_EDIT", 0i64),
            ("STR_STATIC", 1i64),
            ("STR_STATUS", 2i64),
            ("STR_ACC_EDIT", 3i64),
            ("STR_ACC_STATIC", 4i64),
            ("STR_ACC_CELL", 5i64),
            ("STR_UIA", 6i64),
        ]
    }
}

impl ConstTable for crate::consts::ImgConst {
    open spec fn table() -> Seq<(&'static str, i64)> {
        seq![
            ("IMG_AUTO", 0i64),
            ("IMG_FORE", 1i64),
            ("IMG_BACK", 2i64),
        ]
    }

    fn entries() -> (r: Vec<(&'static str, i64)>) {
        vec![
            ("IMG_AUTO", 0i64),
            ("IMG_FORE", 1i64),
            ("IMG_BACK", 2i64),
        ]
    }
}

impl ConstTable for crate::consts::MorgTargetConst {
    open spec fn table() -> Seq<(&'static str, i64)> {
        seq![
            ("MORG_WINDOW", 0i64),
            ("MORG_CLIENT", 1i64),
            ("MORG_DIRECT", 2i64),
        ]
    }

    fn entries() -> (r: Vec<(&'static str, i64)>) {
        vec![
            ("MORG_WINDOW", 0i64),
            ("MORG_CLIENT", 1i64),
            ("MORG_DIRECT", 2i64),
        ]
    }
}

impl ConstTable for crate::consts::MorgContextConst {
    open spec fn table() -> Seq<(&'static str, i64)> {
        seq![
            ("MORG_FORE", 1i64),
            ("MORG_BACK", 2i64),
        ]
    }

    fn entries() -> (r: Vec<(&'static str, i64)>) {
        vec![
            ("MORG_FORE", 1i64),
            ("MORG_BACK", 2i64),
        ]
    }
}

impl ConstTable for crate::regexp::RegexEnum {
    open spec fn table() -> Seq<(&'static str, i64)> {
        seq![
            ("REGEX_TEST", 0i64),
            ("REGEX_MATCH", 1i64),
        ]
    }

    fn entries() -> (r: Vec<(&'static str, i64)>) {
        vec![
            ("REGEX_TEST", 0i64),
            ("REGEX_MATCH", 1i64),
        ]
    }
}

impl ConstTable for crate::consts::ErrConst {
    open spec fn table() -> Seq<(&'static str, i64)> {
        seq![
            ("ERR_VALUE", -999999i64),
        ]
    }

    fn entries() -> (r: Vec<(&'static str, i64)>) {
        vec![
            ("ERR_VALUE", -999999i64),
        ]
    }
}

impl ConstTable for crate::strconv::StrconvConst {
    open spec fn table() -> Seq<(&'static str, i64)> {
        seq![
            ("SC_LOWERCASE", 256i64),
            ("SC_UPPERCASE", 512i64),
            ("SC_HIRAGANA", 1048576i64),
            ("SC_KATAKANA", 2097152i64),
            ("SC_HALFWIDTH", 4194304i64),
            ("SC_FULLWIDTH", 8388608i64),
        ]
    }

    fn entries() -> (r: Vec<(&'static str, i64)>) {
        vec![
            ("SC_LOWERCASE", 256i64),
            ("SC_UPPERCASE", 512i64),
            ("SC_HIRAGANA", 1048576i64),
            ("SC_KATAKANA", 2097152i64),
            ("SC_HALFWIDTH", 4194304i64),
            ("SC_FULLWIDTH", 8388608i64),
        ]
    }
}

impl ConstTable for crate::consts::FormatConst {
    open spec fn table() -> Seq<(&'static str, i64)> {
        seq![
            ("FMT_DEFAULT", 0i64),
            ("FMT_ZERO", 1i64),
            ("FMT_RIGHT", 2i64),
            ("FMT_ZEROR", 3i64),
        ]
    }

    fn entries() -> (r: Vec<(&'static str, i64)>) {
        vec![
            ("FMT_DEFAULT", 0i64),
            ("FMT_ZERO", 1i64),
            ("FMT_RIGHT", 2i64),
            ("FMT_ZEROR", 3i64),
        ]
    }
}

impl ConstTable for crate::codec::CodeConst {
    open spec fn table() -> Seq<(&'static str, i64)> {
        seq![
            ("CODE_ANSI", 1i64),
            ("CODE_URL", 2i64),
            ("CODE_UTF8", 3i64),
            ("CODE_HTML", 4i64),
            ("CODE_BYTEARRAY", 5i64),
            ("CODE_BYTEARRAYW", 6i64),
            ("CODE_BYTEARRAYU", 7i64),
        ]
    }

    fn entries() -> (r: Vec<(&'static str, i64)>) {
        vec![
            ("CODE_ANSI", 1i64),
            ("CODE_URL", 2i64),
            ("CODE_UTF8", 3i64),
            ("CODE_HTML", 4i64),
            ("CODE_BYTEARRAY", 5i64),
            ("CODE_BYTEARRAYW", 6i64),
            ("CODE_BYTEARRAYU", 7i64),
        ]
    }
}

impl ConstTable for crate::consts::OsKind {
    open spec fn table() -> Seq<(&'static str, i64)> {
        seq![
            ("OS_WIN2000", 12i64),
            ("OS_WINXP", 13i64),
            ("OS_WINSRV2003", 14i64),
            ("OS_WINSRV2003R2", 15i64),
            ("OS_WINVISTA", 20i64),
            ("OS_WINSRV2008", 21i64),
            ("OS_WIN7", 22i64),
            ("OS_WINSRV2008R2", 27i64),
            ("OS_WIN8", 23i64),
            ("OS_WINSRV2012", 24i64),
            ("OS_WIN81", 25i64),
            ("OS_WINSRV2012R2", 26i64),
            ("OS_WIN10", 30i64),
            ("OS_WINSRV2016", 31i64),
            ("OS_WIN11", 32i64),
            ("OS_UNKNOWN", 0i64),
        ]
    }

    fn entries() -> (r: Vec<(&'static str, i64)>) {
        vec![
            ("OS_WIN2000", 12i64),
            ("OS_WINXP", 13i64),
            ("OS_WINSRV2003", 14i64),
            ("OS_WINSRV2003R2", 15i64),
            ("OS_WINVISTA", 20i64),
            ("OS_WINSRV2008", 21i64),
            ("OS_WIN7", 22i64),
            ("OS_WINSRV2008R2", 27i64),
            ("OS_WIN8", 23i64),
            ("OS_WINSRV2012", 24i64),
            ("OS_WIN81", 25i64),
            ("OS_WINSRV2012R2", 26i64),
            ("OS_WIN10", 30i64),
            ("OS_WINSRV2016", 31i64),
            ("OS_WIN11", 32i64),
            ("OS_UNKNOWN", 0i64),
        ]
    }
}

impl ConstTable for crate::consts::KindOfOsResultType {
    open spec fn table() -> Seq<(&'static str, i64)> {
        seq![
            ("KIND_OF_OS", 0i64),
            ("IS_64BIT_OS", 1i64),
            ("OSVER_MAJOR", 2i64),
            ("OSVER_MINOR", 3i64),
            ("OSVER_BUILD", 4i64),
            ("OSVER_PLATFORM", 5i64),
        ]
    }

    fn entries() -> (r: Vec<(&'static str, i64)>) {
        vec![
            ("KIND_OF_OS", 0i64),
            ("IS_64BIT_OS", 1i64),
            ("OSVER_MAJOR", 2i64),
            ("OSVER_MINOR", 3i64),
            ("OSVER_BUILD", 4i64),
            ("OSVER_PLATFORM", 5i64),
        ]
    }
}

impl ConstTable for crate::consts::LockHardExConst {
    open spec fn table() -> Seq<(&'static str, i64)> {
        seq![
            ("LOCK_ALL", 0i64),
            ("LOCK_KEYBOARD", 1i64),
            ("LOCK_MOUSE", 2i64),
        ]
    }

    fn entries() -> (r: Vec<(&'static str, i64)>) {
        vec![
            ("LOCK_ALL", 0i64),
            ("LOCK_KEYBOARD", 1i64),
            ("LOCK_MOUSE", 2i64),
        ]
    }
}

impl ConstTable for crate::consts::SensorConst {
    open spec fn table() -> Seq<(&'static str, i64)> {
        seq![
            ("SNSR_BIOMETRIC_HUMANPRESENSE", 1i64),
            ("SNSR_BIOMETRIC_HUMANPROXIMITY", 2i64),
            ("SNSR_ELECTRICAL_CAPACITANCE", 5i64),
            ("SNSR_ELECTRICAL_RESISTANCE", 6i64),
            ("SNSR_ELECTRICAL_INDUCTANCE", 7i64),
            ("SNSR_ELECTRICAL_CURRENT", 8i64),
            ("SNSR_ELECTRICAL_VOLTAGE", 9i64),
            ("SNSR_ELECTRICAL_POWER", 10i64),
            ("SNSR_ENVIRONMENTAL_TEMPERATURE", 15i64),
            ("SNSR_ENVIRONMENTAL_PRESSURE", 16i64),
            ("SNSR_ENVIRONMENTAL_HUMIDITY", 17i64),
            ("SNSR_ENVIRONMENTAL_WINDDIRECTION", 18i64),
            ("SNSR_ENVIRONMENTAL_WINDSPEED", 19i64),
            ("SNSR_LIGHT_LUX", 20i64),
            ("SNSR_LIGHT_TEMPERATURE", 21i64),
            ("SNSR_MECHANICAL_FORCE", 25i64),
            ("SNSR_MECHANICAL_ABSPRESSURE", 26i64),
            ("SNSR_MECHANICAL_GAUGEPRESSURE", 27i64),
            ("SNSR_MECHANICAL_WEIGHT", 28i64),
            ("SNSR_MOTION_ACCELERATIONX", 30i64),
            ("SNSR_MOTION_ACCELERATIONY", 31i64),
            ("SNSR_MOTION_ACCELERATIONZ", 32i64),
            ("SNSR_MOTION_ANGLEACCELX", 33i64),
            ("SNSR_MOTION_ANGLEACCELY", 34i64),
            ("SNSR_MOTION_ANGLEACCELZ", 35i64),
            ("SNSR_MOTION_SPEED", 36i64),
            ("SNSR_SCANNER_RFIDTAG", 40i64),
            ("SNSR_SCANNER_BARCODEDATA", 41i64),
            ("SNSR_ORIENTATION_TILTX", 45i64),
            ("SNSR_ORIENTATION_TILTY", 46i64),
            ("SNSR_ORIENTATION_TILTZ", 47i64),
            ("SNSR_ORIENTATION_DISTANCEX", 48i64),
            ("SNSR_ORIENTATION_DISTANCEY", 49i64),
            ("SNSR_ORIENTATION_DISTANCEZ", 50i64),
            ("SNSR_ORIENTATION_MAGHEADING", 51i64),
            ("SNSR_ORIENTATION_TRUEHEADING", 52i64),
            ("SNSR_ORIENTATION_COMPMAGHEADING", 53i64),
            ("SNSR_ORIENTATION_COMPTRUEHEADING", 54i64),
            ("SNSR_LOCATION_ALTITUDE", 60i64),
            ("SNSR_LOCATION_LATITUDE", 61i64),
            ("SNSR_LOCATION_LONGITUDE", 62i64),
            ("SNSR_LOCATION_SPEED", 63i64),
        ]
    }

    fn entries() -> (r: Vec<(&'static str, i64)>) {
        vec![
            ("SNSR_BIOMETRIC_HUMANPRESENSE", 1i64),
            ("SNSR_BIOMETRIC_HUMANPROXIMITY", 2i64),
            ("SNSR_ELECTRICAL_CAPACITANCE", 5i64),
            ("SNSR_ELECTRICAL_RESISTANCE", 6i64),
            ("SNSR_ELECTRICAL_INDUCTANCE", 7i64),
            ("SNSR_ELECTRICAL_CURRENT", 8i64),
            ("SNSR_ELECTRICAL_VOLTAGE", 9i64),
            ("SNSR_ELECTRICAL_POWER", 10i64),
            ("SNSR_ENVIRONMENTAL_TEMPERATURE", 15i64),
            ("SNSR_ENVIRONMENTAL_PRESSURE", 16i64),
            ("SNSR_ENVIRONMENTAL_HUMIDITY", 17i64),
            ("SNSR_ENVIRONMENTAL_WINDDIRECTION", 18i64),
            ("SNSR_ENVIRONMENTAL_WINDSPEED", 19i64),
            ("SNSR_LIGHT_LUX", 20i64),
            ("SNSR_LIGHT_TEMPERATURE", 21i64),
            ("SNSR_MECHANICAL_FORCE", 25i64),
            ("SNSR_MECHANICAL_ABSPRESSURE", 26i64),
            ("SNSR_MECHANICAL_GAUGEPRESSURE", 27i64),
            ("SNSR_MECHANICAL_WEIGHT", 28i64),
            ("SNSR_MOTION_ACCELERATIONX", 30i64),
            ("SNSR_MOTION_ACCELERATIONY", 31i64),
            ("SNSR_MOTION_ACCELERATIONZ", 32i64),
            ("SNSR_MOTION_ANGLEACCELX", 33i64),
            ("SNSR_MOTION_ANGLEACCELY", 34i64),
            ("SNSR_MOTION_ANGLEACCELZ", 35i64),
            ("SNSR_MOTION_SPEED", 36i64),
            ("SNSR_SCANNER_RFIDTAG", 40i64),
            ("SNSR_SCANNER_BARCODEDATA", 41i64),
            ("SNSR_ORIENTATION_TILTX", 45i64),
            ("SNSR_ORIENTATION_TILTY", 46i64),
            ("SNSR_ORIENTATION_TILTZ", 47i64),
            ("SNSR_ORIENTATION_DISTANCEX", 48i64),
            ("SNSR_ORIENTATION_DISTANCEY", 49i64),
            ("SNSR_ORIENTATION_DISTANCEZ", 50i64),
            ("SNSR_ORIENTATION_MAGHEADING", 51i64),
            ("SNSR_ORIENTATION_TRUEHEADING", 52i64),
            ("SNSR_ORIENTATION_COMPMAGHEADING", 53i64),
            ("SNSR_ORIENTATION_COMPTRUEHEADING", 54i64),
            ("SNSR_LOCATION_ALTITUDE", 60i64),
            ("SNSR_LOCATION_LATITUDE", 61i64),
            ("SNSR_LOCATION_LONGITUDE", 62i64),
            ("SNSR_LOCATION_SPEED", 63i64),
        ]
    }
}

impl ConstTable for crate::consts::ToggleKey {
    open spec fn table() -> Seq<(&'static str, i64)> {
        seq![
            ("TGL_NUMLOCK", 10000i64),
            ("TGL_CAPSLOCK", 10001i64),
            ("TGL_SCROLLLOCK", 10002i64),
            ("TGL_KANALOCK", 10003i64),
            ("TGL_IME", 10004i64),
        ]
    }

    fn entries() -> (r: Vec<(&'static str, i64)>) {
        vec![
            ("TGL_NUMLOCK", 10000i64),
            ("TGL_CAPSLOCK", 10001i64),
            ("TGL_SCROLLLOCK", 10002i64),
            ("TGL_KANALOCK", 10003i64),
            ("TGL_IME", 10004i64),
        ]
    }
}

impl ConstTable for crate::consts::VirtualMouseButton {
    open spec fn table() -> Seq<(&'static str, i64)> {
        seq![
            ("VK_LBUTTON", 1i64),
            ("VK_RBUTTON", 2i64),
            ("VK_MBUTTON", 4i64),
        ]
    }

    fn entries() -> (r: Vec<(&'static str, i64)>) {
        vec![
            ("VK_LBUTTON", 1i64),
            ("VK_RBUTTON", 2i64),
            ("VK_MBUTTON", 4i64),
        ]
    }
}

impl ConstTable for crate::consts::VarType {
    open spec fn table() -> Seq<(&'static str, i64)> {
        seq![
            ("VAR_EMPTY", 0i64),
            ("VAR_NULL", 1i64),
            ("VAR_SMALLINT", 2i64),
            ("VAR_INTEGER", 3i64),
            ("VAR_SINGLE", 4i64),
            ("VAR_DOUBLE", 5i64),
            ("VAR_CURRENCY", 6i64),
            ("VAR_DATE", 7i64),
            ("VAR_BSTR", 8i64),
            ("VAR_DISPATCH", 9i64),
            ("VAR_ERROR", 10i64),
            ("VAR_BOOLEAN", 11i64),
            ("VAR_VARIANT", 12i64),
            ("VAR_UNKNOWN", 13i64),
            ("VAR_SBYTE", 16i64),
            ("VAR_BYTE", 17i64),
            ("VAR_WORD", 18i64),
            ("VAR_DWORD", 19i64),
            ("VAR_INT64", 20i64),
            ("VAR_ASTR", 256i64),
            ("VAR_USTR", 258i64),
            ("VAR_UWSCR", 512i64),
            ("VAR_ARRAY", 8192i64),
        ]
    }

    fn entries() -> (r: Vec<(&'static str, i64)>) {
        vec![
            ("VAR_EMPTY", 0i64),
            ("VAR_NULL", 1i64),
            ("VAR_SMALLINT", 2i64),
            ("VAR_INTEGER", 3i64),
            ("VAR_SINGLE", 4i64),
            ("VAR_DOUBLE", 5i64),
            ("VAR_CURRENCY", 6i64),
            ("VAR_DATE", 7i64),
            ("VAR_BSTR", 8i64),
            ("VAR_DISPATCH", 9i64),
            ("VAR_ERROR", 10i64),
            ("VAR_BOOLEAN", 11i64),
            ("VAR_VARIANT", 12i64),
            ("VAR_UNKNOWN", 13i64),
            ("VAR_SBYTE", 16i64),
            ("VAR_BYTE", 17i64),
            ("VAR_WORD", 18i64),
            ("VAR_DWORD", 19i64),
            ("VAR_INT64", 20i64),
            ("VAR_ASTR", 256i64),
            ("VAR_USTR", 258i64),
            ("VAR_UWSCR", 512i64),
            ("VAR_ARRAY", 8192i64),
        ]
    }
}

impl ConstTable for crate::consts::BcEnum {
    open spec fn table() -> Seq<(&'static str, i64)> {
        seq![
            ("BC_CHROME", 1i64),
            ("BC_MSEDGE", 2i64),
            ("BC_VIVALDI", 11i64),
        ]
    }

    fn entries() -> (r: Vec<(&'static str, i64)>) {
        vec![
            ("BC_CHROME", 1i64),
            ("BC_MSEDGE", 2i64),
            ("BC_VIVALDI", 11i64),
        ]
    }
}

impl ConstTable for crate::consts::QsrtConst {
    open spec fn table() -> Seq<(&'static str, i64)> {
        seq![
            ("QSRT_A", 0i64),
            ("QSRT_D", 1i64),
            ("QSRT_UNICODEA", 2i64),
            ("QSRT_UNICODED", 3i64),
            ("QSRT_NATURALA", 4i64),
            ("QSRT_NATURALD", 5i64),
        ]
    }

    fn entries() -> (r: Vec<(&'static str, i64)>) {
        vec![
            ("QSRT_A", 0i64),
            ("QSRT_D", 1i64),
            ("QSRT_UNICODEA", 2i64),
            ("QSRT_UNICODED", 3i64),
            ("QSRT_NATURALA", 4i64),
            ("QSRT_NATURALD", 5i64),
        ]
    }
}

impl ConstTable for crate::consts::BtnConst {
    open spec fn table() -> Seq<(&'static str, i64)> {
        seq![
            ("BTN_YES", 4i64),
            ("BTN_NO", 8i64),
            ("BTN_OK", 1i64),
            ("BTN_CANCEL", 2i64),
            ("BTN_ABORT", 16i64),
            ("BTN_RETRY", 32i64),
            ("BTN_IGNORE", 64i64),
        ]
    }

    fn entries() -> (r: Vec<(&'static str, i64)>) {
        vec![
            ("BTN_YES", 4i64),
            ("BTN_NO", 8i64),
            ("BTN_OK", 1i64),
            ("BTN_CANCEL", 2i64),
            ("BTN_ABORT", 16i64),
            ("BTN_RETRY", 32i64),
            ("BTN_IGNORE", 64i64),
        ]
    }
}

impl ConstTable for crate::consts::SlctConst {
    open spec fn table() -> Seq<(&'static str, i64)> {
        seq![
            ("SLCT_BTN", 1i64),
            ("SLCT_CHK", 2i64),
            ("SLCT_RDO", 4i64),
            ("SLCT_CMB", 8i64),
            ("SLCT_LST", 16i64),
            ("SLCT_STR", 64i64),
            ("SLCT_NUM", 128i64),
        ]
    }

    fn entries() -> (r: Vec<(&'static str, i64)>) {
        vec![
            ("SLCT_BTN", 1i64),
            ("SLCT_CHK", 2i64),
            ("SLCT_RDO", 4i64),
            ("SLCT_CMB", 8i64),
            ("SLCT_LST", 16i64),
            ("SLCT_STR", 64i64),
            ("SLCT_NUM", 128i64),
        ]
    }
}

impl ConstTable for crate::consts::FileConst {
    open spec fn table() -> Seq<(&'static str, i64)> {
        seq![
            ("F_EXISTS", 1i64),
            ("F_READ", 2i64),
            ("F_WRITE", 4i64),
            ("F_WRITE1", 8i64),
            ("F_WRITE8", 16i64),
            ("F_WRITE8B", 32i64),
            ("F_WRITE16", 64i64),
            ("F_APPEND", 1024i64),
            ("F_NOCR", 128i64),
            ("F_TAB", 256i64),
            ("F_EXCLUSIVE", 512i64),
            ("F_LINECOUNT", -1i64),
            ("F_ALLTEXT", -2i64),
        ]
    }

    fn entries() -> (r: Vec<(&'static str, i64)>) {
        vec![
            ("F_EXISTS", 1i64),
            ("F_READ", 2i64),
            ("F_WRITE", 4i64),
            ("F_WRITE1", 8i64),
            ("F_WRITE8", 16i64),
            ("F_WRITE8B", 32i64),
            ("F_WRITE16", 64i64),
            ("F_APPEND", 1024i64),
            ("F_NOCR", 128i64),
            ("F_TAB", 256i64),
            ("F_EXCLUSIVE", 512i64),
            ("F_LINECOUNT", -1i64),
            ("F_ALLTEXT", -2i64),
        ]
    }
}

/// Every numbered constant that scripts see, table after table in the order they are
/// registered.
pub open spec fn all_const_entries() -> Seq<(Seq<char>, i64)> {
    const_entries(<crate::consts::CtrlWinCmd as ConstTable>::table()) + const_entries(<crate::consts::StatusEnum as ConstTable>::table()) + const_entries(<crate::consts::MonitorEnum as ConstTable>::table()) + const_entries(<crate::consts::ClkConst as ConstTable>::table()) + const_entries(<crate::consts::GetItemConst as ConstTable>::table()) + const_entries(<crate::consts::AccConst as ConstTable>::table()) + const_entries(<crate::consts::CurConst as ConstTable>::table()) + const_entries(<crate::consts::ColConst as ConstTable>::table()) + const_entries(<crate::consts::SldConst as ConstTable>::table()) + const_entries(<crate::consts::GetStrConst as ConstTable>::table()) + const_entries(<crate::consts::ImgConst as ConstTable>::table()) + const_entries(<crate::consts::MorgTargetConst as ConstTable>::table()) + const_entries(<crate::consts::MorgContextConst as ConstTable>::table()) + const_entries(<crate::regexp::RegexEnum as ConstTable>::table()) + const_entries(<crate::consts::ErrConst as ConstTable>::table()) + const_entries(<crate::strconv::StrconvConst as ConstTable>::table()) + const_entries(<crate::consts::FormatConst as ConstTable>::table()) + const_entries(<crate::codec::CodeConst as ConstTable>::table()) + const_entries(<crate::consts::OsKind as ConstTable>::table()) + const_entries(<crate::consts::KindOfOsResultType as ConstTable>::table()) + const_entries(<crate::consts::LockHardExConst as ConstTable>::table()) + const_entries(<crate::consts::SensorConst as ConstTable>::table()) + const_entries(<crate::consts::ToggleKey as ConstTable>::table()) + const_entries(<crate::consts::VirtualMouseButton as ConstTable>::table()) + const_entries(<crate::consts::VarType as ConstTable>::table()) + const_entries(<crate::consts::BcEnum as ConstTable>::table()) + const_entries(<crate::consts::QsrtConst as ConstTable>::table()) + const_entries(<crate::consts::BtnConst as ConstTable>::table()) + const_entries(<crate::consts::SlctConst as ConstTable>::table()) + const_entries(<crate::consts::FileConst as ConstTable>::table())
}

/// Registering entries one after another registers their concatenation.
proof fn lemma_registered_concat(a: Seq<(Seq<char>, i64)>, b: Seq<(Seq<char>, i64)>)
    ensures
        as_registered(a + b) == as_registered(a) + as_registered(b),
{
    assert(as_registered(a + b) =~= as_registered(a) + as_registered(b));
}

/// Registers every numbered constant (see `all_const_entries`).
#[verifier::spinoff_prover]
#[verifier::rlimit(100)]
pub fn builtin_consts<F>(out: &mut Vec<(String, Builtin<F>)>)
    ensures
        registered(final(out)@) == registered(old(out)@) + as_registered(all_const_entries()),
{
    let ghost start = out@;
    let ghost acc: Seq<(Seq<char>, i64)> = Seq::empty();
    assert(registered(out@) =~= registered(start) + as_registered(acc));
    set_builtin_consts::<crate::consts::CtrlWinCmd, F>(out);
    proof {
        lemma_registered_concat(acc, const_entries(<crate::consts::CtrlWinCmd as ConstTable>::table()));
        acc = acc + const_entries(<crate::consts::CtrlWinCmd as ConstTable>::table());
        assert(registered(out@) =~= registered(start) + as_registered(acc));
    }
    set_builtin_consts::<crate::consts::StatusEnum, F>(out);
    proof {
        lemma_registered_concat(acc, const_entries(<crate::consts::StatusEnum as ConstTable>::table()));
        acc = acc + const_entries(<crate::consts::StatusEnum as ConstTable>::table());
        assert(registered(out@) =~= registered(start) + as_registered(acc));
    }
    set_builtin_consts::<crate::consts::MonitorEnum, F>(out);
    proof {
        lemma_registered_concat(acc, const_entries(<crate::consts::MonitorEnum as ConstTable>::table()));
        acc = acc + const_entries(<crate::consts::MonitorEnum as ConstTable>::table());
        assert(registered(out@) =~= registered(start) + as_registered(acc));
    }
    set_builtin_consts::<crate::consts::ClkConst, F>(out);
    proof {
        lemma_registered_concat(acc, const_entries(<crate::consts::ClkConst as ConstTable>::table()));
        acc = acc + const_entries(<crate::consts::ClkConst as ConstTable>::table());
        assert(registered(out@) =~= registered(start) + as_registered(acc));
    }
    set_builtin_consts::<crate::consts::GetItemConst, F>(out);
    proof {
        lemma_registered_concat(acc, const_entries(<crate::consts::GetItemConst as ConstTable>::table()));
        acc = acc + const_entries(<crate::consts::GetItemConst as ConstTable>::table());
        assert(registered(out@) =~= registered(start) + as_registered(acc));
    }
    set_builtin_consts::<crate::consts::AccConst, F>(out);
    proof {
        lemma_registered_concat(acc, const_entries(<crate::consts::AccConst as ConstTable>::table()));
        acc = acc + const_entries(<crate::consts::AccConst as ConstTable>::table());
        assert(registered(out@) =~= registered(start) + as_registered(acc));
    }
    set_builtin_consts::<crate::consts::CurConst, F>(out);
    proof {
        lemma_registered_concat(acc, const_entries(<crate::consts::CurConst as ConstTable>::table()));
        acc = acc + const_entries(<crate::consts::CurConst as ConstTable>::table());
        assert(registered(out@) =~= registered(start) + as_registered(acc));
    }
    set_builtin_consts::<crate::consts::ColConst, F>(out);
    proof {
        lemma_registered_concat(acc, const_entries(<crate::consts::ColConst as ConstTable>::table()));
        acc = acc + const_entries(<crate::consts::ColConst as ConstTable>::table());
        assert(registered(out@) =~= registered(start) + as_registered(acc));
    }
    set_builtin_consts::<crate::consts::SldConst, F>(out);
    proof {
        lemma_registered_concat(acc, const_entries(<crate::consts::SldConst as ConstTable>::table()));
        acc = acc + const_entries(<crate::consts::SldConst as ConstTable>::table());
        assert(registered(out@) =~= registered(start) + as_registered(acc));
    }
    set_builtin_consts::<crate::consts::GetStrConst, F>(out);
    proof {
        lemma_registered_concat(acc, const_entries(<crate::consts::GetStrConst as ConstTable>::table()));
        acc = acc + const_entries(<crate::consts::GetStrConst as ConstTable>::table());
        assert(registered(out@) =~= registered(start) + as_registered(acc));
    }
    set_builtin_consts::<crate::consts::ImgConst, F>(out);
    proof {
        lemma_registered_concat(acc, const_entries(<crate::consts::ImgConst as ConstTable>::table()));
        acc = acc + const_entries(<crate::consts::ImgConst as ConstTable>::table());
        assert(registered(out@) =~= registered(start) + as_registered(acc));
    }
    set_builtin_consts::<crate::consts::MorgTargetConst, F>(out);
    proof {
        lemma_registered_concat(acc, const_entries(<crate::consts::MorgTargetConst as ConstTable>::table()));
        acc = acc + const_entries(<crate::consts::MorgTargetConst as ConstTable>::table());
        assert(registered(out@) =~= registered(start) + as_registered(acc));
    }
    set_builtin_consts::<crate::consts::MorgContextConst, F>(out);
    proof {
        lemma_registered_concat(acc, const_entries(<crate::consts::MorgContextConst as ConstTable>::table()));
        acc = acc + const_entries(<crate::consts::MorgContextConst as ConstTable>::table());
        assert(registered(out@) =~= registered(start) + as_registered(acc));
    }
    set_builtin_consts::<crate::regexp::RegexEnum, F>(out);
    proof {
        lemma_registered_concat(acc, const_entries(<crate::regexp::RegexEnum as ConstTable>::table()));
        acc = acc + const_entries(<crate::regexp::RegexEnum as ConstTable>::table());
        assert(registered(out@) =~= registered(start) + as_registered(acc));
    }
    set_builtin_consts::<crate::consts::ErrConst, F>(out);
    proof {
        lemma_registered_concat(acc, const_entries(<crate::consts::ErrConst as ConstTable>::table()));
        acc = acc + const_entries(<crate::consts::ErrConst as ConstTable>::table());
        assert(registered(out@) =~= registered(start) + as_registered(acc));
    }
    set_builtin_consts::<crate::strconv::StrconvConst, F>(out);
    proof {
        lemma_registered_concat(acc, const_entries(<crate::strconv::StrconvConst as ConstTable>::table()));
        acc = acc + const_entries(<crate::strconv::StrconvConst as ConstTable>::table());
        assert(registered(out@) =~= registered(start) + as_registered(acc));
    }
    set_builtin_consts::<crate::consts::FormatConst, F>(out);
    proof {
        lemma_registered_concat(acc, const_entries(<crate::consts::FormatConst as ConstTable>::table()));
        acc = acc + const_entries(<crate::consts::FormatConst as ConstTable>::table());
        assert(registered(out@) =~= registered(start) + as_registered(acc));
    }
    set_builtin_consts::<crate::codec::CodeConst, F>(out);
    proof {
        lemma_registered_concat(acc, const_entries(<crate::codec::CodeConst as ConstTable>::table()));
        acc = acc + const_entries(<crate::codec::CodeConst as ConstTable>::table());
        assert(registered(out@) =~= registered(start) + as_registered(acc));
    }
    set_builtin_consts::<crate::consts::OsKind, F>(out);
    proof {
        lemma_registered_concat(acc, const_entries(<crate::consts::OsKind as ConstTable>::table()));
        acc = acc + const_entries(<crate::consts::OsKind as ConstTable>::table());
        assert(registered(out@) =~= registered(start) + as_registered(acc));
    }
    set_builtin_consts::<crate::consts::KindOfOsResultType, F>(out);
    proof {
        lemma_registered_concat(acc, const_entries(<crate::consts::KindOfOsResultType as ConstTable>::table()));
        acc = acc + const_entries(<crate::consts::KindOfOsResultType as ConstTable>::table());
        assert(registered(out@) =~= registered(start) + as_registered(acc));
    }
    set_builtin_consts::<crate::consts::LockHardExConst, F>(out);
    proof {
        lemma_registered_concat(acc, const_entries(<crate::consts::LockHardExConst as ConstTable>::table()));
        acc = acc + const_entries(<crate::consts::LockHardExConst as ConstTable>::table());
        assert(registered(out@) =~= registered(start) + as_registered(acc));
    }
    set_builtin_consts::<crate::consts::SensorConst, F>(out);
    proof {
        lemma_registered_concat(acc, const_entries(<crate::consts::SensorConst as ConstTable>::table()));
        acc = acc + const_entries(<crate::consts::SensorConst as ConstTable>::table());
        assert(registered(out@) =~= registered(start) + as_registered(acc));
    }
    set_builtin_consts::<crate::consts::ToggleKey, F>(out);
    proof {
        lemma_registered_concat(acc, const_entries(<crate::consts::ToggleKey as ConstTable>::table()));
        acc = acc + const_entries(<crate::consts::ToggleKey as ConstTable>::table());
        assert(registered(out@) =~= registered(start) + as_registered(acc));
    }
    set_builtin_consts::<crate::consts::VirtualMouseButton, F>(out);
    proof {
        lemma_registered_concat(acc, const_entries(<crate::consts::VirtualMouseButton as ConstTable>::table()));
        acc = acc + const_entries(<crate::consts::VirtualMouseButton as ConstTable>::table());
        assert(registered(out@) =~= registered(start) + as_registered(acc));
    }
    set_builtin_consts::<crate::consts::VarType, F>(out);
    proof {
        lemma_registered_concat(acc, const_entries(<crate::consts::VarType as ConstTable>::table()));
        acc = acc + const_entries(<crate::consts::VarType as ConstTable>::table());
        assert(registered(out@) =~= registered(start) + as_registered(acc));
    }
    set_builtin_consts::<crate::consts::BcEnum, F>(out);
    proof {
        lemma_registered_concat(acc, const_entries(<crate::consts::BcEnum as ConstTable>::table()));
        acc = acc + const_entries(<crate::consts::BcEnum as ConstTable>::table());
        assert(registered(out@) =~= registered(start) + as_registered(acc));
    }
    set_builtin_consts::<crate::consts::QsrtConst, F>(out);
    proof {
        lemma_registered_concat(acc, const_entries(<crate::consts::QsrtConst as ConstTable>::table()));
        acc = acc + const_entries(<crate::consts::QsrtConst as ConstTable>::table());
        assert(registered(out@) =~= registered(start) + as_registered(acc));
    }
    set_builtin_consts::<crate::consts::BtnConst, F>(out);
    proof {
        lemma_registered_concat(acc, const_entries(<crate::consts::BtnConst as ConstTable>::table()));
        acc = acc + const_entries(<crate::consts::BtnConst as ConstTable>::table());
        assert(registered(out@) =~= registered(start) + as_registered(acc));
    }
    set_builtin_consts::<crate::consts::SlctConst, F>(out);
    proof {
        lemma_registered_concat(acc, const_entries(<crate::consts::SlctConst as ConstTable>::table()));
        acc = acc + const_entries(<crate::consts::SlctConst as ConstTable>::table());
        assert(registered(out@) =~= registered(start) + as_registered(acc));
    }
    set_builtin_consts::<crate::consts::FileConst, F>(out);
    proof {
        lemma_registered_concat(acc, const_entries(<crate::consts::FileConst as ConstTable>::table()));
        acc = acc + const_entries(<crate::consts::FileConst as ConstTable>::table());
        assert(registered(out@) =~= registered(start) + as_registered(acc));
    }
    assert(acc =~= all_const_entries());
}

} // verus!
