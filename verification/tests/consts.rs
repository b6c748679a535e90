use uwscr_builtins::builtin_args::ConstEnum;
use uwscr_builtins::consts::{
    FileConst, FormatConst, GetItemConst, MorgContextConst, MorgTargetConst, OsKind, QsrtConst, SldConst,
    VirtualKeyCodes,
};

#[test]
fn numbers_of_constants() {
    assert_eq!(QsrtConst::QSRT_NATURALD.value(), 5);
    assert_eq!(FileConst::F_APPEND.value(), 1024);
    assert_eq!(FileConst::F_ALLTEXT.value(), -2);
    assert_eq!(GetItemConst::ITM_ACCCLK2.value(), 272629760);
    assert_eq!(OsKind::OS_WIN11.value(), 32);
    assert_eq!(VirtualKeyCodes::VK_A.value(), 0x41);
}

#[test]
fn constants_from_numbers() {
    assert!(FileConst::from_value(-1) == Some(FileConst::F_LINECOUNT));
    assert!(FileConst::from_value(3) == None);
    assert!(OsKind::from_value(22) == Some(OsKind::OS_WIN7));
    assert!(SldConst::from_value(6) == Some(SldConst::SLD_Y));
}

#[test]
fn defaults() {
    assert!(FormatConst::default() == FormatConst::FMT_DEFAULT);
    assert!(SldConst::default() == SldConst::SLD_POS);
    assert!(MorgTargetConst::default() == MorgTargetConst::MORG_WINDOW);
    assert!(MorgContextConst::default() == MorgContextConst::MORG_FORE);
}
