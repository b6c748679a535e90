//! The numbered constants that scripts pass to the builtins.
//!
//! Each table gives every constant its number and finds the constant a number selects
//! (the first one, in the order below, that has it).

use vstd::prelude::*;
use crate::builtin_args::ConstEnum;

verus! {
/// The sort orders of `qsort`.
#[allow(non_camel_case_types)]
#[derive(PartialEq, Eq, Clone, Copy, Structural)]
pub enum QsrtConst {
    QSRT_A,
    QSRT_D,
    QSRT_UNICODEA,
    QSRT_UNICODED,
    QSRT_NATURALA,
    QSRT_NATURALD,
}

impl QsrtConst {
    /// The number of each constant.
    pub open spec fn number(self) -> int {
        match self {
            QsrtConst::QSRT_A => 0,
            QsrtConst::QSRT_D => 1,
            QsrtConst::QSRT_UNICODEA => 2,
            QsrtConst::QSRT_UNICODED => 3,
            QsrtConst::QSRT_NATURALA => 4,
            QsrtConst::QSRT_NATURALD => 5,
        }
    }

    /// The number of this constant.
    pub fn value(&self) -> (r: i64)
        ensures
            r == self.number(),
    {
        match self {
            QsrtConst::QSRT_A => 0,
            QsrtConst::QSRT_D => 1,
            QsrtConst::QSRT_UNICODEA => 2,
            QsrtConst::QSRT_UNICODED => 3,
            QsrtConst::QSRT_NATURALA => 4,
            QsrtConst::QSRT_NATURALD => 5,
        }
    }
}

impl ConstEnum for QsrtConst {
    open spec fn of_value(n: int) -> Option<QsrtConst> {
        if n == 0 {
            Some(QsrtConst::QSRT_A)
        } else if n == 1 {
            Some(QsrtConst::QSRT_D)
        } else if n == 2 {
            Some(QsrtConst::QSRT_UNICODEA)
        } else if n == 3 {
            Some(QsrtConst::QSRT_UNICODED)
        } else if n == 4 {
            Some(QsrtConst::QSRT_NATURALA)
        } else if n == 5 {
            Some(QsrtConst::QSRT_NATURALD)
        } else {
            None
        }
    }

    fn from_value(n: i64) -> (r: Option<QsrtConst>) {
        if n == 0 {
            Some(QsrtConst::QSRT_A)
        } else if n == 1 {
            Some(QsrtConst::QSRT_D)
        } else if n == 2 {
            Some(QsrtConst::QSRT_UNICODEA)
        } else if n == 3 {
            Some(QsrtConst::QSRT_UNICODED)
        } else if n == 4 {
            Some(QsrtConst::QSRT_NATURALA)
        } else if n == 5 {
            Some(QsrtConst::QSRT_NATURALD)
        } else {
            None
        }
    }
}

/// The browsers that `browsercontrol` can drive.
#[allow(non_camel_case_types)]
#[derive(PartialEq, Eq, Clone, Copy, Structural)]
pub enum BcEnum {
    BC_CHROME,
    BC_MSEDGE,
    BC_VIVALDI,
}

impl BcEnum {
    /// The number of each constant.
    pub open spec fn number(self) -> int {
        match self {
            BcEnum::BC_CHROME => 1,
            BcEnum::BC_MSEDGE => 2,
            BcEnum::BC_VIVALDI => 11,
        }
    }

    /// The number of this constant.
    pub fn value(&self) -> (r: i64)
        ensures
            r == self.number(),
    {
        match self {
            BcEnum::BC_CHROME => 1,
            BcEnum::BC_MSEDGE => 2,
            BcEnum::BC_VIVALDI => 11,
        }
    }
}

impl ConstEnum for BcEnum {
    open spec fn of_value(n: int) -> Option<BcEnum> {
        if n == 1 {
            Some(BcEnum::BC_CHROME)
        } else if n == 2 {
            Some(BcEnum::BC_MSEDGE)
        } else if n == 11 {
            Some(BcEnum::BC_VIVALDI)
        } else {
            None
        }
    }

    fn from_value(n: i64) -> (r: Option<BcEnum>) {
        if n == 1 {
            Some(BcEnum::BC_CHROME)
        } else if n == 2 {
            Some(BcEnum::BC_MSEDGE)
        } else if n == 11 {
            Some(BcEnum::BC_VIVALDI)
        } else {
            None
        }
    }
}

/// The variant types of COM values (`VAR_*`).
#[allow(non_camel_case_types)]
#[derive(PartialEq, Eq, Clone, Copy, Structural)]
pub enum VarType {
    VAR_EMPTY,
    VAR_NULL,
    VAR_SMALLINT,
    VAR_INTEGER,
    VAR_SINGLE,
    VAR_DOUBLE,
    VAR_CURRENCY,
    VAR_DATE,
    VAR_BSTR,
    VAR_DISPATCH,
    VAR_ERROR,
    VAR_BOOLEAN,
    VAR_VARIANT,
    VAR_UNKNOWN,
    VAR_SBYTE,
    VAR_BYTE,
    VAR_WORD,
    VAR_DWORD,
    VAR_INT64,
    VAR_ASTR,
    VAR_USTR,
    VAR_UWSCR,
    VAR_ARRAY,
}

impl VarType {
    /// The number of each constant.
    pub open spec fn number(self) -> int {
        match self {
            VarType::VAR_EMPTY => 0,
            VarType::VAR_NULL => 1,
            VarType::VAR_SMALLINT => 2,
            VarType::VAR_INTEGER => 3,
            VarType::VAR_SINGLE => 4,
            VarType::VAR_DOUBLE => 5,
            VarType::VAR_CURRENCY => 6,
            VarType::VAR_DATE => 7,
            VarType::VAR_BSTR => 8,
            VarType::VAR_DISPATCH => 9,
            VarType::VAR_ERROR => 10,
            VarType::VAR_BOOLEAN => 11,
            VarType::VAR_VARIANT => 12,
            VarType::VAR_UNKNOWN => 13,
            VarType::VAR_SBYTE => 16,
            VarType::VAR_BYTE => 17,
            VarType::VAR_WORD => 18,
            VarType::VAR_DWORD => 19,
            VarType::VAR_INT64 => 20,
            VarType::VAR_ASTR => 256,
            VarType::VAR_USTR => 258,
            VarType::VAR_UWSCR => 512,
            VarType::VAR_ARRAY => 8192,
        }
    }

    /// The number of this constant.
    pub fn value(&self) -> (r: i64)
        ensures
            r == self.number(),
    {
        match self {
            VarType::VAR_EMPTY => 0,
            VarType::VAR_NULL => 1,
            VarType::VAR_SMALLINT => 2,
            VarType::VAR_INTEGER => 3,
            VarType::VAR_SINGLE => 4,
            VarType::VAR_DOUBLE => 5,
            VarType::VAR_CURRENCY => 6,
            VarType::VAR_DATE => 7,
            VarType::VAR_BSTR => 8,
            VarType::VAR_DISPATCH => 9,
            VarType::VAR_ERROR => 10,
            VarType::VAR_BOOLEAN => 11,
            VarType::VAR_VARIANT => 12,
            VarType::VAR_UNKNOWN => 13,
            VarType::VAR_SBYTE => 16,
            VarType::VAR_BYTE => 17,
            VarType::VAR_WORD => 18,
            VarType::VAR_DWORD => 19,
            VarType::VAR_INT64 => 20,
            VarType::VAR_ASTR => 256,
            VarType::VAR_USTR => 258,
            VarType::VAR_UWSCR => 512,
            VarType::VAR_ARRAY => 8192,
        }
    }
}

impl ConstEnum for VarType {
    open spec fn of_value(n: int) -> Option<VarType> {
        if n == 0 {
            Some(VarType::VAR_EMPTY)
        } else if n == 1 {
            Some(VarType::VAR_NULL)
        } else if n == 2 {
            Some(VarType::VAR_SMALLINT)
        } else if n == 3 {
            Some(VarType::VAR_INTEGER)
        } else if n == 4 {
            Some(VarType::VAR_SINGLE)
        } else if n == 5 {
            Some(VarType::VAR_DOUBLE)
        } else if n == 6 {
            Some(VarType::VAR_CURRENCY)
        } else if n == 7 {
            Some(VarType::VAR_DATE)
        } else if n == 8 {
            Some(VarType::VAR_BSTR)
        } else if n == 9 {
            Some(VarType::VAR_DISPATCH)
        } else if n == 10 {
            Some(VarType::VAR_ERROR)
        } else if n == 11 {
            Some(VarType::VAR_BOOLEAN)
        } else if n == 12 {
            Some(VarType::VAR_VARIANT)
        } else if n == 13 {
            Some(VarType::VAR_UNKNOWN)
        } else if n == 16 {
            Some(VarType::VAR_SBYTE)
        } else if n == 17 {
            Some(VarType::VAR_BYTE)
        } else if n == 18 {
            Some(VarType::VAR_WORD)
        } else if n == 19 {
            Some(VarType::VAR_DWORD)
        } else if n == 20 {
            Some(VarType::VAR_INT64)
        } else if n == 256 {
            Some(VarType::VAR_ASTR)
        } else if n == 258 {
            Some(VarType::VAR_USTR)
        } else if n == 512 {
            Some(VarType::VAR_UWSCR)
        } else if n == 8192 {
            Some(VarType::VAR_ARRAY)
        } else {
            None
        }
    }

    fn from_value(n: i64) -> (r: Option<VarType>) {
        if n == 0 {
            Some(VarType::VAR_EMPTY)
        } else if n == 1 {
            Some(VarType::VAR_NULL)
        } else if n == 2 {
            Some(VarType::VAR_SMALLINT)
        } else if n == 3 {
            Some(VarType::VAR_INTEGER)
        } else if n == 4 {
            Some(VarType::VAR_SINGLE)
        } else if n == 5 {
            Some(VarType::VAR_DOUBLE)
        } else if n == 6 {
            Some(VarType::VAR_CURRENCY)
        } else if n == 7 {
            Some(VarType::VAR_DATE)
        } else if n == 8 {
            Some(VarType::VAR_BSTR)
        } else if n == 9 {
            Some(VarType::VAR_DISPATCH)
        } else if n == 10 {
            Some(VarType::VAR_ERROR)
        } else if n == 11 {
            Some(VarType::VAR_BOOLEAN)
        } else if n == 12 {
            Some(VarType::VAR_VARIANT)
        } else if n == 13 {
            Some(VarType::VAR_UNKNOWN)
        } else if n == 16 {
            Some(VarType::VAR_SBYTE)
        } else if n == 17 {
            Some(VarType::VAR_BYTE)
        } else if n == 18 {
            Some(VarType::VAR_WORD)
        } else if n == 19 {
            Some(VarType::VAR_DWORD)
        } else if n == 20 {
            Some(VarType::VAR_INT64)
        } else if n == 256 {
            Some(VarType::VAR_ASTR)
        } else if n == 258 {
            Some(VarType::VAR_USTR)
        } else if n == 512 {
            Some(VarType::VAR_UWSCR)
        } else if n == 8192 {
            Some(VarType::VAR_ARRAY)
        } else {
            None
        }
    }
}

/// The Excel constants of the Excel builtins.
#[allow(non_camel_case_types)]
#[derive(PartialEq, Eq, Clone, Copy, Structural)]
pub enum ExcelConst {
    XL_DEFAULT,
    XL_NEW,
    XL_BOOK,
    XL_OOOC,
}

impl ExcelConst {
    /// The number of each constant.
    pub open spec fn number(self) -> int {
        match self {
            ExcelConst::XL_DEFAULT => 0,
            ExcelConst::XL_NEW => 1,
            ExcelConst::XL_BOOK => 2,
            ExcelConst::XL_OOOC => 3,
        }
    }

    /// The number of this constant.
    pub fn value(&self) -> (r: i64)
        ensures
            r == self.number(),
    {
        match self {
            ExcelConst::XL_DEFAULT => 0,
            ExcelConst::XL_NEW => 1,
            ExcelConst::XL_BOOK => 2,
            ExcelConst::XL_OOOC => 3,
        }
    }
}

impl ConstEnum for ExcelConst {
    open spec fn of_value(n: int) -> Option<ExcelConst> {
        if n == 0 {
            Some(ExcelConst::XL_DEFAULT)
        } else if n == 1 {
            Some(ExcelConst::XL_NEW)
        } else if n == 2 {
            Some(ExcelConst::XL_BOOK)
        } else if n == 3 {
            Some(ExcelConst::XL_OOOC)
        } else {
            None
        }
    }

    fn from_value(n: i64) -> (r: Option<ExcelConst>) {
        if n == 0 {
            Some(ExcelConst::XL_DEFAULT)
        } else if n == 1 {
            Some(ExcelConst::XL_NEW)
        } else if n == 2 {
            Some(ExcelConst::XL_BOOK)
        } else if n == 3 {
            Some(ExcelConst::XL_OOOC)
        } else {
            None
        }
    }
}

/// The buttons of message boxes (`BTN_*`).
#[allow(non_camel_case_types)]
#[derive(PartialEq, Eq, Clone, Copy, Structural)]
pub enum BtnConst {
    BTN_YES,
    BTN_NO,
    BTN_OK,
    BTN_CANCEL,
    BTN_ABORT,
    BTN_RETRY,
    BTN_IGNORE,
}

impl BtnConst {
    /// The number of each constant.
    pub open spec fn number(self) -> int {
        match self {
            BtnConst::BTN_YES => 4,
            BtnConst::BTN_NO => 8,
            BtnConst::BTN_OK => 1,
            BtnConst::BTN_CANCEL => 2,
            BtnConst::BTN_ABORT => 16,
            BtnConst::BTN_RETRY => 32,
            BtnConst::BTN_IGNORE => 64,
        }
    }

    /// The number of this constant.
    pub fn value(&self) -> (r: i64)
        ensures
            r == self.number(),
    {
        match self {
            BtnConst::BTN_YES => 4,
            BtnConst::BTN_NO => 8,
            BtnConst::BTN_OK => 1,
            BtnConst::BTN_CANCEL => 2,
            BtnConst::BTN_ABORT => 16,
            BtnConst::BTN_RETRY => 32,
            BtnConst::BTN_IGNORE => 64,
        }
    }
}

impl ConstEnum for BtnConst {
    open spec fn of_value(n: int) -> Option<BtnConst> {
        if n == 4 {
            Some(BtnConst::BTN_YES)
        } else if n == 8 {
            Some(BtnConst::BTN_NO)
        } else if n == 1 {
            Some(BtnConst::BTN_OK)
        } else if n == 2 {
            Some(BtnConst::BTN_CANCEL)
        } else if n == 16 {
            Some(BtnConst::BTN_ABORT)
        } else if n == 32 {
            Some(BtnConst::BTN_RETRY)
        } else if n == 64 {
            Some(BtnConst::BTN_IGNORE)
        } else {
            None
        }
    }

    fn from_value(n: i64) -> (r: Option<BtnConst>) {
        if n == 4 {
            Some(BtnConst::BTN_YES)
        } else if n == 8 {
            Some(BtnConst::BTN_NO)
        } else if n == 1 {
            Some(BtnConst::BTN_OK)
        } else if n == 2 {
            Some(BtnConst::BTN_CANCEL)
        } else if n == 16 {
            Some(BtnConst::BTN_ABORT)
        } else if n == 32 {
            Some(BtnConst::BTN_RETRY)
        } else if n == 64 {
            Some(BtnConst::BTN_IGNORE)
        } else {
            None
        }
    }
}

/// The options of `slctbox` (`SLCT_*`).
#[allow(non_camel_case_types)]
#[derive(PartialEq, Eq, Clone, Copy, Structural)]
pub enum SlctConst {
    SLCT_BTN,
    SLCT_CHK,
    SLCT_RDO,
    SLCT_CMB,
    SLCT_LST,
    SLCT_STR,
    SLCT_NUM,
}

impl SlctConst {
    /// The number of each constant.
    pub open spec fn number(self) -> int {
        match self {
            SlctConst::SLCT_BTN => 1,
            SlctConst::SLCT_CHK => 2,
            SlctConst::SLCT_RDO => 4,
            SlctConst::SLCT_CMB => 8,
            SlctConst::SLCT_LST => 16,
            SlctConst::SLCT_STR => 64,
            SlctConst::SLCT_NUM => 128,
        }
    }

    /// The number of this constant.
    pub fn value(&self) -> (r: i64)
        ensures
            r == self.number(),
    {
        match self {
            SlctConst::SLCT_BTN => 1,
            SlctConst::SLCT_CHK => 2,
            SlctConst::SLCT_RDO => 4,
            SlctConst::SLCT_CMB => 8,
            SlctConst::SLCT_LST => 16,
            SlctConst::SLCT_STR => 64,
            SlctConst::SLCT_NUM => 128,
        }
    }
}

impl ConstEnum for SlctConst {
    open spec fn of_value(n: int) -> Option<SlctConst> {
        if n == 1 {
            Some(SlctConst::SLCT_BTN)
        } else if n == 2 {
            Some(SlctConst::SLCT_CHK)
        } else if n == 4 {
            Some(SlctConst::SLCT_RDO)
        } else if n == 8 {
            Some(SlctConst::SLCT_CMB)
        } else if n == 16 {
            Some(SlctConst::SLCT_LST)
        } else if n == 64 {
            Some(SlctConst::SLCT_STR)
        } else if n == 128 {
            Some(SlctConst::SLCT_NUM)
        } else {
            None
        }
    }

    fn from_value(n: i64) -> (r: Option<SlctConst>) {
        if n == 1 {
            Some(SlctConst::SLCT_BTN)
        } else if n == 2 {
            Some(SlctConst::SLCT_CHK)
        } else if n == 4 {
            Some(SlctConst::SLCT_RDO)
        } else if n == 8 {
            Some(SlctConst::SLCT_CMB)
        } else if n == 16 {
            Some(SlctConst::SLCT_LST)
        } else if n == 64 {
            Some(SlctConst::SLCT_STR)
        } else if n == 128 {
            Some(SlctConst::SLCT_NUM)
        } else {
            None
        }
    }
}

/// The placement flags of balloons (`FUKI_*`).
#[allow(non_camel_case_types)]
#[derive(PartialEq, Eq, Clone, Copy, Structural)]
pub enum BalloonFlag {
    FUKI_DEFAULT,
    FUKI_UP,
    FUKI_DOWN,
    FUKI_LEFT,
    FUKI_RIGHT,
    FUKI_ROUND,
    FUKI_POINT,
}

impl BalloonFlag {
    /// The number of each constant.
    pub open spec fn number(self) -> int {
        match self {
            BalloonFlag::FUKI_DEFAULT => 0,
            BalloonFlag::FUKI_UP => 1,
            BalloonFlag::FUKI_DOWN => 2,
            BalloonFlag::FUKI_LEFT => 3,
            BalloonFlag::FUKI_RIGHT => 4,
            BalloonFlag::FUKI_ROUND => 9,
            BalloonFlag::FUKI_POINT => 240,
        }
    }

    /// The number of this constant.
    pub fn value(&self) -> (r: i64)
        ensures
            r == self.number(),
    {
        match self {
            BalloonFlag::FUKI_DEFAULT => 0,
            BalloonFlag::FUKI_UP => 1,
            BalloonFlag::FUKI_DOWN => 2,
            BalloonFlag::FUKI_LEFT => 3,
            BalloonFlag::FUKI_RIGHT => 4,
            BalloonFlag::FUKI_ROUND => 9,
            BalloonFlag::FUKI_POINT => 240,
        }
    }
}

impl ConstEnum for BalloonFlag {
    open spec fn of_value(n: int) -> Option<BalloonFlag> {
        if n == 0 {
            Some(BalloonFlag::FUKI_DEFAULT)
        } else if n == 1 {
            Some(BalloonFlag::FUKI_UP)
        } else if n == 2 {
            Some(BalloonFlag::FUKI_DOWN)
        } else if n == 3 {
            Some(BalloonFlag::FUKI_LEFT)
        } else if n == 4 {
            Some(BalloonFlag::FUKI_RIGHT)
        } else if n == 9 {
            Some(BalloonFlag::FUKI_ROUND)
        } else if n == 240 {
            Some(BalloonFlag::FUKI_POINT)
        } else {
            None
        }
    }

    fn from_value(n: i64) -> (r: Option<BalloonFlag>) {
        if n == 0 {
            Some(BalloonFlag::FUKI_DEFAULT)
        } else if n == 1 {
            Some(BalloonFlag::FUKI_UP)
        } else if n == 2 {
            Some(BalloonFlag::FUKI_DOWN)
        } else if n == 3 {
            Some(BalloonFlag::FUKI_LEFT)
        } else if n == 4 {
            Some(BalloonFlag::FUKI_RIGHT)
        } else if n == 9 {
            Some(BalloonFlag::FUKI_ROUND)
        } else if n == 240 {
            Some(BalloonFlag::FUKI_POINT)
        } else {
            None
        }
    }
}

/// The options of `createform` (`FOM_*`).
#[allow(non_camel_case_types)]
#[derive(PartialEq, Eq, Clone, Copy, Structural)]
pub enum FormOptions {
    FOM_NOICON,
    FOM_MINIMIZE,
    FOM_MAXIMIZE,
    FOM_NOHIDE,
    FOM_NOSUBMIT,
    FOM_NORESIZE,
    FOM_BROWSER,
    FOM_FORMHIDE,
    FOM_TOPMOST,
    FOM_NOTASKBAR,
    FOM_FORM2,
    FOM_DEFAULT,
}

impl FormOptions {
    /// The number of each constant.
    pub open spec fn number(self) -> int {
        match self {
            FormOptions::FOM_NOICON => 1,
            FormOptions::FOM_MINIMIZE => 256,
            FormOptions::FOM_MAXIMIZE => 512,
            FormOptions::FOM_NOHIDE => 2,
            FormOptions::FOM_NOSUBMIT => 4,
            FormOptions::FOM_NORESIZE => 8,
            FormOptions::FOM_BROWSER => 128,
            FormOptions::FOM_FORMHIDE => 4096,
            FormOptions::FOM_TOPMOST => 16,
            FormOptions::FOM_NOTASKBAR => 16384,
            FormOptions::FOM_FORM2 => 8192,
            FormOptions::FOM_DEFAULT => 0,
        }
    }

    /// The number of this constant.
    pub fn value(&self) -> (r: i64)
        ensures
            r == self.number(),
    {
        match self {
            FormOptions::FOM_NOICON => 1,
            FormOptions::FOM_MINIMIZE => 256,
            FormOptions::FOM_MAXIMIZE => 512,
            FormOptions::FOM_NOHIDE => 2,
            FormOptions::FOM_NOSUBMIT => 4,
            FormOptions::FOM_NORESIZE => 8,
            FormOptions::FOM_BROWSER => 128,
            FormOptions::FOM_FORMHIDE => 4096,
            FormOptions::FOM_TOPMOST => 16,
            FormOptions::FOM_NOTASKBAR => 16384,
            FormOptions::FOM_FORM2 => 8192,
            FormOptions::FOM_DEFAULT => 0,
        }
    }
}

impl ConstEnum for FormOptions {
    open spec fn of_value(n: int) -> Option<FormOptions> {
        if n == 1 {
            Some(FormOptions::FOM_NOICON)
        } else if n == 256 {
            Some(FormOptions::FOM_MINIMIZE)
        } else if n == 512 {
            Some(FormOptions::FOM_MAXIMIZE)
        } else if n == 2 {
            Some(FormOptions::FOM_NOHIDE)
        } else if n == 4 {
            Some(FormOptions::FOM_NOSUBMIT)
        } else if n == 8 {
            Some(FormOptions::FOM_NORESIZE)
        } else if n == 128 {
            Some(FormOptions::FOM_BROWSER)
        } else if n == 4096 {
            Some(FormOptions::FOM_FORMHIDE)
        } else if n == 16 {
            Some(FormOptions::FOM_TOPMOST)
        } else if n == 16384 {
            Some(FormOptions::FOM_NOTASKBAR)
        } else if n == 8192 {
            Some(FormOptions::FOM_FORM2)
        } else if n == 0 {
            Some(FormOptions::FOM_DEFAULT)
        } else {
            None
        }
    }

    fn from_value(n: i64) -> (r: Option<FormOptions>) {
        if n == 1 {
            Some(FormOptions::FOM_NOICON)
        } else if n == 256 {
            Some(FormOptions::FOM_MINIMIZE)
        } else if n == 512 {
            Some(FormOptions::FOM_MAXIMIZE)
        } else if n == 2 {
            Some(FormOptions::FOM_NOHIDE)
        } else if n == 4 {
            Some(FormOptions::FOM_NOSUBMIT)
        } else if n == 8 {
            Some(FormOptions::FOM_NORESIZE)
        } else if n == 128 {
            Some(FormOptions::FOM_BROWSER)
        } else if n == 4096 {
            Some(FormOptions::FOM_FORMHIDE)
        } else if n == 16 {
            Some(FormOptions::FOM_TOPMOST)
        } else if n == 16384 {
            Some(FormOptions::FOM_NOTASKBAR)
        } else if n == 8192 {
            Some(FormOptions::FOM_FORM2)
        } else if n == 0 {
            Some(FormOptions::FOM_DEFAULT)
        } else {
            None
        }
    }
}

/// The modes and special rows of the file builtins (`F_*`).
#[allow(non_camel_case_types)]
#[derive(PartialEq, Eq, Clone, Copy, Structural)]
pub enum FileConst {
    F_EXISTS,
    F_READ,
    F_WRITE,
    F_WRITE1,
    F_WRITE8,
    F_WRITE8B,
    F_WRITE16,
    F_APPEND,
    F_NOCR,
    F_TAB,
    F_EXCLUSIVE,
    F_LINECOUNT,
    F_ALLTEXT,
}

impl FileConst {
    /// The number of each constant.
    pub open spec fn number(self) -> int {
        match self {
            FileConst::F_EXISTS => 1,
            FileConst::F_READ => 2,
            FileConst::F_WRITE => 4,
            FileConst::F_WRITE1 => 8,
            FileConst::F_WRITE8 => 16,
            FileConst::F_WRITE8B => 32,
            FileConst::F_WRITE16 => 64,
            FileConst::F_APPEND => 1024,
            FileConst::F_NOCR => 128,
            FileConst::F_TAB => 256,
            FileConst::F_EXCLUSIVE => 512,
            FileConst::F_LINECOUNT => -1,
            FileConst::F_ALLTEXT => -2,
        }
    }

    /// The number of this constant.
    pub fn value(&self) -> (r: i64)
        ensures
            r == self.number(),
    {
        match self {
            FileConst::F_EXISTS => 1,
            FileConst::F_READ => 2,
            FileConst::F_WRITE => 4,
            FileConst::F_WRITE1 => 8,
            FileConst::F_WRITE8 => 16,
            FileConst::F_WRITE8B => 32,
            FileConst::F_WRITE16 => 64,
            FileConst::F_APPEND => 1024,
            FileConst::F_NOCR => 128,
            FileConst::F_TAB => 256,
            FileConst::F_EXCLUSIVE => 512,
            FileConst::F_LINECOUNT => -1,
            FileConst::F_ALLTEXT => -2,
        }
    }
}

impl ConstEnum for FileConst {
    open spec fn of_value(n: int) -> Option<FileConst> {
        if n == 1 {
            Some(FileConst::F_EXISTS)
        } else if n == 2 {
            Some(FileConst::F_READ)
        } else if n == 4 {
            Some(FileConst::F_WRITE)
        } else if n == 8 {
            Some(FileConst::F_WRITE1)
        } else if n == 16 {
            Some(FileConst::F_WRITE8)
        } else if n == 32 {
            Some(FileConst::F_WRITE8B)
        } else if n == 64 {
            Some(FileConst::F_WRITE16)
        } else if n == 1024 {
            Some(FileConst::F_APPEND)
        } else if n == 128 {
            Some(FileConst::F_NOCR)
        } else if n == 256 {
            Some(FileConst::F_TAB)
        } else if n == 512 {
            Some(FileConst::F_EXCLUSIVE)
        } else if n == -1 {
            Some(FileConst::F_LINECOUNT)
        } else if n == -2 {
            Some(FileConst::F_ALLTEXT)
        } else {
            None
        }
    }

    fn from_value(n: i64) -> (r: Option<FileConst>) {
        if n == 1 {
            Some(FileConst::F_EXISTS)
        } else if n == 2 {
            Some(FileConst::F_READ)
        } else if n == 4 {
            Some(FileConst::F_WRITE)
        } else if n == 8 {
            Some(FileConst::F_WRITE1)
        } else if n == 16 {
            Some(FileConst::F_WRITE8)
        } else if n == 32 {
            Some(FileConst::F_WRITE8B)
        } else if n == 64 {
            Some(FileConst::F_WRITE16)
        } else if n == 1024 {
            Some(FileConst::F_APPEND)
        } else if n == 128 {
            Some(FileConst::F_NOCR)
        } else if n == 256 {
            Some(FileConst::F_TAB)
        } else if n == 512 {
            Some(FileConst::F_EXCLUSIVE)
        } else if n == -1 {
            Some(FileConst::F_LINECOUNT)
        } else if n == -2 {
            Some(FileConst::F_ALLTEXT)
        } else {
            None
        }
    }
}

/// The file constant that shares its number with another one.
#[allow(non_camel_case_types)]
#[derive(PartialEq, Eq, Clone, Copy, Structural)]
pub enum FileConstDup {
    F_INSERT,
}

impl FileConstDup {
    /// The number of each constant.
    pub open spec fn number(self) -> int {
        match self {
            FileConstDup::F_INSERT => -1,
        }
    }

    /// The number of this constant.
    pub fn value(&self) -> (r: i64)
        ensures
            r == self.number(),
    {
        match self {
            FileConstDup::F_INSERT => -1,
        }
    }
}

impl ConstEnum for FileConstDup {
    open spec fn of_value(n: int) -> Option<FileConstDup> {
        if n == -1 {
            Some(FileConstDup::F_INSERT)
        } else {
            None
        }
    }

    fn from_value(n: i64) -> (r: Option<FileConstDup>) {
        if n == -1 {
            Some(FileConstDup::F_INSERT)
        } else {
            None
        }
    }
}

/// The virtual key codes (`VK_*`).
#[allow(non_camel_case_types)]
#[derive(PartialEq, Eq, Clone, Copy, Structural)]
pub enum VirtualKeyCodes {
    VK_A,
    VK_B,
    VK_C,
    VK_D,
    VK_E,
    VK_F,
    VK_G,
    VK_H,
    VK_I,
    VK_J,
    VK_K,
    VK_L,
    VK_M,
    VK_N,
    VK_O,
    VK_P,
    VK_Q,
    VK_R,
    VK_S,
    VK_T,
    VK_U,
    VK_V,
    VK_W,
    VK_X,
    VK_Y,
    VK_Z,
    VK_0,
    VK_1,
    VK_2,
    VK_3,
    VK_4,
    VK_5,
    VK_6,
    VK_7,
    VK_8,
    VK_9,
    VK_BACK,
    VK_TAB,
    VK_CLEAR,
    VK_ESC,
    VK_RETURN,
    VK_RRETURN,
    VK_SHIFT,
    VK_RSHIFT,
    VK_WIN,
    VK_START,
    VK_ALT,
    VK_RALT,
    VK_CTRL,
    VK_RCTRL,
    VK_PAUSE,
    VK_CAPITAL,
    VK_KANA,
    VK_FINAL,
    VK_KANJI,
    VK_CONVERT,
    VK_NONCONVERT,
    VK_ACCEPT,
    VK_MODECHANGE,
    VK_SPACE,
    VK_PRIOR,
    VK_NEXT,
    VK_END,
    VK_HOME,
    VK_LEFT,
    VK_UP,
    VK_RIGHT,
    VK_DOWN,
    VK_SELECT,
    VK_PRINT,
    VK_EXECUTE,
    VK_SNAPSHOT,
    VK_INSERT,
    VK_DELETE,
    VK_HELP,
    VK_APPS,
    VK_MULTIPLY,
    VK_ADD,
    VK_SEPARATOR,
    VK_SUBTRACT,
    VK_DECIMAL,
    VK_DIVIDE,
    VK_NUMPAD0,
    VK_NUMPAD1,
    VK_NUMPAD2,
    VK_NUMPAD3,
    VK_NUMPAD4,
    VK_NUMPAD5,
    VK_NUMPAD6,
    VK_NUMPAD7,
    VK_NUMPAD8,
    VK_NUMPAD9,
    VK_F1,
    VK_F2,
    VK_F3,
    VK_F4,
    VK_F5,
    VK_F6,
    VK_F7,
    VK_F8,
    VK_F9,
    VK_F10,
    VK_F11,
    VK_F12,
    VK_NUMLOCK,
    VK_SCROLL,
    VK_PLAY,
    VK_ZOOM,
    VK_SLEEP,
    VK_BROWSER_BACK,
    VK_BROWSER_FORWARD,
    VK_BROWSER_REFRESH,
    VK_BROWSER_STOP,
    VK_BROWSER_SEARCH,
    VK_BROWSER_FAVORITES,
    VK_BROWSER_HOME,
    VK_VOLUME_MUTE,
    VK_VOLUME_DOWN,
    VK_VOLUME_UP,
    VK_MEDIA_NEXT_TRACK,
    VK_MEDIA_PREV_TRACK,
    VK_MEDIA_STOP,
    VK_MEDIA_PLAY_PAUSE,
    VK_LAUNCH_MEDIA_SELECT,
    VK_LAUNCH_MAIL,
    VK_LAUNCH_APP1,
    VK_LAUNCH_APP2,
    VK_OEM_PLUS,
    VK_OEM_COMMA,
    VK_OEM_MINUS,
    VK_OEM_PERIOD,
    VK_OEM_1,
    VK_OEM_2,
    VK_OEM_3,
    VK_OEM_4,
    VK_OEM_5,
    VK_OEM_6,
    VK_OEM_7,
    VK_OEM_8,
    VK_OEM_RESET,
    VK_OEM_JUMP,
    VK_OEM_PA1,
    VK_OEM_PA2,
    VK_OEM_PA3,
}

impl VirtualKeyCodes {
    /// The number of each constant.
    pub open spec fn number(self) -> int {
        match self {
            VirtualKeyCodes::VK_A => 65,
            VirtualKeyCodes::VK_B => 66,
            VirtualKeyCodes::VK_C => 67,
            VirtualKeyCodes::VK_D => 68,
            VirtualKeyCodes::VK_E => 69,
            VirtualKeyCodes::VK_F => 70,
            VirtualKeyCodes::VK_G => 71,
            VirtualKeyCodes::VK_H => 72,
            VirtualKeyCodes::VK_I => 73,
            VirtualKeyCodes::VK_J => 74,
            VirtualKeyCodes::VK_K => 75,
            VirtualKeyCodes::VK_L => 76,
            VirtualKeyCodes::VK_M => 77,
            VirtualKeyCodes::VK_N => 78,
            VirtualKeyCodes::VK_O => 79,
            VirtualKeyCodes::VK_P => 80,
            VirtualKeyCodes::VK_Q => 81,
            VirtualKeyCodes::VK_R => 82,
            VirtualKeyCodes::VK_S => 83,
            VirtualKeyCodes::VK_T => 84,
            VirtualKeyCodes::VK_U => 85,
            VirtualKeyCodes::VK_V => 86,
            VirtualKeyCodes::VK_W => 87,
            VirtualKeyCodes::VK_X => 88,
            VirtualKeyCodes::VK_Y => 89,
            VirtualKeyCodes::VK_Z => 90,
            VirtualKeyCodes::VK_0 => 48,
            VirtualKeyCodes::VK_1 => 49,
            VirtualKeyCodes::VK_2 => 50,
            VirtualKeyCodes::VK_3 => 51,
            VirtualKeyCodes::VK_4 => 52,
            VirtualKeyCodes::VK_5 => 53,
            VirtualKeyCodes::VK_6 => 54,
            VirtualKeyCodes::VK_7 => 55,
            VirtualKeyCodes::VK_8 => 56,
            VirtualKeyCodes::VK_9 => 57,
            VirtualKeyCodes::VK_BACK => 8,
            VirtualKeyCodes::VK_TAB => 9,
            VirtualKeyCodes::VK_CLEAR => 12,
            VirtualKeyCodes::VK_ESC => 27,
            VirtualKeyCodes::VK_RETURN => 13,
            VirtualKeyCodes::VK_RRETURN => 901,
            VirtualKeyCodes::VK_SHIFT => 16,
            VirtualKeyCodes::VK_RSHIFT => 161,
            VirtualKeyCodes::VK_WIN => 91,
            VirtualKeyCodes::VK_START => 92,
            VirtualKeyCodes::VK_ALT => 18,
            VirtualKeyCodes::VK_RALT => 165,
            VirtualKeyCodes::VK_CTRL => 17,
            VirtualKeyCodes::VK_RCTRL => 163,
            VirtualKeyCodes::VK_PAUSE => 19,
            VirtualKeyCodes::VK_CAPITAL => 20,
            VirtualKeyCodes::VK_KANA => 21,
            VirtualKeyCodes::VK_FINAL => 24,
            VirtualKeyCodes::VK_KANJI => 25,
            VirtualKeyCodes::VK_CONVERT => 28,
            VirtualKeyCodes::VK_NONCONVERT => 29,
            VirtualKeyCodes::VK_ACCEPT => 30,
            VirtualKeyCodes::VK_MODECHANGE => 31,
            VirtualKeyCodes::VK_SPACE => 32,
            VirtualKeyCodes::VK_PRIOR => 33,
            VirtualKeyCodes::VK_NEXT => 34,
            VirtualKeyCodes::VK_END => 35,
            VirtualKeyCodes::VK_HOME => 36,
            VirtualKeyCodes::VK_LEFT => 37,
            VirtualKeyCodes::VK_UP => 38,
            VirtualKeyCodes::VK_RIGHT => 39,
            VirtualKeyCodes::VK_DOWN => 40,
            VirtualKeyCodes::VK_SELECT => 41,
            VirtualKeyCodes::VK_PRINT => 42,
            VirtualKeyCodes::VK_EXECUTE => 43,
            VirtualKeyCodes::VK_SNAPSHOT => 44,
            VirtualKeyCodes::VK_INSERT => 45,
            VirtualKeyCodes::VK_DELETE => 46,
            VirtualKeyCodes::VK_HELP => 47,
            VirtualKeyCodes::VK_APPS => 93,
            VirtualKeyCodes::VK_MULTIPLY => 106,
            VirtualKeyCodes::VK_ADD => 107,
            VirtualKeyCodes::VK_SEPARATOR => 108,
            VirtualKeyCodes::VK_SUBTRACT => 109,
            VirtualKeyCodes::VK_DECIMAL => 110,
            VirtualKeyCodes::VK_DIVIDE => 111,
            VirtualKeyCodes::VK_NUMPAD0 => 96,
            VirtualKeyCodes::VK_NUMPAD1 => 97,
            VirtualKeyCodes::VK_NUMPAD2 => 98,
            VirtualKeyCodes::VK_NUMPAD3 => 99,
            VirtualKeyCodes::VK_NUMPAD4 => 100,
            VirtualKeyCodes::VK_NUMPAD5 => 101,
            VirtualKeyCodes::VK_NUMPAD6 => 102,
            VirtualKeyCodes::VK_NUMPAD7 => 103,
            VirtualKeyCodes::VK_NUMPAD8 => 104,
            VirtualKeyCodes::VK_NUMPAD9 => 105,
            VirtualKeyCodes::VK_F1 => 112,
            VirtualKeyCodes::VK_F2 => 113,
            VirtualKeyCodes::VK_F3 => 114,
            VirtualKeyCodes::VK_F4 => 115,
            VirtualKeyCodes::VK_F5 => 116,
            VirtualKeyCodes::VK_F6 => 117,
            VirtualKeyCodes::VK_F7 => 118,
            VirtualKeyCodes::VK_F8 => 119,
            VirtualKeyCodes::VK_F9 => 120,
            VirtualKeyCodes::VK_F10 => 121,
            VirtualKeyCodes::VK_F11 => 122,
            VirtualKeyCodes::VK_F12 => 123,
            VirtualKeyCodes::VK_NUMLOCK => 144,
            VirtualKeyCodes::VK_SCROLL => 145,
            VirtualKeyCodes::VK_PLAY => 250,
            VirtualKeyCodes::VK_ZOOM => 251,
            VirtualKeyCodes::VK_SLEEP => 95,
            VirtualKeyCodes::VK_BROWSER_BACK => 166,
            VirtualKeyCodes::VK_BROWSER_FORWARD => 167,
            VirtualKeyCodes::VK_BROWSER_REFRESH => 168,
            VirtualKeyCodes::VK_BROWSER_STOP => 169,
            VirtualKeyCodes::VK_BROWSER_SEARCH => 170,
            VirtualKeyCodes::VK_BROWSER_FAVORITES => 171,
            VirtualKeyCodes::VK_BROWSER_HOME => 172,
            VirtualKeyCodes::VK_VOLUME_MUTE => 173,
            VirtualKeyCodes::VK_VOLUME_DOWN => 174,
            VirtualKeyCodes::VK_VOLUME_UP => 175,
            VirtualKeyCodes::VK_MEDIA_NEXT_TRACK => 176,
            VirtualKeyCodes::VK_MEDIA_PREV_TRACK => 177,
            VirtualKeyCodes::VK_MEDIA_STOP => 178,
            VirtualKeyCodes::VK_MEDIA_PLAY_PAUSE => 179,
            VirtualKeyCodes::VK_LAUNCH_MEDIA_SELECT => 181,
            VirtualKeyCodes::VK_LAUNCH_MAIL => 180,
            VirtualKeyCodes::VK_LAUNCH_APP1 => 182,
            VirtualKeyCodes::VK_LAUNCH_APP2 => 183,
            VirtualKeyCodes::VK_OEM_PLUS => 187,
            VirtualKeyCodes::VK_OEM_COMMA => 188,
            VirtualKeyCodes::VK_OEM_MINUS => 189,
            VirtualKeyCodes::VK_OEM_PERIOD => 190,
            VirtualKeyCodes::VK_OEM_1 => 186,
            VirtualKeyCodes::VK_OEM_2 => 191,
            VirtualKeyCodes::VK_OEM_3 => 192,
            VirtualKeyCodes::VK_OEM_4 => 219,
            VirtualKeyCodes::VK_OEM_5 => 220,
            VirtualKeyCodes::VK_OEM_6 => 221,
            VirtualKeyCodes::VK_OEM_7 => 222,
            VirtualKeyCodes::VK_OEM_8 => 223,
            VirtualKeyCodes::VK_OEM_RESET => 233,
            VirtualKeyCodes::VK_OEM_JUMP => 234,
            VirtualKeyCodes::VK_OEM_PA1 => 235,
            VirtualKeyCodes::VK_OEM_PA2 => 236,
            VirtualKeyCodes::VK_OEM_PA3 => 237,
        }
    }

    /// The number of this constant.
    pub fn value(&self) -> (r: i64)
        ensures
            r == self.number(),
    {
        match self {
            VirtualKeyCodes::VK_A => 65,
            VirtualKeyCodes::VK_B => 66,
            VirtualKeyCodes::VK_C => 67,
            VirtualKeyCodes::VK_D => 68,
            VirtualKeyCodes::VK_E => 69,
            VirtualKeyCodes::VK_F => 70,
            VirtualKeyCodes::VK_G => 71,
            VirtualKeyCodes::VK_H => 72,
            VirtualKeyCodes::VK_I => 73,
            VirtualKeyCodes::VK_J => 74,
            VirtualKeyCodes::VK_K => 75,
            VirtualKeyCodes::VK_L => 76,
            VirtualKeyCodes::VK_M => 77,
            VirtualKeyCodes::VK_N => 78,
            VirtualKeyCodes::VK_O => 79,
            VirtualKeyCodes::VK_P => 80,
            VirtualKeyCodes::VK_Q => 81,
            VirtualKeyCodes::VK_R => 82,
            VirtualKeyCodes::VK_S => 83,
            VirtualKeyCodes::VK_T => 84,
            VirtualKeyCodes::VK_U => 85,
            VirtualKeyCodes::VK_V => 86,
            VirtualKeyCodes::VK_W => 87,
            VirtualKeyCodes::VK_X => 88,
            VirtualKeyCodes::VK_Y => 89,
            VirtualKeyCodes::VK_Z => 90,
            VirtualKeyCodes::VK_0 => 48,
            VirtualKeyCodes::VK_1 => 49,
            VirtualKeyCodes::VK_2 => 50,
            VirtualKeyCodes::VK_3 => 51,
            VirtualKeyCodes::VK_4 => 52,
            VirtualKeyCodes::VK_5 => 53,
            VirtualKeyCodes::VK_6 => 54,
            VirtualKeyCodes::VK_7 => 55,
            VirtualKeyCodes::VK_8 => 56,
            VirtualKeyCodes::VK_9 => 57,
            VirtualKeyCodes::VK_BACK => 8,
            VirtualKeyCodes::VK_TAB => 9,
            VirtualKeyCodes::VK_CLEAR => 12,
            VirtualKeyCodes::VK_ESC => 27,
            VirtualKeyCodes::VK_RETURN => 13,
            VirtualKeyCodes::VK_RRETURN => 901,
            VirtualKeyCodes::VK_SHIFT => 16,
            VirtualKeyCodes::VK_RSHIFT => 161,
            VirtualKeyCodes::VK_WIN => 91,
            VirtualKeyCodes::VK_START => 92,
            VirtualKeyCodes::VK_ALT => 18,
            VirtualKeyCodes::VK_RALT => 165,
            VirtualKeyCodes::VK_CTRL => 17,
            VirtualKeyCodes::VK_RCTRL => 163,
            VirtualKeyCodes::VK_PAUSE => 19,
            VirtualKeyCodes::VK_CAPITAL => 20,
            VirtualKeyCodes::VK_KANA => 21,
            VirtualKeyCodes::VK_FINAL => 24,
            VirtualKeyCodes::VK_KANJI => 25,
            VirtualKeyCodes::VK_CONVERT => 28,
            VirtualKeyCodes::VK_NONCONVERT => 29,
            VirtualKeyCodes::VK_ACCEPT => 30,
            VirtualKeyCodes::VK_MODECHANGE => 31,
            VirtualKeyCodes::VK_SPACE => 32,
            VirtualKeyCodes::VK_PRIOR => 33,
            VirtualKeyCodes::VK_NEXT => 34,
            VirtualKeyCodes::VK_END => 35,
            VirtualKeyCodes::VK_HOME => 36,
            VirtualKeyCodes::VK_LEFT => 37,
            VirtualKeyCodes::VK_UP => 38,
            VirtualKeyCodes::VK_RIGHT => 39,
            VirtualKeyCodes::VK_DOWN => 40,
            VirtualKeyCodes::VK_SELECT => 41,
            VirtualKeyCodes::VK_PRINT => 42,
            VirtualKeyCodes::VK_EXECUTE => 43,
            VirtualKeyCodes::VK_SNAPSHOT => 44,
            VirtualKeyCodes::VK_INSERT => 45,
            VirtualKeyCodes::VK_DELETE => 46,
            VirtualKeyCodes::VK_HELP => 47,
            VirtualKeyCodes::VK_APPS => 93,
            VirtualKeyCodes::VK_MULTIPLY => 106,
            VirtualKeyCodes::VK_ADD => 107,
            VirtualKeyCodes::VK_SEPARATOR => 108,
            VirtualKeyCodes::VK_SUBTRACT => 109,
            VirtualKeyCodes::VK_DECIMAL => 110,
            VirtualKeyCodes::VK_DIVIDE => 111,
            VirtualKeyCodes::VK_NUMPAD0 => 96,
            VirtualKeyCodes::VK_NUMPAD1 => 97,
            VirtualKeyCodes::VK_NUMPAD2 => 98,
            VirtualKeyCodes::VK_NUMPAD3 => 99,
            VirtualKeyCodes::VK_NUMPAD4 => 100,
            VirtualKeyCodes::VK_NUMPAD5 => 101,
            VirtualKeyCodes::VK_NUMPAD6 => 102,
            VirtualKeyCodes::VK_NUMPAD7 => 103,
            VirtualKeyCodes::VK_NUMPAD8 => 104,
            VirtualKeyCodes::VK_NUMPAD9 => 105,
            VirtualKeyCodes::VK_F1 => 112,
            VirtualKeyCodes::VK_F2 => 113,
            VirtualKeyCodes::VK_F3 => 114,
            VirtualKeyCodes::VK_F4 => 115,
            VirtualKeyCodes::VK_F5 => 116,
            VirtualKeyCodes::VK_F6 => 117,
            VirtualKeyCodes::VK_F7 => 118,
            VirtualKeyCodes::VK_F8 => 119,
            VirtualKeyCodes::VK_F9 => 120,
            VirtualKeyCodes::VK_F10 => 121,
            VirtualKeyCodes::VK_F11 => 122,
            VirtualKeyCodes::VK_F12 => 123,
            VirtualKeyCodes::VK_NUMLOCK => 144,
            VirtualKeyCodes::VK_SCROLL => 145,
            VirtualKeyCodes::VK_PLAY => 250,
            VirtualKeyCodes::VK_ZOOM => 251,
            VirtualKeyCodes::VK_SLEEP => 95,
            VirtualKeyCodes::VK_BROWSER_BACK => 166,
            VirtualKeyCodes::VK_BROWSER_FORWARD => 167,
            VirtualKeyCodes::VK_BROWSER_REFRESH => 168,
            VirtualKeyCodes::VK_BROWSER_STOP => 169,
            VirtualKeyCodes::VK_BROWSER_SEARCH => 170,
            VirtualKeyCodes::VK_BROWSER_FAVORITES => 171,
            VirtualKeyCodes::VK_BROWSER_HOME => 172,
            VirtualKeyCodes::VK_VOLUME_MUTE => 173,
            VirtualKeyCodes::VK_VOLUME_DOWN => 174,
            VirtualKeyCodes::VK_VOLUME_UP => 175,
            VirtualKeyCodes::VK_MEDIA_NEXT_TRACK => 176,
            VirtualKeyCodes::VK_MEDIA_PREV_TRACK => 177,
            VirtualKeyCodes::VK_MEDIA_STOP => 178,
            VirtualKeyCodes::VK_MEDIA_PLAY_PAUSE => 179,
            VirtualKeyCodes::VK_LAUNCH_MEDIA_SELECT => 181,
            VirtualKeyCodes::VK_LAUNCH_MAIL => 180,
            VirtualKeyCodes::VK_LAUNCH_APP1 => 182,
            VirtualKeyCodes::VK_LAUNCH_APP2 => 183,
            VirtualKeyCodes::VK_OEM_PLUS => 187,
            VirtualKeyCodes::VK_OEM_COMMA => 188,
            VirtualKeyCodes::VK_OEM_MINUS => 189,
            VirtualKeyCodes::VK_OEM_PERIOD => 190,
            VirtualKeyCodes::VK_OEM_1 => 186,
            VirtualKeyCodes::VK_OEM_2 => 191,
            VirtualKeyCodes::VK_OEM_3 => 192,
            VirtualKeyCodes::VK_OEM_4 => 219,
            VirtualKeyCodes::VK_OEM_5 => 220,
            VirtualKeyCodes::VK_OEM_6 => 221,
            VirtualKeyCodes::VK_OEM_7 => 222,
            VirtualKeyCodes::VK_OEM_8 => 223,
            VirtualKeyCodes::VK_OEM_RESET => 233,
            VirtualKeyCodes::VK_OEM_JUMP => 234,
            VirtualKeyCodes::VK_OEM_PA1 => 235,
            VirtualKeyCodes::VK_OEM_PA2 => 236,
            VirtualKeyCodes::VK_OEM_PA3 => 237,
        }
    }
}

impl ConstEnum for VirtualKeyCodes {
    open spec fn of_value(n: int) -> Option<VirtualKeyCodes> {
        if n == 65 {
            Some(VirtualKeyCodes::VK_A)
        } else if n == 66 {
            Some(VirtualKeyCodes::VK_B)
        } else if n == 67 {
            Some(VirtualKeyCodes::VK_C)
        } else if n == 68 {
            Some(VirtualKeyCodes::VK_D)
        } else if n == 69 {
            Some(VirtualKeyCodes::VK_E)
        } else if n == 70 {
            Some(VirtualKeyCodes::VK_F)
        } else if n == 71 {
            Some(VirtualKeyCodes::VK_G)
        } else if n == 72 {
            Some(VirtualKeyCodes::VK_H)
        } else if n == 73 {
            Some(VirtualKeyCodes::VK_I)
        } else if n == 74 {
            Some(VirtualKeyCodes::VK_J)
        } else if n == 75 {
            Some(VirtualKeyCodes::VK_K)
        } else if n == 76 {
            Some(VirtualKeyCodes::VK_L)
        } else if n == 77 {
            Some(VirtualKeyCodes::VK_M)
        } else if n == 78 {
            Some(VirtualKeyCodes::VK_N)
        } else if n == 79 {
            Some(VirtualKeyCodes::VK_O)
        } else if n == 80 {
            Some(VirtualKeyCodes::VK_P)
        } else if n == 81 {
            Some(VirtualKeyCodes::VK_Q)
        } else if n == 82 {
            Some(VirtualKeyCodes::VK_R)
        } else if n == 83 {
            Some(VirtualKeyCodes::VK_S)
        } else if n == 84 {
            Some(VirtualKeyCodes::VK_T)
        } else if n == 85 {
            Some(VirtualKeyCodes::VK_U)
        } else if n == 86 {
            Some(VirtualKeyCodes::VK_V)
        } else if n == 87 {
            Some(VirtualKeyCodes::VK_W)
        } else if n == 88 {
            Some(VirtualKeyCodes::VK_X)
        } else if n == 89 {
            Some(VirtualKeyCodes::VK_Y)
        } else if n == 90 {
            Some(VirtualKeyCodes::VK_Z)
        } else if n == 48 {
            Some(VirtualKeyCodes::VK_0)
        } else if n == 49 {
            Some(VirtualKeyCodes::VK_1)
        } else if n == 50 {
            Some(VirtualKeyCodes::VK_2)
        } else if n == 51 {
            Some(VirtualKeyCodes::VK_3)
        } else if n == 52 {
            Some(VirtualKeyCodes::VK_4)
        } else if n == 53 {
            Some(VirtualKeyCodes::VK_5)
        } else if n == 54 {
            Some(VirtualKeyCodes::VK_6)
        } else if n == 55 {
            Some(VirtualKeyCodes::VK_7)
        } else if n == 56 {
            Some(VirtualKeyCodes::VK_8)
        } else if n == 57 {
            Some(VirtualKeyCodes::VK_9)
        } else if n == 8 {
            Some(VirtualKeyCodes::VK_BACK)
        } else if n == 9 {
            Some(VirtualKeyCodes::VK_TAB)
        } else if n == 12 {
            Some(VirtualKeyCodes::VK_CLEAR)
        } else if n == 27 {
            Some(VirtualKeyCodes::VK_ESC)
        } else if n == 13 {
            Some(VirtualKeyCodes::VK_RETURN)
        } else if n == 901 {
            Some(VirtualKeyCodes::VK_RRETURN)
        } else if n == 16 {
            Some(VirtualKeyCodes::VK_SHIFT)
        } else if n == 161 {
            Some(VirtualKeyCodes::VK_RSHIFT)
        } else if n == 91 {
            Some(VirtualKeyCodes::VK_WIN)
        } else if n == 92 {
            Some(VirtualKeyCodes::VK_START)
        } else if n == 18 {
            Some(VirtualKeyCodes::VK_ALT)
        } else if n == 165 {
            Some(VirtualKeyCodes::VK_RALT)
        } else if n == 17 {
            Some(VirtualKeyCodes::VK_CTRL)
        } else if n == 163 {
            Some(VirtualKeyCodes::VK_RCTRL)
        } else if n == 19 {
            Some(VirtualKeyCodes::VK_PAUSE)
        } else if n == 20 {
            Some(VirtualKeyCodes::VK_CAPITAL)
        } else if n == 21 {
            Some(VirtualKeyCodes::VK_KANA)
        } else if n == 24 {
            Some(VirtualKeyCodes::VK_FINAL)
        } else if n == 25 {
            Some(VirtualKeyCodes::VK_KANJI)
        } else if n == 28 {
            Some(VirtualKeyCodes::VK_CONVERT)
        } else if n == 29 {
            Some(VirtualKeyCodes::VK_NONCONVERT)
        } else if n == 30 {
            Some(VirtualKeyCodes::VK_ACCEPT)
        } else if n == 31 {
            Some(VirtualKeyCodes::VK_MODECHANGE)
        } else if n == 32 {
            Some(VirtualKeyCodes::VK_SPACE)
        } else if n == 33 {
            Some(VirtualKeyCodes::VK_PRIOR)
        } else if n == 34 {
            Some(VirtualKeyCodes::VK_NEXT)
        } else if n == 35 {
            Some(VirtualKeyCodes::VK_END)
        } else if n == 36 {
            Some(VirtualKeyCodes::VK_HOME)
        } else if n == 37 {
            Some(VirtualKeyCodes::VK_LEFT)
        } else if n == 38 {
            Some(VirtualKeyCodes::VK_UP)
        } else if n == 39 {
            Some(VirtualKeyCodes::VK_RIGHT)
        } else if n == 40 {
            Some(VirtualKeyCodes::VK_DOWN)
        } else if n == 41 {
            Some(VirtualKeyCodes::VK_SELECT)
        } else if n == 42 {
            Some(VirtualKeyCodes::VK_PRINT)
        } else if n == 43 {
            Some(VirtualKeyCodes::VK_EXECUTE)
        } else if n == 44 {
            Some(VirtualKeyCodes::VK_SNAPSHOT)
        } else if n == 45 {
            Some(VirtualKeyCodes::VK_INSERT)
        } else if n == 46 {
            Some(VirtualKeyCodes::VK_DELETE)
        } else if n == 47 {
            Some(VirtualKeyCodes::VK_HELP)
        } else if n == 93 {
            Some(VirtualKeyCodes::VK_APPS)
        } else if n == 106 {
            Some(VirtualKeyCodes::VK_MULTIPLY)
        } else if n == 107 {
            Some(VirtualKeyCodes::VK_ADD)
        } else if n == 108 {
            Some(VirtualKeyCodes::VK_SEPARATOR)
        } else if n == 109 {
            Some(VirtualKeyCodes::VK_SUBTRACT)
        } else if n == 110 {
            Some(VirtualKeyCodes::VK_DECIMAL)
        } else if n == 111 {
            Some(VirtualKeyCodes::VK_DIVIDE)
        } else if n == 96 {
            Some(VirtualKeyCodes::VK_NUMPAD0)
        } else if n == 97 {
            Some(VirtualKeyCodes::VK_NUMPAD1)
        } else if n == 98 {
            Some(VirtualKeyCodes::VK_NUMPAD2)
        } else if n == 99 {
            Some(VirtualKeyCodes::VK_NUMPAD3)
        } else if n == 100 {
            Some(VirtualKeyCodes::VK_NUMPAD4)
        } else if n == 101 {
            Some(VirtualKeyCodes::VK_NUMPAD5)
        } else if n == 102 {
            Some(VirtualKeyCodes::VK_NUMPAD6)
        } else if n == 103 {
            Some(VirtualKeyCodes::VK_NUMPAD7)
        } else if n == 104 {
            Some(VirtualKeyCodes::VK_NUMPAD8)
        } else if n == 105 {
            Some(VirtualKeyCodes::VK_NUMPAD9)
        } else if n == 112 {
            Some(VirtualKeyCodes::VK_F1)
        } else if n == 113 {
            Some(VirtualKeyCodes::VK_F2)
        } else if n == 114 {
            Some(VirtualKeyCodes::VK_F3)
        } else if n == 115 {
            Some(VirtualKeyCodes::VK_F4)
        } else if n == 116 {
            Some(VirtualKeyCodes::VK_F5)
        } else if n == 117 {
            Some(VirtualKeyCodes::VK_F6)
        } else if n == 118 {
            Some(VirtualKeyCodes::VK_F7)
        } else if n == 119 {
            Some(VirtualKeyCodes::VK_F8)
        } else if n == 120 {
            Some(VirtualKeyCodes::VK_F9)
        } else if n == 121 {
            Some(VirtualKeyCodes::VK_F10)
        } else if n == 122 {
            Some(VirtualKeyCodes::VK_F11)
        } else if n == 123 {
            Some(VirtualKeyCodes::VK_F12)
        } else if n == 144 {
            Some(VirtualKeyCodes::VK_NUMLOCK)
        } else if n == 145 {
            Some(VirtualKeyCodes::VK_SCROLL)
        } else if n == 250 {
            Some(VirtualKeyCodes::VK_PLAY)
        } else if n == 251 {
            Some(VirtualKeyCodes::VK_ZOOM)
        } else if n == 95 {
            Some(VirtualKeyCodes::VK_SLEEP)
        } else if n == 166 {
            Some(VirtualKeyCodes::VK_BROWSER_BACK)
        } else if n == 167 {
            Some(VirtualKeyCodes::VK_BROWSER_FORWARD)
        } else if n == 168 {
            Some(VirtualKeyCodes::VK_BROWSER_REFRESH)
        } else if n == 169 {
            Some(VirtualKeyCodes::VK_BROWSER_STOP)
        } else if n == 170 {
            Some(VirtualKeyCodes::VK_BROWSER_SEARCH)
        } else if n == 171 {
            Some(VirtualKeyCodes::VK_BROWSER_FAVORITES)
        } else if n == 172 {
            Some(VirtualKeyCodes::VK_BROWSER_HOME)
        } else if n == 173 {
            Some(VirtualKeyCodes::VK_VOLUME_MUTE)
        } else if n == 174 {
            Some(VirtualKeyCodes::VK_VOLUME_DOWN)
        } else if n == 175 {
            Some(VirtualKeyCodes::VK_VOLUME_UP)
        } else if n == 176 {
            Some(VirtualKeyCodes::VK_MEDIA_NEXT_TRACK)
        } else if n == 177 {
            Some(VirtualKeyCodes::VK_MEDIA_PREV_TRACK)
        } else if n == 178 {
            Some(VirtualKeyCodes::VK_MEDIA_STOP)
        } else if n == 179 {
            Some(VirtualKeyCodes::VK_MEDIA_PLAY_PAUSE)
        } else if n == 181 {
            Some(VirtualKeyCodes::VK_LAUNCH_MEDIA_SELECT)
        } else if n == 180 {
            Some(VirtualKeyCodes::VK_LAUNCH_MAIL)
        } else if n == 182 {
            Some(VirtualKeyCodes::VK_LAUNCH_APP1)
        } else if n == 183 {
            Some(VirtualKeyCodes::VK_LAUNCH_APP2)
        } else if n == 187 {
            Some(VirtualKeyCodes::VK_OEM_PLUS)
        } else if n == 188 {
            Some(VirtualKeyCodes::VK_OEM_COMMA)
        } else if n == 189 {
            Some(VirtualKeyCodes::VK_OEM_MINUS)
        } else if n == 190 {
            Some(VirtualKeyCodes::VK_OEM_PERIOD)
        } else if n == 186 {
            Some(VirtualKeyCodes::VK_OEM_1)
        } else if n == 191 {
            Some(VirtualKeyCodes::VK_OEM_2)
        } else if n == 192 {
            Some(VirtualKeyCodes::VK_OEM_3)
        } else if n == 219 {
            Some(VirtualKeyCodes::VK_OEM_4)
        } else if n == 220 {
            Some(VirtualKeyCodes::VK_OEM_5)
        } else if n == 221 {
            Some(VirtualKeyCodes::VK_OEM_6)
        } else if n == 222 {
            Some(VirtualKeyCodes::VK_OEM_7)
        } else if n == 223 {
            Some(VirtualKeyCodes::VK_OEM_8)
        } else if n == 233 {
            Some(VirtualKeyCodes::VK_OEM_RESET)
        } else if n == 234 {
            Some(VirtualKeyCodes::VK_OEM_JUMP)
        } else if n == 235 {
            Some(VirtualKeyCodes::VK_OEM_PA1)
        } else if n == 236 {
            Some(VirtualKeyCodes::VK_OEM_PA2)
        } else if n == 237 {
            Some(VirtualKeyCodes::VK_OEM_PA3)
        } else {
            None
        }
    }

    fn from_value(n: i64) -> (r: Option<VirtualKeyCodes>) {
        if n == 65 {
            Some(VirtualKeyCodes::VK_A)
        } else if n == 66 {
            Some(VirtualKeyCodes::VK_B)
        } else if n == 67 {
            Some(VirtualKeyCodes::VK_C)
        } else if n == 68 {
            Some(VirtualKeyCodes::VK_D)
        } else if n == 69 {
            Some(VirtualKeyCodes::VK_E)
        } else if n == 70 {
            Some(VirtualKeyCodes::VK_F)
        } else if n == 71 {
            Some(VirtualKeyCodes::VK_G)
        } else if n == 72 {
            Some(VirtualKeyCodes::VK_H)
        } else if n == 73 {
            Some(VirtualKeyCodes::VK_I)
        } else if n == 74 {
            Some(VirtualKeyCodes::VK_J)
        } else if n == 75 {
            Some(VirtualKeyCodes::VK_K)
        } else if n == 76 {
            Some(VirtualKeyCodes::VK_L)
        } else if n == 77 {
            Some(VirtualKeyCodes::VK_M)
        } else if n == 78 {
            Some(VirtualKeyCodes::VK_N)
        } else if n == 79 {
            Some(VirtualKeyCodes::VK_O)
        } else if n == 80 {
            Some(VirtualKeyCodes::VK_P)
        } else if n == 81 {
            Some(VirtualKeyCodes::VK_Q)
        } else if n == 82 {
            Some(VirtualKeyCodes::VK_R)
        } else if n == 83 {
            Some(VirtualKeyCodes::VK_S)
        } else if n == 84 {
            Some(VirtualKeyCodes::VK_T)
        } else if n == 85 {
            Some(VirtualKeyCodes::VK_U)
        } else if n == 86 {
            Some(VirtualKeyCodes::VK_V)
        } else if n == 87 {
            Some(VirtualKeyCodes::VK_W)
        } else if n == 88 {
            Some(VirtualKeyCodes::VK_X)
        } else if n == 89 {
            Some(VirtualKeyCodes::VK_Y)
        } else if n == 90 {
            Some(VirtualKeyCodes::VK_Z)
        } else if n == 48 {
            Some(VirtualKeyCodes::VK_0)
        } else if n == 49 {
            Some(VirtualKeyCodes::VK_1)
        } else if n == 50 {
            Some(VirtualKeyCodes::VK_2)
        } else if n == 51 {
            Some(VirtualKeyCodes::VK_3)
        } else if n == 52 {
            Some(VirtualKeyCodes::VK_4)
        } else if n == 53 {
            Some(VirtualKeyCodes::VK_5)
        } else if n == 54 {
            Some(VirtualKeyCodes::VK_6)
        } else if n == 55 {
            Some(VirtualKeyCodes::VK_7)
        } else if n == 56 {
            Some(VirtualKeyCodes::VK_8)
        } else if n == 57 {
            Some(VirtualKeyCodes::VK_9)
        } else if n == 8 {
            Some(VirtualKeyCodes::VK_BACK)
        } else if n == 9 {
            Some(VirtualKeyCodes::VK_TAB)
        } else if n == 12 {
            Some(VirtualKeyCodes::VK_CLEAR)
        } else if n == 27 {
            Some(VirtualKeyCodes::VK_ESC)
        } else if n == 13 {
            Some(VirtualKeyCodes::VK_RETURN)
        } else if n == 901 {
            Some(VirtualKeyCodes::VK_RRETURN)
        } else if n == 16 {
            Some(VirtualKeyCodes::VK_SHIFT)
        } else if n == 161 {
            Some(VirtualKeyCodes::VK_RSHIFT)
        } else if n == 91 {
            Some(VirtualKeyCodes::VK_WIN)
        } else if n == 92 {
            Some(VirtualKeyCodes::VK_START)
        } else if n == 18 {
            Some(VirtualKeyCodes::VK_ALT)
        } else if n == 165 {
            Some(VirtualKeyCodes::VK_RALT)
        } else if n == 17 {
            Some(VirtualKeyCodes::VK_CTRL)
        } else if n == 163 {
            Some(VirtualKeyCodes::VK_RCTRL)
        } else if n == 19 {
            Some(VirtualKeyCodes::VK_PAUSE)
        } else if n == 20 {
            Some(VirtualKeyCodes::VK_CAPITAL)
        } else if n == 21 {
            Some(VirtualKeyCodes::VK_KANA)
        } else if n == 24 {
            Some(VirtualKeyCodes::VK_FINAL)
        } else if n == 25 {
            Some(VirtualKeyCodes::VK_KANJI)
        } else if n == 28 {
            Some(VirtualKeyCodes::VK_CONVERT)
        } else if n == 29 {
            Some(VirtualKeyCodes::VK_NONCONVERT)
        } else if n == 30 {
            Some(VirtualKeyCodes::VK_ACCEPT)
        } else if n == 31 {
            Some(VirtualKeyCodes::VK_MODECHANGE)
        } else if n == 32 {
            Some(VirtualKeyCodes::VK_SPACE)
        } else if n == 33 {
            Some(VirtualKeyCodes::VK_PRIOR)
        } else if n == 34 {
            Some(VirtualKeyCodes::VK_NEXT)
        } else if n == 35 {
            Some(VirtualKeyCodes::VK_END)
        } else if n == 36 {
            Some(VirtualKeyCodes::VK_HOME)
        } else if n == 37 {
            Some(VirtualKeyCodes::VK_LEFT)
        } else if n == 38 {
            Some(VirtualKeyCodes::VK_UP)
        } else if n == 39 {
            Some(VirtualKeyCodes::VK_RIGHT)
        } else if n == 40 {
            Some(VirtualKeyCodes::VK_DOWN)
        } else if n == 41 {
            Some(VirtualKeyCodes::VK_SELECT)
        } else if n == 42 {
            Some(VirtualKeyCodes::VK_PRINT)
        } else if n == 43 {
            Some(VirtualKeyCodes::VK_EXECUTE)
        } else if n == 44 {
            Some(VirtualKeyCodes::VK_SNAPSHOT)
        } else if n == 45 {
            Some(VirtualKeyCodes::VK_INSERT)
        } else if n == 46 {
            Some(VirtualKeyCodes::VK_DELETE)
        } else if n == 47 {
            Some(VirtualKeyCodes::VK_HELP)
        } else if n == 93 {
            Some(VirtualKeyCodes::VK_APPS)
        } else if n == 106 {
            Some(VirtualKeyCodes::VK_MULTIPLY)
        } else if n == 107 {
            Some(VirtualKeyCodes::VK_ADD)
        } else if n == 108 {
            Some(VirtualKeyCodes::VK_SEPARATOR)
        } else if n == 109 {
            Some(VirtualKeyCodes::VK_SUBTRACT)
        } else if n == 110 {
            Some(VirtualKeyCodes::VK_DECIMAL)
        } else if n == 111 {
            Some(VirtualKeyCodes::VK_DIVIDE)
        } else if n == 96 {
            Some(VirtualKeyCodes::VK_NUMPAD0)
        } else if n == 97 {
            Some(VirtualKeyCodes::VK_NUMPAD1)
        } else if n == 98 {
            Some(VirtualKeyCodes::VK_NUMPAD2)
        } else if n == 99 {
            Some(VirtualKeyCodes::VK_NUMPAD3)
        } else if n == 100 {
            Some(VirtualKeyCodes::VK_NUMPAD4)
        } else if n == 101 {
            Some(VirtualKeyCodes::VK_NUMPAD5)
        } else if n == 102 {
            Some(VirtualKeyCodes::VK_NUMPAD6)
        } else if n == 103 {
            Some(VirtualKeyCodes::VK_NUMPAD7)
        } else if n == 104 {
            Some(VirtualKeyCodes::VK_NUMPAD8)
        } else if n == 105 {
            Some(VirtualKeyCodes::VK_NUMPAD9)
        } else if n == 112 {
            Some(VirtualKeyCodes::VK_F1)
        } else if n == 113 {
            Some(VirtualKeyCodes::VK_F2)
        } else if n == 114 {
            Some(VirtualKeyCodes::VK_F3)
        } else if n == 115 {
            Some(VirtualKeyCodes::VK_F4)
        } else if n == 116 {
            Some(VirtualKeyCodes::VK_F5)
        } else if n == 117 {
            Some(VirtualKeyCodes::VK_F6)
        } else if n == 118 {
            Some(VirtualKeyCodes::VK_F7)
        } else if n == 119 {
            Some(VirtualKeyCodes::VK_F8)
        } else if n == 120 {
            Some(VirtualKeyCodes::VK_F9)
        } else if n == 121 {
            Some(VirtualKeyCodes::VK_F10)
        } else if n == 122 {
            Some(VirtualKeyCodes::VK_F11)
        } else if n == 123 {
            Some(VirtualKeyCodes::VK_F12)
        } else if n == 144 {
            Some(VirtualKeyCodes::VK_NUMLOCK)
        } else if n == 145 {
            Some(VirtualKeyCodes::VK_SCROLL)
        } else if n == 250 {
            Some(VirtualKeyCodes::VK_PLAY)
        } else if n == 251 {
            Some(VirtualKeyCodes::VK_ZOOM)
        } else if n == 95 {
            Some(VirtualKeyCodes::VK_SLEEP)
        } else if n == 166 {
            Some(VirtualKeyCodes::VK_BROWSER_BACK)
        } else if n == 167 {
            Some(VirtualKeyCodes::VK_BROWSER_FORWARD)
        } else if n == 168 {
            Some(VirtualKeyCodes::VK_BROWSER_REFRESH)
        } else if n == 169 {
            Some(VirtualKeyCodes::VK_BROWSER_STOP)
        } else if n == 170 {
            Some(VirtualKeyCodes::VK_BROWSER_SEARCH)
        } else if n == 171 {
            Some(VirtualKeyCodes::VK_BROWSER_FAVORITES)
        } else if n == 172 {
            Some(VirtualKeyCodes::VK_BROWSER_HOME)
        } else if n == 173 {
            Some(VirtualKeyCodes::VK_VOLUME_MUTE)
        } else if n == 174 {
            Some(VirtualKeyCodes::VK_VOLUME_DOWN)
        } else if n == 175 {
            Some(VirtualKeyCodes::VK_VOLUME_UP)
        } else if n == 176 {
            Some(VirtualKeyCodes::VK_MEDIA_NEXT_TRACK)
        } else if n == 177 {
            Some(VirtualKeyCodes::VK_MEDIA_PREV_TRACK)
        } else if n == 178 {
            Some(VirtualKeyCodes::VK_MEDIA_STOP)
        } else if n == 179 {
            Some(VirtualKeyCodes::VK_MEDIA_PLAY_PAUSE)
        } else if n == 181 {
            Some(VirtualKeyCodes::VK_LAUNCH_MEDIA_SELECT)
        } else if n == 180 {
            Some(VirtualKeyCodes::VK_LAUNCH_MAIL)
        } else if n == 182 {
            Some(VirtualKeyCodes::VK_LAUNCH_APP1)
        } else if n == 183 {
            Some(VirtualKeyCodes::VK_LAUNCH_APP2)
        } else if n == 187 {
            Some(VirtualKeyCodes::VK_OEM_PLUS)
        } else if n == 188 {
            Some(VirtualKeyCodes::VK_OEM_COMMA)
        } else if n == 189 {
            Some(VirtualKeyCodes::VK_OEM_MINUS)
        } else if n == 190 {
            Some(VirtualKeyCodes::VK_OEM_PERIOD)
        } else if n == 186 {
            Some(VirtualKeyCodes::VK_OEM_1)
        } else if n == 191 {
            Some(VirtualKeyCodes::VK_OEM_2)
        } else if n == 192 {
            Some(VirtualKeyCodes::VK_OEM_3)
        } else if n == 219 {
            Some(VirtualKeyCodes::VK_OEM_4)
        } else if n == 220 {
            Some(VirtualKeyCodes::VK_OEM_5)
        } else if n == 221 {
            Some(VirtualKeyCodes::VK_OEM_6)
        } else if n == 222 {
            Some(VirtualKeyCodes::VK_OEM_7)
        } else if n == 223 {
            Some(VirtualKeyCodes::VK_OEM_8)
        } else if n == 233 {
            Some(VirtualKeyCodes::VK_OEM_RESET)
        } else if n == 234 {
            Some(VirtualKeyCodes::VK_OEM_JUMP)
        } else if n == 235 {
            Some(VirtualKeyCodes::VK_OEM_PA1)
        } else if n == 236 {
            Some(VirtualKeyCodes::VK_OEM_PA2)
        } else if n == 237 {
            Some(VirtualKeyCodes::VK_OEM_PA3)
        } else {
            None
        }
    }
}

/// The mouse buttons as virtual keys.
#[allow(non_camel_case_types)]
#[derive(PartialEq, Eq, Clone, Copy, Structural)]
pub enum VirtualMouseButton {
    VK_LBUTTON,
    VK_RBUTTON,
    VK_MBUTTON,
}

impl VirtualMouseButton {
    /// The number of each constant.
    pub open spec fn number(self) -> int {
        match self {
            VirtualMouseButton::VK_LBUTTON => 1,
            VirtualMouseButton::VK_RBUTTON => 2,
            VirtualMouseButton::VK_MBUTTON => 4,
        }
    }

    /// The number of this constant.
    pub fn value(&self) -> (r: i64)
        ensures
            r == self.number(),
    {
        match self {
            VirtualMouseButton::VK_LBUTTON => 1,
            VirtualMouseButton::VK_RBUTTON => 2,
            VirtualMouseButton::VK_MBUTTON => 4,
        }
    }
}

impl ConstEnum for VirtualMouseButton {
    open spec fn of_value(n: int) -> Option<VirtualMouseButton> {
        if n == 1 {
            Some(VirtualMouseButton::VK_LBUTTON)
        } else if n == 2 {
            Some(VirtualMouseButton::VK_RBUTTON)
        } else if n == 4 {
            Some(VirtualMouseButton::VK_MBUTTON)
        } else {
            None
        }
    }

    fn from_value(n: i64) -> (r: Option<VirtualMouseButton>) {
        if n == 1 {
            Some(VirtualMouseButton::VK_LBUTTON)
        } else if n == 2 {
            Some(VirtualMouseButton::VK_RBUTTON)
        } else if n == 4 {
            Some(VirtualMouseButton::VK_MBUTTON)
        } else {
            None
        }
    }
}

/// The kinds of operating system that `kindofos` reports (`OS_*`).
#[allow(non_camel_case_types)]
#[derive(PartialEq, Eq, Clone, Copy, Structural)]
pub enum OsKind {
    OS_WIN2000,
    OS_WINXP,
    OS_WINSRV2003,
    OS_WINSRV2003R2,
    OS_WINVISTA,
    OS_WINSRV2008,
    OS_WIN7,
    OS_WINSRV2008R2,
    OS_WIN8,
    OS_WINSRV2012,
    OS_WIN81,
    OS_WINSRV2012R2,
    OS_WIN10,
    OS_WINSRV2016,
    OS_WIN11,
    OS_UNKNOWN,
}

impl OsKind {
    /// The number of each constant.
    pub open spec fn number(self) -> int {
        match self {
            OsKind::OS_WIN2000 => 12,
            OsKind::OS_WINXP => 13,
            OsKind::OS_WINSRV2003 => 14,
            OsKind::OS_WINSRV2003R2 => 15,
            OsKind::OS_WINVISTA => 20,
            OsKind::OS_WINSRV2008 => 21,
            OsKind::OS_WIN7 => 22,
            OsKind::OS_WINSRV2008R2 => 27,
            OsKind::OS_WIN8 => 23,
            OsKind::OS_WINSRV2012 => 24,
            OsKind::OS_WIN81 => 25,
            OsKind::OS_WINSRV2012R2 => 26,
            OsKind::OS_WIN10 => 30,
            OsKind::OS_WINSRV2016 => 31,
            OsKind::OS_WIN11 => 32,
            OsKind::OS_UNKNOWN => 0,
        }
    }

    /// The number of this constant.
    pub fn value(&self) -> (r: i64)
        ensures
            r == self.number(),
    {
        match self {
            OsKind::OS_WIN2000 => 12,
            OsKind::OS_WINXP => 13,
            OsKind::OS_WINSRV2003 => 14,
            OsKind::OS_WINSRV2003R2 => 15,
            OsKind::OS_WINVISTA => 20,
            OsKind::OS_WINSRV2008 => 21,
            OsKind::OS_WIN7 => 22,
            OsKind::OS_WINSRV2008R2 => 27,
            OsKind::OS_WIN8 => 23,
            OsKind::OS_WINSRV2012 => 24,
            OsKind::OS_WIN81 => 25,
            OsKind::OS_WINSRV2012R2 => 26,
            OsKind::OS_WIN10 => 30,
            OsKind::OS_WINSRV2016 => 31,
            OsKind::OS_WIN11 => 32,
            OsKind::OS_UNKNOWN => 0,
        }
    }
}

impl ConstEnum for OsKind {
    open spec fn of_value(n: int) -> Option<OsKind> {
        if n == 12 {
            Some(OsKind::OS_WIN2000)
        } else if n == 13 {
            Some(OsKind::OS_WINXP)
        } else if n == 14 {
            Some(OsKind::OS_WINSRV2003)
        } else if n == 15 {
            Some(OsKind::OS_WINSRV2003R2)
        } else if n == 20 {
            Some(OsKind::OS_WINVISTA)
        } else if n == 21 {
            Some(OsKind::OS_WINSRV2008)
        } else if n == 22 {
            Some(OsKind::OS_WIN7)
        } else if n == 27 {
            Some(OsKind::OS_WINSRV2008R2)
        } else if n == 23 {
            Some(OsKind::OS_WIN8)
        } else if n == 24 {
            Some(OsKind::OS_WINSRV2012)
        } else if n == 25 {
            Some(OsKind::OS_WIN81)
        } else if n == 26 {
            Some(OsKind::OS_WINSRV2012R2)
        } else if n == 30 {
            Some(OsKind::OS_WIN10)
        } else if n == 31 {
            Some(OsKind::OS_WINSRV2016)
        } else if n == 32 {
            Some(OsKind::OS_WIN11)
        } else if n == 0 {
            Some(OsKind::OS_UNKNOWN)
        } else {
            None
        }
    }

    fn from_value(n: i64) -> (r: Option<OsKind>) {
        if n == 12 {
            Some(OsKind::OS_WIN2000)
        } else if n == 13 {
            Some(OsKind::OS_WINXP)
        } else if n == 14 {
            Some(OsKind::OS_WINSRV2003)
        } else if n == 15 {
            Some(OsKind::OS_WINSRV2003R2)
        } else if n == 20 {
            Some(OsKind::OS_WINVISTA)
        } else if n == 21 {
            Some(OsKind::OS_WINSRV2008)
        } else if n == 22 {
            Some(OsKind::OS_WIN7)
        } else if n == 27 {
            Some(OsKind::OS_WINSRV2008R2)
        } else if n == 23 {
            Some(OsKind::OS_WIN8)
        } else if n == 24 {
            Some(OsKind::OS_WINSRV2012)
        } else if n == 25 {
            Some(OsKind::OS_WIN81)
        } else if n == 26 {
            Some(OsKind::OS_WINSRV2012R2)
        } else if n == 30 {
            Some(OsKind::OS_WIN10)
        } else if n == 31 {
            Some(OsKind::OS_WINSRV2016)
        } else if n == 32 {
            Some(OsKind::OS_WIN11)
        } else if n == 0 {
            Some(OsKind::OS_UNKNOWN)
        } else {
            None
        }
    }
}

/// What `kindofos` is asked for.
#[allow(non_camel_case_types)]
#[derive(PartialEq, Eq, Clone, Copy, Structural)]
pub enum KindOfOsResultType {
    KIND_OF_OS,
    IS_64BIT_OS,
    OSVER_MAJOR,
    OSVER_MINOR,
    OSVER_BUILD,
    OSVER_PLATFORM,
}

impl KindOfOsResultType {
    /// The number of each constant.
    pub open spec fn number(self) -> int {
        match self {
            KindOfOsResultType::KIND_OF_OS => 0,
            KindOfOsResultType::IS_64BIT_OS => 1,
            KindOfOsResultType::OSVER_MAJOR => 2,
            KindOfOsResultType::OSVER_MINOR => 3,
            KindOfOsResultType::OSVER_BUILD => 4,
            KindOfOsResultType::OSVER_PLATFORM => 5,
        }
    }

    /// The number of this constant.
    pub fn value(&self) -> (r: i64)
        ensures
            r == self.number(),
    {
        match self {
            KindOfOsResultType::KIND_OF_OS => 0,
            KindOfOsResultType::IS_64BIT_OS => 1,
            KindOfOsResultType::OSVER_MAJOR => 2,
            KindOfOsResultType::OSVER_MINOR => 3,
            KindOfOsResultType::OSVER_BUILD => 4,
            KindOfOsResultType::OSVER_PLATFORM => 5,
        }
    }
}

impl ConstEnum for KindOfOsResultType {
    open spec fn of_value(n: int) -> Option<KindOfOsResultType> {
        if n == 0 {
            Some(KindOfOsResultType::KIND_OF_OS)
        } else if n == 1 {
            Some(KindOfOsResultType::IS_64BIT_OS)
        } else if n == 2 {
            Some(KindOfOsResultType::OSVER_MAJOR)
        } else if n == 3 {
            Some(KindOfOsResultType::OSVER_MINOR)
        } else if n == 4 {
            Some(KindOfOsResultType::OSVER_BUILD)
        } else if n == 5 {
            Some(KindOfOsResultType::OSVER_PLATFORM)
        } else {
            None
        }
    }

    fn from_value(n: i64) -> (r: Option<KindOfOsResultType>) {
        if n == 0 {
            Some(KindOfOsResultType::KIND_OF_OS)
        } else if n == 1 {
            Some(KindOfOsResultType::IS_64BIT_OS)
        } else if n == 2 {
            Some(KindOfOsResultType::OSVER_MAJOR)
        } else if n == 3 {
            Some(KindOfOsResultType::OSVER_MINOR)
        } else if n == 4 {
            Some(KindOfOsResultType::OSVER_BUILD)
        } else if n == 5 {
            Some(KindOfOsResultType::OSVER_PLATFORM)
        } else {
            None
        }
    }
}

/// The modes of `lockhardex` (`LOCK_*`).
#[allow(non_camel_case_types)]
#[derive(PartialEq, Eq, Clone, Copy, Structural)]
pub enum LockHardExConst {
    LOCK_ALL,
    LOCK_KEYBOARD,
    LOCK_MOUSE,
}

impl LockHardExConst {
    /// The number of each constant.
    pub open spec fn number(self) -> int {
        match self {
            LockHardExConst::LOCK_ALL => 0,
            LockHardExConst::LOCK_KEYBOARD => 1,
            LockHardExConst::LOCK_MOUSE => 2,
        }
    }

    /// The number of this constant.
    pub fn value(&self) -> (r: i64)
        ensures
            r == self.number(),
    {
        match self {
            LockHardExConst::LOCK_ALL => 0,
            LockHardExConst::LOCK_KEYBOARD => 1,
            LockHardExConst::LOCK_MOUSE => 2,
        }
    }
}

impl ConstEnum for LockHardExConst {
    open spec fn of_value(n: int) -> Option<LockHardExConst> {
        if n == 0 {
            Some(LockHardExConst::LOCK_ALL)
        } else if n == 1 {
            Some(LockHardExConst::LOCK_KEYBOARD)
        } else if n == 2 {
            Some(LockHardExConst::LOCK_MOUSE)
        } else {
            None
        }
    }

    fn from_value(n: i64) -> (r: Option<LockHardExConst>) {
        if n == 0 {
            Some(LockHardExConst::LOCK_ALL)
        } else if n == 1 {
            Some(LockHardExConst::LOCK_KEYBOARD)
        } else if n == 2 {
            Some(LockHardExConst::LOCK_MOUSE)
        } else {
            None
        }
    }
}

/// The sensor readings of `sensor` (`SNSR_*`).
#[allow(non_camel_case_types)]
#[derive(PartialEq, Eq, Clone, Copy, Structural)]
pub enum SensorConst {
    SNSR_Biometric_HumanPresense,
    SNSR_Biometric_HumanProximity,
    SNSR_Electrical_Capacitance,
    SNSR_Electrical_Resistance,
    SNSR_Electrical_Inductance,
    SNSR_Electrical_Current,
    SNSR_Electrical_Voltage,
    SNSR_Electrical_Power,
    SNSR_Environmental_Temperature,
    SNSR_Environmental_Pressure,
    SNSR_Environmental_Humidity,
    SNSR_Environmental_WindDirection,
    SNSR_Environmental_WindSpeed,
    SNSR_Light_Lux,
    SNSR_Light_Temperature,
    SNSR_Mechanical_Force,
    SNSR_Mechanical_AbsPressure,
    SNSR_Mechanical_GaugePressure,
    SNSR_Mechanical_Weight,
    SNSR_Motion_AccelerationX,
    SNSR_Motion_AccelerationY,
    SNSR_Motion_AccelerationZ,
    SNSR_Motion_AngleAccelX,
    SNSR_Motion_AngleAccelY,
    SNSR_Motion_AngleAccelZ,
    SNSR_Motion_Speed,
    SNSR_Scanner_RFIDTag,
    SNSR_Scanner_BarcodeData,
    SNSR_Orientation_TiltX,
    SNSR_Orientation_TiltY,
    SNSR_Orientation_TiltZ,
    SNSR_Orientation_DistanceX,
    SNSR_Orientation_DistanceY,
    SNSR_Orientation_DistanceZ,
    SNSR_Orientation_MagHeading,
    SNSR_Orientation_TrueHeading,
    SNSR_Orientation_CompMagHeading,
    SNSR_Orientation_CompTrueHeading,
    SNSR_Location_Altitude,
    SNSR_Location_Latitude,
    SNSR_Location_Longitude,
    SNSR_Location_Speed,
}

impl SensorConst {
    /// The number of each constant.
    pub open spec fn number(self) -> int {
        match self {
            SensorConst::SNSR_Biometric_HumanPresense => 1,
            SensorConst::SNSR_Biometric_HumanProximity => 2,
            SensorConst::SNSR_Electrical_Capacitance => 5,
            SensorConst::SNSR_Electrical_Resistance => 6,
            SensorConst::SNSR_Electrical_Inductance => 7,
            SensorConst::SNSR_Electrical_Current => 8,
            SensorConst::SNSR_Electrical_Voltage => 9,
            SensorConst::SNSR_Electrical_Power => 10,
            SensorConst::SNSR_Environmental_Temperature => 15,
            SensorConst::SNSR_Environmental_Pressure => 16,
            SensorConst::SNSR_Environmental_Humidity => 17,
            SensorConst::SNSR_Environmental_WindDirection => 18,
            SensorConst::SNSR_Environmental_WindSpeed => 19,
            SensorConst::SNSR_Light_Lux => 20,
            SensorConst::SNSR_Light_Temperature => 21,
            SensorConst::SNSR_Mechanical_Force => 25,
            SensorConst::SNSR_Mechanical_AbsPressure => 26,
            SensorConst::SNSR_Mechanical_GaugePressure => 27,
            SensorConst::SNSR_Mechanical_Weight => 28,
            SensorConst::SNSR_Motion_AccelerationX => 30,
            SensorConst::SNSR_Motion_AccelerationY => 31,
            SensorConst::SNSR_Motion_AccelerationZ => 32,
            SensorConst::SNSR_Motion_AngleAccelX => 33,
            SensorConst::SNSR_Motion_AngleAccelY => 34,
            SensorConst::SNSR_Motion_AngleAccelZ => 35,
            SensorConst::SNSR_Motion_Speed => 36,
            SensorConst::SNSR_Scanner_RFIDTag => 40,
            SensorConst::SNSR_Scanner_BarcodeData => 41,
            SensorConst::SNSR_Orientation_TiltX => 45,
            SensorConst::SNSR_Orientation_TiltY => 46,
            SensorConst::SNSR_Orientation_TiltZ => 47,
            SensorConst::SNSR_Orientation_DistanceX => 48,
            SensorConst::SNSR_Orientation_DistanceY => 49,
            SensorConst::SNSR_Orientation_DistanceZ => 50,
            SensorConst::SNSR_Orientation_MagHeading => 51,
            SensorConst::SNSR_Orientation_TrueHeading => 52,
            SensorConst::SNSR_Orientation_CompMagHeading => 53,
            SensorConst::SNSR_Orientation_CompTrueHeading => 54,
            SensorConst::SNSR_Location_Altitude => 60,
            SensorConst::SNSR_Location_Latitude => 61,
            SensorConst::SNSR_Location_Longitude => 62,
            SensorConst::SNSR_Location_Speed => 63,
        }
    }

    /// The number of this constant.
    pub fn value(&self) -> (r: i64)
        ensures
            r == self.number(),
    {
        match self {
            SensorConst::SNSR_Biometric_HumanPresense => 1,
            SensorConst::SNSR_Biometric_HumanProximity => 2,
            SensorConst::SNSR_Electrical_Capacitance => 5,
            SensorConst::SNSR_Electrical_Resistance => 6,
            SensorConst::SNSR_Electrical_Inductance => 7,
            SensorConst::SNSR_Electrical_Current => 8,
            SensorConst::SNSR_Electrical_Voltage => 9,
            SensorConst::SNSR_Electrical_Power => 10,
            SensorConst::SNSR_Environmental_Temperature => 15,
            SensorConst::SNSR_Environmental_Pressure => 16,
            SensorConst::SNSR_Environmental_Humidity => 17,
            SensorConst::SNSR_Environmental_WindDirection => 18,
            SensorConst::SNSR_Environmental_WindSpeed => 19,
            SensorConst::SNSR_Light_Lux => 20,
            SensorConst::SNSR_Light_Temperature => 21,
            SensorConst::SNSR_Mechanical_Force => 25,
            SensorConst::SNSR_Mechanical_AbsPressure => 26,
            SensorConst::SNSR_Mechanical_GaugePressure => 27,
            SensorConst::SNSR_Mechanical_Weight => 28,
            SensorConst::SNSR_Motion_AccelerationX => 30,
            SensorConst::SNSR_Motion_AccelerationY => 31,
            SensorConst::SNSR_Motion_AccelerationZ => 32,
            SensorConst::SNSR_Motion_AngleAccelX => 33,
            SensorConst::SNSR_Motion_AngleAccelY => 34,
            SensorConst::SNSR_Motion_AngleAccelZ => 35,
            SensorConst::SNSR_Motion_Speed => 36,
            SensorConst::SNSR_Scanner_RFIDTag => 40,
            SensorConst::SNSR_Scanner_BarcodeData => 41,
            SensorConst::SNSR_Orientation_TiltX => 45,
            SensorConst::SNSR_Orientation_TiltY => 46,
            SensorConst::SNSR_Orientation_TiltZ => 47,
            SensorConst::SNSR_Orientation_DistanceX => 48,
            SensorConst::SNSR_Orientation_DistanceY => 49,
            SensorConst::SNSR_Orientation_DistanceZ => 50,
            SensorConst::SNSR_Orientation_MagHeading => 51,
            SensorConst::SNSR_Orientation_TrueHeading => 52,
            SensorConst::SNSR_Orientation_CompMagHeading => 53,
            SensorConst::SNSR_Orientation_CompTrueHeading => 54,
            SensorConst::SNSR_Location_Altitude => 60,
            SensorConst::SNSR_Location_Latitude => 61,
            SensorConst::SNSR_Location_Longitude => 62,
            SensorConst::SNSR_Location_Speed => 63,
        }
    }
}

impl ConstEnum for SensorConst {
    open spec fn of_value(n: int) -> Option<SensorConst> {
        if n == 1 {
            Some(SensorConst::SNSR_Biometric_HumanPresense)
        } else if n == 2 {
            Some(SensorConst::SNSR_Biometric_HumanProximity)
        } else if n == 5 {
            Some(SensorConst::SNSR_Electrical_Capacitance)
        } else if n == 6 {
            Some(SensorConst::SNSR_Electrical_Resistance)
        } else if n == 7 {
            Some(SensorConst::SNSR_Electrical_Inductance)
        } else if n == 8 {
            Some(SensorConst::SNSR_Electrical_Current)
        } else if n == 9 {
            Some(SensorConst::SNSR_Electrical_Voltage)
        } else if n == 10 {
            Some(SensorConst::SNSR_Electrical_Power)
        } else if n == 15 {
            Some(SensorConst::SNSR_Environmental_Temperature)
        } else if n == 16 {
            Some(SensorConst::SNSR_Environmental_Pressure)
        } else if n == 17 {
            Some(SensorConst::SNSR_Environmental_Humidity)
        } else if n == 18 {
            Some(SensorConst::SNSR_Environmental_WindDirection)
        } else if n == 19 {
            Some(SensorConst::SNSR_Environmental_WindSpeed)
        } else if n == 20 {
            Some(SensorConst::SNSR_Light_Lux)
        } else if n == 21 {
            Some(SensorConst::SNSR_Light_Temperature)
        } else if n == 25 {
            Some(SensorConst::SNSR_Mechanical_Force)
        } else if n == 26 {
            Some(SensorConst::SNSR_Mechanical_AbsPressure)
        } else if n == 27 {
            Some(SensorConst::SNSR_Mechanical_GaugePressure)
        } else if n == 28 {
            Some(SensorConst::SNSR_Mechanical_Weight)
        } else if n == 30 {
            Some(SensorConst::SNSR_Motion_AccelerationX)
        } else if n == 31 {
            Some(SensorConst::SNSR_Motion_AccelerationY)
        } else if n == 32 {
            Some(SensorConst::SNSR_Motion_AccelerationZ)
        } else if n == 33 {
            Some(SensorConst::SNSR_Motion_AngleAccelX)
        } else if n == 34 {
            Some(SensorConst::SNSR_Motion_AngleAccelY)
        } else if n == 35 {
            Some(SensorConst::SNSR_Motion_AngleAccelZ)
        } else if n == 36 {
            Some(SensorConst::SNSR_Motion_Speed)
        } else if n == 40 {
            Some(SensorConst::SNSR_Scanner_RFIDTag)
        } else if n == 41 {
            Some(SensorConst::SNSR_Scanner_BarcodeData)
        } else if n == 45 {
            Some(SensorConst::SNSR_Orientation_TiltX)
        } else if n == 46 {
            Some(SensorConst::SNSR_Orientation_TiltY)
        } else if n == 47 {
            Some(SensorConst::SNSR_Orientation_TiltZ)
        } else if n == 48 {
            Some(SensorConst::SNSR_Orientation_DistanceX)
        } else if n == 49 {
            Some(SensorConst::SNSR_Orientation_DistanceY)
        } else if n == 50 {
            Some(SensorConst::SNSR_Orientation_DistanceZ)
        } else if n == 51 {
            Some(SensorConst::SNSR_Orientation_MagHeading)
        } else if n == 52 {
            Some(SensorConst::SNSR_Orientation_TrueHeading)
        } else if n == 53 {
            Some(SensorConst::SNSR_Orientation_CompMagHeading)
        } else if n == 54 {
            Some(SensorConst::SNSR_Orientation_CompTrueHeading)
        } else if n == 60 {
            Some(SensorConst::SNSR_Location_Altitude)
        } else if n == 61 {
            Some(SensorConst::SNSR_Location_Latitude)
        } else if n == 62 {
            Some(SensorConst::SNSR_Location_Longitude)
        } else if n == 63 {
            Some(SensorConst::SNSR_Location_Speed)
        } else {
            None
        }
    }

    fn from_value(n: i64) -> (r: Option<SensorConst>) {
        if n == 1 {
            Some(SensorConst::SNSR_Biometric_HumanPresense)
        } else if n == 2 {
            Some(SensorConst::SNSR_Biometric_HumanProximity)
        } else if n == 5 {
            Some(SensorConst::SNSR_Electrical_Capacitance)
        } else if n == 6 {
            Some(SensorConst::SNSR_Electrical_Resistance)
        } else if n == 7 {
            Some(SensorConst::SNSR_Electrical_Inductance)
        } else if n == 8 {
            Some(SensorConst::SNSR_Electrical_Current)
        } else if n == 9 {
            Some(SensorConst::SNSR_Electrical_Voltage)
        } else if n == 10 {
            Some(SensorConst::SNSR_Electrical_Power)
        } else if n == 15 {
            Some(SensorConst::SNSR_Environmental_Temperature)
        } else if n == 16 {
            Some(SensorConst::SNSR_Environmental_Pressure)
        } else if n == 17 {
            Some(SensorConst::SNSR_Environmental_Humidity)
        } else if n == 18 {
            Some(SensorConst::SNSR_Environmental_WindDirection)
        } else if n == 19 {
            Some(SensorConst::SNSR_Environmental_WindSpeed)
        } else if n == 20 {
            Some(SensorConst::SNSR_Light_Lux)
        } else if n == 21 {
            Some(SensorConst::SNSR_Light_Temperature)
        } else if n == 25 {
            Some(SensorConst::SNSR_Mechanical_Force)
        } else if n == 26 {
            Some(SensorConst::SNSR_Mechanical_AbsPressure)
        } else if n == 27 {
            Some(SensorConst::SNSR_Mechanical_GaugePressure)
        } else if n == 28 {
            Some(SensorConst::SNSR_Mechanical_Weight)
        } else if n == 30 {
            Some(SensorConst::SNSR_Motion_AccelerationX)
        } else if n == 31 {
            Some(SensorConst::SNSR_Motion_AccelerationY)
        } else if n == 32 {
            Some(SensorConst::SNSR_Motion_AccelerationZ)
        } else if n == 33 {
            Some(SensorConst::SNSR_Motion_AngleAccelX)
        } else if n == 34 {
            Some(SensorConst::SNSR_Motion_AngleAccelY)
        } else if n == 35 {
            Some(SensorConst::SNSR_Motion_AngleAccelZ)
        } else if n == 36 {
            Some(SensorConst::SNSR_Motion_Speed)
        } else if n == 40 {
            Some(SensorConst::SNSR_Scanner_RFIDTag)
        } else if n == 41 {
            Some(SensorConst::SNSR_Scanner_BarcodeData)
        } else if n == 45 {
            Some(SensorConst::SNSR_Orientation_TiltX)
        } else if n == 46 {
            Some(SensorConst::SNSR_Orientation_TiltY)
        } else if n == 47 {
            Some(SensorConst::SNSR_Orientation_TiltZ)
        } else if n == 48 {
            Some(SensorConst::SNSR_Orientation_DistanceX)
        } else if n == 49 {
            Some(SensorConst::SNSR_Orientation_DistanceY)
        } else if n == 50 {
            Some(SensorConst::SNSR_Orientation_DistanceZ)
        } else if n == 51 {
            Some(SensorConst::SNSR_Orientation_MagHeading)
        } else if n == 52 {
            Some(SensorConst::SNSR_Orientation_TrueHeading)
        } else if n == 53 {
            Some(SensorConst::SNSR_Orientation_CompMagHeading)
        } else if n == 54 {
            Some(SensorConst::SNSR_Orientation_CompTrueHeading)
        } else if n == 60 {
            Some(SensorConst::SNSR_Location_Altitude)
        } else if n == 61 {
            Some(SensorConst::SNSR_Location_Latitude)
        } else if n == 62 {
            Some(SensorConst::SNSR_Location_Longitude)
        } else if n == 63 {
            Some(SensorConst::SNSR_Location_Speed)
        } else {
            None
        }
    }
}

/// The toggle keys of `getkeystate` (`TGL_*`).
#[allow(non_camel_case_types)]
#[derive(PartialEq, Eq, Clone, Copy, Structural)]
pub enum ToggleKey {
    TGL_NUMLOCK,
    TGL_CAPSLOCK,
    TGL_SCROLLLOCK,
    TGL_KANALOCK,
    TGL_IME,
}

impl ToggleKey {
    /// The number of each constant.
    pub open spec fn number(self) -> int {
        match self {
            ToggleKey::TGL_NUMLOCK => 10000,
            ToggleKey::TGL_CAPSLOCK => 10001,
            ToggleKey::TGL_SCROLLLOCK => 10002,
            ToggleKey::TGL_KANALOCK => 10003,
            ToggleKey::TGL_IME => 10004,
        }
    }

    /// The number of this constant.
    pub fn value(&self) -> (r: i64)
        ensures
            r == self.number(),
    {
        match self {
            ToggleKey::TGL_NUMLOCK => 10000,
            ToggleKey::TGL_CAPSLOCK => 10001,
            ToggleKey::TGL_SCROLLLOCK => 10002,
            ToggleKey::TGL_KANALOCK => 10003,
            ToggleKey::TGL_IME => 10004,
        }
    }
}

impl ConstEnum for ToggleKey {
    open spec fn of_value(n: int) -> Option<ToggleKey> {
        if n == 10000 {
            Some(ToggleKey::TGL_NUMLOCK)
        } else if n == 10001 {
            Some(ToggleKey::TGL_CAPSLOCK)
        } else if n == 10002 {
            Some(ToggleKey::TGL_SCROLLLOCK)
        } else if n == 10003 {
            Some(ToggleKey::TGL_KANALOCK)
        } else if n == 10004 {
            Some(ToggleKey::TGL_IME)
        } else {
            None
        }
    }

    fn from_value(n: i64) -> (r: Option<ToggleKey>) {
        if n == 10000 {
            Some(ToggleKey::TGL_NUMLOCK)
        } else if n == 10001 {
            Some(ToggleKey::TGL_CAPSLOCK)
        } else if n == 10002 {
            Some(ToggleKey::TGL_SCROLLLOCK)
        } else if n == 10003 {
            Some(ToggleKey::TGL_KANALOCK)
        } else if n == 10004 {
            Some(ToggleKey::TGL_IME)
        } else {
            None
        }
    }
}

/// The error value that `val` gives by default.
#[allow(non_camel_case_types)]
#[derive(PartialEq, Eq, Clone, Copy, Structural)]
pub enum ErrConst {
    ERR_VALUE,
}

impl ErrConst {
    /// The number of each constant.
    pub open spec fn number(self) -> int {
        match self {
            ErrConst::ERR_VALUE => -999999,
        }
    }

    /// The number of this constant.
    pub fn value(&self) -> (r: i64)
        ensures
            r == self.number(),
    {
        match self {
            ErrConst::ERR_VALUE => -999999,
        }
    }
}

impl ConstEnum for ErrConst {
    open spec fn of_value(n: int) -> Option<ErrConst> {
        if n == -999999 {
            Some(ErrConst::ERR_VALUE)
        } else {
            None
        }
    }

    fn from_value(n: i64) -> (r: Option<ErrConst>) {
        if n == -999999 {
            Some(ErrConst::ERR_VALUE)
        } else {
            None
        }
    }
}

/// The fill modes of `format` (`FMT_*`).
#[allow(non_camel_case_types)]
#[derive(PartialEq, Eq, Clone, Copy, Structural)]
pub enum FormatConst {
    FMT_DEFAULT,
    FMT_ZERO,
    FMT_RIGHT,
    FMT_ZEROR,
}

impl FormatConst {
    /// The number of each constant.
    pub open spec fn number(self) -> int {
        match self {
            FormatConst::FMT_DEFAULT => 0,
            FormatConst::FMT_ZERO => 1,
            FormatConst::FMT_RIGHT => 2,
            FormatConst::FMT_ZEROR => 3,
        }
    }

    /// The number of this constant.
    pub fn value(&self) -> (r: i64)
        ensures
            r == self.number(),
    {
        match self {
            FormatConst::FMT_DEFAULT => 0,
            FormatConst::FMT_ZERO => 1,
            FormatConst::FMT_RIGHT => 2,
            FormatConst::FMT_ZEROR => 3,
        }
    }
}

impl ConstEnum for FormatConst {
    open spec fn of_value(n: int) -> Option<FormatConst> {
        if n == 0 {
            Some(FormatConst::FMT_DEFAULT)
        } else if n == 1 {
            Some(FormatConst::FMT_ZERO)
        } else if n == 2 {
            Some(FormatConst::FMT_RIGHT)
        } else if n == 3 {
            Some(FormatConst::FMT_ZEROR)
        } else {
            None
        }
    }

    fn from_value(n: i64) -> (r: Option<FormatConst>) {
        if n == 0 {
            Some(FormatConst::FMT_DEFAULT)
        } else if n == 1 {
            Some(FormatConst::FMT_ZERO)
        } else if n == 2 {
            Some(FormatConst::FMT_RIGHT)
        } else if n == 3 {
            Some(FormatConst::FMT_ZEROR)
        } else {
            None
        }
    }
}

impl Default for FormatConst {
    fn default() -> (r: FormatConst)
        ensures
            r == FormatConst::FMT_DEFAULT,
    {
        FormatConst::FMT_DEFAULT
    }
}

/// The flags of `clkitem` (`CLK_*`).
#[allow(non_camel_case_types)]
#[derive(PartialEq, Eq, Clone, Copy, Structural)]
pub enum ClkConst {
    CLK_BTN,
    CLK_LIST,
    CLK_MENU,
    CLK_TAB,
    CLK_TREEVIEW,
    CLK_LISTVIEW,
    CLK_TOOLBAR,
    CLK_LINK,
    CLK_SHORT,
    CLK_BACK,
    CLK_MOUSEMOVE,
    CLK_RIGHTCLK,
    CLK_LEFTCLK,
    CLK_DBLCLK,
    CLK_FROMLAST,
    CLK_ACC,
    CLK_API,
    CLK_UIA,
    CLK_HWND,
}

impl ClkConst {
    /// The number of each constant.
    pub open spec fn number(self) -> int {
        match self {
            ClkConst::CLK_BTN => 1,
            ClkConst::CLK_LIST => 2,
            ClkConst::CLK_MENU => 4,
            ClkConst::CLK_TAB => 8,
            ClkConst::CLK_TREEVIEW => 16,
            ClkConst::CLK_LISTVIEW => 32,
            ClkConst::CLK_TOOLBAR => 64,
            ClkConst::CLK_LINK => 128,
            ClkConst::CLK_SHORT => 256,
            ClkConst::CLK_BACK => 512,
            ClkConst::CLK_MOUSEMOVE => 1024,
            ClkConst::CLK_RIGHTCLK => 4096,
            ClkConst::CLK_LEFTCLK => 2048,
            ClkConst::CLK_DBLCLK => 8192,
            ClkConst::CLK_FROMLAST => 65536,
            ClkConst::CLK_ACC => 32768,
            ClkConst::CLK_API => 536870912,
            ClkConst::CLK_UIA => 1073741824,
            ClkConst::CLK_HWND => 262144,
        }
    }

    /// The number of this constant.
    pub fn value(&self) -> (r: i64)
        ensures
            r == self.number(),
    {
        match self {
            ClkConst::CLK_BTN => 1,
            ClkConst::CLK_LIST => 2,
            ClkConst::CLK_MENU => 4,
            ClkConst::CLK_TAB => 8,
            ClkConst::CLK_TREEVIEW => 16,
            ClkConst::CLK_LISTVIEW => 32,
            ClkConst::CLK_TOOLBAR => 64,
            ClkConst::CLK_LINK => 128,
            ClkConst::CLK_SHORT => 256,
            ClkConst::CLK_BACK => 512,
            ClkConst::CLK_MOUSEMOVE => 1024,
            ClkConst::CLK_RIGHTCLK => 4096,
            ClkConst::CLK_LEFTCLK => 2048,
            ClkConst::CLK_DBLCLK => 8192,
            ClkConst::CLK_FROMLAST => 65536,
            ClkConst::CLK_ACC => 32768,
            ClkConst::CLK_API => 536870912,
            ClkConst::CLK_UIA => 1073741824,
            ClkConst::CLK_HWND => 262144,
        }
    }
}

impl ConstEnum for ClkConst {
    open spec fn of_value(n: int) -> Option<ClkConst> {
        if n == 1 {
            Some(ClkConst::CLK_BTN)
        } else if n == 2 {
            Some(ClkConst::CLK_LIST)
        } else if n == 4 {
            Some(ClkConst::CLK_MENU)
        } else if n == 8 {
            Some(ClkConst::CLK_TAB)
        } else if n == 16 {
            Some(ClkConst::CLK_TREEVIEW)
        } else if n == 32 {
            Some(ClkConst::CLK_LISTVIEW)
        } else if n == 64 {
            Some(ClkConst::CLK_TOOLBAR)
        } else if n == 128 {
            Some(ClkConst::CLK_LINK)
        } else if n == 256 {
            Some(ClkConst::CLK_SHORT)
        } else if n == 512 {
            Some(ClkConst::CLK_BACK)
        } else if n == 1024 {
            Some(ClkConst::CLK_MOUSEMOVE)
        } else if n == 4096 {
            Some(ClkConst::CLK_RIGHTCLK)
        } else if n == 2048 {
            Some(ClkConst::CLK_LEFTCLK)
        } else if n == 8192 {
            Some(ClkConst::CLK_DBLCLK)
        } else if n == 65536 {
            Some(ClkConst::CLK_FROMLAST)
        } else if n == 32768 {
            Some(ClkConst::CLK_ACC)
        } else if n == 536870912 {
            Some(ClkConst::CLK_API)
        } else if n == 1073741824 {
            Some(ClkConst::CLK_UIA)
        } else if n == 262144 {
            Some(ClkConst::CLK_HWND)
        } else {
            None
        }
    }

    fn from_value(n: i64) -> (r: Option<ClkConst>) {
        if n == 1 {
            Some(ClkConst::CLK_BTN)
        } else if n == 2 {
            Some(ClkConst::CLK_LIST)
        } else if n == 4 {
            Some(ClkConst::CLK_MENU)
        } else if n == 8 {
            Some(ClkConst::CLK_TAB)
        } else if n == 16 {
            Some(ClkConst::CLK_TREEVIEW)
        } else if n == 32 {
            Some(ClkConst::CLK_LISTVIEW)
        } else if n == 64 {
            Some(ClkConst::CLK_TOOLBAR)
        } else if n == 128 {
            Some(ClkConst::CLK_LINK)
        } else if n == 256 {
            Some(ClkConst::CLK_SHORT)
        } else if n == 512 {
            Some(ClkConst::CLK_BACK)
        } else if n == 1024 {
            Some(ClkConst::CLK_MOUSEMOVE)
        } else if n == 4096 {
            Some(ClkConst::CLK_RIGHTCLK)
        } else if n == 2048 {
            Some(ClkConst::CLK_LEFTCLK)
        } else if n == 8192 {
            Some(ClkConst::CLK_DBLCLK)
        } else if n == 65536 {
            Some(ClkConst::CLK_FROMLAST)
        } else if n == 32768 {
            Some(ClkConst::CLK_ACC)
        } else if n == 536870912 {
            Some(ClkConst::CLK_API)
        } else if n == 1073741824 {
            Some(ClkConst::CLK_UIA)
        } else if n == 262144 {
            Some(ClkConst::CLK_HWND)
        } else {
            None
        }
    }
}

/// The commands of `ctrlwin`.
#[allow(non_camel_case_types)]
#[derive(PartialEq, Eq, Clone, Copy, Structural)]
pub enum CtrlWinCmd {
    CLOSE,
    CLOSE2,
    ACTIVATE,
    HIDE,
    SHOW,
    MIN,
    MAX,
    NORMAL,
    TOPMOST,
    NOTOPMOST,
    TOPNOACTV,
}

impl CtrlWinCmd {
    /// The number of each constant.
    pub open spec fn number(self) -> int {
        match self {
            CtrlWinCmd::CLOSE => 2,
            CtrlWinCmd::CLOSE2 => 3,
            CtrlWinCmd::ACTIVATE => 1,
            CtrlWinCmd::HIDE => 4,
            CtrlWinCmd::SHOW => 5,
            CtrlWinCmd::MIN => 6,
            CtrlWinCmd::MAX => 7,
            CtrlWinCmd::NORMAL => 8,
            CtrlWinCmd::TOPMOST => 9,
            CtrlWinCmd::NOTOPMOST => 10,
            CtrlWinCmd::TOPNOACTV => 11,
        }
    }

    /// The number of this constant.
    pub fn value(&self) -> (r: i64)
        ensures
            r == self.number(),
    {
        match self {
            CtrlWinCmd::CLOSE => 2,
            CtrlWinCmd::CLOSE2 => 3,
            CtrlWinCmd::ACTIVATE => 1,
            CtrlWinCmd::HIDE => 4,
            CtrlWinCmd::SHOW => 5,
            CtrlWinCmd::MIN => 6,
            CtrlWinCmd::MAX => 7,
            CtrlWinCmd::NORMAL => 8,
            CtrlWinCmd::TOPMOST => 9,
            CtrlWinCmd::NOTOPMOST => 10,
            CtrlWinCmd::TOPNOACTV => 11,
        }
    }
}

impl ConstEnum for CtrlWinCmd {
    open spec fn of_value(n: int) -> Option<CtrlWinCmd> {
        if n == 2 {
            Some(CtrlWinCmd::CLOSE)
        } else if n == 3 {
            Some(CtrlWinCmd::CLOSE2)
        } else if n == 1 {
            Some(CtrlWinCmd::ACTIVATE)
        } else if n == 4 {
            Some(CtrlWinCmd::HIDE)
        } else if n == 5 {
            Some(CtrlWinCmd::SHOW)
        } else if n == 6 {
            Some(CtrlWinCmd::MIN)
        } else if n == 7 {
            Some(CtrlWinCmd::MAX)
        } else if n == 8 {
            Some(CtrlWinCmd::NORMAL)
        } else if n == 9 {
            Some(CtrlWinCmd::TOPMOST)
        } else if n == 10 {
            Some(CtrlWinCmd::NOTOPMOST)
        } else if n == 11 {
            Some(CtrlWinCmd::TOPNOACTV)
        } else {
            None
        }
    }

    fn from_value(n: i64) -> (r: Option<CtrlWinCmd>) {
        if n == 2 {
            Some(CtrlWinCmd::CLOSE)
        } else if n == 3 {
            Some(CtrlWinCmd::CLOSE2)
        } else if n == 1 {
            Some(CtrlWinCmd::ACTIVATE)
        } else if n == 4 {
            Some(CtrlWinCmd::HIDE)
        } else if n == 5 {
            Some(CtrlWinCmd::SHOW)
        } else if n == 6 {
            Some(CtrlWinCmd::MIN)
        } else if n == 7 {
            Some(CtrlWinCmd::MAX)
        } else if n == 8 {
            Some(CtrlWinCmd::NORMAL)
        } else if n == 9 {
            Some(CtrlWinCmd::TOPMOST)
        } else if n == 10 {
            Some(CtrlWinCmd::NOTOPMOST)
        } else if n == 11 {
            Some(CtrlWinCmd::TOPNOACTV)
        } else {
            None
        }
    }
}

/// The items of `status` (`ST_*`).
#[allow(non_camel_case_types)]
#[derive(PartialEq, Eq, Clone, Copy, Structural)]
pub enum StatusEnum {
    ST_ALL,
    ST_TITLE,
    ST_CLASS,
    ST_X,
    ST_Y,
    ST_WIDTH,
    ST_HEIGHT,
    ST_CLX,
    ST_CLY,
    ST_CLWIDTH,
    ST_CLHEIGHT,
    ST_PARENT,
    ST_ICON,
    ST_MAXIMIZED,
    ST_VISIBLE,
    ST_ACTIVE,
    ST_BUSY,
    ST_ISID,
    ST_WIN64,
    ST_PATH,
    ST_PROCESS,
    ST_MONITOR,
    ST_WX,
    ST_WY,
    ST_WWIDTH,
    ST_WHEIGHT,
}

impl StatusEnum {
    /// The number of each constant.
    pub open spec fn number(self) -> int {
        match self {
            StatusEnum::ST_ALL => 0,
            StatusEnum::ST_TITLE => 9,
            StatusEnum::ST_CLASS => 14,
            StatusEnum::ST_X => 1,
            StatusEnum::ST_Y => 2,
            StatusEnum::ST_WIDTH => 3,
            StatusEnum::ST_HEIGHT => 4,
            StatusEnum::ST_CLX => 5,
            StatusEnum::ST_CLY => 6,
            StatusEnum::ST_CLWIDTH => 7,
            StatusEnum::ST_CLHEIGHT => 8,
            StatusEnum::ST_PARENT => 16,
            StatusEnum::ST_ICON => 10,
            StatusEnum::ST_MAXIMIZED => 11,
            StatusEnum::ST_VISIBLE => 12,
            StatusEnum::ST_ACTIVE => 13,
            StatusEnum::ST_BUSY => 15,
            StatusEnum::ST_ISID => 21,
            StatusEnum::ST_WIN64 => 19,
            StatusEnum::ST_PATH => 17,
            StatusEnum::ST_PROCESS => 18,
            StatusEnum::ST_MONITOR => 20,
            StatusEnum::ST_WX => 101,
            StatusEnum::ST_WY => 102,
            StatusEnum::ST_WWIDTH => 103,
            StatusEnum::ST_WHEIGHT => 104,
        }
    }

    /// The number of this constant.
    pub fn value(&self) -> (r: i64)
        ensures
            r == self.number(),
    {
        match self {
            StatusEnum::ST_ALL => 0,
            StatusEnum::ST_TITLE => 9,
            StatusEnum::ST_CLASS => 14,
            StatusEnum::ST_X => 1,
            StatusEnum::ST_Y => 2,
            StatusEnum::ST_WIDTH => 3,
            StatusEnum::ST_HEIGHT => 4,
            StatusEnum::ST_CLX => 5,
            StatusEnum::ST_CLY => 6,
            StatusEnum::ST_CLWIDTH => 7,
            StatusEnum::ST_CLHEIGHT => 8,
            StatusEnum::ST_PARENT => 16,
            StatusEnum::ST_ICON => 10,
            StatusEnum::ST_MAXIMIZED => 11,
            StatusEnum::ST_VISIBLE => 12,
            StatusEnum::ST_ACTIVE => 13,
            StatusEnum::ST_BUSY => 15,
            StatusEnum::ST_ISID => 21,
            StatusEnum::ST_WIN64 => 19,
            StatusEnum::ST_PATH => 17,
            StatusEnum::ST_PROCESS => 18,
            StatusEnum::ST_MONITOR => 20,
            StatusEnum::ST_WX => 101,
            StatusEnum::ST_WY => 102,
            StatusEnum::ST_WWIDTH => 103,
            StatusEnum::ST_WHEIGHT => 104,
        }
    }
}

impl ConstEnum for StatusEnum {
    open spec fn of_value(n: int) -> Option<StatusEnum> {
        if n == 0 {
            Some(StatusEnum::ST_ALL)
        } else if n == 9 {
            Some(StatusEnum::ST_TITLE)
        } else if n == 14 {
            Some(StatusEnum::ST_CLASS)
        } else if n == 1 {
            Some(StatusEnum::ST_X)
        } else if n == 2 {
            Some(StatusEnum::ST_Y)
        } else if n == 3 {
            Some(StatusEnum::ST_WIDTH)
        } else if n == 4 {
            Some(StatusEnum::ST_HEIGHT)
        } else if n == 5 {
            Some(StatusEnum::ST_CLX)
        } else if n == 6 {
            Some(StatusEnum::ST_CLY)
        } else if n == 7 {
            Some(StatusEnum::ST_CLWIDTH)
        } else if n == 8 {
            Some(StatusEnum::ST_CLHEIGHT)
        } else if n == 16 {
            Some(StatusEnum::ST_PARENT)
        } else if n == 10 {
            Some(StatusEnum::ST_ICON)
        } else if n == 11 {
            Some(StatusEnum::ST_MAXIMIZED)
        } else if n == 12 {
            Some(StatusEnum::ST_VISIBLE)
        } else if n == 13 {
            Some(StatusEnum::ST_ACTIVE)
        } else if n == 15 {
            Some(StatusEnum::ST_BUSY)
        } else if n == 21 {
            Some(StatusEnum::ST_ISID)
        } else if n == 19 {
            Some(StatusEnum::ST_WIN64)
        } else if n == 17 {
            Some(StatusEnum::ST_PATH)
        } else if n == 18 {
            Some(StatusEnum::ST_PROCESS)
        } else if n == 20 {
            Some(StatusEnum::ST_MONITOR)
        } else if n == 101 {
            Some(StatusEnum::ST_WX)
        } else if n == 102 {
            Some(StatusEnum::ST_WY)
        } else if n == 103 {
            Some(StatusEnum::ST_WWIDTH)
        } else if n == 104 {
            Some(StatusEnum::ST_WHEIGHT)
        } else {
            None
        }
    }

    fn from_value(n: i64) -> (r: Option<StatusEnum>) {
        if n == 0 {
            Some(StatusEnum::ST_ALL)
        } else if n == 9 {
            Some(StatusEnum::ST_TITLE)
        } else if n == 14 {
            Some(StatusEnum::ST_CLASS)
        } else if n == 1 {
            Some(StatusEnum::ST_X)
        } else if n == 2 {
            Some(StatusEnum::ST_Y)
        } else if n == 3 {
            Some(StatusEnum::ST_WIDTH)
        } else if n == 4 {
            Some(StatusEnum::ST_HEIGHT)
        } else if n == 5 {
            Some(StatusEnum::ST_CLX)
        } else if n == 6 {
            Some(StatusEnum::ST_CLY)
        } else if n == 7 {
            Some(StatusEnum::ST_CLWIDTH)
        } else if n == 8 {
            Some(StatusEnum::ST_CLHEIGHT)
        } else if n == 16 {
            Some(StatusEnum::ST_PARENT)
        } else if n == 10 {
            Some(StatusEnum::ST_ICON)
        } else if n == 11 {
            Some(StatusEnum::ST_MAXIMIZED)
        } else if n == 12 {
            Some(StatusEnum::ST_VISIBLE)
        } else if n == 13 {
            Some(StatusEnum::ST_ACTIVE)
        } else if n == 15 {
            Some(StatusEnum::ST_BUSY)
        } else if n == 21 {
            Some(StatusEnum::ST_ISID)
        } else if n == 19 {
            Some(StatusEnum::ST_WIN64)
        } else if n == 17 {
            Some(StatusEnum::ST_PATH)
        } else if n == 18 {
            Some(StatusEnum::ST_PROCESS)
        } else if n == 20 {
            Some(StatusEnum::ST_MONITOR)
        } else if n == 101 {
            Some(StatusEnum::ST_WX)
        } else if n == 102 {
            Some(StatusEnum::ST_WY)
        } else if n == 103 {
            Some(StatusEnum::ST_WWIDTH)
        } else if n == 104 {
            Some(StatusEnum::ST_WHEIGHT)
        } else {
            None
        }
    }
}

/// The items of `monitor` (`MON_*`).
#[allow(non_camel_case_types)]
#[derive(PartialEq, Eq, Clone, Copy, Structural)]
pub enum MonitorEnum {
    MON_X,
    MON_Y,
    MON_WIDTH,
    MON_HEIGHT,
    MON_PRIMARY,
    MON_NAME,
    MON_WORK_X,
    MON_WORK_Y,
    MON_WORK_WIDTH,
    MON_WORK_HEIGHT,
    MON_DPI,
    MON_SCALING,
    MON_ALL,
}

impl MonitorEnum {
    /// The number of each constant.
    pub open spec fn number(self) -> int {
        match self {
            MonitorEnum::MON_X => 0,
            MonitorEnum::MON_Y => 1,
            MonitorEnum::MON_WIDTH => 2,
            MonitorEnum::MON_HEIGHT => 3,
            MonitorEnum::MON_PRIMARY => 4,
            MonitorEnum::MON_NAME => 5,
            MonitorEnum::MON_WORK_X => 10,
            MonitorEnum::MON_WORK_Y => 11,
            MonitorEnum::MON_WORK_WIDTH => 12,
            MonitorEnum::MON_WORK_HEIGHT => 13,
            MonitorEnum::MON_DPI => 15,
            MonitorEnum::MON_SCALING => 16,
            MonitorEnum::MON_ALL => 20,
        }
    }

    /// The number of this constant.
    pub fn value(&self) -> (r: i64)
        ensures
            r == self.number(),
    {
        match self {
            MonitorEnum::MON_X => 0,
            MonitorEnum::MON_Y => 1,
            MonitorEnum::MON_WIDTH => 2,
            MonitorEnum::MON_HEIGHT => 3,
            MonitorEnum::MON_PRIMARY => 4,
            MonitorEnum::MON_NAME => 5,
            MonitorEnum::MON_WORK_X => 10,
            MonitorEnum::MON_WORK_Y => 11,
            MonitorEnum::MON_WORK_WIDTH => 12,
            MonitorEnum::MON_WORK_HEIGHT => 13,
            MonitorEnum::MON_DPI => 15,
            MonitorEnum::MON_SCALING => 16,
            MonitorEnum::MON_ALL => 20,
        }
    }
}

impl ConstEnum for MonitorEnum {
    open spec fn of_value(n: int) -> Option<MonitorEnum> {
        if n == 0 {
            Some(MonitorEnum::MON_X)
        } else if n == 1 {
            Some(MonitorEnum::MON_Y)
        } else if n == 2 {
            Some(MonitorEnum::MON_WIDTH)
        } else if n == 3 {
            Some(MonitorEnum::MON_HEIGHT)
        } else if n == 4 {
            Some(MonitorEnum::MON_PRIMARY)
        } else if n == 5 {
            Some(MonitorEnum::MON_NAME)
        } else if n == 10 {
            Some(MonitorEnum::MON_WORK_X)
        } else if n == 11 {
            Some(MonitorEnum::MON_WORK_Y)
        } else if n == 12 {
            Some(MonitorEnum::MON_WORK_WIDTH)
        } else if n == 13 {
            Some(MonitorEnum::MON_WORK_HEIGHT)
        } else if n == 15 {
            Some(MonitorEnum::MON_DPI)
        } else if n == 16 {
            Some(MonitorEnum::MON_SCALING)
        } else if n == 20 {
            Some(MonitorEnum::MON_ALL)
        } else {
            None
        }
    }

    fn from_value(n: i64) -> (r: Option<MonitorEnum>) {
        if n == 0 {
            Some(MonitorEnum::MON_X)
        } else if n == 1 {
            Some(MonitorEnum::MON_Y)
        } else if n == 2 {
            Some(MonitorEnum::MON_WIDTH)
        } else if n == 3 {
            Some(MonitorEnum::MON_HEIGHT)
        } else if n == 4 {
            Some(MonitorEnum::MON_PRIMARY)
        } else if n == 5 {
            Some(MonitorEnum::MON_NAME)
        } else if n == 10 {
            Some(MonitorEnum::MON_WORK_X)
        } else if n == 11 {
            Some(MonitorEnum::MON_WORK_Y)
        } else if n == 12 {
            Some(MonitorEnum::MON_WORK_WIDTH)
        } else if n == 13 {
            Some(MonitorEnum::MON_WORK_HEIGHT)
        } else if n == 15 {
            Some(MonitorEnum::MON_DPI)
        } else if n == 16 {
            Some(MonitorEnum::MON_SCALING)
        } else if n == 20 {
            Some(MonitorEnum::MON_ALL)
        } else {
            None
        }
    }
}

/// The flags of `getitem` (`ITM_*`).
#[allow(non_camel_case_types)]
#[derive(PartialEq, Eq, Clone, Copy, Structural)]
pub enum GetItemConst {
    ITM_BTN,
    ITM_LIST,
    ITM_TAB,
    ITM_MENU,
    ITM_TREEVIEW,
    ITM_LISTVIEW,
    ITM_EDIT,
    ITM_STATIC,
    ITM_STATUSBAR,
    ITM_TOOLBAR,
    ITM_LINK,
    ITM_ACCCLK,
    ITM_ACCCLK2,
    ITM_ACCTXT,
    ITM_ACCEDIT,
    ITM_FROMLAST,
}

impl GetItemConst {
    /// The number of each constant.
    pub open spec fn number(self) -> int {
        match self {
            GetItemConst::ITM_BTN => 1,
            GetItemConst::ITM_LIST => 2,
            GetItemConst::ITM_TAB => 8,
            GetItemConst::ITM_MENU => 4,
            GetItemConst::ITM_TREEVIEW => 16,
            GetItemConst::ITM_LISTVIEW => 32,
            GetItemConst::ITM_EDIT => 131072,
            GetItemConst::ITM_STATIC => 262144,
            GetItemConst::ITM_STATUSBAR => 524288,
            GetItemConst::ITM_TOOLBAR => 64,
            GetItemConst::ITM_LINK => 128,
            GetItemConst::ITM_ACCCLK => 4194304,
            GetItemConst::ITM_ACCCLK2 => 272629760,
            GetItemConst::ITM_ACCTXT => 8388608,
            GetItemConst::ITM_ACCEDIT => 16777216,
            GetItemConst::ITM_FROMLAST => 65536,
        }
    }

    /// The number of this constant.
    pub fn value(&self) -> (r: i64)
        ensures
            r == self.number(),
    {
        match self {
            GetItemConst::ITM_BTN => 1,
            GetItemConst::ITM_LIST => 2,
            GetItemConst::ITM_TAB => 8,
            GetItemConst::ITM_MENU => 4,
            GetItemConst::ITM_TREEVIEW => 16,
            GetItemConst::ITM_LISTVIEW => 32,
            GetItemConst::ITM_EDIT => 131072,
            GetItemConst::ITM_STATIC => 262144,
            GetItemConst::ITM_STATUSBAR => 524288,
            GetItemConst::ITM_TOOLBAR => 64,
            GetItemConst::ITM_LINK => 128,
            GetItemConst::ITM_ACCCLK => 4194304,
            GetItemConst::ITM_ACCCLK2 => 272629760,
            GetItemConst::ITM_ACCTXT => 8388608,
            GetItemConst::ITM_ACCEDIT => 16777216,
            GetItemConst::ITM_FROMLAST => 65536,
        }
    }
}

impl ConstEnum for GetItemConst {
    open spec fn of_value(n: int) -> Option<GetItemConst> {
        if n == 1 {
            Some(GetItemConst::ITM_BTN)
        } else if n == 2 {
            Some(GetItemConst::ITM_LIST)
        } else if n == 8 {
            Some(GetItemConst::ITM_TAB)
        } else if n == 4 {
            Some(GetItemConst::ITM_MENU)
        } else if n == 16 {
            Some(GetItemConst::ITM_TREEVIEW)
        } else if n == 32 {
            Some(GetItemConst::ITM_LISTVIEW)
        } else if n == 131072 {
            Some(GetItemConst::ITM_EDIT)
        } else if n == 262144 {
            Some(GetItemConst::ITM_STATIC)
        } else if n == 524288 {
            Some(GetItemConst::ITM_STATUSBAR)
        } else if n == 64 {
            Some(GetItemConst::ITM_TOOLBAR)
        } else if n == 128 {
            Some(GetItemConst::ITM_LINK)
        } else if n == 4194304 {
            Some(GetItemConst::ITM_ACCCLK)
        } else if n == 272629760 {
            Some(GetItemConst::ITM_ACCCLK2)
        } else if n == 8388608 {
            Some(GetItemConst::ITM_ACCTXT)
        } else if n == 16777216 {
            Some(GetItemConst::ITM_ACCEDIT)
        } else if n == 65536 {
            Some(GetItemConst::ITM_FROMLAST)
        } else {
            None
        }
    }

    fn from_value(n: i64) -> (r: Option<GetItemConst>) {
        if n == 1 {
            Some(GetItemConst::ITM_BTN)
        } else if n == 2 {
            Some(GetItemConst::ITM_LIST)
        } else if n == 8 {
            Some(GetItemConst::ITM_TAB)
        } else if n == 4 {
            Some(GetItemConst::ITM_MENU)
        } else if n == 16 {
            Some(GetItemConst::ITM_TREEVIEW)
        } else if n == 32 {
            Some(GetItemConst::ITM_LISTVIEW)
        } else if n == 131072 {
            Some(GetItemConst::ITM_EDIT)
        } else if n == 262144 {
            Some(GetItemConst::ITM_STATIC)
        } else if n == 524288 {
            Some(GetItemConst::ITM_STATUSBAR)
        } else if n == 64 {
            Some(GetItemConst::ITM_TOOLBAR)
        } else if n == 128 {
            Some(GetItemConst::ITM_LINK)
        } else if n == 4194304 {
            Some(GetItemConst::ITM_ACCCLK)
        } else if n == 272629760 {
            Some(GetItemConst::ITM_ACCCLK2)
        } else if n == 8388608 {
            Some(GetItemConst::ITM_ACCTXT)
        } else if n == 16777216 {
            Some(GetItemConst::ITM_ACCEDIT)
        } else if n == 65536 {
            Some(GetItemConst::ITM_FROMLAST)
        } else {
            None
        }
    }
}

/// The items of `posacc` (`ACC_*`).
#[allow(non_camel_case_types)]
#[derive(PartialEq, Eq, Clone, Copy, Structural)]
pub enum AccConst {
    ACC_ACC,
    ACC_API,
    ACC_NAME,
    ACC_VALUE,
    ACC_ROLE,
    ACC_STATE,
    ACC_DESCRIPTION,
    ACC_LOCATION,
    ACC_BACK,
}

impl AccConst {
    /// The number of each constant.
    pub open spec fn number(self) -> int {
        match self {
            AccConst::ACC_ACC => 1,
            AccConst::ACC_API => 2,
            AccConst::ACC_NAME => 3,
            AccConst::ACC_VALUE => 4,
            AccConst::ACC_ROLE => 5,
            AccConst::ACC_STATE => 6,
            AccConst::ACC_DESCRIPTION => 7,
            AccConst::ACC_LOCATION => 8,
            AccConst::ACC_BACK => 512,
        }
    }

    /// The number of this constant.
    pub fn value(&self) -> (r: i64)
        ensures
            r == self.number(),
    {
        match self {
            AccConst::ACC_ACC => 1,
            AccConst::ACC_API => 2,
            AccConst::ACC_NAME => 3,
            AccConst::ACC_VALUE => 4,
            AccConst::ACC_ROLE => 5,
            AccConst::ACC_STATE => 6,
            AccConst::ACC_DESCRIPTION => 7,
            AccConst::ACC_LOCATION => 8,
            AccConst::ACC_BACK => 512,
        }
    }
}

impl ConstEnum for AccConst {
    open spec fn of_value(n: int) -> Option<AccConst> {
        if n == 1 {
            Some(AccConst::ACC_ACC)
        } else if n == 2 {
            Some(AccConst::ACC_API)
        } else if n == 3 {
            Some(AccConst::ACC_NAME)
        } else if n == 4 {
            Some(AccConst::ACC_VALUE)
        } else if n == 5 {
            Some(AccConst::ACC_ROLE)
        } else if n == 6 {
            Some(AccConst::ACC_STATE)
        } else if n == 7 {
            Some(AccConst::ACC_DESCRIPTION)
        } else if n == 8 {
            Some(AccConst::ACC_LOCATION)
        } else if n == 512 {
            Some(AccConst::ACC_BACK)
        } else {
            None
        }
    }

    fn from_value(n: i64) -> (r: Option<AccConst>) {
        if n == 1 {
            Some(AccConst::ACC_ACC)
        } else if n == 2 {
            Some(AccConst::ACC_API)
        } else if n == 3 {
            Some(AccConst::ACC_NAME)
        } else if n == 4 {
            Some(AccConst::ACC_VALUE)
        } else if n == 5 {
            Some(AccConst::ACC_ROLE)
        } else if n == 6 {
            Some(AccConst::ACC_STATE)
        } else if n == 7 {
            Some(AccConst::ACC_DESCRIPTION)
        } else if n == 8 {
            Some(AccConst::ACC_LOCATION)
        } else if n == 512 {
            Some(AccConst::ACC_BACK)
        } else {
            None
        }
    }
}

/// The cursor shapes that `muscur` reports (`CUR_*`).
#[allow(non_camel_case_types)]
#[derive(PartialEq, Eq, Clone, Copy, Structural)]
pub enum CurConst {
    CUR_APPSTARTING,
    CUR_ARROW,
    CUR_CROSS,
    CUR_HAND,
    CUR_HELP,
    CUR_IBEAM,
    CUR_NO,
    CUR_SIZEALL,
    CUR_SIZENESW,
    CUR_SIZENS,
    CUR_SIZENWSE,
    CUR_SIZEWE,
    CUR_UPARROW,
    CUR_WAIT,
}

impl CurConst {
    /// The number of each constant.
    pub open spec fn number(self) -> int {
        match self {
            CurConst::CUR_APPSTARTING => 1,
            CurConst::CUR_ARROW => 2,
            CurConst::CUR_CROSS => 3,
            CurConst::CUR_HAND => 4,
            CurConst::CUR_HELP => 5,
            CurConst::CUR_IBEAM => 6,
            CurConst::CUR_NO => 8,
            CurConst::CUR_SIZEALL => 10,
            CurConst::CUR_SIZENESW => 11,
            CurConst::CUR_SIZENS => 12,
            CurConst::CUR_SIZENWSE => 13,
            CurConst::CUR_SIZEWE => 14,
            CurConst::CUR_UPARROW => 15,
            CurConst::CUR_WAIT => 16,
        }
    }

    /// The number of this constant.
    pub fn value(&self) -> (r: i64)
        ensures
            r == self.number(),
    {
        match self {
            CurConst::CUR_APPSTARTING => 1,
            CurConst::CUR_ARROW => 2,
            CurConst::CUR_CROSS => 3,
            CurConst::CUR_HAND => 4,
            CurConst::CUR_HELP => 5,
            CurConst::CUR_IBEAM => 6,
            CurConst::CUR_NO => 8,
            CurConst::CUR_SIZEALL => 10,
            CurConst::CUR_SIZENESW => 11,
            CurConst::CUR_SIZENS => 12,
            CurConst::CUR_SIZENWSE => 13,
            CurConst::CUR_SIZEWE => 14,
            CurConst::CUR_UPARROW => 15,
            CurConst::CUR_WAIT => 16,
        }
    }
}

impl ConstEnum for CurConst {
    open spec fn of_value(n: int) -> Option<CurConst> {
        if n == 1 {
            Some(CurConst::CUR_APPSTARTING)
        } else if n == 2 {
            Some(CurConst::CUR_ARROW)
        } else if n == 3 {
            Some(CurConst::CUR_CROSS)
        } else if n == 4 {
            Some(CurConst::CUR_HAND)
        } else if n == 5 {
            Some(CurConst::CUR_HELP)
        } else if n == 6 {
            Some(CurConst::CUR_IBEAM)
        } else if n == 8 {
            Some(CurConst::CUR_NO)
        } else if n == 10 {
            Some(CurConst::CUR_SIZEALL)
        } else if n == 11 {
            Some(CurConst::CUR_SIZENESW)
        } else if n == 12 {
            Some(CurConst::CUR_SIZENS)
        } else if n == 13 {
            Some(CurConst::CUR_SIZENWSE)
        } else if n == 14 {
            Some(CurConst::CUR_SIZEWE)
        } else if n == 15 {
            Some(CurConst::CUR_UPARROW)
        } else if n == 16 {
            Some(CurConst::CUR_WAIT)
        } else {
            None
        }
    }

    fn from_value(n: i64) -> (r: Option<CurConst>) {
        if n == 1 {
            Some(CurConst::CUR_APPSTARTING)
        } else if n == 2 {
            Some(CurConst::CUR_ARROW)
        } else if n == 3 {
            Some(CurConst::CUR_CROSS)
        } else if n == 4 {
            Some(CurConst::CUR_HAND)
        } else if n == 5 {
            Some(CurConst::CUR_HELP)
        } else if n == 6 {
            Some(CurConst::CUR_IBEAM)
        } else if n == 8 {
            Some(CurConst::CUR_NO)
        } else if n == 10 {
            Some(CurConst::CUR_SIZEALL)
        } else if n == 11 {
            Some(CurConst::CUR_SIZENESW)
        } else if n == 12 {
            Some(CurConst::CUR_SIZENS)
        } else if n == 13 {
            Some(CurConst::CUR_SIZENWSE)
        } else if n == 14 {
            Some(CurConst::CUR_SIZEWE)
        } else if n == 15 {
            Some(CurConst::CUR_UPARROW)
        } else if n == 16 {
            Some(CurConst::CUR_WAIT)
        } else {
            None
        }
    }
}

/// The colour components of `peekcolor` (`COL_*`).
#[allow(non_camel_case_types)]
#[derive(PartialEq, Eq, Clone, Copy, Structural)]
pub enum ColConst {
    COL_BGR,
    COL_RGB,
    COL_R,
    COL_G,
    COL_B,
}

impl ColConst {
    /// The number of each constant.
    pub open spec fn number(self) -> int {
        match self {
            ColConst::COL_BGR => 0,
            ColConst::COL_RGB => 3,
            ColConst::COL_R => 4,
            ColConst::COL_G => 5,
            ColConst::COL_B => 6,
        }
    }

    /// The number of this constant.
    pub fn value(&self) -> (r: i64)
        ensures
            r == self.number(),
    {
        match self {
            ColConst::COL_BGR => 0,
            ColConst::COL_RGB => 3,
            ColConst::COL_R => 4,
            ColConst::COL_G => 5,
            ColConst::COL_B => 6,
        }
    }
}

impl ConstEnum for ColConst {
    open spec fn of_value(n: int) -> Option<ColConst> {
        if n == 0 {
            Some(ColConst::COL_BGR)
        } else if n == 3 {
            Some(ColConst::COL_RGB)
        } else if n == 4 {
            Some(ColConst::COL_R)
        } else if n == 5 {
            Some(ColConst::COL_G)
        } else if n == 6 {
            Some(ColConst::COL_B)
        } else {
            None
        }
    }

    fn from_value(n: i64) -> (r: Option<ColConst>) {
        if n == 0 {
            Some(ColConst::COL_BGR)
        } else if n == 3 {
            Some(ColConst::COL_RGB)
        } else if n == 4 {
            Some(ColConst::COL_R)
        } else if n == 5 {
            Some(ColConst::COL_G)
        } else if n == 6 {
            Some(ColConst::COL_B)
        } else {
            None
        }
    }
}

/// The items of `getslider` (`SLD_*`).
#[allow(non_camel_case_types)]
#[derive(PartialEq, Eq, Clone, Copy, Structural)]
pub enum SldConst {
    SLD_POS,
    SLD_MIN,
    SLD_MAX,
    SLD_PAGE,
    SLD_BAR,
    SLD_X,
    SLD_Y,
}

impl SldConst {
    /// The number of each constant.
    pub open spec fn number(self) -> int {
        match self {
            SldConst::SLD_POS => 0,
            SldConst::SLD_MIN => 1,
            SldConst::SLD_MAX => 2,
            SldConst::SLD_PAGE => 3,
            SldConst::SLD_BAR => 4,
            SldConst::SLD_X => 5,
            SldConst::SLD_Y => 6,
        }
    }

    /// The number of this constant.
    pub fn value(&self) -> (r: i64)
        ensures
            r == self.number(),
    {
        match self {
            SldConst::SLD_POS => 0,
            SldConst::SLD_MIN => 1,
            SldConst::SLD_MAX => 2,
            SldConst::SLD_PAGE => 3,
            SldConst::SLD_BAR => 4,
            SldConst::SLD_X => 5,
            SldConst::SLD_Y => 6,
        }
    }
}

impl ConstEnum for SldConst {
    open spec fn of_value(n: int) -> Option<SldConst> {
        if n == 0 {
            Some(SldConst::SLD_POS)
        } else if n == 1 {
            Some(SldConst::SLD_MIN)
        } else if n == 2 {
            Some(SldConst::SLD_MAX)
        } else if n == 3 {
            Some(SldConst::SLD_PAGE)
        } else if n == 4 {
            Some(SldConst::SLD_BAR)
        } else if n == 5 {
            Some(SldConst::SLD_X)
        } else if n == 6 {
            Some(SldConst::SLD_Y)
        } else {
            None
        }
    }

    fn from_value(n: i64) -> (r: Option<SldConst>) {
        if n == 0 {
            Some(SldConst::SLD_POS)
        } else if n == 1 {
            Some(SldConst::SLD_MIN)
        } else if n == 2 {
            Some(SldConst::SLD_MAX)
        } else if n == 3 {
            Some(SldConst::SLD_PAGE)
        } else if n == 4 {
            Some(SldConst::SLD_BAR)
        } else if n == 5 {
            Some(SldConst::SLD_X)
        } else if n == 6 {
            Some(SldConst::SLD_Y)
        } else {
            None
        }
    }
}

impl Default for SldConst {
    fn default() -> (r: SldConst)
        ensures
            r == SldConst::SLD_POS,
    {
        SldConst::SLD_POS
    }
}

/// The kinds of control of `getstr` (`STR_*`).
#[allow(non_camel_case_types)]
#[derive(PartialEq, Eq, Clone, Copy, Structural)]
pub enum GetStrConst {
    STR_EDIT,
    STR_STATIC,
    STR_STATUS,
    STR_ACC_EDIT,
    STR_ACC_STATIC,
    STR_ACC_CELL,
    STR_UIA,
}

impl GetStrConst {
    /// The number of each constant.
    pub open spec fn number(self) -> int {
        match self {
            GetStrConst::STR_EDIT => 0,
            GetStrConst::STR_STATIC => 1,
            GetStrConst::STR_STATUS => 2,
            GetStrConst::STR_ACC_EDIT => 3,
            GetStrConst::STR_ACC_STATIC => 4,
            GetStrConst::STR_ACC_CELL => 5,
            GetStrConst::STR_UIA => 6,
        }
    }

    /// The number of this constant.
    pub fn value(&self) -> (r: i64)
        ensures
            r == self.number(),
    {
        match self {
            GetStrConst::STR_EDIT => 0,
            GetStrConst::STR_STATIC => 1,
            GetStrConst::STR_STATUS => 2,
            GetStrConst::STR_ACC_EDIT => 3,
            GetStrConst::STR_ACC_STATIC => 4,
            GetStrConst::STR_ACC_CELL => 5,
            GetStrConst::STR_UIA => 6,
        }
    }
}

impl ConstEnum for GetStrConst {
    open spec fn of_value(n: int) -> Option<GetStrConst> {
        if n == 0 {
            Some(GetStrConst::STR_EDIT)
        } else if n == 1 {
            Some(GetStrConst::STR_STATIC)
        } else if n == 2 {
            Some(GetStrConst::STR_STATUS)
        } else if n == 3 {
            Some(GetStrConst::STR_ACC_EDIT)
        } else if n == 4 {
            Some(GetStrConst::STR_ACC_STATIC)
        } else if n == 5 {
            Some(GetStrConst::STR_ACC_CELL)
        } else if n == 6 {
            Some(GetStrConst::STR_UIA)
        } else {
            None
        }
    }

    fn from_value(n: i64) -> (r: Option<GetStrConst>) {
        if n == 0 {
            Some(GetStrConst::STR_EDIT)
        } else if n == 1 {
            Some(GetStrConst::STR_STATIC)
        } else if n == 2 {
            Some(GetStrConst::STR_STATUS)
        } else if n == 3 {
            Some(GetStrConst::STR_ACC_EDIT)
        } else if n == 4 {
            Some(GetStrConst::STR_ACC_STATIC)
        } else if n == 5 {
            Some(GetStrConst::STR_ACC_CELL)
        } else if n == 6 {
            Some(GetStrConst::STR_UIA)
        } else {
            None
        }
    }
}

/// The image formats of `saveimg` (`IMG_*`).
#[allow(non_camel_case_types)]
#[derive(PartialEq, Eq, Clone, Copy, Structural)]
pub enum ImgConst {
    IMG_AUTO,
    IMG_FORE,
    IMG_BACK,
}

impl ImgConst {
    /// The number of each constant.
    pub open spec fn number(self) -> int {
        match self {
            ImgConst::IMG_AUTO => 0,
            ImgConst::IMG_FORE => 1,
            ImgConst::IMG_BACK => 2,
        }
    }

    /// The number of this constant.
    pub fn value(&self) -> (r: i64)
        ensures
            r == self.number(),
    {
        match self {
            ImgConst::IMG_AUTO => 0,
            ImgConst::IMG_FORE => 1,
            ImgConst::IMG_BACK => 2,
        }
    }
}

impl ConstEnum for ImgConst {
    open spec fn of_value(n: int) -> Option<ImgConst> {
        if n == 0 {
            Some(ImgConst::IMG_AUTO)
        } else if n == 1 {
            Some(ImgConst::IMG_FORE)
        } else if n == 2 {
            Some(ImgConst::IMG_BACK)
        } else {
            None
        }
    }

    fn from_value(n: i64) -> (r: Option<ImgConst>) {
        if n == 0 {
            Some(ImgConst::IMG_AUTO)
        } else if n == 1 {
            Some(ImgConst::IMG_FORE)
        } else if n == 2 {
            Some(ImgConst::IMG_BACK)
        } else {
            None
        }
    }
}

/// The origins of `mouseorg` (`MORG_*`).
#[allow(non_camel_case_types)]
#[derive(PartialEq, Eq, Clone, Copy, Structural)]
pub enum MorgTargetConst {
    MORG_WINDOW,
    MORG_CLIENT,
    MORG_DIRECT,
}

impl MorgTargetConst {
    /// The number of each constant.
    pub open spec fn number(self) -> int {
        match self {
            MorgTargetConst::MORG_WINDOW => 0,
            MorgTargetConst::MORG_CLIENT => 1,
            MorgTargetConst::MORG_DIRECT => 2,
        }
    }

    /// The number of this constant.
    pub fn value(&self) -> (r: i64)
        ensures
            r == self.number(),
    {
        match self {
            MorgTargetConst::MORG_WINDOW => 0,
            MorgTargetConst::MORG_CLIENT => 1,
            MorgTargetConst::MORG_DIRECT => 2,
        }
    }
}

impl ConstEnum for MorgTargetConst {
    open spec fn of_value(n: int) -> Option<MorgTargetConst> {
        if n == 0 {
            Some(MorgTargetConst::MORG_WINDOW)
        } else if n == 1 {
            Some(MorgTargetConst::MORG_CLIENT)
        } else if n == 2 {
            Some(MorgTargetConst::MORG_DIRECT)
        } else {
            None
        }
    }

    fn from_value(n: i64) -> (r: Option<MorgTargetConst>) {
        if n == 0 {
            Some(MorgTargetConst::MORG_WINDOW)
        } else if n == 1 {
            Some(MorgTargetConst::MORG_CLIENT)
        } else if n == 2 {
            Some(MorgTargetConst::MORG_DIRECT)
        } else {
            None
        }
    }
}

impl Default for MorgTargetConst {
    fn default() -> (r: MorgTargetConst)
        ensures
            r == MorgTargetConst::MORG_WINDOW,
    {
        MorgTargetConst::MORG_WINDOW
    }
}

/// The input contexts of `mouseorg` (`MORG_FORE`, `MORG_BACK`).
#[allow(non_camel_case_types)]
#[derive(PartialEq, Eq, Clone, Copy, Structural)]
pub enum MorgContextConst {
    MORG_FORE,
    MORG_BACK,
}

impl MorgContextConst {
    /// The number of each constant.
    pub open spec fn number(self) -> int {
        match self {
            MorgContextConst::MORG_FORE => 1,
            MorgContextConst::MORG_BACK => 2,
        }
    }

    /// The number of this constant.
    pub fn value(&self) -> (r: i64)
        ensures
            r == self.number(),
    {
        match self {
            MorgContextConst::MORG_FORE => 1,
            MorgContextConst::MORG_BACK => 2,
        }
    }
}

impl ConstEnum for MorgContextConst {
    open spec fn of_value(n: int) -> Option<MorgContextConst> {
        if n == 1 {
            Some(MorgContextConst::MORG_FORE)
        } else if n == 2 {
            Some(MorgContextConst::MORG_BACK)
        } else {
            None
        }
    }

    fn from_value(n: i64) -> (r: Option<MorgContextConst>) {
        if n == 1 {
            Some(MorgContextConst::MORG_FORE)
        } else if n == 2 {
            Some(MorgContextConst::MORG_BACK)
        } else {
            None
        }
    }
}

impl Default for MorgContextConst {
    fn default() -> (r: MorgContextConst)
        ensures
            r == MorgContextConst::MORG_FORE,
    {
        MorgContextConst::MORG_FORE
    }
}

} // verus!
