//! The constants that scripts see as strings: type names, special window names, and
//! the window classes of the library's own dialogs.

use vstd::prelude::*;
use crate::args::{Object, ObjectModel, OtherKind, Value, ValueModel};
use crate::builtin_args::{outcome, with_default, BuiltInResult, BuiltinFuncArgs};
use crate::error::ErrorModel;

verus! {

/// The type names that `type_of` gives.
#[allow(non_camel_case_types)]
#[derive(PartialEq, Eq, Clone, Copy, Structural)]
pub enum VariableType {
    TYPE_NUMBER,
    TYPE_STRING,
    TYPE_BOOL,
    TYPE_ARRAY,
    TYPE_HASHTBL,
    TYPE_ANONYMOUS_FUNCTION,
    TYPE_FUNCTION,
    TYPE_BUILTIN_FUNCTION,
    TYPE_ASYNC_FUNCTION,
    TYPE_MODULE,
    TYPE_CLASS,
    TYPE_CLASS_INSTANCE,
    TYPE_NULL,
    TYPE_EMPTY,
    TYPE_NOTHING,
    TYPE_HWND,
    TYPE_REGEX,
    TYPE_UOBJECT,
    TYPE_VERSION,
    TYPE_THIS,
    TYPE_GLOBAL,
    TYPE_ENUM,
    TYPE_TASK,
    TYPE_DLL_FUNCTION,
    TYPE_STRUCT,
    TYPE_STRUCT_INSTANCE,
    TYPE_COM_OBJECT,
    TYPE_VARIANT,
    TYPE_SAFEARRAY,
    TYPE_BROWSERBUILDER_OBJECT,
    TYPE_BROWSER_OBJECT,
    TYPE_TABWINDOW_OBJECT,
    TYPE_REMOTE_OBJECT,
    TYPE_BROWSER_FUNCTION,
    TYPE_FILE_ID,
    TYPE_BYTE_ARRAY,
    TYPE_REFERENCE,
    TYPE_WEB_REQUEST,
    TYPE_WEB_RESPONSE,
    TYPE_WEB_FUNCTION,
    TYPE_HTML_NODE,
    TYPE_NOT_VALUE_TYPE,
}

/// The name of a type, as `type_of` gives it.
pub open spec fn variable_type_text(v: VariableType) -> Seq<char> {
    match v {
        VariableType::TYPE_NUMBER => "TYPE_NUMBER"@,
        VariableType::TYPE_STRING => "TYPE_STRING"@,
        VariableType::TYPE_BOOL => "TYPE_BOOL"@,
        VariableType::TYPE_ARRAY => "TYPE_ARRAY"@,
        VariableType::TYPE_HASHTBL => "TYPE_HASHTBL"@,
        VariableType::TYPE_ANONYMOUS_FUNCTION => "TYPE_ANONYMOUS_FUNCTION"@,
        VariableType::TYPE_FUNCTION => "TYPE_FUNCTION"@,
        VariableType::TYPE_BUILTIN_FUNCTION => "TYPE_BUILTIN_FUNCTION"@,
        VariableType::TYPE_ASYNC_FUNCTION => "TYPE_ASYNC_FUNCTION"@,
        VariableType::TYPE_MODULE => "TYPE_MODULE"@,
        VariableType::TYPE_CLASS => "TYPE_CLASS"@,
        VariableType::TYPE_CLASS_INSTANCE => "TYPE_CLASS_INSTANCE"@,
        VariableType::TYPE_NULL => "TYPE_NULL"@,
        VariableType::TYPE_EMPTY => "TYPE_EMPTY"@,
        VariableType::TYPE_NOTHING => "TYPE_NOTHING"@,
        VariableType::TYPE_HWND => "TYPE_HWND"@,
        VariableType::TYPE_REGEX => "TYPE_REGEX"@,
        VariableType::TYPE_UOBJECT => "TYPE_UOBJECT"@,
        VariableType::TYPE_VERSION => "TYPE_VERSION"@,
        VariableType::TYPE_THIS => "TYPE_THIS"@,
        VariableType::TYPE_GLOBAL => "TYPE_GLOBAL"@,
        VariableType::TYPE_ENUM => "TYPE_ENUM"@,
        VariableType::TYPE_TASK => "TYPE_TASK"@,
        VariableType::TYPE_DLL_FUNCTION => "TYPE_DLL_FUNCTION"@,
        VariableType::TYPE_STRUCT => "TYPE_STRUCT"@,
        VariableType::TYPE_STRUCT_INSTANCE => "TYPE_STRUCT_INSTANCE"@,
        VariableType::TYPE_COM_OBJECT => "TYPE_COM_OBJECT"@,
        VariableType::TYPE_VARIANT => "TYPE_VARIANT"@,
        VariableType::TYPE_SAFEARRAY => "TYPE_SAFEARRAY"@,
        VariableType::TYPE_BROWSERBUILDER_OBJECT => "TYPE_BROWSERBUILDER_OBJECT"@,
        VariableType::TYPE_BROWSER_OBJECT => "TYPE_BROWSER_OBJECT"@,
        VariableType::TYPE_TABWINDOW_OBJECT => "TYPE_TABWINDOW_OBJECT"@,
        VariableType::TYPE_REMOTE_OBJECT => "TYPE_REMOTE_OBJECT"@,
        VariableType::TYPE_BROWSER_FUNCTION => "TYPE_BROWSER_FUNCTION"@,
        VariableType::TYPE_FILE_ID => "TYPE_FILE_ID"@,
        VariableType::TYPE_BYTE_ARRAY => "TYPE_BYTE_ARRAY"@,
        VariableType::TYPE_REFERENCE => "TYPE_REFERENCE"@,
        VariableType::TYPE_WEB_REQUEST => "TYPE_WEB_REQUEST"@,
        VariableType::TYPE_WEB_RESPONSE => "TYPE_WEB_RESPONSE"@,
        VariableType::TYPE_WEB_FUNCTION => "TYPE_WEB_FUNCTION"@,
        VariableType::TYPE_HTML_NODE => "TYPE_HTML_NODE"@,
        VariableType::TYPE_NOT_VALUE_TYPE => "TYPE_NOT_VALUE_TYPE"@,
    }
}

impl VariableType {
    /// The name of a type, as `type_of` gives it.
    pub fn text(&self) -> (r: String)
        ensures
            r@ == variable_type_text(*self),
    {
        match self {
            VariableType::TYPE_NUMBER => String::from_str("TYPE_NUMBER"),
            VariableType::TYPE_STRING => String::from_str("TYPE_STRING"),
            VariableType::TYPE_BOOL => String::from_str("TYPE_BOOL"),
            VariableType::TYPE_ARRAY => String::from_str("TYPE_ARRAY"),
            VariableType::TYPE_HASHTBL => String::from_str("TYPE_HASHTBL"),
            VariableType::TYPE_ANONYMOUS_FUNCTION => String::from_str("TYPE_ANONYMOUS_FUNCTION"),
            VariableType::TYPE_FUNCTION => String::from_str("TYPE_FUNCTION"),
            VariableType::TYPE_BUILTIN_FUNCTION => String::from_str("TYPE_BUILTIN_FUNCTION"),
            VariableType::TYPE_ASYNC_FUNCTION => String::from_str("TYPE_ASYNC_FUNCTION"),
            VariableType::TYPE_MODULE => String::from_str("TYPE_MODULE"),
            VariableType::TYPE_CLASS => String::from_str("TYPE_CLASS"),
            VariableType::TYPE_CLASS_INSTANCE => String::from_str("TYPE_CLASS_INSTANCE"),
            VariableType::TYPE_NULL => String::from_str("TYPE_NULL"),
            VariableType::TYPE_EMPTY => String::from_str("TYPE_EMPTY"),
            VariableType::TYPE_NOTHING => String::from_str("TYPE_NOTHING"),
            VariableType::TYPE_HWND => String::from_str("TYPE_HWND"),
            VariableType::TYPE_REGEX => String::from_str("TYPE_REGEX"),
            VariableType::TYPE_UOBJECT => String::from_str("TYPE_UOBJECT"),
            VariableType::TYPE_VERSION => String::from_str("TYPE_VERSION"),
            VariableType::TYPE_THIS => String::from_str("TYPE_THIS"),
            VariableType::TYPE_GLOBAL => String::from_str("TYPE_GLOBAL"),
            VariableType::TYPE_ENUM => String::from_str("TYPE_ENUM"),
            VariableType::TYPE_TASK => String::from_str("TYPE_TASK"),
            VariableType::TYPE_DLL_FUNCTION => String::from_str("TYPE_DLL_FUNCTION"),
            VariableType::TYPE_STRUCT => String::from_str("TYPE_STRUCT"),
            VariableType::TYPE_STRUCT_INSTANCE => String::from_str("TYPE_STRUCT_INSTANCE"),
            VariableType::TYPE_COM_OBJECT => String::from_str("TYPE_COM_OBJECT"),
            VariableType::TYPE_VARIANT => String::from_str("TYPE_VARIANT"),
            VariableType::TYPE_SAFEARRAY => String::from_str("TYPE_SAFEARRAY"),
            VariableType::TYPE_BROWSERBUILDER_OBJECT => String::from_str("TYPE_BROWSERBUILDER_OBJECT"),
            VariableType::TYPE_BROWSER_OBJECT => String::from_str("TYPE_BROWSER_OBJECT"),
            VariableType::TYPE_TABWINDOW_OBJECT => String::from_str("TYPE_TABWINDOW_OBJECT"),
            VariableType::TYPE_REMOTE_OBJECT => String::from_str("TYPE_REMOTE_OBJECT"),
            VariableType::TYPE_BROWSER_FUNCTION => String::from_str("TYPE_BROWSER_FUNCTION"),
            VariableType::TYPE_FILE_ID => String::from_str("TYPE_FILE_ID"),
            VariableType::TYPE_BYTE_ARRAY => String::from_str("TYPE_BYTE_ARRAY"),
            VariableType::TYPE_REFERENCE => String::from_str("TYPE_REFERENCE"),
            VariableType::TYPE_WEB_REQUEST => String::from_str("TYPE_WEB_REQUEST"),
            VariableType::TYPE_WEB_RESPONSE => String::from_str("TYPE_WEB_RESPONSE"),
            VariableType::TYPE_WEB_FUNCTION => String::from_str("TYPE_WEB_FUNCTION"),
            VariableType::TYPE_HTML_NODE => String::from_str("TYPE_HTML_NODE"),
            VariableType::TYPE_NOT_VALUE_TYPE => String::from_str("TYPE_NOT_VALUE_TYPE"),
        }
    }
}

/// The special window names that `getid` takes, `__NAME__`.
#[allow(non_camel_case_types)]
#[derive(PartialEq, Eq, Clone, Copy, Structural)]
pub enum SpecialWindowId {
    GET_ACTIVE_WIN,
    GET_FROMPOINT_WIN,
    GET_FROMPOINT_OBJ,
    GET_THISUWSC_WIN,
    GET_LOGPRINT_WIN,
    GET_BALLOON_WIN,
    GET_FUKIDASI_WIN,
    GET_FORM_WIN,
    GET_FORM_WIN2,
    GET_SCHEDULE_WIN,
    GET_STOPFORM_WIN,
    GET_CONSOLE_WIN,
}

/// The string a script writes for this window.
pub open spec fn special_window_id_text(v: SpecialWindowId) -> Seq<char> {
    match v {
        SpecialWindowId::GET_ACTIVE_WIN => "__GET_ACTIVE_WIN__"@,
        SpecialWindowId::GET_FROMPOINT_WIN => "__GET_FROMPOINT_WIN__"@,
        SpecialWindowId::GET_FROMPOINT_OBJ => "__GET_FROMPOINT_OBJ__"@,
        SpecialWindowId::GET_THISUWSC_WIN => "__GET_THISUWSC_WIN__"@,
        SpecialWindowId::GET_LOGPRINT_WIN => "__GET_LOGPRINT_WIN__"@,
        SpecialWindowId::GET_BALLOON_WIN => "__GET_BALLOON_WIN__"@,
        SpecialWindowId::GET_FUKIDASI_WIN => "__GET_FUKIDASI_WIN__"@,
        SpecialWindowId::GET_FORM_WIN => "__GET_FORM_WIN__"@,
        SpecialWindowId::GET_FORM_WIN2 => "__GET_FORM_WIN2__"@,
        SpecialWindowId::GET_SCHEDULE_WIN => "__GET_SCHEDULE_WIN__"@,
        SpecialWindowId::GET_STOPFORM_WIN => "__GET_STOPFORM_WIN__"@,
        SpecialWindowId::GET_CONSOLE_WIN => "__GET_CONSOLE_WIN__"@,
    }
}

impl SpecialWindowId {
    /// The string a script writes for this window.
    pub fn text(&self) -> (r: String)
        ensures
            r@ == special_window_id_text(*self),
    {
        match self {
            SpecialWindowId::GET_ACTIVE_WIN => String::from_str("__GET_ACTIVE_WIN__"),
            SpecialWindowId::GET_FROMPOINT_WIN => String::from_str("__GET_FROMPOINT_WIN__"),
            SpecialWindowId::GET_FROMPOINT_OBJ => String::from_str("__GET_FROMPOINT_OBJ__"),
            SpecialWindowId::GET_THISUWSC_WIN => String::from_str("__GET_THISUWSC_WIN__"),
            SpecialWindowId::GET_LOGPRINT_WIN => String::from_str("__GET_LOGPRINT_WIN__"),
            SpecialWindowId::GET_BALLOON_WIN => String::from_str("__GET_BALLOON_WIN__"),
            SpecialWindowId::GET_FUKIDASI_WIN => String::from_str("__GET_FUKIDASI_WIN__"),
            SpecialWindowId::GET_FORM_WIN => String::from_str("__GET_FORM_WIN__"),
            SpecialWindowId::GET_FORM_WIN2 => String::from_str("__GET_FORM_WIN2__"),
            SpecialWindowId::GET_SCHEDULE_WIN => String::from_str("__GET_SCHEDULE_WIN__"),
            SpecialWindowId::GET_STOPFORM_WIN => String::from_str("__GET_STOPFORM_WIN__"),
            SpecialWindowId::GET_CONSOLE_WIN => String::from_str("__GET_CONSOLE_WIN__"),
        }
    }
}

/// The special names of `getctlhnd`, `__NAME__`.
#[allow(non_camel_case_types)]
#[derive(PartialEq, Eq, Clone, Copy, Structural)]
pub enum GetHndConst {
    GET_MENU_HND,
    GET_SYSMENU_HND,
}

/// The string a script writes for this handle.
pub open spec fn get_hnd_const_text(v: GetHndConst) -> Seq<char> {
    match v {
        GetHndConst::GET_MENU_HND => "__GET_MENU_HND__"@,
        GetHndConst::GET_SYSMENU_HND => "__GET_SYSMENU_HND__"@,
    }
}

impl GetHndConst {
    /// The string a script writes for this handle.
    pub fn text(&self) -> (r: String)
        ensures
            r@ == get_hnd_const_text(*self),
    {
        match self {
            GetHndConst::GET_MENU_HND => String::from_str("__GET_MENU_HND__"),
            GetHndConst::GET_SYSMENU_HND => String::from_str("__GET_SYSMENU_HND__"),
        }
    }
}

/// The window classes of the library's own dialogs.
#[allow(non_camel_case_types)]
#[derive(PartialEq, Eq, Clone, Copy, Structural)]
pub enum WindowClassName {
    CLASS_MSGBOX,
    CLASS_INPUTBOX,
    CLASS_SLCTBOX,
    CLASS_POPUPMENU,
    CLASS_BALLOON,
    CLASS_LOGPRINTWIN,
    CLASS_FORM,
}

/// The window class name.
pub open spec fn window_class_name_text(v: WindowClassName) -> Seq<char> {
    match v {
        WindowClassName::CLASS_MSGBOX => "UWSCR.MsgBox"@,
        WindowClassName::CLASS_INPUTBOX => "UWSCR.Input"@,
        WindowClassName::CLASS_SLCTBOX => "UWSCR.Slctbox"@,
        WindowClassName::CLASS_POPUPMENU => "UWSCR.Popup"@,
        WindowClassName::CLASS_BALLOON => "UWSCR.Balloon"@,
        WindowClassName::CLASS_LOGPRINTWIN => "UWSCR.LogPrintWin"@,
        WindowClassName::CLASS_FORM => "UWSCR.Form"@,
    }
}

impl WindowClassName {
    /// The window class name.
    pub fn text(&self) -> (r: String)
        ensures
            r@ == window_class_name_text(*self),
    {
        match self {
            WindowClassName::CLASS_MSGBOX => String::from_str("UWSCR.MsgBox"),
            WindowClassName::CLASS_INPUTBOX => String::from_str("UWSCR.Input"),
            WindowClassName::CLASS_SLCTBOX => String::from_str("UWSCR.Slctbox"),
            WindowClassName::CLASS_POPUPMENU => String::from_str("UWSCR.Popup"),
            WindowClassName::CLASS_BALLOON => String::from_str("UWSCR.Balloon"),
            WindowClassName::CLASS_LOGPRINTWIN => String::from_str("UWSCR.LogPrintWin"),
            WindowClassName::CLASS_FORM => String::from_str("UWSCR.Form"),
        }
    }
}

/// The type of another kind of value.
pub open spec fn other_type(k: OtherKind) -> VariableType {
    match k {
        OtherKind::BuiltinFunction => VariableType::TYPE_BUILTIN_FUNCTION,
        OtherKind::AsyncFunction => VariableType::TYPE_ASYNC_FUNCTION,
        OtherKind::Module => VariableType::TYPE_MODULE,
        OtherKind::Class => VariableType::TYPE_CLASS,
        OtherKind::Nothing => VariableType::TYPE_NOTHING,
        OtherKind::Handle => VariableType::TYPE_HWND,
        OtherKind::This => VariableType::TYPE_THIS,
        OtherKind::Global => VariableType::TYPE_GLOBAL,
        OtherKind::Version => VariableType::TYPE_VERSION,
        OtherKind::ExpandableTB => VariableType::TYPE_STRING,
        OtherKind::Enum => VariableType::TYPE_ENUM,
        OtherKind::DefDllFunction => VariableType::TYPE_DLL_FUNCTION,
        OtherKind::Struct => VariableType::TYPE_STRUCT,
        OtherKind::UStruct => VariableType::TYPE_STRUCT_INSTANCE,
        OtherKind::ComMember => VariableType::TYPE_COM_OBJECT,
        OtherKind::ComObject => VariableType::TYPE_COM_OBJECT,
        OtherKind::Variant => VariableType::TYPE_VARIANT,
        OtherKind::SafeArray => VariableType::TYPE_SAFEARRAY,
        OtherKind::BrowserBuilder => VariableType::TYPE_BROWSERBUILDER_OBJECT,
        OtherKind::Browser => VariableType::TYPE_BROWSER_OBJECT,
        OtherKind::BrowserFunction => VariableType::TYPE_BROWSER_FUNCTION,
        OtherKind::Reference => VariableType::TYPE_REFERENCE,
        OtherKind::WebRequest => VariableType::TYPE_WEB_REQUEST,
        OtherKind::WebResponse => VariableType::TYPE_WEB_RESPONSE,
        OtherKind::WebFunction => VariableType::TYPE_WEB_FUNCTION,
        OtherKind::HtmlNode => VariableType::TYPE_HTML_NODE,
        OtherKind::VarArgument => VariableType::TYPE_NOT_VALUE_TYPE,
        OtherKind::DynamicVar => VariableType::TYPE_NOT_VALUE_TYPE,
        OtherKind::Continue => VariableType::TYPE_NOT_VALUE_TYPE,
        OtherKind::Break => VariableType::TYPE_NOT_VALUE_TYPE,
        OtherKind::Exit => VariableType::TYPE_NOT_VALUE_TYPE,
        OtherKind::Instance(dropped) => if dropped { VariableType::TYPE_NOTHING } else { VariableType::TYPE_CLASS_INSTANCE },
    }
}

/// The type of a value, as `type_of` names it.
pub open spec fn type_of_value(v: ValueModel) -> VariableType {
    match v {
        ValueModel::Num(_) => VariableType::TYPE_NUMBER,
        ValueModel::String(_) => VariableType::TYPE_STRING,
        ValueModel::Bool(_) => VariableType::TYPE_BOOL,
        ValueModel::Array(_) => VariableType::TYPE_ARRAY,
        ValueModel::HashTbl(_, _) => VariableType::TYPE_HASHTBL,
        ValueModel::AnonFunc(_) => VariableType::TYPE_ANONYMOUS_FUNCTION,
        ValueModel::Function(_) => VariableType::TYPE_FUNCTION,
        ValueModel::Null => VariableType::TYPE_NULL,
        ValueModel::Empty => VariableType::TYPE_EMPTY,
        ValueModel::RegEx(_) => VariableType::TYPE_REGEX,
        ValueModel::UObject(_) => VariableType::TYPE_UOBJECT,
        ValueModel::Task(_) => VariableType::TYPE_TASK,
        ValueModel::TabWindow(_) => VariableType::TYPE_TABWINDOW_OBJECT,
        ValueModel::RemoteObject(_) => VariableType::TYPE_REMOTE_OBJECT,
        ValueModel::Fopen(_) => VariableType::TYPE_FILE_ID,
        ValueModel::ByteArray(_) => VariableType::TYPE_BYTE_ARRAY,
        ValueModel::EmptyParam => VariableType::TYPE_NOT_VALUE_TYPE,
        ValueModel::Other(k, _) => other_type(k),
    }
}

fn other_type_exec(k: OtherKind) -> (r: VariableType)
    ensures
        r == other_type(k),
{
    match k {
        OtherKind::BuiltinFunction => VariableType::TYPE_BUILTIN_FUNCTION,
        OtherKind::AsyncFunction => VariableType::TYPE_ASYNC_FUNCTION,
        OtherKind::Module => VariableType::TYPE_MODULE,
        OtherKind::Class => VariableType::TYPE_CLASS,
        OtherKind::Nothing => VariableType::TYPE_NOTHING,
        OtherKind::Handle => VariableType::TYPE_HWND,
        OtherKind::This => VariableType::TYPE_THIS,
        OtherKind::Global => VariableType::TYPE_GLOBAL,
        OtherKind::Version => VariableType::TYPE_VERSION,
        OtherKind::ExpandableTB => VariableType::TYPE_STRING,
        OtherKind::Enum => VariableType::TYPE_ENUM,
        OtherKind::DefDllFunction => VariableType::TYPE_DLL_FUNCTION,
        OtherKind::Struct => VariableType::TYPE_STRUCT,
        OtherKind::UStruct => VariableType::TYPE_STRUCT_INSTANCE,
        OtherKind::ComMember => VariableType::TYPE_COM_OBJECT,
        OtherKind::ComObject => VariableType::TYPE_COM_OBJECT,
        OtherKind::Variant => VariableType::TYPE_VARIANT,
        OtherKind::SafeArray => VariableType::TYPE_SAFEARRAY,
        OtherKind::BrowserBuilder => VariableType::TYPE_BROWSERBUILDER_OBJECT,
        OtherKind::Browser => VariableType::TYPE_BROWSER_OBJECT,
        OtherKind::BrowserFunction => VariableType::TYPE_BROWSER_FUNCTION,
        OtherKind::Reference => VariableType::TYPE_REFERENCE,
        OtherKind::WebRequest => VariableType::TYPE_WEB_REQUEST,
        OtherKind::WebResponse => VariableType::TYPE_WEB_RESPONSE,
        OtherKind::WebFunction => VariableType::TYPE_WEB_FUNCTION,
        OtherKind::HtmlNode => VariableType::TYPE_HTML_NODE,
        OtherKind::VarArgument => VariableType::TYPE_NOT_VALUE_TYPE,
        OtherKind::DynamicVar => VariableType::TYPE_NOT_VALUE_TYPE,
        OtherKind::Continue => VariableType::TYPE_NOT_VALUE_TYPE,
        OtherKind::Break => VariableType::TYPE_NOT_VALUE_TYPE,
        OtherKind::Exit => VariableType::TYPE_NOT_VALUE_TYPE,
        OtherKind::Instance(dropped) => if dropped { VariableType::TYPE_NOTHING } else { VariableType::TYPE_CLASS_INSTANCE },
    }
}

/// The type of a value (see `type_of_value`).
pub fn type_of_object(o: &Object) -> (r: VariableType)
    ensures
        r == type_of_value(o.model().value),
{
    match &o.value {
        Value::Num(_) => VariableType::TYPE_NUMBER,
        Value::String(_) => VariableType::TYPE_STRING,
        Value::Bool(_) => VariableType::TYPE_BOOL,
        Value::Array(_) => VariableType::TYPE_ARRAY,
        Value::HashTbl(_, _) => VariableType::TYPE_HASHTBL,
        Value::AnonFunc(_) => VariableType::TYPE_ANONYMOUS_FUNCTION,
        Value::Function(_) => VariableType::TYPE_FUNCTION,
        Value::Null => VariableType::TYPE_NULL,
        Value::Empty => VariableType::TYPE_EMPTY,
        Value::RegEx(_) => VariableType::TYPE_REGEX,
        Value::UObject(_) => VariableType::TYPE_UOBJECT,
        Value::Task(_) => VariableType::TYPE_TASK,
        Value::TabWindow(_) => VariableType::TYPE_TABWINDOW_OBJECT,
        Value::RemoteObject(_) => VariableType::TYPE_REMOTE_OBJECT,
        Value::Fopen(_) => VariableType::TYPE_FILE_ID,
        Value::ByteArray(_) => VariableType::TYPE_BYTE_ARRAY,
        Value::EmptyParam => VariableType::TYPE_NOT_VALUE_TYPE,
        Value::Other(k, _) => other_type_exec(*k),
    }
}

/// The `type_of` builtin: the type name of argument 0.
pub fn type_of(args: &BuiltinFuncArgs) -> (r: BuiltInResult<String>)
    ensures
        outcome(r, |s: String| s@) == (match with_default(args.objects(), 0, None, |o: ObjectModel| Ok::<ObjectModel, ErrorModel>(o)) {
            Err(e) => Err(e),
            Ok(o) => Ok(variable_type_text(type_of_value(o.value))),
        }),
{
    match args.get_as_object(0, None) {
        Ok(o) => Ok(type_of_object(&o).text()),
        Err(e) => Err(e),
    }
}

} // verus!
