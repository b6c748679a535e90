//! The errors that builtin functions report.

use vstd::prelude::*;
use crate::args::{Object, ObjectModel};

verus! {

/// What went wrong, as the builtins word it.
pub enum UErrorMessage {
    /// The argument at this 1-based position is required but missing.
    BuiltinArgRequiredAt(usize),
    /// This argument cannot be used here.
    BuiltinArgInvalid(Object),
    /// This argument does not fit the wanted number type (named by the second field).
    BuiltinArgCastError(Object, String),
    /// A remote object that was expected to be a promise is not one.
    RemoteObjectIsNotPromise,
    /// The regular expression does not compile.
    InvalidRegexPattern(String),
    /// The index is out of the array's bounds.
    IndexOutOfBounds(usize),
    /// The value cannot be given to this function.
    InvalidArgument(Object),
    /// The text is not a number.
    NotANumber(String),
    /// The processor architecture is neither x86 nor x64.
    UnsupportedArchitecture,
    /// A message given by the script.
    Any(String),
    /// This value cannot index (or key) what it is applied to.
    InvalidIndex(Object),
    /// An index with a table option was applied to something that is not a table.
    InvalidKeyOrIndex(Object, Object),
    /// The index (converted to an integer) is past the array's ends.
    IndexOutOfRange(i64),
    /// The value is not a number that fits in a byte.
    NotAnByte(Object),
    /// A call got more arguments (the first) than the function takes (the second).
    TooManyArguments(usize, usize),
    /// The value called is not a function.
    NotAFunction(Object),
    /// Only the first dimension of an array may leave its size out.
    ArraySizeOmitted,
    /// The dimensions of an array give it no element.
    InvalidArraySize,
    /// The value (when named) cannot be indexed.
    NotAnArray(Option<Object>),
}

/// The kind of an error, which decides its title.
pub enum UErrorKind {
    /// An error raised inside the named builtin function.
    BuiltinFunctionError(String),
    /// An error raised by the script without a title.
    UserDefinedError,
    /// A failed equality assertion.
    AssertEqError,
    /// An error raised by the script with the given title.
    Any(String),
    /// An error of the interpreter while evaluating an expression.
    EvaluatorError,
    /// An error of an assignment.
    AssignError,
    /// An error on a JSON object.
    UObjectError,
    /// An error in an array definition.
    ArrayError,
    /// An error on a structure.
    UStructError,
}

/// A script error: its kind and its message.
pub struct UError {
    pub kind: UErrorKind,
    pub message: UErrorMessage,
}

/// The error of a builtin function: a finished script error, or a message whose kind is
/// decided later (by default "error in builtin function NAME").
pub enum BuiltinFuncError {
    UError(UError),
    Error(UErrorMessage),
    Kind(UErrorKind, UErrorMessage),
}

/// A message as plain values.
pub enum MessageModel {
    BuiltinArgRequiredAt(usize),
    BuiltinArgInvalid(ObjectModel),
    BuiltinArgCastError(ObjectModel, Seq<char>),
    RemoteObjectIsNotPromise,
    InvalidRegexPattern(Seq<char>),
    IndexOutOfBounds(usize),
    InvalidArgument(ObjectModel),
    NotANumber(Seq<char>),
    UnsupportedArchitecture,
    Any(Seq<char>),
    InvalidIndex(ObjectModel),
    InvalidKeyOrIndex(ObjectModel, ObjectModel),
    IndexOutOfRange(i64),
    NotAnByte(ObjectModel),
    NotAnArray(Option<ObjectModel>),
    ArraySizeOmitted,
    InvalidArraySize,
    TooManyArguments(usize, usize),
    NotAFunction(ObjectModel),
}

/// A kind as plain values.
pub enum KindModel {
    BuiltinFunctionError(Seq<char>),
    UserDefinedError,
    AssertEqError,
    Any(Seq<char>),
    EvaluatorError,
    AssignError,
    UObjectError,
    ArrayError,
    UStructError,
}

/// A script error as plain values.
pub struct UErrorModel {
    pub kind: KindModel,
    pub message: MessageModel,
}

/// A builtin function error as plain values.
pub enum ErrorModel {
    UError(UErrorModel),
    Error(MessageModel),
    Kind(KindModel, MessageModel),
}

impl UErrorMessage {
    pub open spec fn model(&self) -> MessageModel {
        match self {
            UErrorMessage::BuiltinArgRequiredAt(n) => MessageModel::BuiltinArgRequiredAt(*n),
            UErrorMessage::BuiltinArgInvalid(o) => MessageModel::BuiltinArgInvalid(o.model()),
            UErrorMessage::BuiltinArgCastError(o, t) => MessageModel::BuiltinArgCastError(o.model(), t@),
            UErrorMessage::RemoteObjectIsNotPromise => MessageModel::RemoteObjectIsNotPromise,
            UErrorMessage::InvalidRegexPattern(p) => MessageModel::InvalidRegexPattern(p@),
            UErrorMessage::IndexOutOfBounds(n) => MessageModel::IndexOutOfBounds(*n),
            UErrorMessage::InvalidArgument(o) => MessageModel::InvalidArgument(o.model()),
            UErrorMessage::NotANumber(s) => MessageModel::NotANumber(s@),
            UErrorMessage::UnsupportedArchitecture => MessageModel::UnsupportedArchitecture,
            UErrorMessage::Any(s) => MessageModel::Any(s@),
            UErrorMessage::InvalidIndex(o) => MessageModel::InvalidIndex(o.model()),
            UErrorMessage::InvalidKeyOrIndex(a, b) => MessageModel::InvalidKeyOrIndex(a.model(), b.model()),
            UErrorMessage::IndexOutOfRange(i) => MessageModel::IndexOutOfRange(*i),
            UErrorMessage::NotAnByte(o) => MessageModel::NotAnByte(o.model()),
            UErrorMessage::NotAnArray(o) => MessageModel::NotAnArray(match o { Some(x) => Some(x.model()), None => None }),
            UErrorMessage::ArraySizeOmitted => MessageModel::ArraySizeOmitted,
            UErrorMessage::TooManyArguments(a, b) => MessageModel::TooManyArguments(*a, *b),
            UErrorMessage::NotAFunction(o) => MessageModel::NotAFunction(o.model()),
            UErrorMessage::InvalidArraySize => MessageModel::InvalidArraySize,
        }
    }

    /// A copy of this message.
    pub fn duplicate(&self) -> (r: UErrorMessage)
        ensures
            r.model() == self.model(),
    {
        match self {
            UErrorMessage::BuiltinArgRequiredAt(n) => UErrorMessage::BuiltinArgRequiredAt(*n),
            UErrorMessage::BuiltinArgInvalid(o) => UErrorMessage::BuiltinArgInvalid(o.duplicate()),
            UErrorMessage::BuiltinArgCastError(o, t) => UErrorMessage::BuiltinArgCastError(o.duplicate(), t.clone()),
            UErrorMessage::RemoteObjectIsNotPromise => UErrorMessage::RemoteObjectIsNotPromise,
            UErrorMessage::InvalidRegexPattern(p) => UErrorMessage::InvalidRegexPattern(p.clone()),
            UErrorMessage::IndexOutOfBounds(n) => UErrorMessage::IndexOutOfBounds(*n),
            UErrorMessage::InvalidArgument(o) => UErrorMessage::InvalidArgument(o.duplicate()),
            UErrorMessage::NotANumber(s) => UErrorMessage::NotANumber(s.clone()),
            UErrorMessage::UnsupportedArchitecture => UErrorMessage::UnsupportedArchitecture,
            UErrorMessage::Any(s) => UErrorMessage::Any(s.clone()),
            UErrorMessage::InvalidIndex(o) => UErrorMessage::InvalidIndex(o.duplicate()),
            UErrorMessage::InvalidKeyOrIndex(a, b) => UErrorMessage::InvalidKeyOrIndex(a.duplicate(), b.duplicate()),
            UErrorMessage::IndexOutOfRange(i) => UErrorMessage::IndexOutOfRange(*i),
            UErrorMessage::NotAnByte(o) => UErrorMessage::NotAnByte(o.duplicate()),
            UErrorMessage::NotAnArray(o) => UErrorMessage::NotAnArray(match o { Some(x) => Some(x.duplicate()), None => None }),
            UErrorMessage::ArraySizeOmitted => UErrorMessage::ArraySizeOmitted,
            UErrorMessage::TooManyArguments(a, b) => UErrorMessage::TooManyArguments(*a, *b),
            UErrorMessage::NotAFunction(o) => UErrorMessage::NotAFunction(o.duplicate()),
            UErrorMessage::InvalidArraySize => UErrorMessage::InvalidArraySize,
        }
    }
}

impl UErrorKind {
    pub open spec fn model(&self) -> KindModel {
        match self {
            UErrorKind::BuiltinFunctionError(n) => KindModel::BuiltinFunctionError(n@),
            UErrorKind::UserDefinedError => KindModel::UserDefinedError,
            UErrorKind::AssertEqError => KindModel::AssertEqError,
            UErrorKind::Any(t) => KindModel::Any(t@),
            UErrorKind::EvaluatorError => KindModel::EvaluatorError,
            UErrorKind::AssignError => KindModel::AssignError,
            UErrorKind::UObjectError => KindModel::UObjectError,
            UErrorKind::ArrayError => KindModel::ArrayError,
            UErrorKind::UStructError => KindModel::UStructError,
        }
    }
}

impl UError {
    pub open spec fn model(&self) -> UErrorModel {
        UErrorModel { kind: self.kind.model(), message: self.message.model() }
    }

    /// An error of the given kind with the given message.
    pub fn new(kind: UErrorKind, message: UErrorMessage) -> (r: UError)
        ensures
            r.model() == (UErrorModel { kind: kind.model(), message: message.model() }),
    {
        UError { kind, message }
    }
}

/// The message of an error.
pub open spec fn message_of(e: ErrorModel) -> MessageModel {
    match e {
        ErrorModel::UError(u) => u.message,
        ErrorModel::Error(m) => m,
        ErrorModel::Kind(_, m) => m,
    }
}

/// The script error an error becomes when raised by the builtin function `name`.
pub open spec fn uerror_of(e: ErrorModel, name: Seq<char>) -> UErrorModel {
    match e {
        ErrorModel::UError(u) => u,
        ErrorModel::Error(m) => UErrorModel { kind: KindModel::BuiltinFunctionError(name), message: m },
        ErrorModel::Kind(k, m) => UErrorModel { kind: k, message: m },
    }
}

/// Reporting an error as a script error keeps its message, and an error that was given
/// a kind keeps that kind.
pub proof fn law_report_keeps_message(e: ErrorModel, name: Seq<char>)
    ensures
        uerror_of(e, name).message == message_of(e),
        e matches ErrorModel::Kind(k, _) ==> uerror_of(e, name).kind == k,
        e matches ErrorModel::Error(_) ==> uerror_of(e, name).kind == KindModel::BuiltinFunctionError(name),
{
}

impl BuiltinFuncError {
    pub open spec fn model(&self) -> ErrorModel {
        match self {
            BuiltinFuncError::UError(e) => ErrorModel::UError(e.model()),
            BuiltinFuncError::Error(m) => ErrorModel::Error(m.model()),
            BuiltinFuncError::Kind(k, m) => ErrorModel::Kind(k.model(), m.model()),
        }
    }

    /// An error with this message, whose kind is decided when it is reported.
    pub fn new(message: UErrorMessage) -> (r: BuiltinFuncError)
        ensures
            r.model() == ErrorModel::Error(message.model()),
    {
        BuiltinFuncError::Error(message)
    }

    /// An error of the given kind with this message.
    pub fn new_with_kind(kind: UErrorKind, message: UErrorMessage) -> (r: BuiltinFuncError)
        ensures
            r.model() == ErrorModel::Kind(kind.model(), message.model()),
    {
        BuiltinFuncError::Kind(kind, message)
    }

    /// The message of this error.
    pub fn message(&self) -> (r: UErrorMessage)
        ensures
            r.model() == message_of(self.model()),
    {
        match self {
            BuiltinFuncError::UError(e) => e.message.duplicate(),
            BuiltinFuncError::Error(e) => e.duplicate(),
            BuiltinFuncError::Kind(_, e) => e.duplicate(),
        }
    }

    /// The script error this becomes when raised by the builtin function `name`: a message
    /// without kind is reported as an error of that builtin function.
    pub fn to_uerror(self, name: String) -> (r: UError)
        ensures
            r.model() == uerror_of(self.model(), name@),
    {
        match self {
            BuiltinFuncError::UError(e) => e,
            BuiltinFuncError::Error(message) => UError::new(UErrorKind::BuiltinFunctionError(name), message),
            BuiltinFuncError::Kind(kind, message) => UError::new(kind, message),
        }
    }
}

/// The error of a builtin function with this message.
pub fn builtin_func_error(message: UErrorMessage) -> (r: BuiltinFuncError)
    ensures
        r.model() == ErrorModel::Error(message.model()),
{
    BuiltinFuncError::new(message)
}

} // verus!
