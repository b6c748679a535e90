//! What calling a value does in the interpreter: which kind of call it makes, and the
//! argument count check of builtin functions. The functions, classes and outside objects
//! are named by handle; running them is the interpreter's work.

use vstd::prelude::*;
use crate::args::{Function, Object, ObjectModel, OtherKind, RemoteObject, Value, ValueModel};
use crate::error::{KindModel, MessageModel, UError, UErrorKind, UErrorMessage, UErrorModel};

verus! {

/// The kind of call that calling a value makes.
#[derive(PartialEq, Eq, Clone, Copy, Structural)]
pub enum CallPlan {
    /// Run a user function (or an anonymous one) with the arguments.
    Invoke(Function),
    /// Start an asynchronous function as a task; wait for it when the call is awaited.
    Task(u64, bool),
    /// Call a builtin function, after its argument count is checked (see
    /// `builtin_call_check`).
    Builtin(u64),
    /// Build an instance of a class and run its constructor.
    Construct(u64),
    /// Make a structure: empty with no argument, from a pointer with one.
    Struct(u64),
    /// Call a function of a DLL.
    Dll(u64),
    /// Read a COM object by the arguments as indexes.
    ComIndex(u64),
    /// Call a browser-side function.
    Remote(RemoteObject),
    /// Not callable.
    NotAFunction,
}

/// The kind of call a value makes.
pub open spec fn call_plan_spec(f: ObjectModel, is_await: bool) -> CallPlan {
    match f.value {
        ValueModel::Function(h) => CallPlan::Invoke(h),
        ValueModel::AnonFunc(h) => CallPlan::Invoke(h),
        ValueModel::RemoteObject(r) => CallPlan::Remote(r),
        ValueModel::Other(kind, h) => match kind {
            OtherKind::AsyncFunction => CallPlan::Task(h, is_await),
            OtherKind::BuiltinFunction => CallPlan::Builtin(h),
            OtherKind::Class => CallPlan::Construct(h),
            OtherKind::Struct => CallPlan::Struct(h),
            OtherKind::DefDllFunction => CallPlan::Dll(h),
            OtherKind::ComObject => CallPlan::ComIndex(h),
            _ => CallPlan::NotAFunction,
        },
        _ => CallPlan::NotAFunction,
    }
}

/// The kind of call a value makes (see `call_plan_spec`).
pub fn call_plan(f: &Object, is_await: bool) -> (r: CallPlan)
    ensures
        r == call_plan_spec(f.model(), is_await),
{
    match &f.value {
        Value::Function(h) => CallPlan::Invoke(*h),
        Value::AnonFunc(h) => CallPlan::Invoke(*h),
        Value::RemoteObject(r) => CallPlan::Remote(*r),
        Value::Other(kind, h) => match kind {
            OtherKind::AsyncFunction => CallPlan::Task(*h, is_await),
            OtherKind::BuiltinFunction => CallPlan::Builtin(*h),
            OtherKind::Class => CallPlan::Construct(*h),
            OtherKind::Struct => CallPlan::Struct(*h),
            OtherKind::DefDllFunction => CallPlan::Dll(*h),
            OtherKind::ComObject => CallPlan::ComIndex(*h),
            _ => CallPlan::NotAFunction,
        },
        _ => CallPlan::NotAFunction,
    }
}

/// The error of calling a value that is not a function.
pub fn not_a_function(f: &Object) -> (r: UError)
    ensures
        r.model() == (UErrorModel { kind: KindModel::EvaluatorError, message: MessageModel::NotAFunction(f.model()) }),
{
    UError::new(UErrorKind::EvaluatorError, UErrorMessage::NotAFunction(f.duplicate()))
}

/// The argument count check of a call of the builtin function `name`, which takes at
/// most `expected` arguments: more arguments than that is an error of that function.
pub fn builtin_call_check(name: String, expected: i32, given: usize) -> (r: Result<(), UError>)
    ensures
        r is Ok <==> expected as int >= given as int,
        r matches Err(e) ==> e.model() == (UErrorModel {
            kind: KindModel::BuiltinFunctionError(name@),
            message: MessageModel::TooManyArguments(given, expected as usize),
        }),
{
    if expected >= 0 && (expected as u64) >= (given as u64) {
        Ok(())
    } else {
        Err(UError::new(UErrorKind::BuiltinFunctionError(name), UErrorMessage::TooManyArguments(given, expected as usize)))
    }
}

/// The argument count check of making a structure: at most one argument.
pub fn struct_call_check(given: usize) -> (r: Result<(), UError>)
    ensures
        r is Ok <==> given <= 1,
        r matches Err(e) ==> e.model() == (UErrorModel {
            kind: KindModel::UStructError,
            message: MessageModel::TooManyArguments(given, 1),
        }),
{
    if given <= 1 {
        Ok(())
    } else {
        Err(UError::new(UErrorKind::UStructError, UErrorMessage::TooManyArguments(given, 1)))
    }
}

} // verus!
