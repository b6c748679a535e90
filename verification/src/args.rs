//! The values handed to builtin functions and the coercions that read them.
//!
//! A script value reaches the builtins as an [`Object`]: the shape of the value
//! (which the coercions dispatch on), together with the two things the coercions
//! read of any value whatever its shape — its textual rendering (what the script
//! language prints for it) and its truth value.

use vstd::prelude::*;

verus! {

/// An argument accepted in one of two shapes.
pub enum TwoTypeArg<T, U> {
    T(T),
    U(U),
}

/// The exact value of a script number, which is an IEEE-754 double:
/// `mantissa * 2^exponent` when finite.
#[derive(PartialEq, Eq, Clone, Copy, Structural)]
pub enum NumValue {
    Finite { mantissa: i64, exponent: i32 },
    PosInfinity,
    NegInfinity,
    NaN,
}

/// A script object seen through a handle: the builtins only pass it on.
#[derive(PartialEq, Eq, Clone, Copy, Structural)]
pub struct UObject(pub u64);

/// An open file seen through a handle.
#[derive(PartialEq, Eq, Clone, Copy, Structural)]
pub struct Fopen(pub u64);

/// A running task seen through a handle.
#[derive(PartialEq, Eq, Clone, Copy, Structural)]
pub struct UTask(pub u64);

/// A browser tab seen through a handle.
#[derive(PartialEq, Eq, Clone, Copy, Structural)]
pub struct TabWindow(pub u64);

/// A user function seen through a handle.
#[derive(PartialEq, Eq, Clone, Copy, Structural)]
pub struct Function(pub u64);

/// An object living in a browser, seen through a handle, and whether it is a promise.
#[derive(PartialEq, Eq, Clone, Copy, Structural)]
pub struct RemoteObject {
    pub id: u64,
    pub is_promise: bool,
}

/// The syntax node that an argument was written as, seen through a handle.
#[derive(PartialEq, Eq, Clone, Copy, Structural)]
pub struct Expression(pub u64);

/// The shape of a script value.
pub enum Value {
    Num(NumValue),
    String(String),
    Bool(bool),
    Array(Vec<Object>),
    /// An associative array: its keys and its values, in the table's order.
    HashTbl(Vec<Object>, Vec<Object>),
    RegEx(String),
    ByteArray(Vec<u8>),
    Empty,
    /// An argument left out at the call site.
    EmptyParam,
    Null,
    UObject(UObject),
    Fopen(Fopen),
    Task(UTask),
    RemoteObject(RemoteObject),
    TabWindow(TabWindow),
    Function(Function),
    AnonFunc(Function),
    /// Any other kind of value: its kind, and a handle to it.
    Other(OtherKind, u64),
}

/// The kinds of script value that the builtins here only pass on or name.
#[derive(PartialEq, Eq, Clone, Copy, Structural)]
pub enum OtherKind {
    BuiltinFunction,
    AsyncFunction,
    Module,
    Class,
    /// An instance of a class, and whether it has been dropped.
    Instance(bool),
    Nothing,
    Handle,
    This,
    Global,
    Version,
    ExpandableTB,
    Enum,
    DefDllFunction,
    Struct,
    UStruct,
    ComMember,
    ComObject,
    Variant,
    SafeArray,
    BrowserBuilder,
    Browser,
    BrowserFunction,
    Reference,
    WebRequest,
    WebResponse,
    WebFunction,
    HtmlNode,
    VarArgument,
    DynamicVar,
    Continue,
    Break,
    Exit,
}

/// A script value: its shape, its rendering as text and its truth value.
pub struct Object {
    pub value: Value,
    pub text: String,
    pub truthy: bool,
}

/// The shape of a script value as plain mathematical values.
pub enum ValueModel {
    Num(NumValue),
    String(Seq<char>),
    Bool(bool),
    Array(Seq<ObjectModel>),
    HashTbl(Seq<ObjectModel>, Seq<ObjectModel>),
    RegEx(Seq<char>),
    ByteArray(Seq<u8>),
    Empty,
    EmptyParam,
    Null,
    UObject(UObject),
    Fopen(Fopen),
    Task(UTask),
    RemoteObject(RemoteObject),
    TabWindow(TabWindow),
    Function(Function),
    AnonFunc(Function),
    Other(OtherKind, u64),
}

/// A script value as plain mathematical values.
pub struct ObjectModel {
    pub value: ValueModel,
    pub text: Seq<char>,
    pub truthy: bool,
}

/// The models of a sequence of values.
pub open spec fn models(v: Seq<Object>) -> Seq<ObjectModel>
    decreases v,
{
    if v.len() == 0 {
        Seq::empty()
    } else {
        models(v.drop_last()).push(v.last().model())
    }
}

impl Object {
    /// This value as plain mathematical values.
    pub open spec fn model(&self) -> ObjectModel
        decreases self,
    {
        let value = match &self.value {
            Value::Num(n) => ValueModel::Num(*n),
            Value::String(s) => ValueModel::String(s@),
            Value::Bool(b) => ValueModel::Bool(*b),
            Value::Array(v) => ValueModel::Array(models(v@)),
            Value::HashTbl(k, v) => ValueModel::HashTbl(models(k@), models(v@)),
            Value::RegEx(s) => ValueModel::RegEx(s@),
            Value::ByteArray(b) => ValueModel::ByteArray(b@),
            Value::Empty => ValueModel::Empty,
            Value::EmptyParam => ValueModel::EmptyParam,
            Value::Null => ValueModel::Null,
            Value::UObject(u) => ValueModel::UObject(*u),
            Value::Fopen(f) => ValueModel::Fopen(*f),
            Value::Task(t) => ValueModel::Task(*t),
            Value::RemoteObject(o) => ValueModel::RemoteObject(*o),
            Value::TabWindow(t) => ValueModel::TabWindow(*t),
            Value::Function(f) => ValueModel::Function(*f),
            Value::AnonFunc(f) => ValueModel::AnonFunc(*f),
            Value::Other(k, h) => ValueModel::Other(*k, *h),
        };
        ObjectModel { value, text: self.text@, truthy: self.truthy }
    }

    /// The empty value (`EMPTY`): rendered as nothing, and false.
    pub fn empty() -> (r: Object)
        ensures
            r.value is Empty,
            r.text@ == Seq::<char>::empty(),
            !r.truthy,
    {
        Object { value: Value::Empty, text: String::new(), truthy: false }
    }

    /// A copy of this value.
    pub fn duplicate(&self) -> (r: Object)
        ensures
            r.model() == self.model(),
        decreases self,
    {
        let value = match &self.value {
            Value::Num(n) => Value::Num(*n),
            Value::String(s) => Value::String(s.clone()),
            Value::Bool(b) => Value::Bool(*b),
            Value::Array(v) => Value::Array(duplicate_all(v)),
            Value::HashTbl(k, v) => Value::HashTbl(duplicate_all(k), duplicate_all(v)),
            Value::RegEx(s) => Value::RegEx(s.clone()),
            Value::ByteArray(b) => Value::ByteArray(b.clone()),
            Value::Empty => Value::Empty,
            Value::EmptyParam => Value::EmptyParam,
            Value::Null => Value::Null,
            Value::UObject(u) => Value::UObject(*u),
            Value::Fopen(f) => Value::Fopen(*f),
            Value::Task(t) => Value::Task(*t),
            Value::RemoteObject(o) => Value::RemoteObject(*o),
            Value::TabWindow(t) => Value::TabWindow(*t),
            Value::Function(f) => Value::Function(*f),
            Value::AnonFunc(f) => Value::AnonFunc(*f),
            Value::Other(k, h) => Value::Other(*k, *h),
        };
        Object { value, text: self.text.clone(), truthy: self.truthy }
    }
}

/// A copy of every value of `v`.
pub fn duplicate_all(v: &Vec<Object>) -> (r: Vec<Object>)
    ensures
        models(r@) == models(v@),
    decreases v,
{
    let mut r: Vec<Object> = Vec::new();
    let mut i: usize = 0;
    while i < v.len()
        invariant
            i <= v.len(),
            r@.len() == i,
            models(r@) == models(v@.take(i as int)),
        decreases v.len() - i,
    {
        assert(decreases_to!(v => v@[i as int]));
        let o = v[i].duplicate();
        let ghost before = r@;
        r.push(o);
        i = i + 1;
        assert(r@.drop_last() =~= before);
        assert(v@.take(i as int).drop_last() =~= v@.take(i - 1));
    }
    assert(v@.take(v.len() as int) =~= v@);
    r
}

} // verus!
