//! The arguments of a builtin call and the coercions that read them.
//!
//! Every reader takes the position of an argument. An argument may be missing (the
//! call had fewer arguments) or left out (written as an empty slot); the readers that
//! take a default use it in both cases and fail with "argument required" when there is
//! none. The other readers hand whatever stands at the position to the coercion.

use vstd::prelude::*;
use crate::args::{
    duplicate_all, models, Expression, Fopen, Function, NumValue, Object, ObjectModel, RemoteObject,
    TabWindow, TwoTypeArg, UObject, UTask, Value, ValueModel,
};
use crate::error::{BuiltinFuncError, ErrorModel, MessageModel, UErrorMessage};
use crate::num::{saturating_cast, saturating_trunc};

verus! {

/// The result of a reader.
pub type BuiltInResult<T> = Result<T, BuiltinFuncError>;

/// A result seen through `view` for its value and as plain values for its error.
pub open spec fn outcome<T, V>(r: BuiltInResult<T>, view: spec_fn(T) -> V) -> Result<V, ErrorModel> {
    match r {
        Ok(v) => Ok(view(v)),
        Err(e) => Err(e.model()),
    }
}

/// "The argument at position `i` (0-based) is required".
pub open spec fn required_at(i: int) -> ErrorModel {
    ErrorModel::Error(MessageModel::BuiltinArgRequiredAt((i + 1) as usize))
}

/// "This argument cannot be used here".
pub open spec fn invalid(o: ObjectModel) -> ErrorModel {
    ErrorModel::Error(MessageModel::BuiltinArgInvalid(o))
}

/// What stands at position `i` of a call.
pub enum Slot {
    /// There is no argument at that position.
    Missing,
    /// The argument was left out at the call site.
    Omitted,
    /// The argument given.
    Given(ObjectModel),
}

/// What stands at position `i` of the arguments `objs`.
pub open spec fn slot(objs: Seq<ObjectModel>, i: int) -> Slot {
    if i < 0 || i >= objs.len() {
        Slot::Missing
    } else if objs[i].value is EmptyParam {
        Slot::Omitted
    } else {
        Slot::Given(objs[i])
    }
}

/// The argument at position `i`, left-out ones included.
pub open spec fn at(objs: Seq<ObjectModel>, i: int) -> Option<ObjectModel> {
    if 0 <= i < objs.len() {
        Some(objs[i])
    } else {
        None
    }
}

/// The default when the argument is missing or left out; "argument required" when none.
pub open spec fn fallback<V>(default: Option<V>, i: int) -> Result<V, ErrorModel> {
    match default {
        Some(d) => Ok(d),
        None => Err(required_at(i)),
    }
}

/// Optional values seen through `view`.
pub open spec fn opt_view<T, V>(o: Option<T>, view: spec_fn(T) -> V) -> Option<V> {
    match o {
        Some(v) => Some(view(v)),
        None => None,
    }
}

/// The texts of a sequence of values.
pub open spec fn texts(objs: Seq<ObjectModel>) -> Seq<Seq<char>> {
    objs.map_values(|o: ObjectModel| o.text)
}

/// The truth values of a sequence of values.
pub open spec fn truths(objs: Seq<ObjectModel>) -> Seq<bool> {
    objs.map_values(|o: ObjectModel| o.truthy)
}

/// The texts that a value stands for when a list of strings is wanted: the texts of an
/// array's items, the texts of a table's keys, or the value's own text.
pub open spec fn string_list(o: ObjectModel) -> Seq<Seq<char>> {
    match o.value {
        ValueModel::Array(v) => texts(v),
        ValueModel::HashTbl(k, _) => texts(k),
        _ => seq![o.text],
    }
}

/// The three answers of an argument that is TRUE, FALSE or "the other one" (2).
#[derive(PartialEq, Eq, Clone, Copy, Structural)]
pub enum ThreeState {
    True,
    False,
    Other,
}

impl ThreeState {
    /// Whether the answer counts as true: everything but `False`.
    pub fn as_bool(&self) -> (r: bool)
        ensures
            r == !(*self is False),
    {
        match self {
            Self::False => false,
            _ => true,
        }
    }

    /// The answer that a boolean gives.
    pub fn from_bool(b: bool) -> (r: ThreeState)
        ensures
            r == (if b { ThreeState::True } else { ThreeState::False }),
    {
        if b { Self::True } else { Self::False }
    }

    /// The answer that a number gives: 0 is `False`, 2 is `Other`, anything else `True`
    /// (the number is first converted to a 64-bit integer as Rust's `as` does).
    pub fn from_num(n: NumValue) -> (r: ThreeState)
        ensures
            r == three_state_of(n),
    {
        let k = saturating_trunc(n, i64::MIN, i64::MAX);
        if k == 0 {
            Self::False
        } else if k == 2 {
            Self::Other
        } else {
            Self::True
        }
    }
}

/// The answer that a number gives (see `ThreeState::from_num`).
pub open spec fn three_state_of(n: NumValue) -> ThreeState {
    let k = saturating_cast(n, i64::MIN as int, i64::MAX as int);
    if k == 0 {
        ThreeState::False
    } else if k == 2 {
        ThreeState::Other
    } else {
        ThreeState::True
    }
}

/// The arguments of a builtin call: each value with the syntax it was written as, and
/// whether the call is awaited.
pub struct BuiltinFuncArgs {
    arguments: Vec<(Option<Expression>, Object)>,
    is_await: bool,
}

impl BuiltinFuncArgs {
    /// The argument values, in order.
    pub closed spec fn objects(&self) -> Seq<ObjectModel> {
        Seq::new(self.arguments@.len(), |k: int| self.arguments@[k].1.model())
    }

    /// The syntax of the arguments, in order.
    pub closed spec fn exprs(&self) -> Seq<Option<Expression>> {
        Seq::new(self.arguments@.len(), |k: int| self.arguments@[k].0)
    }

    /// Whether the call is awaited.
    pub closed spec fn awaited(&self) -> bool {
        self.is_await
    }

    /// The arguments of a call.
    pub fn new(arguments: Vec<(Option<Expression>, Object)>, is_await: bool) -> (r: BuiltinFuncArgs)
        ensures
            r.objects() == Seq::new(arguments@.len(), |k: int| arguments@[k].1.model()),
            r.exprs() == Seq::new(arguments@.len(), |k: int| arguments@[k].0),
            r.awaited() == is_await,
    {
        BuiltinFuncArgs { arguments, is_await }
    }

    /// Whether the call is awaited.
    pub fn is_await(&self) -> (r: bool)
        ensures
            r == self.awaited(),
    {
        self.is_await
    }

    /// How many arguments the call has.
    pub fn len(&self) -> (r: usize)
        ensures
            r == self.objects().len(),
            r == self.exprs().len(),
    {
        self.arguments.len()
    }

    fn slot_ref(&self, i: usize) -> (r: Option<&Object>)
        ensures
            match r {
                Some(o) => i < self.objects().len() && o.model() == self.objects()[i as int],
                None => i >= self.objects().len(),
            },
    {
        if i < self.arguments.len() {
            Some(&self.arguments[i].1)
        } else {
            None
        }
    }

    /// The value at position `i`, or the empty value when there is none.
    pub fn item(&self, i: usize) -> (r: Object)
        ensures
            match at(self.objects(), i as int) {
                Some(o) => r.model() == o,
                None => r.value is Empty && r.text@ == Seq::<char>::empty() && !r.truthy,
            },
    {
        match self.slot_ref(i) {
            Some(o) => o.duplicate(),
            None => Object::empty(),
        }
    }

    /// The syntax of the argument at position `i`, if any.
    pub fn get_expr(&self, i: usize) -> (r: Option<Expression>)
        ensures
            r == (if i < self.exprs().len() { self.exprs()[i as int] } else { None }),
    {
        if i < self.arguments.len() {
            self.arguments[i].0
        } else {
            None
        }
    }

    /// Removes the arguments from position `index` on and returns them.
    pub fn take_argument(&mut self, index: usize) -> (r: Vec<(Option<Expression>, Object)>)
        requires
            index <= old(self).objects().len(),
        ensures
            final(self).objects() == old(self).objects().take(index as int),
            final(self).exprs() == old(self).exprs().take(index as int),
            final(self).awaited() == old(self).awaited(),
            Seq::new(r@.len(), |k: int| r@[k].1.model()) == old(self).objects().skip(index as int),
            Seq::new(r@.len(), |k: int| r@[k].0) == old(self).exprs().skip(index as int),
    {
        let rest = self.arguments.split_off(index);
        proof {
            assert(self.objects() =~= old(self).objects().take(index as int));
            assert(self.exprs() =~= old(self).exprs().take(index as int));
            assert(Seq::new(rest@.len(), |k: int| rest@[k].1.model()) =~= old(self).objects().skip(index as int));
            assert(Seq::new(rest@.len(), |k: int| rest@[k].0) =~= old(self).exprs().skip(index as int));
        }
        rest
    }

    /// Copies of the values from position `at` on.
    fn split_off(&self, at: usize) -> (r: Vec<Object>)
        requires
            at <= self.objects().len(),
        ensures
            models(r@) == self.objects().skip(at as int),
    {
        let mut r: Vec<Object> = Vec::new();
        let mut k = at;
        while k < self.arguments.len()
            invariant
                at <= k <= self.arguments.len(),
                self.objects().len() == self.arguments.len(),
                r@.len() == k - at,
                models(r@) == self.objects().subrange(at as int, k as int),
            decreases self.arguments.len() - k,
        {
            let o = self.arguments[k].1.duplicate();
            let ghost before = r@;
            r.push(o);
            k = k + 1;
            proof {
                assert(r@.drop_last() =~= before);
                assert(self.objects().subrange(at as int, k as int).drop_last() =~= self.objects().subrange(at as int, k - 1));
            }
        }
        proof {
            assert(self.objects().subrange(at as int, k as int) =~= self.objects().skip(at as int));
        }
        r
    }
}


/// A reader with a default: the coercion applies to a given argument; a missing or
/// left-out one gives the default.
pub open spec fn with_default<V>(objs: Seq<ObjectModel>, i: int, default: Option<V>, read: spec_fn(ObjectModel) -> Result<V, ErrorModel>) -> Result<V, ErrorModel> {
    match slot(objs, i) {
        Slot::Given(o) => read(o),
        _ => fallback(default, i),
    }
}

/// A reader without a default: the coercion applies to whatever stands at the position;
/// a missing argument is "argument required".
pub open spec fn required<V>(objs: Seq<ObjectModel>, i: int, read: spec_fn(ObjectModel) -> Result<V, ErrorModel>) -> Result<V, ErrorModel> {
    match at(objs, i) {
        Some(o) => read(o),
        None => Err(required_at(i)),
    }
}

/// A reader that may be told the argument is optional: a missing optional argument
/// reads as `None`.
pub open spec fn with_flag<V>(objs: Seq<ObjectModel>, i: int, needed: bool, read: spec_fn(ObjectModel) -> Result<Option<V>, ErrorModel>) -> Result<Option<V>, ErrorModel> {
    match at(objs, i) {
        Some(o) => read(o),
        None => if needed { Err(required_at(i)) } else { Ok(None) },
    }
}

/// A value read as a string: strings and patterns as they are, anything else as its text.
pub open spec fn string_reading(o: ObjectModel, i: int) -> Result<Seq<char>, ErrorModel> {
    match o.value {
        ValueModel::String(s) => Ok(s),
        ValueModel::RegEx(r) => Ok(r),
        ValueModel::EmptyParam => Err(required_at(i)),
        _ => Ok(o.text),
    }
}

/// A value read as a string where EMPTY means "not given".
pub open spec fn string_or_empty_reading(o: ObjectModel) -> Result<Option<Seq<char>>, ErrorModel> {
    match o.value {
        ValueModel::String(s) => Ok(Some(s)),
        ValueModel::Empty | ValueModel::EmptyParam => Ok(None),
        _ => Ok(Some(o.text)),
    }
}

/// A value read as a list of strings where EMPTY means "not given".
pub open spec fn string_array_or_empty_reading(o: ObjectModel) -> Result<Option<Seq<Seq<char>>>, ErrorModel> {
    match o.value {
        ValueModel::Empty | ValueModel::EmptyParam => Ok(None),
        _ => Ok(Some(string_list(o))),
    }
}

/// A value read as a list of booleans where EMPTY means "not given".
pub open spec fn bool_array_reading(o: ObjectModel) -> Result<Option<Seq<bool>>, ErrorModel> {
    match o.value {
        ValueModel::Array(v) => Ok(Some(truths(v))),
        ValueModel::Empty | ValueModel::EmptyParam => Ok(None),
        _ => Ok(Some(seq![o.truthy])),
    }
}

/// A value read as TRUE, FALSE or 2.
pub open spec fn three_state_reading(o: ObjectModel) -> Result<ThreeState, ErrorModel> {
    match o.value {
        ValueModel::Bool(b) => Ok(if b { ThreeState::True } else { ThreeState::False }),
        ValueModel::Num(n) => Ok(three_state_of(n)),
        _ => Err(invalid(o)),
    }
}

/// A value read as an array, or as a table's keys or values.
pub open spec fn array_reading(o: ObjectModel, tables: Option<bool>) -> Result<Seq<ObjectModel>, ErrorModel> {
    match o.value {
        ValueModel::Array(v) => Ok(v),
        ValueModel::HashTbl(k, v) => match tables {
            Some(keys) => Ok(if keys { k } else { v }),
            None => Err(invalid(o)),
        },
        _ => Err(invalid(o)),
    }
}

/// A value read as an array where EMPTY means "not given".
pub open spec fn array_or_empty_reading(o: ObjectModel) -> Result<Option<Seq<ObjectModel>>, ErrorModel> {
    match o.value {
        ValueModel::Array(v) => Ok(Some(v)),
        ValueModel::Empty | ValueModel::EmptyParam => Ok(None),
        _ => Err(invalid(o)),
    }
}

/// A value read as a task: a task, or a remote object that is a promise.
pub open spec fn task_reading(o: ObjectModel) -> Result<TwoTypeArg<UTask, RemoteObject>, ErrorModel> {
    match o.value {
        ValueModel::Task(t) => Ok(TwoTypeArg::T(t)),
        ValueModel::RemoteObject(r) => if r.is_promise {
            Ok(TwoTypeArg::U(r))
        } else {
            Err(ErrorModel::Error(MessageModel::RemoteObjectIsNotPromise))
        },
        _ => Err(invalid(o)),
    }
}

/// A number read as a 32-bit integer the way Rust's `as` converts a double; nothing
/// else is accepted.
pub open spec fn i32_reading(o: ObjectModel) -> Result<i32, ErrorModel> {
    match o.value {
        ValueModel::Num(n) => Ok(saturating_cast(n, i32::MIN as int, i32::MAX as int) as i32),
        _ => Err(invalid(o)),
    }
}

/// A value read as a file, or as a file name where EMPTY means "not given".
pub open spec fn string_or_fopen_reading(o: ObjectModel) -> Result<TwoTypeArg<Option<Seq<char>>, Fopen>, ErrorModel> {
    match o.value {
        ValueModel::Empty | ValueModel::EmptyParam => Ok(TwoTypeArg::T(None)),
        ValueModel::Fopen(f) => Ok(TwoTypeArg::U(f)),
        _ => Ok(TwoTypeArg::T(Some(o.text))),
    }
}

/// A value read as a boolean or, failing that, as a string.
pub open spec fn string_or_bool_reading(o: ObjectModel) -> Result<TwoTypeArg<Seq<char>, bool>, ErrorModel> {
    match o.value {
        ValueModel::Empty | ValueModel::EmptyParam => Ok(TwoTypeArg::U(false)),
        ValueModel::Bool(b) => Ok(TwoTypeArg::U(b)),
        ValueModel::String(s) => Ok(TwoTypeArg::T(s)),
        _ => Ok(TwoTypeArg::T(o.text)),
    }
}

/// A value read as a string or a byte array.
pub open spec fn string_or_bytearray_reading(o: ObjectModel) -> Result<TwoTypeArg<Seq<char>, Seq<u8>>, ErrorModel> {
    match o.value {
        ValueModel::String(s) => Ok(TwoTypeArg::T(s)),
        ValueModel::ByteArray(a) => Ok(TwoTypeArg::U(a)),
        _ => Err(invalid(o)),
    }
}

/// A value read as a user function or a function name; EMPTY and the empty name mean
/// "not given".
pub open spec fn function_or_string_reading(o: ObjectModel) -> Result<Option<TwoTypeArg<Seq<char>, Function>>, ErrorModel> {
    match o.value {
        ValueModel::Empty | ValueModel::EmptyParam => Ok(None),
        ValueModel::AnonFunc(f) => Ok(Some(TwoTypeArg::U(f))),
        ValueModel::Function(f) => Ok(Some(TwoTypeArg::U(f))),
        ValueModel::String(s) => Ok(if s.len() == 0 { None } else { Some(TwoTypeArg::T(s)) }),
        _ => Err(invalid(o)),
    }
}

/// The view of a two-shape string-or-X value.
pub open spec fn str_or<U>(v: TwoTypeArg<String, U>) -> TwoTypeArg<Seq<char>, U> {
    match v {
        TwoTypeArg::T(s) => TwoTypeArg::T(s@),
        TwoTypeArg::U(u) => TwoTypeArg::U(u),
    }
}

fn fallback_exec<T>(default: Option<T>, i: usize) -> (r: BuiltInResult<T>)
    requires
        i < usize::MAX,
    ensures
        match default {
            Some(d) => r == Ok::<T, BuiltinFuncError>(d),
            None => r matches Err(e) && e.model() == required_at(i as int),
        },
{
    match default {
        Some(d) => Ok(d),
        None => Err(BuiltinFuncError::new(UErrorMessage::BuiltinArgRequiredAt(i + 1))),
    }
}

fn invalid_exec<T>(o: &Object) -> (r: BuiltInResult<T>)
    ensures
        r matches Err(e) && e.model() == invalid(o.model()),
{
    Err(BuiltinFuncError::new(UErrorMessage::BuiltinArgInvalid(o.duplicate())))
}

/// The texts of copies of `v`.
fn texts_of(v: &Vec<Object>) -> (r: Vec<String>)
    ensures
        r@.map_values(|s: String| s@) == texts(models(v@)),
{
    let mut r: Vec<String> = Vec::new();
    let mut k: usize = 0;
    proof {
        lemma_models_len(v@);
    }
    while k < v.len()
        invariant
            k <= v.len(),
            models(v@).len() == v@.len(),
            r@.map_values(|s: String| s@) == texts(models(v@)).take(k as int),
        decreases v.len() - k,
    {
        proof {
            lemma_models_index(v@, k as int);
        }
        let ghost before = r@;
        r.push(v[k].text.clone());
        k = k + 1;
        proof {
            let t = texts(models(v@));
            assert(r@.map_values(|s: String| s@) =~= before.map_values(|s: String| s@).push(v@[k - 1].text@));
            assert(t.take(k as int) =~= t.take(k - 1).push(t[k - 1]));
        }
    }
    assert(texts(models(v@)).take(k as int) =~= texts(models(v@)));
    r
}

/// `models` keeps the length.
pub proof fn lemma_models_len(v: Seq<Object>)
    ensures
        models(v).len() == v.len(),
    decreases v.len(),
{
    if v.len() > 0 {
        lemma_models_len(v.drop_last());
    }
}

/// `models` works item by item.
pub proof fn lemma_models_index(v: Seq<Object>, k: int)
    requires
        0 <= k < v.len(),
    ensures
        models(v)[k] == v[k].model(),
    decreases v.len(),
{
    lemma_models_len(v.drop_last());
    if k < v.len() - 1 {
        lemma_models_index(v.drop_last(), k);
    }
}

/// The truth values of `v`.
fn truths_of(v: &Vec<Object>) -> (r: Vec<bool>)
    ensures
        r@ == truths(models(v@)),
{
    let mut r: Vec<bool> = Vec::new();
    let mut k: usize = 0;
    proof {
        lemma_models_len(v@);
    }
    while k < v.len()
        invariant
            k <= v.len(),
            models(v@).len() == v@.len(),
            r@ == truths(models(v@)).take(k as int),
        decreases v.len() - k,
    {
        proof {
            lemma_models_index(v@, k as int);
        }
        r.push(v[k].truthy);
        k = k + 1;
        proof {
            let t = truths(models(v@));
            assert(t.take(k as int) =~= t.take(k - 1).push(t[k - 1]));
        }
        assert(r@ =~= truths(models(v@)).take(k as int));
    }
    assert(truths(models(v@)).take(k as int) =~= truths(models(v@)));
    r
}

/// The strings a value stands for when a list of strings is wanted.
fn string_list_of(o: &Object) -> (r: Vec<String>)
    ensures
        r@.map_values(|s: String| s@) == string_list(o.model()),
{
    match &o.value {
        Value::Array(v) => texts_of(v),
        Value::HashTbl(k, _) => texts_of(k),
        _ => {
            let mut r: Vec<String> = Vec::new();
            r.push(o.text.clone());
            assert(r@.map_values(|s: String| s@) =~= seq![o.text@]);
            r
        },
    }
}

impl BuiltinFuncArgs {
    /// The argument at position `i` as it is.
    pub fn get_as_object(&self, i: usize, default: Option<Object>) -> (r: BuiltInResult<Object>)
        requires
            i < usize::MAX,
        ensures
            outcome(r, |o: Object| o.model()) == with_default(
                self.objects(),
                i as int,
                opt_view(default, |o: Object| o.model()),
                |o: ObjectModel| Ok(o),
            ),
    {
        match self.slot_ref(i) {
            Some(o) => match &o.value {
                Value::EmptyParam => fallback_exec(default, i),
                _ => Ok(o.duplicate()),
            },
            None => fallback_exec(default, i),
        }
    }

    /// The argument at position `i` as a string (see `string_reading`).
    pub fn get_as_string(&self, i: usize, default: Option<String>) -> (r: BuiltInResult<String>)
        requires
            i < usize::MAX,
        ensures
            outcome(r, |s: String| s@) == with_default(
                self.objects(),
                i as int,
                opt_view(default, |s: String| s@),
                |o: ObjectModel| string_reading(o, i as int),
            ),
    {
        match self.slot_ref(i) {
            Some(o) => match &o.value {
                Value::EmptyParam => fallback_exec(default, i),
                Value::String(s) => Ok(s.clone()),
                Value::RegEx(re) => Ok(re.clone()),
                _ => Ok(o.text.clone()),
            },
            None => fallback_exec(default, i),
        }
    }

    /// The argument at position `i` as a string, `None` when it is EMPTY or not given.
    pub fn get_as_string_or_empty(&self, i: usize) -> (r: BuiltInResult<Option<String>>)
        requires
            i < usize::MAX,
        ensures
            outcome(r, |s: Option<String>| opt_view(s, |x: String| x@)) == with_default(
                self.objects(),
                i as int,
                Some(None),
                |o: ObjectModel| string_or_empty_reading(o),
            ),
    {
        match self.slot_ref(i) {
            Some(o) => match &o.value {
                Value::EmptyParam => Ok(None),
                Value::String(s) => Ok(Some(s.clone())),
                Value::Empty => Ok(None),
                _ => Ok(Some(o.text.clone())),
            },
            None => Ok(None),
        }
    }

    /// The argument at position `i` as a list of strings, `None` when it is EMPTY or not
    /// given.
    pub fn get_as_string_array_or_empty(&self, i: usize) -> (r: BuiltInResult<Option<Vec<String>>>)
        requires
            i < usize::MAX,
        ensures
            outcome(r, |v: Option<Vec<String>>| opt_view(v, |x: Vec<String>| x@.map_values(|s: String| s@)))
                == with_default(self.objects(), i as int, Some(None), |o: ObjectModel| string_array_or_empty_reading(o)),
    {
        match self.slot_ref(i) {
            Some(o) => match &o.value {
                Value::EmptyParam => Ok(None),
                Value::Empty => Ok(None),
                _ => Ok(Some(string_list_of(o))),
            },
            None => Ok(None),
        }
    }

    /// The argument at position `i` (required) as a list of strings.
    pub fn get_as_string_array(&self, i: usize) -> (r: BuiltInResult<Vec<String>>)
        requires
            i < usize::MAX,
        ensures
            outcome(r, |x: Vec<String>| x@.map_values(|s: String| s@)) == with_default(
                self.objects(),
                i as int,
                None,
                |o: ObjectModel| Ok(string_list(o)),
            ),
    {
        match self.slot_ref(i) {
            Some(o) => match &o.value {
                Value::EmptyParam => fallback_exec(None, i),
                _ => Ok(string_list_of(o)),
            },
            None => fallback_exec(None, i),
        }
    }

    /// The argument at position `i` as a truth value.
    pub fn get_as_bool(&self, i: usize, default: Option<bool>) -> (r: BuiltInResult<bool>)
        requires
            i < usize::MAX,
        ensures
            outcome(r, |b: bool| b) == with_default(self.objects(), i as int, default, |o: ObjectModel| Ok(o.truthy)),
    {
        match self.slot_ref(i) {
            Some(o) => match &o.value {
                Value::EmptyParam => fallback_exec(default, i),
                _ => Ok(o.truthy),
            },
            None => fallback_exec(default, i),
        }
    }

    /// The argument at position `i` as a list of truth values, `None` when it is EMPTY.
    pub fn get_as_bool_array(&self, i: usize, default: Option<Option<Vec<bool>>>) -> (r: BuiltInResult<Option<Vec<bool>>>)
        requires
            i < usize::MAX,
        ensures
            outcome(r, |v: Option<Vec<bool>>| opt_view(v, |x: Vec<bool>| x@)) == with_default(
                self.objects(),
                i as int,
                opt_view(default, |d: Option<Vec<bool>>| opt_view(d, |x: Vec<bool>| x@)),
                |o: ObjectModel| bool_array_reading(o),
            ),
    {
        match self.slot_ref(i) {
            Some(o) => match &o.value {
                Value::EmptyParam => fallback_exec(default, i),
                Value::Array(v) => Ok(Some(truths_of(v))),
                Value::Empty => Ok(None),
                _ => {
                    let mut r: Vec<bool> = Vec::new();
                    r.push(o.truthy);
                    assert(r@ =~= seq![o.truthy]);
                    Ok(Some(r))
                },
            },
            None => fallback_exec(default, i),
        }
    }

    /// The argument at position `i` as TRUE, FALSE or 2.
    pub fn get_as_three_state(&self, i: usize, default: Option<ThreeState>) -> (r: BuiltInResult<ThreeState>)
        requires
            i < usize::MAX,
        ensures
            outcome(r, |t: ThreeState| t) == with_default(self.objects(), i as int, default, |o: ObjectModel| three_state_reading(o)),
    {
        match self.slot_ref(i) {
            Some(o) => match &o.value {
                Value::EmptyParam => fallback_exec(default, i),
                Value::Bool(b) => Ok(ThreeState::from_bool(*b)),
                Value::Num(n) => Ok(ThreeState::from_num(*n)),
                _ => invalid_exec(o),
            },
            None => fallback_exec(default, i),
        }
    }

    /// The argument at position `i` (required, left-out counts) as a script object.
    pub fn get_as_uobject(&self, i: usize) -> (r: BuiltInResult<UObject>)
        requires
            i < usize::MAX,
        ensures
            outcome(r, |u: UObject| u) == required(self.objects(), i as int, |o: ObjectModel| match o.value {
                ValueModel::UObject(u) => Ok(u),
                _ => Err(invalid(o)),
            }),
    {
        match self.slot_ref(i) {
            Some(o) => match &o.value {
                Value::UObject(u) => Ok(*u),
                _ => invalid_exec(o),
            },
            None => fallback_exec(None, i),
        }
    }

    /// The argument at position `i` as an array.
    pub fn get_as_array(&self, i: usize, default: Option<Vec<Object>>) -> (r: BuiltInResult<Vec<Object>>)
        requires
            i < usize::MAX,
        ensures
            outcome(r, |v: Vec<Object>| models(v@)) == with_default(
                self.objects(),
                i as int,
                opt_view(default, |v: Vec<Object>| models(v@)),
                |o: ObjectModel| array_reading(o, None),
            ),
    {
        match self.slot_ref(i) {
            Some(o) => match &o.value {
                Value::EmptyParam => fallback_exec(default, i),
                Value::Array(arr) => Ok(duplicate_all(arr)),
                _ => invalid_exec(o),
            },
            None => fallback_exec(default, i),
        }
    }

    /// The argument at position `i` as an array, or as a table's keys (`get_hash_key`) or
    /// values.
    pub fn get_as_array_include_hashtbl(&self, i: usize, default: Option<Vec<Object>>, get_hash_key: bool) -> (r: BuiltInResult<Vec<Object>>)
        requires
            i < usize::MAX,
        ensures
            outcome(r, |v: Vec<Object>| models(v@)) == with_default(
                self.objects(),
                i as int,
                opt_view(default, |v: Vec<Object>| models(v@)),
                |o: ObjectModel| array_reading(o, Some(get_hash_key)),
            ),
    {
        match self.slot_ref(i) {
            Some(o) => match &o.value {
                Value::EmptyParam => fallback_exec(default, i),
                Value::Array(arr) => Ok(duplicate_all(arr)),
                Value::HashTbl(k, v) => if get_hash_key {
                    Ok(duplicate_all(k))
                } else {
                    Ok(duplicate_all(v))
                },
                _ => invalid_exec(o),
            },
            None => fallback_exec(default, i),
        }
    }

    /// The argument at position `i` as an array, `None` when it is EMPTY or not given.
    pub fn get_as_array_or_empty(&self, i: usize) -> (r: BuiltInResult<Option<Vec<Object>>>)
        requires
            i < usize::MAX,
        ensures
            outcome(r, |v: Option<Vec<Object>>| opt_view(v, |x: Vec<Object>| models(x@))) == with_default(
                self.objects(),
                i as int,
                Some(None),
                |o: ObjectModel| array_or_empty_reading(o),
            ),
    {
        match self.slot_ref(i) {
            Some(o) => match &o.value {
                Value::EmptyParam => Ok(None),
                Value::Empty => Ok(None),
                Value::Array(arr) => Ok(Some(duplicate_all(arr))),
                _ => invalid_exec(o),
            },
            None => Ok(None),
        }
    }

    /// The argument at position `i` (required) as a task (see `task_reading`).
    pub fn get_as_task(&self, i: usize) -> (r: BuiltInResult<TwoTypeArg<UTask, RemoteObject>>)
        requires
            i < usize::MAX,
        ensures
            outcome(r, |t: TwoTypeArg<UTask, RemoteObject>| t) == required(self.objects(), i as int, |o: ObjectModel| task_reading(o)),
    {
        match self.slot_ref(i) {
            Some(o) => match &o.value {
                Value::Task(t) => Ok(TwoTypeArg::T(*t)),
                Value::RemoteObject(remote) => if remote.is_promise {
                    Ok(TwoTypeArg::U(*remote))
                } else {
                    Err(BuiltinFuncError::new(UErrorMessage::RemoteObjectIsNotPromise))
                },
                _ => invalid_exec(o),
            },
            None => fallback_exec(None, i),
        }
    }

    /// The argument at position `i` (required) as a 32-bit integer; only numbers are
    /// accepted, and they are not parsed from strings.
    pub fn get_as_i32(&self, i: usize) -> (r: BuiltInResult<i32>)
        requires
            i < usize::MAX,
        ensures
            outcome(r, |n: i32| n) == required(self.objects(), i as int, |o: ObjectModel| i32_reading(o)),
    {
        match self.slot_ref(i) {
            Some(o) => match &o.value {
                Value::Num(n) => Ok(saturating_trunc(*n, i32::MIN as i64, i32::MAX as i64) as i32),
                _ => invalid_exec(o),
            },
            None => fallback_exec(None, i),
        }
    }

    /// The arguments from position `i` on as a list of strings: arrays and tables
    /// contribute their items' and keys' texts, EMPTY contributes nothing, and empty
    /// strings are dropped. Fewer than `requires` strings is "argument required" at
    /// position `i + requires`.
    pub fn get_rest_as_string_array(&self, i: usize, needed: usize) -> (r: BuiltInResult<Vec<String>>)
        requires
            i <= self.objects().len(),
            i + needed <= usize::MAX,
        ensures
            outcome(r, |v: Vec<String>| v@.map_values(|s: String| s@)) == rest_strings(self.objects(), i as int, needed as int),
    {
        let rest = self.split_off(i);
        let mut out: Vec<String> = Vec::new();
        let mut k: usize = 0;
        proof {
            lemma_models_len(rest@);
        }
        while k < rest.len()
            invariant
                k <= rest.len(),
                models(rest@).len() == rest@.len(),
                out@.map_values(|s: String| s@) == nonempty(flat_strings(models(rest@).take(k as int))),
            decreases rest.len() - k,
        {
            proof {
                lemma_models_index(rest@, k as int);
            }
            let o = &rest[k];
            let items: Vec<String> = match &o.value {
                Value::Empty => Vec::new(),
                Value::EmptyParam => Vec::new(),
                _ => string_list_of(o),
            };
            let ghost before = out@.map_values(|s: String| s@);
            let mut j: usize = 0;
            while j < items.len()
                invariant
                    j <= items.len(),
                    out@.map_values(|s: String| s@) == before + nonempty(items@.map_values(|s: String| s@).take(j as int)),
                decreases items.len() - j,
            {
                let s = items[j].clone();
                let empty = s.as_str().is_empty();
                let ghost prev = out@.map_values(|s: String| s@);
                if !empty {
                    out.push(s);
                }
                proof {
                    let its = items@.map_values(|s: String| s@);
                    assert(its.take(j + 1).drop_last() =~= its.take(j as int));
                    if !empty {
                        assert(out@.map_values(|s: String| s@) =~= prev.push(items@[j as int]@));
                    }
                }
                j = j + 1;
            }
            proof {
                let its = items@.map_values(|s: String| s@);
                assert(its.take(j as int) =~= its);
                let m = models(rest@).take(k as int + 1);
                assert(m.drop_last() =~= models(rest@).take(k as int));
                assert(m.last() == rest@[k as int].model());
                assert(items@.map_values(|s: String| s@) == item_strings(rest@[k as int].model()));
                lemma_nonempty_concat(flat_strings(m.drop_last()), item_strings(m.last()));
            }
            k = k + 1;
        }
        assert(models(rest@).take(k as int) =~= models(rest@));
        if out.len() < needed {
            Err(BuiltinFuncError::new(UErrorMessage::BuiltinArgRequiredAt(i + needed)))
        } else {
            Ok(out)
        }
    }

    /// The argument at position `i` (required) as a file.
    pub fn get_as_fopen(&self, i: usize) -> (r: BuiltInResult<Fopen>)
        requires
            i < usize::MAX,
        ensures
            outcome(r, |f: Fopen| f) == required(self.objects(), i as int, |o: ObjectModel| match o.value {
                ValueModel::Fopen(f) => Ok(f),
                _ => Err(invalid(o)),
            }),
    {
        match self.slot_ref(i) {
            Some(o) => match &o.value {
                Value::Fopen(f) => Ok(*f),
                _ => invalid_exec(o),
            },
            None => fallback_exec(None, i),
        }
    }

    /// The argument at position `i` as a file or a file name (see `string_or_fopen_reading`).
    pub fn get_as_string_or_fopen(&self, i: usize) -> (r: BuiltInResult<TwoTypeArg<Option<String>, Fopen>>)
        requires
            i < usize::MAX,
        ensures
            outcome(r, |v: TwoTypeArg<Option<String>, Fopen>| match v {
                TwoTypeArg::T(s) => TwoTypeArg::T(opt_view(s, |x: String| x@)),
                TwoTypeArg::U(f) => TwoTypeArg::U(f),
            }) == with_default(self.objects(), i as int, Some(TwoTypeArg::T(None)), |o: ObjectModel| string_or_fopen_reading(o)),
    {
        match self.slot_ref(i) {
            Some(o) => match &o.value {
                Value::EmptyParam => Ok(TwoTypeArg::T(None)),
                Value::Empty => Ok(TwoTypeArg::T(None)),
                Value::Fopen(f) => Ok(TwoTypeArg::U(*f)),
                _ => Ok(TwoTypeArg::T(Some(o.text.clone()))),
            },
            None => Ok(TwoTypeArg::T(None)),
        }
    }

    /// The argument at position `i` as a boolean or a string (see `string_or_bool_reading`).
    pub fn get_as_string_or_bool(&self, i: usize, default: Option<TwoTypeArg<String, bool>>) -> (r: BuiltInResult<TwoTypeArg<String, bool>>)
        requires
            i < usize::MAX,
        ensures
            outcome(r, |v: TwoTypeArg<String, bool>| str_or(v)) == with_default(
                self.objects(),
                i as int,
                opt_view(default, |v: TwoTypeArg<String, bool>| str_or(v)),
                |o: ObjectModel| string_or_bool_reading(o),
            ),
    {
        match self.slot_ref(i) {
            Some(o) => match &o.value {
                Value::EmptyParam => fallback_exec(default, i),
                Value::Empty => Ok(TwoTypeArg::U(false)),
                Value::Bool(b) => Ok(TwoTypeArg::U(*b)),
                Value::String(s) => Ok(TwoTypeArg::T(s.clone())),
                _ => Ok(TwoTypeArg::T(o.text.clone())),
            },
            None => fallback_exec(default, i),
        }
    }

    /// The argument at position `i` (required) as a string or a byte array.
    pub fn get_as_string_or_bytearray(&self, i: usize) -> (r: BuiltInResult<TwoTypeArg<String, Vec<u8>>>)
        requires
            i < usize::MAX,
        ensures
            outcome(r, |v: TwoTypeArg<String, Vec<u8>>| match v {
                TwoTypeArg::T(s) => TwoTypeArg::T(s@),
                TwoTypeArg::U(a) => TwoTypeArg::U(a@),
            }) == required(self.objects(), i as int, |o: ObjectModel| string_or_bytearray_reading(o)),
    {
        match self.slot_ref(i) {
            Some(o) => match &o.value {
                Value::String(s) => Ok(TwoTypeArg::T(s.clone())),
                Value::ByteArray(a) => Ok(TwoTypeArg::U(a.clone())),
                _ => invalid_exec(o),
            },
            None => fallback_exec(None, i),
        }
    }

    /// The argument at position `i` as a user function or a function name (see
    /// `function_or_string_reading`); when `required` is false a missing argument is `None`.
    pub fn get_as_function_or_string(&self, i: usize, required: bool) -> (r: BuiltInResult<Option<TwoTypeArg<String, Function>>>)
        requires
            i < usize::MAX,
        ensures
            outcome(r, |v: Option<TwoTypeArg<String, Function>>| opt_view(v, |x: TwoTypeArg<String, Function>| str_or(x)))
                == with_flag(self.objects(), i as int, required, |o: ObjectModel| function_or_string_reading(o)),
    {
        match self.slot_ref(i) {
            Some(o) => match &o.value {
                Value::Empty => Ok(None),
                Value::EmptyParam => Ok(None),
                Value::AnonFunc(f) => Ok(Some(TwoTypeArg::U(*f))),
                Value::Function(f) => Ok(Some(TwoTypeArg::U(*f))),
                Value::String(s) => if s.as_str().is_empty() {
                    Ok(None)
                } else {
                    Ok(Some(TwoTypeArg::T(s.clone())))
                },
                _ => invalid_exec(o),
            },
            None => if required {
                fallback_exec(None, i)
            } else {
                Ok(None)
            },
        }
    }

    /// The argument at position `i` (required) as a remote object.
    pub fn get_as_remoteobject(&self, i: usize) -> (r: BuiltInResult<RemoteObject>)
        requires
            i < usize::MAX,
        ensures
            outcome(r, |x: RemoteObject| x) == required(self.objects(), i as int, |o: ObjectModel| match o.value {
                ValueModel::RemoteObject(x) => Ok(x),
                _ => Err(invalid(o)),
            }),
    {
        match self.slot_ref(i) {
            Some(o) => match &o.value {
                Value::RemoteObject(x) => Ok(*x),
                _ => invalid_exec(o),
            },
            None => fallback_exec(None, i),
        }
    }

    /// The argument at position `i` (required) as a browser tab.
    pub fn get_as_tabwindow(&self, i: usize) -> (r: BuiltInResult<TabWindow>)
        requires
            i < usize::MAX,
        ensures
            outcome(r, |x: TabWindow| x) == required(self.objects(), i as int, |o: ObjectModel| match o.value {
                ValueModel::TabWindow(x) => Ok(x),
                _ => Err(invalid(o)),
            }),
    {
        match self.slot_ref(i) {
            Some(o) => match &o.value {
                Value::TabWindow(x) => Ok(*x),
                _ => invalid_exec(o),
            },
            None => fallback_exec(None, i),
        }
    }
}

/// A table of named constants, each with its number, that a script selects by number.
pub trait ConstEnum: Sized {
    /// The constant whose number is `n`, if there is one.
    spec fn of_value(n: int) -> Option<Self>;

    /// The constant whose number is `n`, if there is one.
    fn from_value(n: i64) -> (r: Option<Self>)
        ensures
            r == Self::of_value(n as int);
}

/// The constant that a script number selects: a finite number selects by its integer
/// part (rounded toward zero); infinities and NaN select nothing.
pub open spec fn num_const<T: ConstEnum>(n: NumValue) -> Option<T> {
    match n {
        NumValue::Finite { .. } => T::of_value(saturating_cast(n, i64::MIN as int, i64::MAX as int)),
        _ => None,
    }
}

/// A value read as a constant: a number selects one (or none), EMPTY means "not given",
/// anything else is refused.
pub open spec fn const_reading<T: ConstEnum>(o: ObjectModel) -> Result<Option<T>, ErrorModel> {
    match o.value {
        ValueModel::Num(n) => Ok(num_const::<T>(n)),
        ValueModel::Empty | ValueModel::EmptyParam => Ok(None),
        _ => Err(invalid(o)),
    }
}

/// The constant that a script number selects (see `num_const`).
pub fn const_of<T: ConstEnum>(n: NumValue) -> (r: Option<T>)
    ensures
        r == num_const::<T>(n),
{
    match n {
        NumValue::Finite { .. } => T::from_value(saturating_trunc(n, i64::MIN, i64::MAX)),
        _ => None,
    }
}

impl BuiltinFuncArgs {
    /// The argument at position `i` as a constant of `T` (see `const_reading`); when
    /// `required` is false a missing argument is `None`.
    pub fn get_as_const<T: ConstEnum>(&self, i: usize, required: bool) -> (r: BuiltInResult<Option<T>>)
        requires
            i < usize::MAX,
        ensures
            outcome(r, |x: Option<T>| x) == with_flag(self.objects(), i as int, required, |o: ObjectModel| const_reading::<T>(o)),
    {
        match self.slot_ref(i) {
            Some(o) => match &o.value {
                Value::Num(n) => Ok(const_of::<T>(*n)),
                Value::Empty => Ok(None),
                Value::EmptyParam => Ok(None),
                _ => invalid_exec(o),
            },
            None => if required {
                fallback_exec(None, i)
            } else {
                Ok(None)
            },
        }
    }
}

/// What `take_argument` removes and what it leaves make up the arguments again.
pub proof fn law_take_argument_restores(objs: Seq<ObjectModel>, index: int)
    requires
        0 <= index <= objs.len(),
    ensures
        objs.take(index) + objs.skip(index) == objs,
{
    assert(objs.take(index) + objs.skip(index) =~= objs);
}

/// The strings an argument contributes to `get_rest_as_string_array`.
pub open spec fn item_strings(o: ObjectModel) -> Seq<Seq<char>> {
    match o.value {
        ValueModel::Empty | ValueModel::EmptyParam => Seq::empty(),
        _ => string_list(o),
    }
}

/// The strings all of `objs` contribute, in order.
pub open spec fn flat_strings(objs: Seq<ObjectModel>) -> Seq<Seq<char>>
    decreases objs.len(),
{
    if objs.len() == 0 {
        Seq::empty()
    } else {
        flat_strings(objs.drop_last()) + item_strings(objs.last())
    }
}

/// `ss` without its empty strings.
pub open spec fn nonempty(ss: Seq<Seq<char>>) -> Seq<Seq<char>>
    decreases ss.len(),
{
    if ss.len() == 0 {
        Seq::empty()
    } else if ss.last().len() == 0 {
        nonempty(ss.drop_last())
    } else {
        nonempty(ss.drop_last()).push(ss.last())
    }
}

proof fn lemma_nonempty_concat(a: Seq<Seq<char>>, b: Seq<Seq<char>>)
    ensures
        nonempty(a + b) == nonempty(a) + nonempty(b),
    decreases b.len(),
{
    if b.len() == 0 {
        assert(a + b =~= a);
        assert(nonempty(a) + nonempty(b) =~= nonempty(a));
    } else {
        lemma_nonempty_concat(a, b.drop_last());
        assert((a + b).drop_last() =~= a + b.drop_last());
        assert((a + b).last() == b.last());
    }
}

/// What `get_rest_as_string_array` reads from the arguments `objs` from position `i` on.
pub open spec fn rest_strings(objs: Seq<ObjectModel>, i: int, needed: int) -> Result<Seq<Seq<char>>, ErrorModel> {
    let v = nonempty(flat_strings(objs.skip(i)));
    if v.len() < needed {
        Err(ErrorModel::Error(MessageModel::BuiltinArgRequiredAt((i + needed) as usize)))
    } else {
        Ok(v)
    }
}

} // verus!
