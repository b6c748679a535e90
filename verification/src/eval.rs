//! Indexing of script values and indexed assignment, as the interpreter does them for
//! `a[i]` and `a[i][j] = v`. Arrays and byte arrays are handled here; tables, COM
//! objects, browser objects and JSON objects are shared objects outside this library, so
//! what is to be read or written on them is handed back as a request.

use vstd::prelude::*;
use crate::args::{models, NumValue, Object, ObjectModel, OtherKind, RemoteObject, UObject, Value, ValueModel};
use crate::builtin_args::{lemma_models_index, lemma_models_len};
use crate::error::{KindModel, MessageModel, UError, UErrorKind, UErrorMessage, UErrorModel};
use crate::num::{saturating_cast, saturating_trunc};

verus! {

/// A key of a table as the index gives it: the table names its entries by the text of
/// the number, of the boolean (`true`/`false`) or by the string itself.
#[derive(PartialEq, Eq, Clone, Copy, Structural)]
pub enum KeyKind {
    Num(NumValue),
    Bool(bool),
    Text,
}

/// A table key: its kind, and for a string key the string.
pub struct TableKey {
    pub kind: KeyKind,
    pub text: String,
}

/// A table key as plain values.
pub struct TableKeyModel {
    pub kind: KeyKind,
    pub text: Seq<char>,
}

impl TableKey {
    pub open spec fn model(&self) -> TableKeyModel {
        TableKeyModel { kind: self.kind, text: self.text@ }
    }
}

/// The key an index names in a table: numbers, booleans and strings name keys; anything
/// else cannot key a table.
pub open spec fn key_spec(index: ObjectModel) -> Option<TableKeyModel> {
    match index.value {
        ValueModel::Num(n) => Some(TableKeyModel { kind: KeyKind::Num(n), text: Seq::empty() }),
        ValueModel::Bool(b) => Some(TableKeyModel { kind: KeyKind::Bool(b), text: Seq::empty() }),
        ValueModel::String(s) => Some(TableKeyModel { kind: KeyKind::Text, text: s }),
        _ => None,
    }
}

/// The key an index names in a table (see `key_spec`).
pub fn table_key(index: &Object) -> (r: Option<TableKey>)
    ensures
        match r {
            Some(k) => key_spec(index.model()) == Some(k.model()),
            None => key_spec(index.model()) is None,
        },
{
    match &index.value {
        Value::Num(n) => Some(TableKey { kind: KeyKind::Num(*n), text: String::new() }),
        Value::Bool(b) => Some(TableKey { kind: KeyKind::Bool(*b), text: String::new() }),
        Value::String(s) => Some(TableKey { kind: KeyKind::Text, text: s.clone() }),
        _ => None,
    }
}

/// An error of the given kind and message, as plain values.
pub open spec fn err(kind: KindModel, message: MessageModel) -> UErrorModel {
    UErrorModel { kind, message }
}

/// The integer an index number converts to, as `n as i64` does.
pub open spec fn as_i64(n: NumValue) -> int {
    saturating_cast(n, i64::MIN as int, i64::MAX as int)
}

/// The position an index number converts to, as `n as usize` does; a position beyond
/// `isize::MAX`, which no array, table or browser reaches, is taken as `isize::MAX`.
pub open spec fn as_usize(n: NumValue) -> int {
    saturating_cast(n, 0, isize::MAX as int)
}

/// The position an index number converts to (see `as_usize`).
pub fn position_of(n: NumValue) -> (r: usize)
    ensures
        r as int == as_usize(n),
{
    saturating_trunc(n, 0, isize::MAX as i64) as usize
}

// ----- reading by index -----

/// What indexing gives.
pub enum Indexed {
    /// An element of an array.
    Value(Object),
    /// A byte of a byte array (a number).
    Byte(u8),
    /// A read of a table: the key, the key's position when the index is a number, and the
    /// table option (`HASH_EXISTS`, `HASH_REMOVE`, `HASH_KEY`, `HASH_VAL`) when one is given.
    Table { key: TableKey, position: Option<usize>, option: Option<Object> },
    /// A read of a JSON object by this index.
    UObject(UObject, Object),
    /// A read of a COM object (its handle) by this index.
    Com(u64, Object),
    /// A read of a browser object by the text of the index.
    Remote(RemoteObject, String),
    /// The tab of a browser (its handle) at this position.
    Tab(u64, usize),
}

/// What indexing gives, as plain values.
pub enum IndexedModel {
    Value(ObjectModel),
    Byte(u8),
    Table { key: TableKeyModel, position: Option<int>, option: Option<ObjectModel> },
    UObject(UObject, ObjectModel),
    Com(u64, ObjectModel),
    Remote(RemoteObject, Seq<char>),
    Tab(u64, int),
}

impl Indexed {
    pub open spec fn model(&self) -> IndexedModel {
        match self {
            Indexed::Value(o) => IndexedModel::Value(o.model()),
            Indexed::Byte(b) => IndexedModel::Byte(*b),
            Indexed::Table { key, position, option } => IndexedModel::Table {
                key: key.model(),
                position: match position { Some(p) => Some(*p as int), None => None },
                option: match option { Some(o) => Some(o.model()), None => None },
            },
            Indexed::UObject(u, i) => IndexedModel::UObject(*u, i.model()),
            Indexed::Com(h, i) => IndexedModel::Com(*h, i.model()),
            Indexed::Remote(r, s) => IndexedModel::Remote(*r, s@),
            Indexed::Tab(h, p) => IndexedModel::Tab(*h, *p as int),
        }
    }
}

/// The outcome of an indexing, as plain values.
pub open spec fn index_outcome(r: Result<Indexed, UError>) -> Result<IndexedModel, UErrorModel> {
    match r {
        Ok(v) => Ok(v.model()),
        Err(e) => Err(e.model()),
    }
}

/// `left[index]`, or `left[index, option]` when a table option is given:
/// - an array gives its element at the index number converted to an integer, an error
///   when that is past its ends, an error for an index that is no number, and an error
///   when an option is given;
/// - a byte array likewise gives its byte at the index converted to a position (an error
///   "out of bounds" past its end);
/// - a table is read by the key the index names (see `key_spec`), with the index number
///   as a position, and the option;
/// - a JSON object is read by the index (an option is an error); a COM object by the
///   index; a browser object by the text of the index; a browser by a number gives its
///   tab at that position;
/// - anything else cannot be indexed.
pub open spec fn index_value_spec(left: ObjectModel, index: ObjectModel, option: Option<ObjectModel>) -> Result<IndexedModel, UErrorModel> {
    let key_or_index = match option {
        Some(o) => MessageModel::InvalidKeyOrIndex(index, o),
        None => MessageModel::NotAnArray(None),
    };
    match left.value {
        ValueModel::Array(a) => if option is Some {
            Err(err(KindModel::EvaluatorError, key_or_index))
        } else {
            match index.value {
                ValueModel::Num(n) => if 0 <= as_i64(n) < a.len() {
                    Ok(IndexedModel::Value(a[as_i64(n)]))
                } else {
                    Err(err(KindModel::EvaluatorError, MessageModel::IndexOutOfRange(as_i64(n) as i64)))
                },
                _ => Err(err(KindModel::EvaluatorError, MessageModel::InvalidIndex(index))),
            }
        },
        ValueModel::ByteArray(b) => if option is Some {
            Err(err(KindModel::EvaluatorError, key_or_index))
        } else {
            match index.value {
                ValueModel::Num(n) => if as_usize(n) < b.len() {
                    Ok(IndexedModel::Byte(b[as_usize(n)]))
                } else {
                    Err(err(KindModel::EvaluatorError, MessageModel::IndexOutOfRange(as_i64(n) as i64)))
                },
                _ => Err(err(KindModel::EvaluatorError, MessageModel::InvalidIndex(index))),
            }
        },
        ValueModel::HashTbl(_, _) => match key_spec(index) {
            Some(key) => Ok(IndexedModel::Table {
                key,
                position: match index.value { ValueModel::Num(n) => Some(as_usize(n)), _ => None },
                option,
            }),
            None => Err(err(KindModel::EvaluatorError, MessageModel::InvalidIndex(index))),
        },
        ValueModel::UObject(u) => if option is Some {
            Err(err(KindModel::UObjectError, key_or_index))
        } else {
            Ok(IndexedModel::UObject(u, index))
        },
        ValueModel::Other(OtherKind::ComObject, h) => Ok(IndexedModel::Com(h, index)),
        ValueModel::RemoteObject(r) => Ok(IndexedModel::Remote(r, index.text)),
        ValueModel::Other(OtherKind::Browser, h) => match index.value {
            ValueModel::Num(n) => Ok(IndexedModel::Tab(h, as_usize(n))),
            _ => Err(err(KindModel::EvaluatorError, MessageModel::InvalidIndex(index))),
        },
        _ => Err(err(KindModel::Any("Evaluator::get_index_value"@), MessageModel::NotAnArray(Some(left)))),
    }
}

/// `left[index]` (see `index_value_spec`).
pub fn index_value(left: &Object, index: &Object, option: Option<&Object>) -> (r: Result<Indexed, UError>)
    ensures
        index_outcome(r) == index_value_spec(left.model(), index.model(), match option { Some(o) => Some(o.model()), None => None }),
{
    let key_or_index = match option {
        Some(o) => UErrorMessage::InvalidKeyOrIndex(index.duplicate(), o.duplicate()),
        None => UErrorMessage::NotAnArray(None),
    };
    match &left.value {
        Value::Array(a) => {
            if option.is_some() {
                return Err(UError::new(UErrorKind::EvaluatorError, key_or_index));
            }
            match &index.value {
                Value::Num(n) => {
                    let i = saturating_trunc(*n, i64::MIN, i64::MAX);
                    proof {
                        lemma_models_len(a@);
                    }
                    if 0 <= i && (i as u64) < (a.len() as u64) {
                        proof {
                            lemma_models_index(a@, i as int);
                        }
                        Ok(Indexed::Value(a[i as usize].duplicate()))
                    } else {
                        Err(UError::new(UErrorKind::EvaluatorError, UErrorMessage::IndexOutOfRange(i)))
                    }
                },
                _ => Err(UError::new(UErrorKind::EvaluatorError, UErrorMessage::InvalidIndex(index.duplicate()))),
            }
        },
        Value::ByteArray(b) => {
            if option.is_some() {
                return Err(UError::new(UErrorKind::EvaluatorError, key_or_index));
            }
            match &index.value {
                Value::Num(n) => {
                    let p = position_of(*n);
                    if p < b.len() {
                        Ok(Indexed::Byte(b[p]))
                    } else {
                        let i = saturating_trunc(*n, i64::MIN, i64::MAX);
                        Err(UError::new(UErrorKind::EvaluatorError, UErrorMessage::IndexOutOfRange(i)))
                    }
                },
                _ => Err(UError::new(UErrorKind::EvaluatorError, UErrorMessage::InvalidIndex(index.duplicate()))),
            }
        },
        Value::HashTbl(_, _) => match table_key(index) {
            Some(key) => {
                let position = match &index.value {
                    Value::Num(n) => Some(position_of(*n)),
                    _ => None,
                };
                let option = match option {
                    Some(o) => Some(o.duplicate()),
                    None => None,
                };
                Ok(Indexed::Table { key, position, option })
            },
            None => Err(UError::new(UErrorKind::EvaluatorError, UErrorMessage::InvalidIndex(index.duplicate()))),
        },
        Value::UObject(u) => if option.is_some() {
            Err(UError::new(UErrorKind::UObjectError, key_or_index))
        } else {
            Ok(Indexed::UObject(*u, index.duplicate()))
        },
        Value::RemoteObject(r) => Ok(Indexed::Remote(*r, index.text.clone())),
        Value::Other(OtherKind::ComObject, h) => Ok(Indexed::Com(*h, index.duplicate())),
        Value::Other(OtherKind::Browser, h) => match &index.value {
            Value::Num(n) => Ok(Indexed::Tab(*h, position_of(*n))),
            _ => Err(UError::new(UErrorKind::EvaluatorError, UErrorMessage::InvalidIndex(index.duplicate()))),
        },
        _ => Err(UError::new(
            UErrorKind::Any(String::from_str("Evaluator::get_index_value")),
            UErrorMessage::NotAnArray(Some(left.duplicate())),
        )),
    }
}


// ----- indexed assignment -----

/// A write that the caller makes on a shared object: a table entry (the caller reads
/// the entry at `key`, updates it with the remaining indexes `rest` through
/// `update_array_object`, and stores it back), an element of a COM object (its handle),
/// or a member of a browser object named by the text of the index.
pub enum WriteTarget {
    Table { key: TableKey, rest: Vec<Object> },
    Com(u64, Object),
    Remote(RemoteObject, String),
}

/// A write on a shared object, and the array positions that lead to it from the value
/// being assigned to.
pub struct PendingWrite {
    pub path: Vec<usize>,
    pub target: WriteTarget,
}

/// What an indexed assignment does to its target: the value to store in the variable
/// when there is one and `update` is set (`None` with `update`: the new value itself),
/// and the write left for the caller on a shared object, if any.
pub struct Assigned {
    pub value: Option<Object>,
    pub update: bool,
    pub pending: Option<PendingWrite>,
}

/// A write target as plain values.
pub enum WriteTargetModel {
    Table { key: TableKeyModel, rest: Seq<ObjectModel> },
    Com(u64, ObjectModel),
    Remote(RemoteObject, Seq<char>),
}

/// An indexed assignment as plain values.
pub struct AssignedModel {
    pub value: Option<ObjectModel>,
    pub update: bool,
    pub pending: Option<(Seq<usize>, WriteTargetModel)>,
}

impl WriteTarget {
    pub open spec fn model(&self) -> WriteTargetModel {
        match self {
            WriteTarget::Table { key, rest } => WriteTargetModel::Table { key: key.model(), rest: models(rest@) },
            WriteTarget::Com(h, i) => WriteTargetModel::Com(*h, i.model()),
            WriteTarget::Remote(r, s) => WriteTargetModel::Remote(*r, s@),
        }
    }
}

impl Assigned {
    pub open spec fn model(&self) -> AssignedModel {
        AssignedModel {
            value: match &self.value { Some(o) => Some(o.model()), None => None },
            update: self.update,
            pending: match &self.pending { Some(p) => Some((p.path@, p.target.model())), None => None },
        }
    }
}

/// The outcome of an indexed assignment, as plain values.
pub open spec fn update_outcome(r: Result<Assigned, UError>) -> Result<AssignedModel, UErrorModel> {
    match r {
        Ok(a) => Ok(a.model()),
        Err(e) => Err(e.model()),
    }
}

/// The element an array holds after the assignment below it.
pub open spec fn element_after(old: ObjectModel, inner: AssignedModel, new: ObjectModel) -> ObjectModel {
    if inner.update {
        match inner.value {
            Some(v) => v,
            None => new,
        }
    } else {
        old
    }
}

/// `array[...][i] = new`, where `dims` are the indexes with the outermost last:
/// - with no index left the new value replaces the target;
/// - in an array, the index number converted to a position selects an element (an
///   error when it is past the end or the index is no number); the element is assigned
///   the remaining indexes, and the array with that element replaced is stored; a write
///   on a shared object further down is passed on with the position added in front of
///   its path;
/// - in a byte array, the position selects a byte, which becomes the new value when that
///   is a number whose integer part fits in a byte (the remaining indexes are not used);
/// - a table, a COM object or a browser object gets the write as a request, and the
///   variable is not updated;
/// - anything else cannot be assigned by index.
/// An array that is stored again keeps the text and truth value it had.
pub open spec fn update_array_spec(array: ObjectModel, dims: Seq<ObjectModel>, new: ObjectModel) -> Result<AssignedModel, UErrorModel>
    decreases dims.len(),
{
    if dims.len() == 0 {
        Ok(AssignedModel { value: None, update: true, pending: None })
    } else {
        let index = dims.last();
        let rest = dims.drop_last();
        match array.value {
            ValueModel::Array(a) => match index.value {
                ValueModel::Num(n) => if as_usize(n) < a.len() {
                    let i = as_usize(n);
                    match update_array_spec(a[i], rest, new) {
                        Err(e) => Err(e),
                        Ok(inner) => Ok(AssignedModel {
                            value: Some(ObjectModel {
                                value: ValueModel::Array(a.update(i, element_after(a[i], inner, new))),
                                text: array.text,
                                truthy: array.truthy,
                            }),
                            update: true,
                            pending: match inner.pending {
                                Some((path, t)) => Some((seq![i as usize] + path, t)),
                                None => None,
                            },
                        }),
                    }
                } else {
                    Err(err(KindModel::AssignError, MessageModel::IndexOutOfRange(as_i64(n) as i64)))
                },
                _ => Err(err(KindModel::AssignError, MessageModel::InvalidIndex(index))),
            },
            ValueModel::HashTbl(_, _) => match key_spec(index) {
                Some(key) => Ok(AssignedModel {
                    value: None,
                    update: false,
                    pending: Some((Seq::empty(), WriteTargetModel::Table { key, rest })),
                }),
                None => Err(err(KindModel::AssignError, MessageModel::InvalidIndex(index))),
            },
            ValueModel::Other(OtherKind::ComObject, h) => Ok(AssignedModel {
                value: None,
                update: false,
                pending: Some((Seq::empty(), WriteTargetModel::Com(h, index))),
            }),
            ValueModel::ByteArray(b) => match index.value {
                ValueModel::Num(n) => if as_usize(n) < b.len() {
                    match new.value {
                        ValueModel::Num(m) => if 0 <= as_i64(m) <= 255 {
                            Ok(AssignedModel {
                                value: Some(ObjectModel {
                                    value: ValueModel::ByteArray(b.update(as_usize(n), as_i64(m) as u8)),
                                    text: array.text,
                                    truthy: array.truthy,
                                }),
                                update: true,
                                pending: None,
                            })
                        } else {
                            Err(err(KindModel::AssignError, MessageModel::NotAnByte(new)))
                        },
                        _ => Err(err(KindModel::AssignError, MessageModel::NotAnByte(new))),
                    }
                } else {
                    Err(err(KindModel::AssignError, MessageModel::InvalidIndex(index)))
                },
                _ => Err(err(KindModel::AssignError, MessageModel::InvalidIndex(index))),
            },
            ValueModel::RemoteObject(r) => Ok(AssignedModel {
                value: None,
                update: false,
                pending: Some((Seq::empty(), WriteTargetModel::Remote(r, index.text))),
            }),
            _ => Err(err(KindModel::AssignError, MessageModel::NotAnArray(None))),
        }
    }
}

proof fn lemma_models_update(v: Seq<Object>, i: int, x: Object)
    requires
        0 <= i < v.len(),
    ensures
        models(v.update(i, x)) == models(v).update(i, x.model()),
{
    lemma_models_len(v);
    lemma_models_len(v.update(i, x));
    assert forall|k: int| 0 <= k < v.len() implies #[trigger] models(v.update(i, x))[k] == models(v).update(i, x.model())[k] by {
        lemma_models_index(v.update(i, x), k);
        lemma_models_index(v, k);
    }
    assert(models(v.update(i, x)) =~= models(v).update(i, x.model()));
}

/// `array[...] = new` (see `update_array_spec`).
pub fn update_array_object(array: Object, dimension: Vec<Object>, new: &Object) -> (r: Result<Assigned, UError>)
    ensures
        update_outcome(r) == update_array_spec(array.model(), models(dimension@), new.model()),
    decreases dimension@.len(),
{
    let ghost whole = dimension@;
    let mut dimension = dimension;
    let index = match dimension.pop() {
        Some(i) => i,
        None => return Ok(Assigned { value: None, update: true, pending: None }),
    };
    proof {
        assert(whole.drop_last() == dimension@);
        assert(models(whole) == models(dimension@).push(index.model()));
        assert(models(whole).last() == index.model());
        assert(models(whole).drop_last() =~= models(dimension@));
    }
    let text = array.text;
    let truthy = array.truthy;
    match array.value {
        Value::Array(mut a) => match &index.value {
            Value::Num(n) => {
                let p = position_of(*n);
                proof {
                    lemma_models_len(a@);
                }
                if p < a.len() {
                    proof {
                        lemma_models_index(a@, p as int);
                    }
                    let old_elem = a[p].duplicate();
                    let inner = match update_array_object(a[p].duplicate(), dimension, new) {
                        Ok(x) => x,
                        Err(e) => return Err(e),
                    };
                    let ghost inner_model = inner.model();
                    let elem = if inner.update {
                        match inner.value {
                            Some(v) => v,
                            None => new.duplicate(),
                        }
                    } else {
                        old_elem
                    };
                    let ghost a_old = a@;
                    a.set(p, elem);
                    proof {
                        lemma_models_update(a_old, p as int, elem);
                    }
                    let pending = match inner.pending {
                        Some(w) => {
                            let mut path = w.path;
                            path.insert(0, p);
                            proof {
                                assert(path@ =~= seq![p] + inner_model.pending.unwrap().0);
                            }
                            Some(PendingWrite { path, target: w.target })
                        },
                        None => None,
                    };
                    Ok(Assigned { value: Some(Object { value: Value::Array(a), text, truthy }), update: true, pending })
                } else {
                    let i = saturating_trunc(*n, i64::MIN, i64::MAX);
                    Err(UError::new(UErrorKind::AssignError, UErrorMessage::IndexOutOfRange(i)))
                }
            },
            _ => Err(UError::new(UErrorKind::AssignError, UErrorMessage::InvalidIndex(index.duplicate()))),
        },
        Value::HashTbl(_, _) => match table_key(&index) {
            Some(key) => Ok(Assigned {
                value: None,
                update: false,
                pending: Some(PendingWrite { path: Vec::new(), target: WriteTarget::Table { key, rest: dimension } }),
            }),
            None => Err(UError::new(UErrorKind::AssignError, UErrorMessage::InvalidIndex(index.duplicate()))),
        },
        Value::Other(OtherKind::ComObject, h) => Ok(Assigned {
            value: None,
            update: false,
            pending: Some(PendingWrite { path: Vec::new(), target: WriteTarget::Com(h, index.duplicate()) }),
        }),
        Value::ByteArray(mut b) => match &index.value {
            Value::Num(n) => {
                let p = position_of(*n);
                if p < b.len() {
                    match &new.value {
                        Value::Num(m) => {
                            let v = saturating_trunc(*m, i64::MIN, i64::MAX);
                            if 0 <= v && v <= 255 {
                                b.set(p, v as u8);
                                Ok(Assigned {
                                    value: Some(Object { value: Value::ByteArray(b), text, truthy }),
                                    update: true,
                                    pending: None,
                                })
                            } else {
                                Err(UError::new(UErrorKind::AssignError, UErrorMessage::NotAnByte(new.duplicate())))
                            }
                        },
                        _ => Err(UError::new(UErrorKind::AssignError, UErrorMessage::NotAnByte(new.duplicate()))),
                    }
                } else {
                    Err(UError::new(UErrorKind::AssignError, UErrorMessage::InvalidIndex(index.duplicate())))
                }
            },
            _ => Err(UError::new(UErrorKind::AssignError, UErrorMessage::InvalidIndex(index.duplicate()))),
        },
        Value::RemoteObject(r) => Ok(Assigned {
            value: None,
            update: false,
            pending: Some(PendingWrite { path: Vec::new(), target: WriteTarget::Remote(r, index.text.clone()) }),
        }),
        _ => Err(UError::new(UErrorKind::AssignError, UErrorMessage::NotAnArray(None))),
    }
}


// ----- array definitions -----

/// The length of `array[n]`: one more than the highest index `n` (an index number is
/// rounded toward zero; a negative or NaN index gives no element, an infinite one as
/// many as a position can hold, and an index beyond `i64::MAX` is taken as `i64::MAX`).
pub open spec fn array_size_spec(n: NumValue) -> int {
    match n {
        NumValue::Finite { mantissa, exponent } => if mantissa >= 0 {
            clamp_size(saturating_cast(n, 0, i64::MAX as int) + 1)
        } else {
            0
        },
        NumValue::PosInfinity => usize::MAX as int,
        _ => 0,
    }
}

/// A length brought into what `usize` holds.
pub open spec fn clamp_size(k: int) -> int {
    if k > usize::MAX { usize::MAX as int } else { k }
}

/// The elements of `array[size] = values`: the values, cut to the length the size
/// gives or filled up with EMPTY (see `array_size_spec`); with an EMPTY size the values
/// as they are; any other size is an error.
pub open spec fn define_array_spec(values: Seq<ObjectModel>, size: ObjectModel) -> Result<Seq<ObjectModel>, UErrorModel> {
    match size.value {
        ValueModel::Num(n) => {
            let len = array_size_spec(n);
            Ok(Seq::new(len as nat, |k: int| if k < values.len() { values[k] } else { empty_model() }))
        },
        ValueModel::Empty => Ok(values),
        _ => Err(err(KindModel::ArrayError, MessageModel::InvalidIndex(size))),
    }
}

/// The EMPTY value as plain values.
pub open spec fn empty_model() -> ObjectModel {
    ObjectModel { value: ValueModel::Empty, text: Seq::empty(), truthy: false }
}

/// The elements of `array[size] = values` (see `define_array_spec`).
pub fn define_array(values: Vec<Object>, size: &Object) -> (r: Result<Vec<Object>, UError>)
    ensures
        match r {
            Ok(v) => define_array_spec(models(values@), size.model()) == Ok::<Seq<ObjectModel>, UErrorModel>(models(v@)),
            Err(e) => define_array_spec(models(values@), size.model()) == Err::<Seq<ObjectModel>, UErrorModel>(e.model()),
        },
{
    proof {
        lemma_models_len(values@);
    }
    match &size.value {
        Value::Num(n) => {
            let len: usize = match n {
                NumValue::Finite { mantissa, .. } => if *mantissa >= 0 {
                    let t = saturating_trunc(*n, 0, i64::MAX);
                    if (t as u64) >= (usize::MAX as u64) { usize::MAX } else { t as usize + 1 }
                } else {
                    0
                },
                NumValue::PosInfinity => usize::MAX,
                _ => 0,
            };
            assert(len as int == array_size_spec(*n));
            let mut out: Vec<Object> = Vec::new();
            let mut k: usize = 0;
            let ghost want = Seq::new(len as nat, |j: int| if j < values@.len() { models(values@)[j] } else { empty_model() });
            while k < len
                invariant
                    k <= len,
                    out@.len() == k,
                    models(values@).len() == values@.len(),
                    want == Seq::new(len as nat, |j: int| if j < values@.len() { models(values@)[j] } else { empty_model() }),
                    models(out@) == want.take(k as int),
                decreases len - k,
            {
                let item = if k < values.len() {
                    proof {
                        lemma_models_index(values@, k as int);
                    }
                    values[k].duplicate()
                } else {
                    Object::empty()
                };
                let ghost before = out@;
                out.push(item);
                proof {
                    assert(out@.drop_last() =~= before);
                    assert(want.take(k as int + 1) =~= want.take(k as int).push(item.model()));
                }
                k = k + 1;
            }
            proof {
                assert(want.take(len as int) =~= want);
            }
            Ok(out)
        },
        Value::Empty => Ok(values),
        _ => Err(UError::new(UErrorKind::ArrayError, UErrorMessage::InvalidIndex(size.duplicate()))),
    }
}


/// The bound of one dimension of `array[n1][n2]...`: the highest index, rounded toward
/// zero into a position; an omitted bound (EMPTY, only allowed for the first dimension)
/// and a bound that reaches `usize::MAX` both stand as `usize::MAX` (a bound beyond
/// `i64::MAX` is taken as `i64::MAX`).
pub open spec fn bound_spec(o: ObjectModel, first: bool) -> Result<usize, UErrorModel> {
    match o.value {
        ValueModel::Num(n) => Ok(clamp_size(saturating_cast(n, 0, i64::MAX as int)) as usize),
        ValueModel::Empty => if first {
            Ok(usize::MAX)
        } else {
            Err(err(KindModel::ArrayError, MessageModel::ArraySizeOmitted))
        },
        _ => Err(err(KindModel::ArrayError, MessageModel::InvalidIndex(o))),
    }
}

/// The bounds of all dimensions, the first error stopping the reading.
pub open spec fn bounds_spec(os: Seq<ObjectModel>) -> Result<Seq<usize>, UErrorModel>
    decreases os.len(),
{
    if os.len() == 0 {
        Ok(Seq::empty())
    } else {
        match bounds_spec(os.drop_last()) {
            Err(e) => Err(e),
            Ok(bs) => match bound_spec(os.last(), os.len() == 1) {
                Err(e) => Err(e),
                Ok(b) => Ok(bs.push(b)),
            },
        }
    }
}

/// The bounds of `array[n1][n2]...` (see `bound_spec`).
pub fn array_bounds(bounds: &Vec<Object>) -> (r: Result<Vec<usize>, UError>)
    ensures
        match r {
            Ok(v) => bounds_spec(models(bounds@)) == Ok::<Seq<usize>, UErrorModel>(v@),
            Err(e) => bounds_spec(models(bounds@)) == Err::<Seq<usize>, UErrorModel>(e.model()),
        },
{
    proof {
        lemma_models_len(bounds@);
    }
    let mut out: Vec<usize> = Vec::new();
    let mut k: usize = 0;
    while k < bounds.len()
        invariant
            k <= bounds@.len(),
            models(bounds@).len() == bounds@.len(),
            bounds_spec(models(bounds@).take(k as int)) == Ok::<Seq<usize>, UErrorModel>(out@),
        decreases bounds.len() - k,
    {
        proof {
            lemma_models_index(bounds@, k as int);
            assert(models(bounds@).take(k as int + 1).drop_last() =~= models(bounds@).take(k as int));
            assert(models(bounds@).take(k as int + 1).last() == bounds@[k as int].model());
        }
        let o = &bounds[k];
        let b = match &o.value {
            Value::Num(n) => {
                let t = saturating_trunc(*n, 0, i64::MAX);
                if (t as u64) >= (usize::MAX as u64) { usize::MAX } else { t as usize }
            },
            Value::Empty => if k == 0 {
                usize::MAX
            } else {
                proof {
                    lemma_bounds_prefix_error(models(bounds@), k as int + 1);
                }
                return Err(UError::new(UErrorKind::ArrayError, UErrorMessage::ArraySizeOmitted));
            },
            _ => {
                proof {
                    lemma_bounds_prefix_error(models(bounds@), k as int + 1);
                }
                return Err(UError::new(UErrorKind::ArrayError, UErrorMessage::InvalidIndex(o.duplicate())));
            },
        };
        proof {
            if let ValueModel::Num(n) = o.model().value {
                assert(b as int == clamp_size(saturating_cast(n, 0, i64::MAX as int)));
            }
        }
        out.push(b);
        k = k + 1;
    }
    proof {
        assert(models(bounds@).take(k as int) =~= models(bounds@));
    }
    Ok(out)
}

/// An error in reading the first `k` bounds is the error of reading them all.
proof fn lemma_bounds_prefix_error(os: Seq<ObjectModel>, k: int)
    requires
        1 <= k <= os.len(),
        bounds_spec(os.take(k)) is Err,
    ensures
        bounds_spec(os) == bounds_spec(os.take(k)),
    decreases os.len() - k,
{
    if k < os.len() {
        assert(os.take(k + 1).drop_last() =~= os.take(k));
        lemma_bounds_prefix_error(os, k + 1);
    } else {
        assert(os.take(k) =~= os);
    }
}

/// The items of one dimension grouped: consecutive groups of `bound + 1` items (all of
/// them in one group for a bound of `usize::MAX`), the last group shorter when the items
/// run out; no items make one empty group.
pub open spec fn chunks_spec(items: Seq<ObjectModel>, bound: usize) -> Seq<Seq<ObjectModel>> {
    let w: int = if bound == usize::MAX { items.len() as int + 1 } else { bound as int + 1 };
    let n: int = if items.len() == 0 { 1 } else { (items.len() + w - 1) / w };
    Seq::new(n as nat, |g: int| items.subrange(
        if g * w <= items.len() { g * w } else { items.len() as int },
        if (g + 1) * w <= items.len() { (g + 1) * w } else { items.len() as int },
    ))
}


/// Copies of the items from `a` up to `b`.
fn copy_range(items: &Vec<Object>, a: usize, b: usize) -> (r: Vec<Object>)
    requires
        a <= b <= items@.len(),
    ensures
        models(r@) == models(items@).subrange(a as int, b as int),
{
    proof {
        lemma_models_len(items@);
    }
    let mut out: Vec<Object> = Vec::new();
    let mut k = a;
    while k < b
        invariant
            a <= k <= b <= items@.len(),
            models(items@).len() == items@.len(),
            models(out@) == models(items@).subrange(a as int, k as int),
        decreases b - k,
    {
        proof {
            lemma_models_index(items@, k as int);
        }
        let x = items[k].duplicate();
        let ghost before = out@;
        out.push(x);
        proof {
            assert(out@.drop_last() =~= before);
            assert(models(items@).subrange(a as int, k as int + 1) =~= models(items@).subrange(a as int, k as int).push(x.model()));
        }
        k = k + 1;
    }
    out
}

/// The groups of one dimension (see `chunks_spec`).
pub fn chunks(items: &Vec<Object>, bound: usize) -> (r: Vec<Vec<Object>>)
    ensures
        r@.len() == chunks_spec(models(items@), bound).len(),
        forall|g: int| 0 <= g < r@.len() ==> models((#[trigger] r@[g])@) == chunks_spec(models(items@), bound)[g],
{
    proof {
        lemma_models_len(items@);
    }
    let len = items.len();
    let ghost m = models(items@);
    let ghost spec = chunks_spec(m, bound);
    let mut out: Vec<Vec<Object>> = Vec::new();
    if bound == usize::MAX || bound >= len {
        let all = copy_range(items, 0, len);
        out.push(all);
        proof {
            let w: int = if bound == usize::MAX { len as int + 1 } else { bound as int + 1 };
            assert(w >= len + 1);
            if len > 0 {
                assert((len + w - 1) / w == 1) by (nonlinear_arith)
                    requires w >= len + 1, len >= 1;
            }
            assert(spec.len() == 1);
            assert(0 * w <= len);
            assert(spec[0] =~= m.subrange(0, len as int));
        }
        return out;
    }
    let w: usize = bound + 1;
    let mut start: usize = 0;
    let mut g: usize = 0;
    while start < len
        invariant
            0 < w <= len,
            w == bound + 1,
            bound != usize::MAX,
            len == items@.len(),
            m == models(items@),
            m.len() == len,
            spec == chunks_spec(m, bound),
            start <= len,
            start as int == (if g * w <= len { g * w } else { len as int }),
            g >= 1 ==> (g - 1) * w < len,
            out@.len() == g,
            forall|j: int| 0 <= j < g ==> models((#[trigger] out@[j])@) == m.subrange(
                if j * w <= len { j * w } else { len as int },
                if (j + 1) * w <= len { (j + 1) * w } else { len as int }),
        decreases len - start,
    {
        let end = if len - start >= w { start + w } else { len };
        proof {
            assert(start as int == g * w);
            assert((g + 1) * w == g * w + w) by (nonlinear_arith);
            assert(g < len) by (nonlinear_arith)
                requires g * w < len, w >= 1, g >= 0;
        }
        let group = copy_range(items, start, end);
        out.push(group);
        proof {
            assert forall|j: int| 0 <= j < g + 1 implies models((#[trigger] out@[j])@) == m.subrange(
                if j * w <= len { j * w } else { len as int },
                if (j + 1) * w <= len { (j + 1) * w } else { len as int }) by {
                if j == g {
                    assert(out@[j] == group);
                } else {
                    assert(out@[j] == out@.drop_last()[j]);
                }
            }
        }
        start = end;
        g = g + 1;
    }
    proof {
        assert(len > 0);
        assert(g >= 1) by {
            if g == 0 {
                assert(start == 0);
            }
        }
        assert(g * w >= len);
        let n: int = (len as int + w as int - 1) / (w as int);
        assert(n == g) by (nonlinear_arith)
            requires
                n == (len as int + w as int - 1) / (w as int),
                (g - 1) * w < len,
                g * w >= len,
                w > 0,
                g >= 1;
        assert forall|j: int| 0 <= j < out@.len() implies models((#[trigger] out@[j])@) == spec[j] by {
        }
    }
    out
}


/// The number of items a dimension with this bound holds (all that are there for an
/// omitted bound, marked `usize::MAX`).
pub open spec fn dim_len(n: usize) -> int {
    if n == usize::MAX { usize::MAX as int } else { n + 1 }
}

/// The length an omitted dimension gets: enough groups of `acc` to hold `l` items.
pub open spec fn omitted_len(l: int, acc: int) -> int {
    l / acc + (if l % acc == 0 { 0int } else { 1int })
}

/// The total number of items, multiplying the dimension lengths from the innermost (the
/// last bound) out; an omitted length is worked out from the `l` values given, and a
/// product that does not fit in `usize` counts as 0.
pub open spec fn size_fold(r: Seq<usize>, l: int, j: int, acc: int) -> int
    decreases r.len() - j,
{
    if j < 1 || j >= r.len() {
        acc
    } else {
        let b = if dim_len(r[j]) == usize::MAX { omitted_len(l, acc) } else { dim_len(r[j]) };
        size_fold(r, l, j + 1, if acc * b <= usize::MAX { acc * b } else { 0 })
    }
}

/// Whether working out the total never divides by an empty product.
pub open spec fn size_fold_safe(r: Seq<usize>, l: int, j: int, acc: int) -> bool
    decreases r.len() - j,
{
    if j < 1 || j >= r.len() {
        true
    } else {
        let omitted = dim_len(r[j]) == usize::MAX;
        let b = if omitted { omitted_len(l, acc) } else { dim_len(r[j]) };
        (omitted ==> acc != 0) && size_fold_safe(r, l, j + 1, if acc * b <= usize::MAX { acc * b } else { 0 })
    }
}

/// The total number of items of `array[n1][n2]...` with `l` values: the product of the
/// dimension lengths (see `size_fold`), an error when it is 0.
pub open spec fn total_size_spec(bounds: Seq<usize>, l: int) -> Result<int, UErrorModel> {
    let r = bounds.reverse();
    let n = size_fold(r, l, 1, dim_len(r[0]));
    if n == 0 {
        Err(err(KindModel::ArrayError, MessageModel::InvalidArraySize))
    } else {
        Ok(n)
    }
}

/// The total number of items of `array[n1][n2]...` (see `total_size_spec`).
pub fn total_size(bounds: &Vec<usize>, l: usize) -> (r: Result<usize, UError>)
    requires
        bounds@.len() >= 1,
        size_fold_safe(bounds@.reverse(), l as int, 1, dim_len(bounds@.reverse()[0])),
    ensures
        match r {
            Ok(n) => total_size_spec(bounds@, l as int) == Ok::<int, UErrorModel>(n as int),
            Err(e) => total_size_spec(bounds@, l as int) == Err::<int, UErrorModel>(e.model()),
        },
{
    let ghost rv = bounds@.reverse();
    let d = bounds.len();
    let first = bounds[d - 1];
    let mut acc: usize = if first == usize::MAX { usize::MAX } else { first + 1 };
    let mut j: usize = 1;
    assert(rv[0] == first);
    while j < d
        invariant
            d == bounds@.len(),
            rv == bounds@.reverse(),
            1 <= j <= d,
            size_fold(rv, l as int, 1, dim_len(rv[0])) == size_fold(rv, l as int, j as int, acc as int),
            size_fold_safe(rv, l as int, j as int, acc as int),
        decreases d - j,
    {
        let n = bounds[d - 1 - j];
        assert(rv[j as int] == n);
        let m: usize = if n == usize::MAX { usize::MAX } else { n + 1 };
        assert(m as int == dim_len(n));
        let b: usize = if m == usize::MAX {
            assert(acc != 0);
            let q = l / acc;
            if l % acc == 0 {
                q
            } else {
                assert(q < usize::MAX) by (nonlinear_arith)
                    requires q == l / acc, acc >= 1, l % acc != 0;
                q + 1
            }
        } else {
            m
        };
        let ghost old_acc = acc as int;
        assert(b as int == (if dim_len(rv[j as int]) == usize::MAX { omitted_len(l as int, old_acc) } else { dim_len(rv[j as int]) }));
        acc = match acc.checked_mul(b) {
            Some(p) => p,
            None => 0,
        };
        assert(acc as int == (if old_acc * b <= usize::MAX { old_acc * b } else { 0 }));
        j = j + 1;
    }
    if acc == 0 {
        Err(UError::new(UErrorKind::ArrayError, UErrorMessage::InvalidArraySize))
    } else {
        Ok(acc)
    }
}


// ----- laws -----

/// A script number that is the whole number `i`.
pub open spec fn whole(i: int, text: Seq<char>, truthy: bool) -> ObjectModel {
    ObjectModel { value: ValueModel::Num(NumValue::Finite { mantissa: i as i64, exponent: 0 }), text, truthy }
}

proof fn lemma_whole_number(i: i64)
    ensures
        as_i64(NumValue::Finite { mantissa: i, exponent: 0 }) == i,
        i >= 0 ==> as_usize(NumValue::Finite { mantissa: i, exponent: 0 }) == (if i <= isize::MAX { i as int } else { isize::MAX as int }),
{
    vstd::arithmetic::power2::lemma2_to64();
    assert(crate::num::trunc_of(i as int, 0) == i as int * 1);
}

/// Indexing an array by a whole number `i` gives its element `i` when `0 <= i < len`,
/// and otherwise the out-of-range error naming `i`; indexing a byte array by a whole
/// number inside it gives that byte (positions are at most `isize::MAX`).
pub proof fn law_index_whole_number(a: Seq<ObjectModel>, b: Seq<u8>, i: i64, at: Seq<char>, t: bool, it: Seq<char>, ib: bool)
    ensures
        0 <= i < a.len() ==> index_value_spec(ObjectModel { value: ValueModel::Array(a), text: at, truthy: t },
            whole(i as int, it, ib), None) == Ok::<IndexedModel, UErrorModel>(IndexedModel::Value(a[i as int])),
        !(0 <= i < a.len()) ==> index_value_spec(ObjectModel { value: ValueModel::Array(a), text: at, truthy: t },
            whole(i as int, it, ib), None) == Err::<IndexedModel, UErrorModel>(
                UErrorModel { kind: KindModel::EvaluatorError, message: MessageModel::IndexOutOfRange(i) }),
        0 <= i < b.len() && i <= isize::MAX ==> index_value_spec(ObjectModel { value: ValueModel::ByteArray(b), text: at, truthy: t },
            whole(i as int, it, ib), None) == Ok::<IndexedModel, UErrorModel>(IndexedModel::Byte(b[i as int])),
{
    lemma_whole_number(i);
}

/// A table read by a whole number `i >= 0` is keyed by that number and reports the
/// position `i` (positions stop at `isize::MAX`), passing the option on; a table read by
/// a string is keyed by the string, with no position; a browser read by `i` gives its tab
/// at position `i`.
pub proof fn law_index_table_and_tabs(keys: Seq<ObjectModel>, vals: Seq<ObjectModel>, i: i64, h: u64, s: Seq<char>,
    at: Seq<char>, t: bool, it: Seq<char>, ib: bool, st: bool, option: Option<ObjectModel>)
    requires
        0 <= i <= isize::MAX,
    ensures
        index_value_spec(ObjectModel { value: ValueModel::HashTbl(keys, vals), text: at, truthy: t }, whole(i as int, it, ib), option)
            == Ok::<IndexedModel, UErrorModel>(IndexedModel::Table {
                key: TableKeyModel { kind: KeyKind::Num(NumValue::Finite { mantissa: i, exponent: 0 }), text: Seq::empty() },
                position: Some(i as int),
                option,
            }),
        index_value_spec(ObjectModel { value: ValueModel::HashTbl(keys, vals), text: at, truthy: t },
            ObjectModel { value: ValueModel::String(s), text: s, truthy: st }, option)
            == Ok::<IndexedModel, UErrorModel>(IndexedModel::Table {
                key: TableKeyModel { kind: KeyKind::Text, text: s },
                position: None,
                option,
            }),
        index_value_spec(ObjectModel { value: ValueModel::Other(OtherKind::Browser, h), text: at, truthy: t }, whole(i as int, it, ib), option)
            == Ok::<IndexedModel, UErrorModel>(IndexedModel::Tab(h, i as int)),
{
    lemma_whole_number(i);
}

/// Assigning `a[i] = new` for a whole number `i` inside the array replaces element `i`
/// by the new value and keeps every other element; the variable is updated.
pub proof fn law_assign_whole_number(a: Seq<ObjectModel>, i: i64, new: ObjectModel, at: Seq<char>, t: bool, it: Seq<char>, ib: bool)
    requires
        0 <= i < a.len(),
        i <= isize::MAX,
    ensures
        update_array_spec(ObjectModel { value: ValueModel::Array(a), text: at, truthy: t }, seq![whole(i as int, it, ib)], new)
            == Ok::<AssignedModel, UErrorModel>(AssignedModel {
                value: Some(ObjectModel { value: ValueModel::Array(a.update(i as int, new)), text: at, truthy: t }),
                update: true,
                pending: None,
            }),
{
    lemma_whole_number(i);
    let dims = seq![whole(i as int, it, ib)];
    assert(dims.drop_last() =~= Seq::<ObjectModel>::empty());
    assert(dims.last() == whole(i as int, it, ib));
    assert(update_array_spec(a[i as int], Seq::<ObjectModel>::empty(), new)
        == Ok::<AssignedModel, UErrorModel>(AssignedModel { value: None, update: true, pending: None }));
}

/// Assigning `a[i][j] = new` for whole numbers inside a two-dimensional array replaces
/// element `j` of row `i` and keeps every other element of that row and every other
/// row; the row keeps its text and truth value.
pub proof fn law_assign_two_dimensional(a: Seq<ObjectModel>, row: Seq<ObjectModel>, i: i64, j: i64, new: ObjectModel,
    at: Seq<char>, t: bool, rt: Seq<char>, rb: bool, it: Seq<char>, ib: bool, jt: Seq<char>, jb: bool)
    requires
        0 <= i < a.len(),
        i <= isize::MAX,
        0 <= j < row.len(),
        j <= isize::MAX,
        a[i as int] == (ObjectModel { value: ValueModel::Array(row), text: rt, truthy: rb }),
    ensures
        update_array_spec(ObjectModel { value: ValueModel::Array(a), text: at, truthy: t },
            seq![whole(j as int, jt, jb), whole(i as int, it, ib)], new)
            == Ok::<AssignedModel, UErrorModel>(AssignedModel {
                value: Some(ObjectModel {
                    value: ValueModel::Array(a.update(i as int,
                        ObjectModel { value: ValueModel::Array(row.update(j as int, new)), text: rt, truthy: rb })),
                    text: at,
                    truthy: t,
                }),
                update: true,
                pending: None,
            }),
{
    lemma_whole_number(i);
    lemma_whole_number(j);
    let dims = seq![whole(j as int, jt, jb), whole(i as int, it, ib)];
    assert(dims.drop_last() =~= seq![whole(j as int, jt, jb)]);
    assert(dims.last() == whole(i as int, it, ib));
    let inner = seq![whole(j as int, jt, jb)];
    assert(inner.drop_last() =~= Seq::<ObjectModel>::empty());
    assert(inner.last() == whole(j as int, jt, jb));
    assert(update_array_spec(row[j as int], Seq::<ObjectModel>::empty(), new)
        == Ok::<AssignedModel, UErrorModel>(AssignedModel { value: None, update: true, pending: None }));
    assert(update_array_spec(a[i as int], inner, new) == Ok::<AssignedModel, UErrorModel>(AssignedModel {
        value: Some(ObjectModel { value: ValueModel::Array(row.update(j as int, new)), text: rt, truthy: rb }),
        update: true,
        pending: None,
    }));
}

/// Assigning `b[i] = m` to a byte array, for whole numbers with `i` inside it, replaces
/// byte `i` by `m` when `0 <= m <= 255` and keeps the other bytes; any other `m` is
/// refused as no byte.
pub proof fn law_assign_byte(b: Seq<u8>, i: i64, m: i64, at: Seq<char>, t: bool, it: Seq<char>, ib: bool, mt: Seq<char>, mb: bool)
    requires
        0 <= i < b.len(),
        i <= isize::MAX,
    ensures
        0 <= m <= 255 ==> update_array_spec(ObjectModel { value: ValueModel::ByteArray(b), text: at, truthy: t },
            seq![whole(i as int, it, ib)], whole(m as int, mt, mb))
            == Ok::<AssignedModel, UErrorModel>(AssignedModel {
                value: Some(ObjectModel { value: ValueModel::ByteArray(b.update(i as int, m as u8)), text: at, truthy: t }),
                update: true,
                pending: None,
            }),
        !(0 <= m <= 255) ==> update_array_spec(ObjectModel { value: ValueModel::ByteArray(b), text: at, truthy: t },
            seq![whole(i as int, it, ib)], whole(m as int, mt, mb))
            == Err::<AssignedModel, UErrorModel>(UErrorModel { kind: KindModel::AssignError, message: MessageModel::NotAnByte(whole(m as int, mt, mb)) }),
{
    lemma_whole_number(i);
    lemma_whole_number(m);
    let dims = seq![whole(i as int, it, ib)];
    assert(dims.drop_last() =~= Seq::<ObjectModel>::empty());
    assert(dims.last() == whole(i as int, it, ib));
}

/// Defining `array[m] = values` for a whole number `m >= 0` gives `m + 1` elements
/// (as many as a length can hold), the values first and in order, EMPTY after them;
/// with an EMPTY size the array is the values.
pub proof fn law_define_keeps_values(values: Seq<ObjectModel>, m: i64, st: Seq<char>, sb: bool, et: Seq<char>)
    requires
        m >= 0,
    ensures
        define_array_spec(values, whole(m as int, st, sb)) matches Ok(r) && {
            &&& r.len() == (if m as int + 1 <= usize::MAX { m as int + 1 } else { usize::MAX as int })
            &&& forall|k: int| 0 <= k < r.len() && k < values.len() ==> r[k] == values[k]
            &&& forall|k: int| values.len() <= k < r.len() ==> r[k].value == ValueModel::Empty
        },
        define_array_spec(values, ObjectModel { value: ValueModel::Empty, text: et, truthy: false }) == Ok::<Seq<ObjectModel>, UErrorModel>(values),
{
    lemma_whole_number(m);
}


/// `array[m][n]` holds `(m + 1) * (n + 1)` items; with the first bound omitted and `l`
/// values, as many rows of `n + 1` as the values need (at least one), times `n + 1`
/// (when that fits in `usize`).
pub proof fn law_two_dimensional_size(m: usize, n: usize, l: usize)
    requires
        m + 1 < usize::MAX,
        n + 1 < usize::MAX,
    ensures
        (m + 1) * (n + 1) <= usize::MAX ==> total_size_spec(seq![m, n], l as int) == Ok::<int, UErrorModel>((m + 1) * (n + 1)),
        l > 0 && (l as int / (n + 1) + (if l as int % (n + 1) == 0 { 0int } else { 1int })) * (n + 1) <= usize::MAX
            ==> total_size_spec(seq![usize::MAX, n], l as int) == Ok::<int, UErrorModel>(
                (l as int / (n + 1) + (if l as int % (n + 1) == 0 { 0int } else { 1int })) * (n + 1)),
{
    let r1 = seq![m, n].reverse();
    assert(r1 =~= seq![n, m]);
    let r2 = seq![usize::MAX, n].reverse();
    assert(r2 =~= seq![n, usize::MAX]);
    let w = (n + 1) as int;
    assert(dim_len(n) == w);
    assert(dim_len(m) == m + 1);
    assert((n + 1) * (m + 1) == (m + 1) * (n + 1)) by (nonlinear_arith);
    assert(w >= 1);
    assert((m + 1) * (n + 1) >= 1) by (nonlinear_arith)
        requires m >= 0, n >= 0;
    if (m + 1) * (n + 1) <= usize::MAX {
        assert(size_fold(r1, l as int, 1, w) == size_fold(r1, l as int, 2, w * (m + 1)));
        assert(size_fold(r1, l as int, 2, w * (m + 1)) == w * (m + 1));
    }
    let q = l as int / w + (if l as int % w == 0 { 0int } else { 1int });
    if l > 0 && q * w <= usize::MAX {
        assert(q >= 1) by (nonlinear_arith)
            requires l >= 1, w >= 1, q == l as int / w + (if l as int % w == 0 { 0int } else { 1int });
        assert(dim_len(usize::MAX) == usize::MAX);
        assert(omitted_len(l as int, w) == q);
        assert(w * q == q * w) by (nonlinear_arith);
        assert(size_fold(r2, l as int, 1, w) == size_fold(r2, l as int, 2, w * q));
        assert(size_fold(r2, l as int, 2, w * q) == w * q);
        assert(w * q >= 1) by (nonlinear_arith)
            requires w >= 1, q >= 1;
    }
}


spec fn chunk_cut(items: Seq<ObjectModel>, bound: usize, g: int) -> int {
    let w: int = if bound == usize::MAX { items.len() as int + 1 } else { bound as int + 1 };
    if g * w <= items.len() { g * w } else { items.len() as int }
}

proof fn lemma_chunks_prefix(items: Seq<ObjectModel>, bound: usize, g: int)
    requires
        0 <= g <= chunks_spec(items, bound).len(),
    ensures
        chunks_spec(items, bound).take(g).flatten_alt() == items.subrange(0, chunk_cut(items, bound, g)),
    decreases g,
{
    let w: int = if bound == usize::MAX { items.len() as int + 1 } else { bound as int + 1 };
    let c = chunks_spec(items, bound);
    if g == 0 {
        assert(c.take(0) =~= Seq::<Seq<ObjectModel>>::empty());
        assert(0 * w == 0);
        assert(chunk_cut(items, bound, 0) == 0);
        assert(items.subrange(0, 0) =~= Seq::<ObjectModel>::empty());
        assert(c.take(0).flatten_alt() =~= Seq::<ObjectModel>::empty());
    } else {
        lemma_chunks_prefix(items, bound, g - 1);
        assert(c.take(g).drop_last() =~= c.take(g - 1));
        assert(c.take(g).last() == c[g - 1]);
        let lo = chunk_cut(items, bound, g - 1);
        let hi = chunk_cut(items, bound, g);
        assert((g - 1) * w <= g * w) by (nonlinear_arith)
            requires w >= 1;
        assert(((g - 1) + 1) * w == g * w);
        assert(lo <= hi);
        assert(c[g - 1] == items.subrange(lo, hi));
        assert(c.take(g).flatten_alt() == c.take(g - 1).flatten_alt() + c[g - 1]);
        assert(items.subrange(0, lo) + items.subrange(lo, hi) =~= items.subrange(0, hi));
    }
}

/// Grouping loses and reorders nothing: the groups one after another are the items;
/// every group but the last holds `bound + 1` items, and the last is not empty unless
/// there are no items.
pub proof fn law_chunks_partition(items: Seq<ObjectModel>, bound: usize)
    ensures
        chunks_spec(items, bound).flatten_alt() == items,
        chunks_spec(items, bound).len() >= 1,
        bound != usize::MAX ==> forall|g: int| 0 <= g < chunks_spec(items, bound).len() - 1
            ==> (#[trigger] chunks_spec(items, bound)[g]).len() == bound + 1,
        items.len() > 0 ==> chunks_spec(items, bound).last().len() > 0,
{
    let w: int = if bound == usize::MAX { items.len() as int + 1 } else { bound as int + 1 };
    let c = chunks_spec(items, bound);
    let len = items.len() as int;
    let n = c.len() as int;
    if len > 0 {
        assert(n == (len + w - 1) / w);
        assert(n * w >= len && (n - 1) * w < len && n >= 1) by (nonlinear_arith)
            requires n == (len + w - 1) / w, w >= 1, len >= 1;
    }
    lemma_chunks_prefix(items, bound, n);
    assert(c.take(n) =~= c);
    assert(items.subrange(0, len) =~= items);
    if bound != usize::MAX {
        assert forall|g: int| 0 <= g < n - 1 implies (#[trigger] c[g]).len() == bound + 1 by {
            assert((g + 1) * w <= (n - 1) * w) by (nonlinear_arith)
                requires g + 1 <= n - 1, w >= 1;
            assert(g * w + w == (g + 1) * w) by (nonlinear_arith);
            assert(g * w >= 0) by (nonlinear_arith)
                requires g >= 0, w >= 1;
        }
    }
    if len > 0 {
        assert((n - 1) * w >= 0) by (nonlinear_arith)
            requires n >= 1, w >= 1;
        assert(n * w == (n - 1) * w + w) by (nonlinear_arith);
    }
}

} // verus!
