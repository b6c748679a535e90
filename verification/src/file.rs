//! The file builtins: what they ask of an open file or a file path. Reading and writing
//! the file itself is left to the caller.

use vstd::prelude::*;
use crate::args::{Fopen, ObjectModel, TwoTypeArg, ValueModel};
use crate::builtin_args::{
    invalid, opt_view, outcome, required, string_or_empty_reading, string_or_fopen_reading, with_default,
    BuiltInResult, BuiltinFuncArgs,
};
use crate::error::ErrorModel;

verus! {

/// Where an INI file is read from.
pub enum IniSource {
    /// An open file.
    File(Fopen),
    /// A file path.
    Path(String),
}

/// What `readini` asks of an INI file.
pub enum IniRequest {
    /// The value of `key` in `section` (or outside any section).
    Value { source: IniSource, section: Option<String>, key: String },
    /// The keys of `section`.
    Keys { source: IniSource, section: String },
    /// The section names.
    Sections { source: IniSource },
}

/// Where an INI file is read from, as plain values.
pub enum IniSourceModel {
    File(Fopen),
    Path(Seq<char>),
}

/// What `readini` asks, as plain values.
pub enum IniRequestModel {
    Value { source: IniSourceModel, section: Option<Seq<char>>, key: Seq<char> },
    Keys { source: IniSourceModel, section: Seq<char> },
    Sections { source: IniSourceModel },
}

impl IniSource {
    pub open spec fn model(&self) -> IniSourceModel {
        match self {
            IniSource::File(f) => IniSourceModel::File(*f),
            IniSource::Path(p) => IniSourceModel::Path(p@),
        }
    }
}

impl IniRequest {
    pub open spec fn model(&self) -> IniRequestModel {
        match self {
            IniRequest::Value { source, section, key } => IniRequestModel::Value {
                source: source.model(),
                section: opt_view(*section, |s: String| s@),
                key: key@,
            },
            IniRequest::Keys { source, section } => IniRequestModel::Keys { source: source.model(), section: section@ },
            IniRequest::Sections { source } => IniRequestModel::Sections { source: source.model() },
        }
    }
}

/// What is asked for a section and key, either of which may be missing: a key asks for
/// its value; a section alone for its keys; neither for the sections.
pub open spec fn ini_request(source: IniSourceModel, section: Option<Seq<char>>, key: Option<Seq<char>>) -> IniRequestModel {
    match key {
        Some(k) => IniRequestModel::Value { source, section, key: k },
        None => match section {
            Some(s) => IniRequestModel::Keys { source, section: s },
            None => IniRequestModel::Sections { source },
        },
    }
}

/// The `readini` builtin: argument 0 is the section, argument 1 the key (EMPTY or left
/// out for none), argument 2 an open file or a path (the default INI file when missing).
pub open spec fn readini_call(objs: Seq<ObjectModel>, default_path: Seq<char>) -> Result<IniRequestModel, ErrorModel> {
    match with_default(objs, 0, Some(None), |o: ObjectModel| string_or_empty_reading(o)) {
        Err(e) => Err(e),
        Ok(section) => match with_default(objs, 1, Some(None), |o: ObjectModel| string_or_empty_reading(o)) {
            Err(e) => Err(e),
            Ok(key) => match with_default(
                objs,
                2,
                Some(TwoTypeArg::T(None)),
                |o: ObjectModel| string_or_fopen_reading(o),
            ) {
                Err(e) => Err(e),
                Ok(TwoTypeArg::U(f)) => Ok(ini_request(IniSourceModel::File(f), section, key)),
                Ok(TwoTypeArg::T(path)) => Ok(ini_request(
                    IniSourceModel::Path(match path {
                        Some(p) => p,
                        None => default_path,
                    }),
                    section,
                    key,
                )),
            },
        },
    }
}

/// The `readini` builtin (see `readini_call`); `default_path` is the INI file used when
/// none is given.
pub fn readini(args: &BuiltinFuncArgs, default_path: &str) -> (r: BuiltInResult<IniRequest>)
    ensures
        outcome(r, |q: IniRequest| q.model()) == readini_call(args.objects(), default_path@),
{
    let section = match args.get_as_string_or_empty(0) {
        Ok(s) => s,
        Err(e) => return Err(e),
    };
    let key = match args.get_as_string_or_empty(1) {
        Ok(k) => k,
        Err(e) => return Err(e),
    };
    let place = match args.get_as_string_or_fopen(2) {
        Ok(p) => p,
        Err(e) => return Err(e),
    };
    let source = match place {
        TwoTypeArg::U(f) => IniSource::File(f),
        TwoTypeArg::T(Some(p)) => IniSource::Path(p),
        TwoTypeArg::T(None) => IniSource::Path(default_path.to_owned()),
    };
    let request = match key {
        Some(k) => IniRequest::Value { source, section, key: k },
        None => match section {
            Some(s) => IniRequest::Keys { source, section: s },
            None => IniRequest::Sections { source },
        },
    };
    Ok(request)
}

/// The `fdelline` builtin once its row is read: rows before the first do nothing
/// (`None`); otherwise argument 0, the open file, and the row to delete.
pub fn fdelline(args: &BuiltinFuncArgs, row: usize) -> (r: BuiltInResult<Option<(Fopen, usize)>>)
    ensures
        row < 1 ==> r == Ok::<Option<(Fopen, usize)>, crate::error::BuiltinFuncError>(None),
        row >= 1 ==> outcome(r, |x: Option<(Fopen, usize)>| x) == (match required(args.objects(), 0, |o: ObjectModel| match o.value {
            ValueModel::Fopen(f) => Ok(f),
            _ => Err(invalid(o)),
        }) {
            Ok(f) => Ok(Some((f, row))),
            Err(e) => Err(e),
        }),
{
    if row < 1 {
        return Ok(None);
    }
    match args.get_as_fopen(0) {
        Ok(f) => Ok(Some((f, row))),
        Err(e) => Err(e),
    }
}

/// The `fclose` builtin: argument 0 is the open file, argument 1 true ignores a failure
/// to close it.
pub fn fclose(args: &BuiltinFuncArgs) -> (r: BuiltInResult<(Fopen, bool)>)
    ensures
        outcome(r, |x: (Fopen, bool)| x) == (match required(args.objects(), 0, |o: ObjectModel| match o.value {
            ValueModel::Fopen(f) => Ok(f),
            _ => Err(invalid(o)),
        }) {
            Err(e) => Err(e),
            Ok(f) => match with_default(args.objects(), 1, Some(false), |o: ObjectModel| Ok::<bool, ErrorModel>(o.truthy)) {
                Err(e) => Err(e),
                Ok(b) => Ok((f, b)),
            },
        }),
{
    let f = match args.get_as_fopen(0) {
        Ok(f) => f,
        Err(e) => return Err(e),
    };
    match args.get_as_bool(1, Some(false)) {
        Ok(b) => Ok((f, b)),
        Err(e) => Err(e),
    }
}

/// What `fclose` reports for the outcome of closing: a failure, when it is to be ignored,
/// reads as FALSE.
pub fn fclose_outcome<E>(closed: Result<bool, E>, ignore_err: bool) -> (r: Result<bool, E>)
    ensures
        r == (match closed {
            Ok(b) => Ok(b),
            Err(e) => if ignore_err { Ok(false) } else { Err(e) },
        }),
{
    match closed {
        Ok(b) => Ok(b),
        Err(e) => if ignore_err { Ok(false) } else { Err(e) },
    }
}

} // verus!
