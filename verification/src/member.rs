//! The dot operator of the interpreter: what reading `obj.member` and assigning
//! `obj.member = v` do for each kind of value. The members live in modules, class
//! instances, COM, browser and JSON objects that this library only names by handle, so
//! the outcome is the access to make on them, or the error to raise.

use vstd::prelude::*;
use crate::args::{Object, ObjectModel, OtherKind, RemoteObject, TabWindow, UObject, Value, ValueModel};

verus! {

/// A value whose members can be read or written, by handle.
#[derive(PartialEq, Eq, Clone, Copy, Structural)]
pub enum MemberTarget {
    Module(u64),
    Instance(u64),
    Global,
    Class(u64),
    UObject(UObject),
    Enum(u64),
    UStruct(u64),
    Com(u64),
    BrowserBuilder(u64),
    Browser(u64),
    Tab(TabWindow),
    Remote(RemoteObject),
    WebRequest(u64),
    WebResponse(u64),
    HtmlNode(u64),
}

/// The member target a value is, if it has members.
pub open spec fn target_spec(o: ObjectModel) -> Option<MemberTarget> {
    match o.value {
        ValueModel::UObject(u) => Some(MemberTarget::UObject(u)),
        ValueModel::TabWindow(t) => Some(MemberTarget::Tab(t)),
        ValueModel::RemoteObject(r) => Some(MemberTarget::Remote(r)),
        ValueModel::Other(kind, h) => match kind {
            OtherKind::Module => Some(MemberTarget::Module(h)),
            OtherKind::Instance(_) => Some(MemberTarget::Instance(h)),
            OtherKind::Global => Some(MemberTarget::Global),
            OtherKind::Class => Some(MemberTarget::Class(h)),
            OtherKind::Enum => Some(MemberTarget::Enum(h)),
            OtherKind::UStruct => Some(MemberTarget::UStruct(h)),
            OtherKind::ComObject => Some(MemberTarget::Com(h)),
            OtherKind::BrowserBuilder => Some(MemberTarget::BrowserBuilder(h)),
            OtherKind::Browser => Some(MemberTarget::Browser(h)),
            OtherKind::WebRequest => Some(MemberTarget::WebRequest(h)),
            OtherKind::WebResponse => Some(MemberTarget::WebResponse(h)),
            OtherKind::HtmlNode => Some(MemberTarget::HtmlNode(h)),
            _ => None,
        },
        _ => None,
    }
}

/// The member target a value is (see `target_spec`).
pub fn member_target(o: &Object) -> (r: Option<MemberTarget>)
    ensures
        r == target_spec(o.model()),
{
    match &o.value {
        Value::UObject(u) => Some(MemberTarget::UObject(*u)),
        Value::TabWindow(t) => Some(MemberTarget::Tab(*t)),
        Value::RemoteObject(r) => Some(MemberTarget::Remote(*r)),
        Value::Other(kind, h) => match kind {
            OtherKind::Module => Some(MemberTarget::Module(*h)),
            OtherKind::Instance(_) => Some(MemberTarget::Instance(*h)),
            OtherKind::Global => Some(MemberTarget::Global),
            OtherKind::Class => Some(MemberTarget::Class(*h)),
            OtherKind::Enum => Some(MemberTarget::Enum(*h)),
            OtherKind::UStruct => Some(MemberTarget::UStruct(*h)),
            OtherKind::ComObject => Some(MemberTarget::Com(*h)),
            OtherKind::BrowserBuilder => Some(MemberTarget::BrowserBuilder(*h)),
            OtherKind::Browser => Some(MemberTarget::Browser(*h)),
            OtherKind::WebRequest => Some(MemberTarget::WebRequest(*h)),
            OtherKind::WebResponse => Some(MemberTarget::WebResponse(*h)),
            OtherKind::HtmlNode => Some(MemberTarget::HtmlNode(*h)),
            _ => None,
        },
        _ => None,
    }
}

/// What reading `obj.member` does.
#[derive(PartialEq, Eq, Clone, Copy, Structural)]
pub enum MemberRead {
    /// Read the member's value from the target (a module or instance member, a global,
    /// an enum value, a property).
    Read(MemberTarget),
    /// The member is a method: it becomes a callable bound to the target.
    Caller(MemberTarget),
    /// Error: members of a class cannot be used without an instance.
    ClassMember,
    /// Error: methods of a JSON object or an enum cannot be called.
    CannotCall(MemberTarget),
    /// Error: a browser builder has no such property.
    NotFound(MemberTarget),
    /// Error: the value has no members.
    NotSupported,
}

/// What reading `obj.member` does, given whether it is called (`is_func`) and whether it
/// is an indexed property (`obj.member[i]`): modules, instances and globals are read
/// (calls included); a class is an error; JSON objects and enums are read and cannot be
/// called; structures, browsers, tabs, web requests and responses and HTML nodes give a
/// method when called and a property otherwise; COM and browser-side objects also give
/// a method for an indexed property; a browser builder has methods only.
pub open spec fn member_read_spec(o: ObjectModel, is_func: bool, is_indexed: bool) -> MemberRead {
    match target_spec(o) {
        None => MemberRead::NotSupported,
        Some(t) => match t {
            MemberTarget::Module(_) | MemberTarget::Instance(_) | MemberTarget::Global => MemberRead::Read(t),
            MemberTarget::Class(_) => MemberRead::ClassMember,
            MemberTarget::UObject(_) | MemberTarget::Enum(_) => if is_func { MemberRead::CannotCall(t) } else { MemberRead::Read(t) },
            MemberTarget::Com(_) | MemberTarget::Remote(_) => if is_func || is_indexed { MemberRead::Caller(t) } else { MemberRead::Read(t) },
            MemberTarget::BrowserBuilder(_) => if is_func { MemberRead::Caller(t) } else { MemberRead::NotFound(t) },
            _ => if is_func { MemberRead::Caller(t) } else { MemberRead::Read(t) },
        },
    }
}

/// What reading `obj.member` does (see `member_read_spec`).
pub fn member_read(o: &Object, is_func: bool, is_indexed: bool) -> (r: MemberRead)
    ensures
        r == member_read_spec(o.model(), is_func, is_indexed),
{
    match member_target(o) {
        None => MemberRead::NotSupported,
        Some(t) => match t {
            MemberTarget::Module(_) | MemberTarget::Instance(_) | MemberTarget::Global => MemberRead::Read(t),
            MemberTarget::Class(_) => MemberRead::ClassMember,
            MemberTarget::UObject(_) | MemberTarget::Enum(_) => if is_func { MemberRead::CannotCall(t) } else { MemberRead::Read(t) },
            MemberTarget::Com(_) | MemberTarget::Remote(_) => if is_func || is_indexed { MemberRead::Caller(t) } else { MemberRead::Read(t) },
            MemberTarget::BrowserBuilder(_) => if is_func { MemberRead::Caller(t) } else { MemberRead::NotFound(t) },
            _ => if is_func { MemberRead::Caller(t) } else { MemberRead::Read(t) },
        },
    }
}

/// What assigning `obj.member = v` does.
#[derive(PartialEq, Eq, Clone, Copy, Structural)]
pub enum MemberWrite {
    /// Assign the named member of the target (a public module or instance variable, a
    /// global, a JSON member, a structure field, a COM or browser-side property).
    Assign(MemberTarget),
    /// The object is a reference: evaluate its expression in the outer scope (the handle)
    /// and assign there.
    Reference(u64),
    /// Error: the member is not a plain name (reported for the target).
    NotAName(MemberTarget),
    /// Error: the value has no members that can be assigned.
    Invalid,
}

/// Whether assignment to members of this target is supported.
pub open spec fn writable(t: MemberTarget) -> bool {
    match t {
        MemberTarget::Module(_) | MemberTarget::Instance(_) | MemberTarget::Global
            | MemberTarget::UObject(_) | MemberTarget::UStruct(_) | MemberTarget::Com(_)
            | MemberTarget::Remote(_) => true,
        _ => false,
    }
}

/// What assigning `obj.member = v` does, given whether the member is written as a plain
/// name: modules, instances, globals, JSON objects, structures, COM and browser-side
/// objects assign a named member (anything else as the member is an error); a reference
/// is followed; any other value is an error.
pub open spec fn member_write_spec(o: ObjectModel, member_is_name: bool) -> MemberWrite {
    match o.value {
        ValueModel::Other(OtherKind::Reference, h) => MemberWrite::Reference(h),
        _ => match target_spec(o) {
            Some(t) => if writable(t) {
                if member_is_name { MemberWrite::Assign(t) } else { MemberWrite::NotAName(t) }
            } else {
                MemberWrite::Invalid
            },
            None => MemberWrite::Invalid,
        },
    }
}

/// What assigning `obj.member = v` does (see `member_write_spec`).
pub fn member_write(o: &Object, member_is_name: bool) -> (r: MemberWrite)
    ensures
        r == member_write_spec(o.model(), member_is_name),
{
    if let Value::Other(OtherKind::Reference, h) = &o.value {
        return MemberWrite::Reference(*h);
    }
    match member_target(o) {
        Some(t) => {
            let w = match t {
                MemberTarget::Module(_) | MemberTarget::Instance(_) | MemberTarget::Global
                    | MemberTarget::UObject(_) | MemberTarget::UStruct(_) | MemberTarget::Com(_)
                    | MemberTarget::Remote(_) => true,
                _ => false,
            };
            if w {
                if member_is_name { MemberWrite::Assign(t) } else { MemberWrite::NotAName(t) }
            } else {
                MemberWrite::Invalid
            }
        },
        None => MemberWrite::Invalid,
    }
}


/// A member that can be assigned can be read back: whenever `obj.name = v` assigns a
/// member of a target, reading `obj.name` (not called, not indexed) reads that same
/// target. A value with no members can be neither read nor assigned by the dot (a
/// reference is followed first), and reading or assigning never picks a target other
/// than the value's own.
pub proof fn law_member_written_is_readable(o: ObjectModel, is_func: bool, is_indexed: bool, member_is_name: bool)
    ensures
        member_write_spec(o, true) matches MemberWrite::Assign(t) ==> member_read_spec(o, false, false) == MemberRead::Read(t),
        target_spec(o) is None ==> member_read_spec(o, is_func, is_indexed) == MemberRead::NotSupported
            && (!(o.value matches ValueModel::Other(OtherKind::Reference, _)) ==> member_write_spec(o, member_is_name) == MemberWrite::Invalid),
        member_read_spec(o, is_func, is_indexed) matches MemberRead::Read(t) ==> target_spec(o) == Some(t),
        member_read_spec(o, is_func, is_indexed) matches MemberRead::Caller(t) ==> target_spec(o) == Some(t),
        member_write_spec(o, member_is_name) matches MemberWrite::Assign(t) ==> target_spec(o) == Some(t),
{
}
} // verus!
