//! The window ids of the window builtins and the small decisions they make.
//!
//! Scripts name windows by id. The table of ids to window handles lives in a
//! `WindowControl`; the handles themselves come from the operating system and are kept
//! as plain integers (a null handle is 0).

use vstd::prelude::*;
use std::collections::HashMap;
use vstd::std_specs::hash::obeys_key_model;
use vstd::std_specs::iter::IteratorSpec;
use crate::args::ObjectModel;
use crate::builtin_args::{const_reading, outcome, with_flag, BuiltInResult, BuiltinFuncArgs};
use crate::consts::{CtrlWinCmd, MorgContextConst, MorgTargetConst, SldConst, StatusEnum};
use crate::error::{BuiltinFuncError, ErrorModel};
use crate::names::{special_window_id_text, SpecialWindowId};
use crate::std_calls::push_char;

verus! {

broadcast use vstd::std_specs::hash::group_hash_axioms;

/// The handle a table gives for an id, 0 when the id is not in it.
pub open spec fn hwnd_of(table: Map<i32, isize>, id: i32) -> isize {
    if table.contains_key(id) { table[id] } else { 0 }
}

/// Whether some id of the table stands for `hwnd`.
pub open spec fn has_handle(table: Map<i32, isize>, hwnd: isize) -> bool {
    exists|k: i32| table.contains_key(k) && #[trigger] table[k] == hwnd
}

/// The window ids handed out so far and the next one.
pub struct WindowControl {
    next_id: i32,
    windows: HashMap<i32, isize>,
}

impl WindowControl {
    /// The id the next new window gets.
    pub closed spec fn next(&self) -> int {
        self.next_id as int
    }

    /// The handle of each id.
    pub closed spec fn table(&self) -> Map<i32, isize> {
        self.windows@
    }

    /// No window yet; the first id is 1.
    pub fn new() -> (r: WindowControl)
        ensures
            r.next() == 1,
            r.table() == Map::<i32, isize>::empty(),
    {
        WindowControl { next_id: 1, windows: HashMap::new() }
    }

    /// Hands out the next id.
    pub fn get_next_id(&mut self) -> (r: i32)
        requires
            old(self).next() < i32::MAX,
        ensures
            r == old(self).next(),
            final(self).next() == old(self).next() + 1,
            final(self).table() == old(self).table(),
    {
        let id = self.next_id;
        self.next_id = self.next_id + 1;
        id
    }

    /// Records that `id` stands for `handle`, and id 0 too when `to_zero`.
    pub fn set_new_window(&mut self, id: i32, handle: isize, to_zero: bool)
        ensures
            final(self).next() == old(self).next(),
            final(self).table() == (if to_zero {
                old(self).table().insert(id, handle).insert(0, handle)
            } else {
                old(self).table().insert(id, handle)
            }),
    {
        proof {
            assert(obeys_key_model::<i32>());
        }
        self.windows.insert(id, handle);
        if to_zero {
            self.windows.insert(0, handle);
        }
    }

    /// Records that id 0 stands for `hwnd`.
    pub fn set_id_zero(&mut self, hwnd: isize)
        ensures
            final(self).next() == old(self).next(),
            final(self).table() == old(self).table().insert(0, hwnd),
    {
        proof {
            assert(obeys_key_model::<i32>());
        }
        self.windows.insert(0, hwnd);
    }

    /// The handle of `id`, 0 when there is none.
    pub fn get_hwnd_from_id(&self, id: i32) -> (r: isize)
        ensures
            r == hwnd_of(self.table(), id),
    {
        proof {
            assert(obeys_key_model::<i32>());
        }
        match self.windows.get(&id) {
            Some(h) => *h,
            None => 0,
        }
    }

    /// An id that stands for `hwnd`, if there is one (which one, when several do, is
    /// left to the table's order).
    pub fn find_id(&self, hwnd: isize) -> (r: Option<i32>)
        ensures
            match r {
                Some(k) => self.table().contains_key(k) && self.table()[k] == hwnd,
                None => !has_handle(self.table(), hwnd),
            },
    {
        proof {
            assert(obeys_key_model::<i32>());
        }
        let ghost m = self.windows@;
        let ghost all = vstd::std_specs::hash::spec_hash_map_iter(&self.windows).remaining();
        for (k, v) in it: self.windows.iter()
            invariant
                m == self.windows@,
                all == vstd::std_specs::hash::spec_hash_map_iter(&self.windows).remaining(),
                it.seq() == all,
                forall|i: int| 0 <= i < it.index() ==> *#[trigger] all[i].1 != hwnd,
        {
            if *v == hwnd {
                assert(m.contains_key(*all[it.index() as int].0));
                return Some(*k);
            }
        }
        assert forall|k: i32| m.contains_key(k) implies #[trigger] m[k] != hwnd by {
            assert(all.contains((&k, &m[k])));
            let i = choose|i: int| 0 <= i < all.len() && all[i] == (&k, &m[k]);
            assert(*all[i].1 != hwnd);
        }
        None
    }

    /// The id of `hwnd`: the one it already has, else (when `is_window` tells that the
    /// handle is a live window) a new one, recorded; -1 for a handle that is neither.
    pub fn get_id_from_hwnd(&mut self, hwnd: isize, is_window: bool) -> (r: i32)
        requires
            is_window && !has_handle(old(self).table(), hwnd) ==> old(self).next() < i32::MAX,
        ensures
            has_handle(old(self).table(), hwnd) ==> final(self).table() == old(self).table()
                && final(self).next() == old(self).next() && old(self).table().contains_key(r)
                && old(self).table()[r] == hwnd,
            !has_handle(old(self).table(), hwnd) && is_window ==> r == old(self).next()
                && final(self).table() == old(self).table().insert(r, hwnd)
                && final(self).next() == old(self).next() + 1,
            !has_handle(old(self).table(), hwnd) && !is_window ==> r == -1
                && final(self).table() == old(self).table() && final(self).next() == old(self).next(),
            r != -1 ==> hwnd_of(final(self).table(), r) == hwnd,
    {
        match self.find_id(hwnd) {
            Some(id) => id,
            None => if is_window {
                let id = self.get_next_id();
                self.set_new_window(id, hwnd, false);
                id
            } else {
                -1
            },
        }
    }

    /// The handle `idtohnd` reports for `id` before asking whether it is a live window:
    /// none for a negative id or a null handle.
    pub fn idtohnd_candidate(&self, id: i32) -> (r: Option<isize>)
        ensures
            r == (if id < 0 || hwnd_of(self.table(), id) <= 0 {
                None
            } else {
                Some(hwnd_of(self.table(), id))
            }),
    {
        if id < 0 {
            return None;
        }
        let h = self.get_hwnd_from_id(id);
        if h > 0 {
            Some(h)
        } else {
            None
        }
    }
}

/// The id table reads back what was written: after recording `handle` for `id`, the id
/// reads as that handle and every other id as before; an id never recorded reads as the
/// null handle 0; and a handle recorded for some id is found in the table.
pub proof fn law_window_table_reads_back(table: Map<i32, isize>, id: i32, handle: isize, other: i32)
    ensures
        hwnd_of(table.insert(id, handle), id) == handle,
        other != id ==> hwnd_of(table.insert(id, handle), other) == hwnd_of(table, other),
        !table.contains_key(other) ==> hwnd_of(table, other) == 0,
        has_handle(table.insert(id, handle), handle),
{
    assert(table.insert(id, handle).contains_key(id));
    assert(table.insert(id, handle)[id] == handle);
}

/// The decimal digits of a natural number.
pub open spec fn digits_of(m: nat) -> Seq<char>
    decreases m,
{
    if m < 10 {
        seq![(0x30 + m) as char]
    } else {
        digits_of(m / 10) + seq![(0x30 + m % 10) as char]
    }
}

/// An integer written in decimal, with `-` in front when negative.
pub open spec fn decimal_of(n: int) -> Seq<char> {
    if n < 0 {
        seq!['-'] + digits_of((-n) as nat)
    } else {
        digits_of(n as nat)
    }
}

/// `n` written in decimal.
pub fn decimal(n: i64) -> (r: String)
    ensures
        r@ == decimal_of(n as int),
{
    let mag: u64 = if n < 0 {
        ((-(n + 1)) as u64) + 1
    } else {
        n as u64
    };
    let mut m = mag;
    let mut rev: Vec<char> = Vec::new();
    loop
        invariant_except_break
            digits_of(mag as nat) == digits_of(m as nat) + rev@.reverse(),
        ensures
            digits_of(mag as nat) == rev@.reverse(),
        decreases m,
    {
        let d = m % 10;
        let c = if d == 0 { '0' } else if d == 1 { '1' } else if d == 2 { '2' } else if d == 3 { '3' } else if d == 4 {
            '4'
        } else if d == 5 { '5' } else if d == 6 { '6' } else if d == 7 { '7' } else if d == 8 { '8' } else { '9' };
        assert(c == (0x30 + d) as char);
        let ghost before = rev@;
        rev.push(c);
        assert(rev@.reverse() =~= seq![c] + before.reverse());
        if m < 10 {
            assert(digits_of(m as nat) == seq![c]);
            assert(digits_of(mag as nat) =~= rev@.reverse());
            break;
        }
        assert(digits_of(m as nat) == digits_of((m / 10) as nat) + seq![c]);
        assert(digits_of(mag as nat) =~= digits_of((m / 10) as nat) + rev@.reverse());
        m = m / 10;
    }
    let mut out = String::new();
    if n < 0 {
        push_char(&mut out, '-');
    }
    let ghost start = out@;
    let mut k = rev.len();
    while k > 0
        invariant
            k <= rev@.len(),
            out@ == start + rev@.reverse().take(rev@.len() - k),
        decreases k,
    {
        k = k - 1;
        push_char(&mut out, rev[k]);
        assert(rev@.reverse().take(rev@.len() - k) =~= rev@.reverse().take(rev@.len() - k - 1).push(rev@[k as int]));
    }
    assert(rev@.reverse().take(rev@.len() as int) =~= rev@.reverse());
    assert(out@ =~= decimal_of(n as int));
    out
}

/// A window as a script value: its id.
#[derive(PartialEq, Eq, Clone, Copy, Structural)]
pub struct Window {
    pub id: i32,
}

impl Window {
    /// How a window prints: its id in decimal.
    pub fn to_string(&self) -> (r: String)
        ensures
            r@ == decimal_of(self.id as int),
    {
        decimal(self.id as i64)
    }
}

/// A window's position and size: x, y, width, height.
pub struct WindowSize(pub i32, pub i32, pub i32, pub i32);

impl WindowSize {
    pub fn x(&self) -> (r: i32)
        ensures
            r == self.0,
    {
        self.0
    }

    pub fn y(&self) -> (r: i32)
        ensures
            r == self.1,
    {
        self.1
    }

    pub fn width(&self) -> (r: i32)
        ensures
            r == self.2,
    {
        self.2
    }

    pub fn height(&self) -> (r: i32)
        ensures
            r == self.3,
    {
        self.3
    }
}

/// What a slider control reports.
pub struct SliderInfo {
    pub pos: i32,
    pub min: i32,
    pub max: i32,
    pub page: i32,
    pub bar: i32,
    pub x: i32,
    pub y: i32,
}

impl SliderInfo {
    /// The item of the slider that `param` asks for.
    pub fn get(&self, param: SldConst) -> (r: i32)
        ensures
            r == (match param {
                SldConst::SLD_POS => self.pos,
                SldConst::SLD_MIN => self.min,
                SldConst::SLD_MAX => self.max,
                SldConst::SLD_PAGE => self.page,
                SldConst::SLD_BAR => self.bar,
                SldConst::SLD_X => self.x,
                SldConst::SLD_Y => self.y,
            }),
    {
        match param {
            SldConst::SLD_POS => self.pos,
            SldConst::SLD_MIN => self.min,
            SldConst::SLD_MAX => self.max,
            SldConst::SLD_PAGE => self.page,
            SldConst::SLD_BAR => self.bar,
            SldConst::SLD_X => self.x,
            SldConst::SLD_Y => self.y,
        }
    }
}

/// What `getslider` reports: the asked item (the position by default) of the slider found,
/// or the error value -999999 when there is none.
pub fn getslider(found: &Option<SliderInfo>, param: Option<SldConst>) -> (r: i32)
    ensures
        r == (match found {
            Some(s) => match param {
                Some(p) => (match p {
                    SldConst::SLD_POS => s.pos,
                    SldConst::SLD_MIN => s.min,
                    SldConst::SLD_MAX => s.max,
                    SldConst::SLD_PAGE => s.page,
                    SldConst::SLD_BAR => s.bar,
                    SldConst::SLD_X => s.x,
                    SldConst::SLD_Y => s.y,
                }),
                None => s.pos,
            },
            None => -999999i32,
        }),
{
    match found {
        Some(s) => {
            let p = match param {
                Some(p) => p,
                None => SldConst::SLD_POS,
            };
            s.get(p)
        },
        None => -999999,
    }
}

/// How `sendstr` enters text.
#[derive(PartialEq, Eq, Clone, Copy, Structural)]
pub enum SendStrMode {
    /// Insert at the caret.
    Append,
    /// Replace the contents.
    Replace,
    /// Insert at the caret one character at a time.
    OneByOne,
}

impl SendStrMode {
    /// The mode a number selects: 0 appends, 2 sends one by one, anything else replaces.
    pub fn from(n: i32) -> (r: SendStrMode)
        ensures
            r == (if n == 0 { SendStrMode::Append } else if n == 2 { SendStrMode::OneByOne } else { SendStrMode::Replace }),
    {
        if n == 0 {
            SendStrMode::Append
        } else if n == 2 {
            SendStrMode::OneByOne
        } else {
            SendStrMode::Replace
        }
    }
}

/// What mouse coordinates are relative to.
#[derive(PartialEq, Eq, Clone, Copy, Structural)]
pub enum MorgTarget {
    Window,
    Client,
    Direct,
}

/// Whether mouse input goes to the foreground or is posted to a background window.
#[derive(PartialEq, Eq, Clone, Copy, Structural)]
pub enum MorgContext {
    Fore,
    Back,
}

impl MorgTargetConst {
    /// The origin this constant selects.
    pub fn into_target(self) -> (r: MorgTarget)
        ensures
            r == (match self {
                MorgTargetConst::MORG_WINDOW => MorgTarget::Window,
                MorgTargetConst::MORG_CLIENT => MorgTarget::Client,
                MorgTargetConst::MORG_DIRECT => MorgTarget::Direct,
            }),
    {
        match self {
            MorgTargetConst::MORG_WINDOW => MorgTarget::Window,
            MorgTargetConst::MORG_CLIENT => MorgTarget::Client,
            MorgTargetConst::MORG_DIRECT => MorgTarget::Direct,
        }
    }
}

impl MorgContextConst {
    /// The context this constant selects.
    pub fn into_context(self) -> (r: MorgContext)
        ensures
            r == (match self {
                MorgContextConst::MORG_FORE => MorgContext::Fore,
                MorgContextConst::MORG_BACK => MorgContext::Back,
            }),
    {
        match self {
            MorgContextConst::MORG_FORE => MorgContext::Fore,
            MorgContextConst::MORG_BACK => MorgContext::Back,
        }
    }
}

} // verus!

verus! {

/// The `ctrlwin` builtin once the window id is read: nothing for an id without a window;
/// otherwise argument 1, the command (required; a number that names none gives no
/// command), and the window's handle, which then also becomes id 0.
pub fn ctrlwin(control: &mut WindowControl, id: i32, args: &BuiltinFuncArgs) -> (r: BuiltInResult<Option<(isize, Option<CtrlWinCmd>)>>)
    ensures
        hwnd_of(old(control).table(), id) == 0 ==> r == Ok::<Option<(isize, Option<CtrlWinCmd>)>, BuiltinFuncError>(None)
            && final(control).table() == old(control).table(),
        hwnd_of(old(control).table(), id) != 0 ==> match with_flag(args.objects(), 1, true, |o: ObjectModel| const_reading::<CtrlWinCmd>(o)) {
            Ok(c) => r == Ok::<Option<(isize, Option<CtrlWinCmd>)>, BuiltinFuncError>(Some((hwnd_of(old(control).table(), id), c)))
                && final(control).table() == old(control).table().insert(0, hwnd_of(old(control).table(), id)),
            Err(e) => r matches Err(x) && x.model() == e && final(control).table() == old(control).table(),
        },
        final(control).next() == old(control).next(),
{
    let hwnd = control.get_hwnd_from_id(id);
    if hwnd == 0 {
        return Ok(None);
    }
    let cmd = match args.get_as_const::<CtrlWinCmd>(1, true) {
        Ok(c) => c,
        Err(e) => return Err(e),
    };
    control.set_id_zero(hwnd);
    Ok(Some((hwnd, cmd)))
}

/// The `posacc` builtin's bookkeeping: the window of `id` becomes id 0.
pub fn posacc(control: &mut WindowControl, id: i32) -> (r: isize)
    ensures
        r == hwnd_of(old(control).table(), id),
        final(control).table() == old(control).table().insert(0, r),
        final(control).next() == old(control).next(),
{
    let hwnd = control.get_hwnd_from_id(id);
    control.set_id_zero(hwnd);
    hwnd
}

/// Where `getid` finds its window: a special window named by the title, or a search by
/// title.
pub enum GetIdTarget {
    Special(SpecialWindowId),
    Find,
}

/// The special window a title names, if any.
pub open spec fn special_of(title: Seq<char>) -> Option<SpecialWindowId> {
    if title == special_window_id_text(SpecialWindowId::GET_ACTIVE_WIN) {
        Some(SpecialWindowId::GET_ACTIVE_WIN)
    } else if title == special_window_id_text(SpecialWindowId::GET_FROMPOINT_WIN) {
        Some(SpecialWindowId::GET_FROMPOINT_WIN)
    } else if title == special_window_id_text(SpecialWindowId::GET_FROMPOINT_OBJ) {
        Some(SpecialWindowId::GET_FROMPOINT_OBJ)
    } else if title == special_window_id_text(SpecialWindowId::GET_CONSOLE_WIN) {
        Some(SpecialWindowId::GET_CONSOLE_WIN)
    } else if title == special_window_id_text(SpecialWindowId::GET_THISUWSC_WIN) {
        Some(SpecialWindowId::GET_THISUWSC_WIN)
    } else if title == special_window_id_text(SpecialWindowId::GET_LOGPRINT_WIN) {
        Some(SpecialWindowId::GET_LOGPRINT_WIN)
    } else if title == special_window_id_text(SpecialWindowId::GET_BALLOON_WIN) {
        Some(SpecialWindowId::GET_BALLOON_WIN)
    } else if title == special_window_id_text(SpecialWindowId::GET_FORM_WIN) {
        Some(SpecialWindowId::GET_FORM_WIN)
    } else if title == special_window_id_text(SpecialWindowId::GET_FORM_WIN2) {
        Some(SpecialWindowId::GET_FORM_WIN2)
    } else if title == special_window_id_text(SpecialWindowId::GET_SCHEDULE_WIN) {
        Some(SpecialWindowId::GET_SCHEDULE_WIN)
    } else if title == special_window_id_text(SpecialWindowId::GET_STOPFORM_WIN) {
        Some(SpecialWindowId::GET_STOPFORM_WIN)
    } else {
        None
    }
}

/// The special window `title` names, if any (see `special_of`). `__GET_FUKIDASI_WIN__` is
/// not one that `getid` knows.
pub fn special_window(title: &String) -> (r: Option<SpecialWindowId>)
    ensures
        r == special_of(title@),
{
    let ids = [
        SpecialWindowId::GET_ACTIVE_WIN,
        SpecialWindowId::GET_FROMPOINT_WIN,
        SpecialWindowId::GET_FROMPOINT_OBJ,
        SpecialWindowId::GET_CONSOLE_WIN,
        SpecialWindowId::GET_THISUWSC_WIN,
        SpecialWindowId::GET_LOGPRINT_WIN,
        SpecialWindowId::GET_BALLOON_WIN,
        SpecialWindowId::GET_FORM_WIN,
        SpecialWindowId::GET_FORM_WIN2,
        SpecialWindowId::GET_SCHEDULE_WIN,
        SpecialWindowId::GET_STOPFORM_WIN,
    ];
    proof {
        reveal_with_fuel(special_from, 13);
    }
    let mut k: usize = 0;
    while k < 11
        invariant
            k <= 11,
            ids@ == seq![
                SpecialWindowId::GET_ACTIVE_WIN,
                SpecialWindowId::GET_FROMPOINT_WIN,
                SpecialWindowId::GET_FROMPOINT_OBJ,
                SpecialWindowId::GET_CONSOLE_WIN,
                SpecialWindowId::GET_THISUWSC_WIN,
                SpecialWindowId::GET_LOGPRINT_WIN,
                SpecialWindowId::GET_BALLOON_WIN,
                SpecialWindowId::GET_FORM_WIN,
                SpecialWindowId::GET_FORM_WIN2,
                SpecialWindowId::GET_SCHEDULE_WIN,
                SpecialWindowId::GET_STOPFORM_WIN,
            ],
            forall|i: int| 0 <= i < k ==> title@ != special_window_id_text(#[trigger] ids@[i]),
            special_of(title@) == special_from(title@, ids@, 0),
        decreases 11 - k,
    {
        let id = ids[k];
        let t = id.text();
        if *title == t {
            proof {
                lemma_special_from(title@, ids@, k as int);
            }
            return Some(id);
        }
        k = k + 1;
    }
    proof {
        lemma_special_from(title@, ids@, 11);
    }
    None
}

/// The first of `ids` from `k` on whose text is `title`.
pub open spec fn special_from(title: Seq<char>, ids: Seq<SpecialWindowId>, k: int) -> Option<SpecialWindowId>
    decreases ids.len() - k,
{
    if k < 0 || k >= ids.len() {
        None
    } else if title == special_window_id_text(ids[k]) {
        Some(ids[k])
    } else {
        special_from(title, ids, k + 1)
    }
}

proof fn lemma_special_from(title: Seq<char>, ids: Seq<SpecialWindowId>, k: int)
    requires
        0 <= k <= ids.len(),
        forall|i: int| 0 <= i < k ==> title != special_window_id_text(#[trigger] ids[i]),
    ensures
        special_from(title, ids, 0) == special_from(title, ids, k),
    decreases k,
{
    if k > 0 {
        lemma_special_from(title, ids, k - 1);
    }
}

/// What `getid` reports for the handle it found: the window's id (a new one for a live
/// window not seen before), or -1 for a null handle or one that is not a window.
pub fn getid_result(control: &mut WindowControl, hwnd: isize, is_window: bool) -> (r: i32)
    requires
        hwnd > 0 && is_window && !has_handle(old(control).table(), hwnd) ==> old(control).next() < i32::MAX,
    ensures
        hwnd <= 0 ==> r == -1 && final(control).table() == old(control).table() && final(control).next() == old(control).next(),
        hwnd > 0 && r != -1 ==> hwnd_of(final(control).table(), r) == hwnd,
        hwnd > 0 && has_handle(old(control).table(), hwnd) ==> final(control).table() == old(control).table()
            && old(control).table().contains_key(r) && old(control).table()[r] == hwnd
            && final(control).next() == old(control).next(),
        hwnd > 0 && !has_handle(old(control).table(), hwnd) && is_window ==> r == old(control).next()
            && final(control).table() == old(control).table().insert(r, hwnd)
            && final(control).next() == old(control).next() + 1,
        hwnd > 0 && !has_handle(old(control).table(), hwnd) && !is_window ==> r == -1
            && final(control).table() == old(control).table() && final(control).next() == old(control).next(),
{
    if hwnd > 0 {
        control.get_id_from_hwnd(hwnd, is_window)
    } else {
        -1
    }
}


// ----- status -----

/// Which statuses a `status` call asks for.
pub enum StatusRequest {
    /// One status, returned as it is.
    One(StatusEnum),
    /// `ST_ALL`: the table of every status in `all_statuses`.
    All,
    /// More than one status argument: a table of the listed ones, in order.
    Many(Vec<StatusEnum>),
    /// The status argument selects nothing; the result is EMPTY.
    Nothing,
}

/// A `status` request as plain values.
pub enum StatusRequestModel {
    One(StatusEnum),
    All,
    Many(Seq<StatusEnum>),
    Nothing,
}

impl StatusRequest {
    pub open spec fn model(&self) -> StatusRequestModel {
        match self {
            StatusRequest::One(s) => StatusRequestModel::One(*s),
            StatusRequest::All => StatusRequestModel::All,
            StatusRequest::Many(v) => StatusRequestModel::Many(v@),
            StatusRequest::Nothing => StatusRequestModel::Nothing,
        }
    }
}

/// The statuses that the arguments from position `i` on select, in order; arguments that
/// select nothing are skipped, and the first argument that is refused gives the error.
pub open spec fn status_list(objs: Seq<ObjectModel>, i: int) -> Result<Seq<StatusEnum>, ErrorModel>
    decreases objs.len() - i,
{
    if i < 0 || i >= objs.len() {
        Ok(Seq::empty())
    } else {
        match const_reading::<StatusEnum>(objs[i]) {
            Err(e) => Err(e),
            Ok(c) => match status_list(objs, i + 1) {
                Err(e) => Err(e),
                Ok(rest) => Ok(match c {
                    Some(st) => seq![st] + rest,
                    None => rest,
                }),
            },
        }
    }
}

/// What `status(id, st, ...)` asks for, argument 0 (the window) aside: with more than one
/// status argument a table of them; otherwise argument 1 (required) alone, `ST_ALL`
/// meaning every status.
pub open spec fn status_call(objs: Seq<ObjectModel>) -> Result<StatusRequestModel, ErrorModel> {
    if objs.len() > 2 {
        match status_list(objs, 1) {
            Err(e) => Err(e),
            Ok(l) => Ok(StatusRequestModel::Many(l)),
        }
    } else {
        match with_flag(objs, 1, true, |o: ObjectModel| const_reading::<StatusEnum>(o)) {
            Err(e) => Err(e),
            Ok(None) => Ok(StatusRequestModel::Nothing),
            Ok(Some(st)) => Ok(if st == StatusEnum::ST_ALL { StatusRequestModel::All } else { StatusRequestModel::One(st) }),
        }
    }
}

/// The `status` request of a call (see `status_call`); the caller has read argument 0.
pub fn status_request(args: &BuiltinFuncArgs) -> (r: BuiltInResult<StatusRequest>)
    ensures
        outcome(r, |q: StatusRequest| q.model()) == status_call(args.objects()),
{
    let n = args.len();
    if n > 2 {
        let mut list: Vec<StatusEnum> = Vec::new();
        let mut i: usize = 1;
        while i < n
            invariant
                n == args.objects().len(),
                1 <= i <= n,
                status_list(args.objects(), 1) == (match status_list(args.objects(), i as int) {
                    Err(e) => Err(e),
                    Ok(rest) => Ok::<Seq<StatusEnum>, ErrorModel>(list@ + rest),
                }),
            decreases n - i,
        {
            let c = match args.get_as_const::<StatusEnum>(i, true) {
                Ok(c) => c,
                Err(e) => {
                    return Err(e);
                },
            };
            proof {
                let objs = args.objects();
                match status_list(objs, i as int + 1) {
                    Ok(rest) => match c {
                        Some(st) => assert(list@ + (seq![st] + rest) == list@.push(st) + rest),
                        None => {},
                    },
                    Err(_) => {},
                }
            }
            match c {
                Some(st) => list.push(st),
                None => {},
            }
            i = i + 1;
        }
        proof {
            assert(list@ + Seq::<StatusEnum>::empty() == list@);
        }
        Ok(StatusRequest::Many(list))
    } else {
        match args.get_as_const::<StatusEnum>(1, true) {
            Err(e) => Err(e),
            Ok(None) => Ok(StatusRequest::Nothing),
            Ok(Some(st)) => if st == StatusEnum::ST_ALL {
                Ok(StatusRequest::All)
            } else {
                Ok(StatusRequest::One(st))
            },
        }
    }
}

/// The statuses in the table that `ST_ALL` gives, in its order: every status up to
/// `ST_MONITOR`; the window rectangle (`ST_WX` to `ST_WHEIGHT`) is not among them.
pub fn all_statuses() -> (r: Vec<StatusEnum>)
    ensures
        r@ == seq![
            StatusEnum::ST_TITLE, StatusEnum::ST_CLASS, StatusEnum::ST_X, StatusEnum::ST_Y,
            StatusEnum::ST_WIDTH, StatusEnum::ST_HEIGHT, StatusEnum::ST_CLX, StatusEnum::ST_CLY,
            StatusEnum::ST_CLWIDTH, StatusEnum::ST_CLHEIGHT, StatusEnum::ST_PARENT,
            StatusEnum::ST_ICON, StatusEnum::ST_MAXIMIZED, StatusEnum::ST_VISIBLE,
            StatusEnum::ST_ACTIVE, StatusEnum::ST_BUSY, StatusEnum::ST_ISID, StatusEnum::ST_WIN64,
            StatusEnum::ST_PATH, StatusEnum::ST_PROCESS, StatusEnum::ST_MONITOR,
        ],
{
    vec![
        StatusEnum::ST_TITLE, StatusEnum::ST_CLASS, StatusEnum::ST_X, StatusEnum::ST_Y,
        StatusEnum::ST_WIDTH, StatusEnum::ST_HEIGHT, StatusEnum::ST_CLX, StatusEnum::ST_CLY,
        StatusEnum::ST_CLWIDTH, StatusEnum::ST_CLHEIGHT, StatusEnum::ST_PARENT,
        StatusEnum::ST_ICON, StatusEnum::ST_MAXIMIZED, StatusEnum::ST_VISIBLE,
        StatusEnum::ST_ACTIVE, StatusEnum::ST_BUSY, StatusEnum::ST_ISID, StatusEnum::ST_WIN64,
        StatusEnum::ST_PATH, StatusEnum::ST_PROCESS, StatusEnum::ST_MONITOR,
    ]
}

} // verus!
