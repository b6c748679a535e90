//! The accessibility (MSAA) side of the window builtins: roles, which parent roles
//! hold the items `clkitem` and `getitem` look for, and how `getitem` collects texts.

use vstd::prelude::*;
use crate::array::joined;
use crate::consts::GetItemConst;
use crate::std_calls::push_char;
use crate::strings::chars_of;

verus! {

/// What `clkitem` did through accessibility.
pub enum AccClickReason {
    /// Ran the default action (named).
    DefaultAction(String),
    /// Selected the item.
    Select,
    /// Failed the default action (named) and selected the item.
    DefaultActionAndSelect(String),
}

/// Whether an accessibility click succeeded, and how.
pub struct AccClickResult(pub bool, pub AccClickReason);

impl AccClickResult {
    /// A result.
    pub fn new(result: bool, reason: AccClickReason) -> (r: AccClickResult)
        ensures
            r.0 == result,
            r.1 == reason,
    {
        AccClickResult(result, reason)
    }

    /// Whether the click succeeded.
    pub fn as_bool(&self) -> (r: bool)
        ensures
            r == self.0,
    {
        self.0
    }
}

/// Flag tests on `u32` option numbers.
pub trait U32Ext {
    /// The flags as a number.
    spec fn flags(&self) -> u32;

    /// Whether every bit of `other` is set in `self`.
    fn includes(&self, other: u32) -> (r: bool)
        ensures
            r == (self.flags() & other == other);
}

impl U32Ext for u32 {
    open spec fn flags(&self) -> u32 {
        *self
    }

    fn includes(&self, other: u32) -> (r: bool) {
        (*self & other) == other
    }
}

/// The accessibility role of an element (MSAA `ROLE_SYSTEM_*`), `Unknown` with its
/// number for any other.
#[derive(PartialEq, Eq, Clone, Copy, Structural)]
pub enum AccRole {
    Alert,
    Animation,
    Application,
    Border,
    ButtonDropdown,
    ButtonDropdownGrid,
    ButtonMenu,
    Caret,
    Cell,
    Character,
    Chart,
    CheckButton,
    Client,
    Clock,
    Column,
    ColumnHeader,
    Combobox,
    Cursor,
    Diagram,
    Dial,
    Dialog,
    Document,
    Droplist,
    Equation,
    Graphic,
    Grip,
    Grouping,
    HelpBalloon,
    HotkeyField,
    Indicator,
    Ipaddress,
    Link,
    List,
    ListItem,
    MenuBar,
    MenuItem,
    MenuPopup,
    Outline,
    OutlineButton,
    OutlineItem,
    PageTab,
    PageTablist,
    Pane,
    ProgressBar,
    PropertyPage,
    PushButton,
    RadioButton,
    Row,
    RowHeader,
    ScrollBar,
    Separator,
    Slider,
    Sound,
    SpinButton,
    SplitButton,
    StaticText,
    StatusBar,
    Table,
    Text,
    TitleBar,
    ToolBar,
    Tooltip,
    Whitespace,
    Window,
    Unknown(i32),
}

/// The role number of each known role (MSAA `ROLE_SYSTEM_*`).
pub open spec fn role_number(r: AccRole) -> int {
    match r {
        AccRole::Alert => 8,
        AccRole::Animation => 54,
        AccRole::Application => 14,
        AccRole::Border => 19,
        AccRole::ButtonDropdown => 56,
        AccRole::ButtonDropdownGrid => 58,
        AccRole::ButtonMenu => 57,
        AccRole::Caret => 7,
        AccRole::Cell => 29,
        AccRole::Character => 32,
        AccRole::Chart => 17,
        AccRole::CheckButton => 44,
        AccRole::Client => 10,
        AccRole::Clock => 61,
        AccRole::Column => 27,
        AccRole::ColumnHeader => 25,
        AccRole::Combobox => 46,
        AccRole::Cursor => 6,
        AccRole::Diagram => 53,
        AccRole::Dial => 49,
        AccRole::Dialog => 18,
        AccRole::Document => 15,
        AccRole::Droplist => 47,
        AccRole::Equation => 55,
        AccRole::Graphic => 40,
        AccRole::Grip => 4,
        AccRole::Grouping => 20,
        AccRole::HelpBalloon => 31,
        AccRole::HotkeyField => 50,
        AccRole::Indicator => 39,
        AccRole::Ipaddress => 63,
        AccRole::Link => 30,
        AccRole::List => 33,
        AccRole::ListItem => 34,
        AccRole::MenuBar => 2,
        AccRole::MenuItem => 12,
        AccRole::MenuPopup => 11,
        AccRole::Outline => 35,
        AccRole::OutlineButton => 64,
        AccRole::OutlineItem => 36,
        AccRole::PageTab => 37,
        AccRole::PageTablist => 60,
        AccRole::Pane => 16,
        AccRole::ProgressBar => 48,
        AccRole::PropertyPage => 38,
        AccRole::PushButton => 43,
        AccRole::RadioButton => 45,
        AccRole::Row => 28,
        AccRole::RowHeader => 26,
        AccRole::ScrollBar => 3,
        AccRole::Separator => 21,
        AccRole::Slider => 51,
        AccRole::Sound => 5,
        AccRole::SpinButton => 52,
        AccRole::SplitButton => 62,
        AccRole::StaticText => 41,
        AccRole::StatusBar => 23,
        AccRole::Table => 24,
        AccRole::Text => 42,
        AccRole::TitleBar => 1,
        AccRole::ToolBar => 22,
        AccRole::Tooltip => 13,
        AccRole::Whitespace => 59,
        AccRole::Window => 9,
        AccRole::Unknown(n) => n as int,
    }
}

/// The role a role number stands for.
pub open spec fn role_of(n: i32) -> AccRole {
    if n == 8 {
        AccRole::Alert
    } else if n == 54 {
        AccRole::Animation
    } else if n == 14 {
        AccRole::Application
    } else if n == 19 {
        AccRole::Border
    } else if n == 56 {
        AccRole::ButtonDropdown
    } else if n == 58 {
        AccRole::ButtonDropdownGrid
    } else if n == 57 {
        AccRole::ButtonMenu
    } else if n == 7 {
        AccRole::Caret
    } else if n == 29 {
        AccRole::Cell
    } else if n == 32 {
        AccRole::Character
    } else if n == 17 {
        AccRole::Chart
    } else if n == 44 {
        AccRole::CheckButton
    } else if n == 10 {
        AccRole::Client
    } else if n == 61 {
        AccRole::Clock
    } else if n == 27 {
        AccRole::Column
    } else if n == 25 {
        AccRole::ColumnHeader
    } else if n == 46 {
        AccRole::Combobox
    } else if n == 6 {
        AccRole::Cursor
    } else if n == 53 {
        AccRole::Diagram
    } else if n == 49 {
        AccRole::Dial
    } else if n == 18 {
        AccRole::Dialog
    } else if n == 15 {
        AccRole::Document
    } else if n == 47 {
        AccRole::Droplist
    } else if n == 55 {
        AccRole::Equation
    } else if n == 40 {
        AccRole::Graphic
    } else if n == 4 {
        AccRole::Grip
    } else if n == 20 {
        AccRole::Grouping
    } else if n == 31 {
        AccRole::HelpBalloon
    } else if n == 50 {
        AccRole::HotkeyField
    } else if n == 39 {
        AccRole::Indicator
    } else if n == 63 {
        AccRole::Ipaddress
    } else if n == 30 {
        AccRole::Link
    } else if n == 33 {
        AccRole::List
    } else if n == 34 {
        AccRole::ListItem
    } else if n == 2 {
        AccRole::MenuBar
    } else if n == 12 {
        AccRole::MenuItem
    } else if n == 11 {
        AccRole::MenuPopup
    } else if n == 35 {
        AccRole::Outline
    } else if n == 64 {
        AccRole::OutlineButton
    } else if n == 36 {
        AccRole::OutlineItem
    } else if n == 37 {
        AccRole::PageTab
    } else if n == 60 {
        AccRole::PageTablist
    } else if n == 16 {
        AccRole::Pane
    } else if n == 48 {
        AccRole::ProgressBar
    } else if n == 38 {
        AccRole::PropertyPage
    } else if n == 43 {
        AccRole::PushButton
    } else if n == 45 {
        AccRole::RadioButton
    } else if n == 28 {
        AccRole::Row
    } else if n == 26 {
        AccRole::RowHeader
    } else if n == 3 {
        AccRole::ScrollBar
    } else if n == 21 {
        AccRole::Separator
    } else if n == 51 {
        AccRole::Slider
    } else if n == 5 {
        AccRole::Sound
    } else if n == 52 {
        AccRole::SpinButton
    } else if n == 62 {
        AccRole::SplitButton
    } else if n == 41 {
        AccRole::StaticText
    } else if n == 23 {
        AccRole::StatusBar
    } else if n == 24 {
        AccRole::Table
    } else if n == 42 {
        AccRole::Text
    } else if n == 1 {
        AccRole::TitleBar
    } else if n == 22 {
        AccRole::ToolBar
    } else if n == 13 {
        AccRole::Tooltip
    } else if n == 59 {
        AccRole::Whitespace
    } else if n == 9 {
        AccRole::Window
    } else {
        AccRole::Unknown(n)
    }
}

/// Every role number reads back: the role a number stands for has that number.
pub proof fn law_role_number_roundtrip(n: i32)
    ensures
        role_number(role_of(n)) == n,
{
}

impl AccRole {
    /// The role a role number stands for.
    pub fn from_code(n: i32) -> (r: AccRole)
        ensures
            r == role_of(n),
    {
        if n == 8 {
            AccRole::Alert
        } else if n == 54 {
            AccRole::Animation
        } else if n == 14 {
            AccRole::Application
        } else if n == 19 {
            AccRole::Border
        } else if n == 56 {
            AccRole::ButtonDropdown
        } else if n == 58 {
            AccRole::ButtonDropdownGrid
        } else if n == 57 {
            AccRole::ButtonMenu
        } else if n == 7 {
            AccRole::Caret
        } else if n == 29 {
            AccRole::Cell
        } else if n == 32 {
            AccRole::Character
        } else if n == 17 {
            AccRole::Chart
        } else if n == 44 {
            AccRole::CheckButton
        } else if n == 10 {
            AccRole::Client
        } else if n == 61 {
            AccRole::Clock
        } else if n == 27 {
            AccRole::Column
        } else if n == 25 {
            AccRole::ColumnHeader
        } else if n == 46 {
            AccRole::Combobox
        } else if n == 6 {
            AccRole::Cursor
        } else if n == 53 {
            AccRole::Diagram
        } else if n == 49 {
            AccRole::Dial
        } else if n == 18 {
            AccRole::Dialog
        } else if n == 15 {
            AccRole::Document
        } else if n == 47 {
            AccRole::Droplist
        } else if n == 55 {
            AccRole::Equation
        } else if n == 40 {
            AccRole::Graphic
        } else if n == 4 {
            AccRole::Grip
        } else if n == 20 {
            AccRole::Grouping
        } else if n == 31 {
            AccRole::HelpBalloon
        } else if n == 50 {
            AccRole::HotkeyField
        } else if n == 39 {
            AccRole::Indicator
        } else if n == 63 {
            AccRole::Ipaddress
        } else if n == 30 {
            AccRole::Link
        } else if n == 33 {
            AccRole::List
        } else if n == 34 {
            AccRole::ListItem
        } else if n == 2 {
            AccRole::MenuBar
        } else if n == 12 {
            AccRole::MenuItem
        } else if n == 11 {
            AccRole::MenuPopup
        } else if n == 35 {
            AccRole::Outline
        } else if n == 64 {
            AccRole::OutlineButton
        } else if n == 36 {
            AccRole::OutlineItem
        } else if n == 37 {
            AccRole::PageTab
        } else if n == 60 {
            AccRole::PageTablist
        } else if n == 16 {
            AccRole::Pane
        } else if n == 48 {
            AccRole::ProgressBar
        } else if n == 38 {
            AccRole::PropertyPage
        } else if n == 43 {
            AccRole::PushButton
        } else if n == 45 {
            AccRole::RadioButton
        } else if n == 28 {
            AccRole::Row
        } else if n == 26 {
            AccRole::RowHeader
        } else if n == 3 {
            AccRole::ScrollBar
        } else if n == 21 {
            AccRole::Separator
        } else if n == 51 {
            AccRole::Slider
        } else if n == 5 {
            AccRole::Sound
        } else if n == 52 {
            AccRole::SpinButton
        } else if n == 62 {
            AccRole::SplitButton
        } else if n == 41 {
            AccRole::StaticText
        } else if n == 23 {
            AccRole::StatusBar
        } else if n == 24 {
            AccRole::Table
        } else if n == 42 {
            AccRole::Text
        } else if n == 1 {
            AccRole::TitleBar
        } else if n == 22 {
            AccRole::ToolBar
        } else if n == 13 {
            AccRole::Tooltip
        } else if n == 59 {
            AccRole::Whitespace
        } else if n == 9 {
            AccRole::Window
        } else {
            AccRole::Unknown(n)
        }
    }
}

/// The kinds of item that `clkitem` looks for.
pub struct ClkTarget {
    pub button: bool,
    pub list: bool,
    pub tab: bool,
    pub menu: bool,
    pub treeview: bool,
    pub listview: bool,
    pub toolbar: bool,
    pub link: bool,
}

/// The parent roles under which the asked kinds of item are looked for, in this order:
/// windows for buttons; lists and combo boxes for lists; tab lists; menu bars; outlines
/// for tree views; lists for list views; tool bars; clients for links.
pub open spec fn parent_roles(t: ClkTarget) -> Seq<AccRole> {
    roles_if(t.button, AccRole::Window, None)
        + roles_if(t.list, AccRole::List, Some(AccRole::Combobox))
        + roles_if(t.tab, AccRole::PageTablist, None)
        + roles_if(t.menu, AccRole::MenuBar, None)
        + roles_if(t.treeview, AccRole::Outline, None)
        + roles_if(t.listview, AccRole::List, None)
        + roles_if(t.toolbar, AccRole::ToolBar, None)
        + roles_if(t.link, AccRole::Client, None)
}

/// Whether a parent role holds items of `role`: buttons under windows, list items under
/// lists and combo boxes, tabs under tab lists, menu items under menu bars, outline items
/// and buttons under outlines, push buttons under tool bars, links under clients; text,
/// static text and cells hold anything.
pub open spec fn holds(parent: AccRole, role: AccRole) -> bool {
    match parent {
        AccRole::Window => role == AccRole::PushButton || role == AccRole::CheckButton
            || role == AccRole::RadioButton || role == AccRole::ButtonDropdown
            || role == AccRole::ButtonDropdownGrid || role == AccRole::ButtonMenu,
        AccRole::List => role == AccRole::ListItem,
        AccRole::Combobox => role == AccRole::ListItem,
        AccRole::PageTablist => role == AccRole::PageTab,
        AccRole::MenuBar => role == AccRole::MenuItem || role == AccRole::MenuPopup,
        AccRole::Outline => role == AccRole::OutlineItem || role == AccRole::OutlineButton,
        AccRole::ToolBar => role == AccRole::PushButton,
        AccRole::Client => role == AccRole::Link,
        AccRole::Text | AccRole::StaticText | AccRole::Cell => true,
        _ => false,
    }
}

/// The roles `a` (and `b`) when `cond` holds, else none.
pub open spec fn roles_if(cond: bool, a: AccRole, b: Option<AccRole>) -> Seq<AccRole> {
    if cond {
        match b {
            Some(b) => seq![a, b],
            None => seq![a],
        }
    } else {
        Seq::empty()
    }
}

fn push_roles(v: &mut Vec<AccRole>, cond: bool, a: AccRole, b: Option<AccRole>)
    ensures
        final(v)@ == old(v)@ + roles_if(cond, a, b),
{
    if cond {
        v.push(a);
        match b {
            Some(b) => {
                v.push(b);
            },
            None => {},
        }
    }
    assert(v@ =~= old(v)@ + roles_if(cond, a, b));
}

/// The parent roles to search under.
pub struct TargetRole {
    pub parent: Vec<AccRole>,
}

impl TargetRole {
    /// Searching under the given parent roles.
    pub fn new(parent: Vec<AccRole>) -> (r: TargetRole)
        ensures
            r.parent@ == parent@,
    {
        TargetRole { parent }
    }

    /// The parent roles for the kinds of item asked (see `parent_roles`).
    pub fn from_target(t: &ClkTarget) -> (r: TargetRole)
        ensures
            r.parent@ == parent_roles(*t),
    {
        let mut parent: Vec<AccRole> = Vec::new();
        push_roles(&mut parent, t.button, AccRole::Window, None);
        assert(parent@ =~= roles_if(t.button, AccRole::Window, None));
        push_roles(&mut parent, t.list, AccRole::List, Some(AccRole::Combobox));
        push_roles(&mut parent, t.tab, AccRole::PageTablist, None);
        push_roles(&mut parent, t.menu, AccRole::MenuBar, None);
        push_roles(&mut parent, t.treeview, AccRole::Outline, None);
        push_roles(&mut parent, t.listview, AccRole::List, None);
        push_roles(&mut parent, t.toolbar, AccRole::ToolBar, None);
        push_roles(&mut parent, t.link, AccRole::Client, None);
        TargetRole::new(parent)
    }

    /// Whether `role` is one of the parent roles.
    pub fn match_parent(&self, role: AccRole) -> (r: bool)
        ensures
            r == self.parent@.contains(role),
    {
        let mut k: usize = 0;
        while k < self.parent.len()
            invariant
                k <= self.parent@.len(),
                forall|i: int| 0 <= i < k ==> self.parent@[i] != role,
            decreases self.parent.len() - k,
        {
            if self.parent[k] == role {
                return true;
            }
            k = k + 1;
        }
        false
    }

    /// Whether `parent` holds items of `role` (see `holds`).
    pub fn contains(&self, parent: AccRole, role: AccRole) -> (r: bool)
        ensures
            r == holds(parent, role),
    {
        match parent {
            AccRole::Window => match role {
                AccRole::PushButton | AccRole::CheckButton | AccRole::RadioButton | AccRole::ButtonDropdown
                | AccRole::ButtonDropdownGrid | AccRole::ButtonMenu => true,
                _ => false,
            },
            AccRole::List => role == AccRole::ListItem,
            AccRole::Combobox => role == AccRole::ListItem,
            AccRole::PageTablist => role == AccRole::PageTab,
            AccRole::MenuBar => match role {
                AccRole::MenuItem | AccRole::MenuPopup => true,
                _ => false,
            },
            AccRole::Outline => match role {
                AccRole::OutlineItem | AccRole::OutlineButton => true,
                _ => false,
            },
            AccRole::ToolBar => role == AccRole::PushButton,
            AccRole::Client => role == AccRole::Link,
            AccRole::Text | AccRole::StaticText | AccRole::Cell => true,
            _ => false,
        }
    }

    /// Whether invisible elements under `role` are skipped: everywhere but in outlines
    /// and combo boxes.
    pub fn ignore_invisible(role: AccRole) -> (r: bool)
        ensures
            r == !(role == AccRole::Outline || role == AccRole::Combobox),
    {
        match role {
            AccRole::Outline | AccRole::Combobox => false,
            _ => true,
        }
    }
}

/// How `getitem` collects texts through accessibility: which controls, whether to click,
/// from which end, and how many.
pub struct GetItem {
    pub edit: bool,
    pub is_static: bool,
    pub click: bool,
    pub click2: bool,
    pub count: Option<u32>,
    pub backward: bool,
    pub found: Vec<String>,
}

/// Whether every bit of `flag` is set in `opt`.
pub open spec fn has_flag(opt: u32, flag: int) -> bool {
    opt & (flag as u32) == flag as u32
}

/// Whether a text is taken: it is not empty and the count leaves room.
pub open spec fn room(value: Seq<char>, count: Option<u32>) -> bool {
    value.len() > 0 && (match count {
        Some(c) => c > 0,
        None => false,
    })
}

impl GetItem {
    /// The collection `opt` (`ITM_*` flags) asks for, with at most `acc_max` texts: a
    /// positive number counts from the front, a negative one from the back, 0 takes none.
    pub fn new(opt: u32, acc_max: i32) -> (r: GetItem)
        requires
            acc_max != i32::MIN,
        ensures
            r.edit == has_flag(opt, GetItemConst::ITM_ACCEDIT.number()),
            r.is_static == has_flag(opt, GetItemConst::ITM_ACCTXT.number()),
            r.click == (has_flag(opt, GetItemConst::ITM_ACCCLK2.number()) || has_flag(opt, GetItemConst::ITM_ACCCLK.number())),
            r.click2 == has_flag(opt, GetItemConst::ITM_ACCCLK2.number()),
            r.backward == (has_flag(opt, GetItemConst::ITM_FROMLAST.number()) || acc_max < 0),
            r.count == (if acc_max > 0 {
                Some(acc_max as u32)
            } else if acc_max < 0 {
                Some((-acc_max) as u32)
            } else {
                None
            }),
            r.found@.len() == 0,
    {
        let edit = opt.includes(GetItemConst::ITM_ACCEDIT.value() as u32);
        let is_static = opt.includes(GetItemConst::ITM_ACCTXT.value() as u32);
        let (click, click2) = if opt.includes(GetItemConst::ITM_ACCCLK2.value() as u32) {
            (true, true)
        } else if opt.includes(GetItemConst::ITM_ACCCLK.value() as u32) {
            (true, false)
        } else {
            (false, false)
        };
        let mut backward = opt.includes(GetItemConst::ITM_FROMLAST.value() as u32);
        let count = if acc_max > 0 {
            Some(acc_max as u32)
        } else if acc_max < 0 {
            backward = true;
            Some((-acc_max) as u32)
        } else {
            None
        };
        GetItem { edit, is_static, click, click2, count, backward, found: Vec::new() }
    }

    /// Takes a text found while there is room left: an empty text, or one beyond the
    /// count, is not taken (`None`).
    pub fn add(&mut self, value: String) -> (r: Option<()>)
        ensures
            final(self).edit == old(self).edit && final(self).is_static == old(self).is_static,
            final(self).click == old(self).click && final(self).click2 == old(self).click2,
            final(self).backward == old(self).backward,
            room(value@, old(self).count) ==> r is Some
                && final(self).found@ == old(self).found@.push(value)
                && final(self).count == Some((old(self).count->0 - 1) as u32),
            !room(value@, old(self).count) ==> r is None
                && final(self).found@ == old(self).found@ && final(self).count == old(self).count,
    {
        if !value.as_str().is_empty() {
            match self.count {
                Some(c) => {
                    if c > 0 {
                        self.found.push(value);
                        self.count = Some(c - 1);
                        return Some(());
                    }
                },
                None => {},
            }
        }
        None
    }
}

/// A clickable point found through UI Automation, if any.
pub struct UIAClickPoint(pub Option<(i32, i32)>);


// ----- search items -----

/// The views of a list of strings.
pub open spec fn texts_of(v: Seq<String>) -> Seq<Seq<char>> {
    v.map_values(|t: String| t@)
}

/// Whether `s` holds the character `c`.
pub fn has_char(s: &str, c: char) -> (r: bool)
    ensures
        r == s@.contains(c),
{
    let cs = chars_of(s);
    let mut i: usize = 0;
    while i < cs.len()
        invariant
            cs@ == s@,
            i <= cs@.len(),
            forall|k: int| 0 <= k < i ==> cs@[k] != c,
        decreases cs.len() - i,
    {
        if cs[i] == c {
            return true;
        }
        i = i + 1;
    }
    false
}

proof fn lemma_joined_push(ps: Seq<Seq<char>>, p: Seq<char>, sep: Seq<char>)
    requires
        ps.len() >= 1,
    ensures
        joined(ps.push(p), sep) == joined(ps, sep) + sep + p,
{
    assert(ps.push(p).drop_last() =~= ps);
}

proof fn lemma_joined_grow_last(ps: Seq<Seq<char>>, x: Seq<char>, c: char, sep: Seq<char>)
    ensures
        joined(ps.push(x.push(c)), sep) == joined(ps.push(x), sep).push(c),
{
    assert(ps.push(x.push(c)).drop_last() =~= ps);
    assert(ps.push(x).drop_last() =~= ps);
    if ps.len() == 0 {
        assert(joined(ps.push(x.push(c)), sep) == x.push(c));
    } else {
        assert(joined(ps, sep) + sep + x.push(c) =~= (joined(ps, sep) + sep + x).push(c));
    }
}

/// `s` cut at each tab: the pieces, joined again with tabs, give `s`, and none of them
/// holds a tab; there is always at least one piece.
pub fn split_tabs(s: &str) -> (r: Vec<String>)
    ensures
        r@.len() >= 1,
        joined(texts_of(r@), seq!['\t']) == s@,
        forall|k: int| 0 <= k < r@.len() ==> !(#[trigger] r@[k])@.contains('\t'),
{
    let cs = chars_of(s);
    let mut parts: Vec<String> = Vec::new();
    let mut cur = String::new();
    let mut i: usize = 0;
    proof {
        assert(texts_of(parts@).push(cur@) =~= seq![Seq::<char>::empty()]);
        assert(s@.take(0) =~= Seq::<char>::empty());
    }
    while i < cs.len()
        invariant
            cs@ == s@,
            i <= cs@.len(),
            joined(texts_of(parts@).push(cur@), seq!['\t']) == s@.take(i as int),
            forall|k: int| 0 <= k < parts@.len() ==> !(#[trigger] parts@[k])@.contains('\t'),
            !cur@.contains('\t'),
        decreases cs.len() - i,
    {
        let c = cs[i];
        let ghost before = texts_of(parts@).push(cur@);
        if c == '\t' {
            parts.push(cur);
            cur = String::new();
            proof {
                assert(texts_of(parts@) =~= before);
                lemma_joined_push(before, Seq::<char>::empty(), seq!['\t']);
                assert(texts_of(parts@).push(cur@) =~= before.push(Seq::<char>::empty()));
                assert(s@.take(i as int + 1) =~= s@.take(i as int) + seq!['\t'] + Seq::<char>::empty());
            }
        } else {
            let ghost old_cur = cur@;
            push_char(&mut cur, c);
            proof {
                lemma_joined_grow_last(texts_of(parts@), old_cur, c, seq!['\t']);
                assert(s@.take(i as int + 1) =~= s@.take(i as int).push(c));
                assert forall|x: char| cur@.contains(x) implies x != '\t' by {
                    if x == '\t' {
                        let j = choose|j: int| 0 <= j < cur@.len() && cur@[j] == x;
                        if j < old_cur.len() {
                            assert(old_cur[j] == x);
                        }
                    }
                }
            }
        }
        i = i + 1;
    }
    let ghost last = cur@;
    let ghost old_parts = parts@;
    parts.push(cur);
    proof {
        assert(texts_of(parts@) =~= texts_of(old_parts).push(last));
        assert(s@.take(cs@.len() as int) =~= s@);
    }
    parts
}

/// An item that `clkitem` and `getitem` look for through accessibility: a name, or (for a
/// name with tabs) a group of names any of which matches; whether a prefix is enough; and
/// the parent roles to search under.
pub struct SearchItem {
    pub name: String,
    pub short: bool,
    pub target: TargetRole,
    pub group: Vec<String>,
}

impl SearchItem {
    /// An item for `name`: a name holding tabs becomes the group of its tab-separated
    /// parts (see `split_tabs`) with an empty name; any other name stands alone.
    pub fn new(name: String, short: bool, target: TargetRole) -> (r: SearchItem)
        ensures
            r.short == short,
            r.target == target,
            name@.contains('\t') ==> r.name@ == Seq::<char>::empty()
                && r.group@.len() >= 1
                && joined(texts_of(r.group@), seq!['\t']) == name@
                && forall|k: int| 0 <= k < r.group@.len() ==> !(#[trigger] r.group@[k])@.contains('\t'),
            !name@.contains('\t') ==> r.name@ == name@ && r.group@.len() == 0,
    {
        if has_char(name.as_str(), '\t') {
            let group = split_tabs(name.as_str());
            SearchItem { name: String::new(), short, target, group }
        } else {
            SearchItem { name, short, target, group: Vec::new() }
        }
    }

    /// Whether the item is a group of names.
    pub fn is_group(&self) -> (r: bool)
        ensures
            r == (self.group@.len() > 0),
    {
        self.group.len() > 0
    }

    /// Whether the name is a path of menu items (holds a backslash).
    pub fn is_path(&self) -> (r: bool)
        ensures
            r == self.name@.contains('\\'),
    {
        has_char(self.name.as_str(), '\\')
    }

    /// Counts one more match: whether it is the one asked for (the order reaches 0).
    pub fn is_in_exact_order(order: &mut u32) -> (r: bool)
        requires
            *old(order) >= 1,
        ensures
            *final(order) == *old(order) - 1,
            r == (*final(order) < 1),
    {
        *order = *order - 1;
        *order < 1
    }
}


proof fn lemma_roles_if_contains(cond: bool, a: AccRole, b: Option<AccRole>, x: AccRole)
    ensures
        roles_if(cond, a, b).contains(x) <==> cond && (x == a || b == Some(x)),
{
    let s = roles_if(cond, a, b);
    if cond {
        assert(s[0] == a);
        if let Some(y) = b {
            assert(s[1] == y);
            if s.contains(x) {
                let k = choose|k: int| 0 <= k < s.len() && s[k] == x;
                assert(k == 0 || k == 1);
            }
        } else {
            if s.contains(x) {
                let k = choose|k: int| 0 <= k < s.len() && s[k] == x;
                assert(k == 0);
            }
        }
    }
}

proof fn lemma_parent_roles_contains(t: ClkTarget, y: AccRole)
    ensures
        parent_roles(t).contains(y) <==> (t.button && y == AccRole::Window)
            || (t.list && (y == AccRole::List || y == AccRole::Combobox))
            || (t.tab && y == AccRole::PageTablist)
            || (t.menu && y == AccRole::MenuBar)
            || (t.treeview && y == AccRole::Outline)
            || (t.listview && y == AccRole::List)
            || (t.toolbar && y == AccRole::ToolBar)
            || (t.link && y == AccRole::Client),
{
    let p1 = roles_if(t.button, AccRole::Window, None);
    let p2 = roles_if(t.list, AccRole::List, Some(AccRole::Combobox));
    let p3 = roles_if(t.tab, AccRole::PageTablist, None);
    let p4 = roles_if(t.menu, AccRole::MenuBar, None);
    let p5 = roles_if(t.treeview, AccRole::Outline, None);
    let p6 = roles_if(t.listview, AccRole::List, None);
    let p7 = roles_if(t.toolbar, AccRole::ToolBar, None);
    let p8 = roles_if(t.link, AccRole::Client, None);
    lemma_roles_if_contains(t.button, AccRole::Window, None, y);
    lemma_roles_if_contains(t.list, AccRole::List, Some(AccRole::Combobox), y);
    lemma_roles_if_contains(t.tab, AccRole::PageTablist, None, y);
    lemma_roles_if_contains(t.menu, AccRole::MenuBar, None, y);
    lemma_roles_if_contains(t.treeview, AccRole::Outline, None, y);
    lemma_roles_if_contains(t.listview, AccRole::List, None, y);
    lemma_roles_if_contains(t.toolbar, AccRole::ToolBar, None, y);
    lemma_roles_if_contains(t.link, AccRole::Client, None, y);
    vstd::seq_lib::lemma_seq_concat_contains_all_elements(p1, p2, y);
    vstd::seq_lib::lemma_seq_concat_contains_all_elements(p1 + p2, p3, y);
    vstd::seq_lib::lemma_seq_concat_contains_all_elements(p1 + p2 + p3, p4, y);
    vstd::seq_lib::lemma_seq_concat_contains_all_elements(p1 + p2 + p3 + p4, p5, y);
    vstd::seq_lib::lemma_seq_concat_contains_all_elements(p1 + p2 + p3 + p4 + p5, p6, y);
    vstd::seq_lib::lemma_seq_concat_contains_all_elements(p1 + p2 + p3 + p4 + p5 + p6, p7, y);
    vstd::seq_lib::lemma_seq_concat_contains_all_elements(p1 + p2 + p3 + p4 + p5 + p6 + p7, p8, y);
}

/// The search goes under a parent role exactly when an item kind that lives there is
/// asked for: windows for buttons, combo boxes for lists, lists for lists or list views,
/// tab lists for tabs, menu bars for menus, outlines for tree views, tool bars for tool
/// bar buttons, clients for links; under no other role.
pub proof fn law_parent_roles_follow_target(t: ClkTarget, x: AccRole)
    ensures
        parent_roles(t).contains(AccRole::Window) == t.button,
        parent_roles(t).contains(AccRole::Combobox) == t.list,
        parent_roles(t).contains(AccRole::List) == (t.list || t.listview),
        parent_roles(t).contains(AccRole::PageTablist) == t.tab,
        parent_roles(t).contains(AccRole::MenuBar) == t.menu,
        parent_roles(t).contains(AccRole::Outline) == t.treeview,
        parent_roles(t).contains(AccRole::ToolBar) == t.toolbar,
        parent_roles(t).contains(AccRole::Client) == t.link,
        parent_roles(t).contains(x) ==> (x == AccRole::Window || x == AccRole::Combobox || x == AccRole::List
            || x == AccRole::PageTablist || x == AccRole::MenuBar || x == AccRole::Outline
            || x == AccRole::ToolBar || x == AccRole::Client),
{
    lemma_parent_roles_contains(t, AccRole::Window);
    lemma_parent_roles_contains(t, AccRole::Combobox);
    lemma_parent_roles_contains(t, AccRole::List);
    lemma_parent_roles_contains(t, AccRole::PageTablist);
    lemma_parent_roles_contains(t, AccRole::MenuBar);
    lemma_parent_roles_contains(t, AccRole::Outline);
    lemma_parent_roles_contains(t, AccRole::ToolBar);
    lemma_parent_roles_contains(t, AccRole::Client);
    lemma_parent_roles_contains(t, x);
}

} // verus!
