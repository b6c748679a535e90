//! Regular expressions: building a pattern with its option flags, and testing,
//! matching and replacing with the `regex` crate.

use vstd::prelude::*;
use crate::args::{NumValue, Object, ObjectModel, Value, ValueModel};
use crate::builtin_args::{
    const_of, num_const, outcome, string_reading, with_default, BuiltInResult, BuiltinFuncArgs,
    ConstEnum,
};
use crate::error::{builtin_func_error, ErrorModel, MessageModel, UErrorMessage};

verus! {

/// The two things `regex` can be asked for with a number.
#[allow(non_camel_case_types)]
#[derive(PartialEq, Eq, Clone, Copy, Structural)]
pub enum RegexEnum {
    REGEX_TEST,
    REGEX_MATCH,
}

impl RegexEnum {
    /// The number of this request.
    pub fn value(&self) -> (r: i64)
        ensures
            r == (if *self == RegexEnum::REGEX_TEST { 0int } else { 1int }),
    {
        match self {
            RegexEnum::REGEX_TEST => 0,
            RegexEnum::REGEX_MATCH => 1,
        }
    }
}

impl ConstEnum for RegexEnum {
    open spec fn of_value(n: int) -> Option<RegexEnum> {
        if n == 0 {
            Some(RegexEnum::REGEX_TEST)
        } else if n == 1 {
            Some(RegexEnum::REGEX_MATCH)
        } else {
            None
        }
    }

    fn from_value(n: i64) -> (r: Option<RegexEnum>) {
        if n == 0 {
            Some(RegexEnum::REGEX_TEST)
        } else if n == 1 {
            Some(RegexEnum::REGEX_MATCH)
        } else {
            None
        }
    }
}

/// The pattern with its inline flags: `i` unless case matters, `m` for multi-line, `a`
/// for ASCII-only classes, written as `(?flags)` in front when there is any.
pub open spec fn newre_spec(pattern: Seq<char>, case_sensitive: bool, multi_line: bool, ascii: bool) -> Seq<char> {
    let opt = (if case_sensitive { Seq::<char>::empty() } else { seq!['i'] })
        + (if multi_line { seq!['m'] } else { Seq::<char>::empty() })
        + (if ascii { seq!['a'] } else { Seq::<char>::empty() });
    if opt.len() > 0 {
        seq!['(', '?'] + opt + seq![')'] + pattern
    } else {
        pattern
    }
}

/// Builds the pattern of `newre` (see `newre_spec`).
pub fn newre(pattern: &str, case_sensitive: bool, multi_line: bool, ascii: bool) -> (r: String)
    ensures
        r@ == newre_spec(pattern@, case_sensitive, multi_line, ascii),
{
    let mut opt = String::new();
    if !case_sensitive {
        opt.append("i");
    }
    if multi_line {
        opt.append("m");
    }
    if ascii {
        opt.append("a");
    }
    proof {
        reveal_strlit("i");
        reveal_strlit("m");
        reveal_strlit("a");
    }
    if opt.as_str().is_empty() {
        pattern.to_owned()
    } else {
        let mut r = String::from_str("(?");
        r.append(opt.as_str());
        r.append(")");
        r.append(pattern);
        proof {
            reveal_strlit("(?");
            reveal_strlit(")");
            assert(r@ =~= newre_spec(pattern@, case_sensitive, multi_line, ascii));
        }
        r
    }
}

#[verifier::external_type_specification]
#[verifier::external_body]
pub struct ExRegex(regex::Regex);

/// The pattern a compiled expression was made from.
pub uninterp spec fn regex_source(re: regex::Regex) -> Seq<char>;

/// Whether `Regex::new` accepts the pattern.
pub uninterp spec fn pattern_valid(pattern: Seq<char>) -> bool;

/// What `Regex::is_match` answers for an expression made from `pattern`.
pub uninterp spec fn pattern_matches(pattern: Seq<char>, target: Seq<char>) -> bool;

/// The groups of each match that `Regex::captures_iter` finds, in order, for an
/// expression made from `pattern`: group 0 is the whole match, `None` a group that did
/// not take part.
pub uninterp spec fn pattern_captures(pattern: Seq<char>, target: Seq<char>) -> Seq<Seq<Option<Seq<char>>>>;

/// What `Regex::replace_all` makes of `target` with the replacement `rep` (which may
/// refer to groups as `$n` or `${name}`), for an expression made from `pattern`.
pub uninterp spec fn pattern_replaced(pattern: Seq<char>, target: Seq<char>, rep: Seq<char>) -> Seq<char>;

/// `Regex::new`: compiles the pattern, `None` when it is refused. What it accepts is
/// named; the compiled expression keeps its source pattern.
#[verifier::external_body]
fn compile(pattern: &str) -> (r: Option<regex::Regex>)
    ensures
        r is Some <==> pattern_valid(pattern@),
        r matches Some(re) ==> regex_source(re) == pattern@,
{
    regex::Regex::new(pattern).ok()
}

/// `Regex::is_match`: whether the expression matches somewhere in `target` (named).
#[verifier::external_body]
fn is_match(re: &regex::Regex, target: &str) -> (r: bool)
    ensures
        r == pattern_matches(regex_source(*re), target@),
{
    re.is_match(target)
}

/// The groups of each view of `v`.
pub open spec fn groups_view(v: Seq<Vec<Option<String>>>) -> Seq<Seq<Option<Seq<char>>>> {
    v.map_values(|g: Vec<Option<String>>| g@.map_values(|m: Option<String>| match m {
        Some(s) => Some(s@),
        None => None,
    }))
}

/// `Regex::captures_iter`, each match's groups (from `Captures::iter`) turned into
/// optional strings. The result is named; the contract adds what the crate documents:
/// every match has at least one group, and group 0, the whole match, is always there.
#[verifier::external_body]
fn captures_all(re: &regex::Regex, target: &str) -> (r: Vec<Vec<Option<String>>>)
    ensures
        groups_view(r@) == pattern_captures(regex_source(*re), target@),
        forall|k: int| 0 <= k < r@.len() ==> r@[k]@.len() >= 1 && r@[k]@[0] is Some,
{
    let mut all: Vec<Vec<Option<String>>> = Vec::new();
    for cap in re.captures_iter(target) {
        let mut groups: Vec<Option<String>> = Vec::new();
        for m in cap.iter() {
            groups.push(m.map(|m| m.as_str().to_string()));
        }
        all.push(groups);
    }
    all
}

/// `Regex::replace_all` with a string replacement (named).
#[verifier::external_body]
fn replace_all(re: &regex::Regex, target: &str, rep: &str) -> (r: String)
    ensures
        r@ == pattern_replaced(regex_source(*re), target@, rep@),
{
    re.replace_all(target, rep).into_owned()
}

/// "The pattern does not compile".
pub open spec fn bad_pattern(pattern: Seq<char>) -> ErrorModel {
    ErrorModel::Error(MessageModel::InvalidRegexPattern(pattern))
}

/// Whether `target` matches `pattern`; an error when the pattern does not compile.
pub fn test_regex(target: &str, pattern: &str) -> (r: BuiltInResult<bool>)
    ensures
        outcome(r, |b: bool| b) == (if pattern_valid(pattern@) {
            Ok::<bool, ErrorModel>(pattern_matches(pattern@, target@))
        } else {
            Err(bad_pattern(pattern@))
        }),
{
    match compile(pattern) {
        Some(re) => Ok(is_match(&re, target)),
        None => Err(builtin_func_error(UErrorMessage::InvalidRegexPattern(pattern.to_owned()))),
    }
}

/// One match of `match`: the whole match when the pattern has no groups, else every group.
pub enum RegexMatch {
    Whole(String),
    Groups(Vec<String>),
}

/// One match of `match`, as plain values.
pub enum RegexMatchModel {
    Whole(Seq<char>),
    Groups(Seq<Seq<char>>),
}

impl RegexMatch {
    pub open spec fn model(&self) -> RegexMatchModel {
        match self {
            RegexMatch::Whole(s) => RegexMatchModel::Whole(s@),
            RegexMatch::Groups(g) => RegexMatchModel::Groups(g@.map_values(|s: String| s@)),
        }
    }
}

/// The models of a sequence of matches.
pub open spec fn matches_view(v: Seq<RegexMatch>) -> Seq<RegexMatchModel> {
    v.map_values(|m: RegexMatch| m.model())
}

/// Whether every group of every match with more than one group took part (a group that
/// did not cannot be reported).
pub open spec fn groups_complete(caps: Seq<Seq<Option<Seq<char>>>>) -> bool {
    forall|k: int, j: int| 0 <= k < caps.len() && 0 <= j < caps[k].len() && (caps[k].len() > 1 || j == 0)
        ==> #[trigger] caps[k][j] is Some
}

/// The matches that `match` reports for the groups of each match found.
pub open spec fn matches_spec(caps: Seq<Seq<Option<Seq<char>>>>) -> Seq<RegexMatchModel> {
    caps.map_values(|g: Seq<Option<Seq<char>>>| if g.len() > 1 {
        RegexMatchModel::Groups(g.map_values(|m: Option<Seq<char>>| m->0))
    } else {
        RegexMatchModel::Whole(g[0]->0)
    })
}

/// The groups of one match as strings.
fn group_strings(g: &Vec<Option<String>>) -> (r: Vec<String>)
    requires
        forall|j: int| 0 <= j < g@.len() ==> #[trigger] g@[j] is Some,
    ensures
        r@.map_values(|s: String| s@) == g@.map_values(|m: Option<String>| match m {
            Some(s) => Some(s@),
            None => None,
        }).map_values(|m: Option<Seq<char>>| m->0),
{
    let mut r: Vec<String> = Vec::new();
    let mut j: usize = 0;
    while j < g.len()
        invariant
            j <= g@.len(),
            forall|i: int| 0 <= i < g@.len() ==> #[trigger] g@[i] is Some,
            r@.len() == j,
            forall|i: int| 0 <= i < j ==> #[trigger] r@[i]@ == g@[i]->0@,
        decreases g.len() - j,
    {
        match &g[j] {
            Some(s) => r.push(s.clone()),
            None => {},
        }
        j = j + 1;
    }
    assert(r@.map_values(|s: String| s@) =~= g@.map_values(|m: Option<String>| match m {
        Some(s) => Some(s@),
        None => None,
    }).map_values(|m: Option<Seq<char>>| m->0));
    r
}

/// The matches reported for the groups that `captures_iter` found (see `matches_spec`).
pub fn match_groups(caps: &Vec<Vec<Option<String>>>) -> (r: Vec<RegexMatch>)
    requires
        groups_complete(groups_view(caps@)),
        forall|k: int| 0 <= k < caps@.len() ==> #[trigger] caps@[k]@.len() >= 1,
    ensures
        matches_view(r@) == matches_spec(groups_view(caps@)),
{
    let ghost gv = groups_view(caps@);
    let mut r: Vec<RegexMatch> = Vec::new();
    let mut k: usize = 0;
    while k < caps.len()
        invariant
            k <= caps@.len(),
            gv == groups_view(caps@),
            groups_complete(gv),
            forall|i: int| 0 <= i < caps@.len() ==> #[trigger] caps@[i]@.len() >= 1,
            r@.len() == k,
            forall|i: int| 0 <= i < k ==> #[trigger] r@[i].model() == matches_spec(gv)[i],
        decreases caps.len() - k,
    {
        let g = &caps[k];
        assert(gv[k as int] == g@.map_values(|m: Option<String>| match m {
            Some(s) => Some(s@),
            None => None,
        }));
        if g.len() > 1 {
            assert forall|j: int| 0 <= j < g@.len() implies #[trigger] g@[j] is Some by {
                assert(gv[k as int][j] is Some);
            }
            let v = group_strings(g);
            r.push(RegexMatch::Groups(v));
        } else {
            assert(gv[k as int][0] is Some);
            match &g[0] {
                Some(s) => r.push(RegexMatch::Whole(s.clone())),
                None => {},
            }
        }
        k = k + 1;
    }
    assert(matches_view(r@) =~= matches_spec(gv));
    r
}

/// The matches of `pattern` in `target`: `Ok(None)` when a match has a group that did not
/// take part (such a match cannot be reported), an error when the pattern does not
/// compile.
pub fn match_regex(target: &str, pattern: &str) -> (r: BuiltInResult<Option<Vec<RegexMatch>>>)
    ensures
        outcome(r, |v: Option<Vec<RegexMatch>>| match v {
            Some(m) => Some(matches_view(m@)),
            None => None,
        }) == (if !pattern_valid(pattern@) {
            Err(bad_pattern(pattern@))
        } else if groups_complete(pattern_captures(pattern@, target@)) {
            Ok(Some(matches_spec(pattern_captures(pattern@, target@))))
        } else {
            Ok::<Option<Seq<RegexMatchModel>>, ErrorModel>(None)
        }),
{
    match compile(pattern) {
        Some(re) => {
            let caps = captures_all(&re, target);
            if all_groups_present(&caps) {
                Ok(Some(match_groups(&caps)))
            } else {
                Ok(None)
            }
        },
        None => Err(builtin_func_error(UErrorMessage::InvalidRegexPattern(pattern.to_owned()))),
    }
}

/// Whether every group of every match with more than one group took part.
fn all_groups_present(caps: &Vec<Vec<Option<String>>>) -> (r: bool)
    requires
        forall|k: int| 0 <= k < caps@.len() ==> #[trigger] caps@[k]@.len() >= 1 && caps@[k]@[0] is Some,
    ensures
        r == groups_complete(groups_view(caps@)),
{
    let ghost gv = groups_view(caps@);
    let mut k: usize = 0;
    while k < caps.len()
        invariant
            k <= caps@.len(),
            gv == groups_view(caps@),
            forall|i: int| 0 <= i < caps@.len() ==> #[trigger] caps@[i]@.len() >= 1 && caps@[i]@[0] is Some,
            forall|i: int, j: int| 0 <= i < k && 0 <= j < gv[i].len() && (gv[i].len() > 1 || j == 0)
                ==> #[trigger] gv[i][j] is Some,
        decreases caps.len() - k,
    {
        let g = &caps[k];
        let mut j: usize = 0;
        while j < g.len()
            invariant
                k < caps@.len(),
                g == caps@[k as int],
                g@.len() >= 1,
                g@[0] is Some,
                j <= g@.len(),
                gv == groups_view(caps@),
                forall|i: int| 0 <= i < j ==> #[trigger] g@[i] is Some,
            decreases g.len() - j,
        {
            if g[j].is_none() {
                proof {
                    assert(gv[k as int][j as int] is None);
                }
                return false;
            }
            j = j + 1;
        }
        proof {
            assert forall|jj: int| 0 <= jj < gv[k as int].len() implies #[trigger] gv[k as int][jj] is Some by {
                assert(g@[jj] is Some);
            }
        }
        k = k + 1;
    }
    true
}

/// `target` with every match of `pattern` replaced by `rep`; an error when the pattern
/// does not compile.
pub fn replace_regex(target: &str, pattern: &str, rep: &str) -> (r: BuiltInResult<String>)
    ensures
        outcome(r, |s: String| s@) == (if pattern_valid(pattern@) {
            Ok::<Seq<char>, ErrorModel>(pattern_replaced(pattern@, target@, rep@))
        } else {
            Err(bad_pattern(pattern@))
        }),
{
    match compile(pattern) {
        Some(re) => Ok(replace_all(&re, target, rep)),
        None => Err(builtin_func_error(UErrorMessage::InvalidRegexPattern(pattern.to_owned()))),
    }
}

/// What the `regex` builtin gives.
pub enum RegexOutcome {
    /// Whether the pattern matches.
    Test(bool),
    /// The matches, `None` when one cannot be reported (see `match_regex`).
    Matches(Option<Vec<RegexMatch>>),
    /// The text with every match replaced.
    Replaced(String),
}

/// What the `regex` builtin gives, as plain values.
pub enum RegexOutcomeModel {
    Test(bool),
    Matches(Option<Seq<RegexMatchModel>>),
    Replaced(Seq<char>),
}

impl RegexOutcome {
    pub open spec fn model(&self) -> RegexOutcomeModel {
        match self {
            RegexOutcome::Test(b) => RegexOutcomeModel::Test(*b),
            RegexOutcome::Matches(m) => RegexOutcomeModel::Matches(match m {
                Some(v) => Some(matches_view(v@)),
                None => None,
            }),
            RegexOutcome::Replaced(s) => RegexOutcomeModel::Replaced(s@),
        }
    }
}

/// The model of EMPTY.
pub open spec fn empty_model() -> ObjectModel {
    ObjectModel { value: ValueModel::Empty, text: Seq::empty(), truthy: false }
}

/// The `regex` builtin once its text and pattern are read: the third argument asks for
/// a test (a number other than `REGEX_MATCH`, or EMPTY), the matches (`REGEX_MATCH`), or a
/// replacement (a string or pattern); anything else is refused.
pub open spec fn regex_dispatch(target: Seq<char>, pattern: Seq<char>, third: ObjectModel) -> Result<RegexOutcomeModel, ErrorModel> {
    let wanted: Option<u8> = match third.value {
        ValueModel::Num(n) => if num_const::<RegexEnum>(n) == Some(RegexEnum::REGEX_MATCH) { Some(1u8) } else { Some(0u8) },
        ValueModel::String(_) | ValueModel::RegEx(_) => Some(2u8),
        ValueModel::Empty => Some(0u8),
        _ => None,
    };
    match wanted {
        None => Err(ErrorModel::Error(MessageModel::InvalidArgument(third))),
        Some(w) => if !pattern_valid(pattern) {
            Err(bad_pattern(pattern))
        } else if w == 0 {
            Ok(RegexOutcomeModel::Test(pattern_matches(pattern, target)))
        } else if w == 1 {
            Ok(RegexOutcomeModel::Matches(
                if groups_complete(pattern_captures(pattern, target)) {
                    Some(matches_spec(pattern_captures(pattern, target)))
                } else {
                    None
                },
            ))
        } else {
            let rep = match third.value {
                ValueModel::String(s) => s,
                ValueModel::RegEx(s) => s,
                _ => Seq::empty(),
            };
            Ok(RegexOutcomeModel::Replaced(pattern_replaced(pattern, target, rep)))
        },
    }
}

/// The `regex` builtin: argument 0 is the text, argument 1 the pattern, argument 2 what
/// is asked (see `regex_dispatch`).
pub open spec fn regex_call(objs: Seq<ObjectModel>) -> Result<RegexOutcomeModel, ErrorModel> {
    match with_default(objs, 0, None, |o: ObjectModel| string_reading(o, 0)) {
        Err(e) => Err(e),
        Ok(target) => match with_default(objs, 1, None, |o: ObjectModel| string_reading(o, 1)) {
            Err(e) => Err(e),
            Ok(pattern) => match with_default(objs, 2, Some(empty_model()), |o: ObjectModel| Ok::<ObjectModel, ErrorModel>(o)) {
                Err(e) => Err(e),
                Ok(third) => regex_dispatch(target, pattern, third),
            },
        },
    }
}

/// The `regex` builtin (see `regex_call`).
pub fn regex(args: &BuiltinFuncArgs) -> (r: BuiltInResult<RegexOutcome>)
    ensures
        outcome(r, |x: RegexOutcome| x.model()) == regex_call(args.objects()),
{
    let target = match args.get_as_string(0, None) {
        Ok(s) => s,
        Err(e) => return Err(e),
    };
    let pattern = match args.get_as_string(1, None) {
        Ok(s) => s,
        Err(e) => return Err(e),
    };
    let third = match args.get_as_object(2, Some(Object::empty())) {
        Ok(o) => o,
        Err(e) => return Err(e),
    };
    match &third.value {
        Value::Num(n) => {
            let asked: Option<RegexEnum> = const_of(*n);
            match asked {
                Some(RegexEnum::REGEX_MATCH) => match match_regex(target.as_str(), pattern.as_str()) {
                    Ok(m) => Ok(RegexOutcome::Matches(m)),
                    Err(e) => Err(e),
                },
                _ => match test_regex(target.as_str(), pattern.as_str()) {
                    Ok(b) => Ok(RegexOutcome::Test(b)),
                    Err(e) => Err(e),
                },
            }
        },
        Value::String(s) | Value::RegEx(s) => match replace_regex(target.as_str(), pattern.as_str(), s.as_str()) {
            Ok(t) => Ok(RegexOutcome::Replaced(t)),
            Err(e) => Err(e),
        },
        Value::Empty => match test_regex(target.as_str(), pattern.as_str()) {
            Ok(b) => Ok(RegexOutcome::Test(b)),
            Err(e) => Err(e),
        },
        _ => Err(builtin_func_error(UErrorMessage::InvalidArgument(third.duplicate()))),
    }
}

/// The `testre` builtin: whether argument 0 matches the pattern in argument 1.
pub fn testre(args: &BuiltinFuncArgs) -> (r: BuiltInResult<bool>)
    ensures
        outcome(r, |b: bool| b) == (match with_default(args.objects(), 0, None, |o: ObjectModel| string_reading(o, 0)) {
            Err(e) => Err(e),
            Ok(target) => match with_default(args.objects(), 1, None, |o: ObjectModel| string_reading(o, 1)) {
                Err(e) => Err(e),
                Ok(pattern) => if pattern_valid(pattern) {
                    Ok(pattern_matches(pattern, target))
                } else {
                    Err(bad_pattern(pattern))
                },
            },
        }),
{
    let target = match args.get_as_string(0, None) {
        Ok(s) => s,
        Err(e) => return Err(e),
    };
    let pattern = match args.get_as_string(1, None) {
        Ok(s) => s,
        Err(e) => return Err(e),
    };
    test_regex(target.as_str(), pattern.as_str())
}

/// The `match` builtin: the matches of the pattern in argument 1 within argument 0 (see
/// `match_regex`).
pub fn regexmatch(args: &BuiltinFuncArgs) -> (r: BuiltInResult<Option<Vec<RegexMatch>>>)
    ensures
        outcome(r, |v: Option<Vec<RegexMatch>>| match v {
            Some(m) => Some(matches_view(m@)),
            None => None,
        }) == (match with_default(args.objects(), 0, None, |o: ObjectModel| string_reading(o, 0)) {
            Err(e) => Err(e),
            Ok(target) => match with_default(args.objects(), 1, None, |o: ObjectModel| string_reading(o, 1)) {
                Err(e) => Err(e),
                Ok(pattern) => if !pattern_valid(pattern) {
                    Err(bad_pattern(pattern))
                } else if groups_complete(pattern_captures(pattern, target)) {
                    Ok(Some(matches_spec(pattern_captures(pattern, target))))
                } else {
                    Ok(None)
                },
            },
        }),
{
    let target = match args.get_as_string(0, None) {
        Ok(s) => s,
        Err(e) => return Err(e),
    };
    let pattern = match args.get_as_string(1, None) {
        Ok(s) => s,
        Err(e) => return Err(e),
    };
    match_regex(target.as_str(), pattern.as_str())
}


/// `newre` keeps the pattern whole at the end and only puts flags in front: nothing when
/// case matters and neither multi-line nor ASCII-only is asked, else a `(?...)` group
/// holding `i` exactly when case does not matter, `m` exactly for multi-line and `a`
/// exactly for ASCII-only classes.
pub proof fn law_newre_flags(pattern: Seq<char>, case_sensitive: bool, multi_line: bool, ascii: bool)
    ensures
        ({
            let r = newre_spec(pattern, case_sensitive, multi_line, ascii);
            let n = r.len() - pattern.len();
            &&& n >= 0
            &&& r.subrange(n, r.len() as int) == pattern
            &&& (n == 0) == (case_sensitive && !multi_line && !ascii)
            &&& n > 0 ==> {
                let head = r.subrange(0, n);
                &&& head[0] == '(' && head[1] == '?' && head.last() == ')'
                &&& head.contains('i') == !case_sensitive
                &&& head.contains('m') == multi_line
                &&& head.contains('a') == ascii
            }
        }),
{
    let opt = (if case_sensitive { Seq::<char>::empty() } else { seq!['i'] })
        + (if multi_line { seq!['m'] } else { Seq::<char>::empty() })
        + (if ascii { seq!['a'] } else { Seq::<char>::empty() });
    let r = newre_spec(pattern, case_sensitive, multi_line, ascii);
    if opt.len() > 0 {
        let head = seq!['(', '?'] + opt + seq![')'];
        assert(r == head + pattern);
        assert(r.subrange(head.len() as int, r.len() as int) =~= pattern);
        assert(r.subrange(0, head.len() as int) =~= head);
        assert(head.contains('i') == !case_sensitive) by {
            if !case_sensitive {
                assert(head[2] == 'i');
            } else {
                assert forall|k: int| 0 <= k < head.len() implies head[k] != 'i' by {}
            }
        }
        assert(head.contains('m') == multi_line) by {
            if multi_line {
                assert(head[2 + (if case_sensitive { 0int } else { 1int })] == 'm');
            } else {
                assert forall|k: int| 0 <= k < head.len() implies head[k] != 'm' by {}
            }
        }
        assert(head.contains('a') == ascii) by {
            if ascii {
                assert(head[head.len() - 2] == 'a');
            } else {
                assert forall|k: int| 0 <= k < head.len() implies head[k] != 'a' by {}
            }
        }
    } else {
        assert(r.subrange(0, r.len() as int) =~= pattern);
    }
}
} // verus!
