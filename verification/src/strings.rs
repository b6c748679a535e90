//! Character-level string routines of the text builtins.

use vstd::prelude::*;
use vstd::std_specs::iter::IteratorSpec;
use vstd::string::StrSliceExecFns;
use crate::std_calls::push_char;
use crate::args::TwoTypeArg;

verus! {

broadcast use vstd::string::group_string_axioms;

/// The characters of `s`, in order.
pub fn chars_of(s: &str) -> (r: Vec<char>)
    ensures
        r@ == s@,
{
    let mut it = s.chars();
    let mut r: Vec<char> = Vec::new();
    loop
        invariant
            r@ + IteratorSpec::remaining(&it) == s@,
            IteratorSpec::decrease(&it) is Some,
        ensures
            r@ == s@,
        decreases IteratorSpec::decrease(&it)->0,
    {
        match it.next() {
            Some(c) => {
                r.push(c);
                assert(r@ + IteratorSpec::remaining(&it) =~= s@);
            },
            None => {
                assert(r@ =~= s@);
                break;
            },
        }
    }
    r
}


/// The characters `cs[lo..hi]` as a string.
pub fn string_from_chars(cs: &Vec<char>, lo: usize, hi: usize) -> (r: String)
    requires
        lo <= hi <= cs.len(),
    ensures
        r@ == cs@.subrange(lo as int, hi as int),
{
    let mut r = String::new();
    let mut i = lo;
    while i < hi
        invariant
            lo <= i <= hi <= cs.len(),
            r@ == cs@.subrange(lo as int, i as int),
        decreases hi - i,
    {
        push_char(&mut r, cs[i]);
        i = i + 1;
        assert(r@ =~= cs@.subrange(lo as int, i as int));
    }
    r
}

/// The characters of `s` from the `start`-th (1-based; `0` counts as `1`), `length`
/// of them or all that remain.
pub open spec fn copy_spec(s: Seq<char>, start: int, length: Option<int>) -> Seq<char> {
    let from = if start <= 1 { 0 } else if start - 1 <= s.len() { start - 1 } else { s.len() as int };
    let to = match length {
        Some(l) => if from + l <= s.len() { from + l } else { s.len() as int },
        None => s.len() as int,
    };
    s.subrange(from, to)
}

/// `copy(str, start, length)`: the substring of `s` that starts at the `start`-th
/// character and holds at most `length` characters (all the rest when `None`).
pub fn copy(s: &str, start: usize, length: Option<usize>) -> (r: String)
    ensures
        r@ == copy_spec(s@, start as int, match length { Some(l) => Some(l as int), None => None }),
{
    let n = s.unicode_len();
    let index = if start == 0 { 0 } else { start - 1 };
    let from = if index <= n { index } else { n };
    let to = match length {
        Some(l) => if l <= n - from { from + l } else { n },
        None => n,
    };
    s.substring_char(from, to).to_owned()
}

/// ASCII whitespace as `char::is_ascii_whitespace` has it.
pub open spec fn is_ascii_space(c: char) -> bool {
    c == ' ' || c == '\t' || c == '\n' || c == '\x0C' || c == '\r'
}

/// ASCII control characters as `char::is_ascii_control` has it.
pub open spec fn is_ascii_ctrl(c: char) -> bool {
    (c as u32) < 0x20 || c as u32 == 0x7F
}

/// The characters that `trim` removes: those listed in the string argument, or blanks
/// and control characters (and the ideographic space U+3000 when the flag is set).
pub open spec fn trimmed_char(option: TwoTypeArg<Seq<char>, bool>, c: char) -> bool {
    match option {
        TwoTypeArg::T(set) => set.contains(c),
        TwoTypeArg::U(wide) => is_ascii_space(c) || is_ascii_ctrl(c) || (wide && c == '\u{3000}'),
    }
}

/// `cs` without its leading characters that satisfy `p`.
pub open spec fn trim_start(cs: Seq<char>, p: spec_fn(char) -> bool) -> Seq<char>
    decreases cs.len(),
{
    if cs.len() > 0 && p(cs[0]) {
        trim_start(cs.drop_first(), p)
    } else {
        cs
    }
}

/// `cs` without its trailing characters that satisfy `p`.
pub open spec fn trim_end(cs: Seq<char>, p: spec_fn(char) -> bool) -> Seq<char>
    decreases cs.len(),
{
    if cs.len() > 0 && p(cs.last()) {
        trim_end(cs.drop_last(), p)
    } else {
        cs
    }
}

proof fn lemma_trim_start(cs: Seq<char>, p: spec_fn(char) -> bool, i: int)
    requires
        0 <= i <= cs.len(),
        forall|k: int| 0 <= k < i ==> p(#[trigger] cs[k]),
        i == cs.len() || !p(cs[i]),
    ensures
        trim_start(cs, p) == cs.subrange(i, cs.len() as int),
    decreases i,
{
    if i == 0 {
        assert(cs.subrange(0, cs.len() as int) =~= cs);
    } else {
        assert(p(cs[0]));
        lemma_trim_start(cs.drop_first(), p, i - 1);
        assert(cs.drop_first().subrange(i - 1, cs.len() - 1) =~= cs.subrange(i, cs.len() as int));
    }
}

proof fn lemma_trim_end(cs: Seq<char>, p: spec_fn(char) -> bool, j: int)
    requires
        0 <= j <= cs.len(),
        forall|k: int| j <= k < cs.len() ==> p(#[trigger] cs[k]),
        j == 0 || !p(cs[j - 1]),
    ensures
        trim_end(cs, p) == cs.subrange(0, j),
    decreases cs.len() - j,
{
    if j == cs.len() {
        assert(cs.subrange(0, j) =~= cs);
    } else {
        assert(p(cs.last()));
        lemma_trim_end(cs.drop_last(), p, j);
        assert(cs.drop_last().subrange(0, j) =~= cs.subrange(0, j));
    }
}

/// Whether `c` is one of `set`.
fn contains_char(set: &Vec<char>, c: char) -> (r: bool)
    ensures
        r == set@.contains(c),
{
    let mut i: usize = 0;
    while i < set.len()
        invariant
            i <= set.len(),
            forall|k: int| 0 <= k < i ==> set@[k] != c,
        decreases set.len() - i,
    {
        if set[i] == c {
            assert(set@[i as int] == c);
            return true;
        }
        i = i + 1;
    }
    false
}

fn is_trimmed(option: &TwoTypeArg<Vec<char>, bool>, c: char) -> (r: bool)
    ensures
        r == trimmed_char(
            match option {
                TwoTypeArg::T(v) => TwoTypeArg::T(v@),
                TwoTypeArg::U(b) => TwoTypeArg::U(*b),
            },
            c,
        ),
{
    match option {
        TwoTypeArg::T(set) => contains_char(set, c),
        TwoTypeArg::U(wide) => {
            let code = c as u32;
            c == ' ' || c == '\t' || c == '\n' || c == '\x0C' || c == '\r' || code < 0x20 || code
                == 0x7F || (*wide && c == '\u{3000}')
        },
    }
}

/// The trim option seen as plain values.
pub open spec fn trim_option_view(option: TwoTypeArg<String, bool>) -> TwoTypeArg<Seq<char>, bool> {
    match option {
        TwoTypeArg::T(s) => TwoTypeArg::T(s@),
        TwoTypeArg::U(b) => TwoTypeArg::U(b),
    }
}

/// What `trim` returns: `cs` without its leading and trailing characters selected by `option`.
pub open spec fn trim_spec(cs: Seq<char>, option: TwoTypeArg<Seq<char>, bool>) -> Seq<char> {
    trim_end(trim_start(cs, |c: char| trimmed_char(option, c)), |c: char| trimmed_char(option, c))
}

/// `trim(str, option)`: `target` without the leading and trailing characters that
/// `option` selects (see `trimmed_char`).
pub fn trim(target: &str, option: TwoTypeArg<String, bool>) -> (r: String)
    ensures
        r@ == trim_spec(target@, trim_option_view(option)),
{
    let ghost sopt = trim_option_view(option);
    let opt: TwoTypeArg<Vec<char>, bool> = match &option {
        TwoTypeArg::T(s) => TwoTypeArg::T(chars_of(s.as_str())),
        TwoTypeArg::U(b) => TwoTypeArg::U(*b),
    };
    let ghost p = |c: char| trimmed_char(sopt, c);
    let cs = chars_of(target);
    let n = cs.len();
    let mut i: usize = 0;
    while i < n
        invariant
            n == cs.len(),
            i <= n,
            forall|k: int| 0 <= k < i ==> p(#[trigger] cs@[k]),
            p == (|c: char| trimmed_char(sopt, c)),
            sopt == (match opt {
                TwoTypeArg::T(v) => TwoTypeArg::T(v@),
                TwoTypeArg::U(b) => TwoTypeArg::U(b),
            }),
        ensures
            i <= n,
            forall|k: int| 0 <= k < i ==> p(#[trigger] cs@[k]),
            i == n || !p(cs@[i as int]),
        decreases n - i,
    {
        let t = is_trimmed(&opt, cs[i]);
        if !t {
            assert(!p(cs@[i as int]));
            break;
        }
        assert(p(cs@[i as int]));
        i = i + 1;
    }
    proof {
        lemma_trim_start(cs@, p, i as int);
    }
    let ghost rest = cs@.subrange(i as int, n as int);
    let mut j: usize = n;
    while j > i
        invariant
            n == cs.len(),
            i <= j <= n,
            forall|k: int| j <= k < n ==> p(#[trigger] cs@[k]),
            p == (|c: char| trimmed_char(sopt, c)),
            sopt == (match opt {
                TwoTypeArg::T(v) => TwoTypeArg::T(v@),
                TwoTypeArg::U(b) => TwoTypeArg::U(b),
            }),
        ensures
            i <= j <= n,
            forall|k: int| j <= k < n ==> p(#[trigger] cs@[k]),
            j == i || !p(cs@[j - 1]),
        decreases j,
    {
        let t = is_trimmed(&opt, cs[j - 1]);
        if !t {
            assert(!p(cs@[j - 1]));
            break;
        }
        assert(p(cs@[j - 1]));
        j = j - 1;
    }
    proof {
        assert forall|k: int| j - i <= k < rest.len() implies p(#[trigger] rest[k]) by {
            assert(rest[k] == cs@[k + i]);
        }
        if j > i {
            assert(rest[j - i - 1] == cs@[j - 1]);
        }
        lemma_trim_end(rest, p, j - i);
        assert(rest.subrange(0, j - i) =~= cs@.subrange(i as int, j as int));
    }
    string_from_chars(&cs, i, j)
}


/// The first position at or after `from` whose character is in `set`.
pub open spec fn first_in_set(cs: Seq<char>, set: Seq<char>, from: int) -> Option<int>
    decreases cs.len() - from,
{
    if from < 0 || from >= cs.len() {
        None
    } else if set.contains(cs[from]) {
        Some(from)
    } else {
        first_in_set(cs, set, from + 1)
    }
}

/// The scan that `token` makes when double quotes protect delimiters: returns where the
/// first delimiter outside quotes is, and where the remaining text starts (the character
/// after that delimiter, or with `skip_run` the first non-delimiter outside quotes after
/// it; `0` when the text ends before one is found).
pub open spec fn quote_scan(cs: Seq<char>, set: Seq<char>, skip_run: bool, pos: int, in_quote: bool, deli: Option<int>) -> (Option<int>, int)
    decreases cs.len() - pos,
{
    if pos < 0 || pos >= cs.len() {
        (deli, 0)
    } else {
        let c = cs[pos];
        let q = if c == '"' { !in_quote } else { in_quote };
        if q {
            quote_scan(cs, set, skip_run, pos + 1, q, deli)
        } else if deli is Some {
            if !set.contains(c) {
                (deli, pos)
            } else {
                quote_scan(cs, set, skip_run, pos + 1, q, deli)
            }
        } else if set.contains(c) {
            if !skip_run {
                (Some(pos), pos + 1)
            } else {
                quote_scan(cs, set, skip_run, pos + 1, q, Some(pos))
            }
        } else {
            quote_scan(cs, set, skip_run, pos + 1, q, deli)
        }
    }
}

/// What `token(delimiter, base, flag, quote)` returns: the text of `base` before its
/// first delimiter character, and the text left after that delimiter (after a whole run
/// of delimiters when `flag` is set). With `quote`, delimiters between double quotes do
/// not count. When `base` holds no delimiter character, the whole text and an empty rest.
pub open spec fn token_spec(delims: Seq<char>, base: Seq<char>, flag: bool, quote: bool) -> (Seq<char>, Seq<char>) {
    match first_in_set(base, delims, 0) {
        None => (base, Seq::empty()),
        Some(d) => if quote {
            match quote_scan(base, delims, flag, 0, false, None) {
                (Some(p), rem) => (base.subrange(0, p), base.subrange(rem, base.len() as int)),
                (None, _) => (base, Seq::empty()),
            }
        } else {
            let rest = base.subrange(d + 1, base.len() as int);
            (base.subrange(0, d), if flag { trim_start(rest, |c: char| delims.contains(c)) } else { rest })
        },
    }
}

proof fn lemma_first_in_set_skip(cs: Seq<char>, set: Seq<char>, i: int)
    requires
        0 <= i <= cs.len(),
        forall|k: int| 0 <= k < i ==> !set.contains(#[trigger] cs[k]),
    ensures
        first_in_set(cs, set, 0) == first_in_set(cs, set, i),
    decreases i,
{
    if i > 0 {
        lemma_first_in_set_skip(cs, set, i - 1);
    }
}

/// `token(delimiter, base, flag, quote)`: splits `base` at its first delimiter (any
/// character of `delimiter`) and returns the token and the rest, as `token_spec` says.
pub fn token(delimiter: &str, base: &str, delimiter_flg: bool, dblquote_flg: bool) -> (r: (String, String))
    ensures
        r.0@ == token_spec(delimiter@, base@, delimiter_flg, dblquote_flg).0,
        r.1@ == token_spec(delimiter@, base@, delimiter_flg, dblquote_flg).1,
{
    let set = chars_of(delimiter);
    let cs = chars_of(base);
    let n = cs.len();
    let mut d: usize = 0;
    while d < n
        invariant
            n == cs.len(),
            d <= n,
            forall|k: int| 0 <= k < d ==> !set@.contains(#[trigger] cs@[k]),
        ensures
            d <= n,
            forall|k: int| 0 <= k < d ==> !set@.contains(#[trigger] cs@[k]),
            d == n || set@.contains(cs@[d as int]),
        decreases n - d,
    {
        if contains_char(&set, cs[d]) {
            break;
        }
        d = d + 1;
    }
    proof {
        lemma_first_in_set_skip(cs@, set@, d as int);
    }
    if d == n {
        return (string_from_chars(&cs, 0, n), String::new());
    }
    if dblquote_flg {
        let mut in_quote = false;
        let mut pos: usize = 0;
        let mut deli: Option<usize> = None;
        let mut rem: usize = 0;
        while pos < n
            invariant_except_break
                pos <= n,
                rem == 0,
                deli matches Some(p) ==> p < pos,
                quote_scan(cs@, set@, delimiter_flg, pos as int, in_quote, match deli { Some(p) => Some(p as int), None => None })
                    == quote_scan(cs@, set@, delimiter_flg, 0, false, None),
            invariant
                n == cs.len(),
            ensures
                deli matches Some(p) ==> p < n,
                rem <= n,
                quote_scan(cs@, set@, delimiter_flg, 0, false, None) == (match deli { Some(p) => Some(p as int), None => None }, rem as int),
            decreases n - pos,
        {
            let c = cs[pos];
            if c == '"' {
                in_quote = !in_quote;
            }
            if !in_quote {
                if deli.is_some() {
                    if !contains_char(&set, c) {
                        rem = pos;
                        break;
                    }
                } else {
                    if contains_char(&set, c) {
                        deli = Some(pos);
                        if !delimiter_flg {
                            rem = pos + 1;
                            break;
                        }
                    }
                }
            }
            pos = pos + 1;
        }
        match deli {
            Some(p) => (string_from_chars(&cs, 0, p), string_from_chars(&cs, rem, n)),
            None => (string_from_chars(&cs, 0, n), String::new()),
        }
    } else {
        let tok = string_from_chars(&cs, 0, d);
        let mut start = d + 1;
        if delimiter_flg {
            let ghost rest = cs@.subrange(d + 1, n as int);
            let ghost p = |c: char| set@.contains(c);
            while start < n
                invariant
                    n == cs.len(),
                    d + 1 <= start <= n,
                    rest == cs@.subrange(d + 1, n as int),
                    p == (|c: char| set@.contains(c)),
                    forall|k: int| d + 1 <= k < start ==> p(#[trigger] cs@[k]),
                ensures
                    d + 1 <= start <= n,
                    forall|k: int| d + 1 <= k < start ==> p(#[trigger] cs@[k]),
                    start == n || !p(cs@[start as int]),
                decreases n - start,
            {
                if !contains_char(&set, cs[start]) {
                    break;
                }
                start = start + 1;
            }
            proof {
                assert forall|k: int| 0 <= k < start - (d + 1) implies p(#[trigger] rest[k]) by {
                    assert(rest[k] == cs@[k + d + 1]);
                }
                if start < n {
                    assert(rest[start - (d + 1)] == cs@[start as int]);
                }
                lemma_trim_start(rest, p, start - (d + 1));
                assert(rest.subrange(start - (d + 1), rest.len() as int) =~= cs@.subrange(start as int, n as int));
            }
        }
        (tok, string_from_chars(&cs, start, n))
    }
}

} // verus!

verus! {

proof fn lemma_trim_start_first(cs: Seq<char>, p: spec_fn(char) -> bool)
    ensures
        trim_start(cs, p).len() > 0 ==> !p(trim_start(cs, p)[0]),
        trim_start(cs, p).len() <= cs.len(),
        trim_start(cs, p) == cs.subrange(cs.len() - trim_start(cs, p).len(), cs.len() as int),
    decreases cs.len(),
{
    if cs.len() > 0 && p(cs[0]) {
        lemma_trim_start_first(cs.drop_first(), p);
        let t = trim_start(cs.drop_first(), p);
        assert(cs.drop_first().subrange(cs.len() - 1 - t.len(), cs.len() - 1) =~= cs.subrange(cs.len() - t.len(), cs.len() as int));
    } else {
        assert(cs.subrange(0, cs.len() as int) =~= cs);
    }
}

proof fn lemma_trim_end_prefix(cs: Seq<char>, p: spec_fn(char) -> bool)
    ensures
        trim_end(cs, p).len() > 0 ==> !p(trim_end(cs, p).last()),
        trim_end(cs, p).len() <= cs.len(),
        trim_end(cs, p) == cs.subrange(0, trim_end(cs, p).len() as int),
        cs.len() > 0 && !p(cs[0]) ==> trim_end(cs, p).len() > 0,
    decreases cs.len(),
{
    if cs.len() > 0 && p(cs.last()) {
        lemma_trim_end_prefix(cs.drop_last(), p);
        let t = trim_end(cs.drop_last(), p);
        assert(cs.drop_last().subrange(0, t.len() as int) =~= cs.subrange(0, t.len() as int));
        if cs.len() > 0 && !p(cs[0]) {
            assert(cs.len() > 1);
            assert(cs.drop_last()[0] == cs[0]);
        }
    } else {
        assert(cs.subrange(0, cs.len() as int) =~= cs);
    }
}

proof fn lemma_trim_start_noop(cs: Seq<char>, p: spec_fn(char) -> bool)
    requires
        cs.len() == 0 || !p(cs[0]),
    ensures
        trim_start(cs, p) == cs,
{
}

proof fn lemma_trim_end_noop(cs: Seq<char>, p: spec_fn(char) -> bool)
    requires
        cs.len() == 0 || !p(cs.last()),
    ensures
        trim_end(cs, p) == cs,
{
}

/// Trimming is idempotent: trimming a trimmed text again changes nothing.
pub proof fn law_trim_idempotent(cs: Seq<char>, option: TwoTypeArg<Seq<char>, bool>)
    ensures
        trim_spec(trim_spec(cs, option), option) == trim_spec(cs, option),
{
    let p = |c: char| trimmed_char(option, c);
    let s = trim_start(cs, p);
    let r = trim_end(s, p);
    lemma_trim_start_first(cs, p);
    lemma_trim_end_prefix(s, p);
    if r.len() > 0 {
        assert(r[0] == s[0]);
    }
    lemma_trim_start_noop(r, p);
    lemma_trim_end_noop(r, p);
}

/// Without the flags, a token, the delimiter it stopped at and the rest make up the text
/// again.
pub proof fn law_token_split(delims: Seq<char>, base: Seq<char>)
    ensures
        first_in_set(base, delims, 0) matches Some(d) ==> token_spec(delims, base, false, false).0
            + seq![base[d]] + token_spec(delims, base, false, false).1 == base,
        first_in_set(base, delims, 0) is None ==> token_spec(delims, base, false, false) == (base, Seq::<char>::empty()),
{
    match first_in_set(base, delims, 0) {
        Some(d) => {
            lemma_first_in_set_range(base, delims, 0);
            assert(base.subrange(0, d) + seq![base[d]] + base.subrange(d + 1, base.len() as int) =~= base);
        },
        None => {},
    }
}

proof fn lemma_first_in_set_range(cs: Seq<char>, set: Seq<char>, from: int)
    ensures
        first_in_set(cs, set, from) matches Some(d) ==> from <= d < cs.len() && set.contains(cs[d]),
    decreases cs.len() - from,
{
    if 0 <= from < cs.len() && !set.contains(cs[from]) {
        lemma_first_in_set_range(cs, set, from + 1);
    }
}

/// Copying from the first character without a length gives the whole text, and a copy
/// never holds more characters than asked for.
pub proof fn law_copy_bounds(s: Seq<char>, start: int, length: int)
    requires
        length >= 0,
    ensures
        copy_spec(s, 1, None) == s,
        copy_spec(s, 0, None) == s,
        copy_spec(s, start, Some(length)).len() <= length,
{
    assert(s.subrange(0, s.len() as int) =~= s);
}


/// Copying `length` characters from the `start`-th (1-based) gives exactly those
/// characters when the text holds them; in general a copy holds as many characters as
/// asked for or as remain from the start, whichever is fewer, and a copy from 0 is a
/// copy from 1.
pub proof fn law_copy_takes_asked_characters(s: Seq<char>, start: int, length: int)
    requires
        length >= 0,
    ensures
        1 <= start && start - 1 + length <= s.len() ==>
            copy_spec(s, start, Some(length)) == s.subrange(start - 1, start - 1 + length),
        copy_spec(s, start, Some(length)).len() == {
            let first = if start <= 1 { 0 } else { start - 1 };
            let remain = if first <= s.len() { s.len() - first } else { 0 };
            if length <= remain { length } else { remain }
        },
        copy_spec(s, 0, Some(length)) == copy_spec(s, 1, Some(length)),
        start >= 1 ==> copy_spec(s, start, None) == copy_spec(s, start, Some(length)) + copy_spec(s, start + length, None),
{
    let from = if start <= 1 { 0 } else if start - 1 <= s.len() { start - 1 } else { s.len() as int };
    if start >= 1 {
        let to = if from + length <= s.len() { from + length } else { s.len() as int };
        assert(s.subrange(from, s.len() as int) =~= s.subrange(from, to) + s.subrange(to, s.len() as int));
    }
}


/// Trimming removes exactly the leading and trailing run of trimmed characters: when
/// every character before position `a` and from position `b` on is one that `option`
/// trims and the characters at `a` and `b - 1` are not, the result is the text between;
/// a text made only of trimmed characters becomes empty.
pub proof fn law_trim_removes_the_outer_runs(cs: Seq<char>, option: TwoTypeArg<Seq<char>, bool>, a: int, b: int)
    ensures
        0 <= a < b <= cs.len()
            && (forall|k: int| 0 <= k < a ==> trimmed_char(option, #[trigger] cs[k]))
            && (forall|k: int| b <= k < cs.len() ==> trimmed_char(option, #[trigger] cs[k]))
            && !trimmed_char(option, cs[a]) && !trimmed_char(option, cs[b - 1])
            ==> trim_spec(cs, option) == cs.subrange(a, b),
        (forall|k: int| 0 <= k < cs.len() ==> trimmed_char(option, #[trigger] cs[k]))
            ==> trim_spec(cs, option).len() == 0,
{
    let p = |c: char| trimmed_char(option, c);
    if 0 <= a < b <= cs.len()
        && (forall|k: int| 0 <= k < a ==> trimmed_char(option, #[trigger] cs[k]))
        && (forall|k: int| b <= k < cs.len() ==> trimmed_char(option, #[trigger] cs[k]))
        && !trimmed_char(option, cs[a]) && !trimmed_char(option, cs[b - 1]) {
        lemma_trim_start(cs, p, a);
        let st = cs.subrange(a, cs.len() as int);
        assert forall|k: int| b - a <= k < st.len() implies p(#[trigger] st[k]) by {
            assert(st[k] == cs[k + a]);
        }
        assert(st[b - a - 1] == cs[b - 1]);
        lemma_trim_end(st, p, b - a);
        assert(st.subrange(0, b - a) =~= cs.subrange(a, b));
    }
    if forall|k: int| 0 <= k < cs.len() ==> trimmed_char(option, #[trigger] cs[k]) {
        lemma_trim_start(cs, p, cs.len() as int);
        assert(cs.subrange(cs.len() as int, cs.len() as int).len() == 0);
    }
}


proof fn lemma_first_in_set_is_first(cs: Seq<char>, set: Seq<char>, from: int)
    requires
        0 <= from,
    ensures
        match first_in_set(cs, set, from) {
            Some(d) => from <= d < cs.len() && set.contains(cs[d])
                && forall|k: int| from <= k < d ==> !set.contains(#[trigger] cs[k]),
            None => forall|k: int| from <= k < cs.len() ==> !set.contains(#[trigger] cs[k]),
        },
    decreases cs.len() - from,
{
    if from < cs.len() && !set.contains(cs[from]) {
        lemma_first_in_set_is_first(cs, set, from + 1);
    }
}

/// Without double-quote handling, the token is the text before the first delimiter and
/// holds no delimiter; the rest is what follows that delimiter, and with the flag the
/// rest does not start with a delimiter and only delimiters were skipped; a text without
/// delimiters is the token itself with nothing left.
pub proof fn law_token_first_delimiter(delims: Seq<char>, base: Seq<char>, flag: bool, t: Seq<char>, r: Seq<char>)
    requires
        (t, r) == token_spec(delims, base, flag, false),
    ensures
        forall|k: int| 0 <= k < t.len() ==> !delims.contains(#[trigger] t[k]),
        t == base.subrange(0, t.len() as int),
        t.len() < base.len() ==> delims.contains(base[t.len() as int]),
        t.len() + 1 + r.len() <= base.len() || (t.len() == base.len() && r.len() == 0),
        r == base.subrange(base.len() - r.len(), base.len() as int),
        forall|k: int| t.len() < k < base.len() - r.len() ==> delims.contains(#[trigger] base[k]),
        !flag && t.len() < base.len() ==> r.len() == base.len() - t.len() - 1,
        flag && r.len() > 0 ==> !delims.contains(r[0]),
{
    lemma_first_in_set_is_first(base, delims, 0);
    match first_in_set(base, delims, 0) {
        None => {
            assert(base.subrange(0, base.len() as int) =~= base);
        },
        Some(d) => {
            let rest = base.subrange(d + 1, base.len() as int);
            let p = |c: char| delims.contains(c);
            assert(base.subrange(0, d).subrange(0, d) =~= base.subrange(0, d));
            if flag {
                lemma_trim_start_first(rest, p);
                let r = trim_start(rest, p);
                assert(r =~= base.subrange(base.len() - r.len(), base.len() as int)) by {
                    assert(rest.subrange(rest.len() - r.len(), rest.len() as int) =~= base.subrange(base.len() - r.len(), base.len() as int));
                }
                lemma_trim_start_skips(rest, p);
                assert forall|k: int| d < k < base.len() - r.len() implies delims.contains(#[trigger] base[k]) by {
                    assert(rest[k - d - 1] == base[k]);
                }
            } else {
                assert(rest =~= base.subrange(base.len() - rest.len(), base.len() as int));
            }
        },
    }
}

proof fn lemma_trim_start_skips(cs: Seq<char>, p: spec_fn(char) -> bool)
    ensures
        forall|k: int| 0 <= k < cs.len() - trim_start(cs, p).len() ==> p(#[trigger] cs[k]),
    decreases cs.len(),
{
    if cs.len() > 0 && p(cs[0]) {
        lemma_trim_start_skips(cs.drop_first(), p);
        assert forall|k: int| 0 <= k < cs.len() - trim_start(cs, p).len() implies p(#[trigger] cs[k]) by {
            if k > 0 {
                assert(cs.drop_first()[k - 1] == cs[k]);
            }
        }
    }
}


proof fn lemma_quote_scan_without_quotes(cs: Seq<char>, set: Seq<char>, pos: int)
    requires
        0 <= pos,
        !cs.contains('"'),
    ensures
        quote_scan(cs, set, false, pos, false, None) == (match first_in_set(cs, set, pos) {
            Some(d) => (Some(d), d + 1),
            None => (None::<int>, 0int),
        }),
    decreases cs.len() - pos,
{
    if pos < cs.len() {
        assert(cs[pos] != '"');
        if !set.contains(cs[pos]) {
            lemma_quote_scan_without_quotes(cs, set, pos + 1);
        }
    }
}

/// Double quotes only matter where there are some: in a text without `"`, splitting at
/// the first delimiter with quotes taken into account gives the same token and rest as
/// without.
pub proof fn law_token_quotes_only_matter_with_quotes(delims: Seq<char>, base: Seq<char>)
    requires
        !base.contains('"'),
    ensures
        token_spec(delims, base, false, true) == token_spec(delims, base, false, false),
{
    lemma_quote_scan_without_quotes(base, delims, 0);
}
} // verus!
