//! Small text builtins: characters and codes, lengths, padding by repetition, and the
//! builtins that read their arguments as strings and truth values only.

use vstd::prelude::*;
use vstd::string::StrSliceExecFns;
use vstd::string::StringSliceAdditionalSpecFns;
use crate::args::{Expression, ObjectModel, TwoTypeArg};
use crate::builtin_args::{
    outcome, str_or, string_or_bool_reading, string_reading, with_default, BuiltInResult,
    BuiltinFuncArgs,
};
use crate::error::{builtin_func_error, ErrorModel, MessageModel, UErrorMessage};
use crate::regexp::{newre_spec, newre as newre_pattern};
use crate::std_calls::{char_from_code, is_scalar_code, push_char, utf16_of, utf16_of_char};
use crate::strings::{chars_of, trim as trim_text, trim_option_view, trim_spec, token as token_text, token_spec};

verus! {

broadcast use vstd::string::group_string_axioms;

/// The character with code `code` as a string; empty when `code` is no character.
pub fn chr(code: u32) -> (r: String)
    ensures
        r@ == (if is_scalar_code(code) { seq![code as char] } else { Seq::<char>::empty() }),
{
    let mut r = String::new();
    match char_from_code(code) {
        Some(c) => {
            push_char(&mut r, c);
            proof {
                vstd::utf8::char_u32_cast(c, code);
                assert(r@ =~= seq![code as char]);
            }
        },
        None => {},
    }
    r
}

/// The code of the first character of `s`, 0 when `s` is empty.
pub fn asc(s: &str) -> (r: u32)
    ensures
        r == (if s@.len() > 0 { s@[0] as u32 } else { 0 }),
{
    if s.unicode_len() > 0 {
        s.get_char(0) as u32
    } else {
        0
    }
}

proof fn lemma_utf16_push(cs: Seq<char>, c: char)
    ensures
        utf16_of(cs.push(c)) == utf16_of(cs) + utf16_of_char(c),
{
    assert(cs.push(c).drop_last() =~= cs);
}

/// The number of UTF-16 code units of `s` (`lengths`).
pub fn lengths(s: &str) -> (r: usize)
    requires
        utf16_of(s@).len() <= usize::MAX,
    ensures
        r == utf16_of(s@).len(),
{
    let cs = chars_of(s);
    let mut n: usize = 0;
    let mut k: usize = 0;
    proof {
        lemma_utf16_len_prefix(cs@, cs@.len() as int);
        assert(cs@.take(cs@.len() as int) =~= s@);
    }
    while k < cs.len()
        invariant
            k <= cs@.len(),
            cs@ == s@,
            n == utf16_of(cs@.take(k as int)).len(),
            forall|j: int| 0 <= j <= cs@.len() ==> utf16_of(#[trigger] cs@.take(j)).len() <= utf16_of(s@).len(),
            utf16_of(s@).len() <= usize::MAX,
        decreases cs.len() - k,
    {
        let c = cs[k];
        proof {
            assert(cs@.take(k + 1) =~= cs@.take(k as int).push(c));
            lemma_utf16_push(cs@.take(k as int), c);
            assert(cs@.take(k + 1).len() <= cs@.len());
        }
        if (c as u32) < 0x10000 {
            n = n + 1;
        } else {
            n = n + 2;
        }
        k = k + 1;
    }
    assert(cs@.take(k as int) =~= s@);
    n
}

proof fn lemma_utf16_len_prefix(cs: Seq<char>, j: int)
    requires
        0 <= j <= cs.len(),
    ensures
        forall|i: int| 0 <= i <= j ==> utf16_of(#[trigger] cs.take(i)).len() <= utf16_of(cs.take(j)).len(),
    decreases j,
{
    if j > 0 {
        lemma_utf16_len_prefix(cs, j - 1);
        assert(cs.take(j) =~= cs.take(j - 1).push(cs[j - 1]));
        lemma_utf16_push(cs.take(j - 1), cs[j - 1]);
    }
    assert(cs.take(cs.len() as int) =~= cs);
}

/// The number of UTF-8 bytes of `s` (`lengthu` of a string).
pub fn lengthu(s: &str) -> (r: usize)
    ensures
        r == vstd::utf8::encode_utf8(s@).len(),
{
    s.as_bytes().len()
}

/// `s` repeated and cut to `len` characters, or `s` itself when it is empty, `len` is 0
/// or `s` is already that long.
pub open spec fn fill_spec(s: Seq<char>, len: int) -> Seq<char> {
    if s.len() == 0 || len == 0 || s.len() >= len {
        s
    } else {
        Seq::new(len as nat, |i: int| s[i % (s.len() as int)])
    }
}

/// `format` of a string: `s` repeated to fill `len` characters (see `fill_spec`).
pub fn fill(s: &str, len: usize) -> (r: String)
    requires
        fill_fits(s, len as int),
    ensures
        r@ == fill_spec(s@, len as int),
{
    let cs = chars_of(s);
    let cnt = cs.len();
    if cnt == 0 || len == 0 || cnt >= len {
        return s.to_owned();
    }
    let mut r = String::new();
    let mut i: usize = 0;
    let mut j: usize = 0;
    while i < len
        invariant
            0 < cnt < len,
            cs@.len() == cnt,
            cs@ == s@,
            i <= len,
            j < cnt,
            j as int == i as int % (cnt as int),
            r@ == Seq::new(i as nat, |k: int| s@[k % (cnt as int)]),
        decreases len - i,
    {
        push_char(&mut r, cs[j]);
        proof {
            assert(r@ =~= Seq::new((i + 1) as nat, |k: int| s@[k % (cnt as int)]));
        }
        i = i + 1;
        j = if j + 1 == cnt { 0 } else { j + 1 };
        proof {
            let q = (i - 1) as int / (cnt as int);
            vstd::arithmetic::div_mod::lemma_fundamental_div_mod((i - 1) as int, cnt as int);
            if j == 0 {
                assert(i as int == (q + 1) * (cnt as int) + 0) by (nonlinear_arith)
                    requires
                        (i - 1) as int == (cnt as int) * q + ((i - 1) as int % (cnt as int)),
                        (i - 1) as int % (cnt as int) == cnt - 1,
                        i >= 1;
                vstd::arithmetic::div_mod::lemma_fundamental_div_mod_converse(i as int, cnt as int, q + 1, 0);
            } else {
                assert(i as int == q * (cnt as int) + j) by (nonlinear_arith)
                    requires
                        (i - 1) as int == (cnt as int) * q + ((i - 1) as int % (cnt as int)),
                        (i - 1) as int % (cnt as int) == j - 1,
                        i >= 1;
                vstd::arithmetic::div_mod::lemma_fundamental_div_mod_converse(i as int, cnt as int, q, j as int);
            }
        }
    }
    r
}

/// The value of a decimal digit character.
pub open spec fn digit_value(c: char) -> int {
    c as int - 0x30
}

/// Whether `c` is a decimal digit.
pub open spec fn is_digit(c: char) -> bool {
    '0' <= c <= '9'
}

/// The number that a string of decimal digits spells.
pub open spec fn digits_value(ds: Seq<char>) -> int
    decreases ds.len(),
{
    if ds.len() == 0 {
        0
    } else {
        digits_value(ds.drop_last()) * 10 + digit_value(ds.last())
    }
}

/// The text after an optional leading `+`.
pub open spec fn unsigned_digits(s: Seq<char>) -> Seq<char> {
    if s.len() > 0 && s[0] == '+' { s.drop_first() } else { s }
}

/// Whether every character is a decimal digit.
pub open spec fn all_digits(ds: Seq<char>) -> bool {
    forall|i: int| 0 <= i < ds.len() ==> is_digit(#[trigger] ds[i])
}

/// What `str::parse::<usize>` reads: an optional `+` followed by at least one decimal
/// digit and nothing else, whose value fits in `usize`.
pub open spec fn parsed_usize(s: Seq<char>) -> Option<int> {
    let ds = unsigned_digits(s);
    if ds.len() > 0 && all_digits(ds) && digits_value(ds) <= usize::MAX {
        Some(digits_value(ds))
    } else {
        None
    }
}

proof fn lemma_digits_value_mono(ds: Seq<char>, k: int)
    requires
        0 <= k <= ds.len(),
        forall|i: int| 0 <= i < ds.len() ==> is_digit(#[trigger] ds[i]),
    ensures
        digits_value(ds.take(k)) <= digits_value(ds),
        0 <= digits_value(ds.take(k)),
    decreases ds.len() - k,
{
    if k < ds.len() {
        lemma_digits_value_mono(ds, k + 1);
        assert(ds.take(k + 1).drop_last() =~= ds.take(k));
        assert(ds.take(k + 1).last() == ds[k]);
    } else {
        assert(ds.take(k) =~= ds);
    }
    if k > 0 {
        lemma_digits_value_nonneg(ds.take(k));
    }
}

proof fn lemma_digits_value_nonneg(ds: Seq<char>)
    requires
        forall|i: int| 0 <= i < ds.len() ==> is_digit(#[trigger] ds[i]),
    ensures
        0 <= digits_value(ds),
    decreases ds.len(),
{
    if ds.len() > 0 {
        lemma_digits_value_nonneg(ds.drop_last());
    }
}

/// Reads `s` as `str::parse::<usize>` does (see `parsed_usize`).
pub fn parse_usize(s: &str) -> (r: Option<usize>)
    ensures
        match r {
            Some(n) => parsed_usize(s@) == Some(n as int),
            None => parsed_usize(s@) is None,
        },
{
    let cs = chars_of(s);
    let start: usize = if cs.len() > 0 && cs[0] == '+' { 1 } else { 0 };
    let ghost ds = unsigned_digits(s@);
    proof {
        assert(ds =~= cs@.skip(start as int));
    }
    if start >= cs.len() {
        return None;
    }
    let mut v: usize = 0;
    let mut k = start;
    while k < cs.len()
        invariant
            start <= k <= cs@.len(),
            cs@ == s@,
            ds == cs@.skip(start as int),
            ds == unsigned_digits(s@),
            ds.len() > 0,
            forall|i: int| start <= i < k ==> is_digit(#[trigger] cs@[i]),
            v as int == digits_value(ds.take(k - start)),
        decreases cs.len() - k,
    {
        let c = cs[k];
        if !('0' <= c && c <= '9') {
            proof {
                assert(ds[k - start] == cs@[k as int]);
                assert(!is_digit(ds[k - start]));
                assert(!all_digits(ds));
                assert(parsed_usize(s@) is None);
            }
            return None;
        }
        let d = (c as u32 - 0x30) as usize;
        proof {
            assert(ds.take(k + 1 - start) =~= ds.take(k - start).push(c));
            assert(ds.take(k + 1 - start).drop_last() =~= ds.take(k - start));
        }
        if v > (usize::MAX - d) / 10 {
            proof {
                // the prefix read so far already exceeds the limit
                if all_digits(ds) {
                    lemma_digits_value_mono(ds, k + 1 - start);
                    assert(ds.take(k + 1 - start).last() == c);
                    assert(digit_value(c) == d);
                    assert(digits_value(ds.take(k + 1 - start)) == digits_value(ds.take(k - start)) * 10 + digit_value(c));
                    assert(digits_value(ds.take(k + 1 - start)) == v * 10 + d);
                    assert(v * 10 + d > usize::MAX) by (nonlinear_arith)
                        requires
                            v > (usize::MAX - d) / 10,
                            d <= 9;
                    assert(digits_value(ds) > usize::MAX);
                }
                assert(parsed_usize(s@) is None);
            }
            return None;
        }
        assert(v * 10 + d <= usize::MAX) by (nonlinear_arith)
            requires
                v <= (usize::MAX - d) / 10,
                d <= 9;
        v = v * 10 + d;
        k = k + 1;
    }
    proof {
        assert(ds.take(k - start) =~= ds);
        assert forall|i: int| 0 <= i < ds.len() implies is_digit(#[trigger] ds[i]) by {
            assert(ds[i] == cs@[i + start]);
        }
        assert(all_digits(ds));
    }
    Some(v)
}

/// Whether the text starts with a sign character.
pub open spec fn signed(s: Seq<char>) -> bool {
    s.len() > 0 && (s[0] == '+' || s[0] == '-')
}

/// What `str::parse::<i64>` reads: an optional `+` or `-` followed by at least one
/// decimal digit and nothing else, whose value fits in `i64`.
pub open spec fn parsed_i64(s: Seq<char>) -> Option<int> {
    let ds = if signed(s) { s.drop_first() } else { s };
    let v = if s.len() > 0 && s[0] == '-' { -digits_value(ds) } else { digits_value(ds) };
    if ds.len() > 0 && all_digits(ds) && i64::MIN <= v <= i64::MAX {
        Some(v)
    } else {
        None
    }
}

/// Reads `s` as `str::parse::<i64>` does (see `parsed_i64`).
pub fn parse_i64(s: &str) -> (r: Option<i64>)
    ensures
        match r {
            Some(n) => parsed_i64(s@) == Some(n as int),
            None => parsed_i64(s@) is None,
        },
{
    let cs = chars_of(s);
    let neg = cs.len() > 0 && cs[0] == '-';
    let start: usize = if cs.len() > 0 && (cs[0] == '+' || cs[0] == '-') { 1 } else { 0 };
    let ghost ds = if signed(s@) { s@.drop_first() } else { s@ };
    proof {
        assert(ds =~= cs@.skip(start as int));
    }
    if start >= cs.len() {
        return None;
    }
    let limit: u64 = if neg { 0x8000_0000_0000_0000 } else { 0x7FFF_FFFF_FFFF_FFFF };
    let mut v: u64 = 0;
    let mut k = start;
    while k < cs.len()
        invariant
            start <= k <= cs@.len(),
            cs@ == s@,
            ds == cs@.skip(start as int),
            ds == (if signed(s@) { s@.drop_first() } else { s@ }),
            neg == (s@.len() > 0 && s@[0] == '-'),
            limit == (if neg { 0x8000_0000_0000_0000u64 } else { 0x7FFF_FFFF_FFFF_FFFFu64 }),
            ds.len() > 0,
            v <= limit,
            forall|i: int| start <= i < k ==> is_digit(#[trigger] cs@[i]),
            v as int == digits_value(ds.take(k - start)),
        decreases cs.len() - k,
    {
        let c = cs[k];
        if !('0' <= c && c <= '9') {
            proof {
                assert(ds[k - start] == cs@[k as int]);
                assert(!all_digits(ds));
            }
            return None;
        }
        let d = (c as u32 - 0x30) as u64;
        proof {
            assert(ds.take(k + 1 - start) =~= ds.take(k - start).push(c));
            assert(ds.take(k + 1 - start).drop_last() =~= ds.take(k - start));
        }
        if v > (limit - d) / 10 {
            proof {
                if all_digits(ds) {
                    lemma_digits_value_mono(ds, k + 1 - start);
                    assert(ds.take(k + 1 - start).last() == c);
                    assert(digits_value(ds.take(k + 1 - start)) == v * 10 + d);
                    assert(v * 10 + d > limit) by (nonlinear_arith)
                        requires
                            v > (limit - d) / 10,
                            d <= 9;
                    assert(digits_value(ds) > limit);
                }
            }
            return None;
        }
        assert(v * 10 + d <= limit) by (nonlinear_arith)
            requires
                v <= (limit - d) / 10,
                d <= 9,
                d <= limit;
        v = v * 10 + d;
        k = k + 1;
    }
    proof {
        assert(ds.take(k - start) =~= ds);
        assert forall|i: int| 0 <= i < ds.len() implies is_digit(#[trigger] ds[i]) by {
            assert(ds[i] == cs@[i + start]);
        }
        assert(all_digits(ds));
    }
    if neg {
        if v == 0x8000_0000_0000_0000 {
            Some(i64::MIN)
        } else {
            Some(-(v as i64))
        }
    } else {
        Some(v as i64)
    }
}

/// `format` of a string: argument 1 is the width, given as a string (read as a decimal
/// number) or as a number (already turned into a width).
pub open spec fn format_string_spec(s: Seq<char>, width: TwoTypeArg<Seq<char>, int>) -> Result<Seq<char>, ErrorModel> {
    match width {
        TwoTypeArg::T(w) => match parsed_usize(w) {
            Some(n) => Ok(fill_spec(s, n)),
            None => Err(ErrorModel::Error(MessageModel::NotANumber(w))),
        },
        TwoTypeArg::U(n) => Ok(fill_spec(s, n)),
    }
}

/// The width argument of `format` as plain values.
pub open spec fn width_view(w: TwoTypeArg<String, usize>) -> TwoTypeArg<Seq<char>, int> {
    match w {
        TwoTypeArg::T(s) => TwoTypeArg::T(s@),
        TwoTypeArg::U(n) => TwoTypeArg::U(n as int),
    }
}

/// Whether filling `s` to `len` characters fits in memory the way `format` builds it.
pub open spec fn fill_fits(s: &str, len: int) -> bool {
    s.spec_bytes().len() * (len / (if s@.len() == 0 { 1 } else { s@.len() as int }) + 1) <= usize::MAX
}

/// `format` of a string (see `format_string_spec`).
pub fn format_string(s: &str, width: TwoTypeArg<String, usize>) -> (r: BuiltInResult<String>)
    requires
        match width_view(width) {
            TwoTypeArg::U(n) => fill_fits(s, n),
            TwoTypeArg::T(w) => match parsed_usize(w) {
                Some(n) => fill_fits(s, n),
                None => true,
            },
        },
    ensures
        outcome(r, |x: String| x@) == format_string_spec(s@, width_view(width)),
{
    match width {
        TwoTypeArg::T(w) => match parse_usize(w.as_str()) {
            Some(n) => Ok(fill(s, n)),
            None => Err(builtin_func_error(UErrorMessage::NotANumber(w))),
        },
        TwoTypeArg::U(n) => Ok(fill(s, n)),
    }
}

/// The `newre` builtin: argument 0 is the pattern; argument 1 makes case matter,
/// argument 2 asks for multi-line, argument 3 for ASCII-only classes (see `newre_spec`).
pub fn newre(args: &BuiltinFuncArgs) -> (r: BuiltInResult<String>)
    ensures
        outcome(r, |s: String| s@) == (match with_default(args.objects(), 0, None, |o: ObjectModel| string_reading(o, 0)) {
            Err(e) => Err(e),
            Ok(p) => match with_default(args.objects(), 1, Some(false), |o: ObjectModel| Ok::<bool, ErrorModel>(o.truthy)) {
                Err(e) => Err(e),
                Ok(case) => match with_default(args.objects(), 2, Some(false), |o: ObjectModel| Ok::<bool, ErrorModel>(o.truthy)) {
                    Err(e) => Err(e),
                    Ok(multi) => match with_default(args.objects(), 3, Some(false), |o: ObjectModel| Ok::<bool, ErrorModel>(o.truthy)) {
                        Err(e) => Err(e),
                        Ok(ascii) => Ok(newre_spec(p, case, multi, ascii)),
                    },
                },
            },
        }),
{
    let pattern = match args.get_as_string(0, None) {
        Ok(s) => s,
        Err(e) => return Err(e),
    };
    let case = match args.get_as_bool(1, Some(false)) {
        Ok(b) => b,
        Err(e) => return Err(e),
    };
    let multi = match args.get_as_bool(2, Some(false)) {
        Ok(b) => b,
        Err(e) => return Err(e),
    };
    let ascii = match args.get_as_bool(3, Some(false)) {
        Ok(b) => b,
        Err(e) => return Err(e),
    };
    Ok(newre_pattern(pattern.as_str(), case, multi, ascii))
}

/// The `trim` builtin: argument 0 is the text; argument 1 (default `FALSE`) is either the
/// characters to strip or a flag that adds the ideographic space to the blanks stripped.
pub fn trim(args: &BuiltinFuncArgs) -> (r: BuiltInResult<String>)
    ensures
        outcome(r, |s: String| s@) == (match with_default(args.objects(), 0, None, |o: ObjectModel| string_reading(o, 0)) {
            Err(e) => Err(e),
            Ok(t) => match with_default(args.objects(), 1, Some(TwoTypeArg::<Seq<char>, bool>::U(false)), |o: ObjectModel| string_or_bool_reading(o)) {
                Err(e) => Err(e),
                Ok(option) => Ok(trim_spec(t, option)),
            },
        }),
{
    let target = match args.get_as_string(0, None) {
        Ok(s) => s,
        Err(e) => return Err(e),
    };
    let option = match args.get_as_string_or_bool(1, Some(TwoTypeArg::U(false))) {
        Ok(o) => o,
        Err(e) => return Err(e),
    };
    proof {
        assert(trim_option_view(option) == str_or(option));
    }
    Ok(trim_text(target.as_str(), option))
}

/// The syntax of the argument at position 1, where there is one.
pub open spec fn second_expr(args: &BuiltinFuncArgs) -> Option<Expression> {
    if 1 < args.exprs().len() { args.exprs()[1] } else { None }
}

/// The `token` builtin: argument 0 holds the delimiter characters, argument 1 the text,
/// argument 2 (default `FALSE`) asks to skip a run of delimiters, argument 3 (default
/// `FALSE`) to ignore delimiters between double quotes. Returns the token, the rest of
/// the text, and the variable expression of argument 1, which the caller gives the rest.
pub fn token(args: &BuiltinFuncArgs) -> (r: BuiltInResult<(String, String, Option<Expression>)>)
    ensures
        outcome(r, |t: (String, String, Option<Expression>)| (t.0@, t.1@, t.2)) == (match with_default(args.objects(), 0, None, |o: ObjectModel| string_reading(o, 0)) {
            Err(e) => Err(e),
            Ok(d) => match with_default(args.objects(), 1, None, |o: ObjectModel| string_reading(o, 1)) {
                Err(e) => Err(e),
                Ok(b) => match with_default(args.objects(), 2, Some(false), |o: ObjectModel| Ok::<bool, ErrorModel>(o.truthy)) {
                    Err(e) => Err(e),
                    Ok(flag) => match with_default(args.objects(), 3, Some(false), |o: ObjectModel| Ok::<bool, ErrorModel>(o.truthy)) {
                        Err(e) => Err(e),
                        Ok(quote) => Ok((token_spec(d, b, flag, quote).0, token_spec(d, b, flag, quote).1, second_expr(args))),
                    },
                },
            },
        }),
{
    let delimiter = match args.get_as_string(0, None) {
        Ok(s) => s,
        Err(e) => return Err(e),
    };
    let base = match args.get_as_string(1, None) {
        Ok(s) => s,
        Err(e) => return Err(e),
    };
    let expression = args.get_expr(1);
    let flag = match args.get_as_bool(2, Some(false)) {
        Ok(b) => b,
        Err(e) => return Err(e),
    };
    let quote = match args.get_as_bool(3, Some(false)) {
        Ok(b) => b,
        Err(e) => return Err(e),
    };
    let (t, rest) = token_text(delimiter.as_str(), base.as_str(), flag, quote);
    Ok((t, rest, expression))
}

/// The `as_string` builtin: how argument 0 prints.
pub fn as_string(args: &BuiltinFuncArgs) -> (r: BuiltInResult<String>)
    ensures
        outcome(r, |s: String| s@) == (match with_default(args.objects(), 0, None, |o: ObjectModel| Ok::<ObjectModel, ErrorModel>(o)) {
            Err(e) => Err(e),
            Ok(o) => Ok(o.text),
        }),
{
    match args.get_as_object(0, None) {
        Ok(o) => Ok(o.text),
        Err(e) => Err(e),
    }
}

} // verus!

verus! {

proof fn lemma_digits_of(m: nat)
    ensures
        crate::window::digits_of(m).len() > 0,
        all_digits(crate::window::digits_of(m)),
        digits_value(crate::window::digits_of(m)) == m,
    decreases m,
{
    let ds = crate::window::digits_of(m);
    if m < 10 {
        assert(ds.drop_last() =~= Seq::<char>::empty());
        assert(((0x30 + m) as char) as int == 0x30 + m);
        assert(digit_value(ds.last()) == m);
        assert(digits_value(ds) == digits_value(ds.drop_last()) * 10 + digit_value(ds.last()));
    } else {
        lemma_digits_of(m / 10);
        let prefix = crate::window::digits_of(m / 10);
        assert(ds.drop_last() =~= prefix);
        assert(((0x30 + m % 10) as char) as int == 0x30 + m % 10);
        assert(digit_value(ds.last()) == m % 10);
        assert(digits_value(ds) == digits_value(ds.drop_last()) * 10 + digit_value(ds.last()));
        assert(digits_value(ds.drop_last()) == m / 10);
        assert(m == (m / 10) * 10 + m % 10) by {
            vstd::arithmetic::div_mod::lemma_fundamental_div_mod(m as int, 10);
        }
        assert forall|i: int| 0 <= i < ds.len() implies is_digit(#[trigger] ds[i]) by {
            if i < prefix.len() {
                assert(ds[i] == prefix[i]);
            }
        }
    }
}

/// Reading back a number written in decimal gives the number.
pub proof fn law_parse_decimal(n: int)
    requires
        0 <= n <= usize::MAX,
    ensures
        parsed_usize(crate::window::decimal_of(n)) == Some(n),
{
    lemma_digits_of(n as nat);
    let ds = crate::window::digits_of(n as nat);
    assert(ds[0] != '+') by {
        assert(is_digit(ds[0]));
    }
    assert(unsigned_digits(ds) == ds);
}

} // verus!

verus! {

/// What `length` finds out about a value.
pub enum LengthOf {
    /// The length.
    Count(usize),
    /// A number: the length of its decimal rendering, which the caller measures.
    NumberText(crate::args::NumValue),
    /// A remote object, whose length the browser reports.
    Remote(crate::args::RemoteObject),
    /// A structure definition or instance, whose size the caller knows.
    StructSize(crate::args::OtherKind, u64),
}

/// What `length` finds out about a value: characters of a string, items of an array or
/// table, bytes of a byte array, the letters of `True`/`False`, 0 for EMPTY and 1 for
/// NULL; other kinds of value are refused.
pub open spec fn length_spec(o: ObjectModel) -> Result<LengthOfModel, ErrorModel> {
    match o.value {
        crate::args::ValueModel::String(s) => Ok(LengthOfModel::Count(s.len() as int)),
        crate::args::ValueModel::Num(n) => Ok(LengthOfModel::NumberText(n)),
        crate::args::ValueModel::Array(v) => Ok(LengthOfModel::Count(v.len() as int)),
        crate::args::ValueModel::Bool(b) => Ok(LengthOfModel::Count(if b { 4 } else { 5 })),
        crate::args::ValueModel::HashTbl(k, _) => Ok(LengthOfModel::Count(k.len() as int)),
        crate::args::ValueModel::Other(crate::args::OtherKind::Struct, h) => Ok(LengthOfModel::StructSize(crate::args::OtherKind::Struct, h)),
        crate::args::ValueModel::Other(crate::args::OtherKind::UStruct, h) => Ok(LengthOfModel::StructSize(crate::args::OtherKind::UStruct, h)),
        crate::args::ValueModel::Empty => Ok(LengthOfModel::Count(0)),
        crate::args::ValueModel::Null => Ok(LengthOfModel::Count(1)),
        crate::args::ValueModel::ByteArray(b) => Ok(LengthOfModel::Count(b.len() as int)),
        crate::args::ValueModel::RemoteObject(r) => Ok(LengthOfModel::Remote(r)),
        _ => Err(ErrorModel::Error(MessageModel::InvalidArgument(o))),
    }
}

/// What `length` finds out, as plain values.
pub enum LengthOfModel {
    Count(int),
    NumberText(crate::args::NumValue),
    Remote(crate::args::RemoteObject),
    StructSize(crate::args::OtherKind, u64),
}

impl LengthOf {
    pub open spec fn model(&self) -> LengthOfModel {
        match self {
            LengthOf::Count(n) => LengthOfModel::Count(*n as int),
            LengthOf::NumberText(n) => LengthOfModel::NumberText(*n),
            LengthOf::Remote(r) => LengthOfModel::Remote(*r),
            LengthOf::StructSize(k, h) => LengthOfModel::StructSize(*k, *h),
        }
    }
}

/// The `length` builtin (see `length_spec`).
pub fn length(args: &BuiltinFuncArgs) -> (r: BuiltInResult<LengthOf>)
    ensures
        outcome(r, |x: LengthOf| x.model()) == (match with_default(args.objects(), 0, None, |o: ObjectModel| Ok::<ObjectModel, ErrorModel>(o)) {
            Err(e) => Err(e),
            Ok(o) => length_spec(o),
        }),
{
    let o = match args.get_as_object(0, None) {
        Ok(o) => o,
        Err(e) => return Err(e),
    };
    match &o.value {
        crate::args::Value::String(s) => Ok(LengthOf::Count(s.as_str().unicode_len())),
        crate::args::Value::Num(n) => Ok(LengthOf::NumberText(*n)),
        crate::args::Value::Array(v) => {
            proof {
                crate::builtin_args::lemma_models_len(v@);
            }
            Ok(LengthOf::Count(v.len()))
        },
        crate::args::Value::Bool(b) => Ok(LengthOf::Count(if *b { 4 } else { 5 })),
        crate::args::Value::HashTbl(k, _) => {
            proof {
                crate::builtin_args::lemma_models_len(k@);
            }
            Ok(LengthOf::Count(k.len()))
        },
        crate::args::Value::Other(crate::args::OtherKind::Struct, h) => Ok(LengthOf::StructSize(crate::args::OtherKind::Struct, *h)),
        crate::args::Value::Other(crate::args::OtherKind::UStruct, h) => Ok(LengthOf::StructSize(crate::args::OtherKind::UStruct, *h)),
        crate::args::Value::Empty => Ok(LengthOf::Count(0)),
        crate::args::Value::Null => Ok(LengthOf::Count(1)),
        crate::args::Value::ByteArray(b) => Ok(LengthOf::Count(b.len())),
        crate::args::Value::RemoteObject(r) => Ok(LengthOf::Remote(*r)),
        _ => Err(builtin_func_error(UErrorMessage::InvalidArgument(o.duplicate()))),
    }
}


/// Filling repeats the text: a non-empty text shorter than `len` becomes exactly `len`
/// characters that start with the text and repeat it with its length as period; a text
/// that is empty or already that long is kept.
pub proof fn law_fill_repeats(s: Seq<char>, len: int)
    ensures
        s.len() > 0 && len > s.len() ==> fill_spec(s, len).len() == len
            && fill_spec(s, len).take(s.len() as int) == s
            && forall|i: int| s.len() <= i < len ==> #[trigger] fill_spec(s, len)[i] == fill_spec(s, len)[i - s.len()],
        s.len() == 0 || s.len() >= len ==> fill_spec(s, len) == s,
{
    if s.len() > 0 && len > s.len() {
        let r = fill_spec(s, len);
        let n = s.len() as int;
        assert forall|i: int| 0 <= i < n implies r.take(n)[i] == s[i] by {
            vstd::arithmetic::div_mod::lemma_small_mod(i as nat, n as nat);
        }
        assert(r.take(n) =~= s);
        assert forall|i: int| n <= i < len implies #[trigger] r[i] == r[i - n] by {
            vstd::arithmetic::div_mod::lemma_mod_sub_multiples_vanish(i, n);
        }
    }
}


/// Reading back an integer written in decimal (with `-` when negative) gives the
/// integer; a leading `+` changes nothing.
pub proof fn law_parse_i64_decimal(n: int)
    requires
        i64::MIN <= n <= i64::MAX,
    ensures
        parsed_i64(crate::window::decimal_of(n)) == Some(n),
        n >= 0 ==> parsed_i64(seq!['+'] + crate::window::decimal_of(n)) == Some(n),
{
    let m: nat = if n < 0 { (-n) as nat } else { n as nat };
    lemma_digits_of(m);
    let ds = crate::window::digits_of(m);
    assert(is_digit(ds[0]));
    let d = crate::window::decimal_of(n);
    if n < 0 {
        assert(d.drop_first() =~= ds);
        assert(signed(d));
    } else {
        assert(!signed(d));
        let e = seq!['+'] + d;
        assert(e.drop_first() =~= ds);
        assert(signed(e));
    }
}


/// UTF-16 writes a character below U+10000 as one unit holding its code and any other as
/// a surrogate pair, a high surrogate (U+D800 to U+DBFF) then a low one (U+DC00 to
/// U+DFFF), from which the code is recovered.
pub proof fn law_utf16_of_char(c: char)
    ensures
        (c as u32) < 0x10000 ==> utf16_of_char(c) == seq![c as u32 as u16],
        (c as u32) >= 0x10000 ==> {
            let u = utf16_of_char(c);
            &&& u.len() == 2
            &&& 0xD800 <= u[0] <= 0xDBFF
            &&& 0xDC00 <= u[1] <= 0xDFFF
            &&& (u[0] - 0xD800) * 0x400 + (u[1] - 0xDC00) + 0x10000 == c as u32
        },
{
    vstd::utf8::char_is_scalar(c);
    let n = c as u32;
    if n >= 0x10000 {
        let m = (n - 0x10000) as u32;
        assert(m <= 0xFFFFF);
        assert(m / 0x400 <= 0x3FF);
        assert(m % 0x400 < 0x400);
        assert((m / 0x400) * 0x400 + m % 0x400 == m);
    }
}

/// A text in UTF-16 has one unit for each character below U+10000 and two for each
/// other one, so at least as many units as characters and at most twice as many, and
/// exactly as many when all its characters are below U+10000; the units of two texts
/// one after the other are the units of each, joined.
pub proof fn law_utf16_length(a: Seq<char>, b: Seq<char>)
    ensures
        a.len() <= utf16_of(a).len() <= 2 * a.len(),
        (forall|k: int| 0 <= k < a.len() ==> (#[trigger] a[k] as u32) < 0x10000) ==> utf16_of(a).len() == a.len(),
        utf16_of(a + b) == utf16_of(a) + utf16_of(b),
    decreases b.len(), a.len(),
{
    if a.len() > 0 {
        let p = a.drop_last();
        law_utf16_length(p, Seq::<char>::empty());
        if forall|k: int| 0 <= k < a.len() ==> (#[trigger] a[k] as u32) < 0x10000 {
            assert forall|k: int| 0 <= k < p.len() implies (#[trigger] p[k] as u32) < 0x10000 by {
                assert(p[k] == a[k]);
            }
            assert((a.last() as u32) < 0x10000);
        }
    }
    if b.len() > 0 {
        let q = b.drop_last();
        law_utf16_length(a, q);
        assert((a + b).drop_last() =~= a + q);
        assert((a + b).last() == b.last());
        assert(utf16_of(a) + utf16_of(q) + utf16_of_char(b.last()) =~= utf16_of(a) + (utf16_of(q) + utf16_of_char(b.last())));
    } else {
        assert(a + b =~= a);
        assert(utf16_of(b) =~= Seq::<u16>::empty());
        assert(utf16_of(a) + utf16_of(b) =~= utf16_of(a));
    }
}

/// Reading numbers is decimal, digit by digit: `'0'` to `'9'` alone read as 0 to 9, one
/// more digit after a number multiplies it by ten and adds the digit, leading zeros
/// change nothing, and the empty text, a lone sign or any other character is no number.
/// A minus sign negates what follows.
pub proof fn law_parse_digit_by_digit(ds: Seq<char>, c: char)
    requires
        '0' <= c <= '9',
        ds.len() > 0,
        all_digits(ds),
        ds[0] != '+',
    ensures
        parsed_usize(seq![c]) == Some(c as int - '0' as int),
        ({
            let v = digits_value(ds);
            let w = 10 * v + (c as int - '0' as int);
            &&& w <= usize::MAX ==> parsed_usize(ds.push(c)) == Some(w)
            &&& parsed_usize(seq!['0'] + ds) == parsed_usize(ds)
            &&& v <= i64::MAX ==> parsed_i64(seq!['-'] + ds) == Some(-v)
        }),
        parsed_usize(Seq::<char>::empty()) is None,
        parsed_usize(seq!['+']) is None,
        !('0' <= ds.last() <= '9') ==> parsed_usize(ds) is None,
{
    let one = seq![c];
    assert(one.drop_last() =~= Seq::<char>::empty());
    assert(unsigned_digits(one) == one);
    assert(all_digits(one));
    lemma_digits_value_nonneg(ds);
    let p = ds.push(c);
    assert(p.drop_last() =~= ds);
    assert(p[0] == ds[0]);
    assert(unsigned_digits(p) == p);
    assert(all_digits(p)) by {
        assert forall|i: int| 0 <= i < p.len() implies is_digit(#[trigger] p[i]) by {
            if i < ds.len() {
                assert(p[i] == ds[i]);
            }
        }
    }
    let z = seq!['0'] + ds;
    lemma_digits_value_leading_zero(ds);
    assert(unsigned_digits(z) == z);
    assert(all_digits(z)) by {
        assert forall|i: int| 0 <= i < z.len() implies is_digit(#[trigger] z[i]) by {
            if i > 0 {
                assert(z[i] == ds[i - 1]);
            }
        }
    }
    let m = seq!['-'] + ds;
    assert(signed(m));
    assert(m.drop_first() =~= ds);
    assert(unsigned_digits(ds) == ds);
    let plus = seq!['+'];
    assert(unsigned_digits(plus) =~= Seq::<char>::empty());
}

proof fn lemma_digits_value_leading_zero(ds: Seq<char>)
    ensures
        digits_value(seq!['0'] + ds) == digits_value(ds),
    decreases ds.len(),
{
    if ds.len() == 0 {
        let z = seq!['0'];
        assert(seq!['0'] + ds =~= z);
        assert(z.drop_last() =~= Seq::<char>::empty());
        assert(digits_value(z) == digits_value(Seq::<char>::empty()) * 10 + digit_value('0'));
    } else {
        lemma_digits_value_leading_zero(ds.drop_last());
        assert((seq!['0'] + ds).drop_last() =~= seq!['0'] + ds.drop_last());
        assert((seq!['0'] + ds).last() == ds.last());
    }
}

/// Writing a number in decimal gives digits only, which read back digit by digit (see
/// `law_parse_digit_by_digit`) as the number, with no leading zero except for 0 itself
/// (written `0`); a negative number is `-` before the digits of its magnitude.
pub proof fn law_decimal_spells_value(m: nat, n: int)
    ensures
        crate::window::digits_of(m).len() > 0,
        all_digits(crate::window::digits_of(m)),
        digits_value(crate::window::digits_of(m)) == m,
        m >= 1 ==> crate::window::digits_of(m)[0] != '0',
        crate::window::digits_of(0) == seq!['0'],
        n < 0 ==> crate::window::decimal_of(n) == seq!['-'] + crate::window::digits_of((-n) as nat),
    decreases m,
{
    lemma_digits_of(m);
    let ds = crate::window::digits_of(m);
    if m >= 10 {
        law_decimal_spells_value(m / 10, n);
        assert(m / 10 >= 1);
        assert(ds[0] == crate::window::digits_of(m / 10)[0]);
    } else if m >= 1 {
        assert(ds[0] == (0x30 + m) as char);
        assert(((0x30 + m) as char) as int == 0x30 + m);
    }
    assert(((0x30 + 0) as char) == '0');
}
} // verus!
