//! `replace` (`chgmoj`): replacing every occurrence of a string, ASCII letters compared
//! without case, or every match of a regular expression.

use vstd::prelude::*;
use vstd::utf8::*;
use vstd::string::StringSliceAdditionalSpecFns;
use crate::args::{Object, ObjectModel, Value, ValueModel};
use crate::builtin_args::{
    outcome, string_reading, with_default, BuiltInResult, BuiltinFuncArgs,
};
use crate::bytes::{fold_bytes, lower_bytes};
use crate::codec::{utf8_text, from_byte};
use crate::error::ErrorModel;
use crate::regexp::{bad_pattern, pattern_replaced, pattern_valid, replace_regex};
use crate::search::{occurs_at, occurs_here};
use crate::std_calls::push_char;
use crate::strings::chars_of;

verus! {

broadcast use vstd::string::group_string_axioms;

/// The last offset at which `p` occurs in `t` and ends by `end`.
pub open spec fn last_occurrence(t: Seq<u8>, p: Seq<u8>, end: int) -> Option<int>
    decreases end,
{
    if end < p.len() || end <= 0 {
        None
    } else if occurs_at(t, p, end - p.len()) {
        Some(end - p.len())
    } else {
        last_occurrence(t, p, end - 1)
    }
}

/// `orig` up to `end` with the occurrences of `p` in `folded` replaced by `rep`, taken
/// from the back and without overlap (a non-empty `p`).
pub open spec fn replaced_below(orig: Seq<u8>, folded: Seq<u8>, p: Seq<u8>, rep: Seq<u8>, end: int) -> Seq<u8>
    decreases end,
{
    if p.len() == 0 || end <= 0 {
        orig.take(end)
    } else {
        match last_occurrence(folded, p, end) {
            Some(q) => if 0 <= q < end {
                replaced_below(orig, folded, p, rep, q) + rep + orig.subrange(q + p.len(), end)
            } else {
                orig.take(end)
            },
            None => orig.take(end),
        }
    }
}

/// The UTF-8 bytes of `target` with every occurrence of `pattern` replaced by `rep`,
/// ASCII letters compared without case; occurrences are taken from the back without
/// overlap (a non-empty pattern).
pub open spec fn replaced_bytes(target: Seq<char>, pattern: Seq<char>, rep: Seq<char>) -> Seq<u8> {
    let t = encode_utf8(target);
    replaced_below(t, lower_bytes(t), lower_bytes(encode_utf8(pattern)), encode_utf8(rep), t.len() as int)
}

/// `rep` before, between and after the characters of `cs`.
pub open spec fn interleaved(cs: Seq<char>, rep: Seq<char>) -> Seq<char>
    decreases cs.len(),
{
    if cs.len() == 0 {
        rep
    } else {
        interleaved(cs.drop_last(), rep) + seq![cs.last()] + rep
    }
}

/// What the plain replacement makes of `target`: with an empty pattern `rep` goes
/// before, between and after the characters; otherwise every occurrence is replaced.
pub open spec fn replace_plain_spec(target: Seq<char>, pattern: Seq<char>, rep: Seq<char>) -> Seq<char> {
    if pattern.len() == 0 {
        interleaved(target, rep)
    } else {
        utf8_text(replaced_bytes(target, pattern, rep))
    }
}

proof fn lemma_last_occurrence(t: Seq<u8>, p: Seq<u8>, end: int)
    requires
        p.len() > 0,
        end <= t.len(),
    ensures
        match last_occurrence(t, p, end) {
            Some(q) => 0 <= q && q + p.len() <= end && occurs_at(t, p, q),
            None => true,
        },
    decreases end,
{
    if end >= p.len() && end > 0 && !occurs_at(t, p, end - p.len()) {
        lemma_last_occurrence(t, p, end - 1);
    }
}

/// The last offset at which `p` occurs in `t` and ends by `end`.
fn last_occurrence_exec(t: &[u8], p: &[u8], end: usize) -> (r: Option<usize>)
    requires
        p@.len() > 0,
        end <= t@.len(),
    ensures
        match r {
            Some(q) => last_occurrence(t@, p@, end as int) == Some(q as int),
            None => last_occurrence(t@, p@, end as int) is None,
        },
{
    let mut e = end;
    while e >= p.len() && e > 0
        invariant
            p@.len() > 0,
            e <= end <= t@.len(),
            last_occurrence(t@, p@, end as int) == last_occurrence(t@, p@, e as int),
        decreases e,
    {
        if occurs_here(t, p, e - p.len()) {
            return Some(e - p.len());
        }
        e = e - 1;
    }
    None
}

/// Appends `src[lo..hi]`.
fn push_range(out: &mut Vec<u8>, src: &[u8], lo: usize, hi: usize)
    requires
        lo <= hi <= src@.len(),
    ensures
        final(out)@ == old(out)@ + src@.subrange(lo as int, hi as int),
{
    let mut k = lo;
    while k < hi
        invariant
            lo <= k <= hi <= src@.len(),
            out@ == old(out)@ + src@.subrange(lo as int, k as int),
        decreases hi - k,
    {
        out.push(src[k]);
        k = k + 1;
        assert(src@.subrange(lo as int, k as int) =~= src@.subrange(lo as int, k - 1).push(src@[k - 1]));
    }
}

/// The end of the stretch searched for the `j`-th occurrence from the back: the whole
/// text for the first, else the offset of the one found before.
pub open spec fn upper(qs: Seq<usize>, n: int, j: int) -> int {
    if j == 0 { n } else { qs[j - 1] as int }
}

/// Appends `rep` and then `src[lo..hi]`.
fn push_piece(out: &mut Vec<u8>, rep: &[u8], src: &[u8], lo: usize, hi: usize)
    requires
        lo <= hi <= src@.len(),
    ensures
        final(out)@ == old(out)@ + rep@ + src@.subrange(lo as int, hi as int),
{
    let mut k: usize = 0;
    while k < rep.len()
        invariant
            k <= rep@.len(),
            out@ == old(out)@ + rep@.take(k as int),
        decreases rep.len() - k,
    {
        out.push(rep[k]);
        k = k + 1;
        assert(rep@.take(k as int) =~= rep@.take(k - 1).push(rep@[k - 1]));
    }
    assert(rep@.take(k as int) =~= rep@);
    push_range(out, src, lo, hi);
}

/// The occurrences of `p` in `t`, from the back and without overlap: each is the last
/// one that ends by the one found before.
fn occurrences_from_back(t: &[u8], p: &[u8]) -> (qs: Vec<usize>)
    requires
        p@.len() > 0,
    ensures
        forall|j: int| 0 <= j < qs@.len() ==> #[trigger] qs@[j] < upper(qs@, t@.len() as int, j),
        forall|j: int| 0 <= j < qs@.len() ==>
            last_occurrence(t@, p@, upper(qs@, t@.len() as int, j)) == Some(#[trigger] qs@[j] as int),
        last_occurrence(t@, p@, upper(qs@, t@.len() as int, qs@.len() as int)) is None,
{
    let n = t.len();
    let mut qs: Vec<usize> = Vec::new();
    let mut end = n;
    loop
        invariant
            p@.len() > 0,
            t@.len() == n,
            end <= n,
            forall|j: int| 0 <= j < qs@.len() ==> #[trigger] qs@[j] < upper(qs@, n as int, j),
            forall|j: int| 0 <= j < qs@.len() ==>
                last_occurrence(t@, p@, upper(qs@, n as int, j)) == Some(#[trigger] qs@[j] as int),
            end == upper(qs@, n as int, qs@.len() as int),
        ensures
            forall|j: int| 0 <= j < qs@.len() ==> #[trigger] qs@[j] < upper(qs@, n as int, j),
            forall|j: int| 0 <= j < qs@.len() ==>
                last_occurrence(t@, p@, upper(qs@, n as int, j)) == Some(#[trigger] qs@[j] as int),
            last_occurrence(t@, p@, upper(qs@, n as int, qs@.len() as int)) is None,
        decreases end,
    {
        match last_occurrence_exec(t, p, end) {
            Some(q) => {
                proof {
                    lemma_last_occurrence(t@, p@, end as int);
                }
                let ghost old_qs = qs@;
                qs.push(q);
                proof {
                    assert forall|j: int| 0 <= j < qs@.len() implies upper(qs@, n as int, j) == upper(old_qs, n as int, j) || j == qs@.len() - 1 by {}
                    assert(upper(qs@, n as int, qs@.len() - 1) == end);
                    assert forall|j: int| 0 <= j < qs@.len() implies #[trigger] qs@[j] < upper(qs@, n as int, j) by {
                        if j < qs@.len() - 1 {
                            assert(qs@[j] == old_qs[j]);
                        }
                    }
                    assert forall|j: int| 0 <= j < qs@.len() implies
                        last_occurrence(t@, p@, upper(qs@, n as int, j)) == Some(#[trigger] qs@[j] as int) by {
                        if j < qs@.len() - 1 {
                            assert(qs@[j] == old_qs[j]);
                        }
                    }
                }
                end = q;
            },
            None => {
                break;
            },
        }
    }
    qs
}

proof fn lemma_upper_bounded(qs: Seq<usize>, n: int, j: int)
    requires
        0 <= j <= qs.len(),
        forall|i: int| 0 <= i < qs.len() ==> #[trigger] qs[i] < upper(qs, n, i),
    ensures
        upper(qs, n, j) <= n,
    decreases j,
{
    if j > 0 {
        lemma_upper_bounded(qs, n, j - 1);
    }
}

/// The replaced bytes (see `replaced_below`) of `orig` up to its end.
fn replace_bytes(orig: &[u8], folded: &[u8], p: &[u8], rep: &[u8]) -> (r: Vec<u8>)
    requires
        p@.len() > 0,
        folded@.len() == orig@.len(),
    ensures
        r@ == replaced_below(orig@, folded@, p@, rep@, orig@.len() as int),
{
    let n = orig.len();
    let qs = occurrences_from_back(folded, p);
    let m = qs.len();
    let start = if m == 0 { n } else { qs[m - 1] };
    proof {
        lemma_upper_bounded(qs@, n as int, m as int);
        assert(start as int == upper(qs@, n as int, m as int));
    }
    let mut out: Vec<u8> = Vec::new();
    push_range(&mut out, orig, 0, start);
    proof {
        assert(orig@.subrange(0, start as int) =~= orig@.take(start as int));
    }
    let mut j = m;
    while j > 0
        invariant
            p@.len() > 0,
            folded@.len() == orig@.len() == n,
            qs@.len() == m,
            j <= m,
            forall|i: int| 0 <= i < qs@.len() ==> #[trigger] qs@[i] < upper(qs@, n as int, i),
            forall|i: int| 0 <= i < qs@.len() ==>
                last_occurrence(folded@, p@, upper(qs@, n as int, i)) == Some(#[trigger] qs@[i] as int),
            out@ == replaced_below(orig@, folded@, p@, rep@, upper(qs@, n as int, j as int)),
        decreases j,
    {
        let q = qs[j - 1];
        let hi = if j == 1 { n } else { qs[j - 2] };
        proof {
            assert(hi as int == upper(qs@, n as int, j - 1));
            lemma_upper_bounded(qs@, n as int, j - 1);
            lemma_last_occurrence(folded@, p@, hi as int);
            assert(q + p@.len() <= hi);
            assert(upper(qs@, n as int, j as int) == q as int);
            assert(qs@[j - 1] < upper(qs@, n as int, j - 1));
        }
        push_piece(&mut out, rep, orig, q + p.len(), hi);
        j = j - 1;
    }
    out
}

/// `rep` before, between and after the characters of `target`.
fn interleave(target: &str, rep: &str) -> (r: String)
    ensures
        r@ == interleaved(target@, rep@),
{
    let cs = chars_of(target);
    let mut out = rep.to_owned();
    let mut k: usize = 0;
    while k < cs.len()
        invariant
            k <= cs@.len(),
            cs@ == target@,
            out@ == interleaved(cs@.take(k as int), rep@),
        decreases cs.len() - k,
    {
        push_char(&mut out, cs[k]);
        out.append(rep);
        k = k + 1;
        proof {
            let t = cs@.take(k as int);
            assert(t.drop_last() =~= cs@.take(k - 1));
        }
    }
    assert(cs@.take(k as int) =~= target@);
    out
}

/// Replaces in `target` every occurrence of `pattern` by `rep`, ASCII letters compared
/// without case (see `replace_plain_spec`).
pub fn replace_plain(target: &str, pattern: &str, rep: &str) -> (r: String)
    ensures
        r@ == replace_plain_spec(target@, pattern@, rep@),
{
    if pattern.is_empty() {
        return interleave(target, rep);
    }
    let t = target.as_bytes();
    let folded = fold_bytes(t);
    let p = fold_bytes(pattern.as_bytes());
    proof {
        encode_utf8_decode_utf8(pattern@);
        assert(p@.len() > 0) by {
            if encode_utf8(pattern@).len() == 0 {
                assert(decode_utf8(encode_utf8(pattern@)) =~= Seq::<char>::empty()) by {
                    encode_utf8_valid_utf8(pattern@);
                }
            }
        }
    }
    let out = replace_bytes(t, folded.as_slice(), p.as_slice(), rep.as_bytes());
    from_byte(out.as_slice())
}

/// The `replace` builtin: argument 0 is the text, argument 1 what to replace (a string,
/// compared without case unless argument 3 asks for a regular expression; a pattern
/// made by `newre`; or any other value by its text), argument 2 the replacement.
pub open spec fn replace_call(objs: Seq<ObjectModel>) -> Result<Seq<char>, ErrorModel> {
    match with_default(objs, 0, None, |o: ObjectModel| string_reading(o, 0)) {
        Err(e) => Err(e),
        Ok(target) => match with_default(objs, 1, None, |o: ObjectModel| Ok::<ObjectModel, ErrorModel>(o)) {
            Err(e) => Err(e),
            Ok(what) => {
                let kind: Result<(Seq<char>, bool), ErrorModel> = match what.value {
                    ValueModel::String(s) => match with_default(objs, 3, Some(false), |o: ObjectModel| Ok::<bool, ErrorModel>(o.truthy)) {
                        Ok(b) => Ok((s, b)),
                        Err(e) => Err(e),
                    },
                    ValueModel::RegEx(re) => Ok((re, true)),
                    _ => Ok((what.text, false)),
                };
                match kind {
                    Err(e) => Err(e),
                    Ok((pattern, is_regex)) => match with_default(objs, 2, None, |o: ObjectModel| string_reading(o, 2)) {
                        Err(e) => Err(e),
                        Ok(rep) => if is_regex {
                            if pattern_valid(pattern) {
                                Ok(pattern_replaced(pattern, target, rep))
                            } else {
                                Err(bad_pattern(pattern))
                            }
                        } else {
                            Ok(replace_plain_spec(target, pattern, rep))
                        },
                    },
                }
            },
        },
    }
}

/// The `replace` builtin (see `replace_call`).
pub fn replace(args: &BuiltinFuncArgs) -> (r: BuiltInResult<String>)
    ensures
        outcome(r, |s: String| s@) == replace_call(args.objects()),
{
    let target = match args.get_as_string(0, None) {
        Ok(s) => s,
        Err(e) => return Err(e),
    };
    let what = match args.get_as_object(1, None) {
        Ok(o) => o,
        Err(e) => return Err(e),
    };
    let (pattern, is_regex) = match what.value {
        Value::String(s) => match args.get_as_bool(3, Some(false)) {
            Ok(b) => (s, b),
            Err(e) => return Err(e),
        },
        Value::RegEx(re) => (re, true),
        _ => (what.text, false),
    };
    let rep = match args.get_as_string(2, None) {
        Ok(s) => s,
        Err(e) => return Err(e),
    };
    if is_regex {
        replace_regex(target.as_str(), pattern.as_str(), rep.as_str())
    } else {
        Ok(replace_plain(target.as_str(), pattern.as_str(), rep.as_str()))
    }
}

} // verus!

verus! {

proof fn lemma_no_last_occurrence(t: Seq<u8>, p: Seq<u8>, end: int)
    requires
        forall|i: int| !occurs_at(t, p, i),
    ensures
        last_occurrence(t, p, end) is None,
    decreases end,
{
    if end >= p.len() && end > 0 {
        lemma_no_last_occurrence(t, p, end - 1);
    }
}

/// A text in which the pattern does not occur (ASCII letters compared without case) is
/// returned unchanged.
pub proof fn law_replace_without_match(target: Seq<char>, pattern: Seq<char>, rep: Seq<char>)
    requires
        pattern.len() > 0,
        forall|i: int| !occurs_at(lower_bytes(encode_utf8(target)), lower_bytes(encode_utf8(pattern)), i),
    ensures
        replace_plain_spec(target, pattern, rep) == target,
{
    let t = encode_utf8(target);
    let f = lower_bytes(t);
    let p = lower_bytes(encode_utf8(pattern));
    encode_utf8_decode_utf8(pattern);
    encode_utf8_valid_utf8(pattern);
    assert(p.len() > 0) by {
        if encode_utf8(pattern).len() == 0 {
            assert(decode_utf8(encode_utf8(pattern)) =~= Seq::<char>::empty());
        }
    }
    lemma_no_last_occurrence(f, p, t.len() as int);
    assert(t.take(t.len() as int) =~= t);
    encode_utf8_valid_utf8(target);
    encode_utf8_decode_utf8(target);
}


/// A text that is the pattern itself (up to ASCII case) is replaced whole; with an
/// empty pattern and an empty replacement the text is unchanged.
pub proof fn law_replace_whole_match(target: Seq<char>, pattern: Seq<char>, rep: Seq<char>)
    ensures
        pattern.len() > 0 && lower_bytes(encode_utf8(target)) == lower_bytes(encode_utf8(pattern))
            ==> replace_plain_spec(target, pattern, rep) == rep,
        replace_plain_spec(target, Seq::empty(), Seq::empty()) == target,
{
    let t = encode_utf8(target);
    let f = lower_bytes(t);
    let p = lower_bytes(encode_utf8(pattern));
    if pattern.len() > 0 && f == p {
        encode_utf8_decode_utf8(pattern);
        assert(encode_utf8(pattern).len() > 0) by {
            if encode_utf8(pattern).len() == 0 {
                assert(decode_utf8(encode_utf8(pattern)) =~= Seq::<char>::empty());
            }
        }
        assert(f.len() == t.len());
        assert(occurs_at(f, p, 0)) by {
            assert(f.subrange(0, p.len() as int) =~= p);
        }
        assert(last_occurrence(f, p, t.len() as int) == Some(0int));
        assert(t.take(0) =~= Seq::<u8>::empty());
        assert(t.subrange(p.len() as int, t.len() as int) =~= Seq::<u8>::empty());
        let r = encode_utf8(rep);
        let n = t.len() as int;
        assert(p.len() == n);
        assert(replaced_below(t, f, p, r, 0) == t.take(0));
        assert(replaced_below(t, f, p, r, n) == replaced_below(t, f, p, r, 0) + r + t.subrange(p.len() as int, n));
        assert(replaced_below(t, f, p, r, n) =~= r);
        assert(replaced_bytes(target, pattern, rep) == r);
        encode_utf8_valid_utf8(rep);
        encode_utf8_decode_utf8(rep);
    }
    lemma_interleaved_empty(target);
}

proof fn lemma_interleaved_empty(cs: Seq<char>)
    ensures
        interleaved(cs, Seq::empty()) == cs,
    decreases cs.len(),
{
    if cs.len() > 0 {
        lemma_interleaved_empty(cs.drop_last());
        assert(cs.drop_last() + seq![cs.last()] + Seq::<char>::empty() =~= cs);
    }
}


proof fn lemma_last_occurrence_prefix(t: Seq<u8>, p: Seq<u8>, end: int, m: int)
    requires
        0 <= end <= m <= t.len(),
    ensures
        last_occurrence(t, p, end) == last_occurrence(t.take(m), p, end),
    decreases end,
{
    if !(end < p.len() || end <= 0) {
        let q = end - p.len();
        if 0 <= q {
            assert(t.subrange(q, q + p.len()) =~= t.take(m).subrange(q, q + p.len()));
        }
        assert(occurs_at(t, p, q) == occurs_at(t.take(m), p, q));
        if !occurs_at(t, p, q) {
            lemma_last_occurrence_prefix(t, p, end - 1, m);
        }
    }
}

proof fn lemma_replaced_below_prefix(orig: Seq<u8>, folded: Seq<u8>, p: Seq<u8>, rep: Seq<u8>, end: int, m: int)
    requires
        0 <= end <= m <= orig.len(),
        m <= folded.len(),
    ensures
        replaced_below(orig, folded, p, rep, end) == replaced_below(orig.take(m), folded.take(m), p, rep, end),
    decreases end,
{
    if !(p.len() == 0 || end <= 0) {
        lemma_last_occurrence_prefix(folded, p, end, m);
        lemma_last_occurrence(folded, p, end);
        match last_occurrence(folded, p, end) {
            Some(q) => if 0 <= q < end {
                lemma_replaced_below_prefix(orig, folded, p, rep, q, m);
                if q + p.len() <= end {
                    assert(orig.subrange(q + p.len(), end) =~= orig.take(m).subrange(q + p.len(), end));
                }
            } else {
                assert(orig.take(end) =~= orig.take(m).take(end));
            },
            None => {
                assert(orig.take(end) =~= orig.take(m).take(end));
            },
        }
    } else {
        assert(orig.take(end) =~= orig.take(m).take(end));
    }
}

/// Replacement works from the back: when the text ends with the pattern (up to ASCII
/// case), that last occurrence becomes the replacement and what comes before it is
/// replaced on its own, so `aaa` with `aa` replaced by `b` gives `ab`.
pub proof fn law_replace_from_the_back(orig: Seq<u8>, p: Seq<u8>, rep: Seq<u8>)
    requires
        p.len() > 0,
        occurs_at(lower_bytes(orig), p, orig.len() - p.len()),
    ensures
        replaced_below(orig, lower_bytes(orig), p, rep, orig.len() as int) == replaced_below(
            orig.take(orig.len() - p.len()),
            lower_bytes(orig.take(orig.len() - p.len())),
            p,
            rep,
            orig.len() - p.len(),
        ) + rep,
{
    let n = orig.len() as int;
    let q = n - p.len();
    let f = lower_bytes(orig);
    assert(f.len() == n);
    assert(last_occurrence(f, p, n) == Some(q));
    assert(orig.subrange(q + p.len(), n) =~= Seq::<u8>::empty());
    lemma_replaced_below_prefix(orig, f, p, rep, q, q);
    assert(f.take(q) =~= lower_bytes(orig.take(q)));
    assert(replaced_below(orig, f, p, rep, n) == replaced_below(orig, f, p, rep, q) + rep + orig.subrange(q + p.len(), n));
    assert(replaced_below(orig, f, p, rep, q) + rep + Seq::<u8>::empty() =~= replaced_below(orig, f, p, rep, q) + rep);
}
} // verus!
