//! Case-insensitive substring search over the UTF-8 bytes of a string.

use vstd::prelude::*;
use vstd::utf8::*;
use vstd::string::StringSliceAdditionalSpecFns;
use vstd::string::StrSliceExecFns;
use crate::bytes::{lower_byte, lower_bytes, fold_bytes, lemma_end_of_folded_match, lemma_fold_keeps_class};

verus! {

/// `p` occurs in `t` at byte offset `i`.
pub open spec fn occurs_at(t: Seq<u8>, p: Seq<u8>, i: int) -> bool {
    0 <= i && i + p.len() <= t.len() && t.subrange(i, i + p.len()) == p
}

/// The offsets below `n` at which `p` occurs in `t`, in increasing order.
pub open spec fn occurrences_below(t: Seq<u8>, p: Seq<u8>, n: int) -> Seq<int>
    decreases n,
{
    if n <= 0 {
        Seq::empty()
    } else if occurs_at(t, p, n - 1) {
        occurrences_below(t, p, n - 1).push(n - 1)
    } else {
        occurrences_below(t, p, n - 1)
    }
}

/// Every offset at which `p` occurs in `t`, in increasing order.
pub open spec fn occurrences(t: Seq<u8>, p: Seq<u8>) -> Seq<int> {
    occurrences_below(t, p, t.len() as int)
}

/// What `occurrences_below` holds: exactly the matching offsets below `n`, strictly increasing.
pub proof fn lemma_occurrences_below(t: Seq<u8>, p: Seq<u8>, n: int)
    requires
        0 <= n,
    ensures
        forall|k: int|
            0 <= k < occurrences_below(t, p, n).len() ==> 0 <= #[trigger] occurrences_below(
                t,
                p,
                n,
            )[k] < n && occurs_at(t, p, occurrences_below(t, p, n)[k]),
        forall|i: int| 0 <= i < n && occurs_at(t, p, i) ==> occurrences_below(t, p, n).contains(i),
        forall|j: int, k: int|
            0 <= j < k < occurrences_below(t, p, n).len() ==> occurrences_below(t, p, n)[j]
                < occurrences_below(t, p, n)[k],
    decreases n,
{
    if n > 0 {
        lemma_occurrences_below(t, p, n - 1);
        let prev = occurrences_below(t, p, n - 1);
        if occurs_at(t, p, n - 1) {
            assert forall|i: int| 0 <= i < n && occurs_at(t, p, i) implies occurrences_below(
                t,
                p,
                n,
            ).contains(i) by {
                if i == n - 1 {
                    assert(prev.push(n - 1)[prev.len() as int] == i);
                } else {
                    let k = choose|k: int| 0 <= k < prev.len() && prev[k] == i;
                    assert(prev.push(n - 1)[k] == i);
                }
            }
        }
    }
}

/// What `occurrences` holds: exactly the offsets at which `p` occurs in `t`, strictly increasing.
pub proof fn lemma_occurrences(t: Seq<u8>, p: Seq<u8>)
    ensures
        forall|k: int|
            0 <= k < occurrences(t, p).len() ==> occurs_at(t, p, #[trigger] occurrences(t, p)[k]),
        forall|i: int| 0 <= i < t.len() && occurs_at(t, p, i) ==> occurrences(t, p).contains(i),
        forall|j: int, k: int|
            0 <= j < k < occurrences(t, p).len() ==> occurrences(t, p)[j] < occurrences(t, p)[k],
{
    lemma_occurrences_below(t, p, t.len() as int);
}

/// The sequence of `usize` offsets seen as integers.
pub open spec fn as_ints(v: Seq<usize>) -> Seq<int> {
    v.map_values(|x: usize| x as int)
}

pub(crate) fn occurs_here(t: &[u8], p: &[u8], i: usize) -> (r: bool)
    requires
        i < t.len(),
        p.len() > 0,
    ensures
        r == occurs_at(t@, p@, i as int),
{
    if t[i] != p[0] {
        assert(!occurs_at(t@, p@, i as int)) by {
            if occurs_at(t@, p@, i as int) {
                assert(t@.subrange(i as int, i + p.len())[0] == t@[i as int]);
            }
        }
        return false;
    }
    if t.len() - i < p.len() {
        return false;
    }
    let mut k: usize = 0;
    while k < p.len()
        invariant
            i + p.len() <= t.len(),
            k <= p.len(),
            forall|j: int| 0 <= j < k ==> t@[i + j] == p@[j],
        decreases p.len() - k,
    {
        if t[i + k] != p[k] {
            assert(!occurs_at(t@, p@, i as int)) by {
                if occurs_at(t@, p@, i as int) {
                    assert(t@.subrange(i as int, i + p.len())[k as int] == t@[i + k]);
                }
            }
            return false;
        }
        k = k + 1;
    }
    assert(t@.subrange(i as int, i + p.len()) =~= p@);
    true
}

/// The byte offsets at which `p` occurs in `t`, in increasing order.
pub fn find_all_bytes(t: &[u8], p: &[u8]) -> (r: Vec<usize>)
    requires
        p.len() > 0,
    ensures
        as_ints(r@) == occurrences(t@, p@),
{
    let mut r: Vec<usize> = Vec::new();
    let mut i: usize = 0;
    while i < t.len()
        invariant
            i <= t.len(),
            p.len() > 0,
            as_ints(r@) == occurrences_below(t@, p@, i as int),
        decreases t.len() - i,
    {
        if occurs_here(t, p, i) {
            r.push(i);
            assert(as_ints(r@) =~= occurrences_below(t@, p@, i as int).push(i as int));
        }
        i = i + 1;
    }
    r
}

/// The byte offsets at which `pattern` occurs in `target`, in increasing order
/// (the pattern must not be empty).
pub fn find_all(target: &str, pattern: &str) -> (r: Vec<usize>)
    requires
        pattern@.len() > 0,
    ensures
        as_ints(r@) == occurrences(target.spec_bytes(), pattern.spec_bytes()),
{
    proof {
        vstd::utf8::encode_utf8_valid_utf8(pattern@);
        assert(pattern.spec_bytes().len() > 0) by {
            if pattern.spec_bytes().len() == 0 {
                vstd::utf8::encode_utf8_decode_utf8(pattern@);
            }
        }
    }
    find_all_bytes(target.as_bytes(), pattern.as_bytes())
}


/// The offsets at which `p` occurs in `t` when ASCII letters are compared without case.
pub open spec fn folded_occurrences(t: Seq<u8>, p: Seq<u8>) -> Seq<int> {
    occurrences(lower_bytes(t), lower_bytes(p))
}

/// The `nth` entry of a list of offsets as the builtins count it: `nth > 0` counts
/// from the front starting at 1, `nth < 0` counts from the back starting at -1,
/// and `0` means the first entry.
pub open spec fn pick_nth(occ: Seq<int>, nth: int) -> Option<int> {
    if nth > 0 {
        if nth - 1 < occ.len() {
            Some(occ[nth - 1])
        } else {
            None
        }
    } else if nth < 0 {
        if -nth - 1 < occ.len() {
            Some(occ[occ.len() - 1 - (-nth - 1)])
        } else {
            None
        }
    } else {
        if occ.len() > 0 {
            Some(occ[0])
        } else {
            None
        }
    }
}

/// The byte offset of the `nth` case-insensitive occurrence of `p` in `t`.
pub open spec fn find_pos_spec(t: Seq<u8>, p: Seq<u8>, nth: int) -> Option<int> {
    pick_nth(folded_occurrences(t, p), nth)
}

/// A case-insensitive occurrence of a valid UTF-8 pattern in a valid UTF-8 text
/// starts and ends on character boundaries of the text.
pub proof fn lemma_folded_match_boundaries(t: Seq<u8>, p: Seq<u8>, i: int)
    requires
        valid_utf8(t),
        valid_utf8(p),
        p.len() > 0,
        occurs_at(lower_bytes(t), lower_bytes(p), i),
    ensures
        is_char_boundary(t, i),
        is_char_boundary(t, i + p.len()),
        0 <= i < i + p.len() <= t.len(),
{
    assert forall|k: int| 0 <= k < p.len() implies lower_byte(#[trigger] t[i + k]) == lower_byte(
        p[k],
    ) by {
        assert(lower_bytes(t).subrange(i, i + p.len())[k] == lower_bytes(t)[i + k]);
    }
    assert(valid_first_scalar(p));
    assert(lower_byte(t[i + 0]) == lower_byte(p[0]));
    lemma_fold_keeps_class(t[i], p[0]);
    is_char_boundary_iff_not_is_continuation_byte(t, i);
    valid_utf8_split(t, i);
    let s = t.subrange(i, t.len() as int);
    is_char_boundary_start_end_of_seq(t);
    if i + p.len() < t.len() {
        assert forall|k: int| 0 <= k < p.len() implies lower_byte(#[trigger] s[k]) == lower_byte(
            p[k],
        ) by {
            assert(s[k] == t[i + k]);
        }
        lemma_end_of_folded_match(s, p);
        assert(s[p.len() as int] == t[i + p.len()]);
        is_char_boundary_iff_not_is_continuation_byte(t, i + p.len());
    }
}

/// The offsets in `found` picked by `nth`, as `find_pos` picks them.
fn pick(found: &Vec<usize>, nth: i32) -> (r: Option<usize>)
    requires
        nth > i32::MIN,
    ensures
        match pick_nth(as_ints(found@), nth as int) {
            Some(i) => r == Some(i as usize) && i == r.unwrap() as int,
            None => r is None,
        },
{
    let len = found.len();
    if nth > 0 {
        let index = (nth - 1) as usize;
        if index < len {
            Some(found[index])
        } else {
            None
        }
    } else if nth < 0 {
        let index = (-nth - 1) as usize;
        if index < len {
            Some(found[len - 1 - index])
        } else {
            None
        }
    } else {
        if len > 0 {
            Some(found[0])
        } else {
            None
        }
    }
}

/// The byte offset in `target` of the `nth` occurrence of `pattern`, comparing ASCII
/// letters without case: `nth > 0` counts from the front, `nth < 0` from the back,
/// `0` is taken as the first. `None` when there is no such occurrence.
pub fn find_pos(target: &str, pattern: &str, nth: i32) -> (r: Option<usize>)
    requires
        pattern@.len() > 0,
        nth > i32::MIN,
    ensures
        match find_pos_spec(target.spec_bytes(), pattern.spec_bytes(), nth as int) {
            Some(i) => r == Some(i as usize) && i == r.unwrap() as int,
            None => r is None,
        },
        r matches Some(i) ==> {
            &&& is_char_boundary(target.spec_bytes(), i as int)
            &&& is_char_boundary(target.spec_bytes(), i + pattern.spec_bytes().len())
            &&& i + pattern.spec_bytes().len() <= target.spec_bytes().len()
        },
{
    proof {
        encode_utf8_valid_utf8(pattern@);
        encode_utf8_valid_utf8(target@);
        if pattern.spec_bytes().len() == 0 {
            encode_utf8_decode_utf8(pattern@);
        }
    }
    let t = fold_bytes(target.as_bytes());
    let p = fold_bytes(pattern.as_bytes());
    let found = find_all_bytes(t.as_slice(), p.as_slice());
    let r = pick(&found, nth);
    proof {
        if r is Some {
            let i = r.unwrap() as int;
            let occ = folded_occurrences(target.spec_bytes(), pattern.spec_bytes());
            lemma_occurrences(lower_bytes(target.spec_bytes()), lower_bytes(pattern.spec_bytes()));
            assert(occ.contains(i));
            lemma_folded_match_boundaries(target.spec_bytes(), pattern.spec_bytes(), i);
        }
    }
    r
}


/// `q` is the first character boundary of `b` after byte offset `p`.
pub open spec fn is_next_boundary(b: Seq<u8>, p: int, q: int) -> bool {
    &&& p < q
    &&& is_char_boundary(b, q)
    &&& forall|k: int| p < k < q ==> !is_char_boundary(b, k)
}

/// The first character boundary of `b` after byte offset `p`.
pub open spec fn next_boundary(b: Seq<u8>, p: int) -> int {
    choose|q: int| is_next_boundary(b, p, q)
}

/// The first character boundary of `s` after byte offset `p`.
pub fn next_pos(s: &str, p: usize) -> (r: usize)
    requires
        p < s.spec_bytes().len(),
    ensures
        r as int == next_boundary(s.spec_bytes(), p as int),
        is_next_boundary(s.spec_bytes(), p as int, r as int),
        r <= s.spec_bytes().len(),
{
    proof {
        encode_utf8_valid_utf8(s@);
        is_char_boundary_start_end_of_seq(s.spec_bytes());
    }
    let n = s.as_bytes().len();
    let mut q = p + 1;
    while !s.is_char_boundary(q)
        invariant
            n == s.spec_bytes().len(),
            valid_utf8(s.spec_bytes()),
            p < q <= s.spec_bytes().len(),
            is_char_boundary(s.spec_bytes(), s.spec_bytes().len() as int),
            forall|k: int| p < k < q ==> !is_char_boundary(s.spec_bytes(), k),
        decreases s.spec_bytes().len() - q,
    {
        q = q + 1;
    }
    proof {
        let b = s.spec_bytes();
        assert(is_next_boundary(b, p as int, q as int));
        let c = next_boundary(b, p as int);
        assert(is_next_boundary(b, p as int, c));
        if c < q {
            assert(!is_char_boundary(b, c));
        }
        if q < c {
            assert(!is_char_boundary(b, q as int));
        }
    }
    q
}

/// The character position that `find_nth_pos` reports: how many characters of `t`
/// end at or before the end of the character where the `nth` occurrence of `p` starts;
/// `0` when there is no such occurrence.
pub open spec fn nth_char_pos_spec(t: Seq<u8>, p: Seq<u8>, nth: int) -> int {
    match find_pos_spec(t, p, nth) {
        Some(i) => decode_utf8(t.subrange(0, next_boundary(t, i))).len() as int,
        None => 0,
    }
}

/// The 1-based character position in `target` of the `nth` case-insensitive
/// occurrence of `pattern`, or `0` when there is none.
pub fn find_nth_pos(target: &str, pattern: &str, nth: i32) -> (r: usize)
    requires
        pattern@.len() > 0,
        nth > i32::MIN,
    ensures
        r as int == nth_char_pos_spec(target.spec_bytes(), pattern.spec_bytes(), nth as int),
{
    match find_pos(target, pattern, nth) {
        Some(pos) => {
            proof {
                encode_utf8_valid_utf8(target@);
                if pattern.spec_bytes().len() == 0 {
                    encode_utf8_decode_utf8(pattern@);
                }
            }
            let next = next_pos(target, pos);
            let (head, _) = target.split_at(next);
            proof {
                encode_utf8_decode_utf8(head@);
            }
            head.unicode_len()
        },
        None => 0,
    }
}

/// `pos(substr, str, nth)`: the 1-based character position of the `nth` occurrence of
/// `substr` in `s`, ASCII letters compared without case; `0` when there is none.
pub fn pos(substr: &str, s: &str, nth: i32) -> (r: usize)
    requires
        substr@.len() > 0,
        nth > i32::MIN,
    ensures
        r as int == nth_char_pos_spec(s.spec_bytes(), substr.spec_bytes(), nth as int),
{
    find_nth_pos(s, substr, nth)
}


/// The search ignores ASCII case: upper-casing the letters of the text finds the
/// pattern at the same offsets, so the `nth` occurrence is the same; and a pattern
/// occurs where the text holds it with any of its letters in the other case.
pub proof fn law_find_pos_ignores_case(t: Seq<u8>, p: Seq<u8>, nth: int)
    ensures
        find_pos_spec(t.map_values(|b: u8| crate::bytes::upper_byte(b)), p, nth) == find_pos_spec(t, p, nth),
        find_pos_spec(t, p.map_values(|b: u8| crate::bytes::upper_byte(b)), nth) == find_pos_spec(t, p, nth),
{
    crate::bytes::law_fold_ignores_case(t);
    crate::bytes::law_fold_ignores_case(p);
}

/// The `nth` occurrence as the builtins count it: 1 and 0 both give the first, `-1`
/// the last, `-k` the `k`-th from the back (the `k`-th of the reversed list), and a
/// count past the number of occurrences gives none.
pub proof fn law_pick_nth_counts(occ: Seq<int>, k: int)
    ensures
        occ.len() > 0 ==> pick_nth(occ, 0) == Some(occ[0])
            && pick_nth(occ, 1) == Some(occ[0])
            && pick_nth(occ, -1) == Some(occ.last()),
        1 <= k ==> pick_nth(occ, -k) == pick_nth(occ.reverse(), k),
        1 <= k <= occ.len() ==> pick_nth(occ, k) == Some(occ[k - 1]),
        k > occ.len() ==> pick_nth(occ, k) is None && pick_nth(occ, -k) is None,
{
}


/// ASCII bytes are valid UTF-8, one character each: every offset is a character
/// boundary and the text has as many characters as bytes.
pub proof fn lemma_ascii_utf8(b: Seq<u8>)
    requires
        forall|k: int| 0 <= k < b.len() ==> #[trigger] b[k] < 0x80,
    ensures
        valid_utf8(b),
        decode_utf8(b).len() == b.len(),
        forall|k: int| 0 <= k <= b.len() ==> #[trigger] is_char_boundary(b, k),
    decreases b.len(),
{
    if b.len() > 0 {
        let x = b[0];
        assert(x < 0x80);
        assert((x & 0x7F) as u32 == x as u32) by (bit_vector)
            requires x < 0x80;
        let rest = b.subrange(1, b.len() as int);
        assert(valid_first_scalar(b));
        assert(pop_first_scalar(b) == rest);
        assert forall|k: int| 0 <= k < rest.len() implies #[trigger] rest[k] < 0x80 by {
            assert(rest[k] == b[k + 1]);
        }
        lemma_ascii_utf8(rest);
        assert forall|k: int| 0 <= k <= b.len() implies #[trigger] is_char_boundary(b, k) by {
            if k > 0 {
                assert(is_char_boundary(rest, k - 1));
            }
        }
    } else {
        assert forall|k: int| 0 <= k <= b.len() implies #[trigger] is_char_boundary(b, k) by {}
    }
}

/// In an ASCII text `pos` counts bytes: the `nth` occurrence found at byte offset `i`
/// (from 0) is reported as position `i + 1`, and a missing one as 0.
pub proof fn law_pos_of_ascii_text(t: Seq<u8>, p: Seq<u8>, nth: int)
    requires
        forall|k: int| 0 <= k < t.len() ==> #[trigger] t[k] < 0x80,
        p.len() > 0,
    ensures
        find_pos_spec(t, p, nth) matches Some(i) ==> nth_char_pos_spec(t, p, nth) == i + 1,
        find_pos_spec(t, p, nth) is None ==> nth_char_pos_spec(t, p, nth) == 0,
{
    if let Some(i) = find_pos_spec(t, p, nth) {
        let occ = folded_occurrences(t, p);
        lemma_occurrences(lower_bytes(t), lower_bytes(p));
        assert(occ.contains(i));
        let k = choose|k: int| 0 <= k < occ.len() && occ[k] == i;
        assert(occurs_at(lower_bytes(t), lower_bytes(p), occ[k]));
        assert(0 <= i && i + 1 <= t.len());
        lemma_ascii_utf8(t);
        assert(is_next_boundary(t, i, i + 1));
        let q = next_boundary(t, i);
        assert(is_next_boundary(t, i, q));
        if q > i + 1 {
            assert(!is_char_boundary(t, i + 1));
        }
        assert(q == i + 1);
        let head = t.subrange(0, i + 1);
        assert forall|k: int| 0 <= k < head.len() implies #[trigger] head[k] < 0x80 by {
            assert(head[k] == t[k]);
        }
        lemma_ascii_utf8(head);
    }
}
} // verus!
