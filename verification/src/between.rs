//! Cutting a string before, after or between occurrences of marker strings,
//! as the `betweenstr` builtin does.

use vstd::prelude::*;
use vstd::utf8::*;
use vstd::string::StringSliceAdditionalSpecFns;
use crate::bytes::{lower_bytes, fold_bytes};
use crate::search::{
    as_ints, find_all_bytes, find_pos, find_pos_spec, folded_occurrences, lemma_folded_match_boundaries,
    lemma_occurrences, occurs_at,
};

verus! {

/// The comparisons with which the search for a matching marker is made.
#[derive(PartialEq, Eq, Clone, Copy, Structural)]
pub enum Bound {
    /// strictly below the limit
    Below,
    /// at most the limit
    AtMost,
    /// strictly above the limit
    Above,
    /// at least the limit
    AtLeast,
}

/// `n` is on the wanted side of `x`.
pub open spec fn bound_holds(c: Bound, n: int, x: int) -> bool {
    match c {
        Bound::Below => n < x,
        Bound::AtMost => n <= x,
        Bound::Above => n > x,
        Bound::AtLeast => n >= x,
    }
}

/// The first entry of `s` on the wanted side of `x`.
pub open spec fn first_where(s: Seq<int>, c: Bound, x: int) -> Option<int>
    decreases s.len(),
{
    if s.len() == 0 {
        None
    } else if bound_holds(c, s[0], x) {
        Some(s[0])
    } else {
        first_where(s.drop_first(), c, x)
    }
}

proof fn lemma_first_where_skip(s: Seq<int>, c: Bound, x: int, i: int)
    requires
        0 <= i <= s.len(),
        forall|j: int| 0 <= j < i ==> !bound_holds(c, #[trigger] s[j], x),
    ensures
        first_where(s, c, x) == first_where(s.subrange(i, s.len() as int), c, x),
    decreases i,
{
    if i == 0 {
        assert(s.subrange(0, s.len() as int) =~= s);
    } else {
        lemma_first_where_skip(s.drop_first(), c, x, i - 1);
        assert(s.drop_first().subrange(i - 1, s.drop_first().len() as int) =~= s.subrange(
            i,
            s.len() as int,
        ));
        assert(!bound_holds(c, s[0], x));
    }
}

proof fn lemma_first_where_member(s: Seq<int>, c: Bound, x: int)
    ensures
        first_where(s, c, x) matches Some(v) ==> s.contains(v) && bound_holds(c, v, x),
    decreases s.len(),
{
    if s.len() > 0 && !bound_holds(c, s[0], x) {
        lemma_first_where_member(s.drop_first(), c, x);
        if first_where(s.drop_first(), c, x) is Some {
            let v = first_where(s.drop_first(), c, x).unwrap();
            let k = choose|k: int| 0 <= k < s.drop_first().len() && s.drop_first()[k] == v;
            assert(s[k + 1] == v);
        }
    } else if s.len() > 0 {
        assert(s[0] == s[0]);
    }
}

/// The first entry of `v` on the wanted side of `x`.
fn find_first(v: &Vec<usize>, c: Bound, x: usize) -> (r: Option<usize>)
    ensures
        match first_where(as_ints(v@), c, x as int) {
            Some(n) => r == Some(n as usize) && n == r.unwrap() as int,
            None => r is None,
        },
{
    let mut i: usize = 0;
    while i < v.len()
        invariant
            i <= v.len(),
            forall|j: int| 0 <= j < i ==> !bound_holds(c, #[trigger] as_ints(v@)[j], x as int),
        decreases v.len() - i,
    {
        let n = v[i];
        let hit = match c {
            Bound::Below => n < x,
            Bound::AtMost => n <= x,
            Bound::Above => n > x,
            Bound::AtLeast => n >= x,
        };
        if hit {
            proof {
                lemma_first_where_skip(as_ints(v@), c, x as int, i as int);
            }
            return Some(n);
        }
        i = i + 1;
    }
    proof {
        lemma_first_where_skip(as_ints(v@), c, x as int, i as int);
    }
    None
}

/// `v` with its entries in the opposite order.
fn reversed(v: &Vec<usize>) -> (r: Vec<usize>)
    ensures
        r@ == v@.reverse(),
        as_ints(r@) == as_ints(v@).reverse(),
{
    let mut r: Vec<usize> = Vec::new();
    let mut i: usize = v.len();
    while i > 0
        invariant
            i <= v.len(),
            r@ == v@.subrange(i as int, v.len() as int).reverse(),
        decreases i,
    {
        i = i - 1;
        r.push(v[i]);
        assert(r@ =~= v@.subrange(i as int, v.len() as int).reverse());
    }
    assert(v@.subrange(0, v.len() as int) =~= v@);
    assert(as_ints(r@) =~= as_ints(v@).reverse());
    r
}

/// The pair of positions reached by walking `rounds` times forward through the text:
/// each round takes the first `from` marker at or after the last `to` marker and the
/// first `to` marker after the end of that `from` marker.
pub open spec fn scan_forward(fs: Seq<int>, ts: Seq<int>, flen: int, rounds: nat, f: int, t: int) -> Option<(int, int)>
    decreases rounds,
{
    if rounds == 0 {
        Some((f, t))
    } else {
        match first_where(fs, Bound::AtLeast, t) {
            None => None,
            Some(f2) => match first_where(ts, Bound::Above, f2 + flen) {
                None => None,
                Some(t2) => scan_forward(fs, ts, flen, (rounds - 1) as nat, f2 + flen, t2),
            },
        }
    }
}

/// The pair of positions reached by walking `rounds` times backward through the text:
/// each round takes the last `to` marker at or before the current start and the last
/// `from` marker before that `to` marker. `fs` and `ts` are listed from the back.
pub open spec fn scan_backward(fs: Seq<int>, ts: Seq<int>, flen: int, rounds: nat, f: int, t: int) -> Option<(int, int)>
    decreases rounds,
{
    if rounds == 0 {
        Some((f, t))
    } else {
        match first_where(ts, Bound::AtMost, f) {
            None => None,
            Some(t2) => match first_where(fs, Bound::Below, t2) {
                None => None,
                Some(f2) => scan_backward(fs, ts, flen, (rounds - 1) as nat, f2 + flen, t2),
            },
        }
    }
}

/// The byte range `[start, end)` between the markers that `betweenstr` picks, given the
/// increasing offsets `fo` of the `from` marker (of length `flen`) and `to` of the `to`
/// marker in a text of `tlen` bytes. With `flag`, the `nth` `from` marker is paired with
/// the nearest `to` marker after it (or, for a negative `nth`, the `nth` `to` marker from
/// the back with the nearest `from` marker before it); without `flag` the text is walked
/// marker pair by marker pair.
pub open spec fn between_bounds(fo: Seq<int>, to: Seq<int>, flen: int, tlen: int, nth: int, flag: bool) -> Option<(int, int)> {
    let backward = nth < 0;
    let index: int = if nth > 0 { nth - 1 } else if nth < 0 { -nth - 1 } else { 0 };
    let fs = if backward { fo.reverse() } else { fo };
    let ts = if backward { to.reverse() } else { to };
    if flag {
        if backward {
            if index < ts.len() {
                match first_where(fs, Bound::Below, ts[index]) {
                    Some(f) => Some((f + flen, ts[index])),
                    None => None,
                }
            } else {
                None
            }
        } else {
            if index < fs.len() {
                match first_where(ts, Bound::Above, fs[index] + flen) {
                    Some(t) => Some((fs[index] + flen, t)),
                    None => None,
                }
            } else {
                None
            }
        }
    } else if backward {
        scan_backward(fs, ts, flen, (index + 1) as nat, tlen, 0)
    } else {
        scan_forward(fs, ts, flen, (index + 1) as nat, 0, 0)
    }
}

/// The range that `betweenstr` cuts out of text `t` between markers `from` and `to`.
pub open spec fn between_range(t: Seq<u8>, from: Seq<u8>, to: Seq<u8>, nth: int, flag: bool) -> Option<(int, int)> {
    between_bounds(
        folded_occurrences(t, from),
        folded_occurrences(t, to),
        from.len() as int,
        t.len() as int,
        nth,
        flag,
    )
}

/// The cases in which the text can be cut: the picked range does not run backwards.
/// (When the picked `from` marker overlaps the `to` marker after it, the start lies
/// past the end and the cut panics.)
pub open spec fn between_cuttable(t: Seq<u8>, from: Seq<u8>, to: Seq<u8>, nth: int, flag: bool) -> bool {
    between_range(t, from, to, nth, flag) matches Some((f, e)) ==> f <= e
}

/// Every entry of `s` is the start of a folded occurrence of `p` in `t`.
pub open spec fn all_occurrences(s: Seq<int>, t: Seq<u8>, p: Seq<u8>) -> bool {
    forall|k: int| 0 <= k < s.len() ==> occurs_at(lower_bytes(t), lower_bytes(p), #[trigger] s[k])
}

proof fn lemma_all_occurrences_sub(s: Seq<int>, t: Seq<u8>, p: Seq<u8>, v: int)
    requires
        all_occurrences(s, t, p),
        s.contains(v),
    ensures
        occurs_at(lower_bytes(t), lower_bytes(p), v),
{
    let k = choose|k: int| 0 <= k < s.len() && s[k] == v;
    assert(occurs_at(lower_bytes(t), lower_bytes(p), s[k]));
}

/// A byte offset that is a character boundary of `b` is also one of every prefix of `b`
/// that it does not pass.
proof fn lemma_boundary_in_prefix(b: Seq<u8>, e: int, f: int)
    requires
        valid_utf8(b),
        is_char_boundary(b, e),
        is_char_boundary(b, f),
        0 <= f <= e <= b.len(),
    ensures
        valid_utf8(b.subrange(0, e)),
        is_char_boundary(b.subrange(0, e), f),
{
    valid_utf8_split(b, e);
    let h = b.subrange(0, e);
    is_char_boundary_start_end_of_seq(h);
    if f < e {
        is_char_boundary_iff_not_is_continuation_byte(b, f);
        is_char_boundary_iff_not_is_continuation_byte(h, f);
    }
}

/// `target` from byte `start` up to byte `end`, both character boundaries.
fn cut(target: &str, start: usize, end: usize) -> (r: String)
    requires
        start <= end <= target.spec_bytes().len(),
        is_char_boundary(target.spec_bytes(), start as int),
        is_char_boundary(target.spec_bytes(), end as int),
    ensures
        r@ == decode_utf8(target.spec_bytes().subrange(start as int, end as int)),
{
    proof {
        encode_utf8_valid_utf8(target@);
        lemma_boundary_in_prefix(target.spec_bytes(), end as int, start as int);
    }
    let (head, _) = target.split_at(end);
    proof {
        assert(head.spec_bytes() =~= target.spec_bytes().subrange(0, end as int));
    }
    let (_, mid) = head.split_at(start);
    proof {
        assert(mid.spec_bytes() =~= target.spec_bytes().subrange(start as int, end as int));
        encode_utf8_decode_utf8(mid@);
    }
    mid.to_owned()
}

/// The text of `target` after its `nth` case-insensitive occurrence of `pattern`;
/// `None` when there is no such occurrence.
pub fn drain_to_nth_pattern(target: &str, pattern: &str, nth: i32) -> (r: Option<String>)
    requires
        pattern@.len() > 0,
        nth > i32::MIN,
    ensures
        match find_pos_spec(target.spec_bytes(), pattern.spec_bytes(), nth as int) {
            Some(i) => r matches Some(s) && s@ == decode_utf8(
                target.spec_bytes().subrange(i + pattern.spec_bytes().len(), target.spec_bytes().len() as int),
            ),
            None => r is None,
        },
{
    let found = find_pos(target, pattern, nth);
    match found {
        Some(p) => {
            let plen = pattern.as_bytes().len();
            let tlen = target.as_bytes().len();
            proof {
                encode_utf8_valid_utf8(target@);
                is_char_boundary_start_end_of_seq(target.spec_bytes());
            }
            Some(cut(target, p + plen, tlen))
        },
        None => None,
    }
}

/// The text of `target` before its `nth` case-insensitive occurrence of `pattern`;
/// `None` when there is no such occurrence.
pub fn truncate_to_nth_pattern(target: &str, pattern: &str, nth: i32) -> (r: Option<String>)
    requires
        pattern@.len() > 0,
        nth > i32::MIN,
    ensures
        match find_pos_spec(target.spec_bytes(), pattern.spec_bytes(), nth as int) {
            Some(i) => r matches Some(s) && s@ == decode_utf8(target.spec_bytes().subrange(0, i)),
            None => r is None,
        },
{
    let found = find_pos(target, pattern, nth);
    match found {
        Some(p) => {
            proof {
                encode_utf8_valid_utf8(target@);
                is_char_boundary_start_end_of_seq(target.spec_bytes());
            }
            Some(cut(target, 0, p))
        },
        None => None,
    }
}


/// Both ends of a candidate range fall on character boundaries of `t`.
pub open spec fn ends_ok(t: Seq<u8>, f: int, e: int) -> bool {
    &&& 0 <= f <= t.len()
    &&& 0 <= e <= t.len()
    &&& is_char_boundary(t, f)
    &&& is_char_boundary(t, e)
}

/// What the offset lists used by the walks hold.
pub open spec fn lists_ok(target: &str, from: &str, to: &str, fs: Seq<int>, ts: Seq<int>) -> bool {
    &&& valid_utf8(target.spec_bytes())
    &&& target.spec_bytes().len() <= usize::MAX
    &&& valid_utf8(from.spec_bytes())
    &&& valid_utf8(to.spec_bytes())
    &&& from.spec_bytes().len() > 0
    &&& to.spec_bytes().len() > 0
    &&& all_occurrences(fs, target.spec_bytes(), from.spec_bytes())
    &&& all_occurrences(ts, target.spec_bytes(), to.spec_bytes())
}

proof fn lemma_from_end(target: &str, from: &str, fs: Seq<int>, v: int)
    requires
        valid_utf8(target.spec_bytes()),
        valid_utf8(from.spec_bytes()),
        from.spec_bytes().len() > 0,
        all_occurrences(fs, target.spec_bytes(), from.spec_bytes()),
        fs.contains(v),
    ensures
        is_char_boundary(target.spec_bytes(), v + from.spec_bytes().len()),
        0 <= v + from.spec_bytes().len() <= target.spec_bytes().len(),
{
    lemma_all_occurrences_sub(fs, target.spec_bytes(), from.spec_bytes(), v);
    lemma_folded_match_boundaries(target.spec_bytes(), from.spec_bytes(), v);
}

proof fn lemma_to_start(target: &str, to: &str, ts: Seq<int>, v: int)
    requires
        valid_utf8(target.spec_bytes()),
        valid_utf8(to.spec_bytes()),
        to.spec_bytes().len() > 0,
        all_occurrences(ts, target.spec_bytes(), to.spec_bytes()),
        ts.contains(v),
    ensures
        is_char_boundary(target.spec_bytes(), v),
        0 <= v <= target.spec_bytes().len(),
{
    lemma_all_occurrences_sub(ts, target.spec_bytes(), to.spec_bytes(), v);
    lemma_folded_match_boundaries(target.spec_bytes(), to.spec_bytes(), v);
}

fn walk_forward(target: &str, from: &str, to: &str, fs: &Vec<usize>, ts: &Vec<usize>, flen: usize, rounds: usize) -> (r: Option<(usize, usize)>)
    requires
        lists_ok(target, from, to, as_ints(fs@), as_ints(ts@)),
        flen == from.spec_bytes().len(),
    ensures
        match scan_forward(as_ints(fs@), as_ints(ts@), flen as int, rounds as nat, 0, 0) {
            Some((f, e)) => r == Some((f as usize, e as usize)) && f == r.unwrap().0 && e == r.unwrap().1
                && ends_ok(target.spec_bytes(), f, e),
            None => r is None,
        },
{
    proof {
        is_char_boundary_start_end_of_seq(target.spec_bytes());
    }
    let mut f: usize = 0;
    let mut t: usize = 0;
    let mut k: usize = 0;
    while k < rounds
        invariant
            lists_ok(target, from, to, as_ints(fs@), as_ints(ts@)),
            flen == from.spec_bytes().len(),
            k <= rounds,
            ends_ok(target.spec_bytes(), f as int, t as int),
            scan_forward(as_ints(fs@), as_ints(ts@), flen as int, (rounds - k) as nat, f as int, t as int)
                == scan_forward(as_ints(fs@), as_ints(ts@), flen as int, rounds as nat, 0, 0),
        decreases rounds - k,
    {
        proof {
            lemma_first_where_member(as_ints(fs@), Bound::AtLeast, t as int);
        }
        let f2 = match find_first(fs, Bound::AtLeast, t) {
            Some(n) => n,
            None => return None,
        };
        proof {
            lemma_from_end(target, from, as_ints(fs@), f2 as int);
        }
        let f3 = f2 + flen;
        proof {
            lemma_first_where_member(as_ints(ts@), Bound::Above, f3 as int);
        }
        let t2 = match find_first(ts, Bound::Above, f3) {
            Some(n) => n,
            None => return None,
        };
        proof {
            lemma_to_start(target, to, as_ints(ts@), t2 as int);
        }
        f = f3;
        t = t2;
        k = k + 1;
    }
    Some((f, t))
}

fn walk_backward(target: &str, from: &str, to: &str, fs: &Vec<usize>, ts: &Vec<usize>, flen: usize, rounds: usize) -> (r: Option<(usize, usize)>)
    requires
        lists_ok(target, from, to, as_ints(fs@), as_ints(ts@)),
        flen == from.spec_bytes().len(),
    ensures
        match scan_backward(as_ints(fs@), as_ints(ts@), flen as int, rounds as nat, target.spec_bytes().len() as int, 0) {
            Some((f, e)) => r == Some((f as usize, e as usize)) && f == r.unwrap().0 && e == r.unwrap().1
                && ends_ok(target.spec_bytes(), f, e),
            None => r is None,
        },
{
    proof {
        is_char_boundary_start_end_of_seq(target.spec_bytes());
    }
    let mut f: usize = target.as_bytes().len();
    let mut t: usize = 0;
    let mut k: usize = 0;
    while k < rounds
        invariant
            lists_ok(target, from, to, as_ints(fs@), as_ints(ts@)),
            flen == from.spec_bytes().len(),
            k <= rounds,
            ends_ok(target.spec_bytes(), f as int, t as int),
            scan_backward(as_ints(fs@), as_ints(ts@), flen as int, (rounds - k) as nat, f as int, t as int)
                == scan_backward(as_ints(fs@), as_ints(ts@), flen as int, rounds as nat, target.spec_bytes().len() as int, 0),
        decreases rounds - k,
    {
        proof {
            lemma_first_where_member(as_ints(ts@), Bound::AtMost, f as int);
        }
        let t2 = match find_first(ts, Bound::AtMost, f) {
            Some(n) => n,
            None => return None,
        };
        proof {
            lemma_to_start(target, to, as_ints(ts@), t2 as int);
            lemma_first_where_member(as_ints(fs@), Bound::Below, t2 as int);
        }
        let f2 = match find_first(fs, Bound::Below, t2) {
            Some(n) => n,
            None => return None,
        };
        proof {
            lemma_from_end(target, from, as_ints(fs@), f2 as int);
        }
        f = f2 + flen;
        t = t2;
        k = k + 1;
    }
    Some((f, t))
}

/// The text of `target` between a `from` marker and a `to` marker, ASCII letters
/// compared without case, picked as `between_range` says; `None` when no such pair
/// of markers exists.
pub fn find_nth_between(target: &str, from: &str, to: &str, nth: i32, flag: bool) -> (r: Option<Option<String>>)
    requires
        from@.len() > 0,
        to@.len() > 0,
        nth > i32::MIN,
    ensures
        match between_range(target.spec_bytes(), from.spec_bytes(), to.spec_bytes(), nth as int, flag) {
            Some((f, e)) => if f <= e {
                r matches Some(Some(s)) && s@ == decode_utf8(target.spec_bytes().subrange(f, e))
            } else {
                r is None
            },
            None => r == Some(None::<String>),
        },
{
    proof {
        encode_utf8_valid_utf8(target@);
        encode_utf8_valid_utf8(from@);
        encode_utf8_valid_utf8(to@);
        if from.spec_bytes().len() == 0 {
            encode_utf8_decode_utf8(from@);
        }
        if to.spec_bytes().len() == 0 {
            encode_utf8_decode_utf8(to@);
        }
    }
    let tl = fold_bytes(target.as_bytes());
    let fl = fold_bytes(from.as_bytes());
    let tol = fold_bytes(to.as_bytes());
    let fo = find_all_bytes(tl.as_slice(), fl.as_slice());
    let too = find_all_bytes(tl.as_slice(), tol.as_slice());
    let from_len = from.as_bytes().len();
    let _tlen = target.as_bytes().len();
    let ghost tb = target.spec_bytes();
    let ghost fb = from.spec_bytes();
    let ghost tob = to.spec_bytes();
    proof {
        lemma_occurrences(lower_bytes(tb), lower_bytes(fb));
        lemma_occurrences(lower_bytes(tb), lower_bytes(tob));
        assert(all_occurrences(as_ints(fo@), tb, fb));
        assert(all_occurrences(as_ints(too@), tb, tob));
    }
    let backward = nth < 0;
    let index: usize = if nth > 0 {
        (nth - 1) as usize
    } else if nth < 0 {
        (-nth - 1) as usize
    } else {
        0
    };
    let fs = if backward { reversed(&fo) } else { fo };
    let ts = if backward { reversed(&too) } else { too };
    proof {
        assert forall|k: int| 0 <= k < as_ints(fs@).len() implies occurs_at(
            lower_bytes(tb),
            lower_bytes(fb),
            #[trigger] as_ints(fs@)[k],
        ) by {
            if backward {
                assert(as_ints(fs@)[k] == as_ints(fo@)[as_ints(fo@).len() - 1 - k]);
            }
        }
        assert forall|k: int| 0 <= k < as_ints(ts@).len() implies occurs_at(
            lower_bytes(tb),
            lower_bytes(tob),
            #[trigger] as_ints(ts@)[k],
        ) by {
            if backward {
                assert(as_ints(ts@)[k] == as_ints(too@)[as_ints(too@).len() - 1 - k]);
            }
        }
        assert(lists_ok(target, from, to, as_ints(fs@), as_ints(ts@)));
    }
    let range: Option<(usize, usize)> = if flag {
        if backward {
            if index < ts.len() {
                let t = ts[index];
                proof {
                    assert(as_ints(ts@).contains(t as int)) by {
                        assert(as_ints(ts@)[index as int] == t);
                    }
                    lemma_to_start(target, to, as_ints(ts@), t as int);
                    lemma_first_where_member(as_ints(fs@), Bound::Below, t as int);
                }
                match find_first(&fs, Bound::Below, t) {
                    Some(f) => {
                        proof {
                            lemma_from_end(target, from, as_ints(fs@), f as int);
                        }
                        Some((f + from_len, t))
                    },
                    None => None,
                }
            } else {
                None
            }
        } else {
            if index < fs.len() {
                let f0 = fs[index];
                proof {
                    assert(as_ints(fs@).contains(f0 as int)) by {
                        assert(as_ints(fs@)[index as int] == f0);
                    }
                    lemma_from_end(target, from, as_ints(fs@), f0 as int);
                }
                let f = f0 + from_len;
                proof {
                    lemma_first_where_member(as_ints(ts@), Bound::Above, f as int);
                }
                match find_first(&ts, Bound::Above, f) {
                    Some(t) => {
                        proof {
                            lemma_to_start(target, to, as_ints(ts@), t as int);
                        }
                        Some((f, t))
                    },
                    None => None,
                }
            }
            else {
                None
            }
        }
    } else if backward {
        walk_backward(target, from, to, &fs, &ts, from_len, index + 1)
    } else {
        walk_forward(target, from, to, &fs, &ts, from_len, index + 1)
    };
    proof {
        assert(as_ints(fs@) == if backward { as_ints(fo@).reverse() } else { as_ints(fo@) });
        assert(as_ints(ts@) == if backward { as_ints(too@).reverse() } else { as_ints(too@) });
    }
    match range {
        Some((f, t)) => if f <= t {
            Some(Some(cut(target, f, t)))
        } else {
            None
        },
        None => Some(None),
    }
}


/// A marker argument of `betweenstr`: absent or empty means "no marker".
pub open spec fn marker(m: Option<&str>) -> Option<Seq<u8>> {
    match m {
        Some(x) => if x@.len() > 0 { Some(x.spec_bytes()) } else { None },
        None => None,
    }
}

/// What `betweenstr` returns: with neither marker the whole text; with only `to`, the
/// text before the `nth` `to`; with only `from`, the text after the `nth` `from`; with
/// both, the text between the pair of markers that `between_range` picks. When the
/// wanted marker is not found, the empty string.
pub open spec fn betweenstr_spec(t: &str, from: Option<&str>, to: Option<&str>, nth: int, flag: bool) -> Seq<char> {
    let tb = t.spec_bytes();
    match (marker(from), marker(to)) {
        (None, None) => t@,
        (None, Some(e)) => match find_pos_spec(tb, e, nth) {
            Some(i) => decode_utf8(tb.subrange(0, i)),
            None => Seq::empty(),
        },
        (Some(f), None) => match find_pos_spec(tb, f, nth) {
            Some(i) => decode_utf8(tb.subrange(i + f.len(), tb.len() as int)),
            None => Seq::empty(),
        },
        (Some(f), Some(e)) => match between_range(tb, f, e, nth, flag) {
            Some((a, b)) => decode_utf8(tb.subrange(a, b)),
            None => Seq::empty(),
        },
    }
}

/// The cases in which `betweenstr` can cut its text (see `between_cuttable`).
pub open spec fn betweenstr_cuttable(t: &str, from: Option<&str>, to: Option<&str>, nth: int, flag: bool) -> bool {
    match (marker(from), marker(to)) {
        (Some(f), Some(e)) => between_cuttable(t.spec_bytes(), f, e, nth, flag),
        _ => true,
    }
}

/// `betweenstr(str, from, to, nth, flag)`: the part of `s` before, after or between
/// marker strings (ASCII letters compared without case); an empty marker counts as
/// none, and when the wanted marker is missing the result is empty. `None` when the
/// picked pair of markers overlaps so that the range runs backwards (see
/// `betweenstr_cuttable`), where no text can be cut.
pub fn betweenstr(s: &str, from: Option<&str>, to: Option<&str>, nth: i32, flag: bool) -> (r: Option<String>)
    requires
        nth > i32::MIN,
    ensures
        r is Some <==> betweenstr_cuttable(s, from, to, nth as int, flag),
        r matches Some(v) ==> v@ == betweenstr_spec(s, from, to, nth as int, flag),
{
    let from = match from {
        Some(x) => if x.is_empty() { None } else { Some(x) },
        None => None,
    };
    let to = match to {
        Some(x) => if x.is_empty() { None } else { Some(x) },
        None => None,
    };
    let between = match (from, to) {
        (None, None) => Some(Some(s.to_owned())),
        (None, Some(e)) => Some(truncate_to_nth_pattern(s, e, nth)),
        (Some(f), None) => Some(drain_to_nth_pattern(s, f, nth)),
        (Some(f), Some(e)) => find_nth_between(s, f, e, nth, flag),
    };
    match between {
        Some(Some(v)) => Some(v),
        Some(None) => Some(String::new()),
        None => None,
    }
}


/// On an increasing list, the first entry above `x` is the least entry above `x`, and
/// none is found only when no entry is above `x`.
proof fn lemma_first_above_least(s: Seq<int>, x: int)
    requires
        forall|i: int, j: int| 0 <= i < j < s.len() ==> s[i] < s[j],
    ensures
        first_where(s, Bound::Above, x) matches Some(v) ==> s.contains(v) && v > x
            && forall|w: int| s.contains(w) && w > x ==> v <= w,
        first_where(s, Bound::Above, x) is None ==> forall|w: int| s.contains(w) ==> w <= x,
    decreases s.len(),
{
    lemma_first_where_member(s, Bound::Above, x);
    if s.len() > 0 {
        let t = s.drop_first();
        lemma_first_above_least(t, x);
        if s[0] > x {
            assert forall|w: int| s.contains(w) && w > x implies s[0] <= w by {
                let k = choose|k: int| 0 <= k < s.len() && s[k] == w;
                if k > 0 {
                    assert(s[0] < s[k]);
                }
            }
        } else {
            assert forall|w: int| s.contains(w) && w > x implies t.contains(w) by {
                let k = choose|k: int| 0 <= k < s.len() && s[k] == w;
                assert(k > 0);
                assert(t[k - 1] == w);
            }
            if first_where(t, Bound::Above, x) is None {
                assert forall|w: int| s.contains(w) implies w <= x by {
                    let k = choose|k: int| 0 <= k < s.len() && s[k] == w;
                    if k > 0 {
                        assert(t[k - 1] == w);
                        assert(t.contains(w));
                    }
                }
            }
        }
    }
}

/// With the flag and a count `nth >= 1`, `betweenstr` starts right after the `nth`
/// occurrence of the `from` marker and stops at the first occurrence of the `to`
/// marker that starts after that point (markers compared without ASCII case), so no
/// `to` marker starts strictly inside the cut; it finds nothing only when there are
/// fewer than `nth` `from` markers or no `to` marker starts after the `nth` one ends.
/// (Markers are not empty: `betweenstr` counts an empty marker as none.)
pub proof fn law_between_nearest_pair(t: Seq<u8>, from: Seq<u8>, to: Seq<u8>, nth: int)
    requires
        nth >= 1,
        from.len() > 0,
        to.len() > 0,
    ensures
        between_range(t, from, to, nth, true) matches Some((a, b)) ==> {
            &&& nth - 1 < folded_occurrences(t, from).len()
            &&& a == folded_occurrences(t, from)[nth - 1] + from.len()
            &&& occurs_at(lower_bytes(t), lower_bytes(from), a - from.len())
            &&& occurs_at(lower_bytes(t), lower_bytes(to), b)
            &&& a < b
            &&& forall|k: int| a < k < b ==> !occurs_at(lower_bytes(t), lower_bytes(to), k)
        },
        between_range(t, from, to, nth, true) is None ==> nth - 1 >= folded_occurrences(t, from).len()
            || forall|k: int| k > folded_occurrences(t, from)[nth - 1] + from.len()
                ==> !occurs_at(lower_bytes(t), lower_bytes(to), k),
{
    let fo = folded_occurrences(t, from);
    let tos = folded_occurrences(t, to);
    lemma_occurrences(lower_bytes(t), lower_bytes(from));
    lemma_occurrences(lower_bytes(t), lower_bytes(to));
    lemma_first_above_least(tos, if nth - 1 < fo.len() { fo[nth - 1] + from.len() } else { 0 });
    if nth - 1 < fo.len() {
        let x = fo[nth - 1] + from.len();
        assert(lower_bytes(t).len() == t.len());
        assert forall|k: int| k > x && occurs_at(lower_bytes(t), lower_bytes(to), k) implies tos.contains(k) by {
            assert(lower_bytes(to).len() == to.len());
            assert(0 <= k < lower_bytes(t).len());
        }
    }
}


/// For the first pair from the front (`nth` of 1, or 0, which counts as 1) and the
/// first pair from the back (`nth` of -1), walking the text pair by pair and pairing the
/// marker with its nearest partner pick the same range: the flag only matters from the
/// second pair on.
pub proof fn law_between_first_pair_ignores_flag(t: Seq<u8>, from: Seq<u8>, to: Seq<u8>)
    ensures
        between_range(t, from, to, 1, false) == between_range(t, from, to, 1, true),
        between_range(t, from, to, -1, false) == between_range(t, from, to, -1, true),
        between_range(t, from, to, 0, false) == between_range(t, from, to, 1, false),
        between_range(t, from, to, 0, true) == between_range(t, from, to, 1, true),
{
    let fo = folded_occurrences(t, from);
    let tos = folded_occurrences(t, to);
    let flen = from.len() as int;
    let tlen = t.len() as int;
    lemma_occurrences(lower_bytes(t), lower_bytes(from));
    lemma_occurrences(lower_bytes(t), lower_bytes(to));
    assert(lower_bytes(t).len() == t.len());
    reveal_with_fuel(scan_forward, 2);
    reveal_with_fuel(scan_backward, 2);
    if fo.len() > 0 {
        assert(occurs_at(lower_bytes(t), lower_bytes(from), fo[0]));
        assert(first_where(fo, Bound::AtLeast, 0) == Some(fo[0]));
    }
    if tos.len() > 0 {
        let last = tos.reverse()[0];
        assert(last == tos[tos.len() - 1]);
        assert(occurs_at(lower_bytes(t), lower_bytes(to), tos[tos.len() - 1]));
        assert(first_where(tos.reverse(), Bound::AtMost, tlen) == Some(last));
    }
}

/// In a list that falls from front to back, the first entry below `x` is the greatest
/// entry below `x`.
proof fn lemma_first_below_greatest(s: Seq<int>, x: int)
    requires
        forall|j: int, k: int| 0 <= j < k < s.len() ==> s[j] > s[k],
    ensures
        first_where(s, Bound::Below, x) matches Some(v) ==> s.contains(v) && v < x
            && forall|w: int| s.contains(w) && w < x ==> w <= v,
        first_where(s, Bound::Below, x) is None ==> forall|w: int| s.contains(w) ==> w >= x,
    decreases s.len(),
{
    lemma_first_where_member(s, Bound::Below, x);
    if s.len() > 0 {
        let t = s.drop_first();
        lemma_first_below_greatest(t, x);
        if s[0] < x {
            assert forall|w: int| s.contains(w) && w < x implies w <= s[0] by {
                let k = choose|k: int| 0 <= k < s.len() && s[k] == w;
                if k > 0 {
                    assert(s[0] > s[k]);
                }
            }
        } else {
            assert forall|w: int| s.contains(w) && w < x implies t.contains(w) by {
                let k = choose|k: int| 0 <= k < s.len() && s[k] == w;
                assert(k > 0);
                assert(t[k - 1] == w);
            }
            if first_where(t, Bound::Below, x) is None {
                assert forall|w: int| s.contains(w) implies w >= x by {
                    let k = choose|k: int| 0 <= k < s.len() && s[k] == w;
                    if k > 0 {
                        assert(t[k - 1] == w);
                        assert(t.contains(w));
                    }
                }
            }
        }
    }
}

/// With the flag and a count `nth <= -1`, `betweenstr` stops at the `-nth`-th occurrence
/// of the `to` marker counted from the back and starts right after the nearest `from`
/// marker that starts before it, so no `from` marker starts strictly between the two;
/// it finds nothing only when there are fewer than `-nth` `to` markers or no `from`
/// marker starts before the chosen one.
pub proof fn law_between_nearest_pair_backward(t: Seq<u8>, from: Seq<u8>, to: Seq<u8>, nth: int)
    requires
        nth <= -1,
        from.len() > 0,
        to.len() > 0,
    ensures
        between_range(t, from, to, nth, true) matches Some((a, b)) ==> {
            let tos = folded_occurrences(t, to);
            &&& -nth - 1 < tos.len()
            &&& b == tos[tos.len() - 1 - (-nth - 1)]
            &&& occurs_at(lower_bytes(t), lower_bytes(to), b)
            &&& occurs_at(lower_bytes(t), lower_bytes(from), a - from.len())
            &&& a - from.len() < b
            &&& forall|k: int| a - from.len() < k < b ==> !occurs_at(lower_bytes(t), lower_bytes(from), k)
        },
        between_range(t, from, to, nth, true) is None ==> -nth - 1 >= folded_occurrences(t, to).len()
            || forall|k: int| k < folded_occurrences(t, to)[folded_occurrences(t, to).len() - 1 - (-nth - 1)]
                ==> !occurs_at(lower_bytes(t), lower_bytes(from), k),
{
    let fo = folded_occurrences(t, from);
    let tos = folded_occurrences(t, to);
    let index = -nth - 1;
    lemma_occurrences(lower_bytes(t), lower_bytes(from));
    lemma_occurrences(lower_bytes(t), lower_bytes(to));
    assert(lower_bytes(t).len() == t.len());
    let fr = fo.reverse();
    assert forall|j: int, k: int| 0 <= j < k < fr.len() implies fr[j] > fr[k] by {
        assert(fr[j] == fo[fo.len() - 1 - j]);
        assert(fr[k] == fo[fo.len() - 1 - k]);
    }
    if index < tos.len() {
        let b = tos.reverse()[index];
        assert(b == tos[tos.len() - 1 - index]);
        assert(occurs_at(lower_bytes(t), lower_bytes(to), tos[tos.len() - 1 - index]));
        lemma_first_below_greatest(fr, b);
        assert forall|w: int| fr.contains(w) <==> fo.contains(w) by {
            if fr.contains(w) {
                let k = choose|k: int| 0 <= k < fr.len() && fr[k] == w;
                assert(fo[fo.len() - 1 - k] == w);
            }
            if fo.contains(w) {
                let k = choose|k: int| 0 <= k < fo.len() && fo[k] == w;
                assert(fr[fo.len() - 1 - k] == w);
            }
        }
        if first_where(fr, Bound::Below, b) is Some {
            let f = first_where(fr, Bound::Below, b).unwrap();
            let k0 = choose|k: int| 0 <= k < fo.len() && fo[k] == f;
            assert(occurs_at(lower_bytes(t), lower_bytes(from), fo[k0]));
            assert forall|k: int| f < k < b implies !occurs_at(lower_bytes(t), lower_bytes(from), k) by {
                if occurs_at(lower_bytes(t), lower_bytes(from), k) {
                    assert(0 <= k < lower_bytes(t).len());
                    assert(fo.contains(k));
                }
            }
        } else {
            assert forall|k: int| k < b implies !occurs_at(lower_bytes(t), lower_bytes(from), k) by {
                if occurs_at(lower_bytes(t), lower_bytes(from), k) {
                    assert(0 <= k < lower_bytes(t).len());
                    assert(fo.contains(k));
                }
            }
        }
    }
}
} // verus!
