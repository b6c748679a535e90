//! The array builtins `join` and `reverse`.

use vstd::prelude::*;
use crate::args::{models, Expression, Object, ObjectModel};
use crate::builtin_args::{
    array_reading, lemma_models_index, lemma_models_len, nonempty, outcome, texts, with_default,
    BuiltInResult, BuiltinFuncArgs,
};
use crate::error::{builtin_func_error, ErrorModel, MessageModel, UErrorMessage};

verus! {

/// Strings joined with `sep` between them.
pub open spec fn joined(ps: Seq<Seq<char>>, sep: Seq<char>) -> Seq<char>
    decreases ps.len(),
{
    if ps.len() == 0 {
        Seq::empty()
    } else if ps.len() == 1 {
        ps[0]
    } else {
        joined(ps.drop_last(), sep) + sep + ps.last()
    }
}

/// What `join` makes of the texts of `arr[from..=to]`: joined with `sep`, the empty
/// ones left out when `skip_empty`; an index error when `to` is past the end.
pub open spec fn join_spec(arr: Seq<ObjectModel>, sep: Seq<char>, skip_empty: bool, from: int, to: int) -> Result<Seq<char>, ErrorModel> {
    if to >= arr.len() {
        Err(ErrorModel::Error(MessageModel::IndexOutOfBounds(to as usize)))
    } else {
        let parts = texts(arr.subrange(from, to + 1));
        Ok(joined(if skip_empty { nonempty(parts) } else { parts }, sep))
    }
}

proof fn lemma_nonempty_push(ss: Seq<Seq<char>>, s: Seq<char>)
    ensures
        nonempty(ss.push(s)) == (if s.len() == 0 { nonempty(ss) } else { nonempty(ss).push(s) }),
{
    assert(ss.push(s).drop_last() =~= ss);
}

/// The texts of `arr[from..=to]` joined with `sep` (see `join_spec`).
pub fn join(arr: &Vec<Object>, sep: &str, skip_empty: bool, from: usize, to: usize) -> (r: BuiltInResult<String>)
    requires
        to < arr@.len() ==> from <= to + 1,
    ensures
        outcome(r, |s: String| s@) == join_spec(models(arr@), sep@, skip_empty, from as int, to as int),
{
    proof {
        lemma_models_len(arr@);
    }
    if to >= arr.len() {
        return Err(builtin_func_error(UErrorMessage::IndexOutOfBounds(to)));
    }
    let n = arr.len();
    let ghost all = texts(models(arr@).subrange(from as int, to + 1));
    let mut out = String::new();
    let mut any = false;
    let mut k = from;
    let ghost mut taken: Seq<Seq<char>> = Seq::empty();
    while k <= to
        invariant
            from <= k <= to + 1,
            to < n,
            n == arr@.len(),
            models(arr@).len() == arr@.len(),
            all == texts(models(arr@).subrange(from as int, to + 1)),
            taken == all.take(k - from),
            out@ == joined(if skip_empty { nonempty(taken) } else { taken }, sep@),
            any == ((if skip_empty { nonempty(taken) } else { taken }).len() > 0),
        decreases to + 1 - k,
    {
        proof {
            lemma_models_index(arr@, k as int);
        }
        let t = &arr[k].text;
        let ghost kept = if skip_empty { nonempty(taken) } else { taken };
        proof {
            assert(all[k - from] == t@);
            assert(all.take(k + 1 - from) =~= taken.push(t@));
            lemma_nonempty_push(taken, t@);
        }
        if !(skip_empty && t.as_str().is_empty()) {
            let ghost before = out@;
            if any {
                out.append(sep);
            }
            out.append(t.as_str());
            proof {
                let kept2 = kept.push(t@);
                assert(kept2.drop_last() =~= kept);
                if kept.len() == 0 {
                    assert(before =~= Seq::<char>::empty());
                    assert(out@ =~= joined(kept2, sep@));
                }
            }
            any = true;
        }
        proof {
            taken = taken.push(t@);
        }
        k = k + 1;
    }
    proof {
        assert(all.take(to + 1 - from) =~= all);
    }
    Ok(out)
}

/// The `reverse` builtin: argument 0, an array, reversed, with the syntax it was written
/// as (so that the caller can store the result back).
pub fn reverse(args: &BuiltinFuncArgs) -> (r: BuiltInResult<(Option<Expression>, Vec<Object>)>)
    ensures
        outcome(r, |x: (Option<Expression>, Vec<Object>)| models(x.1@)) == (match with_default(
            args.objects(),
            0,
            None,
            |o: ObjectModel| array_reading(o, None),
        ) {
            Ok(v) => Ok(v.reverse()),
            Err(e) => Err(e),
        }),
        r matches Ok(x) ==> x.0 == (if 0 < args.exprs().len() { args.exprs()[0] } else { None }),
{
    let arr = match args.get_as_array(0, None) {
        Ok(a) => a,
        Err(e) => return Err(e),
    };
    let expr = args.get_expr(0);
    let mut out: Vec<Object> = Vec::new();
    let mut k = arr.len();
    proof {
        lemma_models_len(arr@);
    }
    while k > 0
        invariant
            k <= arr@.len(),
            models(arr@).len() == arr@.len(),
            models(out@) == models(arr@).reverse().take(arr@.len() - k),
        decreases k,
    {
        k = k - 1;
        proof {
            lemma_models_index(arr@, k as int);
        }
        let o = arr[k].duplicate();
        let ghost before = out@;
        out.push(o);
        proof {
            assert(out@.drop_last() =~= before);
            assert(models(arr@).reverse().take(arr@.len() - k) =~= models(arr@).reverse().take(arr@.len() - k - 1).push(models(arr@)[k as int]));
        }
    }
    proof {
        assert(models(arr@).reverse().take(arr@.len() as int) =~= models(arr@).reverse());
    }
    Ok((expr, out))
}


/// Joining keeps the parts in order with the separator between each two of them: one
/// part is itself, and joining two non-empty lists of parts one after the other is
/// joining each and putting the separator between.
pub proof fn law_join_concatenates(ps: Seq<Seq<char>>, qs: Seq<Seq<char>>, sep: Seq<char>)
    ensures
        ps.len() == 1 ==> joined(ps, sep) == ps[0],
        ps.len() > 0 && qs.len() > 0 ==> joined(ps + qs, sep) == joined(ps, sep) + sep + joined(qs, sep),
    decreases qs.len(),
{
    if ps.len() > 0 && qs.len() > 0 {
        if qs.len() == 1 {
            assert((ps + qs).drop_last() =~= ps);
            assert((ps + qs).last() == qs[0]);
        } else {
            law_join_concatenates(ps, qs.drop_last(), sep);
            assert((ps + qs).drop_last() =~= ps + qs.drop_last());
            assert((ps + qs).last() == qs.last());
            assert(joined(ps + qs, sep) == joined(ps + qs.drop_last(), sep) + sep + qs.last());
            assert(joined(qs, sep) == joined(qs.drop_last(), sep) + sep + qs.last());
            assert(joined(ps, sep) + sep + joined(qs.drop_last(), sep) + sep + qs.last()
                =~= joined(ps, sep) + sep + (joined(qs.drop_last(), sep) + sep + qs.last()));
        }
    }
}


/// `join` takes the items from `from` to `to`, both included: a single item (`from ==
/// to`) gives its own text; two neighbouring items give their texts with the separator
/// between; leaving out empty texts joins exactly the texts that are not empty, and
/// changes nothing when no text is empty.
pub proof fn law_join_range(arr: Seq<ObjectModel>, sep: Seq<char>, i: int, ss: Seq<Seq<char>>)
    requires
        0 <= i < arr.len(),
    ensures
        join_spec(arr, sep, false, i, i) == Ok::<Seq<char>, ErrorModel>(arr[i].text),
        i + 1 < arr.len() ==> join_spec(arr, sep, false, i, i + 1)
            == Ok::<Seq<char>, ErrorModel>(arr[i].text + sep + arr[i + 1].text),
        forall|k: int| 0 <= k < nonempty(ss).len() ==> (#[trigger] nonempty(ss)[k]).len() > 0,
        (forall|k: int| 0 <= k < ss.len() ==> (#[trigger] ss[k]).len() > 0) ==> nonempty(ss) == ss,
    decreases ss.len(),
{
    let one = texts(arr.subrange(i, i + 1));
    assert(one =~= seq![arr[i].text]);
    if i + 1 < arr.len() {
        let two = texts(arr.subrange(i, i + 2));
        assert(two =~= seq![arr[i].text, arr[i + 1].text]);
        assert(two.drop_last() =~= seq![arr[i].text]);
    }
    if ss.len() > 0 {
        let p = ss.drop_last();
        law_join_range(arr, sep, i, p);
        assert forall|k: int| 0 <= k < nonempty(ss).len() implies (#[trigger] nonempty(ss)[k]).len() > 0 by {
            if ss.last().len() > 0 && k == nonempty(p).len() {
                assert(nonempty(ss)[k] == ss.last());
            } else {
                assert(nonempty(ss)[k] == nonempty(p)[k]);
            }
        }
        if forall|k: int| 0 <= k < ss.len() ==> (#[trigger] ss[k]).len() > 0 {
            assert forall|k: int| 0 <= k < p.len() implies (#[trigger] p[k]).len() > 0 by {
                assert(p[k] == ss[k]);
            }
            assert(ss.last().len() > 0);
            assert(p.push(ss.last()) =~= ss);
        }
    } else {
        assert(nonempty(ss) =~= ss);
    }
}
} // verus!
