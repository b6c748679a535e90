//! Facts about ASCII case folding on UTF-8 bytes.

use vstd::prelude::*;
use vstd::utf8::*;

verus! {

/// ASCII lower-casing of one byte: `A`..=`Z` become `a`..=`z`, every other byte is kept.
pub open spec fn lower_byte(b: u8) -> u8 {
    if 65 <= b <= 90 { (b + 32) as u8 } else { b }
}

/// ASCII lower-casing of a byte sequence.
pub open spec fn lower_bytes(s: Seq<u8>) -> Seq<u8> {
    s.map_values(|b: u8| lower_byte(b))
}

/// Two bytes that fold to the same byte fall in the same UTF-8 byte class.
pub proof fn lemma_fold_keeps_class(x: u8, y: u8)
    requires
        lower_byte(x) == lower_byte(y),
    ensures
        is_leading_byte_width_1(x) == is_leading_byte_width_1(y),
        is_leading_byte_width_2(x) == is_leading_byte_width_2(y),
        is_leading_byte_width_3(x) == is_leading_byte_width_3(y),
        is_leading_byte_width_4(x) == is_leading_byte_width_4(y),
        is_continuation_byte(x) == is_continuation_byte(y),
        x >= 0x80 ==> x == y,
{
}

/// Lower-cases a byte, as `u8::to_ascii_lowercase` does.
pub fn fold_byte(b: u8) -> (r: u8)
    ensures
        r == lower_byte(b),
{
    if 65 <= b && b <= 90 {
        b + 32
    } else {
        b
    }
}

/// Lower-cases every ASCII letter of a byte slice.
pub fn fold_bytes(s: &[u8]) -> (r: Vec<u8>)
    ensures
        r@ == lower_bytes(s@),
{
    let mut r: Vec<u8> = Vec::new();
    let mut i: usize = 0;
    while i < s.len()
        invariant
            i <= s.len(),
            r@ == lower_bytes(s@.take(i as int)),
        decreases s.len() - i,
    {
        let b = fold_byte(s[i]);
        r.push(b);
        i = i + 1;
        assert(lower_bytes(s@.take(i as int)) =~= lower_bytes(s@.take((i - 1) as int)).push(b));
    }
    assert(s@.take(s.len() as int) =~= s@);
    r
}

/// When `pat` occurs, up to ASCII case, at the start of the valid UTF-8 sequence `s`
/// and `s` goes on after it, the byte that follows the occurrence starts a character.
pub proof fn lemma_end_of_folded_match(s: Seq<u8>, pat: Seq<u8>)
    requires
        valid_utf8(s),
        valid_utf8(pat),
        pat.len() < s.len(),
        forall|i: int| 0 <= i < pat.len() ==> lower_byte(#[trigger] s[i]) == lower_byte(pat[i]),
    ensures
        !is_continuation_byte(s[pat.len() as int]),
    decreases pat.len(),
{
    if pat.len() == 0 {
        assert(valid_first_scalar(s));
    } else {
        assert(valid_first_scalar(pat));
        assert(valid_first_scalar(s));
        lemma_fold_keeps_class(s[0], pat[0]);
        let w = length_of_first_scalar(pat);
        assert(length_of_first_scalar(s) == w);
        let s2 = pop_first_scalar(s);
        let p2 = pop_first_scalar(pat);
        assert forall|i: int| 0 <= i < p2.len() implies lower_byte(#[trigger] s2[i]) == lower_byte(
            p2[i],
        ) by {
            assert(s2[i] == s[i + w]);
            assert(p2[i] == pat[i + w]);
        }
        lemma_end_of_folded_match(s2, p2);
        assert(s2[p2.len() as int] == s[pat.len() as int]);
    }
}


/// ASCII upper-casing of one byte: `a`..=`z` become `A`..=`Z`, every other byte is kept.
pub open spec fn upper_byte(b: u8) -> u8 {
    if 97 <= b <= 122 { (b - 32) as u8 } else { b }
}

/// Case folding leaves no upper-case ASCII letter, folds each letter of either case to
/// its lower-case form, changes no byte that is not an upper-case letter, and folding
/// twice is folding once.
pub proof fn law_fold_lowers_letters(b: u8)
    ensures
        !(65 <= lower_byte(b) <= 90),
        65 <= b <= 90 ==> lower_byte(b) as int == b as int + 32,
        !(65 <= b <= 90) ==> lower_byte(b) == b,
        lower_byte(upper_byte(b)) == lower_byte(b),
        lower_byte(lower_byte(b)) == lower_byte(b),
{
}

/// Text upper-cased (ASCII letters only) folds to the same bytes as the text itself.
pub proof fn law_fold_ignores_case(t: Seq<u8>)
    ensures
        lower_bytes(t.map_values(|b: u8| upper_byte(b))) == lower_bytes(t),
{
    let u = t.map_values(|b: u8| upper_byte(b));
    assert forall|i: int| 0 <= i < t.len() implies #[trigger] lower_bytes(u)[i] == lower_bytes(t)[i] by {
        law_fold_lowers_letters(t[i]);
    }
    assert(lower_bytes(u) =~= lower_bytes(t));
}

} // verus!
