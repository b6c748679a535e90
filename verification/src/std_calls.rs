//! Contracts for the few standard-library string conversions that vstd leaves
//! unspecified. Each is a thin call whose contract restates the documentation.

use vstd::prelude::*;
use vstd::utf8::*;

verus! {

/// `String::push`: appends one character.
#[verifier::external_body]
pub fn push_char(s: &mut String, c: char)
    ensures
        final(s)@ == old(s)@.push(c),
{
    s.push(c);
}

/// Whether `n` is the code of a Unicode scalar value (a `char`).
pub open spec fn is_scalar_code(n: u32) -> bool {
    n < 0xD800 || (0xDFFF < n && n <= 0x10FFFF)
}

/// `char::from_u32`: the character with code `n`, if `n` is a scalar value.
#[verifier::external_body]
pub fn char_from_code(n: u32) -> (r: Option<char>)
    ensures
        r is Some <==> is_scalar_code(n),
        r matches Some(c) ==> c as u32 == n,
{
    char::from_u32(n)
}

/// What `String::from_utf8_lossy` makes of a byte sequence.
pub uninterp spec fn utf8_lossy(b: Seq<u8>) -> Seq<char>;

/// `String::from_utf8_lossy`: decodes UTF-8, putting U+FFFD in place of invalid
/// sequences. The contract states the valid case exactly and names the result otherwise;
/// which replacement characters appear for invalid input is left unsaid.
#[verifier::external_body]
pub fn string_from_utf8_lossy(b: &[u8]) -> (r: String)
    ensures
        r@ == utf8_lossy(b@),
        valid_utf8(b@) ==> r@ == decode_utf8(b@),
{
    String::from_utf8_lossy(b).into_owned()
}

/// What `String::from_utf16_lossy` makes of a sequence of UTF-16 code units.
pub uninterp spec fn utf16_lossy(v: Seq<u16>) -> Seq<char>;

/// The UTF-16 code units of one character.
pub open spec fn utf16_of_char(c: char) -> Seq<u16> {
    let n = c as u32;
    if n < 0x10000 {
        seq![n as u16]
    } else {
        let m = (n - 0x10000) as u32;
        seq![(0xD800 + m / 0x400) as u16, (0xDC00 + m % 0x400) as u16]
    }
}

/// The UTF-16 code units of a character sequence.
pub open spec fn utf16_of(cs: Seq<char>) -> Seq<u16>
    decreases cs.len(),
{
    if cs.len() == 0 {
        Seq::empty()
    } else {
        utf16_of(cs.drop_last()) + utf16_of_char(cs.last())
    }
}

/// `String::from_utf16_lossy`: decodes UTF-16, putting U+FFFD in place of unpaired
/// surrogates. The contract states that well-formed input decodes to the characters it
/// encodes and names the result otherwise; the replacement characters for ill-formed
/// input are left unsaid.
#[verifier::external_body]
pub fn string_from_utf16_lossy(v: &[u16]) -> (r: String)
    ensures
        r@ == utf16_lossy(v@),
        forall|cs: Seq<char>| v@ == utf16_of(cs) ==> r@ == cs,
{
    String::from_utf16_lossy(v)
}

} // verus!
