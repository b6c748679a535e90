//! Converting text to and from other encodings: URL escapes, HTML entities and byte
//! arrays (UTF-8 and UTF-16LE; the ANSI code page is the operating system's and is
//! left to the caller).

use vstd::prelude::*;
use vstd::utf8::*;
use vstd::slice::slice_to_vec;
use crate::args::{NumValue, ObjectModel, TwoTypeArg};
use crate::builtin_args::{
    const_of, const_reading, num_const, opt_view, outcome, required, string_or_bytearray_reading,
    string_reading, with_default, with_flag, BuiltInResult, BuiltinFuncArgs, ConstEnum,
};
use crate::error::ErrorModel;
use crate::std_calls::{string_from_utf16_lossy, string_from_utf8_lossy, utf16_lossy, utf16_of, utf16_of_char, utf8_lossy};
use crate::strings::chars_of;
use htmlentity::entity::{CharacterSet, EncodeType};

verus! {

broadcast use vstd::string::group_string_axioms;

/// The encodings that `encode` and `decode` know.
#[allow(non_camel_case_types)]
#[derive(PartialEq, Eq, Clone, Copy, Structural)]
pub enum CodeConst {
    CODE_ANSI,
    CODE_URL,
    CODE_UTF8,
    CODE_HTML,
    CODE_BYTEARRAY,
    CODE_BYTEARRAYW,
    CODE_BYTEARRAYU,
}

impl CodeConst {
    /// The number of each encoding.
    pub open spec fn number(self) -> int {
        match self {
            CodeConst::CODE_ANSI => 1,
            CodeConst::CODE_URL => 2,
            CodeConst::CODE_UTF8 => 3,
            CodeConst::CODE_HTML => 4,
            CodeConst::CODE_BYTEARRAY => 5,
            CodeConst::CODE_BYTEARRAYW => 6,
            CodeConst::CODE_BYTEARRAYU => 7,
        }
    }

    /// The number of this encoding.
    pub fn value(&self) -> (r: i64)
        ensures
            r == self.number(),
    {
        match self {
            CodeConst::CODE_ANSI => 1,
            CodeConst::CODE_URL => 2,
            CodeConst::CODE_UTF8 => 3,
            CodeConst::CODE_HTML => 4,
            CodeConst::CODE_BYTEARRAY => 5,
            CodeConst::CODE_BYTEARRAYW => 6,
            CodeConst::CODE_BYTEARRAYU => 7,
        }
    }

    /// The encoding a script number selects, UTF-8 when it selects none.
    pub fn from_num(n: NumValue) -> (r: CodeConst)
        ensures
            r == (match num_const::<CodeConst>(n) {
                Some(c) => c,
                None => CodeConst::CODE_UTF8,
            }),
    {
        match const_of::<CodeConst>(n) {
            Some(c) => c,
            None => CodeConst::CODE_UTF8,
        }
    }
}

impl ConstEnum for CodeConst {
    open spec fn of_value(n: int) -> Option<CodeConst> {
        if n == 1 {
            Some(CodeConst::CODE_ANSI)
        } else if n == 2 {
            Some(CodeConst::CODE_URL)
        } else if n == 3 {
            Some(CodeConst::CODE_UTF8)
        } else if n == 4 {
            Some(CodeConst::CODE_HTML)
        } else if n == 5 {
            Some(CodeConst::CODE_BYTEARRAY)
        } else if n == 6 {
            Some(CodeConst::CODE_BYTEARRAYW)
        } else if n == 7 {
            Some(CodeConst::CODE_BYTEARRAYU)
        } else {
            None
        }
    }

    fn from_value(n: i64) -> (r: Option<CodeConst>) {
        if n == 1 {
            Some(CodeConst::CODE_ANSI)
        } else if n == 2 {
            Some(CodeConst::CODE_URL)
        } else if n == 3 {
            Some(CodeConst::CODE_UTF8)
        } else if n == 4 {
            Some(CodeConst::CODE_HTML)
        } else if n == 5 {
            Some(CodeConst::CODE_BYTEARRAY)
        } else if n == 6 {
            Some(CodeConst::CODE_BYTEARRAYW)
        } else if n == 7 {
            Some(CodeConst::CODE_BYTEARRAYU)
        } else {
            None
        }
    }
}

// ----- URL escapes -----

/// Whether byte `b` stands for itself in a URL: ASCII letters and digits, `-`, `.`,
/// `_` and `~`.
pub open spec fn url_safe(b: u8) -> bool {
    ||| 0x30 <= b <= 0x39
    ||| 0x41 <= b <= 0x5A
    ||| 0x61 <= b <= 0x7A
    ||| b == 0x2D
    ||| b == 0x2E
    ||| b == 0x5F
    ||| b == 0x7E
}

/// The upper-case hexadecimal digit for `d` in `0..16`.
pub open spec fn hex_digit(d: int) -> char {
    if d < 10 {
        (0x30 + d) as char
    } else {
        (0x41 + d - 10) as char
    }
}

/// A byte sequence percent-encoded: safe bytes as they are, every other byte as `%`
/// and two upper-case hexadecimal digits.
pub open spec fn url_escaped(b: Seq<u8>) -> Seq<char>
    decreases b.len(),
{
    if b.len() == 0 {
        Seq::empty()
    } else {
        let x = b[0];
        let head = if url_safe(x) {
            seq![x as char]
        } else {
            seq!['%', hex_digit(x as int / 16), hex_digit(x as int % 16)]
        };
        head + url_escaped(b.drop_first())
    }
}

/// The value of a hexadecimal digit of either case.
pub open spec fn hex_value(b: u8) -> Option<u8> {
    if 0x30 <= b <= 0x39 {
        Some((b - 0x30) as u8)
    } else if 0x41 <= b <= 0x46 {
        Some((b - 0x41 + 10) as u8)
    } else if 0x61 <= b <= 0x66 {
        Some((b - 0x61 + 10) as u8)
    } else {
        None
    }
}

/// A byte sequence with its percent escapes undone: `%` and two hexadecimal digits
/// become the byte they spell; a `%` not followed by two such digits stays as it is.
pub open spec fn url_unescaped(b: Seq<u8>) -> Seq<u8>
    decreases b.len(),
{
    if b.len() == 0 {
        Seq::empty()
    } else if b[0] != 0x25 {
        seq![b[0]] + url_unescaped(b.drop_first())
    } else if b.len() < 3 {
        b
    } else {
        match (hex_value(b[1]), hex_value(b[2])) {
            (Some(h), Some(l)) => seq![(h * 16 + l) as u8] + url_unescaped(b.subrange(3, b.len() as int)),
            (Some(_), None) => seq![0x25u8, b[1]] + url_unescaped(b.subrange(2, b.len() as int)),
            _ => seq![0x25u8] + url_unescaped(b.drop_first()),
        }
    }
}

/// `urlencoding::encode`: percent-encodes the UTF-8 bytes of `s`; every byte but ASCII
/// letters, digits, `-`, `.`, `_` and `~` becomes `%` and two upper-case hex digits.
#[verifier::external_body]
fn url_encode(s: &str) -> (r: String)
    ensures
        r@ == url_escaped(encode_utf8(s@)),
{
    urlencoding::encode(s).into_owned()
}

/// `urlencoding::decode`: undoes the percent escapes of the UTF-8 bytes of `s` (a `%`
/// without two hex digits stays, `+` stays) and reads the bytes as UTF-8; fails when
/// they are not valid UTF-8.
#[verifier::external_body]
fn url_decode(s: &str) -> (r: Option<String>)
    ensures
        match r {
            Some(d) => valid_utf8(url_unescaped(encode_utf8(s@))) && d@ == decode_utf8(url_unescaped(encode_utf8(s@))),
            None => !valid_utf8(url_unescaped(encode_utf8(s@))),
        },
{
    match urlencoding::decode(s) {
        Ok(d) => Some(d.into_owned()),
        Err(_) => None,
    }
}

// ----- HTML entities -----

/// How `htmlentity` writes an entity.
#[derive(PartialEq, Eq, Clone, Copy, Structural)]
pub enum EntityStyle {
    Named,
    Hex,
    Decimal,
    NamedOrHex,
    NamedOrDecimal,
}

/// Which characters `htmlentity` writes as entities.
#[derive(PartialEq, Eq, Clone, Copy, Structural)]
pub enum EntitySet {
    All,
    NonASCII,
    Html,
    SpecialChars,
    HtmlAndNonASCII,
    SpecialCharsAndNonASCII,
}

/// The named entity of a special character, if it is one of `<`, `>`, `&`, `'`, `"`.
pub open spec fn special_entity(c: char) -> Option<Seq<char>> {
    if c == '<' {
        Some(seq!['&', 'l', 't', ';'])
    } else if c == '>' {
        Some(seq!['&', 'g', 't', ';'])
    } else if c == '&' {
        Some(seq!['&', 'a', 'm', 'p', ';'])
    } else if c == '\'' {
        Some(seq!['&', 'a', 'p', 'o', 's', ';'])
    } else if c == '"' {
        Some(seq!['&', 'q', 'u', 'o', 't', ';'])
    } else {
        None
    }
}

/// Text with its special characters written as named entities.
pub open spec fn html_escaped(cs: Seq<char>) -> Seq<char>
    decreases cs.len(),
{
    if cs.len() == 0 {
        Seq::empty()
    } else {
        let head = match special_entity(cs[0]) {
            Some(e) => e,
            None => seq![cs[0]],
        };
        head + html_escaped(cs.drop_first())
    }
}

/// What `htmlentity::entity::encode` makes of `content` (read as text), `None` when it
/// fails.
pub uninterp spec fn html_encoded(content: Seq<u8>, style: EntityStyle, set: EntitySet) -> Option<Seq<char>>;

/// What `htmlentity::entity::decode` makes of `content` (read as text), `None` when it
/// fails.
pub uninterp spec fn html_decoded(content: Seq<u8>) -> Option<Seq<char>>;

/// `htmlentity::entity::encode` read as a string. The result is named; the contract
/// states the case the crate documents with an example: UTF-8 text with named entities
/// for the special characters `<`, `>`, `&`, `'` and `"` comes back with each of them
/// replaced by its entity. Other styles and sets are left to the name.
#[verifier::external_body]
fn html_encode(content: &[u8], style: EntityStyle, set: EntitySet) -> (r: Option<String>)
    ensures
        opt_view(r, |t: String| t@) == html_encoded(content@, style, set),
        valid_utf8(content@) && style == EntityStyle::Named && set == EntitySet::SpecialChars
            ==> opt_view(r, |t: String| t@) == Some(html_escaped(decode_utf8(content@))),
{
    let style = match style {
        EntityStyle::Named => EncodeType::Named, EntityStyle::Hex => EncodeType::Hex,
        EntityStyle::Decimal => EncodeType::Decimal, EntityStyle::NamedOrHex => EncodeType::NamedOrHex,
        EntityStyle::NamedOrDecimal => EncodeType::NamedOrDecimal,
    };
    let set = match set {
        EntitySet::All => CharacterSet::All, EntitySet::NonASCII => CharacterSet::NonASCII,
        EntitySet::Html => CharacterSet::Html, EntitySet::SpecialChars => CharacterSet::SpecialChars,
        EntitySet::HtmlAndNonASCII => CharacterSet::HtmlAndNonASCII,
        EntitySet::SpecialCharsAndNonASCII => CharacterSet::SpecialCharsAndNonASCII,
    };
    let result: htmlentity::types::StringResult = htmlentity::entity::encode(content, &style, &set).into();
    result.ok()
}

/// `htmlentity::entity::decode` read as a string. The result is named; the contract
/// states only that UTF-8 text without any `&` comes back as it is.
#[verifier::external_body]
fn html_decode(content: &[u8]) -> (r: Option<String>)
    ensures
        opt_view(r, |t: String| t@) == html_decoded(content@),
        valid_utf8(content@) && !content@.contains(0x26u8) ==> opt_view(r, |t: String| t@) == Some(decode_utf8(content@)),
{
    let result: htmlentity::types::StringResult = htmlentity::entity::decode(content).into();
    result.ok()
}

// ----- byte arrays -----

/// UTF-16 code units written as little-endian byte pairs.
pub open spec fn le_bytes(u: Seq<u16>) -> Seq<u8>
    decreases u.len(),
{
    if u.len() == 0 {
        Seq::empty()
    } else {
        le_bytes(u.drop_last()) + seq![(u.last() % 256) as u8, (u.last() / 256) as u8]
    }
}

/// Bytes read as little-endian UTF-16 code units; an odd last byte is dropped.
pub open spec fn le_units(b: Seq<u8>) -> Seq<u16> {
    Seq::new(b.len() / 2, |k: int| (b[2 * k] + 256 * b[2 * k + 1]) as u16)
}

/// The UTF-8 bytes of `s`.
pub fn as_byte(s: &str) -> (r: Vec<u8>)
    ensures
        r@ == encode_utf8(s@),
{
    slice_to_vec(s.as_bytes())
}

/// Bytes read as UTF-8: the characters they encode when they are valid UTF-8, else
/// what lossy decoding makes of them.
pub open spec fn utf8_text(b: Seq<u8>) -> Seq<char> {
    if valid_utf8(b) {
        decode_utf8(b)
    } else {
        utf8_lossy(b)
    }
}

/// Bytes read as UTF-8, invalid sequences replaced.
pub fn from_byte(b: &[u8]) -> (r: String)
    ensures
        r@ == utf8_text(b@),
{
    string_from_utf8_lossy(b)
}

/// The UTF-16 code units of one character.
fn char_units(c: char) -> (r: (u16, Option<u16>))
    ensures
        utf16_of_char(c) == (match r.1 {
            Some(lo) => seq![r.0, lo],
            None => seq![r.0],
        }),
{
    let n = c as u32;
    if n < 0x10000 {
        (n as u16, None)
    } else {
        let m = n - 0x10000;
        assert(m < 0x100000);
        ((0xD800 + m / 0x400) as u16, Some((0xDC00 + m % 0x400) as u16))
    }
}

/// Appends the little-endian bytes of one code unit.
fn push_unit(out: &mut Vec<u8>, u: u16)
    ensures
        final(out)@ == old(out)@ + seq![(u % 256) as u8, (u / 256) as u8],
{
    out.push((u % 256) as u8);
    out.push((u / 256) as u8);
}

proof fn lemma_le_bytes_push(u: Seq<u16>, x: u16)
    ensures
        le_bytes(u.push(x)) == le_bytes(u) + seq![(x % 256) as u8, (x / 256) as u8],
{
    assert(u.push(x).drop_last() =~= u);
}

/// The UTF-16LE bytes of `s`.
pub fn as_wide(s: &str) -> (r: Vec<u8>)
    ensures
        r@ == le_bytes(utf16_of(s@)),
{
    let cs = chars_of(s);
    let mut out: Vec<u8> = Vec::new();
    let mut k: usize = 0;
    while k < cs.len()
        invariant
            k <= cs.len(),
            cs@ == s@,
            out@ == le_bytes(utf16_of(cs@.take(k as int))),
        decreases cs.len() - k,
    {
        let c = cs[k];
        let (hi, lo) = char_units(c);
        let ghost u0 = utf16_of(cs@.take(k as int));
        push_unit(&mut out, hi);
        proof {
            lemma_le_bytes_push(u0, hi);
        }
        match lo {
            Some(l) => {
                push_unit(&mut out, l);
                proof {
                    lemma_le_bytes_push(u0.push(hi), l);
                }
            },
            None => {},
        }
        proof {
            let t = cs@.take(k + 1);
            assert(t.drop_last() =~= cs@.take(k as int));
            assert(t.last() == c);
            match lo {
                Some(l) => {
                    assert(utf16_of(t) =~= u0.push(hi).push(l));
                },
                None => {
                    assert(utf16_of(t) =~= u0.push(hi));
                },
            }
        }
        k = k + 1;
    }
    assert(cs@.take(k as int) =~= s@);
    out
}

/// Bytes read as little-endian UTF-16 code units.
pub fn wide_units(b: &[u8]) -> (r: Vec<u16>)
    ensures
        r@ == le_units(b@),
{
    let mut r: Vec<u16> = Vec::new();
    let len = b.len();
    let n = len / 2;
    let mut k: usize = 0;
    while k < n
        invariant
            k <= n,
            len == b@.len(),
            n == len / 2,
            r@ =~= le_units(b@).take(k as int),
        decreases n - k,
    {
        assert(2 * k + 1 < len) by (nonlinear_arith)
            requires
                k < n,
                n == len / 2;
        let lo = b[2 * k] as u32;
        let hi = b[2 * k + 1] as u32;
        let u = (lo + 256 * hi) as u16;
        r.push(u);
        k = k + 1;
    }
    r
}

/// UTF-16LE bytes read as text, unpaired surrogates replaced; an odd last byte is
/// dropped.
pub fn from_wide(b: &[u8]) -> (r: String)
    ensures
        r@ == utf16_lossy(le_units(b@)),
{
    let units = wide_units(b);
    string_from_utf16_lossy(units.as_slice())
}

// ----- encode and decode -----

/// What `encode` gives.
pub enum Encoded {
    /// A string.
    Text(String),
    /// A byte array.
    Bytes(Vec<u8>),
    /// The text is to be converted to the system's ANSI code page.
    Ansi(String),
}

/// What `encode` gives, as plain values.
pub enum EncodedModel {
    Text(Seq<char>),
    Bytes(Seq<u8>),
    Ansi(Seq<char>),
}

impl Encoded {
    pub open spec fn model(&self) -> EncodedModel {
        match self {
            Encoded::Text(s) => EncodedModel::Text(s@),
            Encoded::Bytes(b) => EncodedModel::Bytes(b@),
            Encoded::Ansi(s) => EncodedModel::Ansi(s@),
        }
    }
}

/// Text encoded as `code` asks; with no code the text is returned as it is.
pub open spec fn encode_spec(s: Seq<char>, code: Option<CodeConst>) -> EncodedModel {
    match code {
        None => EncodedModel::Text(s),
        Some(c) => match c {
            CodeConst::CODE_ANSI | CodeConst::CODE_UTF8 => EncodedModel::Text(s),
            CodeConst::CODE_URL => EncodedModel::Text(url_escaped(encode_utf8(s))),
            CodeConst::CODE_HTML => EncodedModel::Text(html_escaped(s)),
            CodeConst::CODE_BYTEARRAY => EncodedModel::Ansi(s),
            CodeConst::CODE_BYTEARRAYW => EncodedModel::Bytes(le_bytes(utf16_of(s))),
            CodeConst::CODE_BYTEARRAYU => EncodedModel::Bytes(encode_utf8(s)),
        },
    }
}

/// Encodes `s` as `code` asks (see `encode_spec`).
pub fn encode_text(s: &str, code: Option<CodeConst>) -> (r: Encoded)
    ensures
        r.model() == encode_spec(s@, code),
{
    match code {
        None => Encoded::Text(s.to_owned()),
        Some(c) => match c {
            CodeConst::CODE_ANSI => Encoded::Text(s.to_owned()),
            CodeConst::CODE_UTF8 => Encoded::Text(s.to_owned()),
            CodeConst::CODE_URL => Encoded::Text(url_encode(s)),
            CodeConst::CODE_HTML => {
                proof {
                    encode_utf8_valid_utf8(s@);
                    encode_utf8_decode_utf8(s@);
                }
                match html_encode(s.as_bytes(), EntityStyle::Named, EntitySet::SpecialChars) {
                    Some(t) => Encoded::Text(t),
                    None => Encoded::Text(s.to_owned()),
                }
            },
            CodeConst::CODE_BYTEARRAY => Encoded::Ansi(s.to_owned()),
            CodeConst::CODE_BYTEARRAYW => Encoded::Bytes(as_wide(s)),
            CodeConst::CODE_BYTEARRAYU => Encoded::Bytes(as_byte(s)),
        },
    }
}

/// What `decode` gives.
pub enum Decoded {
    /// A string.
    Text(String),
    /// EMPTY.
    Empty,
    /// The bytes are to be read in the system's ANSI code page.
    Ansi(Vec<u8>),
}

/// What `decode` gives, as plain values.
pub enum DecodedModel {
    Text(Seq<char>),
    Empty,
    Ansi(Seq<u8>),
}

impl Decoded {
    pub open spec fn model(&self) -> DecodedModel {
        match self {
            Decoded::Text(s) => DecodedModel::Text(s@),
            Decoded::Empty => DecodedModel::Empty,
            Decoded::Ansi(b) => DecodedModel::Ansi(b@),
        }
    }
}

/// A string or byte array decoded as `code` asks: strings from URL escapes or HTML
/// entities, byte arrays from UTF-16LE or UTF-8; what does not fit the code gives EMPTY
/// (a string given an encoding it has no decoder for is returned as it is).
pub open spec fn decode_spec(v: TwoTypeArg<Seq<char>, Seq<u8>>, code: Option<CodeConst>) -> DecodedModel {
    match code {
        None => DecodedModel::Empty,
        Some(c) => match v {
            TwoTypeArg::T(s) => match c {
                CodeConst::CODE_URL => {
                    let b = url_unescaped(encode_utf8(s));
                    if valid_utf8(b) {
                        DecodedModel::Text(decode_utf8(b))
                    } else {
                        DecodedModel::Empty
                    }
                },
                CodeConst::CODE_HTML => match html_decoded(encode_utf8(s)) {
                    Some(t) => DecodedModel::Text(t),
                    None => DecodedModel::Text(s),
                },
                _ => DecodedModel::Text(s),
            },
            TwoTypeArg::U(b) => match c {
                CodeConst::CODE_BYTEARRAY => DecodedModel::Ansi(b),
                CodeConst::CODE_BYTEARRAYW => DecodedModel::Text(utf16_lossy(le_units(b))),
                CodeConst::CODE_BYTEARRAYU => DecodedModel::Text(utf8_text(b)),
                _ => DecodedModel::Empty,
            },
        },
    }
}

/// The view of a string-or-bytes value.
pub open spec fn text_or_bytes(v: TwoTypeArg<String, Vec<u8>>) -> TwoTypeArg<Seq<char>, Seq<u8>> {
    match v {
        TwoTypeArg::T(s) => TwoTypeArg::T(s@),
        TwoTypeArg::U(b) => TwoTypeArg::U(b@),
    }
}

/// Decodes `v` as `code` asks (see `decode_spec`).
pub fn decode_value(v: TwoTypeArg<String, Vec<u8>>, code: Option<CodeConst>) -> (r: Decoded)
    ensures
        r.model() == decode_spec(text_or_bytes(v), code),
{
    match code {
        None => Decoded::Empty,
        Some(c) => match v {
            TwoTypeArg::T(s) => match c {
                CodeConst::CODE_URL => match url_decode(s.as_str()) {
                    Some(d) => Decoded::Text(d),
                    None => Decoded::Empty,
                },
                CodeConst::CODE_HTML => match html_decode(s.as_str().as_bytes()) {
                    Some(d) => Decoded::Text(d),
                    None => Decoded::Text(s),
                },
                _ => Decoded::Text(s),
            },
            TwoTypeArg::U(b) => match c {
                CodeConst::CODE_BYTEARRAY => Decoded::Ansi(b),
                CodeConst::CODE_BYTEARRAYW => Decoded::Text(from_wide(b.as_slice())),
                CodeConst::CODE_BYTEARRAYU => Decoded::Text(from_byte(b.as_slice())),
                _ => Decoded::Empty,
            },
        },
    }
}

/// The `encode` builtin: argument 0 is the text, argument 1 the encoding.
pub open spec fn encode_call(objs: Seq<ObjectModel>) -> Result<EncodedModel, ErrorModel> {
    match with_default(objs, 0, None, |o: ObjectModel| string_reading(o, 0)) {
        Err(e) => Err(e),
        Ok(s) => match with_flag(objs, 1, true, |o: ObjectModel| const_reading::<CodeConst>(o)) {
            Err(e) => Err(e),
            Ok(c) => Ok(encode_spec(s, c)),
        },
    }
}

/// The `encode` builtin (see `encode_call`).
pub fn encode(args: &BuiltinFuncArgs) -> (r: BuiltInResult<Encoded>)
    ensures
        outcome(r, |e: Encoded| e.model()) == encode_call(args.objects()),
{
    let s = match args.get_as_string(0, None) {
        Ok(s) => s,
        Err(e) => return Err(e),
    };
    let code = match args.get_as_const::<CodeConst>(1, true) {
        Ok(c) => c,
        Err(e) => return Err(e),
    };
    Ok(encode_text(s.as_str(), code))
}

/// The `decode` builtin: argument 0 is a string or byte array, argument 1 the encoding.
pub open spec fn decode_call(objs: Seq<ObjectModel>) -> Result<DecodedModel, ErrorModel> {
    match required(objs, 0, |o: ObjectModel| string_or_bytearray_reading(o)) {
        Err(e) => Err(e),
        Ok(v) => match with_flag(objs, 1, true, |o: ObjectModel| const_reading::<CodeConst>(o)) {
            Err(e) => Err(e),
            Ok(c) => Ok(decode_spec(v, c)),
        },
    }
}

/// The `decode` builtin (see `decode_call`).
pub fn decode(args: &BuiltinFuncArgs) -> (r: BuiltInResult<Decoded>)
    ensures
        outcome(r, |d: Decoded| d.model()) == decode_call(args.objects()),
{
    let v = match args.get_as_string_or_bytearray(0) {
        Ok(v) => v,
        Err(e) => return Err(e),
    };
    let code = match args.get_as_const::<CodeConst>(1, true) {
        Ok(c) => c,
        Err(e) => return Err(e),
    };
    Ok(decode_value(v, code))
}

} // verus!

verus! {

/// The bytes of ASCII characters.
pub open spec fn ascii_bytes(cs: Seq<char>) -> Seq<u8> {
    cs.map_values(|c: char| c as u8)
}

proof fn lemma_hex_digit(d: int)
    requires
        0 <= d < 16,
    ensures
        '\0' <= hex_digit(d) <= '\u{7f}',
        hex_value(hex_digit(d) as u8) == Some(d as u8),
        hex_digit(d) as u8 != 0x25u8,
{
}

/// URL escaping writes ASCII characters only.
pub proof fn law_url_escaped_ascii(b: Seq<u8>)
    ensures
        is_ascii_chars(url_escaped(b)),
    decreases b.len(),
{
    if b.len() > 0 {
        let x = b[0];
        law_url_escaped_ascii(b.drop_first());
        lemma_hex_digit(x as int / 16);
        lemma_hex_digit(x as int % 16);
        let head = if url_safe(x) {
            seq![x as char]
        } else {
            seq!['%', hex_digit(x as int / 16), hex_digit(x as int % 16)]
        };
        assert(is_ascii_chars(head));
        assert(url_escaped(b) == head + url_escaped(b.drop_first()));
        vstd::utf8::is_ascii_chars_concat(url_escaped(b), head, url_escaped(b.drop_first()));
    }
}

proof fn lemma_url_unescape_escaped(b: Seq<u8>)
    ensures
        url_unescaped(ascii_bytes(url_escaped(b))) == b,
    decreases b.len(),
{
    if b.len() == 0 {
        assert(ascii_bytes(url_escaped(b)) =~= Seq::<u8>::empty());
    } else {
        let x = b[0];
        let rest = b.drop_first();
        lemma_url_unescape_escaped(rest);
        let tail = ascii_bytes(url_escaped(rest));
        if url_safe(x) {
            let e = ascii_bytes(url_escaped(b));
            assert(e =~= seq![x] + tail);
            assert(e.drop_first() =~= tail);
            assert(url_unescaped(e) == seq![x] + url_unescaped(tail));
            assert(seq![x] + rest =~= b);
        } else {
            let h = x as int / 16;
            let l = x as int % 16;
            lemma_hex_digit(h);
            lemma_hex_digit(l);
            let e = ascii_bytes(url_escaped(b));
            assert(e =~= seq![0x25u8, hex_digit(h) as u8, hex_digit(l) as u8] + tail);
            assert(e.subrange(3, e.len() as int) =~= tail);
            assert((h * 16 + l) as u8 == x);
            assert(url_unescaped(e) == seq![x] + url_unescaped(tail));
            assert(seq![x] + rest =~= b);
        }
    }
}

/// Decoding the URL escapes that `encode` wrote gives back the text it was given.
pub proof fn law_url_roundtrip(s: Seq<char>)
    ensures
        encode_spec(s, Some(CodeConst::CODE_URL)) matches EncodedModel::Text(e)
            && decode_spec(TwoTypeArg::T(e), Some(CodeConst::CODE_URL)) == DecodedModel::Text(s),
{
    let b = encode_utf8(s);
    let e = url_escaped(b);
    law_url_escaped_ascii(b);
    vstd::utf8::is_ascii_chars_encode_utf8(e);
    assert(encode_utf8(e) =~= ascii_bytes(e));
    lemma_url_unescape_escaped(b);
    encode_utf8_valid_utf8(s);
    encode_utf8_decode_utf8(s);
}


/// Reading back the UTF-8 bytes that `encode` wrote gives the text it was given.
pub proof fn law_utf8_roundtrip(s: Seq<char>)
    ensures
        encode_spec(s, Some(CodeConst::CODE_BYTEARRAYU)) matches EncodedModel::Bytes(b)
            && decode_spec(TwoTypeArg::U(b), Some(CodeConst::CODE_BYTEARRAYU)) == DecodedModel::Text(s),
{
    encode_utf8_valid_utf8(s);
    encode_utf8_decode_utf8(s);
}

/// Reading UTF-16LE bytes back as code units gives the units they were written from.
pub proof fn law_wide_units_roundtrip(u: Seq<u16>)
    ensures
        le_units(le_bytes(u)) == u,
    decreases u.len(),
{
    if u.len() > 0 {
        let p = u.drop_last();
        law_wide_units_roundtrip(p);
        lemma_le_bytes_len(p);
        let b = le_bytes(u);
        assert(b == le_bytes(p) + seq![(u.last() % 256) as u8, (u.last() / 256) as u8]);
        assert forall|k: int| 0 <= k < u.len() implies le_units(b)[k] == u[k] by {
            if k < u.len() - 1 {
                assert(b[2 * k] == le_bytes(p)[2 * k]);
                assert(b[2 * k + 1] == le_bytes(p)[2 * k + 1]);
                assert(le_units(le_bytes(p))[k] == p[k]);
            } else {
                assert(b[2 * k] == (u.last() % 256) as u8);
                assert(b[2 * k + 1] == (u.last() / 256) as u8);
            }
        }
        assert(le_units(b) =~= u);
    } else {
        assert(le_units(le_bytes(u)) =~= u);
    }
}

proof fn lemma_le_bytes_len(u: Seq<u16>)
    ensures
        le_bytes(u).len() == 2 * u.len(),
    decreases u.len(),
{
    if u.len() > 0 {
        lemma_le_bytes_len(u.drop_last());
    }
}


/// Whether `c` is one of the five characters HTML escaping replaces.
pub open spec fn html_special(c: char) -> bool {
    c == '<' || c == '>' || c == '&' || c == '\'' || c == '"'
}

/// HTML escaping works character by character: escaping two texts one after the other
/// is escaping each and joining; a text without `<`, `>`, `&`, `'` or `"` is kept as it
/// is; and no `<`, `>`, `'` or `"` is left in what it writes.
pub proof fn law_html_escape_by_character(a: Seq<char>, b: Seq<char>)
    ensures
        html_escaped(a + b) == html_escaped(a) + html_escaped(b),
        (forall|k: int| 0 <= k < a.len() ==> !html_special(#[trigger] a[k])) ==> html_escaped(a) == a,
        forall|k: int| 0 <= k < html_escaped(a).len() ==> {
            let c = #[trigger] html_escaped(a)[k];
            c != '<' && c != '>' && c != '\'' && c != '"'
        },
    decreases a.len(),
{
    if a.len() == 0 {
        assert(a + b =~= b);
        assert(html_escaped(a) =~= Seq::<char>::empty());
    } else {
        let rest = a.drop_first();
        law_html_escape_by_character(rest, b);
        assert((a + b).drop_first() =~= rest + b);
        assert((a + b)[0] == a[0]);
        let head = match special_entity(a[0]) {
            Some(e) => e,
            None => seq![a[0]],
        };
        assert(html_escaped(a + b) == head + html_escaped(rest + b));
        assert(html_escaped(a) == head + html_escaped(rest));
        assert(head + (html_escaped(rest) + html_escaped(b)) =~= (head + html_escaped(rest)) + html_escaped(b));
        if forall|k: int| 0 <= k < a.len() ==> !html_special(#[trigger] a[k]) {
            assert(!html_special(a[0]));
            assert forall|k: int| 0 <= k < rest.len() implies !html_special(#[trigger] rest[k]) by {
                assert(rest[k] == a[k + 1]);
            }
            assert(seq![a[0]] + rest =~= a);
        }
        assert forall|k: int| 0 <= k < html_escaped(a).len() implies {
            let c = #[trigger] html_escaped(a)[k];
            c != '<' && c != '>' && c != '\'' && c != '"'
        } by {
            if k < head.len() {
                assert(html_escaped(a)[k] == head[k]);
            } else {
                assert(html_escaped(a)[k] == html_escaped(rest)[k - head.len()]);
            }
        }
    }
}

/// UTF-16LE writes each unit as two bytes, the low byte first: two bytes per unit, the
/// unit `u` at offset `2k` as `u % 256` then `u / 256`, and the bytes of two unit
/// sequences one after the other are the bytes of each, joined.
pub proof fn law_le_bytes_low_first(u: Seq<u16>, w: Seq<u16>)
    ensures
        le_bytes(u).len() == 2 * u.len(),
        forall|k: int| 0 <= k < u.len() ==> le_bytes(u)[2 * k] == (u[k] % 256) as u8
            && le_bytes(u)[2 * k + 1] == (u[k] / 256) as u8,
        le_bytes(u + w) == le_bytes(u) + le_bytes(w),
    decreases w.len(), u.len(),
{
    lemma_le_bytes_len(u);
    if u.len() > 0 {
        let p = u.drop_last();
        law_le_bytes_low_first(p, Seq::<u16>::empty());
        lemma_le_bytes_len(p);
        assert forall|k: int| 0 <= k < u.len() implies le_bytes(u)[2 * k] == (u[k] % 256) as u8
            && le_bytes(u)[2 * k + 1] == (u[k] / 256) as u8 by {
            if k < u.len() - 1 {
                assert(le_bytes(u)[2 * k] == le_bytes(p)[2 * k]);
                assert(le_bytes(u)[2 * k + 1] == le_bytes(p)[2 * k + 1]);
                assert(p[k] == u[k]);
            }
        }
    }
    if w.len() > 0 {
        let q = w.drop_last();
        law_le_bytes_low_first(u, q);
        assert((u + w).drop_last() =~= u + q);
        assert((u + w).last() == w.last());
        let tail = seq![(w.last() % 256) as u8, (w.last() / 256) as u8];
        assert(le_bytes(u) + le_bytes(q) + tail =~= le_bytes(u) + (le_bytes(q) + tail));
    } else {
        assert(u + w =~= u);
        assert(le_bytes(w) =~= Seq::<u8>::empty());
        assert(le_bytes(u) + le_bytes(w) =~= le_bytes(u));
    }
}
} // verus!
