//! `strconv`: case, kana and width conversion of Japanese text with `kanaria`.
//!
//! The option number sets at most one case, one kana and one width conversion; the
//! conversions are handed to `kanaria` in a fixed order so that a width change can follow
//! a kana or case change and the other way round.

use vstd::prelude::*;
use kanaria::string::UCSStr;
use crate::std_calls::is_scalar_code;

verus! {

/// The conversion flags of `strconv`.
#[allow(non_camel_case_types)]
#[derive(PartialEq, Eq, Clone, Copy, Structural)]
pub enum StrconvConst {
    SC_LOWERCASE,
    SC_UPPERCASE,
    SC_HIRAGANA,
    SC_KATAKANA,
    SC_HALFWIDTH,
    SC_FULLWIDTH,
}

impl StrconvConst {
    /// The bit of each flag.
    pub open spec fn bit(self) -> u32 {
        match self {
            StrconvConst::SC_LOWERCASE => 0x100,
            StrconvConst::SC_UPPERCASE => 0x200,
            StrconvConst::SC_HIRAGANA => 0x100000,
            StrconvConst::SC_KATAKANA => 0x200000,
            StrconvConst::SC_HALFWIDTH => 0x400000,
            StrconvConst::SC_FULLWIDTH => 0x800000,
        }
    }

    /// The bit of this flag.
    pub fn value(&self) -> (r: u32)
        ensures
            r == self.bit(),
    {
        match self {
            StrconvConst::SC_LOWERCASE => 0x100,
            StrconvConst::SC_UPPERCASE => 0x200,
            StrconvConst::SC_HIRAGANA => 0x100000,
            StrconvConst::SC_KATAKANA => 0x200000,
            StrconvConst::SC_HALFWIDTH => 0x400000,
            StrconvConst::SC_FULLWIDTH => 0x800000,
        }
    }
}

/// The case conversion asked for.
#[derive(PartialEq, Eq, Clone, Copy, Structural)]
pub enum StrConvCase {
    Upper,
    Lower,
    Keep,
}

/// The kana conversion asked for.
#[derive(PartialEq, Eq, Clone, Copy, Structural)]
pub enum StrConvKana {
    Hiragana,
    Katakana,
    Keep,
}

/// The width conversion asked for.
#[derive(PartialEq, Eq, Clone, Copy, Structural)]
pub enum StrConvWidth {
    Full,
    Half,
    Keep,
}

/// The three conversions an option number asks for.
#[derive(PartialEq, Eq, Clone, Copy, Structural)]
pub struct StrConvType {
    pub case: StrConvCase,
    pub kana: StrConvKana,
    pub width: StrConvWidth,
}

/// Of two opposite flags, the first alone, the second alone, or neither (both set
/// cancel out).
pub open spec fn pick(n: u32, a: u32, b: u32) -> int {
    if n & a != 0 && n & b == 0 {
        1
    } else if n & a == 0 && n & b != 0 {
        2
    } else {
        0
    }
}

/// The conversions an option number asks for.
pub open spec fn conv_type_of(n: u32) -> StrConvType {
    StrConvType {
        case: if pick(n, 0x100, 0x200) == 1 {
            StrConvCase::Lower
        } else if pick(n, 0x100, 0x200) == 2 {
            StrConvCase::Upper
        } else {
            StrConvCase::Keep
        },
        kana: if pick(n, 0x100000, 0x200000) == 1 {
            StrConvKana::Hiragana
        } else if pick(n, 0x100000, 0x200000) == 2 {
            StrConvKana::Katakana
        } else {
            StrConvKana::Keep
        },
        width: if pick(n, 0x400000, 0x800000) == 1 {
            StrConvWidth::Half
        } else if pick(n, 0x400000, 0x800000) == 2 {
            StrConvWidth::Full
        } else {
            StrConvWidth::Keep
        },
    }
}

/// Each part of an option is read from its own two flags alone: the width is full
/// exactly when `SC_FULLWIDTH` is set without `SC_HALFWIDTH`, half in the opposite case;
/// the kana are katakana exactly when `SC_KATAKANA` is set without `SC_HIRAGANA`,
/// hiragana in the opposite case; the case is upper exactly when `SC_UPPERCASE` is set
/// without `SC_LOWERCASE`, lower in the opposite case; and the other flags change
/// nothing of that part.
pub proof fn law_option_parts_are_independent(n: u32)
    ensures
        (conv_type_of(n).width == StrConvWidth::Full) == (n & 0x800000 != 0 && n & 0x400000 == 0),
        (conv_type_of(n).width == StrConvWidth::Half) == (n & 0x400000 != 0 && n & 0x800000 == 0),
        (conv_type_of(n).kana == StrConvKana::Katakana) == (n & 0x200000 != 0 && n & 0x100000 == 0),
        (conv_type_of(n).kana == StrConvKana::Hiragana) == (n & 0x100000 != 0 && n & 0x200000 == 0),
        (conv_type_of(n).case == StrConvCase::Upper) == (n & 0x200 != 0 && n & 0x100 == 0),
        (conv_type_of(n).case == StrConvCase::Lower) == (n & 0x100 != 0 && n & 0x200 == 0),
        conv_type_of(n).width == conv_type_of(n & 0xC00000).width,
        conv_type_of(n).kana == conv_type_of(n & 0x300000).kana,
        conv_type_of(n).case == conv_type_of(n & 0x300).case,
{
    assert((n & 0xC00000) & 0x400000 == n & 0x400000) by (bit_vector);
    assert((n & 0xC00000) & 0x800000 == n & 0x800000) by (bit_vector);
    assert((n & 0x300000) & 0x100000 == n & 0x100000) by (bit_vector);
    assert((n & 0x300000) & 0x200000 == n & 0x200000) by (bit_vector);
    assert((n & 0x300) & 0x100 == n & 0x100) by (bit_vector);
    assert((n & 0x300) & 0x200 == n & 0x200) by (bit_vector);
}

fn pick_exec(n: u32, a: u32, b: u32) -> (r: u8)
    ensures
        r == pick(n, a, b),
{
    let x = n & a != 0;
    let y = n & b != 0;
    if x && !y {
        1
    } else if !x && y {
        2
    } else {
        0
    }
}

impl StrConvType {
    /// The conversions an option number asks for (see `conv_type_of`).
    pub fn from(n: u32) -> (r: StrConvType)
        ensures
            r == conv_type_of(n),
    {
        let c = pick_exec(n, 0x100, 0x200);
        let k = pick_exec(n, 0x100000, 0x200000);
        let w = pick_exec(n, 0x400000, 0x800000);
        StrConvType {
            case: if c == 1 {
                StrConvCase::Lower
            } else if c == 2 {
                StrConvCase::Upper
            } else {
                StrConvCase::Keep
            },
            kana: if k == 1 {
                StrConvKana::Hiragana
            } else if k == 2 {
                StrConvKana::Katakana
            } else {
                StrConvKana::Keep
            },
            width: if w == 1 {
                StrConvWidth::Half
            } else if w == 2 {
                StrConvWidth::Full
            } else {
                StrConvWidth::Keep
            },
        }
    }
}

/// One conversion queued on a `kanaria` string.
#[derive(PartialEq, Eq, Clone, Copy, Structural)]
pub enum ConvStep {
    UpperCase,
    LowerCase,
    Hiragana,
    Katakana,
    /// To half width, for the character kinds in the target bits.
    Narrow(u32),
    /// To full width, for the character kinds in the target bits.
    Wide(u32),
}

/// The target bits that select every kind of character (numbers, letters, symbols and
/// katakana).
pub open spec fn all_targets() -> u32 {
    0x0F
}

/// A `kanaria` string of code points with its queued conversions. Its contents are
/// opaque here and described by the names below: the code points it was made from, and
/// the conversions queued on it, in order.
#[verifier::external_body]
pub struct KanaText {
    inner: UCSStr<u32>,
}

/// The characters (as code points) a `kanaria` string was made from.
pub uninterp spec fn ucs_chars(s: KanaText) -> Seq<u32>;

/// The conversions queued on a `kanaria` string, in order.
pub uninterp spec fn ucs_steps(s: KanaText) -> Seq<ConvStep>;

/// What `UCSStr::to_string` gives for these characters and queued conversions.
pub uninterp spec fn ucs_rendered(chars: Seq<u32>, steps: Seq<ConvStep>) -> Seq<char>;

/// `UCSStr::from_str`: a string of the characters of `s`, with nothing queued.
#[verifier::external_body]
fn ucs_from_str(s: &str) -> (r: KanaText)
    ensures
        ucs_chars(r) == s@.map_values(|c: char| c as u32),
        ucs_steps(r) == Seq::<ConvStep>::empty(),
{
    KanaText { inner: UCSStr::from_str(s) }
}

/// `UCSStr::upper_case`: queues the conversion to upper case.
#[verifier::external_body]
fn ucs_upper_case(s: &mut KanaText)
    ensures
        ucs_chars(*final(s)) == ucs_chars(*old(s)),
        ucs_steps(*final(s)) == ucs_steps(*old(s)).push(ConvStep::UpperCase),
{
    s.inner.upper_case();
}

/// `UCSStr::lower_case`: queues the conversion to lower case.
#[verifier::external_body]
fn ucs_lower_case(s: &mut KanaText)
    ensures
        ucs_chars(*final(s)) == ucs_chars(*old(s)),
        ucs_steps(*final(s)) == ucs_steps(*old(s)).push(ConvStep::LowerCase),
{
    s.inner.lower_case();
}

/// `UCSStr::hiragana`: queues the conversion to hiragana.
#[verifier::external_body]
fn ucs_hiragana(s: &mut KanaText)
    ensures
        ucs_chars(*final(s)) == ucs_chars(*old(s)),
        ucs_steps(*final(s)) == ucs_steps(*old(s)).push(ConvStep::Hiragana),
{
    s.inner.hiragana();
}

/// `UCSStr::katakana`: queues the conversion to katakana.
#[verifier::external_body]
fn ucs_katakana(s: &mut KanaText)
    ensures
        ucs_chars(*final(s)) == ucs_chars(*old(s)),
        ucs_steps(*final(s)) == ucs_steps(*old(s)).push(ConvStep::Katakana),
{
    s.inner.katakana();
}

/// `UCSStr::wide`: queues the conversion to full width for the character kinds in
/// `target` (bits of `ConvertTarget`).
#[verifier::external_body]
fn ucs_wide(s: &mut KanaText, target: u32)
    requires
        target <= 0x0F,
    ensures
        ucs_chars(*final(s)) == ucs_chars(*old(s)),
        ucs_steps(*final(s)) == ucs_steps(*old(s)).push(ConvStep::Wide(target)),
{
    s.inner.wide(kanaria::utils::ConvertTarget::from_bits_truncate(target));
}

/// `UCSStr::narrow`: queues the conversion to half width for the character kinds in
/// `target` (bits of `ConvertTarget`).
#[verifier::external_body]
fn ucs_narrow(s: &mut KanaText, target: u32)
    requires
        target <= 0x0F,
    ensures
        ucs_chars(*final(s)) == ucs_chars(*old(s)),
        ucs_steps(*final(s)) == ucs_steps(*old(s)).push(ConvStep::Narrow(target)),
{
    s.inner.narrow(kanaria::utils::ConvertTarget::from_bits_truncate(target));
}

/// `UCSStr::to_string`: applies the queued conversions in order (named); with none
/// queued, codes that are characters come back as those characters.
#[verifier::external_body]
fn ucs_to_string(s: &KanaText) -> (r: String)
    ensures
        r@ == ucs_rendered(ucs_chars(*s), ucs_steps(*s)),
        ucs_steps(*s).len() == 0 && (forall|i: int| 0 <= i < ucs_chars(*s).len() ==> is_scalar_code(#[trigger] ucs_chars(*s)[i]))
            ==> r@ == ucs_chars(*s).map_values(|u: u32| u as char),
{
    s.inner.to_string()
}

/// The step of a kana conversion, if any.
pub open spec fn kana_steps(k: StrConvKana) -> Seq<ConvStep> {
    match k {
        StrConvKana::Hiragana => seq![ConvStep::Hiragana],
        StrConvKana::Katakana => seq![ConvStep::Katakana],
        StrConvKana::Keep => Seq::empty(),
    }
}

/// The step of a case conversion, if any.
pub open spec fn case_steps(c: StrConvCase) -> Seq<ConvStep> {
    match c {
        StrConvCase::Upper => seq![ConvStep::UpperCase],
        StrConvCase::Lower => seq![ConvStep::LowerCase],
        StrConvCase::Keep => Seq::empty(),
    }
}

/// The step of a width conversion, if any (all character kinds).
pub open spec fn width_steps(w: StrConvWidth) -> Seq<ConvStep> {
    match w {
        StrConvWidth::Full => seq![ConvStep::Wide(all_targets())],
        StrConvWidth::Half => seq![ConvStep::Narrow(all_targets())],
        StrConvWidth::Keep => Seq::empty(),
    }
}

/// The conversions queued for an option: kana then width, case then width, and width
/// then kana then case.
pub open spec fn strconv_steps(t: StrConvType) -> Seq<ConvStep> {
    kana_steps(t.kana) + width_steps(t.width) + case_steps(t.case) + width_steps(t.width)
        + width_steps(t.width) + kana_steps(t.kana) + case_steps(t.case)
}

/// A string with its queued `kanaria` conversions.
pub struct StrConv {
    ucsstr: KanaText,
}

impl StrConv {
    /// The characters the conversion started from.
    pub closed spec fn chars(&self) -> Seq<u32> {
        ucs_chars(self.ucsstr)
    }

    /// The conversions queued so far.
    pub closed spec fn steps(&self) -> Seq<ConvStep> {
        ucs_steps(self.ucsstr)
    }

    /// A conversion of `base` with nothing queued.
    pub fn new(base: &str) -> (r: StrConv)
        ensures
            r.chars() == base@.map_values(|c: char| c as u32),
            r.steps() == Seq::<ConvStep>::empty(),
    {
        StrConv { ucsstr: ucs_from_str(base) }
    }

    fn kana(&mut self, kana: StrConvKana)
        ensures
            final(self).chars() == old(self).chars(),
            final(self).steps() == old(self).steps() + kana_steps(kana),
    {
        match kana {
            StrConvKana::Hiragana => ucs_hiragana(&mut self.ucsstr),
            StrConvKana::Katakana => ucs_katakana(&mut self.ucsstr),
            StrConvKana::Keep => {
                assert(old(self).steps() + kana_steps(kana) =~= old(self).steps());
            },
        }
    }

    fn case(&mut self, case: StrConvCase)
        ensures
            final(self).chars() == old(self).chars(),
            final(self).steps() == old(self).steps() + case_steps(case),
    {
        match case {
            StrConvCase::Upper => ucs_upper_case(&mut self.ucsstr),
            StrConvCase::Lower => ucs_lower_case(&mut self.ucsstr),
            StrConvCase::Keep => {
                assert(old(self).steps() + case_steps(case) =~= old(self).steps());
            },
        }
    }

    fn width(&mut self, width: StrConvWidth)
        ensures
            final(self).chars() == old(self).chars(),
            final(self).steps() == old(self).steps() + width_steps(width),
    {
        match width {
            StrConvWidth::Full => ucs_wide(&mut self.ucsstr, 0x0F),
            StrConvWidth::Half => ucs_narrow(&mut self.ucsstr, 0x0F),
            StrConvWidth::Keep => {
                assert(old(self).steps() + width_steps(width) =~= old(self).steps());
            },
        }
    }

    /// Queues the conversions that `opt` asks for (see `strconv_steps`) and gives the
    /// converted text.
    pub fn convert(&mut self, opt: u32) -> (r: String)
        ensures
            final(self).chars() == old(self).chars(),
            final(self).steps() == old(self).steps() + strconv_steps(conv_type_of(opt)),
            r@ == ucs_rendered(final(self).chars(), final(self).steps()),
            final(self).steps().len() == 0 && (forall|i: int| 0 <= i < final(self).chars().len() ==> is_scalar_code(#[trigger] final(self).chars()[i]))
                ==> r@ == final(self).chars().map_values(|u: u32| u as char),
    {
        let ctype = StrConvType::from(opt);
        self.kana(ctype.kana);
        self.width(ctype.width);
        self.case(ctype.case);
        self.width(ctype.width);
        self.width(ctype.width);
        self.kana(ctype.kana);
        self.case(ctype.case);
        assert(self.steps() =~= old(self).steps() + strconv_steps(conv_type_of(opt)));
        ucs_to_string(&self.ucsstr)
    }
}

/// `strconv`: `base` converted as the option number `opt` asks.
pub fn strconv(base: &str, opt: u32) -> (r: String)
    ensures
        r@ == ucs_rendered(base@.map_values(|c: char| c as u32), strconv_steps(conv_type_of(opt))),
        strconv_steps(conv_type_of(opt)).len() == 0 ==> r@ == base@,
{
    let mut conv = StrConv::new(base);
    let r = conv.convert(opt);
    assert(Seq::<ConvStep>::empty() + strconv_steps(conv_type_of(opt)) =~= strconv_steps(conv_type_of(opt)));
    proof {
        let codes = base@.map_values(|c: char| c as u32);
        assert forall|i: int| 0 <= i < codes.len() implies is_scalar_code(#[trigger] codes[i]) by {
            vstd::utf8::char_is_scalar(base@[i]);
        }
        assert forall|i: int| 0 <= i < codes.len() implies (codes[i] as char) == base@[i] by {
            vstd::utf8::char_u32_cast(base@[i], codes[i]);
        }
        assert(codes.map_values(|u: u32| u as char) =~= base@);
    }
    r
}


proof fn lemma_one_step_contains(s: Seq<ConvStep>, a: ConvStep, y: ConvStep)
    requires
        s == seq![a] || s == Seq::<ConvStep>::empty(),
    ensures
        s.contains(y) <==> s.len() == 1 && y == a,
{
    if s.len() == 1 {
        assert(s[0] == a);
        if s.contains(y) {
            let k = choose|k: int| 0 <= k < s.len() && s[k] == y;
            assert(k == 0);
        }
    }
}

proof fn lemma_steps_contain(t: StrConvType, y: ConvStep)
    ensures
        strconv_steps(t).contains(y) <==> kana_steps(t.kana).contains(y) || width_steps(t.width).contains(y)
            || case_steps(t.case).contains(y),
{
    let k = kana_steps(t.kana);
    let w = width_steps(t.width);
    let c = case_steps(t.case);
    vstd::seq_lib::lemma_seq_concat_contains_all_elements(k, w, y);
    vstd::seq_lib::lemma_seq_concat_contains_all_elements(k + w, c, y);
    vstd::seq_lib::lemma_seq_concat_contains_all_elements(k + w + c, w, y);
    vstd::seq_lib::lemma_seq_concat_contains_all_elements(k + w + c + w, w, y);
    vstd::seq_lib::lemma_seq_concat_contains_all_elements(k + w + c + w + w, k, y);
    vstd::seq_lib::lemma_seq_concat_contains_all_elements(k + w + c + w + w + k, c, y);
}

/// The conversion queues exactly the conversions the option asks for: katakana or
/// hiragana when the kana part asks for it, full or half width (of every kind of
/// character) when the width part does, upper or lower case when the case part does,
/// each independently of the others; an option that asks for nothing queues nothing.
pub proof fn law_strconv_queues_what_is_asked(t: StrConvType)
    ensures
        strconv_steps(t).contains(ConvStep::Katakana) == (t.kana == StrConvKana::Katakana),
        strconv_steps(t).contains(ConvStep::Hiragana) == (t.kana == StrConvKana::Hiragana),
        strconv_steps(t).contains(ConvStep::Wide(all_targets())) == (t.width == StrConvWidth::Full),
        strconv_steps(t).contains(ConvStep::Narrow(all_targets())) == (t.width == StrConvWidth::Half),
        strconv_steps(t).contains(ConvStep::UpperCase) == (t.case == StrConvCase::Upper),
        strconv_steps(t).contains(ConvStep::LowerCase) == (t.case == StrConvCase::Lower),
        t.kana == StrConvKana::Keep && t.width == StrConvWidth::Keep && t.case == StrConvCase::Keep
            ==> strconv_steps(t).len() == 0,
{
    let ka = match t.kana { StrConvKana::Hiragana => ConvStep::Hiragana, _ => ConvStep::Katakana };
    let wa = match t.width { StrConvWidth::Full => ConvStep::Wide(all_targets()), _ => ConvStep::Narrow(all_targets()) };
    let ca = match t.case { StrConvCase::Upper => ConvStep::UpperCase, _ => ConvStep::LowerCase };
    let ys = seq![ConvStep::Katakana, ConvStep::Hiragana, ConvStep::Wide(all_targets()), ConvStep::Narrow(all_targets()),
        ConvStep::UpperCase, ConvStep::LowerCase];
    assert forall|j: int| 0 <= j < 6 implies {
        let y = #[trigger] ys[j];
        strconv_steps(t).contains(y) <==> kana_steps(t.kana).contains(y) || width_steps(t.width).contains(y)
            || case_steps(t.case).contains(y)
    } by {
        let y = ys[j];
        lemma_steps_contain(t, y);
    }
    assert forall|j: int| 0 <= j < 6 implies {
        let y = #[trigger] ys[j];
        &&& (kana_steps(t.kana).contains(y) <==> kana_steps(t.kana).len() == 1 && y == ka)
        &&& (width_steps(t.width).contains(y) <==> width_steps(t.width).len() == 1 && y == wa)
        &&& (case_steps(t.case).contains(y) <==> case_steps(t.case).len() == 1 && y == ca)
    } by {
        let y = ys[j];
        lemma_one_step_contains(kana_steps(t.kana), ka, y);
        lemma_one_step_contains(width_steps(t.width), wa, y);
        lemma_one_step_contains(case_steps(t.case), ca, y);
    }
    assert(ys[0] == ConvStep::Katakana);
    assert(ys[1] == ConvStep::Hiragana);
    assert(ys[2] == ConvStep::Wide(all_targets()));
    assert(ys[3] == ConvStep::Narrow(all_targets()));
    assert(ys[4] == ConvStep::UpperCase);
    assert(ys[5] == ConvStep::LowerCase);
}

/// An option number queues full width exactly when `SC_FULLWIDTH` is set without
/// `SC_HALFWIDTH`, and katakana exactly when `SC_KATAKANA` is set without `SC_HIRAGANA`,
/// whatever else is set; so `SC_KATAKANA or SC_FULLWIDTH` queues both.
pub proof fn law_strconv_option_steps(n: u32)
    ensures
        strconv_steps(conv_type_of(n)).contains(ConvStep::Wide(all_targets())) == (n & 0x800000 != 0 && n & 0x400000 == 0),
        strconv_steps(conv_type_of(n)).contains(ConvStep::Narrow(all_targets())) == (n & 0x400000 != 0 && n & 0x800000 == 0),
        strconv_steps(conv_type_of(n)).contains(ConvStep::Katakana) == (n & 0x200000 != 0 && n & 0x100000 == 0),
        strconv_steps(conv_type_of(n)).contains(ConvStep::Hiragana) == (n & 0x100000 != 0 && n & 0x200000 == 0),
        strconv_steps(conv_type_of(n)).contains(ConvStep::UpperCase) == (n & 0x200 != 0 && n & 0x100 == 0),
        strconv_steps(conv_type_of(n)).contains(ConvStep::LowerCase) == (n & 0x100 != 0 && n & 0x200 == 0),
{
    law_option_parts_are_independent(n);
    law_strconv_queues_what_is_asked(conv_type_of(n));
}
} // verus!
