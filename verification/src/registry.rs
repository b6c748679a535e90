//! How builtin names are registered: functions and constants under upper-case names,
//! string constants with their decoration, and the numbered `SLCT_n` constants.

use vstd::prelude::*;
use crate::std_calls::push_char;
use crate::strings::chars_of;
use crate::window::{decimal, decimal_of};

verus! {

broadcast use vstd::string::group_string_axioms;

/// ASCII upper-casing of one character.
pub open spec fn upper_char(c: char) -> char {
    if 'a' <= c <= 'z' { ((c as u32) - 32) as char } else { c }
}

/// ASCII upper-casing of a text, as `str::to_ascii_uppercase` does.
pub open spec fn upper(s: Seq<char>) -> Seq<char> {
    s.map_values(|c: char| upper_char(c))
}

/// `s` with its ASCII letters in upper case.
pub fn to_upper(s: &str) -> (r: String)
    ensures
        r@ == upper(s@),
{
    let cs = chars_of(s);
    let mut r = String::new();
    let mut k: usize = 0;
    while k < cs.len()
        invariant
            k <= cs@.len(),
            cs@ == s@,
            r@ == upper(s@.take(k as int)),
        decreases cs.len() - k,
    {
        let c = cs[k];
        let u = if 'a' <= c && c <= 'z' {
            let code = (c as u32) - 32;
            proof {
                assert(0x41 <= code <= 0x5A);
            }
            match crate::std_calls::char_from_code(code) {
                Some(x) => x,
                None => c,
            }
        } else {
            c
        };
        proof {
            if 'a' <= c && c <= 'z' {
                vstd::utf8::char_u32_cast(u, (c as u32 - 32) as u32);
            }
        }
        push_char(&mut r, u);
        k = k + 1;
        assert(upper(s@.take(k as int)) =~= upper(s@.take(k - 1)).push(upper_char(c)));
    }
    assert(s@.take(k as int) =~= s@);
    r
}

/// A builtin function as registered: its name, how many arguments it takes at most, and
/// the function itself.
pub struct BuiltinFunctionSet<F> {
    pub name: String,
    pub len: i32,
    pub func: F,
}

/// The builtin functions of one group, in the order they were added.
pub struct BuiltinFunctionSets<F> {
    pub sets: Vec<BuiltinFunctionSet<F>>,
}

/// A registered builtin name and what it stands for.
pub enum Builtin<F> {
    /// A function: its (upper-case) name, its argument count and the function.
    Function(String, i32, F),
    /// A numbered constant.
    Num(i64),
    /// A string constant.
    Text(String),
}

impl<F: Copy> BuiltinFunctionSets<F> {
    /// No function yet.
    pub fn new() -> (r: BuiltinFunctionSets<F>)
        ensures
            r.sets@.len() == 0,
    {
        BuiltinFunctionSets { sets: Vec::new() }
    }

    /// Adds a function.
    pub fn add(&mut self, name: &str, len: i32, func: F)
        ensures
            final(self).sets@.len() == old(self).sets@.len() + 1,
            forall|i: int| 0 <= i < old(self).sets@.len() ==> #[trigger] final(self).sets@[i] == old(self).sets@[i],
            final(self).sets@.last().name@ == name@,
            final(self).sets@.last().len == len,
            final(self).sets@.last().func == func,
    {
        self.sets.push(BuiltinFunctionSet { name: name.to_owned(), len, func });
    }

    /// Registers every function under its upper-case name, in order.
    pub fn set(self, out: &mut Vec<(String, Builtin<F>)>)
        ensures
            final(out)@.len() == old(out)@.len() + self.sets@.len(),
            forall|i: int| 0 <= i < old(out)@.len() ==> #[trigger] final(out)@[i] == old(out)@[i],
            forall|i: int| 0 <= i < self.sets@.len() ==> {
                let e = #[trigger] final(out)@[old(out)@.len() + i];
                &&& e.0@ == upper(self.sets@[i].name@)
                &&& e.1 matches Builtin::Function(n, l, f) && n@ == upper(self.sets@[i].name@) && l == self.sets@[i].len
                    && f == self.sets@[i].func
            },
    {
        let ghost start = out@;
        let mut k: usize = 0;
        while k < self.sets.len()
            invariant
                k <= self.sets@.len(),
                out@.len() == start.len() + k,
                forall|i: int| 0 <= i < start.len() ==> #[trigger] out@[i] == start[i],
                forall|i: int| 0 <= i < k ==> {
                    let e = #[trigger] out@[start.len() + i];
                    &&& e.0@ == upper(self.sets@[i].name@)
                    &&& e.1 matches Builtin::Function(n, l, f) && n@ == upper(self.sets@[i].name@) && l == self.sets@[i].len
                        && f == self.sets@[i].func
                },
            decreases self.sets.len() - k,
        {
            let set = &self.sets[k];
            let name = to_upper(set.name.as_str());
            let name2 = to_upper(set.name.as_str());
            out.push((name, Builtin::Function(name2, set.len, set.func)));
            k = k + 1;
        }
    }
}

/// String constants: each name in upper case, standing for itself between `prefix` and
/// `suffix`.
pub fn str_consts<F>(names: &Vec<String>, prefix: &str, suffix: &str, out: &mut Vec<(String, Builtin<F>)>)
    ensures
        final(out)@.len() == old(out)@.len() + names@.len(),
        forall|i: int| 0 <= i < old(out)@.len() ==> #[trigger] final(out)@[i] == old(out)@[i],
        forall|i: int| 0 <= i < names@.len() ==> {
            let e = #[trigger] final(out)@[old(out)@.len() + i];
            &&& e.0@ == upper(names@[i]@)
            &&& e.1 matches Builtin::Text(t) && t@ == prefix@ + upper(names@[i]@) + suffix@
        },
{
    let ghost start = out@;
    let mut k: usize = 0;
    while k < names.len()
        invariant
            k <= names@.len(),
            out@.len() == start.len() + k,
            forall|i: int| 0 <= i < start.len() ==> #[trigger] out@[i] == start[i],
            forall|i: int| 0 <= i < k ==> {
                let e = #[trigger] out@[start.len() + i];
                &&& e.0@ == upper(names@[i]@)
                &&& e.1 matches Builtin::Text(t) && t@ == prefix@ + upper(names@[i]@) + suffix@
            },
        decreases names.len() - k,
    {
        let name = to_upper(names[k].as_str());
        let mut value = prefix.to_owned();
        value.append(name.as_str());
        value.append(suffix);
        out.push((name, Builtin::Text(value)));
        k = k + 1;
    }
}

/// `SLCT_1` to `SLCT_31`: `SLCT_n` stands for 2 to the power n - 1.
pub open spec fn slct_entry(n: int) -> (Seq<char>, int) {
    ("SLCT_"@ + decimal_of(n), vstd::arithmetic::power2::pow2((n - 1) as nat) as int)
}

/// The `SLCT_n` constants, in order (see `slct_entry`).
pub fn slct_consts<F>(out: &mut Vec<(String, Builtin<F>)>)
    ensures
        final(out)@.len() == old(out)@.len() + 31,
        forall|i: int| 0 <= i < old(out)@.len() ==> #[trigger] final(out)@[i] == old(out)@[i],
        forall|i: int| 0 <= i < 31 ==> {
            let e = #[trigger] final(out)@[old(out)@.len() + i];
            &&& e.0@ == slct_entry(i + 1).0
            &&& e.1 matches Builtin::Num(v) && v == slct_entry(i + 1).1
        },
{
    let ghost start = out@;
    let mut n: i64 = 1;
    let mut val: i64 = 1;
    proof {
        vstd::arithmetic::power2::lemma2_to64();
    }
    while n <= 31
        invariant
            1 <= n <= 32,
            val == vstd::arithmetic::power2::pow2((n - 1) as nat),
            out@.len() == start.len() + n - 1,
            forall|i: int| 0 <= i < start.len() ==> #[trigger] out@[i] == start[i],
            forall|i: int| 0 <= i < n - 1 ==> {
                let e = #[trigger] out@[start.len() + i];
                &&& e.0@ == slct_entry(i + 1).0
                &&& e.1 matches Builtin::Num(v) && v == slct_entry(i + 1).1
            },
        decreases 32 - n,
    {
        let mut name = String::from_str("SLCT_");
        name.append(decimal(n).as_str());
        out.push((name, Builtin::Num(val)));
        proof {
            vstd::arithmetic::power2::lemma_pow2_unfold(n as nat);
            if n - 1 < 30 {
                vstd::arithmetic::power2::lemma_pow2_strictly_increases((n - 1) as nat, 30);
            }
            vstd::arithmetic::power2::lemma2_to64();
            assert(val <= 0x4000_0000);
        }
        val = val * 2;
        n = n + 1;
    }
}


/// Upper-casing changes only the ASCII letters `a` to `z`, each to the letter 32 code
/// points below it, keeps every other character and the length, leaves no lower-case
/// ASCII letter behind, and changes nothing a second time.
pub proof fn law_upper_case_letters(s: Seq<char>)
    ensures
        upper(s).len() == s.len(),
        forall|i: int| 0 <= i < s.len() && 'a' <= s[i] <= 'z' ==> (#[trigger] upper(s)[i]) as u32 == s[i] as u32 - 32,
        forall|i: int| 0 <= i < s.len() && !('a' <= s[i] <= 'z') ==> #[trigger] upper(s)[i] == s[i],
        forall|i: int| 0 <= i < s.len() ==> !('a' <= #[trigger] upper(s)[i] <= 'z'),
        upper(upper(s)) == upper(s),
{
    assert forall|i: int| 0 <= i < s.len() implies {
        &&& ('a' <= s[i] <= 'z' ==> (#[trigger] upper(s)[i]) as u32 == s[i] as u32 - 32)
        &&& !('a' <= upper(s)[i] <= 'z')
    } by {
        let c = s[i];
        if 'a' <= c <= 'z' {
            let u: u32 = ((c as u32) - 32) as u32;
            assert(0x41 <= u <= 0x5A);
            assert((u as char) as u32 == u);
        }
    }
    assert(upper(upper(s)) =~= upper(s));
}


/// `SLCT_1` stands for 1 and each next `SLCT_n` for twice the one before, so every one
/// is a single bit of its own; the name is `SLCT_` followed by `n` in decimal.
pub proof fn law_slct_bits(n: int)
    requires
        1 <= n,
    ensures
        slct_entry(1).1 == 1,
        slct_entry(n + 1).1 == 2 * slct_entry(n).1,
        slct_entry(n).0 == "SLCT_"@ + decimal_of(n),
{
    vstd::arithmetic::power2::lemma2_to64();
    vstd::arithmetic::power2::lemma_pow2_unfold(n as nat);
}
} // verus!
