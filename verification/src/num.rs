//! Reading script numbers as integers.

use vstd::prelude::*;
use vstd::arithmetic::power2::{pow2, lemma_pow2_unfold, lemma_pow2_strictly_increases};
use crate::args::NumValue;

verus! {

/// `m * 2^e` rounded toward zero.
pub open spec fn trunc_of(m: int, e: int) -> int {
    if e >= 0 {
        m * pow2(e as nat)
    } else if m >= 0 {
        m / (pow2((-e) as nat) as int)
    } else {
        -((-m) / (pow2((-e) as nat) as int))
    }
}

/// `x` brought into `[lo, hi]`.
pub open spec fn clamp(x: int, lo: int, hi: int) -> int {
    if x < lo { lo } else if x > hi { hi } else { x }
}

/// A number converted to an integer type whose range is `[lo, hi]` as Rust's `as` does:
/// rounded toward zero, out-of-range values and infinities saturate, NaN becomes 0.
pub open spec fn saturating_cast(v: NumValue, lo: int, hi: int) -> int {
    match v {
        NumValue::Finite { mantissa, exponent } => clamp(trunc_of(mantissa as int, exponent as int), lo, hi),
        NumValue::PosInfinity => hi,
        NumValue::NegInfinity => lo,
        NumValue::NaN => 0,
    }
}

fn pow2_of(k: u32) -> (r: u128)
    requires
        k < 127,
    ensures
        r == pow2(k as nat),
{
    let mut r: u128 = 1;
    let mut j: u32 = 0;
    proof {
        vstd::arithmetic::power2::lemma2_to64();
    }
    while j < k
        invariant
            j <= k < 127,
            r == pow2(j as nat),
        decreases k - j,
    {
        proof {
            lemma_pow2_unfold((j + 1) as nat);
            lemma_pow2_strictly_increases((j + 1) as nat, 127);
            vstd::arithmetic::power2::lemma_pow2(127);
            assert(pow2(127) < 0x1_0000_0000_0000_0000_0000_0000_0000_0000) by {
                vstd::arithmetic::power2::lemma2_to64();
                vstd::arithmetic::power2::lemma_pow2_adds(64, 63);
                vstd::arithmetic::power2::lemma2_to64_rest();
            }
        }
        r = r * 2;
        j = j + 1;
    }
    r
}

/// A number converted to an integer in `[lo, hi]` the way Rust's `as` converts a
/// double (see `saturating_cast`).
pub fn saturating_trunc(v: NumValue, lo: i64, hi: i64) -> (r: i64)
    requires
        lo <= 0 <= hi,
    ensures
        r as int == saturating_cast(v, lo as int, hi as int),
{
    match v {
        NumValue::NaN => 0,
        NumValue::PosInfinity => hi,
        NumValue::NegInfinity => lo,
        NumValue::Finite { mantissa, exponent } => {
            let m = mantissa as i128;
            if mantissa == 0 {
                proof {
                    if exponent < 0 {
                        vstd::arithmetic::power2::lemma_pow2_pos((-exponent) as nat);
                    }
                }
                0
            } else if exponent >= 0 {
                if exponent >= 64 {
                    proof {
                        lemma_pow2_strictly_increases(63, exponent as nat);
                        vstd::arithmetic::power2::lemma2_to64();
                        assert(pow2(63) == 0x8000000000000000) by {
                            vstd::arithmetic::power2::lemma2_to64_rest();
                        }
                        let p = pow2(exponent as nat) as int;
                        if mantissa > 0 {
                            assert(mantissa * p >= p) by (nonlinear_arith)
                                requires mantissa >= 1, p >= 0;
                        } else {
                            assert(mantissa * p <= -p) by (nonlinear_arith)
                                requires mantissa <= -1, p >= 0;
                        }
                    }
                    if mantissa > 0 { hi } else { lo }
                } else {
                    let pu = pow2_of(exponent as u32);
                    proof {
                        lemma_pow2_strictly_increases(exponent as nat, 64);
                        assert(pow2(64) == 0x1_0000_0000_0000_0000) by {
                            vstd::arithmetic::power2::lemma2_to64();
                        }
                    }
                    let p = pu as i128;
                    proof {
                        assert(-0x8000_0000_0000_0000_0000_0000_0000_0000 <= m * p <= 0x7fff_ffff_ffff_ffff_ffff_ffff_ffff_ffff) by (nonlinear_arith)
                            requires
                                -0x8000_0000_0000_0000 <= m <= 0x7fff_ffff_ffff_ffff,
                                0 <= p <= 0x1_0000_0000_0000_0000;
                    }
                    let x = m * p;
                    if x < lo as i128 {
                        lo
                    } else if x > hi as i128 {
                        hi
                    } else {
                        x as i64
                    }
                }
            } else {
                let k = -(exponent as i64);
                if k >= 64 {
                    proof {
                        lemma_pow2_strictly_increases(63, k as nat);
                        assert(pow2(63) == 0x8000000000000000) by {
                            vstd::arithmetic::power2::lemma2_to64_rest();
                        }
                        let p = pow2(k as nat) as int;
                        let mi = mantissa as int;
                        if mi > 0 {
                            assert(mi / p == 0) by (nonlinear_arith)
                                requires 0 < mi < p;
                        } else {
                            assert((-mi) / p == 0) by (nonlinear_arith)
                                requires 0 < -mi <= 0x8000000000000000 < p;
                        }
                    }
                    0
                } else {
                    let pu = pow2_of(k as u32);
                    proof {
                        vstd::arithmetic::power2::lemma_pow2_pos(k as nat);
                        lemma_pow2_strictly_increases(k as nat, 64);
                        assert(pow2(64) == 0x1_0000_0000_0000_0000) by {
                            vstd::arithmetic::power2::lemma2_to64();
                        }
                    }
                    let p = pu as i128;
                    let am: i128 = if m < 0 { -m } else { m };
                    let q = am / p;
                    proof {
                        assert(q <= am) by (nonlinear_arith)
                            requires 0 <= am, p >= 1, q == am / p;
                    }
                    let x: i128 = if m < 0 { -q } else { q };
                    if x < lo as i128 {
                        lo
                    } else if x > hi as i128 {
                        hi
                    } else {
                        x as i64
                    }
                }
            }
        },
    }
}


/// The position that an `nth` argument selects: a value of 1 or less (its integer part,
/// rounded toward zero) selects 1; NaN, positive infinity and values whose integer part
/// is above `u32::MAX` select none (a cast error).
pub open spec fn nth_spec(v: NumValue) -> Option<int> {
    match v {
        NumValue::Finite { mantissa, exponent } => {
            let t = trunc_of(mantissa as int, exponent as int);
            if t <= 1 {
                Some(1)
            } else if t <= u32::MAX {
                Some(t)
            } else {
                None
            }
        },
        NumValue::NegInfinity => Some(1),
        _ => None,
    }
}

/// The position an `nth` argument selects (see `nth_spec`).
pub fn nth_of(v: NumValue) -> (r: Option<u32>)
    ensures
        match r {
            Some(n) => nth_spec(v) == Some(n as int),
            None => nth_spec(v) is None,
        },
{
    match v {
        NumValue::NaN => None,
        NumValue::PosInfinity => None,
        NumValue::NegInfinity => Some(1),
        NumValue::Finite { .. } => {
            let k = saturating_trunc(v, 0, 0x1_0000_0000);
            if k <= 1 {
                Some(1)
            } else if k <= 0xFFFF_FFFF {
                Some(k as u32)
            } else {
                None
            }
        },
    }
}


/// A whole number `k` selects position `k` when it is at least 1 and fits in `u32`, and
/// position 1 when it is 1 or less.
pub proof fn law_nth_of_whole_number(k: i64)
    ensures
        k <= 1 ==> nth_spec(NumValue::Finite { mantissa: k, exponent: 0 }) == Some(1int),
        1 <= k <= u32::MAX ==> nth_spec(NumValue::Finite { mantissa: k, exponent: 0 }) == Some(k as int),
        k > u32::MAX ==> nth_spec(NumValue::Finite { mantissa: k, exponent: 0 }) is None,
{
    vstd::arithmetic::power2::lemma2_to64();
    assert(trunc_of(k as int, 0) == k as int * 1);
}


/// Converting a finite number rounds toward zero, then saturates: the result lies in
/// `[lo, hi]` and is the rounded value itself when that fits; `m * 2^e` with `e >= 0`
/// is exact; with `e < 0` the rounded value `r` has the sign of `m` and is its whole
/// part, `|r| * 2^-e <= |m| < (|r| + 1) * 2^-e`.
pub proof fn law_cast_rounds_toward_zero(m: int, e: int, lo: int, hi: int)
    requires
        lo <= hi,
    ensures
        lo <= clamp(trunc_of(m, e), lo, hi) <= hi,
        lo <= trunc_of(m, e) <= hi ==> clamp(trunc_of(m, e), lo, hi) == trunc_of(m, e),
        e >= 0 ==> trunc_of(m, e) == m * pow2(e as nat),
        e < 0 && m >= 0 ==> {
            let p = pow2((-e) as nat) as int;
            let r = trunc_of(m, e);
            0 <= r && r * p <= m < (r + 1) * p
        },
        e < 0 && m < 0 ==> {
            let p = pow2((-e) as nat) as int;
            let r = trunc_of(m, e);
            r <= 0 && (r - 1) * p < m <= r * p
        },
{
    if e < 0 {
        let p = pow2((-e) as nat) as int;
        vstd::arithmetic::power2::lemma_pow2_pos((-e) as nat);
        if m >= 0 {
            let q = m / p;
            vstd::arithmetic::div_mod::lemma_fundamental_div_mod(m, p);
            assert(0 <= q && q * p <= m < (q + 1) * p) by (nonlinear_arith)
                requires m == p * q + m % p, 0 <= m % p < p, p > 0, m >= 0;
        } else {
            let q = (-m) / p;
            vstd::arithmetic::div_mod::lemma_fundamental_div_mod(-m, p);
            assert(0 <= q && q * p <= -m < (q + 1) * p) by (nonlinear_arith)
                requires -m == p * q + (-m) % p, 0 <= (-m) % p < p, p > 0, m < 0;
            assert((-q - 1) * p < m <= (-q) * p) by (nonlinear_arith)
                requires q * p <= -m < (q + 1) * p;
        }
    }
}

} // verus!
