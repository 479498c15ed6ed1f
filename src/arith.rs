//! Fixed-width signed arithmetic with two's-complement wraparound and
//! truncating (sign-following) division, stated over mathematical integers.
use vstd::arithmetic::div_mod::{
    lemma_div_basics,
    lemma_div_is_strictly_smaller,
    lemma_div_nonincreasing,
    lemma_div_pos_is_pos,
    lemma_fundamental_div_mod,
    lemma_fundamental_div_mod_converse_mod,
    lemma_mod_bound,
};
use vstd::prelude::*;

verus! {

/// Reduce a mathematical integer to the `i32` value with the same residue
/// modulo 2^32 (two's-complement wraparound).
pub open spec fn i32_wrap(n: int) -> int {
    let m = n % 0x1_0000_0000;
    if m > 0x7fff_ffff {
        m - 0x1_0000_0000
    } else {
        m
    }
}

pub open spec fn iabs(n: int) -> int {
    if n < 0 {
        -n
    } else {
        n
    }
}

/// Quotient rounded toward zero.
pub open spec fn trunc_div(a: int, b: int) -> int {
    if (a >= 0) == (b > 0) {
        iabs(a) / iabs(b)
    } else {
        -(iabs(a) / iabs(b))
    }
}

/// Remainder whose sign follows the dividend: `a == b * trunc_div(a, b) + trunc_rem(a, b)`.
pub open spec fn trunc_rem(a: int, b: int) -> int {
    a - b * trunc_div(a, b)
}

/// The truncated quotient is no larger in magnitude than the dividend, and
/// strictly smaller when the divisor's magnitude exceeds one.
pub proof fn lemma_trunc_div_magnitude(a: int, b: int)
    requires
        b != 0,
    ensures
        iabs(trunc_div(a, b)) <= iabs(a),
        iabs(b) > 1 && a != 0 ==> iabs(trunc_div(a, b)) < iabs(a),
        iabs(b) == 1 ==> trunc_div(a, b) == (if b > 0 {
            a
        } else {
            -a
        }),
{
    lemma_div_nonincreasing(iabs(a), iabs(b));
    lemma_div_pos_is_pos(iabs(a), iabs(b));
    lemma_div_basics(iabs(a));
    if iabs(b) > 1 && a != 0 {
        lemma_div_is_strictly_smaller(iabs(a), iabs(b));
    }
}

/// The truncated remainder is the magnitude remainder carrying the dividend's sign.
pub proof fn lemma_trunc_rem_sign(a: int, b: int)
    requires
        b != 0,
    ensures
        trunc_rem(a, b) == (if a >= 0 {
            iabs(a) % iabs(b)
        } else {
            -(iabs(a) % iabs(b))
        }),
        iabs(trunc_rem(a, b)) < iabs(b),
{
    let q = iabs(a) / iabs(b);
    let m = iabs(a) % iabs(b);
    lemma_fundamental_div_mod(iabs(a), iabs(b));
    lemma_mod_bound(iabs(a), iabs(b));
    assert(iabs(a) == iabs(b) * q + m);
    if a >= 0 && b > 0 {
        assert(trunc_rem(a, b) == m);
    } else if a >= 0 {
        assert(b * (-q) == iabs(b) * q) by (nonlinear_arith)
            requires
                b < 0,
                iabs(b) == -b,
        ;
        assert(trunc_rem(a, b) == m);
    } else if b > 0 {
        assert(b * (-q) == -(iabs(b) * q)) by (nonlinear_arith)
            requires
                b > 0,
                iabs(b) == b,
        ;
        assert(trunc_rem(a, b) == -m);
    } else {
        assert(b * q == -(iabs(b) * q)) by (nonlinear_arith)
            requires
                b < 0,
                iabs(b) == -b,
        ;
        assert(trunc_rem(a, b) == -m);
    }
}

/// `n` differs from the `i32` value `v` by a multiple of 2^32, so it wraps to `v`.
pub proof fn lemma_wrap_to(n: int, v: int, q: int)
    requires
        i32::MIN <= v <= i32::MAX,
        n == v + q * 0x1_0000_0000,
    ensures
        i32_wrap(n) == v,
{
    if v >= 0 {
        lemma_fundamental_div_mod_converse_mod(n, 0x1_0000_0000, q, v);
    } else {
        lemma_fundamental_div_mod_converse_mod(n, 0x1_0000_0000, q - 1, v + 0x1_0000_0000);
    }
}

/// Every `i32` value is its own wrap.
pub proof fn lemma_wrap_id(v: int)
    requires
        i32::MIN <= v <= i32::MAX,
    ensures
        i32_wrap(v) == v,
{
    lemma_wrap_to(v, v, 0);
}

/// `x + y` with wraparound.
pub fn add_wrap(x: i32, y: i32) -> (r: i32)
    ensures
        r == i32_wrap(x + y),
{
    let r = x.wrapping_add(y);
    proof {
        if x + y > i32::MAX {
            lemma_wrap_to(x + y, r as int, 1);
        } else if x + y < i32::MIN {
            lemma_wrap_to(x + y, r as int, -1);
        } else {
            lemma_wrap_to(x + y, r as int, 0);
        }
    }
    r
}

/// `x - y` with wraparound.
pub fn sub_wrap(x: i32, y: i32) -> (r: i32)
    ensures
        r == i32_wrap(x - y),
{
    let r = x.wrapping_sub(y);
    proof {
        if x - y > i32::MAX {
            lemma_wrap_to(x - y, r as int, 1);
        } else if x - y < i32::MIN {
            lemma_wrap_to(x - y, r as int, -1);
        } else {
            lemma_wrap_to(x - y, r as int, 0);
        }
    }
    r
}

/// `x * y` with wraparound.
pub fn mul_wrap(x: i32, y: i32) -> (r: i32)
    ensures
        r == i32_wrap(x * y),
{
    proof {
        lemma_mod_bound(x * y, 0x1_0000_0000);
    }
    x.wrapping_mul(y)
}

/// `|n|` with wraparound: `i32::MIN` stays `i32::MIN`.
pub fn wrapping_abs(n: i32) -> (r: i32)
    ensures
        r == i32_wrap(iabs(n as int)),
        r >= 0 || r == i32::MIN,
{
    if n < 0 {
        sub_wrap(0, n)
    } else {
        proof {
            lemma_wrap_id(n as int);
        }
        n
    }
}

/// A wrapped magnitude shifted up by a small positive amount is neither zero
/// nor minus one, so it is safe as a divisor.
pub proof fn lemma_shifted_magnitude(t: int, c: int)
    requires
        0 <= t <= i32::MAX || t == i32::MIN,
        1 <= c <= 10,
    ensures
        i32_wrap(t + c) != 0,
        i32_wrap(t + c) != -1,
{
    if t + c > i32::MAX {
        lemma_wrap_to(t + c, t + c - 0x1_0000_0000, 1);
    } else {
        lemma_wrap_id(t + c);
    }
}

/// `a / b` rounded toward zero.
pub fn div_trunc(a: i32, b: i32) -> (r: i32)
    requires
        b != 0,
        !(a == i32::MIN && b == -1),
    ensures
        r == trunc_div(a as int, b as int),
{
    proof {
        lemma_trunc_div_magnitude(a as int, b as int);
    }
    match a.checked_div(b) {
        Some(q) => q,
        None => 0,
    }
}

/// `a % b` with the sign of `a`.
pub fn rem_trunc(a: i32, b: i32) -> (r: i32)
    requires
        b != 0,
        !(a == i32::MIN && b == -1),
    ensures
        r == trunc_rem(a as int, b as int),
{
    proof {
        lemma_trunc_rem_sign(a as int, b as int);
    }
    match a.checked_rem(b) {
        Some(m) => m,
        None => 0,
    }
}

} // verus!
