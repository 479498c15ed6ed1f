//! Integer stage of the coordinate hash. All arithmetic is `i32` with
//! wraparound; division and remainder truncate toward zero.
use crate::arith::{
    add_wrap, div_trunc, i32_wrap, iabs, lemma_shifted_magnitude, lemma_trunc_div_magnitude,
    lemma_trunc_rem_sign, lemma_wrap_id, lemma_wrap_to, mul_wrap, rem_trunc, sub_wrap, trunc_div,
    trunc_rem, wrapping_abs,
};
use crate::profile::Profile;
use vstd::prelude::*;

verus! {

pub const SEED_MUL: i32 = 7654321;

pub const SEED_MOD: i32 = 64811;

pub const ROW_MOD: i32 = 30983;

/// Scrambled seed: `(seed * 7654321) mod 64811`, wrapping product, truncating remainder.
pub open spec fn scramble(seed: int) -> int {
    trunc_rem(i32_wrap(seed * SEED_MUL), SEED_MOD as int)
}

/// Divisor of the hash's integer quotient `a / (seed_div * seed')`.
pub open spec fn quotient_divisor(seed: int, seed_div: int) -> int {
    i32_wrap(seed_div * scramble(seed))
}

/// The integers from which the floating-point hash value is mixed.
#[derive(Clone, Copy, Debug, PartialEq, Eq, Structural)]
pub struct HashTerms {
    /// The scrambled seed `seed'`.
    pub seed: i32,
    /// `(y * row_mul - seed') mod 30983`.
    pub z: i32,
    /// `z * x + 1`.
    pub a: i32,
    /// `(z * x mod (|y| + 10)) / (|a| + 1)`.
    pub b: i32,
    /// `a / (seed_div * seed')`.
    pub q: i32,
    /// `(5 - 7 * seed') * x + (3 + seed') * y`.
    pub lin: i32,
}

#[derive(Clone, Copy, Debug, PartialEq, Eq, Structural)]
pub enum HashError {
    /// `seed_div * seed'` wraps to zero, so the quotient is undefined.
    ZeroDivisor,
}

pub open spec fn terms_of(x: int, y: int, seed: int, row_mul: int, seed_div: int) -> HashTerms {
    let s = scramble(seed);
    let z = trunc_rem(i32_wrap(i32_wrap(y * row_mul) - s), ROW_MOD as int);
    let zx = i32_wrap(z * x);
    let a = i32_wrap(zx + 1);
    let b = trunc_div(
        trunc_rem(zx, i32_wrap(i32_wrap(iabs(y)) + 10)),
        i32_wrap(i32_wrap(iabs(a)) + 1),
    );
    let q = i32_wrap(trunc_div(a, quotient_divisor(seed, seed_div)));
    let lin = i32_wrap(i32_wrap(i32_wrap(5 - 7 * s) * x) + i32_wrap(i32_wrap(3 + s) * y));
    HashTerms { seed: s as i32, z: z as i32, a: a as i32, b: b as i32, q: q as i32, lin: lin as i32 }
}

/// Scramble a seed into its hash channel.
pub fn irand(x: i32) -> (r: i32)
    ensures
        r == scramble(x as int),
        -SEED_MOD < r < SEED_MOD,
{
    let p = mul_wrap(x, SEED_MUL);
    proof {
        lemma_trunc_rem_sign(p as int, SEED_MOD as int);
    }
    rem_trunc(p, SEED_MOD)
}

/// What the integer stage yields on `(x, y)`, channel `seed` and the given
/// profile constants.
pub open spec fn hash_result(x: int, y: int, seed: int, row_mul: int, seed_div: int) -> Result<
    HashTerms,
    HashError,
> {
    if quotient_divisor(seed, seed_div) == 0 {
        Err(HashError::ZeroDivisor)
    } else {
        Ok(terms_of(x, y, seed, row_mul, seed_div))
    }
}

/// The integer terms of the hash of `(x, y)` on channel `seed`, or
/// `ZeroDivisor` exactly when `seed_div * seed'` wraps to zero. The scrambled
/// seed and `z` are bounded, so `4.5 + q + z` is never zero.
pub fn hash_terms(x: i32, y: i32, seed: i32, profile: &Profile) -> (r: Result<HashTerms, HashError>)
    ensures
        r == hash_result(x as int, y as int, seed as int, profile.row_mul as int, profile.seed_div as int),
        r matches Ok(t) ==> -SEED_MOD < t.seed < SEED_MOD && -ROW_MOD < t.z < ROW_MOD,
{
    let s = irand(seed);
    let divisor = mul_wrap(profile.seed_div, s);
    if divisor == 0 {
        return Err(HashError::ZeroDivisor);
    }
    let z = rem_trunc(sub_wrap(mul_wrap(y, profile.row_mul), s), ROW_MOD);
    proof {
        lemma_trunc_rem_sign(
            i32_wrap(i32_wrap(y * profile.row_mul) - s),
            ROW_MOD as int,
        );
    }
    let zx = mul_wrap(z, x);
    let a = add_wrap(zx, 1);
    let ay = wrapping_abs(y);
    let aa = wrapping_abs(a);
    proof {
        lemma_shifted_magnitude(ay as int, 10);
        lemma_shifted_magnitude(aa as int, 1);
    }
    let b = div_trunc(rem_trunc(zx, add_wrap(ay, 10)), add_wrap(aa, 1));
    let q = if a == i32::MIN && divisor == -1 {
        proof {
            lemma_trunc_div_magnitude(a as int, divisor as int);
            lemma_wrap_to(trunc_div(a as int, divisor as int), i32::MIN as int, 1);
        }
        i32::MIN
    } else {
        proof {
            lemma_trunc_div_magnitude(a as int, divisor as int);
            lemma_wrap_id(trunc_div(a as int, divisor as int));
        }
        div_trunc(a, divisor)
    };
    let lin = add_wrap(mul_wrap(sub_wrap(5, mul_wrap(7, s)), x), mul_wrap(add_wrap(3, s), y));
    proof {
        lemma_wrap_id(7 * s);
        lemma_wrap_id(5 - 7 * s);
        lemma_wrap_id(3 + s);
    }
    Ok(HashTerms { seed: s, z, a, b, q, lin })
}

/// Determinism: the integer stage has no hidden state, so any two
/// evaluations on the same coordinates, seed and profile constants agree.
pub proof fn lemma_hash_deterministic(
    x: int,
    y: int,
    seed: int,
    row_mul: int,
    seed_div: int,
    first: Result<HashTerms, HashError>,
    second: Result<HashTerms, HashError>,
)
    requires
        first == hash_result(x, y, seed, row_mul, seed_div),
        second == hash_result(x, y, seed, row_mul, seed_div),
    ensures
        first == second,
{
}

} // verus!
