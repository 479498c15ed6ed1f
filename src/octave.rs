//! Octave schedule of the fractal combiner. Octave `i` (1 to 5) samples the
//! bilinear field at frequency `2^(k - i)` and contributes with weight `3^-i`;
//! weights are held exactly, in units of `3^-5`.
use vstd::arithmetic::power::{lemma_pow_increases, pow};
use vstd::arithmetic::power2::{lemma2_to64, pow2};
use vstd::prelude::*;

verus! {

pub const OCTAVES: u32 = 5;

/// `3^5`: an octave of weight `w` contributes `w / WEIGHT_UNIT`.
pub const WEIGHT_UNIT: u32 = 243;

/// Hash channels of the red, green and blue fractal fields.
pub const RED_SEED: i32 = 1;

pub const GREEN_SEED: i32 = 2;

pub const BLUE_SEED: i32 = 3;

/// One layer of the fractal sum.
#[derive(Clone, Copy, Debug, PartialEq, Eq, Structural)]
pub struct Octave {
    /// Index `i`, from 1 (coarsest) to 5 (finest).
    pub level: u32,
    /// Grid spacing `2^(k - i)`.
    pub freq: i32,
    /// `3^(5 - i)`, that is `3^-i` in units of `3^-5`.
    pub weight: u32,
}

pub open spec fn octave_at(exp: nat, level: nat) -> Octave {
    Octave {
        level: level as u32,
        freq: pow(2, (exp - level) as nat) as i32,
        weight: pow(3, (5 - level) as nat) as u32,
    }
}

/// The five octaves of exponent `exp`, coarsest first.
pub open spec fn plan_of(exp: nat) -> Seq<Octave> {
    Seq::new(OCTAVES as nat, |j: int| octave_at(exp, (j + 1) as nat))
}

pub open spec fn total_weight(plan: Seq<Octave>) -> int
    decreases plan.len(),
{
    if plan.len() == 0 {
        0
    } else {
        total_weight(plan.drop_last()) + plan.last().weight
    }
}

/// `base^e` for a result that fits in `u32`.
fn power(base: u32, e: u32) -> (r: u32)
    requires
        base >= 1,
        pow(base as int, e as nat) <= u32::MAX,
    ensures
        r == pow(base as int, e as nat),
{
    let mut r: u32 = 1;
    let mut i: u32 = 0;
    proof {
        reveal(pow);
    }
    while i < e
        invariant
            i <= e,
            base >= 1,
            r == pow(base as int, i as nat),
            pow(base as int, e as nat) <= u32::MAX,
        decreases e - i,
    {
        proof {
            reveal(pow);
            lemma_pow_increases(base as nat, (i + 1) as nat, e as nat);
            assert(pow(base as int, (i + 1) as nat) == base * pow(base as int, i as nat));
        }
        r = r * base;
        i = i + 1;
    }
    r
}

/// The octave schedule for frequency exponent `exp`.
pub fn octave_plan(exp: u32) -> (r: Vec<Octave>)
    requires
        5 <= exp <= 31,
    ensures
        r@ == plan_of(exp as nat),
{
    let mut plan: Vec<Octave> = Vec::new();
    let mut level: u32 = 1;
    proof {
        lemma2_to64();
    }
    while level <= OCTAVES
        invariant
            5 <= exp <= 31,
            1 <= level <= OCTAVES + 1,
            plan@.len() == level - 1,
            pow2(30) == 0x4000_0000,
            forall|j: int| 0 <= j < plan@.len() ==> plan@[j] == octave_at(exp as nat, (j + 1) as nat),
        decreases OCTAVES + 1 - level,
    {
        proof {
            lemma_pow_increases(2, (exp - level) as nat, 30);
            lemma_pow_increases(3, (OCTAVES - level) as nat, 4);
            lemma_pow3_values();
        }
        let freq = power(2, exp - level);
        let weight = power(3, OCTAVES - level);
        plan.push(Octave { level, freq: freq as i32, weight });
        level = level + 1;
    }
    assert(plan@ =~= plan_of(exp as nat));
    plan
}

/// Small powers of three.
proof fn lemma_pow3_values()
    ensures
        pow(3, 0) == 1,
        pow(3, 1) == 3,
        pow(3, 2) == 9,
        pow(3, 3) == 27,
        pow(3, 4) == 81,
        pow(3, 5) == 243,
{
    reveal(pow);
    assert(pow(3, 0) == 1);
    assert(pow(3, 1) == 3);
    assert(pow(3, 2) == 9);
    assert(pow(3, 3) == 27);
    assert(pow(3, 4) == 81);
    assert(pow(3, 5) == 243);
}

/// Octave normalisation: octave `i` weighs exactly `3^-i` (its weight times
/// `3^i` is the unit `3^5`), and the five weights sum to `121 / 243`, which is
/// `3^-1 + 3^-2 + 3^-3 + 3^-4 + 3^-5`.
pub proof fn lemma_octave_weights(exp: nat)
    requires
        5 <= exp <= 31,
    ensures
        forall|j: int|
            0 <= j < OCTAVES ==> #[trigger] plan_of(exp)[j].weight * pow(3, (j + 1) as nat)
                == WEIGHT_UNIT,
        total_weight(plan_of(exp)) == 121,
{
    lemma_pow3_values();
    let p = plan_of(exp);
    assert(p[0].weight == 81 && p[1].weight == 27 && p[2].weight == 9 && p[3].weight == 3
        && p[4].weight == 1);
    assert(p.drop_last().drop_last().drop_last().drop_last().drop_last() =~= Seq::<
        Octave,
    >::empty());
    assert(total_weight(p) == 121) by {
        reveal_with_fuel(total_weight, 6);
        assert(p.drop_last()[3] == p[3]);
    }
}

} // verus!
