//! Waiting times that vary around a nominal period.

use vstd::prelude::*;

verus! {

/// A fraction between 0 and 1, both included.
#[derive(Clone, Copy, Debug)]
pub struct Fraction {
    numerator: u32,
    denominator: u32,
}

impl Fraction {
    /// Whether the fraction lies between 0 and 1. Every fraction that
    /// executable code holds does.
    #[verifier::type_invariant]
    pub closed spec fn wf(self) -> bool {
        0 < self.denominator && self.numerator <= self.denominator
    }

    /// The number above the line.
    pub closed spec fn spec_numerator(self) -> int {
        self.numerator as int
    }

    /// The number below the line.
    pub closed spec fn spec_denominator(self) -> int {
        self.denominator as int
    }

    /// The fraction `numerator / denominator`, where that lies between 0 and
    /// 1; nothing where the denominator is 0 or the fraction exceeds 1.
    pub fn new(numerator: u32, denominator: u32) -> (fraction: Option<Fraction>)
        ensures
            fraction is Some <==> 0 < denominator && numerator <= denominator,
            fraction matches Some(f) ==> f.wf() && f.spec_numerator() == numerator
                && f.spec_denominator() == denominator,
    {
        if 0 < denominator && numerator <= denominator {
            Some(Fraction { numerator, denominator })
        } else {
            None
        }
    }

    /// The number above the line.
    pub fn numerator(&self) -> (n: u32)
        ensures
            n == self.spec_numerator(),
    {
        self.numerator
    }

    /// The number below the line.
    pub fn denominator(&self) -> (d: u32)
        ensures
            d == self.spec_denominator(),
    {
        self.denominator
    }

    /// Every fraction lies between 0 and 1.
    pub proof fn lemma_in_unit_interval(self)
        requires
            self.wf(),
        ensures
            0 <= self.spec_numerator() <= self.spec_denominator(),
            0 < self.spec_denominator() <= u32::MAX,
    {
    }
}

/// The variance with which rotation cycles are jittered: a quarter.
pub closed spec fn spec_cycle_variance() -> Fraction {
    Fraction { numerator: 1, denominator: 4 }
}

/// The variance with which rotation cycles are jittered: a quarter.
pub fn cycle_variance() -> (variance: Fraction)
    ensures
        variance == spec_cycle_variance(),
{
    Fraction { numerator: 1, denominator: 4 }
}

/// The cycle variance is the fraction 1/4.
pub proof fn lemma_cycle_variance_is_a_quarter()
    ensures
        spec_cycle_variance().wf(),
        spec_cycle_variance().spec_numerator() == 1,
        spec_cycle_variance().spec_denominator() == 4,
{
}

/// The denominator over which the jittered time is an exact fraction.
pub open spec fn spec_jitter_denominator(variance: Fraction, base: Fraction) -> int {
    2 * base.spec_denominator() * variance.spec_denominator()
}

/// The numerator of the jittered time over `spec_jitter_denominator`: the
/// quotient is `seconds + seconds * (base - 1/2) * variance`.
pub open spec fn spec_jitter_numerator(seconds: int, variance: Fraction, base: Fraction) -> int {
    seconds * (2 * base.spec_denominator() * variance.spec_denominator() + (2
        * base.spec_numerator() - base.spec_denominator()) * variance.spec_numerator())
}

/// The jittered time in whole seconds: the exact fraction rounded to the
/// nearest whole number, a half rounded up.
pub open spec fn spec_jittered_seconds(seconds: int, variance: Fraction, base: Fraction) -> int {
    (2 * spec_jitter_numerator(seconds, variance, base) + spec_jitter_denominator(variance, base))
        / (2 * spec_jitter_denominator(variance, base))
}

/// The jittered time is a well-defined, non-negative fraction that lies
/// between `seconds * (1 - variance / 2)` and `seconds * (1 + variance / 2)`,
/// both included, whatever the base. The bounds are stated with the
/// denominators multiplied out.
pub proof fn law_jitter_within_bounds(seconds: int, variance: Fraction, base: Fraction)
    requires
        0 <= seconds,
        variance.wf(),
        base.wf(),
    ensures
        0 < spec_jitter_denominator(variance, base),
        0 <= spec_jitter_numerator(seconds, variance, base),
        seconds * (2 * variance.spec_denominator() - variance.spec_numerator())
            * spec_jitter_denominator(variance, base) <= spec_jitter_numerator(
            seconds,
            variance,
            base,
        ) * (2 * variance.spec_denominator()),
        spec_jitter_numerator(seconds, variance, base) * (2 * variance.spec_denominator())
            <= seconds * (2 * variance.spec_denominator() + variance.spec_numerator())
            * spec_jitter_denominator(variance, base),
{
    variance.lemma_in_unit_interval();
    base.lemma_in_unit_interval();
    let vn = variance.spec_numerator();
    let vd = variance.spec_denominator();
    let bn = base.spec_numerator();
    let bd = base.spec_denominator();
    let num = spec_jitter_numerator(seconds, variance, base);
    let den = spec_jitter_denominator(variance, base);
    lemma_jitter_arithmetic(seconds, vn, vd, bn, bd);
}

/// The whole seconds are the whole number nearest to the exact jittered
/// time: they differ from it by half a second at most, and a time that ends
/// on a half is rounded up.
pub proof fn law_jitter_rounds_to_nearest(seconds: int, variance: Fraction, base: Fraction)
    requires
        0 <= seconds,
        variance.wf(),
        base.wf(),
    ensures
        2 * spec_jitter_numerator(seconds, variance, base) - spec_jitter_denominator(
            variance,
            base,
        ) < 2 * spec_jittered_seconds(seconds, variance, base) * spec_jitter_denominator(
            variance,
            base,
        ) <= 2 * spec_jitter_numerator(seconds, variance, base) + spec_jitter_denominator(
            variance,
            base,
        ),
{
    law_jitter_within_bounds(seconds, variance, base);
    let num = spec_jitter_numerator(seconds, variance, base);
    let den = spec_jitter_denominator(variance, base);
    let wait = spec_jittered_seconds(seconds, variance, base);
    assert(2 * num - den < 2 * wait * den <= 2 * num + den) by (nonlinear_arith)
        requires
            0 < den,
            0 <= num,
            wait == (2 * num + den) / (2 * den),
    ;
}

/// With no variance the time is not moved, and neither is it when the base
/// lies at a half.
pub proof fn law_jitter_keeps_nominal(seconds: int, variance: Fraction, base: Fraction)
    requires
        0 <= seconds,
        variance.wf(),
        base.wf(),
        variance.spec_numerator() == 0 || 2 * base.spec_numerator() == base.spec_denominator(),
    ensures
        spec_jittered_seconds(seconds, variance, base) == seconds,
{
    variance.lemma_in_unit_interval();
    base.lemma_in_unit_interval();
    let vn = variance.spec_numerator();
    let vd = variance.spec_denominator();
    let bn = base.spec_numerator();
    let bd = base.spec_denominator();
    let den = spec_jitter_denominator(variance, base);
    let num = spec_jitter_numerator(seconds, variance, base);
    assert((2 * bn - bd) * vn == 0) by (nonlinear_arith)
        requires
            vn == 0 || 2 * bn == bd,
    ;
    assert(0 < den) by (nonlinear_arith)
        requires
            den == 2 * bd * vd,
            0 < bd,
            0 < vd,
    ;
    assert(num == seconds * den);
    assert((2 * (seconds * den) + den) / (2 * den) == seconds) by (nonlinear_arith)
        requires
            0 < den,
            0 <= seconds,
    ;
}

/// The arithmetic behind the bounds, on plain integers.
proof fn lemma_jitter_arithmetic(n: int, vn: int, vd: int, bn: int, bd: int)
    requires
        0 <= n,
        0 <= vn <= vd,
        0 < vd,
        0 <= bn <= bd,
        0 < bd,
    ensures
        0 < 2 * bd * vd,
        0 <= n * (2 * bd * vd + (2 * bn - bd) * vn),
        n * (2 * vd - vn) * (2 * bd * vd) <= n * (2 * bd * vd + (2 * bn - bd) * vn) * (2 * vd),
        n * (2 * bd * vd + (2 * bn - bd) * vn) * (2 * vd) <= n * (2 * vd + vn) * (2 * bd * vd),
        bd * vd <= 2 * bd * vd + (2 * bn - bd) * vn <= 3 * (bd * vd),
{
    assert(0 < bd * vd) by (nonlinear_arith)
        requires
            0 < bd,
            0 < vd,
    ;
    assert(bd * vn <= bd * vd) by (nonlinear_arith)
        requires
            0 < bd,
            0 <= vn <= vd,
    ;
    assert(-(bd * vn) <= (2 * bn - bd) * vn <= bd * vn) by (nonlinear_arith)
        requires
            0 <= bn <= bd,
            0 <= vn,
    ;
    let f = 2 * bd * vd + (2 * bn - bd) * vn;
    assert(2 * bd * vd == 2 * (bd * vd)) by (nonlinear_arith);
    assert((2 * vd - vn) * bd == 2 * (bd * vd) - bd * vn) by (nonlinear_arith);
    assert((2 * vd + vn) * bd == 2 * (bd * vd) + bd * vn) by (nonlinear_arith);
    assert((2 * vd - vn) * bd <= f <= (2 * vd + vn) * bd);
    assert(0 <= n * f) by (nonlinear_arith)
        requires
            0 <= n,
            0 <= f,
    ;
    assert(n * (2 * vd - vn) * (2 * bd * vd) <= n * f * (2 * vd)) by (nonlinear_arith)
        requires
            0 <= n,
            0 < vd,
            (2 * vd - vn) * bd <= f,
    ;
    assert(n * f * (2 * vd) <= n * (2 * vd + vn) * (2 * bd * vd)) by (nonlinear_arith)
        requires
            0 <= n,
            0 < vd,
            f <= (2 * vd + vn) * bd,
    ;
}

/// The time to wait in whole seconds: `seconds`, moved by the `variance`
/// share of itself as far as `base` lies from a half, then rounded to the
/// nearest second.
pub fn jittered_seconds(seconds: u32, variance: Fraction, base: Fraction) -> (wait: u64)
    ensures
        wait == spec_jittered_seconds(seconds as int, variance, base),
{
    proof {
        use_type_invariant(variance);
        use_type_invariant(base);
        variance.lemma_in_unit_interval();
        base.lemma_in_unit_interval();
        lemma_jitter_arithmetic(
            seconds as int,
            variance.spec_numerator(),
            variance.spec_denominator(),
            base.spec_numerator(),
            base.spec_denominator(),
        );
    }
    let n: u128 = seconds as u128;
    let vn: u128 = variance.numerator as u128;
    let vd: u128 = variance.denominator as u128;
    let bn: u128 = base.numerator as u128;
    let bd: u128 = base.denominator as u128;
    assert(bd * vd <= 0x1_0000_0000 * 0x1_0000_0000) by (nonlinear_arith)
        requires
            bd <= 0x1_0000_0000,
            vd <= 0x1_0000_0000,
    ;
    assert(bn * vn <= bd * vd) by (nonlinear_arith)
        requires
            bn <= bd,
            vn <= vd,
    ;
    assert(bd * vn <= bd * vd) by (nonlinear_arith)
        requires
            vn <= vd,
    ;
    let whole: u128 = bd * vd;
    let up: u128 = bn * vn;
    let down: u128 = bd * vn;
    let factor: u128 = 2 * whole + 2 * up - down;
    assert(factor == 2 * bd * vd + (2 * bn - bd) * vn) by (nonlinear_arith)
        requires
            factor == 2 * (bd * vd) + 2 * (bn * vn) - bd * vn,
    ;
    assert(n * factor <= 0x1_0000_0000 * (3 * 0x1_0000_0000 * 0x1_0000_0000)) by (nonlinear_arith)
        requires
            n <= 0x1_0000_0000,
            factor <= 3 * whole,
            whole <= 0x1_0000_0000 * 0x1_0000_0000,
    ;
    let numerator: u128 = n * factor;
    let denominator: u128 = 2 * whole;
    assert(denominator == spec_jitter_denominator(variance, base)) by (nonlinear_arith)
        requires
            denominator == 2 * (bd * vd),
            bd == base.spec_denominator(),
            vd == variance.spec_denominator(),
    ;
    assert(numerator == spec_jitter_numerator(seconds as int, variance, base));
    let rounded: u128 = (2 * numerator + denominator) / (2 * denominator);
    assert(rounded <= 2 * n + 1) by (nonlinear_arith)
        requires
            rounded == (2 * numerator + denominator) / (2 * denominator),
            numerator == n * factor,
            denominator == 2 * whole,
            factor <= 3 * whole,
            0 < whole,
    ;
    rounded as u64
}

} // verus!
