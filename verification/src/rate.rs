//! The mathematical model of a frequency: a fraction at a magnitude tier.
//!
//! Every contract of `Frequency` is stated over its view, a `Rate`. The
//! functions here are integer arithmetic over unbounded naturals, with `/` as
//! the floor of the quotient. Where a value is divided by a product, it is
//! divided by one factor after the other, which is the same floor.

use crate::arith::lemma_cancel_common_factor;
use crate::arith::lemma_quotient_reaches;
use crate::clock::FreqRange;
use vstd::arithmetic::div_mod::lemma_div_denominator;
use vstd::prelude::*;

verus! {

/// The number of nanoseconds in a second, times the number of milli-hertz in a
/// hertz: a frequency of `m` milli-hertz has a period of `TICK_SCALE / m`
/// nanoseconds.
pub const TICK_SCALE: u64 = 1_000_000_000_000;

/// `numer / denom`, counted in units of `tier`.
pub struct Rate {
    pub tier: FreqRange,
    pub numer: nat,
    pub denom: nat,
}

impl Rate {
    /// The numerator once the tier is folded in: the rate is
    /// `millihertz() / denom` milli-hertz.
    pub open spec fn millihertz(self) -> nat {
        self.tier.spec_weight() * self.numer
    }

    /// The length of one period in whole nanoseconds: `denom / numer` periods
    /// of the tier's unit.
    pub open spec fn tick_nanos(self) -> nat
        recommends
            self.numer != 0,
    {
        (self.tier.spec_period() * self.denom) / self.numer
    }

    /// The number of whole periods in `nanos` nanoseconds.
    pub open spec fn ticks_in(self, nanos: nat) -> nat
        recommends
            self.denom != 0,
    {
        (nanos * self.numer) / self.tier.spec_period() / self.denom
    }

    /// The same rate counted in units of `tier`, rounded down to a whole
    /// number of them.
    pub open spec fn converted(self, tier: FreqRange) -> Rate
        recommends
            self.denom != 0,
    {
        Rate { tier, numer: self.millihertz() / tier.spec_weight() / self.denom, denom: 1 }
    }

    /// The rate in whole hertz, by which frequencies are compared.
    pub open spec fn hertz(self) -> nat
        recommends
            self.denom != 0,
    {
        self.converted(FreqRange::Hertz).numer
    }

    /// The rate multiplied by `n`.
    pub open spec fn times(self, n: nat) -> Rate {
        Rate { tier: self.tier, numer: self.numer * n, denom: self.denom }
    }

    /// The rate divided by `n`.
    pub open spec fn divided_by(self, n: nat) -> Rate {
        Rate { tier: self.tier, numer: self.numer, denom: self.denom * n }
    }

    /// How many times `other` goes into this rate, as a prescaler is set from
    /// it: the tiers are divided first, and rounded down, then the fractions.
    pub open spec fn ratio(self, other: Rate) -> nat
        recommends
            self.denom != 0,
            other.numer != 0,
    {
        (self.tier.spec_weight() / other.tier.spec_weight()) * self.numer * other.denom
            / self.denom / other.numer
    }
}

/// The numerator of a rate in milli-hertz is positive unless the rate is zero.
pub proof fn lemma_millihertz_positive(r: Rate)
    requires
        r.numer != 0,
    ensures
        r.millihertz() > 0,
{
    let w = r.tier.spec_weight() as int;
    let n = r.numer as int;
    assert(w * n > 0) by (nonlinear_arith)
        requires
            w >= 1,
            n >= 1,
    ;
}

/// The unit of a tier, taken `denom` times, is positive.
pub proof fn lemma_unit_positive(tier: FreqRange, denom: nat)
    requires
        denom != 0,
    ensures
        tier.spec_weight() * denom > 0,
{
    let w = tier.spec_weight() as int;
    let d = denom as int;
    assert(w * d > 0) by (nonlinear_arith)
        requires
            w >= 1,
            d >= 1,
    ;
}

/// The tick of a rate is the floor of one quotient:
/// `10^12 * denom / (weight * numer)`.
pub proof fn lemma_rate_tick(r: Rate)
    requires
        r.numer != 0,
    ensures
        r.millihertz() > 0,
        r.tick_nanos() == ((TICK_SCALE as nat) * r.denom) / r.millihertz(),
{
    lemma_millihertz_positive(r);
    let weight = r.tier.spec_weight() as int;
    let whole = (r.tier.spec_period() * r.denom) as int;
    assert(whole * weight == TICK_SCALE * r.denom && r.millihertz() == r.numer * weight)
        by (nonlinear_arith)
        requires
            whole == r.tier.spec_period() * r.denom,
            r.tier.spec_period() * weight == TICK_SCALE,
            r.millihertz() == weight * r.numer,
    ;
    lemma_cancel_common_factor(whole, r.numer as int, weight);
}

/// The pulses of a rate in a number of nanoseconds are the floor of one
/// quotient: `nanos * weight * numer / (denom * 10^12)`.
pub proof fn lemma_rate_ticks_in(r: Rate, nanos: nat)
    requires
        r.denom != 0,
    ensures
        r.denom * (TICK_SCALE as nat) > 0,
        r.ticks_in(nanos) == (nanos * r.millihertz()) / (r.denom * (TICK_SCALE as nat)),
{
    let weight = r.tier.spec_weight() as int;
    let period = r.tier.spec_period() as int;
    let counted = (nanos * r.numer) as int;
    assert(counted * weight == nanos * r.millihertz() && (period * r.denom) * weight == r.denom
        * TICK_SCALE && counted >= 0 && period * r.denom > 0) by (nonlinear_arith)
        requires
            counted == nanos * r.numer,
            r.millihertz() == weight * r.numer,
            period * weight == TICK_SCALE,
            r.denom >= 1,
            period >= 1,
    ;
    lemma_cancel_common_factor(counted, period * r.denom, weight);
    lemma_div_denominator(counted, period, r.denom as int);
}

/// The numerator of a converted rate is the floor of one quotient:
/// `weight * numer / (weight of the new tier * denom)`.
pub proof fn lemma_rate_converted(r: Rate, tier: FreqRange)
    requires
        r.denom != 0,
    ensures
        tier.spec_weight() * r.denom > 0,
        r.converted(tier).numer == r.millihertz() / (tier.spec_weight() * r.denom),
{
    lemma_unit_positive(tier, r.denom);
    lemma_div_denominator(r.millihertz() as int, tier.spec_weight() as int, r.denom as int);
}

/// The scale between two rates is the floor of one quotient: the quotient of
/// the tiers, rounded down, times the numerators crosswise, over the
/// denominators crosswise.
pub proof fn lemma_rate_ratio(a: Rate, b: Rate)
    requires
        a.denom != 0,
        b.numer != 0,
    ensures
        a.denom * b.numer > 0,
        a.ratio(b) == ((a.tier.spec_weight() / b.tier.spec_weight()) * (a.numer * b.denom)) / (
        a.denom * b.numer),
{
    let tiers = (a.tier.spec_weight() / b.tier.spec_weight()) as int;
    let cross = (a.numer * b.denom) as int;
    assert(tiers * cross >= 0 && tiers * a.numer * b.denom == tiers * cross && a.denom * b.numer
        > 0) by (nonlinear_arith)
        requires
            tiers >= 0,
            cross == a.numer * b.denom,
            a.denom >= 1,
            b.numer >= 1,
    ;
    lemma_div_denominator(tiers * cross, a.denom as int, b.numer as int);
}

/// Counted at a tier that is no finer, a rate has no larger a numerator.
pub proof fn lemma_rate_coarser(r: Rate, tier: FreqRange)
    requires
        r.denom != 0,
        r.tier.spec_weight() <= tier.spec_weight(),
    ensures
        r.converted(tier).numer <= r.numer,
{
    lemma_rate_converted(r, tier);
    let unit = (tier.spec_weight() * r.denom) as int;
    let scaled = r.millihertz() as int;
    assert((r.numer + 1) * unit > scaled) by (nonlinear_arith)
        requires
            unit == tier.spec_weight() * r.denom,
            scaled == r.tier.spec_weight() * r.numer,
            r.tier.spec_weight() <= tier.spec_weight(),
            r.tier.spec_weight() >= 1,
            r.denom >= 1,
    ;
    lemma_quotient_reaches(scaled, unit, r.numer as int + 1);
}

} // verus!
