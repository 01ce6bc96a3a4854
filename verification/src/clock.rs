//! Clock frequencies.
//!
//! A `Frequency` is a fraction of two 32-bit integers at one of four magnitude
//! tiers. From it come the duration of one clock pulse and the number of pulses
//! in a duration, in integer arithmetic only.

use crate::duration::duration_nanos;
use crate::rate::lemma_rate_converted;
use crate::rate::lemma_rate_ratio;
use crate::rate::lemma_rate_coarser;
use crate::rate::lemma_rate_tick;
use crate::rate::lemma_rate_ticks_in;
use crate::rate::Rate;
use crate::rate::TICK_SCALE;
use core::cmp::Ordering;
use core::ops::Div;
use core::ops::Mul;
use core::time::Duration;
use vstd::arithmetic::div_mod::lemma_div_denominator;
use vstd::arithmetic::div_mod::lemma_fundamental_div_mod;
use vstd::arithmetic::div_mod::lemma_fundamental_div_mod_converse;
use vstd::arithmetic::div_mod::lemma_mod_bound;
use vstd::prelude::*;

verus! {

/// The magnitude tier of a frequency.
#[derive(Clone, Copy, Debug, PartialEq, Eq, Structural)]
pub enum FreqRange {
    MegaHertz,
    KiloHertz,
    Hertz,
    MilliHertz,
}

impl FreqRange {
    /// The number of milli-hertz in one unit of the tier.
    pub open spec fn spec_weight(self) -> nat {
        match self {
            FreqRange::MegaHertz => 1_000_000_000,
            FreqRange::KiloHertz => 1_000_000,
            FreqRange::Hertz => 1_000,
            FreqRange::MilliHertz => 1,
        }
    }

    /// The number of nanoseconds in one period of one unit of the tier.
    pub open spec fn spec_period(self) -> nat {
        match self {
            FreqRange::MegaHertz => 1_000,
            FreqRange::KiloHertz => 1_000_000,
            FreqRange::Hertz => 1_000_000_000,
            FreqRange::MilliHertz => 1_000_000_000_000,
        }
    }

    /// The number of milli-hertz in one unit of the tier.
    pub fn weight(&self) -> (w: u64)
        ensures
            w == self.spec_weight(),
    {
        match self {
            FreqRange::MegaHertz => 1_000_000_000,
            FreqRange::KiloHertz => 1_000_000,
            FreqRange::Hertz => 1_000,
            FreqRange::MilliHertz => 1,
        }
    }
}

/// Frequency abstraction.
///
/// The value is `numerator / denominator` at the tier `resolution`. The
/// denominator is never zero.
#[derive(Clone, Copy, Debug)]
pub struct Frequency {
    pub(crate) resolution: FreqRange,
    pub(crate) numerator: u32,
    pub(crate) denominator: u32,
}

impl View for Frequency {
    type V = Rate;

    closed spec fn view(&self) -> Rate {
        Rate {
            tier: self.resolution,
            numer: self.numerator as nat,
            denom: self.denominator as nat,
        }
    }
}

impl Frequency {
    /// What holds of every frequency: the denominator is not zero, and both
    /// parts fit in 32 bits.
    #[verifier::type_invariant]
    pub open spec fn wf(&self) -> bool {
        &&& self@.denom != 0
        &&& self@.numer <= u32::MAX
        &&& self@.denom <= u32::MAX
    }

    /// `value` units of the tier `resolution`.
    pub fn new(value: u32, resolution: FreqRange) -> (f: Frequency)
        ensures
            f@ == (Rate { tier: resolution, numer: value as nat, denom: 1 }),
    {
        Frequency { resolution, numerator: value, denominator: 1 }
    }

    /// The tier at which the frequency is counted.
    pub fn resolution(&self) -> (r: FreqRange)
        ensures
            r == self@.tier,
    {
        self.resolution
    }

    /// The numerator of the fraction.
    pub fn numerator(&self) -> (n: u32)
        ensures
            n == self@.numer,
    {
        self.numerator
    }

    /// The denominator of the fraction, which is never zero.
    pub fn denominator(&self) -> (n: u32)
        ensures
            n == self@.denom,
            n != 0,
    {
        proof {
            use_type_invariant(self);
        }
        self.denominator
    }

    /// The frequency in whole hertz, rounded down.
    fn hertz(&self) -> (hz: u64)
        ensures
            hz == self@.hertz(),
    {
        proof {
            use_type_invariant(self);
            lemma_weighted_fits(self.resolution.spec_weight(), self.numerator);
            lemma_weighted_fits(1_000, self.denominator);
            lemma_div_denominator(self@.millihertz() as int, 1_000, self.denominator as int);
        }
        let scaled: u64 = self.resolution.weight() * (self.numerator as u64);
        scaled / (1_000 * (self.denominator as u64))
    }

    /// Return the duration of single clock pulse.
    ///
    /// The duration is `10^12 * denominator / (numerator * weight)` nanoseconds,
    /// rounded down. A frequency of zero has no pulse.
    pub fn tick(&self) -> (d: Duration)
        requires
            self@.numer != 0,
        ensures
            duration_nanos(d) == self@.tick_nanos(),
            duration_nanos(d) == (1_000_000_000_000 * self@.denom) / self@.millihertz(),
    {
        proof {
            use_type_invariant(self);
            lemma_weighted_fits(self.resolution.spec_weight(), self.numerator);
            lemma_rate_tick(self@);
        }
        let scaled: u64 = self.resolution.weight() * (self.numerator as u64);
        assert(TICK_SCALE * self.denominator <= 1_000_000_000_000 * 0xffff_ffff);
        let period: u128 = (TICK_SCALE as u128) * (self.denominator as u128) / (scaled as u128);
        assert(period <= TICK_SCALE * self.denominator) by (nonlinear_arith)
            requires
                period == (TICK_SCALE * self.denominator) / (scaled as int),
                scaled > 0,
        ;
        let secs: u64 = (period / 1_000_000_000) as u64;
        let nanos: u32 = (period % 1_000_000_000) as u32;
        Duration::new(secs, nanos)
    }

    /// Return the number of entire clock pulse within a duration.
    ///
    /// The count is `nanoseconds * weight * numerator / (denominator * 10^12)`,
    /// rounded down, and must fit in 64 bits. The product is formed in two
    /// parts, over the whole multiples of `10^12` nanoseconds and over the
    /// rest, so that neither part overflows.
    pub fn ticks_in(&self, d: Duration) -> (n: u64)
        requires
            self@.ticks_in(duration_nanos(d)) <= u64::MAX,
        ensures
            n == self@.ticks_in(duration_nanos(d)),
            n == (duration_nanos(d) * self@.millihertz()) / (self@.denom * 1_000_000_000_000),
    {
        proof {
            use_type_invariant(self);
            lemma_weighted_fits(self.resolution.spec_weight(), self.numerator);
        }
        let scaled: u64 = self.resolution.weight() * (self.numerator as u64);
        let nanos: u128 = (d.as_secs() as u128) * 1_000_000_000 + (d.subsec_nanos() as u128);
        let whole: u128 = nanos / (TICK_SCALE as u128);
        let rest: u128 = nanos % (TICK_SCALE as u128);
        assert(nanos == duration_nanos(d));
        assert(whole == nanos / 1_000_000_000_000 && rest == nanos % 1_000_000_000_000);
        assert(whole * scaled <= 18_446_744_073_709_552 * (1_000_000_000 * 0xffff_ffff) && rest
            * scaled <= 1_000_000_000_000 * (1_000_000_000 * 0xffff_ffff)) by (nonlinear_arith)
            requires
                whole <= 18_446_744_073_709_552,
                rest <= 1_000_000_000_000,
                scaled <= 1_000_000_000 * 0xffff_ffff,
        ;
        let counted: u128 = whole * (scaled as u128) + rest * (scaled as u128) / (
        TICK_SCALE as u128);
        proof {
            // counted is nanos * scaled / 10^12, and over den it is the count.
            let carried = (rest * scaled) / (TICK_SCALE as int);
            lemma_fundamental_div_mod(rest * scaled, TICK_SCALE as int);
            lemma_mod_bound(rest * scaled, TICK_SCALE as int);
            assert(nanos * scaled == (whole * scaled + carried) * TICK_SCALE + (rest * scaled) % (
            TICK_SCALE as int)) by (nonlinear_arith)
                requires
                    nanos == whole * TICK_SCALE + rest,
                    rest * scaled == TICK_SCALE * carried + (rest * scaled) % (TICK_SCALE as int),
            ;
            lemma_fundamental_div_mod_converse(
                nanos * scaled,
                TICK_SCALE as int,
                whole * scaled + carried,
                (rest * scaled) % (TICK_SCALE as int),
            );
            assert(nanos * scaled >= 0) by (nonlinear_arith)
                requires
                    nanos >= 0,
                    scaled >= 0,
            ;
            lemma_div_denominator(nanos * scaled, TICK_SCALE as int, self.denominator as int);
            lemma_rate_ticks_in(self@, duration_nanos(d));
            assert(TICK_SCALE * self.denominator == self@.denom * (TICK_SCALE as nat))
                by (nonlinear_arith)
                requires
                    self@.denom == self.denominator,
            ;
        }
        (counted / (self.denominator as u128)) as u64
    }

    /// The frequency counted at the tier `range`, with denominator 1.
    fn rescaled(&self, range: FreqRange) -> (f: Frequency)
        requires
            self@.converted(range).numer <= u32::MAX,
        ensures
            f@ == self@.converted(range),
            f@.numer == self@.millihertz() / (range.spec_weight() * self@.denom),
    {
        proof {
            use_type_invariant(self);
            lemma_weighted_fits(self.resolution.spec_weight(), self.numerator);
            lemma_weighted_fits(range.spec_weight(), self.denominator);
            lemma_rate_converted(self@, range);
        }
        let scaled: u64 = self.resolution.weight() * (self.numerator as u64);
        let unit: u64 = range.weight() * (self.denominator as u64);
        Frequency { resolution: range, numerator: (scaled / unit) as u32, denominator: 1 }
    }

    /// Change the frequency range in hertz.
    ///
    /// The numerator is rounded down to whole hertz and must fit in 32 bits.
    /// This is useful only for printing.
    pub fn into_hertz(&self) -> (f: Frequency)
        requires
            self@.converted(FreqRange::Hertz).numer <= u32::MAX,
        ensures
            f@ == self@.converted(FreqRange::Hertz),
            f@.numer == self@.millihertz() / (1_000 * self@.denom),
    {
        self.rescaled(FreqRange::Hertz)
    }

    /// Change the frequency range in kilo-hertz.
    ///
    /// The numerator is rounded down to whole kilo-hertz and must fit in 32
    /// bits. This is useful only for printing.
    pub fn into_kilo(&self) -> (f: Frequency)
        requires
            self@.converted(FreqRange::KiloHertz).numer <= u32::MAX,
        ensures
            f@ == self@.converted(FreqRange::KiloHertz),
            f@.numer == self@.millihertz() / (1_000_000 * self@.denom),
    {
        self.rescaled(FreqRange::KiloHertz)
    }

    /// Change the frequency range in mega-hertz.
    ///
    /// The numerator is rounded down to whole mega-hertz, and always fits in
    /// 32 bits. This is useful only for printing.
    pub fn into_mega(&self) -> (f: Frequency)
        ensures
            f@ == self@.converted(FreqRange::MegaHertz),
            f@.numer == self@.millihertz() / (1_000_000_000 * self@.denom),
    {
        proof {
            use_type_invariant(self);
            lemma_rate_coarser(self@, FreqRange::MegaHertz);
        }
        self.rescaled(FreqRange::MegaHertz)
    }

    /// Change the frequency range in milli-hertz.
    ///
    /// The numerator must fit in 32 bits. This is useful only for printing.
    pub fn into_milli(&self) -> (f: Frequency)
        requires
            self@.converted(FreqRange::MilliHertz).numer <= u32::MAX,
        ensures
            f@ == self@.converted(FreqRange::MilliHertz),
            f@.numer == self@.millihertz() / self@.denom,
    {
        self.rescaled(FreqRange::MilliHertz)
    }
}

impl Div<u32> for Frequency {
    type Output = Frequency;

    /// Allow to scale down a frequency: the denominator is multiplied by
    /// `rhs`. The divisor is not zero, and the new denominator fits in 32 bits.
    fn div(self, rhs: u32) -> (f: Frequency)
        ensures
            f@ == self@.divided_by(rhs as nat),
            f@.tier == self@.tier,
            f@.numer == self@.numer,
            f@.denom == self@.denom * rhs,
    {
        proof {
            use_type_invariant(self);
        }
        assert(self.denominator * rhs != 0) by (nonlinear_arith)
            requires
                self.denominator >= 1,
                rhs >= 1,
        ;
        Frequency {
            resolution: self.resolution,
            numerator: self.numerator,
            denominator: self.denominator * rhs,
        }
    }
}

impl vstd::std_specs::ops::DivSpecImpl<u32> for Frequency {
    open spec fn obeys_div_spec() -> bool {
        true
    }

    open spec fn div_req(self, rhs: u32) -> bool {
        &&& rhs != 0
        &&& self@.denom * rhs <= u32::MAX
    }

    closed spec fn div_spec(self, rhs: u32) -> Frequency {
        Frequency {
            resolution: self.resolution,
            numerator: self.numerator,
            denominator: (self.denominator * rhs) as u32,
        }
    }
}

impl Mul<u32> for Frequency {
    type Output = Frequency;

    /// Allow to scale up a frequency: the numerator is multiplied by `rhs`.
    /// The new numerator fits in 32 bits.
    fn mul(self, rhs: u32) -> (f: Frequency)
        ensures
            f@ == self@.times(rhs as nat),
            f@.tier == self@.tier,
            f@.numer == self@.numer * rhs,
            f@.denom == self@.denom,
    {
        proof {
            use_type_invariant(self);
        }
        Frequency {
            resolution: self.resolution,
            numerator: self.numerator * rhs,
            denominator: self.denominator,
        }
    }
}

impl vstd::std_specs::ops::MulSpecImpl<u32> for Frequency {
    open spec fn obeys_mul_spec() -> bool {
        true
    }

    open spec fn mul_req(self, rhs: u32) -> bool {
        self@.numer * rhs <= u32::MAX
    }

    closed spec fn mul_spec(self, rhs: u32) -> Frequency {
        Frequency {
            resolution: self.resolution,
            numerator: (self.numerator * rhs) as u32,
            denominator: self.denominator,
        }
    }
}

impl Div<Frequency> for Frequency {
    type Output = u32;

    /// Give the scale between 2 frequency.
    ///
    /// Particularly useful for selecting pre-scale value on MCU. The divisor
    /// is not a frequency of zero, and the scale fits in 32 bits.
    fn div(self, rhs: Frequency) -> (scale: u32)
        ensures
            scale == self@.ratio(rhs@),
            scale == ((self@.tier.spec_weight() / rhs@.tier.spec_weight()) * (self@.numer
                * rhs@.denom)) / (self@.denom * rhs@.numer),
    {
        proof {
            use_type_invariant(self);
            use_type_invariant(rhs);
        }
        let tiers: u64 = self.resolution.weight() / rhs.resolution.weight();
        proof {
            lemma_product_fits(self.numerator, rhs.denominator);
            lemma_product_fits(self.denominator, rhs.numerator);
        }
        let cross: u64 = (self.numerator as u64) * (rhs.denominator as u64);
        let under: u64 = (self.denominator as u64) * (rhs.numerator as u64);
        assert(tiers * cross <= 1_000_000_000 * (0xffff_ffff * 0xffff_ffff)) by (nonlinear_arith)
            requires
                tiers <= 1_000_000_000,
                cross <= 0xffff_ffff * 0xffff_ffff,
        ;
        proof {
            lemma_rate_ratio(self@, rhs@);
        }
        let scale: u128 = (tiers as u128) * (cross as u128) / (under as u128);
        scale as u32
    }
}

impl vstd::std_specs::ops::DivSpecImpl<Frequency> for Frequency {
    open spec fn obeys_div_spec() -> bool {
        true
    }

    open spec fn div_req(self, rhs: Frequency) -> bool {
        &&& rhs@.numer != 0
        &&& self@.ratio(rhs@) <= u32::MAX
    }

    open spec fn div_spec(self, rhs: Frequency) -> u32 {
        self@.ratio(rhs@) as u32
    }
}

impl Frequency {
    /// How two frequencies compare: by their whole hertz. Frequencies that
    /// differ by less than one hertz compare as equal.
    pub open spec fn ordering(&self, other: &Frequency) -> Ordering {
        if self@.hertz() < other@.hertz() {
            Ordering::Less
        } else if self@.hertz() > other@.hertz() {
            Ordering::Greater
        } else {
            Ordering::Equal
        }
    }

    /// Compare two frequencies by their whole hertz.
    pub fn cmp(&self, other: &Frequency) -> (o: Ordering)
        ensures
            o == self.ordering(other),
    {
        let left = self.hertz();
        let right = other.hertz();
        if left < right {
            Ordering::Less
        } else if left > right {
            Ordering::Greater
        } else {
            Ordering::Equal
        }
    }
}

impl PartialEq for Frequency {
    /// Two frequencies are equal when they are the same number of whole hertz.
    fn eq(&self, other: &Frequency) -> (b: bool) {
        let left = self.hertz();
        let right = other.hertz();
        left == right
    }
}

impl vstd::std_specs::cmp::PartialEqSpecImpl for Frequency {
    open spec fn obeys_eq_spec() -> bool {
        true
    }

    open spec fn eq_spec(&self, other: &Frequency) -> bool {
        self@.hertz() == other@.hertz()
    }
}

impl Eq for Frequency {

}

impl PartialOrd for Frequency {
    /// Frequencies are ordered by their whole hertz; any two of them compare.
    fn partial_cmp(&self, other: &Frequency) -> (o: Option<Ordering>) {
        Some(self.cmp(other))
    }
}

impl vstd::std_specs::cmp::PartialOrdSpecImpl for Frequency {
    open spec fn obeys_partial_cmp_spec() -> bool {
        true
    }

    open spec fn partial_cmp_spec(&self, other: &Frequency) -> Option<Ordering> {
        Some(self.ordering(other))
    }
}

/// `value` raised to `min` where it is below, then lowered to `max` where it
/// is above. Where the bounds cross, that is `max`.
pub open spec fn clamped(value: u32, min: u32, max: u32) -> u32 {
    let raised = if value < min {
        min
    } else {
        value
    };
    if raised > max {
        max
    } else {
        raised
    }
}

/// Extension trait that adds convenience methods to the `u32` type.
pub trait U32Ext {
    /// Wrap in Frequency, as hertz.
    fn hz(self) -> Frequency;

    /// Wrap in Frequency, as kilo-hertz.
    fn khz(self) -> Frequency;

    /// Wrap in Frequency, as mega-hertz.
    fn mhz(self) -> Frequency;

    /// Wrap in millisecond Duration.
    fn ms(self) -> Duration;

    /// Wrap in microsecond Duration.
    fn us(self) -> Duration;

    /// Wrap in second Duration.
    fn s(self) -> Duration;

    /// Make the value stay in between 2 bounds.
    fn clamp(self, min: u32, max: u32) -> u32;
}

impl U32Ext for u32 {
    fn hz(self) -> (f: Frequency)
        ensures
            f@ == (Rate { tier: FreqRange::Hertz, numer: self as nat, denom: 1 }),
    {
        Frequency::new(self, FreqRange::Hertz)
    }

    fn khz(self) -> (f: Frequency)
        ensures
            f@ == (Rate { tier: FreqRange::KiloHertz, numer: self as nat, denom: 1 }),
    {
        Frequency::new(self, FreqRange::KiloHertz)
    }

    fn mhz(self) -> (f: Frequency)
        ensures
            f@ == (Rate { tier: FreqRange::MegaHertz, numer: self as nat, denom: 1 }),
    {
        Frequency::new(self, FreqRange::MegaHertz)
    }

    fn s(self) -> (d: Duration)
        ensures
            duration_nanos(d) == self * 1_000_000_000,
    {
        Duration::from_secs(self as u64)
    }

    fn ms(self) -> (d: Duration)
        ensures
            duration_nanos(d) == self * 1_000_000,
    {
        Duration::from_millis(self as u64)
    }

    fn us(self) -> (d: Duration)
        ensures
            duration_nanos(d) == self * 1_000,
    {
        Duration::from_micros(self as u64)
    }

    fn clamp(self, min: u32, max: u32) -> u32
        returns
            clamped(self, min, max),
    {
        let lower = if self < min {
            min
        } else {
            self
        };
        if lower > max {
            max
        } else {
            lower
        }
    }
}

/// The product of two 32-bit counts fits in 64 bits, and is zero only if one
/// of them is.
proof fn lemma_product_fits(a: u32, b: u32)
    by (nonlinear_arith)
    ensures
        a * b <= 0xffff_ffff * 0xffff_ffff,
        a * b <= u64::MAX,
        a != 0 && b != 0 ==> a * b != 0,
{
}

/// A tier weight times a 32-bit count fits in 64 bits, and is zero only if
/// one of them is.
proof fn lemma_weighted_fits(weight: nat, count: u32)
    by (nonlinear_arith)
    requires
        weight <= 1_000_000_000,
    ensures
        weight * count <= 1_000_000_000 * 0xffff_ffff,
        weight * count <= u64::MAX,
        weight != 0 && count != 0 ==> weight * count != 0,
{
}

} // verus!
