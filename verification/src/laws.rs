//! Laws of frequencies and of elapsed time: what holds between the operations
//! of the library, whatever the values.
//!
//! Each law is stated over the views and spec functions that the contracts of
//! the operations use, so that it can be applied to what they return.

use crate::arith::lemma_cancel_common_factor;
use crate::arith::lemma_quotient_reaches;
use crate::clock::FreqRange;
use crate::clock::Frequency;
use crate::duration::duration_nanos;
use crate::rate::lemma_rate_converted;
use crate::rate::lemma_rate_ratio;
use crate::rate::lemma_rate_tick;
use crate::rate::lemma_rate_ticks_in;
use crate::rate::TICK_SCALE;
use crate::timer::elapsed_nanos;
use crate::timer::ticks_between;
use crate::timer::wait_is_over;
use core::time::Duration;
use vstd::arithmetic::div_mod::lemma_div_denominator;
use vstd::arithmetic::div_mod::lemma_div_is_ordered;
use vstd::arithmetic::div_mod::lemma_fundamental_div_mod;
use vstd::arithmetic::div_mod::lemma_fundamental_div_mod_converse;
use vstd::arithmetic::div_mod::lemma_mod_bound;
use vstd::prelude::*;
use vstd::std_specs::cmp::PartialEqSpec;

verus! {

/// A conversion that divides evenly keeps the tick: where the frequency is a
/// whole number of units of `tier`, the converted frequency has the same
/// period, to the nanosecond.
pub proof fn lemma_even_conversion_keeps_tick(f: Frequency, tier: FreqRange)
    requires
        f.wf(),
        f@.numer != 0,
        f@.millihertz() % (tier.spec_weight() * f@.denom) == 0,
    ensures
        f@.converted(tier).numer != 0,
        f@.converted(tier).tick_nanos() == f@.tick_nanos(),
{
    lemma_rate_tick(f@);
    lemma_rate_converted(f@, tier);
    let w = f@.millihertz() as int;
    let wt = tier.spec_weight() as int;
    let den = f@.denom as int;
    let unit = wt * den;
    let n = w / unit;
    lemma_fundamental_div_mod(w, unit);
    assert(w == unit * n);
    assert(n > 0 && wt * n > 0 && (wt * n) * den == w) by (nonlinear_arith)
        requires
            w == unit * n,
            unit == wt * den,
            w > 0,
            wt >= 1,
            den >= 1,
    ;
    lemma_rate_tick(f@.converted(tier));
    lemma_cancel_common_factor(TICK_SCALE as int, wt * n, den);
    assert(f@.converted(tier).millihertz() == wt * n);
    assert((TICK_SCALE as nat) * 1 == TICK_SCALE as int);
}

/// A conversion that divides evenly keeps the place in the order: the
/// converted frequency is the same number of whole hertz.
pub proof fn lemma_even_conversion_keeps_hertz(f: Frequency, tier: FreqRange)
    requires
        f.wf(),
        f@.millihertz() % (tier.spec_weight() * f@.denom) == 0,
    ensures
        f@.converted(tier).hertz() == f@.hertz(),
{
    lemma_rate_converted(f@, tier);
    lemma_rate_converted(f@, FreqRange::Hertz);
    lemma_rate_converted(f@.converted(tier), FreqRange::Hertz);
    let w = f@.millihertz() as int;
    let wt = tier.spec_weight() as int;
    let den = f@.denom as int;
    let unit = wt * den;
    let n = w / unit;
    lemma_fundamental_div_mod(w, unit);
    assert(w == unit * n);
    assert(w == (wt * n) * den && 1_000 * den == den * 1_000 && wt * n >= 0) by (nonlinear_arith)
        requires
            w == unit * n,
            unit == wt * den,
            w >= 0,
            wt >= 1,
            den >= 1,
    ;
    // w / (1000 * den) == (w / den) / 1000 == (wt * n) / 1000
    lemma_div_denominator(w, den, 1_000);
    lemma_fundamental_div_mod_converse(w, den, wt * n, 0);
    assert(f@.converted(tier).millihertz() == wt * n);
    assert(1_000 * 1 == 1_000);
}

/// The number of pulses in a duration never exceeds the duration divided by
/// the tick. The tick is a period rounded down, so the quotient may count
/// pulses that have not happened yet: the two are equal exactly when the part
/// of the period that the tick has lost, taken once for every tick in the
/// quotient, is made up by the rest that the division leaves. Where the tick
/// is exact they are always equal.
pub proof fn lemma_ticks_in_is_duration_by_tick(f: Frequency, d: Duration)
    requires
        f.wf(),
        f@.numer != 0,
        f@.tick_nanos() != 0,
    ensures
        f@.ticks_in(duration_nanos(d)) <= duration_nanos(d) / f@.tick_nanos(),
        f@.ticks_in(duration_nanos(d)) == duration_nanos(d) / f@.tick_nanos() <==> (duration_nanos(d)
            / f@.tick_nanos()) * (((TICK_SCALE as nat) * f@.denom) % f@.millihertz()) <= (
        duration_nanos(d) % f@.tick_nanos()) * f@.millihertz(),
        ((TICK_SCALE as nat) * f@.denom) % f@.millihertz() == 0 ==> f@.ticks_in(duration_nanos(d))
            == duration_nanos(d) / f@.tick_nanos(),
{
    lemma_rate_tick(f@);
    lemma_rate_ticks_in(f@, duration_nanos(d));
    let nanos = duration_nanos(d) as int;
    let w = f@.millihertz() as int;
    let whole = (TICK_SCALE as nat * f@.denom) as int;
    let tick = whole / w;
    let lost = whole % w;
    let pulses = nanos / tick;
    let rest = nanos % tick;
    lemma_fundamental_div_mod(whole, w);
    lemma_mod_bound(whole, w);
    lemma_fundamental_div_mod(nanos, tick);
    lemma_mod_bound(nanos, tick);
    assert(whole > 0);
    assert(f@.denom * (TICK_SCALE as nat) == whole) by (nonlinear_arith)
        requires
            whole == (TICK_SCALE as nat) * f@.denom,
    ;
    // nanos * w == pulses * whole + (rest * w - pulses * lost)
    assert(nanos * w == pulses * whole + (rest * w - pulses * lost) && rest * w < whole && pulses
        * lost >= 0 && rest * w >= 0) by (nonlinear_arith)
        requires
            whole == w * tick + lost,
            nanos == tick * pulses + rest,
            0 <= lost < w,
            0 <= rest < tick,
            pulses >= 0,
    ;
    if lost == 0 {
        assert(pulses * lost == 0) by (nonlinear_arith)
            requires
                lost == 0,
        ;
    }
    if pulses * lost <= rest * w {
        lemma_fundamental_div_mod_converse(nanos * w, whole, pulses, rest * w - pulses * lost);
    } else {
        lemma_quotient_reaches(nanos * w, whole, pulses);
        assert(pulses * whole > nanos * w);
    }
}

/// Dividing a frequency and then converting it gives the converted frequency
/// divided, rounded down: the numerator at the new tier is the numerator of
/// the conversion, over `n`.
pub proof fn lemma_divide_then_convert(f: Frequency, n: u32, tier: FreqRange)
    requires
        f.wf(),
        n != 0,
    ensures
        f@.divided_by(n as nat).converted(tier).tier == tier,
        f@.divided_by(n as nat).converted(tier).denom == 1,
        f@.divided_by(n as nat).converted(tier).numer == f@.converted(tier).numer / (n as nat),
{
    let scaled = (f@.millihertz() / tier.spec_weight()) as int;
    let den = f@.denom as int;
    lemma_div_denominator(scaled, den, n as int);
}

/// Multiplying and dividing by the same number, in either order, gives one
/// and the same fraction, and that fraction stands for the frequency that
/// went in: it converts to every tier as that one does, is as many whole
/// hertz, has the same tick and counts the same pulses.
pub proof fn lemma_multiply_then_divide(f: Frequency, n: u32, tier: FreqRange, d: Duration)
    requires
        f.wf(),
        n != 0,
    ensures
        f@.times(n as nat).divided_by(n as nat) == f@.divided_by(n as nat).times(n as nat),
        f@.times(n as nat).divided_by(n as nat).converted(tier) == f@.converted(tier),
        f@.times(n as nat).divided_by(n as nat).hertz() == f@.hertz(),
        f@.times(n as nat).divided_by(n as nat).ticks_in(duration_nanos(d)) == f@.ticks_in(
            duration_nanos(d),
        ),
        f@.numer != 0 ==> f@.times(n as nat).divided_by(n as nat).tick_nanos() == f@.tick_nanos(),
{
    let g = f@.times(n as nat).divided_by(n as nat);
    let k = n as int;
    let w = f@.millihertz() as int;
    let den = f@.denom as int;
    let weight = f@.tier.spec_weight() as int;
    let numer = f@.numer as int;
    assert(g.millihertz() == w * k && w >= 0 && g.denom > 0 && (numer != 0 ==> g.numer != 0))
        by (nonlinear_arith)
        requires
            g.millihertz() == weight * (numer * k),
            g.denom == den * k,
            g.numer == numer * k,
            w == weight * numer,
            weight >= 1,
            numer >= 0,
            den >= 1,
            k >= 1,
    ;
    // conversions
    let wt = tier.spec_weight() as int;
    lemma_rate_converted(f@, tier);
    lemma_rate_converted(g, tier);
    lemma_cancel_common_factor(w, wt * den, k);
    assert(wt * (den * k) == (wt * den) * k) by (nonlinear_arith);
    let wh = FreqRange::Hertz.spec_weight() as int;
    lemma_rate_converted(f@, FreqRange::Hertz);
    lemma_rate_converted(g, FreqRange::Hertz);
    lemma_cancel_common_factor(w, wh * den, k);
    assert(wh * (den * k) == (wh * den) * k) by (nonlinear_arith);
    // pulses
    let nanos = duration_nanos(d) as int;
    let scale = TICK_SCALE as int;
    lemma_rate_ticks_in(f@, duration_nanos(d));
    lemma_rate_ticks_in(g, duration_nanos(d));
    assert(nanos * (w * k) == (nanos * w) * k && (den * k) * scale == (den * scale) * k && nanos
        * w >= 0 && den * scale > 0) by (nonlinear_arith)
        requires
            nanos >= 0,
            w >= 0,
            den >= 1,
            scale >= 1,
    ;
    lemma_cancel_common_factor(nanos * w, den * scale, k);
    // tick
    if f@.numer != 0 {
        lemma_rate_tick(f@);
        lemma_rate_tick(g);
        assert(scale * (den * k) == (scale * den) * k && scale * den >= 0) by (nonlinear_arith)
            requires
                den >= 1,
                scale >= 1,
        ;
        lemma_cancel_common_factor(scale * den, w, k);
    }
}

/// A conversion rounds down once. Multiplying before converting keeps what
/// multiplying after converting would lose: the numerator at the new tier
/// lies between `n` times the converted numerator and `n` times the next one.
pub proof fn lemma_multiply_then_convert(f: Frequency, n: u32, tier: FreqRange)
    requires
        f.wf(),
        n != 0,
    ensures
        (n as nat) * f@.converted(tier).numer <= f@.times(n as nat).converted(tier).numer,
        f@.times(n as nat).converted(tier).numer < (n as nat) * (f@.converted(tier).numer + 1),
{
    lemma_rate_converted(f@, tier);
    lemma_rate_converted(f@.times(n as nat), tier);
    let k = n as int;
    let w = f@.millihertz() as int;
    let unit = (tier.spec_weight() * f@.denom) as int;
    let weight = f@.tier.spec_weight() as int;
    let numer = f@.numer as int;
    let q = w / unit;
    let r = w % unit;
    lemma_fundamental_div_mod(w, unit);
    lemma_mod_bound(w, unit);
    assert(f@.times(n as nat).millihertz() == w * k) by (nonlinear_arith)
        requires
            f@.times(n as nat).millihertz() == weight * (numer * k),
            w == weight * numer,
    ;
    assert((k * q) * unit <= w * k && w * k < (k * (q + 1)) * unit) by (nonlinear_arith)
        requires
            w == unit * q + r,
            0 <= r < unit,
            k >= 1,
    ;
    lemma_quotient_reaches(w * k, unit, k * q);
    lemma_quotient_reaches(w * k, unit, k * (q + 1));
}

/// The scale between two frequencies never exceeds their true quotient, and
/// it is the true quotient rounded down where the dividend is counted at a
/// tier that is no finer than the divisor's.
pub proof fn lemma_scale_is_true_quotient(a: Frequency, b: Frequency)
    requires
        a.wf(),
        b.wf(),
        b@.numer != 0,
    ensures
        a@.ratio(b@) <= (a@.millihertz() * b@.denom) / (b@.millihertz() * a@.denom),
        a@.tier.spec_weight() >= b@.tier.spec_weight() ==> a@.ratio(b@) == (a@.millihertz()
            * b@.denom) / (b@.millihertz() * a@.denom),
{
    lemma_rate_ratio(a@, b@);
    let wa = a@.tier.spec_weight() as int;
    let wb = b@.tier.spec_weight() as int;
    let tiers = wa / wb;
    let cross = (a@.numer * b@.denom) as int;
    let under = (a@.denom * b@.numer) as int;
    let top = (a@.millihertz() * b@.denom) as int;
    let bottom = (b@.millihertz() * a@.denom) as int;
    lemma_fundamental_div_mod(wa, wb);
    lemma_mod_bound(wa, wb);
    assert(top == wa * cross && bottom == under * wb && under > 0 && cross >= 0 && bottom > 0)
        by (nonlinear_arith)
        requires
            top == (wa * a@.numer) * b@.denom,
            bottom == (wb * b@.numer) * a@.denom,
            cross == a@.numer * b@.denom,
            under == a@.denom * b@.numer,
            a@.denom >= 1,
            b@.numer >= 1,
            wb >= 1,
    ;
    assert(tiers >= 0);
    assert(tiers * cross >= 0) by (nonlinear_arith)
        requires
            tiers >= 0,
            cross >= 0,
    ;
    lemma_cancel_common_factor(tiers * cross, under, wb);
    assert((tiers * cross) * wb <= wa * cross && (wa % wb == 0 ==> (tiers * cross) * wb == wa
        * cross)) by (nonlinear_arith)
        requires
            wa == wb * tiers + wa % wb,
            0 <= wa % wb,
            cross >= 0,
    ;
    lemma_div_is_ordered((tiers * cross) * wb, wa * cross, bottom);
    if wa >= wb {
        assert(wa % wb == 0);
    }
}

/// Equality of frequencies is an equivalence, and with it the order is a
/// total order: any two frequencies compare, equal ones in no other way, and
/// the order carries over from pair to pair.
pub proof fn lemma_order_is_total(a: Frequency, b: Frequency, c: Frequency)
    ensures
        a.eq_spec(&a),
        a.eq_spec(&b) == b.eq_spec(&a),
        a.eq_spec(&b) && b.eq_spec(&c) ==> a.eq_spec(&c),
        a.eq_spec(&b) <==> a.ordering(&b) == core::cmp::Ordering::Equal,
        a.ordering(&b) == core::cmp::Ordering::Less <==> b.ordering(&a)
            == core::cmp::Ordering::Greater,
        a.ordering(&b) == core::cmp::Ordering::Less && b.ordering(&c) != core::cmp::Ordering::Greater
            ==> a.ordering(&c) == core::cmp::Ordering::Less,
        a.ordering(&b) != core::cmp::Ordering::Greater && b.ordering(&c) == core::cmp::Ordering::Less
            ==> a.ordering(&c) == core::cmp::Ordering::Less,
{
}

/// A counter that runs down from its limit has measured the ticks by which it
/// is below the limit.
pub proof fn lemma_count_down_elapsed(limit: u32, current: u32, tick: Duration)
    requires
        current <= limit,
    ensures
        elapsed_nanos(limit, current, duration_nanos(tick)) == (limit - current) * duration_nanos(
            tick,
        ),
{
}

/// A counter that runs up from a limit of zero has measured as many ticks as
/// it shows.
pub proof fn lemma_count_up_elapsed(current: u32, tick: Duration)
    ensures
        elapsed_nanos(0, current, duration_nanos(tick)) == current * duration_nanos(tick),
{
}

/// The ticks between limit and current value do not depend on which of the
/// two is the larger: they are the distance between them.
pub proof fn lemma_ticks_between_is_distance(limit: u32, current: u32)
    ensures
        ticks_between(limit, current) == ticks_between(current, limit),
        limit >= current ==> ticks_between(limit, current) == limit - current,
        limit <= current ==> ticks_between(limit, current) == current - limit,
{
}

/// A wait that is over stays over: once a poll has found the duration passed,
/// every later poll finds the same.
pub proof fn lemma_wait_stays_over(first: Duration, later: Duration, d: Duration)
    requires
        duration_nanos(first) <= duration_nanos(later),
        wait_is_over(first, d),
    ensures
        wait_is_over(later, d),
{
}

} // verus!
