//! Provide timer abstraction.
//!
//! A `Timer` is a hardware counter that runs down to zero or up from zero. A
//! `TimerInstant` owns a running timer and tells how much time has passed
//! since it was started, whichever way the counter runs.

use crate::duration::duration_nanos;
use crate::duration::MAX_DURATION_NANOS;
use core::convert::Into;
use core::ops::Sub;
use core::time::Duration;
use vstd::prelude::*;

verus! {

/// The error of a non-blocking operation, `nb::Error`: either the operation
/// would block, or it failed with an `E`.
#[verifier::external_type_specification]
#[verifier::external_body]
#[verifier::reject_recursive_types(E)]
pub struct ExNbError<E>(nb::Error<E>);

/// The type without values, `void::Void`.
#[verifier::external_type_specification]
#[verifier::external_body]
pub struct ExVoid(void::Void);

/// Tell if subtractions overflow.
pub trait CheckedSub {
    /// Return true if no overflow will occur.
    fn checked_sub_impl(self, rhs: Self) -> bool;
}

impl CheckedSub for u32 {
    /// True exactly when `self - rhs` is not negative.
    fn checked_sub_impl(self, rhs: u32) -> (fits: bool)
        ensures
            fits == (self >= rhs),
    {
        self.checked_sub(rhs).is_some()
    }
}

impl CheckedSub for i32 {
    /// True exactly when `self - rhs` lies between `i32::MIN` and `i32::MAX`.
    fn checked_sub_impl(self, rhs: i32) -> (fits: bool)
        ensures
            fits == (i32::MIN <= self - rhs <= i32::MAX),
    {
        self.checked_sub(rhs).is_some()
    }
}

/// A `Timer` trait to represent count down / up time.
///
/// This is a typical peripheral that has an internal counter that decrease or
/// increase over time until it reach its limit. What its methods return is up
/// to the hardware behind it, so none of them promises anything.
pub trait Timer: Sized {
    /// Inner type of the counter.
    type U: Sub<Output = Self::U> + Into<u32> + CheckedSub + Copy;

    /// Pause the execution for Duration.
    fn delay(&mut self, d: Duration);

    /// None blocking variant of delay.
    fn wait(&mut self, d: Duration) -> nb::Result<(), void::Void>;

    /// Pause execution assuming interrupt is enabled and correctly handled.
    ///
    /// By default this is a plain `delay`, which is not optimal: it does to
    /// the timer what `delay` does for the same duration.
    fn delay_with_interrupt(&mut self, d: Duration)
        default_ensures
            exists|delay_call: &mut Self|
                {
                    &&& mut_ref_current(delay_call) == *old(self)
                    &&& mut_ref_future(delay_call) == *final(self)
                    &&& #[trigger] call_ensures(Self::delay, (delay_call, d), ())
                },
    {
        self.delay(d);
    }

    /// Start a timer counter. The timer is being moved and dedicated to the
    /// instant needs.
    fn start(self) -> TimerInstant<Self>;

    /// Stop the counting timer. This method is only used by `TimerInstant` to
    /// release the timer.
    fn stop(self) -> Self;

    /// Test if the counter has wrapped to its initial value.
    fn has_wrapped(&mut self) -> bool;

    /// The maximum / minimum value. For count down timer this should be the
    /// maximum value, or the reload value. For count up `limit_value` should
    /// return 0.
    fn limit_value(&self) -> Self::U;

    /// Return the current counter value.
    fn get_current(&mut self) -> Self::U;

    /// Return the duration between 2 counted value.
    fn tick(&mut self) -> Duration;
}

/// Why an instant cannot tell the elapsed time.
#[derive(Clone, Copy, Debug, PartialEq, Eq, Structural)]
pub enum ElapsedError {
    /// The counter has wrapped since the instant was taken: it has counted
    /// more than it can tell.
    Wrapped,
    /// The elapsed time is longer than a `Duration` can hold.
    Overflow,
}

/// The number of ticks between a counter's limit and its current value,
/// whichever way it counts: a counter that runs down is below its limit, one
/// that runs up is above it.
pub open spec fn ticks_between(limit: u32, current: u32) -> nat {
    if limit >= current {
        (limit - current) as nat
    } else {
        (current - limit) as nat
    }
}

/// The number of nanoseconds that a counter has measured, from its limit, its
/// current value and the length of one tick.
pub open spec fn elapsed_nanos(limit: u32, current: u32, tick_nanos: nat) -> nat {
    ticks_between(limit, current) * tick_nanos
}

/// The number of ticks between a counter's limit and its current value.
///
/// The direction of the counter is not given. It shows in which of the two
/// subtractions does not overflow: `limit - current` for a counter that runs
/// down, `current - limit` for one that runs up.
pub fn tick_delta(limit: u32, current: u32) -> (delta: u32)
    ensures
        delta == ticks_between(limit, current),
{
    if limit.checked_sub_impl(current) {
        limit - current
    } else {
        current - limit
    }
}

/// Whether `elapsed` is what one reading of a counter stands for.
///
/// A counter that has wrapped tells no time. Otherwise the elapsed time is the
/// number of ticks between limit and current value, times the tick, as long as
/// a `Duration` can hold it.
pub open spec fn is_elapsed_time(
    elapsed: Result<Duration, ElapsedError>,
    wrapped: bool,
    limit: u32,
    current: u32,
    tick: Duration,
) -> bool {
    match elapsed {
        Ok(d) => !wrapped && duration_nanos(d) == elapsed_nanos(
            limit,
            current,
            duration_nanos(tick),
        ),
        Err(ElapsedError::Wrapped) => wrapped,
        Err(ElapsedError::Overflow) => !wrapped && elapsed_nanos(
            limit,
            current,
            duration_nanos(tick),
        ) > MAX_DURATION_NANOS,
    }
}

/// The elapsed time that one reading of a counter stands for.
pub fn elapsed_time(wrapped: bool, limit: u32, current: u32, tick: Duration) -> (elapsed: Result<
    Duration,
    ElapsedError,
>)
    ensures
        is_elapsed_time(elapsed, wrapped, limit, current, tick),
{
    if wrapped {
        return Err(ElapsedError::Wrapped);
    }
    let delta = tick_delta(limit, current);
    match tick.checked_mul(delta) {
        Some(d) => Ok(d),
        None => Err(ElapsedError::Overflow),
    }
}

/// The answer of `nb` for an operation that is not done yet.
#[verifier::external_body]
fn would_block() -> (status: Result<(), nb::Error<void::Void>>)
    ensures
        status is Err,
{
    Err(nb::Error::WouldBlock)
}

/// Whether a wait for `d` is over when `elapsed` has passed since it was set
/// up.
pub open spec fn wait_is_over(elapsed: Duration, d: Duration) -> bool {
    duration_nanos(elapsed) >= duration_nanos(d)
}

/// The answer of one poll of a wait for `d`, made when `elapsed` has passed
/// since the wait was set up: done once `d` has passed, and before that the
/// answer of `nb` for an operation that would block. No other error comes.
pub fn wait_status(elapsed: Duration, d: Duration) -> (status: Result<(), nb::Error<void::Void>>)
    ensures
        status is Ok <==> wait_is_over(elapsed, d),
{
    if elapsed.as_nanos() >= d.as_nanos() {
        Ok(())
    } else {
        would_block()
    }
}

/// `call` is a call of `has_wrapped` on a timer that was `before`, and the
/// timer has answered `wrapped`.
#[verifier::inline]
pub open spec fn asks_wrapped<T: Timer>(call: &mut T, before: T, wrapped: bool) -> bool {
    mut_ref_current(call) == before && call_ensures(T::has_wrapped, (call,), wrapped)
}

/// The timer `timer` has answered `limit` to a call of `limit_value`.
#[verifier::inline]
pub open spec fn asks_limit<T: Timer>(timer: T, limit: T::U) -> bool {
    call_ensures(T::limit_value, (&timer,), limit)
}

/// `call` is a call of `get_current` on a timer that was `before`, and the
/// timer has answered `current`.
#[verifier::inline]
pub open spec fn asks_current<T: Timer>(call: &mut T, before: T, current: T::U) -> bool {
    mut_ref_current(call) == before && call_ensures(T::get_current, (call,), current)
}

/// `call` is a call of `tick` on a timer that was `before`, and the timer has
/// answered `tick`.
#[verifier::inline]
pub open spec fn asks_tick<T: Timer>(call: &mut T, before: T, tick: Duration) -> bool {
    mut_ref_current(call) == before && call_ensures(T::tick, (call,), tick)
}

/// The counter value `value` has turned into the number `ticks`.
#[verifier::inline]
pub open spec fn counts<U: Into<u32>>(value: U, ticks: u32) -> bool {
    call_ensures(<U as Into<u32>>::into, (value,), ticks)
}

/// Capture an instant from a timer.
pub struct TimerInstant<T> {
    delay: T,
}

impl<T> View for TimerInstant<T> {
    type V = T;

    /// The timer that the instant holds.
    closed spec fn view(&self) -> T {
        self.delay
    }
}

impl<T> TimerInstant<T> {
    /// Capture an Instant with a given timer.
    ///
    /// Any value can be held, so that a timer can capture itself when it is
    /// started; only over a `Timer` does the instant tell the time.
    pub fn now(delay: T) -> (instant: Self)
        ensures
            instant@ == delay,
    {
        TimerInstant { delay }
    }
}

impl<T> TimerInstant<T> where T: Timer {
    /// Give the elapsed time from the Instant.
    ///
    /// The timer is asked whether it has wrapped. Once it has, nothing else is
    /// asked of it and the answer is `ElapsedError::Wrapped`. Otherwise it is
    /// asked for its limit, its current value and its tick, in that order,
    /// each time as the call before has left it, and the answer is the elapsed
    /// time that this reading stands for, with limit and current value turned
    /// into numbers of ticks.
    pub fn elapsed(&mut self) -> (elapsed: Result<Duration, ElapsedError>)
        ensures
            exists|flag_call: &mut T, wrapped: bool|
                {
                    &&& asks_wrapped(flag_call, old(self)@, wrapped)
                    &&& wrapped ==> final(self)@ == mut_ref_future(flag_call) && elapsed == Err::<
                        Duration,
                        ElapsedError,
                    >(ElapsedError::Wrapped)
                    &&& !wrapped ==> exists|
                        count_call: &mut T,
                        tick_call: &mut T,
                        limit: T::U,
                        current: T::U,
                        tick: Duration,
                        limit_ticks: u32,
                        current_ticks: u32,
                    |
                        {
                            &&& asks_limit(mut_ref_future(flag_call), limit)
                            &&& asks_current(count_call, mut_ref_future(flag_call), current)
                            &&& asks_tick(tick_call, mut_ref_future(count_call), tick)
                            &&& final(self)@ == mut_ref_future(tick_call)
                            &&& counts(limit, limit_ticks)
                            &&& counts(current, current_ticks)
                            &&& is_elapsed_time(elapsed, false, limit_ticks, current_ticks, tick)
                        }
                },
    {
        if self.delay.has_wrapped() {
            return Err(ElapsedError::Wrapped);
        }
        let limit: u32 = self.delay.limit_value().into();
        let current: u32 = self.delay.get_current().into();
        let tick = self.delay.tick();
        elapsed_time(false, limit, current, tick)
    }

    /// Release the instant and stop the timer.
    pub fn stop(self) -> (timer: T)
        ensures
            call_ensures(T::stop, (self@,), timer),
    {
        self.delay.stop()
    }
}

} // verus!
