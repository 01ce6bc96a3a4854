use std::ops::Sub;
use std::time::Duration;
use timebase::timer::{
    elapsed_time, tick_delta, wait_status, CheckedSub, ElapsedError, Timer, TimerInstant,
};
use void::Void;

/// A counter of 32 bits whose readings are set by the test.
struct Counter {
    running: bool,
    wrapped: bool,
    limit: u32,
    current: u32,
    tick: Duration,
    delays: u32,
    reads: u32,
}

impl Counter {
    fn new(limit: u32, current: u32, tick: Duration) -> Counter {
        Counter { running: false, wrapped: false, limit, current, tick, delays: 0, reads: 0 }
    }
}

impl Timer for Counter {
    type U = u32;

    fn delay(&mut self, _d: Duration) {
        self.delays += 1;
    }

    fn wait(&mut self, d: Duration) -> nb::Result<(), Void> {
        wait_status(self.tick * tick_delta(self.limit, self.current), d)
    }

    fn start(mut self) -> TimerInstant<Self> {
        self.running = true;
        TimerInstant::now(self)
    }

    fn stop(mut self) -> Self {
        self.running = false;
        self
    }

    fn has_wrapped(&mut self) -> bool {
        self.wrapped
    }

    fn limit_value(&self) -> u32 {
        self.limit
    }

    fn get_current(&mut self) -> u32 {
        self.reads += 1;
        self.current
    }

    fn tick(&mut self) -> Duration {
        self.reads += 1;
        self.tick
    }
}

/// A counter value of 16 bits.
#[derive(Clone, Copy)]
struct Short(u16);

impl Sub for Short {
    type Output = Short;

    fn sub(self, rhs: Short) -> Short {
        Short(self.0 - rhs.0)
    }
}

impl From<Short> for u32 {
    fn from(value: Short) -> u32 {
        u32::from(value.0)
    }
}

impl CheckedSub for Short {
    fn checked_sub_impl(self, rhs: Short) -> bool {
        self.0 >= rhs.0
    }
}

/// A counter of 16 bits that runs up from zero.
struct UpCounter {
    current: u16,
}

impl Timer for UpCounter {
    type U = Short;

    fn delay(&mut self, _d: Duration) {}

    fn wait(&mut self, _d: Duration) -> nb::Result<(), Void> {
        Ok(())
    }

    fn start(self) -> TimerInstant<Self> {
        TimerInstant::now(self)
    }

    fn stop(self) -> Self {
        self
    }

    fn has_wrapped(&mut self) -> bool {
        false
    }

    fn limit_value(&self) -> Short {
        Short(0)
    }

    fn get_current(&mut self) -> Short {
        Short(self.current)
    }

    fn tick(&mut self) -> Duration {
        Duration::from_micros(10)
    }
}

#[test]
fn count_down_counter_has_measured_limit_minus_current() {
    let timer = Counter::new(0x00FF_FFFF, 0x00FF_FFFF - 48_000, Duration::from_nanos(125));
    let mut instant = timer.start();
    assert_eq!(instant.elapsed(), Ok(Duration::from_millis(6)));
    assert_eq!(instant.elapsed(), Ok(Duration::from_nanos(125) * 48_000));
}

#[test]
fn count_up_counter_has_measured_its_current_value() {
    let mut instant = Counter::new(0, 48_000, Duration::from_nanos(125)).start();
    assert_eq!(instant.elapsed(), Ok(Duration::from_millis(6)));
    let mut short = UpCounter { current: 65_535 }.start();
    assert_eq!(short.elapsed(), Ok(Duration::from_micros(655_350)));
}

#[test]
fn counter_at_its_limit_has_measured_nothing() {
    let mut instant = Counter::new(1_000, 1_000, Duration::from_secs(1)).start();
    assert_eq!(instant.elapsed(), Ok(Duration::from_nanos(0)));
    let mut at_zero = Counter::new(0, 0, Duration::from_secs(1)).start();
    assert_eq!(at_zero.elapsed(), Ok(Duration::from_nanos(0)));
}

#[test]
fn elapsed_after_a_wrap_fails() {
    let mut timer = Counter::new(1_000, 400, Duration::from_millis(1));
    timer.wrapped = true;
    let mut instant = timer.start();
    assert_eq!(instant.elapsed(), Err(ElapsedError::Wrapped));
    assert_eq!(instant.elapsed(), Err(ElapsedError::Wrapped));
    let timer = instant.stop();
    assert_eq!(timer.reads, 0);
}

#[test]
fn elapsed_beyond_the_longest_duration_fails() {
    let mut instant = Counter::new(u32::MAX, 0, Duration::MAX).start();
    assert_eq!(instant.elapsed(), Err(ElapsedError::Overflow));
}

#[test]
fn elapsed_leaves_the_timer_to_be_read_again() {
    let mut instant = Counter::new(1_000, 999, Duration::from_millis(1)).start();
    assert_eq!(instant.elapsed(), Ok(Duration::from_millis(1)));
    assert_eq!(instant.elapsed(), Ok(Duration::from_millis(1)));
    let timer = instant.stop();
    assert_eq!(timer.reads, 4);
}

#[test]
fn now_holds_the_timer_and_stop_gives_it_back_stopped() {
    let timer = Counter::new(77, 7, Duration::from_millis(1));
    let instant = TimerInstant::now(timer);
    let timer = instant.stop();
    assert!(!timer.running);
    assert_eq!(timer.limit, 77);
    assert_eq!(timer.current, 7);
    let started = timer.start();
    let timer = started.stop();
    assert!(!timer.running);
}

#[test]
fn delay_with_interrupt_is_a_plain_delay_by_default() {
    let mut timer = Counter::new(0, 0, Duration::from_millis(1));
    timer.delay_with_interrupt(Duration::from_millis(5));
    assert_eq!(timer.delays, 1);
    timer.delay(Duration::from_millis(5));
    timer.delay_with_interrupt(Duration::from_millis(5));
    assert_eq!(timer.delays, 3);
}

#[test]
fn tick_delta_is_the_distance_either_way() {
    assert_eq!(tick_delta(100, 40), 60);
    assert_eq!(tick_delta(40, 100), 60);
    assert_eq!(tick_delta(0, 40), 40);
    assert_eq!(tick_delta(7, 7), 0);
    assert_eq!(tick_delta(u32::MAX, 0), u32::MAX);
    assert_eq!(tick_delta(0, u32::MAX), u32::MAX);
}

#[test]
fn elapsed_time_of_one_reading() {
    let tick = Duration::from_micros(3);
    assert_eq!(elapsed_time(false, 100, 40, tick), Ok(Duration::from_micros(180)));
    assert_eq!(elapsed_time(false, 0, 40, tick), Ok(Duration::from_micros(120)));
    assert_eq!(elapsed_time(false, 40, 40, tick), Ok(Duration::from_nanos(0)));
    assert_eq!(elapsed_time(false, 9, 1, Duration::from_nanos(0)), Ok(Duration::from_nanos(0)));
    assert_eq!(elapsed_time(true, 100, 40, tick), Err(ElapsedError::Wrapped));
    assert_eq!(elapsed_time(true, 0, 0, Duration::MAX), Err(ElapsedError::Wrapped));
}

#[test]
fn elapsed_time_up_to_the_longest_duration() {
    assert_eq!(elapsed_time(false, 1, 0, Duration::MAX), Ok(Duration::MAX));
    assert_eq!(elapsed_time(false, 2, 0, Duration::MAX), Err(ElapsedError::Overflow));
    assert_eq!(elapsed_time(false, 0, 0, Duration::MAX), Ok(Duration::from_nanos(0)));
    let half = Duration::new(u64::MAX / 2, 999_999_999);
    assert_eq!(
        elapsed_time(false, 2, 0, half),
        Ok(Duration::new(u64::MAX, 999_999_998))
    );
    assert_eq!(elapsed_time(false, 0, 3, half), Err(ElapsedError::Overflow));
}

#[test]
fn checked_sub_tells_whether_the_difference_fits() {
    assert!(5u32.checked_sub_impl(5));
    assert!(5u32.checked_sub_impl(4));
    assert!(!5u32.checked_sub_impl(6));
    assert!(!0u32.checked_sub_impl(u32::MAX));
    assert!(5i32.checked_sub_impl(6));
    assert!(i32::MIN.checked_sub_impl(0));
    assert!(!i32::MIN.checked_sub_impl(1));
    assert!(!i32::MAX.checked_sub_impl(-1));
    assert!(0i32.checked_sub_impl(i32::MAX));
    assert!(!0i32.checked_sub_impl(i32::MIN));
}

#[test]
fn wait_is_not_over_before_the_duration_has_passed() {
    let d = Duration::from_millis(5);
    assert_eq!(wait_status(Duration::from_nanos(0), d), Err(nb::Error::WouldBlock));
    assert_eq!(wait_status(Duration::from_nanos(4_999_999), d), Err(nb::Error::WouldBlock));
    assert_eq!(wait_status(d, d), Ok(()));
    assert_eq!(wait_status(Duration::from_nanos(5_000_001), d), Ok(()));
    assert_eq!(wait_status(Duration::MAX, d), Ok(()));
    assert_eq!(wait_status(Duration::from_nanos(0), Duration::from_nanos(0)), Ok(()));
}

#[test]
fn wait_stays_over_once_it_is() {
    let d = Duration::from_micros(10);
    let mut over = false;
    for ticks in 0..30u32 {
        let status = wait_status(Duration::from_micros(1) * ticks, d);
        if over {
            assert_eq!(status, Ok(()));
        }
        assert_eq!(status.is_ok(), ticks >= 10);
        over = status.is_ok();
    }
    assert!(over);
}

#[test]
fn wait_of_a_timer_polls_its_counter() {
    let mut timer = Counter::new(1_000, 996, Duration::from_millis(1));
    assert_eq!(timer.wait(Duration::from_millis(5)), Err(nb::Error::WouldBlock));
    timer.current = 995;
    assert_eq!(timer.wait(Duration::from_millis(5)), Ok(()));
    timer.current = 0;
    assert_eq!(timer.wait(Duration::from_millis(5)), Ok(()));
}
