//! Time units: durations counted in kernel ticks.
use vstd::prelude::*;

verus! {

/// The kernel's tick counter type.
pub type TickType_t = u32;

/// Milliseconds that pass per kernel tick, where the kernel is not asked:
/// [`Duration::from_ms`] and [`Duration::ms`] count by it. For a kernel of
/// another rate, see [`Duration::from_ms_with_tick_period`].
pub const TICK_PERIOD_MS: TickType_t = 1;

/// The tick count the kernel reads as "wait without limit".
pub const MAX_DELAY: TickType_t = 0xffff_ffff;

/// A kernel duration, internally represented as ticks.
#[derive(Debug, Clone, Copy, PartialEq, Eq, PartialOrd, Ord, Structural)]
pub struct Duration {
    ticks: TickType_t,
}

impl Duration {
    /// The number of ticks this duration stands for.
    pub closed spec fn spec_ticks(&self) -> TickType_t {
        self.ticks
    }

    /// The number of milliseconds this duration stands for.
    pub open spec fn spec_ms(&self) -> int {
        self.spec_ticks() * TICK_PERIOD_MS
    }

    /// The ticks that a number of milliseconds amounts to, rounded down.
    pub open spec fn from_ms_ticks(milliseconds: TickType_t) -> TickType_t {
        milliseconds / TICK_PERIOD_MS
    }

    /// Two durations of the same number of ticks are the same duration.
    pub proof fn lemma_ticks_determine(a: Duration, b: Duration)
        requires
            a.spec_ticks() == b.spec_ticks(),
        ensures
            a == b,
    {
    }

    /// Creates the longest `Duration` a kernel operation is allowed to wait.
    pub fn max() -> (d: Duration)
        ensures
            d.spec_ticks() == MAX_DELAY,
    {
        Self::infinite()
    }

    /// Creates a new `Duration` from the specified number of milliseconds.
    ///
    /// Because the duration is internally represented in ticks this may not
    /// result in an exact duration: a rest below one tick is dropped.
    pub fn from_ms(milliseconds: TickType_t) -> (d: Duration)
        ensures
            d.spec_ticks() == Self::from_ms_ticks(milliseconds),
    {
        Self::from_ms_with_tick_period(milliseconds, TICK_PERIOD_MS)
    }

    /// Creates a new `Duration` from the specified number of milliseconds,
    /// for a kernel that counts one tick every `tick_period_ms` milliseconds.
    /// A rest below one tick is dropped.
    pub fn from_ms_with_tick_period(
        milliseconds: TickType_t,
        tick_period_ms: TickType_t,
    ) -> (d: Duration)
        requires
            tick_period_ms != 0,
        ensures
            d.spec_ticks() == milliseconds / tick_period_ms,
    {
        Self::from_ticks(milliseconds / tick_period_ms)
    }

    /// Returns the number of milliseconds contained in this `Duration`, for
    /// a kernel that counts one tick every `tick_period_ms` milliseconds, or
    /// `None` where they are more than the tick type can count.
    pub fn ms_with_tick_period(&self, tick_period_ms: TickType_t) -> (milliseconds: Option<
        TickType_t,
    >)
        ensures
            self.spec_ticks() * tick_period_ms <= TickType_t::MAX ==> milliseconds == Some(
                (self.spec_ticks() * tick_period_ms) as TickType_t,
            ),
            self.spec_ticks() * tick_period_ms > TickType_t::MAX ==> milliseconds is None,
    {
        self.ticks.checked_mul(tick_period_ms)
    }

    /// Creates a new `Duration` from the specified number of ticks.
    pub fn from_ticks(ticks: TickType_t) -> (d: Duration)
        ensures
            d.spec_ticks() == ticks,
    {
        Self { ticks }
    }

    /// Creates an infinite `Duration`.
    pub fn infinite() -> (d: Duration)
        ensures
            d.spec_ticks() == MAX_DELAY,
    {
        Self::from_ticks(MAX_DELAY)
    }

    /// Creates a zero-tick `Duration`, for non-blocking calls.
    pub fn zero() -> (d: Duration)
        ensures
            d.spec_ticks() == 0,
    {
        Self::from_ticks(0)
    }

    /// Creates the smallest non-zero `Duration`, one tick.
    pub fn eps() -> (d: Duration)
        ensures
            d.spec_ticks() == 1,
    {
        Self::from_ticks(1)
    }

    /// Returns the number of milliseconds contained in this `Duration`.
    pub fn ms(&self) -> (milliseconds: TickType_t)
        ensures
            milliseconds == self.spec_ms(),
    {
        self.ticks * TICK_PERIOD_MS
    }

    /// Returns the number of ticks contained in this `Duration`.
    #[verifier::when_used_as_spec(spec_ticks)]
    pub fn ticks(&self) -> (ticks: TickType_t)
        ensures
            ticks == self.spec_ticks(),
    {
        self.ticks
    }
}

} // verus!
