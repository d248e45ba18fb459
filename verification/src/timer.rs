use vstd::prelude::*;

use crate::config::CLOCK_FREQ;

verus! {

/// How many timer interrupts are requested per second.
pub const TICKS_PER_SECOND: u64 = 1000;

/// Microseconds in a second.
pub const MICRO_PER_SECOND: u64 = 1000000;

/// A point in time, or an accumulated amount of time, counted in
/// microseconds since boot.
///
/// Durations are whole microseconds too: every time value the kernel handles
/// comes from the `time` counter converted to microseconds.
#[derive(Clone, Copy, Debug)]
pub struct Time {
    start: u64,
}

impl Time {
    /// The number of microseconds this value stands for.
    pub closed spec fn micros(self) -> nat {
        self.start as nat
    }

    /// A time value fits in a `u64` of microseconds.
    pub proof fn lemma_micros_bound(self)
        ensures
            self.micros() <= u64::MAX,
    {
    }

    /// The instant the `time` counter showed `ticks`.
    pub open spec fn spec_up_time(ticks: u64) -> nat {
        (ticks * MICRO_PER_SECOND) as nat / (CLOCK_FREQ as nat)
    }

    /// The time at which the `time` counter reads `ticks`, at `CLOCK_FREQ`
    /// ticks per second. The product `ticks * 1_000_000` must fit in a `u64`.
    pub fn up_time(ticks: u64) -> (t: Time)
        requires
            ticks * MICRO_PER_SECOND <= u64::MAX,
        ensures
            t.micros() == Self::spec_up_time(ticks),
            t.micros() * CLOCK_FREQ <= ticks * MICRO_PER_SECOND < (t.micros() + 1) * CLOCK_FREQ,
    {
        proof {
            Self::lemma_up_time_floor(ticks);
        }
        Time { start: ticks * MICRO_PER_SECOND / CLOCK_FREQ }
    }

    /// Converting ticks to microseconds rounds down exactly: the result is
    /// the one whole number `m` with `m * CLOCK_FREQ <= ticks * 1_000_000 <
    /// (m + 1) * CLOCK_FREQ`; at ten million ticks per second that is
    /// `ticks / 10`.
    pub proof fn lemma_up_time_floor(ticks: u64)
        ensures
            Self::spec_up_time(ticks) * CLOCK_FREQ <= ticks * MICRO_PER_SECOND,
            ticks * MICRO_PER_SECOND < (Self::spec_up_time(ticks) + 1) * CLOCK_FREQ,
            Self::spec_up_time(ticks) == ticks / 10,
    {
        let m = Self::spec_up_time(ticks);
        assert(m == (ticks * 1000000) / 10000000);
        assert((ticks * 1000000) / 10000000 == ticks / 10) by (nonlinear_arith);
        assert(m * 10000000 <= ticks * 1000000 < (m + 1) * 10000000) by (nonlinear_arith)
            requires
                m == ticks / 10,
        ;
    }

    /// More ticks never give an earlier time.
    pub proof fn lemma_up_time_monotone(a: u64, b: u64)
        requires
            a <= b,
        ensures
            Self::spec_up_time(a) <= Self::spec_up_time(b),
    {
        Self::lemma_up_time_floor(a);
        Self::lemma_up_time_floor(b);
        assert(a / 10 <= b / 10) by (nonlinear_arith)
            requires
                a <= b,
        ;
    }

    /// The value `micros` microseconds after boot.
    pub fn from_micros(micros: u64) -> (t: Time)
        ensures
            t.micros() == micros,
    {
        Time { start: micros }
    }

    /// Boot time; also an empty accumulated time.
    pub fn zero() -> (t: Time)
        ensures
            t.micros() == 0,
    {
        Time { start: 0 }
    }

    /// The whole microseconds this value stands for.
    pub fn as_micros(&self) -> (r: u64)
        ensures
            r == self.micros(),
    {
        self.start
    }

    /// The whole milliseconds this value stands for, rounded down.
    pub fn as_millis(&self) -> (r: u64)
        ensures
            r == self.micros() / 1000,
    {
        self.start / 1000
    }

    /// The time from `earlier` to `self`, in microseconds. `earlier` must
    /// not lie after `self`.
    pub fn duration_since(&self, earlier: Time) -> (d: u64)
        requires
            earlier.micros() <= self.micros(),
        ensures
            d == self.micros() - earlier.micros(),
    {
        self.start - earlier.start
    }

    /// The time elapsed from `self` to `now`, in microseconds.
    pub fn elapsed(&self, now: Time) -> (d: u64)
        requires
            self.micros() <= now.micros(),
        ensures
            d == now.micros() - self.micros(),
    {
        now.duration_since(*self)
    }

    /// Returns the time elapsed from `self` to `now` and moves `self` on to
    /// `now`.
    pub fn elapsed_and_update(&mut self, now: Time) -> (d: u64)
        requires
            old(self).micros() <= now.micros(),
        ensures
            d == now.micros() - old(self).micros(),
            final(self).micros() == now.micros(),
    {
        let elapsed = self.elapsed(now);
        self.start = self.start + elapsed;
        elapsed
    }

    /// Adds a duration of `d` microseconds to this accumulated time. The sum
    /// must fit in a `u64`.
    pub fn add_assign(&mut self, d: u64)
        requires
            old(self).micros() + d <= u64::MAX,
        ensures
            final(self).micros() == old(self).micros() + d,
    {
        self.start = self.start + d;
    }
}

impl Default for Time {
    /// Boot time; an empty accumulated time.
    fn default() -> (t: Self)
        ensures
            t.micros() == 0,
    {
        Time::zero()
    }
}

/// The value of the `time` counter at which the next timer interrupt must
/// fire, given its value `now_ticks`: one scheduling tick later.
pub fn next_trigger(now_ticks: u64) -> (r: u64)
    requires
        now_ticks + CLOCK_FREQ / TICKS_PER_SECOND <= u64::MAX,
    ensures
        r == now_ticks + CLOCK_FREQ / TICKS_PER_SECOND,
{
    now_ticks + CLOCK_FREQ / TICKS_PER_SECOND
}

} // verus!
