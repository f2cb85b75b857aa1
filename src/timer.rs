use vstd::prelude::*;

verus! {

/// Nanoseconds in a microsecond.
pub const NANOS_PER_MICRO: u64 = 1000;

/// Nanoseconds in a second.
pub const NANOS_PER_SECOND: u64 = 1_000_000_000;

/// Period of the timer clock: one sixtieth of a second, in nanoseconds.
pub const TIMER_INTERVAL_NANOS: u64 = 16_666_667;

/// A periodic clock that fires at most once per call and then schedules its
/// next tick one interval after the previous due time, never from the time of
/// the call, so that late calls do not make it drift. Times are nanoseconds
/// on a monotonic clock.
pub struct Timer {
    pub interval: u64,
    pub last_tick: u64,
}

impl Timer {
    /// A clock with period `interval` whose first tick is due one period
    /// after `now`.
    pub fn new(interval: u64, now: u64) -> (r: Self)
        ensures
            r.interval == interval,
            r.last_tick == now,
    {
        Timer { interval, last_tick: now }
    }

    /// Whether a tick is due at `now`.
    pub open spec fn due(&self, now: u64) -> bool {
        now >= self.last_tick + self.interval
    }

    /// Fires if a tick is due at `now`, and then moves the due time on by
    /// exactly one period.
    pub fn tick(&mut self, now: u64) -> (fired: bool)
        ensures
            fired == old(self).due(now),
            final(self).interval == old(self).interval,
            final(self).last_tick == if fired {
                old(self).last_tick + old(self).interval
            } else {
                old(self).last_tick as int
            },
    {
        if now >= self.last_tick && now - self.last_tick >= self.interval {
            self.last_tick = self.last_tick + self.interval;
            true
        } else {
            false
        }
    }
}

/// The length in nanoseconds of one instruction cycle at `max_clock_speed`
/// cycles per second, rounded down to whole microseconds.
pub open spec fn cycle_nanos(max_clock_speed: u32) -> int {
    (1_000_000int / max_clock_speed as int) * NANOS_PER_MICRO
}

/// The two clocks of the machine: the instruction clock, which paces cycles at
/// a fixed budget each, and the 60 Hz timer clock.
pub struct CycleClock {
    pub cycle_nanos: u64,
    pub next_cycle: u64,
    pub timer: Timer,
}

/// What the clocks decided at the end of a cycle.
#[derive(Clone, Copy, Debug, PartialEq, Eq, Structural)]
pub struct ClockTick {
    /// Whether the timer clock fired.
    pub timer_fired: bool,
    /// Time left of the cycle's budget, in microseconds; zero when it is spent.
    pub idle_micros: u64,
}

impl CycleClock {
    /// Clocks started at `now` for `max_clock_speed` cycles per second.
    pub fn new(max_clock_speed: u32, now: u64) -> (r: Self)
        requires
            max_clock_speed > 0,
        ensures
            r.cycle_nanos == cycle_nanos(max_clock_speed),
            r.next_cycle == if now + r.cycle_nanos <= u64::MAX {
                now + r.cycle_nanos
            } else {
                u64::MAX as int
            },
            r.timer.interval == TIMER_INTERVAL_NANOS,
            r.timer.last_tick == now,
    {
        let cycle_nanos = (1_000_000 / max_clock_speed as u64) * NANOS_PER_MICRO;
        CycleClock {
            cycle_nanos,
            next_cycle: now.saturating_add(cycle_nanos),
            timer: Timer::new(TIMER_INTERVAL_NANOS, now),
        }
    }

    /// Ends a cycle at `now`: ticks the timer clock, measures what is left of
    /// the cycle's budget, and moves the instruction clock's due time on by
    /// one budget, whatever the time now is.
    pub fn advance(&mut self, now: u64) -> (r: ClockTick)
        ensures
            r.timer_fired == old(self).timer.due(now),
            r.idle_micros == if now < old(self).next_cycle {
                (old(self).next_cycle - now) / NANOS_PER_MICRO as int
            } else {
                0
            },
            final(self).cycle_nanos == old(self).cycle_nanos,
            final(self).next_cycle == if old(self).next_cycle + old(self).cycle_nanos <= u64::MAX {
                old(self).next_cycle + old(self).cycle_nanos
            } else {
                u64::MAX as int
            },
            final(self).timer.interval == old(self).timer.interval,
            final(self).timer.last_tick == if r.timer_fired {
                old(self).timer.last_tick + old(self).timer.interval
            } else {
                old(self).timer.last_tick as int
            },
    {
        let timer_fired = self.timer.tick(now);
        let time_left = self.next_cycle.saturating_sub(now);
        self.next_cycle = self.next_cycle.saturating_add(self.cycle_nanos);
        ClockTick { timer_fired, idle_micros: time_left / NANOS_PER_MICRO }
    }
}

} // verus!
