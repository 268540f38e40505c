//! A repeating timer, advanced by hand once per tick.

use vstd::prelude::*;

verus! {

/// A timer that finishes each time its period has run, and starts over with
/// what is left.
#[derive(Clone, Copy, PartialEq, Eq, Debug)]
pub struct Timer {
    period: u64,
    elapsed: u64,
}

impl Timer {
    /// Time from one finish to the next.
    pub closed spec fn period(self) -> u64 {
        self.period
    }

    /// Time run since the timer last finished.
    pub closed spec fn elapsed(self) -> u64 {
        self.elapsed
    }

    /// Whether the timer can run: its period is not zero.
    pub open spec fn wf(self) -> bool {
        self.period() > 0
    }

    /// The timer of the given period at zero.
    pub closed spec fn fresh(period: u64) -> Timer {
        Timer { period, elapsed: 0 }
    }

    /// Whether the timer finishes when `delta` is added: the time run reaches
    /// the period.
    pub open spec fn finishes(self, delta: u64) -> bool {
        self.elapsed() + delta >= self.period()
    }

    /// The timer after `delta` was added: what is left after whole periods
    /// are taken off.
    pub closed spec fn after_tick(self, delta: u64) -> Timer {
        Timer { period: self.period, elapsed: ((self.elapsed + delta) % (self.period as int)) as u64 }
    }

    /// Period and time run of a fresh timer and of a timer after a tick.
    pub proof fn timer_values(self, period: u64, delta: u64)
        ensures
            Timer::fresh(period).period() == period,
            Timer::fresh(period).elapsed() == 0,
            self.after_tick(delta).period() == self.period(),
            self.wf() ==> self.after_tick(delta).elapsed() == (self.elapsed() + delta) % (
            self.period() as int),
            self.wf() ==> self.after_tick(delta).wf(),
    {
    }

    /// A repeating timer of the given period, at zero.
    pub fn repeating(period: u64) -> (t: Timer)
        requires
            period > 0,
        ensures
            t == Timer::fresh(period),
            t.wf(),
    {
        Timer { period, elapsed: 0 }
    }

    /// Time from one finish to the next.
    pub fn get_period(&self) -> (p: u64)
        ensures
            p == self.period(),
    {
        self.period
    }

    /// Time run since the timer last finished.
    pub fn get_elapsed(&self) -> (e: u64)
        ensures
            e == self.elapsed(),
    {
        self.elapsed
    }

    /// Advances the timer by `delta`. It finishes when the time run reaches
    /// the period, and then starts over with what is left of it. Returns
    /// whether it finished.
    pub fn tick(&mut self, delta: u64) -> (finished: bool)
        requires
            old(self).wf(),
        ensures
            finished == old(self).finishes(delta),
            *final(self) == old(self).after_tick(delta),
            final(self).wf(),
    {
        let total: u128 = self.elapsed as u128 + delta as u128;
        let left: u128 = total % self.period as u128;
        self.elapsed = left as u64;
        total >= self.period as u128
    }
}

} // verus!
