//! The timer of the soft drop: it gathers the time that passes and fires each
//! time a period is full.

use vstd::prelude::*;

verus! {

/// Period of the soft drop, in nanoseconds: 0.45 s.
pub const SOFT_DROP_PERIOD: u64 = 450_000_000;

/// A repeating timer as a value of the model, times in nanoseconds.
pub struct TimerView {
    pub period: nat,
    pub elapsed: nat,
}

impl TimerView {
    /// Validity: the time gathered is less than a period.
    pub open spec fn wf(self) -> bool {
        0 <= self.elapsed < self.period
    }

    /// Whether the timer fires when `delta` passes: the time gathered reaches
    /// a full period.
    pub open spec fn fires(self, delta: nat) -> bool {
        self.elapsed + delta >= self.period
    }

    /// The timer after `delta` has passed: full periods are taken off the time
    /// gathered, what is left over stays.
    pub open spec fn advanced(self, delta: nat) -> TimerView {
        TimerView {
            period: self.period,
            elapsed: if self.period > 0 {
                (self.elapsed + delta) % self.period
            } else {
                0
            },
        }
    }
}

/// A repeating timer.
#[derive(Clone, Copy, Debug)]
pub struct SoftDropTimer {
    period: u64,
    elapsed: u64,
}

impl View for SoftDropTimer {
    type V = TimerView;

    closed spec fn view(&self) -> TimerView {
        TimerView { period: self.period as nat, elapsed: self.elapsed as nat }
    }
}

impl SoftDropTimer {
    /// Validity of the timer.
    pub open spec fn wf(&self) -> bool {
        self@.wf()
    }

    /// A timer that fires every `period` nanoseconds and has gathered no time
    /// yet. There is no timer with a period of zero.
    pub fn new(period: u64) -> (timer: Option<SoftDropTimer>)
        ensures
            period == 0 <==> timer is None,
            timer matches Some(t) ==> t.wf() && t@ == (TimerView {
                period: period as nat,
                elapsed: 0,
            }),
    {
        if period == 0 {
            None
        } else {
            Some(SoftDropTimer { period, elapsed: 0 })
        }
    }

    /// A timer of the period of the soft drop that has gathered no time yet.
    pub fn soft_drop() -> (timer: SoftDropTimer)
        ensures
            timer.wf(),
            timer@ == (TimerView { period: SOFT_DROP_PERIOD as nat, elapsed: 0 }),
    {
        SoftDropTimer { period: SOFT_DROP_PERIOD, elapsed: 0 }
    }

    /// The period, in nanoseconds.
    pub fn period(&self) -> (period: u64)
        ensures
            period == self@.period,
    {
        self.period
    }

    /// The time gathered since the timer last fired, in nanoseconds.
    pub fn elapsed(&self) -> (elapsed: u64)
        ensures
            elapsed == self@.elapsed,
    {
        self.elapsed
    }

    /// Lets `delta` nanoseconds pass and tells whether the timer fires.
    pub fn tick(&mut self, delta: u64) -> (fired: bool)
        requires
            old(self).wf(),
        ensures
            final(self).wf(),
            fired == old(self)@.fires(delta as nat),
            final(self)@ == old(self)@.advanced(delta as nat),
    {
        let left: u64 = self.period - self.elapsed;
        if delta < left {
            proof {
                vstd::arithmetic::div_mod::lemma_small_mod(
                    (self.elapsed + delta) as nat,
                    self.period as nat,
                );
            }
            self.elapsed = self.elapsed + delta;
            false
        } else {
            let over: u64 = (delta - left) % self.period;
            proof {
                let p = self.period as int;
                let total = self.elapsed + delta;
                assert(total == (delta - left) + p);
                vstd::arithmetic::div_mod::lemma_mod_add_multiples_vanish(delta - left, p);
            }
            self.elapsed = over;
            true
        }
    }
}

} // verus!
