//! The periodic refresh: how many ticks are due after some time has passed.
use vstd::prelude::*;

verus! {

/// Ticks due `elapsed` milliseconds after start: one at each whole multiple of the
/// period, the multiple itself included, none at the start.
pub open spec fn due(period: u64, elapsed: u64) -> nat
    recommends
        period > 0,
{
    (elapsed / period) as nat
}

/// Counts the ticks fired since start so that each due tick fires exactly once.
pub struct TickScheduler {
    period: u64,
    fired: u64,
}

impl TickScheduler {
    pub closed spec fn period_spec(&self) -> u64 {
        self.period
    }

    pub closed spec fn fired_spec(&self) -> nat {
        self.fired as nat
    }

    pub open spec fn wf(&self) -> bool {
        self.period_spec() > 0
    }

    pub fn new(period: u64) -> (r: TickScheduler)
        requires
            period > 0,
        ensures
            r.wf(),
            r.period_spec() == period,
            r.fired_spec() == 0,
    {
        TickScheduler { period, fired: 0 }
    }

    pub fn period(&self) -> (r: u64)
        ensures
            r == self.period_spec(),
    {
        self.period
    }

    pub fn fired(&self) -> (r: u64)
        ensures
            r == self.fired_spec(),
    {
        self.fired
    }

    /// The ticks to run now that `elapsed` milliseconds have passed since start: those
    /// due and not yet fired. A time earlier than one seen before fires none.
    pub fn advance(&mut self, elapsed: u64) -> (n: u64)
        requires
            old(self).wf(),
        ensures
            final(self).wf(),
            final(self).period_spec() == old(self).period_spec(),
            old(self).fired_spec() <= due(old(self).period_spec(), elapsed) ==> {
                &&& final(self).fired_spec() == due(old(self).period_spec(), elapsed)
                &&& n == due(old(self).period_spec(), elapsed) - old(self).fired_spec()
            },
            old(self).fired_spec() > due(old(self).period_spec(), elapsed) ==> {
                &&& final(self).fired_spec() == old(self).fired_spec()
                &&& n == 0
            },
    {
        let d = elapsed / self.period;
        if d <= self.fired {
            return 0;
        }
        let n = d - self.fired;
        self.fired = d;
        n
    }
}

/// Advancing to one time and then to a later one fires, in all, the ticks due at
/// the later time: none is skipped and none fires twice.
pub proof fn lemma_ticks_add_up(period: u64, a: u64, b: u64)
    requires
        period > 0,
        a <= b,
    ensures
        due(period, a) <= due(period, b),
        due(period, a) + (due(period, b) - due(period, a)) == due(period, b),
{
    assert(a / period <= b / period) by (nonlinear_arith)
        requires
            period > 0,
            a <= b,
    ;
}

} // verus!
