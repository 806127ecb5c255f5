use vstd::prelude::*;

verus! {

/// The shared skeleton of the polling loops: rounds numbered from one, the
/// `n`-th ending `n * step_ms` ms after the start, at most `limit` of them.
pub struct LinearSchedule {
    step_ms: u64,
    limit: u64,
    round: u64,
}

impl LinearSchedule {
    pub closed spec fn spec_step_ms(&self) -> u64 {
        self.step_ms
    }

    pub closed spec fn spec_limit(&self) -> u64 {
        self.limit
    }

    /// The round under way, from one; `limit + 1` once the budget is spent.
    pub closed spec fn spec_round(&self) -> u64 {
        self.round
    }

    pub open spec fn wf(&self) -> bool {
        &&& 1 <= self.spec_round() <= self.spec_limit() + 1
        &&& self.spec_limit() < u64::MAX
        &&& self.spec_limit() * self.spec_step_ms() <= u64::MAX
    }

    pub fn new(step_ms: u64, limit: u64) -> (r: Self)
        requires
            limit < u64::MAX,
            limit * step_ms <= u64::MAX,
        ensures
            r.wf(),
            r.spec_step_ms() == step_ms,
            r.spec_limit() == limit,
            r.spec_round() == 1,
    {
        LinearSchedule { step_ms, limit, round: 1 }
    }

    pub fn round(&self) -> (r: u64)
        ensures
            r == self.spec_round(),
    {
        self.round
    }

    /// Whether the round under way is within the budget.
    pub fn has_budget(&self) -> (r: bool)
        ensures
            r == (self.spec_round() <= self.spec_limit()),
    {
        self.round <= self.limit
    }

    /// Whether the round under way is the last one of the budget (or past it).
    pub fn is_last(&self) -> (r: bool)
        ensures
            r == (self.spec_round() >= self.spec_limit()),
    {
        self.round >= self.limit
    }

    /// Ends the round under way: returns the time its end is due, in ms after
    /// the start, and moves on to the next round.
    pub fn advance(&mut self) -> (until_ms: u64)
        requires
            old(self).wf(),
            old(self).spec_round() <= old(self).spec_limit(),
        ensures
            final(self).wf(),
            until_ms == old(self).spec_round() * old(self).spec_step_ms(),
            final(self).spec_round() == old(self).spec_round() + 1,
            final(self).spec_step_ms() == old(self).spec_step_ms(),
            final(self).spec_limit() == old(self).spec_limit(),
    {
        proof {
            assert(self.round * self.step_ms <= self.limit * self.step_ms) by (nonlinear_arith)
                requires
                    self.round <= self.limit,
            ;
        }
        let until_ms = self.round * self.step_ms;
        self.round = self.round + 1;
        until_ms
    }
}

} // verus!
