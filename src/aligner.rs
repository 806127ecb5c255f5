use vstd::prelude::*;
use crate::schedule::LinearSchedule;

verus! {

/// Observations the aligner may make before it gives up.
pub const MAX_OBSERVATIONS: u64 = 500;

/// Milliseconds per step of the aligner's linear schedule.
pub const OBSERVATION_STEP_MS: u64 = 30;

/// What follows an observation of the current slot.
#[derive(Clone, Copy, Debug, PartialEq, Eq, Structural)]
pub enum AlignStep {
    /// The slot just advanced by exactly one: a new slot has begun.
    Aligned { slot: u64 },
    /// Sleep until `until_ms` after the start of alignment, then observe again.
    Wait { until_ms: u64 },
}

/// The aligner used up its observations without seeing a clean advance.
#[derive(Clone, Copy, Debug, PartialEq, Eq, Structural)]
pub struct SlotDetectionTimeout {
    pub observations: u64,
}

/// Catches the start of a slot: observes the current slot number on a linear
/// schedule until two consecutive observations differ by exactly one.
pub struct SlotAligner {
    last: Option<u64>,
    schedule: LinearSchedule,
}

impl SlotAligner {
    pub closed spec fn spec_last(&self) -> Option<u64> {
        self.last
    }

    /// The number of the next observation, from one.
    pub closed spec fn spec_observation(&self) -> u64 {
        self.schedule.spec_round()
    }

    pub closed spec fn wf(&self) -> bool {
        &&& self.schedule.wf()
        &&& self.schedule.spec_limit() == MAX_OBSERVATIONS
        &&& self.schedule.spec_step_ms() == OBSERVATION_STEP_MS
    }

    pub fn new() -> (r: Self)
        ensures
            r.wf(),
            r.spec_last() is None,
            r.spec_observation() == 1,
    {
        SlotAligner { last: None, schedule: LinearSchedule::new(OBSERVATION_STEP_MS, MAX_OBSERVATIONS) }
    }

    /// Checked before each observation: the budget of observations is spent.
    pub fn check_budget(&self) -> (r: Result<(), SlotDetectionTimeout>)
        requires
            self.wf(),
        ensures
            r is Err <==> self.spec_observation() > MAX_OBSERVATIONS,
            r is Err ==> r->Err_0 == (SlotDetectionTimeout { observations: MAX_OBSERVATIONS }),
    {
        if !self.schedule.has_budget() {
            Err(SlotDetectionTimeout { observations: MAX_OBSERVATIONS })
        } else {
            Ok(())
        }
    }

    /// Takes one observation of the current slot. When it is the previous one
    /// plus one, that slot is the start of a new slot. Otherwise (no previous
    /// observation, no progress, or a jump of more than one) it is remembered,
    /// and the next observation is due `30 * n` ms after the start, `n` being
    /// the number of this observation.
    pub fn observe(&mut self, slot: u64) -> (r: AlignStep)
        requires
            old(self).wf(),
            old(self).spec_observation() <= MAX_OBSERVATIONS,
        ensures
            final(self).wf(),
            (old(self).spec_last() == Some((slot - 1) as u64) && slot > 0) ==> r == (AlignStep::Aligned { slot })
                && *final(self) == *old(self),
            !(old(self).spec_last() == Some((slot - 1) as u64) && slot > 0) ==> r == (AlignStep::Wait {
                until_ms: (old(self).spec_observation() * OBSERVATION_STEP_MS) as u64,
            }) && final(self).spec_last() == Some(slot) && final(self).spec_observation()
                == old(self).spec_observation() + 1,
    {
        match self.last {
            Some(prev) => {
                if slot > 0 && prev == slot - 1 {
                    return AlignStep::Aligned { slot };
                }
            },
            None => {},
        }
        let until_ms = self.schedule.advance();
        self.last = Some(slot);
        AlignStep::Wait { until_ms }
    }
}

} // verus!
