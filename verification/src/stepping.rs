use vstd::prelude::*;

verus! {

/// Attempts made at one time step before the step is given up.
pub const MAX_ATTEMPTS: u32 = 12;

/// Attempts that use second-order reconstruction; later ones fall back to
/// first-order spatial fluxes.
pub const SECOND_ORDER_ATTEMPTS: u32 = 4;

/// The plan for attempt number `attempt` (counted from 0) of one time step:
/// `Some(true)` for a second-order attempt, `Some(false)` for a first-order
/// one, `None` once the step must be given up. Every rejected attempt
/// halves the trial time step before the next one.
pub open spec fn attempt_plan(attempt: int) -> Option<bool> {
    if attempt < MAX_ATTEMPTS {
        Some(attempt < SECOND_ORDER_ATTEMPTS)
    } else {
        None
    }
}

pub fn plan_attempt(attempt: u32) -> (r: Option<bool>)
    ensures
        r == attempt_plan(attempt as int),
{
    if attempt < MAX_ATTEMPTS {
        Some(attempt < SECOND_ORDER_ATTEMPTS)
    } else {
        None
    }
}

/// Running tallies of a grid's time stepping.
#[derive(Clone, Copy, Debug, PartialEq, Eq, Structural)]
pub struct StepCounters {
    /// Accepted steps.
    pub steps: u64,
    /// Rejected attempts.
    pub rejected: u64,
    /// Accepted steps that needed the first-order fallback.
    pub first_order_steps: u64,
}

/// The tallies after one time step that was accepted at attempt `attempt`
/// (or given up, when `attempt` reaches the attempt limit).
pub open spec fn after_step(c: StepCounters, attempt: int) -> StepCounters {
    if attempt < MAX_ATTEMPTS {
        StepCounters {
            steps: (c.steps + 1) as u64,
            rejected: (c.rejected + attempt) as u64,
            first_order_steps: if attempt < SECOND_ORDER_ATTEMPTS {
                c.first_order_steps
            } else {
                (c.first_order_steps + 1) as u64
            },
        }
    } else {
        StepCounters { rejected: (c.rejected + MAX_ATTEMPTS) as u64, ..c }
    }
}

/// The tallies have room for one more time step.
pub open spec fn room_for_step(c: StepCounters) -> bool {
    &&& c.steps < u64::MAX
    &&& c.first_order_steps < u64::MAX
    &&& c.rejected + MAX_ATTEMPTS <= u64::MAX
}

impl StepCounters {
    pub fn new() -> (r: Self)
        ensures
            r.steps == 0 && r.rejected == 0 && r.first_order_steps == 0,
    {
        StepCounters { steps: 0, rejected: 0, first_order_steps: 0 }
    }

    /// Counts a rejected attempt.
    pub fn record_rejection(&mut self)
        requires
            old(self).rejected < u64::MAX,
        ensures
            *final(self) == after_rejections(*old(self), 1),
    {
        self.rejected = self.rejected + 1;
    }

    /// Counts an accepted step made with second- or first-order fluxes.
    pub fn record_acceptance(&mut self, second_order: bool)
        requires
            old(self).steps < u64::MAX,
            old(self).first_order_steps < u64::MAX,
        ensures
            *final(self) == after_acceptance(*old(self), second_order),
    {
        self.steps = self.steps + 1;
        if !second_order {
            self.first_order_steps = self.first_order_steps + 1;
        }
    }
}

/// The tallies after `k` rejected attempts.
pub open spec fn after_rejections(c: StepCounters, k: int) -> StepCounters {
    StepCounters { rejected: (c.rejected + k) as u64, ..c }
}

/// The tallies after an accepted step of the given order.
pub open spec fn after_acceptance(c: StepCounters, second_order: bool) -> StepCounters {
    StepCounters {
        steps: (c.steps + 1) as u64,
        first_order_steps: if second_order {
            c.first_order_steps
        } else {
            (c.first_order_steps + 1) as u64
        },
        ..c
    }
}

/// A time step that is accepted at attempt `a` has first been rejected `a`
/// times; recording those rejections and then the acceptance with the
/// attempt's planned order yields `after_step`. A step given up after the
/// last attempt adds only its rejections. The first-order tally therefore
/// counts exactly the steps accepted after the second-order attempts.
pub proof fn law_step_tallies(c: StepCounters, a: int)
    requires
        room_for_step(c),
        0 <= a <= MAX_ATTEMPTS,
    ensures
        a < MAX_ATTEMPTS ==> attempt_plan(a) is Some && after_step(c, a) == after_acceptance(
            after_rejections(c, a), attempt_plan(a)->0),
        a == MAX_ATTEMPTS ==> attempt_plan(a) is None && after_step(c, a) == after_rejections(c, a),
        a < MAX_ATTEMPTS ==> (after_step(c, a).first_order_steps == c.first_order_steps + 1
            <==> a >= SECOND_ORDER_ATTEMPTS),
{
}

/// Every attempt before the limit has a plan; the first four are second
/// order, the rest first order.
pub proof fn law_attempt_schedule(a: int)
    requires
        0 <= a,
    ensures
        attempt_plan(a) is Some <==> a < 12,
        attempt_plan(a) == Some(true) <==> a < 4,
{
}

} // verus!
