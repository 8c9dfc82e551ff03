//! The wall-clock ceiling and its cooperative enforcement bookkeeping.
//!
//! Enforcement is polling, not preemption: a background thread advances a
//! shared counter every poll interval, and the runtime consumes one tick of a
//! per-call budget at every checkpoint that observes an advance. The budget
//! arithmetic and the checkpoint state machine are verified here; the thread
//! and the counter live with the unverified runtime plumbing.

use vstd::prelude::*;

use crate::errors::{ConfigurationError, ExecutionError, ResourceLimitError};

verus! {

/// Default interval, in microseconds, between two advances of the shared
/// tick counter.
pub const DEFAULT_EVALUATION_INTERVAL_MICROS: u64 = 100;

/// A wall-clock ceiling for one call, in microseconds, together with the
/// poll interval at which a running call re-checks it.
///
/// The ceiling is enforced at poll granularity: a smaller interval tightens
/// the cutoff and adds overhead. The whole number of intervals inside the
/// ceiling is the call's tick budget; a limit whose budget computes to zero
/// is rejected at configuration time.
#[derive(Clone, Copy, Debug, PartialEq, Eq, Structural)]
pub struct TimeLimit {
    /// Total execution time ceiling in microseconds.
    pub limit: u64,
    /// Interval in microseconds between two deadline checks.
    pub evaluation_interval: u64,
}

impl TimeLimit {
    /// A ceiling of `limit` microseconds with the default poll interval.
    pub fn new(limit: u64) -> (r: Self)
        ensures
            r.limit == limit,
            r.evaluation_interval == DEFAULT_EVALUATION_INTERVAL_MICROS,
    {
        TimeLimit { limit, evaluation_interval: DEFAULT_EVALUATION_INTERVAL_MICROS }
    }

    /// The same ceiling, re-checked every `evaluation_interval` microseconds.
    pub fn with_evaluation_interval(self, evaluation_interval: u64) -> (r: Self)
        ensures
            r.limit == self.limit,
            r.evaluation_interval == evaluation_interval,
    {
        TimeLimit { evaluation_interval, ..self }
    }

    /// The whole number of poll ticks the ceiling affords; zero when the
    /// interval is zero or longer than the ceiling.
    pub open spec fn spec_tick_budget(self) -> int {
        if self.evaluation_interval == 0 {
            0
        } else {
            (self.limit as int) / (self.evaluation_interval as int)
        }
    }

    /// A limit passes configuration exactly when it affords at least one
    /// tick and its budget fits the 32-bit deadline counter.
    pub open spec fn spec_accepted(self) -> bool {
        1 <= self.spec_tick_budget() <= u32::MAX
    }

    /// The integer tick budget, or the configuration error that rules this
    /// limit out.
    pub fn tick_budget(&self) -> (r: Result<u32, ConfigurationError>)
        ensures
            r is Ok <==> self.spec_accepted(),
            r matches Ok(n) ==> n == self.spec_tick_budget(),
            self.spec_tick_budget() == 0 ==> r == Err::<u32, ConfigurationError>(
                ConfigurationError::ZeroTickBudget,
            ),
            self.spec_tick_budget() > u32::MAX ==> r == Err::<u32, ConfigurationError>(
                ConfigurationError::TickBudgetTooLarge,
            ),
    {
        if self.evaluation_interval == 0 {
            return Err(ConfigurationError::ZeroTickBudget);
        }
        let budget = self.limit / self.evaluation_interval;
        if budget == 0 {
            Err(ConfigurationError::ZeroTickBudget)
        } else if budget > u32::MAX as u64 {
            Err(ConfigurationError::TickBudgetTooLarge)
        } else {
            Ok(budget as u32)
        }
    }
}

/// The remaining-ticks budget of one armed call, consumed by deadline
/// checkpoints until it reaches zero and the call is aborted.
pub struct EpochBudget {
    remaining: u32,
    exhausted: bool,
}

impl EpochBudget {
    /// Ticks this budget still admits before it aborts the call.
    pub closed spec fn spec_remaining(self) -> u32 {
        self.remaining
    }

    /// Whether a checkpoint has already found the budget spent.
    pub closed spec fn spec_exhausted(self) -> bool {
        self.exhausted
    }

    /// A fresh budget of `ticks` checkpoints.
    pub fn new(ticks: u32) -> (r: Self)
        ensures
            r.spec_remaining() == ticks,
            !r.spec_exhausted(),
    {
        EpochBudget { remaining: ticks, exhausted: false }
    }

    /// One deadline checkpoint, mirroring [`spec_deadline_step`]: a spent
    /// budget aborts the call with a time-limit failure and is remembered as
    /// exhausted; otherwise one tick is consumed and the deadline is re-armed
    /// for one more tick (the returned extension).
    pub fn on_deadline(&mut self) -> (r: Result<u64, ExecutionError>)
        ensures
            r is Ok <==> old(self).spec_remaining() > 0,
            old(self).spec_remaining() > 0 ==> {
                &&& r == Ok::<u64, ExecutionError>(1)
                &&& final(self).spec_remaining() == old(self).spec_remaining() - 1
                &&& final(self).spec_exhausted() == old(self).spec_exhausted()
            },
            old(self).spec_remaining() == 0 ==> {
                &&& r == Err::<u64, ExecutionError>(ExecutionError::ResourceLimit(
                    ResourceLimitError::TimeLimitExceeded,
                ))
                &&& final(self).spec_remaining() == 0
                &&& final(self).spec_exhausted()
            },
    {
        if self.remaining == 0 {
            self.exhausted = true;
            Err(ExecutionError::ResourceLimit(ResourceLimitError::TimeLimitExceeded))
        } else {
            self.remaining = self.remaining - 1;
            Ok(1)
        }
    }

    /// Whether this call was stopped by the time ceiling.
    pub fn was_exhausted(&self) -> (r: bool)
        ensures
            r == self.spec_exhausted(),
    {
        self.exhausted
    }
}

/// The ARM step of one call: computes the tick budget for a configured time
/// limit and arms a fresh [`EpochBudget`] with it. A budget of zero is
/// refused here as a defensive recheck — configuration already rejects it,
/// so arming an engine that was built can never fail.
pub fn arm_time_budget(limit: &TimeLimit) -> (r: Result<EpochBudget, ExecutionError>)
    ensures
        r is Ok <==> limit.spec_accepted(),
        r matches Ok(b) ==> {
            &&& b.spec_remaining() == limit.spec_tick_budget()
            &&& !b.spec_exhausted()
        },
        r matches Err(e) ==> e is Configuration,
{
    match limit.tick_budget() {
        Ok(ticks) => Ok(EpochBudget::new(ticks)),
        Err(_) => Err(ExecutionError::Configuration(
            "time limit affords no whole poll tick".to_owned(),
        )),
    }
}

/// One deadline checkpoint over a budget of `remaining` ticks: `None` aborts
/// the call, `Some` is the budget left afterwards.
pub open spec fn spec_deadline_step(remaining: nat) -> Option<nat> {
    if remaining == 0 {
        None
    } else {
        Some((remaining - 1) as nat)
    }
}

/// The budget left after `checkpoints` deadline checks starting from
/// `start` ticks, or `None` if one of them aborted the call.
pub open spec fn spec_deadline_run(start: nat, checkpoints: nat) -> Option<nat>
    decreases checkpoints,
{
    if checkpoints == 0 {
        Some(start)
    } else {
        match spec_deadline_run(start, (checkpoints - 1) as nat) {
            None => None,
            Some(remaining) => spec_deadline_step(remaining),
        }
    }
}

/// A budget of `start` ticks admits exactly `start` deadline checkpoints:
/// a run of checkpoints survives if and only if there are at most `start`
/// of them, and each one consumes exactly one tick.
pub proof fn lemma_tick_budget_exact(start: nat, checkpoints: nat)
    ensures
        spec_deadline_run(start, checkpoints) is Some <==> checkpoints <= start,
        checkpoints <= start ==> spec_deadline_run(start, checkpoints) == Some(
            (start - checkpoints) as nat,
        ),
    decreases checkpoints,
{
    if checkpoints > 0 {
        lemma_tick_budget_exact(start, (checkpoints - 1) as nat);
    }
}

/// A zero tick budget is caught when the engine is configured, never at
/// call time: configuration accepts a limit only with a positive budget,
/// and arming an accepted limit always succeeds with that budget.
pub proof fn lemma_zero_budget_rejected_at_configuration(limit: TimeLimit)
    ensures
        limit.spec_tick_budget() == 0 ==> !limit.spec_accepted(),
        limit.spec_accepted() ==> limit.spec_tick_budget() >= 1,
{
}

} // verus!
