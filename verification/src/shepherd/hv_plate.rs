//! Gating of the HV plate task: when the chip's startup sequence has to run, and when a cycle
//! of register jobs counts as fresh data.

use vstd::prelude::*;

verus! {

/// Whether the startup sequence has completed since the last reset.
pub struct StartupGate {
    started: bool,
}

impl StartupGate {
    pub closed spec fn is_started(self) -> bool {
        self.started
    }

    /// Nothing has started yet.
    pub fn new() -> (g: StartupGate)
        ensures
            !g.is_started(),
    {
        StartupGate { started: false }
    }

    /// Whether the startup sequence still has to run. Once it has succeeded, startup returns
    /// immediately every cycle.
    pub fn needs_startup(&self) -> (n: bool)
        ensures
            n == !self.is_started(),
    {
        !self.started
    }

    /// Records the outcome of a startup attempt: success marks the chip started; a failure
    /// leaves it not started, so the next cycle retries.
    pub fn record_startup<E>(&mut self, outcome: &Result<(), E>)
        ensures
            final(self).is_started() == (old(self).is_started() || outcome is Ok),
    {
        if outcome.is_ok() {
            self.started = true;
        }
    }
}

/// One cycle of the HV plate task's register jobs.
pub struct CycleOutcome {
    all_successful: bool,
}

impl CycleOutcome {
    pub closed spec fn all_ok(self) -> bool {
        self.all_successful
    }

    /// A cycle with no job run yet.
    pub fn new() -> (c: CycleOutcome)
        ensures
            c.all_ok(),
    {
        CycleOutcome { all_successful: true }
    }

    /// Takes in the result of one of the cycle's jobs; a failed job makes the cycle not all
    /// successful, and recording it does not depend on the other jobs' results.
    pub fn record_job<E>(&mut self, result: &Result<(), E>)
        ensures
            final(self).all_ok() == (old(self).all_ok() && result is Ok),
    {
        if result.is_err() {
            self.all_successful = false;
        }
    }

    /// Whether to signal fresh data: only when every job of the cycle succeeded.
    pub fn fresh_data(&self) -> (f: bool)
        ensures
            f == self.all_ok(),
    {
        self.all_successful
    }
}

} // verus!
