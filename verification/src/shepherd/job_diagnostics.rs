//! Diagnostics of subsystem "jobs", the units of work that trigger conversions and pull
//! register data into a cache: how long the last run took, the longest and shortest runs so
//! far, and how many runs failed.
//!
//! Durations are in ticks.

use vstd::prelude::*;

use crate::clock::now_ticks;

verus! {

/// Diagnostic data for a job.
#[derive(Clone, Copy, PartialEq, Eq, Structural, Debug)]
pub struct JobDiagnostics {
    last_job_duration: u64,
    max_job_duration: u64,
    min_job_duration: u64,
    error_count: usize,
}

/// The diagnostics after a successful run that took `duration`: it becomes the last duration,
/// and the maximum and minimum take it in.
pub open spec fn spec_record_success(d: JobDiagnostics, duration: u64) -> JobDiagnostics {
    JobDiagnostics::spec_make(
        duration,
        if duration > d.max() { duration } else { d.max() },
        if duration < d.min() { duration } else { d.min() },
        d.errors(),
    )
}

/// The diagnostics after a failed run: one more error, durations untouched.
pub open spec fn spec_record_failure(d: JobDiagnostics) -> JobDiagnostics {
    JobDiagnostics::spec_make(d.last(), d.max(), d.min(), (d.errors() + 1) as usize)
}

/// The diagnostics after successful runs of the given durations, in order.
pub open spec fn spec_record_all(d: JobDiagnostics, durations: Seq<u64>) -> JobDiagnostics
    decreases durations.len(),
{
    if durations.len() == 0 {
        d
    } else {
        spec_record_success(spec_record_all(d, durations.drop_last()), durations.last())
    }
}

/// `a - b`, or 0 when `b` is later, as `embassy_time::Instant::saturating_duration_since`
/// computes it.
pub open spec fn saturating_since(a: u64, b: u64) -> u64 {
    if a < b { 0 } else { (a - b) as u64 }
}

impl JobDiagnostics {
    pub closed spec fn last(self) -> u64 {
        self.last_job_duration
    }

    pub closed spec fn max(self) -> u64 {
        self.max_job_duration
    }

    pub closed spec fn min(self) -> u64 {
        self.min_job_duration
    }

    pub closed spec fn errors(self) -> usize {
        self.error_count
    }

    pub closed spec fn spec_make(last: u64, max: u64, min: u64, errors: usize) -> JobDiagnostics {
        JobDiagnostics { last_job_duration: last, max_job_duration: max, min_job_duration: min, error_count: errors }
    }

    /// The accessors read back what `spec_make` put in.
    pub broadcast proof fn lemma_make(last: u64, max: u64, min: u64, errors: usize)
        ensures
            #[trigger] JobDiagnostics::spec_make(last, max, min, errors).last() == last,
            JobDiagnostics::spec_make(last, max, min, errors).max() == max,
            JobDiagnostics::spec_make(last, max, min, errors).min() == min,
            JobDiagnostics::spec_make(last, max, min, errors).errors() == errors,
    {
    }

    /// The diagnostics of a job that never ran: zero durations, except the minimum, which
    /// starts at the largest duration so that the first run replaces it.
    pub open spec fn spec_new() -> JobDiagnostics {
        JobDiagnostics::spec_make(0, 0, u64::MAX, 0)
    }

    /// The diagnostics of a job that never ran.
    pub fn new() -> (d: JobDiagnostics)
        ensures
            d == JobDiagnostics::spec_new(),
    {
        JobDiagnostics { last_job_duration: 0, max_job_duration: 0, min_job_duration: u64::MAX, error_count: 0 }
    }

    /// How long the job took the last time it ran.
    pub fn last_job_duration(&self) -> (t: u64)
        ensures
            t == self.last(),
    {
        self.last_job_duration
    }

    /// The longest run so far.
    pub fn max_job_duration(&self) -> (t: u64)
        ensures
            t == self.max(),
    {
        self.max_job_duration
    }

    /// The shortest run so far.
    pub fn min_job_duration(&self) -> (t: u64)
        ensures
            t == self.min(),
    {
        self.min_job_duration
    }

    /// Times the job could not run to completion.
    pub fn error_count(&self) -> (n: usize)
        ensures
            n == self.errors(),
    {
        self.error_count
    }
}

/// Holds a job's diagnostics across runs.
pub struct JobDiagnosticsContainer {
    inner: JobDiagnostics,
}

impl JobDiagnosticsContainer {
    /// The diagnostics held.
    pub closed spec fn diagnostics(self) -> JobDiagnostics {
        self.inner
    }

    /// A container for a job that never ran.
    pub fn new() -> (c: JobDiagnosticsContainer)
        ensures
            c.diagnostics() == JobDiagnostics::spec_new(),
    {
        JobDiagnosticsContainer { inner: JobDiagnostics::new() }
    }

    /// Records a successful run that started at `start_time` and ended at `end_time`.
    pub fn update_with_successful_run_at(&mut self, start_time: u64, end_time: u64)
        ensures
            final(self).diagnostics() == spec_record_success(
                old(self).diagnostics(),
                saturating_since(end_time, start_time),
            ),
    {
        let job_duration: u64 = if end_time < start_time { 0 } else { end_time - start_time };
        self.inner.last_job_duration = job_duration;
        if self.inner.last_job_duration > self.inner.max_job_duration {
            self.inner.max_job_duration = self.inner.last_job_duration;
        }
        if self.inner.last_job_duration < self.inner.min_job_duration {
            self.inner.min_job_duration = self.inner.last_job_duration;
        }
        proof {
            broadcast use JobDiagnostics::lemma_make;
        }
    }

    /// Records a successful run that started at `start_time` and ends now.
    ///
    /// The duration is the time elapsed from `start_time` to the clock's reading, which is not
    /// known here; the run is recorded as the last one and taken into the maximum and minimum.
    pub fn update_with_successful_run(&mut self, start_time: u64)
        ensures
            exists|duration: u64| final(self).diagnostics() == #[trigger] spec_record_success(old(self).diagnostics(), duration),
            exists|end_time: u64| final(self).diagnostics()
                == spec_record_success(old(self).diagnostics(), #[trigger] saturating_since(end_time, start_time)),
    {
        let end_time = now_ticks();
        self.update_with_successful_run_at(start_time, end_time);
    }

    /// Records a run that had to stop early because of an error.
    pub fn update_with_failure(&mut self)
        requires
            old(self).diagnostics().errors() < usize::MAX,
        ensures
            final(self).diagnostics() == spec_record_failure(old(self).diagnostics()),
    {
        self.inner.error_count = self.inner.error_count + 1;
        proof {
            broadcast use JobDiagnostics::lemma_make;
        }
    }

    /// Starts a run of this job at `now`.
    pub fn start_at(&self, now: u64) -> (run: JobRun)
        ensures
            run.start_time() == now,
    {
        JobRun { start: now }
    }

    /// Starts a run of this job at the current time.
    pub fn start(&self) -> (run: JobRun) {
        JobRun { start: now_ticks() }
    }

    /// Copies out the current diagnostics.
    pub fn copy_inner(&self) -> (d: JobDiagnostics)
        ensures
            d == self.diagnostics(),
    {
        self.inner
    }
}

/// A job in progress: the instant it started.
///
/// End it with `finish` when the job succeeded, or `fail` when it has to stop early.
/// A run dropped without either records nothing, so the compiler warns about an unused one.
#[must_use]
pub struct JobRun {
    start: u64,
}

impl JobRun {
    pub closed spec fn start_time(self) -> u64 {
        self.start
    }

    /// Records a successful run that ends now, and returns the job's diagnostics.
    pub fn finish(self, container: &mut JobDiagnosticsContainer) -> (d: JobDiagnostics)
        ensures
            d == final(container).diagnostics(),
            exists|duration: u64| d == #[trigger] spec_record_success(old(container).diagnostics(), duration),
            exists|end_time: u64| d
                == spec_record_success(old(container).diagnostics(), #[trigger] saturating_since(end_time, self.start_time())),
    {
        let ghost before = old(container).diagnostics();
        container.update_with_successful_run(self.start);
        proof {
            let e = choose|end_time: u64| container.diagnostics()
                == spec_record_success(before, #[trigger] saturating_since(end_time, self.start));
            assert(container.diagnostics() == spec_record_success(before, saturating_since(e, self.start_time())));
        }
        container.copy_inner()
    }

    /// Records a successful run that ends at `end_time`, and returns the job's diagnostics.
    pub fn finish_at(self, container: &mut JobDiagnosticsContainer, end_time: u64) -> (d: JobDiagnostics)
        ensures
            d == final(container).diagnostics(),
            d == spec_record_success(old(container).diagnostics(), saturating_since(end_time, self.start_time())),
    {
        container.update_with_successful_run_at(self.start, end_time);
        container.copy_inner()
    }

    /// Records that the run stopped early because of an error.
    pub fn fail(self, container: &mut JobDiagnosticsContainer)
        requires
            old(container).diagnostics().errors() < usize::MAX,
        ensures
            final(container).diagnostics() == spec_record_failure(old(container).diagnostics()),
    {
        container.update_with_failure();
    }
}

/// After any successful run, the shortest run is no longer than the last one, and the last
/// no longer than the longest.
pub proof fn lemma_success_orders_durations(d: JobDiagnostics, duration: u64)
    requires
        d.min() <= d.max() || d == JobDiagnostics::spec_new(),
    ensures
        spec_record_success(d, duration).min() <= spec_record_success(d, duration).last(),
        spec_record_success(d, duration).last() <= spec_record_success(d, duration).max(),
{
    broadcast use JobDiagnostics::lemma_make;
}

/// Over any sequence of successful runs from a fresh job, the maximum is the longest run and
/// the minimum the shortest, each attained by some run; with no runs they stay at their
/// starting values.
pub proof fn lemma_record_all_extremes(durations: Seq<u64>)
    ensures
        durations.len() == 0 ==> spec_record_all(JobDiagnostics::spec_new(), durations) == JobDiagnostics::spec_new(),
        forall|i: int| 0 <= i < durations.len() ==>
            #[trigger] durations[i] <= spec_record_all(JobDiagnostics::spec_new(), durations).max(),
        forall|i: int| 0 <= i < durations.len() ==>
            spec_record_all(JobDiagnostics::spec_new(), durations).min() <= #[trigger] durations[i],
        durations.len() > 0 ==> durations.contains(spec_record_all(JobDiagnostics::spec_new(), durations).max()),
        durations.len() > 0 ==> durations.contains(spec_record_all(JobDiagnostics::spec_new(), durations).min()),
        durations.len() > 0 ==> spec_record_all(JobDiagnostics::spec_new(), durations).last() == durations.last(),
        spec_record_all(JobDiagnostics::spec_new(), durations).errors() == 0,
    decreases durations.len(),
{
    broadcast use JobDiagnostics::lemma_make;
    if durations.len() > 0 {
        let prefix = durations.drop_last();
        lemma_record_all_extremes(prefix);
        let before = spec_record_all(JobDiagnostics::spec_new(), prefix);
        let x = durations.last();
        assert forall|i: int| 0 <= i < durations.len() implies
            #[trigger] durations[i] <= spec_record_all(JobDiagnostics::spec_new(), durations).max() by {
            if i < durations.len() - 1 {
                assert(durations[i] == prefix[i]);
            }
        }
        assert forall|i: int| 0 <= i < durations.len() implies
            spec_record_all(JobDiagnostics::spec_new(), durations).min() <= #[trigger] durations[i] by {
            if i < durations.len() - 1 {
                assert(durations[i] == prefix[i]);
            }
        }
        let after = spec_record_all(JobDiagnostics::spec_new(), durations);
        if prefix.len() == 0 {
            assert(durations[0] == x);
        } else {
            if after.max() != x {
                let j = choose|j: int| 0 <= j < prefix.len() && prefix[j] == before.max();
                assert(durations[j] == before.max());
            } else {
                assert(durations[durations.len() - 1] == x);
            }
            if after.min() != x {
                let j = choose|j: int| 0 <= j < prefix.len() && prefix[j] == before.min();
                assert(durations[j] == before.min());
            } else {
                assert(durations[durations.len() - 1] == x);
            }
        }
        if prefix.len() == 0 {
            assert(durations[durations.len() - 1] == x);
        }
    }
}

} // verus!
