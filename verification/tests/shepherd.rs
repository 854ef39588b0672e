use ner_firmware::shepherd::hil::{
    after_read_attempt, finish_exchange, plan_hv_plate_transaction, plan_segment_transaction, HilError, HvPlatePlan,
    OpShape, RetryStep, SegmentPlan, TimedOutcome,
};
use ner_firmware::shepherd::hv_plate::{CycleOutcome, StartupGate};
use ner_firmware::shepherd::job_diagnostics::{JobDiagnostics, JobDiagnosticsContainer};
use ner_firmware::shepherd::register_cache::{RegisterCache, UpdateError};

#[test]
fn fresh_diagnostics() {
    let d = JobDiagnostics::new();
    assert_eq!(d.last_job_duration(), 0);
    assert_eq!(d.max_job_duration(), 0);
    assert_eq!(d.min_job_duration(), u64::MAX);
    assert_eq!(d.error_count(), 0);
}

#[test]
fn diagnostics_track_extremes() {
    let mut c = JobDiagnosticsContainer::new();
    let d = c.start_at(100).finish_at(&mut c, 130);
    assert_eq!((d.last_job_duration(), d.max_job_duration(), d.min_job_duration()), (30, 30, 30));
    let d = c.start_at(200).finish_at(&mut c, 210);
    assert_eq!((d.last_job_duration(), d.max_job_duration(), d.min_job_duration()), (10, 30, 10));
    let d = c.start_at(300).finish_at(&mut c, 350);
    assert_eq!((d.last_job_duration(), d.max_job_duration(), d.min_job_duration()), (50, 50, 10));
    // An end before the start counts as zero.
    let d = c.start_at(500).finish_at(&mut c, 400);
    assert_eq!((d.last_job_duration(), d.min_job_duration()), (0, 0));
    assert_eq!(d.error_count(), 0);
}

#[test]
fn diagnostics_count_failures() {
    let mut c = JobDiagnosticsContainer::new();
    c.start_at(1).fail(&mut c);
    c.start_at(2).fail(&mut c);
    let d = c.copy_inner();
    assert_eq!(d.error_count(), 2);
    assert_eq!(d.min_job_duration(), u64::MAX);
    c.update_with_successful_run_at(10, 15);
    assert_eq!(c.copy_inner().last_job_duration(), 5);
    assert_eq!(c.copy_inner().error_count(), 2);
}

#[test]
fn diagnostics_with_clock() {
    let mut c = JobDiagnosticsContainer::new();
    let run = c.start();
    let d = run.finish(&mut c);
    assert!(d.min_job_duration() <= d.last_job_duration());
    assert!(d.last_job_duration() <= d.max_job_duration());
}

#[test]
fn cache_keeps_old_reading_on_failure() {
    let mut cache: RegisterCache<u32> = RegisterCache::new();
    assert_eq!(*cache.data().data(), None);
    assert_eq!(cache.data().last_successful_read(), None);
    assert_eq!(cache.update_at::<&str>(Ok(7), 100), Ok(()));
    assert_eq!(*cache.data().data(), Some(7));
    assert_eq!(cache.data().last_successful_read(), Some(100));
    assert_eq!(cache.update_at(Err("pec"), 200), Err(UpdateError::ReadFailed("pec")));
    assert_eq!(*cache.data().data(), Some(7));
    assert_eq!(cache.data().last_successful_read(), Some(100));
    assert_eq!(cache.update::<&str>(Ok(9)), Ok(()));
    assert_eq!(*cache.data().data(), Some(9));
    assert!(cache.data().last_successful_read().is_some());
}

#[test]
fn startup_runs_until_it_succeeds() {
    let mut g = StartupGate::new();
    assert!(g.needs_startup());
    g.record_startup::<()>(&Err(()));
    assert!(g.needs_startup());
    g.record_startup::<()>(&Ok(()));
    assert!(!g.needs_startup());
    g.record_startup::<()>(&Err(()));
    assert!(!g.needs_startup());
}

#[test]
fn fresh_data_only_when_all_jobs_succeed() {
    let mut c = CycleOutcome::new();
    c.record_job::<()>(&Ok(()));
    c.record_job::<()>(&Ok(()));
    assert!(c.fresh_data());
    c.record_job::<()>(&Err(()));
    c.record_job::<()>(&Ok(()));
    assert!(!c.fresh_data());
}

#[test]
fn segment_plans() {
    let p = |enabled: bool, ops: &[OpShape]| plan_segment_transaction::<()>(enabled, ops);
    assert_eq!(p(false, &[]), Err(HilError::DisabledLine));
    assert_eq!(p(true, &[]), Ok(SegmentPlan::Nothing));
    assert_eq!(p(true, &[OpShape::DelayNs]), Ok(SegmentPlan::Nothing));
    assert_eq!(p(true, &[OpShape::Write(4), OpShape::Read(8)]), Ok(SegmentPlan::CommandThenRead));
    assert_eq!(p(true, &[OpShape::Write(5), OpShape::Read(8)]), Err(HilError::UnsupportedTransaction));
    assert_eq!(p(true, &[OpShape::Write(4)]), Ok(SegmentPlan::Write));
    assert_eq!(p(true, &[OpShape::Write(4), OpShape::Write(6)]), Ok(SegmentPlan::WriteThenWrite));
    assert_eq!(p(true, &[OpShape::Transfer]), Err(HilError::UnsupportedTransaction));
    assert_eq!(p(true, &[OpShape::DelayNs, OpShape::DelayNs]), Err(HilError::UnsupportedTransaction));
}

#[test]
fn hv_plate_plans() {
    let p = |enabled: bool, ops: &[OpShape]| plan_hv_plate_transaction::<()>(enabled, ops);
    assert_eq!(p(false, &[OpShape::Write(4), OpShape::Read(8)]), Err(HilError::DisabledLine));
    assert_eq!(p(true, &[]), Ok(HvPlatePlan::Nothing));
    assert_eq!(p(true, &[OpShape::Write(4)]), Ok(HvPlatePlan::Nothing));
    assert_eq!(p(true, &[OpShape::Write(4), OpShape::Write(6)]), Ok(HvPlatePlan::Nothing));
    assert_eq!(p(true, &[OpShape::Write(4), OpShape::Read(8)]), Ok(HvPlatePlan::ReadWithRetries));
    assert_eq!(p(true, &[OpShape::Read(8)]), Err(HilError::UnsupportedTransaction));
}

#[test]
fn exchange_results() {
    assert_eq!(finish_exchange::<u8>(TimedOutcome::TimedOut), Err(HilError::Timeout));
    assert_eq!(finish_exchange::<u8>(TimedOutcome::Completed(Ok(()))), Ok(()));
    assert_eq!(finish_exchange::<u8>(TimedOutcome::Completed(Err(3))), Err(HilError::Uart(3)));
}

#[test]
fn read_retries() {
    assert_eq!(after_read_attempt::<u8>(0, TimedOutcome::TimedOut), RetryStep::Retry);
    assert_eq!(after_read_attempt::<u8>(1, TimedOutcome::TimedOut), RetryStep::Retry);
    assert_eq!(after_read_attempt::<u8>(2, TimedOutcome::TimedOut), RetryStep::Return(Err(HilError::Timeout)));
    assert_eq!(after_read_attempt::<u8>(1, TimedOutcome::Completed(Err(7))), RetryStep::Return(Err(HilError::Uart(7))));
    assert_eq!(after_read_attempt::<u8>(2, TimedOutcome::Completed(Ok(()))), RetryStep::Return(Ok(())));
}
