use ner_firmware::shepherd::faults::{
    are_critical_faults_active, get_all_faults, get_fault, try_queue, EvaluationResult, FaultFlags, FaultId,
    FaultManager, FaultQueue, FaultSeverity, FaultState, FaultTimer, IndexByFaultId, CRITICAL_MASK, FAULT_COUNT,
};

const ALL: [FaultId; 10] = [
    FaultId::DischargeLimitEnforcementFault,
    FaultId::ChargeLimitEnforcement,
    FaultId::CellVoltageTooLow,
    FaultId::CellVoltageTooHigh,
    FaultId::CellChargeVoltageTooHigh,
    FaultId::PackTooHot,
    FaultId::DieTempMaximumFault,
    FaultId::HvPlateCommsFault,
    FaultId::SegmentCommsFault,
    FaultId::CellOpenWireFault,
];

#[test]
fn indices_follow_declaration_order() {
    for (i, f) in ALL.iter().enumerate() {
        assert_eq!(f.index(), i);
        assert_eq!(FaultId::variant(i), *f);
    }
    assert_eq!(FAULT_COUNT, 10);
}

#[test]
fn only_segment_comms_is_non_critical() {
    for f in ALL {
        assert_eq!(f.is_critical(), f != FaultId::SegmentCommsFault);
        assert_eq!(f.config().severity() == FaultSeverity::NonCritical, f == FaultId::SegmentCommsFault);
    }
}

#[test]
fn critical_mask_matches_severities() {
    let mut mask = 0u32;
    for (i, f) in ALL.iter().enumerate() {
        if f.is_critical() {
            mask |= 1 << i;
        }
    }
    assert_eq!(mask, CRITICAL_MASK);
    assert_eq!(CRITICAL_MASK, 0x2FF);
}

#[test]
fn timeouts_in_ticks() {
    assert_eq!(FaultId::PackTooHot.config().timeout(), 55_000_000);
    assert_eq!(FaultId::HvPlateCommsFault.config().timeout(), 20_000_000);
    assert_eq!(FaultId::SegmentCommsFault.config().timeout(), 20_000_000);
    assert_eq!(FaultId::CellOpenWireFault.config().timeout(), 40_000_000);
}

#[test]
fn index_by_fault_id_get_set() {
    let mut idx = IndexByFaultId::new([0u32, 1, 2, 3, 4, 5, 6, 7, 8, 9]);
    assert_eq!(*idx.get(FaultId::PackTooHot), 5);
    assert_eq!(*idx.fault(FaultId::CellOpenWireFault), 9);
    idx.set(FaultId::PackTooHot, 50);
    assert_eq!(*idx.get(FaultId::PackTooHot), 50);
    *idx.get_mut(FaultId::CellVoltageTooLow) += 20;
    assert_eq!(*idx.get(FaultId::CellVoltageTooLow), 22);
    assert_eq!(idx.into_array(), [0, 1, 22, 3, 4, 50, 6, 7, 8, 9]);
}

#[test]
fn index_by_fault_id_from_fn_and_iter() {
    let idx = IndexByFaultId::from_fn(|f: FaultId| f.index() * 10);
    let items = idx.iter();
    assert_eq!(items.len(), 10);
    for (i, (f, v)) in items.into_iter().enumerate() {
        assert_eq!(f, ALL[i]);
        assert_eq!(*v, i * 10);
    }
}

#[test]
fn flags_set_and_clear() {
    let mut flags = FaultFlags::new();
    for f in ALL {
        assert!(!flags.is_set(f));
    }
    flags.set_fault(FaultId::PackTooHot);
    flags.set_fault(FaultId::SegmentCommsFault);
    assert!(flags.is_set(FaultId::PackTooHot));
    assert!(flags.is_set(FaultId::SegmentCommsFault));
    assert!(!flags.is_set(FaultId::CellVoltageTooLow));
    flags.clear_fault(FaultId::PackTooHot);
    assert!(!flags.is_set(FaultId::PackTooHot));
    assert!(flags.is_set(FaultId::SegmentCommsFault));
    let all = flags.get_all();
    for f in ALL {
        assert_eq!(*all.get(f), f == FaultId::SegmentCommsFault);
    }
}

#[test]
fn non_critical_fault_is_not_critical_activity() {
    let mut flags = FaultFlags::new();
    assert!(!flags.are_critical_faults_active());
    flags.set_fault(FaultId::SegmentCommsFault);
    assert!(!flags.are_critical_faults_active());
    assert!(!are_critical_faults_active(&flags));
    flags.set_fault(FaultId::CellOpenWireFault);
    assert!(flags.are_critical_faults_active());
    assert!(are_critical_faults_active(&flags));
}

#[test]
fn fault_states() {
    let mut flags = FaultFlags::new();
    flags.set_fault(FaultId::DieTempMaximumFault);
    assert_eq!(get_fault(&flags, FaultId::DieTempMaximumFault), FaultState::Active);
    assert!(get_fault(&flags, FaultId::DieTempMaximumFault).is_active());
    assert_eq!(get_fault(&flags, FaultId::PackTooHot), FaultState::Inactive);
    let all = get_all_faults(&flags);
    for f in ALL {
        assert_eq!(all.get(f).is_active(), f == FaultId::DieTempMaximumFault);
    }
    assert_eq!(FaultState::from_bool(true), FaultState::Active);
    assert_eq!(FaultState::from_bool(false), FaultState::Inactive);
}

#[test]
fn queue_refuses_when_full() {
    let mut q = FaultQueue::new();
    for _ in 0..10 {
        assert_eq!(try_queue(&mut q, FaultId::PackTooHot), Ok(()));
    }
    assert_eq!(try_queue(&mut q, FaultId::PackTooHot), Err(()));
}

#[test]
fn timer_evaluation() {
    let mut t = FaultTimer::new();
    assert_eq!(t.evaluate(100), EvaluationResult::Inactive);
    t.restart_at(100, 50);
    assert_eq!(t.evaluate(120), EvaluationResult::Active { deadline: 150 });
    assert_eq!(t.evaluate(150), EvaluationResult::Expired);
    assert_eq!(t.evaluate(200), EvaluationResult::Expired);
    t.restart_at(u64::MAX - 1, 10);
    assert_eq!(t.evaluate(u64::MAX - 1), EvaluationResult::Active { deadline: u64::MAX });
    t.set_inactive();
    assert_eq!(t.evaluate(0), EvaluationResult::Inactive);
    t.restart(5);
    assert!(matches!(t.evaluate(0), EvaluationResult::Active { .. }));
}

#[test]
fn manager_triggers_and_expires() {
    let mut m = FaultManager::new();
    let mut flags = FaultFlags::new();
    m.trigger_fault_at(&mut flags, FaultId::HvPlateCommsFault, 1_000);
    m.trigger_fault_at(&mut flags, FaultId::PackTooHot, 2_000);
    assert!(flags.is_set(FaultId::HvPlateCommsFault));
    assert!(flags.is_set(FaultId::PackTooHot));
    // Nothing has expired yet; the soonest deadline is the comms fault's.
    let soonest = m.expire_timers(&mut flags, 5_000);
    assert_eq!(soonest, Some(1_000 + 20_000_000));
    assert!(flags.is_set(FaultId::HvPlateCommsFault));
    // The comms fault expires first.
    let soonest = m.expire_timers(&mut flags, 1_000 + 20_000_000);
    assert!(!flags.is_set(FaultId::HvPlateCommsFault));
    assert!(flags.is_set(FaultId::PackTooHot));
    assert_eq!(soonest, Some(2_000 + 55_000_000));
    // Then the other one.
    let soonest = m.expire_timers(&mut flags, 60_000_000);
    assert_eq!(soonest, None);
    assert!(!flags.is_set(FaultId::PackTooHot));
}

#[test]
fn retriggering_extends_the_deadline() {
    let mut m = FaultManager::new();
    let mut flags = FaultFlags::new();
    m.trigger_fault_at(&mut flags, FaultId::SegmentCommsFault, 0);
    m.trigger_fault_at(&mut flags, FaultId::SegmentCommsFault, 10_000_000);
    assert_eq!(m.expire_timers(&mut flags, 20_000_000), Some(30_000_000));
    assert!(flags.is_set(FaultId::SegmentCommsFault));
}

#[test]
fn drain_queue_triggers_queued_faults() {
    let mut m = FaultManager::new();
    let mut flags = FaultFlags::new();
    let mut q = FaultQueue::new();
    try_queue(&mut q, FaultId::CellVoltageTooLow).unwrap();
    try_queue(&mut q, FaultId::CellOpenWireFault).unwrap();
    m.drain_queue(&mut flags, &mut q);
    assert!(flags.is_set(FaultId::CellVoltageTooLow));
    assert!(flags.is_set(FaultId::CellOpenWireFault));
    assert!(!flags.is_set(FaultId::PackTooHot));
    assert!(flags.are_critical_faults_active());
    // The queue is empty again: it takes ten more.
    for _ in 0..10 {
        assert_eq!(try_queue(&mut q, FaultId::PackTooHot), Ok(()));
    }
    // A timer expiring far in the future clears both.
    assert_eq!(m.expire_timers(&mut flags, u64::MAX), None);
    assert!(!flags.are_critical_faults_active());
}

#[test]
fn index_by_fault_id_iter_mut() {
    let mut idx = IndexByFaultId::new([0u32; 10]);
    for (f, v) in idx.iter_mut() {
        *v = f.index() as u32 + 1;
    }
    assert_eq!(idx.into_array(), [1, 2, 3, 4, 5, 6, 7, 8, 9, 10]);
}

#[test]
fn service_triggers_and_reports_soonest() {
    let mut m = FaultManager::new();
    let mut flags = FaultFlags::new();
    let mut q = FaultQueue::new();
    assert_eq!(m.service(&mut flags, &mut q), None);
    try_queue(&mut q, FaultId::HvPlateCommsFault).unwrap();
    try_queue(&mut q, FaultId::PackTooHot).unwrap();
    let soonest = m.service(&mut flags, &mut q).expect("a timer runs");
    assert!(flags.is_set(FaultId::HvPlateCommsFault));
    assert!(flags.is_set(FaultId::PackTooHot));
    // The comms fault has the shorter timeout, so it is the soonest and expires first.
    assert!(soonest >= 20_000_000);
    m.expire_timers(&mut flags, soonest);
    assert!(!flags.is_set(FaultId::HvPlateCommsFault));
    assert!(flags.is_set(FaultId::PackTooHot));
}

#[test]
fn service_flags_only_queued_faults() {
    let mut m = FaultManager::new();
    let mut flags = FaultFlags::new();
    let mut q = FaultQueue::new();
    try_queue(&mut q, FaultId::SegmentCommsFault).unwrap();
    m.service(&mut flags, &mut q);
    for f in ALL {
        assert_eq!(flags.is_set(f), f == FaultId::SegmentCommsFault);
    }
    assert!(!flags.are_critical_faults_active());
}

#[test]
fn never_queued_fault_stays_clear_over_passes() {
    let mut m = FaultManager::new();
    let mut flags = FaultFlags::new();
    let mut q = FaultQueue::new();
    let queued = [FaultId::PackTooHot, FaultId::SegmentCommsFault, FaultId::CellVoltageTooLow];
    for f in queued {
        try_queue(&mut q, f).unwrap();
        m.service(&mut flags, &mut q);
        m.service(&mut flags, &mut q);
        assert!(!flags.is_set(FaultId::CellVoltageTooHigh));
        assert_eq!(get_fault(&flags, FaultId::CellVoltageTooHigh), FaultState::Inactive);
    }
    for f in queued {
        assert!(flags.is_set(f));
    }
}
