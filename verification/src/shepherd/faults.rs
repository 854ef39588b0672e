//! BMS faults: the fault ids and their configuration, the fault flags, the fault queue, the
//! per-fault expiry timers and the fault manager that ties them together.
//!
//! A fault is raised by putting its id on the fault queue. The manager drains the queue, sets
//! the fault's flag and (re)starts its timer with the fault's configured timeout. When a timer
//! expires, the flag is cleared again.

use vstd::prelude::*;
use embassy_sync::blocking_mutex::raw::NoopRawMutex;
use embassy_sync::channel::Channel;

use crate::clock::{millis_to_ticks, now_ticks, TICKS_PER_MILLI};

verus! {

/// Number of fault ids.
pub const FAULT_COUNT: usize = 10;

/// Capacity of the fault queue.
pub const FAULT_QUEUE_CAPACITY: usize = 10;

/// How severe a fault is.
#[derive(Clone, Copy, PartialEq, Eq, Structural, Debug)]
pub enum FaultSeverity {
    Critical,
    NonCritical,
}

impl FaultSeverity {
    /// Returns `true` for `FaultSeverity::Critical`.
    pub fn is_critical(&self) -> (r: bool)
        ensures
            r == (*self == FaultSeverity::Critical),
    {
        match self {
            FaultSeverity::Critical => true,
            FaultSeverity::NonCritical => false,
        }
    }

    /// Returns `true` for `FaultSeverity::NonCritical`.
    pub fn is_non_critical(&self) -> (r: bool)
        ensures
            r == (*self == FaultSeverity::NonCritical),
    {
        match self {
            FaultSeverity::Critical => false,
            FaultSeverity::NonCritical => true,
        }
    }
}

/// Configuration of a fault: how long it stays active and how severe it is.
#[derive(Clone, Copy, PartialEq, Eq, Structural, Debug)]
pub struct FaultConfig {
    timeout_ms: u64,
    severity: FaultSeverity,
}

impl FaultConfig {
    /// The timeout, in milliseconds.
    pub closed spec fn spec_timeout_ms(self) -> u64 {
        self.timeout_ms
    }

    /// The severity.
    pub closed spec fn spec_severity(self) -> FaultSeverity {
        self.severity
    }

    /// How long a fault should stay active before expiring, in ticks.
    pub fn timeout(&self) -> (t: u64)
        requires
            self.spec_timeout_ms() * TICKS_PER_MILLI <= u64::MAX,
        ensures
            t == self.spec_timeout_ms() * TICKS_PER_MILLI,
    {
        millis_to_ticks(self.timeout_ms)
    }

    /// The severity of a fault.
    pub fn severity(&self) -> (s: FaultSeverity)
        ensures
            s == self.spec_severity(),
    {
        self.severity
    }
}

/// The faults the BMS knows about.
#[derive(Clone, Copy, PartialEq, Eq, Structural, Debug)]
pub enum FaultId {
    DischargeLimitEnforcementFault,
    ChargeLimitEnforcement,
    CellVoltageTooLow,
    CellVoltageTooHigh,
    CellChargeVoltageTooHigh,
    PackTooHot,
    DieTempMaximumFault,
    HvPlateCommsFault,
    SegmentCommsFault,
    CellOpenWireFault,
}

impl FaultId {
    /// Position of this fault in declaration order, `0..FAULT_COUNT`.
    pub open spec fn spec_index(self) -> int {
        match self {
            FaultId::DischargeLimitEnforcementFault => 0,
            FaultId::ChargeLimitEnforcement => 1,
            FaultId::CellVoltageTooLow => 2,
            FaultId::CellVoltageTooHigh => 3,
            FaultId::CellChargeVoltageTooHigh => 4,
            FaultId::PackTooHot => 5,
            FaultId::DieTempMaximumFault => 6,
            FaultId::HvPlateCommsFault => 7,
            FaultId::SegmentCommsFault => 8,
            FaultId::CellOpenWireFault => 9,
        }
    }

    /// The fault at position `i` in declaration order.
    pub open spec fn spec_variant(i: int) -> FaultId {
        if i <= 0 {
            FaultId::DischargeLimitEnforcementFault
        } else if i == 1 {
            FaultId::ChargeLimitEnforcement
        } else if i == 2 {
            FaultId::CellVoltageTooLow
        } else if i == 3 {
            FaultId::CellVoltageTooHigh
        } else if i == 4 {
            FaultId::CellChargeVoltageTooHigh
        } else if i == 5 {
            FaultId::PackTooHot
        } else if i == 6 {
            FaultId::DieTempMaximumFault
        } else if i == 7 {
            FaultId::HvPlateCommsFault
        } else if i == 8 {
            FaultId::SegmentCommsFault
        } else {
            FaultId::CellOpenWireFault
        }
    }

    /// The configured timeout of each fault, in milliseconds.
    pub open spec fn spec_timeout_ms(self) -> u64 {
        match self {
            FaultId::HvPlateCommsFault => 20_000,
            FaultId::SegmentCommsFault => 20_000,
            FaultId::CellOpenWireFault => 40_000,
            _ => 55_000,
        }
    }

    /// The configured severity of each fault: only `SegmentCommsFault` is non-critical.
    pub open spec fn spec_severity(self) -> FaultSeverity {
        match self {
            FaultId::SegmentCommsFault => FaultSeverity::NonCritical,
            _ => FaultSeverity::Critical,
        }
    }

    /// Whether this fault is configured as critical.
    pub open spec fn spec_is_critical(self) -> bool {
        self.spec_severity() == FaultSeverity::Critical
    }

    /// Position of this fault in declaration order.
    pub fn index(self) -> (i: usize)
        ensures
            i == self.spec_index(),
            i < FAULT_COUNT,
    {
        match self {
            FaultId::DischargeLimitEnforcementFault => 0,
            FaultId::ChargeLimitEnforcement => 1,
            FaultId::CellVoltageTooLow => 2,
            FaultId::CellVoltageTooHigh => 3,
            FaultId::CellChargeVoltageTooHigh => 4,
            FaultId::PackTooHot => 5,
            FaultId::DieTempMaximumFault => 6,
            FaultId::HvPlateCommsFault => 7,
            FaultId::SegmentCommsFault => 8,
            FaultId::CellOpenWireFault => 9,
        }
    }

    /// The fault at position `i` in declaration order.
    pub fn variant(i: usize) -> (f: FaultId)
        requires
            i < FAULT_COUNT,
        ensures
            f == FaultId::spec_variant(i as int),
            f.spec_index() == i,
    {
        if i == 0 {
            FaultId::DischargeLimitEnforcementFault
        } else if i == 1 {
            FaultId::ChargeLimitEnforcement
        } else if i == 2 {
            FaultId::CellVoltageTooLow
        } else if i == 3 {
            FaultId::CellVoltageTooHigh
        } else if i == 4 {
            FaultId::CellChargeVoltageTooHigh
        } else if i == 5 {
            FaultId::PackTooHot
        } else if i == 6 {
            FaultId::DieTempMaximumFault
        } else if i == 7 {
            FaultId::HvPlateCommsFault
        } else if i == 8 {
            FaultId::SegmentCommsFault
        } else {
            FaultId::CellOpenWireFault
        }
    }

    /// Returns this fault's configuration.
    pub fn config(self) -> (c: FaultConfig)
        ensures
            c.spec_timeout_ms() == self.spec_timeout_ms(),
            c.spec_severity() == self.spec_severity(),
    {
        match self {
            FaultId::DischargeLimitEnforcementFault => FaultConfig { timeout_ms: 55_000, severity: FaultSeverity::Critical },
            FaultId::ChargeLimitEnforcement => FaultConfig { timeout_ms: 55_000, severity: FaultSeverity::Critical },
            FaultId::CellVoltageTooLow => FaultConfig { timeout_ms: 55_000, severity: FaultSeverity::Critical },
            FaultId::CellVoltageTooHigh => FaultConfig { timeout_ms: 55_000, severity: FaultSeverity::Critical },
            FaultId::CellChargeVoltageTooHigh => FaultConfig { timeout_ms: 55_000, severity: FaultSeverity::Critical },
            FaultId::PackTooHot => FaultConfig { timeout_ms: 55_000, severity: FaultSeverity::Critical },
            FaultId::DieTempMaximumFault => FaultConfig { timeout_ms: 55_000, severity: FaultSeverity::Critical },
            FaultId::HvPlateCommsFault => FaultConfig { timeout_ms: 20_000, severity: FaultSeverity::Critical },
            FaultId::SegmentCommsFault => FaultConfig { timeout_ms: 20_000, severity: FaultSeverity::NonCritical },
            FaultId::CellOpenWireFault => FaultConfig { timeout_ms: 40_000, severity: FaultSeverity::Critical },
        }
    }

    /// Checks if this particular fault is configured to be critical or not.
    pub fn is_critical(&self) -> (r: bool)
        ensures
            r == self.spec_is_critical(),
    {
        self.config().severity().is_critical()
    }
}

/// Every fault id is the variant at its own index, and indices are distinct.
pub proof fn lemma_index_variant(f: FaultId)
    ensures
        0 <= f.spec_index() < FAULT_COUNT,
        FaultId::spec_variant(f.spec_index()) == f,
{
}

/// The bit of the flags word that holds a fault: `1 << index`.
pub open spec fn fault_bit(f: FaultId) -> u32 {
    match f {
        FaultId::DischargeLimitEnforcementFault => 0x1,
        FaultId::ChargeLimitEnforcement => 0x2,
        FaultId::CellVoltageTooLow => 0x4,
        FaultId::CellVoltageTooHigh => 0x8,
        FaultId::CellChargeVoltageTooHigh => 0x10,
        FaultId::PackTooHot => 0x20,
        FaultId::DieTempMaximumFault => 0x40,
        FaultId::HvPlateCommsFault => 0x80,
        FaultId::SegmentCommsFault => 0x100,
        FaultId::CellOpenWireFault => 0x200,
    }
}

/// Mask of all fault flags that are configured as critical: every fault but
/// `SegmentCommsFault` (bit 8).
pub const CRITICAL_MASK: u32 = 0x2FF;

/// `fault_bit(f)` is `1 << f.spec_index()`, and `CRITICAL_MASK` holds exactly the bits of the
/// critical faults.
pub proof fn lemma_fault_bit(f: FaultId)
    ensures
        fault_bit(f) == 1u32 << (f.spec_index() as u32),
        (CRITICAL_MASK & fault_bit(f) != 0) == f.spec_is_critical(),
{
    assert(1u32 << 0u32 == 0x1) by (bit_vector);
    assert(1u32 << 1u32 == 0x2) by (bit_vector);
    assert(1u32 << 2u32 == 0x4) by (bit_vector);
    assert(1u32 << 3u32 == 0x8) by (bit_vector);
    assert(1u32 << 4u32 == 0x10) by (bit_vector);
    assert(1u32 << 5u32 == 0x20) by (bit_vector);
    assert(1u32 << 6u32 == 0x40) by (bit_vector);
    assert(1u32 << 7u32 == 0x80) by (bit_vector);
    assert(1u32 << 8u32 == 0x100) by (bit_vector);
    assert(1u32 << 9u32 == 0x200) by (bit_vector);
    assert(0x2FFu32 & 0x1u32 != 0) by (bit_vector);
    assert(0x2FFu32 & 0x2u32 != 0) by (bit_vector);
    assert(0x2FFu32 & 0x4u32 != 0) by (bit_vector);
    assert(0x2FFu32 & 0x8u32 != 0) by (bit_vector);
    assert(0x2FFu32 & 0x10u32 != 0) by (bit_vector);
    assert(0x2FFu32 & 0x20u32 != 0) by (bit_vector);
    assert(0x2FFu32 & 0x40u32 != 0) by (bit_vector);
    assert(0x2FFu32 & 0x80u32 != 0) by (bit_vector);
    assert(0x2FFu32 & 0x100u32 == 0) by (bit_vector);
    assert(0x2FFu32 & 0x200u32 != 0) by (bit_vector);
}

/// Setting and clearing one fault bit leaves every other fault bit as it was.
proof fn lemma_bit_update(x: u32, f: FaultId, g: FaultId)
    ensures
        ((x | fault_bit(f)) & fault_bit(g) != 0) == ((x & fault_bit(g) != 0) || f == g),
        ((x & !fault_bit(f)) & fault_bit(g) != 0) == ((x & fault_bit(g) != 0) && f != g),
{
    lemma_fault_bit(f);
    lemma_fault_bit(g);
    let i = f.spec_index() as u32;
    let j = g.spec_index() as u32;
    assert(((x | (1u32 << i)) & (1u32 << j) != 0) == ((x & (1u32 << j) != 0) || i == j))
        by (bit_vector)
        requires
            i < 32,
            j < 32,
    ;
    assert(((x & !(1u32 << i)) & (1u32 << j) != 0) == ((x & (1u32 << j) != 0) && i != j))
        by (bit_vector)
        requires
            i < 32,
            j < 32,
    ;
}

/// Mutable references to every element of a slice, in order.
fn slice_refs<'a, T>(s: &'a mut [T]) -> (r: Vec<&'a mut T>)
    ensures
        r@.len() == old(s)@.len(),
        forall|i: int| 0 <= i < r@.len() ==> *(#[trigger] r@[i]) == old(s)@[i],
        final(s)@.len() == old(s)@.len(),
        forall|i: int| 0 <= i < r@.len() ==> final(s)@[i] == *final(#[trigger] r@[i]),
    decreases old(s)@.len(),
{
    if s.len() == 0 {
        Vec::new()
    } else {
        let (head, tail) = s.split_at_mut(1);
        let first = head.first_mut().unwrap();
        let mut rest = slice_refs(tail);
        rest.insert(0, first);
        rest
    }
}

/// Lets you index by fault id: one `T` per fault, in declaration order.
#[derive(Clone, Copy, Debug)]
pub struct IndexByFaultId<T> {
    data: [T; 10],
}

impl<T> IndexByFaultId<T> {
    /// The value held for `fault`.
    pub closed spec fn at(self, fault: FaultId) -> T {
        self.data@[fault.spec_index()]
    }

    /// Creates a new `IndexByFaultId` directly from an array, indexed by declaration order.
    pub fn new(data: [T; 10]) -> (r: Self)
        ensures
            forall|f: FaultId| #[trigger] r.at(f) == data@[f.spec_index()],
    {
        IndexByFaultId { data }
    }

    /// Retrieves the data for `fault`.
    pub fn get(&self, fault: FaultId) -> (r: &T)
        ensures
            *r == self.at(fault),
    {
        let i: usize = fault.index();
        &self.data[i]
    }

    /// Retrieves the data for `fault`. The same as `get`.
    pub fn fault(&self, fault: FaultId) -> (r: &T)
        ensures
            *r == self.at(fault),
    {
        self.get(fault)
    }

    /// Replaces the value held for `fault`.
    pub fn set(&mut self, fault: FaultId, value: T)
        ensures
            final(self).at(fault) == value,
            forall|g: FaultId| g != fault ==> #[trigger] final(self).at(g) == old(self).at(g),
    {
        let i: usize = fault.index();
        self.data[i] = value;
    }

    /// A mutable reference to the value held for `fault`.
    pub fn get_mut(&mut self, fault: FaultId) -> (r: &mut T)
        ensures
            *r == old(self).at(fault),
            final(self).at(fault) == *final(r),
            forall|g: FaultId| g != fault ==> #[trigger] final(self).at(g) == old(self).at(g),
    {
        let i: usize = fault.index();
        &mut self.data[i]
    }

    /// Builds the index by calling `f` on every fault id, in declaration order.
    pub fn from_fn<F: Fn(FaultId) -> T>(f: F) -> (r: Self)
        requires
            forall|g: FaultId| #[trigger] f.requires((g,)),
        ensures
            forall|g: FaultId| #[trigger] f.ensures((g,), r.at(g)),
    {
        let data: [T; 10] = [
            f(FaultId::DischargeLimitEnforcementFault),
            f(FaultId::ChargeLimitEnforcement),
            f(FaultId::CellVoltageTooLow),
            f(FaultId::CellVoltageTooHigh),
            f(FaultId::CellChargeVoltageTooHigh),
            f(FaultId::PackTooHot),
            f(FaultId::DieTempMaximumFault),
            f(FaultId::HvPlateCommsFault),
            f(FaultId::SegmentCommsFault),
            f(FaultId::CellOpenWireFault),
        ];
        IndexByFaultId { data }
    }

    /// Every fault id paired with its value, in declaration order.
    pub fn iter(&self) -> (r: Vec<(FaultId, &T)>)
        ensures
            r@.len() == FAULT_COUNT,
            forall|i: int| 0 <= i < FAULT_COUNT ==> (#[trigger] r@[i]).0 == FaultId::spec_variant(i),
            forall|i: int| 0 <= i < FAULT_COUNT ==> *(#[trigger] r@[i]).1 == self.at(FaultId::spec_variant(i)),
    {
        let mut out: Vec<(FaultId, &T)> = Vec::new();
        let mut i: usize = 0;
        while i < FAULT_COUNT
            invariant
                i <= FAULT_COUNT,
                out@.len() == i,
                forall|k: int| 0 <= k < i ==> (#[trigger] out@[k]).0 == FaultId::spec_variant(k),
                forall|k: int| 0 <= k < i ==> *(#[trigger] out@[k]).1 == self.at(FaultId::spec_variant(k)),
            decreases FAULT_COUNT - i,
        {
            let f = FaultId::variant(i);
            out.push((f, &self.data[i]));
            i = i + 1;
        }
        out
    }

    /// Every fault id paired with a mutable reference to its value, in declaration order.
    pub fn iter_mut(&mut self) -> (r: Vec<(FaultId, &mut T)>)
        ensures
            r@.len() == FAULT_COUNT,
            forall|i: int| 0 <= i < FAULT_COUNT ==> (#[trigger] r@[i]).0 == FaultId::spec_variant(i),
            forall|i: int| 0 <= i < FAULT_COUNT ==> *(#[trigger] r@[i]).1 == old(self).at(FaultId::spec_variant(i)),
            forall|i: int| 0 <= i < FAULT_COUNT ==> final(self).at(FaultId::spec_variant(i)) == *final((#[trigger] r@[i]).1),
    {
        let ghost start = self.data@;
        let s: &mut [T] = &mut self.data;
        let ghost fin = final(s)@;
        let mut refs = slice_refs(s);
        let mut out: Vec<(FaultId, &mut T)> = Vec::new();
        let mut i: usize = 0;
        while i < FAULT_COUNT
            invariant
                i <= FAULT_COUNT,
                out@.len() == i,
                refs@.len() == FAULT_COUNT - i,
                forall|k: int| 0 <= k < i ==> (#[trigger] out@[k]).0 == FaultId::spec_variant(k),
                forall|k: int| 0 <= k < i ==> *(#[trigger] out@[k]).1 == start[k],
                forall|k: int| 0 <= k < i ==> fin[k] == *final((#[trigger] out@[k]).1),
                forall|k: int| 0 <= k < FAULT_COUNT - i ==> *(#[trigger] refs@[k]) == start[k + i],
                forall|k: int| 0 <= k < FAULT_COUNT - i ==> fin[k + i] == *final(#[trigger] refs@[k]),
            decreases FAULT_COUNT - i,
        {
            let x = refs.remove(0);
            out.push((FaultId::variant(i), x));
            i = i + 1;
        }
        out
    }

    /// Converts this back into its inner array.
    pub fn into_array(self) -> (r: [T; 10])
        ensures
            forall|f: FaultId| #[trigger] self.at(f) == r@[f.spec_index()],
    {
        self.data
    }
}

/// The fault flags: one bit per fault, bit `i` for the fault at index `i`.
pub struct FaultFlags {
    flags: u32,
}

impl View for FaultFlags {
    type V = Set<FaultId>;

    /// The set of faults whose flag is set.
    closed spec fn view(&self) -> Set<FaultId> {
        Set::new(|f: FaultId| self.flags & fault_bit(f) != 0)
    }
}

impl FaultFlags {
    /// Creates new fault flags, where all flags are unset.
    pub fn new() -> (r: Self)
        ensures
            r@ == Set::<FaultId>::empty(),
    {
        let r = FaultFlags { flags: 0 };
        assert forall|f: FaultId| !r@.contains(f) by {
            assert(0u32 & fault_bit(f) == 0) by (bit_vector);
        }
        assert(r@ =~= Set::<FaultId>::empty());
        r
    }

    fn bit(fault: FaultId) -> (b: u32)
        ensures
            b == fault_bit(fault),
    {
        proof {
            lemma_fault_bit(fault);
        }
        1u32 << (fault.index() as u32)
    }

    /// Gets the status of all faults.
    pub fn get_all(&self) -> (r: IndexByFaultId<bool>)
        ensures
            forall|f: FaultId| #[trigger] r.at(f) == self@.contains(f),
    {
        let flags = self.flags;
        let bit_is_set = |fault: FaultId| -> (b: bool)
            ensures
                b == (flags & fault_bit(fault) != 0),
            { flags & FaultFlags::bit(fault) != 0 };
        let r = IndexByFaultId::from_fn(bit_is_set);
        assert forall|f: FaultId| #[trigger] r.at(f) == self@.contains(f) by {
            assert(bit_is_set.ensures((f,), r.at(f)));
        }
        r
    }

    /// Checks whether or not a particular fault flag is set.
    pub fn is_set(&self, fault: FaultId) -> (r: bool)
        ensures
            r == self@.contains(fault),
    {
        self.flags & FaultFlags::bit(fault) != 0
    }

    /// Sets the flag for a fault.
    pub fn set_fault(&mut self, fault: FaultId)
        ensures
            final(self)@ == old(self)@.insert(fault),
    {
        let ghost x = self.flags;
        self.flags = self.flags | FaultFlags::bit(fault);
        proof {
            assert forall|g: FaultId| #[trigger] self@.contains(g) == old(self)@.insert(fault).contains(g) by {
                lemma_bit_update(x, fault, g);
            }
            assert(self@ =~= old(self)@.insert(fault));
        }
    }

    /// Clears the flag for a fault.
    pub fn clear_fault(&mut self, fault: FaultId)
        ensures
            final(self)@ == old(self)@.remove(fault),
    {
        let ghost x = self.flags;
        self.flags = self.flags & !FaultFlags::bit(fault);
        proof {
            assert forall|g: FaultId| #[trigger] self@.contains(g) == old(self)@.remove(fault).contains(g) by {
                lemma_bit_update(x, fault, g);
            }
            assert(self@ =~= old(self)@.remove(fault));
        }
    }

    /// Checks if any critical faults are currently active.
    pub fn are_critical_faults_active(&self) -> (r: bool)
        ensures
            r == exists|f: FaultId| #[trigger] self@.contains(f) && f.spec_is_critical(),
    {
        let x = self.flags;
        let r = x & CRITICAL_MASK != 0;
        proof {
            assert((x & 0x2FFu32 != 0) == (x & 0x1u32 != 0 || x & 0x2u32 != 0 || x & 0x4u32 != 0
                || x & 0x8u32 != 0 || x & 0x10u32 != 0 || x & 0x20u32 != 0 || x & 0x40u32 != 0
                || x & 0x80u32 != 0 || x & 0x200u32 != 0)) by (bit_vector);
            if r {
                if x & 0x1u32 != 0 {
                    assert(self@.contains(FaultId::DischargeLimitEnforcementFault));
                } else if x & 0x2u32 != 0 {
                    assert(self@.contains(FaultId::ChargeLimitEnforcement));
                } else if x & 0x4u32 != 0 {
                    assert(self@.contains(FaultId::CellVoltageTooLow));
                } else if x & 0x8u32 != 0 {
                    assert(self@.contains(FaultId::CellVoltageTooHigh));
                } else if x & 0x10u32 != 0 {
                    assert(self@.contains(FaultId::CellChargeVoltageTooHigh));
                } else if x & 0x20u32 != 0 {
                    assert(self@.contains(FaultId::PackTooHot));
                } else if x & 0x40u32 != 0 {
                    assert(self@.contains(FaultId::DieTempMaximumFault));
                } else if x & 0x80u32 != 0 {
                    assert(self@.contains(FaultId::HvPlateCommsFault));
                } else {
                    assert(self@.contains(FaultId::CellOpenWireFault));
                }
            } else {
                assert forall|f: FaultId| #[trigger] self@.contains(f) implies !f.spec_is_critical() by {
                    lemma_fault_bit(f);
                    assert(x & fault_bit(f) != 0);
                }
            }
        }
        r
    }
}

/// The state of one fault, as reported to the rest of the firmware.
#[derive(Clone, Copy, PartialEq, Eq, Structural, Debug)]
pub enum FaultState {
    /// This fault is not currently active.
    Inactive,
    /// This fault is currently active.
    Active,
}

impl FaultState {
    /// The state that a fault flag value stands for.
    pub open spec fn spec_from_bool(flag: bool) -> FaultState {
        if flag { FaultState::Active } else { FaultState::Inactive }
    }

    /// Returns `true` if this is `FaultState::Active`.
    pub fn is_active(&self) -> (r: bool)
        ensures
            r == (*self == FaultState::Active),
    {
        match self {
            FaultState::Active => true,
            FaultState::Inactive => false,
        }
    }

    /// Creates a `FaultState` from a fault flag.
    pub fn from_bool(flag: bool) -> (s: FaultState)
        ensures
            s == FaultState::spec_from_bool(flag),
    {
        if flag { FaultState::Active } else { FaultState::Inactive }
    }
}

/// Gets the state of a particular fault.
pub fn get_fault(flags: &FaultFlags, fault: FaultId) -> (s: FaultState)
    ensures
        s == FaultState::spec_from_bool(flags@.contains(fault)),
{
    FaultState::from_bool(flags.is_set(fault))
}

/// Gets the state of all faults.
pub fn get_all_faults(flags: &FaultFlags) -> (r: IndexByFaultId<FaultState>)
    ensures
        forall|f: FaultId| #[trigger] r.at(f) == FaultState::spec_from_bool(flags@.contains(f)),
{
    let faults = flags.get_all();
    let state_of = |fault: FaultId| -> (s: FaultState)
        ensures
            s == FaultState::spec_from_bool(faults.at(fault)),
        { FaultState::from_bool(*faults.fault(fault)) };
    let r = IndexByFaultId::from_fn(state_of);
    assert forall|f: FaultId| #[trigger] r.at(f) == FaultState::spec_from_bool(flags@.contains(f)) by {
        assert(state_of.ensures((f,), r.at(f)));
    }
    r
}

/// Checks if any critical faults are currently active.
pub fn are_critical_faults_active(flags: &FaultFlags) -> (r: bool)
    ensures
        r == exists|f: FaultId| #[trigger] flags@.contains(f) && f.spec_is_critical(),
{
    flags.are_critical_faults_active()
}

/// The fault queue: an `embassy_sync` channel of fault ids with capacity
/// `FAULT_QUEUE_CAPACITY`, first in first out.
#[verifier::external_body]
pub struct FaultQueue {
    chan: Channel<NoopRawMutex, FaultId, 10>,
}

/// The fault ids waiting in the queue, oldest first.
pub uninterp spec fn fault_queue_contents(q: FaultQueue) -> Seq<FaultId>;

impl FaultQueue {
    /// Calls `embassy_sync::channel::Channel::new`, which starts with nothing buffered.
    #[verifier::external_body]
    fn empty() -> (q: FaultQueue)
        ensures
            fault_queue_contents(q) == Seq::<FaultId>::empty(),
    {
        FaultQueue { chan: Channel::new() }
    }

    /// A new, empty fault queue.
    pub fn new() -> (q: FaultQueue)
        ensures
            fault_queue_contents(q) == Seq::<FaultId>::empty(),
    {
        FaultQueue::empty()
    }

    /// Calls `embassy_sync::channel::Channel::try_send`: the fault is appended when fewer than
    /// the capacity are buffered, and refused (the queue unchanged) otherwise.
    #[verifier::external_body]
    fn try_send(&mut self, fault: FaultId) -> (r: Result<(), ()>)
        ensures
            fault_queue_contents(*old(self)).len() < FAULT_QUEUE_CAPACITY ==> r is Ok
                && fault_queue_contents(*final(self)) == fault_queue_contents(*old(self)).push(fault),
            fault_queue_contents(*old(self)).len() >= FAULT_QUEUE_CAPACITY ==> r is Err
                && fault_queue_contents(*final(self)) == fault_queue_contents(*old(self)),
            fault_queue_contents(*final(self)).len() <= FAULT_QUEUE_CAPACITY,
    {
        match self.chan.try_send(fault) {
            Ok(()) => Ok(()),
            Err(_) => Err(()),
        }
    }

    /// Calls `embassy_sync::channel::Channel::try_receive`: the oldest fault is removed and
    /// returned, or `None` when nothing is buffered.
    #[verifier::external_body]
    fn try_receive(&mut self) -> (r: Option<FaultId>)
        ensures
            fault_queue_contents(*old(self)).len() == 0 ==> r is None
                && fault_queue_contents(*final(self)) == fault_queue_contents(*old(self)),
            fault_queue_contents(*old(self)).len() > 0 ==> r == Some(fault_queue_contents(*old(self))[0])
                && fault_queue_contents(*final(self)) == fault_queue_contents(*old(self)).drop_first(),
    {
        match self.chan.try_receive() {
            Ok(fault) => Some(fault),
            Err(_) => None,
        }
    }
}

/// Tries to add a fault to the fault queue.
///
/// Fails, leaving the queue unchanged, exactly when the queue is already full.
pub fn try_queue(queue: &mut FaultQueue, fault: FaultId) -> (r: Result<(), ()>)
    ensures
        r is Ok <==> fault_queue_contents(*old(queue)).len() < FAULT_QUEUE_CAPACITY,
        r is Ok ==> fault_queue_contents(*final(queue)) == fault_queue_contents(*old(queue)).push(fault),
        r is Err ==> fault_queue_contents(*final(queue)) == fault_queue_contents(*old(queue)),
{
    queue.try_send(fault)
}

/// Activation state of a fault timer.
#[derive(Clone, Copy, PartialEq, Eq, Structural, Debug)]
enum FaultTimerState {
    Inactive,
    Active { deadline: u64 },
}

/// What a timer evaluates to at a given instant.
#[derive(Clone, Copy, PartialEq, Eq, Structural, Debug)]
pub enum EvaluationResult {
    /// Timer has expired.
    Expired,
    /// Timer is not active.
    Inactive,
    /// Timer is counting down and has not expired yet; `deadline` is when it will.
    Active { deadline: u64 },
}

/// `a + b`, saturating at `u64::MAX`, as `embassy_time::Instant::saturating_add` computes it.
pub open spec fn saturating_add(a: u64, b: u64) -> u64 {
    if a + b > u64::MAX { u64::MAX } else { (a + b) as u64 }
}

/// Expiry timer of one fault.
#[derive(Clone, Copy, PartialEq, Eq, Structural, Debug)]
pub struct FaultTimer {
    state: FaultTimerState,
}

impl FaultTimer {
    /// The deadline of the timer, or `None` when it is inactive.
    pub closed spec fn deadline(self) -> Option<u64> {
        match self.state {
            FaultTimerState::Inactive => None,
            FaultTimerState::Active { deadline } => Some(deadline),
        }
    }

    /// Creates a new inactive timer.
    pub fn new() -> (t: Self)
        ensures
            t.deadline() is None,
    {
        FaultTimer { state: FaultTimerState::Inactive }
    }

    /// Evaluates the timer against `now`: inactive, expired once `now` has reached the
    /// deadline, and active (with its deadline) before that.
    pub fn evaluate(&self, now: u64) -> (r: EvaluationResult)
        ensures
            r == spec_evaluate(*self, now),
    {
        match self.state {
            FaultTimerState::Inactive => EvaluationResult::Inactive,
            FaultTimerState::Active { deadline } => {
                if now >= deadline {
                    EvaluationResult::Expired
                } else {
                    EvaluationResult::Active { deadline }
                }
            },
        }
    }

    /// Makes this timer inactive.
    pub fn set_inactive(&mut self)
        ensures
            final(self).deadline() is None,
    {
        self.state = FaultTimerState::Inactive;
    }

    /// Restarts the timer at `now`: it becomes active with deadline `now + duration`,
    /// saturating, whatever its state was.
    pub fn restart_at(&mut self, now: u64, duration: u64)
        ensures
            final(self).deadline() == Some(saturating_add(now, duration)),
    {
        let deadline = now.saturating_add(duration);
        self.state = FaultTimerState::Active { deadline };
    }

    /// Restarts the timer from the current time with a new `duration`.
    ///
    /// The deadline is the clock's reading plus `duration`, saturating. The clock's reading is
    /// not known here, so what is promised is that the timer is active with a deadline `duration`
    /// after some reading (hence no earlier than `duration`).
    pub fn restart(&mut self, duration: u64)
        ensures
            final(self).deadline() matches Some(d) && d >= duration,
            exists|now: u64| final(self).deadline() == Some(#[trigger] saturating_add(now, duration)),
    {
        let now = now_ticks();
        self.restart_at(now, duration);
    }
}

/// What `evaluate` returns for `t` at `now`.
pub open spec fn spec_evaluate(t: FaultTimer, now: u64) -> EvaluationResult {
    match t.deadline() {
        None => EvaluationResult::Inactive,
        Some(d) => if now >= d { EvaluationResult::Expired } else { EvaluationResult::Active { deadline: d } },
    }
}

/// A timer that is active and has reached its deadline at `now`.
pub open spec fn is_expired(t: FaultTimer, now: u64) -> bool {
    t.deadline() matches Some(d) && now >= d
}

/// The deadline of a timer that is still counting down at `now`.
pub open spec fn pending_deadline(t: FaultTimer, now: u64) -> Option<u64> {
    match t.deadline() {
        Some(d) => if now < d { Some(d) } else { None },
        None => None,
    }
}

/// The sooner of two optional deadlines.
pub open spec fn sooner(a: Option<u64>, b: Option<u64>) -> Option<u64> {
    match (a, b) {
        (None, _) => b,
        (_, None) => a,
        (Some(x), Some(y)) => Some(if y < x { y } else { x }),
    }
}

/// The soonest pending deadline among the timers of the first `n` faults.
pub open spec fn soonest_upto(timers: IndexByFaultId<FaultTimer>, now: u64, n: nat) -> Option<u64>
    decreases n,
{
    if n == 0 {
        None
    } else {
        sooner(
            soonest_upto(timers, now, (n - 1) as nat),
            pending_deadline(timers.at(FaultId::spec_variant(n - 1)), now),
        )
    }
}

/// The soonest pending deadline among all fault timers.
pub open spec fn soonest_deadline(timers: IndexByFaultId<FaultTimer>, now: u64) -> Option<u64> {
    soonest_upto(timers, now, FAULT_COUNT as nat)
}

/// The soonest deadline is the deadline of a pending timer, no pending timer has an earlier
/// one, and it is `None` only when no timer is pending.
pub proof fn lemma_soonest_deadline(timers: IndexByFaultId<FaultTimer>, now: u64)
    ensures
        soonest_deadline(timers, now) is None <==> forall|f: FaultId|
            #[trigger] pending_deadline(timers.at(f), now) is None,
        soonest_deadline(timers, now) matches Some(d) ==> (exists|f: FaultId|
            #[trigger] pending_deadline(timers.at(f), now) == Some(d)),
        soonest_deadline(timers, now) matches Some(d) ==> (forall|f: FaultId|
            #[trigger] pending_deadline(timers.at(f), now) matches Some(e) ==> d <= e),
{
    lemma_soonest_upto(timers, now, FAULT_COUNT as nat);
    assert forall|f: FaultId| 0 <= #[trigger] f.spec_index() < FAULT_COUNT by {
        lemma_index_variant(f);
    }
    if soonest_deadline(timers, now) is None {
        assert forall|f: FaultId| #[trigger] pending_deadline(timers.at(f), now) is None by {
            lemma_index_variant(f);
        }
    }
    if let Some(d) = soonest_deadline(timers, now) {
        let i = choose|i: int| 0 <= i < FAULT_COUNT && pending_deadline(timers.at(FaultId::spec_variant(i)), now) == Some(d);
        assert(pending_deadline(timers.at(FaultId::spec_variant(i)), now) == Some(d));
        assert forall|f: FaultId| #[trigger] pending_deadline(timers.at(f), now) is Some
            implies d <= pending_deadline(timers.at(f), now)->0 by {
            lemma_index_variant(f);
        }
    }
}

proof fn lemma_soonest_upto(timers: IndexByFaultId<FaultTimer>, now: u64, n: nat)
    requires
        n <= FAULT_COUNT,
    ensures
        soonest_upto(timers, now, n) is None <==> forall|i: int| 0 <= i < n ==>
            (#[trigger] pending_deadline(timers.at(FaultId::spec_variant(i)), now)) is None,
        soonest_upto(timers, now, n) matches Some(d) ==> (exists|i: int| 0 <= i < n
            && #[trigger] pending_deadline(timers.at(FaultId::spec_variant(i)), now) == Some(d)),
        soonest_upto(timers, now, n) matches Some(d) ==> (forall|i: int| 0 <= i < n ==>
            (#[trigger] pending_deadline(timers.at(FaultId::spec_variant(i)), now) matches Some(e) ==> d <= e)),
    decreases n,
{
    if n > 0 {
        lemma_soonest_upto(timers, now, (n - 1) as nat);
        let last = pending_deadline(timers.at(FaultId::spec_variant(n - 1)), now);
        let prev = soonest_upto(timers, now, (n - 1) as nat);
        if let Some(d) = soonest_upto(timers, now, n) {
            if prev is None || (last matches Some(y) && prev matches Some(x) && y < x) {
                assert(pending_deadline(timers.at(FaultId::spec_variant(n - 1)), now) == Some(d));
            } else {
                let i = choose|i: int| 0 <= i < n - 1 && pending_deadline(timers.at(FaultId::spec_variant(i)), now) == prev;
                assert(pending_deadline(timers.at(FaultId::spec_variant(i)), now) == Some(d));
            }
        }
    }
}

/// A timer running for at least the configured timeout of `fault`.
pub open spec fn runs_for_timeout(t: FaultTimer, fault: FaultId) -> bool {
    t.deadline() matches Some(d) && d >= fault.spec_timeout_ms() * TICKS_PER_MILLI
}

/// A fault's configured timeout, in ticks.
pub open spec fn timeout_ticks(fault: FaultId) -> u64 {
    (fault.spec_timeout_ms() * TICKS_PER_MILLI) as u64
}

/// A timer restarted at `now` for the configured timeout of `fault`.
pub open spec fn restarted_at(t: FaultTimer, fault: FaultId, now: u64) -> bool {
    t.deadline() == Some(saturating_add(now, timeout_ticks(fault)))
}

/// Every fault of `queued` has its timer restarted at `now`.
pub open spec fn all_restarted_at(queued: Seq<FaultId>, timers: IndexByFaultId<FaultTimer>, now: u64) -> bool {
    forall|f: FaultId| #[trigger] queued.contains(f) ==> restarted_at(timers.at(f), f, now)
}

/// What one faults pass, whose clock read `now`, does to the faults it took off the queue:
/// each stays flagged, with its timer restarted at `now` (unless the clock reads its very last
/// value, where every deadline has passed).
pub open spec fn queued_kept_at(
    queued: Seq<FaultId>,
    new_timers: IndexByFaultId<FaultTimer>,
    new_flags: Set<FaultId>,
    now: u64,
) -> bool {
    forall|f: FaultId| #[trigger] queued.contains(f) && now < u64::MAX
        ==> new_flags.contains(f) && restarted_at(new_timers.at(f), f, now)
}

/// What one faults pass does to the faults that were not queued, if its timers were checked
/// at `now`: those expired at `now` are made inactive and unflagged, the rest keep their
/// timer and flag.
pub open spec fn unqueued_expired_at(
    old_timers: IndexByFaultId<FaultTimer>,
    old_flags: Set<FaultId>,
    queued: Seq<FaultId>,
    new_timers: IndexByFaultId<FaultTimer>,
    new_flags: Set<FaultId>,
    now: u64,
) -> bool {
    forall|f: FaultId| !queued.contains(f) ==> {
        &&& #[trigger] new_timers.at(f).deadline()
            == if is_expired(old_timers.at(f), now) { None } else { old_timers.at(f).deadline() }
        &&& new_flags.contains(f) == (old_flags.contains(f) && !is_expired(old_timers.at(f), now))
    }
}

/// A faults pass that took the faults `queued` off the queue raises no flag but theirs: every
/// fault flagged afterwards was flagged before or queued.
pub open spec fn flags_raised_only_by_queue(before: Set<FaultId>, queued: Seq<FaultId>, after: Set<FaultId>) -> bool {
    forall|f: FaultId| #[trigger] after.contains(f) ==> before.contains(f) || queued.contains(f)
}

/// Over any number of faults passes, a fault that was not flagged at the start and was never
/// queued is never flagged: `flags[i]` are the flags before pass `i` (and `flags[n]` after the
/// last), `queued[i]` what pass `i` took off the queue.
pub proof fn lemma_unqueued_fault_stays_clear(
    flags: Seq<Set<FaultId>>,
    queued: Seq<Seq<FaultId>>,
    fault: FaultId,
)
    requires
        flags.len() == queued.len() + 1,
        forall|i: int| 0 <= i < queued.len()
            ==> flags_raised_only_by_queue(flags[i], #[trigger] queued[i], flags[i + 1]),
        !flags[0].contains(fault),
        forall|i: int| 0 <= i < queued.len() ==> !(#[trigger] queued[i]).contains(fault),
    ensures
        forall|i: int| 0 <= i < flags.len() ==> !(#[trigger] flags[i]).contains(fault),
    decreases queued.len(),
{
    if queued.len() > 0 {
        let n = queued.len() as int;
        let fs = flags.drop_last();
        let qs = queued.drop_last();
        assert forall|i: int| 0 <= i < qs.len()
            implies flags_raised_only_by_queue(fs[i], #[trigger] qs[i], fs[i + 1]) by {
            assert(qs[i] == queued[i]);
            assert(flags_raised_only_by_queue(flags[i], queued[i], flags[i + 1]));
        }
        assert forall|i: int| 0 <= i < qs.len() implies !(#[trigger] qs[i]).contains(fault) by {
            assert(qs[i] == queued[i]);
        }
        assert(fs[0] == flags[0]);
        lemma_unqueued_fault_stays_clear(fs, qs, fault);
        assert(!flags[n - 1].contains(fault)) by {
            assert(fs[n - 1] == flags[n - 1]);
        }
        assert(flags_raised_only_by_queue(flags[n - 1], queued[n - 1], flags[n]));
        assert(!queued[n - 1].contains(fault));
        assert forall|i: int| 0 <= i < flags.len() implies !(#[trigger] flags[i]).contains(fault) by {
            if i < n {
                assert(fs[i] == flags[i]);
            }
        }
    }
}

/// The fault manager: one expiry timer per fault.
pub struct FaultManager {
    timers: IndexByFaultId<FaultTimer>,
}

impl FaultManager {
    /// The timer of each fault.
    pub closed spec fn timers(self) -> IndexByFaultId<FaultTimer> {
        self.timers
    }

    /// The flags and the timers agree: a fault's flag is set exactly when its timer is active.
    pub open spec fn tracks(self, flags: Set<FaultId>) -> bool {
        forall|f: FaultId| #[trigger] flags.contains(f) <==> self.timers().at(f).deadline() is Some
    }

    /// Initializes the fault manager with every timer inactive.
    pub fn new() -> (m: Self)
        ensures
            forall|f: FaultId| #[trigger] m.timers().at(f).deadline() is None,
            m.tracks(Set::<FaultId>::empty()),
    {
        let make_timer = |f: FaultId| -> (t: FaultTimer)
            ensures
                t.deadline() is None,
            { FaultTimer::new() };
        let timers = IndexByFaultId::from_fn(make_timer);
        assert forall|f: FaultId| #[trigger] timers.at(f).deadline() is None by {
            assert(make_timer.ensures((f,), timers.at(f)));
        }
        FaultManager { timers }
    }

    /// Triggers a fault at `now`: sets its flag and restarts its timer with the fault's
    /// configured timeout.
    pub fn trigger_fault_at(&mut self, flags: &mut FaultFlags, fault: FaultId, now: u64)
        ensures
            final(flags)@ == old(flags)@.insert(fault),
            final(self).timers().at(fault).deadline()
                == Some(saturating_add(now, (fault.spec_timeout_ms() * TICKS_PER_MILLI) as u64)),
            forall|g: FaultId| g != fault ==> #[trigger] final(self).timers().at(g) == old(self).timers().at(g),
            old(self).tracks(old(flags)@) ==> final(self).tracks(final(flags)@),
    {
        flags.set_fault(fault);
        let timeout = fault.config().timeout();
        let mut timer = *self.timers.get(fault);
        timer.restart_at(now, timeout);
        self.timers.set(fault, timer);
    }

    /// Triggers a fault: sets its flag and restarts its timer from the current time with the
    /// fault's configured timeout.
    pub fn trigger_fault(&mut self, flags: &mut FaultFlags, fault: FaultId)
        ensures
            final(flags)@ == old(flags)@.insert(fault),
            final(self).timers().at(fault).deadline() matches Some(d)
                && d >= fault.spec_timeout_ms() * TICKS_PER_MILLI,
            exists|now: u64| #[trigger] restarted_at(final(self).timers().at(fault), fault, now),
            forall|g: FaultId| g != fault ==> #[trigger] final(self).timers().at(g) == old(self).timers().at(g),
            old(self).tracks(old(flags)@) ==> final(self).tracks(final(flags)@),
    {
        flags.set_fault(fault);
        let timeout = fault.config().timeout();
        let timer = self.timers.get_mut(fault);
        timer.restart(timeout);
        proof {
            let t = self.timers().at(fault);
            let w = choose|now: u64| t.deadline() == Some(#[trigger] saturating_add(now, timeout));
            assert(restarted_at(t, fault, w));
        }
    }

    /// Dequeues every fault waiting in the queue and triggers it at `now`.
    ///
    /// Afterwards the queue is empty, every dequeued fault is flagged with its timer restarted
    /// at `now`, and the timers of the other faults are untouched.
    pub fn drain_queue_at(&mut self, flags: &mut FaultFlags, queue: &mut FaultQueue, now: u64)
        ensures
            fault_queue_contents(*final(queue)).len() == 0,
            final(flags)@ == old(flags)@.union(fault_queue_contents(*old(queue)).to_set()),
            forall|f: FaultId| #[trigger] fault_queue_contents(*old(queue)).contains(f)
                ==> restarted_at(final(self).timers().at(f), f, now),
            forall|f: FaultId| !fault_queue_contents(*old(queue)).contains(f)
                ==> #[trigger] final(self).timers().at(f) == old(self).timers().at(f),
            old(self).tracks(old(flags)@) ==> final(self).tracks(final(flags)@),
    {
        let ghost pending = fault_queue_contents(*queue);
        let ghost tracked_at_start = self.tracks(flags@);
        let ghost start_timers = self.timers();
        let ghost start_flags = flags@;
        loop
            invariant_except_break
                pending.len() >= fault_queue_contents(*queue).len(),
                fault_queue_contents(*queue) == pending.skip(pending.len() - fault_queue_contents(*queue).len()),
            invariant
                flags@ == start_flags.union(pending.take(pending.len() - fault_queue_contents(*queue).len()).to_set()),
                forall|f: FaultId| #[trigger] pending.take(pending.len() - fault_queue_contents(*queue).len()).contains(f)
                    ==> restarted_at(self.timers().at(f), f, now),
                forall|f: FaultId| !pending.take(pending.len() - fault_queue_contents(*queue).len()).contains(f)
                    ==> #[trigger] self.timers().at(f) == start_timers.at(f),
                tracked_at_start ==> self.tracks(flags@),
            ensures
                fault_queue_contents(*queue).len() == 0,
            decreases fault_queue_contents(*queue).len(),
        {
            let ghost before = fault_queue_contents(*queue);
            let ghost done = pending.take(pending.len() - before.len());
            match queue.try_receive() {
                Some(fault) => {
                    proof {
                        let k = pending.len() - before.len();
                        assert(before[0] == pending[k]);
                        assert(pending.take(k + 1) =~= done.push(fault));
                        assert(fault_queue_contents(*queue) =~= pending.skip(k + 1));
                    }
                    let ghost timers_before = self.timers();
                    self.trigger_fault_at(flags, fault, now);
                    proof {
                        let k = pending.len() - before.len();
                        let now_done = pending.take(pending.len() - fault_queue_contents(*queue).len());
                        assert(now_done =~= done.push(fault));
                        assert(now_done.to_set() =~= done.to_set().insert(fault)) by {
                            assert forall|g: FaultId| now_done.to_set().contains(g) == done.to_set().insert(fault).contains(g) by {
                                if g == fault {
                                    assert(now_done[now_done.len() - 1] == g);
                                } else if now_done.contains(g) {
                                    let j = choose|j: int| 0 <= j < now_done.len() && now_done[j] == g;
                                    assert(done[j] == g);
                                } else if done.contains(g) {
                                    let j = choose|j: int| 0 <= j < done.len() && done[j] == g;
                                    assert(now_done[j] == g);
                                }
                            }
                        }
                        assert(flags@ =~= start_flags.union(now_done.to_set()));
                        assert forall|f: FaultId| #[trigger] now_done.contains(f) implies restarted_at(self.timers().at(f), f, now) by {
                            if f != fault {
                                let j = choose|j: int| 0 <= j < now_done.len() && now_done[j] == f;
                                assert(done[j] == f);
                                assert(done.contains(f));
                                assert(restarted_at(timers_before.at(f), f, now));
                            }
                        }
                        assert forall|f: FaultId| !now_done.contains(f) implies #[trigger] self.timers().at(f) == start_timers.at(f) by {
                            assert(f != fault) by {
                                assert(now_done[now_done.len() - 1] == fault);
                            }
                            if done.contains(f) {
                                let j = choose|j: int| 0 <= j < done.len() && done[j] == f;
                                assert(now_done[j] == f);
                            }
                        }
                    }
                },
                None => {
                    break;
                },
            }
        }
        proof {
            assert(pending.take(pending.len() as int) =~= pending);
        }
    }

    /// Dequeues every fault waiting in the queue and triggers it, from one reading of the
    /// current time.
    ///
    /// Afterwards the queue is empty, every dequeued fault is flagged with its timer restarted
    /// at that reading (so running for at least its timeout), and the timers of the other
    /// faults are untouched.
    pub fn drain_queue(&mut self, flags: &mut FaultFlags, queue: &mut FaultQueue)
        ensures
            fault_queue_contents(*final(queue)).len() == 0,
            final(flags)@ == old(flags)@.union(fault_queue_contents(*old(queue)).to_set()),
            forall|f: FaultId| #[trigger] fault_queue_contents(*old(queue)).contains(f)
                ==> runs_for_timeout(final(self).timers().at(f), f),
            exists|now: u64| #[trigger] all_restarted_at(fault_queue_contents(*old(queue)), final(self).timers(), now),
            forall|f: FaultId| !fault_queue_contents(*old(queue)).contains(f)
                ==> #[trigger] final(self).timers().at(f) == old(self).timers().at(f),
            old(self).tracks(old(flags)@) ==> final(self).tracks(final(flags)@),
    {
        let ghost queued = fault_queue_contents(*queue);
        let now = now_ticks();
        self.drain_queue_at(flags, queue, now);
        proof {
            assert forall|f: FaultId| #[trigger] queued.contains(f)
                implies runs_for_timeout(self.timers().at(f), f) by {
                assert(restarted_at(self.timers().at(f), f, now));
            }
            assert(all_restarted_at(queued, self.timers(), now));
        }
    }

    /// Checks every timer against `now`: expired timers are made inactive and their flags
    /// cleared. Returns the soonest deadline among the timers still counting down, or `None`
    /// when none is.
    pub fn expire_timers(&mut self, flags: &mut FaultFlags, now: u64) -> (soonest: Option<u64>)
        ensures
            forall|f: FaultId| #[trigger] final(self).timers().at(f).deadline()
                == if is_expired(old(self).timers().at(f), now) { None } else { old(self).timers().at(f).deadline() },
            final(flags)@ == old(flags)@.filter(|f: FaultId| !is_expired(old(self).timers().at(f), now)),
            soonest == soonest_deadline(old(self).timers(), now),
            old(self).tracks(old(flags)@) ==> final(self).tracks(final(flags)@),
    {
        let ghost start = self.timers();
        let ghost start_flags = flags@;
        let mut soonest_expiration: Option<u64> = None;
        let mut i: usize = 0;
        while i < FAULT_COUNT
            invariant
                i <= FAULT_COUNT,
                soonest_expiration == soonest_upto(start, now, i as nat),
                forall|f: FaultId| #[trigger] self.timers().at(f).deadline()
                    == if f.spec_index() < i && is_expired(start.at(f), now) { None } else { start.at(f).deadline() },
                forall|f: FaultId| #[trigger] flags@.contains(f)
                    == (start_flags.contains(f) && !(f.spec_index() < i && is_expired(start.at(f), now))),
            decreases FAULT_COUNT - i,
        {
            let fault = FaultId::variant(i);
            let ghost timers_before = self.timers();
            let ghost flags_before = flags@;
            let timer = self.timers.get_mut(fault);
            match timer.evaluate(now) {
                EvaluationResult::Inactive => {},
                EvaluationResult::Expired => {
                    timer.set_inactive();
                    flags.clear_fault(fault);
                },
                EvaluationResult::Active { deadline } => {
                    soonest_expiration = Some(match soonest_expiration {
                        None => deadline,
                        Some(soonest) => if deadline < soonest { deadline } else { soonest },
                    });
                },
            }
            proof {
                assert forall|f: FaultId| #[trigger] self.timers().at(f).deadline()
                    == if f.spec_index() < i + 1 && is_expired(start.at(f), now) { None } else { start.at(f).deadline() } by {
                    lemma_index_variant(f);
                    if f != fault {
                        assert(self.timers().at(f) == timers_before.at(f));
                    }
                }
                assert forall|f: FaultId| #[trigger] flags@.contains(f)
                    == (start_flags.contains(f) && !(f.spec_index() < i + 1 && is_expired(start.at(f), now))) by {
                    lemma_index_variant(f);
                    if f != fault {
                        assert(flags@.contains(f) == flags_before.contains(f));
                    }
                }
            }
            i = i + 1;
        }
        proof {
            assert forall|f: FaultId| f.spec_index() < FAULT_COUNT by {
                lemma_index_variant(f);
            }
            assert(flags@ =~= start_flags.filter(|f: FaultId| !is_expired(start.at(f), now)));
        }
        soonest_expiration
    }
}

/// A triggered fault stays active for its whole timeout: its timer, restarted at `start`,
/// does not expire at any `now` before `start` plus the timeout, and does at any `now` from
/// then on (the deadline saturating at `u64::MAX`).
pub proof fn lemma_fault_held_until_timeout(timer: FaultTimer, fault: FaultId, start: u64, now: u64)
    requires
        timer.deadline() == Some(saturating_add(start, (fault.spec_timeout_ms() * TICKS_PER_MILLI) as u64)),
    ensures
        now < start + fault.spec_timeout_ms() * TICKS_PER_MILLI && now < u64::MAX ==> !is_expired(timer, now),
        now >= start + fault.spec_timeout_ms() * TICKS_PER_MILLI ==> is_expired(timer, now),
{
}

impl FaultManager {
    /// One pass of the faults task: reads the clock, triggers every queued fault at that time,
    /// then expires the timers against it. A fault queued for the pass is therefore still
    /// flagged after it, with its full timeout ahead.
    ///
    /// Returns the soonest deadline among the timers still running afterwards (the time to
    /// sleep until, unless more faults are queued first), or `None` when no timer runs.
    pub fn service(&mut self, flags: &mut FaultFlags, queue: &mut FaultQueue) -> (soonest: Option<u64>)
        ensures
            fault_queue_contents(*final(queue)).len() == 0,
            soonest is None <==> forall|f: FaultId| #[trigger] final(self).timers().at(f).deadline() is None,
            soonest matches Some(d) ==> exists|f: FaultId| #[trigger] final(self).timers().at(f).deadline() == Some(d),
            soonest matches Some(d) ==> forall|f: FaultId| #[trigger] final(self).timers().at(f).deadline() matches Some(e) ==> d <= e,
            old(self).tracks(old(flags)@) ==> final(self).tracks(final(flags)@),
            flags_raised_only_by_queue(old(flags)@, fault_queue_contents(*old(queue)), final(flags)@),
            forall|f: FaultId| #[trigger] fault_queue_contents(*old(queue)).contains(f)
                ==> (final(flags)@.contains(f) <==> final(self).timers().at(f).deadline() is Some),
            forall|f: FaultId| #[trigger] fault_queue_contents(*old(queue)).contains(f)
                && final(self).timers().at(f).deadline() is Some ==> runs_for_timeout(final(self).timers().at(f), f),
            exists|now: u64| #[trigger] unqueued_expired_at(
                old(self).timers(), old(flags)@, fault_queue_contents(*old(queue)),
                final(self).timers(), final(flags)@, now)
                && queued_kept_at(fault_queue_contents(*old(queue)), final(self).timers(), final(flags)@, now),
    {
        let ghost queued = fault_queue_contents(*queue);
        let ghost old_timers = self.timers();
        let ghost old_flags = flags@;
        let now = now_ticks();
        self.drain_queue_at(flags, queue, now);
        let ghost mid = self.timers();
        let ghost mid_flags = flags@;
        let soonest = self.expire_timers(flags, now);
        proof {
            assert forall|f: FaultId| #[trigger] queued.contains(f) implies runs_for_timeout(mid.at(f), f) by {
                assert(restarted_at(mid.at(f), f, now));
            }
            assert forall|f: FaultId| #[trigger] queued.contains(f) && now < u64::MAX
                implies flags@.contains(f) && restarted_at(self.timers().at(f), f, now) by {
                assert(queued.to_set().contains(f));
                assert(restarted_at(mid.at(f), f, now));
                assert(timeout_ticks(f) > 0);
                assert(!is_expired(mid.at(f), now));
            }
            assert(queued_kept_at(queued, self.timers(), flags@, now));
            assert forall|f: FaultId| #[trigger] flags@.contains(f)
                implies old_flags.contains(f) || queued.contains(f) by {
                assert(mid_flags.contains(f));
                assert(queued.to_set().contains(f) == queued.contains(f));
            }
            assert forall|f: FaultId| #[trigger] queued.contains(f)
                implies (flags@.contains(f) <==> self.timers().at(f).deadline() is Some) by {
                assert(queued.to_set().contains(f));
                assert(mid_flags.contains(f));
                assert(runs_for_timeout(mid.at(f), f));
            }
            assert forall|f: FaultId| #[trigger] queued.contains(f) && self.timers().at(f).deadline() is Some
                implies runs_for_timeout(self.timers().at(f), f) by {
                assert(runs_for_timeout(mid.at(f), f));
            }
            assert forall|f: FaultId| !queued.contains(f) implies {
                &&& #[trigger] self.timers().at(f).deadline()
                    == if is_expired(old_timers.at(f), now) { None } else { old_timers.at(f).deadline() }
                &&& flags@.contains(f) == (old_flags.contains(f) && !is_expired(old_timers.at(f), now))
            } by {
                assert(mid.at(f) == old_timers.at(f));
                assert(queued.to_set().contains(f) == queued.contains(f));
                assert(mid_flags.contains(f) == old_flags.contains(f));
            }
            assert(unqueued_expired_at(old_timers, old_flags, queued, self.timers(), flags@, now));
            lemma_soonest_deadline(mid, now);
            assert forall|f: FaultId| #[trigger] self.timers().at(f).deadline() == pending_deadline(mid.at(f), now) by {}
            if let Some(d) = soonest {
                let w = choose|f: FaultId| #[trigger] pending_deadline(mid.at(f), now) == Some(d);
                assert(self.timers().at(w).deadline() == Some(d));
                assert forall|f: FaultId| #[trigger] self.timers().at(f).deadline() is Some
                    implies d <= self.timers().at(f).deadline()->0 by {
                    assert(pending_deadline(mid.at(f), now) == self.timers().at(f).deadline());
                }
            }
        }
        soonest
    }
}

} // verus!
