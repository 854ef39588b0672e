//! Turning received CAN frames into fault-frame events for the state machine.

use vstd::prelude::*;

verus! {

/// What a received CAN frame tells the state machine.
#[derive(Clone, Copy, PartialEq, Eq, Structural, Debug)]
pub enum FaultframeState {
    BMSFault,
    BMSOk,
    IMDFault,
    IMDOk,
    ResetRequested,
}

/// A CAN identifier: an 11-bit standard one or a 29-bit extended one, by its raw value.
#[derive(Clone, Copy, PartialEq, Eq, Structural, Debug)]
pub enum CanId {
    Standard(u16),
    Extended(u32),
}

/// IMD status frame (standard id 0x501).
pub open spec fn spec_imd_can_id() -> CanId {
    CanId::Standard(0x501)
}

/// BMS "lightning okay" frame (extended id 0x37).
pub open spec fn spec_bms_can_id() -> CanId {
    CanId::Extended(0x37)
}

/// Latch reset request frame (standard id 0x510).
pub open spec fn spec_latching_can_id() -> CanId {
    CanId::Standard(0x510)
}

/// IMD status frame (standard id 0x501).
pub fn imd_can_id() -> (id: CanId)
    ensures
        id == spec_imd_can_id(),
{
    CanId::Standard(0x501)
}

/// BMS "lightning okay" frame (extended id 0x37).
pub fn bms_can_id() -> (id: CanId)
    ensures
        id == spec_bms_can_id(),
{
    CanId::Extended(0x37)
}

/// Latch reset request frame (standard id 0x510).
pub fn latching_can_id() -> (id: CanId)
    ensures
        id == spec_latching_can_id(),
{
    CanId::Standard(0x510)
}

/// Sum of the bytes, as a mathematical integer.
pub open spec fn byte_sum(data: Seq<u8>) -> int
    decreases data.len(),
{
    if data.len() == 0 {
        0
    } else {
        byte_sum(data.drop_last()) + data.last()
    }
}

/// Whether the top bit of the first byte is set.
pub open spec fn first_byte_flag(data: Seq<u8>) -> bool {
    data[0] & 0x80 != 0
}

/// The event a frame with identifier `id` and payload `data` stands for.
///
/// - IMD: ok when the bytes sum to zero, wrapping at 256 as `u8` addition does, else a fault.
/// - BMS: a fault when the top bit of the first byte is set, else ok.
/// - Latch: a reset request when the top bit of the first byte is set, else nothing.
/// - Any other identifier: nothing.
pub open spec fn spec_classify(id: CanId, data: Seq<u8>) -> Option<FaultframeState> {
    if id == spec_imd_can_id() {
        if byte_sum(data) % 256 == 0 {
            Some(FaultframeState::IMDOk)
        } else {
            Some(FaultframeState::IMDFault)
        }
    } else if id == spec_bms_can_id() {
        if first_byte_flag(data) {
            Some(FaultframeState::BMSFault)
        } else {
            Some(FaultframeState::BMSOk)
        }
    } else if id == spec_latching_can_id() {
        if first_byte_flag(data) {
            Some(FaultframeState::ResetRequested)
        } else {
            None
        }
    } else {
        None
    }
}

/// The payload may be read as the classification needs: BMS and latch frames are judged by
/// their first byte, so they must have one.
pub open spec fn classifiable(id: CanId, data: Seq<u8>) -> bool {
    (id == spec_bms_can_id() || id == spec_latching_can_id()) ==> data.len() >= 1
}

/// The bytes summed with wrapping `u8` addition.
fn wrapping_byte_sum(data: &[u8]) -> (s: u8)
    ensures
        s == byte_sum(data@) % 256,
{
    let mut sum: u8 = 0;
    let mut i: usize = 0;
    while i < data.len()
        invariant
            i <= data@.len(),
            sum == byte_sum(data@.take(i as int)) % 256,
        decreases data@.len() - i,
    {
        proof {
            assert(data@.take(i + 1).drop_last() =~= data@.take(i as int));
            assert(data@.take(i + 1).last() == data@[i as int]);
        }
        sum = sum.wrapping_add(data[i]);
        i = i + 1;
    }
    proof {
        assert(data@.take(data@.len() as int) =~= data@);
    }
    sum
}

/// Classifies a received CAN frame into the event it stands for, if any.
pub fn classify_frame(id: CanId, data: &[u8]) -> (r: Option<FaultframeState>)
    requires
        classifiable(id, data@),
    ensures
        r == spec_classify(id, data@),
{
    if id == imd_can_id() {
        if wrapping_byte_sum(data) == 0 {
            Some(FaultframeState::IMDOk)
        } else {
            Some(FaultframeState::IMDFault)
        }
    } else if id == bms_can_id() {
        if data[0] & 0x80 == 0 {
            Some(FaultframeState::BMSOk)
        } else {
            Some(FaultframeState::BMSFault)
        }
    } else if id == latching_can_id() {
        if data[0] & 0x80 == 0 {
            None
        } else {
            Some(FaultframeState::ResetRequested)
        }
    } else {
        None
    }
}

/// A latch frame is a reset request exactly when its first byte is 0x80 or more (its top bit is
/// set), and otherwise stands for nothing.
pub proof fn lemma_latch_frame(data: Seq<u8>)
    requires
        data.len() >= 1,
    ensures
        spec_classify(spec_latching_can_id(), data) == if data[0] >= 0x80 {
            Some(FaultframeState::ResetRequested)
        } else {
            None::<FaultframeState>
        },
{
    let b = data[0];
    assert(b & 0x80 != 0 <==> b >= 0x80) by (bit_vector);
}

/// A BMS frame is a fault exactly when its first byte is 0x80 or more, and otherwise "ok".
pub proof fn lemma_bms_frame(data: Seq<u8>)
    requires
        data.len() >= 1,
    ensures
        spec_classify(spec_bms_can_id(), data) == if data[0] >= 0x80 {
            Some(FaultframeState::BMSFault)
        } else {
            Some(FaultframeState::BMSOk)
        },
{
    let b = data[0];
    assert(b & 0x80 != 0 <==> b >= 0x80) by (bit_vector);
}

/// An IMD frame is "ok" exactly when its bytes add up to a multiple of 256, and otherwise a
/// fault; in particular a frame of zero bytes is "ok", and one with a single nonzero byte is a
/// fault.
pub proof fn lemma_imd_frame(data: Seq<u8>)
    ensures
        spec_classify(spec_imd_can_id(), data) == if byte_sum(data) % 256 == 0 {
            Some(FaultframeState::IMDOk)
        } else {
            Some(FaultframeState::IMDFault)
        },
        (forall|i: int| 0 <= i < data.len() ==> #[trigger] data[i] == 0)
            ==> spec_classify(spec_imd_can_id(), data) == Some(FaultframeState::IMDOk),
{
    if forall|i: int| 0 <= i < data.len() ==> #[trigger] data[i] == 0 {
        lemma_zero_bytes_sum_to_zero(data);
    }
}

proof fn lemma_zero_bytes_sum_to_zero(data: Seq<u8>)
    requires
        forall|i: int| 0 <= i < data.len() ==> #[trigger] data[i] == 0,
    ensures
        byte_sum(data) == 0,
    decreases data.len(),
{
    if data.len() > 0 {
        let p = data.drop_last();
        assert forall|i: int| 0 <= i < p.len() implies #[trigger] p[i] == 0 by {
            assert(p[i] == data[i]);
        }
        lemma_zero_bytes_sum_to_zero(p);
        assert(data[data.len() - 1] == 0);
    }
}

/// Only a latch frame can ask for a reset, a frame with any other identifier than the three
/// known ones stands for nothing, and IMD and BMS frames always stand for something.
pub proof fn lemma_classify_by_id(id: CanId, data: Seq<u8>)
    ensures
        spec_classify(id, data) == Some(FaultframeState::ResetRequested) ==> id == spec_latching_can_id(),
        id != spec_imd_can_id() && id != spec_bms_can_id() && id != spec_latching_can_id()
            ==> spec_classify(id, data) is None,
        id == spec_imd_can_id() || id == spec_bms_can_id() ==> spec_classify(id, data) is Some,
        spec_classify(id, data) == Some(FaultframeState::IMDOk) || spec_classify(id, data) == Some(FaultframeState::IMDFault)
            ==> id == spec_imd_can_id(),
        spec_classify(id, data) == Some(FaultframeState::BMSOk) || spec_classify(id, data) == Some(FaultframeState::BMSFault)
            ==> id == spec_bms_can_id(),
{
}

} // verus!
