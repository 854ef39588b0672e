//! Hardware-in-the-loop transport: the isoSPI chips' SPI transactions carried over a UART to
//! an emulator.
//!
//! Only the transaction shapes the chip drivers produce are supported. The segment line sends
//! commands and data and reads replies; the HV-plate line only forwards reads, and retries a
//! read that timed out.

use vstd::prelude::*;

verus! {

/// Number of retries of a timed-out HV-plate read, after the first attempt.
pub const READ_RETRIES: usize = 2;

/// Length of an ADBMS command with its PEC, in bytes.
pub const COMMAND_LEN: usize = 4;

/// The shape of one SPI operation: its kind, and the buffer length for reads and writes.
#[derive(Clone, Copy, PartialEq, Eq, Structural, Debug)]
pub enum OpShape {
    Read(usize),
    Write(usize),
    Transfer,
    TransferInPlace,
    DelayNs,
}

/// Errors of a HIL transaction; `Uart` carries the UART error.
#[derive(Clone, Copy, PartialEq, Eq, Structural, Debug)]
pub enum HilError<E> {
    Uart(E),
    Timeout,
    DisabledLine,
    UnsupportedTransaction,
}

/// How a UART exchange that runs under a timeout ended.
#[derive(PartialEq, Eq, Structural, Debug)]
pub enum TimedOutcome<E> {
    TimedOut,
    Completed(Result<(), E>),
}

/// What the segment line does for a transaction.
#[derive(Clone, Copy, PartialEq, Eq, Structural, Debug)]
pub enum SegmentPlan {
    /// A chip-select wake-up pulse, which has no UART equivalent: succeed at once.
    Nothing,
    /// Send the command, flush, then read the whole reply, all within 60 s.
    CommandThenRead,
    /// Send the command and flush, within 100 ms.
    Write,
    /// Send the command, then the data, and flush, within 100 ms.
    WriteThenWrite,
}

/// What the HV-plate line does for a transaction.
#[derive(Clone, Copy, PartialEq, Eq, Structural, Debug)]
pub enum HvPlatePlan {
    /// Wake-up pulses, configuration writes and conversion commands are not forwarded.
    Nothing,
    /// Send the command and read the reply, retrying a timed-out attempt.
    ReadWithRetries,
}

/// What to do after one attempt of an HV-plate read.
#[derive(PartialEq, Eq, Structural, Debug)]
pub enum RetryStep<E> {
    Return(Result<(), HilError<E>>),
    Retry,
}

/// A wake-up pulse: no operation, or a lone delay.
pub open spec fn is_wakeup(ops: Seq<OpShape>) -> bool {
    ops.len() == 0 || (ops.len() == 1 && ops[0] == OpShape::DelayNs)
}

/// A command followed by a read of its reply.
pub open spec fn is_command_read(ops: Seq<OpShape>) -> bool {
    ops.len() == 2 && ops[0] == OpShape::Write(COMMAND_LEN) && ops[1] is Read
}

/// A single write.
pub open spec fn is_single_write(ops: Seq<OpShape>) -> bool {
    ops.len() == 1 && ops[0] is Write
}

/// Two writes.
pub open spec fn is_double_write(ops: Seq<OpShape>) -> bool {
    ops.len() == 2 && ops[0] is Write && ops[1] is Write
}

/// The segment line's plan for a transaction.
pub open spec fn spec_segment_plan<E>(enabled: bool, ops: Seq<OpShape>) -> Result<SegmentPlan, HilError<E>> {
    if !enabled {
        Err(HilError::DisabledLine)
    } else if is_wakeup(ops) {
        Ok(SegmentPlan::Nothing)
    } else if is_command_read(ops) {
        Ok(SegmentPlan::CommandThenRead)
    } else if is_single_write(ops) {
        Ok(SegmentPlan::Write)
    } else if is_double_write(ops) {
        Ok(SegmentPlan::WriteThenWrite)
    } else {
        Err(HilError::UnsupportedTransaction)
    }
}

/// The HV-plate line's plan for a transaction.
pub open spec fn spec_hv_plate_plan<E>(enabled: bool, ops: Seq<OpShape>) -> Result<HvPlatePlan, HilError<E>> {
    if !enabled {
        Err(HilError::DisabledLine)
    } else if is_wakeup(ops) || is_single_write(ops) || is_double_write(ops) {
        Ok(HvPlatePlan::Nothing)
    } else if is_command_read(ops) {
        Ok(HvPlatePlan::ReadWithRetries)
    } else {
        Err(HilError::UnsupportedTransaction)
    }
}

/// On an enabled HV-plate line, a wake-up pulse (no operation, or a lone delay), a single write
/// and a pair of writes are all accepted without being forwarded; a command followed by a read
/// is forwarded with retries.
pub proof fn lemma_hv_plate_accepts_driver_shapes<E>(n: usize, m: usize, k: usize)
    ensures
        spec_hv_plate_plan::<E>(true, Seq::<OpShape>::empty()) == Ok::<HvPlatePlan, HilError<E>>(HvPlatePlan::Nothing),
        spec_hv_plate_plan::<E>(true, seq![OpShape::DelayNs]) == Ok::<HvPlatePlan, HilError<E>>(HvPlatePlan::Nothing),
        spec_hv_plate_plan::<E>(true, seq![OpShape::Write(n)]) == Ok::<HvPlatePlan, HilError<E>>(HvPlatePlan::Nothing),
        spec_hv_plate_plan::<E>(true, seq![OpShape::Write(n), OpShape::Write(m)])
            == Ok::<HvPlatePlan, HilError<E>>(HvPlatePlan::Nothing),
        spec_hv_plate_plan::<E>(true, seq![OpShape::Write(COMMAND_LEN), OpShape::Read(k)])
            == Ok::<HvPlatePlan, HilError<E>>(HvPlatePlan::ReadWithRetries),
{
}

/// On an enabled segment line, a wake-up pulse (no operation, or a lone delay) succeeds at once,
/// a command followed by a read sends then reads, and one or two writes are sent.
pub proof fn lemma_segment_accepts_driver_shapes<E>(n: usize, m: usize, k: usize)
    ensures
        spec_segment_plan::<E>(true, Seq::<OpShape>::empty()) == Ok::<SegmentPlan, HilError<E>>(SegmentPlan::Nothing),
        spec_segment_plan::<E>(true, seq![OpShape::DelayNs]) == Ok::<SegmentPlan, HilError<E>>(SegmentPlan::Nothing),
        spec_segment_plan::<E>(true, seq![OpShape::Write(n)]) == Ok::<SegmentPlan, HilError<E>>(SegmentPlan::Write),
        spec_segment_plan::<E>(true, seq![OpShape::Write(n), OpShape::Write(m)])
            == Ok::<SegmentPlan, HilError<E>>(SegmentPlan::WriteThenWrite),
        spec_segment_plan::<E>(true, seq![OpShape::Write(COMMAND_LEN), OpShape::Read(k)])
            == Ok::<SegmentPlan, HilError<E>>(SegmentPlan::CommandThenRead),
{
}

/// The two lines accept exactly the same transaction shapes: a disabled line refuses
/// everything, a shape one line does not support the other does not either, only a command
/// followed by a read is forwarded to the HV plate (where the segment line sends it and reads
/// the reply), and everything else the HV-plate line accepts without forwarding it.
pub proof fn lemma_lines_accept_the_same_shapes<E>(enabled: bool, ops: Seq<OpShape>)
    ensures
        !enabled ==> spec_segment_plan::<E>(enabled, ops) == Err::<SegmentPlan, HilError<E>>(HilError::DisabledLine)
            && spec_hv_plate_plan::<E>(enabled, ops) == Err::<HvPlatePlan, HilError<E>>(HilError::DisabledLine),
        spec_segment_plan::<E>(enabled, ops) is Err <==> spec_hv_plate_plan::<E>(enabled, ops) is Err,
        (spec_segment_plan::<E>(enabled, ops) == Err::<SegmentPlan, HilError<E>>(HilError::UnsupportedTransaction))
            <==> (spec_hv_plate_plan::<E>(enabled, ops) == Err::<HvPlatePlan, HilError<E>>(HilError::UnsupportedTransaction)),
        (spec_segment_plan::<E>(enabled, ops) == Ok::<SegmentPlan, HilError<E>>(SegmentPlan::CommandThenRead))
            <==> (spec_hv_plate_plan::<E>(enabled, ops) == Ok::<HvPlatePlan, HilError<E>>(HvPlatePlan::ReadWithRetries)),
        spec_segment_plan::<E>(enabled, ops) is Ok
            && spec_segment_plan::<E>(enabled, ops) != Ok::<SegmentPlan, HilError<E>>(SegmentPlan::CommandThenRead)
            ==> spec_hv_plate_plan::<E>(enabled, ops) == Ok::<HvPlatePlan, HilError<E>>(HvPlatePlan::Nothing),
{
}

/// A supported transaction has at most two operations and no transfer: anything longer, or
/// holding a transfer, is refused as unsupported by an enabled line.
pub proof fn lemma_unsupported_shapes<E>(ops: Seq<OpShape>)
    requires
        ops.len() > 2 || exists|i: int| 0 <= i < ops.len()
            && (#[trigger] ops[i] == OpShape::Transfer || ops[i] == OpShape::TransferInPlace),
    ensures
        spec_segment_plan::<E>(true, ops) == Err::<SegmentPlan, HilError<E>>(HilError::UnsupportedTransaction),
        spec_hv_plate_plan::<E>(true, ops) == Err::<HvPlatePlan, HilError<E>>(HilError::UnsupportedTransaction),
{
}

/// The result of a timed exchange: a timeout, the UART error, or success.
pub open spec fn spec_finish<E>(outcome: TimedOutcome<E>) -> Result<(), HilError<E>> {
    match outcome {
        TimedOutcome::TimedOut => Err(HilError::Timeout),
        TimedOutcome::Completed(Ok(())) => Ok(()),
        TimedOutcome::Completed(Err(e)) => Err(HilError::Uart(e)),
    }
}

/// After attempt number `attempt` (from 0): a completed attempt is returned; a timed-out one
/// is retried while retries are left, and reported as a timeout after the last.
pub open spec fn spec_after_read_attempt<E>(attempt: int, outcome: TimedOutcome<E>) -> RetryStep<E> {
    match outcome {
        TimedOutcome::TimedOut => if attempt < READ_RETRIES { RetryStep::Retry } else { RetryStep::Return(Err(HilError::Timeout)) },
        _ => RetryStep::Return(spec_finish(outcome)),
    }
}

/// The result of the whole retry loop from attempt `attempt`, given the outcome of each attempt.
pub open spec fn spec_retry_loop<E>(outcomes: Seq<TimedOutcome<E>>, attempt: int) -> Result<(), HilError<E>>
    decreases READ_RETRIES - attempt,
{
    match spec_after_read_attempt(attempt, outcomes[attempt]) {
        RetryStep::Return(r) => r,
        RetryStep::Retry => spec_retry_loop(outcomes, attempt + 1),
    }
}

fn op_is_write(op: OpShape) -> (b: bool)
    ensures
        b == op is Write,
{
    match op {
        OpShape::Write(_) => true,
        _ => false,
    }
}

fn op_is_read(op: OpShape) -> (b: bool)
    ensures
        b == op is Read,
{
    match op {
        OpShape::Read(_) => true,
        _ => false,
    }
}

fn shape_is_wakeup(ops: &[OpShape]) -> (b: bool)
    ensures
        b == is_wakeup(ops@),
{
    ops.len() == 0 || (ops.len() == 1 && ops[0] == OpShape::DelayNs)
}

fn shape_is_command_read(ops: &[OpShape]) -> (b: bool)
    ensures
        b == is_command_read(ops@),
{
    ops.len() == 2 && ops[0] == OpShape::Write(COMMAND_LEN) && op_is_read(ops[1])
}

fn shape_is_single_write(ops: &[OpShape]) -> (b: bool)
    ensures
        b == is_single_write(ops@),
{
    ops.len() == 1 && op_is_write(ops[0])
}

fn shape_is_double_write(ops: &[OpShape]) -> (b: bool)
    ensures
        b == is_double_write(ops@),
{
    ops.len() == 2 && op_is_write(ops[0]) && op_is_write(ops[1])
}

/// Decides how the segment line carries a transaction: a disabled line refuses everything,
/// and only the shapes the driver produces are supported.
pub fn plan_segment_transaction<E>(enabled: bool, ops: &[OpShape]) -> (r: Result<SegmentPlan, HilError<E>>)
    ensures
        r == spec_segment_plan::<E>(enabled, ops@),
{
    if !enabled {
        Err(HilError::DisabledLine)
    } else if shape_is_wakeup(ops) {
        Ok(SegmentPlan::Nothing)
    } else if shape_is_command_read(ops) {
        Ok(SegmentPlan::CommandThenRead)
    } else if shape_is_single_write(ops) {
        Ok(SegmentPlan::Write)
    } else if shape_is_double_write(ops) {
        Ok(SegmentPlan::WriteThenWrite)
    } else {
        Err(HilError::UnsupportedTransaction)
    }
}

/// Decides how the HV-plate line carries a transaction: only command-then-read is forwarded;
/// wake-ups and writes succeed without being sent.
pub fn plan_hv_plate_transaction<E>(enabled: bool, ops: &[OpShape]) -> (r: Result<HvPlatePlan, HilError<E>>)
    ensures
        r == spec_hv_plate_plan::<E>(enabled, ops@),
{
    if !enabled {
        Err(HilError::DisabledLine)
    } else if shape_is_wakeup(ops) || shape_is_single_write(ops) || shape_is_double_write(ops) {
        Ok(HvPlatePlan::Nothing)
    } else if shape_is_command_read(ops) {
        Ok(HvPlatePlan::ReadWithRetries)
    } else {
        Err(HilError::UnsupportedTransaction)
    }
}

/// The transaction's result from how its timed UART exchange ended.
pub fn finish_exchange<E>(outcome: TimedOutcome<E>) -> (r: Result<(), HilError<E>>)
    ensures
        r == spec_finish(outcome),
{
    match outcome {
        TimedOutcome::TimedOut => Err(HilError::Timeout),
        TimedOutcome::Completed(Ok(())) => Ok(()),
        TimedOutcome::Completed(Err(e)) => Err(HilError::Uart(e)),
    }
}

/// Decides what follows attempt number `attempt` (from 0) of an HV-plate read.
pub fn after_read_attempt<E>(attempt: usize, outcome: TimedOutcome<E>) -> (step: RetryStep<E>)
    requires
        attempt <= READ_RETRIES,
    ensures
        step == spec_after_read_attempt(attempt as int, outcome),
{
    match outcome {
        TimedOutcome::TimedOut => {
            if attempt < READ_RETRIES {
                RetryStep::Retry
            } else {
                RetryStep::Return(Err(HilError::Timeout))
            }
        },
        TimedOutcome::Completed(r) => RetryStep::Return(finish_exchange(TimedOutcome::Completed(r))),
    }
}

/// Timed-out reads are retried silently: the loop makes at most `READ_RETRIES + 1` attempts,
/// returns the first attempt that completed, and reports a timeout only when every attempt
/// timed out.
pub proof fn lemma_retry_loop<E>(outcomes: Seq<TimedOutcome<E>>)
    requires
        outcomes.len() == READ_RETRIES + 1,
    ensures
        (spec_retry_loop(outcomes, 0) == Err::<(), HilError<E>>(HilError::Timeout))
            <== (forall|i: int| 0 <= i < outcomes.len() ==> #[trigger] outcomes[i] == TimedOutcome::<E>::TimedOut),
        outcomes[0] != TimedOutcome::<E>::TimedOut ==> spec_retry_loop(outcomes, 0) == spec_finish(outcomes[0]),
        outcomes[0] == TimedOutcome::<E>::TimedOut && outcomes[1] != TimedOutcome::<E>::TimedOut
            ==> spec_retry_loop(outcomes, 0) == spec_finish(outcomes[1]),
        outcomes[0] == TimedOutcome::<E>::TimedOut && outcomes[1] == TimedOutcome::<E>::TimedOut
            ==> spec_retry_loop(outcomes, 0) == spec_finish(outcomes[2]),
{
    reveal_with_fuel(spec_retry_loop, 4);
    if outcomes[0] == TimedOutcome::<E>::TimedOut && outcomes[1] == TimedOutcome::<E>::TimedOut {
        assert(spec_retry_loop(outcomes, 0) == spec_retry_loop(outcomes, 2));
    }
}

} // verus!
