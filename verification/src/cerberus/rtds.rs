//! RTDS, the ready-to-drive sound.
//!
//! The RTDS task owns the pin; everyone else sends it commands through a small queue. A
//! `Sound` command turns the pin on (only while shutdown is closed) and starts a deadline; the
//! pin goes off again at the deadline or on a `Cancel` command.

use vstd::prelude::*;
use embassy_sync::blocking_mutex::raw::NoopRawMutex;
use embassy_sync::channel::Channel;

use crate::clock::{millis_to_ticks, TICKS_PER_MILLI};

verus! {

/// How long the sound plays, in milliseconds.
pub const RTDS_DURATION_MS: u64 = 1500;

/// Capacity of the command queue.
pub const COMMAND_QUEUE_SIZE: usize = 4;

/// How long the sound plays, in ticks.
pub open spec fn rtds_duration_ticks() -> int {
    RTDS_DURATION_MS * TICKS_PER_MILLI
}

/// A command for the RTDS task.
#[derive(Clone, Copy, PartialEq, Eq, Structural, Debug)]
pub enum RtdsCommand {
    Sound,
    Cancel,
}

/// Errors from sending a command.
#[derive(Clone, Copy, PartialEq, Eq, Structural, Debug)]
pub enum RtdsError {
    /// The queue was full, so the command got dropped.
    QueueFull,
}

/// The command queue: an `embassy_sync` channel of commands with capacity
/// `COMMAND_QUEUE_SIZE`, first in first out.
#[verifier::external_body]
pub struct RtdsCommandQueue {
    chan: Channel<NoopRawMutex, RtdsCommand, 4>,
}

/// The commands waiting in the queue, oldest first.
pub uninterp spec fn rtds_queue_contents(q: RtdsCommandQueue) -> Seq<RtdsCommand>;

impl RtdsCommandQueue {
    /// Calls `embassy_sync::channel::Channel::new`, which starts with nothing buffered.
    #[verifier::external_body]
    fn empty() -> (q: RtdsCommandQueue)
        ensures
            rtds_queue_contents(q) == Seq::<RtdsCommand>::empty(),
    {
        RtdsCommandQueue { chan: Channel::new() }
    }

    /// A new, empty command queue.
    pub fn new() -> (q: RtdsCommandQueue)
        ensures
            rtds_queue_contents(q) == Seq::<RtdsCommand>::empty(),
    {
        RtdsCommandQueue::empty()
    }

    /// Calls `embassy_sync::channel::Channel::try_send`: the command is appended when fewer
    /// than the capacity are buffered, and refused (the queue unchanged) otherwise.
    #[verifier::external_body]
    fn try_send(&mut self, command: RtdsCommand) -> (r: Result<(), ()>)
        ensures
            rtds_queue_contents(*old(self)).len() < COMMAND_QUEUE_SIZE ==> r is Ok
                && rtds_queue_contents(*final(self)) == rtds_queue_contents(*old(self)).push(command),
            rtds_queue_contents(*old(self)).len() >= COMMAND_QUEUE_SIZE ==> r is Err
                && rtds_queue_contents(*final(self)) == rtds_queue_contents(*old(self)),
            rtds_queue_contents(*final(self)).len() <= COMMAND_QUEUE_SIZE,
    {
        match self.chan.try_send(command) {
            Ok(()) => Ok(()),
            Err(_) => Err(()),
        }
    }

    /// Calls `embassy_sync::channel::Channel::try_receive`: the oldest command is removed and
    /// returned, or `None` when nothing is buffered.
    #[verifier::external_body]
    fn try_take(&mut self) -> (r: Option<RtdsCommand>)
        ensures
            rtds_queue_contents(*old(self)).len() == 0 ==> r is None
                && rtds_queue_contents(*final(self)) == rtds_queue_contents(*old(self)),
            rtds_queue_contents(*old(self)).len() > 0 ==> r == Some(rtds_queue_contents(*old(self))[0])
                && rtds_queue_contents(*final(self)) == rtds_queue_contents(*old(self)).drop_first(),
    {
        match self.chan.try_receive() {
            Ok(command) => Some(command),
            Err(_) => None,
        }
    }

    /// Takes the oldest command off the queue, or `None` when the queue is empty.
    pub fn try_receive(&mut self) -> (r: Option<RtdsCommand>)
        ensures
            rtds_queue_contents(*old(self)).len() == 0 ==> r is None
                && rtds_queue_contents(*final(self)) == rtds_queue_contents(*old(self)),
            rtds_queue_contents(*old(self)).len() > 0 ==> r == Some(rtds_queue_contents(*old(self))[0])
                && rtds_queue_contents(*final(self)) == rtds_queue_contents(*old(self)).drop_first(),
    {
        self.try_take()
    }
}

/// Puts a command on the queue; fails with `QueueFull`, dropping the command, when the queue
/// already holds `COMMAND_QUEUE_SIZE` commands.
fn send(queue: &mut RtdsCommandQueue, command: RtdsCommand) -> (r: Result<(), RtdsError>)
    ensures
        rtds_queue_contents(*old(queue)).len() < COMMAND_QUEUE_SIZE ==> r is Ok
            && rtds_queue_contents(*final(queue)) == rtds_queue_contents(*old(queue)).push(command),
        rtds_queue_contents(*old(queue)).len() >= COMMAND_QUEUE_SIZE ==> r == Err::<(), RtdsError>(RtdsError::QueueFull)
            && rtds_queue_contents(*final(queue)) == rtds_queue_contents(*old(queue)),
{
    match queue.try_send(command) {
        Ok(()) => Ok(()),
        Err(()) => Err(RtdsError::QueueFull),
    }
}

/// Asks the RTDS task to play the sound.
pub fn sound_rtds(queue: &mut RtdsCommandQueue) -> (r: Result<(), RtdsError>)
    ensures
        rtds_queue_contents(*old(queue)).len() < COMMAND_QUEUE_SIZE ==> r is Ok
            && rtds_queue_contents(*final(queue)) == rtds_queue_contents(*old(queue)).push(RtdsCommand::Sound),
        rtds_queue_contents(*old(queue)).len() >= COMMAND_QUEUE_SIZE ==> r == Err::<(), RtdsError>(RtdsError::QueueFull)
            && rtds_queue_contents(*final(queue)) == rtds_queue_contents(*old(queue)),
{
    send(queue, RtdsCommand::Sound)
}

/// Asks the RTDS task to stop the sound early.
pub fn cancel_rtds(queue: &mut RtdsCommandQueue) -> (r: Result<(), RtdsError>)
    ensures
        rtds_queue_contents(*old(queue)).len() < COMMAND_QUEUE_SIZE ==> r is Ok
            && rtds_queue_contents(*final(queue)) == rtds_queue_contents(*old(queue)).push(RtdsCommand::Cancel),
        rtds_queue_contents(*old(queue)).len() >= COMMAND_QUEUE_SIZE ==> r == Err::<(), RtdsError>(RtdsError::QueueFull)
            && rtds_queue_contents(*final(queue)) == rtds_queue_contents(*old(queue)),
{
    send(queue, RtdsCommand::Cancel)
}

/// Stand-in for the shutdown-circuit check until shutdown exists: reports the circuit open,
/// so the sound never plays.
pub fn is_shutdown_closed_placeholder() -> (closed: bool)
    ensures
        !closed,
{
    false
}

/// What woke the RTDS task.
#[derive(Clone, Copy, PartialEq, Eq, Structural, Debug)]
pub enum RtdsEvent {
    /// A command arrived on the queue.
    Command(RtdsCommand),
    /// The sound's deadline passed.
    DeadlineReached,
}

/// The level of the pin after the task handles `event`, from its level `pin_on` before:
/// a `Sound` turns it on only while shutdown is closed and otherwise leaves it as it was; a
/// `Cancel` or the end of the sound turns it off.
pub open spec fn pin_after(pin_on: bool, event: RtdsEvent, shutdown_closed: bool) -> bool {
    match event {
        RtdsEvent::Command(RtdsCommand::Sound) => pin_on || shutdown_closed,
        _ => false,
    }
}

/// The level of the pin after the task handles each event of `events` in turn, each with the
/// shutdown reading taken for it, starting from the level `pin_on`.
pub open spec fn pin_after_run(pin_on: bool, events: Seq<(RtdsEvent, bool)>) -> bool
    decreases events.len(),
{
    if events.len() == 0 {
        pin_on
    } else {
        pin_after(pin_after_run(pin_on, events.drop_last()), events.last().0, events.last().1)
    }
}

/// Started with the pin low, a task whose shutdown check always reports the circuit open
/// (such as `is_shutdown_closed_placeholder`) never drives the pin high, whatever commands
/// and deadlines it handles.
pub proof fn lemma_open_shutdown_never_sounds(events: Seq<(RtdsEvent, bool)>)
    requires
        forall|i: int| 0 <= i < events.len() ==> !(#[trigger] events[i]).1,
    ensures
        !pin_after_run(false, events),
    decreases events.len(),
{
    if events.len() > 0 {
        lemma_open_shutdown_never_sounds(events.drop_last());
        assert(!events[events.len() - 1].1);
    }
}

/// Started with the pin low, the pin is high after a run only if some `Sound` in it was
/// handled while shutdown was closed, and every event after that one was a `Sound` too (no
/// `Cancel` and no end of the sound since).
pub proof fn lemma_pin_on_needs_closed_sound(events: Seq<(RtdsEvent, bool)>)
    requires
        pin_after_run(false, events),
    ensures
        exists|j: int| 0 <= j < events.len()
            && (#[trigger] events[j]) == (RtdsEvent::Command(RtdsCommand::Sound), true)
            && forall|k: int| j < k < events.len() ==> (#[trigger] events[k]).0 == RtdsEvent::Command(RtdsCommand::Sound),
    decreases events.len(),
{
    let n = events.len() as int;
    if n > 0 {
        let prefix = events.drop_last();
        let last = events[n - 1];
        assert(last.0 == RtdsEvent::Command(RtdsCommand::Sound));
        if last.1 {
            assert(events[n - 1] == (RtdsEvent::Command(RtdsCommand::Sound), true));
        } else {
            lemma_pin_on_needs_closed_sound(prefix);
            let j = choose|j: int| 0 <= j < prefix.len()
                && (#[trigger] prefix[j]) == (RtdsEvent::Command(RtdsCommand::Sound), true)
                && forall|k: int| j < k < prefix.len() ==> (#[trigger] prefix[k]).0 == RtdsEvent::Command(RtdsCommand::Sound);
            assert(events[j] == prefix[j]);
            assert forall|k: int| j < k < n implies (#[trigger] events[k]).0 == RtdsEvent::Command(RtdsCommand::Sound) by {
                if k < n - 1 {
                    assert(events[k] == prefix[k]);
                }
            }
        }
    }
}

/// The RTDS task's state: the level of the pin, and the deadline of the sound while it plays.
pub struct Rtds {
    pin_on: bool,
    sounding: bool,
    sound_deadline: Option<u64>,
}

impl Rtds {
    /// Whether the pin is driven high.
    pub closed spec fn pin_on(self) -> bool {
        self.pin_on
    }

    /// Whether the sound is reported as playing.
    pub closed spec fn sounding(self) -> bool {
        self.sounding
    }

    /// When the sound stops, while it plays.
    pub closed spec fn deadline(self) -> Option<u64> {
        self.sound_deadline
    }

    /// The sound is reported as playing exactly when it has a deadline, and the pin is only
    /// high while the sound plays.
    pub open spec fn wf(self) -> bool {
        &&& self.sounding() == self.deadline() is Some
        &&& self.pin_on() ==> self.sounding()
    }

    /// The task's state at start: pin low, nothing playing.
    pub fn new() -> (r: Rtds)
        ensures
            !r.pin_on(),
            !r.sounding(),
            r.deadline() is None,
            r.wf(),
    {
        Rtds { pin_on: false, sounding: false, sound_deadline: None }
    }

    /// Drives the pin high, unless shutdown is open: then the car can't drive, so the pin is
    /// not turned on and stays as it was.
    fn set_pin(&mut self, shutdown_closed: bool)
        ensures
            final(self).pin_on() == (shutdown_closed || old(self).pin_on()),
            final(self).sounding() == old(self).sounding(),
            final(self).deadline() == old(self).deadline(),
    {
        if !shutdown_closed {
            return;
        }
        self.pin_on = true;
    }

    /// Drives the pin low.
    fn clear_pin(&mut self)
        ensures
            !final(self).pin_on(),
            final(self).sounding() == old(self).sounding(),
            final(self).deadline() == old(self).deadline(),
    {
        self.pin_on = false;
    }

    fn set_sound_deadline(&mut self, deadline: Option<u64>)
        ensures
            final(self).deadline() == deadline,
            final(self).sounding() == deadline is Some,
            final(self).pin_on() == old(self).pin_on(),
    {
        self.sound_deadline = deadline;
        self.sounding = deadline.is_some();
    }

    /// Handles a command received at `now`.
    ///
    /// `Sound` drives the pin high if shutdown is closed (with shutdown open the pin is not
    /// turned on and keeps its level) and plays until `now` plus the sound's duration;
    /// `Cancel` drives the pin low and stops the sound. Shutdown is checked every time the
    /// pin would be turned on, so the sound never starts with shutdown open.
    pub fn handle_command(&mut self, command: RtdsCommand, shutdown_closed: bool, now: u64)
        requires
            now + rtds_duration_ticks() <= u64::MAX,
        ensures
            final(self).pin_on() == pin_after(old(self).pin_on(), RtdsEvent::Command(command), shutdown_closed),
            command == RtdsCommand::Sound ==> final(self).deadline() == Some((now + rtds_duration_ticks()) as u64),
            command == RtdsCommand::Cancel ==> final(self).deadline() is None,
            final(self).wf(),
    {
        match command {
            RtdsCommand::Sound => {
                self.set_pin(shutdown_closed);
                let duration = millis_to_ticks(RTDS_DURATION_MS);
                self.set_sound_deadline(Some(now + duration));
            },
            RtdsCommand::Cancel => {
                self.clear_pin();
                self.set_sound_deadline(None);
            },
        }
    }

    /// The sound is over: drives the pin low and clears the deadline.
    pub fn handle_sound_deadline(&mut self)
        ensures
            !final(self).pin_on(),
            final(self).deadline() is None,
            final(self).wf(),
    {
        self.clear_pin();
        self.set_sound_deadline(None);
    }

    /// Handles whatever woke the task at `now`.
    pub fn handle_event(&mut self, event: RtdsEvent, shutdown_closed: bool, now: u64)
        requires
            now + rtds_duration_ticks() <= u64::MAX,
        ensures
            final(self).pin_on() == pin_after(old(self).pin_on(), event, shutdown_closed),
            event == RtdsEvent::Command(RtdsCommand::Sound)
                ==> final(self).deadline() == Some((now + rtds_duration_ticks()) as u64),
            event != RtdsEvent::Command(RtdsCommand::Sound) ==> final(self).deadline() is None,
            final(self).wf(),
    {
        match event {
            RtdsEvent::Command(command) => self.handle_command(command, shutdown_closed, now),
            RtdsEvent::DeadlineReached => self.handle_sound_deadline(),
        }
    }

    /// The deadline the task waits for besides the next command, while the sound plays.
    pub fn sound_deadline(&self) -> (d: Option<u64>)
        ensures
            d == self.deadline(),
    {
        self.sound_deadline
    }
}

/// Whether the RTDS pin is high right now.
pub fn is_pin_on(rtds: &Rtds) -> (on: bool)
    ensures
        on == rtds.pin_on(),
{
    rtds.pin_on
}

/// Whether the sound is playing.
pub fn is_sounding(rtds: &Rtds) -> (s: bool)
    ensures
        s == rtds.sounding(),
{
    rtds.sounding
}

} // verus!
