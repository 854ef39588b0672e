//! The inbox between the CAN receiver and the state machine: each received frame (or receive
//! timeout) is turned into an optional event and queued; the state machine takes them in order.

use vstd::prelude::*;
use heapless::mpmc::Queue;

use crate::lightning::frames::{classifiable, classify_frame, spec_classify, CanId, FaultframeState};

verus! {

/// Capacity of the inbox.
pub const INBOX_CAPACITY: usize = 32;

/// The inbox: a `heapless` multi-producer multi-consumer queue of optional events with
/// capacity `INBOX_CAPACITY`, first in first out. `None` entries stand for frames (or receive
/// timeouts) that carried no event.
#[verifier::external_body]
pub struct Inbox {
    queue: Queue<Option<FaultframeState>, 32>,
}

/// The entries waiting in the inbox, oldest first.
pub uninterp spec fn inbox_contents(inbox: Inbox) -> Seq<Option<FaultframeState>>;

impl Inbox {
    /// Calls `heapless::mpmc::Queue::new`, which starts empty.
    #[verifier::external_body]
    #[allow(deprecated)]
    fn empty() -> (inbox: Inbox)
        ensures
            inbox_contents(inbox) == Seq::<Option<FaultframeState>>::empty(),
    {
        Inbox { queue: Queue::new() }
    }

    /// A new, empty inbox.
    pub fn new() -> (inbox: Inbox)
        ensures
            inbox_contents(inbox) == Seq::<Option<FaultframeState>>::empty(),
    {
        Inbox::empty()
    }

    /// Calls `heapless::mpmc::Queue::enqueue`: the entry is appended when fewer than the
    /// capacity are queued, and handed back (the queue unchanged) otherwise.
    #[verifier::external_body]
    fn enqueue(&mut self, entry: Option<FaultframeState>) -> (r: Result<(), ()>)
        ensures
            inbox_contents(*old(self)).len() < INBOX_CAPACITY ==> r is Ok
                && inbox_contents(*final(self)) == inbox_contents(*old(self)).push(entry),
            inbox_contents(*old(self)).len() >= INBOX_CAPACITY ==> r is Err
                && inbox_contents(*final(self)) == inbox_contents(*old(self)),
            inbox_contents(*final(self)).len() <= INBOX_CAPACITY,
    {
        match self.queue.enqueue(entry) {
            Ok(()) => Ok(()),
            Err(_) => Err(()),
        }
    }

    /// Calls `heapless::mpmc::Queue::dequeue`: the oldest entry is removed and returned, or
    /// `None` when the queue is empty.
    #[verifier::external_body]
    fn take(&mut self) -> (r: Option<Option<FaultframeState>>)
        ensures
            inbox_contents(*old(self)).len() == 0 ==> r is None
                && inbox_contents(*final(self)) == inbox_contents(*old(self)),
            inbox_contents(*old(self)).len() > 0 ==> r == Some(inbox_contents(*old(self))[0])
                && inbox_contents(*final(self)) == inbox_contents(*old(self)).drop_first(),
    {
        self.queue.dequeue()
    }

    /// Takes the oldest entry out of the inbox, or `None` when it is empty.
    pub fn dequeue(&mut self) -> (r: Option<Option<FaultframeState>>)
        ensures
            inbox_contents(*old(self)).len() == 0 ==> r is None
                && inbox_contents(*final(self)) == inbox_contents(*old(self)),
            inbox_contents(*old(self)).len() > 0 ==> r == Some(inbox_contents(*old(self))[0])
                && inbox_contents(*final(self)) == inbox_contents(*old(self)).drop_first(),
    {
        self.take()
    }

    /// Queues the event a received frame stands for (`None` when it stands for none).
    ///
    /// When the inbox is full the entry is dropped and `Err` returned.
    pub fn deliver_frame(&mut self, id: CanId, data: &[u8]) -> (r: Result<(), ()>)
        requires
            classifiable(id, data@),
        ensures
            inbox_contents(*old(self)).len() < INBOX_CAPACITY ==> r is Ok
                && inbox_contents(*final(self)) == inbox_contents(*old(self)).push(spec_classify(id, data@)),
            inbox_contents(*old(self)).len() >= INBOX_CAPACITY ==> r is Err
                && inbox_contents(*final(self)) == inbox_contents(*old(self)),
    {
        let latest = classify_frame(id, data);
        self.enqueue(latest)
    }

    /// Queues an empty entry for a receive that timed out.
    ///
    /// When the inbox is full the entry is dropped and `Err` returned.
    pub fn deliver_timeout(&mut self) -> (r: Result<(), ()>)
        ensures
            inbox_contents(*old(self)).len() < INBOX_CAPACITY ==> r is Ok
                && inbox_contents(*final(self)) == inbox_contents(*old(self)).push(None),
            inbox_contents(*old(self)).len() >= INBOX_CAPACITY ==> r is Err
                && inbox_contents(*final(self)) == inbox_contents(*old(self)),
    {
        self.enqueue(None)
    }
}

} // verus!
