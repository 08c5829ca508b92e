//! The first-in-first-out queue that carries bytes from the inbound relay to
//! the dispatch loop.

use vstd::prelude::*;
use crate::fault::Fault;

verus! {

/// An unbounded FIFO of bytes with any number of producers and one consumer.
///
/// Besides the bytes that wait, the queue keeps two ghost histories: every
/// byte ever accepted, and every byte ever handed to the consumer. They exist
/// only in proofs and say what the queue has done since it was made.
///
/// The queue does no locking of its own. Shared between execution contexts it
/// sits behind a lock, and every operation below runs while the lock is held.
pub struct ByteQueue {
    waiting: Vec<u8>,
    consumer_alive: bool,
    accepted: Ghost<Seq<u8>>,
    handed_out: Ghost<Seq<u8>>,
}

impl View for ByteQueue {
    type V = Seq<u8>;

    /// The bytes that wait, oldest first.
    closed spec fn view(&self) -> Seq<u8> {
        self.waiting@
    }
}

impl ByteQueue {
    /// The consuming end still exists, so `send` succeeds.
    pub closed spec fn is_open(&self) -> bool {
        self.consumer_alive
    }

    /// Every byte that `send` has accepted, in the order of acceptance.
    pub closed spec fn sent(&self) -> Seq<u8> {
        self.accepted@
    }

    /// Every byte that was handed to the consumer, in the order of delivery.
    pub closed spec fn delivered(&self) -> Seq<u8> {
        self.handed_out@
    }

    /// What was accepted is what was delivered followed by what still waits:
    /// nothing is lost, nothing is added and nothing overtakes.
    pub open spec fn wf(&self) -> bool {
        self.sent() == self.delivered() + self@
    }

    /// Makes an empty queue whose consumer exists.
    pub fn new() -> (queue: ByteQueue)
        ensures
            queue.wf(),
            queue.is_open(),
            queue@ == Seq::<u8>::empty(),
            queue.sent() == Seq::<u8>::empty(),
            queue.delivered() == Seq::<u8>::empty(),
    {
        ByteQueue {
            waiting: Vec::new(),
            consumer_alive: true,
            accepted: Ghost(Seq::empty()),
            handed_out: Ghost(Seq::empty()),
        }
    }

    /// Appends one byte behind those that wait. Fails, and changes nothing,
    /// if and only if the consumer is gone.
    pub fn send(&mut self, byte: u8) -> (result: Result<(), Fault>)
        requires
            old(self).wf(),
        ensures
            final(self).wf(),
            final(self).is_open() == old(self).is_open(),
            final(self).delivered() == old(self).delivered(),
            old(self).is_open() ==> result is Ok,
            old(self).is_open() ==> final(self)@ == old(self)@.push(byte),
            old(self).is_open() ==> final(self).sent() == old(self).sent().push(byte),
            !old(self).is_open() ==> result == Err::<(), Fault>(Fault::QueueTeardownFailure),
            !old(self).is_open() ==> final(self)@ == old(self)@,
            !old(self).is_open() ==> final(self).sent() == old(self).sent(),
    {
        if self.consumer_alive {
            self.waiting.push(byte);
            self.accepted = Ghost(self.accepted@.push(byte));
            Ok(())
        } else {
            Err(Fault::QueueTeardownFailure)
        }
    }

    /// Takes everything that waits, oldest first, and leaves the queue empty.
    /// Returns at once with nothing if nothing waits.
    pub fn try_receive_all(&mut self) -> (bytes: Vec<u8>)
        requires
            old(self).wf(),
        ensures
            final(self).wf(),
            bytes@ == old(self)@,
            final(self)@ == Seq::<u8>::empty(),
            final(self).delivered() == old(self).delivered() + bytes@,
            final(self).sent() == old(self).sent(),
            final(self).is_open() == old(self).is_open(),
    {
        let mut bytes: Vec<u8> = Vec::new();
        core::mem::swap(&mut self.waiting, &mut bytes);
        self.handed_out = Ghost(self.handed_out@ + bytes@);
        bytes
    }

    /// Records that the consumer is gone. From now on `send` fails. Bytes that
    /// still wait stay where they are.
    pub fn close(&mut self)
        ensures
            !final(self).is_open(),
            old(self).wf() ==> final(self).wf(),
            final(self)@ == old(self)@,
            final(self).sent() == old(self).sent(),
            final(self).delivered() == old(self).delivered(),
    {
        self.consumer_alive = false;
    }

    /// Number of bytes that wait.
    pub fn len(&self) -> (n: usize)
        ensures
            n == self@.len(),
    {
        self.waiting.len()
    }

    /// Tells whether nothing waits.
    pub fn is_empty(&self) -> (empty: bool)
        ensures
            empty == (self@.len() == 0),
    {
        self.waiting.len() == 0
    }

    /// Tells whether the consumer still exists.
    pub fn consumer_exists(&self) -> (open: bool)
        ensures
            open == self.is_open(),
    {
        self.consumer_alive
    }
}

/// What the consumer has received so far is the beginning of what the
/// producers have sent: the bytes come out in the order in which they went in,
/// none is dropped and none is made up. What is still missing at the consumer
/// is exactly what waits in the queue.
pub proof fn lemma_fifo_order(queue: ByteQueue)
    requires
        queue.wf(),
    ensures
        queue.delivered().is_prefix_of(queue.sent()),
        queue.delivered().len() + queue@.len() == queue.sent().len(),
        forall|i: int|
            0 <= i < queue.delivered().len() ==> queue.delivered()[i] == queue.sent()[i],
        forall|i: int|
            0 <= i < queue@.len() ==> queue@[i] == queue.sent()[queue.delivered().len() + i],
{
}

} // verus!
