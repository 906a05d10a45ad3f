//! Transport queue: the bounded single-producer/single-consumer byte
//! queue that bridges the asynchronous receive interrupt and the
//! synchronous main loop.
//!
//! The queue itself is the lock-free ring buffer of the `heapless` crate;
//! its contents are named by an uninterpreted sequence and every call
//! into it goes through a trusted wrapper whose contract states what the
//! crate's source shows.  The capacity invariant, the FIFO law and the
//! byte-level helpers are proved on top of those contracts.

use vstd::prelude::*;

verus! {

/// Number of bytes the transport queue holds at most.  A push beyond
/// this is the fatal overflow condition, never a silent drop.
pub const QUEUE_CAPACITY: usize = 128;

// `heapless` stores at most `N - 1` elements in a `Queue<T, N>`, so the
// underlying ring buffer is declared one slot larger than the capacity.
// Verus refuses a declaration of the queue type itself (its storage
// parameter is bound by a sealed trait), so the ring buffer lives in a
// private field of an opaque struct, and every call into it goes through
// a trusted wrapper below.

/// Bounded FIFO byte queue between the receive event context (producer)
/// and the main control loop (consumer).  Created once at startup; its
/// view is the sequence of unconsumed bytes, oldest first.
#[verifier::external_body]
pub struct TransportQueue {
    inner: heapless::spsc::Queue<u8, 129>,
}

/// The bytes the underlying ring buffer holds, oldest first.
pub uninterp spec fn spsc_queue_bytes(q: TransportQueue) -> Seq<u8>;

/// Relies on `heapless::spsc::Queue::new`: a freshly created queue is
/// empty.
#[verifier::external_body]
fn spsc_new() -> (q: TransportQueue)
    ensures
        spsc_queue_bytes(q) == Seq::<u8>::empty(),
{
    TransportQueue { inner: heapless::spsc::Queue::new() }
}

/// Relies on `heapless::spsc::Queue::enqueue`: the item joins the back of
/// the queue, or comes back in `Err` if the queue already holds its
/// capacity of `N - 1` elements, leaving the contents untouched.
#[verifier::external_body]
fn spsc_enqueue(q: &mut TransportQueue, byte: u8) -> (r: Result<(), u8>)
    ensures
        spsc_queue_bytes(*old(q)).len() < 128 ==> r is Ok
            && spsc_queue_bytes(*final(q)) == spsc_queue_bytes(*old(q)).push(byte),
        spsc_queue_bytes(*old(q)).len() >= 128 ==> r is Err
            && spsc_queue_bytes(*final(q)) == spsc_queue_bytes(*old(q)),
{
    q.inner.enqueue(byte)
}

/// Relies on `heapless::spsc::Queue::dequeue`: the oldest element leaves
/// the front of the queue; an empty queue yields `None` and is untouched.
#[verifier::external_body]
fn spsc_dequeue(q: &mut TransportQueue) -> (r: Option<u8>)
    ensures
        spsc_queue_bytes(*old(q)).len() == 0 ==> r is None
            && spsc_queue_bytes(*final(q)) == spsc_queue_bytes(*old(q)),
        spsc_queue_bytes(*old(q)).len() > 0
            ==> r == Some(spsc_queue_bytes(*old(q))[0])
            && spsc_queue_bytes(*final(q)) == spsc_queue_bytes(*old(q)).skip(1),
{
    q.inner.dequeue()
}

/// Relies on `heapless::spsc::Queue::is_empty`: true iff nothing is
/// queued.
#[verifier::external_body]
fn spsc_is_empty(q: &TransportQueue) -> (r: bool)
    ensures
        r == (spsc_queue_bytes(*q).len() == 0),
{
    q.inner.is_empty()
}

/// Relies on `heapless::spsc::Queue::len`: the number of queued elements.
#[verifier::external_body]
fn spsc_len(q: &TransportQueue) -> (n: usize)
    ensures
        n == spsc_queue_bytes(*q).len(),
{
    q.inner.len()
}

/// Relies on `heapless::spsc::Queue::peek`: the front element, without
/// dequeuing it; `None` iff the queue is empty.
#[verifier::external_body]
fn spsc_peek(q: &TransportQueue) -> (r: Option<u8>)
    ensures
        spsc_queue_bytes(*q).len() == 0 ==> r is None,
        spsc_queue_bytes(*q).len() > 0 ==> r == Some(spsc_queue_bytes(*q)[0]),
{
    q.inner.peek().copied()
}

/// Error of a push into a full queue.  For the protocol this is the
/// fatal overflow condition: the consumer has fallen behind the producer
/// and framing can no longer be trusted.
#[derive(Debug)]
pub struct QueueFull;

impl View for TransportQueue {
    type V = Seq<u8>;

    closed spec fn view(&self) -> Seq<u8> {
        spsc_queue_bytes(*self)
    }
}

impl TransportQueue {
    /// The capacity is never exceeded.
    pub open spec fn wf(&self) -> bool {
        self@.len() <= QUEUE_CAPACITY
    }

    /// An empty transport queue.
    pub fn new() -> (q: TransportQueue)
        ensures
            q@ == Seq::<u8>::empty(),
            q.wf(),
    {
        spsc_new()
    }

    /// Appends a byte at the back, usable from the receive context.  On a
    /// full queue it fails and the contents are exactly as before: a byte
    /// is never dropped or overwritten behind a success.
    pub fn try_push(&mut self, byte: u8) -> (r: Result<(), QueueFull>)
        requires
            old(self).wf(),
        ensures
            final(self).wf(),
            old(self)@.len() < QUEUE_CAPACITY ==> r is Ok
                && final(self)@ == old(self)@.push(byte),
            old(self)@.len() == QUEUE_CAPACITY ==> r is Err
                && final(self)@ == old(self)@,
    {
        match spsc_enqueue(self, byte) {
            Ok(()) => Ok(()),
            Err(_) => Err(QueueFull),
        }
    }

    /// Removes and returns the oldest byte, or `None` on an empty queue.
    pub fn try_pop(&mut self) -> (r: Option<u8>)
        requires
            old(self).wf(),
        ensures
            final(self).wf(),
            old(self)@.len() == 0 ==> r is None && final(self)@ == old(self)@,
            old(self)@.len() > 0 ==> r == Some(old(self)@[0])
                && final(self)@ == old(self)@.skip(1),
    {
        spsc_dequeue(self)
    }

    /// Busy-waits until a byte is available, then returns the oldest one;
    /// usable from the main loop.  In this sequential model nothing can
    /// fill the queue while it spins, so a byte must already be queued.
    pub fn pop_blocking(&mut self) -> (b: u8)
        requires
            old(self).wf(),
            old(self)@.len() > 0,
        ensures
            final(self).wf(),
            b == old(self)@[0],
            final(self)@ == old(self)@.skip(1),
    {
        match self.try_pop() {
            Some(b) => b,
            None => {
                // A byte was already queued, so the pop cannot miss.
                proof {
                    assert(false);
                }
                0
            }
        }
    }

    /// Non-blocking peek used by the main loop to decide whether to
    /// attempt a dispatch this iteration: true iff at least one unpopped
    /// byte exists.
    pub fn has_data(&self) -> (r: bool)
        ensures
            r == (self@.len() > 0),
    {
        !spsc_is_empty(self)
    }

    /// Number of unconsumed bytes.
    pub fn len(&self) -> (n: usize)
        ensures
            n == self@.len(),
    {
        spsc_len(self)
    }

    /// The oldest byte without consuming it, or `None` on an empty queue.
    pub fn peek(&self) -> (r: Option<u8>)
        ensures
            self@.len() == 0 ==> r is None,
            self@.len() > 0 ==> r == Some(self@[0]),
    {
        spsc_peek(self)
    }
}

/// One abstract operation on the transport queue.
pub enum QueueOp {
    Push(u8),
    Pop,
}

/// Folds `ops` over an initially empty queue, mirroring the contracts of
/// `try_push` and `try_pop`: yields the bytes still queued, oldest
/// first, and the bytes popped so far, in pop order.
pub open spec fn spec_run(ops: Seq<QueueOp>) -> (Seq<u8>, Seq<u8>)
    decreases ops.len(),
{
    if ops.len() == 0 {
        (Seq::empty(), Seq::empty())
    } else {
        let prev = spec_run(ops.drop_last());
        match ops.last() {
            QueueOp::Push(b) => (prev.0.push(b), prev.1),
            QueueOp::Pop => (prev.0.skip(1), prev.1.push(prev.0[0])),
        }
    }
}

/// `ops` never pushes into a full queue and never pops an empty one.
pub open spec fn spec_admissible(ops: Seq<QueueOp>) -> bool
    decreases ops.len(),
{
    if ops.len() == 0 {
        true
    } else {
        spec_admissible(ops.drop_last()) && (match ops.last() {
            QueueOp::Push(_) => spec_run(ops.drop_last()).0.len() < QUEUE_CAPACITY,
            QueueOp::Pop => spec_run(ops.drop_last()).0.len() > 0,
        })
    }
}

/// Every byte pushed by `ops`, in push order.
pub open spec fn spec_pushed(ops: Seq<QueueOp>) -> Seq<u8>
    decreases ops.len(),
{
    if ops.len() == 0 {
        Seq::empty()
    } else {
        match ops.last() {
            QueueOp::Push(b) => spec_pushed(ops.drop_last()).push(b),
            QueueOp::Pop => spec_pushed(ops.drop_last()),
        }
    }
}

/// FIFO law: for every admissible interleaving of pushes and pops —
/// pushes never exceeding the capacity, pops never on an empty queue —
/// the bytes popped so far, followed by the bytes still queued, are
/// exactly the pushed bytes in push order.  Bytes therefore leave the
/// queue in the order they entered.
pub proof fn lemma_transport_fifo(ops: Seq<QueueOp>)
    requires
        spec_admissible(ops),
    ensures
        spec_run(ops).1 + spec_run(ops).0 == spec_pushed(ops),
    decreases ops.len(),
{
    if ops.len() == 0 {
        assert(spec_run(ops).1 + spec_run(ops).0 =~= spec_pushed(ops));
    } else {
        let prev = ops.drop_last();
        lemma_transport_fifo(prev);
        let c = spec_run(prev).0;
        let p = spec_run(prev).1;
        match ops.last() {
            QueueOp::Push(b) => {
                assert(spec_run(ops).1 + spec_run(ops).0 =~= (p + c).push(b));
                assert((p + c).push(b) =~= spec_pushed(ops));
            }
            QueueOp::Pop => {
                assert(p.push(c[0]) + c.skip(1) =~= p + c);
            }
        }
    }
}

} // verus!
