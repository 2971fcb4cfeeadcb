//! An unbounded queue channel from one or more producers to one consumer.
//!
//! Values are received in the order in which they were enqueued, whichever
//! producer enqueued them. The stream of the consumer ends when the queue is
//! empty and no producer is left, and not before.

use crate::task::Poll;
use std::collections::VecDeque;
use std::task::Waker;
use vstd::prelude::*;

verus! {

/// The mathematical content of the shared block.
pub struct QueueState<T> {
    /// The values that have been sent and not yet received, oldest first.
    pub queue: Seq<T>,
    /// The wake capability of the suspended consumer.
    pub waker: Option<Waker>,
    /// The number of producers that are alive.
    pub senders: nat,
    /// Whether the consumer is alive.
    pub receiver: bool,
}

impl<T> QueueState<T> {
    /// The block of a new channel: empty, with one producer and the
    /// consumer.
    pub open spec fn fresh() -> QueueState<T> {
        QueueState { queue: Seq::empty(), waker: None, senders: 1, receiver: true }
    }

    /// A block whose consumer is gone holds nothing.
    pub open spec fn wf(self) -> bool {
        !self.receiver ==> self.queue.len() == 0 && self.waker is None
    }

    /// What sending `v` reports: success while the consumer is alive, and
    /// the value handed back once it is gone.
    pub open spec fn send_result(self, v: T) -> Result<(), T> {
        if self.receiver {
            Ok(())
        } else {
            Err(v)
        }
    }

    /// The block after a producer has sent `v`: while the consumer is alive
    /// the value is appended and the waiter woken.
    pub open spec fn sent(self, v: T) -> QueueState<T> {
        if self.receiver {
            QueueState {
                queue: self.queue.push(v),
                waker: None,
                senders: self.senders,
                receiver: true,
            }
        } else {
            self
        }
    }

    /// The block after a producer has been copied.
    pub open spec fn sender_cloned(self) -> QueueState<T> {
        QueueState {
            queue: self.queue,
            waker: self.waker,
            senders: self.senders + 1,
            receiver: self.receiver,
        }
    }

    /// The block after a producer has been dropped. When it was the last
    /// one, the waiter is woken.
    pub open spec fn sender_dropped(self) -> QueueState<T> {
        QueueState {
            queue: self.queue,
            waker: if self.senders == 1 {
                None
            } else {
                self.waker
            },
            senders: (self.senders - 1) as nat,
            receiver: self.receiver,
        }
    }

    /// The block after the consumer has been dropped: it holds nothing.
    pub open spec fn receiver_dropped(self) -> QueueState<T> {
        QueueState { queue: Seq::empty(), waker: None, senders: self.senders, receiver: false }
    }

    /// What a poll of the consumer returns: the oldest value if there is
    /// one, the end of the stream if there is none and no producer is left,
    /// and otherwise nothing yet.
    pub open spec fn poll_outcome(self) -> Poll<Option<T>> {
        if self.queue.len() > 0 {
            Poll::Ready(Some(self.queue.first()))
        } else if self.senders == 0 {
            Poll::Ready(None)
        } else {
            Poll::Pending
        }
    }

    /// The block after the oldest value, if any, has been taken out.
    pub open spec fn taken(self) -> QueueState<T> {
        QueueState {
            queue: if self.queue.len() > 0 {
                self.queue.drop_first()
            } else {
                self.queue
            },
            waker: self.waker,
            senders: self.senders,
            receiver: self.receiver,
        }
    }

    /// The block after the consumer has suspended, leaving `held` to be
    /// woken with.
    pub open spec fn parked(self, held: Waker) -> QueueState<T> {
        QueueState {
            queue: self.queue,
            waker: Some(held),
            senders: self.senders,
            receiver: self.receiver,
        }
    }

    /// `after` is the block after a poll with `waker` that returned
    /// `pending`: a poll that resolves takes the oldest value out and leaves
    /// the rest; one that suspends leaves a copy of `waker` to be woken with.
    pub open spec fn polled(self, pending: bool, waker: Waker, after: QueueState<T>) -> bool {
        if pending {
            after.waker matches Some(held) && cloned(waker, held) && after == self.parked(held)
        } else {
            after == self.taken()
        }
    }
}

/// The block that the producers and the consumer of a queue channel share.
pub struct Channel<T> {
    queue: VecDeque<T>,
    waker: Option<Waker>,
    senders: usize,
    receiver: bool,
}

impl<T> View for Channel<T> {
    type V = QueueState<T>;

    closed spec fn view(&self) -> QueueState<T> {
        QueueState {
            queue: self.queue@,
            waker: self.waker,
            senders: self.senders as nat,
            receiver: self.receiver,
        }
    }
}

/// Creates a new queue channel: an empty block with one producer and the
/// consumer.
pub fn channel<T>() -> (block: Channel<T>)
    ensures
        block@ == QueueState::<T>::fresh(),
        block@.wf(),
{
    Channel { queue: VecDeque::new(), waker: None, senders: 1, receiver: true }
}

impl<T> Channel<T> {
    /// Appends `v` to the queue and wakes a suspended consumer. Once the
    /// consumer is gone the value is discarded.
    pub fn send(&mut self, v: T)
        requires
            old(self)@.wf(),
            old(self)@.senders > 0,
        ensures
            final(self)@.wf(),
            final(self)@ == old(self)@.sent(v),
    {
        let _ = self.try_send(v);
    }

    /// Appends `v` to the queue and wakes a suspended consumer. Once the
    /// consumer is gone the value is handed back.
    pub fn try_send(&mut self, v: T) -> (result: Result<(), T>)
        requires
            old(self)@.wf(),
            old(self)@.senders > 0,
        ensures
            final(self)@.wf(),
            final(self)@ == old(self)@.sent(v),
            result == old(self)@.send_result(v),
    {
        if self.receiver {
            self.queue.push_back(v);
            match self.waker.take() {
                Some(waker) => waker.wake(),
                None => {},
            }
            Ok(())
        } else {
            Err(v)
        }
    }

    /// Counts one more producer. Returns `false`, and counts nothing, when
    /// the count cannot grow.
    pub fn clone_sender(&mut self) -> (counted: bool)
        requires
            old(self)@.senders > 0,
        ensures
            counted == (old(self)@.senders < usize::MAX),
            counted ==> final(self)@ == old(self)@.sender_cloned(),
            !counted ==> final(self)@ == old(self)@,
    {
        if self.senders < usize::MAX {
            self.senders = self.senders + 1;
            true
        } else {
            false
        }
    }

    /// Drops one producer. When it was the last one, a suspended consumer is
    /// woken so that it sees the end of the stream.
    pub fn drop_sender(&mut self)
        requires
            old(self)@.wf(),
            old(self)@.senders > 0,
        ensures
            final(self)@.wf(),
            final(self)@ == old(self)@.sender_dropped(),
    {
        self.senders = self.senders - 1;
        if self.senders == 0 {
            match self.waker.take() {
                Some(waker) => waker.wake(),
                None => {},
            }
        }
    }

    /// Drops the consumer: what the block holds is discarded, and nothing
    /// sent later is kept.
    pub fn drop_receiver(&mut self)
        requires
            old(self)@.receiver,
        ensures
            final(self)@.wf(),
            final(self)@ == old(self)@.receiver_dropped(),
    {
        self.receiver = false;
        self.queue.clear();
        self.waker = None;
    }

    /// The number of values waiting to be received.
    pub fn len(&self) -> (n: usize)
        ensures
            n == self@.queue.len(),
    {
        self.queue.len()
    }

    /// The number of producers that are alive.
    pub fn sender_count(&self) -> (n: usize)
        ensures
            n == self@.senders,
    {
        self.senders
    }

    /// Whether the consumer is alive.
    pub fn has_receiver(&self) -> (alive: bool)
        ensures
            alive == self@.receiver,
    {
        self.receiver
    }

    /// Polls the consumer once: returns the oldest value if the queue holds
    /// one, the end of the stream if it is empty and no producer is left,
    /// and otherwise leaves a copy of `waker` in the block and suspends.
    pub fn poll_next(&mut self, waker: &Waker) -> (outcome: Poll<Option<T>>)
        requires
            old(self)@.wf(),
            old(self)@.receiver,
        ensures
            final(self)@.wf(),
            outcome == old(self)@.poll_outcome(),
            old(self)@.polled(outcome is Pending, *waker, final(self)@),
    {
        match self.queue.pop_front() {
            Some(x) => Poll::Ready(Some(x)),
            None => {
                if self.senders == 0 {
                    Poll::Ready(None)
                } else {
                    self.waker = Some(waker.clone());
                    Poll::Pending
                }
            },
        }
    }
}


/// One thing that a producer or the consumer does to the block.
pub enum Op<T> {
    /// A producer sends a value.
    Send(T),
    /// The consumer polls; if it suspends, this is what it leaves to be
    /// woken with.
    Receive(Waker),
    /// A producer is copied.
    CloneSender,
    /// A producer is dropped.
    DropSender,
}

/// The block after `op`, and the value that the consumer received by it, if
/// it received one.
pub open spec fn step<T>(state: QueueState<T>, op: Op<T>) -> (QueueState<T>, Option<T>) {
    match op {
        Op::Send(v) => (state.sent(v), None),
        Op::Receive(held) => match state.poll_outcome() {
            Poll::Ready(Some(x)) => (state.taken(), Some(x)),
            Poll::Ready(None) => (state, None),
            Poll::Pending => (state.parked(held), None),
        },
        Op::CloneSender => (state.sender_cloned(), None),
        Op::DropSender => (state.sender_dropped(), None),
    }
}

/// The block after `ops`, one after the other, and the values that the
/// consumer received by them, in the order in which it received them.
pub open spec fn run<T>(state: QueueState<T>, ops: Seq<Op<T>>) -> (QueueState<T>, Seq<T>)
    decreases ops.len(),
{
    if ops.len() == 0 {
        (state, Seq::empty())
    } else {
        let (before, received) = run(state, ops.drop_last());
        let (after, got) = step(before, ops.last());
        (
            after,
            match got {
                Some(x) => received.push(x),
                None => received,
            },
        )
    }
}

/// The values that `ops` send, in the order in which they are sent.
pub open spec fn sent_values<T>(ops: Seq<Op<T>>) -> Seq<T>
    decreases ops.len(),
{
    if ops.len() == 0 {
        Seq::empty()
    } else {
        match ops.last() {
            Op::Send(v) => sent_values(ops.drop_last()).push(v),
            _ => sent_values(ops.drop_last()),
        }
    }
}

/// However sends, polls, copies and drops of producers follow one another,
/// the consumer receives the values in the order in which they were
/// enqueued: what it has received, followed by what is still queued, is what
/// was queued at first followed by what has been sent since.
pub proof fn lemma_fifo<T>(state: QueueState<T>, ops: Seq<Op<T>>)
    requires
        state.receiver,
    ensures
        run(state, ops).0.receiver,
        run(state, ops).1 + run(state, ops).0.queue == state.queue + sent_values(ops),
    decreases ops.len(),
{
    if ops.len() == 0 {
        assert(Seq::<T>::empty() + state.queue =~= state.queue + Seq::<T>::empty());
    } else {
        lemma_fifo(state, ops.drop_last());
        let (before, received) = run(state, ops.drop_last());
        let (after, got) = step(before, ops.last());
        let sent_before = sent_values(ops.drop_last());
        assert(received + before.queue == state.queue + sent_before);
        match ops.last() {
            Op::Send(v) => {
                assert(received + before.queue.push(v) =~= (received + before.queue).push(v));
                assert((state.queue + sent_before).push(v) =~= state.queue + sent_before.push(v));
            },
            Op::Receive(held) => {
                if before.queue.len() > 0 {
                    assert(received.push(before.queue.first()) + before.queue.drop_first()
                        =~= received + before.queue);
                }
            },
            Op::CloneSender => {},
            Op::DropSender => {},
        }
    }
}

/// The block after the consumer has taken `n` values out.
pub open spec fn drained<T>(state: QueueState<T>, n: nat) -> QueueState<T>
    decreases n,
{
    if n == 0 {
        state
    } else {
        drained(state, (n - 1) as nat).taken()
    }
}

/// After `n` values have been taken out of a queue that holds at least as
/// many, the queue holds the rest.
pub proof fn lemma_drained_queue<T>(state: QueueState<T>, n: nat)
    requires
        n <= state.queue.len(),
    ensures
        drained(state, n).queue == state.queue.skip(n as int),
        drained(state, n).senders == state.senders,
        drained(state, n).receiver == state.receiver,
    decreases n,
{
    if n == 0 {
        assert(state.queue.skip(0) =~= state.queue);
    } else {
        lemma_drained_queue(state, (n - 1) as nat);
        assert(state.queue.skip(n - 1).drop_first() =~= state.queue.skip(n as int));
    }
}

/// Once the last producer is gone, a block with buffered values yields
/// exactly those values, oldest first, and only then the end of the stream:
/// the end never comes while a value remains.
pub proof fn lemma_drains_before_end<T>(state: QueueState<T>, n: nat)
    requires
        state.senders == 0,
        n <= state.queue.len(),
    ensures
        n < state.queue.len() ==> drained(state, n).poll_outcome() == Poll::Ready(
            Some(state.queue[n as int]),
        ),
        n == state.queue.len() ==> drained(state, n).poll_outcome() == Poll::<Option<T>>::Ready(
            None,
        ),
{
    lemma_drained_queue(state, n);
}

} // verus!
