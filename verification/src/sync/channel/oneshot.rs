//! A channel that carries exactly one value from one producer to one
//! consumer.
//!
//! The block below is what the two sides share. The consumer owns it: once
//! the consumer is gone the block is empty and sending reports failure. The
//! producer only refers to it: once the producer is gone without having
//! sent, the consumer resolves to "no value".

use crate::task::Poll;
use std::task::Waker;
use vstd::prelude::*;

verus! {

/// The mathematical content of the shared block.
pub struct OneshotState<T> {
    /// The value that has been sent and not yet received.
    pub value: Option<T>,
    /// The wake capability of the suspended consumer.
    pub waker: Option<Waker>,
    /// Whether the producer is alive: it has neither sent nor been dropped.
    pub sender: bool,
    /// Whether the consumer is alive.
    pub receiver: bool,
}

impl<T> OneshotState<T> {
    /// The block of a new channel: empty, with both sides alive.
    pub open spec fn fresh() -> OneshotState<T> {
        OneshotState { value: None, waker: None, sender: true, receiver: true }
    }

    /// A block whose consumer is gone holds nothing.
    pub open spec fn wf(self) -> bool {
        !self.receiver ==> self.value is None && self.waker is None
    }

    /// What sending `v` reports: success while the consumer is alive, and
    /// the value handed back once it is gone.
    pub open spec fn send_result(self, v: T) -> Result<(), T> {
        if self.receiver {
            Ok(())
        } else {
            Err(v)
        }
    }

    /// The block after the producer has sent `v`: the producer is used up;
    /// while the consumer is alive the value is stored and the waiter woken.
    pub open spec fn sent(self, v: T) -> OneshotState<T> {
        if self.receiver {
            OneshotState { value: Some(v), waker: None, sender: false, receiver: true }
        } else {
            OneshotState { value: self.value, waker: self.waker, sender: false, receiver: false }
        }
    }

    /// The block after the producer has been dropped without sending: the
    /// waiter is woken.
    pub open spec fn sender_dropped(self) -> OneshotState<T> {
        OneshotState { value: self.value, waker: None, sender: false, receiver: self.receiver }
    }

    /// The block after the consumer has been dropped: it holds nothing.
    pub open spec fn receiver_dropped(self) -> OneshotState<T> {
        OneshotState { value: None, waker: None, sender: self.sender, receiver: false }
    }

    /// What a poll of the consumer returns: the value if there is one, "no
    /// value" if there is none and the producer is gone, and otherwise
    /// nothing yet.
    pub open spec fn poll_outcome(self) -> Poll<Option<T>> {
        match self.value {
            Some(x) => Poll::Ready(Some(x)),
            None => if self.sender {
                Poll::Pending
            } else {
                Poll::Ready(None)
            },
        }
    }

    /// What a poll that never reports "no value" returns.
    pub open spec fn poll_unchecked_outcome(self) -> Poll<T> {
        match self.value {
            Some(x) => Poll::Ready(x),
            None => Poll::Pending,
        }
    }

    /// The block after the value, if any, has been taken out.
    pub open spec fn taken(self) -> OneshotState<T> {
        OneshotState { value: None, waker: self.waker, sender: self.sender, receiver: self.receiver }
    }

    /// The block after the consumer has suspended, leaving `held` to be
    /// woken with.
    pub open spec fn parked(self, held: Waker) -> OneshotState<T> {
        OneshotState {
            value: self.value,
            waker: Some(held),
            sender: self.sender,
            receiver: self.receiver,
        }
    }

    /// `after` is the block after a poll with `waker` that returned
    /// `pending`: a poll that resolves takes the value out and leaves the
    /// rest; one that suspends leaves a copy of `waker` to be woken with.
    pub open spec fn polled(self, pending: bool, waker: Waker, after: OneshotState<T>) -> bool {
        if pending {
            after.waker matches Some(held) && cloned(waker, held) && after == self.parked(held)
        } else {
            after == self.taken()
        }
    }
}

/// The block that the producer and the consumer of a oneshot channel share.
pub struct Channel<T> {
    value: Option<T>,
    waker: Option<Waker>,
    sender: bool,
    receiver: bool,
}

impl<T> View for Channel<T> {
    type V = OneshotState<T>;

    closed spec fn view(&self) -> OneshotState<T> {
        OneshotState {
            value: self.value,
            waker: self.waker,
            sender: self.sender,
            receiver: self.receiver,
        }
    }
}

/// Creates a new oneshot channel: an empty block with both sides alive.
pub fn channel<T>() -> (block: Channel<T>)
    ensures
        block@ == OneshotState::<T>::fresh(),
        block@.wf(),
{
    Channel { value: None, waker: None, sender: true, receiver: true }
}

impl<T> Channel<T> {
    /// Sends `v` and uses the producer up. While the consumer is alive the
    /// value is stored and a suspended consumer is woken; once the consumer
    /// is gone the value is discarded.
    pub fn send(&mut self, v: T)
        requires
            old(self)@.wf(),
            old(self)@.sender,
        ensures
            final(self)@.wf(),
            final(self)@ == old(self)@.sent(v),
    {
        let _ = self.try_send(v);
    }

    /// Sends `v` and uses the producer up. While the consumer is alive the
    /// value is stored and a suspended consumer is woken; once the consumer
    /// is gone the value is handed back.
    pub fn try_send(&mut self, v: T) -> (result: Result<(), T>)
        requires
            old(self)@.wf(),
            old(self)@.sender,
        ensures
            final(self)@.wf(),
            final(self)@ == old(self)@.sent(v),
            result == old(self)@.send_result(v),
    {
        self.sender = false;
        if self.receiver {
            self.value = Some(v);
            match self.waker.take() {
                Some(waker) => waker.wake(),
                None => {},
            }
            Ok(())
        } else {
            Err(v)
        }
    }

    /// Drops the producer without sending, and wakes a suspended consumer so
    /// that it sees that nothing will come.
    pub fn drop_sender(&mut self)
        requires
            old(self)@.wf(),
            old(self)@.sender,
        ensures
            final(self)@.wf(),
            final(self)@ == old(self)@.sender_dropped(),
    {
        self.sender = false;
        match self.waker.take() {
            Some(waker) => waker.wake(),
            None => {},
        }
    }

    /// Drops the consumer: what the block holds is discarded, and nothing
    /// sent later is kept.
    pub fn drop_receiver(&mut self)
        requires
            old(self)@.receiver,
        ensures
            final(self)@.wf(),
            final(self)@ == old(self)@.receiver_dropped(),
    {
        self.receiver = false;
        self.value = None;
        self.waker = None;
    }

    /// Whether a value is waiting to be received.
    pub fn is_available(&self) -> (available: bool)
        ensures
            available == (self@.value is Some),
    {
        self.value.is_some()
    }

    /// Whether the consumer is alive.
    pub fn has_receiver(&self) -> (alive: bool)
        ensures
            alive == self@.receiver,
    {
        self.receiver
    }

    /// Whether the producer is alive.
    pub fn has_sender(&self) -> (alive: bool)
        ensures
            alive == self@.sender,
    {
        self.sender
    }

    /// Polls the consumer once: returns the value if one has been sent,
    /// "no value" if the producer is gone without having sent, and otherwise
    /// leaves a copy of `waker` in the block and suspends.
    pub fn poll(&mut self, waker: &Waker) -> (outcome: Poll<Option<T>>)
        requires
            old(self)@.wf(),
            old(self)@.receiver,
        ensures
            final(self)@.wf(),
            outcome == old(self)@.poll_outcome(),
            old(self)@.polled(outcome is Pending, *waker, final(self)@),
    {
        match self.value.take() {
            Some(x) => Poll::Ready(Some(x)),
            None => {
                if !self.sender {
                    Poll::Ready(None)
                } else {
                    self.waker = Some(waker.clone());
                    Poll::Pending
                }
            },
        }
    }

    /// Polls the consumer once without looking at the producer: returns the
    /// value if one has been sent, and otherwise leaves a copy of `waker` in
    /// the block and suspends, even if the producer is gone.
    pub fn poll_unchecked(&mut self, waker: &Waker) -> (outcome: Poll<T>)
        requires
            old(self)@.wf(),
            old(self)@.receiver,
        ensures
            final(self)@.wf(),
            outcome == old(self)@.poll_unchecked_outcome(),
            old(self)@.polled(outcome is Pending, *waker, final(self)@),
    {
        match self.value.take() {
            Some(x) => Poll::Ready(x),
            None => {
                self.waker = Some(waker.clone());
                Poll::Pending
            },
        }
    }
}

/// A value that is sent into a new channel is exactly what the consumer
/// resolves to, and the block is empty afterwards.
pub proof fn lemma_send_then_receive<T>(v: T)
    ensures
        OneshotState::<T>::fresh().send_result(v) is Ok,
        OneshotState::<T>::fresh().sent(v).poll_outcome() == Poll::Ready(Some(v)),
        OneshotState::<T>::fresh().sent(v).taken().value is None,
{
}

/// A channel yields its value once: after the consumer has received it,
/// every later poll reports "no value".
pub proof fn lemma_received_once<T>(state: OneshotState<T>)
    requires
        !state.sender,
        state.value is Some,
    ensures
        state.poll_outcome() == Poll::Ready(state.value),
        state.taken().poll_outcome() == Poll::<Option<T>>::Ready(None),
        state.taken().taken() == state.taken(),
{
}

/// A consumer whose producer is dropped before any send resolves to "no
/// value": it does not suspend, whether or not it had suspended before.
pub proof fn lemma_dropped_sender_resolves<T>(state: OneshotState<T>)
    requires
        state.sender,
        state.value is None,
    ensures
        state.poll_outcome() is Pending,
        state.sender_dropped().poll_outcome() == Poll::<Option<T>>::Ready(None),
        state.sender_dropped().waker is None,
{
}

} // verus!
