//! A flag that one side raises and the other side watches.

use vstd::prelude::*;

verus! {

/// The mathematical content of a flag.
pub struct FlagState {
    /// Whether the flag has been raised.
    pub raised: bool,
    /// Whether the watching side is alive.
    pub receiver: bool,
}

impl FlagState {
    /// A flag that is down and watched.
    pub open spec fn fresh() -> FlagState {
        FlagState { raised: false, receiver: true }
    }

    /// The flag after the raising side has sent: it is up if anybody
    /// watches, and as before if nobody does.
    pub open spec fn sent(self) -> FlagState {
        FlagState { raised: self.raised || self.receiver, receiver: self.receiver }
    }

    /// The flag after the watching side has been dropped.
    pub open spec fn receiver_dropped(self) -> FlagState {
        FlagState { raised: self.raised, receiver: false }
    }
}

/// What the raising and the watching side of a flag share.
#[derive(Debug)]
pub struct Flag {
    raised: bool,
    receiver: bool,
}

impl View for Flag {
    type V = FlagState;

    closed spec fn view(&self) -> FlagState {
        FlagState { raised: self.raised, receiver: self.receiver }
    }
}

/// Creates a flag that is down and watched.
pub fn flag() -> (f: Flag)
    ensures
        f@ == FlagState::fresh(),
{
    Flag { raised: false, receiver: true }
}

impl Flag {
    /// Raises the flag if anybody watches it.
    pub fn send(&mut self)
        ensures
            final(self)@ == old(self)@.sent(),
    {
        let _ = self.try_send();
    }

    /// Raises the flag if anybody watches it, and returns whether somebody
    /// does.
    pub fn try_send(&mut self) -> (delivered: bool)
        ensures
            delivered == old(self)@.receiver,
            final(self)@ == old(self)@.sent(),
    {
        if self.receiver {
            self.raised = true;
            true
        } else {
            false
        }
    }

    /// Whether the flag has been raised: what the watching side reads.
    pub fn has_receiver(&self) -> (raised: bool)
        ensures
            raised == self@.raised,
    {
        self.raised
    }

    /// Drops the watching side. A flag that nobody watches stays as it is.
    pub fn drop_receiver(&mut self)
        ensures
            final(self)@ == old(self)@.receiver_dropped(),
    {
        self.receiver = false;
    }
}

} // verus!
