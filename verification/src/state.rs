//! Cells that hold a value and tell their subscribers about every change.
//!
//! A subscriber is held strongly, and then stays for as long as the cell
//! does, or weakly, and then leaves the cell as soon as it says that it is no
//! longer interested or turns out to be gone. Subscribers are served inside
//! the call that changes the value, strong ones first.
//!
//! A cell is changed through a mutable reference, which the notify pass
//! holds until it is over: a subscriber cannot reach the cell that is
//! notifying it, so a pass is never entered twice.

pub mod cell;
pub mod derived;
pub mod faces;
pub mod pass;
pub mod subscriber;

pub use cell::{lemma_all_subscribers_stay, lemma_one_subscriber_leaves, State, StateView};
pub use derived::{refresh, seed};
pub use faces::{Readable, Writeable};
pub use pass::{examined, leavers, pass, stayers, swept};
pub use subscriber::{offer, Listener, Strong, Weak, WeakListener};
