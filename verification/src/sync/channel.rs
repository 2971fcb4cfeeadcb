//! Channels that carry values from producers to one consumer on the same
//! thread.

pub mod mpsc;
pub mod oneshot;
