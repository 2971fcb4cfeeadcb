//! Coordination between cooperatively scheduled tasks.

pub mod channel;
pub mod contest;
pub mod mutex;
pub mod slots;

pub use mutex::{Mutex, MutexGuard, MutexLockFuture, MutexState};
pub use slots::{SlotTable, Slots, WakerCell};
