//! Single-threaded cooperative concurrency primitives and reactive state cells.

pub mod dom;
pub mod flag;
pub mod state;
pub mod sync;
pub mod task;
pub mod time;
