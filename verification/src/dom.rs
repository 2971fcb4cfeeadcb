//! The parts of the document layer that are plain values.

pub mod event;
pub mod view;
