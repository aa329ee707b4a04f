//! A live terminal dashboard's core: a shared append-only log with a tail
//! window, the render loop's state machine, and the frame it draws.

pub mod log_store;
pub mod producer;
pub mod render;
pub mod shared_log;
