//! A bounded single-producer, single-consumer channel whose sender never
//! blocks and whose receiver waits on a coalescing wakeup signal.
pub mod actor;
pub mod protocol;
pub mod queue;
