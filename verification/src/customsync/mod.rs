//! Synchronisation primitives built on std's locks.
pub mod custom_semaphore;
