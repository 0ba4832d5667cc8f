//! Bounded in-process channels whose whole coordination state lives in one atomic word.
//!
//! Three flavours share one substrate: a rendezvous channel holding a single value
//! ([`mono`]), a buffered single-producer/single-consumer ring ([`spsc::buffered`]) and a
//! multi-producer/multi-consumer ring ([`mpmc`]).  Every decision a channel takes is a
//! verified function of the state word it observed; the atomics, the slots and the wakers
//! only carry those decisions out.

pub mod atomic_waker;
pub mod error;
pub mod mono;
pub mod mpmc;
pub mod poll;
pub mod slot;
pub mod spsc;
pub mod utils;
