//! A safety layer over an asynchronous GPU compute stack: device pointers,
//! device- and host-resident buffers, and streams that give queued operations
//! a total order and a synchronization point.
//!
//! Device memory and the command queue are modelled by an explicit in-process
//! device state, so that ownership and stream-ordering rules are enforced by
//! contracts rather than by caller discipline, and so that callers can
//! substitute this state for real hardware in tests.

pub mod buffer;
pub mod context;
pub mod device;
pub mod error;
pub mod ptr;
pub mod stream;
