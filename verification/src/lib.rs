//! Waiting for readiness on many descriptors at once.
//!
//! The library holds what such a wait is made of: the descriptor set that
//! says which descriptors to watch and, afterwards, which of them are ready;
//! the timeout in the form of each of the two wait calls; the pointers that
//! stand for sets and timeouts that may be absent; and the meaning of the
//! value that a wait call returns. The blocking call itself is left to the
//! caller.

pub mod fd_set;
pub mod timeout;
pub mod wait;

pub use fd_set::{FdSet, FD_SETSIZE};
pub use timeout::{make_timespec, make_timeval, TimeSpec, TimeVal};
pub use wait::{to_fdset_ptr, to_ptr, wait_outcome, OsError, Ptr};
