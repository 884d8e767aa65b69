//! A blocking notification primitive (a FIFO wait queue) and a small
//! buffer-backed storage service built on it.
//!
//! The wait queue lets a caller suspend until another caller resumes it,
//! with the mandatory re-check-on-wake loop expressed as an explicit state
//! machine: `prepare` registers a waiter, each resume step re-evaluates the
//! caller's condition and either finishes (removing the waiter's entry) or
//! blocks again.  A channel couples one wait queue with one guarded byte
//! buffer to give blocking-read / wake-on-write semantics, and a device
//! table holds one independent channel per device number.
use vstd::prelude::*;

pub mod buffer;
pub mod channel;
pub mod device;
pub mod wait;

verus! {

/// Failures surfaced by the library.  `Interrupted` is not an error in the
/// usual sense: it reports that a wait was aborted by an external signal
/// before its condition became true, so the caller can retry or give up.
#[derive(Clone, Copy, PartialEq, Eq, Structural, Debug)]
pub enum Error {
    /// Resource creation could not obtain memory.
    AllocationFailed,
    /// Offset/length arithmetic would exceed the representable range.
    Overflow,
    /// A wait was aborted by an external signal.
    Interrupted,
}

} // verus!
