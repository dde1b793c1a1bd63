//! Errors this core constructs and returns to callers.
//!
//! Transport- and I/O-specific failures are defined and populated by the
//! external transport task; this core only builds the two kinds below.

use vstd::prelude::*;

verus! {

/// Why a caller-supplied request violates a protocol range rule.
#[derive(Clone, Copy, Debug, PartialEq, Eq, Structural)]
pub enum InvalidRequestReason {
    /// A zero-length request is never valid.
    CountOfZero,
    /// The last address of the span does not fit the 16-bit address space.
    AddressOverflow,
    /// The count exceeds the protocol ceiling for the operation class.
    CountTooBigForType,
}

/// Every failure this core reports to a caller.
#[derive(Clone, Copy, Debug, PartialEq, Eq, Structural)]
pub enum Error {
    /// The request was rejected by validation, before any enqueue.
    InvalidRequest(InvalidRequestReason),
    /// The transport task is unreachable: the queue is closed, or a response
    /// handle was dropped without a value.
    Shutdown,
}

} // verus!
