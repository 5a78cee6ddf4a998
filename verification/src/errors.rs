//! Failure kinds of the transport client.

use vstd::prelude::*;

verus! {

/// Everything a client operation can fail with.
///
/// Variants that wrap a `u32` carry the operating-system error code that the
/// embedding program observed on the failing call.
#[derive(Clone, Copy, Debug, PartialEq, Eq, Structural)]
pub enum IpcError {
    /// Every candidate pipe slot failed to open; terminal failure of `connect`.
    NoPipeAvailable,
    /// An I/O operation was begun while no handle was held.
    HandleNotInitialized,
    /// A write failed with an error that is not the transient "closing" one.
    WriteFailed(u32),
    /// Every write try failed with the transient "closing" error.
    WriteExhausted,
    /// The single blocking read failed; never retried.
    ReadFailed(u32),
    /// Flushing buffered writes during `close` failed.
    FlushFailed(u32),
}

/// Outcome of a plain operating-system call that either succeeds or fails
/// with an error code.
#[derive(Clone, Copy, Debug, PartialEq, Eq, Structural)]
pub enum OsStatus {
    Success,
    Failure(u32),
}

} // verus!
