//! Client side of a local named-pipe transport.
//!
//! The crate holds the verified decision logic of the client: which pipe
//! names to probe and in what order, when a held handle counts as live, how
//! a write is retried after a transient "pipe is closing" failure, and how a
//! session is shut down.  Every operating-system call (opening a pipe,
//! writing, reading, flushing, releasing a handle) is performed by the
//! embedding program, which drives the step functions of this crate and
//! feeds their outcomes back in as plain values.

pub mod errors;
pub mod path;
pub mod scan;
pub mod client;
pub mod write_op;

use vstd::prelude::*;

verus! {

} // verus!
