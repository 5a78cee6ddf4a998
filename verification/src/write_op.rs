//! The write operation: bounded retry over one transient failure.
//!
//! A write first re-validates the connection, then attempts the raw
//! operating-system write, up to [`WRITE_TRIES`] times in all.  Only the
//! one transient "pipe is closing" failure is retried, each time after a
//! fresh re-validation (which may re-dial a different slot); any other
//! failure, and exhaustion of the budget, are final.  The payload is
//! carried through unchanged: the client frames nothing and never delivers
//! a write partially or twice on success.
//!
//! The operation is a state machine.  [`DiscordIpcClient::write_start`]
//! opens it; the embedding program runs the re-validation steps of
//! [`crate::client`] while the phase is [`WritePhase::Ensuring`], performs
//! the raw write while it is [`WritePhase::Attempting`], and feeds each
//! outcome back through [`WriteOp::step`] until the phase is
//! [`WritePhase::Finished`].

use vstd::prelude::*;
use crate::errors::IpcError;
use crate::client::DiscordIpcClient;

verus! {

/// Total number of raw write tries one `write` call may make.
pub const WRITE_TRIES: u8 = 3;

/// Outcome of one raw operating-system write of the payload.
/// `ClosingPipe` is the one transient failure — the specific error code
/// that means the peer is tearing the pipe down — and the only one retried.
#[derive(Clone, Copy, Debug, PartialEq, Eq, Structural)]
pub enum WriteOutcome {
    WroteAll,
    ClosingPipe,
    WriteError(u32),
}

/// What the write operation is waiting for.
#[derive(Clone, Copy, Debug, PartialEq, Eq)]
pub enum WritePhase {
    /// The connection is being re-validated (and re-established if needed).
    Ensuring,
    /// The raw write of the payload is to be attempted.
    Attempting,
    /// The operation is over, with this result.
    Finished(Result<(), IpcError>),
}

/// An event fed into the write operation by the embedding program.
#[derive(Clone, Copy, Debug, PartialEq, Eq)]
pub enum WriteEvent {
    /// Re-validation finished with this result.
    Ensured(Result<(), IpcError>),
    /// The raw write was to be attempted but no handle was held.
    NoHandle,
    /// The raw write returned this outcome.
    Attempted(WriteOutcome),
}

/// The control state of a write operation: its phase and how many raw
/// write tries remain.
pub struct WriteSt {
    pub phase: WritePhase,
    pub tries_left: u8,
}

/// The control state every write operation starts in: one re-validation
/// first, the full budget of tries ahead.
pub open spec fn write_start_st() -> WriteSt {
    WriteSt { phase: WritePhase::Ensuring, tries_left: WRITE_TRIES }
}

/// What one step of the write operation does.
///
/// While ensuring: success moves on to the attempt, a re-validation error
/// is propagated immediately.  While attempting: a missing handle fails
/// with [`IpcError::HandleNotInitialized`]; a successful raw write finishes
/// the operation; the transient closing failure consumes one try and goes
/// back to re-validation, or finishes with [`IpcError::WriteExhausted`]
/// when it was the last try; any other failure finishes with
/// [`IpcError::WriteFailed`] carrying the code.  Events that do not belong
/// to the current phase change nothing.
pub open spec fn write_step_spec(st: WriteSt, ev: WriteEvent) -> WriteSt {
    match st.phase {
        WritePhase::Ensuring => match ev {
            WriteEvent::Ensured(r) => match r {
                Ok(_) => WriteSt { phase: WritePhase::Attempting, tries_left: st.tries_left },
                Err(e) => WriteSt {
                    phase: WritePhase::Finished(Err(e)),
                    tries_left: st.tries_left,
                },
            },
            _ => st,
        },
        WritePhase::Attempting => match ev {
            WriteEvent::NoHandle => WriteSt {
                phase: WritePhase::Finished(Err(IpcError::HandleNotInitialized)),
                tries_left: st.tries_left,
            },
            WriteEvent::Attempted(o) => match o {
                WriteOutcome::WroteAll => WriteSt {
                    phase: WritePhase::Finished(Ok(())),
                    tries_left: st.tries_left,
                },
                WriteOutcome::ClosingPipe => if st.tries_left > 1 {
                    WriteSt {
                        phase: WritePhase::Ensuring,
                        tries_left: (st.tries_left - 1) as u8,
                    }
                } else {
                    WriteSt {
                        phase: WritePhase::Finished(Err(IpcError::WriteExhausted)),
                        tries_left: 0,
                    }
                },
                WriteOutcome::WriteError(code) => WriteSt {
                    phase: WritePhase::Finished(Err(IpcError::WriteFailed(code))),
                    tries_left: st.tries_left,
                },
            },
            _ => st,
        },
        WritePhase::Finished(_) => st,
    }
}

/// Whether a step retires the connection for a retry: a transient closing
/// failure with at least one try remaining.
pub open spec fn write_retry_disconnect(st: WriteSt, ev: WriteEvent) -> bool {
    st.phase is Attempting && ev == WriteEvent::Attempted(WriteOutcome::ClosingPipe)
        && st.tries_left > 1
}

/// A running write operation: its control state and the payload, held
/// unchanged for every try.
pub struct WriteOp {
    pub phase: WritePhase,
    pub tries_left: u8,
    pub data: Vec<u8>,
}

impl WriteOp {
    /// The control state of this operation.
    pub open spec fn st(&self) -> WriteSt {
        WriteSt { phase: self.phase, tries_left: self.tries_left }
    }

    /// Advances the operation by one event.  The control state moves as
    /// [`write_step_spec`] says and the payload is never altered.  The
    /// client is touched only when a transient closing failure is retried:
    /// the connection is then marked stale so that the following
    /// re-validation releases it and dials afresh.
    pub fn step(&mut self, client: &mut DiscordIpcClient, ev: WriteEvent)
        requires
            old(client).wf(),
        ensures
            final(self).st() == write_step_spec(old(self).st(), ev),
            final(self).data@ == old(self).data@,
            final(client).wf(),
            write_retry_disconnect(old(self).st(), ev)
                ==> !final(client).connected
                    && final(client).pipe_handle == old(client).pipe_handle
                    && final(client).client_id@ == old(client).client_id@,
            !write_retry_disconnect(old(self).st(), ev) ==> *final(client) == *old(client),
    {
        match self.phase {
            WritePhase::Ensuring => match ev {
                WriteEvent::Ensured(r) => match r {
                    Ok(_) => {
                        self.phase = WritePhase::Attempting;
                    }
                    Err(e) => {
                        self.phase = WritePhase::Finished(Err(e));
                    }
                },
                _ => {}
            },
            WritePhase::Attempting => match ev {
                WriteEvent::NoHandle => {
                    self.phase = WritePhase::Finished(Err(IpcError::HandleNotInitialized));
                }
                WriteEvent::Attempted(o) => match o {
                    WriteOutcome::WroteAll => {
                        self.phase = WritePhase::Finished(Ok(()));
                    }
                    WriteOutcome::ClosingPipe => {
                        if self.tries_left > 1 {
                            client.connected = false;
                            self.tries_left = self.tries_left - 1;
                            self.phase = WritePhase::Ensuring;
                        } else {
                            self.tries_left = 0;
                            self.phase = WritePhase::Finished(Err(IpcError::WriteExhausted));
                        }
                    }
                    WriteOutcome::WriteError(code) => {
                        self.phase = WritePhase::Finished(Err(IpcError::WriteFailed(code)));
                    }
                },
                _ => {}
            },
            WritePhase::Finished(_) => {}
        }
    }
}

impl DiscordIpcClient {
    /// Opens a write operation for `data`.  The payload is taken over
    /// unchanged; the operation begins with the one re-validation that
    /// precedes any raw write attempt.
    pub fn write_start(&self, data: &[u8]) -> (op: WriteOp)
        ensures
            op.st() == write_start_st(),
            op.data@ == data@,
    {
        WriteOp {
            phase: WritePhase::Ensuring,
            tries_left: WRITE_TRIES,
            data: vstd::slice::slice_to_vec(data),
        }
    }
}

/// The budget of raw write tries never grows back: each step leaves it
/// where it was or consumes from it.
pub proof fn lemma_write_budget_monotone(st: WriteSt, ev: WriteEvent)
    ensures
        write_step_spec(st, ev).tries_left <= st.tries_left,
{
}

/// A raw write is attempted only straight after a successful
/// re-validation: the operation enters its attempting phase by no other
/// event.  Together with [`write_start_st`] this pins the call order —
/// exactly one re-validation stands before the first attempt, however the
/// client started out.
pub proof fn lemma_write_attempt_only_after_ensure(st: WriteSt, ev: WriteEvent)
    requires
        !(st.phase is Attempting),
    ensures
        write_step_spec(st, ev).phase is Attempting
            ==> (st.phase is Ensuring && ev matches WriteEvent::Ensured(Ok(_))),
{
}

/// A raw write that goes through always ends the operation in success,
/// however many transient closing failures were absorbed before it; and a
/// transient failure with budget to spare never ends the operation — it
/// goes back to re-validation with one try fewer.
pub proof fn lemma_write_recovery(st: WriteSt)
    requires
        st.phase is Attempting,
    ensures
        write_step_spec(st, WriteEvent::Attempted(WriteOutcome::WroteAll)).phase
            == WritePhase::Finished(Ok::<(), IpcError>(())),
        st.tries_left > 1 ==> ({
            let next = write_step_spec(st, WriteEvent::Attempted(WriteOutcome::ClosingPipe));
            next.phase is Ensuring && next.tries_left == st.tries_left - 1
        }),
{
}

/// How many raw write tries a step consumes: one for each transient
/// closing failure, none otherwise.
pub open spec fn write_try_consumed(st: WriteSt, ev: WriteEvent) -> int {
    if st.phase is Attempting && ev == WriteEvent::Attempted(WriteOutcome::ClosingPipe) {
        1
    } else {
        0
    }
}

/// The bookkeeping that ties a write operation's control state to the
/// number of transient closing failures consumed so far: while the
/// operation runs, the remaining budget is the initial budget less the
/// closings seen; it finishes with [`IpcError::WriteExhausted`] exactly on
/// the last of [`WRITE_TRIES`] consecutive closings, and a success leaves
/// at least one failure unconsumed.
pub open spec fn write_consumed_inv(st: WriteSt, closings: int) -> bool {
    match st.phase {
        WritePhase::Finished(r) => {
            &&& (r == Err::<(), IpcError>(IpcError::WriteExhausted)
                ==> closings == WRITE_TRIES)
            &&& (r is Ok ==> 0 <= closings < WRITE_TRIES)
        },
        _ => st.tries_left == WRITE_TRIES - closings && 0 <= closings < WRITE_TRIES,
    }
}

/// A fresh write operation has consumed nothing.
pub proof fn lemma_write_consumed_start()
    ensures
        write_consumed_inv(write_start_st(), 0),
{
}

/// An event a driver can really feed in: re-validation fails only by
/// finding no pipe, so an `Ensured` error never reports exhaustion itself.
pub open spec fn write_event_wf(ev: WriteEvent) -> bool {
    ev matches WriteEvent::Ensured(Err(e)) ==> e == IpcError::NoPipeAvailable
}

/// Each step keeps the bookkeeping of [`write_consumed_inv`].
pub proof fn lemma_write_consumed_step(st: WriteSt, ev: WriteEvent, closings: int)
    requires
        write_consumed_inv(st, closings),
        write_event_wf(ev),
        !(st.phase is Finished),
    ensures
        write_consumed_inv(write_step_spec(st, ev), closings + write_try_consumed(st, ev)),
{
}

/// A write operation reports exhaustion only after the full budget of
/// [`WRITE_TRIES`] raw write tries has each failed with the transient
/// closing error — and a successful write never consumed the whole budget.
pub proof fn lemma_write_exhausted_means_full_budget(st: WriteSt, closings: int)
    requires
        write_consumed_inv(st, closings),
        st.phase == WritePhase::Finished(Err::<(), IpcError>(IpcError::WriteExhausted)),
    ensures
        closings == WRITE_TRIES,
{
}

} // verus!
