//! The transport client: a single owned pipe handle and the state around it.
//!
//! The client never performs an operating-system call itself.  Each
//! operation is split into decision steps with exact contracts; the
//! embedding program performs the call a step asks for and feeds the
//! outcome back in.  Handles are carried as plain values.

use vstd::prelude::*;
use crate::errors::{IpcError, OsStatus};
use crate::scan::ScanState;

verus! {

/// The opcode of the application-level "close" control message the peer
/// expects as an orderly-disconnect notice.  The numeric value is dictated
/// by the remote protocol.
pub const CLOSE_OPCODE: u8 = 2;

/// What the embedding program must do next while re-validating the
/// connection (see [`DiscordIpcClient::ensure_start`]).
#[derive(Clone, Copy, Debug, PartialEq, Eq, Structural)]
pub enum EnsureStep {
    /// Attempt a zero-length write on the given handle and report whether it
    /// succeeded through [`DiscordIpcClient::ensure_on_probe`].
    Probe(usize),
    /// Release the given stale handle, then run a connect scan and hand its
    /// result to [`DiscordIpcClient::connect_finish`].
    Release(usize),
    /// Run a connect scan and hand its result to
    /// [`DiscordIpcClient::connect_finish`].
    Scan,
    /// The held connection is live; nothing needs doing.
    Healthy,
}

/// The client.  It owns at most one pipe handle; `connected` says whether
/// that handle is believed live.
pub struct DiscordIpcClient {
    /// Identifies the caller to the remote peer; opaque to this crate.
    pub client_id: String,
    /// Whether the client currently believes it holds a live connection.
    pub connected: bool,
    /// The owned pipe handle, if any.  A disconnected client may still hold
    /// a handle between `close` and the final release.
    pub pipe_handle: Option<usize>,
}

impl DiscordIpcClient {
    /// A connected client always holds a handle.
    pub open spec fn wf(&self) -> bool {
        self.connected ==> self.pipe_handle is Some
    }

    /// Creates a client for `client_id`, disconnected and holding no handle.
    pub fn new(client_id: &str) -> (r: Result<DiscordIpcClient, IpcError>)
        ensures
            r matches Ok(c) && c.client_id@ == client_id@ && !c.connected
                && c.pipe_handle is None && c.wf(),
    {
        Ok(DiscordIpcClient {
            client_id: client_id.to_owned(),
            connected: false,
            pipe_handle: None,
        })
    }

    /// Read access to the client identifier.
    pub fn get_client_id(&self) -> (r: &String)
        ensures
            r@ == self.client_id@,
    {
        &self.client_id
    }

    /// The health verdict on the held handle, given the outcome of the
    /// zero-length probe write: valid exactly when a handle is held and the
    /// probe succeeded.  With no handle held the verdict is invalid whatever
    /// `probe_ok` says, so no probe need be attempted then.
    pub fn is_pipe_valid(&self, probe_ok: bool) -> (r: bool)
        ensures
            r == (self.pipe_handle is Some && probe_ok),
    {
        match self.pipe_handle {
            Some(_) => probe_ok,
            None => false,
        }
    }

    /// Begins re-validation of the connection.  A client that believes
    /// itself connected has its handle probed; a disconnected client goes
    /// straight to a fresh connect scan, first giving up any stale handle
    /// it still holds.
    pub fn ensure_start(&mut self) -> (r: EnsureStep)
        requires
            old(self).wf(),
        ensures
            final(self).wf(),
            final(self).client_id@ == old(self).client_id@,
            old(self).connected ==> r == EnsureStep::Probe(old(self).pipe_handle->0)
                && *final(self) == *old(self),
            !old(self).connected && old(self).pipe_handle is Some
                ==> r == EnsureStep::Release(old(self).pipe_handle->0)
                    && !final(self).connected && final(self).pipe_handle is None,
            !old(self).connected && old(self).pipe_handle is None
                ==> r == EnsureStep::Scan && *final(self) == *old(self),
    {
        if self.connected {
            match self.pipe_handle {
                Some(h) => EnsureStep::Probe(h),
                None => EnsureStep::Scan,
            }
        } else {
            match self.pipe_handle {
                Some(h) => {
                    self.pipe_handle = None;
                    EnsureStep::Release(h)
                }
                None => EnsureStep::Scan,
            }
        }
    }

    /// Takes the probe outcome for a client that believed itself connected.
    /// A live probe leaves the client as it is; a failed probe means the
    /// peer has gone, so the stale handle is given up for release and a
    /// fresh connect scan follows.
    pub fn ensure_on_probe(&mut self, probe_ok: bool) -> (r: EnsureStep)
        requires
            old(self).wf(),
            old(self).connected,
        ensures
            final(self).wf(),
            final(self).client_id@ == old(self).client_id@,
            probe_ok ==> r == EnsureStep::Healthy && *final(self) == *old(self),
            !probe_ok ==> r == EnsureStep::Release(old(self).pipe_handle->0)
                && !final(self).connected && final(self).pipe_handle is None,
    {
        if probe_ok {
            EnsureStep::Healthy
        } else {
            self.connected = false;
            match self.pipe_handle {
                Some(h) => {
                    self.pipe_handle = None;
                    EnsureStep::Release(h)
                }
                None => EnsureStep::Scan,
            }
        }
    }

    /// Applies the result of a completed connect scan.  The first slot that
    /// opened becomes the held connection; an exhausted scan leaves the
    /// client disconnected with no handle and fails with
    /// [`IpcError::NoPipeAvailable`].
    pub fn connect_finish(&mut self, s: ScanState) -> (r: Result<(), IpcError>)
        requires
            old(self).wf(),
            old(self).pipe_handle is None,
            !(s is Trying),
        ensures
            final(self).wf(),
            final(self).client_id@ == old(self).client_id@,
            s matches ScanState::Done(_, handle) ==> r == Ok::<(), IpcError>(())
                && final(self).connected && final(self).pipe_handle == Some(handle),
            s is Exhausted ==> r == Err::<(), IpcError>(IpcError::NoPipeAvailable)
                && *final(self) == *old(self) && !final(self).connected
                && final(self).pipe_handle is None,
    {
        match s {
            ScanState::Done(_, handle) => {
                self.pipe_handle = Some(handle);
                self.connected = true;
                Ok(())
            }
            _ => Err(IpcError::NoPipeAvailable),
        }
    }

    /// Begins a read: names the handle the single blocking read must use, or
    /// fails with [`IpcError::HandleNotInitialized`] when no handle is held,
    /// in which case no operating-system call is to be attempted.
    pub fn read_start(&self) -> (r: Result<usize, IpcError>)
        ensures
            self.pipe_handle matches Some(h) ==> r == Ok::<usize, IpcError>(h),
            self.pipe_handle is None
                ==> r == Err::<usize, IpcError>(IpcError::HandleNotInitialized),
    {
        match self.pipe_handle {
            Some(h) => Ok(h),
            None => Err(IpcError::HandleNotInitialized),
        }
    }

    /// Maps the outcome of the single blocking read.  A read failure is
    /// always surfaced to the caller as [`IpcError::ReadFailed`]; there is
    /// no retry and no reconnection.
    pub fn read_finish(&self, status: OsStatus) -> (r: Result<(), IpcError>)
        ensures
            status == OsStatus::Success ==> r == Ok::<(), IpcError>(()),
            status matches OsStatus::Failure(code)
                ==> r == Err::<(), IpcError>(IpcError::ReadFailed(code)),
    {
        match status {
            OsStatus::Success => Ok(()),
            OsStatus::Failure(code) => Err(IpcError::ReadFailed(code)),
        }
    }

    /// Finishes `close`, after the best-effort "close" control message
    /// (opcode [`CLOSE_OPCODE`], empty payload) has been sent through the
    /// message-framing layer and — when a handle is held — the flush outcome
    /// is in.  `flush` must be given exactly when a handle is held.  A
    /// successful flush (or holding no handle at all) leaves the client
    /// disconnected, the handle still held for the final release; a flush
    /// failure is surfaced and changes nothing.
    pub fn close_finish(&mut self, flush: Option<OsStatus>) -> (r: Result<(), IpcError>)
        requires
            old(self).wf(),
            (flush is Some) == (old(self).pipe_handle is Some),
        ensures
            final(self).wf(),
            final(self).client_id@ == old(self).client_id@,
            final(self).pipe_handle == old(self).pipe_handle,
            flush matches Some(OsStatus::Failure(code))
                ==> r == Err::<(), IpcError>(IpcError::FlushFailed(code))
                    && *final(self) == *old(self),
            (flush is None || flush == Some(OsStatus::Success))
                ==> r == Ok::<(), IpcError>(()) && !final(self).connected,
    {
        match flush {
            Some(OsStatus::Failure(code)) => Err(IpcError::FlushFailed(code)),
            _ => {
                self.connected = false;
                Ok(())
            }
        }
    }

    /// Gives up the held handle, if any, for the embedding program to
    /// release unconditionally.  Used on teardown, after `close` has run;
    /// it has no failure mode and leaves the client disconnected and empty.
    pub fn release_handle(&mut self) -> (r: Option<usize>)
        ensures
            r == old(self).pipe_handle,
            final(self).client_id@ == old(self).client_id@,
            !final(self).connected,
            final(self).pipe_handle is None,
            final(self).wf(),
    {
        self.connected = false;
        let h = self.pipe_handle;
        self.pipe_handle = None;
        h
    }
}

} // verus!
