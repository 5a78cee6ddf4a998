//! The connect scan: probing the candidate pipe slots in ascending order.
//!
//! The scan is a small state machine.  While it is in [`ScanState::Trying`],
//! the embedding program attempts to open the pipe named by the current slot
//! (see [`crate::path::pipe_path`]) and feeds the outcome back through
//! [`scan_step`].  The first successful open wins; when every slot has
//! failed the scan ends in [`ScanState::Exhausted`].

use vstd::prelude::*;
use crate::path::SLOT_COUNT;

verus! {

/// Outcome of one attempt by the embedding program to open a candidate pipe.
/// A successful open hands over the operating-system handle as a plain value.
#[derive(Clone, Copy, Debug, PartialEq, Eq, Structural)]
pub enum OpenOutcome {
    Opened(usize),
    OpenFailed,
}

/// State of the connect scan.
///
/// `Trying(slot)` asks the embedding program to open the pipe at `slot`;
/// `Done(slot, handle)` records the first slot that opened, with its handle;
/// `Exhausted` means every candidate slot failed to open.
#[derive(Clone, Copy, Debug, PartialEq, Eq, Structural)]
pub enum ScanState {
    Trying(u8),
    Done(u8, usize),
    Exhausted,
}

/// A scan state never names a slot outside the candidate range.
pub open spec fn scan_wf(s: ScanState) -> bool {
    match s {
        ScanState::Trying(slot) => slot < SLOT_COUNT,
        ScanState::Done(slot, _) => slot < SLOT_COUNT,
        ScanState::Exhausted => true,
    }
}

/// What one step of the scan does: a successful open at the current slot
/// finishes the scan with that slot's handle; a failed open moves on to the
/// next slot, or exhausts the scan when the last slot has failed.
pub open spec fn scan_step_spec(s: ScanState, o: OpenOutcome) -> ScanState {
    match s {
        ScanState::Trying(slot) => match o {
            OpenOutcome::Opened(handle) => ScanState::Done(slot, handle),
            OpenOutcome::OpenFailed => if slot + 1 < SLOT_COUNT {
                ScanState::Trying((slot + 1) as u8)
            } else {
                ScanState::Exhausted
            },
        },
        _ => s,
    }
}

/// Begins a scan at the first candidate slot.
pub fn scan_start() -> (r: ScanState)
    ensures
        r == ScanState::Trying(0u8),
{
    ScanState::Trying(0)
}

/// Advances the scan by the outcome of the open attempt at the current slot.
pub fn scan_step(s: ScanState, o: OpenOutcome) -> (r: ScanState)
    requires
        scan_wf(s),
        s is Trying,
    ensures
        r == scan_step_spec(s, o),
        scan_wf(r),
{
    match s {
        ScanState::Trying(slot) => match o {
            OpenOutcome::Opened(handle) => ScanState::Done(slot, handle),
            OpenOutcome::OpenFailed => if slot + 1 < SLOT_COUNT {
                ScanState::Trying(slot + 1)
            } else {
                ScanState::Exhausted
            },
        },
        _ => s,
    }
}

/// `avail[k]` says whether a candidate pipe exists at slot `k`; an open
/// attempt at `k` succeeds exactly when one exists there.
pub open spec fn outcome_matches(o: OpenOutcome, avail: Seq<bool>, slot: int) -> bool {
    match o {
        OpenOutcome::Opened(_) => avail[slot],
        OpenOutcome::OpenFailed => !avail[slot],
    }
}

/// Everything that holds of a scan state reached from the start against the
/// availability `avail`: slots before the current one have all failed, a
/// finished scan sits on the first available slot, and an exhausted scan has
/// seen every slot fail.
pub open spec fn scan_inv(s: ScanState, avail: Seq<bool>) -> bool {
    match s {
        ScanState::Trying(slot) => forall|j: int| 0 <= j < slot ==> !avail[j],
        ScanState::Done(slot, _) => avail[slot as int] && forall|j: int| 0 <= j < slot ==> !avail[j],
        ScanState::Exhausted => forall|j: int| 0 <= j < SLOT_COUNT ==> !avail[j],
    }
}

/// The starting state satisfies the scan invariant.
pub proof fn lemma_scan_start_inv(avail: Seq<bool>)
    ensures
        scan_inv(ScanState::Trying(0u8), avail),
{
}

/// One step of the scan preserves the invariant, provided the outcome that
/// was fed in reflects the availability of the current slot.  A step that
/// keeps scanning moves exactly one slot forward, so a driven scan finishes
/// after at most [`SLOT_COUNT`] attempts.
pub proof fn lemma_scan_step_inv(s: ScanState, o: OpenOutcome, avail: Seq<bool>)
    requires
        avail.len() == SLOT_COUNT,
        scan_wf(s),
        s matches ScanState::Trying(slot),
        scan_inv(s, avail),
        outcome_matches(o, avail, (s->Trying_0) as int),
    ensures
        scan_wf(scan_step_spec(s, o)),
        scan_inv(scan_step_spec(s, o), avail),
        scan_step_spec(s, o) matches ScanState::Trying(next) ==> next == s->Trying_0 + 1,
{
}

/// If exactly one candidate pipe exists, at slot `k`, then a scan that has
/// run to completion succeeded and opened exactly that slot — wherever `k`
/// lies in the scan order.
pub proof fn lemma_scan_finds_unique_slot(s: ScanState, avail: Seq<bool>, k: int)
    requires
        avail.len() == SLOT_COUNT,
        0 <= k < SLOT_COUNT,
        avail[k],
        forall|j: int| 0 <= j < SLOT_COUNT && j != k ==> !avail[j],
        scan_wf(s),
        scan_inv(s, avail),
        !(s is Trying),
    ensures
        s matches ScanState::Done(slot, _) && slot == k,
{
}

/// If no candidate pipe exists at all, a scan that has run to completion
/// ended exhausted: it cannot have opened anything.
pub proof fn lemma_scan_exhausts_when_none(s: ScanState, avail: Seq<bool>)
    requires
        avail.len() == SLOT_COUNT,
        forall|j: int| 0 <= j < SLOT_COUNT ==> !avail[j],
        scan_wf(s),
        scan_inv(s, avail),
        !(s is Trying),
    ensures
        s is Exhausted,
{
}

} // verus!
