use discord_ipc::client::{DiscordIpcClient, EnsureStep, CLOSE_OPCODE};
use discord_ipc::errors::{IpcError, OsStatus};
use discord_ipc::scan::ScanState;

fn fresh(id: &str) -> DiscordIpcClient {
    DiscordIpcClient::new(id).unwrap()
}

fn connected(id: &str, handle: usize) -> DiscordIpcClient {
    let mut c = fresh(id);
    let r = c.connect_finish(ScanState::Done(0, handle));
    assert_eq!(r, Ok(()));
    c
}

#[test]
fn new_starts_disconnected_with_no_handle() {
    let c = fresh("client-1234");
    assert!(!c.connected);
    assert_eq!(c.pipe_handle, None);
    assert_eq!(c.get_client_id(), "client-1234");
}

#[test]
fn close_opcode_matches_peer_protocol() {
    assert_eq!(CLOSE_OPCODE, 2);
}

#[test]
fn connect_finish_installs_first_opened_slot() {
    let mut c = fresh("id");
    let r = c.connect_finish(ScanState::Done(7, 4242));
    assert_eq!(r, Ok(()));
    assert!(c.connected);
    assert_eq!(c.pipe_handle, Some(4242));
}

#[test]
fn connect_finish_exhausted_reports_no_pipe_and_leaves_no_handle() {
    let mut c = fresh("id");
    let r = c.connect_finish(ScanState::Exhausted);
    assert_eq!(r, Err(IpcError::NoPipeAvailable));
    assert!(!c.connected);
    assert_eq!(c.pipe_handle, None);
}

#[test]
fn pipe_valid_after_connect_and_invalid_after_peer_closes() {
    let c = connected("id", 17);
    assert!(c.is_pipe_valid(true));
    assert!(!c.is_pipe_valid(false));
}

#[test]
fn pipe_invalid_without_handle_whatever_the_probe_says() {
    let c = fresh("id");
    assert!(!c.is_pipe_valid(true));
    assert!(!c.is_pipe_valid(false));
}

#[test]
fn ensure_probes_a_connected_client_and_keeps_a_live_one() {
    let mut c = connected("id", 17);
    assert_eq!(c.ensure_start(), EnsureStep::Probe(17));
    assert_eq!(c.ensure_on_probe(true), EnsureStep::Healthy);
    assert!(c.connected);
    assert_eq!(c.pipe_handle, Some(17));
}

#[test]
fn ensure_releases_a_dead_connection_before_redialling() {
    let mut c = connected("id", 17);
    assert_eq!(c.ensure_start(), EnsureStep::Probe(17));
    assert_eq!(c.ensure_on_probe(false), EnsureStep::Release(17));
    assert!(!c.connected);
    assert_eq!(c.pipe_handle, None);
}

#[test]
fn ensure_scans_straight_away_when_disconnected_and_empty() {
    let mut c = fresh("id");
    assert_eq!(c.ensure_start(), EnsureStep::Scan);
}

#[test]
fn ensure_releases_a_stale_handle_left_by_close() {
    let mut c = connected("id", 29);
    let r = c.close_finish(Some(OsStatus::Success));
    assert_eq!(r, Ok(()));
    assert_eq!(c.ensure_start(), EnsureStep::Release(29));
    assert_eq!(c.pipe_handle, None);
}

#[test]
fn read_without_handle_fails_before_any_os_call() {
    let c = fresh("id");
    assert_eq!(c.read_start(), Err(IpcError::HandleNotInitialized));
}

#[test]
fn read_uses_the_held_handle_and_surfaces_failures() {
    let c = connected("id", 99);
    assert_eq!(c.read_start(), Ok(99));
    assert_eq!(c.read_finish(OsStatus::Success), Ok(()));
    assert_eq!(c.read_finish(OsStatus::Failure(6)), Err(IpcError::ReadFailed(6)));
}

#[test]
fn close_flush_failure_is_surfaced_and_changes_nothing() {
    let mut c = connected("id", 5);
    let r = c.close_finish(Some(OsStatus::Failure(31)));
    assert_eq!(r, Err(IpcError::FlushFailed(31)));
    assert!(c.connected);
    assert_eq!(c.pipe_handle, Some(5));
}

#[test]
fn close_disconnects_but_leaves_the_handle_for_release() {
    let mut c = connected("id", 5);
    let r = c.close_finish(Some(OsStatus::Success));
    assert_eq!(r, Ok(()));
    assert!(!c.connected);
    assert_eq!(c.pipe_handle, Some(5));
}

#[test]
fn close_without_handle_succeeds() {
    let mut c = fresh("id");
    assert_eq!(c.close_finish(None), Ok(()));
    assert!(!c.connected);
}

#[test]
fn close_then_release_never_fails_even_on_a_broken_handle() {
    let mut c = connected("id", 77);
    let r = c.close_finish(Some(OsStatus::Failure(232)));
    assert_eq!(r, Err(IpcError::FlushFailed(232)));
    assert_eq!(c.release_handle(), Some(77));
    assert!(!c.connected);
    assert_eq!(c.pipe_handle, None);
    assert_eq!(c.release_handle(), None);
}
