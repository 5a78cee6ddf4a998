use discord_ipc::client::DiscordIpcClient;
use discord_ipc::errors::IpcError;
use discord_ipc::scan::ScanState;
use discord_ipc::write_op::{WriteEvent, WriteOutcome, WritePhase};

fn connected(handle: usize) -> DiscordIpcClient {
    let mut c = DiscordIpcClient::new("id").unwrap();
    let r = c.connect_finish(ScanState::Done(0, handle));
    assert_eq!(r, Ok(()));
    c
}

#[test]
fn write_begins_with_exactly_one_revalidation_before_any_attempt() {
    let mut c = DiscordIpcClient::new("id").unwrap();
    assert!(!c.connected);
    let mut op = c.write_start(&[1, 2, 3]);
    assert!(matches!(op.phase, WritePhase::Ensuring));
    assert_eq!(op.tries_left, 3);
    op.step(&mut c, WriteEvent::Ensured(Ok(())));
    assert!(matches!(op.phase, WritePhase::Attempting));
    assert_eq!(op.tries_left, 3);
}

#[test]
fn write_succeeds_on_a_clean_first_attempt() {
    let mut c = connected(7);
    let mut op = c.write_start(&[9, 8]);
    op.step(&mut c, WriteEvent::Ensured(Ok(())));
    op.step(&mut c, WriteEvent::Attempted(WriteOutcome::WroteAll));
    assert!(matches!(op.phase, WritePhase::Finished(Ok(()))));
    assert_eq!(op.tries_left, 3);
}

#[test]
fn write_recovers_after_one_closing_error_with_one_retry_consumed() {
    let mut c = connected(7);
    let mut op = c.write_start(&[1, 2, 3]);
    op.step(&mut c, WriteEvent::Ensured(Ok(())));

    // First attempt fails with the transient closing error.
    op.step(&mut c, WriteEvent::Attempted(WriteOutcome::ClosingPipe));
    assert!(matches!(op.phase, WritePhase::Ensuring));
    assert_eq!(op.tries_left, 2);
    assert!(!c.connected);

    // The re-validation releases the stale handle and redials once.
    let mut reconnects: u32 = 0;
    assert_eq!(c.ensure_start(), discord_ipc::client::EnsureStep::Release(7));
    let r = c.connect_finish(ScanState::Done(1, 8));
    assert_eq!(r, Ok(()));
    reconnects += 1;
    op.step(&mut c, WriteEvent::Ensured(Ok(())));

    // Second attempt succeeds.
    op.step(&mut c, WriteEvent::Attempted(WriteOutcome::WroteAll));
    assert!(matches!(op.phase, WritePhase::Finished(Ok(()))));
    assert_eq!(op.tries_left, 2);
    assert_eq!(reconnects, 1);
    assert_eq!(c.pipe_handle, Some(8));
}

#[test]
fn write_exhausts_after_three_consecutive_closing_errors() {
    let mut c = connected(7);
    let mut op = c.write_start(&[1]);
    let mut attempts: u32 = 0;
    op.step(&mut c, WriteEvent::Ensured(Ok(())));
    loop {
        match op.phase {
            WritePhase::Attempting => {
                attempts += 1;
                op.step(&mut c, WriteEvent::Attempted(WriteOutcome::ClosingPipe));
            }
            WritePhase::Ensuring => {
                op.step(&mut c, WriteEvent::Ensured(Ok(())));
            }
            WritePhase::Finished(r) => {
                assert_eq!(r, Err(IpcError::WriteExhausted));
                break;
            }
        }
    }
    assert_eq!(attempts, 3);
    assert_eq!(op.tries_left, 0);
}

#[test]
fn write_surfaces_any_other_error_at_once() {
    let mut c = connected(7);
    let mut op = c.write_start(&[1]);
    op.step(&mut c, WriteEvent::Ensured(Ok(())));
    op.step(&mut c, WriteEvent::Attempted(WriteOutcome::WriteError(5)));
    assert!(matches!(op.phase, WritePhase::Finished(Err(IpcError::WriteFailed(5)))));
    assert_eq!(op.tries_left, 3);
}

#[test]
fn write_propagates_a_revalidation_failure_immediately() {
    let mut c = DiscordIpcClient::new("id").unwrap();
    let mut op = c.write_start(&[1]);
    op.step(&mut c, WriteEvent::Ensured(Err(IpcError::NoPipeAvailable)));
    assert!(matches!(op.phase, WritePhase::Finished(Err(IpcError::NoPipeAvailable))));
}

#[test]
fn write_fails_when_the_handle_vanished_before_the_attempt() {
    let mut c = connected(7);
    let mut op = c.write_start(&[1]);
    op.step(&mut c, WriteEvent::Ensured(Ok(())));
    op.step(&mut c, WriteEvent::NoHandle);
    assert!(matches!(
        op.phase,
        WritePhase::Finished(Err(IpcError::HandleNotInitialized))
    ));
}

#[test]
fn write_carries_the_payload_unchanged_through_every_step() {
    let data: Vec<u8> = vec![0, 255, 42, 1, 2, 3];
    let mut c = connected(7);
    let mut op = c.write_start(&data);
    assert_eq!(op.data, data);
    op.step(&mut c, WriteEvent::Ensured(Ok(())));
    assert_eq!(op.data, data);
    op.step(&mut c, WriteEvent::Attempted(WriteOutcome::ClosingPipe));
    assert_eq!(op.data, data);
    op.step(&mut c, WriteEvent::Ensured(Ok(())));
    op.step(&mut c, WriteEvent::Attempted(WriteOutcome::WroteAll));
    assert_eq!(op.data, data);
    assert!(matches!(op.phase, WritePhase::Finished(Ok(()))));
}
