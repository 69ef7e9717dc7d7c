use sendme_gui::{ClipboardOutcome, SendmeApp, SessionError, SessionState, TransferMode};

fn same_state(a: &SessionState, b: &SessionState) -> bool {
    a.running == b.running
        && a.ticket_ready == b.ticket_ready
        && a.ticket == b.ticket
        && a.output == b.output
        && a.process_live == b.process_live
        && a.status_message == b.status_message
        && a.session == b.session
        && a.kind == b.kind
}

fn running_send(path: &str) -> (SendmeApp, u64) {
    let mut app = SendmeApp::new();
    let req = app.start_send(path, true).ok().unwrap();
    assert!(app.on_spawned(req.session));
    (app, req.session)
}

fn running_receive(ticket: &str) -> (SendmeApp, u64) {
    let mut app = SendmeApp::new();
    let req = app.start_receive(ticket).ok().unwrap();
    assert!(app.on_spawned(req.session));
    (app, req.session)
}

#[test]
fn new_app_is_idle_with_empty_status() {
    let app = SendmeApp::new();
    let s = app.snapshot();
    assert!(!s.running);
    assert!(!s.ticket_ready);
    assert!(!s.process_live);
    assert!(!app.is_sending());
    assert_eq!(s.ticket, "");
    assert_eq!(s.output, "");
    assert_eq!(s.status_message, "");
    assert_eq!(app.mode(), TransferMode::Send);
}

#[test]
fn default_app_is_idle_and_ready() {
    let app = SendmeApp::default();
    let s = app.snapshot();
    assert!(!s.running);
    assert!(!s.ticket_ready);
    assert!(!s.process_live);
    assert_eq!(s.ticket, "");
    assert_eq!(s.output, "");
    assert_eq!(s.status_message, "Ready");
    assert_eq!(app.mode(), TransferMode::Send);
}

#[test]
fn stop_twice_when_idle_is_idempotent() {
    let mut app = SendmeApp::new();
    assert!(!app.stop());
    let first = app.snapshot();
    assert!(!app.stop());
    let second = app.snapshot();
    assert!(same_state(&first, &second));
}

#[test]
fn stop_twice_on_a_session_is_idempotent() {
    let (mut app, id) = running_send("/tmp/file.txt");
    app.on_line(id, "sendme receive ABC");
    assert!(app.stop());
    let first = app.snapshot();
    assert!(!app.stop());
    let second = app.snapshot();
    assert!(same_state(&first, &second));
}

#[test]
fn ticket_is_extracted_exactly_and_only_once() {
    let (mut app, id) = running_send("/tmp/file.txt");
    app.on_line(id, "sendme receive ABCDEF123");
    let s = app.snapshot();
    assert!(s.ticket_ready);
    assert_eq!(s.ticket, "ABCDEF123");
    app.on_line(id, "sendme receive ZZZZZZZ");
    let s = app.snapshot();
    assert!(s.ticket_ready);
    assert_eq!(s.ticket, "ABCDEF123");
    assert_eq!(s.output, "\nsendme receive ABCDEF123\nsendme receive ZZZZZZZ");
}

#[test]
fn ticket_keeps_spaces_after_the_marker() {
    let (mut app, id) = running_send("/tmp/file.txt");
    app.on_line(id, "sendme receive  two words ");
    assert_eq!(app.snapshot().ticket, " two words ");
}

#[test]
fn line_without_the_exact_marker_publishes_nothing() {
    let (mut app, id) = running_send("/tmp/file.txt");
    app.on_line(id, "sendme receive");
    app.on_line(id, "Sendme receive XYZ");
    app.on_line(id, " sendme receive XYZ");
    let s = app.snapshot();
    assert!(!s.ticket_ready);
    assert_eq!(s.ticket, "");
}

#[test]
fn guard_keeps_the_send_panel_while_a_ticket_is_published() {
    let (mut app, id) = running_send("/tmp/file.txt");
    app.on_line(id, "sendme receive XYZ987");
    assert!(app.refresh());
    assert!(!app.select_mode(TransferMode::Receive));
    assert_eq!(app.mode(), TransferMode::Send);
}

#[test]
fn refresh_pulls_the_window_back_to_send() {
    let (mut app, id) = running_send("/tmp/file.txt");
    assert!(app.select_mode(TransferMode::Receive));
    assert_eq!(app.mode(), TransferMode::Receive);
    app.on_line(id, "sendme receive XYZ987");
    assert!(app.refresh());
    assert_eq!(app.mode(), TransferMode::Send);
}

#[test]
fn panel_switch_is_free_without_a_published_ticket() {
    let (mut app, _id) = running_send("/tmp/file.txt");
    assert!(!app.refresh());
    assert!(app.select_mode(TransferMode::Receive));
    assert_eq!(app.mode(), TransferMode::Receive);
    assert!(app.select_mode(TransferMode::Send));
    assert_eq!(app.mode(), TransferMode::Send);
}

#[test]
fn missing_path_is_rejected_without_spawn() {
    let mut app = SendmeApp::new();
    let r = app.start_send("/does/not/exist", false);
    assert!(matches!(r, Err(SessionError::MissingPath)));
    let s = app.snapshot();
    assert!(!s.running);
    assert!(!s.process_live);
    assert!(s.status_message.contains("/does/not/exist"));
    assert!(s.status_message.contains("Error"));
}

#[test]
fn start_send_missing_tmp_path() {
    let mut app = SendmeApp::new();
    let r = app.start_send("/tmp/missing", false);
    assert!(r.is_err());
    let s = app.snapshot();
    assert!(!s.running);
    assert_eq!(s.status_message, "Error: Path '/tmp/missing' does not exist");
}

#[test]
fn output_keeps_the_order_of_lines() {
    let (mut app, id) = running_receive("XYZ987");
    app.on_line(id, "L1");
    app.on_line(id, "L2");
    app.on_line(id, "L3");
    assert_eq!(app.snapshot().output, "\nL1\nL2\nL3");
}

#[test]
fn teardown_signals_a_live_process_once() {
    let (mut app, _id) = running_send("/tmp/file.txt");
    assert!(app.teardown());
    let s = app.snapshot();
    assert!(!s.process_live);
    assert!(!s.running);
    assert!(!app.teardown());
    assert!(!app.stop());
}

#[test]
fn teardown_when_idle_signals_nothing() {
    let mut app = SendmeApp::new();
    assert!(!app.teardown());
}

#[test]
fn send_session_spawns_and_publishes_ticket() {
    let mut app = SendmeApp::new();
    let req = app.start_send("/tmp/file.txt", true).ok().unwrap();
    assert_eq!(req.subcommand, "send");
    assert_eq!(req.argument, "/tmp/file.txt");
    assert_eq!(app.snapshot().status_message, "Sending /tmp/file.txt...");
    assert!(app.on_spawned(req.session));
    assert!(app.snapshot().process_live);
    app.on_line(req.session, "sendme receive XYZ987");
    let s = app.snapshot();
    assert!(s.ticket_ready);
    assert_eq!(s.ticket, "XYZ987");
    app.refresh();
    assert!(!app.select_mode(TransferMode::Receive));
    assert_eq!(app.mode(), TransferMode::Send);
}

#[test]
fn receive_session_succeeds_on_exit_code_zero() {
    let mut app = SendmeApp::new();
    let req = app.start_receive("XYZ987").ok().unwrap();
    assert_eq!(req.subcommand, "receive");
    assert_eq!(req.argument, "XYZ987");
    assert_eq!(app.snapshot().status_message, "Receiving file...");
    assert!(app.on_spawned(req.session));
    app.on_exit(req.session, Some(0));
    let s = app.snapshot();
    assert!(!s.running);
    assert!(!s.process_live);
    assert_eq!(s.status_message, "Transfer complete");
}

#[test]
fn receive_session_fails_on_exit_code_one() {
    let (mut app, id) = running_receive("XYZ987");
    app.on_exit(id, Some(1));
    let s = app.snapshot();
    assert!(!s.running);
    assert!(s.status_message.contains("Error"));
    assert!(s.status_message.contains('1'));
    assert_eq!(s.status_message, "Error: receive failed with exit code 1");
}

#[test]
fn receive_exit_codes_are_written_in_decimal() {
    let (mut app, id) = running_receive("T");
    app.on_exit(id, Some(255));
    assert_eq!(app.snapshot().status_message, "Error: receive failed with exit code 255");
    let (mut app, id) = running_receive("T");
    app.on_exit(id, Some(-3));
    assert_eq!(app.snapshot().status_message, "Error: receive failed with exit code -3");
    let (mut app, id) = running_receive("T");
    app.on_exit(id, Some(i32::MIN));
    assert_eq!(
        app.snapshot().status_message,
        "Error: receive failed with exit code -2147483648"
    );
    let (mut app, id) = running_receive("T");
    app.on_exit(id, Some(1000));
    assert_eq!(app.snapshot().status_message, "Error: receive failed with exit code 1000");
}

#[test]
fn receive_exit_without_code_is_a_failure() {
    let (mut app, id) = running_receive("XYZ987");
    app.on_exit(id, None);
    let s = app.snapshot();
    assert!(!s.running);
    assert_eq!(s.status_message, "Error: receive failed (exit code unknown)");
}

#[test]
fn stop_ends_an_active_send_session() {
    let (mut app, id) = running_send("/tmp/file.txt");
    app.on_line(id, "progress");
    app.on_line(id, "sendme receive XYZ987");
    assert!(app.stop());
    let s = app.snapshot();
    assert!(!s.running);
    assert!(!s.ticket_ready);
    assert!(!s.process_live);
    assert_eq!(s.output, "");
    assert_eq!(s.status_message, "Transfer stopped");
}

#[test]
fn stop_when_idle_is_a_quiet_no_op() {
    let mut app = SendmeApp::new();
    assert!(!app.stop());
    let s = app.snapshot();
    assert!(!s.running);
    assert_eq!(s.status_message, "Transfer stopped");
}

#[test]
fn second_start_while_running_is_busy() {
    let (mut app, id) = running_send("/tmp/file.txt");
    let r = app.start_receive("XYZ");
    assert!(matches!(r, Err(SessionError::Busy)));
    let r = app.start_send("/tmp/other", true);
    assert!(matches!(r, Err(SessionError::Busy)));
    let s = app.snapshot();
    assert!(s.running);
    assert_eq!(s.session, id);
    assert_eq!(s.status_message, "Error: a transfer is already running");
}

#[test]
fn empty_ticket_is_rejected() {
    let mut app = SendmeApp::new();
    let r = app.start_receive("");
    assert!(matches!(r, Err(SessionError::EmptyTicket)));
    let s = app.snapshot();
    assert!(!s.running);
    assert_eq!(s.status_message, "Error: enter a ticket first");
}

#[test]
fn spawn_failure_returns_to_idle() {
    let mut app = SendmeApp::new();
    let req = app.start_send("/tmp/file.txt", true).ok().unwrap();
    app.on_spawn_failed(req.session, "permission denied");
    let s = app.snapshot();
    assert!(!s.running);
    assert!(!s.process_live);
    assert_eq!(s.status_message, "Error: failed to start the transfer: permission denied");
    assert!(app.start_receive("XYZ").is_ok());
}

#[test]
fn process_spawned_after_stop_is_not_kept() {
    let mut app = SendmeApp::new();
    let req = app.start_send("/tmp/file.txt", true).ok().unwrap();
    assert!(!app.stop());
    assert!(!app.on_spawned(req.session));
    assert!(!app.snapshot().process_live);
}

#[test]
fn lines_of_an_earlier_session_are_ignored() {
    let (mut app, old_id) = running_send("/tmp/a");
    app.stop();
    app.on_line(old_id, "late line");
    assert_eq!(app.snapshot().output, "");
    let req = app.start_receive("XYZ").ok().unwrap();
    assert_ne!(req.session, old_id);
    app.on_spawned(req.session);
    app.on_line(old_id, "stale");
    app.on_line(req.session, "fresh");
    assert_eq!(app.snapshot().output, "\nfresh");
}

#[test]
fn exit_after_stop_changes_nothing() {
    let (mut app, id) = running_receive("XYZ987");
    app.stop();
    let before = app.snapshot();
    app.on_exit(id, Some(1));
    assert!(same_state(&before, &app.snapshot()));
}

#[test]
fn receive_session_never_publishes_a_ticket() {
    let (mut app, id) = running_receive("XYZ987");
    app.on_line(id, "sendme receive ABC");
    let s = app.snapshot();
    assert!(!s.ticket_ready);
    assert_eq!(s.output, "\nsendme receive ABC");
}

#[test]
fn new_send_session_clears_output_and_ticket() {
    let (mut app, id) = running_receive("XYZ987");
    app.on_line(id, "done");
    app.on_exit(id, Some(0));
    let req = app.start_send("/tmp/file.txt", true).ok().unwrap();
    let s = app.snapshot();
    assert!(s.running);
    assert_eq!(s.output, "");
    assert_eq!(s.ticket, "");
    assert_eq!(s.kind, TransferMode::Send);
    assert_eq!(s.session, req.session);
}

#[test]
fn failed_termination_is_reported() {
    let (mut app, _id) = running_send("/tmp/file.txt");
    assert!(app.stop());
    app.on_kill_failed("no such process");
    let s = app.snapshot();
    assert!(!s.process_live);
    assert_eq!(s.status_message, "Error: failed to stop the process: no such process");
}

#[test]
fn clipboard_outcomes_set_the_status() {
    let mut app = SendmeApp::new();
    app.on_clipboard(ClipboardOutcome::Copied);
    assert_eq!(app.snapshot().status_message, "Ticket copied to clipboard");
    app.on_clipboard(ClipboardOutcome::CopyFailed);
    assert_eq!(app.snapshot().status_message, "Error: failed to copy to clipboard");
    app.on_clipboard(ClipboardOutcome::Unavailable);
    assert_eq!(app.snapshot().status_message, "Error: clipboard not available");
}

#[test]
fn stop_after_completed_receive_keeps_output() {
    let (mut app, id) = running_receive("XYZ987");
    app.on_line(id, "received file.txt");
    app.on_exit(id, Some(0));
    let before = app.snapshot();
    assert!(!app.stop());
    let after = app.snapshot();
    assert_eq!(after.output, "\nreceived file.txt");
    assert_eq!(after.output, before.output);
    assert_eq!(after.ticket, before.ticket);
    assert_eq!(after.running, before.running);
    assert_eq!(after.ticket_ready, before.ticket_ready);
    assert_eq!(after.process_live, before.process_live);
    assert_eq!(after.session, before.session);
    assert_eq!(after.status_message, "Transfer stopped");
}
