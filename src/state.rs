use vstd::prelude::*;

use crate::text::{decimal_of, has_prefix};

verus! {

/// Which subcommand a session runs, and which panel the window shows.
#[derive(Clone, Copy, Debug, PartialEq, Eq, Structural)]
pub enum TransferMode {
    Send,
    Receive,
}

/// Why a start request was turned down before anything was spawned.
#[derive(Clone, Copy, Debug, PartialEq, Eq, Structural)]
pub enum SessionError {
    /// A session is still running; it has to be stopped or completed first.
    Busy,
    /// The path to send does not exist.
    MissingPath,
    /// The ticket to receive with is empty.
    EmptyTicket,
}

/// What became of copying the ticket to the clipboard.
#[derive(Clone, Copy, Debug, PartialEq, Eq, Structural)]
pub enum ClipboardOutcome {
    Copied,
    CopyFailed,
    Unavailable,
}

/// The shared record of one transfer session, as the window renders it.
///
/// `process_live` stands for the process handle: it is true while the caller holds a
/// spawned child that has not been terminated or reaped. `session` numbers the sessions,
/// so that events of an earlier process are told apart from those of the current one.
pub struct SessionState {
    pub running: bool,
    pub ticket_ready: bool,
    pub ticket: String,
    pub output: String,
    pub process_live: bool,
    pub status_message: String,
    pub session: u64,
    pub kind: TransferMode,
}

/// The mathematical value of a `SessionState`.
pub struct StateView {
    pub running: bool,
    pub ticket_ready: bool,
    pub ticket: Seq<char>,
    pub output: Seq<char>,
    pub process_live: bool,
    pub status: Seq<char>,
    pub session: u64,
    pub kind: TransferMode,
}

impl View for SessionState {
    type V = StateView;

    open spec fn view(&self) -> StateView {
        StateView {
            running: self.running,
            ticket_ready: self.ticket_ready,
            ticket: self.ticket@,
            output: self.output@,
            process_live: self.process_live,
            status: self.status_message@,
            session: self.session,
            kind: self.kind,
        }
    }
}

/// The session record together with the panel that the window shows.
pub struct AppView {
    pub state: StateView,
    pub mode: TransferMode,
}

impl StateView {
    /// The invariants of a session record: a ticket is published only by a running send
    /// session, and a live process belongs to a running session.
    pub open spec fn wf(self) -> bool {
        &&& self.ticket_ready ==> self.running && self.kind == TransferMode::Send
        &&& self.process_live ==> self.running
    }

    /// A send session whose ticket is published: the window has to stay on the send panel.
    pub open spec fn is_sending(self) -> bool {
        self.running && self.ticket_ready
    }
}

pub open spec fn ticket_marker() -> Seq<char> {
    "sendme receive "@
}

pub open spec fn ready_message() -> Seq<char> {
    "Ready"@
}

pub open spec fn stopped_message() -> Seq<char> {
    "Transfer stopped"@
}

pub open spec fn sending_message(path: Seq<char>) -> Seq<char> {
    "Sending "@ + path + "..."@
}

pub open spec fn receiving_message() -> Seq<char> {
    "Receiving file..."@
}

pub open spec fn missing_path_message(path: Seq<char>) -> Seq<char> {
    "Error: Path '"@ + path + "' does not exist"@
}

pub open spec fn busy_message() -> Seq<char> {
    "Error: a transfer is already running"@
}

pub open spec fn empty_ticket_message() -> Seq<char> {
    "Error: enter a ticket first"@
}

pub open spec fn spawn_failed_message(reason: Seq<char>) -> Seq<char> {
    "Error: failed to start the transfer: "@ + reason
}

pub open spec fn kill_failed_message(reason: Seq<char>) -> Seq<char> {
    "Error: failed to stop the process: "@ + reason
}

pub open spec fn received_message() -> Seq<char> {
    "Transfer complete"@
}

pub open spec fn exit_message(code: Option<i32>) -> Seq<char> {
    match code {
        Some(c) => if c == 0 {
            received_message()
        } else {
            "Error: receive failed with exit code "@ + decimal_of(c as int)
        },
        None => "Error: receive failed (exit code unknown)"@,
    }
}

pub open spec fn clipboard_message(outcome: ClipboardOutcome) -> Seq<char> {
    match outcome {
        ClipboardOutcome::Copied => "Ticket copied to clipboard"@,
        ClipboardOutcome::CopyFailed => "Error: failed to copy to clipboard"@,
        ClipboardOutcome::Unavailable => "Error: clipboard not available"@,
    }
}

pub open spec fn error_message(e: SessionError, input: Seq<char>) -> Seq<char> {
    match e {
        SessionError::Busy => busy_message(),
        SessionError::MissingPath => missing_path_message(input),
        SessionError::EmptyTicket => empty_ticket_message(),
    }
}

/// The record of a freshly opened window: idle, with the status `status`.
pub open spec fn initial_state(status: Seq<char>) -> StateView {
    StateView {
        running: false,
        ticket_ready: false,
        ticket: Seq::empty(),
        output: Seq::empty(),
        process_live: false,
        status,
        session: 0,
        kind: TransferMode::Send,
    }
}

/// The number of the session after `id`, wrapping round at the largest value.
pub open spec fn next_session(id: u64) -> u64 {
    if id == u64::MAX {
        0
    } else {
        (id + 1) as u64
    }
}

/// Why `start_send` turns a request down, if it does.
pub open spec fn send_check(s: StateView, path_exists: bool) -> Option<SessionError> {
    if s.running {
        Some(SessionError::Busy)
    } else if !path_exists {
        Some(SessionError::MissingPath)
    } else {
        None
    }
}

/// Why `start_receive` turns a request down, if it does.
pub open spec fn receive_check(s: StateView, ticket: Seq<char>) -> Option<SessionError> {
    if s.running {
        Some(SessionError::Busy)
    } else if ticket.len() == 0 {
        Some(SessionError::EmptyTicket)
    } else {
        None
    }
}

/// The record after a request to send `path`.
pub open spec fn start_send_step(s: StateView, path: Seq<char>, path_exists: bool) -> StateView {
    match send_check(s, path_exists) {
        Some(e) => StateView { status: error_message(e, path), ..s },
        None => StateView {
            running: true,
            ticket_ready: false,
            ticket: Seq::empty(),
            output: Seq::empty(),
            process_live: false,
            status: sending_message(path),
            session: next_session(s.session),
            kind: TransferMode::Send,
        },
    }
}

/// The record after a request to receive with `ticket`.
pub open spec fn start_receive_step(s: StateView, ticket: Seq<char>) -> StateView {
    match receive_check(s, ticket) {
        Some(e) => StateView { status: error_message(e, ticket), ..s },
        None => StateView {
            running: true,
            ticket_ready: false,
            output: Seq::empty(),
            process_live: false,
            status: receiving_message(),
            session: next_session(s.session),
            kind: TransferMode::Receive,
            ..s
        },
    }
}

/// An event of session `id` concerns the current session while it runs.
pub open spec fn is_current(s: StateView, id: u64) -> bool {
    s.running && s.session == id
}

/// The spawned process of session `id` is kept only while that session is still starting.
pub open spec fn spawn_kept(s: StateView, id: u64) -> bool {
    is_current(s, id) && !s.process_live
}

/// The record after the process of session `id` was spawned.
pub open spec fn spawned_step(s: StateView, id: u64) -> StateView {
    if spawn_kept(s, id) {
        StateView { process_live: true, ..s }
    } else {
        s
    }
}

/// The record after the process of session `id` could not be spawned.
pub open spec fn spawn_failed_step(s: StateView, id: u64, reason: Seq<char>) -> StateView {
    if spawn_kept(s, id) {
        StateView {
            running: false,
            ticket_ready: false,
            status: spawn_failed_message(reason),
            ..s
        }
    } else {
        s
    }
}

/// The ticket that a line of output publishes: what follows the marker, verbatim.
pub open spec fn ticket_of_line(line: Seq<char>) -> Seq<char> {
    line.subrange(ticket_marker().len() as int, line.len() as int)
}

/// The record after one decoded line of output of session `id`.
pub open spec fn line_step(s: StateView, id: u64, line: Seq<char>) -> StateView {
    if !is_current(s, id) {
        s
    } else if s.kind == TransferMode::Send && !s.ticket_ready && has_prefix(
        line,
        ticket_marker(),
    ) {
        StateView {
            output: s.output + "\n"@ + line,
            ticket: ticket_of_line(line),
            ticket_ready: true,
            ..s
        }
    } else {
        StateView { output: s.output + "\n"@ + line, ..s }
    }
}

/// The record after the lines `lines` of session `id`, fed in order.
pub open spec fn lines_step(s: StateView, id: u64, lines: Seq<Seq<char>>) -> StateView
    decreases lines.len(),
{
    if lines.len() == 0 {
        s
    } else {
        line_step(lines_step(s, id, lines.drop_last()), id, lines.last())
    }
}

/// What `lines` add to the output: each line after a line break.
pub open spec fn joined(lines: Seq<Seq<char>>) -> Seq<char>
    decreases lines.len(),
{
    if lines.len() == 0 {
        Seq::empty()
    } else {
        joined(lines.drop_last()) + "\n"@ + lines.last()
    }
}

/// The process of a receive session `id` is reaped only while its handle is still live.
pub open spec fn exit_applies(s: StateView, id: u64) -> bool {
    is_current(s, id) && s.kind == TransferMode::Receive && s.process_live
}

/// The record after the process of receive session `id` exited with `code`.
pub open spec fn exit_step(s: StateView, id: u64, code: Option<i32>) -> StateView {
    if exit_applies(s, id) {
        StateView { running: false, process_live: false, status: exit_message(code), ..s }
    } else {
        s
    }
}

/// The record after a stop. A session that runs or holds a process ends: nothing runs,
/// nothing is published, the output is cleared. With no such session only the status changes.
pub open spec fn stop_step(s: StateView) -> StateView {
    if s.running || s.process_live {
        StateView {
            running: false,
            ticket_ready: false,
            output: Seq::empty(),
            process_live: false,
            status: stopped_message(),
            ..s
        }
    } else {
        StateView { status: stopped_message(), ..s }
    }
}

/// The panel after a refresh: a published send session pulls the window to the send panel.
pub open spec fn refreshed_mode(s: StateView, mode: TransferMode) -> TransferMode {
    if s.is_sending() {
        TransferMode::Send
    } else {
        mode
    }
}

/// A request to show panel `m` is granted unless it would hide a published ticket.
pub open spec fn mode_allowed(s: StateView, m: TransferMode) -> bool {
    !(m == TransferMode::Receive && s.is_sending())
}

/// The panel after a request to show panel `m`.
pub open spec fn selected_mode(s: StateView, mode: TransferMode, m: TransferMode) -> TransferMode {
    if mode_allowed(s, m) {
        m
    } else {
        mode
    }
}

} // verus!
