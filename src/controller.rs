use vstd::prelude::*;

use crate::state::{
    AppView, ClipboardOutcome, SessionError, SessionState, StateView, TransferMode,
    clipboard_message, exit_step, initial_state, kill_failed_message, line_step, mode_allowed,
    next_session, ready_message, receive_check, refreshed_mode, selected_mode, send_check, spawn_failed_step,
    spawn_kept, spawned_step, start_receive_step, start_send_step, stop_step,
};
use crate::text::{append_decimal, starts_with};

verus! {

/// The process that the caller is asked to spawn for session `session`: this executable,
/// run with `subcommand` and `argument`, its output piped.
pub struct SpawnRequest {
    pub session: u64,
    pub subcommand: String,
    pub argument: String,
}

/// The transfer session orchestrator behind the window.
///
/// It decides; the caller acts. Start requests hand back the process to spawn, the caller
/// reports the spawn, each decoded line of output and the exit of a receive process, and
/// `stop` and `teardown` say whether a live process has to be terminated.
pub struct SendmeApp {
    state: SessionState,
    mode: TransferMode,
}

impl View for SendmeApp {
    type V = AppView;

    closed spec fn view(&self) -> AppView {
        AppView { state: self.state@, mode: self.mode }
    }
}

fn copy_state(s: &SessionState) -> (r: SessionState)
    ensures
        r@ == s@,
{
    SessionState {
        running: s.running,
        ticket_ready: s.ticket_ready,
        ticket: s.ticket.clone(),
        output: s.output.clone(),
        process_live: s.process_live,
        status_message: s.status_message.clone(),
        session: s.session,
        kind: s.kind,
    }
}

fn next_session_number(id: u64) -> (r: u64)
    ensures
        r == next_session(id),
{
    if id == u64::MAX {
        0
    } else {
        id + 1
    }
}

impl Default for SendmeApp {
    /// An idle orchestrator on the send panel, with the status "Ready".
    fn default() -> (r: SendmeApp)
        ensures
            r@ == (AppView { state: initial_state(ready_message()), mode: TransferMode::Send }),
            r.wf(),
    {
        let mut r = SendmeApp::new();
        r.state.status_message = String::from_str("Ready");
        r
    }
}

impl SendmeApp {
    pub open spec fn wf(&self) -> bool {
        self@.state.wf()
    }

    /// An idle orchestrator on the send panel, with an empty status.
    pub fn new() -> (r: SendmeApp)
        ensures
            r@ == (AppView { state: initial_state(Seq::empty()), mode: TransferMode::Send }),
            r.wf(),
    {
        SendmeApp {
            state: SessionState {
                running: false,
                ticket_ready: false,
                ticket: String::new(),
                output: String::new(),
                process_live: false,
                status_message: String::new(),
                session: 0,
                kind: TransferMode::Send,
            },
            mode: TransferMode::Send,
        }
    }

    /// A copy of the session record, for rendering.
    pub fn snapshot(&self) -> (r: SessionState)
        ensures
            r@ == self@.state,
    {
        copy_state(&self.state)
    }

    /// The panel that the window shows.
    pub fn mode(&self) -> (r: TransferMode)
        ensures
            r == self@.mode,
    {
        self.mode
    }

    /// Whether a send session has published its ticket and still runs.
    pub fn is_sending(&self) -> (r: bool)
        ensures
            r == self@.state.is_sending(),
    {
        self.state.running && self.state.ticket_ready
    }

    /// Asks to send `path`; `path_exists` tells whether it exists on the filesystem.
    ///
    /// Turned down while a session runs, or when the path does not exist; the status then
    /// says why and nothing else changes. Otherwise a new send session starts, cleared of
    /// output and ticket, and the process to spawn is handed back.
    pub fn start_send(&mut self, path: &str, path_exists: bool) -> (r: Result<
        SpawnRequest,
        SessionError,
    >)
        requires
            old(self).wf(),
        ensures
            final(self).wf(),
            final(self)@ == (AppView {
                state: start_send_step(old(self)@.state, path@, path_exists),
                mode: old(self)@.mode,
            }),
            match r {
                Ok(req) => {
                    &&& send_check(old(self)@.state, path_exists) is None
                    &&& req.session == final(self)@.state.session
                    &&& req.subcommand@ == "send"@
                    &&& req.argument@ == path@
                },
                Err(e) => send_check(old(self)@.state, path_exists) == Some(e),
            },
    {
        if self.state.running {
            self.state.status_message = String::from_str("Error: a transfer is already running");
            return Err(SessionError::Busy);
        }
        if !path_exists {
            let mut msg = String::from_str("Error: Path '");
            msg.append(path);
            msg.append("' does not exist");
            self.state.status_message = msg;
            return Err(SessionError::MissingPath);
        }
        let mut msg = String::from_str("Sending ");
        msg.append(path);
        msg.append("...");
        let session = next_session_number(self.state.session);
        self.state = SessionState {
            running: true,
            ticket_ready: false,
            ticket: String::new(),
            output: String::new(),
            process_live: false,
            status_message: msg,
            session,
            kind: TransferMode::Send,
        };
        Ok(
            SpawnRequest {
                session,
                subcommand: String::from_str("send"),
                argument: String::from_str(path),
            },
        )
    }

    /// Asks to receive with `ticket`.
    ///
    /// Turned down while a session runs, or when the ticket is empty; the status then says
    /// why and nothing else changes. Otherwise a new receive session starts with its output
    /// cleared, and the process to spawn is handed back.
    pub fn start_receive(&mut self, ticket: &str) -> (r: Result<SpawnRequest, SessionError>)
        requires
            old(self).wf(),
        ensures
            final(self).wf(),
            final(self)@ == (AppView {
                state: start_receive_step(old(self)@.state, ticket@),
                mode: old(self)@.mode,
            }),
            match r {
                Ok(req) => {
                    &&& receive_check(old(self)@.state, ticket@) is None
                    &&& req.session == final(self)@.state.session
                    &&& req.subcommand@ == "receive"@
                    &&& req.argument@ == ticket@
                },
                Err(e) => receive_check(old(self)@.state, ticket@) == Some(e),
            },
    {
        if self.state.running {
            self.state.status_message = String::from_str("Error: a transfer is already running");
            return Err(SessionError::Busy);
        }
        if ticket.unicode_len() == 0 {
            self.state.status_message = String::from_str("Error: enter a ticket first");
            return Err(SessionError::EmptyTicket);
        }
        let session = next_session_number(self.state.session);
        self.state.running = true;
        self.state.ticket_ready = false;
        self.state.output = String::new();
        self.state.process_live = false;
        self.state.status_message = String::from_str("Receiving file...");
        self.state.session = session;
        self.state.kind = TransferMode::Receive;
        Ok(
            SpawnRequest {
                session,
                subcommand: String::from_str("receive"),
                argument: String::from_str(ticket),
            },
        )
    }

    /// Reports that the process of session `session` was spawned. The result tells whether
    /// it is kept; where it is not (the session was stopped meanwhile, or is not the current
    /// one), the caller terminates it.
    pub fn on_spawned(&mut self, session: u64) -> (keep: bool)
        requires
            old(self).wf(),
        ensures
            final(self).wf(),
            keep == spawn_kept(old(self)@.state, session),
            final(self)@ == (AppView {
                state: spawned_step(old(self)@.state, session),
                mode: old(self)@.mode,
            }),
    {
        if self.state.running && self.state.session == session && !self.state.process_live {
            self.state.process_live = true;
            true
        } else {
            false
        }
    }

    /// Reports that the process of session `session` could not be spawned, for `reason`.
    /// A session still starting goes back to idle, with a status that gives the reason.
    pub fn on_spawn_failed(&mut self, session: u64, reason: &str)
        requires
            old(self).wf(),
        ensures
            final(self).wf(),
            final(self)@ == (AppView {
                state: spawn_failed_step(old(self)@.state, session, reason@),
                mode: old(self)@.mode,
            }),
    {
        if self.state.running && self.state.session == session && !self.state.process_live {
            let mut msg = String::from_str("Error: failed to start the transfer: ");
            msg.append(reason);
            self.state.running = false;
            self.state.ticket_ready = false;
            self.state.status_message = msg;
        }
    }

    /// Takes one decoded line of output of session `session`.
    ///
    /// The line is appended to the output after a line break. In a send session that has not
    /// published a ticket yet, a line that begins with "sendme receive " publishes the rest
    /// of the line as the ticket. Lines of a session that is not the current running one
    /// change nothing.
    pub fn on_line(&mut self, session: u64, line: &str)
        requires
            old(self).wf(),
        ensures
            final(self).wf(),
            final(self)@ == (AppView {
                state: line_step(old(self)@.state, session, line@),
                mode: old(self)@.mode,
            }),
    {
        if !(self.state.running && self.state.session == session) {
            return ;
        }
        self.state.output.append("\n");
        self.state.output.append(line);
        if self.state.kind == TransferMode::Send && !self.state.ticket_ready {
            let marker = "sendme receive ";
            if starts_with(line, marker) {
                let from = marker.unicode_len();
                let to = line.unicode_len();
                let rest = line.substring_char(from, to);
                self.state.ticket = String::from_str(rest);
                self.state.ticket_ready = true;
            }
        }
        proof {
            let s = old(self)@.state;
            assert(self.state.output@ =~= s.output + "\n"@ + line@);
        }
    }

    /// Reports that the process of receive session `session` exited, with `code` where the
    /// exit code could be read. While its handle is still live, the session completes: it
    /// stops running and the status says whether the transfer succeeded, with the code
    /// where it did not. Otherwise (stopped meanwhile, or not the current session) nothing
    /// changes.
    pub fn on_exit(&mut self, session: u64, code: Option<i32>)
        requires
            old(self).wf(),
        ensures
            final(self).wf(),
            final(self)@ == (AppView {
                state: exit_step(old(self)@.state, session, code),
                mode: old(self)@.mode,
            }),
    {
        if !(self.state.running && self.state.session == session && self.state.kind
            == TransferMode::Receive && self.state.process_live) {
            return ;
        }
        let msg = match code {
            Some(c) => if c == 0 {
                String::from_str("Transfer complete")
            } else {
                let mut m = String::from_str("Error: receive failed with exit code ");
                append_decimal(&mut m, c);
                m
            },
            None => String::from_str("Error: receive failed (exit code unknown)"),
        };
        self.state.running = false;
        self.state.process_live = false;
        self.state.status_message = msg;
    }

    /// Stops the session. The result tells whether a live process has to be terminated;
    /// either way the handle counts as released and the status says "Transfer stopped". A
    /// session that ran ends: nothing runs, no ticket is published, the output is cleared.
    /// With no session running, nothing but the status changes.
    pub fn stop(&mut self) -> (kill: bool)
        requires
            old(self).wf(),
        ensures
            final(self).wf(),
            kill == old(self)@.state.process_live,
            final(self)@ == (AppView { state: stop_step(old(self)@.state), mode: old(self)@.mode }),
    {
        let kill = self.state.process_live;
        if self.state.running || self.state.process_live {
            self.state.running = false;
            self.state.ticket_ready = false;
            self.state.output = String::new();
            self.state.process_live = false;
        }
        self.state.status_message = String::from_str("Transfer stopped");
        kill
    }

    /// Stops the session when the window closes: as `stop`, so that no process outlives it.
    pub fn teardown(&mut self) -> (kill: bool)
        requires
            old(self).wf(),
        ensures
            final(self).wf(),
            kill == old(self)@.state.process_live,
            final(self)@ == (AppView { state: stop_step(old(self)@.state), mode: old(self)@.mode }),
    {
        self.stop()
    }

    /// Reports that terminating the process failed, for `reason`. The handle stays released.
    pub fn on_kill_failed(&mut self, reason: &str)
        requires
            old(self).wf(),
        ensures
            final(self).wf(),
            final(self)@ == (AppView {
                state: StateView { status: kill_failed_message(reason@), ..old(self)@.state },
                mode: old(self)@.mode,
            }),
    {
        let mut msg = String::from_str("Error: failed to stop the process: ");
        msg.append(reason);
        self.state.status_message = msg;
    }

    /// Records in the status what became of copying the ticket to the clipboard.
    pub fn on_clipboard(&mut self, outcome: ClipboardOutcome)
        requires
            old(self).wf(),
        ensures
            final(self).wf(),
            final(self)@ == (AppView {
                state: StateView { status: clipboard_message(outcome), ..old(self)@.state },
                mode: old(self)@.mode,
            }),
    {
        self.state.status_message = match outcome {
            ClipboardOutcome::Copied => String::from_str("Ticket copied to clipboard"),
            ClipboardOutcome::CopyFailed => String::from_str("Error: failed to copy to clipboard"),
            ClipboardOutcome::Unavailable => String::from_str("Error: clipboard not available"),
        };
    }

    /// Runs at each redraw: while a send session has published its ticket, the window is
    /// pulled back to the send panel. The result is whether that is the case.
    pub fn refresh(&mut self) -> (sending: bool)
        requires
            old(self).wf(),
        ensures
            final(self).wf(),
            sending == old(self)@.state.is_sending(),
            final(self)@ == (AppView {
                state: old(self)@.state,
                mode: refreshed_mode(old(self)@.state, old(self)@.mode),
            }),
    {
        let sending = self.is_sending();
        if sending {
            self.mode = TransferMode::Send;
        }
        sending
    }

    /// Asks to show panel `m`. Turned down, with nothing changed, when it would leave a
    /// published send session for the receive panel; the result tells whether it was granted.
    pub fn select_mode(&mut self, m: TransferMode) -> (granted: bool)
        requires
            old(self).wf(),
        ensures
            final(self).wf(),
            granted == mode_allowed(old(self)@.state, m),
            final(self)@ == (AppView {
                state: old(self)@.state,
                mode: selected_mode(old(self)@.state, old(self)@.mode, m),
            }),
    {
        if m == TransferMode::Receive && self.is_sending() {
            false
        } else {
            self.mode = m;
            true
        }
    }
}

} // verus!
