use vstd::prelude::*;

use crate::state::{
    SessionError, StateView, TransferMode, error_message, is_current, joined, line_step,
    lines_step, missing_path_message, refreshed_mode, selected_mode, send_check,
    start_send_step, stop_step, stopped_message, ticket_marker, ticket_of_line,
};
use crate::text::{contains, has_prefix};

verus! {

/// Stopping twice in a row leaves the record as the first stop left it, and the second stop
/// finds no live process to terminate.
pub proof fn lemma_stop_idempotent(s: StateView)
    ensures
        stop_step(stop_step(s)) == stop_step(s),
        !stop_step(s).process_live,
{
}

/// With no session running and no live process, a stop changes nothing but the status,
/// which becomes "Transfer stopped", and asks to terminate nothing.
pub proof fn lemma_idle_stop_keeps_record(s: StateView)
    requires
        !s.running,
        !s.process_live,
    ensures
        stop_step(s) == (StateView { status: stopped_message(), ..s }),
{
}

/// A send session that has not published a ticket publishes, from the line
/// "sendme receive " followed by `t`, exactly `t`.
pub proof fn lemma_ticket_extracted(s: StateView, id: u64, t: Seq<char>)
    requires
        is_current(s, id),
        s.kind == TransferMode::Send,
        !s.ticket_ready,
    ensures
        line_step(s, id, ticket_marker() + t).ticket_ready,
        line_step(s, id, ticket_marker() + t).ticket == t,
{
    let line = ticket_marker() + t;
    assert(line.subrange(0, ticket_marker().len() as int) =~= ticket_marker());
    assert(has_prefix(line, ticket_marker()));
    assert(ticket_of_line(line) =~= t);
}

/// Once a ticket is published, no later line of output changes it or withdraws it.
pub proof fn lemma_ticket_write_once(s: StateView, id: u64, lines: Seq<Seq<char>>)
    requires
        s.ticket_ready,
    ensures
        lines_step(s, id, lines).ticket_ready,
        lines_step(s, id, lines).ticket == s.ticket,
    decreases lines.len(),
{
    if lines.len() > 0 {
        lemma_ticket_write_once(s, id, lines.drop_last());
    }
}

/// While a send session has published its ticket, the window shows the send panel after
/// each refresh, and a request for the receive panel leaves the panel as it was.
pub proof fn lemma_guard_holds(s: StateView, mode: TransferMode)
    requires
        s.is_sending(),
    ensures
        refreshed_mode(s, mode) == TransferMode::Send,
        selected_mode(s, mode, TransferMode::Receive) == mode,
        selected_mode(s, refreshed_mode(s, mode), TransferMode::Receive) == TransferMode::Send,
{
}

/// A path that does not exist is never sent: the request is turned down, no session starts,
/// and an idle record's status names the path after "Error".
pub proof fn lemma_missing_path_rejected(s: StateView, path: Seq<char>)
    ensures
        send_check(s, false) is Some,
        start_send_step(s, path, false).running == s.running,
        start_send_step(s, path, false).process_live == s.process_live,
        start_send_step(s, path, false).session == s.session,
        !s.running ==> send_check(s, false) == Some(SessionError::MissingPath),
        !s.running ==> contains(start_send_step(s, path, false).status, path),
        !s.running ==> contains(start_send_step(s, path, false).status, "Error"@),
{
    let msg = missing_path_message(path);
    let head = "Error: Path '"@;
    let tail = "' does not exist"@;
    assert(msg == head + path + tail);
    assert(error_message(SessionError::MissingPath, path) == msg);
    assert(msg.subrange(head.len() as int, (head.len() + path.len()) as int) =~= path);
    reveal_strlit("Error: Path '");
    reveal_strlit("Error");
    assert(msg.subrange(0, (0 as int) + "Error"@.len()) =~= "Error"@);
}

/// Lines of the current session appear in the output in the order in which they came, each
/// after a line break.
pub proof fn lemma_output_in_order(s: StateView, id: u64, lines: Seq<Seq<char>>)
    requires
        is_current(s, id),
    ensures
        lines_step(s, id, lines).output == s.output + joined(lines),
        is_current(lines_step(s, id, lines), id),
        lines_step(s, id, lines).kind == s.kind,
    decreases lines.len(),
{
    if lines.len() == 0 {
        assert(s.output + joined(lines) =~= s.output);
    } else {
        lemma_output_in_order(s, id, lines.drop_last());
        let before = lines.drop_last();
        assert(s.output + joined(before) + "\n"@ + lines.last() =~= s.output + joined(lines));
    }
}

/// Teardown asks to terminate a process exactly when one is live, and leaves none behind:
/// a second teardown or stop finds nothing to terminate.
pub proof fn lemma_teardown_signals_once(s: StateView)
    ensures
        !stop_step(s).process_live,
        !stop_step(s).running,
        !stop_step(stop_step(s)).process_live,
{
}

} // verus!
