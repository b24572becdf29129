//! Clipboard reading and writing: picks the detected command, drives the
//! subprocess, and translates its outcome into a typed result.

use vstd::prelude::*;
use crate::backend::{EnvSignals, ToolAvailability, probe_tools, read_command, write_command, spec_select};
use crate::subprocess::{RunOutcome, run_read_cmd, run_write_cmd, run_succeeded};

verus! {

/// Why a clipboard operation failed: no utility resolves for the active
/// session type, or the chosen subprocess failed (a non-zero exit or a
/// transport-level fault, with the captured text for diagnostics).
#[derive(Clone, Debug, PartialEq, Eq)]
pub enum ClipboardError {
    BackendUnavailable,
    CommandFailed { detail: String },
}

/// The human-readable text of an error, as it is embedded in replies.
pub open spec fn spec_error_text(e: ClipboardError) -> Seq<char> {
    match e {
        ClipboardError::BackendUnavailable => "No clipboard backend available"@,
        ClipboardError::CommandFailed { detail } => detail@,
    }
}

impl ClipboardError {
    /// Renders the error as the text embedded in replies and logs.
    pub fn text(&self) -> (r: String)
        ensures
            r@ == spec_error_text(*self),
    {
        match self {
            ClipboardError::BackendUnavailable => String::from_str("No clipboard backend available"),
            ClipboardError::CommandFailed { detail } => detail.clone(),
        }
    }
}

/// The diagnostic text for a command that ran and exited non-zero. The
/// captured standard error is embedded whole, as its suffix.
pub open spec fn spec_failed_detail(program: Seq<char>, stderr: Seq<char>) -> Seq<char> {
    program + " failed: "@ + stderr
}

/// What interpreting a read invocation yields: on a clean exit, the captured
/// standard output as the content, typed text/plain; otherwise the
/// diagnostic text. A transport fault carries its own message, distinct in
/// shape from a non-zero exit.
pub open spec fn spec_read_result(program: Seq<char>, o: RunOutcome) -> Result<(Seq<char>, Seq<char>), Seq<char>> {
    match o {
        RunOutcome::Completed { exit_ok, stdout, stderr } => {
            if exit_ok {
                Ok((stdout@, "text/plain"@))
            } else {
                Err(spec_failed_detail(program, stderr@))
            }
        },
        RunOutcome::Transport { message } => Err(message@),
    }
}

/// What interpreting a write invocation yields: success on a clean exit,
/// otherwise the same diagnostics as a read.
pub open spec fn spec_write_result(program: Seq<char>, o: RunOutcome) -> Result<(), Seq<char>> {
    match o {
        RunOutcome::Completed { exit_ok, stdout, stderr } => {
            if exit_ok {
                Ok(())
            } else {
                Err(spec_failed_detail(program, stderr@))
            }
        },
        RunOutcome::Transport { message } => Err(message@),
    }
}

/// Translates what a read subprocess did into the operation's result,
/// exactly as `spec_read_result` states it.
pub fn read_result_of(program: &str, outcome: RunOutcome) -> (r: Result<(String, String), ClipboardError>)
    ensures
        r is Ok <==> spec_read_result(program@, outcome) is Ok,
        r matches Ok(q) ==> (spec_read_result(program@, outcome) matches Ok(p) && q.0@ == p.0 && q.1@ == p.1),
        r matches Err(e) ==> (e matches ClipboardError::CommandFailed { detail } && spec_read_result(program@, outcome) matches Err(d) && detail@ == d),
{
    match outcome {
        RunOutcome::Completed { exit_ok, stdout, stderr } => {
            if exit_ok {
                Ok((stdout, String::from_str("text/plain")))
            } else {
                let detail = String::from_str(program).concat(" failed: ").concat(stderr.as_str());
                Err(ClipboardError::CommandFailed { detail })
            }
        },
        RunOutcome::Transport { message } => Err(ClipboardError::CommandFailed { detail: message }),
    }
}

/// Translates what a write subprocess did into the operation's result,
/// exactly as `spec_write_result` states it.
pub fn write_result_of(program: &str, outcome: RunOutcome) -> (r: Result<(), ClipboardError>)
    ensures
        r is Ok <==> spec_write_result(program@, outcome) is Ok,
        r matches Err(e) ==> (e matches ClipboardError::CommandFailed { detail } && spec_write_result(program@, outcome) matches Err(d) && detail@ == d),
{
    match outcome {
        RunOutcome::Completed { exit_ok, stdout: _, stderr } => {
            if exit_ok {
                Ok(())
            } else {
                let detail = String::from_str(program).concat(" failed: ").concat(stderr.as_str());
                Err(ClipboardError::CommandFailed { detail })
            }
        },
        RunOutcome::Transport { message } => Err(ClipboardError::CommandFailed { detail: message }),
    }
}

/// Reads through whatever backend the given probe selects: the selected
/// read command runs with no input and its captured output becomes the
/// content, typed text/plain. The backend is reported unavailable exactly
/// when the probe selects none; every other failure is a command failure.
pub fn read_clipboard_with(env: &EnvSignals, tools: &ToolAvailability) -> (r: Result<(String, String), ClipboardError>)
    ensures
        (r matches Err(e) && e is BackendUnavailable) <==> spec_select(*env, *tools) is Unavailable,
        r matches Ok(p) ==> p.1@ == "text/plain"@,
{
    match read_command(env, tools) {
        None => Err(ClipboardError::BackendUnavailable),
        Some(cmd) => {
            let outcome = run_read_cmd(cmd.program.as_str(), &cmd.args);
            read_result_of(cmd.program.as_str(), outcome)
        },
    }
}

/// Reads the clipboard: probes the search path afresh and reads through the
/// selected backend. With no display indicator at all the backend is always
/// reported unavailable.
pub fn read_clipboard(env: &EnvSignals) -> (r: Result<(String, String), ClipboardError>)
    ensures
        !env.wayland_display && !env.x11_display ==> (r matches Err(e) && e is BackendUnavailable),
        r matches Ok(p) ==> p.1@ == "text/plain"@,
        r matches Ok(p) ==> env.wayland_display || env.x11_display,
{
    let tools = probe_tools("wl-paste");
    read_clipboard_with(env, &tools)
}

/// Writes through whatever backend the given probe selects: the selected
/// write command receives the whole content on its standard input. The
/// declared content type is carried by the request but does not alter the
/// invocation; all backends receive plain bytes. The backend is reported
/// unavailable exactly when the probe selects none; every other failure is
/// a command failure.
pub fn write_clipboard_with(env: &EnvSignals, tools: &ToolAvailability, content: &str, _content_type: &str) -> (r: Result<(), ClipboardError>)
    ensures
        (r matches Err(e) && e is BackendUnavailable) <==> spec_select(*env, *tools) is Unavailable,
{
    match write_command(env, tools) {
        None => Err(ClipboardError::BackendUnavailable),
        Some(cmd) => {
            let outcome = run_write_cmd(cmd.program.as_str(), &cmd.args, content);
            write_result_of(cmd.program.as_str(), outcome)
        },
    }
}

/// Writes the clipboard: probes the search path afresh and writes through
/// the selected backend. With no display indicator at all the backend is
/// always reported unavailable.
pub fn write_clipboard(env: &EnvSignals, content: &str, content_type: &str) -> (r: Result<(), ClipboardError>)
    ensures
        !env.wayland_display && !env.x11_display ==> (r matches Err(e) && e is BackendUnavailable),
        r is Ok ==> env.wayland_display || env.x11_display,
{
    let tools = probe_tools("wl-copy");
    write_clipboard_with(env, &tools, content, content_type)
}

/// Writing then reading against a faithful backend round-trips: if the
/// write invocation succeeded and the following read invocation exits
/// cleanly reporting exactly the written content on its standard output,
/// interpreting that read yields the written content, typed text/plain.
pub proof fn lemma_round_trip(program: Seq<char>, write_out: RunOutcome, read_out: RunOutcome, content: Seq<char>)
    requires
        run_succeeded(write_out),
        read_out matches RunOutcome::Completed { exit_ok, stdout, .. } && exit_ok && stdout@ == content,
    ensures
        spec_read_result(program, read_out) matches Ok(p) && p.0 == content && p.1 == "text/plain"@,
{
}

/// Clearing is a write of the empty payload through the same path, so after
/// a successful clear a faithful read yields the empty content.
pub proof fn lemma_read_after_clear(program: Seq<char>, clear_out: RunOutcome, read_out: RunOutcome)
    requires
        run_succeeded(clear_out),
        read_out matches RunOutcome::Completed { exit_ok, stdout, .. } && exit_ok && stdout@ == Seq::<char>::empty(),
    ensures
        spec_read_result(program, read_out) matches Ok(p) && p.0.len() == 0,
{
    lemma_round_trip(program, clear_out, read_out, Seq::<char>::empty());
}

} // verus!
