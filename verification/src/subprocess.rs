//! Subprocess execution: run an external command with piped standard
//! streams, optionally feeding its standard input, and capture what it did.

use vstd::prelude::*;
use async_process::{Command, Stdio};
use futures_lite::future::block_on;
use futures_lite::io::AsyncWriteExt;

verus! {

/// Everything a clipboard utility invocation can come back with. A command
/// either ran to completion (with its exit status and captured streams,
/// decoded lossily as UTF-8), or never produced an exit status because the
/// process could not be spawned or fed.
#[derive(Clone, Debug, PartialEq, Eq)]
pub enum RunOutcome {
    Completed { exit_ok: bool, stdout: String, stderr: String },
    Transport { message: String },
}

/// The invocation ran to completion and exited successfully.
pub open spec fn run_succeeded(o: RunOutcome) -> bool {
    o matches RunOutcome::Completed { exit_ok, .. } && exit_ok
}

/// The captured standard output of a completed invocation.
pub open spec fn run_stdout(o: RunOutcome) -> Seq<char>
    recommends
        o is Completed,
{
    o->stdout@
}

/// A child process of async_process, opaque to the library: it is only ever
/// spawned, fed and awaited through the helpers below.
#[verifier::external_type_specification]
#[verifier::external_body]
pub struct ExChild(async_process::Child);

/// Relies on async_process::Command::spawn: starts the program with the
/// given arguments and its standard output and error piped; standard input
/// is left untouched, as a read command takes no input. The error carries
/// the description of the spawn failure.
#[verifier::external_body]
fn spawn_read_child(program: &str, args: &Vec<String>) -> (r: Result<async_process::Child, String>) {
    let mut cmd = Command::new(program);
    cmd.args(args.iter()).stdout(Stdio::piped()).stderr(Stdio::piped());
    cmd.spawn().map_err(|e| e.to_string())
}

/// Relies on async_process::Command::spawn: starts the program with the
/// given arguments and all three standard streams piped, ready to be fed.
/// The error carries the description of the spawn failure.
#[verifier::external_body]
fn spawn_write_child(program: &str, args: &Vec<String>) -> (r: Result<async_process::Child, String>) {
    let mut cmd = Command::new(program);
    cmd.args(args.iter()).stdin(Stdio::piped()).stdout(Stdio::piped()).stderr(Stdio::piped());
    cmd.spawn().map_err(|e| e.to_string())
}

/// Relies on futures_lite::io::AsyncWriteExt::write_all driven by
/// futures_lite::future::block_on: writes the whole payload to the child's
/// standard input, then closes that pipe by dropping the taken handle. The
/// error carries the description of the write failure.
#[verifier::external_body]
fn feed_stdin(child: &mut async_process::Child, input: &str) -> (r: Result<(), String>) {
    match child.stdin.take() {
        Some(mut sin) => block_on(sin.write_all(input.as_bytes())).map_err(|e| e.to_string()),
        None => Ok(()),
    }
}

/// Relies on async_process::Child::output driven by
/// futures_lite::future::block_on: awaits completion and captures the exit
/// status and both streams, decoded lossily as UTF-8. What comes back
/// depends on the machine, so nothing is promised.
#[verifier::external_body]
fn await_outcome(child: async_process::Child) -> (r: RunOutcome) {
    match block_on(child.output()) {
        Ok(o) => RunOutcome::Completed { exit_ok: o.status.success(), stdout: String::from_utf8_lossy(&o.stdout).to_string(), stderr: String::from_utf8_lossy(&o.stderr).to_string() },
        Err(e) => RunOutcome::Transport { message: e.to_string() },
    }
}

/// Runs a read command to completion with no input, capturing its streams.
/// A spawn failure becomes a transport outcome with its description.
pub(crate) fn run_read_cmd(program: &str, args: &Vec<String>) -> RunOutcome {
    match spawn_read_child(program, args) {
        Ok(child) => await_outcome(child),
        Err(message) => RunOutcome::Transport { message },
    }
}

/// Runs a write command to completion: pipes the whole payload to its
/// standard input, signals end-of-data, then awaits it. A spawn or feed
/// failure becomes a transport outcome with its description.
pub(crate) fn run_write_cmd(program: &str, args: &Vec<String>, input: &str) -> RunOutcome {
    let mut child = match spawn_write_child(program, args) {
        Ok(c) => c,
        Err(message) => {
            return RunOutcome::Transport { message };
        },
    };
    if let Err(message) = feed_stdin(&mut child, input) {
        return RunOutcome::Transport { message };
    }
    await_outcome(child)
}

} // verus!
