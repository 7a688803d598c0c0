//! Shell command lines and the judgement of what running them produced.
//!
//! The caller hands each command line to `sh -c` and reports back what
//! happened as a [`CommandOutcome`].

use vstd::prelude::*;
use vstd::string::*;

verus! {

/// What handing a command line to the shell produced.
#[derive(Debug, Clone, PartialEq, Eq)]
pub enum CommandOutcome {
    /// The shell itself could not be started; the field says why.
    NotStarted(String),
    /// The command ran to its end.
    Exited {
        /// Whether the exit status reports success.
        success: bool,
        /// Everything the command wrote to its standard error.
        stderr: Vec<u8>,
    },
}

/// The verdict on a finished command.
#[derive(Debug, Clone, PartialEq, Eq)]
pub struct Execution {
    /// Whether the command ran and reported success.
    pub succeeded: bool,
    /// The captured standard error that is to be shown to the user, if any.
    pub stderr_log: Option<Vec<u8>>,
    /// Why the shell could not be started, if it could not.
    pub start_failure: Option<String>,
}

/// Whether the captured standard error of `outcome` is to be shown: only for
/// a command that failed, wrote something, and only on request.
pub open spec fn shows_stderr(outcome: CommandOutcome, log_stderr: bool) -> bool {
    outcome matches CommandOutcome::Exited { success, stderr } && !success && stderr@.len() > 0
        && log_stderr
}

/// Judges what running a command produced.
///
/// The command succeeded exactly if it was started and exited with success.
/// The standard error of a failed command is passed on for display when it is
/// not empty and `log_stderr` asks for it; a shell that could not be started
/// is always reported.
pub fn execute_command(outcome: CommandOutcome, log_stderr: bool) -> (verdict: Execution)
    ensures
        verdict.succeeded == (outcome matches CommandOutcome::Exited { success, .. } && success),
        verdict.stderr_log == if shows_stderr(outcome, log_stderr) {
            Some(outcome->stderr)
        } else {
            None
        },
        verdict.start_failure == match outcome {
            CommandOutcome::NotStarted(reason) => Some(reason),
            CommandOutcome::Exited { .. } => None,
        },
{
    match outcome {
        CommandOutcome::Exited { success, stderr } => {
            if success {
                Execution { succeeded: true, stderr_log: None, start_failure: None }
            } else if stderr.len() > 0 && log_stderr {
                Execution { succeeded: false, stderr_log: Some(stderr), start_failure: None }
            } else {
                Execution { succeeded: false, stderr_log: None, start_failure: None }
            }
        },
        CommandOutcome::NotStarted(reason) => Execution {
            succeeded: false,
            stderr_log: None,
            start_failure: Some(reason),
        },
    }
}

/// The command line that asks the shell whether `command` can be found.
pub open spec fn exists_probe(command: Seq<char>) -> Seq<char> {
    "command -v "@ + command + " &> /dev/null"@
}

/// Builds the command line whose success tells that `command` exists.
///
/// Its verdict, as [`execute_command`] gives it without logging, is the
/// answer.
pub fn command_exists(command: &str) -> (probe: String)
    ensures
        probe@ == exists_probe(command@),
{
    let mut probe = String::from_str("command -v ");
    probe.append(command);
    probe.append(" &> /dev/null");
    probe
}

} // verus!
