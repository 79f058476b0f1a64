//! Interpretation of captured process executions.
//!
//! The orchestrator runs external commands through a thin unverified layer
//! that spawns the process and captures its exit status, stdout and stderr.
//! That layer hands the capture back as a [`ProcessOutput`] (or the text of
//! the spawn error when the interpreter itself could not be started), and
//! the functions here turn it into the uniform `Result<String, String>` the
//! rest of the orchestrator works with.
//!
//! The interpretation rule is the same for every call shape: trimmed stdout
//! on success; on failure, trimmed stderr, falling back to trimmed stdout,
//! then to a generic nonzero-exit message as the last resort.

use vstd::prelude::*;

use crate::text::{i32_to_decimal, signed_decimal, trim, trimmed};

verus! {

/// The captured outcome of one finished external process.
#[derive(Clone, Debug, PartialEq, Eq)]
pub struct ProcessOutput {
    /// Whether the process exited successfully (exit code zero).
    pub success: bool,
    /// The numeric exit code, when the platform reported one.
    pub exit_code: Option<i32>,
    /// Captured standard output, decoded to text.
    pub stdout: String,
    /// Captured standard error, decoded to text.
    pub stderr: String,
}

/// The mathematical value of a [`ProcessOutput`].
pub struct ProcessOutputView {
    pub success: bool,
    pub exit_code: Option<i32>,
    pub stdout: Seq<char>,
    pub stderr: Seq<char>,
}

impl View for ProcessOutput {
    type V = ProcessOutputView;

    open spec fn view(&self) -> ProcessOutputView {
        ProcessOutputView {
            success: self.success,
            exit_code: self.exit_code,
            stdout: self.stdout@,
            stderr: self.stderr@,
        }
    }
}

/// The generic failure message used when a process exits nonzero without
/// usable output: the exit code is reported in the `Option` debug shape the
/// platform hands back.
pub open spec fn exit_code_message(code: Option<i32>) -> Seq<char> {
    match code {
        Some(n) => "Command failed with exit code: "@ + "Some("@ + signed_decimal(n as int)
            + ")"@,
        None => "Command failed with exit code: "@ + "None"@,
    }
}

/// Renders the generic exit-code failure message.
pub fn exit_code_text(code: Option<i32>) -> (m: String)
    ensures
        m@ == exit_code_message(code),
{
    let mut m = String::from_str("Command failed with exit code: ");
    match code {
        Some(n) => {
            m.append("Some(");
            let digits = i32_to_decimal(n);
            m.append(digits.as_str());
            m.append(")");
        },
        None => {
            m.append("None");
        },
    }
    m
}

/// The value of a spawn attempt: a capture, or the spawn error's text.
pub open spec fn spawn_view(spawn: Result<ProcessOutput, String>) -> Result<
    ProcessOutputView,
    Seq<char>,
> {
    match spawn {
        Ok(o) => Ok(o@),
        Err(e) => Err(e@),
    }
}

/// The value of an interpreted output.
pub open spec fn output_view(r: Result<String, String>) -> Result<Seq<char>, Seq<char>> {
    match r {
        Ok(s) => Ok(s@),
        Err(e) => Err(e@),
    }
}

/// What interpreting a capture yields, for every call shape: trimmed stdout
/// on success; on failure trimmed stderr, then trimmed stdout, then the
/// generic exit-code message; the spawn error's text when the process could
/// not be started.
pub open spec fn interpreted_output_spec(spawn: Result<ProcessOutputView, Seq<char>>) -> Result<
    Seq<char>,
    Seq<char>,
> {
    match spawn {
        Ok(o) => if o.success {
            Ok(trimmed(o.stdout))
        } else if trimmed(o.stderr).len() > 0 {
            Err(trimmed(o.stderr))
        } else if trimmed(o.stdout).len() > 0 {
            Err(trimmed(o.stdout))
        } else {
            Err(exit_code_message(o.exit_code))
        },
        Err(e) => Err(e),
    }
}

fn interpret_capture(spawn: Result<ProcessOutput, String>) -> (r: Result<String, String>)
    ensures
        output_view(r) == interpreted_output_spec(spawn_view(spawn)),
{
    match spawn {
        Ok(o) => {
            if o.success {
                Ok(trim(o.stdout.as_str()))
            } else {
                let stderr_text = trim(o.stderr.as_str());
                if stderr_text.as_str().is_empty() {
                    let stdout_text = trim(o.stdout.as_str());
                    if stdout_text.as_str().is_empty() {
                        Err(exit_code_text(o.exit_code))
                    } else {
                        Err(stdout_text)
                    }
                } else {
                    Err(stderr_text)
                }
            }
        },
        Err(e) => Err(e),
    }
}

/// Interprets the capture of a directly invoked command.
pub fn run_command_output(spawn: Result<ProcessOutput, String>) -> (r: Result<String, String>)
    ensures
        output_view(r) == interpreted_output_spec(spawn_view(spawn)),
{
    interpret_capture(spawn)
}

/// Interprets the capture of a POSIX shell script run.
pub fn run_bash_output(spawn: Result<ProcessOutput, String>) -> (r: Result<String, String>)
    ensures
        output_view(r) == interpreted_output_spec(spawn_view(spawn)),
{
    interpret_capture(spawn)
}

/// Interprets the capture of a PowerShell script run.
pub fn run_powershell_output(spawn: Result<ProcessOutput, String>) -> (r: Result<String, String>)
    ensures
        output_view(r) == interpreted_output_spec(spawn_view(spawn)),
{
    interpret_capture(spawn)
}

/// Interprets the capture of a script run in the host's shell.  The flag
/// names the host only; the interpretation rule is the same either way.
pub fn run_script_output(windows: bool, spawn: Result<ProcessOutput, String>) -> (r: Result<
    String,
    String,
>)
    ensures
        output_view(r) == interpreted_output_spec(spawn_view(spawn)),
{
    if windows {
        run_powershell_output(spawn)
    } else {
        run_bash_output(spawn)
    }
}

/// Interprets a command-lookup capture (a `which`/`where` run): the command
/// exists exactly when the lookup process ran and exited successfully.
pub fn command_probe_found(spawn: Result<ProcessOutput, String>) -> (found: bool)
    ensures
        found == (spawn matches Ok(o) && o.success),
{
    match spawn {
        Ok(o) => o.success,
        Err(_) => false,
    }
}

} // verus!
