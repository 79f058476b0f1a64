use openclaw_setup::shell::{
    command_probe_found, run_bash_output, run_command_output, run_powershell_output,
    run_script_output, ProcessOutput,
};

fn capture(success: bool, exit_code: Option<i32>, stdout: &str, stderr: &str) -> ProcessOutput {
    ProcessOutput {
        success,
        exit_code,
        stdout: stdout.to_string(),
        stderr: stderr.to_string(),
    }
}

#[test]
fn command_success_yields_trimmed_stdout() {
    let r = run_command_output(Ok(capture(true, Some(0), "  v22.0.0\n", "")));
    assert_eq!(r, Ok("v22.0.0".to_string()));
}

#[test]
fn command_failure_prefers_trimmed_stderr() {
    let r = run_command_output(Ok(capture(false, Some(1), "partial", "\tboom\r\n")));
    assert_eq!(r, Err("boom".to_string()));
}

#[test]
fn command_failure_falls_back_to_stdout_when_stderr_is_empty() {
    let r = run_command_output(Ok(capture(false, Some(1), " the installer wrote here \n", "  ")));
    assert_eq!(r, Err("the installer wrote here".to_string()));
}

#[test]
fn command_failure_without_any_output_reports_exit_code() {
    let r = run_command_output(Ok(capture(false, Some(9), "", "")));
    assert_eq!(r, Err("Command failed with exit code: Some(9)".to_string()));
}

#[test]
fn command_spawn_error_is_passed_through() {
    let r = run_command_output(Err("No such file or directory".to_string()));
    assert_eq!(r, Err("No such file or directory".to_string()));
}

#[test]
fn bash_failure_prefers_stderr() {
    let r = run_bash_output(Ok(capture(false, Some(2), "ignored", "script blew up\n")));
    assert_eq!(r, Err("script blew up".to_string()));
}

#[test]
fn bash_failure_with_empty_stderr_falls_back_to_stdout() {
    let r = run_bash_output(Ok(capture(false, Some(3), "partial progress\n", "   \n")));
    assert_eq!(r, Err("partial progress".to_string()));
}

#[test]
fn bash_failure_without_any_output_reports_exit_code() {
    let r = run_bash_output(Ok(capture(false, Some(3), " \n", "   \n")));
    assert_eq!(r, Err("Command failed with exit code: Some(3)".to_string()));
}

#[test]
fn bash_failure_without_exit_code_reports_none() {
    let r = run_bash_output(Ok(capture(false, None, "", "")));
    assert_eq!(r, Err("Command failed with exit code: None".to_string()));
}

#[test]
fn bash_failure_with_negative_exit_code() {
    let r = run_bash_output(Ok(capture(false, Some(-6), "", "")));
    assert_eq!(r, Err("Command failed with exit code: Some(-6)".to_string()));
}

#[test]
fn powershell_failure_falls_back_to_stdout_then_generic() {
    let stderr_wins = run_powershell_output(Ok(capture(false, Some(1), "out", "err")));
    assert_eq!(stderr_wins, Err("err".to_string()));

    let stdout_fallback = run_powershell_output(Ok(capture(false, Some(1), " details \n", " ")));
    assert_eq!(stdout_fallback, Err("details".to_string()));

    let generic = run_powershell_output(Ok(capture(false, Some(7), " \n", "")));
    assert_eq!(generic, Err("Command failed with exit code: Some(7)".to_string()));
}

#[test]
fn powershell_success_yields_trimmed_stdout() {
    let r = run_powershell_output(Ok(capture(true, Some(0), "v22.1.0\r\n", "")));
    assert_eq!(r, Ok("v22.1.0".to_string()));
}

#[test]
fn script_output_interprets_the_same_on_every_host() {
    // The flag names the host shell; the failure-surfacing chain is the
    // same either way.
    let windows = run_script_output(true, Ok(capture(false, Some(1), "detail", "")));
    assert_eq!(windows, Err("detail".to_string()));

    let unix = run_script_output(false, Ok(capture(false, Some(1), "detail", "")));
    assert_eq!(unix, Err("detail".to_string()));
}

#[test]
fn command_lookup_exists_only_on_a_successful_probe() {
    assert!(command_probe_found(Ok(capture(true, Some(0), "/usr/bin/node\n", ""))));
    assert!(!command_probe_found(Ok(capture(false, Some(1), "", ""))));
    assert!(!command_probe_found(Err("which missing".to_string())));
}

#[test]
fn trimming_strips_unicode_whitespace() {
    let r = run_command_output(Ok(capture(true, Some(0), "\u{00A0}\u{2009}v22.0.0\u{3000}\n", "")));
    assert_eq!(r, Ok("v22.0.0".to_string()));
}
