use openclaw_setup::shell::ProcessOutput;
use openclaw_setup::status::{check_environment, get_node_version, get_openclaw_version};

fn version_reply(text: &str) -> Result<ProcessOutput, String> {
    Ok(ProcessOutput {
        success: true,
        exit_code: Some(0),
        stdout: text.to_string(),
        stderr: String::new(),
    })
}

fn absent() -> Result<ProcessOutput, String> {
    Err("program not found".to_string())
}

fn nonzero_exit() -> Result<ProcessOutput, String> {
    Ok(ProcessOutput {
        success: false,
        exit_code: Some(127),
        stdout: String::new(),
        stderr: "command not found".to_string(),
    })
}

#[test]
fn version_query_success_yields_trimmed_version() {
    assert_eq!(
        get_node_version(version_reply(" v22.0.0\n")),
        Some("v22.0.0".to_string())
    );
    assert_eq!(
        get_openclaw_version(version_reply("2.1.0\r\n")),
        Some("2.1.0".to_string())
    );
}

#[test]
fn any_query_failure_means_absent() {
    assert_eq!(get_node_version(absent()), None);
    assert_eq!(get_node_version(nonzero_exit()), None);
    assert_eq!(get_openclaw_version(nonzero_exit()), None);
}

#[test]
fn clean_host_probe_reports_nothing_installed() {
    let status = check_environment("linux".to_string(), absent(), absent(), false);
    assert!(!status.node_installed);
    assert_eq!(status.node_version, None);
    assert!(!status.node_version_ok);
    assert!(!status.openclaw_installed);
    assert_eq!(status.openclaw_version, None);
    assert!(!status.config_dir_exists);
    assert!(!status.ready);
    assert_eq!(status.os, "linux");
}

#[test]
fn old_runtime_version_is_not_ok() {
    let status = check_environment(
        "macos".to_string(),
        version_reply("v20.9.0\n"),
        absent(),
        true,
    );
    assert!(status.node_installed);
    assert_eq!(status.node_version, Some("v20.9.0".to_string()));
    assert!(!status.node_version_ok);
    assert!(!status.ready);
}

#[test]
fn recent_runtime_version_is_ok() {
    let status = check_environment(
        "macos".to_string(),
        version_reply("v22.0.0\n"),
        absent(),
        true,
    );
    assert!(status.node_installed);
    assert!(status.node_version_ok);
    assert!(!status.ready);
}

#[test]
fn fully_provisioned_host_is_ready() {
    let status = check_environment(
        "windows".to_string(),
        version_reply("v23.1.0\r\n"),
        version_reply("2.0.1\r\n"),
        true,
    );
    assert!(status.node_installed);
    assert!(status.node_version_ok);
    assert!(status.openclaw_installed);
    assert!(status.ready);
}

#[test]
fn probe_is_idempotent_on_unchanged_host() {
    let first = check_environment(
        "linux".to_string(),
        version_reply("v22.2.0\n"),
        version_reply("1.4.2\n"),
        true,
    );
    let second = check_environment(
        "linux".to_string(),
        version_reply("v22.2.0\n"),
        version_reply("1.4.2\n"),
        true,
    );
    assert_eq!(first, second);
}

#[test]
fn ready_is_the_conjunction_of_the_three_facts() {
    let cases = [
        (absent(), absent()),
        (version_reply("v20.0.0"), absent()),
        (version_reply("v22.0.0"), absent()),
        (absent(), version_reply("2.0.0")),
        (version_reply("v20.0.0"), version_reply("2.0.0")),
        (version_reply("v22.0.0"), version_reply("2.0.0")),
    ];
    for (node, tool) in cases {
        let status = check_environment("linux".to_string(), node, tool, false);
        assert_eq!(
            status.ready,
            status.node_installed && status.node_version_ok && status.openclaw_installed
        );
    }
}
