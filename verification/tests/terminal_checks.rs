use openclaw_setup::terminal::{
    conclude_launch, conclude_terminal_search, describe_launch_failure, select_terminal_launch,
    LaunchPlan, LaunchStep,
};

#[test]
fn unknown_install_kind_is_an_explicit_error() {
    match select_terminal_launch("python", "linux") {
        LaunchPlan::UnknownKind { message } => {
            assert_eq!(message, "未知的安装类型: python");
        }
        _ => panic!("an unknown kind must not produce a launch"),
    }
}

#[test]
fn nodejs_launch_on_windows_is_an_elevated_headless_script() {
    match select_terminal_launch("nodejs", "windows") {
        LaunchPlan::Headless { script } => {
            assert!(script.contains("Start-Process powershell"));
            assert!(script.contains("-Verb RunAs"));
            assert!(script.contains("winget"));
        }
        _ => panic!("expected a headless launcher"),
    }
}

#[test]
fn nodejs_launch_on_macos_writes_a_command_file() {
    match select_terminal_launch("nodejs", "macos") {
        LaunchPlan::OpenScript { path, script } => {
            assert_eq!(path, "/tmp/openclaw_install_nodejs.command");
            assert!(script.starts_with("#!/bin/bash"));
            assert!(script.contains("brew install node@22"));
        }
        _ => panic!("expected a command file"),
    }
}

#[test]
fn nodejs_launch_elsewhere_is_a_manual_instruction() {
    match select_terminal_launch("nodejs", "linux") {
        LaunchPlan::Manual { message } => {
            assert_eq!(message, "请手动安装 Node.js: https://nodejs.org/");
        }
        _ => panic!("expected the manual instruction"),
    }
}

#[test]
fn openclaw_launch_on_linux_probes_terminals_in_order() {
    match select_terminal_launch("openclaw", "linux") {
        LaunchPlan::TerminalSearch { path, script, terminals } => {
            assert_eq!(path, "/tmp/openclaw_install_openclaw.sh");
            assert!(script.contains("npm install -g openclaw"));
            assert_eq!(
                terminals,
                vec![
                    "gnome-terminal".to_string(),
                    "xfce4-terminal".to_string(),
                    "konsole".to_string(),
                    "xterm".to_string(),
                ]
            );
        }
        _ => panic!("expected a terminal search"),
    }
}

#[test]
fn openclaw_launch_on_macos_writes_a_command_file() {
    match select_terminal_launch("openclaw", "macos") {
        LaunchPlan::OpenScript { path, script } => {
            assert_eq!(path, "/tmp/openclaw_install_openclaw.command");
            assert!(script.contains("npm install -g openclaw"));
        }
        _ => panic!("expected a command file"),
    }
}

#[test]
fn openclaw_launch_on_windows_is_headless() {
    assert!(matches!(
        select_terminal_launch("openclaw", "windows"),
        LaunchPlan::Headless { .. }
    ));
}

#[test]
fn launch_conclusion_acknowledges_success_and_passes_errors() {
    assert_eq!(
        conclude_launch(Ok("whatever the shell printed".to_string())),
        Ok("已打开安装终端".to_string())
    );
    assert_eq!(
        conclude_launch(Err("powershell missing".to_string())),
        Err("powershell missing".to_string())
    );
}

#[test]
fn terminal_search_conclusion_reports_no_terminal_explicitly() {
    assert_eq!(
        conclude_terminal_search(true),
        Ok("已打开安装终端".to_string())
    );
    let failure = conclude_terminal_search(false).unwrap_err();
    assert_eq!(failure, "无法启动终端，请手动运行: npm install -g openclaw");
    assert!(failure.contains("npm install -g openclaw"));
}

#[test]
fn launch_step_failures_name_the_step() {
    assert_eq!(
        describe_launch_failure(LaunchStep::WriteScript, "disk full"),
        "创建脚本失败: disk full"
    );
    assert_eq!(
        describe_launch_failure(LaunchStep::MarkExecutable, "denied"),
        "设置权限失败: denied"
    );
    assert_eq!(
        describe_launch_failure(LaunchStep::SpawnTerminal, "no display"),
        "启动终端失败: no display"
    );
}
