use openclaw_setup::report::{conclude_install, Dependency, InstallProgress};
use openclaw_setup::strategy::{
    procedure_dependency, procedure_interpreter, procedure_script, select_nodejs_install,
    select_openclaw_install, InstallPlan, Interpreter, Procedure,
};

#[test]
fn runtime_install_picks_the_os_procedure() {
    assert!(matches!(
        select_nodejs_install("windows"),
        InstallPlan::Run(Procedure::NodeWindowsPackageManager)
    ));
    assert!(matches!(
        select_nodejs_install("macos"),
        InstallPlan::Run(Procedure::NodeMacosHomebrew)
    ));
    assert!(matches!(
        select_nodejs_install("linux"),
        InstallPlan::Run(Procedure::NodeLinuxPackageManager)
    ));
}

#[test]
fn runtime_install_refuses_unrecognized_os_naming_it() {
    match select_nodejs_install("freebsd") {
        InstallPlan::Refuse(r) => {
            assert!(!r.success);
            assert_eq!(r.message, "不支持的操作系统");
            let error = r.error.expect("a refusal carries error detail");
            assert_eq!(error, "不支持的操作系统: freebsd");
            assert!(error.contains("freebsd"));
        }
        InstallPlan::Run(_) => panic!("an unrecognized OS must not select a procedure"),
    }
}

#[test]
fn tool_install_fails_fast_without_the_runtime() {
    // No procedure is offered at all, so a fake executor would record zero
    // invocations of the tool installer.
    for os in ["windows", "macos", "linux", "freebsd"] {
        match select_openclaw_install(os, false) {
            InstallPlan::Refuse(r) => {
                assert!(!r.success);
                assert_eq!(r.message, "请先安装 Node.js");
                assert_eq!(r.error, Some("错误：请先安装 Node.js".to_string()));
            }
            InstallPlan::Run(_) => panic!("the tool install must not run without the runtime"),
        }
    }
}

#[test]
fn tool_install_is_uniform_on_recognized_systems() {
    assert!(matches!(
        select_openclaw_install("windows", true),
        InstallPlan::Run(Procedure::ToolWindowsNpm)
    ));
    assert!(matches!(
        select_openclaw_install("macos", true),
        InstallPlan::Run(Procedure::ToolUnixNpm)
    ));
    assert!(matches!(
        select_openclaw_install("linux", true),
        InstallPlan::Run(Procedure::ToolUnixNpm)
    ));
}

#[test]
fn tool_install_refuses_unrecognized_os_naming_it() {
    match select_openclaw_install("freebsd", true) {
        InstallPlan::Refuse(r) => {
            assert!(!r.success);
            assert_eq!(r.message, "不支持的操作系统");
            assert_eq!(r.error, Some("不支持的操作系统: freebsd".to_string()));
        }
        InstallPlan::Run(_) => panic!("an unrecognized OS must not select a procedure"),
    }
}

#[test]
fn procedures_run_under_the_right_interpreter() {
    assert_eq!(
        procedure_interpreter(Procedure::NodeWindowsPackageManager),
        Interpreter::PowerShell
    );
    assert_eq!(procedure_interpreter(Procedure::NodeMacosHomebrew), Interpreter::Posix);
    assert_eq!(procedure_interpreter(Procedure::NodeLinuxPackageManager), Interpreter::Posix);
    assert_eq!(procedure_interpreter(Procedure::ToolWindowsNpm), Interpreter::PowerShell);
    assert_eq!(procedure_interpreter(Procedure::ToolUnixNpm), Interpreter::Posix);
}

#[test]
fn procedures_install_their_dependency() {
    assert_eq!(
        procedure_dependency(Procedure::NodeWindowsPackageManager),
        Dependency::NodeJs
    );
    assert_eq!(procedure_dependency(Procedure::ToolUnixNpm), Dependency::OpenClaw);
}

#[test]
fn procedure_scripts_carry_their_fallback_chains() {
    let windows = procedure_script(Procedure::NodeWindowsPackageManager);
    assert!(windows.contains("winget"));
    assert!(windows.contains("fnm"));

    let macos = procedure_script(Procedure::NodeMacosHomebrew);
    assert!(macos.contains("brew install node@22"));

    let linux = procedure_script(Procedure::NodeLinuxPackageManager);
    let order = ["apt-get", "dnf", "yum", "pacman"];
    let mut last = 0;
    for manager in order {
        let at = linux.find(manager).expect("every package manager is probed");
        assert!(at > last, "package managers are probed in priority order");
        last = at;
    }

    assert!(procedure_script(Procedure::ToolWindowsNpm).contains("npm install -g openclaw"));
    assert!(procedure_script(Procedure::ToolUnixNpm).contains("npm install -g openclaw"));
}

#[test]
fn progress_reports_carry_their_step_and_detail() {
    let progress = InstallProgress {
        step: "download".to_string(),
        progress: 40,
        message: "Fetching the runtime installer".to_string(),
        error: None,
    };
    let same = progress.clone();
    assert_eq!(progress, same);
    assert_eq!(same.progress, 40);
    assert_eq!(same.step, "download");
}

#[test]
fn install_concludes_successfully_only_with_reprobe_presence() {
    let r = conclude_install(
        Dependency::NodeJs,
        Ok("installer output".to_string()),
        Some("v22.0.0".to_string()),
    );
    assert!(r.success);
    assert_eq!(r.message, "Node.js 安装成功！");
    assert_eq!(r.error, None);
}

#[test]
fn clean_exit_without_reprobe_presence_asks_for_restart() {
    let r = conclude_install(Dependency::NodeJs, Ok("installer output".to_string()), None);
    assert!(!r.success);
    assert!(r.message.contains("restart"));
    assert_eq!(r.error, Some("installer output".to_string()));

    let tool = conclude_install(Dependency::OpenClaw, Ok("npm said ok".to_string()), None);
    assert!(!tool.success);
    assert!(tool.message.contains("restart"));
    assert_eq!(tool.error, Some("npm said ok".to_string()));
}

#[test]
fn process_failure_concludes_with_its_error_text() {
    let r = conclude_install(
        Dependency::OpenClaw,
        Err("npm exploded".to_string()),
        Some("2.0.0".to_string()),
    );
    assert!(!r.success);
    assert_eq!(r.message, "OpenClaw 安装失败");
    assert_eq!(r.error, Some("npm exploded".to_string()));
}
