//! Uniform result reporting for installation attempts, including the
//! post-install verification rule: a process exit code of zero alone is not
//! proof of success — only a successful process together with a re-probe
//! that sees the dependency yields a successful result.

use vstd::prelude::*;

use crate::shell::output_view;

verus! {

/// The outcome of one installation attempt: a definite success or failure,
/// with a message always present and error detail only on failure.
#[derive(Clone, Debug, PartialEq, Eq)]
pub struct InstallResult {
    pub success: bool,
    pub message: String,
    pub error: Option<String>,
}

/// The mathematical value of an [`InstallResult`].
#[verifier::ext_equal]
pub struct InstallResultView {
    pub success: bool,
    pub message: Seq<char>,
    pub error: Option<Seq<char>>,
}

impl View for InstallResult {
    type V = InstallResultView;

    open spec fn view(&self) -> InstallResultView {
        InstallResultView {
            success: self.success,
            message: self.message@,
            error: self.error.deep_view(),
        }
    }
}

/// A progress report handed to the surrounding layer while an installation
/// runs.
#[derive(Clone, Debug, PartialEq, Eq)]
pub struct InstallProgress {
    pub step: String,
    pub progress: u8,
    pub message: String,
    pub error: Option<String>,
}

/// The two dependencies the orchestrator installs.
#[derive(Clone, Copy, Debug, PartialEq, Eq, Structural)]
pub enum Dependency {
    NodeJs,
    OpenClaw,
}

/// The message reported when an install attempt fully succeeded.
pub open spec fn success_message(dep: Dependency) -> Seq<char> {
    match dep {
        Dependency::NodeJs => "Node.js 安装成功！"@,
        Dependency::OpenClaw => "OpenClaw 安装成功！"@,
    }
}

/// The message reported when the installer exited cleanly but a re-probe
/// still does not see the dependency: the user must restart the
/// application before the new command becomes visible.
pub open spec fn restart_message(dep: Dependency) -> Seq<char> {
    match dep {
        Dependency::NodeJs => "安装后需要重启应用 (restart required)"@,
        Dependency::OpenClaw => "安装后需要重启应用 (restart required)"@,
    }
}

/// The message reported when the installer process itself failed.
pub open spec fn failure_message(dep: Dependency) -> Seq<char> {
    match dep {
        Dependency::NodeJs => "Node.js 安装失败"@,
        Dependency::OpenClaw => "OpenClaw 安装失败"@,
    }
}

/// The verification rule: only process success together with re-probe
/// presence yields `success`.  A clean exit with an absent re-probe is
/// reported as a failure that asks for a restart, carrying the process
/// output as detail; a failed process carries its error text.
pub open spec fn install_conclusion(
    dep: Dependency,
    process: Result<Seq<char>, Seq<char>>,
    reprobed_version: Option<Seq<char>>,
) -> InstallResultView {
    match process {
        Ok(out) => if reprobed_version is Some {
            InstallResultView { success: true, message: success_message(dep), error: None }
        } else {
            InstallResultView { success: false, message: restart_message(dep), error: Some(out) }
        },
        Err(e) => InstallResultView { success: false, message: failure_message(dep), error: Some(e) },
    }
}

fn success_text(dep: Dependency) -> (m: String)
    ensures
        m@ == success_message(dep),
{
    match dep {
        Dependency::NodeJs => String::from_str("Node.js 安装成功！"),
        Dependency::OpenClaw => String::from_str("OpenClaw 安装成功！"),
    }
}

fn restart_text(dep: Dependency) -> (m: String)
    ensures
        m@ == restart_message(dep),
{
    match dep {
        Dependency::NodeJs => String::from_str("安装后需要重启应用 (restart required)"),
        Dependency::OpenClaw => String::from_str("安装后需要重启应用 (restart required)"),
    }
}

fn failure_text(dep: Dependency) -> (m: String)
    ensures
        m@ == failure_message(dep),
{
    match dep {
        Dependency::NodeJs => String::from_str("Node.js 安装失败"),
        Dependency::OpenClaw => String::from_str("OpenClaw 安装失败"),
    }
}

/// Concludes a headless install attempt from the interpreted process result
/// and the version a re-probe reported afterwards.
pub fn conclude_install(
    dep: Dependency,
    process: Result<String, String>,
    reprobed_version: Option<String>,
) -> (r: InstallResult)
    ensures
        r@ == install_conclusion(dep, output_view(process), reprobed_version.deep_view()),
{
    match process {
        Ok(out) => {
            if reprobed_version.is_some() {
                InstallResult { success: true, message: success_text(dep), error: None }
            } else {
                InstallResult { success: false, message: restart_text(dep), error: Some(out) }
            }
        },
        Err(e) => InstallResult { success: false, message: failure_text(dep), error: Some(e) },
    }
}

} // verus!
