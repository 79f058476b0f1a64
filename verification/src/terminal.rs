//! Interactive terminal launches: installing through a visible terminal
//! window when privilege elevation or user-visible progress is needed.
//!
//! Selection is a pure mapping from the requested install kind and the
//! operating system to a launch plan; the surrounding layer performs the
//! plan (writes the script file, marks it executable, opens the terminal)
//! and reports what happened.  A launch is fire-and-forget: once the
//! terminal is open the orchestrator tracks nothing further, and the only
//! way to observe the install's effect is a later probe.

use vstd::prelude::*;

use crate::report::Dependency;
use crate::strategy::{classify_os, os_kind, Os};
use crate::text::str_eq;

verus! {

/// Classification of the requested install kind.
pub open spec fn kind_of(s: Seq<char>) -> Option<Dependency> {
    if s == "nodejs"@ {
        Some(Dependency::NodeJs)
    } else if s == "openclaw"@ {
        Some(Dependency::OpenClaw)
    } else {
        None
    }
}

/// How an interactive install is to be launched.
pub enum LaunchPlan {
    /// Run the script headlessly; it opens the visible window itself
    /// (Windows, via an elevated PowerShell launch).
    Headless { script: String },
    /// Write the script to `path`, mark it executable, and hand it to the
    /// system opener (macOS).
    OpenScript { path: String, script: String },
    /// Write the script to `path`, mark it executable, and try each listed
    /// terminal emulator in order until one accepts the launch (Linux).
    TerminalSearch { path: String, script: String, terminals: Vec<String> },
    /// No automated launch exists; report the manual instruction.
    Manual { message: String },
    /// The requested kind is not recognized; report the error.
    UnknownKind { message: String },
}

/// Selects the launch plan for an interactive install of the given kind on
/// the given operating system.  An unrecognized kind yields an explicit
/// error naming it.
pub fn select_terminal_launch(kind: &str, os: &str) -> (plan: LaunchPlan)
    ensures
        kind_of(kind@) is None ==> (plan matches LaunchPlan::UnknownKind { message }
            && message@ == "未知的安装类型: "@ + kind@),
        kind_of(kind@) == Some(Dependency::NodeJs) && os_kind(os@) == Os::Windows ==> (plan matches
            LaunchPlan::Headless { script } && script@ == NODEJS_WINDOWS_LAUNCHER@),
        kind_of(kind@) == Some(Dependency::NodeJs) && os_kind(os@) == Os::Macos ==> (plan matches
            LaunchPlan::OpenScript { path, script } && path@
            == "/tmp/openclaw_install_nodejs.command"@ && script@ == NODEJS_MACOS_COMMAND@),
        kind_of(kind@) == Some(Dependency::NodeJs) && (os_kind(os@) == Os::Linux || os_kind(os@)
            == Os::Other) ==> (plan matches LaunchPlan::Manual { message }
            && message@ == "请手动安装 Node.js: https://nodejs.org/"@),
        kind_of(kind@) == Some(Dependency::OpenClaw) && os_kind(os@) == Os::Windows ==> (plan
            matches LaunchPlan::Headless { script } && script@ == OPENCLAW_WINDOWS_LAUNCHER@),
        kind_of(kind@) == Some(Dependency::OpenClaw) && os_kind(os@) == Os::Macos ==> (plan matches
            LaunchPlan::OpenScript { path, script } && path@
            == "/tmp/openclaw_install_openclaw.command"@ && script@ == OPENCLAW_MACOS_COMMAND@),
        kind_of(kind@) == Some(Dependency::OpenClaw) && (os_kind(os@) == Os::Linux || os_kind(os@)
            == Os::Other) ==> (plan matches LaunchPlan::TerminalSearch { path, script, terminals }
            && path@ == "/tmp/openclaw_install_openclaw.sh"@ && script@ == OPENCLAW_LINUX_COMMAND@
            && terminals.deep_view() == seq![
            "gnome-terminal"@,
            "xfce4-terminal"@,
            "konsole"@,
            "xterm"@,
        ]),
{
    let requested: Option<Dependency> = if str_eq(kind, "nodejs") {
        Some(Dependency::NodeJs)
    } else if str_eq(kind, "openclaw") {
        Some(Dependency::OpenClaw)
    } else {
        None
    };
    match requested {
        None => LaunchPlan::UnknownKind {
            message: String::from_str("未知的安装类型: ").concat(kind),
        },
        Some(Dependency::NodeJs) => {
            match classify_os(os) {
                Os::Windows => LaunchPlan::Headless {
                    script: String::from_str(NODEJS_WINDOWS_LAUNCHER),
                },
                Os::Macos => LaunchPlan::OpenScript {
                    path: String::from_str("/tmp/openclaw_install_nodejs.command"),
                    script: String::from_str(NODEJS_MACOS_COMMAND),
                },
                _ => LaunchPlan::Manual {
                    message: String::from_str("请手动安装 Node.js: https://nodejs.org/"),
                },
            }
        },
        Some(Dependency::OpenClaw) => {
            match classify_os(os) {
                Os::Windows => LaunchPlan::Headless {
                    script: String::from_str(OPENCLAW_WINDOWS_LAUNCHER),
                },
                Os::Macos => LaunchPlan::OpenScript {
                    path: String::from_str("/tmp/openclaw_install_openclaw.command"),
                    script: String::from_str(OPENCLAW_MACOS_COMMAND),
                },
                _ => {
                    let mut terminals: Vec<String> = Vec::new();
                    terminals.push(String::from_str("gnome-terminal"));
                    terminals.push(String::from_str("xfce4-terminal"));
                    terminals.push(String::from_str("konsole"));
                    terminals.push(String::from_str("xterm"));
                    proof {
                        assert(terminals.deep_view() =~= seq![
                            "gnome-terminal"@,
                            "xfce4-terminal"@,
                            "konsole"@,
                            "xterm"@,
                        ]);
                    }
                    LaunchPlan::TerminalSearch {
                        path: String::from_str("/tmp/openclaw_install_openclaw.sh"),
                        script: String::from_str(OPENCLAW_LINUX_COMMAND),
                        terminals,
                    }
                },
            }
        },
    }
}

/// The steps of performing a launch plan that can fail in the surrounding
/// layer.
#[derive(Clone, Copy, Debug, PartialEq, Eq, Structural)]
pub enum LaunchStep {
    WriteScript,
    MarkExecutable,
    SpawnTerminal,
}

/// The error text reported when a launch step fails.
pub open spec fn launch_failure_message(step: LaunchStep, error: Seq<char>) -> Seq<char> {
    match step {
        LaunchStep::WriteScript => "创建脚本失败: "@ + error,
        LaunchStep::MarkExecutable => "设置权限失败: "@ + error,
        LaunchStep::SpawnTerminal => "启动终端失败: "@ + error,
    }
}

/// Renders the error text for a failed launch step.
pub fn describe_launch_failure(step: LaunchStep, error: &str) -> (m: String)
    ensures
        m@ == launch_failure_message(step, error@),
{
    match step {
        LaunchStep::WriteScript => String::from_str("创建脚本失败: ").concat(
            error,
        ),
        LaunchStep::MarkExecutable => String::from_str(
            "设置权限失败: ",
        ).concat(error),
        LaunchStep::SpawnTerminal => String::from_str("启动终端失败: ").concat(
            error,
        ),
    }
}

/// The acknowledgment returned once a terminal launch has been handed off.
pub open spec fn launch_acknowledgment() -> Seq<char> {
    "已打开安装终端"@
}

/// Concludes a headless launcher run: any successful run is acknowledged,
/// a failure is passed through verbatim.
pub fn conclude_launch(process: Result<String, String>) -> (r: Result<String, String>)
    ensures
        process is Ok ==> (r matches Ok(ack) && ack@ == launch_acknowledgment()),
        process matches Err(e) ==> (r matches Err(out) && out == e),
{
    match process {
        Ok(_) => Ok(String::from_str("已打开安装终端")),
        Err(e) => Err(e),
    }
}

/// Concludes a terminal search: an acknowledgment if some candidate
/// accepted the launch, the explicit manual instruction if none did.
pub fn conclude_terminal_search(launched: bool) -> (r: Result<String, String>)
    ensures
        launched ==> (r matches Ok(ack) && ack@ == launch_acknowledgment()),
        !launched ==> (r matches Err(e) && e@
            == "无法启动终端，请手动运行: npm install -g openclaw"@),
{
    if launched {
        Ok(String::from_str("已打开安装终端"))
    } else {
        Err(String::from_str("无法启动终端，请手动运行: npm install -g openclaw"))
    }
}

/// The Windows launcher for an interactive Node.js install: opens an
/// elevated PowerShell window that installs through winget or points at
/// the manual download.
pub const NODEJS_WINDOWS_LAUNCHER: &'static str = r#"
Start-Process powershell -ArgumentList '-NoExit', '-Command', '
Write-Host "========================================" -ForegroundColor Cyan
Write-Host "    Node.js 安装向导" -ForegroundColor White
Write-Host "========================================" -ForegroundColor Cyan
Write-Host ""

# 检查 winget
$hasWinget = Get-Command winget -ErrorAction SilentlyContinue
if ($hasWinget) {
    Write-Host "正在使用 winget 安装 Node.js 22..." -ForegroundColor Yellow
    winget install --id OpenJS.NodeJS.LTS --accept-source-agreements --accept-package-agreements
} else {
    Write-Host "请从以下地址下载安装 Node.js:" -ForegroundColor Yellow
    Write-Host "https://nodejs.org/en/download" -ForegroundColor Green
    Write-Host ""
    Start-Process "https://nodejs.org/en/download"
}

Write-Host ""
Write-Host "安装完成后请重启 OpenClaw Manager" -ForegroundColor Green
Write-Host ""
Read-Host "按回车键关闭此窗口"
' -Verb RunAs
"#;

/// The macOS command file for an interactive Node.js install: bootstraps
/// Homebrew if needed, then installs the runtime.
pub const NODEJS_MACOS_COMMAND: &'static str = r#"#!/bin/bash
clear
echo "========================================"
echo "    Node.js 安装向导"
echo "========================================"
echo ""

# 检查 Homebrew
if ! command -v brew &> /dev/null; then
    echo "正在安装 Homebrew..."
    /bin/bash -c "$(curl -fsSL https://raw.githubusercontent.com/Homebrew/install/HEAD/install.sh)"

    if [[ -f /opt/homebrew/bin/brew ]]; then
        eval "$(/opt/homebrew/bin/brew shellenv)"
    elif [[ -f /usr/local/bin/brew ]]; then
        eval "$(/usr/local/bin/brew shellenv)"
    fi
fi

echo "正在安装 Node.js 22..."
brew install node@22
brew link --overwrite node@22

echo ""
echo "安装完成！"
node --version
echo ""
read -p "按回车键关闭此窗口..."
"#;

/// The Windows launcher for an interactive OpenClaw install: opens a
/// PowerShell window that installs the tool globally and initializes its
/// configuration.
pub const OPENCLAW_WINDOWS_LAUNCHER: &'static str = r#"
Start-Process powershell -ArgumentList '-NoExit', '-Command', '
Write-Host "========================================" -ForegroundColor Cyan
Write-Host "    OpenClaw 安装向导" -ForegroundColor White
Write-Host "========================================" -ForegroundColor Cyan
Write-Host ""

Write-Host "正在安装 OpenClaw..." -ForegroundColor Yellow
npm install -g openclaw@latest

Write-Host ""
Write-Host "初始化配置..."
openclaw config set gateway.mode local

Write-Host ""
Write-Host "安装完成！" -ForegroundColor Green
openclaw --version
Write-Host ""
Read-Host "按回车键关闭此窗口"
'
"#;

/// The macOS command file for an interactive OpenClaw install: installs
/// the tool globally, initializes its configuration, and creates the
/// configuration directory tree.
pub const OPENCLAW_MACOS_COMMAND: &'static str = r#"#!/bin/bash
clear
echo "========================================"
echo "    OpenClaw 安装向导"
echo "========================================"
echo ""

echo "正在安装 OpenClaw..."
npm install -g openclaw@latest

echo ""
echo "初始化配置..."
openclaw config set gateway.mode local 2>/dev/null || true

mkdir -p ~/.openclaw/agents/main/sessions
mkdir -p ~/.openclaw/agents/main/agent
mkdir -p ~/.openclaw/credentials

echo ""
echo "安装完成！"
openclaw --version
echo ""
read -p "按回车键关闭此窗口..."
"#;

/// The Linux script for an interactive OpenClaw install, identical to the
/// macOS command file but for its closing prompt.
pub const OPENCLAW_LINUX_COMMAND: &'static str = r#"#!/bin/bash
clear
echo "========================================"
echo "    OpenClaw 安装向导"
echo "========================================"
echo ""

echo "正在安装 OpenClaw..."
npm install -g openclaw@latest

echo ""
echo "初始化配置..."
openclaw config set gateway.mode local 2>/dev/null || true

mkdir -p ~/.openclaw/agents/main/sessions
mkdir -p ~/.openclaw/agents/main/agent
mkdir -p ~/.openclaw/credentials

echo ""
echo "安装完成！"
openclaw --version
echo ""
read -p "按回车键关闭..."
"#;

} // verus!
