//! Installation strategy selection: a pure mapping from the operating
//! system (and, for the tool, the runtime prerequisite) to the named
//! procedure to run, or to an explicit refusal.
//!
//! Each procedure is a self-contained script with its fallback chain
//! embedded: Windows prefers the system package manager and falls back to a
//! portable version manager; macOS bootstraps Homebrew if needed; Linux
//! probes four common package managers in a fixed priority order and fails
//! explicitly if none is present.  The tool install is uniform across the
//! recognized systems but requires the runtime to be present first, and an
//! unrecognized system is refused outright for either dependency.

use vstd::prelude::*;

use crate::report::{Dependency, InstallResult, InstallResultView};
use crate::text::str_eq;

verus! {

/// The operating systems the orchestrator distinguishes.
#[derive(Clone, Copy, Debug, PartialEq, Eq, Structural)]
pub enum Os {
    Windows,
    Macos,
    Linux,
    Other,
}

/// Classification of an operating system identifier string.
pub open spec fn os_kind(s: Seq<char>) -> Os {
    if s == "windows"@ {
        Os::Windows
    } else if s == "macos"@ {
        Os::Macos
    } else if s == "linux"@ {
        Os::Linux
    } else {
        Os::Other
    }
}

/// Classifies an operating system identifier string.
pub fn classify_os(os: &str) -> (kind: Os)
    ensures
        kind == os_kind(os@),
{
    if str_eq(os, "windows") {
        Os::Windows
    } else if str_eq(os, "macos") {
        Os::Macos
    } else if str_eq(os, "linux") {
        Os::Linux
    } else {
        Os::Other
    }
}

/// The interpreter a procedure runs under.
#[derive(Clone, Copy, Debug, PartialEq, Eq, Structural)]
pub enum Interpreter {
    /// A POSIX shell on Unix-like systems.
    Posix,
    /// PowerShell on Windows.
    PowerShell,
}

/// The named installation procedures, one per operating system and
/// dependency.
#[derive(Clone, Copy, Debug, PartialEq, Eq, Structural)]
pub enum Procedure {
    /// Windows runtime install: winget, falling back to an fnm bootstrap.
    NodeWindowsPackageManager,
    /// macOS runtime install: Homebrew, bootstrapping it first if absent.
    NodeMacosHomebrew,
    /// Linux runtime install: the first of four common package managers.
    NodeLinuxPackageManager,
    /// Windows tool install: a global npm install.
    ToolWindowsNpm,
    /// Unix tool install: a global npm install.
    ToolUnixNpm,
}

/// What strategy selection decides: run a named procedure, or refuse with a
/// definite result.
pub enum InstallPlan {
    Run(Procedure),
    Refuse(InstallResult),
}

/// The refusal produced for an unrecognized operating system: a failure
/// carrying the offending identifier in its error detail.
pub open spec fn unsupported_os_result(os: Seq<char>) -> InstallResultView {
    InstallResultView {
        success: false,
        message: "不支持的操作系统"@,
        error: Some("不支持的操作系统: "@ + os),
    }
}

/// The refusal produced when the tool install is attempted without the
/// runtime being present.
pub open spec fn prerequisite_missing_result() -> InstallResultView {
    InstallResultView {
        success: false,
        message: "请先安装 Node.js"@,
        error: Some("错误：请先安装 Node.js"@),
    }
}

/// Selects the runtime installation procedure for the given operating
/// system; an unrecognized system yields an explicit refusal naming it.
pub fn select_nodejs_install(os: &str) -> (plan: InstallPlan)
    ensures
        os_kind(os@) == Os::Windows ==> (plan matches InstallPlan::Run(p)
            && p == Procedure::NodeWindowsPackageManager),
        os_kind(os@) == Os::Macos ==> (plan matches InstallPlan::Run(p)
            && p == Procedure::NodeMacosHomebrew),
        os_kind(os@) == Os::Linux ==> (plan matches InstallPlan::Run(p)
            && p == Procedure::NodeLinuxPackageManager),
        os_kind(os@) == Os::Other ==> (plan matches InstallPlan::Refuse(r)
            && r@ == unsupported_os_result(os@)),
{
    match classify_os(os) {
        Os::Windows => InstallPlan::Run(Procedure::NodeWindowsPackageManager),
        Os::Macos => InstallPlan::Run(Procedure::NodeMacosHomebrew),
        Os::Linux => InstallPlan::Run(Procedure::NodeLinuxPackageManager),
        Os::Other => {
            let detail = String::from_str("不支持的操作系统: ").concat(os);
            InstallPlan::Refuse(
                InstallResult {
                    success: false,
                    message: String::from_str("不支持的操作系统"),
                    error: Some(detail),
                },
            )
        },
    }
}

/// Selects the tool installation procedure.  When the runtime is absent the
/// attempt fails fast with an explicit prerequisite refusal and no
/// procedure is offered to run; an unrecognized operating system is
/// refused, naming it, as for the runtime.
pub fn select_openclaw_install(os: &str, node_installed: bool) -> (plan: InstallPlan)
    ensures
        !node_installed ==> (plan matches InstallPlan::Refuse(r)
            && r@ == prerequisite_missing_result()),
        node_installed && os_kind(os@) == Os::Windows ==> (plan matches InstallPlan::Run(p)
            && p == Procedure::ToolWindowsNpm),
        node_installed && (os_kind(os@) == Os::Macos || os_kind(os@) == Os::Linux) ==> (plan
            matches InstallPlan::Run(p) && p == Procedure::ToolUnixNpm),
        node_installed && os_kind(os@) == Os::Other ==> (plan matches InstallPlan::Refuse(r)
            && r@ == unsupported_os_result(os@)),
{
    if !node_installed {
        return InstallPlan::Refuse(
            InstallResult {
                success: false,
                message: String::from_str("请先安装 Node.js"),
                error: Some(String::from_str("错误：请先安装 Node.js")),
            },
        );
    }
    match classify_os(os) {
        Os::Windows => InstallPlan::Run(Procedure::ToolWindowsNpm),
        Os::Macos => InstallPlan::Run(Procedure::ToolUnixNpm),
        Os::Linux => InstallPlan::Run(Procedure::ToolUnixNpm),
        Os::Other => {
            let detail = String::from_str("不支持的操作系统: ").concat(os);
            InstallPlan::Refuse(
                InstallResult {
                    success: false,
                    message: String::from_str("不支持的操作系统"),
                    error: Some(detail),
                },
            )
        },
    }
}

/// Which interpreter each named procedure runs under.
pub open spec fn procedure_interpreter_spec(p: Procedure) -> Interpreter {
    match p {
        Procedure::NodeWindowsPackageManager => Interpreter::PowerShell,
        Procedure::NodeMacosHomebrew => Interpreter::Posix,
        Procedure::NodeLinuxPackageManager => Interpreter::Posix,
        Procedure::ToolWindowsNpm => Interpreter::PowerShell,
        Procedure::ToolUnixNpm => Interpreter::Posix,
    }
}

/// The interpreter the given procedure runs under.
pub fn procedure_interpreter(p: Procedure) -> (i: Interpreter)
    ensures
        i == procedure_interpreter_spec(p),
{
    match p {
        Procedure::NodeWindowsPackageManager => Interpreter::PowerShell,
        Procedure::NodeMacosHomebrew => Interpreter::Posix,
        Procedure::NodeLinuxPackageManager => Interpreter::Posix,
        Procedure::ToolWindowsNpm => Interpreter::PowerShell,
        Procedure::ToolUnixNpm => Interpreter::Posix,
    }
}

/// The dependency each named procedure installs.
pub open spec fn procedure_dependency_spec(p: Procedure) -> Dependency {
    match p {
        Procedure::NodeWindowsPackageManager => Dependency::NodeJs,
        Procedure::NodeMacosHomebrew => Dependency::NodeJs,
        Procedure::NodeLinuxPackageManager => Dependency::NodeJs,
        Procedure::ToolWindowsNpm => Dependency::OpenClaw,
        Procedure::ToolUnixNpm => Dependency::OpenClaw,
    }
}

/// The dependency the given procedure installs.
pub fn procedure_dependency(p: Procedure) -> (d: Dependency)
    ensures
        d == procedure_dependency_spec(p),
{
    match p {
        Procedure::NodeWindowsPackageManager => Dependency::NodeJs,
        Procedure::NodeMacosHomebrew => Dependency::NodeJs,
        Procedure::NodeLinuxPackageManager => Dependency::NodeJs,
        Procedure::ToolWindowsNpm => Dependency::OpenClaw,
        Procedure::ToolUnixNpm => Dependency::OpenClaw,
    }
}

/// The Windows runtime install script: winget first, then the fnm
/// fallback, verifying the runtime at the end.
pub const NODE_WINDOWS_INSTALL_SCRIPT: &'static str = r#"
$ErrorActionPreference = 'Stop'

# 检查是否已安装
$nodeVersion = node --version 2>$null
if ($nodeVersion) {
    Write-Host "Node.js 已安装: $nodeVersion"
    exit 0
}

# 优先使用 winget
$hasWinget = Get-Command winget -ErrorAction SilentlyContinue
if ($hasWinget) {
    Write-Host "使用 winget 安装 Node.js..."
    winget install --id OpenJS.NodeJS.LTS --accept-source-agreements --accept-package-agreements
    if ($LASTEXITCODE -eq 0) {
        Write-Host "Node.js 安装成功！"
        exit 0
    }
}

# 备用方案：使用 fnm (Fast Node Manager)
Write-Host "尝试使用 fnm 安装 Node.js..."
$fnmInstallScript = "irm https://fnm.vercel.app/install.ps1 | iex"
Invoke-Expression $fnmInstallScript

# 配置 fnm 环境
$env:FNM_DIR = "$env:USERPROFILE\.fnm"
$env:Path = "$env:FNM_DIR;$env:Path"

# 安装 Node.js 22
fnm install 22
fnm default 22
fnm use 22

# 验证安装
$nodeVersion = node --version 2>$null
if ($nodeVersion) {
    Write-Host "Node.js 安装成功: $nodeVersion"
    exit 0
} else {
    Write-Host "Node.js 安装失败"
    exit 1
}
"#;

/// The macOS runtime install script: Homebrew, bootstrapped first if
/// absent.
pub const NODE_MACOS_INSTALL_SCRIPT: &'static str = r#"
# 检查 Homebrew
if ! command -v brew &> /dev/null; then
    echo "安装 Homebrew..."
    /bin/bash -c "$(curl -fsSL https://raw.githubusercontent.com/Homebrew/install/HEAD/install.sh)"

    # 配置 PATH
    if [[ -f /opt/homebrew/bin/brew ]]; then
        eval "$(/opt/homebrew/bin/brew shellenv)"
    elif [[ -f /usr/local/bin/brew ]]; then
        eval "$(/usr/local/bin/brew shellenv)"
    fi
fi

echo "安装 Node.js 22..."
brew install node@22
brew link --overwrite node@22

# 验证安装
node --version
"#;

/// The Linux runtime install script: the first of apt-get, dnf, yum and
/// pacman that is present, failing explicitly when none is.
pub const NODE_LINUX_INSTALL_SCRIPT: &'static str = r#"
# 检测包管理器
if command -v apt-get &> /dev/null; then
    echo "检测到 apt，使用 NodeSource 仓库..."
    curl -fsSL https://deb.nodesource.com/setup_22.x | sudo -E bash -
    sudo apt-get install -y nodejs
elif command -v dnf &> /dev/null; then
    echo "检测到 dnf，使用 NodeSource 仓库..."
    curl -fsSL https://rpm.nodesource.com/setup_22.x | sudo bash -
    sudo dnf install -y nodejs
elif command -v yum &> /dev/null; then
    echo "检测到 yum，使用 NodeSource 仓库..."
    curl -fsSL https://rpm.nodesource.com/setup_22.x | sudo bash -
    sudo yum install -y nodejs
elif command -v pacman &> /dev/null; then
    echo "检测到 pacman..."
    sudo pacman -S nodejs npm --noconfirm
else
    echo "无法检测到支持的包管理器"
    exit 1
fi

# 验证安装
node --version
"#;

/// The Windows tool install script: a global npm install, gated on the
/// runtime inside the script as well.
pub const TOOL_WINDOWS_INSTALL_SCRIPT: &'static str = r#"
$ErrorActionPreference = 'Stop'

# 检查 Node.js
$nodeVersion = node --version 2>$null
if (-not $nodeVersion) {
    Write-Host "错误：请先安装 Node.js"
    exit 1
}

Write-Host "使用 npm 安装 OpenClaw..."
npm install -g openclaw@latest

# 验证安装
$openclawVersion = openclaw --version 2>$null
if ($openclawVersion) {
    Write-Host "OpenClaw 安装成功: $openclawVersion"
    exit 0
} else {
    Write-Host "OpenClaw 安装失败"
    exit 1
}
"#;

/// The Unix tool install script: a global npm install, gated on the
/// runtime inside the script as well.
pub const TOOL_UNIX_INSTALL_SCRIPT: &'static str = r#"
# 检查 Node.js
if ! command -v node &> /dev/null; then
    echo "错误：请先安装 Node.js"
    exit 1
fi

echo "使用 npm 安装 OpenClaw..."
npm install -g openclaw@latest

# 验证安装
openclaw --version
"#;

/// The self-contained script each named procedure runs.  The fallback
/// chains live inside the scripts; the orchestrator only interprets the
/// overall exit.
pub open spec fn procedure_script_spec(p: Procedure) -> Seq<char> {
    match p {
        Procedure::NodeWindowsPackageManager => NODE_WINDOWS_INSTALL_SCRIPT@,
        Procedure::NodeMacosHomebrew => NODE_MACOS_INSTALL_SCRIPT@,
        Procedure::NodeLinuxPackageManager => NODE_LINUX_INSTALL_SCRIPT@,
        Procedure::ToolWindowsNpm => TOOL_WINDOWS_INSTALL_SCRIPT@,
        Procedure::ToolUnixNpm => TOOL_UNIX_INSTALL_SCRIPT@,
    }
}

/// The script the given procedure runs.
pub fn procedure_script(p: Procedure) -> (script: &'static str)
    ensures
        script@ == procedure_script_spec(p),
{
    match p {
        Procedure::NodeWindowsPackageManager => NODE_WINDOWS_INSTALL_SCRIPT,
        Procedure::NodeMacosHomebrew => NODE_MACOS_INSTALL_SCRIPT,
        Procedure::NodeLinuxPackageManager => NODE_LINUX_INSTALL_SCRIPT,
        Procedure::ToolWindowsNpm => TOOL_WINDOWS_INSTALL_SCRIPT,
        Procedure::ToolUnixNpm => TOOL_UNIX_INSTALL_SCRIPT,
    }
}

} // verus!
