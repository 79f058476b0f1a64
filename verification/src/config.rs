//! Configuration initialization, as a small state machine.
//!
//! Initialization creates the configuration directory and its three fixed
//! subdirectories in order, then sets the one default configuration key.
//! The machine makes the short-circuit explicit: a directory-creation
//! failure moves straight to a terminal failure result, so the
//! configuration-key step can never be reached after one.  The directory
//! list is fixed up front, independent of what already exists on disk, so
//! re-running initialization asks for every directory again.

use vstd::prelude::*;
use vstd::pervasive::unreached;

use crate::report::{InstallResult, InstallResultView};

verus! {

/// The states of one configuration-initialization run.
pub enum ConfigInitState {
    /// Directories still to create, in order; the head is next.
    CreatingDirs { pending: Vec<String> },
    /// All directories exist; the default configuration key is next.
    SettingGatewayMode,
    /// The run is over, with its definite result.
    Done(InstallResult),
}

/// The directories still to be created in a state.
pub open spec fn pending_of(s: ConfigInitState) -> Seq<Seq<char>> {
    match s {
        ConfigInitState::CreatingDirs { pending } => pending.deep_view(),
        _ => Seq::empty(),
    }
}

/// The full, fixed list of directories an initialization creates: the
/// configuration root and its three subdirectories.
pub open spec fn config_dirs(config_dir: Seq<char>) -> Seq<Seq<char>> {
    seq![
        config_dir,
        config_dir + "/"@ + "agents/main/sessions"@,
        config_dir + "/"@ + "agents/main/agent"@,
        config_dir + "/"@ + "credentials"@,
    ]
}

/// The terminal result after a directory could not be created.
pub open spec fn dir_failure_result(path: Seq<char>, error: Seq<char>) -> InstallResultView {
    InstallResultView {
        success: false,
        message: "创建目录失败: "@ + path,
        error: Some(error),
    }
}

/// The terminal result after everything succeeded.
pub open spec fn config_success_result() -> InstallResultView {
    InstallResultView {
        success: true,
        message: "配置初始化成功！"@,
        error: None,
    }
}

/// The terminal result after the configuration-key step failed.
pub open spec fn config_key_failure_result(error: Seq<char>) -> InstallResultView {
    InstallResultView {
        success: false,
        message: "配置初始化失败"@,
        error: Some(error),
    }
}

fn path_join(base: &str, sub: &str) -> (p: String)
    ensures
        p@ == base@ + "/"@ + sub@,
{
    let joined = base.to_owned().concat("/").concat(sub);
    proof {
        assert(joined@ =~= base@ + "/"@ + sub@);
    }
    joined
}

/// Begins an initialization run: every directory of the fixed tree is
/// queued for creation, whatever already exists.
pub fn config_init_start(config_dir: &str) -> (s: ConfigInitState)
    ensures
        s matches ConfigInitState::CreatingDirs { pending } && pending.deep_view() == config_dirs(
            config_dir@,
        ),
{
    let mut pending: Vec<String> = Vec::new();
    pending.push(config_dir.to_owned());
    pending.push(path_join(config_dir, "agents/main/sessions"));
    pending.push(path_join(config_dir, "agents/main/agent"));
    pending.push(path_join(config_dir, "credentials"));
    proof {
        assert(pending.deep_view() =~= config_dirs(config_dir@));
    }
    ConfigInitState::CreatingDirs { pending }
}

/// Advances the machine after one directory-creation attempt on the head
/// of the queue.  A failure is terminal: the run ends with a failure
/// result naming the directory, and the configuration-key step is never
/// reached.
pub fn config_init_dir_done(s: ConfigInitState, error: Option<String>) -> (next: ConfigInitState)
    requires
        s is CreatingDirs,
        pending_of(s).len() > 0,
    ensures
        error matches Some(e) ==> (next matches ConfigInitState::Done(r) && r@
            == dir_failure_result(pending_of(s)[0], e@)),
        error is None && pending_of(s).len() > 1 ==> (next matches ConfigInitState::CreatingDirs {
            pending,
        } && pending.deep_view() == pending_of(s).drop_first()),
        error is None && pending_of(s).len() == 1 ==> next is SettingGatewayMode,
{
    match s {
        ConfigInitState::CreatingDirs { pending } => {
            let mut pending = pending;
            match error {
                Some(e) => {
                    let message = String::from_str("创建目录失败: ").concat(
                        pending[0].as_str(),
                    );
                    ConfigInitState::Done(
                        InstallResult { success: false, message, error: Some(e) },
                    )
                },
                None => {
                    let ghost before = pending.deep_view();
                    let _created = pending.remove(0);
                    proof {
                        assert(pending.deep_view() =~= before.drop_first());
                    }
                    if pending.len() > 0 {
                        ConfigInitState::CreatingDirs { pending }
                    } else {
                        ConfigInitState::SettingGatewayMode
                    }
                },
            }
        },
        _ => unreached(),
    }
}

/// Advances the machine after the configuration-key step, ending the run
/// with its definite result.
pub fn config_init_key_done(s: ConfigInitState, outcome: Result<String, String>) -> (next:
    ConfigInitState)
    requires
        s is SettingGatewayMode,
    ensures
        outcome is Ok ==> (next matches ConfigInitState::Done(r) && r@ == config_success_result()),
        outcome matches Err(e) ==> (next matches ConfigInitState::Done(r) && r@
            == config_key_failure_result(e@)),
{
    match s {
        ConfigInitState::SettingGatewayMode => {},
        _ => {
            return unreached();
        },
    }
    match outcome {
        Ok(_) => ConfigInitState::Done(
            InstallResult {
                success: true,
                message: String::from_str("配置初始化成功！"),
                error: None,
            },
        ),
        Err(e) => ConfigInitState::Done(
            InstallResult {
                success: false,
                message: String::from_str("配置初始化失败"),
                error: Some(e),
            },
        ),
    }
}

/// The command that sets the default configuration key, in the shape the
/// host's shell expects.
pub fn gateway_mode_command(windows: bool) -> (c: &'static str)
    ensures
        windows ==> c@ == "openclaw config set gateway.mode local 2>$null"@,
        !windows ==> c@ == "openclaw config set gateway.mode local 2>/dev/null"@,
{
    if windows {
        "openclaw config set gateway.mode local 2>$null"
    } else {
        "openclaw config set gateway.mode local 2>/dev/null"
    }
}

} // verus!
