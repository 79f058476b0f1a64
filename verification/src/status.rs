//! The environment probe: interpreting version queries into an immutable
//! [`EnvironmentStatus`] snapshot.
//!
//! A probe never fails: a version query whose process could not be spawned
//! or exited nonzero simply means the dependency is absent.  `ready` is
//! purely derived from the three installation facts and is never
//! independently settable.

use vstd::prelude::*;

use crate::shell::{
    interpreted_output_spec, run_command_output, spawn_view, ProcessOutput, ProcessOutputView,
};
use crate::text::{lemma_trimmed_idempotent, trim};
use crate::version::{check_node_version_requirement, version_requirement_met};

verus! {

/// A snapshot of the host environment, produced fresh on every probe.
#[derive(Clone, Debug, PartialEq, Eq)]
pub struct EnvironmentStatus {
    /// Whether the Node.js runtime responded to a version query.
    pub node_installed: bool,
    /// The trimmed version string the runtime reported, if any.
    pub node_version: Option<String>,
    /// Whether the reported runtime version meets the minimum-major policy.
    pub node_version_ok: bool,
    /// Whether the OpenClaw tool responded to a version query.
    pub openclaw_installed: bool,
    /// The trimmed version string the tool reported, if any.
    pub openclaw_version: Option<String>,
    /// Whether the configuration directory exists.
    pub config_dir_exists: bool,
    /// Whether everything needed is in place; always the conjunction of
    /// `node_installed`, `node_version_ok` and `openclaw_installed`.
    pub ready: bool,
    /// The operating system identifier the probe ran under.
    pub os: String,
}

/// The mathematical value of an [`EnvironmentStatus`].
#[verifier::ext_equal]
pub struct EnvironmentStatusView {
    pub node_installed: bool,
    pub node_version: Option<Seq<char>>,
    pub node_version_ok: bool,
    pub openclaw_installed: bool,
    pub openclaw_version: Option<Seq<char>>,
    pub config_dir_exists: bool,
    pub ready: bool,
    pub os: Seq<char>,
}

impl View for EnvironmentStatus {
    type V = EnvironmentStatusView;

    open spec fn view(&self) -> EnvironmentStatusView {
        EnvironmentStatusView {
            node_installed: self.node_installed,
            node_version: self.node_version.deep_view(),
            node_version_ok: self.node_version_ok,
            openclaw_installed: self.openclaw_installed,
            openclaw_version: self.openclaw_version.deep_view(),
            config_dir_exists: self.config_dir_exists,
            ready: self.ready,
            os: self.os@,
        }
    }
}

/// What a version query yields: the query's output on success (already
/// trimmed by the output interpretation), absence on any failure.
pub open spec fn probed_version(spawn: Result<ProcessOutputView, Seq<char>>) -> Option<Seq<char>> {
    match interpreted_output_spec(spawn) {
        Ok(out) => Some(out),
        Err(_) => None,
    }
}

/// The snapshot a probe produces from the two version-query captures and
/// the configuration-directory check.
pub open spec fn status_spec(
    os: Seq<char>,
    node_spawn: Result<ProcessOutputView, Seq<char>>,
    openclaw_spawn: Result<ProcessOutputView, Seq<char>>,
    config_dir_exists: bool,
) -> EnvironmentStatusView {
    let node_version = probed_version(node_spawn);
    let openclaw_version = probed_version(openclaw_spawn);
    let node_installed = node_version is Some;
    let node_version_ok = version_requirement_met(node_version);
    let openclaw_installed = openclaw_version is Some;
    EnvironmentStatusView {
        node_installed,
        node_version,
        node_version_ok,
        openclaw_installed,
        openclaw_version,
        config_dir_exists,
        ready: node_installed && node_version_ok && openclaw_installed,
        os,
    }
}

/// Interprets a Node.js version-query capture: the trimmed output when the
/// query succeeded, absence otherwise.
pub fn get_node_version(spawn: Result<ProcessOutput, String>) -> (version: Option<String>)
    ensures
        version.deep_view() == probed_version(spawn_view(spawn)),
{
    let ghost observed = spawn_view(spawn);
    match run_command_output(spawn) {
        Ok(out) => {
            proof {
                match observed {
                    Ok(o) => lemma_trimmed_idempotent(o.stdout),
                    Err(_) => {},
                }
            }
            Some(trim(out.as_str()))
        },
        Err(_) => None,
    }
}

/// Interprets an OpenClaw version-query capture, the same way as for the
/// runtime.
pub fn get_openclaw_version(spawn: Result<ProcessOutput, String>) -> (version: Option<String>)
    ensures
        version.deep_view() == probed_version(spawn_view(spawn)),
{
    let ghost observed = spawn_view(spawn);
    match run_command_output(spawn) {
        Ok(out) => {
            proof {
                match observed {
                    Ok(o) => lemma_trimmed_idempotent(o.stdout),
                    Err(_) => {},
                }
            }
            Some(trim(out.as_str()))
        },
        Err(_) => None,
    }
}

/// Builds the environment snapshot from the two version-query captures, the
/// configuration-directory check, and the operating system identifier.
pub fn check_environment(
    os: String,
    node_spawn: Result<ProcessOutput, String>,
    openclaw_spawn: Result<ProcessOutput, String>,
    config_dir_exists: bool,
) -> (status: EnvironmentStatus)
    ensures
        status@ == status_spec(os@, spawn_view(node_spawn), spawn_view(openclaw_spawn), config_dir_exists),
{
    let node_version = get_node_version(node_spawn);
    let node_installed = node_version.is_some();
    let node_version_ok = check_node_version_requirement(&node_version);
    let openclaw_version = get_openclaw_version(openclaw_spawn);
    let openclaw_installed = openclaw_version.is_some();
    let ready = node_installed && node_version_ok && openclaw_installed;
    let status = EnvironmentStatus {
        node_installed,
        node_version,
        node_version_ok,
        openclaw_installed,
        openclaw_version,
        config_dir_exists,
        ready,
        os,
    };
    proof {
        assert(status@ =~= status_spec(
            status.os@,
            spawn_view(node_spawn),
            spawn_view(openclaw_spawn),
            config_dir_exists,
        ));
    }
    status
}

/// Probing is idempotent and side-effect-free: two snapshots taken of the
/// same host state (the same query captures and directory check) are
/// identical.  That a probe changes nothing on the host is structural
/// rather than stated: the library performs no input or output of its own —
/// it only interprets the captures handed to it — so the snapshot is a pure
/// function of them, which is what this lemma pins.
pub proof fn lemma_probe_idempotent(
    first: EnvironmentStatus,
    second: EnvironmentStatus,
    os: Seq<char>,
    node_spawn: Result<ProcessOutputView, Seq<char>>,
    openclaw_spawn: Result<ProcessOutputView, Seq<char>>,
    config_dir_exists: bool,
)
    requires
        first@ == status_spec(os, node_spawn, openclaw_spawn, config_dir_exists),
        second@ == status_spec(os, node_spawn, openclaw_spawn, config_dir_exists),
    ensures
        first@ == second@,
{
}

/// `ready` is exactly the conjunction of `node_installed`,
/// `node_version_ok` and `openclaw_installed` in every snapshot a probe can
/// produce; it is never independently true or false.
pub proof fn lemma_ready_is_conjunction(
    os: Seq<char>,
    node_spawn: Result<ProcessOutputView, Seq<char>>,
    openclaw_spawn: Result<ProcessOutputView, Seq<char>>,
    config_dir_exists: bool,
)
    ensures
        ({
            let status = status_spec(os, node_spawn, openclaw_spawn, config_dir_exists);
            status.ready == (status.node_installed && status.node_version_ok
                && status.openclaw_installed)
        }),
{
}

} // verus!
