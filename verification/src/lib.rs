//! Environment-provisioning orchestrator for the OpenClaw CLI tool and the
//! Node.js runtime it depends on.
//!
//! The library holds the decision logic of the orchestrator: probing results
//! are interpreted into an environment snapshot, an installation strategy is
//! selected per operating system, captured process output is mapped to
//! uniform success/failure values, and a re-probe after an install decides
//! whether the attempt actually succeeded.  Running the external processes
//! themselves (shells, package managers, terminals) is left to a thin
//! unverified layer around the library, which hands captured results back in
//! as plain values.

pub mod config;
pub mod report;
pub mod shell;
pub mod status;
pub mod strategy;
pub mod terminal;
pub mod text;
pub mod version;
