//! Arguments of the pipeline commands.
use vstd::prelude::*;

verus! {

/// Arguments for the `qs dev` command.
pub struct DevArgs {
    /// Enable verbose output.
    pub verbose: bool,
    /// Print commands without executing.
    pub dry_run: bool,
    /// Detach SAM local so it keeps running after the pipeline.
    pub serve: bool,
    /// Stop a previously-detached SAM local process.
    pub stop: bool,
}

/// Arguments for the `qs edge` command.
pub struct EdgeArgs {
    pub verbose: bool,
    pub dry_run: bool,
}

/// Arguments for the `qs staging` command.
pub struct StagingArgs {
    pub verbose: bool,
    pub dry_run: bool,
}

/// Arguments for the `qs prod` command.
pub struct ProdArgs {
    pub verbose: bool,
    pub dry_run: bool,
}

/// Arguments for the `qs ping` command.
pub struct PingArgs {
    /// Optional path to the device certs directory (default: `certs/devices/test-device`).
    pub certs: Option<String>,
    /// Optional CA cert path (default: WebPki roots).
    pub ca: Option<String>,
    /// Target hostname.
    pub host: String,
    /// Target HTTPS port.
    pub port: u16,
    /// Print commands without executing.
    pub dry_run: bool,
}

} // verus!
