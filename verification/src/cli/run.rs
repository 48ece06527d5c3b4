//! The `qs` command line: which command runs, with the global flags.
use vstd::prelude::*;
use crate::cli::commands::{DevArgs, EdgeArgs, PingArgs, ProdArgs, StagingArgs};
use crate::cli::config::ProjectConfig;
use crate::cli::dev::{dev_accepts, dev_expects, dev_start, dev_started, dev_step, dev_steps, Dev};
use crate::cli::edge::{edge_accepts, edge_expects, edge_start, edge_started, edge_step, edge_steps, Edge};
use crate::cli::onboard::OnboardArgs;
use crate::cli::pipeline::{Event, Step};
use crate::cli::prod::{prod_accepts, prod_expects, prod_start, prod_started, prod_step, prod_steps, Prod};
use crate::cli::staging::{staging_accepts, staging_expects, staging_start, staging_started, staging_step, staging_steps, Staging};

verus! {

/// A command of `qs`.
pub enum Command {
    /// Local dev cycle: unit tests, sam local, integration tests.
    Dev { serve: bool, stop: bool },
    /// Build and flash the embedded device.
    Edge,
    /// Dev gate, deployment to the dev stack, remote tests.
    Staging,
    /// Full pipeline, confirmation, production deployment.
    Prod,
    /// mTLS GET to see that the server is up.
    Ping { certs: Option<String>, ca: Option<String>, host: String, port: u16 },
    /// End-to-end device onboarding.
    Onboard { device_name: String, owner_id: String, mode: String, start_at: usize, skip: Vec<usize> },
}

/// A command line: the global flags and the command.
pub struct Cli {
    pub verbose: bool,
    pub dry_run: bool,
    pub command: Command,
}

/// A running pipeline.
pub enum Pipeline {
    Dev(Dev),
    Edge(Edge),
    Staging(Staging),
    Prod(Prod),
}

/// What a command line starts: a pipeline with its first step, a ping, or
/// an onboarding.
pub enum Started {
    Pipeline(Pipeline, Step),
    Ping(PingArgs),
    Onboard(OnboardArgs),
}

/// What a command line starts: each command with the global flags; the
/// staging pipeline with its dev gate.
pub open spec fn run_started(cli: Cli, cfg: ProjectConfig, r: Started) -> bool {
    match cli.command {
        Command::Dev { serve, stop } => r matches Started::Pipeline(Pipeline::Dev(d), s) && dev_started(
            DevArgs { verbose: cli.verbose, dry_run: cli.dry_run, serve, stop },
            cfg,
            (d, s),
        ),
        Command::Edge => r matches Started::Pipeline(Pipeline::Edge(m), s) && edge_started(
            EdgeArgs { verbose: cli.verbose, dry_run: cli.dry_run },
            cfg,
            (m, s),
        ),
        Command::Staging => r matches Started::Pipeline(Pipeline::Staging(m), s) && staging_started(
            StagingArgs { verbose: cli.verbose, dry_run: cli.dry_run },
            cfg,
            false,
            (m, s),
        ),
        Command::Prod => r matches Started::Pipeline(Pipeline::Prod(m), s) && prod_started(
            ProdArgs { verbose: cli.verbose, dry_run: cli.dry_run },
            cfg,
            (m, s),
        ),
        Command::Ping { certs, ca, host, port } => r matches Started::Ping(a) && a == (PingArgs {
            certs,
            ca,
            host,
            port,
            dry_run: cli.dry_run,
        }),
        Command::Onboard { device_name, owner_id, mode, start_at, skip } => r matches Started::Onboard(a) && a == (OnboardArgs {
            device_name,
            owner_id,
            mode,
            verbose: cli.verbose,
            dry_run: cli.dry_run,
            start_at,
            skip,
        }),
    }
}

/// Start what a command line asks for.
pub fn run_start(cli: Cli, cfg: &ProjectConfig) -> (r: Started)
    ensures
        run_started(cli, *cfg, r),
{
    let Cli { verbose, dry_run, command } = cli;
    match command {
        Command::Dev { serve, stop } => {
            let (d, s) = dev_start(&DevArgs { verbose, dry_run, serve, stop }, cfg);
            Started::Pipeline(Pipeline::Dev(d), s)
        },
        Command::Edge => {
            let (m, s) = edge_start(&EdgeArgs { verbose, dry_run }, cfg);
            Started::Pipeline(Pipeline::Edge(m), s)
        },
        Command::Staging => {
            let (m, s) = staging_start(&StagingArgs { verbose, dry_run }, cfg, false);
            Started::Pipeline(Pipeline::Staging(m), s)
        },
        Command::Prod => {
            let (m, s) = prod_start(&ProdArgs { verbose, dry_run }, cfg);
            Started::Pipeline(Pipeline::Prod(m), s)
        },
        Command::Ping { certs, ca, host, port } => Started::Ping(PingArgs { certs, ca, host, port, dry_run }),
        Command::Onboard { device_name, owner_id, mode, start_at, skip } => Started::Onboard(
            OnboardArgs { device_name, owner_id, mode, verbose, dry_run, start_at, skip },
        ),
    }
}

/// The events that a pipeline waits for.
pub open spec fn pipeline_expects(p: Pipeline, e: Event) -> bool {
    match p {
        Pipeline::Dev(m) => dev_expects(m, e),
        Pipeline::Edge(m) => edge_expects(m, e),
        Pipeline::Staging(m) => staging_expects(m, e),
        Pipeline::Prod(m) => prod_expects(m, e),
    }
}

/// Whether a pipeline waits for `e` (`pipeline_expects`), tested.
pub fn pipeline_accepts(p: &Pipeline, e: &Event) -> (b: bool)
    ensures
        b == pipeline_expects(*p, *e),
{
    match p {
        Pipeline::Dev(m) => dev_accepts(m, e),
        Pipeline::Edge(m) => edge_accepts(m, e),
        Pipeline::Staging(m) => staging_accepts(m, e),
        Pipeline::Prod(m) => prod_accepts(m, e),
    }
}

/// A pipeline's step for an event: that of the pipeline it runs.
pub open spec fn pipeline_steps(p: Pipeline, e: Event, r: (Pipeline, Step)) -> bool {
    match p {
        Pipeline::Dev(m) => exists|x: (Dev, Step)| dev_steps(m, e, x) && r == (Pipeline::Dev(x.0), x.1),
        Pipeline::Edge(m) => exists|x: (Edge, Step)| edge_steps(m, e, x) && r == (Pipeline::Edge(x.0), x.1),
        Pipeline::Staging(m) => exists|x: (Staging, Step)| staging_steps(m, e, x) && r == (Pipeline::Staging(x.0), x.1),
        Pipeline::Prod(m) => exists|x: (Prod, Step)| prod_steps(m, e, x) && r == (Pipeline::Prod(x.0), x.1),
    }
}

/// Next step of a running pipeline.
pub fn pipeline_step(p: Pipeline, e: Event) -> (r: (Pipeline, Step))
    requires
        pipeline_expects(p, e),
    ensures
        pipeline_steps(p, e, r),
{
    match p {
        Pipeline::Dev(m) => {
            let x = dev_step(m, e);
            let ghost g = x;
            let (m2, s) = x;
            let r = (Pipeline::Dev(m2), s);
            assert(dev_steps(m, e, g) && r == (Pipeline::Dev(g.0), g.1));
            r
        },
        Pipeline::Edge(m) => {
            let x = edge_step(m, e);
            let ghost g = x;
            let (m2, s) = x;
            let r = (Pipeline::Edge(m2), s);
            assert(edge_steps(m, e, g) && r == (Pipeline::Edge(g.0), g.1));
            r
        },
        Pipeline::Staging(m) => {
            let x = staging_step(m, e);
            let ghost g = x;
            let (m2, s) = x;
            let r = (Pipeline::Staging(m2), s);
            assert(staging_steps(m, e, g) && r == (Pipeline::Staging(g.0), g.1));
            r
        },
        Pipeline::Prod(m) => {
            let x = prod_step(m, e);
            let ghost g = x;
            let (m2, s) = x;
            let r = (Pipeline::Prod(m2), s);
            assert(prod_steps(m, e, g) && r == (Pipeline::Prod(g.0), g.1));
            r
        },
    }
}

} // verus!
