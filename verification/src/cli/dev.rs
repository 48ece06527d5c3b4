//! `qs dev`: the local development pipeline. Library tests, endpoint
//! tests, a SAM build, `sam local`, then either integration tests against
//! it or leaving it running in the background.
use vstd::prelude::*;
use crate::cli::commands::DevArgs;
use crate::cli::config::{join, join_path, ProjectConfig};
use crate::cli::env::{copy_vars, lookup_var, make_env, vars_map, with_var};
use crate::cli::error::CliError;
use crate::cli::output::{notices_view, Notice, NoticeLevel};
use crate::cli::pipeline::{
    build_steps, captured_run, env_load_accepts, env_load_expects, require_accepts, env_load_start, env_load_step, env_load_steps, is_captured_run,
    is_logged_run, logged_run, one, push_notice, require_expects, require_start, require_step, require_steps,
    sam_build_start, sam_build_step, text3, Action, BuildStage, EnvLoad, Event, LoadedEnv, Progress, Require, Step,
};
use crate::cli::runner::strings;
use crate::cli::rust_tools::{host_line, host_target_from};
use crate::cli::sam::{is_start_command, SamLocal};
use crate::endpoint::config::{parse_u16, parse_u16_spec};
use crate::pattern::{strs_of, text_with_number, texts_of};
use crate::text::{decimal, lines, push_str, to_string};

verus! {

/// What the dev pipeline works with.
pub struct DevCtx {
    pub verbose: bool,
    pub dry_run: bool,
    pub serve: bool,
    /// The project configuration, with the SAM port of `.env.dev` once read.
    pub cfg: ProjectConfig,
    /// The assignments of `.env.dev`.
    pub vars: Vec<(String, String)>,
    /// The environment of the commands: the process's with `.env.dev`'s.
    pub env: Vec<(String, String)>,
}

/// Where the dev pipeline stands.
pub enum DevStage {
    /// Stopping a background `sam local` (`--stop`).
    Stopping,
    /// Loading `.env.dev`.
    Loading(EnvLoad),
    /// Checking for sam, docker and cargo, and that Docker runs.
    Checking(Require),
    /// Asking `rustc` for the host target.
    HostTarget,
    /// Running the device library's tests.
    LibTests,
    /// Running the endpoint's tests.
    EndpointTests,
    /// Building with SAM.
    Building(BuildStage),
    /// Writing `sam local`'s Lambda variables.
    WritingEnvFile,
    /// Starting `sam local`.
    Spawning,
    /// Waiting for `sam local` to answer.
    Waiting,
    /// Stopping a `sam local` left from before (`--serve`).
    StoppingPrevious,
    /// Leaving `sam local` running.
    Detaching,
    /// Running the integration tests against `sam local`.
    Integration,
    /// Over.
    Done,
}

/// The dev pipeline.
pub struct Dev {
    pub ctx: DevCtx,
    pub stage: DevStage,
}

/// The SAM port: `SAM_LOCAL_PORT` of `.env.dev` when it is a valid port,
/// else the configured one.
pub open spec fn dev_port(vars: Map<Seq<char>, Seq<char>>, configured: u16) -> u16 {
    if vars.contains_key("SAM_LOCAL_PORT"@) {
        match parse_u16_spec(vars["SAM_LOCAL_PORT"@]) {
            Ok(p) => p,
            Err(_) => configured,
        }
    } else {
        configured
    }
}

/// A log file of the pipeline.
pub open spec fn dev_log(ctx: DevCtx, name: Seq<char>) -> Seq<char> {
    join_path(ctx.cfg.log_dir@, name)
}

/// The address of `sam local`.
pub open spec fn dev_url(ctx: DevCtx) -> Seq<char> {
    "http://localhost:"@ + decimal(ctx.cfg.sam_local_port as nat)
}

/// The SAM commands of the pipeline.
pub open spec fn dev_sam<'a>(ctx: &'a DevCtx) -> SamLocal<'a> {
    SamLocal { config: &ctx.cfg, env: Some(ctx.env), verbose: ctx.verbose, dry_run: ctx.dry_run }
}

/// The pipeline with another stage.
pub open spec fn dev_moved(m: Dev, r: (Dev, Step), stage: DevStage) -> bool {
    r.0.ctx == m.ctx && r.0.stage == stage
}

/// The pipeline ends with `result` after `notices`.
pub open spec fn dev_ends(m: Dev, r: (Dev, Step), notices: Seq<(NoticeLevel, Seq<char>)>, result: Result<i32, CliError>) -> bool {
    dev_moved(m, r, DevStage::Done) && notices_view(r.1.notices@) =~= notices && r.1.action == Action::Finish(result)
}

/// The closing messages of a pipeline that leaves `sam local` running.
pub open spec fn serve_tail(ctx: DevCtx) -> Seq<(NoticeLevel, Seq<char>)> {
    seq![
        (NoticeLevel::Plain, "  Logs: "@ + ctx.cfg.sam_log_file@),
        (NoticeLevel::Plain, "  Stop: qs dev --stop"@),
        (NoticeLevel::Success, "\nDev pipeline passed."@),
    ]
}

/// Once `sam local` answers (after `notices`): with `--serve`, a `sam
/// local` left from before is stopped; otherwise the integration tests run
/// against it.
pub open spec fn dev_after_ready(m: Dev, r: (Dev, Step), notices: Seq<(NoticeLevel, Seq<char>)>) -> bool {
    if m.ctx.serve {
        dev_moved(m, r, DevStage::StoppingPrevious) && notices_view(r.1.notices@) =~= notices && (r.1.action matches Action::StopPidFile(
            f,
        ) && f@ == m.ctx.cfg.sam_pid_file@)
    } else {
        &&& dev_moved(m, r, DevStage::Integration)
        &&& notices_view(r.1.notices@) =~= notices.push((NoticeLevel::Step, "Running local integration tests"@))
        &&& is_logged_run(
            r.1.action,
            seq!["cargo"@, "test"@, "--features"@, "sqlite"@, "--"@, "--ignored"@],
            m.ctx.cfg.endpoint_dir@,
            vars_map(m.ctx.env@).insert("DEPLOYED_URL"@, dev_url(m.ctx)),
            dev_log(m.ctx, "integration_tests.log"@),
            m.ctx.verbose,
            m.ctx.dry_run,
        )
    }
}

/// How the pipeline goes on after a step `p` of loading `.env.dev`: the
/// environment is the process's with the file's assignments on top, the
/// SAM port may change, and the tools are checked next.
pub open spec fn dev_after_load(m: Dev, p: Progress<EnvLoad, LoadedEnv>, r: (Dev, Step)) -> bool {
    match p {
        Progress::Next(l2, s) => dev_moved(m, r, DevStage::Loading(l2)) && r.1 == s,
        Progress::Done(_, Err(err)) => dev_ends(m, r, Seq::empty(), Err(err)),
        Progress::Done(_, Ok(le)) => {
            &&& r.0.ctx.verbose == m.ctx.verbose && r.0.ctx.dry_run == m.ctx.dry_run && r.0.ctx.serve == m.ctx.serve
            &&& r.0.ctx.cfg.same_but_port(&m.ctx.cfg)
            &&& r.0.ctx.cfg.sam_local_port == dev_port(vars_map(le.vars@), m.ctx.cfg.sam_local_port)
            &&& vars_map(r.0.ctx.vars@) == vars_map(le.vars@)
            &&& vars_map(r.0.ctx.env@) == vars_map(le.process@).union_prefer_right(vars_map(le.vars@))
            &&& r.0.stage matches DevStage::Checking(q) && q.need_docker && !q.docker && texts_of(q.tools@) == seq![
                "sam"@,
                "docker"@,
                "cargo"@,
            ]
            &&& r.1.notices@.len() == 0
            &&& r.1.action matches Action::FindTools(ts) && texts_of(ts@) == seq!["sam"@, "docker"@, "cargo"@]
        },
    }
}

/// How the pipeline goes on after a step `p` of the tool check: it asks
/// for the host target next.
pub open spec fn dev_after_check(m: Dev, p: Progress<Require, ()>, r: (Dev, Step)) -> bool {
    match p {
        Progress::Next(q2, s) => dev_moved(m, r, DevStage::Checking(q2)) && r.1 == s,
        Progress::Done(_, Err(err)) => dev_ends(m, r, Seq::empty(), Err(err)),
        Progress::Done(_, Ok(())) => dev_moved(m, r, DevStage::HostTarget) && notices_view(r.1.notices@) =~= seq![
            (NoticeLevel::Step, "Running Rust library tests"@),
        ] && is_captured_run(r.1.action, seq!["rustc"@, "-vV"@]),
    }
}

/// How the pipeline goes on after a step `p` of the SAM build: it writes
/// `sam local`'s Lambda variables next.
pub open spec fn dev_after_build(m: Dev, p: Progress<BuildStage, ()>, r: (Dev, Step)) -> bool {
    match p {
        Progress::Next(b2, s) => dev_moved(m, r, DevStage::Building(b2)) && r.1 == s,
        Progress::Done(_, Err(err)) => dev_ends(m, r, Seq::empty(), Err(err)),
        Progress::Done(ns, Ok(())) => dev_moved(m, r, DevStage::WritingEnvFile) && notices_view(r.1.notices@)
            =~= notices_view(ns@).push((NoticeLevel::Step, "Starting sam local on port "@ + decimal(m.ctx.cfg.sam_local_port as nat)))
            && r.1.action is WriteEnvOverrides,
    }
}

/// The dev pipeline's step for an event.
pub open spec fn dev_steps(m: Dev, e: Event, r: (Dev, Step)) -> bool {
    match m.stage {
        DevStage::Stopping => match e {
            Event::PidStopped(Ok(true)) => dev_ends(m, r, seq![(NoticeLevel::Success, "Stopped sam local."@)], Ok(0)),
            Event::PidStopped(Ok(false)) => dev_ends(m, r, seq![(NoticeLevel::Error, "No running sam local found."@)], Ok(1)),
            Event::PidStopped(Err(err)) => dev_ends(m, r, Seq::empty(), Err(err)),
            _ => false,
        },
        DevStage::Loading(l) => exists|p: Progress<EnvLoad, LoadedEnv>| env_load_steps(l, e, p) && dev_after_load(m, p, r),
        DevStage::Checking(q) => exists|p: Progress<Require, ()>| require_steps(q, e, p) && dev_after_check(m, p, r),
        DevStage::HostTarget => match e {
            Event::Ran(Err(err)) => dev_ends(m, r, Seq::empty(), Err(err)),
            Event::Ran(Ok(o)) => match host_line(lines(o.stdout@)) {
                None => r.0.stage is Done && r.0.ctx == m.ctx && r.1.notices@.len() == 0 && (r.1.action matches Action::Finish(
                    Err(CliError::Config(t)),
                ) && t@ == "could not determine host target from `rustc -vV`"@),
                Some(target) => dev_moved(m, r, DevStage::LibTests) && r.1.notices@.len() == 0 && is_logged_run(
                    r.1.action,
                    seq!["cargo"@, "test"@, "--lib"@, "--target"@, target],
                    m.ctx.cfg.device_dir@,
                    vars_map(m.ctx.env@),
                    dev_log(m.ctx, "rust_tests.log"@),
                    m.ctx.verbose,
                    m.ctx.dry_run,
                ),
            },
            _ => false,
        },
        DevStage::LibTests => match e {
            Event::Ran(Err(_)) => dev_ends(
                m,
                r,
                seq![(NoticeLevel::Error, "Rust library tests"@ + " failed (see "@ + dev_log(m.ctx, "rust_tests.log"@) + ")"@)],
                Ok(1),
            ),
            Event::Ran(Ok(_)) => dev_moved(m, r, DevStage::EndpointTests) && notices_view(r.1.notices@) =~= seq![
                (NoticeLevel::Success, "Rust library tests passed"@),
                (NoticeLevel::Step, "Running endpoint tests"@),
            ] && is_logged_run(
                r.1.action,
                seq!["cargo"@, "test"@, "--features"@, "sqlite"@],
                m.ctx.cfg.endpoint_dir@,
                vars_map(m.ctx.env@),
                dev_log(m.ctx, "endpoint_tests.log"@),
                m.ctx.verbose,
                m.ctx.dry_run,
            ),
            _ => false,
        },
        DevStage::EndpointTests => match e {
            Event::Ran(Err(_)) => dev_ends(
                m,
                r,
                seq![(NoticeLevel::Error, "Endpoint tests"@ + " failed (see "@ + dev_log(m.ctx, "endpoint_tests.log"@) + ")"@)],
                Ok(1),
            ),
            Event::Ran(Ok(_)) => r.0.ctx == m.ctx && (r.0.stage matches DevStage::Building(BuildStage::Exporting(sb))
                && crate::cli::sam::is_build_run(dev_sam(&m.ctx), false, sb.build.0, sb.build.1)) && notices_view(
                r.1.notices@,
            ) =~= seq![
                (NoticeLevel::Success, "Endpoint tests passed"@),
                (NoticeLevel::Step, "Exporting runtime dependencies"@),
            ] && (r.1.action matches Action::Run(c, o) && crate::cli::sam::is_export_run(dev_sam(&m.ctx), c, o)),
            _ => false,
        },
        DevStage::Building(b) => exists|p: Progress<BuildStage, ()>| build_steps(b, e, p) && dev_after_build(m, p, r),
        DevStage::WritingEnvFile => match e {
            Event::TempWritten(Err(err)) => dev_ends(m, r, Seq::empty(), Err(err)),
            Event::TempWritten(Ok(path)) => dev_moved(m, r, DevStage::Spawning) && r.1.notices@.len() == 0 && (r.1.action matches Action::Spawn(
                c,
                o,
            ) && is_start_command(dev_sam(&m.ctx), path@, Seq::empty(), c, o)),
            _ => false,
        },
        DevStage::Spawning => match e {
            Event::Spawned(Err(err)) => dev_ends(m, r, Seq::empty(), Err(err)),
            Event::Spawned(Ok(())) => if m.ctx.dry_run {
                dev_after_ready(m, r, seq![(NoticeLevel::Plain, "  [dry-run] wait for sam local ready"@)])
            } else {
                dev_moved(m, r, DevStage::Waiting) && notices_view(r.1.notices@) =~= seq![
                    (NoticeLevel::Plain, "  Waiting for sam local at "@ + dev_url(m.ctx) + " ..."@),
                ] && (r.1.action matches Action::WaitReady(u, t) && u@ == dev_url(m.ctx) + "/health"@ && t
                    == m.ctx.cfg.sam_ready_timeout)
            },
            _ => false,
        },
        DevStage::Waiting => match e {
            Event::Ready(true) => dev_after_ready(m, r, seq![(NoticeLevel::Success, "  sam local ready."@)]),
            Event::Ready(false) => dev_moved(m, r, DevStage::Done) && r.1.notices@.len() == 0 && (r.1.action matches Action::Finish(
                Err(CliError::Timeout { message }),
            ) && message@ == "sam local did not start within "@ + decimal(m.ctx.cfg.sam_ready_timeout as nat)
                + "s. Check logs: "@ + m.ctx.cfg.sam_log_file@),
            _ => false,
        },
        DevStage::StoppingPrevious => e is PidStopped && if m.ctx.dry_run {
            dev_ends(m, r, seq![(NoticeLevel::Plain, "  [dry-run] detach SAM process"@)] + serve_tail(m.ctx), Ok(0))
        } else {
            dev_moved(m, r, DevStage::Detaching) && r.1.notices@.len() == 0 && (r.1.action matches Action::Detach(f)
                && f@ == m.ctx.cfg.sam_pid_file@)
        },
        DevStage::Detaching => match e {
            Event::Detached(Err(err)) => dev_ends(m, r, Seq::empty(), Err(err)),
            Event::Detached(Ok(pid)) => dev_ends(
                m,
                r,
                seq![(NoticeLevel::Success, "sam local running (PID "@ + decimal(pid as nat) + ") at "@ + dev_url(m.ctx))]
                    + serve_tail(m.ctx),
                Ok(0),
            ),
            _ => false,
        },
        DevStage::Integration => match e {
            Event::Ran(Err(_)) => dev_ends(
                m,
                r,
                seq![
                    (NoticeLevel::Error, "Integration tests"@ + " failed (see "@ + dev_log(m.ctx, "integration_tests.log"@) + ")"@),
                ],
                Ok(1),
            ),
            Event::Ran(Ok(_)) => dev_ends(
                m,
                r,
                seq![(NoticeLevel::Success, "Integration tests passed"@), (NoticeLevel::Success, "\nDev pipeline passed."@)],
                Ok(0),
            ),
            _ => false,
        },
        DevStage::Done => false,
    }
}

/// The events that the dev pipeline waits for.
pub open spec fn dev_expects(m: Dev, e: Event) -> bool {
    match m.stage {
        DevStage::Stopping => e is PidStopped,
        DevStage::Loading(l) => env_load_expects(l, e),
        DevStage::Checking(q) => require_expects(q, e),
        DevStage::HostTarget | DevStage::LibTests | DevStage::EndpointTests | DevStage::Integration => e is Ran,
        DevStage::Building(_) => e is Ran,
        DevStage::WritingEnvFile => e is TempWritten,
        DevStage::Spawning => e is Spawned,
        DevStage::Waiting => e is Ready,
        DevStage::StoppingPrevious => e is PidStopped,
        DevStage::Detaching => e is Detached,
        DevStage::Done => false,
    }
}

/// Whether the dev pipeline waits for `e` (`dev_expects`), tested.
pub fn dev_accepts(m: &Dev, e: &Event) -> (b: bool)
    ensures
        b == dev_expects(*m, *e),
{
    match &m.stage {
        DevStage::Stopping => matches!(e, Event::PidStopped(_)),
        DevStage::Loading(l) => env_load_accepts(l, e),
        DevStage::Checking(q) => require_accepts(q, e),
        DevStage::HostTarget | DevStage::LibTests | DevStage::EndpointTests | DevStage::Integration => matches!(
            e,
            Event::Ran(_)
        ),
        DevStage::Building(_) => matches!(e, Event::Ran(_)),
        DevStage::WritingEnvFile => matches!(e, Event::TempWritten(_)),
        DevStage::Spawning => matches!(e, Event::Spawned(_)),
        DevStage::Waiting => matches!(e, Event::Ready(_)),
        DevStage::StoppingPrevious => matches!(e, Event::PidStopped(_)),
        DevStage::Detaching => matches!(e, Event::Detached(_)),
        DevStage::Done => false,
    }
}

/// How the dev pipeline starts.
pub open spec fn dev_started(args: DevArgs, cfg: ProjectConfig, r: (Dev, Step)) -> bool {
    &&& (r.0.ctx.verbose == args.verbose && r.0.ctx.dry_run == args.dry_run && r.0.ctx.serve == args.serve)
    &&& (r.0.ctx.cfg.same_but_port(&cfg) && r.0.ctx.cfg.sam_local_port == cfg.sam_local_port)
    &&& (args.stop ==> r.0.stage is Stopping && r.1.notices@.len() == 0 && (r.1.action matches Action::StopPidFile(f) && f@
            == cfg.sam_pid_file@))
    &&& (!args.stop ==> (r.0.stage matches DevStage::Loading(l) && !l.merging && l.path@ == cfg.env_dev@)
            && notices_view(r.1.notices@) =~= seq![(NoticeLevel::Step, "Loading "@ + ".env.dev"@)] && (r.1.action matches Action::ReadFile(
            f,
        ) && f@ == cfg.env_dev@))
}

/// Start the dev pipeline: `--stop` stops a background `sam local`;
/// otherwise `.env.dev` is loaded first.
pub fn dev_start(args: &DevArgs, cfg: &ProjectConfig) -> (r: (Dev, Step))
    ensures
        dev_started(*args, *cfg, r),
{
    let ctx = DevCtx {
        verbose: args.verbose,
        dry_run: args.dry_run,
        serve: args.serve,
        cfg: cfg.with_port(cfg.sam_local_port),
        vars: Vec::new(),
        env: Vec::new(),
    };
    if args.stop {
        let f = cfg.sam_pid_file.clone();
        (Dev { ctx, stage: DevStage::Stopping }, Step { notices: Vec::new(), action: Action::StopPidFile(f) })
    } else {
        let (l, s) = env_load_start(cfg.env_dev.as_str(), ".env.dev");
        (Dev { ctx, stage: DevStage::Loading(l) }, s)
    }
}

/// The SAM commands of the pipeline.
fn sam_of<'a>(ctx: &'a DevCtx) -> (s: SamLocal<'a>)
    ensures
        s.config == &ctx.cfg,
        crate::cli::runner::opt_vars(s.env) == Some(vars_map(ctx.env@)),
        s.verbose == ctx.verbose && s.dry_run == ctx.dry_run,
{
    SamLocal::new(&ctx.cfg, Some(copy_vars(&ctx.env)), ctx.verbose, ctx.dry_run)
}

/// The log file `name` of the pipeline.
fn log_path(ctx: &DevCtx, name: &str) -> (p: String)
    ensures
        p@ == dev_log(*ctx, name@),
{
    join(ctx.cfg.log_dir.as_str(), name)
}

/// The failure message of a test stage.
fn failed_see(what: &str, log: &String) -> (v: Vec<Notice>)
    ensures
        notices_view(v@) == seq![(NoticeLevel::Error, what@ + " failed (see "@ + log@ + ")"@)],
{
    let mut t = to_string(what);
    push_str(&mut t, " failed (see ");
    push_str(&mut t, log.as_str());
    push_str(&mut t, ")");
    let mut v: Vec<Notice> = Vec::new();
    push_notice(&mut v, NoticeLevel::Error, t);
    assert(notices_view(v@) =~= seq![(NoticeLevel::Error, what@ + " failed (see "@ + log@ + ")"@)]);
    v
}

/// The closing messages of a pipeline that leaves `sam local` running.
fn push_serve_tail(v: &mut Vec<Notice>, ctx: &DevCtx)
    ensures
        notices_view(final(v)@) == notices_view(old(v)@) + serve_tail(*ctx),
{
    let ghost before = notices_view(v@);
    let mut logs = to_string("  Logs: ");
    push_str(&mut logs, ctx.cfg.sam_log_file.as_str());
    push_notice(v, NoticeLevel::Plain, logs);
    push_notice(v, NoticeLevel::Plain, to_string("  Stop: qs dev --stop"));
    push_notice(v, NoticeLevel::Success, to_string("\nDev pipeline passed."));
    assert(notices_view(v@) =~= before + serve_tail(*ctx));
}

/// The step once `sam local` answers, after `notices`.
fn after_ready(ctx: DevCtx, notices: Vec<Notice>) -> (r: (Dev, Step))
    ensures
        dev_after_ready(Dev { ctx, stage: DevStage::Done }, r, notices_view(notices@)),
{
    let ghost g = ctx;
    let mut notices = notices;
    if ctx.serve {
        let f = ctx.cfg.sam_pid_file.clone();
        (Dev { ctx, stage: DevStage::StoppingPrevious }, Step { notices, action: Action::StopPidFile(f) })
    } else {
        let ghost before = notices_view(notices@);
        push_notice(&mut notices, NoticeLevel::Step, to_string("Running local integration tests"));
        let url = text_with_number("http://localhost:", ctx.cfg.sam_local_port as u64);
        let test_env = with_var(&ctx.env, "DEPLOYED_URL", url.as_str());
        let args = strings(&["cargo", "test", "--features", "sqlite", "--", "--ignored"]);
        assert(texts_of(args@) =~= seq!["cargo"@, "test"@, "--features"@, "sqlite"@, "--"@, "--ignored"@]);
        let log = log_path(&ctx, "integration_tests.log");
        let a = logged_run(args, ctx.cfg.endpoint_dir.as_str(), test_env, log, ctx.verbose, ctx.dry_run);
        (Dev { ctx, stage: DevStage::Integration }, Step { notices, action: a })
    }
}

/// Next step of the dev pipeline. Each stage runs in turn; a failed test
/// stage shows where its log is and ends with status 1; any other failure
/// ends with its error.
pub fn dev_step(m: Dev, e: Event) -> (r: (Dev, Step))
    requires
        dev_expects(m, e),
    ensures
        dev_steps(m, e, r),
{
    let ghost m0 = m;
    let Dev { ctx, stage } = m;
    match stage {
        DevStage::Stopping => match e {
            Event::PidStopped(Ok(true)) => (
                Dev { ctx, stage: DevStage::Done },
                Step { notices: one(NoticeLevel::Success, "Stopped sam local."), action: Action::Finish(Ok(0)) },
            ),
            Event::PidStopped(Ok(false)) => (
                Dev { ctx, stage: DevStage::Done },
                Step { notices: one(NoticeLevel::Error, "No running sam local found."), action: Action::Finish(Ok(1)) },
            ),
            Event::PidStopped(Err(err)) => (
                Dev { ctx, stage: DevStage::Done },
                Step { notices: Vec::new(), action: Action::Finish(Err(err)) },
            ),
            _ => (Dev { ctx, stage: DevStage::Done }, Step { notices: Vec::new(), action: Action::Finish(Ok(0)) }),
        },
        DevStage::Loading(l) => {
            let p = env_load_step(l, e);
            let ghost gp = p;
            let r = match p {
                Progress::Next(l2, s) => (Dev { ctx, stage: DevStage::Loading(l2) }, s),
                Progress::Done(_, Err(err)) => (
                    Dev { ctx, stage: DevStage::Done },
                    Step { notices: Vec::new(), action: Action::Finish(Err(err)) },
                ),
                Progress::Done(_, Ok(le)) => {
                    let port = match lookup_var(&le.vars, "SAM_LOCAL_PORT") {
                        Some(t) => match parse_u16(t.as_str()) {
                            Ok(p) => p,
                            Err(_) => ctx.cfg.sam_local_port,
                        },
                        None => ctx.cfg.sam_local_port,
                    };
                    let env = make_env(&le.process, &le.vars);
                    let cfg = ctx.cfg.with_port(port);
                    let (q, s) = require_start(&["sam", "docker", "cargo"], true);
                    assert(strs_of(seq!["sam", "docker", "cargo"]) =~= seq!["sam"@, "docker"@, "cargo"@]);
                    (
                        Dev {
                            ctx: DevCtx { verbose: ctx.verbose, dry_run: ctx.dry_run, serve: ctx.serve, cfg, vars: le.vars, env },
                            stage: DevStage::Checking(q),
                        },
                        s,
                    )
                },
            };
            assert(env_load_steps(l, e, gp) && dev_after_load(m0, gp, r));
            r
        },
        DevStage::Checking(q) => {
            let p = require_step(q, e);
            let ghost gp = p;
            let r = match p {
                Progress::Next(q2, s) => (Dev { ctx, stage: DevStage::Checking(q2) }, s),
                Progress::Done(_, Err(err)) => (
                    Dev { ctx, stage: DevStage::Done },
                    Step { notices: Vec::new(), action: Action::Finish(Err(err)) },
                ),
                Progress::Done(_, Ok(())) => {
                    let args = strings(&["rustc", "-vV"]);
                    assert(texts_of(args@) =~= seq!["rustc"@, "-vV"@]);
                    (
                        Dev { ctx, stage: DevStage::HostTarget },
                        Step { notices: one(NoticeLevel::Step, "Running Rust library tests"), action: captured_run(args) },
                    )
                },
            };
            assert(require_steps(q, e, gp) && dev_after_check(m0, gp, r));
            r
        },
        DevStage::HostTarget => match e {
            Event::Ran(Ok(o)) => match host_target_from(o.stdout.as_str()) {
                Err(err) => (Dev { ctx, stage: DevStage::Done }, Step { notices: Vec::new(), action: Action::Finish(Err(err)) }),
                Ok(target) => {
                    let mut args = strings(&["cargo", "test", "--lib", "--target"]);
                    let ghost a0 = texts_of(args@);
                    args.push(target);
                    assert(texts_of(args@) =~= a0.push(target@));
                    let log = log_path(&ctx, "rust_tests.log");
                    let a = logged_run(args, ctx.cfg.device_dir.as_str(), copy_vars(&ctx.env), log, ctx.verbose, ctx.dry_run);
                    (Dev { ctx, stage: DevStage::LibTests }, Step { notices: Vec::new(), action: a })
                },
            },
            Event::Ran(Err(err)) => (Dev { ctx, stage: DevStage::Done }, Step { notices: Vec::new(), action: Action::Finish(Err(err)) }),
            _ => (Dev { ctx, stage: DevStage::Done }, Step { notices: Vec::new(), action: Action::Finish(Ok(0)) }),
        },
        DevStage::LibTests => match e {
            Event::Ran(Ok(_)) => {
                let mut notices = one(NoticeLevel::Success, "Rust library tests passed");
                push_notice(&mut notices, NoticeLevel::Step, to_string("Running endpoint tests"));
                let args = strings(&["cargo", "test", "--features", "sqlite"]);
                assert(texts_of(args@) =~= seq!["cargo"@, "test"@, "--features"@, "sqlite"@]);
                let log = log_path(&ctx, "endpoint_tests.log");
                let a = logged_run(args, ctx.cfg.endpoint_dir.as_str(), copy_vars(&ctx.env), log, ctx.verbose, ctx.dry_run);
                (Dev { ctx, stage: DevStage::EndpointTests }, Step { notices, action: a })
            },
            _ => {
                let log = log_path(&ctx, "rust_tests.log");
                (Dev { ctx, stage: DevStage::Done }, Step { notices: failed_see("Rust library tests", &log), action: Action::Finish(Ok(1)) })
            },
        },
        DevStage::EndpointTests => match e {
            Event::Ran(Ok(_)) => {
                let (sb, s) = {
                    let sam = sam_of(&ctx);
                    sam_build_start(&sam, false)
                };
                let mut notices = one(NoticeLevel::Success, "Endpoint tests passed");
                push_notice(&mut notices, NoticeLevel::Step, to_string("Exporting runtime dependencies"));
                (Dev { ctx, stage: DevStage::Building(BuildStage::Exporting(sb)) }, Step { notices, action: s.action })
            },
            _ => {
                let log = log_path(&ctx, "endpoint_tests.log");
                (Dev { ctx, stage: DevStage::Done }, Step { notices: failed_see("Endpoint tests", &log), action: Action::Finish(Ok(1)) })
            },
        },
        DevStage::Building(b) => {
            let p = sam_build_step(b, e);
            let ghost gp = p;
            let r = match p {
                Progress::Next(b2, s) => (Dev { ctx, stage: DevStage::Building(b2) }, s),
                Progress::Done(_, Err(err)) => (
                    Dev { ctx, stage: DevStage::Done },
                    Step { notices: Vec::new(), action: Action::Finish(Err(err)) },
                ),
                Progress::Done(ns, Ok(())) => {
                    let mut notices = ns;
                    push_notice(&mut notices, NoticeLevel::Step, text_with_number("Starting sam local on port ", ctx.cfg.sam_local_port as u64));
                    (Dev { ctx, stage: DevStage::WritingEnvFile }, Step { notices, action: Action::WriteEnvOverrides })
                },
            };
            assert(build_steps(b, e, gp) && dev_after_build(m0, gp, r));
            r
        },
        DevStage::WritingEnvFile => match e {
            Event::TempWritten(Ok(path)) => {
                let (c, o) = {
                    let sam = sam_of(&ctx);
                    let none: Vec<String> = Vec::new();
                    assert(texts_of(none@) =~= Seq::<Seq<char>>::empty());
                    sam.start_command(path.as_str(), &none)
                };
                (Dev { ctx, stage: DevStage::Spawning }, Step { notices: Vec::new(), action: Action::Spawn(c, o) })
            },
            Event::TempWritten(Err(err)) => (Dev { ctx, stage: DevStage::Done }, Step { notices: Vec::new(), action: Action::Finish(Err(err)) }),
            _ => (Dev { ctx, stage: DevStage::Done }, Step { notices: Vec::new(), action: Action::Finish(Ok(0)) }),
        },
        DevStage::Spawning => match e {
            Event::Spawned(Ok(())) => {
                if ctx.dry_run {
                    after_ready(ctx, one(NoticeLevel::Plain, "  [dry-run] wait for sam local ready"))
                } else {
                    let url = text_with_number("http://localhost:", ctx.cfg.sam_local_port as u64);
                    let mut health = url.clone();
                    push_str(&mut health, "/health");
                    let mut notices: Vec<Notice> = Vec::new();
                    push_notice(&mut notices, NoticeLevel::Plain, text3("  Waiting for sam local at ", url.as_str(), " ..."));
                    let t = ctx.cfg.sam_ready_timeout;
                    (Dev { ctx, stage: DevStage::Waiting }, Step { notices, action: Action::WaitReady(health, t) })
                }
            },
            Event::Spawned(Err(err)) => (Dev { ctx, stage: DevStage::Done }, Step { notices: Vec::new(), action: Action::Finish(Err(err)) }),
            _ => (Dev { ctx, stage: DevStage::Done }, Step { notices: Vec::new(), action: Action::Finish(Ok(0)) }),
        },
        DevStage::Waiting => match e {
            Event::Ready(true) => after_ready(ctx, one(NoticeLevel::Success, "  sam local ready.")),
            _ => {
                let err = {
                    let sam = sam_of(&ctx);
                    sam.ready_timeout()
                };
                (Dev { ctx, stage: DevStage::Done }, Step { notices: Vec::new(), action: Action::Finish(Err(err)) })
            },
        },
        DevStage::StoppingPrevious => {
            if ctx.dry_run {
                let mut notices = one(NoticeLevel::Plain, "  [dry-run] detach SAM process");
                push_serve_tail(&mut notices, &ctx);
                (Dev { ctx, stage: DevStage::Done }, Step { notices, action: Action::Finish(Ok(0)) })
            } else {
                let f = ctx.cfg.sam_pid_file.clone();
                (Dev { ctx, stage: DevStage::Detaching }, Step { notices: Vec::new(), action: Action::Detach(f) })
            }
        },
        DevStage::Detaching => match e {
            Event::Detached(Ok(pid)) => {
                let mut t = text_with_number("sam local running (PID ", pid as u64);
                push_str(&mut t, ") at ");
                let url = text_with_number("http://localhost:", ctx.cfg.sam_local_port as u64);
                push_str(&mut t, url.as_str());
                let mut notices: Vec<Notice> = Vec::new();
                push_notice(&mut notices, NoticeLevel::Success, t);
                push_serve_tail(&mut notices, &ctx);
                (Dev { ctx, stage: DevStage::Done }, Step { notices, action: Action::Finish(Ok(0)) })
            },
            Event::Detached(Err(err)) => (Dev { ctx, stage: DevStage::Done }, Step { notices: Vec::new(), action: Action::Finish(Err(err)) }),
            _ => (Dev { ctx, stage: DevStage::Done }, Step { notices: Vec::new(), action: Action::Finish(Ok(0)) }),
        },
        DevStage::Integration => match e {
            Event::Ran(Ok(_)) => {
                let mut notices = one(NoticeLevel::Success, "Integration tests passed");
                push_notice(&mut notices, NoticeLevel::Success, to_string("\nDev pipeline passed."));
                (Dev { ctx, stage: DevStage::Done }, Step { notices, action: Action::Finish(Ok(0)) })
            },
            _ => {
                let log = log_path(&ctx, "integration_tests.log");
                (Dev { ctx, stage: DevStage::Done }, Step { notices: failed_see("Integration tests", &log), action: Action::Finish(Ok(1)) })
            },
        },
        DevStage::Done => (Dev { ctx, stage: DevStage::Done }, Step { notices: Vec::new(), action: Action::Finish(Ok(0)) }),
    }
}

} // verus!
