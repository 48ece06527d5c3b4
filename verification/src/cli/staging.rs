//! `qs staging`: the dev pipeline as a gate, then a deployment to the dev
//! stack and tests against it: the cloud integration tests, the device's
//! round trip, and mTLS against the production endpoint.
use vstd::prelude::*;
use crate::cli::commands::{DevArgs, StagingArgs};
use crate::cli::config::{join, join_path, ProjectConfig};
use crate::cli::dev::{dev_accepts, dev_start, dev_step, dev_steps, dev_expects, Dev};
use crate::cli::env::{copy_vars, make_env, vars_map, with_var};
use crate::cli::error::CliError;
use crate::cli::output::{notices_view, Notice, NoticeLevel};
use crate::cli::pipeline::{
    build_steps, captured_run, endpoint_accepts, env_load_accepts, require_accepts, deploy_start, deploy_step, deploy_steps, endpoint_expects, endpoint_start,
    endpoint_started, endpoint_step, endpoint_steps, env_load_expects, env_load_start, env_load_step, env_load_steps,
    is_captured_run, is_logged_run, is_plain_run, logged_run, one, plain_run, push_notice, require_expects, require_start,
    require_step, require_steps, sam_build_start, sam_build_step, Action, BuildStage, Deploy, Endpoint, EnvLoad, Event,
    LoadedEnv, Progress, Require, Step,
};
use crate::cli::runner::strings;
use crate::cli::rust_tools::{host_line, host_target_from};
use crate::cli::sam::{deploy_log, is_build_run, is_deploy_run, is_export_run, SamLocal};
use crate::pattern::{strs_of, texts_of};
use crate::text::{lines, push_str, to_string};

verus! {

/// What the staging pipeline works with.
pub struct StagingCtx {
    pub verbose: bool,
    pub dry_run: bool,
    pub cfg: ProjectConfig,
    /// The environment of the commands: the process's with
    /// `.env.staging`'s assignments.
    pub env: Vec<(String, String)>,
    /// The deployed dev stack's endpoint, once known.
    pub url: String,
}

/// Where the staging pipeline stands.
pub enum StagingStage {
    /// Running the dev pipeline as a gate.
    Gate(Dev),
    /// Loading `.env.staging`.
    Loading(EnvLoad),
    /// Checking for uv, sam, docker and openssl, and that Docker runs.
    Checking(Require),
    /// Building with SAM.
    Building(BuildStage),
    /// Deploying the dev stack.
    Deploying(Deploy),
    /// Finding the dev stack's endpoint.
    Locating(Endpoint),
    /// Running the cloud integration tests against the dev stack.
    LocalTests,
    /// Asking `rustc` for the host target.
    HostTarget,
    /// Running the device's round trip against the dev stack.
    DeviceTests,
    /// Looking for the test CA.
    CheckingCa,
    /// Generating the test CA.
    GeneratingCa,
    /// Looking for the test device's certificate.
    CheckingDeviceCert,
    /// Generating the test device's certificate.
    GeneratingDeviceCert,
    /// Running the mTLS tests against the production endpoint.
    MtlsTests,
    /// Over.
    Done,
}

/// The staging pipeline.
pub struct Staging {
    pub ctx: StagingCtx,
    pub stage: StagingStage,
}

/// A log file of the pipeline.
pub open spec fn staging_log(ctx: StagingCtx, name: Seq<char>) -> Seq<char> {
    join_path(ctx.cfg.log_dir@, name)
}

/// The SAM commands of the pipeline.
pub open spec fn staging_sam<'a>(ctx: &'a StagingCtx) -> SamLocal<'a> {
    SamLocal { config: &ctx.cfg, env: Some(ctx.env), verbose: ctx.verbose, dry_run: ctx.dry_run }
}

/// The certificate generation script.
pub open spec fn gen_script(cfg: ProjectConfig) -> Seq<char> {
    join_path(join_path(cfg.repo_root@, "cloud"@), cfg.gen_certs_script@)
}

/// The certificates directory.
pub open spec fn certs_dir(cfg: ProjectConfig) -> Seq<char> {
    join_path(cfg.repo_root@, cfg.certs_dir_name@)
}

/// The pipeline with another stage.
pub open spec fn staging_moved(m: Staging, r: (Staging, Step), stage: StagingStage) -> bool {
    r.0.ctx == m.ctx && r.0.stage == stage
}

/// The pipeline ends with `result` after `notices`.
pub open spec fn staging_ends(
    m: Staging,
    r: (Staging, Step),
    notices: Seq<(NoticeLevel, Seq<char>)>,
    result: Result<i32, CliError>,
) -> bool {
    staging_moved(m, r, StagingStage::Done) && notices_view(r.1.notices@) =~= notices && r.1.action == Action::Finish(result)
}

/// The failure of a test stage.
pub open spec fn failed_see(what: Seq<char>, log: Seq<char>) -> Seq<(NoticeLevel, Seq<char>)> {
    seq![(NoticeLevel::Error, what + " failed (see "@ + log + ")"@)]
}

/// Start of the cloud integration tests once the endpoint `url` is known,
/// after `notices`.
pub open spec fn staging_local_tests(m: Staging, r: (Staging, Step), url: Seq<char>, notices: Seq<(NoticeLevel, Seq<char>)>) -> bool {
    &&& r.0.ctx.verbose == m.ctx.verbose && r.0.ctx.dry_run == m.ctx.dry_run && r.0.ctx.cfg == m.ctx.cfg
        && r.0.ctx.env == m.ctx.env && r.0.ctx.url@ == url
    &&& r.0.stage is LocalTests
    &&& notices_view(r.1.notices@) =~= notices
    &&& is_logged_run(
        r.1.action,
        seq!["uv"@, "run"@, "pytest"@, "tests/integration/"@, "-m"@, "local"@, "-v"@],
        m.ctx.cfg.cloud_dir@,
        vars_map(m.ctx.env@).insert("SAM_LOCAL_URL"@, url),
        staging_log(m.ctx, "staging_integration_tests.log"@),
        m.ctx.verbose,
        m.ctx.dry_run,
    )
}

/// The mTLS tests: the production endpoint and the certificates directory.
pub open spec fn staging_mtls(m: Staging, r: (Staging, Step), notices: Seq<(NoticeLevel, Seq<char>)>) -> bool {
    &&& staging_moved(m, r, StagingStage::MtlsTests)
    &&& notices_view(r.1.notices@) =~= notices
    &&& is_logged_run(
        r.1.action,
        seq!["uv"@, "run"@, "pytest"@, "tests/integration/"@, "-m"@, "remote"@, "-v"@],
        m.ctx.cfg.cloud_dir@,
        vars_map(m.ctx.env@).insert("API_ENDPOINT"@, m.ctx.cfg.prod_api_endpoint@).insert(
            "TEST_CERT_DIR"@,
            certs_dir(m.ctx.cfg),
        ),
        staging_log(m.ctx, "mtls_tests.log"@),
        m.ctx.verbose,
        m.ctx.dry_run,
    )
}

/// How the pipeline goes on after a step `r2` of the dev gate.
pub open spec fn staging_after_gate(m: Staging, r2: (Dev, Step), r: (Staging, Step)) -> bool {
    match r2.1.action {
        Action::Finish(Err(err)) => staging_ends(m, r, notices_view(r2.1.notices@), Err(err)),
        Action::Finish(Ok(rc)) => if rc == 0 {
            r.0.ctx == m.ctx && (r.0.stage matches StagingStage::Loading(l) && !l.merging && l.path@ == m.ctx.cfg.env_staging@)
                && notices_view(r.1.notices@) =~= notices_view(r2.1.notices@).push(
                (NoticeLevel::Step, "Loading "@ + ".env.staging"@),
            ) && (r.1.action matches Action::ReadFile(f) && f@ == m.ctx.cfg.env_staging@)
        } else {
            staging_ends(
                m,
                r,
                notices_view(r2.1.notices@).push((NoticeLevel::Error, "Dev pipeline failed. Aborting staging."@)),
                Ok(rc),
            )
        },
        _ => staging_moved(m, r, StagingStage::Gate(r2.0)) && r.1 == r2.1,
    }
}

/// How the pipeline goes on after a step `p` of loading `.env.staging`.
pub open spec fn staging_after_load(m: Staging, p: Progress<EnvLoad, LoadedEnv>, r: (Staging, Step)) -> bool {
    match p {
        Progress::Next(l2, s) => staging_moved(m, r, StagingStage::Loading(l2)) && r.1 == s,
        Progress::Done(_, Err(err)) => staging_ends(m, r, Seq::empty(), Err(err)),
        Progress::Done(_, Ok(le)) => {
            &&& r.0.ctx.verbose == m.ctx.verbose && r.0.ctx.dry_run == m.ctx.dry_run && r.0.ctx.cfg == m.ctx.cfg
            &&& vars_map(r.0.ctx.env@) == vars_map(le.process@).union_prefer_right(vars_map(le.vars@))
            &&& r.0.stage matches StagingStage::Checking(q) && q.need_docker && !q.docker && texts_of(q.tools@)
                == seq!["uv"@, "sam"@, "docker"@, "openssl"@]
            &&& r.1.notices@.len() == 0
            &&& r.1.action matches Action::FindTools(ts) && texts_of(ts@) == seq!["uv"@, "sam"@, "docker"@, "openssl"@]
        },
    }
}

/// How the pipeline goes on after a step `p` of the tool check: the SAM
/// build starts.
pub open spec fn staging_after_check(m: Staging, p: Progress<Require, ()>, r: (Staging, Step)) -> bool {
    match p {
        Progress::Next(q2, s) => staging_moved(m, r, StagingStage::Checking(q2)) && r.1 == s,
        Progress::Done(_, Err(err)) => staging_ends(m, r, Seq::empty(), Err(err)),
        Progress::Done(_, Ok(())) => r.0.ctx == m.ctx && (r.0.stage matches StagingStage::Building(BuildStage::Exporting(sb))
            && is_build_run(staging_sam(&m.ctx), false, sb.build.0, sb.build.1)) && notices_view(r.1.notices@) =~= seq![
            (NoticeLevel::Step, "Exporting runtime dependencies"@),
        ] && (r.1.action matches Action::Run(c, o) && is_export_run(staging_sam(&m.ctx), c, o)),
    }
}

/// How the pipeline goes on after a step `p` of the build: the dev stack
/// is deployed.
pub open spec fn staging_after_build(m: Staging, p: Progress<BuildStage, ()>, r: (Staging, Step)) -> bool {
    match p {
        Progress::Next(b2, s) => staging_moved(m, r, StagingStage::Building(b2)) && r.1 == s,
        Progress::Done(_, Err(err)) => staging_ends(m, r, Seq::empty(), Err(err)),
        Progress::Done(ns, Ok(())) => r.0.ctx == m.ctx && (r.0.stage matches StagingStage::Deploying(d) && d.config_env@
            == m.ctx.cfg.sam_config_env_dev@ && d.log_path@ == deploy_log(staging_sam(&m.ctx), m.ctx.cfg.sam_config_env_dev@)
            && (r.1.action matches Action::Run(c, o) && is_deploy_run(
            staging_sam(&m.ctx),
            m.ctx.cfg.sam_config_env_dev@,
            false,
            c,
            o,
        ) && texts_of(c@) == texts_of(d.cmd@))) && notices_view(r.1.notices@) =~= notices_view(ns@).push(
            (NoticeLevel::Step, "Deploying to "@ + m.ctx.cfg.sam_config_env_dev@ + " stack"@),
        ),
    }
}

/// How the pipeline goes on after the deployment ended with `d`: the dev
/// stack's endpoint is looked up.
pub open spec fn staging_after_deploy(m: Staging, d: (Vec<Notice>, Result<bool, CliError>), r: (Staging, Step)) -> bool {
    match d.1 {
        Err(err) => staging_ends(m, r, notices_view(d.0@), Err(err)),
        Ok(_) => {
            let before = notices_view(d.0@).push((NoticeLevel::Step, "Running integration tests against deployed dev stack"@));
            exists|p: Progress<Endpoint, String>| endpoint_started(staging_sam(&m.ctx), m.ctx.cfg.sam_config_env_dev@, p) && match p {
                Progress::Next(ep, s) => staging_moved(m, r, StagingStage::Locating(ep)) && notices_view(r.1.notices@)
                    =~= before && r.1.action == s.action,
                Progress::Done(_, Ok(url)) => staging_local_tests(m, r, url@, before),
                Progress::Done(_, Err(err)) => staging_ends(m, r, before, Err(err)),
            }
        },
    }
}

/// How the pipeline goes on after a step `p` of finding the endpoint.
pub open spec fn staging_after_locate(m: Staging, p: Progress<Endpoint, String>, r: (Staging, Step)) -> bool {
    match p {
        Progress::Next(ep, s) => staging_moved(m, r, StagingStage::Locating(ep)) && r.1 == s,
        Progress::Done(_, Err(err)) => staging_ends(m, r, Seq::empty(), Err(err)),
        Progress::Done(_, Ok(url)) => staging_local_tests(m, r, url@, Seq::empty()),
    }
}

/// The staging pipeline's step for an event.
pub open spec fn staging_steps(m: Staging, e: Event, r: (Staging, Step)) -> bool {
    match m.stage {
        StagingStage::Gate(d) => exists|r2: (Dev, Step)| dev_steps(d, e, r2) && staging_after_gate(m, r2, r),
        StagingStage::Loading(l) => exists|p: Progress<EnvLoad, LoadedEnv>| env_load_steps(l, e, p) && staging_after_load(m, p, r),
        StagingStage::Checking(q) => exists|p: Progress<Require, ()>| require_steps(q, e, p) && staging_after_check(m, p, r),
        StagingStage::Building(b) => exists|p: Progress<BuildStage, ()>| build_steps(b, e, p) && staging_after_build(m, p, r),
        StagingStage::Deploying(d) => exists|x: (Vec<Notice>, Result<bool, CliError>)| deploy_steps(d, e, x) && staging_after_deploy(m, x, r),
        StagingStage::Locating(ep) => exists|p: Progress<Endpoint, String>| endpoint_steps(ep, e, p) && staging_after_locate(m, p, r),
        StagingStage::LocalTests => match e {
            Event::Ran(Err(_)) => staging_ends(
                m,
                r,
                failed_see("Staging integration tests"@, staging_log(m.ctx, "staging_integration_tests.log"@)),
                Ok(1),
            ),
            Event::Ran(Ok(_)) => staging_moved(m, r, StagingStage::HostTarget) && notices_view(r.1.notices@) =~= seq![
                (NoticeLevel::Success, "Staging integration tests passed"@),
                (NoticeLevel::Step, "Running Rust device integration tests against deployed stack"@),
            ] && is_captured_run(r.1.action, seq!["rustc"@, "-vV"@]),
            _ => false,
        },
        StagingStage::HostTarget => match e {
            Event::Ran(Err(err)) => staging_ends(m, r, Seq::empty(), Err(err)),
            Event::Ran(Ok(o)) => match host_line(lines(o.stdout@)) {
                None => r.0.stage is Done && r.0.ctx == m.ctx && r.1.notices@.len() == 0 && (r.1.action matches Action::Finish(
                    Err(CliError::Config(t)),
                ) && t@ == "could not determine host target from `rustc -vV`"@),
                Some(target) => staging_moved(m, r, StagingStage::DeviceTests) && r.1.notices@.len() == 0
                    && is_logged_run(
                    r.1.action,
                    seq!["cargo"@, "test"@, "--test"@, "deployed_roundtrip"@, "--target"@, target],
                    m.ctx.cfg.device_dir@,
                    vars_map(m.ctx.env@).insert("DEPLOYED_URL"@, m.ctx.url@),
                    staging_log(m.ctx, "device_deployed_tests.log"@),
                    m.ctx.verbose,
                    m.ctx.dry_run,
                ),
            },
            _ => false,
        },
        StagingStage::DeviceTests => match e {
            Event::Ran(Err(_)) => staging_ends(
                m,
                r,
                failed_see("Rust device integration tests"@, staging_log(m.ctx, "device_deployed_tests.log"@)),
                Ok(1),
            ),
            Event::Ran(Ok(_)) => staging_moved(m, r, StagingStage::CheckingCa) && notices_view(r.1.notices@) =~= seq![
                (NoticeLevel::Success, "Rust device integration tests passed"@),
                (NoticeLevel::Step, "Verifying mTLS against production endpoint"@),
            ] && (r.1.action matches Action::PathExists(f) && f@ == join_path(certs_dir(m.ctx.cfg), "ca/ca.pem"@)),
            _ => false,
        },
        StagingStage::CheckingCa => match e {
            Event::Exists(false) => staging_moved(m, r, StagingStage::GeneratingCa) && notices_view(r.1.notices@) =~= seq![
                (NoticeLevel::Step, "Generating test CA"@),
            ] && is_plain_run(
                r.1.action,
                seq![gen_script(m.ctx.cfg), "ca"@],
                m.ctx.cfg.cloud_dir@,
                vars_map(m.ctx.env@),
                m.ctx.verbose,
                m.ctx.dry_run,
            ),
            Event::Exists(true) => staging_moved(m, r, StagingStage::CheckingDeviceCert) && r.1.notices@.len() == 0
                && (r.1.action matches Action::PathExists(f) && f@ == join_path(
                certs_dir(m.ctx.cfg),
                "devices/test-device/client.pem"@,
            )),
            _ => false,
        },
        StagingStage::GeneratingCa => match e {
            Event::Ran(Err(err)) => staging_ends(m, r, Seq::empty(), Err(err)),
            Event::Ran(Ok(_)) => staging_moved(m, r, StagingStage::CheckingDeviceCert) && r.1.notices@.len() == 0
                && (r.1.action matches Action::PathExists(f) && f@ == join_path(
                certs_dir(m.ctx.cfg),
                "devices/test-device/client.pem"@,
            )),
            _ => false,
        },
        StagingStage::CheckingDeviceCert => match e {
            Event::Exists(false) => staging_moved(m, r, StagingStage::GeneratingDeviceCert) && notices_view(r.1.notices@)
                =~= seq![(NoticeLevel::Step, "Generating test-device certificate"@)] && is_plain_run(
                r.1.action,
                seq![gen_script(m.ctx.cfg), "device"@, "test-device"@],
                m.ctx.cfg.cloud_dir@,
                vars_map(m.ctx.env@),
                m.ctx.verbose,
                m.ctx.dry_run,
            ),
            Event::Exists(true) => staging_mtls(m, r, Seq::empty()),
            _ => false,
        },
        StagingStage::GeneratingDeviceCert => match e {
            Event::Ran(Err(err)) => staging_ends(m, r, Seq::empty(), Err(err)),
            Event::Ran(Ok(_)) => staging_mtls(m, r, Seq::empty()),
            _ => false,
        },
        StagingStage::MtlsTests => match e {
            Event::Ran(Err(_)) => staging_ends(m, r, failed_see("mTLS verification"@, staging_log(m.ctx, "mtls_tests.log"@)), Ok(1)),
            Event::Ran(Ok(_)) => staging_ends(
                m,
                r,
                seq![(NoticeLevel::Success, "mTLS verification passed"@), (NoticeLevel::Success, "\nStaging pipeline passed."@)],
                Ok(0),
            ),
            _ => false,
        },
        StagingStage::Done => false,
    }
}

/// The events that the staging pipeline waits for.
pub open spec fn staging_expects(m: Staging, e: Event) -> bool {
    match m.stage {
        StagingStage::Gate(d) => dev_expects(d, e),
        StagingStage::Loading(l) => env_load_expects(l, e),
        StagingStage::Checking(q) => require_expects(q, e),
        StagingStage::Building(_) | StagingStage::Deploying(_) => e is Ran,
        StagingStage::Locating(ep) => endpoint_expects(ep, e),
        StagingStage::LocalTests | StagingStage::HostTarget | StagingStage::DeviceTests | StagingStage::GeneratingCa
        | StagingStage::GeneratingDeviceCert | StagingStage::MtlsTests => e is Ran,
        StagingStage::CheckingCa | StagingStage::CheckingDeviceCert => e is Exists,
        StagingStage::Done => false,
    }
}

/// Whether the staging pipeline waits for `e` (`staging_expects`), tested.
pub fn staging_accepts(m: &Staging, e: &Event) -> (b: bool)
    ensures
        b == staging_expects(*m, *e),
{
    match &m.stage {
        StagingStage::Gate(d) => dev_accepts(d, e),
        StagingStage::Loading(l) => env_load_accepts(l, e),
        StagingStage::Checking(q) => require_accepts(q, e),
        StagingStage::Building(_) | StagingStage::Deploying(_) => matches!(e, Event::Ran(_)),
        StagingStage::Locating(ep) => endpoint_accepts(ep, e),
        StagingStage::LocalTests | StagingStage::HostTarget | StagingStage::DeviceTests | StagingStage::GeneratingCa
        | StagingStage::GeneratingDeviceCert | StagingStage::MtlsTests => matches!(e, Event::Ran(_)),
        StagingStage::CheckingCa | StagingStage::CheckingDeviceCert => matches!(e, Event::Exists(_)),
        StagingStage::Done => false,
    }
}

/// How the staging pipeline starts.
pub open spec fn staging_started(args: StagingArgs, cfg: ProjectConfig, skip_dev_gate: bool, r: (Staging, Step)) -> bool {
    &&& (r.0.ctx.verbose == args.verbose && r.0.ctx.dry_run == args.dry_run)
    &&& (r.0.ctx.cfg.same_but_port(&cfg) && r.0.ctx.cfg.sam_local_port == cfg.sam_local_port)
    &&& (!skip_dev_gate ==> (r.0.stage matches StagingStage::Gate(d) && d.ctx.verbose == args.verbose && d.ctx.dry_run
            == args.dry_run && !d.ctx.serve && d.ctx.cfg.same_but_port(&cfg) && d.ctx.cfg.sam_local_port == cfg.sam_local_port
            && (d.stage matches crate::cli::dev::DevStage::Loading(l) && l.path@ == cfg.env_dev@)) && notices_view(
            r.1.notices@,
        ) =~= seq![(NoticeLevel::Step, "Running dev gate"@), (NoticeLevel::Step, "Loading "@ + ".env.dev"@)] && (r.1.action matches Action::ReadFile(
            f,
        ) && f@ == cfg.env_dev@))
    &&& (skip_dev_gate ==> (r.0.stage matches StagingStage::Loading(l) && !l.merging && l.path@ == cfg.env_staging@)
            && notices_view(r.1.notices@) =~= seq![(NoticeLevel::Step, "Loading "@ + ".env.staging"@)] && (r.1.action matches Action::ReadFile(
            f,
        ) && f@ == cfg.env_staging@))
}

/// Start the staging pipeline: the dev pipeline runs first as a gate,
/// unless it is skipped; then `.env.staging` is loaded.
pub fn staging_start(args: &StagingArgs, cfg: &ProjectConfig, skip_dev_gate: bool) -> (r: (Staging, Step))
    ensures
        staging_started(*args, *cfg, skip_dev_gate, r),
{
    let ctx = StagingCtx {
        verbose: args.verbose,
        dry_run: args.dry_run,
        cfg: cfg.with_port(cfg.sam_local_port),
        env: Vec::new(),
        url: String::new(),
    };
    if !skip_dev_gate {
        let (d, s) = dev_start(&DevArgs { verbose: args.verbose, dry_run: args.dry_run, serve: false, stop: false }, cfg);
        let mut notices = one(NoticeLevel::Step, "Running dev gate");
        let mut rest = s.notices;
        let ghost n0 = notices_view(notices@);
        let ghost n1 = notices_view(rest@);
        notices.append(&mut rest);
        assert(notices_view(notices@) =~= n0 + n1);
        (Staging { ctx, stage: StagingStage::Gate(d) }, Step { notices, action: s.action })
    } else {
        let (l, s) = env_load_start(cfg.env_staging.as_str(), ".env.staging");
        (Staging { ctx, stage: StagingStage::Loading(l) }, s)
    }
}

fn sam_of<'a>(ctx: &'a StagingCtx) -> (s: SamLocal<'a>)
    ensures
        s.config == &ctx.cfg,
        crate::cli::runner::opt_vars(s.env) == Some(vars_map(ctx.env@)),
        s.verbose == ctx.verbose && s.dry_run == ctx.dry_run,
{
    SamLocal::new(&ctx.cfg, Some(copy_vars(&ctx.env)), ctx.verbose, ctx.dry_run)
}

fn log_path(ctx: &StagingCtx, name: &str) -> (p: String)
    ensures
        p@ == staging_log(*ctx, name@),
{
    join(ctx.cfg.log_dir.as_str(), name)
}

fn failed(what: &str, log: &String) -> (v: Vec<Notice>)
    ensures
        notices_view(v@) == failed_see(what@, log@),
{
    let mut t = to_string(what);
    push_str(&mut t, " failed (see ");
    push_str(&mut t, log.as_str());
    push_str(&mut t, ")");
    let mut v: Vec<Notice> = Vec::new();
    push_notice(&mut v, NoticeLevel::Error, t);
    assert(notices_view(v@) =~= failed_see(what@, log@));
    v
}

fn end(ctx: StagingCtx, notices: Vec<Notice>, result: Result<i32, CliError>) -> (r: (Staging, Step))
    ensures
        r.0.ctx == ctx && r.0.stage is Done && r.1.notices == notices && r.1.action == Action::Finish(result),
{
    (Staging { ctx, stage: StagingStage::Done }, Step { notices, action: Action::Finish(result) })
}

/// The cloud integration tests against `url`, after `notices`.
fn local_tests(ctx: StagingCtx, url: String, notices: Vec<Notice>) -> (r: (Staging, Step))
    ensures
        staging_local_tests(Staging { ctx, stage: StagingStage::Done }, r, url@, notices_view(notices@)),
{
    let env = with_var(&ctx.env, "SAM_LOCAL_URL", url.as_str());
    let args = strings(&["uv", "run", "pytest", "tests/integration/", "-m", "local", "-v"]);
    assert(texts_of(args@) =~= seq!["uv"@, "run"@, "pytest"@, "tests/integration/"@, "-m"@, "local"@, "-v"@]);
    let log = log_path(&ctx, "staging_integration_tests.log");
    let a = logged_run(args, ctx.cfg.cloud_dir.as_str(), env, log, ctx.verbose, ctx.dry_run);
    let ctx2 = StagingCtx { verbose: ctx.verbose, dry_run: ctx.dry_run, cfg: ctx.cfg, env: ctx.env, url };
    (Staging { ctx: ctx2, stage: StagingStage::LocalTests }, Step { notices, action: a })
}

/// The mTLS tests, after `notices`.
fn mtls_tests(ctx: StagingCtx, notices: Vec<Notice>) -> (r: (Staging, Step))
    ensures
        staging_mtls(Staging { ctx, stage: StagingStage::Done }, r, notices_view(notices@)),
{
    let certs = ctx.cfg.certs_dir();
    let env1 = with_var(&ctx.env, "API_ENDPOINT", ctx.cfg.prod_api_endpoint.as_str());
    let env = with_var(&env1, "TEST_CERT_DIR", certs.as_str());
    let args = strings(&["uv", "run", "pytest", "tests/integration/", "-m", "remote", "-v"]);
    assert(texts_of(args@) =~= seq!["uv"@, "run"@, "pytest"@, "tests/integration/"@, "-m"@, "remote"@, "-v"@]);
    let log = log_path(&ctx, "mtls_tests.log");
    let a = logged_run(args, ctx.cfg.cloud_dir.as_str(), env, log, ctx.verbose, ctx.dry_run);
    (Staging { ctx, stage: StagingStage::MtlsTests }, Step { notices, action: a })
}

/// Looks for the test device's certificate.
fn check_device_cert(ctx: StagingCtx) -> (r: (Staging, Step))
    ensures
        r.0.ctx == ctx && r.0.stage is CheckingDeviceCert && r.1.notices@.len() == 0 && (r.1.action matches Action::PathExists(
            f,
        ) && f@ == join_path(certs_dir(ctx.cfg), "devices/test-device/client.pem"@)),
{
    let certs = ctx.cfg.certs_dir();
    let f = join(certs.as_str(), "devices/test-device/client.pem");
    (Staging { ctx, stage: StagingStage::CheckingDeviceCert }, Step { notices: Vec::new(), action: Action::PathExists(f) })
}

/// A certificate generation command.
fn generate(ctx: &StagingCtx, what: &[&str]) -> (a: Action)
    ensures
        is_plain_run(a, seq![gen_script(ctx.cfg)] + strs_of(what@), ctx.cfg.cloud_dir@, vars_map(ctx.env@), ctx.verbose, ctx.dry_run),
{
    let script = ctx.cfg.gen_certs_script_path();
    let mut args: Vec<String> = Vec::new();
    args.push(script);
    let rest = strings(what);
    let mut i: usize = 0;
    while i < rest.len()
        invariant
            i <= rest.len(),
            texts_of(args@) == seq![gen_script(ctx.cfg)] + texts_of(rest@.take(i as int)),
        decreases rest.len() - i,
    {
        let ghost before = texts_of(args@);
        args.push(rest[i].clone());
        assert(texts_of(args@) =~= before.push(rest@[i as int]@));
        assert(texts_of(rest@.take(i + 1)) =~= texts_of(rest@.take(i as int)).push(rest@[i as int]@));
        i += 1;
    }
    assert(rest@.take(rest.len() as int) =~= rest@);
    plain_run(args, ctx.cfg.cloud_dir.as_str(), copy_vars(&ctx.env), ctx.verbose, ctx.dry_run)
}

/// Next step of the staging pipeline. Each stage runs in turn; a failed
/// test stage shows where its log is and ends with status 1; a failed dev
/// gate ends with its status; any other failure ends with its error.
pub fn staging_step(m: Staging, e: Event) -> (r: (Staging, Step))
    requires
        staging_expects(m, e),
    ensures
        staging_steps(m, e, r),
{
    let ghost m0 = m;
    let Staging { ctx, stage } = m;
    match stage {
        StagingStage::Gate(d) => {
            let r2 = dev_step(d, e);
            let ghost g2 = r2;
            let (d2, s2) = r2;
            let r = match s2.action {
                Action::Finish(Err(err)) => end(ctx, s2.notices, Err(err)),
                Action::Finish(Ok(rc)) => {
                    let mut notices = s2.notices;
                    if rc == 0 {
                        push_notice(&mut notices, NoticeLevel::Step, to_string("Loading .env.staging"));
                        proof {
                            reveal_strlit("Loading .env.staging");
                            reveal_strlit("Loading ");
                            reveal_strlit(".env.staging");
                            assert("Loading .env.staging"@ =~= "Loading "@ + ".env.staging"@);
                        }
                        let (l, _) = env_load_start(ctx.cfg.env_staging.as_str(), ".env.staging");
                        let f = ctx.cfg.env_staging.clone();
                        (Staging { ctx, stage: StagingStage::Loading(l) }, Step { notices, action: Action::ReadFile(f) })
                    } else {
                        push_notice(&mut notices, NoticeLevel::Error, to_string("Dev pipeline failed. Aborting staging."));
                        end(ctx, notices, Ok(rc))
                    }
                },
                action => (Staging { ctx, stage: StagingStage::Gate(d2) }, Step { notices: s2.notices, action }),
            };
            assert(dev_steps(d, e, g2) && staging_after_gate(m0, g2, r));
            r
        },
        StagingStage::Loading(l) => {
            let p = env_load_step(l, e);
            let ghost gp = p;
            let r = match p {
                Progress::Next(l2, s) => (Staging { ctx, stage: StagingStage::Loading(l2) }, s),
                Progress::Done(_, Err(err)) => end(ctx, Vec::new(), Err(err)),
                Progress::Done(_, Ok(le)) => {
                    let env = make_env(&le.process, &le.vars);
                    let (q, s) = require_start(&["uv", "sam", "docker", "openssl"], true);
                    assert(strs_of(seq!["uv", "sam", "docker", "openssl"]) =~= seq!["uv"@, "sam"@, "docker"@, "openssl"@]);
                    (
                        Staging {
                            ctx: StagingCtx { verbose: ctx.verbose, dry_run: ctx.dry_run, cfg: ctx.cfg, env, url: ctx.url },
                            stage: StagingStage::Checking(q),
                        },
                        s,
                    )
                },
            };
            assert(env_load_steps(l, e, gp) && staging_after_load(m0, gp, r));
            r
        },
        StagingStage::Checking(q) => {
            let p = require_step(q, e);
            let ghost gp = p;
            let r = match p {
                Progress::Next(q2, s) => (Staging { ctx, stage: StagingStage::Checking(q2) }, s),
                Progress::Done(_, Err(err)) => end(ctx, Vec::new(), Err(err)),
                Progress::Done(_, Ok(())) => {
                    let (sb, s) = {
                        let sam = sam_of(&ctx);
                        sam_build_start(&sam, false)
                    };
                    (Staging { ctx, stage: StagingStage::Building(BuildStage::Exporting(sb)) }, s)
                },
            };
            assert(require_steps(q, e, gp) && staging_after_check(m0, gp, r));
            r
        },
        StagingStage::Building(b) => {
            let p = sam_build_step(b, e);
            let ghost gp = p;
            let r = match p {
                Progress::Next(b2, s) => (Staging { ctx, stage: StagingStage::Building(b2) }, s),
                Progress::Done(_, Err(err)) => end(ctx, Vec::new(), Err(err)),
                Progress::Done(ns, Ok(())) => {
                    let (d, s) = {
                        let sam = sam_of(&ctx);
                        deploy_start(&sam, ctx.cfg.sam_config_env_dev.as_str(), false)
                    };
                    let mut notices = ns;
                    let mut rest = s.notices;
                    let ghost n0 = notices_view(notices@);
                    let ghost n1 = notices_view(rest@);
                    notices.append(&mut rest);
                    assert(notices_view(notices@) =~= n0 + n1);
                    (Staging { ctx, stage: StagingStage::Deploying(d) }, Step { notices, action: s.action })
                },
            };
            assert(build_steps(b, e, gp) && staging_after_build(m0, gp, r));
            r
        },
        StagingStage::Deploying(d) => {
            let x = deploy_step(d, e);
            let ghost gx = x;
            let (ns, res) = x;
            let r = match res {
                Err(err) => end(ctx, ns, Err(err)),
                Ok(_) => {
                    let mut notices = ns;
                    push_notice(&mut notices, NoticeLevel::Step, to_string("Running integration tests against deployed dev stack"));
                    let p = {
                        let sam = sam_of(&ctx);
                        endpoint_start(&sam, ctx.cfg.sam_config_env_dev.as_str())
                    };
                    let ghost gp = p;
                    let r = match p {
                        Progress::Next(ep, s) => (Staging { ctx, stage: StagingStage::Locating(ep) }, Step { notices, action: s.action }),
                        Progress::Done(_, Ok(url)) => local_tests(ctx, url, notices),
                        Progress::Done(_, Err(err)) => end(ctx, notices, Err(err)),
                    };
                    assert(endpoint_started(staging_sam(&m0.ctx), m0.ctx.cfg.sam_config_env_dev@, gp));
                    r
                },
            };
            assert(deploy_steps(d, e, gx) && staging_after_deploy(m0, gx, r));
            r
        },
        StagingStage::Locating(ep) => {
            let p = endpoint_step(ep, e);
            let ghost gp = p;
            let r = match p {
                Progress::Next(ep2, s) => (Staging { ctx, stage: StagingStage::Locating(ep2) }, s),
                Progress::Done(_, Err(err)) => end(ctx, Vec::new(), Err(err)),
                Progress::Done(_, Ok(url)) => local_tests(ctx, url, Vec::new()),
            };
            assert(endpoint_steps(ep, e, gp) && staging_after_locate(m0, gp, r));
            r
        },
        StagingStage::LocalTests => match e {
            Event::Ran(Ok(_)) => {
                let mut notices = one(NoticeLevel::Success, "Staging integration tests passed");
                push_notice(&mut notices, NoticeLevel::Step, to_string("Running Rust device integration tests against deployed stack"));
                let args = strings(&["rustc", "-vV"]);
                assert(texts_of(args@) =~= seq!["rustc"@, "-vV"@]);
                (Staging { ctx, stage: StagingStage::HostTarget }, Step { notices, action: captured_run(args) })
            },
            _ => {
                let log = log_path(&ctx, "staging_integration_tests.log");
                let n = failed("Staging integration tests", &log);
                end(ctx, n, Ok(1))
            },
        },
        StagingStage::HostTarget => match e {
            Event::Ran(Ok(o)) => match host_target_from(o.stdout.as_str()) {
                Err(err) => end(ctx, Vec::new(), Err(err)),
                Ok(target) => {
                    let mut args = strings(&["cargo", "test", "--test", "deployed_roundtrip", "--target"]);
                    let ghost a0 = texts_of(args@);
                    args.push(target);
                    assert(texts_of(args@) =~= a0.push(target@));
                    let env = with_var(&ctx.env, "DEPLOYED_URL", ctx.url.as_str());
                    let log = log_path(&ctx, "device_deployed_tests.log");
                    let a = logged_run(args, ctx.cfg.device_dir.as_str(), env, log, ctx.verbose, ctx.dry_run);
                    (Staging { ctx, stage: StagingStage::DeviceTests }, Step { notices: Vec::new(), action: a })
                },
            },
            Event::Ran(Err(err)) => end(ctx, Vec::new(), Err(err)),
            _ => end(ctx, Vec::new(), Ok(0)),
        },
        StagingStage::DeviceTests => match e {
            Event::Ran(Ok(_)) => {
                let mut notices = one(NoticeLevel::Success, "Rust device integration tests passed");
                push_notice(&mut notices, NoticeLevel::Step, to_string("Verifying mTLS against production endpoint"));
                let certs = ctx.cfg.certs_dir();
                let f = join(certs.as_str(), "ca/ca.pem");
                (Staging { ctx, stage: StagingStage::CheckingCa }, Step { notices, action: Action::PathExists(f) })
            },
            _ => {
                let log = log_path(&ctx, "device_deployed_tests.log");
                let n = failed("Rust device integration tests", &log);
                end(ctx, n, Ok(1))
            },
        },
        StagingStage::CheckingCa => match e {
            Event::Exists(true) => check_device_cert(ctx),
            _ => {
                let a = generate(&ctx, &["ca"]);
                assert(strs_of(seq!["ca"]) =~= seq!["ca"@]);
                (Staging { ctx, stage: StagingStage::GeneratingCa }, Step { notices: one(NoticeLevel::Step, "Generating test CA"), action: a })
            },
        },
        StagingStage::GeneratingCa => match e {
            Event::Ran(Err(err)) => end(ctx, Vec::new(), Err(err)),
            _ => check_device_cert(ctx),
        },
        StagingStage::CheckingDeviceCert => match e {
            Event::Exists(true) => mtls_tests(ctx, Vec::new()),
            _ => {
                let a = generate(&ctx, &["device", "test-device"]);
                assert(strs_of(seq!["device", "test-device"]) =~= seq!["device"@, "test-device"@]);
                (
                    Staging { ctx, stage: StagingStage::GeneratingDeviceCert },
                    Step { notices: one(NoticeLevel::Step, "Generating test-device certificate"), action: a },
                )
            },
        },
        StagingStage::GeneratingDeviceCert => match e {
            Event::Ran(Err(err)) => end(ctx, Vec::new(), Err(err)),
            _ => mtls_tests(ctx, Vec::new()),
        },
        StagingStage::MtlsTests => match e {
            Event::Ran(Ok(_)) => {
                let mut notices = one(NoticeLevel::Success, "mTLS verification passed");
                push_notice(&mut notices, NoticeLevel::Success, to_string("\nStaging pipeline passed."));
                end(ctx, notices, Ok(0))
            },
            _ => {
                let log = log_path(&ctx, "mtls_tests.log");
                let n = failed("mTLS verification", &log);
                end(ctx, n, Ok(1))
            },
        },
        StagingStage::Done => end(ctx, Vec::new(), Ok(0)),
    }
}

/// The dev stack is deployed and tested only once the dev gate passed: no
/// step enters the dev gate, and a step that leaves it for anything but the
/// end comes from a dev pipeline that finished with status 0.
pub proof fn lemma_staging_runs_only_after_dev_gate(m: Staging, e: Event, r: (Staging, Step))
    requires
        staging_expects(m, e),
        staging_steps(m, e, r),
    ensures
        r.0.stage is Gate ==> m.stage is Gate,
        m.stage is Gate && !(r.0.stage is Gate) && !(r.0.stage is Done) ==> (m.stage matches StagingStage::Gate(d)
            && exists|r2: (Dev, Step)| dev_steps(d, e, r2) && r2.1.action == Action::Finish(Ok::<i32, CliError>(0))),
{
    if let StagingStage::Gate(d) = m.stage {
        let r2 = choose|r2: (Dev, Step)| dev_steps(d, e, r2) && staging_after_gate(m, r2, r);
        if !(r.0.stage is Gate) && !(r.0.stage is Done) {
            assert(dev_steps(d, e, r2) && r2.1.action == Action::Finish(Ok::<i32, CliError>(0)));
        }
    }
}

/// A run of the staging pipeline: states, the events it got, and the
/// steps it took.
pub open spec fn staging_run(ms: Seq<Staging>, es: Seq<Event>, ss: Seq<Step>) -> bool {
    &&& ms.len() == es.len() + 1 && ss.len() == es.len()
    &&& forall|i: int| 0 <= i < es.len() ==> #[trigger] staging_expects(ms[i], es[i]) && staging_steps(ms[i], es[i], (ms[i + 1], ss[i]))
}

/// The dev gate over a whole staging pipeline that begins with it: while
/// the dev gate is on, staging shows the messages and asks for the operations
/// that the dev pipeline does; a dev pipeline that fails ends staging with
/// its result; and every later stage other than the end is reached only
/// once the dev pipeline finished with status 0.
pub proof fn lemma_staging_gate_run(ms: Seq<Staging>, es: Seq<Event>, ss: Seq<Step>)
    requires
        staging_run(ms, es, ss),
        ms[0].stage is Gate,
    ensures
        forall|i: int|
            0 <= i < es.len() && (#[trigger] ms[i]).stage is Gate ==> (ms[i].stage matches StagingStage::Gate(d) && exists|
                r2: (Dev, Step),
            |
                dev_steps(d, es[i], r2) && (!(r2.1.action is Finish) ==> ss[i] == r2.1 && ms[i + 1].stage
                    == StagingStage::Gate(r2.0)) && (r2.1.action matches Action::Finish(Ok(rc)) ==> (rc != 0 ==> ss[i].action
                    == Action::Finish(Ok::<i32, CliError>(rc)) && ms[i + 1].stage is Done)) && (r2.1.action matches Action::Finish(
                    Err(err),
                ) ==> ss[i].action == Action::Finish(Err::<i32, CliError>(err)) && ms[i + 1].stage is Done)),
        forall|i: int|
            0 <= i <= es.len() && !((#[trigger] ms[i]).stage is Gate) && !(ms[i].stage is Done) ==> exists|k: int|
                0 <= k < i && ((#[trigger] ms[k]).stage matches StagingStage::Gate(d) && exists|r2: (Dev, Step)|
                    dev_steps(d, es[k], r2) && r2.1.action == Action::Finish(Ok::<i32, CliError>(0))),
{
    assert forall|i: int|
        0 <= i < es.len() && (#[trigger] ms[i]).stage is Gate implies (ms[i].stage matches StagingStage::Gate(d) && exists|
            r2: (Dev, Step),
        |
            dev_steps(d, es[i], r2) && (!(r2.1.action is Finish) ==> ss[i] == r2.1 && ms[i + 1].stage
                == StagingStage::Gate(r2.0)) && (r2.1.action matches Action::Finish(Ok(rc)) ==> (rc != 0 ==> ss[i].action
                == Action::Finish(Ok::<i32, CliError>(rc)) && ms[i + 1].stage is Done)) && (r2.1.action matches Action::Finish(
                Err(err),
            ) ==> ss[i].action == Action::Finish(Err::<i32, CliError>(err)) && ms[i + 1].stage is Done)) by {
        assert(staging_expects(ms[i], es[i]));
        if let StagingStage::Gate(d) = ms[i].stage {
            let r2 = choose|r2: (Dev, Step)| dev_steps(d, es[i], r2) && staging_after_gate(ms[i], r2, (ms[i + 1], ss[i]));
            assert(dev_steps(d, es[i], r2));
        }
    }
    assert forall|i: int|
        0 <= i <= es.len() && !((#[trigger] ms[i]).stage is Gate) && !(ms[i].stage is Done) implies exists|k: int|
            0 <= k < i && ((#[trigger] ms[k]).stage matches StagingStage::Gate(d) && exists|r2: (Dev, Step)|
                dev_steps(d, es[k], r2) && r2.1.action == Action::Finish(Ok::<i32, CliError>(0))) by {
        lemma_gate_passed_before(ms, es, ss, i);
    }
}

/// By induction, for `lemma_staging_gate_run`: when the pipeline begins
/// with the dev gate, a state neither in the dev gate nor at the end is
/// reached only once the dev pipeline finished with status 0.
proof fn lemma_gate_passed_before(ms: Seq<Staging>, es: Seq<Event>, ss: Seq<Step>, i: int)
    requires
        staging_run(ms, es, ss),
        ms[0].stage is Gate,
        0 <= i <= es.len(),
        !(ms[i].stage is Gate) && !(ms[i].stage is Done),
    ensures
        exists|k: int|
            0 <= k < i && ((#[trigger] ms[k]).stage matches StagingStage::Gate(d) && exists|r2: (Dev, Step)|
                dev_steps(d, es[k], r2) && r2.1.action == Action::Finish(Ok::<i32, CliError>(0))),
    decreases i,
{
    let j = i - 1;
    assert(staging_expects(ms[j], es[j]));
    lemma_staging_runs_only_after_dev_gate(ms[j], es[j], (ms[j + 1], ss[j]));
    if ms[j].stage is Gate {
        assert(0 <= j < i);
    } else {
        assert(!(ms[j].stage is Done));
        lemma_gate_passed_before(ms, es, ss, j);
    }
}

} // verus!
