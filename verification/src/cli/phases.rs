//! The decisions of the onboarding phases: the preflight checks, the
//! certificates (a small machine of its own), the device's registration,
//! and the HTTP client the registration uses.
use vstd::prelude::*;
use crate::cli::config::{join, join_path, ProjectConfig};
use crate::cli::error::{cli_message, CliError};
use crate::cli::onboard::{PhaseResult, PhaseStatus};
use crate::cli::pipeline::{captured_run, is_captured_run, is_docker_info, Action, Event, Progress, Step};
use crate::cli::preflight::{docker_answered, docker_info_run, missing_names, missing_tools};
use crate::cli::runner::{opt_text, strings, CommandOutput, RunOptions};
use crate::pattern::{
    is_empty_text, join_spec, join_strings, strip_prefix, strip_prefix_spec, strs_of, text_with_number, texts_of, trim_text,
};
use crate::text::{chars_eq, chars_of, decimal, push_str, to_string, trim};

verus! {

// ── Preflight ───────────────────────────────────────────────────────

/// The tools onboarding needs: openssl, cargo, espflash and docker, and
/// sam and aws in `aws` mode.
pub open spec fn onboard_tools_spec(mode: Seq<char>) -> Seq<Seq<char>> {
    seq!["openssl"@, "cargo"@, "espflash"@, "docker"@] + (if mode == "aws"@ {
        seq!["sam"@, "aws"@]
    } else {
        Seq::empty()
    })
}

/// The tools onboarding needs in `mode`.
pub fn onboard_tools(mode: &str) -> (v: Vec<String>)
    ensures
        texts_of(v@) == onboard_tools_spec(mode@),
{
    let mut v = strings(&["openssl", "cargo", "espflash", "docker"]);
    let ghost base = texts_of(v@);
    if chars_eq(&chars_of(mode), &chars_of("aws")) {
        v.push(to_string("sam"));
        v.push(to_string("aws"));
    }
    assert(texts_of(v@) =~= onboard_tools_spec(mode@));
    v
}

/// The preflight phase fails when tools are missing, naming them.
pub fn preflight_tools_result(missing: &Vec<String>) -> (r: Option<PhaseResult>)
    ensures
        missing@.len() == 0 ==> r is None,
        missing@.len() > 0 ==> (r matches Some(p) && p.status == PhaseStatus::Failed && p.message@ == "Missing tools: "@
            + join_spec(texts_of(missing@), ", "@)),
{
    if missing.len() == 0 {
        None
    } else {
        let mut m = to_string("Missing tools: ");
        let list = join_strings(missing, ", ");
        push_str(&mut m, list.as_str());
        Some(PhaseResult { status: PhaseStatus::Failed, message: m })
    }
}

/// The rest of the preflight phase, once the tools are there: Docker must
/// run, then `.env.dev` must exist.
pub fn preflight_result(docker_running: bool, env_dev_exists: bool, env_dev: &str) -> (r: PhaseResult)
    ensures
        !docker_running ==> r.status == PhaseStatus::Failed && r.message@ == "Docker daemon is not running"@,
        docker_running && !env_dev_exists ==> r.status == PhaseStatus::Failed && r.message@ == ".env.dev not found at "@
            + env_dev@,
        docker_running && env_dev_exists ==> r.status == PhaseStatus::Passed && r.message@.len() == 0,
{
    if !docker_running {
        PhaseResult::failed("Docker daemon is not running")
    } else if !env_dev_exists {
        let mut m = to_string(".env.dev not found at ");
        push_str(&mut m, env_dev);
        PhaseResult { status: PhaseStatus::Failed, message: m }
    } else {
        PhaseResult::passed()
    }
}

/// Where the preflight phase stands.
#[derive(Debug, Clone, Copy, PartialEq, Eq, Structural)]
pub enum PreflightStage {
    /// Looking for the tools on the path.
    Tools,
    /// Asking whether Docker runs.
    Docker,
    /// Looking for `.env.dev`.
    EnvFile,
}

/// The preflight phase: the tools it needs, where `.env.dev` is, and where
/// it stands.
pub struct Preflight {
    pub tools: Vec<String>,
    pub env_dev: String,
    pub stage: PreflightStage,
}

/// Start the preflight phase: look for the tools `mode` needs.
pub fn preflight_start(cfg: &ProjectConfig, mode: &str) -> (r: (Preflight, Action))
    ensures
        texts_of(r.0.tools@) == onboard_tools_spec(mode@),
        r.0.env_dev == cfg.env_dev,
        r.0.stage == PreflightStage::Tools,
        r.1 matches Action::FindTools(ts) && texts_of(ts@) == onboard_tools_spec(mode@),
{
    let tools = onboard_tools(mode);
    let ask = onboard_tools(mode);
    (Preflight { tools, env_dev: cfg.env_dev.clone(), stage: PreflightStage::Tools }, Action::FindTools(ask))
}

/// The events that the preflight phase waits for.
pub open spec fn preflight_expects(m: Preflight, e: Event) -> bool {
    match m.stage {
        PreflightStage::Tools => e matches Event::ToolsFound(f) && f@.len() == m.tools@.len(),
        PreflightStage::Docker => e is Ran,
        PreflightStage::EnvFile => e is Exists,
    }
}

/// Whether the preflight phase waits for `e` (`preflight_expects`), tested.
pub fn preflight_accepts(m: &Preflight, e: &Event) -> (b: bool)
    ensures
        b == preflight_expects(*m, *e),
{
    match m.stage {
        PreflightStage::Tools => match e {
            Event::ToolsFound(f) => f.len() == m.tools.len(),
            _ => false,
        },
        PreflightStage::Docker => matches!(e, Event::Ran(_)),
        PreflightStage::EnvFile => matches!(e, Event::Exists(_)),
    }
}

/// The phase ends, failed with `msg`.
pub open spec fn preflight_failed(p: Progress<Preflight, PhaseResult>, msg: Seq<char>) -> bool {
    p matches Progress::Done(ns, Ok(r)) && ns@.len() == 0 && r.status == PhaseStatus::Failed && r.message@ == msg
}

/// The phase goes on to `stage`, asking for `a`.
pub open spec fn preflight_moves(m: Preflight, p: Progress<Preflight, PhaseResult>, stage: PreflightStage, a: Action) -> bool {
    p matches Progress::Next(m2, s) && m2.tools == m.tools && m2.env_dev == m.env_dev && m2.stage == stage
        && s.notices@.len() == 0 && s.action == a
}

/// A step of the preflight phase: missing tools fail it, naming them;
/// then `docker info` must answer; then `.env.dev` must exist.
pub open spec fn preflight_steps(m: Preflight, e: Event, p: Progress<Preflight, PhaseResult>) -> bool {
    match m.stage {
        PreflightStage::Tools => e matches Event::ToolsFound(f) && {
            let missing = missing_tools(texts_of(m.tools@), f@);
            if missing.len() > 0 {
                preflight_failed(p, "Missing tools: "@ + join_spec(missing, ", "@))
            } else {
                p matches Progress::Next(m2, s) && m2.tools == m.tools && m2.env_dev == m.env_dev && m2.stage
                    == PreflightStage::Docker && s.notices@.len() == 0 && is_docker_info(s.action)
            }
        },
        PreflightStage::Docker => e matches Event::Ran(res) && if res matches Ok(o) && o.status == 0 {
            p matches Progress::Next(m2, s) && m2.tools == m.tools && m2.env_dev == m.env_dev && m2.stage
                == PreflightStage::EnvFile && s.notices@.len() == 0 && (s.action matches Action::PathExists(q) && q@
                == m.env_dev@)
        } else {
            preflight_failed(p, "Docker daemon is not running"@)
        },
        PreflightStage::EnvFile => e matches Event::Exists(b) && if b {
            p matches Progress::Done(ns, Ok(r)) && ns@.len() == 0 && r.status == PhaseStatus::Passed && r.message@.len()
                == 0
        } else {
            preflight_failed(p, ".env.dev not found at "@ + m.env_dev@)
        },
    }
}

/// Next step of the preflight phase.
pub fn preflight_step(m: Preflight, e: Event) -> (p: Progress<Preflight, PhaseResult>)
    requires
        preflight_expects(m, e),
    ensures
        preflight_steps(m, e, p),
{
    match e {
        Event::ToolsFound(f) => {
            let missing = missing_names(&m.tools, &f);
            match preflight_tools_result(&missing) {
                Some(r) => Progress::Done(Vec::new(), Ok(r)),
                None => {
                    let (c, o) = docker_info_run();
                    Progress::Next(
                        Preflight { tools: m.tools, env_dev: m.env_dev, stage: PreflightStage::Docker },
                        Step { notices: Vec::new(), action: Action::Run(c, o) },
                    )
                },
            }
        },
        Event::Ran(res) => {
            if docker_answered(&res) {
                let q = m.env_dev.clone();
                Progress::Next(
                    Preflight { tools: m.tools, env_dev: m.env_dev, stage: PreflightStage::EnvFile },
                    Step { notices: Vec::new(), action: Action::PathExists(q) },
                )
            } else {
                Progress::Done(Vec::new(), Ok(preflight_result(false, false, m.env_dev.as_str())))
            }
        },
        Event::Exists(b) => Progress::Done(Vec::new(), Ok(preflight_result(true, b, m.env_dev.as_str()))),
        _ => Progress::Done(Vec::new(), Ok(PhaseResult::passed())),
    }
}

/// The preflight phase as a whole: missing tools fail it, naming them,
/// before Docker is asked; otherwise `docker info` is the one command run,
/// and a Docker that does not answer fails it; otherwise it fails when
/// `.env.dev` is missing and passes when it is there.
pub proof fn lemma_preflight_phase(
    m0: Preflight,
    found: Vec<bool>,
    p1: Progress<Preflight, PhaseResult>,
    ran: Result<CommandOutput, CliError>,
    p2: Progress<Preflight, PhaseResult>,
    exists: bool,
    p3: Progress<Preflight, PhaseResult>,
)
    requires
        m0.stage == PreflightStage::Tools,
        preflight_steps(m0, Event::ToolsFound(found), p1),
        p1 matches Progress::Next(m1, _) ==> preflight_steps(m1, Event::Ran(ran), p2),
        p2 matches Progress::Next(m2, _) ==> preflight_steps(m2, Event::Exists(exists), p3),
    ensures
        ({
            let missing = missing_tools(texts_of(m0.tools@), found@);
            let answered = ran matches Ok(o) && o.status == 0;
            &&& missing.len() > 0 ==> preflight_failed(p1, "Missing tools: "@ + join_spec(missing, ", "@))
            &&& missing.len() == 0 ==> (p1 matches Progress::Next(_, s) && is_docker_info(s.action))
            &&& missing.len() == 0 && !answered ==> preflight_failed(p2, "Docker daemon is not running"@)
            &&& missing.len() == 0 && answered ==> (p2 matches Progress::Next(_, s) && (s.action matches Action::PathExists(
                q,
            ) && q@ == m0.env_dev@))
            &&& missing.len() == 0 && answered && !exists ==> preflight_failed(p3, ".env.dev not found at "@ + m0.env_dev@)
            &&& missing.len() == 0 && answered && exists ==> (p3 matches Progress::Done(_, Ok(r)) && r.status
                == PhaseStatus::Passed)
        }),
{
}

// ── Certificates ────────────────────────────────────────────────────

/// The subject that `openssl x509 -noout -subject` printed: the trimmed
/// output without its `subject=` prefix, trimmed again.
pub open spec fn subject_dn_spec(stdout: Seq<char>) -> Seq<char> {
    match strip_prefix_spec(trim(stdout), "subject="@) {
        Some(rest) => trim(rest),
        None => trim(trim(stdout)),
    }
}

/// The subject DN from `openssl`'s output.
pub fn subject_dn(stdout: &str) -> (dn: String)
    ensures
        dn@ == subject_dn_spec(stdout@),
{
    let t = trim_text(stdout);
    match strip_prefix(t.as_str(), "subject=") {
        Some(rest) => trim_text(rest.as_str()),
        None => trim_text(t.as_str()),
    }
}

/// What the certificates phase works with.
pub struct CertsCtx {
    pub repo_root: String,
    /// The certificates directory.
    pub certs_dir: String,
    pub gen_script: String,
    pub ca_pem: String,
    pub client_pem: String,
    pub device_name: String,
    pub aws: bool,
    pub verbose: bool,
    pub dry_run: bool,
}

/// Where the certificates phase stands.
#[derive(Debug, Clone, Copy, PartialEq, Eq, Structural)]
pub enum CertsStage {
    /// Whether the CA exists, to skip the phase when everything does.
    FirstCa,
    /// Whether the device's certificate exists too.
    FirstClient,
    /// Whether the CA exists, before generating it.
    Ca,
    /// Generating the CA.
    GeneratingCa,
    /// Whether the device's certificate exists, before generating it.
    Client,
    /// Generating the device's certificate.
    GeneratingClient,
    /// Reading the certificate's subject; `present` tells whether all
    /// certificates were there from the start.
    ReadingSubject { present: bool },
    /// Uploading the CA as the API Gateway truststore.
    Uploading { present: bool },
}

/// The certificates phase.
pub struct Certs {
    pub ctx: CertsCtx,
    pub stage: CertsStage,
    /// The subject DN, once read.
    pub subject: Option<String>,
}

/// How the certificates phase ended: its result, the subject DN when one
/// was read, and the certificates directory once the certificates exist
/// (found or generated), which onboarding records.
pub struct CertsOutcome {
    pub result: PhaseResult,
    pub subject_dn: Option<String>,
    pub certs_dir: Option<String>,
}

/// The context of the certificates phase for `device_name`.
pub open spec fn certs_ctx_of(cfg: ProjectConfig, device_name: Seq<char>, mode: Seq<char>, verbose: bool, dry_run: bool, c: CertsCtx) -> bool {
    let certs = join_path(cfg.repo_root@, cfg.certs_dir_name@);
    &&& c.repo_root@ == cfg.repo_root@
    &&& c.certs_dir@ == certs
    &&& c.gen_script@ == join_path(join_path(cfg.repo_root@, "cloud"@), cfg.gen_certs_script@)
    &&& c.ca_pem@ == join_path(certs, "ca/ca.pem"@)
    &&& c.client_pem@ == join_path(join_path(join_path(certs, "devices"@), device_name), "client.pem"@)
    &&& c.device_name@ == device_name
    &&& c.aws == (mode == "aws"@)
    &&& c.verbose == verbose && c.dry_run == dry_run
}

/// Start the certificates phase: is the CA there?
pub fn certs_start(cfg: &ProjectConfig, device_name: &str, mode: &str, verbose: bool, dry_run: bool) -> (r: (Certs, Action))
    ensures
        certs_ctx_of(*cfg, device_name@, mode@, verbose, dry_run, r.0.ctx),
        r.0.stage == CertsStage::FirstCa && r.0.subject is None,
        r.1 matches Action::PathExists(p) && p@ == r.0.ctx.ca_pem@,
{
    let certs = cfg.certs_dir();
    let ca_pem = join(certs.as_str(), "ca/ca.pem");
    let devices = join(certs.as_str(), "devices");
    let dir = join(devices.as_str(), device_name);
    let client_pem = join(dir.as_str(), "client.pem");
    let ctx = CertsCtx {
        repo_root: cfg.repo_root.clone(),
        certs_dir: certs.clone(),
        gen_script: cfg.gen_certs_script_path(),
        ca_pem,
        client_pem,
        device_name: to_string(device_name),
        aws: chars_eq(&chars_of(mode), &chars_of("aws")),
        verbose,
        dry_run,
    };
    let a = Action::PathExists(ctx.ca_pem.clone());
    (Certs { ctx, stage: CertsStage::FirstCa, subject: None }, a)
}

/// A certificate generation command, run from the repository root.
pub open spec fn is_gen_run(c: CertsCtx, a: Action, args: Seq<Seq<char>>) -> bool {
    a matches Action::Run(cmd, o) && texts_of(cmd@) =~= seq![c.gen_script@] + args && opt_text(o.cwd) == Some(c.repo_root@)
        && o.env is None && o.log_to is None && o.check && !o.capture && o.verbose == c.verbose && o.dry_run == c.dry_run
}

/// Reading the device certificate's subject.
pub open spec fn is_subject_run(c: CertsCtx, a: Action) -> bool {
    is_captured_run(a, seq!["openssl"@, "x509"@, "-in"@, c.client_pem@, "-noout"@, "-subject"@])
}

/// Uploading the CA as the truststore.
pub open spec fn is_upload_run(c: CertsCtx, a: Action) -> bool {
    a matches Action::Run(cmd, o) && texts_of(cmd@) =~= seq!["aws"@, "s3"@, "cp"@, c.ca_pem@, "s3://supervictor/truststore.pem"@]
        && o.cwd is None && o.env is None && o.log_to is None && o.check && !o.capture && o.verbose == c.verbose && !o.dry_run
}

/// The phase's result once done: skipped when everything was there.
pub open spec fn certs_done_result(present: bool, r: PhaseResult) -> bool {
    if present {
        r.status == PhaseStatus::Skipped && r.message@ == "All certs already present"@
    } else {
        r.status == PhaseStatus::Passed && r.message@.len() == 0
    }
}

/// The certificates phase moves to `stage`, asking for `a`.
pub open spec fn certs_next(m: Certs, p: Progress<Certs, CertsOutcome>, stage: CertsStage, a: spec_fn(Action) -> bool) -> bool {
    p matches Progress::Next(m2, s) && m2.ctx == m.ctx && m2.stage == stage && m2.subject == m.subject && s.notices@.len() == 0
        && a(s.action)
}

/// The certificates phase ends with a failure saying `msg`, with `dir` as
/// the recorded certificates directory.
pub open spec fn certs_fails(p: Progress<Certs, CertsOutcome>, msg: Seq<char>, dir: Option<Seq<char>>) -> bool {
    p matches Progress::Done(ns, Ok(o)) && ns@.len() == 0 && o.result.status == PhaseStatus::Failed && o.result.message@ == msg
        && o.subject_dn is None && opt_text(o.certs_dir) == dir
}

/// What the phase does once the certificates exist, having generated some.
pub open spec fn certs_after_generation(m: Certs, p: Progress<Certs, CertsOutcome>) -> bool {
    if m.ctx.dry_run {
        p matches Progress::Done(ns, Ok(o)) && ns@.len() == 0 && o.result.status == PhaseStatus::Passed && o.result.message@.len()
            == 0 && o.subject_dn is None && opt_text(o.certs_dir) == Some(m.ctx.certs_dir@)
    } else {
        certs_next(m, p, CertsStage::ReadingSubject { present: false }, |a: Action| is_subject_run(m.ctx, a))
    }
}

/// The certificates phase's step for an event: when the CA and the
/// device's certificate exist, the phase reads the subject and is skipped;
/// otherwise it generates what is missing and, unless in a dry run, reads
/// the subject. In `aws` mode the CA is uploaded as the truststore, except
/// in a dry run.
pub open spec fn certs_steps(m: Certs, e: Event, p: Progress<Certs, CertsOutcome>) -> bool {
    match m.stage {
        CertsStage::FirstCa => match e {
            Event::Exists(true) => certs_next(m, p, CertsStage::FirstClient, |a: Action| a matches Action::PathExists(f) && f@ == m.ctx.client_pem@),
            Event::Exists(false) => certs_next(m, p, CertsStage::Ca, |a: Action| a matches Action::PathExists(f) && f@ == m.ctx.ca_pem@),
            _ => false,
        },
        CertsStage::FirstClient => match e {
            Event::Exists(true) => certs_next(m, p, CertsStage::ReadingSubject { present: true }, |a: Action| is_subject_run(m.ctx, a)),
            Event::Exists(false) => certs_next(m, p, CertsStage::Ca, |a: Action| a matches Action::PathExists(f) && f@ == m.ctx.ca_pem@),
            _ => false,
        },
        CertsStage::Ca => match e {
            Event::Exists(false) => certs_next(m, p, CertsStage::GeneratingCa, |a: Action| is_gen_run(m.ctx, a, seq!["ca"@])),
            Event::Exists(true) => certs_next(m, p, CertsStage::Client, |a: Action| a matches Action::PathExists(f) && f@ == m.ctx.client_pem@),
            _ => false,
        },
        CertsStage::GeneratingCa => match e {
            Event::Ran(Err(err)) => certs_fails(p, "CA generation failed: "@ + cli_message(err), None),
            Event::Ran(Ok(_)) => certs_next(m, p, CertsStage::Client, |a: Action| a matches Action::PathExists(f) && f@ == m.ctx.client_pem@),
            _ => false,
        },
        CertsStage::Client => match e {
            Event::Exists(false) => certs_next(
                m,
                p,
                CertsStage::GeneratingClient,
                |a: Action| is_gen_run(m.ctx, a, seq!["device"@, m.ctx.device_name@]),
            ),
            Event::Exists(true) => certs_after_generation(m, p),
            _ => false,
        },
        CertsStage::GeneratingClient => match e {
            Event::Ran(Err(err)) => certs_fails(p, "Device cert generation failed: "@ + cli_message(err), None),
            Event::Ran(Ok(_)) => certs_after_generation(m, p),
            _ => false,
        },
        CertsStage::ReadingSubject { present } => match e {
            Event::Ran(Err(err)) => certs_fails(p, "failed to read subject DN: "@ + cli_message(err), Some(m.ctx.certs_dir@)),
            Event::Ran(Ok(o)) => if m.ctx.aws && !m.ctx.dry_run {
                p matches Progress::Next(m2, s) && m2.ctx == m.ctx && m2.stage == (CertsStage::Uploading { present })
                    && (m2.subject matches Some(dn) && dn@ == subject_dn_spec(o.stdout@)) && s.notices@.len() == 0
                    && is_upload_run(m.ctx, s.action)
            } else {
                p matches Progress::Done(ns, Ok(out)) && ns@.len() == 0 && certs_done_result(present, out.result) && (out.subject_dn matches Some(
                    dn,
                ) && dn@ == subject_dn_spec(o.stdout@)) && opt_text(out.certs_dir) == Some(m.ctx.certs_dir@)
            },
            _ => false,
        },
        CertsStage::Uploading { present } => e is Ran && (p matches Progress::Done(ns, Ok(out)) && ns@.len() == 0
            && certs_done_result(present, out.result) && out.subject_dn == m.subject && opt_text(out.certs_dir) == Some(
            m.ctx.certs_dir@,
        )),
    }
}

/// The events that the certificates phase waits for.
pub open spec fn certs_expects(m: Certs, e: Event) -> bool {
    match m.stage {
        CertsStage::FirstCa | CertsStage::FirstClient | CertsStage::Ca | CertsStage::Client => e is Exists,
        _ => e is Ran,
    }
}

/// Whether the certificates phase waits for `e` (`certs_expects`), tested.
pub fn certs_accepts(m: &Certs, e: &Event) -> (b: bool)
    ensures
        b == certs_expects(*m, *e),
{
    match m.stage {
        CertsStage::FirstCa | CertsStage::FirstClient | CertsStage::Ca | CertsStage::Client => matches!(e, Event::Exists(_)),
        _ => matches!(e, Event::Ran(_)),
    }
}

fn next(m: Certs, stage: CertsStage, action: Action) -> (p: Progress<Certs, CertsOutcome>)
    ensures
        p matches Progress::Next(m2, s) && m2.ctx == m.ctx && m2.stage == stage && m2.subject == m.subject && s.notices@.len()
            == 0 && s.action == action,
{
    Progress::Next(Certs { ctx: m.ctx, stage, subject: m.subject }, Step { notices: Vec::new(), action })
}

fn fail_with(prefix: &str, err: &CliError, dir: Option<String>) -> (p: Progress<Certs, CertsOutcome>)
    ensures
        certs_fails(p, prefix@ + cli_message(*err), opt_text(dir)),
{
    let mut msg = to_string(prefix);
    let m = err.message();
    push_str(&mut msg, m.as_str());
    Progress::Done(
        Vec::new(),
        Ok(CertsOutcome { result: PhaseResult { status: PhaseStatus::Failed, message: msg }, subject_dn: None, certs_dir: dir }),
    )
}

fn gen_run(ctx: &CertsCtx, args: &[&str]) -> (a: Action)
    ensures
        is_gen_run(*ctx, a, strs_of(args@)),
{
    let mut cmd: Vec<String> = Vec::new();
    cmd.push(ctx.gen_script.clone());
    let rest = strings(args);
    let mut i: usize = 0;
    while i < rest.len()
        invariant
            i <= rest.len(),
            texts_of(cmd@) == seq![ctx.gen_script@] + texts_of(rest@.take(i as int)),
        decreases rest.len() - i,
    {
        let ghost before = texts_of(cmd@);
        cmd.push(rest[i].clone());
        assert(texts_of(cmd@) =~= before.push(rest@[i as int]@));
        assert(texts_of(rest@.take(i + 1)) =~= texts_of(rest@.take(i as int)).push(rest@[i as int]@));
        i += 1;
    }
    assert(rest@.take(rest.len() as int) =~= rest@);
    Action::Run(
        cmd,
        RunOptions {
            cwd: Some(ctx.repo_root.clone()),
            env: None,
            check: true,
            capture: false,
            verbose: ctx.verbose,
            dry_run: ctx.dry_run,
            log_to: None,
        },
    )
}

fn subject_run(ctx: &CertsCtx) -> (a: Action)
    ensures
        is_subject_run(*ctx, a),
{
    let mut cmd = strings(&["openssl", "x509", "-in"]);
    cmd.push(ctx.client_pem.clone());
    cmd.push(to_string("-noout"));
    cmd.push(to_string("-subject"));
    assert(texts_of(cmd@) =~= seq!["openssl"@, "x509"@, "-in"@, ctx.client_pem@, "-noout"@, "-subject"@]);
    captured_run(cmd)
}

fn upload_run(ctx: &CertsCtx) -> (a: Action)
    ensures
        is_upload_run(*ctx, a),
{
    let mut cmd = strings(&["aws", "s3", "cp"]);
    cmd.push(ctx.ca_pem.clone());
    cmd.push(to_string("s3://supervictor/truststore.pem"));
    assert(texts_of(cmd@) =~= seq!["aws"@, "s3"@, "cp"@, ctx.ca_pem@, "s3://supervictor/truststore.pem"@]);
    Action::Run(
        cmd,
        RunOptions { cwd: None, env: None, check: true, capture: false, verbose: ctx.verbose, dry_run: false, log_to: None },
    )
}

fn done_result(present: bool) -> (r: PhaseResult)
    ensures
        certs_done_result(present, r),
{
    if present {
        PhaseResult::skipped("All certs already present")
    } else {
        PhaseResult::passed()
    }
}

fn after_generation(m: Certs) -> (p: Progress<Certs, CertsOutcome>)
    ensures
        certs_after_generation(m, p),
{
    if m.ctx.dry_run {
        Progress::Done(
            Vec::new(),
            Ok(CertsOutcome { result: PhaseResult::passed(), subject_dn: None, certs_dir: Some(m.ctx.certs_dir.clone()) }),
        )
    } else {
        let a = subject_run(&m.ctx);
        next(m, CertsStage::ReadingSubject { present: false }, a)
    }
}

/// Next step of the certificates phase.
pub fn certs_step(m: Certs, e: Event) -> (p: Progress<Certs, CertsOutcome>)
    requires
        certs_expects(m, e),
    ensures
        certs_steps(m, e, p),
{
    match m.stage {
        CertsStage::FirstCa => match e {
            Event::Exists(true) => {
                let a = Action::PathExists(m.ctx.client_pem.clone());
                next(m, CertsStage::FirstClient, a)
            },
            _ => {
                let a = Action::PathExists(m.ctx.ca_pem.clone());
                next(m, CertsStage::Ca, a)
            },
        },
        CertsStage::FirstClient => match e {
            Event::Exists(true) => {
                let a = subject_run(&m.ctx);
                next(m, CertsStage::ReadingSubject { present: true }, a)
            },
            _ => {
                let a = Action::PathExists(m.ctx.ca_pem.clone());
                next(m, CertsStage::Ca, a)
            },
        },
        CertsStage::Ca => match e {
            Event::Exists(true) => {
                let a = Action::PathExists(m.ctx.client_pem.clone());
                next(m, CertsStage::Client, a)
            },
            _ => {
                let a = gen_run(&m.ctx, &["ca"]);
                assert(strs_of(seq!["ca"]) =~= seq!["ca"@]);
                next(m, CertsStage::GeneratingCa, a)
            },
        },
        CertsStage::GeneratingCa => match e {
            Event::Ran(Err(err)) => fail_with("CA generation failed: ", &err, None),
            _ => {
                let a = Action::PathExists(m.ctx.client_pem.clone());
                next(m, CertsStage::Client, a)
            },
        },
        CertsStage::Client => match e {
            Event::Exists(true) => after_generation(m),
            _ => {
                let name = m.ctx.device_name.as_str();
                let words = ["device", name];
                assert(strs_of(words@) =~= seq!["device"@, m.ctx.device_name@]);
                let a = gen_run(&m.ctx, &words);
                next(m, CertsStage::GeneratingClient, a)
            },
        },
        CertsStage::GeneratingClient => match e {
            Event::Ran(Err(err)) => fail_with("Device cert generation failed: ", &err, None),
            _ => after_generation(m),
        },
        CertsStage::ReadingSubject { present } => match e {
            Event::Ran(Ok(o)) => {
                let dn = subject_dn(o.stdout.as_str());
                if m.ctx.aws && !m.ctx.dry_run {
                    let a = upload_run(&m.ctx);
                    Progress::Next(
                        Certs { ctx: m.ctx, stage: CertsStage::Uploading { present }, subject: Some(dn) },
                        Step { notices: Vec::new(), action: a },
                    )
                } else {
                    Progress::Done(
                        Vec::new(),
                        Ok(CertsOutcome { result: done_result(present), subject_dn: Some(dn), certs_dir: Some(m.ctx.certs_dir.clone()) }),
                    )
                }
            },
            Event::Ran(Err(err)) => fail_with("failed to read subject DN: ", &err, Some(m.ctx.certs_dir.clone())),
            _ => Progress::Done(
                Vec::new(),
                Ok(CertsOutcome { result: done_result(present), subject_dn: None, certs_dir: Some(m.ctx.certs_dir.clone()) }),
            ),
        },
        CertsStage::Uploading { present } => Progress::Done(
            Vec::new(),
            Ok(CertsOutcome { result: done_result(present), subject_dn: m.subject, certs_dir: Some(m.ctx.certs_dir.clone()) }),
        ),
    }
}

// ── Registration ────────────────────────────────────────────────────

/// The devices route of the endpoint.
pub const DEVICES_ROUTE: &'static str = "/devices";

/// Where a device is registered, and where it is read back.
pub fn registration_urls(api_url: &str, device_name: &str) -> (r: (String, String))
    ensures
        r.0@ == api_url@ + "/devices"@,
        r.1@ == api_url@ + "/devices"@ + "/"@ + device_name@,
{
    let mut post = to_string(api_url);
    push_str(&mut post, DEVICES_ROUTE);
    let mut get = post.clone();
    push_str(&mut get, "/");
    push_str(&mut get, device_name);
    (post, get)
}

/// The certificate paths of the mutual-TLS client, when the API runs in a
/// compose stack with generated certificates: the CA, and the device's
/// certificate and key.
pub fn client_cert_paths(compose: bool, certs_dir: &Option<String>, device_name: &str) -> (r: Option<(String, String, String)>)
    ensures
        match certs_dir {
            Some(d) => if compose {
                r matches Some((ca, cert, key)) && ca@ == join_path(d@, "ca/ca.pem"@) && cert@ == join_path(
                    join_path(join_path(d@, "devices"@), device_name@),
                    "client.pem"@,
                ) && key@ == join_path(join_path(join_path(d@, "devices"@), device_name@), "client.key"@)
            } else {
                r is None
            },
            None => r is None,
        },
{
    if !compose {
        return None;
    }
    match certs_dir {
        Some(d) => {
            let ca = join(d.as_str(), "ca/ca.pem");
            let devices = join(d.as_str(), "devices");
            let dir = join(devices.as_str(), device_name);
            Some((ca, join(dir.as_str(), "client.pem"), join(dir.as_str(), "client.key")))
        },
        None => None,
    }
}

/// What the registration POST gave.
pub enum PostOutcome {
    /// An answer with this status.
    Answered(u16),
    /// An error status.
    ErrorStatus(u16),
    /// No answer, for this reason.
    Unreachable(String),
}

/// The registration must be answered with 201; otherwise the phase fails.
pub fn registration_result(outcome: PostOutcome) -> (r: Option<PhaseResult>)
    ensures
        match outcome {
            PostOutcome::Answered(s) => if s == 201 {
                r is None
            } else {
                r matches Some(p) && p.status == PhaseStatus::Failed && p.message@ == "Registration returned HTTP "@
                    + decimal(s as nat) + ", expected 201"@
            },
            PostOutcome::ErrorStatus(c) => r matches Some(p) && p.status == PhaseStatus::Failed && p.message@
                == "Registration failed: HTTP "@ + decimal(c as nat),
            PostOutcome::Unreachable(why) => r matches Some(p) && p.status == PhaseStatus::Failed && p.message@
                == "Cannot reach API: "@ + why@,
        },
{
    match outcome {
        PostOutcome::Answered(s) => {
            if s == 201 {
                None
            } else {
                let mut m = text_with_number("Registration returned HTTP ", s as u64);
                push_str(&mut m, ", expected 201");
                Some(PhaseResult { status: PhaseStatus::Failed, message: m })
            }
        },
        PostOutcome::ErrorStatus(c) => Some(
            PhaseResult { status: PhaseStatus::Failed, message: text_with_number("Registration failed: HTTP ", c as u64) },
        ),
        PostOutcome::Unreachable(why) => {
            let mut m = to_string("Cannot reach API: ");
            push_str(&mut m, why.as_str());
            Some(PhaseResult { status: PhaseStatus::Failed, message: m })
        },
    }
}

/// What reading the device back gave.
pub enum VerifyOutcome {
    /// The device, with this status.
    Device(String),
    /// An answer that is not a device, for this reason.
    BadBody(String),
    /// No answer, for this reason.
    Failed(String),
}

/// The registered device must read back as active.
pub fn verification_result(outcome: VerifyOutcome) -> (r: PhaseResult)
    ensures
        match outcome {
            VerifyOutcome::Device(st) => if st@ == "active"@ {
                r.status == PhaseStatus::Passed && r.message@.len() == 0
            } else {
                r.status == PhaseStatus::Failed && r.message@ == "Device status is '"@ + st@ + "', expected 'active'"@
            },
            VerifyOutcome::BadBody(why) => r.status == PhaseStatus::Failed && r.message@ == "Failed to parse response: "@ + why@,
            VerifyOutcome::Failed(why) => r.status == PhaseStatus::Failed && r.message@ == "Verification GET failed: "@ + why@,
        },
{
    match outcome {
        VerifyOutcome::Device(st) => {
            if chars_eq(&chars_of(st.as_str()), &chars_of("active")) {
                PhaseResult::passed()
            } else {
                let mut m = to_string("Device status is '");
                push_str(&mut m, st.as_str());
                push_str(&mut m, "', expected 'active'");
                PhaseResult { status: PhaseStatus::Failed, message: m }
            }
        },
        VerifyOutcome::BadBody(why) => {
            let mut m = to_string("Failed to parse response: ");
            push_str(&mut m, why.as_str());
            PhaseResult { status: PhaseStatus::Failed, message: m }
        },
        VerifyOutcome::Failed(why) => {
            let mut m = to_string("Verification GET failed: ");
            push_str(&mut m, why.as_str());
            PhaseResult { status: PhaseStatus::Failed, message: m }
        },
    }
}

/// Before registering: a dry run passes at once, and the API's address
/// must be known.
pub fn registration_precheck(dry_run: bool, api_url: &Option<String>) -> (r: Option<PhaseResult>)
    ensures
        dry_run ==> (r matches Some(p) && p.status == PhaseStatus::Passed && p.message@.len() == 0),
        !dry_run && api_url is None ==> (r matches Some(p) && p.status == PhaseStatus::Failed && p.message@ == "api_url not set"@),
        !dry_run && api_url is Some ==> r is None,
{
    if dry_run {
        Some(PhaseResult::passed())
    } else if api_url.is_none() {
        Some(PhaseResult::failed("api_url not set"))
    } else {
        None
    }
}

/// A failure to set up the HTTP client.
pub fn tls_setup_failed(why: &str) -> (r: PhaseResult)
    ensures
        r.status == PhaseStatus::Failed && r.message@ == "TLS setup failed: "@ + why@,
{
    let mut m = to_string("TLS setup failed: ");
    push_str(&mut m, why);
    PhaseResult { status: PhaseStatus::Failed, message: m }
}

} // verus!
