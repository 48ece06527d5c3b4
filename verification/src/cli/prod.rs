//! `qs prod`: the dev and staging pipelines as gates, the user's
//! confirmation, a deployment of the production stack, and a reload of the
//! API Gateway truststore.
use vstd::prelude::*;
use crate::cli::commands::{DevArgs, ProdArgs, StagingArgs};
use crate::cli::config::ProjectConfig;
use crate::cli::dev::{dev_accepts, dev_expects, dev_start, dev_step, dev_steps, Dev};
use crate::cli::env::{copy_vars, make_env, vars_map};
use crate::cli::error::CliError;
use crate::cli::output::{note, notice_view, notices_view, Notice, NoticeLevel};
use crate::cli::pipeline::{
    build_steps, env_load_accepts, deploy_start, deploy_step, deploy_steps, env_load_expects, env_load_start, env_load_step, env_load_steps,
    one, push_notice, sam_build_start, sam_build_step, Action, BuildStage, Deploy, EnvLoad, Event, LoadedEnv, Progress,
    Step,
};
use crate::cli::runner::{opt_text, RunOptions};
use crate::cli::sam::{deploy_log, is_build_run, is_deploy_run, is_export_run, SamLocal};
use crate::cli::staging::{staging_accepts, staging_expects, staging_start, staging_step, staging_steps, Staging};
use crate::cli::truststore::{
    aws_command, aws_command_spec, expects, reload_next, reload_start, reload_step, AwsCommand, ReloadAction,
    ReloadEvent, ReloadState,
};
use crate::pattern::texts_of;
use crate::text::to_string;

verus! {

/// What the prod pipeline works with.
pub struct ProdCtx {
    pub verbose: bool,
    pub dry_run: bool,
    pub cfg: ProjectConfig,
    /// The environment of the commands: the process's with `.env.prod`'s
    /// assignments.
    pub env: Vec<(String, String)>,
    /// Whether the user confirmed the deployment.
    pub confirmed: bool,
    /// Whether the deployment changed the stack.
    pub deployed: bool,
    /// The error of a truststore command that could not run.
    pub failure: Option<CliError>,
}

/// Where the prod pipeline stands.
pub enum ProdStage {
    /// Running the dev pipeline as a gate.
    DevGate(Dev),
    /// Running the staging pipeline (without its dev gate) as a gate.
    StagingGate(Staging),
    /// Asking the user.
    Confirming,
    /// Loading `.env.prod`.
    Loading(EnvLoad),
    /// Building with SAM, without its cache.
    Building(BuildStage),
    /// Deploying the production stack.
    Deploying(Deploy),
    /// Reloading the truststore.
    Reloading(ReloadState),
    /// Over.
    Done,
}

/// The prod pipeline.
pub struct Prod {
    pub ctx: ProdCtx,
    pub stage: ProdStage,
}

/// The question before deploying.
pub open spec fn prod_question() -> Seq<char> {
    "All tests passed. Deploy to PRODUCTION? [y/N] "@
}

/// The SAM commands of the pipeline.
pub open spec fn prod_sam<'a>(ctx: &'a ProdCtx) -> SamLocal<'a> {
    SamLocal { config: &ctx.cfg, env: Some(ctx.env), verbose: ctx.verbose, dry_run: ctx.dry_run }
}

/// The pipeline with another stage.
pub open spec fn prod_moved(m: Prod, r: (Prod, Step), stage: ProdStage) -> bool {
    r.0.ctx == m.ctx && r.0.stage == stage
}

/// The pipeline ends with `result` after `notices`.
pub open spec fn prod_ends(m: Prod, r: (Prod, Step), notices: Seq<(NoticeLevel, Seq<char>)>, result: Result<i32, CliError>) -> bool {
    prod_moved(m, r, ProdStage::Done) && notices_view(r.1.notices@) =~= notices && r.1.action == Action::Finish(result)
}

/// The reload's event for the driver's event.
pub open spec fn as_reload_event(e: Event) -> ReloadEvent {
    match e {
        Event::Ran(Ok(o)) => ReloadEvent::Output(o),
        Event::Ran(Err(_)) => ReloadEvent::RunFailed,
        Event::Expired => ReloadEvent::Expired,
        _ => ReloadEvent::Slept,
    }
}

/// The options of the truststore's AWS commands: unchecked and captured.
pub open spec fn aws_opts(o: RunOptions, verbose: bool) -> bool {
    o.cwd is None && o.env is None && o.log_to is None && !o.check && o.capture && o.verbose == verbose && !o.dry_run
}

/// The driver's operation for a reload action other than finishing.
pub open spec fn reload_op(ra: ReloadAction, a: Action, verbose: bool) -> bool {
    match ra {
        ReloadAction::Run(c) => a matches Action::Run(args, o) && texts_of(args@) == aws_command_spec(c) && aws_opts(o, verbose),
        ReloadAction::Sleep(secs) => a == Action::Sleep(secs),
        ReloadAction::Poll { arm_secs } => a matches Action::Poll(arm, args, o) && arm == arm_secs && texts_of(args@)
            == aws_command_spec(AwsCommand::DomainStatus) && aws_opts(o, verbose),
        ReloadAction::Finish { .. } => false,
    }
}

/// The closing message of a finished production deployment.
pub open spec fn closing(deployed: bool) -> Seq<char> {
    if deployed {
        "\nProduction deployment complete."@
    } else {
        "\nNothing to deploy. Production stack is up to date."@
    }
}

/// How the pipeline goes on with the reload at `st`, about to do `ra`,
/// after `notices`: a finished reload ends the pipeline, with the error of
/// a command that could not run, or with the closing message.
pub open spec fn prod_reloads(
    ctx: ProdCtx,
    st: ReloadState,
    ra: ReloadAction,
    notices: Seq<(NoticeLevel, Seq<char>)>,
    r: (Prod, Step),
) -> bool {
    match ra {
        ReloadAction::Finish { failed } => r.0.stage is Done && if failed {
            r.0.ctx == (ProdCtx { failure: None, ..ctx }) && notices_view(r.1.notices@) =~= notices && match ctx.failure {
                Some(err) => r.1.action == Action::Finish(Err::<i32, CliError>(err)),
                None => r.1.action matches Action::Finish(Err(_)),
            }
        } else {
            r.0.ctx == ctx && notices_view(r.1.notices@) =~= notices.push((NoticeLevel::Success, closing(ctx.deployed)))
                && r.1.action == Action::Finish(Ok::<i32, CliError>(0))
        },
        _ => r.0.ctx == ctx && r.0.stage == ProdStage::Reloading(st) && notices_view(r.1.notices@) =~= notices && reload_op(
            ra,
            r.1.action,
            ctx.verbose,
        ),
    }
}

/// A reload's optional message as a list.
pub open spec fn listed(n: Option<(NoticeLevel, Seq<char>)>) -> Seq<(NoticeLevel, Seq<char>)> {
    match n {
        Some(x) => seq![x],
        None => Seq::empty(),
    }
}

/// How the pipeline goes on after a step `r2` of the dev gate.
pub open spec fn prod_after_dev(m: Prod, r2: (Dev, Step), r: (Prod, Step)) -> bool {
    match r2.1.action {
        Action::Finish(Err(err)) => prod_ends(m, r, notices_view(r2.1.notices@), Err(err)),
        Action::Finish(Ok(rc)) => if rc == 0 {
            r.0.ctx == m.ctx && (r.0.stage matches ProdStage::StagingGate(st) && st.ctx.verbose == m.ctx.verbose
                && st.ctx.dry_run == m.ctx.dry_run && st.ctx.cfg.same_but_port(&m.ctx.cfg) && st.ctx.cfg.sam_local_port
                == m.ctx.cfg.sam_local_port && (st.stage matches crate::cli::staging::StagingStage::Loading(l) && l.path@
                == m.ctx.cfg.env_staging@)) && notices_view(r.1.notices@) =~= notices_view(r2.1.notices@) + seq![
                (NoticeLevel::Milestone, "Running staging gate"@),
                (NoticeLevel::Step, "Loading "@ + ".env.staging"@),
            ] && (r.1.action matches Action::ReadFile(f) && f@ == m.ctx.cfg.env_staging@)
        } else {
            prod_ends(
                m,
                r,
                notices_view(r2.1.notices@).push((NoticeLevel::Error, "Dev pipeline failed. Aborting prod deployment."@)),
                Ok(rc),
            )
        },
        _ => prod_moved(m, r, ProdStage::DevGate(r2.0)) && r.1 == r2.1,
    }
}

/// How the pipeline goes on after a step `r2` of the staging gate: once
/// both gates passed, the user is asked.
pub open spec fn prod_after_staging(m: Prod, r2: (Staging, Step), r: (Prod, Step)) -> bool {
    match r2.1.action {
        Action::Finish(Err(err)) => prod_ends(m, r, notices_view(r2.1.notices@), Err(err)),
        Action::Finish(Ok(rc)) => if rc == 0 {
            prod_moved(m, r, ProdStage::Confirming) && notices_view(r.1.notices@) =~= notices_view(r2.1.notices@).push(
                (NoticeLevel::Plain, Seq::empty()),
            ) && (r.1.action matches Action::Confirm(q) && q@ == prod_question())
        } else {
            prod_ends(
                m,
                r,
                notices_view(r2.1.notices@).push((NoticeLevel::Error, "Staging pipeline failed. Aborting prod deployment."@)),
                Ok(rc),
            )
        },
        _ => prod_moved(m, r, ProdStage::StagingGate(r2.0)) && r.1 == r2.1,
    }
}

/// How the pipeline goes on after a step `p` of loading `.env.prod`: the
/// SAM build starts, without its cache.
pub open spec fn prod_after_load(m: Prod, p: Progress<EnvLoad, LoadedEnv>, r: (Prod, Step)) -> bool {
    match p {
        Progress::Next(l2, s) => prod_moved(m, r, ProdStage::Loading(l2)) && r.1 == s,
        Progress::Done(_, Err(err)) => prod_ends(m, r, Seq::empty(), Err(err)),
        Progress::Done(_, Ok(le)) => {
            &&& r.0.ctx.verbose == m.ctx.verbose && r.0.ctx.dry_run == m.ctx.dry_run && r.0.ctx.cfg == m.ctx.cfg
            &&& r.0.ctx.confirmed == m.ctx.confirmed && r.0.ctx.deployed == m.ctx.deployed && r.0.ctx.failure == m.ctx.failure
            &&& vars_map(r.0.ctx.env@) == vars_map(le.process@).union_prefer_right(vars_map(le.vars@))
            &&& r.0.stage matches ProdStage::Building(BuildStage::Exporting(sb)) && is_build_run(prod_sam(&r.0.ctx), true, sb.build.0, sb.build.1)
            &&& notices_view(r.1.notices@) =~= seq![(NoticeLevel::Step, "Exporting runtime dependencies"@)]
            &&& r.1.action matches Action::Run(c, o) && is_export_run(prod_sam(&r.0.ctx), c, o)
        },
    }
}

/// How the pipeline goes on after a step `p` of the build: the production
/// stack is deployed, forcing the upload.
pub open spec fn prod_after_build(m: Prod, p: Progress<BuildStage, ()>, r: (Prod, Step)) -> bool {
    match p {
        Progress::Next(b2, s) => prod_moved(m, r, ProdStage::Building(b2)) && r.1 == s,
        Progress::Done(_, Err(err)) => prod_ends(m, r, Seq::empty(), Err(err)),
        Progress::Done(ns, Ok(())) => r.0.ctx == m.ctx && (r.0.stage matches ProdStage::Deploying(d) && d.config_env@
            == m.ctx.cfg.sam_config_env_prod@ && d.log_path@ == deploy_log(prod_sam(&m.ctx), m.ctx.cfg.sam_config_env_prod@)
            && (r.1.action matches Action::Run(c, o) && is_deploy_run(
            prod_sam(&m.ctx),
            m.ctx.cfg.sam_config_env_prod@,
            true,
            c,
            o,
        ) && texts_of(c@) == texts_of(d.cmd@))) && notices_view(r.1.notices@) =~= notices_view(ns@).push(
            (NoticeLevel::Step, "Deploying to "@ + m.ctx.cfg.sam_config_env_prod@ + " stack"@),
        ),
    }
}

/// How the pipeline goes on after the deployment ended with `x`: the
/// truststore is reloaded.
pub open spec fn prod_after_deploy(m: Prod, x: (Vec<Notice>, Result<bool, CliError>), r: (Prod, Step)) -> bool {
    match x.1 {
        Err(err) => prod_ends(m, r, notices_view(x.0@), Err(err)),
        Ok(deployed) => {
            let ctx2 = ProdCtx { deployed, ..m.ctx };
            let start = if m.ctx.dry_run {
                (
                    ReloadState::Done,
                    ReloadAction::Finish { failed: false },
                    note(NoticeLevel::Plain, "  [dry-run] truststore reload skipped"@),
                )
            } else {
                (ReloadState::Copying, ReloadAction::Run(AwsCommand::CopyToTemp), None)
            };
            prod_reloads(
                ctx2,
                start.0,
                start.1,
                notices_view(x.0@).push((NoticeLevel::Step, "Reloading API Gateway mTLS truststore"@)) + listed(start.2),
                r,
            )
        },
    }
}

/// The prod pipeline's step for an event.
pub open spec fn prod_steps(m: Prod, e: Event, r: (Prod, Step)) -> bool {
    match m.stage {
        ProdStage::DevGate(d) => exists|r2: (Dev, Step)| dev_steps(d, e, r2) && prod_after_dev(m, r2, r),
        ProdStage::StagingGate(st) => exists|r2: (Staging, Step)| staging_steps(st, e, r2) && prod_after_staging(m, r2, r),
        ProdStage::Confirming => match e {
            Event::Answered(false) => prod_ends(m, r, seq![(NoticeLevel::Plain, "Aborted."@)], Ok(1)),
            Event::Answered(true) => r.0.ctx == (ProdCtx { confirmed: true, ..m.ctx }) && (r.0.stage matches ProdStage::Loading(l)
                && !l.merging && l.path@ == m.ctx.cfg.env_prod@) && notices_view(r.1.notices@) =~= seq![
                (NoticeLevel::Step, "Loading "@ + ".env.prod"@),
            ] && (r.1.action matches Action::ReadFile(f) && f@ == m.ctx.cfg.env_prod@),
            _ => false,
        },
        ProdStage::Loading(l) => exists|p: Progress<EnvLoad, LoadedEnv>| env_load_steps(l, e, p) && prod_after_load(m, p, r),
        ProdStage::Building(b) => exists|p: Progress<BuildStage, ()>| build_steps(b, e, p) && prod_after_build(m, p, r),
        ProdStage::Deploying(d) => exists|x: (Vec<Notice>, Result<bool, CliError>)| deploy_steps(d, e, x) && prod_after_deploy(m, x, r),
        ProdStage::Reloading(st) => {
            let n = reload_next(st, as_reload_event(e));
            let ctx2 = match e {
                Event::Ran(Err(err)) => if st is CleaningUp {
                    m.ctx
                } else {
                    ProdCtx { failure: Some(err), ..m.ctx }
                },
                _ => m.ctx,
            };
            prod_reloads(ctx2, n.0, n.1, listed(n.2), r)
        },
        ProdStage::Done => false,
    }
}

/// The events that the prod pipeline waits for.
pub open spec fn prod_expects(m: Prod, e: Event) -> bool {
    match m.stage {
        ProdStage::DevGate(d) => dev_expects(d, e),
        ProdStage::StagingGate(st) => staging_expects(st, e),
        ProdStage::Confirming => e is Answered,
        ProdStage::Loading(l) => env_load_expects(l, e),
        ProdStage::Building(_) | ProdStage::Deploying(_) => e is Ran,
        ProdStage::Reloading(st) => (e is Ran || e is Slept || e is Expired) && expects(st, as_reload_event(e)),
        ProdStage::Done => false,
    }
}

/// Whether the prod pipeline waits for `e` (`prod_expects`), tested.
pub fn prod_accepts(m: &Prod, e: &Event) -> (b: bool)
    ensures
        b == prod_expects(*m, *e),
{
    match &m.stage {
        ProdStage::DevGate(d) => dev_accepts(d, e),
        ProdStage::StagingGate(st) => staging_accepts(st, e),
        ProdStage::Confirming => matches!(e, Event::Answered(_)),
        ProdStage::Loading(l) => env_load_accepts(l, e),
        ProdStage::Building(_) | ProdStage::Deploying(_) => matches!(e, Event::Ran(_)),
        ProdStage::Reloading(st) => match st {
            ReloadState::Copying | ReloadState::Swapping { .. } | ReloadState::Restoring { .. } | ReloadState::Verifying
            | ReloadState::CleaningUp { .. } => matches!(e, Event::Ran(_)),
            ReloadState::Polling => matches!(e, Event::Ran(_) | Event::Expired),
            ReloadState::SwapBackoff { .. } | ReloadState::PollWait | ReloadState::RestoreBackoff { .. } => matches!(
                e,
                Event::Slept
            ),
            ReloadState::Done => false,
        },
        ProdStage::Done => false,
    }
}

/// How the prod pipeline starts.
pub open spec fn prod_started(args: ProdArgs, cfg: ProjectConfig, r: (Prod, Step)) -> bool {
    &&& (r.0.ctx.verbose == args.verbose && r.0.ctx.dry_run == args.dry_run)
    &&& (r.0.ctx.cfg.same_but_port(&cfg) && r.0.ctx.cfg.sam_local_port == cfg.sam_local_port)
    &&& (!r.0.ctx.confirmed && !r.0.ctx.deployed && r.0.ctx.failure is None)
    &&& (r.0.stage matches ProdStage::DevGate(d) && d.ctx.verbose == args.verbose && d.ctx.dry_run == args.dry_run
            && !d.ctx.serve && (d.stage matches crate::cli::dev::DevStage::Loading(l) && l.path@ == cfg.env_dev@))
    &&& (notices_view(r.1.notices@) =~= seq![(NoticeLevel::Milestone, "Running dev gate"@), (NoticeLevel::Step, "Loading "@ + ".env.dev"@)])
    &&& (r.1.action matches Action::ReadFile(f) && f@ == cfg.env_dev@)
}

/// Start the prod pipeline: the dev pipeline runs first as a gate.
pub fn prod_start(args: &ProdArgs, cfg: &ProjectConfig) -> (r: (Prod, Step))
    ensures
        prod_started(*args, *cfg, r),
{
    let ctx = ProdCtx {
        verbose: args.verbose,
        dry_run: args.dry_run,
        cfg: cfg.with_port(cfg.sam_local_port),
        env: Vec::new(),
        confirmed: false,
        deployed: false,
        failure: None,
    };
    let (d, s) = dev_start(&DevArgs { verbose: args.verbose, dry_run: args.dry_run, serve: false, stop: false }, cfg);
    let mut notices = one(NoticeLevel::Milestone, "Running dev gate");
    let mut rest = s.notices;
    let ghost n0 = notices_view(notices@);
    let ghost n1 = notices_view(rest@);
    notices.append(&mut rest);
    assert(notices_view(notices@) =~= n0 + n1);
    (Prod { ctx, stage: ProdStage::DevGate(d) }, Step { notices, action: s.action })
}

fn end(ctx: ProdCtx, notices: Vec<Notice>, result: Result<i32, CliError>) -> (r: (Prod, Step))
    ensures
        r.0.ctx == ctx && r.0.stage is Done && r.1.notices == notices && r.1.action == Action::Finish(result),
{
    (Prod { ctx, stage: ProdStage::Done }, Step { notices, action: Action::Finish(result) })
}

fn sam_of<'a>(ctx: &'a ProdCtx) -> (s: SamLocal<'a>)
    ensures
        s.config == &ctx.cfg,
        crate::cli::runner::opt_vars(s.env) == Some(vars_map(ctx.env@)),
        s.verbose == ctx.verbose && s.dry_run == ctx.dry_run,
{
    SamLocal::new(&ctx.cfg, Some(copy_vars(&ctx.env)), ctx.verbose, ctx.dry_run)
}

fn aws_run_opts(verbose: bool) -> (o: RunOptions)
    ensures
        aws_opts(o, verbose),
{
    RunOptions { cwd: None, env: None, check: false, capture: true, verbose, dry_run: false, log_to: None }
}

/// Goes on with the reload at `st`, about to do `ra`, after `notices`.
fn reloads(ctx: ProdCtx, st: ReloadState, ra: ReloadAction, notices: Vec<Notice>) -> (r: (Prod, Step))
    ensures
        prod_reloads(ctx, st, ra, notices_view(notices@), r),
{
    let mut notices = notices;
    match ra {
        ReloadAction::Finish { failed } => {
            if failed {
                let ProdCtx { verbose, dry_run, cfg, env, confirmed, deployed, failure } = ctx;
                let err = match failure {
                    Some(err) => err,
                    None => CliError::Config(to_string("truststore reload failed")),
                };
                end(ProdCtx { verbose, dry_run, cfg, env, confirmed, deployed, failure: None }, notices, Err(err))
            } else {
                let text = if ctx.deployed {
                    to_string("\nProduction deployment complete.")
                } else {
                    to_string("\nNothing to deploy. Production stack is up to date.")
                };
                push_notice(&mut notices, NoticeLevel::Success, text);
                end(ctx, notices, Ok(0))
            }
        },
        ReloadAction::Run(c) => {
            let a = Action::Run(aws_command(c), aws_run_opts(ctx.verbose));
            (Prod { ctx, stage: ProdStage::Reloading(st) }, Step { notices, action: a })
        },
        ReloadAction::Sleep(secs) => (Prod { ctx, stage: ProdStage::Reloading(st) }, Step { notices, action: Action::Sleep(secs) }),
        ReloadAction::Poll { arm_secs } => {
            let a = Action::Poll(arm_secs, aws_command(AwsCommand::DomainStatus), aws_run_opts(ctx.verbose));
            (Prod { ctx, stage: ProdStage::Reloading(st) }, Step { notices, action: a })
        },
    }
}

/// Adds a reload's optional message.
fn push_listed(notices: &mut Vec<Notice>, n: Option<Notice>)
    ensures
        notices_view(final(notices)@) == notices_view(old(notices)@) + listed(notice_view(n)),
{
    let ghost before = notices_view(notices@);
    match n {
        Some(x) => {
            push_notice(notices, x.level, x.text);
        },
        None => {},
    }
    assert(notices_view(notices@) =~= before + listed(notice_view(n)));
}

/// Next step of the prod pipeline. The dev and staging gates run first; a
/// failed gate ends the pipeline with its status. Once both passed the
/// user is asked, and only a yes goes on to load `.env.prod`, build
/// without cache, deploy the production stack and reload the truststore.
pub fn prod_step(m: Prod, e: Event) -> (r: (Prod, Step))
    requires
        prod_expects(m, e),
    ensures
        prod_steps(m, e, r),
{
    let ghost m0 = m;
    let Prod { ctx, stage } = m;
    match stage {
        ProdStage::DevGate(d) => {
            let r2 = dev_step(d, e);
            let ghost g2 = r2;
            let (d2, s2) = r2;
            let r = match s2.action {
                Action::Finish(Err(err)) => end(ctx, s2.notices, Err(err)),
                Action::Finish(Ok(rc)) => {
                    let mut notices = s2.notices;
                    if rc == 0 {
                        push_notice(&mut notices, NoticeLevel::Milestone, to_string("Running staging gate"));
                        let (st, s3) = staging_start(&StagingArgs { verbose: ctx.verbose, dry_run: ctx.dry_run }, &ctx.cfg, true);
                        let mut rest = s3.notices;
                        let ghost n0 = notices_view(notices@);
                        let ghost n1 = notices_view(rest@);
                        notices.append(&mut rest);
                        assert(notices_view(notices@) =~= n0 + n1);
                        (Prod { ctx, stage: ProdStage::StagingGate(st) }, Step { notices, action: s3.action })
                    } else {
                        push_notice(&mut notices, NoticeLevel::Error, to_string("Dev pipeline failed. Aborting prod deployment."));
                        end(ctx, notices, Ok(rc))
                    }
                },
                action => (Prod { ctx, stage: ProdStage::DevGate(d2) }, Step { notices: s2.notices, action }),
            };
            assert(dev_steps(d, e, g2) && prod_after_dev(m0, g2, r));
            r
        },
        ProdStage::StagingGate(st) => {
            let r2 = staging_step(st, e);
            let ghost g2 = r2;
            let (st2, s2) = r2;
            let r = match s2.action {
                Action::Finish(Err(err)) => end(ctx, s2.notices, Err(err)),
                Action::Finish(Ok(rc)) => {
                    let mut notices = s2.notices;
                    if rc == 0 {
                        push_notice(&mut notices, NoticeLevel::Plain, String::new());
                        let q = to_string("All tests passed. Deploy to PRODUCTION? [y/N] ");
                        (Prod { ctx, stage: ProdStage::Confirming }, Step { notices, action: Action::Confirm(q) })
                    } else {
                        push_notice(&mut notices, NoticeLevel::Error, to_string("Staging pipeline failed. Aborting prod deployment."));
                        end(ctx, notices, Ok(rc))
                    }
                },
                action => (Prod { ctx, stage: ProdStage::StagingGate(st2) }, Step { notices: s2.notices, action }),
            };
            assert(staging_steps(st, e, g2) && prod_after_staging(m0, g2, r));
            r
        },
        ProdStage::Confirming => match e {
            Event::Answered(true) => {
                let (l, s) = env_load_start(ctx.cfg.env_prod.as_str(), ".env.prod");
                let ProdCtx { verbose, dry_run, cfg, env, confirmed: _, deployed, failure } = ctx;
                (Prod { ctx: ProdCtx { verbose, dry_run, cfg, env, confirmed: true, deployed, failure }, stage: ProdStage::Loading(l) }, s)
            },
            _ => end(ctx, one(NoticeLevel::Plain, "Aborted."), Ok(1)),
        },
        ProdStage::Loading(l) => {
            let p = env_load_step(l, e);
            let ghost gp = p;
            let r = match p {
                Progress::Next(l2, s) => (Prod { ctx, stage: ProdStage::Loading(l2) }, s),
                Progress::Done(_, Err(err)) => end(ctx, Vec::new(), Err(err)),
                Progress::Done(_, Ok(le)) => {
                    let env = make_env(&le.process, &le.vars);
                    let ProdCtx { verbose, dry_run, cfg, env: _, confirmed, deployed, failure } = ctx;
                    let ctx2 = ProdCtx { verbose, dry_run, cfg, env, confirmed, deployed, failure };
                    let (sb, s) = {
                        let sam = sam_of(&ctx2);
                        sam_build_start(&sam, true)
                    };
                    (Prod { ctx: ctx2, stage: ProdStage::Building(BuildStage::Exporting(sb)) }, s)
                },
            };
            assert(env_load_steps(l, e, gp) && prod_after_load(m0, gp, r));
            r
        },
        ProdStage::Building(b) => {
            let p = sam_build_step(b, e);
            let ghost gp = p;
            let r = match p {
                Progress::Next(b2, s) => (Prod { ctx, stage: ProdStage::Building(b2) }, s),
                Progress::Done(_, Err(err)) => end(ctx, Vec::new(), Err(err)),
                Progress::Done(ns, Ok(())) => {
                    let (d, s) = {
                        let sam = sam_of(&ctx);
                        deploy_start(&sam, ctx.cfg.sam_config_env_prod.as_str(), true)
                    };
                    let mut notices = ns;
                    let mut rest = s.notices;
                    let ghost n0 = notices_view(notices@);
                    let ghost n1 = notices_view(rest@);
                    notices.append(&mut rest);
                    assert(notices_view(notices@) =~= n0 + n1);
                    (Prod { ctx, stage: ProdStage::Deploying(d) }, Step { notices, action: s.action })
                },
            };
            assert(build_steps(b, e, gp) && prod_after_build(m0, gp, r));
            r
        },
        ProdStage::Deploying(d) => {
            let x = deploy_step(d, e);
            let ghost gx = x;
            let (ns, res) = x;
            let r = match res {
                Err(err) => end(ctx, ns, Err(err)),
                Ok(deployed) => {
                    let mut notices = ns;
                    push_notice(&mut notices, NoticeLevel::Step, to_string("Reloading API Gateway mTLS truststore"));
                    let (st, ra, n) = reload_start(ctx.dry_run);
                    push_listed(&mut notices, n);
                    let ProdCtx { verbose, dry_run, cfg, env, confirmed, deployed: _, failure } = ctx;
                    reloads(ProdCtx { verbose, dry_run, cfg, env, confirmed, deployed, failure }, st, ra, notices)
                },
            };
            assert(deploy_steps(d, e, gx) && prod_after_deploy(m0, gx, r));
            r
        },
        ProdStage::Reloading(st) => {
            let cleaning = match st {
                ReloadState::CleaningUp { .. } => true,
                _ => false,
            };
            let (ctx2, re) = match e {
                Event::Ran(Ok(o)) => (ctx, ReloadEvent::Output(o)),
                Event::Ran(Err(err)) => {
                    if cleaning {
                        (ctx, ReloadEvent::RunFailed)
                    } else {
                        let ProdCtx { verbose, dry_run, cfg, env, confirmed, deployed, failure: _ } = ctx;
                        (ProdCtx { verbose, dry_run, cfg, env, confirmed, deployed, failure: Some(err) }, ReloadEvent::RunFailed)
                    }
                },
                Event::Expired => (ctx, ReloadEvent::Expired),
                _ => (ctx, ReloadEvent::Slept),
            };
            let (st2, ra, n) = reload_step(st, re);
            let mut notices: Vec<Notice> = Vec::new();
            push_listed(&mut notices, n);
            assert(Seq::<(NoticeLevel, Seq<char>)>::empty() + listed(notice_view(n)) =~= listed(notice_view(n)));
            reloads(ctx2, st2, ra, notices)
        },
        ProdStage::Done => end(ctx, Vec::new(), Ok(0)),
    }
}

/// Whether the deployment's part of the pipeline is reached only with the
/// user's yes: loading `.env.prod`, building, deploying and reloading all
/// happen with `confirmed` set.
pub open spec fn prod_inv(m: Prod) -> bool {
    (m.stage is Loading || m.stage is Building || m.stage is Deploying || m.stage is Reloading) ==> m.ctx.confirmed
}

/// The production stack is deployed only after the user said yes, and the
/// user is asked only once both gates passed: every step keeps `prod_inv`;
/// a step that deploys belongs to a confirmed pipeline; the staging gate
/// starts only from a dev gate that finished with status 0; the user is
/// asked only from a staging gate that finished with status 0; and loading
/// `.env.prod` starts only from the user's yes.
pub proof fn lemma_prod_deploys_only_when_confirmed(m: Prod, e: Event, r: (Prod, Step))
    requires
        prod_inv(m),
        prod_expects(m, e),
        prod_steps(m, e, r),
    ensures
        prod_inv(r.0),
        r.0.stage is Deploying ==> r.0.ctx.confirmed,
        r.0.stage is StagingGate && !(m.stage is StagingGate) ==> (m.stage matches ProdStage::DevGate(d) && exists|
            r2: (Dev, Step),
        | dev_steps(d, e, r2) && r2.1.action == Action::Finish(Ok::<i32, CliError>(0))),
        r.0.stage is Confirming && !(m.stage is Confirming) ==> (m.stage matches ProdStage::StagingGate(st) && exists|
            r2: (Staging, Step),
        | staging_steps(st, e, r2) && r2.1.action == Action::Finish(Ok::<i32, CliError>(0))),
        r.0.stage is Loading && !(m.stage is Loading) ==> m.stage is Confirming && e == Event::Answered(true),
{
    match m.stage {
        ProdStage::DevGate(d) => {
            let r2 = choose|r2: (Dev, Step)| dev_steps(d, e, r2) && prod_after_dev(m, r2, r);
            if r.0.stage is StagingGate {
                assert(dev_steps(d, e, r2) && r2.1.action == Action::Finish(Ok::<i32, CliError>(0)));
            }
        },
        ProdStage::StagingGate(st) => {
            let r2 = choose|r2: (Staging, Step)| staging_steps(st, e, r2) && prod_after_staging(m, r2, r);
            if r.0.stage is Confirming {
                assert(staging_steps(st, e, r2) && r2.1.action == Action::Finish(Ok::<i32, CliError>(0)));
            }
        },
        ProdStage::Loading(l) => {
            let p = choose|p: Progress<EnvLoad, LoadedEnv>| env_load_steps(l, e, p) && prod_after_load(m, p, r);
        },
        ProdStage::Building(b) => {
            let p = choose|p: Progress<BuildStage, ()>| build_steps(b, e, p) && prod_after_build(m, p, r);
        },
        ProdStage::Deploying(d) => {
            let x = choose|x: (Vec<Notice>, Result<bool, CliError>)| deploy_steps(d, e, x) && prod_after_deploy(m, x, r);
        },
        _ => {},
    }
}

/// No step enters the dev gate of the prod pipeline, and a step that
/// leaves it for anything but the end comes from a dev pipeline that
/// finished with status 0.
pub proof fn lemma_prod_leaves_dev_gate_only_on_success(m: Prod, e: Event, r: (Prod, Step))
    requires
        prod_expects(m, e),
        prod_steps(m, e, r),
    ensures
        r.0.stage is DevGate ==> m.stage is DevGate,
        m.stage is DevGate && !(r.0.stage is DevGate) && !(r.0.stage is Done) ==> (m.stage matches ProdStage::DevGate(d)
            && exists|r2: (Dev, Step)| dev_steps(d, e, r2) && r2.1.action == Action::Finish(Ok::<i32, CliError>(0))),
{
    match m.stage {
        ProdStage::DevGate(d) => {
            let r2 = choose|r2: (Dev, Step)| dev_steps(d, e, r2) && prod_after_dev(m, r2, r);
            if !(r.0.stage is DevGate) && !(r.0.stage is Done) {
                assert(dev_steps(d, e, r2) && r2.1.action == Action::Finish(Ok::<i32, CliError>(0)));
            }
        },
        ProdStage::StagingGate(st) => {
            let r2 = choose|r2: (Staging, Step)| staging_steps(st, e, r2) && prod_after_staging(m, r2, r);
        },
        ProdStage::Loading(l) => {
            let p = choose|p: Progress<EnvLoad, LoadedEnv>| env_load_steps(l, e, p) && prod_after_load(m, p, r);
        },
        ProdStage::Building(b) => {
            let p = choose|p: Progress<BuildStage, ()>| build_steps(b, e, p) && prod_after_build(m, p, r);
        },
        ProdStage::Deploying(d) => {
            let x = choose|x: (Vec<Notice>, Result<bool, CliError>)| deploy_steps(d, e, x) && prod_after_deploy(m, x, r);
        },
        _ => {},
    }
}

/// A run of the prod pipeline: states, the events it got, and the steps
/// it took.
pub open spec fn prod_run(ms: Seq<Prod>, es: Seq<Event>, ss: Seq<Step>) -> bool {
    &&& ms.len() == es.len() + 1 && ss.len() == es.len()
    &&& forall|i: int| 0 <= i < es.len() ==> #[trigger] prod_expects(ms[i], es[i]) && prod_steps(ms[i], es[i], (ms[i + 1], ss[i]))
}

/// Over a whole prod pipeline that begins with the dev gate, every state
/// past the dev gate other than the end is reached only once the dev
/// pipeline finished with status 0.
pub proof fn lemma_prod_dev_gate_run(ms: Seq<Prod>, es: Seq<Event>, ss: Seq<Step>, i: int)
    requires
        prod_run(ms, es, ss),
        ms[0].stage is DevGate,
        0 <= i <= es.len(),
        !(ms[i].stage is DevGate) && !(ms[i].stage is Done),
    ensures
        exists|k: int|
            0 <= k < i && ((#[trigger] ms[k]).stage matches ProdStage::DevGate(d) && exists|r2: (Dev, Step)|
                dev_steps(d, es[k], r2) && r2.1.action == Action::Finish(Ok::<i32, CliError>(0))),
    decreases i,
{
    let j = i - 1;
    assert(prod_expects(ms[j], es[j]));
    lemma_prod_leaves_dev_gate_only_on_success(ms[j], es[j], (ms[j + 1], ss[j]));
    if !(ms[j].stage is DevGate) {
        assert(!(ms[j].stage is Done));
        lemma_prod_dev_gate_run(ms, es, ss, j);
    }
}

} // verus!
