//! `qs edge`: build the embedded firmware and flash it to the device.
use vstd::prelude::*;
use crate::cli::commands::EdgeArgs;
use crate::cli::config::ProjectConfig;
use crate::cli::env::{lookup_var, make_env, vars_map};
use crate::cli::error::CliError;
use crate::cli::output::{notices_view, Notice, NoticeLevel};
use crate::cli::pipeline::{
    env_load_accepts, env_load_expects, require_accepts, env_load_start, env_load_step, env_load_steps, one, require_expects, require_start, require_step,
    require_steps, Action, EnvLoad, Event, LoadedEnv, Progress, Require, Step,
};
use crate::cli::runner::{opt_text, opt_vars, strings, RunOptions};
use crate::pattern::{is_empty_text, strs_of, texts_of};
use crate::text::{push_str, to_string};

verus! {

/// Where the edge pipeline stands.
pub enum EdgeStage {
    /// Checking for cargo and espflash.
    Checking(Require),
    /// Loading `.env.dev`.
    Loading(EnvLoad),
    /// Flashing.
    Flashing,
    /// Over.
    Done,
}

/// What the edge pipeline works with.
pub struct EdgeCtx {
    pub device_dir: String,
    pub env_dev: String,
    pub verbose: bool,
    pub dry_run: bool,
}

/// The edge pipeline.
pub struct Edge {
    pub ctx: EdgeCtx,
    pub stage: EdgeStage,
}

/// The serial port: `ESPFLASH_PORT` of `.env.dev`, else of the process,
/// else none (empty).
pub open spec fn edge_port(vars: Map<Seq<char>, Seq<char>>, process: Map<Seq<char>, Seq<char>>) -> Seq<char> {
    if vars.contains_key("ESPFLASH_PORT"@) {
        vars["ESPFLASH_PORT"@]
    } else if process.contains_key("ESPFLASH_PORT"@) {
        process["ESPFLASH_PORT"@]
    } else {
        Seq::empty()
    }
}

/// The flash command, with the port when there is one.
pub open spec fn flash_args(port: Seq<char>) -> Seq<Seq<char>> {
    seq!["cargo"@, "run"@, "--bin"@, "supervictor-embedded"@, "--features"@, "embedded"@] + (if port.len() > 0 {
        seq!["--"@, "--port"@, port]
    } else {
        Seq::empty()
    })
}

/// How the edge pipeline starts.
pub open spec fn edge_started(args: EdgeArgs, cfg: ProjectConfig, r: (Edge, Step)) -> bool {
    &&& (r.0.ctx.device_dir@ == cfg.device_dir@)
    &&& (r.0.ctx.env_dev@ == cfg.env_dev@)
    &&& (r.0.ctx.verbose == args.verbose && r.0.ctx.dry_run == args.dry_run)
    &&& (r.0.stage matches EdgeStage::Checking(q) && !q.docker && !q.need_docker && texts_of(q.tools@) == seq![
            "cargo"@,
            "espflash"@
        ])
    &&& (r.1.notices@.len() == 0)
    &&& (r.1.action matches Action::FindTools(ts) && texts_of(ts@) == seq!["cargo"@, "espflash"@])
}

/// Start the edge pipeline: check for cargo and espflash.
pub fn edge_start(args: &EdgeArgs, cfg: &ProjectConfig) -> (r: (Edge, Step))
    ensures
        edge_started(*args, *cfg, r),
{
    let (q, s) = require_start(&["cargo", "espflash"], false);
    assert(strs_of(seq!["cargo", "espflash"]) =~= seq!["cargo"@, "espflash"@]);
    (
        Edge {
            ctx: EdgeCtx {
                device_dir: cfg.device_dir.clone(),
                env_dev: cfg.env_dev.clone(),
                verbose: args.verbose,
                dry_run: args.dry_run,
            },
            stage: EdgeStage::Checking(q),
        },
        s,
    )
}

impl Edge {
    fn at(ctx: EdgeCtx, stage: EdgeStage) -> (m: Edge)
        ensures
            m.ctx == ctx,
            m.stage == stage,
    {
        Edge { ctx, stage }
    }
}

/// The events that the edge pipeline waits for.
pub open spec fn edge_expects(m: Edge, e: Event) -> bool {
    match m.stage {
        EdgeStage::Checking(q) => require_expects(q, e),
        EdgeStage::Loading(l) => env_load_expects(l, e),
        EdgeStage::Flashing => e is Ran,
        EdgeStage::Done => false,
    }
}

/// Whether the edge pipeline waits for `e` (`edge_expects`), tested.
pub fn edge_accepts(m: &Edge, e: &Event) -> (b: bool)
    ensures
        b == edge_expects(*m, *e),
{
    match &m.stage {
        EdgeStage::Checking(q) => require_accepts(q, e),
        EdgeStage::Loading(l) => env_load_accepts(l, e),
        EdgeStage::Flashing => matches!(e, Event::Ran(_)),
        EdgeStage::Done => false,
    }
}

/// How the edge pipeline goes on after a step `p` of the tool check.
pub open spec fn edge_after_check(m: Edge, p: Progress<Require, ()>, r: (Edge, Step)) -> bool {
    match p {
        Progress::Next(q2, s) => r.0.stage == EdgeStage::Checking(q2) && r.1 == s,
        Progress::Done(_, Err(err)) => r.0.stage is Done && r.1.notices@.len() == 0 && r.1.action == Action::Finish(
            Err::<i32, CliError>(err),
        ),
        Progress::Done(_, Ok(())) => r.0.stage matches EdgeStage::Loading(l) && !l.merging && l.path@ == m.ctx.env_dev@
            && notices_view(r.1.notices@) == seq![(NoticeLevel::Step, "Loading "@ + ".env.dev"@)] && (r.1.action matches Action::ReadFile(
            f,
        ) && f@ == m.ctx.env_dev@),
    }
}

/// How the edge pipeline goes on after a step `p` of loading `.env.dev`.
pub open spec fn edge_after_load(m: Edge, p: Progress<EnvLoad, LoadedEnv>, r: (Edge, Step)) -> bool {
    match p {
        Progress::Next(l2, s) => r.0.stage == EdgeStage::Loading(l2) && r.1 == s,
        Progress::Done(_, Err(err)) => r.0.stage is Done && r.1.notices@.len() == 0 && r.1.action == Action::Finish(
            Err::<i32, CliError>(err),
        ),
        Progress::Done(_, Ok(le)) => {
            let port = edge_port(vars_map(le.vars@), vars_map(le.process@));
            &&& r.0.stage is Flashing
            &&& notices_view(r.1.notices@) == seq![(NoticeLevel::Milestone, "Building and flashing embedded firmware"@)]
                + (if port.len() > 0 {
                seq![(NoticeLevel::Step, "Using serial port "@ + port)]
            } else {
                Seq::empty()
            })
            &&& r.1.action matches Action::Run(c, o) && texts_of(c@) == flash_args(port) && opt_text(o.cwd) == Some(
                m.ctx.device_dir@,
            ) && opt_vars(o.env) == Some(vars_map(le.process@).union_prefer_right(vars_map(le.vars@))) && o.check
                && !o.capture && o.verbose == m.ctx.verbose && o.dry_run == m.ctx.dry_run && o.log_to is None
        },
    }
}

/// The edge pipeline's step for an event.
pub open spec fn edge_steps(m: Edge, e: Event, r: (Edge, Step)) -> bool {
    &&& r.0.ctx == m.ctx
    &&& match m.stage {
        EdgeStage::Checking(q) => exists|p: Progress<Require, ()>| require_steps(q, e, p) && edge_after_check(m, p, r),
        EdgeStage::Loading(l) => exists|p: Progress<EnvLoad, LoadedEnv>| env_load_steps(l, e, p) && edge_after_load(m, p, r),
        EdgeStage::Flashing => r.0.stage is Done && match e {
            Event::Ran(Ok(_)) => r.1.notices@.len() == 0 && r.1.action == Action::Finish(Ok::<i32, CliError>(0)),
            _ => notices_view(r.1.notices@) == seq![(NoticeLevel::Error, "Flash failed."@)] && r.1.action == Action::Finish(
                Ok::<i32, CliError>(1),
            ),
        },
        EdgeStage::Done => false,
    }
}

/// Next step of the edge pipeline. Missing tools end it with their error;
/// then `.env.dev` is loaded (an unreadable file ends it with its error);
/// then the firmware is built and flashed from the device directory with
/// the environment, on the serial port when one is set; a failed flash
/// shows `Flash failed.` and ends with status 1, a successful one with 0.
pub fn edge_step(m: Edge, e: Event) -> (r: (Edge, Step))
    requires
        edge_expects(m, e),
    ensures
        edge_steps(m, e, r),
{
    let ghost m0 = m;
    let Edge { ctx, stage } = m;
    match stage {
        EdgeStage::Checking(q) => {
            let p = require_step(q, e);
            let ghost gp = p;
            let r = match p {
                Progress::Next(q2, s) => (Edge::at(ctx, EdgeStage::Checking(q2)), s),
                Progress::Done(_, Err(err)) => (Edge::at(ctx, EdgeStage::Done), Step { notices: Vec::new(), action: Action::Finish(Err(err)) }),
                Progress::Done(_, Ok(())) => {
                    let (l, s) = env_load_start(ctx.env_dev.as_str(), ".env.dev");
                    (Edge::at(ctx, EdgeStage::Loading(l)), s)
                },
            };
            assert(require_steps(q, e, gp) && edge_after_check(m0, gp, r));
            r
        },
        EdgeStage::Loading(l) => {
          let p = env_load_step(l, e);
          let ghost gp = p;
          let r = match p {
            Progress::Next(l2, s) => (Edge::at(ctx, EdgeStage::Loading(l2)), s),
            Progress::Done(_, Err(err)) => (Edge::at(ctx, EdgeStage::Done), Step { notices: Vec::new(), action: Action::Finish(Err(err)) }),
            Progress::Done(_, Ok(le)) => {
                let env = make_env(&le.process, &le.vars);
                let port = match lookup_var(&le.vars, "ESPFLASH_PORT") {
                    Some(p) => p,
                    None => match lookup_var(&le.process, "ESPFLASH_PORT") {
                        Some(p) => p,
                        None => String::new(),
                    },
                };
                let ghost pv = edge_port(vars_map(le.vars@), vars_map(le.process@));
                assert(port@ == pv);
                let mut notices = one(NoticeLevel::Milestone, "Building and flashing embedded firmware");
                let mut cmd = strings(&["cargo", "run", "--bin", "supervictor-embedded", "--features", "embedded"]);
                let ghost base = texts_of(cmd@);
                let ghost nbase = notices_view(notices@);
                if !is_empty_text(port.as_str()) {
                    let mut t = to_string("Using serial port ");
                    push_str(&mut t, port.as_str());
                    notices.push(Notice { level: NoticeLevel::Step, text: t });
                    assert(notices_view(notices@) =~= nbase.push((NoticeLevel::Step, "Using serial port "@ + pv)));
                    cmd.push(to_string("--"));
                    cmd.push(to_string("--port"));
                    cmd.push(port);
                    assert(texts_of(cmd@) =~= base + seq!["--"@, "--port"@, pv]);
                }
                assert(texts_of(cmd@) =~= flash_args(pv));
                assert(notices_view(notices@) =~= seq![(NoticeLevel::Milestone, "Building and flashing embedded firmware"@)]
                    + (if pv.len() > 0 {
                    seq![(NoticeLevel::Step, "Using serial port "@ + pv)]
                } else {
                    Seq::empty()
                }));
                let opts = RunOptions {
                    cwd: Some(ctx.device_dir.clone()),
                    env: Some(env),
                    check: true,
                    capture: false,
                    verbose: ctx.verbose,
                    dry_run: ctx.dry_run,
                    log_to: None,
                };
                (Edge::at(ctx, EdgeStage::Flashing), Step { notices, action: Action::Run(cmd, opts) })
            },
          };
          assert(env_load_steps(l, e, gp) && edge_after_load(m0, gp, r));
          r
        },
        EdgeStage::Flashing => match e {
            Event::Ran(Ok(_)) => (Edge::at(ctx, EdgeStage::Done), Step { notices: Vec::new(), action: Action::Finish(Ok(0)) }),
            _ => (Edge::at(ctx, EdgeStage::Done), Step { notices: one(NoticeLevel::Error, "Flash failed."), action: Action::Finish(Ok(1)) }),
        },
        EdgeStage::Done => (Edge::at(ctx, EdgeStage::Done), Step { notices: Vec::new(), action: Action::Finish(Ok(0)) }),
    }
}

/// The serial port: once `.env.dev` was read (its assignments `file`) and
/// the process's variables arrive (`process`), the flash command takes
/// `.env.dev`'s `ESPFLASH_PORT` whatever the process holds; the process's
/// value only when `.env.dev` does not set it; and no port when neither
/// does, or the chosen value is empty.
pub proof fn lemma_env_file_port_wins(m: Edge, process: Vec<(String, String)>, r: (Edge, Step))
    requires
        m.stage matches EdgeStage::Loading(l) && l.merging,
        edge_steps(m, Event::Vars(process), r),
    ensures
        m.stage matches EdgeStage::Loading(l) && ({
            let file = vars_map(l.vars@);
            let procs = vars_map(process@);
            let key = "ESPFLASH_PORT"@;
            let base = seq!["cargo"@, "run"@, "--bin"@, "supervictor-embedded"@, "--features"@, "embedded"@];
            &&& r.0.stage is Flashing
            &&& file.contains_key(key) && file[key].len() > 0 ==> (r.1.action matches Action::Run(c, _) && texts_of(c@)
                == base + seq!["--"@, "--port"@, file[key]])
            &&& !file.contains_key(key) && procs.contains_key(key) && procs[key].len() > 0 ==> (r.1.action matches Action::Run(
                c,
                _,
            ) && texts_of(c@) == base + seq!["--"@, "--port"@, procs[key]])
            &&& (file.contains_key(key) && file[key].len() == 0) || (!file.contains_key(key) && !(procs.contains_key(key)
                && procs[key].len() > 0)) ==> (r.1.action matches Action::Run(c, _) && texts_of(c@) == base)
        }),
{
    if let EdgeStage::Loading(l) = m.stage {
        let p = choose|p: Progress<EnvLoad, LoadedEnv>| env_load_steps(l, Event::Vars(process), p) && edge_after_load(m, p, r);
        assert(seq!["cargo"@, "run"@, "--bin"@, "supervictor-embedded"@, "--features"@, "embedded"@] + Seq::<Seq<char>>::empty()
            =~= seq!["cargo"@, "run"@, "--bin"@, "supervictor-embedded"@, "--features"@, "embedded"@]);
    }
}

} // verus!
