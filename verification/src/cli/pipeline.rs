//! The vocabulary of the CLI's pipelines, which run as state machines: a
//! pipeline asks its driver for one outside operation at a time (an
//! `Action`), and the driver reports how it went (an `Event`). The parts
//! that several pipelines share are machines of their own here: loading an
//! environment file, checking the tools, building with SAM, deploying, and
//! finding a stack's endpoint.
use vstd::prelude::*;
use crate::cli::config::join_path;
use crate::cli::env::{env_map, make_env, parse_env_vars, vars_map};
use crate::cli::error::CliError;
use crate::cli::output::{notices_view, Notice, NoticeLevel};
use crate::cli::preflight::{docker_answered, docker_info_run, docker_outcome, missing_names, missing_tools, tools_outcome};
use crate::cli::runner::{opt_text, opt_vars, BackgroundOptions, CommandOutput, RunOptions};
use crate::cli::sam::{
    deploy_log, deploy_outcome, dry_run_endpoint, endpoint_from_output, endpoint_query, env_value, env_value_of,
    is_build_run, is_deploy_run, is_endpoint_query, is_export_run, samconfig_stack_name, stack_name_from_samconfig,
    toml_parse_error, SamLocal,
};
use crate::cli::config::join;
use crate::pattern::{contains_text, strs_of, texts_of, trim_end_char};
use crate::text::{lines, push_str, to_string, trim};

verus! {

/// An outside operation for the driver; the comment names the event that
/// reports its outcome.
pub enum Action {
    /// Read a text file: `FileRead`.
    ReadFile(String),
    /// Read the process's environment variables: `Vars`.
    ProcessVars,
    /// Look for tools on the path: `ToolsFound`, one answer per tool.
    FindTools(Vec<String>),
    /// Run a command: `Ran`.
    Run(Vec<String>, RunOptions),
    /// Start a command in the background: `Spawned`.
    Spawn(Vec<String>, BackgroundOptions),
    /// Write `sam local`'s Lambda variables to a temporary file:
    /// `TempWritten`, with the file's path.
    WriteEnvOverrides,
    /// Wait until an HTTP server answers at the address, at most this many
    /// seconds: `Ready`.
    WaitReady(String, u64),
    /// Stop the process whose PID the file records: `PidStopped`.
    StopPidFile(String),
    /// Let the background process run on, recording its PID in the file:
    /// `Detached`.
    Detach(String),
    /// Whether a path exists: `Exists`.
    PathExists(String),
    /// Ask the user: `Answered`.
    Confirm(String),
    /// Sleep this many seconds: `Slept`.
    Sleep(u64),
    /// Unless the poll deadline has passed (`Expired`), run the command
    /// (`Ran`); a given number of seconds starts the deadline from now.
    Poll(Option<u64>, Vec<String>, RunOptions),
    /// The pipeline is over, with this result.
    Finish(Result<i32, CliError>),
}

/// How an outside operation went.
pub enum Event {
    FileRead(Result<String, String>),
    Vars(Vec<(String, String)>),
    ToolsFound(Vec<bool>),
    Ran(Result<CommandOutput, CliError>),
    Spawned(Result<(), CliError>),
    TempWritten(Result<String, CliError>),
    Ready(bool),
    PidStopped(Result<bool, CliError>),
    Detached(Result<u32, CliError>),
    Exists(bool),
    Answered(bool),
    Slept,
    Expired,
}

/// Whether `e` reports the outcome of `a`.
pub open spec fn answers(a: Action, e: Event) -> bool {
    match a {
        Action::ReadFile(_) => e is FileRead,
        Action::ProcessVars => e is Vars,
        Action::FindTools(ts) => e matches Event::ToolsFound(f) && f@.len() == ts@.len(),
        Action::Run(..) => e is Ran,
        Action::Spawn(..) => e is Spawned,
        Action::WriteEnvOverrides => e is TempWritten,
        Action::WaitReady(..) => e is Ready,
        Action::StopPidFile(_) => e is PidStopped,
        Action::Detach(_) => e is Detached,
        Action::PathExists(_) => e is Exists,
        Action::Confirm(_) => e is Answered,
        Action::Sleep(_) => e is Slept,
        Action::Poll(..) => e is Ran || e is Expired,
        Action::Finish(_) => false,
    }
}

/// The messages to show, then the operation to perform.
pub struct Step {
    pub notices: Vec<Notice>,
    pub action: Action,
}

/// A step of a part of a pipeline: on to the next operation, or done with
/// messages and a result.
pub enum Progress<M, T> {
    Next(M, Step),
    Done(Vec<Notice>, Result<T, CliError>),
}

/// One message.
pub fn one(level: NoticeLevel, text: &str) -> (v: Vec<Notice>)
    ensures
        notices_view(v@) == seq![(level, text@)],
{
    let mut v: Vec<Notice> = Vec::new();
    v.push(Notice { level, text: to_string(text) });
    assert(notices_view(v@) =~= seq![(level, text@)]);
    v
}

/// Adds a message.
pub fn push_notice(v: &mut Vec<Notice>, level: NoticeLevel, text: String)
    ensures
        notices_view(final(v)@) == notices_view(old(v)@).push((level, text@)),
{
    let ghost before = notices_view(v@);
    v.push(Notice { level, text });
    assert(notices_view(v@) =~= before.push((level, text@)));
}

/// A pipeline command: checked, not captured, run in `cwd` with the
/// environment `env`, its output logged to `log`.
pub open spec fn is_logged_run(
    a: Action,
    args: Seq<Seq<char>>,
    cwd: Seq<char>,
    env: Map<Seq<char>, Seq<char>>,
    log: Seq<char>,
    verbose: bool,
    dry_run: bool,
) -> bool {
    a matches Action::Run(c, o) && texts_of(c@) =~= args && opt_text(o.cwd) == Some(cwd) && opt_vars(o.env) == Some(env)
        && o.check && !o.capture && o.verbose == verbose && o.dry_run == dry_run && opt_text(o.log_to) == Some(log)
}

/// Runs a pipeline command in `cwd` with `env`, logging to `log`.
pub fn logged_run(args: Vec<String>, cwd: &str, env: Vec<(String, String)>, log: String, verbose: bool, dry_run: bool) -> (a: Action)
    ensures
        is_logged_run(a, texts_of(args@), cwd@, vars_map(env@), log@, verbose, dry_run),
{
    Action::Run(
        args,
        RunOptions { cwd: Some(to_string(cwd)), env: Some(env), check: true, capture: false, verbose, dry_run, log_to: Some(log) },
    )
}

/// A pipeline command that is not logged: checked, not captured, run in
/// `cwd` with the environment `env`.
pub open spec fn is_plain_run(
    a: Action,
    args: Seq<Seq<char>>,
    cwd: Seq<char>,
    env: Map<Seq<char>, Seq<char>>,
    verbose: bool,
    dry_run: bool,
) -> bool {
    a matches Action::Run(c, o) && texts_of(c@) =~= args && opt_text(o.cwd) == Some(cwd) && opt_vars(o.env) == Some(env)
        && o.check && !o.capture && o.verbose == verbose && o.dry_run == dry_run && o.log_to is None
}

/// Runs a pipeline command in `cwd` with `env`, unlogged.
pub fn plain_run(args: Vec<String>, cwd: &str, env: Vec<(String, String)>, verbose: bool, dry_run: bool) -> (a: Action)
    ensures
        is_plain_run(a, texts_of(args@), cwd@, vars_map(env@), verbose, dry_run),
{
    Action::Run(
        args,
        RunOptions { cwd: Some(to_string(cwd)), env: Some(env), check: true, capture: false, verbose, dry_run, log_to: None },
    )
}

/// A command whose output is captured: checked, quiet, never a dry run,
/// in the current directory and environment.
pub open spec fn is_captured_run(a: Action, args: Seq<Seq<char>>) -> bool {
    a matches Action::Run(c, o) && texts_of(c@) =~= args && o.cwd is None && o.env is None && o.log_to is None && o.check
        && o.capture && !o.verbose && !o.dry_run
}

/// Runs a command capturing its output.
pub fn captured_run(args: Vec<String>) -> (a: Action)
    ensures
        is_captured_run(a, texts_of(args@)),
{
    Action::Run(args, RunOptions { cwd: None, env: None, check: true, capture: true, verbose: false, dry_run: false, log_to: None })
}

/// `prefix`, `detail` and `suffix` as one text.
pub fn text3(prefix: &str, detail: &str, suffix: &str) -> (t: String)
    ensures
        t@ == prefix@ + detail@ + suffix@,
{
    let mut t = to_string(prefix);
    push_str(&mut t, detail);
    push_str(&mut t, suffix);
    t
}

/// The error when a file cannot be read.
pub open spec fn read_error(path: Seq<char>, reason: Seq<char>) -> Seq<char> {
    "failed to read "@ + path + ": "@ + reason
}

// ── Loading an environment file ─────────────────────────────────────

/// Loading a `.env` file and the process's variables.
pub struct EnvLoad {
    pub path: String,
    /// The file's assignments, once read.
    pub vars: Vec<(String, String)>,
    /// Whether the file was read and the process's variables are next.
    pub merging: bool,
}

/// What an environment file gave: its assignments and the process's.
pub struct LoadedEnv {
    pub vars: Vec<(String, String)>,
    pub process: Vec<(String, String)>,
}

/// Start loading the file at `path`, announcing `label`.
pub fn env_load_start(path: &str, label: &str) -> (r: (EnvLoad, Step))
    ensures
        r.0.path@ == path@,
        !r.0.merging,
        notices_view(r.1.notices@) == seq![(NoticeLevel::Step, "Loading "@ + label@)],
        r.1.action matches Action::ReadFile(p) && p@ == path@,
{
    let mut t = to_string("Loading ");
    push_str(&mut t, label);
    let mut notices: Vec<Notice> = Vec::new();
    notices.push(Notice { level: NoticeLevel::Step, text: t });
    assert(notices_view(notices@) =~= seq![(NoticeLevel::Step, "Loading "@ + label@)]);
    (EnvLoad { path: to_string(path), vars: Vec::new(), merging: false }, Step { notices, action: Action::ReadFile(to_string(path)) })
}

/// The events that loading waits for.
pub open spec fn env_load_expects(l: EnvLoad, e: Event) -> bool {
    if l.merging {
        e is Vars
    } else {
        e is FileRead
    }
}

/// Whether loading waits for `e` (`env_load_expects`), tested.
pub fn env_load_accepts(l: &EnvLoad, e: &Event) -> (b: bool)
    ensures
        b == env_load_expects(*l, *e),
{
    if l.merging {
        matches!(e, Event::Vars(_))
    } else {
        matches!(e, Event::FileRead(_))
    }
}

/// A step of loading an environment file.
pub open spec fn env_load_steps(l: EnvLoad, e: Event, r: Progress<EnvLoad, LoadedEnv>) -> bool {
    &&& !l.merging ==> match e {
            Event::FileRead(Ok(t)) => r matches Progress::Next(l2, s) && l2.merging && l2.path@ == l.path@
                && vars_map(l2.vars@) == env_map(lines(t@)) && s.notices@.len() == 0 && s.action is ProcessVars,
            Event::FileRead(Err(m)) => r matches Progress::Done(ns, Err(CliError::Config(t))) && ns@.len() == 0
                && t@ == read_error(l.path@, m@),
            _ => false
        }
    &&& l.merging ==> (e matches Event::Vars(p) && r matches Progress::Done(ns, Ok(le)) && ns@.len() == 0
            && vars_map(le.vars@) == vars_map(l.vars@) && vars_map(le.process@) == vars_map(p@))
}

/// Next step of loading: the file's text is parsed and the process's
/// variables are read next; a file that cannot be read is a configuration
/// error naming it.
pub fn env_load_step(l: EnvLoad, e: Event) -> (r: Progress<EnvLoad, LoadedEnv>)
    requires
        env_load_expects(l, e),
    ensures
        env_load_steps(l, e, r),
{
    match e {
        Event::FileRead(Ok(t)) => {
            let vars = parse_env_vars(t.as_str());
            Progress::Next(
                EnvLoad { path: l.path, vars, merging: true },
                Step { notices: Vec::new(), action: Action::ProcessVars },
            )
        },
        Event::FileRead(Err(m)) => {
            let mut t = to_string("failed to read ");
            push_str(&mut t, l.path.as_str());
            push_str(&mut t, ": ");
            push_str(&mut t, m.as_str());
            Progress::Done(Vec::new(), Err(CliError::Config(t)))
        },
        Event::Vars(p) => Progress::Done(Vec::new(), Ok(LoadedEnv { vars: l.vars, process: p })),
        _ => Progress::Done(Vec::new(), Err(CliError::Config(String::new()))),
    }
}

/// Loading an environment file as a whole: a file that reads as text `t`
/// gives its assignments `env_map(lines(t))` and then the process's
/// variables as they are read; a file that cannot be read is a
/// configuration error naming it. The only operations are reading the file
/// and reading the process's variables: nothing is written.
pub proof fn lemma_load_env_run(
    l0: EnvLoad,
    read: Result<String, String>,
    p1: Progress<EnvLoad, LoadedEnv>,
    process: Vec<(String, String)>,
    p2: Progress<EnvLoad, LoadedEnv>,
)
    requires
        !l0.merging,
        env_load_steps(l0, Event::FileRead(read), p1),
        p1 matches Progress::Next(l1, _) ==> env_load_steps(l1, Event::Vars(process), p2),
    ensures
        read matches Ok(t) ==> (p1 matches Progress::Next(_, s) && s.action is ProcessVars) && (p2 matches Progress::Done(
            _,
            Ok(le),
        ) && vars_map(le.vars@) == env_map(lines(t@)) && vars_map(le.process@) == vars_map(process@)),
        read matches Err(m) ==> (p1 matches Progress::Done(_, Err(CliError::Config(t))) && t@ == read_error(
            l0.path@,
            m@,
        )),
{
}

// ── Checking the tools ──────────────────────────────────────────────

/// `docker info`, captured and unchecked.
pub open spec fn is_docker_info(a: Action) -> bool {
    a matches Action::Run(c, o) && texts_of(c@) == seq!["docker"@, "info"@] && o.cwd is None && o.env is None
        && o.log_to is None && !o.check && o.capture && !o.verbose && !o.dry_run
}

/// Checking that tools are on the path and, when needed, that Docker runs.
pub struct Require {
    pub tools: Vec<String>,
    pub need_docker: bool,
    /// Whether the tools were found and Docker is being asked.
    pub docker: bool,
}

/// Start checking `tools`.
pub fn require_start(tools: &[&str], need_docker: bool) -> (r: (Require, Step))
    ensures
        texts_of(r.0.tools@) == strs_of(tools@),
        r.0.need_docker == need_docker,
        !r.0.docker,
        r.1.notices@.len() == 0,
        r.1.action matches Action::FindTools(ts) && texts_of(ts@) == strs_of(tools@),
{
    let names = crate::cli::runner::strings(tools);
    let ask = crate::cli::runner::strings(tools);
    (Require { tools: names, need_docker, docker: false }, Step { notices: Vec::new(), action: Action::FindTools(ask) })
}

/// The events that a check waits for.
pub open spec fn require_expects(q: Require, e: Event) -> bool {
    if q.docker {
        e is Ran
    } else {
        e matches Event::ToolsFound(f) && f@.len() == q.tools@.len()
    }
}

/// Whether a tool check waits for `e` (`require_expects`), tested.
pub fn require_accepts(q: &Require, e: &Event) -> (b: bool)
    ensures
        b == require_expects(*q, *e),
{
    if q.docker {
        matches!(e, Event::Ran(_))
    } else {
        match e {
            Event::ToolsFound(f) => f.len() == q.tools.len(),
            _ => false,
        }
    }
}

/// A step of a tool check.
pub open spec fn require_steps(q: Require, e: Event, r: Progress<Require, ()>) -> bool {
    &&& !q.docker ==> (e matches Event::ToolsFound(f) && {
            let missing = missing_tools(texts_of(q.tools@), f@);
            &&& missing.len() > 0 ==> (r matches Progress::Done(ns, Err(CliError::MissingTools(m))) && ns@.len() == 0
                && texts_of(m@) == missing)
            &&& missing.len() == 0 && q.need_docker ==> (r matches Progress::Next(q2, s) && q2.docker
                && s.notices@.len() == 0 && is_docker_info(s.action))
            &&& missing.len() == 0 && !q.need_docker ==> (r matches Progress::Done(ns, Ok(())) && ns@.len() == 0)
        })
    &&& q.docker ==> (e matches Event::Ran(res) && (if res matches Ok(o) && o.status == 0 {
            r matches Progress::Done(ns, Ok(())) && ns@.len() == 0
        } else {
            r matches Progress::Done(ns, Err(CliError::DockerNotRunning)) && ns@.len() == 0
        }))
}

/// Next step of a check: missing tools are an error listing them; with
/// all tools there, Docker is asked when needed, and an unanswered Docker
/// is an error.
pub fn require_step(q: Require, e: Event) -> (r: Progress<Require, ()>)
    requires
        require_expects(q, e),
    ensures
        require_steps(q, e, r),
{
    match e {
        Event::ToolsFound(f) => {
            let missing = missing_names(&q.tools, &f);
            if missing.len() > 0 {
                return Progress::Done(Vec::new(), Err(CliError::MissingTools(missing)));
            }
            assert(texts_of(missing@).len() == 0);
            if q.need_docker {
                let (c, o) = docker_info_run();
                Progress::Next(
                    Require { tools: q.tools, need_docker: q.need_docker, docker: true },
                    Step { notices: Vec::new(), action: Action::Run(c, o) },
                )
            } else {
                Progress::Done(Vec::new(), Ok(()))
            }
        },
        Event::Ran(res) => {
            let answered = docker_answered(&res);
            match docker_outcome(answered) {
                Ok(()) => Progress::Done(Vec::new(), Ok(())),
                Err(e) => Progress::Done(Vec::new(), Err(e)),
            }
        },
        _ => Progress::Done(Vec::new(), Ok(())),
    }
}

/// A check as a whole: missing tools are an error listing them, and no
/// command runs; otherwise, when Docker is needed, `docker info` is the one
/// command run and the check passes exactly when it exited with 0 (else
/// `DockerNotRunning`); when Docker is not needed the check passes.
pub proof fn lemma_require_run(
    q0: Require,
    found: Vec<bool>,
    p1: Progress<Require, ()>,
    ran: Result<CommandOutput, CliError>,
    p2: Progress<Require, ()>,
)
    requires
        !q0.docker,
        require_steps(q0, Event::ToolsFound(found), p1),
        p1 matches Progress::Next(q1, _) ==> require_steps(q1, Event::Ran(ran), p2),
    ensures
        ({
            let missing = missing_tools(texts_of(q0.tools@), found@);
            let answered = ran matches Ok(o) && o.status == 0;
            &&& missing.len() > 0 ==> (p1 matches Progress::Done(_, Err(CliError::MissingTools(m))) && texts_of(m@)
                == missing)
            &&& missing.len() == 0 && !q0.need_docker ==> (p1 matches Progress::Done(_, Ok(())))
            &&& missing.len() == 0 && q0.need_docker ==> (p1 matches Progress::Next(_, s) && is_docker_info(s.action))
            &&& missing.len() == 0 && q0.need_docker && answered ==> (p2 matches Progress::Done(_, Ok(())))
            &&& missing.len() == 0 && q0.need_docker && !answered ==> (p2 matches Progress::Done(
                _,
                Err(CliError::DockerNotRunning),
            ))
        }),
{
}

// ── Building with SAM ───────────────────────────────────────────────

/// Exporting the runtime dependencies, then `sam build`.
pub struct SamBuild {
    /// The `sam build` command, run after the export.
    pub build: (Vec<String>, RunOptions),
}

/// Start a build: the export runs first.
pub fn sam_build_start(sam: &SamLocal, no_cache: bool) -> (r: (SamBuild, Step))
    ensures
        is_build_run(*sam, no_cache, r.0.build.0, r.0.build.1),
        notices_view(r.1.notices@) == seq![(NoticeLevel::Step, "Exporting runtime dependencies"@)],
        r.1.action matches Action::Run(c, o) && is_export_run(*sam, c, o),
{
    let (c, o) = sam.export_run();
    let build = sam.build_run(no_cache);
    (SamBuild { build }, Step { notices: one(NoticeLevel::Step, "Exporting runtime dependencies"), action: Action::Run(c, o) })
}

/// Where a build stands.
pub enum BuildStage {
    /// Waiting for the export.
    Exporting(SamBuild),
    /// Waiting for `sam build`.
    Building,
}

/// A step of a SAM build.
pub open spec fn build_steps(b: BuildStage, e: Event, r: Progress<BuildStage, ()>) -> bool {
    &&& e matches Event::Ran(Err(err)) ==> (r matches Progress::Done(ns, Err(x)) && ns@.len() == 0 && x == err)
    &&& e matches Event::Ran(Ok(_)) ==> match b {
            BuildStage::Exporting(sb) => r matches Progress::Next(BuildStage::Building, s) && notices_view(s.notices@)
                == seq![(NoticeLevel::Step, "Building SAM artifacts"@)] && s.action == Action::Run(sb.build.0, sb.build.1),
            BuildStage::Building => r matches Progress::Done(ns, Ok(())) && notices_view(ns@) == seq![
                (NoticeLevel::Success, "SAM build complete"@),
            ]
        }
}

/// Next step of a build: a failed command ends it with its error.
pub fn sam_build_step(b: BuildStage, e: Event) -> (r: Progress<BuildStage, ()>)
    requires
        e is Ran,
    ensures
        build_steps(b, e, r),
{
    match e {
        Event::Ran(Err(err)) => Progress::Done(Vec::new(), Err(err)),
        _ => match b {
            BuildStage::Exporting(sb) => Progress::Next(
                BuildStage::Building,
                Step { notices: one(NoticeLevel::Step, "Building SAM artifacts"), action: Action::Run(sb.build.0, sb.build.1) },
            ),
            BuildStage::Building => Progress::Done(one(NoticeLevel::Success, "SAM build complete"), Ok(())),
        },
    }
}

// ── Deploying ───────────────────────────────────────────────────────

/// A running `sam deploy`.
pub struct Deploy {
    pub cmd: Vec<String>,
    pub config_env: String,
    pub log_path: String,
}

/// Start deploying to `config_env`.
pub fn deploy_start(sam: &SamLocal, config_env: &str, force_upload: bool) -> (r: (Deploy, Step))
    ensures
        r.0.config_env@ == config_env@,
        r.0.log_path@ == deploy_log(*sam, config_env@),
        notices_view(r.1.notices@) == seq![(NoticeLevel::Step, "Deploying to "@ + config_env@ + " stack"@)],
        r.1.action matches Action::Run(c, o) && is_deploy_run(*sam, config_env@, force_upload, c, o) && texts_of(c@)
            == texts_of(r.0.cmd@),
{
    let (c, o) = sam.deploy_run(config_env, force_upload);
    let cmd = crate::cli::env::copy_strings(&c);
    let log_path = match &o.log_to {
        Some(l) => l.clone(),
        None => String::new(),
    };
    let mut notices: Vec<Notice> = Vec::new();
    notices.push(Notice { level: NoticeLevel::Step, text: text3("Deploying to ", config_env, " stack") });
    assert(notices_view(notices@) =~= seq![(NoticeLevel::Step, "Deploying to "@ + config_env@ + " stack"@)]);
    (Deploy { cmd, config_env: to_string(config_env), log_path }, Step { notices, action: Action::Run(c, o) })
}

/// How a deployment ends.
pub open spec fn deploy_steps(d: Deploy, e: Event, r: (Vec<Notice>, Result<bool, CliError>)) -> bool {
    &&& e matches Event::Ran(Err(err)) ==> r.0@.len() == 0 && r.1 == Err::<bool, CliError>(err)
    &&& e matches Event::Ran(Ok(o)) ==> r.0@.len() == 1 && {
            let n = r.0@[0];
            &&& o.status == 0 ==> n.level == NoticeLevel::Success && n.text@ == "Deployed to "@ + d.config_env@
                && r.1 == Ok::<bool, CliError>(true)
            &&& o.status != 0 && contains_text(o.stdout@ + o.stderr@, "No changes to deploy"@) ==> n.level
                == NoticeLevel::Success && n.text@ == "Stack is already up to date."@ && r.1 == Ok::<bool, CliError>(false)
            &&& o.status != 0 && !contains_text(o.stdout@ + o.stderr@, "No changes to deploy"@) ==> n.level
                == NoticeLevel::Error && n.text@ == "sam deploy failed (see "@ + d.log_path@ + ")"@ && (r.1 matches Err(
                CliError::Command { cmd: c, code, stderr },
            ) && c@ == crate::pattern::join_spec(texts_of(d.cmd@), " "@) && code == o.status && stderr@ == o.stderr@)
        }
}

/// How a deployment ended: its message and whether anything was deployed,
/// or the error of a command that could not run.
pub fn deploy_step(d: Deploy, e: Event) -> (r: (Vec<Notice>, Result<bool, CliError>))
    requires
        e is Ran,
    ensures
        deploy_steps(d, e, r),
{
    match e {
        Event::Ran(Ok(o)) => {
            let (n, res) = deploy_outcome(&d.cmd, d.config_env.as_str(), d.log_path.as_str(), o);
            let mut ns: Vec<Notice> = Vec::new();
            ns.push(n);
            (ns, res)
        },
        Event::Ran(Err(err)) => (Vec::new(), Err(err)),
        _ => (Vec::new(), Ok(false)),
    }
}

// ── Finding a stack's endpoint ──────────────────────────────────────

/// Finding the API endpoint of a deployed stack.
pub struct Endpoint {
    pub config_env: String,
    pub env: Option<Vec<(String, String)>>,
    pub verbose: bool,
    /// `samconfig.toml`'s path.
    pub samconfig: String,
    /// The stack being queried, once known.
    pub stack: Option<String>,
}

/// How finding an endpoint starts.
pub open spec fn endpoint_started(sam: SamLocal, config_env: Seq<char>, r: Progress<Endpoint, String>) -> bool {
    &&& sam.dry_run ==> (r matches Progress::Done(ns, Ok(u)) && ns@.len() == 0 && u@
            == "https://DRY-RUN.execute-api.us-east-1.amazonaws.com/"@ + config_env)
    &&& !sam.dry_run ==> (r matches Progress::Next(p, s) && s.notices@.len() == 0 && p.config_env@ == config_env
            && crate::cli::runner::opt_vars(p.env) == crate::cli::runner::opt_vars(sam.env) && p.verbose == sam.verbose
            && p.samconfig@ == join_path(sam.config.cloud_dir@, "samconfig.toml"@) && match env_value(
            sam.env,
            "SAM_STACK_NAME"@,
        ) {
            Some(name) => p.stack matches Some(st) && st@ == name && (s.action matches Action::Run(c, o)
                && is_endpoint_query(name, sam.env, sam.verbose, c, o)),
            None => p.stack is None && (s.action matches Action::ReadFile(f) && f@ == p.samconfig@),
        })
}

/// The stack name of `config_env`, then its endpoint: a dry run reports a
/// made-up endpoint; `SAM_STACK_NAME` names the stack when set; otherwise
/// `samconfig.toml` is read.
pub fn endpoint_start(sam: &SamLocal, config_env: &str) -> (r: Progress<Endpoint, String>)
    ensures
        endpoint_started(*sam, config_env@, r),
{
    if sam.dry_run {
        return Progress::Done(Vec::new(), Ok(dry_run_endpoint(config_env)));
    }
    let samconfig = join(sam.config.cloud_dir.as_str(), "samconfig.toml");
    match env_value_of(&sam.env, "SAM_STACK_NAME") {
        Some(name) => {
            let (c, o) = endpoint_query(name.as_str(), &sam.env, sam.verbose);
            Progress::Next(
                Endpoint {
                    config_env: to_string(config_env),
                    env: crate::cli::sam::copy_env(&sam.env),
                    verbose: sam.verbose,
                    samconfig,
                    stack: Some(name),
                },
                Step { notices: Vec::new(), action: Action::Run(c, o) },
            )
        },
        None => {
            let f = samconfig.clone();
            Progress::Next(
                Endpoint {
                    config_env: to_string(config_env),
                    env: crate::cli::sam::copy_env(&sam.env),
                    verbose: sam.verbose,
                    samconfig,
                    stack: None,
                },
                Step { notices: Vec::new(), action: Action::ReadFile(f) },
            )
        },
    }
}

/// The events that finding an endpoint waits for.
pub open spec fn endpoint_expects(p: Endpoint, e: Event) -> bool {
    match p.stack {
        Some(_) => e is Ran,
        None => e is FileRead,
    }
}

/// Whether finding an endpoint waits for `e` (`endpoint_expects`), tested.
pub fn endpoint_accepts(p: &Endpoint, e: &Event) -> (b: bool)
    ensures
        b == endpoint_expects(*p, *e),
{
    match p.stack {
        Some(_) => matches!(e, Event::Ran(_)),
        None => matches!(e, Event::FileRead(_)),
    }
}

/// A step of finding a stack's endpoint.
pub open spec fn endpoint_steps(p: Endpoint, e: Event, r: Progress<Endpoint, String>) -> bool {
    &&& p.stack is None ==> match e {
            Event::FileRead(Err(m)) => r matches Progress::Done(ns, Err(CliError::Config(t))) && ns@.len() == 0
                && t@ == read_error(p.samconfig@, m@),
            Event::FileRead(Ok(doc)) => match toml_parse_error(doc@) {
                Some(m) => r matches Progress::Done(ns, Err(CliError::Config(t))) && ns@.len() == 0 && t@
                    == "failed to parse samconfig.toml: "@ + m,
                None => match samconfig_stack_name(doc@, p.config_env@) {
                    Some(name) => r matches Progress::Next(p2, s) && p2.stack matches Some(st) && st@ == name
                        && s.notices@.len() == 0 && (s.action matches Action::Run(c, o) && is_endpoint_query(
                        name,
                        p.env,
                        p.verbose,
                        c,
                        o,
                    )),
                    None => r matches Progress::Done(ns, Err(CliError::Config(t))) && ns@.len() == 0 && t@
                        == "no stack_name found in samconfig.toml for config-env '"@ + p.config_env@ + "'"@,
                },
            },
            _ => false
        }
    &&& p.stack matches Some(st) ==> match e {
            Event::Ran(Err(err)) => r matches Progress::Done(ns, Err(x)) && ns@.len() == 0 && x == err,
            Event::Ran(Ok(o)) => r matches Progress::Done(ns, res) && ns@.len() == 0 && {
                let u = trim_end_char(trim(o.stdout@), '/');
                &&& u.len() > 0 ==> (res matches Ok(x) && x@ == u)
                &&& u.len() == 0 ==> (res matches Err(CliError::Config(t)) && t@
                    == "no SupervictorApiEndpoint output found for stack '"@ + st@ + "'"@)
            },
            _ => false
        }
}

/// Next step of finding an endpoint: the stack name from `samconfig.toml`,
/// then the query's answer.
pub fn endpoint_step(p: Endpoint, e: Event) -> (r: Progress<Endpoint, String>)
    requires
        endpoint_expects(p, e),
    ensures
        endpoint_steps(p, e, r),
{
    match e {
        Event::FileRead(Err(m)) => {
            let mut t = to_string("failed to read ");
            push_str(&mut t, p.samconfig.as_str());
            push_str(&mut t, ": ");
            push_str(&mut t, m.as_str());
            Progress::Done(Vec::new(), Err(CliError::Config(t)))
        },
        Event::FileRead(Ok(doc)) => match stack_name_from_samconfig(doc.as_str(), p.config_env.as_str()) {
            Err(err) => Progress::Done(Vec::new(), Err(err)),
            Ok(name) => {
                let (c, o) = endpoint_query(name.as_str(), &p.env, p.verbose);
                Progress::Next(
                    Endpoint { config_env: p.config_env, env: p.env, verbose: p.verbose, samconfig: p.samconfig, stack: Some(name) },
                    Step { notices: Vec::new(), action: Action::Run(c, o) },
                )
            },
        },
        Event::Ran(Err(err)) => Progress::Done(Vec::new(), Err(err)),
        Event::Ran(Ok(o)) => {
            let stack = match &p.stack {
                Some(s) => s.clone(),
                None => String::new(),
            };
            Progress::Done(Vec::new(), endpoint_from_output(stack.as_str(), o.stdout.as_str()))
        },
        _ => Progress::Done(Vec::new(), Err(CliError::Config(String::new()))),
    }
}

} // verus!
