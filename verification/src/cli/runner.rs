//! Options and results of running external commands.
use vstd::prelude::*;
use crate::cli::env::vars_map;
use crate::cli::error::CliError;
use crate::pattern::{join_spec, join_strs, strs_of, texts_of};
use crate::text::{push_str, to_string};

verus! {

/// Output captured from a completed subprocess.
#[derive(Debug, Clone)]
pub struct CommandOutput {
    /// Process exit code (0 = success).
    pub status: i32,
    /// Captured stdout text.
    pub stdout: String,
    /// Captured stderr text.
    pub stderr: String,
}

impl Default for CommandOutput {
    /// A successful run with no output.
    fn default() -> (o: Self)
        ensures
            o.status == 0,
            o.stdout@ == Seq::<char>::empty(),
            o.stderr@ == Seq::<char>::empty(),
    {
        CommandOutput { status: 0, stdout: String::new(), stderr: String::new() }
    }
}

/// Options controlling how a command is executed.
#[derive(Debug, Clone)]
pub struct RunOptions {
    /// Working directory for the subprocess.
    pub cwd: Option<String>,
    /// Environment of the subprocess, as name/value pairs.
    pub env: Option<Vec<(String, String)>>,
    /// If true, return an error on non-zero exit.
    pub check: bool,
    /// If true, capture stdout/stderr instead of inheriting.
    pub capture: bool,
    /// If true, echo the command before running.
    pub verbose: bool,
    /// If true, print the command but do not execute.
    pub dry_run: bool,
    /// If set, write combined stdout+stderr to this file.
    pub log_to: Option<String>,
}

impl Default for RunOptions {
    /// Checked, uncaptured, quiet, real execution with the inherited
    /// directory and environment.
    fn default() -> (o: Self)
        ensures
            o.cwd is None,
            o.env is None,
            o.check,
            !o.capture,
            !o.verbose,
            !o.dry_run,
            o.log_to is None,
    {
        RunOptions {
            cwd: None,
            env: None,
            check: true,
            capture: false,
            verbose: false,
            dry_run: false,
            log_to: None,
        }
    }
}

/// Options for starting a background process.
#[derive(Debug, Clone)]
pub struct BackgroundOptions {
    /// Working directory for the background process.
    pub cwd: Option<String>,
    /// Environment of the process, as name/value pairs.
    pub env: Option<Vec<(String, String)>>,
    /// If set, redirect stdout+stderr to this file.
    pub log_file: Option<String>,
    /// If true, echo the command before spawning.
    pub verbose: bool,
    /// If true, print the command but do not spawn.
    pub dry_run: bool,
}

impl Default for BackgroundOptions {
    /// Inherited directory and environment, output discarded, real spawn.
    fn default() -> (o: Self)
        ensures
            o.cwd is None,
            o.env is None,
            o.log_file is None,
            !o.verbose,
            !o.dry_run,
    {
        BackgroundOptions { cwd: None, env: None, log_file: None, verbose: false, dry_run: false }
    }
}

/// The text of an optional string.
pub open spec fn opt_text(o: Option<String>) -> Option<Seq<char>> {
    match o {
        Some(s) => Some(s@),
        None => None,
    }
}

/// The variables of an optional environment.
pub open spec fn opt_vars(o: Option<Vec<(String, String)>>) -> Option<Map<Seq<char>, Seq<char>>> {
    match o {
        Some(v) => Some(vars_map(v@)),
        None => None,
    }
}

/// Owned copies of string slices, in order.
pub fn strings(parts: &[&str]) -> (v: Vec<String>)
    ensures
        texts_of(v@) == strs_of(parts@),
        v@.len() == parts@.len(),
        forall|i: int| 0 <= i < parts@.len() ==> #[trigger] v@[i]@ == parts@[i]@,
{
    let mut v: Vec<String> = Vec::new();
    let mut i: usize = 0;
    while i < parts.len()
        invariant
            i <= parts@.len(),
            v@.len() == i,
            forall|k: int| 0 <= k < i ==> #[trigger] v@[k]@ == parts@[k]@,
        decreases parts@.len() - i,
    {
        v.push(to_string(parts[i]));
        i += 1;
    }
    assert(texts_of(v@) =~= strs_of(parts@));
    v
}

/// The command line: its words separated by spaces.
pub fn command_line(cmd: &[&str]) -> (s: String)
    ensures
        s@ == join_spec(strs_of(cmd@), " "@),
{
    join_strs(cmd, " ")
}

/// The line shown for a command: `  [dry-run] <cmd>` in a dry run,
/// `  $ <cmd>` otherwise; a background command ends with ` &`.
pub open spec fn echo_text(cmd: Seq<&str>, dry_run: bool, background: bool) -> Seq<char> {
    (if dry_run { "  [dry-run] "@ } else { "  $ "@ }) + join_spec(strs_of(cmd), " "@) + (if background {
        " &"@
    } else {
        ""@
    })
}

/// The line shown for a command before it runs: `  [dry-run] <cmd>` in a
/// dry run, `  $ <cmd>` otherwise; a background command ends with ` &`.
pub fn echo_line(cmd: &[&str], dry_run: bool, background: bool) -> (s: String)
    ensures
        s@ == echo_text(cmd@, dry_run, background),
{
    let mut s = if dry_run {
        to_string("  [dry-run] ")
    } else {
        to_string("  $ ")
    };
    let line = command_line(cmd);
    push_str(&mut s, line.as_str());
    if background {
        push_str(&mut s, " &");
    } else {
        push_str(&mut s, "");
    }
    s
}

/// What running a command amounts to before any process starts.
pub enum RunPlan {
    /// A dry run: show the line, start nothing, and report this output.
    DryRun(String, CommandOutput),
    /// Start the command, after showing the line when there is one.
    Execute(Option<String>),
}

/// The plan for a command: a dry run shows `  [dry-run] <cmd>` (with ` &`
/// for a background command) and reports an empty output with status 0;
/// otherwise the command runs, shown first as `  $ <cmd>` when verbose.
pub fn run_plan(cmd: &[&str], dry_run: bool, verbose: bool, background: bool) -> (p: RunPlan)
    ensures
        dry_run ==> (p matches RunPlan::DryRun(line, out) && line@ == (echo_text(cmd@, true, background)) && out.status == 0
            && out.stdout@.len() == 0 && out.stderr@.len() == 0),
        !dry_run && verbose ==> (p matches RunPlan::Execute(Some(line)) && line@ == echo_text(cmd@, false, background)),
        !dry_run && !verbose ==> (p matches RunPlan::Execute(None)),
{
    if dry_run {
        RunPlan::DryRun(
            echo_line(cmd, true, background),
            CommandOutput { status: 0, stdout: String::new(), stderr: String::new() },
        )
    } else if verbose {
        RunPlan::Execute(Some(echo_line(cmd, false, background)))
    } else {
        RunPlan::Execute(None)
    }
}

/// A command must name a program.
pub fn check_command(cmd: &[&str]) -> (r: Result<(), CliError>)
    ensures
        cmd@.len() > 0 ==> r is Ok,
        cmd@.len() == 0 ==> (r matches Err(CliError::Config(m)) && m@ == "empty command"@),
{
    if cmd.len() == 0 {
        Err(CliError::Config(to_string("empty command")))
    } else {
        Ok(())
    }
}

/// The outcome of a finished command: with `check`, a non-zero status is
/// an error naming the command line, the status and the error output;
/// otherwise the output as it is.
pub fn command_result(cmd: &[&str], output: CommandOutput, check: bool) -> (r: Result<CommandOutput, CliError>)
    ensures
        check && output.status != 0 ==> (r matches Err(CliError::Command { cmd: c, code, stderr })
            && c@ == join_spec(strs_of(cmd@), " "@) && code == output.status && stderr@ == output.stderr@),
        !(check && output.status != 0) ==> (r matches Ok(o) && o.status == output.status && o.stdout@
            == output.stdout@ && o.stderr@ == output.stderr@),
{
    if check && output.status != 0 {
        Err(CliError::Command { cmd: command_line(cmd), code: output.status, stderr: output.stderr })
    } else {
        Ok(output)
    }
}

} // verus!
