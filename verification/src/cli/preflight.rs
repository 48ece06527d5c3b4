//! Tool checks before running a pipeline.
use vstd::prelude::*;
use crate::cli::error::CliError;
use crate::cli::output::{Notice, NoticeLevel};
use crate::cli::runner::{strings, CommandOutput, RunOptions};
use crate::pattern::{replace, replace_spec, strs_of, text_with_number, texts_of, trim_text};
use crate::text::{chars_eq, chars_of, push_str, to_string, trim};

verus! {

/// Pinned espflash version.
pub const ESPFLASH_VERSION: &'static str = "3.3.0";

/// The tools of `required` that are not on the path, in order.
pub open spec fn missing_tools(required: Seq<Seq<char>>, on_path: Seq<bool>) -> Seq<Seq<char>>
    decreases required.len(),
{
    if required.len() == 0 || on_path.len() == 0 {
        Seq::empty()
    } else {
        let rest = missing_tools(required.drop_last(), on_path.drop_last());
        if on_path.last() {
            rest
        } else {
            rest.push(required.last())
        }
    }
}

/// The names of the tools not found on the path; `on_path[i]` tells
/// whether `required[i]` was found.
pub fn missing_names(required: &Vec<String>, on_path: &Vec<bool>) -> (missing: Vec<String>)
    requires
        required@.len() == on_path@.len(),
    ensures
        texts_of(missing@) == missing_tools(texts_of(required@), on_path@),
{
    let mut missing: Vec<String> = Vec::new();
    let mut i: usize = 0;
    while i < required.len()
        invariant
            i <= required@.len(),
            required@.len() == on_path@.len(),
            texts_of(missing@) == missing_tools(texts_of(required@.take(i as int)), on_path@.take(i as int)),
        decreases required@.len() - i,
    {
        let ghost r1 = texts_of(required@.take(i + 1));
        let ghost p1 = on_path@.take(i + 1);
        assert(r1.drop_last() =~= texts_of(required@.take(i as int)));
        assert(p1.drop_last() =~= on_path@.take(i as int));
        assert(r1.last() == required@[i as int]@);
        assert(p1.last() == on_path@[i as int]);
        let ghost before = missing@;
        if !on_path[i] {
            missing.push(required[i].clone());
            assert(texts_of(missing@) =~= texts_of(before).push(required@[i as int]@));
        }
        i += 1;
    }
    assert(required@.take(required@.len() as int) =~= required@);
    assert(on_path@.take(on_path@.len() as int) =~= on_path@);
    missing
}

/// The names of the tools not found on the path; `on_path[i]` tells
/// whether `required[i]` was found.
pub fn check_tools(required: &[&str], on_path: &[bool]) -> (missing: Vec<String>)
    requires
        required@.len() == on_path@.len(),
    ensures
        texts_of(missing@) == missing_tools(strs_of(required@), on_path@),
{
    let names = strings(required);
    let mut found: Vec<bool> = Vec::new();
    let mut i: usize = 0;
    while i < on_path.len()
        invariant
            i <= on_path@.len(),
            found@ == on_path@.take(i as int),
        decreases on_path@.len() - i,
    {
        found.push(on_path[i]);
        assert(found@ =~= on_path@.take(i + 1));
        i += 1;
    }
    assert(on_path@.take(on_path@.len() as int) =~= on_path@);
    missing_names(&names, &found)
}

/// `docker info`, captured and unchecked: whether the daemon answers.
pub fn docker_info_run() -> (r: (Vec<String>, RunOptions))
    ensures
        texts_of(r.0@) == seq!["docker"@, "info"@],
        r.1.cwd is None && r.1.env is None && r.1.log_to is None,
        !r.1.check && r.1.capture && !r.1.verbose && !r.1.dry_run,
{
    (
        strings(&["docker", "info"]),
        RunOptions { cwd: None, env: None, check: false, capture: true, verbose: false, dry_run: false, log_to: None },
    )
}

/// The Docker daemon runs when `docker info` ran and exited with 0.
pub fn docker_answered(r: &Result<CommandOutput, CliError>) -> (b: bool)
    ensures
        b == (r matches Ok(o) && o.status == 0),
{
    match r {
        Ok(o) => o.status == 0,
        Err(_) => false,
    }
}

/// The outcome of a tool check: an error listing the missing tools, if any.
pub fn tools_outcome(missing: Vec<String>) -> (r: Result<(), CliError>)
    ensures
        missing@.len() == 0 ==> r is Ok,
        missing@.len() > 0 ==> (r matches Err(CliError::MissingTools(m)) && m == missing),
{
    if missing.len() == 0 {
        Ok(())
    } else {
        Err(CliError::MissingTools(missing))
    }
}

/// The outcome of the Docker check of `require`.
pub fn docker_outcome(answered: bool) -> (r: Result<(), CliError>)
    ensures
        answered ==> r is Ok,
        !answered ==> r matches Err(CliError::DockerNotRunning),
{
    if answered {
        Ok(())
    } else {
        Err(CliError::DockerNotRunning)
    }
}

/// The version that `espflash --version` printed: the trimmed output with
/// `espflash ` removed.
pub open spec fn installed_version(stdout: Seq<char>) -> Seq<char> {
    replace_spec(trim(stdout), "espflash "@, ""@)
}

/// What to do about espflash.
pub enum EspflashPlan {
    /// The pinned version is installed.
    Current,
    /// Install the pinned version, after showing the notice if there is one.
    Install(Option<Notice>),
}

/// `espflash --version`, captured and unchecked.
pub fn espflash_version_run() -> (r: (Vec<String>, RunOptions))
    ensures
        texts_of(r.0@) == seq!["espflash"@, "--version"@],
        r.1.cwd is None && r.1.env is None && r.1.log_to is None,
        !r.1.check && r.1.capture && !r.1.verbose && !r.1.dry_run,
{
    (
        strings(&["espflash", "--version"]),
        RunOptions { cwd: None, env: None, check: false, capture: true, verbose: false, dry_run: false, log_to: None },
    )
}

/// Decide about espflash: `on_path` tells whether it is on the path and
/// `version` is how `espflash --version` went (asked only when it is). The
/// pinned version needs nothing; another version, or a failed check, is
/// reinstalled; a missing one is installed.
pub fn espflash_plan(on_path: bool, version: &Option<Result<CommandOutput, CliError>>) -> (p: EspflashPlan)
    ensures
        !on_path ==> (p matches EspflashPlan::Install(Some(n)) && n.level == NoticeLevel::Step && n.text@
            == "espflash not found \u{2014} installing"@),
        on_path ==> match version {
            Some(Ok(o)) => if o.status == 0 {
                if installed_version(o.stdout@) == ESPFLASH_VERSION@ {
                    p is Current
                } else {
                    p matches EspflashPlan::Install(Some(n)) && n.level == NoticeLevel::Step && n.text@ == "espflash "@
                        + installed_version(o.stdout@) + " found, expected 3.3.0 \u{2014} reinstalling"@
                }
            } else {
                p matches EspflashPlan::Install(None)
            },
            _ => p matches EspflashPlan::Install(None),
        },
{
    if !on_path {
        return EspflashPlan::Install(
            Some(Notice { level: NoticeLevel::Step, text: to_string("espflash not found \u{2014} installing") }),
        );
    }
    match version {
        Some(Ok(o)) => {
            if o.status == 0 {
                let t = trim_text(o.stdout.as_str());
                proof {
                    reveal_strlit("espflash ");
                }
                let installed = replace(t.as_str(), "espflash ", "");
                if chars_eq(&chars_of(installed.as_str()), &chars_of(ESPFLASH_VERSION)) {
                    EspflashPlan::Current
                } else {
                    let mut m = to_string("espflash ");
                    push_str(&mut m, installed.as_str());
                    push_str(&mut m, " found, expected 3.3.0 \u{2014} reinstalling");
                    EspflashPlan::Install(Some(Notice { level: NoticeLevel::Step, text: m }))
                }
            } else {
                EspflashPlan::Install(None)
            }
        },
        _ => EspflashPlan::Install(None),
    }
}

/// `cargo install espflash@3.3.0`, checked.
pub fn espflash_install_run() -> (r: (Vec<String>, RunOptions))
    ensures
        texts_of(r.0@) == seq!["cargo"@, "install"@, "espflash@3.3.0"@],
        r.1.cwd is None && r.1.env is None && r.1.log_to is None,
        r.1.check && !r.1.capture && !r.1.verbose && !r.1.dry_run,
{
    (
        strings(&["cargo", "install", "espflash@3.3.0"]),
        RunOptions { cwd: None, env: None, check: true, capture: false, verbose: false, dry_run: false, log_to: None },
    )
}

} // verus!
