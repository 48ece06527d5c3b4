//! Reloading API Gateway's mTLS truststore.
//!
//! API Gateway ignores `update-domain-name` when the truststore URI has not
//! changed, so the reload copies the truststore to a temporary key, points
//! the domain at the copy, waits until the domain is available again,
//! points it back, verifies the URI, and removes the copy. The decisions
//! are a state machine: the caller performs each action (running an AWS
//! command, sleeping, polling until a deadline) and feeds back what
//! happened.
use vstd::prelude::*;
use crate::cli::output::{note, notice_view, Notice, NoticeLevel};
use crate::cli::runner::{strings, CommandOutput};
use crate::pattern::{contains_chars, contains_text, strs_of, texts_of};
use crate::text::{chars_eq, chars_of, push_str, string_from_range, to_string, trim, trim_range};

verus! {

/// The truststore's canonical location.
pub const TRUSTSTORE_URI: &'static str = "s3://supervictor/truststore.pem";
/// The temporary copy's location.
pub const TRUSTSTORE_TEMP_URI: &'static str = "s3://supervictor/truststore-reload.pem";
/// The custom domain whose truststore is reloaded.
pub const TRUSTSTORE_DOMAIN: &'static str = "supervictor.advin.io";
/// Retries of an AWS command that failed with a retriable error.
pub const MAX_RETRIES: u32 = 3;
/// Seconds between retries.
pub const RETRY_DELAY_SECS: u64 = 3;
/// Seconds between polls of the domain status.
pub const POLL_INTERVAL_SECS: u64 = 5;
/// Seconds to wait for the domain to become available.
pub const POLL_TIMEOUT_SECS: u64 = 120;

/// The AWS commands of a reload.
#[derive(Debug, Clone, Copy, PartialEq, Eq, Structural)]
pub enum AwsCommand {
    /// Copy the truststore to the temporary key.
    CopyToTemp,
    /// Point the domain at the temporary copy.
    SwapToTemp,
    /// Read the domain's status.
    DomainStatus,
    /// Point the domain back at the canonical truststore.
    RestoreCanonical,
    /// Read the domain's truststore URI.
    ReadTruststoreUri,
    /// Remove the temporary copy.
    RemoveTemp,
}

/// The arguments of an AWS command.
pub open spec fn aws_command_spec(c: AwsCommand) -> Seq<Seq<char>> {
    match c {
        AwsCommand::CopyToTemp => seq!["aws"@, "s3"@, "cp"@, TRUSTSTORE_URI@, TRUSTSTORE_TEMP_URI@],
        AwsCommand::SwapToTemp => seq![
            "aws"@,
            "apigateway"@,
            "update-domain-name"@,
            "--domain-name"@,
            TRUSTSTORE_DOMAIN@,
            "--patch-operations"@,
            "op=replace,path=/mutualTlsAuthentication/truststoreUri,value="@ + TRUSTSTORE_TEMP_URI@,
        ],
        AwsCommand::DomainStatus => seq![
            "aws"@,
            "apigateway"@,
            "get-domain-name"@,
            "--domain-name"@,
            TRUSTSTORE_DOMAIN@,
            "--query"@,
            "domainNameStatus"@,
            "--output"@,
            "text"@,
        ],
        AwsCommand::RestoreCanonical => seq![
            "aws"@,
            "apigateway"@,
            "update-domain-name"@,
            "--domain-name"@,
            TRUSTSTORE_DOMAIN@,
            "--patch-operations"@,
            "op=replace,path=/mutualTlsAuthentication/truststoreUri,value="@ + TRUSTSTORE_URI@,
        ],
        AwsCommand::ReadTruststoreUri => seq![
            "aws"@,
            "apigateway"@,
            "get-domain-name"@,
            "--domain-name"@,
            TRUSTSTORE_DOMAIN@,
            "--query"@,
            "mutualTlsAuthentication.truststoreUri"@,
            "--output"@,
            "text"@,
        ],
        AwsCommand::RemoveTemp => seq!["aws"@, "s3"@, "rm"@, TRUSTSTORE_TEMP_URI@],
    }
}

fn patch(value: &str) -> (p: String)
    ensures
        p@ == "op=replace,path=/mutualTlsAuthentication/truststoreUri,value="@ + value@,
{
    let mut p = to_string("op=replace,path=/mutualTlsAuthentication/truststoreUri,value=");
    push_str(&mut p, value);
    p
}

/// The arguments of an AWS command.
pub fn aws_command(c: AwsCommand) -> (v: Vec<String>)
    ensures
        texts_of(v@) == aws_command_spec(c),
{
    let v = match c {
        AwsCommand::CopyToTemp => strings(&["aws", "s3", "cp", TRUSTSTORE_URI, TRUSTSTORE_TEMP_URI]),
        AwsCommand::SwapToTemp => {
            let mut v = strings(
                &["aws", "apigateway", "update-domain-name", "--domain-name", TRUSTSTORE_DOMAIN, "--patch-operations"],
            );
            v.push(patch(TRUSTSTORE_TEMP_URI));
            v
        },
        AwsCommand::DomainStatus => strings(
            &[
                "aws",
                "apigateway",
                "get-domain-name",
                "--domain-name",
                TRUSTSTORE_DOMAIN,
                "--query",
                "domainNameStatus",
                "--output",
                "text",
            ],
        ),
        AwsCommand::RestoreCanonical => {
            let mut v = strings(
                &["aws", "apigateway", "update-domain-name", "--domain-name", TRUSTSTORE_DOMAIN, "--patch-operations"],
            );
            v.push(patch(TRUSTSTORE_URI));
            v
        },
        AwsCommand::ReadTruststoreUri => strings(
            &[
                "aws",
                "apigateway",
                "get-domain-name",
                "--domain-name",
                TRUSTSTORE_DOMAIN,
                "--query",
                "mutualTlsAuthentication.truststoreUri",
                "--output",
                "text",
            ],
        ),
        AwsCommand::RemoveTemp => strings(&["aws", "s3", "rm", TRUSTSTORE_TEMP_URI]),
    };
    assert(texts_of(v@) =~= aws_command_spec(c));
    v
}

/// The error names that mark an AWS failure as worth retrying.
pub open spec fn retriable_spec(stderr: Seq<char>) -> bool {
    ||| contains_text(stderr, "TooManyRequests"@)
    ||| contains_text(stderr, "Throttling"@)
    ||| contains_text(stderr, "ThrottlingException"@)
    ||| contains_text(stderr, "RequestLimitExceeded"@)
    ||| contains_text(stderr, "ConflictException"@)
}

/// Whether an AWS failure's error output names a retriable error.
pub fn is_retriable(stderr: &str) -> (r: bool)
    ensures
        r == retriable_spec(stderr@),
{
    let v = chars_of(stderr);
    contains_chars(&v, &chars_of("TooManyRequests")) || contains_chars(&v, &chars_of("Throttling"))
        || contains_chars(&v, &chars_of("ThrottlingException")) || contains_chars(
        &v,
        &chars_of("RequestLimitExceeded"),
    ) || contains_chars(&v, &chars_of("ConflictException"))
}

/// Where a reload stands.
#[derive(Debug, Clone, Copy, PartialEq, Eq, Structural)]
pub enum ReloadState {
    /// Waiting for the copy to the temporary key.
    Copying,
    /// Waiting for the swap to the copy; `retries` retries were made.
    Swapping { retries: u32 },
    /// Sleeping before retrying the swap.
    SwapBackoff { retries: u32 },
    /// Waiting for a domain status poll (or the deadline).
    Polling,
    /// Sleeping between polls.
    PollWait,
    /// Waiting for the restore of the canonical URI.
    Restoring { retries: u32 },
    /// Sleeping before retrying the restore.
    RestoreBackoff { retries: u32 },
    /// Waiting for the URI read-back.
    Verifying,
    /// Waiting for the removal of the copy; `failed` tells whether a
    /// command could not be run before.
    CleaningUp { failed: bool },
    /// Finished.
    Done,
}

/// What happened to the last action.
pub enum ReloadEvent {
    /// The command ran and gave this output.
    Output(CommandOutput),
    /// The command could not be run.
    RunFailed,
    /// The sleep is over.
    Slept,
    /// The poll deadline passed before the poll.
    Expired,
}

/// What the caller does next.
#[derive(Debug, Clone, Copy, PartialEq, Eq, Structural)]
pub enum ReloadAction {
    /// Run the command and report `Output` or `RunFailed`.
    Run(AwsCommand),
    /// Sleep this many seconds and report `Slept`.
    Sleep(u64),
    /// Unless the poll deadline has passed (report `Expired`), run
    /// `DomainStatus`; `arm_secs` starts the deadline that many seconds
    /// from now.
    Poll { arm_secs: Option<u64> },
    /// Stop; `failed` means that a command could not be run, whose error is
    /// the result of the reload.
    Finish { failed: bool },
}

/// The events that a state waits for.
pub open spec fn expects(s: ReloadState, e: ReloadEvent) -> bool {
    match s {
        ReloadState::Copying | ReloadState::Swapping { .. } | ReloadState::Restoring { .. }
        | ReloadState::Verifying | ReloadState::CleaningUp { .. } => e is Output || e is RunFailed,
        ReloadState::Polling => e is Output || e is RunFailed || e is Expired,
        ReloadState::SwapBackoff { .. } | ReloadState::PollWait | ReloadState::RestoreBackoff { .. } => e is Slept,
        ReloadState::Done => false,
    }
}

/// After an update attempt (swap or restore) with `retries` retries made:
/// success goes on; a retriable failure with retries left backs off; any
/// other failure reports `failure` with the trimmed error output and
/// cleans up.
pub open spec fn after_update(
    retries: u32,
    o: CommandOutput,
    on_success: (ReloadState, ReloadAction),
    backoff: ReloadState,
    failure: Seq<char>,
) -> (ReloadState, ReloadAction, Option<(NoticeLevel, Seq<char>)>) {
    if o.status == 0 {
        (on_success.0, on_success.1, None)
    } else if retriable_spec(o.stderr@) && retries < MAX_RETRIES {
        (backoff, ReloadAction::Sleep(RETRY_DELAY_SECS), note(NoticeLevel::Step, "Retriable error, retrying in 3s..."@))
    } else {
        (
            ReloadState::CleaningUp { failed: false },
            ReloadAction::Run(AwsCommand::RemoveTemp),
            note(NoticeLevel::Error, failure + trim(o.stderr@)),
        )
    }
}

/// The reload's transition for a state and what happened.
pub open spec fn reload_next(s: ReloadState, e: ReloadEvent) -> (ReloadState, ReloadAction, Option<(NoticeLevel, Seq<char>)>) {
    let cleanup_failed = (
        ReloadState::CleaningUp { failed: true },
        ReloadAction::Run(AwsCommand::RemoveTemp),
        None,
    );
    match s {
        ReloadState::Copying => match e {
            ReloadEvent::Output(o) => if o.status != 0 {
                (
                    ReloadState::Done,
                    ReloadAction::Finish { failed: false },
                    note(NoticeLevel::Error, "Truststore copy failed: "@ + trim(o.stderr@)),
                )
            } else {
                (ReloadState::Swapping { retries: 0 }, ReloadAction::Run(AwsCommand::SwapToTemp), None)
            },
            _ => (ReloadState::Done, ReloadAction::Finish { failed: true }, None),
        },
        ReloadState::Swapping { retries } => match e {
            ReloadEvent::Output(o) => after_update(
                retries,
                o,
                (ReloadState::Polling, ReloadAction::Poll { arm_secs: Some(POLL_TIMEOUT_SECS) }),
                ReloadState::SwapBackoff { retries: (retries + 1) as u32 },
                "Truststore swap failed: "@,
            ),
            _ => cleanup_failed,
        },
        ReloadState::SwapBackoff { retries } => (
            ReloadState::Swapping { retries },
            ReloadAction::Run(AwsCommand::SwapToTemp),
            None,
        ),
        ReloadState::Polling => match e {
            ReloadEvent::Output(o) => if o.status == 0 && trim(o.stdout@) == "AVAILABLE"@ {
                (ReloadState::Restoring { retries: 0 }, ReloadAction::Run(AwsCommand::RestoreCanonical), None)
            } else if o.status == 0 {
                (
                    ReloadState::PollWait,
                    ReloadAction::Sleep(POLL_INTERVAL_SECS),
                    note(NoticeLevel::Step, "Domain status: "@ + trim(o.stdout@) + ", waiting..."@),
                )
            } else {
                (ReloadState::PollWait, ReloadAction::Sleep(POLL_INTERVAL_SECS), None)
            },
            ReloadEvent::Expired => (
                ReloadState::CleaningUp { failed: false },
                ReloadAction::Run(AwsCommand::RemoveTemp),
                note(NoticeLevel::Error, "Timed out waiting for domain to become AVAILABLE after swap"@),
            ),
            _ => cleanup_failed,
        },
        ReloadState::PollWait => (ReloadState::Polling, ReloadAction::Poll { arm_secs: None }, None),
        ReloadState::Restoring { retries } => match e {
            ReloadEvent::Output(o) => after_update(
                retries,
                o,
                (ReloadState::Verifying, ReloadAction::Run(AwsCommand::ReadTruststoreUri)),
                ReloadState::RestoreBackoff { retries: (retries + 1) as u32 },
                "Truststore restore failed: "@,
            ),
            _ => cleanup_failed,
        },
        ReloadState::RestoreBackoff { retries } => (
            ReloadState::Restoring { retries },
            ReloadAction::Run(AwsCommand::RestoreCanonical),
            None,
        ),
        ReloadState::Verifying => match e {
            ReloadEvent::Output(o) => {
                let actual = trim(o.stdout@);
                if o.status == 0 && actual.len() > 0 && actual != TRUSTSTORE_URI@ {
                    (
                        ReloadState::CleaningUp { failed: false },
                        ReloadAction::Run(AwsCommand::RemoveTemp),
                        note(NoticeLevel::Error, "Truststore URI mismatch after reload: "@ + actual),
                    )
                } else {
                    (
                        ReloadState::CleaningUp { failed: false },
                        ReloadAction::Run(AwsCommand::RemoveTemp),
                        note(NoticeLevel::Success, "mTLS truststore reloaded"@),
                    )
                }
            },
            _ => cleanup_failed,
        },
        ReloadState::CleaningUp { failed } => (ReloadState::Done, ReloadAction::Finish { failed }, None),
        ReloadState::Done => (ReloadState::Done, ReloadAction::Finish { failed: false }, None),
    }
}

/// Whether the retry counters of a state are within `MAX_RETRIES`.
pub open spec fn retries_bounded(s: ReloadState) -> bool {
    match s {
        ReloadState::Swapping { retries } | ReloadState::SwapBackoff { retries }
        | ReloadState::Restoring { retries } | ReloadState::RestoreBackoff { retries } => retries <= MAX_RETRIES,
        _ => true,
    }
}

/// Every step keeps the retry counters within `MAX_RETRIES`, and each
/// backoff counts one more retry than the attempt it follows; so an update
/// command runs at most `MAX_RETRIES + 1` times in a row.
pub proof fn lemma_retries_bounded(s: ReloadState, e: ReloadEvent)
    requires
        retries_bounded(s),
        expects(s, e),
    ensures
        retries_bounded(reload_next(s, e).0),
        s matches ReloadState::Swapping { retries } ==> (reload_next(s, e).0 matches ReloadState::SwapBackoff { retries: r } ==> r == retries + 1),
        s matches ReloadState::Restoring { retries } ==> (reload_next(s, e).0 matches ReloadState::RestoreBackoff { retries: r } ==> r == retries + 1),
{
}

/// Once the temporary copy exists, the reload finishes only through the
/// step that removes it: a step reaches `Done` only from `Copying`, where a
/// successful copy never finishes, or from `CleaningUp`, which every path
/// enters with `RemoveTemp` as its action.
pub proof fn lemma_cleanup_before_done(s: ReloadState, e: ReloadEvent)
    requires
        expects(s, e),
    ensures
        reload_next(s, e).0 == ReloadState::Done ==> (s is Copying || s is CleaningUp || s is Done),
        s is Copying && reload_next(s, e).0 == ReloadState::Done ==> !(e matches ReloadEvent::Output(o) && o.status == 0),
        reload_next(s, e).0 is CleaningUp ==> reload_next(s, e).1 == ReloadAction::Run(AwsCommand::RemoveTemp),
        reload_next(s, e).1 is Finish ==> reload_next(s, e).0 == ReloadState::Done,
{
}

/// Swap and restore retry alike: after a failed update whose error output
/// names a retriable error (a ConflictException or throttling, say), with
/// fewer than `MAX_RETRIES` retries made, the reload sleeps
/// `RETRY_DELAY_SECS` and tries that same update again with one more retry
/// counted; a failure that is not retriable, or one after the last retry,
/// reports the trimmed error output and cleans up; a success goes on (to
/// polling after the swap, to reading the truststore back after the
/// restore).
pub proof fn lemma_updates_retry_alike(retries: u32, o: CommandOutput)
    ensures
        ({
            let sw = reload_next(ReloadState::Swapping { retries }, ReloadEvent::Output(o));
            let rs = reload_next(ReloadState::Restoring { retries }, ReloadEvent::Output(o));
            let retry_note = Some((NoticeLevel::Step, "Retriable error, retrying in 3s..."@));
            &&& o.status != 0 && contains_text(o.stderr@, "ConflictException"@) && retries < MAX_RETRIES ==> rs == (
                ReloadState::RestoreBackoff { retries: (retries + 1) as u32 },
                ReloadAction::Sleep(RETRY_DELAY_SECS),
                retry_note,
            ) && sw == (ReloadState::SwapBackoff { retries: (retries + 1) as u32 }, ReloadAction::Sleep(RETRY_DELAY_SECS), retry_note)
            &&& o.status != 0 && retriable_spec(o.stderr@) && retries < MAX_RETRIES ==> rs == (
                ReloadState::RestoreBackoff { retries: (retries + 1) as u32 },
                ReloadAction::Sleep(RETRY_DELAY_SECS),
                retry_note,
            ) && sw == (ReloadState::SwapBackoff { retries: (retries + 1) as u32 }, ReloadAction::Sleep(RETRY_DELAY_SECS), retry_note)
            &&& o.status != 0 && !(retriable_spec(o.stderr@) && retries < MAX_RETRIES) ==> rs == (
                ReloadState::CleaningUp { failed: false },
                ReloadAction::Run(AwsCommand::RemoveTemp),
                Some((NoticeLevel::Error, "Truststore restore failed: "@ + trim(o.stderr@))),
            ) && sw == (
                ReloadState::CleaningUp { failed: false },
                ReloadAction::Run(AwsCommand::RemoveTemp),
                Some((NoticeLevel::Error, "Truststore swap failed: "@ + trim(o.stderr@))),
            )
            &&& o.status == 0 ==> rs == (ReloadState::Verifying, ReloadAction::Run(AwsCommand::ReadTruststoreUri), None::<
                (NoticeLevel, Seq<char>),
            >) && sw == (ReloadState::Polling, ReloadAction::Poll { arm_secs: Some(POLL_TIMEOUT_SECS) }, None::<
                (NoticeLevel, Seq<char>),
            >)
        }),
{
}

/// The start of a reload: a dry run shows that it skips the reload and
/// finishes; otherwise the truststore is copied.
pub fn reload_start(dry_run: bool) -> (r: (ReloadState, ReloadAction, Option<Notice>))
    ensures
        dry_run ==> r.0 == ReloadState::Done && r.1 == (ReloadAction::Finish { failed: false })
            && notice_view(r.2) == note(NoticeLevel::Plain, "  [dry-run] truststore reload skipped"@),
        !dry_run ==> r.0 == ReloadState::Copying && r.1 == ReloadAction::Run(AwsCommand::CopyToTemp)
            && r.2 is None,
{
    if dry_run {
        (
            ReloadState::Done,
            ReloadAction::Finish { failed: false },
            Some(Notice { level: NoticeLevel::Plain, text: to_string("  [dry-run] truststore reload skipped") }),
        )
    } else {
        (ReloadState::Copying, ReloadAction::Run(AwsCommand::CopyToTemp), None)
    }
}

/// The trimmed text of `s`.
fn trimmed(s: &String) -> (t: String)
    ensures
        t@ == trim(s@),
{
    let v = chars_of(s.as_str());
    let (a, b) = trim_range(&v, 0, v.len());
    assert(v@.subrange(0, v.len() as int) =~= v@);
    string_from_range(&v, a, b)
}

fn notice(level: NoticeLevel, text: &str) -> (n: Option<Notice>)
    ensures
        notice_view(n) == note(level, text@),
{
    Some(Notice { level, text: to_string(text) })
}

fn message(level: NoticeLevel, prefix: &str, detail: &str, suffix: &str) -> (n: Option<Notice>)
    ensures
        notice_view(n) == note(level, prefix@ + detail@ + suffix@),
{
    let mut t = to_string(prefix);
    push_str(&mut t, detail);
    push_str(&mut t, suffix);
    Some(Notice { level, text: t })
}

fn message2(level: NoticeLevel, prefix: &str, detail: &str) -> (n: Option<Notice>)
    ensures
        notice_view(n) == note(level, prefix@ + detail@),
{
    let mut t = to_string(prefix);
    push_str(&mut t, detail);
    Some(Notice { level, text: t })
}

fn update_step(
    retries: u32,
    o: &CommandOutput,
    on_success: (ReloadState, ReloadAction),
    backoff: ReloadState,
    failure: &str,
) -> (r: (ReloadState, ReloadAction, Option<Notice>))
    ensures
        (r.0, r.1, notice_view(r.2)) == after_update(retries, *o, on_success, backoff, failure@),
{
    if o.status == 0 {
        (on_success.0, on_success.1, None)
    } else if is_retriable(o.stderr.as_str()) && retries < MAX_RETRIES {
        (backoff, ReloadAction::Sleep(RETRY_DELAY_SECS), notice(NoticeLevel::Step, "Retriable error, retrying in 3s..."))
    } else {
        let e = trimmed(&o.stderr);
        (
            ReloadState::CleaningUp { failed: false },
            ReloadAction::Run(AwsCommand::RemoveTemp),
            message2(NoticeLevel::Error, failure, e.as_str()),
        )
    }
}

/// The reload's next state, action and message for what happened.
pub fn reload_step(s: ReloadState, e: ReloadEvent) -> (r: (ReloadState, ReloadAction, Option<Notice>))
    requires
        expects(s, e),
    ensures
        (r.0, r.1, notice_view(r.2)) == reload_next(s, e),
{
    let cleanup_failed = (ReloadState::CleaningUp { failed: true }, ReloadAction::Run(AwsCommand::RemoveTemp), None);
    match s {
        ReloadState::Copying => match e {
            ReloadEvent::Output(o) => if o.status != 0 {
                let t = trimmed(&o.stderr);
                (ReloadState::Done, ReloadAction::Finish { failed: false }, message2(NoticeLevel::Error, "Truststore copy failed: ", t.as_str()))
            } else {
                (ReloadState::Swapping { retries: 0 }, ReloadAction::Run(AwsCommand::SwapToTemp), None)
            },
            _ => (ReloadState::Done, ReloadAction::Finish { failed: true }, None),
        },
        ReloadState::Swapping { retries } => match e {
            ReloadEvent::Output(o) => update_step(
                retries,
                &o,
                (ReloadState::Polling, ReloadAction::Poll { arm_secs: Some(POLL_TIMEOUT_SECS) }),
                ReloadState::SwapBackoff { retries: if retries < MAX_RETRIES { retries + 1 } else { retries } },
                "Truststore swap failed: ",
            ),
            _ => cleanup_failed,
        },
        ReloadState::SwapBackoff { retries } => (ReloadState::Swapping { retries }, ReloadAction::Run(AwsCommand::SwapToTemp), None),
        ReloadState::Polling => match e {
            ReloadEvent::Output(o) => {
                let t = trimmed(&o.stdout);
                if o.status == 0 && chars_eq(&chars_of(t.as_str()), &chars_of("AVAILABLE")) {
                    (ReloadState::Restoring { retries: 0 }, ReloadAction::Run(AwsCommand::RestoreCanonical), None)
                } else if o.status == 0 {
                    (ReloadState::PollWait, ReloadAction::Sleep(POLL_INTERVAL_SECS), message(NoticeLevel::Step, "Domain status: ", t.as_str(), ", waiting..."))
                } else {
                    (ReloadState::PollWait, ReloadAction::Sleep(POLL_INTERVAL_SECS), None)
                }
            },
            ReloadEvent::Expired => (
                ReloadState::CleaningUp { failed: false },
                ReloadAction::Run(AwsCommand::RemoveTemp),
                notice(NoticeLevel::Error, "Timed out waiting for domain to become AVAILABLE after swap"),
            ),
            _ => cleanup_failed,
        },
        ReloadState::PollWait => (ReloadState::Polling, ReloadAction::Poll { arm_secs: None }, None),
        ReloadState::Restoring { retries } => match e {
            ReloadEvent::Output(o) => update_step(
                retries,
                &o,
                (ReloadState::Verifying, ReloadAction::Run(AwsCommand::ReadTruststoreUri)),
                ReloadState::RestoreBackoff { retries: if retries < MAX_RETRIES { retries + 1 } else { retries } },
                "Truststore restore failed: ",
            ),
            _ => cleanup_failed,
        },
        ReloadState::RestoreBackoff { retries } => (ReloadState::Restoring { retries }, ReloadAction::Run(AwsCommand::RestoreCanonical), None),
        ReloadState::Verifying => match e {
            ReloadEvent::Output(o) => {
                let actual = trimmed(&o.stdout);
                let av = chars_of(actual.as_str());
                if o.status == 0 && av.len() > 0 && !chars_eq(&av, &chars_of(TRUSTSTORE_URI)) {
                    (ReloadState::CleaningUp { failed: false }, ReloadAction::Run(AwsCommand::RemoveTemp), message2(NoticeLevel::Error, "Truststore URI mismatch after reload: ", actual.as_str()))
                } else {
                    (ReloadState::CleaningUp { failed: false }, ReloadAction::Run(AwsCommand::RemoveTemp), notice(NoticeLevel::Success, "mTLS truststore reloaded"))
                }
            },
            _ => cleanup_failed,
        },
        ReloadState::CleaningUp { failed } => (ReloadState::Done, ReloadAction::Finish { failed }, None),
        ReloadState::Done => (ReloadState::Done, ReloadAction::Finish { failed: false }, None),
    }
}

} // verus!
