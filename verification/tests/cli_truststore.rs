use std::collections::VecDeque;

use supervictor::cli::output::NoticeLevel;
use supervictor::cli::runner::CommandOutput;
use supervictor::cli::truststore::{
    aws_command, is_retriable, reload_start, reload_step, AwsCommand, ReloadAction,
    ReloadEvent, ReloadState,
};

fn ok(stdout: &str) -> CommandOutput {
    CommandOutput { status: 0, stdout: stdout.to_string(), stderr: String::new() }
}

fn fail(stderr: &str) -> CommandOutput {
    CommandOutput { status: 1, stdout: String::new(), stderr: stderr.to_string() }
}

/// What a reload did: the commands it ran, the messages it showed, and
/// whether a command could not be run.
struct Trace {
    calls: Vec<Vec<String>>,
    notices: Vec<(NoticeLevel, String)>,
    sleeps: Vec<u64>,
    failed: bool,
}

/// Drives a reload against queued command results; a poll never expires.
fn reload(results: Vec<CommandOutput>, dry_run: bool) -> Trace {
    let mut queue: VecDeque<CommandOutput> = results.into_iter().collect();
    let mut trace = Trace { calls: Vec::new(), notices: Vec::new(), sleeps: Vec::new(), failed: false };
    let (mut state, mut action, notice) = reload_start(dry_run);
    if let Some(n) = notice {
        trace.notices.push((n.level, n.text));
    }
    loop {
        let event = match action {
            ReloadAction::Finish { failed } => {
                trace.failed = failed;
                assert_eq!(state, ReloadState::Done);
                return trace;
            }
            ReloadAction::Sleep(secs) => {
                trace.sleeps.push(secs);
                ReloadEvent::Slept
            }
            ReloadAction::Run(c) => {
                trace.calls.push(aws_command(c));
                match queue.pop_front() {
                    Some(o) => ReloadEvent::Output(o),
                    None => ReloadEvent::RunFailed,
                }
            }
            ReloadAction::Poll { .. } => {
                trace.calls.push(aws_command(AwsCommand::DomainStatus));
                match queue.pop_front() {
                    Some(o) => ReloadEvent::Output(o),
                    None => ReloadEvent::RunFailed,
                }
            }
        };
        let (s, a, n) = reload_step(state, event);
        if let Some(n) = n {
            trace.notices.push((n.level, n.text));
        }
        state = s;
        action = a;
    }
}

fn call_has(trace: &Trace, i: usize, word: &str) -> bool {
    trace.calls[i].iter().any(|w| w == word)
}

#[test]
fn happy_path_calls_all_six_steps() {
    let t = reload(
        vec![ok(""), ok(""), ok("AVAILABLE\n"), ok(""), ok("s3://supervictor/truststore.pem\n"), ok("")],
        false,
    );
    assert!(!t.failed);
    assert_eq!(t.calls.len(), 6);
    assert!(call_has(&t, 0, "cp"));
    assert!(call_has(&t, 1, "update-domain-name"));
    assert!(call_has(&t, 2, "get-domain-name"));
    assert!(call_has(&t, 3, "update-domain-name"));
    assert!(call_has(&t, 4, "get-domain-name"));
    assert!(call_has(&t, 5, "rm"));
}

#[test]
fn dry_run_makes_no_calls() {
    let t = reload(vec![], true);
    assert!(!t.failed);
    assert_eq!(t.calls.len(), 0);
    assert_eq!(t.notices, vec![(NoticeLevel::Plain, "  [dry-run] truststore reload skipped".to_string())]);
}

#[test]
fn copy_failure_aborts_without_cleanup() {
    let t = reload(vec![fail("access denied")], false);
    assert!(!t.failed);
    assert_eq!(t.calls.len(), 1);
    assert_eq!(t.notices, vec![(NoticeLevel::Error, "Truststore copy failed: access denied".to_string())]);
}

#[test]
fn swap_failure_still_cleans_up_temp() {
    let t = reload(vec![ok(""), fail("bad request"), ok("")], false);
    assert!(!t.failed);
    assert_eq!(t.calls.len(), 3);
    assert!(call_has(&t, 2, "rm"));
}

#[test]
fn restore_failure_still_cleans_up_temp() {
    let t = reload(vec![ok(""), ok(""), ok("AVAILABLE\n"), fail("InternalFailure"), ok("")], false);
    assert!(!t.failed);
    assert_eq!(t.calls.len(), 5);
    assert!(call_has(&t, 4, "rm"));
}

#[test]
fn conflict_exception_is_retried() {
    let t = reload(
        vec![
            ok(""),
            fail("ConflictException: domain update in progress"),
            ok(""),
            ok("AVAILABLE\n"),
            ok(""),
            ok("s3://supervictor/truststore.pem\n"),
            ok(""),
        ],
        false,
    );
    assert!(!t.failed);
    assert_eq!(t.calls.len(), 7);
}

#[test]
fn throttling_exception_is_retried() {
    let t = reload(
        vec![
            ok(""),
            fail("ThrottlingException: Rate exceeded"),
            ok(""),
            ok("AVAILABLE\n"),
            ok(""),
            ok("s3://supervictor/truststore.pem\n"),
            ok(""),
        ],
        false,
    );
    assert!(!t.failed);
    assert_eq!(t.calls.len(), 7);
}

#[test]
fn retries_exhausted_on_persistent_throttle() {
    let t = reload(
        vec![
            ok(""),
            fail("TooManyRequestsException"),
            fail("TooManyRequestsException"),
            fail("TooManyRequestsException"),
            fail("TooManyRequestsException"),
            ok(""),
        ],
        false,
    );
    assert!(!t.failed);
    // s3 cp (1) + swap attempts (4) + cleanup (1) = 6
    assert_eq!(t.calls.len(), 6);
    assert_eq!(t.sleeps, vec![3, 3, 3]);
}

#[test]
fn uri_mismatch_after_restore_reports_error() {
    let t = reload(
        vec![ok(""), ok(""), ok("AVAILABLE\n"), ok(""), ok("s3://supervictor/truststore-reload.pem\n"), ok("")],
        false,
    );
    assert!(!t.failed);
    assert_eq!(t.calls.len(), 6);
    assert!(t.notices.contains(&(
        NoticeLevel::Error,
        "Truststore URI mismatch after reload: s3://supervictor/truststore-reload.pem".to_string()
    )));
}

#[test]
fn reload_success_reports_success_and_cleans_up() {
    let t = reload(
        vec![ok(""), ok(""), ok("PENDING\n"), ok("AVAILABLE\n"), ok(""), ok("s3://supervictor/truststore.pem\n"), ok("")],
        false,
    );
    assert_eq!(t.calls.len(), 7);
    assert_eq!(t.sleeps, vec![5]);
    assert_eq!(
        t.notices,
        vec![
            (NoticeLevel::Step, "Domain status: PENDING, waiting...".to_string()),
            (NoticeLevel::Success, "mTLS truststore reloaded".to_string()),
        ]
    );
}

#[test]
fn run_failure_mid_reload_still_cleans_up_and_reports() {
    // The swap cannot be run at all: the copy is still removed and the
    // reload reports the failure.
    let mut state = ReloadState::Swapping { retries: 0 };
    let (s, a, n) = reload_step(state, ReloadEvent::RunFailed);
    assert!(n.is_none());
    assert_eq!(s, ReloadState::CleaningUp { failed: true });
    assert_eq!(a, ReloadAction::Run(AwsCommand::RemoveTemp));
    state = s;
    let (s, a, _) = reload_step(state, ReloadEvent::Output(ok("")));
    assert_eq!(s, ReloadState::Done);
    assert_eq!(a, ReloadAction::Finish { failed: true });
}

#[test]
fn poll_deadline_reports_timeout_and_cleans_up() {
    let (s, a, n) = reload_step(ReloadState::Polling, ReloadEvent::Expired);
    assert_eq!(s, ReloadState::CleaningUp { failed: false });
    assert_eq!(a, ReloadAction::Run(AwsCommand::RemoveTemp));
    let n = n.unwrap();
    assert_eq!(n.level, NoticeLevel::Error);
    assert_eq!(n.text, "Timed out waiting for domain to become AVAILABLE after swap");
}

#[test]
fn swap_starts_the_poll_deadline() {
    let (s, a, _) = reload_step(ReloadState::Swapping { retries: 2 }, ReloadEvent::Output(ok("")));
    assert_eq!(s, ReloadState::Polling);
    assert_eq!(a, ReloadAction::Poll { arm_secs: Some(120) });
}

#[test]
fn aws_command_arguments() {
    assert_eq!(aws_command(AwsCommand::CopyToTemp), vec![
        "aws", "s3", "cp", "s3://supervictor/truststore.pem", "s3://supervictor/truststore-reload.pem"
    ]);
    assert_eq!(aws_command(AwsCommand::RestoreCanonical), vec![
        "aws",
        "apigateway",
        "update-domain-name",
        "--domain-name",
        "supervictor.advin.io",
        "--patch-operations",
        "op=replace,path=/mutualTlsAuthentication/truststoreUri,value=s3://supervictor/truststore.pem",
    ]);
    assert_eq!(aws_command(AwsCommand::RemoveTemp), vec!["aws", "s3", "rm", "s3://supervictor/truststore-reload.pem"]);
}

#[test]
fn retriable_error_names() {
    assert!(is_retriable("An error occurred (TooManyRequestsException)"));
    assert!(is_retriable("RequestLimitExceeded"));
    assert!(is_retriable("xxConflictExceptionxx"));
    assert!(!is_retriable("AccessDenied"));
    assert!(!is_retriable(""));
}
