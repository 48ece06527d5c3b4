use supervictor::cli::config::ProjectConfig;
use supervictor::cli::error::CliError;
use supervictor::cli::onboard::{onboard_start, onboard_step, OnboardAction, OnboardArgs, PhaseResult, PhaseStatus};
use supervictor::cli::output::NoticeLevel;
use supervictor::cli::phases::{
    preflight_start, preflight_step,
    certs_start, certs_step, client_cert_paths, onboard_tools, preflight_result, preflight_tools_result,
    registration_precheck, registration_result, registration_urls, subject_dn, verification_result, CertsOutcome,
    PostOutcome, VerifyOutcome,
};
use supervictor::cli::pipeline::{Action, Event, Progress};
use supervictor::cli::preflight::missing_names;
use supervictor::cli::runner::CommandOutput;

fn args(start_at: usize, skip: Vec<usize>) -> OnboardArgs {
    OnboardArgs {
        device_name: "test".to_string(),
        owner_id: "owner".to_string(),
        mode: "onprem".to_string(),
        verbose: false,
        dry_run: false,
        start_at,
        skip,
    }
}

/// Runs the onboarding phases; each phase's result comes from `phase`.
fn run_onboard(a: &OnboardArgs, mut phase: impl FnMut(usize) -> PhaseResult) -> (i32, Vec<(NoticeLevel, String)>) {
    let mut log = Vec::new();
    let (mut o, mut ns, mut action) = onboard_start(a);
    loop {
        for n in ns.drain(..) {
            log.push((n.level, n.text));
        }
        match action {
            OnboardAction::Finish(code) => return (code, log),
            OnboardAction::RunPhase(i) => {
                let r = phase(i);
                let (o2, ns2, a2) = onboard_step(o, r);
                o = o2;
                ns = ns2;
                action = a2;
            }
        }
    }
}

/// The preflight phase on a machine where `missing` tools are not found.
fn preflight(mode: &str, missing: &[&str], docker: bool, env_exists: bool) -> PhaseResult {
    let tools = onboard_tools(mode);
    let found: Vec<bool> = tools.iter().map(|t| !missing.contains(&t.as_str())).collect();
    let missing = missing_names(&tools, &found);
    match preflight_tools_result(&missing) {
        Some(r) => r,
        None => preflight_result(docker, env_exists, "/tmp/repo/.env.dev"),
    }
}

#[test]
fn test_onboard_preflight_fails_missing_tools() {
    let a = args(0, vec![]);
    let (rc, log) = run_onboard(&a, |i| {
        assert_eq!(i, 0);
        preflight("onprem", &["espflash"], true, true)
    });
    assert_eq!(rc, 1);
    assert_eq!(log.last().unwrap(), &(NoticeLevel::Error, "Phase 0 failed: Missing tools: espflash".to_string()));
}

#[test]
fn test_onboard_skip_phases() {
    let a = args(0, vec![0, 1, 2, 3, 4, 5]);
    let (rc, log) = run_onboard(&a, |_| panic!("no phase runs"));
    assert_eq!(rc, 0);
    assert_eq!(log[0], (NoticeLevel::Step, "Skipping phase 0: Preflight (--skip)".to_string()));
    assert_eq!(log.last().unwrap(), &(NoticeLevel::Success, "Onboarding complete for test".to_string()));
}

#[test]
fn test_onboard_start_at() {
    let a = args(6, vec![]);
    let (rc, log) = run_onboard(&a, |_| panic!("no phase runs"));
    assert_eq!(rc, 0);
    assert_eq!(log[5], (NoticeLevel::Step, "Skipping phase 5: Verify Uplink (--start-at 6)".to_string()));
}

#[test]
fn onboard_reports_each_phase() {
    let a = args(3, vec![4]);
    let (rc, log) = run_onboard(&a, |i| if i == 3 { PhaseResult::passed() } else { PhaseResult::skipped("nothing to do") });
    assert_eq!(rc, 0);
    assert_eq!(
        log,
        vec![
            (NoticeLevel::Step, "Skipping phase 0: Preflight (--start-at 3)".to_string()),
            (NoticeLevel::Step, "Skipping phase 1: Certificates (--start-at 3)".to_string()),
            (NoticeLevel::Step, "Skipping phase 2: Start Server (--start-at 3)".to_string()),
            (NoticeLevel::Milestone, "Phase 3: Register Device".to_string()),
            (NoticeLevel::Success, "Phase 3: Register Device".to_string()),
            (NoticeLevel::Step, "Skipping phase 4: Flash Firmware (--skip)".to_string()),
            (NoticeLevel::Milestone, "Phase 5: Verify Uplink".to_string()),
            (NoticeLevel::Info, "Phase 5 skipped: nothing to do".to_string()),
            (NoticeLevel::Success, "Onboarding complete for test".to_string()),
        ]
    );
}

#[test]
fn preflight_checks_in_order() {
    let r = preflight("aws", &["aws", "sam"], false, false);
    assert_eq!(r.status, PhaseStatus::Failed);
    assert_eq!(r.message, "Missing tools: sam, aws");
    let r = preflight("onprem", &[], false, true);
    assert_eq!(r.message, "Docker daemon is not running");
    let r = preflight("onprem", &[], true, false);
    assert_eq!(r.message, ".env.dev not found at /tmp/repo/.env.dev");
    assert_eq!(preflight("aws", &[], true, true).status, PhaseStatus::Passed);
    assert_eq!(onboard_tools("aws"), vec!["openssl", "cargo", "espflash", "docker", "sam", "aws"]);
}

/// Runs the certificates phase against files that exist and command results.
fn run_certs(mode: &str, dry_run: bool, exists: &[&str], results: Vec<Result<CommandOutput, CliError>>) -> (CertsOutcome, Vec<Vec<String>>) {
    let cfg = ProjectConfig::from_repo_root("/r");
    let mut results = results.into_iter();
    let mut calls = Vec::new();
    let (mut m, mut action) = certs_start(&cfg, "dev1", mode, false, dry_run);
    loop {
        let e = match &action {
            Action::PathExists(p) => Event::Exists(exists.contains(&p.as_str())),
            Action::Run(c, _) => {
                calls.push(c.clone());
                Event::Ran(results.next().unwrap())
            }
            _ => panic!("unexpected action"),
        };
        match certs_step(m, e) {
            Progress::Next(m2, s) => {
                m = m2;
                action = s.action;
            }
            Progress::Done(_, r) => return (r.unwrap(), calls),
        }
    }
}

fn subject_out() -> Result<CommandOutput, CliError> {
    Ok(CommandOutput { status: 0, stdout: "subject=CN = dev1, O = Acme\n".to_string(), stderr: String::new() })
}

#[test]
fn certs_present_are_skipped_and_read() {
    let (o, calls) = run_certs("onprem", false, &["/r/certs/ca/ca.pem", "/r/certs/devices/dev1/client.pem"], vec![subject_out()]);
    assert_eq!(o.result.status, PhaseStatus::Skipped);
    assert_eq!(o.result.message, "All certs already present");
    assert_eq!(o.subject_dn.as_deref(), Some("CN = dev1, O = Acme"));
    assert_eq!(o.certs_dir.as_deref(), Some("/r/certs"));
    assert_eq!(calls, vec![vec!["openssl", "x509", "-in", "/r/certs/devices/dev1/client.pem", "-noout", "-subject"]]);
}

#[test]
fn certs_missing_are_generated_and_uploaded_in_aws_mode() {
    let ok = || Ok(CommandOutput::default());
    let (o, calls) = run_certs("aws", false, &[], vec![ok(), ok(), subject_out(), ok()]);
    assert_eq!(o.result.status, PhaseStatus::Passed);
    assert_eq!(calls[0], vec!["/r/cloud/scripts/gen_certs.sh", "ca"]);
    assert_eq!(calls[1], vec!["/r/cloud/scripts/gen_certs.sh", "device", "dev1"]);
    assert_eq!(calls[3], vec!["aws", "s3", "cp", "/r/certs/ca/ca.pem", "s3://supervictor/truststore.pem"]);
}

#[test]
fn certs_generation_failure_fails_the_phase() {
    let err = Err(CliError::Command { cmd: "gen ca".to_string(), code: 2, stderr: String::new() });
    let (o, _) = run_certs("onprem", false, &[], vec![err]);
    assert_eq!(o.result.status, PhaseStatus::Failed);
    assert_eq!(o.result.message, "CA generation failed: command failed with exit code 2: gen ca");
    assert!(o.certs_dir.is_none());
}

#[test]
fn certs_subject_failure_still_records_the_directory() {
    let err = Err(CliError::Io("no openssl".to_string()));
    let (o, _) = run_certs("onprem", false, &["/r/certs/ca/ca.pem", "/r/certs/devices/dev1/client.pem"], vec![err]);
    assert_eq!(o.result.status, PhaseStatus::Failed);
    assert_eq!(o.result.message, "failed to read subject DN: I/O error: no openssl");
    assert_eq!(o.certs_dir.as_deref(), Some("/r/certs"));
}

#[test]
fn certs_dry_run_reads_no_subject() {
    let ok = || Ok(CommandOutput::default());
    let (o, calls) = run_certs("aws", true, &["/r/certs/ca/ca.pem"], vec![ok()]);
    assert_eq!(o.result.status, PhaseStatus::Passed);
    assert!(o.subject_dn.is_none());
    assert_eq!(o.certs_dir.as_deref(), Some("/r/certs"));
    assert_eq!(calls.len(), 1);
}

#[test]
fn subject_dn_without_prefix_is_trimmed() {
    assert_eq!(subject_dn("  CN=x  \n"), "CN=x");
    assert_eq!(subject_dn("subject=  CN=y"), "CN=y");
}

#[test]
fn registration_decisions() {
    let (post, get) = registration_urls("http://localhost:8000", "dev1");
    assert_eq!(post, "http://localhost:8000/devices");
    assert_eq!(get, "http://localhost:8000/devices/dev1");
    assert!(registration_result(PostOutcome::Answered(201)).is_none());
    assert_eq!(registration_result(PostOutcome::Answered(200)).unwrap().message, "Registration returned HTTP 200, expected 201");
    assert_eq!(registration_result(PostOutcome::ErrorStatus(409)).unwrap().message, "Registration failed: HTTP 409");
    assert_eq!(registration_result(PostOutcome::Unreachable("refused".into())).unwrap().message, "Cannot reach API: refused");
    assert_eq!(verification_result(VerifyOutcome::Device("active".into())).status, PhaseStatus::Passed);
    assert_eq!(
        verification_result(VerifyOutcome::Device("revoked".into())).message,
        "Device status is 'revoked', expected 'active'"
    );
    assert_eq!(verification_result(VerifyOutcome::BadBody("eof".into())).message, "Failed to parse response: eof");
    assert_eq!(registration_precheck(true, &None).unwrap().status, PhaseStatus::Passed);
    assert_eq!(registration_precheck(false, &None).unwrap().message, "api_url not set");
    assert!(registration_precheck(false, &Some("u".into())).is_none());
    let (ca, cert, key) = client_cert_paths(true, &Some("/c".into()), "d").unwrap();
    assert_eq!((ca.as_str(), cert.as_str(), key.as_str()), ("/c/ca/ca.pem", "/c/devices/d/client.pem", "/c/devices/d/client.key"));
    assert!(client_cert_paths(false, &Some("/c".into()), "d").is_none());
}

/// Runs the preflight phase against a pretend machine.
fn run_preflight(mode: &str, missing: &[&str], docker_status: i32, env_exists: bool) -> (PhaseResult, Vec<String>) {
    let cfg = ProjectConfig::from_repo_root("/tmp/qs_preflight");
    let (mut m, mut action) = preflight_start(&cfg, mode);
    let mut ran: Vec<String> = Vec::new();
    loop {
        let event = match &action {
            Action::FindTools(ts) => Event::ToolsFound(ts.iter().map(|t| !missing.contains(&t.as_str())).collect()),
            Action::Run(cmd, _) => {
                ran.push(cmd.join(" "));
                Event::Ran(Ok(CommandOutput { status: docker_status, stdout: String::new(), stderr: String::new() }))
            }
            Action::PathExists(p) => {
                assert_eq!(p, &cfg.env_dev);
                Event::Exists(env_exists)
            }
            _ => panic!("unexpected operation"),
        };
        match preflight_step(m, event) {
            Progress::Next(next, step) => {
                m = next;
                action = step.action;
            }
            Progress::Done(_, result) => return (result.unwrap(), ran),
        }
    }
}

#[test]
fn preflight_phase_missing_tools_fail_before_docker() {
    let (r, ran) = run_preflight("aws", &["sam", "aws"], 0, true);
    assert_eq!(r.status, PhaseStatus::Failed);
    assert_eq!(r.message, "Missing tools: sam, aws");
    assert!(ran.is_empty());
}

#[test]
fn preflight_phase_checks_docker_then_env_file() {
    let (r, ran) = run_preflight("onprem", &[], 1, true);
    assert_eq!((r.status, r.message.as_str()), (PhaseStatus::Failed, "Docker daemon is not running"));
    assert_eq!(ran, vec!["docker info".to_string()]);
    let (r, _) = run_preflight("onprem", &[], 0, false);
    assert_eq!(r.status, PhaseStatus::Failed);
    assert!(r.message.starts_with(".env.dev not found at "));
    let (r, ran) = run_preflight("onprem", &[], 0, true);
    assert_eq!(r.status, PhaseStatus::Passed);
    assert_eq!(ran, vec!["docker info".to_string()]);
}
