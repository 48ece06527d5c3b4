use std::collections::{HashMap, HashSet, VecDeque};

use supervictor::cli::commands::{DevArgs, ProdArgs, StagingArgs};
use supervictor::cli::config::ProjectConfig;
use supervictor::cli::dev::{dev_start, dev_step};
use supervictor::cli::error::CliError;
use supervictor::cli::output::NoticeLevel;
use supervictor::cli::pipeline::{Action, Event, Step};
use supervictor::cli::prod::{prod_start, prod_step};
use supervictor::cli::runner::{command_result, CommandOutput};
use supervictor::cli::staging::{staging_start, staging_step};

/// A pretend machine that answers a pipeline's operations.
struct World {
    files: HashMap<String, String>,
    process: Vec<(String, String)>,
    missing_tools: Vec<String>,
    existing: HashSet<String>,
    results: VecDeque<CommandOutput>,
    answer: bool,
    ready: bool,
    running_pid: Option<u32>,
    calls: Vec<Vec<String>>,
    run_envs: Vec<Option<Vec<(String, String)>>>,
    spawned: Vec<Vec<String>>,
    notices: Vec<(NoticeLevel, String)>,
    asked: Vec<String>,
}

impl World {
    fn new(cfg: &ProjectConfig) -> Self {
        let mut files = HashMap::new();
        for f in [&cfg.env_dev, &cfg.env_staging, &cfg.env_prod] {
            files.insert(f.clone(), "HOST=localhost\n".to_string());
        }
        World {
            files,
            process: vec![("PATH".to_string(), "/usr/bin".to_string())],
            missing_tools: Vec::new(),
            existing: HashSet::new(),
            results: VecDeque::new(),
            answer: true,
            ready: true,
            running_pid: None,
            calls: Vec::new(),
            run_envs: Vec::new(),
            spawned: Vec::new(),
            notices: Vec::new(),
            asked: Vec::new(),
        }
    }

    fn answer(&mut self, action: &Action) -> Event {
        match action {
            Action::ReadFile(p) => Event::FileRead(self.files.get(p).cloned().ok_or_else(|| "not found".to_string())),
            Action::ProcessVars => Event::Vars(self.process.clone()),
            Action::FindTools(ts) => Event::ToolsFound(ts.iter().map(|t| !self.missing_tools.contains(t)).collect()),
            Action::Run(cmd, opts) | Action::Poll(_, cmd, opts) => {
                self.calls.push(cmd.clone());
                self.run_envs.push(opts.env.clone());
                let words: Vec<&str> = cmd.iter().map(|s| s.as_str()).collect();
                let out = if opts.dry_run { CommandOutput::default() } else { self.results.pop_front().unwrap_or_default() };
                Event::Ran(command_result(&words, out, opts.check))
            }
            Action::Spawn(cmd, _) => {
                self.spawned.push(cmd.clone());
                Event::Spawned(Ok(()))
            }
            Action::WriteEnvOverrides => Event::TempWritten(Ok("/tmp/sam_env.json".to_string())),
            Action::WaitReady(_, _) => Event::Ready(self.ready),
            Action::StopPidFile(_) => Event::PidStopped(Ok(self.running_pid.take().is_some())),
            Action::Detach(_) => Event::Detached(Ok(4242)),
            Action::PathExists(p) => Event::Exists(self.existing.contains(p)),
            Action::Confirm(q) => {
                self.asked.push(q.clone());
                Event::Answered(self.answer)
            }
            Action::Sleep(_) => Event::Slept,
            Action::Finish(_) => panic!("finished pipelines take no events"),
        }
    }

    fn take(&mut self, step: &mut Step) {
        for n in step.notices.drain(..) {
            self.notices.push((n.level, n.text));
        }
    }

    fn has_call(&self, word: &str) -> bool {
        self.calls.iter().any(|c| c.iter().any(|w| w == word))
    }
}

fn run_dev(w: &mut World, args: DevArgs, cfg: &ProjectConfig) -> Result<i32, CliError> {
    let (mut m, mut step) = dev_start(&args, cfg);
    loop {
        w.take(&mut step);
        if let Action::Finish(r) = step.action {
            return r;
        }
        let e = w.answer(&step.action);
        let (m2, s2) = dev_step(m, e);
        m = m2;
        step = s2;
    }
}

fn run_staging(w: &mut World, args: StagingArgs, cfg: &ProjectConfig, skip: bool) -> Result<i32, CliError> {
    let (mut m, mut step) = staging_start(&args, cfg, skip);
    loop {
        w.take(&mut step);
        if let Action::Finish(r) = step.action {
            return r;
        }
        let e = w.answer(&step.action);
        let (m2, s2) = staging_step(m, e);
        m = m2;
        step = s2;
    }
}

fn run_prod(w: &mut World, args: ProdArgs, cfg: &ProjectConfig) -> Result<i32, CliError> {
    let (mut m, mut step) = prod_start(&args, cfg);
    loop {
        w.take(&mut step);
        if let Action::Finish(r) = step.action {
            return r;
        }
        let e = w.answer(&step.action);
        let (m2, s2) = prod_step(m, e);
        m = m2;
        step = s2;
    }
}

fn ok() -> CommandOutput {
    CommandOutput { status: 0, stdout: String::new(), stderr: String::new() }
}

fn fail() -> CommandOutput {
    CommandOutput { status: 1, stdout: String::new(), stderr: "failed".to_string() }
}

fn rustc_output() -> CommandOutput {
    CommandOutput { status: 0, stdout: "rustc 1.78.0\nbinary: rustc\nhost: aarch64-apple-darwin\n".to_string(), stderr: String::new() }
}

fn cfg() -> ProjectConfig {
    ProjectConfig::from_repo_root("/tmp/qs")
}

fn quiet() -> ProdArgs {
    ProdArgs { verbose: false, dry_run: false }
}

#[test]
fn dev_gate_failure_aborts_prod() {
    let cfg = cfg();
    let mut w = World::new(&cfg);
    // dev: docker info ok, rustc ok, cargo test fails
    w.results.push_back(ok());
    w.results.push_back(rustc_output());
    w.results.push_back(fail());
    let code = run_prod(&mut w, quiet(), &cfg).unwrap();
    assert_eq!(code, 1);
    assert!(!w.has_call("deploy"));
    assert_eq!(w.notices.last().unwrap(), &(NoticeLevel::Error, "Dev pipeline failed. Aborting prod deployment.".to_string()));
}

#[test]
fn dev_gate_endpoint_failure_aborts_prod() {
    let cfg = cfg();
    let mut w = World::new(&cfg);
    w.results.push_back(ok()); // docker info
    w.results.push_back(rustc_output()); // rustc -vV
    w.results.push_back(ok()); // device tests
    w.results.push_back(fail()); // endpoint tests fail
    let code = run_prod(&mut w, quiet(), &cfg).unwrap();
    assert_eq!(code, 1);
    assert!(w.notices.contains(&(NoticeLevel::Error, "Endpoint tests failed (see /tmp/qs/.logs/endpoint_tests.log)".to_string())));
}

#[test]
fn dev_runs_every_stage_in_order() {
    let cfg = cfg();
    let mut w = World::new(&cfg);
    w.results.push_back(ok()); // docker info
    w.results.push_back(rustc_output());
    let code = run_dev(&mut w, DevArgs { verbose: false, dry_run: false, serve: false, stop: false }, &cfg).unwrap();
    assert_eq!(code, 0);
    assert_eq!(w.calls[0], vec!["docker", "info"]);
    assert_eq!(w.calls[1], vec!["rustc", "-vV"]);
    assert_eq!(w.calls[2], vec!["cargo", "test", "--lib", "--target", "aarch64-apple-darwin"]);
    assert_eq!(w.calls[3], vec!["cargo", "test", "--features", "sqlite"]);
    assert_eq!(w.calls[4], vec!["uv", "export", "--no-dev", "--no-hashes", "-o", "requirements.txt"]);
    assert_eq!(w.calls[5], vec!["sam", "build", "--skip-pull-image"]);
    assert_eq!(
        w.spawned[0],
        vec!["sam", "local", "start-api", "--port", "3000", "--skip-pull-image", "--env-vars", "/tmp/sam_env.json"]
    );
    assert_eq!(w.calls[6], vec!["cargo", "test", "--features", "sqlite", "--", "--ignored"]);
    let env = w.run_envs[6].clone().unwrap();
    assert!(env.iter().any(|(k, v)| k == "DEPLOYED_URL" && v == "http://localhost:3000"));
    assert_eq!(w.notices.last().unwrap(), &(NoticeLevel::Success, "\nDev pipeline passed.".to_string()));
}

#[test]
fn dev_port_comes_from_env_file() {
    let cfg = cfg();
    let mut w = World::new(&cfg);
    w.files.insert(cfg.env_dev.clone(), "SAM_LOCAL_PORT=3100\n".to_string());
    w.results.push_back(ok());
    w.results.push_back(rustc_output());
    run_dev(&mut w, DevArgs { verbose: false, dry_run: false, serve: false, stop: false }, &cfg).unwrap();
    assert!(w.spawned[0].contains(&"3100".to_string()));
    assert!(w.notices.contains(&(NoticeLevel::Step, "Starting sam local on port 3100".to_string())));
}

#[test]
fn dev_invalid_port_keeps_default() {
    let cfg = cfg();
    let mut w = World::new(&cfg);
    w.files.insert(cfg.env_dev.clone(), "SAM_LOCAL_PORT=70000\n".to_string());
    w.results.push_back(ok());
    w.results.push_back(rustc_output());
    run_dev(&mut w, DevArgs { verbose: false, dry_run: false, serve: false, stop: false }, &cfg).unwrap();
    assert!(w.spawned[0].contains(&"3000".to_string()));
}

#[test]
fn dev_serve_detaches_sam_local() {
    let cfg = cfg();
    let mut w = World::new(&cfg);
    w.results.push_back(ok());
    w.results.push_back(rustc_output());
    let code = run_dev(&mut w, DevArgs { verbose: false, dry_run: false, serve: true, stop: false }, &cfg).unwrap();
    assert_eq!(code, 0);
    assert!(!w.calls.iter().any(|c| c.contains(&"--ignored".to_string())));
    assert!(w.notices.contains(&(NoticeLevel::Success, "sam local running (PID 4242) at http://localhost:3000".to_string())));
    assert!(w.notices.contains(&(NoticeLevel::Plain, "  Stop: qs dev --stop".to_string())));
}

#[test]
fn dev_not_ready_is_a_timeout() {
    let cfg = cfg();
    let mut w = World::new(&cfg);
    w.ready = false;
    w.results.push_back(ok());
    w.results.push_back(rustc_output());
    let err = run_dev(&mut w, DevArgs { verbose: false, dry_run: false, serve: false, stop: false }, &cfg).unwrap_err();
    assert_eq!(err.message(), "sam local did not start within 120s. Check logs: /tmp/qs/.logs/sam_local.log");
}

#[test]
fn dev_stop_reports_what_it_found() {
    let cfg = cfg();
    let mut w = World::new(&cfg);
    w.running_pid = Some(7);
    let args = || DevArgs { verbose: false, dry_run: false, serve: false, stop: true };
    assert_eq!(run_dev(&mut w, args(), &cfg).unwrap(), 0);
    assert_eq!(w.notices.last().unwrap(), &(NoticeLevel::Success, "Stopped sam local.".to_string()));
    assert_eq!(run_dev(&mut w, args(), &cfg).unwrap(), 1);
    assert_eq!(w.notices.last().unwrap(), &(NoticeLevel::Error, "No running sam local found.".to_string()));
    assert!(w.calls.is_empty());
}

#[test]
fn dev_docker_down_is_an_error() {
    let cfg = cfg();
    let mut w = World::new(&cfg);
    w.results.push_back(fail()); // docker info
    let err = run_dev(&mut w, DevArgs { verbose: false, dry_run: false, serve: false, stop: false }, &cfg).unwrap_err();
    assert!(matches!(err, CliError::DockerNotRunning));
}

#[test]
fn staging_without_gate_tests_the_deployed_stack() {
    let cfg = cfg();
    let mut w = World::new(&cfg);
    w.files.insert(cfg.env_staging.clone(), "SAM_STACK_NAME=sv-dev\n".to_string());
    w.results.push_back(ok()); // docker info
    w.results.push_back(ok()); // uv export
    w.results.push_back(ok()); // sam build
    w.results.push_back(ok()); // sam deploy
    w.results.push_back(CommandOutput { status: 0, stdout: "https://abc.example.com/dev/\n".to_string(), stderr: String::new() });
    w.results.push_back(ok()); // pytest local
    w.results.push_back(rustc_output());
    w.results.push_back(ok()); // device tests
    w.results.push_back(ok()); // gen ca
    w.results.push_back(ok()); // gen device
    w.results.push_back(ok()); // pytest remote
    let code = run_staging(&mut w, StagingArgs { verbose: false, dry_run: false }, &cfg, true).unwrap();
    assert_eq!(code, 0);
    assert_eq!(w.calls[3], vec!["sam", "deploy", "--config-env", "dev", "--stack-name", "sv-dev", "--parameter-overrides", "StackName=sv-dev"]);
    assert_eq!(w.calls[4][4], "sv-dev");
    let local_env = w.run_envs[5].clone().unwrap();
    assert!(local_env.iter().any(|(k, v)| k == "SAM_LOCAL_URL" && v == "https://abc.example.com/dev"));
    assert_eq!(w.calls[7], vec!["cargo", "test", "--test", "deployed_roundtrip", "--target", "aarch64-apple-darwin"]);
    assert_eq!(w.calls[8], vec!["/tmp/qs/cloud/scripts/gen_certs.sh", "ca"]);
    assert_eq!(w.calls[9], vec!["/tmp/qs/cloud/scripts/gen_certs.sh", "device", "test-device"]);
    let mtls_env = w.run_envs[10].clone().unwrap();
    assert!(mtls_env.iter().any(|(k, v)| k == "TEST_CERT_DIR" && v == "/tmp/qs/certs"));
    assert!(mtls_env.iter().any(|(k, v)| k == "API_ENDPOINT" && v == "https://supervictor.advin.io"));
    assert_eq!(w.notices.last().unwrap(), &(NoticeLevel::Success, "\nStaging pipeline passed.".to_string()));
}

#[test]
fn staging_reads_stack_name_from_samconfig() {
    let cfg = cfg();
    let mut w = World::new(&cfg);
    w.files.insert(
        "/tmp/qs/cloud/samconfig.toml".to_string(),
        "[dev.deploy.parameters]\nstack_name = \"\\\"sv-from-toml\\\"\"\n".to_string(),
    );
    w.existing.insert("/tmp/qs/certs/ca/ca.pem".to_string());
    w.existing.insert("/tmp/qs/certs/devices/test-device/client.pem".to_string());
    w.results.push_back(ok()); // docker info
    w.results.push_back(ok()); // uv export
    w.results.push_back(ok()); // sam build
    w.results.push_back(fail()); // sam deploy: no changes
    w.results.back_mut().unwrap().stdout = "Error: No changes to deploy. Stack is up to date".to_string();
    w.results.push_back(CommandOutput { status: 0, stdout: "https://x.example.com\n".to_string(), stderr: String::new() });
    w.results.push_back(fail()); // pytest local fails
    let code = run_staging(&mut w, StagingArgs { verbose: false, dry_run: false }, &cfg, true).unwrap();
    assert_eq!(code, 1);
    assert_eq!(w.calls[4][4], "sv-from-toml");
    assert!(w.notices.contains(&(NoticeLevel::Success, "Stack is already up to date.".to_string())));
    assert_eq!(
        w.notices.last().unwrap(),
        &(NoticeLevel::Error, "Staging integration tests failed (see /tmp/qs/.logs/staging_integration_tests.log)".to_string())
    );
}

#[test]
fn staging_dry_run_uses_placeholder_endpoint() {
    let cfg = cfg();
    let mut w = World::new(&cfg);
    w.existing.insert("/tmp/qs/certs/ca/ca.pem".to_string());
    w.existing.insert("/tmp/qs/certs/devices/test-device/client.pem".to_string());
    w.results.push_back(ok()); // docker info (not a dry-run command)
    w.results.push_back(rustc_output()); // rustc -vV runs even in a dry run
    let code = run_staging(&mut w, StagingArgs { verbose: false, dry_run: true }, &cfg, true).unwrap();
    assert_eq!(code, 0);
    let local_env = w.run_envs[4].clone().unwrap();
    assert!(local_env
        .iter()
        .any(|(k, v)| k == "SAM_LOCAL_URL" && v == "https://DRY-RUN.execute-api.us-east-1.amazonaws.com/dev"));
}

#[test]
fn prod_asks_before_deploying_and_stops_on_no() {
    let cfg = cfg();
    let mut w = World::new(&cfg);
    w.answer = false;
    w.existing.insert("/tmp/qs/certs/ca/ca.pem".to_string());
    w.existing.insert("/tmp/qs/certs/devices/test-device/client.pem".to_string());
    // dev gate
    w.results.push_back(ok());
    w.results.push_back(rustc_output());
    for _ in 0..5 {
        w.results.push_back(ok());
    }
    // staging gate: docker, export, build, deploy, endpoint, pytest, rustc, device, pytest
    w.results.push_back(ok());
    w.results.push_back(ok());
    w.results.push_back(ok());
    w.results.push_back(ok());
    w.results.push_back(CommandOutput { status: 0, stdout: "https://x.example.com\n".to_string(), stderr: String::new() });
    w.results.push_back(ok());
    w.results.push_back(rustc_output());
    w.results.push_back(ok());
    w.results.push_back(ok());
    w.files.insert("/tmp/qs/cloud/samconfig.toml".to_string(), "[dev.global.parameters]\nstack_name = \"s\"\n".to_string());
    let code = run_prod(&mut w, quiet(), &cfg).unwrap();
    assert_eq!(code, 1);
    assert_eq!(w.asked, vec!["All tests passed. Deploy to PRODUCTION? [y/N] ".to_string()]);
    assert_eq!(w.notices.last().unwrap(), &(NoticeLevel::Plain, "Aborted.".to_string()));
    assert!(!w.calls.iter().any(|c| c.contains(&"prod".to_string())));
}

#[test]
fn prod_deploys_and_reloads_the_truststore() {
    let cfg = cfg();
    let mut w = World::new(&cfg);
    w.existing.insert("/tmp/qs/certs/ca/ca.pem".to_string());
    w.existing.insert("/tmp/qs/certs/devices/test-device/client.pem".to_string());
    w.files.insert("/tmp/qs/cloud/samconfig.toml".to_string(), "[dev.global.parameters]\nstack_name = \"s\"\n".to_string());
    w.results.push_back(ok());
    w.results.push_back(rustc_output());
    for _ in 0..5 {
        w.results.push_back(ok());
    }
    w.results.push_back(ok());
    w.results.push_back(ok());
    w.results.push_back(ok());
    w.results.push_back(ok());
    w.results.push_back(CommandOutput { status: 0, stdout: "https://x.example.com\n".to_string(), stderr: String::new() });
    w.results.push_back(ok());
    w.results.push_back(rustc_output());
    w.results.push_back(ok());
    w.results.push_back(ok());
    // prod: export, build, deploy, then the truststore's six commands
    w.results.push_back(ok());
    w.results.push_back(ok());
    w.results.push_back(ok());
    w.results.push_back(ok());
    w.results.push_back(ok());
    w.results.push_back(CommandOutput { status: 0, stdout: "AVAILABLE\n".to_string(), stderr: String::new() });
    w.results.push_back(ok());
    w.results.push_back(CommandOutput { status: 0, stdout: "s3://supervictor/truststore.pem\n".to_string(), stderr: String::new() });
    w.results.push_back(ok());
    let code = run_prod(&mut w, quiet(), &cfg).unwrap();
    assert_eq!(code, 0);
    let deploy = w.calls.iter().find(|c| c.contains(&"prod".to_string())).unwrap();
    assert_eq!(deploy, &vec!["sam", "deploy", "--config-env", "prod", "--force-upload"]);
    assert!(w.calls.iter().any(|c| c == &vec!["sam", "build", "--skip-pull-image", "--no-cached"]));
    assert_eq!(w.calls.last().unwrap(), &vec!["aws", "s3", "rm", "s3://supervictor/truststore-reload.pem"]);
    assert!(w.notices.contains(&(NoticeLevel::Success, "mTLS truststore reloaded".to_string())));
    assert_eq!(w.notices.last().unwrap(), &(NoticeLevel::Success, "\nProduction deployment complete.".to_string()));
}
