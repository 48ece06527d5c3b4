use supervictor::cli::config::{join, ProjectConfig};
use supervictor::cli::error::CliError;
use supervictor::cli::output::NoticeLevel;
use supervictor::cli::preflight::{
    check_tools, docker_answered, docker_outcome, espflash_plan, tools_outcome, EspflashPlan,
};
use supervictor::cli::runner::{
    check_command, command_line, command_result, echo_line, run_plan, strings, CommandOutput, RunPlan,
};
use supervictor::cli::rust_tools::host_target_from;
use supervictor::cli::sam::{
    deploy_outcome, dry_run_endpoint, endpoint_from_output, endpoint_query, pid_to_stop,
    stack_name_from_samconfig, SamLocal,
};

fn out(status: i32, stdout: &str, stderr: &str) -> CommandOutput {
    CommandOutput { status, stdout: stdout.to_string(), stderr: stderr.to_string() }
}

// --- runner ---

#[test]
fn runner_command_text() {
    assert_eq!(command_line(&["sam", "build", "--skip-pull-image"]), "sam build --skip-pull-image");
    assert_eq!(command_line(&[]), "");
    assert_eq!(echo_line(&["ls", "-la"], false, false), "  $ ls -la");
    assert_eq!(echo_line(&["ls"], true, false), "  [dry-run] ls");
    assert_eq!(echo_line(&["sam", "local"], false, true), "  $ sam local &");
    assert_eq!(strings(&["a", "b"]), vec!["a".to_string(), "b".to_string()]);
}

#[test]
fn runner_empty_command_is_refused() {
    assert!(check_command(&["x"]).is_ok());
    match check_command(&[]) {
        Err(CliError::Config(m)) => assert_eq!(m, "empty command"),
        other => panic!("unexpected {:?}", other),
    }
}

#[test]
fn runner_checked_failure_names_the_command() {
    match command_result(&["cargo", "build"], out(101, "", "boom"), true) {
        Err(CliError::Command { cmd, code, stderr }) => {
            assert_eq!(cmd, "cargo build");
            assert_eq!(code, 101);
            assert_eq!(stderr, "boom");
        }
        other => panic!("unexpected {:?}", other),
    }
    let ok = command_result(&["cargo", "build"], out(101, "x", "y"), false).unwrap();
    assert_eq!((ok.status, ok.stdout.as_str()), (101, "x"));
    let ok = command_result(&["true"], out(0, "", ""), true).unwrap();
    assert_eq!(ok.status, 0);
}

// --- errors ---

#[test]
fn cli_error_messages() {
    let e = CliError::Command { cmd: "sam build".to_string(), code: -2, stderr: "x".to_string() };
    assert_eq!(e.message(), "command failed with exit code -2: sam build");
    let e = CliError::MissingTools(vec!["docker".to_string(), "sam".to_string()]);
    assert_eq!(e.message(), "missing required tools: docker, sam");
    assert_eq!(CliError::DockerNotRunning.message(), "Docker daemon is not running");
    assert_eq!(CliError::Config("bad".to_string()).message(), "bad");
    assert_eq!(CliError::Timeout { message: "late".to_string() }.message(), "late");
    assert_eq!(CliError::Io("gone".to_string()).message(), "I/O error: gone");
}

// --- preflight ---

#[test]
fn preflight_missing_tools_keep_their_order() {
    let missing = check_tools(&["cargo", "docker", "sam"], &[true, false, false]);
    assert_eq!(missing, vec!["docker".to_string(), "sam".to_string()]);
    assert!(tools_outcome(Vec::new()).is_ok());
    match tools_outcome(missing) {
        Err(CliError::MissingTools(m)) => assert_eq!(m, vec!["docker".to_string(), "sam".to_string()]),
        other => panic!("unexpected {:?}", other),
    }
}

#[test]
fn preflight_docker_check() {
    assert!(docker_answered(&Ok(out(0, "", ""))));
    assert!(!docker_answered(&Ok(out(1, "", ""))));
    assert!(!docker_answered(&Err(CliError::Io("no docker".to_string()))));
    assert!(docker_outcome(true).is_ok());
    assert!(matches!(docker_outcome(false), Err(CliError::DockerNotRunning)));
}

#[test]
fn espflash_missing_is_installed() {
    match espflash_plan(false, &None) {
        EspflashPlan::Install(Some(n)) => {
            assert_eq!(n.level, NoticeLevel::Step);
            assert_eq!(n.text, "espflash not found \u{2014} installing");
        }
        _ => panic!("expected an install"),
    }
}

#[test]
fn espflash_pinned_version_is_kept() {
    assert!(matches!(espflash_plan(true, &Some(Ok(out(0, "espflash 3.3.0\n", "")))), EspflashPlan::Current));
}

#[test]
fn espflash_other_version_is_replaced() {
    match espflash_plan(true, &Some(Ok(out(0, "espflash 2.1.0\n", "")))) {
        EspflashPlan::Install(Some(n)) => {
            assert_eq!(n.text, "espflash 2.1.0 found, expected 3.3.0 \u{2014} reinstalling");
        }
        _ => panic!("expected a reinstall"),
    }
    assert!(matches!(espflash_plan(true, &Some(Ok(out(1, "", "")))), EspflashPlan::Install(None)));
    assert!(matches!(
        espflash_plan(true, &Some(Err(CliError::Io("x".to_string())))),
        EspflashPlan::Install(None)
    ));
}

// --- rustc ---

#[test]
fn host_target_is_read_from_rustc_output() {
    let text = "rustc 1.80.0 (abc 2024-07-21)\nbinary: rustc\nhost: x86_64-unknown-linux-gnu\nrelease: 1.80.0\n";
    assert_eq!(host_target_from(text).unwrap(), "x86_64-unknown-linux-gnu");
    assert_eq!(host_target_from("host:   aarch64-apple-darwin  \r\n").unwrap(), "aarch64-apple-darwin");
    match host_target_from("rustc 1.80.0\nrelease: 1.80.0\n") {
        Err(CliError::Config(m)) => assert_eq!(m, "could not determine host target from `rustc -vV`"),
        other => panic!("unexpected {:?}", other),
    }
}

// --- SAM ---

#[test]
fn sam_deploy_arguments_follow_the_environment() {
    let cfg = ProjectConfig::from_repo_root("/r");
    let env = vec![
        ("SAM_STACK_NAME".to_string(), "sv-dev".to_string()),
        ("SAM_REGION".to_string(), "eu-west-1".to_string()),
        ("SAM_ENVIRONMENT".to_string(), "dev".to_string()),
    ];
    let sam = SamLocal::new(&cfg, Some(env), false, false);
    let (cmd, opts) = sam.deploy_run("dev", true);
    assert_eq!(
        cmd,
        vec![
            "sam", "deploy", "--config-env", "dev", "--stack-name", "sv-dev", "--region", "eu-west-1",
            "--parameter-overrides", "Environment=dev StackName=sv-dev", "--force-upload",
        ]
        .into_iter()
        .map(String::from)
        .collect::<Vec<_>>()
    );
    assert_eq!(opts.cwd, Some(cfg.cloud_dir.clone()));
    assert_eq!(opts.log_to, Some(join(&cfg.log_dir, "sam_deploy_dev.log")));
    assert!(!opts.check);
}

#[test]
fn sam_deploy_without_environment_has_no_overrides() {
    let cfg = ProjectConfig::from_repo_root("/r");
    let sam = SamLocal::new(&cfg, None, false, false);
    let (cmd, _) = sam.deploy_run("prod", false);
    assert_eq!(cmd, vec!["sam", "deploy", "--config-env", "prod"]);
}

#[test]
fn sam_local_commands() {
    let cfg = ProjectConfig::from_repo_root("/r");
    let sam = SamLocal::new(&cfg, None, true, false);
    assert_eq!(sam.url(), "http://localhost:3000");
    let (cmd, opts) = sam.build_run(true);
    assert_eq!(cmd, vec!["sam", "build", "--skip-pull-image", "--no-cached"]);
    assert!(opts.check && opts.verbose);
    let (cmd, opts) = sam.start_command("/tmp/env.json", &vec!["--debug".to_string()]);
    assert_eq!(
        cmd,
        vec!["sam", "local", "start-api", "--port", "3000", "--skip-pull-image", "--env-vars", "/tmp/env.json", "--debug"]
    );
    assert_eq!(opts.log_file, Some(cfg.sam_log_file.clone()));
    match sam.ready_timeout() {
        CliError::Timeout { message } => assert_eq!(message, format!("sam local did not start within {}s. Check logs: {}", cfg.sam_ready_timeout, cfg.sam_log_file)),
        other => panic!("unexpected {:?}", other),
    }
}

#[test]
fn sam_deploy_outcomes() {
    let cmd = vec!["sam".to_string(), "deploy".to_string()];
    let (n, r) = deploy_outcome(&cmd, "dev", "/l/d.log", out(0, "", ""));
    assert_eq!((n.level, n.text.as_str()), (NoticeLevel::Success, "Deployed to dev"));
    assert!(matches!(r, Ok(true)));
    let (n, r) = deploy_outcome(&cmd, "dev", "/l/d.log", out(1, "", "Error: No changes to deploy. Stack is up to date"));
    assert_eq!(n.text, "Stack is already up to date.");
    assert!(matches!(r, Ok(false)));
    let (n, r) = deploy_outcome(&cmd, "dev", "/l/d.log", out(2, "", "denied"));
    assert_eq!((n.level, n.text.as_str()), (NoticeLevel::Error, "sam deploy failed (see /l/d.log)"));
    match r {
        Err(CliError::Command { cmd, code, stderr }) => assert_eq!((cmd.as_str(), code, stderr.as_str()), ("sam deploy", 2, "denied")),
        other => panic!("unexpected {:?}", other),
    }
}

#[test]
fn sam_stack_endpoint() {
    assert_eq!(dry_run_endpoint("dev"), "https://DRY-RUN.execute-api.us-east-1.amazonaws.com/dev");
    let (cmd, opts) = endpoint_query("sv-dev", &None, false);
    assert_eq!(cmd[0], "aws");
    assert!(cmd.contains(&"sv-dev".to_string()));
    assert!(opts.capture);
    assert_eq!(endpoint_from_output("sv", "  https://x.example/dev//\n").unwrap(), "https://x.example/dev");
    match endpoint_from_output("sv", " \n") {
        Err(CliError::Config(m)) => assert_eq!(m, "no SupervictorApiEndpoint output found for stack 'sv'"),
        other => panic!("unexpected {:?}", other),
    }
}

#[test]
fn sam_stack_name_from_samconfig() {
    let doc = "version = 0.1\n[dev.deploy.parameters]\nstack_name = \"sv-dev\"\n[prod.global.parameters]\nstack_name = \"sv-prod\"\n";
    assert_eq!(stack_name_from_samconfig(doc, "dev").unwrap(), "sv-dev");
    assert_eq!(stack_name_from_samconfig(doc, "prod").unwrap(), "sv-prod");
    match stack_name_from_samconfig(doc, "staging") {
        Err(CliError::Config(m)) => assert_eq!(m, "no stack_name found in samconfig.toml for config-env 'staging'"),
        other => panic!("unexpected {:?}", other),
    }
    match stack_name_from_samconfig("[[[", "dev") {
        Err(CliError::Config(m)) => assert!(m.starts_with("failed to parse samconfig.toml: ")),
        other => panic!("unexpected {:?}", other),
    }
}

#[test]
fn sam_pid_file_contents() {
    assert_eq!(pid_to_stop(" 4242\n"), Some("4242".to_string()));
    assert_eq!(pid_to_stop("  \n"), None);
}

// --- running a command: the plan ---

#[test]
fn run_plan_dry_run_echoes_and_reports_success() {
    match run_plan(&["sam", "build"], true, false, false) {
        RunPlan::DryRun(line, out) => {
            assert_eq!(line, "  [dry-run] sam build");
            assert_eq!((out.status, out.stdout.as_str(), out.stderr.as_str()), (0, "", ""));
        }
        _ => panic!("expected a dry run"),
    }
    match run_plan(&["sam", "local"], true, true, true) {
        RunPlan::DryRun(line, _) => assert_eq!(line, "  [dry-run] sam local &"),
        _ => panic!("expected a dry run"),
    }
    assert!(matches!(run_plan(&["ls"], false, false, false), RunPlan::Execute(None)));
    match run_plan(&["ls", "-la"], false, true, false) {
        RunPlan::Execute(Some(line)) => assert_eq!(line, "  $ ls -la"),
        _ => panic!("expected a shown command"),
    }
}
