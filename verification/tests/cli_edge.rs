use std::collections::{HashMap, VecDeque};

use supervictor::cli::commands::EdgeArgs;
use supervictor::cli::config::ProjectConfig;
use supervictor::cli::edge::{edge_start, edge_step, EdgeStage};
use supervictor::cli::error::CliError;
use supervictor::cli::output::NoticeLevel;
use supervictor::cli::pipeline::{Action, Event};
use supervictor::cli::runner::{command_result, CommandOutput};

/// A pretend machine: files, process variables, tools on the path, and the
/// results that successive commands give.
struct World {
    files: HashMap<String, String>,
    process: Vec<(String, String)>,
    missing_tools: Vec<String>,
    results: VecDeque<CommandOutput>,
    calls: Vec<Vec<String>>,
    notices: Vec<(NoticeLevel, String)>,
}

impl World {
    fn new() -> Self {
        World {
            files: HashMap::new(),
            process: vec![("PATH".to_string(), "/usr/bin".to_string())],
            missing_tools: Vec::new(),
            results: VecDeque::new(),
            calls: Vec::new(),
            notices: Vec::new(),
        }
    }

    fn answer(&mut self, action: &Action) -> Event {
        match action {
            Action::ReadFile(p) => Event::FileRead(self.files.get(p).cloned().ok_or_else(|| "No such file".to_string())),
            Action::ProcessVars => Event::Vars(self.process.clone()),
            Action::FindTools(ts) => Event::ToolsFound(ts.iter().map(|t| !self.missing_tools.contains(t)).collect()),
            Action::Run(cmd, opts) => {
                self.calls.push(cmd.clone());
                let words: Vec<&str> = cmd.iter().map(|s| s.as_str()).collect();
                let out = self.results.pop_front().unwrap_or_default();
                Event::Ran(command_result(&words, out, opts.check))
            }
            _ => panic!("unexpected action"),
        }
    }
}

fn run_edge(world: &mut World, cfg: &ProjectConfig) -> Result<i32, CliError> {
    let (mut m, mut step) = edge_start(&EdgeArgs { verbose: false, dry_run: false }, cfg);
    loop {
        for n in step.notices.drain(..) {
            world.notices.push((n.level, n.text));
        }
        if let Action::Finish(r) = step.action {
            assert!(matches!(m.stage, EdgeStage::Done));
            return r;
        }
        let e = world.answer(&step.action);
        let (m2, s2) = edge_step(m, e);
        m = m2;
        step = s2;
    }
}

fn setup(world: &mut World, env: &str) -> ProjectConfig {
    let cfg = ProjectConfig::from_repo_root("/tmp/qs_edge");
    world.files.insert(cfg.env_dev.clone(), env.to_string());
    cfg
}

#[test]
fn test_edge_happy_path() {
    let mut w = World::new();
    let cfg = setup(&mut w, "HOST=localhost\n");
    w.results.push_back(CommandOutput::default());
    let code = run_edge(&mut w, &cfg).unwrap();
    assert_eq!(code, 0);
    let call = &w.calls[0];
    assert!(call.contains(&"cargo".to_string()));
    assert!(call.contains(&"run".to_string()));
    assert!(call.contains(&"supervictor-embedded".to_string()));
    assert!(call.contains(&"embedded".to_string()));
    assert!(!call.contains(&"--port".to_string()));
}

#[test]
fn test_edge_with_port_env() {
    let mut w = World::new();
    let cfg = setup(&mut w, "HOST=localhost\nESPFLASH_PORT=/dev/ttyUSB0\n");
    w.results.push_back(CommandOutput::default());
    let code = run_edge(&mut w, &cfg).unwrap();
    assert_eq!(code, 0);
    let call = &w.calls[0];
    assert!(call.contains(&"--port".to_string()));
    assert!(call.contains(&"/dev/ttyUSB0".to_string()));
    assert!(w.notices.contains(&(NoticeLevel::Step, "Using serial port /dev/ttyUSB0".to_string())));
}

#[test]
fn test_edge_flash_failure_returns_1() {
    let mut w = World::new();
    let cfg = setup(&mut w, "HOST=localhost\n");
    w.results.push_back(CommandOutput { status: 1, stdout: String::new(), stderr: "flash failed".to_string() });
    let code = run_edge(&mut w, &cfg).unwrap();
    assert_eq!(code, 1);
    assert_eq!(w.notices.last().unwrap(), &(NoticeLevel::Error, "Flash failed.".to_string()));
}

#[test]
fn edge_port_falls_back_to_process_env() {
    let mut w = World::new();
    w.process.push(("ESPFLASH_PORT".to_string(), "/dev/ttyACM1".to_string()));
    let cfg = setup(&mut w, "HOST=localhost\n");
    w.results.push_back(CommandOutput::default());
    assert_eq!(run_edge(&mut w, &cfg).unwrap(), 0);
    assert_eq!(
        w.calls[0],
        vec!["cargo", "run", "--bin", "supervictor-embedded", "--features", "embedded", "--", "--port", "/dev/ttyACM1"]
    );
}

#[test]
fn edge_missing_tool_is_an_error() {
    let mut w = World::new();
    w.missing_tools.push("espflash".to_string());
    let cfg = setup(&mut w, "HOST=localhost\n");
    let err = run_edge(&mut w, &cfg).unwrap_err();
    match &err {
        CliError::MissingTools(t) => assert_eq!(t, &vec!["espflash".to_string()]),
        _ => panic!("expected missing tools"),
    }
    assert_eq!(err.message(), "missing required tools: espflash");
    assert!(w.calls.is_empty());
}

#[test]
fn edge_unreadable_env_file_is_an_error() {
    let mut w = World::new();
    let cfg = ProjectConfig::from_repo_root("/tmp/qs_edge_none");
    let err = run_edge(&mut w, &cfg).unwrap_err();
    assert_eq!(err.message(), "failed to read /tmp/qs_edge_none/.env.dev: No such file");
}
