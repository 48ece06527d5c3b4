use supervictor::cli::commands::PingArgs;
use supervictor::cli::output::NoticeLevel;
use supervictor::cli::ping::{ping_plan, ping_preflight, ping_result, PingOutcome};

fn args(certs: Option<&str>, ca: Option<&str>) -> PingArgs {
    PingArgs { certs: certs.map(String::from), ca: ca.map(String::from), host: "localhost".into(), port: 443, dry_run: false }
}

fn texts(v: Vec<supervictor::cli::output::Notice>) -> Vec<(NoticeLevel, String)> {
    v.into_iter().map(|n| (n.level, n.text)).collect()
}

#[test]
fn ping_defaults_to_the_test_device() {
    let p = ping_plan(&args(None, None), "/repo");
    assert_eq!(p.url, "https://localhost:443/");
    assert_eq!(p.client_cert, "/repo/certs/devices/test-device/client.pem");
    assert_eq!(p.client_key, "/repo/certs/devices/test-device/client.key");
}

#[test]
fn ping_reports_the_first_missing_file() {
    let p = ping_plan(&args(Some("/c"), Some("/ca.pem")), "/repo");
    let (n, code) = ping_preflight(&p, false, false, false, false);
    assert_eq!(code, Some(1));
    assert_eq!(texts(n), vec![(NoticeLevel::Error, "client cert not found at /c/client.pem".to_string())]);
    let (n, _) = ping_preflight(&p, true, false, false, false);
    assert_eq!(texts(n), vec![(NoticeLevel::Error, "client key not found at /c/client.key".to_string())]);
    let (n, _) = ping_preflight(&p, true, true, false, false);
    assert_eq!(texts(n), vec![(NoticeLevel::Error, "CA cert not found at /ca.pem".to_string())]);
}

#[test]
fn ping_dry_run_stops_before_the_request() {
    let p = ping_plan(&args(Some("/c"), None), "/repo");
    let (n, code) = ping_preflight(&p, true, true, false, true);
    assert_eq!(code, Some(0));
    assert_eq!(
        texts(n),
        vec![
            (NoticeLevel::Step, "Pinging https://localhost:443/".to_string()),
            (NoticeLevel::Plain, "  [dry-run] GET https://localhost:443/".to_string()),
        ]
    );
    let (_, code) = ping_preflight(&p, true, true, false, false);
    assert_eq!(code, None);
}

#[test]
fn ping_results() {
    let (n, code) = ping_result(PingOutcome::Answered(200, "hi".into()));
    assert_eq!(code, 0);
    assert_eq!(texts(n), vec![(NoticeLevel::Success, "Status: 200".to_string()), (NoticeLevel::Plain, "hi".to_string())]);
    let (_, code) = ping_result(PingOutcome::ErrorStatus(403));
    assert_eq!(code, 0);
    let (n, code) = ping_result(PingOutcome::Failed("timeout".into()));
    assert_eq!(code, 1);
    assert_eq!(texts(n), vec![(NoticeLevel::Error, "Error: timeout".to_string())]);
}
