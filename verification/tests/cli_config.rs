use supervictor::cli::config::{join, ProjectConfig};

#[test]
fn test_from_repo_root() {
    let cfg = ProjectConfig::from_repo_root("/tmp/repo");
    assert_eq!(cfg.repo_root, "/tmp/repo");
    assert_eq!(cfg.device_dir, "/tmp/repo/device");
    assert_eq!(cfg.endpoint_dir, "/tmp/repo/endpoint");
    assert_eq!(cfg.env_dev, "/tmp/repo/.env.dev");
    assert_eq!(cfg.log_dir, "/tmp/repo/.logs");
    assert_eq!(cfg.sam_local_port, 3000);
    assert_eq!(cfg.sam_ready_timeout, 120);
}

#[test]
fn test_certs_dir() {
    let cfg = ProjectConfig::from_repo_root("/tmp/repo");
    assert_eq!(cfg.certs_dir(), "/tmp/repo/certs");
}

#[test]
fn test_gen_certs_script_path() {
    let cfg = ProjectConfig::from_repo_root("/tmp/repo");
    assert_eq!(cfg.gen_certs_script_path(), "/tmp/repo/cloud/scripts/gen_certs.sh");
}

#[test]
fn config_log_files_and_defaults() {
    let cfg = ProjectConfig::from_repo_root("/srv/app");
    assert_eq!(cfg.sam_log_file, "/srv/app/.logs/sam_local.log");
    assert_eq!(cfg.sam_pid_file, "/srv/app/.logs/sam_local.pid");
    assert_eq!(cfg.cloud_dir, "/srv/app/cloud");
    assert_eq!(cfg.env_staging, "/srv/app/.env.staging");
    assert_eq!(cfg.env_prod, "/srv/app/.env.prod");
    assert_eq!(cfg.sam_config_env_dev, "dev");
    assert_eq!(cfg.sam_config_env_prod, "prod");
    assert_eq!(cfg.prod_api_endpoint, "https://supervictor.advin.io");
}

#[test]
fn join_follows_path_rules() {
    assert_eq!(join("/a/", "b"), "/a/b");
    assert_eq!(join("/a", "b"), "/a/b");
    assert_eq!(join("", "b"), "b");
    assert_eq!(join("/a", "/abs"), "/abs");
    assert_eq!(join("/a", ""), "/a/");
}
