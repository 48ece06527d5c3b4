//! Project-wide configuration: the locations and settings the pipelines use.
use vstd::prelude::*;
use crate::text::{push_char, push_str, to_string};

verus! {

/// `base` joined with `child` as a filesystem path (Unix `Path::join`): an
/// absolute `child` replaces `base`; otherwise a `/` separates them unless
/// `base` is empty or already ends with one.
pub open spec fn join_path(base: Seq<char>, child: Seq<char>) -> Seq<char> {
    if child.len() > 0 && child[0] == '/' {
        child
    } else if base.len() > 0 && base.last() != '/' {
        base + seq!['/'] + child
    } else {
        base + child
    }
}

/// Joins two path strings as `Path::join` does on Unix.
pub fn join(base: &str, child: &str) -> (p: String)
    ensures
        p@ == join_path(base@, child@),
{
    let bv = crate::text::chars_of(base);
    let cv = crate::text::chars_of(child);
    if cv.len() > 0 && cv[0] == '/' {
        return to_string(child);
    }
    let mut p = to_string(base);
    if bv.len() > 0 && bv[bv.len() - 1] != '/' {
        push_char(&mut p, '/');
    }
    push_str(&mut p, child);
    p
}

/// Project-wide configuration; paths are strings.
#[derive(Debug, Clone)]
pub struct ProjectConfig {
    pub repo_root: String,
    pub device_dir: String,
    pub endpoint_dir: String,
    pub cloud_dir: String,
    pub env_dev: String,
    pub env_staging: String,
    pub env_prod: String,
    pub log_dir: String,
    pub sam_local_port: u16,
    pub sam_ready_timeout: u64,
    pub sam_log_file: String,
    pub sam_pid_file: String,
    pub sam_config_env_dev: String,
    pub sam_config_env_prod: String,
    pub certs_dir_name: String,
    pub gen_certs_script: String,
    pub prod_api_endpoint: String,
}

impl ProjectConfig {
    /// The configuration of the repository rooted at `root`.
    pub fn from_repo_root(root: &str) -> (c: ProjectConfig)
        ensures
            c.repo_root@ == root@,
            c.device_dir@ == join_path(root@, "device"@),
            c.endpoint_dir@ == join_path(root@, "endpoint"@),
            c.cloud_dir@ == join_path(root@, "cloud"@),
            c.env_dev@ == join_path(root@, ".env.dev"@),
            c.env_staging@ == join_path(root@, ".env.staging"@),
            c.env_prod@ == join_path(root@, ".env.prod"@),
            c.log_dir@ == join_path(root@, ".logs"@),
            c.sam_log_file@ == join_path(join_path(root@, ".logs"@), "sam_local.log"@),
            c.sam_pid_file@ == join_path(join_path(root@, ".logs"@), "sam_local.pid"@),
            c.sam_local_port == 3000,
            c.sam_ready_timeout == 120,
            c.sam_config_env_dev@ == "dev"@,
            c.sam_config_env_prod@ == "prod"@,
            c.certs_dir_name@ == "certs"@,
            c.gen_certs_script@ == "scripts/gen_certs.sh"@,
            c.prod_api_endpoint@ == "https://supervictor.advin.io"@,
    {
        let log_dir = join(root, ".logs");
        ProjectConfig {
            device_dir: join(root, "device"),
            endpoint_dir: join(root, "endpoint"),
            cloud_dir: join(root, "cloud"),
            env_dev: join(root, ".env.dev"),
            env_staging: join(root, ".env.staging"),
            env_prod: join(root, ".env.prod"),
            sam_log_file: join(log_dir.as_str(), "sam_local.log"),
            sam_pid_file: join(log_dir.as_str(), "sam_local.pid"),
            log_dir,
            repo_root: to_string(root),
            sam_local_port: 3000,
            sam_ready_timeout: 120,
            sam_config_env_dev: to_string("dev"),
            sam_config_env_prod: to_string("prod"),
            certs_dir_name: to_string("certs"),
            gen_certs_script: to_string("scripts/gen_certs.sh"),
            prod_api_endpoint: to_string("https://supervictor.advin.io"),
        }
    }

    /// The certificates directory: `certs_dir_name` under the repository root.
    pub fn certs_dir(&self) -> (p: String)
        ensures
            p@ == join_path(self.repo_root@, self.certs_dir_name@),
    {
        join(self.repo_root.as_str(), self.certs_dir_name.as_str())
    }

    /// The certificate generation script: `gen_certs_script` under `cloud/`
    /// in the repository.
    pub fn gen_certs_script_path(&self) -> (p: String)
        ensures
            p@ == join_path(join_path(self.repo_root@, "cloud"@), self.gen_certs_script@),
    {
        let cloud = join(self.repo_root.as_str(), "cloud");
        join(cloud.as_str(), self.gen_certs_script.as_str())
    }

    /// Whether two configurations hold the same settings, apart from the
    /// SAM port.
    pub open spec fn same_but_port(&self, other: &ProjectConfig) -> bool {
        &&& self.repo_root@ == other.repo_root@
        &&& self.device_dir@ == other.device_dir@
        &&& self.endpoint_dir@ == other.endpoint_dir@
        &&& self.cloud_dir@ == other.cloud_dir@
        &&& self.env_dev@ == other.env_dev@
        &&& self.env_staging@ == other.env_staging@
        &&& self.env_prod@ == other.env_prod@
        &&& self.log_dir@ == other.log_dir@
        &&& self.sam_ready_timeout == other.sam_ready_timeout
        &&& self.sam_log_file@ == other.sam_log_file@
        &&& self.sam_pid_file@ == other.sam_pid_file@
        &&& self.sam_config_env_dev@ == other.sam_config_env_dev@
        &&& self.sam_config_env_prod@ == other.sam_config_env_prod@
        &&& self.certs_dir_name@ == other.certs_dir_name@
        &&& self.gen_certs_script@ == other.gen_certs_script@
        &&& self.prod_api_endpoint@ == other.prod_api_endpoint@
    }

    /// A copy of the configuration with the SAM port set to `port`.
    pub fn with_port(&self, port: u16) -> (c: ProjectConfig)
        ensures
            c.same_but_port(self),
            c.sam_local_port == port,
    {
        ProjectConfig {
            repo_root: self.repo_root.clone(),
            device_dir: self.device_dir.clone(),
            endpoint_dir: self.endpoint_dir.clone(),
            cloud_dir: self.cloud_dir.clone(),
            env_dev: self.env_dev.clone(),
            env_staging: self.env_staging.clone(),
            env_prod: self.env_prod.clone(),
            log_dir: self.log_dir.clone(),
            sam_local_port: port,
            sam_ready_timeout: self.sam_ready_timeout,
            sam_log_file: self.sam_log_file.clone(),
            sam_pid_file: self.sam_pid_file.clone(),
            sam_config_env_dev: self.sam_config_env_dev.clone(),
            sam_config_env_prod: self.sam_config_env_prod.clone(),
            certs_dir_name: self.certs_dir_name.clone(),
            gen_certs_script: self.gen_certs_script.clone(),
            prod_api_endpoint: self.prod_api_endpoint.clone(),
        }
    }
}

} // verus!
