//! The AWS SAM commands of the pipelines: building, running `sam local`,
//! deploying, and finding a deployed stack's endpoint.
use vstd::prelude::*;
use crate::cli::config::{join, join_path, ProjectConfig};
use crate::cli::env::{copy_vars, lookup_var, vars_map};
use crate::cli::error::CliError;
use crate::cli::output::{Notice, NoticeLevel};
use crate::cli::runner::{opt_text, opt_vars, strings, BackgroundOptions, CommandOutput, RunOptions};
use crate::pattern::{
    contains_text, is_empty_text, join_spec, join_strings, str_contains, trim_text, text_with_number, texts_of, trim_char,
    trim_end_char, trim_end_matches, trim_matches,
};
use crate::text::{decimal, push_str, to_string, trim};

verus! {

/// Lambda variables for `sam local`: the SQLite store, as no DynamoDB runs
/// locally.
pub const LOCAL_ENV_OVERRIDES: &'static str = "{\"HelloWorldFunction\":{\"STORE_BACKEND\":\"sqlite\"}}";

/// A copy of an optional environment, with the same variables.
pub fn copy_env(env: &Option<Vec<(String, String)>>) -> (r: Option<Vec<(String, String)>>)
    ensures
        opt_vars(r) == opt_vars(*env),
{
    match env {
        Some(v) => Some(copy_vars(v)),
        None => None,
    }
}

/// The non-empty value of a variable of an optional environment.
pub open spec fn env_value(env: Option<Vec<(String, String)>>, key: Seq<char>) -> Option<Seq<char>> {
    match env {
        Some(v) => if vars_map(v@).contains_key(key) && vars_map(v@)[key].len() > 0 {
            Some(vars_map(v@)[key])
        } else {
            None
        },
        None => None,
    }
}

/// The non-empty value of a variable of an optional environment.
pub fn env_value_of(env: &Option<Vec<(String, String)>>, key: &str) -> (r: Option<String>)
    ensures
        match env_value(*env, key@) {
            Some(t) => r matches Some(s) && s@ == t,
            None => r is None,
        },
{
    match env {
        Some(v) => match lookup_var(v, key) {
            Some(s) => if !is_empty_text(s.as_str()) {
                Some(s)
            } else {
                None
            },
            None => None,
        },
        None => None,
    }
}

/// `flag` and the value, when there is a value.
pub open spec fn flag_args(flag: Seq<char>, v: Option<Seq<char>>) -> Seq<Seq<char>> {
    match v {
        Some(x) => seq![flag, x],
        None => Seq::empty(),
    }
}

/// `name=value`, when there is a value.
pub open spec fn param(name: Seq<char>, v: Option<Seq<char>>) -> Seq<Seq<char>> {
    match v {
        Some(x) => seq![name + "="@ + x],
        None => Seq::empty(),
    }
}

/// The CloudFormation parameters that the environment overrides.
pub open spec fn deploy_params(env: Option<Vec<(String, String)>>) -> Seq<Seq<char>> {
    param("Environment"@, env_value(env, "SAM_ENVIRONMENT"@)) + param("AppName"@, env_value(env, "SAM_APP_NAME"@))
        + param("StackName"@, env_value(env, "SAM_STACK_NAME"@)) + param(
        "TruststoreUri"@,
        env_value(env, "SAM_TRUSTSTORE_URI"@),
    )
}

/// The arguments of `sam deploy`: the config environment, the stack name,
/// region and S3 prefix that the environment sets, the parameters it
/// overrides, and `--force-upload` when asked.
pub open spec fn deploy_args(env: Option<Vec<(String, String)>>, config_env: Seq<char>, force_upload: bool) -> Seq<Seq<char>> {
    let params = deploy_params(env);
    seq!["sam"@, "deploy"@, "--config-env"@, config_env] + flag_args("--stack-name"@, env_value(env, "SAM_STACK_NAME"@))
        + flag_args("--region"@, env_value(env, "SAM_REGION"@)) + flag_args(
        "--s3-prefix"@,
        env_value(env, "SAM_S3_PREFIX"@),
    ) + (if params.len() > 0 {
        seq!["--parameter-overrides"@, join_spec(params, " "@)]
    } else {
        Seq::empty()
    }) + (if force_upload {
        seq!["--force-upload"@]
    } else {
        Seq::empty()
    })
}

/// The variables of the environment of a command.
pub open spec fn same_env(o: Option<Vec<(String, String)>>, env: Option<Vec<(String, String)>>) -> bool {
    opt_vars(o) == opt_vars(env)
}

fn push_flag(args: &mut Vec<String>, flag: &str, v: Option<String>)
    ensures
        texts_of(final(args)@) == texts_of(old(args)@) + flag_args(
            flag@,
            match v {
                Some(s) => Some(s@),
                None => None,
            },
        ),
{
    let ghost before = texts_of(args@);
    match v {
        Some(s) => {
            args.push(to_string(flag));
            args.push(s);
        },
        None => {},
    }
    assert(texts_of(args@) =~= before + flag_args(
        flag@,
        match v {
            Some(s) => Some(s@),
            None => None,
        },
    ));
}

fn push_param(params: &mut Vec<String>, name: &str, v: Option<String>)
    ensures
        texts_of(final(params)@) == texts_of(old(params)@) + param(
            name@,
            match v {
                Some(s) => Some(s@),
                None => None,
            },
        ),
{
    let ghost before = texts_of(params@);
    match v {
        Some(s) => {
            let mut p = to_string(name);
            push_str(&mut p, "=");
            push_str(&mut p, s.as_str());
            params.push(p);
        },
        None => {},
    }
    assert(texts_of(params@) =~= before + param(
        name@,
        match v {
            Some(s) => Some(s@),
            None => None,
        },
    ));
}

/// `uv export` of the runtime dependencies, in `cloud/uplink`, logged to
/// `uv_export.log`.
pub open spec fn is_export_run(sam: SamLocal, c: Vec<String>, o: RunOptions) -> bool {
    &&& texts_of(c@) == seq!["uv"@, "export"@, "--no-dev"@, "--no-hashes"@, "-o"@, "requirements.txt"@]
    &&& opt_text(o.cwd) == Some(join_path(sam.config.cloud_dir@, "uplink"@))
    &&& same_env(o.env, sam.env)
    &&& o.check && !o.capture && o.verbose == sam.verbose && o.dry_run == sam.dry_run
    &&& opt_text(o.log_to) == Some(join_path(sam.config.log_dir@, "uv_export.log"@))
}

/// `sam build` (with `--no-cached` when asked), in `cloud`, logged to
/// `sam_build.log`.
pub open spec fn is_build_run(sam: SamLocal, no_cache: bool, c: Vec<String>, o: RunOptions) -> bool {
    &&& texts_of(c@) == seq!["sam"@, "build"@, "--skip-pull-image"@] + (if no_cache {
        seq!["--no-cached"@]
    } else {
        Seq::empty()
    })
    &&& opt_text(o.cwd) == Some(sam.config.cloud_dir@)
    &&& same_env(o.env, sam.env)
    &&& o.check && !o.capture && o.verbose == sam.verbose && o.dry_run == sam.dry_run
    &&& opt_text(o.log_to) == Some(join_path(sam.config.log_dir@, "sam_build.log"@))
}

/// `sam local start-api` on the configured port with the Lambda variables
/// of `env_file`, then `extra`, in `cloud`, logging to the SAM log file.
pub open spec fn is_start_command(sam: SamLocal, env_file: Seq<char>, extra: Seq<Seq<char>>, c: Vec<String>, o: BackgroundOptions) -> bool {
    &&& texts_of(c@) == seq![
        "sam"@,
        "local"@,
        "start-api"@,
        "--port"@,
        decimal(sam.config.sam_local_port as nat),
        "--skip-pull-image"@,
        "--env-vars"@,
        env_file,
    ] + extra
    &&& opt_text(o.cwd) == Some(sam.config.cloud_dir@)
    &&& same_env(o.env, sam.env)
    &&& opt_text(o.log_file) == Some(sam.config.sam_log_file@)
    &&& o.verbose == sam.verbose && o.dry_run == sam.dry_run
}

/// The log file of a deployment to `config_env`.
pub open spec fn deploy_log(sam: SamLocal, config_env: Seq<char>) -> Seq<char> {
    join_path(sam.config.log_dir@, "sam_deploy_"@ + config_env + ".log"@)
}

/// `sam deploy` for `config_env`, in `cloud`, unchecked, logged.
pub open spec fn is_deploy_run(sam: SamLocal, config_env: Seq<char>, force_upload: bool, c: Vec<String>, o: RunOptions) -> bool {
    &&& texts_of(c@) == deploy_args(sam.env, config_env, force_upload)
    &&& opt_text(o.cwd) == Some(sam.config.cloud_dir@)
    &&& same_env(o.env, sam.env)
    &&& !o.check && !o.capture && o.verbose == sam.verbose && o.dry_run == sam.dry_run
    &&& opt_text(o.log_to) == Some(deploy_log(sam, config_env))
}

/// The captured query of a stack's API endpoint output.
pub open spec fn is_endpoint_query(stack_name: Seq<char>, env: Option<Vec<(String, String)>>, verbose: bool, c: Vec<String>, o: RunOptions) -> bool {
    &&& texts_of(c@) == seq![
        "aws"@,
        "cloudformation"@,
        "describe-stacks"@,
        "--stack-name"@,
        stack_name,
        "--query"@,
        "Stacks[0].Outputs[?OutputKey=='SupervictorApiEndpoint'].OutputValue"@,
        "--output"@,
        "text"@,
    ]
    &&& o.cwd is None && o.log_to is None
    &&& same_env(o.env, env)
    &&& o.check && o.capture && o.verbose == verbose && !o.dry_run
}

/// The SAM commands of a project, run with an environment.
pub struct SamLocal<'a> {
    pub config: &'a ProjectConfig,
    pub env: Option<Vec<(String, String)>>,
    pub verbose: bool,
    pub dry_run: bool,
}

impl<'a> SamLocal<'a> {
    /// The SAM commands of `config`, run with `env`.
    pub fn new(config: &'a ProjectConfig, env: Option<Vec<(String, String)>>, verbose: bool, dry_run: bool) -> (s: SamLocal<'a>)
        ensures
            s.config == config,
            s.env == env,
            s.verbose == verbose,
            s.dry_run == dry_run,
    {
        SamLocal { config, env, verbose, dry_run }
    }

    /// The address of `sam local`.
    pub fn url(&self) -> (u: String)
        ensures
            u@ == "http://localhost:"@ + decimal(self.config.sam_local_port as nat),
    {
        text_with_number("http://localhost:", self.config.sam_local_port as u64)
    }

    /// `uv export` of the runtime dependencies, in `cloud/uplink`, logged to
    /// `uv_export.log`.
    pub fn export_run(&self) -> (r: (Vec<String>, RunOptions))
        ensures
            is_export_run(*self, r.0, r.1),
    {
        let cmd = strings(&["uv", "export", "--no-dev", "--no-hashes", "-o", "requirements.txt"]);
        assert(texts_of(cmd@) =~= seq!["uv"@, "export"@, "--no-dev"@, "--no-hashes"@, "-o"@, "requirements.txt"@]);
        let opts = RunOptions {
            cwd: Some(join(self.config.cloud_dir.as_str(), "uplink")),
            env: copy_env(&self.env),
            check: true,
            capture: false,
            verbose: self.verbose,
            dry_run: self.dry_run,
            log_to: Some(join(self.config.log_dir.as_str(), "uv_export.log")),
        };
        (cmd, opts)
    }

    /// `sam build`, in `cloud`, logged to `sam_build.log`; `--no-cached`
    /// when the cache is not to be used.
    pub fn build_run(&self, no_cache: bool) -> (r: (Vec<String>, RunOptions))
        ensures
            is_build_run(*self, no_cache, r.0, r.1),
    {
        let mut cmd = strings(&["sam", "build", "--skip-pull-image"]);
        if no_cache {
            cmd.push(to_string("--no-cached"));
        }
        assert(texts_of(cmd@) =~= seq!["sam"@, "build"@, "--skip-pull-image"@] + (if no_cache {
            seq!["--no-cached"@]
        } else {
            Seq::empty()
        }));
        let opts = RunOptions {
            cwd: Some(self.config.cloud_dir.clone()),
            env: copy_env(&self.env),
            check: true,
            capture: false,
            verbose: self.verbose,
            dry_run: self.dry_run,
            log_to: Some(join(self.config.log_dir.as_str(), "sam_build.log")),
        };
        (cmd, opts)
    }

    /// `sam local start-api` on the configured port with the Lambda
    /// variables of `env_file`, then `extra`; in `cloud`, logging to the
    /// SAM log file.
    pub fn start_command(&self, env_file: &str, extra: &Vec<String>) -> (r: (Vec<String>, BackgroundOptions))
        ensures
            is_start_command(*self, env_file@, texts_of(extra@), r.0, r.1),
    {
        let mut cmd = strings(&["sam", "local", "start-api", "--port"]);
        cmd.push(text_with_number("", self.config.sam_local_port as u64));
        cmd.push(to_string("--skip-pull-image"));
        cmd.push(to_string("--env-vars"));
        cmd.push(to_string(env_file));
        let ghost head = texts_of(cmd@);
        let mut i: usize = 0;
        while i < extra.len()
            invariant
                i <= extra.len(),
                texts_of(cmd@) == head + texts_of(extra@.take(i as int)),
            decreases extra.len() - i,
        {
            let ghost before = cmd@;
            let x = extra[i].clone();
            assert(x@ == extra@[i as int]@);
            cmd.push(x);
            assert(texts_of(cmd@) =~= texts_of(before).push(extra@[i as int]@));
            assert(texts_of(extra@.take(i + 1)) =~= texts_of(extra@.take(i as int)).push(extra@[i as int]@));
            assert(texts_of(cmd@) =~= head + texts_of(extra@.take(i + 1)));
            i += 1;
        }
        assert(extra@.take(extra.len() as int) =~= extra@);
        proof {
            reveal_strlit("");
        }
        assert(""@ + decimal(self.config.sam_local_port as nat) =~= decimal(self.config.sam_local_port as nat));
        assert(head =~= seq![
            "sam"@,
            "local"@,
            "start-api"@,
            "--port"@,
            decimal(self.config.sam_local_port as nat),
            "--skip-pull-image"@,
            "--env-vars"@,
            env_file@,
        ]);
        let opts = BackgroundOptions {
            cwd: Some(self.config.cloud_dir.clone()),
            env: copy_env(&self.env),
            log_file: Some(self.config.sam_log_file.clone()),
            verbose: self.verbose,
            dry_run: self.dry_run,
        };
        (cmd, opts)
    }

    /// The error when `sam local` does not answer in time.
    pub fn ready_timeout(&self) -> (e: CliError)
        ensures
            e matches CliError::Timeout { message } && message@ == "sam local did not start within "@ + decimal(
                self.config.sam_ready_timeout as nat,
            ) + "s. Check logs: "@ + self.config.sam_log_file@,
    {
        let mut m = text_with_number("sam local did not start within ", self.config.sam_ready_timeout);
        push_str(&mut m, "s. Check logs: ");
        push_str(&mut m, self.config.sam_log_file.as_str());
        CliError::Timeout { message: m }
    }

    /// `sam deploy` for `config_env`, in `cloud`, unchecked, logged to
    /// `sam_deploy_<env>.log`.
    pub fn deploy_run(&self, config_env: &str, force_upload: bool) -> (r: (Vec<String>, RunOptions))
        ensures
            is_deploy_run(*self, config_env@, force_upload, r.0, r.1),
    {
        let mut cmd = strings(&["sam", "deploy", "--config-env", config_env]);
        assert(texts_of(cmd@) =~= seq!["sam"@, "deploy"@, "--config-env"@, config_env@]);
        push_flag(&mut cmd, "--stack-name", env_value_of(&self.env, "SAM_STACK_NAME"));
        push_flag(&mut cmd, "--region", env_value_of(&self.env, "SAM_REGION"));
        push_flag(&mut cmd, "--s3-prefix", env_value_of(&self.env, "SAM_S3_PREFIX"));
        let mut params: Vec<String> = Vec::new();
        push_param(&mut params, "Environment", env_value_of(&self.env, "SAM_ENVIRONMENT"));
        push_param(&mut params, "AppName", env_value_of(&self.env, "SAM_APP_NAME"));
        push_param(&mut params, "StackName", env_value_of(&self.env, "SAM_STACK_NAME"));
        push_param(&mut params, "TruststoreUri", env_value_of(&self.env, "SAM_TRUSTSTORE_URI"));
        assert(texts_of(params@) =~= deploy_params(self.env));
        let ghost before = texts_of(cmd@);
        if params.len() > 0 {
            cmd.push(to_string("--parameter-overrides"));
            cmd.push(join_strings(&params, " "));
        }
        let ghost mid = texts_of(cmd@);
        assert(mid =~= before + (if texts_of(params@).len() > 0 {
            seq!["--parameter-overrides"@, join_spec(texts_of(params@), " "@)]
        } else {
            Seq::empty()
        }));
        if force_upload {
            cmd.push(to_string("--force-upload"));
        }
        assert(texts_of(cmd@) =~= mid + (if force_upload {
            seq!["--force-upload"@]
        } else {
            Seq::empty()
        }));
        assert(texts_of(cmd@) =~= deploy_args(self.env, config_env@, force_upload));
        let mut log = to_string("sam_deploy_");
        push_str(&mut log, config_env);
        push_str(&mut log, ".log");
        let opts = RunOptions {
            cwd: Some(self.config.cloud_dir.clone()),
            env: copy_env(&self.env),
            check: false,
            capture: false,
            verbose: self.verbose,
            dry_run: self.dry_run,
            log_to: Some(join(self.config.log_dir.as_str(), log.as_str())),
        };
        (cmd, opts)
    }
}

/// What a finished `sam deploy` means: deployed on success; up to date
/// when its output says there were no changes; otherwise an error naming
/// the command, with a message pointing at the log.
pub fn deploy_outcome(cmd: &Vec<String>, config_env: &str, log_path: &str, output: CommandOutput) -> (r: (
    Notice,
    Result<bool, CliError>,
))
    ensures
        output.status == 0 ==> r.0.level == NoticeLevel::Success && r.0.text@ == "Deployed to "@ + config_env@
            && r.1 == Ok::<bool, CliError>(true),
        output.status != 0 && contains_text(output.stdout@ + output.stderr@, "No changes to deploy"@) ==> r.0.level
            == NoticeLevel::Success && r.0.text@ == "Stack is already up to date."@ && r.1 == Ok::<bool, CliError>(
            false,
        ),
        output.status != 0 && !contains_text(output.stdout@ + output.stderr@, "No changes to deploy"@) ==> r.0.level
            == NoticeLevel::Error && r.0.text@ == "sam deploy failed (see "@ + log_path@ + ")"@ && (r.1 matches Err(
            CliError::Command { cmd: c, code, stderr },
        ) && c@ == join_spec(texts_of(cmd@), " "@) && code == output.status && stderr@ == output.stderr@),
{
    if output.status == 0 {
        let mut t = to_string("Deployed to ");
        push_str(&mut t, config_env);
        return (Notice { level: NoticeLevel::Success, text: t }, Ok(true));
    }
    let mut combined = output.stdout.clone();
    push_str(&mut combined, output.stderr.as_str());
    if str_contains(combined.as_str(), "No changes to deploy") {
        return (Notice { level: NoticeLevel::Success, text: to_string("Stack is already up to date.") }, Ok(false));
    }
    let mut t = to_string("sam deploy failed (see ");
    push_str(&mut t, log_path);
    push_str(&mut t, ")");
    (
        Notice { level: NoticeLevel::Error, text: t },
        Err(CliError::Command { cmd: join_strings(cmd, " "), code: output.status, stderr: output.stderr }),
    )
}

/// The endpoint that `sam_deploy` reports in a dry run.
pub fn dry_run_endpoint(config_env: &str) -> (u: String)
    ensures
        u@ == "https://DRY-RUN.execute-api.us-east-1.amazonaws.com/"@ + config_env@,
{
    let mut u = to_string("https://DRY-RUN.execute-api.us-east-1.amazonaws.com/");
    push_str(&mut u, config_env);
    u
}

/// The query of a stack's API endpoint output, captured.
pub fn endpoint_query(stack_name: &str, env: &Option<Vec<(String, String)>>, verbose: bool) -> (r: (Vec<String>, RunOptions))
    ensures
        is_endpoint_query(stack_name@, *env, verbose, r.0, r.1),
{
    let cmd = strings(
        &[
            "aws",
            "cloudformation",
            "describe-stacks",
            "--stack-name",
            stack_name,
            "--query",
            "Stacks[0].Outputs[?OutputKey=='SupervictorApiEndpoint'].OutputValue",
            "--output",
            "text",
        ],
    );
    assert(texts_of(cmd@) =~= seq![
        "aws"@,
        "cloudformation"@,
        "describe-stacks"@,
        "--stack-name"@,
        stack_name@,
        "--query"@,
        "Stacks[0].Outputs[?OutputKey=='SupervictorApiEndpoint'].OutputValue"@,
        "--output"@,
        "text"@,
    ]);
    let opts = RunOptions {
        cwd: None,
        env: copy_env(env),
        check: true,
        capture: true,
        verbose,
        dry_run: false,
        log_to: None,
    };
    (cmd, opts)
}

/// The endpoint that the stack query printed: trimmed, without trailing
/// slashes; an error naming the stack when there is none.
pub fn endpoint_from_output(stack_name: &str, stdout: &str) -> (r: Result<String, CliError>)
    ensures
        trim_end_char(trim(stdout@), '/').len() > 0 ==> (r matches Ok(u) && u@ == trim_end_char(trim(stdout@), '/')),
        trim_end_char(trim(stdout@), '/').len() == 0 ==> (r matches Err(CliError::Config(m)) && m@
            == "no SupervictorApiEndpoint output found for stack '"@ + stack_name@ + "'"@),
{
    let t = trim_text(stdout);
    let u = trim_end_matches(t.as_str(), '/');
    if is_empty_text(u.as_str()) {
        let mut m = to_string("no SupervictorApiEndpoint output found for stack '");
        push_str(&mut m, stack_name);
        push_str(&mut m, "'");
        Err(CliError::Config(m))
    } else {
        Ok(u)
    }
}

/// Whether parsing `doc` as a TOML document fails, with toml's message
/// (toml's `Value` from `str::parse`).
pub uninterp spec fn toml_parse_error(doc: Seq<char>) -> Option<Seq<char>>;

/// The string that the TOML document `doc` holds at the key path `path`,
/// if it parses and holds a string there (toml's `Value::get` along the
/// path, then `Value::as_str`).
pub uninterp spec fn toml_string_at(doc: Seq<char>, path: Seq<Seq<char>>) -> Option<Seq<char>>;

/// Parses `doc` as a TOML document (toml's `FromStr` for `Value`) and
/// reads the string at the key path `k1.k2.k3.k4` (`Value::get` for each
/// key, then `Value::as_str`). The contract claims that the result is
/// determined by the document and the keys: toml's error message when
/// parsing fails, the string when one is there, `None` otherwise.
#[verifier::external_body]
fn toml_string_at_keys(doc: &str, k1: &str, k2: &str, k3: &str, k4: &str) -> (r: Result<Option<String>, String>)
    ensures
        match toml_parse_error(doc@) {
            Some(m) => r matches Err(e) && e@ == m,
            None => match toml_string_at(doc@, seq![k1@, k2@, k3@, k4@]) {
                Some(s) => r matches Ok(Some(t)) && t@ == s,
                None => r matches Ok(None),
            },
        },
{
    let data: toml::Value = doc.parse().map_err(|e: toml::de::Error| e.to_string())?;
    Ok(data.get(k1).and_then(|v| v.get(k2)).and_then(|v| v.get(k3)).and_then(|v| v.get(k4)).and_then(|v| v.as_str()).map(
        |t| t.to_string(),
    ))
}

/// The stack name that `samconfig.toml` gives for `config_env`: that of
/// its `deploy` parameters, else of its `global` parameters, with
/// surrounding double quotes removed.
pub open spec fn samconfig_stack_name(doc: Seq<char>, config_env: Seq<char>) -> Option<Seq<char>> {
    match toml_string_at(doc, seq![config_env, "deploy"@, "parameters"@, "stack_name"@]) {
        Some(s) => Some(trim_char(s, '"')),
        None => match toml_string_at(doc, seq![config_env, "global"@, "parameters"@, "stack_name"@]) {
            Some(s) => Some(trim_char(s, '"')),
            None => None,
        },
    }
}

/// The stack name of `config_env` in the text of `samconfig.toml`: a
/// configuration error when the text is not TOML or names no stack.
pub fn stack_name_from_samconfig(doc: &str, config_env: &str) -> (r: Result<String, CliError>)
    ensures
        match toml_parse_error(doc@) {
            Some(m) => r matches Err(CliError::Config(t)) && t@ == "failed to parse samconfig.toml: "@ + m,
            None => match samconfig_stack_name(doc@, config_env@) {
                Some(s) => r matches Ok(t) && t@ == s,
                None => r matches Err(CliError::Config(t)) && t@ == "no stack_name found in samconfig.toml for config-env '"@
                    + config_env@ + "'"@,
            },
        },
{
    match toml_string_at_keys(doc, config_env, "deploy", "parameters", "stack_name") {
        Err(e) => {
            let mut m = to_string("failed to parse samconfig.toml: ");
            push_str(&mut m, e.as_str());
            Err(CliError::Config(m))
        },
        Ok(Some(s)) => Ok(trim_matches(s.as_str(), '"')),
        Ok(None) => match toml_string_at_keys(doc, config_env, "global", "parameters", "stack_name") {
            Ok(Some(s)) => Ok(trim_matches(s.as_str(), '"')),
            _ => {
                let mut m = to_string("no stack_name found in samconfig.toml for config-env '");
                push_str(&mut m, config_env);
                push_str(&mut m, "'");
                Err(CliError::Config(m))
            },
        },
    }
}

/// The PID recorded in a PID file's text: the trimmed text, unless empty.
pub fn pid_to_stop(contents: &str) -> (r: Option<String>)
    ensures
        trim(contents@).len() > 0 ==> (r matches Some(p) && p@ == trim(contents@)),
        trim(contents@).len() == 0 ==> r is None,
{
    let t = trim_text(contents);
    if is_empty_text(t.as_str()) {
        None
    } else {
        Some(t)
    }
}

} // verus!
