//! Errors of the CLI and their messages.
use vstd::prelude::*;
use crate::pattern::{int_text, join_spec, join_strings, push_i64, texts_of};
use crate::text::{push_str, to_string};

verus! {

/// Errors of the CLI's commands.
#[derive(Debug)]
pub enum CliError {
    /// A command exited with a non-zero status.
    Command { cmd: String, code: i32, stderr: String },
    /// Required tools are not on the path.
    MissingTools(Vec<String>),
    /// The Docker daemon does not answer.
    DockerNotRunning,
    /// A configuration problem, described by the text.
    Config(String),
    /// Something did not happen in time.
    Timeout { message: String },
    /// A file or process operation failed.
    Io(String),
}

/// The message of an error.
pub open spec fn cli_message(e: CliError) -> Seq<char> {
    match e {
        CliError::Command { cmd, code, .. } => "command failed with exit code "@ + int_text(code as int) + ": "@ + cmd@,
        CliError::MissingTools(tools) => "missing required tools: "@ + join_spec(texts_of(tools@), ", "@),
        CliError::DockerNotRunning => "Docker daemon is not running"@,
        CliError::Config(m) => m@,
        CliError::Timeout { message } => message@,
        CliError::Io(m) => "I/O error: "@ + m@,
    }
}

impl CliError {
    /// The error's message.
    pub fn message(&self) -> (m: String)
        ensures
            m@ == cli_message(*self),
    {
        match self {
            CliError::Command { cmd, code, .. } => {
                let mut m = to_string("command failed with exit code ");
                push_i64(&mut m, *code as i64);
                push_str(&mut m, ": ");
                push_str(&mut m, cmd.as_str());
                m
            },
            CliError::MissingTools(tools) => {
                let mut m = to_string("missing required tools: ");
                let list = join_strings(tools, ", ");
                push_str(&mut m, list.as_str());
                m
            },
            CliError::DockerNotRunning => to_string("Docker daemon is not running"),
            CliError::Config(m) => m.clone(),
            CliError::Timeout { message } => message.clone(),
            CliError::Io(m) => {
                let mut t = to_string("I/O error: ");
                push_str(&mut t, m.as_str());
                t
            },
        }
    }
}

} // verus!
