//! `qs ping`: an mTLS GET to see that a server is up.
use vstd::prelude::*;
use crate::cli::commands::PingArgs;
use crate::cli::config::{join, join_path};
use crate::cli::output::{notices_view, Notice, NoticeLevel};
use crate::cli::pipeline::push_notice;
use crate::pattern::{push_u64, text_with_number};
use crate::text::{decimal, push_str, to_string};

verus! {

/// What a ping uses: the address and the client's certificate files.
pub struct PingPlan {
    pub url: String,
    pub client_cert: String,
    pub client_key: String,
    pub ca: Option<String>,
}

/// The certificates directory of a ping: the given one, else the test
/// device's.
pub open spec fn ping_cert_dir(certs: Option<String>, repo_root: Seq<char>) -> Seq<char> {
    match certs {
        Some(d) => d@,
        None => join_path(repo_root, "certs/devices/test-device"@),
    }
}

/// The address of a ping.
pub open spec fn ping_url(host: Seq<char>, port: u16) -> Seq<char> {
    "https://"@ + host + ":"@ + decimal(port as nat) + "/"@
}

/// The address and certificate files of a ping.
pub fn ping_plan(args: &PingArgs, repo_root: &str) -> (p: PingPlan)
    ensures
        p.url@ == ping_url(args.host@, args.port),
        p.client_cert@ == join_path(ping_cert_dir(args.certs, repo_root@), "client.pem"@),
        p.client_key@ == join_path(ping_cert_dir(args.certs, repo_root@), "client.key"@),
        p.ca == args.ca,
{
    let dir = match &args.certs {
        Some(d) => d.clone(),
        None => join(repo_root, "certs/devices/test-device"),
    };
    let mut url = to_string("https://");
    push_str(&mut url, args.host.as_str());
    push_str(&mut url, ":");
    push_u64(&mut url, args.port as u64);
    push_str(&mut url, "/");
    PingPlan {
        url,
        client_cert: join(dir.as_str(), "client.pem"),
        client_key: join(dir.as_str(), "client.key"),
        ca: args.ca.clone(),
    }
}

/// Before the request: the client certificate, its key and a given CA must
/// exist (the first missing one is reported, with status 1); then the ping
/// is announced, and a dry run stops there with status 0.
pub fn ping_preflight(plan: &PingPlan, cert_exists: bool, key_exists: bool, ca_exists: bool, dry_run: bool) -> (r: (
    Vec<Notice>,
    Option<i32>,
))
    ensures
        !cert_exists ==> notices_view(r.0@) == seq![(NoticeLevel::Error, "client cert not found at "@ + plan.client_cert@)]
            && r.1 == Some(1i32),
        cert_exists && !key_exists ==> notices_view(r.0@) == seq![
            (NoticeLevel::Error, "client key not found at "@ + plan.client_key@),
        ] && r.1 == Some(1i32),
        cert_exists && key_exists && plan.ca is Some && !ca_exists ==> notices_view(r.0@) == seq![
            (NoticeLevel::Error, "CA cert not found at "@ + plan.ca->0@),
        ] && r.1 == Some(1i32),
        cert_exists && key_exists && (plan.ca is None || ca_exists) ==> if dry_run {
            notices_view(r.0@) == seq![
                (NoticeLevel::Step, "Pinging "@ + plan.url@),
                (NoticeLevel::Plain, "  [dry-run] GET "@ + plan.url@),
            ] && r.1 == Some(0i32)
        } else {
            notices_view(r.0@) == seq![(NoticeLevel::Step, "Pinging "@ + plan.url@)] && r.1 is None
        },
{
    let mut v: Vec<Notice> = Vec::new();
    if !cert_exists {
        let mut t = to_string("client cert not found at ");
        push_str(&mut t, plan.client_cert.as_str());
        push_notice(&mut v, NoticeLevel::Error, t);
        return (v, Some(1));
    }
    if !key_exists {
        let mut t = to_string("client key not found at ");
        push_str(&mut t, plan.client_key.as_str());
        push_notice(&mut v, NoticeLevel::Error, t);
        return (v, Some(1));
    }
    if let Some(ca) = &plan.ca {
        if !ca_exists {
            let mut t = to_string("CA cert not found at ");
            push_str(&mut t, ca.as_str());
            push_notice(&mut v, NoticeLevel::Error, t);
            return (v, Some(1));
        }
    }
    let mut t = to_string("Pinging ");
    push_str(&mut t, plan.url.as_str());
    push_notice(&mut v, NoticeLevel::Step, t);
    if dry_run {
        let mut d = to_string("  [dry-run] GET ");
        push_str(&mut d, plan.url.as_str());
        push_notice(&mut v, NoticeLevel::Plain, d);
        return (v, Some(0));
    }
    (v, None)
}

/// What the GET gave.
pub enum PingOutcome {
    /// An answer with this status and body.
    Answered(u16, String),
    /// An error status.
    ErrorStatus(u16),
    /// No answer, for this reason.
    Failed(String),
}

/// What a ping shows and its exit status: any answer is a success.
pub fn ping_result(outcome: PingOutcome) -> (r: (Vec<Notice>, i32))
    ensures
        match outcome {
            PingOutcome::Answered(s, body) => notices_view(r.0@) == seq![
                (NoticeLevel::Success, "Status: "@ + decimal(s as nat)),
                (NoticeLevel::Plain, body@),
            ] && r.1 == 0,
            PingOutcome::ErrorStatus(s) => notices_view(r.0@) == seq![(NoticeLevel::Success, "Status: "@ + decimal(s as nat))]
                && r.1 == 0,
            PingOutcome::Failed(why) => notices_view(r.0@) == seq![(NoticeLevel::Error, "Error: "@ + why@)] && r.1 == 1,
        },
{
    let mut v: Vec<Notice> = Vec::new();
    match outcome {
        PingOutcome::Answered(s, body) => {
            push_notice(&mut v, NoticeLevel::Success, text_with_number("Status: ", s as u64));
            push_notice(&mut v, NoticeLevel::Plain, body);
            (v, 0)
        },
        PingOutcome::ErrorStatus(s) => {
            push_notice(&mut v, NoticeLevel::Success, text_with_number("Status: ", s as u64));
            (v, 0)
        },
        PingOutcome::Failed(why) => {
            let mut t = to_string("Error: ");
            push_str(&mut t, why.as_str());
            push_notice(&mut v, NoticeLevel::Error, t);
            (v, 1)
        },
    }
}

} // verus!
