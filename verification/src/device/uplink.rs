//! The device's uplink task as a state machine: wait for the network link
//! and an address, resolve the endpoint's host, then over and over connect,
//! open a TLS session, send the uplink as an HTTP POST and read the answer.
//! Every failure is reported and retried after a pause.
use vstd::prelude::*;
use crate::device::http::{post_request, post_request_text, JSON_BODY_CAPACITY, POST_REQUEST_CAPACITY};
use crate::device::error::HttpError;
use crate::pattern::{push_u64, text_with_number};
use crate::text::{decimal, push_str, to_string, utf8_len};

verus! {

/// Milliseconds between checks of the network status.
pub const NETWORK_STATUS_POLL_MS: u64 = 2000;
/// Milliseconds of the pause after each round or failure.
pub const MAIN_LOOP_DELAY_MS: u64 = 5000;
/// The endpoint's port.
pub const ENDPOINT_PORT: u16 = 443;
/// Seconds allowed for the TLS handshake.
pub const TLS_HANDSHAKE_TIMEOUT_SECS: u64 = 15;
/// Seconds allowed for reading the answer.
pub const HTTP_READ_TIMEOUT_SECS: u64 = 5;

/// What the driver does next.
pub enum UplinkAction {
    /// Wait this many milliseconds: `Slept`.
    Sleep(u64),
    /// Whether the network link is up: `LinkUp`.
    CheckLink,
    /// Whether the interface has an IPv4 address: `HasAddress`.
    CheckAddress,
    /// Resolve the host's A records: `Resolved`.
    Resolve(String),
    /// Load the TLS client configuration: `Loaded`.
    LoadCertificates,
    /// Open a TCP connection: `Connected`.
    Connect([u8; 4], u16),
    /// Create a TLS session over it: `SessionOpened`.
    OpenSession,
    /// Run the TLS handshake within this many seconds: `Handshaken`.
    Handshake(u64),
    /// Write the request: `Sent`.
    Send(String),
    /// Read the answer within this many seconds: `ReadDone`.
    Read(u64),
}

/// How a handshake or a read went when it did not succeed.
pub enum Failure {
    /// It failed, for this reason.
    Error(String),
    /// It did not finish in time.
    TimedOut,
}

/// How an operation went.
pub enum UplinkEvent {
    Slept,
    LinkUp(bool),
    HasAddress(bool),
    Resolved(Result<Vec<[u8; 4]>, String>),
    Loaded,
    Connected(Result<(), String>),
    SessionOpened(Result<(), String>),
    Handshaken(Result<(), Failure>),
    Sent(Result<usize, String>),
    /// The answer's length, and its text when it is UTF-8.
    ReadDone(Result<(usize, Option<String>), Failure>),
}

/// Where the task stands.
#[derive(Debug, Clone, Copy, PartialEq, Eq, Structural)]
pub enum UplinkStage {
    /// Pausing before checking the link.
    LinkPause,
    /// Checking the link.
    Link,
    /// Pausing before checking the address.
    AddressPause,
    /// Checking the address.
    Address,
    /// Resolving the host.
    Resolving,
    /// Pausing before resolving again.
    ResolvePause,
    /// Loading the TLS configuration.
    Loading,
    /// Connecting.
    Connecting,
    /// Opening the TLS session.
    Opening,
    /// Running the handshake.
    Handshaking,
    /// Sending the request.
    Sending,
    /// Reading the answer.
    Reading,
    /// Pausing before connecting again.
    ConnectPause,
}

/// The uplink task.
pub struct Uplink {
    pub host: String,
    /// The uplink message as JSON, when it serialized.
    pub json: Option<String>,
    /// Whether an answer's text is shown, rather than its length.
    pub show_text: bool,
    /// The endpoint's address, once resolved.
    pub address: [u8; 4],
    /// The length of the request being sent.
    pub request_len: usize,
    pub stage: UplinkStage,
}

/// One step: messages to print, the task's next state, and the operation.
pub struct UplinkStep {
    pub messages: Vec<String>,
    pub action: UplinkAction,
}

/// Start the task: pause before the first link check.
pub fn uplink_start(host: String, json: Option<String>, show_text: bool) -> (r: (Uplink, UplinkStep))
    ensures
        r.0.host == host && r.0.json == json && r.0.show_text == show_text && r.0.stage == UplinkStage::LinkPause,
        r.1.messages@.len() == 0 && r.1.action == UplinkAction::Sleep(NETWORK_STATUS_POLL_MS),
{
    (
        Uplink { host, json, show_text, address: [0, 0, 0, 0], request_len: 0, stage: UplinkStage::LinkPause },
        UplinkStep { messages: Vec::new(), action: UplinkAction::Sleep(NETWORK_STATUS_POLL_MS) },
    )
}

/// The texts of messages.
pub open spec fn texts(v: Seq<String>) -> Seq<Seq<char>> {
    v.map_values(|s: String| s@)
}

/// The request the task sends.
pub open spec fn uplink_request(u: Uplink) -> Seq<char> {
    post_request_text(
        u.host@,
        "/"@,
        match u.json {
            Some(j) => if utf8_len(j@) <= JSON_BODY_CAPACITY {
                Some(j@)
            } else {
                None
            },
            None => None,
        },
    )
}

/// The events that the task waits for.
pub open spec fn uplink_expects(u: Uplink, e: UplinkEvent) -> bool {
    match u.stage {
        UplinkStage::LinkPause | UplinkStage::AddressPause | UplinkStage::ResolvePause | UplinkStage::ConnectPause => e is Slept,
        UplinkStage::Link => e is LinkUp,
        UplinkStage::Address => e is HasAddress,
        UplinkStage::Resolving => e is Resolved,
        UplinkStage::Loading => e is Loaded,
        UplinkStage::Connecting => e is Connected,
        UplinkStage::Opening => e is SessionOpened,
        UplinkStage::Handshaking => e is Handshaken,
        UplinkStage::Sending => e is Sent,
        UplinkStage::Reading => e is ReadDone,
    }
}

/// The task moves to `stage` after showing `messages`, asking for `a`.
pub open spec fn moves(u: Uplink, r: (Uplink, UplinkStep), stage: UplinkStage, messages: Seq<Seq<char>>, a: UplinkAction) -> bool {
    r.0.host == u.host && r.0.json == u.json && r.0.show_text == u.show_text && r.0.stage == stage && texts(r.1.messages@)
        =~= messages && r.1.action == a
}

/// The task keeps its address.
pub open spec fn keeps(u: Uplink, r: (Uplink, UplinkStep)) -> bool {
    r.0.address == u.address
}

/// A failure, reported, then a pause before connecting again.
pub open spec fn retries(u: Uplink, r: (Uplink, UplinkStep), message: Seq<char>) -> bool {
    moves(u, r, UplinkStage::ConnectPause, seq![message], UplinkAction::Sleep(MAIN_LOOP_DELAY_MS)) && keeps(u, r)
}

/// What a failed read is reported as.
pub open spec fn read_failure(f: Failure) -> Seq<char> {
    match f {
        Failure::Error(why) => "   Read failed: "@ + why@,
        Failure::TimedOut => "   Read timed out"@,
    }
}

/// The task's step for an event.
pub open spec fn uplink_steps(u: Uplink, e: UplinkEvent, r: (Uplink, UplinkStep)) -> bool {
    match u.stage {
        UplinkStage::LinkPause => moves(u, r, UplinkStage::Link, Seq::empty(), UplinkAction::CheckLink),
        UplinkStage::Link => match e {
            UplinkEvent::LinkUp(true) => moves(u, r, UplinkStage::AddressPause, Seq::empty(), UplinkAction::Sleep(NETWORK_STATUS_POLL_MS)),
            _ => moves(u, r, UplinkStage::LinkPause, seq!["Initializing network stack..."@], UplinkAction::Sleep(NETWORK_STATUS_POLL_MS)),
        },
        UplinkStage::AddressPause => moves(u, r, UplinkStage::Address, Seq::empty(), UplinkAction::CheckAddress),
        UplinkStage::Address => match e {
            UplinkEvent::HasAddress(true) => r.0.host == u.host && r.0.json == u.json && r.0.show_text == u.show_text
                && r.0.stage == UplinkStage::Resolving && r.1.messages@.len() == 0 && (r.1.action matches UplinkAction::Resolve(h)
                && h@ == u.host@),
            _ => moves(u, r, UplinkStage::AddressPause, seq!["Waiting to get IP address..."@], UplinkAction::Sleep(NETWORK_STATUS_POLL_MS)),
        },
        UplinkStage::Resolving => match e {
            UplinkEvent::Resolved(Ok(addrs)) => if addrs@.len() > 0 {
                moves(u, r, UplinkStage::Loading, Seq::empty(), UplinkAction::LoadCertificates) && r.0.address == addrs@[0]
            } else {
                moves(
                    u,
                    r,
                    UplinkStage::ResolvePause,
                    seq!["No addresses returned from DNS query for host: "@ + u.host@],
                    UplinkAction::Sleep(MAIN_LOOP_DELAY_MS),
                )
            },
            UplinkEvent::Resolved(Err(why)) => moves(
                u,
                r,
                UplinkStage::ResolvePause,
                seq!["DNS resolution failed for host "@ + u.host@ + ": "@ + why@],
                UplinkAction::Sleep(MAIN_LOOP_DELAY_MS),
            ),
            _ => false,
        },
        UplinkStage::ResolvePause => r.0.host == u.host && r.0.json == u.json && r.0.show_text == u.show_text && r.0.stage
            == UplinkStage::Resolving && r.1.messages@.len() == 0 && (r.1.action matches UplinkAction::Resolve(h) && h@ == u.host@),
        UplinkStage::Loading | UplinkStage::ConnectPause => moves(
            u,
            r,
            UplinkStage::Connecting,
            Seq::empty(),
            UplinkAction::Connect(u.address, ENDPOINT_PORT),
        ) && keeps(u, r),
        UplinkStage::Connecting => match e {
            UplinkEvent::Connected(Ok(())) => moves(u, r, UplinkStage::Opening, Seq::empty(), UplinkAction::OpenSession) && keeps(u, r),
            UplinkEvent::Connected(Err(why)) => retries(u, r, "   TCP connect error: "@ + why@),
            _ => false,
        },
        UplinkStage::Opening => match e {
            UplinkEvent::SessionOpened(Ok(())) => moves(
                u,
                r,
                UplinkStage::Handshaking,
                Seq::empty(),
                UplinkAction::Handshake(TLS_HANDSHAKE_TIMEOUT_SECS),
            ) && keeps(u, r),
            UplinkEvent::SessionOpened(Err(why)) => retries(u, r, "   Failed to create TLS session: "@ + why@),
            _ => false,
        },
        UplinkStage::Handshaking => match e {
            UplinkEvent::Handshaken(Ok(())) => if utf8_len(uplink_request(u)) <= POST_REQUEST_CAPACITY {
                r.0.host == u.host && r.0.json == u.json && r.0.show_text == u.show_text && keeps(u, r) && r.0.stage
                    == UplinkStage::Sending && r.1.messages@.len() == 0 && (r.1.action matches UplinkAction::Send(q) && q@
                    == uplink_request(u)) && r.0.request_len == utf8_len(uplink_request(u))
            } else {
                retries(u, r, "   Failed to build HTTP request: "@ + "Buffer capacity exceeded"@)
            },
            UplinkEvent::Handshaken(Err(Failure::Error(why))) => retries(u, r, "   TLS connect error: "@ + why@),
            UplinkEvent::Handshaken(Err(Failure::TimedOut)) => retries(u, r, "   TLS connect timed out after 15 seconds"@),
            _ => false,
        },
        UplinkStage::Sending => match e {
            UplinkEvent::Sent(Ok(n)) => moves(
                u,
                r,
                UplinkStage::Reading,
                if n == u.request_len {
                    Seq::empty()
                } else {
                    seq!["   Only wrote "@ + decimal(n as nat) + " of "@ + decimal(u.request_len as nat) + " bytes"@]
                },
                UplinkAction::Read(HTTP_READ_TIMEOUT_SECS),
            ) && keeps(u, r),
            UplinkEvent::Sent(Err(why)) => moves(
                u,
                r,
                UplinkStage::Reading,
                seq!["   Failed to send request: "@ + why@],
                UplinkAction::Read(HTTP_READ_TIMEOUT_SECS),
            ) && keeps(u, r),
            _ => false,
        },
        UplinkStage::Reading => match e {
            UplinkEvent::ReadDone(Ok((n, text))) => retries(
                u,
                r,
                if n == 0 {
                    "   Empty response (0 bytes)"@
                } else if u.show_text {
                    match text {
                        Some(t) => "Received response:\n---\n"@ + t@ + "\n---"@,
                        None => "   Response not UTF-8 (binary data)"@,
                    }
                } else {
                    "   Response received ("@ + decimal(n as nat) + " bytes)"@
                },
            ),
            UplinkEvent::ReadDone(Err(f)) => retries(u, r, read_failure(f)),
            _ => false,
        },
    }
}

fn one_line(t: String) -> (v: Vec<String>)
    ensures
        texts(v@) == seq![t@],
{
    let mut v: Vec<String> = Vec::new();
    v.push(t);
    assert(texts(v@) =~= seq![t@]);
    v
}

fn go(u: Uplink, stage: UplinkStage, messages: Vec<String>, action: UplinkAction) -> (r: (Uplink, UplinkStep))
    ensures
        r.0.host == u.host && r.0.json == u.json && r.0.show_text == u.show_text && r.0.address == u.address
            && r.0.request_len == u.request_len && r.0.stage == stage && r.1.messages == messages && r.1.action == action,
{
    let Uplink { host, json, show_text, address, request_len, stage: _ } = u;
    (Uplink { host, json, show_text, address, request_len, stage }, UplinkStep { messages, action })
}

fn retry(u: Uplink, message: String) -> (r: (Uplink, UplinkStep))
    ensures
        retries(u, r, message@),
{
    go(u, UplinkStage::ConnectPause, one_line(message), UplinkAction::Sleep(MAIN_LOOP_DELAY_MS))
}

fn joined(a: &str, b: &str) -> (t: String)
    ensures
        t@ == a@ + b@,
{
    let mut t = to_string(a);
    push_str(&mut t, b);
    t
}

/// Next step of the uplink task. It never ends: each round posts the
/// uplink and reads the answer, and every failure is reported and retried
/// after a pause.
pub fn uplink_step(u: Uplink, e: UplinkEvent) -> (r: (Uplink, UplinkStep))
    requires
        uplink_expects(u, e),
    ensures
        uplink_steps(u, e, r),
{
    let empty: Vec<String> = Vec::new();
    assert(texts(empty@) =~= Seq::<Seq<char>>::empty());
    match u.stage {
        UplinkStage::LinkPause => go(u, UplinkStage::Link, empty, UplinkAction::CheckLink),
        UplinkStage::Link => match e {
            UplinkEvent::LinkUp(true) => go(u, UplinkStage::AddressPause, empty, UplinkAction::Sleep(NETWORK_STATUS_POLL_MS)),
            _ => go(
                u,
                UplinkStage::LinkPause,
                one_line(to_string("Initializing network stack...")),
                UplinkAction::Sleep(NETWORK_STATUS_POLL_MS),
            ),
        },
        UplinkStage::AddressPause => go(u, UplinkStage::Address, empty, UplinkAction::CheckAddress),
        UplinkStage::Address => match e {
            UplinkEvent::HasAddress(true) => {
                let h = u.host.clone();
                go(u, UplinkStage::Resolving, empty, UplinkAction::Resolve(h))
            },
            _ => go(
                u,
                UplinkStage::AddressPause,
                one_line(to_string("Waiting to get IP address...")),
                UplinkAction::Sleep(NETWORK_STATUS_POLL_MS),
            ),
        },
        UplinkStage::Resolving => match e {
            UplinkEvent::Resolved(Ok(addrs)) => {
                if addrs.len() > 0 {
                    let a = addrs[0];
                    let Uplink { host, json, show_text, address: _, request_len, stage: _ } = u;
                    (
                        Uplink { host, json, show_text, address: a, request_len, stage: UplinkStage::Loading },
                        UplinkStep { messages: empty, action: UplinkAction::LoadCertificates },
                    )
                } else {
                    let m = joined("No addresses returned from DNS query for host: ", u.host.as_str());
                    go(u, UplinkStage::ResolvePause, one_line(m), UplinkAction::Sleep(MAIN_LOOP_DELAY_MS))
                }
            },
            UplinkEvent::Resolved(Err(why)) => {
                let mut m = joined("DNS resolution failed for host ", u.host.as_str());
                push_str(&mut m, ": ");
                push_str(&mut m, why.as_str());
                go(u, UplinkStage::ResolvePause, one_line(m), UplinkAction::Sleep(MAIN_LOOP_DELAY_MS))
            },
            _ => go(u, UplinkStage::ResolvePause, empty, UplinkAction::Sleep(MAIN_LOOP_DELAY_MS)),
        },
        UplinkStage::ResolvePause => {
            let h = u.host.clone();
            go(u, UplinkStage::Resolving, empty, UplinkAction::Resolve(h))
        },
        UplinkStage::Loading | UplinkStage::ConnectPause => {
            let a = u.address;
            go(u, UplinkStage::Connecting, empty, UplinkAction::Connect(a, ENDPOINT_PORT))
        },
        UplinkStage::Connecting => match e {
            UplinkEvent::Connected(Ok(())) => go(u, UplinkStage::Opening, empty, UplinkAction::OpenSession),
            UplinkEvent::Connected(Err(why)) => retry(u, joined("   TCP connect error: ", why.as_str())),
            _ => retry(u, String::new()),
        },
        UplinkStage::Opening => match e {
            UplinkEvent::SessionOpened(Ok(())) => go(u, UplinkStage::Handshaking, empty, UplinkAction::Handshake(TLS_HANDSHAKE_TIMEOUT_SECS)),
            UplinkEvent::SessionOpened(Err(why)) => retry(u, joined("   Failed to create TLS session: ", why.as_str())),
            _ => retry(u, String::new()),
        },
        UplinkStage::Handshaking => match e {
            UplinkEvent::Handshaken(Ok(())) => {
                let built = match &u.json {
                    Some(j) => post_request(u.host.as_str(), Some(j.as_str()), None),
                    None => post_request(u.host.as_str(), None, None),
                };
                match built {
                    Ok(q) => {
                        let n = crate::text::byte_len(q.as_str());
                        let Uplink { host, json, show_text, address, request_len: _, stage: _ } = u;
                        (
                            Uplink { host, json, show_text, address, request_len: n, stage: UplinkStage::Sending },
                            UplinkStep { messages: empty, action: UplinkAction::Send(q) },
                        )
                    },
                    Err(err) => {
                        let m = err.message();
                        retry(u, joined("   Failed to build HTTP request: ", m))
                    },
                }
            },
            UplinkEvent::Handshaken(Err(Failure::Error(why))) => retry(u, joined("   TLS connect error: ", why.as_str())),
            _ => retry(u, to_string("   TLS connect timed out after 15 seconds")),
        },
        UplinkStage::Sending => match e {
            UplinkEvent::Sent(Ok(n)) => {
                if n == u.request_len {
                    go(u, UplinkStage::Reading, empty, UplinkAction::Read(HTTP_READ_TIMEOUT_SECS))
                } else {
                    let mut m = text_with_number("   Only wrote ", n as u64);
                    push_str(&mut m, " of ");
                    push_u64(&mut m, u.request_len as u64);
                    push_str(&mut m, " bytes");
                    go(u, UplinkStage::Reading, one_line(m), UplinkAction::Read(HTTP_READ_TIMEOUT_SECS))
                }
            },
            UplinkEvent::Sent(Err(why)) => {
                let m = joined("   Failed to send request: ", why.as_str());
                go(u, UplinkStage::Reading, one_line(m), UplinkAction::Read(HTTP_READ_TIMEOUT_SECS))
            },
            _ => go(u, UplinkStage::Reading, empty, UplinkAction::Read(HTTP_READ_TIMEOUT_SECS)),
        },
        UplinkStage::Reading => match e {
            UplinkEvent::ReadDone(Ok((n, text))) => {
                let m = if n == 0 {
                    to_string("   Empty response (0 bytes)")
                } else if u.show_text {
                    match text {
                        Some(t) => {
                            let mut m = joined("Received response:\n---\n", t.as_str());
                            push_str(&mut m, "\n---");
                            m
                        },
                        None => to_string("   Response not UTF-8 (binary data)"),
                    }
                } else {
                    let mut m = text_with_number("   Response received (", n as u64);
                    push_str(&mut m, " bytes)");
                    m
                };
                retry(u, m)
            },
            UplinkEvent::ReadDone(Err(Failure::Error(why))) => retry(u, joined("   Read failed: ", why.as_str())),
            _ => retry(u, to_string("   Read timed out")),
        },
    }
}

} // verus!
