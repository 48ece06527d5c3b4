//! The device's WiFi connection task as a state machine: keep the station
//! connected, reconnecting after a disconnection and retrying failures
//! after a pause.
use vstd::prelude::*;
use crate::text::{push_str, to_string};

verus! {

/// Milliseconds of the pause after a disconnection or a failure.
pub const WIFI_RETRY_MS: u64 = 5000;

/// What the driver does next.
#[derive(Debug, Clone, Copy, PartialEq, Eq, Structural)]
pub enum WifiAction {
    /// Whether the station is connected: `Connected`.
    CheckConnected,
    /// Wait until the station disconnects: `Disconnected`.
    WaitDisconnect,
    /// Wait this many milliseconds: `Slept`.
    Sleep(u64),
    /// Whether the controller is started: `Started`.
    CheckStarted,
    /// Start the controller: `StartDone`.
    Start,
    /// Connect to the access point: `ConnectDone`.
    Connect,
}

/// How an operation went.
pub enum WifiEvent {
    Connected(bool),
    Disconnected,
    Slept,
    Started(bool),
    StartDone(Result<(), String>),
    ConnectDone(Result<(), String>),
}

/// Where the task stands.
#[derive(Debug, Clone, Copy, PartialEq, Eq, Structural)]
pub enum WifiStage {
    /// Asking whether the station is connected.
    Checking,
    /// Waiting for a disconnection.
    Watching,
    /// Pausing after a disconnection, before the start check.
    Reconnecting,
    /// Asking whether the controller is started.
    CheckingStarted,
    /// Starting the controller.
    Starting,
    /// Pausing after a failed start, then checking the connection again.
    StartFailed,
    /// Connecting.
    Connecting,
    /// Pausing after a failed connection, then checking again.
    ConnectFailed,
}

/// The first step: is the station connected?
pub fn wifi_start() -> (r: (WifiStage, WifiAction))
    ensures
        r == (WifiStage::Checking, WifiAction::CheckConnected),
{
    (WifiStage::Checking, WifiAction::CheckConnected)
}

/// The events that the task waits for.
pub open spec fn wifi_expects(s: WifiStage, e: WifiEvent) -> bool {
    match s {
        WifiStage::Checking => e is Connected,
        WifiStage::Watching => e is Disconnected,
        WifiStage::Reconnecting | WifiStage::StartFailed | WifiStage::ConnectFailed => e is Slept,
        WifiStage::CheckingStarted => e is Started,
        WifiStage::Starting => e is StartDone,
        WifiStage::Connecting => e is ConnectDone,
    }
}

/// The task's step: a connected station is watched until it disconnects,
/// which is reported and followed by a pause; a controller that is not
/// started is started (a failure is reported, paused on, and the loop
/// begins again); then the station connects, and a failure is reported and
/// paused on.
pub open spec fn wifi_next(s: WifiStage, e: WifiEvent) -> (WifiStage, Option<Seq<char>>, WifiAction) {
    match s {
        WifiStage::Checking => match e {
            WifiEvent::Connected(true) => (WifiStage::Watching, None, WifiAction::WaitDisconnect),
            _ => (WifiStage::CheckingStarted, None, WifiAction::CheckStarted),
        },
        WifiStage::Watching => (WifiStage::Reconnecting, Some("WiFi disconnected, reconnecting..."@), WifiAction::Sleep(WIFI_RETRY_MS)),
        WifiStage::Reconnecting => (WifiStage::CheckingStarted, None, WifiAction::CheckStarted),
        WifiStage::CheckingStarted => match e {
            WifiEvent::Started(true) => (WifiStage::Connecting, None, WifiAction::Connect),
            _ => (WifiStage::Starting, None, WifiAction::Start),
        },
        WifiStage::Starting => match e {
            WifiEvent::StartDone(Err(why)) => (
                WifiStage::StartFailed,
                Some("WiFi start_async failed: "@ + why@),
                WifiAction::Sleep(WIFI_RETRY_MS),
            ),
            _ => (WifiStage::Connecting, None, WifiAction::Connect),
        },
        WifiStage::StartFailed | WifiStage::ConnectFailed => (WifiStage::Checking, None, WifiAction::CheckConnected),
        WifiStage::Connecting => match e {
            WifiEvent::ConnectDone(Err(why)) => (
                WifiStage::ConnectFailed,
                Some("Failed to connect to WiFi: "@ + why@),
                WifiAction::Sleep(WIFI_RETRY_MS),
            ),
            _ => (WifiStage::Checking, Some("Connected to WiFi!"@), WifiAction::CheckConnected),
        },
    }
}

/// The text of an optional message.
pub open spec fn opt_view(m: Option<String>) -> Option<Seq<char>> {
    match m {
        Some(s) => Some(s@),
        None => None,
    }
}

fn with_reason(prefix: &str, why: &str) -> (t: String)
    ensures
        t@ == prefix@ + why@,
{
    let mut t = to_string(prefix);
    push_str(&mut t, why);
    t
}

/// Next step of the WiFi task.
pub fn wifi_step(s: WifiStage, e: WifiEvent) -> (r: (WifiStage, Option<String>, WifiAction))
    requires
        wifi_expects(s, e),
    ensures
        (r.0, opt_view(r.1), r.2) == wifi_next(s, e),
{
    match s {
        WifiStage::Checking => match e {
            WifiEvent::Connected(true) => (WifiStage::Watching, None, WifiAction::WaitDisconnect),
            _ => (WifiStage::CheckingStarted, None, WifiAction::CheckStarted),
        },
        WifiStage::Watching => (
            WifiStage::Reconnecting,
            Some(to_string("WiFi disconnected, reconnecting...")),
            WifiAction::Sleep(WIFI_RETRY_MS),
        ),
        WifiStage::Reconnecting => (WifiStage::CheckingStarted, None, WifiAction::CheckStarted),
        WifiStage::CheckingStarted => match e {
            WifiEvent::Started(true) => (WifiStage::Connecting, None, WifiAction::Connect),
            _ => (WifiStage::Starting, None, WifiAction::Start),
        },
        WifiStage::Starting => match e {
            WifiEvent::StartDone(Err(why)) => (
                WifiStage::StartFailed,
                Some(with_reason("WiFi start_async failed: ", why.as_str())),
                WifiAction::Sleep(WIFI_RETRY_MS),
            ),
            _ => (WifiStage::Connecting, None, WifiAction::Connect),
        },
        WifiStage::StartFailed | WifiStage::ConnectFailed => (WifiStage::Checking, None, WifiAction::CheckConnected),
        WifiStage::Connecting => match e {
            WifiEvent::ConnectDone(Err(why)) => (
                WifiStage::ConnectFailed,
                Some(with_reason("Failed to connect to WiFi: ", why.as_str())),
                WifiAction::Sleep(WIFI_RETRY_MS),
            ),
            _ => (WifiStage::Checking, Some(to_string("Connected to WiFi!")), WifiAction::CheckConnected),
        },
    }
}

} // verus!
