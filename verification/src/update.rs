//! Update-check plumbing: the running version and User-Agent, the error type
//! of the network and install steps, and the timeout budgets of the two HTTP
//! agents (the release-metadata check and the asset download).
use vstd::prelude::*;

verus! {

/// The running app's version.
pub const CURRENT_VERSION: &'static str = "0.1.0";

/// GitHub `releases/latest` API endpoint.
pub const RELEASES_LATEST_API: &'static str = "https://api.github.com/repos/yasuflatland-lf/gashuu/releases/latest";

/// The User-Agent sent to the GitHub API: `gashuu/` and the app version.
pub fn user_agent() -> (s: String)
    ensures
        s@ == "gashuu/"@ + CURRENT_VERSION@,
{
    let mut s = String::from_str("gashuu/");
    s.append(CURRENT_VERSION);
    s
}

/// Errors of the network and install glue.
#[derive(Debug, PartialEq, Eq)]
pub enum UpdateError {
    Http(String),
    Io(String),
}

impl UpdateError {
    /// The user-facing message: `network error: ` or `I/O error: ` and the
    /// detail.
    pub fn message(&self) -> (s: String)
        ensures
            s@ == match self {
                UpdateError::Http(m) => "network error: "@ + m@,
                UpdateError::Io(m) => "I/O error: "@ + m@,
            },
    {
        match self {
            UpdateError::Http(m) => {
                let mut s = String::from_str("network error: ");
                s.append(m.as_str());
                s
            },
            UpdateError::Io(m) => {
                let mut s = String::from_str("I/O error: ");
                s.append(m.as_str());
                s
            },
        }
    }
}

/// DNS lookup budget, in seconds.
pub const RESOLVE_TIMEOUT_SECS: u64 = 10;
/// TCP and TLS handshake budget, in seconds.
pub const CONNECT_TIMEOUT_SECS: u64 = 10;
/// End-to-end budget of the release-metadata check, in seconds.
pub const CHECK_TIMEOUT_SECS: u64 = 30;
/// Response-header budget of an asset download, in seconds.
pub const DOWNLOAD_RESPONSE_TIMEOUT_SECS: u64 = 30;
/// Hard ceiling on a whole asset body transfer, in seconds.
pub const DOWNLOAD_BODY_TIMEOUT_SECS: u64 = 600;

/// The per-phase timeouts of an HTTP agent, in seconds (`None`: unbounded).
#[derive(Clone, Copy, PartialEq, Eq, Debug, Structural)]
pub struct AgentTimeouts {
    pub resolve: Option<u64>,
    pub connect: Option<u64>,
    pub global: Option<u64>,
    pub recv_response: Option<u64>,
    pub recv_body: Option<u64>,
}

/// Every phase of a call is bounded: name lookup, connection, and the
/// response either end to end or both its header and its body.
pub open spec fn response_path_bounded(t: AgentTimeouts) -> bool {
    &&& t.resolve is Some
    &&& t.connect is Some
    &&& (t.global is Some || (t.recv_response is Some && t.recv_body is Some))
}

/// Timeouts of the release-metadata check: a small payload, so an end-to-end
/// budget.
pub fn check_timeouts() -> (t: AgentTimeouts)
    ensures
        t == (AgentTimeouts {
            resolve: Some(RESOLVE_TIMEOUT_SECS),
            connect: Some(CONNECT_TIMEOUT_SECS),
            global: Some(CHECK_TIMEOUT_SECS),
            recv_response: None,
            recv_body: None,
        }),
        response_path_bounded(t),
{
    AgentTimeouts {
        resolve: Some(RESOLVE_TIMEOUT_SECS),
        connect: Some(CONNECT_TIMEOUT_SECS),
        global: Some(CHECK_TIMEOUT_SECS),
        recv_response: None,
        recv_body: None,
    }
}

/// Timeouts of an asset download: each phase bounded, the whole call not.
pub fn download_timeouts() -> (t: AgentTimeouts)
    ensures
        t == (AgentTimeouts {
            resolve: Some(RESOLVE_TIMEOUT_SECS),
            connect: Some(CONNECT_TIMEOUT_SECS),
            global: None,
            recv_response: Some(DOWNLOAD_RESPONSE_TIMEOUT_SECS),
            recv_body: Some(DOWNLOAD_BODY_TIMEOUT_SECS),
        }),
        response_path_bounded(t),
{
    AgentTimeouts {
        resolve: Some(RESOLVE_TIMEOUT_SECS),
        connect: Some(CONNECT_TIMEOUT_SECS),
        global: None,
        recv_response: Some(DOWNLOAD_RESPONSE_TIMEOUT_SECS),
        recv_body: Some(DOWNLOAD_BODY_TIMEOUT_SECS),
    }
}

/// Whether a background update check starts: always when forced (the
/// manual "Check now"), otherwise only when automatic checks are enabled and
/// one is due.
pub fn should_start_check(force: bool, enabled: bool, due: bool) -> (b: bool)
    ensures
        b == (force || (enabled && due)),
{
    force || (enabled && due)
}

/// The skipped version the notify decision honours: none for a forced check,
/// else the one the user skipped.
pub fn skipped_for_decision(force: bool, skipped: Option<String>) -> (r: Option<String>)
    ensures
        r == if force {
            None::<String>
        } else {
            skipped
        },
{
    if force {
        None
    } else {
        skipped
    }
}

/// What a finished update check shows.
#[derive(Clone, Copy, PartialEq, Eq, Debug, Structural)]
pub enum CheckReport {
    /// Open the update-available dialog.
    ShowAvailable,
    /// Tell the settings dialog the running version is the latest.
    StatusLatest,
    /// Tell the settings dialog the check failed.
    StatusFailed,
    /// Show nothing (an automatic check with nothing to offer).
    Nothing,
}

/// Route a finished check: a fetched release worth notifying opens the
/// dialog; otherwise only a forced check reports, as "latest" when a release
/// was fetched and as "failed" when none was.
pub fn check_report(fetched: bool, notify: bool, force: bool) -> (r: CheckReport)
    ensures
        r == if fetched && notify {
            CheckReport::ShowAvailable
        } else if !force {
            CheckReport::Nothing
        } else if fetched {
            CheckReport::StatusLatest
        } else {
            CheckReport::StatusFailed
        },
{
    if fetched && notify {
        CheckReport::ShowAvailable
    } else if !force {
        CheckReport::Nothing
    } else if fetched {
        CheckReport::StatusLatest
    } else {
        CheckReport::StatusFailed
    }
}

} // verus!
