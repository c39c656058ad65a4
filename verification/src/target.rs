//! The remote endpoint that every session is relayed to.

use vstd::prelude::*;

verus! {

/// The remote host and port. Resolved once, then only read.
#[derive(Clone, Debug, PartialEq, Eq)]
pub struct Target {
    pub host: String,
    pub port: u16,
}

/// Why a target text could not be resolved.
#[derive(Clone, Copy, Debug, PartialEq, Eq, Structural)]
pub enum TargetError {
    /// The text is not an absolute URL, or the URL names no host.
    InvalidUrl,
    /// The URL gives no port and its scheme has no known default, or the
    /// port is 0.
    InvalidPort,
}

impl TargetError {
    /// The text shown to the operator.
    pub fn describe(&self) -> (text: &'static str)
        ensures
            text@ == match *self {
                TargetError::InvalidUrl => "Invalid target URL specified"@,
                TargetError::InvalidPort => "Invalid or no target port specified"@,
            },
    {
        match self {
            TargetError::InvalidUrl => "Invalid target URL specified",
            TargetError::InvalidPort => "Invalid or no target port specified",
        }
    }
}

impl Target {
    /// A target's port is never 0.
    pub open spec fn wf(&self) -> bool {
        self.port >= 1
    }

    /// A target for `host` and `port`, unless the port is 0.
    pub fn new(host: String, port: u16) -> (target: Option<Target>)
        ensures
            match target {
                Some(t) => port >= 1 && t.host@ == host@ && t.port == port && t.wf(),
                None => port == 0,
            },
    {
        if port == 0 {
            None
        } else {
            Some(Target { host, port })
        }
    }
}

/// The host of the URL that `url::Url::parse` reads from `text`, as
/// `Url::host` gives it and written out as text; `None` when the text does
/// not parse or the URL has no host.
pub uninterp spec fn url_host(text: Seq<char>) -> Option<Seq<char>>;

/// The port that `Url::port_or_known_default` gives for the URL that
/// `url::Url::parse` reads from `text`; `None` when the text does not parse
/// or no port is known.
pub uninterp spec fn url_port(text: Seq<char>) -> Option<u16>;

/// Parses `text` with `url::Url::parse` and returns the URL's host
/// (`Url::host`) as text. The contract names the answer and says nothing
/// more of it.
#[verifier::external_body]
fn parse_url_host(text: &str) -> (host: Option<String>)
    ensures
        match host {
            Some(h) => url_host(text@) == Some(h@),
            None => url_host(text@) is None,
        },
{
    match url::Url::parse(text) {
        Ok(parsed) => parsed.host().map(|h| h.to_string()),
        Err(_) => None,
    }
}

/// Parses `text` with `url::Url::parse` and returns what
/// `Url::port_or_known_default` gives for it. The contract names the answer
/// and says nothing more of it.
#[verifier::external_body]
fn parse_url_port(text: &str) -> (port: Option<u16>)
    ensures
        port == url_port(text@),
{
    match url::Url::parse(text) {
        Ok(parsed) => parsed.port_or_known_default(),
        Err(_) => None,
    }
}

/// Why what the URL parser found makes no target, or `None` when it does:
/// a missing host is an invalid URL; with a host, a missing port or port 0
/// is an invalid port.
pub open spec fn target_fault(host_found: bool, port: Option<u16>) -> Option<TargetError> {
    if !host_found {
        Some(TargetError::InvalidUrl)
    } else if port is None || port == Some(0u16) {
        Some(TargetError::InvalidPort)
    } else {
        None
    }
}

/// Builds the target from what the URL parser found, or says why there is
/// none.
pub fn target_from_parts(host: Option<String>, port: Option<u16>) -> (target: Result<
    Target,
    TargetError,
>)
    ensures
        match target {
            Ok(t) => {
                &&& target_fault(host is Some, port) is None
                &&& host matches Some(h) && t.host@ == h@
                &&& port == Some(t.port)
                &&& t.wf()
            },
            Err(e) => target_fault(host is Some, port) == Some(e),
        },
{
    match host {
        None => Err(TargetError::InvalidUrl),
        Some(h) => match port {
            None => Err(TargetError::InvalidPort),
            Some(p) => {
                if p >= 1 {
                    Ok(Target { host: h, port: p })
                } else {
                    Err(TargetError::InvalidPort)
                }
            },
        },
    }
}

/// Resolves a target text: the host and the port, explicit or the scheme's
/// default, of the URL it holds.
pub fn resolve_target(text: &str) -> (target: Result<Target, TargetError>)
    ensures
        match target {
            Ok(t) => {
                &&& target_fault(url_host(text@) is Some, url_port(text@)) is None
                &&& url_host(text@) == Some(t.host@)
                &&& url_port(text@) == Some(t.port)
                &&& t.wf()
            },
            Err(e) => target_fault(url_host(text@) is Some, url_port(text@)) == Some(e),
        },
{
    let host = parse_url_host(text);
    let port = parse_url_port(text);
    target_from_parts(host, port)
}

/// The target used when none is given.
pub fn default_target_text() -> (text: &'static str)
    ensures
        text@ == "https://httpbin.org"@,
{
    "https://httpbin.org"
}

/// The target text to resolve: the argument when there is one, the default
/// otherwise.
pub fn target_text(argument: Option<String>) -> (text: String)
    ensures
        text@ == match argument {
            Some(given) => given@,
            None => "https://httpbin.org"@,
        },
{
    match argument {
        Some(given) => given,
        None => default_target_text().to_owned(),
    }
}

} // verus!
