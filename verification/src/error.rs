//! The ways in which the tunnel can fail.

use vstd::prelude::*;

verus! {

/// Every failure the tunnel reports.
#[derive(Clone, Copy, Debug, PartialEq, Eq, Structural)]
pub enum TunnelError {
    /// No port of the scanned range could be bound.
    NoPortAvailable,
    /// The name derived from the target host is not an acceptable DNS name.
    InvalidHostname,
    /// The plain connection to the target could not be opened.
    ConnectFailed,
    /// The encrypted handshake did not complete, or the peer did not
    /// authenticate as the expected host.
    HandshakeFailed,
    /// Reading, writing or closing failed while a session was relaying.
    CopyError,
}

impl TunnelError {
    /// A failure ends the process exactly when no port could be bound; every
    /// other failure ends one session only.
    pub open spec fn fatal(self) -> bool {
        self == TunnelError::NoPortAvailable
    }

    /// Whether this failure ends the process rather than one session.
    pub fn is_fatal(&self) -> (fatal: bool)
        ensures
            fatal == self.fatal(),
    {
        match self {
            TunnelError::NoPortAvailable => true,
            _ => false,
        }
    }

    /// A short text for the log, different for each failure.
    pub fn describe(&self) -> (text: &'static str)
        ensures
            text@ == match *self {
                TunnelError::NoPortAvailable => "Could not bind to available port"@,
                TunnelError::InvalidHostname => "target host is not a valid DNS name"@,
                TunnelError::ConnectFailed => "could not connect to the target"@,
                TunnelError::HandshakeFailed => "encrypted handshake with the target failed"@,
                TunnelError::CopyError => "relaying between the two peers failed"@,
            },
    {
        match self {
            TunnelError::NoPortAvailable => "Could not bind to available port",
            TunnelError::InvalidHostname => "target host is not a valid DNS name",
            TunnelError::ConnectFailed => "could not connect to the target",
            TunnelError::HandshakeFailed => "encrypted handshake with the target failed",
            TunnelError::CopyError => "relaying between the two peers failed",
        }
    }
}

} // verus!
