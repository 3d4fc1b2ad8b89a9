//! Error taxonomy of the bridge.
//!
//! Configuration-time failures ([`ResolutionError`]) abort bridge setup;
//! per-attempt connect failures ([`ConnectError`]) reject one upgrade;
//! failures during an established relay ([`WebsockifyError`]) terminate
//! only the affected direction.

use vstd::prelude::*;

verus! {

/// The configured destination could not be validated: a TCP target must
/// resolve to at least one socket address.
#[derive(Clone, Copy, PartialEq, Eq, Structural, Debug)]
pub enum ResolutionError {
    /// The host:port input resolved to an empty address list.
    NoAddresses,
}

impl ResolutionError {
    /// A human-readable account of the failure, for the operator's log.
    pub fn describe(&self) -> (r: String)
        ensures
            r@ == "host resolved to no socket addresses"@,
    {
        String::from_str("host resolved to no socket addresses")
    }
}

/// The upstream was unreachable for one connection attempt. Carries the
/// message of the underlying I/O failure.
#[derive(Clone, Debug)]
pub struct ConnectError {
    pub message: String,
}

impl ConnectError {
    pub fn new(message: String) -> (r: ConnectError)
        ensures
            r.message@ == message@,
    {
        ConnectError { message }
    }

    /// The message of the underlying failure, as the log reports it.
    pub fn describe(&self) -> (r: String)
        ensures
            r@ == self.message@,
    {
        self.message.clone()
    }
}

/// A transport-level failure during an established relay: an I/O error on
/// the upstream stream, or a WebSocket-layer error. Each variant carries
/// the message of the underlying error.
#[derive(Clone, Debug)]
pub enum WebsockifyError {
    IoError(String),
    WarpError(String),
}

/// The text of a relay error as the log reports it.
pub open spec fn error_chars(e: WebsockifyError) -> Seq<char> {
    match e {
        WebsockifyError::IoError(m) => "IO Error: "@ + m@,
        WebsockifyError::WarpError(m) => "Warp Error: "@ + m@,
    }
}

impl WebsockifyError {
    /// The text of this error as the relay logs it.
    pub fn describe(&self) -> (r: String)
        ensures
            r@ == error_chars(*self),
    {
        match self {
            WebsockifyError::IoError(m) => {
                let mut r = String::from_str("IO Error: ");
                r.append(m.as_str());
                r
            }
            WebsockifyError::WarpError(m) => {
                let mut r = String::from_str("Warp Error: ");
                r.append(m.as_str());
                r
            }
        }
    }
}

} // verus!
