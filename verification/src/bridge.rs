//! The bridge entry point's decisions.
//!
//! One incoming WebSocket upgrade request leads to one connect pass
//! against the destination. When the upstream is reachable the upgrade
//! is accepted and the relay takes over; when it is not, the upgrade is
//! rejected so that the client receives an HTTP error and no WebSocket
//! is ever opened. Both branches produce a log record naming the peer,
//! the destination and the outcome; this module builds those records and
//! the ones written when a relay direction terminates. The surrounding
//! runtime hands the decision to its HTTP layer and writes the records
//! to its logger.

use vstd::prelude::*;

use crate::dest::Destination;
use crate::error::ConnectError;
use crate::error::error_chars;
use crate::relay::UpstreamOutcome;
use crate::relay::WsOutcome;
use crate::render::dec_chars;
use crate::render::destination_chars;
use crate::render::u32_to_dec;

verus! {

/// What the HTTP layer is told to do with an upgrade request.
#[derive(Clone, Copy, PartialEq, Eq, Structural, Debug)]
pub enum UpgradeDecision {
    /// Complete the WebSocket handshake and start the relay.
    Accept,
    /// Answer with an HTTP error; open no WebSocket.
    Reject,
}

/// The label a peer gets in log records: its address when the listener
/// exposes one, a fixed placeholder otherwise.
pub open spec fn peer_label_chars(addr: Option<String>) -> Seq<char> {
    match addr {
        Some(a) => a@,
        None => "[NO ADDR]"@,
    }
}

/// Renders the peer label for log records.
pub fn option_socket_to_string(addr: &Option<String>) -> (r: String)
    ensures
        r@ == peer_label_chars(*addr),
{
    match addr {
        Some(a) => a.clone(),
        None => String::from_str("[NO ADDR]"),
    }
}

/// The log record of one upgrade request: the peer, the destination,
/// and either the connection start or the connect error.
pub open spec fn bridge_log_chars(
    peer: Option<String>,
    dest: Destination,
    connect: Result<usize, ConnectError>,
) -> Seq<char> {
    match connect {
        Ok(_) => peer_label_chars(peer) + " target:["@ + destination_chars(dest)
            + "] Connection started"@,
        Err(e) => peer_label_chars(peer) + " target:["@ + destination_chars(dest) + "] "@
            + e.message@,
    }
}

/// Decides one incoming upgrade request from the result of the connect
/// pass: accept exactly when the upstream connection was established,
/// reject otherwise. Also builds the log record of the decision.
pub fn websockify_decision(
    peer: &Option<String>,
    dest: &Destination,
    connect: &Result<usize, ConnectError>,
) -> (r: (UpgradeDecision, String))
    ensures
        r.0 is Accept <==> connect is Ok,
        r.1@ == bridge_log_chars(*peer, *dest, *connect),
{
    let mut line = option_socket_to_string(peer);
    line.append(" target:[");
    let d = dest.describe();
    line.append(d.as_str());
    match connect {
        Ok(_) => {
            line.append("] Connection started");
            (UpgradeDecision::Accept, line)
        }
        Err(e) => {
            line.append("] ");
            line.append(e.message.as_str());
            (UpgradeDecision::Reject, line)
        }
    }
}

/// The log record of the WebSocket-to-upstream direction's termination.
pub open spec fn ws_termination_chars(peer: Option<String>, outcome: WsOutcome) -> Seq<char>
    recommends
        outcome !is Running,
{
    match outcome {
        WsOutcome::Closed(Some(ci)) => peer_label_chars(peer) + ": Web socket closed: "@
            + dec_chars(ci.code as nat) + ": "@ + ci.reason@,
        WsOutcome::Closed(None) => peer_label_chars(peer) + ": Web socket closed"@,
        WsOutcome::Ended => peer_label_chars(peer) + ": No packet received from websocket"@,
        WsOutcome::Failed(e) => peer_label_chars(peer) + ": Error: "@ + error_chars(e),
        WsOutcome::Running => peer_label_chars(peer),
    }
}

/// The log record of the upstream-to-WebSocket direction's termination.
pub open spec fn upstream_termination_chars(
    peer: Option<String>,
    outcome: UpstreamOutcome,
) -> Seq<char>
    recommends
        outcome !is Running,
{
    match outcome {
        UpstreamOutcome::CleanEof => peer_label_chars(peer) + ": TCP/Unix stream closed"@,
        UpstreamOutcome::Failed(e) => peer_label_chars(peer) + ": Error: "@ + error_chars(e),
        UpstreamOutcome::Running => peer_label_chars(peer),
    }
}

/// Builds the log record written when the WebSocket-to-upstream
/// direction terminates: the peer, and which condition ended it.
pub fn ws_termination_line(peer: &Option<String>, outcome: &WsOutcome) -> (r: String)
    requires
        *outcome !is Running,
    ensures
        r@ == ws_termination_chars(*peer, *outcome),
{
    let mut line = option_socket_to_string(peer);
    match outcome {
        WsOutcome::Closed(Some(ci)) => {
            line.append(": Web socket closed: ");
            let code = u32_to_dec(ci.code as u32);
            line.append(code.as_str());
            line.append(": ");
            line.append(ci.reason.as_str());
        }
        WsOutcome::Closed(None) => {
            line.append(": Web socket closed");
        }
        WsOutcome::Ended => {
            line.append(": No packet received from websocket");
        }
        WsOutcome::Failed(e) => {
            line.append(": Error: ");
            let msg = e.describe();
            line.append(msg.as_str());
        }
        WsOutcome::Running => {}
    }
    line
}

/// Builds the log record written when the upstream-to-WebSocket
/// direction terminates: the peer, and which condition ended it.
pub fn upstream_termination_line(peer: &Option<String>, outcome: &UpstreamOutcome) -> (r: String)
    requires
        *outcome !is Running,
    ensures
        r@ == upstream_termination_chars(*peer, *outcome),
{
    let mut line = option_socket_to_string(peer);
    match outcome {
        UpstreamOutcome::CleanEof => {
            line.append(": TCP/Unix stream closed");
        }
        UpstreamOutcome::Failed(e) => {
            line.append(": Error: ");
            let msg = e.describe();
            line.append(msg.as_str());
        }
        UpstreamOutcome::Running => {}
    }
    line
}

} // verus!
