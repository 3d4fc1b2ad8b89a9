use websockify::bridge::option_socket_to_string;
use websockify::bridge::upstream_termination_line;
use websockify::bridge::websockify_decision;
use websockify::bridge::ws_termination_line;
use websockify::bridge::UpgradeDecision;
use websockify::dest::Destination;
use websockify::dest::IpAddress;
use websockify::dest::SockAddr;
use websockify::error::ConnectError;
use websockify::error::WebsockifyError;
use websockify::relay::CloseInfo;
use websockify::relay::UpstreamOutcome;
use websockify::relay::WsOutcome;

fn dest() -> Destination {
    let addrs = vec![SockAddr { ip: IpAddress::V4(127, 0, 0, 1), port: 5901 }];
    Destination::tcp(addrs).unwrap()
}

#[test]
fn peer_label_with_and_without_address() {
    let known = Some(String::from("10.0.0.7:41000"));
    assert_eq!(option_socket_to_string(&known), "10.0.0.7:41000");
    assert_eq!(option_socket_to_string(&None), "[NO ADDR]");
}

#[test]
fn reachable_upstream_accepts_upgrade() {
    let peer = Some(String::from("10.0.0.7:41000"));
    let connect: Result<usize, ConnectError> = Ok(0);
    let (decision, line) = websockify_decision(&peer, &dest(), &connect);
    assert_eq!(decision, UpgradeDecision::Accept);
    assert_eq!(line, "10.0.0.7:41000 target:[[127.0.0.1:5901]] Connection started");
}

#[test]
fn unreachable_upstream_rejects_upgrade() {
    // The upgrade is rejected — the HTTP layer answers with an error
    // status and no WebSocket handshake happens.
    let peer = None;
    let connect: Result<usize, ConnectError> =
        Err(ConnectError::new(String::from("Connection refused (os error 111)")));
    let (decision, line) = websockify_decision(&peer, &dest(), &connect);
    assert_eq!(decision, UpgradeDecision::Reject);
    assert_eq!(line, "[NO ADDR] target:[[127.0.0.1:5901]] Connection refused (os error 111)");
}

#[test]
fn ws_termination_lines() {
    let peer = Some(String::from("p"));
    let closed = WsOutcome::Closed(Some(CloseInfo { code: 1000, reason: String::from("bye") }));
    assert_eq!(ws_termination_line(&peer, &closed), "p: Web socket closed: 1000: bye");
    let closed_bare = WsOutcome::Closed(None);
    assert_eq!(ws_termination_line(&peer, &closed_bare), "p: Web socket closed");
    let ended = WsOutcome::Ended;
    assert_eq!(ws_termination_line(&peer, &ended), "p: No packet received from websocket");
    let failed = WsOutcome::Failed(WebsockifyError::WarpError(String::from("broken pipe")));
    assert_eq!(ws_termination_line(&peer, &failed), "p: Error: Warp Error: broken pipe");
}

#[test]
fn upstream_termination_lines() {
    let peer = Some(String::from("p"));
    assert_eq!(
        upstream_termination_line(&peer, &UpstreamOutcome::CleanEof),
        "p: TCP/Unix stream closed"
    );
    let failed = UpstreamOutcome::Failed(WebsockifyError::IoError(String::from("reset")));
    assert_eq!(upstream_termination_line(&peer, &failed), "p: Error: IO Error: reset");
}

#[test]
fn error_descriptions() {
    let io = WebsockifyError::IoError(String::from("timed out"));
    assert_eq!(io.describe(), "IO Error: timed out");
    let warp = WebsockifyError::WarpError(String::from("bad frame"));
    assert_eq!(warp.describe(), "Warp Error: bad frame");
    let connect = ConnectError::new(String::from("refused"));
    assert_eq!(connect.describe(), "refused");
}
