use websockify::error::WebsockifyError;
use websockify::relay::run_relay;
use websockify::relay::run_upstream_to_ws;
use websockify::relay::run_ws_to_upstream;
use websockify::relay::ws_to_upstream_step;
use websockify::relay::upstream_to_ws_step;
use websockify::relay::CloseInfo;
use websockify::relay::UpstreamAction;
use websockify::relay::UpstreamEvent;
use websockify::relay::UpstreamOutcome;
use websockify::relay::WsAction;
use websockify::relay::WsEvent;
use websockify::relay::WsOutcome;

#[test]
fn clean_relay_scenario() {
    // Client sends one binary frame; the upstream must receive exactly
    // its payload. The upstream replies with one chunk; the client must
    // receive exactly one binary frame with those bytes.
    let ws_events = vec![WsEvent::Binary(vec![1u8, 2u8, 3u8])];
    let upstream_events = vec![UpstreamEvent::Data(vec![4u8, 5u8])];
    let report = run_relay(ws_events, upstream_events);
    assert_eq!(report.upstream_writes, vec![vec![1u8, 2u8, 3u8]]);
    assert_eq!(report.client_frames, vec![vec![4u8, 5u8]]);
    assert!(!report.close_sent);
}

#[test]
fn binary_frames_forwarded_in_order() {
    let events = vec![
        WsEvent::Binary(vec![1u8]),
        WsEvent::Binary(vec![2u8, 3u8]),
        WsEvent::Binary(vec![]),
        WsEvent::Binary(vec![4u8]),
    ];
    let (writes, outcome) = run_ws_to_upstream(events);
    assert_eq!(writes, vec![vec![1u8], vec![2u8, 3u8], vec![], vec![4u8]]);
    assert!(matches!(outcome, WsOutcome::Running));
}

#[test]
fn upstream_chunks_one_frame_each() {
    let events = vec![
        UpstreamEvent::Data(vec![9u8, 8u8]),
        UpstreamEvent::Data(vec![7u8]),
        UpstreamEvent::Eof,
    ];
    let (frames, close_sent, outcome) = run_upstream_to_ws(events);
    assert_eq!(frames, vec![vec![9u8, 8u8], vec![7u8]]);
    assert!(close_sent);
    assert!(matches!(outcome, UpstreamOutcome::CleanEof));
}

#[test]
fn upstream_eof_scenario() {
    // The upstream closes its write side after sending nothing: the
    // client must receive a close frame and no data frame.
    let events = vec![UpstreamEvent::Eof];
    let (frames, close_sent, outcome) = run_upstream_to_ws(events);
    assert!(frames.is_empty());
    assert!(close_sent);
    assert!(matches!(outcome, UpstreamOutcome::CleanEof));
}

#[test]
fn client_close_scenario() {
    // The client sends a close frame with code 1000: nothing further is
    // written to the upstream, and the direction ends normally with
    // that close information.
    let events = vec![
        WsEvent::Close(Some(CloseInfo { code: 1000, reason: String::from("done") })),
        WsEvent::Binary(vec![42u8]),
    ];
    let (writes, outcome) = run_ws_to_upstream(events);
    assert!(writes.is_empty());
    match outcome {
        WsOutcome::Closed(Some(ci)) => {
            assert_eq!(ci.code, 1000);
            assert_eq!(ci.reason, "done");
        }
        _ => panic!("expected a close outcome with close information"),
    }
}

#[test]
fn close_without_frame_info() {
    let events = vec![WsEvent::Close(None)];
    let (writes, outcome) = run_ws_to_upstream(events);
    assert!(writes.is_empty());
    assert!(matches!(outcome, WsOutcome::Closed(None)));
}

#[test]
fn ignored_frame_kinds_scenario() {
    // A text (or ping/pong) frame is dropped: it reaches neither the
    // upstream nor terminates the relay.
    let events = vec![WsEvent::Other, WsEvent::Binary(vec![5u8, 6u8])];
    let (writes, outcome) = run_ws_to_upstream(events);
    assert_eq!(writes, vec![vec![5u8, 6u8]]);
    assert!(matches!(outcome, WsOutcome::Running));
}

#[test]
fn stream_end_is_anomalous_termination() {
    let events = vec![WsEvent::Binary(vec![1u8]), WsEvent::StreamEnd, WsEvent::Binary(vec![2u8])];
    let (writes, outcome) = run_ws_to_upstream(events);
    assert_eq!(writes, vec![vec![1u8]]);
    assert!(matches!(outcome, WsOutcome::Ended));
}

#[test]
fn ws_transport_error_terminates_direction() {
    let events = vec![
        WsEvent::TransportError(WebsockifyError::WarpError(String::from("broken pipe"))),
        WsEvent::Binary(vec![1u8]),
    ];
    let (writes, outcome) = run_ws_to_upstream(events);
    assert!(writes.is_empty());
    match outcome {
        WsOutcome::Failed(WebsockifyError::WarpError(m)) => assert_eq!(m, "broken pipe"),
        _ => panic!("expected the transport failure outcome"),
    }
}

#[test]
fn upstream_transport_error_sends_no_close() {
    let events = vec![
        UpstreamEvent::Data(vec![1u8]),
        UpstreamEvent::TransportError(WebsockifyError::IoError(String::from("reset"))),
        UpstreamEvent::Data(vec![2u8]),
    ];
    let (frames, close_sent, outcome) = run_upstream_to_ws(events);
    assert_eq!(frames, vec![vec![1u8]]);
    assert!(!close_sent);
    match outcome {
        UpstreamOutcome::Failed(WebsockifyError::IoError(m)) => assert_eq!(m, "reset"),
        _ => panic!("expected the transport failure outcome"),
    }
}

#[test]
fn byte_concatenation_preserved_both_ways() {
    // No loss, reordering, or duplication in either direction: the
    // concatenations match the inputs exactly.
    let ws_events = vec![
        WsEvent::Binary(vec![1u8, 2u8]),
        WsEvent::Other,
        WsEvent::Binary(vec![3u8]),
        WsEvent::Close(None),
    ];
    let upstream_events = vec![
        UpstreamEvent::Data(vec![10u8]),
        UpstreamEvent::Data(vec![11u8, 12u8]),
        UpstreamEvent::Eof,
    ];
    let report = run_relay(ws_events, upstream_events);
    let upstream_bytes: Vec<u8> = report.upstream_writes.concat();
    assert_eq!(upstream_bytes, vec![1u8, 2u8, 3u8]);
    let client_bytes: Vec<u8> = report.client_frames.concat();
    assert_eq!(client_bytes, vec![10u8, 11u8, 12u8]);
    assert!(report.close_sent);
}

#[test]
fn step_decisions_match_loop() {
    match ws_to_upstream_step(WsEvent::Binary(vec![1u8, 2u8])) {
        WsAction::Forward(b) => assert_eq!(b, vec![1u8, 2u8]),
        _ => panic!("a binary frame must be forwarded"),
    }
    assert!(matches!(ws_to_upstream_step(WsEvent::Other), WsAction::Ignore));
    assert!(matches!(
        ws_to_upstream_step(WsEvent::StreamEnd),
        WsAction::Finish(WsOutcome::Ended)
    ));
    match upstream_to_ws_step(UpstreamEvent::Data(vec![7u8])) {
        UpstreamAction::Send(b) => assert_eq!(b, vec![7u8]),
        _ => panic!("a read chunk must be sent as one frame"),
    }
    assert!(matches!(
        upstream_to_ws_step(UpstreamEvent::Eof),
        UpstreamAction::SendCloseAndFinish
    ));
}
