//! The duplex relay engine.
//!
//! A bridged connection is driven by two independent directions: the
//! WebSocket side feeding the upstream stream, and the upstream stream
//! feeding the WebSocket side. Each direction is a loop over transport
//! events; this module holds the verified decision logic of both loops.
//! The surrounding runtime performs the actual socket reads and writes:
//! it turns what it read into a [`WsEvent`] or [`UpstreamEvent`], asks
//! the step function here what to do, and carries the returned action
//! out. The whole-trace functions state what a direction does over a
//! complete sequence of events.

use vstd::prelude::*;

use crate::error::WebsockifyError;

verus! {

/// The code and reason of a WebSocket close frame, when the peer sent one.
#[derive(Clone, Debug)]
pub struct CloseInfo {
    pub code: u16,
    pub reason: String,
}

/// One event observed by the WebSocket-to-upstream direction.
#[derive(Debug)]
pub enum WsEvent {
    /// A binary frame arrived; its payload is forwarded verbatim.
    Binary(Vec<u8>),
    /// A close frame arrived, with its code and reason when present.
    Close(Option<CloseInfo>),
    /// Any other frame kind (text, ping, pong): ignored.
    Other,
    /// The WebSocket stream ended without a close frame.
    StreamEnd,
    /// A transport-level failure: a WebSocket read error, or a failed
    /// write to the upstream stream.
    TransportError(WebsockifyError),
}

/// What the WebSocket-to-upstream direction does with one event.
#[derive(Debug)]
pub enum WsAction {
    /// Write these bytes, in full, to the upstream stream.
    Forward(Vec<u8>),
    /// Do nothing and read the next frame.
    Ignore,
    /// Stop this direction with the given outcome.
    Finish(WsOutcome),
}

/// How the WebSocket-to-upstream direction ended.
#[derive(Debug)]
pub enum WsOutcome {
    /// The client sent a close frame: a normal termination.
    Closed(Option<CloseInfo>),
    /// The stream ended without a close frame: an anomaly, treated as a
    /// normal termination.
    Ended,
    /// A transport error terminated the direction.
    Failed(WebsockifyError),
    /// The event sequence was exhausted without a terminating event.
    Running,
}

/// One event observed by the upstream-to-WebSocket direction.
#[derive(Debug)]
pub enum UpstreamEvent {
    /// A read from the upstream stream returned these bytes.
    Data(Vec<u8>),
    /// A read returned zero bytes: the upstream closed cleanly.
    Eof,
    /// A transport-level failure: an upstream read error, or a failed
    /// WebSocket send.
    TransportError(WebsockifyError),
}

/// What the upstream-to-WebSocket direction does with one event.
#[derive(Debug)]
pub enum UpstreamAction {
    /// Send exactly these bytes as one binary WebSocket frame.
    Send(Vec<u8>),
    /// Send a WebSocket close frame, then stop this direction normally.
    SendCloseAndFinish,
    /// Stop this direction with the given error; no close frame is sent.
    Fail(WebsockifyError),
}

/// How the upstream-to-WebSocket direction ended.
#[derive(Debug)]
pub enum UpstreamOutcome {
    /// The upstream reached end of stream; a close frame was sent.
    CleanEof,
    /// A transport error terminated the direction.
    Failed(WebsockifyError),
    /// The event sequence was exhausted without a terminating event.
    Running,
}

/// Whether this event terminates the WebSocket-to-upstream direction.
pub open spec fn ws_event_terminal(ev: WsEvent) -> bool {
    match ev {
        WsEvent::Binary(_) => false,
        WsEvent::Close(_) => true,
        WsEvent::Other => false,
        WsEvent::StreamEnd => true,
        WsEvent::TransportError(_) => true,
    }
}

/// Whether this event terminates the upstream-to-WebSocket direction.
pub open spec fn upstream_event_terminal(ev: UpstreamEvent) -> bool {
    match ev {
        UpstreamEvent::Data(_) => false,
        UpstreamEvent::Eof => true,
        UpstreamEvent::TransportError(_) => true,
    }
}

/// What the WebSocket-to-upstream direction does with one event: binary
/// payloads are forwarded, close frames terminate the direction, other
/// frame kinds are dropped, stream end is a non-fatal anomaly, transport
/// errors terminate with the error.
pub open spec fn ws_step_spec(ev: WsEvent) -> WsAction {
    match ev {
        WsEvent::Binary(b) => WsAction::Forward(b),
        WsEvent::Close(ci) => WsAction::Finish(WsOutcome::Closed(ci)),
        WsEvent::Other => WsAction::Ignore,
        WsEvent::StreamEnd => WsAction::Finish(WsOutcome::Ended),
        WsEvent::TransportError(e) => WsAction::Finish(WsOutcome::Failed(e)),
    }
}

/// What the upstream-to-WebSocket direction does with one event: each
/// chunk read becomes exactly one binary frame, end of stream sends a
/// close frame and finishes, transport errors terminate with the error.
pub open spec fn upstream_step_spec(ev: UpstreamEvent) -> UpstreamAction {
    match ev {
        UpstreamEvent::Data(b) => UpstreamAction::Send(b),
        UpstreamEvent::Eof => UpstreamAction::SendCloseAndFinish,
        UpstreamEvent::TransportError(e) => UpstreamAction::Fail(e),
    }
}

/// Decides what the WebSocket-to-upstream direction does with one event.
pub fn ws_to_upstream_step(ev: WsEvent) -> (r: WsAction)
    ensures
        r == ws_step_spec(ev),
{
    match ev {
        WsEvent::Binary(b) => WsAction::Forward(b),
        WsEvent::Close(ci) => WsAction::Finish(WsOutcome::Closed(ci)),
        WsEvent::Other => WsAction::Ignore,
        WsEvent::StreamEnd => WsAction::Finish(WsOutcome::Ended),
        WsEvent::TransportError(e) => WsAction::Finish(WsOutcome::Failed(e)),
    }
}

/// Decides what the upstream-to-WebSocket direction does with one event.
pub fn upstream_to_ws_step(ev: UpstreamEvent) -> (r: UpstreamAction)
    ensures
        r == upstream_step_spec(ev),
{
    match ev {
        UpstreamEvent::Data(b) => UpstreamAction::Send(b),
        UpstreamEvent::Eof => UpstreamAction::SendCloseAndFinish,
        UpstreamEvent::TransportError(e) => UpstreamAction::Fail(e),
    }
}

/// The payloads the WebSocket-to-upstream direction writes to the
/// upstream stream, in order, over this event sequence: the payload of
/// every binary frame that arrives before the first terminating event.
pub open spec fn forwarded_payloads(evs: Seq<WsEvent>) -> Seq<Seq<u8>>
    decreases evs.len(),
{
    if evs.len() == 0 {
        Seq::<Seq<u8>>::empty()
    } else if ws_event_terminal(evs[0]) {
        Seq::<Seq<u8>>::empty()
    } else {
        match evs[0] {
            WsEvent::Binary(b) => seq![b@] + forwarded_payloads(evs.drop_first()),
            _ => forwarded_payloads(evs.drop_first()),
        }
    }
}

/// How the WebSocket-to-upstream direction ends on this event sequence:
/// decided by its first terminating event.
pub open spec fn ws_relay_outcome(evs: Seq<WsEvent>) -> WsOutcome
    decreases evs.len(),
{
    if evs.len() == 0 {
        WsOutcome::Running
    } else {
        match evs[0] {
            WsEvent::Close(ci) => WsOutcome::Closed(ci),
            WsEvent::StreamEnd => WsOutcome::Ended,
            WsEvent::TransportError(e) => WsOutcome::Failed(e),
            _ => ws_relay_outcome(evs.drop_first()),
        }
    }
}

/// The frames the upstream-to-WebSocket direction sends over this event
/// sequence: one binary frame per chunk read, holding exactly that
/// chunk's bytes, for every read before the first terminating event.
pub open spec fn sent_frames(evs: Seq<UpstreamEvent>) -> Seq<Seq<u8>>
    decreases evs.len(),
{
    if evs.len() == 0 {
        Seq::<Seq<u8>>::empty()
    } else {
        match evs[0] {
            UpstreamEvent::Data(b) => seq![b@] + sent_frames(evs.drop_first()),
            _ => Seq::<Seq<u8>>::empty(),
        }
    }
}

/// How the upstream-to-WebSocket direction ends on this event sequence:
/// decided by its first terminating event.
pub open spec fn upstream_relay_outcome(evs: Seq<UpstreamEvent>) -> UpstreamOutcome
    decreases evs.len(),
{
    if evs.len() == 0 {
        UpstreamOutcome::Running
    } else {
        match evs[0] {
            UpstreamEvent::Data(_) => upstream_relay_outcome(evs.drop_first()),
            UpstreamEvent::Eof => UpstreamOutcome::CleanEof,
            UpstreamEvent::TransportError(e) => UpstreamOutcome::Failed(e),
        }
    }
}

/// Runs the WebSocket-to-upstream direction over a complete sequence of
/// events, by the same per-event decisions the live loop makes. Returns
/// the payloads written to the upstream stream, in order, and how the
/// direction ended.
#[verifier::loop_isolation(false)]
pub fn run_ws_to_upstream(events: Vec<WsEvent>) -> (r: (Vec<Vec<u8>>, WsOutcome))
    ensures
        r.0@.map_values(|w: Vec<u8>| w@) == forwarded_payloads(events@),
        r.1 == ws_relay_outcome(events@),
{
    let ghost all: Seq<WsEvent> = events@;
    let mut evs = events;
    let mut writes: Vec<Vec<u8>> = Vec::new();
    loop
        invariant
            forwarded_payloads(all) == writes@.map_values(|w: Vec<u8>| w@)
                + forwarded_payloads(evs@),
            ws_relay_outcome(all) == ws_relay_outcome(evs@),
        decreases evs@.len(),
    {
        if evs.len() == 0 {
            proof {
                assert(writes@.map_values(|w: Vec<u8>| w@) + forwarded_payloads(evs@)
                    =~= writes@.map_values(|w: Vec<u8>| w@));
            }
            return (writes, WsOutcome::Running);
        }
        let ghost pre: Seq<WsEvent> = evs@;
        let ev = evs.remove(0);
        proof {
            assert(evs@ =~= pre.drop_first());
        }
        match ws_to_upstream_step(ev) {
            WsAction::Forward(b) => {
                let ghost old_writes: Seq<Vec<u8>> = writes@;
                writes.push(b);
                proof {
                    assert(writes@.map_values(|w: Vec<u8>| w@)
                        =~= old_writes.map_values(|w: Vec<u8>| w@) + seq![b@]);
                    assert(old_writes.map_values(|w: Vec<u8>| w@)
                        + (seq![b@] + forwarded_payloads(evs@))
                        =~= writes@.map_values(|w: Vec<u8>| w@) + forwarded_payloads(evs@));
                }
            }
            WsAction::Ignore => {}
            WsAction::Finish(outcome) => {
                proof {
                    assert(forwarded_payloads(pre) =~= Seq::<Seq<u8>>::empty());
                    assert(writes@.map_values(|w: Vec<u8>| w@) + forwarded_payloads(pre)
                        =~= writes@.map_values(|w: Vec<u8>| w@));
                }
                return (writes, outcome);
            }
        }
    }
}

/// Runs the upstream-to-WebSocket direction over a complete sequence of
/// events, by the same per-event decisions the live loop makes. Returns
/// the binary frames sent to the client, in order, whether a close frame
/// was sent, and how the direction ended. A close frame is sent exactly
/// when the upstream reached a clean end of stream.
#[verifier::loop_isolation(false)]
pub fn run_upstream_to_ws(events: Vec<UpstreamEvent>) -> (r: (Vec<Vec<u8>>, bool, UpstreamOutcome))
    ensures
        r.0@.map_values(|w: Vec<u8>| w@) == sent_frames(events@),
        r.1 == (upstream_relay_outcome(events@) is CleanEof),
        r.2 == upstream_relay_outcome(events@),
{
    let ghost all: Seq<UpstreamEvent> = events@;
    let mut evs = events;
    let mut frames: Vec<Vec<u8>> = Vec::new();
    loop
        invariant
            sent_frames(all) == frames@.map_values(|w: Vec<u8>| w@) + sent_frames(evs@),
            upstream_relay_outcome(all) == upstream_relay_outcome(evs@),
        decreases evs@.len(),
    {
        if evs.len() == 0 {
            proof {
                assert(frames@.map_values(|w: Vec<u8>| w@) + sent_frames(evs@)
                    =~= frames@.map_values(|w: Vec<u8>| w@));
            }
            return (frames, false, UpstreamOutcome::Running);
        }
        let ghost pre: Seq<UpstreamEvent> = evs@;
        let ev = evs.remove(0);
        proof {
            assert(evs@ =~= pre.drop_first());
        }
        match upstream_to_ws_step(ev) {
            UpstreamAction::Send(b) => {
                let ghost old_frames: Seq<Vec<u8>> = frames@;
                frames.push(b);
                proof {
                    assert(frames@.map_values(|w: Vec<u8>| w@)
                        =~= old_frames.map_values(|w: Vec<u8>| w@) + seq![b@]);
                    assert(old_frames.map_values(|w: Vec<u8>| w@)
                        + (seq![b@] + sent_frames(evs@))
                        =~= frames@.map_values(|w: Vec<u8>| w@) + sent_frames(evs@));
                }
            }
            UpstreamAction::SendCloseAndFinish => {
                proof {
                    assert(sent_frames(pre) =~= Seq::<Seq<u8>>::empty());
                    assert(frames@.map_values(|w: Vec<u8>| w@) + sent_frames(pre)
                        =~= frames@.map_values(|w: Vec<u8>| w@));
                }
                return (frames, true, UpstreamOutcome::CleanEof);
            }
            UpstreamAction::Fail(e) => {
                proof {
                    assert(sent_frames(pre) =~= Seq::<Seq<u8>>::empty());
                    assert(frames@.map_values(|w: Vec<u8>| w@) + sent_frames(pre)
                        =~= frames@.map_values(|w: Vec<u8>| w@));
                }
                return (frames, false, UpstreamOutcome::Failed(e));
            }
        }
    }
}

/// The size of the bounded buffer each upstream read fills: no chunk —
/// and so no binary frame sent to the client — is larger than this.
pub const READ_BUFFER_SIZE: usize = 10000;

/// Law: frame sizes are bounded by read sizes. When every chunk read
/// from the upstream is at most `bound` bytes — as the bounded read
/// buffer guarantees — every binary frame sent to the client is at most
/// `bound` bytes too: reads are never coalesced into larger frames.
pub proof fn lemma_sent_frames_bounded(evs: Seq<UpstreamEvent>, bound: int)
    requires
        forall|i: int| 0 <= i < evs.len()
            ==> ((#[trigger] evs[i]) matches UpstreamEvent::Data(b) ==> b@.len() <= bound),
    ensures
        forall|i: int| 0 <= i < sent_frames(evs).len()
            ==> (#[trigger] sent_frames(evs)[i]).len() <= bound,
    decreases evs.len(),
{
    if evs.len() != 0 {
        match evs[0] {
            UpstreamEvent::Data(b) => {
                let tail = evs.drop_first();
                assert(forall|i: int| 0 <= i < tail.len() ==> #[trigger] tail[i] == evs[i + 1]);
                lemma_sent_frames_bounded(tail, bound);
                assert(forall|i: int| 0 <= i < sent_frames(evs).len() ==> (
                    #[trigger] sent_frames(evs)[i]) == if i == 0 {
                        b@
                    } else {
                        sent_frames(tail)[i - 1]
                    });
            }
            _ => {}
        }
    }
}

/// The index of the first event that terminates the WebSocket-to-upstream
/// direction, or the sequence's length when none does.
pub open spec fn ws_cutoff(evs: Seq<WsEvent>) -> int
    decreases evs.len(),
{
    if evs.len() == 0 {
        0
    } else if ws_event_terminal(evs[0]) {
        0
    } else {
        1 + ws_cutoff(evs.drop_first())
    }
}

/// The payloads of the binary frames the client sent before the direction
/// terminated, in arrival order: the declarative reading of what reaches
/// the upstream stream.
pub open spec fn client_binary_payloads(evs: Seq<WsEvent>) -> Seq<Seq<u8>> {
    evs.take(ws_cutoff(evs)).filter(|e: WsEvent| e is Binary).map_values(
        |e: WsEvent| e->Binary_0@,
    )
}

/// The index of the first event that terminates the upstream-to-WebSocket
/// direction, or the sequence's length when none does.
pub open spec fn upstream_cutoff(evs: Seq<UpstreamEvent>) -> int
    decreases evs.len(),
{
    if evs.len() == 0 {
        0
    } else if upstream_event_terminal(evs[0]) {
        0
    } else {
        1 + upstream_cutoff(evs.drop_first())
    }
}

/// The chunks the upstream peer wrote before the direction terminated, in
/// arrival order: the declarative reading of what reaches the client.
pub open spec fn upstream_data_chunks(evs: Seq<UpstreamEvent>) -> Seq<Seq<u8>> {
    evs.take(upstream_cutoff(evs)).filter(|e: UpstreamEvent| e is Data).map_values(
        |e: UpstreamEvent| e->Data_0@,
    )
}

/// The cutoff never points past the end of the event sequence.
pub proof fn lemma_ws_cutoff_in_range(evs: Seq<WsEvent>)
    ensures
        0 <= ws_cutoff(evs) <= evs.len(),
    decreases evs.len(),
{
    if evs.len() != 0 && !ws_event_terminal(evs[0]) {
        lemma_ws_cutoff_in_range(evs.drop_first());
    }
}

/// The cutoff never points past the end of the event sequence.
pub proof fn lemma_upstream_cutoff_in_range(evs: Seq<UpstreamEvent>)
    ensures
        0 <= upstream_cutoff(evs) <= evs.len(),
    decreases evs.len(),
{
    if evs.len() != 0 && !upstream_event_terminal(evs[0]) {
        lemma_upstream_cutoff_in_range(evs.drop_first());
    }
}

/// Law: the WebSocket-to-upstream direction forwards exactly the payloads
/// of the client's binary frames that arrive before termination — one
/// upstream write per frame, the same bytes, the same order; nothing is
/// lost, duplicated, reordered, or invented.
pub proof fn lemma_forwarded_payloads_exact(evs: Seq<WsEvent>)
    ensures
        forwarded_payloads(evs) == client_binary_payloads(evs),
    decreases evs.len(),
{
    reveal_with_fuel(Seq::<WsEvent>::filter, 2);
    broadcast use Seq::<WsEvent>::filter_distributes_over_add;

    let pred = |e: WsEvent| e is Binary;
    let payload = |e: WsEvent| e->Binary_0@;
    if evs.len() == 0 {
        assert(evs.take(0) =~= Seq::<WsEvent>::empty());
        assert(client_binary_payloads(evs) =~= Seq::<Seq<u8>>::empty());
    } else if ws_event_terminal(evs[0]) {
        assert(evs.take(0) =~= Seq::<WsEvent>::empty());
        assert(client_binary_payloads(evs) =~= Seq::<Seq<u8>>::empty());
    } else {
        let tail = evs.drop_first();
        lemma_forwarded_payloads_exact(tail);
        lemma_ws_cutoff_in_range(tail);
        let c = ws_cutoff(tail);
        let head = seq![evs[0]];
        assert(evs.take(1 + c) =~= head + tail.take(c));
        assert(head.drop_last() =~= Seq::<WsEvent>::empty());
        let kept = tail.take(c).filter(pred);
        if evs[0] is Binary {
            assert(head.filter(pred) =~= head);
            assert((head + tail.take(c)).filter(pred) =~= head + kept);
            assert((head + kept).map_values(payload)
                =~= seq![payload(evs[0])] + kept.map_values(payload));
            assert(client_binary_payloads(evs)
                =~= seq![evs[0]->Binary_0@] + client_binary_payloads(tail));
        } else {
            assert(head.filter(pred) =~= Seq::<WsEvent>::empty());
            assert((head + tail.take(c)).filter(pred) =~= kept);
            assert(client_binary_payloads(evs) =~= client_binary_payloads(tail));
        }
    }
}

/// Law: byte preservation, client to upstream. Over any event sequence,
/// the bytes written to the upstream stream, concatenated in order, equal
/// the concatenation of the binary payloads the client sent before the
/// direction terminated.
pub proof fn lemma_client_bytes_preserved(evs: Seq<WsEvent>)
    ensures
        forwarded_payloads(evs).flatten() == client_binary_payloads(evs).flatten(),
{
    lemma_forwarded_payloads_exact(evs);
}

/// Law: the upstream-to-WebSocket direction sends exactly one binary
/// frame per chunk read from the upstream before termination, each
/// holding exactly that chunk's bytes, in order.
pub proof fn lemma_sent_frames_exact(evs: Seq<UpstreamEvent>)
    ensures
        sent_frames(evs) == upstream_data_chunks(evs),
    decreases evs.len(),
{
    reveal_with_fuel(Seq::<UpstreamEvent>::filter, 2);
    broadcast use Seq::<UpstreamEvent>::filter_distributes_over_add;

    let pred = |e: UpstreamEvent| e is Data;
    let payload = |e: UpstreamEvent| e->Data_0@;
    if evs.len() == 0 {
        assert(evs.take(0) =~= Seq::<UpstreamEvent>::empty());
        assert(upstream_data_chunks(evs) =~= Seq::<Seq<u8>>::empty());
    } else if upstream_event_terminal(evs[0]) {
        assert(evs.take(0) =~= Seq::<UpstreamEvent>::empty());
        assert(upstream_data_chunks(evs) =~= Seq::<Seq<u8>>::empty());
    } else {
        let tail = evs.drop_first();
        lemma_sent_frames_exact(tail);
        lemma_upstream_cutoff_in_range(tail);
        let c = upstream_cutoff(tail);
        let head = seq![evs[0]];
        assert(evs.take(1 + c) =~= head + tail.take(c));
        assert(head.drop_last() =~= Seq::<UpstreamEvent>::empty());
        let kept = tail.take(c).filter(pred);
        assert(head.filter(pred) =~= head);
        assert((head + tail.take(c)).filter(pred) =~= head + kept);
        assert((head + kept).map_values(payload)
            =~= seq![payload(evs[0])] + kept.map_values(payload));
        assert(upstream_data_chunks(evs)
            =~= seq![evs[0]->Data_0@] + upstream_data_chunks(tail));
    }
}

/// Law: byte preservation, upstream to client. Over any event sequence,
/// the bytes sent to the client as binary frames, concatenated in order,
/// equal the concatenation of the chunks the upstream wrote before the
/// direction terminated.
pub proof fn lemma_upstream_bytes_preserved(evs: Seq<UpstreamEvent>)
    ensures
        sent_frames(evs).flatten() == upstream_data_chunks(evs).flatten(),
{
    lemma_sent_frames_exact(evs);
}

/// What one bridged connection's relay did: the traffic of both
/// directions and how each ended.
pub struct RelayReport {
    /// The payloads written to the upstream stream, in order.
    pub upstream_writes: Vec<Vec<u8>>,
    /// The binary frames sent to the client, in order.
    pub client_frames: Vec<Vec<u8>>,
    /// Whether a close frame was sent to the client.
    pub close_sent: bool,
    /// How the WebSocket-to-upstream direction ended.
    pub ws_outcome: WsOutcome,
    /// How the upstream-to-WebSocket direction ended.
    pub upstream_outcome: UpstreamOutcome,
}

/// The relay engine over complete traces: both directions run to their
/// own termination, independently — neither direction's events influence
/// the other's traffic or outcome.
pub fn run_relay(ws_events: Vec<WsEvent>, upstream_events: Vec<UpstreamEvent>) -> (r: RelayReport)
    ensures
        r.upstream_writes@.map_values(|w: Vec<u8>| w@) == forwarded_payloads(ws_events@),
        r.client_frames@.map_values(|w: Vec<u8>| w@) == sent_frames(upstream_events@),
        r.close_sent == (upstream_relay_outcome(upstream_events@) is CleanEof),
        r.ws_outcome == ws_relay_outcome(ws_events@),
        r.upstream_outcome == upstream_relay_outcome(upstream_events@),
{
    let (upstream_writes, ws_outcome) = run_ws_to_upstream(ws_events);
    let (client_frames, close_sent, upstream_outcome) = run_upstream_to_ws(upstream_events);
    RelayReport { upstream_writes, client_frames, close_sent, ws_outcome, upstream_outcome }
}

} // verus!
