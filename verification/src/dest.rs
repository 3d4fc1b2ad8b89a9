//! The destination resolver.
//!
//! A [`Destination`] is the immutable description of the upstream target:
//! an ordered list of TCP socket addresses, or the path of a Unix domain
//! socket. It is built once at setup time, validated then, and shared
//! read-only by every connection. Connecting tries the targets in order
//! and keeps only the last failure; the per-attempt decision is
//! [`connect_step`], and [`resolve_fallback`] states the policy over a
//! whole pass of attempt outcomes. The surrounding runtime makes the
//! actual connection attempts and reports each outcome as an
//! [`AttemptOutcome`].

use vstd::prelude::*;

use crate::error::ConnectError;
use crate::error::ResolutionError;

verus! {

/// A resolved IP address, as plain values.
#[derive(Clone, Copy, PartialEq, Eq, Structural, Debug)]
pub enum IpAddress {
    /// The four octets of an IPv4 address.
    V4(u8, u8, u8, u8),
    /// The eight 16-bit groups of an IPv6 address.
    V6(u16, u16, u16, u16, u16, u16, u16, u16),
}

/// A resolved socket address: an IP address and a port.
#[derive(Clone, Copy, PartialEq, Eq, Structural, Debug)]
pub struct SockAddr {
    pub ip: IpAddress,
    pub port: u16,
}

/// The configured upstream target. Built once, never mutated.
#[derive(Clone, Debug)]
pub enum Destination {
    /// An ordered, non-empty list of resolved TCP socket addresses.
    Tcp(Vec<SockAddr>),
    /// The filesystem path of a Unix domain socket.
    Unix(String),
}

/// The outcome of one connection attempt against one target, as the
/// runtime reports it.
#[derive(Clone, Debug)]
pub enum AttemptOutcome {
    /// The attempt produced an open connection.
    Connected,
    /// The attempt failed with this error.
    Failed(ConnectError),
}

/// What the connect driver does after one attempt.
#[derive(Debug)]
pub enum ConnectProgress {
    /// The attempt at this target index succeeded; use that connection.
    Established(usize),
    /// The attempt failed and another target remains: try this index next.
    TryNext(usize),
    /// The attempt failed and no target remains: report this error, the
    /// one from the last attempted target.
    GiveUp(ConnectError),
}

impl Destination {
    /// A TCP destination holds at least one address; constructors
    /// establish this and nothing mutates a destination afterwards.
    pub open spec fn well_formed(self) -> bool {
        self matches Destination::Tcp(addrs) ==> addrs@.len() > 0
    }

    /// The ordered list of TCP targets.
    pub open spec fn targets(self) -> Seq<SockAddr>
        recommends
            self is Tcp,
    {
        self->Tcp_0@
    }

    /// The Unix socket path.
    pub open spec fn path_chars(self) -> Seq<char>
        recommends
            self is Unix,
    {
        self->Unix_0@
    }

    /// Creates a TCP destination from a list of already-resolved socket
    /// addresses, in the order connection attempts will be made.
    /// Validation happens here, at configuration time: an empty list —
    /// a host that resolved to no addresses — is rejected. No network
    /// traffic is involved; the construction is a pure function of its
    /// input.
    pub fn tcp(addrs: Vec<SockAddr>) -> (r: Result<Destination, ResolutionError>)
        ensures
            r is Ok <==> addrs@.len() > 0,
            r matches Ok(d) ==> d is Tcp && d.targets() == addrs@ && d.well_formed(),
            r matches Err(e) ==> e == ResolutionError::NoAddresses,
    {
        if addrs.len() == 0 {
            Err(ResolutionError::NoAddresses)
        } else {
            Ok(Destination::Tcp(addrs))
        }
    }

    /// Creates a Unix-socket destination. The path is stored as given;
    /// its existence is not checked here — a bad path surfaces as a
    /// connect-time failure instead.
    pub fn unix(path: String) -> (r: Destination)
        ensures
            r is Unix && r.path_chars() == path@,
            r.well_formed(),
    {
        Destination::Unix(path)
    }

    /// How many connection attempts one full pass makes: one per TCP
    /// target, or a single attempt on a Unix socket path.
    pub fn target_count(&self) -> (r: usize)
        requires
            self.well_formed(),
        ensures
            self matches Destination::Tcp(addrs) ==> r == addrs@.len(),
            self is Unix ==> r == 1,
            r > 0,
    {
        match self {
            Destination::Tcp(addrs) => addrs.len(),
            Destination::Unix(_) => 1,
        }
    }
}

/// Whether some attempt in the pass succeeded.
pub open spec fn any_connected(outcomes: Seq<AttemptOutcome>) -> bool {
    exists|i: int| 0 <= i < outcomes.len() && outcomes[i] is Connected
}

/// Decides what to do after the attempt at target `idx`, out of `count`
/// targets, ended with `outcome`: a success is used at once; a failure
/// moves on to the next target while one remains, and otherwise gives up
/// with that failure's error — the error of the last attempted target.
pub fn connect_step(count: usize, idx: usize, outcome: &AttemptOutcome) -> (r: ConnectProgress)
    requires
        idx < count,
    ensures
        outcome is Connected ==> r == ConnectProgress::Established(idx),
        outcome matches AttemptOutcome::Failed(e) ==> {
            &&& idx + 1 < count ==> r == ConnectProgress::TryNext((idx + 1) as usize)
            &&& idx + 1 == count ==> (r matches ConnectProgress::GiveUp(g)
                && g.message@ == e.message@)
        },
{
    match outcome {
        AttemptOutcome::Connected => ConnectProgress::Established(idx),
        AttemptOutcome::Failed(e) => {
            if idx + 1 < count {
                ConnectProgress::TryNext(idx + 1)
            } else {
                ConnectProgress::GiveUp(ConnectError::new(e.message.clone()))
            }
        }
    }
}

/// The connect-fallback policy over one whole pass: given the outcome
/// each target's attempt would have, returns the index of the first
/// target that connects, or, when every attempt fails, the error of the
/// last target — earlier errors are discarded. Driven by the same
/// per-attempt decisions the live connect loop makes.
#[verifier::loop_isolation(false)]
pub fn resolve_fallback(outcomes: &Vec<AttemptOutcome>) -> (r: Result<usize, ConnectError>)
    requires
        outcomes@.len() > 0,
    ensures
        r is Ok <==> any_connected(outcomes@),
        r matches Ok(i) ==> i < outcomes@.len() && outcomes@[i as int] is Connected
            && (forall|j: int| 0 <= j < i ==> !(outcomes@[j] is Connected)),
        r matches Err(e) ==> {
            &&& forall|j: int| 0 <= j < outcomes@.len() ==> !(outcomes@[j] is Connected)
            &&& outcomes@.last() matches AttemptOutcome::Failed(le) && e.message@ == le.message@
        },
{
    let n = outcomes.len();
    let mut idx: usize = 0;
    loop
        invariant
            idx < n,
            forall|j: int| 0 <= j < idx ==> !(outcomes@[j] is Connected),
        decreases n - idx,
    {
        match connect_step(n, idx, &outcomes[idx]) {
            ConnectProgress::Established(i) => {
                return Ok(i);
            }
            ConnectProgress::TryNext(i) => {
                idx = i;
            }
            ConnectProgress::GiveUp(e) => {
                return Err(e);
            }
        }
    }
}

/// Law: destination construction is idempotent. [`Destination::tcp`] is
/// a pure function of its input — it performs no network traffic — so
/// two constructions from the same resolved address list succeed or fail
/// alike, and on success yield destinations with the same target set, in
/// the same order; their connect passes then attempt the same targets.
/// The requires clauses are exactly what the constructor's contract
/// guarantees of each result.
pub proof fn lemma_tcp_construction_idempotent(
    addrs: Seq<SockAddr>,
    r1: Result<Destination, ResolutionError>,
    r2: Result<Destination, ResolutionError>,
)
    requires
        r1 is Ok <==> addrs.len() > 0,
        r1 matches Ok(d) ==> d is Tcp && d.targets() == addrs,
        r2 is Ok <==> addrs.len() > 0,
        r2 matches Ok(d) ==> d is Tcp && d.targets() == addrs,
    ensures
        r1 is Ok <==> r2 is Ok,
        r1 is Ok ==> r1->Ok_0.targets() == r2->Ok_0.targets(),
{
}

} // verus!
