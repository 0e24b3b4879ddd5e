//! The stream relay: the accept/dial loop and, per accepted connection, a
//! session of two concurrent one-way byte copies.
//!
//! The network itself is outside: the driver binds, accepts, dials, reads
//! and writes, and hands each outcome to these state machines. The machines
//! decide what happens next and account for every byte, so that what was
//! written to one side is exactly what was read from the other.

use vstd::prelude::*;

verus! {

/// Where the stream relay's accept/dial loop stands.
#[derive(Clone, Copy, Debug, PartialEq, Eq, Structural)]
pub enum StreamPhase {
    /// The listener is not bound yet.
    Binding,
    /// Waiting for the next inbound connection.
    Accepting,
    /// Dialing the send endpoint for the connection just accepted.
    Dialing,
    /// A fatal error ended the relay.
    Stopped,
}

/// An outcome the network hands to the accept/dial loop.
#[derive(Clone, Copy, Debug, PartialEq, Eq, Structural)]
pub enum StreamEvent {
    /// The listener is bound on the receive endpoint.
    BindSucceeded,
    /// The listener could not be bound.
    BindFailed,
    /// An inbound connection arrived.
    Accepted,
    /// Waiting for a connection failed.
    AcceptFailed,
    /// The dial to the send endpoint succeeded.
    DialSucceeded,
    /// The dial to the send endpoint failed.
    DialFailed,
}

/// What the loop's driver must do next.
#[derive(Clone, Copy, Debug, PartialEq, Eq, Structural)]
pub enum StreamAction {
    /// Wait for the next inbound connection.
    Accept,
    /// Dial the send endpoint for the connection just accepted.
    Dial,
    /// Start the accepted and dialed pair as an independent session, then
    /// wait for the next connection at once, without awaiting the session.
    SpawnSession,
    /// The relay is over; surface the error to the caller.
    Stop,
}

/// The accept/dial loop of the stream relay.
///
/// One fatal rule holds throughout: a failure to bind, to accept, or to
/// dial stops the relay for good. In particular a single failed dial ends
/// the loop and no further client is serviced.
pub struct StreamRelay {
    phase: StreamPhase,
    sessions: Ghost<nat>,
}

impl StreamRelay {
    /// The phase the loop is in.
    pub closed spec fn phase(self) -> StreamPhase {
        self.phase
    }

    /// How many sessions the loop has started so far.
    pub closed spec fn sessions(self) -> nat {
        self.sessions@
    }

    /// The relay has not hit a fatal error.
    pub open spec fn running(self) -> bool {
        !(self.phase() is Stopped)
    }

    /// Which events can arrive in which phase.
    pub open spec fn expects(self, ev: StreamEvent) -> bool {
        match ev {
            StreamEvent::BindSucceeded => self.phase() is Binding,
            StreamEvent::BindFailed => self.phase() is Binding,
            StreamEvent::Accepted => self.phase() is Accepting,
            StreamEvent::AcceptFailed => self.phase() is Accepting,
            StreamEvent::DialSucceeded => self.phase() is Dialing,
            StreamEvent::DialFailed => self.phase() is Dialing,
        }
    }

    /// A fresh relay, about to bind its listener.
    pub fn new() -> (r: StreamRelay)
        ensures
            r.phase() is Binding,
            r.sessions() == 0,
    {
        StreamRelay { phase: StreamPhase::Binding, sessions: Ghost(0) }
    }

    /// One step of the accept/dial loop: take the network's outcome, move
    /// to the next phase, and say what the driver does next.
    ///
    /// A successful dial starts one more session and goes straight back to
    /// accepting: the loop never waits for a session to finish. Every
    /// failure, a failed dial included, stops the whole relay.
    pub fn on_event(&mut self, ev: StreamEvent) -> (a: StreamAction)
        requires
            old(self).expects(ev),
        ensures
            ev is BindSucceeded ==> final(self).phase() is Accepting && a is Accept,
            ev is Accepted ==> final(self).phase() is Dialing && a is Dial,
            ev is DialSucceeded ==> final(self).phase() is Accepting && a is SpawnSession
                && final(self).sessions() == old(self).sessions() + 1,
            (ev is BindFailed || ev is AcceptFailed || ev is DialFailed) ==> (
                final(self).phase() is Stopped && a is Stop
            ),
            !(ev is DialSucceeded) ==> final(self).sessions() == old(self).sessions(),
            !(final(self).phase() is Binding),
    {
        match ev {
            StreamEvent::BindSucceeded => {
                self.phase = StreamPhase::Accepting;
                StreamAction::Accept
            },
            StreamEvent::Accepted => {
                self.phase = StreamPhase::Dialing;
                StreamAction::Dial
            },
            StreamEvent::DialSucceeded => {
                self.phase = StreamPhase::Accepting;
                self.sessions = Ghost(self.sessions@ + 1);
                StreamAction::SpawnSession
            },
            StreamEvent::BindFailed | StreamEvent::AcceptFailed | StreamEvent::DialFailed => {
                self.phase = StreamPhase::Stopped;
                StreamAction::Stop
            },
        }
    }

    /// The phase, for a caller outside the proof.
    pub fn state(&self) -> (p: StreamPhase)
        ensures
            p == self.phase(),
    {
        self.phase
    }
}

/// One direction of a session's full-duplex copy: the account of what has
/// been read from the source and written to the sink.
///
/// The bytes themselves pass through `on_read`, which hands back exactly
/// the chunk it was given: the driver writes those bytes and nothing else.
pub struct CopyDirection {
    received: Ghost<Seq<u8>>,
    forwarded: Ghost<Seq<u8>>,
    in_flight: Ghost<Seq<u8>>,
    writing: bool,
    done: bool,
}

impl CopyDirection {
    /// All bytes read from the source so far.
    pub closed spec fn received(self) -> Seq<u8> {
        self.received@
    }

    /// All bytes whose write to the sink has completed.
    pub closed spec fn forwarded(self) -> Seq<u8> {
        self.forwarded@
    }

    /// Bytes handed to a write that has not completed yet.
    pub closed spec fn in_flight(self) -> Seq<u8> {
        self.in_flight@
    }

    /// A write is outstanding.
    pub closed spec fn writing(self) -> bool {
        self.writing
    }

    /// This direction reached end of input or failed.
    pub closed spec fn done(self) -> bool {
        self.done
    }

    /// Every byte read is either written or on its way: the bytes written,
    /// followed by the bytes in flight, are exactly the bytes read, and
    /// nothing is in flight outside a write.
    pub open spec fn wf(self) -> bool {
        &&& self.received() == self.forwarded() + self.in_flight()
        &&& !self.writing() ==> self.in_flight() == Seq::<u8>::empty()
    }

    /// A fresh direction: nothing read, nothing written.
    pub fn new() -> (d: CopyDirection)
        ensures
            d.wf(),
            d.received() == Seq::<u8>::empty(),
            d.forwarded() == Seq::<u8>::empty(),
            !d.writing(),
            !d.done(),
    {
        CopyDirection {
            received: Ghost(Seq::empty()),
            forwarded: Ghost(Seq::empty()),
            in_flight: Ghost(Seq::empty()),
            writing: false,
            done: false,
        }
    }

    /// A chunk was read from the source: account for it and hand back
    /// exactly those bytes for the write to the sink.
    pub fn on_read(&mut self, chunk: Vec<u8>) -> (out: Vec<u8>)
        requires
            old(self).wf(),
            !old(self).writing(),
            !old(self).done(),
        ensures
            final(self).wf(),
            out@ == chunk@,
            final(self).received() == old(self).received() + chunk@,
            final(self).forwarded() == old(self).forwarded(),
            final(self).in_flight() == chunk@,
            final(self).writing(),
            !final(self).done(),
    {
        self.received = Ghost(self.received@ + chunk@);
        self.in_flight = Ghost(chunk@);
        self.writing = true;
        chunk
    }

    /// The write of the bytes in flight completed: they are forwarded.
    pub fn on_write_done(&mut self)
        requires
            old(self).wf(),
            old(self).writing(),
        ensures
            final(self).wf(),
            final(self).received() == old(self).received(),
            final(self).forwarded() == old(self).received(),
            !final(self).writing(),
            final(self).done() == old(self).done(),
    {
        self.forwarded = Ghost(self.forwarded@ + self.in_flight@);
        self.in_flight = Ghost(Seq::empty());
        self.writing = false;
        proof {
            assert(self.forwarded@ =~= self.received@);
        }
    }

    /// The source reached end of input or failed: this direction is over,
    /// with everything it read already forwarded.
    pub fn on_end(&mut self)
        requires
            old(self).wf(),
            !old(self).writing(),
        ensures
            final(self).wf(),
            final(self).done(),
            final(self).received() == old(self).received(),
            final(self).forwarded() == old(self).received(),
    {
        proof {
            assert(self.forwarded@ =~= self.received@);
        }
        self.done = true;
    }
}

/// Byte fidelity: in a well-formed copy direction the forwarded bytes are
/// exactly the first bytes received, byte for byte and in order; as soon as
/// no write is outstanding, they are all of the received bytes.
pub proof fn lemma_byte_fidelity(d: CopyDirection)
    requires
        d.wf(),
    ensures
        d.forwarded() == d.received().take(d.forwarded().len() as int),
        !d.writing() ==> d.forwarded() == d.received(),
{
    assert(d.forwarded() =~= d.received().take(d.forwarded().len() as int));
    if !d.writing() {
        assert(d.forwarded() =~= d.received());
    }
}

/// One stream session: an accepted client connection paired with a dialed
/// upstream connection, and the two concurrent copy directions between
/// them. The session owns its pair exclusively.
pub struct Session {
    /// The copy from the client connection to the upstream connection.
    pub client_to_upstream: CopyDirection,
    /// The copy from the upstream connection back to the client connection.
    pub upstream_to_client: CopyDirection,
    /// The client connection is still open.
    pub client_side_open: bool,
    /// The upstream connection is still open.
    pub upstream_side_open: bool,
}

impl Session {
    /// The client connection is open.
    pub open spec fn client_open(self) -> bool {
        self.client_side_open
    }

    /// The upstream connection is open.
    pub open spec fn upstream_open(self) -> bool {
        self.upstream_side_open
    }

    /// Both connections are open.
    pub open spec fn open(self) -> bool {
        self.client_open() && self.upstream_open()
    }

    /// The session invariant: each direction's account is sound, and the
    /// two connections are either both open or both torn down — never one
    /// forwarding while the other is abandoned half-closed.
    pub open spec fn wf(self) -> bool {
        &&& self.client_to_upstream.wf()
        &&& self.upstream_to_client.wf()
        &&& self.client_open() == self.upstream_open()
    }

    /// A fresh session over a newly accepted and dialed pair.
    pub fn new() -> (s: Session)
        ensures
            s.wf(),
            s.open(),
            s.client_to_upstream.received() == Seq::<u8>::empty(),
            s.upstream_to_client.received() == Seq::<u8>::empty(),
            !s.client_to_upstream.writing(),
            !s.client_to_upstream.done(),
            !s.upstream_to_client.writing(),
            !s.upstream_to_client.done(),
    {
        Session {
            client_to_upstream: CopyDirection::new(),
            upstream_to_client: CopyDirection::new(),
            client_side_open: true,
            upstream_side_open: true,
        }
    }

    /// Either copy direction finished or failed: the whole session ends at
    /// once. Both connections are closed, whatever the other direction was
    /// still transferring; the driver must drop both.
    pub fn on_copy_end(&mut self)
        requires
            old(self).wf(),
        ensures
            final(self).wf(),
            !final(self).client_open(),
            !final(self).upstream_open(),
            final(self).client_to_upstream == old(self).client_to_upstream,
            final(self).upstream_to_client == old(self).upstream_to_client,
    {
        self.client_side_open = false;
        self.upstream_side_open = false;
    }

    /// Both connections still open, for a caller outside the proof.
    pub fn is_open(&self) -> (b: bool)
        ensures
            b == self.open(),
    {
        self.client_side_open && self.upstream_side_open
    }
}

/// Session teardown: a well-formed session never has one side open and the
/// other closed, so when either side goes, the other is closed with it.
pub proof fn lemma_no_half_close(s: Session)
    requires
        s.wf(),
    ensures
        s.client_open() <==> s.upstream_open(),
{
}

/// Session isolation: a step of one session leaves every other session
/// exactly as it was, and every session's forwarded bytes remain a prefix
/// of the bytes received on that same session alone — bytes of session `i`
/// are never delivered to session `j`.
pub proof fn lemma_session_isolation(sessions: Map<int, Session>, i: int, stepped: Session)
    requires
        sessions.dom().contains(i),
        forall|k: int| sessions.dom().contains(k) ==> (#[trigger] sessions[k]).wf(),
        stepped.wf(),
    ensures
        forall|j: int| sessions.dom().contains(j) && j != i ==> #[trigger] sessions.insert(
            i,
            stepped,
        )[j] == sessions[j],
        forall|j: int|
            sessions.insert(i, stepped).dom().contains(j) ==> {
                let d = (#[trigger] sessions.insert(i, stepped)[j]).client_to_upstream;
                d.forwarded() == d.received().take(d.forwarded().len() as int)
            },
        forall|j: int|
            sessions.insert(i, stepped).dom().contains(j) ==> {
                let d = (#[trigger] sessions.insert(i, stepped)[j]).upstream_to_client;
                d.forwarded() == d.received().take(d.forwarded().len() as int)
            },
{
    assert forall|j: int| sessions.insert(i, stepped).dom().contains(j) implies {
        let d = (sessions.insert(i, stepped)[j]).client_to_upstream;
        d.forwarded() == d.received().take(d.forwarded().len() as int)
    } by {
        let s = sessions.insert(i, stepped)[j];
        assert(s.wf());
        lemma_byte_fidelity(s.client_to_upstream);
    }
    assert forall|j: int| sessions.insert(i, stepped).dom().contains(j) implies {
        let d = (sessions.insert(i, stepped)[j]).upstream_to_client;
        d.forwarded() == d.received().take(d.forwarded().len() as int)
    } by {
        let s = sessions.insert(i, stepped)[j];
        assert(s.wf());
        lemma_byte_fidelity(s.upstream_to_client);
    }
}

} // verus!
