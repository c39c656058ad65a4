//! One session: from the accepted connection to the end of the relay.
//!
//! A session is a machine driven by events. The caller does the outside
//! work (connect, handshake, copy, close) and reports what happened; the
//! machine answers with the next thing to do. It holds no socket and shares
//! nothing with any other session.

use crate::error::TunnelError;
use crate::hostname::{dns_name_accepted, hostname_of, server_name};
use vstd::prelude::*;

verus! {

/// The two ends of a session.
#[derive(Clone, Copy, Debug, PartialEq, Eq, Structural)]
pub enum Peer {
    /// The plaintext client that connected to the local port.
    Inbound,
    /// The remote target behind the encrypted transport.
    Outbound,
}

/// The two directions in which a session relays.
#[derive(Clone, Copy, Debug, PartialEq, Eq, Structural)]
pub enum Direction {
    /// From the inbound peer to the outbound peer.
    Forward,
    /// From the outbound peer to the inbound peer.
    Reverse,
}

impl Direction {
    /// The peer whose data this direction carries.
    pub open spec fn source(self) -> Peer {
        match self {
            Direction::Forward => Peer::Inbound,
            Direction::Reverse => Peer::Outbound,
        }
    }

    /// The peer that this direction writes to.
    pub open spec fn sink(self) -> Peer {
        match self {
            Direction::Forward => Peer::Outbound,
            Direction::Reverse => Peer::Inbound,
        }
    }

    /// The other direction.
    pub open spec fn opposite(self) -> Direction {
        match self {
            Direction::Forward => Direction::Reverse,
            Direction::Reverse => Direction::Forward,
        }
    }

    /// The peer that this direction reads from.
    pub fn reads_from(&self) -> (peer: Peer)
        ensures
            peer == self.source(),
    {
        match self {
            Direction::Forward => Peer::Inbound,
            Direction::Reverse => Peer::Outbound,
        }
    }

    /// The peer that this direction writes to.
    pub fn writes_to(&self) -> (peer: Peer)
        ensures
            peer == self.sink(),
    {
        match self {
            Direction::Forward => Peer::Outbound,
            Direction::Reverse => Peer::Inbound,
        }
    }
}

/// How far one direction of the relay has come.
#[derive(Clone, Copy, Debug, PartialEq, Eq, Structural)]
pub enum Flow {
    /// Data is being copied.
    Copying,
    /// The source signalled end of data; the sink's write side is being
    /// closed.
    Closing,
    /// The sink's write side is closed.
    Done,
}

/// The state of both directions of a relaying session.
#[derive(Clone, Copy, Debug, PartialEq, Eq, Structural)]
pub struct Flows {
    pub forward: Flow,
    pub reverse: Flow,
}

impl Flows {
    /// The flow of one direction.
    pub open spec fn of(self, direction: Direction) -> Flow {
        match direction {
            Direction::Forward => self.forward,
            Direction::Reverse => self.reverse,
        }
    }

    /// These flows with one direction replaced.
    pub open spec fn with(self, direction: Direction, flow: Flow) -> Flows {
        match direction {
            Direction::Forward => Flows { forward: flow, reverse: self.reverse },
            Direction::Reverse => Flows { forward: self.forward, reverse: flow },
        }
    }

    /// Whether both directions are done.
    pub open spec fn all_done(self) -> bool {
        self.forward == Flow::Done && self.reverse == Flow::Done
    }

    fn get(&self, direction: Direction) -> (flow: Flow)
        ensures
            flow == self.of(direction),
    {
        match direction {
            Direction::Forward => self.forward,
            Direction::Reverse => self.reverse,
        }
    }

    fn set(&self, direction: Direction, flow: Flow) -> (flows: Flows)
        ensures
            flows == self.with(direction, flow),
    {
        match direction {
            Direction::Forward => Flows { forward: flow, reverse: self.reverse },
            Direction::Reverse => Flows { forward: self.forward, reverse: flow },
        }
    }
}

/// Where a session stands.
#[derive(Clone, Copy, Debug, PartialEq, Eq, Structural)]
pub enum Session {
    /// The plain connection to the target is being opened.
    Connecting,
    /// The encrypted handshake is under way.
    Handshaking,
    /// Data is relayed; at least one direction is not done.
    Relaying(Flows),
    /// Both directions are done.
    Completed,
    /// The session has failed with this error.
    Failed(TunnelError),
}

/// What the caller reports to a session.
#[derive(Clone, Copy, Debug, PartialEq, Eq, Structural)]
pub enum Event {
    /// The plain connection to the target is open.
    Connected,
    /// The plain connection could not be opened.
    ConnectFailed,
    /// The handshake completed and the peer authenticated as the expected
    /// host.
    HandshakeCompleted,
    /// The handshake did not complete, or the peer's certificate was not
    /// accepted.
    HandshakeFailed,
    /// The source of this direction signalled end of data, and everything
    /// read before has been written to the sink.
    EndOfData(Direction),
    /// The write side of this direction's sink is closed.
    WriteClosed(Direction),
    /// Reading, writing or closing failed in this direction.
    IoFailed(Direction),
}

/// What a session asks of the caller.
#[derive(Clone, Copy, Debug, PartialEq, Eq, Structural)]
pub enum Action {
    /// Open a plain connection to the target.
    Connect,
    /// Run the encrypted handshake over the new connection.
    Handshake,
    /// Start copying in both directions.
    Relay,
    /// Close the write side of this peer and keep its read side open.
    CloseWrite(Peer),
    /// Nothing new: go on with what is under way.
    Continue,
    /// Both directions are done: release both streams.
    Finish,
    /// The session has failed: release both streams and log the error.
    Abort(TunnelError),
}

impl Session {
    /// A relaying session always has a direction that is not done.
    pub open spec fn wf(self) -> bool {
        self matches Session::Relaying(flows) ==> !flows.all_done()
    }

    /// Whether the session has ended.
    pub open spec fn over(self) -> bool {
        self is Completed || self is Failed
    }

    /// The result of an ended session; `None` while it runs.
    pub open spec fn verdict(self) -> Option<Result<(), TunnelError>> {
        match self {
            Session::Completed => Some(Ok(())),
            Session::Failed(e) => Some(Err(e)),
            _ => None,
        }
    }

    /// The session and first action for a target whose derived name the DNS
    /// syntax check has accepted or refused.
    pub open spec fn opened(accepted: bool) -> (Session, Action) {
        if accepted {
            (Session::Connecting, Action::Connect)
        } else {
            (
                Session::Failed(TunnelError::InvalidHostname),
                Action::Abort(TunnelError::InvalidHostname),
            )
        }
    }

    /// Whether the session takes notice of `event` in this state. Any other
    /// event leaves it unchanged.
    pub open spec fn expects(self, event: Event) -> bool {
        match self {
            Session::Connecting => event is Connected || event is ConnectFailed,
            Session::Handshaking => event is HandshakeCompleted || event is HandshakeFailed,
            Session::Relaying(flows) => match event {
                Event::EndOfData(d) => flows.of(d) == Flow::Copying,
                Event::WriteClosed(d) => flows.of(d) == Flow::Closing,
                Event::IoFailed(d) => flows.of(d) != Flow::Done,
                _ => false,
            },
            _ => false,
        }
    }

    /// The state and the action that answer `event`.
    pub open spec fn reaction(self, event: Event) -> (Session, Action) {
        if !self.expects(event) {
            (self, Action::Continue)
        } else {
            match event {
                Event::Connected => (Session::Handshaking, Action::Handshake),
                Event::ConnectFailed => (
                    Session::Failed(TunnelError::ConnectFailed),
                    Action::Abort(TunnelError::ConnectFailed),
                ),
                Event::HandshakeCompleted => (
                    Session::Relaying(Flows { forward: Flow::Copying, reverse: Flow::Copying }),
                    Action::Relay,
                ),
                Event::HandshakeFailed => (
                    Session::Failed(TunnelError::HandshakeFailed),
                    Action::Abort(TunnelError::HandshakeFailed),
                ),
                Event::EndOfData(d) => (
                    Session::Relaying(self->Relaying_0.with(d, Flow::Closing)),
                    Action::CloseWrite(d.sink()),
                ),
                Event::WriteClosed(d) => if self->Relaying_0.with(d, Flow::Done).all_done() {
                    (Session::Completed, Action::Finish)
                } else {
                    (Session::Relaying(self->Relaying_0.with(d, Flow::Done)), Action::Continue)
                },
                Event::IoFailed(_) => (
                    Session::Failed(TunnelError::CopyError),
                    Action::Abort(TunnelError::CopyError),
                ),
            }
        }
    }

    /// The state after `event`.
    pub open spec fn next(self, event: Event) -> Session {
        self.reaction(event).0
    }

    /// The state after all of `events`, in order.
    pub open spec fn after(self, events: Seq<Event>) -> Session
        decreases events.len(),
    {
        if events.len() == 0 {
            self
        } else {
            self.next(events[0]).after(events.skip(1))
        }
    }

    /// The actions that answer `events`, in order.
    pub open spec fn actions(self, events: Seq<Event>) -> Seq<Action>
        decreases events.len(),
    {
        if events.len() == 0 {
            Seq::empty()
        } else {
            seq![self.reaction(events[0]).1] + self.next(events[0]).actions(events.skip(1))
        }
    }

    /// Takes one event and answers with the new state and the action to
    /// perform.
    pub fn step(self, event: Event) -> (answer: (Session, Action))
        ensures
            answer == self.reaction(event),
            self.wf() ==> answer.0.wf(),
    {
        match self {
            Session::Connecting => match event {
                Event::Connected => (Session::Handshaking, Action::Handshake),
                Event::ConnectFailed => fail(TunnelError::ConnectFailed),
                _ => (self, Action::Continue),
            },
            Session::Handshaking => match event {
                Event::HandshakeCompleted => (
                    Session::Relaying(Flows { forward: Flow::Copying, reverse: Flow::Copying }),
                    Action::Relay,
                ),
                Event::HandshakeFailed => fail(TunnelError::HandshakeFailed),
                _ => (self, Action::Continue),
            },
            Session::Relaying(flows) => match event {
                Event::EndOfData(d) => {
                    if flows.get(d) == Flow::Copying {
                        (
                            Session::Relaying(flows.set(d, Flow::Closing)),
                            Action::CloseWrite(d.writes_to()),
                        )
                    } else {
                        (self, Action::Continue)
                    }
                },
                Event::WriteClosed(d) => {
                    if flows.get(d) == Flow::Closing {
                        let left = flows.set(d, Flow::Done);
                        if left.forward == Flow::Done && left.reverse == Flow::Done {
                            (Session::Completed, Action::Finish)
                        } else {
                            (Session::Relaying(left), Action::Continue)
                        }
                    } else {
                        (self, Action::Continue)
                    }
                },
                Event::IoFailed(d) => {
                    if flows.get(d) != Flow::Done {
                        fail(TunnelError::CopyError)
                    } else {
                        (self, Action::Continue)
                    }
                },
                _ => (self, Action::Continue),
            },
            _ => (self, Action::Continue),
        }
    }

    /// Whether the session has ended.
    pub fn is_over(&self) -> (over: bool)
        ensures
            over == self.over(),
    {
        match self {
            Session::Completed => true,
            Session::Failed(_) => true,
            _ => false,
        }
    }

    /// The result of an ended session; `None` while it runs.
    pub fn outcome(&self) -> (verdict: Option<Result<(), TunnelError>>)
        ensures
            verdict == self.verdict(),
    {
        match self {
            Session::Completed => Some(Ok(())),
            Session::Failed(e) => Some(Err(*e)),
            _ => None,
        }
    }
}

fn fail(error: TunnelError) -> (answer: (Session, Action))
    ensures
        answer == (Session::Failed(error), Action::Abort(error)),
{
    (Session::Failed(error), Action::Abort(error))
}

/// A freshly opened session: its state, the first action, and the name to
/// present for peer verification during the handshake.
#[derive(Clone, Debug, PartialEq, Eq)]
pub struct Opening {
    pub session: Session,
    pub action: Action,
    pub server_name: Option<String>,
}

/// Opens a session for a target host. The session starts connecting exactly
/// when the name derived from `host` is an acceptable DNS name, and then
/// carries that name; otherwise it has failed with `InvalidHostname` before
/// any connection is made.
pub fn open(host: &str) -> (opening: Opening)
    ensures
        (opening.session, opening.action) == Session::opened(
            dns_name_accepted(hostname_of(host@)),
        ),
        opening.session.wf(),
        match opening.server_name {
            Some(name) => dns_name_accepted(hostname_of(host@)) && name@ == hostname_of(host@),
            None => !dns_name_accepted(hostname_of(host@)),
        },
{
    match server_name(host) {
        Ok(name) => Opening {
            session: Session::Connecting,
            action: Action::Connect,
            server_name: Some(name),
        },
        Err(_) => Opening {
            session: Session::Failed(TunnelError::InvalidHostname),
            action: Action::Abort(TunnelError::InvalidHostname),
            server_name: None,
        },
    }
}

/// An ended session takes no notice of anything: it stays as it is and asks
/// for nothing more.
pub proof fn ended_session_ignores_events(session: Session, events: Seq<Event>)
    requires
        session.over(),
    ensures
        session.after(events) == session,
        session.actions(events).len() == events.len(),
        forall|i: int| 0 <= i < events.len() ==> session.actions(events)[i] == Action::Continue,
    decreases events.len(),
{
    if events.len() > 0 {
        let rest = events.skip(1);
        ended_session_ignores_events(session, rest);
        let answers = session.actions(events);
        assert forall|i: int| 0 <= i < events.len() implies answers[i] == Action::Continue by {
            if i > 0 {
                assert(answers[i] == session.actions(rest)[i - 1]);
            }
        }
    }
}

/// A session is told to finish or to abort only by the event that ends it.
pub proof fn session_ends_with_its_last_action(session: Session, event: Event)
    ensures
        (session.reaction(event).1 is Finish || session.reaction(event).1 is Abort) <==> (
        !session.over() && session.next(event).over()),
        session.reaction(event).1 is Finish <==> !session.over() && session.next(event)
            == Session::Completed,
        forall|e: TunnelError|
            session.reaction(event).1 == Action::Abort(e) <==> !session.over()
                && session.next(event) == Session::Failed(e),
{
}

/// A failed handshake fails the session with `HandshakeFailed`, and nothing
/// that is reported afterwards makes it relay: every later answer is
/// `Continue`.
pub proof fn failed_handshake_never_relays(events: Seq<Event>)
    ensures
        Session::Handshaking.reaction(Event::HandshakeFailed) == (
            Session::Failed(TunnelError::HandshakeFailed),
            Action::Abort(TunnelError::HandshakeFailed),
        ),
        Session::Handshaking.next(Event::HandshakeFailed).after(events) == Session::Failed(
            TunnelError::HandshakeFailed,
        ),
        forall|i: int|
            0 <= i < events.len() ==> Session::Handshaking.next(Event::HandshakeFailed).actions(
                events,
            )[i] == Action::Continue,
{
    ended_session_ignores_events(Session::Failed(TunnelError::HandshakeFailed), events);
}

/// The relay is started by one thing only: a completed handshake reported
/// to a session that is handshaking.
pub proof fn relay_starts_only_after_handshake(session: Session, event: Event)
    ensures
        session.reaction(event).1 == Action::Relay <==> session == Session::Handshaking && event
            == Event::HandshakeCompleted,
        session.next(event) is Relaying ==> session is Relaying || (session
            == Session::Handshaking && event == Event::HandshakeCompleted),
{
}

/// A new session that has come to relay, or has completed, was told before
/// that the connection was opened and that the handshake completed.
pub proof fn relaying_needs_connection_and_handshake(events: Seq<Event>)
    requires
        Session::Connecting.after(events) is Relaying || Session::Connecting.after(events)
            is Completed,
    ensures
        events.contains(Event::Connected),
        events.contains(Event::HandshakeCompleted),
{
    lemma_relaying_needs(Session::Connecting, events);
}

proof fn lemma_relaying_needs(session: Session, events: Seq<Event>)
    requires
        session.after(events) is Relaying || session.after(events) is Completed,
    ensures
        session == Session::Connecting ==> events.contains(Event::Connected),
        session == Session::Connecting || session == Session::Handshaking ==> events.contains(
            Event::HandshakeCompleted,
        ),
    decreases events.len(),
{
    if events.len() > 0 {
        let rest = events.skip(1);
        let then = session.next(events[0]);
        if then.over() {
            ended_session_ignores_events(then, rest);
        }
        lemma_relaying_needs(then, rest);
        assert forall|e: Event| rest.contains(e) implies events.contains(e) by {
            let i = choose|i: int| 0 <= i < rest.len() && rest[i] == e;
            assert(events[i + 1] == e);
        }
        assert(events[0] == events[0]);
    }
}

/// Half-close: when the source of a direction signals end of data, the
/// write side of that direction's sink is closed, and only that. The
/// opposite direction is left as it was and the session goes on.
pub proof fn end_of_data_closes_only_the_sink(flows: Flows, direction: Direction)
    requires
        flows.of(direction) == Flow::Copying,
    ensures
        Session::Relaying(flows).reaction(Event::EndOfData(direction)) == (
            Session::Relaying(flows.with(direction, Flow::Closing)),
            Action::CloseWrite(direction.sink()),
        ),
        flows.with(direction, Flow::Closing).of(direction.opposite()) == flows.of(
            direction.opposite(),
        ),
        !Session::Relaying(flows).next(Event::EndOfData(direction)).over(),
{
}

/// What is reported of one direction, short of a failure, never changes
/// how far the opposite direction has come.
pub proof fn directions_are_independent(flows: Flows, event: Event, direction: Direction)
    requires
        event == Event::EndOfData(direction) || event == Event::WriteClosed(direction),
    ensures
        match Session::Relaying(flows).next(event) {
            Session::Relaying(then) => then.of(direction.opposite()) == flows.of(
                direction.opposite(),
            ),
            Session::Completed => flows.of(direction.opposite()) == Flow::Done,
            _ => false,
        },
{
}

/// A join, not a race: a direction that is done does not end the session
/// while the opposite direction is still open.
pub proof fn one_closed_direction_does_not_end_the_session(flows: Flows, direction: Direction)
    requires
        flows.of(direction) == Flow::Closing,
        flows.of(direction.opposite()) != Flow::Done,
    ensures
        Session::Relaying(flows).reaction(Event::WriteClosed(direction)) == (
            Session::Relaying(flows.with(direction, Flow::Done)),
            Action::Continue,
        ),
{
}

/// The session completes when the second of the two directions is closed.
pub proof fn second_closed_direction_completes_the_session(flows: Flows, direction: Direction)
    requires
        flows.of(direction) == Flow::Closing,
        flows.of(direction.opposite()) == Flow::Done,
    ensures
        Session::Relaying(flows).reaction(Event::WriteClosed(direction)) == (
            Session::Completed,
            Action::Finish,
        ),
{
}

/// A new session completes only after both directions have seen end of
/// data and have had their sink's write side closed.
pub proof fn completion_needs_both_directions(events: Seq<Event>, direction: Direction)
    requires
        Session::Connecting.after(events) == Session::Completed,
    ensures
        events.contains(Event::EndOfData(direction)),
        events.contains(Event::WriteClosed(direction)),
{
    lemma_completion_needs(Session::Connecting, events, direction);
}

/// How far a direction has come in any state; before the relay starts it
/// has everything ahead of it.
spec fn progress(session: Session, direction: Direction) -> Flow {
    match session {
        Session::Relaying(flows) => flows.of(direction),
        Session::Completed => Flow::Done,
        _ => Flow::Copying,
    }
}

proof fn lemma_completion_needs(session: Session, events: Seq<Event>, d: Direction)
    requires
        session.after(events) == Session::Completed,
        session.wf(),
    ensures
        progress(session, d) == Flow::Copying ==> events.contains(Event::EndOfData(d)),
        progress(session, d) != Flow::Done ==> events.contains(Event::WriteClosed(d)),
    decreases events.len(),
{
    if events.len() > 0 {
        let rest = events.skip(1);
        let then = session.next(events[0]);
        if then.over() {
            ended_session_ignores_events(then, rest);
        }
        lemma_completion_needs(then, rest, d);
        assert forall|e: Event| rest.contains(e) implies events.contains(e) by {
            let i = choose|i: int| 0 <= i < rest.len() && rest[i] == e;
            assert(events[i + 1] == e);
        }
        assert(events[0] == events[0]);
    }
}

/// Fail-fast: a failure in a direction that is not done fails the whole
/// session with `CopyError`, however far the opposite direction has come.
pub proof fn io_failure_fails_the_session(flows: Flows, direction: Direction)
    requires
        flows.of(direction) != Flow::Done,
    ensures
        Session::Relaying(flows).reaction(Event::IoFailed(direction)) == (
            Session::Failed(TunnelError::CopyError),
            Action::Abort(TunnelError::CopyError),
        ),
{
}

/// Each failure of the connector fails the session at once with its own
/// error: no attempt is repeated.
pub proof fn connector_fails_fast()
    ensures
        Session::opened(false) == (
            Session::Failed(TunnelError::InvalidHostname),
            Action::Abort(TunnelError::InvalidHostname),
        ),
        Session::Connecting.reaction(Event::ConnectFailed) == (
            Session::Failed(TunnelError::ConnectFailed),
            Action::Abort(TunnelError::ConnectFailed),
        ),
        Session::Handshaking.reaction(Event::HandshakeFailed) == (
            Session::Failed(TunnelError::HandshakeFailed),
            Action::Abort(TunnelError::HandshakeFailed),
        ),
{
}

} // verus!
