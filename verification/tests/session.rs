use tls_tunnel::error::TunnelError;
use tls_tunnel::session::{open, Action, Direction, Event, Flow, Flows, Peer, Session};

fn run(start: Session, events: &[Event]) -> (Session, Vec<Action>) {
    let mut session = start;
    let mut actions = Vec::new();
    for event in events {
        let (next, action) = session.step(*event);
        session = next;
        actions.push(action);
    }
    (session, actions)
}

fn relaying(forward: Flow, reverse: Flow) -> Session {
    Session::Relaying(Flows { forward, reverse })
}

fn all_events() -> Vec<Event> {
    vec![
        Event::Connected,
        Event::ConnectFailed,
        Event::HandshakeCompleted,
        Event::HandshakeFailed,
        Event::EndOfData(Direction::Forward),
        Event::EndOfData(Direction::Reverse),
        Event::WriteClosed(Direction::Forward),
        Event::WriteClosed(Direction::Reverse),
        Event::IoFailed(Direction::Forward),
        Event::IoFailed(Direction::Reverse),
    ]
}

#[test]
fn open_with_valid_host_starts_connecting() {
    let opening = open("example.com:443");
    assert_eq!(opening.session, Session::Connecting);
    assert_eq!(opening.action, Action::Connect);
    assert_eq!(opening.server_name, Some("example.com".to_string()));
}

#[test]
fn open_with_invalid_host_fails_before_connecting() {
    let opening = open("not a host");
    assert_eq!(opening.session, Session::Failed(TunnelError::InvalidHostname));
    assert_eq!(opening.action, Action::Abort(TunnelError::InvalidHostname));
    assert_eq!(opening.server_name, None);
}

#[test]
fn directions_name_their_peers() {
    assert_eq!(Direction::Forward.reads_from(), Peer::Inbound);
    assert_eq!(Direction::Forward.writes_to(), Peer::Outbound);
    assert_eq!(Direction::Reverse.reads_from(), Peer::Outbound);
    assert_eq!(Direction::Reverse.writes_to(), Peer::Inbound);
}

#[test]
fn session_runs_from_connect_to_completion() {
    let (session, actions) = run(
        Session::Connecting,
        &[
            Event::Connected,
            Event::HandshakeCompleted,
            Event::EndOfData(Direction::Forward),
            Event::WriteClosed(Direction::Forward),
            Event::EndOfData(Direction::Reverse),
            Event::WriteClosed(Direction::Reverse),
        ],
    );
    assert_eq!(session, Session::Completed);
    assert_eq!(
        actions,
        vec![
            Action::Handshake,
            Action::Relay,
            Action::CloseWrite(Peer::Outbound),
            Action::Continue,
            Action::CloseWrite(Peer::Inbound),
            Action::Finish,
        ]
    );
    assert!(session.is_over());
    assert_eq!(session.outcome(), Some(Ok(())));
}

#[test]
fn connect_failure_fails_the_session() {
    let (session, actions) = run(Session::Connecting, &[Event::ConnectFailed]);
    assert_eq!(session, Session::Failed(TunnelError::ConnectFailed));
    assert_eq!(actions, vec![Action::Abort(TunnelError::ConnectFailed)]);
    assert_eq!(session.outcome(), Some(Err(TunnelError::ConnectFailed)));
}

#[test]
fn handshake_failure_never_establishes_a_relay() {
    let mut events = vec![Event::Connected, Event::HandshakeFailed];
    events.extend(all_events());
    let (session, actions) = run(Session::Connecting, &events);
    assert_eq!(session, Session::Failed(TunnelError::HandshakeFailed));
    assert_eq!(actions[0], Action::Handshake);
    assert_eq!(actions[1], Action::Abort(TunnelError::HandshakeFailed));
    assert!(actions[2..].iter().all(|a| *a == Action::Continue));
    assert!(!actions.contains(&Action::Relay));
}

#[test]
fn inbound_end_of_data_closes_outbound_write_side_only() {
    let (session, action) =
        relaying(Flow::Copying, Flow::Copying).step(Event::EndOfData(Direction::Forward));
    assert_eq!(session, relaying(Flow::Closing, Flow::Copying));
    assert_eq!(action, Action::CloseWrite(Peer::Outbound));
    assert!(!session.is_over());
    assert_eq!(session.outcome(), None);
}

#[test]
fn outbound_end_of_data_closes_inbound_write_side_only() {
    let (session, action) =
        relaying(Flow::Copying, Flow::Copying).step(Event::EndOfData(Direction::Reverse));
    assert_eq!(session, relaying(Flow::Copying, Flow::Closing));
    assert_eq!(action, Action::CloseWrite(Peer::Inbound));
}

#[test]
fn reverse_direction_goes_on_after_forward_is_done() {
    let (session, actions) = run(
        relaying(Flow::Copying, Flow::Copying),
        &[Event::EndOfData(Direction::Forward), Event::WriteClosed(Direction::Forward)],
    );
    assert_eq!(session, relaying(Flow::Done, Flow::Copying));
    assert_eq!(actions, vec![Action::CloseWrite(Peer::Outbound), Action::Continue]);
    assert!(!session.is_over());
    let (session, actions) = run(
        session,
        &[Event::EndOfData(Direction::Reverse), Event::WriteClosed(Direction::Reverse)],
    );
    assert_eq!(session, Session::Completed);
    assert_eq!(actions, vec![Action::CloseWrite(Peer::Inbound), Action::Finish]);
}

#[test]
fn both_directions_may_close_in_either_order() {
    let (session, actions) = run(
        relaying(Flow::Copying, Flow::Copying),
        &[
            Event::EndOfData(Direction::Reverse),
            Event::EndOfData(Direction::Forward),
            Event::WriteClosed(Direction::Forward),
            Event::WriteClosed(Direction::Reverse),
        ],
    );
    assert_eq!(session, Session::Completed);
    assert_eq!(actions[3], Action::Finish);
    assert_eq!(actions[2], Action::Continue);
}

#[test]
fn io_failure_fails_the_session_at_once() {
    for flows in [
        (Flow::Copying, Flow::Copying),
        (Flow::Copying, Flow::Closing),
        (Flow::Copying, Flow::Done),
        (Flow::Closing, Flow::Copying),
        (Flow::Closing, Flow::Done),
    ] {
        let (session, action) =
            relaying(flows.0, flows.1).step(Event::IoFailed(Direction::Forward));
        assert_eq!(session, Session::Failed(TunnelError::CopyError));
        assert_eq!(action, Action::Abort(TunnelError::CopyError));
    }
    let (session, action) =
        relaying(Flow::Done, Flow::Closing).step(Event::IoFailed(Direction::Reverse));
    assert_eq!(session, Session::Failed(TunnelError::CopyError));
    assert_eq!(action, Action::Abort(TunnelError::CopyError));
}

#[test]
fn events_out_of_turn_change_nothing() {
    let cases = [
        (Session::Connecting, Event::HandshakeCompleted),
        (Session::Connecting, Event::EndOfData(Direction::Forward)),
        (Session::Handshaking, Event::Connected),
        (Session::Handshaking, Event::WriteClosed(Direction::Reverse)),
        (relaying(Flow::Copying, Flow::Copying), Event::WriteClosed(Direction::Forward)),
        (relaying(Flow::Closing, Flow::Copying), Event::EndOfData(Direction::Forward)),
        (relaying(Flow::Done, Flow::Copying), Event::IoFailed(Direction::Forward)),
        (relaying(Flow::Copying, Flow::Copying), Event::HandshakeFailed),
    ];
    for (session, event) in cases {
        assert_eq!(session.step(event), (session, Action::Continue));
    }
}

#[test]
fn ended_sessions_ignore_everything() {
    for session in [Session::Completed, Session::Failed(TunnelError::CopyError)] {
        for event in all_events() {
            assert_eq!(session.step(event), (session, Action::Continue));
        }
    }
}

#[test]
fn two_sessions_do_not_touch_each_other() {
    let first = open("one.example.com").session;
    let second = open("two.example.com").session;
    let (first, _) = run(first, &[Event::Connected, Event::HandshakeFailed]);
    let (second, actions) = run(
        second,
        &[Event::Connected, Event::HandshakeCompleted, Event::EndOfData(Direction::Forward)],
    );
    assert_eq!(first, Session::Failed(TunnelError::HandshakeFailed));
    assert_eq!(second, relaying(Flow::Closing, Flow::Copying));
    assert_eq!(actions, vec![Action::Handshake, Action::Relay, Action::CloseWrite(Peer::Outbound)]);
}
