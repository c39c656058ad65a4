//! The accept loop: what to do with each outcome of an accept.
//!
//! The loop owns the listener and launches one session per connection. It
//! never sees how a session ends: a session's failure has no way into this
//! machine.

use vstd::prelude::*;

verus! {

/// Whether the loop still accepts.
#[derive(Clone, Copy, Debug, PartialEq, Eq, Structural)]
pub enum Acceptor {
    /// The listener is open and the loop accepts.
    Listening,
    /// The listener has failed for good; the loop has ended.
    Stopped,
}

/// How one accept ended.
#[derive(Clone, Copy, Debug, PartialEq, Eq, Structural)]
pub enum AcceptEvent {
    /// A connection was accepted.
    Accepted,
    /// This accept failed, but the listener is still usable.
    TransientFailure,
    /// The listener itself has failed.
    FatalFailure,
}

/// What the loop does next.
#[derive(Clone, Copy, Debug, PartialEq, Eq, Structural)]
pub enum AcceptAction {
    /// Launch an independent session for the new connection, then accept
    /// again.
    Launch,
    /// Accept again.
    Retry,
    /// Leave the loop.
    Stop,
}

impl Acceptor {
    /// The state and the action that answer `event`.
    pub open spec fn reaction(self, event: AcceptEvent) -> (Acceptor, AcceptAction) {
        match self {
            Acceptor::Stopped => (Acceptor::Stopped, AcceptAction::Stop),
            Acceptor::Listening => match event {
                AcceptEvent::Accepted => (Acceptor::Listening, AcceptAction::Launch),
                AcceptEvent::TransientFailure => (Acceptor::Listening, AcceptAction::Retry),
                AcceptEvent::FatalFailure => (Acceptor::Stopped, AcceptAction::Stop),
            },
        }
    }

    /// The state after all of `events`, in order.
    pub open spec fn after(self, events: Seq<AcceptEvent>) -> Acceptor
        decreases events.len(),
    {
        if events.len() == 0 {
            self
        } else {
            self.reaction(events[0]).0.after(events.skip(1))
        }
    }

    /// The actions that answer `events`, in order.
    pub open spec fn actions(self, events: Seq<AcceptEvent>) -> Seq<AcceptAction>
        decreases events.len(),
    {
        if events.len() == 0 {
            Seq::empty()
        } else {
            seq![self.reaction(events[0]).1] + self.reaction(events[0]).0.actions(events.skip(1))
        }
    }

    /// A loop over a freshly bound listener.
    pub fn new() -> (acceptor: Acceptor)
        ensures
            acceptor == Acceptor::Listening,
    {
        Acceptor::Listening
    }

    /// Takes the outcome of one accept and answers with the new state and
    /// the action to perform.
    pub fn step(self, event: AcceptEvent) -> (answer: (Acceptor, AcceptAction))
        ensures
            answer == self.reaction(event),
    {
        match self {
            Acceptor::Stopped => (Acceptor::Stopped, AcceptAction::Stop),
            Acceptor::Listening => match event {
                AcceptEvent::Accepted => (Acceptor::Listening, AcceptAction::Launch),
                AcceptEvent::TransientFailure => (Acceptor::Listening, AcceptAction::Retry),
                AcceptEvent::FatalFailure => (Acceptor::Stopped, AcceptAction::Stop),
            },
        }
    }

    /// Whether the loop still accepts.
    pub fn is_listening(&self) -> (listening: bool)
        ensures
            listening == (*self == Acceptor::Listening),
    {
        match self {
            Acceptor::Listening => true,
            Acceptor::Stopped => false,
        }
    }
}

/// The action that a listening loop gives for an event.
pub open spec fn answer_while_listening(event: AcceptEvent) -> AcceptAction {
    match event {
        AcceptEvent::Accepted => AcceptAction::Launch,
        AcceptEvent::TransientFailure => AcceptAction::Retry,
        AcceptEvent::FatalFailure => AcceptAction::Stop,
    }
}

/// Up to and including the first fatal failure, every connection launches
/// exactly one session and every transient failure is skipped; after it the
/// loop only stops. The loop is still listening exactly when no fatal
/// failure was reported.
pub proof fn loop_runs_until_first_fatal_failure(events: Seq<AcceptEvent>)
    ensures
        Acceptor::Listening.actions(events).len() == events.len(),
        forall|i: int|
            0 <= i < events.len() ==> #[trigger] Acceptor::Listening.actions(events)[i] == (
            if events.take(i).contains(AcceptEvent::FatalFailure) {
                AcceptAction::Stop
            } else {
                answer_while_listening(events[i])
            }),
        Acceptor::Listening.after(events) == Acceptor::Listening <==> !events.contains(
            AcceptEvent::FatalFailure,
        ),
    decreases events.len(),
{
    let fatal = AcceptEvent::FatalFailure;
    if events.len() > 0 {
        let rest = events.skip(1);
        let answers = Acceptor::Listening.actions(events);
        if events[0] == fatal {
            stopped_loop_stays_stopped(rest);
            assert forall|i: int| 0 <= i < events.len() implies #[trigger] answers[i] == (
            if events.take(i).contains(fatal) {
                AcceptAction::Stop
            } else {
                answer_while_listening(events[i])
            }) by {
                if i > 0 {
                    assert(answers[i] == Acceptor::Stopped.actions(rest)[i - 1]);
                    assert(events.take(i)[0] == fatal);
                } else {
                    assert(events.take(0).len() == 0);
                }
            }
            assert(events.contains(fatal));
        } else {
            loop_runs_until_first_fatal_failure(rest);
            assert forall|i: int| 0 <= i < events.len() implies #[trigger] answers[i] == (
            if events.take(i).contains(fatal) {
                AcceptAction::Stop
            } else {
                answer_while_listening(events[i])
            }) by {
                if i > 0 {
                    assert(answers[i] == Acceptor::Listening.actions(rest)[i - 1]);
                    assert(events[i] == rest[i - 1]);
                    let before = events.take(i);
                    let shifted = rest.take(i - 1);
                    if shifted.contains(fatal) {
                        let k = choose|k: int| 0 <= k < shifted.len() && shifted[k] == fatal;
                        assert(before[k + 1] == fatal);
                    }
                    if before.contains(fatal) {
                        let k = choose|k: int| 0 <= k < before.len() && before[k] == fatal;
                        assert(k > 0);
                        assert(shifted[k - 1] == fatal);
                    }
                } else {
                    assert(events.take(0).len() == 0);
                }
            }
            if rest.contains(fatal) {
                let k = choose|k: int| 0 <= k < rest.len() && rest[k] == fatal;
                assert(events[k + 1] == fatal);
            }
            if events.contains(fatal) {
                let k = choose|k: int| 0 <= k < events.len() && events[k] == fatal;
                assert(rest[k - 1] == fatal);
            }
        }
    }
}

/// Once the loop has stopped it launches nothing more.
pub proof fn stopped_loop_stays_stopped(events: Seq<AcceptEvent>)
    ensures
        Acceptor::Stopped.after(events) == Acceptor::Stopped,
        Acceptor::Stopped.actions(events).len() == events.len(),
        forall|i: int|
            0 <= i < events.len() ==> Acceptor::Stopped.actions(events)[i] == AcceptAction::Stop,
    decreases events.len(),
{
    if events.len() > 0 {
        let rest = events.skip(1);
        stopped_loop_stays_stopped(rest);
        let answers = Acceptor::Stopped.actions(events);
        assert forall|i: int| 0 <= i < events.len() implies answers[i] == AcceptAction::Stop by {
            if i > 0 {
                assert(answers[i] == Acceptor::Stopped.actions(rest)[i - 1]);
            }
        }
    }
}

} // verus!
