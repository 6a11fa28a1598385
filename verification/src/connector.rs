//! The transport connector: where to dial, and what to make of the outcome.
//!
//! The connector opens no socket itself. It names the target of the next
//! attempt and is told how the attempt ended. With a port given by the caller
//! there is one attempt, at that port. Without one, the destination is dialled
//! as written, and if that fails, once more at the default port.

use vstd::prelude::*;
use crate::error::ConnectError;
use crate::port::{parse_port, port_number};

verus! {

/// The port that a remote shell listens on unless the caller names another.
pub const DEFAULT_PORT: u16 = 22;

/// Where an attempt to connect is directed.
#[derive(Clone, Copy, Debug, PartialEq, Eq, Structural)]
pub enum Target {
    /// The destination exactly as the caller wrote it.
    AsWritten,
    /// The destination's host at this port.
    Port(u16),
}

/// How far the connector has got.
#[derive(Clone, Copy, Debug, PartialEq, Eq, Structural)]
pub enum Connector {
    /// The one attempt at the port that the caller gave is under way.
    DialingGiven,
    /// The attempt at the destination as written is under way; the default
    /// port is still in reserve.
    DialingAsWritten,
    /// The attempt at the default port is under way.
    DialingDefault,
    /// A connection stands; the peer is at this port.
    Connected(u16),
    /// No connection will be made, for this reason.
    Failed(ConnectError),
}

/// How an attempt to connect ended.
#[derive(Clone, Copy, Debug, PartialEq, Eq, Structural)]
pub enum ConnectEvent {
    /// The connection stands; the peer's end of it is at this port.
    Connected { peer_port: u16 },
    /// No connection came about.
    Refused,
    /// A connection came about, but the peer's address cannot be told.
    PeerUnknown,
}

/// What the connector wants done next.
#[derive(Clone, Copy, Debug, PartialEq, Eq, Structural)]
pub enum ConnectAction {
    /// Try to connect to this target; report how it ended.
    Dial(Target),
    /// Go on to the handshake; the peer is at this port.
    Proceed { port: u16 },
    /// Give up with this error.
    Fail(ConnectError),
}

impl Connector {
    /// Whether no attempt is under way any more.
    pub open spec fn finished(self) -> bool {
        self is Connected || self is Failed
    }

    /// What a finished connector has to say.
    pub open spec fn verdict(self) -> ConnectAction {
        match self {
            Connector::Connected(port) => ConnectAction::Proceed { port },
            Connector::Failed(error) => ConnectAction::Fail(error),
            _ => ConnectAction::Fail(ConnectError::Connection),
        }
    }

    /// The connector at the outset, and the first thing to do, for a port as
    /// the caller wrote it, if any.
    pub open spec fn opening(port: Option<Seq<char>>) -> (Connector, ConnectAction) {
        match port {
            None => (Connector::DialingAsWritten, ConnectAction::Dial(Target::AsWritten)),
            Some(text) => match port_number(text) {
                Some(number) => (
                    Connector::DialingGiven,
                    ConnectAction::Dial(Target::Port(number)),
                ),
                None => (
                    Connector::Failed(ConnectError::Configuration),
                    ConnectAction::Fail(ConnectError::Configuration),
                ),
            },
        }
    }

    /// The state that follows `self` on `event`, and what is to be done next.
    /// A finished connector repeats its verdict.
    pub open spec fn next(self, event: ConnectEvent) -> (Connector, ConnectAction) {
        if self.finished() {
            (self, self.verdict())
        } else {
            match event {
                ConnectEvent::Connected { peer_port } => (
                    Connector::Connected(peer_port),
                    ConnectAction::Proceed { port: peer_port },
                ),
                ConnectEvent::Refused => if self is DialingAsWritten {
                    (Connector::DialingDefault, ConnectAction::Dial(Target::Port(DEFAULT_PORT)))
                } else {
                    (
                        Connector::Failed(ConnectError::Connection),
                        ConnectAction::Fail(ConnectError::Connection),
                    )
                },
                ConnectEvent::PeerUnknown => (
                    Connector::Failed(ConnectError::Connection),
                    ConnectAction::Fail(ConnectError::Connection),
                ),
            }
        }
    }

    /// Starts a connection attempt. A port that does not parse ends it at
    /// once, before anything is dialled.
    pub fn begin(port: Option<&str>) -> (r: (Connector, ConnectAction))
        ensures
            r == Connector::opening(
                match port {
                    Some(text) => Some(text@),
                    None => None,
                },
            ),
    {
        match port {
            None => (Connector::DialingAsWritten, ConnectAction::Dial(Target::AsWritten)),
            Some(text) => match parse_port(text) {
                Ok(number) => (Connector::DialingGiven, ConnectAction::Dial(Target::Port(number))),
                Err(error) => (Connector::Failed(error), ConnectAction::Fail(error)),
            },
        }
    }

    /// Whether the attempt is over, so that no further event is expected.
    pub fn is_finished(&self) -> (b: bool)
        ensures
            b == self.finished(),
    {
        match self {
            Connector::Connected(_) | Connector::Failed(_) => true,
            _ => false,
        }
    }

    /// Takes in how the last attempt ended and says what to do next.
    pub fn step(self, event: ConnectEvent) -> (r: (Connector, ConnectAction))
        ensures
            r == self.next(event),
    {
        match self {
            Connector::Connected(port) => (self, ConnectAction::Proceed { port }),
            Connector::Failed(error) => (self, ConnectAction::Fail(error)),
            _ => match event {
                ConnectEvent::Connected { peer_port } => (
                    Connector::Connected(peer_port),
                    ConnectAction::Proceed { port: peer_port },
                ),
                ConnectEvent::Refused => match self {
                    Connector::DialingAsWritten => (
                        Connector::DialingDefault,
                        ConnectAction::Dial(Target::Port(DEFAULT_PORT)),
                    ),
                    _ => (
                        Connector::Failed(ConnectError::Connection),
                        ConnectAction::Fail(ConnectError::Connection),
                    ),
                },
                ConnectEvent::PeerUnknown => (
                    Connector::Failed(ConnectError::Connection),
                    ConnectAction::Fail(ConnectError::Connection),
                ),
            },
        }
    }
}

/// The state of a connector that was started for `port` and then told
/// `events`, in this order.
pub open spec fn connector_after(port: Option<Seq<char>>, events: Seq<ConnectEvent>) -> Connector
    decreases events.len(),
{
    if events.len() == 0 {
        Connector::opening(port).0
    } else {
        connector_after(port, events.drop_last()).next(events.last()).0
    }
}

/// What a connector that was started for `port` and then told `events` wants
/// done next.
pub open spec fn connect_action_after(port: Option<Seq<char>>, events: Seq<ConnectEvent>)
    -> ConnectAction
    decreases events.len(),
{
    if events.len() == 0 {
        Connector::opening(port).1
    } else {
        connector_after(port, events.drop_last()).next(events.last()).1
    }
}

/// How many attempts to connect the run that was started for `port` and told
/// `events` has asked for.
pub open spec fn dials(port: Option<Seq<char>>, events: Seq<ConnectEvent>) -> nat
    decreases events.len(),
{
    let earlier: nat = if events.len() == 0 {
        0
    } else {
        dials(port, events.drop_last())
    };
    earlier + if connect_action_after(port, events) is Dial {
        1nat
    } else {
        0nat
    }
}

/// What the outcome of the last attempt that is made turns into.
pub open spec fn final_verdict(outcome: ConnectEvent) -> ConnectAction {
    match outcome {
        ConnectEvent::Connected { peer_port } => ConnectAction::Proceed { port: peer_port },
        _ => ConnectAction::Fail(ConnectError::Connection),
    }
}

/// Without a port from the caller, a failure to connect to the destination as
/// written is followed by exactly one more attempt, at the default port, and
/// however that attempt ends is how the whole run ends: nothing is dialled
/// after it, whatever is reported.
pub proof fn law_one_fallback(outcome: ConnectEvent, later: Seq<ConnectEvent>)
    ensures
        connect_action_after(None, seq![]) == ConnectAction::Dial(Target::AsWritten),
        connect_action_after(None, seq![ConnectEvent::Refused]) == ConnectAction::Dial(
            Target::Port(22),
        ),
        connect_action_after(None, seq![ConnectEvent::Refused, outcome] + later) == final_verdict(
            outcome,
        ),
        dials(None, seq![ConnectEvent::Refused, outcome] + later) == 2,
{
    let first = seq![ConnectEvent::Refused];
    let both = seq![ConnectEvent::Refused, outcome];
    assert(first.drop_last() =~= Seq::<ConnectEvent>::empty());
    assert(both.drop_last() =~= first);
    assert(dials(None, Seq::<ConnectEvent>::empty()) == 1);
    assert(connector_after(None, first) == Connector::DialingDefault);
    assert(dials(None, first) == 2);
    lemma_verdict_stands(None, both, later);
}

/// A run that has reached a verdict keeps it, and asks for no more attempts.
proof fn lemma_verdict_stands(
    port: Option<Seq<char>>,
    events: Seq<ConnectEvent>,
    later: Seq<ConnectEvent>,
)
    requires
        connector_after(port, events).finished(),
        connect_action_after(port, events) == connector_after(port, events).verdict(),
    ensures
        connector_after(port, events + later) == connector_after(port, events),
        connect_action_after(port, events + later) == connect_action_after(port, events),
        dials(port, events + later) == dials(port, events),
    decreases later.len(),
{
    if later.len() == 0 {
        assert(events + later =~= events);
    } else {
        lemma_verdict_stands(port, events, later.drop_last());
        assert((events + later).drop_last() =~= events + later.drop_last());
    }
}

/// No run asks for more than two attempts, and a run for which the caller
/// gave a port asks for no more than one. A port that does not parse ends the
/// run with a configuration error before anything is dialled.
pub proof fn law_attempts_bounded(port: Option<Seq<char>>, events: Seq<ConnectEvent>)
    ensures
        dials(port, events) <= 2,
        port is Some ==> dials(port, events) <= 1,
        port matches Some(text) ==> (port_number(text) is None ==> dials(port, events) == 0
            && connect_action_after(port, events) == ConnectAction::Fail(
            ConnectError::Configuration,
        )),
    decreases events.len(),
{
    lemma_dials(port, events);
}

/// The attempts asked for so far, by the state reached.
proof fn lemma_dials(port: Option<Seq<char>>, events: Seq<ConnectEvent>)
    ensures
        ({
            let state = connector_after(port, events);
            &&& state is DialingGiven ==> dials(port, events) == 1 && port is Some
            &&& state is DialingAsWritten ==> dials(port, events) == 1 && port is None
            &&& state is DialingDefault ==> dials(port, events) == 2 && port is None
            &&& state.finished() ==> dials(port, events) <= 2
            &&& state.finished() && port is Some ==> dials(port, events) <= 1
            &&& port matches Some(text) ==> (port_number(text) is None ==> dials(port, events) == 0
                && state == Connector::Failed(ConnectError::Configuration)
                && connect_action_after(port, events) == ConnectAction::Fail(
                ConnectError::Configuration,
            ))
        }),
    decreases events.len(),
{
    if events.len() > 0 {
        lemma_dials(port, events.drop_last());
    }
}

} // verus!
