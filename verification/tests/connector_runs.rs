use ssh_connect::connector::{ConnectAction, ConnectEvent, Connector, Target, DEFAULT_PORT};
use ssh_connect::error::ConnectError;

#[test]
fn default_port_is_22() {
    assert_eq!(DEFAULT_PORT, 22);
}

#[test]
fn given_port_is_dialled_once() {
    let (state, action) = Connector::begin(Some("2222"));
    assert_eq!(action, ConnectAction::Dial(Target::Port(2222)));
    assert!(!state.is_finished());
    let (state, action) = state.step(ConnectEvent::Refused);
    assert_eq!(action, ConnectAction::Fail(ConnectError::Connection));
    assert!(state.is_finished());
}

#[test]
fn given_port_that_connects_proceeds_with_the_peer_port() {
    let (state, _) = Connector::begin(Some("2222"));
    let (state, action) = state.step(ConnectEvent::Connected { peer_port: 2222 });
    assert_eq!(action, ConnectAction::Proceed { port: 2222 });
    assert_eq!(state, Connector::Connected(2222));
    assert!(state.is_finished());
}

#[test]
fn unparsable_port_fails_before_any_dial() {
    for text in ["", "ssh", "65536", "-1", " 22"] {
        let (state, action) = Connector::begin(Some(text));
        assert_eq!(action, ConnectAction::Fail(ConnectError::Configuration));
        assert!(state.is_finished());
        let (state, action) = state.step(ConnectEvent::Connected { peer_port: 22 });
        assert_eq!(action, ConnectAction::Fail(ConnectError::Configuration));
        assert_eq!(state, Connector::Failed(ConnectError::Configuration));
    }
}

#[test]
fn no_port_dials_the_destination_as_written_first() {
    let (state, action) = Connector::begin(None);
    assert_eq!(action, ConnectAction::Dial(Target::AsWritten));
    let (state, action) = state.step(ConnectEvent::Connected { peer_port: 8022 });
    assert_eq!(action, ConnectAction::Proceed { port: 8022 });
    assert!(state.is_finished());
}

#[test]
fn no_port_falls_back_to_22_exactly_once() {
    let (state, _) = Connector::begin(None);
    let (state, action) = state.step(ConnectEvent::Refused);
    assert_eq!(action, ConnectAction::Dial(Target::Port(22)));
    assert!(!state.is_finished());
    let (state, action) = state.step(ConnectEvent::Refused);
    assert_eq!(action, ConnectAction::Fail(ConnectError::Connection));
    assert!(state.is_finished());
    let (state, action) = state.step(ConnectEvent::Refused);
    assert_eq!(action, ConnectAction::Fail(ConnectError::Connection));
    assert_eq!(state, Connector::Failed(ConnectError::Connection));
}

#[test]
fn fallback_success_is_the_final_result() {
    let (state, _) = Connector::begin(None);
    let (state, _) = state.step(ConnectEvent::Refused);
    let (state, action) = state.step(ConnectEvent::Connected { peer_port: 22 });
    assert_eq!(action, ConnectAction::Proceed { port: 22 });
    let (state, action) = state.step(ConnectEvent::Refused);
    assert_eq!(action, ConnectAction::Proceed { port: 22 });
    assert_eq!(state, Connector::Connected(22));
}

#[test]
fn unknown_peer_address_ends_the_run_without_fallback() {
    let (state, _) = Connector::begin(None);
    let (state, action) = state.step(ConnectEvent::PeerUnknown);
    assert_eq!(action, ConnectAction::Fail(ConnectError::Connection));
    assert!(state.is_finished());
}

#[test]
fn no_run_dials_more_than_twice() {
    let events = [
        ConnectEvent::Refused,
        ConnectEvent::PeerUnknown,
        ConnectEvent::Connected { peer_port: 1 },
    ];
    for port in [None, Some("22"), Some("bad")] {
        for a in events {
            for b in events {
                for c in events {
                    for d in events {
                        let (mut state, mut action) = Connector::begin(port);
                        let mut dials = 0;
                        for event in [a, b, c, d] {
                            if matches!(action, ConnectAction::Dial(_)) {
                                dials += 1;
                            }
                            let next = state.step(event);
                            state = next.0;
                            action = next.1;
                        }
                        assert!(!matches!(action, ConnectAction::Dial(_)));
                        assert!(dials <= 2);
                        if port.is_some() {
                            assert!(dials <= 1);
                        }
                    }
                }
            }
        }
    }
}
