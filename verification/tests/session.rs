use socks5_relay::error::ProtocolError;
use socks5_relay::negotiator::{Action, Negotiator, Outcome};
use socks5_relay::relay::{CopyAction, CopyEvent, Direction, RelayPair};

/// A client that has sent `sent`, and an upstream that can be reached or
/// not. Reads are served from the front of what the client sent; everything
/// written to the client is kept.
struct Session {
    sent: Vec<u8>,
    reachable: bool,
    written: Vec<u8>,
    dialled: Vec<String>,
    relayed: bool,
}

fn take(sent: &mut Vec<u8>, count: usize) -> Vec<u8> {
    let rest = sent.split_off(count);
    let front = sent.clone();
    *sent = rest;
    front
}

/// Drives a negotiator from its start until it closes or starts the relay.
fn drive(sent: &[u8], reachable: bool) -> (Negotiator, Session) {
    let mut session = Session {
        sent: sent.to_vec(),
        reachable,
        written: Vec::new(),
        dialled: Vec::new(),
        relayed: false,
    };
    let (mut state, mut action) = Negotiator::start();
    loop {
        let outcome = match action {
            Action::ReadExact(count) => {
                if session.sent.len() >= count {
                    Outcome::Received(take(&mut session.sent, count))
                } else {
                    Outcome::Failed
                }
            }
            Action::ReadUpTo(count) => {
                let count = count.min(session.sent.len());
                Outcome::Received(take(&mut session.sent, count))
            }
            Action::Send(bytes) => {
                session.written.extend_from_slice(&bytes);
                Outcome::Completed
            }
            Action::Connect(target) => {
                session.dialled.push(target);
                if session.reachable {
                    Outcome::Completed
                } else {
                    Outcome::Failed
                }
            }
            Action::Relay => {
                session.relayed = true;
                return (state, session);
            }
            Action::Close => return (state, session),
        };
        let next = state.step(outcome);
        state = next.0;
        action = next.1;
    }
}

fn connect_to_echo() -> Vec<u8> {
    let mut sent = vec![5, 1, 0];
    sent.extend_from_slice(&[5, 1, 0, 1, 127, 0, 0, 1, 0x1F, 0x90]);
    sent
}

#[test]
fn client_reaches_an_echo_server_and_gets_its_ping_back() {
    let mut sent = connect_to_echo();
    sent.extend_from_slice(b"ping");
    let (state, mut session) = drive(&sent, true);
    assert_eq!(state, Negotiator::Relaying);
    assert!(session.relayed);
    assert_eq!(session.dialled, vec!["127.0.0.1:8080".to_string()]);
    assert_eq!(
        session.written,
        vec![0x05, 0x00, 0x05, 0x00, 0x00, 0x01, 0x00, 0x00, 0x00, 0x00, 0x00, 0x50]
    );
    assert_eq!(session.sent, b"ping");

    let pair = RelayPair::new();
    let payload = take(&mut session.sent, 4);
    let (pair, outbound) = pair.step(Direction::ClientToUpstream, CopyEvent::Read(payload));
    let at_upstream = match outbound {
        CopyAction::Forward(bytes) => bytes,
        CopyAction::Stop => panic!("nothing reached the upstream"),
    };
    assert_eq!(at_upstream, b"ping");
    let (pair, inbound) = pair.step(Direction::UpstreamToClient, CopyEvent::Read(at_upstream));
    match inbound {
        CopyAction::Forward(bytes) => session.written.extend_from_slice(&bytes),
        CopyAction::Stop => panic!("nothing came back"),
    }
    assert_eq!(session.written[12..], b"ping"[..]);

    let (pair, _) = pair.step(Direction::ClientToUpstream, CopyEvent::Read(vec![]));
    assert!(!pair.is_complete());
    let (pair, _) = pair.step(Direction::UpstreamToClient, CopyEvent::Read(vec![]));
    assert!(pair.is_complete());
    let (state, action) = state.step(Outcome::Completed);
    assert_eq!(state, Negotiator::Closed { error: None });
    assert_eq!(action, Action::Close);
}

#[test]
fn client_asking_for_a_domain_is_connected_to_it() {
    let mut sent = vec![5, 2, 0, 1];
    sent.extend_from_slice(&[5, 1, 0, 3, 11]);
    sent.extend_from_slice(b"example.com");
    sent.extend_from_slice(&[0x01, 0xBB]);
    let (state, session) = drive(&sent, true);
    assert_eq!(state, Negotiator::Relaying);
    assert_eq!(session.dialled, vec!["example.com:443".to_string()]);
    assert_eq!(session.written[..2], [0x05, 0x00]);
    assert_eq!(session.written[2..], [0x05, 0x00, 0x00, 0x01, 0, 0, 0, 0, 0x00, 0x50]);
    assert!(session.sent.is_empty());
}

#[test]
fn unreachable_destination_gets_the_client_no_success_reply() {
    let mut sent = connect_to_echo();
    sent.extend_from_slice(b"ping");
    let (state, session) = drive(&sent, false);
    assert_eq!(state, Negotiator::Closed { error: Some(ProtocolError::UpstreamConnectFailed) });
    assert_eq!(session.dialled, vec!["127.0.0.1:8080".to_string()]);
    assert_eq!(session.written, vec![0x05, 0x00]);
    assert!(!session.relayed);
    assert_eq!(session.sent, b"ping");
}

#[test]
fn ipv6_request_gets_the_client_no_success_reply() {
    let mut sent = vec![5, 1, 0, 5, 1, 0, 4];
    sent.extend_from_slice(&[0; 16]);
    sent.extend_from_slice(&[0, 80]);
    let (state, session) = drive(&sent, true);
    assert_eq!(state, Negotiator::Closed { error: Some(ProtocolError::UnsupportedAddressType) });
    assert_eq!(session.written, vec![0x05, 0x00]);
    assert!(session.dialled.is_empty());
    assert!(!session.relayed);
}

#[test]
fn bind_request_gets_the_client_no_success_reply() {
    for command in [0u8, 2, 3, 255] {
        let mut sent = vec![5, 1, 0];
        sent.extend_from_slice(&[5, command, 0, 1, 127, 0, 0, 1, 0x1F, 0x90]);
        sent.extend_from_slice(b"ping");
        let (state, session) = drive(&sent, true);
        assert_eq!(state, Negotiator::Closed { error: Some(ProtocolError::UnsupportedCommand) });
        assert_eq!(session.written, vec![0x05, 0x00]);
        assert!(session.dialled.is_empty());
        assert!(!session.relayed);
    }
    let mut sent = vec![5, 2, 0, 2];
    sent.extend_from_slice(&[5, 2, 0, 3, 11]);
    sent.extend_from_slice(b"example.com");
    sent.extend_from_slice(&[0x01, 0xBB]);
    let (state, session) = drive(&sent, true);
    assert_eq!(state, Negotiator::Closed { error: Some(ProtocolError::UnsupportedCommand) });
    assert_eq!(session.written, vec![0x05, 0x00]);
    assert!(session.dialled.is_empty());
}

#[test]
fn malformed_hostname_gets_the_client_no_success_reply() {
    let sent = vec![5, 1, 0, 5, 1, 0, 3, 3, b'a', 0xFF, b'b', 0, 80];
    let (state, session) = drive(&sent, true);
    assert_eq!(state, Negotiator::Closed { error: Some(ProtocolError::MalformedHostname) });
    assert_eq!(session.written, vec![0x05, 0x00]);
    assert!(session.dialled.is_empty());
    assert!(!session.relayed);
}

#[test]
fn client_that_goes_away_early_gets_no_reply() {
    let (state, session) = drive(&[5], true);
    assert_eq!(state, Negotiator::Closed { error: Some(ProtocolError::IncompleteFrame) });
    assert!(session.written.is_empty());
    let (state, session) = drive(&[5, 1, 0, 5, 1], true);
    assert_eq!(state, Negotiator::Closed { error: Some(ProtocolError::IncompleteFrame) });
    assert_eq!(session.written, vec![0x05, 0x00]);
    assert!(session.dialled.is_empty());
}

#[test]
fn methods_that_arrive_late_are_read_as_the_request() {
    let (state, session) = drive(&[5, 3, 0], true);
    assert_eq!(state, Negotiator::Closed { error: Some(ProtocolError::IncompleteFrame) });
    assert_eq!(session.written, vec![0x05, 0x00]);
}
