use socks5_relay::error::ProtocolError;
use socks5_relay::relay::{CopyAction, CopyEvent, CopyLoop, Direction, RelayPair};

/// Feeds the events to a loop and collects what it forwards.
fn pump(start: CopyLoop, events: Vec<CopyEvent>) -> (CopyLoop, Vec<u8>) {
    let mut state = start;
    let mut sink = Vec::new();
    for event in events {
        let (next, action) = state.step(event);
        state = next;
        if let CopyAction::Forward(bytes) = action {
            sink.extend_from_slice(&bytes);
        }
    }
    (state, sink)
}

#[test]
fn loop_starts_running() {
    assert_eq!(CopyLoop::new(), CopyLoop::Running);
    assert!(!CopyLoop::new().is_finished());
    assert_eq!(CopyLoop::new().error(), None);
}

#[test]
fn bytes_read_are_forwarded_as_they_are() {
    let (state, action) = CopyLoop::Running.step(CopyEvent::Read(b"ping".to_vec()));
    assert_eq!(state, CopyLoop::Running);
    assert_eq!(action, CopyAction::Forward(b"ping".to_vec()));
}

#[test]
fn end_of_source_stops_the_loop() {
    let (state, action) = CopyLoop::Running.step(CopyEvent::Read(vec![]));
    assert_eq!(state, CopyLoop::Ended);
    assert_eq!(action, CopyAction::Stop);
    assert!(state.is_finished());
    assert_eq!(state.error(), None);
}

#[test]
fn failure_stops_the_loop_with_an_error_to_report() {
    let (state, action) = CopyLoop::Running.step(CopyEvent::Failed);
    assert_eq!(state, CopyLoop::Failed);
    assert_eq!(action, CopyAction::Stop);
    assert!(state.is_finished());
    assert_eq!(state.error(), Some(ProtocolError::RelayIoError));
}

#[test]
fn chunks_are_forwarded_whole_and_in_order() {
    let (state, sink) = pump(
        CopyLoop::Running,
        vec![
            CopyEvent::Read(b"GET / ".to_vec()),
            CopyEvent::Read(b"H".to_vec()),
            CopyEvent::Read(b"TTP/1.1\r\n".to_vec()),
            CopyEvent::Read(vec![]),
        ],
    );
    assert_eq!(state, CopyLoop::Ended);
    assert_eq!(sink, b"GET / HTTP/1.1\r\n");
}

#[test]
fn nothing_is_forwarded_after_the_end() {
    let (state, sink) = pump(
        CopyLoop::Running,
        vec![
            CopyEvent::Read(b"one".to_vec()),
            CopyEvent::Read(vec![]),
            CopyEvent::Read(b"two".to_vec()),
            CopyEvent::Failed,
        ],
    );
    assert_eq!(state, CopyLoop::Ended);
    assert_eq!(sink, b"one");
}

#[test]
fn nothing_is_forwarded_after_a_failure() {
    let (state, sink) = pump(
        CopyLoop::Running,
        vec![
            CopyEvent::Read(b"one".to_vec()),
            CopyEvent::Failed,
            CopyEvent::Read(b"two".to_vec()),
            CopyEvent::Read(vec![]),
        ],
    );
    assert_eq!(state, CopyLoop::Failed);
    assert_eq!(sink, b"one");
    assert_eq!(state.error(), Some(ProtocolError::RelayIoError));
}

#[test]
fn finished_loop_only_stops() {
    for state in [CopyLoop::Ended, CopyLoop::Failed] {
        for event in [CopyEvent::Read(b"late".to_vec()), CopyEvent::Read(vec![]), CopyEvent::Failed]
        {
            let (next, action) = state.step(event);
            assert_eq!(next, state);
            assert_eq!(action, CopyAction::Stop);
        }
    }
}

#[test]
fn directions_are_each_other_s_opposite() {
    assert_eq!(Direction::ClientToUpstream.opposite(), Direction::UpstreamToClient);
    assert_eq!(Direction::UpstreamToClient.opposite(), Direction::ClientToUpstream);
    assert_eq!(Direction::ClientToUpstream.opposite().opposite(), Direction::ClientToUpstream);
}

#[test]
fn pair_starts_with_both_loops_running() {
    let pair = RelayPair::new();
    assert_eq!(pair.state_of(Direction::ClientToUpstream), CopyLoop::Running);
    assert_eq!(pair.state_of(Direction::UpstreamToClient), CopyLoop::Running);
    assert!(!pair.is_complete());
}

#[test]
fn ping_sent_through_the_relay_comes_back() {
    let pair = RelayPair::new();
    let (pair, outbound) =
        pair.step(Direction::ClientToUpstream, CopyEvent::Read(b"ping".to_vec()));
    assert_eq!(outbound, CopyAction::Forward(b"ping".to_vec()));
    let echoed = match outbound {
        CopyAction::Forward(bytes) => bytes,
        CopyAction::Stop => panic!("the relay stopped"),
    };
    let (pair, inbound) = pair.step(Direction::UpstreamToClient, CopyEvent::Read(echoed));
    assert_eq!(inbound, CopyAction::Forward(b"ping".to_vec()));
    assert!(!pair.is_complete());
}

#[test]
fn half_closed_relay_keeps_forwarding_the_other_way() {
    let pair = RelayPair::new();
    let (pair, action) = pair.step(Direction::ClientToUpstream, CopyEvent::Read(b"GET".to_vec()));
    assert_eq!(action, CopyAction::Forward(b"GET".to_vec()));
    let (pair, action) = pair.step(Direction::ClientToUpstream, CopyEvent::Read(vec![]));
    assert_eq!(action, CopyAction::Stop);
    assert_eq!(pair.state_of(Direction::ClientToUpstream), CopyLoop::Ended);
    assert_eq!(pair.state_of(Direction::UpstreamToClient), CopyLoop::Running);
    assert!(!pair.is_complete());

    let (pair, action) =
        pair.step(Direction::UpstreamToClient, CopyEvent::Read(b"200 OK".to_vec()));
    assert_eq!(action, CopyAction::Forward(b"200 OK".to_vec()));
    let (pair, action) = pair.step(Direction::UpstreamToClient, CopyEvent::Read(b"body".to_vec()));
    assert_eq!(action, CopyAction::Forward(b"body".to_vec()));
    assert!(!pair.is_complete());

    let (pair, action) = pair.step(Direction::UpstreamToClient, CopyEvent::Read(vec![]));
    assert_eq!(action, CopyAction::Stop);
    assert!(pair.is_complete());
    assert_eq!(pair.state_of(Direction::UpstreamToClient), CopyLoop::Ended);
}

#[test]
fn half_close_of_the_upstream_keeps_the_client_side_forwarding() {
    let pair = RelayPair::new();
    let (pair, _) = pair.step(Direction::UpstreamToClient, CopyEvent::Read(vec![]));
    let (pair, action) = pair.step(Direction::ClientToUpstream, CopyEvent::Read(b"more".to_vec()));
    assert_eq!(action, CopyAction::Forward(b"more".to_vec()));
    assert!(!pair.is_complete());
    let (pair, _) = pair.step(Direction::ClientToUpstream, CopyEvent::Failed);
    assert!(pair.is_complete());
}

#[test]
fn failure_in_one_direction_leaves_the_other_running() {
    let pair = RelayPair::new();
    let (pair, action) = pair.step(Direction::UpstreamToClient, CopyEvent::Failed);
    assert_eq!(action, CopyAction::Stop);
    assert_eq!(pair.state_of(Direction::UpstreamToClient).error(), Some(ProtocolError::RelayIoError));
    assert_eq!(pair.state_of(Direction::ClientToUpstream).error(), None);
    assert!(!pair.is_complete());
    let (pair, action) = pair.step(Direction::ClientToUpstream, CopyEvent::Read(b"x".to_vec()));
    assert_eq!(action, CopyAction::Forward(b"x".to_vec()));
    assert_eq!(pair.state_of(Direction::ClientToUpstream), CopyLoop::Running);
}

#[test]
fn relay_is_complete_only_when_both_loops_are_over() {
    for first in [CopyLoop::Running, CopyLoop::Ended, CopyLoop::Failed] {
        for second in [CopyLoop::Running, CopyLoop::Ended, CopyLoop::Failed] {
            let pair = RelayPair { client_to_upstream: first, upstream_to_client: second };
            assert_eq!(
                pair.is_complete(),
                first != CopyLoop::Running && second != CopyLoop::Running
            );
        }
    }
}

#[test]
fn interleaved_directions_do_not_mix() {
    let mut pair = RelayPair::new();
    let mut to_upstream = Vec::new();
    let mut to_client = Vec::new();
    let steps = vec![
        (Direction::ClientToUpstream, b"a1".to_vec()),
        (Direction::UpstreamToClient, b"b1".to_vec()),
        (Direction::UpstreamToClient, b"b2".to_vec()),
        (Direction::ClientToUpstream, b"a2".to_vec()),
        (Direction::ClientToUpstream, vec![]),
        (Direction::UpstreamToClient, b"b3".to_vec()),
        (Direction::ClientToUpstream, b"a3".to_vec()),
        (Direction::UpstreamToClient, vec![]),
    ];
    for (direction, bytes) in steps {
        let (next, action) = pair.step(direction, CopyEvent::Read(bytes));
        pair = next;
        if let CopyAction::Forward(bytes) = action {
            match direction {
                Direction::ClientToUpstream => to_upstream.extend_from_slice(&bytes),
                Direction::UpstreamToClient => to_client.extend_from_slice(&bytes),
            }
        }
    }
    assert_eq!(to_upstream, b"a1a2");
    assert_eq!(to_client, b"b1b2b3");
    assert!(pair.is_complete());
}
