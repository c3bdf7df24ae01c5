use dev_proxy::address::{Address, SocketAddr};
use dev_proxy::protocol::ProxyProtocol;
use dev_proxy::session_handler::{
    after_event, next_action, SessionAction, SessionEvent, SessionHandlerData, SessionState,
};

const ALL_STATES: [SessionState; 5] = [
    SessionState::RequestParsing,
    SessionState::ConnectingToTarget,
    SessionState::ForwardingData,
    SessionState::Canceled,
    SessionState::Finished,
];

fn rank(s: SessionState) -> u8 {
    match s {
        SessionState::RequestParsing => 0,
        SessionState::ConnectingToTarget => 1,
        SessionState::ForwardingData => 2,
        SessionState::Canceled | SessionState::Finished => 3,
    }
}

fn target() -> Address {
    Address::SocketAddr(SocketAddr::V4([192, 0, 2, 1], 80))
}

fn target_text(t: &Option<Address>) -> Option<String> {
    t.as_ref().map(|a| a.to_text())
}

/// The events that the work of an action can end in.
fn events_of(action: SessionAction) -> Vec<SessionEvent> {
    match action {
        SessionAction::ParseRequest => {
            vec![SessionEvent::RequestParsed(target()), SessionEvent::RequestFailed]
        }
        SessionAction::ConnectToTarget => {
            vec![SessionEvent::TargetConnected, SessionEvent::TargetUnreachable]
        }
        SessionAction::ForwardData => {
            vec![SessionEvent::CancelReceived, SessionEvent::ForwardingEnded]
        }
        _ => vec![],
    }
}

#[test]
fn session_happy_path() {
    let (s, a) = next_action(SessionState::RequestParsing, false, false, true);
    assert_eq!((s, a), (SessionState::RequestParsing, SessionAction::ParseRequest));
    let (s, t, running) = after_event(s, None, SessionEvent::RequestParsed(target()));
    assert_eq!((s, running), (SessionState::ConnectingToTarget, true));
    assert_eq!(target_text(&t), Some("192.0.2.1:80".to_string()));
    let (s, a) = next_action(s, t.is_some(), false, true);
    assert_eq!(a, SessionAction::ConnectToTarget);
    let (s, t, _) = after_event(s, t, SessionEvent::TargetConnected);
    assert_eq!(s, SessionState::ForwardingData);
    let (s, a) = next_action(s, t.is_some(), true, true);
    assert_eq!(a, SessionAction::ForwardData);
    let (s, t, _) = after_event(s, t, SessionEvent::ForwardingEnded);
    assert_eq!(s, SessionState::Finished);
    assert_eq!(target_text(&t), Some("192.0.2.1:80".to_string()));
    assert_eq!(next_action(s, true, true, false), (SessionState::Finished, SessionAction::Exit));
}

#[test]
fn session_cancel_while_forwarding() {
    let (s, a) = next_action(SessionState::ForwardingData, true, true, true);
    assert_eq!(a, SessionAction::ForwardData);
    let (s, t, running) = after_event(s, Some(target()), SessionEvent::CancelReceived);
    assert_eq!((s, running), (SessionState::Canceled, true));
    assert!(t.is_some());
    assert_eq!(
        next_action(SessionState::Canceled, true, true, false),
        (SessionState::Canceled, SessionAction::Exit)
    );
}

#[test]
fn session_request_failure_leaves_loop_in_place() {
    let (s, t, running) = after_event(SessionState::RequestParsing, None, SessionEvent::RequestFailed);
    assert_eq!((s, running), (SessionState::RequestParsing, false));
    assert!(t.is_none());
}

#[test]
fn session_missing_target_or_connection_finishes() {
    assert_eq!(
        next_action(SessionState::ConnectingToTarget, false, false, true),
        (SessionState::Finished, SessionAction::Continue)
    );
    assert_eq!(
        next_action(SessionState::ForwardingData, true, false, true),
        (SessionState::Finished, SessionAction::Continue)
    );
    let (s, _, running) =
        after_event(SessionState::ConnectingToTarget, Some(target()), SessionEvent::TargetUnreachable);
    assert_eq!((s, running), (SessionState::Finished, true));
}

#[test]
fn session_forwarding_without_receiver_idles() {
    assert_eq!(
        next_action(SessionState::ForwardingData, true, true, false),
        (SessionState::ForwardingData, SessionAction::Continue)
    );
}

#[test]
fn terminal_states_always_exit() {
    for s in [SessionState::Canceled, SessionState::Finished] {
        for flags in 0..8u8 {
            let r = next_action(s, flags & 1 != 0, flags & 2 != 0, flags & 4 != 0);
            assert_eq!(r, (s, SessionAction::Exit));
        }
    }
}

#[test]
fn every_round_moves_forward_or_stops() {
    for s in ALL_STATES {
        for flags in 0..8u8 {
            let (addr, conn, recv) = (flags & 1 != 0, flags & 2 != 0, flags & 4 != 0);
            if s == SessionState::ForwardingData && conn && !recv {
                continue;
            }
            let (s1, action) = next_action(s, addr, conn, recv);
            match action {
                SessionAction::Continue => assert!(rank(s1) > rank(s)),
                SessionAction::Exit => assert!(rank(s) == 3),
                _ => {}
            }
            for e in events_of(action) {
                let is_cancel = matches!(e, SessionEvent::CancelReceived);
                let (s2, _, running) = after_event(s1, None, e);
                assert!(!running || rank(s2) > rank(s));
                if s2 == SessionState::Canceled {
                    assert_eq!(s, SessionState::ForwardingData);
                    assert!(is_cancel);
                }
            }
        }
    }
}

#[test]
fn target_is_held_once_past_parsing() {
    for s in ALL_STATES {
        for t in [None, Some(target())] {
            if s != SessionState::RequestParsing && t.is_none() {
                continue;
            }
            for flags in 0..4u8 {
                let (conn, recv) = (flags & 1 != 0, flags & 2 != 0);
                let (s1, action) = next_action(s, t.is_some(), conn, recv);
                assert!(s1 == SessionState::RequestParsing || t.is_some());
                for e in events_of(action) {
                    let (s2, t2, _) = after_event(s1, t.clone(), e);
                    assert!(s2 == SessionState::RequestParsing || t2.is_some());
                    if s != SessionState::RequestParsing {
                        assert_eq!(target_text(&t2), target_text(&t));
                    }
                }
            }
        }
    }
}

#[test]
fn session_data_describes_targets() {
    let d = SessionHandlerData::describe(7, SessionState::ForwardingData, ProxyProtocol::Socks5, &None);
    assert_eq!(d.id, 7);
    assert_eq!(d.state, SessionState::ForwardingData);
    assert_eq!(d.protocol, ProxyProtocol::Socks5);
    assert_eq!(d.target_addr, None);
    let t = Some(Address::SocketAddr(SocketAddr::V4([1, 2, 3, 4], 80)));
    let d = SessionHandlerData::describe(8, SessionState::Finished, ProxyProtocol::Socks5, &t);
    assert_eq!(d.target_addr, Some("1.2.3.4:80".to_string()));
    let t = Some(Address::DomainName("example.org".to_string(), 8443));
    let d = SessionHandlerData::describe(9, SessionState::Canceled, ProxyProtocol::Socks5, &t);
    assert_eq!(d.target_addr, Some("example.org:8443".to_string()));
}

/// Runs the loop's decisions from a new session with the given choices of
/// outcome for each action, and gives the states and targets it passes.
fn simulate(parse_ok: bool, connect_ok: bool, cancel: bool) -> Vec<(SessionState, Option<String>)> {
    let (mut state, mut held): (SessionState, Option<Address>) = (SessionState::RequestParsing, None);
    let mut connected = false;
    let mut trace = vec![(state, target_text(&held))];
    for _ in 0..10 {
        let (s1, action) = next_action(state, held.is_some(), connected, true);
        let event = match action {
            SessionAction::Exit => break,
            SessionAction::Continue => {
                state = s1;
                trace.push((state, target_text(&held)));
                continue;
            }
            SessionAction::ParseRequest => {
                if parse_ok { SessionEvent::RequestParsed(target()) } else { SessionEvent::RequestFailed }
            }
            SessionAction::ConnectToTarget => {
                connected = connect_ok;
                if connect_ok { SessionEvent::TargetConnected } else { SessionEvent::TargetUnreachable }
            }
            SessionAction::ForwardData => {
                if cancel { SessionEvent::CancelReceived } else { SessionEvent::ForwardingEnded }
            }
        };
        let (s2, t2, running) = after_event(s1, held.take(), event);
        state = s2;
        held = t2;
        trace.push((state, target_text(&held)));
        if !running {
            break;
        }
    }
    trace
}

#[test]
fn whole_runs_are_orderly() {
    for parse_ok in [false, true] {
        for connect_ok in [false, true] {
            for cancel in [false, true] {
                let tr = simulate(parse_ok, connect_ok, cancel);
                for i in 0..tr.len() {
                    assert!(tr[i].0 == SessionState::RequestParsing || tr[i].1.is_some());
                    for j in i..tr.len() {
                        assert!(rank(tr[i].0) <= rank(tr[j].0));
                        if rank(tr[i].0) == 3 {
                            assert_eq!(tr[j].0, tr[i].0);
                        }
                        if tr[i].0 != SessionState::RequestParsing {
                            assert_eq!(tr[j].1, tr[i].1);
                        }
                    }
                    if i > 0 && tr[i].0 == SessionState::Canceled && tr[i - 1].0 != SessionState::Canceled {
                        assert_eq!(tr[i - 1].0, SessionState::ForwardingData);
                    }
                }
            }
        }
    }
    let full = simulate(true, true, false);
    let states: Vec<SessionState> = full.iter().map(|p| p.0).collect();
    assert_eq!(
        states,
        vec![
            SessionState::RequestParsing,
            SessionState::ConnectingToTarget,
            SessionState::ForwardingData,
            SessionState::Finished
        ]
    );
}
