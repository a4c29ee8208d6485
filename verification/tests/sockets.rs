use dynproxy::listener::{Listener, ListenerAction, ListenerEvent, Protocol};
use dynproxy::tcp::{Direction, TcpAction, TcpEnd, TcpEvent, TcpSession};
use dynproxy::udp::{
    datagram, Endpoint, UdpAction, UdpEnd, UdpEvent, UdpExchange, DATAGRAM_MAX, REPLY_TIMEOUT_SECS,
};

fn addr() -> String {
    "0.0.0.0:8081".to_string()
}

#[test]
fn tcp_and_udp_listeners_open_at_once() {
    for protocol in [Protocol::Tcp, Protocol::Udp] {
        let (listener, action) = Listener::start(protocol, addr());
        assert_eq!(listener, Listener::Opening);
        assert_eq!(action, ListenerAction::Open { addr: addr() });
    }
}

#[test]
fn http_listener_reads_its_address_first() {
    let (listener, action) = Listener::start(Protocol::Http, addr());
    assert_eq!(action, ListenerAction::Parse { addr: addr() });
    let (listener, action) = listener.step(ListenerEvent::Parsed);
    assert_eq!(listener, Listener::Opening);
    assert_eq!(action, ListenerAction::Open { addr: addr() });
}

#[test]
fn listener_with_a_bad_address_stops() {
    let (listener, _) = Listener::start(Protocol::Http, "localhost".to_string());
    let (listener, action) = listener.step(ListenerEvent::ParseFailed);
    assert_eq!((listener, action), (Listener::Stopped, ListenerAction::Fail));
}

#[test]
fn listener_that_cannot_open_stops_for_good() {
    let (listener, _) = Listener::start(Protocol::Tcp, addr());
    let (listener, action) = listener.step(ListenerEvent::OpenFailed);
    assert_eq!(action, ListenerAction::Fail);
    let (listener, action) = listener.step(ListenerEvent::Arrived);
    assert_eq!((listener, action), (Listener::Stopped, ListenerAction::Ignore));
}

#[test]
fn listener_serves_on_after_a_failure() {
    let (listener, _) = Listener::start(Protocol::Udp, addr());
    let (mut listener, action) = listener.step(ListenerEvent::Opened);
    assert_eq!(action, ListenerAction::Await);
    let events = [
        (ListenerEvent::Arrived, ListenerAction::Serve),
        (ListenerEvent::ArrivalFailed, ListenerAction::Await),
        (ListenerEvent::ArrivalFailed, ListenerAction::Await),
        (ListenerEvent::Arrived, ListenerAction::Serve),
        (ListenerEvent::OpenFailed, ListenerAction::Ignore),
    ];
    for (event, expected) in events {
        let (next, action) = listener.step(event);
        assert_eq!(next, Listener::Serving);
        assert_eq!(action, expected);
        listener = next;
    }
}

/// A client, a connection to a backend, and what happens to the two.
type Started = (TcpSession<u32>, TcpAction<u32, u64>);

const CLIENT: u32 = 11;
const CONNECTION: u64 = 22;

fn connected() -> Started {
    let (session, _): Started = TcpSession::start(CLIENT, "b".to_string());
    session.step(TcpEvent::Connected { backend: CONNECTION })
}

#[test]
fn tcp_session_connects_its_backend() {
    let (session, action): Started = TcpSession::start(CLIENT, "10.0.0.1:9091".to_string());
    assert_eq!(session, TcpSession::Connecting { client: CLIENT });
    assert_eq!(action, TcpAction::Connect("10.0.0.1:9091".to_string()));
}

#[test]
fn tcp_session_without_a_backend_is_closed() {
    let (session, _): Started = TcpSession::start(CLIENT, "b".to_string());
    let (session, action): Started = session.step(TcpEvent::ConnectFailed);
    assert_eq!(session, TcpSession::Closed);
    assert_eq!(action, TcpAction::Close(TcpEnd::BackendUnreachable));
}

#[test]
fn each_client_is_joined_to_its_own_connection() {
    let clients: Vec<(u32, u64)> = vec![(1, 100), (2, 200), (3, 300)];
    let sessions: Vec<TcpSession<u32>> = clients
        .iter()
        .map(|(client, _)| TcpSession::start::<u64>(*client, "b".to_string()).0)
        .collect();
    for (session, (client, backend)) in sessions.into_iter().zip(clients).rev() {
        let (session, action) = session.step(TcpEvent::Connected { backend });
        assert_eq!(session, TcpSession::Relaying);
        assert_eq!(action, TcpAction::Relay { client, backend });
    }
}

#[test]
fn end_of_either_direction_closes_the_session() {
    for direction in [Direction::ClientToBackend, Direction::BackendToClient] {
        for failed in [false, true] {
            let (session, action) = connected();
            assert_eq!(session, TcpSession::Relaying);
            assert_eq!(action, TcpAction::Relay { client: CLIENT, backend: CONNECTION });
            let ended = TcpEvent::<u64>::TransferEnded { direction, failed };
            let (session, action) = session.step(ended.clone());
            let end = if failed { TcpEnd::TransferFailed(direction) } else { TcpEnd::Finished };
            assert_eq!((session.clone(), action), (TcpSession::Closed, TcpAction::Close(end)));
            let (session, action) = session.step(ended);
            assert_eq!((session.clone(), action), (TcpSession::Closed, TcpAction::Ignore));
            let (session, action) = session.step(TcpEvent::Connected { backend: CONNECTION });
            assert_eq!((session, action), (TcpSession::Closed, TcpAction::Ignore));
        }
    }
}

#[test]
fn connected_session_is_not_relayed_again() {
    let (session, _) = connected();
    let (session, action) = session.step(TcpEvent::Connected { backend: 33u64 });
    assert_eq!((session, action), (TcpSession::Relaying, TcpAction::Ignore));
}

#[test]
fn datagram_is_the_front_of_the_buffer() {
    let buffer = [1u8, 2, 3, 4, 5];
    assert_eq!(datagram(&buffer, 3), vec![1, 2, 3]);
    assert_eq!(datagram(&buffer, 0), Vec::<u8>::new());
    assert_eq!(datagram(&buffer, 5), vec![1, 2, 3, 4, 5]);
}

fn exchange() -> UdpExchange<u32> {
    UdpExchange::start(vec![1, 2, 3], "10.0.0.1:53".to_string(), 77).0
}

const BACKEND: Endpoint = Endpoint { v6: false, ip: 0x0a00_0001, port: 53 };

fn end_of(action: UdpAction<u32>) -> UdpEnd {
    match action {
        UdpAction::Stop(end) => end,
        other => panic!("{:?}", other),
    }
}

#[test]
fn udp_exchange_opens_a_socket_of_its_own() {
    let (exchange, action) = UdpExchange::start(vec![9], "b:1".to_string(), 5u32);
    assert!(matches!(exchange, UdpExchange::Opening { client: 5, .. }));
    match action {
        UdpAction::Open { local } => assert_eq!(local, "0.0.0.0:0"),
        other => panic!("{:?}", other),
    }
}

#[test]
fn datagram_goes_out_and_its_answer_comes_back() {
    let (state, action) = exchange().step(UdpEvent::Opened);
    match action {
        UdpAction::Send { data, to } => {
            assert_eq!(data, vec![1, 2, 3]);
            assert_eq!(to, "10.0.0.1:53");
        }
        other => panic!("{:?}", other),
    }
    let (state, action) = state.step(UdpEvent::Sent { to: BACKEND });
    match action {
        UdpAction::Await { buffer, seconds } => {
            assert_eq!((buffer, seconds), (65535, 30));
            assert_eq!((buffer, seconds), (DATAGRAM_MAX, REPLY_TIMEOUT_SECS));
        }
        other => panic!("{:?}", other),
    }
    let (state, action) = state.step(UdpEvent::Received { data: vec![8, 9], from: BACKEND });
    match action {
        UdpAction::Reply { data, client } => {
            assert_eq!(data, vec![8, 9]);
            assert_eq!(client, 77);
        }
        other => panic!("{:?}", other),
    }
    let (state, action) = state.step(UdpEvent::Replied);
    assert_eq!(end_of(action), UdpEnd::Answered);
    let (state, action) = state.step(UdpEvent::Received { data: vec![4], from: BACKEND });
    assert!(matches!(state, UdpExchange::Done));
    assert!(matches!(action, UdpAction::Ignore));
}

#[test]
fn exchange_without_a_socket_is_over() {
    let (state, action) = exchange().step(UdpEvent::OpenFailed);
    assert_eq!(end_of(action), UdpEnd::NoSocket);
    assert!(matches!(state, UdpExchange::Done));
    assert!(matches!(state.step(UdpEvent::Opened).1, UdpAction::Ignore));
}

#[test]
fn exchange_is_over_when_sending_fails() {
    let (state, _) = exchange().step(UdpEvent::Opened);
    let (state, action) = state.step(UdpEvent::SendFailed);
    assert_eq!(end_of(action), UdpEnd::SendFailed);
    assert!(matches!(state.step(UdpEvent::Sent { to: BACKEND }).1, UdpAction::Ignore));
}

#[test]
fn exchange_is_over_when_no_answer_comes() {
    for (event, end) in [
        (UdpEvent::TimedOut, UdpEnd::TimedOut),
        (UdpEvent::ReceiveFailed, UdpEnd::ReceiveFailed),
    ] {
        let (state, _) = exchange().step(UdpEvent::Opened);
        let (state, _) = state.step(UdpEvent::Sent { to: BACKEND });
        let (state, action) = state.step(event);
        assert_eq!(end_of(action), end);
        assert!(matches!(state, UdpExchange::Done));
    }
}

#[test]
fn exchange_is_over_when_the_answer_cannot_be_sent() {
    let (state, _) = exchange().step(UdpEvent::Opened);
    let (state, _) = state.step(UdpEvent::Sent { to: BACKEND });
    let (state, _) = state.step(UdpEvent::Received { data: vec![], from: BACKEND });
    let (state, action) = state.step(UdpEvent::ReplyFailed);
    assert_eq!(end_of(action), UdpEnd::ReplyFailed);
    assert!(matches!(state, UdpExchange::Done));
}

#[test]
fn answer_that_nobody_waits_for_is_ignored() {
    let (state, action) = exchange().step(UdpEvent::Received { data: vec![1], from: BACKEND });
    assert!(matches!(action, UdpAction::Ignore));
    assert!(matches!(state, UdpExchange::Opening { .. }));
}

#[test]
fn datagram_of_a_stranger_is_dropped() {
    let strangers = [
        Endpoint { ip: 0x0a00_0002, ..BACKEND },
        Endpoint { v6: true, ..BACKEND },
    ];
    let (state, _) = exchange().step(UdpEvent::Opened);
    let (mut state, _) = state.step(UdpEvent::Sent { to: BACKEND });
    for from in strangers {
        let (next, action) = state.step(UdpEvent::Received { data: vec![6, 6], from });
        match action {
            UdpAction::AwaitMore { size } => assert_eq!(size, 65535),
            other => panic!("{:?}", other),
        }
        assert!(matches!(next, UdpExchange::Awaiting { client: 77, peer: BACKEND }));
        state = next;
    }
    let (_, action) = state.clone().step(UdpEvent::Received { data: vec![7], from: BACKEND });
    match action {
        UdpAction::Reply { data, client } => assert_eq!((data, client), (vec![7], 77)),
        other => panic!("{:?}", other),
    }
    let (_, action) = state.step(UdpEvent::TimedOut);
    assert_eq!(end_of(action), UdpEnd::TimedOut);
}

#[test]
fn backend_may_answer_from_another_port() {
    let (state, _) = exchange().step(UdpEvent::Opened);
    let (state, _) = state.step(UdpEvent::Sent { to: BACKEND });
    let from = Endpoint { port: 40000, ..BACKEND };
    let (_, action) = state.step(UdpEvent::Received { data: vec![0, 3], from });
    match action {
        UdpAction::Reply { data, client } => assert_eq!((data, client), (vec![0, 3], 77)),
        other => panic!("{:?}", other),
    }
}

#[test]
fn unspecified_address_answers_from_loopback() {
    let unspecified = Endpoint { v6: false, ip: 0, port: 53 };
    let loopback = Endpoint { v6: false, ip: 0x7f00_0001, port: 53 };
    assert_eq!(unspecified.answers_from(), loopback);
    assert_eq!(BACKEND.answers_from(), BACKEND);
    let other = Endpoint { v6: true, ..unspecified };
    assert_eq!(other.answers_from(), other);
    let (state, _) = exchange().step(UdpEvent::Opened);
    let (state, _) = state.step(UdpEvent::Sent { to: unspecified });
    let (_, action) = state.step(UdpEvent::Received { data: vec![5], from: loopback });
    assert!(matches!(action, UdpAction::Reply { client: 77, .. }));
}

#[test]
fn endpoints_of_one_host_differ_in_their_port_only() {
    assert!(BACKEND.same_host(Endpoint { port: 1, ..BACKEND }));
    assert!(!BACKEND.same_host(Endpoint { ip: 1, ..BACKEND }));
    assert!(!BACKEND.same_host(Endpoint { v6: true, ..BACKEND }));
}
