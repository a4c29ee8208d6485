//! One datagram and its answer.
//!
//! A datagram goes to the backend from a socket of its own. The first datagram that comes back
//! from the host of the backend, from whichever of its ports, goes to the client if it comes
//! within the time limit; then the exchange is over. It is also over at the first failure. What
//! other hosts send to the socket is dropped.

use vstd::prelude::*;

verus! {

/// The size of the buffer that a datagram is received into.
pub const DATAGRAM_MAX: usize = 65535;

/// How many seconds the backend has for its answer.
pub const REPLY_TIMEOUT_SECS: u64 = 30;

/// Where datagrams come from and go to: the bits of an IP address, and a port.
#[derive(Debug, Clone, Copy, PartialEq, Eq, Structural)]
pub struct Endpoint {
    /// Whether the address is one of version 6 of IP, not 4.
    pub v6: bool,
    /// The address.
    pub ip: u128,
    /// The port.
    pub port: u16,
}

impl Endpoint {
    /// Two endpoints of one host.
    pub open spec fn is_same_host(self, other: Endpoint) -> bool {
        self.v6 == other.v6 && self.ip == other.ip
    }

    /// Where an answer to what was sent here comes from: what is sent to the unspecified address
    /// of version 4 goes to this machine, which answers from its loopback address.
    pub open spec fn answering(self) -> Endpoint {
        if !self.v6 && self.ip == 0 {
            Endpoint { ip: 0x7f00_0001, ..self }
        } else {
            self
        }
    }

    /// Whether both are endpoints of one host.
    pub fn same_host(self, other: Endpoint) -> (same: bool)
        ensures
            same == self.is_same_host(other),
            same <==> self.v6 == other.v6 && self.ip == other.ip,
    {
        self.v6 == other.v6 && self.ip == other.ip
    }

    /// Where an answer to what was sent here comes from.
    pub fn answers_from(self) -> (from: Endpoint)
        ensures
            from == self.answering(),
            from == (if !self.v6 && self.ip == 0 {
                Endpoint { v6: false, ip: 0x7f00_0001, port: self.port }
            } else {
                self
            }),
    {
        if !self.v6 && self.ip == 0 {
            Endpoint { v6: false, ip: 0x7f00_0001, port: self.port }
        } else {
            self
        }
    }
}

/// How far an exchange with the client `C` has come.
#[derive(Debug, Clone)]
pub enum UdpExchange<C> {
    /// The socket for the backend is being opened.
    Opening { data: Vec<u8>, backend: String, client: C },
    /// The datagram is on its way to the backend.
    Sending { client: C },
    /// The backend is to answer, from the host of `peer`.
    Awaiting { client: C, peer: Endpoint },
    /// The answer is on its way to the client.
    Replying,
    /// The exchange is over.
    Done,
}

/// Why an exchange is over.
#[derive(Debug, Clone, Copy, PartialEq, Eq, Structural)]
pub enum UdpEnd {
    /// No socket for the backend could be opened.
    NoSocket,
    /// The datagram could not be sent to the backend.
    SendFailed,
    /// The answer of the backend could not be received.
    ReceiveFailed,
    /// The backend did not answer in time.
    TimedOut,
    /// The answer was sent to the client.
    Answered,
    /// The answer could not be sent to the client.
    ReplyFailed,
}

/// What happens to an exchange.
#[derive(Debug, Clone)]
pub enum UdpEvent {
    /// The socket for the backend is open.
    Opened,
    /// The socket for the backend cannot be opened.
    OpenFailed,
    /// The datagram was sent to this address of the backend.
    Sent { to: Endpoint },
    /// The datagram could not be sent.
    SendFailed,
    /// This datagram came from this address.
    Received { data: Vec<u8>, from: Endpoint },
    /// Receiving failed.
    ReceiveFailed,
    /// The time limit has passed.
    TimedOut,
    /// The answer was sent.
    Replied,
    /// The answer could not be sent.
    ReplyFailed,
}

/// What is to be done for an exchange.
#[derive(Debug, Clone)]
pub enum UdpAction<C> {
    /// Open a socket at this local address.
    Open { local: String },
    /// Send `data` to the address `to`.
    Send { data: Vec<u8>, to: String },
    /// Receive one datagram of at most `buffer` bytes within `seconds` seconds.
    Await { buffer: usize, seconds: u64 },
    /// Receive one more datagram of at most `size` bytes in what is left of the time of `Await`.
    AwaitMore { size: usize },
    /// Send `data` to the client.
    Reply { data: Vec<u8>, client: C },
    /// Drop the socket for the backend.
    Stop(UdpEnd),
    /// Nothing: the event does not concern the exchange in its present state.
    Ignore,
}

/// The state and the action that follow an event.
pub open spec fn udp_next<C>(exchange: UdpExchange<C>, event: UdpEvent) -> (
    UdpExchange<C>,
    UdpAction<C>,
) {
    match (exchange, event) {
        (UdpExchange::Opening { data, backend, client }, UdpEvent::Opened) => (
            UdpExchange::Sending { client },
            UdpAction::Send { data, to: backend },
        ),
        (UdpExchange::Opening { .. }, UdpEvent::OpenFailed) => (
            UdpExchange::Done,
            UdpAction::Stop(UdpEnd::NoSocket),
        ),
        (UdpExchange::Sending { client }, UdpEvent::Sent { to }) => (
            UdpExchange::Awaiting { client, peer: to.answering() },
            UdpAction::Await { buffer: DATAGRAM_MAX, seconds: REPLY_TIMEOUT_SECS },
        ),
        (UdpExchange::Sending { .. }, UdpEvent::SendFailed) => (
            UdpExchange::Done,
            UdpAction::Stop(UdpEnd::SendFailed),
        ),
        (
            UdpExchange::Awaiting { client, peer },
            UdpEvent::Received { data, from },
        ) => if from.is_same_host(peer) {
            (UdpExchange::Replying, UdpAction::Reply { data, client })
        } else {
            (exchange, UdpAction::AwaitMore { size: DATAGRAM_MAX })
        },
        (UdpExchange::Awaiting { .. }, UdpEvent::ReceiveFailed) => (
            UdpExchange::Done,
            UdpAction::Stop(UdpEnd::ReceiveFailed),
        ),
        (UdpExchange::Awaiting { .. }, UdpEvent::TimedOut) => (
            UdpExchange::Done,
            UdpAction::Stop(UdpEnd::TimedOut),
        ),
        (UdpExchange::Replying, UdpEvent::Replied) => (
            UdpExchange::Done,
            UdpAction::Stop(UdpEnd::Answered),
        ),
        (UdpExchange::Replying, UdpEvent::ReplyFailed) => (
            UdpExchange::Done,
            UdpAction::Stop(UdpEnd::ReplyFailed),
        ),
        _ => (exchange, UdpAction::Ignore),
    }
}

/// The state after a series of events.
pub open spec fn udp_after<C>(exchange: UdpExchange<C>, events: Seq<UdpEvent>) -> UdpExchange<C>
    decreases events.len(),
{
    if events.len() == 0 {
        exchange
    } else {
        udp_next(udp_after(exchange, events.drop_last()), events.last()).0
    }
}

/// The action that follows the `i`th of a series of events.
pub open spec fn udp_action_at<C>(
    exchange: UdpExchange<C>,
    events: Seq<UdpEvent>,
    i: int,
) -> UdpAction<C> {
    udp_next(udp_after(exchange, events.take(i)), events[i]).1
}

/// The datagram that was received into the first `size` bytes of `buffer`.
pub fn datagram(buffer: &[u8], size: usize) -> (data: Vec<u8>)
    requires
        size <= buffer@.len(),
    ensures
        data@ == buffer@.take(size as int),
{
    let mut data: Vec<u8> = Vec::with_capacity(size);
    let mut i: usize = 0;
    while i < size
        invariant
            i <= size <= buffer@.len(),
            data@ == buffer@.take(i as int),
        decreases size - i,
    {
        data.push(buffer[i]);
        i = i + 1;
        assert(data@ =~= buffer@.take(i as int));
    }
    data
}

impl<C> UdpExchange<C> {
    /// `client` has sent `data`: a socket for `backend` is to be opened next, on any interface
    /// and any free port.
    pub fn start(data: Vec<u8>, backend: String, client: C) -> (first: (
        UdpExchange<C>,
        UdpAction<C>,
    ))
        ensures
            first.0 == (UdpExchange::Opening { data, backend, client }),
            first.1 matches UdpAction::Open { local } && local@ == "0.0.0.0:0"@,
    {
        let local = "0.0.0.0:0".to_owned();
        (UdpExchange::Opening { data, backend, client }, UdpAction::Open { local })
    }

    /// Takes an event and says what is to be done.
    pub fn step(self, event: UdpEvent) -> (next: (UdpExchange<C>, UdpAction<C>))
        ensures
            next == udp_next(self, event),
    {
        match (self, event) {
            (UdpExchange::Opening { data, backend, client }, UdpEvent::Opened) => {
                (UdpExchange::Sending { client }, UdpAction::Send { data, to: backend })
            },
            (UdpExchange::Opening { .. }, UdpEvent::OpenFailed) => {
                (UdpExchange::Done, UdpAction::Stop(UdpEnd::NoSocket))
            },
            (UdpExchange::Sending { client }, UdpEvent::Sent { to }) => {
                let wait = UdpAction::Await { buffer: DATAGRAM_MAX, seconds: REPLY_TIMEOUT_SECS };
                (UdpExchange::Awaiting { client, peer: to.answers_from() }, wait)
            },
            (UdpExchange::Sending { .. }, UdpEvent::SendFailed) => {
                (UdpExchange::Done, UdpAction::Stop(UdpEnd::SendFailed))
            },
            (UdpExchange::Awaiting { client, peer }, UdpEvent::Received { data, from }) => {
                if from.same_host(peer) {
                    (UdpExchange::Replying, UdpAction::Reply { data, client })
                } else {
                    let wait = UdpAction::AwaitMore { size: DATAGRAM_MAX };
                    (UdpExchange::Awaiting { client, peer }, wait)
                }
            },
            (UdpExchange::Awaiting { .. }, UdpEvent::ReceiveFailed) => {
                (UdpExchange::Done, UdpAction::Stop(UdpEnd::ReceiveFailed))
            },
            (UdpExchange::Awaiting { .. }, UdpEvent::TimedOut) => {
                (UdpExchange::Done, UdpAction::Stop(UdpEnd::TimedOut))
            },
            (UdpExchange::Replying, UdpEvent::Replied) => {
                (UdpExchange::Done, UdpAction::Stop(UdpEnd::Answered))
            },
            (UdpExchange::Replying, UdpEvent::ReplyFailed) => {
                (UdpExchange::Done, UdpAction::Stop(UdpEnd::ReplyFailed))
            },
            (exchange, _) => (exchange, UdpAction::Ignore),
        }
    }
}

/// The place of a state in the course of an exchange.
pub open spec fn udp_rank<C>(exchange: UdpExchange<C>) -> nat {
    match exchange {
        UdpExchange::Opening { .. } => 0,
        UdpExchange::Sending { .. } => 1,
        UdpExchange::Awaiting { .. } => 2,
        UdpExchange::Replying => 3,
        UdpExchange::Done => 4,
    }
}

/// The action leaves an exchange where it is.
pub open spec fn udp_stays<C>(action: UdpAction<C>) -> bool {
    action is Ignore || action is AwaitMore
}

/// An exchange never goes back: each event takes it further, is ignored, or is a datagram that
/// does not end the wait for the backend.
pub proof fn law_exchange_only_advances<C>(exchange: UdpExchange<C>, event: UdpEvent)
    ensures
        udp_stays(udp_next(exchange, event).1) ==> udp_next(exchange, event).0 == exchange,
        !udp_stays(udp_next(exchange, event).1) ==> udp_rank(udp_next(exchange, event).0)
            > udp_rank(exchange),
        udp_next(exchange, event).1 is AwaitMore ==> exchange is Awaiting && event is Received,
{
}

proof fn lemma_rank_grows<C>(exchange: UdpExchange<C>, events: Seq<UdpEvent>, i: int)
    requires
        0 <= i <= events.len(),
    ensures
        udp_rank(udp_after(exchange, events.take(i))) <= udp_rank(udp_after(exchange, events)),
    decreases events.len(),
{
    if i == events.len() {
        assert(events.take(i) =~= events);
    } else {
        assert(events.drop_last().take(i) =~= events.take(i));
        lemma_rank_grows(exchange, events.drop_last(), i);
        law_exchange_only_advances(udp_after(exchange, events.drop_last()), events.last());
    }
}

proof fn lemma_rank_passed<C>(exchange: UdpExchange<C>, events: Seq<UdpEvent>, i: int, j: int)
    requires
        0 <= i < j < events.len(),
        !udp_stays(udp_action_at(exchange, events, i)),
    ensures
        udp_rank(udp_after(exchange, events.take(i))) < udp_rank(
            udp_next(udp_after(exchange, events.take(i)), events[i]).0,
        ) <= udp_rank(udp_after(exchange, events.take(j))),
{
    assert(events.take(i + 1).drop_last() =~= events.take(i));
    assert(events.take(j).take(i + 1) =~= events.take(i + 1));
    law_exchange_only_advances(udp_after(exchange, events.take(i)), events[i]);
    lemma_rank_grows(exchange, events.take(j), i + 1);
}

/// Nothing is done for an exchange once it was stopped, by a failure, by the time limit or after
/// its answer.
pub proof fn law_nothing_after_stop<C>(
    exchange: UdpExchange<C>,
    events: Seq<UdpEvent>,
    i: int,
    j: int,
)
    requires
        0 <= i < j < events.len(),
        udp_action_at(exchange, events, i) is Stop,
    ensures
        udp_action_at(exchange, events, j) is Ignore,
{
    lemma_rank_passed(exchange, events, i, j);
}

/// The backend gets at most one datagram in an exchange, and the client at most one answer.
pub proof fn law_sent_and_answered_once<C>(
    exchange: UdpExchange<C>,
    events: Seq<UdpEvent>,
    i: int,
    j: int,
)
    requires
        0 <= i < j < events.len(),
    ensures
        udp_action_at(exchange, events, i) is Send ==> !(udp_action_at(exchange, events, j) is Send),
        udp_action_at(exchange, events, i) is Reply ==> !(udp_action_at(
            exchange,
            events,
            j,
        ) is Reply),
{
    if !udp_stays(udp_action_at(exchange, events, i)) {
        lemma_rank_passed(exchange, events, i, j);
    }
}

/// An exchange opens no socket but the one at its start.
pub proof fn law_one_socket_for_each_exchange<C>(
    exchange: UdpExchange<C>,
    events: Seq<UdpEvent>,
    i: int,
)
    requires
        0 <= i < events.len(),
    ensures
        !(udp_action_at(exchange, events, i) is Open),
{
}

/// What is sent in an exchange is the datagram of the client, and it goes to the backend.
pub proof fn law_datagram_goes_to_backend<C>(
    data: Vec<u8>,
    backend: String,
    client: C,
    events: Seq<UdpEvent>,
    i: int,
)
    requires
        0 <= i < events.len(),
        udp_action_at(UdpExchange::Opening { data, backend, client }, events, i) is Send,
    ensures
        udp_action_at(UdpExchange::Opening { data, backend, client }, events, i) == (
        UdpAction::<C>::Send { data, to: backend }),
{
    lemma_course(data, backend, client, events.take(i));
}

/// The datagram of the exchange was sent to the backend before the `i`th of a series of events.
pub open spec fn sent_before<C>(
    data: Vec<u8>,
    backend: String,
    client: C,
    events: Seq<UdpEvent>,
    i: int,
) -> bool {
    let start = UdpExchange::Opening { data, backend, client };
    exists|k: int|
        0 <= k < i && #[trigger] udp_action_at(start, events, k) == (UdpAction::<C>::Send {
            data,
            to: backend,
        })
}

/// Before the `i`th of a series of events, the datagram of the exchange was sent to an address
/// that answers from the host of `from`.
pub open spec fn sent_to_host_before<C>(
    start: UdpExchange<C>,
    events: Seq<UdpEvent>,
    from: Endpoint,
    i: int,
) -> bool {
    exists|k: int|
        #![trigger udp_action_at(start, events, k)]
        {
            &&& 0 <= k < i
            &&& udp_action_at(start, events, k) is Await
            &&& events[k] matches UdpEvent::Sent { to } && from.is_same_host(to.answering())
        }
}

/// An answer goes to the client whose datagram was sent to the backend before. It is a datagram
/// that came from the host to which that one was sent.
pub proof fn law_answer_goes_to_its_client<C>(
    data: Vec<u8>,
    backend: String,
    client: C,
    events: Seq<UdpEvent>,
    i: int,
)
    requires
        0 <= i < events.len(),
        udp_action_at(UdpExchange::Opening { data, backend, client }, events, i) is Reply,
    ensures
        ({
            let start = UdpExchange::Opening { data, backend, client };
            &&& events[i] is Received
            &&& udp_action_at(start, events, i) == (UdpAction::Reply {
                data: events[i]->Received_data,
                client,
            })
            &&& sent_before(data, backend, client, events, i)
            &&& sent_to_host_before(start, events, events[i]->from, i)
        }),
{
    let start = UdpExchange::Opening { data, backend, client };
    let before = events.take(i);
    lemma_course(data, backend, client, before);
    lemma_sent_before(data, backend, client, before, events, i);
    lemma_sent_to_host_before(
        start,
        before,
        events,
        udp_after(start, before)->peer,
        events[i]->from,
        i,
    );
}

/// A datagram that does not come from the host of the backend while its answer is awaited is
/// dropped: the exchange stays as it is, the wait goes on, and nothing goes to the client.
pub proof fn law_stranger_is_not_answered<C>(
    client: C,
    peer: Endpoint,
    data: Vec<u8>,
    from: Endpoint,
)
    requires
        !from.is_same_host(peer),
    ensures
        udp_next(UdpExchange::Awaiting { client, peer }, UdpEvent::Received { data, from }) == (
            UdpExchange::Awaiting { client, peer },
            UdpAction::<C>::AwaitMore { size: DATAGRAM_MAX },
        ),
{
}

/// An answer that comes from the host of the backend goes to the client, from whichever port it
/// comes.
pub proof fn law_any_port_of_the_backend_answers<C>(
    client: C,
    to: Endpoint,
    data: Vec<u8>,
    port: u16,
)
    ensures
        ({
            let waiting = udp_next(UdpExchange::Sending { client }, UdpEvent::Sent { to }).0;
            let from = Endpoint { port, ..to.answering() };
            udp_next(waiting, UdpEvent::Received { data, from }).1 == (UdpAction::Reply {
                data,
                client,
            })
        }),
{
}

/// The time limit is set once in an exchange: datagrams of others do not prolong it.
pub proof fn law_time_limit_is_set_once<C>(
    exchange: UdpExchange<C>,
    events: Seq<UdpEvent>,
    i: int,
    j: int,
)
    requires
        0 <= i < j < events.len(),
        udp_action_at(exchange, events, i) is Await,
    ensures
        !(udp_action_at(exchange, events, j) is Await),
{
    lemma_rank_passed(exchange, events, i, j);
}

proof fn lemma_sent_before<C>(
    data: Vec<u8>,
    backend: String,
    client: C,
    before: Seq<UdpEvent>,
    events: Seq<UdpEvent>,
    i: int,
)
    requires
        0 <= i <= events.len(),
        before == events.take(i),
        sent_before(data, backend, client, before, i),
    ensures
        sent_before(data, backend, client, events, i),
{
    let start = UdpExchange::Opening { data, backend, client };
    let k = choose|k: int|
        0 <= k < i && #[trigger] udp_action_at(start, before, k) == (UdpAction::<C>::Send {
            data,
            to: backend,
        });
    assert(before.take(k) =~= events.take(k));
    assert(udp_action_at(start, events, k) == udp_action_at(start, before, k));
}

proof fn lemma_sent_to_host_before<C>(
    start: UdpExchange<C>,
    before: Seq<UdpEvent>,
    events: Seq<UdpEvent>,
    peer: Endpoint,
    from: Endpoint,
    i: int,
)
    requires
        0 <= i <= events.len(),
        before == events.take(i),
        sent_to_host_before(start, before, peer, i),
        from.is_same_host(peer),
    ensures
        sent_to_host_before(start, events, from, i),
{
    let k = choose|k: int|
        #![trigger udp_action_at(start, before, k)]
        {
            &&& 0 <= k < i
            &&& udp_action_at(start, before, k) is Await
            &&& before[k] matches UdpEvent::Sent { to } && peer.is_same_host(to.answering())
        };
    assert(before.take(k) =~= events.take(k));
    assert(udp_action_at(start, events, k) == udp_action_at(start, before, k));
}

/// Before the datagram is sent nothing has changed; after that the client is kept until it gets
/// its answer, and so is the host to which the datagram was sent.
proof fn lemma_course<C>(data: Vec<u8>, backend: String, client: C, events: Seq<UdpEvent>)
    ensures
        ({
            let start = UdpExchange::Opening { data, backend, client };
            match udp_after(start, events) {
                UdpExchange::Opening { data: d, backend: b, client: c } => d == data && b == backend
                    && c == client,
                UdpExchange::Sending { client: c } => c == client,
                UdpExchange::Awaiting { client: c, peer } => c == client && sent_to_host_before(
                    start,
                    events,
                    peer,
                    events.len() as int,
                ),
                _ => true,
            }
        }),
        ({
            let start = UdpExchange::Opening { data, backend, client };
            1 <= udp_rank(udp_after(start, events)) <= 3 ==> sent_before(
                data,
                backend,
                client,
                events,
                events.len() as int,
            )
        }),
    decreases events.len(),
{
    let start = UdpExchange::Opening { data, backend, client };
    if events.len() > 0 {
        let before = events.drop_last();
        let n = before.len() as int;
        lemma_course(data, backend, client, before);
        assert(events.take(n) =~= before);
        assert(udp_action_at(start, events, n) == udp_next(
            udp_after(start, before),
            events.last(),
        ).1);
        if 1 <= udp_rank(udp_after(start, before)) <= 3 {
            lemma_sent_before(data, backend, client, before, events, n);
        }
        if let UdpExchange::Awaiting { peer, .. } = udp_after(start, before) {
            lemma_sent_to_host_before(start, before, events, peer, peer, n);
        }
    }
}

/// Two endpoints are of one host exactly when version and address agree, whatever the ports are.
pub proof fn law_host_is_version_and_address(one: Endpoint, other: Endpoint)
    ensures
        one.is_same_host(other) <==> one.v6 == other.v6 && one.ip == other.ip,
{
}

/// An address answers for itself, but for the unspecified one of version 4: that answers from the
/// loopback address. The port stays.
pub proof fn law_unspecified_address_answers_from_loopback(to: Endpoint)
    ensures
        to.answering().port == to.port,
        to.answering().v6 == to.v6,
        to.answering().ip == if to.ip == 0 && !to.v6 {
            2130706433u128
        } else {
            to.ip
        },
{
}

/// Once its socket is open, the datagram of every client is sent to the backend as it is,
/// whatever it holds and however long it is.
pub proof fn law_every_datagram_is_sent<C>(data: Vec<u8>, backend: String, client: C)
    ensures
        udp_next(UdpExchange::Opening { data, backend, client }, UdpEvent::Opened) == (
            UdpExchange::Sending { client },
            UdpAction::<C>::Send { data, to: backend },
        ),
{
}

/// Once the datagram was sent, an answer of up to 65535 bytes is awaited for 30 seconds, whoever
/// the client is and wherever the datagram went.
pub proof fn law_every_answer_is_awaited<C>(client: C, to: Endpoint)
    ensures
        ({
            let next = udp_next(UdpExchange::Sending { client }, UdpEvent::Sent { to });
            &&& next.1 matches UdpAction::Await { buffer, seconds } && buffer == 65535 && seconds
                == 30
            &&& next.0 matches UdpExchange::Awaiting { client: kept, peer } && {
                &&& kept == client
                &&& peer.v6 == to.v6
                &&& peer.ip == if to.ip == 0 && !to.v6 {
                    2130706433u128
                } else {
                    to.ip
                }
            }
        }),
{
}

/// A datagram that comes from the awaited host goes to the client as it is, whatever it holds and
/// from whichever port it comes. Any other leaves the client waiting for up to 65535 bytes more.
pub proof fn law_every_answer_is_handed_on<C>(
    client: C,
    peer: Endpoint,
    data: Vec<u8>,
    from: Endpoint,
)
    ensures
        ({
            let next = udp_next(
                UdpExchange::Awaiting { client, peer },
                UdpEvent::Received { data, from },
            );
            if from.v6 == peer.v6 && from.ip == peer.ip {
                &&& next.0 is Replying
                &&& next.1 == (UdpAction::Reply { data, client })
            } else {
                &&& next.0 == (UdpExchange::Awaiting { client, peer })
                &&& next.1 matches UdpAction::AwaitMore { size } && size == 65535
            }
        }),
{
}

/// An exchange in which nothing fails takes the datagram of the client to the backend and the
/// answer of the backend to the client.
pub proof fn law_exchange_serves_its_client<C>(
    data: Vec<u8>,
    backend: String,
    client: C,
    to: Endpoint,
    answer: Vec<u8>,
    port: u16,
)
    requires
        to.v6 || to.ip != 0,
    ensures
        ({
            let start = UdpExchange::Opening { data, backend, client };
            let from = Endpoint { v6: to.v6, ip: to.ip, port };
            let sending = udp_next(start, UdpEvent::Opened);
            let awaiting = udp_next(sending.0, UdpEvent::Sent { to });
            let replying = udp_next(awaiting.0, UdpEvent::Received { data: answer, from });
            let done = udp_next(replying.0, UdpEvent::Replied);
            &&& sending.1 == (UdpAction::<C>::Send { data, to: backend })
            &&& awaiting.1 is Await
            &&& replying.1 == (UdpAction::Reply { data: answer, client })
            &&& done == (UdpExchange::<C>::Done, UdpAction::<C>::Stop(UdpEnd::Answered))
        }),
{
}

/// An exchange ends for what happened to it: a failure that concerns its present state, the time
/// limit while it waits, or the answer that reached the client. It ends for nothing else.
pub proof fn law_ended_for_what_happened<C>(exchange: UdpExchange<C>, event: UdpEvent)
    ensures
        udp_next(exchange, event).1 is Stop <==> {
            ||| exchange is Opening && event is OpenFailed
            ||| exchange is Sending && event is SendFailed
            ||| exchange is Awaiting && (event is ReceiveFailed || event is TimedOut)
            ||| exchange is Replying && (event is Replied || event is ReplyFailed)
        },
        udp_next(exchange, event).1 is Stop <==> udp_next(exchange, event).0 is Done && !(
        exchange is Done),
        udp_next(exchange, event).1 matches UdpAction::Stop(end) ==> match end {
            UdpEnd::NoSocket => event is OpenFailed,
            UdpEnd::SendFailed => event is SendFailed,
            UdpEnd::ReceiveFailed => event is ReceiveFailed,
            UdpEnd::TimedOut => event is TimedOut,
            UdpEnd::Answered => event is Replied,
            UdpEnd::ReplyFailed => event is ReplyFailed,
        },
{
}

/// A datagram is sent when the socket is opened, an answer awaited when the datagram was sent,
/// and a datagram looked at while the answer is awaited. All else that does not end an exchange
/// is ignored.
pub proof fn law_nothing_is_done_out_of_turn<C>(exchange: UdpExchange<C>, event: UdpEvent)
    ensures
        udp_next(exchange, event).1 is Send <==> exchange is Opening && event is Opened,
        udp_next(exchange, event).1 is Await <==> exchange is Sending && event is Sent,
        udp_next(exchange, event).1 is Reply || udp_next(exchange, event).1 is AwaitMore
            <==> exchange is Awaiting && event is Received,
        udp_next(exchange, event).1 is Ignore ==> udp_next(exchange, event).0 == exchange,
        !(udp_next(exchange, event).1 is Open),
{
}

} // verus!
