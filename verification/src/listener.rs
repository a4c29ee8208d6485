//! One listening socket.
//!
//! A listener is opened once. If that fails it stops with the error. Afterwards it serves
//! whatever arrives, forever: a failure to take one arrival does not stop it.

use vstd::prelude::*;

verus! {

/// What a listener listens for.
#[derive(Debug, Clone, Copy, PartialEq, Eq, Structural)]
pub enum Protocol {
    /// TCP connections that are relayed.
    Tcp,
    /// UDP datagrams.
    Udp,
    /// Connections that carry HTTP or gRPC requests.
    Http,
}

/// How far a listener has come.
#[derive(Debug, Clone, PartialEq, Eq)]
pub enum Listener {
    /// Its address is being read.
    Parsing { addr: String },
    /// Its socket is being opened.
    Opening,
    /// It takes what arrives.
    Serving,
    /// It has failed.
    Stopped,
}

/// What happens to a listener.
#[derive(Debug, Clone, Copy, PartialEq, Eq, Structural)]
pub enum ListenerEvent {
    /// The address reads as a socket address.
    Parsed,
    /// The address does not read as a socket address.
    ParseFailed,
    /// The socket is open.
    Opened,
    /// The socket cannot be opened.
    OpenFailed,
    /// A connection or a datagram has arrived.
    Arrived,
    /// Taking an arrival has failed.
    ArrivalFailed,
}

/// What is to be done for a listener.
#[derive(Debug, Clone, PartialEq, Eq)]
pub enum ListenerAction {
    /// Read this address as a socket address.
    Parse { addr: String },
    /// Open the socket at this address.
    Open { addr: String },
    /// Wait for the next arrival.
    Await,
    /// Serve the arrival on its own and wait for the next one.
    Serve,
    /// Stop and report the error.
    Fail,
    /// Nothing: the event does not concern the listener in its present state.
    Ignore,
}

/// The state and the action that follow an event.
pub open spec fn listener_next(listener: Listener, event: ListenerEvent) -> (
    Listener,
    ListenerAction,
) {
    match (listener, event) {
        (Listener::Parsing { addr }, ListenerEvent::Parsed) => (
            Listener::Opening,
            ListenerAction::Open { addr },
        ),
        (Listener::Parsing { .. }, ListenerEvent::ParseFailed) => (
            Listener::Stopped,
            ListenerAction::Fail,
        ),
        (Listener::Opening, ListenerEvent::Opened) => (Listener::Serving, ListenerAction::Await),
        (Listener::Opening, ListenerEvent::OpenFailed) => (Listener::Stopped, ListenerAction::Fail),
        (Listener::Serving, ListenerEvent::Arrived) => (Listener::Serving, ListenerAction::Serve),
        (Listener::Serving, ListenerEvent::ArrivalFailed) => (
            Listener::Serving,
            ListenerAction::Await,
        ),
        _ => (listener, ListenerAction::Ignore),
    }
}

/// The state and the action with which a listener starts. An HTTP listener takes a socket
/// address only; the other ones leave it to the socket what an address is.
pub open spec fn listener_first(protocol: Protocol, addr: String) -> (Listener, ListenerAction) {
    match protocol {
        Protocol::Http => (Listener::Parsing { addr }, ListenerAction::Parse { addr }),
        _ => (Listener::Opening, ListenerAction::Open { addr }),
    }
}

/// The state after a series of events.
pub open spec fn listener_after(listener: Listener, events: Seq<ListenerEvent>) -> Listener
    decreases events.len(),
{
    if events.len() == 0 {
        listener
    } else {
        listener_next(listener_after(listener, events.drop_last()), events.last()).0
    }
}

/// The action that follows the `i`th of a series of events.
pub open spec fn listener_action_at(
    listener: Listener,
    events: Seq<ListenerEvent>,
    i: int,
) -> ListenerAction {
    listener_next(listener_after(listener, events.take(i)), events[i]).1
}

impl Listener {
    /// A new listener at `addr` and the first thing to be done for it.
    pub fn start(protocol: Protocol, addr: String) -> (first: (Listener, ListenerAction))
        ensures
            first == listener_first(protocol, addr),
    {
        match protocol {
            Protocol::Http => {
                (Listener::Parsing { addr: addr.clone() }, ListenerAction::Parse { addr })
            },
            _ => (Listener::Opening, ListenerAction::Open { addr }),
        }
    }

    /// Takes an event and says what is to be done.
    pub fn step(self, event: ListenerEvent) -> (next: (Listener, ListenerAction))
        ensures
            next == listener_next(self, event),
    {
        match (self, event) {
            (Listener::Parsing { addr }, ListenerEvent::Parsed) => {
                (Listener::Opening, ListenerAction::Open { addr })
            },
            (Listener::Parsing { .. }, ListenerEvent::ParseFailed) => {
                (Listener::Stopped, ListenerAction::Fail)
            },
            (Listener::Opening, ListenerEvent::Opened) => {
                (Listener::Serving, ListenerAction::Await)
            },
            (Listener::Opening, ListenerEvent::OpenFailed) => {
                (Listener::Stopped, ListenerAction::Fail)
            },
            (Listener::Serving, ListenerEvent::Arrived) => {
                (Listener::Serving, ListenerAction::Serve)
            },
            (Listener::Serving, ListenerEvent::ArrivalFailed) => {
                (Listener::Serving, ListenerAction::Await)
            },
            (listener, _) => (listener, ListenerAction::Ignore),
        }
    }
}

/// Once a listener serves, nothing that happens stops it.
pub proof fn law_serving_goes_on(events: Seq<ListenerEvent>)
    ensures
        listener_after(Listener::Serving, events) is Serving,
    decreases events.len(),
{
    if events.len() > 0 {
        law_serving_goes_on(events.drop_last());
    }
}

/// Once a listener serves, it serves exactly what arrives, and every time.
pub proof fn law_every_arrival_is_served(events: Seq<ListenerEvent>, i: int)
    requires
        0 <= i < events.len(),
    ensures
        listener_action_at(Listener::Serving, events, i) is Serve <==> events[i] is Arrived,
{
    law_serving_goes_on(events.take(i));
}

/// A listener that could not be opened never does anything again.
pub proof fn law_stopped_is_final(events: Seq<ListenerEvent>, i: int)
    requires
        0 <= i < events.len(),
    ensures
        listener_action_at(Listener::Stopped, events, i) is Ignore,
{
    lemma_stopped(events.take(i));
}

/// Whatever happens, a listener opens a socket at its own address only.
pub proof fn law_opens_its_own_address(
    protocol: Protocol,
    addr: String,
    events: Seq<ListenerEvent>,
    i: int,
)
    requires
        0 <= i < events.len(),
    ensures
        listener_action_at(listener_first(protocol, addr).0, events, i) matches
            ListenerAction::Open { addr: opened } ==> opened == addr,
{
    lemma_keeps_address(protocol, addr, events.take(i));
}

proof fn lemma_keeps_address(protocol: Protocol, addr: String, events: Seq<ListenerEvent>)
    ensures
        listener_after(listener_first(protocol, addr).0, events) matches Listener::Parsing {
            addr: kept,
        } ==> kept == addr,
    decreases events.len(),
{
    if events.len() > 0 {
        lemma_keeps_address(protocol, addr, events.drop_last());
    }
}

proof fn lemma_stopped(events: Seq<ListenerEvent>)
    ensures
        listener_after(Listener::Stopped, events) is Stopped,
    decreases events.len(),
{
    if events.len() > 0 {
        lemma_stopped(events.drop_last());
    }
}

/// A listener for TCP or UDP opens its socket at once. One for HTTP reads its address first, and
/// opens its socket there if that succeeds.
pub proof fn law_listener_gets_to_its_socket(protocol: Protocol, addr: String)
    ensures
        ({
            let first = listener_first(protocol, addr);
            if protocol is Http {
                &&& first.1 == (ListenerAction::Parse { addr })
                &&& listener_next(first.0, ListenerEvent::Parsed).1 == (ListenerAction::Open {
                    addr,
                })
            } else {
                first.1 == (ListenerAction::Open { addr })
            }
        }),
{
}

/// A listener whose socket has been opened waits for arrivals, whatever its protocol and its
/// address.
pub proof fn law_opened_listener_serves(protocol: Protocol, addr: String)
    ensures
        ({
            let first = listener_first(protocol, addr).0;
            let opening = if protocol is Http {
                listener_next(first, ListenerEvent::Parsed).0
            } else {
                first
            };
            let opened = listener_next(opening, ListenerEvent::Opened);
            &&& opened.1 is Await
            &&& opened.0 is Serving
            &&& listener_next(opened.0, ListenerEvent::Arrived).1 is Serve
        }),
{
}

/// A listener reports an error exactly when its address does not read as one or its socket cannot
/// be opened, and that is its end.
pub proof fn law_failure_to_open_is_reported(listener: Listener, event: ListenerEvent)
    ensures
        listener_next(listener, event).1 is Fail <==> (listener is Parsing && event is ParseFailed)
            || (listener is Opening && event is OpenFailed),
        listener_next(listener, event).1 is Fail ==> listener_next(listener, event).0 is Stopped,
        listener_next(listener, event).0 is Stopped && !(listener is Stopped) ==> listener_next(
            listener,
            event,
        ).1 is Fail,
{
}

/// A listener that serves goes on waiting after an arrival that could not be taken. Nothing but
/// that and an opened socket makes it wait.
pub proof fn law_failed_arrival_is_passed_over(listener: Listener, event: ListenerEvent)
    ensures
        listener_next(listener, event).1 is Await <==> (listener is Opening && event is Opened) || (
        listener is Serving && event is ArrivalFailed),
        listener_next(listener, event).1 is Serve <==> listener is Serving && event is Arrived,
        listener_next(listener, event).1 is Open <==> listener is Parsing && event is Parsed,
        !(listener_next(listener, event).1 is Parse),
{
}

/// An event that calls for nothing changes nothing.
pub proof fn law_ignored_event_changes_nothing(listener: Listener, event: ListenerEvent)
    ensures
        listener_next(listener, event).1 is Ignore ==> listener_next(listener, event).0 == listener,
        listener_next(listener, event).0 is Parsing ==> listener_next(listener, event).0
            == listener,
        listener_next(listener, event).0 is Opening && !(listener is Opening) ==> listener_next(
            listener,
            event,
        ).1 is Open,
{
}

} // verus!
