//! One relayed TCP connection.
//!
//! The client is connected already. The backend is connected next, and then bytes go both ways
//! until one direction ends; that closes the connection as a whole.

use vstd::prelude::*;

verus! {

/// The way that bytes go.
#[derive(Debug, Clone, Copy, PartialEq, Eq, Structural)]
pub enum Direction {
    ClientToBackend,
    BackendToClient,
}

/// Why a connection was closed.
#[derive(Debug, Clone, Copy, PartialEq, Eq, Structural)]
pub enum TcpEnd {
    /// The backend could not be connected.
    BackendUnreachable,
    /// One direction came to its end.
    Finished,
    /// The transfer failed in this direction.
    TransferFailed(Direction),
}

/// How far the connection of a client `C` has come.
#[derive(Debug, Clone, PartialEq, Eq)]
pub enum TcpSession<C> {
    /// The backend is being connected.
    Connecting { client: C },
    /// Bytes go both ways.
    Relaying,
    /// Both sides are closed.
    Closed,
}

/// What happens to a connection. `B` is a connection to a backend.
#[derive(Debug, Clone, PartialEq, Eq)]
pub enum TcpEvent<B> {
    /// The backend is connected: this is the connection that was opened for the client.
    Connected { backend: B },
    /// The backend cannot be connected.
    ConnectFailed,
    /// The transfer ended in one direction, by itself or with an error.
    TransferEnded { direction: Direction, failed: bool },
}

/// What is to be done for a connection.
#[derive(Debug, Clone, PartialEq, Eq)]
pub enum TcpAction<C, B> {
    /// Open a connection to the backend at this address.
    Connect(String),
    /// Copy bytes both ways between these two until one direction ends.
    Relay { client: C, backend: B },
    /// Drop both directions and close both sides.
    Close(TcpEnd),
    /// Nothing: the event does not concern the connection any more, or not yet.
    Ignore,
}

/// The state and the action that follow an event.
pub open spec fn tcp_next<C, B>(session: TcpSession<C>, event: TcpEvent<B>) -> (
    TcpSession<C>,
    TcpAction<C, B>,
) {
    match (session, event) {
        (TcpSession::Connecting { client }, TcpEvent::Connected { backend }) => (
            TcpSession::Relaying,
            TcpAction::Relay { client, backend },
        ),
        (TcpSession::Connecting { .. }, TcpEvent::ConnectFailed) => (
            TcpSession::Closed,
            TcpAction::Close(TcpEnd::BackendUnreachable),
        ),
        (TcpSession::Relaying, TcpEvent::TransferEnded { direction, failed }) => (
            TcpSession::Closed,
            TcpAction::Close(
                if failed {
                    TcpEnd::TransferFailed(direction)
                } else {
                    TcpEnd::Finished
                },
            ),
        ),
        _ => (session, TcpAction::Ignore),
    }
}

/// The state after a series of events.
pub open spec fn tcp_after<C, B>(session: TcpSession<C>, events: Seq<TcpEvent<B>>) -> TcpSession<C>
    decreases events.len(),
{
    if events.len() == 0 {
        session
    } else {
        tcp_next(tcp_after(session, events.drop_last()), events.last()).0
    }
}

/// The action that follows the `i`th of a series of events.
pub open spec fn tcp_action_at<C, B>(
    session: TcpSession<C>,
    events: Seq<TcpEvent<B>>,
    i: int,
) -> TcpAction<C, B> {
    tcp_next(tcp_after(session, events.take(i)), events[i]).1
}

impl<C> TcpSession<C> {
    /// `client` has connected: a connection to the backend is to be opened for it next.
    pub fn start<B>(client: C, backend: String) -> (first: (TcpSession<C>, TcpAction<C, B>))
        ensures
            first == (TcpSession::Connecting { client }, TcpAction::<C, B>::Connect(backend)),
    {
        (TcpSession::Connecting { client }, TcpAction::Connect(backend))
    }

    /// Takes an event and says what is to be done.
    pub fn step<B>(self, event: TcpEvent<B>) -> (next: (TcpSession<C>, TcpAction<C, B>))
        ensures
            next == tcp_next(self, event),
    {
        match (self, event) {
            (TcpSession::Connecting { client }, TcpEvent::Connected { backend }) => {
                (TcpSession::Relaying, TcpAction::Relay { client, backend })
            },
            (TcpSession::Connecting { .. }, TcpEvent::ConnectFailed) => {
                (TcpSession::Closed, TcpAction::Close(TcpEnd::BackendUnreachable))
            },
            (TcpSession::Relaying, TcpEvent::TransferEnded { direction, failed }) => {
                let end = if failed {
                    TcpEnd::TransferFailed(direction)
                } else {
                    TcpEnd::Finished
                };
                (TcpSession::Closed, TcpAction::Close(end))
            },
            (session, _) => (session, TcpAction::Ignore),
        }
    }
}

/// A closed connection stays closed.
pub proof fn law_closed_stays_closed<C, B>(session: TcpSession<C>, events: Seq<TcpEvent<B>>, i: int)
    requires
        0 <= i <= events.len(),
        tcp_after(session, events.take(i)) is Closed,
    ensures
        tcp_after(session, events) is Closed,
    decreases events.len(),
{
    if i == events.len() {
        assert(events.take(i) =~= events);
    } else {
        assert(events.drop_last().take(i) =~= events.take(i));
        law_closed_stays_closed(session, events.drop_last(), i);
    }
}

/// Nothing is done for a connection once it was closed. In particular it is closed once only.
pub proof fn law_nothing_after_close<C, B>(
    session: TcpSession<C>,
    events: Seq<TcpEvent<B>>,
    i: int,
    j: int,
)
    requires
        0 <= i < j < events.len(),
        tcp_action_at(session, events, i) is Close,
    ensures
        tcp_action_at(session, events, j) is Ignore,
{
    assert(events.take(i + 1).drop_last() =~= events.take(i));
    assert(tcp_after(session, events.take(i + 1)) is Closed);
    assert(events.take(j).take(i + 1) =~= events.take(i + 1));
    law_closed_stays_closed(session, events.take(j), i + 1);
}

/// A session that has left the first phase never comes back to it.
proof fn lemma_connecting_is_first<C, B>(session: TcpSession<C>, events: Seq<TcpEvent<B>>, i: int)
    requires
        0 <= i <= events.len(),
        !(tcp_after(session, events.take(i)) is Connecting),
    ensures
        !(tcp_after(session, events) is Connecting),
    decreases events.len(),
{
    if i == events.len() {
        assert(events.take(i) =~= events);
    } else {
        assert(events.drop_last().take(i) =~= events.take(i));
        lemma_connecting_is_first(session, events.drop_last(), i);
    }
}

/// Bytes are relayed at most once for a connection, and only when the backend was connected.
pub proof fn law_relayed_once<C, B>(
    session: TcpSession<C>,
    events: Seq<TcpEvent<B>>,
    i: int,
    j: int,
)
    requires
        0 <= i < j < events.len(),
        tcp_action_at(session, events, i) is Relay,
    ensures
        events[i] is Connected,
        !(tcp_action_at(session, events, j) is Relay),
{
    assert(events.take(i + 1).drop_last() =~= events.take(i));
    assert(events.take(j).take(i + 1) =~= events.take(i + 1));
    lemma_connecting_is_first(session, events.take(j), i + 1);
}

/// Until the backend is connected the client is kept.
proof fn lemma_client_is_kept<C, B>(client: C, events: Seq<TcpEvent<B>>)
    ensures
        tcp_after(TcpSession::Connecting { client }, events) matches TcpSession::Connecting {
            client: kept,
        } ==> kept == client,
    decreases events.len(),
{
    if events.len() > 0 {
        lemma_client_is_kept(client, events.drop_last());
    }
}

/// Connections are never crossed: the two that bytes are copied between are the client of the
/// session and the connection to the backend that was opened for it.
pub proof fn law_client_is_joined_to_its_own_connection<C, B>(
    client: C,
    events: Seq<TcpEvent<B>>,
    i: int,
)
    requires
        0 <= i < events.len(),
        tcp_action_at(TcpSession::Connecting { client }, events, i) is Relay,
    ensures
        events[i] is Connected,
        tcp_action_at(TcpSession::Connecting { client }, events, i) == (TcpAction::Relay {
            client,
            backend: events[i]->backend,
        }),
{
    lemma_client_is_kept(client, events.take(i));
}

/// Whatever happens to a connection, only its backend is connected, and that was done at the
/// start.
pub proof fn law_no_other_backend<C, B>(session: TcpSession<C>, events: Seq<TcpEvent<B>>, i: int)
    requires
        0 <= i < events.len(),
    ensures
        !(tcp_action_at(session, events, i) is Connect),
{
}

/// While bytes go both ways, the end of either direction, with an error or without, closes the
/// connection.
pub proof fn law_either_direction_closes<C, B>(direction: Direction, failed: bool)
    ensures
        ({
            let next = tcp_next(
                TcpSession::<C>::Relaying,
                TcpEvent::<B>::TransferEnded { direction, failed },
            );
            next.0 is Closed && next.1 is Close
        }),
{
}

/// A client whose backend has been connected is relayed: the two that bytes are copied between
/// are the client and the connection.
pub proof fn law_connected_client_is_relayed<C, B>(client: C, backend: B)
    ensures
        tcp_next(TcpSession::Connecting { client }, TcpEvent::Connected { backend }) == (
            TcpSession::<C>::Relaying,
            TcpAction::Relay { client, backend },
        ),
{
}

/// Bytes are copied exactly when the backend becomes connected while it is waited for.
pub proof fn law_relayed_when_connected<C, B>(session: TcpSession<C>, event: TcpEvent<B>)
    ensures
        tcp_next(session, event).1 is Relay <==> session is Connecting && event is Connected,
        tcp_next(session, event).1 is Relay <==> tcp_next(session, event).0 is Relaying && !(
        session is Relaying),
{
}

/// A connection is closed exactly when its backend cannot be connected or, while bytes go both
/// ways, when one direction ends. Why it was closed is what happened.
pub proof fn law_closed_for_what_happened<C, B>(session: TcpSession<C>, event: TcpEvent<B>)
    ensures
        tcp_next(session, event).1 is Close <==> (session is Connecting && event is ConnectFailed)
            || (session is Relaying && event is TransferEnded),
        tcp_next(session, event).1 is Close <==> tcp_next(session, event).0 is Closed && !(
        session is Closed),
        tcp_next(session, event).1 matches TcpAction::Close(end) ==> match end {
            TcpEnd::BackendUnreachable => event is ConnectFailed,
            TcpEnd::Finished => event matches TcpEvent::TransferEnded { failed, .. } && !failed,
            TcpEnd::TransferFailed(way) => event matches TcpEvent::TransferEnded {
                direction,
                failed,
            } && failed && way == direction,
        },
{
}

/// An event that calls for nothing changes nothing, and a client that waits for its backend is
/// not lost.
pub proof fn law_other_events_change_nothing<C, B>(session: TcpSession<C>, event: TcpEvent<B>)
    ensures
        tcp_next(session, event).1 is Ignore ==> tcp_next(session, event).0 == session,
        tcp_next(session, event).0 is Connecting ==> tcp_next(session, event).0 == session,
        !(tcp_next(session, event).1 is Connect),
{
}

} // verus!
