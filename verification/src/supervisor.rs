//! The reconnection supervisor.
//!
//! The transport only shows a readiness flag, so the supervisor is polled:
//! at every probe the embedding program samples the flag and hands it in.
//! The supervisor decides whether the connection has to be replaced and with
//! which request; the program closes, opens and reports back how the
//! opening went.

use vstd::prelude::*;
use vstd::string::StringExecFns;
use crate::text::optional_text;

verus! {

/// Whether the supervisor holds a connection.
#[derive(Clone, Copy, Debug, PartialEq, Eq, Structural)]
pub enum Connection {
    Connected,
    Disconnected,
}

/// The readiness code that the transport reports while a subscription is open.
pub const READY_STATE_OPEN: u16 = 1;

/// `web_sys::EventSource::OPEN`, the constant that `web_sys` gives for the
/// readiness of an open subscription. The contract claims its value, 1, as
/// the source of `web_sys` writes it.
#[verifier::external_body]
fn open_ready_state() -> (code: u16)
    ensures
        code == READY_STATE_OPEN,
{
    web_sys::EventSource::OPEN
}

/// A connection is live exactly while its transport reports itself open. One
/// that is still connecting, or closed, is not.
pub open spec fn is_live(ready_state: u16) -> bool {
    ready_state == READY_STATE_OPEN
}

/// Decides from a sampled readiness code whether the connection is live.
pub fn is_active(ready_state: u16) -> (live: bool)
    ensures
        live == is_live(ready_state),
{
    ready_state == open_ready_state()
}

/// An order to replace the connection.
#[derive(Debug, PartialEq, Eq)]
pub struct Reopen {
    /// Whether there is a previous connection, which must be closed before
    /// the new one is opened.
    pub close_previous: bool,
    /// The subscription request for the new connection.
    pub url: String,
}

/// The mathematical content of a [`Reopen`].
pub struct ReopenView {
    pub close_previous: bool,
    pub url: Seq<char>,
}

impl View for Reopen {
    type V = ReopenView;

    open spec fn view(&self) -> ReopenView {
        ReopenView { close_previous: self.close_previous, url: self.url@ }
    }
}

/// The contents of an order that may be absent.
pub open spec fn reopen_view(order: Option<Reopen>) -> Option<ReopenView> {
    match order {
        Some(order) => Some(order@),
        None => None,
    }
}

/// The subscription request for `endpoint`: the endpoint itself for a first
/// subscription, and the endpoint followed by the resume cursor where one
/// has been recorded.
pub open spec fn subscription_request(endpoint: Seq<char>, cursor: Option<Seq<char>>) -> Seq<char> {
    match cursor {
        Some(id) => endpoint + "&Last-Event-ID="@ + id,
        None => endpoint,
    }
}

/// Builds the subscription request for `endpoint` and an optional resume cursor.
pub fn subscription_url(endpoint: &str, cursor: &Option<String>) -> (url: String)
    ensures
        url@ == subscription_request(endpoint@, optional_text(*cursor)),
{
    let mut url = String::from_str(endpoint);
    match cursor {
        Some(id) => {
            url.append("&Last-Event-ID=");
            url.append(id.as_str());
        },
        None => {},
    }
    url
}

/// The supervisor of the one connection to an endpoint.
pub struct Supervisor {
    endpoint: String,
    connection: Connection,
}

/// The mathematical content of a [`Supervisor`].
pub struct SupervisorView {
    pub endpoint: Seq<char>,
    pub connection: Connection,
}

impl SupervisorView {
    /// The supervisor before the first subscription: nothing is connected.
    pub open spec fn initial(endpoint: Seq<char>) -> SupervisorView {
        SupervisorView { endpoint, connection: Connection::Disconnected }
    }

    /// The order for the first subscription, which carries no cursor.
    pub open spec fn first_order(self) -> ReopenView {
        ReopenView { close_previous: false, url: subscription_request(self.endpoint, None) }
    }

    /// A probe leads to a replacement when there is no connection, or when
    /// the connection that there is does not report itself live.
    pub open spec fn must_reopen(self, live: bool) -> bool {
        self.connection is Disconnected || !live
    }

    /// The supervisor after a probe that sampled `live`, and the order that
    /// the probe gives. A replacement is total: the previous connection, if
    /// there is one, is given up with the order, and the supervisor holds
    /// none until the new one is reported open.
    pub open spec fn probe(self, live: bool, cursor: Option<Seq<char>>) -> (
        SupervisorView,
        Option<ReopenView>,
    ) {
        if self.must_reopen(live) {
            (
                SupervisorView { endpoint: self.endpoint, connection: Connection::Disconnected },
                Some(
                    ReopenView {
                        close_previous: self.connection is Connected,
                        url: subscription_request(self.endpoint, cursor),
                    },
                ),
            )
        } else {
            (self, None)
        }
    }

    /// The supervisor after the connection has been closed for good. Closing
    /// is idempotent: there is nothing left to close afterwards.
    pub open spec fn closed(self) -> SupervisorView {
        SupervisorView { endpoint: self.endpoint, connection: Connection::Disconnected }
    }

    /// The supervisor after an attempt to open a connection has succeeded
    /// (`ok`) or failed.
    pub open spec fn opened(self, ok: bool) -> SupervisorView {
        SupervisorView {
            endpoint: self.endpoint,
            connection: if ok {
                Connection::Connected
            } else {
                Connection::Disconnected
            },
        }
    }
}

impl View for Supervisor {
    type V = SupervisorView;

    closed spec fn view(&self) -> SupervisorView {
        SupervisorView { endpoint: self.endpoint@, connection: self.connection }
    }
}

impl Supervisor {
    /// A supervisor for `endpoint`, together with the order for the first
    /// subscription. Nothing is connected until that order has been carried
    /// out and reported with [`Supervisor::opened`].
    pub fn new(endpoint: &str) -> (r: (Supervisor, Reopen))
        ensures
            r.0@ == SupervisorView::initial(endpoint@),
            r.1@ == r.0@.first_order(),
    {
        let url = subscription_url(endpoint, &None);
        (
            Supervisor { endpoint: String::from_str(endpoint), connection: Connection::Disconnected },
            Reopen { close_previous: false, url },
        )
    }

    /// Whether the supervisor holds a connection.
    pub fn connection(&self) -> (c: Connection)
        ensures
            c == self@.connection,
    {
        self.connection
    }

    /// The endpoint that the supervisor subscribes to.
    pub fn endpoint(&self) -> (e: &str)
        ensures
            e@ == self@.endpoint,
    {
        self.endpoint.as_str()
    }

    /// Handles one liveness probe. `live` is the readiness that the current
    /// connection reports; it is not looked at while there is no connection.
    /// `cursor` is the resume cursor recorded so far.
    ///
    /// A probe that finds the connection live does nothing. Any other probe
    /// orders a replacement whose request carries `cursor`.
    pub fn probe(&mut self, live: bool, cursor: &Option<String>) -> (order: Option<Reopen>)
        ensures
            final(self)@ == old(self)@.probe(live, optional_text(*cursor)).0,
            reopen_view(order) == old(self)@.probe(live, optional_text(*cursor)).1,
    {
        let connected = match self.connection {
            Connection::Connected => true,
            Connection::Disconnected => false,
        };
        if connected && live {
            return None;
        }
        let url = subscription_url(self.endpoint.as_str(), cursor);
        self.connection = Connection::Disconnected;
        Some(Reopen { close_previous: connected, url })
    }

    /// Gives the connection up, as on shutdown. Returns whether there is a
    /// connection that the caller has to release; a second call finds none.
    pub fn close(&mut self) -> (release: bool)
        ensures
            final(self)@ == old(self)@.closed(),
            release == (old(self)@.connection is Connected),
    {
        let release = match self.connection {
            Connection::Connected => true,
            Connection::Disconnected => false,
        };
        self.connection = Connection::Disconnected;
        release
    }

    /// Records how the attempt to open a connection went.
    pub fn opened(&mut self, ok: bool)
        ensures
            final(self)@ == old(self)@.opened(ok),
    {
        self.connection = if ok {
            Connection::Connected
        } else {
            Connection::Disconnected
        };
    }
}

} // verus!
