//! The event loop: one sequential dispatcher for everything that happens.
//!
//! Three kinds of trigger reach the client: a message pushed by the server,
//! a liveness probe, and a refresh tick. The embedding program turns each
//! into a [`Msg`] and hands it to [`App::update`] together with what it has
//! sampled from the outside (the clock, the readiness of the connection).
//! What comes back is a [`Step`]: reports for the diagnostics sink and, where
//! the connection has to be replaced, the order to do so.

use vstd::prelude::*;
use vstd::string::StringExecFns;
use crate::decode::{decode_events, decoded};
use crate::diagnostics::{diagnostics_view, Diagnostic, DiagnosticView};
use crate::registry::{reports_of_all, State, StateView};
use crate::status::ScanStatus;
use crate::supervisor::{reopen_view, Reopen, ReopenView, Supervisor, SupervisorView};
use crate::text::optional_text;

verus! {

/// The subscription endpoint of the scan stream.
pub const MERCURE_URL: &'static str =
    ".well-known/mercure?topic=https%3A%2F%2Fsome.example.com%2Fstream";

/// Seconds between two refresh ticks.
pub const REFRESH_INTERVAL_SECS: u64 = 1;

/// Seconds between two liveness probes.
pub const CONNECTION_CHECK_INTERVAL_SECS: u64 = 10;

/// A trigger for the event loop.
#[derive(Debug, PartialEq, Eq)]
pub enum Msg {
    /// It is time to probe the connection.
    ConnectionCheck,
    /// A message could not be decoded; the text says why.
    LogError(String),
    /// A decoded batch of notifications and the cursor it was delivered with.
    ScanEvent(Vec<ScanStatus>, String),
    /// A refresh tick.
    Timer,
}

/// The mathematical content of a [`Msg`].
pub enum MsgView {
    ConnectionCheck,
    LogError(Seq<char>),
    ScanEvent(Seq<ScanStatus>, Seq<char>),
    Timer,
}

impl View for Msg {
    type V = MsgView;

    open spec fn view(&self) -> MsgView {
        match *self {
            Msg::ConnectionCheck => MsgView::ConnectionCheck,
            Msg::LogError(why) => MsgView::LogError(why@),
            Msg::ScanEvent(batch, cursor) => MsgView::ScanEvent(batch@, cursor@),
            Msg::Timer => MsgView::Timer,
        }
    }
}

/// The trigger that a delivery stands for. `payload` is the text of the
/// pushed message and `cursor` the position it was delivered with; either is
/// absent where the transport could not hand it over as text.
pub open spec fn message_of(payload: Option<Seq<char>>, cursor: Option<Seq<char>>) -> MsgView {
    match (payload, cursor) {
        (Some(payload), Some(cursor)) => match decoded(payload) {
            Ok(batch) => MsgView::ScanEvent(batch, cursor),
            Err(_) => MsgView::LogError("Could not deserialize Json event."@),
        },
        _ => MsgView::LogError("Something weird with event text or last message id :("@),
    }
}

impl Msg {
    /// Decodes one delivery. A delivery that does not decode becomes a
    /// [`Msg::LogError`]: nothing of its batch reaches the registry.
    pub fn from_delivery(payload: Option<String>, cursor: Option<String>) -> (msg: Msg)
        ensures
            msg@ == message_of(optional_text(payload), optional_text(cursor)),
    {
        match (payload, cursor) {
            (Some(payload), Some(cursor)) => match decode_events(payload.as_str()) {
                Ok(batch) => Msg::ScanEvent(batch, cursor),
                Err(_) => Msg::LogError(String::from_str("Could not deserialize Json event.")),
            },
            _ => Msg::LogError(
                String::from_str("Something weird with event text or last message id :("),
            ),
        }
    }
}

/// What the embedding program has to do after one trigger.
#[derive(Debug, PartialEq, Eq)]
pub struct Step {
    /// Reports for the diagnostics sink, in order.
    pub reports: Vec<Diagnostic>,
    /// The order to replace the connection, if it has to be replaced.
    pub reopen: Option<Reopen>,
    /// Whether the presentation layer should render again.
    pub should_render: bool,
}

/// The mathematical content of a [`Step`].
pub struct StepView {
    pub reports: Seq<DiagnosticView>,
    pub reopen: Option<ReopenView>,
    pub should_render: bool,
}

impl View for Step {
    type V = StepView;

    open spec fn view(&self) -> StepView {
        StepView {
            reports: diagnostics_view(self.reports@),
            reopen: reopen_view(self.reopen),
            should_render: self.should_render,
        }
    }
}

/// The client: the registry with its resume state, and the supervisor of
/// the connection.
pub struct App {
    state: State,
    supervisor: Supervisor,
}

/// The mathematical content of an [`App`].
pub struct AppView {
    pub state: StateView,
    pub supervisor: SupervisorView,
}

impl AppView {
    /// The client at start: nothing known, nothing recorded, nothing connected.
    pub open spec fn initial() -> AppView {
        AppView {
            state: StateView::initial(),
            supervisor: SupervisorView::initial(MERCURE_URL@),
        }
    }

    /// The client after one trigger, and what the trigger asks of the
    /// embedding program. `now` is the clock reading and `live` the
    /// readiness of the connection, both sampled when the trigger is handled.
    pub open spec fn update(self, msg: MsgView, now: u64, live: bool) -> (AppView, StepView) {
        match msg {
            MsgView::ConnectionCheck => {
                let (supervisor, reopen) = self.supervisor.probe(live, self.state.last_event_id);
                (
                    AppView { state: self.state, supervisor },
                    StepView {
                        reports: if reopen is Some {
                            seq![DiagnosticView::ConnectionLost]
                        } else {
                            Seq::empty()
                        },
                        reopen,
                        should_render: true,
                    },
                )
            },
            MsgView::LogError(why) => (
                self,
                StepView {
                    reports: seq![DiagnosticView::Dropped(why)],
                    reopen: None,
                    should_render: true,
                },
            ),
            MsgView::ScanEvent(batch, cursor) => (
                AppView {
                    state: self.state.process(batch, cursor, now),
                    supervisor: self.supervisor,
                },
                StepView {
                    reports: reports_of_all(self.state.scans, batch, cursor, now),
                    reopen: None,
                    should_render: true,
                },
            ),
            MsgView::Timer => (
                self,
                StepView { reports: Seq::empty(), reopen: None, should_render: true },
            ),
        }
    }
}

impl View for App {
    type V = AppView;

    closed spec fn view(&self) -> AppView {
        AppView { state: self.state@, supervisor: self.supervisor@ }
    }
}

impl App {
    /// The client at start, together with the order for the first
    /// subscription, which carries no cursor.
    pub fn create() -> (r: (App, Reopen))
        ensures
            r.0@ == AppView::initial(),
            r.1@ == r.0@.supervisor.first_order(),
    {
        let (supervisor, order) = Supervisor::new(MERCURE_URL);
        (App { state: State::new(), supervisor }, order)
    }

    /// The registry and the resume state.
    pub fn state(&self) -> (state: &State)
        ensures
            state@ == self@.state,
    {
        &self.state
    }

    /// The supervisor of the connection.
    pub fn supervisor(&self) -> (supervisor: &Supervisor)
        ensures
            supervisor@ == self@.supervisor,
    {
        &self.supervisor
    }

    /// Records how the attempt to open a connection went.
    pub fn opened(&mut self, ok: bool)
        ensures
            final(self)@ == (AppView {
                state: old(self)@.state,
                supervisor: old(self)@.supervisor.opened(ok),
            }),
    {
        self.supervisor.opened(ok);
    }

    /// Gives the connection up, as on shutdown. Returns whether there is a
    /// connection that the caller has to release; a second call finds none.
    /// What the client knows of the scans stays as it is.
    pub fn close(&mut self) -> (release: bool)
        ensures
            final(self)@ == (AppView {
                state: old(self)@.state,
                supervisor: old(self)@.supervisor.closed(),
            }),
            release == (old(self)@.supervisor.connection is Connected),
    {
        self.supervisor.close()
    }

    /// Handles one trigger. `now` is the clock reading in milliseconds and
    /// `live` the readiness that the current connection reports; `live` is
    /// not looked at while there is no connection.
    pub fn update(&mut self, msg: Msg, now: u64, live: bool) -> (step: Step)
        ensures
            final(self)@ == old(self)@.update(msg@, now, live).0,
            step@ == old(self)@.update(msg@, now, live).1,
    {
        match msg {
            Msg::ConnectionCheck => {
                let reopen = self.supervisor.probe(live, self.state.last_event_id());
                let mut reports: Vec<Diagnostic> = Vec::new();
                if reopen.is_some() {
                    reports.push(Diagnostic::ConnectionLost);
                }
                assert(diagnostics_view(reports@) =~= if reopen is Some {
                    seq![DiagnosticView::ConnectionLost]
                } else {
                    Seq::empty()
                });
                Step { reports, reopen, should_render: true }
            },
            Msg::LogError(why) => {
                let mut reports: Vec<Diagnostic> = Vec::new();
                reports.push(Diagnostic::Dropped(why));
                assert(diagnostics_view(reports@) =~= seq![DiagnosticView::Dropped(why@)]);
                Step { reports, reopen: None, should_render: true }
            },
            Msg::ScanEvent(batch, cursor) => {
                let reports = self.state.process(&batch, cursor, now);
                Step { reports, reopen: None, should_render: true }
            },
            Msg::Timer => {
                let reports: Vec<Diagnostic> = Vec::new();
                assert(diagnostics_view(reports@) =~= Seq::<DiagnosticView>::empty());
                Step { reports, reopen: None, should_render: true }
            },
        }
    }
}

} // verus!
