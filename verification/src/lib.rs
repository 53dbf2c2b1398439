//! A live-status client for a set of background scans.
//!
//! The server pushes status notifications over a long-lived event stream.
//! This crate holds everything about that client that can be decided from
//! plain values: how a pushed message is decoded, how a notification moves a
//! scan through its lifecycle, which position of the stream to resume from,
//! and when the connection has to be replaced. The embedding program owns the
//! connection, the clock and the timers; it feeds what it observes into
//! [`App::update`] and carries out what comes back.

pub mod app;
pub mod decode;
pub mod diagnostics;
pub mod json;
pub mod laws;
pub mod order;
pub mod registry;
pub mod status;
pub mod supervisor;
pub mod text;

pub use app::{
    App, Msg, Step, CONNECTION_CHECK_INTERVAL_SECS, MERCURE_URL, REFRESH_INTERVAL_SECS,
};
pub use decode::{decode_batch, decode_events, decode_notification, DecodeError};
pub use diagnostics::{Diagnostic, Severity};
pub use registry::State;
pub use status::{elapsed, Scan, ScanState, ScanStatus, ScanStatusState};
pub use supervisor::{
    is_active, subscription_url, Connection, Reopen, Supervisor, READY_STATE_OPEN,
};
pub use text::duration_to_string;
