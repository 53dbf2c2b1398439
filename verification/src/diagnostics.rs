//! What the client reports to its diagnostics sink.
//!
//! None of these conditions stops the client: a lost connection is replaced,
//! a message that does not decode is dropped, a refused notification leaves
//! the registry as it was. Each is reported as a severity and a message.

use vstd::prelude::*;
use vstd::string::StringExecFns;
use crate::status::{labelled, Scan, ScanStatus};

verus! {

/// How serious a diagnostic is.
#[derive(Clone, Copy, Debug, PartialEq, Eq, Structural)]
pub enum Severity {
    Info,
    Warning,
}

/// One report for the diagnostics sink.
#[derive(Debug, PartialEq, Eq)]
pub enum Diagnostic {
    /// A notification arrived in the batch with the given cursor.
    Received { notification: ScanStatus, cursor: String },
    /// A notification tried to move a scan out of a terminal status and was
    /// refused. `current` is the scan as the registry holds it.
    Rejected { current: Scan, notification: ScanStatus },
    /// The connection is gone and is being replaced.
    ConnectionLost,
    /// A message was dropped; the text says why.
    Dropped(String),
}

/// The mathematical content of a [`Diagnostic`].
pub enum DiagnosticView {
    Received { notification: ScanStatus, cursor: Seq<char> },
    Rejected { current: Scan, notification: ScanStatus },
    ConnectionLost,
    Dropped(Seq<char>),
}

impl DiagnosticView {
    /// Only the arrival of a notification is informational; everything else
    /// is a warning.
    pub open spec fn severity(self) -> Severity {
        match self {
            DiagnosticView::Received { .. } => Severity::Info,
            _ => Severity::Warning,
        }
    }

    /// The text of the report. A refusal names the scan, the status it is
    /// in and the status that was refused.
    pub open spec fn message(self) -> Seq<char> {
        match self {
            DiagnosticView::Received { notification, cursor } => "received event: "@ + labelled(
                notification.scan_id,
                notification.status.wire_form(),
            ) + ", id "@ + cursor,
            DiagnosticView::Rejected { current, notification } => "Tried to update current "@
                + labelled(current.scan_id, current.status.tag().wire_form())
                + " with new event "@ + labelled(
                notification.scan_id,
                notification.status.wire_form(),
            ),
            DiagnosticView::ConnectionLost => "SSE connection lost. Reconnecting!"@,
            DiagnosticView::Dropped(why) => "Got error: "@ + why,
        }
    }
}

impl View for Diagnostic {
    type V = DiagnosticView;

    open spec fn view(&self) -> DiagnosticView {
        match *self {
            Diagnostic::Received { notification, cursor } => DiagnosticView::Received {
                notification,
                cursor: cursor@,
            },
            Diagnostic::Rejected { current, notification } => DiagnosticView::Rejected {
                current,
                notification,
            },
            Diagnostic::ConnectionLost => DiagnosticView::ConnectionLost,
            Diagnostic::Dropped(why) => DiagnosticView::Dropped(why@),
        }
    }
}

/// The contents of a list of diagnostics.
pub open spec fn diagnostics_view(list: Seq<Diagnostic>) -> Seq<DiagnosticView> {
    list.map_values(|d: Diagnostic| d@)
}

impl Diagnostic {
    /// The severity of the report.
    pub fn severity(&self) -> (s: Severity)
        ensures
            s == self@.severity(),
    {
        match self {
            Diagnostic::Received { .. } => Severity::Info,
            _ => Severity::Warning,
        }
    }

    /// The text of the report.
    pub fn message(&self) -> (s: String)
        ensures
            s@ == self@.message(),
    {
        match self {
            Diagnostic::Received { notification, cursor } => {
                let mut s = String::from_str("received event: ");
                s.append(notification.to_text().as_str());
                s.append(", id ");
                s.append(cursor.as_str());
                s
            },
            Diagnostic::Rejected { current, notification } => {
                let mut s = String::from_str("Tried to update current ");
                s.append(current.to_text().as_str());
                s.append(" with new event ");
                s.append(notification.to_text().as_str());
                s
            },
            Diagnostic::ConnectionLost => String::from_str("SSE connection lost. Reconnecting!"),
            Diagnostic::Dropped(why) => {
                let mut s = String::from_str("Got error: ");
                s.append(why.as_str());
                s
            },
        }
    }
}

} // verus!
