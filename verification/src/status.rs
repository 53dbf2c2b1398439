//! The lifecycle of one scan and the wire-level notifications that drive it.

use vstd::prelude::*;
use vstd::string::StringExecFns;
use crate::text::{decimal, push_decimal};

verus! {

/// The status tag carried by a notification on the wire.
#[derive(Clone, Copy, Debug, PartialEq, Eq, Structural)]
pub enum ScanStatusState {
    Scanning,
    Scanned,
    Failed,
}

/// The status of a scan as the client knows it. Times are whole milliseconds
/// on the embedding program's monotonic clock.
#[derive(Clone, Copy, Debug, PartialEq, Eq, Structural)]
pub enum ScanState {
    /// In progress since the given instant, the moment the scan first became known.
    Scanning(u64),
    /// Finished successfully; the time from first seen to completion.
    Scanned(u64),
    /// Finished with a failure; the time from first seen to the failure.
    Failed(u64),
}

/// A scan together with its identifier.
#[derive(Clone, Copy, Debug, PartialEq, Eq, Structural)]
pub struct Scan {
    pub scan_id: i32,
    pub status: ScanState,
}

/// One status notification as delivered by the server.
#[derive(Clone, Copy, Debug, PartialEq, Eq, Structural)]
pub struct ScanStatus {
    pub scan_id: i32,
    pub status: ScanStatusState,
}

/// The time that has passed at `now` since `start`; zero if the clock reads
/// earlier than `start`.
pub open spec fn elapsed_between(start: u64, now: u64) -> u64 {
    if now >= start {
        (now - start) as u64
    } else {
        0
    }
}

/// Computes [`elapsed_between`].
pub fn elapsed(start: u64, now: u64) -> (d: u64)
    ensures
        d == elapsed_between(start, now),
{
    if now >= start {
        now - start
    } else {
        0
    }
}

/// An identifier and a status word in parentheses, as scans and notifications
/// are written in diagnostics.
pub open spec fn labelled(scan_id: i32, word: Seq<char>) -> Seq<char> {
    "("@ + decimal(scan_id as int) + ", "@ + word + ")"@
}

fn labelled_text(scan_id: i32, word: &str) -> (s: String)
    ensures
        s@ == labelled(scan_id, word@),
{
    let mut s = String::from_str("(");
    push_decimal(&mut s, scan_id);
    s.append(", ");
    s.append(word);
    s.append(")");
    s
}

impl ScanStatusState {
    /// The lower-case wire form of the tag.
    pub open spec fn wire_form(self) -> Seq<char> {
        match self {
            ScanStatusState::Scanning => "scanning"@,
            ScanStatusState::Scanned => "scanned"@,
            ScanStatusState::Failed => "failed"@,
        }
    }

    /// The tag written as `s` on the wire, if there is one.
    pub open spec fn of_wire_form(s: Seq<char>) -> Option<ScanStatusState> {
        if s == "scanning"@ {
            Some(ScanStatusState::Scanning)
        } else if s == "scanned"@ {
            Some(ScanStatusState::Scanned)
        } else if s == "failed"@ {
            Some(ScanStatusState::Failed)
        } else {
            None
        }
    }

    /// Returns the wire form of the tag.
    pub fn label(&self) -> (s: &'static str)
        ensures
            s@ == self.wire_form(),
    {
        match self {
            ScanStatusState::Scanning => "scanning",
            ScanStatusState::Scanned => "scanned",
            ScanStatusState::Failed => "failed",
        }
    }

    /// Reads a tag from its wire form. The match is exact: the wire form is
    /// lower case, and nothing else is accepted.
    pub fn from_label(s: &str) -> (r: Option<ScanStatusState>)
        ensures
            r == Self::of_wire_form(s@),
    {
        let owned = String::from_str(s);
        if owned == String::from_str("scanning") {
            Some(ScanStatusState::Scanning)
        } else if owned == String::from_str("scanned") {
            Some(ScanStatusState::Scanned)
        } else if owned == String::from_str("failed") {
            Some(ScanStatusState::Failed)
        } else {
            None
        }
    }
}

impl ScanStatus {
    /// Returns the notification as text: identifier and tag in parentheses.
    pub fn to_text(&self) -> (s: String)
        ensures
            s@ == labelled(self.scan_id, self.status.wire_form()),
    {
        labelled_text(self.scan_id, self.status.label())
    }
}

impl Scan {
    /// The time to show for the scan at `now`: the time it has been running
    /// if it is in progress, its final duration otherwise.
    pub open spec fn duration_at(self, now: u64) -> u64 {
        match self.status {
            ScanState::Scanning(started) => elapsed_between(started, now),
            ScanState::Scanned(duration) => duration,
            ScanState::Failed(duration) => duration,
        }
    }

    /// Computes [`Scan::duration_at`]. Nothing is stored: a scan in progress
    /// shows more time at every later reading.
    pub fn elapsed(&self, now: u64) -> (d: u64)
        ensures
            d == self.duration_at(now),
    {
        match self.status {
            ScanState::Scanning(started) => elapsed(started, now),
            ScanState::Scanned(duration) => duration,
            ScanState::Failed(duration) => duration,
        }
    }

    /// Returns the scan as text: identifier and status word in parentheses.
    pub fn to_text(&self) -> (s: String)
        ensures
            s@ == labelled(self.scan_id, self.status.tag().wire_form()),
    {
        labelled_text(self.scan_id, self.status.label())
    }
}

impl ScanState {
    /// The tag that names this status.
    pub open spec fn tag(self) -> ScanStatusState {
        match self {
            ScanState::Scanning(_) => ScanStatusState::Scanning,
            ScanState::Scanned(_) => ScanStatusState::Scanned,
            ScanState::Failed(_) => ScanStatusState::Failed,
        }
    }

    /// Computes [`ScanState::tag`].
    pub fn status_tag(&self) -> (t: ScanStatusState)
        ensures
            t == self.tag(),
    {
        match self {
            ScanState::Scanning(_) => ScanStatusState::Scanning,
            ScanState::Scanned(_) => ScanStatusState::Scanned,
            ScanState::Failed(_) => ScanStatusState::Failed,
        }
    }

    /// Returns the status word: `scanning`, `scanned` or `failed`.
    pub fn label(&self) -> (s: &'static str)
        ensures
            s@ == self.tag().wire_form(),
    {
        self.status_tag().label()
    }

    /// `Scanned` and `Failed` are terminal: no notification moves a scan out of them.
    pub open spec fn is_terminal(self) -> bool {
        self is Scanned || self is Failed
    }

    /// The transition rule: the status that follows `self` when a notification
    /// with tag `incoming` arrives at time `now`.
    pub open spec fn next(self, incoming: ScanStatusState, now: u64) -> ScanState {
        match self {
            ScanState::Scanning(started) => match incoming {
                ScanStatusState::Scanning => self,
                ScanStatusState::Scanned => ScanState::Scanned(elapsed_between(started, now)),
                ScanStatusState::Failed => ScanState::Failed(elapsed_between(started, now)),
            },
            _ => self,
        }
    }

    /// Whether this status is terminal.
    pub fn terminal(&self) -> (b: bool)
        ensures
            b == self.is_terminal(),
    {
        match self {
            ScanState::Scanning(_) => false,
            _ => true,
        }
    }

    /// Applies the transition rule.
    pub fn advance(&self, incoming: ScanStatusState, now: u64) -> (next: ScanState)
        ensures
            next == self.next(incoming, now),
    {
        match *self {
            ScanState::Scanning(started) => match incoming {
                ScanStatusState::Scanning => *self,
                ScanStatusState::Scanned => ScanState::Scanned(elapsed(started, now)),
                ScanStatusState::Failed => ScanState::Failed(elapsed(started, now)),
            },
            other => other,
        }
    }
}

} // verus!
