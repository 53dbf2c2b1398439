//! The job registry and the resume state.

use std::collections::BTreeMap;
use vstd::prelude::*;
use vstd::std_specs::btree::increasing_seq;
use vstd::std_specs::iter::IteratorSpec;
use crate::order::lemma_increasing_ids;
use crate::diagnostics::{diagnostics_view, Diagnostic, DiagnosticView};
use crate::status::{Scan, ScanState, ScanStatus};
use crate::text::optional_text;

verus! {

/// Everything the client remembers: the status of every scan it has heard of,
/// and the position of the stream up to which it has applied notifications.
pub struct State {
    scans: BTreeMap<i32, ScanState>,
    last_event_id: Option<String>,
}

/// The mathematical content of a [`State`].
pub struct StateView {
    /// The status of each known scan, by identifier.
    pub scans: Map<i32, ScanState>,
    /// The cursor of the batch that was applied last, if any was.
    pub last_event_id: Option<Seq<char>>,
}

/// Whether the registry refuses `n`: its scan is known and has reached a
/// terminal status.
pub open spec fn rejects(scans: Map<i32, ScanState>, n: ScanStatus) -> bool {
    scans.contains_key(n.scan_id) && scans[n.scan_id].is_terminal()
}

/// The status from which `n` moves its scan: the recorded one, or, for a scan
/// not heard of before, `Scanning` since `now`.
pub open spec fn origin(scans: Map<i32, ScanState>, n: ScanStatus, now: u64) -> ScanState {
    if scans.contains_key(n.scan_id) {
        scans[n.scan_id]
    } else {
        ScanState::Scanning(now)
    }
}

/// The registry after `n` has been applied at time `now`.
pub open spec fn apply_one(scans: Map<i32, ScanState>, n: ScanStatus, now: u64) -> Map<
    i32,
    ScanState,
> {
    scans.insert(n.scan_id, origin(scans, n, now).next(n.status, now))
}

/// The registry after the notifications of `batch` have been applied in
/// order, all at time `now`.
pub open spec fn apply_all(scans: Map<i32, ScanState>, batch: Seq<ScanStatus>, now: u64) -> Map<
    i32,
    ScanState,
>
    decreases batch.len(),
{
    if batch.len() == 0 {
        scans
    } else {
        apply_one(apply_all(scans, batch.drop_last(), now), batch.last(), now)
    }
}

/// What is reported when `n` arrives in a batch with the given cursor: its
/// arrival, and its refusal if the registry refuses it.
pub open spec fn reports_of(scans: Map<i32, ScanState>, n: ScanStatus, cursor: Seq<char>) -> Seq<
    DiagnosticView,
> {
    let arrival = seq![DiagnosticView::Received { notification: n, cursor }];
    if rejects(scans, n) {
        arrival.push(
            DiagnosticView::Rejected {
                current: Scan { scan_id: n.scan_id, status: scans[n.scan_id] },
                notification: n,
            },
        )
    } else {
        arrival
    }
}

/// What is reported while a batch is applied, in order. Each notification is
/// judged against the registry as the notifications before it have left it.
pub open spec fn reports_of_all(
    scans: Map<i32, ScanState>,
    batch: Seq<ScanStatus>,
    cursor: Seq<char>,
    now: u64,
) -> Seq<DiagnosticView>
    decreases batch.len(),
{
    if batch.len() == 0 {
        Seq::empty()
    } else {
        reports_of_all(scans, batch.drop_last(), cursor, now) + reports_of(
            apply_all(scans, batch.drop_last(), now),
            batch.last(),
            cursor,
        )
    }
}

/// Whether `list` is the listing of the registry: every scan once, with its
/// recorded status, from the highest identifier down.
pub open spec fn is_listing(list: Seq<Scan>, scans: Map<i32, ScanState>) -> bool {
    &&& forall|i: int|
        0 <= i < list.len() ==> scans.contains_key(#[trigger] list[i].scan_id)
            && scans[list[i].scan_id] == list[i].status
    &&& forall|id: i32|
        scans.contains_key(id) ==> exists|i: int|
            0 <= i < list.len() && #[trigger] list[i].scan_id == id
    &&& forall|i: int, j: int|
        0 <= i < j < list.len() ==> #[trigger] list[i].scan_id > #[trigger] list[j].scan_id
}

/// One batch as it reaches the client: its notifications, the cursor it was
/// delivered with, and the time at which it is processed.
pub struct Delivery {
    pub batch: Seq<ScanStatus>,
    pub cursor: Seq<char>,
    pub now: u64,
}

impl StateView {
    /// The state of a client that has not received anything yet.
    pub open spec fn initial() -> StateView {
        StateView { scans: Map::empty(), last_event_id: None }
    }

    /// The state after a batch with the given cursor has been processed at
    /// time `now`. The cursor is recorded whatever became of the individual
    /// notifications.
    pub open spec fn process(self, batch: Seq<ScanStatus>, cursor: Seq<char>, now: u64) -> StateView {
        StateView { scans: apply_all(self.scans, batch, now), last_event_id: Some(cursor) }
    }

    /// The state after a sequence of deliveries has been processed in order.
    pub open spec fn process_all(self, deliveries: Seq<Delivery>) -> StateView
        decreases deliveries.len(),
    {
        if deliveries.len() == 0 {
            self
        } else {
            let last = deliveries.last();
            self.process_all(deliveries.drop_last()).process(last.batch, last.cursor, last.now)
        }
    }
}

impl View for State {
    type V = StateView;

    closed spec fn view(&self) -> StateView {
        StateView {
            scans: self.scans@,
            last_event_id: optional_text(self.last_event_id),
        }
    }
}

impl State {
    /// An empty registry with no resume cursor.
    pub fn new() -> (state: State)
        ensures
            state@ == StateView::initial(),
    {
        State { scans: BTreeMap::new(), last_event_id: None }
    }

    /// The number of scans in the registry.
    pub fn len(&self) -> (n: usize)
        ensures
            n == self@.scans.len(),
    {
        self.scans.len()
    }

    /// The scan with the given identifier, if the registry has one.
    pub fn get(&self, scan_id: i32) -> (r: Option<Scan>)
        ensures
            r == if self@.scans.contains_key(scan_id) {
                Some(Scan { scan_id, status: self@.scans[scan_id] })
            } else {
                None
            },
    {
        match self.scans.get(&scan_id) {
            Some(status) => Some(Scan { scan_id, status: *status }),
            None => None,
        }
    }

    /// The cursor of the batch that was processed last.
    pub fn last_event_id(&self) -> (r: &Option<String>)
        ensures
            optional_text(*r) == self@.last_event_id,
    {
        &self.last_event_id
    }

    /// The snapshot of the registry for the presentation layer: every scan,
    /// from the highest identifier down.
    pub fn scans(&self) -> (list: Vec<Scan>)
        ensures
            is_listing(list@, self@.scans),
    {
        let mut ascending: Vec<Scan> = Vec::new();
        for entry in it: self.scans.iter()
            invariant
                ascending@.len() == it.index(),
                increasing_seq(it.seq().map_values(|kv: (&i32, &ScanState)| *kv.0)),
                forall|i: int|
                    0 <= i < it.index() ==> (#[trigger] ascending@[i]).scan_id == *it.seq()[i].0
                        && ascending@[i].status == *it.seq()[i].1,
        {
            let (id, status) = entry;
            ascending.push(Scan { scan_id: *id, status: *status });
        }
        let ghost entries = self.scans.iter().remaining();
        let ghost ids = entries.map_values(|kv: (&i32, &ScanState)| *kv.0);
        assert(ascending@.len() == entries.len());
        assert forall|id: i32| self@.scans.contains_key(id) implies exists|i: int|
            0 <= i < ascending@.len() && #[trigger] ascending@[i].scan_id == id by {
            assert(entries.contains((&id, &self@.scans[id])));
            let i = choose|i: int| 0 <= i < entries.len() && entries[i] == (&id, &self@.scans[id]);
            assert(ascending@[i].scan_id == id);
        }
        proof {
            lemma_increasing_ids(ids);
        }
        assert forall|i: int, j: int| 0 <= i < j < ascending@.len() implies (
        #[trigger] ascending@[i]).scan_id < (#[trigger] ascending@[j]).scan_id by {
            assert(ids[i] == ascending@[i].scan_id);
            assert(ids[j] == ascending@[j].scan_id);
        }
        let mut list: Vec<Scan> = Vec::new();
        let mut k: usize = ascending.len();
        while k > 0
            invariant
                0 <= k <= ascending.len(),
                list@.len() == ascending.len() - k,
                forall|i: int|
                    0 <= i < list@.len() ==> #[trigger] list@[i] == ascending@[ascending.len() - 1
                        - i],
            decreases k,
        {
            k -= 1;
            list.push(ascending[k]);
        }
        assert forall|id: i32| self@.scans.contains_key(id) implies exists|i: int|
            0 <= i < list@.len() && #[trigger] list@[i].scan_id == id by {
            let j = choose|j: int| 0 <= j < ascending@.len() && ascending@[j].scan_id == id;
            assert(list@[ascending.len() - 1 - j].scan_id == id);
        }
        list
    }

    /// Applies one notification at time `now`.
    ///
    /// A scan not heard of before enters the registry as `Scanning` since
    /// `now` and is then moved by the notification like any other. A
    /// notification for a scan in a terminal status is refused: the registry
    /// stays as it is and the refused scan is returned.
    pub fn apply(&mut self, n: ScanStatus, now: u64) -> (refused: Option<Scan>)
        ensures
            final(self)@.scans == apply_one(old(self)@.scans, n, now),
            final(self)@.last_event_id == old(self)@.last_event_id,
            refused == if rejects(old(self)@.scans, n) {
                Some(Scan { scan_id: n.scan_id, status: old(self)@.scans[n.scan_id] })
            } else {
                None
            },
            rejects(old(self)@.scans, n) ==> final(self)@.scans == old(self)@.scans,
    {
        let current: ScanState = match self.scans.get(&n.scan_id) {
            Some(status) => *status,
            None => ScanState::Scanning(now),
        };
        if current.terminal() {
            assert(apply_one(self@.scans, n, now) =~= self@.scans);
            return Some(Scan { scan_id: n.scan_id, status: current });
        }
        let next: ScanState = current.advance(n.status, now);
        self.scans.insert(n.scan_id, next);
        None
    }

    /// Processes one decoded batch at time `now`: applies its notifications
    /// in order, then records the batch's cursor as the position to resume
    /// from. The cursor is recorded for every batch, also for an empty one
    /// and for one whose notifications were all refused.
    pub fn process(&mut self, batch: &Vec<ScanStatus>, cursor: String, now: u64) -> (reports: Vec<
        Diagnostic,
    >)
        ensures
            final(self)@ == old(self)@.process(batch@, cursor@, now),
            diagnostics_view(reports@) == reports_of_all(old(self)@.scans, batch@, cursor@, now),
    {
        let mut reports: Vec<Diagnostic> = Vec::new();
        let mut i: usize = 0;
        assert(batch@.take(0) =~= Seq::<ScanStatus>::empty());
        assert(diagnostics_view(reports@) =~= Seq::<DiagnosticView>::empty());
        while i < batch.len()
            invariant
                0 <= i <= batch.len(),
                self@.scans == apply_all(old(self)@.scans, batch@.take(i as int), now),
                self@.last_event_id == old(self)@.last_event_id,
                diagnostics_view(reports@) == reports_of_all(
                    old(self)@.scans,
                    batch@.take(i as int),
                    cursor@,
                    now,
                ),
            decreases batch.len() - i,
        {
            let n: ScanStatus = batch[i];
            let ghost before = reports@;
            let ghost scans = self@.scans;
            proof {
                let upto = batch@.take(i + 1);
                assert(upto.drop_last() =~= batch@.take(i as int));
                assert(upto.last() == n);
            }
            reports.push(Diagnostic::Received { notification: n, cursor: cursor.clone() });
            match self.apply(n, now) {
                Some(current) => {
                    reports.push(Diagnostic::Rejected { current, notification: n });
                },
                None => {},
            }
            assert(diagnostics_view(reports@) =~= diagnostics_view(before) + reports_of(
                scans,
                n,
                cursor@,
            ));
            i += 1;
        }
        assert(batch@.take(i as int) =~= batch@);
        self.last_event_id = Some(cursor);
        reports
    }
}

} // verus!
