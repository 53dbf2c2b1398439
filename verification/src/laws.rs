//! What holds of the client whatever it receives.
//!
//! Each function here is a theorem about the specifications that the
//! executable functions are verified against.

use vstd::prelude::*;
use crate::app::{AppView, MsgView};
use crate::decode::{lemma_error_is_kept, notification_of, notifications_of, DecodeError};
use crate::registry::{
    apply_all, apply_one, is_listing, rejects, reports_of, Delivery, StateView,
};
use crate::status::{elapsed_between, Scan, ScanState, ScanStatus, ScanStatusState};
use crate::diagnostics::DiagnosticView;
use crate::supervisor::{subscription_request, Connection, SupervisorView};

verus! {

/// Applying a notification is idempotent: delivered a second time, at
/// whatever time, it leaves the registry as the first delivery left it.
/// This holds of every registry, an empty one among them.
pub proof fn law_apply_is_idempotent(
    scans: Map<i32, ScanState>,
    n: ScanStatus,
    first: u64,
    second: u64,
)
    ensures
        apply_one(apply_one(scans, n, first), n, second) == apply_one(scans, n, first),
{
    assert(apply_one(apply_one(scans, n, first), n, second) =~= apply_one(scans, n, first));
}

/// A notification that changed nothing when it was applied changes nothing
/// when it is applied again.
pub proof fn law_no_change_stays_no_change(
    scans: Map<i32, ScanState>,
    n: ScanStatus,
    first: u64,
    second: u64,
)
    requires
        apply_one(scans, n, first) == scans,
    ensures
        apply_one(scans, n, second) == scans,
{
    assert(apply_one(scans, n, first).contains_key(n.scan_id));
    assert(apply_one(scans, n, first)[n.scan_id] == scans[n.scan_id]);
    assert(apply_one(scans, n, second) =~= scans);
}

/// A refused notification leaves the registry unchanged.
pub proof fn law_refusal_changes_nothing(scans: Map<i32, ScanState>, n: ScanStatus, now: u64)
    requires
        rejects(scans, n),
    ensures
        apply_one(scans, n, now) == scans,
{
    assert(apply_one(scans, n, now) =~= scans);
}

/// Whether the registry has taken `n` in already: its scan is known, and
/// either has reached a terminal status or is in progress with `n` itself
/// reporting it in progress.
pub open spec fn settled(scans: Map<i32, ScanState>, n: ScanStatus) -> bool {
    scans.contains_key(n.scan_id) && (scans[n.scan_id].is_terminal()
        || n.status is Scanning)
}

/// A notification changes nothing exactly if the registry has taken it in
/// already, and that does not depend on the time.
pub proof fn law_settled_means_no_change(scans: Map<i32, ScanState>, n: ScanStatus, now: u64)
    ensures
        settled(scans, n) <==> apply_one(scans, n, now) == scans,
{
    if settled(scans, n) {
        assert(apply_one(scans, n, now) =~= scans);
    }
    if apply_one(scans, n, now) == scans {
        assert(apply_one(scans, n, now).contains_key(n.scan_id));
        assert(apply_one(scans, n, now)[n.scan_id] == scans[n.scan_id]);
    }
}

proof fn lemma_applied_is_settled(scans: Map<i32, ScanState>, n: ScanStatus, now: u64)
    ensures
        settled(apply_one(scans, n, now), n),
{
}

proof fn lemma_settled_is_kept(
    scans: Map<i32, ScanState>,
    n: ScanStatus,
    other: ScanStatus,
    now: u64,
)
    requires
        settled(scans, n),
    ensures
        settled(apply_one(scans, other, now), n),
{
}

proof fn lemma_batch_keeps_settled(
    scans: Map<i32, ScanState>,
    batch: Seq<ScanStatus>,
    now: u64,
    n: ScanStatus,
)
    requires
        settled(scans, n),
    ensures
        settled(apply_all(scans, batch, now), n),
    decreases batch.len(),
{
    if batch.len() > 0 {
        lemma_batch_keeps_settled(scans, batch.drop_last(), now, n);
        lemma_settled_is_kept(apply_all(scans, batch.drop_last(), now), n, batch.last(), now);
    }
}

proof fn lemma_batch_settles_its_own(
    scans: Map<i32, ScanState>,
    batch: Seq<ScanStatus>,
    now: u64,
    j: int,
)
    requires
        0 <= j < batch.len(),
    ensures
        settled(apply_all(scans, batch, now), batch[j]),
    decreases batch.len(),
{
    let before = apply_all(scans, batch.drop_last(), now);
    if j == batch.len() - 1 {
        lemma_applied_is_settled(before, batch.last(), now);
    } else {
        lemma_batch_settles_its_own(scans, batch.drop_last(), now, j);
        assert(batch.drop_last()[j] == batch[j]);
        lemma_settled_is_kept(before, batch[j], batch.last(), now);
    }
}

proof fn lemma_settled_batch_changes_nothing(
    scans: Map<i32, ScanState>,
    batch: Seq<ScanStatus>,
    now: u64,
)
    requires
        forall|j: int| 0 <= j < batch.len() ==> settled(scans, #[trigger] batch[j]),
    ensures
        apply_all(scans, batch, now) == scans,
    decreases batch.len(),
{
    if batch.len() > 0 {
        assert forall|j: int| 0 <= j < batch.drop_last().len() implies settled(
            scans,
            #[trigger] batch.drop_last()[j],
        ) by {
            assert(batch.drop_last()[j] == batch[j]);
        }
        lemma_settled_batch_changes_nothing(scans, batch.drop_last(), now);
        assert(settled(scans, batch[batch.len() - 1]));
        law_settled_means_no_change(scans, batch.last(), now);
    }
}

/// Whether `n` is among the notifications of `deliveries`.
pub open spec fn was_delivered(deliveries: Seq<Delivery>, n: ScanStatus) -> bool {
    exists|i: int, j: int|
        0 <= i < deliveries.len() && 0 <= j < deliveries[i].batch.len()
            && #[trigger] deliveries[i].batch[j] == n
}

proof fn lemma_deliveries_keep_settled(state: StateView, deliveries: Seq<Delivery>, n: ScanStatus)
    requires
        settled(state.scans, n),
    ensures
        settled(state.process_all(deliveries).scans, n),
    decreases deliveries.len(),
{
    if deliveries.len() > 0 {
        let last = deliveries.last();
        lemma_deliveries_keep_settled(state, deliveries.drop_last(), n);
        lemma_batch_keeps_settled(
            state.process_all(deliveries.drop_last()).scans,
            last.batch,
            last.now,
            n,
        );
    }
}

proof fn lemma_deliveries_settle_their_own(
    state: StateView,
    deliveries: Seq<Delivery>,
    i: int,
    j: int,
)
    requires
        0 <= i < deliveries.len(),
        0 <= j < deliveries[i].batch.len(),
    ensures
        settled(state.process_all(deliveries).scans, deliveries[i].batch[j]),
    decreases deliveries.len(),
{
    let last = deliveries.last();
    let before = state.process_all(deliveries.drop_last());
    if i == deliveries.len() - 1 {
        lemma_batch_settles_its_own(before.scans, last.batch, last.now, j);
    } else {
        lemma_deliveries_settle_their_own(state, deliveries.drop_last(), i, j);
        assert(deliveries.drop_last()[i] == deliveries[i]);
        lemma_batch_keeps_settled(before.scans, last.batch, last.now, deliveries[i].batch[j]);
    }
}

proof fn lemma_settled_deliveries_change_no_scan(state: StateView, replay: Seq<Delivery>)
    requires
        forall|i: int, j: int|
            0 <= i < replay.len() && 0 <= j < replay[i].batch.len() ==> settled(
                state.scans,
                #[trigger] replay[i].batch[j],
            ),
    ensures
        state.process_all(replay).scans == state.scans,
    decreases replay.len(),
{
    if replay.len() > 0 {
        let last = replay.last();
        assert forall|i: int, j: int|
            0 <= i < replay.drop_last().len() && 0 <= j < replay.drop_last()[i].batch.len()
            implies settled(state.scans, #[trigger] replay.drop_last()[i].batch[j]) by {
            assert(replay.drop_last()[i] == replay[i]);
            assert(settled(state.scans, replay[i].batch[j]));
        }
        lemma_settled_deliveries_change_no_scan(state, replay.drop_last());
        assert forall|j: int| 0 <= j < last.batch.len() implies settled(
            state.scans,
            #[trigger] last.batch[j],
        ) by {
            assert(settled(state.scans, replay[replay.len() - 1].batch[j]));
        }
        lemma_settled_batch_changes_nothing(state.scans, last.batch, last.now);
    }
}

/// Redelivery is harmless. After a sequence of deliveries has been
/// processed, processing any notifications of it again, in whatever
/// grouping, order and number and at whatever time, changes no scan.
pub proof fn law_replay_changes_no_scan(
    state: StateView,
    deliveries: Seq<Delivery>,
    replay: Seq<Delivery>,
)
    requires
        forall|i: int, j: int|
            0 <= i < replay.len() && 0 <= j < replay[i].batch.len() ==> was_delivered(
                deliveries,
                #[trigger] replay[i].batch[j],
            ),
    ensures
        state.process_all(deliveries).process_all(replay).scans == state.process_all(
            deliveries,
        ).scans,
{
    let reached = state.process_all(deliveries);
    assert forall|i: int, j: int|
        0 <= i < replay.len() && 0 <= j < replay[i].batch.len() implies settled(
        reached.scans,
        #[trigger] replay[i].batch[j],
    ) by {
        let n = replay[i].batch[j];
        assert(was_delivered(deliveries, n));
        let (a, b) = choose|a: int, b: int|
            0 <= a < deliveries.len() && 0 <= b < deliveries[a].batch.len()
                && #[trigger] deliveries[a].batch[b] == n;
        lemma_deliveries_settle_their_own(state, deliveries, a, b);
    }
    lemma_settled_deliveries_change_no_scan(reached, replay);
}

/// A batch that is delivered a second time changes no scan.
pub proof fn law_redelivered_batch_changes_no_scan(
    scans: Map<i32, ScanState>,
    batch: Seq<ScanStatus>,
    first: u64,
    second: u64,
)
    ensures
        apply_all(apply_all(scans, batch, first), batch, second) == apply_all(
            scans,
            batch,
            first,
        ),
{
    let reached = apply_all(scans, batch, first);
    assert forall|j: int| 0 <= j < batch.len() implies settled(reached, #[trigger] batch[j]) by {
        lemma_batch_settles_its_own(scans, batch, first, j);
    }
    lemma_settled_batch_changes_nothing(reached, batch, second);
}

/// A scan never seen before passes through an implicit `Scanning` origin: a
/// first notification that reports it `scanned` leaves it `Scanned` with a
/// duration of zero, one that reports it `failed` leaves it `Failed` with a
/// duration of zero, and only one that reports it `scanning` leaves it
/// `Scanning`.
pub proof fn law_implicit_origin(scans: Map<i32, ScanState>, n: ScanStatus, now: u64)
    requires
        !scans.contains_key(n.scan_id),
    ensures
        apply_one(scans, n, now).contains_key(n.scan_id),
        apply_one(scans, n, now)[n.scan_id] == match n.status {
            ScanStatusState::Scanning => ScanState::Scanning(now),
            ScanStatusState::Scanned => ScanState::Scanned(0),
            ScanStatusState::Failed => ScanState::Failed(0),
        },
{
}

/// The registry never forgets a scan, and a scan in a terminal status keeps
/// its status and duration through one more notification.
pub proof fn law_one_notification_keeps_terminal(
    scans: Map<i32, ScanState>,
    n: ScanStatus,
    now: u64,
    id: i32,
)
    requires
        scans.contains_key(id),
    ensures
        apply_one(scans, n, now).contains_key(id),
        scans[id].is_terminal() ==> apply_one(scans, n, now)[id] == scans[id],
{
}

/// The registry never forgets a scan, and a scan in a terminal status keeps
/// its status and duration through a whole batch.
pub proof fn law_batch_keeps_terminal(
    scans: Map<i32, ScanState>,
    batch: Seq<ScanStatus>,
    now: u64,
    id: i32,
)
    requires
        scans.contains_key(id),
    ensures
        apply_all(scans, batch, now).contains_key(id),
        scans[id].is_terminal() ==> apply_all(scans, batch, now)[id] == scans[id],
    decreases batch.len(),
{
    if batch.len() > 0 {
        law_batch_keeps_terminal(scans, batch.drop_last(), now, id);
        law_one_notification_keeps_terminal(
            apply_all(scans, batch.drop_last(), now),
            batch.last(),
            now,
            id,
        );
    }
}

/// Monotonicity: once a scan has reached `Scanned` or `Failed`, no sequence
/// of deliveries, whatever they hold and whenever they arrive, changes its
/// status or its duration.
pub proof fn law_terminal_is_final(state: StateView, deliveries: Seq<Delivery>, id: i32)
    requires
        state.scans.contains_key(id),
        state.scans[id].is_terminal(),
    ensures
        state.process_all(deliveries).scans.contains_key(id),
        state.process_all(deliveries).scans[id] == state.scans[id],
    decreases deliveries.len(),
{
    if deliveries.len() > 0 {
        let last = deliveries.last();
        law_terminal_is_final(state, deliveries.drop_last(), id);
        law_batch_keeps_terminal(
            state.process_all(deliveries.drop_last()).scans,
            last.batch,
            last.now,
            id,
        );
    }
}

/// After any number of deliveries, at least one, the recorded cursor is the
/// cursor of the last delivery, however many of its notifications were
/// refused and even if it held none.
pub proof fn law_cursor_is_last_delivered(state: StateView, deliveries: Seq<Delivery>)
    requires
        deliveries.len() > 0,
    ensures
        state.process_all(deliveries).last_event_id == Some(deliveries.last().cursor),
{
}

/// The resume cursor only advances: once one is recorded, no sequence of
/// deliveries leaves the client without one.
pub proof fn law_cursor_is_never_cleared(state: StateView, deliveries: Seq<Delivery>)
    requires
        state.last_event_id is Some,
    ensures
        state.process_all(deliveries).last_event_id is Some,
{
}

/// Without a delivery the recorded cursor stays what it was.
pub proof fn law_cursor_only_moves_on_delivery(state: StateView)
    ensures
        state.process_all(Seq::empty()).last_event_id == state.last_event_id,
{
}

/// A message that is not a decoded batch leaves the registry and the resume
/// state untouched: nothing of a batch that failed to decode is applied.
pub proof fn law_only_batches_touch_the_state(app: AppView, msg: MsgView, now: u64, live: bool)
    requires
        !(msg is ScanEvent),
    ensures
        app.update(msg, now, live).0.state == app.state,
{
}

/// A refresh tick changes nothing and asks for nothing but a new rendering.
pub proof fn law_refresh_changes_nothing(app: AppView, now: u64, live: bool)
    ensures
        app.update(MsgView::Timer, now, live).0 == app,
        app.update(MsgView::Timer, now, live).1.reports.len() == 0,
        app.update(MsgView::Timer, now, live).1.reopen is None,
        app.update(MsgView::Timer, now, live).1.should_render,
{
}

/// A probe that finds the connection live does nothing.
pub proof fn law_live_connection_is_kept(app: AppView, now: u64)
    requires
        app.supervisor.connection is Connected,
    ensures
        app.update(MsgView::ConnectionCheck, now, true).0 == app,
        app.update(MsgView::ConnectionCheck, now, true).1.reports.len() == 0,
        app.update(MsgView::ConnectionCheck, now, true).1.reopen is None,
{
}

/// Reconnection uses the latest cursor: whenever a probe replaces the
/// connection after a cursor has been recorded, the new subscription request
/// is the endpoint followed by that cursor.
pub proof fn law_reconnection_carries_cursor(
    app: AppView,
    cursor: Seq<char>,
    now: u64,
    live: bool,
)
    requires
        app.state.last_event_id == Some(cursor),
        app.supervisor.must_reopen(live),
    ensures
        app.update(MsgView::ConnectionCheck, now, live).1.reopen matches Some(order)
            && order.url == app.supervisor.endpoint + "&Last-Event-ID="@ + cursor,
{
}

/// The same, from the delivery on: a probe that replaces the connection
/// right after a batch has been processed asks for the stream from that
/// batch's cursor.
pub proof fn law_reconnection_after_delivery(
    app: AppView,
    batch: Seq<ScanStatus>,
    cursor: Seq<char>,
    now: u64,
    later: u64,
    live: bool,
)
    requires
        app.supervisor.must_reopen(live),
    ensures
        ({
            let after = app.update(MsgView::ScanEvent(batch, cursor), now, live).0;
            after.update(MsgView::ConnectionCheck, later, live).1.reopen matches Some(order)
                && order.url == app.supervisor.endpoint + "&Last-Event-ID="@ + cursor
        }),
{
}

/// A replacement is total. The order to replace says to close the previous
/// connection exactly if there is one, and with the order the supervisor
/// gives that connection up: until a new one is reported open, no further
/// order asks to close anything.
pub proof fn law_previous_connection_is_closed_once(
    supervisor: SupervisorView,
    live: bool,
    cursor: Option<Seq<char>>,
    live_after: bool,
    cursor_after: Option<Seq<char>>,
)
    requires
        supervisor.must_reopen(live),
    ensures
        ({
            let (next, order) = supervisor.probe(live, cursor);
            &&& order matches Some(order) && order.close_previous == (supervisor.connection
                is Connected)
            &&& next.connection is Disconnected
            &&& next.probe(live_after, cursor_after).1 matches Some(again)
                && !again.close_previous
        }),
{
}

/// Closing is idempotent: after the connection has been given up there is
/// none to release, and giving it up again changes nothing.
pub proof fn law_close_is_idempotent(supervisor: SupervisorView)
    ensures
        supervisor.closed().connection is Disconnected,
        supervisor.closed().closed() == supervisor.closed(),
{
}

/// What a scan in progress shows never shrinks while the clock moves on,
/// and the time of a finished scan does not depend on the clock at all.
pub proof fn law_shown_time_follows_the_clock(scan: Scan, earlier: u64, later: u64)
    requires
        earlier <= later,
    ensures
        scan.duration_at(earlier) <= scan.duration_at(later),
        scan.status.is_terminal() ==> scan.duration_at(earlier) == scan.duration_at(later),
{
}

/// A duration is never negative, and it is the plain difference whenever the
/// clock has not run backwards.
pub proof fn law_duration_is_the_difference(start: u64, now: u64)
    ensures
        0 <= elapsed_between(start, now),
        start <= now ==> start + elapsed_between(start, now) == now,
        now <= start ==> elapsed_between(start, now) == 0,
{
}

/// A duplicate `scanning` notification for a scan in progress is no
/// refusal: it changes nothing and only its arrival is reported.
pub proof fn law_duplicate_scanning_is_silent(
    scans: Map<i32, ScanState>,
    id: i32,
    cursor: Seq<char>,
    now: u64,
)
    requires
        scans.contains_key(id),
        scans[id] is Scanning,
    ensures
        ({
            let n = ScanStatus { scan_id: id, status: ScanStatusState::Scanning };
            &&& apply_one(scans, n, now) == scans
            &&& reports_of(scans, n, cursor) == seq![
                DiagnosticView::Received { notification: n, cursor },
            ]
        }),
{
    let n = ScanStatus { scan_id: id, status: ScanStatusState::Scanning };
    assert(apply_one(scans, n, now) =~= scans);
}

proof fn lemma_listings_agree_upto(
    a: Seq<Scan>,
    b: Seq<Scan>,
    scans: Map<i32, ScanState>,
    k: int,
)
    requires
        is_listing(a, scans),
        is_listing(b, scans),
        0 <= k <= a.len(),
    ensures
        k <= b.len(),
        forall|i: int| 0 <= i < k ==> a[i] == b[i],
    decreases k,
{
    if k > 0 {
        lemma_listings_agree_upto(a, b, scans, k - 1);
        let i = k - 1;
        assert(scans.contains_key(a[i].scan_id));
        let j = choose|j: int| 0 <= j < b.len() && #[trigger] b[j].scan_id == a[i].scan_id;
        if j < i {
            assert(a[j] == b[j]);
            assert(a[j].scan_id > a[i].scan_id);
        }
        assert(i < b.len());
        assert(scans.contains_key(b[i].scan_id));
        let h = choose|h: int| 0 <= h < a.len() && #[trigger] a[h].scan_id == b[i].scan_id;
        if h < i {
            assert(a[h] == b[h]);
            assert(b[h].scan_id > b[i].scan_id);
        }
        if j > i {
            assert(b[i].scan_id > b[j].scan_id);
        }
        if h > i {
            assert(a[i].scan_id > a[h].scan_id);
        }
        assert(a[i].scan_id == b[i].scan_id);
    }
}

/// A registry has one listing only: two lists that each hold every scan
/// once, with its recorded status, from the highest identifier down, are
/// the same list.
pub proof fn law_listing_is_unique(a: Seq<Scan>, b: Seq<Scan>, scans: Map<i32, ScanState>)
    requires
        is_listing(a, scans),
        is_listing(b, scans),
    ensures
        a == b,
{
    lemma_listings_agree_upto(a, b, scans, a.len() as int);
    lemma_listings_agree_upto(b, a, scans, b.len() as int);
    assert(a =~= b);
}

/// A batch decodes as a whole or not at all: it decodes exactly if every
/// element does, and then it holds the notification of each element at that
/// element's place.
pub proof fn law_batch_decodes_as_a_whole(items: Seq<serde_json::Value>)
    ensures
        notifications_of(items) is Ok <==> forall|i: int|
            0 <= i < items.len() ==> notification_of(#[trigger] items[i]) is Ok,
        notifications_of(items) matches Ok(batch) ==> batch.len() == items.len() && forall|i: int|
            0 <= i < items.len() ==> notification_of(#[trigger] items[i]) == Ok::<
                ScanStatus,
                DecodeError,
            >(batch[i]),
    decreases items.len(),
{
    if items.len() > 0 {
        let before = items.drop_last();
        law_batch_decodes_as_a_whole(before);
        assert forall|i: int| 0 <= i < before.len() implies before[i] == items[i] by {}
        if notifications_of(items) is Ok {
            let batch = notifications_of(items)->Ok_0;
            assert forall|i: int| 0 <= i < items.len() implies notification_of(
                #[trigger] items[i],
            ) == Ok::<ScanStatus, DecodeError>(batch[i]) by {
                if i < before.len() {
                    assert(before[i] == items[i]);
                }
            }
        }
        if forall|i: int| 0 <= i < items.len() ==> notification_of(#[trigger] items[i]) is Ok {
            assert forall|i: int| 0 <= i < before.len() implies notification_of(
                #[trigger] before[i],
            ) is Ok by {
                assert(before[i] == items[i]);
            }
            assert(notification_of(items[items.len() - 1]) is Ok);
        }
    }
}

/// The first element that does not decode decides the error of the batch,
/// whatever follows it.
pub proof fn law_first_failure_decides(items: Seq<serde_json::Value>, k: int)
    requires
        0 <= k < items.len(),
        notification_of(items[k]) is Err,
        forall|i: int| 0 <= i < k ==> notification_of(#[trigger] items[i]) is Ok,
    ensures
        notifications_of(items) == Err::<Seq<ScanStatus>, DecodeError>(
            notification_of(items[k])->Err_0,
        ),
{
    let upto = items.take(k + 1);
    assert(upto.drop_last() =~= items.take(k));
    assert(upto.last() == items[k]);
    law_batch_decodes_as_a_whole(items.take(k));
    assert forall|i: int| 0 <= i < k implies notification_of(#[trigger] items.take(k)[i]) is Ok by {
        assert(items.take(k)[i] == items[i]);
    }
    assert(notifications_of(items.take(k)) is Ok);
    assert(notifications_of(upto) == Err::<Seq<ScanStatus>, DecodeError>(
        notification_of(items[k])->Err_0,
    ));
    lemma_error_is_kept(items, k + 1);
}

/// The wire form is faithful: each tag is read back from its own wire form,
/// and a text that reads as a tag is that tag's wire form.
pub proof fn law_wire_form_round_trip(tag: ScanStatusState, s: Seq<char>)
    ensures
        ScanStatusState::of_wire_form(tag.wire_form()) == Some(tag),
        ScanStatusState::of_wire_form(s) == Some(tag) ==> s == tag.wire_form(),
{
    reveal_strlit("scanning");
    reveal_strlit("scanned");
    reveal_strlit("failed");
    assert("scanning"@.len() == 8);
    assert("scanned"@.len() == 7);
    assert("failed"@.len() == 6);
}

} // verus!
