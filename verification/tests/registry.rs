use scan_stream::{Diagnostic, Scan, ScanState, ScanStatus, ScanStatusState, State};

fn note(scan_id: i32, status: ScanStatusState) -> ScanStatus {
    ScanStatus { scan_id, status }
}

#[test]
fn new_state_is_empty() {
    let state = State::new();
    assert_eq!(state.len(), 0);
    assert_eq!(state.get(1), None);
    assert_eq!(*state.last_event_id(), None);
    assert_eq!(state.scans(), vec![]);
}

#[test]
fn first_scanning_notification_creates_the_scan() {
    let mut state = State::new();
    assert_eq!(state.apply(note(7, ScanStatusState::Scanning), 1_000), None);
    assert_eq!(state.len(), 1);
    assert_eq!(state.get(7), Some(Scan { scan_id: 7, status: ScanState::Scanning(1_000) }));
}

#[test]
fn scanning_then_scanned_five_units_apart() {
    let mut state = State::new();
    assert_eq!(state.apply(note(1, ScanStatusState::Scanning), 100), None);
    assert_eq!(state.apply(note(1, ScanStatusState::Scanned), 105), None);
    assert_eq!(state.get(1), Some(Scan { scan_id: 1, status: ScanState::Scanned(5) }));
    assert_eq!(state.len(), 1);
}

#[test]
fn scanning_then_failed_keeps_the_duration() {
    let mut state = State::new();
    state.apply(note(4, ScanStatusState::Scanning), 2_000);
    assert_eq!(state.apply(note(4, ScanStatusState::Failed), 9_500), None);
    assert_eq!(state.get(4), Some(Scan { scan_id: 4, status: ScanState::Failed(7_500) }));
}

#[test]
fn duplicate_scanning_leaves_a_single_entry() {
    let mut state = State::new();
    assert_eq!(state.apply(note(2, ScanStatusState::Scanning), 10), None);
    assert_eq!(state.apply(note(2, ScanStatusState::Scanning), 20), None);
    assert_eq!(state.len(), 1);
    assert_eq!(state.get(2), Some(Scan { scan_id: 2, status: ScanState::Scanning(10) }));
}

#[test]
fn scanned_then_failed_stays_scanned() {
    let mut state = State::new();
    assert_eq!(state.apply(note(3, ScanStatusState::Scanned), 50), None);
    let refused = state.apply(note(3, ScanStatusState::Failed), 80);
    assert_eq!(refused, Some(Scan { scan_id: 3, status: ScanState::Scanned(0) }));
    assert_eq!(state.get(3), Some(Scan { scan_id: 3, status: ScanState::Scanned(0) }));
}

#[test]
fn every_notification_is_refused_in_a_terminal_status() {
    for terminal in [ScanStatusState::Scanned, ScanStatusState::Failed] {
        for incoming in
            [ScanStatusState::Scanning, ScanStatusState::Scanned, ScanStatusState::Failed]
        {
            let mut state = State::new();
            state.apply(note(9, ScanStatusState::Scanning), 1);
            state.apply(note(9, terminal), 4);
            let before = state.get(9);
            assert_eq!(state.apply(note(9, incoming), 1_000), before);
            assert_eq!(state.get(9), before);
            assert_eq!(state.len(), 1);
        }
    }
}

#[test]
fn unseen_scan_reported_scanned_is_never_scanning() {
    let mut state = State::new();
    state.apply(note(11, ScanStatusState::Scanned), 123_456);
    assert_eq!(state.get(11), Some(Scan { scan_id: 11, status: ScanState::Scanned(0) }));
    state.apply(note(12, ScanStatusState::Failed), 123_456);
    assert_eq!(state.get(12), Some(Scan { scan_id: 12, status: ScanState::Failed(0) }));
}

#[test]
fn applying_twice_equals_applying_once() {
    for status in [ScanStatusState::Scanning, ScanStatusState::Scanned, ScanStatusState::Failed] {
        let mut once = State::new();
        once.apply(note(5, status), 10);
        let mut twice = State::new();
        twice.apply(note(5, status), 10);
        twice.apply(note(5, status), 99);
        assert_eq!(once.scans(), twice.scans());
    }
}

#[test]
fn a_clock_that_reads_earlier_gives_zero() {
    let mut state = State::new();
    state.apply(note(1, ScanStatusState::Scanning), 500);
    state.apply(note(1, ScanStatusState::Scanned), 400);
    assert_eq!(state.get(1), Some(Scan { scan_id: 1, status: ScanState::Scanned(0) }));
}

#[test]
fn apply_does_not_touch_the_cursor() {
    let mut state = State::new();
    state.process(&vec![], String::from("c-1"), 0);
    state.apply(note(1, ScanStatusState::Scanning), 5);
    assert_eq!(*state.last_event_id(), Some(String::from("c-1")));
}

#[test]
fn process_applies_in_order_and_records_the_cursor() {
    let mut state = State::new();
    let batch = vec![
        note(1, ScanStatusState::Scanning),
        note(2, ScanStatusState::Scanned),
        note(1, ScanStatusState::Failed),
    ];
    let reports = state.process(&batch, String::from("urn:uuid:42"), 70);
    assert_eq!(*state.last_event_id(), Some(String::from("urn:uuid:42")));
    assert_eq!(state.get(1), Some(Scan { scan_id: 1, status: ScanState::Failed(0) }));
    assert_eq!(state.get(2), Some(Scan { scan_id: 2, status: ScanState::Scanned(0) }));
    assert_eq!(
        reports,
        vec![
            Diagnostic::Received { notification: batch[0], cursor: String::from("urn:uuid:42") },
            Diagnostic::Received { notification: batch[1], cursor: String::from("urn:uuid:42") },
            Diagnostic::Received { notification: batch[2], cursor: String::from("urn:uuid:42") },
        ]
    );
}

#[test]
fn process_reports_each_refusal_after_its_arrival() {
    let mut state = State::new();
    state.process(&vec![note(3, ScanStatusState::Scanning)], String::from("a"), 1_000);
    let batch = vec![
        note(3, ScanStatusState::Scanned),
        note(3, ScanStatusState::Failed),
        note(3, ScanStatusState::Scanning),
    ];
    let reports = state.process(&batch, String::from("b"), 4_000);
    let done = Scan { scan_id: 3, status: ScanState::Scanned(3_000) };
    assert_eq!(
        reports,
        vec![
            Diagnostic::Received { notification: batch[0], cursor: String::from("b") },
            Diagnostic::Received { notification: batch[1], cursor: String::from("b") },
            Diagnostic::Rejected { current: done, notification: batch[1] },
            Diagnostic::Received { notification: batch[2], cursor: String::from("b") },
            Diagnostic::Rejected { current: done, notification: batch[2] },
        ]
    );
    assert_eq!(state.get(3), Some(done));
}

#[test]
fn cursor_is_that_of_the_last_batch_even_if_all_was_refused() {
    let mut state = State::new();
    state.process(&vec![note(1, ScanStatusState::Scanned)], String::from("first"), 10);
    state.process(&vec![note(1, ScanStatusState::Failed)], String::from("second"), 20);
    assert_eq!(*state.last_event_id(), Some(String::from("second")));
    state.process(&vec![], String::from("third"), 30);
    assert_eq!(*state.last_event_id(), Some(String::from("third")));
    assert_eq!(state.get(1), Some(Scan { scan_id: 1, status: ScanState::Scanned(0) }));
}

#[test]
fn terminal_status_survives_later_batches() {
    let mut state = State::new();
    state.process(&vec![note(8, ScanStatusState::Scanning)], String::from("1"), 0);
    state.process(&vec![note(8, ScanStatusState::Failed)], String::from("2"), 250);
    let settled = state.get(8);
    assert_eq!(settled, Some(Scan { scan_id: 8, status: ScanState::Failed(250) }));
    for (i, status) in
        [ScanStatusState::Scanning, ScanStatusState::Scanned, ScanStatusState::Failed]
            .into_iter()
            .enumerate()
    {
        let batch = vec![note(8, status), note(9, status), note(8, status)];
        state.process(&batch, format!("later-{}", i), 1_000 + i as u64);
        assert_eq!(state.get(8), settled);
    }
}

#[test]
fn scans_are_listed_from_the_highest_identifier_down() {
    let mut state = State::new();
    for id in [5, -2, 40, 0, 17] {
        state.apply(note(id, ScanStatusState::Scanning), 3);
    }
    state.apply(note(0, ScanStatusState::Scanned), 9);
    let listed = state.scans();
    assert_eq!(
        listed,
        vec![
            Scan { scan_id: 40, status: ScanState::Scanning(3) },
            Scan { scan_id: 17, status: ScanState::Scanning(3) },
            Scan { scan_id: 5, status: ScanState::Scanning(3) },
            Scan { scan_id: 0, status: ScanState::Scanned(6) },
            Scan { scan_id: -2, status: ScanState::Scanning(3) },
        ]
    );
}

#[test]
fn extreme_identifiers_are_ordinary_keys() {
    let mut state = State::new();
    state.apply(note(i32::MIN, ScanStatusState::Scanning), 0);
    state.apply(note(i32::MAX, ScanStatusState::Scanning), 0);
    assert_eq!(state.len(), 2);
    assert_eq!(state.scans()[0].scan_id, i32::MAX);
    assert_eq!(state.scans()[1].scan_id, i32::MIN);
}
