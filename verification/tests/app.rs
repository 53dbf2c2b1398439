use scan_stream::{
    App, Connection, Diagnostic, Msg, Reopen, Scan, ScanState, ScanStatus, ScanStatusState,
    Severity, Step, CONNECTION_CHECK_INTERVAL_SECS, MERCURE_URL, REFRESH_INTERVAL_SECS,
};

fn connected() -> App {
    let (mut app, _) = App::create();
    app.opened(true);
    app
}

fn deliver(app: &mut App, payload: &str, cursor: &str, now: u64) -> Step {
    let msg = Msg::from_delivery(Some(String::from(payload)), Some(String::from(cursor)));
    app.update(msg, now, true)
}

fn quiet() -> Step {
    Step { reports: vec![], reopen: None, should_render: true }
}

#[test]
fn the_client_starts_empty_and_orders_a_subscription_without_cursor() {
    let (app, order) = App::create();
    assert_eq!(app.state().len(), 0);
    assert_eq!(*app.state().last_event_id(), None);
    assert_eq!(app.supervisor().connection(), Connection::Disconnected);
    assert_eq!(app.supervisor().endpoint(), MERCURE_URL);
    assert_eq!(order, Reopen { close_previous: false, url: String::from(MERCURE_URL) });
    assert_eq!(
        MERCURE_URL,
        ".well-known/mercure?topic=https%3A%2F%2Fsome.example.com%2Fstream"
    );
}

#[test]
fn the_refresh_tick_is_shorter_than_the_probe_interval() {
    assert_eq!(REFRESH_INTERVAL_SECS, 1);
    assert_eq!(CONNECTION_CHECK_INTERVAL_SECS, 10);
    assert!(REFRESH_INTERVAL_SECS < CONNECTION_CHECK_INTERVAL_SECS);
}

#[test]
fn scanning_then_scanned_five_units_later_ends_scanned() {
    let mut app = connected();
    deliver(&mut app, r#"[{"scanId":1,"status":"scanning"}]"#, "e1", 10_000);
    deliver(&mut app, r#"[{"scanId":1,"status":"scanned"}]"#, "e2", 10_005);
    assert_eq!(app.state().get(1), Some(Scan { scan_id: 1, status: ScanState::Scanned(5) }));
    assert_eq!(app.state().len(), 1);
    assert_eq!(*app.state().last_event_id(), Some(String::from("e2")));
}

#[test]
fn duplicate_scanning_delivered_twice_stays_scanning() {
    let mut app = connected();
    let first = deliver(&mut app, r#"[{"scanId":2,"status":"scanning"}]"#, "e1", 700);
    let second = deliver(&mut app, r#"[{"scanId":2,"status":"scanning"}]"#, "e1", 900);
    assert_eq!(app.state().get(2), Some(Scan { scan_id: 2, status: ScanState::Scanning(700) }));
    assert_eq!(app.state().len(), 1);
    for step in [first, second] {
        assert_eq!(step.reports.len(), 1);
        assert_eq!(step.reports[0].severity(), Severity::Info);
        assert_eq!(step.reopen, None);
    }
}

#[test]
fn scanned_followed_by_failed_stays_scanned_with_a_warning() {
    let mut app = connected();
    deliver(&mut app, r#"[{"scanId":3,"status":"scanned"}]"#, "e1", 100);
    let step = deliver(&mut app, r#"[{"scanId":3,"status":"failed"}]"#, "e2", 5_000);
    assert_eq!(app.state().get(3), Some(Scan { scan_id: 3, status: ScanState::Scanned(0) }));
    let n = ScanStatus { scan_id: 3, status: ScanStatusState::Failed };
    assert_eq!(
        step.reports,
        vec![
            Diagnostic::Received { notification: n, cursor: String::from("e2") },
            Diagnostic::Rejected {
                current: Scan { scan_id: 3, status: ScanState::Scanned(0) },
                notification: n,
            },
        ]
    );
    assert_eq!(step.reports[1].severity(), Severity::Warning);
    assert_eq!(
        step.reports[1].message(),
        "Tried to update current (3, scanned) with new event (3, failed)"
    );
    assert_eq!(*app.state().last_event_id(), Some(String::from("e2")));
}

#[test]
fn probe_that_finds_the_connection_dead_replaces_it() {
    let mut app = connected();
    deliver(&mut app, r#"[{"scanId":1,"status":"scanning"}]"#, "urn:uuid:last", 10);
    let step = app.update(Msg::ConnectionCheck, 20, false);
    assert_eq!(
        step,
        Step {
            reports: vec![Diagnostic::ConnectionLost],
            reopen: Some(Reopen {
                close_previous: true,
                url: format!("{}&Last-Event-ID=urn:uuid:last", MERCURE_URL),
            }),
            should_render: true,
        }
    );
    assert_eq!(app.supervisor().connection(), Connection::Disconnected);
    app.opened(true);
    assert_eq!(app.supervisor().connection(), Connection::Connected);
    assert_eq!(app.update(Msg::ConnectionCheck, 30, true), quiet());
    assert_eq!(app.state().get(1), Some(Scan { scan_id: 1, status: ScanState::Scanning(10) }));
}

#[test]
fn a_probe_without_connection_reopens_without_closing() {
    let (mut app, _) = App::create();
    app.opened(false);
    let step = app.update(Msg::ConnectionCheck, 0, true);
    assert_eq!(
        step,
        Step {
            reports: vec![Diagnostic::ConnectionLost],
            reopen: Some(Reopen { close_previous: false, url: String::from(MERCURE_URL) }),
            should_render: true,
        }
    );
}

#[test]
fn a_probe_before_any_delivery_reopens_without_cursor() {
    let mut app = connected();
    let step = app.update(Msg::ConnectionCheck, 0, false);
    assert_eq!(
        step.reopen,
        Some(Reopen { close_previous: true, url: String::from(MERCURE_URL) })
    );
}

#[test]
fn a_replacement_after_several_batches_uses_the_latest_cursor() {
    let mut app = connected();
    deliver(&mut app, r#"[{"scanId":1,"status":"scanning"}]"#, "c1", 1);
    deliver(&mut app, r#"[{"scanId":1,"status":"scanned"}]"#, "c2", 2);
    deliver(&mut app, r#"[{"scanId":1,"status":"failed"}]"#, "c3", 3);
    deliver(&mut app, "[]", "c4", 4);
    let step = app.update(Msg::ConnectionCheck, 5, false);
    assert_eq!(step.reopen.unwrap().url, format!("{}&Last-Event-ID=c4", MERCURE_URL));
}

#[test]
fn a_refresh_tick_changes_nothing() {
    let mut app = connected();
    deliver(&mut app, r#"[{"scanId":6,"status":"scanning"}]"#, "c", 50);
    let before = app.state().scans();
    assert_eq!(app.update(Msg::Timer, 60, false), quiet());
    assert_eq!(app.state().scans(), before);
    assert_eq!(*app.state().last_event_id(), Some(String::from("c")));
    assert_eq!(app.supervisor().connection(), Connection::Connected);
}

#[test]
fn a_logged_error_is_reported_and_changes_nothing() {
    let mut app = connected();
    deliver(&mut app, r#"[{"scanId":6,"status":"scanning"}]"#, "c", 50);
    let step = app.update(Msg::LogError(String::from("boom")), 60, true);
    assert_eq!(
        step,
        Step {
            reports: vec![Diagnostic::Dropped(String::from("boom"))],
            reopen: None,
            should_render: true,
        }
    );
    assert_eq!(step.reports[0].message(), "Got error: boom");
    assert_eq!(app.state().len(), 1);
    assert_eq!(*app.state().last_event_id(), Some(String::from("c")));
}

#[test]
fn a_delivery_that_does_not_decode_is_dropped_whole() {
    let mut app = connected();
    deliver(&mut app, r#"[{"scanId":1,"status":"scanning"}]"#, "good", 5);
    let step = deliver(
        &mut app,
        r#"[{"scanId":1,"status":"scanned"},{"scanId":2,"status":"paused"}]"#,
        "bad",
        9,
    );
    assert_eq!(
        step.reports,
        vec![Diagnostic::Dropped(String::from("Could not deserialize Json event."))]
    );
    assert_eq!(step.reports[0].severity(), Severity::Warning);
    assert_eq!(app.state().get(1), Some(Scan { scan_id: 1, status: ScanState::Scanning(5) }));
    assert_eq!(app.state().get(2), None);
    assert_eq!(*app.state().last_event_id(), Some(String::from("good")));
}

#[test]
fn from_delivery_decodes_a_batch() {
    let msg = Msg::from_delivery(
        Some(String::from(r#"[{"scanId":4,"status":"failed"}]"#)),
        Some(String::from("id-9")),
    );
    assert_eq!(
        msg,
        Msg::ScanEvent(
            vec![ScanStatus { scan_id: 4, status: ScanStatusState::Failed }],
            String::from("id-9"),
        )
    );
}

#[test]
fn from_delivery_turns_every_decode_failure_into_a_log_error() {
    for payload in ["", "{", "{}", "[1]", r#"[{"scanId":1,"status":"Scanning"}]"#] {
        let msg = Msg::from_delivery(Some(String::from(payload)), Some(String::from("x")));
        assert_eq!(msg, Msg::LogError(String::from("Could not deserialize Json event.")));
    }
}

#[test]
fn from_delivery_without_text_is_a_log_error() {
    let weird = Msg::LogError(String::from("Something weird with event text or last message id :("));
    assert_eq!(Msg::from_delivery(None, Some(String::from("x"))), weird);
    assert_eq!(Msg::from_delivery(Some(String::from("[]")), None), weird);
    assert_eq!(Msg::from_delivery(None, None), weird);
}

#[test]
fn an_empty_batch_still_moves_the_cursor() {
    let mut app = connected();
    let step = deliver(&mut app, "[]", "only-cursor", 1);
    assert_eq!(step, quiet());
    assert_eq!(app.state().len(), 0);
    assert_eq!(*app.state().last_event_id(), Some(String::from("only-cursor")));
}

#[test]
fn deliveries_are_applied_while_disconnected_too() {
    let (mut app, _) = App::create();
    let msg = Msg::ScanEvent(
        vec![ScanStatus { scan_id: 1, status: ScanStatusState::Scanning }],
        String::from("c"),
    );
    let step = app.update(msg, 3, false);
    assert_eq!(step.reopen, None);
    assert_eq!(app.state().get(1), Some(Scan { scan_id: 1, status: ScanState::Scanning(3) }));
    assert_eq!(app.supervisor().connection(), Connection::Disconnected);
}

#[test]
fn closing_releases_the_connection_once() {
    let mut app = connected();
    deliver(&mut app, r#"[{"scanId":1,"status":"scanning"}]"#, "c", 1);
    assert!(app.close());
    assert_eq!(app.supervisor().connection(), Connection::Disconnected);
    assert!(!app.close());
    assert!(!app.close());
    assert_eq!(app.state().len(), 1);
    assert_eq!(*app.state().last_event_id(), Some(String::from("c")));
}

#[test]
fn closing_without_connection_releases_nothing() {
    let (mut app, _) = App::create();
    assert!(!app.close());
    app.opened(false);
    assert!(!app.close());
}
