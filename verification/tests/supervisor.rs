use scan_stream::{is_active, subscription_url, Connection, Reopen, Supervisor, READY_STATE_OPEN};

const ENDPOINT: &str = "https://hub.example/.well-known/mercure?topic=scans";

#[test]
fn a_first_subscription_asks_for_the_endpoint_itself() {
    assert_eq!(subscription_url(ENDPOINT, &None), ENDPOINT);
    assert_eq!(subscription_url("", &None), "");
}

#[test]
fn a_resumed_subscription_carries_the_cursor() {
    let cursor = Some(String::from("urn:uuid:5e94c686"));
    assert_eq!(
        subscription_url(ENDPOINT, &cursor),
        "https://hub.example/.well-known/mercure?topic=scans&Last-Event-ID=urn:uuid:5e94c686"
    );
    assert_eq!(subscription_url("e", &Some(String::new())), "e&Last-Event-ID=");
}

#[test]
fn only_an_open_transport_is_live() {
    assert!(!is_active(0));
    assert!(is_active(1));
    assert!(!is_active(2));
    assert!(!is_active(3));
    assert!(!is_active(u16::MAX));
    assert!(is_active(READY_STATE_OPEN));
}

#[test]
fn a_new_supervisor_is_disconnected_and_orders_the_first_subscription() {
    let (supervisor, order) = Supervisor::new(ENDPOINT);
    assert_eq!(supervisor.connection(), Connection::Disconnected);
    assert_eq!(supervisor.endpoint(), ENDPOINT);
    assert_eq!(order, Reopen { close_previous: false, url: String::from(ENDPOINT) });
}

#[test]
fn a_successful_opening_connects() {
    let (mut supervisor, _) = Supervisor::new(ENDPOINT);
    supervisor.opened(true);
    assert_eq!(supervisor.connection(), Connection::Connected);
}

#[test]
fn a_failed_first_opening_is_retried_by_the_next_probe() {
    let (mut supervisor, _) = Supervisor::new(ENDPOINT);
    supervisor.opened(false);
    assert_eq!(supervisor.connection(), Connection::Disconnected);
    for live in [true, false] {
        let order = supervisor.probe(live, &None);
        assert_eq!(order, Some(Reopen { close_previous: false, url: String::from(ENDPOINT) }));
        assert_eq!(supervisor.connection(), Connection::Disconnected);
    }
}

#[test]
fn a_probe_that_finds_the_connection_live_does_nothing() {
    let (mut supervisor, _) = Supervisor::new(ENDPOINT);
    supervisor.opened(true);
    let cursor = Some(String::from("c"));
    assert_eq!(supervisor.probe(true, &cursor), None);
    assert_eq!(supervisor.probe(true, &None), None);
    assert_eq!(supervisor.connection(), Connection::Connected);
}

#[test]
fn a_dead_connection_is_closed_once_and_reopened_from_the_cursor() {
    let (mut supervisor, _) = Supervisor::new(ENDPOINT);
    supervisor.opened(true);
    let cursor = Some(String::from("urn:uuid:c-17"));
    let order = supervisor.probe(false, &cursor);
    assert_eq!(
        order,
        Some(Reopen {
            close_previous: true,
            url: format!("{}&Last-Event-ID=urn:uuid:c-17", ENDPOINT),
        })
    );
    assert_eq!(supervisor.connection(), Connection::Disconnected);
    let again = supervisor.probe(false, &cursor);
    assert_eq!(
        again,
        Some(Reopen {
            close_previous: false,
            url: format!("{}&Last-Event-ID=urn:uuid:c-17", ENDPOINT),
        })
    );
    supervisor.opened(true);
    assert_eq!(supervisor.connection(), Connection::Connected);
    assert_eq!(supervisor.probe(true, &cursor), None);
}

#[test]
fn each_replacement_uses_the_cursor_of_its_own_time() {
    let (mut supervisor, _) = Supervisor::new(ENDPOINT);
    supervisor.opened(true);
    let first = supervisor.probe(false, &Some(String::from("one"))).unwrap();
    assert_eq!(first.url, format!("{}&Last-Event-ID=one", ENDPOINT));
    supervisor.opened(true);
    let second = supervisor.probe(false, &Some(String::from("two"))).unwrap();
    assert_eq!(second.url, format!("{}&Last-Event-ID=two", ENDPOINT));
    assert!(second.close_previous);
}

#[test]
fn close_is_idempotent() {
    let (mut supervisor, _) = Supervisor::new(ENDPOINT);
    supervisor.opened(true);
    assert!(supervisor.close());
    assert_eq!(supervisor.connection(), Connection::Disconnected);
    assert!(!supervisor.close());
    assert_eq!(supervisor.connection(), Connection::Disconnected);
}

#[test]
fn a_probe_after_closing_reopens_without_closing_again() {
    let (mut supervisor, _) = Supervisor::new(ENDPOINT);
    supervisor.opened(true);
    supervisor.close();
    let order = supervisor.probe(true, &None).unwrap();
    assert!(!order.close_previous);
    assert_eq!(order.url, ENDPOINT);
}
