use dashpipe::daemon::{next_step, DaemonEvent, DaemonStep};
use dashpipe::daemon::{
    classify_connection, first_index, matching_browser_ws, matching_cli_connection,
    ConnectionKind, Connections, Waiting,
};

fn waiting(d: Option<&str>, conn: u32) -> Waiting<u32> {
    Waiting { dashboard: d.map(|s| s.to_string()), conn }
}

#[test]
fn first_index_of_slices() {
    assert_eq!(first_index::<u8>(&[]), None);
    assert_eq!(first_index(&[5u8, 6]), Some(0));
}

#[test]
fn classify_by_request_line() {
    assert!(matches!(classify_connection(b"GET / HTTP/1.1"), ConnectionKind::Browser));
    assert!(matches!(classify_connection(b"GET / HTTP/1.0"), ConnectionKind::CommandLine));
    assert!(matches!(classify_connection(&[0u8; 14]), ConnectionKind::CommandLine));
    assert!(matches!(classify_connection(b"GET / HTTP/1.1\r"), ConnectionKind::CommandLine));
}

#[test]
fn matching_prefers_same_dashboard() {
    let mut v = vec![waiting(Some("a"), 1), waiting(Some("b"), 2), waiting(Some("b"), 3)];
    let got = matching_cli_connection(&Some("b".to_string()), &mut v).unwrap();
    assert_eq!(got.conn, 2);
    assert_eq!(v.iter().map(|w| w.conn).collect::<Vec<_>>(), vec![1, 3]);
}

#[test]
fn matching_falls_back_to_first() {
    let mut v = vec![waiting(Some("a"), 1), waiting(None, 2)];
    assert_eq!(matching_browser_ws(&Some("z".to_string()), &mut v), Some(1));
    assert_eq!(v.len(), 1);
    let mut e: Vec<Waiting<u32>> = Vec::new();
    assert_eq!(matching_browser_ws(&None, &mut e), None);
}

#[test]
fn matching_without_dashboard_takes_first() {
    let mut v = vec![waiting(Some("a"), 1), waiting(None, 2)];
    assert_eq!(matching_browser_ws(&None, &mut v), Some(1));
    assert_eq!(v[0].conn, 2);
    let mut c = vec![waiting(Some("a"), 1), waiting(None, 2)];
    assert_eq!(matching_cli_connection(&None, &mut c).map(|w| w.conn), Some(1));
    assert_eq!(c.len(), 1);
}

#[test]
fn daemon_quits_after_one_transfer_only_when_once() {
    assert!(matches!(next_step(true, DaemonEvent::ForwardDone), DaemonStep::Quit));
    assert!(matches!(next_step(false, DaemonEvent::ForwardDone), DaemonStep::Serve));
    assert!(matches!(next_step(true, DaemonEvent::ConnectionHandled), DaemonStep::Serve));
    assert!(matches!(next_step(false, DaemonEvent::ConnectionHandled), DaemonStep::Serve));
}

#[test]
fn connections_pair_clients_and_browsers() {
    let mut c: Connections<&str, u32> = Connections::new();
    assert!(c.connect_cli(Some("x".to_string()), "cli1").is_none());
    assert!(c.connect_cli(Some("y".to_string()), "cli2").is_none());
    assert_eq!(c.cli_connections.len(), 2);
    assert_eq!(c.connect_ws(Some("y".to_string()), 7), Some(("cli2", 7)));
    assert_eq!(c.connect_ws(None, 8), Some(("cli1", 8)));
    assert!(c.connect_cli(None, "cli4").is_none());
    assert!(c.connect_cli(Some("q".to_string()), "cli5").is_none());
    assert_eq!(c.connect_ws(None, 10), Some(("cli4", 10)));
    assert_eq!(c.connect_ws(None, 11), Some(("cli5", 11)));
    assert!(c.cli_connections.is_empty());
    assert!(c.connect_ws(None, 9).is_none());
    assert_eq!(c.web_sockets.len(), 1);
    assert_eq!(c.connect_cli(None, "cli3"), Some(("cli3", 9)));
    assert!(c.web_sockets.is_empty() && c.cli_connections.is_empty());
}

#[test]
fn only_one_side_ever_waits() {
    let mut c: Connections<u32, u32> = Connections::new();
    for i in 0..5u32 {
        c.connect_ws(Some(format!("d{}", i % 2)), i);
        assert!(c.cli_connections.is_empty());
    }
    for i in 0..7u32 {
        c.connect_cli(None, i);
        assert!(c.web_sockets.is_empty() || c.cli_connections.is_empty());
    }
    assert_eq!(c.web_sockets.len(), 0);
    assert_eq!(c.cli_connections.len(), 2);
}
