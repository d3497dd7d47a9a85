use sniplex::{Action, Connection, Direction, Phase, RoutingTable, SniError};

fn len16(n: usize) -> [u8; 2] {
    [(n >> 8) as u8, n as u8]
}

/// A TLS 1.2 ClientHello record whose only extension names `host`.
fn client_hello_for(host: &str) -> Vec<u8> {
    let name = host.as_bytes();
    let mut list: Vec<u8> = vec![0];
    list.extend_from_slice(&len16(name.len()));
    list.extend_from_slice(name);
    let mut ext: Vec<u8> = vec![0x00, 0x00];
    ext.extend_from_slice(&len16(list.len() + 2));
    ext.extend_from_slice(&len16(list.len()));
    ext.extend_from_slice(&list);
    let mut body: Vec<u8> = vec![0x03, 0x03];
    body.extend_from_slice(&[1u8; 32]);
    body.extend_from_slice(&[0x00, 0x00, 0x02, 0xc0, 0x2f, 0x01, 0x00]);
    body.extend_from_slice(&len16(ext.len()));
    body.extend_from_slice(&ext);
    let mut hs: Vec<u8> = vec![0x01, 0x00];
    hs.extend_from_slice(&len16(body.len()));
    hs.extend_from_slice(&body);
    let mut rec: Vec<u8> = vec![0x16, 0x03, 0x01];
    rec.extend_from_slice(&len16(hs.len()));
    rec.extend_from_slice(&hs);
    rec
}

fn routes(entries: &[(&str, &str)]) -> RoutingTable {
    let mut t = RoutingTable::new();
    for (h, b) in entries {
        t.insert(h.to_string(), b.to_string());
    }
    t
}

fn accepted() -> Connection {
    Connection::new("abcdEFGH12345678".to_string(), "192.0.2.7:51000".to_string())
}

#[test]
fn new_connection_is_inspecting() {
    let c = accepted();
    assert_eq!(c.phase(), Phase::Inspecting);
    assert_eq!(c.id(), "abcdEFGH12345678");
    assert_eq!(c.source(), "192.0.2.7:51000");
    assert_eq!(c.hostname(), None);
    assert_eq!(c.backend(), None);
    assert_eq!(c.sni_error(), None);
    assert_eq!(c.first_done(), None);
}

#[test]
fn scenario_routed_host_is_connected_and_relayed() {
    let t = routes(&[("a.example.com", "127.0.0.1:9001")]);
    let mut c = accepted();
    let a = c.on_peek(&t, &client_hello_for("a.example.com"));
    assert_eq!(a, Action::Connect("127.0.0.1:9001".to_string()));
    assert_eq!(c.phase(), Phase::Connecting);
    assert_eq!(c.hostname(), Some("a.example.com".to_string()));
    assert_eq!(c.backend(), Some("127.0.0.1:9001".to_string()));
    assert_eq!(c.on_connect(true), Action::Relay);
    assert_eq!(c.phase(), Phase::Relaying);
    assert_eq!(c.on_relay_done(Direction::ClientToBackend), Action::Close);
    assert_eq!(c.phase(), Phase::Closed);
    assert_eq!(c.first_done(), Some(Direction::ClientToBackend));
}

#[test]
fn scenario_unknown_host_without_default_is_closed() {
    let t = routes(&[("a.example.com", "127.0.0.1:9001")]);
    let mut c = accepted();
    let a = c.on_peek(&t, &client_hello_for("unknown.example.com"));
    assert_eq!(a, Action::Close);
    assert_eq!(c.phase(), Phase::Closed);
    assert_eq!(c.hostname(), Some("unknown.example.com".to_string()));
    assert_eq!(c.backend(), None);
    assert_eq!(c.on_connect(true), Action::Ignore);
    assert_eq!(c.phase(), Phase::Closed);
}

#[test]
fn unknown_host_with_default_goes_to_default() {
    let t = routes(&[("a.example.com", "127.0.0.1:9001"), ("DEFAULT", "127.0.0.1:9100")]);
    let mut c = accepted();
    let a = c.on_peek(&t, &client_hello_for("unknown.example.com"));
    assert_eq!(a, Action::Connect("127.0.0.1:9100".to_string()));
}

#[test]
fn scenario_truncated_client_hello_is_closed() {
    let t = routes(&[("a.example.com", "127.0.0.1:9001"), ("DEFAULT", "127.0.0.1:9100")]);
    let hello = client_hello_for("a.example.com");
    let mut c = accepted();
    let a = c.on_peek(&t, &hello[..hello.len() / 2]);
    assert_eq!(a, Action::Close);
    assert_eq!(c.phase(), Phase::Closed);
    assert_eq!(c.sni_error(), Some(SniError::Incomplete));
    assert_eq!(c.hostname(), None);
    assert_eq!(c.backend(), None);
}

#[test]
fn no_server_name_is_closed_even_with_default() {
    let t = routes(&[("DEFAULT", "127.0.0.1:9100")]);
    let mut c = accepted();
    let a = c.on_peek(&t, b"\x16\x03\x01\xff\xff");
    assert_eq!(a, Action::Close);
    assert_eq!(c.sni_error(), Some(SniError::Malformed));
}

#[test]
fn scenario_refused_backend_closes_without_relay() {
    let t = routes(&[("a.example.com", "127.0.0.1:9001")]);
    let mut c = accepted();
    let a = c.on_peek(&t, &client_hello_for("a.example.com"));
    assert_eq!(a, Action::Connect("127.0.0.1:9001".to_string()));
    assert_eq!(c.on_connect(false), Action::Close);
    assert_eq!(c.phase(), Phase::Closed);
    assert_eq!(c.on_relay_done(Direction::BackendToClient), Action::Ignore);
    assert_eq!(c.first_done(), None);
}

#[test]
fn only_the_first_finished_direction_counts() {
    let t = routes(&[("a.example.com", "127.0.0.1:9001")]);
    let mut c = accepted();
    c.on_peek(&t, &client_hello_for("a.example.com"));
    c.on_connect(true);
    assert_eq!(c.on_relay_done(Direction::BackendToClient), Action::Close);
    assert_eq!(c.on_relay_done(Direction::ClientToBackend), Action::Ignore);
    assert_eq!(c.first_done(), Some(Direction::BackendToClient));
}

#[test]
fn second_peek_is_ignored() {
    let t = routes(&[("a.example.com", "127.0.0.1:9001"), ("b.example.com", "127.0.0.1:9002")]);
    let mut c = accepted();
    c.on_peek(&t, &client_hello_for("a.example.com"));
    assert_eq!(c.on_peek(&t, &client_hello_for("b.example.com")), Action::Ignore);
    assert_eq!(c.backend(), Some("127.0.0.1:9001".to_string()));
}

#[test]
fn events_out_of_order_are_ignored() {
    let mut c = accepted();
    assert_eq!(c.on_connect(true), Action::Ignore);
    assert_eq!(c.on_relay_done(Direction::ClientToBackend), Action::Ignore);
    assert_eq!(c.phase(), Phase::Inspecting);
}
