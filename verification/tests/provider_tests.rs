use event_watch::provider::normalize_endpoint;

fn normalize(s: &str) -> String {
    String::from_utf8(normalize_endpoint(&s.as_bytes().to_vec())).unwrap()
}

#[test]
fn http_becomes_ws() {
    assert_eq!(normalize("http://localhost:8545"), "ws://localhost:8545");
}

#[test]
fn https_becomes_wss() {
    assert_eq!(normalize("https://node.example"), "wss://node.example");
}

#[test]
fn websocket_schemes_pass_through() {
    assert_eq!(normalize("ws://localhost:8545"), "ws://localhost:8545");
    assert_eq!(normalize("wss://node.example"), "wss://node.example");
}

#[test]
fn other_endpoints_are_unchanged() {
    assert_eq!(normalize("ipc:///tmp/node.ipc"), "ipc:///tmp/node.ipc");
    assert_eq!(normalize(""), "");
    assert_eq!(normalize("http:/one-slash"), "http:/one-slash");
}
